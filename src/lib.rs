//! Logical control points of a multi-channel I/O expansion board: digital inputs and
//! outputs, analog inputs and relays, each of which may own indicator lights on an
//! 18-channel LED driver that is programmed as a whole.
//!
//! The library holds every decision and the shared indicator state; the caller owns the
//! buses. An operation on a peripheral is a small state machine: it hands back an
//! [`Action`] (flush the LED frame, drive or sample a pin, read the converter), the caller
//! performs it and reports the outcome as an [`Event`], until the action is `Done`.

mod analog_input;
mod board;
mod digital_input;
mod digital_output;
mod error;
mod level;
mod lights;
mod relay;
mod step;

pub use analog_input::{AnalogInput, AnalogPhase, ADC_CHANNEL_COUNT};
pub use board::{AnalogInputs, AutomationHAT, HatType, Inputs, Outputs, Relays};
pub use digital_input::{DigitalInput, InputPhase};
pub use digital_output::{DigitalOutput, OutputPhase};
pub use error::Error;
pub use level::Fraction;
pub use lights::{LED, LedChannelMux, LedFrame, CHANNEL_COUNT};
pub use relay::{Relay, RelayPhase};
pub use step::{Action, Event};
