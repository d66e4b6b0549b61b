//! The board variants and the peripherals each of them has, with the indicator channel
//! that every peripheral owns.

use vstd::prelude::*;

use crate::analog_input::{AnalogInput, AnalogPhase};
use crate::digital_input::{DigitalInput, InputPhase};
use crate::digital_output::{DigitalOutput, OutputPhase};
use crate::level::Fraction;
use crate::lights::{LedChannelMux, LED};
use crate::relay::{Relay, RelayPhase};

verus! {

/// Numerator of the raw reading that normalizes to 1. A reading is worth `raw / 10 * 2.048`
/// volts on a 25.85 V scale, so 1 is reached at `258500 / 2048 = 64625 / 512` raw units.
pub const ANALOG_MAX_NUM: i64 = 64625;

/// Denominator of the raw reading that normalizes to 1.
pub const ANALOG_MAX_DEN: u32 = 512;

/// The board variant.
#[derive(Clone, Copy, Debug, PartialEq, Eq, Structural)]
pub enum HatType {
    /// Full-size board: three relays and indicators for every peripheral.
    AutomationHAT,
    /// Smaller board without indicators.
    AutomationPHAT,
    /// Compact board with a display and without indicators.
    AutomationHATMini,
}

/// Whether the peripherals of a variant mirror their state on their indicators.
pub open spec fn auto_light_of(hat_type: HatType) -> bool {
    hat_type != HatType::AutomationHATMini
}

/// The indicator on `channel`, off, if the variant has indicators.
pub open spec fn indicator(hat_type: HatType, channel: u8) -> Option<LED> {
    if hat_type == HatType::AutomationHAT {
        Some(LED { channel, brightness: Fraction { num: 0, den: 1 } })
    } else {
        None
    }
}

/// The calibration maximum of the analog inputs, in raw units.
pub open spec fn analog_max() -> Fraction {
    Fraction { num: ANALOG_MAX_NUM, den: ANALOG_MAX_DEN }
}

impl HatType {
    /// Whether peripherals on this variant mirror their state on their indicators.
    pub fn auto_light(&self) -> (r: bool)
        ensures
            r == auto_light_of(*self),
    {
        !matches!(self, HatType::AutomationHATMini)
    }
}

fn indicator_for(hat_type: HatType, channel: u8) -> (r: Option<LED>)
    requires
        channel < 18,
    ensures
        r == indicator(hat_type, channel),
{
    match hat_type {
        HatType::AutomationHAT => Some(LED::new(channel)),
        _ => None,
    }
}

/// The relays: the first two exist on the full-size board only.
#[derive(Debug)]
pub struct Relays {
    pub one: Option<Relay>,
    pub two: Option<Relay>,
    pub three: Relay,
}

impl Relays {
    pub fn new(one: Option<Relay>, two: Option<Relay>, three: Relay) -> (r: Relays)
        ensures
            r == (Relays { one, two, three }),
    {
        Relays { one, two, three }
    }
}

/// The three digital inputs.
#[derive(Debug)]
pub struct Inputs {
    pub one: DigitalInput,
    pub two: DigitalInput,
    pub three: DigitalInput,
}

impl Inputs {
    pub fn new(one: DigitalInput, two: DigitalInput, three: DigitalInput) -> (r: Inputs)
        ensures
            r == (Inputs { one, two, three }),
    {
        Inputs { one, two, three }
    }
}

/// The three digital outputs.
#[derive(Debug)]
pub struct Outputs {
    pub one: DigitalOutput,
    pub two: DigitalOutput,
    pub three: DigitalOutput,
}

impl Outputs {
    pub fn new(one: DigitalOutput, two: DigitalOutput, three: DigitalOutput) -> (r: Outputs)
        ensures
            r == (Outputs { one, two, three }),
    {
        Outputs { one, two, three }
    }
}

/// The three analog inputs.
#[derive(Debug)]
pub struct AnalogInputs {
    pub one: AnalogInput,
    pub two: AnalogInput,
    pub three: AnalogInput,
}

impl AnalogInputs {
    pub fn new(one: AnalogInput, two: AnalogInput, three: AnalogInput) -> (r: AnalogInputs)
        ensures
            r == (AnalogInputs { one, two, three }),
    {
        AnalogInputs { one, two, three }
    }
}

/// Every peripheral of a board, and the mux of its indicator channels.
pub struct AutomationHAT {
    pub hat_type: HatType,
    pub relays: Relays,
    pub inputs: Inputs,
    pub outputs: Outputs,
    pub analog_inputs: AnalogInputs,
    pub lights: LedChannelMux,
}

/// A relay of a variant, off, with its NO and NC indicators on channels `no` and `nc`.
pub open spec fn relay_of(hat_type: HatType, no: u8, nc: u8) -> Relay {
    Relay {
        no_led: indicator(hat_type, no),
        nc_led: indicator(hat_type, nc),
        auto_light: auto_light_of(hat_type),
        value: false,
        phase: RelayPhase::Idle,
    }
}

/// A digital input of a variant, with its indicator on `led`.
pub open spec fn input_of(hat_type: HatType, led: u8) -> DigitalInput {
    DigitalInput {
        led: indicator(hat_type, led),
        auto_light: auto_light_of(hat_type),
        phase: InputPhase::Idle,
    }
}

/// A digital output of a variant, low, with its indicator on `led`.
pub open spec fn output_of(hat_type: HatType, led: u8) -> DigitalOutput {
    DigitalOutput {
        led: indicator(hat_type, led),
        auto_light: auto_light_of(hat_type),
        value: false,
        phase: OutputPhase::Idle,
    }
}

/// An analog input of a variant on converter channel `channel`, with its indicator on
/// LED channel `channel` too.
pub open spec fn analog_of(hat_type: HatType, channel: u8) -> AnalogInput {
    AnalogInput {
        led: indicator(hat_type, channel),
        channel,
        value: Fraction { num: 0, den: 1 },
        max_value: analog_max(),
        phase: AnalogPhase::Idle,
    }
}

impl AutomationHAT {
    /// Every peripheral can be operated.
    pub open spec fn wf(self) -> bool {
        &&& match self.relays.one {
            Some(r) => r.wf(),
            None => true,
        }
        &&& match self.relays.two {
            Some(r) => r.wf(),
            None => true,
        }
        &&& self.relays.three.wf()
        &&& self.inputs.one.wf() && self.inputs.two.wf() && self.inputs.three.wf()
        &&& self.outputs.one.wf() && self.outputs.two.wf() && self.outputs.three.wf()
        &&& self.analog_inputs.one.wf() && self.analog_inputs.two.wf()
            && self.analog_inputs.three.wf()
    }

    /// The peripherals of a variant. On the full-size board, the analog inputs own
    /// indicator channels 0 to 2, the outputs 3 to 5, the relays 6 to 11 (NO then NC for
    /// each), and inputs one to three channels 14, 13 and 12; relays one and two exist
    /// there only. The other variants have no indicators, and the compact one turns
    /// auto-light off.
    pub fn new(hat_type: HatType) -> (r: AutomationHAT)
        ensures
            r.wf(),
            r.hat_type == hat_type,
            r.lights@ == Map::<u8, u8>::empty(),
            r.relays.one == (if hat_type == HatType::AutomationHAT {
                Some(relay_of(hat_type, 6, 7))
            } else {
                None
            }),
            r.relays.two == (if hat_type == HatType::AutomationHAT {
                Some(relay_of(hat_type, 8, 9))
            } else {
                None
            }),
            r.relays.three == relay_of(hat_type, 10, 11),
            r.inputs.one == input_of(hat_type, 14),
            r.inputs.two == input_of(hat_type, 13),
            r.inputs.three == input_of(hat_type, 12),
            r.outputs.one == output_of(hat_type, 3),
            r.outputs.two == output_of(hat_type, 4),
            r.outputs.three == output_of(hat_type, 5),
            r.analog_inputs.one == analog_of(hat_type, 0),
            r.analog_inputs.two == analog_of(hat_type, 1),
            r.analog_inputs.three == analog_of(hat_type, 2),
    {
        let auto_light = hat_type.auto_light();
        let full = matches!(hat_type, HatType::AutomationHAT);
        let max_value = Fraction { num: ANALOG_MAX_NUM, den: ANALOG_MAX_DEN };
        let (one, two) = if full {
            (
                Some(
                    Relay::new_with_auto_light(
                        indicator_for(hat_type, 6),
                        indicator_for(hat_type, 7),
                        auto_light,
                    ),
                ),
                Some(
                    Relay::new_with_auto_light(
                        indicator_for(hat_type, 8),
                        indicator_for(hat_type, 9),
                        auto_light,
                    ),
                ),
            )
        } else {
            (None, None)
        };
        let three = Relay::new_with_auto_light(
            indicator_for(hat_type, 10),
            indicator_for(hat_type, 11),
            auto_light,
        );
        let inputs = Inputs::new(
            DigitalInput::new_with_auto_light(indicator_for(hat_type, 14), auto_light),
            DigitalInput::new_with_auto_light(indicator_for(hat_type, 13), auto_light),
            DigitalInput::new_with_auto_light(indicator_for(hat_type, 12), auto_light),
        );
        let outputs = Outputs::new(
            DigitalOutput::new_with_auto_light(indicator_for(hat_type, 3), auto_light),
            DigitalOutput::new_with_auto_light(indicator_for(hat_type, 4), auto_light),
            DigitalOutput::new_with_auto_light(indicator_for(hat_type, 5), auto_light),
        );
        let analog_inputs = AnalogInputs::new(
            AnalogInput::new(indicator_for(hat_type, 0), 0, max_value),
            AnalogInput::new(indicator_for(hat_type, 1), 1, max_value),
            AnalogInput::new(indicator_for(hat_type, 2), 2, max_value),
        );
        AutomationHAT {
            hat_type,
            relays: Relays::new(one, two, three),
            inputs,
            outputs,
            analog_inputs,
            lights: LedChannelMux::new(),
        }
    }
}

} // verus!
