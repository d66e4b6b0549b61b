use vstd::prelude::*;

use crate::error::Error;

verus! {

/// What the caller must do next for a peripheral's operation in progress.
#[derive(Debug, PartialEq, Eq)]
pub enum Action<T> {
    /// Program the LED driver with the mux's current frame (`LedChannelMux::frame`): enable
    /// its mask, then output its values. Report `Event::Flushed`.
    Flush,
    /// Drive the peripheral's pin high (`true`) or low. Report `Event::PinWritten`.
    WritePin(bool),
    /// Sample the peripheral's pin. Report `Event::PinRead`.
    ReadPin,
    /// Select this converter channel and take one reading, as one critical section.
    /// Report `Event::AdcRead`.
    ReadAdc(u8),
    /// The operation is over, with this outcome.
    Done(Result<T, Error>),
}

/// The outcome of an action, as the transport reported it; a failure carries the
/// transport's message.
#[derive(Debug, PartialEq, Eq)]
pub enum Event {
    Flushed(Result<(), String>),
    PinWritten(Result<(), String>),
    PinRead(Result<bool, String>),
    AdcRead(Result<i32, String>),
}

} // verus!
