//! An analog input: one converter channel, normalized by a calibration maximum, with an
//! optional indicator that shows the normalized level.

use vstd::prelude::*;

use crate::error::Error;
use crate::level::Fraction;
use crate::lights::{led_set_spec, LedChannelMux, LED};
use crate::step::{Action, Event};

verus! {

/// Number of channels of the converter.
pub const ADC_CHANNEL_COUNT: u8 = 4;

/// Where a `read` stands.
#[derive(Clone, Copy, Debug, PartialEq, Eq, Structural)]
pub enum AnalogPhase {
    Idle,
    /// Waiting for the converter's raw reading.
    AwaitAdc,
    /// The indicator shows this normalized value; waiting for the flush.
    AwaitFlush(Fraction),
}

/// A calibration maximum that readings can be divided by: positive, with a numerator that
/// fits a denominator and a denominator that keeps `raw * den` within an `i64`.
pub open spec fn calibrated(max_value: Fraction) -> bool {
    0 < max_value.num <= u32::MAX && max_value.den > 0
}

/// A raw reading divided by the calibration maximum, unclamped.
pub open spec fn normalized(raw: i32, max_value: Fraction) -> Fraction {
    Fraction { num: (raw * max_value.den) as i64, den: max_value.num as u32 }
}

/// An analog input on one converter channel.
#[derive(Debug)]
pub struct AnalogInput {
    pub led: Option<LED>,
    pub channel: u8,
    /// The last normalized reading.
    pub value: Fraction,
    /// The raw reading that normalizes to 1.
    pub max_value: Fraction,
    pub phase: AnalogPhase,
}

impl AnalogInput {
    /// The indicator, if any, is on a channel of the driver, and the calibration can
    /// divide.
    pub open spec fn wf(self) -> bool {
        &&& match self.led {
            Some(led) => led.wf(),
            None => true,
        }
        &&& calibrated(self.max_value)
    }

    /// What `read` does to the input, and what it asks for: a channel outside 0..=3 is
    /// refused with `Validation`.
    pub open spec fn read_spec(self) -> (AnalogInput, Action<Fraction>) {
        if self.channel < ADC_CHANNEL_COUNT {
            (AnalogInput { phase: AnalogPhase::AwaitAdc, ..self }, Action::ReadAdc(self.channel))
        } else {
            (AnalogInput { phase: AnalogPhase::Idle, ..self }, Action::Done(Err(Error::Validation)))
        }
    }

    /// What reporting `event` does to the input and the channel state, and what it asks
    /// for next.
    pub open spec fn resume_spec(self, state: Map<u8, u8>, event: Event) -> (AnalogInput, Map<
        u8,
        u8,
    >, Action<Fraction>) {
        let idle = AnalogInput { phase: AnalogPhase::Idle, ..self };
        match (self.phase, event) {
            (AnalogPhase::AwaitAdc, Event::AdcRead(Ok(raw))) => {
                let v = normalized(raw, self.max_value);
                match self.led {
                    Some(led) => {
                        let (l, s, res) = led_set_spec(led, state, v);
                        match res {
                            Ok(_) => (
                                AnalogInput {
                                    led: Some(l),
                                    value: v,
                                    phase: AnalogPhase::AwaitFlush(v),
                                    ..self
                                },
                                s,
                                Action::Flush,
                            ),
                            Err(e) => (AnalogInput { value: v, ..idle }, state, Action::Done(Err(e))),
                        }
                    },
                    None => (AnalogInput { value: v, ..idle }, state, Action::Done(Ok(v))),
                }
            },
            (AnalogPhase::AwaitAdc, Event::AdcRead(Err(msg))) => (
                idle,
                state,
                Action::Done(Err(Error::Transport(msg))),
            ),
            (AnalogPhase::AwaitFlush(v), Event::Flushed(Ok(_))) => (idle, state, Action::Done(Ok(v))),
            (AnalogPhase::AwaitFlush(_), Event::Flushed(Err(msg))) => (
                idle,
                state,
                Action::Done(Err(Error::Transport(msg))),
            ),
            _ => (idle, state, Action::Done(Err(Error::InvariantViolation))),
        }
    }

    /// An input on converter `channel`, reading zero, with the calibration maximum
    /// `max_value`.
    pub fn new(led: Option<LED>, channel: u8, max_value: Fraction) -> (r: AnalogInput)
        ensures
            r == (AnalogInput {
                led,
                channel,
                value: Fraction { num: 0, den: 1 },
                max_value,
                phase: AnalogPhase::Idle,
            }),
    {
        AnalogInput { led, channel, value: Fraction::zero(), max_value, phase: AnalogPhase::Idle }
    }

    /// Divides a raw reading by the calibration maximum.
    pub fn normalize(&self, raw: i32) -> (r: Fraction)
        requires
            calibrated(self.max_value),
        ensures
            r == normalized(raw, self.max_value),
    {
        let den = self.max_value.den;
        proof {
            assert(-0x8000_0000_0000_0000 < raw * den < 0x8000_0000_0000_0000) by (nonlinear_arith)
                requires
                    -0x8000_0000 <= raw < 0x8000_0000,
                    0 < den < 0x1_0000_0000,
            ;
        }
        Fraction { num: raw as i64 * den as i64, den: self.max_value.num as u32 }
    }

    /// Starts a read: asks for one reading of the input's converter channel.
    pub fn read(&mut self) -> (r: Action<Fraction>)
        ensures
            (*final(self), r) == old(self).read_spec(),
    {
        if self.channel < ADC_CHANNEL_COUNT {
            self.phase = AnalogPhase::AwaitAdc;
            Action::ReadAdc(self.channel)
        } else {
            self.phase = AnalogPhase::Idle;
            Action::Done(Err(Error::Validation))
        }
    }

    /// Takes the outcome of the last action. A reading is normalized and recorded as is;
    /// with an indicator, the indicator is set to it (a value outside [0, 1] fails the read
    /// with `Validation`) and the read succeeds only if the flush does.
    pub fn resume(&mut self, mux: &mut LedChannelMux, event: Event) -> (r: Action<Fraction>)
        requires
            old(self).wf(),
        ensures
            (*final(self), final(mux)@, r) == old(self).resume_spec(old(mux)@, event),
            final(self).wf(),
    {
        let phase = self.phase;
        self.phase = AnalogPhase::Idle;
        match (phase, event) {
            (AnalogPhase::AwaitAdc, Event::AdcRead(Ok(raw))) => {
                let v = self.normalize(raw);
                self.value = v;
                if let Some(led) = &mut self.led {
                    match led.set_brightness(mux, v) {
                        Ok(_) => {
                            self.phase = AnalogPhase::AwaitFlush(v);
                            Action::Flush
                        },
                        Err(e) => Action::Done(Err(e)),
                    }
                } else {
                    Action::Done(Ok(v))
                }
            },
            (AnalogPhase::AwaitAdc, Event::AdcRead(Err(msg))) => Action::Done(
                Err(Error::Transport(msg)),
            ),
            (AnalogPhase::AwaitFlush(v), Event::Flushed(Ok(_))) => Action::Done(Ok(v)),
            (AnalogPhase::AwaitFlush(_), Event::Flushed(Err(msg))) => Action::Done(
                Err(Error::Transport(msg)),
            ),
            _ => Action::Done(Err(Error::InvariantViolation)),
        }
    }
}

/// Normalization: a raw zero reads as zero, a raw reading at the calibration maximum as
/// one, and one above it as more than one; without an indicator the read returns the
/// normalized value unclamped.
pub proof fn lemma_normalization(input: AnalogInput, state: Map<u8, u8>, raw: i32)
    requires
        input.wf(),
        input.led is None,
        input.phase == AnalogPhase::AwaitAdc,
    ensures
        ({
            let v = normalized(raw, input.max_value);
            &&& raw == 0 ==> v.num == 0 && v.den > 0
            &&& raw * input.max_value.den == input.max_value.num ==> v.num == v.den && v.den > 0
            &&& raw * input.max_value.den > input.max_value.num ==> v.num > v.den
            &&& input.resume_spec(state, Event::AdcRead(Ok(raw))).2 == Action::<Fraction>::Done(
                Ok(v),
            )
        }),
{
    let m = input.max_value;
    assert(-0x8000_0000_0000_0000 < raw * m.den < 0x8000_0000_0000_0000) by (nonlinear_arith)
        requires
            -0x8000_0000 <= raw < 0x8000_0000,
            0 < m.den < 0x1_0000_0000,
    ;
    if raw == 0 {
        assert(raw * m.den == 0) by (nonlinear_arith)
            requires
                raw == 0,
        ;
    }
}

} // verus!
