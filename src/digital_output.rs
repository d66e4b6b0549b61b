//! A digital output: the indicator is updated before the pin, so a failed indicator
//! update leaves the pin untouched.

use vstd::prelude::*;

use crate::error::Error;
use crate::level::{level_for, level_of};
use crate::lights::{led_set_spec, shown, LedChannelMux, LED};
use crate::step::{Action, Event};

verus! {

/// Where a `write` stands.
#[derive(Clone, Copy, Debug, PartialEq, Eq, Structural)]
pub enum OutputPhase {
    Idle,
    /// The indicator shows the new state; waiting for the flush.
    AwaitFlush(bool),
    /// Waiting for the pin to be driven to this state.
    AwaitPin(bool),
}

/// A digital output with an optional indicator that mirrors it when `auto_light` is set.
#[derive(Debug)]
pub struct DigitalOutput {
    pub led: Option<LED>,
    pub auto_light: bool,
    /// The last state the pin was successfully driven to.
    pub value: bool,
    pub phase: OutputPhase,
}

impl DigitalOutput {
    /// The bound indicator, if any, is on a channel of the driver.
    pub open spec fn wf(self) -> bool {
        match self.led {
            Some(led) => led.wf(),
            None => true,
        }
    }

    /// What `write(on)` does to the output and the channel state, and what it asks for.
    pub open spec fn write_spec(self, state: Map<u8, u8>, on: bool) -> (DigitalOutput, Map<
        u8,
        u8,
    >, Action<()>) {
        match self.led {
            Some(led) if self.auto_light => {
                let (l, s, _) = led_set_spec(led, state, level_of(on));
                (
                    DigitalOutput { led: Some(l), phase: OutputPhase::AwaitFlush(on), ..self },
                    s,
                    Action::Flush,
                )
            },
            _ => (DigitalOutput { phase: OutputPhase::AwaitPin(on), ..self }, state, Action::WritePin(on)),
        }
    }

    /// What reporting `event` does to the output, and what it asks for next.
    pub open spec fn resume_spec(self, event: Event) -> (DigitalOutput, Action<()>) {
        let idle = DigitalOutput { phase: OutputPhase::Idle, ..self };
        match (self.phase, event) {
            (OutputPhase::AwaitFlush(on), Event::Flushed(Ok(_))) => (
                DigitalOutput { phase: OutputPhase::AwaitPin(on), ..self },
                Action::WritePin(on),
            ),
            (OutputPhase::AwaitFlush(_), Event::Flushed(Err(msg))) => (
                idle,
                Action::Done(Err(Error::Transport(msg))),
            ),
            (OutputPhase::AwaitPin(on), Event::PinWritten(Ok(_))) => (
                DigitalOutput { value: on, ..idle },
                Action::Done(Ok(())),
            ),
            (OutputPhase::AwaitPin(_), Event::PinWritten(Err(msg))) => (
                idle,
                Action::Done(Err(Error::Transport(msg))),
            ),
            _ => (idle, Action::Done(Err(Error::InvariantViolation))),
        }
    }

    /// An output, low, whose indicator mirrors it.
    pub fn new(led: Option<LED>) -> (r: DigitalOutput)
        ensures
            r == (DigitalOutput { led, auto_light: true, value: false, phase: OutputPhase::Idle }),
    {
        DigitalOutput { led, auto_light: true, value: false, phase: OutputPhase::Idle }
    }

    /// An output, low, whose indicator mirrors it only if `auto_light` is set.
    pub fn new_with_auto_light(led: Option<LED>, auto_light: bool) -> (r: DigitalOutput)
        ensures
            r == (DigitalOutput { led, auto_light, value: false, phase: OutputPhase::Idle }),
    {
        DigitalOutput { led, auto_light, value: false, phase: OutputPhase::Idle }
    }

    /// Starts driving the output to `on`. With auto-light and an indicator, the indicator
    /// is set to full or zero first and a flush is asked for; else the pin write is.
    pub fn write(&mut self, mux: &mut LedChannelMux, on: bool) -> (r: Action<()>)
        requires
            old(self).wf(),
        ensures
            (*final(self), final(mux)@, r) == old(self).write_spec(old(mux)@, on),
            final(self).wf(),
    {
        if self.auto_light {
            if let Some(led) = &mut self.led {
                let _ = led.set(mux, level_for(on));
                self.phase = OutputPhase::AwaitFlush(on);
                return Action::Flush;
            }
        }
        self.phase = OutputPhase::AwaitPin(on);
        Action::WritePin(on)
    }

    /// Takes the outcome of the last action. A failed flush ends the write with the
    /// transport's error before the pin is touched; a successful pin write records `on`.
    pub fn resume(&mut self, event: Event) -> (r: Action<()>)
        ensures
            (*final(self), r) == old(self).resume_spec(event),
            old(self).wf() ==> final(self).wf(),
    {
        let phase = self.phase;
        self.phase = OutputPhase::Idle;
        match (phase, event) {
            (OutputPhase::AwaitFlush(on), Event::Flushed(Ok(_))) => {
                self.phase = OutputPhase::AwaitPin(on);
                Action::WritePin(on)
            },
            (OutputPhase::AwaitFlush(_), Event::Flushed(Err(msg))) => Action::Done(
                Err(Error::Transport(msg)),
            ),
            (OutputPhase::AwaitPin(on), Event::PinWritten(Ok(_))) => {
                self.value = on;
                Action::Done(Ok(()))
            },
            (OutputPhase::AwaitPin(_), Event::PinWritten(Err(msg))) => Action::Done(
                Err(Error::Transport(msg)),
            ),
            _ => Action::Done(Err(Error::InvariantViolation)),
        }
    }
}

/// With auto-light on and an indicator bound, `write(true)` commits the indicator before
/// the pin: it sets the indicator to full and asks for the flush; a successful flush
/// leads to driving the pin high, and a successful pin write records the output as on.
/// A failed flush ends the write with its error, the pin untouched.
pub proof fn lemma_write_commit_order(out: DigitalOutput, state: Map<u8, u8>, msg: String)
    requires
        out.wf(),
        out.auto_light,
        out.led is Some,
    ensures
        ({
            let (o1, s1, a1) = out.write_spec(state, true);
            let led = o1.led->Some_0;
            let (o2, a2) = o1.resume_spec(Event::Flushed(Ok(())));
            let (o3, a3) = o2.resume_spec(Event::PinWritten(Ok(())));
            let (o4, a4) = o1.resume_spec(Event::Flushed(Err(msg)));
            &&& a1 == Action::<()>::Flush
            &&& led.brightness == level_of(true)
            &&& shown(s1, led.channel) == 255
            &&& a2 == Action::<()>::WritePin(true)
            &&& a3 == Action::<()>::Done(Ok(()))
            &&& o3.value
            &&& a4 == Action::<()>::Done(Err(Error::Transport(msg)))
            &&& o4.value == out.value
            &&& o4.phase == OutputPhase::Idle
        }),
{
    assert((510 * 1int + 1) / 2 == 255) by (nonlinear_arith);
}

} // verus!
