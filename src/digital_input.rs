//! A digital input: the pin is read first, and the indicator mirrors the value read.

use vstd::prelude::*;

use crate::error::Error;
use crate::level::{level_for, level_of};
use crate::lights::{led_set_spec, LedChannelMux, LED};
use crate::step::{Action, Event};

verus! {

/// Where a `read` stands.
#[derive(Clone, Copy, Debug, PartialEq, Eq, Structural)]
pub enum InputPhase {
    Idle,
    /// Waiting for the pin's value.
    AwaitRead,
    /// The indicator mirrors this value read; waiting for the flush.
    AwaitFlush(bool),
}

/// A digital input with an optional indicator that mirrors it when `auto_light` is set.
#[derive(Debug)]
pub struct DigitalInput {
    pub led: Option<LED>,
    pub auto_light: bool,
    pub phase: InputPhase,
}

impl DigitalInput {
    /// The bound indicator, if any, is on a channel of the driver.
    pub open spec fn wf(self) -> bool {
        match self.led {
            Some(led) => led.wf(),
            None => true,
        }
    }

    /// What reporting `event` does to the input and the channel state, and what it asks
    /// for next.
    pub open spec fn resume_spec(self, state: Map<u8, u8>, event: Event) -> (DigitalInput, Map<
        u8,
        u8,
    >, Action<bool>) {
        let idle = DigitalInput { phase: InputPhase::Idle, ..self };
        match (self.phase, event) {
            (InputPhase::AwaitRead, Event::PinRead(Ok(v))) => match self.led {
                Some(led) if self.auto_light => {
                    let (l, s, _) = led_set_spec(led, state, level_of(v));
                    (DigitalInput { led: Some(l), phase: InputPhase::AwaitFlush(v), ..self }, s, Action::Flush)
                },
                _ => (idle, state, Action::Done(Ok(v))),
            },
            (InputPhase::AwaitRead, Event::PinRead(Err(msg))) => (
                idle,
                state,
                Action::Done(Err(Error::Transport(msg))),
            ),
            (InputPhase::AwaitFlush(v), Event::Flushed(Ok(_))) => (idle, state, Action::Done(Ok(v))),
            (InputPhase::AwaitFlush(_), Event::Flushed(Err(msg))) => (
                idle,
                state,
                Action::Done(Err(Error::Transport(msg))),
            ),
            _ => (idle, state, Action::Done(Err(Error::InvariantViolation))),
        }
    }

    /// An input whose indicator mirrors it.
    pub fn new(led: Option<LED>) -> (r: DigitalInput)
        ensures
            r == (DigitalInput { led, auto_light: true, phase: InputPhase::Idle }),
    {
        DigitalInput { led, auto_light: true, phase: InputPhase::Idle }
    }

    /// An input whose indicator mirrors it only if `auto_light` is set.
    pub fn new_with_auto_light(led: Option<LED>, auto_light: bool) -> (r: DigitalInput)
        ensures
            r == (DigitalInput { led, auto_light, phase: InputPhase::Idle }),
    {
        DigitalInput { led, auto_light, phase: InputPhase::Idle }
    }

    /// Starts a read: asks for the pin's value.
    pub fn read(&mut self) -> (r: Action<bool>)
        ensures
            *final(self) == (DigitalInput { phase: InputPhase::AwaitRead, ..*old(self) }),
            r == Action::<bool>::ReadPin,
    {
        self.phase = InputPhase::AwaitRead;
        Action::ReadPin
    }

    /// Takes the outcome of the last action. A failed pin read ends the read before the
    /// indicator is touched; with auto-light, a value read sets the indicator to full or
    /// zero and the read succeeds only if its flush does.
    pub fn resume(&mut self, mux: &mut LedChannelMux, event: Event) -> (r: Action<bool>)
        requires
            old(self).wf(),
        ensures
            (*final(self), final(mux)@, r) == old(self).resume_spec(old(mux)@, event),
            final(self).wf(),
    {
        let phase = self.phase;
        self.phase = InputPhase::Idle;
        match (phase, event) {
            (InputPhase::AwaitRead, Event::PinRead(Ok(v))) => {
                if self.auto_light {
                    if let Some(led) = &mut self.led {
                        let _ = led.set(mux, level_for(v));
                        self.phase = InputPhase::AwaitFlush(v);
                        return Action::Flush;
                    }
                }
                Action::Done(Ok(v))
            },
            (InputPhase::AwaitRead, Event::PinRead(Err(msg))) => Action::Done(
                Err(Error::Transport(msg)),
            ),
            (InputPhase::AwaitFlush(v), Event::Flushed(Ok(_))) => Action::Done(Ok(v)),
            (InputPhase::AwaitFlush(_), Event::Flushed(Err(msg))) => Action::Done(
                Err(Error::Transport(msg)),
            ),
            _ => Action::Done(Err(Error::InvariantViolation)),
        }
    }
}

} // verus!
