//! A relay with indicators for its normally-open and normally-closed contacts. The
//! indicators are best effort: whatever their flushes report, the relay is switched.

use vstd::prelude::*;

use crate::error::Error;
use crate::level::{level_for, level_of};
use crate::lights::{led_set_spec, shown, LedChannelMux, LED};
use crate::step::{Action, Event};

verus! {

/// Where a `write` stands.
#[derive(Clone, Copy, Debug, PartialEq, Eq, Structural)]
pub enum RelayPhase {
    Idle,
    /// The normally-open indicator is set; waiting for its flush.
    AwaitNoFlush(bool),
    /// The normally-closed indicator is set; waiting for its flush.
    AwaitNcFlush(bool),
    /// Waiting for the pin to be driven to this state.
    AwaitPin(bool),
}

/// A relay with optional indicators for its normally-open (NO) and normally-closed (NC)
/// contacts, which mirror it when `auto_light` is set.
#[derive(Debug)]
pub struct Relay {
    pub no_led: Option<LED>,
    pub nc_led: Option<LED>,
    pub auto_light: bool,
    /// The last state the relay was successfully switched to.
    pub value: bool,
    pub phase: RelayPhase,
}

impl Relay {
    /// The bound indicators are on channels of the driver.
    pub open spec fn wf(self) -> bool {
        &&& match self.no_led {
            Some(led) => led.wf(),
            None => true,
        }
        &&& match self.nc_led {
            Some(led) => led.wf(),
            None => true,
        }
    }

    /// The part of `write(open)` after the NO indicator: set the NC indicator to the
    /// opposite state and ask for its flush, or go on to the pin.
    pub open spec fn nc_spec(self, state: Map<u8, u8>, open: bool) -> (Relay, Map<u8, u8>, Action<()>) {
        match self.nc_led {
            Some(led) if self.auto_light => {
                let (l, s, _) = led_set_spec(led, state, level_of(!open));
                (Relay { nc_led: Some(l), phase: RelayPhase::AwaitNcFlush(open), ..self }, s, Action::Flush)
            },
            _ => (Relay { phase: RelayPhase::AwaitPin(open), ..self }, state, Action::WritePin(open)),
        }
    }

    /// What `write(open)` does to the relay and the channel state, and what it asks for.
    pub open spec fn write_spec(self, state: Map<u8, u8>, open: bool) -> (Relay, Map<u8, u8>, Action<
        (),
    >) {
        match self.no_led {
            Some(led) if self.auto_light => {
                let (l, s, _) = led_set_spec(led, state, level_of(open));
                (Relay { no_led: Some(l), phase: RelayPhase::AwaitNoFlush(open), ..self }, s, Action::Flush)
            },
            _ => self.nc_spec(state, open),
        }
    }

    /// What reporting `event` does to the relay and the channel state, and what it asks
    /// for next. The outcome of a flush does not matter.
    pub open spec fn resume_spec(self, state: Map<u8, u8>, event: Event) -> (Relay, Map<u8, u8>, Action<
        (),
    >) {
        let idle = Relay { phase: RelayPhase::Idle, ..self };
        match (self.phase, event) {
            (RelayPhase::AwaitNoFlush(open), Event::Flushed(_)) => self.nc_spec(state, open),
            (RelayPhase::AwaitNcFlush(open), Event::Flushed(_)) => (
                Relay { phase: RelayPhase::AwaitPin(open), ..self },
                state,
                Action::WritePin(open),
            ),
            (RelayPhase::AwaitPin(open), Event::PinWritten(Ok(_))) => (
                Relay { value: open, ..idle },
                state,
                Action::Done(Ok(())),
            ),
            (RelayPhase::AwaitPin(_), Event::PinWritten(Err(msg))) => (
                idle,
                state,
                Action::Done(Err(Error::Transport(msg))),
            ),
            _ => (idle, state, Action::Done(Err(Error::InvariantViolation))),
        }
    }

    /// A relay, off, whose indicators mirror it.
    pub fn new(no_led: Option<LED>, nc_led: Option<LED>) -> (r: Relay)
        ensures
            r == (Relay { no_led, nc_led, auto_light: true, value: false, phase: RelayPhase::Idle }),
    {
        Relay { no_led, nc_led, auto_light: true, value: false, phase: RelayPhase::Idle }
    }

    /// A relay, off, whose indicators mirror it only if `auto_light` is set.
    pub fn new_with_auto_light(no_led: Option<LED>, nc_led: Option<LED>, auto_light: bool) -> (r:
        Relay)
        ensures
            r == (Relay { no_led, nc_led, auto_light, value: false, phase: RelayPhase::Idle }),
    {
        Relay { no_led, nc_led, auto_light, value: false, phase: RelayPhase::Idle }
    }

    fn set_nc(&mut self, mux: &mut LedChannelMux, open: bool) -> (r: Action<()>)
        requires
            old(self).wf(),
        ensures
            (*final(self), final(mux)@, r) == old(self).nc_spec(old(mux)@, open),
            final(self).wf(),
    {
        if self.auto_light {
            if let Some(led) = &mut self.nc_led {
                let _ = led.set(mux, level_for(!open));
                self.phase = RelayPhase::AwaitNcFlush(open);
                return Action::Flush;
            }
        }
        self.phase = RelayPhase::AwaitPin(open);
        Action::WritePin(open)
    }

    /// Starts switching the relay: `open` energizes it. With auto-light, the NO indicator
    /// is set to the new state and the NC indicator to the opposite, one flush each; then
    /// the pin is driven high iff `open`.
    pub fn write(&mut self, mux: &mut LedChannelMux, open: bool) -> (r: Action<()>)
        requires
            old(self).wf(),
        ensures
            (*final(self), final(mux)@, r) == old(self).write_spec(old(mux)@, open),
            final(self).wf(),
    {
        if self.auto_light {
            if let Some(led) = &mut self.no_led {
                let _ = led.set(mux, level_for(open));
                self.phase = RelayPhase::AwaitNoFlush(open);
                return Action::Flush;
            }
        }
        self.set_nc(mux, open)
    }

    /// Takes the outcome of the last action. Failed flushes are passed over; only a failed
    /// pin write fails the operation, and a successful one records the new state.
    pub fn resume(&mut self, mux: &mut LedChannelMux, event: Event) -> (r: Action<()>)
        requires
            old(self).wf(),
        ensures
            (*final(self), final(mux)@, r) == old(self).resume_spec(old(mux)@, event),
            final(self).wf(),
    {
        let phase = self.phase;
        match (phase, event) {
            (RelayPhase::AwaitNoFlush(open), Event::Flushed(_)) => self.set_nc(mux, open),
            (RelayPhase::AwaitNcFlush(open), Event::Flushed(_)) => {
                self.phase = RelayPhase::AwaitPin(open);
                Action::WritePin(open)
            },
            (RelayPhase::AwaitPin(open), Event::PinWritten(Ok(_))) => {
                self.phase = RelayPhase::Idle;
                self.value = open;
                Action::Done(Ok(()))
            },
            (RelayPhase::AwaitPin(_), Event::PinWritten(Err(msg))) => {
                self.phase = RelayPhase::Idle;
                Action::Done(Err(Error::Transport(msg)))
            },
            _ => {
                self.phase = RelayPhase::Idle;
                Action::Done(Err(Error::InvariantViolation))
            },
        }
    }
}

/// With auto-light on and both indicators bound, `write(open)` shows the NO indicator at
/// full and the NC indicator at zero when `open` (the inverse otherwise), and then drives
/// the pin to `open` whatever the two flushes reported; a successful pin write records it.
pub proof fn lemma_relay_switches(
    relay: Relay,
    state: Map<u8, u8>,
    open: bool,
    first: Result<(), String>,
    second: Result<(), String>,
)
    requires
        relay.wf(),
        relay.auto_light,
        relay.no_led is Some,
        relay.nc_led is Some,
        relay.no_led->Some_0.channel != relay.nc_led->Some_0.channel,
    ensures
        ({
            let (r1, s1, a1) = relay.write_spec(state, open);
            let (r2, s2, a2) = r1.resume_spec(s1, Event::Flushed(first));
            let (r3, s3, a3) = r2.resume_spec(s2, Event::Flushed(second));
            let (r4, _, a4) = r3.resume_spec(s3, Event::PinWritten(Ok(())));
            let no = r3.no_led->Some_0;
            let nc = r3.nc_led->Some_0;
            &&& a1 == Action::<()>::Flush
            &&& a2 == Action::<()>::Flush
            &&& a3 == Action::<()>::WritePin(open)
            &&& no.brightness == level_of(open)
            &&& nc.brightness == level_of(!open)
            &&& shown(s3, no.channel) == (if open { 255u8 } else { 0u8 })
            &&& shown(s3, nc.channel) == (if open { 0u8 } else { 255u8 })
            &&& a4 == Action::<()>::Done(Ok(()))
            &&& r4.value == open
        }),
{
    assert((510 * 1int + 1) / 2 == 255) by (nonlinear_arith);
    assert((510 * 0int + 1) / 2 == 0) by (nonlinear_arith);
}

} // verus!
