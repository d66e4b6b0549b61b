//! The LED channel multiplexer and the indicator handles that share it.
//!
//! The LED driver can only be programmed as a whole, so the mux keeps the brightness byte
//! of every channel that was set and turns the whole state into one frame on each update:
//! other channels survive an update untouched.

use std::collections::HashMap;
use vstd::prelude::*;

use crate::error::Error;
use crate::level::{byte_of, level_for, level_of, Fraction};

verus! {

broadcast use vstd::std_specs::hash::group_hash_axioms;

/// Number of channels of the LED driver.
pub const CHANNEL_COUNT: u8 = 18;

/// Whether bit `k` of `mask` is set.
pub open spec fn bit_set(mask: u32, k: u32) -> bool {
    (mask >> k) & 1 == 1
}

/// The byte that channel `k` shows for a channel state: a channel never set is off.
pub open spec fn shown(state: Map<u8, u8>, k: u8) -> u8 {
    if state.contains_key(k) {
        state[k]
    } else {
        0
    }
}

/// The full output buffer of a channel state, one byte per channel.
pub open spec fn frame_values(state: Map<u8, u8>) -> Seq<u8> {
    Seq::new(CHANNEL_COUNT as nat, |k: int| shown(state, k as u8))
}

/// What `set_channel` does to a channel state, and whether it succeeds.
pub open spec fn set_channel_spec(state: Map<u8, u8>, channel: u8, level: Fraction) -> (Map<
    u8,
    u8,
>, Result<(), Error>) {
    if !level.is_unit() {
        (state, Err(Error::Validation))
    } else if channel >= CHANNEL_COUNT {
        (state, Err(Error::InvariantViolation))
    } else {
        (state.insert(channel, byte_of(level)), Ok(()))
    }
}

/// One transaction for the LED driver: first enable the channels of `mask`, then output
/// `values`, one byte per channel.
#[derive(Debug, PartialEq, Eq)]
pub struct LedFrame {
    pub mask: u32,
    pub values: Vec<u8>,
}

impl LedFrame {
    /// The frame programs exactly the channel state `state`: its buffer holds every
    /// channel's byte, and bit `k` of the mask is set iff byte `k` is nonzero.
    pub open spec fn shows(self, state: Map<u8, u8>) -> bool {
        &&& self.values@ == frame_values(state)
        &&& forall|k: u32|
            k < 32 ==> (#[trigger] bit_set(self.mask, k) <==> (k < CHANNEL_COUNT
                && self.values@[k as int] != 0))
    }
}

/// A failed update returns the mux's error; a successful one the frame of the new state.
pub open spec fn frame_result(r: Result<LedFrame, Error>, res: Result<(), Error>, state: Map<u8, u8>) -> bool {
    match r {
        Ok(f) => res is Ok && f.shows(state),
        Err(e) => res == Err::<(), Error>(e),
    }
}

proof fn lemma_bit_or(mask: u32, k: u32, j: u32)
    by (bit_vector)
    requires
        k < 32,
        j < 32,
    ensures
        bit_set(mask | (1u32 << k), j) == (bit_set(mask, j) || j == k),
{
}

proof fn lemma_no_bits(j: u32)
    by (bit_vector)
    requires
        j < 32,
    ensures
        !bit_set(0u32, j),
{
}

/// The authoritative brightness of every LED channel.
pub struct LedChannelMux {
    state: HashMap<u8, u8>,
}

impl View for LedChannelMux {
    type V = Map<u8, u8>;

    closed spec fn view(&self) -> Map<u8, u8> {
        self.state@
    }
}

impl LedChannelMux {
    /// A mux on which no channel has been set.
    pub fn new() -> (r: LedChannelMux)
        ensures
            r@ == Map::<u8, u8>::empty(),
    {
        LedChannelMux { state: HashMap::new() }
    }

    /// The byte that `channel` currently shows.
    pub fn brightness(&self, channel: u8) -> (r: u8)
        ensures
            r == shown(self@, channel),
    {
        match self.state.get(&channel) {
            Some(v) => *v,
            None => 0,
        }
    }

    /// The frame that programs the driver with the whole current state.
    pub fn frame(&self) -> (r: LedFrame)
        ensures
            r.shows(self@),
    {
        let mut values: Vec<u8> = Vec::new();
        let mut mask: u32 = 0;
        let mut k: u8 = 0;
        proof {
            assert forall|j: u32| j < 32 implies !#[trigger] bit_set(mask, j) by {
                lemma_no_bits(j);
            }
        }
        while k < CHANNEL_COUNT
            invariant
                k <= CHANNEL_COUNT,
                values@ == frame_values(self@).take(k as int),
                forall|j: u32|
                    j < 32 ==> (#[trigger] bit_set(mask, j) <==> (j < k && values@[j as int]
                        != 0)),
            decreases CHANNEL_COUNT - k,
        {
            let b = self.brightness(k);
            let ghost old_mask = mask;
            let ghost old_values = values@;
            values.push(b);
            if b != 0 {
                mask = mask | (1u32 << k);
                proof {
                    assert forall|j: u32| j < 32 implies (#[trigger] bit_set(mask, j) <==> (j
                        < k + 1 && values@[j as int] != 0)) by {
                        lemma_bit_or(old_mask, k as u32, j);
                        if j < k {
                            assert(values@[j as int] == old_values[j as int]);
                        }
                    }
                }
            } else {
                proof {
                    assert forall|j: u32| j < 32 implies (#[trigger] bit_set(mask, j) <==> (j
                        < k + 1 && values@[j as int] != 0)) by {
                        if j < k {
                            assert(values@[j as int] == old_values[j as int]);
                        }
                    }
                }
            }
            assert(values@ =~= frame_values(self@).take(k + 1));
            k = k + 1;
        }
        assert(values@ =~= frame_values(self@));
        LedFrame { mask, values }
    }

    /// Sets one channel to a brightness in [0, 1] and returns the frame that programs the
    /// whole board: every other channel keeps its byte. A level outside [0, 1] is refused
    /// with `Validation` and a channel outside 0..=17 with `InvariantViolation`, both
    /// before the state changes.
    pub fn set_channel(&mut self, channel: u8, level: Fraction) -> (r: Result<LedFrame, Error>)
        ensures
            final(self)@ == set_channel_spec(old(self)@, channel, level).0,
            frame_result(r, set_channel_spec(old(self)@, channel, level).1, final(self)@),
    {
        if !level.in_unit_range() {
            return Err(Error::Validation);
        }
        if channel >= CHANNEL_COUNT {
            return Err(Error::InvariantViolation);
        }
        let b = level.to_byte();
        self.state.insert(channel, b);
        Ok(self.frame())
    }
}

/// The channel state after a sequence of `(channel, level)` calls of `set_channel`.
pub open spec fn after_calls(state: Map<u8, u8>, calls: Seq<(u8, Fraction)>) -> Map<u8, u8>
    decreases calls.len(),
{
    if calls.len() == 0 {
        state
    } else {
        set_channel_spec(after_calls(state, calls.drop_last()), calls.last().0, calls.last().1).0
    }
}

/// The level of the last call in `calls` that `set_channel` accepted for `channel`.
pub open spec fn last_level(calls: Seq<(u8, Fraction)>, channel: u8) -> Option<Fraction>
    decreases calls.len(),
{
    if calls.len() == 0 {
        None
    } else if calls.last().0 == channel && channel < CHANNEL_COUNT && calls.last().1.is_unit() {
        Some(calls.last().1)
    } else {
        last_level(calls.drop_last(), channel)
    }
}

/// After any sequence of `set_channel` calls, the buffer that is flushed holds, byte for
/// byte, the last level accepted for each channel; a channel that no call set keeps what
/// it showed before. Updates of one channel never disturb another.
pub proof fn lemma_channels_survive(state: Map<u8, u8>, calls: Seq<(u8, Fraction)>)
    ensures
        forall|k: u8|
            k < CHANNEL_COUNT ==> #[trigger] frame_values(after_calls(state, calls))[k as int]
                == match last_level(calls, k) {
                Some(l) => byte_of(l),
                None => shown(state, k),
            },
    decreases calls.len(),
{
    if calls.len() > 0 {
        let prev = calls.drop_last();
        lemma_channels_survive(state, prev);
        assert forall|k: u8| k < CHANNEL_COUNT implies #[trigger] frame_values(
            after_calls(state, calls),
        )[k as int] == match last_level(calls, k) {
            Some(l) => byte_of(l),
            None => shown(state, k),
        } by {
            assert(frame_values(after_calls(state, prev))[k as int] == shown(
                after_calls(state, prev),
                k,
            ));
        }
    }
}

/// A handle on one channel of the mux, with the last brightness it set.
#[derive(Clone, Copy, Debug)]
pub struct LED {
    pub channel: u8,
    pub brightness: Fraction,
}

/// What setting a handle to `level` does to the handle and to the channel state.
pub open spec fn led_set_spec(led: LED, state: Map<u8, u8>, level: Fraction) -> (LED, Map<
    u8,
    u8,
>, Result<(), Error>) {
    let (s, res) = set_channel_spec(state, led.channel, level);
    if res is Ok {
        (LED { brightness: level, ..led }, s, res)
    } else {
        (led, state, res)
    }
}

/// The level that `toggle` sets: on if the handle is off, else off.
pub open spec fn toggled(b: Fraction) -> Fraction {
    level_of(b.num == 0)
}

impl LED {
    /// The handle's channel exists on the driver.
    pub open spec fn wf(self) -> bool {
        self.channel < CHANNEL_COUNT
    }

    /// A handle on `channel`, off.
    pub fn new(channel: u8) -> (r: LED)
        requires
            channel < CHANNEL_COUNT,
        ensures
            r == (LED { channel, brightness: Fraction { num: 0, den: 1 } }),
            r.wf(),
    {
        LED { channel, brightness: Fraction::zero() }
    }

    /// The channel of this handle.
    pub fn channel(&self) -> (r: u8)
        ensures
            r == self.channel,
    {
        self.channel
    }

    /// Sets the brightness, in [0, 1], through the mux and returns the frame to flush. A
    /// level outside [0, 1] fails with `Validation` and changes neither the handle nor the
    /// mux.
    pub fn set_brightness(&mut self, mux: &mut LedChannelMux, brightness: Fraction) -> (r: Result<
        LedFrame,
        Error,
    >)
        requires
            old(self).wf(),
        ensures
            *final(self) == led_set_spec(*old(self), old(mux)@, brightness).0,
            final(mux)@ == led_set_spec(*old(self), old(mux)@, brightness).1,
            frame_result(r, led_set_spec(*old(self), old(mux)@, brightness).2, final(mux)@),
            !brightness.is_unit() ==> r == Err::<LedFrame, Error>(Error::Validation)
                && *final(self) == *old(self) && final(mux)@ == old(mux)@,
            brightness.is_unit() ==> r is Ok,
            final(self).wf(),
    {
        if !brightness.in_unit_range() {
            return Err(Error::Validation);
        }
        let r = mux.set_channel(self.channel, brightness);
        if r.is_ok() {
            self.brightness = brightness;
        }
        r
    }

    /// Same as [`LED::set_brightness`].
    pub fn set(&mut self, mux: &mut LedChannelMux, brightness: Fraction) -> (r: Result<
        LedFrame,
        Error,
    >)
        requires
            old(self).wf(),
        ensures
            *final(self) == led_set_spec(*old(self), old(mux)@, brightness).0,
            final(mux)@ == led_set_spec(*old(self), old(mux)@, brightness).1,
            frame_result(r, led_set_spec(*old(self), old(mux)@, brightness).2, final(mux)@),
            brightness.is_unit() ==> r is Ok,
            final(self).wf(),
    {
        self.set_brightness(mux, brightness)
    }

    /// Full brightness.
    pub fn on(&mut self, mux: &mut LedChannelMux) -> (r: Result<LedFrame, Error>)
        requires
            old(self).wf(),
        ensures
            *final(self) == led_set_spec(*old(self), old(mux)@, level_of(true)).0,
            final(mux)@ == led_set_spec(*old(self), old(mux)@, level_of(true)).1,
            frame_result(r, led_set_spec(*old(self), old(mux)@, level_of(true)).2, final(mux)@),
            r is Ok,
            final(self).wf(),
    {
        self.set_brightness(mux, level_for(true))
    }

    /// Off.
    pub fn off(&mut self, mux: &mut LedChannelMux) -> (r: Result<LedFrame, Error>)
        requires
            old(self).wf(),
        ensures
            *final(self) == led_set_spec(*old(self), old(mux)@, level_of(false)).0,
            final(mux)@ == led_set_spec(*old(self), old(mux)@, level_of(false)).1,
            frame_result(r, led_set_spec(*old(self), old(mux)@, level_of(false)).2, final(mux)@),
            r is Ok,
            final(self).wf(),
    {
        self.set_brightness(mux, level_for(false))
    }

    /// On if the handle's last brightness is zero, else off.
    pub fn toggle(&mut self, mux: &mut LedChannelMux) -> (r: Result<LedFrame, Error>)
        requires
            old(self).wf(),
        ensures
            *final(self) == led_set_spec(*old(self), old(mux)@, toggled(old(self).brightness)).0,
            final(mux)@ == led_set_spec(*old(self), old(mux)@, toggled(old(self).brightness)).1,
            frame_result(
                r,
                led_set_spec(*old(self), old(mux)@, toggled(old(self).brightness)).2,
                final(mux)@,
            ),
            r is Ok,
            final(self).wf(),
    {
        if self.brightness.num == 0 {
            self.on(mux)
        } else {
            self.off(mux)
        }
    }
}

/// Toggling a handle twice restores its brightness and the buffer that is flushed, when
/// the handle was fully on or off and in step with its channel (a handle at one half
/// comes back fully on).
pub proof fn lemma_toggle_twice(led: LED, state: Map<u8, u8>)
    requires
        led.wf(),
        led.brightness.is_unit(),
        led.brightness.num == 0 || led.brightness.num == led.brightness.den,
    ensures
        ({
            let (l1, s1, _) = led_set_spec(led, state, toggled(led.brightness));
            let (l2, s2, _) = led_set_spec(l1, s1, toggled(l1.brightness));
            &&& l2.channel == led.channel
            &&& l2.brightness.same_value(led.brightness)
            &&& byte_of(l2.brightness) == byte_of(led.brightness)
            &&& s2 == state.insert(led.channel, byte_of(led.brightness))
            &&& shown(state, led.channel) == byte_of(led.brightness) ==> frame_values(s2)
                == frame_values(state)
        }),
{
    let b = led.brightness;
    let c = led.channel;
    let (l1, s1, _) = led_set_spec(led, state, toggled(b));
    let (l2, s2, _) = led_set_spec(l1, s1, toggled(l1.brightness));
    assert((510 * 1int + 1) / 2 == 255) by (nonlinear_arith);
    assert((510 * 0int + 1) / 2 == 0) by (nonlinear_arith);
    assert(byte_of(level_of(true)) == 255);
    assert(byte_of(level_of(false)) == 0);
    if b.num == 0 {
        assert(byte_of(b) == 0) by (nonlinear_arith)
            requires
                b.num == 0,
                b.den > 0,
        ;
        assert(l2.brightness == level_of(false));
    } else {
        assert(byte_of(b) == 255) by (nonlinear_arith)
            requires
                b.num == b.den,
                b.den > 0,
        ;
        assert(l2.brightness == level_of(true));
    }
    assert(s2 =~= state.insert(c, byte_of(b)));
    if shown(state, c) == byte_of(b) {
        assert(frame_values(s2) =~= frame_values(state));
    }
}

/// Runs a sequence of updates on two handles: each call `(first, level)` sets the first
/// handle when `first` holds, else the second.
pub open spec fn after_pair_calls(a: LED, b: LED, state: Map<u8, u8>, calls: Seq<(bool, Fraction)>) -> (LED, LED, Map<u8, u8>)
    decreases calls.len(),
{
    if calls.len() == 0 {
        (a, b, state)
    } else {
        let (a1, b1, s1) = after_pair_calls(a, b, state, calls.drop_last());
        let (first, level) = calls.last();
        if first {
            let (a2, s2, _) = led_set_spec(a1, s1, level);
            (a2, b1, s2)
        } else {
            let (b2, s2, _) = led_set_spec(b1, s1, level);
            (a1, b2, s2)
        }
    }
}

/// The last valid level in `calls` aimed at the first handle (`first`) or the second.
pub open spec fn last_pair_level(calls: Seq<(bool, Fraction)>, first: bool) -> Option<Fraction>
    decreases calls.len(),
{
    if calls.len() == 0 {
        None
    } else if calls.last().0 == first && calls.last().1.is_unit() {
        Some(calls.last().1)
    } else {
        last_pair_level(calls.drop_last(), first)
    }
}

/// Two handles on different channels, updated in any interleaving, each end with the
/// level of their own last accepted call, both in the handle and in the flushed buffer:
/// no update bleeds into the other channel.
pub proof fn lemma_no_cross_talk(a: LED, b: LED, state: Map<u8, u8>, calls: Seq<(bool, Fraction)>)
    requires
        a.wf(),
        b.wf(),
        a.channel != b.channel,
    ensures
        ({
            let (a2, b2, s2) = after_pair_calls(a, b, state, calls);
            &&& a2.channel == a.channel
            &&& b2.channel == b.channel
            &&& a2.brightness == match last_pair_level(calls, true) {
                Some(l) => l,
                None => a.brightness,
            }
            &&& b2.brightness == match last_pair_level(calls, false) {
                Some(l) => l,
                None => b.brightness,
            }
            &&& frame_values(s2)[a.channel as int] == match last_pair_level(calls, true) {
                Some(l) => byte_of(l),
                None => shown(state, a.channel),
            }
            &&& frame_values(s2)[b.channel as int] == match last_pair_level(calls, false) {
                Some(l) => byte_of(l),
                None => shown(state, b.channel),
            }
        }),
    decreases calls.len(),
{
    if calls.len() > 0 {
        lemma_no_cross_talk(a, b, state, calls.drop_last());
    }
}

} // verus!
