//! Unattended captures: flip a demo on a timer instead of on a click.
//!
//! [`Autoplay::tick`] is fed the frame timestamps the host receives, as
//! nanoseconds on one monotonic clock, and answers `true` the first time and
//! then once per period.

use vstd::prelude::*;

verus! {

/// The autoplay period in nanoseconds (1.5 s).
pub const PERIOD_NANOS: u64 = 1_500_000_000;

/// Whether a tick at `now` is due after the last one that fired at `last`:
/// always for the first tick; otherwise when at least a period passed. A
/// time before `last` counts as no time passed.
pub open spec fn tick_due(last: Option<u64>, now: u64) -> bool {
    match last {
        None => true,
        Some(l) => now >= l && now - l >= PERIOD_NANOS,
    }
}

/// Fires once every 1.5 s while enabled.
#[derive(Debug, Clone, Copy)]
pub struct Autoplay {
    enabled: bool,
    last: Option<u64>,
}

impl Autoplay {
    /// Whether autoplay is on.
    pub closed spec fn is_on(self) -> bool {
        self.enabled
    }

    /// The time of the last tick that fired, if any.
    pub closed spec fn last_fired(self) -> Option<u64> {
        self.last
    }

    /// Autoplay that is on when `enabled` is `true`.
    pub fn new(enabled: bool) -> (autoplay: Self)
        ensures
            autoplay.is_on() == enabled,
            autoplay.last_fired() is None,
    {
        Autoplay { enabled, last: None }
    }

    /// Whether autoplay is on.
    pub fn enabled(&self) -> (on: bool)
        ensures
            on == self.is_on(),
    {
        self.enabled
    }

    /// Returns `true` the first time and then once per period: a tick at
    /// `now` is due when none fired yet or when at least [`PERIOD_NANOS`]
    /// passed since the last one that did; a due tick becomes the last one.
    pub fn tick(&mut self, now: u64) -> (due: bool)
        ensures
            due == tick_due(old(self).last_fired(), now),
            final(self).is_on() == old(self).is_on(),
            final(self).last_fired() == (if due {
                Some(now)
            } else {
                old(self).last_fired()
            }),
    {
        let due = match self.last {
            None => true,
            Some(last) => now >= last && now - last >= PERIOD_NANOS,
        };
        if due {
            self.last = Some(now);
        }
        due
    }
}

/// Two ticks that fire one after the other are at least a period apart,
/// and a tick at the moment of the last firing never fires again.
pub proof fn law_fired_ticks_are_a_period_apart(last: u64, now: u64)
    ensures
        tick_due(Some(last), now) ==> now >= last + PERIOD_NANOS,
        !tick_due(Some(last), last),
{
}

} // verus!
