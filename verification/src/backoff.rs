//! The pause before the market-data feed is connected again.

use vstd::prelude::*;

verus! {

/// The pause after the first failure, seconds.
pub const INITIAL_RECONNECT_DELAY_SECS: u64 = 1;

/// The longest pause, seconds.
pub const MAX_RECONNECT_DELAY_SECS: u64 = 60;

/// The pause that the next disconnect will be followed by.
#[derive(Debug, Clone, Copy, PartialEq, Eq, Structural)]
pub struct ReconnectPolicy {
    pub delay_secs: u64,
}

/// Twice the pause, and no more than the longest.
pub open spec fn doubled(delay_secs: u64) -> u64 {
    if delay_secs * 2 > MAX_RECONNECT_DELAY_SECS {
        MAX_RECONNECT_DELAY_SECS
    } else {
        (delay_secs * 2) as u64
    }
}

/// The pause after `failures` failures in a row, counted from a fresh policy.
pub open spec fn delay_after(failures: nat) -> u64
    decreases failures,
{
    if failures == 0 {
        INITIAL_RECONNECT_DELAY_SECS
    } else {
        doubled(delay_after((failures - 1) as nat))
    }
}

impl ReconnectPolicy {
    pub open spec fn wf(&self) -> bool {
        1 <= self.delay_secs <= MAX_RECONNECT_DELAY_SECS
    }

    /// The pause that follows a disconnect: the initial one after a
    /// connection that closed cleanly, the current one after a failure.
    pub open spec fn pause_of(self, clean: bool) -> u64 {
        if clean {
            INITIAL_RECONNECT_DELAY_SECS
        } else {
            self.delay_secs
        }
    }

    pub fn new() -> (p: ReconnectPolicy)
        ensures
            p.wf(),
            p.delay_secs == INITIAL_RECONNECT_DELAY_SECS,
    {
        ReconnectPolicy { delay_secs: 1 }
    }

    /// The feed is down. Hands back the seconds to wait before connecting
    /// again, and doubles the pause for the time after.
    pub fn on_disconnect(&mut self, clean: bool) -> (wait_secs: u64)
        requires
            old(self).wf(),
        ensures
            final(self).wf(),
            wait_secs == old(self).pause_of(clean),
            final(self).delay_secs == doubled(wait_secs),
            1 <= wait_secs <= MAX_RECONNECT_DELAY_SECS,
    {
        if clean {
            self.delay_secs = 1;
        }
        let wait: u64 = self.delay_secs;
        self.delay_secs = if wait * 2 > 60 {
            60
        } else {
            wait * 2
        };
        wait
    }
}

/// The pause never shrinks from one failure to the next, never exceeds
/// the longest pause, and reaches it after six failures.
pub proof fn lemma_backoff_grows(failures: nat)
    ensures
        1 <= delay_after(failures) <= MAX_RECONNECT_DELAY_SECS,
        delay_after(failures) <= delay_after(failures + 1),
        failures >= 6 ==> delay_after(failures) == MAX_RECONNECT_DELAY_SECS,
    decreases failures,
{
    reveal_with_fuel(delay_after, 8);
    if failures > 0 {
        lemma_backoff_grows((failures - 1) as nat);
    }
}

} // verus!
