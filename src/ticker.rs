//! Timing of the input side: how long to wait for a key press, and when a
//! tick is due. Times are milliseconds on a clock that never goes back.

use vstd::prelude::*;

verus! {

/// The interval between two ticks.
pub const TICK_RATE_MS: u64 = 200;

/// When the last tick was sent, and the interval between ticks.
pub struct Ticker {
    pub tick_rate_ms: u64,
    pub last_tick_ms: u64,
}

/// Time passed from `since` to `now`; none if the clock reads earlier.
pub open spec fn elapsed(since: u64, now: u64) -> nat {
    if now >= since {
        (now - since) as nat
    } else {
        0
    }
}

impl Ticker {
    /// A ticker whose interval starts at `now_ms`.
    pub fn new(tick_rate_ms: u64, now_ms: u64) -> (r: Ticker)
        ensures
            r.tick_rate_ms == tick_rate_ms,
            r.last_tick_ms == now_ms,
    {
        Ticker { tick_rate_ms, last_tick_ms: now_ms }
    }

    /// How long to wait for a key press: the rest of the current interval,
    /// or nothing once it has run out.
    pub fn poll_timeout(&self, now_ms: u64) -> (r: u64)
        ensures
            r == (if elapsed(self.last_tick_ms, now_ms) < self.tick_rate_ms {
                self.tick_rate_ms - elapsed(self.last_tick_ms, now_ms)
            } else {
                0
            }),
    {
        let passed = now_ms.saturating_sub(self.last_tick_ms);
        self.tick_rate_ms.saturating_sub(passed)
    }

    /// Whether a full interval has passed since the last tick.
    pub fn tick_due(&self, now_ms: u64) -> (r: bool)
        ensures
            r == (elapsed(self.last_tick_ms, now_ms) >= self.tick_rate_ms),
    {
        now_ms.saturating_sub(self.last_tick_ms) >= self.tick_rate_ms
    }

    /// Starts a new interval at `now_ms`, once a tick has been sent.
    pub fn restart(&mut self, now_ms: u64)
        ensures
            final(self).tick_rate_ms == old(self).tick_rate_ms,
            final(self).last_tick_ms == now_ms,
    {
        self.last_tick_ms = now_ms;
    }
}

} // verus!
