//! Timing decisions of the input routine: which keystrokes pass the
//! debounce, when a tick is due and how long to wait for input. Times are
//! milliseconds on a monotonic clock, read by the caller.

use vstd::prelude::*;

verus! {

/// Time from `earlier` to `later`, zero if the clock seems to go back.
pub open spec fn elapsed(earlier: u64, later: u64) -> u64 {
    if later >= earlier {
        (later - earlier) as u64
    } else {
        0
    }
}

/// Debounce and tick state of the input routine.
pub struct Debounce {
    /// Minimum time between accepted keystrokes, and between ticks.
    pub interval_ms: u64,
    /// When the last keystroke was accepted, if one was.
    pub last_key_ms: Option<u64>,
    /// When the last tick was sent, or when the routine started.
    pub last_tick_ms: u64,
}

fn elapsed_between(earlier: u64, later: u64) -> (r: u64)
    ensures
        r == elapsed(earlier, later),
{
    if later >= earlier {
        later - earlier
    } else {
        0
    }
}

impl Debounce {
    /// Starts at `now_ms` with no keystroke accepted yet.
    pub fn new(interval_ms: u64, now_ms: u64) -> (r: Debounce)
        ensures
            r.interval_ms == interval_ms,
            r.last_key_ms is None,
            r.last_tick_ms == now_ms,
    {
        Debounce { interval_ms, last_key_ms: None, last_tick_ms: now_ms }
    }

    /// A keystroke read at `now_ms`: accepted when none was accepted before
    /// or at least the interval has passed since the last accepted one;
    /// only an accepted keystroke restarts the interval.
    pub fn key_arrived(&mut self, now_ms: u64) -> (accepted: bool)
        ensures
            accepted == match old(self).last_key_ms {
                None => true,
                Some(last) => elapsed(last, now_ms) >= old(self).interval_ms,
            },
            final(self).last_key_ms == (if accepted {
                Some(now_ms)
            } else {
                old(self).last_key_ms
            }),
            final(self).interval_ms == old(self).interval_ms,
            final(self).last_tick_ms == old(self).last_tick_ms,
    {
        let accepted = match self.last_key_ms {
            None => true,
            Some(last) => elapsed_between(last, now_ms) >= self.interval_ms,
        };
        if accepted {
            self.last_key_ms = Some(now_ms);
        }
        accepted
    }

    /// How long to wait for input at `now_ms` before the next tick is due.
    pub fn poll_timeout(&self, now_ms: u64) -> (r: u64)
        ensures
            r == (if elapsed(self.last_tick_ms, now_ms) >= self.interval_ms {
                0
            } else {
                (self.interval_ms - elapsed(self.last_tick_ms, now_ms)) as u64
            }),
    {
        let e = elapsed_between(self.last_tick_ms, now_ms);
        if e >= self.interval_ms {
            0
        } else {
            self.interval_ms - e
        }
    }

    /// Whether a tick is due at `now_ms`; when it is, the tick is taken as
    /// sent at `now_ms`.
    pub fn tick_due(&mut self, now_ms: u64) -> (due: bool)
        ensures
            due == (elapsed(old(self).last_tick_ms, now_ms) >= old(self).interval_ms),
            final(self).last_tick_ms == (if due {
                now_ms
            } else {
                old(self).last_tick_ms
            }),
            final(self).interval_ms == old(self).interval_ms,
            final(self).last_key_ms == old(self).last_key_ms,
    {
        let due = elapsed_between(self.last_tick_ms, now_ms) >= self.interval_ms;
        if due {
            self.last_tick_ms = now_ms;
        }
        due
    }
}

} // verus!
