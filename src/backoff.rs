//! Exponential backoff with a hard limit past which retrying in place
//! gives way to a restart.

use vstd::prelude::*;

use crate::classifier::MILLISECOND;

verus! {

/// The delay before the first retry.
pub const INITIAL_DELAY: u64 = 50 * MILLISECOND;

/// Each retry waits this many times longer than the one before.
pub const GROWTH_FACTOR: u64 = 2;

/// No delay grows beyond this.
pub const DELAY_CAP: u64 = 10_000 * MILLISECOND;

/// A delay beyond this means the devices are not coming back in place.
pub const DELAY_LIMIT: u64 = 5_000 * MILLISECOND;

/// The parameters of a backoff and the delay it is at.
pub struct BackoffState {
    pub initial: u64,
    pub factor: u64,
    pub cap: u64,
    pub limit: u64,
    pub current: u64,
}

impl BackoffState {
    /// The delay that the next retry would wait: the current one, capped.
    pub open spec fn delay(self) -> u64 {
        if self.current <= self.cap {
            self.current
        } else {
            self.cap
        }
    }

    /// Whether the next retry would wait longer than the limit.
    pub open spec fn exhausted(self) -> bool {
        self.delay() > self.limit
    }

    /// The current delay times the factor, capped.
    pub open spec fn grown(self) -> u64 {
        if self.current * self.factor <= self.cap {
            (self.current * self.factor) as u64
        } else {
            self.cap
        }
    }

    /// Back at the initial delay.
    pub open spec fn reset(self) -> BackoffState {
        BackoffState { current: self.initial, ..self }
    }

    /// The state after a retry: the delay grows, unless the backoff was
    /// exhausted, in which case it starts over.
    pub open spec fn after_retry(self) -> BackoffState {
        if self.exhausted() {
            self.reset()
        } else {
            BackoffState { current: self.grown(), ..self }
        }
    }
}

/// Delays between retries of a failing device read.
pub struct Backoff {
    initial: u64,
    factor: u64,
    cap: u64,
    limit: u64,
    current: u64,
}

impl View for Backoff {
    type V = BackoffState;

    closed spec fn view(&self) -> BackoffState {
        BackoffState {
            initial: self.initial,
            factor: self.factor,
            cap: self.cap,
            limit: self.limit,
            current: self.current,
        }
    }
}

impl Backoff {
    /// A backoff that starts at `initial`, grows by `factor`, never waits
    /// longer than `cap`, and gives up on a delay beyond `limit`.
    pub fn new(initial: u64, factor: u64, cap: u64, limit: u64) -> (r: Backoff)
        ensures
            r@ == (BackoffState { initial, factor, cap, limit, current: initial }),
    {
        Backoff { initial, factor, cap, limit, current: initial }
    }

    /// The daemon's backoff: 50 ms, doubling, capped at 10 s, given up
    /// beyond 5 s.
    pub fn standard() -> (r: Backoff)
        ensures
            r@ == (BackoffState {
                initial: INITIAL_DELAY,
                factor: GROWTH_FACTOR,
                cap: DELAY_CAP,
                limit: DELAY_LIMIT,
                current: INITIAL_DELAY,
            }),
    {
        Backoff::new(INITIAL_DELAY, GROWTH_FACTOR, DELAY_CAP, DELAY_LIMIT)
    }

    /// The delay to wait before the next retry, or `None` when it would
    /// exceed the limit; then the backoff starts over.
    pub fn next_delay(&mut self) -> (r: Option<u64>)
        ensures
            final(self)@ == old(self)@.after_retry(),
            r == (if old(self)@.exhausted() {
                None
            } else {
                Some(old(self)@.delay())
            }),
    {
        let delay = if self.current <= self.cap {
            self.current
        } else {
            self.cap
        };
        if delay > self.limit {
            self.current = self.initial;
            return None;
        }
        let ghost cur = self.current as int;
        let ghost fac = self.factor as int;
        let ghost cap = self.cap as int;
        self.current = if self.factor == 0 {
            0
        } else if self.current > self.cap / self.factor {
            assert(cur * fac > cap) by (nonlinear_arith)
                requires
                    fac > 0,
                    cur > cap / fac,
            {
            }
            self.cap
        } else {
            assert(cur * fac <= cap) by (nonlinear_arith)
                requires
                    fac > 0,
                    cur <= cap / fac,
            {
            }
            self.current * self.factor
        };
        Some(delay)
    }

    /// Back to the initial delay, after a successful read.
    pub fn reset(&mut self)
        ensures
            final(self)@ == old(self)@.reset(),
    {
        self.current = self.initial;
    }
}

} // verus!
