//! Fixed-rate timers that drop the ticks they missed.

use vstd::prelude::*;

verus! {

/// Period of the foreground refresh, in milliseconds.
pub const FOREGROUND_PERIOD_MS: u64 = 30_000;

/// Period of the background refresh, in milliseconds.
pub const BACKGROUND_PERIOD_MS: u64 = 120_000;

/// A periodic trigger on a clock that counts milliseconds.
///
/// Its nominal firing instants are the start and every whole period after
/// it. A poll at or after the next of them yields one tick and moves on to
/// the first nominal instant that is still ahead: the instants that passed
/// in between are dropped, not queued, and the grid never drifts.
#[derive(Clone, Copy, Debug, PartialEq, Eq)]
pub struct IntervalTimer {
    period: u64,
    due: u128,
}

impl IntervalTimer {
    #[verifier::type_invariant]
    spec fn inv(self) -> bool {
        self.valid()
    }

    /// What holds of every timer in executable code: the period is positive
    /// and the next instant lies at most one period beyond the clock's range.
    pub closed spec fn valid(self) -> bool {
        &&& self.period > 0
        &&& self.due <= 2 * u64::MAX
    }

    /// Distance between two nominal firing instants.
    pub closed spec fn period(self) -> nat {
        self.period as nat
    }

    /// The nominal instant at which the next tick is due.
    pub closed spec fn next_due(self) -> nat {
        self.due as nat
    }

    /// Whether a poll at `now` yields a tick.
    pub open spec fn is_due(self, now: nat) -> bool {
        self.next_due() <= now
    }

    /// The first nominal instant after `now`, for a timer that is due at
    /// `now`.
    pub open spec fn next_after(self, now: nat) -> int {
        self.next_due() + ((now - self.next_due()) / (self.period() as int) + 1) * self.period()
    }

    /// The timer as a poll at `now` leaves it.
    pub closed spec fn polled(self, now: nat) -> IntervalTimer {
        if self.is_due(now) {
            IntervalTimer { period: self.period, due: self.next_after(now) as u128 }
        } else {
            self
        }
    }

    /// The timer of period `period_ms` whose first tick is due at `start_ms`.
    pub closed spec fn starting(period_ms: u64, start_ms: u64) -> IntervalTimer {
        IntervalTimer { period: period_ms, due: start_ms as u128 }
    }

    /// A timer of period `period_ms` whose first tick is due at `start_ms`.
    /// There is no timer of period zero.
    pub fn new(period_ms: u64, start_ms: u64) -> (timer: Option<Self>)
        ensures
            timer is Some <==> period_ms > 0,
            timer matches Some(t) ==> {
                &&& t == Self::starting(period_ms, start_ms)
                &&& t.valid()
                &&& t.period() == period_ms
                &&& t.next_due() == start_ms
            },
    {
        if period_ms == 0 {
            None
        } else {
            Some(IntervalTimer { period: period_ms, due: start_ms as u128 })
        }
    }

    /// The timer of the foreground refresh, first due at `start_ms`.
    pub fn foreground(start_ms: u64) -> (t: Self)
        ensures
            t == Self::starting(FOREGROUND_PERIOD_MS, start_ms),
            t.valid(),
            t.period() == FOREGROUND_PERIOD_MS,
            t.next_due() == start_ms,
    {
        IntervalTimer { period: FOREGROUND_PERIOD_MS, due: start_ms as u128 }
    }

    /// The timer of the background refresh, first due at `start_ms`.
    pub fn background(start_ms: u64) -> (t: Self)
        ensures
            t == Self::starting(BACKGROUND_PERIOD_MS, start_ms),
            t.valid(),
            t.period() == BACKGROUND_PERIOD_MS,
            t.next_due() == start_ms,
    {
        IntervalTimer { period: BACKGROUND_PERIOD_MS, due: start_ms as u128 }
    }

    /// The period in milliseconds.
    pub fn period_ms(&self) -> (p: u64)
        ensures
            p == self.period(),
            p > 0,
    {
        proof {
            use_type_invariant(self);
        }
        self.period
    }

    /// Whether a poll at `now_ms` would yield a tick.
    pub fn due_at(&self, now_ms: u64) -> (due: bool)
        ensures
            due == self.is_due(now_ms as nat),
    {
        self.due <= now_ms as u128
    }

    /// Milliseconds from `now_ms` to the next tick: zero when it is due, and
    /// the largest number of the type when the distance exceeds it.
    pub fn remaining_ms(&self, now_ms: u64) -> (wait: u64)
        ensures
            self.is_due(now_ms as nat) ==> wait == 0,
            !self.is_due(now_ms as nat) ==> wait == vstd::math::min(
                self.next_due() - now_ms,
                u64::MAX as int,
            ),
    {
        let now: u128 = now_ms as u128;
        if self.due <= now {
            0
        } else {
            let wait: u128 = self.due - now;
            if wait > u64::MAX as u128 {
                u64::MAX
            } else {
                wait as u64
            }
        }
    }

    /// Asks at `now_ms` whether a tick is due. If one is, exactly one is
    /// handed out, however many periods have passed, and the timer moves on
    /// to the first nominal instant after `now_ms`; if none is, nothing
    /// changes.
    pub fn poll(&mut self, now_ms: u64) -> (fired: bool)
        ensures
            fired == old(self).is_due(now_ms as nat),
            *final(self) == old(self).polled(now_ms as nat),
            final(self).valid(),
            final(self).period() == old(self).period(),
            fired ==> final(self).next_due() == old(self).next_after(now_ms as nat),
            !fired ==> final(self).next_due() == old(self).next_due(),
    {
        proof {
            use_type_invariant(&*self);
        }
        let now: u128 = now_ms as u128;
        if now < self.due {
            false
        } else {
            let period: u128 = self.period as u128;
            let late: u128 = now - self.due;
            let missed: u128 = late / period;
            proof {
                Self::whole_periods_fit(late as int, period as int);
            }
            self.due = self.due + (missed + 1) * period;
            true
        }
    }

    proof fn whole_periods_fit(late: int, period: int)
        requires
            0 <= late,
            0 < period,
        ensures
            late < (late / period + 1) * period <= late + period,
            0 <= late / period,
    {
        assert(late == period * (late / period) + late % period) by {
            vstd::arithmetic::div_mod::lemma_fundamental_div_mod(late, period);
        }
        assert(0 <= late % period < period) by {
            vstd::arithmetic::div_mod::lemma_mod_bound(late, period);
        }
        assert((late / period + 1) * period == period * (late / period) + period)
            by (nonlinear_arith);
        assert(0 <= late / period) by {
            vstd::arithmetic::div_mod::lemma_div_pos_is_pos(late, period);
        }
    }

    /// One tick after a stall, and no drift.
    ///
    /// Let a valid timer be due at `now`, however long ago its instant
    /// passed. The poll at `now` moves it to an instant that lies after `now`
    /// and at most one period after it, a whole number of periods (at least
    /// one) after the instant that was due. So a second poll at `now` yields
    /// nothing, and neither does any poll before that new instant.
    pub proof fn one_tick_after_stall(self, now: nat)
        requires
            self.valid(),
            self.is_due(now),
            now <= u64::MAX,
        ensures
            self.polled(now).valid(),
            self.polled(now).period() == self.period(),
            self.polled(now).next_due() == self.next_after(now),
            now < self.next_after(now) <= now + self.period(),
            (self.next_after(now) - self.next_due()) % (self.period() as int) == 0,
            self.next_after(now) - self.next_due() >= self.period(),
            !self.polled(now).is_due(now),
            forall|later: nat| now <= later < self.next_after(now) ==> !self.polled(now).is_due(later),
    {
        let late = now - self.next_due();
        let p = self.period() as int;
        Self::whole_periods_fit(late, p);
        let k = late / p + 1;
        assert((k * p) % p == 0) by {
            vstd::arithmetic::div_mod::lemma_mod_multiples_basic(k, p);
        }
        assert(k * p >= p) by (nonlinear_arith)
            requires
                k >= 1,
                p > 0,
        ;
    }

    /// A timer that starts with a positive period is valid, is due at its
    /// start and not before.
    pub proof fn starting_is_valid(period_ms: u64, start_ms: u64)
        requires
            period_ms > 0,
        ensures
            Self::starting(period_ms, start_ms).valid(),
            Self::starting(period_ms, start_ms).period() == period_ms,
            Self::starting(period_ms, start_ms).next_due() == start_ms,
            Self::starting(period_ms, start_ms).is_due(start_ms as nat),
    {
    }

    /// A poll that finds nothing due changes nothing.
    pub proof fn idle_poll_is_identity(self, now: nat)
        requires
            !self.is_due(now),
        ensures
            self.polled(now) == self,
    {
    }
}

} // verus!
