//! A token-bucket rate limiter.
//!
//! Tokens accumulate at a fixed rate up to a fixed capacity and are
//! spent per admitted request. The bucket is driven by a caller-supplied
//! monotonic clock reading in milliseconds, so the refill arithmetic is
//! exact and fully specified: one `try_acquire` call refills and decides
//! in a single step, never separately. Internally the balance is kept in
//! thousandths of a token, which makes `elapsed_ms * rate` an exact
//! refill with no rounding.

use vstd::prelude::*;

verus! {

/// Thousandths of a token per whole token.
pub const MILLIS_PER_TOKEN: u64 = 1000;

/// The token balance after `elapsed_ms` milliseconds of refilling at
/// `rate` tokens per second, capped at the capacity. All quantities are
/// in thousandths of a token except `rate`; a millisecond of refill at
/// `rate` tokens/second is exactly `rate` thousandths.
pub open spec fn refilled_milli(tokens_milli: int, capacity_milli: int, rate: int, elapsed_ms: int) -> int {
    if tokens_milli + rate * elapsed_ms >= capacity_milli {
        capacity_milli
    } else {
        tokens_milli + rate * elapsed_ms
    }
}

/// A token bucket with fixed capacity and refill rate.
pub struct RateLimiter {
    tokens_milli: u64,
    capacity_milli: u64,
    refill_rate: u64,
    last_refill_ms: u64,
}

impl RateLimiter {
    /// The current balance, in thousandths of a token.
    pub closed spec fn spec_tokens_milli(&self) -> u64 {
        self.tokens_milli
    }

    /// The fixed capacity, in thousandths of a token.
    pub closed spec fn spec_capacity_milli(&self) -> u64 {
        self.capacity_milli
    }

    /// The fixed refill rate, in tokens per second.
    pub closed spec fn spec_refill_rate(&self) -> u64 {
        self.refill_rate
    }

    /// The clock reading of the most recent refill, in milliseconds.
    pub closed spec fn spec_last_refill_ms(&self) -> u64 {
        self.last_refill_ms
    }

    /// The bucket invariant: the balance never exceeds the capacity
    /// (and, being unsigned, never drops below zero).
    pub open spec fn wf(&self) -> bool {
        self.spec_tokens_milli() <= self.spec_capacity_milli()
    }

    /// A bucket that starts full, with `capacity` tokens of burst and
    /// `refill_rate` tokens/second of refill, at clock reading `now_ms`.
    pub fn new(capacity: u64, refill_rate: u64, now_ms: u64) -> (l: Self)
        requires
            capacity <= u64::MAX / MILLIS_PER_TOKEN,
        ensures
            l.wf(),
            l.spec_capacity_milli() == capacity * MILLIS_PER_TOKEN,
            l.spec_tokens_milli() == capacity * MILLIS_PER_TOKEN,
            l.spec_refill_rate() == refill_rate,
            l.spec_last_refill_ms() == now_ms,
    {
        let capacity_milli = capacity * MILLIS_PER_TOKEN;
        RateLimiter { tokens_milli: capacity_milli, capacity_milli, refill_rate, last_refill_ms: now_ms }
    }

    /// Refills for the time elapsed since the last refill and, in the
    /// same step, grants `tokens` whole tokens when the refilled balance
    /// covers them — returning `true` and subtracting them — and
    /// otherwise returns `false`, keeping the refilled balance
    /// unchanged. Requires a monotonic clock: `now_ms` is not earlier
    /// than the last refill.
    pub fn try_acquire(&mut self, tokens: u64, now_ms: u64) -> (granted: bool)
        requires
            old(self).wf(),
            now_ms >= old(self).spec_last_refill_ms(),
            tokens <= u64::MAX / MILLIS_PER_TOKEN,
        ensures
            final(self).wf(),
            final(self).spec_capacity_milli() == old(self).spec_capacity_milli(),
            final(self).spec_refill_rate() == old(self).spec_refill_rate(),
            final(self).spec_last_refill_ms() == now_ms,
            ({
                let refilled = refilled_milli(
                    old(self).spec_tokens_milli() as int,
                    old(self).spec_capacity_milli() as int,
                    old(self).spec_refill_rate() as int,
                    now_ms - old(self).spec_last_refill_ms(),
                );
                &&& granted <==> refilled >= tokens * MILLIS_PER_TOKEN
                &&& granted ==> final(self).spec_tokens_milli() == refilled - tokens
                    * MILLIS_PER_TOKEN
                &&& !granted ==> final(self).spec_tokens_milli() == refilled
            }),
    {
        let elapsed_ms = now_ms - self.last_refill_ms;
        match elapsed_ms.checked_mul(self.refill_rate) {
            None => {
                self.tokens_milli = self.capacity_milli;
            },
            Some(gained) => {
                if gained >= self.capacity_milli - self.tokens_milli {
                    self.tokens_milli = self.capacity_milli;
                } else {
                    self.tokens_milli = self.tokens_milli + gained;
                }
            },
        }
        self.last_refill_ms = now_ms;
        let needed_milli = tokens * MILLIS_PER_TOKEN;
        if self.tokens_milli >= needed_milli {
            self.tokens_milli = self.tokens_milli - needed_milli;
            true
        } else {
            false
        }
    }

    /// The whole tokens available at clock reading `now_ms`: the stored
    /// balance with the pending refill applied, rounded down to whole
    /// tokens. A pure observation — the stored state is unchanged.
    pub fn get_available_tokens(&self, now_ms: u64) -> (t: u64)
        requires
            self.wf(),
            now_ms >= self.spec_last_refill_ms(),
        ensures
            t == refilled_milli(
                self.spec_tokens_milli() as int,
                self.spec_capacity_milli() as int,
                self.spec_refill_rate() as int,
                now_ms - self.spec_last_refill_ms(),
            ) / MILLIS_PER_TOKEN as int,
    {
        let elapsed_ms = now_ms - self.last_refill_ms;
        let refreshed = match elapsed_ms.checked_mul(self.refill_rate) {
            None => self.capacity_milli,
            Some(gained) => {
                if gained >= self.capacity_milli - self.tokens_milli {
                    self.capacity_milli
                } else {
                    self.tokens_milli + gained
                }
            },
        };
        refreshed / MILLIS_PER_TOKEN
    }
}

/// Law: token conservation. A bucket refilled for `elapsed_ms`
/// milliseconds holds exactly the smaller of the capacity and the old
/// balance plus `rate` thousandths per millisecond — tokens are neither
/// created beyond the refill law nor lost below it, and the balance
/// never leaves `[0, capacity]`.
pub proof fn lemma_refill_conserves(tokens_milli: int, capacity_milli: int, rate: int, elapsed_ms: int)
    requires
        0 <= tokens_milli <= capacity_milli,
        rate >= 0,
        elapsed_ms >= 0,
    ensures
        refilled_milli(tokens_milli, capacity_milli, rate, elapsed_ms) == vstd::math::min(
            capacity_milli,
            tokens_milli + rate * elapsed_ms,
        ),
        0 <= refilled_milli(tokens_milli, capacity_milli, rate, elapsed_ms) <= capacity_milli,
{
    assert(rate * elapsed_ms >= 0) by (nonlinear_arith)
        requires
            rate >= 0,
            elapsed_ms >= 0,
    ;
}

} // verus!
