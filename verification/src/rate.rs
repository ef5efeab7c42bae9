//! Token-bucket admission control.
//!
//! The bucket counts in billionths of a token, so that a rate of `r` tokens
//! per second adds exactly `r` units per nanosecond and no rounding occurs.

use vstd::prelude::*;
use std::time::{Duration, Instant};

verus! {

#[verifier::external_type_specification]
#[verifier::external_body]
pub struct ExInstant(std::time::Instant);

/// `Instant::now`: the current reading of the monotonic clock.
#[verifier::external_body]
fn clock_now() -> (now: Instant)
{
    Instant::now()
}

/// The time from one reading of the clock to another, as
/// `Instant::saturating_duration_since` gives it.
pub uninterp spec fn span_between(earlier: Instant, later: Instant) -> Duration;

/// The whole nanoseconds of a duration, as `Duration::as_nanos` gives them.
pub uninterp spec fn span_nanos(d: Duration) -> nat;

/// `Instant::saturating_duration_since`: the time from `earlier` to `later`,
/// zero where `earlier` is the later one. It depends on the two readings
/// alone.
#[verifier::external_body]
fn time_between(earlier: &Instant, later: &Instant) -> (d: Duration)
    ensures
        d == span_between(*earlier, *later),
{
    later.saturating_duration_since(*earlier)
}

/// `Duration::as_nanos`: the duration in whole nanoseconds.
#[verifier::external_body]
fn nanos_of(d: &Duration) -> (nanos: u128)
    ensures
        nanos == span_nanos(*d),
{
    d.as_nanos()
}

/// The nanoseconds from one reading of the clock to another.
pub open spec fn nanos_between(earlier: Instant, later: Instant) -> nat {
    span_nanos(span_between(earlier, later))
}

/// The units that make one token.
pub const TOKEN: u128 = 1_000_000_000;

/// The capacity of a bucket for `rate` tokens per second.
pub open spec fn full(rate: nat) -> nat {
    rate * (TOKEN as nat)
}

/// The content of a bucket after `elapsed` nanoseconds of refilling at
/// `rate` tokens per second, capped at its capacity.
pub open spec fn refilled(tokens: nat, capacity: nat, rate: nat, elapsed: nat) -> nat {
    if tokens + elapsed * rate >= capacity {
        capacity
    } else {
        tokens + elapsed * rate
    }
}

/// Whether a bucket admits a request `elapsed` nanoseconds after its last
/// refill.
pub open spec fn admits(tokens: nat, capacity: nat, rate: nat, elapsed: nat) -> bool {
    refilled(tokens, capacity, rate, elapsed) >= TOKEN
}

/// The content of a bucket after an attempt `elapsed` nanoseconds after its
/// last refill: refilled, and one token less where the request is admitted.
pub open spec fn after_attempt(tokens: nat, capacity: nat, rate: nat, elapsed: nat) -> nat {
    if admits(tokens, capacity, rate, elapsed) {
        (refilled(tokens, capacity, rate, elapsed) - TOKEN) as nat
    } else {
        refilled(tokens, capacity, rate, elapsed)
    }
}

/// A token bucket that starts full, holds at most as many tokens as it gains
/// per second, and gives one token to each request it admits.
pub struct RateLimiter {
    tokens: u128,
    max_tokens: u128,
    refill_rate: u64,
    last_refill: Instant,
}

impl RateLimiter {
    #[verifier::type_invariant]
    spec fn bounded(&self) -> bool {
        &&& self.tokens <= self.max_tokens
        &&& self.max_tokens == self.refill_rate * TOKEN
    }

    /// The content of the bucket, in billionths of a token.
    pub closed spec fn tokens(&self) -> nat {
        self.tokens as nat
    }

    /// The most the bucket holds, in billionths of a token.
    pub closed spec fn capacity(&self) -> nat {
        self.max_tokens as nat
    }

    /// The tokens gained per second.
    pub closed spec fn rate(&self) -> nat {
        self.refill_rate as nat
    }

    /// The reading of the clock at the last attempt, or at the start where
    /// there was none.
    pub closed spec fn last_refill(&self) -> Instant {
        self.last_refill
    }

    /// A full bucket for `rps` requests per second.
    pub fn new(rps: u64) -> (bucket: RateLimiter)
        ensures
            bucket.rate() == rps,
            bucket.capacity() == rps * TOKEN,
            bucket.tokens() == bucket.capacity(),
    {
        let full: u128 = (rps as u128) * TOKEN;
        RateLimiter { tokens: full, max_tokens: full, refill_rate: rps, last_refill: clock_now() }
    }

    /// The content of the bucket, in billionths of a token. It never exceeds
    /// the capacity.
    pub fn available(&self) -> (units: u128)
        ensures
            units == self.tokens(),
            units <= self.capacity(),
            self.capacity() == self.rate() * TOKEN,
    {
        proof {
            use_type_invariant(self);
        }
        self.tokens
    }

    /// The most the bucket holds, in billionths of a token.
    pub fn limit(&self) -> (units: u128)
        ensures
            units == self.capacity(),
    {
        self.max_tokens
    }

    /// One attempt, `elapsed_nanos` after the last: refills the bucket for
    /// that time, then admits the request if a whole token is there.
    pub fn try_acquire_after(&mut self, elapsed_nanos: u128) -> (admitted: bool)
        ensures
            final(self).rate() == old(self).rate(),
            final(self).capacity() == old(self).capacity(),
            final(self).last_refill() == old(self).last_refill(),
            admitted == admits(
                old(self).tokens(),
                old(self).capacity(),
                old(self).rate(),
                elapsed_nanos as nat,
            ),
            final(self).tokens() == after_attempt(
                old(self).tokens(),
                old(self).capacity(),
                old(self).rate(),
                elapsed_nanos as nat,
            ),
            final(self).tokens() <= final(self).capacity(),
    {
        proof {
            use_type_invariant(&*self);
        }
        let room: u128 = self.max_tokens - self.tokens;
        let gained: u128 = match elapsed_nanos.checked_mul(self.refill_rate as u128) {
            Some(units) => if units >= room {
                room
            } else {
                units
            },
            None => room,
        };
        self.tokens = self.tokens + gained;
        if self.tokens >= TOKEN {
            self.tokens = self.tokens - TOKEN;
            true
        } else {
            false
        }
    }

    /// One attempt at the reading `now` of the clock, `elapsed_nanos` after
    /// the last: refills the bucket for that time, admits the request if a
    /// whole token is there, and notes `now` as the time of the last
    /// attempt.
    pub fn try_acquire_at(&mut self, now: Instant, elapsed_nanos: u128) -> (admitted: bool)
        ensures
            final(self).rate() == old(self).rate(),
            final(self).capacity() == old(self).capacity(),
            final(self).last_refill() == now,
            admitted == admits(
                old(self).tokens(),
                old(self).capacity(),
                old(self).rate(),
                elapsed_nanos as nat,
            ),
            final(self).tokens() == after_attempt(
                old(self).tokens(),
                old(self).capacity(),
                old(self).rate(),
                elapsed_nanos as nat,
            ),
            final(self).tokens() <= final(self).capacity(),
    {
        let admitted = self.try_acquire_after(elapsed_nanos);
        proof {
            use_type_invariant(&*self);
        }
        self.last_refill = now;
        admitted
    }

    /// One attempt now: reads the clock, refills the bucket for the time
    /// since the last attempt, admits the request if a whole token is
    /// there, and notes the reading as the time of the last attempt.
    /// Whatever the clock says, the outcome is that of `try_acquire_at` for
    /// some reading and the time from the last attempt to it.
    pub fn try_acquire(&mut self) -> (admitted: bool)
        ensures
            final(self).rate() == old(self).rate(),
            final(self).capacity() == old(self).capacity(),
            final(self).tokens() <= final(self).capacity(),
            admitted == admits(
                old(self).tokens(),
                old(self).capacity(),
                old(self).rate(),
                nanos_between(old(self).last_refill(), final(self).last_refill()),
            ),
            final(self).tokens() == after_attempt(
                old(self).tokens(),
                old(self).capacity(),
                old(self).rate(),
                nanos_between(old(self).last_refill(), final(self).last_refill()),
            ),
    {
        let now = clock_now();
        let elapsed = nanos_of(&time_between(&self.last_refill, &now));
        self.try_acquire_at(now, elapsed)
    }
}

/// An attempt leaves the bucket within its bounds: never above the capacity
/// (and, counting in natural numbers, never below zero), and never above
/// what it held after the refill.
pub proof fn lemma_attempt_is_bounded(tokens: nat, capacity: nat, rate: nat, elapsed: nat)
    requires
        tokens <= capacity,
    ensures
        after_attempt(tokens, capacity, rate, elapsed) <= capacity,
        after_attempt(tokens, capacity, rate, elapsed) <= refilled(tokens, capacity, rate, elapsed),
        tokens <= refilled(tokens, capacity, rate, elapsed),
{
    assert(elapsed * rate >= 0) by (nonlinear_arith);
}

/// A full bucket of `rate` tokens admits `rate` requests in a row whatever
/// the time between them, and refuses the next one if less time has passed
/// since the first than it takes to gain one token.
pub proof fn lemma_burst(rate: nat, gaps: Seq<nat>)
    requires
        gaps.len() == rate + 1,
        total(gaps.drop_first()) * rate < TOKEN,
    ensures
        forall|k: int|
            0 <= k < rate ==> admits(#[trigger] run(rate, gaps, k), full(rate), rate, gaps[k]),
        !admits(run(rate, gaps, rate as int), full(rate), rate, gaps[rate as int]),
{
    assert forall|k: int| 0 <= k <= rate implies #[trigger] run(rate, gaps, k) == content(
        rate,
        gaps,
        k,
    ) by {
        lemma_run(rate, gaps, k);
    }
    assert forall|k: int| 0 <= k < rate implies admits(
        #[trigger] run(rate, gaps, k),
        full(rate),
        rate,
        gaps[k],
    ) by {
        lemma_run(rate, gaps, k);
        lemma_content_bounds(rate, gaps, k);
        assert(gaps[k] * rate >= 0) by (nonlinear_arith);
        assert((rate - k) * TOKEN >= TOKEN) by (nonlinear_arith)
            requires
                rate - k >= 1,
        ;
    }
    let last = rate as int;
    lemma_run(rate, gaps, last);
    lemma_content_bounds(rate, gaps, last);
    if rate == 0 {
        assert(gaps[last] * rate == 0) by (nonlinear_arith)
            requires
                rate == 0,
        ;
    } else {
        lemma_total_split(gaps.drop_first(), last - 1);
        assert(gaps.drop_first().subrange(0, last - 1) =~= gaps.subrange(1, last));
        assert((total(gaps.subrange(1, last)) + gaps[last]) * rate == total(gaps.subrange(1, last))
            * rate + gaps[last] * rate) by (nonlinear_arith);
        assert((rate - last) * TOKEN == 0) by (nonlinear_arith)
            requires
                rate - last == 0,
        ;
    }
}

/// The sum of a sequence of durations.
pub open spec fn total(gaps: Seq<nat>) -> nat
    decreases gaps.len(),
{
    if gaps.len() == 0 {
        0
    } else {
        total(gaps.drop_last()) + gaps.last()
    }
}

/// The content of a bucket that started full at rate `rate`, before its
/// attempt number `k`, where attempt `i` came `gaps[i]` after the one before.
pub open spec fn run(rate: nat, gaps: Seq<nat>, k: int) -> nat
    decreases k,
{
    if k <= 0 {
        full(rate)
    } else {
        after_attempt(run(rate, gaps, k - 1), full(rate), rate, gaps[k - 1])
    }
}

/// What `run` comes to while every attempt is admitted and the gains since
/// the first attempt stay under one token.
pub open spec fn content(rate: nat, gaps: Seq<nat>, k: int) -> nat {
    if k <= 0 {
        full(rate)
    } else {
        ((rate - k) * TOKEN + total(gaps.subrange(1, k)) * rate) as nat
    }
}

proof fn lemma_total_split(gaps: Seq<nat>, k: int)
    requires
        0 <= k < gaps.len(),
    ensures
        total(gaps.subrange(0, k + 1)) == total(gaps.subrange(0, k)) + gaps[k],
{
    assert(gaps.subrange(0, k + 1).drop_last() =~= gaps.subrange(0, k));
}

proof fn lemma_total_monotone(gaps: Seq<nat>, k: int)
    requires
        0 <= k <= gaps.len(),
    ensures
        total(gaps.subrange(0, k)) <= total(gaps),
    decreases gaps.len() - k,
{
    if k == gaps.len() {
        assert(gaps.subrange(0, k) =~= gaps);
    } else {
        lemma_total_split(gaps, k);
        lemma_total_monotone(gaps, k + 1);
    }
}

proof fn lemma_content_bounds(rate: nat, gaps: Seq<nat>, k: int)
    requires
        gaps.len() == rate + 1,
        total(gaps.drop_first()) * rate < TOKEN,
        0 <= k <= rate,
    ensures
        k >= 1 ==> total(gaps.subrange(1, k)) * rate < TOKEN,
        k >= 1 ==> content(rate, gaps, k) == (rate - k) * TOKEN + total(gaps.subrange(1, k)) * rate,
{
    if k >= 1 {
        let rest = gaps.drop_first();
        lemma_total_monotone(rest, k - 1);
        assert(rest.subrange(0, k - 1) =~= gaps.subrange(1, k));
        assert(total(gaps.subrange(1, k)) * rate <= total(rest) * rate) by (nonlinear_arith)
            requires
                total(gaps.subrange(1, k)) <= total(rest),
        ;
        assert((rate - k) * TOKEN >= 0) by (nonlinear_arith)
            requires
                rate - k >= 0,
        ;
    }
}

proof fn lemma_run(rate: nat, gaps: Seq<nat>, k: int)
    requires
        gaps.len() == rate + 1,
        total(gaps.drop_first()) * rate < TOKEN,
        0 <= k <= rate,
    ensures
        run(rate, gaps, k) == content(rate, gaps, k),
    decreases k,
{
    if k > 0 {
        lemma_run(rate, gaps, k - 1);
        lemma_content_bounds(rate, gaps, k - 1);
        lemma_content_bounds(rate, gaps, k);
        let before = content(rate, gaps, k - 1);
        let gap = gaps[k - 1];
        let cap = full(rate);
        assert(gap * rate >= 0) by (nonlinear_arith);
        if k == 1 {
            // A full bucket stays full under the refill and gives one token.
            assert(0 * rate == 0) by (nonlinear_arith);
            assert(cap - TOKEN == (rate - 1) * TOKEN) by (nonlinear_arith)
                requires
                    cap == rate * TOKEN,
            ;
            assert(cap >= TOKEN) by (nonlinear_arith)
                requires
                    cap == rate * TOKEN,
                    rate >= 1,
            ;
        } else {
            let seen = total(gaps.subrange(1, k - 1));
            lemma_total_split(gaps.drop_first(), k - 2);
            assert(gaps.drop_first().subrange(0, k - 2) =~= gaps.subrange(1, k - 1));
            assert(gaps.drop_first().subrange(0, k - 1) =~= gaps.subrange(1, k));
            assert((seen + gap) * rate == seen * rate + gap * rate) by (nonlinear_arith);
            assert((rate - (k - 1)) * TOKEN == (rate - k) * TOKEN + TOKEN) by (nonlinear_arith);
            assert((rate - k) * TOKEN >= 0) by (nonlinear_arith)
                requires
                    rate - k >= 0,
            ;
            assert(cap == (rate - k) * TOKEN + k * TOKEN) by (nonlinear_arith)
                requires
                    cap == rate * TOKEN,
            ;
            assert(k * TOKEN >= 2 * TOKEN) by (nonlinear_arith)
                requires
                    k >= 2,
            ;
            // Under one token was gained since the first attempt, so the
            // refill stays below the capacity.
            assert(before + gap * rate < cap);
        }
    }
}

} // verus!
