//! Token buckets and a rate limiter built from two of them (bytes and operations).
//!
//! A bucket of `size` tokens refills completely in `refill_time` milliseconds and never
//! holds more than `size` tokens; an optional one-time burst is consumed first and is
//! not refilled by the passage of time.

use std::time::Duration;
use std::time::Instant;
use timerfd::{ClockId, SetTimeFlags, TimerFd, TimerState};
use vstd::arithmetic::div_mod::{
    lemma_div_is_ordered, lemma_div_multiples_vanish_fancy, lemma_div_pos_is_pos,
    lemma_fundamental_div_mod, lemma_mod_multiples_basic,
};
use vstd::prelude::*;

verus! {

/// Number of nanoseconds in a millisecond.
pub const NANOSEC_IN_ONE_MILLISEC: u64 = 1_000_000;

/// Interval, in milliseconds, at which the refill timer fires when a bucket ran dry.
pub const REFILL_TIMER_INTERVAL_MS: u64 = 100;

#[verifier::external_type_specification]
#[verifier::external_body]
pub struct ExInstant(Instant);

/// `Instant` is `Copy`: its `clone` returns the same instant.
pub assume_specification[ <Instant as Clone>::clone ](instant: &Instant) -> (r: Instant)
    ensures
        r == *instant,
;

#[verifier::external_type_specification]
#[verifier::external_body]
pub struct ExTimerFd(TimerFd);

#[verifier::external_type_specification]
#[verifier::external_body]
pub struct ExIoError(std::io::Error);

// ---------------------------------------------------------------------------------------------
// Greatest common divisor
// ---------------------------------------------------------------------------------------------

/// The greatest common divisor, by Euclid's recurrence.
pub open spec fn spec_gcd(x: nat, y: nat) -> nat
    decreases y,
{
    if y == 0 {
        x
    } else {
        spec_gcd(y, x % y)
    }
}

/// Euclid's algorithm for the greatest common divisor.
pub fn gcd(x: u64, y: u64) -> (r: u64)
    ensures
        r == spec_gcd(x as nat, y as nat),
{
    let mut a = x;
    let mut b = y;
    while b != 0
        invariant
            spec_gcd(a as nat, b as nat) == spec_gcd(x as nat, y as nat),
        decreases b,
    {
        let t = b;
        b = a % b;
        a = t;
    }
    a
}

/// The greatest common divisor of two numbers, not both zero, is positive and divides both.
pub proof fn lemma_gcd_divides(x: nat, y: nat)
    requires
        x > 0 || y > 0,
    ensures
        spec_gcd(x, y) > 0,
        x % spec_gcd(x, y) == 0,
        y % spec_gcd(x, y) == 0,
    decreases y,
{
    if y == 0 {
        lemma_mod_multiples_basic(1, x as int);
        lemma_mod_multiples_basic(0, x as int);
    } else {
        let r = x % y;
        lemma_gcd_divides(y, r);
        let g = spec_gcd(y, r);
        lemma_fundamental_div_mod(x as int, y as int);
        lemma_fundamental_div_mod(y as int, g as int);
        lemma_fundamental_div_mod(r as int, g as int);
        let q = x as int / y as int;
        let a = y as int / g as int;
        let b = r as int / g as int;
        assert(x as int == (q * a + b) * g) by (nonlinear_arith)
            requires
                x as int == y * q + r,
                y as int == g * a,
                r as int == g * b,
        ;
        lemma_mod_multiples_basic(q * a + b, g as int);
    }
}

/// Every common divisor of two numbers divides their greatest common divisor.
pub proof fn lemma_gcd_greatest(x: nat, y: nat, d: nat)
    requires
        d > 0,
        x % d == 0,
        y % d == 0,
    ensures
        spec_gcd(x, y) % d == 0,
    decreases y,
{
    if y != 0 {
        let r = x % y;
        lemma_fundamental_div_mod(x as int, y as int);
        lemma_fundamental_div_mod(x as int, d as int);
        lemma_fundamental_div_mod(y as int, d as int);
        let q = x as int / y as int;
        let a = x as int / d as int;
        let b = y as int / d as int;
        assert(r as int == (a - b * q) * d) by (nonlinear_arith)
            requires
                x as int == y * q + r,
                x as int == d * a,
                y as int == d * b,
        ;
        lemma_mod_multiples_basic(a - b * q, d as int);
        lemma_gcd_greatest(y, r, d);
    }
}


// ---------------------------------------------------------------------------------------------
// Outside calls: clock and timer
// ---------------------------------------------------------------------------------------------

/// Calls `std::time::Instant::now`. The result is the current instant of the monotonic
/// clock; nothing about it is stated.
#[verifier::external_body]
fn instant_now() -> (r: Instant) {
    Instant::now()
}

/// Calls `Instant::saturating_duration_since`: the time from `earlier` to `later` (zero if
/// `later` is the earlier one). Instants are opaque here, so nothing is stated of it.
#[verifier::external_body]
fn duration_since(later: &Instant, earlier: &Instant) -> (r: Duration) {
    later.saturating_duration_since(*earlier)
}

/// Calls `Duration::as_nanos`: the whole number of nanoseconds in `d`. Durations are opaque
/// here, so nothing is stated of the number.
#[verifier::external_body]
fn duration_nanos(d: &Duration) -> (r: u128) {
    d.as_nanos()
}

/// Calls `Duration::from_nanos`: a duration of `nanos` nanoseconds. Durations are opaque
/// here, so nothing is stated of it.
#[verifier::external_body]
fn duration_from_nanos(nanos: u64) -> (r: Duration) {
    Duration::from_nanos(nanos)
}

/// Calls `Instant::checked_add`: the instant `d` after `instant`, or `None` where the
/// platform cannot represent it. Nothing is stated of the instant.
#[verifier::external_body]
fn instant_checked_add(instant: &Instant, d: Duration) -> (r: Option<Instant>) {
    instant.checked_add(d)
}

/// Calls `timerfd::TimerFd::new_custom` for a monotonic, non-blocking, close-on-exec timer.
/// Whether the kernel grants a timer is not stated.
#[verifier::external_body]
fn timer_create() -> (r: Result<TimerFd, std::io::Error>) {
    TimerFd::new_custom(ClockId::Monotonic, true, true)
}

/// Calls `timerfd::TimerFd::set_state` to arm a one-shot expiry `millis` milliseconds from
/// now (zero disarms the timer). The crate panics only if `timerfd_settime` fails in a way
/// its documentation calls undocumented; that case is not stated.
#[verifier::external_body]
fn timer_arm_oneshot_ms(timer: &mut TimerFd, millis: u64) {
    timer.set_state(TimerState::Oneshot(Duration::from_millis(millis)), SetTimeFlags::Default);
}

/// Calls `timerfd::TimerFd::read`: the number of expirations since the last read, zero when
/// none happened (the timer is non-blocking). It depends on time; nothing is stated.
#[verifier::external_body]
fn timer_expirations(timer: &TimerFd) -> (r: u64) {
    timer.read()
}

// ---------------------------------------------------------------------------------------------
// Token bucket
// ---------------------------------------------------------------------------------------------

/// Outcome of taking tokens from a bucket.
#[derive(Clone, Copy, Debug, PartialEq, Eq)]
pub enum BucketReduction {
    /// There are not enough tokens to complete the operation.
    Failure,
    /// A part of the available tokens have been consumed.
    Success,
    /// The request was larger than the bucket: the bucket was emptied and `tokens` more
    /// were borrowed, that is `tokens / size` times the bucket size.
    OverConsumption { tokens: u64, size: u64 },
}

/// The abstract state of a token bucket. Its time is kept in nanoseconds after the bucket's
/// origin, an instant fixed when the bucket is made or reset.
#[derive(Clone, Copy, Debug, PartialEq, Eq)]
pub struct TokenBucketView {
    pub size: u64,
    pub initial_one_time_burst: u64,
    pub refill_time: u64,
    pub one_time_burst: u64,
    pub budget: u64,
    pub processed_capacity: u64,
    pub processed_refill_time: u64,
    /// Nanoseconds from the origin to the last update.
    pub last_update: u128,
}

/// Nanoseconds from `last` to `now`; none when `now` is the earlier.
pub open spec fn elapsed_since(last: u128, now: u128) -> nat {
    if now >= last {
        (now - last) as nat
    } else {
        0
    }
}

pub open spec fn min_int(a: int, b: int) -> int {
    if a <= b {
        a
    } else {
        b
    }
}

impl TokenBucketView {
    /// Complete refill time in nanoseconds.
    pub open spec fn refill_ns(self) -> int {
        self.refill_time * NANOSEC_IN_ONE_MILLISEC
    }

    /// The state of a bucket freshly built from its three parameters.
    pub open spec fn initial(size: u64, one_time_burst: u64, refill_time: u64) -> TokenBucketView {
        let refill_ns = (refill_time * NANOSEC_IN_ONE_MILLISEC) as nat;
        let g = spec_gcd(size as nat, refill_ns);
        TokenBucketView {
            size,
            initial_one_time_burst: one_time_burst,
            refill_time,
            one_time_burst,
            budget: size,
            processed_capacity: (size as nat / g) as u64,
            processed_refill_time: (refill_ns / g) as u64,
            last_update: 0,
        }
    }

    /// Well-formedness: the parameters are usable and the refill fraction
    /// `size / refill_ns` is stored reduced by the greatest common divisor.
    pub open spec fn wf(self) -> bool {
        let g = spec_gcd(self.size as nat, self.refill_ns() as nat);
        &&& self.size > 0
        &&& self.refill_time > 0
        &&& self.refill_ns() <= u64::MAX
        &&& g > 0
        &&& self.processed_capacity == self.size as nat / g
        &&& self.processed_refill_time == self.refill_ns() as nat / g
        &&& self.processed_capacity >= 1
        &&& self.processed_refill_time >= 1
        &&& self.processed_capacity <= self.size
        &&& self.processed_capacity * self.refill_ns() == self.processed_refill_time * self.size
        &&& self.budget <= self.size
        &&& self.one_time_burst <= self.initial_one_time_burst
    }

    /// Tokens generated in `delta` nanoseconds (rounded down).
    pub open spec fn generated(self, delta: int) -> int {
        delta * self.processed_capacity / self.processed_refill_time as int
    }

    /// Nanoseconds needed to generate `tokens` tokens (rounded up).
    pub open spec fn time_for(self, tokens: int) -> int {
        let t = tokens * self.processed_refill_time;
        if t % self.processed_capacity as int == 0 {
            t / self.processed_capacity as int
        } else {
            t / self.processed_capacity as int + 1
        }
    }

    /// The bucket after `delta` nanoseconds since its last update have been accounted.
    pub open spec fn replenished(self, delta: nat) -> TokenBucketView {
        if delta >= self.refill_ns() {
            TokenBucketView { budget: self.size, ..self }
        } else {
            TokenBucketView {
                budget: min_int(self.budget + self.generated(delta as int), self.size as int) as u64,
                ..self
            }
        }
    }

    /// The bucket refilled at `now` (nanoseconds after the origin). A full refill time or
    /// more since the last update refills it completely and moves the last update to `now`;
    /// less adds the tokens generated since the last update and moves the last update forward
    /// by the time those tokens took, so that the fraction of a token left over carries over
    /// to the next refill.
    pub open spec fn refilled(self, now: u128) -> TokenBucketView {
        let d = elapsed_since(self.last_update, now);
        let r = self.replenished(d);
        if d >= self.refill_ns() {
            TokenBucketView { last_update: now, ..r }
        } else {
            TokenBucketView {
                last_update: (self.last_update + self.time_for(self.generated(d as int))) as u128,
                ..r
            }
        }
    }

    /// The outcome of asking for `tokens` tokens at `now` (nanoseconds after the origin):
    /// taken from the one-time burst, which moves the last update to `now`, or else from the
    /// budget, refilled at `now` if it does not suffice.
    pub open spec fn reduced(self, tokens: u64, now: u128) -> (TokenBucketView, BucketReduction) {
        if self.one_time_burst > 0 && self.one_time_burst >= tokens {
            (
                TokenBucketView {
                    one_time_burst: (self.one_time_burst - tokens) as u64,
                    last_update: now,
                    ..self
                },
                BucketReduction::Success,
            )
        } else {
            let t = if self.one_time_burst > 0 {
                (tokens - self.one_time_burst) as u64
            } else {
                tokens
            };
            let m = TokenBucketView { one_time_burst: 0, ..self };
            if t > m.budget {
                let r = m.refilled(now);
                if t > r.size {
                    (
                        TokenBucketView { budget: 0, ..r },
                        BucketReduction::OverConsumption {
                            tokens: (t - r.budget) as u64,
                            size: r.size,
                        },
                    )
                } else if t > r.budget {
                    (r, BucketReduction::Failure)
                } else {
                    (TokenBucketView { budget: (r.budget - t) as u64, ..r }, BucketReduction::Success)
                }
            } else {
                (TokenBucketView { budget: (m.budget - t) as u64, ..m }, BucketReduction::Success)
            }
        }
    }

    /// The bucket after `tokens` tokens are given back by hand.
    pub open spec fn force_replenished(self, tokens: u64) -> TokenBucketView {
        if self.one_time_burst > 0 {
            TokenBucketView {
                one_time_burst: min_int(
                    self.one_time_burst + tokens,
                    self.initial_one_time_burst as int,
                ) as u64,
                ..self
            }
        } else {
            TokenBucketView {
                budget: min_int(self.budget + tokens, self.size as int) as u64,
                ..self
            }
        }
    }
}

/// A token bucket of configurable capacity, refill time and initial burst.
#[derive(Debug, PartialEq)]
pub struct TokenBucket {
    // Bucket defining traits.
    size: u64,
    // Initial burst size.
    initial_one_time_burst: u64,
    // Complete refill time in milliseconds.
    refill_time: u64,
    // Number of free initial tokens, that can be consumed at no cost.
    one_time_burst: u64,
    // Current token budget.
    budget: u64,
    // The instant the bucket's time is counted from.
    origin: Instant,
    // Nanoseconds from the origin to the last time this token bucket saw activity.
    last_update: u128,
    // The refill fraction `size / (refill_time * 1_000_000)` reduced by its gcd.
    processed_capacity: u64,
    processed_refill_time: u64,
}

impl View for TokenBucket {
    type V = TokenBucketView;

    closed spec fn view(&self) -> TokenBucketView {
        TokenBucketView {
            size: self.size,
            initial_one_time_burst: self.initial_one_time_burst,
            refill_time: self.refill_time,
            one_time_burst: self.one_time_burst,
            budget: self.budget,
            processed_capacity: self.processed_capacity,
            processed_refill_time: self.processed_refill_time,
            last_update: self.last_update,
        }
    }
}

impl Clone for TokenBucket {
    fn clone(&self) -> (r: Self)
        ensures
            r@ == self@,
            r.spec_origin() == self.spec_origin(),
    {
        proof {
            use_type_invariant(self);
        }
        TokenBucket {
            size: self.size,
            initial_one_time_burst: self.initial_one_time_burst,
            refill_time: self.refill_time,
            one_time_burst: self.one_time_burst,
            budget: self.budget,
            origin: self.origin.clone(),
            last_update: self.last_update,
            processed_capacity: self.processed_capacity,
            processed_refill_time: self.processed_refill_time,
        }
    }
}

impl TokenBucket {
    #[verifier::type_invariant]
    spec fn inv(self) -> bool {
        self@.wf()
    }

    /// Creates a bucket of `size` tokens that refills completely in
    /// `complete_refill_time_ms` milliseconds, with an extra `one_time_burst` that does
    /// not refill. Returns `None` if the size or the refill time is zero, or if the refill
    /// time in nanoseconds does not fit in a `u64`.
    pub fn new(size: u64, one_time_burst: u64, complete_refill_time_ms: u64) -> (r: Option<Self>)
        ensures
            r is None <==> (size == 0 || complete_refill_time_ms == 0
                || complete_refill_time_ms * NANOSEC_IN_ONE_MILLISEC > u64::MAX),
            r matches Some(b) ==> b@ == TokenBucketView::initial(
                size,
                one_time_burst,
                complete_refill_time_ms,
            ),
    {
        if size == 0 || complete_refill_time_ms == 0 {
            return None;
        }
        let complete_refill_time_ns = match complete_refill_time_ms.checked_mul(
            NANOSEC_IN_ONE_MILLISEC,
        ) {
            Some(ns) => ns,
            None => return None,
        };
        let common_factor = gcd(size, complete_refill_time_ns);
        proof {
            lemma_gcd_divides(size as nat, complete_refill_time_ns as nat);
            let g = common_factor as int;
            lemma_fundamental_div_mod(size as int, g);
            lemma_fundamental_div_mod(complete_refill_time_ns as int, g);
            let pc = size as int / g;
            let prt = complete_refill_time_ns as int / g;
            assert(pc * complete_refill_time_ns == prt * size) by (nonlinear_arith)
                requires
                    size == g * pc,
                    complete_refill_time_ns == g * prt,
            ;
            assert(pc >= 1 && prt >= 1 && pc <= size) by (nonlinear_arith)
                requires
                    size == g * pc,
                    complete_refill_time_ns == g * prt,
                    size > 0,
                    complete_refill_time_ns > 0,
                    g > 0,
            ;
        }
        let processed_capacity: u64 = size / common_factor;
        let processed_refill_time: u64 = complete_refill_time_ns / common_factor;
        Some(TokenBucket {
            size,
            one_time_burst,
            initial_one_time_burst: one_time_burst,
            refill_time: complete_refill_time_ms,
            budget: size,
            origin: instant_now(),
            last_update: 0,
            processed_capacity,
            processed_refill_time,
        })
    }

    /// The instant the bucket's time is counted from.
    pub closed spec fn spec_origin(&self) -> Instant {
        self.origin
    }

    /// Refills the bucket at `now` nanoseconds after its origin (see
    /// [`TokenBucketView::refilled`]). Returns `None` after a full refill, else the time the
    /// last update moved forward by.
    pub fn replenish_at(&mut self, now: u128) -> (adjustment: Option<u64>)
        ensures
            final(self)@ == old(self)@.refilled(now),
            final(self).spec_origin() == old(self).spec_origin(),
            adjustment is None <==> elapsed_since(old(self)@.last_update, now) >= old(self)@.refill_ns(),
            adjustment matches Some(a) ==> a == old(self)@.time_for(
                old(self)@.generated(elapsed_since(old(self)@.last_update, now) as int),
            ) && a <= elapsed_since(old(self)@.last_update, now),
    {
        proof {
            use_type_invariant(&*self);
        }
        let time_delta: u128 = if now >= self.last_update {
            now - self.last_update
        } else {
            0
        };
        let refill_ns: u64 = self.refill_time * NANOSEC_IN_ONE_MILLISEC;
        if time_delta >= refill_ns as u128 {
            self.budget = self.size;
            self.last_update = now;
            None
        } else {
            let pc: u128 = self.processed_capacity as u128;
            let prt: u128 = self.processed_refill_time as u128;
            let ghost size = self.size as int;
            proof {
                assert(time_delta * pc <= u128::MAX) by (nonlinear_arith)
                    requires
                        time_delta < 0x1_0000_0000_0000_0000u128,
                        pc < 0x1_0000_0000_0000_0000u128,
                ;
            }
            let produced: u128 = time_delta * pc;
            let tokens: u128 = produced / prt;
            proof {
                lemma_fundamental_div_mod(produced as int, prt as int);
                assert(tokens * prt <= produced) by (nonlinear_arith)
                    requires
                        produced == prt * tokens + produced % prt,
                        produced % prt >= 0,
                ;
                assert(tokens < size) by (nonlinear_arith)
                    requires
                        tokens * prt <= time_delta * pc,
                        time_delta < refill_ns,
                        pc * refill_ns == prt * size,
                        pc >= 1,
                        prt >= 1,
                ;
            }
            let spent: u128 = tokens * prt;
            let mut adjustment: u128 = spent / pc;
            proof {
                lemma_fundamental_div_mod(spent as int, pc as int);
                assert(adjustment <= time_delta) by (nonlinear_arith)
                    requires
                        spent == pc * adjustment + spent % pc,
                        spent % pc >= 0,
                        spent <= time_delta * pc,
                        pc >= 1,
                ;
                if spent % pc != 0 {
                    assert(adjustment < time_delta) by (nonlinear_arith)
                        requires
                            spent == pc * adjustment + spent % pc,
                            spent % pc > 0,
                            spent <= time_delta * pc,
                            pc >= 1,
                    ;
                }
            }
            if spent % pc != 0 {
                adjustment = adjustment + 1;
            }
            let adjustment64: u64 = adjustment as u64;
            self.last_update = self.last_update + adjustment;
            let tokens64: u64 = tokens as u64;
            let sum: u64 = self.budget.saturating_add(tokens64);
            if sum < self.size {
                self.budget = sum;
            } else {
                self.budget = self.size;
            }
            Some(adjustment64)
        }
    }

    /// Nanoseconds from the origin to the current instant, as the clock reads it.
    fn nanos_now(&self) -> u128 {
        let now = instant_now();
        let since = duration_since(&now, &self.origin);
        duration_nanos(&since)
    }

    /// Replenishes the bucket for the time elapsed since its last update: refills it at the
    /// current instant, as the clock reads it.
    pub fn auto_replenish(&mut self)
        ensures
            exists|now: u128| final(self)@ == #[trigger] old(self)@.refilled(now),
            final(self).spec_origin() == old(self).spec_origin(),
    {
        let now = self.nanos_now();
        let _ = self.replenish_at(now);
    }

    /// Attempts to consume `tokens` from the bucket: the one-time burst first, then the
    /// budget, refilled for the elapsed time if it does not suffice. A request larger than
    /// the whole bucket empties it and reports how much was borrowed beyond it.
    pub fn reduce(&mut self, tokens: u64) -> (r: BucketReduction)
        ensures
            exists|now: u128| (final(self)@, r) == #[trigger] old(self)@.reduced(tokens, now),
            final(self).spec_origin() == old(self).spec_origin(),
    {
        proof {
            use_type_invariant(&*self);
        }
        let mut t = tokens;
        if self.one_time_burst > 0 {
            if self.one_time_burst >= t {
                self.one_time_burst = self.one_time_burst - t;
                let now = self.nanos_now();
                self.last_update = now;
                assert((self@, BucketReduction::Success) == old(self)@.reduced(tokens, now));
                return BucketReduction::Success;
            } else {
                t = t - self.one_time_burst;
                self.one_time_burst = 0;
            }
        }
        if t > self.budget {
            let ghost mid = self@;
            self.auto_replenish();
            let ghost d = choose|now: u128| self@ == #[trigger] mid.refilled(now);
            if t > self.size {
                let borrowed = t - self.budget;
                self.budget = 0;
                let r = BucketReduction::OverConsumption { tokens: borrowed, size: self.size };
                assert((self@, r) == old(self)@.reduced(tokens, d));
                return r;
            }
            if t > self.budget {
                assert((self@, BucketReduction::Failure) == old(self)@.reduced(tokens, d));
                return BucketReduction::Failure;
            }
            self.budget = self.budget - t;
            assert((self@, BucketReduction::Success) == old(self)@.reduced(tokens, d));
            return BucketReduction::Success;
        }
        self.budget = self.budget - t;
        assert((self@, BucketReduction::Success) == old(self)@.reduced(tokens, self.last_update));
        BucketReduction::Success
    }

    /// "Manually" adds tokens to the bucket: to the one-time burst while some of it is left
    /// (never beyond its initial value), else to the budget (never beyond the size).
    pub fn force_replenish(&mut self, tokens: u64)
        ensures
            final(self)@ == old(self)@.force_replenished(tokens),
    {
        proof {
            use_type_invariant(&*self);
        }
        if self.one_time_burst > 0 {
            let sum = self.one_time_burst.saturating_add(tokens);
            if sum < self.initial_one_time_burst {
                self.one_time_burst = sum;
            } else {
                self.one_time_burst = self.initial_one_time_burst;
            }
            return;
        }
        let sum = self.budget.saturating_add(tokens);
        if sum < self.size {
            self.budget = sum;
        } else {
            self.budget = self.size;
        }
    }

    /// Resets the bucket: budget set to its capacity and last update set to now, which
    /// becomes the bucket's origin.
    pub fn reset(&mut self)
        ensures
            final(self)@ == (TokenBucketView { budget: old(self)@.size, last_update: 0, ..old(self)@ }),
    {
        proof {
            use_type_invariant(&*self);
        }
        self.budget = self.size;
        self.origin = instant_now();
        self.last_update = 0;
    }

    /// Returns the capacity of the token bucket.
    pub fn capacity(&self) -> (r: u64)
        ensures
            r == self@.size,
    {
        self.size
    }

    /// Returns the remaining one time burst budget.
    pub fn one_time_burst(&self) -> (r: u64)
        ensures
            r == self@.one_time_burst,
    {
        self.one_time_burst
    }

    /// Returns the time in milliseconds required to to completely fill the bucket.
    pub fn refill_time_ms(&self) -> (r: u64)
        ensures
            r == self@.refill_time,
    {
        self.refill_time
    }

    /// Returns the current budget (one time burst allowance notwithstanding).
    pub fn budget(&self) -> (r: u64)
        ensures
            r == self@.budget,
    {
        self.budget
    }

    /// Returns the initially configured one time burst budget.
    pub fn initial_one_time_burst(&self) -> (r: u64)
        ensures
            r == self@.initial_one_time_burst,
    {
        self.initial_one_time_burst
    }

    /// Returns the reduced numerator of the refill fraction.
    pub fn get_processed_capacity(&self) -> (r: u64)
        ensures
            r == self@.processed_capacity,
    {
        self.processed_capacity
    }

    /// Returns the reduced denominator of the refill fraction.
    pub fn get_processed_refill_time(&self) -> (r: u64)
        ensures
            r == self@.processed_refill_time,
    {
        self.processed_refill_time
    }

    /// Returns the instant of the last update of this bucket: its origin, moved forward by
    /// the nanoseconds of the last update. `None` where the platform cannot represent it.
    pub fn get_last_update(&self) -> Option<Instant> {
        if self.last_update <= 0xffff_ffff_ffff_ffff {
            let after = duration_from_nanos(self.last_update as u64);
            instant_checked_add(&self.origin, after)
        } else {
            None
        }
    }

    /// Returns the nanoseconds from the bucket's origin to its last update.
    pub fn last_update_nanos(&self) -> (r: u128)
        ensures
            r == self@.last_update,
    {
        self.last_update
    }
}


// ---------------------------------------------------------------------------------------------
// Rate limiter
// ---------------------------------------------------------------------------------------------

/// Describes the errors that may occur while handling rate limiter events.
#[derive(Debug, PartialEq, Eq)]
pub enum Error {
    /// The event handler was called spuriously.
    SpuriousRateLimiterEvent(&'static str),
}

/// Enum that describes the type of token used.
#[derive(Clone, Copy, Debug, PartialEq, Eq)]
pub enum TokenType {
    /// Token type used for bandwidth limiting.
    Bytes,
    /// Token type used for operations/second limiting.
    Ops,
}

/// Enum that describes the type of token bucket update.
#[derive(Debug)]
pub enum BucketUpdate {
    /// No Update - same as before.
    NoUpdate,
    /// Rate Limiting is disabled on this bucket.
    Disabled,
    /// Rate Limiting enabled with updated bucket.
    Update(TokenBucket),
}

/// The abstract counterpart of a [`BucketUpdate`].
#[derive(Clone, Copy, Debug, PartialEq, Eq)]
pub enum BucketUpdateView {
    NoUpdate,
    Disabled,
    Update(TokenBucketView),
}

impl View for BucketUpdate {
    type V = BucketUpdateView;

    open spec fn view(&self) -> BucketUpdateView {
        match self {
            BucketUpdate::NoUpdate => BucketUpdateView::NoUpdate,
            BucketUpdate::Disabled => BucketUpdateView::Disabled,
            BucketUpdate::Update(tb) => BucketUpdateView::Update(tb@),
        }
    }
}

/// The bucket built from `size`, `one_time_burst` and `refill_time_ms`, or none when the
/// size or the refill time is zero or the refill time in nanoseconds overflows a `u64`.
pub open spec fn new_bucket(size: u64, one_time_burst: u64, refill_time_ms: u64) -> Option<TokenBucketView> {
    if size == 0 || refill_time_ms == 0 || refill_time_ms * NANOSEC_IN_ONE_MILLISEC > u64::MAX {
        None
    } else {
        Some(TokenBucketView::initial(size, one_time_burst, refill_time_ms))
    }
}

/// The view of an optional bucket.
pub open spec fn opt_view(b: Option<TokenBucket>) -> Option<TokenBucketView> {
    match b {
        Some(tb) => Some(tb@),
        None => None,
    }
}

/// Milliseconds during which a limiter stays blocked after `borrowed` tokens were borrowed
/// from a bucket of `size` tokens refilled in `refill_time` milliseconds: the borrowed
/// fraction of a refill time, rounded down and saturated at `u64::MAX`.
pub open spec fn overconsumption_wait_ms(borrowed: u64, size: u64, refill_time: u64) -> u64 {
    min_int(borrowed * refill_time / size as int, u64::MAX as int) as u64
}

fn overconsumption_wait(borrowed: u64, size: u64, refill_time: u64) -> (r: u64)
    requires
        size > 0,
    ensures
        r == overconsumption_wait_ms(borrowed, size, refill_time),
{
    let b: u128 = borrowed as u128;
    let t: u128 = refill_time as u128;
    proof {
        assert(b * t <= u128::MAX) by (nonlinear_arith)
            requires
                b < 0x1_0000_0000_0000_0000u128,
                t < 0x1_0000_0000_0000_0000u128,
        ;
    }
    let q: u128 = (b * t) / (size as u128);
    if q > u64::MAX as u128 {
        u64::MAX
    } else {
        q as u64
    }
}

/// The abstract state of a rate limiter.
#[derive(Clone, Copy, Debug, PartialEq, Eq)]
pub struct RateLimiterView {
    pub bandwidth: Option<TokenBucketView>,
    pub ops: Option<TokenBucketView>,
    /// Whether the refill timer is armed, during which every consumption fails.
    pub blocked: bool,
    /// The duration, in milliseconds, the timer was last armed with.
    pub timer_ms: u64,
}

impl RateLimiterView {
    /// The bucket that accounts tokens of type `t`.
    pub open spec fn bucket(self, t: TokenType) -> Option<TokenBucketView> {
        match t {
            TokenType::Bytes => self.bandwidth,
            TokenType::Ops => self.ops,
        }
    }

    /// The limiter with the bucket of type `t` replaced by `b`.
    pub open spec fn with_bucket(self, t: TokenType, b: Option<TokenBucketView>) -> RateLimiterView {
        match t {
            TokenType::Bytes => RateLimiterView { bandwidth: b, ..self },
            TokenType::Ops => RateLimiterView { ops: b, ..self },
        }
    }

    /// Both buckets, where present, are well formed.
    pub open spec fn wf(self) -> bool {
        &&& (self.bandwidth matches Some(b) ==> b.wf())
        &&& (self.ops matches Some(b) ==> b.wf())
    }

    /// The outcome of consuming `tokens` of type `t` at `now` (nanoseconds after the origin
    /// of the bucket of type `t`): the new state and whether the consumption is allowed.
    pub open spec fn consumed(self, tokens: u64, t: TokenType, now: u128) -> (RateLimiterView, bool) {
        if self.blocked {
            (self, false)
        } else {
            match self.bucket(t) {
                None => (self, true),
                Some(b) => {
                    let (nb, red) = b.reduced(tokens, now);
                    let s = self.with_bucket(t, Some(nb));
                    match red {
                        BucketReduction::Failure => (
                            RateLimiterView { blocked: true, timer_ms: REFILL_TIMER_INTERVAL_MS, ..s },
                            false,
                        ),
                        BucketReduction::Success => (s, true),
                        BucketReduction::OverConsumption { tokens: borrowed, size } => (
                            RateLimiterView {
                                blocked: true,
                                timer_ms: overconsumption_wait_ms(borrowed, size, b.refill_time),
                                ..s
                            },
                            true,
                        ),
                    }
                },
            }
        }
    }

    /// The limiter after `tokens` of type `t` are given back by hand.
    pub open spec fn replenished_by_hand(self, tokens: u64, t: TokenType) -> RateLimiterView {
        match self.bucket(t) {
            None => self,
            Some(b) => self.with_bucket(t, Some(b.force_replenished(tokens))),
        }
    }

    /// The limiter after its buckets are updated.
    pub open spec fn updated(self, bytes: BucketUpdateView, ops: BucketUpdateView) -> RateLimiterView {
        let bandwidth = match bytes {
            BucketUpdateView::NoUpdate => self.bandwidth,
            BucketUpdateView::Disabled => None,
            BucketUpdateView::Update(b) => Some(b),
        };
        let ops_bucket = match ops {
            BucketUpdateView::NoUpdate => self.ops,
            BucketUpdateView::Disabled => None,
            BucketUpdateView::Update(b) => Some(b),
        };
        RateLimiterView { bandwidth, ops: ops_bucket, ..self }
    }
}

/// Rate Limiter that works on both bandwidth and ops/s limiting.
///
/// Bandwidth (bytes/s) and ops/s limiting can be used at the same time or individually.
/// A single timer refreshes either or both token buckets: buckets are replenished
/// passively as they are used, and the timer unblocks the limiter once a consumption
/// failed or borrowed beyond a bucket.
pub struct RateLimiter {
    bandwidth: Option<TokenBucket>,
    ops: Option<TokenBucket>,
    timer_fd: TimerFd,
    // Internal flag that quickly determines timer state.
    timer_active: bool,
    // The duration the timer was last armed with.
    timer_ms: Ghost<u64>,
}

impl View for RateLimiter {
    type V = RateLimiterView;

    closed spec fn view(&self) -> RateLimiterView {
        RateLimiterView {
            bandwidth: opt_view(self.bandwidth),
            ops: opt_view(self.ops),
            blocked: self.timer_active,
            timer_ms: self.timer_ms@,
        }
    }
}

impl RateLimiter {
    /// Assembles a limiter from its buckets and timer, unblocked.
    fn assemble(bandwidth: Option<TokenBucket>, ops: Option<TokenBucket>, timer_fd: TimerFd) -> (r: Self)
        ensures
            r@ == (RateLimiterView {
                bandwidth: opt_view(bandwidth),
                ops: opt_view(ops),
                blocked: false,
                timer_ms: 0,
            }),
    {
        RateLimiter { bandwidth, ops, timer_fd, timer_active: false, timer_ms: Ghost(0) }
    }

    /// Creates a new rate limiter that can limit on both bytes/s and ops/s. A bucket whose
    /// size or refill time is zero is absent: limiting is disabled for that token type.
    /// The limiter starts unblocked. Fails only if the timer cannot be created.
    pub fn new(
        bytes_total_capacity: u64,
        bytes_one_time_burst: u64,
        bytes_complete_refill_time_ms: u64,
        ops_total_capacity: u64,
        ops_one_time_burst: u64,
        ops_complete_refill_time_ms: u64,
    ) -> (r: Result<Self, std::io::Error>)
        ensures
            r matches Ok(l) ==> {
                &&& !l@.blocked
                &&& l@.bandwidth == new_bucket(
                    bytes_total_capacity,
                    bytes_one_time_burst,
                    bytes_complete_refill_time_ms,
                )
                &&& l@.ops == new_bucket(
                    ops_total_capacity,
                    ops_one_time_burst,
                    ops_complete_refill_time_ms,
                )
            },
    {
        let bytes_token_bucket = TokenBucket::new(
            bytes_total_capacity,
            bytes_one_time_burst,
            bytes_complete_refill_time_ms,
        );
        let ops_token_bucket = TokenBucket::new(
            ops_total_capacity,
            ops_one_time_burst,
            ops_complete_refill_time_ms,
        );
        // The timer is created even if the configuration disables limiting: an update may
        // enable it later, when creating a timer may no longer be allowed.
        match timer_create() {
            Ok(timer_fd) => Ok(Self::assemble(bytes_token_bucket, ops_token_bucket, timer_fd)),
            Err(e) => Err(e),
        }
    }

    // Arms the timer for `millis` milliseconds and marks the limiter blocked.
    fn activate_timer(&mut self, millis: u64)
        ensures
            final(self)@ == (RateLimiterView { blocked: true, timer_ms: millis, ..old(self)@ }),
    {
        timer_arm_oneshot_ms(&mut self.timer_fd, millis);
        self.timer_active = true;
        self.timer_ms = Ghost(millis);
    }

    /// Attempts to consume tokens and returns whether that is possible.
    ///
    /// A blocked limiter refuses every consumption. If rate limiting is disabled on the
    /// provided `token_type`, the consumption always succeeds. A failed consumption blocks
    /// the limiter for the refill timer interval; one that borrowed beyond its bucket
    /// succeeds and blocks the limiter for the time the borrowed tokens take to refill.
    pub fn consume(&mut self, tokens: u64, token_type: TokenType) -> (r: bool)
        ensures
            exists|now: u128| (final(self)@, r) == #[trigger] old(self)@.consumed(tokens, token_type, now),
    {
        if self.timer_active {
            assert((self@, false) == old(self)@.consumed(tokens, token_type, 0));
            return false;
        }
        let mut slot = match token_type {
            TokenType::Bytes => self.bandwidth.take(),
            TokenType::Ops => self.ops.take(),
        };
        match slot {
            None => {
                match token_type {
                    TokenType::Bytes => { self.bandwidth = slot; },
                    TokenType::Ops => { self.ops = slot; },
                }
                assert((self@, true) == old(self)@.consumed(tokens, token_type, 0));
                true
            },
            Some(mut bucket) => {
                proof {
                    use_type_invariant(&bucket);
                }
                let ghost before = bucket@;
                let refill_time = bucket.refill_time_ms();
                let reduction = bucket.reduce(tokens);
                let ghost d = choose|now: u128| (bucket@, reduction) == #[trigger] before.reduced(tokens, now);
                match token_type {
                    TokenType::Bytes => { self.bandwidth = Some(bucket); },
                    TokenType::Ops => { self.ops = Some(bucket); },
                }
                match reduction {
                    BucketReduction::Failure => {
                        self.activate_timer(REFILL_TIMER_INTERVAL_MS);
                        assert((self@, false) == old(self)@.consumed(tokens, token_type, d));
                        false
                    },
                    BucketReduction::Success => {
                        assert((self@, true) == old(self)@.consumed(tokens, token_type, d));
                        true
                    },
                    BucketReduction::OverConsumption { tokens: borrowed, size } => {
                        // The bucket takes `refill_time` to refill completely, so further
                        // consumption is held off for the borrowed fraction of that time.
                        let wait = overconsumption_wait(borrowed, size, refill_time);
                        self.activate_timer(wait);
                        assert((self@, true) == old(self)@.consumed(tokens, token_type, d));
                        true
                    },
                }
            },
        }
    }

    /// Adds tokens of `token_type` to their respective bucket. Can be used to manually add
    /// tokens to a bucket, for instance to revert a `consume()`.
    pub fn manual_replenish(&mut self, tokens: u64, token_type: TokenType)
        ensures
            final(self)@ == old(self)@.replenished_by_hand(tokens, token_type),
    {
        let slot = match token_type {
            TokenType::Bytes => self.bandwidth.take(),
            TokenType::Ops => self.ops.take(),
        };
        let slot = match slot {
            Some(mut bucket) => {
                bucket.force_replenish(tokens);
                Some(bucket)
            },
            None => None,
        };
        match token_type {
            TokenType::Bytes => { self.bandwidth = slot; },
            TokenType::Ops => { self.ops = slot; },
        }
    }

    /// Returns whether this rate limiter is blocked, which it is from a failed or
    /// over-borrowing `consume()` until the timer event is handled.
    pub fn is_blocked(&self) -> (r: bool)
        ensures
            r == self@.blocked,
    {
        self.timer_active
    }

    /// Handles a timer event given the number of expirations read from the timer: none
    /// means the event was spurious and the limiter is left as it was; otherwise the
    /// limiter is unblocked.
    pub fn handle_expirations(&mut self, expirations: u64) -> (r: Result<(), Error>)
        ensures
            expirations == 0 ==> final(self)@ == old(self)@ && r == Err::<(), Error>(
                Error::SpuriousRateLimiterEvent(
                    "Rate limiter event handler called without a present timer",
                ),
            ),
            expirations != 0 ==> r is Ok && final(self)@ == (RateLimiterView {
                blocked: false,
                ..old(self)@
            }),
    {
        if expirations == 0 {
            Err(
                Error::SpuriousRateLimiterEvent(
                    "Rate limiter event handler called without a present timer",
                ),
            )
        } else {
            self.timer_active = false;
            Ok(())
        }
    }

    /// Must be called on every event of the limiter's timer. Errs, leaving the limiter as
    /// it was, when the timer has not expired (the event was spurious); otherwise unblocks
    /// the limiter.
    pub fn event_handler(&mut self) -> (r: Result<(), Error>)
        ensures
            r is Err ==> final(self)@ == old(self)@ && r == Err::<(), Error>(
                Error::SpuriousRateLimiterEvent(
                    "Rate limiter event handler called without a present timer",
                ),
            ),
            r is Ok ==> final(self)@ == (RateLimiterView { blocked: false, ..old(self)@ }),
    {
        let expirations = timer_expirations(&self.timer_fd);
        self.handle_expirations(expirations)
    }

    /// Updates the parameters of the token buckets associated with this limiter: an update
    /// replaces the bucket, `Disabled` removes it and `None` keeps it.
    pub fn update_buckets(&mut self, bytes: BucketUpdate, ops: BucketUpdate)
        ensures
            final(self)@ == old(self)@.updated(bytes@, ops@),
    {
        match bytes {
            BucketUpdate::Disabled => { self.bandwidth = None; },
            BucketUpdate::Update(tb) => { self.bandwidth = Some(tb); },
            BucketUpdate::NoUpdate => {},
        }
        match ops {
            BucketUpdate::Disabled => { self.ops = None; },
            BucketUpdate::Update(tb) => { self.ops = Some(tb); },
            BucketUpdate::NoUpdate => {},
        }
    }

    /// The timer of the limiter, whose file descriptor signals the end of a blocked period:
    /// on each such event, [`RateLimiter::event_handler`] must be called.
    pub fn timer_fd(&self) -> (r: &TimerFd)
        ensures
            *r == self.spec_timer_fd(),
    {
        &self.timer_fd
    }

    /// The timer of the limiter.
    pub closed spec fn spec_timer_fd(&self) -> TimerFd {
        self.timer_fd
    }

    /// Returns an immutable view of the inner bandwidth token bucket.
    pub fn bandwidth(&self) -> (r: Option<&TokenBucket>)
        ensures
            match r {
                Some(b) => self@.bandwidth == Some(b@),
                None => self@.bandwidth is None,
            },
    {
        self.bandwidth.as_ref()
    }

    /// Returns an immutable view of the inner ops token bucket.
    pub fn ops(&self) -> (r: Option<&TokenBucket>)
        ensures
            match r {
                Some(b) => self@.ops == Some(b@),
                None => self@.ops is None,
            },
    {
        self.ops.as_ref()
    }
}


// ---------------------------------------------------------------------------------------------
// Laws
// ---------------------------------------------------------------------------------------------

/// The tokens generated in a span of time are never negative and never more than a refill
/// time generates.
proof fn lemma_generated_bounds(b: TokenBucketView, delta: int)
    requires
        b.wf(),
        0 <= delta,
    ensures
        0 <= b.generated(delta),
        delta < b.refill_ns() ==> b.generated(delta) < b.size,
{
    let pc = b.processed_capacity as int;
    let prt = b.processed_refill_time as int;
    assert(0 <= delta * pc) by (nonlinear_arith)
        requires
            0 <= delta,
            0 <= pc,
    ;
    lemma_div_is_ordered(0, delta * pc, prt);
    if delta < b.refill_ns() {
        let g = b.generated(delta);
        lemma_fundamental_div_mod(delta * pc, prt);
        assert(g < b.size) by (nonlinear_arith)
            requires
                g == (delta * pc) / prt,
                delta * pc == prt * ((delta * pc) / prt) + (delta * pc) % prt,
                (delta * pc) % prt >= 0,
                delta < b.refill_ns(),
                pc * b.refill_ns() == prt * b.size,
                pc >= 1,
                prt >= 1,
        ;
    }
}

/// Replenishing keeps a bucket well formed: its budget never goes beyond its size, and the
/// one-time burst is not replenished by the passage of time.
pub proof fn lemma_replenish_keeps_wf(b: TokenBucketView, delta: nat)
    requires
        b.wf(),
    ensures
        b.replenished(delta).wf(),
        b.replenished(delta).budget <= b.size,
        b.replenished(delta).one_time_burst == b.one_time_burst,
        b.budget <= b.replenished(delta).budget,
{
    lemma_generated_bounds(b, delta as int);
}

/// A full refill time (or more) since the last update refills the bucket completely.
pub proof fn lemma_full_refill(b: TokenBucketView, delta: nat)
    requires
        b.wf(),
        delta >= b.refill_ns(),
    ensures
        b.replenished(delta).budget == b.size,
{
}

/// The bucket after a refill at each of `times` (nanoseconds after its origin), one after
/// the other.
pub open spec fn refilled_at(b: TokenBucketView, times: Seq<u128>) -> TokenBucketView
    decreases times.len(),
{
    if times.len() == 0 {
        b
    } else {
        refilled_at(b.refilled(times[0]), times.drop_first())
    }
}

/// Whole multiples of `p` come out of a division by `p` whole.
proof fn lemma_div_shift(g: int, delta: int, p: int)
    requires
        p > 0,
        delta >= 0,
    ensures
        (p * g + delta) / p == g + delta / p,
        p * (delta / p) <= delta,
{
    lemma_fundamental_div_mod(delta, p);
    let q = delta / p;
    let r = delta % p;
    assert(p * g + delta == p * (g + q) + r) by (nonlinear_arith)
        requires
            delta == p * q + r,
    ;
    lemma_div_multiples_vanish_fancy(g + q, r, p);
}

/// Refills in a row from budget `b0.budget + g` (capped at the size), the last update `g`
/// whole tokens' time after that of `b0`, add up to one refill of `b0` at the last of them.
proof fn lemma_refills_whole_tokens(b0: TokenBucketView, b: TokenBucketView, g: int, times: Seq<u128>)
    requires
        b0.wf(),
        b0.processed_capacity == 1,
        g >= 0,
        b == (TokenBucketView {
            budget: min_int(b0.budget + g, b0.size as int) as u64,
            last_update: (b0.last_update + b0.processed_refill_time * g) as u128,
            ..b0
        }),
        forall|i: int|
            0 <= i < times.len() ==> b0.last_update + b0.processed_refill_time * g <= #[trigger] times[i]
                < b0.last_update + b0.refill_ns(),
        forall|i: int, j: int| 0 <= i < j < times.len() ==> #[trigger] times[i] <= #[trigger] times[j],
    ensures
        times.len() > 0 ==> refilled_at(b, times) == b0.refilled(times.last()),
    decreases times.len(),
{
    if times.len() > 0 {
        let p = b0.processed_refill_time as int;
        let l0 = b0.last_update as int;
        let t0 = times[0];
        assert(p * g >= 0) by (nonlinear_arith)
            requires
                p >= 1,
                g >= 0,
        ;
        assert(b.last_update == l0 + p * g);
        let delta = t0 - l0 - p * g;
        assert(elapsed_since(b.last_update, t0) == delta);
        lemma_div_shift(g, delta, p);
        let q = delta / p;
        assert(q >= 0) by {
            lemma_div_pos_is_pos(delta, p);
        }
        assert(b.generated(delta) == q);
        assert(b.time_for(q) == q * p);
        assert(p * g + q * p == p * (g + q)) by (nonlinear_arith);
        let b1 = b.refilled(t0);
        assert(delta < b.refill_ns());
        assert(b1 == (TokenBucketView {
            budget: min_int(b0.budget + (g + q), b0.size as int) as u64,
            last_update: (l0 + p * (g + q)) as u128,
            ..b0
        }));
        let rest = times.drop_first();
        assert(refilled_at(b, times) == refilled_at(b1, rest));
        if times.len() == 1 {
            assert(refilled_at(b1, rest) == b1);
            assert(elapsed_since(b0.last_update, t0) == p * g + delta);
            assert(b0.generated(p * g + delta) == g + q);
            assert(b0.time_for(g + q) == (g + q) * p);
            assert((g + q) * p == p * (g + q)) by (nonlinear_arith);
        } else {
            assert forall|i: int| 0 <= i < rest.len() implies l0 + p * (g + q) <= #[trigger] rest[i] < l0
                + b0.refill_ns() by {
                assert(times[0] <= times[i + 1]);
            }
            lemma_refills_whole_tokens(b0, b1, g + q, rest);
            assert(rest.last() == times.last());
        }
    }
}

/// Refills in a row add up to one refill over the whole time, the fraction of a token that
/// each leaves carried over to the next: where each token takes a whole number of
/// nanoseconds (the size divides the refill time in nanoseconds), refilling at each of
/// `times` (in order, within one refill time after the last update) leaves the bucket as
/// one refill at the last of them does.
pub proof fn lemma_refills_carry_over(b: TokenBucketView, times: Seq<u128>)
    requires
        b.wf(),
        b.processed_capacity == 1,
        times.len() > 0,
        forall|i: int| 0 <= i < times.len() ==> b.last_update <= #[trigger] times[i] < b.last_update + b.refill_ns(),
        forall|i: int, j: int| 0 <= i < j < times.len() ==> #[trigger] times[i] <= #[trigger] times[j],
    ensures
        refilled_at(b, times) == b.refilled(times.last()),
{
    assert(b.processed_refill_time * 0 == 0);
    assert(b == (TokenBucketView {
        budget: min_int(b.budget + 0, b.size as int) as u64,
        last_update: (b.last_update + b.processed_refill_time * 0) as u128,
        ..b
    }));
    lemma_refills_whole_tokens(b, b, 0, times);
}

/// The time a refill moves the last update by is at most the time it accounts, and at least
/// the time the tokens it added took.
proof fn lemma_time_for_bounds(b: TokenBucketView, delta: int)
    requires
        b.wf(),
        0 <= delta,
    ensures
        0 <= b.generated(delta),
        0 <= b.time_for(b.generated(delta)) <= delta,
        b.time_for(b.generated(delta)) * b.processed_capacity >= b.generated(delta)
            * b.processed_refill_time,
{
    let pc = b.processed_capacity as int;
    let prt = b.processed_refill_time as int;
    lemma_generated_bounds(b, delta);
    let g = b.generated(delta);
    lemma_fundamental_div_mod(delta * pc, prt);
    let t = g * prt;
    assert(t <= delta * pc) by (nonlinear_arith)
        requires
            delta * pc == prt * g + (delta * pc) % prt,
            (delta * pc) % prt >= 0,
            t == g * prt,
    ;
    assert(t >= 0) by (nonlinear_arith)
        requires
            g >= 0,
            prt >= 1,
            t == g * prt,
    ;
    lemma_fundamental_div_mod(t, pc);
    let q = t / pc;
    assert(q >= 0) by {
        lemma_div_pos_is_pos(t, pc);
    }
    if t % pc == 0 {
        assert(q <= delta) by (nonlinear_arith)
            requires
                t == pc * q,
                t <= delta * pc,
                pc >= 1,
        ;
        assert(q * pc >= t) by (nonlinear_arith)
            requires
                t == pc * q,
        ;
    } else {
        assert(q < delta) by (nonlinear_arith)
            requires
                t == pc * q + t % pc,
                t % pc > 0,
                t <= delta * pc,
                pc >= 1,
        ;
        assert((q + 1) * pc >= t) by (nonlinear_arith)
            requires
                t == pc * q + t % pc,
                t % pc < pc,
        ;
    }
}

/// Refills in a row from a bucket whose budget is at most `b0.budget + g_total` (capped at
/// the size), its last update at least `g_total` tokens' time after that of `b0`, never give
/// more than one refill of `b0` at the last of them.
proof fn lemma_refills_bounded(b0: TokenBucketView, b: TokenBucketView, g_total: int, times: Seq<u128>)
    requires
        b0.wf(),
        b == (TokenBucketView { budget: b.budget, last_update: b.last_update, ..b0 }),
        g_total >= 0,
        b0.last_update <= b.last_update,
        b.budget <= min_int(b0.budget + g_total, b0.size as int),
        (b.last_update - b0.last_update) * b0.processed_capacity >= g_total * b0.processed_refill_time,
        forall|i: int| 0 <= i < times.len() ==> b.last_update <= #[trigger] times[i] < b0.last_update + b0.refill_ns(),
        forall|i: int, j: int| 0 <= i < j < times.len() ==> #[trigger] times[i] <= #[trigger] times[j],
    ensures
        times.len() > 0 ==> {
            let r = refilled_at(b, times);
            &&& r == (TokenBucketView { budget: r.budget, last_update: r.last_update, ..b0 })
            &&& r.budget <= b0.refilled(times.last()).budget
        },
    decreases times.len(),
{
    if times.len() > 0 {
        let pc = b0.processed_capacity as int;
        let prt = b0.processed_refill_time as int;
        let l0 = b0.last_update as int;
        let offset = b.last_update - l0;
        let t0 = times[0];
        let delta = t0 - b.last_update;
        assert(elapsed_since(b.last_update, t0) == delta);
        lemma_time_for_bounds(b0, delta);
        let g = b0.generated(delta);
        let a = b0.time_for(g);
        assert(b.generated(delta) == g);
        assert(b.time_for(g) == a);
        assert(delta < b.refill_ns());
        let b1 = b.refilled(t0);
        assert(b1.last_update == b.last_update + a);
        assert(b1 == (TokenBucketView { budget: b1.budget, last_update: b1.last_update, ..b0 }));
        assert(b1.budget <= min_int(b0.budget + (g_total + g), b0.size as int));
        assert((offset + a) * pc >= (g_total + g) * prt) by (nonlinear_arith)
            requires
                offset * pc >= g_total * prt,
                a * pc >= g * prt,
        ;
        let rest = times.drop_first();
        assert(refilled_at(b, times) == refilled_at(b1, rest));
        if times.len() == 1 {
            assert(refilled_at(b1, rest) == b1);
            // The tokens accounted so far fit in the time up to the last refill.
            let gt = g_total + g;
            let total = t0 - l0;
            assert(gt * prt <= total * pc) by (nonlinear_arith)
                requires
                    (offset + a) * pc >= gt * prt,
                    offset + a <= total,
                    pc >= 1,
            ;
            lemma_fundamental_div_mod(total * pc, prt);
            assert(gt <= (total * pc) / prt) by (nonlinear_arith)
                requires
                    gt * prt <= total * pc,
                    total * pc == prt * ((total * pc) / prt) + (total * pc) % prt,
                    (total * pc) % prt < prt,
                    prt >= 1,
            ;
            assert(elapsed_since(b0.last_update, t0) == total);
            assert(b0.generated(total) == (total * pc) / prt);
        } else {
            assert forall|i: int| 0 <= i < rest.len() implies b1.last_update <= #[trigger] rest[i] < l0
                + b0.refill_ns() by {
                assert(times[0] <= times[i + 1]);
            }
            lemma_refills_bounded(b0, b1, g_total + g, rest);
            assert(rest.last() == times.last());
        }
    }
}

/// Refills in a row never give more than one refill over the whole time: refilling at each
/// of `times` (in order, within one refill time after the last update) leaves at most the
/// budget that one refill at the last of them does, and changes nothing but the budget and
/// the last update.
pub proof fn lemma_refills_never_exceed(b: TokenBucketView, times: Seq<u128>)
    requires
        b.wf(),
        times.len() > 0,
        forall|i: int| 0 <= i < times.len() ==> b.last_update <= #[trigger] times[i] < b.last_update + b.refill_ns(),
        forall|i: int, j: int| 0 <= i < j < times.len() ==> #[trigger] times[i] <= #[trigger] times[j],
    ensures
        refilled_at(b, times) == (TokenBucketView {
            budget: refilled_at(b, times).budget,
            last_update: refilled_at(b, times).last_update,
            ..b
        }),
        refilled_at(b, times).budget <= b.refilled(times.last()).budget,
{
    assert((b.last_update - b.last_update) * b.processed_capacity >= 0 * b.processed_refill_time);
    lemma_refills_bounded(b, b, 0, times);
}

/// More elapsed time never yields a smaller budget.
pub proof fn lemma_replenish_monotonic(b: TokenBucketView, d1: nat, d2: nat)
    requires
        b.wf(),
        d1 <= d2,
    ensures
        b.replenished(d1).budget <= b.replenished(d2).budget,
{
    lemma_generated_bounds(b, d1 as int);
    lemma_generated_bounds(b, d2 as int);
    let pc = b.processed_capacity as int;
    assert(d1 * pc <= d2 * pc) by (nonlinear_arith)
        requires
            d1 <= d2,
            0 <= pc,
    ;
    lemma_div_is_ordered(d1 * pc, d2 * pc, b.processed_refill_time as int);
}

/// Consuming keeps a bucket well formed and never grows its one-time burst; its
/// parameters are unchanged.
pub proof fn lemma_reduce_keeps_wf(b: TokenBucketView, tokens: u64, now: u128)
    requires
        b.wf(),
    ensures
        b.reduced(tokens, now).0.wf(),
        b.reduced(tokens, now).0.one_time_burst <= b.one_time_burst,
        b.reduced(tokens, now).0.size == b.size,
        b.reduced(tokens, now).0.refill_time == b.refill_time,
        b.reduced(tokens, now).0.initial_one_time_burst == b.initial_one_time_burst,
{
    let m = TokenBucketView { one_time_burst: 0, ..b };
    lemma_replenish_keeps_wf(m, elapsed_since(m.last_update, now));
}

/// A request covered by the one-time burst and the budget together succeeds and takes
/// exactly the requested tokens from them, burst first.
pub proof fn lemma_reduce_exact(b: TokenBucketView, tokens: u64, now: u128)
    requires
        b.wf(),
        tokens <= b.one_time_burst + b.budget,
    ensures
        b.reduced(tokens, now).1 == BucketReduction::Success,
        b.reduced(tokens, now).0.one_time_burst + b.reduced(tokens, now).0.budget
            == b.one_time_burst + b.budget - tokens,
        b.reduced(tokens, now).0.one_time_burst == (if tokens <= b.one_time_burst {
            b.one_time_burst - tokens
        } else {
            0
        }),
{
}

/// Asking for more tokens beyond the one-time burst than the whole bucket holds is an
/// over-consumption, and nothing else is: the burst and the budget, refilled at `now`, are
/// used up, and the tokens reported as borrowed are exactly those asked beyond what the
/// burst and the refilled budget held, counted against the bucket's size. A request that
/// fits the bucket fails exactly when neither the budget nor the budget refilled at `now`
/// covers it, and then only the refill and the spent burst remain.
pub proof fn lemma_overconsumption_borrows_the_rest(b: TokenBucketView, tokens: u64, now: u128)
    requires
        b.wf(),
    ensures
        ({
            let (after, red) = b.reduced(tokens, now);
            let asked = tokens - b.one_time_burst;
            &&& red is OverConsumption <==> asked > b.size
            &&& red is Failure <==> b.budget < asked <= b.size && b.refilled(now).budget < asked
            &&& red is Failure ==> after == (TokenBucketView { one_time_burst: 0, ..b.refilled(now) })
            &&& red matches BucketReduction::OverConsumption { tokens: borrowed, size } ==> {
                &&& size == b.size
                &&& borrowed == asked - b.refilled(now).budget
                &&& borrowed > 0
                &&& after.budget == 0
                &&& after.one_time_burst == 0
            }
        }),
{
    let m = TokenBucketView { one_time_burst: 0, ..b };
    lemma_replenish_keeps_wf(m, elapsed_since(m.last_update, now));
    lemma_replenish_keeps_wf(b, elapsed_since(b.last_update, now));
    assert(m.refilled(now).budget == b.refilled(now).budget);
}

/// Giving back by hand never takes a bucket beyond its bounds.
pub proof fn lemma_force_replenish_keeps_wf(b: TokenBucketView, tokens: u64)
    requires
        b.wf(),
    ensures
        b.force_replenished(tokens).wf(),
{
}

/// A blocked limiter refuses every consumption and stays as it is.
pub proof fn lemma_blocked_refuses(l: RateLimiterView, tokens: u64, t: TokenType, now: u128)
    requires
        l.blocked,
    ensures
        l.consumed(tokens, t, now) == (l, false),
{
}

/// While the limiter is unblocked, consuming a token type whose limiting is disabled always
/// succeeds and changes nothing.
pub proof fn lemma_disabled_always_succeeds(l: RateLimiterView, tokens: u64, t: TokenType, now: u128)
    requires
        !l.blocked,
        l.bucket(t) is None,
    ensures
        l.consumed(tokens, t, now) == (l, true),
{
}

/// A refused consumption blocks the limiter for the refill timer interval.
pub proof fn lemma_refusal_blocks(l: RateLimiterView, tokens: u64, t: TokenType, now: u128)
    requires
        !l.blocked,
        !l.consumed(tokens, t, now).1,
    ensures
        l.consumed(tokens, t, now).0.blocked,
        l.consumed(tokens, t, now).0.timer_ms == REFILL_TIMER_INTERVAL_MS,
{
}

/// Consuming tokens of one type leaves the bucket of the other type untouched, and keeps
/// both buckets well formed.
pub proof fn lemma_consume_keeps_wf(l: RateLimiterView, tokens: u64, t: TokenType, now: u128)
    requires
        l.wf(),
    ensures
        l.consumed(tokens, t, now).0.wf(),
        t == TokenType::Bytes ==> l.consumed(tokens, t, now).0.ops == l.ops,
        t == TokenType::Ops ==> l.consumed(tokens, t, now).0.bandwidth == l.bandwidth,
{
    if let Some(b) = l.bucket(t) {
        lemma_reduce_keeps_wf(b, tokens, now);
    }
}

/// Giving back by hand what a consumption took from the budget reverts that consumption.
pub proof fn lemma_manual_replenish_reverts(l: RateLimiterView, tokens: u64, t: TokenType, now: u128)
    requires
        l.wf(),
        !l.blocked,
        l.bucket(t) matches Some(b) && b.one_time_burst == 0 && tokens <= b.budget,
    ensures
        l.consumed(tokens, t, now).1,
        l.consumed(tokens, t, now).0.replenished_by_hand(tokens, t) == l,
{
}

/// Giving back by hand what a consumption took from the one-time burst reverts that
/// consumption, as long as some burst was left; only the bucket's last update stays moved
/// to the time of the consumption.
pub proof fn lemma_manual_replenish_reverts_burst(
    l: RateLimiterView,
    tokens: u64,
    t: TokenType,
    now: u128,
)
    requires
        l.wf(),
        !l.blocked,
        l.bucket(t) matches Some(b) && tokens < b.one_time_burst,
    ensures
        l.consumed(tokens, t, now).1,
        l.consumed(tokens, t, now).0.replenished_by_hand(tokens, t) == l.with_bucket(
            t,
            Some(TokenBucketView { last_update: now, ..l.bucket(t)->0 }),
        ),
{
}

} // verus!
