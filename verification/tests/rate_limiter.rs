use std::time::{Duration, Instant};

use firecracker::rate_limiter::{
    gcd, BucketReduction, BucketUpdate, RateLimiter, TokenBucket, TokenType,
    NANOSEC_IN_ONE_MILLISEC, REFILL_TIMER_INTERVAL_MS,
};

/// Waits `ms` milliseconds.
fn wait_ms(ms: u64) {
    let start = Instant::now();
    while start.elapsed() < Duration::from_millis(ms) {}
}

/// Whether two buckets agree on everything but the instant of their last update.
fn partial_eq(a: &TokenBucket, b: &TokenBucket) -> bool {
    a.capacity() == b.capacity()
        && a.one_time_burst() == b.one_time_burst()
        && a.refill_time_ms() == b.refill_time_ms()
        && a.budget() == b.budget()
}

#[test]
fn test_token_bucket_auto_replenish_one() {
    // These values will give 1 token every 100 milliseconds
    const SIZE: u64 = 10;
    const TIME: u64 = 1000;
    let mut tb = TokenBucket::new(SIZE, 0, TIME).unwrap();
    tb.reduce(SIZE);
    assert_eq!(tb.budget(), 0);

    // Auto-replenishing after 10 milliseconds should not yield any tokens
    wait_ms(10);
    tb.auto_replenish();
    assert_eq!(tb.budget(), 0);

    // Neither after 20.
    wait_ms(10);
    tb.auto_replenish();
    assert_eq!(tb.budget(), 0);

    // We should get 1 token after 100 millis
    wait_ms(80);
    tb.auto_replenish();
    assert_eq!(tb.budget(), 1);

    // So, 5 after 500 millis
    wait_ms(400);
    tb.auto_replenish();
    assert_eq!(tb.budget(), 5);

    // And be fully replenished after 1 second.
    // Wait more here to make sure we do not overshoot
    wait_ms(1000);
    tb.auto_replenish();
    assert_eq!(tb.budget(), 10);
}

#[test]
fn test_token_bucket_auto_replenish_two() {
    const SIZE: u64 = 1000;
    const TIME: u64 = 1000;
    let time = Duration::from_millis(TIME);

    let mut tb = TokenBucket::new(SIZE, 0, TIME).unwrap();
    tb.reduce(SIZE);
    assert_eq!(tb.budget(), 0);

    let now = Instant::now();
    while now.elapsed() < time {
        tb.auto_replenish();
    }
    tb.auto_replenish();
    assert_eq!(tb.budget(), SIZE);
}

#[test]
fn test_token_bucket_create() {
    let before = Instant::now();
    let tb = TokenBucket::new(1000, 0, 1000).unwrap();
    assert_eq!(tb.capacity(), 1000);
    assert_eq!(tb.budget(), 1000);
    assert!(tb.get_last_update().unwrap() >= before);
    let after = Instant::now();
    assert!(tb.get_last_update().unwrap() <= after);
    assert_eq!(tb.get_processed_capacity(), 1);
    assert_eq!(tb.get_processed_refill_time(), 1_000_000);

    // Verify invalid bucket configurations result in `None`.
    assert!(TokenBucket::new(0, 1234, 1000).is_none());
    assert!(TokenBucket::new(100, 1234, 0).is_none());
    assert!(TokenBucket::new(0, 1234, 0).is_none());
}

#[test]
fn test_token_bucket_preprocess() {
    let tb = TokenBucket::new(1000, 0, 1000).unwrap();
    assert_eq!(tb.get_processed_capacity(), 1);
    assert_eq!(tb.get_processed_refill_time(), NANOSEC_IN_ONE_MILLISEC);

    let thousand = 1000;
    let tb = TokenBucket::new(3 * 7 * 11 * 19 * thousand, 0, 7 * 11 * 13 * 17).unwrap();
    assert_eq!(tb.get_processed_capacity(), 3 * 19);
    assert_eq!(
        tb.get_processed_refill_time(),
        13 * 17 * (NANOSEC_IN_ONE_MILLISEC / thousand)
    );
}

#[test]
fn test_token_bucket_reduce() {
    // token bucket with capacity 1000 and refill time of 1000 milliseconds
    // allowing rate of 1 token/ms.
    let capacity = 1000;
    let refill_ms = 1000;
    let mut tb = TokenBucket::new(capacity, 0, refill_ms).unwrap();

    assert_eq!(tb.reduce(123), BucketReduction::Success);
    assert_eq!(tb.budget(), capacity - 123);
    assert_eq!(tb.reduce(capacity), BucketReduction::Failure);

    // token bucket with capacity 1000 and refill time of 1000 milliseconds
    let mut tb = TokenBucket::new(1000, 1100, 1000).unwrap();
    // safely assuming the thread can run these 3 commands in less than 500ms
    assert_eq!(tb.reduce(1000), BucketReduction::Success);
    assert_eq!(tb.one_time_burst(), 100);
    assert_eq!(tb.reduce(500), BucketReduction::Success);
    assert_eq!(tb.one_time_burst(), 0);
    assert_eq!(tb.reduce(500), BucketReduction::Success);
    assert_eq!(tb.reduce(500), BucketReduction::Failure);
    wait_ms(500);
    assert_eq!(tb.reduce(500), BucketReduction::Success);
    wait_ms(1000);
    // 2500 tokens from a full bucket of 1000 borrow 1.5 times the bucket size.
    match tb.reduce(2500) {
        BucketReduction::OverConsumption { tokens, size } => {
            assert_eq!(tokens as f64 / size as f64, 1.5);
        }
        other => panic!("unexpected reduction {:?}", other),
    }

    let before = Instant::now();
    tb.reset();
    assert_eq!(tb.capacity(), 1000);
    assert_eq!(tb.budget(), 1000);
    assert!(tb.get_last_update().unwrap() >= before);
    let after = Instant::now();
    assert!(tb.get_last_update().unwrap() <= after);
}

#[test]
fn test_rate_limiter_default() {
    // A limiter with both buckets disabled, as a default limiter is.
    let mut l = RateLimiter::new(0, 0, 0, 0, 0, 0).unwrap();

    // limiter should not be blocked
    assert!(!l.is_blocked());
    // limiter should be disabled so consume(whatever) should work
    assert!(l.consume(u64::max_value(), TokenType::Ops));
    assert!(l.consume(u64::max_value(), TokenType::Bytes));
    // calling the handler without there having been an event should error
    assert!(l.event_handler().is_err());
    assert_eq!(
        format!("{:?}", l.event_handler().err().unwrap()),
        "SpuriousRateLimiterEvent(\"Rate limiter event handler called without a present \
         timer\")"
    );
}

#[test]
fn test_rate_limiter_new() {
    let l = RateLimiter::new(1000, 1001, 1002, 1003, 1004, 1005).unwrap();

    let bw = l.bandwidth().unwrap();
    assert_eq!(bw.capacity(), 1000);
    assert_eq!(bw.one_time_burst(), 1001);
    assert_eq!(bw.refill_time_ms(), 1002);
    assert_eq!(bw.budget(), 1000);

    let ops = l.ops().unwrap();
    assert_eq!(ops.capacity(), 1003);
    assert_eq!(ops.one_time_burst(), 1004);
    assert_eq!(ops.refill_time_ms(), 1005);
    assert_eq!(ops.budget(), 1003);
}

#[test]
fn test_rate_limiter_manual_replenish() {
    // rate limiter with limit of 1000 bytes/s and 1000 ops/s
    let mut l = RateLimiter::new(1000, 0, 1000, 1000, 0, 1000).unwrap();

    // consume 123 bytes
    assert!(l.consume(123, TokenType::Bytes));
    l.manual_replenish(23, TokenType::Bytes);
    {
        let bytes_tb = l.bandwidth().unwrap();
        assert_eq!(bytes_tb.budget(), 900);
    }
    // consume 123 ops
    assert!(l.consume(123, TokenType::Ops));
    l.manual_replenish(23, TokenType::Ops);
    {
        let bytes_tb = l.ops().unwrap();
        assert_eq!(bytes_tb.budget(), 900);
    }
}

#[test]
fn test_rate_limiter_bandwidth() {
    // rate limiter with limit of 1000 bytes/s
    let mut l = RateLimiter::new(1000, 0, 1000, 0, 0, 0).unwrap();

    // limiter should not be blocked
    assert!(!l.is_blocked());

    // ops/s limiter should be disabled so consume(whatever) should work
    assert!(l.consume(u64::max_value(), TokenType::Ops));

    // do full 1000 bytes
    assert!(l.consume(1000, TokenType::Bytes));
    // try and fail on another 100
    assert!(!l.consume(100, TokenType::Bytes));
    // since consume failed, limiter should be blocked now
    assert!(l.is_blocked());
    // wait half the timer period
    wait_ms(REFILL_TIMER_INTERVAL_MS / 2);
    // limiter should still be blocked
    assert!(l.is_blocked());
    // wait the other half of the timer period
    wait_ms(REFILL_TIMER_INTERVAL_MS / 2);
    // the timer_fd should have an event on it by now
    assert!(l.event_handler().is_ok());
    // limiter should now be unblocked
    assert!(!l.is_blocked());
    // try and succeed on another 100 bytes this time
    assert!(l.consume(100, TokenType::Bytes));
}

#[test]
fn test_rate_limiter_ops() {
    // rate limiter with limit of 1000 ops/s
    let mut l = RateLimiter::new(0, 0, 0, 1000, 0, 1000).unwrap();

    // limiter should not be blocked
    assert!(!l.is_blocked());

    // bytes/s limiter should be disabled so consume(whatever) should work
    assert!(l.consume(u64::max_value(), TokenType::Bytes));

    // do full 1000 ops
    assert!(l.consume(1000, TokenType::Ops));
    // try and fail on another 100
    assert!(!l.consume(100, TokenType::Ops));
    // since consume failed, limiter should be blocked now
    assert!(l.is_blocked());
    // wait half the timer period
    wait_ms(REFILL_TIMER_INTERVAL_MS / 2);
    // limiter should still be blocked
    assert!(l.is_blocked());
    // wait the other half of the timer period
    wait_ms(REFILL_TIMER_INTERVAL_MS / 2);
    // the timer_fd should have an event on it by now
    assert!(l.event_handler().is_ok());
    // limiter should now be unblocked
    assert!(!l.is_blocked());
    // try and succeed on another 100 ops this time
    assert!(l.consume(100, TokenType::Ops));
}

#[test]
fn test_rate_limiter_full() {
    // rate limiter with limit of 1000 bytes/s and 1000 ops/s
    let mut l = RateLimiter::new(1000, 0, 1000, 1000, 0, 1000).unwrap();

    // limiter should not be blocked
    assert!(!l.is_blocked());

    // do full 1000 bytes
    assert!(l.consume(1000, TokenType::Ops));
    // do full 1000 bytes
    assert!(l.consume(1000, TokenType::Bytes));
    // try and fail on another 100 ops
    assert!(!l.consume(100, TokenType::Ops));
    // try and fail on another 100 bytes
    assert!(!l.consume(100, TokenType::Bytes));
    // since consume failed, limiter should be blocked now
    assert!(l.is_blocked());
    // wait half the timer period
    wait_ms(REFILL_TIMER_INTERVAL_MS / 2);
    // limiter should still be blocked
    assert!(l.is_blocked());
    // wait the other half of the timer period
    wait_ms(REFILL_TIMER_INTERVAL_MS / 2);
    // the timer_fd should have an event on it by now
    assert!(l.event_handler().is_ok());
    // limiter should now be unblocked
    assert!(!l.is_blocked());
    // try and succeed on another 100 ops this time
    assert!(l.consume(100, TokenType::Ops));
    // try and succeed on another 100 bytes this time
    assert!(l.consume(100, TokenType::Bytes));
}

#[test]
fn test_rate_limiter_overconsumption() {
    // initialize the rate limiter
    let mut l = RateLimiter::new(1000, 0, 1000, 1000, 0, 1000).unwrap();
    // try to consume 2.5x the bucket size
    // we are "borrowing" 1.5x the bucket size in tokens since
    // the bucket is full
    assert!(l.consume(2500, TokenType::Bytes));

    // check that even after a whole second passes, the rate limiter
    // is still blocked
    wait_ms(1000);
    assert!(l.event_handler().is_err());
    assert!(l.is_blocked());

    // after 1.5x the replenish time has passed, the rate limiter
    // is available again
    wait_ms(500);
    assert!(l.event_handler().is_ok());
    assert!(!l.is_blocked());

    // reset the rate limiter
    let mut l = RateLimiter::new(1000, 0, 1000, 1000, 0, 1000).unwrap();
    // try to consume 1.5x the bucket size
    // we are "borrowing" 1.5x the bucket size in tokens since
    // the bucket is full, should arm the timer to 0.5x replenish
    // time, which is 500 ms
    assert!(l.consume(1500, TokenType::Bytes));

    // check that after more than the minimum refill time,
    // the rate limiter is still blocked
    wait_ms(200);
    assert!(l.event_handler().is_err());
    assert!(l.is_blocked());

    // try to consume some tokens, which should fail as the timer
    // is still active
    assert!(!l.consume(100, TokenType::Bytes));
    assert!(l.event_handler().is_err());
    assert!(l.is_blocked());

    // check that after the minimum refill time, the timer was not
    // overwritten and the rate limiter is still blocked from the
    // borrowing we performed earlier
    wait_ms(100);
    assert!(l.event_handler().is_err());
    assert!(l.is_blocked());
    assert!(!l.consume(100, TokenType::Bytes));

    // after waiting out the full duration, rate limiter should be
    // availale again
    wait_ms(200);
    assert!(l.event_handler().is_ok());
    assert!(!l.is_blocked());
    assert!(l.consume(100, TokenType::Bytes));
}

#[test]
fn test_update_buckets() {
    let mut x = RateLimiter::new(1000, 2000, 1000, 10, 20, 1000).unwrap();

    let initial_bw = x.bandwidth().cloned();
    let initial_ops = x.ops().cloned();

    x.update_buckets(BucketUpdate::NoUpdate, BucketUpdate::NoUpdate);
    assert_eq!(x.bandwidth().cloned(), initial_bw);
    assert_eq!(x.ops().cloned(), initial_ops);

    let new_bw = TokenBucket::new(123, 0, 57).unwrap();
    let new_ops = TokenBucket::new(321, 12346, 89).unwrap();
    x.update_buckets(
        BucketUpdate::Update(new_bw.clone()),
        BucketUpdate::Update(new_ops.clone()),
    );

    // The buckets are compared on everything but the instant of their last update.
    assert!(partial_eq(x.bandwidth().unwrap(), &new_bw));
    assert!(partial_eq(x.ops().unwrap(), &new_ops));

    x.update_buckets(BucketUpdate::Disabled, BucketUpdate::Disabled);
    assert!(x.bandwidth().is_none());
    assert!(x.ops().is_none());
}

#[test]
fn gcd_of_examples() {
    assert_eq!(gcd(12, 18), 6);
    assert_eq!(gcd(7, 13), 1);
    assert_eq!(gcd(0, 5), 5);
    assert_eq!(gcd(5, 0), 5);
    assert_eq!(gcd(1_000, 1_000_000_000), 1_000);
}

#[test]
fn bucket_with_overflowing_refill_time_is_none() {
    assert!(TokenBucket::new(10, 0, u64::MAX).is_none());
    assert!(TokenBucket::new(10, 0, u64::MAX / 1_000_000 + 1).is_none());
    assert!(TokenBucket::new(10, 0, u64::MAX / 1_000_000).is_some());
}

#[test]
fn force_replenish_caps_at_bounds() {
    let mut tb = TokenBucket::new(100, 50, 1000).unwrap();
    assert_eq!(tb.reduce(30), BucketReduction::Success);
    assert_eq!(tb.one_time_burst(), 20);
    tb.force_replenish(1000);
    // the burst never grows beyond its initial value
    assert_eq!(tb.one_time_burst(), 50);
    assert_eq!(tb.initial_one_time_burst(), 50);

    let mut tb = TokenBucket::new(100, 0, 1000).unwrap();
    assert_eq!(tb.reduce(60), BucketReduction::Success);
    tb.force_replenish(1000);
    // the budget never grows beyond the size
    assert_eq!(tb.budget(), 100);
}

#[test]
fn manual_replenish_reverts_consume() {
    let mut l = RateLimiter::new(1000, 0, 1000, 0, 0, 0).unwrap();
    let before = l.bandwidth().unwrap().budget();
    assert!(l.consume(250, TokenType::Bytes));
    l.manual_replenish(250, TokenType::Bytes);
    assert_eq!(l.bandwidth().unwrap().budget(), before);
}

#[test]
fn blocked_limiter_refuses_everything() {
    let mut l = RateLimiter::new(100, 0, 1000, 0, 0, 0).unwrap();
    // 1000 tokens from a full bucket of 100 borrow 900: allowed, then blocked
    assert!(l.consume(1000, TokenType::Bytes));
    assert!(l.is_blocked());
    // even a disabled token type is refused while blocked
    assert!(!l.consume(1, TokenType::Ops));
    assert!(!l.consume(0, TokenType::Bytes));
}

#[test]
fn refills_carry_fractions_over() {
    let ms = NANOSEC_IN_ONE_MILLISEC as u128;
    // 10 tokens a second: one token every 100 ms.
    let mut tb = TokenBucket::new(10, 0, 1000).unwrap();
    assert_eq!(tb.last_update_nanos(), 0);
    tb.reduce(10);
    assert_eq!(tb.budget(), 0);
    // at 10 and 20 ms: no token yet, and the last update stays
    assert_eq!(tb.replenish_at(10 * ms), Some(0));
    assert_eq!(tb.replenish_at(20 * ms), Some(0));
    assert_eq!(tb.budget(), 0);
    // at 150 ms: one token, the last update moves by the 100 ms it took
    assert_eq!(tb.replenish_at(150 * ms), Some(100 * 1_000_000));
    assert_eq!(tb.budget(), 1);
    assert_eq!(tb.last_update_nanos(), 100 * ms);
    // at 250 ms: 150 ms after the moved update, one more token, as one refill over the
    // 250 ms would give two
    assert_eq!(tb.replenish_at(250 * ms), Some(100 * 1_000_000));
    assert_eq!(tb.budget(), 2);
    assert_eq!(tb.last_update_nanos(), 200 * ms);
    // at 500 ms: five in all
    tb.replenish_at(500 * ms);
    assert_eq!(tb.budget(), 5);
    // a full refill time after the last update fills the bucket and moves it to then
    assert_eq!(tb.replenish_at(1500 * ms), None);
    assert_eq!(tb.budget(), 10);
    assert_eq!(tb.last_update_nanos(), 1500 * ms);

    // 3 tokens a millisecond, not a whole number of nanoseconds each: rounding up the time
    // of the first token loses one.
    let mut tb = TokenBucket::new(3, 0, 1).unwrap();
    tb.reduce(3);
    assert_eq!(tb.replenish_at(333_334), Some(333_334));
    assert_eq!(tb.budget(), 1);
    assert_eq!(tb.replenish_at(666_667), Some(0));
    assert_eq!(tb.budget(), 1);
}
