//! When jobs are attempted: the first delay and exponential backoff.

use vstd::arithmetic::mul::lemma_mul_inequality;
use vstd::arithmetic::power2::{lemma2_to64, lemma_pow2_strictly_increases, lemma_pow2_unfold, pow2};
use vstd::prelude::*;

use crate::clock::{now_millis, read_from_clock};
use crate::config::AnyQueueConfig;
use crate::duration::{max_span, Duration};
use crate::job::JobData;

verus! {

/// The backoff before the attempt that follows `retries` failures, in
/// nanoseconds: the base delay doubled once per failure, capped.
pub open spec fn backoff(base: nat, cap: nat, retries: nat) -> nat {
    let grown = base * pow2(retries);
    if grown <= cap {
        grown
    } else {
        cap
    }
}

/// A span in nanoseconds as whole milliseconds in an `i64`, wrapping as a
/// cast does.
pub open spec fn millis_i64(span: nat) -> i64 {
    (span / 1_000_000) as i64
}

/// The time `delay` after `now`, both in milliseconds, when an `i64` holds it.
pub open spec fn later(now: i64, delay: nat) -> Option<i64> {
    let t = now + millis_i64(delay);
    if i64::MIN <= t <= i64::MAX {
        Some(t as i64)
    } else {
        None
    }
}

/// Once the doubled delay passes the cap, every later one is the cap.
proof fn lemma_backoff_saturates(base: nat, cap: nat, k: nat, retries: nat)
    requires
        k <= retries,
        base * pow2(k) > cap,
    ensures
        backoff(base, cap, retries) == cap,
{
    if k < retries {
        lemma_pow2_strictly_increases(k, retries);
    }
    lemma_mul_inequality(pow2(k) as int, pow2(retries) as int, base as int);
    assert(pow2(k) * base == base * pow2(k)) by (nonlinear_arith);
    assert(pow2(retries) * base == base * pow2(retries)) by (nonlinear_arith);
}

/// The delay before the next attempt at a job that has failed `retries`
/// times: the base delay doubled `retries` times, capped at the maximum
/// delay. Doubling stops at the cap, so no number of failures overflows it.
pub fn retry_delay(config: &AnyQueueConfig, retries: u32) -> (d: Duration)
    ensures
        d@ == backoff(config.base_delay@, config.max_delay@, retries as nat),
{
    let cap = config.max_delay;
    let base = config.base_delay;
    let ghost b = base@;
    let ghost c = cap@;
    if base.le(&Duration::from_secs(0)) {
        // a zero base stays zero
        assert(b * pow2(retries as nat) == 0) by (nonlinear_arith)
            requires
                b == 0,
        ;
        return base;
    }
    if !base.le(&cap) {
        proof {
            lemma2_to64();
            lemma_backoff_saturates(b, c, 0, retries as nat);
        }
        return cap;
    }
    let mut d = base;
    let mut i: u32 = 0;
    proof {
        lemma2_to64();
    }
    while i < retries
        invariant
            i <= retries,
            b > 0,
            c <= max_span(),
            d@ == b * pow2(i as nat),
            d@ <= c,
            cap@ == c,
            c == config.max_delay@,
            b == config.base_delay@,
        decreases retries - i,
    {
        proof {
            lemma_pow2_unfold((i + 1) as nat);
            assert(b * pow2((i + 1) as nat) == 2 * (b * pow2(i as nat))) by (nonlinear_arith)
                requires
                    pow2((i + 1) as nat) == 2 * pow2(i as nat),
            ;
        }
        match d.checked_mul(2) {
            None => {
                proof {
                    lemma_backoff_saturates(b, c, (i + 1) as nat, retries as nat);
                }
                return cap;
            },
            Some(next) => {
                if !next.le(&cap) {
                    proof {
                        lemma_backoff_saturates(b, c, (i + 1) as nat, retries as nat);
                    }
                    return cap;
                }
                d = next;
                i = i + 1;
            },
        }
    }
    d
}

/// The time `delay` after `now` (milliseconds since the epoch), or `None`
/// where that overflows an `i64`.
pub fn later_by(now: i64, delay: Duration) -> (t: Option<i64>)
    ensures
        t == later(now, delay@),
{
    let millis: i64 = delay.as_millis() as i64;
    now.checked_add(millis)
}

/// When a new job is first attempted: the base delay after `now`.
pub fn first_attempt_at(config: &AnyQueueConfig, now: i64) -> (t: Option<i64>)
    ensures
        t == later(now, config.base_delay@),
{
    later_by(now, config.base_delay)
}

/// When a job that has failed `retries` times is attempted again: its
/// backoff delay after `now`, or `None` where that overflows an `i64`.
pub fn next_attempt_at(config: &AnyQueueConfig, retries: u32, now: i64) -> (t: Option<i64>)
    ensures
        t == later(now, backoff(config.base_delay@, config.max_delay@, retries as nat)),
{
    later_by(now, retry_delay(config, retries))
}

/// When a job enqueued now is first attempted, beside the time read from the
/// clock.
pub fn first_attempt_from_now(config: &AnyQueueConfig) -> (r: (i64, Option<i64>))
    ensures
        read_from_clock(r.0),
        r.1 == later(r.0, config.base_delay@),
{
    let now = now_millis();
    (now, first_attempt_at(config, now))
}

/// When a job that goes back to the retry queue at `now` is attempted
/// again: the backoff for the retries it has counted, after `now`.
pub fn requeue_at(config: &AnyQueueConfig, job: &JobData, now: i64) -> (t: Option<i64>)
    ensures
        t == later(now, backoff(config.base_delay@, config.max_delay@, job.retries as nat)),
{
    next_attempt_at(config, job.retries, now)
}

/// When a job that goes back to the retry queue now is attempted again,
/// beside the time read from the clock.
pub fn requeue_from_now(config: &AnyQueueConfig, job: &JobData) -> (r: (i64, Option<i64>))
    ensures
        read_from_clock(r.0),
        r.1 == later(r.0, backoff(config.base_delay@, config.max_delay@, job.retries as nat)),
{
    let now = now_millis();
    (now, requeue_at(config, job, now))
}

} // verus!
