//! What holds of the queue's rules across calls and over all inputs.

use vstd::arithmetic::mul::lemma_mul_inequality;
use vstd::arithmetic::power2::{lemma_pow2_strictly_increases, lemma_pow2_unfold, pow2};
use vstd::prelude::*;

use crate::clock::{reading_millis, signed_nanos, well_formed_reading, ClockReading};
use crate::job::{disposition, is_uuid_v4_text, Disposition, JobData, JobOutcome};
use crate::registry::{lemma_slot_of_index, registered, slot_of, slots_distinct};
use crate::schedule::{backoff, later};
use crate::worker::{errors_after, halts, ClaimResult};

verus! {

/// A backoff delay never exceeds the maximum delay.
pub proof fn law_backoff_capped(base: nat, cap: nat, retries: nat)
    ensures
        backoff(base, cap, retries) <= cap,
{
}

/// A job that has failed more often never waits less before its next attempt.
pub proof fn law_backoff_monotone(base: nat, cap: nat, r1: nat, r2: nat)
    requires
        r1 <= r2,
    ensures
        backoff(base, cap, r1) <= backoff(base, cap, r2),
{
    if r1 < r2 {
        lemma_pow2_strictly_increases(r1, r2);
    }
    lemma_mul_inequality(pow2(r1) as int, pow2(r2) as int, base as int);
    assert(pow2(r1) * base == base * pow2(r1)) by (nonlinear_arith);
    assert(pow2(r2) * base == base * pow2(r2)) by (nonlinear_arith);
}

/// Below the cap, each further failure doubles the delay.
pub proof fn law_backoff_doubles(base: nat, cap: nat, retries: nat)
    requires
        base * pow2(retries + 1) <= cap,
    ensures
        backoff(base, cap, retries + 1) == 2 * backoff(base, cap, retries),
{
    lemma_pow2_unfold(retries + 1);
    assert(base * pow2(retries + 1) == 2 * (base * pow2(retries))) by (nonlinear_arith)
        requires
            pow2(retries + 1) == 2 * pow2(retries),
    ;
}

/// Failed attempts a job gets before it is dead-lettered: the first attempt
/// and `max_retries` retries.
pub open spec fn attempts_allowed(max_retries: nat) -> nat {
    max_retries + 1
}

/// Where a job goes when every attempt at it fails, the attempts failing at
/// the times in `failures`, as long as the queue keeps retrying it.
pub open spec fn failing_run(max_retries: nat, job: JobData, failures: Seq<i64>) -> Disposition
    decreases failures.len(),
{
    if failures.len() <= 1 {
        disposition(max_retries, job, JobOutcome::Failed, failures.last())
    } else {
        match failing_run(max_retries, job, failures.drop_last()) {
            Disposition::Retry(again) => disposition(
                max_retries,
                again,
                JobOutcome::Failed,
                failures.last(),
            ),
            other => other,
        }
    }
}

/// A job whose attempts all fail is retried `max_retries` times after its
/// first attempt, then moved to the dead letter queue, where it stays; each
/// failure adds one retry and records its time. (Beyond `u32::MAX` failures
/// the retry count overflows, so the run is taken no further.)
pub proof fn law_dead_letter_after_max_retries(max_retries: u32, job: JobData, failures: Seq<i64>)
    requires
        job.retries == 0,
        1 <= failures.len() <= u32::MAX,
    ensures
        failures.len() < attempts_allowed(max_retries as nat) ==> failing_run(
            max_retries as nat,
            job,
            failures,
        ) == Disposition::Retry(
            JobData {
                retries: failures.len() as u32,
                last_retry_at: Some(failures.last()),
                ..job
            },
        ),
        failures.len() >= attempts_allowed(max_retries as nat) ==> failing_run(
            max_retries as nat,
            job,
            failures,
        ) == Disposition::DeadLetter(
            JobData {
                retries: attempts_allowed(max_retries as nat) as u32,
                last_retry_at: Some(failures[attempts_allowed(max_retries as nat) - 1]),
                ..job
            },
        ),
    decreases failures.len(),
{
    let allowed = attempts_allowed(max_retries as nat);
    if failures.len() > 1 {
        let prefix = failures.drop_last();
        law_dead_letter_after_max_retries(max_retries, job, prefix);
        if prefix.len() >= allowed {
            assert(prefix[allowed - 1] == failures[allowed - 1]);
        }
    }
}

/// A job sent back to the retry queue has at most `max_retries` retries.
pub proof fn law_retried_job_within_budget(max_retries: u32, job: JobData, outcome: JobOutcome, now: i64)
    requires
        job.retries < u32::MAX,
    ensures
        disposition(max_retries as nat, job, outcome, now) matches Disposition::Retry(again)
            ==> again.retries <= max_retries,
{
}

/// A successful attempt finishes the job, whatever its retries.
pub proof fn law_success_finishes(max_retries: nat, job: JobData, now: i64)
    ensures
        disposition(max_retries, job, JobOutcome::Succeeded, now) == Disposition::Finished,
{
}

/// A job without a registered processor is handled as a failed one.
pub proof fn law_unhandled_counts_as_failure(max_retries: nat, job: JobData, now: i64)
    ensures
        disposition(max_retries, job, JobOutcome::Unhandled, now) == disposition(
            max_retries,
            job,
            JobOutcome::Failed,
            now,
        ),
{
}

/// A job ID that the queue generates is never empty, so it is never refused.
pub proof fn law_generated_ids_accepted(id: Seq<char>)
    requires
        is_uuid_v4_text(id),
    ensures
        id.len() > 0,
{
}

/// A worker's rounds from an error count `errors`: `None` when some claim
/// stops it, else the error count after the last claim.
pub open spec fn worker_run(max_errors: nat, errors: nat, claims: Seq<ClaimResult>) -> Option<nat>
    decreases claims.len(),
{
    if claims.len() == 0 {
        Some(errors)
    } else if halts(errors, max_errors, claims[0]) {
        None
    } else {
        worker_run(max_errors, errors_after(errors, claims[0]), claims.drop_first())
    }
}

/// `count` failed claims in a row.
pub open spec fn failed_claims(count: nat) -> Seq<ClaimResult> {
    Seq::new(count, |i: int| ClaimResult::Failed)
}

proof fn lemma_failures_from(max_errors: nat, errors: nat, count: nat)
    ensures
        worker_run(max_errors, errors, failed_claims(count)) == (if count == 0 {
            Some(errors)
        } else if errors + count >= max_errors {
            None::<nat>
        } else {
            Some(errors + count)
        }),
    decreases count,
{
    if count > 0 {
        assert(failed_claims(count).drop_first() =~= failed_claims((count - 1) as nat));
        lemma_failures_from(max_errors, errors + 1, (count - 1) as nat);
    }
}

/// A fresh worker stops at exactly the `max_consecutive_errors`-th failed
/// claim in a row (the first, when that is zero), and not before.
pub proof fn law_halts_after_consecutive_errors(max_errors: nat, count: nat)
    ensures
        worker_run(max_errors, 0, failed_claims(count)) is None <==> (count >= 1 && count
            >= max_errors),
{
    lemma_failures_from(max_errors, 0, count);
}

/// A successful claim resets the count of errors: a worker that has not
/// stopped has no errors left after it.
pub proof fn law_success_resets_errors(max_errors: nat, errors: nat, claims: Seq<ClaimResult>, n: usize)
    ensures
        worker_run(max_errors, errors, claims.push(ClaimResult::Claimed(n))) matches Some(e)
            ==> e == 0,
    decreases claims.len(),
{
    let pushed = claims.push(ClaimResult::Claimed(n));
    if claims.len() == 0 {
        assert(pushed.drop_first() =~= Seq::<ClaimResult>::empty());
        assert(worker_run(max_errors, 0, Seq::<ClaimResult>::empty()) == Some(0nat));
    } else {
        assert(pushed[0] == claims[0]);
        assert(pushed.drop_first() =~= claims.drop_first().push(
            ClaimResult::Claimed(n),
        ));
        law_success_resets_errors(max_errors, errors_after(errors, claims[0]), claims.drop_first(), n);
    }
}

/// A running worker's error count stays below the limit (or at zero), so it
/// can always count one more error.
pub proof fn law_error_count_below_limit(max_errors: u32, errors: nat, claims: Seq<ClaimResult>)
    requires
        errors == 0 || errors < max_errors,
    ensures
        worker_run(max_errors as nat, errors, claims) matches Some(e) ==> (e == 0 || e
            < max_errors),
    decreases claims.len(),
{
    if claims.len() > 0 && !halts(errors, max_errors as nat, claims[0]) {
        law_error_count_below_limit(max_errors, errors_after(errors, claims[0]), claims.drop_first());
    }
}

proof fn lemma_push_distinct(slots: Seq<Seq<char>>, name: Seq<char>)
    requires
        slots_distinct(slots),
        !slots.contains(name),
    ensures
        slots_distinct(slots.push(name)),
{
    let pushed = slots.push(name);
    assert forall|i: int, j: int| 0 <= i < j < pushed.len() implies pushed[i] != pushed[j] by {
        if j == slots.len() {
            assert(slots[i] == pushed[i]);
        } else {
            assert(slots[i] != slots[j]);
        }
    }
}

/// Once a processor is registered for a job type, jobs of that type find a
/// slot, and no type has two slots.
pub proof fn law_registered_type_is_found(slots: Seq<Seq<char>>, name: Seq<char>)
    requires
        slots_distinct(slots),
    ensures
        slots_distinct(registered(slots, name)),
        slot_of(registered(slots, name), name) is Some,
{
    if slots.contains(name) {
        let i = choose|i: int| 0 <= i < slots.len() && slots[i] == name;
        lemma_slot_of_index(slots, name, i);
    } else {
        lemma_push_distinct(slots, name);
        lemma_slot_of_index(slots.push(name), name, slots.len() as int);
    }
}

/// Registering a processor for one job type leaves the slot of every other
/// type as it was.
pub proof fn law_register_keeps_other_types(slots: Seq<Seq<char>>, name: Seq<char>, other: Seq<char>)
    requires
        slots_distinct(slots),
        other != name,
    ensures
        slot_of(registered(slots, name), other) == slot_of(slots, other),
{
    if !slots.contains(name) {
        let pushed = slots.push(name);
        lemma_push_distinct(slots, name);
        if slots.contains(other) {
            let i = choose|i: int| 0 <= i < slots.len() && slots[i] == other;
            lemma_slot_of_index(slots, other, i);
            assert(pushed[i] == other);
            lemma_slot_of_index(pushed, other, i);
        } else {
            assert forall|k: int| 0 <= k < pushed.len() implies pushed[k] != other by {
                if k < slots.len() {
                    assert(pushed[k] == slots[k]);
                }
            }
            assert(!pushed.contains(other));
        }
    }
}

/// Registering a job type again keeps the slots as they are: a second
/// processor for the type takes the first one's slot.
pub proof fn law_register_again_same_slot(slots: Seq<Seq<char>>, name: Seq<char>)
    requires
        slots_distinct(slots),
    ensures
        registered(registered(slots, name), name) == registered(slots, name),
{
    if !slots.contains(name) {
        assert(slots.push(name)[slots.len() as int] == name);
        assert(slots.push(name).contains(name));
    }
}

/// A clock reading converts to its time in milliseconds rounded down
/// (towards the past, also before the epoch), where an `i64` holds it.
pub proof fn law_clock_millis_round_down(r: ClockReading)
    requires
        well_formed_reading(r),
        i64::MIN <= signed_nanos(r) / 1_000_000 <= i64::MAX,
    ensures
        reading_millis(r) == signed_nanos(r) / 1_000_000,
{
    match r {
        Ok((secs, nanos)) => {
            let x = secs as int * 1_000_000_000 + nanos as int;
            assert(x / 1_000_000 == secs as int * 1000 + nanos as int / 1_000_000);
        },
        Err((secs, nanos)) => {
            let x = secs as int * 1_000_000_000 + nanos as int;
            assert((0 - x) / 1_000_000 == 0 - (secs as int * 1000 + (nanos as int + 999_999)
                / 1_000_000));
        },
    }
}

/// A later reading of the clock never converts to an earlier time.
pub proof fn law_clock_millis_monotone(r1: ClockReading, r2: ClockReading)
    requires
        well_formed_reading(r1),
        well_formed_reading(r2),
        signed_nanos(r1) <= signed_nanos(r2),
    ensures
        reading_millis(r1) <= reading_millis(r2),
{
    match (r1, r2) {
        (Ok((s1, n1)), Ok((s2, n2))) => {
            assert(s1 as int * 1000 + n1 as int / 1_000_000 <= s2 as int * 1000 + n2 as int
                / 1_000_000);
        },
        (Err((s1, n1)), Err((s2, n2))) => {
            assert(s2 as int * 1000 + (n2 as int + 999_999) / 1_000_000 <= s1 as int * 1000 + (
            n1 as int + 999_999) / 1_000_000);
        },
        _ => {},
    }
}

/// An attempt time is never before the time it is counted from: it lies
/// exactly the delay's whole milliseconds later (for delays whose
/// milliseconds an `i64` holds).
pub proof fn law_attempt_not_before(now: i64, delay: nat, t: i64)
    requires
        later(now, delay) == Some(t),
        delay / 1_000_000 <= i64::MAX,
    ensures
        now <= t,
        t - now == delay / 1_000_000,
{
}

} // verus!
