//! Jobs as the queue stores them, and what happens to a job after an attempt.

use vstd::prelude::*;

use getrandom::Error as RandomError;
use serde_json::Value as JsonValue;
use vstd::string::to_string_from_display_ensures;

use crate::clock::{now_millis, read_from_clock};
use crate::config::AnyQueueConfig;
use crate::error::{Error, Result};

verus! {

/// `serde_json::Value`, the job's own payload, carried through unopened.
#[verifier::external_type_specification]
#[verifier::external_body]
pub struct ExJsonValue(JsonValue);

/// `Clone` of `serde_json::Value`, which serde_json derives: the copy is the
/// same JSON value. The derived `Clone` of `JobData` calls it.
pub assume_specification[ <JsonValue as Clone>::clone ](value: &JsonValue) -> (copy: JsonValue)
    ensures
        copy == *value,
;

/// A job as the queue stores it.
#[derive(Debug, Clone)]
pub struct JobData {
    /// The job's identifier.
    pub id: String,
    /// Names the processor that handles the job.
    pub job_type: String,
    /// The job's own fields, as JSON.
    pub data: JsonValue,
    /// Failed attempts so far.
    pub retries: u32,
    /// When the job was created, in milliseconds since the epoch.
    pub created_at: i64,
    /// When the job last failed, in milliseconds since the epoch.
    pub last_retry_at: Option<i64>,
}

impl JobData {
    /// A job created at `created_at` that has not been attempted yet.
    pub fn new_at(id: String, job_type: String, data: JsonValue, created_at: i64) -> (job: JobData)
        ensures
            job == (JobData { id, job_type, data, retries: 0, created_at, last_retry_at: None }),
    {
        JobData { id, job_type, data, retries: 0, created_at, last_retry_at: None }
    }

    /// A job created now that has not been attempted yet; its creation time
    /// is the clock's reading in milliseconds.
    pub fn new(id: String, job_type: String, data: JsonValue) -> (job: JobData)
        ensures
            read_from_clock(job.created_at),
            job == (JobData {
                id,
                job_type,
                data,
                retries: 0,
                created_at: job.created_at,
                last_retry_at: None,
            }),
    {
        let now = now_millis();
        Self::new_at(id, job_type, data, now)
    }
}

/// `getrandom::Error`, carried through unopened.
#[verifier::external_type_specification]
#[verifier::external_body]
pub struct ExRandomError(RandomError);

/// `getrandom::fill` on sixteen bytes: fills them from the system's random
/// source, or reports that the source failed. The bytes drawn are not stated.
#[verifier::external_body]
fn fill_random(bytes: &mut [u8; 16]) -> (r: std::result::Result<(), RandomError>) {
    getrandom::fill(bytes)
}

/// The lower-case hex digit of `n`, for `n` below 16.
pub open spec fn hex_char(n: nat) -> char {
    if n == 0 {
        '0'
    } else if n == 1 {
        '1'
    } else if n == 2 {
        '2'
    } else if n == 3 {
        '3'
    } else if n == 4 {
        '4'
    } else if n == 5 {
        '5'
    } else if n == 6 {
        '6'
    } else if n == 7 {
        '7'
    } else if n == 8 {
        '8'
    } else if n == 9 {
        '9'
    } else if n == 10 {
        'a'
    } else if n == 11 {
        'b'
    } else if n == 12 {
        'c'
    } else if n == 13 {
        'd'
    } else if n == 14 {
        'e'
    } else {
        'f'
    }
}

/// Sixteen random bytes as a version 4 UUID: the variant bits of byte 8 set
/// to `10`, then the version nibble of byte 6 set to 4.
pub open spec fn v4_bytes(bytes: Seq<u8>) -> Seq<u8> {
    let with_variant = bytes.update(8, ((bytes[8] & 0x3f) | 0x80) as u8);
    with_variant.update(6, ((with_variant[6] & 0x0f) | 0x40) as u8)
}

/// Character `i` of the hyphenated form of the UUID `bytes`: hyphens at 8,
/// 13, 18 and 23, and elsewhere the hex digits of the bytes in order, high
/// nibble first.
pub open spec fn uuid_char(bytes: Seq<u8>, i: int) -> char {
    if i == 8 || i == 13 || i == 18 || i == 23 {
        '-'
    } else {
        let hyphens: int = if i > 23 {
            4
        } else if i > 18 {
            3
        } else if i > 13 {
            2
        } else if i > 8 {
            1
        } else {
            0
        };
        let j = i - hyphens;
        let byte = bytes[j / 2];
        if j % 2 == 0 {
            hex_char((byte >> 4u8) as nat)
        } else {
            hex_char((byte & 0x0fu8) as nat)
        }
    }
}

/// The hyphenated lower-case text of the version 4 UUID that
/// `uuid::Builder::from_random_bytes` makes of sixteen bytes.
pub open spec fn uuid_v4_text_of(bytes: Seq<u8>) -> Seq<char> {
    let uuid = v4_bytes(bytes);
    Seq::new(36, |i: int| uuid_char(uuid, i))
}

/// `uuid::Builder::from_random_bytes(bytes).into_uuid()`, written out by its
/// `Display`: the bytes with the variant and version bits set, as lower-case
/// hex in groups of 8, 4, 4, 4 and 12 digits joined by hyphens.
#[verifier::external_body]
fn uuid_v4_text(bytes: [u8; 16]) -> (text: String)
    ensures
        text@ == uuid_v4_text_of(bytes@),
{
    uuid::Builder::from_random_bytes(bytes).into_uuid().to_string()
}

/// The text of any sixteen bytes as a version 4 UUID has the UUID's form.
pub proof fn lemma_uuid_v4_text_form(bytes: Seq<u8>)
    requires
        bytes.len() == 16,
    ensures
        is_uuid_v4_text(uuid_v4_text_of(bytes)),
{
    let text = uuid_v4_text_of(bytes);
    let uuid = v4_bytes(bytes);
    let with_variant = bytes.update(8, ((bytes[8] & 0x3f) | 0x80) as u8);
    let b6: u8 = with_variant[6];
    let b8: u8 = bytes[8];
    assert((((b6 & 0x0f) | 0x40) as u8) >> 4u8 == 4u8) by (bit_vector);
    assert({
        let v = ((b8 & 0x3f) | 0x80) as u8;
        8u8 <= v >> 4u8 <= 11u8
    }) by (bit_vector);
    assert(uuid[6] == ((b6 & 0x0f) | 0x40) as u8);
    assert(uuid[8] == ((b8 & 0x3f) | 0x80) as u8);
    assert(text[14] == hex_char((uuid[6] >> 4u8) as nat));
    assert(text[19] == hex_char((uuid[8] >> 4u8) as nat));
    assert forall|i: int|
        0 <= i < 36 implies if i == 8 || i == 13 || i == 18 || i == 23 {
            text[i] == '-'
        } else {
            is_hex_digit(#[trigger] text[i])
        } by {
        assert(text[i] == uuid_char(uuid, i));
    }
}

/// Whether `c` is a lower-case hexadecimal digit.
pub open spec fn is_hex_digit(c: char) -> bool {
    ('0' <= c && c <= '9') || ('a' <= c && c <= 'f')
}

/// Whether `text` is a version 4 UUID in hyphenated form: 36 characters,
/// hyphens at 8, 13, 18 and 23, lower-case hex digits elsewhere, `4` at 14
/// and one of `8`, `9`, `a`, `b` at 19.
pub open spec fn is_uuid_v4_text(text: Seq<char>) -> bool {
    &&& text.len() == 36
    &&& forall|i: int|
        0 <= i < 36 ==> if i == 8 || i == 13 || i == 18 || i == 23 {
            text[i] == '-'
        } else {
            is_hex_digit(#[trigger] text[i])
        }
    &&& text[14] == '4'
    &&& (text[19] == '8' || text[19] == '9' || text[19] == 'a' || text[19] == 'b')
}

/// The message with which a job ID that cannot be drawn is reported.
pub open spec fn id_error_message(detail: Seq<char>) -> Seq<char> {
    "Failed to generate a job ID: "@ + detail
}

/// A fresh random job ID, a version 4 UUID; it is never empty, so
/// `check_job_id` accepts it. Where the system's random source fails, a job
/// processing error that carries the reason.
pub fn new_job_id() -> (r: Result<String>)
    ensures
        r matches Ok(id) ==> is_uuid_v4_text(id@) && exists|bytes: Seq<u8>|
            bytes.len() == 16 && id@ == uuid_v4_text_of(bytes),
        r matches Ok(id) ==> id@.len() > 0,
        r matches Err(e) ==> e matches Error::JobProcessing(msg) && exists|cause: RandomError, detail: String|
            to_string_from_display_ensures::<RandomError>(&cause, detail) && msg@
                == id_error_message(detail@),
{
    let mut bytes: [u8; 16] = [0u8; 16];
    match fill_random(&mut bytes) {
        Ok(()) => {
            let id = uuid_v4_text(bytes);
            proof {
                lemma_uuid_v4_text_form(bytes@);
            }
            Ok(id)
        },
        Err(cause) => {
            let detail = cause.to_string();
            let mut msg = String::from_str("Failed to generate a job ID: ");
            msg.append(detail.as_str());
            Err(Error::JobProcessing(msg))
        },
    }
}

/// The message with which an empty job ID is refused.
pub open spec fn empty_id_message() -> Seq<char> {
    "Job ID cannot be empty"@
}

/// Accept a job ID: an empty one is a configuration error.
pub fn check_job_id(job_id: &str) -> (r: Result<()>)
    ensures
        r is Ok <==> job_id@.len() > 0,
        r matches Err(e) ==> e matches Error::Config(msg) && msg@ == empty_id_message(),
{
    if job_id.is_empty() {
        Err(Error::Config(String::from_str("Job ID cannot be empty")))
    } else {
        Ok(())
    }
}

/// How an attempt at a job ended.
#[derive(Debug, Clone, Copy, PartialEq, Eq, Structural)]
pub enum JobOutcome {
    /// The job's processor succeeded.
    Succeeded,
    /// The job's processor failed.
    Failed,
    /// No processor is registered for the job's type.
    Unhandled,
}

/// How an attempt ended, from whether a processor was found (`Some`) and
/// whether it succeeded.
pub fn job_outcome(processed: Option<bool>) -> (outcome: JobOutcome)
    ensures
        outcome == match processed {
            None => JobOutcome::Unhandled,
            Some(true) => JobOutcome::Succeeded,
            Some(false) => JobOutcome::Failed,
        },
{
    match processed {
        None => JobOutcome::Unhandled,
        Some(true) => JobOutcome::Succeeded,
        Some(false) => JobOutcome::Failed,
    }
}

/// Where a job goes after an attempt.
#[derive(Debug)]
pub enum Disposition {
    /// The job is done and leaves the queue.
    Finished,
    /// The job ran out of retries: it goes to the dead letter queue.
    DeadLetter(JobData),
    /// The job goes back to the retry queue.
    Retry(JobData),
}

/// The job after one more failed attempt at time `now`.
pub open spec fn failed_once(job: JobData, now: i64) -> JobData {
    JobData { retries: (job.retries + 1) as u32, last_retry_at: Some(now), ..job }
}

/// Where a job goes after an attempt that ended with `outcome` at time `now`,
/// when a job may be retried `max_retries` times after its first attempt.
pub open spec fn disposition(max_retries: nat, job: JobData, outcome: JobOutcome, now: i64) -> Disposition {
    if outcome == JobOutcome::Succeeded {
        Disposition::Finished
    } else {
        let failed = failed_once(job, now);
        if failed.retries > max_retries {
            Disposition::DeadLetter(failed)
        } else {
            Disposition::Retry(failed)
        }
    }
}

/// Decide where a job goes after an attempt that ended just now; the time of
/// a failure is the clock's reading in milliseconds.
pub fn settle_job_now(config: &AnyQueueConfig, job: JobData, outcome: JobOutcome) -> (d: Disposition)
    requires
        outcome != JobOutcome::Succeeded ==> job.retries < u32::MAX,
    ensures
        exists|now: i64|
            read_from_clock(now) && d == disposition(config.max_retries as nat, job, outcome, now),
{
    let now = now_millis();
    settle_job(config, job, outcome, now)
}

/// Decide where a job goes after an attempt at time `now`: a success finishes
/// it; a failure, or a missing processor, counts one more failed attempt and
/// sends the job back to the retry queue while its retries stay within
/// `max_retries`, else to the dead letter queue.
pub fn settle_job(config: &AnyQueueConfig, job: JobData, outcome: JobOutcome, now: i64) -> (d: Disposition)
    requires
        outcome != JobOutcome::Succeeded ==> job.retries < u32::MAX,
    ensures
        d == disposition(config.max_retries as nat, job, outcome, now),
{
    match outcome {
        JobOutcome::Succeeded => Disposition::Finished,
        _ => {
            let mut failed = job;
            failed.retries = failed.retries + 1;
            failed.last_retry_at = Some(now);
            if failed.retries > config.max_retries {
                Disposition::DeadLetter(failed)
            } else {
                Disposition::Retry(failed)
            }
        },
    }
}

} // verus!
