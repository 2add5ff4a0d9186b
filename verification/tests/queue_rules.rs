use anyqueue::clock::{millis_of, now_millis};
use anyqueue::job::{check_job_id, job_outcome, new_job_id, settle_job, settle_job_now};
use anyqueue::queue::open_client;
use anyqueue::registry::ProcessorRegistry;
use anyqueue::schedule::{
    first_attempt_at, first_attempt_from_now, later_by, next_attempt_at, requeue_at, requeue_from_now,
    retry_delay,
};
use anyqueue::text::decimal_text;
use anyqueue::worker::{ClaimResult, WorkerState, WorkerStep};
use anyqueue::{
    AnyQueueConfig, AnyQueueConfigBuilder, Disposition, Duration, Error, JobData, JobOutcome,
};

fn config_with(max_retries: u32, base_ms: u64, max_ms: u64) -> AnyQueueConfig {
    AnyQueueConfigBuilder::new()
        .max_retries(max_retries)
        .base_delay(Duration::from_millis(base_ms))
        .max_delay(Duration::from_millis(max_ms))
        .build()
}

fn fresh_job(id: &str) -> JobData {
    JobData::new_at(
        id.to_string(),
        "demo".to_string(),
        serde_json::Value::String("payload".to_string()),
        1_000,
    )
}

#[test]
fn duration_constructors_and_readers() {
    let d = Duration::from_millis(1_500);
    assert_eq!(d.as_secs(), 1);
    assert_eq!(d.subsec_nanos(), 500_000_000);
    assert_eq!(d.as_millis(), 1_500);
    assert_eq!(Duration::from_secs(3).as_millis(), 3_000);
    assert_eq!(Duration::new(1, 2_500_000_000), Duration::from_millis(3_500));
    assert_eq!(Duration::new(0, 1_999_999).as_millis(), 1);
}

#[test]
fn duration_compare_and_min() {
    let a = Duration::from_millis(999);
    let b = Duration::from_secs(1);
    assert!(a.le(&b));
    assert!(!b.le(&a));
    assert!(b.le(&b));
    assert_eq!(a.min(b), a);
    assert_eq!(b.min(a), a);
    assert!(Duration::new(1, 5).le(&Duration::new(1, 6)));
}

#[test]
fn duration_checked_mul() {
    assert_eq!(Duration::from_millis(1_500).checked_mul(3), Some(Duration::from_millis(4_500)));
    assert_eq!(Duration::new(0, 600_000_000).checked_mul(5), Some(Duration::from_secs(3)));
    assert_eq!(Duration::from_secs(u64::MAX).checked_mul(2), None);
    assert_eq!(Duration::from_secs(u64::MAX).checked_mul(1), Some(Duration::from_secs(u64::MAX)));
    assert_eq!(Duration::new(u64::MAX, 600_000_000).checked_mul(2), None);
}

#[test]
fn backoff_doubles_then_caps() {
    let config = AnyQueueConfig::default(); // 2 s base, 300 s cap
    assert_eq!(retry_delay(&config, 0), Duration::from_secs(2));
    assert_eq!(retry_delay(&config, 1), Duration::from_secs(4));
    assert_eq!(retry_delay(&config, 2), Duration::from_secs(8));
    assert_eq!(retry_delay(&config, 7), Duration::from_secs(256));
    assert_eq!(retry_delay(&config, 8), Duration::from_secs(300));
    assert_eq!(retry_delay(&config, 31), Duration::from_secs(300));
}

#[test]
fn backoff_never_decreases() {
    let config = config_with(10, 100, 1_000);
    let mut previous = Duration::from_secs(0);
    for retries in 0..32u32 {
        let delay = retry_delay(&config, retries);
        assert!(previous.le(&delay));
        assert!(delay.le(&Duration::from_millis(1_000)));
        previous = delay;
    }
}

#[test]
fn backoff_saturates_at_the_cap() {
    let config = AnyQueueConfig::default();
    assert_eq!(retry_delay(&config, 32), Duration::from_secs(300));
    assert_eq!(retry_delay(&config, 40), Duration::from_secs(300));
    assert_eq!(retry_delay(&config, u32::MAX), Duration::from_secs(300));
    let huge = AnyQueueConfigBuilder::new()
        .base_delay(Duration::from_secs(u64::MAX / 2))
        .max_delay(Duration::new(u64::MAX, 999_999_999))
        .build();
    assert_eq!(retry_delay(&huge, 1), Duration::from_secs(u64::MAX - 1));
    assert_eq!(retry_delay(&huge, 2), Duration::new(u64::MAX, 999_999_999));
    let zero = config_with(3, 0, 1_000);
    assert_eq!(retry_delay(&zero, u32::MAX), Duration::from_secs(0));
    let above_cap = config_with(3, 5_000, 1_000);
    assert_eq!(retry_delay(&above_cap, 0), Duration::from_secs(1));
}

#[test]
fn attempt_times() {
    let config = config_with(3, 100, 1_000);
    assert_eq!(first_attempt_at(&config, 5_000), Some(5_100));
    assert_eq!(next_attempt_at(&config, 1, 5_000), Some(5_200));
    assert_eq!(next_attempt_at(&config, 2, 5_000), Some(5_400));
    assert_eq!(next_attempt_at(&config, 5, 5_000), Some(6_000));
    assert_eq!(next_attempt_at(&config, 40, 5_000), Some(6_000));
    assert_eq!(next_attempt_at(&config, 1, i64::MAX), None);
    assert_eq!(later_by(i64::MAX, Duration::from_millis(1)), None);
    assert_eq!(later_by(i64::MAX, Duration::from_millis(0)), Some(i64::MAX));
    assert_eq!(later_by(-10, Duration::from_millis(4)), Some(-6));
}

#[test]
fn job_ids_must_not_be_empty() {
    match check_job_id("") {
        Err(Error::Config(msg)) => assert_eq!(msg, "Job ID cannot be empty"),
        _ => panic!("an empty job ID must be refused"),
    }
    assert!(check_job_id("job-1").is_ok());
    assert_eq!(
        check_job_id("").unwrap_err().to_string(),
        "Configuration error: Job ID cannot be empty"
    );
}

#[test]
fn success_finishes_a_job() {
    let config = config_with(3, 0, 0);
    let mut job = fresh_job("ok");
    job.retries = 2;
    assert!(matches!(settle_job(&config, job, JobOutcome::Succeeded, 50), Disposition::Finished));
}

#[test]
fn failure_counts_a_retry() {
    let config = config_with(3, 0, 0);
    match settle_job(&config, fresh_job("f"), JobOutcome::Failed, 77) {
        Disposition::Retry(job) => {
            assert_eq!(job.retries, 1);
            assert_eq!(job.last_retry_at, Some(77));
            assert_eq!(job.id, "f");
            assert_eq!(job.created_at, 1_000);
        }
        _ => panic!("expected a retry"),
    }
    match settle_job(&config, fresh_job("u"), JobOutcome::Unhandled, 78) {
        Disposition::Retry(job) => assert_eq!(job.retries, 1),
        _ => panic!("a job without processor is retried like a failed one"),
    }
}

#[test]
fn exhausted_job_goes_to_dead_letter_queue() {
    let config = config_with(3, 0, 0);
    let mut job = fresh_job("last");
    job.retries = 2;
    match settle_job(&config, job, JobOutcome::Failed, 8) {
        Disposition::Retry(job) => assert_eq!(job.retries, 3),
        _ => panic!("a job within its retries goes back to the retry queue"),
    }
    let mut job = fresh_job("dlq");
    job.retries = 3;
    match settle_job(&config, job, JobOutcome::Failed, 9) {
        Disposition::DeadLetter(job) => {
            assert_eq!(job.retries, 4);
            assert_eq!(job.last_retry_at, Some(9));
        }
        _ => panic!("expected the dead letter queue"),
    }
}

fn attempts_until_dead_letter(max_retries: u32) -> u32 {
    let config = config_with(max_retries, 0, 0);
    let mut job = fresh_job("run");
    let mut attempts = 0;
    loop {
        attempts += 1;
        match settle_job(&config, job, JobOutcome::Failed, attempts as i64) {
            Disposition::Retry(again) => {
                assert_eq!(again.retries, attempts);
                job = again;
            }
            Disposition::DeadLetter(dead) => {
                assert_eq!(dead.retries, attempts);
                assert_eq!(dead.last_retry_at, Some(attempts as i64));
                return attempts;
            }
            Disposition::Finished => panic!("a failed job is not finished"),
        }
    }
}

#[test]
fn failing_job_is_retried_max_retries_times() {
    assert_eq!(attempts_until_dead_letter(0), 1);
    assert_eq!(attempts_until_dead_letter(1), 2);
    assert_eq!(attempts_until_dead_letter(2), 3);
    assert_eq!(attempts_until_dead_letter(5), 6);
}

#[test]
fn worker_processes_or_idles() {
    let config = AnyQueueConfigBuilder::new()
        .worker_poll_interval(Duration::from_millis(250))
        .build();
    let mut state = WorkerState::new();
    assert!(matches!(state.on_claim(&config, ClaimResult::Claimed(3)), WorkerStep::Process));
    match state.on_claim(&config, ClaimResult::Claimed(0)) {
        WorkerStep::Idle(wait) => assert_eq!(wait, Duration::from_millis(250)),
        _ => panic!("expected to idle"),
    }
    assert_eq!(state.consecutive_errors, 0);
}

#[test]
fn worker_halts_after_consecutive_errors() {
    let config = AnyQueueConfigBuilder::new().max_consecutive_errors(3).build();
    let mut state = WorkerState::new();
    for expected in 1..3u32 {
        match state.on_claim(&config, ClaimResult::Failed) {
            WorkerStep::Recover { pause, then_wait } => {
                assert_eq!(pause, Duration::from_secs(5));
                assert_eq!(then_wait, Duration::from_secs(1));
            }
            _ => panic!("expected to recover"),
        }
        assert_eq!(state.consecutive_errors, expected);
    }
    match state.on_claim(&config, ClaimResult::Failed) {
        WorkerStep::Halt(err) => assert_eq!(
            err.to_string(),
            "Worker error: Too many consecutive Redis errors (3). Worker stopping."
        ),
        _ => panic!("expected to halt"),
    }
}

#[test]
fn worker_claim_success_resets_errors() {
    let config = AnyQueueConfigBuilder::new().max_consecutive_errors(2).build();
    let mut state = WorkerState::new();
    assert!(matches!(state.on_claim(&config, ClaimResult::Failed), WorkerStep::Recover { .. }));
    assert!(matches!(state.on_claim(&config, ClaimResult::Claimed(1)), WorkerStep::Process));
    assert_eq!(state.consecutive_errors, 0);
    assert!(matches!(state.on_claim(&config, ClaimResult::Failed), WorkerStep::Recover { .. }));
    assert!(matches!(state.on_claim(&config, ClaimResult::Failed), WorkerStep::Halt(_)));
}

#[test]
fn worker_with_zero_error_budget_halts_at_first_error() {
    let config = AnyQueueConfigBuilder::new().max_consecutive_errors(0).build();
    let mut state = WorkerState::new();
    match state.on_claim(&config, ClaimResult::Failed) {
        WorkerStep::Halt(Error::Worker(msg)) => {
            assert_eq!(msg, "Too many consecutive Redis errors (1). Worker stopping.")
        }
        _ => panic!("expected to halt"),
    }
}

#[test]
fn decimal_text_of_numbers() {
    assert_eq!(decimal_text(0), "0");
    assert_eq!(decimal_text(7), "7");
    assert_eq!(decimal_text(10), "10");
    assert_eq!(decimal_text(305), "305");
    assert_eq!(decimal_text(u32::MAX), "4294967295");
}

#[test]
fn every_error_kind_has_its_prefix() {
    let redis_error = redis::RedisError::from((redis::ErrorKind::IoError, "socket closed"));
    let detail = redis_error.to_string();
    let err: Error = redis_error.into();
    assert!(matches!(err, Error::Redis(_)));
    assert_eq!(err.to_string(), format!("Redis error: {}", detail));

    let json_error = serde_json::from_str::<u32>("[").unwrap_err();
    let detail = json_error.to_string();
    let err = Error::from(json_error);
    assert_eq!(err.to_string(), format!("Serialization error: {}", detail));
}

#[test]
fn builder_keys_and_defaults() {
    let config = AnyQueueConfigBuilder::default()
        .retry_queue_key("app:retry")
        .dead_letter_queue_key("app:dead")
        .build();
    assert_eq!(config.retry_queue_key, "app:retry");
    assert_eq!(config.dead_letter_queue_key, "app:dead");
    assert_eq!(config.redis_url, "redis://127.0.0.1:6379");
    assert_eq!(config.max_retries, 5);

    let defaults = AnyQueueConfig::default();
    assert_eq!(defaults.retry_queue_key, "anyqueue:retry");
    assert_eq!(defaults.dead_letter_queue_key, "anyqueue:dlq");
}

#[test]
fn later_setting_wins() {
    let config = AnyQueueConfigBuilder::new()
        .redis_url("redis://a:1")
        .max_retries(1)
        .redis_url("redis://b:2")
        .build();
    assert_eq!(config.redis_url, "redis://b:2");
    assert_eq!(config.max_retries, 1);
}

#[test]
fn job_data_clone_keeps_payload() {
    let job = fresh_job("c");
    let copy = job.clone();
    assert_eq!(copy.data, job.data);
    assert_eq!(copy.id, job.id);
}

#[test]
fn generated_job_ids_are_hyphenated_uuids() {
    let a = new_job_id().unwrap();
    let b = new_job_id().unwrap();
    assert_ne!(a, b);
    for id in [&a, &b] {
        assert_eq!(id.len(), 36);
        for (i, c) in id.chars().enumerate() {
            if i == 8 || i == 13 || i == 18 || i == 23 {
                assert_eq!(c, '-');
            } else if i == 14 {
                assert_eq!(c, '4');
            } else if i == 19 {
                assert!(['8', '9', 'a', 'b'].contains(&c));
            } else {
                assert!(c.is_ascii_digit() || ('a'..='f').contains(&c));
            }
        }
        assert!(check_job_id(id).is_ok());
    }
}

#[test]
fn new_job_is_stamped_with_the_clock() {
    let job = JobData::new(
        "j".to_string(),
        "demo".to_string(),
        serde_json::Value::Bool(true),
    );
    assert!(job.created_at > 1_600_000_000_000);
    assert_eq!(job.retries, 0);
    assert_eq!(job.last_retry_at, None);
    assert_eq!(job.data, serde_json::Value::Bool(true));
}

#[test]
fn attempt_times_from_the_clock() {
    let config = config_with(3, 100, 1_000);
    let (now, first) = first_attempt_from_now(&config);
    assert_eq!(first, Some(now + 100));
    let mut job = fresh_job("r");
    job.retries = 2;
    let (now, next) = requeue_from_now(&config, &job);
    assert_eq!(next, Some(now + 400));
    assert_eq!(requeue_at(&config, &job, 10), Some(410));
    job.retries = 32;
    let (now, capped) = requeue_from_now(&config, &job);
    assert_eq!(capped, Some(now + 1_000));
}

#[test]
fn settling_now_records_the_failure_time() {
    let config = config_with(3, 0, 0);
    match settle_job_now(&config, fresh_job("n"), JobOutcome::Failed) {
        Disposition::Retry(job) => {
            assert_eq!(job.retries, 1);
            assert!(job.last_retry_at.unwrap() > 1_600_000_000_000);
        }
        _ => panic!("expected a retry"),
    }
    assert!(matches!(
        settle_job_now(&config, fresh_job("s"), JobOutcome::Succeeded),
        Disposition::Finished
    ));
}

#[test]
fn client_for_configured_url() {
    let config = AnyQueueConfig::default();
    assert!(open_client(&config).is_ok());

    let bad = AnyQueueConfigBuilder::new().redis_url("not a url").build();
    match open_client(&bad) {
        Err(Error::Connection(msg)) => {
            assert!(msg.starts_with("Failed to create Redis client: "));
            assert!(msg.len() > "Failed to create Redis client: ".len());
        }
        _ => panic!("expected a connection error"),
    }
}

#[test]
fn registry_gives_each_job_type_one_slot() {
    let mut registry = ProcessorRegistry::new();
    assert_eq!(registry.lookup("email"), None);
    assert_eq!(registry.register("email"), 0);
    assert_eq!(registry.register("sms"), 1);
    assert_eq!(registry.len(), 2);
    assert_eq!(registry.lookup("email"), Some(0));
    assert_eq!(registry.lookup("sms"), Some(1));
    // registering again keeps the slot, so the newer processor replaces the older
    assert_eq!(registry.register("email"), 0);
    assert_eq!(registry.len(), 2);
    assert_eq!(registry.lookup("sms"), Some(1));
    assert_eq!(registry.lookup("report"), None);
}

#[test]
fn errors_caused_by_redis_name_their_context() {
    let cause = redis::RedisError::from((redis::ErrorKind::IoError, "refused"));
    let detail = cause.to_string();
    match Error::connection("Failed to connect to Redis", &cause) {
        Error::Connection(msg) => assert_eq!(msg, format!("Failed to connect to Redis: {}", detail)),
        _ => panic!("expected a connection error"),
    }
    match Error::worker("Failed to claim jobs atomically", &cause) {
        Error::Worker(msg) => assert_eq!(msg, format!("Failed to claim jobs atomically: {}", detail)),
        _ => panic!("expected a worker error"),
    }
}

#[test]
fn clock_reads_milliseconds_since_the_epoch() {
    let t = now_millis();
    assert!(t > 1_600_000_000_000);
    assert!(now_millis() >= t);
}

#[test]
fn outcome_of_an_attempt() {
    assert_eq!(job_outcome(None), JobOutcome::Unhandled);
    assert_eq!(job_outcome(Some(true)), JobOutcome::Succeeded);
    assert_eq!(job_outcome(Some(false)), JobOutcome::Failed);
}

#[test]
fn urls_without_a_redis_scheme_are_refused() {
    for url in ["http://localhost:6379", "localhost:6379", "", "redi:", "not a url"] {
        let config = AnyQueueConfigBuilder::new().redis_url(url).build();
        assert!(open_client(&config).is_err(), "{} must be refused", url);
    }
    for url in ["redis://host:6379", "  REDIS://host:6379", "Re\tdis://host"] {
        let config = AnyQueueConfigBuilder::new().redis_url(url).build();
        assert!(open_client(&config).is_ok(), "{} must be accepted", url);
    }
}

#[test]
fn clock_readings_in_milliseconds() {
    assert_eq!(millis_of(Ok((1, 999_999_999))), 1_999);
    assert_eq!(millis_of(Ok((0, 0))), 0);
    assert_eq!(millis_of(Err((0, 1))), -1);
    assert_eq!(millis_of(Err((1, 500_000_000))), -1_500);
    assert_eq!(millis_of(Err((1, 500_000_001))), -1_501);
    assert_eq!(millis_of(Ok((u64::MAX, 0))), i64::MAX);
    assert_eq!(millis_of(Err((u64::MAX, 0))), i64::MIN);
    assert_eq!(millis_of(Err((9_223_372_036_854_775, 808_000_000))), i64::MIN);
}

#[test]
fn redis_urls_that_do_not_parse_are_refused() {
    for url in ["redis://localhost/x", "redis://localhost:99999", "rediss://localhost", "redis://h/0?protocol=9"] {
        let config = AnyQueueConfigBuilder::new().redis_url(url).build();
        match open_client(&config) {
            Err(Error::Connection(msg)) => assert!(msg.starts_with("Failed to create Redis client: ")),
            _ => panic!("{} must be refused", url),
        }
    }
}
