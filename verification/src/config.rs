//! Configuration of a queue and the builder that assembles it.

use vstd::prelude::*;

use crate::duration::Duration;

verus! {

/// What a configuration says, as mathematical values; every span is in
/// nanoseconds.
pub struct Settings {
    pub redis_url: Seq<char>,
    pub retry_queue_key: Seq<char>,
    pub dead_letter_queue_key: Seq<char>,
    pub max_retries: nat,
    pub base_delay: nat,
    pub max_delay: nat,
    pub job_processing_limit: nat,
    pub worker_poll_interval: nat,
    pub max_consecutive_errors: nat,
}

/// The settings of a queue that nobody has configured.
pub open spec fn default_settings() -> Settings {
    Settings {
        redis_url: "redis://127.0.0.1:6379"@,
        retry_queue_key: "anyqueue:retry"@,
        dead_letter_queue_key: "anyqueue:dlq"@,
        max_retries: 5,
        base_delay: 2 * 1_000_000_000,
        max_delay: 300 * 1_000_000_000,
        job_processing_limit: 5,
        worker_poll_interval: 1_000_000_000,
        max_consecutive_errors: 5,
    }
}

/// Configuration for a queue and its workers.
#[derive(Debug, Clone)]
pub struct AnyQueueConfig {
    /// Where the Redis server listens.
    pub redis_url: String,
    /// Key of the sorted set that holds jobs waiting for their next attempt.
    pub retry_queue_key: String,
    /// Key of the list that holds jobs that ran out of retries.
    pub dead_letter_queue_key: String,
    /// Retries a failing job gets after its first attempt; a further failure
    /// sends it to the dead letter queue.
    pub max_retries: u32,
    /// Delay before the first attempt, and the base of exponential backoff.
    pub base_delay: Duration,
    /// Cap on the backoff delay.
    pub max_delay: Duration,
    /// Jobs a worker claims at once.
    pub job_processing_limit: usize,
    /// How long an idle worker waits before looking for jobs again.
    pub worker_poll_interval: Duration,
    /// Consecutive store errors after which a worker stops.
    pub max_consecutive_errors: u32,
}

impl View for AnyQueueConfig {
    type V = Settings;

    open spec fn view(&self) -> Settings {
        Settings {
            redis_url: self.redis_url@,
            retry_queue_key: self.retry_queue_key@,
            dead_letter_queue_key: self.dead_letter_queue_key@,
            max_retries: self.max_retries as nat,
            base_delay: self.base_delay@,
            max_delay: self.max_delay@,
            job_processing_limit: self.job_processing_limit as nat,
            worker_poll_interval: self.worker_poll_interval@,
            max_consecutive_errors: self.max_consecutive_errors as nat,
        }
    }
}

impl Default for AnyQueueConfig {
    fn default() -> (config: Self)
        ensures
            config@ == default_settings(),
    {
        AnyQueueConfig {
            redis_url: String::from_str("redis://127.0.0.1:6379"),
            retry_queue_key: String::from_str("anyqueue:retry"),
            dead_letter_queue_key: String::from_str("anyqueue:dlq"),
            max_retries: 5,
            base_delay: Duration::from_secs(2),
            max_delay: Duration::from_secs(300),
            job_processing_limit: 5,
            worker_poll_interval: Duration::from_secs(1),
            max_consecutive_errors: 5,
        }
    }
}

/// Builder for `AnyQueueConfig`; each setter replaces one setting and keeps
/// the others.
#[derive(Debug)]
pub struct AnyQueueConfigBuilder {
    config: AnyQueueConfig,
}

impl View for AnyQueueConfigBuilder {
    type V = Settings;

    closed spec fn view(&self) -> Settings {
        self.config@
    }
}

impl Default for AnyQueueConfigBuilder {
    fn default() -> (builder: Self)
        ensures
            builder@ == default_settings(),
    {
        Self::new()
    }
}

impl AnyQueueConfigBuilder {
    /// A builder that starts from the default settings.
    pub fn new() -> (builder: Self)
        ensures
            builder@ == default_settings(),
    {
        AnyQueueConfigBuilder { config: AnyQueueConfig::default() }
    }

    /// Set the Redis URL.
    pub fn redis_url(self, url: &str) -> (builder: Self)
        ensures
            builder@ == (Settings { redis_url: url@, ..self@ }),
    {
        let mut config = self.config;
        config.redis_url = url.to_owned();
        AnyQueueConfigBuilder { config }
    }

    /// Set the key of the retry queue.
    pub fn retry_queue_key(self, key: &str) -> (builder: Self)
        ensures
            builder@ == (Settings { retry_queue_key: key@, ..self@ }),
    {
        let mut config = self.config;
        config.retry_queue_key = key.to_owned();
        AnyQueueConfigBuilder { config }
    }

    /// Set the key of the dead letter queue.
    pub fn dead_letter_queue_key(self, key: &str) -> (builder: Self)
        ensures
            builder@ == (Settings { dead_letter_queue_key: key@, ..self@ }),
    {
        let mut config = self.config;
        config.dead_letter_queue_key = key.to_owned();
        AnyQueueConfigBuilder { config }
    }

    /// Set the maximum number of retries after a job's first attempt.
    pub fn max_retries(self, max_retries: u32) -> (builder: Self)
        ensures
            builder@ == (Settings { max_retries: max_retries as nat, ..self@ }),
    {
        let mut config = self.config;
        config.max_retries = max_retries;
        AnyQueueConfigBuilder { config }
    }

    /// Set the base delay of exponential backoff.
    pub fn base_delay(self, delay: Duration) -> (builder: Self)
        ensures
            builder@ == (Settings { base_delay: delay@, ..self@ }),
    {
        let mut config = self.config;
        config.base_delay = delay;
        AnyQueueConfigBuilder { config }
    }

    /// Set the cap on the backoff delay.
    pub fn max_delay(self, delay: Duration) -> (builder: Self)
        ensures
            builder@ == (Settings { max_delay: delay@, ..self@ }),
    {
        let mut config = self.config;
        config.max_delay = delay;
        AnyQueueConfigBuilder { config }
    }

    /// Set the number of jobs a worker claims at once.
    pub fn job_processing_limit(self, limit: usize) -> (builder: Self)
        ensures
            builder@ == (Settings { job_processing_limit: limit as nat, ..self@ }),
    {
        let mut config = self.config;
        config.job_processing_limit = limit;
        AnyQueueConfigBuilder { config }
    }

    /// Set how long an idle worker waits between polls.
    pub fn worker_poll_interval(self, interval: Duration) -> (builder: Self)
        ensures
            builder@ == (Settings { worker_poll_interval: interval@, ..self@ }),
    {
        let mut config = self.config;
        config.worker_poll_interval = interval;
        AnyQueueConfigBuilder { config }
    }

    /// Set the number of consecutive store errors after which a worker stops.
    pub fn max_consecutive_errors(self, max_errors: u32) -> (builder: Self)
        ensures
            builder@ == (Settings { max_consecutive_errors: max_errors as nat, ..self@ }),
    {
        let mut config = self.config;
        config.max_consecutive_errors = max_errors;
        AnyQueueConfigBuilder { config }
    }

    /// The configuration assembled so far.
    pub fn build(self) -> (config: AnyQueueConfig)
        ensures
            config@ == self@,
    {
        self.config
    }
}

} // verus!
