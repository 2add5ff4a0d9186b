//! AnyQueue: the verified core of a Redis-backed retry queue.
//!
//! The library holds the queue's configuration and the rules by which jobs
//! are scheduled, retried with exponential backoff, and moved to the dead
//! letter queue, and by which a worker reacts to failures of the store.
//! Commands to Redis and the job processors themselves are left to the
//! caller, which hands their results in as plain values.

pub mod client;
pub mod clock;
pub mod config;
pub mod duration;
pub mod error;
pub mod job;
pub mod laws;
pub mod queue;
pub mod registry;
pub mod schedule;
pub mod text;
pub mod worker;

pub use config::{AnyQueueConfig, AnyQueueConfigBuilder};
pub use duration::Duration;
pub use error::{Error, Result};
pub use job::{Disposition, JobData, JobOutcome};
pub use serde_json::Value as JsonValue;
