//! Errors of queue operations.

use vstd::prelude::*;

use redis::RedisError;
use serde_json::Error as JsonError;
use vstd::string::to_string_from_display_ensures;

verus! {

/// `redis::RedisError`, carried through unopened.
#[verifier::external_type_specification]
#[verifier::external_body]
pub struct ExRedisError(RedisError);

/// `serde_json::Error`, carried through unopened.
#[verifier::external_type_specification]
#[verifier::external_body]
pub struct ExJsonError(JsonError);

/// Error types for queue operations.
#[derive(Debug)]
pub enum Error {
    /// Redis connection or operation errors
    Redis(RedisError),
    /// JSON serialization/deserialization errors
    Serialization(JsonError),
    /// Configuration errors
    Config(String),
    /// Job processing errors
    JobProcessing(String),
    /// Worker errors
    Worker(String),
    /// Connection errors
    Connection(String),
}

/// Result type for queue operations.
pub type Result<T> = std::result::Result<T, Error>;

fn prefixed(prefix: &str, rest: &str) -> (text: String)
    ensures
        text@ == prefix@ + rest@,
{
    let mut text = String::from_str(prefix);
    text.append(rest);
    text
}

impl Error {
    /// The error's message: a prefix that names its kind, then the detail.
    pub fn to_string(&self) -> (text: String)
        ensures
            match self {
                Error::Redis(e) => exists|s: String|
                    to_string_from_display_ensures::<RedisError>(e, s) && text@ == "Redis error: "@
                        + s@,
                Error::Serialization(e) => exists|s: String|
                    to_string_from_display_ensures::<JsonError>(e, s) && text@
                        == "Serialization error: "@ + s@,
                Error::Config(msg) => text@ == "Configuration error: "@ + msg@,
                Error::JobProcessing(msg) => text@ == "Job processing error: "@ + msg@,
                Error::Worker(msg) => text@ == "Worker error: "@ + msg@,
                Error::Connection(msg) => text@ == "Connection error: "@ + msg@,
            },
    {
        match self {
            Error::Redis(e) => {
                let detail = e.to_string();
                prefixed("Redis error: ", detail.as_str())
            },
            Error::Serialization(e) => {
                let detail = e.to_string();
                prefixed("Serialization error: ", detail.as_str())
            },
            Error::Config(msg) => prefixed("Configuration error: ", msg.as_str()),
            Error::JobProcessing(msg) => prefixed("Job processing error: ", msg.as_str()),
            Error::Worker(msg) => prefixed("Worker error: ", msg.as_str()),
            Error::Connection(msg) => prefixed("Connection error: ", msg.as_str()),
        }
    }
}

/// The text of an error that `context` explains and `cause` underlies:
/// `context`, a colon, and what `cause` says.
fn caused_by(context: &str, cause: &RedisError) -> (text: String)
    ensures
        exists|detail: String|
            to_string_from_display_ensures::<RedisError>(cause, detail) && text@ == context@
                + ": "@ + detail@,
{
    let detail = cause.to_string();
    let mut text = String::from_str(context);
    text.append(": ");
    text.append(detail.as_str());
    text
}

impl Error {
    /// A connection error: `context`, then what the Redis error `cause` says.
    pub fn connection(context: &str, cause: &RedisError) -> (e: Error)
        ensures
            e matches Error::Connection(msg) && exists|detail: String|
                to_string_from_display_ensures::<RedisError>(cause, detail) && msg@ == context@
                    + ": "@ + detail@,
    {
        Error::Connection(caused_by(context, cause))
    }

    /// A worker error: `context`, then what the Redis error `cause` says.
    pub fn worker(context: &str, cause: &RedisError) -> (e: Error)
        ensures
            e matches Error::Worker(msg) && exists|detail: String|
                to_string_from_display_ensures::<RedisError>(cause, detail) && msg@ == context@
                    + ": "@ + detail@,
    {
        Error::Worker(caused_by(context, cause))
    }
}

impl From<RedisError> for Error {
    fn from(err: RedisError) -> (e: Self) {
        Error::Redis(err)
    }
}

impl vstd::std_specs::convert::FromSpecImpl<RedisError> for Error {
    open spec fn obeys_from_spec() -> bool {
        true
    }

    open spec fn from_spec(err: RedisError) -> Self {
        Error::Redis(err)
    }
}

impl From<JsonError> for Error {
    fn from(err: JsonError) -> (e: Self) {
        Error::Serialization(err)
    }
}

impl vstd::std_specs::convert::FromSpecImpl<JsonError> for Error {
    open spec fn obeys_from_spec() -> bool {
        true
    }

    open spec fn from_spec(err: JsonError) -> Self {
        Error::Serialization(err)
    }
}

} // verus!
