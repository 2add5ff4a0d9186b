//! Opening the queue's store.

use vstd::prelude::*;

use redis::{Client, RedisError};
use vstd::string::to_string_from_display_ensures;

use crate::client::{client_open, opened_for};
use crate::config::AnyQueueConfig;
use crate::error::{Error, Result};

verus! {

/// `redis::Client`, carried through unopened.
#[verifier::external_type_specification]
#[verifier::external_body]
pub struct ExRedisClient(Client);

/// `url` without its leading spaces and control characters (up to U+0020),
/// as URL parsing drops them.
pub open spec fn trim_start_controls(url: Seq<char>) -> Seq<char>
    decreases url.len(),
{
    if url.len() > 0 && url[0] <= ' ' {
        trim_start_controls(url.drop_first())
    } else {
        url
    }
}

/// Whether `c` is a tab or a line break, which URL parsing skips.
pub open spec fn is_tab_or_newline(c: char) -> bool {
    c == '\t' || c == '\n' || c == '\r'
}

/// The characters of `url` that URL parsing reads its scheme from.
pub open spec fn scheme_text(url: Seq<char>) -> Seq<char> {
    trim_start_controls(url).filter(|c: char| !is_tab_or_newline(c))
}

/// Whether `text` starts with a prefix that `lower` spells in lower case and
/// `upper` in upper case, each letter in either case.
pub open spec fn starts_with_either_case(text: Seq<char>, lower: Seq<char>, upper: Seq<char>) -> bool {
    &&& text.len() >= lower.len()
    &&& forall|i: int| 0 <= i < lower.len() ==> text[i] == lower[i] || text[i] == upper[i]
}

/// Whether `url` names one of the schemes a Redis client accepts: `redis`,
/// `rediss`, `redis+unix` or `unix`, in any case, followed by a colon.
pub open spec fn redis_scheme(url: Seq<char>) -> bool {
    let text = scheme_text(url);
    ||| starts_with_either_case(text, "redis:"@, "REDIS:"@)
    ||| starts_with_either_case(text, "rediss:"@, "REDISS:"@)
    ||| starts_with_either_case(text, "redis+unix:"@, "REDIS+UNIX:"@)
    ||| starts_with_either_case(text, "unix:"@, "UNIX:"@)
}

/// Whether `url` names a Unix socket: the scheme `unix` or `redis+unix`, in
/// any case, followed by a colon.
pub open spec fn unix_scheme(url: Seq<char>) -> bool {
    let text = scheme_text(url);
    ||| starts_with_either_case(text, "redis+unix:"@, "REDIS+UNIX:"@)
    ||| starts_with_either_case(text, "unix:"@, "UNIX:"@)
}

/// Whether `redis::Client::open` accepts a URL that does not name a Unix
/// socket: whether its host, port, database number, credentials and protocol
/// parse, in this build (which has no TLS, so `rediss` URLs are refused).
/// It depends on the URL alone.
pub uninterp spec fn redis_tcp_url_accepted(url: Seq<char>) -> bool;

/// The Redis client that `redis::Client::open` gives for the configured URL;
/// where the URL is refused, a
/// connection error that carries the reason. A URL without a Redis scheme is
/// always refused; a URL that does not name a Unix socket is accepted exactly
/// when `redis_tcp_url_accepted` holds of it.
pub fn open_client(config: &AnyQueueConfig) -> (r: Result<Client>)
    ensures
        r matches Ok(client) ==> opened_for(client, config.redis_url@),
        r is Ok ==> redis_scheme(config.redis_url@),
        !unix_scheme(config.redis_url@) ==> (r is Ok <==> redis_tcp_url_accepted(
            config.redis_url@,
        )),
        r matches Err(e) ==> e matches Error::Connection(msg) && exists|cause: RedisError, detail: String|
            to_string_from_display_ensures::<RedisError>(&cause, detail) && msg@
                == "Failed to create Redis client"@ + ": "@ + detail@,
{
    match client_open(config.redis_url.as_str()) {
        Ok(client) => Ok(client),
        Err(cause) => Err(Error::connection("Failed to create Redis client", &cause)),
    }
}

} // verus!
