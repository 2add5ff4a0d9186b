//! Clients that `redis::Client::open` hands out.

use vstd::prelude::*;

use redis::{Client, RedisError};

use crate::queue::{redis_scheme, redis_tcp_url_accepted, unix_scheme};

verus! {

/// Whether `client` is the client that `redis::Client::open` gave for `url`,
/// with that URL's host, port, database and credentials. A `Client` is opaque,
/// so the definition is private to this module: `client_open` is the only
/// function here, and elsewhere a client is known to be one for `url` only
/// because `client_open` returned it for `url`.
pub closed spec fn opened_for(client: Client, url: Seq<char>) -> bool {
    true
}

/// `redis::Client::open` on a URL: it parses the URL into connection settings
/// and connects to nothing. It accepts only URLs with a Redis scheme. For a
/// URL that does not name a Unix socket, whether it is accepted depends on the
/// URL alone (`redis_tcp_url_accepted`); for a Unix socket it also depends on
/// the platform (Unix sockets exist only on some), and is not stated.
#[verifier::external_body]
pub(crate) fn client_open(url: &str) -> (r: std::result::Result<Client, RedisError>)
    ensures
        r matches Ok(client) ==> opened_for(client, url@),
        r is Ok ==> redis_scheme(url@),
        !unix_scheme(url@) ==> (r is Ok <==> redis_tcp_url_accepted(url@)),
{
    Client::open(url)
}

} // verus!
