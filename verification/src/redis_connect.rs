//! How the controller reaches the Redis cache in which each tap's dispensed
//! volume is published.

use vstd::prelude::*;

verus! {

#[verifier::external_type_specification]
#[verifier::external_body]
pub struct ExRedisClient(redis::Client);

#[verifier::external_type_specification]
#[verifier::external_body]
pub struct ExRedisError(redis::RedisError);

/// Whether `redis::Client::open` accepts a connection URL: it parses the URL
/// into connection settings and connects to nothing.
pub uninterp spec fn redis_url_accepted(url: Seq<char>) -> bool;

/// Calls `redis::Client::open` on a URL.  Its source builds the client from
/// the settings parsed out of the URL alone, with no I/O, so whether it
/// succeeds is stated as a function of the URL; what the client holds is left
/// unsaid.
#[verifier::external_body]
fn client_open(url: &str) -> (r: Result<redis::Client, redis::RedisError>)
    ensures
        r.is_ok() == redis_url_accepted(url@),
{
    redis::Client::open(url)
}

/// The URL scheme: `rediss` for a connection over TLS, `redis` otherwise.
pub open spec fn uri_scheme_spec(tls: bool) -> Seq<char> {
    if tls {
        "rediss"@
    } else {
        "redis"@
    }
}

/// The URL of the cache: the scheme, an empty user name with the password,
/// and the host (which may carry a port), as `scheme://:password@host`.
pub open spec fn connection_url_spec(tls: bool, password: Seq<char>, host: Seq<char>) -> Seq<char> {
    uri_scheme_spec(tls) + "://:"@ + password + "@"@ + host
}

/// The URL scheme for a connection with or without TLS.
pub fn uri_scheme(tls: bool) -> (s: &'static str)
    ensures
        s@ == uri_scheme_spec(tls),
{
    if tls {
        "rediss"
    } else {
        "redis"
    }
}

/// The URL of the cache on `host`, reached with `password` and, when `tls`
/// holds, over TLS.
pub fn connection_url(tls: bool, password: &str, host: &str) -> (url: String)
    ensures
        url@ == connection_url_spec(tls, password@, host@),
{
    let mut url = String::from_str(uri_scheme(tls));
    url.append("://:");
    url.append(password);
    url.append("@");
    url.append(host);
    url
}

/// A client for the cache on `host`, reached with `password` and, when `tls`
/// holds, over TLS; no connection is made yet.  It is refused exactly when
/// the Redis client refuses the URL of [`connection_url`].
pub fn open_client(tls: bool, password: &str, host: &str) -> (r: Result<redis::Client, redis::RedisError>)
    ensures
        r.is_ok() == redis_url_accepted(connection_url_spec(tls, password@, host@)),
{
    let url = connection_url(tls, password, host);
    client_open(url.as_str())
}

} // verus!
