use vstd::prelude::*;
use crate::error::AuthError;

verus! {

#[verifier::external_type_specification]
#[verifier::external_body]
pub struct ExRedisClient(redis::Client);

#[verifier::external_type_specification]
#[verifier::external_body]
pub struct ExRedisError(redis::RedisError);

/// The name for whether `redis::Client::open` accepts the connection URL `url`.
pub uninterp spec fn redis_url_accepted(url: Seq<char>) -> bool;

/// Relies on `redis::Client::open`, which only parses the connection URL,
/// without connecting: its verdict depends on the text alone.
#[verifier::external_body]
fn open_client(redis_url: &str) -> (r: Result<redis::Client, redis::RedisError>)
    ensures
        r is Ok == redis_url_accepted(redis_url@),
{
    redis::Client::open(redis_url)
}

/// A client for the session cache at `redis_url`, when the URL parses. A URL
/// that the client rejects gives `StoreUnavailable`.
pub fn create_redis_client(redis_url: &str) -> (r: Result<redis::Client, AuthError>)
    ensures
        r is Ok == redis_url_accepted(redis_url@),
        r matches Err(e) ==> e == AuthError::StoreUnavailable,
{
    match open_client(redis_url) {
        Ok(c) => Ok(c),
        Err(_) => Err(AuthError::StoreUnavailable),
    }
}

} // verus!
