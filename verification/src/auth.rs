//! Admission control in front of the tools: the bearer token and the rate
//! limit. The transport answers a refusal with the status given here.

use vstd::prelude::*;
use crate::config::RunnerConfig;
use crate::rate::{admits, after_attempt, nanos_between, RateLimiter};
use crate::text::{option_text, strip_prefix, trim, trimmed};

verus! {

/// The status of a request without the right key.
pub const UNAUTHORIZED: u16 = 401;

/// The status of a request over the rate limit.
pub const TOO_MANY_REQUESTS: u16 = 429;

/// Whether a request passes the key check. Without a key, or with a blank
/// one, every request passes. Else the `Authorization` header must be there
/// and read `Bearer `, then the key; blanks around either are not counted.
pub open spec fn key_admits(api_key: Option<Seq<char>>, authorization: Option<Seq<char>>) -> bool {
    match api_key {
        None => true,
        Some(key) => trimmed(key).len() == 0 || match authorization {
            None => false,
            Some(header) => "Bearer "@.is_prefix_of(header) && trimmed(
                header.skip("Bearer "@.len() as int),
            ) == trimmed(key),
        },
    }
}

/// The text of an optional string slice.
pub open spec fn option_str(s: Option<&str>) -> Option<Seq<char>> {
    match s {
        Some(s) => Some(s@),
        None => None,
    }
}

/// Checks the bearer token of a request. `authorization` is the value of
/// the `Authorization` header, `None` where the request has none or it is
/// not text.
pub fn require_api_key(cfg: &RunnerConfig, authorization: Option<&str>) -> (r: Result<(), u16>)
    ensures
        r is Ok <==> key_admits(option_text(cfg.api_key), option_str(authorization)),
        r matches Err(status) ==> status == UNAUTHORIZED,
{
    let expected = match &cfg.api_key {
        Some(key) => trim(key.as_str()),
        None => {
            return Ok(());
        },
    };
    if expected.as_str().is_empty() {
        return Ok(());
    }
    let header = match authorization {
        Some(header) => header,
        None => {
            return Err(UNAUTHORIZED);
        },
    };
    let given = match strip_prefix(header, "Bearer ") {
        Some(rest) => trim(rest.as_str()),
        None => {
            return Err(UNAUTHORIZED);
        },
    };
    if !given.as_str().eq(expected.as_str()) {
        return Err(UNAUTHORIZED);
    }
    Ok(())
}

/// Asks the bucket for one token at the clock's reading. The bucket ends
/// as after one attempt at that reading, and the request is refused exactly
/// where that attempt did not admit it.
pub fn rate_limit(bucket: &mut RateLimiter) -> (r: Result<(), u16>)
    ensures
        final(bucket).rate() == old(bucket).rate(),
        final(bucket).capacity() == old(bucket).capacity(),
        final(bucket).tokens() <= final(bucket).capacity(),
        r matches Err(status) ==> status == TOO_MANY_REQUESTS,
        r is Ok == admits(
            old(bucket).tokens(),
            old(bucket).capacity(),
            old(bucket).rate(),
            nanos_between(old(bucket).last_refill(), final(bucket).last_refill()),
        ),
        final(bucket).tokens() == after_attempt(
            old(bucket).tokens(),
            old(bucket).capacity(),
            old(bucket).rate(),
            nanos_between(old(bucket).last_refill(), final(bucket).last_refill()),
        ),
{
    if bucket.try_acquire() {
        Ok(())
    } else {
        Err(TOO_MANY_REQUESTS)
    }
}

} // verus!
