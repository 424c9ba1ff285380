//! Access-token claims and the bearer credentials that carry them.
use vstd::prelude::*;

use crate::api::ApiError;
use crate::text::{has_prefix, strip_prefix};

verus! {

/// Claims of a creator's access token.
#[derive(Debug)]
pub struct Claims {
    /// The creator's user id (a UUID, as its 128-bit value).
    pub sub: u128,
    pub email: String,
    /// Expiry, in seconds since the Unix epoch.
    pub exp: usize,
}

/// A token that could not be issued or was not accepted.
#[derive(Debug, Clone, Copy, PartialEq, Eq, Structural)]
pub enum TokenError {
    Invalid,
}

impl TokenError {
    /// The human-readable description of the error.
    pub fn message(&self) -> (m: &'static str)
        ensures
            m@ == "invalid token"@,
    {
        match self {
            TokenError::Invalid => "invalid token",
        }
    }
}

/// Lifetime of an access token issued at login, in minutes.
pub const ACCESS_TOKEN_MINUTES: i64 = 60;

/// Earliest Unix time, in seconds, that a `chrono::DateTime<Utc>` holds: the
/// first second of year -262143.
pub const MIN_CLOCK_SECONDS: i64 = -8_334_601_315_200;

/// Latest Unix time, in seconds, that a `chrono::DateTime<Utc>` holds: the
/// last second of year 262142.
pub const MAX_CLOCK_SECONDS: i64 = 8_210_266_876_799;

/// Expiry claim of a token issued at Unix time `now_seconds` for
/// `lifetime_minutes`: the Unix time that many minutes later, cast to `usize`.
pub open spec fn token_expiry(now_seconds: i64, lifetime_minutes: i64) -> usize {
    (now_seconds + 60 * lifetime_minutes) as usize
}

/// The claims of a token issued to `sub` and `email` at Unix time
/// `now_seconds` (the clock reading) and valid for `lifetime_minutes`. Its
/// expiry must stay within the times the clock can represent.
pub fn token_claims(sub: u128, email: String, now_seconds: i64, lifetime_minutes: i64) -> (c: Claims)
    requires
        MIN_CLOCK_SECONDS <= now_seconds <= MAX_CLOCK_SECONDS,
        MIN_CLOCK_SECONDS <= now_seconds + 60 * lifetime_minutes <= MAX_CLOCK_SECONDS,
    ensures
        c.sub == sub,
        c.email == email,
        c.exp == token_expiry(now_seconds, lifetime_minutes),
{
    let expires_at: i64 = now_seconds + 60 * lifetime_minutes;
    Claims { sub, email, exp: expires_at as usize }
}

/// The credential that follows `Bearer ` in an `Authorization` header.
pub open spec fn bearer_credential(header: Option<Seq<char>>) -> Option<Seq<char>> {
    match header {
        Some(h) => if has_prefix(h, "Bearer "@) {
            Some(h.subrange("Bearer "@.len() as int, h.len() as int))
        } else {
            None
        },
        None => None,
    }
}

/// The credential of an `Authorization: Bearer <credential>` header; `None`
/// when the header is absent, unreadable or not of that form.
pub fn bearer_token(header: Option<&str>) -> (r: Option<&str>)
    ensures
        match header {
            Some(h) => match bearer_credential(Some(h@)) {
                Some(c) => r matches Some(t) && t@ == c,
                None => r is None,
            },
            None => r is None,
        },
{
    match header {
        Some(h) => strip_prefix(h, "Bearer "),
        None => None,
    }
}

/// The credential a creator request authenticates with; a request without
/// one is answered 401.
pub fn require_bearer(header: Option<&str>) -> (r: Result<&str, ApiError>)
    ensures
        match header {
            Some(h) => match bearer_credential(Some(h@)) {
                Some(c) => r matches Ok(t) && t@ == c,
                None => r == Err::<&str, ApiError>(ApiError::Unauthorized),
            },
            None => r == Err::<&str, ApiError>(ApiError::Unauthorized),
        },
{
    match bearer_token(header) {
        Some(t) => Ok(t),
        None => Err(ApiError::Unauthorized),
    }
}

} // verus!
