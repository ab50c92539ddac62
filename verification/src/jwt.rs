//! The claims carried by access and refresh tokens.

use vstd::prelude::*;
use crate::ids::{uuid_string, uuid_text};
use crate::text::{chars_of, string_from_chars};
use crate::time::{now_secs, secs_in_range, EARLIEST_SECS, LATEST_SECS};

verus! {

/// Token claims: subject (user), session, platform, expiry and issue time
/// (Unix seconds).
#[derive(Debug)]
pub struct JwtClaims {
    pub sub: String,
    pub sid: String,
    pub platform: String,
    pub exp: usize,
    pub iat: usize,
}

/// Lifetimes for which the expiry time of a token issued at any instant that
/// `chrono` represents fits in an `i64`.
pub open spec fn lifetime_fits(expires_in_secs: i64) -> bool {
    i64::MIN - EARLIEST_SECS <= expires_in_secs <= i64::MAX - LATEST_SECS
}

/// The claims of a token issued at `now` (Unix seconds).
pub open spec fn claims_issued_at(
    c: JwtClaims,
    user_id: u128,
    session_id: u128,
    platform: Seq<char>,
    expires_in_secs: i64,
    now: i64,
) -> bool {
    &&& c.sub@ == uuid_text(user_id)
    &&& c.sid@ == uuid_text(session_id)
    &&& c.platform@ == platform
    &&& c.exp == (now + expires_in_secs) as usize
    &&& c.iat == now as usize
}

/// Claims issued at `now` expire `expires_in_secs` after their issue time,
/// whenever that time fits in a `usize` (always on 64-bit targets).
pub open spec fn lifetime_kept(c: JwtClaims, expires_in_secs: i64, now: i64) -> bool {
    0 <= now && now + expires_in_secs <= usize::MAX && 0 <= expires_in_secs ==> c.exp == c.iat + expires_in_secs
}

impl JwtClaims {
    /// Claims issued at the instant `now` (Unix seconds).
    pub fn new_at(
        user_id: u128,
        session_id: u128,
        platform: &str,
        expires_in_secs: i64,
        now: i64,
    ) -> (c: JwtClaims)
        requires
            secs_in_range(now),
            lifetime_fits(expires_in_secs),
        ensures
            claims_issued_at(c, user_id, session_id, platform@, expires_in_secs, now),
            lifetime_kept(c, expires_in_secs, now),
    {
        let p = chars_of(platform);
        JwtClaims {
            sub: uuid_string(user_id),
            sid: uuid_string(session_id),
            platform: string_from_chars(p.as_slice()),
            exp: (now + expires_in_secs) as usize,
            iat: now as usize,
        }
    }

    /// Claims issued now.
    pub fn new(user_id: u128, session_id: u128, platform: &str, expires_in_secs: i64) -> (c: JwtClaims)
        requires
            lifetime_fits(expires_in_secs),
        ensures
            exists|now: i64|
                0 <= now && secs_in_range(now) && lifetime_kept(c, expires_in_secs, now) && claims_issued_at(
                    c,
                    user_id,
                    session_id,
                    platform@,
                    expires_in_secs,
                    now,
                ),
    {
        let now = now_secs();
        Self::new_at(user_id, session_id, platform, expires_in_secs, now)
    }

    /// Whether the claims have expired at the instant `now` (Unix seconds).
    pub fn is_expired_at(&self, now: i64) -> (r: bool)
        ensures
            r == (now as usize >= self.exp),
    {
        now as usize >= self.exp
    }

    /// Whether the claims have expired by the current time.
    pub fn is_expired(&self) -> (r: bool)
        ensures
            exists|now: i64| 0 <= now && secs_in_range(now) && r == (now as usize >= self.exp),
    {
        let now = now_secs();
        self.is_expired_at(now)
    }
}

} // verus!
