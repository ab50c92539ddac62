//! Platforms and authentication sessions.

use vstd::prelude::*;
use crate::text::str_eq;
use crate::ids::new_uuid_v7;
use crate::time::{micros_in_range, now_micros, MICROS_PER_DAY};

verus! {

/// The client platform a session belongs to.
#[derive(Debug, Clone, Copy, PartialEq, Eq, Structural)]
pub enum Platform {
    Desktop,
    Web,
    Mobile,
}

/// The wire name of a platform.
pub open spec fn platform_name(p: Platform) -> Seq<char> {
    match p {
        Platform::Desktop => "desktop"@,
        Platform::Web => "web"@,
        Platform::Mobile => "mobile"@,
    }
}

/// The platform with the given wire name, if any.
pub open spec fn platform_named(s: Seq<char>) -> Option<Platform> {
    if s == "desktop"@ {
        Some(Platform::Desktop)
    } else if s == "web"@ {
        Some(Platform::Web)
    } else if s == "mobile"@ {
        Some(Platform::Mobile)
    } else {
        None
    }
}

impl Platform {
    pub fn as_str(&self) -> (r: &'static str)
        ensures
            r@ == platform_name(*self),
    {
        match self {
            Platform::Desktop => "desktop",
            Platform::Web => "web",
            Platform::Mobile => "mobile",
        }
    }

    pub fn from_str(s: &str) -> (r: Option<Platform>)
        ensures
            r == platform_named(s@),
    {
        if str_eq(s, "desktop") {
            Some(Platform::Desktop)
        } else if str_eq(s, "web") {
            Some(Platform::Web)
        } else if str_eq(s, "mobile") {
            Some(Platform::Mobile)
        } else {
            None
        }
    }
}

/// Reading back the wire name of a platform gives the platform.
pub proof fn lemma_platform_roundtrip(p: Platform)
    ensures
        platform_named(platform_name(p)) == Some(p),
{
    reveal_strlit("desktop");
    reveal_strlit("web");
    reveal_strlit("mobile");
    assert("web"@.len() != "desktop"@.len());
    assert("mobile"@.len() != "desktop"@.len());
    assert("mobile"@.len() != "web"@.len());
}

/// A name that is read as a platform is that platform's wire name.
pub proof fn lemma_platform_name_unique(s: Seq<char>)
    ensures
        platform_named(s) matches Some(p) ==> platform_name(p) == s,
{
}

/// How long a session lasts.
pub const SESSION_LIFETIME_MICROS: i64 = 7 * MICROS_PER_DAY;

/// A login session of one user on one platform.
#[derive(Debug, Clone)]
pub struct AuthSession {
    pub id: u128,
    pub user_id: u128,
    pub platform: Platform,
    pub refresh_token_hash: String,
    pub created_at: i64,
    pub expires_at: i64,
    pub last_active_at: i64,
}

impl AuthSession {
    /// A new session, created now, with a fresh identifier, lasting seven days.
    pub fn new(user_id: u128, platform: Platform, refresh_token_hash: String) -> (s: AuthSession)
        ensures
            s.user_id == user_id,
            s.platform == platform,
            s.refresh_token_hash@ == refresh_token_hash@,
            micros_in_range(s.created_at),
            s.expires_at == s.created_at + SESSION_LIFETIME_MICROS,
            s.last_active_at == s.created_at,
    {
        let now = now_micros();
        AuthSession {
            id: new_uuid_v7(),
            user_id,
            platform,
            refresh_token_hash,
            created_at: now,
            expires_at: now + SESSION_LIFETIME_MICROS,
            last_active_at: now,
        }
    }

    /// Whether the session has expired at the instant `now`.
    pub fn is_expired_at(&self, now: i64) -> (r: bool)
        ensures
            r == (now > self.expires_at),
    {
        now > self.expires_at
    }

    /// Whether the session has expired by the current time.
    pub fn is_expired(&self) -> (r: bool)
        ensures
            exists|now: i64| micros_in_range(now) && r == (now > self.expires_at),
    {
        let now = now_micros();
        self.is_expired_at(now)
    }

    /// Records activity now.
    pub fn touch(&mut self)
        ensures
            micros_in_range(final(self).last_active_at),
            final(self).id == old(self).id,
            final(self).user_id == old(self).user_id,
            final(self).platform == old(self).platform,
            final(self).refresh_token_hash@ == old(self).refresh_token_hash@,
            final(self).created_at == old(self).created_at,
            final(self).expires_at == old(self).expires_at,
    {
        self.last_active_at = now_micros();
    }

    /// A session as stored: an unknown platform text is read as the web platform.
    pub fn from_record(
        id: u128,
        user_id: u128,
        platform: &str,
        refresh_token_hash: String,
        created_at: i64,
        expires_at: i64,
        last_active_at: i64,
    ) -> (s: AuthSession)
        ensures
            s.id == id,
            s.user_id == user_id,
            s.platform == (match platform_named(platform@) {
                Some(p) => p,
                None => Platform::Web,
            }),
            s.refresh_token_hash@ == refresh_token_hash@,
            s.created_at == created_at,
            s.expires_at == expires_at,
            s.last_active_at == last_active_at,
    {
        let p = match Platform::from_str(platform) {
            Some(p) => p,
            None => Platform::Web,
        };
        AuthSession {
            id,
            user_id,
            platform: p,
            refresh_token_hash,
            created_at,
            expires_at,
            last_active_at,
        }
    }
}

} // verus!
