//! Exchanging a refresh token for a new pair of tokens, with replay detection.

use vstd::prelude::*;
use crate::digest::{hex_lower, sha256, sha256_of};
use crate::error::AuthError;
use crate::flow::{kind_of_reply, reply_kind_of, Effect, Reply, ReplyKind, Step};
use crate::ids::{new_uuid_v7, parse_uuid, uuid_parsed, uuid_string, uuid_text};
use crate::jwt::JwtClaims;
use crate::jwt_service::{token_carries, verify_allows, verify_gives, JwtService, ACCESS_TOKEN_SECS, REFRESH_TOKEN_SECS};
use crate::login_flow::EXPIRES_IN_SECS;

verus! {

/// The tokens of a successful refresh.
#[derive(Debug)]
pub struct RefreshResult {
    pub access_token: String,
    pub refresh_token: String,
    pub expires_in: i32,
}

/// Where a refresh stands.
#[derive(Debug)]
pub enum RefreshStage {
    /// Waits to learn whether the presented token was used before.
    AwaitBlacklist { claims: JwtClaims, token_hash: String },
    /// Replay: waits for the user's sessions to be deleted.
    AwaitReplaySessions { user_id: u128 },
    /// Replay: waits for the user's refresh tokens to be deleted.
    AwaitReplayTokens,
    /// Waits for the stored token hash to be replaced.
    AwaitRotation { claims: JwtClaims },
}

/// A refresh in progress.
pub struct RefreshFlow {
    pub stage: RefreshStage,
}

pub type RefreshStep = Step<RefreshFlow, RefreshResult>;

pub open spec fn refresh_awaits(stage: RefreshStage) -> ReplyKind {
    match stage {
        RefreshStage::AwaitBlacklist { .. } => ReplyKind::Flag,
        _ => ReplyKind::Stored,
    }
}

/// A step that asks for an effect leaves the flow waiting for the kind of
/// reply that effect is answered with.
pub open spec fn refresh_coherent(step: RefreshStep) -> bool {
    match step {
        Step::Perform(f, e) => reply_kind_of(e) == refresh_awaits(f.stage),
        Step::Finish(_) => true,
    }
}

pub open spec fn refresh_fails(step: RefreshStep, e: AuthError) -> bool {
    step == Step::<RefreshFlow, RefreshResult>::Finish(Err(e))
}

/// Issuing the new pair for the user and session the claims name: claims
/// whose subject or session is no UUID are invalid; otherwise the refresh
/// succeeds with a pair that carries the claims' user, session and platform.
pub open spec fn reissues(step: RefreshStep, secret: Seq<char>, claims: JwtClaims) -> bool {
    match (uuid_parsed(claims.sub@), uuid_parsed(claims.sid@)) {
        (Some(uid), Some(sid)) => match step {
            Step::Finish(Ok(r)) => {
                &&& r.expires_in == EXPIRES_IN_SECS
                &&& token_carries(secret, r.access_token@, uid, sid, claims.platform@, ACCESS_TOKEN_SECS)
                &&& token_carries(secret, r.refresh_token@, uid, sid, claims.platform@, REFRESH_TOKEN_SECS)
            },
            _ => false,
        },
        _ => refresh_fails(step, AuthError::TokenInvalid),
    }
}

/// The first step of a refresh once the presented token has been verified
/// with the outcome `verdict`: a refusal ends the refresh with that error;
/// accepted claims are kept while the token's hash is looked up among the
/// used ones.
pub open spec fn refresh_begins(verdict: Result<JwtClaims, AuthError>, refresh_token: Seq<char>, step: RefreshStep) -> bool {
    match verdict {
        Err(e) => refresh_fails(step, e),
        Ok(c) => match step {
            Step::Perform(f, Effect::IsRefreshTokenBlacklisted { token_hash }) => {
                &&& token_hash@ == hex_lower(sha256_of(refresh_token))
                &&& match f.stage {
                    RefreshStage::AwaitBlacklist { claims, token_hash: h } => claims == c && h@ == token_hash@,
                    _ => false,
                }
            },
            _ => false,
        },
    }
}

/// Every step a refresh may take from `stage` on `reply`.
pub open spec fn refresh_resumes(stage: RefreshStage, reply: Reply, secret: Seq<char>, step: RefreshStep) -> bool {
    match stage {
        RefreshStage::AwaitBlacklist { claims, token_hash } => match reply {
            Reply::Flag(None) => refresh_fails(step, AuthError::RefreshTokenExpired),
            Reply::Flag(Some(true)) => match uuid_parsed(claims.sub@) {
                None => refresh_fails(step, AuthError::TokenInvalid),
                Some(uid) => match step {
                    Step::Perform(f, Effect::DeleteSessionsByUser { user_id }) =>
                        user_id == uid && f.stage == (RefreshStage::AwaitReplaySessions { user_id: uid }),
                    _ => false,
                },
            },
            Reply::Flag(Some(false)) => match step {
                Step::Perform(f, Effect::RotateRefreshToken { old_hash, new_hash }) => {
                    &&& old_hash@ == token_hash@
                    &&& exists|x: u128| new_hash@ == hex_lower(sha256_of(#[trigger] uuid_text(x)))
                    &&& f.stage == (RefreshStage::AwaitRotation { claims })
                },
                _ => false,
            },
            _ => false,
        },
        RefreshStage::AwaitReplaySessions { user_id } => match reply {
            Reply::Stored(false) => refresh_fails(step, AuthError::SessionNotFound),
            Reply::Stored(true) => match step {
                Step::Perform(f, Effect::DeleteRefreshTokensByUser { user_id: u }) =>
                    u == user_id && f.stage == RefreshStage::AwaitReplayTokens,
                _ => false,
            },
            _ => false,
        },
        RefreshStage::AwaitReplayTokens => match reply {
            Reply::Stored(false) => refresh_fails(step, AuthError::SessionNotFound),
            Reply::Stored(true) => refresh_fails(step, AuthError::TokenReplay),
            _ => false,
        },
        RefreshStage::AwaitRotation { claims } => match reply {
            Reply::Stored(false) => refresh_fails(step, AuthError::RefreshTokenExpired),
            Reply::Stored(true) => reissues(step, secret, claims),
            _ => false,
        },
    }
}

impl RefreshFlow {
    /// The reply the flow waits for.
    pub fn awaiting(&self) -> (k: ReplyKind)
        ensures
            k == refresh_awaits(self.stage),
    {
        match self.stage {
            RefreshStage::AwaitBlacklist { .. } => ReplyKind::Flag,
            _ => ReplyKind::Stored,
        }
    }

    /// Starts a refresh: the token must verify as a refresh token; then its
    /// hash is checked against the blacklist.
    pub fn refresh_token(jwt: &JwtService, refresh_token: &str) -> (step: RefreshStep)
        ensures
            refresh_coherent(step),
            match step {
                Step::Finish(Err(e)) => verify_allows(jwt@, refresh_token@, Err(e), AuthError::RefreshTokenExpired)
                    && verify_gives(jwt@, refresh_token@, AuthError::RefreshTokenExpired, Err(e)),
                Step::Perform(f, Effect::IsRefreshTokenBlacklisted { token_hash }) => {
                    &&& token_hash@ == hex_lower(sha256_of(refresh_token@))
                    &&& match f.stage {
                        RefreshStage::AwaitBlacklist { claims, token_hash: h } =>
                            h@ == token_hash@ && verify_allows(jwt@, refresh_token@, Ok(claims), AuthError::RefreshTokenExpired)
                                && verify_gives(jwt@, refresh_token@, AuthError::RefreshTokenExpired, Ok(claims)),
                        _ => false,
                    }
                },
                _ => false,
            },
    {
        let verdict = jwt.verify_refresh_token(refresh_token);
        let ghost v = verdict;
        let step = Self::begin_with(verdict, refresh_token);
        proof {
            assert(refresh_begins(v, refresh_token@, step));
        }
        step
    }

    /// The first step of a refresh of `refresh_token`, given the outcome of
    /// verifying it.
    pub fn begin_with(verdict: Result<JwtClaims, AuthError>, refresh_token: &str) -> (step: RefreshStep)
        ensures
            refresh_coherent(step),
            refresh_begins(verdict, refresh_token@, step),
    {
        let claims = match verdict {
            Ok(c) => c,
            Err(e) => return Step::Finish(Err(e)),
        };
        let token_hash = sha256(refresh_token);
        let h = token_hash.clone();
        Step::Perform(
            RefreshFlow { stage: RefreshStage::AwaitBlacklist { claims, token_hash: h } },
            Effect::IsRefreshTokenBlacklisted { token_hash },
        )
    }

    fn reissue(jwt: &JwtService, claims: JwtClaims) -> (step: RefreshStep)
        ensures
            refresh_coherent(step),
            reissues(step, jwt@, claims),
    {
        let uid = match parse_uuid(claims.sub.as_str()) {
            Some(u) => u,
            None => return Step::Finish(Err(AuthError::TokenInvalid)),
        };
        let sid = match parse_uuid(claims.sid.as_str()) {
            Some(s) => s,
            None => return Step::Finish(Err(AuthError::TokenInvalid)),
        };
        let access_token = match jwt.issue_access_token(uid, sid, claims.platform.as_str()) {
            Ok(t) => t,
            Err(e) => return Step::Finish(Err(e)),
        };
        let refresh_token = match jwt.issue_refresh_token(uid, sid, claims.platform.as_str()) {
            Ok(t) => t,
            Err(e) => return Step::Finish(Err(e)),
        };
        Step::Finish(Ok(RefreshResult { access_token, refresh_token, expires_in: EXPIRES_IN_SECS }))
    }

    /// Resumes the flow with the reply to the effect it asked for.
    pub fn resume(self, reply: Reply, jwt: &JwtService) -> (step: RefreshStep)
        requires
            kind_of_reply(reply) == refresh_awaits(self.stage),
        ensures
            refresh_coherent(step),
            refresh_resumes(self.stage, reply, jwt@, step),
    {
        match self.stage {
            RefreshStage::AwaitBlacklist { claims, token_hash } => match reply {
                Reply::Flag(Some(true)) => match parse_uuid(claims.sub.as_str()) {
                    None => Step::Finish(Err(AuthError::TokenInvalid)),
                    Some(uid) => Step::Perform(
                        RefreshFlow { stage: RefreshStage::AwaitReplaySessions { user_id: uid } },
                        Effect::DeleteSessionsByUser { user_id: uid },
                    ),
                },
                Reply::Flag(Some(false)) => {
                    let x = new_uuid_v7();
                    let new_rt = uuid_string(x);
                    let new_hash = sha256(new_rt.as_str());
                    Step::Perform(
                        RefreshFlow { stage: RefreshStage::AwaitRotation { claims } },
                        Effect::RotateRefreshToken { old_hash: token_hash, new_hash },
                    )
                },
                _ => Step::Finish(Err(AuthError::RefreshTokenExpired)),
            },
            RefreshStage::AwaitReplaySessions { user_id } => match reply {
                Reply::Stored(true) => Step::Perform(
                    RefreshFlow { stage: RefreshStage::AwaitReplayTokens },
                    Effect::DeleteRefreshTokensByUser { user_id },
                ),
                _ => Step::Finish(Err(AuthError::SessionNotFound)),
            },
            RefreshStage::AwaitReplayTokens => match reply {
                Reply::Stored(true) => Step::Finish(Err(AuthError::TokenReplay)),
                _ => Step::Finish(Err(AuthError::SessionNotFound)),
            },
            RefreshStage::AwaitRotation { claims } => match reply {
                Reply::Stored(true) => Self::reissue(jwt, claims),
                _ => Step::Finish(Err(AuthError::RefreshTokenExpired)),
            },
        }
    }
}

} // verus!
