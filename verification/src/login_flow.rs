//! Logging in (by e-mail and password, or by a verified user id) and
//! completing a registration by e-mail verification: both end by opening a
//! session and issuing a pair of tokens.

use vstd::prelude::*;
use crate::error::AuthError;
use crate::events::AuthEvent;
use crate::flow::{kind_of_reply, reply_kind_of, Effect, Reply, ReplyKind, Step};
use crate::ids::{new_uuid_v7, uuid_string, uuid_text};
use crate::jwt_service::{token_carries, JwtService, ACCESS_TOKEN_SECS, REFRESH_TOKEN_SECS};
use crate::password::{is_hash_of, verify_outcome, PasswordService};
use crate::session::{platform_named, AuthSession, Platform, SESSION_LIFETIME_MICROS};
use crate::text::{chars_of, lemma_utf8_len_bound, string_from_chars, to_owned_string};
use crate::time::{micros_in_range, now_micros};

verus! {

/// At most this many sessions per user and platform; logging in beyond it
/// first ends the oldest.
pub const MAX_SESSIONS_PER_PLATFORM: i64 = 5;

/// The lifetime reported with issued access tokens, in seconds.
pub const EXPIRES_IN_SECS: i32 = 900;

/// The tokens of a successful login.
#[derive(Debug)]
pub struct LoginResult {
    pub access_token: String,
    pub refresh_token: String,
    pub user_id: u128,
    pub expires_in: i32,
}

/// Which event announces the new session.
#[derive(Debug)]
pub enum Welcome {
    LoggedIn,
    Registered { email: String },
}

/// Where a login flow stands: what it waits for, with what it remembers.
#[derive(Debug)]
pub enum LoginStage {
    /// Waits for the user record of an e-mail address.
    AwaitUser { password: String, platform: String },
    /// Waits for the pending registration code of an e-mail address.
    AwaitVerification { email: String, code: String, platform: String, kind: Platform, password_hash: String, nickname: String },
    /// Waits for the used codes to be removed.
    AwaitCleanup { email: String, platform: String, kind: Platform, password_hash: String, nickname: String },
    /// Waits for the account service to create the user.
    AwaitRegistration { email: String, platform: String, kind: Platform },
    /// Waits for the number of the user's sessions on the platform.
    AwaitCount { user_id: u128, platform: String, kind: Platform },
    /// Waits for the user's sessions on the platform, newest first.
    AwaitOldest { user_id: u128, platform: String, kind: Platform },
    /// Waits for the oldest session to be ended.
    AwaitEviction { user_id: u128, platform: String, kind: Platform },
    /// Waits for the new session to be stored.
    AwaitCreate { user_id: u128, platform: String, session_id: u128, rt_hash: String, welcome: Welcome },
    /// Waits for the refresh-token hash to be stored.
    AwaitStore { user_id: u128, platform: String, session_id: u128, welcome: Welcome },
    /// Waits for the event to be published.
    AwaitPublish { result: LoginResult },
}

/// A login in progress.
pub struct LoginFlow {
    pub stage: LoginStage,
}

/// The reply a login flow waits for at each stage.
pub open spec fn login_awaits(stage: LoginStage) -> ReplyKind {
    match stage {
        LoginStage::AwaitUser { .. } => ReplyKind::User,
        LoginStage::AwaitVerification { .. } => ReplyKind::Verification,
        LoginStage::AwaitCleanup { .. } => ReplyKind::Stored,
        LoginStage::AwaitRegistration { .. } => ReplyKind::UserId,
        LoginStage::AwaitCount { .. } => ReplyKind::Count,
        LoginStage::AwaitOldest { .. } => ReplyKind::Sessions,
        LoginStage::AwaitEviction { .. } => ReplyKind::Stored,
        LoginStage::AwaitCreate { .. } => ReplyKind::Stored,
        LoginStage::AwaitStore { .. } => ReplyKind::Stored,
        LoginStage::AwaitPublish { .. } => ReplyKind::Published,
    }
}

/// A step that asks for an effect leaves the flow waiting for the kind of
/// reply that effect is answered with.
pub open spec fn login_coherent(step: Step<LoginFlow, LoginResult>) -> bool {
    match step {
        Step::Perform(f, e) => reply_kind_of(e) == login_awaits(f.stage),
        Step::Finish(_) => true,
    }
}

// ---- what each step may do ------------------------------------------------

/// Starting the session part of a login for a user on a platform (given by
/// its text): an unknown platform is refused; otherwise the sessions are counted.
pub open spec fn begins_login(step: Step<LoginFlow, LoginResult>, user_id: u128, platform: String) -> bool {
    match platform_named(platform@) {
        None => step == Step::<LoginFlow, LoginResult>::Finish(Err(AuthError::InvalidCredentials)),
        Some(kind) => match step {
            Step::Perform(f, Effect::CountSessions { user_id: u, platform: p }) => {
                &&& u == user_id && p@ == platform@
                &&& f.stage == (LoginStage::AwaitCount { user_id, platform, kind })
            },
            _ => false,
        },
    }
}

/// Opening a session: a fresh refresh-token secret is hashed and a new
/// session holding the hash is stored.
pub open spec fn opens_session(
    step: Step<LoginFlow, LoginResult>,
    user_id: u128,
    platform: String,
    kind: Platform,
    welcome: Welcome,
) -> bool {
    match step {
        Step::Perform(f, Effect::CreateSession { session: s }) => {
            &&& s.user_id == user_id && s.platform == kind
            &&& micros_in_range(s.created_at) && s.expires_at == s.created_at + SESSION_LIFETIME_MICROS
            &&& s.last_active_at == s.created_at
            &&& exists|x: u128| is_hash_of(#[trigger] uuid_text(x), s.refresh_token_hash@)
            &&& match f.stage {
                LoginStage::AwaitCreate { user_id: u, platform: p, session_id: sid, rt_hash: h, welcome: w } =>
                    u == user_id && p == platform && sid == s.id && h@ == s.refresh_token_hash@ && w == welcome,
                _ => false,
            }
        },
        _ => false,
    }
}

/// Issuing the tokens of an opened session and announcing it: both tokens
/// carry the user, session and platform, and the welcome event is published.
pub open spec fn issues_tokens(
    step: Step<LoginFlow, LoginResult>,
    secret: Seq<char>,
    user_id: u128,
    platform: String,
    session_id: u128,
    welcome: Welcome,
) -> bool {
    match step {
        Step::Perform(f, Effect::Publish { event }) => {
            &&& match f.stage {
                LoginStage::AwaitPublish { result } => {
                    &&& result.user_id == user_id && result.expires_in == EXPIRES_IN_SECS
                    &&& token_carries(secret, result.access_token@, user_id, session_id, platform@, ACCESS_TOKEN_SECS)
                    &&& token_carries(secret, result.refresh_token@, user_id, session_id, platform@, REFRESH_TOKEN_SECS)
                },
                _ => false,
            }
            &&& match (welcome, event) {
                (Welcome::LoggedIn, AuthEvent::UserLoggedIn { user_id: u, session_id: s, platform: p, timestamp: t }) =>
                    u == user_id && s == session_id && p@ == platform@ && micros_in_range(t),
                (Welcome::Registered { email }, AuthEvent::UserRegistered { user_id: u, email: m, timestamp: t }) =>
                    u == user_id && m@ == email@ && micros_in_range(t),
                _ => false,
            }
        },
        _ => false,
    }
}

/// Every step a login flow may take from `stage` on `reply` when a
/// registration code is checked at the instant `now`.
pub open spec fn login_resumes_at(
    stage: LoginStage,
    reply: Reply,
    secret: Seq<char>,
    now: i64,
    step: Step<LoginFlow, LoginResult>,
) -> bool {
    match stage {
        LoginStage::AwaitUser { password, platform } => match reply {
            Reply::User(Err(e)) => step == Step::<LoginFlow, LoginResult>::Finish(Err(e)),
            Reply::User(Ok(user)) => if user.password_hash@.len() == 0 {
                step == Step::<LoginFlow, LoginResult>::Finish(Err(AuthError::InvalidCredentials))
            } else {
                match verify_outcome(password@, user.password_hash@) {
                    Err(e) => step == Step::<LoginFlow, LoginResult>::Finish(Err(e)),
                    Ok(false) => step == Step::<LoginFlow, LoginResult>::Finish(Err(AuthError::InvalidCredentials)),
                    Ok(true) => begins_login(step, user.user_id, platform),
                }
            },
            _ => false,
        },
        LoginStage::AwaitVerification { email, code, platform, kind, password_hash, nickname } => match reply {
            Reply::Verification(Some(Some(v))) => if v.code@ == code@ && now <= v.expires_at {
                step matches Step::Perform(f, Effect::DeleteVerificationsByEmail { email: m })
                    && m@ == email@
                    && f.stage == (LoginStage::AwaitCleanup { email, platform, kind, password_hash, nickname })
            } else {
                step == Step::<LoginFlow, LoginResult>::Finish(Err(AuthError::InvalidVerificationCode))
            },
            Reply::Verification(_) => step == Step::<LoginFlow, LoginResult>::Finish(Err(AuthError::InvalidVerificationCode)),
            _ => false,
        },
        LoginStage::AwaitCleanup { email, platform, kind, password_hash, nickname } => match reply {
            Reply::Stored(_) => step matches Step::Perform(f, Effect::RegisterUser { email: m, password_hash: h, nickname: n })
                && m@ == email@ && h@ == password_hash@ && n@ == nickname@
                && f.stage == (LoginStage::AwaitRegistration { email, platform, kind }),
            _ => false,
        },
        LoginStage::AwaitRegistration { email, platform, kind } => match reply {
            Reply::UserId(Err(e)) => step == Step::<LoginFlow, LoginResult>::Finish(Err(e)),
            Reply::UserId(Ok(uid)) => opens_session(step, uid, platform, kind, Welcome::Registered { email }),
            _ => false,
        },
        LoginStage::AwaitCount { user_id, platform, kind } => match reply {
            Reply::Count(None) => step == Step::<LoginFlow, LoginResult>::Finish(Err(AuthError::SessionNotFound)),
            Reply::Count(Some(n)) => if n >= MAX_SESSIONS_PER_PLATFORM {
                step matches Step::Perform(f, Effect::FindSessionsByUserAndPlatform { user_id: u, platform: p })
                    && u == user_id && p@ == platform@
                    && f.stage == (LoginStage::AwaitOldest { user_id, platform, kind })
            } else {
                opens_session(step, user_id, platform, kind, Welcome::LoggedIn)
            },
            _ => false,
        },
        LoginStage::AwaitOldest { user_id, platform, kind } => match reply {
            Reply::Sessions(None) => step == Step::<LoginFlow, LoginResult>::Finish(Err(AuthError::SessionNotFound)),
            Reply::Sessions(Some(list)) => if list@.len() > 0 {
                step matches Step::Perform(f, Effect::DeleteSession { session_id })
                    && session_id == list@.last().id
                    && f.stage == (LoginStage::AwaitEviction { user_id, platform, kind })
            } else {
                opens_session(step, user_id, platform, kind, Welcome::LoggedIn)
            },
            _ => false,
        },
        LoginStage::AwaitEviction { user_id, platform, kind } => match reply {
            Reply::Stored(_) => opens_session(step, user_id, platform, kind, Welcome::LoggedIn),
            _ => false,
        },
        LoginStage::AwaitCreate { user_id, platform, session_id, rt_hash, welcome } => match reply {
            Reply::Stored(false) => step == Step::<LoginFlow, LoginResult>::Finish(Err(AuthError::SessionNotFound)),
            Reply::Stored(true) => step matches Step::Perform(f, Effect::StoreRefreshToken { user_id: u, session_id: s, token_hash: h })
                && u == user_id && s == session_id && h@ == rt_hash@
                && f.stage == (LoginStage::AwaitStore { user_id, platform, session_id, welcome }),
            _ => false,
        },
        LoginStage::AwaitStore { user_id, platform, session_id, welcome } => match reply {
            Reply::Stored(false) => step == Step::<LoginFlow, LoginResult>::Finish(Err(AuthError::SessionNotFound)),
            Reply::Stored(true) => issues_tokens(step, secret, user_id, platform, session_id, welcome),
            _ => false,
        },
        LoginStage::AwaitPublish { result } => match reply {
            Reply::Published => step == Step::<LoginFlow, LoginResult>::Finish(Ok(result)),
            _ => false,
        },
    }
}

// ---- the flow --------------------------------------------------------------

impl LoginFlow {
    /// Full login: look the user up by e-mail, check the password, then open
    /// a session on the platform and issue tokens.
    pub fn with_email(email: &str, password: &str, platform: &str) -> (step: Step<LoginFlow, LoginResult>)
        ensures
            login_coherent(step),
            match step {
                Step::Perform(f, Effect::GetUserByEmail { email: m }) => {
                    &&& m@ == email@
                    &&& match f.stage {
                        LoginStage::AwaitUser { password: pw, platform: p } => pw@ == password@ && p@ == platform@,
                        _ => false,
                    }
                },
                _ => false,
            },
    {
        Step::Perform(
            LoginFlow {
                stage: LoginStage::AwaitUser { password: to_owned_string(password), platform: to_owned_string(platform) },
            },
            Effect::GetUserByEmail { email: to_owned_string(email) },
        )
    }

    /// Login of a user whose password the caller has already checked.
    pub fn for_user(user_id: u128, platform: &str) -> (step: Step<LoginFlow, LoginResult>)
        ensures
            login_coherent(step),
            exists|p: String| p@ == platform@ && begins_login(step, user_id, p),
    {
        let p = to_owned_string(platform);
        let ghost gp = p;
        let step = Self::begin(user_id, p);
        proof {
            assert(begins_login(step, user_id, gp));
        }
        step
    }

    /// Completes a registration: check the e-mail code, create the user with
    /// the account service, then open a session and issue tokens.
    pub fn verify_email(
        email: &str,
        code: &str,
        platform: &str,
        password_hash: &str,
        nickname: &str,
    ) -> (step: Step<LoginFlow, LoginResult>)
        ensures
            login_coherent(step),
            platform_named(platform@) is None ==> step == Step::<LoginFlow, LoginResult>::Finish(Err(AuthError::InvalidCredentials)),
            platform_named(platform@) matches Some(kind) ==> match step {
                Step::Perform(f, Effect::FindVerification { email: m, purpose: pu }) => {
                    &&& m@ == email@ && pu@ == "registration"@
                    &&& match f.stage {
                        LoginStage::AwaitVerification { email: m2, code: c, platform: p, kind: k, password_hash: h, nickname: n } =>
                            m2@ == email@ && c@ == code@ && p@ == platform@ && k == kind && h@ == password_hash@ && n@ == nickname@,
                        _ => false,
                    }
                },
                _ => false,
            },
    {
        match Platform::from_str(platform) {
            None => Step::Finish(Err(AuthError::InvalidCredentials)),
            Some(kind) => Step::Perform(
                LoginFlow {
                    stage: LoginStage::AwaitVerification {
                        email: to_owned_string(email),
                        code: to_owned_string(code),
                        platform: to_owned_string(platform),
                        kind,
                        password_hash: to_owned_string(password_hash),
                        nickname: to_owned_string(nickname),
                    },
                },
                Effect::FindVerification { email: to_owned_string(email), purpose: to_owned_string("registration") },
            ),
        }
    }

    fn begin(user_id: u128, platform: String) -> (step: Step<LoginFlow, LoginResult>)
        ensures
            login_coherent(step),
            begins_login(step, user_id, platform),
    {
        match Platform::from_str(platform.as_str()) {
            None => Step::Finish(Err(AuthError::InvalidCredentials)),
            Some(kind) => {
                let v = chars_of(platform.as_str());
                let p2 = string_from_chars(v.as_slice());
                Step::Perform(
                    LoginFlow { stage: LoginStage::AwaitCount { user_id, platform, kind } },
                    Effect::CountSessions { user_id, platform: p2 },
                )
            },
        }
    }

    fn open_session(user_id: u128, platform: String, kind: Platform, welcome: Welcome) -> (step: Step<LoginFlow, LoginResult>)
        ensures
            login_coherent(step),
            opens_session(step, user_id, platform, kind, welcome),
    {
        let secret_id = new_uuid_v7();
        let secret = uuid_string(secret_id);
        proof {
            lemma_utf8_len_bound(secret@);
            assert(secret@.len() == 36);
        }
        let rt_hash = match PasswordService::hash(secret.as_str()) {
            Ok(h) => h,
            Err(e) => return Step::Finish(Err(e)),
        };
        let rt_copy = rt_hash.clone();
        let session = AuthSession::new(user_id, kind, rt_hash);
        let session_id = session.id;
        proof {
            assert(is_hash_of(uuid_text(secret_id), session.refresh_token_hash@));
        }
        Step::Perform(
            LoginFlow {
                stage: LoginStage::AwaitCreate { user_id, platform, session_id, rt_hash: rt_copy, welcome },
            },
            Effect::CreateSession { session },
        )
    }

    fn issue(jwt: &JwtService, user_id: u128, platform: String, session_id: u128, welcome: Welcome) -> (step: Step<LoginFlow, LoginResult>)
        ensures
            login_coherent(step),
            issues_tokens(step, jwt@, user_id, platform, session_id, welcome),
    {
        let access_token = match jwt.issue_access_token(user_id, session_id, platform.as_str()) {
            Ok(t) => t,
            Err(e) => return Step::Finish(Err(e)),
        };
        let refresh_token = match jwt.issue_refresh_token(user_id, session_id, platform.as_str()) {
            Ok(t) => t,
            Err(e) => return Step::Finish(Err(e)),
        };
        let timestamp = now_micros();
        let event = match welcome {
            Welcome::LoggedIn => AuthEvent::UserLoggedIn { user_id, session_id, platform, timestamp },
            Welcome::Registered { email } => AuthEvent::UserRegistered { user_id, email, timestamp },
        };
        let result = LoginResult { access_token, refresh_token, user_id, expires_in: EXPIRES_IN_SECS };
        Step::Perform(
            LoginFlow { stage: LoginStage::AwaitPublish { result } },
            Effect::Publish { event },
        )
    }

    /// The reply the flow waits for.
    pub fn awaiting(&self) -> (k: ReplyKind)
        ensures
            k == login_awaits(self.stage),
    {
        match self.stage {
            LoginStage::AwaitUser { .. } => ReplyKind::User,
            LoginStage::AwaitVerification { .. } => ReplyKind::Verification,
            LoginStage::AwaitCleanup { .. } => ReplyKind::Stored,
            LoginStage::AwaitRegistration { .. } => ReplyKind::UserId,
            LoginStage::AwaitCount { .. } => ReplyKind::Count,
            LoginStage::AwaitOldest { .. } => ReplyKind::Sessions,
            LoginStage::AwaitEviction { .. } => ReplyKind::Stored,
            LoginStage::AwaitCreate { .. } => ReplyKind::Stored,
            LoginStage::AwaitStore { .. } => ReplyKind::Stored,
            LoginStage::AwaitPublish { .. } => ReplyKind::Published,
        }
    }

    /// Resumes the flow with the reply to the effect it asked for, at the
    /// current time.
    pub fn resume(self, reply: Reply, jwt: &JwtService) -> (step: Step<LoginFlow, LoginResult>)
        requires
            kind_of_reply(reply) == login_awaits(self.stage),
        ensures
            login_coherent(step),
            exists|now: i64| micros_in_range(now) && #[trigger] login_resumes_at(self.stage, reply, jwt@, now, step),
    {
        let ghost stage = self.stage;
        let now = now_micros();
        let step = self.resume_at(reply, jwt, now);
        proof {
            assert(login_resumes_at(stage, reply, jwt@, now, step));
        }
        step
    }

    /// Resumes the flow with the reply to the effect it asked for, taking
    /// `now` (microseconds since the epoch) as the instant at which a
    /// registration code is checked.
    pub fn resume_at(self, reply: Reply, jwt: &JwtService, now: i64) -> (step: Step<LoginFlow, LoginResult>)
        requires
            kind_of_reply(reply) == login_awaits(self.stage),
        ensures
            login_coherent(step),
            login_resumes_at(self.stage, reply, jwt@, now, step),
    {
        let ghost stage = self.stage;
        match self.stage {
            LoginStage::AwaitUser { password, platform } => match reply {
                Reply::User(Err(e)) => Step::Finish(Err(e)),
                Reply::User(Ok(user)) => {
                    if user.password_hash.as_str().is_empty() {
                        return Step::Finish(Err(AuthError::InvalidCredentials));
                    }
                    match PasswordService::verify(password.as_str(), user.password_hash.as_str()) {
                        Err(e) => Step::Finish(Err(e)),
                        Ok(false) => Step::Finish(Err(AuthError::InvalidCredentials)),
                        Ok(true) => Self::begin(user.user_id, platform),
                    }
                },
                _ => Step::Finish(Err(AuthError::InvalidCredentials)),
            },
            LoginStage::AwaitVerification { email, code, platform, kind, password_hash, nickname } => match reply {
                Reply::Verification(Some(Some(v))) => {
                    if !v.verify_at(code.as_str(), now) {
                        return Step::Finish(Err(AuthError::InvalidVerificationCode));
                    }
                    let m = to_owned_string(email.as_str());
                    Step::Perform(
                        LoginFlow {
                            stage: LoginStage::AwaitCleanup { email, platform, kind, password_hash, nickname },
                        },
                        Effect::DeleteVerificationsByEmail { email: m },
                    )
                },
                _ => Step::Finish(Err(AuthError::InvalidVerificationCode)),
            },
            LoginStage::AwaitCleanup { email, platform, kind, password_hash, nickname } => {
                let effect = Effect::RegisterUser {
                    email: to_owned_string(email.as_str()),
                    password_hash,
                    nickname,
                };
                Step::Perform(
                    LoginFlow { stage: LoginStage::AwaitRegistration { email, platform, kind } },
                    effect,
                )
            },
            LoginStage::AwaitRegistration { email, platform, kind } => match reply {
                Reply::UserId(Ok(uid)) => Self::open_session(uid, platform, kind, Welcome::Registered { email }),
                Reply::UserId(Err(e)) => Step::Finish(Err(e)),
                _ => Step::Finish(Err(AuthError::AccountNotFound)),
            },
            LoginStage::AwaitCount { user_id, platform, kind } => match reply {
                Reply::Count(Some(n)) => {
                    if n >= MAX_SESSIONS_PER_PLATFORM {
                        let p = to_owned_string(platform.as_str());
                        Step::Perform(
                            LoginFlow { stage: LoginStage::AwaitOldest { user_id, platform, kind } },
                            Effect::FindSessionsByUserAndPlatform { user_id, platform: p },
                        )
                    } else {
                        Self::open_session(user_id, platform, kind, Welcome::LoggedIn)
                    }
                },
                _ => Step::Finish(Err(AuthError::SessionNotFound)),
            },
            LoginStage::AwaitOldest { user_id, platform, kind } => match reply {
                Reply::Sessions(Some(list)) => {
                    if list.len() > 0 {
                        let oldest = list[list.len() - 1].id;
                        Step::Perform(
                            LoginFlow { stage: LoginStage::AwaitEviction { user_id, platform, kind } },
                            Effect::DeleteSession { session_id: oldest },
                        )
                    } else {
                        Self::open_session(user_id, platform, kind, Welcome::LoggedIn)
                    }
                },
                _ => Step::Finish(Err(AuthError::SessionNotFound)),
            },
            LoginStage::AwaitEviction { user_id, platform, kind } => Self::open_session(user_id, platform, kind, Welcome::LoggedIn),
            LoginStage::AwaitCreate { user_id, platform, session_id, rt_hash, welcome } => match reply {
                Reply::Stored(true) => Step::Perform(
                    LoginFlow { stage: LoginStage::AwaitStore { user_id, platform, session_id, welcome } },
                    Effect::StoreRefreshToken { user_id, session_id, token_hash: rt_hash },
                ),
                _ => Step::Finish(Err(AuthError::SessionNotFound)),
            },
            LoginStage::AwaitStore { user_id, platform, session_id, welcome } => match reply {
                Reply::Stored(true) => Self::issue(jwt, user_id, platform, session_id, welcome),
                _ => Step::Finish(Err(AuthError::SessionNotFound)),
            },
            LoginStage::AwaitPublish { result } => Step::Finish(Ok(result)),
        }
    }
}

} // verus!
