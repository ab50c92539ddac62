//! The conversation between the authentication service and its stores.
//!
//! Each operation of the service is a flow: a state machine that, step by
//! step, asks for one effect (a store query, a call to the account service,
//! an e-mail, an event) and is resumed with the reply, until it finishes
//! with the operation's result. The runner performs the effects; every
//! decision is taken here.

use vstd::prelude::*;
use crate::account_client::UserInfo;
use crate::account_deletion::AccountDeletion;
use crate::email_verification::EmailVerification;
use crate::error::AuthError;
use crate::events::AuthEvent;
use crate::session::AuthSession;

verus! {

/// Whatever the runner is asked to do.
#[derive(Debug)]
pub enum Effect {
    GetUserByEmail { email: String },
    RegisterUser { email: String, password_hash: String, nickname: String },
    CountSessions { user_id: u128, platform: String },
    FindSessionsByUserAndPlatform { user_id: u128, platform: String },
    FindSessionsByUser { user_id: u128 },
    FindSession { session_id: u128 },
    CreateSession { session: AuthSession },
    DeleteSession { session_id: u128 },
    DeleteSessionsByUser { user_id: u128 },
    DeleteSessionsByUserExcept { user_id: u128, keep_session_id: u128 },
    StoreRefreshToken { user_id: u128, session_id: u128, token_hash: String },
    IsRefreshTokenBlacklisted { token_hash: String },
    RotateRefreshToken { old_hash: String, new_hash: String },
    DeleteRefreshTokensByUser { user_id: u128 },
    CreateVerification { verification: EmailVerification },
    FindVerification { email: String, purpose: String },
    DeleteVerificationsByEmail { email: String },
    FindDeletion { user_id: u128 },
    CreateDeletion { deletion: AccountDeletion },
    UpdateDeletion { deletion: AccountDeletion },
    SendVerificationCode { to: String, code: String, purpose: String },
    Publish { event: AuthEvent },
    FindDueDeletions { now: i64 },
    NotifyAccountDeleted { user_id: u128, deleted_at: String },
    UpdatePasswordHash { user_id: u128, password_hash: String },
    DeleteDeletionRecord { user_id: u128 },
}

/// The shape of the reply an effect is answered with.
#[derive(Debug, Clone, Copy, PartialEq, Eq, Structural)]
pub enum ReplyKind {
    User,
    UserId,
    Count,
    Sessions,
    Session,
    Stored,
    Flag,
    Verification,
    Deletion,
    Mail,
    Published,
    DueDeletions,
    Notified,
    Updated,
}

/// The runner's answer to an effect. A store query that failed is answered
/// with `None` (or `Stored(false)`).
#[derive(Debug)]
pub enum Reply {
    User(Result<UserInfo, AuthError>),
    UserId(Result<u128, AuthError>),
    Count(Option<i64>),
    Sessions(Option<Vec<AuthSession>>),
    Session(Option<Option<AuthSession>>),
    Stored(bool),
    Flag(Option<bool>),
    Verification(Option<Option<EmailVerification>>),
    Deletion(Option<Option<AccountDeletion>>),
    Mail(Result<(), AuthError>),
    Published,
    DueDeletions(Option<Vec<DueDeletion>>),
    Notified(Result<(), AuthError>),
    Updated(Result<(), AuthError>),
}

/// A confirmed deletion whose cooldown is over, as the store lists it.
#[derive(Debug, Clone, Copy)]
pub struct DueDeletion {
    pub user_id: u128,
    pub soft_deleted_at: Option<i64>,
    pub permanent_delete_at: Option<i64>,
}

/// The reply each effect expects.
pub open spec fn reply_kind_of(e: Effect) -> ReplyKind {
    match e {
        Effect::GetUserByEmail { .. } => ReplyKind::User,
        Effect::RegisterUser { .. } => ReplyKind::UserId,
        Effect::CountSessions { .. } => ReplyKind::Count,
        Effect::FindSessionsByUserAndPlatform { .. } => ReplyKind::Sessions,
        Effect::FindSessionsByUser { .. } => ReplyKind::Sessions,
        Effect::FindSession { .. } => ReplyKind::Session,
        Effect::IsRefreshTokenBlacklisted { .. } => ReplyKind::Flag,
        Effect::FindVerification { .. } => ReplyKind::Verification,
        Effect::FindDeletion { .. } => ReplyKind::Deletion,
        Effect::SendVerificationCode { .. } => ReplyKind::Mail,
        Effect::Publish { .. } => ReplyKind::Published,
        Effect::FindDueDeletions { .. } => ReplyKind::DueDeletions,
        Effect::NotifyAccountDeleted { .. } => ReplyKind::Notified,
        Effect::UpdatePasswordHash { .. } => ReplyKind::Updated,
        _ => ReplyKind::Stored,
    }
}

/// The shape of a reply.
pub open spec fn kind_of_reply(r: Reply) -> ReplyKind {
    match r {
        Reply::User(_) => ReplyKind::User,
        Reply::UserId(_) => ReplyKind::UserId,
        Reply::Count(_) => ReplyKind::Count,
        Reply::Sessions(_) => ReplyKind::Sessions,
        Reply::Session(_) => ReplyKind::Session,
        Reply::Stored(_) => ReplyKind::Stored,
        Reply::Flag(_) => ReplyKind::Flag,
        Reply::Verification(_) => ReplyKind::Verification,
        Reply::Deletion(_) => ReplyKind::Deletion,
        Reply::Mail(_) => ReplyKind::Mail,
        Reply::Published => ReplyKind::Published,
        Reply::DueDeletions(_) => ReplyKind::DueDeletions,
        Reply::Notified(_) => ReplyKind::Notified,
        Reply::Updated(_) => ReplyKind::Updated,
    }
}

impl Effect {
    /// The reply this effect expects.
    pub fn reply_kind(&self) -> (k: ReplyKind)
        ensures
            k == reply_kind_of(*self),
    {
        match self {
            Effect::GetUserByEmail { .. } => ReplyKind::User,
            Effect::RegisterUser { .. } => ReplyKind::UserId,
            Effect::CountSessions { .. } => ReplyKind::Count,
            Effect::FindSessionsByUserAndPlatform { .. } => ReplyKind::Sessions,
            Effect::FindSessionsByUser { .. } => ReplyKind::Sessions,
            Effect::FindSession { .. } => ReplyKind::Session,
            Effect::IsRefreshTokenBlacklisted { .. } => ReplyKind::Flag,
            Effect::FindVerification { .. } => ReplyKind::Verification,
            Effect::FindDeletion { .. } => ReplyKind::Deletion,
            Effect::SendVerificationCode { .. } => ReplyKind::Mail,
            Effect::Publish { .. } => ReplyKind::Published,
            Effect::FindDueDeletions { .. } => ReplyKind::DueDeletions,
            Effect::NotifyAccountDeleted { .. } => ReplyKind::Notified,
            Effect::UpdatePasswordHash { .. } => ReplyKind::Updated,
            _ => ReplyKind::Stored,
        }
    }
}

impl Reply {
    /// The shape of this reply.
    pub fn kind(&self) -> (k: ReplyKind)
        ensures
            k == kind_of_reply(*self),
    {
        match self {
            Reply::User(_) => ReplyKind::User,
            Reply::UserId(_) => ReplyKind::UserId,
            Reply::Count(_) => ReplyKind::Count,
            Reply::Sessions(_) => ReplyKind::Sessions,
            Reply::Session(_) => ReplyKind::Session,
            Reply::Stored(_) => ReplyKind::Stored,
            Reply::Flag(_) => ReplyKind::Flag,
            Reply::Verification(_) => ReplyKind::Verification,
            Reply::Deletion(_) => ReplyKind::Deletion,
            Reply::Mail(_) => ReplyKind::Mail,
            Reply::Published => ReplyKind::Published,
            Reply::DueDeletions(_) => ReplyKind::DueDeletions,
            Reply::Notified(_) => ReplyKind::Notified,
            Reply::Updated(_) => ReplyKind::Updated,
        }
    }
}

/// One step of a flow: perform an effect and resume the flow `M` with its
/// reply, or finish with the operation's result.
pub enum Step<M, T> {
    Perform(M, Effect),
    Finish(Result<T, AuthError>),
}

} // verus!
