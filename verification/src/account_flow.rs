//! Flows that end without a value: logging out, registering (sending the
//! code), changing the password or the e-mail address, and the three steps
//! of deleting an account.

use vstd::prelude::*;
use crate::account_deletion::{spec_is_soft_deleted, AccountDeletion, COOLDOWN_MICROS};
use crate::email_verification::{is_verification_code, EmailVerification, VerificationPurpose, CODE_VALIDITY_MICROS};
use crate::error::AuthError;
use crate::events::AuthEvent;
use crate::flow::{kind_of_reply, reply_kind_of, Effect, Reply, ReplyKind, Step};
use crate::ids::{new_uuid_v7, uuid_string, uuid_text};
use crate::password::{byte_len, is_hash_of, PasswordService, MAX_PASSWORD_BYTES};
use crate::text::{chars_of, string_from_chars, to_owned_string};
use crate::time::{micros_in_range, now_micros};

verus! {

/// Where an account flow stands.
#[derive(Debug)]
pub enum AccountStage {
    /// Logout: waits for the session, to learn its user.
    AwaitLookup { session_id: u128 },
    /// Logout: waits for the session to be deleted.
    AwaitLogoutDelete { session_id: u128, user_id: u128 },
    /// Logout: waits for the event to be published.
    AwaitLogoutPublish,
    /// Waits for all sessions of the user to be deleted.
    AwaitSessionsPurge { user_id: u128 },
    /// Waits for all refresh tokens of the user to be deleted.
    AwaitTokensPurge,
    /// Waits for all other sessions of the user to be deleted.
    AwaitOthersPurge,
    /// Password change: waits for the account service to store the new hash.
    AwaitPasswordUpdate { user_id: u128, current_session_id: u128 },
    /// Registration: waits to learn whether the address is taken.
    AwaitExistingUser { email: String },
    /// Waits for a verification code to be stored.
    AwaitVerificationStored { email: String, code: String, purpose: String },
    /// Waits for a verification e-mail to be sent.
    AwaitMail,
    /// Deletion request: waits for an earlier request of the user.
    AwaitPriorDeletion { user_id: u128, email: String },
    /// Deletion request: waits for the new request to be stored.
    AwaitDeletionStored { email: String, code: String },
    /// Deletion confirmation: waits for the request.
    AwaitDeletionToConfirm { user_id: u128, code: String },
    /// Deletion confirmation: waits for the confirmed request to be stored.
    AwaitConfirmedStored { user_id: u128 },
    /// Deletion cancellation: waits for the request.
    AwaitDeletionToCancel { user_id: u128 },
    /// Deletion cancellation: waits for the cancelled request to be stored.
    AwaitCancelledStored,
}

/// An account operation in progress.
pub struct AccountFlow {
    pub stage: AccountStage,
}

pub type AccountStep = Step<AccountFlow, ()>;

/// The reply an account flow waits for at each stage.
pub open spec fn account_awaits(stage: AccountStage) -> ReplyKind {
    match stage {
        AccountStage::AwaitLookup { .. } => ReplyKind::Session,
        AccountStage::AwaitLogoutPublish => ReplyKind::Published,
        AccountStage::AwaitExistingUser { .. } => ReplyKind::User,
        AccountStage::AwaitMail => ReplyKind::Mail,
        AccountStage::AwaitPriorDeletion { .. } => ReplyKind::Deletion,
        AccountStage::AwaitDeletionToConfirm { .. } => ReplyKind::Deletion,
        AccountStage::AwaitDeletionToCancel { .. } => ReplyKind::Deletion,
        AccountStage::AwaitPasswordUpdate { .. } => ReplyKind::Updated,
        _ => ReplyKind::Stored,
    }
}

/// A step that asks for an effect leaves the flow waiting for the kind of
/// reply that effect is answered with.
pub open spec fn account_coherent(step: AccountStep) -> bool {
    match step {
        Step::Perform(f, e) => reply_kind_of(e) == account_awaits(f.stage),
        Step::Finish(_) => true,
    }
}

pub open spec fn fails(step: AccountStep, e: AuthError) -> bool {
    step == Step::<AccountFlow, ()>::Finish(Err(e))
}

pub open spec fn succeeds(step: AccountStep) -> bool {
    step == Step::<AccountFlow, ()>::Finish(Ok(()))
}

/// Deleting all sessions and then all refresh tokens of a user.
pub open spec fn purges_user(step: AccountStep, user_id: u128) -> bool {
    match step {
        Step::Perform(f, Effect::DeleteSessionsByUser { user_id: u }) =>
            u == user_id && f.stage == (AccountStage::AwaitSessionsPurge { user_id }),
        _ => false,
    }
}

/// Deleting every session of a user but one.
pub open spec fn purges_others(step: AccountStep, user_id: u128, keep: u128) -> bool {
    match step {
        Step::Perform(f, Effect::DeleteSessionsByUserExcept { user_id: u, keep_session_id: k }) =>
            u == user_id && k == keep && f.stage == AccountStage::AwaitOthersPurge,
        _ => false,
    }
}

/// Storing a verification of `email` for `purpose`, with a fresh code.
pub open spec fn stores_code(step: AccountStep, email: Seq<char>, purpose: VerificationPurpose, purpose_text: Seq<char>) -> bool {
    match step {
        Step::Perform(f, Effect::CreateVerification { verification: v }) => {
            &&& v.email@ == email && v.purpose == purpose && is_verification_code(v.code@)
            &&& micros_in_range(v.created_at) && v.expires_at == v.created_at + CODE_VALIDITY_MICROS
            &&& match f.stage {
                AccountStage::AwaitVerificationStored { email: m, code: c, purpose: p } =>
                    m@ == email && c@ == v.code@ && p@ == purpose_text,
                _ => false,
            }
        },
        _ => false,
    }
}

/// Sending the verification code to an address.
pub open spec fn sends_code(step: AccountStep, to: Seq<char>, code: Seq<char>, purpose: Seq<char>) -> bool {
    match step {
        Step::Perform(f, Effect::SendVerificationCode { to: t, code: c, purpose: p }) =>
            t@ == to && c@ == code && p@ == purpose && f.stage == AccountStage::AwaitMail,
        _ => false,
    }
}

/// Every step an account flow may take from `stage` on `reply`.
pub open spec fn account_resumes(stage: AccountStage, reply: Reply, step: AccountStep) -> bool {
    match stage {
        AccountStage::AwaitLookup { session_id } => match reply {
            Reply::Session(found) => {
                let user_id = match found {
                    Some(Some(s)) => s.user_id,
                    _ => 0u128,
                };
                match step {
                    Step::Perform(f, Effect::DeleteSession { session_id: s }) =>
                        s == session_id && f.stage == (AccountStage::AwaitLogoutDelete { session_id, user_id }),
                    _ => false,
                }
            },
            _ => false,
        },
        AccountStage::AwaitLogoutDelete { session_id, user_id } => match reply {
            Reply::Stored(false) => fails(step, AuthError::SessionNotFound),
            Reply::Stored(true) => match step {
                Step::Perform(f, Effect::Publish { event: AuthEvent::UserLoggedOut { user_id: u, session_id: s, timestamp: t } }) =>
                    u == user_id && s == session_id && micros_in_range(t) && f.stage == AccountStage::AwaitLogoutPublish,
                _ => false,
            },
            _ => false,
        },
        AccountStage::AwaitLogoutPublish => succeeds(step),
        AccountStage::AwaitSessionsPurge { user_id } => match reply {
            Reply::Stored(false) => fails(step, AuthError::SessionNotFound),
            Reply::Stored(true) => match step {
                Step::Perform(f, Effect::DeleteRefreshTokensByUser { user_id: u }) =>
                    u == user_id && f.stage == AccountStage::AwaitTokensPurge,
                _ => false,
            },
            _ => false,
        },
        AccountStage::AwaitTokensPurge => match reply {
            Reply::Stored(false) => fails(step, AuthError::SessionNotFound),
            Reply::Stored(true) => succeeds(step),
            _ => false,
        },
        AccountStage::AwaitPasswordUpdate { user_id, current_session_id } => match reply {
            Reply::Updated(Err(e)) => fails(step, e),
            Reply::Updated(Ok(())) => purges_others(step, user_id, current_session_id),
            _ => false,
        },
        AccountStage::AwaitOthersPurge => match reply {
            Reply::Stored(false) => fails(step, AuthError::SessionNotFound),
            Reply::Stored(true) => succeeds(step),
            _ => false,
        },
        AccountStage::AwaitExistingUser { email } => match reply {
            Reply::User(Ok(_)) => fails(step, AuthError::EmailAlreadyExists),
            Reply::User(Err(_)) => stores_code(step, email@, VerificationPurpose::Registration, "registration"@),
            _ => false,
        },
        AccountStage::AwaitVerificationStored { email, code, purpose } => match reply {
            Reply::Stored(false) => fails(step, AuthError::EmailAlreadyExists),
            Reply::Stored(true) => sends_code(step, email@, code@, purpose@),
            _ => false,
        },
        AccountStage::AwaitMail => match reply {
            Reply::Mail(Err(e)) => fails(step, e),
            Reply::Mail(Ok(())) => succeeds(step),
            _ => false,
        },
        AccountStage::AwaitPriorDeletion { user_id, email } => match reply {
            Reply::Deletion(Some(Some(d))) if !d.cancelled => fails(step, AuthError::AccountDeletionAlreadyInProgress),
            Reply::Deletion(_) => match step {
                Step::Perform(f, Effect::CreateDeletion { deletion: d }) => {
                    &&& d.user_id == user_id && !d.cancelled
                    &&& d.soft_deleted_at is None && d.permanent_delete_at is None
                    &&& micros_in_range(d.requested_at)
                    &&& exists|x: u128| d.confirmation_code@ == #[trigger] uuid_text(x).take(6)
                    &&& match f.stage {
                        AccountStage::AwaitDeletionStored { email: m, code: c } =>
                            m == email && c@ == d.confirmation_code@,
                        _ => false,
                    }
                },
                _ => false,
            },
            _ => false,
        },
        AccountStage::AwaitDeletionStored { email, code } => match reply {
            Reply::Stored(false) => fails(step, AuthError::AccountDeletionNotFound),
            Reply::Stored(true) => sends_code(step, email@, code@, "account_deletion"@),
            _ => false,
        },
        AccountStage::AwaitDeletionToConfirm { user_id, code } => match reply {
            Reply::Deletion(Some(Some(d))) => if d.confirmation_code@ != code@ {
                fails(step, AuthError::InvalidVerificationCode)
            } else {
                match step {
                    Step::Perform(f, Effect::UpdateDeletion { deletion: c }) => {
                        &&& c.user_id == d.user_id && c.confirmation_code@ == d.confirmation_code@
                        &&& c.requested_at == d.requested_at && c.cancelled == d.cancelled
                        &&& exists|now: i64| micros_in_range(now) && c.soft_deleted_at == Some(now)
                            && c.permanent_delete_at == Some((now + COOLDOWN_MICROS) as i64)
                        &&& f.stage == (AccountStage::AwaitConfirmedStored { user_id })
                    },
                    _ => false,
                }
            },
            Reply::Deletion(_) => fails(step, AuthError::AccountDeletionNotFound),
            _ => false,
        },
        AccountStage::AwaitConfirmedStored { user_id } => match reply {
            Reply::Stored(false) => fails(step, AuthError::AccountDeletionNotFound),
            Reply::Stored(true) => purges_user(step, user_id),
            _ => false,
        },
        AccountStage::AwaitDeletionToCancel { user_id } => match reply {
            Reply::Deletion(Some(Some(d))) => if !spec_is_soft_deleted(d) {
                fails(step, AuthError::AccountDeletionNotFound)
            } else {
                match step {
                    Step::Perform(f, Effect::UpdateDeletion { deletion: c }) => {
                        &&& c.user_id == d.user_id && c.confirmation_code@ == d.confirmation_code@
                        &&& c.requested_at == d.requested_at && c.cancelled
                        &&& c.soft_deleted_at is None && c.permanent_delete_at is None
                        &&& f.stage == AccountStage::AwaitCancelledStored
                    },
                    _ => false,
                }
            },
            Reply::Deletion(_) => fails(step, AuthError::AccountDeletionNotFound),
            _ => false,
        },
        AccountStage::AwaitCancelledStored => match reply {
            Reply::Stored(false) => fails(step, AuthError::AccountDeletionNotFound),
            Reply::Stored(true) => succeeds(step),
            _ => false,
        },
    }
}

impl AccountFlow {
    /// The reply the flow waits for.
    pub fn awaiting(&self) -> (k: ReplyKind)
        ensures
            k == account_awaits(self.stage),
    {
        match self.stage {
            AccountStage::AwaitLookup { .. } => ReplyKind::Session,
            AccountStage::AwaitLogoutPublish => ReplyKind::Published,
            AccountStage::AwaitExistingUser { .. } => ReplyKind::User,
            AccountStage::AwaitMail => ReplyKind::Mail,
            AccountStage::AwaitPriorDeletion { .. } => ReplyKind::Deletion,
            AccountStage::AwaitDeletionToConfirm { .. } => ReplyKind::Deletion,
            AccountStage::AwaitDeletionToCancel { .. } => ReplyKind::Deletion,
            AccountStage::AwaitPasswordUpdate { .. } => ReplyKind::Updated,
            _ => ReplyKind::Stored,
        }
    }

    /// Ends a session: its user is looked up (for the event), the session is
    /// deleted and a logout event is published.
    pub fn logout(session_id: u128) -> (step: AccountStep)
        ensures
            account_coherent(step),
            match step {
                Step::Perform(f, Effect::FindSession { session_id: s }) =>
                    s == session_id && f.stage == (AccountStage::AwaitLookup { session_id }),
                _ => false,
            },
    {
        Step::Perform(AccountFlow { stage: AccountStage::AwaitLookup { session_id } }, Effect::FindSession { session_id })
    }

    /// Ends every session of a user and forgets the user's refresh tokens.
    pub fn logout_all(user_id: u128) -> (step: AccountStep)
        ensures
            account_coherent(step),
            purges_user(step, user_id),
    {
        Step::Perform(AccountFlow { stage: AccountStage::AwaitSessionsPurge { user_id } }, Effect::DeleteSessionsByUser { user_id })
    }

    /// Ends every session of a user but one.
    pub fn logout_all_except(user_id: u128, exclude_session_id: u128) -> (step: AccountStep)
        ensures
            account_coherent(step),
            match step {
                Step::Perform(f, Effect::DeleteSessionsByUserExcept { user_id: u, keep_session_id: k }) =>
                    u == user_id && k == exclude_session_id && f.stage == AccountStage::AwaitOthersPurge,
                _ => false,
            },
    {
        Step::Perform(
            AccountFlow { stage: AccountStage::AwaitOthersPurge },
            Effect::DeleteSessionsByUserExcept { user_id, keep_session_id: exclude_session_id },
        )
    }

    /// Starts a registration: a password of fewer than 8 characters is refused;
    /// an address that is already taken is refused; otherwise a code is
    /// stored and mailed.
    pub fn register(email: &str, password: &str, nickname: &str) -> (step: AccountStep)
        ensures
            account_coherent(step),
            password@.len() < 8 ==> fails(step, AuthError::WeakPassword),
            password@.len() >= 8 ==> match step {
                Step::Perform(f, Effect::GetUserByEmail { email: m }) => m@ == email@
                    && match f.stage {
                        AccountStage::AwaitExistingUser { email: m2 } => m2@ == email@,
                        _ => false,
                    },
                _ => false,
            },
    {
        if chars_of(password).len() < 8 {
            return Step::Finish(Err(AuthError::WeakPassword));
        }
        Step::Perform(
            AccountFlow { stage: AccountStage::AwaitExistingUser { email: to_owned_string(email) } },
            Effect::GetUserByEmail { email: to_owned_string(email) },
        )
    }

    /// Changes the password: a new password of fewer than 8 characters is
    /// refused; otherwise it is hashed, the account service is asked to store
    /// the new hash and then every other session of the user is ended.
    pub fn change_password(user_id: u128, current_session_id: u128, old_password: &str, new_password: &str) -> (step: AccountStep)
        ensures
            account_coherent(step),
            new_password@.len() < 8 ==> fails(step, AuthError::WeakPassword),
            new_password@.len() >= 8 ==> match step {
                Step::Finish(r) => byte_len(new_password) > MAX_PASSWORD_BYTES && r == Err::<(), AuthError>(AuthError::InvalidPassword),
                Step::Perform(f, Effect::UpdatePasswordHash { user_id: u, password_hash: h }) => {
                    &&& u == user_id && is_hash_of(new_password@, h@)
                    &&& f.stage == (AccountStage::AwaitPasswordUpdate { user_id, current_session_id })
                },
                _ => false,
            },
    {
        match PasswordService::hash(new_password) {
            Err(e) => Step::Finish(Err(e)),
            Ok(password_hash) => Step::Perform(
                AccountFlow { stage: AccountStage::AwaitPasswordUpdate { user_id, current_session_id } },
                Effect::UpdatePasswordHash { user_id, password_hash },
            ),
        }
    }

    /// Starts an e-mail change: a code for the new address is stored and mailed.
    pub fn change_email(user_id: u128, new_email: &str) -> (step: AccountStep)
        ensures
            account_coherent(step),
            stores_code(step, new_email@, VerificationPurpose::EmailChange, "email_change"@),
    {
        Self::store_code(to_owned_string(new_email), VerificationPurpose::EmailChange, "email_change")
    }

    /// Requests the deletion of an account: refused while an earlier request
    /// is still in force; otherwise a request with a fresh six-character code
    /// is stored and the code mailed to `email`.
    pub fn delete_account(user_id: u128, email: &str) -> (step: AccountStep)
        ensures
            account_coherent(step),
            match step {
                Step::Perform(f, Effect::FindDeletion { user_id: u }) => u == user_id
                    && match f.stage {
                        AccountStage::AwaitPriorDeletion { user_id: u2, email: m } => u2 == user_id && m@ == email@,
                        _ => false,
                    },
                _ => false,
            },
    {
        Step::Perform(
            AccountFlow { stage: AccountStage::AwaitPriorDeletion { user_id, email: to_owned_string(email) } },
            Effect::FindDeletion { user_id },
        )
    }

    /// Confirms a deletion with its code: the account is soft-deleted and
    /// every session of the user ended.
    pub fn confirm_delete_account(user_id: u128, code: &str) -> (step: AccountStep)
        ensures
            account_coherent(step),
            match step {
                Step::Perform(f, Effect::FindDeletion { user_id: u }) => u == user_id
                    && match f.stage {
                        AccountStage::AwaitDeletionToConfirm { user_id: u2, code: c } => u2 == user_id && c@ == code@,
                        _ => false,
                    },
                _ => false,
            },
    {
        Step::Perform(
            AccountFlow { stage: AccountStage::AwaitDeletionToConfirm { user_id, code: to_owned_string(code) } },
            Effect::FindDeletion { user_id },
        )
    }

    /// Cancels a deletion during its cooldown.
    pub fn cancel_delete_account(user_id: u128) -> (step: AccountStep)
        ensures
            account_coherent(step),
            match step {
                Step::Perform(f, Effect::FindDeletion { user_id: u }) =>
                    u == user_id && f.stage == (AccountStage::AwaitDeletionToCancel { user_id }),
                _ => false,
            },
    {
        Step::Perform(AccountFlow { stage: AccountStage::AwaitDeletionToCancel { user_id } }, Effect::FindDeletion { user_id })
    }

    fn store_code(email: String, purpose: VerificationPurpose, purpose_text: &str) -> (step: AccountStep)
        ensures
            account_coherent(step),
            stores_code(step, email@, purpose, purpose_text@),
    {
        let m = to_owned_string(email.as_str());
        let v = EmailVerification::new(email, purpose);
        let code = v.code.clone();
        Step::Perform(
            AccountFlow { stage: AccountStage::AwaitVerificationStored { email: m, code, purpose: to_owned_string(purpose_text) } },
            Effect::CreateVerification { verification: v },
        )
    }

    fn new_deletion(user_id: u128, email: String) -> (step: AccountStep)
        ensures
            account_coherent(step),
            match step {
                Step::Perform(f, Effect::CreateDeletion { deletion: d }) => {
                    &&& d.user_id == user_id && !d.cancelled
                    &&& d.soft_deleted_at is None && d.permanent_delete_at is None
                    &&& micros_in_range(d.requested_at)
                    &&& exists|x: u128| d.confirmation_code@ == #[trigger] uuid_text(x).take(6)
                    &&& match f.stage {
                        AccountStage::AwaitDeletionStored { email: m, code: c } =>
                            m == email && c@ == d.confirmation_code@,
                        _ => false,
                    }
                },
                _ => false,
            },
    {
        let x = new_uuid_v7();
        let text = uuid_string(x);
        let chars = chars_of(text.as_str());
        let code = string_from_chars(&chars.as_slice()[0..6]);
        proof {
            assert(chars@.subrange(0, 6) =~= uuid_text(x).take(6));
        }
        let code_copy = code.clone();
        let deletion = AccountDeletion::new(user_id, code);
        Step::Perform(
            AccountFlow { stage: AccountStage::AwaitDeletionStored { email, code: code_copy } },
            Effect::CreateDeletion { deletion },
        )
    }

    /// Resumes the flow with the reply to the effect it asked for.
    pub fn resume(self, reply: Reply) -> (step: AccountStep)
        requires
            kind_of_reply(reply) == account_awaits(self.stage),
        ensures
            account_coherent(step),
            account_resumes(self.stage, reply, step),
    {
        match self.stage {
            AccountStage::AwaitLookup { session_id } => {
                let user_id: u128 = match reply {
                    Reply::Session(Some(Some(s))) => s.user_id,
                    _ => 0,
                };
                Step::Perform(
                    AccountFlow { stage: AccountStage::AwaitLogoutDelete { session_id, user_id } },
                    Effect::DeleteSession { session_id },
                )
            },
            AccountStage::AwaitLogoutDelete { session_id, user_id } => match reply {
                Reply::Stored(true) => {
                    let timestamp = now_micros();
                    Step::Perform(
                        AccountFlow { stage: AccountStage::AwaitLogoutPublish },
                        Effect::Publish { event: AuthEvent::UserLoggedOut { user_id, session_id, timestamp } },
                    )
                },
                _ => Step::Finish(Err(AuthError::SessionNotFound)),
            },
            AccountStage::AwaitLogoutPublish => Step::Finish(Ok(())),
            AccountStage::AwaitSessionsPurge { user_id } => match reply {
                Reply::Stored(true) => Step::Perform(
                    AccountFlow { stage: AccountStage::AwaitTokensPurge },
                    Effect::DeleteRefreshTokensByUser { user_id },
                ),
                _ => Step::Finish(Err(AuthError::SessionNotFound)),
            },
            AccountStage::AwaitTokensPurge => match reply {
                Reply::Stored(true) => Step::Finish(Ok(())),
                _ => Step::Finish(Err(AuthError::SessionNotFound)),
            },
            AccountStage::AwaitPasswordUpdate { user_id, current_session_id } => match reply {
                Reply::Updated(Err(e)) => Step::Finish(Err(e)),
                _ => Self::logout_all_except(user_id, current_session_id),
            },
            AccountStage::AwaitOthersPurge => match reply {
                Reply::Stored(true) => Step::Finish(Ok(())),
                _ => Step::Finish(Err(AuthError::SessionNotFound)),
            },
            AccountStage::AwaitExistingUser { email } => match reply {
                Reply::User(Err(_)) => Self::store_code(email, VerificationPurpose::Registration, "registration"),
                _ => Step::Finish(Err(AuthError::EmailAlreadyExists)),
            },
            AccountStage::AwaitVerificationStored { email, code, purpose } => match reply {
                Reply::Stored(true) => Step::Perform(
                    AccountFlow { stage: AccountStage::AwaitMail },
                    Effect::SendVerificationCode { to: email, code, purpose },
                ),
                _ => Step::Finish(Err(AuthError::EmailAlreadyExists)),
            },
            AccountStage::AwaitMail => match reply {
                Reply::Mail(Err(e)) => Step::Finish(Err(e)),
                _ => Step::Finish(Ok(())),
            },
            AccountStage::AwaitPriorDeletion { user_id, email } => match reply {
                Reply::Deletion(Some(Some(d))) => {
                    if !d.cancelled {
                        Step::Finish(Err(AuthError::AccountDeletionAlreadyInProgress))
                    } else {
                        Self::new_deletion(user_id, email)
                    }
                },
                _ => Self::new_deletion(user_id, email),
            },
            AccountStage::AwaitDeletionStored { email, code } => match reply {
                Reply::Stored(true) => Step::Perform(
                    AccountFlow { stage: AccountStage::AwaitMail },
                    Effect::SendVerificationCode { to: email, code, purpose: to_owned_string("account_deletion") },
                ),
                _ => Step::Finish(Err(AuthError::AccountDeletionNotFound)),
            },
            AccountStage::AwaitDeletionToConfirm { user_id, code } => match reply {
                Reply::Deletion(Some(Some(d))) => {
                    if !d.verify_code(code.as_str()) {
                        return Step::Finish(Err(AuthError::InvalidVerificationCode));
                    }
                    let mut d = d;
                    d.confirm();
                    Step::Perform(
                        AccountFlow { stage: AccountStage::AwaitConfirmedStored { user_id } },
                        Effect::UpdateDeletion { deletion: d },
                    )
                },
                _ => Step::Finish(Err(AuthError::AccountDeletionNotFound)),
            },
            AccountStage::AwaitConfirmedStored { user_id } => match reply {
                Reply::Stored(true) => Self::logout_all(user_id),
                _ => Step::Finish(Err(AuthError::AccountDeletionNotFound)),
            },
            AccountStage::AwaitDeletionToCancel { user_id } => match reply {
                Reply::Deletion(Some(Some(d))) => {
                    if !d.is_soft_deleted() {
                        return Step::Finish(Err(AuthError::AccountDeletionNotFound));
                    }
                    let mut d = d;
                    d.cancel();
                    Step::Perform(
                        AccountFlow { stage: AccountStage::AwaitCancelledStored },
                        Effect::UpdateDeletion { deletion: d },
                    )
                },
                _ => Step::Finish(Err(AuthError::AccountDeletionNotFound)),
            },
            AccountStage::AwaitCancelledStored => match reply {
                Reply::Stored(true) => Step::Finish(Ok(())),
                _ => Step::Finish(Err(AuthError::AccountDeletionNotFound)),
            },
        }
    }
}

} // verus!
