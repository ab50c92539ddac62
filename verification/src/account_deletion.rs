//! Account deletion requests with a cooldown period.

use vstd::prelude::*;
use crate::text::str_eq;
use crate::time::{micros_in_range, now_micros, MICROS_PER_DAY};

verus! {

/// Days between the confirmation of a deletion and its permanent execution.
pub const COOLDOWN_DAYS: i64 = 30;

/// The cooldown period in microseconds.
pub const COOLDOWN_MICROS: i64 = COOLDOWN_DAYS * MICROS_PER_DAY;

/// A request to delete an account.
#[derive(Debug, Clone)]
pub struct AccountDeletion {
    pub user_id: u128,
    pub confirmation_code: String,
    pub requested_at: i64,
    pub soft_deleted_at: Option<i64>,
    pub permanent_delete_at: Option<i64>,
    pub cancelled: bool,
}

/// A deletion counts as soft-deleted while it is confirmed and not cancelled.
pub open spec fn spec_is_soft_deleted(d: AccountDeletion) -> bool {
    d.soft_deleted_at is Some && !d.cancelled
}

/// A deletion is due at `now` once its permanent-deletion time has come and
/// it is not cancelled.
pub open spec fn spec_is_ready_at(d: AccountDeletion, now: i64) -> bool {
    match d.permanent_delete_at {
        Some(p) => now >= p && !d.cancelled,
        None => false,
    }
}

impl Default for AccountDeletion {
    fn default() -> (d: AccountDeletion)
        ensures
            d.user_id == 0,
            d.confirmation_code@ == Seq::<char>::empty(),
            micros_in_range(d.requested_at),
            d.soft_deleted_at is None,
            d.permanent_delete_at is None,
            !d.cancelled,
    {
        AccountDeletion {
            user_id: 0,
            confirmation_code: String::new(),
            requested_at: now_micros(),
            soft_deleted_at: None,
            permanent_delete_at: None,
            cancelled: false,
        }
    }
}

impl AccountDeletion {
    /// A new, unconfirmed request, made now.
    pub fn new(user_id: u128, confirmation_code: String) -> (d: AccountDeletion)
        ensures
            d.user_id == user_id,
            d.confirmation_code@ == confirmation_code@,
            micros_in_range(d.requested_at),
            d.soft_deleted_at is None,
            d.permanent_delete_at is None,
            !d.cancelled,
    {
        AccountDeletion {
            user_id,
            confirmation_code,
            requested_at: now_micros(),
            soft_deleted_at: None,
            permanent_delete_at: None,
            cancelled: false,
        }
    }

    /// Confirms the deletion at the instant `now`: the account is soft-deleted
    /// now and is due for permanent deletion after the cooldown.
    pub fn confirm_at(&mut self, now: i64)
        requires
            micros_in_range(now),
        ensures
            final(self).soft_deleted_at == Some(now),
            final(self).permanent_delete_at == Some((now + COOLDOWN_MICROS) as i64),
            final(self).user_id == old(self).user_id,
            final(self).confirmation_code@ == old(self).confirmation_code@,
            final(self).requested_at == old(self).requested_at,
            final(self).cancelled == old(self).cancelled,
    {
        self.soft_deleted_at = Some(now);
        self.permanent_delete_at = Some(now + COOLDOWN_MICROS);
    }

    /// Confirms the deletion now.
    pub fn confirm(&mut self)
        ensures
            exists|now: i64|
                micros_in_range(now) && final(self).soft_deleted_at == Some(now)
                    && final(self).permanent_delete_at == Some((now + COOLDOWN_MICROS) as i64),
            final(self).user_id == old(self).user_id,
            final(self).confirmation_code@ == old(self).confirmation_code@,
            final(self).requested_at == old(self).requested_at,
            final(self).cancelled == old(self).cancelled,
    {
        let now = now_micros();
        self.confirm_at(now);
    }

    /// Cancels the deletion.
    pub fn cancel(&mut self)
        ensures
            final(self).cancelled,
            final(self).soft_deleted_at is None,
            final(self).permanent_delete_at is None,
            final(self).user_id == old(self).user_id,
            final(self).confirmation_code@ == old(self).confirmation_code@,
            final(self).requested_at == old(self).requested_at,
    {
        self.cancelled = true;
        self.soft_deleted_at = None;
        self.permanent_delete_at = None;
    }

    pub fn is_soft_deleted(&self) -> (r: bool)
        ensures
            r == spec_is_soft_deleted(*self),
    {
        self.soft_deleted_at.is_some() && !self.cancelled
    }

    /// Whether the deletion is due at the instant `now`.
    pub fn is_ready_for_permanent_delete_at(&self, now: i64) -> (r: bool)
        ensures
            r == spec_is_ready_at(*self, now),
    {
        match self.permanent_delete_at {
            Some(p) => now >= p && !self.cancelled,
            None => false,
        }
    }

    /// Whether the deletion is due by the current time.
    pub fn is_ready_for_permanent_delete(&self) -> (r: bool)
        ensures
            exists|now: i64| micros_in_range(now) && r == spec_is_ready_at(*self, now),
            self.permanent_delete_at is None ==> !r,
            self.cancelled ==> !r,
    {
        let now = now_micros();
        self.is_ready_for_permanent_delete_at(now)
    }

    pub fn verify_code(&self, code: &str) -> (r: bool)
        ensures
            r == (self.confirmation_code@ == code@),
    {
        str_eq(self.confirmation_code.as_str(), code)
    }

    /// A request as stored.
    pub fn from_record(
        user_id: u128,
        confirmation_code: String,
        requested_at: i64,
        soft_deleted_at: Option<i64>,
        permanent_delete_at: Option<i64>,
        cancelled: bool,
    ) -> (d: AccountDeletion)
        ensures
            d.user_id == user_id,
            d.confirmation_code@ == confirmation_code@,
            d.requested_at == requested_at,
            d.soft_deleted_at == soft_deleted_at,
            d.permanent_delete_at == permanent_delete_at,
            d.cancelled == cancelled,
    {
        let mut d = AccountDeletion::new(user_id, confirmation_code);
        d.requested_at = requested_at;
        d.soft_deleted_at = soft_deleted_at;
        d.permanent_delete_at = permanent_delete_at;
        d.cancelled = cancelled;
        d
    }
}

/// The lifecycle of a deletion request: a fresh request is not soft-deleted;
/// once confirmed at `t` it is soft-deleted and becomes due exactly when the
/// cooldown has passed; once cancelled it is neither soft-deleted nor ever due.
pub proof fn lemma_deletion_lifecycle(d: AccountDeletion, t: i64, now: i64)
    requires
        micros_in_range(t),
        d.soft_deleted_at is None,
        !d.cancelled,
    ensures
        !spec_is_soft_deleted(d),
        ({
            let confirmed = AccountDeletion {
                soft_deleted_at: Some(t),
                permanent_delete_at: Some((t + COOLDOWN_MICROS) as i64),
                ..d
            };
            &&& spec_is_soft_deleted(confirmed)
            &&& spec_is_ready_at(confirmed, now) == (now >= t + COOLDOWN_MICROS)
            &&& !spec_is_soft_deleted(AccountDeletion {
                cancelled: true,
                soft_deleted_at: None,
                permanent_delete_at: None,
                ..confirmed
            })
            &&& !spec_is_ready_at(AccountDeletion {
                cancelled: true,
                soft_deleted_at: None,
                permanent_delete_at: None,
                ..confirmed
            }, now)
        }),
{
}

} // verus!
