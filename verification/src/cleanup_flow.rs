//! Permanent deletion of accounts whose cooldown is over.

use vstd::prelude::*;
use crate::events::AuthEvent;
use crate::flow::{kind_of_reply, reply_kind_of, DueDeletion, Effect, Reply, ReplyKind};
use crate::time::{format_rfc3339, micros_in_range, now_micros, rfc3339_text};

verus! {

/// How often a cleanup round runs: every hour.
pub const CLEANUP_INTERVAL_SECS: u64 = 3600;

/// Where a cleanup round stands; `index` is the position of the deletion
/// being carried out.
#[derive(Debug, Clone, Copy, PartialEq, Eq, Structural)]
pub enum CleanupStage {
    AwaitDue,
    AwaitNotify { index: usize },
    AwaitSessions { index: usize },
    AwaitTokens { index: usize },
    AwaitRecord { index: usize },
    AwaitPublish { index: usize },
}

/// One round of the cleanup, at the instant `now`.
pub struct CleanupFlow {
    pub now: i64,
    pub due: Vec<DueDeletion>,
    pub stage: CleanupStage,
}

/// One step of a cleanup round: perform an effect, or end the round (with
/// `false` when a store query failed).
pub enum CleanupStep {
    Perform(CleanupFlow, Effect),
    Finish(bool),
}

pub open spec fn cleanup_awaits(stage: CleanupStage) -> ReplyKind {
    match stage {
        CleanupStage::AwaitDue => ReplyKind::DueDeletions,
        CleanupStage::AwaitNotify { .. } => ReplyKind::Notified,
        CleanupStage::AwaitPublish { .. } => ReplyKind::Published,
        _ => ReplyKind::Stored,
    }
}

/// A step that asks for an effect leaves the round waiting for the kind of
/// reply that effect is answered with.
pub open spec fn cleanup_coherent(step: CleanupStep) -> bool {
    match step {
        CleanupStep::Perform(f, e) => reply_kind_of(e) == cleanup_awaits(f.stage),
        CleanupStep::Finish(_) => true,
    }
}

/// The index of the deletion at hand is within the list.
pub open spec fn cleanup_wf(f: CleanupFlow) -> bool {
    match f.stage {
        CleanupStage::AwaitDue => true,
        CleanupStage::AwaitNotify { index } => index < f.due@.len(),
        CleanupStage::AwaitSessions { index } => index < f.due@.len(),
        CleanupStage::AwaitTokens { index } => index < f.due@.len(),
        CleanupStage::AwaitRecord { index } => index < f.due@.len(),
        CleanupStage::AwaitPublish { index } => index < f.due@.len(),
    }
}

/// Moving on to the deletion at `index`: the round ends when none is left;
/// otherwise the account service is told that the user is deleted now.
pub open spec fn starts_deletion(step: CleanupStep, now: i64, due: Seq<DueDeletion>, index: int) -> bool {
    if index >= due.len() {
        step == CleanupStep::Finish(true)
    } else {
        match step {
            CleanupStep::Perform(f, Effect::NotifyAccountDeleted { user_id, deleted_at }) => {
                &&& user_id == due[index].user_id
                &&& deleted_at@ == (if micros_in_range(now) { rfc3339_text(now) } else { Seq::empty() })
                &&& f.now == now && f.due@ == due && f.stage == (CleanupStage::AwaitNotify { index: index as usize })
            },
            _ => false,
        }
    }
}

/// The next step in the same round with the same list.
pub open spec fn continues(step: CleanupStep, old: CleanupFlow, stage: CleanupStage, effect_ok: bool) -> bool {
    match step {
        CleanupStep::Perform(f, _) => effect_ok && f.now == old.now && f.due@ == old.due@ && f.stage == stage,
        _ => false,
    }
}

/// Every step a cleanup round may take on `reply`.
pub open spec fn cleanup_resumes(old: CleanupFlow, reply: Reply, step: CleanupStep) -> bool {
    match old.stage {
        CleanupStage::AwaitDue => match reply {
            Reply::DueDeletions(None) => step == CleanupStep::Finish(false),
            Reply::DueDeletions(Some(list)) => starts_deletion(step, old.now, list@, 0),
            _ => false,
        },
        CleanupStage::AwaitNotify { index } => {
            let u = old.due@[index as int].user_id;
            continues(step, old, CleanupStage::AwaitSessions { index }, match step {
                CleanupStep::Perform(_, Effect::DeleteSessionsByUser { user_id }) => user_id == u,
                _ => false,
            })
        },
        CleanupStage::AwaitSessions { index } => match reply {
            Reply::Stored(false) => step == CleanupStep::Finish(false),
            _ => continues(step, old, CleanupStage::AwaitTokens { index }, match step {
                CleanupStep::Perform(_, Effect::DeleteRefreshTokensByUser { user_id }) => user_id == old.due@[index as int].user_id,
                _ => false,
            }),
        },
        CleanupStage::AwaitTokens { index } => match reply {
            Reply::Stored(false) => step == CleanupStep::Finish(false),
            _ => continues(step, old, CleanupStage::AwaitRecord { index }, match step {
                CleanupStep::Perform(_, Effect::DeleteDeletionRecord { user_id }) => user_id == old.due@[index as int].user_id,
                _ => false,
            }),
        },
        CleanupStage::AwaitRecord { index } => match reply {
            Reply::Stored(false) => step == CleanupStep::Finish(false),
            _ => {
                let d = old.due@[index as int];
                continues(step, old, CleanupStage::AwaitPublish { index }, match step {
                    CleanupStep::Perform(_, Effect::Publish { event: AuthEvent::UserDeleted { user_id, soft_deleted_at, permanent_delete_at, timestamp } }) =>
                        user_id == d.user_id && soft_deleted_at == (match d.soft_deleted_at {
                            Some(t) => t,
                            None => old.now,
                        }) && permanent_delete_at == old.now && timestamp == old.now,
                    _ => false,
                })
            },
        },
        CleanupStage::AwaitPublish { index } => starts_deletion(step, old.now, old.due@, index + 1),
    }
}

impl CleanupFlow {
    /// Starts a round now: the store is asked for the confirmed, uncancelled
    /// deletions whose permanent-deletion time has come.
    pub fn start() -> (step: CleanupStep)
        ensures
            cleanup_coherent(step),
            match step {
                CleanupStep::Perform(f, Effect::FindDueDeletions { now }) =>
                    micros_in_range(now) && f.now == now && f.stage == CleanupStage::AwaitDue && cleanup_wf(f),
                _ => false,
            },
    {
        let now = now_micros();
        CleanupStep::Perform(CleanupFlow { now, due: Vec::new(), stage: CleanupStage::AwaitDue }, Effect::FindDueDeletions { now })
    }

    /// The reply the round waits for.
    pub fn awaiting(&self) -> (k: ReplyKind)
        ensures
            k == cleanup_awaits(self.stage),
    {
        match self.stage {
            CleanupStage::AwaitDue => ReplyKind::DueDeletions,
            CleanupStage::AwaitNotify { .. } => ReplyKind::Notified,
            CleanupStage::AwaitPublish { .. } => ReplyKind::Published,
            _ => ReplyKind::Stored,
        }
    }

    fn start_deletion(now: i64, due: Vec<DueDeletion>, index: usize) -> (step: CleanupStep)
        ensures
            cleanup_coherent(step),
            starts_deletion(step, now, due@, index as int),
            step matches CleanupStep::Perform(f, _) ==> cleanup_wf(f),
    {
        if index >= due.len() {
            return CleanupStep::Finish(true);
        }
        let user_id = due[index].user_id;
        let deleted_at = format_rfc3339(now);
        CleanupStep::Perform(
            CleanupFlow { now, due, stage: CleanupStage::AwaitNotify { index } },
            Effect::NotifyAccountDeleted { user_id, deleted_at },
        )
    }

    /// Resumes the round with the reply to the effect it asked for. The
    /// account service's answer does not stop the round; a failed store
    /// query does.
    pub fn resume(self, reply: Reply) -> (step: CleanupStep)
        requires
            cleanup_wf(self),
            kind_of_reply(reply) == cleanup_awaits(self.stage),
        ensures
            cleanup_coherent(step),
            cleanup_resumes(self, reply, step),
            step matches CleanupStep::Perform(f, _) ==> cleanup_wf(f),
    {
        let now = self.now;
        match self.stage {
            CleanupStage::AwaitDue => match reply {
                Reply::DueDeletions(Some(list)) => Self::start_deletion(now, list, 0),
                _ => CleanupStep::Finish(false),
            },
            CleanupStage::AwaitNotify { index } => {
                let user_id = self.due[index].user_id;
                CleanupStep::Perform(
                    CleanupFlow { now, due: self.due, stage: CleanupStage::AwaitSessions { index } },
                    Effect::DeleteSessionsByUser { user_id },
                )
            },
            CleanupStage::AwaitSessions { index } => match reply {
                Reply::Stored(false) => CleanupStep::Finish(false),
                _ => {
                    let user_id = self.due[index].user_id;
                    CleanupStep::Perform(
                        CleanupFlow { now, due: self.due, stage: CleanupStage::AwaitTokens { index } },
                        Effect::DeleteRefreshTokensByUser { user_id },
                    )
                },
            },
            CleanupStage::AwaitTokens { index } => match reply {
                Reply::Stored(false) => CleanupStep::Finish(false),
                _ => {
                    let user_id = self.due[index].user_id;
                    CleanupStep::Perform(
                        CleanupFlow { now, due: self.due, stage: CleanupStage::AwaitRecord { index } },
                        Effect::DeleteDeletionRecord { user_id },
                    )
                },
            },
            CleanupStage::AwaitRecord { index } => match reply {
                Reply::Stored(false) => CleanupStep::Finish(false),
                _ => {
                    let d = self.due[index];
                    let soft_deleted_at = match d.soft_deleted_at {
                        Some(t) => t,
                        None => now,
                    };
                    CleanupStep::Perform(
                        CleanupFlow { now, due: self.due, stage: CleanupStage::AwaitPublish { index } },
                        Effect::Publish {
                            event: AuthEvent::UserDeleted { user_id: d.user_id, soft_deleted_at, permanent_delete_at: now, timestamp: now },
                        },
                    )
                },
            },
            CleanupStage::AwaitPublish { index } => {
                let n = self.due.len();
                assert(index < n);
                Self::start_deletion(now, self.due, index + 1)
            },
        }
    }
}

} // verus!
