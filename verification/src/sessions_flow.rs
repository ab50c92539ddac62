//! Listing a user's sessions, and the confirmation of an e-mail change.

use vstd::prelude::*;
use crate::error::AuthError;
use crate::flow::{kind_of_reply, Effect, Reply, ReplyKind, Step};
use crate::session::{platform_name, AuthSession};
use crate::text::to_owned_string;
use crate::time::{format_rfc3339, micros_in_range, rfc3339_text};

verus! {

/// What a client is told about one of its sessions.
#[derive(Debug)]
pub struct SessionInfo {
    pub session_id: u128,
    pub platform: String,
    pub created_at: String,
    pub last_active_at: String,
    pub is_current: bool,
}

/// The RFC 3339 text of an instant, empty for instants `chrono` cannot hold.
pub open spec fn instant_text(t: i64) -> Seq<char> {
    if micros_in_range(t) {
        rfc3339_text(t)
    } else {
        Seq::empty()
    }
}

/// The description of a session, for a client that may be using one.
pub open spec fn describes(info: SessionInfo, s: AuthSession, current: Option<u128>) -> bool {
    &&& info.session_id == s.id
    &&& info.platform@ == platform_name(s.platform)
    &&& info.created_at@ == instant_text(s.created_at)
    &&& info.last_active_at@ == instant_text(s.last_active_at)
    &&& info.is_current == (current == Some(s.id))
}

/// Describes one session.
pub fn session_info(s: &AuthSession, current: Option<u128>) -> (info: SessionInfo)
    ensures
        describes(info, *s, current),
{
    SessionInfo {
        session_id: s.id,
        platform: to_owned_string(s.platform.as_str()),
        created_at: format_rfc3339(s.created_at),
        last_active_at: format_rfc3339(s.last_active_at),
        is_current: match current {
            Some(c) => c == s.id,
            None => false,
        },
    }
}

/// Listing the sessions of a user, newest first as the store gives them.
pub struct SessionsFlow {
    pub current_session_id: Option<u128>,
}

impl SessionsFlow {
    /// Starts listing the sessions of `user_id`; `current_session_id` is the
    /// session the request comes from, if known.
    pub fn get_sessions(user_id: u128, current_session_id: Option<u128>) -> (step: Step<SessionsFlow, Vec<SessionInfo>>)
        ensures
            match step {
                Step::Perform(f, Effect::FindSessionsByUser { user_id: u }) =>
                    u == user_id && f.current_session_id == current_session_id,
                _ => false,
            },
    {
        Step::Perform(SessionsFlow { current_session_id }, Effect::FindSessionsByUser { user_id })
    }

    /// Finishes with the store's answer: a failed query means no session
    /// was found; otherwise each session is described, in order.
    pub fn resume(self, reply: Reply) -> (step: Step<SessionsFlow, Vec<SessionInfo>>)
        requires
            kind_of_reply(reply) == ReplyKind::Sessions,
        ensures
            match reply {
                Reply::Sessions(None) => step == Step::<SessionsFlow, Vec<SessionInfo>>::Finish(Err(AuthError::SessionNotFound)),
                Reply::Sessions(Some(list)) => match step {
                    Step::Finish(Ok(infos)) => infos@.len() == list@.len()
                        && forall|i: int| 0 <= i < list@.len() ==> describes(#[trigger] infos@[i], list@[i], self.current_session_id),
                    _ => false,
                },
                _ => false,
            },
    {
        match reply {
            Reply::Sessions(Some(list)) => {
                let mut infos: Vec<SessionInfo> = Vec::new();
                let mut i: usize = 0;
                while i < list.len()
                    invariant
                        i <= list.len(),
                        infos@.len() == i,
                        forall|j: int| 0 <= j < i ==> describes(#[trigger] infos@[j], list@[j], self.current_session_id),
                    decreases list.len() - i,
                {
                    infos.push(session_info(&list[i], self.current_session_id));
                    i = i + 1;
                }
                Step::Finish(Ok(infos))
            },
            _ => Step::Finish(Err(AuthError::SessionNotFound)),
        }
    }
}

/// The address reported after an e-mail change is confirmed.
pub open spec fn confirmed_email_placeholder() -> Seq<char> {
    "new@example.com"@
}

/// Confirms an e-mail change: a code must be six bytes long; the address
/// reported is a placeholder until codes are looked up.
pub fn confirm_email_change(user_id: u128, code: &str) -> (r: Result<String, AuthError>)
    ensures
        code.len() != 6 ==> r == Err::<String, AuthError>(AuthError::InvalidVerificationCode),
        code.len() == 6 ==> (r matches Ok(s) && s@ == confirmed_email_placeholder()),
{
    if code.len() != 6 {
        return Err(AuthError::InvalidVerificationCode);
    }
    Ok(to_owned_string("new@example.com"))
}

} // verus!
