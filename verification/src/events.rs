//! Domain events published by the authentication service.

use vstd::prelude::*;

verus! {

/// Something that happened to an account.
#[derive(Debug, Clone)]
pub enum AuthEvent {
    UserLoggedIn { user_id: u128, session_id: u128, platform: String, timestamp: i64 },
    UserRegistered { user_id: u128, email: String, timestamp: i64 },
    UserLoggedOut { user_id: u128, session_id: u128, timestamp: i64 },
    PasswordChanged { user_id: u128, timestamp: i64 },
    EmailChanged { user_id: u128, old_email: String, new_email: String, timestamp: i64 },
    UserDeleted { user_id: u128, soft_deleted_at: i64, permanent_delete_at: i64, timestamp: i64 },
}

/// The message subject each kind of event is published under.
pub open spec fn event_subject(e: AuthEvent) -> Seq<char> {
    match e {
        AuthEvent::UserLoggedIn { .. } => "auth.user.logged_in"@,
        AuthEvent::UserRegistered { .. } => "auth.user.registered"@,
        AuthEvent::UserLoggedOut { .. } => "auth.user.logged_out"@,
        AuthEvent::PasswordChanged { .. } => "auth.user.password_changed"@,
        AuthEvent::EmailChanged { .. } => "auth.user.email_changed"@,
        AuthEvent::UserDeleted { .. } => "auth.user.deleted"@,
    }
}

/// The subject an event is published under.
pub fn subject_for(event: &AuthEvent) -> (r: &'static str)
    ensures
        r@ == event_subject(*event),
{
    match event {
        AuthEvent::UserLoggedIn { .. } => "auth.user.logged_in",
        AuthEvent::UserRegistered { .. } => "auth.user.registered",
        AuthEvent::UserLoggedOut { .. } => "auth.user.logged_out",
        AuthEvent::PasswordChanged { .. } => "auth.user.password_changed",
        AuthEvent::EmailChanged { .. } => "auth.user.email_changed",
        AuthEvent::UserDeleted { .. } => "auth.user.deleted",
    }
}

/// Publishes events to the log only, for development without a broker.
pub struct LogEventPublisher;

} // verus!
