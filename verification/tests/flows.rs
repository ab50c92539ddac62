use upgo::account_client::UserInfo;
use upgo::account_deletion::AccountDeletion;
use upgo::account_flow::{AccountFlow, AccountStep};
use upgo::cleanup_flow::{CleanupFlow, CleanupStep};
use upgo::digest::sha256;
use upgo::email_verification::{EmailVerification, VerificationPurpose};
use upgo::error::AuthError;
use upgo::events::AuthEvent;
use upgo::flow::{DueDeletion, Effect, Reply, ReplyKind, Step};
use upgo::jwt::JwtClaims;
use upgo::jwt_service::JwtService;
use upgo::login_flow::{LoginFlow, LoginResult};
use upgo::password::PasswordService;
use upgo::refresh_flow::{RefreshFlow, RefreshStep};
use upgo::session::{AuthSession, Platform};
use upgo::sessions_flow::{confirm_email_change, SessionsFlow};

fn uuid_text(id: u128) -> String {
    uuid::Uuid::from_u128(id).to_string()
}

fn login_perform(step: Step<LoginFlow, LoginResult>) -> (LoginFlow, Effect) {
    match step {
        Step::Perform(f, e) => {
            assert_eq!(f.awaiting(), e.reply_kind());
            (f, e)
        }
        Step::Finish(r) => panic!("login finished early: {:?}", r.err()),
    }
}

fn login_finish(step: Step<LoginFlow, LoginResult>) -> Result<LoginResult, AuthError> {
    match step {
        Step::Finish(r) => r,
        Step::Perform(_, e) => panic!("login still asks for {:?}", e),
    }
}

fn account_perform(step: AccountStep) -> (AccountFlow, Effect) {
    match step {
        Step::Perform(f, e) => {
            assert_eq!(f.awaiting(), e.reply_kind());
            (f, e)
        }
        Step::Finish(r) => panic!("account flow finished early: {:?}", r),
    }
}

fn account_finish(step: AccountStep) -> Result<(), AuthError> {
    match step {
        Step::Finish(r) => r,
        Step::Perform(_, e) => panic!("account flow still asks for {:?}", e),
    }
}

fn refresh_perform(step: RefreshStep) -> (RefreshFlow, Effect) {
    match step {
        Step::Perform(f, e) => {
            assert_eq!(f.awaiting(), e.reply_kind());
            (f, e)
        }
        Step::Finish(r) => panic!("refresh finished early: {:?}", r.err()),
    }
}

fn refresh_error(step: RefreshStep) -> AuthError {
    match step {
        Step::Finish(Err(e)) => e,
        Step::Finish(Ok(_)) => panic!("refresh succeeded"),
        Step::Perform(_, e) => panic!("refresh still asks for {:?}", e),
    }
}

fn cleanup_perform(step: CleanupStep) -> (CleanupFlow, Effect) {
    match step {
        CleanupStep::Perform(f, e) => {
            assert_eq!(f.awaiting(), e.reply_kind());
            (f, e)
        }
        CleanupStep::Finish(ok) => panic!("cleanup finished early: {}", ok),
    }
}

fn session_of(user_id: u128, platform: Platform) -> AuthSession {
    AuthSession::new(user_id, platform, "h".to_string())
}

/// Drives the session part of a login from the `CreateSession` effect on,
/// answering every store query with success.
fn finish_login(jwt: &JwtService, flow: LoginFlow, effect: Effect, user_id: u128) -> (LoginResult, AuthEvent, u128) {
    let session = match effect {
        Effect::CreateSession { session } => session,
        e => panic!("expected a new session, got {:?}", e),
    };
    assert_eq!(session.user_id, user_id);
    let (flow, effect) = login_perform(flow.resume(Reply::Stored(true), jwt));
    match effect {
        Effect::StoreRefreshToken { user_id: u, session_id, token_hash } => {
            assert_eq!(u, user_id);
            assert_eq!(session_id, session.id);
            assert_eq!(token_hash, session.refresh_token_hash);
        }
        e => panic!("expected the refresh token to be stored, got {:?}", e),
    }
    let (flow, effect) = login_perform(flow.resume(Reply::Stored(true), jwt));
    let event = match effect {
        Effect::Publish { event } => event,
        e => panic!("expected an event, got {:?}", e),
    };
    let result = login_finish(flow.resume(Reply::Published, jwt)).unwrap();
    (result, event, session.id)
}

#[test]
fn login_with_email_opens_a_session_and_issues_tokens() {
    let jwt = JwtService::new("flow-secret");
    let hash = PasswordService::hash("password123").unwrap();
    let (flow, effect) = login_perform(LoginFlow::with_email("a@b.c", "password123", "web"));
    match effect {
        Effect::GetUserByEmail { email } => assert_eq!(email, "a@b.c"),
        e => panic!("{:?}", e),
    }
    let user = UserInfo { user_id: 7, email: "a@b.c".into(), nickname: "a".into(), password_hash: hash };
    let (flow, effect) = login_perform(flow.resume(Reply::User(Ok(user)), &jwt));
    match effect {
        Effect::CountSessions { user_id, platform } => {
            assert_eq!(user_id, 7);
            assert_eq!(platform, "web");
        }
        e => panic!("{:?}", e),
    }
    let (flow, effect) = login_perform(flow.resume(Reply::Count(Some(2)), &jwt));
    let (result, event, session_id) = finish_login(&jwt, flow, effect, 7);
    assert_eq!(result.user_id, 7);
    assert_eq!(result.expires_in, 900);
    let access = jwt.verify_access_token(&result.access_token).unwrap();
    assert_eq!(access.sub, uuid_text(7));
    assert_eq!(access.sid, uuid_text(session_id));
    assert_eq!(access.platform, "web");
    assert_eq!(access.exp - access.iat, 900);
    let refresh = jwt.verify_refresh_token(&result.refresh_token).unwrap();
    assert_eq!(refresh.exp - refresh.iat, 604800);
    match event {
        AuthEvent::UserLoggedIn { user_id, session_id: s, platform, .. } => {
            assert_eq!(user_id, 7);
            assert_eq!(s, session_id);
            assert_eq!(platform, "web");
        }
        e => panic!("{:?}", e),
    }
}

#[test]
fn login_at_the_session_limit_ends_the_oldest_session() {
    let jwt = JwtService::new("flow-secret");
    let (flow, _) = login_perform(LoginFlow::for_user(11, "mobile"));
    let (flow, effect) = login_perform(flow.resume(Reply::Count(Some(5)), &jwt));
    match effect {
        Effect::FindSessionsByUserAndPlatform { user_id, platform } => {
            assert_eq!(user_id, 11);
            assert_eq!(platform, "mobile");
        }
        e => panic!("{:?}", e),
    }
    let newest = session_of(11, Platform::Mobile);
    let oldest = session_of(11, Platform::Mobile);
    let oldest_id = oldest.id;
    let (flow, effect) = login_perform(flow.resume(Reply::Sessions(Some(vec![newest, oldest])), &jwt));
    match effect {
        Effect::DeleteSession { session_id } => assert_eq!(session_id, oldest_id),
        e => panic!("{:?}", e),
    }
    // The eviction's own outcome does not matter.
    let (flow, effect) = login_perform(flow.resume(Reply::Stored(false), &jwt));
    let (result, _, _) = finish_login(&jwt, flow, effect, 11);
    assert_eq!(result.user_id, 11);
}

#[test]
fn login_at_the_limit_with_no_listed_session_goes_on() {
    let jwt = JwtService::new("flow-secret");
    let (flow, _) = login_perform(LoginFlow::for_user(3, "desktop"));
    let (flow, _) = login_perform(flow.resume(Reply::Count(Some(9)), &jwt));
    let (flow, effect) = login_perform(flow.resume(Reply::Sessions(Some(vec![])), &jwt));
    assert!(matches!(effect, Effect::CreateSession { .. }));
    let (result, _, _) = finish_login(&jwt, flow, effect, 3);
    assert_eq!(result.user_id, 3);
}

#[test]
fn login_refusals() {
    let jwt = JwtService::new("flow-secret");
    // Unknown platform.
    assert_eq!(login_finish(LoginFlow::for_user(1, "tv")).err(), Some(AuthError::InvalidCredentials));
    // Unknown user: the account service's error is passed on.
    let (flow, _) = login_perform(LoginFlow::with_email("x@y.z", "password123", "web"));
    assert_eq!(login_finish(flow.resume(Reply::User(Err(AuthError::UserNotFound)), &jwt)).err(), Some(AuthError::UserNotFound));
    // A user without password.
    let (flow, _) = login_perform(LoginFlow::with_email("x@y.z", "password123", "web"));
    let user = UserInfo { user_id: 1, email: "x@y.z".into(), nickname: "x".into(), password_hash: String::new() };
    assert_eq!(login_finish(flow.resume(Reply::User(Ok(user)), &jwt)).err(), Some(AuthError::InvalidCredentials));
    // A wrong password.
    let (flow, _) = login_perform(LoginFlow::with_email("x@y.z", "wrong-password", "web"));
    let user = UserInfo {
        user_id: 1,
        email: "x@y.z".into(),
        nickname: "x".into(),
        password_hash: PasswordService::hash("password123").unwrap(),
    };
    assert_eq!(login_finish(flow.resume(Reply::User(Ok(user)), &jwt)).err(), Some(AuthError::InvalidCredentials));
    // A stored hash that is no hash.
    let (flow, _) = login_perform(LoginFlow::with_email("x@y.z", "password123", "web"));
    let user = UserInfo { user_id: 1, email: "x@y.z".into(), nickname: "x".into(), password_hash: "plain".into() };
    assert_eq!(login_finish(flow.resume(Reply::User(Ok(user)), &jwt)).err(), Some(AuthError::InvalidPassword));
    // A valid password on an unknown platform.
    let (flow, _) = login_perform(LoginFlow::with_email("x@y.z", "password123", "watch"));
    let user = UserInfo {
        user_id: 1,
        email: "x@y.z".into(),
        nickname: "x".into(),
        password_hash: PasswordService::hash("password123").unwrap(),
    };
    assert_eq!(login_finish(flow.resume(Reply::User(Ok(user)), &jwt)).err(), Some(AuthError::InvalidCredentials));
}

#[test]
fn login_store_failures_are_session_not_found() {
    let jwt = JwtService::new("flow-secret");
    let (flow, _) = login_perform(LoginFlow::for_user(1, "web"));
    assert_eq!(login_finish(flow.resume(Reply::Count(None), &jwt)).err(), Some(AuthError::SessionNotFound));

    let (flow, _) = login_perform(LoginFlow::for_user(1, "web"));
    let (flow, _) = login_perform(flow.resume(Reply::Count(Some(5)), &jwt));
    assert_eq!(login_finish(flow.resume(Reply::Sessions(None), &jwt)).err(), Some(AuthError::SessionNotFound));

    let (flow, _) = login_perform(LoginFlow::for_user(1, "web"));
    let (flow, _) = login_perform(flow.resume(Reply::Count(Some(0)), &jwt));
    assert_eq!(login_finish(flow.resume(Reply::Stored(false), &jwt)).err(), Some(AuthError::SessionNotFound));

    let (flow, _) = login_perform(LoginFlow::for_user(1, "web"));
    let (flow, _) = login_perform(flow.resume(Reply::Count(Some(0)), &jwt));
    let (flow, _) = login_perform(flow.resume(Reply::Stored(true), &jwt));
    assert_eq!(login_finish(flow.resume(Reply::Stored(false), &jwt)).err(), Some(AuthError::SessionNotFound));
}

#[test]
fn verify_email_registers_and_logs_in() {
    let jwt = JwtService::new("flow-secret");
    let pending = EmailVerification::new("new@user.io".into(), VerificationPurpose::Registration);
    let code = pending.code.clone();
    let (flow, effect) = login_perform(LoginFlow::verify_email("new@user.io", &code, "desktop", "HASH", "nick"));
    match effect {
        Effect::FindVerification { email, purpose } => {
            assert_eq!(email, "new@user.io");
            assert_eq!(purpose, "registration");
        }
        e => panic!("{:?}", e),
    }
    let (flow, effect) = login_perform(flow.resume(Reply::Verification(Some(Some(pending))), &jwt));
    match effect {
        Effect::DeleteVerificationsByEmail { email } => assert_eq!(email, "new@user.io"),
        e => panic!("{:?}", e),
    }
    // A failed cleanup does not stop the registration.
    let (flow, effect) = login_perform(flow.resume(Reply::Stored(false), &jwt));
    match effect {
        Effect::RegisterUser { email, password_hash, nickname } => {
            assert_eq!(email, "new@user.io");
            assert_eq!(password_hash, "HASH");
            assert_eq!(nickname, "nick");
        }
        e => panic!("{:?}", e),
    }
    let (flow, effect) = login_perform(flow.resume(Reply::UserId(Ok(42)), &jwt));
    let (result, event, _) = finish_login(&jwt, flow, effect, 42);
    assert_eq!(result.user_id, 42);
    assert_eq!(jwt.verify_access_token(&result.access_token).unwrap().platform, "desktop");
    match event {
        AuthEvent::UserRegistered { user_id, email, .. } => {
            assert_eq!(user_id, 42);
            assert_eq!(email, "new@user.io");
        }
        e => panic!("{:?}", e),
    }
}

#[test]
fn verify_email_refusals() {
    let jwt = JwtService::new("flow-secret");
    assert_eq!(
        login_finish(LoginFlow::verify_email("a@b.c", "123456", "fridge", "H", "n")).err(),
        Some(AuthError::InvalidCredentials)
    );
    let (flow, _) = login_perform(LoginFlow::verify_email("a@b.c", "123456", "web", "H", "n"));
    assert_eq!(
        login_finish(flow.resume(Reply::Verification(Some(None)), &jwt)).err(),
        Some(AuthError::InvalidVerificationCode)
    );
    let (flow, _) = login_perform(LoginFlow::verify_email("a@b.c", "123456", "web", "H", "n"));
    assert_eq!(
        login_finish(flow.resume(Reply::Verification(None), &jwt)).err(),
        Some(AuthError::InvalidVerificationCode)
    );
    // A wrong code.
    let pending = EmailVerification::new("a@b.c".into(), VerificationPurpose::Registration);
    let wrong = if pending.code == "123456" { "654321" } else { "123456" };
    let (flow, _) = login_perform(LoginFlow::verify_email("a@b.c", wrong, "web", "H", "n"));
    assert_eq!(
        login_finish(flow.resume(Reply::Verification(Some(Some(pending))), &jwt)).err(),
        Some(AuthError::InvalidVerificationCode)
    );
    // An expired code.
    let expired = EmailVerification::from_record("a@b.c".into(), "111111".into(), "registration", 0, 600_000_000);
    let (flow, _) = login_perform(LoginFlow::verify_email("a@b.c", "111111", "web", "H", "n"));
    assert_eq!(
        login_finish(flow.resume(Reply::Verification(Some(Some(expired))), &jwt)).err(),
        Some(AuthError::InvalidVerificationCode)
    );
    // The account service refuses the user.
    let pending = EmailVerification::new("a@b.c".into(), VerificationPurpose::Registration);
    let code = pending.code.clone();
    let (flow, _) = login_perform(LoginFlow::verify_email("a@b.c", &code, "web", "H", "n"));
    let (flow, _) = login_perform(flow.resume(Reply::Verification(Some(Some(pending))), &jwt));
    let (flow, _) = login_perform(flow.resume(Reply::Stored(true), &jwt));
    assert_eq!(
        login_finish(flow.resume(Reply::UserId(Err(AuthError::EmailAlreadyExists)), &jwt)).err(),
        Some(AuthError::EmailAlreadyExists)
    );
}

#[test]
fn registration_code_checked_at_the_given_instant() {
    let jwt = JwtService::new("flow-secret");
    let stored = || EmailVerification::from_record("a@b.c".into(), "111111".into(), "registration", 0, 600_000_000);
    let (flow, _) = login_perform(LoginFlow::verify_email("a@b.c", "111111", "web", "H", "n"));
    let (_, effect) = login_perform(flow.resume_at(Reply::Verification(Some(Some(stored()))), &jwt, 600_000_000));
    match effect {
        Effect::DeleteVerificationsByEmail { email } => assert_eq!(email, "a@b.c"),
        e => panic!("{:?}", e),
    }
    let (flow, _) = login_perform(LoginFlow::verify_email("a@b.c", "111111", "web", "H", "n"));
    assert_eq!(
        login_finish(flow.resume_at(Reply::Verification(Some(Some(stored()))), &jwt, 600_000_001)).err(),
        Some(AuthError::InvalidVerificationCode)
    );
    let (flow, _) = login_perform(LoginFlow::verify_email("a@b.c", "111112", "web", "H", "n"));
    assert_eq!(
        login_finish(flow.resume_at(Reply::Verification(Some(Some(stored()))), &jwt, 5)).err(),
        Some(AuthError::InvalidVerificationCode)
    );
}

#[test]
fn logout_deletes_the_session_and_announces_it() {
    let (flow, effect) = account_perform(AccountFlow::logout(99));
    match effect {
        Effect::FindSession { session_id } => assert_eq!(session_id, 99),
        e => panic!("{:?}", e),
    }
    let mut s = session_of(5, Platform::Web);
    s.id = 99;
    let (flow, effect) = account_perform(flow.resume(Reply::Session(Some(Some(s)))));
    match effect {
        Effect::DeleteSession { session_id } => assert_eq!(session_id, 99),
        e => panic!("{:?}", e),
    }
    let (flow, effect) = account_perform(flow.resume(Reply::Stored(true)));
    match effect {
        Effect::Publish { event: AuthEvent::UserLoggedOut { user_id, session_id, .. } } => {
            assert_eq!(user_id, 5);
            assert_eq!(session_id, 99);
        }
        e => panic!("{:?}", e),
    }
    assert_eq!(account_finish(flow.resume(Reply::Published)), Ok(()));
}

#[test]
fn logout_of_an_unknown_session() {
    let (flow, _) = account_perform(AccountFlow::logout(4));
    let (flow, _) = account_perform(flow.resume(Reply::Session(None)));
    let (flow, effect) = account_perform(flow.resume(Reply::Stored(true)));
    match effect {
        Effect::Publish { event: AuthEvent::UserLoggedOut { user_id, .. } } => assert_eq!(user_id, 0),
        e => panic!("{:?}", e),
    }
    assert_eq!(account_finish(flow.resume(Reply::Published)), Ok(()));

    let (flow, _) = account_perform(AccountFlow::logout(4));
    let (flow, _) = account_perform(flow.resume(Reply::Session(Some(None))));
    assert_eq!(account_finish(flow.resume(Reply::Stored(false))), Err(AuthError::SessionNotFound));
}

#[test]
fn logout_all_purges_sessions_then_tokens() {
    let (flow, effect) = account_perform(AccountFlow::logout_all(8));
    assert!(matches!(effect, Effect::DeleteSessionsByUser { user_id: 8 }));
    let (flow, effect) = account_perform(flow.resume(Reply::Stored(true)));
    assert!(matches!(effect, Effect::DeleteRefreshTokensByUser { user_id: 8 }));
    assert_eq!(account_finish(flow.resume(Reply::Stored(true))), Ok(()));

    let (flow, _) = account_perform(AccountFlow::logout_all(8));
    assert_eq!(account_finish(flow.resume(Reply::Stored(false))), Err(AuthError::SessionNotFound));

    let (flow, effect) = account_perform(AccountFlow::logout_all_except(8, 9));
    assert!(matches!(effect, Effect::DeleteSessionsByUserExcept { user_id: 8, keep_session_id: 9 }));
    assert_eq!(account_finish(flow.resume(Reply::Stored(false))), Err(AuthError::SessionNotFound));
}

#[test]
fn register_sends_a_code_to_a_new_address() {
    assert_eq!(account_finish(AccountFlow::register("a@b.c", "short", "n")), Err(AuthError::WeakPassword));
    assert_eq!(account_finish(AccountFlow::register("a@b.c", "密码密码", "n")), Err(AuthError::WeakPassword));

    let (flow, effect) = account_perform(AccountFlow::register("a@b.c", "longenough", "n"));
    assert!(matches!(effect, Effect::GetUserByEmail { ref email } if email == "a@b.c"));
    let taken = UserInfo { user_id: 1, email: "a@b.c".into(), nickname: "a".into(), password_hash: String::new() };
    assert_eq!(account_finish(flow.resume(Reply::User(Ok(taken)))), Err(AuthError::EmailAlreadyExists));

    let (flow, _) = account_perform(AccountFlow::register("a@b.c", "longenough", "n"));
    let (flow, effect) = account_perform(flow.resume(Reply::User(Err(AuthError::UserNotFound))));
    let code = match effect {
        Effect::CreateVerification { verification } => {
            assert_eq!(verification.email, "a@b.c");
            assert_eq!(verification.purpose, VerificationPurpose::Registration);
            assert_eq!(verification.code.len(), 6);
            assert_eq!(verification.expires_at - verification.created_at, 600_000_000);
            verification.code
        }
        e => panic!("{:?}", e),
    };
    let (flow, effect) = account_perform(flow.resume(Reply::Stored(true)));
    match effect {
        Effect::SendVerificationCode { to, code: c, purpose } => {
            assert_eq!(to, "a@b.c");
            assert_eq!(c, code);
            assert_eq!(purpose, "registration");
        }
        e => panic!("{:?}", e),
    }
    assert_eq!(account_finish(flow.resume(Reply::Mail(Ok(())))), Ok(()));

    let (flow, _) = account_perform(AccountFlow::register("a@b.c", "longenough", "n"));
    let (flow, _) = account_perform(flow.resume(Reply::User(Err(AuthError::UserNotFound))));
    assert_eq!(account_finish(flow.resume(Reply::Stored(false))), Err(AuthError::EmailAlreadyExists));

    let (flow, _) = account_perform(AccountFlow::register("a@b.c", "longenough", "n"));
    let (flow, _) = account_perform(flow.resume(Reply::User(Err(AuthError::UserNotFound))));
    let (flow, _) = account_perform(flow.resume(Reply::Stored(true)));
    assert_eq!(account_finish(flow.resume(Reply::Mail(Err(AuthError::InvalidCredentials)))), Err(AuthError::InvalidCredentials));
}

#[test]
fn change_password_and_change_email() {
    assert_eq!(account_finish(AccountFlow::change_password(1, 2, "old", "short")), Err(AuthError::WeakPassword));
    assert_eq!(account_finish(AccountFlow::change_password(1, 2, "old", "密码密码")), Err(AuthError::WeakPassword));
    let (flow, effect) = account_perform(AccountFlow::change_password(1, 2, "old", "new-password"));
    match effect {
        Effect::UpdatePasswordHash { user_id, password_hash } => {
            assert_eq!(user_id, 1);
            assert_eq!(PasswordService::verify("new-password", &password_hash), Ok(true));
            assert_eq!(PasswordService::verify("old", &password_hash), Ok(false));
        }
        e => panic!("{:?}", e),
    }
    let (flow, effect) = account_perform(flow.resume(Reply::Updated(Ok(()))));
    assert!(matches!(effect, Effect::DeleteSessionsByUserExcept { user_id: 1, keep_session_id: 2 }));
    assert_eq!(account_finish(flow.resume(Reply::Stored(true))), Ok(()));
    let (flow, _) = account_perform(AccountFlow::change_password(1, 2, "old", "new-password"));
    assert_eq!(account_finish(flow.resume(Reply::Updated(Err(AuthError::UserNotFound)))), Err(AuthError::UserNotFound));
    assert_eq!(Effect::UpdatePasswordHash { user_id: 1, password_hash: String::new() }.reply_kind(), ReplyKind::Updated);

    let (flow, effect) = account_perform(AccountFlow::change_email(1, "next@mail.org"));
    match effect {
        Effect::CreateVerification { verification } => {
            assert_eq!(verification.email, "next@mail.org");
            assert_eq!(verification.purpose, VerificationPurpose::EmailChange);
        }
        e => panic!("{:?}", e),
    }
    let (flow, effect) = account_perform(flow.resume(Reply::Stored(true)));
    assert!(matches!(effect, Effect::SendVerificationCode { ref purpose, .. } if purpose == "email_change"));
    assert_eq!(account_finish(flow.resume(Reply::Mail(Ok(())))), Ok(()));

    assert_eq!(confirm_email_change(1, "12345"), Err(AuthError::InvalidVerificationCode));
    assert_eq!(confirm_email_change(1, "123456"), Ok("new@example.com".to_string()));
}

#[test]
fn account_deletion_request_confirm_and_cancel() {
    // A request in force blocks a new one.
    let (flow, effect) = account_perform(AccountFlow::delete_account(6, "u@d.e"));
    assert!(matches!(effect, Effect::FindDeletion { user_id: 6 }));
    let active = AccountDeletion::new(6, "abcdef".into());
    assert_eq!(
        account_finish(flow.resume(Reply::Deletion(Some(Some(active))))),
        Err(AuthError::AccountDeletionAlreadyInProgress)
    );

    // A cancelled one does not.
    let (flow, _) = account_perform(AccountFlow::delete_account(6, "u@d.e"));
    let mut old = AccountDeletion::new(6, "abcdef".into());
    old.cancelled = true;
    let (flow, effect) = account_perform(flow.resume(Reply::Deletion(Some(Some(old)))));
    let code = match effect {
        Effect::CreateDeletion { deletion } => {
            assert_eq!(deletion.user_id, 6);
            assert_eq!(deletion.confirmation_code.chars().count(), 6);
            assert!(!deletion.cancelled);
            assert_eq!(deletion.soft_deleted_at, None);
            deletion.confirmation_code
        }
        e => panic!("{:?}", e),
    };
    let (flow, effect) = account_perform(flow.resume(Reply::Stored(true)));
    match effect {
        Effect::SendVerificationCode { to, code: c, purpose } => {
            assert_eq!(to, "u@d.e");
            assert_eq!(c, code);
            assert_eq!(purpose, "account_deletion");
        }
        e => panic!("{:?}", e),
    }
    assert_eq!(account_finish(flow.resume(Reply::Mail(Ok(())))), Ok(()));

    // A store failure when looking up goes on; one when storing fails.
    let (flow, _) = account_perform(AccountFlow::delete_account(6, "u@d.e"));
    let (flow, _) = account_perform(flow.resume(Reply::Deletion(None)));
    assert_eq!(account_finish(flow.resume(Reply::Stored(false))), Err(AuthError::AccountDeletionNotFound));

    // Confirmation.
    let (flow, _) = account_perform(AccountFlow::confirm_delete_account(6, "zzzzzz"));
    assert_eq!(
        account_finish(flow.resume(Reply::Deletion(Some(Some(AccountDeletion::new(6, "abcdef".into())))))),
        Err(AuthError::InvalidVerificationCode)
    );
    let (flow, _) = account_perform(AccountFlow::confirm_delete_account(6, "abcdef"));
    assert_eq!(account_finish(flow.resume(Reply::Deletion(Some(None)))), Err(AuthError::AccountDeletionNotFound));
    let (flow, _) = account_perform(AccountFlow::confirm_delete_account(6, "abcdef"));
    let (flow, effect) = account_perform(flow.resume(Reply::Deletion(Some(Some(AccountDeletion::new(6, "abcdef".into()))))));
    let confirmed = match effect {
        Effect::UpdateDeletion { deletion } => deletion,
        e => panic!("{:?}", e),
    };
    assert!(confirmed.is_soft_deleted());
    assert_eq!(
        confirmed.permanent_delete_at.unwrap() - confirmed.soft_deleted_at.unwrap(),
        30 * 86_400_000_000
    );
    let (flow, effect) = account_perform(flow.resume(Reply::Stored(true)));
    assert!(matches!(effect, Effect::DeleteSessionsByUser { user_id: 6 }));
    let (flow, effect) = account_perform(flow.resume(Reply::Stored(true)));
    assert!(matches!(effect, Effect::DeleteRefreshTokensByUser { user_id: 6 }));
    assert_eq!(account_finish(flow.resume(Reply::Stored(true))), Ok(()));

    // Cancellation.
    let (flow, _) = account_perform(AccountFlow::cancel_delete_account(6));
    assert_eq!(
        account_finish(flow.resume(Reply::Deletion(Some(Some(AccountDeletion::new(6, "abcdef".into())))))),
        Err(AuthError::AccountDeletionNotFound)
    );
    let (flow, _) = account_perform(AccountFlow::cancel_delete_account(6));
    let (flow, effect) = account_perform(flow.resume(Reply::Deletion(Some(Some(confirmed)))));
    match effect {
        Effect::UpdateDeletion { deletion } => {
            assert!(deletion.cancelled);
            assert!(!deletion.is_soft_deleted());
            assert_eq!(deletion.soft_deleted_at, None);
        }
        e => panic!("{:?}", e),
    }
    assert_eq!(account_finish(flow.resume(Reply::Stored(true))), Ok(()));
}

#[test]
fn refresh_rotates_and_reissues() {
    let jwt = JwtService::new("refresh-secret");
    let token = jwt.issue_refresh_token(21, 22, "mobile").unwrap();
    let (flow, effect) = refresh_perform(RefreshFlow::refresh_token(&jwt, &token));
    let hash = match effect {
        Effect::IsRefreshTokenBlacklisted { token_hash } => token_hash,
        e => panic!("{:?}", e),
    };
    assert_eq!(hash, sha256(&token));
    let (flow, effect) = refresh_perform(flow.resume(Reply::Flag(Some(false)), &jwt));
    match effect {
        Effect::RotateRefreshToken { old_hash, new_hash } => {
            assert_eq!(old_hash, hash);
            assert_eq!(new_hash.len(), 64);
            assert_ne!(new_hash, hash);
        }
        e => panic!("{:?}", e),
    }
    let result = match flow.resume(Reply::Stored(true), &jwt) {
        Step::Finish(Ok(r)) => r,
        _ => panic!("refresh did not succeed"),
    };
    assert_eq!(result.expires_in, 900);
    let access = jwt.verify_access_token(&result.access_token).unwrap();
    assert_eq!(access.sub, uuid_text(21));
    assert_eq!(access.sid, uuid_text(22));
    assert_eq!(access.platform, "mobile");
    let refresh = jwt.verify_refresh_token(&result.refresh_token).unwrap();
    assert_eq!(refresh.exp - refresh.iat, 604800);
}

#[test]
fn refresh_replay_ends_every_session() {
    let jwt = JwtService::new("refresh-secret");
    let token = jwt.issue_refresh_token(21, 22, "web").unwrap();
    let (flow, _) = refresh_perform(RefreshFlow::refresh_token(&jwt, &token));
    let (flow, effect) = refresh_perform(flow.resume(Reply::Flag(Some(true)), &jwt));
    assert!(matches!(effect, Effect::DeleteSessionsByUser { user_id: 21 }));
    let (flow, effect) = refresh_perform(flow.resume(Reply::Stored(true), &jwt));
    assert!(matches!(effect, Effect::DeleteRefreshTokensByUser { user_id: 21 }));
    assert_eq!(refresh_error(flow.resume(Reply::Stored(true), &jwt)), AuthError::TokenReplay);

    let (flow, _) = refresh_perform(RefreshFlow::refresh_token(&jwt, &token));
    let (flow, _) = refresh_perform(flow.resume(Reply::Flag(Some(true)), &jwt));
    assert_eq!(refresh_error(flow.resume(Reply::Stored(false), &jwt)), AuthError::SessionNotFound);
}

#[test]
fn refresh_refusals() {
    let jwt = JwtService::new("refresh-secret");
    assert_eq!(refresh_error(RefreshFlow::refresh_token(&jwt, "not.a.token")), AuthError::TokenInvalid);
    let other = JwtService::new("other").issue_refresh_token(1, 2, "web").unwrap();
    assert_eq!(refresh_error(RefreshFlow::refresh_token(&jwt, &other)), AuthError::TokenInvalid);

    let token = jwt.issue_refresh_token(1, 2, "web").unwrap();
    let (flow, _) = refresh_perform(RefreshFlow::refresh_token(&jwt, &token));
    assert_eq!(refresh_error(flow.resume(Reply::Flag(None), &jwt)), AuthError::RefreshTokenExpired);
    let (flow, _) = refresh_perform(RefreshFlow::refresh_token(&jwt, &token));
    let (flow, _) = refresh_perform(flow.resume(Reply::Flag(Some(false)), &jwt));
    assert_eq!(refresh_error(flow.resume(Reply::Stored(false), &jwt)), AuthError::RefreshTokenExpired);
}

#[test]
fn refresh_begins_with_the_verification_outcome() {
    let claims = JwtClaims { sub: uuid_text(5), sid: uuid_text(6), platform: "web".into(), exp: 2000, iat: 1000 };
    let (flow, effect) = refresh_perform(RefreshFlow::begin_with(Ok(claims), "the.refresh.token"));
    match effect {
        Effect::IsRefreshTokenBlacklisted { token_hash } => assert_eq!(token_hash, sha256("the.refresh.token")),
        e => panic!("{:?}", e),
    }
    let jwt = JwtService::new("refresh-secret");
    let (flow, _) = refresh_perform(flow.resume(Reply::Flag(Some(true)), &jwt));
    assert!(matches!(flow.awaiting(), ReplyKind::Stored));
    assert_eq!(refresh_error(RefreshFlow::begin_with(Err(AuthError::RefreshTokenExpired), "t")), AuthError::RefreshTokenExpired);
    assert_eq!(refresh_error(RefreshFlow::begin_with(Err(AuthError::TokenInvalid), "t")), AuthError::TokenInvalid);
}

#[test]
fn sessions_are_listed_with_the_current_one_marked() {
    let step = SessionsFlow::get_sessions(3, Some(77));
    let flow = match step {
        Step::Perform(f, Effect::FindSessionsByUser { user_id }) => {
            assert_eq!(user_id, 3);
            f
        }
        _ => panic!("expected a session query"),
    };
    let mut a = AuthSession::from_record(77, 3, "desktop", "h".into(), 0, 10, 1_000_000);
    a.last_active_at = 1_000_000;
    let b = AuthSession::from_record(78, 3, "mobile", "h".into(), 86_400_000_000, 10, 86_400_000_000);
    let infos = match flow.resume(Reply::Sessions(Some(vec![a, b]))) {
        Step::Finish(Ok(v)) => v,
        _ => panic!("listing failed"),
    };
    assert_eq!(infos.len(), 2);
    assert_eq!(infos[0].session_id, 77);
    assert!(infos[0].is_current);
    assert_eq!(infos[0].platform, "desktop");
    assert_eq!(infos[0].created_at, "1970-01-01T00:00:00+00:00");
    assert_eq!(infos[0].last_active_at, "1970-01-01T00:00:01+00:00");
    assert!(!infos[1].is_current);
    assert_eq!(infos[1].platform, "mobile");
    assert_eq!(infos[1].created_at, "1970-01-02T00:00:00+00:00");

    let flow = match SessionsFlow::get_sessions(3, None) {
        Step::Perform(f, _) => f,
        _ => panic!(),
    };
    assert!(matches!(flow.resume(Reply::Sessions(None)), Step::Finish(Err(AuthError::SessionNotFound))));
}

#[test]
fn cleanup_round_deletes_each_due_account() {
    let (flow, effect) = cleanup_perform(CleanupFlow::start());
    let now = match effect {
        Effect::FindDueDeletions { now } => now,
        e => panic!("{:?}", e),
    };
    assert_eq!(now, flow.now);
    let due = vec![
        DueDeletion { user_id: 1, soft_deleted_at: Some(5), permanent_delete_at: Some(6) },
        DueDeletion { user_id: 2, soft_deleted_at: None, permanent_delete_at: Some(6) },
    ];
    let mut flow = flow;
    let mut step = flow.resume(Reply::DueDeletions(Some(due)));
    for (user, soft) in [(1u128, 5i64), (2u128, now)] {
        let (f, effect) = cleanup_perform(step);
        match effect {
            Effect::NotifyAccountDeleted { user_id, deleted_at } => {
                assert_eq!(user_id, user);
                assert!(deleted_at.ends_with("+00:00"));
            }
            e => panic!("{:?}", e),
        }
        // The account service's failure does not stop the round.
        let (f, effect) = cleanup_perform(f.resume(Reply::Notified(Err(AuthError::AccountNotFound))));
        assert!(matches!(effect, Effect::DeleteSessionsByUser { user_id } if user_id == user));
        let (f, effect) = cleanup_perform(f.resume(Reply::Stored(true)));
        assert!(matches!(effect, Effect::DeleteRefreshTokensByUser { user_id } if user_id == user));
        let (f, effect) = cleanup_perform(f.resume(Reply::Stored(true)));
        assert!(matches!(effect, Effect::DeleteDeletionRecord { user_id } if user_id == user));
        let (f, effect) = cleanup_perform(f.resume(Reply::Stored(true)));
        match effect {
            Effect::Publish { event: AuthEvent::UserDeleted { user_id, soft_deleted_at, permanent_delete_at, timestamp } } => {
                assert_eq!(user_id, user);
                assert_eq!(soft_deleted_at, soft);
                assert_eq!(permanent_delete_at, now);
                assert_eq!(timestamp, now);
            }
            e => panic!("{:?}", e),
        }
        flow = f;
        step = flow.resume(Reply::Published);
    }
    assert!(matches!(step, CleanupStep::Finish(true)));
}

#[test]
fn cleanup_round_stops_at_a_store_failure() {
    let (flow, _) = cleanup_perform(CleanupFlow::start());
    assert!(matches!(flow.resume(Reply::DueDeletions(None)), CleanupStep::Finish(false)));
    let (flow, _) = cleanup_perform(CleanupFlow::start());
    assert!(matches!(flow.resume(Reply::DueDeletions(Some(vec![]))), CleanupStep::Finish(true)));
    let (flow, _) = cleanup_perform(CleanupFlow::start());
    let due = vec![DueDeletion { user_id: 9, soft_deleted_at: Some(1), permanent_delete_at: Some(2) }];
    let (flow, _) = cleanup_perform(flow.resume(Reply::DueDeletions(Some(due))));
    let (flow, _) = cleanup_perform(flow.resume(Reply::Notified(Ok(()))));
    assert!(matches!(flow.resume(Reply::Stored(false)), CleanupStep::Finish(false)));
}

#[test]
fn reply_kinds_match_effects() {
    assert_eq!(Effect::FindSession { session_id: 1 }.reply_kind(), ReplyKind::Session);
    assert_eq!(Reply::Session(None).kind(), ReplyKind::Session);
    assert_eq!(Effect::DeleteSession { session_id: 1 }.reply_kind(), ReplyKind::Stored);
    assert_eq!(Effect::FindDueDeletions { now: 0 }.reply_kind(), ReplyKind::DueDeletions);
    assert_eq!(Reply::Published.kind(), ReplyKind::Published);
}
