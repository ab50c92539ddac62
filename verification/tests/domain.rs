use upgo::account_deletion::AccountDeletion;
use upgo::email_verification::{EmailVerification, VerificationPurpose};
use upgo::error::AuthError;
use upgo::jwt::JwtClaims;
use upgo::jwt_service::{claims_from_decoding, expiry_verdict, DecodedClaims, JwtRejection, JwtService};
use upgo::password::PasswordService;
use upgo::session::{AuthSession, Platform};

fn new_id() -> u128 {
    uuid::Uuid::now_v7().as_u128()
}

#[test]
fn test_deletion_lifecycle() {
    let mut d = AccountDeletion::new(new_id(), "123456".into());
    assert!(!d.is_soft_deleted());

    d.confirm();
    assert!(d.is_soft_deleted());
    assert!(!d.is_ready_for_permanent_delete()); // 30 days not passed

    d.cancel();
    assert!(!d.is_soft_deleted());
}

#[test]
fn test_verify_code() {
    let d = AccountDeletion::new(new_id(), "654321".into());
    assert!(d.verify_code("654321"));
    assert!(!d.verify_code("000000"));
}

#[test]
fn test_code_generation() {
    let v = EmailVerification::new("test@example.com".into(), VerificationPurpose::Registration);
    assert_eq!(v.code.len(), 6);
    assert!(v.code.chars().all(|c| c.is_ascii_digit()));
}

#[test]
fn test_code_verify() {
    let v = EmailVerification::new("test@example.com".into(), VerificationPurpose::Registration);
    assert!(v.verify(&v.code));
    assert!(!v.verify("000000"));
}

#[test]
fn test_claims_creation() {
    let claims = JwtClaims::new(new_id(), new_id(), "desktop", 900);
    assert_eq!(claims.platform, "desktop");
    assert!(!claims.is_expired());
}

#[test]
fn test_password_hash_and_verify() {
    let password = "testpassword123";
    let hash = PasswordService::hash(password).unwrap();
    assert!(PasswordService::verify(password, &hash).unwrap());
    assert!(!PasswordService::verify("wrongpassword", &hash).unwrap());
}

#[test]
fn test_weak_password() {
    let result = PasswordService::hash("short");
    assert!(result.is_err());
}

#[test]
fn test_session_creation() {
    let session = AuthSession::new(new_id(), Platform::Desktop, "hash".to_string());
    assert_eq!(session.platform, Platform::Desktop);
    assert!(!session.is_expired());
}

#[test]
fn test_platform_roundtrip() {
    for p in &[Platform::Desktop, Platform::Web, Platform::Mobile] {
        assert_eq!(Platform::from_str(p.as_str()), Some(p.clone()));
    }
}

fn make_service() -> JwtService {
    JwtService::new("test-secret-for-testing")
}

fn uuid_text(id: u128) -> String {
    uuid::Uuid::from_u128(id).to_string()
}

#[test]
fn test_issue_and_verify_access_token() {
    let svc = make_service();
    let uid = new_id();
    let sid = new_id();
    let token = svc.issue_access_token(uid, sid, "desktop").unwrap();
    let claims = svc.verify_access_token(&token).unwrap();
    assert_eq!(claims.sub, uuid_text(uid));
    assert_eq!(claims.sid, uuid_text(sid));
    assert_eq!(claims.platform, "desktop");
}

#[test]
fn test_issue_and_verify_refresh_token() {
    let svc = make_service();
    let uid = new_id();
    let sid = new_id();
    let token = svc.issue_refresh_token(uid, sid, "web").unwrap();
    let claims = svc.verify_refresh_token(&token).unwrap();
    assert_eq!(claims.platform, "web");
}

#[test]
fn test_invalid_token() {
    let svc = make_service();
    let result = svc.verify_access_token("invalid-token");
    assert!(result.is_err());
}

#[test]
fn test_different_secrets() {
    let svc1 = JwtService::new("secret1");
    let svc2 = JwtService::new("secret2");
    let token = svc1.issue_access_token(new_id(), new_id(), "mobile").unwrap();
    let result = svc2.verify_access_token(&token);
    assert!(result.is_err());
}

// ---- further cases ---------------------------------------------------------

#[test]
fn weak_password_error_is_weak_password() {
    assert_eq!(PasswordService::hash("1234567"), Err(AuthError::WeakPassword));
    assert!(PasswordService::hash("12345678").is_ok());
}

#[test]
fn password_minimum_counts_characters() {
    assert_eq!(PasswordService::hash("密码密码"), Err(AuthError::WeakPassword));
    let hash = PasswordService::hash("密码密码密码密码").unwrap();
    assert_eq!(PasswordService::verify("密码密码密码密码", &hash), Ok(true));
}

#[test]
fn verify_rejects_text_that_is_no_hash() {
    assert_eq!(PasswordService::verify("whatever", "not-a-phc-string"), Err(AuthError::InvalidPassword));
}

#[test]
fn invalid_token_is_token_invalid() {
    let svc = make_service();
    assert!(matches!(svc.verify_access_token("invalid-token"), Err(AuthError::TokenInvalid)));
    assert!(matches!(svc.verify_refresh_token("a.b.c"), Err(AuthError::TokenInvalid)));
}

#[test]
fn expired_claims_are_refused() {
    let svc = make_service();
    // A lifetime far in the past: the token is expired beyond the decoder's leeway.
    let claims = JwtClaims::new(1, 2, "web", -3600);
    assert!(claims.is_expired());
    let token = svc.issue_access_token(1, 2, "web").unwrap();
    assert!(svc.verify_access_token(&token).is_ok());
    let at = JwtClaims::new_at(1, 2, "web", 900, 1_000);
    assert_eq!(at.iat, 1_000);
    assert_eq!(at.exp, 1_900);
    assert!(at.is_expired_at(1_900));
    assert!(!at.is_expired_at(1_899));
}

#[test]
fn issued_tokens_live_their_lifetime() {
    let claims = JwtClaims::new(1, 2, "desktop", 900);
    assert_eq!(claims.exp, claims.iat + 900);
    let svc = make_service();
    let access = svc.verify_access_token(&svc.issue_access_token(1, 2, "web").unwrap()).unwrap();
    assert_eq!(access.exp, access.iat + 900);
    let refresh = svc.verify_refresh_token(&svc.issue_refresh_token(1, 2, "web").unwrap()).unwrap();
    assert_eq!(refresh.exp, refresh.iat + 604800);
}

#[test]
fn claims_carry_hyphenated_uuids() {
    let c = JwtClaims::new_at(0x0123456789abcdef0123456789abcdef, 0, "mobile", 10, 5);
    assert_eq!(c.sub, "01234567-89ab-cdef-0123-456789abcdef");
    assert_eq!(c.sid, "00000000-0000-0000-0000-000000000000");
}

#[test]
fn refresh_token_of_other_secret_is_refused() {
    let a = JwtService::new("a");
    let b = JwtService::new("b");
    let t = a.issue_refresh_token(7, 8, "web").unwrap();
    assert!(matches!(b.verify_refresh_token(&t), Err(AuthError::TokenInvalid)));
    assert_eq!(a.verify_refresh_token(&t).unwrap().sub, uuid_text(7));
}

#[test]
fn deletion_becomes_due_after_cooldown() {
    let mut d = AccountDeletion::new(5, "abcdef".into());
    d.confirm_at(1_000_000);
    assert_eq!(d.soft_deleted_at, Some(1_000_000));
    assert_eq!(d.permanent_delete_at, Some(1_000_000 + 30 * 86_400_000_000));
    assert!(!d.is_ready_for_permanent_delete_at(1_000_000 + 30 * 86_400_000_000 - 1));
    assert!(d.is_ready_for_permanent_delete_at(1_000_000 + 30 * 86_400_000_000));
    d.cancel();
    assert!(!d.is_ready_for_permanent_delete_at(i64::MAX));
    assert!(d.cancelled);
}

#[test]
fn default_deletion_is_empty() {
    let d = AccountDeletion::default();
    assert_eq!(d.user_id, 0);
    assert!(d.confirmation_code.is_empty());
    assert!(!d.is_soft_deleted());
}

#[test]
fn verification_expires_after_ten_minutes() {
    let v = EmailVerification::from_record("a@b.c".into(), "123456".into(), "email_change", 0, 600_000_000);
    assert_eq!(v.purpose, VerificationPurpose::EmailChange);
    assert!(v.verify_at("123456", 600_000_000));
    assert!(!v.verify_at("123456", 600_000_001));
    assert!(!v.verify_at("654321", 0));
    assert!(v.is_expired_at(600_000_001));
    let fresh = EmailVerification::new("x@y.z".into(), VerificationPurpose::AccountDeletion);
    assert_eq!(fresh.expires_at - fresh.created_at, 600_000_000);
}

#[test]
fn purposes_are_stored_by_name() {
    for p in [VerificationPurpose::Registration, VerificationPurpose::EmailChange, VerificationPurpose::AccountDeletion] {
        assert_eq!(VerificationPurpose::from_stored(p.as_str()), p);
    }
    assert_eq!(VerificationPurpose::from_stored("something"), VerificationPurpose::Registration);
}

#[test]
fn unknown_platforms_are_refused() {
    assert_eq!(Platform::from_str("tv"), None);
    assert_eq!(Platform::from_str("Desktop"), None);
    assert_eq!(Platform::Mobile.as_str(), "mobile");
}

#[test]
fn stored_session_with_unknown_platform_is_web() {
    let s = AuthSession::from_record(1, 2, "watch", "h".into(), 10, 20, 15);
    assert_eq!(s.platform, Platform::Web);
    assert_eq!(s.expires_at, 20);
    let mut t = AuthSession::new(3, Platform::Mobile, "x".into());
    assert_eq!(t.expires_at - t.created_at, 7 * 86_400_000_000);
    assert_eq!(t.last_active_at, t.created_at);
    t.touch();
    assert!(t.last_active_at >= t.created_at);
    assert!(t.is_expired_at(t.expires_at + 1));
    assert!(!t.is_expired_at(t.expires_at));
}

#[test]
fn error_messages() {
    assert_eq!(AuthError::WeakPassword.message(), "Weak password (min 8 characters)");
    assert_eq!(AuthError::TokenReplay.message(), "Token replay detected");
    assert_eq!(AuthError::AccountDeletionAlreadyInProgress.message(), "Account deletion already in progress");
}

fn fields(exp: Option<u64>) -> DecodedClaims {
    DecodedClaims(Some("u".into()), Some("s".into()), Some("web".into()), exp, Some(100), false)
}

#[test]
fn decoding_outcomes() {
    let c = claims_from_decoding(fields(Some(1000)), Ok(fields(Some(1000)))).unwrap();
    assert_eq!((c.sub.as_str(), c.sid.as_str(), c.platform.as_str(), c.exp, c.iat), ("u", "s", "web", 1000, 100));
    assert!(matches!(claims_from_decoding(fields(Some(1000)), Err(JwtRejection::Expired)), Err(AuthError::TokenExpired)));
    assert!(matches!(claims_from_decoding(fields(Some(1000)), Err(JwtRejection::Other)), Err(AuthError::TokenInvalid)));
    assert!(matches!(claims_from_decoding(fields(None), Ok(fields(None))), Err(AuthError::TokenInvalid)));
    let no_sub = DecodedClaims(None, Some("s".into()), Some("web".into()), Some(1), Some(1), false);
    assert!(matches!(claims_from_decoding(no_sub, Err(JwtRejection::Expired)), Err(AuthError::TokenInvalid)));
}

#[test]
fn expiry_outcomes() {
    let c = || claims_from_decoding(fields(Some(1000)), Ok(fields(Some(1000))));
    assert_eq!(expiry_verdict(c(), 999, AuthError::TokenExpired).unwrap().exp, 1000);
    assert!(matches!(expiry_verdict(c(), 1000, AuthError::TokenExpired), Err(AuthError::TokenExpired)));
    assert!(matches!(expiry_verdict(c(), 5000, AuthError::RefreshTokenExpired), Err(AuthError::RefreshTokenExpired)));
    assert!(matches!(
        expiry_verdict(Err(AuthError::TokenInvalid), 0, AuthError::TokenExpired),
        Err(AuthError::TokenInvalid)
    ));
}
