//! Decisions of the gRPC front of the authentication service: the status
//! each error is answered with, and how request fields are read.

use vstd::prelude::*;
use crate::account_client::dev_email_for;
use crate::error::{auth_error_message, AuthError};
use crate::ids::{parse_uuid, uuid_parsed, uuid_string};
use crate::password::{byte_len, is_hash_of, PasswordService, MAX_PASSWORD_BYTES};
use crate::session::{platform_named, Platform};
use crate::text::{before_first, prefix_before, string_append, to_owned_string};

verus! {

/// The gRPC status codes the service answers with.
#[derive(Debug, Clone, Copy, PartialEq, Eq, Structural)]
pub enum GrpcCode {
    InvalidArgument,
    NotFound,
    AlreadyExists,
    PermissionDenied,
    FailedPrecondition,
    Unauthenticated,
}

/// The status code of each error.
pub open spec fn code_of(err: AuthError) -> GrpcCode {
    match err {
        AuthError::InvalidCredentials | AuthError::InvalidPassword => GrpcCode::Unauthenticated,
        AuthError::WeakPassword => GrpcCode::InvalidArgument,
        AuthError::EmailAlreadyExists => GrpcCode::AlreadyExists,
        AuthError::AccountSuspended | AuthError::AccountDeleted => GrpcCode::PermissionDenied,
        AuthError::AccountNotFound | AuthError::UserNotFound => GrpcCode::NotFound,
        AuthError::SessionNotFound => GrpcCode::NotFound,
        AuthError::TokenExpired | AuthError::RefreshTokenExpired => GrpcCode::Unauthenticated,
        AuthError::TokenInvalid => GrpcCode::Unauthenticated,
        AuthError::TokenReplay => GrpcCode::Unauthenticated,
        AuthError::InvalidVerificationCode | AuthError::VerificationCodeExpired => GrpcCode::InvalidArgument,
        AuthError::AccountDeletionNotFound => GrpcCode::NotFound,
        AuthError::AccountDeletionAlreadyInProgress => GrpcCode::FailedPrecondition,
    }
}

/// A gRPC status: code and message.
#[derive(Debug)]
pub struct GrpcStatus {
    pub code: GrpcCode,
    pub message: String,
}

/// The status an error is answered with; its message is the error's message.
pub fn map_auth_error(err: AuthError) -> (s: GrpcStatus)
    ensures
        s.code == code_of(err),
        s.message@ == auth_error_message(err),
{
    let code = match err {
        AuthError::InvalidCredentials | AuthError::InvalidPassword => GrpcCode::Unauthenticated,
        AuthError::WeakPassword => GrpcCode::InvalidArgument,
        AuthError::EmailAlreadyExists => GrpcCode::AlreadyExists,
        AuthError::AccountSuspended | AuthError::AccountDeleted => GrpcCode::PermissionDenied,
        AuthError::AccountNotFound | AuthError::UserNotFound => GrpcCode::NotFound,
        AuthError::SessionNotFound => GrpcCode::NotFound,
        AuthError::TokenExpired | AuthError::RefreshTokenExpired => GrpcCode::Unauthenticated,
        AuthError::TokenInvalid => GrpcCode::Unauthenticated,
        AuthError::TokenReplay => GrpcCode::Unauthenticated,
        AuthError::InvalidVerificationCode | AuthError::VerificationCodeExpired => GrpcCode::InvalidArgument,
        AuthError::AccountDeletionNotFound => GrpcCode::NotFound,
        AuthError::AccountDeletionAlreadyInProgress => GrpcCode::FailedPrecondition,
    };
    GrpcStatus { code, message: to_owned_string(err.message()) }
}

/// Whether a login request names a platform the service knows.
pub fn is_login_platform(platform: &str) -> (r: bool)
    ensures
        r == (platform_named(platform@) is Some),
{
    Platform::from_str(platform).is_some()
}

/// An identifier in a request: a UUID in any form `uuid` reads.
pub fn parse_request_id(text: &str) -> (r: Option<u128>)
    ensures
        r == uuid_parsed(text@),
{
    parse_uuid(text)
}

/// The session a request comes from, from its `x-session-id` metadata.
pub fn session_from_metadata(value: Option<&str>) -> (r: Option<u128>)
    ensures
        r == (match value {
            Some(v) => uuid_parsed(v@),
            None => None,
        }),
{
    match value {
        Some(v) => parse_uuid(v),
        None => None,
    }
}

/// The profile a registration is completed with while the submitted
/// password and nickname are not kept: the e-mail address hashed as the
/// password (empty when hashing fails) and the part of the address before
/// `@` as the nickname.
pub fn registration_profile(email: &str) -> (r: (String, String))
    ensures
        email@.len() < 8 ==> r.0@.len() == 0,
        email@.len() >= 8 && byte_len(email) <= MAX_PASSWORD_BYTES ==> is_hash_of(email@, r.0@),
        r.0@.len() == 0 || is_hash_of(email@, r.0@),
        r.1@ == before_first(email@, '@'),
{
    let hash = match PasswordService::hash(email) {
        Ok(h) => h,
        Err(_) => String::new(),
    };
    (hash, prefix_before(email, '@'))
}

/// The address a deletion code is sent to while addresses are not looked
/// up: `user_<id>@upgo.local`.
pub fn deletion_email(user_id: u128) -> (r: String)
    ensures
        r@ == dev_email_for(user_id),
{
    let mut email = to_owned_string("user_");
    string_append(&mut email, uuid_string(user_id).as_str());
    string_append(&mut email, "@upgo.local");
    email
}

/// Every token error and every credential error is answered
/// `Unauthenticated`.
pub proof fn law_token_and_credential_errors_unauthenticated(err: AuthError)
    requires
        err == AuthError::TokenExpired || err == AuthError::RefreshTokenExpired || err == AuthError::TokenInvalid
            || err == AuthError::TokenReplay || err == AuthError::InvalidCredentials || err == AuthError::InvalidPassword,
    ensures
        code_of(err) == GrpcCode::Unauthenticated,
{
}

/// Only token and credential errors are answered `Unauthenticated`.
pub proof fn law_unauthenticated_only_for_tokens_and_credentials(err: AuthError)
    requires
        code_of(err) == GrpcCode::Unauthenticated,
    ensures
        err == AuthError::TokenExpired || err == AuthError::RefreshTokenExpired || err == AuthError::TokenInvalid
            || err == AuthError::TokenReplay || err == AuthError::InvalidCredentials || err == AuthError::InvalidPassword,
{
}

/// A missing user, account, session or pending deletion is answered
/// `NotFound`.
pub proof fn law_missing_things_not_found(err: AuthError)
    requires
        err == AuthError::UserNotFound || err == AuthError::AccountNotFound || err == AuthError::SessionNotFound
            || err == AuthError::AccountDeletionNotFound,
    ensures
        code_of(err) == GrpcCode::NotFound,
{
}

/// Bad input (a weak password, a wrong or expired verification code) is
/// answered `InvalidArgument`; a suspended or deleted account
/// `PermissionDenied`; a taken e-mail address `AlreadyExists`; a deletion
/// already under way `FailedPrecondition`.
pub proof fn law_remaining_codes(err: AuthError)
    ensures
        err == AuthError::WeakPassword || err == AuthError::InvalidVerificationCode
            || err == AuthError::VerificationCodeExpired ==> code_of(err) == GrpcCode::InvalidArgument,
        err == AuthError::AccountSuspended || err == AuthError::AccountDeleted ==> code_of(err) == GrpcCode::PermissionDenied,
        err == AuthError::EmailAlreadyExists ==> code_of(err) == GrpcCode::AlreadyExists,
        err == AuthError::AccountDeletionAlreadyInProgress ==> code_of(err) == GrpcCode::FailedPrecondition,
{
}

} // verus!
