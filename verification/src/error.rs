//! Errors of the authentication domain.

use vstd::prelude::*;

verus! {

/// Every way an authentication operation can fail.
#[derive(Debug, Clone, Copy, PartialEq, Eq, Structural)]
pub enum AuthError {
    InvalidCredentials,
    InvalidPassword,
    WeakPassword,
    EmailAlreadyExists,
    AccountSuspended,
    AccountDeleted,
    AccountNotFound,
    SessionNotFound,
    TokenExpired,
    TokenInvalid,
    TokenReplay,
    RefreshTokenExpired,
    InvalidVerificationCode,
    VerificationCodeExpired,
    UserNotFound,
    AccountDeletionNotFound,
    AccountDeletionAlreadyInProgress,
}

/// The human-readable message of each error.
pub open spec fn auth_error_message(e: AuthError) -> Seq<char> {
    match e {
        AuthError::InvalidCredentials => "Invalid credentials"@,
        AuthError::InvalidPassword => "Invalid password"@,
        AuthError::WeakPassword => "Weak password (min 8 characters)"@,
        AuthError::EmailAlreadyExists => "Email already exists"@,
        AuthError::AccountSuspended => "Account suspended"@,
        AuthError::AccountDeleted => "Account deleted"@,
        AuthError::AccountNotFound => "Account not found"@,
        AuthError::SessionNotFound => "Session not found"@,
        AuthError::TokenExpired => "Token expired"@,
        AuthError::TokenInvalid => "Token invalid"@,
        AuthError::TokenReplay => "Token replay detected"@,
        AuthError::RefreshTokenExpired => "Refresh token expired"@,
        AuthError::InvalidVerificationCode => "Invalid verification code"@,
        AuthError::VerificationCodeExpired => "Verification code expired"@,
        AuthError::UserNotFound => "User not found"@,
        AuthError::AccountDeletionNotFound => "Account deletion request not found"@,
        AuthError::AccountDeletionAlreadyInProgress => "Account deletion already in progress"@,
    }
}

impl AuthError {
    /// The message that describes this error (what `Display` shows).
    pub fn message(&self) -> (r: &'static str)
        ensures
            r@ == auth_error_message(*self),
    {
        match self {
            AuthError::InvalidCredentials => "Invalid credentials",
            AuthError::InvalidPassword => "Invalid password",
            AuthError::WeakPassword => "Weak password (min 8 characters)",
            AuthError::EmailAlreadyExists => "Email already exists",
            AuthError::AccountSuspended => "Account suspended",
            AuthError::AccountDeleted => "Account deleted",
            AuthError::AccountNotFound => "Account not found",
            AuthError::SessionNotFound => "Session not found",
            AuthError::TokenExpired => "Token expired",
            AuthError::TokenInvalid => "Token invalid",
            AuthError::TokenReplay => "Token replay detected",
            AuthError::RefreshTokenExpired => "Refresh token expired",
            AuthError::InvalidVerificationCode => "Invalid verification code",
            AuthError::VerificationCodeExpired => "Verification code expired",
            AuthError::UserNotFound => "User not found",
            AuthError::AccountDeletionNotFound => "Account deletion request not found",
            AuthError::AccountDeletionAlreadyInProgress => "Account deletion already in progress",
        }
    }
}

} // verus!
