//! E-mail verification codes.

use vstd::prelude::*;
use rand::Rng;
use crate::text::{str_eq, string_push};
use crate::time::{micros_in_range, now_micros, MICROS_PER_MINUTE};

verus! {

/// What a verification code is used for.
#[derive(Debug, Clone, Copy, PartialEq, Eq, Structural)]
pub enum VerificationPurpose {
    Registration,
    EmailChange,
    AccountDeletion,
}

pub open spec fn purpose_name(p: VerificationPurpose) -> Seq<char> {
    match p {
        VerificationPurpose::Registration => "registration"@,
        VerificationPurpose::EmailChange => "email_change"@,
        VerificationPurpose::AccountDeletion => "account_deletion"@,
    }
}

/// How a stored purpose text is read back: unknown texts count as registration.
pub open spec fn purpose_from_name(s: Seq<char>) -> VerificationPurpose {
    if s == "email_change"@ {
        VerificationPurpose::EmailChange
    } else if s == "account_deletion"@ {
        VerificationPurpose::AccountDeletion
    } else {
        VerificationPurpose::Registration
    }
}

impl VerificationPurpose {
    /// The text under which the purpose is stored.
    pub fn as_str(&self) -> (r: &'static str)
        ensures
            r@ == purpose_name(*self),
    {
        match self {
            VerificationPurpose::Registration => "registration",
            VerificationPurpose::EmailChange => "email_change",
            VerificationPurpose::AccountDeletion => "account_deletion",
        }
    }

    /// Reads a stored purpose text.
    pub fn from_stored(s: &str) -> (r: VerificationPurpose)
        ensures
            r == purpose_from_name(s@),
    {
        if str_eq(s, "email_change") {
            VerificationPurpose::EmailChange
        } else if str_eq(s, "account_deletion") {
            VerificationPurpose::AccountDeletion
        } else {
            VerificationPurpose::Registration
        }
    }
}

/// Storing a purpose and reading it back gives the same purpose.
pub proof fn lemma_purpose_roundtrip(p: VerificationPurpose)
    ensures
        purpose_from_name(purpose_name(p)) == p,
{
    reveal_strlit("registration");
    reveal_strlit("email_change");
    reveal_strlit("account_deletion");
    assert("registration"@[0] != "email_change"@[0]);
    assert("registration"@.len() != "account_deletion"@.len());
}

/// How long a code stays valid.
pub const CODE_VALIDITY_MICROS: i64 = 10 * MICROS_PER_MINUTE;

/// The number of digits in a code.
pub const CODE_DIGITS: usize = 6;

/// Six ASCII decimal digits.
pub open spec fn is_verification_code(s: Seq<char>) -> bool {
    &&& s.len() == 6
    &&& forall|i: int| 0 <= i < s.len() ==> '0' <= #[trigger] s[i] <= '9'
}

/// `rand::thread_rng().gen_range(0..10)`: a random value below ten.
#[verifier::external_body]
fn random_decimal_digit() -> (d: u8)
    ensures
        d < 10,
{
    rand::thread_rng().gen_range(0..10u8)
}

/// A pending e-mail verification.
#[derive(Debug, Clone)]
pub struct EmailVerification {
    pub email: String,
    pub code: String,
    pub purpose: VerificationPurpose,
    pub created_at: i64,
    pub expires_at: i64,
}

impl EmailVerification {
    /// A new verification with a random six-digit code, valid for ten minutes
    /// from now.
    pub fn new(email: String, purpose: VerificationPurpose) -> (v: EmailVerification)
        ensures
            v.email@ == email@,
            v.purpose == purpose,
            is_verification_code(v.code@),
            micros_in_range(v.created_at),
            v.expires_at == v.created_at + CODE_VALIDITY_MICROS,
    {
        let code = Self::generate_code();
        let now = now_micros();
        EmailVerification {
            email,
            code,
            purpose,
            created_at: now,
            expires_at: now + CODE_VALIDITY_MICROS,
        }
    }

    fn generate_code() -> (c: String)
        ensures
            is_verification_code(c@),
    {
        let mut c = String::new();
        let mut i: usize = 0;
        while i < CODE_DIGITS
            invariant
                i <= CODE_DIGITS,
                c@.len() == i,
                forall|j: int| 0 <= j < c@.len() ==> '0' <= #[trigger] c@[j] <= '9',
            decreases CODE_DIGITS - i,
        {
            let d = random_decimal_digit();
            let ch = (48u8 + d) as char;
            string_push(&mut c, ch);
            i = i + 1;
        }
        c
    }

    /// Whether the code has expired at the instant `now`.
    pub fn is_expired_at(&self, now: i64) -> (r: bool)
        ensures
            r == (now > self.expires_at),
    {
        now > self.expires_at
    }

    /// Whether the code has expired by the current time.
    pub fn is_expired(&self) -> (r: bool)
        ensures
            exists|now: i64| micros_in_range(now) && r == (now > self.expires_at),
    {
        let now = now_micros();
        self.is_expired_at(now)
    }

    /// Whether `code` is this verification's code and it has not expired at `now`.
    pub fn verify_at(&self, code: &str, now: i64) -> (r: bool)
        ensures
            r == (!(now > self.expires_at) && self.code@ == code@),
    {
        !self.is_expired_at(now) && str_eq(self.code.as_str(), code)
    }

    /// Whether `code` is this verification's code and it has not expired yet.
    pub fn verify(&self, code: &str) -> (r: bool)
        ensures
            exists|now: i64|
                micros_in_range(now) && r == (!(now > self.expires_at) && self.code@ == code@),
    {
        let now = now_micros();
        self.verify_at(code, now)
    }

    /// A verification as stored: the purpose is read back from its text.
    pub fn from_record(
        email: String,
        code: String,
        purpose: &str,
        created_at: i64,
        expires_at: i64,
    ) -> (v: EmailVerification)
        ensures
            v.email@ == email@,
            v.code@ == code@,
            v.purpose == purpose_from_name(purpose@),
            v.created_at == created_at,
            v.expires_at == expires_at,
    {
        EmailVerification {
            email,
            code,
            purpose: VerificationPurpose::from_stored(purpose),
            created_at,
            expires_at,
        }
    }
}

} // verus!
