//! Issuing and verifying HS256-signed access and refresh tokens.

use vstd::prelude::*;
use crate::error::AuthError;
use crate::ids::uuid_text;
use crate::jwt::{claims_issued_at, lifetime_kept, JwtClaims};
use crate::text::{chars_of, string_from_chars};
use crate::time::{now_secs, secs_in_range};
use jsonwebtoken::errors::ErrorKind;
use jsonwebtoken::{decode, encode, DecodingKey, EncodingKey, Header, TokenData, Validation};
use serde_json::Value;

verus! {

/// Lifetime of an access token: fifteen minutes.
pub const ACCESS_TOKEN_SECS: i64 = 900;

/// Lifetime of a refresh token: seven days.
pub const REFRESH_TOKEN_SECS: i64 = 604800;

/// The claim fields read from a token: `sub`, `sid` and `platform` when they
/// are strings, `exp` and `iat` when they are unsigned integers, and whether
/// an `aud` claim is present.
pub type ClaimFields = (Option<Seq<char>>, Option<Seq<char>>, Option<Seq<char>>, Option<u64>, Option<u64>, bool);

/// What `jsonwebtoken::decode` with `Validation::default()`, but with the
/// expiry and audience checks switched off, yields for a token under a
/// secret: `None` when it rejects the token (bad format, header or HS256
/// signature, a payload that is no JSON object, no numeric `exp`), else the
/// claim fields of the payload.
pub uninterp spec fn jwt_claims_of(secret: Seq<char>, token: Seq<char>) -> Option<ClaimFields>;

/// Why a token was rejected.
#[derive(Debug, Clone, Copy, PartialEq, Eq, Structural)]
pub enum JwtRejection {
    Expired,
    Other,
}

/// The claim fields of a decoded token: `sub`, `sid`, `platform`, `exp`,
/// `iat`, and whether an `aud` claim is present.
pub struct DecodedClaims(
    pub Option<String>,
    pub Option<String>,
    pub Option<String>,
    pub Option<u64>,
    pub Option<u64>,
    pub bool,
);

pub open spec fn opt_string_view(s: Option<String>) -> Option<Seq<char>> {
    match s {
        Some(t) => Some(t@),
        None => None,
    }
}

pub open spec fn decoded_view(d: DecodedClaims) -> ClaimFields {
    (opt_string_view(d.0), opt_string_view(d.1), opt_string_view(d.2), d.3, d.4, d.5)
}

/// The claim fields that a token made from these claims carries.
pub open spec fn claims_fields(c: JwtClaims) -> ClaimFields {
    (Some(c.sub@), Some(c.sid@), Some(c.platform@), Some(c.exp as u64), Some(c.iat as u64), false)
}

/// `jsonwebtoken::encode` with the default (HS256) header of the claims as a
/// JSON object: it succeeds (an HMAC key matches the header's algorithm, a
/// JSON map always serializes and HMAC signing cannot fail), and decoding the
/// token with the same secret gives the claims back.
#[verifier::external_body]
fn jwt_encode(secret: &str, claims: &JwtClaims) -> (r: Option<String>)
    ensures
        r is Some,
        r matches Some(t) ==> jwt_claims_of(secret@, t@) == Some(claims_fields(*claims)),
{
    let mut m = serde_json::Map::new();
    m.insert("sub".to_string(), Value::from(claims.sub.as_str()));
    m.insert("sid".to_string(), Value::from(claims.sid.as_str()));
    m.insert("platform".to_string(), Value::from(claims.platform.as_str()));
    m.insert("exp".to_string(), Value::from(claims.exp));
    m.insert("iat".to_string(), Value::from(claims.iat));
    encode(&Header::default(), &m, &EncodingKey::from_secret(secret.as_bytes())).ok()
}

/// `jsonwebtoken::decode` of a token as a JSON object, with
/// `Validation::default()` when `check_expiry` holds and with its expiry and
/// audience checks off otherwise. Without the checks the result is the named
/// one. With them, the clock decides: an accepted token has the fields the
/// unchecked decoding gives, a token the unchecked decoding rejects is
/// rejected for a reason other than expiry, and a token with an integer
/// `exp` and no `aud` is accepted or rejected as expired.
#[verifier::external_body]
fn jwt_decode(secret: &str, token: &str, check_expiry: bool) -> (r: Result<DecodedClaims, JwtRejection>)
    ensures
        !check_expiry ==> match r {
            Ok(d) => jwt_claims_of(secret@, token@) == Some(decoded_view(d)),
            Err(k) => jwt_claims_of(secret@, token@) is None && k == JwtRejection::Other,
        },
        check_expiry ==> (r matches Ok(d) ==> jwt_claims_of(secret@, token@) == Some(decoded_view(d))),
        check_expiry ==> (jwt_claims_of(secret@, token@) is None ==> r == Err::<DecodedClaims, JwtRejection>(JwtRejection::Other)),
        check_expiry ==> (jwt_claims_of(secret@, token@) matches Some(c) && c.3 is Some && !c.5
            ==> (r is Ok || r == Err::<DecodedClaims, JwtRejection>(JwtRejection::Expired))),
{
    let mut v = Validation::default();
    v.validate_exp = check_expiry;
    v.validate_aud = check_expiry;
    match decode::<serde_json::Map<String, Value>>(token, &DecodingKey::from_secret(secret.as_bytes()), &v) {
        Ok(TokenData { claims: c, .. }) => Ok(DecodedClaims(
            c.get("sub").and_then(Value::as_str).map(String::from),
            c.get("sid").and_then(Value::as_str).map(String::from),
            c.get("platform").and_then(Value::as_str).map(String::from),
            c.get("exp").and_then(Value::as_u64),
            c.get("iat").and_then(Value::as_u64),
            c.contains_key("aud"),
        )),
        Err(e) if *e.kind() == ErrorKind::ExpiredSignature => Err(JwtRejection::Expired),
        Err(_) => Err(JwtRejection::Other),
    }
}

/// The claims a token yields when all five fields are present and `exp`
/// and `iat` fit in a `usize`.
pub open spec fn complete_fields(f: ClaimFields) -> bool {
    &&& f.0 is Some
    &&& f.1 is Some
    &&& f.2 is Some
    &&& f.3 matches Some(e) && e <= usize::MAX
    &&& f.4 matches Some(i) && i <= usize::MAX
}

/// Claims whose fields are `f`.
pub open spec fn claims_match(c: JwtClaims, f: ClaimFields) -> bool {
    &&& f.0 == Some(c.sub@)
    &&& f.1 == Some(c.sid@)
    &&& f.2 == Some(c.platform@)
    &&& f.3 == Some(c.exp as u64)
    &&& f.4 == Some(c.iat as u64)
}

/// What decoding a token may give: a token whose fields are incomplete or
/// that is rejected outright is invalid; one with complete fields is either
/// accepted with exactly those fields, expired, or (only when it carries an
/// audience) invalid.
pub open spec fn decode_allows(secret: Seq<char>, token: Seq<char>, r: Result<JwtClaims, AuthError>) -> bool {
    match jwt_claims_of(secret, token) {
        None => r == Err::<JwtClaims, AuthError>(AuthError::TokenInvalid),
        Some(f) => if !complete_fields(f) {
            r == Err::<JwtClaims, AuthError>(AuthError::TokenInvalid)
        } else {
            match r {
                Ok(c) => claims_match(c, f),
                Err(e) => e == AuthError::TokenExpired || (f.5 && e == AuthError::TokenInvalid),
            }
        },
    }
}

/// What verifying a token may give: the decoding outcome, except that
/// accepted claims whose expiry has passed are refused with `expired`.
pub open spec fn verify_allows(
    secret: Seq<char>,
    token: Seq<char>,
    r: Result<JwtClaims, AuthError>,
    expired: AuthError,
) -> bool {
    match jwt_claims_of(secret, token) {
        None => r == Err::<JwtClaims, AuthError>(AuthError::TokenInvalid),
        Some(f) => if !complete_fields(f) {
            r == Err::<JwtClaims, AuthError>(AuthError::TokenInvalid)
        } else {
            match r {
                Ok(c) => claims_match(c, f),
                Err(e) => e == AuthError::TokenExpired || e == expired || (f.5 && e == AuthError::TokenInvalid),
            }
        },
    }
}

/// What follows from a token's unchecked fields `f` and the checked
/// decoding's answer (`None` when it accepted the token): incomplete fields
/// are invalid; otherwise acceptance gives exactly those fields, an expiry
/// refusal `TokenExpired`, any other refusal `TokenInvalid`.
pub open spec fn decoding_gives(f: ClaimFields, rejection: Option<JwtRejection>, r: Result<JwtClaims, AuthError>) -> bool {
    if !complete_fields(f) {
        r == Err::<JwtClaims, AuthError>(AuthError::TokenInvalid)
    } else {
        match rejection {
            None => r matches Ok(c) && claims_match(c, f),
            Some(JwtRejection::Expired) => r == Err::<JwtClaims, AuthError>(AuthError::TokenExpired),
            Some(JwtRejection::Other) => r == Err::<JwtClaims, AuthError>(AuthError::TokenInvalid),
        }
    }
}

/// The refusal in a decoding's answer; `None` when it accepted the token.
pub open spec fn rejection_of(checked: Result<DecodedClaims, JwtRejection>) -> Option<JwtRejection> {
    match checked {
        Ok(_) => None,
        Err(k) => Some(k),
    }
}

/// The answers the checked decoding may give for a token whose unchecked
/// fields are `f`: with an integer `exp` and no `aud`, only acceptance or an
/// expiry refusal.
pub open spec fn rejection_allowed(f: ClaimFields, rejection: Option<JwtRejection>) -> bool {
    f.3 is Some && !f.5 ==> rejection != Some(JwtRejection::Other)
}

/// What decoding a token under `secret` gives, for some answer of the
/// checked decoding.
pub open spec fn decode_gives(secret: Seq<char>, token: Seq<char>, r: Result<JwtClaims, AuthError>) -> bool {
    match jwt_claims_of(secret, token) {
        None => r == Err::<JwtClaims, AuthError>(AuthError::TokenInvalid),
        Some(f) => exists|k: Option<JwtRejection>| rejection_allowed(f, k) && #[trigger] decoding_gives(f, k, r),
    }
}

/// What follows from decoded claims at the instant `now` (Unix seconds): a
/// decoding error is kept, claims whose expiry has come are refused with
/// `expired`, other claims are accepted as they are.
pub open spec fn expiry_gives(decoded: Result<JwtClaims, AuthError>, now: i64, expired: AuthError, r: Result<JwtClaims, AuthError>) -> bool {
    match decoded {
        Err(e) => r == Err::<JwtClaims, AuthError>(e),
        Ok(c) => if now as usize >= c.exp {
            r == Err::<JwtClaims, AuthError>(expired)
        } else {
            r == Ok::<JwtClaims, AuthError>(c)
        },
    }
}

/// What verifying a token under `secret` gives: its decoding, checked for
/// expiry at some instant of the clock.
pub open spec fn verify_gives(secret: Seq<char>, token: Seq<char>, expired: AuthError, r: Result<JwtClaims, AuthError>) -> bool {
    exists|d: Result<JwtClaims, AuthError>, now: i64|
        0 <= now && secs_in_range(now) && decode_gives(secret, token, d) && #[trigger] expiry_gives(d, now, expired, r)
}

/// The claims a token yields from its unchecked fields and the checked
/// decoding's answer, as that decoding returned it.
pub fn claims_from_decoding(fields: DecodedClaims, checked: Result<DecodedClaims, JwtRejection>) -> (r: Result<JwtClaims, AuthError>)
    ensures
        decoding_gives(decoded_view(fields), rejection_of(checked), r),
{
    let DecodedClaims(sub, sid, platform, exp, iat, _) = fields;
    let (sub, sid, platform, exp, iat) = match (sub, sid, platform, exp, iat) {
        (Some(a), Some(b), Some(c), Some(d), Some(e)) => (a, b, c, d, e),
        _ => return Err(AuthError::TokenInvalid),
    };
    if exp > usize::MAX as u64 || iat > usize::MAX as u64 {
        return Err(AuthError::TokenInvalid);
    }
    match checked {
        Ok(_) => Ok(JwtClaims { sub, sid, platform, exp: exp as usize, iat: iat as usize }),
        Err(JwtRejection::Expired) => Err(AuthError::TokenExpired),
        Err(JwtRejection::Other) => Err(AuthError::TokenInvalid),
    }
}

/// Decoded claims checked for expiry at the instant `now` (Unix seconds).
pub fn expiry_verdict(decoded: Result<JwtClaims, AuthError>, now: i64, expired: AuthError) -> (r: Result<JwtClaims, AuthError>)
    ensures
        expiry_gives(decoded, now, expired, r),
{
    match decoded {
        Err(e) => Err(e),
        Ok(c) => if c.is_expired_at(now) {
            Err(expired)
        } else {
            Ok(c)
        },
    }
}

/// A token under `secret` that carries these claims.
pub open spec fn token_carries(
    secret: Seq<char>,
    token: Seq<char>,
    user_id: u128,
    session_id: u128,
    platform: Seq<char>,
    lifetime_secs: i64,
) -> bool {
    exists|now: i64, c: JwtClaims|
        0 <= now && secs_in_range(now) && claims_issued_at(c, user_id, session_id, platform, lifetime_secs, now)
            && lifetime_kept(c, lifetime_secs, now)
            && #[trigger] jwt_claims_of(secret, token) == Some(claims_fields(c))
}

/// JWT token service for issuing and validating access and refresh tokens.
pub struct JwtService {
    secret: String,
}

impl View for JwtService {
    type V = Seq<char>;

    closed spec fn view(&self) -> Seq<char> {
        self.secret@
    }
}

impl JwtService {
    pub fn new(secret: &str) -> (s: JwtService)
        ensures
            s@ == secret@,
    {
        let v = chars_of(secret);
        JwtService { secret: string_from_chars(v.as_slice()) }
    }

    /// Issues an access token (fifteen minutes).
    pub fn issue_access_token(&self, user_id: u128, session_id: u128, platform: &str) -> (r: Result<String, AuthError>)
        ensures
            r matches Ok(t) && token_carries(self@, t@, user_id, session_id, platform@, ACCESS_TOKEN_SECS),
    {
        let claims = JwtClaims::new(user_id, session_id, platform, ACCESS_TOKEN_SECS);
        self.sign(&claims)
    }

    /// Issues a refresh token (seven days).
    pub fn issue_refresh_token(&self, user_id: u128, session_id: u128, platform: &str) -> (r: Result<String, AuthError>)
        ensures
            r matches Ok(t) && token_carries(self@, t@, user_id, session_id, platform@, REFRESH_TOKEN_SECS),
    {
        let claims = JwtClaims::new(user_id, session_id, platform, REFRESH_TOKEN_SECS);
        self.sign(&claims)
    }

    /// Verifies and decodes an access token.
    pub fn verify_access_token(&self, token: &str) -> (r: Result<JwtClaims, AuthError>)
        ensures
            verify_gives(self@, token@, AuthError::TokenExpired, r),
            verify_allows(self@, token@, r, AuthError::TokenExpired),
            r matches Ok(c) ==> exists|now: i64| 0 <= now && secs_in_range(now) && !(now as usize >= c.exp),
    {
        let decoded = self.decode(token);
        let ghost d = decoded;
        let now = now_secs();
        let r = expiry_verdict(decoded, now, AuthError::TokenExpired);
        proof {
            assert(expiry_gives(d, now, AuthError::TokenExpired, r));
        }
        r
    }

    /// Verifies and decodes a refresh token.
    pub fn verify_refresh_token(&self, token: &str) -> (r: Result<JwtClaims, AuthError>)
        ensures
            verify_gives(self@, token@, AuthError::RefreshTokenExpired, r),
            verify_allows(self@, token@, r, AuthError::RefreshTokenExpired),
            r matches Ok(c) ==> exists|now: i64| 0 <= now && secs_in_range(now) && !(now as usize >= c.exp),
    {
        let decoded = self.decode(token);
        let ghost d = decoded;
        let now = now_secs();
        let r = expiry_verdict(decoded, now, AuthError::RefreshTokenExpired);
        proof {
            assert(expiry_gives(d, now, AuthError::RefreshTokenExpired, r));
        }
        r
    }

    fn sign(&self, claims: &JwtClaims) -> (r: Result<String, AuthError>)
        ensures
            r matches Ok(t) && jwt_claims_of(self@, t@) == Some(claims_fields(*claims)),
    {
        match jwt_encode(self.secret.as_str(), claims) {
            Some(t) => Ok(t),
            None => Err(AuthError::TokenInvalid),
        }
    }

    /// Decodes a token: the unchecked decoding gives its fields, the checked
    /// one (on `jsonwebtoken`'s clock) whether it is accepted, and
    /// `claims_from_decoding` what follows from both.
    fn decode(&self, token: &str) -> (r: Result<JwtClaims, AuthError>)
        ensures
            decode_gives(self@, token@, r),
            decode_allows(self@, token@, r),
    {
        let fields = match jwt_decode(self.secret.as_str(), token, false) {
            Ok(d) => d,
            Err(_) => return Err(AuthError::TokenInvalid),
        };
        let checked = jwt_decode(self.secret.as_str(), token, true);
        let ghost k = rejection_of(checked);
        let r = claims_from_decoding(fields, checked);
        proof {
            assert(rejection_allowed(jwt_claims_of(self@, token@)->0, k));
            assert(decoding_gives(jwt_claims_of(self@, token@)->0, k, r));
        }
        r
    }
}

/// A token issued by a service verifies, under the same secret, to the
/// claims it was issued with, unless it has expired by then.
pub proof fn lemma_issued_token_verifies(
    secret: Seq<char>,
    token: Seq<char>,
    user_id: u128,
    session_id: u128,
    platform: Seq<char>,
    lifetime_secs: i64,
    r: Result<JwtClaims, AuthError>,
    expired: AuthError,
)
    requires
        token_carries(secret, token, user_id, session_id, platform, lifetime_secs),
        verify_allows(secret, token, r, expired),
    ensures
        match r {
            Ok(c) => c.sub@ == uuid_text(user_id) && c.sid@ == uuid_text(session_id) && c.platform@ == platform,
            Err(e) => e == AuthError::TokenExpired || e == expired,
        },
{
    let (now, c) = choose|now: i64, c: JwtClaims|
        0 <= now && secs_in_range(now) && claims_issued_at(c, user_id, session_id, platform, lifetime_secs, now)
            && lifetime_kept(c, lifetime_secs, now)
            && #[trigger] jwt_claims_of(secret, token) == Some(claims_fields(c));
    assert(c.exp as u64 <= usize::MAX);
    assert(c.iat as u64 <= usize::MAX);
}

/// Expiry depends on a token's `exp` alone: checked at an instant before
/// `exp`, decoded claims are accepted as they are; from `exp` on they are
/// refused with the given error; a decoding error is kept.
pub proof fn law_expiry_by_exp_alone(
    decoded: Result<JwtClaims, AuthError>,
    now: i64,
    expired: AuthError,
    r: Result<JwtClaims, AuthError>,
)
    requires
        0 <= now <= usize::MAX,
        expiry_gives(decoded, now, expired, r),
    ensures
        match decoded {
            Ok(c) => (now < c.exp ==> r == Ok::<JwtClaims, AuthError>(c))
                && (now >= c.exp ==> r == Err::<JwtClaims, AuthError>(expired)),
            Err(e) => r == Err::<JwtClaims, AuthError>(e),
        },
{
}

/// A refresh token lives seven days: claims whose `exp` is `iat` plus the
/// refresh lifetime are accepted at every instant from `iat` until that
/// lifetime has run out, however much of it has passed.
pub proof fn law_refresh_claims_live_seven_days(
    c: JwtClaims,
    now: i64,
    r: Result<JwtClaims, AuthError>,
)
    requires
        c.exp == c.iat + REFRESH_TOKEN_SECS,
        c.iat <= now < c.iat + REFRESH_TOKEN_SECS,
        now <= usize::MAX,
        expiry_gives(Ok(c), now, AuthError::RefreshTokenExpired, r),
    ensures
        r == Ok::<JwtClaims, AuthError>(c),
{
}

} // verus!
