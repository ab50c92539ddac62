//! Authentication of requests at the edge: public routes pass, the others
//! need a valid bearer access token, whose user and session are handed on.

use vstd::prelude::*;
use std::sync::Arc;
use crate::error::AuthError;
use crate::jwt::JwtClaims;
use crate::jwt_service::{verify_allows, verify_gives, JwtService};
use crate::time::secs_in_range;
use crate::text::{is_prefix_of, starts_with, strip_prefix, to_owned_string};
use vstd::utf8::encode_utf8;

verus! {

/// Routes that need no token.
pub open spec fn is_public_route(path: Seq<char>) -> bool {
    ||| is_prefix_of("/api/auth/login"@, path)
    ||| is_prefix_of("/api/auth/register"@, path)
    ||| is_prefix_of("/api/auth/verify-email"@, path)
    ||| is_prefix_of("/api/auth/refresh"@, path)
}

pub fn is_whitelisted(path: &str) -> (r: bool)
    ensures
        r == is_public_route(path@),
{
    starts_with(path, "/api/auth/login") || starts_with(path, "/api/auth/register")
        || starts_with(path, "/api/auth/verify-email") || starts_with(path, "/api/auth/refresh")
}

/// The token of an `Authorization: Bearer <token>` header.
pub open spec fn bearer_of(header: Option<Seq<char>>) -> Option<Seq<char>> {
    match header {
        Some(h) => if is_prefix_of("Bearer "@, h) {
            Some(h.skip(7))
        } else {
            None
        },
        None => None,
    }
}

pub fn bearer_token(header: Option<&str>) -> (r: Option<String>)
    ensures
        match r {
            Some(t) => bearer_of(match header { Some(h) => Some(h@), None => None }) == Some(t@),
            None => bearer_of(match header { Some(h) => Some(h@), None => None }) is None,
        },
{
    proof {
        reveal_strlit("Bearer ");
    }
    match header {
        Some(h) => strip_prefix(h, "Bearer "),
        None => None,
    }
}

/// Whether `http` accepts a text as a header value: every byte is a
/// visible character, a space or a tab, or at least 128.
pub open spec fn header_value_ok(bytes: Seq<u8>) -> bool {
    forall|i: int| 0 <= i < bytes.len() ==> (bytes[i] >= 32 && bytes[i] != 127) || bytes[i] == 9
}

/// Whether a text, as UTF-8, is a valid header value.
pub open spec fn header_text_ok(s: Seq<char>) -> bool {
    header_value_ok(encode_utf8(s))
}

fn is_header_value(s: &str) -> (r: bool)
    ensures
        r == header_text_ok(s@),
{
    let b = s.as_bytes();
    proof {
        assert(b@ == encode_utf8(s@));
    }
    let mut i: usize = 0;
    while i < b.len()
        invariant
            i <= b.len(),
            b@ == encode_utf8(s@),
            forall|j: int| 0 <= j < i ==> (b@[j] >= 32 && b@[j] != 127) || b@[j] == 9,
        decreases b.len() - i,
    {
        let c = b[i];
        if !((c >= 32 && c != 127) || c == 9) {
            proof {
                assert(!((b@[i as int] >= 32 && b@[i as int] != 127) || b@[i as int] == 9));
                assert(!header_value_ok(b@));
            }
            return false;
        }
        i = i + 1;
    }
    true
}

/// A claim as a header value, or the empty value when it is no valid one.
pub fn header_value_or_empty(s: &str) -> (r: String)
    ensures
        header_text_ok(s@) ==> r@ == s@,
        !header_text_ok(s@) ==> r@ == Seq::<char>::empty(),
{
    if is_header_value(s) {
        to_owned_string(s)
    } else {
        String::new()
    }
}

/// What happens to a request.
#[derive(Debug)]
pub enum Gate {
    /// A public route: forwarded as it is.
    Pass,
    /// Answered with 401: there is no bearer token (`cause` is `None`) or
    /// the token was refused for `cause`.
    Unauthorized { cause: Option<AuthError> },
    /// Forwarded with the user and session of the token's claims as headers.
    Forward { claims: JwtClaims, user_id: String, session_id: String },
}

/// JWT authentication for protected routes.
#[derive(Clone)]
pub struct AuthMiddleware {
    pub jwt_service: Arc<JwtService>,
}

/// The header value a claim is handed on as.
pub open spec fn header_or_empty(s: Seq<char>) -> Seq<char> {
    if header_text_ok(s) {
        s
    } else {
        Seq::empty()
    }
}

pub open spec fn opt_view(h: Option<&str>) -> Option<Seq<char>> {
    match h {
        Some(t) => Some(t@),
        None => None,
    }
}

/// What becomes of a request, given its path, its `Authorization` header and
/// the outcome of verifying its bearer token (`None` when none was
/// verified): public routes pass; without a bearer token, or without a
/// verdict, the request is refused; a refused token is refused with its
/// cause; accepted claims are forwarded with their user and session.
pub open spec fn gate_is(g: Gate, path: Seq<char>, authorization: Option<Seq<char>>, verdict: Option<Result<JwtClaims, AuthError>>) -> bool {
    if is_public_route(path) {
        g is Pass
    } else if bearer_of(authorization) is None {
        g == Gate::Unauthorized { cause: None }
    } else {
        match verdict {
            None => g == Gate::Unauthorized { cause: None },
            Some(Err(e)) => g == Gate::Unauthorized { cause: Some(e) },
            Some(Ok(c)) => match g {
                Gate::Forward { claims, user_id, session_id } => {
                    &&& claims == c
                    &&& user_id@ == header_or_empty(c.sub@)
                    &&& session_id@ == header_or_empty(c.sid@)
                },
                _ => false,
            },
        }
    }
}

/// What `handle` may decide: what becomes of the request under some outcome of verifying the bearer
/// token as an access token under `secret` — its decoding checked for expiry
/// at some instant (`verify_gives`), with the consequences `verify_allows`
/// draws, and, for accepted claims, claims not expired at some instant.
pub open spec fn handled_as(g: Gate, secret: Seq<char>, path: Seq<char>, authorization: Option<Seq<char>>) -> bool {
    match bearer_of(authorization) {
        Some(token) if !is_public_route(path) => exists|r: Result<JwtClaims, AuthError>|
            verify_gives(secret, token, AuthError::TokenExpired, r)
                && verify_allows(secret, token, r, AuthError::TokenExpired)
                && (r matches Ok(c) ==> exists|now: i64| secs_in_range(now) && !(now as usize >= c.exp))
                && #[trigger] gate_is(g, path, authorization, Some(r)),
        _ => gate_is(g, path, authorization, None),
    }
}

/// Decides about a request from its path, its `Authorization` header and the
/// outcome of verifying its bearer token.
pub fn gate_for(path: &str, authorization: Option<&str>, verdict: Option<Result<JwtClaims, AuthError>>) -> (g: Gate)
    ensures
        gate_is(g, path@, opt_view(authorization), verdict),
{
    if is_whitelisted(path) {
        return Gate::Pass;
    }
    if bearer_token(authorization).is_none() {
        return Gate::Unauthorized { cause: None };
    }
    match verdict {
        None => Gate::Unauthorized { cause: None },
        Some(Err(e)) => Gate::Unauthorized { cause: Some(e) },
        Some(Ok(claims)) => {
            let user_id = header_value_or_empty(claims.sub.as_str());
            let session_id = header_value_or_empty(claims.sid.as_str());
            Gate::Forward { claims, user_id, session_id }
        },
    }
}

impl AuthMiddleware {
    pub fn new(jwt_service: Arc<JwtService>) -> (m: AuthMiddleware)
        ensures
            m.jwt_service == jwt_service,
    {
        AuthMiddleware { jwt_service }
    }

    /// Decides about a request from its path and `Authorization` header: the
    /// bearer token, if any, is verified as an access token and what becomes of
    /// the request follows from the outcome. Forwarded claims were accepted under the
    /// service's secret and had not expired at the instant of verification.
    pub fn handle(state: &JwtService, path: &str, authorization: Option<&str>) -> (g: Gate)
        ensures
            handled_as(g, state@, path@, opt_view(authorization)),
    {
        if is_whitelisted(path) {
            return Gate::Pass;
        }
        let verdict = match bearer_token(authorization) {
            Some(t) => Some(state.verify_access_token(t.as_str())),
            None => None,
        };
        let ghost v = verdict;
        let g = gate_for(path, authorization, verdict);
        proof {
            if bearer_of(opt_view(authorization)) is Some && !is_public_route(path@) {
                assert(gate_is(g, path@, opt_view(authorization), Some(v->0)));
            }
        }
        g
    }
}

/// Public routes pass whatever the `Authorization` header holds, even a
/// refused token.
pub proof fn law_public_routes_pass(g: Gate, secret: Seq<char>, path: Seq<char>, authorization: Option<Seq<char>>)
    requires
        is_public_route(path),
        handled_as(g, secret, path, authorization),
    ensures
        (g is Pass),
{
}

/// On any other route a request without a bearer token is refused, with no
/// cause, and only a request with one can be forwarded.
pub proof fn law_protected_routes_need_a_bearer(g: Gate, secret: Seq<char>, path: Seq<char>, authorization: Option<Seq<char>>)
    requires
        !is_public_route(path),
        handled_as(g, secret, path, authorization),
    ensures
        (bearer_of(authorization) is None) ==> (g == (Gate::Unauthorized { cause: None })),
        !(g is Pass),
{
}

} // verus!
