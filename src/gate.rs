use vstd::prelude::*;
use vstd::string::*;
use crate::error::{AppError, CredentialError};
use crate::text::{has_prefix, starts_with_text};
use crate::token::{accepted, jwt_decoded, verify_jwt, Claims, ClaimsView};

verus! {

/// The token that an `Authorization` value carries: what follows the literal
/// prefix `Bearer `, when that is not empty.
pub open spec fn bearer_of(h: Seq<char>) -> Option<Seq<char>> {
    if has_prefix(h, "Bearer "@) && h.len() > "Bearer "@.len() {
        Some(h.subrange("Bearer "@.len() as int, h.len() as int))
    } else {
        None
    }
}

/// The auth guard's decision on a request, from its `Authorization` value (if any),
/// what the decoder makes of the token, and the clock.
pub open spec fn gate_decision(header: Option<Seq<char>>, secret: Seq<char>, now: u64) -> Result<ClaimsView, CredentialError> {
    match header {
        None => Err(CredentialError::Missing),
        Some(h) => match bearer_of(h) {
            None => Err(CredentialError::Malformed),
            Some(t) => match accepted(jwt_decoded(t, secret), now) {
                Ok(c) => Ok(c),
                Err(e) => Err(CredentialError::Invalid(e)),
            },
        },
    }
}

/// Takes the token out of an `Authorization` value of the form `Bearer <token>`.
pub fn bearer_token(header: &str) -> (r: Option<&str>)
    ensures
        r is Some <==> bearer_of(header@) is Some,
        r is Some ==> r->0@ == bearer_of(header@)->0,
{
    let prefix = "Bearer ";
    if !starts_with_text(header, prefix) {
        return None;
    }
    let skip = prefix.unicode_len();
    let n = header.unicode_len();
    if n <= skip {
        return None;
    }
    Some(header.substring_char(skip, n))
}

/// The auth auth guard: requires an `Authorization` header, of the form
/// `Bearer <token>`, whose token verifies under the secret at time `now`.
/// On success the verified claims are what downstream handlers see.
pub fn jwt_validation(header: Option<&str>, secret: &str, now: u64) -> (r: Result<Claims, CredentialError>)
    ensures
        match gate_decision(
            match header { Some(h) => Some(h@), None => None },
            secret@,
            now,
        ) {
            Ok(c) => r is Ok && r->Ok_0@ == c,
            Err(e) => r == Err::<Claims, CredentialError>(e),
        },
{
    match header {
        None => Err(CredentialError::Missing),
        Some(h) => match bearer_token(h) {
            None => Err(CredentialError::Malformed),
            Some(t) => match verify_jwt(secret, t, now) {
                Ok(c) => Ok(c),
                Err(e) => Err(CredentialError::Invalid(e)),
            },
        },
    }
}

/// The `/auth/verify` endpoint: the auth guard's decision as a response-level
/// result.
pub fn verify_session(header: Option<&str>, secret: &str, now: u64) -> (r: Result<Claims, AppError>)
    ensures
        match gate_decision(
            match header { Some(h) => Some(h@), None => None },
            secret@,
            now,
        ) {
            Ok(c) => r is Ok && r->Ok_0@ == c,
            Err(e) => r is Err && r->Err_0 == AppError::CredentialError(e),
        },
{
    match jwt_validation(header, secret, now) {
        Ok(c) => Ok(c),
        Err(e) => Err(AppError::CredentialError(e)),
    }
}

} // verus!
