use vstd::prelude::*;
use crate::error::{AppError, TokenError};
use jsonwebtoken::errors::ErrorKind;
use jsonwebtoken::{DecodingKey, EncodingKey, Header, Validation};
use serde_json::Value as JsonValue;

verus! {

/// How long a session token stays valid after it is issued: 24 hours.
pub const TOKEN_LIFETIME_SECS: u64 = 86400;

/// What a session token asserts: its subject, when it was issued and when it
/// stops being valid, in seconds since the Unix epoch.
#[derive(Clone, Debug)]
pub struct Claims {
    pub sub: String,
    pub exp: u64,
    pub iat: u64,
}

/// The claims of a token as the decoder found them: a claim that is absent or
/// of the wrong JSON type is `None`.
#[derive(Clone, Debug)]
pub struct Payload {
    pub sub: Option<String>,
    pub exp: Option<u64>,
    pub iat: Option<u64>,
}

pub ghost struct ClaimsView {
    pub sub: Seq<char>,
    pub exp: u64,
    pub iat: u64,
}

pub ghost struct PayloadView {
    pub sub: Option<Seq<char>>,
    pub exp: Option<u64>,
    pub iat: Option<u64>,
}

/// The characters of an optional text.
pub open spec fn text_view(t: Option<String>) -> Option<Seq<char>> {
    match t {
        Some(s) => Some(s@),
        None => None,
    }
}

impl View for Claims {
    type V = ClaimsView;

    open spec fn view(&self) -> ClaimsView {
        ClaimsView { sub: self.sub@, exp: self.exp, iat: self.iat }
    }
}

impl View for Payload {
    type V = PayloadView;

    open spec fn view(&self) -> PayloadView {
        PayloadView { sub: text_view(self.sub), exp: self.exp, iat: self.iat }
    }
}

/// The clock values for which an expiry 24 hours later fits in `u64`.
pub open spec fn clock_in_range(now: u64) -> bool {
    now <= u64::MAX - TOKEN_LIFETIME_SECS
}

/// The claims issued to `sub` at time `now`.
pub open spec fn issued(sub: Seq<char>, now: u64) -> ClaimsView
    recommends
        clock_in_range(now),
{
    ClaimsView { sub, iat: now, exp: (now + TOKEN_LIFETIME_SECS) as u64 }
}

/// What verification makes of a decoded token at time `now`: a signature or
/// structure failure passes through; all three claims must be present; the
/// token is refused as expired once `now` is past its expiry.
pub open spec fn accepted(decoded: Result<PayloadView, TokenError>, now: u64) -> Result<ClaimsView, TokenError> {
    match decoded {
        Err(e) => Err(e),
        Ok(p) => {
            if p.sub is None || p.exp is None || p.iat is None {
                Err(TokenError::Malformed)
            } else if now > p.exp->0 {
                Err(TokenError::Expired)
            } else {
                Ok(ClaimsView { sub: p.sub->0, exp: p.exp->0, iat: p.iat->0 })
            }
        }
    }
}

/// The decoder's outcome over views.
pub open spec fn decoded_view(d: Result<Payload, TokenError>) -> Result<PayloadView, TokenError> {
    match d {
        Ok(p) => Ok(p@),
        Err(e) => Err(e),
    }
}

/// The payload that a token signed from the given claims carries.
pub open spec fn payload_of(c: ClaimsView) -> PayloadView {
    PayloadView { sub: Some(c.sub), exp: Some(c.exp), iat: Some(c.iat) }
}

/// The token that the signer makes of the claims `{sub, iat, exp}` under a
/// secret, or `None` where it refuses.
pub uninterp spec fn jwt_signed(sub: Seq<char>, iat: u64, exp: u64, secret: Seq<char>) -> Option<Seq<char>>;

/// What the decoder finds in a token under a secret: its claims, or why the
/// signature or the structure was refused.
pub uninterp spec fn jwt_decoded(token: Seq<char>, secret: Seq<char>) -> Result<PayloadView, TokenError>;

/// Relies on jsonwebtoken::encode with the default header (HS256) and the
/// secret as HMAC key: the token depends on the claims and the secret alone.
#[verifier::external_body]
fn sign_claims(c: &Claims, secret: &str) -> (r: Option<String>)
    ensures
        r is Some <==> jwt_signed(c.sub@, c.iat, c.exp, secret@) is Some,
        r is Some ==> jwt_signed(c.sub@, c.iat, c.exp, secret@) == Some(r->0@),
{
    let mut m = serde_json::Map::new();
    m.insert("sub".to_owned(), JsonValue::from(c.sub.clone()));
    m.insert("iat".to_owned(), JsonValue::from(c.iat));
    m.insert("exp".to_owned(), JsonValue::from(c.exp));
    let key = EncodingKey::from_secret(secret.as_bytes());
    jsonwebtoken::encode(&Header::default(), &m, &key).ok()
}

/// Relies on jsonwebtoken::decode with HS256, the secret as HMAC key and the
/// expiry check left to the caller: the outcome depends on the token and the
/// secret alone.
#[verifier::external_body]
fn decode_claims(token: &str, secret: &str) -> (r: Result<Payload, TokenError>)
    ensures
        r is Ok <==> jwt_decoded(token@, secret@) is Ok,
        r is Ok ==> jwt_decoded(token@, secret@) == Ok::<PayloadView, TokenError>(r->Ok_0@),
        r is Err ==> jwt_decoded(token@, secret@) == Err::<PayloadView, TokenError>(r->Err_0),
{
    let mut rules = Validation::default();
    rules.validate_exp = false;
    let key = DecodingKey::from_secret(secret.as_bytes());
    match jsonwebtoken::decode::<serde_json::Map<String, JsonValue>>(token, &key, &rules) {
        Ok(d) => Ok(Payload {
            sub: d.claims.get("sub").and_then(|v| v.as_str()).map(|s| s.to_owned()),
            exp: d.claims.get("exp").and_then(|v| v.as_u64()),
            iat: d.claims.get("iat").and_then(|v| v.as_u64()),
        }),
        Err(e) => match e.kind() {
            ErrorKind::InvalidSignature => Err(TokenError::BadSignature),
            _ => Err(TokenError::Malformed),
        },
    }
}

/// The claims for a token issued to `user_id` at time `now`.
pub fn issue_claims(user_id: &str, now: u64) -> (c: Claims)
    requires
        clock_in_range(now),
    ensures
        c@ == issued(user_id@, now),
{
    Claims { sub: user_id.to_owned(), iat: now, exp: now + TOKEN_LIFETIME_SECS }
}

/// Issues a signed session token for `user_id` at time `now`, valid for 24
/// hours; the secret is the server's signing key.
pub fn create_jwt(secret: &str, user_id: &str, now: u64) -> (r: Result<String, AppError>)
    requires
        clock_in_range(now),
    ensures
        match jwt_signed(user_id@, now, (now + TOKEN_LIFETIME_SECS) as u64, secret@) {
            Some(t) => r is Ok && r->Ok_0@ == t,
            None => r is Err && r->Err_0 == AppError::JWTValidationError(TokenError::Signing),
        },
{
    let claims = issue_claims(user_id, now);
    match sign_claims(&claims, secret) {
        Some(t) => Ok(t),
        None => Err(AppError::JWTValidationError(TokenError::Signing)),
    }
}

/// Checks what the decoder found in a token against the clock: the claims
/// when all three are present and `now` is not past the expiry.
pub fn read_claims(decoded: Result<Payload, TokenError>, now: u64) -> (r: Result<Claims, TokenError>)
    ensures
        match accepted(decoded_view(decoded), now) {
            Ok(c) => r is Ok && r->Ok_0@ == c,
            Err(e) => r == Err::<Claims, TokenError>(e),
        },
{
    match decoded {
        Err(e) => Err(e),
        Ok(p) => match (p.sub, p.exp, p.iat) {
            (Some(sub), Some(exp), Some(iat)) => {
                if now > exp {
                    Err(TokenError::Expired)
                } else {
                    Ok(Claims { sub, exp, iat })
                }
            },
            _ => Err(TokenError::Malformed),
        },
    }
}

/// Verifies a session token at time `now`: its signature under the secret,
/// its structure, and its expiry.
pub fn verify_jwt(secret: &str, token: &str, now: u64) -> (r: Result<Claims, TokenError>)
    ensures
        match accepted(jwt_decoded(token@, secret@), now) {
            Ok(c) => r is Ok && r->Ok_0@ == c,
            Err(e) => r == Err::<Claims, TokenError>(e),
        },
{
    read_claims(decode_claims(token, secret), now)
}

/// The claims issued at `t0`, as a token carries them, are accepted with
/// their subject, expiry and issue time until the expiry has passed, and
/// refused as expired at every later instant.
pub proof fn lemma_issued_until_expiry(sub: Seq<char>, t0: u64, t1: u64)
    requires
        clock_in_range(t0),
    ensures
        t1 <= t0 + TOKEN_LIFETIME_SECS ==> accepted(Ok(payload_of(issued(sub, t0))), t1) == Ok::<ClaimsView, TokenError>(issued(sub, t0)),
        t1 > t0 + TOKEN_LIFETIME_SECS ==> accepted(Ok(payload_of(issued(sub, t0))), t1) == Err::<ClaimsView, TokenError>(TokenError::Expired),
{
}

/// When the claims that a token carries are accepted, their subject is
/// exactly the subject that was signed into it.
pub proof fn lemma_subject_round_trip(c: ClaimsView, now: u64)
    ensures
        accepted(Ok(payload_of(c)), now) is Ok ==> accepted(Ok(payload_of(c)), now)->Ok_0.sub == c.sub,
{
}

} // verus!
