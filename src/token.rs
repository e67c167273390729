//! Bearer-token validation: a token is decoded and its signature checked with
//! the shared secret, then its expiry is compared with the current time.

use vstd::prelude::*;
use chrono::{DateTime, Utc};
use jsonwebtoken::{Algorithm, DecodingKey, Validation};
use serde_json::Value;

verus! {

/// `jsonwebtoken::errors::Error`, carried opaquely: why a token did not decode.
#[verifier::external_type_specification]
#[verifier::external_body]
pub struct ExJwtError(jsonwebtoken::errors::Error);

/// The claims that a validated token carries. All of them are optional.
#[derive(Debug)]
pub struct Token {
    /// Identifies the account.
    pub uid: Option<i64>,
    /// Expiry, in seconds since the Unix epoch (UTC).
    pub exp: Option<i64>,
    /// Issue time, in seconds since the Unix epoch (UTC).
    pub iat: Option<i64>,
    pub scopes: Option<Vec<String>>,
    pub role: Option<String>,
}

/// Why a token was refused.
#[derive(Debug)]
pub enum AuthError {
    /// The signature does not match or the token is malformed; holds the
    /// decoder's diagnostic.
    Invalid(String),
    /// The token's expiry is at or before the current time.
    Expired,
}

/// The text that describes an expired token.
pub open spec fn expired_message() -> Seq<char> {
    "access token expired"@
}

impl AuthError {
    pub open spec fn message_spec(&self) -> Seq<char> {
        match self {
            AuthError::Invalid(m) => m@,
            AuthError::Expired => expired_message(),
        }
    }

    /// The human-readable description of the refusal.
    pub fn message(&self) -> (r: String)
        ensures
            r@ == self.message_spec(),
    {
        match self {
            AuthError::Invalid(m) => m.clone(),
            AuthError::Expired => {
                let s = "access token expired";
                proof {
                    reveal_strlit("access token expired");
                }
                s.to_string()
            },
        }
    }
}

/// Whether a token with expiry `exp` is expired at time `now`; a token
/// without an expiry never expires.
pub open spec fn is_expired(exp: Option<i64>, now: i64) -> bool {
    match exp {
        Some(e) => e <= now,
        None => false,
    }
}

/// What validation makes of claims that decoded under a matching signature.
pub open spec fn claims_outcome(claims: Token, now: i64) -> Result<Token, AuthError> {
    if is_expired(claims.exp, now) {
        Err(AuthError::Expired)
    } else {
        Ok(claims)
    }
}

/// The view of an optional text.
pub open spec fn text_view(t: Option<String>) -> Option<Seq<char>> {
    match t {
        Some(x) => Some(x@),
        None => None,
    }
}

/// The view of an optional list of texts.
pub open spec fn texts_view(t: Option<Vec<String>>) -> Option<Seq<Seq<char>>> {
    match t {
        Some(l) => Some(l@.map_values(|x: String| x@)),
        None => None,
    }
}

impl Token {
    /// The claims as plain values: uid, exp, iat, scopes, role.
    pub open spec fn claims_view(&self) -> (Option<i64>, Option<i64>, Option<i64>, Option<Seq<Seq<char>>>, Option<Seq<char>>) {
        (self.uid, self.exp, self.iat, texts_view(self.scopes), text_view(self.role))
    }
}

/// The claims that `token` carries when it decodes, with an HS256 signature
/// that `secret` verifies, and each claim has its expected shape; `None`
/// otherwise. In order: uid, exp, iat (seconds since the epoch), scopes,
/// role.
pub uninterp spec fn jwt_claims(token: Seq<char>, secret: Seq<char>) -> Option<
    (Option<i64>, Option<i64>, Option<i64>, Option<Seq<Seq<char>>>, Option<Seq<char>>),
>;

/// Relies on `jsonwebtoken::decode` with HS256 and `secret` as the HMAC key,
/// expiry not checked and no claim required (the library applies its own
/// expiry rule), then on `serde_json::from_value` for the five claims: an
/// absent or null claim is `None`, one of another shape is an error, and
/// `iat` is read by chrono as an RFC 3339 time. No clock is read, so the
/// outcome depends on the arguments alone.
#[verifier::external_body]
fn decode_jwt(token: &str, secret: &str) -> (r: Result<Token, jsonwebtoken::errors::Error>)
    ensures
        match r {
            Ok(t) => jwt_claims(token@, secret@) == Some(t.claims_view()),
            Err(_) => jwt_claims(token@, secret@) is None,
        },
{
    let mut v = Validation::new(Algorithm::HS256);
    v.validate_exp = false;
    v.required_spec_claims.clear();
    let c = jsonwebtoken::decode::<Value>(token, &DecodingKey::from_secret(secret.as_bytes()), &v)?.claims;
    let row = Value::Array(vec![c["uid"].clone(), c["exp"].clone(), c["iat"].clone(), c["scopes"].clone(), c["role"].clone()]);
    let (uid, exp, iat, scopes, role): (Option<i64>, Option<i64>, Option<DateTime<Utc>>, Option<Vec<String>>, Option<String>) =
        serde_json::from_value(row)?;
    Ok(Token { uid, exp, iat: iat.map(|d| d.timestamp()), scopes, role })
}

/// Relies on the `Display` of `jsonwebtoken::errors::Error`: its diagnostic.
#[verifier::external_body]
fn jwt_error_message(e: &jsonwebtoken::errors::Error) -> String {
    e.to_string()
}

/// Relies on `chrono::Utc::now`: the current time in seconds since the epoch.
/// Nothing is promised of its value.
#[verifier::external_body]
pub(crate) fn current_timestamp() -> i64 {
    chrono::Utc::now().timestamp()
}

/// Decodes `token` under `secret` into its claims. Any failure, of the
/// signature or of the shape of a claim, is `Invalid` with the decoder's
/// diagnostic.
pub fn decode_claims(token: &str, secret: &str) -> (r: Result<Token, AuthError>)
    ensures
        match jwt_claims(token@, secret@) {
            Some(c) => r matches Ok(t) && t.claims_view() == c,
            None => r matches Err(AuthError::Invalid(_)),
        },
{
    match decode_jwt(token, secret) {
        Ok(t) => Ok(t),
        Err(e) => Err(AuthError::Invalid(jwt_error_message(&e))),
    }
}

/// Whether a token with expiry `exp` is expired at `now` (seconds since the
/// epoch, UTC). A token without an expiry never expires.
pub fn expired_token(exp: Option<i64>, now: i64) -> (r: bool)
    ensures
        r == is_expired(exp, now),
{
    match exp {
        Some(e) => e <= now,
        None => false,
    }
}

/// Applies the expiry rule to decoded claims: expired claims are refused with
/// `Expired`, all others are accepted unchanged.
pub fn validate_claims(claims: Token, now: i64) -> (r: Result<Token, AuthError>)
    ensures
        r == claims_outcome(claims, now),
{
    if expired_token(claims.exp, now) {
        Err(AuthError::Expired)
    } else {
        Ok(claims)
    }
}

/// What validating `token` under `secret` at `now` gives, by kind: `None`
/// when it is invalid, `Some(false)` when it is expired, `Some(true)` when
/// it is accepted.
pub open spec fn token_verdict(token: Seq<char>, secret: Seq<char>, now: i64) -> Option<bool> {
    match jwt_claims(token, secret) {
        None => None,
        Some(c) => Some(!is_expired(c.1, now)),
    }
}

/// Validates `token_string` against `secret_key` at time `now`: the
/// signature must verify, the claims must have their shapes, and the expiry,
/// if any, must lie after `now`. Accepted claims are handed back as decoded.
pub fn validate_token_at(token_string: &str, secret_key: &str, now: i64) -> (r: Result<Token, AuthError>)
    ensures
        match jwt_claims(token_string@, secret_key@) {
            None => r matches Err(AuthError::Invalid(_)),
            Some(c) => if is_expired(c.1, now) {
                r matches Err(AuthError::Expired)
            } else {
                r matches Ok(t) && t.claims_view() == c
            },
        },
{
    match decode_claims(token_string, secret_key) {
        Ok(claims) => validate_claims(claims, now),
        Err(e) => Err(e),
    }
}

/// Validates `token_string` against `secret_key` at the current time: the
/// clock's reading `now` decides as in `validate_token_at`.
pub fn validate_token(token_string: &str, secret_key: &str) -> (r: Result<Token, AuthError>)
    ensures
        jwt_claims(token_string@, secret_key@) is None ==> r matches Err(AuthError::Invalid(_)),
        r matches Ok(t) ==> jwt_claims(token_string@, secret_key@) == Some(t.claims_view()),
        r matches Err(AuthError::Expired) ==> jwt_claims(token_string@, secret_key@) is Some,
        r matches Err(AuthError::Invalid(_)) ==> jwt_claims(token_string@, secret_key@) is None,
        exists|now: i64| #[trigger] token_verdict(token_string@, secret_key@, now) == match r {
            Ok(_) => Some(true),
            Err(AuthError::Expired) => Some(false),
            Err(AuthError::Invalid(_)) => None::<bool>,
        },
{
    let now = current_timestamp();
    let r = validate_token_at(token_string, secret_key, now);
    assert(token_verdict(token_string@, secret_key@, now) == match r {
        Ok(_) => Some(true),
        Err(AuthError::Expired) => Some(false),
        Err(AuthError::Invalid(_)) => None::<bool>,
    });
    r
}

} // verus!
