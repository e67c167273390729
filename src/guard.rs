//! The guard in front of protected routes: it reads the `Authorization`
//! header, requires the `Bearer` scheme and a token, validates the token and
//! hands back its claims, or an `Unauthorized` answer.

use vstd::prelude::*;
use crate::http::{ErrorResponse, status_for};
use crate::text::{first_word, second_word, first_word_of, second_word_of, str_eq};
use crate::token::{AuthError, Token, expired_message, is_expired, jwt_claims, token_verdict, validate_token_at, current_timestamp};

verus! {

/// Where the guard stopped a request.
#[derive(Debug)]
pub enum GuardFailure {
    /// No `Authorization` header.
    MissingHeader,
    /// The header's first word is not `Bearer`.
    NotBearer,
    /// No token follows the scheme.
    EmptyToken,
    /// The token did not validate.
    Rejected(AuthError),
}

/// The token that an `Authorization` header presents, or where reading it
/// failed.
pub open spec fn header_token(authorization: Option<Seq<char>>) -> Result<Seq<char>, GuardFailure> {
    match authorization {
        None => Err(GuardFailure::MissingHeader),
        Some(h) => if first_word(h) != "Bearer"@ {
            Err(GuardFailure::NotBearer)
        } else if second_word(h).len() == 0 {
            Err(GuardFailure::EmptyToken)
        } else {
            Ok(second_word(h))
        },
    }
}

pub open spec fn opt_view(s: Option<&str>) -> Option<Seq<char>> {
    match s {
        Some(x) => Some(x@),
        None => None,
    }
}

impl GuardFailure {
    pub open spec fn message_spec(&self) -> Seq<char> {
        match self {
            GuardFailure::MissingHeader => "Authorization header not found"@,
            GuardFailure::NotBearer => "Authorization header is not Bearer"@,
            GuardFailure::EmptyToken => "Token is empty"@,
            GuardFailure::Rejected(e) => e.message_spec(),
        }
    }

    /// The text that the answer to the caller carries.
    pub fn message(&self) -> (r: String)
        ensures
            r@ == self.message_spec(),
    {
        match self {
            GuardFailure::MissingHeader => "Authorization header not found".to_string(),
            GuardFailure::NotBearer => "Authorization header is not Bearer".to_string(),
            GuardFailure::EmptyToken => "Token is empty".to_string(),
            GuardFailure::Rejected(e) => e.message(),
        }
    }

    /// The `Unauthorized` answer for this failure.
    pub fn to_response(&self) -> (r: ErrorResponse)
        ensures
            r.error@ == "Unauthorized"@,
            r.message@ == self.message_spec(),
            status_for(r.error@) == 401,
    {
        proof {
            reveal_strlit("NotFound");
            reveal_strlit("Unauthorized");
        }
        ErrorResponse { error: "Unauthorized".to_string(), message: self.message() }
    }
}

/// The three ways a header can fail before any token is validated are told
/// apart by their messages, and none of them reads like a validation failure
/// of an expired token.
pub proof fn lemma_header_failures_distinct()
    ensures
        GuardFailure::MissingHeader.message_spec() != GuardFailure::NotBearer.message_spec(),
        GuardFailure::MissingHeader.message_spec() != GuardFailure::EmptyToken.message_spec(),
        GuardFailure::NotBearer.message_spec() != GuardFailure::EmptyToken.message_spec(),
        GuardFailure::MissingHeader.message_spec() != GuardFailure::Rejected(AuthError::Expired).message_spec(),
        GuardFailure::NotBearer.message_spec() != GuardFailure::Rejected(AuthError::Expired).message_spec(),
        GuardFailure::EmptyToken.message_spec() != GuardFailure::Rejected(AuthError::Expired).message_spec(),
{
    reveal_strlit("Authorization header not found");
    reveal_strlit("Authorization header is not Bearer");
    reveal_strlit("Token is empty");
    reveal_strlit("access token expired");
    assert("Authorization header not found"@.len() != "Authorization header is not Bearer"@.len());
    assert("Authorization header not found"@.len() != "Token is empty"@.len());
    assert("Authorization header is not Bearer"@.len() != "Token is empty"@.len());
    assert("Authorization header not found"@.len() != "access token expired"@.len());
    assert("Authorization header is not Bearer"@.len() != "access token expired"@.len());
    assert("Token is empty"@.len() != "access token expired"@.len());
}

/// Reads the bearer token out of an `Authorization` header value: the scheme
/// must be exactly `Bearer` and a second word must follow it.
pub fn bearer_token(authorization: Option<&str>) -> (r: Result<&str, GuardFailure>)
    ensures
        match header_token(opt_view(authorization)) {
            Ok(t) => r matches Ok(x) && x@ == t,
            Err(GuardFailure::MissingHeader) => r matches Err(GuardFailure::MissingHeader),
            Err(GuardFailure::NotBearer) => r matches Err(GuardFailure::NotBearer),
            Err(GuardFailure::EmptyToken) => r matches Err(GuardFailure::EmptyToken),
            Err(GuardFailure::Rejected(_)) => false,
        },
{
    let header = match authorization {
        Some(h) => h,
        None => {
            return Err(GuardFailure::MissingHeader);
        },
    };
    let scheme = first_word_of(header);
    let bearer = "Bearer";
    proof {
        reveal_strlit("Bearer");
    }
    if !str_eq(scheme, bearer) {
        return Err(GuardFailure::NotBearer);
    }
    let token = second_word_of(header);
    if token.unicode_len() == 0 {
        return Err(GuardFailure::EmptyToken);
    }
    Ok(token)
}

/// Decides a request on a protected route at time `now`: the claims of a
/// valid bearer token, or an `Unauthorized` answer whose message tells the
/// cases apart.
pub fn authorize_at(authorization: Option<&str>, secret_key: &str, now: i64) -> (r: Result<Token, ErrorResponse>)
    ensures
        r matches Err(e) ==> e.error@ == "Unauthorized"@ && status_for(e.error@) == 401,
        match header_token(opt_view(authorization)) {
            Ok(t) => match jwt_claims(t, secret_key@) {
                None => r is Err,
                Some(c) => if is_expired(c.1, now) {
                    r matches Err(e) && e.message@ == expired_message()
                } else {
                    r matches Ok(x) && x.claims_view() == c
                },
            },
            Err(f) => r matches Err(e) && e.message@ == f.message_spec(),
        },
{
    let token = match bearer_token(authorization) {
        Ok(t) => t,
        Err(f) => {
            return Err(f.to_response());
        },
    };
    match validate_token_at(token, secret_key, now) {
        Ok(claims) => Ok(claims),
        Err(e) => Err(GuardFailure::Rejected(e).to_response()),
    }
}

/// Decides a request on a protected route at the current time: the clock's
/// reading `now` decides as in `authorize_at`.
pub fn verify_token_middleware(authorization: Option<&str>, secret_key: &str) -> (r: Result<Token, ErrorResponse>)
    ensures
        r matches Err(e) ==> e.error@ == "Unauthorized"@ && status_for(e.error@) == 401,
        match header_token(opt_view(authorization)) {
            Ok(t) => {
                &&& jwt_claims(t, secret_key@) is None ==> r is Err
                &&& r matches Ok(x) ==> jwt_claims(t, secret_key@) == Some(x.claims_view())
                &&& exists|now: i64| #[trigger] token_verdict(t, secret_key@, now) == match r {
                    Ok(_) => Some(true),
                    Err(e) => if e.message@ == expired_message() && jwt_claims(t, secret_key@) is Some {
                        Some(false)
                    } else {
                        None::<bool>
                    },
                }
            },
            Err(f) => r matches Err(e) && e.message@ == f.message_spec(),
        },
{
    let now = current_timestamp();
    let r = authorize_at(authorization, secret_key, now);
    proof {
        if let Ok(t) = header_token(opt_view(authorization)) {
            assert(token_verdict(t, secret_key@, now) == match r {
                Ok(_) => Some(true),
                Err(e) => if e.message@ == expired_message() && jwt_claims(t, secret_key@) is Some {
                    Some(false)
                } else {
                    None::<bool>
                },
            });
        }
    }
    r
}

} // verus!
