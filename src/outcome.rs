//! How the business services fail, and how a failure becomes an answer:
//! absence of a row is told apart from a failing store, and a wrong password
//! from a broken hash.

use vstd::prelude::*;
use crate::http::{ErrorResponse, status_for};
use crate::password::{HashingError, bcrypt_verdict, verify_password};
use crate::validation::RequestError;

verus! {

/// The store could not be reached or refused the query.
#[derive(Debug)]
pub struct StorageError {
    pub message: String,
}

/// Why a business operation failed.
#[derive(Debug)]
pub enum ServiceError {
    /// The store failed.
    Storage(StorageError),
    /// The stored password hash could not be read, or hashing failed.
    Hashing(HashingError),
    /// The row asked for does not exist; holds what was missing.
    NotFound(String),
    /// The password does not match the stored hash.
    InvalidPassword,
}

/// Whether `r` is what a service makes of the store's `answer`: a found
/// row is answered as `shows` relates them, an absent one is
/// `NotFound(missing)`, a store failure passes through unchanged.
pub open spec fn store_outcome<T, R>(
    answer: Result<Option<T>, StorageError>,
    missing: Seq<char>,
    r: Result<R, ServiceError>,
    shows: spec_fn(R, T) -> bool,
) -> bool {
    match answer {
        Ok(Some(x)) => r matches Ok(v) && shows(v, x),
        Ok(None) => r matches Err(ServiceError::NotFound(m)) && m@ == missing,
        Err(e) => r == Err::<R, ServiceError>(ServiceError::Storage(e)),
    }
}

/// Turns a store answer into the found row or the service failure.
pub fn present<T>(found: Result<Option<T>, StorageError>, missing: &str) -> (r: Result<T, ServiceError>)
    ensures
        match found {
            Ok(Some(x)) => r == Ok::<T, ServiceError>(x),
            Ok(None) => r matches Err(ServiceError::NotFound(m)) && m@ == missing@,
            Err(e) => r == Err::<T, ServiceError>(ServiceError::Storage(e)),
        },
{
    match found {
        Ok(Some(x)) => Ok(x),
        Ok(None) => Err(ServiceError::NotFound(missing.to_string())),
        Err(e) => Err(ServiceError::Storage(e)),
    }
}

/// Checks a log-in password against a stored hash: a match passes, a
/// mismatch is `InvalidPassword`, a malformed hash is `Hashing`.
pub fn check_password(password: &str, stored_hash: &str) -> (r: Result<(), ServiceError>)
    ensures
        match bcrypt_verdict(password@, stored_hash@) {
            Some(true) => r is Ok,
            Some(false) => r matches Err(ServiceError::InvalidPassword),
            None => r matches Err(ServiceError::Hashing(_)),
        },
{
    match verify_password(password, stored_hash) {
        Ok(true) => Ok(()),
        Ok(false) => Err(ServiceError::InvalidPassword),
        Err(e) => Err(ServiceError::Hashing(e)),
    }
}

/// The category and message that answer a failure; `not_found` describes
/// what was missing.
pub open spec fn failure_answer(err: ServiceError, not_found: Seq<char>) -> (Seq<char>, Seq<char>) {
    match err {
        ServiceError::NotFound(_) => ("NotFound"@, not_found),
        ServiceError::InvalidPassword => ("Unauthorized"@, "Invalid password"@),
        ServiceError::Storage(_) => ("InternalServerError"@, "Internal Server Error"@),
        ServiceError::Hashing(_) => ("InternalServerError"@, "Internal Server Error"@),
    }
}

/// The answer for a failure: absent rows are `NotFound` (404), a wrong
/// password `Unauthorized` (401), store and hashing failures are internal
/// errors (500).
pub fn failure_response(err: &ServiceError, not_found_message: &str) -> (r: ErrorResponse)
    ensures
        (r.error@, r.message@) == failure_answer(*err, not_found_message@),
{
    match err {
        ServiceError::NotFound(_) => ErrorResponse { error: "NotFound".to_string(), message: not_found_message.to_string() },
        ServiceError::InvalidPassword => ErrorResponse { error: "Unauthorized".to_string(), message: "Invalid password".to_string() },
        ServiceError::Storage(_) => ErrorResponse { error: "InternalServerError".to_string(), message: "Internal Server Error".to_string() },
        ServiceError::Hashing(_) => ErrorResponse { error: "InternalServerError".to_string(), message: "Internal Server Error".to_string() },
    }
}

/// Passes a success through and turns a failure into its answer.
pub fn handle_result<T>(result: Result<T, ServiceError>, not_found_message: &str) -> (r: Result<T, ErrorResponse>)
    ensures
        match result {
            Ok(v) => r == Ok::<T, ErrorResponse>(v),
            Err(e) => r matches Err(resp) && (resp.error@, resp.message@) == failure_answer(e, not_found_message@),
        },
{
    match result {
        Ok(v) => Ok(v),
        Err(e) => Err(failure_response(&e, not_found_message)),
    }
}

/// The `BadRequest` answer for a request that broke a rule.
pub fn bad_request(e: &RequestError) -> (r: ErrorResponse)
    ensures
        r.error@ == "BadRequest"@,
        r.message@ == e.message_spec(),
        status_for(r.error@) == 400,
{
    proof {
        reveal_strlit("BadRequest");
        reveal_strlit("NotFound");
        reveal_strlit("Unauthorized");
        reveal_strlit("Forbidden");
        assert("BadRequest"@.len() != "NotFound"@.len());
        assert("BadRequest"@.len() != "Unauthorized"@.len());
        assert("BadRequest"@.len() != "Forbidden"@.len());
    }
    ErrorResponse { error: "BadRequest".to_string(), message: e.message() }
}

} // verus!
