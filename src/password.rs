//! One-way password storage: bcrypt hashing at a fixed work factor, and
//! verification of a plaintext against a stored hash.

use vstd::prelude::*;

verus! {

/// `bcrypt::BcryptError`, carried opaquely: why hashing or verification failed.
#[verifier::external_type_specification]
#[verifier::external_body]
pub struct ExBcryptError(bcrypt::BcryptError);

/// What bcrypt's verification makes of `password` against `hash`: whether it
/// matches, or `None` when `hash` is not a well-formed bcrypt hash.
pub uninterp spec fn bcrypt_verdict(password: Seq<char>, hash: Seq<char>) -> Option<bool>;

/// What a fresh bcrypt hash `h` of `password` satisfies: it verifies against
/// `password`, it is 60 characters long with the fixed `$2b$12$` prefix (the
/// same cost on every call), and it reads as well-formed for any password.
pub open spec fn fresh_hash_of(password: Seq<char>, h: Seq<char>) -> bool {
    &&& bcrypt_verdict(password, h) == Some(true)
    &&& h.len() == 60
    &&& h.subrange(0, 7) == "$2b$12$"@
    &&& forall|q: Seq<char>| (#[trigger] bcrypt_verdict(q, h)) is Some
}

/// Whether `s` has the length and prefix of a hash at the fixed cost.
pub open spec fn looks_like_hash(s: Seq<char>) -> bool {
    s.len() == 60 && s.subrange(0, 7) == "$2b$12$"@
}

/// A fresh hash never equals a password that does not itself look like one.
pub proof fn lemma_fresh_hash_differs(password: Seq<char>, h: Seq<char>)
    requires
        fresh_hash_of(password, h),
        !looks_like_hash(password),
    ensures
        h != password,
{
}

/// Relies on `bcrypt::hash` at `DEFAULT_COST`: a fresh random salt each call;
/// the result is a 60-character `$2b$12$` hash that `bcrypt::verify` accepts
/// for the same password. `bcrypt::verify` splits any such hash without
/// error, whatever password it is given. It fails only when the system's
/// randomness does.
#[verifier::external_body]
fn bcrypt_hash(password: &str) -> (r: Result<String, bcrypt::BcryptError>)
    ensures
        r matches Ok(h) ==> fresh_hash_of(password@, h@),
{
    bcrypt::hash(password, bcrypt::DEFAULT_COST)
}

/// Relies on `bcrypt::verify`: an error when `hash` is malformed, otherwise
/// whether `password` matches it.
#[verifier::external_body]
fn bcrypt_verify(password: &str, hash: &str) -> (r: Result<bool, bcrypt::BcryptError>)
    ensures
        match r {
            Ok(b) => bcrypt_verdict(password@, hash@) == Some(b),
            Err(_) => bcrypt_verdict(password@, hash@) is None,
        },
{
    bcrypt::verify(password, hash)
}

/// Relies on the `Display` of `bcrypt::BcryptError`: its diagnostic.
#[verifier::external_body]
fn bcrypt_error_message(e: &bcrypt::BcryptError) -> String {
    e.to_string()
}

/// The hashing primitive failed: a malformed stored hash, or no randomness.
#[derive(Debug)]
pub struct HashingError {
    pub message: String,
}

fn hashing_error(e: bcrypt::BcryptError) -> HashingError {
    HashingError { message: bcrypt_error_message(&e) }
}

/// Hashes `password` with a random salt at the fixed cost. Every hash it
/// returns verifies against `password`, and differs from it unless the
/// password itself looks like such a hash.
pub fn hash_password(password: &str) -> (r: Result<String, HashingError>)
    ensures
        r matches Ok(h) ==> fresh_hash_of(password@, h@),
        r matches Ok(h) ==> (!looks_like_hash(password@) ==> h@ != password@),
{
    match bcrypt_hash(password) {
        Ok(h) => {
            proof {
                if !looks_like_hash(password@) {
                    lemma_fresh_hash_differs(password@, h@);
                }
            }
            Ok(h)
        },
        Err(e) => Err(hashing_error(e)),
    }
}

/// Checks `password` against `hashed_password`. A mismatch is `Ok(false)`;
/// only a malformed hash is an error.
pub fn verify_password(password: &str, hashed_password: &str) -> (r: Result<bool, HashingError>)
    ensures
        match bcrypt_verdict(password@, hashed_password@) {
            Some(b) => r == Ok::<bool, HashingError>(b),
            None => r is Err,
        },
{
    match bcrypt_verify(password, hashed_password) {
        Ok(b) => Ok(b),
        Err(e) => Err(hashing_error(e)),
    }
}

} // verus!
