//! The domain values of the support service: protagonists, the supporters
//! who back them, and the links between the two.

use vstd::prelude::*;
use crate::password::{HashingError, bcrypt_verdict, verify_password};

verus! {

/// A person who receives support; the password is a stored hash.
#[derive(Debug, Clone)]
pub struct Protagonist {
    pub protagonist_id: i64,
    pub last_name: String,
    pub first_name: String,
    pub login_id: String,
    pub password: String,
    pub email: String,
    pub country: String,
}

impl Protagonist {
    pub fn new(
        protagonist_id: i64,
        last_name: String,
        first_name: String,
        login_id: String,
        password: String,
        email: String,
        country: String,
    ) -> (r: Self)
        ensures
            r.protagonist_id == protagonist_id,
            r.last_name == last_name,
            r.first_name == first_name,
            r.login_id == login_id,
            r.password == password,
            r.email == email,
            r.country == country,
    {
        Self { protagonist_id, last_name, first_name, login_id, password, email, country }
    }

    /// Checks `password` against the stored hash.
    pub fn verify_password(&self, password: &str) -> (r: Result<bool, HashingError>)
        ensures
            match bcrypt_verdict(password@, self.password@) {
                Some(b) => r == Ok::<bool, HashingError>(b),
                None => r is Err,
            },
    {
        verify_password(password, self.password.as_str())
    }
}

/// A person who gives support; the password is a stored hash.
#[derive(Debug, Clone)]
pub struct Supporter {
    pub supporter_id: i64,
    pub last_name: String,
    pub first_name: String,
    pub login_id: String,
    pub password: String,
    pub email: String,
    pub country: String,
}

impl Supporter {
    pub fn new(
        supporter_id: i64,
        last_name: String,
        first_name: String,
        login_id: String,
        password: String,
        email: String,
        country: String,
    ) -> (r: Self)
        ensures
            r.supporter_id == supporter_id,
            r.last_name == last_name,
            r.first_name == first_name,
            r.login_id == login_id,
            r.password == password,
            r.email == email,
            r.country == country,
    {
        Self { supporter_id, last_name, first_name, login_id, password, email, country }
    }

    /// Checks `password` against the stored hash.
    pub fn verify_password(&self, password: &str) -> (r: Result<bool, HashingError>)
        ensures
            match bcrypt_verdict(password@, self.password@) {
                Some(b) => r == Ok::<bool, HashingError>(b),
                None => r is Err,
            },
    {
        verify_password(password, self.password.as_str())
    }
}

/// A supporter as seen from the protagonist they back.
#[derive(Debug, Clone)]
pub struct ProtagonistSupporter {
    pub supporter_id: i64,
    pub last_name: String,
    pub first_name: String,
    pub country: String,
}

impl ProtagonistSupporter {
    pub fn new(
        supporter_id: i64,
        last_name: String,
        first_name: String,
        country: String,
    ) -> (r: Self)
        ensures
            r.supporter_id == supporter_id,
            r.last_name == last_name,
            r.first_name == first_name,
            r.country == country,
    {
        Self { supporter_id, last_name, first_name, country }
    }
}

/// The link of a protagonist to a supporter.
#[derive(Debug, Clone)]
pub struct ProtagonistSupporterRelation {
    pub protagonist_supporter_id: i64,
}

impl ProtagonistSupporterRelation {
    pub fn new(
        protagonist_supporter_id: i64,
    ) -> (r: Self)
        ensures
            r.protagonist_supporter_id == protagonist_supporter_id,
    {
        Self { protagonist_supporter_id }
    }
}

} // verus!
