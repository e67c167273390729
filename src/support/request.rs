//! Request bodies of the support service, and the rules each must pass
//! before it reaches the service.

use vstd::prelude::*;
use crate::validation::{
    RequestError, check_contact, check_credentials, check_id, check_names, contact_outcome,
    credentials_outcome, first_failure, id_outcome, names_outcome,
};

verus! {

/// The outcome of checking the description of a person, rule by rule.
pub open spec fn person_outcome(
    last_name: Seq<char>,
    first_name: Seq<char>,
    email: Seq<char>,
    country: Seq<char>,
) -> Result<(), RequestError> {
    first_failure(names_outcome(last_name, first_name), contact_outcome(email, country))
}

fn check_person(last_name: &str, first_name: &str, email: &str, country: &str) -> (r: Result<(), RequestError>)
    ensures
        r == person_outcome(last_name@, first_name@, email@, country@),
{
    match check_names(last_name, first_name) {
        Ok(()) => check_contact(email, country),
        Err(e) => Err(e),
    }
}

/// Log-in of a protagonist.
#[derive(Debug)]
pub struct GetProtagonistRequest {
    pub login_id: String,
    pub password: String,
}

impl GetProtagonistRequest {
    pub fn new(login_id: String, password: String) -> (r: Self)
        ensures
            r.login_id == login_id,
            r.password == password,
    {
        Self { login_id, password }
    }

    /// Both the login id and the password must be letters and digits only.
    pub fn validate(self) -> (r: Result<Self, RequestError>)
        ensures
            match credentials_outcome(self.login_id@, self.password@) {
                Ok(_) => r == Ok::<Self, RequestError>(self),
                Err(e) => r == Err::<Self, RequestError>(e),
            },
    {
        match check_credentials(self.login_id.as_str(), self.password.as_str()) {
            Ok(()) => Ok(self),
            Err(e) => Err(e),
        }
    }
}

/// Log-in of a supporter.
#[derive(Debug)]
pub struct GetSupporterRequest {
    pub login_id: String,
    pub password: String,
}

impl GetSupporterRequest {
    pub fn new(login_id: String, password: String) -> (r: Self)
        ensures
            r.login_id == login_id,
            r.password == password,
    {
        Self { login_id, password }
    }

    /// Both the login id and the password must be letters and digits only.
    pub fn validate(self) -> (r: Result<Self, RequestError>)
        ensures
            match credentials_outcome(self.login_id@, self.password@) {
                Ok(_) => r == Ok::<Self, RequestError>(self),
                Err(e) => r == Err::<Self, RequestError>(e),
            },
    {
        match check_credentials(self.login_id.as_str(), self.password.as_str()) {
            Ok(()) => Ok(self),
            Err(e) => Err(e),
        }
    }
}

/// A new protagonist.
#[derive(Debug)]
pub struct CreateProtagonistRequest {
    pub last_name: String,
    pub first_name: String,
    pub login_id: String,
    pub password: String,
    pub email: String,
    pub country: String,
}

impl CreateProtagonistRequest {
    pub open spec fn outcome(&self) -> Result<(), RequestError> {
        person_outcome(self.last_name@, self.first_name@, self.email@, self.country@)
    }

    /// Names, e-mail address and country, in that order.
    pub fn validate(&self) -> (r: Result<(), RequestError>)
        ensures
            r == self.outcome(),
    {
        check_person(self.last_name.as_str(), self.first_name.as_str(), self.email.as_str(), self.country.as_str())
    }
}

/// A replacement for an existing protagonist.
#[derive(Debug)]
pub struct UpdateProtagonistRequest {
    pub protagonist_id: i64,
    pub last_name: String,
    pub first_name: String,
    pub login_id: String,
    pub password: String,
    pub email: String,
    pub country: String,
}

impl UpdateProtagonistRequest {
    pub open spec fn outcome(&self) -> Result<(), RequestError> {
        first_failure(
            id_outcome(self.protagonist_id as int),
            person_outcome(self.last_name@, self.first_name@, self.email@, self.country@),
        )
    }

    /// The id first, then names, e-mail address and country.
    pub fn validate(&self) -> (r: Result<(), RequestError>)
        ensures
            r == self.outcome(),
    {
        match check_id(self.protagonist_id as i128) {
            Ok(()) => {},
            Err(e) => {
                return Err(e);
            },
        }
        check_person(self.last_name.as_str(), self.first_name.as_str(), self.email.as_str(), self.country.as_str())
    }
}

/// A new supporter.
#[derive(Debug)]
pub struct CreateSupporterRequest {
    pub last_name: String,
    pub first_name: String,
    pub login_id: String,
    pub password: String,
    pub email: String,
    pub country: String,
}

impl CreateSupporterRequest {
    pub open spec fn outcome(&self) -> Result<(), RequestError> {
        person_outcome(self.last_name@, self.first_name@, self.email@, self.country@)
    }

    /// Names, e-mail address and country, in that order.
    pub fn validate(&self) -> (r: Result<(), RequestError>)
        ensures
            r == self.outcome(),
    {
        check_person(self.last_name.as_str(), self.first_name.as_str(), self.email.as_str(), self.country.as_str())
    }
}

/// A replacement for an existing supporter.
#[derive(Debug)]
pub struct UpdateSupporterRequest {
    pub supporter_id: i64,
    pub last_name: String,
    pub first_name: String,
    pub login_id: String,
    pub password: String,
    pub email: String,
    pub country: String,
}

impl UpdateSupporterRequest {
    pub open spec fn outcome(&self) -> Result<(), RequestError> {
        first_failure(
            id_outcome(self.supporter_id as int),
            person_outcome(self.last_name@, self.first_name@, self.email@, self.country@),
        )
    }

    /// The id first, then names, e-mail address and country.
    pub fn validate(&self) -> (r: Result<(), RequestError>)
        ensures
            r == self.outcome(),
    {
        match check_id(self.supporter_id as i128) {
            Ok(()) => {},
            Err(e) => {
                return Err(e);
            },
        }
        check_person(self.last_name.as_str(), self.first_name.as_str(), self.email.as_str(), self.country.as_str())
    }
}

/// Links a protagonist to a supporter.
#[derive(Debug)]
pub struct CreateProtagonistSupporterRequest {
    pub protagonist_id: u64,
    pub supporter_id: u64,
}

impl CreateProtagonistSupporterRequest {
    pub fn validate(&self) -> (r: Result<(), RequestError>)
        ensures
            r == first_failure(id_outcome(self.protagonist_id as int), id_outcome(self.supporter_id as int)),
    {
        match check_id(self.protagonist_id as i128) {
            Ok(()) => check_id(self.supporter_id as i128),
            Err(e) => Err(e),
        }
    }
}

/// Removes a link of a protagonist to a supporter.
#[derive(Debug)]
pub struct DeleteProtagonistSupporterRequest {
    pub protagonist_supporter_id: u64,
}

impl DeleteProtagonistSupporterRequest {
    pub fn validate(&self) -> (r: Result<(), RequestError>)
        ensures
            r == id_outcome(self.protagonist_supporter_id as int),
    {
        check_id(self.protagonist_supporter_id as i128)
    }
}

} // verus!
