//! Request bodies of the word-learning service, and the rules each must pass
//! before it reaches the service.

use vstd::prelude::*;
use crate::validation::{
    RequestError, check_contact, check_credentials, check_id, check_names, check_word,
    contact_outcome, credentials_outcome, first_failure, id_outcome, names_outcome, word_outcome,
};

verus! {

/// Log-in by login id and password.
#[derive(Debug)]
pub struct GetUserRequest {
    pub login_id: String,
    pub password: String,
}

impl GetUserRequest {
    pub fn new(login_id: String, password: String) -> (r: Self)
        ensures
            r.login_id == login_id,
            r.password == password,
    {
        Self { login_id, password }
    }

    /// Both the login id and the password must be letters and digits only.
    pub fn validate(self) -> (r: Result<Self, RequestError>)
        ensures
            match credentials_outcome(self.login_id@, self.password@) {
                Ok(_) => r == Ok::<Self, RequestError>(self),
                Err(e) => r == Err::<Self, RequestError>(e),
            },
    {
        match check_credentials(self.login_id.as_str(), self.password.as_str()) {
            Ok(()) => Ok(self),
            Err(e) => Err(e),
        }
    }
}

/// The outcome of checking a full account description, rule by rule.
pub open spec fn account_outcome(
    last_name: Seq<char>,
    first_name: Seq<char>,
    login_id: Seq<char>,
    password: Seq<char>,
    email: Seq<char>,
    country: Seq<char>,
) -> Result<(), RequestError> {
    first_failure(
        names_outcome(last_name, first_name),
        first_failure(credentials_outcome(login_id, password), contact_outcome(email, country)),
    )
}

fn check_account(
    last_name: &str,
    first_name: &str,
    login_id: &str,
    password: &str,
    email: &str,
    country: &str,
) -> (r: Result<(), RequestError>)
    ensures
        r == account_outcome(last_name@, first_name@, login_id@, password@, email@, country@),
{
    match check_names(last_name, first_name) {
        Ok(()) => {},
        Err(e) => {
            return Err(e);
        },
    }
    match check_credentials(login_id, password) {
        Ok(()) => {},
        Err(e) => {
            return Err(e);
        },
    }
    check_contact(email, country)
}

/// A new account.
#[derive(Debug)]
pub struct CreateUserRequest {
    pub last_name: String,
    pub first_name: String,
    pub login_id: String,
    pub password: String,
    pub email: String,
    pub country: String,
}

impl CreateUserRequest {
    pub open spec fn outcome(&self) -> Result<(), RequestError> {
        account_outcome(self.last_name@, self.first_name@, self.login_id@, self.password@, self.email@, self.country@)
    }

    /// Names, credentials, e-mail address and country, in that order; the
    /// first rule broken is reported.
    pub fn validate(&self) -> (r: Result<(), RequestError>)
        ensures
            r == self.outcome(),
    {
        check_account(
            self.last_name.as_str(),
            self.first_name.as_str(),
            self.login_id.as_str(),
            self.password.as_str(),
            self.email.as_str(),
            self.country.as_str(),
        )
    }
}

/// A replacement for an existing account.
#[derive(Debug)]
pub struct UpdateUserRequest {
    pub user_id: i64,
    pub last_name: String,
    pub first_name: String,
    pub login_id: String,
    pub password: String,
    pub email: String,
    pub country: String,
}

impl UpdateUserRequest {
    pub open spec fn outcome(&self) -> Result<(), RequestError> {
        first_failure(
            id_outcome(self.user_id as int),
            account_outcome(self.last_name@, self.first_name@, self.login_id@, self.password@, self.email@, self.country@),
        )
    }

    /// The id first, then the same rules as for a new account.
    pub fn validate(&self) -> (r: Result<(), RequestError>)
        ensures
            r == self.outcome(),
    {
        match check_id(self.user_id as i128) {
            Ok(()) => {},
            Err(e) => {
                return Err(e);
            },
        }
        check_account(
            self.last_name.as_str(),
            self.first_name.as_str(),
            self.login_id.as_str(),
            self.password.as_str(),
            self.email.as_str(),
            self.country.as_str(),
        )
    }
}

/// A new word.
#[derive(Debug)]
pub struct CreateWordRequest {
    pub word: String,
}

impl CreateWordRequest {
    pub fn validate(&self) -> (r: Result<(), RequestError>)
        ensures
            r == word_outcome(self.word@),
    {
        check_word(self.word.as_str())
    }
}

/// A new text for an existing word.
#[derive(Debug)]
pub struct UpdateWordRequest {
    pub word_id: u64,
    pub word: String,
}

impl UpdateWordRequest {
    pub fn validate(&self) -> (r: Result<(), RequestError>)
        ensures
            r == word_outcome(self.word@),
    {
        check_word(self.word.as_str())
    }
}

fn check_id_pair(a: u64, b: u64) -> (r: Result<(), RequestError>)
    ensures
        r == first_failure(id_outcome(a as int), id_outcome(b as int)),
{
    match check_id(a as i128) {
        Ok(()) => check_id(b as i128),
        Err(e) => Err(e),
    }
}

/// Looks up the relation of an account and a word.
#[derive(Debug)]
pub struct GetUserWordRequest {
    pub user_id: u64,
    pub word_id: u64,
}

impl GetUserWordRequest {
    pub fn validate(&self) -> (r: Result<(), RequestError>)
        ensures
            r == first_failure(id_outcome(self.user_id as int), id_outcome(self.word_id as int)),
    {
        check_id_pair(self.user_id, self.word_id)
    }
}

/// Links an account to a word.
#[derive(Debug)]
pub struct CreateUserWordRequest {
    pub user_id: u64,
    pub word_id: u64,
}

impl CreateUserWordRequest {
    pub fn validate(&self) -> (r: Result<(), RequestError>)
        ensures
            r == first_failure(id_outcome(self.user_id as int), id_outcome(self.word_id as int)),
    {
        check_id_pair(self.user_id, self.word_id)
    }
}

/// Removes the link of an account to a word.
#[derive(Debug)]
pub struct DeleteUserWordRequest {
    pub user_word_id: u64,
}

impl DeleteUserWordRequest {
    pub fn validate(&self) -> (r: Result<(), RequestError>)
        ensures
            r == id_outcome(self.user_word_id as int),
    {
        check_id(self.user_word_id as i128)
    }
}

} // verus!
