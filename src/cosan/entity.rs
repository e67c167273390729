//! The domain values of the word-learning service: accounts, words, and the
//! relations between them.

use vstd::prelude::*;
use crate::password::{HashingError, bcrypt_verdict, fresh_hash_of, hash_password, verify_password};

verus! {

/// Identifies an account.
#[derive(Debug, Clone)]
pub struct UserId(i64);

impl View for UserId {
    type V = int;

    closed spec fn view(&self) -> int {
        self.0 as int
    }
}

impl UserId {
    pub fn new(user_id: i64) -> (r: Self)
        ensures
            r@ == user_id,
    {
        Self(user_id)
    }

    pub fn value(&self) -> (r: i64)
        ensures
            r == self@,
    {
        self.0
    }

}

/// An account holder's family name.
#[derive(Debug, Clone)]
pub struct LastName(String);

impl View for LastName {
    type V = Seq<char>;

    closed spec fn view(&self) -> Seq<char> {
        self.0@
    }
}

impl LastName {
    pub fn new(last_name: &str) -> (r: Self)
        ensures
            r@ == last_name@,
    {
        Self(last_name.to_string())
    }

    pub fn value(&self) -> (r: &str)
        ensures
            r@ == self@,
    {
        self.0.as_str()
    }

}

/// An account holder's given name.
#[derive(Debug, Clone)]
pub struct FirstName(String);

impl View for FirstName {
    type V = Seq<char>;

    closed spec fn view(&self) -> Seq<char> {
        self.0@
    }
}

impl FirstName {
    pub fn new(first_name: &str) -> (r: Self)
        ensures
            r@ == first_name@,
    {
        Self(first_name.to_string())
    }

    pub fn value(&self) -> (r: &str)
        ensures
            r@ == self@,
    {
        self.0.as_str()
    }

}

/// The name an account logs in with.
#[derive(Debug, Clone)]
pub struct LoginId(String);

impl View for LoginId {
    type V = Seq<char>;

    closed spec fn view(&self) -> Seq<char> {
        self.0@
    }
}

impl LoginId {
    pub fn new(login_id: &str) -> (r: Self)
        ensures
            r@ == login_id@,
    {
        Self(login_id.to_string())
    }

    pub fn value(&self) -> (r: &str)
        ensures
            r@ == self@,
    {
        self.0.as_str()
    }

}

/// A stored bcrypt hash of a password.
#[derive(Debug, Clone)]
pub struct PasswordHash(String);

impl View for PasswordHash {
    type V = Seq<char>;

    closed spec fn view(&self) -> Seq<char> {
        self.0@
    }
}

impl PasswordHash {
    pub fn new(password_hash: &str) -> (r: Self)
        ensures
            r@ == password_hash@,
    {
        Self(password_hash.to_string())
    }

    pub fn value(&self) -> (r: &str)
        ensures
            r@ == self@,
    {
        self.0.as_str()
    }


    /// Checks `password` against this hash.
    pub fn verify(&self, password: &str) -> (r: Result<bool, HashingError>)
        ensures
            match bcrypt_verdict(password@, self@) {
                Some(b) => r == Ok::<bool, HashingError>(b),
                None => r is Err,
            },
    {
        verify_password(password, self.0.as_str())
    }

}

/// A plaintext password; it is hashed before it is stored.
#[derive(Debug, Clone)]
pub struct Password(String);

impl View for Password {
    type V = Seq<char>;

    closed spec fn view(&self) -> Seq<char> {
        self.0@
    }
}

impl Password {
    pub fn new(password: &str) -> (r: Self)
        ensures
            r@ == password@,
    {
        Self(password.to_string())
    }

    pub fn value(&self) -> (r: &str)
        ensures
            r@ == self@,
    {
        self.0.as_str()
    }


    /// Hashes this password with a fresh salt; the hash verifies against it.
    pub fn hash(&self) -> (r: Result<PasswordHash, HashingError>)
        ensures
            r matches Ok(h) ==> fresh_hash_of(self@, h@),
    {
        match hash_password(self.0.as_str()) {
            Ok(h) => Ok(PasswordHash(h)),
            Err(e) => Err(e),
        }
    }

    /// Checks `password` against this value read as a bcrypt hash.
    pub fn verify(&self, password: &str) -> (r: Result<bool, HashingError>)
        ensures
            match bcrypt_verdict(password@, self@) {
                Some(b) => r == Ok::<bool, HashingError>(b),
                None => r is Err,
            },
    {
        verify_password(password, self.0.as_str())
    }

}

/// An e-mail address.
#[derive(Debug, Clone)]
pub struct Email(String);

impl View for Email {
    type V = Seq<char>;

    closed spec fn view(&self) -> Seq<char> {
        self.0@
    }
}

impl Email {
    pub fn new(email: &str) -> (r: Self)
        ensures
            r@ == email@,
    {
        Self(email.to_string())
    }

    pub fn value(&self) -> (r: &str)
        ensures
            r@ == self@,
    {
        self.0.as_str()
    }

}

/// A country name.
#[derive(Debug, Clone)]
pub struct Country(String);

impl View for Country {
    type V = Seq<char>;

    closed spec fn view(&self) -> Seq<char> {
        self.0@
    }
}

impl Country {
    pub fn new(country: &str) -> (r: Self)
        ensures
            r@ == country@,
    {
        Self(country.to_string())
    }

    pub fn value(&self) -> (r: &str)
        ensures
            r@ == self@,
    {
        self.0.as_str()
    }

}

/// Identifies a word.
#[derive(Debug, Clone)]
pub struct WordId(i64);

impl View for WordId {
    type V = int;

    closed spec fn view(&self) -> int {
        self.0 as int
    }
}

impl WordId {
    pub fn new(word_id: i64) -> (r: Self)
        ensures
            r@ == word_id,
    {
        Self(word_id)
    }

    pub fn value(&self) -> (r: i64)
        ensures
            r == self@,
    {
        self.0
    }

}

/// The text of a word.
#[derive(Debug, Clone)]
pub struct WordString(String);

impl View for WordString {
    type V = Seq<char>;

    closed spec fn view(&self) -> Seq<char> {
        self.0@
    }
}

impl WordString {
    pub fn new(word: &str) -> (r: Self)
        ensures
            r@ == word@,
    {
        Self(word.to_string())
    }

    pub fn value(&self) -> (r: &str)
        ensures
            r@ == self@,
    {
        self.0.as_str()
    }

}

/// Identifies the relation of an account to a word.
#[derive(Debug, Clone)]
pub struct UserWordId(i64);

impl View for UserWordId {
    type V = int;

    closed spec fn view(&self) -> int {
        self.0 as int
    }
}

impl UserWordId {
    pub fn new(user_word_id: i64) -> (r: Self)
        ensures
            r@ == user_word_id,
    {
        Self(user_word_id)
    }

    pub fn value(&self) -> (r: i64)
        ensures
            r == self@,
    {
        self.0
    }

}

/// When a relation was created, as the text that the store reports.
#[derive(Debug, Clone)]
pub struct CreatedAt(String);

impl View for CreatedAt {
    type V = Seq<char>;

    closed spec fn view(&self) -> Seq<char> {
        self.0@
    }
}

impl CreatedAt {
    pub fn new(created_at: &str) -> (r: Self)
        ensures
            r@ == created_at@,
    {
        Self(created_at.to_string())
    }

    pub fn value(&self) -> (r: &str)
        ensures
            r@ == self@,
    {
        self.0.as_str()
    }

}

/// An account.
#[derive(Debug, Clone)]
pub struct User {
    pub user_id: UserId,
    pub last_name: LastName,
    pub first_name: FirstName,
    pub login_id: LoginId,
    pub password: PasswordHash,
    pub email: Email,
    pub country: Country,
}

impl User {
    pub fn new(
        user_id: UserId,
        last_name: LastName,
        first_name: FirstName,
        login_id: LoginId,
        password: PasswordHash,
        email: Email,
        country: Country,
    ) -> (r: Self)
        ensures
            r.user_id == user_id,
            r.last_name == last_name,
            r.first_name == first_name,
            r.login_id == login_id,
            r.password == password,
            r.email == email,
            r.country == country,
    {
        Self { user_id, last_name, first_name, login_id, password, email, country }
    }
}

/// A word.
#[derive(Debug, Clone)]
pub struct Word {
    pub word_id: WordId,
    pub word: WordString,
}

impl Word {
    pub fn new(
        word_id: WordId,
        word: WordString,
    ) -> (r: Self)
        ensures
            r.word_id == word_id,
            r.word == word,
    {
        Self { word_id, word }
    }
}

/// A word that an account has taken up, with both sides spelled out.
#[derive(Debug, Clone)]
pub struct UserWord {
    pub user_word_id: UserWordId,
    pub user_id: UserId,
    pub last_name: LastName,
    pub first_name: FirstName,
    pub email: Email,
    pub country: Country,
    pub word_id: WordId,
    pub word: WordString,
    pub created_at: CreatedAt,
}

impl UserWord {
    pub fn new(
        user_word_id: UserWordId,
        user_id: UserId,
        last_name: LastName,
        first_name: FirstName,
        email: Email,
        country: Country,
        word_id: WordId,
        word: WordString,
        created_at: CreatedAt,
    ) -> (r: Self)
        ensures
            r.user_word_id == user_word_id,
            r.user_id == user_id,
            r.last_name == last_name,
            r.first_name == first_name,
            r.email == email,
            r.country == country,
            r.word_id == word_id,
            r.word == word,
            r.created_at == created_at,
    {
        Self { user_word_id, user_id, last_name, first_name, email, country, word_id, word, created_at }
    }
}

/// The link between an account and a word.
#[derive(Debug, Clone)]
pub struct UserWordRelation {
    pub user_id: UserId,
    pub word_id: WordId,
    pub created_at: CreatedAt,
}

impl UserWordRelation {
    pub fn new(
        user_id: UserId,
        word_id: WordId,
        created_at: CreatedAt,
    ) -> (r: Self)
        ensures
            r.user_id == user_id,
            r.word_id == word_id,
            r.created_at == created_at,
    {
        Self { user_id, word_id, created_at }
    }
}

} // verus!
