//! Rows as the word-learning service's store reads and writes them, with
//! the checks that a row must pass.

use vstd::prelude::*;
use crate::cosan::entity::{
    Country, CreatedAt, Email, FirstName, LastName, LoginId, PasswordHash, User, UserId, UserWord,
    UserWordId, UserWordRelation, Word, WordId, WordString,
};
use crate::outcome::StorageError;
use crate::password::{HashingError, bcrypt_verdict, fresh_hash_of, hash_password};

verus! {

/// An account row as read.
#[derive(Debug)]
pub struct GetUser {
    pub user_id: i64,
    pub last_name: String,
    pub first_name: String,
    pub login_id: String,
    pub password: String,
    pub email: String,
    pub country: String,
}

impl GetUser {
    pub fn new(
        user_id: i64,
        last_name: String,
        first_name: String,
        login_id: String,
        password: String,
        email: String,
        country: String,
    ) -> (r: Self)
        ensures
            r.user_id == user_id,
            r.last_name == last_name,
            r.first_name == first_name,
            r.login_id == login_id,
            r.password == password,
            r.email == email,
            r.country == country,
    {
        Self { user_id, last_name, first_name, login_id, password, email, country }
    }

    pub open spec fn valid(&self) -> bool {
        self.user_id >= 0
            && self.last_name@.len() > 0
            && self.first_name@.len() > 0
            && self.login_id@.len() > 0
            && self.password@.len() > 0
            && self.email@.len() > 0
            && self.country@.len() > 0
    }

    pub fn is_valid(&self) -> (r: bool)
        ensures
            r == self.valid(),
    {
        self.user_id >= 0
            && !self.last_name.as_str().is_empty()
            && !self.first_name.as_str().is_empty()
            && !self.login_id.as_str().is_empty()
            && !self.password.as_str().is_empty()
            && !self.email.as_str().is_empty()
            && !self.country.as_str().is_empty()
    }

    /// The same row with its password replaced by a fresh bcrypt hash of it.
    pub fn convert_hash_password(self) -> (r: Result<Self, HashingError>)
        ensures
            r matches Ok(s) ==> fresh_hash_of(self.password@, s.password@)
                && s.user_id == self.user_id
                && s.last_name == self.last_name
                && s.first_name == self.first_name
                && s.login_id == self.login_id
                && s.email == self.email
                && s.country == self.country,
    {
        match hash_password(self.password.as_str()) {
            Ok(password) => Ok(Self { user_id: self.user_id, last_name: self.last_name, first_name: self.first_name, login_id: self.login_id, password, email: self.email, country: self.country }),
            Err(e) => Err(e),
        }
    }

    /// The account this row describes, when the row passes its check.
    pub fn into_user(self) -> (r: Option<User>)
        ensures
            r is Some <==> self.valid(),
            r matches Some(u) ==> u.user_id@ == self.user_id && u.last_name@ == self.last_name@
                && u.first_name@ == self.first_name@ && u.login_id@ == self.login_id@
                && u.password@ == self.password@ && u.email@ == self.email@ && u.country@ == self.country@,
    {
        if !self.is_valid() {
            return None;
        }
        Some(User::new(
            UserId::new(self.user_id),
            LastName::new(self.last_name.as_str()),
            FirstName::new(self.first_name.as_str()),
            LoginId::new(self.login_id.as_str()),
            PasswordHash::new(self.password.as_str()),
            Email::new(self.email.as_str()),
            Country::new(self.country.as_str()),
        ))
    }
}

/// An account row to insert.
#[derive(Debug)]
pub struct CreateUser {
    pub user_id: i64,
    pub last_name: String,
    pub first_name: String,
    pub login_id: String,
    pub password: String,
    pub email: String,
    pub country: String,
}

impl CreateUser {
    pub open spec fn valid(&self) -> bool {
        self.user_id >= 0
            && self.last_name@.len() > 0
            && self.first_name@.len() > 0
            && self.login_id@.len() > 0
            && self.password@.len() > 0
            && self.email@.len() > 0
            && self.country@.len() > 0
    }

    pub fn is_valid(&self) -> (r: bool)
        ensures
            r == self.valid(),
    {
        self.user_id >= 0
            && !self.last_name.as_str().is_empty()
            && !self.first_name.as_str().is_empty()
            && !self.login_id.as_str().is_empty()
            && !self.password.as_str().is_empty()
            && !self.email.as_str().is_empty()
            && !self.country.as_str().is_empty()
    }

    /// The same row with its password replaced by a fresh bcrypt hash of it.
    pub fn convert_hash_password(self) -> (r: Result<Self, HashingError>)
        ensures
            r matches Ok(s) ==> fresh_hash_of(self.password@, s.password@)
                && s.user_id == self.user_id
                && s.last_name == self.last_name
                && s.first_name == self.first_name
                && s.login_id == self.login_id
                && s.email == self.email
                && s.country == self.country,
    {
        match hash_password(self.password.as_str()) {
            Ok(password) => Ok(Self { user_id: self.user_id, last_name: self.last_name, first_name: self.first_name, login_id: self.login_id, password, email: self.email, country: self.country }),
            Err(e) => Err(e),
        }
    }

    /// The account this row describes, when the row passes its check.
    pub fn into_user(self) -> (r: Option<User>)
        ensures
            r is Some <==> self.valid(),
            r matches Some(u) ==> u.user_id@ == self.user_id && u.last_name@ == self.last_name@
                && u.first_name@ == self.first_name@ && u.login_id@ == self.login_id@
                && u.password@ == self.password@ && u.email@ == self.email@ && u.country@ == self.country@,
    {
        if !self.is_valid() {
            return None;
        }
        Some(User::new(
            UserId::new(self.user_id),
            LastName::new(self.last_name.as_str()),
            FirstName::new(self.first_name.as_str()),
            LoginId::new(self.login_id.as_str()),
            PasswordHash::new(self.password.as_str()),
            Email::new(self.email.as_str()),
            Country::new(self.country.as_str()),
        ))
    }
}

/// An account row to write over an existing one.
#[derive(Debug)]
pub struct UpdateUser {
    pub user_id: i64,
    pub last_name: String,
    pub first_name: String,
    pub login_id: String,
    pub password: String,
    pub email: String,
    pub country: String,
}

impl UpdateUser {
    pub open spec fn valid(&self) -> bool {
        self.user_id >= 0
            && self.last_name@.len() > 0
            && self.first_name@.len() > 0
            && self.login_id@.len() > 0
            && self.password@.len() > 0
            && self.email@.len() > 0
            && self.country@.len() > 0
    }

    pub fn is_valid(&self) -> (r: bool)
        ensures
            r == self.valid(),
    {
        self.user_id >= 0
            && !self.last_name.as_str().is_empty()
            && !self.first_name.as_str().is_empty()
            && !self.login_id.as_str().is_empty()
            && !self.password.as_str().is_empty()
            && !self.email.as_str().is_empty()
            && !self.country.as_str().is_empty()
    }

    /// The same row with its password replaced by a fresh bcrypt hash of it.
    pub fn convert_hash_password(self) -> (r: Result<Self, HashingError>)
        ensures
            r matches Ok(s) ==> fresh_hash_of(self.password@, s.password@)
                && s.user_id == self.user_id
                && s.last_name == self.last_name
                && s.first_name == self.first_name
                && s.login_id == self.login_id
                && s.email == self.email
                && s.country == self.country,
    {
        match hash_password(self.password.as_str()) {
            Ok(password) => Ok(Self { user_id: self.user_id, last_name: self.last_name, first_name: self.first_name, login_id: self.login_id, password, email: self.email, country: self.country }),
            Err(e) => Err(e),
        }
    }

    /// The account this row describes, when the row passes its check.
    pub fn into_user(self) -> (r: Option<User>)
        ensures
            r is Some <==> self.valid(),
            r matches Some(u) ==> u.user_id@ == self.user_id && u.last_name@ == self.last_name@
                && u.first_name@ == self.first_name@ && u.login_id@ == self.login_id@
                && u.password@ == self.password@ && u.email@ == self.email@ && u.country@ == self.country@,
    {
        if !self.is_valid() {
            return None;
        }
        Some(User::new(
            UserId::new(self.user_id),
            LastName::new(self.last_name.as_str()),
            FirstName::new(self.first_name.as_str()),
            LoginId::new(self.login_id.as_str()),
            PasswordHash::new(self.password.as_str()),
            Email::new(self.email.as_str()),
            Country::new(self.country.as_str()),
        ))
    }
}

/// A word row as read.
#[derive(Debug)]
pub struct GetWord {
    pub word_id: i64,
    pub word: String,
}

impl GetWord {
    pub open spec fn valid(&self) -> bool {
        self.word_id >= 0
            && self.word@.len() > 0
    }

    pub fn is_valid(&self) -> (r: bool)
        ensures
            r == self.valid(),
    {
        self.word_id >= 0
            && !self.word.as_str().is_empty()
    }

    /// The word this row describes, when the row passes its check.
    pub fn into_word(self) -> (r: Option<Word>)
        ensures
            r is Some <==> self.valid(),
            r matches Some(w) ==> w.word_id@ == self.word_id && w.word@ == self.word@,
    {
        if !self.is_valid() {
            return None;
        }
        Some(Word::new(WordId::new(self.word_id), WordString::new(self.word.as_str())))
    }
}

/// A word row to insert. The store's check on it wants the text still empty.
#[derive(Debug)]
pub struct CreateWord {
    pub word_id: i64,
    pub word: String,
}

impl CreateWord {
    pub open spec fn valid(&self) -> bool {
        self.word_id >= 0
            && self.word@.len() == 0
    }

    pub fn is_valid(&self) -> (r: bool)
        ensures
            r == self.valid(),
    {
        self.word_id >= 0
            && self.word.as_str().is_empty()
    }

    /// The word this row describes, when the row passes its check.
    pub fn into_word(self) -> (r: Option<Word>)
        ensures
            r is Some <==> self.valid(),
            r matches Some(w) ==> w.word_id@ == self.word_id && w.word@ == self.word@,
    {
        if !self.is_valid() {
            return None;
        }
        Some(Word::new(WordId::new(self.word_id), WordString::new(self.word.as_str())))
    }
}

/// A word row to write over an existing one.
#[derive(Debug)]
pub struct UpdateWord {
    pub word_id: i64,
    pub word: String,
}

impl UpdateWord {
    pub open spec fn valid(&self) -> bool {
        self.word_id >= 0
            && self.word@.len() > 0
    }

    pub fn is_valid(&self) -> (r: bool)
        ensures
            r == self.valid(),
    {
        self.word_id >= 0
            && !self.word.as_str().is_empty()
    }

    /// The word this row describes, when the row passes its check.
    pub fn into_word(self) -> (r: Option<Word>)
        ensures
            r is Some <==> self.valid(),
            r matches Some(w) ==> w.word_id@ == self.word_id && w.word@ == self.word@,
    {
        if !self.is_valid() {
            return None;
        }
        Some(Word::new(WordId::new(self.word_id), WordString::new(self.word.as_str())))
    }
}

/// A relation row joined with its account and its word.
#[derive(Debug)]
pub struct GetUserWord {
    pub user_word_id: i64,
    pub user_id: i64,
    pub last_name: String,
    pub first_name: String,
    pub email: String,
    pub country: String,
    pub word_id: i64,
    pub word: String,
    pub created_at: String,
}

impl GetUserWord {
    pub open spec fn valid(&self) -> bool {
        self.user_word_id >= 0
            && self.user_id >= 0
            && self.last_name@.len() > 0
            && self.first_name@.len() > 0
            && self.email@.len() > 0
            && self.country@.len() > 0
            && self.word_id >= 0
            && self.word@.len() > 0
            && self.created_at@.len() > 0
    }

    pub fn is_valid(&self) -> (r: bool)
        ensures
            r == self.valid(),
    {
        self.user_word_id >= 0
            && self.user_id >= 0
            && !self.last_name.as_str().is_empty()
            && !self.first_name.as_str().is_empty()
            && !self.email.as_str().is_empty()
            && !self.country.as_str().is_empty()
            && self.word_id >= 0
            && !self.word.as_str().is_empty()
            && !self.created_at.as_str().is_empty()
    }

    /// The relation this row describes, its creation time rendered in UTC;
    /// an error when the stored time is not RFC 3339.
    pub fn to_user_word(&self) -> (r: Result<UserWord, StorageError>)
        ensures
            match utc_display(self.created_at@) {
                Some(t) => r matches Ok(uw) && row_describes(*self, uw) && uw.created_at@ == t,
                None => r is Err,
            },
    {
        let created_at = match utc_text(self.created_at.as_str()) {
            Some(t) => t,
            None => {
                return Err(invalid_date());
            },
        };
        Ok(UserWord::new(
            UserWordId::new(self.user_word_id),
            UserId::new(self.user_id),
            LastName::new(self.last_name.as_str()),
            FirstName::new(self.first_name.as_str()),
            Email::new(self.email.as_str()),
            Country::new(self.country.as_str()),
            WordId::new(self.word_id),
            WordString::new(self.word.as_str()),
            CreatedAt::new(created_at.as_str()),
        ))
    }
}

/// The two ids of a relation.
#[derive(Debug)]
pub struct GetUserWordId {
    pub user_id: i64,
    pub word_id: i64,
}

impl GetUserWordId {
    pub open spec fn valid(&self) -> bool {
        self.user_id >= 0
            && self.word_id >= 0
    }

    pub fn is_valid(&self) -> (r: bool)
        ensures
            r == self.valid(),
    {
        self.user_id >= 0
            && self.word_id >= 0
    }
}

/// A relation row as read.
#[derive(Debug)]
pub struct GetUserWordRelation {
    pub user_id: i64,
    pub word_id: i64,
    pub created_at: String,
}

impl GetUserWordRelation {
    pub open spec fn valid(&self) -> bool {
        self.user_id >= 0
            && self.word_id >= 0
    }

    pub fn is_valid(&self) -> (r: bool)
        ensures
            r == self.valid(),
    {
        self.user_id >= 0
            && self.word_id >= 0
    }

    /// The relation this row describes, when the row passes its check; an
    /// error when the stored time is not RFC 3339.
    pub fn into_relation(self) -> (r: Result<Option<UserWordRelation>, StorageError>)
        ensures
            !self.valid() ==> r matches Ok(None),
            self.valid() ==> match utc_display(self.created_at@) {
                Some(t) => r matches Ok(Some(rel)) && rel.user_id@ == self.user_id
                    && rel.word_id@ == self.word_id && rel.created_at@ == t,
                None => r is Err,
            },
    {
        if !self.is_valid() {
            return Ok(None);
        }
        match utc_text(self.created_at.as_str()) {
            Some(t) => Ok(Some(UserWordRelation::new(UserId::new(self.user_id), WordId::new(self.word_id), CreatedAt::new(t.as_str())))),
            None => Err(invalid_date()),
        }
    }
}

/// A relation row to insert.
#[derive(Debug)]
pub struct CreateUserWord {
    pub user_id: i64,
    pub word_id: i64,
}

impl CreateUserWord {
    pub open spec fn valid(&self) -> bool {
        self.user_id >= 0
            && self.word_id >= 0
    }

    pub fn is_valid(&self) -> (r: bool)
        ensures
            r == self.valid(),
    {
        self.user_id >= 0
            && self.word_id >= 0
    }
}


/// The text of a time in UTC, as chrono displays it, for an RFC 3339 time.
pub uninterp spec fn utc_display(s: Seq<char>) -> Option<Seq<char>>;

/// Relies on `chrono::DateTime::parse_from_rfc3339`, moved to UTC and shown
/// by its `Display`; `None` when `s` is not RFC 3339.
#[verifier::external_body]
fn utc_text(s: &str) -> (r: Option<String>)
    ensures
        match r {
            Some(t) => utc_display(s@) == Some(t@),
            None => utc_display(s@) is None,
        },
{
    match chrono::DateTime::parse_from_rfc3339(s) {
        Ok(d) => Some(d.with_timezone(&chrono::Utc).to_string()),
        Err(_) => None,
    }
}

fn invalid_date() -> StorageError {
    StorageError { message: "Invalid date".to_string() }
}

/// Whether `uw` carries the ids and texts of `row`.
pub open spec fn row_describes(row: GetUserWord, uw: UserWord) -> bool {
    &&& uw.user_word_id@ == row.user_word_id
    &&& uw.user_id@ == row.user_id
    &&& uw.last_name@ == row.last_name@
    &&& uw.first_name@ == row.first_name@
    &&& uw.email@ == row.email@
    &&& uw.country@ == row.country@
    &&& uw.word_id@ == row.word_id
    &&& uw.word@ == row.word@
}

/// The single relation that a lookup found, when its row passes its check.
pub fn user_word_of_row(row: GetUserWord) -> (r: Result<Option<UserWord>, StorageError>)
    ensures
        !row.valid() ==> r matches Ok(None),
        row.valid() ==> match utc_display(row.created_at@) {
            Some(t) => r matches Ok(Some(uw)) && row_describes(row, uw) && uw.created_at@ == t,
            None => r is Err,
        },
{
    if !row.is_valid() {
        return Ok(None);
    }
    match row.to_user_word() {
        Ok(uw) => Ok(Some(uw)),
        Err(e) => Err(e),
    }
}

/// The relations that a listing found, in order; `None` when it found none.
pub fn user_words_of_rows(rows: Vec<GetUserWord>) -> (r: Result<Option<Vec<UserWord>>, StorageError>)
    ensures
        rows.len() == 0 ==> r matches Ok(None),
        r matches Ok(Some(list)) ==> list.len() == rows.len() && list.len() > 0
            && forall|k: int| 0 <= k < rows.len() ==> row_describes(rows[k], #[trigger] list[k]),
        (forall|k: int| 0 <= k < rows.len() ==> (#[trigger] utc_display(rows[k].created_at@)) is Some) ==> r is Ok,
{
    if rows.len() == 0 {
        return Ok(None);
    }
    let mut list: Vec<UserWord> = Vec::new();
    let mut i: usize = 0;
    while i < rows.len()
        invariant
            i <= rows.len(),
            list.len() == i,
            forall|k: int| 0 <= k < i ==> row_describes(rows[k], #[trigger] list[k]),
        decreases rows.len() - i,
    {
        match rows[i].to_user_word() {
            Ok(uw) => list.push(uw),
            Err(e) => {
                return Err(e);
            },
        }
        i = i + 1;
    }
    Ok(Some(list))
}

} // verus!
