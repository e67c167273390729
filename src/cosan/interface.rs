//! The storage capabilities that the word-learning service is written
//! against. Any store that offers them can back the service; every lookup
//! reports an absent row as `None`, apart from a failing store.
//!
//! Nothing is assumed of what a store answers: the services record, as
//! ghost state, each call they make to their stores, and state their results
//! for whatever the store answered.

use vstd::prelude::*;
use crate::cosan::entity::{User, UserWord, UserWordRelation, Word};
use crate::outcome::StorageError;

verus! {

/// A call that the word-learning service hands to one of its stores, with
/// its arguments as plain values.
pub enum CosanCall {
    GetUser(i64),
    CreateUser(Seq<char>, Seq<char>, Seq<char>, Seq<char>, Seq<char>, Seq<char>),
    UpdateUser(i64, Seq<char>, Seq<char>, Seq<char>, Seq<char>, Seq<char>, Seq<char>),
    DeleteUser(i64),
    FindLogin(Seq<char>),
    GetWord(i64),
    CreateWord(Seq<char>),
    UpdateWord(i64, Seq<char>),
    DeleteWord(i64),
    GetUserWord(i64, i64),
    ListByUser(i64),
    ListByWord(i64),
    CreateUserWord(i64, i64),
    DeleteUserWord(i64),
}

pub trait UserRepositoryTrait {
    fn get_user(&self, user_id: i64) -> Result<Option<User>, StorageError>;

    fn create_user(
        &self,
        last_name: &str,
        first_name: &str,
        login_id: &str,
        password: &str,
        email: &str,
        country: &str,
    ) -> Result<Option<User>, StorageError>;

    fn update_user(
        &self,
        user_id: i64,
        last_name: &str,
        first_name: &str,
        login_id: &str,
        password: &str,
        email: &str,
        country: &str,
    ) -> Result<Option<User>, StorageError>;

    fn delete_user(&self, id: i64) -> Result<Option<()>, StorageError>;

    /// The account that logs in with `login_id`, stored hash included.
    fn get_user_by_login_id(&self, login_id: &str) -> Result<Option<User>, StorageError>;
}

pub trait WordRepositoryTrait {
    fn get_word(&self, word_id: i64) -> Result<Option<Word>, StorageError>;

    fn create_word(&self, word: &str) -> Result<Option<Word>, StorageError>;

    fn update_word(&self, word_id: i64, word: &str) -> Result<Option<Word>, StorageError>;

    fn delete_word(&self, id: i64) -> Result<Option<()>, StorageError>;
}

pub trait UserWordRepositoryTrait {
    fn get_user_word_by_user_id_and_word_id(&self, user_id: i64, word_id: i64) -> Result<
        Option<UserWord>,
        StorageError,
    >;

    fn get_user_word_by_user_id(&self, user_id: i64) -> Result<Option<Vec<UserWord>>, StorageError>;

    fn get_user_word_by_word_id(&self, word_id: i64) -> Result<Option<Vec<UserWord>>, StorageError>;

    fn create_user_word(&self, user_id: i64, word_id: i64) -> Result<
        Option<UserWordRelation>,
        StorageError,
    >;

    fn delete_user_word(&self, id: i64) -> Result<Option<()>, StorageError>;
}

} // verus!
