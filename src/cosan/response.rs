//! Answer bodies of the word-learning service.

use vstd::prelude::*;

pub use crate::http::ErrorResponse;

verus! {

/// The answer of the health check.
pub struct HealthCheckResponse {
    pub status: &'static str,
}

/// An account, without its credentials.
pub struct GetUserResponse {
    pub user_id: u64,
    pub user_last_name: String,
    pub user_first_name: String,
    pub user_email: String,
    pub user_country: String,
}

/// The account just created.
pub struct CreateUserResponse {
    pub user_id: u64,
    pub user_last_name: String,
    pub user_first_name: String,
    pub user_email: String,
    pub user_country: String,
}

/// The account just updated.
pub struct UpdateUserResponse {
    pub user_id: u64,
    pub user_last_name: String,
    pub user_first_name: String,
    pub user_email: String,
    pub user_country: String,
}

/// The outcome of a deletion.
pub struct DeleteUserResponse {
    pub status: String,
}

/// A word.
pub struct GetWordResponse {
    pub word_id: u64,
    pub word: String,
}

/// The word just created.
pub struct CreateWordResponse {
    pub word_id: u64,
    pub word: String,
}

/// The word just updated.
pub struct UpdateWordResponse {
    pub word_id: u64,
    pub word: String,
}

/// The outcome of a deletion.
pub struct DeleteWordResponse {
    pub status: String,
}

/// A word that an account has taken up.
pub struct GetUserWordResponse {
    pub user_word_id: u64,
    pub user_id: u64,
    pub last_name: String,
    pub first_name: String,
    pub email: String,
    pub country: String,
    pub word_id: u64,
    pub word: String,
    pub created_at: String,
}

/// A relation just created, spelled out.
pub struct CreateUserWordResponse {
    pub user_word_id: u64,
    pub user_id: u64,
    pub last_name: String,
    pub first_name: String,
    pub email: String,
    pub country: String,
    pub word_id: u64,
    pub word: String,
    pub created_at: String,
}

/// A relation just created.
pub struct CreateUserWordRelationResponse {
    pub user_id: u64,
    pub word_id: u64,
    pub created_at: String,
}

/// The outcome of a deletion.
pub struct DeleteUserWordResponse {
    pub status: String,
}

} // verus!
