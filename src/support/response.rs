//! Answer bodies of the support service.

use vstd::prelude::*;

pub use crate::http::ErrorResponse;

verus! {

/// The answer of the health check.
pub struct HealthCheckResponse {
    pub id: String,
    pub status: &'static str,
}

/// A protagonist, without credentials.
pub struct GetProtagonistResponse {
    pub protagonist_id: u64,
    pub protagonist_last_name: String,
    pub protagonist_first_name: String,
    pub protagonist_email: String,
    pub protagonist_country: String,
}

/// The protagonist just created.
pub struct CreateProtagonistResponse {
    pub protagonist_id: u64,
    pub protagonist_last_name: String,
    pub protagonist_first_name: String,
    pub protagonist_email: String,
    pub protagonist_country: String,
}

/// The protagonist just updated.
pub struct UpdateProtagonistResponse {
    pub protagonist_id: u64,
    pub protagonist_last_name: String,
    pub protagonist_first_name: String,
    pub protagonist_email: String,
    pub protagonist_country: String,
}

/// The outcome of a deletion.
pub struct DeleteProtagonistResponse {
    pub status: String,
}

/// A supporter, without credentials.
pub struct GetSupporterResponse {
    pub supporter_id: u64,
    pub supporter_last_name: String,
    pub supporter_first_name: String,
    pub supporter_email: String,
    pub supporter_country: String,
}

/// The supporter just created.
pub struct CreateSupporterResponse {
    pub supporter_id: u64,
    pub supporter_last_name: String,
    pub supporter_first_name: String,
    pub supporter_email: String,
    pub supporter_country: String,
}

/// The supporter just updated.
pub struct UpdateSupporterResponse {
    pub supporter_id: u64,
    pub supporter_last_name: String,
    pub supporter_first_name: String,
    pub supporter_email: String,
    pub supporter_country: String,
}

/// The outcome of a deletion.
pub struct DeleteSupporterResponse {
    pub status: String,
}

/// A supporter of a protagonist.
pub struct GetProtagonistSupporterResponse {
    pub supporter_id: u64,
    pub supporter_last_name: String,
    pub supporter_first_name: String,
    pub supporter_country: String,
}

/// The link just created.
pub struct CreateProtagonistSupporterResponse {
    pub protagonist_supporter_id: u64,
}

/// The outcome of a deletion.
pub struct DeleteProtagonistSupporterResponse {
    pub status: String,
}

/// A protagonist and one of their supporters, by name.
pub struct ProtagonistSupportResponse {
    pub protagonist_id: u64,
    pub protagonist_name: String,
    pub supporter_id: u64,
    pub supporter_name: String,
}

} // verus!
