//! The storage capabilities that the support service is written against.
//! Every lookup reports an absent row as `None`, apart from a failing store.
//!
//! Nothing is assumed of what a store answers: the services record, as
//! ghost state, each call they make to their stores, and state their results
//! for whatever the store answered.

use vstd::prelude::*;
use crate::outcome::StorageError;
use crate::support::entity::{Protagonist, ProtagonistSupporter, ProtagonistSupporterRelation, Supporter};
use crate::support::model::{CreateProtagonist, CreateProtagonistSupporter, CreateSupporter, UpdateProtagonist, UpdateSupporter};

verus! {

/// A call that the support service hands to its store, with its arguments.
pub enum SupportCall {
    GetProtagonist(i64),
    CreateProtagonist(CreateProtagonist),
    UpdateProtagonist(UpdateProtagonist),
    DeleteProtagonist(i64),
    FindProtagonistLogin(Seq<char>),
    GetSupporter(i64),
    CreateSupporter(CreateSupporter),
    UpdateSupporter(UpdateSupporter),
    DeleteSupporter(i64),
    FindSupporterLogin(Seq<char>),
    ListSupporters(i64),
    CreateLink(CreateProtagonistSupporter),
    DeleteLink(i64),
}

pub trait SupportRepositoryTrait {
    fn get_protagonist(&self, protagonist_id: i64) -> Result<Option<Protagonist>, StorageError>;

    fn create_protagonist(&self, protagonist: CreateProtagonist) -> Result<Option<Protagonist>, StorageError>;

    fn update_protagonist(&self, protagonist: UpdateProtagonist) -> Result<Option<Protagonist>, StorageError>;

    fn delete_protagonist(&self, id: i64) -> Result<Option<()>, StorageError>;

    /// The protagonist that logs in with `login_id`, stored hash included.
    fn get_protagonist_by_login_id_and_password(&self, login_id: &str) -> Result<Option<Protagonist>, StorageError>;






    fn get_supporter(&self, supporter_id: i64) -> Result<Option<Supporter>, StorageError>;

    fn create_supporter(&self, supporter: CreateSupporter) -> Result<Option<Supporter>, StorageError>;

    fn update_supporter(&self, supporter: UpdateSupporter) -> Result<Option<Supporter>, StorageError>;

    fn delete_supporter(&self, id: i64) -> Result<Option<()>, StorageError>;

    /// The supporter that logs in with `login_id`, stored hash included.
    fn get_supporter_by_login_id_and_password(&self, login_id: &str) -> Result<Option<Supporter>, StorageError>;




    fn get_protagonist_supporter(&self, id: i64) -> Result<Option<Vec<ProtagonistSupporter>>, StorageError>;

    fn create_protagonist_supporter(&self, protagonist_supporter: CreateProtagonistSupporter) -> Result<
        Option<ProtagonistSupporterRelation>,
        StorageError,
    >;

    fn delete_protagonist_supporter(&self, id: i64) -> Result<Option<()>, StorageError>;
}

} // verus!
