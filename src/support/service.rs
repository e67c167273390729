//! The business operations of the support service, written against the
//! storage capabilities of `interface`.

use vstd::prelude::*;
use crate::outcome::{ServiceError, StorageError, check_password, present, store_outcome};
use crate::password::{bcrypt_verdict, fresh_hash_of, lemma_fresh_hash_differs, looks_like_hash};
use crate::support::entity::{Protagonist, ProtagonistSupporter, ProtagonistSupporterRelation, Supporter};
use crate::support::interface::{SupportCall, SupportRepositoryTrait};
use crate::support::model::{CreateProtagonist, CreateProtagonistSupporter, CreateSupporter, UpdateProtagonist, UpdateSupporter};
use crate::support::request::{
    CreateProtagonistRequest, CreateProtagonistSupporterRequest, CreateSupporterRequest,
    GetProtagonistRequest, GetSupporterRequest, UpdateProtagonistRequest, UpdateSupporterRequest,
};
use crate::support::response::{
    CreateProtagonistResponse, CreateProtagonistSupporterResponse, CreateSupporterResponse,
    GetProtagonistResponse, GetProtagonistSupporterResponse, GetSupporterResponse,
    UpdateProtagonistResponse, UpdateSupporterResponse,
};

verus! {

/// A protagonist as answered: id and public fields, no credentials.
pub fn protagonist_response(p: &Protagonist) -> (r: GetProtagonistResponse)
    ensures
        r.protagonist_id == p.protagonist_id as u64,
        r.protagonist_last_name@ == p.last_name@,
        r.protagonist_first_name@ == p.first_name@,
        r.protagonist_email@ == p.email@,
        r.protagonist_country@ == p.country@,
{
    GetProtagonistResponse {
        protagonist_id: p.protagonist_id as u64,
        protagonist_last_name: p.last_name.clone(),
        protagonist_first_name: p.first_name.clone(),
        protagonist_email: p.email.clone(),
        protagonist_country: p.country.clone(),
    }
}

/// A supporter as answered: id and public fields, no credentials.
pub fn supporter_response(p: &Supporter) -> (r: GetSupporterResponse)
    ensures
        r.supporter_id == p.supporter_id as u64,
        r.supporter_last_name@ == p.last_name@,
        r.supporter_first_name@ == p.first_name@,
        r.supporter_email@ == p.email@,
        r.supporter_country@ == p.country@,
{
    GetSupporterResponse {
        supporter_id: p.supporter_id as u64,
        supporter_last_name: p.last_name.clone(),
        supporter_first_name: p.first_name.clone(),
        supporter_email: p.email.clone(),
        supporter_country: p.country.clone(),
    }
}

/// Whether `r` answers for the supporter `ps`, field by field.
pub open spec fn describes_supporter(r: GetProtagonistSupporterResponse, ps: ProtagonistSupporter) -> bool {
    &&& r.supporter_id == ps.supporter_id as u64
    &&& r.supporter_last_name@ == ps.last_name@
    &&& r.supporter_first_name@ == ps.first_name@
    &&& r.supporter_country@ == ps.country@
}

/// Each supporter answered, in the order the store gave them.
pub fn protagonist_supporter_responses(list: &Vec<ProtagonistSupporter>) -> (r: Vec<GetProtagonistSupporterResponse>)
    ensures
        r.len() == list.len(),
        forall|k: int| 0 <= k < list.len() ==> describes_supporter(#[trigger] r[k], list[k]),
{
    let mut out: Vec<GetProtagonistSupporterResponse> = Vec::new();
    let mut i: usize = 0;
    while i < list.len()
        invariant
            i <= list.len(),
            out.len() == i,
            forall|k: int| 0 <= k < i ==> describes_supporter(#[trigger] out[k], list[k]),
        decreases list.len() - i,
    {
        let ps = &list[i];
        out.push(GetProtagonistSupporterResponse {
            supporter_id: ps.supporter_id as u64,
            supporter_last_name: ps.last_name.clone(),
            supporter_first_name: ps.first_name.clone(),
            supporter_country: ps.country.clone(),
        });
        i = i + 1;
    }
    out
}

pub open spec fn shows_protagonist(g: GetProtagonistResponse, p: Protagonist) -> bool {
    &&& g.protagonist_id == p.protagonist_id as u64
    &&& g.protagonist_last_name@ == p.last_name@
    &&& g.protagonist_first_name@ == p.first_name@
    &&& g.protagonist_email@ == p.email@
    &&& g.protagonist_country@ == p.country@
}

pub open spec fn shows_created_protagonist(g: CreateProtagonistResponse, p: Protagonist) -> bool {
    &&& g.protagonist_id == p.protagonist_id as u64
    &&& g.protagonist_last_name@ == p.last_name@
    &&& g.protagonist_first_name@ == p.first_name@
    &&& g.protagonist_email@ == p.email@
    &&& g.protagonist_country@ == p.country@
}

pub open spec fn shows_updated_protagonist(g: UpdateProtagonistResponse, p: Protagonist) -> bool {
    &&& g.protagonist_id == p.protagonist_id as u64
    &&& g.protagonist_last_name@ == p.last_name@
    &&& g.protagonist_first_name@ == p.first_name@
    &&& g.protagonist_email@ == p.email@
    &&& g.protagonist_country@ == p.country@
}

pub open spec fn shows_supporter(g: GetSupporterResponse, p: Supporter) -> bool {
    &&& g.supporter_id == p.supporter_id as u64
    &&& g.supporter_last_name@ == p.last_name@
    &&& g.supporter_first_name@ == p.first_name@
    &&& g.supporter_email@ == p.email@
    &&& g.supporter_country@ == p.country@
}

pub open spec fn shows_created_supporter(g: CreateSupporterResponse, p: Supporter) -> bool {
    &&& g.supporter_id == p.supporter_id as u64
    &&& g.supporter_last_name@ == p.last_name@
    &&& g.supporter_first_name@ == p.first_name@
    &&& g.supporter_email@ == p.email@
    &&& g.supporter_country@ == p.country@
}

pub open spec fn shows_updated_supporter(g: UpdateSupporterResponse, p: Supporter) -> bool {
    &&& g.supporter_id == p.supporter_id as u64
    &&& g.supporter_last_name@ == p.last_name@
    &&& g.supporter_first_name@ == p.first_name@
    &&& g.supporter_email@ == p.email@
    &&& g.supporter_country@ == p.country@
}

pub open spec fn shows_supporters(v: Vec<GetProtagonistSupporterResponse>, l: Vec<ProtagonistSupporter>) -> bool {
    v.len() == l.len() && forall|k: int| 0 <= k < l.len() ==> describes_supporter(#[trigger] v[k], l[k])
}

/// What a log-in of a protagonist makes of the store's answer `a` for password `p`.
pub open spec fn protagonist_login_outcome(a: Result<Option<Protagonist>, StorageError>, p: Seq<char>, r: Result<GetProtagonistResponse, ServiceError>) -> bool {
    match a {
        Ok(Some(x)) => match bcrypt_verdict(p, x.password@) {
            Some(true) => r matches Ok(g) && shows_protagonist(g, x),
            Some(false) => r matches Err(ServiceError::InvalidPassword),
            None => r matches Err(ServiceError::Hashing(_)),
        },
        Ok(None) => r matches Err(ServiceError::NotFound(m)) && m@ == "Protagonist not found"@,
        Err(e) => r == Err::<GetProtagonistResponse, ServiceError>(ServiceError::Storage(e)),
    }
}

/// What a log-in of a supporter makes of the store's answer `a` for password `p`.
pub open spec fn supporter_login_outcome(a: Result<Option<Supporter>, StorageError>, p: Seq<char>, r: Result<GetSupporterResponse, ServiceError>) -> bool {
    match a {
        Ok(Some(x)) => match bcrypt_verdict(p, x.password@) {
            Some(true) => r matches Ok(g) && shows_supporter(g, x),
            Some(false) => r matches Err(ServiceError::InvalidPassword),
            None => r matches Err(ServiceError::Hashing(_)),
        },
        Ok(None) => r matches Err(ServiceError::NotFound(m)) && m@ == "Supporter not found"@,
        Err(e) => r == Err::<GetSupporterResponse, ServiceError>(ServiceError::Storage(e)),
    }
}

/// Whether `r` is what `get_protagonist` makes of the store's answer `a`.
pub open spec fn get_protagonist_outcome(a: Result<Option<Protagonist>, StorageError>, r: Result<GetProtagonistResponse, ServiceError>) -> bool {
    store_outcome(a, "Protagonist not found"@, r, |g: GetProtagonistResponse, p: Protagonist| shows_protagonist(g, p))
}

/// Whether `r` is what `create_protagonist` makes of the store's answer `a`.
pub open spec fn create_protagonist_outcome(a: Result<Option<Protagonist>, StorageError>, r: Result<CreateProtagonistResponse, ServiceError>) -> bool {
    store_outcome(a, "Protagonist not created"@, r, |g: CreateProtagonistResponse, p: Protagonist| shows_created_protagonist(g, p))
}

/// Whether `r` is what `update_protagonist` makes of the store's answer `a`.
pub open spec fn update_protagonist_outcome(a: Result<Option<Protagonist>, StorageError>, r: Result<UpdateProtagonistResponse, ServiceError>) -> bool {
    store_outcome(a, "Protagonist not updated"@, r, |g: UpdateProtagonistResponse, p: Protagonist| shows_updated_protagonist(g, p))
}

/// Whether `r` is what `delete_protagonist` makes of the store's answer `a`.
pub open spec fn delete_protagonist_outcome(a: Result<Option<()>, StorageError>, r: Result<(), ServiceError>) -> bool {
    store_outcome(a, "Protagonist not deleted"@, r, |d: (), x: ()| true)
}

/// Whether `r` is what `get_supporter` makes of the store's answer `a`.
pub open spec fn get_supporter_outcome(a: Result<Option<Supporter>, StorageError>, r: Result<GetSupporterResponse, ServiceError>) -> bool {
    store_outcome(a, "Supporter not found"@, r, |g: GetSupporterResponse, p: Supporter| shows_supporter(g, p))
}

/// Whether `r` is what `create_supporter` makes of the store's answer `a`.
pub open spec fn create_supporter_outcome(a: Result<Option<Supporter>, StorageError>, r: Result<CreateSupporterResponse, ServiceError>) -> bool {
    store_outcome(a, "Supporter not created"@, r, |g: CreateSupporterResponse, p: Supporter| shows_created_supporter(g, p))
}

/// Whether `r` is what `update_supporter` makes of the store's answer `a`.
pub open spec fn update_supporter_outcome(a: Result<Option<Supporter>, StorageError>, r: Result<UpdateSupporterResponse, ServiceError>) -> bool {
    store_outcome(a, "Supporter not updated"@, r, |g: UpdateSupporterResponse, p: Supporter| shows_updated_supporter(g, p))
}

/// Whether `r` is what `delete_supporter` makes of the store's answer `a`.
pub open spec fn delete_supporter_outcome(a: Result<Option<()>, StorageError>, r: Result<(), ServiceError>) -> bool {
    store_outcome(a, "Supporter not deleted"@, r, |d: (), x: ()| true)
}

/// Whether `r` is what `get_protagonist_supporter` makes of the store's answer `a`.
pub open spec fn get_protagonist_supporter_outcome(a: Result<Option<Vec<ProtagonistSupporter>>, StorageError>, r: Result<Vec<GetProtagonistSupporterResponse>, ServiceError>) -> bool {
    store_outcome(a, "Protagonist supporter not found"@, r, |v: Vec<GetProtagonistSupporterResponse>, l: Vec<ProtagonistSupporter>| shows_supporters(v, l))
}

/// Whether `r` is what `create_protagonist_supporter` makes of the store's answer `a`.
pub open spec fn create_protagonist_supporter_outcome(a: Result<Option<ProtagonistSupporterRelation>, StorageError>, r: Result<CreateProtagonistSupporterResponse, ServiceError>) -> bool {
    store_outcome(a, "Protagonist supporter not created"@, r, |g: CreateProtagonistSupporterResponse, rel: ProtagonistSupporterRelation| g.protagonist_supporter_id == rel.protagonist_supporter_id as u64)
}

/// Whether `r` is what `delete_protagonist_supporter` makes of the store's answer `a`.
pub open spec fn delete_protagonist_supporter_outcome(a: Result<Option<()>, StorageError>, r: Result<(), ServiceError>) -> bool {
    store_outcome(a, "Protagonist supporter not deleted"@, r, |d: (), x: ()| true)
}

/// The support service over one store. `calls` records, as ghost state,
/// every call the service has handed to its store, in order.
#[derive(Clone)]
pub struct SupportService<R> {
    repository: R,
    calls: Ghost<Seq<SupportCall>>,
}

impl<R: SupportRepositoryTrait> SupportService<R> {
    pub closed spec fn store(&self) -> R {
        self.repository
    }

    /// The calls handed to the store so far, oldest first.
    pub closed spec fn calls(&self) -> Seq<SupportCall> {
        self.calls@
    }

    pub fn new(repository: R) -> (r: Self)
        ensures
            r.store() == repository,
            r.calls() == Seq::<SupportCall>::empty(),
    {
        Self { repository, calls: Ghost(Seq::empty()) }
    }

    pub fn get_protagonist(&mut self, id: i64) -> (r: Result<GetProtagonistResponse, ServiceError>)
        ensures
            final(self).calls() == old(self).calls().push(SupportCall::GetProtagonist(id)),
            final(self).store() == old(self).store(),
            exists|a: Result<Option<Protagonist>, StorageError>| #[trigger] get_protagonist_outcome(a, r),
    {
        let found = self.repository.get_protagonist(id);
        self.calls = Ghost(self.calls@.push(SupportCall::GetProtagonist(id)));
        let ghost a = found;
        let r = match present(found, "Protagonist not found") {
            Ok(x) => Ok(protagonist_response(&x)),
            Err(e) => Err(e),
        };
        assert(get_protagonist_outcome(a, r));
        r
    }

    /// Stores a new protagonist. The store receives the request's fields, with the id -1 that it replaces,
    /// and a fresh bcrypt hash of the password, never the password itself.
    pub fn create_protagonist(&mut self, protagonist: CreateProtagonistRequest) -> (r: Result<CreateProtagonistResponse, ServiceError>)
        ensures
            final(self).store() == old(self).store(),
            r matches Err(ServiceError::Hashing(_)) ==> final(self).calls() == old(self).calls(),
            !(r matches Err(ServiceError::Hashing(_))) ==> exists|row: CreateProtagonist| {
                &&& #[trigger] fresh_hash_of(protagonist.password@, row.password@)
                &&& row.password@ != protagonist.password@ || looks_like_hash(protagonist.password@)
                &&& row.protagonist_id == -1
                &&& row.last_name == protagonist.last_name
                &&& row.first_name == protagonist.first_name
                &&& row.login_id == protagonist.login_id
                &&& row.email == protagonist.email
                &&& row.country == protagonist.country
                &&& final(self).calls() == old(self).calls().push(SupportCall::CreateProtagonist(row))
            },
            r matches Err(ServiceError::Hashing(_)) || exists|a: Result<Option<Protagonist>, StorageError>| #[trigger] create_protagonist_outcome(a, r),
    {
        let row = CreateProtagonist::new(
            -1,
            protagonist.last_name,
            protagonist.first_name,
            protagonist.login_id,
            protagonist.password,
            protagonist.email,
            protagonist.country,
        );
        let row = match row.convert_hash_password() {
            Ok(row) => row,
            Err(e) => {
                return Err(ServiceError::Hashing(e));
            },
        };
        let ghost sent = row;
        let found = self.repository.create_protagonist(row);
        self.calls = Ghost(self.calls@.push(SupportCall::CreateProtagonist(sent)));
        let ghost a = found;
        let r = match present(found, "Protagonist not created") {
            Ok(p) => {
                let g = protagonist_response(&p);
                Ok(CreateProtagonistResponse {
                    protagonist_id: g.protagonist_id,
                    protagonist_last_name: g.protagonist_last_name,
                    protagonist_first_name: g.protagonist_first_name,
                    protagonist_email: g.protagonist_email,
                    protagonist_country: g.protagonist_country,
                })
            },
            Err(e) => Err(e),
        };
        assert(fresh_hash_of(protagonist.password@, sent.password@));
        proof {
            if !looks_like_hash(protagonist.password@) {
                lemma_fresh_hash_differs(protagonist.password@, sent.password@);
            }
        }
        assert(create_protagonist_outcome(a, r));
        r
    }

    /// Replaces a protagonist. The store receives the request's fields
    /// and a fresh bcrypt hash of the password, never the password itself.
    pub fn update_protagonist(&mut self, protagonist: UpdateProtagonistRequest) -> (r: Result<UpdateProtagonistResponse, ServiceError>)
        ensures
            final(self).store() == old(self).store(),
            r matches Err(ServiceError::Hashing(_)) ==> final(self).calls() == old(self).calls(),
            !(r matches Err(ServiceError::Hashing(_))) ==> exists|row: UpdateProtagonist| {
                &&& #[trigger] fresh_hash_of(protagonist.password@, row.password@)
                &&& row.password@ != protagonist.password@ || looks_like_hash(protagonist.password@)
                &&& row.protagonist_id == protagonist.protagonist_id
                &&& row.last_name == protagonist.last_name
                &&& row.first_name == protagonist.first_name
                &&& row.login_id == protagonist.login_id
                &&& row.email == protagonist.email
                &&& row.country == protagonist.country
                &&& final(self).calls() == old(self).calls().push(SupportCall::UpdateProtagonist(row))
            },
            r matches Err(ServiceError::Hashing(_)) || exists|a: Result<Option<Protagonist>, StorageError>| #[trigger] update_protagonist_outcome(a, r),
    {
        let row = UpdateProtagonist::new(
            protagonist.protagonist_id,
            protagonist.last_name,
            protagonist.first_name,
            protagonist.login_id,
            protagonist.password,
            protagonist.email,
            protagonist.country,
        );
        let row = match row.convert_hash_password() {
            Ok(row) => row,
            Err(e) => {
                return Err(ServiceError::Hashing(e));
            },
        };
        let ghost sent = row;
        let found = self.repository.update_protagonist(row);
        self.calls = Ghost(self.calls@.push(SupportCall::UpdateProtagonist(sent)));
        let ghost a = found;
        let r = match present(found, "Protagonist not updated") {
            Ok(p) => {
                let g = protagonist_response(&p);
                Ok(UpdateProtagonistResponse {
                    protagonist_id: g.protagonist_id,
                    protagonist_last_name: g.protagonist_last_name,
                    protagonist_first_name: g.protagonist_first_name,
                    protagonist_email: g.protagonist_email,
                    protagonist_country: g.protagonist_country,
                })
            },
            Err(e) => Err(e),
        };
        assert(fresh_hash_of(protagonist.password@, sent.password@));
        proof {
            if !looks_like_hash(protagonist.password@) {
                lemma_fresh_hash_differs(protagonist.password@, sent.password@);
            }
        }
        assert(update_protagonist_outcome(a, r));
        r
    }

    pub fn delete_protagonist(&mut self, id: i64) -> (r: Result<(), ServiceError>)
        ensures
            final(self).calls() == old(self).calls().push(SupportCall::DeleteProtagonist(id)),
            final(self).store() == old(self).store(),
            exists|a: Result<Option<()>, StorageError>| #[trigger] delete_protagonist_outcome(a, r),
    {
        let found = self.repository.delete_protagonist(id);
        self.calls = Ghost(self.calls@.push(SupportCall::DeleteProtagonist(id)));
        let ghost a = found;
        let r = match present(found, "Protagonist not deleted") {
            Ok(x) => Ok(x),
            Err(e) => Err(e),
        };
        assert(delete_protagonist_outcome(a, r));
        r
    }

    /// Logs in: the protagonist is looked up by login id, and the password must
    /// verify against the stored hash.
    pub fn get_protagonist_by_login_id_and_password(&mut self, login_request: GetProtagonistRequest) -> (r: Result<
        GetProtagonistResponse,
        ServiceError,
    >)
        ensures
            final(self).calls() == old(self).calls().push(SupportCall::FindProtagonistLogin(login_request.login_id@)),
            final(self).store() == old(self).store(),
            exists|a: Result<Option<Protagonist>, StorageError>| #[trigger] protagonist_login_outcome(a, login_request.password@, r),
    {
        let found = self.repository.get_protagonist_by_login_id_and_password(login_request.login_id.as_str());
        self.calls = Ghost(self.calls@.push(SupportCall::FindProtagonistLogin(login_request.login_id@)));
        let ghost a = found;
        let r = match present(found, "Protagonist not found") {
            Ok(p) => match check_password(login_request.password.as_str(), p.password.as_str()) {
                Ok(()) => Ok(protagonist_response(&p)),
                Err(e) => Err(e),
            },
            Err(e) => Err(e),
        };
        assert(protagonist_login_outcome(a, login_request.password@, r));
        r
    }

    pub fn get_supporter(&mut self, id: i64) -> (r: Result<GetSupporterResponse, ServiceError>)
        ensures
            final(self).calls() == old(self).calls().push(SupportCall::GetSupporter(id)),
            final(self).store() == old(self).store(),
            exists|a: Result<Option<Supporter>, StorageError>| #[trigger] get_supporter_outcome(a, r),
    {
        let found = self.repository.get_supporter(id);
        self.calls = Ghost(self.calls@.push(SupportCall::GetSupporter(id)));
        let ghost a = found;
        let r = match present(found, "Supporter not found") {
            Ok(x) => Ok(supporter_response(&x)),
            Err(e) => Err(e),
        };
        assert(get_supporter_outcome(a, r));
        r
    }

    /// Stores a new supporter. The store receives the request's fields, with the id -1 that it replaces,
    /// and a fresh bcrypt hash of the password, never the password itself.
    pub fn create_supporter(&mut self, supporter: CreateSupporterRequest) -> (r: Result<CreateSupporterResponse, ServiceError>)
        ensures
            final(self).store() == old(self).store(),
            r matches Err(ServiceError::Hashing(_)) ==> final(self).calls() == old(self).calls(),
            !(r matches Err(ServiceError::Hashing(_))) ==> exists|row: CreateSupporter| {
                &&& #[trigger] fresh_hash_of(supporter.password@, row.password@)
                &&& row.password@ != supporter.password@ || looks_like_hash(supporter.password@)
                &&& row.supporter_id == -1
                &&& row.last_name == supporter.last_name
                &&& row.first_name == supporter.first_name
                &&& row.login_id == supporter.login_id
                &&& row.email == supporter.email
                &&& row.country == supporter.country
                &&& final(self).calls() == old(self).calls().push(SupportCall::CreateSupporter(row))
            },
            r matches Err(ServiceError::Hashing(_)) || exists|a: Result<Option<Supporter>, StorageError>| #[trigger] create_supporter_outcome(a, r),
    {
        let row = CreateSupporter::new(
            -1,
            supporter.last_name,
            supporter.first_name,
            supporter.login_id,
            supporter.password,
            supporter.email,
            supporter.country,
        );
        let row = match row.convert_hash_password() {
            Ok(row) => row,
            Err(e) => {
                return Err(ServiceError::Hashing(e));
            },
        };
        let ghost sent = row;
        let found = self.repository.create_supporter(row);
        self.calls = Ghost(self.calls@.push(SupportCall::CreateSupporter(sent)));
        let ghost a = found;
        let r = match present(found, "Supporter not created") {
            Ok(p) => {
                let g = supporter_response(&p);
                Ok(CreateSupporterResponse {
                    supporter_id: g.supporter_id,
                    supporter_last_name: g.supporter_last_name,
                    supporter_first_name: g.supporter_first_name,
                    supporter_email: g.supporter_email,
                    supporter_country: g.supporter_country,
                })
            },
            Err(e) => Err(e),
        };
        assert(fresh_hash_of(supporter.password@, sent.password@));
        proof {
            if !looks_like_hash(supporter.password@) {
                lemma_fresh_hash_differs(supporter.password@, sent.password@);
            }
        }
        assert(create_supporter_outcome(a, r));
        r
    }

    /// Replaces a supporter. The store receives the request's fields
    /// and a fresh bcrypt hash of the password, never the password itself.
    pub fn update_supporter(&mut self, supporter: UpdateSupporterRequest) -> (r: Result<UpdateSupporterResponse, ServiceError>)
        ensures
            final(self).store() == old(self).store(),
            r matches Err(ServiceError::Hashing(_)) ==> final(self).calls() == old(self).calls(),
            !(r matches Err(ServiceError::Hashing(_))) ==> exists|row: UpdateSupporter| {
                &&& #[trigger] fresh_hash_of(supporter.password@, row.password@)
                &&& row.password@ != supporter.password@ || looks_like_hash(supporter.password@)
                &&& row.supporter_id == supporter.supporter_id
                &&& row.last_name == supporter.last_name
                &&& row.first_name == supporter.first_name
                &&& row.login_id == supporter.login_id
                &&& row.email == supporter.email
                &&& row.country == supporter.country
                &&& final(self).calls() == old(self).calls().push(SupportCall::UpdateSupporter(row))
            },
            r matches Err(ServiceError::Hashing(_)) || exists|a: Result<Option<Supporter>, StorageError>| #[trigger] update_supporter_outcome(a, r),
    {
        let row = UpdateSupporter::new(
            supporter.supporter_id,
            supporter.last_name,
            supporter.first_name,
            supporter.login_id,
            supporter.password,
            supporter.email,
            supporter.country,
        );
        let row = match row.convert_hash_password() {
            Ok(row) => row,
            Err(e) => {
                return Err(ServiceError::Hashing(e));
            },
        };
        let ghost sent = row;
        let found = self.repository.update_supporter(row);
        self.calls = Ghost(self.calls@.push(SupportCall::UpdateSupporter(sent)));
        let ghost a = found;
        let r = match present(found, "Supporter not updated") {
            Ok(p) => {
                let g = supporter_response(&p);
                Ok(UpdateSupporterResponse {
                    supporter_id: g.supporter_id,
                    supporter_last_name: g.supporter_last_name,
                    supporter_first_name: g.supporter_first_name,
                    supporter_email: g.supporter_email,
                    supporter_country: g.supporter_country,
                })
            },
            Err(e) => Err(e),
        };
        assert(fresh_hash_of(supporter.password@, sent.password@));
        proof {
            if !looks_like_hash(supporter.password@) {
                lemma_fresh_hash_differs(supporter.password@, sent.password@);
            }
        }
        assert(update_supporter_outcome(a, r));
        r
    }

    pub fn delete_supporter(&mut self, id: i64) -> (r: Result<(), ServiceError>)
        ensures
            final(self).calls() == old(self).calls().push(SupportCall::DeleteSupporter(id)),
            final(self).store() == old(self).store(),
            exists|a: Result<Option<()>, StorageError>| #[trigger] delete_supporter_outcome(a, r),
    {
        let found = self.repository.delete_supporter(id);
        self.calls = Ghost(self.calls@.push(SupportCall::DeleteSupporter(id)));
        let ghost a = found;
        let r = match present(found, "Supporter not deleted") {
            Ok(x) => Ok(x),
            Err(e) => Err(e),
        };
        assert(delete_supporter_outcome(a, r));
        r
    }

    /// Logs in: the supporter is looked up by login id, and the password must
    /// verify against the stored hash.
    pub fn get_supporter_by_login_id_and_password(&mut self, login_request: GetSupporterRequest) -> (r: Result<
        GetSupporterResponse,
        ServiceError,
    >)
        ensures
            final(self).calls() == old(self).calls().push(SupportCall::FindSupporterLogin(login_request.login_id@)),
            final(self).store() == old(self).store(),
            exists|a: Result<Option<Supporter>, StorageError>| #[trigger] supporter_login_outcome(a, login_request.password@, r),
    {
        let found = self.repository.get_supporter_by_login_id_and_password(login_request.login_id.as_str());
        self.calls = Ghost(self.calls@.push(SupportCall::FindSupporterLogin(login_request.login_id@)));
        let ghost a = found;
        let r = match present(found, "Supporter not found") {
            Ok(p) => match check_password(login_request.password.as_str(), p.password.as_str()) {
                Ok(()) => Ok(supporter_response(&p)),
                Err(e) => Err(e),
            },
            Err(e) => Err(e),
        };
        assert(supporter_login_outcome(a, login_request.password@, r));
        r
    }

    pub fn get_protagonist_supporter(&mut self, id: i64) -> (r: Result<Vec<GetProtagonistSupporterResponse>, ServiceError>)
        ensures
            final(self).calls() == old(self).calls().push(SupportCall::ListSupporters(id)),
            final(self).store() == old(self).store(),
            exists|a: Result<Option<Vec<ProtagonistSupporter>>, StorageError>| #[trigger] get_protagonist_supporter_outcome(a, r),
    {
        let found = self.repository.get_protagonist_supporter(id);
        self.calls = Ghost(self.calls@.push(SupportCall::ListSupporters(id)));
        let ghost a = found;
        let r = match present(found, "Protagonist supporter not found") {
            Ok(x) => Ok(protagonist_supporter_responses(&x)),
            Err(e) => Err(e),
        };
        assert(get_protagonist_supporter_outcome(a, r));
        r
    }

    /// Links a protagonist to a supporter; the store receives both ids and
    /// the link id -1, which it replaces.
    pub fn create_protagonist_supporter(&mut self, protagonist_supporter_request: CreateProtagonistSupporterRequest) -> (r:
        Result<CreateProtagonistSupporterResponse, ServiceError>)
        ensures
            final(self).calls() == old(self).calls().push(
                SupportCall::CreateLink(
                    (CreateProtagonistSupporter {
                        protagonist_supporter_id: -1i64,
                        protagonist_id: protagonist_supporter_request.protagonist_id as i64,
                        supporter_id: protagonist_supporter_request.supporter_id as i64,
                    }),
                ),
            ),
            final(self).store() == old(self).store(),
            exists|a: Result<Option<ProtagonistSupporterRelation>, StorageError>| #[trigger] create_protagonist_supporter_outcome(a, r),
    {
        let row = CreateProtagonistSupporter::new(
            -1,
            protagonist_supporter_request.protagonist_id as i64,
            protagonist_supporter_request.supporter_id as i64,
        );
        let ghost sent = row;
        let found = self.repository.create_protagonist_supporter(row);
        self.calls = Ghost(self.calls@.push(SupportCall::CreateLink(sent)));
        let ghost a = found;
        let r = match present(found, "Protagonist supporter not created") {
            Ok(rel) => Ok(CreateProtagonistSupporterResponse { protagonist_supporter_id: rel.protagonist_supporter_id as u64 }),
            Err(e) => Err(e),
        };
        assert(create_protagonist_supporter_outcome(a, r));
        r
    }

    pub fn delete_protagonist_supporter(&mut self, id: i64) -> (r: Result<(), ServiceError>)
        ensures
            final(self).calls() == old(self).calls().push(SupportCall::DeleteLink(id)),
            final(self).store() == old(self).store(),
            exists|a: Result<Option<()>, StorageError>| #[trigger] delete_protagonist_supporter_outcome(a, r),
    {
        let found = self.repository.delete_protagonist_supporter(id);
        self.calls = Ghost(self.calls@.push(SupportCall::DeleteLink(id)));
        let ghost a = found;
        let r = match present(found, "Protagonist supporter not deleted") {
            Ok(x) => Ok(x),
            Err(e) => Err(e),
        };
        assert(delete_protagonist_supporter_outcome(a, r));
        r
    }
}

} // verus!
