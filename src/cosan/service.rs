//! The business operations of the word-learning service, written against
//! the storage capabilities of `interface`, so that any store (a database,
//! or a map in memory) can back them.

use vstd::prelude::*;
use crate::cosan::entity::{Password, User, UserWord, UserWordRelation, Word};
use crate::cosan::interface::{CosanCall, UserRepositoryTrait, UserWordRepositoryTrait, WordRepositoryTrait};
use crate::cosan::request::{
    CreateUserRequest, CreateUserWordRequest, CreateWordRequest, GetUserRequest, GetUserWordRequest,
    UpdateUserRequest, UpdateWordRequest,
};
use crate::cosan::response::{
    CreateUserResponse, CreateUserWordRelationResponse, CreateWordResponse, DeleteUserResponse,
    DeleteUserWordResponse, DeleteWordResponse, GetUserResponse, GetUserWordResponse,
    GetWordResponse, UpdateUserResponse, UpdateWordResponse,
};
use crate::outcome::{ServiceError, StorageError, check_password, present, store_outcome};
use crate::password::{bcrypt_verdict, fresh_hash_of, lemma_fresh_hash_differs, looks_like_hash};
use std::sync::Arc;

verus! {

/// An account as answered: its id and its public fields, no credentials.
pub fn user_response(user: &User) -> (r: GetUserResponse)
    ensures
        r.user_id == user.user_id@ as u64,
        r.user_last_name@ == user.last_name@,
        r.user_first_name@ == user.first_name@,
        r.user_email@ == user.email@,
        r.user_country@ == user.country@,
{
    GetUserResponse {
        user_id: user.user_id.value() as u64,
        user_last_name: user.last_name.value().to_string(),
        user_first_name: user.first_name.value().to_string(),
        user_email: user.email.value().to_string(),
        user_country: user.country.value().to_string(),
    }
}

/// A word as answered.
pub fn word_response(word: &Word) -> (r: GetWordResponse)
    ensures
        r.word_id == word.word_id@ as u64,
        r.word@ == word.word@,
{
    GetWordResponse { word_id: word.word_id.value() as u64, word: word.word.value().to_string() }
}

/// Whether `r` answers for the relation `uw`, field by field.
pub open spec fn describes(r: GetUserWordResponse, uw: UserWord) -> bool {
    &&& r.user_word_id == uw.user_word_id@ as u64
    &&& r.user_id == uw.user_id@ as u64
    &&& r.last_name@ == uw.last_name@
    &&& r.first_name@ == uw.first_name@
    &&& r.email@ == uw.email@
    &&& r.country@ == uw.country@
    &&& r.word_id == uw.word_id@ as u64
    &&& r.word@ == uw.word@
    &&& r.created_at@ == uw.created_at@
}

/// A relation of an account to a word as answered.
pub fn user_word_response(uw: &UserWord) -> (r: GetUserWordResponse)
    ensures
        describes(r, *uw),
{
    GetUserWordResponse {
        user_word_id: uw.user_word_id.value() as u64,
        user_id: uw.user_id.value() as u64,
        last_name: uw.last_name.value().to_string(),
        first_name: uw.first_name.value().to_string(),
        email: uw.email.value().to_string(),
        country: uw.country.value().to_string(),
        word_id: uw.word_id.value() as u64,
        word: uw.word.value().to_string(),
        created_at: uw.created_at.value().to_string(),
    }
}

/// Each relation answered, in the order the store gave them.
pub fn user_word_responses(words: &Vec<UserWord>) -> (r: Vec<GetUserWordResponse>)
    ensures
        r.len() == words.len(),
        forall|k: int| 0 <= k < words.len() ==> describes(#[trigger] r[k], words[k]),
{
    let mut out: Vec<GetUserWordResponse> = Vec::new();
    let mut i: usize = 0;
    while i < words.len()
        invariant
            i <= words.len(),
            out.len() == i,
            forall|k: int| 0 <= k < i ==> describes(#[trigger] out[k], words[k]),
        decreases words.len() - i,
    {
        out.push(user_word_response(&words[i]));
        i = i + 1;
    }
    out
}

/// A new relation as answered.
pub fn relation_response(rel: &UserWordRelation) -> (r: CreateUserWordRelationResponse)
    ensures
        r.user_id == rel.user_id@ as u64,
        r.word_id == rel.word_id@ as u64,
        r.created_at@ == rel.created_at@,
{
    CreateUserWordRelationResponse {
        user_id: rel.user_id.value() as u64,
        word_id: rel.word_id.value() as u64,
        created_at: rel.created_at.value().to_string(),
    }
}

/// Whether the five public fields of an answered account are those of `u`.
pub open spec fn user_fields(id: u64, last: Seq<char>, first: Seq<char>, email: Seq<char>, country: Seq<char>, u: User) -> bool {
    &&& id == u.user_id@ as u64
    &&& last == u.last_name@
    &&& first == u.first_name@
    &&& email == u.email@
    &&& country == u.country@
}

pub open spec fn shows_user(g: GetUserResponse, u: User) -> bool {
    user_fields(g.user_id, g.user_last_name@, g.user_first_name@, g.user_email@, g.user_country@, u)
}

pub open spec fn shows_created_user(g: CreateUserResponse, u: User) -> bool {
    user_fields(g.user_id, g.user_last_name@, g.user_first_name@, g.user_email@, g.user_country@, u)
}

pub open spec fn shows_updated_user(g: UpdateUserResponse, u: User) -> bool {
    user_fields(g.user_id, g.user_last_name@, g.user_first_name@, g.user_email@, g.user_country@, u)
}

pub open spec fn shows_word(g: GetWordResponse, w: Word) -> bool {
    g.word_id == w.word_id@ as u64 && g.word@ == w.word@
}

pub open spec fn shows_created_word(g: CreateWordResponse, w: Word) -> bool {
    g.word_id == w.word_id@ as u64 && g.word@ == w.word@
}

pub open spec fn shows_updated_word(g: UpdateWordResponse, w: Word) -> bool {
    g.word_id == w.word_id@ as u64 && g.word@ == w.word@
}

pub open spec fn shows_user_words(v: Vec<GetUserWordResponse>, l: Vec<UserWord>) -> bool {
    v.len() == l.len() && forall|k: int| 0 <= k < l.len() ==> describes(#[trigger] v[k], l[k])
}

/// What a log-in makes of the store's answer `a` for password `p`.
pub open spec fn login_outcome(a: Result<Option<User>, StorageError>, p: Seq<char>, r: Result<GetUserResponse, ServiceError>) -> bool {
    match a {
        Ok(Some(u)) => match bcrypt_verdict(p, u.password@) {
            Some(true) => r matches Ok(g) && shows_user(g, u),
            Some(false) => r matches Err(ServiceError::InvalidPassword),
            None => r matches Err(ServiceError::Hashing(_)),
        },
        Ok(None) => r matches Err(ServiceError::NotFound(m)) && m@ == "User not found"@,
        Err(e) => r == Err::<GetUserResponse, ServiceError>(ServiceError::Storage(e)),
    }
}

pub open spec fn shows_relation(g: CreateUserWordRelationResponse, rel: UserWordRelation) -> bool {
    g.user_id == rel.user_id@ as u64 && g.word_id == rel.word_id@ as u64 && g.created_at@ == rel.created_at@
}

/// Whether `r` is what `get_user` makes of the store's answer `a`.
pub open spec fn get_user_outcome(a: Result<Option<User>, StorageError>, r: Result<GetUserResponse, ServiceError>) -> bool {
    store_outcome(a, "User not found"@, r, |g: GetUserResponse, u: User| shows_user(g, u))
}

/// Whether `r` is what `create_user` makes of the store's answer `a`.
pub open spec fn create_user_outcome(a: Result<Option<User>, StorageError>, r: Result<CreateUserResponse, ServiceError>) -> bool {
    store_outcome(a, "User not created"@, r, |g: CreateUserResponse, u: User| shows_created_user(g, u))
}

/// Whether `r` is what `update_user` makes of the store's answer `a`.
pub open spec fn update_user_outcome(a: Result<Option<User>, StorageError>, r: Result<UpdateUserResponse, ServiceError>) -> bool {
    store_outcome(a, "User not updated"@, r, |g: UpdateUserResponse, u: User| shows_updated_user(g, u))
}

/// Whether `r` is what `delete_user` makes of the store's answer `a`.
pub open spec fn delete_user_outcome(a: Result<Option<()>, StorageError>, r: Result<DeleteUserResponse, ServiceError>) -> bool {
    store_outcome(a, "User not deleted"@, r, |d: DeleteUserResponse, x: ()| d.status@ == "success"@)
}

/// Whether `r` is what `get_word` makes of the store's answer `a`.
pub open spec fn get_word_outcome(a: Result<Option<Word>, StorageError>, r: Result<GetWordResponse, ServiceError>) -> bool {
    store_outcome(a, "Word not found"@, r, |g: GetWordResponse, w: Word| shows_word(g, w))
}

/// Whether `r` is what `create_word` makes of the store's answer `a`.
pub open spec fn create_word_outcome(a: Result<Option<Word>, StorageError>, r: Result<CreateWordResponse, ServiceError>) -> bool {
    store_outcome(a, "Word not created"@, r, |g: CreateWordResponse, w: Word| shows_created_word(g, w))
}

/// Whether `r` is what `update_word` makes of the store's answer `a`.
pub open spec fn update_word_outcome(a: Result<Option<Word>, StorageError>, r: Result<UpdateWordResponse, ServiceError>) -> bool {
    store_outcome(a, "Word not updated"@, r, |g: UpdateWordResponse, w: Word| shows_updated_word(g, w))
}

/// Whether `r` is what `delete_word` makes of the store's answer `a`.
pub open spec fn delete_word_outcome(a: Result<Option<()>, StorageError>, r: Result<DeleteWordResponse, ServiceError>) -> bool {
    store_outcome(a, "Word not deleted"@, r, |d: DeleteWordResponse, x: ()| d.status@ == "success"@)
}

/// Whether `r` is what `get_user_word_by_user_id_and_word_id` makes of the store's answer `a`.
pub open spec fn get_user_word_by_user_id_and_word_id_outcome(a: Result<Option<UserWord>, StorageError>, r: Result<GetUserWordResponse, ServiceError>) -> bool {
    store_outcome(a, "User word not found"@, r, |g: GetUserWordResponse, uw: UserWord| describes(g, uw))
}

/// Whether `r` is what `get_user_word_by_word_id` makes of the store's answer `a`.
pub open spec fn get_user_word_by_word_id_outcome(a: Result<Option<Vec<UserWord>>, StorageError>, r: Result<Vec<GetUserWordResponse>, ServiceError>) -> bool {
    store_outcome(a, "User word not found"@, r, |v: Vec<GetUserWordResponse>, l: Vec<UserWord>| shows_user_words(v, l))
}

/// Whether `r` is what `get_user_word_by_user_id` makes of the store's answer `a`.
pub open spec fn get_user_word_by_user_id_outcome(a: Result<Option<Vec<UserWord>>, StorageError>, r: Result<Vec<GetUserWordResponse>, ServiceError>) -> bool {
    store_outcome(a, "User word not found"@, r, |v: Vec<GetUserWordResponse>, l: Vec<UserWord>| shows_user_words(v, l))
}

/// Whether `r` is what `create_user_word` makes of the store's answer `a`.
pub open spec fn create_user_word_outcome(a: Result<Option<UserWordRelation>, StorageError>, r: Result<CreateUserWordRelationResponse, ServiceError>) -> bool {
    store_outcome(a, "User word relation not created"@, r, |g: CreateUserWordRelationResponse, rel: UserWordRelation| shows_relation(g, rel))
}

/// Whether `r` is what `delete_user_word` makes of the store's answer `a`.
pub open spec fn delete_user_word_outcome(a: Result<Option<()>, StorageError>, r: Result<DeleteUserWordResponse, ServiceError>) -> bool {
    store_outcome(a, "User word not deleted"@, r, |d: DeleteUserWordResponse, x: ()| d.status@ == "success"@)
}

/// The word-learning service over three stores: accounts, words, and the
/// relations between them. `calls` records, as ghost state, every call the
/// service has handed to its stores, in order.
#[derive(Clone)]
pub struct CosanService<U, W, UW> {
    user_repository: U,
    word_repository: W,
    user_word_repository: UW,
    calls: Ghost<Seq<CosanCall>>,
}

impl<U: UserRepositoryTrait, W: WordRepositoryTrait, UW: UserWordRepositoryTrait> CosanService<U, W, UW> {
    pub closed spec fn users(&self) -> U {
        self.user_repository
    }

    pub closed spec fn words(&self) -> W {
        self.word_repository
    }

    pub closed spec fn user_words(&self) -> UW {
        self.user_word_repository
    }

    /// The calls handed to the stores so far, oldest first.
    pub closed spec fn calls(&self) -> Seq<CosanCall> {
        self.calls@
    }

    /// Whether both services use the same stores.
    pub open spec fn same_stores(&self, other: Self) -> bool {
        &&& self.users() == other.users()
        &&& self.words() == other.words()
        &&& self.user_words() == other.user_words()
    }

    pub fn new(user_repository: U, word_repository: W, user_word_repository: UW) -> (r: Self)
        ensures
            r.users() == user_repository,
            r.words() == word_repository,
            r.user_words() == user_word_repository,
            r.calls() == Seq::<CosanCall>::empty(),
    {
        Self { user_repository, word_repository, user_word_repository, calls: Ghost(Seq::empty()) }
    }

    pub fn get_user(&mut self, id: i64) -> (r: Result<GetUserResponse, ServiceError>)
        ensures
            final(self).calls() == old(self).calls().push(CosanCall::GetUser(id)),
            final(self).same_stores(*old(self)),
            exists|a: Result<Option<User>, StorageError>| #[trigger] get_user_outcome(a, r),
    {
        let found = self.user_repository.get_user(id);
        self.calls = Ghost(self.calls@.push(CosanCall::GetUser(id)));
        let ghost a = found;
        let r = match present(found, "User not found") {
            Ok(x) => Ok(user_response(&x)),
            Err(e) => Err(e),
        };
        assert(get_user_outcome(a, r));
        r
    }

    /// Stores a new account. The store receives the request's fields and a
    /// fresh bcrypt hash of the password, never the password itself.
    pub fn create_user(&mut self, request: CreateUserRequest) -> (r: Result<CreateUserResponse, ServiceError>)
        ensures
            final(self).same_stores(*old(self)),
            r matches Err(ServiceError::Hashing(_)) ==> final(self).calls() == old(self).calls(),
            !(r matches Err(ServiceError::Hashing(_))) ==> exists|h: Seq<char>| #[trigger] fresh_hash_of(request.password@, h)
                && (h != request.password@ || looks_like_hash(request.password@))
                && final(self).calls() == old(self).calls().push(
                    CosanCall::CreateUser(request.last_name@, request.first_name@, request.login_id@, h, request.email@, request.country@),
                ),
            r matches Err(ServiceError::Hashing(_)) || exists|a: Result<Option<User>, StorageError>| #[trigger] create_user_outcome(a, r),
    {
        let hashed = match Password::new(request.password.as_str()).hash() {
            Ok(h) => h,
            Err(e) => {
                return Err(ServiceError::Hashing(e));
            },
        };
        let found = self.user_repository.create_user(
            request.last_name.as_str(),
            request.first_name.as_str(),
            request.login_id.as_str(),
            hashed.value(),
            request.email.as_str(),
            request.country.as_str(),
        );
        self.calls = Ghost(self.calls@.push(
            CosanCall::CreateUser(request.last_name@, request.first_name@, request.login_id@, hashed@, request.email@, request.country@),
        ));
        let ghost a = found;
        let r = match present(found, "User not created") {
            Ok(user) => {
                let u = user_response(&user);
                Ok(CreateUserResponse {
                    user_id: u.user_id,
                    user_last_name: u.user_last_name,
                    user_first_name: u.user_first_name,
                    user_email: u.user_email,
                    user_country: u.user_country,
                })
            },
            Err(e) => Err(e),
        };
        assert(fresh_hash_of(request.password@, hashed@));
        proof {
            if !looks_like_hash(request.password@) {
                lemma_fresh_hash_differs(request.password@, hashed@);
            }
        }
        assert(create_user_outcome(a, r));
        r
    }

    /// Replaces an account. The store receives the request's fields and a
    /// fresh bcrypt hash of the password, never the password itself.
    pub fn update_user(&mut self, request: UpdateUserRequest) -> (r: Result<UpdateUserResponse, ServiceError>)
        ensures
            final(self).same_stores(*old(self)),
            r matches Err(ServiceError::Hashing(_)) ==> final(self).calls() == old(self).calls(),
            !(r matches Err(ServiceError::Hashing(_))) ==> exists|h: Seq<char>| #[trigger] fresh_hash_of(request.password@, h)
                && (h != request.password@ || looks_like_hash(request.password@))
                && final(self).calls() == old(self).calls().push(
                    CosanCall::UpdateUser(request.user_id, request.last_name@, request.first_name@, request.login_id@, h, request.email@, request.country@),
                ),
            r matches Err(ServiceError::Hashing(_)) || exists|a: Result<Option<User>, StorageError>| #[trigger] update_user_outcome(a, r),
    {
        let hashed = match Password::new(request.password.as_str()).hash() {
            Ok(h) => h,
            Err(e) => {
                return Err(ServiceError::Hashing(e));
            },
        };
        let found = self.user_repository.update_user(
            request.user_id,
            request.last_name.as_str(),
            request.first_name.as_str(),
            request.login_id.as_str(),
            hashed.value(),
            request.email.as_str(),
            request.country.as_str(),
        );
        self.calls = Ghost(self.calls@.push(
            CosanCall::UpdateUser(request.user_id, request.last_name@, request.first_name@, request.login_id@, hashed@, request.email@, request.country@),
        ));
        let ghost a = found;
        let r = match present(found, "User not updated") {
            Ok(user) => {
                let u = user_response(&user);
                Ok(UpdateUserResponse {
                    user_id: u.user_id,
                    user_last_name: u.user_last_name,
                    user_first_name: u.user_first_name,
                    user_email: u.user_email,
                    user_country: u.user_country,
                })
            },
            Err(e) => Err(e),
        };
        assert(fresh_hash_of(request.password@, hashed@));
        proof {
            if !looks_like_hash(request.password@) {
                lemma_fresh_hash_differs(request.password@, hashed@);
            }
        }
        assert(update_user_outcome(a, r));
        r
    }

    pub fn delete_user(&mut self, id: i64) -> (r: Result<DeleteUserResponse, ServiceError>)
        ensures
            final(self).calls() == old(self).calls().push(CosanCall::DeleteUser(id)),
            final(self).same_stores(*old(self)),
            exists|a: Result<Option<()>, StorageError>| #[trigger] delete_user_outcome(a, r),
    {
        let found = self.user_repository.delete_user(id);
        self.calls = Ghost(self.calls@.push(CosanCall::DeleteUser(id)));
        let ghost a = found;
        let r = match present(found, "User not deleted") {
            Ok(x) => Ok(DeleteUserResponse { status: "success".to_string() }),
            Err(e) => Err(e),
        };
        assert(delete_user_outcome(a, r));
        r
    }

    /// Logs in: the account is looked up by its login id, and `password` must
    /// verify against its stored hash.
    pub fn get_user_by_login_id_and_password(&mut self, login_id: String, password: String) -> (r: Result<
        GetUserResponse,
        ServiceError,
    >)
        ensures
            final(self).calls() == old(self).calls().push(CosanCall::FindLogin(login_id@)),
            final(self).same_stores(*old(self)),
            exists|a: Result<Option<User>, StorageError>| #[trigger] login_outcome(a, password@, r),
    {
        let found = self.user_repository.get_user_by_login_id(login_id.as_str());
        self.calls = Ghost(self.calls@.push(CosanCall::FindLogin(login_id@)));
        let ghost a = found;
        let r = match present(found, "User not found") {
            Ok(user) => match check_password(password.as_str(), user.password.value()) {
                Ok(()) => Ok(user_response(&user)),
                Err(e) => Err(e),
            },
            Err(e) => Err(e),
        };
        assert(login_outcome(a, password@, r));
        r
    }

    pub fn get_word(&mut self, id: i64) -> (r: Result<GetWordResponse, ServiceError>)
        ensures
            final(self).calls() == old(self).calls().push(CosanCall::GetWord(id)),
            final(self).same_stores(*old(self)),
            exists|a: Result<Option<Word>, StorageError>| #[trigger] get_word_outcome(a, r),
    {
        let found = self.word_repository.get_word(id);
        self.calls = Ghost(self.calls@.push(CosanCall::GetWord(id)));
        let ghost a = found;
        let r = match present(found, "Word not found") {
            Ok(x) => Ok(word_response(&x)),
            Err(e) => Err(e),
        };
        assert(get_word_outcome(a, r));
        r
    }

    pub fn create_word(&mut self, request: CreateWordRequest) -> (r: Result<CreateWordResponse, ServiceError>)
        ensures
            final(self).calls() == old(self).calls().push(CosanCall::CreateWord(request.word@)),
            final(self).same_stores(*old(self)),
            exists|a: Result<Option<Word>, StorageError>| #[trigger] create_word_outcome(a, r),
    {
        let found = self.word_repository.create_word(request.word.as_str());
        self.calls = Ghost(self.calls@.push(CosanCall::CreateWord(request.word@)));
        let ghost a = found;
        let r = match present(found, "Word not created") {
            Ok(x) => {
                let w = word_response(&x);
                Ok(CreateWordResponse { word_id: w.word_id, word: w.word })
            },
            Err(e) => Err(e),
        };
        assert(create_word_outcome(a, r));
        r
    }

    pub fn update_word(&mut self, request: UpdateWordRequest) -> (r: Result<UpdateWordResponse, ServiceError>)
        ensures
            final(self).calls() == old(self).calls().push(CosanCall::UpdateWord(request.word_id as i64, request.word@)),
            final(self).same_stores(*old(self)),
            exists|a: Result<Option<Word>, StorageError>| #[trigger] update_word_outcome(a, r),
    {
        let found = self.word_repository.update_word(request.word_id as i64, request.word.as_str());
        self.calls = Ghost(self.calls@.push(CosanCall::UpdateWord(request.word_id as i64, request.word@)));
        let ghost a = found;
        let r = match present(found, "Word not updated") {
            Ok(x) => {
                let w = word_response(&x);
                Ok(UpdateWordResponse { word_id: w.word_id, word: w.word })
            },
            Err(e) => Err(e),
        };
        assert(update_word_outcome(a, r));
        r
    }

    pub fn delete_word(&mut self, id: i64) -> (r: Result<DeleteWordResponse, ServiceError>)
        ensures
            final(self).calls() == old(self).calls().push(CosanCall::DeleteWord(id)),
            final(self).same_stores(*old(self)),
            exists|a: Result<Option<()>, StorageError>| #[trigger] delete_word_outcome(a, r),
    {
        let found = self.word_repository.delete_word(id);
        self.calls = Ghost(self.calls@.push(CosanCall::DeleteWord(id)));
        let ghost a = found;
        let r = match present(found, "Word not deleted") {
            Ok(x) => Ok(DeleteWordResponse { status: "success".to_string() }),
            Err(e) => Err(e),
        };
        assert(delete_word_outcome(a, r));
        r
    }

    pub fn get_user_word_by_user_id_and_word_id(&mut self, request: GetUserWordRequest) -> (r: Result<GetUserWordResponse, ServiceError>)
        ensures
            final(self).calls() == old(self).calls().push(CosanCall::GetUserWord(request.user_id as i64, request.word_id as i64)),
            final(self).same_stores(*old(self)),
            exists|a: Result<Option<UserWord>, StorageError>| #[trigger] get_user_word_by_user_id_and_word_id_outcome(a, r),
    {
        let found = self.user_word_repository.get_user_word_by_user_id_and_word_id(request.user_id as i64, request.word_id as i64);
        self.calls = Ghost(self.calls@.push(CosanCall::GetUserWord(request.user_id as i64, request.word_id as i64)));
        let ghost a = found;
        let r = match present(found, "User word not found") {
            Ok(x) => Ok(user_word_response(&x)),
            Err(e) => Err(e),
        };
        assert(get_user_word_by_user_id_and_word_id_outcome(a, r));
        r
    }

    pub fn get_user_word_by_word_id(&mut self, request: GetUserWordRequest) -> (r: Result<Vec<GetUserWordResponse>, ServiceError>)
        ensures
            final(self).calls() == old(self).calls().push(CosanCall::ListByWord(request.word_id as i64)),
            final(self).same_stores(*old(self)),
            exists|a: Result<Option<Vec<UserWord>>, StorageError>| #[trigger] get_user_word_by_word_id_outcome(a, r),
    {
        let found = self.user_word_repository.get_user_word_by_word_id(request.word_id as i64);
        self.calls = Ghost(self.calls@.push(CosanCall::ListByWord(request.word_id as i64)));
        let ghost a = found;
        let r = match present(found, "User word not found") {
            Ok(x) => Ok(user_word_responses(&x)),
            Err(e) => Err(e),
        };
        assert(get_user_word_by_word_id_outcome(a, r));
        r
    }

    pub fn get_user_word_by_user_id(&mut self, request: GetUserWordRequest) -> (r: Result<Vec<GetUserWordResponse>, ServiceError>)
        ensures
            final(self).calls() == old(self).calls().push(CosanCall::ListByUser(request.user_id as i64)),
            final(self).same_stores(*old(self)),
            exists|a: Result<Option<Vec<UserWord>>, StorageError>| #[trigger] get_user_word_by_user_id_outcome(a, r),
    {
        let found = self.user_word_repository.get_user_word_by_user_id(request.user_id as i64);
        self.calls = Ghost(self.calls@.push(CosanCall::ListByUser(request.user_id as i64)));
        let ghost a = found;
        let r = match present(found, "User word not found") {
            Ok(x) => Ok(user_word_responses(&x)),
            Err(e) => Err(e),
        };
        assert(get_user_word_by_user_id_outcome(a, r));
        r
    }

    pub fn create_user_word(&mut self, request: CreateUserWordRequest) -> (r: Result<CreateUserWordRelationResponse, ServiceError>)
        ensures
            final(self).calls() == old(self).calls().push(CosanCall::CreateUserWord(request.user_id as i64, request.word_id as i64)),
            final(self).same_stores(*old(self)),
            exists|a: Result<Option<UserWordRelation>, StorageError>| #[trigger] create_user_word_outcome(a, r),
    {
        let found = self.user_word_repository.create_user_word(request.user_id as i64, request.word_id as i64);
        self.calls = Ghost(self.calls@.push(CosanCall::CreateUserWord(request.user_id as i64, request.word_id as i64)));
        let ghost a = found;
        let r = match present(found, "User word relation not created") {
            Ok(x) => Ok(relation_response(&x)),
            Err(e) => Err(e),
        };
        assert(create_user_word_outcome(a, r));
        r
    }

    pub fn delete_user_word(&mut self, id: i64) -> (r: Result<DeleteUserWordResponse, ServiceError>)
        ensures
            final(self).calls() == old(self).calls().push(CosanCall::DeleteUserWord(id)),
            final(self).same_stores(*old(self)),
            exists|a: Result<Option<()>, StorageError>| #[trigger] delete_user_word_outcome(a, r),
    {
        let found = self.user_word_repository.delete_user_word(id);
        self.calls = Ghost(self.calls@.push(CosanCall::DeleteUserWord(id)));
        let ghost a = found;
        let r = match present(found, "User word not deleted") {
            Ok(x) => Ok(DeleteUserWordResponse { status: "success".to_string() }),
            Err(e) => Err(e),
        };
        assert(delete_user_word_outcome(a, r));
        r
    }
}

/// The operations that the routes of the word-learning service call.
pub trait CosanServiceTrait {
    fn get_user(&mut self, id: i64) -> Result<GetUserResponse, ServiceError>;

    fn create_user(&mut self, request: CreateUserRequest) -> Result<CreateUserResponse, ServiceError>;

    fn update_user(&mut self, request: UpdateUserRequest) -> Result<UpdateUserResponse, ServiceError>;

    fn delete_user(&mut self, id: i64) -> Result<(), ServiceError>;

    fn get_user_by_login_id_and_password(&mut self, login_request: GetUserRequest) -> Result<
        GetUserResponse,
        ServiceError,
    >;

    fn get_word(&mut self, id: i64) -> Result<GetWordResponse, ServiceError>;

    fn create_word(&mut self, request: CreateWordRequest) -> Result<CreateWordResponse, ServiceError>;

    fn update_word(&mut self, request: UpdateWordRequest) -> Result<UpdateWordResponse, ServiceError>;

    fn delete_word(&mut self, id: i64) -> Result<(), ServiceError>;

    fn get_user_word_by_user_id_and_word_id(&mut self, request: GetUserWordRequest) -> Result<
        GetUserWordResponse,
        ServiceError,
    >;

    fn get_user_word_by_word_id(&mut self, request: GetUserWordRequest) -> Result<
        Vec<GetUserWordResponse>,
        ServiceError,
    >;

    fn get_user_word_by_user_id(&mut self, request: GetUserWordRequest) -> Result<
        Vec<GetUserWordResponse>,
        ServiceError,
    >;

    fn create_user_word(&mut self, request: CreateUserWordRequest) -> Result<
        CreateUserWordRelationResponse,
        ServiceError,
    >;

    fn delete_user_word(&mut self, id: i64) -> Result<(), ServiceError>;
}

impl<U: UserRepositoryTrait, W: WordRepositoryTrait, UW: UserWordRepositoryTrait> CosanServiceTrait for CosanService<
    U,
    W,
    UW,
> {
    fn get_user(&mut self, id: i64) -> Result<GetUserResponse, ServiceError> {
        CosanService::get_user(self, id)
    }

    fn create_user(&mut self, request: CreateUserRequest) -> Result<CreateUserResponse, ServiceError> {
        CosanService::create_user(self, request)
    }

    fn update_user(&mut self, request: UpdateUserRequest) -> Result<UpdateUserResponse, ServiceError> {
        CosanService::update_user(self, request)
    }

    fn delete_user(&mut self, id: i64) -> Result<(), ServiceError> {
        match CosanService::delete_user(self, id) {
            Ok(_) => Ok(()),
            Err(e) => Err(e),
        }
    }

    fn get_user_by_login_id_and_password(&mut self, login_request: GetUserRequest) -> Result<
        GetUserResponse,
        ServiceError,
    > {
        CosanService::get_user_by_login_id_and_password(self, login_request.login_id, login_request.password)
    }

    fn get_word(&mut self, id: i64) -> Result<GetWordResponse, ServiceError> {
        CosanService::get_word(self, id)
    }

    fn create_word(&mut self, request: CreateWordRequest) -> Result<CreateWordResponse, ServiceError> {
        CosanService::create_word(self, request)
    }

    fn update_word(&mut self, request: UpdateWordRequest) -> Result<UpdateWordResponse, ServiceError> {
        CosanService::update_word(self, request)
    }

    fn delete_word(&mut self, id: i64) -> Result<(), ServiceError> {
        match CosanService::delete_word(self, id) {
            Ok(_) => Ok(()),
            Err(e) => Err(e),
        }
    }

    fn get_user_word_by_user_id_and_word_id(&mut self, request: GetUserWordRequest) -> Result<
        GetUserWordResponse,
        ServiceError,
    > {
        CosanService::get_user_word_by_user_id_and_word_id(self, request)
    }

    fn get_user_word_by_word_id(&mut self, request: GetUserWordRequest) -> Result<
        Vec<GetUserWordResponse>,
        ServiceError,
    > {
        CosanService::get_user_word_by_word_id(self, request)
    }

    fn get_user_word_by_user_id(&mut self, request: GetUserWordRequest) -> Result<
        Vec<GetUserWordResponse>,
        ServiceError,
    > {
        CosanService::get_user_word_by_user_id(self, request)
    }

    fn create_user_word(&mut self, request: CreateUserWordRequest) -> Result<
        CreateUserWordRelationResponse,
        ServiceError,
    > {
        CosanService::create_user_word(self, request)
    }

    fn delete_user_word(&mut self, id: i64) -> Result<(), ServiceError> {
        match CosanService::delete_user_word(self, id) {
            Ok(_) => Ok(()),
            Err(e) => Err(e),
        }
    }
}

/// What the routes share: the service and the secret that tokens are
/// checked with.
#[derive(Clone)]
pub struct AppState<U, W, UW> {
    pub service: Arc<CosanService<U, W, UW>>,
    pub secret_key: Arc<String>,
}

impl<U, W, UW> AppState<U, W, UW> {
    pub fn new(service: Arc<CosanService<U, W, UW>>, secret_key: Arc<String>) -> (r: Self)
        ensures
            r.service == service,
            r.secret_key == secret_key,
    {
        Self { service, secret_key }
    }
}

} // verus!
