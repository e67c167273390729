//! Rows as the support service's store reads and writes them, with the
//! checks that a row must pass. The store's checks on supporter rows accept
//! a row only when its supporter id is negative.

use vstd::prelude::*;
use crate::password::{HashingError, bcrypt_verdict, fresh_hash_of, hash_password};
use crate::support::entity::{Protagonist, ProtagonistSupporter, ProtagonistSupporterRelation, Supporter};

verus! {

/// A protagonist row as read.
#[derive(Debug)]
pub struct GetProtagonist {
    pub protagonist_id: i64,
    pub last_name: String,
    pub first_name: String,
    pub email: String,
    pub country: String,
}

impl GetProtagonist {
    pub fn new(
        protagonist_id: i64,
        last_name: String,
        first_name: String,
        email: String,
        country: String,
    ) -> (r: Self)
        ensures
            r.protagonist_id == protagonist_id,
            r.last_name == last_name,
            r.first_name == first_name,
            r.email == email,
            r.country == country,
    {
        Self { protagonist_id, last_name, first_name, email, country }
    }

    pub open spec fn valid(&self) -> bool {
        self.protagonist_id >= 0
            && self.last_name@.len() > 0
            && self.first_name@.len() > 0
            && self.email@.len() > 0
            && self.country@.len() > 0
    }

    pub fn is_valid(&self) -> (r: bool)
        ensures
            r == self.valid(),
    {
        self.protagonist_id >= 0
            && !self.last_name.as_str().is_empty()
            && !self.first_name.as_str().is_empty()
            && !self.email.as_str().is_empty()
            && !self.country.as_str().is_empty()
    }

    /// The protagonist this row describes, completed by the credentials read with
    /// it, when the row passes its check.
    pub fn into_protagonist(self, login_id: String, password: String) -> (r: Option<Protagonist>)
        ensures
            r is Some <==> self.valid(),
            r matches Some(p) ==> p.protagonist_id == self.protagonist_id && p.last_name == self.last_name
                && p.first_name == self.first_name && p.login_id == login_id
                && p.password == password && p.email == self.email && p.country == self.country,
    {
        if !self.is_valid() {
            return None;
        }
        Some(Protagonist::new(self.protagonist_id, self.last_name, self.first_name, login_id, password, self.email, self.country))
    }
}

/// A protagonist row to insert.
#[derive(Debug)]
pub struct CreateProtagonist {
    pub protagonist_id: i64,
    pub last_name: String,
    pub first_name: String,
    pub login_id: String,
    pub password: String,
    pub email: String,
    pub country: String,
}

impl CreateProtagonist {
    pub fn new(
        protagonist_id: i64,
        last_name: String,
        first_name: String,
        login_id: String,
        password: String,
        email: String,
        country: String,
    ) -> (r: Self)
        ensures
            r.protagonist_id == protagonist_id,
            r.last_name == last_name,
            r.first_name == first_name,
            r.login_id == login_id,
            r.password == password,
            r.email == email,
            r.country == country,
    {
        Self { protagonist_id, last_name, first_name, login_id, password, email, country }
    }

    pub open spec fn valid(&self) -> bool {
        self.protagonist_id >= 0
            && self.last_name@.len() > 0
            && self.first_name@.len() > 0
            && self.login_id@.len() > 0
            && self.password@.len() > 0
            && self.email@.len() > 0
            && self.country@.len() > 0
    }

    pub fn is_valid(&self) -> (r: bool)
        ensures
            r == self.valid(),
    {
        self.protagonist_id >= 0
            && !self.last_name.as_str().is_empty()
            && !self.first_name.as_str().is_empty()
            && !self.login_id.as_str().is_empty()
            && !self.password.as_str().is_empty()
            && !self.email.as_str().is_empty()
            && !self.country.as_str().is_empty()
    }

    /// The same row with its password replaced by a fresh bcrypt hash of it.
    pub fn convert_hash_password(self) -> (r: Result<Self, HashingError>)
        ensures
            r matches Ok(s) ==> fresh_hash_of(self.password@, s.password@)
                && s.protagonist_id == self.protagonist_id
                && s.last_name == self.last_name
                && s.first_name == self.first_name
                && s.login_id == self.login_id
                && s.email == self.email
                && s.country == self.country,
    {
        match hash_password(self.password.as_str()) {
            Ok(password) => Ok(Self { protagonist_id: self.protagonist_id, last_name: self.last_name, first_name: self.first_name, login_id: self.login_id, password, email: self.email, country: self.country }),
            Err(e) => Err(e),
        }
    }

    /// The protagonist this row describes, when the row passes its check.
    pub fn into_protagonist(self) -> (r: Option<Protagonist>)
        ensures
            r is Some <==> self.valid(),
            r matches Some(p) ==> p.protagonist_id == self.protagonist_id && p.last_name == self.last_name
                && p.first_name == self.first_name && p.login_id == self.login_id
                && p.password == self.password && p.email == self.email && p.country == self.country,
    {
        if !self.is_valid() {
            return None;
        }
        Some(Protagonist::new(
            self.protagonist_id,
            self.last_name,
            self.first_name,
            self.login_id,
            self.password,
            self.email,
            self.country,
        ))
    }
}

/// A protagonist row to write over an existing one.
#[derive(Debug)]
pub struct UpdateProtagonist {
    pub protagonist_id: i64,
    pub last_name: String,
    pub first_name: String,
    pub login_id: String,
    pub password: String,
    pub email: String,
    pub country: String,
}

impl UpdateProtagonist {
    pub fn new(
        protagonist_id: i64,
        last_name: String,
        first_name: String,
        login_id: String,
        password: String,
        email: String,
        country: String,
    ) -> (r: Self)
        ensures
            r.protagonist_id == protagonist_id,
            r.last_name == last_name,
            r.first_name == first_name,
            r.login_id == login_id,
            r.password == password,
            r.email == email,
            r.country == country,
    {
        Self { protagonist_id, last_name, first_name, login_id, password, email, country }
    }

    pub open spec fn valid(&self) -> bool {
        self.protagonist_id >= 0
            && self.last_name@.len() > 0
            && self.first_name@.len() > 0
            && self.login_id@.len() > 0
            && self.password@.len() > 0
            && self.email@.len() > 0
            && self.country@.len() > 0
    }

    pub fn is_valid(&self) -> (r: bool)
        ensures
            r == self.valid(),
    {
        self.protagonist_id >= 0
            && !self.last_name.as_str().is_empty()
            && !self.first_name.as_str().is_empty()
            && !self.login_id.as_str().is_empty()
            && !self.password.as_str().is_empty()
            && !self.email.as_str().is_empty()
            && !self.country.as_str().is_empty()
    }

    /// The same row with its password replaced by a fresh bcrypt hash of it.
    pub fn convert_hash_password(self) -> (r: Result<Self, HashingError>)
        ensures
            r matches Ok(s) ==> fresh_hash_of(self.password@, s.password@)
                && s.protagonist_id == self.protagonist_id
                && s.last_name == self.last_name
                && s.first_name == self.first_name
                && s.login_id == self.login_id
                && s.email == self.email
                && s.country == self.country,
    {
        match hash_password(self.password.as_str()) {
            Ok(password) => Ok(Self { protagonist_id: self.protagonist_id, last_name: self.last_name, first_name: self.first_name, login_id: self.login_id, password, email: self.email, country: self.country }),
            Err(e) => Err(e),
        }
    }

    /// The protagonist this row describes, when the row passes its check.
    pub fn into_protagonist(self) -> (r: Option<Protagonist>)
        ensures
            r is Some <==> self.valid(),
            r matches Some(p) ==> p.protagonist_id == self.protagonist_id && p.last_name == self.last_name
                && p.first_name == self.first_name && p.login_id == self.login_id
                && p.password == self.password && p.email == self.email && p.country == self.country,
    {
        if !self.is_valid() {
            return None;
        }
        Some(Protagonist::new(
            self.protagonist_id,
            self.last_name,
            self.first_name,
            self.login_id,
            self.password,
            self.email,
            self.country,
        ))
    }
}

/// A supporter row as read.
#[derive(Debug)]
pub struct GetSupporter {
    pub supporter_id: i64,
    pub last_name: String,
    pub first_name: String,
    pub email: String,
    pub country: String,
}

impl GetSupporter {
    pub fn new(
        supporter_id: i64,
        last_name: String,
        first_name: String,
        email: String,
        country: String,
    ) -> (r: Self)
        ensures
            r.supporter_id == supporter_id,
            r.last_name == last_name,
            r.first_name == first_name,
            r.email == email,
            r.country == country,
    {
        Self { supporter_id, last_name, first_name, email, country }
    }

    pub open spec fn valid(&self) -> bool {
        self.supporter_id < 0
            && self.last_name@.len() > 0
            && self.first_name@.len() > 0
            && self.email@.len() > 0
            && self.country@.len() > 0
    }

    pub fn is_valid(&self) -> (r: bool)
        ensures
            r == self.valid(),
    {
        self.supporter_id < 0
            && !self.last_name.as_str().is_empty()
            && !self.first_name.as_str().is_empty()
            && !self.email.as_str().is_empty()
            && !self.country.as_str().is_empty()
    }

    /// The supporter this row describes, completed by the credentials read with
    /// it, when the row passes its check.
    pub fn into_supporter(self, login_id: String, password: String) -> (r: Option<Supporter>)
        ensures
            r is Some <==> self.valid(),
            r matches Some(p) ==> p.supporter_id == self.supporter_id && p.last_name == self.last_name
                && p.first_name == self.first_name && p.login_id == login_id
                && p.password == password && p.email == self.email && p.country == self.country,
    {
        if !self.is_valid() {
            return None;
        }
        Some(Supporter::new(self.supporter_id, self.last_name, self.first_name, login_id, password, self.email, self.country))
    }
}

/// A supporter row to insert.
#[derive(Debug)]
pub struct CreateSupporter {
    pub supporter_id: i64,
    pub last_name: String,
    pub first_name: String,
    pub login_id: String,
    pub password: String,
    pub email: String,
    pub country: String,
}

impl CreateSupporter {
    pub fn new(
        supporter_id: i64,
        last_name: String,
        first_name: String,
        login_id: String,
        password: String,
        email: String,
        country: String,
    ) -> (r: Self)
        ensures
            r.supporter_id == supporter_id,
            r.last_name == last_name,
            r.first_name == first_name,
            r.login_id == login_id,
            r.password == password,
            r.email == email,
            r.country == country,
    {
        Self { supporter_id, last_name, first_name, login_id, password, email, country }
    }

    pub open spec fn valid(&self) -> bool {
        self.supporter_id < 0
            && self.last_name@.len() > 0
            && self.first_name@.len() > 0
            && self.login_id@.len() > 0
            && self.password@.len() > 0
            && self.email@.len() > 0
            && self.country@.len() > 0
    }

    pub fn is_valid(&self) -> (r: bool)
        ensures
            r == self.valid(),
    {
        self.supporter_id < 0
            && !self.last_name.as_str().is_empty()
            && !self.first_name.as_str().is_empty()
            && !self.login_id.as_str().is_empty()
            && !self.password.as_str().is_empty()
            && !self.email.as_str().is_empty()
            && !self.country.as_str().is_empty()
    }

    /// The same row with its password replaced by a fresh bcrypt hash of it.
    pub fn convert_hash_password(self) -> (r: Result<Self, HashingError>)
        ensures
            r matches Ok(s) ==> fresh_hash_of(self.password@, s.password@)
                && s.supporter_id == self.supporter_id
                && s.last_name == self.last_name
                && s.first_name == self.first_name
                && s.login_id == self.login_id
                && s.email == self.email
                && s.country == self.country,
    {
        match hash_password(self.password.as_str()) {
            Ok(password) => Ok(Self { supporter_id: self.supporter_id, last_name: self.last_name, first_name: self.first_name, login_id: self.login_id, password, email: self.email, country: self.country }),
            Err(e) => Err(e),
        }
    }

    /// The supporter this row describes, when the row passes its check.
    pub fn into_supporter(self) -> (r: Option<Supporter>)
        ensures
            r is Some <==> self.valid(),
            r matches Some(p) ==> p.supporter_id == self.supporter_id && p.last_name == self.last_name
                && p.first_name == self.first_name && p.login_id == self.login_id
                && p.password == self.password && p.email == self.email && p.country == self.country,
    {
        if !self.is_valid() {
            return None;
        }
        Some(Supporter::new(
            self.supporter_id,
            self.last_name,
            self.first_name,
            self.login_id,
            self.password,
            self.email,
            self.country,
        ))
    }
}

/// A supporter row to write over an existing one.
#[derive(Debug)]
pub struct UpdateSupporter {
    pub supporter_id: i64,
    pub last_name: String,
    pub first_name: String,
    pub login_id: String,
    pub password: String,
    pub email: String,
    pub country: String,
}

impl UpdateSupporter {
    pub fn new(
        supporter_id: i64,
        last_name: String,
        first_name: String,
        login_id: String,
        password: String,
        email: String,
        country: String,
    ) -> (r: Self)
        ensures
            r.supporter_id == supporter_id,
            r.last_name == last_name,
            r.first_name == first_name,
            r.login_id == login_id,
            r.password == password,
            r.email == email,
            r.country == country,
    {
        Self { supporter_id, last_name, first_name, login_id, password, email, country }
    }

    pub open spec fn valid(&self) -> bool {
        self.supporter_id < 0
            && self.last_name@.len() > 0
            && self.first_name@.len() > 0
            && self.login_id@.len() > 0
            && self.password@.len() > 0
            && self.email@.len() > 0
            && self.country@.len() > 0
    }

    pub fn is_valid(&self) -> (r: bool)
        ensures
            r == self.valid(),
    {
        self.supporter_id < 0
            && !self.last_name.as_str().is_empty()
            && !self.first_name.as_str().is_empty()
            && !self.login_id.as_str().is_empty()
            && !self.password.as_str().is_empty()
            && !self.email.as_str().is_empty()
            && !self.country.as_str().is_empty()
    }

    /// The same row with its password replaced by a fresh bcrypt hash of it.
    pub fn convert_hash_password(self) -> (r: Result<Self, HashingError>)
        ensures
            r matches Ok(s) ==> fresh_hash_of(self.password@, s.password@)
                && s.supporter_id == self.supporter_id
                && s.last_name == self.last_name
                && s.first_name == self.first_name
                && s.login_id == self.login_id
                && s.email == self.email
                && s.country == self.country,
    {
        match hash_password(self.password.as_str()) {
            Ok(password) => Ok(Self { supporter_id: self.supporter_id, last_name: self.last_name, first_name: self.first_name, login_id: self.login_id, password, email: self.email, country: self.country }),
            Err(e) => Err(e),
        }
    }

    /// The supporter this row describes, when the row passes its check.
    pub fn into_supporter(self) -> (r: Option<Supporter>)
        ensures
            r is Some <==> self.valid(),
            r matches Some(p) ==> p.supporter_id == self.supporter_id && p.last_name == self.last_name
                && p.first_name == self.first_name && p.login_id == self.login_id
                && p.password == self.password && p.email == self.email && p.country == self.country,
    {
        if !self.is_valid() {
            return None;
        }
        Some(Supporter::new(
            self.supporter_id,
            self.last_name,
            self.first_name,
            self.login_id,
            self.password,
            self.email,
            self.country,
        ))
    }
}

/// A supporter row joined to a protagonist.
#[derive(Debug)]
pub struct GetProtagonistSupporter {
    pub supporter_id: i64,
    pub last_name: String,
    pub first_name: String,
    pub country: String,
}

impl GetProtagonistSupporter {
    pub fn new(
        supporter_id: i64,
        last_name: String,
        first_name: String,
        country: String,
    ) -> (r: Self)
        ensures
            r.supporter_id == supporter_id,
            r.last_name == last_name,
            r.first_name == first_name,
            r.country == country,
    {
        Self { supporter_id, last_name, first_name, country }
    }

    pub open spec fn valid(&self) -> bool {
        self.supporter_id < 0
            && self.last_name@.len() > 0
            && self.first_name@.len() > 0
            && self.country@.len() > 0
    }

    pub fn is_valid(&self) -> (r: bool)
        ensures
            r == self.valid(),
    {
        self.supporter_id < 0
            && !self.last_name.as_str().is_empty()
            && !self.first_name.as_str().is_empty()
            && !self.country.as_str().is_empty()
    }
}

/// A link row to insert.
#[derive(Debug)]
pub struct CreateProtagonistSupporter {
    pub protagonist_supporter_id: i64,
    pub protagonist_id: i64,
    pub supporter_id: i64,
}

impl CreateProtagonistSupporter {
    pub fn new(
        protagonist_supporter_id: i64,
        protagonist_id: i64,
        supporter_id: i64,
    ) -> (r: Self)
        ensures
            r.protagonist_supporter_id == protagonist_supporter_id,
            r.protagonist_id == protagonist_id,
            r.supporter_id == supporter_id,
    {
        Self { protagonist_supporter_id, protagonist_id, supporter_id }
    }

    pub open spec fn valid(&self) -> bool {
        self.protagonist_id >= 0
            && self.supporter_id >= 0
            && self.protagonist_supporter_id >= 0
    }

    pub fn is_valid(&self) -> (r: bool)
        ensures
            r == self.valid(),
    {
        self.protagonist_id >= 0
            && self.supporter_id >= 0
            && self.protagonist_supporter_id >= 0
    }

    /// The link this row describes, when the row passes its check.
    pub fn into_relation(self) -> (r: Option<ProtagonistSupporterRelation>)
        ensures
            r is Some <==> self.valid(),
            r matches Some(rel) ==> rel.protagonist_supporter_id == self.protagonist_supporter_id,
    {
        if !self.is_valid() {
            return None;
        }
        Some(ProtagonistSupporterRelation::new(self.protagonist_supporter_id))
    }
}

/// The supporters that a listing found, in order; `None` when it found none.
pub fn protagonist_supporters_of_rows(rows: Vec<GetProtagonistSupporter>) -> (r: Option<Vec<ProtagonistSupporter>>)
    ensures
        rows.len() == 0 <==> r is None,
        r matches Some(list) ==> list.len() == rows.len() && forall|k: int| 0 <= k < rows.len() ==> {
            &&& (#[trigger] list[k]).supporter_id == rows[k].supporter_id
            &&& list[k].last_name == rows[k].last_name
            &&& list[k].first_name == rows[k].first_name
            &&& list[k].country == rows[k].country
        },
{
    if rows.len() == 0 {
        return None;
    }
    let mut list: Vec<ProtagonistSupporter> = Vec::new();
    let mut i: usize = 0;
    while i < rows.len()
        invariant
            i <= rows.len(),
            list.len() == i,
            forall|k: int| 0 <= k < i ==> {
                &&& (#[trigger] list[k]).supporter_id == rows[k].supporter_id
                &&& list[k].last_name == rows[k].last_name
                &&& list[k].first_name == rows[k].first_name
                &&& list[k].country == rows[k].country
            },
        decreases rows.len() - i,
    {
        let row = &rows[i];
        list.push(ProtagonistSupporter::new(row.supporter_id, row.last_name.clone(), row.first_name.clone(), row.country.clone()));
        i = i + 1;
    }
    Some(list)
}

} // verus!
