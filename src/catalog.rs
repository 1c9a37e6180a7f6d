//! The catalog: previously seen repositories, keyed by identifier.

use vstd::prelude::*;
use std::collections::HashMap;
use crate::database;
use crate::timestamp::{earlier, is_earlier};

verus! {

broadcast use vstd::std_specs::hash::group_hash_axioms;

/// Why a catalog operation was refused.
#[derive(Debug, Clone, Copy, PartialEq, Eq, Structural)]
pub enum CatalogError {
    /// A record with this identifier is already present.
    AlreadyExists,
    /// No record with this identifier is present.
    NotFound,
}

/// The records of previously seen repositories, at most one per identifier.
#[derive(Debug)]
pub struct Catalog {
    records: HashMap<i64, database::Repo>,
}

impl View for Catalog {
    type V = Map<i64, database::Repo>;

    closed spec fn view(&self) -> Map<i64, database::Repo> {
        self.records@
    }
}

impl Catalog {
    /// Every record is filed under its own identifier.
    pub open spec fn well_formed(&self) -> bool {
        forall|k: i64| #[trigger] self@.contains_key(k) ==> self@[k].id == k
    }

    /// An empty catalog.
    pub fn new() -> (c: Catalog)
        ensures
            c@ == Map::<i64, database::Repo>::empty(),
            c.well_formed(),
    {
        Catalog { records: HashMap::new() }
    }

    /// The record with identifier `id`, if present.
    pub fn get(&self, id: i64) -> (r: Option<&database::Repo>)
        ensures
            self@.contains_key(id) ==> r == Some(&self@[id]),
            !self@.contains_key(id) ==> r is None,
    {
        self.records.get(&id)
    }

    /// Whether a record with identifier `id` is present.
    pub fn contains(&self, id: i64) -> (r: bool)
        ensures
            r == self@.contains_key(id),
    {
        self.records.contains_key(&id)
    }

    /// Inserts a new record; refused when its identifier is already present.
    pub fn put(&mut self, record: database::Repo) -> (r: Result<(), CatalogError>)
        requires
            old(self).well_formed(),
        ensures
            final(self).well_formed(),
            old(self)@.contains_key(record.id) ==> r == Err::<(), CatalogError>(
                CatalogError::AlreadyExists,
            ) && final(self)@ == old(self)@,
            !old(self)@.contains_key(record.id) ==> r is Ok && final(self)@ == old(self)@.insert(
                record.id,
                record,
            ),
    {
        if self.records.contains_key(&record.id) {
            return Err(CatalogError::AlreadyExists);
        }
        self.records.insert(record.id, record);
        Ok(())
    }

    /// Overwrites an existing record; refused when its identifier is absent.
    pub fn replace(&mut self, record: database::Repo) -> (r: Result<(), CatalogError>)
        requires
            old(self).well_formed(),
        ensures
            final(self).well_formed(),
            !old(self)@.contains_key(record.id) ==> r == Err::<(), CatalogError>(
                CatalogError::NotFound,
            ) && final(self)@ == old(self)@,
            old(self)@.contains_key(record.id) ==> r is Ok && final(self)@ == old(self)@.insert(
                record.id,
                record,
            ),
    {
        if !self.records.contains_key(&record.id) {
            return Err(CatalogError::NotFound);
        }
        self.records.insert(record.id, record);
        Ok(())
    }

    /// Takes out the record with identifier `id`, if present; used to undo
    /// an insert or a replacement that could not be made lasting.
    pub fn remove(&mut self, id: i64) -> (r: Option<database::Repo>)
        requires
            old(self).well_formed(),
        ensures
            final(self).well_formed(),
            final(self)@ == old(self)@.remove(id),
            old(self)@.contains_key(id) ==> r == Some(old(self)@[id]),
            !old(self)@.contains_key(id) ==> r is None,
    {
        self.records.remove(&id)
    }

    /// Whether the stored record `id` is older than `candidate`: its
    /// last-changed time is strictly earlier. An absent record is never
    /// older.
    pub fn is_newer_than(&self, id: i64, candidate: &str) -> (r: bool)
        ensures
            r == (self@.contains_key(id) && is_earlier(self@[id].updated_at@, candidate@)),
    {
        match self.records.get(&id) {
            Some(rec) => earlier(rec.updated_at.as_str(), candidate),
            None => false,
        }
    }
}

} // verus!
