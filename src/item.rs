//! The record moved between the store, the cache and the caller.
use vstd::prelude::*;
use crate::ident::{cache_key, fresh_id, id_text};

verus! {

/// One row of the durable store. Timestamps are microseconds since the Unix
/// epoch, in UTC; both are set when the record is made and never change.
#[derive(Debug)]
pub struct Item {
    pub id: u128,
    pub first_name: String,
    pub last_name: String,
    pub created_at: i64,
    pub updated_at: i64,
}

impl Item {
    /// A new record, stamped with `now` as both its creation and update time.
    pub fn new(id: u128, first_name: String, last_name: String, now: i64) -> (r: Item)
        ensures
            r.id == id,
            r.first_name == first_name,
            r.last_name == last_name,
            r.created_at == now,
            r.updated_at == now,
    {
        Item { id, first_name, last_name, created_at: now, updated_at: now }
    }

    /// A synthetic record for load tests: a fresh random identifier, fixed
    /// names, and `now` as its timestamps.
    pub fn synthetic(now: i64) -> (r: Item)
        ensures
            r.first_name@ == synthetic_first_name(),
            r.last_name@ == synthetic_last_name(),
            r.created_at == now,
            r.updated_at == now,
    {
        Item::new(fresh_id(), String::from_str("Synthetic"), String::from_str("Record"), now)
    }

    /// A copy equal to `self` in every field.
    pub fn duplicate(&self) -> (r: Item)
        ensures
            r == *self,
    {
        Item {
            id: self.id,
            first_name: self.first_name.clone(),
            last_name: self.last_name.clone(),
            created_at: self.created_at,
            updated_at: self.updated_at,
        }
    }

    /// The key under which the record is cached.
    pub fn key(&self) -> (r: String)
        ensures
            r@ == id_text(self.id),
    {
        cache_key(self.id)
    }
}

pub open spec fn synthetic_first_name() -> Seq<char> {
    "Synthetic"@
}

pub open spec fn synthetic_last_name() -> Seq<char> {
    "Record"@
}

} // verus!
