//! The cache-aside read protocol. One lookup runs through three stages: a
//! cache read, then, unless the cache served a copy of the record, a store
//! read, then a reply that may carry a write-back of the record to the cache.
//! The caller performs each action and hands back what came of it.
use vstd::prelude::*;
use crate::gateway::{CacheReply, CacheWrite, StoreError, CACHE_TTL_SECS};
use crate::ident::{cache_key, id_text};
use crate::item::Item;

verus! {

/// The failure that a lookup reports: the store, the authoritative source,
/// could not answer. Cache failures never become one.
#[derive(Clone, Copy, Debug, PartialEq, Eq, Structural)]
pub enum AccessError {
    Store(StoreError),
}

/// Where a lookup stands.
#[derive(Clone, Copy, Debug, PartialEq, Eq, Structural)]
pub enum Stage {
    CacheLookup,
    StoreLookup,
    Done,
}

/// What the caller is to do next.
#[derive(Debug)]
pub enum Action {
    /// Read the cache under `key`.
    ReadCache { key: String },
    /// Read the store row with identifier `id`.
    ReadStore { id: u128 },
    /// Answer the request with `result`; start `write_back`, if any, without
    /// waiting for it and ignoring how it ends.
    Reply { result: Result<Option<Item>, AccessError>, write_back: Option<CacheWrite> },
}

/// One lookup of the record with identifier `id`.
#[derive(Debug)]
pub struct Lookup {
    pub id: u128,
    pub stage: Stage,
}

/// The cache answer is a decoded copy of the record asked for.
pub open spec fn serves_from_cache(id: u128, reply: CacheReply) -> bool {
    match reply {
        CacheReply::Decoded(item) => item.id == id,
        _ => false,
    }
}

/// The lookup's result for a given store answer.
pub open spec fn store_result(reply: Result<Option<Item>, StoreError>) -> Result<
    Option<Item>,
    AccessError,
> {
    match reply {
        Ok(found) => Ok(found),
        Err(e) => Err(AccessError::Store(e)),
    }
}

/// The store answer is the row asked for, which is then written back.
pub open spec fn writes_back(id: u128, reply: Result<Option<Item>, StoreError>) -> bool {
    match reply {
        Ok(Some(item)) => item.id == id,
        _ => false,
    }
}

/// `w` is the write-back owed after the store answered `reply` for `id`.
pub open spec fn is_write_back(
    w: Option<CacheWrite>,
    id: u128,
    reply: Result<Option<Item>, StoreError>,
) -> bool {
    if writes_back(id, reply) {
        &&& w is Some
        &&& w->Some_0.key@ == id_text(id)
        &&& Ok::<Option<Item>, StoreError>(Some(w->Some_0.item)) == reply
        &&& w->Some_0.ttl_secs == CACHE_TTL_SECS
    } else {
        w is None
    }
}

impl Lookup {
    /// Starts a lookup of `id`: its first action reads the cache under the
    /// identifier's key.
    pub fn start(id: u128) -> (r: (Lookup, Action))
        ensures
            r.0.id == id,
            r.0.stage == Stage::CacheLookup,
            r.1 is ReadCache,
            r.1->ReadCache_key@ == id_text(id),
    {
        (Lookup { id, stage: Stage::CacheLookup }, Action::ReadCache { key: cache_key(id) })
    }

    /// Takes the cache's answer. A decoded copy of the record ends the lookup
    /// with that copy; a miss, an undecodable value, a copy of another record
    /// or a failure of the cache all lead to the store.
    pub fn on_cache(&mut self, reply: CacheReply) -> (a: Action)
        requires
            old(self).stage == Stage::CacheLookup,
        ensures
            final(self).id == old(self).id,
            serves_from_cache(old(self).id, reply) ==> {
                &&& final(self).stage == Stage::Done
                &&& a == (Action::Reply { result: Ok(Some(reply->Decoded_0)), write_back: None })
            },
            !serves_from_cache(old(self).id, reply) ==> {
                &&& final(self).stage == Stage::StoreLookup
                &&& a == (Action::ReadStore { id: old(self).id })
            },
    {
        match reply {
            CacheReply::Decoded(item) => {
                if item.id == self.id {
                    self.stage = Stage::Done;
                    return Action::Reply { result: Ok(Some(item)), write_back: None };
                }
            },
            _ => {},
        }
        self.stage = Stage::StoreLookup;
        Action::ReadStore { id: self.id }
    }

    /// Takes the store's answer and ends the lookup. A found row is returned
    /// and written back to the cache under the lookup's key; no row is a
    /// definitive `None`, not cached; a store failure is the lookup's error.
    pub fn on_store(&mut self, reply: Result<Option<Item>, StoreError>) -> (a: Action)
        requires
            old(self).stage == Stage::StoreLookup,
        ensures
            final(self).id == old(self).id,
            final(self).stage == Stage::Done,
            a is Reply,
            a->Reply_result == store_result(reply),
            is_write_back(a->Reply_write_back, old(self).id, reply),
    {
        self.stage = Stage::Done;
        match reply {
            Ok(Some(item)) => {
                if item.id == self.id {
                    let w = CacheWrite { key: cache_key(self.id), item: item.duplicate(), ttl_secs: CACHE_TTL_SECS };
                    Action::Reply { result: Ok(Some(item)), write_back: Some(w) }
                } else {
                    Action::Reply { result: Ok(Some(item)), write_back: None }
                }
            },
            Ok(None) => Action::Reply { result: Ok(None), write_back: None },
            Err(e) => Action::Reply { result: Err(AccessError::Store(e)), write_back: None },
        }
    }
}

} // verus!
