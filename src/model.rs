//! The read protocol run against a model of its surroundings: a cache
//! service whose copies expire after their time to live, and a store that
//! holds rows by identifier. The model composes the very predicates that the
//! steps of `Lookup` are specified with, and the laws below are proved of it.
use vstd::prelude::*;
use crate::access::{serves_from_cache, store_result, writes_back, AccessError};
use crate::gateway::{CacheReply, StoreError, CACHE_TTL_SECS};
use crate::ident::id_text;
use crate::item::Item;

verus! {

/// The cache service: whether it answers at all, and each copy it holds by
/// key, with the instant (in seconds) at which the copy expires.
pub struct CacheModel {
    pub up: bool,
    pub entries: Map<Seq<char>, (Item, int)>,
}

/// What one lookup did: its result, how many store reads it made, and the
/// cache it left behind.
pub struct Run {
    pub result: Result<Option<Item>, AccessError>,
    pub store_reads: nat,
    pub cache: CacheModel,
}

/// The cache's answer for `key` at instant `now`: an expired copy counts as
/// absent, and a cache that is down fails every call.
pub open spec fn cache_answer(c: CacheModel, key: Seq<char>, now: int) -> CacheReply {
    if !c.up {
        CacheReply::Failed
    } else if c.entries.contains_key(key) && now < c.entries[key].1 {
        CacheReply::Decoded(c.entries[key].0)
    } else {
        CacheReply::Absent
    }
}

/// The store's answer for `id`.
pub open spec fn store_answer(store: Map<u128, Item>, id: u128) -> Result<Option<Item>, StoreError> {
    if store.contains_key(id) {
        Ok(Some(store[id]))
    } else {
        Ok(None)
    }
}

/// The cache after the write-back owed for `reply`, made at instant `now`.
pub open spec fn cache_after(
    c: CacheModel,
    id: u128,
    reply: Result<Option<Item>, StoreError>,
    now: int,
) -> CacheModel {
    if c.up && writes_back(id, reply) {
        CacheModel {
            up: c.up,
            entries: c.entries.insert(id_text(id), (reply->Ok_0->Some_0, now + CACHE_TTL_SECS)),
        }
    } else {
        c
    }
}

/// One lookup of `id` at instant `now`.
pub open spec fn run_get(c: CacheModel, store: Map<u128, Item>, id: u128, now: int) -> Run {
    let answer = cache_answer(c, id_text(id), now);
    if serves_from_cache(id, answer) {
        Run { result: Ok(Some(answer->Decoded_0)), store_reads: 0, cache: c }
    } else {
        let reply = store_answer(store, id);
        Run { result: store_result(reply), store_reads: 1, cache: cache_after(c, id, reply, now) }
    }
}

/// Every row is held under its own identifier.
pub open spec fn rows_keyed(store: Map<u128, Item>) -> bool {
    forall|k: u128| #[trigger] store.contains_key(k) ==> store[k].id == k
}

/// Every cached copy is the stored row of its own identifier: the cache
/// never holds what the store does not.
pub open spec fn coherent(c: CacheModel, store: Map<u128, Item>) -> bool {
    forall|key: Seq<char>|
        #[trigger] c.entries.contains_key(key) ==> store.contains_key(c.entries[key].0.id)
            && c.entries[key].0 == store[c.entries[key].0.id]
}

/// The cache holds no live copy under `key` at instant `now`.
pub open spec fn no_live_copy(c: CacheModel, key: Seq<char>, now: int) -> bool {
    !(c.entries.contains_key(key) && now < c.entries[key].1)
}

/// A lookup of a stored row returns that row, whether from the cache or from
/// the store, as long as the cache only holds copies of rows.
pub proof fn law_stored_row_is_returned(c: CacheModel, store: Map<u128, Item>, id: u128, now: int)
    requires
        rows_keyed(store),
        coherent(c, store),
        store.contains_key(id),
    ensures
        run_get(c, store, id, now).result == Ok::<Option<Item>, AccessError>(Some(store[id])),
{
}

/// A lookup of an identifier with no row and no live cached copy returns
/// `None` and leaves the cache as it was.
pub proof fn law_absent_id_is_none(c: CacheModel, store: Map<u128, Item>, id: u128, now: int)
    requires
        !store.contains_key(id),
        no_live_copy(c, id_text(id), now),
    ensures
        run_get(c, store, id, now).result == Ok::<Option<Item>, AccessError>(None),
        run_get(c, store, id, now).cache == c,
{
}

/// After a lookup that found its row in the store, a lookup of the same
/// identifier within the time to live is served by the cache, with no store
/// read.
pub proof fn law_hit_within_ttl(c: CacheModel, store: Map<u128, Item>, id: u128, t1: int, t2: int)
    requires
        rows_keyed(store),
        store.contains_key(id),
        c.up,
        run_get(c, store, id, t1).store_reads == 1,
        t1 <= t2 < t1 + CACHE_TTL_SECS,
    ensures
        run_get(run_get(c, store, id, t1).cache, store, id, t2).store_reads == 0,
        run_get(run_get(c, store, id, t1).cache, store, id, t2).result == Ok::<
            Option<Item>,
            AccessError,
        >(Some(store[id])),
{
}

/// Once the time to live of the written-back copy has run out, a lookup of
/// the same identifier reads the store again.
pub proof fn law_expired_copy_goes_to_store(
    c: CacheModel,
    store: Map<u128, Item>,
    id: u128,
    t1: int,
    t2: int,
)
    requires
        rows_keyed(store),
        store.contains_key(id),
        run_get(c, store, id, t1).store_reads == 1,
        t2 >= t1 + CACHE_TTL_SECS,
    ensures
        run_get(run_get(c, store, id, t1).cache, store, id, t2).store_reads == 1,
{
}

/// With a cache that fails every call, each lookup reads the store and
/// returns its answer, never an error, and the cache is not touched.
pub proof fn law_cache_down_falls_through(c: CacheModel, store: Map<u128, Item>, id: u128, now: int)
    requires
        !c.up,
    ensures
        run_get(c, store, id, now).store_reads == 1,
        run_get(c, store, id, now).result == store_result(store_answer(store, id)),
        run_get(c, store, id, now).result is Ok,
        run_get(c, store, id, now).cache == c,
{
}

/// Lookups of one identifier that start on the same cache, whatever their
/// instants and in whichever order their write-backs land, each return the
/// stored row, and the cache they leave only holds copies of rows.
pub proof fn law_simultaneous_lookups(
    c: CacheModel,
    store: Map<u128, Item>,
    id: u128,
    t1: int,
    t2: int,
)
    requires
        rows_keyed(store),
        coherent(c, store),
        store.contains_key(id),
    ensures
        run_get(c, store, id, t1).result == Ok::<Option<Item>, AccessError>(Some(store[id])),
        run_get(c, store, id, t2).result == Ok::<Option<Item>, AccessError>(Some(store[id])),
        coherent(
            cache_after(
                cache_after(c, id, store_answer(store, id), t1),
                id,
                store_answer(store, id),
                t2,
            ),
            store,
        ),
{
    law_stored_row_is_returned(c, store, id, t1);
    law_stored_row_is_returned(c, store, id, t2);
    lemma_write_back_keeps_coherence(c, store, id, t1);
    lemma_write_back_keeps_coherence(cache_after(c, id, store_answer(store, id), t1), store, id, t2);
}

/// A write-back of a stored row keeps the cache coherent with the store.
pub proof fn lemma_write_back_keeps_coherence(c: CacheModel, store: Map<u128, Item>, id: u128, now: int)
    requires
        rows_keyed(store),
        coherent(c, store),
    ensures
        coherent(cache_after(c, id, store_answer(store, id), now), store),
{
}

} // verus!
