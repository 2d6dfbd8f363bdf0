use std::collections::HashMap;

use cache_aside::access::{AccessError, Action, Lookup, Stage};
use cache_aside::gateway::{CacheReply, CacheWrite, StoreError, CACHE_TTL_SECS};
use cache_aside::handler::{
    rejection_status, request_id, response_status, RequestError, STATUS_BAD_REQUEST,
    STATUS_NOT_FOUND, STATUS_OK, STATUS_SERVER_ERROR,
};
use cache_aside::ident::{cache_key, parse_id};
use cache_aside::item::Item;

const SAMPLE_ID: u128 = 0x67e5_5044_10b1_426f_9247_bb68_0e5f_e0c8;
const SAMPLE_TEXT: &str = "67e55044-10b1-426f-9247-bb680e5fe0c8";

fn sample(id: u128) -> Item {
    Item::new(id, "Ada".to_string(), "Lovelace".to_string(), 1_700_000_000_000_000)
}

fn same_record(a: &Item, b: &Item) -> bool {
    a.id == b.id
        && a.first_name == b.first_name
        && a.last_name == b.last_name
        && a.created_at == b.created_at
        && a.updated_at == b.updated_at
}

/// A cache service with expiring copies, and a store that counts its reads.
struct World {
    cache: HashMap<String, (Item, u64)>,
    cache_up: bool,
    cache_writes: usize,
    store: HashMap<u128, Item>,
    store_reads: usize,
    store_down: bool,
}

impl World {
    fn new() -> World {
        World {
            cache: HashMap::new(),
            cache_up: true,
            cache_writes: 0,
            store: HashMap::new(),
            store_reads: 0,
            store_down: false,
        }
    }

    fn cache_read(&self, key: &str, now: u64) -> CacheReply {
        if !self.cache_up {
            return CacheReply::Failed;
        }
        match self.cache.get(key) {
            Some((item, expires)) if now < *expires => CacheReply::Decoded(item.duplicate()),
            _ => CacheReply::Absent,
        }
    }

    fn store_read(&mut self, id: u128) -> Result<Option<Item>, StoreError> {
        self.store_reads += 1;
        if self.store_down {
            return Err(StoreError::Unavailable);
        }
        Ok(self.store.get(&id).map(|i| i.duplicate()))
    }

    fn cache_write(&mut self, w: CacheWrite, now: u64) {
        if self.cache_up {
            self.cache_writes += 1;
            self.cache.insert(w.key, (w.item, now + w.ttl_secs));
        }
    }

    fn get_item(&mut self, id: u128, now: u64) -> Result<Option<Item>, AccessError> {
        let (mut lookup, mut action) = Lookup::start(id);
        loop {
            action = match action {
                Action::ReadCache { key } => {
                    let reply = self.cache_read(&key, now);
                    lookup.on_cache(reply)
                }
                Action::ReadStore { id } => {
                    let reply = self.store_read(id);
                    lookup.on_store(reply)
                }
                Action::Reply { result, write_back } => {
                    assert_eq!(lookup.stage, Stage::Done);
                    if let Some(w) = write_back {
                        self.cache_write(w, now);
                    }
                    return result;
                }
            };
        }
    }
}

#[test]
fn cache_key_is_hyphenated_lower_case() {
    assert_eq!(cache_key(SAMPLE_ID), SAMPLE_TEXT);
    assert_eq!(cache_key(0), "00000000-0000-0000-0000-000000000000");
    assert_eq!(sample(SAMPLE_ID).key(), SAMPLE_TEXT);
}

#[test]
fn parse_id_reads_back_the_key() {
    assert_eq!(parse_id(SAMPLE_TEXT), Some(SAMPLE_ID));
    assert_eq!(parse_id(&cache_key(u128::MAX)), Some(u128::MAX));
    assert_eq!(parse_id("not-an-id"), None);
    assert_eq!(parse_id(""), None);
}

#[test]
fn request_id_errors() {
    assert_eq!(request_id(None), Err(RequestError::MissingId));
    assert_eq!(request_id(Some("12345")), Err(RequestError::MalformedId));
    assert_eq!(request_id(Some(SAMPLE_TEXT)), Ok(SAMPLE_ID));
    assert_eq!(rejection_status(RequestError::MissingId), STATUS_BAD_REQUEST);
    assert_eq!(rejection_status(RequestError::MalformedId), 400);
}

#[test]
fn statuses_of_outcomes() {
    assert_eq!(response_status(&Ok(Some(sample(1)))), STATUS_OK);
    assert_eq!(response_status(&Ok(Some(sample(1)))), 200);
    assert_eq!(response_status(&Ok(None)), STATUS_NOT_FOUND);
    assert_eq!(response_status(&Ok(None)), 404);
    assert_eq!(
        response_status(&Err(AccessError::Store(StoreError::Unavailable))),
        STATUS_SERVER_ERROR
    );
    assert_eq!(response_status(&Err(AccessError::Store(StoreError::Other))), 500);
}

#[test]
fn item_new_and_duplicate() {
    let a = sample(7);
    assert_eq!(a.created_at, a.updated_at);
    assert!(same_record(&a, &a.duplicate()));
}

#[test]
fn start_reads_the_cache() {
    let (lookup, action) = Lookup::start(SAMPLE_ID);
    assert_eq!(lookup.id, SAMPLE_ID);
    assert_eq!(lookup.stage, Stage::CacheLookup);
    match action {
        Action::ReadCache { key } => assert_eq!(key, SAMPLE_TEXT),
        _ => panic!("expected a cache read"),
    }
}

#[test]
fn cache_copy_of_another_record_goes_to_store() {
    let (mut lookup, _) = Lookup::start(5);
    match lookup.on_cache(CacheReply::Decoded(sample(6))) {
        Action::ReadStore { id } => assert_eq!(id, 5),
        _ => panic!("expected a store read"),
    }
    assert_eq!(lookup.stage, Stage::StoreLookup);
}

#[test]
fn undecodable_value_is_a_miss() {
    let (mut lookup, _) = Lookup::start(5);
    assert!(matches!(lookup.on_cache(CacheReply::Undecodable), Action::ReadStore { id: 5 }));
}

#[test]
fn store_hit_writes_back_with_ttl() {
    let (mut lookup, _) = Lookup::start(5);
    lookup.on_cache(CacheReply::Absent);
    match lookup.on_store(Ok(Some(sample(5)))) {
        Action::Reply { result: Ok(Some(item)), write_back: Some(w) } => {
            assert!(same_record(&item, &sample(5)));
            assert!(same_record(&w.item, &sample(5)));
            assert_eq!(w.key, cache_key(5));
            assert_eq!(w.ttl_secs, 5);
            assert_eq!(w.ttl_secs, CACHE_TTL_SECS);
        }
        _ => panic!("expected a reply with a write-back"),
    }
}

#[test]
fn store_failure_is_the_error() {
    let (mut lookup, _) = Lookup::start(5);
    lookup.on_cache(CacheReply::Failed);
    match lookup.on_store(Err(StoreError::Unavailable)) {
        Action::Reply { result, write_back } => {
            assert_eq!(result.err(), Some(AccessError::Store(StoreError::Unavailable)));
            assert!(write_back.is_none());
        }
        _ => panic!("expected a reply"),
    }
}

#[test]
fn stored_row_is_returned() {
    let mut w = World::new();
    w.store.insert(SAMPLE_ID, sample(SAMPLE_ID));
    let first = w.get_item(SAMPLE_ID, 0).unwrap().unwrap();
    assert!(same_record(&first, &sample(SAMPLE_ID)));
    let second = w.get_item(SAMPLE_ID, 1).unwrap().unwrap();
    assert!(same_record(&second, &sample(SAMPLE_ID)));
}

#[test]
fn absent_id_is_none_and_not_cached() {
    let mut w = World::new();
    assert!(w.get_item(42, 0).unwrap().is_none());
    assert!(w.cache.is_empty());
    assert_eq!(w.cache_writes, 0);
    assert!(w.get_item(42, 1).unwrap().is_none());
    assert_eq!(w.store_reads, 2);
}

#[test]
fn hit_within_ttl_skips_store() {
    let mut w = World::new();
    w.store.insert(9, sample(9));
    w.get_item(9, 100).unwrap();
    assert_eq!(w.store_reads, 1);
    let again = w.get_item(9, 104).unwrap().unwrap();
    assert!(same_record(&again, &sample(9)));
    assert_eq!(w.store_reads, 1);
}

#[test]
fn expired_copy_goes_back_to_store() {
    let mut w = World::new();
    w.store.insert(9, sample(9));
    w.get_item(9, 100).unwrap();
    let again = w.get_item(9, 105).unwrap().unwrap();
    assert!(same_record(&again, &sample(9)));
    assert_eq!(w.store_reads, 2);
}

#[test]
fn failing_cache_falls_through_every_time() {
    let mut w = World::new();
    w.cache_up = false;
    w.store.insert(3, sample(3));
    for t in 0..4u64 {
        let got = w.get_item(3, t).unwrap().unwrap();
        assert!(same_record(&got, &sample(3)));
    }
    assert!(w.get_item(4, 0).unwrap().is_none());
    assert_eq!(w.store_reads, 5);
}

#[test]
fn store_down_is_an_error() {
    let mut w = World::new();
    w.store_down = true;
    assert_eq!(w.get_item(3, 0).err(), Some(AccessError::Store(StoreError::Unavailable)));
}

#[test]
fn simultaneous_lookups_are_each_correct() {
    let mut w = World::new();
    w.store.insert(11, sample(11));
    // Both lookups read the empty cache before either writes back.
    let (mut a, ka) = Lookup::start(11);
    let (mut b, kb) = Lookup::start(11);
    let ra = match ka {
        Action::ReadCache { key } => w.cache_read(&key, 0),
        _ => panic!(),
    };
    let rb = match kb {
        Action::ReadCache { key } => w.cache_read(&key, 0),
        _ => panic!(),
    };
    assert!(matches!(a.on_cache(ra), Action::ReadStore { id: 11 }));
    assert!(matches!(b.on_cache(rb), Action::ReadStore { id: 11 }));
    let sa = w.store_read(11);
    let sb = w.store_read(11);
    for (act, t) in [(a.on_store(sa), 0u64), (b.on_store(sb), 1u64)] {
        match act {
            Action::Reply { result: Ok(Some(item)), write_back: Some(wb) } => {
                assert!(same_record(&item, &sample(11)));
                w.cache_write(wb, t);
            }
            _ => panic!("expected the stored row"),
        }
    }
    assert_eq!(w.store.len(), 1);
    assert_eq!(w.cache.len(), 1);
    assert!(same_record(&w.cache[&cache_key(11)].0, &sample(11)));
    let later = w.get_item(11, 2).unwrap().unwrap();
    assert!(same_record(&later, &sample(11)));
    assert_eq!(w.store_reads, 2);
}
