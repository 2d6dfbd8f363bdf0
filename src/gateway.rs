//! What the two gateways hand the read protocol, and what it hands them.
use vstd::prelude::*;
use crate::item::Item;

verus! {

/// How long a copy written back to the cache stays live, in seconds.
pub const CACHE_TTL_SECS: u64 = 5;

/// A failure of the durable store.
#[derive(Clone, Copy, Debug, PartialEq, Eq, Structural)]
pub enum StoreError {
    /// The identifier is already taken.
    Conflict,
    /// The store could not be reached or refused the credentials.
    Unavailable,
    /// Any other failure of the query.
    Other,
}

/// The answer of a cache read, once the cached text has been decoded.
#[derive(Debug)]
pub enum CacheReply {
    /// A value was found and decoded to a record.
    Decoded(Item),
    /// A value was found but it does not decode to a record.
    Undecodable,
    /// Nothing is cached under the key, or the copy has expired.
    Absent,
    /// The cache could not be reached.
    Failed,
}

/// A write of a record to the cache, with the time it is to stay live.
#[derive(Debug)]
pub struct CacheWrite {
    pub key: String,
    pub item: Item,
    pub ttl_secs: u64,
}

} // verus!
