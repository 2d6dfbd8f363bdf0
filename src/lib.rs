//! A cache-aside access layer: identifiers, the item model, the read protocol
//! that consults a TTL cache before the durable store, the request mapping
//! around it, and the bookkeeping of a concurrent bulk loader.
use vstd::prelude::*;

pub mod ident;
pub mod item;
pub mod gateway;
pub mod access;
pub mod model;
pub mod handler;
pub mod loader;

verus! {

} // verus!
