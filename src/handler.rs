//! The request boundary: reading the identifier out of a request, and the
//! status that answers each outcome of a lookup.
use vstd::prelude::*;
use crate::access::AccessError;
use crate::ident::{parse_id, uuid_parsed};
use crate::item::Item;

verus! {

pub const STATUS_OK: u16 = 200;

pub const STATUS_BAD_REQUEST: u16 = 400;

pub const STATUS_NOT_FOUND: u16 = 404;

pub const STATUS_SERVER_ERROR: u16 = 500;

/// Why a request names no identifier.
#[derive(Clone, Copy, Debug, PartialEq, Eq, Structural)]
pub enum RequestError {
    /// The request has no `id` parameter.
    MissingId,
    /// The `id` parameter is not an identifier.
    MalformedId,
}

/// The identifier named by the request's `id` parameter, if it has one.
pub fn request_id(param: Option<&str>) -> (r: Result<u128, RequestError>)
    ensures
        param is None ==> r == Err::<u128, RequestError>(RequestError::MissingId),
        param is Some ==> r == match uuid_parsed(param->0@) {
            Some(n) => Ok::<u128, RequestError>(n),
            None => Err(RequestError::MalformedId),
        },
{
    match param {
        None => Err(RequestError::MissingId),
        Some(s) => match parse_id(s) {
            Some(n) => Ok(n),
            None => Err(RequestError::MalformedId),
        },
    }
}

/// The status of the answer to a request the identifier of which could not
/// be read: a client error.
pub fn rejection_status(e: RequestError) -> (r: u16)
    ensures
        r == STATUS_BAD_REQUEST,
{
    STATUS_BAD_REQUEST
}

/// The status that answers a lookup's outcome: found, not found, or a
/// failure of the store.
pub fn response_status(outcome: &Result<Option<Item>, AccessError>) -> (r: u16)
    ensures
        r == match outcome {
            Ok(Some(_)) => STATUS_OK,
            Ok(None) => STATUS_NOT_FOUND,
            Err(_) => STATUS_SERVER_ERROR,
        },
{
    match outcome {
        Ok(Some(_)) => STATUS_OK,
        Ok(None) => STATUS_NOT_FOUND,
        Err(_) => STATUS_SERVER_ERROR,
    }
}

} // verus!
