//! Error values shared across the library.

use vstd::prelude::*;

verus! {

/// The error taxonomy of the relay: a ledger or blob lookup miss, an empty
/// draw category, a storage failure, a remote gateway failure, and a
/// malformed admin command.
#[derive(Clone, Copy, Debug, PartialEq, Eq, Structural)]
pub enum RelayError {
    NotFound,
    EmptyCategory,
    PersistenceError,
    GatewayError,
    ValidationError,
}

/// A human-readable error carried out of a handler.
#[derive(Debug, PartialEq)]
pub struct HandlerError {
    pub message: String,
}

impl HandlerError {
    pub fn new(data: String) -> (r: Self)
        ensures
            r.message@ == data@,
    {
        HandlerError { message: data }
    }

    pub fn from_str(data: &str) -> (r: Self)
        ensures
            r.message@ == data@,
    {
        HandlerError { message: data.to_owned() }
    }
}

} // verus!
