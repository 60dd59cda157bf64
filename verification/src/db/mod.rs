//! The records of the store and what the store is asked to do with them.

pub mod cache;

pub use cache::{
    Assignment, Cache, CacheFilter, CacheId, CacheUpdate, Condition, FieldCondition, FieldValue,
    LatLong, MissingIdentifier,
};

use vstd::prelude::*;
use vstd::string::*;

verus! {

/// Body of the response to a failure of the store. It carries a fixed
/// message; what the driver reported is kept beside it for the server's log
/// and is no part of the body.
#[derive(Debug, Clone, PartialEq, Eq)]
pub struct DatabaseErrorResponse {
    pub message: String,
    pub logged: String,
}

impl DatabaseErrorResponse {
    /// The response to a failure that the driver described as `error`.
    pub fn new(error: String) -> (res: Self)
        ensures
            res.message@ == "Database error"@,
            res.logged@ == error@,
    {
        Self { message: String::from_str("Database error"), logged: error }
    }

    /// The HTTP status of this response.
    pub fn status(&self) -> (code: u16)
        ensures
            code == 500,
    {
        500
    }
}

} // verus!
