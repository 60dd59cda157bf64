//! Creating a record: the caller becomes its owner.

use vstd::prelude::*;
use crate::auth::AuthInfo;
use crate::db::{Cache, CacheId, DatabaseErrorResponse};
use crate::db::cache::{id_text, CacheRecord};

verus! {

/// The answer to a creation: status 201 and the new record's identifier in
/// its hexadecimal form.
#[derive(Debug, Clone, PartialEq, Eq)]
pub struct CacheAdded {
    pub id: String,
}

impl CacheAdded {
    /// The answer that names `id`.
    pub fn new(id: CacheId) -> (res: Self)
        ensures
            res.id@ == id_text(id.bytes@),
    {
        Self { id: id.to_hex() }
    }

    /// The HTTP status of this response.
    pub fn status(&self) -> (code: u16)
        ensures
            code == 201,
    {
        201
    }
}

/// Why a creation failed.
#[derive(Debug, Clone, PartialEq, Eq)]
pub enum CacheError {
    /// The store failed; the text is the driver's report.
    DatabaseError(String),
}

/// The response to a creation that failed.
#[derive(Debug, Clone, PartialEq, Eq)]
pub enum CacheErrorResponse {
    /// Status 500.
    DBError(DatabaseErrorResponse),
}

impl CacheErrorResponse {
    /// The response that reports `err`.
    pub fn from_error(err: CacheError) -> (res: Self)
        ensures
            match (err, res) {
                (
                    CacheError::DatabaseError(report),
                    CacheErrorResponse::DBError(body),
                ) => body.message@ == "Database error"@ && body.logged@ == report@,
            },
    {
        match err {
            CacheError::DatabaseError(report) => Self::DBError(DatabaseErrorResponse::new(report)),
        }
    }

    /// The HTTP status of this response.
    pub fn status(&self) -> (code: u16)
        ensures
            code == 500,
    {
        500
    }
}

/// The record that a creation inserts: the body's position, description and
/// hint, owned by the caller whatever owner the body names, and without an
/// identifier, which the store assigns.
pub fn create_cache(cache: Cache, auth: &AuthInfo) -> (res: Cache)
    ensures
        res@ == (CacheRecord { id: None, owner_id: Some(auth.user_id), ..cache@ }),
{
    let mut cache_to_add = cache;
    cache_to_add.owner_id = Some(auth.user_id);
    cache_to_add.id = None;
    cache_to_add
}

/// The answer to a creation, from what the store returned: the identifier it
/// assigned, or the report of its failure.
pub fn create_cache_response(outcome: Result<CacheId, String>) -> (res: Result<
    CacheAdded,
    CacheErrorResponse,
>)
    ensures
        match outcome {
            Ok(id) => res matches Ok(added) && added.id@ == id_text(id.bytes@),
            Err(report) => res matches Err(CacheErrorResponse::DBError(body)) && body.message@
                == "Database error"@ && body.logged@ == report@,
        },
{
    match outcome {
        Ok(id) => Ok(CacheAdded::new(id)),
        Err(report) => Err(CacheErrorResponse::from_error(CacheError::DatabaseError(report))),
    }
}

} // verus!
