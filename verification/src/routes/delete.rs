//! Deleting a record.

use vstd::prelude::*;
use vstd::string::*;
use crate::db::{CacheId, DatabaseErrorResponse};
use crate::db::cache::{id_bytes, is_id_text};
use crate::status::ResponseError;

verus! {

/// How a deletion ended.
#[derive(Debug, Clone, PartialEq, Eq)]
pub enum DeleteResult {
    /// The store was asked and did not fail, whether or not it held the
    /// record.
    Deleted,
    /// The store failed; the text is the driver's report.
    DBError(String),
    /// The path names no identifier.
    WrongObjectID,
}

/// The response to a deletion.
#[derive(Debug, Clone, PartialEq, Eq)]
pub enum DeleteResultResponse {
    /// Status 200 and an empty object.
    Deleted,
    /// Status 500.
    DBError(DatabaseErrorResponse),
    /// Status 400.
    WrongObjectID(ResponseError),
}

impl DeleteResultResponse {
    /// The response that reports `result`.
    pub fn from_result(result: DeleteResult) -> (res: Self)
        ensures
            match result {
                DeleteResult::Deleted => res == DeleteResultResponse::Deleted,
                DeleteResult::DBError(report) => res matches DeleteResultResponse::DBError(body)
                    && body.message@ == "Database error"@ && body.logged@ == report@,
                DeleteResult::WrongObjectID => res matches DeleteResultResponse::WrongObjectID(
                    body,
                ) && body.message@ == "Wrong ObjectID format"@,
            },
    {
        match result {
            DeleteResult::Deleted => Self::Deleted,
            DeleteResult::DBError(report) => Self::DBError(DatabaseErrorResponse::new(report)),
            DeleteResult::WrongObjectID => Self::WrongObjectID(
                ResponseError::new(String::from_str("Wrong ObjectID format")),
            ),
        }
    }

    /// The HTTP status of this response.
    pub fn status(&self) -> (code: u16)
        ensures
            code == match self {
                DeleteResultResponse::Deleted => 200u16,
                DeleteResultResponse::DBError(_) => 500u16,
                DeleteResultResponse::WrongObjectID(_) => 400u16,
            },
    {
        match self {
            DeleteResultResponse::Deleted => 200,
            DeleteResultResponse::DBError(_) => 500,
            DeleteResultResponse::WrongObjectID(_) => 400,
        }
    }
}

/// Which record a deletion asks the store to remove; where the path names no
/// identifier the deletion is refused. Whose record it is plays no part.
pub fn delete_cache(id: &str) -> (res: Result<CacheId, DeleteResult>)
    ensures
        res.is_ok() == is_id_text(id@),
        res matches Err(result) ==> result == DeleteResult::WrongObjectID,
        res matches Ok(found) ==> found.bytes@ == id_bytes(id@),
{
    match CacheId::parse_str(id) {
        Some(oid) => Ok(oid),
        None => Err(DeleteResult::WrongObjectID),
    }
}

/// The answer to a deletion, from what the store returned.
pub fn delete_cache_response(outcome: Result<(), String>) -> (res: DeleteResultResponse)
    ensures
        match outcome {
            Ok(_) => res == DeleteResultResponse::Deleted,
            Err(report) => res matches DeleteResultResponse::DBError(body) && body.message@
                == "Database error"@ && body.logged@ == report@,
        },
{
    match outcome {
        Ok(_) => DeleteResultResponse::from_result(DeleteResult::Deleted),
        Err(report) => DeleteResultResponse::from_result(DeleteResult::DBError(report)),
    }
}

} // verus!
