//! Editing a record: position, description and hint are written, the owner
//! is not.

use vstd::prelude::*;
use vstd::string::*;
use crate::db::{Cache, CacheId, CacheUpdate, DatabaseErrorResponse};
use crate::db::cache::{id_bytes, is_id_text, text_of};
use crate::status::ResponseError;

verus! {

/// The answer to an edit: status 200 and an empty object.
#[derive(Debug, Clone, Copy, PartialEq, Eq, Structural)]
pub struct CacheEditResponse;

impl CacheEditResponse {
    /// The answer to an edit.
    pub fn new() -> (res: Self)
        ensures
            res == CacheEditResponse,
    {
        CacheEditResponse
    }

    /// The HTTP status of this response.
    pub fn status(&self) -> (code: u16)
        ensures
            code == 200,
    {
        200
    }
}

/// Why an edit failed.
#[derive(Debug, Clone, PartialEq, Eq)]
pub enum CacheEditError {
    /// The path names no identifier.
    WrongObjectID,
    /// The store failed; the text is the driver's report.
    DBError(String),
}

/// The response to an edit that failed.
#[derive(Debug, Clone, PartialEq, Eq)]
pub enum CacheEditErrorResponse {
    /// Status 400.
    WrongObjectID(ResponseError),
    /// Status 500.
    DBError(DatabaseErrorResponse),
}

impl CacheEditErrorResponse {
    /// The response that reports `err`.
    pub fn from_error(err: CacheEditError) -> (res: Self)
        ensures
            match err {
                CacheEditError::WrongObjectID => res matches CacheEditErrorResponse::WrongObjectID(
                    body,
                ) && body.message@ == "Wrong ObjectID format"@,
                CacheEditError::DBError(report) => res matches CacheEditErrorResponse::DBError(body)
                    && body.message@ == "Database error"@ && body.logged@ == report@,
            },
    {
        match err {
            CacheEditError::WrongObjectID => Self::WrongObjectID(
                ResponseError::new(String::from_str("Wrong ObjectID format")),
            ),
            CacheEditError::DBError(report) => Self::DBError(DatabaseErrorResponse::new(report)),
        }
    }

    /// The HTTP status of this response.
    pub fn status(&self) -> (code: u16)
        ensures
            code == match self {
                CacheEditErrorResponse::WrongObjectID(_) => 400u16,
                CacheEditErrorResponse::DBError(_) => 500u16,
            },
    {
        match self {
            CacheEditErrorResponse::WrongObjectID(_) => 400,
            CacheEditErrorResponse::DBError(_) => 500,
        }
    }
}

/// What an edit asks of the store: to write the body's position, description
/// and hint over the record that the path names. The identifier is the
/// path's, whatever the body holds; where the path names none the edit is
/// refused. Whose record it is plays no part.
pub fn edit_cache(id: &str, cache: Cache) -> (res: Result<CacheUpdate, CacheEditError>)
    ensures
        res.is_ok() == is_id_text(id@),
        res matches Err(err) ==> err == CacheEditError::WrongObjectID,
        res matches Ok(update) ==> update.id.bytes@ == id_bytes(id@) && update.position
            == cache.position && text_of(update.description) == cache@.description && text_of(
            update.hint,
        ) == cache@.hint,
{
    let Some(oid) = CacheId::parse_str(id) else {
        return Err(CacheEditError::WrongObjectID);
    };
    let mut cache_new = cache;
    cache_new.id = Some(oid);
    match CacheUpdate::new(cache_new) {
        Ok(update) => Ok(update),
        Err(_) => Err(CacheEditError::WrongObjectID),
    }
}

/// The answer to an edit, from what the store returned.
pub fn edit_cache_response(outcome: Result<(), String>) -> (res: Result<
    CacheEditResponse,
    CacheEditErrorResponse,
>)
    ensures
        match outcome {
            Ok(_) => res == Ok::<CacheEditResponse, CacheEditErrorResponse>(CacheEditResponse),
            Err(report) => res matches Err(CacheEditErrorResponse::DBError(body)) && body.message@
                == "Database error"@ && body.logged@ == report@,
        },
{
    match outcome {
        Ok(_) => Ok(CacheEditResponse::new()),
        Err(report) => Err(CacheEditErrorResponse::from_error(CacheEditError::DBError(report))),
    }
}

} // verus!
