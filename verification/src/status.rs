//! The JSON body that carries a failure's message.

use vstd::prelude::*;

verus! {

/// Body of a failure response: `{"message": ...}`.
#[derive(Debug, Clone, PartialEq, Eq)]
pub struct ResponseError {
    pub message: String,
}

impl ResponseError {
    /// A failure body with the given message, kept as it is.
    pub fn new(error_msg: String) -> (res: Self)
        ensures
            res.message@ == error_msg@,
    {
        Self { message: error_msg }
    }
}

} // verus!
