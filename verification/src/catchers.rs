//! Bodies for requests that no route answered and for failures that no
//! handler mapped.

use vstd::prelude::*;
use vstd::string::*;
use crate::status::ResponseError;

verus! {

/// Text of the body for a request that matched no route.
pub open spec fn not_found_message(path: Seq<char>, method: Seq<char>) -> Seq<char> {
    "URL: '"@ + path + "' not found for method "@ + method
}

/// Text of the body for a failure that no handler mapped. The request's
/// rendering is attached as the caller gives it.
pub open spec fn unhandled_message(path: Seq<char>, method: Seq<char>, request: Seq<char>) -> Seq<
    char,
> {
    "There are unhandled error in URL '"@ + path + "' for method "@ + method
        + ".\n         Contact a support. With folowing message but make sure to delete keys, password, etc from it:\n         REQUEST:\n         "@
        + request
}

/// The 404 body: names the path and the method of the request.
pub fn not_found_catcher(path: &str, method: &str) -> (res: ResponseError)
    ensures
        res.message@ == not_found_message(path@, method@),
{
    let mut msg = String::from_str("URL: '");
    msg.append(path);
    msg.append("' not found for method ");
    msg.append(method);
    ResponseError::new(msg)
}

/// The 500 body: names the path and the method, then attaches `request`.
pub fn unhandled_catcher(path: &str, method: &str, request: &str) -> (res: ResponseError)
    ensures
        res.message@ == unhandled_message(path@, method@, request@),
{
    let mut msg = String::from_str("There are unhandled error in URL '");
    msg.append(path);
    msg.append("' for method ");
    msg.append(method);
    msg.append(
        ".\n         Contact a support. With folowing message but make sure to delete keys, password, etc from it:\n         REQUEST:\n         ",
    );
    msg.append(request);
    ResponseError::new(msg)
}

} // verus!
