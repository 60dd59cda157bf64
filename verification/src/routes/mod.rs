//! The endpoints. Each one is decided in two steps: what to ask of the
//! store, from the request; and what to answer, from what the store
//! returned.

pub mod create;
pub mod delete;
pub mod edit;
pub mod view;

use vstd::prelude::*;
use vstd::string::*;

verus! {

/// The path under which the cache endpoints are mounted.
pub fn routes_path(api_base: &str) -> (res: String)
    ensures
        res@ == api_base@ + "/cache"@,
{
    let mut path = String::from_str(api_base);
    path.append("/cache");
    path
}

} // verus!
