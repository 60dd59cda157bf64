//! Request authorization, geographic bounds and store commands of a geocache API.
//!
//! Every function here works on plain values: the caller reads the request,
//! talks to the identity service and to the document store, and hands over
//! what it found.

pub mod status;
pub mod login_service;
pub mod routes;
pub mod db;
pub mod auth;
pub mod text;
pub mod catchers;

pub use catchers::{not_found_catcher, unhandled_catcher};
pub use status::ResponseError;
