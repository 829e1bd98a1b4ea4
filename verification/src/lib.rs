//! Verified core of an account / posting service.
//!
//! The library covers credential hashing, issue and verification of signed
//! identity tokens, resolution of a bearer header to a subject identifier,
//! and the account and post store operations, all specified against a
//! functional model of the store.  Network plumbing stays outside; the
//! store itself is held in memory with its uniqueness invariant proved.
pub mod db;
pub mod error;
pub mod hashing;
pub mod hexid;
pub mod laws;
pub mod model;
pub mod response;
pub mod schema;
pub mod strutil;
pub mod subject;
pub mod token;
