//! Verified core of a bearer-token authentication boundary.
//!
//! The library checks JSON Web Tokens signed with RS256 against RSA public
//! keys discovered through a JSON Web Key Set (JWKS) document.  It covers
//! Bearer-header extraction, token structure and base64url decoding, claim
//! validation, and the concurrency-safe caching discipline for discovered
//! keys.  Network I/O and async plumbing live outside the library; callers
//! hand in bytes, strings and timestamps and receive typed outcomes.

pub mod b64;
pub mod errors;
pub mod gate;
pub mod health;
pub mod json;
pub mod keys;
pub mod models;
pub mod resolver;
pub mod store;
pub mod token;
pub mod validate;
