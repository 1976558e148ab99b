//! Typed client library for a cryptocurrency exchange's public spot REST API.
//!
//! The library provides the request parameter structures, the response
//! payload structures and their JSON decoding, the enum catalog with its wire
//! tokens, URL and query-string construction, and a credential wrapper.
//! Network transport is left to the caller; every function here is pure
//! computation over the values it is given.

pub mod client;
pub mod codec;
pub mod crypto;
pub mod decimal;
pub mod enums;
pub mod error;
pub mod json;
pub mod params;
pub mod payloads;
pub mod query;
pub mod text;
pub mod url;
