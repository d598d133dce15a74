//! A URL-shortening service core: a keyed store of short identifiers to
//! destination URLs, the request handlers that turn storage outcomes into
//! HTTP responses, and the routing table that dispatches requests.
//!
//! Everything observable about a response (status code, body text, the
//! `Location` header) is stated in contracts and proved. The HTTP server
//! itself, JSON deserialization of request bodies and the real database
//! backend live outside this crate; they exchange plain values with it.

pub mod handlers;
pub mod json;
pub mod model;
pub mod router;
pub mod store;
pub mod text;
