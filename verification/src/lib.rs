//! A unified gateway over the REST trading APIs of three cryptocurrency
//! exchanges.  The heart of the crate is the per-exchange request-signing
//! protocol (canonical-string construction, HMAC-SHA256 digests, parameter
//! ordering) and the response normalizer that maps each exchange's raw JSON
//! into one shared data model.  Network transport, credential loading and the
//! monitoring loop live outside the library; it only builds requests and
//! interprets response bodies.

pub mod amount;
pub mod clock;
pub mod codec;
pub mod config;
pub mod exchange;
pub mod json;
pub mod num;
pub mod query;
pub mod sign;
pub mod types;
