//! Signed request construction and order-lifecycle rules for an exchange's
//! account and trading REST endpoints.
//!
//! A typed request is turned into a canonical parameter set, authenticated
//! with HMAC-SHA256 and handed back as a ready-to-send query string together
//! with the verb and path it belongs to. Nothing here performs I/O.

pub mod account;
pub mod decimal;
pub mod error;
pub mod model;
pub mod params;
pub mod signer;
pub mod text;
