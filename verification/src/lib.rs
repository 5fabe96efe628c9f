//! Signed developer tokens for a platform that authenticates backend services
//! with ES256 tokens: a header and a set of time-bounded claims, each written
//! as its own JSON document, base64url-encoded without padding, joined by a
//! dot, signed, and joined with the signature.

pub mod auth;
pub mod clock;
pub mod encoding;
pub mod error;
pub mod json;
pub mod signing;
pub mod token;
