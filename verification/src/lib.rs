//! Client library for preparing, signing, broadcasting and confirming
//! smart-contract transactions against a Cosmos-style chain gateway.
//!
//! The transaction pipeline (message encoding, gas estimation, sign-document
//! construction, signing, broadcast classification, confirmation polling) is
//! verified; the cryptographic and protobuf primitives of outside crates are
//! called through a small set of trusted wrappers.

pub mod account;
pub mod assoc;
pub mod cli;
pub mod client;
pub mod config;
pub mod env;
pub mod errors;
pub mod json;
pub mod msg;
pub mod numeric;
pub mod refs;
pub mod response;
pub mod tx;
pub mod validate;
