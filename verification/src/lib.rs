//! Credential-and-session subsystem: password policy enforcement, password
//! hashing and verification, dual-token (access + refresh) issuance, refresh
//! token single-use rotation with reuse detection, and the request-time
//! verification gate that admits or rejects calls based on token validity and
//! account state.

pub mod avatar;
pub mod config;
pub mod cookies;
pub mod cursor;
pub mod digest;
pub mod dtos;
pub mod error;
pub mod friends;
pub mod gate;
pub mod hasher;
pub mod issuer;
pub mod laws;
pub mod policy;
pub mod store;
pub mod strutil;
pub mod token;

pub use error::AuthError;
pub use policy::validate_password;
