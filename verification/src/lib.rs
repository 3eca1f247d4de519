//! Credential issuance and verification for a data-sharing server.
//!
//! The library covers the security-relevant core: tamper-evident bearer
//! tokens (an HMAC-signed, hex-encoded wire format), validation of
//! structured claim sets against an expected issuer, audience and role,
//! issuance of sharing profiles, classification of object-store locations,
//! and construction of time-limited presigned URLs for the stores.

pub mod account;
pub mod clock;
pub mod config;
pub mod error;
pub mod hex;
pub mod jwt;
pub mod profile;
pub mod share;
pub mod signed_url;
pub mod text;
pub mod token;
pub mod token_entity;
