//! Error kinds reported by the library.
//!
//! Every fallible operation returns one of these variants explicitly;
//! nothing in the library panics on attacker-controlled input.

use vstd::prelude::*;

verus! {

/// The failure kinds of the credential core.
#[derive(Debug, Clone, Copy, PartialEq, Eq, Structural)]
pub enum Error {
    /// A token string has the wrong shape: wrong segment count, or a
    /// segment that is not valid hex.
    MalformedToken,
    /// The recomputed MAC does not match the signature segment.
    TamperedSignature,
    /// A TTL or duration conversion overflowed, or the system clock failed.
    ClockOrRange,
    /// A claim set failed issuer, audience, expiry or role checks.
    Unauthorized,
    /// A storage location string is not a parseable URL.
    MalformedUrl,
    /// A bucket name breaks the store's naming rules.
    InvalidBucketName,
    /// An object name breaks the store's naming rules.
    InvalidObjectName,
    /// The provider signing step failed, or produced an unparseable URL.
    SigningFailure,
    /// A value object (name, email, image, token value, identifier) failed
    /// its validation rule.
    ValidationFailed,
}

impl Error {
    /// A short human-readable description of the error kind.
    pub fn message(&self) -> (m: &'static str)
        ensures m@.len() > 0,
    {
        proof {
            reveal_strlit("failed to parse token");
            reveal_strlit("token signature mismatch");
            reveal_strlit("ttl or clock out of range");
            reveal_strlit("unauthorized");
            reveal_strlit("failed to parse URL");
            reveal_strlit("failed to parse bucket name");
            reveal_strlit("failed to parse object name");
            reveal_strlit("failed to sign URL");
            reveal_strlit("validation failed");
        }
        match self {
            Error::MalformedToken => "failed to parse token",
            Error::TamperedSignature => "token signature mismatch",
            Error::ClockOrRange => "ttl or clock out of range",
            Error::Unauthorized => "unauthorized",
            Error::MalformedUrl => "failed to parse URL",
            Error::InvalidBucketName => "failed to parse bucket name",
            Error::InvalidObjectName => "failed to parse object name",
            Error::SigningFailure => "failed to sign URL",
            Error::ValidationFailed => "validation failed",
        }
    }
}

} // verus!
