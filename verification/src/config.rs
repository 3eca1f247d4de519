//! The process-wide configuration the core reads: the server address used
//! in endpoints, issuers and audiences, the signing secret, and the
//! selected MAC algorithm.  It is built once at startup and passed by
//! reference into every operation; nothing here is mutated afterwards.

use vstd::prelude::*;

use crate::token::selected_hasher;
use crate::token::Hasher;

verus! {

/// The immutable configuration of the credential core.
pub struct Config {
    /// The server base address, used verbatim in endpoint, issuer and
    /// audience strings.
    pub server_addr: String,
    /// The opaque signing secret.
    pub secret: Vec<u8>,
    /// The MAC algorithm every signing and verifying operation uses.
    pub hasher: Hasher,
}

impl Config {
    /// Builds the configuration, resolving the algorithm name with the
    /// documented fallback to the 256-bit default.
    pub fn new(server_addr: String, secret: Vec<u8>, hasher_name: &str) -> (c: Config)
        ensures
            c.server_addr == server_addr,
            c.secret == secret,
            c.hasher == selected_hasher(hasher_name@),
    {
        Config { server_addr, secret, hasher: Hasher::select(hasher_name) }
    }
}

} // verus!
