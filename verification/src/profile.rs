//! Profile issuance: the endpoint a recipient talks to, a bearer token
//! from the codec, and a human-readable expiration timestamp, bundled
//! under the fixed protocol version.

use vstd::prelude::*;
use vstd::string::StringExecFns;

use crate::clock::now_unix_millis;
use crate::clock::utc_display_of;
use crate::clock::format_utc_millis;
use crate::config::Config;
use crate::error::Error;
use crate::text::ascii_chars_of;
use crate::token::body_bytes_of;
use crate::token::exp_at;
use crate::token::mac_of;
use crate::token::mac_width;
use crate::token::token_bytes_of;
use crate::token::Utility as TokenUtility;

verus! {

/// The protocol version every issued profile carries.
pub const VERSION: i32 = 1;

/// What an issuance request returns to the recipient.
#[derive(Debug, Clone)]
pub struct Profile {
    /// Always `VERSION`.
    pub share_credentials_version: i32,
    /// The sharing endpoint for the provider.
    pub endpoint: String,
    /// The bearer token the recipient presents.
    pub bearer_token: String,
    /// The token's expiry, rendered as a UTC timestamp.
    pub expiration_time: String,
}

/// The endpoint a provider's shares are served under.
pub open spec fn endpoint_of(addr: Seq<char>, provider: Seq<char>) -> Seq<char> {
    addr + "/sharing/"@ + provider
}

/// Builds the sharing endpoint for a provider.
pub fn new_endpoint(server_addr: &str, provider: &str) -> (r: String)
    ensures
        r@ == endpoint_of(server_addr@, provider@),
{
    let mut s = String::from_str(server_addr);
    s.append("/sharing/");
    s.append(provider);
    s
}

/// Renders an expiry, given in epoch seconds, as a UTC timestamp string.
/// Out-of-range values are an error, never a panic.
pub fn expiration_time_from(exp_secs: i64) -> (r: Result<String, Error>)
    ensures
        r is Ok <==> (i64::MIN <= 1000 * exp_secs <= i64::MAX && utc_display_of(
            (1000 * exp_secs) as i64,
        ) is Some),
        r matches Ok(s) ==> utc_display_of((1000 * exp_secs) as i64) matches Some(d) && s@ == d,
        r matches Err(e) ==> e == Error::ClockOrRange,
{
    let ms = match exp_secs.checked_mul(1000) {
        None => {
            return Err(Error::ClockOrRange);
        },
        Some(m) => m,
    };
    match format_utc_millis(ms) {
        None => Err(Error::ClockOrRange),
        Some(s) => Ok(s),
    }
}

/// The expiration timestamp for a TTL from now: the rendering of an
/// expiry, in epoch seconds, at least the TTL past the epoch reading.  A
/// negative TTL, a failed clock, or an out-of-range value is an error,
/// never a panic.
pub fn new_expiration_time(ttl: i64) -> (r: Result<String, Error>)
    ensures
        ttl < 0 ==> r is Err,
        r matches Err(e) ==> e == Error::ClockOrRange,
        r matches Ok(s) ==> exists|e: i64|
            0 <= ttl <= e && 1000 * e <= i64::MAX && (#[trigger] utc_display_of((1000 * e) as i64)
                matches Some(d) && s@ == d),
{
    let now = match now_unix_millis() {
        None => {
            return Err(Error::ClockOrRange);
        },
        Some(m) => m,
    };
    let exp_secs = match exp_at(now / 1000, ttl) {
        Ok(e) => e,
        Err(e) => {
            return Err(e);
        },
    };
    expiration_time_from(exp_secs)
}

/// The profile issuer.
pub struct Service;

impl Service {
    /// Issues a profile for a token id, provider and TTL under the given
    /// configuration: the provider's endpoint, a bearer token signed by
    /// the codec, and the rendered expiration time.
    pub fn issue(id: String, provider: String, ttl: i64, config: &Config) -> (r: Result<
        Profile,
        Error,
    >)
        ensures
            ttl < 0 ==> r is Err,
            r matches Err(e) ==> e == Error::ClockOrRange,
            r matches Ok(p) ==> {
                &&& p.share_credentials_version == VERSION
                &&& p.endpoint@ == endpoint_of(config.server_addr@, provider@)
                &&& exists|exp: u64|
                    ttl <= exp && p.bearer_token@ == ascii_chars_of(
                        #[trigger] token_bytes_of(
                            vstd::utf8::encode_utf8(id@),
                            exp,
                            config.hasher,
                            config.secret@,
                        ),
                    ) && mac_of(
                        config.hasher,
                        config.secret@,
                        body_bytes_of(vstd::utf8::encode_utf8(id@), exp),
                    ).len() == mac_width(config.hasher)
                &&& exists|e: i64|
                    0 <= ttl <= e && 1000 * e <= i64::MAX && (#[trigger] utc_display_of(
                        (1000 * e) as i64,
                    ) matches Some(d) && p.expiration_time@ == d)
            },
    {
        let endpoint = new_endpoint(config.server_addr.as_str(), provider.as_str());
        let token = match TokenUtility::sign(id, ttl, &config.hasher, config.secret.as_slice()) {
            Ok(t) => t,
            Err(e) => {
                return Err(e);
            },
        };
        let expiration_time = match new_expiration_time(ttl) {
            Ok(s) => s,
            Err(e) => {
                return Err(e);
            },
        };
        Ok(
            Profile {
                share_credentials_version: VERSION,
                endpoint,
                bearer_token: token,
                expiration_time,
            },
        )
    }
}

} // verus!
