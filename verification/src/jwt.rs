//! The claims-based token scheme: the structured claim set, the role a
//! request path demands, and the validation decisions — issuer equality,
//! audience membership, expiry, role gating.
//!
//! Encoding a claim set to its compact signed serialization and decoding
//! it back runs through a serialization library that stays outside the
//! verified core; the decisions on the decoded values live here.

use vstd::prelude::*;

use crate::clock::format_utc_millis;
use crate::clock::now_unix_millis;
use crate::clock::utc_display_of;
use crate::error::Error;
use crate::text::find_char;
use crate::text::first_at;
use crate::text::first_not;
use crate::text::matches_lower;
use crate::text::skip_char;
use crate::text::str_eq;
use crate::text::str_matches_lower;
use crate::text::substring;

verus! {

/// The role a claim set carries, and the role a path requires.
#[derive(Debug, Clone, Copy, PartialEq, Eq, Structural)]
pub enum Role {
    Admin,
    Guest,
}

/// The role a name denotes, matched case-insensitively; `None` for an
/// unrecognized name.
pub open spec fn role_of_name(s: Seq<char>) -> Option<Role> {
    if matches_lower(s, "admin"@) {
        Some(Role::Admin)
    } else if matches_lower(s, "guest"@) {
        Some(Role::Guest)
    } else {
        None
    }
}

impl Role {
    /// Parses a role name, case-insensitively.
    pub fn from_str(name: &str) -> (r: Result<Role, Error>)
        ensures
            r is Ok <==> role_of_name(name@) is Some,
            r matches Ok(x) ==> role_of_name(name@) == Some(x),
            r matches Err(e) ==> e == Error::ValidationFailed,
    {
        if str_matches_lower(name, "admin") {
            Ok(Role::Admin)
        } else if str_matches_lower(name, "guest") {
            Ok(Role::Guest)
        } else {
            Err(Error::ValidationFailed)
        }
    }
}

/// The first path segment: what stands between the leading run of
/// separators and the next separator.
pub open spec fn first_segment_of(p: Seq<char>) -> Seq<char> {
    let start = first_not(p, '/', 0);
    let end = first_at(p, '/', start);
    p.subrange(start, end)
}

/// The role a request path requires: its first segment parsed as a role
/// name, with unrecognized or empty segments demanding only Guest.
pub open spec fn required_role_spec(p: Seq<char>) -> Role {
    match role_of_name(first_segment_of(p)) {
        Some(r) => r,
        None => Role::Guest,
    }
}

/// Derives the role a request path requires from its first segment.
pub fn required_role_of(path: &str) -> (r: Role)
    ensures
        r == required_role_spec(path@),
{
    let start = skip_char(path, '/', 0);
    let end = find_char(path, '/', start);
    let seg = substring(path, start, end);
    match Role::from_str(seg.as_str()) {
        Ok(role) => role,
        Err(_) => Role::Guest,
    }
}

/// A structured claim set: issuer, subject, audiences, token id, role and
/// expiry in epoch seconds.
#[derive(Debug, Clone)]
pub struct Claims {
    pub iss: String,
    pub sub: String,
    pub aud: Vec<String>,
    pub jti: String,
    pub role: Role,
    pub exp: i64,
}

/// Whether an audience list carries the expected audience.
pub open spec fn aud_contains(auds: Seq<String>, a: Seq<char>) -> bool {
    exists|i: int| 0 <= i < auds.len() && #[trigger] auds[i]@ == a
}

/// Whether a claim set passes validation against an expected issuer and
/// audience at a given time: issuer equal, audience listed, not expired.
pub open spec fn claims_accepted(c: Claims, iss: Seq<char>, aud: Seq<char>, now: i64) -> bool {
    &&& c.iss@ == iss
    &&& aud_contains(c.aud@, aud)
    &&& c.exp > now
}

/// Whether a claim set satisfies the role a path requires: paths that
/// require only Guest accept any claims; paths that require Admin reject
/// Guest claims.
pub open spec fn role_allows(c: Claims, path: Seq<char>) -> bool {
    required_role_spec(path) == Role::Guest || c.role == Role::Admin
}

impl Claims {
    /// Validates the claim set against the expected issuer and audience
    /// at the given time.  Every failure is reported as the same
    /// Unauthorized outcome: which check failed is not leaked.
    pub fn validate(&self, expected_iss: &str, expected_aud: &str, now_secs: i64) -> (r: Result<
        (),
        Error,
    >)
        ensures
            r is Ok <==> claims_accepted(*self, expected_iss@, expected_aud@, now_secs),
            r matches Err(e) ==> e == Error::Unauthorized,
    {
        if !str_eq(self.iss.as_str(), expected_iss) {
            return Err(Error::Unauthorized);
        }
        let n = self.aud.len();
        let mut i: usize = 0;
        let mut found = false;
        while i < n
            invariant
                n == self.aud@.len(),
                i <= n,
                found ==> aud_contains(self.aud@, expected_aud@),
                !found ==> forall|j: int| 0 <= j < i ==> #[trigger] self.aud@[j]@ != expected_aud@,
            decreases n - i,
        {
            if str_eq(self.aud[i].as_str(), expected_aud) {
                found = true;
                i = n;
            } else {
                i = i + 1;
            }
        }
        if !found {
            return Err(Error::Unauthorized);
        }
        if self.exp <= now_secs {
            return Err(Error::Unauthorized);
        }
        Ok(())
    }

    /// Applies role gating for a request path: rejects a Guest claim set
    /// where the path requires Admin.
    pub fn authorize(&self, path: &str) -> (r: Result<(), Error>)
        ensures
            r is Ok <==> role_allows(*self, path@),
            r matches Err(e) ==> e == Error::Unauthorized,
    {
        let required = required_role_of(path);
        if required == Role::Guest {
            return Ok(());
        }
        if self.role == Role::Guest {
            return Err(Error::Unauthorized);
        }
        Ok(())
    }
}

/// Audience enforcement: a claim set whose audience list does not carry
/// the expected audience fails validation, whatever its other fields.
pub proof fn lemma_audience_mismatch_rejected(c: Claims, iss: Seq<char>, aud: Seq<char>, now: i64)
    requires
        forall|i: int| 0 <= i < c.aud@.len() ==> #[trigger] c.aud@[i]@ != aud,
    ensures
        !claims_accepted(c, iss, aud, now),
{
}

/// Role gating: a path that requires Admin rejects Guest claims, and a
/// path that requires only Guest accepts claims of any role.
pub proof fn lemma_role_gating(c: Claims, path: Seq<char>)
    ensures
        required_role_spec(path) == Role::Admin && c.role == Role::Guest ==> !role_allows(c, path),
        required_role_spec(path) == Role::Guest ==> role_allows(c, path),
{
}

/// Millisecond expiry arithmetic from a known clock reading: the reading
/// plus a thousandfold TTL, rejected when the TTL is negative or either
/// product or sum leaves the signed 64-bit range.
pub fn expiry_millis_at(now_ms: u64, ttl: i64) -> (r: Result<i64, Error>)
    ensures
        r is Ok <==> 0 <= ttl && 1000 * ttl <= i64::MAX && now_ms + 1000 * ttl <= i64::MAX,
        r matches Ok(m) ==> m == now_ms + 1000 * ttl,
        r matches Err(e) ==> e == Error::ClockOrRange,
{
    if ttl < 0 {
        return Err(Error::ClockOrRange);
    }
    let t = ttl as u64;
    if t > (i64::MAX as u64) / 1000 {
        return Err(Error::ClockOrRange);
    }
    let add = t * 1000;
    if now_ms > (i64::MAX as u64) - add {
        return Err(Error::ClockOrRange);
    }
    Ok((now_ms + add) as i64)
}

/// The expiry for a TTL from now, in epoch milliseconds, together with
/// its UTC rendering.  The returned value is the clock reading plus a
/// thousandfold TTL, through `expiry_millis_at`; a negative TTL, a failed
/// clock, or a value out of range is an error, never a panic.
pub fn expires_in(ttl: i64) -> (r: Result<(i64, String), Error>)
    ensures
        ttl < 0 ==> r is Err,
        r matches Err(e) ==> e == Error::ClockOrRange,
        r matches Ok(p) ==> 0 <= 1000 * ttl <= p.0 && (utc_display_of(p.0) matches Some(d) && p.1@
            == d),
{
    let now = match now_unix_millis() {
        None => {
            return Err(Error::ClockOrRange);
        },
        Some(m) => m,
    };
    let millis = match expiry_millis_at(now, ttl) {
        Ok(m) => m,
        Err(e) => {
            return Err(e);
        },
    };
    match format_utc_millis(millis) {
        None => Err(Error::ClockOrRange),
        Some(s) => Ok((millis, s)),
    }
}

} // verus!
