//! The HMAC bearer-token codec.
//!
//! A token is three dot-separated, hex-encoded segments:
//! `hex(token-id) . hex(expiry-epoch-seconds) . hex(mac)`, where the MAC is
//! computed with the configured algorithm over the exact bytes of the first
//! two segments (the body).  Verification re-parses the three segments,
//! recomputes the MAC over the body and compares it against the decoded
//! signature segment; it does not compare the embedded expiry to the
//! current time — that check, if wanted, belongs to the caller.

use vstd::prelude::*;
use vstd::string::StrSliceExecFns;
use vstd::string::StringSliceAdditionalSpecFns;

use crate::clock::now_unix_millis;
use crate::error::Error;
use crate::hex::hex_bytes_of;
use crate::hex::hex_decode;
use crate::hex::hex_encode;
use crate::hex::hex_val_bytes;
use crate::hex::is_hex_seq;
use crate::hex::lemma_hex_bytes_ascii;
use crate::hex::lemma_hex_round_trip;
use crate::hex::lemma_nat_hex_ascii;
use crate::hex::nat_hex_of;
use crate::hex::u64_to_hex;
use crate::text::ascii_chars_of;
use crate::text::ascii_to_string;
use crate::text::find_byte;
use crate::text::first_byte_at;
use crate::text::lemma_first_byte_at;
use crate::text::matches_lower;
use crate::text::str_matches_lower;
use crate::text::sub_vec;

verus! {

/// The MAC widths the codec supports.
#[derive(Debug, Clone, Copy, PartialEq, Eq, Structural)]
pub enum Hasher {
    Sha224,
    Sha256,
    Sha384,
    Sha512,
}

/// The algorithm a configuration name denotes, matched case-insensitively;
/// `None` for an unrecognized name.
pub open spec fn hasher_of_name(s: Seq<char>) -> Option<Hasher> {
    if matches_lower(s, "sha224"@) {
        Some(Hasher::Sha224)
    } else if matches_lower(s, "sha256"@) {
        Some(Hasher::Sha256)
    } else if matches_lower(s, "sha384"@) {
        Some(Hasher::Sha384)
    } else if matches_lower(s, "sha512"@) {
        Some(Hasher::Sha512)
    } else {
        None
    }
}

/// The algorithm selected by a configuration name: the named one, or the
/// 256-bit default when the name is unrecognized.
pub open spec fn selected_hasher(s: Seq<char>) -> Hasher {
    match hasher_of_name(s) {
        Some(h) => h,
        None => Hasher::Sha256,
    }
}

impl Hasher {
    /// Parses an algorithm name, case-insensitively.
    pub fn from_str(name: &str) -> (r: Result<Hasher, Error>)
        ensures
            r is Ok <==> hasher_of_name(name@) is Some,
            r matches Ok(h) ==> hasher_of_name(name@) == Some(h),
            r matches Err(e) ==> e == Error::ValidationFailed,
    {
        if str_matches_lower(name, "sha224") {
            Ok(Hasher::Sha224)
        } else if str_matches_lower(name, "sha256") {
            Ok(Hasher::Sha256)
        } else if str_matches_lower(name, "sha384") {
            Ok(Hasher::Sha384)
        } else if str_matches_lower(name, "sha512") {
            Ok(Hasher::Sha512)
        } else {
            Err(Error::ValidationFailed)
        }
    }

    /// Resolves a configured algorithm name, falling back to the 256-bit
    /// default on an unrecognized name rather than failing.
    pub fn select(name: &str) -> (h: Hasher)
        ensures
            h == selected_hasher(name@),
    {
        match Hasher::from_str(name) {
            Ok(h) => h,
            Err(_) => Hasher::Sha256,
        }
    }
}

/// The MAC of `msg` under `key` with `Hmac<Sha224>`.
pub uninterp spec fn hmac_sha224(key: Seq<u8>, msg: Seq<u8>) -> Seq<u8>;

/// The MAC of `msg` under `key` with `Hmac<Sha256>`.
pub uninterp spec fn hmac_sha256(key: Seq<u8>, msg: Seq<u8>) -> Seq<u8>;

/// The MAC of `msg` under `key` with `Hmac<Sha384>`.
pub uninterp spec fn hmac_sha384(key: Seq<u8>, msg: Seq<u8>) -> Seq<u8>;

/// The MAC of `msg` under `key` with `Hmac<Sha512>`.
pub uninterp spec fn hmac_sha512(key: Seq<u8>, msg: Seq<u8>) -> Seq<u8>;

/// The MAC under the selected algorithm.
pub open spec fn mac_of(h: Hasher, key: Seq<u8>, msg: Seq<u8>) -> Seq<u8> {
    match h {
        Hasher::Sha224 => hmac_sha224(key, msg),
        Hasher::Sha256 => hmac_sha256(key, msg),
        Hasher::Sha384 => hmac_sha384(key, msg),
        Hasher::Sha512 => hmac_sha512(key, msg),
    }
}

/// The byte width of each algorithm's MAC.
pub open spec fn mac_width(h: Hasher) -> nat {
    match h {
        Hasher::Sha224 => 28,
        Hasher::Sha256 => 32,
        Hasher::Sha384 => 48,
        Hasher::Sha512 => 64,
    }
}

/// Relies on `hmac::Hmac<sha2::Sha224>` (`new_from_slice`, `update`,
/// `finalize`): the MAC is a function of key and message alone, any key
/// length is accepted, and the output is 28 bytes wide.
#[verifier::external_body]
fn mac_sha224(key: &[u8], msg: &[u8]) -> (r: Vec<u8>)
    ensures
        r@ == hmac_sha224(key@, msg@),
        r@.len() == 28,
{
    let mut m = <hmac::Hmac<sha2::Sha224> as hmac::Mac>::new_from_slice(key).unwrap();
    hmac::Mac::update(&mut m, msg);
    hmac::Mac::finalize(m).into_bytes().to_vec()
}

/// Relies on `hmac::Hmac<sha2::Sha256>` (32-byte output); see `mac_sha224`.
#[verifier::external_body]
fn mac_sha256(key: &[u8], msg: &[u8]) -> (r: Vec<u8>)
    ensures
        r@ == hmac_sha256(key@, msg@),
        r@.len() == 32,
{
    let mut m = <hmac::Hmac<sha2::Sha256> as hmac::Mac>::new_from_slice(key).unwrap();
    hmac::Mac::update(&mut m, msg);
    hmac::Mac::finalize(m).into_bytes().to_vec()
}

/// Relies on `hmac::Hmac<sha2::Sha384>` (48-byte output); see `mac_sha224`.
#[verifier::external_body]
fn mac_sha384(key: &[u8], msg: &[u8]) -> (r: Vec<u8>)
    ensures
        r@ == hmac_sha384(key@, msg@),
        r@.len() == 48,
{
    let mut m = <hmac::Hmac<sha2::Sha384> as hmac::Mac>::new_from_slice(key).unwrap();
    hmac::Mac::update(&mut m, msg);
    hmac::Mac::finalize(m).into_bytes().to_vec()
}

/// Relies on `hmac::Hmac<sha2::Sha512>` (64-byte output); see `mac_sha224`.
#[verifier::external_body]
fn mac_sha512(key: &[u8], msg: &[u8]) -> (r: Vec<u8>)
    ensures
        r@ == hmac_sha512(key@, msg@),
        r@.len() == 64,
{
    let mut m = <hmac::Hmac<sha2::Sha512> as hmac::Mac>::new_from_slice(key).unwrap();
    hmac::Mac::update(&mut m, msg);
    hmac::Mac::finalize(m).into_bytes().to_vec()
}

/// Relies on `hmac::Hmac<sha2::Sha224>::verify_slice`: succeeds exactly
/// when the tag equals the recomputed MAC (constant-time comparison), so
/// in particular only when the tag has the 28-byte output width.
#[verifier::external_body]
fn mac_sha224_check(key: &[u8], msg: &[u8], sig: &[u8]) -> (r: bool)
    ensures
        r == (sig@ == hmac_sha224(key@, msg@)),
        r ==> sig@.len() == 28,
{
    let mut m = <hmac::Hmac<sha2::Sha224> as hmac::Mac>::new_from_slice(key).unwrap();
    hmac::Mac::update(&mut m, msg);
    hmac::Mac::verify_slice(m, sig).is_ok()
}

/// Relies on `hmac::Hmac<sha2::Sha256>::verify_slice` (32-byte width);
/// see `mac_sha224_check`.
#[verifier::external_body]
fn mac_sha256_check(key: &[u8], msg: &[u8], sig: &[u8]) -> (r: bool)
    ensures
        r == (sig@ == hmac_sha256(key@, msg@)),
        r ==> sig@.len() == 32,
{
    let mut m = <hmac::Hmac<sha2::Sha256> as hmac::Mac>::new_from_slice(key).unwrap();
    hmac::Mac::update(&mut m, msg);
    hmac::Mac::verify_slice(m, sig).is_ok()
}

/// Relies on `hmac::Hmac<sha2::Sha384>::verify_slice` (48-byte width);
/// see `mac_sha224_check`.
#[verifier::external_body]
fn mac_sha384_check(key: &[u8], msg: &[u8], sig: &[u8]) -> (r: bool)
    ensures
        r == (sig@ == hmac_sha384(key@, msg@)),
        r ==> sig@.len() == 48,
{
    let mut m = <hmac::Hmac<sha2::Sha384> as hmac::Mac>::new_from_slice(key).unwrap();
    hmac::Mac::update(&mut m, msg);
    hmac::Mac::verify_slice(m, sig).is_ok()
}

/// Relies on `hmac::Hmac<sha2::Sha512>::verify_slice` (64-byte width);
/// see `mac_sha224_check`.
#[verifier::external_body]
fn mac_sha512_check(key: &[u8], msg: &[u8], sig: &[u8]) -> (r: bool)
    ensures
        r == (sig@ == hmac_sha512(key@, msg@)),
        r ==> sig@.len() == 64,
{
    let mut m = <hmac::Hmac<sha2::Sha512> as hmac::Mac>::new_from_slice(key).unwrap();
    hmac::Mac::update(&mut m, msg);
    hmac::Mac::verify_slice(m, sig).is_ok()
}

/// Computes the MAC under the selected algorithm.
fn compute_mac(h: &Hasher, key: &[u8], msg: &[u8]) -> (r: Vec<u8>)
    ensures
        r@ == mac_of(*h, key@, msg@),
        r@.len() == mac_width(*h),
{
    match h {
        Hasher::Sha224 => mac_sha224(key, msg),
        Hasher::Sha256 => mac_sha256(key, msg),
        Hasher::Sha384 => mac_sha384(key, msg),
        Hasher::Sha512 => mac_sha512(key, msg),
    }
}

/// Compares a tag against the MAC under the selected algorithm, delegating
/// to the MAC primitive's own constant-time verification.
fn mac_matches(h: &Hasher, key: &[u8], msg: &[u8], sig: &[u8]) -> (r: bool)
    ensures
        r == (sig@ == mac_of(*h, key@, msg@)),
        r ==> sig@.len() == mac_width(*h),
{
    match h {
        Hasher::Sha224 => mac_sha224_check(key, msg, sig),
        Hasher::Sha256 => mac_sha256_check(key, msg, sig),
        Hasher::Sha384 => mac_sha384_check(key, msg, sig),
        Hasher::Sha512 => mac_sha512_check(key, msg, sig),
    }
}

/// The byte the segments are separated by.
pub open spec fn dot() -> u8 {
    46
}

/// No dot occurs in the sequence.
pub open spec fn no_dot(s: Seq<u8>) -> bool {
    forall|i: int| 0 <= i < s.len() ==> s[i] != dot()
}

/// The body a token is MACed over: `hex(token-id) . hex(expiry)`.
pub open spec fn body_bytes_of(tid: Seq<u8>, exp: u64) -> Seq<u8> {
    hex_bytes_of(tid) + seq![dot()] + nat_hex_of(exp as nat)
}

/// The full wire form of a token.
pub open spec fn token_bytes_of(tid: Seq<u8>, exp: u64, h: Hasher, key: Seq<u8>) -> Seq<u8> {
    body_bytes_of(tid, exp) + seq![dot()] + hex_bytes_of(mac_of(h, key, body_bytes_of(tid, exp)))
}

/// The position of the first dot of a token.
pub open spec fn token_d1(t: Seq<u8>) -> int {
    first_byte_at(t, dot(), 0)
}

/// The position of the second dot of a token.
pub open spec fn token_d2(t: Seq<u8>) -> int {
    first_byte_at(t, dot(), token_d1(t) + 1)
}

/// A token parses exactly when it has exactly two dots: both exist, and no
/// third one follows.
pub open spec fn token_parse_ok(t: Seq<u8>) -> bool {
    &&& token_d1(t) < t.len()
    &&& token_d2(t) < t.len()
    &&& first_byte_at(t, dot(), token_d2(t) + 1) == t.len()
}

/// The body of a parseable token: everything before the second dot.
pub open spec fn token_body(t: Seq<u8>) -> Seq<u8> {
    t.subrange(0, token_d2(t))
}

/// The signature segment of a parseable token: everything after the second
/// dot.
pub open spec fn token_sig(t: Seq<u8>) -> Seq<u8> {
    t.subrange(token_d2(t) + 1, t.len() as int)
}

/// The signature segment is decodable hex.
pub open spec fn token_sig_wf(t: Seq<u8>) -> bool {
    token_sig(t).len() % 2 == 0 && is_hex_seq(token_sig(t))
}

/// A token verifies under an algorithm and key exactly when it parses, its
/// signature segment is valid hex, and that segment decodes to the MAC of
/// the body.
pub open spec fn verify_ok(t: Seq<u8>, h: Hasher, key: Seq<u8>) -> bool {
    &&& token_parse_ok(t)
    &&& token_sig_wf(t)
    &&& hex_val_bytes(token_sig(t)) == mac_of(h, key, token_body(t))
}

/// How a three-segment concatenation parses: where none of the segments
/// contains a dot, the two separators are found and the body and signature
/// segments are recovered exactly.
pub proof fn lemma_split3(a: Seq<u8>, b: Seq<u8>, c: Seq<u8>)
    requires
        no_dot(a),
        no_dot(b),
        no_dot(c),
    ensures
        token_parse_ok(a + seq![dot()] + b + seq![dot()] + c),
        token_d1(a + seq![dot()] + b + seq![dot()] + c) == a.len(),
        token_body(a + seq![dot()] + b + seq![dot()] + c) == a + seq![dot()] + b,
        token_sig(a + seq![dot()] + b + seq![dot()] + c) == c,
{
    let t = a + seq![dot()] + b + seq![dot()] + c;
    let la = a.len() as int;
    let lb = b.len() as int;
    assert(t.len() == a.len() + b.len() + c.len() + 2);
    assert forall|j: int| 0 <= j < la implies t[j] != dot() by {
        assert(t[j] == a[j]);
    }
    assert(t[la] == dot());
    assert forall|j: int| la + 1 <= j < la + 1 + lb implies t[j] != dot() by {
        assert(t[j] == b[j - la - 1]);
    }
    assert(t[la + lb + 1] == dot());
    assert forall|j: int| la + lb + 2 <= j < t.len() implies t[j] != dot() by {
        assert(t[j] == c[j - la - lb - 2]);
    }
    lemma_first_byte_at(t, dot(), 0, la);
    assert(token_d1(t) == la);
    lemma_first_byte_at(t, dot(), la + 1, la + lb + 1);
    assert(token_d2(t) == la + lb + 1);
    lemma_first_byte_at(t, dot(), la + lb + 2, t.len() as int);
    assert(token_body(t) =~= a + seq![dot()] + b);
    assert(token_sig(t) =~= c);
}

/// The parsed segments of a token's wire form: the first segment is the
/// hex-encoded token id (two characters per byte), the body splits off at
/// the second dot, and the signature segment holds two hex characters per
/// MAC byte.
pub proof fn lemma_token_segments(tid: Seq<u8>, exp: u64, h: Hasher, key: Seq<u8>)
    ensures
        token_parse_ok(token_bytes_of(tid, exp, h, key)),
        token_d1(token_bytes_of(tid, exp, h, key)) == 2 * tid.len(),
        token_bytes_of(tid, exp, h, key).subrange(0, token_d1(token_bytes_of(tid, exp, h, key)))
            == hex_bytes_of(tid),
        token_body(token_bytes_of(tid, exp, h, key)) == body_bytes_of(tid, exp),
        token_sig(token_bytes_of(tid, exp, h, key)) == hex_bytes_of(
            mac_of(h, key, body_bytes_of(tid, exp)),
        ),
        token_sig(token_bytes_of(tid, exp, h, key)).len() == 2 * mac_of(
            h,
            key,
            body_bytes_of(tid, exp),
        ).len(),
{
    let body = body_bytes_of(tid, exp);
    let mac = mac_of(h, key, body);
    lemma_hex_bytes_ascii(tid);
    lemma_nat_hex_ascii(exp as nat);
    lemma_hex_bytes_ascii(mac);
    lemma_split3(hex_bytes_of(tid), nat_hex_of(exp as nat), hex_bytes_of(mac));
    let t = token_bytes_of(tid, exp, h, key);
    assert(t =~= hex_bytes_of(tid) + seq![dot()] + nat_hex_of(exp as nat) + seq![dot()]
        + hex_bytes_of(mac));
    assert(token_body(t) == body);
    assert(t.subrange(0, token_d1(t)) =~= hex_bytes_of(tid));
}

/// A token cannot verify under an algorithm whose MAC has another width
/// than the one it was signed with: the signature segment decodes to the
/// signing MAC, whose length then differs from the checking MAC's.
pub proof fn lemma_cross_algorithm_rejected(
    tid: Seq<u8>,
    exp: u64,
    h_sign: Hasher,
    h_check: Hasher,
    key: Seq<u8>,
)
    requires
        mac_of(h_sign, key, body_bytes_of(tid, exp)).len() != mac_of(
            h_check,
            key,
            body_bytes_of(tid, exp),
        ).len(),
    ensures
        !verify_ok(token_bytes_of(tid, exp, h_sign, key), h_check, key),
{
    let body = body_bytes_of(tid, exp);
    let mac_sign = mac_of(h_sign, key, body);
    lemma_token_segments(tid, exp, h_sign, key);
    lemma_hex_round_trip(mac_sign);
    let t = token_bytes_of(tid, exp, h_sign, key);
    assert(hex_val_bytes(token_sig(t)) == mac_sign);
}

/// Every byte of a token's wire form is ASCII: hex digits and the two
/// separating dots.
pub proof fn lemma_token_bytes_ascii(tid: Seq<u8>, exp: u64, h: Hasher, key: Seq<u8>)
    ensures
        forall|i: int|
            0 <= i < token_bytes_of(tid, exp, h, key).len() ==> #[trigger] token_bytes_of(
                tid,
                exp,
                h,
                key,
            )[i] < 128,
{
    let bb = body_bytes_of(tid, exp);
    let mac = mac_of(h, key, bb);
    lemma_hex_bytes_ascii(tid);
    lemma_nat_hex_ascii(exp as nat);
    lemma_hex_bytes_ascii(mac);
    let t = token_bytes_of(tid, exp, h, key);
    assert forall|i: int| 0 <= i < t.len() implies #[trigger] t[i] < 128 by {
        if i < bb.len() {
            if i < hex_bytes_of(tid).len() {
                assert(t[i] == hex_bytes_of(tid)[i]);
            } else if i == hex_bytes_of(tid).len() {
                assert(t[i] == 46);
            } else {
                assert(t[i] == nat_hex_of(exp as nat)[i - hex_bytes_of(tid).len() - 1]);
            }
        } else if i == bb.len() {
            assert(t[i] == 46);
        } else {
            assert(t[i] == hex_bytes_of(mac)[i - bb.len() - 1]);
        }
    }
}

/// The token string reads back to the token bytes: being ASCII, the
/// characters the signer returns encode, as UTF-8, to the wire form
/// itself.  This is what lets a verifier applied to the signed string
/// reason about the wire form.
pub proof fn lemma_token_string_bytes(tid: Seq<u8>, exp: u64, h: Hasher, key: Seq<u8>)
    ensures
        vstd::utf8::encode_utf8(ascii_chars_of(token_bytes_of(tid, exp, h, key)))
            == token_bytes_of(tid, exp, h, key),
{
    lemma_token_bytes_ascii(tid, exp, h, key);
    crate::text::lemma_ascii_chars_encode(token_bytes_of(tid, exp, h, key));
}

/// Round trip: the wire form of any token id, expiry, algorithm and key
/// verifies under the same algorithm and key.
pub proof fn lemma_token_round_trip(tid: Seq<u8>, exp: u64, h: Hasher, key: Seq<u8>)
    ensures
        verify_ok(token_bytes_of(tid, exp, h, key), h, key),
{
    let body = body_bytes_of(tid, exp);
    let mac = mac_of(h, key, body);
    lemma_hex_bytes_ascii(tid);
    lemma_nat_hex_ascii(exp as nat);
    lemma_hex_bytes_ascii(mac);
    lemma_hex_round_trip(mac);
    lemma_split3(hex_bytes_of(tid), nat_hex_of(exp as nat), hex_bytes_of(mac));
    let t = token_bytes_of(tid, exp, h, key);
    assert(t =~= hex_bytes_of(tid) + seq![dot()] + nat_hex_of(exp as nat) + seq![dot()]
        + hex_bytes_of(mac));
    assert(token_body(t) == body);
}

/// The provable core of tamper detection: a token whose token-id segment
/// was replaced verifies only if the MAC of the altered body coincides
/// with the original MAC.  Where the two MACs differ — which collision
/// resistance of the MAC makes overwhelmingly likely, but which is outside
/// this model — verification fails.
pub proof fn lemma_tampered_token_rejected(
    tid1: Seq<u8>,
    tid2: Seq<u8>,
    exp: u64,
    h: Hasher,
    key: Seq<u8>,
)
    requires
        mac_of(h, key, body_bytes_of(tid2, exp)) != mac_of(h, key, body_bytes_of(tid1, exp)),
    ensures
        !verify_ok(
            body_bytes_of(tid2, exp) + seq![dot()] + hex_bytes_of(
                mac_of(h, key, body_bytes_of(tid1, exp)),
            ),
            h,
            key,
        ),
{
    let body2 = body_bytes_of(tid2, exp);
    let mac1 = mac_of(h, key, body_bytes_of(tid1, exp));
    lemma_hex_bytes_ascii(tid2);
    lemma_nat_hex_ascii(exp as nat);
    lemma_hex_bytes_ascii(mac1);
    lemma_hex_round_trip(mac1);
    lemma_split3(hex_bytes_of(tid2), nat_hex_of(exp as nat), hex_bytes_of(mac1));
    let t = body2 + seq![dot()] + hex_bytes_of(mac1);
    assert(t =~= hex_bytes_of(tid2) + seq![dot()] + nat_hex_of(exp as nat) + seq![dot()]
        + hex_bytes_of(mac1));
    assert(token_body(t) == body2);
}

/// Expiry arithmetic from a known clock reading: `now + ttl`, rejected
/// when the TTL is negative or the sum leaves the signed 64-bit range.
pub fn exp_at(now_secs: u64, ttl: i64) -> (r: Result<i64, Error>)
    ensures
        r is Ok <==> 0 <= ttl && now_secs + ttl <= i64::MAX,
        r matches Ok(e) ==> e == now_secs + ttl,
        r matches Err(e) ==> e == Error::ClockOrRange,
{
    if ttl < 0 {
        return Err(Error::ClockOrRange);
    }
    let t = ttl as u64;
    if now_secs > (i64::MAX as u64) - t {
        return Err(Error::ClockOrRange);
    }
    Ok((now_secs + t) as i64)
}

/// The expiry for a TTL from now: current epoch seconds plus the TTL.
/// A negative TTL, a failed clock, or overflow is an error, never a panic.
pub fn new_exp(ttl: i64) -> (r: Result<i64, Error>)
    ensures
        ttl < 0 ==> r is Err,
        r matches Err(e) ==> e == Error::ClockOrRange,
        r matches Ok(e) ==> 0 <= ttl <= e,
{
    match now_unix_millis() {
        None => Err(Error::ClockOrRange),
        Some(ms) => exp_at(ms / 1000, ttl),
    }
}

/// The token codec.
pub struct Utility;

impl Utility {
    /// Builds the wire form of a token for a known expiry: deterministic
    /// in all of its arguments.
    pub fn sign_with_exp(tid: &str, exp: u64, hasher: &Hasher, secret: &[u8]) -> (r: String)
        ensures
            r@ == ascii_chars_of(token_bytes_of(tid.spec_bytes(), exp, *hasher, secret@)),
            mac_of(*hasher, secret@, body_bytes_of(tid.spec_bytes(), exp)).len() == mac_width(
                *hasher,
            ),
    {
        let tid_bytes = tid.as_bytes_vec();
        let mut body = hex_encode(tid_bytes.as_slice());
        body.push(46);
        let mut exp_hex = u64_to_hex(exp);
        body.append(&mut exp_hex);
        proof {
            assert(body@ =~= body_bytes_of(tid.spec_bytes(), exp));
        }
        let mac = compute_mac(hasher, secret, body.as_slice());
        let mut sig_hex = hex_encode(mac.as_slice());
        let mut tok = body;
        tok.push(46);
        tok.append(&mut sig_hex);
        proof {
            let tb = tid.spec_bytes();
            assert(tok@ =~= token_bytes_of(tb, exp, *hasher, secret@));
            lemma_token_bytes_ascii(tb, exp, *hasher, secret@);
        }
        ascii_to_string(tok)
    }

    /// Signs a token id with a TTL in seconds: computes the expiry from
    /// the current time and MACs the body under the secret.  A negative
    /// TTL, clock failure or range overflow is reported, never a panic.
    pub fn sign(tid: String, ttl: i64, hasher: &Hasher, secret: &[u8]) -> (r: Result<String, Error>)
        ensures
            ttl < 0 ==> r is Err,
            r matches Err(e) ==> e == Error::ClockOrRange,
            r matches Ok(tok) ==> exists|exp: u64|
                ttl <= exp && tok@ == ascii_chars_of(
                    #[trigger] token_bytes_of(
                        vstd::utf8::encode_utf8(tid@),
                        exp,
                        *hasher,
                        secret@,
                    ),
                ) && mac_of(*hasher, secret@, body_bytes_of(vstd::utf8::encode_utf8(tid@), exp)).len()
                    == mac_width(*hasher),
    {
        let exp = match new_exp(ttl) {
            Ok(e) => e,
            Err(e) => {
                return Err(e);
            },
        };
        let tok = Self::sign_with_exp(tid.as_str(), exp as u64, hasher, secret);
        Ok(tok)
    }

    /// Verifies a token string: parses exactly three dot-separated
    /// segments, decodes the signature segment from hex, and compares it
    /// against the MAC recomputed over the body.  Reports the wrong shape
    /// and a signature mismatch as distinct errors.
    pub fn verify(token: &str, hasher: &Hasher, secret: &[u8]) -> (r: Result<(), Error>)
        ensures
            r is Ok <==> verify_ok(token.spec_bytes(), *hasher, secret@),
            !token_parse_ok(token.spec_bytes()) ==> r == Err::<(), Error>(Error::MalformedToken),
            token_parse_ok(token.spec_bytes()) && !token_sig_wf(token.spec_bytes()) ==> r
                == Err::<(), Error>(Error::MalformedToken),
            token_parse_ok(token.spec_bytes()) && token_sig_wf(token.spec_bytes()) && !verify_ok(
                token.spec_bytes(),
                *hasher,
                secret@,
            ) ==> r == Err::<(), Error>(Error::TamperedSignature),
            r is Ok ==> token_sig(token.spec_bytes()).len() == 2 * mac_width(*hasher),
    {
        let bytes = token.as_bytes_vec();
        let ghost t = token.spec_bytes();
        let n = bytes.len();
        let d1 = find_byte(&bytes, 46, 0);
        if d1 == n {
            assert(token_d1(t) == t.len());
            return Err(Error::MalformedToken);
        }
        let d2 = find_byte(&bytes, 46, d1 + 1);
        if d2 == n {
            assert(token_d2(t) == t.len());
            return Err(Error::MalformedToken);
        }
        let d3 = find_byte(&bytes, 46, d2 + 1);
        if d3 != n {
            assert(first_byte_at(t, dot(), token_d2(t) + 1) < t.len());
            return Err(Error::MalformedToken);
        }
        assert(token_parse_ok(t));
        let body = sub_vec(&bytes, 0, d2);
        let sig_hex = sub_vec(&bytes, d2 + 1, n);
        proof {
            assert(body@ == token_body(t));
            assert(sig_hex@ == token_sig(t));
        }
        match hex_decode(sig_hex.as_slice()) {
            None => Err(Error::MalformedToken),
            Some(sig) => {
                if mac_matches(hasher, secret, body.as_slice(), sig.as_slice()) {
                    proof {
                        assert(sig@.len() == token_sig(t).len() / 2);
                        assert(token_sig(t).len() % 2 == 0);
                    }
                    Ok(())
                } else {
                    Err(Error::TamperedSignature)
                }
            },
        }
    }
}

} // verus!
