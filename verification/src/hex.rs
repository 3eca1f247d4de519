//! Lowercase hex encoding and decoding over byte vectors, verified against
//! direct spec functions.
//!
//! The token wire format hex-encodes every segment, and decodes the
//! signature segment on verification.  Decoding accepts both letter cases,
//! and requires an even number of digits.

use vstd::prelude::*;

verus! {

/// The hex digit (lowercase) for a value below 16.
pub open spec fn hex_digit_of(v: u8) -> u8 {
    if v < 10 {
        (48 + v) as u8
    } else {
        (87 + v) as u8
    }
}

/// Whether a byte is an ASCII hex digit (either case).
pub open spec fn is_hex_digit(b: u8) -> bool {
    (48 <= b <= 57) || (97 <= b <= 102) || (65 <= b <= 70)
}

/// The value of an ASCII hex digit.
pub open spec fn hex_val(b: u8) -> u8 {
    if 48 <= b <= 57 {
        (b - 48) as u8
    } else if 97 <= b <= 102 {
        (b - 87) as u8
    } else {
        (b - 55) as u8
    }
}

/// The lowercase hex encoding of a byte sequence: two digits per byte,
/// high nibble first.
pub open spec fn hex_bytes_of(bs: Seq<u8>) -> Seq<u8> {
    Seq::new(
        2 * bs.len(),
        |i: int|
            if i % 2 == 0 {
                hex_digit_of(bs[i / 2] / 16)
            } else {
                hex_digit_of(bs[i / 2] % 16)
            },
    )
}

/// Whether every byte of a sequence is a hex digit.
pub open spec fn is_hex_seq(s: Seq<u8>) -> bool {
    forall|i: int| 0 <= i < s.len() ==> is_hex_digit(#[trigger] s[i])
}

/// The bytes denoted by a sequence of hex digits (even length assumed).
pub open spec fn hex_val_bytes(s: Seq<u8>) -> Seq<u8> {
    Seq::new(s.len() / 2, |i: int| (16 * hex_val(s[2 * i]) + hex_val(s[2 * i + 1])) as u8)
}

/// Hex digits of values below 16 are digits, decode back to the value,
/// and are printable ASCII below 128.
pub proof fn lemma_hex_digit_props(v: u8)
    requires
        v < 16,
    ensures
        is_hex_digit(hex_digit_of(v)),
        hex_val(hex_digit_of(v)) == v,
        hex_digit_of(v) < 128,
        hex_digit_of(v) != 46,
{
}

/// Encoding then decoding a byte sequence gives the sequence back, the
/// encoding consists of hex digits only, and its length is even.
pub proof fn lemma_hex_round_trip(bs: Seq<u8>)
    ensures
        hex_val_bytes(hex_bytes_of(bs)) =~= bs,
        is_hex_seq(hex_bytes_of(bs)),
        hex_bytes_of(bs).len() % 2 == 0,
{
    let enc = hex_bytes_of(bs);
    assert forall|i: int| 0 <= i < enc.len() implies is_hex_digit(#[trigger] enc[i]) by {
        if i % 2 == 0 {
            lemma_hex_digit_props(bs[i / 2] / 16);
        } else {
            lemma_hex_digit_props(bs[i / 2] % 16);
        }
    }
    assert forall|i: int| 0 <= i < bs.len() implies hex_val_bytes(enc)[i] == bs[i] by {
        lemma_hex_digit_props(bs[i] / 16);
        lemma_hex_digit_props(bs[i] % 16);
        assert(enc[2 * i] == hex_digit_of(bs[i] / 16));
        assert(enc[2 * i + 1] == hex_digit_of(bs[i] % 16));
        assert(bs[i] == 16 * (bs[i] / 16) + bs[i] % 16) by (nonlinear_arith);
    }
}

/// The hex encoding of any byte sequence contains no dot and no byte at or
/// above 128.
pub proof fn lemma_hex_bytes_ascii(bs: Seq<u8>)
    ensures
        forall|i: int|
            0 <= i < hex_bytes_of(bs).len() ==> #[trigger] hex_bytes_of(bs)[i] != 46
                && hex_bytes_of(bs)[i] < 128,
{
    lemma_hex_round_trip(bs);
    assert forall|i: int| 0 <= i < hex_bytes_of(bs).len() implies #[trigger] hex_bytes_of(bs)[i]
        != 46 && hex_bytes_of(bs)[i] < 128 by {
        if i % 2 == 0 {
            lemma_hex_digit_props(bs[i / 2] / 16);
        } else {
            lemma_hex_digit_props(bs[i / 2] % 16);
        }
    }
}

/// Encodes a byte slice as lowercase hex.
pub fn hex_encode(bs: &[u8]) -> (r: Vec<u8>)
    ensures
        r@ =~= hex_bytes_of(bs@),
{
    let mut out: Vec<u8> = Vec::new();
    let n = bs.len();
    for i in 0..n
        invariant
            n == bs@.len(),
            out@.len() == 2 * i,
            forall|j: int| 0 <= j < out@.len() ==> out@[j] == hex_bytes_of(bs@)[j],
    {
        let b = bs[i];
        let hi = b / 16;
        let lo = b % 16;
        out.push(if hi < 10 {
            48 + hi
        } else {
            87 + hi
        });
        out.push(if lo < 10 {
            48 + lo
        } else {
            87 + lo
        });
    }
    out
}

/// Decodes a hex string; `None` when the length is odd or a byte is not a
/// hex digit.
pub fn hex_decode(s: &[u8]) -> (r: Option<Vec<u8>>)
    ensures
        r is Some <==> s@.len() % 2 == 0 && is_hex_seq(s@),
        r matches Some(v) ==> v@ =~= hex_val_bytes(s@),
{
    let n = s.len();
    if n % 2 != 0 {
        return None;
    }
    let mut out: Vec<u8> = Vec::new();
    let mut i: usize = 0;
    while i < n
        invariant
            n == s@.len(),
            n % 2 == 0,
            i % 2 == 0,
            i <= n,
            out@.len() == i / 2,
            forall|j: int| 0 <= j < i ==> is_hex_digit(#[trigger] s@[j]),
            forall|j: int| 0 <= j < out@.len() ==> out@[j] == hex_val_bytes(s@)[j],
        decreases n - i,
    {
        let hi = s[i];
        let lo = s[i + 1];
        let hv = if 48 <= hi && hi <= 57 {
            hi - 48
        } else if 97 <= hi && hi <= 102 {
            hi - 87
        } else if 65 <= hi && hi <= 70 {
            hi - 55
        } else {
            return None;
        };
        let lv = if 48 <= lo && lo <= 57 {
            lo - 48
        } else if 97 <= lo && lo <= 102 {
            lo - 87
        } else if 65 <= lo && lo <= 70 {
            lo - 55
        } else {
            return None;
        };
        out.push(16 * hv + lv);
        i = i + 2;
    }
    Some(out)
}

/// The minimal lowercase hex form of a natural number, as `{:x}` prints it:
/// no leading zeroes, a single `0` for zero.
pub open spec fn nat_hex_of(v: nat) -> Seq<u8>
    decreases v,
{
    if v < 16 {
        seq![hex_digit_of(v as u8)]
    } else {
        nat_hex_of(v / 16).push(hex_digit_of((v % 16) as u8))
    }
}

/// The minimal hex form consists of hex digits, so no dot and nothing at
/// or above 128.
pub proof fn lemma_nat_hex_ascii(v: nat)
    ensures
        is_hex_seq(nat_hex_of(v)),
        forall|i: int|
            0 <= i < nat_hex_of(v).len() ==> #[trigger] nat_hex_of(v)[i] != 46 && nat_hex_of(
                v,
            )[i] < 128,
    decreases v,
{
    if v < 16 {
        lemma_hex_digit_props(v as u8);
    } else {
        lemma_nat_hex_ascii(v / 16);
        lemma_hex_digit_props((v % 16) as u8);
    }
}

/// Formats a `u64` the way `{:x}` does: minimal lowercase hex.
pub fn u64_to_hex(v: u64) -> (r: Vec<u8>)
    ensures
        r@ =~= nat_hex_of(v as nat),
{
    let mut rev: Vec<u8> = Vec::new();
    let mut x = v;
    while x >= 16
        invariant
            nat_hex_of(v as nat) =~= nat_hex_of(x as nat) + rev@.reverse(),
        decreases x,
    {
        let d = (x % 16) as u8;
        let ghost old_rev = rev@;
        rev.push(if d < 10 {
            48 + d
        } else {
            87 + d
        });
        proof {
            assert(rev@.reverse() =~= seq![hex_digit_of((x % 16) as u8)] + old_rev.reverse());
            assert(nat_hex_of(x as nat) + old_rev.reverse() =~= nat_hex_of((x / 16) as nat) + (
            seq![hex_digit_of((x % 16) as u8)] + old_rev.reverse()));
        }
        x = x / 16;
    }
    let d = x as u8;
    let ghost rev_full = rev@;
    rev.push(if d < 10 {
        48 + d
    } else {
        87 + d
    });
    proof {
        assert(rev@.reverse() =~= seq![hex_digit_of(x as u8)] + rev_full.reverse());
        assert(nat_hex_of(v as nat) =~= seq![hex_digit_of(x as u8)] + rev_full.reverse());
    }
    let mut out: Vec<u8> = Vec::new();
    let mut i = rev.len();
    while i > 0
        invariant
            i <= rev@.len(),
            out@.len() + i == rev@.len(),
            forall|j: int| 0 <= j < out@.len() ==> out@[j] == rev@.reverse()[j],
        decreases i,
    {
        i = i - 1;
        out.push(rev[i]);
    }
    assert(out@ =~= rev@.reverse());
    out
}

} // verus!
