//! Verified helpers over strings and byte vectors: equality, prefix,
//! substring search, first-occurrence scans, and the bridge between ASCII
//! byte sequences and character sequences.

use vstd::prelude::*;

verus! {

/// The characters denoted by a byte sequence read as ASCII codes.
pub open spec fn ascii_chars_of(bs: Seq<u8>) -> Seq<char> {
    Seq::new(bs.len(), |i: int| bs[i] as char)
}

/// Bytes below 128 encode, as UTF-8, to exactly themselves under
/// `ascii_chars_of`.
pub proof fn lemma_ascii_chars_encode(bs: Seq<u8>)
    requires
        forall|i: int| 0 <= i < bs.len() ==> bs[i] < 128,
    ensures
        vstd::utf8::is_ascii_chars(ascii_chars_of(bs)),
        vstd::utf8::encode_utf8(ascii_chars_of(bs)) =~= bs,
{
    let cs = ascii_chars_of(bs);
    assert forall|i: int| 0 <= i < cs.len() implies '\0' <= #[trigger] cs[i] <= '\u{7f}' by {
        assert(bs[i] < 128);
        assert(cs[i] == bs[i] as char);
    }
    vstd::utf8::is_ascii_chars_encode_utf8(cs);
    assert forall|i: int| 0 <= i < bs.len() implies vstd::utf8::encode_utf8(cs)[i] == bs[i] by {
        assert(cs[i] as u8 == vstd::utf8::encode_utf8(cs)[i]);
        assert((bs[i] as char) as u8 == bs[i]);
    }
}

/// Relies on `String::from_utf8`: a sequence of bytes below 128 is valid
/// UTF-8 and decodes to the characters with the same code points.
#[verifier::external_body]
pub(crate) fn ascii_to_string(bytes: Vec<u8>) -> (r: String)
    requires
        forall|i: int| 0 <= i < bytes@.len() ==> bytes@[i] < 128,
    ensures
        r@ == ascii_chars_of(bytes@),
{
    String::from_utf8(bytes).unwrap_or_default()
}

/// Exact string equality.
pub fn str_eq(a: &str, b: &str) -> (r: bool)
    ensures
        r == (a@ == b@),
{
    let n = a.unicode_len();
    if n != b.unicode_len() {
        assert(a@.len() != b@.len());
        return false;
    }
    for i in 0..n
        invariant
            n == a@.len(),
            n == b@.len(),
            forall|j: int| 0 <= j < i ==> a@[j] == b@[j],
    {
        if a.get_char(i) != b.get_char(i) {
            return false;
        }
    }
    proof {
        assert(a@ =~= b@);
    }
    true
}

/// Case-insensitive match of one character against a lowercase pattern
/// character: equal outright, or the ASCII uppercase form of it.
pub open spec fn char_matches_lower(a: char, b: char) -> bool {
    a == b || (65 <= a as u32 <= 90 && a as u32 + 32 == b as u32)
}

/// Case-insensitive match of a string against a lowercase pattern.
pub open spec fn matches_lower(a: Seq<char>, b: Seq<char>) -> bool {
    a.len() == b.len() && forall|i: int| 0 <= i < a.len() ==> char_matches_lower(a[i], b[i])
}

/// Compares a string against an ASCII-lowercase pattern, ignoring ASCII
/// case in the input.
pub fn str_matches_lower(a: &str, b: &str) -> (r: bool)
    ensures
        r == matches_lower(a@, b@),
{
    let n = a.unicode_len();
    if n != b.unicode_len() {
        return false;
    }
    for i in 0..n
        invariant
            n == a@.len(),
            n == b@.len(),
            forall|j: int| 0 <= j < i ==> char_matches_lower(a@[j], b@[j]),
    {
        let ca = a.get_char(i) as u32;
        let cb = b.get_char(i) as u32;
        if !(ca == cb || (65 <= ca && ca <= 90 && ca + 32 == cb)) {
            assert(!char_matches_lower(a@[i as int], b@[i as int]));
            return false;
        }
        assert(char_matches_lower(a@[i as int], b@[i as int]));
    }
    true
}

/// Whether `p` is a prefix of `s`.
pub open spec fn has_prefix(s: Seq<char>, p: Seq<char>) -> bool {
    p.len() <= s.len() && s.subrange(0, p.len() as int) == p
}

/// Prefix test.
pub fn str_has_prefix(s: &str, p: &str) -> (r: bool)
    ensures
        r == has_prefix(s@, p@),
{
    let pn = p.unicode_len();
    if pn > s.unicode_len() {
        return false;
    }
    for i in 0..pn
        invariant
            pn == p@.len(),
            pn <= s@.len(),
            forall|j: int| 0 <= j < i ==> s@[j] == p@[j],
    {
        if s.get_char(i) != p.get_char(i) {
            assert(s@.subrange(0, pn as int)[i as int] != p@[i as int]);
            return false;
        }
    }
    proof {
        assert(s@.subrange(0, pn as int) =~= p@);
    }
    true
}

/// Whether `n` occurs as a contiguous subsequence of `s`.
pub open spec fn contains_seq(s: Seq<char>, n: Seq<char>) -> bool {
    exists|i: int| 0 <= i <= s.len() - n.len() && #[trigger] s.subrange(i, i + n.len()) == n
}

/// Substring search.
pub fn str_contains(s: &str, needle: &str) -> (r: bool)
    ensures
        r == contains_seq(s@, needle@),
{
    let sn = s.unicode_len();
    let nn = needle.unicode_len();
    if nn > sn {
        return false;
    }
    if nn == 0 {
        proof {
            assert(s@.subrange(0, 0 + needle@.len() as int) =~= needle@);
        }
        return true;
    }
    let mut i: usize = 0;
    while i <= sn - nn
        invariant
            sn == s@.len(),
            nn == needle@.len(),
            1 <= nn <= sn,
            i <= sn - nn + 1,
            forall|k: int| 0 <= k < i ==> #[trigger] s@.subrange(k, k + nn as int) != needle@,
        decreases sn + 1 - nn - i,
    {
        let mut j: usize = 0;
        let mut hit = true;
        while j < nn
            invariant
                sn == s@.len(),
                nn == needle@.len(),
                i + nn <= sn,
                j <= nn,
                hit ==> forall|l: int| 0 <= l < j ==> s@[i + l] == needle@[l],
                !hit ==> s@.subrange(i as int, i + nn as int) != needle@,
            decreases nn - j,
        {
            if s.get_char(i + j) != needle.get_char(j) {
                assert(s@.subrange(i as int, i + nn as int)[j as int] != needle@[j as int]);
                hit = false;
                j = nn;
            } else {
                j = j + 1;
            }
        }
        if hit {
            proof {
                assert(s@.subrange(i as int, i + nn as int) =~= needle@);
            }
            return true;
        }
        i = i + 1;
    }
    false
}

/// The index of the first occurrence of `c` in `s` at or after `i`, or the
/// length of `s` when there is none.
pub open spec fn first_at(s: Seq<char>, c: char, i: int) -> int
    decreases s.len() - i,
{
    if i < 0 || i >= s.len() {
        s.len() as int
    } else if s[i] == c {
        i
    } else {
        first_at(s, c, i + 1)
    }
}

/// Scans for the first occurrence of `c` at or after `from`.
pub fn find_char(s: &str, c: char, from: usize) -> (r: usize)
    requires
        from <= s@.len(),
    ensures
        r == first_at(s@, c, from as int),
        from <= r <= s@.len(),
        r < s@.len() ==> s@[r as int] == c,
        forall|j: int| from <= j < r ==> s@[j] != c,
{
    let n = s.unicode_len();
    let mut i = from;
    while i < n
        invariant
            n == s@.len(),
            from <= i <= n,
            first_at(s@, c, from as int) == first_at(s@, c, i as int),
            forall|j: int| from <= j < i ==> s@[j] != c,
        decreases n - i,
    {
        if s.get_char(i) == c {
            return i;
        }
        proof {
            assert(first_at(s@, c, i as int) == first_at(s@, c, i + 1));
        }
        i = i + 1;
    }
    i
}

/// The index of the first character in `s` at or after `i` that differs
/// from `c`, or the length of `s`.
pub open spec fn first_not(s: Seq<char>, c: char, i: int) -> int
    decreases s.len() - i,
{
    if i < 0 || i >= s.len() {
        s.len() as int
    } else if s[i] != c {
        i
    } else {
        first_not(s, c, i + 1)
    }
}

/// Scans past a run of `c` starting at `from`.
pub fn skip_char(s: &str, c: char, from: usize) -> (r: usize)
    requires
        from <= s@.len(),
    ensures
        r == first_not(s@, c, from as int),
        from <= r <= s@.len(),
        r < s@.len() ==> s@[r as int] != c,
        forall|j: int| from <= j < r ==> s@[j] == c,
{
    let n = s.unicode_len();
    let mut i = from;
    while i < n
        invariant
            n == s@.len(),
            from <= i <= n,
            first_not(s@, c, from as int) == first_not(s@, c, i as int),
            forall|j: int| from <= j < i ==> s@[j] == c,
        decreases n - i,
    {
        if s.get_char(i) != c {
            return i;
        }
        proof {
            assert(first_not(s@, c, i as int) == first_not(s@, c, i + 1));
        }
        i = i + 1;
    }
    i
}

/// The index of the first occurrence of byte `b` in `s` at or after `i`,
/// or the length of `s`.
pub open spec fn first_byte_at(s: Seq<u8>, b: u8, i: int) -> int
    decreases s.len() - i,
{
    if i < 0 || i >= s.len() {
        s.len() as int
    } else if s[i] == b {
        i
    } else {
        first_byte_at(s, b, i + 1)
    }
}

/// Where a byte sequence has no occurrence of `b` between `i` and `k`, and
/// either `k` is the end or holds `b`, the first occurrence from `i` is
/// `k` (or the length when `k` is the end).
pub proof fn lemma_first_byte_at(s: Seq<u8>, b: u8, i: int, k: int)
    requires
        0 <= i <= k <= s.len(),
        forall|j: int| i <= j < k ==> s[j] != b,
        k == s.len() || s[k] == b,
    ensures
        first_byte_at(s, b, i) == if k < s.len() {
            k
        } else {
            s.len() as int
        },
    decreases k - i,
{
    if i < k {
        lemma_first_byte_at(s, b, i + 1, k);
    }
}

/// Scans a byte vector for the first occurrence of `b` at or after `from`.
pub fn find_byte(v: &Vec<u8>, b: u8, from: usize) -> (r: usize)
    requires
        from <= v@.len(),
    ensures
        r == first_byte_at(v@, b, from as int),
        from <= r <= v@.len(),
        r < v@.len() ==> v@[r as int] == b,
        forall|j: int| from <= j < r ==> v@[j] != b,
{
    let n = v.len();
    let mut i = from;
    while i < n
        invariant
            n == v@.len(),
            from <= i <= n,
            first_byte_at(v@, b, from as int) == first_byte_at(v@, b, i as int),
            forall|j: int| from <= j < i ==> v@[j] != b,
        decreases n - i,
    {
        if v[i] == b {
            return i;
        }
        proof {
            assert(first_byte_at(v@, b, i as int) == first_byte_at(v@, b, i + 1));
        }
        i = i + 1;
    }
    i
}

/// Copies the byte range `[a, b)` out of a vector.
pub fn sub_vec(v: &Vec<u8>, a: usize, b: usize) -> (r: Vec<u8>)
    requires
        a <= b <= v@.len(),
    ensures
        r@ =~= v@.subrange(a as int, b as int),
{
    let mut out: Vec<u8> = Vec::new();
    for i in a..b
        invariant
            a <= i <= b <= v@.len(),
            out@.len() == i - a,
            forall|j: int| 0 <= j < out@.len() ==> out@[j] == v@[a + j],
    {
        out.push(v[i]);
    }
    out
}

/// Copies the character range `[a, b)` out of a string.
pub fn substring(s: &str, a: usize, b: usize) -> (r: String)
    requires
        a <= b <= s@.len(),
    ensures
        r@ == s@.subrange(a as int, b as int),
{
    let piece = s.substring_char(a, b);
    String::from_str(piece)
}

} // verus!
