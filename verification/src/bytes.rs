//! Byte-level helpers for the callback parser: locating delimiter bytes,
//! comparing byte strings, ASCII case folding, and standard form-urlencoded
//! percent decoding.  Everything here works on plain bytes so that the
//! extraction policy can be specified exactly over `Seq<u8>`.

use vstd::prelude::*;

verus! {

// ---------------------------------------------------------------------------
// Locating the first occurrence of a delimiter byte
// ---------------------------------------------------------------------------

/// Index of the first occurrence of `b` in `s`, or `s.len()` when `b` does
/// not occur.
pub open spec fn first_at(s: Seq<u8>, b: u8) -> int
    decreases s.len(),
{
    if s.len() == 0 {
        0
    } else if s[0] == b {
        0
    } else {
        1 + first_at(s.drop_first(), b)
    }
}

/// `first_at` stays in range, points at `b` when `b` occurs, and nothing
/// before it is `b`.
pub proof fn lemma_first_at(s: Seq<u8>, b: u8)
    ensures
        0 <= first_at(s, b) <= s.len(),
        first_at(s, b) < s.len() ==> s[first_at(s, b)] == b,
        forall|j: int| 0 <= j < first_at(s, b) ==> s[j] != b,
    decreases s.len(),
{
    if s.len() > 0 && s[0] != b {
        lemma_first_at(s.drop_first(), b);
        assert forall|j: int| 0 <= j < first_at(s, b) implies s[j] != b by {
            if j > 0 {
                assert(s.drop_first()[j - 1] == s[j]);
            }
        }
    }
}

/// An index with the properties of `first_at` is `first_at`.
pub proof fn lemma_first_at_is(s: Seq<u8>, b: u8, i: int)
    requires
        0 <= i <= s.len(),
        forall|j: int| 0 <= j < i ==> s[j] != b,
        i < s.len() ==> s[i] == b,
    ensures
        first_at(s, b) == i,
    decreases s.len(),
{
    if s.len() == 0 {
    } else if s[0] == b {
        assert(i == 0);
    } else {
        assert(s[0 as int] != b);
        assert(i >= 1);
        assert forall|j: int| 0 <= j < i - 1 implies s.drop_first()[j] != b by {
            assert(s.drop_first()[j] == s[j + 1]);
        }
        assert(i - 1 < s.drop_first().len() ==> s.drop_first()[i - 1] == b);
        lemma_first_at_is(s.drop_first(), b, i - 1);
    }
}

/// First index `>= from` at which `b` occurs in `s`, or `s.len()`.
pub fn index_of_from(s: &[u8], from: usize, b: u8) -> (r: usize)
    requires
        from <= s@.len(),
    ensures
        from <= r <= s@.len(),
        r < s@.len() ==> s@[r as int] == b,
        forall|j: int| from <= j < r ==> s@[j] != b,
{
    let mut i: usize = from;
    while i < s.len()
        invariant
            from <= i <= s@.len(),
            forall|j: int| from <= j < i ==> s@[j] != b,
        decreases s@.len() - i,
    {
        if s[i] == b {
            return i;
        }
        i = i + 1;
    }
    i
}

/// `index_of_from` computes `first_at` of the tail that starts at `from`.
pub proof fn lemma_index_of_first_at(s: Seq<u8>, from: int, r: int, b: u8)
    requires
        0 <= from <= r <= s.len(),
        r < s.len() ==> s[r] == b,
        forall|j: int| from <= j < r ==> s[j] != b,
    ensures
        first_at(s.skip(from), b) == r - from,
{
    let t = s.skip(from);
    assert forall|j: int| 0 <= j < r - from implies t[j] != b by {
        assert(t[j] == s[j + from]);
    }
    assert(r - from < t.len() ==> t[r - from] == b);
    lemma_first_at_is(t, b, r - from);
}

// ---------------------------------------------------------------------------
// Byte-string comparison and prefixes
// ---------------------------------------------------------------------------

/// `p` is a prefix of `s`.
pub open spec fn spec_starts_with(s: Seq<u8>, p: Seq<u8>) -> bool {
    p.len() <= s.len() && s.take(p.len() as int) == p
}

/// The deep view of a byte vector is its view.
pub proof fn lemma_deep_bytes(v: Vec<u8>)
    ensures
        v.deep_view() == v@,
{
    assert(v.deep_view() =~= v@);
}

/// A fresh byte vector with the same contents.
pub fn copy_bytes(s: &Vec<u8>) -> (r: Vec<u8>)
    ensures
        r@ == s@,
{
    let mut out: Vec<u8> = Vec::new();
    let mut i: usize = 0;
    while i < s.len()
        invariant
            i <= s@.len(),
            out@ == s@.take(i as int),
        decreases s@.len() - i,
    {
        out.push(s[i]);
        proof {
            assert(out@ =~= s@.take(i + 1));
        }
        i = i + 1;
    }
    proof {
        assert(s@.take(s@.len() as int) =~= s@);
    }
    out
}

/// Byte-for-byte equality of two byte strings.
pub fn bytes_eq(a: &[u8], b: &[u8]) -> (r: bool)
    ensures
        r == (a@ == b@),
{
    if a.len() != b.len() {
        assert(a@ != b@);
        return false;
    }
    let mut i: usize = 0;
    while i < a.len()
        invariant
            i <= a@.len(),
            a@.len() == b@.len(),
            forall|j: int| 0 <= j < i ==> a@[j] == b@[j],
        decreases a@.len() - i,
    {
        if a[i] != b[i] {
            return false;
        }
        i = i + 1;
    }
    proof {
        assert(a@ =~= b@);
    }
    true
}

/// Does `s` start with the prefix `p`?
pub fn starts_with_bytes(s: &[u8], p: &[u8]) -> (r: bool)
    ensures
        r == spec_starts_with(s@, p@),
{
    if p.len() > s.len() {
        return false;
    }
    let mut i: usize = 0;
    while i < p.len()
        invariant
            i <= p@.len() <= s@.len(),
            forall|j: int| 0 <= j < i ==> s@[j] == p@[j],
        decreases p@.len() - i,
    {
        if s[i] != p[i] {
            assert(s@.take(p@.len() as int)[i as int] != p@[i as int]);
            return false;
        }
        i = i + 1;
    }
    proof {
        assert(s@.take(p@.len() as int) =~= p@);
    }
    true
}

// ---------------------------------------------------------------------------
// ASCII case folding (for case-insensitive header names)
// ---------------------------------------------------------------------------

/// Fold one ASCII byte to lower case.
pub open spec fn to_lower(b: u8) -> u8 {
    if 65 <= b <= 90 {
        (b + 32) as u8
    } else {
        b
    }
}

/// Fold a whole byte string to ASCII lower case.
pub open spec fn lower_bytes(s: Seq<u8>) -> Seq<u8> {
    s.map_values(|b: u8| to_lower(b))
}

/// Executable ASCII lower-casing of one byte.
pub fn lower_byte(b: u8) -> (r: u8)
    ensures
        r == to_lower(b),
{
    if 65 <= b && b <= 90 {
        b + 32
    } else {
        b
    }
}

// ---------------------------------------------------------------------------
// Standard form-urlencoded decoding
// ---------------------------------------------------------------------------

/// Is `b` an ASCII hexadecimal digit?
pub open spec fn is_hex_digit(b: u8) -> bool {
    (48 <= b <= 57) || (65 <= b <= 70) || (97 <= b <= 102)
}

/// Numeric value of an ASCII hexadecimal digit.
pub open spec fn hex_val(b: u8) -> u8 {
    if 48 <= b <= 57 {
        (b - 48) as u8
    } else if 65 <= b <= 70 {
        (b - 55) as u8
    } else if 97 <= b <= 102 {
        (b - 87) as u8
    } else {
        0
    }
}

/// The byte encoded by two hexadecimal digits.
pub open spec fn hex_byte(h: u8, l: u8) -> u8 {
    (16 * hex_val(h) + hex_val(l)) as u8
}

/// Standard form-urlencoded decoding of a byte string: `+` becomes a space,
/// `%XY` with two hexadecimal digits becomes the encoded byte, and anything
/// else (including a `%` not followed by two hexadecimal digits) passes
/// through unchanged.
pub open spec fn spec_decode(s: Seq<u8>) -> Seq<u8>
    decreases s.len(),
{
    if s.len() == 0 {
        Seq::empty()
    } else if s[0] == ('%' as u8) && s.len() >= 3 && is_hex_digit(s[1]) && is_hex_digit(s[2]) {
        seq![hex_byte(s[1], s[2])] + spec_decode(s.skip(3))
    } else if s[0] == ('+' as u8) {
        seq![' ' as u8] + spec_decode(s.skip(1))
    } else {
        seq![s[0]] + spec_decode(s.skip(1))
    }
}

/// Executable check for an ASCII hexadecimal digit.
pub fn is_hex(b: u8) -> (r: bool)
    ensures
        r == is_hex_digit(b),
{
    (48 <= b && b <= 57) || (65 <= b && b <= 70) || (97 <= b && b <= 102)
}

/// Executable value of an ASCII hexadecimal digit.
pub fn hex_value(b: u8) -> (r: u8)
    ensures
        r == hex_val(b),
{
    if 48 <= b && b <= 57 {
        b - 48
    } else if 65 <= b && b <= 70 {
        b - 55
    } else if 97 <= b && b <= 102 {
        b - 87
    } else {
        0
    }
}

/// Executable form-urlencoded decoding.
pub fn decode_bytes(s: &[u8]) -> (r: Vec<u8>)
    ensures
        r@ == spec_decode(s@),
{
    let mut out: Vec<u8> = Vec::new();
    let mut i: usize = 0;
    proof {
        assert(s@.skip(0) =~= s@);
        assert(Seq::<u8>::empty() + spec_decode(s@) =~= spec_decode(s@));
    }
    while i < s.len()
        invariant
            i <= s@.len(),
            spec_decode(s@) == out@ + spec_decode(s@.skip(i as int)),
        decreases s@.len() - i,
    {
        let ghost t = s@.skip(i as int);
        proof {
            assert(t[0] == s@[i as int]);
            if i + 2 < s@.len() {
                assert(t[1] == s@[i + 1]);
                assert(t[2] == s@[i + 2]);
            }
        }
        let c = s[i];
        if c == ('%' as u8) && s.len() - i > 2 && is_hex(s[i + 1]) && is_hex(s[i + 2]) {
            let h = hex_value(s[i + 1]);
            let l = hex_value(s[i + 2]);
            proof {
                assert(t.skip(3) =~= s@.skip(i + 3));
                assert(spec_decode(t) == seq![hex_byte(s@[i + 1], s@[i + 2])] + spec_decode(
                    s@.skip(i + 3),
                ));
            }
            out.push(16 * h + l);
            i = i + 3;
        } else {
            proof {
                assert(t.skip(1) =~= s@.skip(i + 1));
            }
            if c == ('+' as u8) {
                out.push(' ' as u8);
            } else {
                out.push(c);
            }
            i = i + 1;
        }
        proof {
            assert(spec_decode(s@) == out@ + spec_decode(s@.skip(i as int)));
        }
    }
    proof {
        assert(s@.skip(i as int) =~= Seq::<u8>::empty());
        assert(out@ + spec_decode(s@.skip(i as int)) =~= out@);
    }
    out
}

} // verus!
