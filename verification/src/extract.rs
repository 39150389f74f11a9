//! The token-extraction policy.
//!
//! An OAuth redirect can carry the credential in three places, and the
//! extractor tries them in a fixed precedence order, first match wins:
//!
//! 1. a literal fragment in the request target (`...#access_token=...`),
//! 2. a fragment inside the `Referer` header's value,
//! 3. the request target's query string (`?code=...` or `?access_token=...`).
//!
//! All three scan `key=value` pairs separated by `&`, with standard
//! form-urlencoded decoding applied to both keys and values.

use vstd::prelude::*;

use crate::bytes::{
    bytes_eq, copy_bytes, decode_bytes, first_at, index_of_from, lemma_first_at,
    lemma_index_of_first_at, lower_byte, lower_bytes, spec_decode,
};
use vstd::slice::slice_subrange;

verus! {

// ---------------------------------------------------------------------------
// Key vocabulary
// ---------------------------------------------------------------------------

/// The bytes of the key `access_token`.
pub open spec fn token_key() -> Seq<u8> {
    seq![
        'a' as u8,
        'c' as u8,
        'c' as u8,
        'e' as u8,
        's' as u8,
        's' as u8,
        '_' as u8,
        't' as u8,
        'o' as u8,
        'k' as u8,
        'e' as u8,
        'n' as u8,
    ]
}

/// The bytes of the key `code`.
pub open spec fn code_key() -> Seq<u8> {
    seq!['c' as u8, 'o' as u8, 'd' as u8, 'e' as u8]
}

/// The bytes of the header name `referer`, lower case.
pub open spec fn referer_name() -> Seq<u8> {
    seq!['r' as u8, 'e' as u8, 'f' as u8, 'e' as u8, 'r' as u8, 'e' as u8, 'r' as u8]
}

fn token_key_bytes() -> (v: Vec<u8>)
    ensures
        v@ == token_key(),
{
    let v: Vec<u8> = vec![
        'a' as u8,
        'c' as u8,
        'c' as u8,
        'e' as u8,
        's' as u8,
        's' as u8,
        '_' as u8,
        't' as u8,
        'o' as u8,
        'k' as u8,
        'e' as u8,
        'n' as u8,
    ];
    proof {
        assert(v@ =~= token_key());
    }
    v
}

fn code_key_bytes() -> (v: Vec<u8>)
    ensures
        v@ == code_key(),
{
    let v: Vec<u8> = vec!['c' as u8, 'o' as u8, 'd' as u8, 'e' as u8];
    proof {
        assert(v@ =~= code_key());
    }
    v
}

/// Which keys a scan accepts: the fragment strategies take `access_token`
/// alone; the query strategy takes `code` or `access_token`.
#[derive(Clone, Copy, Debug)]
pub enum KeyPolicy {
    TokenOnly,
    CodeOrToken,
}

/// Does a decoded key match the policy?
pub open spec fn key_matches(dk: Seq<u8>, p: KeyPolicy) -> bool {
    match p {
        KeyPolicy::TokenOnly => dk == token_key(),
        KeyPolicy::CodeOrToken => dk == code_key() || dk == token_key(),
    }
}

fn key_matches_exec(dk: &Vec<u8>, p: KeyPolicy) -> (r: bool)
    ensures
        r == key_matches(dk@, p),
{
    match p {
        KeyPolicy::TokenOnly => {
            let t = token_key_bytes();
            bytes_eq(dk.as_slice(), t.as_slice())
        },
        KeyPolicy::CodeOrToken => {
            let c = code_key_bytes();
            let t = token_key_bytes();
            bytes_eq(dk.as_slice(), c.as_slice()) || bytes_eq(dk.as_slice(), t.as_slice())
        },
    }
}

// ---------------------------------------------------------------------------
// Scanning `key=value&...` byte strings
// ---------------------------------------------------------------------------

/// The raw key of one `key=value` segment: the bytes before the first `=`
/// (the whole segment when there is no `=`).
pub open spec fn seg_key(seg: Seq<u8>) -> Seq<u8> {
    seg.take(first_at(seg, '=' as u8))
}

/// The raw value of one `key=value` segment: the bytes after the first `=`
/// (empty when there is no `=`).
pub open spec fn seg_val(seg: Seq<u8>) -> Seq<u8> {
    if first_at(seg, '=' as u8) < seg.len() {
        seg.skip(first_at(seg, '=' as u8) + 1)
    } else {
        Seq::empty()
    }
}

/// Decoded value of the first `&`-separated segment of `s` whose decoded key
/// matches the policy; `None` when no segment matches.  Empty segments are
/// skipped.
pub open spec fn spec_find_key(s: Seq<u8>, p: KeyPolicy) -> Option<Seq<u8>>
    decreases s.len(),
        via spec_find_key_decreases
{
    if s.len() == 0 {
        None
    } else {
        let e = first_at(s, '&' as u8);
        let seg = s.take(e);
        let rest = if e < s.len() {
            s.skip(e + 1)
        } else {
            Seq::empty()
        };
        if seg.len() > 0 && key_matches(spec_decode(seg_key(seg)), p) {
            Some(spec_decode(seg_val(seg)))
        } else {
            spec_find_key(rest, p)
        }
    }
}

#[via_fn]
proof fn spec_find_key_decreases(s: Seq<u8>, p: KeyPolicy) {
    lemma_first_at(s, '&' as u8);
}

/// Executable scan matching `spec_find_key`.
pub fn find_key(s: &[u8], p: KeyPolicy) -> (r: Option<Vec<u8>>)
    ensures
        r.deep_view() == spec_find_key(s@, p),
    decreases s@.len(),
{
    if s.len() == 0 {
        return None;
    }
    let e = index_of_from(s, 0, '&' as u8);
    proof {
        lemma_index_of_first_at(s@, 0, e as int, '&' as u8);
        assert(s@.skip(0) =~= s@);
    }
    let seg = slice_subrange(s, 0, e);
    proof {
        assert(seg@ =~= s@.take(e as int));
    }
    let eq = index_of_from(seg, 0, '=' as u8);
    proof {
        lemma_index_of_first_at(seg@, 0, eq as int, '=' as u8);
        assert(seg@.skip(0) =~= seg@);
    }
    let key_raw = slice_subrange(seg, 0, eq);
    proof {
        assert(key_raw@ =~= seg_key(seg@));
    }
    let key = decode_bytes(key_raw);
    if seg.len() > 0 && key_matches_exec(&key, p) {
        let val_raw = if eq < seg.len() {
            slice_subrange(seg, eq + 1, seg.len())
        } else {
            slice_subrange(seg, seg.len(), seg.len())
        };
        proof {
            assert(val_raw@ =~= seg_val(seg@));
        }
        let val = decode_bytes(val_raw);
        proof {
            crate::bytes::lemma_deep_bytes(val);
        }
        Some(val)
    } else {
        if e < s.len() {
            let rest = slice_subrange(s, e + 1, s.len());
            proof {
                assert(rest@ =~= s@.skip(e + 1));
            }
            find_key(rest, p)
        } else {
            proof {
                assert(spec_find_key(Seq::<u8>::empty(), p) is None);
            }
            None
        }
    }
}

// ---------------------------------------------------------------------------
// The three strategies
// ---------------------------------------------------------------------------

/// The fragment portion of a request target or URL: the bytes between the
/// first `#` and the next `#` (or the end); empty when there is no `#`.
pub open spec fn fragment_of(t: Seq<u8>) -> Seq<u8> {
    let h = first_at(t, '#' as u8);
    if h < t.len() {
        let rest = t.skip(h + 1);
        rest.take(first_at(rest, '#' as u8))
    } else {
        Seq::empty()
    }
}

/// The query portion of a request target: the bytes between the first `?`
/// and the next `?` (or the end); empty when there is no `?`.
pub open spec fn query_of(t: Seq<u8>) -> Seq<u8> {
    let q = first_at(t, '?' as u8);
    if q < t.len() {
        let rest = t.skip(q + 1);
        rest.take(first_at(rest, '?' as u8))
    } else {
        Seq::empty()
    }
}

/// Strategy 1: an `access_token` in a fragment carried literally in the
/// request target (also used for the fragment of a `Referer` URL).
pub open spec fn fragment_token(t: Seq<u8>) -> Option<Seq<u8>> {
    spec_find_key(fragment_of(t), KeyPolicy::TokenOnly)
}

/// Strategy 3: a `code` or `access_token` in the query string.
pub open spec fn query_token(t: Seq<u8>) -> Option<Seq<u8>> {
    spec_find_key(query_of(t), KeyPolicy::CodeOrToken)
}

/// The value of the first header whose name is `referer` up to ASCII case.
pub open spec fn spec_referer(hs: Seq<(Vec<u8>, Vec<u8>)>) -> Option<Seq<u8>>
    decreases hs.len(),
{
    if hs.len() == 0 {
        None
    } else if lower_bytes(hs[0].0@) == referer_name() {
        Some(hs[0].1@)
    } else {
        spec_referer(hs.drop_first())
    }
}

/// Strategy 2: an `access_token` in the fragment of the `Referer` header's
/// URL.
pub open spec fn referer_token(hs: Seq<(Vec<u8>, Vec<u8>)>) -> Option<Seq<u8>> {
    match spec_referer(hs) {
        Some(rv) => fragment_token(rv),
        None => None,
    }
}

/// The whole extraction policy: target fragment first, then `Referer`
/// fragment, then query string.
pub open spec fn spec_extract(t: Seq<u8>, hs: Seq<(Vec<u8>, Vec<u8>)>) -> Option<Seq<u8>> {
    if fragment_token(t) is Some {
        fragment_token(t)
    } else if referer_token(hs) is Some {
        referer_token(hs)
    } else {
        query_token(t)
    }
}

/// Scan the part of `t` between the first `sep` and the next `sep` for a key
/// accepted by the policy.
fn section_token(t: &[u8], sep: u8, p: KeyPolicy) -> (r: Option<Vec<u8>>)
    ensures
        sep == '#' as u8 && p is TokenOnly ==> r.deep_view() == fragment_token(t@),
        sep == '?' as u8 && p is CodeOrToken ==> r.deep_view() == query_token(t@),
{
    let h = index_of_from(t, 0, sep);
    proof {
        lemma_index_of_first_at(t@, 0, h as int, sep);
        assert(t@.skip(0) =~= t@);
    }
    if h == t.len() {
        proof {
            assert(spec_find_key(Seq::<u8>::empty(), p) is None);
        }
        None
    } else {
        let h2 = index_of_from(t, h + 1, sep);
        proof {
            lemma_index_of_first_at(t@, h + 1, h2 as int, sep);
        }
        let section = slice_subrange(t, h + 1, h2);
        proof {
            assert(section@ =~= t@.skip(h + 1).take(first_at(t@.skip(h + 1), sep)));
        }
        find_key(section, p)
    }
}

/// Executable extraction matching `spec_extract`: the decoded credential from
/// the first strategy that yields one, or `None`.
pub fn extract_credential(target: &Vec<u8>, headers: &Vec<(Vec<u8>, Vec<u8>)>) -> (r: Option<
    Vec<u8>,
>)
    ensures
        r.deep_view() == spec_extract(target@, headers@),
{
    let from_fragment = section_token(target.as_slice(), '#' as u8, KeyPolicy::TokenOnly);
    if from_fragment.is_some() {
        return from_fragment;
    }
    let from_referer = match find_referer(headers) {
        Some(rv) => {
            proof {
                crate::bytes::lemma_deep_bytes(rv);
            }
            section_token(rv.as_slice(), '#' as u8, KeyPolicy::TokenOnly)
        },
        None => None,
    };
    if from_referer.is_some() {
        return from_referer;
    }
    section_token(target.as_slice(), '?' as u8, KeyPolicy::CodeOrToken)
}

// ---------------------------------------------------------------------------
// Referer header lookup
// ---------------------------------------------------------------------------

fn referer_name_bytes() -> (v: Vec<u8>)
    ensures
        v@ == referer_name(),
{
    let v: Vec<u8> = vec![
        'r' as u8,
        'e' as u8,
        'f' as u8,
        'e' as u8,
        'r' as u8,
        'e' as u8,
        'r' as u8,
    ];
    proof {
        assert(v@ =~= referer_name());
    }
    v
}

fn lower_vec(s: &Vec<u8>) -> (r: Vec<u8>)
    ensures
        r@ == lower_bytes(s@),
{
    let mut out: Vec<u8> = Vec::new();
    let mut i: usize = 0;
    while i < s.len()
        invariant
            i <= s@.len(),
            out@.len() == i,
            forall|j: int| 0 <= j < i ==> out@[j] == crate::bytes::to_lower(s@[j]),
        decreases s@.len() - i,
    {
        out.push(lower_byte(s[i]));
        i = i + 1;
    }
    proof {
        assert(out@ =~= lower_bytes(s@));
    }
    out
}

/// The value of the first `Referer` header (name compared case-insensitively),
/// copied out.
pub fn find_referer(headers: &Vec<(Vec<u8>, Vec<u8>)>) -> (r: Option<Vec<u8>>)
    ensures
        r.deep_view() == spec_referer(headers@),
{
    let want = referer_name_bytes();
    let mut i: usize = 0;
    proof {
        assert(headers@.skip(0) =~= headers@);
    }
    while i < headers.len()
        invariant
            i <= headers@.len(),
            want@ == referer_name(),
            spec_referer(headers@) == spec_referer(headers@.skip(i as int)),
        decreases headers@.len() - i,
    {
        let ghost t = headers@.skip(i as int);
        proof {
            assert(t[0] == headers@[i as int]);
            assert(t.drop_first() =~= headers@.skip(i + 1));
        }
        let lc = lower_vec(&headers[i].0);
        if bytes_eq(lc.as_slice(), want.as_slice()) {
            let value = copy_bytes(&headers[i].1);
            proof {
                crate::bytes::lemma_deep_bytes(value);
            }
            return Some(value);
        }
        i = i + 1;
    }
    proof {
        assert(headers@.skip(i as int) =~= Seq::<(Vec<u8>, Vec<u8>)>::empty());
    }
    None
}

// ---------------------------------------------------------------------------
// Precedence laws
// ---------------------------------------------------------------------------

/// A token found in the target's literal fragment wins over everything else:
/// whatever the `Referer` header or the query string hold, extraction returns
/// the fragment's token.
pub proof fn lemma_fragment_precedence(t: Seq<u8>, hs: Seq<(Vec<u8>, Vec<u8>)>)
    requires
        fragment_token(t) is Some,
    ensures
        spec_extract(t, hs) == fragment_token(t),
{
}

/// When the target carries no fragment token but the `Referer` header's URL
/// does, extraction returns the `Referer` fragment's token, whatever the
/// query string holds.
pub proof fn lemma_referer_fallback(t: Seq<u8>, hs: Seq<(Vec<u8>, Vec<u8>)>)
    requires
        fragment_token(t) is None,
        referer_token(hs) is Some,
    ensures
        spec_extract(t, hs) == referer_token(hs),
{
}

/// When neither fragment strategy yields a token, extraction falls back to
/// the query string.
pub proof fn lemma_query_fallback(t: Seq<u8>, hs: Seq<(Vec<u8>, Vec<u8>)>)
    requires
        fragment_token(t) is None,
        referer_token(hs) is None,
    ensures
        spec_extract(t, hs) == query_token(t),
{
}

} // verus!
