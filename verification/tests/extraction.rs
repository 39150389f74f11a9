//! Tests of the token-extraction policy: form-urlencoded decoding, key
//! scanning, the three strategies, and their precedence.

use oauth_capture::bytes::decode_bytes;
use oauth_capture::extract::{extract_credential, find_key, find_referer, KeyPolicy};

fn no_headers() -> Vec<(Vec<u8>, Vec<u8>)> {
    Vec::new()
}

fn header(name: &str, value: &str) -> (Vec<u8>, Vec<u8>) {
    (name.as_bytes().to_vec(), value.as_bytes().to_vec())
}

#[test]
fn decode_plain_bytes_pass_through() {
    assert_eq!(decode_bytes(b"abc123"), b"abc123".to_vec());
}

#[test]
fn decode_plus_becomes_space() {
    assert_eq!(decode_bytes(b"a+b+c"), b"a b c".to_vec());
}

#[test]
fn decode_percent_lower_and_upper_hex() {
    assert_eq!(decode_bytes(b"a%20b"), b"a b".to_vec());
    assert_eq!(decode_bytes(b"%2Fpath%2f"), b"/path/".to_vec());
    assert_eq!(decode_bytes(b"%3D"), b"=".to_vec());
}

#[test]
fn decode_bad_percent_passes_through() {
    assert_eq!(decode_bytes(b"100%"), b"100%".to_vec());
    assert_eq!(decode_bytes(b"%zz"), b"%zz".to_vec());
    assert_eq!(decode_bytes(b"%4"), b"%4".to_vec());
}

#[test]
fn find_key_first_match_wins() {
    let r = find_key(b"a=1&access_token=first&access_token=second", KeyPolicy::TokenOnly);
    assert_eq!(r, Some(b"first".to_vec()));
}

#[test]
fn find_key_skips_empty_segments() {
    let r = find_key(b"&&access_token=v&&", KeyPolicy::TokenOnly);
    assert_eq!(r, Some(b"v".to_vec()));
}

#[test]
fn find_key_no_equals_means_empty_value() {
    assert_eq!(find_key(b"access_token", KeyPolicy::TokenOnly), Some(Vec::new()));
    assert_eq!(find_key(b"other", KeyPolicy::TokenOnly), None);
}

#[test]
fn find_key_decodes_key_and_value() {
    let r = find_key(b"access%5Ftoken=a%26b+c", KeyPolicy::TokenOnly);
    assert_eq!(r, Some(b"a&b c".to_vec()));
}

#[test]
fn find_key_code_or_token_takes_first_in_order() {
    assert_eq!(
        find_key(b"code=c&access_token=t", KeyPolicy::CodeOrToken),
        Some(b"c".to_vec())
    );
    assert_eq!(
        find_key(b"access_token=t&code=c", KeyPolicy::CodeOrToken),
        Some(b"t".to_vec())
    );
    assert_eq!(find_key(b"code=c", KeyPolicy::TokenOnly), None);
}

#[test]
fn fragment_in_target_is_extracted() {
    let target = b"/auth-callback#access_token=frag".to_vec();
    assert_eq!(
        extract_credential(&target, &no_headers()),
        Some(b"frag".to_vec())
    );
}

#[test]
fn fragment_stops_at_second_hash() {
    let target = b"/auth-callback#access_token=x#access_token=y".to_vec();
    assert_eq!(
        extract_credential(&target, &no_headers()),
        Some(b"x".to_vec())
    );
}

#[test]
fn fragment_precedes_query_code() {
    // A literal fragment token and a query `code`: the fragment wins.
    let target = b"/auth-callback?code=fromquery#access_token=fromfrag".to_vec();
    assert_eq!(
        extract_credential(&target, &no_headers()),
        Some(b"fromfrag".to_vec())
    );
}

#[test]
fn referer_fragment_is_second_choice() {
    // Empty query, no literal fragment, but a Referer URL with a fragment.
    let target = b"/auth-callback".to_vec();
    let headers = vec![
        header("Host", "127.0.0.1"),
        header("Referer", "https://x/cb#access_token=ABC"),
    ];
    assert_eq!(extract_credential(&target, &headers), Some(b"ABC".to_vec()));
}

#[test]
fn referer_name_is_case_insensitive() {
    let target = b"/auth-callback".to_vec();
    let headers = vec![header("REFERER", "https://x/cb#access_token=UP")];
    assert_eq!(extract_credential(&target, &headers), Some(b"UP".to_vec()));
}

#[test]
fn referer_precedes_query() {
    let target = b"/auth-callback?code=q".to_vec();
    let headers = vec![header("Referer", "https://x/cb#access_token=R")];
    assert_eq!(extract_credential(&target, &headers), Some(b"R".to_vec()));
}

#[test]
fn query_fallback_access_token() {
    // No literal fragment, no matching Referer: the query string decides.
    let target = b"/auth-callback?access_token=XYZ".to_vec();
    let headers = vec![header("Referer", "https://x/cb")];
    assert_eq!(extract_credential(&target, &headers), Some(b"XYZ".to_vec()));
}

#[test]
fn query_fallback_code() {
    let target = b"/auth-callback?code=authcode42".to_vec();
    assert_eq!(
        extract_credential(&target, &no_headers()),
        Some(b"authcode42".to_vec())
    );
}

#[test]
fn no_strategy_yields_nothing() {
    let target = b"/auth-callback?state=abc".to_vec();
    let headers = vec![header("Referer", "https://x/cb?access_token=notafragment")];
    assert_eq!(extract_credential(&target, &headers), None);
}

#[test]
fn find_referer_returns_first_match() {
    let headers = vec![
        header("Accept", "*/*"),
        header("Referer", "first"),
        header("referer", "second"),
    ];
    assert_eq!(find_referer(&headers), Some(b"first".to_vec()));
    assert_eq!(find_referer(&vec![header("Accept", "*/*")]), None);
}

#[test]
fn query_stops_at_second_question_mark() {
    let target = b"/auth-callback?a=b?access_token=x".to_vec();
    assert_eq!(extract_credential(&target, &no_headers()), None);
}
