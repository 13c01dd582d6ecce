use couchdb::path::percent::{percent_decode, percent_encode_uri_path};
use couchdb::Error;

/// Whether a result is the error for a bad percent-encoding.
fn is_decode_error(r: Result<String, Error>) -> bool {
    matches!(r, Err(Error::InvalidPercentEncoding { .. }))
}

#[test]
fn percent_decode_ok_first_and_middle_chars_encoded() {
    let exp = "foobar";
    let got = percent_decode("%66oo%62ar").unwrap();
    assert_eq!(exp, got);
}

#[test]
fn percent_decode_ok_middle_and_last_chars_encoded() {
    let exp = "foobar";
    let got = percent_decode("fo%6Fba%72").unwrap();
    assert_eq!(exp, got);
}

#[test]
fn percent_decode_ok_all_chars_encoded() {
    let exp = "foobar";
    let got = percent_decode("%66%6F%6F%62%61%72").unwrap();
    assert_eq!(exp, got);
}

#[test]
fn percent_decode_ok_lowercase() {
    let exp = "foobar";
    let got = percent_decode("%66%6f%6f%62%61%72").unwrap();
    assert_eq!(exp, got);
}

#[test]
fn percent_decode_nok_end_with_percent_sign() {
    let got = percent_decode("foobar%");
    assert!(is_decode_error(got));
}

#[test]
fn percent_decode_nok_end_with_percent_sign_and_one_nibble() {
    let got = percent_decode("foobar%6");
    assert!(is_decode_error(got));
}

#[test]
fn percent_decode_nok_end_with_a_bad_nibble() {
    let got = percent_decode("foobar%6z");
    assert!(is_decode_error(got));
}

#[test]
fn percent_decode_nok_bad_second_nibble() {
    let got = percent_decode("foo%6zbar");
    assert!(is_decode_error(got));
}

#[test]
fn percent_decode_nok_bad_first_nibble() {
    let got = percent_decode("foo%z0bar");
    assert!(is_decode_error(got));
}

#[test]
fn percent_decode_nok_bad_utf8() {
    let got = percent_decode("foo%bar");
    assert!(is_decode_error(got));
}

#[test]
fn percent_encode_uri_path_no_encodings() {
    let exp = "foobar";
    let got = percent_encode_uri_path("foobar");
    assert_eq!(exp, got);
}

#[test]
fn percent_encode_uri_path_slash_char() {
    let exp = "foo%2Fbar";
    let got = percent_encode_uri_path("foo/bar");
    assert_eq!(exp, got);
}

#[test]
fn percent_encode_uri_path_percent_char() {
    let exp = "foo%25bar";
    let got = percent_encode_uri_path("foo%bar");
    assert_eq!(exp, got);
}

#[test]
fn percent_encode_uri_path_space_char() {
    let exp = "foo%20bar";
    let got = percent_encode_uri_path("foo bar");
    assert_eq!(exp, got);
}

#[test]
fn percent_encode_uri_path_query_char() {
    let exp = "foo%3Fbar";
    let got = percent_encode_uri_path("foo?bar");
    assert_eq!(exp, got);
}

#[test]
fn percent_encode_uri_path_fragment_char() {
    let exp = "foo%23bar";
    let got = percent_encode_uri_path("foo#bar");
    assert_eq!(exp, got);
}

#[test]
fn percent_encode_uri_path_many_chars() {
    let exp = "%2Ffoo%2F%25%20bar%2F";
    let got = percent_encode_uri_path("/foo/% bar/");
    assert_eq!(exp, got);
}
