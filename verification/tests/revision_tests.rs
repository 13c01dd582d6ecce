use couchdb::{Error, Revision};
use std::str::FromStr;

#[test]
fn parse_ok() {
    let got = Revision::parse("42-1234567890abcdeffedcba0987654321").unwrap();
    assert_eq!(got.sequence_number(), 42);
    assert_eq!(got.to_string(), "42-1234567890abcdeffedcba0987654321");
}

#[test]
fn parse_nok() {
    Revision::parse("bad_revision").unwrap_err();
}

#[test]
fn sequence_number() {
    let rev = Revision::parse("999-1234567890abcdef1234567890abcdef").unwrap();
    assert_eq!(999, rev.sequence_number());
}

#[test]
fn display() {
    let expected = "42-1234567890abcdeffedcba0987654321";
    let source = Revision::parse("42-1234567890ABCDEFFEDCBA0987654321").unwrap();
    let got = source.to_string();
    assert_eq!(expected, got);
}

#[test]
fn from_str_ok() {
    let expected = Revision::parse("42-1234567890abcdeffedcba0987654321").unwrap();
    let got = Revision::from_str("42-1234567890abcdeffedcba0987654321").unwrap();
    assert_eq!(expected, got);
    assert_eq!(got.sequence_number(), 42);
}

#[test]
fn from_str_nok() {
    for input in [
        "12345678123456781234567812345678",
        "-12345678123456781234567812345678",
        "1-",
        "1-1234567890abcdef1234567890abcdef-",
        "-42-12345678123456781234567812345678",
        "18446744073709551616-12345678123456781234567812345678",
        "0-12345678123456781234567812345678",
        "1-z2345678123456781234567812345678",
        "1-1234567812345678123456781234567",
        "bad_revision_blah_blah_blah",
    ] {
        match Revision::from_str(input) {
            Err(Error::BadRevision) => {}
            x => panic!("Got unexpected result {:?} for {}", x, input),
        }
    }
}

#[test]
fn string_from_revision() {
    let expected = "42-1234567890abcdeffedcba0987654321";
    let source = Revision::parse("42-1234567890abcdeffedcba0987654321").unwrap();
    let got = String::from(source);
    assert_eq!(expected, got);
}

#[test]
fn eq_same() {
    let r1 = Revision::parse("1-1234567890abcdef1234567890abcdef").unwrap();
    let r2 = Revision::parse("1-1234567890abcdef1234567890abcdef").unwrap();
    assert!(r1 == r2);
}

#[test]
fn eq_different_numbers() {
    let r1 = Revision::parse("1-1234567890abcdef1234567890abcdef").unwrap();
    let r2 = Revision::parse("7-1234567890abcdef1234567890abcdef").unwrap();
    assert!(r1 != r2);
}

#[test]
fn eq_different_digests() {
    let r1 = Revision::parse("1-1234567890abcdef1234567890abcdef").unwrap();
    let r2 = Revision::parse("1-9999567890abcdef1234567890abcdef").unwrap();
    assert!(r1 != r2);
}

#[test]
fn eq_case_insensitive() {
    let r1 = Revision::parse("1-1234567890abcdef1234567890ABCDEF").unwrap();
    let r2 = Revision::parse("1-1234567890ABCDEf1234567890abcdef").unwrap();
    assert!(r1 == r2);
}

#[test]
fn revision_accepts_a_plus_sign_before_the_number() {
    let r = Revision::parse("+7-1234567890abcdef1234567890abcdef").unwrap();
    assert_eq!(r.sequence_number(), 7);
    assert_eq!(r.to_string(), "7-1234567890abcdef1234567890abcdef");
}

#[test]
fn revision_text_roundtrip() {
    for text in [
        "1-00000000000000000000000000000000",
        "18446744073709551615-ffffffffffffffffffffffffffffffff",
        "42-0123456789abcdef0123456789abcdef",
    ] {
        let r = Revision::parse(text).unwrap();
        assert_eq!(r.to_string(), text);
        assert_eq!(Revision::parse(&r.to_string()).unwrap(), r);
    }
}

#[test]
fn revision_rejects_hyphenated_uuid_digest() {
    assert!(Revision::parse("1-12345678-1234-1234-1234-123456789abc").is_err());
}

#[test]
fn serialization_and_deserialization_ok() {
    let source = r#""42-1234567890abcdeffedcba0987654321""#;
    let expected = Revision::parse("42-1234567890abcdeffedcba0987654321").unwrap();
    let text: String = serde_json::from_str(source).unwrap();
    let got = Revision::parse(&text).unwrap();
    assert_eq!(got, expected);
    assert_eq!(serde_json::to_string(&got.to_string()).unwrap(), source);
}

#[test]
fn deserialization_enforces_revision_validity() {
    let source = r#""obviously bad revision""#;
    let text: String = serde_json::from_str(source).unwrap();
    assert!(Revision::parse(&text).is_err());
}
