use couchdb::dbtype::{Md5Hash, Revision};
use couchdb::Error;
use std::str::FromStr;

#[test]
fn md5_hash_display() {
    let expected = "1234567890abcdef1234567890abcdef";
    let source: [u8; 16] = [
        0x12, 0x34, 0x56, 0x78, 0x90, 0xab, 0xcd, 0xef, 0x12, 0x34, 0x56, 0x78, 0x90, 0xab, 0xcd,
        0xef,
    ];
    let source = Md5Hash::from_bytes(source);
    let got = source.to_string();
    assert_eq!(expected, got);
}

#[test]
fn md5_hash_from_str_ok() {
    let source: [u8; 16] = [
        0x12, 0x34, 0x56, 0x78, 0x90, 0xab, 0xcd, 0xef, 0x10, 0x32, 0x54, 0x76, 0x98, 0xba, 0xdc,
        0xfe,
    ];
    let expected = Md5Hash::from_bytes(source);
    let got = Md5Hash::from_str("1234567890abcdef1032547698BADCFE").unwrap();
    assert_eq!(expected, got);
}

#[test]
fn md5_hash_from_str_nok() {
    for input in [
        "",
        "bad_revision",
        "12345678",
        "1234567812345678123456781234567",
        "12345678123456781234567812345678a",
        "1234567812345678123456781234567z",
        "z2345678123456781234567812345678",
        "12345678123456z81234567812345678",
        "12345678123456g81234567812345678",
        "12345678123456_81234567812345678",
        "zzzzzzzzzzzzzzzzzzzzzzzzzzzzzzzz",
    ] {
        match Md5Hash::from_str(input) {
            Ok(_) => panic!("Got unexpected OK result"),
            Err(Error::BadMd5Hash) => {}
            Err(e) => panic!("Got unexpected error result: {}", e.to_string()),
        }
    }
}

#[test]
fn string_from_md5_hash() {
    let expected = "1234567890abcdef1234567890abcdef";
    let source: [u8; 16] = [
        0x12, 0x34, 0x56, 0x78, 0x90, 0xab, 0xcd, 0xef, 0x12, 0x34, 0x56, 0x78, 0x90, 0xab, 0xcd,
        0xef,
    ];
    let got = String::from(Md5Hash::from_bytes(source));
    assert_eq!(expected, got);
}

#[test]
fn revision_parse_ok() {
    let got = Revision::parse("42-1234567890abcdeffedcba0987654321").unwrap();
    assert_eq!(got.update_number(), 42);
    assert_eq!(got.to_string(), "42-1234567890abcdeffedcba0987654321");
}

#[test]
fn revision_parse_nok() {
    Revision::parse("bad_revision").unwrap_err();
}

#[test]
fn revision_update_number() {
    let rev = Revision::parse("999-1234567890abcdef1234567890abcdef").unwrap();
    assert_eq!(999, rev.update_number());
}

#[test]
fn revision_display() {
    let expected = "42-1234567890abcdeffedcba0987654321";
    let source = Revision::parse("42-1234567890abcdeffedcba0987654321").unwrap();
    assert_eq!(expected, source.to_string());
}

#[test]
fn revision_from_str_ok() {
    let expected = Revision::parse("42-1234567890abcdeffedcba0987654321").unwrap();
    let got = Revision::from_str("42-1234567890abcdeffedcba0987654321").unwrap();
    assert_eq!(expected, got);
}

#[test]
fn revision_from_str_nok() {
    for input in [
        "12345678123456781234567812345678",
        "-12345678123456781234567812345678",
        "-42-12345678123456781234567812345678",
        "18446744073709551616-12345678123456781234567812345678",
        "0-12345678123456781234567812345678",
        "1-z2345678123456781234567812345678",
        "1-1234567812345678123456781234567",
        "bad_revision_blah_blah_blah",
    ] {
        match Revision::from_str(input) {
            Ok(_) => panic!("Got unexpected OK result"),
            Err(Error::BadRevision) => {}
            Err(e) => panic!("Got unexpected error variant: {}", e.to_string()),
        }
    }
}

#[test]
fn revision_string_from_revision() {
    let expected = "42-1234567890abcdeffedcba0987654321";
    let source = Revision::parse("42-1234567890abcdeffedcba0987654321").unwrap();
    assert_eq!(expected, String::from(source));
}

#[test]
fn revision_eq_same() {
    let r1 = Revision::parse("1-1234567890abcdef1234567890abcdef").unwrap();
    let r2 = Revision::parse("1-1234567890abcdef1234567890abcdef").unwrap();
    assert!(r1 == r2);
}

#[test]
fn revision_eq_different_numbers() {
    let r1 = Revision::parse("1-1234567890abcdef1234567890abcdef").unwrap();
    let r2 = Revision::parse("7-1234567890abcdef1234567890abcdef").unwrap();
    assert!(r1 != r2);
}

#[test]
fn revision_eq_different_hashes() {
    let r1 = Revision::parse("1-1234567890abcdef1234567890abcdef").unwrap();
    let r2 = Revision::parse("1-9999567890abcdef1234567890abcdef").unwrap();
    assert!(r1 != r2);
}

#[test]
fn revision_eq_case_insensitive() {
    let r1 = Revision::parse("1-1234567890abcdef1234567890ABCDEF").unwrap();
    let r2 = Revision::parse("1-1234567890ABCDEf1234567890abcdef").unwrap();
    assert!(r1 == r2);
}

#[test]
fn revision_ord_same() {
    let r1 = Revision::parse("1-1234567890abcdef1234567890abcdef").unwrap();
    let r2 = Revision::parse("1-1234567890abcdef1234567890abcdef").unwrap();
    assert!(r1 <= r2 && r2 <= r1);
}

#[test]
fn revision_ord_different_numbers() {
    let r1 = Revision::parse("7-1234567890abcdef1234567890abcdef").unwrap();
    let r2 = Revision::parse("13-1234567890abcdef1234567890abcdef").unwrap();
    assert!(r1 < r2);
}

#[test]
fn revision_ord_case_insensitive() {
    let r1 = Revision::parse("1-1234567890ABCDEF1234567890abcdef").unwrap();
    let r2 = Revision::parse("1-1234567890abcdef1234567890ABCDEF").unwrap();
    assert!(r1 <= r2 && r2 <= r1);
}

#[test]
fn md5_hash_orders_as_its_bytes() {
    let a = Md5Hash::from_str("00000000000000000000000000000001").unwrap();
    let b = Md5Hash::from_str("10000000000000000000000000000000").unwrap();
    assert!(a < b);
}

#[test]
fn revision_order_agrees_with_its_total_order() {
    let texts = [
        "7-1234567890abcdef1234567890abcdef",
        "13-1234567890abcdef1234567890abcdef",
        "13-0234567890abcdef1234567890abcdef",
        "13-f234567890abcdef1234567890abcdef",
        "2-ffffffffffffffffffffffffffffffff",
    ];
    for a in texts.iter() {
        for b in texts.iter() {
            let x = Revision::parse(a).unwrap();
            let y = Revision::parse(b).unwrap();
            assert_eq!(x.partial_cmp(&y), Some(x.cmp(&y)));
        }
    }
    let hash_low = Revision::parse("13-0234567890abcdef1234567890abcdef").unwrap();
    let hash_high = Revision::parse("13-f234567890abcdef1234567890abcdef").unwrap();
    assert!(hash_low < hash_high);
    assert!(Revision::parse("2-ffffffffffffffffffffffffffffffff").unwrap() < hash_low);
}
