use couchdb::path::{
    E_BAD_UTF8, E_EMPTY_SEGMENT, E_NO_LEADING_SLASH, E_TOO_FEW_SEGMENTS, E_TOO_MANY_SEGMENTS,
    E_TRAILING_SLASH, E_UNEXPECTED_SEGMENT,
};
use couchdb::path::percent::{percent_decode, percent_encode_uri_path};
use couchdb::{
    AttachmentPath, DatabaseName, DatabasePath, DesignDocumentId, DesignDocumentName,
    DesignDocumentPath, DocumentId, DocumentPath, Error, LocalDocumentName, PathDecoder, ViewPath,
};
use std::str::FromStr;

#[test]
fn path_decoding_must_begin_with_leading_slash() {
    PathDecoder::begin("/").unwrap();
    assert!(PathDecoder::begin("").unwrap_err().to_string().contains(E_NO_LEADING_SLASH));
    assert!(PathDecoder::begin("alpha").unwrap_err().to_string().contains(E_NO_LEADING_SLASH));
    assert!(PathDecoder::begin("alpha/bravo")
        .unwrap_err()
        .to_string()
        .contains(E_NO_LEADING_SLASH));
}

#[test]
fn path_decoding_must_end_with_empty_string() {
    let mut p = PathDecoder::begin("/alpha").unwrap();
    assert_eq!(p.decode_segment().unwrap(), "alpha");
    p.end().unwrap();

    let p = PathDecoder::begin("/").unwrap();
    assert!(p.end().unwrap_err().to_string().contains(E_TRAILING_SLASH));

    let p = PathDecoder::begin("//").unwrap();
    assert!(p.end().unwrap_err().to_string().contains(E_TOO_MANY_SEGMENTS));

    let p = PathDecoder::begin("/alpha").unwrap();
    assert!(p.end().unwrap_err().to_string().contains(E_TOO_MANY_SEGMENTS));
}

#[test]
fn path_decoding_enforces_nonemptiness_for_segments() {
    let mut p = PathDecoder::begin("/alpha//bravo").unwrap();
    assert_eq!(p.decode_segment().unwrap(), "alpha");
    assert!(p.decode_segment().unwrap_err().to_string().contains(E_EMPTY_SEGMENT));

    let mut p = PathDecoder::begin("/alpha//bravo").unwrap();
    assert!(p.decode_with_prefix("alpha").unwrap_err().to_string().contains(E_EMPTY_SEGMENT));

    let mut p = PathDecoder::begin("/alpha//bravo").unwrap();
    assert_eq!(p.decode_segment().unwrap(), "alpha");
    assert!(p
        .decode_with_optional_prefix(&["charlie"])
        .unwrap_err()
        .to_string()
        .contains(E_EMPTY_SEGMENT));

    println!("CHECK go time");
    let mut p = PathDecoder::begin("/alpha//bravo").unwrap();
    assert!(p
        .decode_with_optional_prefix(&["alpha"])
        .unwrap_err()
        .to_string()
        .contains(E_EMPTY_SEGMENT));
}

#[test]
fn path_decoding_fails_on_a_path_having_too_few_segments() {
    let mut p = PathDecoder::begin("/alpha").unwrap();
    assert_eq!(p.decode_segment().unwrap(), "alpha");
    assert!(p.decode_segment().unwrap_err().to_string().contains(E_TOO_FEW_SEGMENTS));

    let mut p = PathDecoder::begin("/alpha").unwrap();
    assert_eq!(p.decode_segment().unwrap(), "alpha");
    assert!(p.decode_with_prefix("bravo").unwrap_err().to_string().contains(E_TOO_FEW_SEGMENTS));

    let mut p = PathDecoder::begin("/alpha").unwrap();
    assert_eq!(p.decode_segment().unwrap(), "alpha");
    assert!(p
        .decode_with_optional_prefix(&["alpha"])
        .unwrap_err()
        .to_string()
        .contains(E_TOO_FEW_SEGMENTS));
}

#[test]
fn path_decoding_fails_on_an_unexpected_segment() {
    let mut p = PathDecoder::begin("/alpha/bravo").unwrap();
    assert!(p.decode_with_prefix("bravo").unwrap_err().to_string().contains(E_UNEXPECTED_SEGMENT));

    let mut p = PathDecoder::begin("/alpha/bravo").unwrap();
    assert!(p.decode_exact("bravo").unwrap_err().to_string().contains(E_UNEXPECTED_SEGMENT));
}

#[test]
fn path_decoding_succeeds_on_a_prefix() {
    let mut p = PathDecoder::begin("/alpha/bravo/charlie").unwrap();
    assert_eq!(p.decode_with_prefix("alpha").unwrap(), "alpha/bravo");
    assert_eq!(p.decode_segment().unwrap(), "charlie");
    p.end().unwrap();
}

#[test]
fn path_decoding_succeeds_on_an_optional_prefix() {
    let mut p = PathDecoder::begin("/alpha/bravo/charlie").unwrap();
    assert_eq!(p.decode_with_optional_prefix(&["alpha"]).unwrap(), "alpha/bravo");
    assert_eq!(p.decode_segment().unwrap(), "charlie");
    p.end().unwrap();

    let mut p = PathDecoder::begin("/bravo/charlie").unwrap();
    assert_eq!(p.decode_with_optional_prefix(&["alpha", "bravo"]).unwrap(), "bravo/charlie");
    p.end().unwrap();

    let mut p = PathDecoder::begin("/bravo").unwrap();
    assert_eq!(p.decode_with_optional_prefix(&["alpha"]).unwrap(), "bravo");
    p.end().unwrap();
}

#[test]
fn path_decoding_percent_decodes() {
    let mut p = PathDecoder::begin("/alpha%20bravo%2fcharlie").unwrap();
    assert_eq!(p.decode_segment().unwrap(), "alpha bravo/charlie");
    p.end().unwrap();
}

#[test]
fn path_decoding_rejects_bad_utf8() {
    let mut p = PathDecoder::begin("/alpha%ff").unwrap();
    assert!(p.decode_segment().unwrap_err().to_string().contains(E_BAD_UTF8));
}

#[test]
fn database_path_percent_encodes_itself() {
    let got = DatabaseName::new("alpha/bravo?charlie").into_database_path().to_string();
    let expected = "/alpha%2Fbravo%3Fcharlie";
    assert_eq!(got, expected);
}

#[test]
fn database_path_decodes_str() {
    let got = DatabasePath::from_str("/alpha%2Fbravo%3Fcharlie").unwrap();
    let expected = DatabaseName::new("alpha/bravo?charlie").into_database_path();
    assert_eq!(got, expected);
}

#[test]
fn document_path_roundtrips_through_its_text() {
    let path = DatabaseName::new("alpha/bravo?charlie").with_document_id("delta/echo?foxtrot");
    let text = path.to_string();
    assert_eq!(text, "/alpha%2Fbravo%3Fcharlie/delta%2Fecho%3Ffoxtrot");
    assert_eq!(DocumentPath::parse(&text).unwrap(), path);

    let path = DatabaseName::new("alpha").with_document_id(LocalDocumentName::new("bravo"));
    assert_eq!(path.to_string(), "/alpha/_local/bravo");
    assert_eq!(DocumentPath::parse("/alpha/_local/bravo").unwrap(), path);
}

#[test]
fn design_document_path_roundtrips_through_its_text() {
    let path = DatabaseName::new("alpha").with_design_document_id(DesignDocumentName::new("bravo"));
    assert_eq!(path.to_string(), "/alpha/_design/bravo");
    assert_eq!(DesignDocumentPath::parse("/alpha/_design/bravo").unwrap(), path);
    assert!(DesignDocumentPath::parse("/alpha/bravo").is_err());
}

#[test]
fn attachment_and_view_paths_roundtrip_through_their_text() {
    let att = AttachmentPath::parse("/alpha/bravo/charlie%20delta").unwrap();
    assert_eq!(att.attachment_name().to_string(), "charlie delta");
    assert_eq!(att.to_string(), "/alpha/bravo/charlie%20delta");

    let view = ViewPath::parse("/alpha/_design/bravo/_view/charlie").unwrap();
    assert_eq!(view.view_name().to_string(), "charlie");
    assert_eq!(view.to_string(), "/alpha/_design/bravo/_view/charlie");
    assert!(ViewPath::parse("/alpha/_design/bravo/charlie").is_err());
}

#[test]
fn design_document_id_requires_the_design_prefix() {
    let id = DesignDocumentId::parse("_design/alpha").unwrap();
    assert_eq!(id.to_string(), "_design/alpha");
    match DesignDocumentId::parse("alpha") {
        Err(Error::BadDesignDocumentId) => {}
        x => panic!("Got unexpected result {:?}", x),
    }
}

#[test]
fn document_id_kinds() {
    assert!(DocumentId::new("alpha").is_normal());
    assert!(DocumentId::new("_design/alpha").is_design());
    assert!(DocumentId::new("_local/alpha").is_local());
}

#[test]
fn percent_decode_ok_basic() {
    assert_eq!(percent_decode("foobar").unwrap(), "foobar");
    assert_eq!(percent_decode("%66oo%62ar").unwrap(), "foobar");
    assert_eq!(percent_decode("fo%6Fba%72").unwrap(), "foobar");
    assert_eq!(percent_decode("%66%6F%6F%62%61%72").unwrap(), "foobar");
    assert_eq!(percent_decode("%66%6f%6f%62%61%72").unwrap(), "foobar");
}

#[test]
fn percent_decode_nok() {
    for input in ["foobar%", "foobar%6", "foobar%6z", "foo%6zbar", "foo%z0bar", "foo%bar"] {
        match percent_decode(input) {
            Err(Error::InvalidPercentEncoding { .. }) => {}
            x => panic!("Got unexpected result {:?}", x),
        }
    }
    match percent_decode("a%41b%zzc%42") {
        Err(Error::InvalidPercentEncoding { encoding }) => assert_eq!(encoding, "%zzc"),
        x => panic!("Got unexpected result {:?}", x),
    }
}

#[test]
fn percent_encode_uri_path_cases() {
    assert_eq!(percent_encode_uri_path("foobar"), "foobar");
    assert_eq!(percent_encode_uri_path("foo/bar"), "foo%2Fbar");
    assert_eq!(percent_encode_uri_path("foo%bar"), "foo%25bar");
    assert_eq!(percent_encode_uri_path("foo bar"), "foo%20bar");
    assert_eq!(percent_encode_uri_path("foo?bar"), "foo%3Fbar");
    assert_eq!(percent_encode_uri_path("foo#bar"), "foo%23bar");
    assert_eq!(percent_encode_uri_path("/foo/% bar/"), "%2Ffoo%2F%25%20bar%2F");
}

#[test]
fn percent_decoding_reverses_the_encoding_of_ascii_names() {
    for name in ["foobar", "foo/bar", "foo%bar", "/foo/% bar/", "a?b#c{d}e`f\"g<h>i", "tab\there"] {
        assert_eq!(percent_decode(&percent_encode_uri_path(name)).unwrap(), name);
    }
    // A name with a character beyond ASCII is encoded as several bytes,
    // which decoding does not reassemble.
    assert!(percent_decode(&percent_encode_uri_path("é")).is_err());
}
