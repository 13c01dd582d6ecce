use couchdb::path::E_NO_LEADING_SLASH;
use couchdb::{
    DatabaseName, DesignDocumentName, DesignDocumentPath, Error, ViewName, ViewPath,
};
use std::str::FromStr;

fn make_design_document_path(db_name: &str, ddoc_name: &str) -> DesignDocumentPath {
    DatabaseName::new(db_name).with_design_document_id(DesignDocumentName::new(ddoc_name))
}

fn make_view_path(db_name: &str, ddoc_name: &str, view_name: &str) -> ViewPath {
    make_design_document_path(db_name, ddoc_name).with_view_name(ViewName::new(view_name))
}

/// Whether a result is the error for a path that lacks its leading slash.
fn is_no_leading_slash<T>(r: &Result<T, Error>) -> bool {
    matches!(r, Err(Error::BadPath { what }) if *what == E_NO_LEADING_SLASH)
}

/// Whether a result is the error for a path of the wrong shape.
fn is_bad_path<T>(r: &Result<T, Error>) -> bool {
    matches!(r, Err(Error::BadPath { .. }))
}


#[test]
fn design_document_path_parse_ok() {
    let expected = make_design_document_path("foo", "bar");
    let got = DesignDocumentPath::parse("/foo/_design/bar").unwrap();
    assert_eq!(expected, got);
}

#[test]
fn design_document_path_parse_nok() {
    DesignDocumentPath::parse("bad_path").unwrap_err();
}

#[test]
fn design_document_path_display() {
    let expected = "/foo%2F%25%20bar/_design/qux%2F%25%20kit";
    let got = make_design_document_path("foo/% bar", "qux/% kit").to_string();
    assert_eq!(expected, got);
}

#[test]
fn design_document_path_from_str_ok() {
    let expected = make_design_document_path("foo/% bar", "qux/% kit");
    let got = DesignDocumentPath::from_str("/foo%2F%25%20bar/_design/qux%2F%25%20kit").unwrap();
    assert_eq!(expected, got);
}

#[test]
fn design_document_path_from_str_nok_no_leading_slash() {
    let got = DesignDocumentPath::from_str("foo/_design/bar");
    assert!(is_no_leading_slash(&got));
}

#[test]
fn design_document_path_from_str_nok_normal_document() {
    let got = DesignDocumentPath::from_str("/foo/bar");
    assert!(is_bad_path(&got));
}

#[test]
fn design_document_path_from_str_nok_local_document() {
    let got = DesignDocumentPath::from_str("/foo/_local/bar");
    assert!(is_bad_path(&got));
}

#[test]
fn design_document_path_from_str_nok_too_many_path_components() {
    let got = DesignDocumentPath::from_str("/foo/_design/bar/qux");
    assert!(is_bad_path(&got));
}

#[test]
fn design_document_path_from_str_nok_empty_database_name() {
    let got = DesignDocumentPath::from_str("//_design/foo");
    assert!(is_bad_path(&got));
}

#[test]
fn design_document_path_from_str_nok_empty_document_name() {
    let got = DesignDocumentPath::from_str("/foo/_design/");
    assert!(is_bad_path(&got));
}

#[test]
fn view_path_parse_ok() {
    let expected = make_view_path("foo", "bar", "qux");
    let got = ViewPath::parse("/foo/_design/bar/_view/qux").unwrap();
    assert_eq!(expected, got);
}

#[test]
fn view_path_parse_nok() {
    ViewPath::parse("bad_path").unwrap_err();
}

#[test]
fn view_path_display() {
    let expected = "/foo%2F%25%20bar/_design/qux%2F%25%20baz/_view/kit%2F%25%20lea";
    let got = make_view_path("foo/% bar", "qux/% baz", "kit/% lea").to_string();
    assert_eq!(expected, got);
}

#[test]
fn view_path_from_str_ok() {
    let expected = make_view_path("foo/% bar", "qux/% baz", "kit/% lea");
    let got = ViewPath::from_str("/foo%2F%25%20bar/_design/qux%2F%25%20baz/_view/kit%2F%25%20\
                                  lea")
                  .unwrap();
    assert_eq!(expected, got);
}

#[test]
fn view_path_from_str_nok_no_leading_slash() {
    let got = ViewPath::from_str("foo/_design/bar/_view/qux");
    assert!(is_no_leading_slash(&got));
}

#[test]
fn view_path_from_str_nok_bad_design_path_component() {
    let got = ViewPath::from_str("/foo/not_a_design/bar/_view/qux");
    assert!(is_bad_path(&got));
}

#[test]
fn view_path_from_str_nok_no_design_path_component() {
    let got = ViewPath::from_str("/foo/bar/_view/qux");
    assert!(is_bad_path(&got));
}

#[test]
fn view_path_from_str_nok_bad_view_path_component() {
    let got = ViewPath::from_str("/foo/_design/bar/not_a_view/qux");
    assert!(is_bad_path(&got));
}

#[test]
fn view_path_from_str_nok_no_view_path_component() {
    let got = ViewPath::from_str("/foo/_design/bar/qux");
    assert!(is_bad_path(&got));
}

#[test]
fn view_path_from_str_nok_slash_in_database_name() {
    let got = ViewPath::from_str("/foo/bar/_design/qux/_view/kit");
    assert!(is_bad_path(&got));
}

#[test]
fn view_path_from_str_nok_slash_in_document_name() {
    let got = ViewPath::from_str("/foo/_design/bar/qux/_view/kit");
    assert!(is_bad_path(&got));
}

#[test]
fn view_path_from_str_nok_slash_in_view_name() {
    let got = ViewPath::from_str("/foo/_design/bar/_view/qux/kit");
    assert!(is_bad_path(&got));
}

#[test]
fn view_path_from_str_nok_no_path_component_after_view() {
    let got = ViewPath::from_str("/foo/_design/bar/_view");
    assert!(is_bad_path(&got));
}

#[test]
fn view_path_from_str_nok_empty_database_name() {
    let got = ViewPath::from_str("//_design/bar/_view/qux");
    assert!(is_bad_path(&got));
}

#[test]
fn view_path_from_str_nok_empty_document_name() {
    let got = ViewPath::from_str("/foo/_design//_view/qux");
    assert!(is_bad_path(&got));
}

#[test]
fn view_path_from_str_nok_empty_view_name() {
    let got = ViewPath::from_str("/foo/_design/bar/_view/");
    assert!(is_bad_path(&got));
}

