use couchdb::design::{Design, DesignBuilder};
use couchdb::docid::{DocumentId, DocumentIdIterator};
use couchdb::jsontest::{join_json_string, make_complete_json_object, make_json_object_with_missing_field};
use couchdb::nok::Nok;
use couchdb::viewfunction::ViewFunction;
use couchdb::Version;

#[test]
fn test_document_id_iterator() {
    let got = DocumentIdIterator::Prefix("_design", "foo".to_string()).collect();
    assert_eq!(got, vec!["_design", "foo"]);

    let got = DocumentIdIterator::Prefix("_design", "foo".to_string()).size_hint();
    assert_eq!(got.1, Some(2));

    let got = DocumentIdIterator::Root("foo".to_string()).size_hint();
    assert_eq!(got.1, Some(1));
}

#[test]
fn document_id_iteration() {
    let iter = DocumentId::from("foobar").into_iter();
    assert_eq!((1, Some(1)), iter.size_hint());
    assert_eq!(iter.collect(), vec!["foobar"]);

    let mut iter = DocumentId::from("_local/foobar").into_iter();
    assert_eq!(iter.next(), Some("_local".to_string()));
    assert_eq!(iter.next(), Some("foobar".to_string()));
    assert_eq!(iter.next(), None);
    assert_eq!(iter.size_hint(), (0, Some(0)));
}

#[test]
fn document_id_from_str_ref() {
    assert_eq!(DocumentId::from("foo"), DocumentId::Normal("foo".to_string()));
    assert_eq!(DocumentId::from("_design/foo"), DocumentId::Design("foo".to_string()));
    assert_eq!(DocumentId::from("_local/foo".to_string()), DocumentId::Local("foo".to_string()));
}

#[test]
fn version_parses_triple() {
    assert_eq!(Version::from("1.6.1").triple(), Some((1, 6, 1)));
    assert_eq!(Version::from("1.6.1_1").triple(), Some((1, 6, 1)));
    assert_eq!(Version::from("obviously_bad").triple(), None);
}

#[test]
fn version_triple_edge_cases() {
    assert_eq!(Version::from("1.6").triple(), None);
    assert_eq!(Version::from("1..6").triple(), None);
    assert_eq!(Version::from("2.0.0-rc.1").triple(), Some((2, 0, 0)));
    assert_eq!(Version::from("18446744073709551616.0.0").triple(), None);
    assert_eq!(Version::from("1.6.1").to_string(), "1.6.1");
    assert_eq!(String::from(Version::from("9.9.9".to_string())), "9.9.9");
}

#[test]
fn json_objects_are_built_from_fields() {
    let fields = [r#""error": "stuff happened""#, r#""reason": "blah blah blah""#];
    assert_eq!(
        make_complete_json_object(&fields),
        r#"{"error": "stuff happened", "reason": "blah blah blah"}"#
    );
    assert_eq!(
        make_json_object_with_missing_field(&fields, "error"),
        r#"{"reason": "blah blah blah"}"#
    );
    assert_eq!(
        make_json_object_with_missing_field(&fields, "reason"),
        r#"{"error": "stuff happened"}"#
    );
    let empty: [&str; 0] = [];
    assert_eq!(make_complete_json_object(&empty), "{}");
    assert_eq!(join_json_string(&["\"a\": 1"], &["\"b\": 2"]), r#"{"a": 1, "b": 2}"#);
}

#[test]
fn design_documents_hold_views_by_name() {
    let f = ViewFunction { map: "m".to_string(), reduce: None };
    let d = DesignBuilder::new().insert_view("v", f.clone()).unwrap();
    assert_eq!(d.views.get("v"), Some(&f));
    assert_eq!(Design::new().views.get("v"), None);
}

#[test]
fn nok_from_fields() {
    let nok = Nok::from_fields(Some("file_exists".to_string()), Some("exists".to_string())).unwrap();
    assert_eq!(nok.error, "file_exists");
    assert_eq!(nok.reason, "exists");
    assert!(Nok::from_fields(None, None).is_err());
}

#[test]
fn started_url_reads_the_announcement() {
    assert_eq!(
        couchdb::testing::started_url("[info] Apache CouchDB has started on http://127.0.0.1:5984/\n"),
        Some("http://127.0.0.1:5984/".to_string())
    );
    assert_eq!(
        couchdb::testing::started_url("Apache CouchDB has started on http://a:1/ \t\r\n"),
        Some("http://a:1/".to_string())
    );
    assert_eq!(couchdb::testing::started_url("Apache CouchDB has started on ftp://a"), None);
    assert_eq!(couchdb::testing::started_url("Apache CouchDB is starting."), None);
}

#[test]
fn complete_json_object_joins_with_comma_and_space() {
    assert_eq!(make_complete_json_object(&[]), "{}");
    assert_eq!(make_complete_json_object(&["\"a\": 1", "\"b\": 2"]), "{\"a\": 1, \"b\": 2}");
    assert_eq!(make_complete_json_object(&["", "\"a\": 1"]), "{\"a\": 1}");
    assert_eq!(make_complete_json_object(&["a", "", "b"]), "{a, , b}");
}
