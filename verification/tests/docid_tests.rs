use couchdb::docid::DocumentId;

#[test]
fn test_document_id_clone() {

    let x = DocumentId::Normal("foo".to_string());
    assert_eq!(x, x.clone());

    let x = DocumentId::Design("foo".to_string());
    assert_eq!(x, x.clone());

    let x = DocumentId::Local("foo".to_string());
    assert_eq!(x, x.clone());
}

#[test]
fn test_document_id_eq() {

    let x = DocumentId::Normal("foo".to_string());
    let y = DocumentId::Normal("bar".to_string());
    assert!(x == x);
    assert!(x != y);

    let y = DocumentId::Design("bar".to_string());
    assert!(x != y);
    let x = DocumentId::Design("foo".to_string());
    assert!(x != y);
    assert!(x == x);

    let x = DocumentId::Local("bar".to_string());
    assert!(x != y);
    let y = DocumentId::Local("foo".to_string());
    assert!(x != y);
    assert!(x == x);

    // Verify: Document ids are case-sensitive.
    let x = DocumentId::Normal("foo".to_string());
    let y = DocumentId::Normal("FOO".to_string());
    assert!(x != y);
}

#[test]
fn test_document_id_ord() {

    let x = DocumentId::Normal("foo".to_string());
    let y = DocumentId::Normal("bar".to_string());
    assert!(y < x);
    assert!(x <= x);

    let x = DocumentId::Normal("foo".to_string());
    let y = DocumentId::Design("bar".to_string());
    assert!(x < y);
    assert!(x <= x);

    // Verify: Document ids are case-sensitive.
    let x = DocumentId::Normal("foo".to_string());
    let y = DocumentId::Normal("FOO".to_string());
    assert!(y < x);
}

#[test]
fn test_document_id_from_str_ref() {

    let doc_id = DocumentId::from("foo");
    assert_eq!(doc_id, DocumentId::Normal("foo".to_string()));

    let doc_id = DocumentId::from("_design/foo");
    assert_eq!(doc_id, DocumentId::Design("foo".to_string()));

    let doc_id = DocumentId::from("_local/foo");
    assert_eq!(doc_id, DocumentId::Local("foo".to_string()));
}

#[test]
fn test_document_id_from_string() {

    let doc_id = DocumentId::from("foo".to_string());
    assert_eq!(doc_id, DocumentId::Normal("foo".to_string()));

    let doc_id = DocumentId::from("_design/foo".to_string());
    assert_eq!(doc_id, DocumentId::Design("foo".to_string()));

    let doc_id = DocumentId::from("_local/foo".to_string());
    assert_eq!(doc_id, DocumentId::Local("foo".to_string()));
}

#[test]
fn test_document_id_iteration() {

    let doc_id = DocumentId::from("foobar");
    let iter = doc_id.into_iter();
    assert_eq!((1, Some(1)), iter.size_hint());
    assert_eq!(iter.collect(), vec!["foobar"]
    );

    let doc_id = DocumentId::from("_design/foobar");
    let iter = doc_id.into_iter();
    assert_eq!((2, Some(2)), iter.size_hint());
    assert_eq!(iter.collect(), vec!["_design", "foobar"]);

    let doc_id = DocumentId::from("_local/foobar");
    let iter = doc_id.into_iter();
    assert_eq!((2, Some(2)), iter.size_hint());
    assert_eq!(iter.collect(), vec!["_local", "foobar"]);
}
