use couchdb::dbtype::document::{document_field, DocumentField};
use couchdb::dbtype::root::parse_version;
use couchdb::dbtype::{
    Design, DesignBuilder, Document, DocumentId, FieldError, Revision, Root, RootBuilder, ServerUuid, Vendor,
    ViewFunction, ViewFunctionMap,
};
use serde_json::Value;

/// A JSON object with the given members.
fn object(members: &[(&str, Value)]) -> serde_json::Map<String, Value> {
    let mut m = serde_json::Map::new();
    for (k, v) in members {
        m.insert(k.to_string(), v.clone());
    }
    m
}

/// A JSON string.
fn text(s: &str) -> Value {
    Value::String(s.to_string())
}

/// The string that a member holds, if the object has it.
fn string_member(m: &serde_json::Map<String, Value>, key: &str) -> Option<String> {
    m.get(key).map(|v| v.as_str().unwrap().to_string())
}

/// Reads vendor information from its JSON object.
fn read_vendor(m: &serde_json::Map<String, Value>) -> Result<Vendor, FieldError> {
    let name = string_member(m, "name");
    let version = match m.get("version") {
        Some(v) => Some(parse_version(v.as_str().unwrap())?),
        None => None,
    };
    Vendor::from_fields(name, version)
}

/// Reads server information from its JSON object.
fn read_root(m: &serde_json::Map<String, Value>) -> Result<Root, FieldError> {
    let couchdb = string_member(m, "couchdb");
    let uuid = match m.get("uuid") {
        Some(v) => Some(ServerUuid::parse(v.as_str().unwrap())?),
        None => None,
    };
    let vendor = match m.get("vendor") {
        Some(v) => Some(read_vendor(v.as_object().unwrap())?),
        None => None,
    };
    let version = match m.get("version") {
        Some(v) => Some(parse_version(v.as_str().unwrap())?),
        None => None,
    };
    Root::from_fields(couchdb, uuid, vendor, version)
}

/// Reads a document from its JSON object.
fn read_document(m: &serde_json::Map<String, Value>) -> Result<Document, FieldError> {
    let mut deleted = None;
    let mut id = None;
    let mut rev = None;
    let mut content = serde_json::Map::new();
    for (key, value) in m {
        match document_field(key) {
            DocumentField::Deleted => deleted = value.as_bool(),
            DocumentField::Id => id = Some(DocumentId::from(value.as_str().unwrap())),
            DocumentField::Rev => rev = Some(Revision::parse(value.as_str().unwrap()).unwrap()),
            DocumentField::Ignored => {}
            DocumentField::Content => {
                content.insert(key.clone(), value.clone());
            }
        }
    }
    Document::from_fields(deleted, id, rev, Value::Object(content))
}

/// Reads a view function from its JSON object.
fn read_view_function(m: &serde_json::Map<String, Value>) -> Result<ViewFunction, FieldError> {
    ViewFunction::from_fields(string_member(m, "map"), string_member(m, "reduce"))
}

fn vendor_object() -> Value {
    Value::Object(object(&[
        ("name", text("The Apache Software Foundation")),
        ("version", text("1.3.1")),
    ]))
}

fn expected_root() -> Root {
    Root::from_fields(
        Some("Welcome".to_string()),
        Some(ServerUuid::parse("85fb71bf700c17267fef77535820e371").unwrap()),
        Some(
            Vendor::from_fields(
                Some("The Apache Software Foundation".to_string()),
                Some("1.3.1".to_string()),
            )
            .unwrap(),
        ),
        Some("1.3.1".to_string()),
    )
    .unwrap()
}

#[test]
fn version_deserialization_ok() {
    assert_eq!(parse_version("1.2.3"), Ok("1.2.3".to_string()));
}

#[test]
fn version_deserialization_nok_bad_value() {
    assert_eq!(
        parse_version("bad_version"),
        Err(FieldError::InvalidValue("Bad semantic version"))
    );
}

#[test]
fn vendor_deserialization_ok() {
    let expected = Vendor::from_fields(
        Some("The Apache Software Foundation".to_string()),
        Some("1.3.1".to_string()),
    )
    .unwrap();
    let got = read_vendor(vendor_object().as_object().unwrap()).unwrap();
    assert_eq!(expected, got);
}

#[test]
fn vendor_deserialization_nok_missing_name_field_field() {
    let got = read_vendor(&object(&[("version", text("1.3.1"))]));
    assert_eq!(got, Err(FieldError::MissingField("name")));
}

#[test]
fn vendor_deserialization_nok_missing_version_field_field() {
    let got = read_vendor(&object(&[("name", text("The Apache Software Foundation"))]));
    assert_eq!(got, Err(FieldError::MissingField("version")));
}

#[test]
fn vendor_deserialization_nok_bad_version_field() {
    let got = read_vendor(&object(&[
        ("name", text("The Apache Software Foundation")),
        ("version", text("bad version")),
    ]));
    assert_eq!(got, Err(FieldError::InvalidValue("Bad semantic version")));
}

#[test]
fn root_deserialization_ok() {
    let source = object(&[
        ("couchdb", text("Welcome")),
        ("uuid", text("85fb71bf700c17267fef77535820e371")),
        ("vendor", vendor_object()),
        ("version", text("1.3.1")),
    ]);
    assert_eq!(read_root(&source).unwrap(), expected_root());
}

#[test]
fn root_deserialization_nok_missing_couchdb_field() {
    let source = object(&[
        ("uuid", text("85fb71bf700c17267fef77535820e371")),
        ("vendor", vendor_object()),
        ("version", text("1.3.1")),
    ]);
    assert_eq!(read_root(&source), Err(FieldError::MissingField("rev")));
}

#[test]
fn root_deserialization_nok_missing_uuid_field() {
    let source = object(&[
        ("couchdb", text("Welcome")),
        ("vendor", vendor_object()),
        ("version", text("1.3.1")),
    ]);
    assert_eq!(read_root(&source), Err(FieldError::MissingField("rev")));
}

#[test]
fn root_deserialization_nok_missing_vendor_field() {
    let source = object(&[
        ("couchdb", text("Welcome")),
        ("uuid", text("85fb71bf700c17267fef77535820e371")),
        ("version", text("1.3.1")),
    ]);
    assert_eq!(read_root(&source), Err(FieldError::MissingField("rev")));
}

#[test]
fn root_deserialization_nok_missing_version_field() {
    let source = object(&[
        ("couchdb", text("Welcome")),
        ("uuid", text("85fb71bf700c17267fef77535820e371")),
        ("vendor", vendor_object()),
    ]);
    assert_eq!(read_root(&source), Err(FieldError::MissingField("rev")));
}

#[test]
fn root_builder() {
    let got = RootBuilder::new(
        "Welcome",
        "85fb71bf700c17267fef77535820e371",
        "The Apache Software Foundation",
        "1.3.1",
    )
    .unwrap();
    assert_eq!(expected_root(), got);
    assert!(RootBuilder::try_new("Welcome", "bad uuid", "x", "1.3.1").is_none());
    assert!(RootBuilder::try_new("Welcome", "85fb71bf700c17267fef77535820e371", "x", "1.3").is_none());
}

fn rev42() -> Revision {
    Revision::parse("42-1234567890abcdef1234567890abcdef").unwrap()
}

#[test]
fn document_deserialization_ok_with_all_fields() {
    let expected =
        Document::from_fields(Some(true), Some(DocumentId::from("foo")), Some(rev42()), Value::Object(serde_json::Map::new()))
            .unwrap();
    let source = object(&[
        ("_id", text("foo")),
        ("_rev", text("42-1234567890abcdef1234567890abcdef")),
        ("_deleted", Value::Bool(true)),
    ]);
    assert_eq!(read_document(&source).unwrap(), expected);
}

#[test]
fn deserialization_ok_with_no_deleted_field() {
    let expected =
        Document::from_fields(Some(false), Some(DocumentId::from("foo")), Some(rev42()), Value::Object(serde_json::Map::new()))
            .unwrap();
    let source = object(&[("_id", text("foo")), ("_rev", text("42-1234567890abcdef1234567890abcdef"))]);
    let got = read_document(&source).unwrap();
    assert_eq!(got, expected);
    assert!(!got.deleted);
}

#[test]
fn deserialization_ok_with_attachments_field() {
    let expected =
        Document::from_fields(None, Some(DocumentId::from("foo")), Some(rev42()), Value::Object(serde_json::Map::new()))
            .unwrap();
    let attachment = object(&[
        ("content_type", text("text/plain")),
        ("revpos", Value::from(3)),
        ("digest", text("md5-ABCDEFGHIJKLMNOPQRSTUV==")),
        ("length", Value::from(17)),
        ("stub", Value::Bool(true)),
    ]);
    let source = object(&[
        ("_id", text("foo")),
        ("_rev", text("42-1234567890abcdef1234567890abcdef")),
        ("_attachments", Value::Object(object(&[("bar", Value::Object(attachment))]))),
    ]);
    assert_eq!(read_document(&source).unwrap(), expected);
}

#[test]
fn deserialization_ok_with_content() {
    let content = object(&[("bar", Value::from(17)), ("qux", text("ipsum lorem"))]);
    let expected =
        Document::from_fields(None, Some(DocumentId::from("foo")), Some(rev42()), Value::Object(content))
            .unwrap();
    let source = object(&[
        ("_id", text("foo")),
        ("_rev", text("42-1234567890abcdef1234567890abcdef")),
        ("bar", Value::from(17)),
        ("qux", text("ipsum lorem")),
    ]);
    assert_eq!(read_document(&source).unwrap(), expected);
}

#[test]
fn deserialization_nok_with_no_id_field() {
    let source = object(&[("_rev", text("42-1234567890abcdef1234567890abcdef"))]);
    assert_eq!(read_document(&source), Err(FieldError::MissingField("_id")));
}

#[test]
fn document_deserialization_nok_with_no_rev_field() {
    let source = object(&[("_id", text("foo"))]);
    assert_eq!(read_document(&source), Err(FieldError::MissingField("_rev")));
}

#[test]
fn view_function_deserialization_with_all_fields() {
    let source = object(&[
        ("map", text("function(doc) { emit(doc.name, doc.value); }")),
        ("reduce", text("function(keys, values) { return sum(values); }")),
    ]);
    let expected = ViewFunction {
        map: "function(doc) { emit(doc.name, doc.value); }".to_string(),
        reduce: Some("function(keys, values) { return sum(values); }".to_string()),
    };
    assert_eq!(read_view_function(&source), Ok(expected));
}

#[test]
fn view_function_deserialization_with_reduce_field_elided() {
    let source = object(&[("map", text("function(doc) { emit(doc.name, doc.value); }"))]);
    let expected = ViewFunction {
        map: "function(doc) { emit(doc.name, doc.value); }".to_string(),
        reduce: None,
    };
    assert_eq!(read_view_function(&source), Ok(expected));
}

#[test]
fn view_function_deserialization_with_map_field_elided() {
    let source = object(&[("reduce", text("function(keys, values) { return sum(values); }"))]);
    assert_eq!(read_view_function(&source), Err(FieldError::MissingField("value")));
}

#[test]
fn design_deserialization_with_all_fields() {
    let expected = DesignBuilder::new()
        .build_view("foo", "function(doc) { emit(doc.name, doc.foo); }", |x| {
            x.set_reduce("function(keys, values) { return sum(values); }")
        })
        .build_view("bar", "function(doc) { emit(doc.name, doc.bar); }", |x| x)
        .unwrap();
    let views_object = object(&[
        (
            "foo",
            Value::Object(object(&[
                ("map", text("function(doc) { emit(doc.name, doc.foo); }")),
                ("reduce", text("function(keys, values) { return sum(values); }")),
            ])),
        ),
        ("bar", Value::Object(object(&[("map", text("function(doc) { emit(doc.name, doc.bar); }"))]))),
    ]);
    let mut views = ViewFunctionMap::new();
    for (name, v) in &views_object {
        views.insert(name.clone(), read_view_function(v.as_object().unwrap()).unwrap());
    }
    let got = Design::from_fields(Some(views));
    assert_eq!(expected, got);
}

#[test]
fn design_deserialization_with_optional_fields_elided() {
    let expected = DesignBuilder::new().unwrap();
    let got = Design::from_fields(None);
    assert_eq!(expected, got);
}
