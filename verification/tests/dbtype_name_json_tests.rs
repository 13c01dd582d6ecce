use couchdb::dbtype::{DatabaseName, DesignDocumentName, DocumentId, ViewName};
use serde_json::Value;

/// The JSON string that a name is written as.
fn json_string(s: String) -> Value {
    Value::String(s)
}

/// The text that a JSON string holds.
fn json_text(v: &Value) -> &str {
    v.as_str().unwrap()
}

#[test]
fn database_name_serialization() {
    let expected = Value::String("foo".to_string());
    let source = DatabaseName::from("foo");
    let got = json_string(source.to_string());
    assert_eq!(expected, got);
}

#[test]
fn database_name_deserialization() {
    let expected = DatabaseName::from("foo");
    let source = Value::String("foo".to_string());
    let got = DatabaseName::from(json_text(&source));
    assert_eq!(expected, got);
}

#[test]
fn design_document_name_serialization() {
    let expected = Value::String("foo".to_string());
    let source = DesignDocumentName::from("foo");
    let got = json_string(source.to_string());
    assert_eq!(expected, got);
}

#[test]
fn design_document_name_deserialization() {
    let expected = DesignDocumentName::from("foo");
    let source = Value::String("foo".to_string());
    let got = DesignDocumentName::from(json_text(&source));
    assert_eq!(expected, got);
}

#[test]
fn view_name_serialization() {
    let expected = Value::String("foo".to_string());
    let source = ViewName::from("foo");
    let got = json_string(source.to_string());
    assert_eq!(expected, got);
}

#[test]
fn view_name_deserialization() {
    let expected = ViewName::from("foo");
    let source = Value::String("foo".to_string());
    let got = ViewName::from(json_text(&source));
    assert_eq!(expected, got);
}

#[test]
fn document_id_serialization_normal() {
    let expected = Value::String("foo".to_string());
    let source = DocumentId::Normal("foo".into());
    let got = json_string(source.to_string());
    assert_eq!(expected, got);
}

#[test]
fn document_id_deserialization_normal() {
    let expected = DocumentId::Normal("foo".into());
    let source = Value::String("foo".to_string());
    let got = DocumentId::from(json_text(&source));
    assert_eq!(expected, got);
}

#[test]
fn document_id_serialization_design() {
    let expected = Value::String("_design/foo".to_string());
    let source = DocumentId::Design("foo".into());
    let got = json_string(source.to_string());
    assert_eq!(expected, got);
}

#[test]
fn document_id_deserialization_design() {
    let expected = DocumentId::Design("foo".into());
    let source = Value::String("_design/foo".to_string());
    let got = DocumentId::from(json_text(&source));
    assert_eq!(expected, got);
}

#[test]
fn document_id_serialization_local() {
    let expected = Value::String("_local/foo".to_string());
    let source = DocumentId::Local("foo".into());
    let got = json_string(source.to_string());
    assert_eq!(expected, got);
}

#[test]
fn document_id_deserialization_local() {
    let expected = DocumentId::Local("foo".into());
    let source = Value::String("_local/foo".to_string());
    let got = DocumentId::from(json_text(&source));
    assert_eq!(expected, got);
}
