use couchdb::dbtype::putdocresponse::PutDocumentResponse;
use couchdb::dbtype::{
    Base64Blob, ContentType, DocumentId, ErrorResponse, FieldError, Md5Hash, Revision, ServerUuid,
    ViewResult, ViewRow, WriteDocumentResponse,
};
use couchdb::jsontest::{make_complete_json_object, make_json_object_with_missing_field};
use serde_json::Value;

const REASON: &str = "The database could not be created, the file already exists.";
const REV1: &str = "1-12345678123456781234567812345678";

fn rev1() -> Revision {
    Revision::parse(REV1).unwrap()
}

/// The string member of a JSON object's text, if it has one.
fn member_str(v: &Value, key: &str) -> Option<String> {
    v.get(key).map(|x| x.as_str().unwrap().to_string())
}

/// Reads an error response from its JSON text.
fn read_error_response(s: &str) -> Result<ErrorResponse, FieldError> {
    let v: Value = serde_json::from_str(s).unwrap();
    ErrorResponse::from_fields(member_str(&v, "error"), member_str(&v, "reason"))
}

/// Reads a PUT document response from its JSON text.
fn read_put_document_response(s: &str) -> Result<PutDocumentResponse, FieldError> {
    let v: Value = serde_json::from_str(s).unwrap();
    PutDocumentResponse::from_fields(
        member_str(&v, "id"),
        v.get("ok").map(|x| x.as_bool().unwrap()),
        member_str(&v, "rev"),
    )
}

#[test]
fn error_response_deserialization_with_all_fields() {
    let got = ErrorResponse::from_fields(Some("file_exists".to_string()), Some(REASON.to_string())).unwrap();
    assert_eq!(got.error, "file_exists");
    assert_eq!(got.reason, REASON);
}

#[test]
fn error_response_deserialization_with_no_error_field() {
    assert_eq!(
        ErrorResponse::from_fields(None, Some(REASON.to_string())),
        Err(FieldError::MissingField("error"))
    );
}

#[test]
fn error_response_deserialization_with_no_reason_field() {
    assert_eq!(
        ErrorResponse::from_fields(Some("file_exists".to_string()), None),
        Err(FieldError::MissingField("reason"))
    );
}

fn write_document_response_with_all_fields() {
    let expected = WriteDocumentResponse { id: DocumentId::from("foo"), ok: true, rev: rev1() };
    let got = WriteDocumentResponse::from_fields(Some(DocumentId::from("foo")), Some(true), Some(rev1()));
    assert_eq!(Ok(expected), got);
}

fn write_document_response_with_no_id_field() {
    let got = WriteDocumentResponse::from_fields(None, Some(true), Some(rev1()));
    assert_eq!(got, Err(FieldError::MissingField("id")));
}

fn write_document_response_with_no_ok_field() {
    let got = WriteDocumentResponse::from_fields(Some(DocumentId::from("foo")), None, Some(rev1()));
    assert_eq!(got, Err(FieldError::MissingField("ok")));
}

fn write_document_response_with_no_rev_field() {
    let got = WriteDocumentResponse::from_fields(Some(DocumentId::from("foo")), Some(true), None);
    assert_eq!(got, Err(FieldError::MissingField("rev")));
}

#[test]
fn response_write_document_response_deserialization_with_all_fields() {
    write_document_response_with_all_fields();
}

#[test]
fn response_write_document_response_deserialization_with_no_id_field() {
    write_document_response_with_no_id_field();
}

#[test]
fn response_write_document_response_deserialization_with_no_ok_field() {
    write_document_response_with_no_ok_field();
}

#[test]
fn response_write_document_response_deserialization_with_no_rev_field() {
    write_document_response_with_no_rev_field();
}

#[test]
fn misc_response_write_document_response_deserialization_with_all_fields() {
    write_document_response_with_all_fields();
}

#[test]
fn misc_response_write_document_response_deserialization_with_no_id_field() {
    write_document_response_with_no_id_field();
}

#[test]
fn misc_response_write_document_response_deserialization_with_no_ok_field() {
    write_document_response_with_no_ok_field();
}

#[test]
fn misc_response_write_document_response_deserialization_with_no_rev_field() {
    write_document_response_with_no_rev_field();
}

#[test]
fn errorresponse_test_deserialization() {
    let fields = [r#""error": "stuff happened""#, r#""reason": "blah blah blah""#];
    let s = make_complete_json_object(&fields);
    let v = read_error_response(&s).unwrap();
    assert_eq!(v.error, "stuff happened".to_string());
    assert_eq!(v.reason, "blah blah blah".to_string());
    let s = make_json_object_with_missing_field(&fields, "error");
    assert!(read_error_response(&s).is_err());
    let s = make_json_object_with_missing_field(&fields, "reason");
    assert!(read_error_response(&s).is_err());
}

#[test]
fn putdocresponse_test_deserialization() {
    let fields = [r#""id": "stuff""#, r#""ok": true"#, r#""rev": "1-1234abcd""#];
    let s = make_complete_json_object(&fields);
    let v = read_put_document_response(&s).unwrap();
    assert_eq!(v.id, "stuff".to_string());
    assert_eq!(v.ok, true);
    assert_eq!(v.rev, "1-1234abcd".to_string());
    let s = make_json_object_with_missing_field(&fields, "id");
    assert!(read_put_document_response(&s).is_err());
    let s = make_json_object_with_missing_field(&fields, "ok");
    assert!(read_put_document_response(&s).is_err());
    let s = make_json_object_with_missing_field(&fields, "rev");
    assert!(read_put_document_response(&s).is_err());
}

#[test]
fn view_row_deserialization_with_all_fields() {
    let got = ViewRow::<String, i32>::from_fields(Some(DocumentId::from("foo")), Some("bar".to_string()), Some(42))
        .unwrap();
    assert_eq!(got.id, Some(DocumentId::from("foo")));
    assert_eq!(got.key, Some("bar".to_string()));
    assert_eq!(got.value, 42);
}

#[test]
fn view_row_deserialization_with_no_id_field() {
    let got = ViewRow::<String, i32>::from_fields(None, Some("bar".to_string()), Some(42)).unwrap();
    assert_eq!(got.id, None);
    assert_eq!(got.key, Some("bar".to_string()));
    assert_eq!(got.value, 42);
}

#[test]
fn view_row_deserialization_with_no_key_field() {
    let got = ViewRow::<String, i32>::from_fields(Some(DocumentId::from("foo")), None, Some(42)).unwrap();
    assert_eq!(got.id, Some(DocumentId::from("foo")));
    assert_eq!(got.key, None);
    assert_eq!(got.value, 42);
}

#[test]
fn view_row_deserialization_with_no_value_field() {
    let got = ViewRow::<String, i32>::from_fields(Some(DocumentId::from("foo")), Some("bar".to_string()), None);
    assert_eq!(got, Err(FieldError::MissingField("value")));
}

fn row(id: &str, key: &str, value: i32) -> ViewRow<String, i32> {
    ViewRow::from_fields(Some(DocumentId::from(id)), Some(key.to_string()), Some(value)).unwrap()
}

#[test]
fn view_result_deserialization_non_reduced_view() {
    let got = ViewResult::from_fields(Some(42), Some(17), Some(vec![row("foo", "bar", 5), row("qux", "kit", 13)]))
        .unwrap();
    assert_eq!(got.total_rows, Some(42));
    assert_eq!(got.offset, Some(17));
    assert_eq!(got.rows, vec![row("foo", "bar", 5), row("qux", "kit", 13)]);
}

#[test]
fn view_result_deserialization_reduce_view() {
    let got = ViewResult::from_fields(None, None, Some(vec![row("foo", "bar", 5)])).unwrap();
    assert_eq!(got.total_rows, None);
    assert_eq!(got.offset, None);
    assert_eq!(got.rows, vec![row("foo", "bar", 5)]);
}

#[test]
fn view_result_deserialization_with_no_rows_field() {
    let got = ViewResult::<String, i32>::from_fields(None, None, None);
    assert_eq!(got, Err(FieldError::MissingField("rows")));
}

#[test]
fn base64_blob_decode_json_ok() {
    assert_eq!(Base64Blob::decode("aGVsbG8=").unwrap(), Base64Blob("hello".to_owned().into_bytes()));
}

#[test]
fn base64_blob_decode_json_nok_bad_mime() {
    assert_eq!(Base64Blob::decode(".?$%"), Err(FieldError::InvalidValue("Invalid Base64")));
}

#[test]
fn content_type_decode_json_ok() {
    let got = ContentType::parse("application/json").unwrap();
    assert_eq!(got.type_(), "application");
    assert_eq!(got.subtype(), "json");
    assert_eq!(got.to_string(), "application/json");
}

#[test]
fn content_type_decode_json_nok_bad_mime() {
    assert_eq!(ContentType::parse("bad mime"), Err(FieldError::InvalidValue("Bad MIME string")));
}

#[test]
fn json_decodes_ok() {
    let got = ServerUuid::parse("85fb71bf700c17267fef77535820e371").unwrap();
    assert_eq!(got.as_u128(), 0x85fb71bf700c17267fef77535820e371);
}

#[test]
fn json_decodes_nok_bad_value() {
    assert_eq!(ServerUuid::parse("bad uuid"), Err(FieldError::InvalidValue("Bad UUID string")));
}

#[test]
fn revision_serialization() {
    let source = Revision::parse("42-1234567890abcdeffedcba0987654321").unwrap();
    assert_eq!(source.to_string(), "42-1234567890abcdeffedcba0987654321");
    assert_eq!(
        Md5Hash::from_str("1234567890abcdeffedcba0987654321").unwrap().to_string(),
        "1234567890abcdeffedcba0987654321"
    );
}

#[test]
fn revision_deserialization_ok() {
    let got = Revision::parse("42-1234567890abcdeffedcba0987654321").unwrap();
    assert_eq!(got.update_number(), 42);
    assert_eq!(got.to_string(), "42-1234567890abcdeffedcba0987654321");
}

#[test]
fn revision_deserialization_nok() {
    assert!(Revision::parse("bad_revision").is_err());
}
