use couchdb::dbtype::database::DatabaseFields;
use couchdb::dbtype::{Database, DatabaseName, FieldError};

/// The fields of the JSON object of a database's meta-information, as the
/// server sends them.
fn database_fields() -> DatabaseFields {
    DatabaseFields {
        committed_update_seq: Some(1),
        compact_running: Some(true),
        db_name: Some(DatabaseName::from("foo")),
        disk_format_version: Some(2),
        data_size: Some(3),
        disk_size: Some(4),
        doc_count: Some(5),
        doc_del_count: Some(6),
        instance_start_time: Some("7".to_string()),
        purge_seq: Some(8),
        update_seq: Some(9),
    }
}

#[test]
fn database_deserialization_with_all_fields() {
    let expected = Database {
        committed_update_seq: 1,
        compact_running: true,
        db_name: DatabaseName::from("foo"),
        disk_format_version: 2,
        data_size: 3,
        disk_size: 4,
        doc_count: 5,
        doc_del_count: 6,
        instance_start_time: 7,
        purge_seq: 8,
        update_seq: 9,
    };
    let got = Database::from_fields(database_fields()).unwrap();
    assert_eq!(expected, got);
}

#[test]
fn database_deserialization_with_no_committed_update_seq_field() {
    let mut source = database_fields();
    source.committed_update_seq = None;
    let got = Database::from_fields(source);
    assert_eq!(got, Err(FieldError::MissingField("committed_update_seq")));
}

#[test]
fn database_deserialization_with_no_compact_running_field() {
    let mut source = database_fields();
    source.compact_running = None;
    let got = Database::from_fields(source);
    assert_eq!(got, Err(FieldError::MissingField("compact_running")));
}

#[test]
fn database_deserialization_with_no_db_name_field() {
    let mut source = database_fields();
    source.db_name = None;
    let got = Database::from_fields(source);
    assert_eq!(got, Err(FieldError::MissingField("db_name")));
}

#[test]
fn database_deserialization_with_no_disk_format_version_field() {
    let mut source = database_fields();
    source.disk_format_version = None;
    let got = Database::from_fields(source);
    assert_eq!(got, Err(FieldError::MissingField("disk_format_version")));
}

#[test]
fn database_deserialization_with_no_data_size_field() {
    let mut source = database_fields();
    source.data_size = None;
    let got = Database::from_fields(source);
    assert_eq!(got, Err(FieldError::MissingField("data_size")));
}

#[test]
fn database_deserialization_with_no_disk_size_field() {
    let mut source = database_fields();
    source.disk_size = None;
    let got = Database::from_fields(source);
    assert_eq!(got, Err(FieldError::MissingField("disk_size")));
}

#[test]
fn database_deserialization_with_no_doc_count_field() {
    let mut source = database_fields();
    source.doc_count = None;
    let got = Database::from_fields(source);
    assert_eq!(got, Err(FieldError::MissingField("doc_count")));
}

#[test]
fn database_deserialization_with_no_doc_del_count_field() {
    let mut source = database_fields();
    source.doc_del_count = None;
    let got = Database::from_fields(source);
    assert_eq!(got, Err(FieldError::MissingField("doc_del_count")));
}

#[test]
fn database_deserialization_with_no_instance_start_time_field() {
    let mut source = database_fields();
    source.instance_start_time = None;
    let got = Database::from_fields(source);
    assert_eq!(got, Err(FieldError::MissingField("instance_start_time")));
}

#[test]
fn database_deserialization_with_bad_instance_start_time_field() {
    let mut source = database_fields();
    source.instance_start_time = Some("not_a_number".to_string());
    let got = Database::from_fields(source);
    assert!(matches!(got, Err(FieldError::InvalidValue(_))));
}

#[test]
fn database_deserialization_with_no_purge_seq_field() {
    let mut source = database_fields();
    source.purge_seq = None;
    let got = Database::from_fields(source);
    assert_eq!(got, Err(FieldError::MissingField("purge_seq")));
}

#[test]
fn database_deserialization_with_no_update_seq_field() {
    let mut source = database_fields();
    source.update_seq = None;
    let got = Database::from_fields(source);
    assert_eq!(got, Err(FieldError::MissingField("update_seq")));
}
