use couchdb::dbtype::change_line::CHANGE_LINE_FIELDS;
use couchdb::dbtype::fields::field_index;
use couchdb::dbtype::{
    ChangeItem, ChangeItemBuilder, ChangeLine, ChangeResult, ChangeResultBuilder, Changes,
    ChangesBuilder, DocumentId, FieldError, Revision,
};

/// The positions of a change line's keys, in the order its object holds them.
fn positions(keys: &[&str]) -> Vec<usize> {
    keys.iter().map(|k| field_index(&CHANGE_LINE_FIELDS, k).unwrap()).collect()
}

fn change_items(revs: &[&str]) -> Vec<ChangeItem> {
    revs.iter().map(|r| ChangeItemBuilder::new_from_rev_str(r).unwrap()).collect()
}

const REV3: &str = "3-7379b9e515b161226c6559d90c4dc49f";
const DOC: &str = "5bbc9ca465f1b0fcd62362168a7c8831";

#[test]
fn deserialization_ok_end() {
    let expected = ChangeLine::End { last_seq: 42 };
    let got = ChangeLine::from_object(&positions(&["last_seq"]), None, None, None, Some(42), None);
    assert_eq!(Ok(expected), got);
}

#[test]
fn deserialization_ok_event_with_deleted_field() {
    let c = ChangeResultBuilder::new(9, DOC).build_change_from_rev_str(REV3, |x| x).deleted(true).unwrap();
    let got = ChangeLine::from_object(
        &positions(&["changes", "deleted", "id", "seq"]),
        Some(change_items(&[REV3])),
        Some(true),
        Some(DocumentId::from(DOC)),
        None,
        Some(9),
    );
    assert_eq!(Ok(ChangeLine::Event(c)), got);
}

#[test]
fn deserialization_ok_event_without_deleted_field() {
    let c = ChangeResultBuilder::new(9, DOC).build_change_from_rev_str(REV3, |x| x).deleted(false).unwrap();
    let got = ChangeLine::from_object(
        &positions(&["changes", "id", "seq"]),
        Some(change_items(&[REV3])),
        None,
        Some(DocumentId::from(DOC)),
        None,
        Some(9),
    );
    assert_eq!(Ok(ChangeLine::Event(c)), got);
}

#[test]
fn deserialization_nok_no_fields() {
    let got = ChangeLine::from_object(&[], None, None, None, None, None);
    assert_eq!(got, Err(FieldError::MissingField("last_seq")));
}

#[test]
fn deserialization_nok_end_with_seq_field() {
    let got = ChangeLine::from_object(&positions(&["last_seq", "seq"]), None, None, None, Some(42), Some(17));
    assert_eq!(got, Err(FieldError::UnknownField("seq")));
}

#[test]
fn deserialization_nok_end_with_id_field() {
    let got = ChangeLine::from_object(
        &positions(&["last_seq", "id"]),
        None,
        None,
        Some(DocumentId::from(DOC)),
        Some(42),
        None,
    );
    assert_eq!(got, Err(FieldError::UnknownField("id")));
}

#[test]
fn deserialization_nok_end_with_changes_field() {
    let got = ChangeLine::from_object(
        &positions(&["last_seq", "changes"]),
        Some(change_items(&[REV3])),
        None,
        None,
        Some(42),
        None,
    );
    assert_eq!(got, Err(FieldError::UnknownField("changes")));
}

#[test]
fn deserialization_nok_end_with_deleted_field() {
    let got = ChangeLine::from_object(&positions(&["last_seq", "deleted"]), None, Some(true), None, Some(42), None);
    assert_eq!(got, Err(FieldError::UnknownField("deleted")));
}

#[test]
fn deserialization_nok_event_with_last_seq_field() {
    let got = ChangeLine::from_object(
        &positions(&["seq", "id", "changes", "last_seq"]),
        Some(change_items(&[REV3])),
        None,
        Some(DocumentId::from(DOC)),
        Some(42),
        Some(9),
    );
    assert_eq!(got, Err(FieldError::UnknownField("last_seq")));
}

#[test]
fn deserialization_ok_with_deleted_field() {
    let expected = ChangeResultBuilder::new(9, DOC).build_change_from_rev_str(REV3, |x| x).deleted(true).unwrap();
    let got = ChangeResult::from_fields(Some(change_items(&[REV3])), Some(true), Some(DocumentId::from(DOC)), Some(9));
    assert_eq!(Ok(expected), got);
}

#[test]
fn deserialization_ok_without_deleted_field() {
    let expected = ChangeResultBuilder::new(6, "6478c2ae800dfc387396d14e1fc39626")
        .build_change_from_rev_str("2-7051cbe5c8faecd085a3fa619e6e6337", |x| x)
        .unwrap();
    let got = ChangeResult::from_fields(
        Some(change_items(&["2-7051cbe5c8faecd085a3fa619e6e6337"])),
        None,
        Some(DocumentId::from("6478c2ae800dfc387396d14e1fc39626")),
        Some(6),
    );
    assert_eq!(Ok(expected), got);
}

#[test]
fn deserialization_nok_without_changes_field() {
    let got = ChangeResult::from_fields(None, Some(true), Some(DocumentId::from(DOC)), Some(9));
    assert_eq!(got, Err(FieldError::MissingField("changes")));
}

#[test]
fn deserialization_nok_without_id_field() {
    let got = ChangeResult::from_fields(Some(change_items(&[REV3])), Some(true), None, Some(9));
    assert_eq!(got, Err(FieldError::MissingField("id")));
}

#[test]
fn deserialization_nok_without_seq_field() {
    let got = ChangeResult::from_fields(Some(change_items(&[REV3])), Some(true), Some(DocumentId::from(DOC)), None);
    assert_eq!(got, Err(FieldError::MissingField("seq")));
}

#[test]
fn change_item_deserialization_ok_with_all_fields() {
    let rev = "42-1234567890abcdef1234567890abcdef";
    let expected = ChangeItemBuilder::new_from_rev_str(rev).unwrap();
    let got = ChangeItem::from_fields(Some(Revision::parse(rev).unwrap()));
    assert_eq!(Ok(expected), got);
}

#[test]
fn change_item_deserialization_nok_with_no_rev_field() {
    assert_eq!(ChangeItem::from_fields(None), Err(FieldError::MissingField("rev")));
}

#[test]
fn changes_deserialization_ok_with_all_fields() {
    let expected = ChangesBuilder::new(11)
        .build_result(6, "6478c2ae800dfc387396d14e1fc39626", |x| {
            x.build_change_from_rev_str("2-7051cbe5c8faecd085a3fa619e6e6337", |x| x)
        })
        .build_result(9, DOC, |x| x.deleted(true).build_change_from_rev_str(REV3, |x| x))
        .build_result(11, "729eb57437745e506b333068fff665ae", |x| {
            x.build_change_from_rev_str("6-460637e73a6288cb24d532bf91f32969", |x| x)
                .build_change_from_rev_str("5-eeaa298781f60b7bcae0c91bdedd1b87", |x| x)
        })
        .unwrap();
    let results = vec![
        ChangeResult::from_fields(
            Some(change_items(&["2-7051cbe5c8faecd085a3fa619e6e6337"])),
            None,
            Some(DocumentId::from("6478c2ae800dfc387396d14e1fc39626")),
            Some(6),
        )
        .unwrap(),
        ChangeResult::from_fields(Some(change_items(&[REV3])), Some(true), Some(DocumentId::from(DOC)), Some(9))
            .unwrap(),
        ChangeResult::from_fields(
            Some(change_items(&["6-460637e73a6288cb24d532bf91f32969", "5-eeaa298781f60b7bcae0c91bdedd1b87"])),
            None,
            Some(DocumentId::from("729eb57437745e506b333068fff665ae")),
            Some(11),
        )
        .unwrap(),
    ];
    assert_eq!(Ok(expected), Changes::from_fields(Some(11), Some(results)));
}

#[test]
fn deserialization_nok_without_last_seq_field() {
    assert_eq!(Changes::from_fields(None, Some(vec![])), Err(FieldError::MissingField("last_seq")));
}
