use couchdb::{
    AttachmentPath, DatabaseName, DesignDocumentId, DesignDocumentName, DesignDocumentPath,
    DocumentId, DocumentPath, LocalDocumentName, NormalDocumentName, ViewPath,
};
use std::str::FromStr;

#[test]
fn name_type_percent_encodes_self() {
    assert_eq!(
        NormalDocumentName::new("alpha/bravo?charlie").encode_path(),
        "/alpha%2Fbravo%3Fcharlie"
    );
}

#[test]
fn document_id_distinguishes_by_document_type() {
    let doc_id = DocumentId::new("alpha");
    assert!(doc_id.is_normal());
    assert!(!doc_id.is_design());
    assert!(!doc_id.is_local());

    let doc_id = DocumentId::new("_design/alpha");
    assert!(!doc_id.is_normal());
    assert!(doc_id.is_design());
    assert!(!doc_id.is_local());

    let doc_id = DocumentId::new("_local/alpha");
    assert!(!doc_id.is_normal());
    assert!(!doc_id.is_design());
    assert!(doc_id.is_local());
}

#[test]
fn document_id_converts_into_normal_document_name() {
    assert_eq!(
        DocumentId::new("alpha").into_normal_document_name(),
        Ok(NormalDocumentName::new("alpha"))
    );
    assert_eq!(
        DocumentId::new("alpha/bravo?charlie").into_normal_document_name(),
        Ok(NormalDocumentName::new("alpha/bravo?charlie"))
    );
    assert_eq!(
        DocumentId::new("_design/alpha").into_normal_document_name(),
        Err(DocumentId::new("_design/alpha"))
    );
    assert_eq!(
        DocumentId::new("_local/alpha").into_normal_document_name(),
        Err(DocumentId::new("_local/alpha"))
    );
}

#[test]
fn document_id_converts_into_design_document_name() {
    assert_eq!(
        DocumentId::new("alpha").into_design_document_name(),
        Err(DocumentId::new("alpha"))
    );
    assert_eq!(
        DocumentId::new("_design/alpha").into_design_document_name(),
        Ok(DesignDocumentName::new("alpha"))
    );
    assert_eq!(
        DocumentId::new("_design/alpha/bravo?charlie").into_design_document_name(),
        Ok(DesignDocumentName::new("alpha/bravo?charlie"))
    );
    assert_eq!(
        DocumentId::new("_local/alpha").into_design_document_name(),
        Err(DocumentId::new("_local/alpha"))
    );
}

#[test]
fn document_id_converts_into_local_document_name() {
    assert_eq!(
        DocumentId::new("alpha").into_local_document_name(),
        Err(DocumentId::new("alpha"))
    );
    assert_eq!(
        DocumentId::new("_design/alpha").into_local_document_name(),
        Err(DocumentId::new("_design/alpha"))
    );
    assert_eq!(
        DocumentId::new("_local/alpha").into_local_document_name(),
        Ok(LocalDocumentName::new("alpha"))
    );
    assert_eq!(
        DocumentId::new("_local/alpha/bravo?charlie").into_local_document_name(),
        Ok(LocalDocumentName::new("alpha/bravo?charlie"))
    );
}

#[test]
fn document_id_converts_from_document_name() {
    assert_eq!(DocumentId::from(NormalDocumentName::new("alpha")), DocumentId::new("alpha"));
    assert_eq!(
        DocumentId::from(DesignDocumentName::new("alpha")),
        DocumentId::new("_design/alpha")
    );
    assert_eq!(
        DocumentId::from(LocalDocumentName::new("alpha")),
        DocumentId::new("_local/alpha")
    );
}

#[test]
fn document_id_percent_encodes_self() {
    assert_eq!(
        DocumentId::new("alpha/bravo?charlie").encode_path(),
        "/alpha%2Fbravo%3Fcharlie"
    );
    assert_eq!(
        DocumentId::new("_design/alpha/bravo?charlie").encode_path(),
        "/_design/alpha%2Fbravo%3Fcharlie"
    );
    assert_eq!(
        DocumentId::new("_local/alpha/bravo?charlie").encode_path(),
        "/_local/alpha%2Fbravo%3Fcharlie"
    );
}

#[test]
fn design_document_id_converts_into_document_id() {
    assert_eq!(
        DesignDocumentId::parse("_design/alpha").unwrap().into_document_id(),
        DocumentId::new("_design/alpha")
    )
}

#[test]
fn design_document_id_converts_into_design_document_name() {
    assert_eq!(
        DesignDocumentId::parse("_design/alpha").unwrap().into_design_document_name(),
        DesignDocumentName::new("alpha")
    )
}

#[test]
fn design_document_id_converts_from_design_document_name() {
    assert_eq!(
        DesignDocumentId::from(DesignDocumentName::new("alpha")),
        DesignDocumentId::parse("_design/alpha").unwrap()
    );
}

#[test]
fn document_path_percent_encodes_itself() {
    let got = DatabaseName::new("alpha/bravo?charlie").with_document_id("delta/echo?foxtrot").to_string();
    let expected = "/alpha%2Fbravo%3Fcharlie/delta%2Fecho%3Ffoxtrot";
    assert_eq!(got, expected);

    let got = DatabaseName::new("alpha/bravo?charlie")
        .with_document_id(DesignDocumentName::new("delta/echo?foxtrot"))
        .to_string();
    let expected = "/alpha%2Fbravo%3Fcharlie/_design/delta%2Fecho%3Ffoxtrot";
    assert_eq!(got, expected);

    let got = DatabaseName::new("alpha/bravo?charlie")
        .with_document_id(LocalDocumentName::new("delta/echo?foxtrot"))
        .to_string();
    let expected = "/alpha%2Fbravo%3Fcharlie/_local/delta%2Fecho%3Ffoxtrot";
    assert_eq!(got, expected);
}

#[test]
fn document_path_decodes_str() {
    let got = DocumentPath::from_str("/alpha%2Fbravo%3Fcharlie/delta%2Fecho%3Ffoxtrot").unwrap();
    let expected = DatabaseName::new("alpha/bravo?charlie").with_document_id("delta/echo?foxtrot");
    assert_eq!(got, expected);

    let got = DocumentPath::from_str("/alpha%2Fbravo%3Fcharlie/_design/delta%2Fecho%3Ffoxtrot").unwrap();
    let expected = DatabaseName::new("alpha/bravo?charlie")
        .with_document_id(DesignDocumentName::new("delta/echo?foxtrot"));
    assert_eq!(got, expected);

    let got = DocumentPath::from_str("/alpha%2Fbravo%3Fcharlie/_local/delta%2Fecho%3Ffoxtrot").unwrap();
    let expected = DatabaseName::new("alpha/bravo?charlie")
        .with_document_id(LocalDocumentName::new("delta/echo?foxtrot"));
    assert_eq!(got, expected);
}

#[test]
fn design_document_path_percent_encodes_itself() {
    let got = DatabaseName::new("alpha/bravo?charlie")
        .with_document_id(DesignDocumentName::new("delta/echo?foxtrot"))
        .to_string();
    let expected = "/alpha%2Fbravo%3Fcharlie/_design/delta%2Fecho%3Ffoxtrot";
    assert_eq!(got, expected);
}

#[test]
fn design_document_path_decodes_str() {
    let got =
        DesignDocumentPath::from_str("/alpha%2Fbravo%3Fcharlie/_design/delta%2Fecho%3Ffoxtrot").unwrap();
    let expected = DatabaseName::new("alpha/bravo?charlie")
        .with_design_document_id(DesignDocumentName::new("delta/echo?foxtrot"));
    assert_eq!(got, expected);
}

#[test]
fn attachment_path_percent_encodes_itself() {
    let got = DatabaseName::new("alpha/bravo?charlie")
        .with_document_id("delta/echo?foxtrot")
        .with_attachment_name("golf")
        .to_string();
    let expected = "/alpha%2Fbravo%3Fcharlie/delta%2Fecho%3Ffoxtrot/golf";
    assert_eq!(got, expected);

    let got = DatabaseName::new("alpha/bravo?charlie")
        .with_document_id(DesignDocumentName::new("delta/echo?foxtrot"))
        .with_attachment_name("golf")
        .to_string();
    let expected = "/alpha%2Fbravo%3Fcharlie/_design/delta%2Fecho%3Ffoxtrot/golf";
    assert_eq!(got, expected);

    let got = DatabaseName::new("alpha/bravo?charlie")
        .with_document_id(LocalDocumentName::new("delta/echo?foxtrot"))
        .with_attachment_name("golf")
        .to_string();
    let expected = "/alpha%2Fbravo%3Fcharlie/_local/delta%2Fecho%3Ffoxtrot/golf";
    assert_eq!(got, expected);
}

#[test]
fn attachment_path_decodes_str() {
    let got = AttachmentPath::from_str("/alpha%2Fbravo%3Fcharlie/delta%2Fecho%3Ffoxtrot/golf").unwrap();
    let expected = DatabaseName::new("alpha/bravo?charlie")
        .with_document_id("delta/echo?foxtrot")
        .with_attachment_name("golf");
    assert_eq!(got, expected);

    let got =
        AttachmentPath::from_str("/alpha%2Fbravo%3Fcharlie/_design/delta%2Fecho%3Ffoxtrot/golf").unwrap();
    let expected = DatabaseName::new("alpha/bravo?charlie")
        .with_document_id(DesignDocumentName::new("delta/echo?foxtrot"))
        .with_attachment_name("golf");
    assert_eq!(got, expected);

    let got =
        AttachmentPath::from_str("/alpha%2Fbravo%3Fcharlie/_local/delta%2Fecho%3Ffoxtrot/golf").unwrap();
    let expected = DatabaseName::new("alpha/bravo?charlie")
        .with_document_id(LocalDocumentName::new("delta/echo?foxtrot"))
        .with_attachment_name("golf");
    assert_eq!(got, expected);
}

#[test]
fn view_path_percent_encodes_itself() {
    let got = DatabaseName::new("alpha/bravo?charlie")
        .with_design_document_id(DesignDocumentName::new("delta/echo?foxtrot"))
        .with_view_name("golf")
        .to_string();
    let expected = "/alpha%2Fbravo%3Fcharlie/_design/delta%2Fecho%3Ffoxtrot/_view/golf";
    assert_eq!(got, expected);
}

#[test]
fn view_path_decodes_str() {
    let got =
        ViewPath::from_str("/alpha%2Fbravo%3Fcharlie/_design/delta%2Fecho%3Ffoxtrot/_view/golf").unwrap();
    let expected = DatabaseName::new("alpha/bravo?charlie")
        .with_design_document_id(DesignDocumentName::new("delta/echo?foxtrot"))
        .with_view_name("golf");
    assert_eq!(got, expected);
}

#[test]
fn design_document_id_deserialization_enforces_design_prefix() {
    let source = r#""_design/alpha""#;
    let text: String = serde_json::from_str(source).unwrap();
    let got = DesignDocumentId::parse(&text).unwrap();
    let expected = DesignDocumentId::from(DesignDocumentName::new("alpha"));
    assert_eq!(got, expected);
    assert_eq!(got.as_document_id(), &DocumentId::new("_design/alpha"));

    let source = r#""alpha""#;
    let text: String = serde_json::from_str(source).unwrap();
    assert!(DesignDocumentId::parse(&text).is_err());
}
