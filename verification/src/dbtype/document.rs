//! Documents: meta-information and application-defined content.

use vstd::prelude::*;
use crate::dbtype::document_id::DocumentId;
use crate::dbtype::fields::{required, FieldError};
use crate::dbtype::revision::Revision;
use crate::name_map::compare_names;

verus! {

/// The `serde_json` crate's JSON value, carried through as it is.
#[verifier::external_type_specification]
#[verifier::external_body]
pub struct ExJsonValue(serde_json::Value);

/// `Clone` of a JSON value; nothing is claimed of the clone.
pub assume_specification[ <serde_json::Value as Clone>::clone ](v: &serde_json::Value) -> serde_json::Value;

/// Document, including both meta-information and application-defined
/// content.
#[derive(Clone, Debug, PartialEq)]
pub struct Document {
    /// Id of this document.
    pub id: DocumentId,
    /// Revision of this document.
    pub rev: Revision,
    /// Whether the document has been deleted.
    pub deleted: bool,
    content: serde_json::Value,
}

/// What a key of a document's JSON object is.
#[derive(Debug, Eq, PartialEq, Structural)]
pub enum DocumentField {
    /// `_deleted`.
    Deleted,
    /// `_id`.
    Id,
    /// `_rev`.
    Rev,
    /// `_attachments`, which is read and dropped.
    Ignored,
    /// Any other key: a field of the document's content.
    Content,
}

/// What each key of a document's JSON object is: the three fields of
/// meta-information, the attachments, or else content.
pub open spec fn document_field_spec(key: Seq<char>) -> DocumentField {
    if key == "_deleted"@ {
        DocumentField::Deleted
    } else if key == "_id"@ {
        DocumentField::Id
    } else if key == "_rev"@ {
        DocumentField::Rev
    } else if key == "_attachments"@ {
        DocumentField::Ignored
    } else {
        DocumentField::Content
    }
}

/// Tells what a key of a document's JSON object is.
pub fn document_field(key: &str) -> (r: DocumentField)
    ensures
        r == document_field_spec(key@),
{
    if compare_names(key, "_deleted") == 0 {
        DocumentField::Deleted
    } else if compare_names(key, "_id") == 0 {
        DocumentField::Id
    } else if compare_names(key, "_rev") == 0 {
        DocumentField::Rev
    } else if compare_names(key, "_attachments") == 0 {
        DocumentField::Ignored
    } else {
        DocumentField::Content
    }
}

impl View for Document {
    type V = (DocumentId, Revision, bool, serde_json::Value);

    /// The id, the revision, whether the document was deleted, and its
    /// content.
    closed spec fn view(&self) -> (DocumentId, Revision, bool, serde_json::Value) {
        (self.id, self.rev, self.deleted, self.content)
    }
}

impl Document {
    /// Assembles a document from the fields that its JSON object held and the
    /// object of its content fields: `_id` and `_rev` are required, checked in
    /// that order and reported under those names, and `deleted` defaults to
    /// `false`.
    pub fn from_fields(
        deleted: Option<bool>,
        id: Option<DocumentId>,
        rev: Option<Revision>,
        content: serde_json::Value,
    ) -> (r: Result<Self, FieldError>)
        ensures
            id is None ==> r == Err::<Self, FieldError>(FieldError::MissingField("_id")),
            id is Some && rev is None ==> r == Err::<Self, FieldError>(
                FieldError::MissingField("_rev"),
            ),
            id is Some && rev is Some ==> (r matches Ok(x) && x@ == (
                id->0,
                rev->0,
                match deleted {
                    Some(d) => d,
                    None => false,
                },
                content,
            )),
    {
        let deleted = match deleted {
            Some(d) => d,
            None => false,
        };
        let id = required(id, "_id")?;
        let rev = required(rev, "_rev")?;
        Ok(Document { id, rev, deleted, content })
    }

    /// The document's content: the JSON object of its fields that are not
    /// meta-information.
    pub fn into_content_value(self) -> (r: serde_json::Value)
        ensures
            r == self@.3,
    {
        self.content
    }
}

} // verus!
