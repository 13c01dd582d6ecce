//! Responses to commands that write a document.

use vstd::prelude::*;
use crate::dbtype::document_id::DocumentId;
use crate::dbtype::fields::{required, FieldError};
use crate::dbtype::revision::Revision;

verus! {

/// Response to a command that writes a document: the document's id and its
/// new revision.
#[derive(Clone, Debug, Eq, Hash, Ord, PartialEq, PartialOrd)]
pub struct WriteDocumentResponse {
    /// Id of the written document.
    pub id: DocumentId,
    /// Whether the write succeeded.
    pub ok: bool,
    /// The new revision of the document.
    pub rev: Revision,
}

/// Response to a command to POST a document to a database.
pub type PostToDatabaseResponse = WriteDocumentResponse;

/// Response to a command to PUT a document.
pub type PutDocumentResponse = WriteDocumentResponse;

/// The names of the fields of a write response, as its JSON object holds
/// them.
pub const WRITE_DOCUMENT_RESPONSE_FIELDS: [&'static str; 3] = ["id", "ok", "rev"];

impl WriteDocumentResponse {
    /// Assembles a write response from the fields that its JSON object held:
    /// `id`, `ok` and `rev` are required, checked in that order.
    pub fn from_fields(id: Option<DocumentId>, ok: Option<bool>, rev: Option<Revision>) -> (r:
        Result<Self, FieldError>)
        ensures
            id is None ==> r == Err::<Self, FieldError>(FieldError::MissingField("id")),
            id is Some && ok is None ==> r == Err::<Self, FieldError>(
                FieldError::MissingField("ok"),
            ),
            id is Some && ok is Some && rev is None ==> r == Err::<Self, FieldError>(
                FieldError::MissingField("rev"),
            ),
            id is Some && ok is Some && rev is Some ==> r == Ok::<Self, FieldError>(
                WriteDocumentResponse { id: id->0, ok: ok->0, rev: rev->0 },
            ),
    {
        let id = required(id, "id")?;
        let ok = required(ok, "ok")?;
        let rev = required(rev, "rev")?;
        Ok(WriteDocumentResponse { id, ok, rev })
    }
}

} // verus!
