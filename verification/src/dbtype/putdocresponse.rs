//! Responses to commands that PUT a document, with the id and revision as
//! strings.

use vstd::prelude::*;
use crate::dbtype::fields::{required, FieldError};

verus! {

/// Response to a command to PUT a document.
#[derive(Clone, Debug, Eq, Hash, Ord, PartialEq, PartialOrd)]
pub struct PutDocumentResponse {
    /// Id of the written document.
    pub id: String,
    /// Whether the write succeeded.
    pub ok: bool,
    /// The new revision of the document.
    pub rev: String,
}

/// The names of the fields of a PUT response, as its JSON object holds them.
pub const PUT_DOCUMENT_RESPONSE_FIELDS: [&'static str; 3] = ["id", "ok", "rev"];

impl PutDocumentResponse {
    /// Assembles a PUT response from the fields that its JSON object held:
    /// `id`, `ok` and `rev` are required, checked in that order.
    pub fn from_fields(id: Option<String>, ok: Option<bool>, rev: Option<String>) -> (r: Result<
        Self,
        FieldError,
    >)
        ensures
            id is None ==> r == Err::<Self, FieldError>(FieldError::MissingField("id")),
            id is Some && ok is None ==> r == Err::<Self, FieldError>(
                FieldError::MissingField("ok"),
            ),
            id is Some && ok is Some && rev is None ==> r == Err::<Self, FieldError>(
                FieldError::MissingField("rev"),
            ),
            id is Some && ok is Some && rev is Some ==> r == Ok::<Self, FieldError>(
                PutDocumentResponse { id: id->0, ok: ok->0, rev: rev->0 },
            ),
    {
        let id = required(id, "id")?;
        let ok = required(ok, "ok")?;
        let rev = required(rev, "rev")?;
        Ok(PutDocumentResponse { id, ok, rev })
    }
}

} // verus!
