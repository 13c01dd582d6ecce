//! Error responses from the CouchDB server.

use vstd::prelude::*;
use crate::dbtype::fields::{required, FieldError, Sealed};

verus! {

/// `Nok` contains the content of an error response from the CouchDB server.
///
/// When the CouchDB server responds with a 4xx or 5xx status code, the
/// response usually has a body holding a JSON object with an `error` string
/// and a `reason` string, such as `{"error": "file_exists", "reason": "The
/// database could not be created, the file already exists."}`.
#[derive(Clone, Debug, Default, Eq, Hash, Ord, PartialEq, PartialOrd)]
pub struct Nok {
    /// The high-level name of the error.
    pub error: String,
    /// A low-level description of the error.
    pub reason: String,
    _private_guard: Sealed,
}

impl View for Nok {
    type V = (String, String);

    /// The error and the reason.
    closed spec fn view(&self) -> (String, String) {
        (self.error, self.reason)
    }
}

impl Nok {
    /// Assembles an error response from the fields that its JSON object held;
    /// both are required, `error` checked first.
    pub fn from_fields(error: Option<String>, reason: Option<String>) -> (r: Result<
        Self,
        FieldError,
    >)
        ensures
            error is None ==> r == Err::<Self, FieldError>(FieldError::MissingField("error")),
            error is Some && reason is None ==> r == Err::<Self, FieldError>(
                FieldError::MissingField("reason"),
            ),
            error is Some && reason is Some ==> (r matches Ok(x) && x@ == (error->0, reason->0)),
    {
        let error = required(error, "error")?;
        let reason = required(reason, "reason")?;
        Ok(Nok { error, reason, _private_guard: Sealed })
    }
}

} // verus!
