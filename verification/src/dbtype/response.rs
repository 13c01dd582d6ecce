//! Error responses from the CouchDB server.

use vstd::prelude::*;
use vstd::string::*;
use crate::dbtype::fields::{required, FieldError};

verus! {

/// Response content from the CouchDB server in case of error.
#[derive(Clone, Debug, Eq, Hash, Ord, PartialEq, PartialOrd)]
pub struct ErrorResponse {
    /// The high-level name of the error, such as `file_exists`.
    pub error: String,
    /// A low-level description of the error, such as `The database could not
    /// be created, the file already exists.`
    pub reason: String,
}

/// The names of the fields of an error response, as its JSON object holds
/// them.
pub const ERROR_RESPONSE_FIELDS: [&'static str; 2] = ["error", "reason"];

impl ErrorResponse {
    /// The response as its `Display` form prints it: `error: reason`.
    pub fn to_string(&self) -> (r: String)
        ensures
            r@ == self.error@ + ": "@ + self.reason@,
    {
        let mut s = self.error.clone();
        s.append(": ");
        s.append(self.reason.as_str());
        s
    }

    /// Assembles an error response from the fields that its JSON object held;
    /// both are required, and `error` is checked first.
    pub fn from_fields(error: Option<String>, reason: Option<String>) -> (r: Result<
        Self,
        FieldError,
    >)
        ensures
            error is None ==> r == Err::<Self, FieldError>(FieldError::MissingField("error")),
            error is Some && reason is None ==> r == Err::<Self, FieldError>(
                FieldError::MissingField("reason"),
            ),
            error is Some && reason is Some ==> (r matches Ok(x) && x.error == error->0
                && x.reason == reason->0),
    {
        let error = required(error, "error")?;
        let reason = required(reason, "reason")?;
        Ok(ErrorResponse { error, reason })
    }
}

} // verus!
