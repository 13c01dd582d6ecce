//! Binary data that a JSON string holds in Base64.

use vstd::prelude::*;
use crate::dbtype::fields::FieldError;

verus! {

/// What `base64::decode` (standard alphabet, with padding) makes of the bytes
/// of a string: the decoded bytes, or `None` where it refuses them.
pub uninterp spec fn base64_decoded(s: Seq<char>) -> Option<Seq<u8>>;

/// Decodes Base64 text with `base64::decode`.
#[verifier::external_body]
fn base64_decode(s: &str) -> (r: Option<Vec<u8>>)
    ensures
        match base64_decoded(s@) {
            Some(b) => r matches Some(v) && v@ == b,
            None => r is None,
        },
{
    match base64::decode(s) {
        Ok(v) => Some(v),
        Err(_) => None,
    }
}

/// Binary data, decoded from the Base64 text of a JSON string.
#[derive(Debug, PartialEq)]
pub struct Base64Blob(pub Vec<u8>);

impl Base64Blob {
    /// Decodes the Base64 text of a JSON string.
    pub fn decode(s: &str) -> (r: Result<Self, FieldError>)
        ensures
            match base64_decoded(s@) {
                Some(b) => r matches Ok(x) && x.0@ == b,
                None => r == Err::<Self, FieldError>(FieldError::InvalidValue("Invalid Base64")),
            },
    {
        match base64_decode(s) {
            Some(v) => Ok(Base64Blob(v)),
            None => Err(FieldError::InvalidValue("Invalid Base64")),
        }
    }
}

} // verus!
