//! UUIDs as the CouchDB server sends them.

use vstd::prelude::*;
use vstd::string::*;
use crate::dbtype::fields::FieldError;
use crate::numeric::hex_fixed;
use crate::revision::{uuid_parse, uuid_parse_value, uuid_simple_text};

verus! {

/// A UUID, read from the string that the CouchDB server sends, held as its
/// 128-bit number, the first byte the most significant.
#[derive(Clone, Copy, Debug, Eq, PartialEq, Structural)]
pub struct ServerUuid(u128);

impl View for ServerUuid {
    type V = u128;

    /// The UUID's 128-bit number.
    closed spec fn view(&self) -> u128 {
        self.0
    }
}

impl ServerUuid {
    /// Reads a UUID from a string, as the `uuid` crate parses it.
    pub fn parse(s: &str) -> (r: Result<Self, FieldError>)
        ensures
            match uuid_parse_value(s@) {
                Some(v) => r matches Ok(u) && u@ == v,
                None => r == Err::<Self, FieldError>(FieldError::InvalidValue("Bad UUID string")),
            },
    {
        match uuid_parse(s) {
            Some(v) => Ok(ServerUuid(v)),
            None => Err(FieldError::InvalidValue("Bad UUID string")),
        }
    }

    /// The UUID of a 128-bit number.
    pub fn from_u128(v: u128) -> (r: Self)
        ensures
            r@ == v,
    {
        ServerUuid(v)
    }

    /// The UUID's 128-bit number.
    pub fn as_u128(&self) -> (r: u128)
        ensures
            r == self@,
    {
        self.0
    }

    /// The UUID in its simple form: 32 lower-case hexadecimal digits.
    pub fn to_string(&self) -> (r: String)
        ensures
            r@ == hex_fixed(self@ as nat, 32),
    {
        uuid_simple_text(self.0)
    }
}

} // verus!
