//! Update sequence numbers to retrieve database changes from.

use vstd::prelude::*;
use vstd::string::*;
use crate::numeric::{decimal, decimal_string};

verus! {

/// A “since” value specifies an update sequence number of a database.
///
/// Applications may use `Since` to limit which change events the CouchDB
/// server returns when retrieving database changes.
#[derive(Debug, Eq, PartialEq, Structural)]
pub enum Since {
    /// A literal sequence number.
    SequenceNumber(u64),
    /// The `now` value.
    Now,
}

/// The text of a `Since` value: the number in decimal, or `now`.
pub open spec fn since_text(s: Since) -> Seq<char> {
    match s {
        Since::SequenceNumber(n) => decimal(n as nat),
        Since::Now => "now"@,
    }
}

impl Since {
    /// The value as its `Display` form prints it.
    pub fn to_string(&self) -> (r: String)
        ensures
            r@ == since_text(*self),
    {
        match self {
            Since::SequenceNumber(n) => decimal_string(*n as u128),
            Since::Now => "now".to_string(),
        }
    }
}

impl From<u64> for Since {
    fn from(seq: u64) -> (r: Self)
        ensures
            r == Since::SequenceNumber(seq),
    {
        Since::SequenceNumber(seq)
    }
}

impl vstd::std_specs::convert::FromSpecImpl<u64> for Since {
    open spec fn obeys_from_spec() -> bool {
        false
    }

    open spec fn from_spec(v: u64) -> Self {
        arbitrary()
    }
}

} // verus!
