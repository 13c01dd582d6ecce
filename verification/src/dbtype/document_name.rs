//! Document names.

use vstd::prelude::*;
use vstd::string::*;
use crate::text::{str_chars, string_chars};

verus! {

/// Name of a document.
///
/// A document name wraps a string naming a document: the `foo` part of the
/// HTTP request to GET `http://example.com:5984/db/foo`, or the part after the
/// `_design/` or `_local/` prefix of a design or local document id. Names
/// convert to and from strings and are never percent-encoded.
///
/// Applications must not rely on how document names are ordered.
#[derive(Clone, Debug, Eq, Hash, Ord, PartialEq, PartialOrd)]
pub struct DocumentName(String);

impl View for DocumentName {
    type V = Seq<char>;

    /// The name.
    closed spec fn view(&self) -> Seq<char> {
        self.0@
    }
}

impl DocumentName {
    /// Constructs an empty name.
    pub fn new() -> (r: Self)
        ensures
            r@ == Seq::<char>::empty(),
    {
        DocumentName(String::new())
    }

    /// The name as its `Display` form prints it: the name itself.
    pub fn to_string(&self) -> (r: String)
        ensures
            r@ == self@,
    {
        self.0.clone()
    }
}

impl AsRef<str> for DocumentName {
    fn as_ref(&self) -> (r: &str)
        ensures
            str_chars(r) == self@,
    {
        self.0.as_str()
    }
}

impl AsRef<String> for DocumentName {
    fn as_ref(&self) -> (r: &String)
        ensures
            string_chars(r) == self@,
    {
        &self.0
    }
}

impl From<DocumentName> for String {
    fn from(x: DocumentName) -> (r: String)
        ensures
            r@ == x@,
    {
        x.0
    }
}

impl vstd::std_specs::convert::FromSpecImpl<DocumentName> for String {
    open spec fn obeys_from_spec() -> bool {
        false
    }

    open spec fn from_spec(v: DocumentName) -> String {
        arbitrary()
    }
}

impl From<&str> for DocumentName {
    fn from(s: &str) -> (r: Self)
        ensures
            r@ == s@,
    {
        DocumentName(s.to_string())
    }
}

impl vstd::std_specs::convert::FromSpecImpl<&str> for DocumentName {
    open spec fn obeys_from_spec() -> bool {
        false
    }

    open spec fn from_spec(v: &str) -> Self {
        arbitrary()
    }
}

impl From<String> for DocumentName {
    fn from(s: String) -> (r: Self)
        ensures
            r@ == s@,
    {
        DocumentName(s)
    }
}

impl vstd::std_specs::convert::FromSpecImpl<String> for DocumentName {
    open spec fn obeys_from_spec() -> bool {
        false
    }

    open spec fn from_spec(v: String) -> Self {
        arbitrary()
    }
}

} // verus!
