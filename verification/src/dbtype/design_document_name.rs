//! Design document names.

use vstd::prelude::*;
use vstd::string::*;
use crate::text::{str_chars, string_chars};

verus! {

/// Name of a design document.
///
/// A design document name wraps a string naming a design document: the `foo`
/// part of the HTTP request to GET `http://example.com:5984/db/_design/foo`.
/// Names convert to and from strings and are never percent-encoded.
///
/// Applications must not rely on how design document names are ordered.
#[derive(Clone, Debug, Eq, Hash, Ord, PartialEq, PartialOrd)]
pub struct DesignDocumentName(String);

impl View for DesignDocumentName {
    type V = Seq<char>;

    /// The name.
    closed spec fn view(&self) -> Seq<char> {
        self.0@
    }
}

impl DesignDocumentName {
    /// Constructs an empty name.
    pub fn new() -> (r: Self)
        ensures
            r@ == Seq::<char>::empty(),
    {
        DesignDocumentName(String::new())
    }

    /// The name as its `Display` form prints it: the name itself.
    pub fn to_string(&self) -> (r: String)
        ensures
            r@ == self@,
    {
        self.0.clone()
    }
}

impl AsRef<str> for DesignDocumentName {
    fn as_ref(&self) -> (r: &str)
        ensures
            str_chars(r) == self@,
    {
        self.0.as_str()
    }
}

impl AsRef<String> for DesignDocumentName {
    fn as_ref(&self) -> (r: &String)
        ensures
            string_chars(r) == self@,
    {
        &self.0
    }
}

impl From<DesignDocumentName> for String {
    fn from(x: DesignDocumentName) -> (r: String)
        ensures
            r@ == x@,
    {
        x.0
    }
}

impl vstd::std_specs::convert::FromSpecImpl<DesignDocumentName> for String {
    open spec fn obeys_from_spec() -> bool {
        false
    }

    open spec fn from_spec(v: DesignDocumentName) -> String {
        arbitrary()
    }
}

impl From<&str> for DesignDocumentName {
    fn from(s: &str) -> (r: Self)
        ensures
            r@ == s@,
    {
        DesignDocumentName(s.to_string())
    }
}

impl vstd::std_specs::convert::FromSpecImpl<&str> for DesignDocumentName {
    open spec fn obeys_from_spec() -> bool {
        false
    }

    open spec fn from_spec(v: &str) -> Self {
        arbitrary()
    }
}

impl From<String> for DesignDocumentName {
    fn from(s: String) -> (r: Self)
        ensures
            r@ == s@,
    {
        DesignDocumentName(s)
    }
}

impl vstd::std_specs::convert::FromSpecImpl<String> for DesignDocumentName {
    open spec fn obeys_from_spec() -> bool {
        false
    }

    open spec fn from_spec(v: String) -> Self {
        arbitrary()
    }
}

} // verus!
