//! View names.

use vstd::prelude::*;
use vstd::string::*;
use crate::text::{str_chars, string_chars};

verus! {

/// Name of a view.
///
/// A view name wraps a string naming a view: the `qux` part of the HTTP
/// request to GET `http://example.com:5984/db/_design/baz/_view/qux`. Names
/// convert to and from strings and are never percent-encoded.
///
/// Applications must not rely on how view names are ordered.
#[derive(Clone, Debug, Eq, Hash, Ord, PartialEq, PartialOrd)]
pub struct ViewName(String);

impl View for ViewName {
    type V = Seq<char>;

    /// The name.
    closed spec fn view(&self) -> Seq<char> {
        self.0@
    }
}

impl ViewName {
    /// Constructs an empty name.
    pub fn new() -> (r: Self)
        ensures
            r@ == Seq::<char>::empty(),
    {
        ViewName(String::new())
    }

    /// The name as its `Display` form prints it: the name itself.
    pub fn to_string(&self) -> (r: String)
        ensures
            r@ == self@,
    {
        self.0.clone()
    }
}

impl AsRef<str> for ViewName {
    fn as_ref(&self) -> (r: &str)
        ensures
            str_chars(r) == self@,
    {
        self.0.as_str()
    }
}

impl AsRef<String> for ViewName {
    fn as_ref(&self) -> (r: &String)
        ensures
            string_chars(r) == self@,
    {
        &self.0
    }
}

impl From<ViewName> for String {
    fn from(x: ViewName) -> (r: String)
        ensures
            r@ == x@,
    {
        x.0
    }
}

impl vstd::std_specs::convert::FromSpecImpl<ViewName> for String {
    open spec fn obeys_from_spec() -> bool {
        false
    }

    open spec fn from_spec(v: ViewName) -> String {
        arbitrary()
    }
}

impl From<&str> for ViewName {
    fn from(s: &str) -> (r: Self)
        ensures
            r@ == s@,
    {
        ViewName(s.to_string())
    }
}

impl vstd::std_specs::convert::FromSpecImpl<&str> for ViewName {
    open spec fn obeys_from_spec() -> bool {
        false
    }

    open spec fn from_spec(v: &str) -> Self {
        arbitrary()
    }
}

impl From<String> for ViewName {
    fn from(s: String) -> (r: Self)
        ensures
            r@ == s@,
    {
        ViewName(s)
    }
}

impl vstd::std_specs::convert::FromSpecImpl<String> for ViewName {
    open spec fn obeys_from_spec() -> bool {
        false
    }

    open spec fn from_spec(v: String) -> Self {
        arbitrary()
    }
}

} // verus!
