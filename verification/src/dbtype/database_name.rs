//! Database names.

use vstd::prelude::*;
use vstd::string::*;
use crate::text::{str_chars, string_chars};

verus! {

/// Name of a database.
///
/// A database name wraps a string specifying a database: the `db` part of the
/// HTTP request to GET `http://example.com:5984/db`. Database names convert to
/// and from strings and are never percent-encoded.
///
/// Applications must not rely on how database names are ordered.
#[derive(Clone, Debug, Eq, Hash, Ord, PartialEq, PartialOrd)]
pub struct DatabaseName(String);

impl View for DatabaseName {
    type V = Seq<char>;

    /// The name.
    closed spec fn view(&self) -> Seq<char> {
        self.0@
    }
}

impl DatabaseName {
    /// Constructs an empty name.
    pub fn new() -> (r: Self)
        ensures
            r@ == Seq::<char>::empty(),
    {
        DatabaseName(String::new())
    }

    /// The name as its `Display` form prints it: the name itself.
    pub fn to_string(&self) -> (r: String)
        ensures
            r@ == self@,
    {
        self.0.clone()
    }
}

impl AsRef<str> for DatabaseName {
    fn as_ref(&self) -> (r: &str)
        ensures
            str_chars(r) == self@,
    {
        self.0.as_str()
    }
}

impl AsRef<String> for DatabaseName {
    fn as_ref(&self) -> (r: &String)
        ensures
            string_chars(r) == self@,
    {
        &self.0
    }
}

impl From<DatabaseName> for String {
    fn from(x: DatabaseName) -> (r: String)
        ensures
            r@ == x@,
    {
        x.0
    }
}

impl vstd::std_specs::convert::FromSpecImpl<DatabaseName> for String {
    open spec fn obeys_from_spec() -> bool {
        false
    }

    open spec fn from_spec(v: DatabaseName) -> String {
        arbitrary()
    }
}

impl From<&str> for DatabaseName {
    fn from(s: &str) -> (r: Self)
        ensures
            r@ == s@,
    {
        DatabaseName(s.to_string())
    }
}

impl vstd::std_specs::convert::FromSpecImpl<&str> for DatabaseName {
    open spec fn obeys_from_spec() -> bool {
        false
    }

    open spec fn from_spec(v: &str) -> Self {
        arbitrary()
    }
}

impl From<String> for DatabaseName {
    fn from(s: String) -> (r: Self)
        ensures
            r@ == s@,
    {
        DatabaseName(s)
    }
}

impl vstd::std_specs::convert::FromSpecImpl<String> for DatabaseName {
    open spec fn obeys_from_spec() -> bool {
        false
    }

    open spec fn from_spec(v: String) -> Self {
        arbitrary()
    }
}

} // verus!
