//! MIME types of attachments.

use vstd::prelude::*;
use vstd::string::*;
use crate::dbtype::fields::FieldError;

verus! {

/// What the `mime` crate makes of a string, where it parses it as a media
/// type: the type, the subtype (without any `+suffix`), and the whole media
/// type as the crate prints it (type and subtype in lower case, then the
/// parameters); `None` where it refuses the string.
pub uninterp spec fn mime_parsed(s: Seq<char>) -> Option<(Seq<char>, Seq<char>, Seq<char>)>;

/// Parses a media type with `mime::Mime`'s `FromStr` and gives its type
/// (`Mime::type_`), its subtype (`Mime::subtype`) and its text
/// (`Mime::as_ref`, which is also what its `Display` prints), each as a
/// string; the contract names them by `mime_parsed`, a function of the string
/// alone.
#[verifier::external_body]
fn mime_parse(s: &str) -> (r: Option<(String, String, String)>)
    ensures
        match r {
            Some(p) => mime_parsed(s@) == Some((p.0@, p.1@, p.2@)),
            None => mime_parsed(s@) is None,
        },
{
    match s.parse::<mime::Mime>() {
        Ok(m) => Some(
            (m.type_().as_str().to_string(), m.subtype().as_str().to_string(), m.as_ref().to_string()),
        ),
        Err(_) => None,
    }
}

/// A media type, read from the string that the CouchDB server sends: its
/// type, its subtype and its whole text, parameters included.
#[derive(Clone, Debug, Eq, PartialEq)]
pub struct ContentType {
    type_: String,
    subtype: String,
    text: String,
}

impl View for ContentType {
    type V = (Seq<char>, Seq<char>, Seq<char>);

    /// The type, the subtype and the whole text.
    closed spec fn view(&self) -> (Seq<char>, Seq<char>, Seq<char>) {
        (self.type_@, self.subtype@, self.text@)
    }
}

impl ContentType {
    /// Reads a media type from a string, as the `mime` crate parses it.
    pub fn parse(s: &str) -> (r: Result<Self, FieldError>)
        ensures
            match mime_parsed(s@) {
                Some(v) => r matches Ok(c) && c@ == v,
                None => r == Err::<Self, FieldError>(FieldError::InvalidValue("Bad MIME string")),
            },
    {
        match mime_parse(s) {
            Some((type_, subtype, text)) => Ok(ContentType { type_, subtype, text }),
            None => Err(FieldError::InvalidValue("Bad MIME string")),
        }
    }

    /// The type: the `text` of `text/plain`.
    pub fn type_(&self) -> (r: &str)
        ensures
            r@ == self@.0,
    {
        self.type_.as_str()
    }

    /// The subtype: the `plain` of `text/plain`.
    pub fn subtype(&self) -> (r: &str)
        ensures
            r@ == self@.1,
    {
        self.subtype.as_str()
    }

    /// The media type as its `Display` form prints it.
    pub fn to_string(&self) -> (r: String)
        ensures
            r@ == self@.2,
    {
        self.text.clone()
    }
}

} // verus!
