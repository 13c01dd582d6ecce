//! The error type of the library.

use vstd::prelude::*;
use vstd::string::*;

verus! {

/// `Error` is the principal error type of the library.
#[derive(Debug)]
pub enum Error {
    /// A string is not a valid design document id.
    BadDesignDocumentId,
    /// A string is not a valid attachment digest.
    BadDigest,
    /// A path is not valid; `what` says why.
    BadPath { what: &'static str },
    /// A string is not a valid document revision.
    BadRevision,
    /// A string is not a valid MD5 hash.
    BadMd5Hash,
    /// A string holds a percent-encoding that is not valid.
    InvalidPercentEncoding { encoding: String },
}

/// What `description` returns for each error.
pub open spec fn description_of(e: Error) -> Seq<char> {
    match e {
        Error::BadDesignDocumentId => "The string is not a valid CouchDB design document id"@,
        Error::BadDigest => "The string is not a valid CouchDB attachment digest"@,
        Error::BadPath { .. } => "The CouchDB path is not valid"@,
        Error::BadRevision => "The string is not a valid CouchDB document revision"@,
        Error::BadMd5Hash => "The string is not a valid MD5 hash"@,
        Error::InvalidPercentEncoding { .. } => "The string contains an invalid percent-encoding"@,
    }
}

/// The message of an error: its description, followed by the detail for the
/// errors that carry one.
pub open spec fn message_of(e: Error) -> Seq<char> {
    match e {
        Error::BadPath { what } => description_of(e) + ": "@ + what@,
        Error::InvalidPercentEncoding { encoding } => description_of(e) + ": "@ + encoding@,
        _ => description_of(e),
    }
}

impl Error {
    /// Constructs a path error with the given detail.
    pub fn bad_path(what: &'static str) -> (r: Self)
        ensures
            r == (Error::BadPath { what }),
    {
        Error::BadPath { what: what }
    }

    /// A sentence that describes the kind of the error.
    pub fn description(&self) -> (r: &'static str)
        ensures
            r@ == description_of(*self),
    {
        match self {
            Error::BadDesignDocumentId => "The string is not a valid CouchDB design document id",
            Error::BadDigest => "The string is not a valid CouchDB attachment digest",
            Error::BadPath { .. } => "The CouchDB path is not valid",
            Error::BadRevision => "The string is not a valid CouchDB document revision",
            Error::BadMd5Hash => "The string is not a valid MD5 hash",
            Error::InvalidPercentEncoding { .. } => "The string contains an invalid percent-encoding",
        }
    }

    /// The error's message, as its `Display` form would print it.
    pub fn to_string(&self) -> (r: String)
        ensures
            r@ == message_of(*self),
    {
        let mut s = String::new();
        s.append(self.description());
        match self {
            Error::BadPath { what } => {
                s.append(": ");
                s.append(what);
            },
            Error::InvalidPercentEncoding { encoding } => {
                s.append(": ");
                s.append(encoding.as_str());
            },
            _ => {},
        }
        s
    }
}

} // verus!
