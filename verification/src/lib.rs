//! The `couchdb` library provides types for working with CouchDB.
//!
//! The library is not a CouchDB client. It makes it easier for applications
//! to talk to a CouchDB server through an HTTP client of their choice, by
//! giving the stringly types of the CouchDB API (names, ids, paths, revisions,
//! versions) and the JSON objects of its responses types of their own, with
//! the rules for reading and writing them stated and proved.

pub mod text;
pub mod error;
pub mod numeric;
pub mod percent;
pub mod path;
pub mod revision;
pub mod name_map;
pub mod dbtype;
pub mod root;
pub mod nok;
pub mod design;
pub mod docid;
pub mod viewfunction;
pub mod jsontest;
pub mod testing;

pub use crate::error::Error;
pub use crate::nok::Nok;
pub use crate::path::{
    AttachmentName, AttachmentPath, DatabaseName, DatabasePath, DesignDocumentId,
    DesignDocumentName, DesignDocumentPath, DocumentId, DocumentPath, LocalDocumentName,
    NormalDocumentName, PathDecoder, ViewId, ViewName, ViewPath,
};
pub use crate::revision::Revision;
pub use crate::root::{Root, Vendor, Version};
