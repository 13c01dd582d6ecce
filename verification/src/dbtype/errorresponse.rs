//! Error responses from the CouchDB server, under their older module name.

pub use crate::dbtype::response::ErrorResponse;
