//! Types used in the requests and responses of the CouchDB API.
//!
//! These are the types that the CouchDB server sends and receives, usually as
//! JSON. Reading a JSON object into one of them takes two steps: `serde_json`
//! reads the values of the object's fields, and the type's `from_fields`
//! decides which fields are required and what the value is.

pub mod base64_blob;
pub mod change_item;
pub mod change_line;
pub mod change_result;
pub mod changes;
pub mod content_type;
pub mod database;
pub mod database_name;
pub mod design;
pub mod design_document_name;
pub mod document;
pub mod document_id;
pub mod document_name;
pub mod embedded_attachment;
pub mod errorresponse;
pub mod fields;
pub mod heartbeat;
pub mod json;
pub mod misc_response;
pub mod putdocresponse;
pub mod response;
pub mod revision;
pub mod root;
pub mod server_uuid;
pub mod since;
pub mod view_function;
pub mod view_name;
pub mod view_result;
pub mod view_row;

pub use self::base64_blob::Base64Blob;
pub use self::change_item::{ChangeItem, ChangeItemBuilder};
pub use self::change_line::ChangeLine;
pub use self::change_result::{ChangeResult, ChangeResultBuilder};
pub use self::changes::{Changes, ChangesBuilder};
pub use self::content_type::ContentType;
pub use self::database::Database;
pub use self::database_name::DatabaseName;
pub use self::design::{Design, DesignBuilder};
pub use self::design_document_name::DesignDocumentName;
pub use self::document::Document;
pub use self::document_id::DocumentId;
pub use self::document_name::DocumentName;
pub use self::embedded_attachment::{EmbeddedAttachment, EmbeddedAttachmentBuilder};
pub use self::fields::FieldError;
pub use self::heartbeat::{Heartbeat, Period};
pub use self::misc_response::{PostToDatabaseResponse, WriteDocumentResponse};
pub use self::response::ErrorResponse;
pub use self::revision::{Md5Hash, Revision};
pub use self::root::{Root, RootBuilder, Vendor};
pub use self::server_uuid::ServerUuid;
pub use self::since::Since;
pub use self::view_function::{ViewFunction, ViewFunctionBuilder, ViewFunctionMap};
pub use self::view_name::ViewName;
pub use self::view_result::ViewResult;
pub use self::view_row::ViewRow;
