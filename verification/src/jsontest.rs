//! Building JSON object text for tests of how objects are read.

pub use crate::dbtype::json::{join_json_string, make_complete_json_object, make_json_object_with_missing_field};
