//! JavaScript view functions, as the design documents of this crate hold them.

pub use crate::dbtype::view_function::{ViewFunction, ViewFunctionMap};
