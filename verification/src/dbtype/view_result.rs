//! The result of executing a view.

use vstd::prelude::*;
use crate::dbtype::fields::{required, FieldError};
use crate::dbtype::view_row::ViewRow;

verus! {

/// Response resulting from executing a view.
///
/// The result of a reduced view has no total and no offset, and one row that
/// holds the reduced result; the result of a view that was not reduced has a
/// total and an offset, and zero or more rows. Applications must not rely on
/// how results are ordered.
#[derive(Clone, Debug, Eq, Hash, Ord, PartialEq, PartialOrd)]
pub struct ViewResult<K, V> {
    /// Number of rows in a view that was not reduced, including rows left out
    /// of `rows`.
    pub total_rows: Option<u64>,
    /// Number of rows in a view that was not reduced that were left out of
    /// `rows`.
    pub offset: Option<u64>,
    /// The rows of a view that was not reduced, or the one row holding the
    /// reduced result.
    pub rows: Vec<ViewRow<K, V>>,
}

/// The names of the fields of a view result, as its JSON object holds them.
pub const VIEW_RESULT_FIELDS: [&'static str; 3] = ["total_rows", "offset", "rows"];

impl<K, V> ViewResult<K, V> {
    /// Assembles a view result from the fields that its JSON object held:
    /// `rows` is required.
    pub fn from_fields(
        total_rows: Option<u64>,
        offset: Option<u64>,
        rows: Option<Vec<ViewRow<K, V>>>,
    ) -> (r: Result<Self, FieldError>)
        ensures
            rows is None ==> r == Err::<Self, FieldError>(FieldError::MissingField("rows")),
            rows is Some ==> r == Ok::<Self, FieldError>(
                ViewResult { total_rows, offset, rows: rows->0 },
            ),
    {
        let rows = required(rows, "rows")?;
        Ok(ViewResult { total_rows, offset, rows })
    }
}

} // verus!
