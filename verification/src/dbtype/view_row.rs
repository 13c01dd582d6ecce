//! Rows of the result of executing a view.

use vstd::prelude::*;
use crate::dbtype::document_id::DocumentId;
use crate::dbtype::fields::{required, FieldError, Sealed};

verus! {

/// Single row contained in the response resulting from executing a view.
///
/// A row of a reduced view has no id and no key, and its value holds the
/// reduced result; a row of a view that was not reduced has an id and a key,
/// and its value is one of the values the view emitted. Applications must not
/// rely on how rows are ordered.
#[derive(Clone, Debug, Eq, Hash, Ord, PartialEq, PartialOrd)]
pub struct ViewRow<K, V> {
    /// Id of the document, if and only if the view has not been reduced.
    pub id: Option<DocumentId>,
    /// Emitted key, if and only if the view has not been reduced.
    pub key: Option<K>,
    /// Emitted value, either reduced or not.
    pub value: V,
    _dummy: Sealed,
}

impl<K, V> View for ViewRow<K, V> {
    type V = (Option<DocumentId>, Option<K>, V);

    /// The id, the key and the value.
    closed spec fn view(&self) -> (Option<DocumentId>, Option<K>, V) {
        (self.id, self.key, self.value)
    }
}

/// The names of the fields of a view row, as its JSON object holds them.
pub const VIEW_ROW_FIELDS: [&'static str; 3] = ["id", "key", "value"];

impl<K, V> ViewRow<K, V> {
    /// Constructs a row that holds only a value: no id and no key.
    pub fn new<T>(value: T) -> (r: Self) where V: From<T>
        ensures
            r@.0 is None,
            r@.1 is None,
            call_ensures(V::from, (value,), r@.2),
    {
        ViewRow { id: None, key: None, value: V::from(value), _dummy: Sealed }
    }

    /// Assembles a view row from the fields that its JSON object held: `value`
    /// is required, and a `key` of `null` counts as none.
    pub fn from_fields(id: Option<DocumentId>, key: Option<K>, value: Option<V>) -> (r: Result<
        Self,
        FieldError,
    >)
        ensures
            value is None ==> r == Err::<Self, FieldError>(FieldError::MissingField("value")),
            value is Some ==> (r matches Ok(x) && x@ == (id, key, value->0)),
    {
        let value = required(value, "value")?;
        Ok(ViewRow { id, key, value, _dummy: Sealed })
    }
}

} // verus!
