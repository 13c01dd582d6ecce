//! The JavaScript functions of a CouchDB view.

use vstd::prelude::*;
use crate::dbtype::fields::{required, FieldError};
use crate::name_map::NameMap;

verus! {

/// JavaScript `map` and `reduce` functions for a CouchDB view.
///
/// Applications should construct a view function with a
/// `ViewFunctionBuilder`.
#[derive(Clone, Debug, Eq, Hash, Ord, PartialEq, PartialOrd)]
pub struct ViewFunction {
    /// JavaScript function that takes a document and emits zero or more
    /// key-value pairs.
    pub map: String,
    /// JavaScript function that reduces multiple values emitted from the map
    /// function into a single value.
    pub reduce: Option<String>,
}

impl ViewFunction {
    /// Assembles a view function from the fields that its JSON object held:
    /// `map` is required and `reduce` optional. A missing `map` is reported
    /// as the missing field `value`.
    pub fn from_fields(map: Option<String>, reduce: Option<String>) -> (r: Result<
        Self,
        FieldError,
    >)
        ensures
            map is None ==> r == Err::<Self, FieldError>(FieldError::MissingField("value")),
            map is Some ==> r == Ok::<Self, FieldError>(ViewFunction { map: map->0, reduce }),
    {
        let map = required(map, "value")?;
        Ok(ViewFunction { map, reduce })
    }
}

/// The names of the fields of a view function, as its JSON object holds them.
pub const VIEW_FUNCTION_FIELDS: [&'static str; 2] = ["map", "reduce"];

/// Associative collection for view functions, by view name.
pub type ViewFunctionMap = NameMap<ViewFunction>;

/// Builder for constructing a view function.
#[derive(Debug)]
pub struct ViewFunctionBuilder {
    view_function: ViewFunction,
}

impl View for ViewFunctionBuilder {
    type V = ViewFunction;

    /// The view function under construction.
    closed spec fn view(&self) -> ViewFunction {
        self.view_function
    }
}

impl ViewFunctionBuilder {
    /// Constructs a builder whose view function has the given map function and
    /// no reduce function.
    pub fn new<S>(map_function: S) -> (r: Self) where String: From<S>
        ensures
            exists|m: String| call_ensures(String::from, (map_function,), m) && r@.map == m,
            r@.reduce is None,
    {
        ViewFunctionBuilder {
            view_function: ViewFunction { map: String::from(map_function), reduce: None },
        }
    }

    /// Returns the view function contained within the builder.
    pub fn unwrap(self) -> (r: ViewFunction)
        ensures
            r == self@,
    {
        self.view_function
    }

    /// Replaces any reduce function in the view function.
    pub fn set_reduce<S>(self, reduce_function: S) -> (r: Self) where String: From<S>
        ensures
            r@.map == self@.map,
            exists|x: String|
                call_ensures(String::from, (reduce_function,), x) && r@.reduce == Some(x),
    {
        let mut b = self;
        b.view_function.reduce = Some(String::from(reduce_function));
        b
    }
}

} // verus!
