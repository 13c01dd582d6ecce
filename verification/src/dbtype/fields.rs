//! Reading the fields of a JSON object into a value of the library.
//!
//! A JSON object of the CouchDB API is read in two steps: each key names one
//! field, or the object is refused; and once all keys were read, the value is
//! assembled from the fields that were present, or refused for the first
//! required field that was missing. The functions here make those decisions;
//! reading the JSON text itself is `serde_json`'s work.

use vstd::prelude::*;
use crate::name_map::compare_names;

verus! {

/// A private field that only this crate can fill, so that applications
/// construct values through the constructors and builders, and new fields can
/// be added later.
#[derive(Clone, Copy, Debug, Default, Eq, Hash, Ord, PartialEq, PartialOrd)]
pub(crate) struct Sealed;

/// Why a JSON object could not be read into a value.
#[derive(Clone, Debug, Eq, PartialEq)]
pub enum FieldError {
    /// A required field is missing.
    MissingField(&'static str),
    /// The object holds a key that names no field, or one that does not go
    /// with the fields read before it.
    UnknownField(&'static str),
    /// A field holds a value that is not valid for it.
    InvalidValue(&'static str),
}

/// The position of `key` among `names`, or `None` where it is none of them.
pub fn field_index(names: &[&'static str], key: &str) -> (r: Option<usize>)
    ensures
        match r {
            Some(i) => i < names@.len() && names@[i as int]@ == key@ && forall|j: int|
                0 <= j < i ==> names@[j]@ != key@,
            None => forall|j: int| 0 <= j < names@.len() ==> names@[j]@ != key@,
        },
{
    let mut i: usize = 0;
    while i < names.len()
        invariant
            i <= names@.len(),
            forall|j: int| 0 <= j < i ==> names@[j]@ != key@,
        decreases names.len() - i,
    {
        if compare_names(names[i], key) == 0 {
            return Some(i);
        }
        i = i + 1;
    }
    None
}

/// The value of a required field, or the error that names it.
pub fn required<T>(value: Option<T>, name: &'static str) -> (r: Result<T, FieldError>)
    ensures
        match value {
            Some(v) => r == Ok::<T, FieldError>(v),
            None => r == Err::<T, FieldError>(FieldError::MissingField(name)),
        },
{
    match value {
        Some(v) => Ok(v),
        None => Err(FieldError::MissingField(name)),
    }
}

} // verus!
