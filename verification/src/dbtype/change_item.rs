//! Document leaves as a change result lists them.

use vstd::prelude::*;
use crate::dbtype::fields::{required, FieldError, Sealed};
use crate::dbtype::revision::Revision;
use crate::revision::parse_revision;

verus! {

/// Document leaf as returned in a change result.
#[derive(Clone, Debug, PartialEq)]
pub struct ChangeItem {
    /// Revision of the document leaf.
    pub rev: Revision,
    _dummy: Sealed,
}

impl View for ChangeItem {
    type V = (u64, u128);

    /// The revision of the leaf.
    closed spec fn view(&self) -> (u64, u128) {
        self.rev@
    }
}

impl ChangeItem {
    /// Constructs a change item with the given revision.
    pub fn new(rev: Revision) -> (r: Self)
        ensures
            r@ == rev@,
    {
        ChangeItem { rev, _dummy: Sealed }
    }

    /// Assembles a change item from the fields that its JSON object held;
    /// `rev` is required.
    pub fn from_fields(rev: Option<Revision>) -> (r: Result<Self, FieldError>)
        ensures
            rev is None ==> r == Err::<Self, FieldError>(FieldError::MissingField("rev")),
            rev is Some ==> (r matches Ok(x) && x@ == rev->0@),
    {
        let rev = required(rev, "rev")?;
        Ok(ChangeItem::new(rev))
    }
}

/// The names of the fields of a change item, as its JSON object holds them.
pub const CHANGE_ITEM_FIELDS: [&'static str; 1] = ["rev"];

/// Builder for constructing a change item.
#[derive(Debug)]
pub struct ChangeItemBuilder {
    target: ChangeItem,
}

impl View for ChangeItemBuilder {
    type V = (u64, u128);

    /// The revision of the change item under construction.
    closed spec fn view(&self) -> (u64, u128) {
        self.target@
    }
}

impl ChangeItemBuilder {
    /// Constructs a builder whose change item has the given revision.
    pub fn new(rev: Revision) -> (r: Self)
        ensures
            r@ == rev@,
    {
        ChangeItemBuilder { target: ChangeItem::new(rev) }
    }

    /// Constructs a builder whose change item has the revision that the
    /// string holds, which must be a valid revision.
    pub fn new_from_rev_str(rev: &str) -> (r: Self)
        requires
            parse_revision(rev@) is Some,
        ensures
            r@ == parse_revision(rev@)->0,
    {
        let x = Revision::parse(rev).unwrap();
        ChangeItemBuilder::new(x)
    }

    /// Returns the change item contained within the builder.
    pub fn unwrap(self) -> (r: ChangeItem)
        ensures
            r@ == self@,
    {
        self.target
    }
}

} // verus!
