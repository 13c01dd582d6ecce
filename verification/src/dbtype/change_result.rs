//! Change results: one document that has changed.

use vstd::prelude::*;
use crate::dbtype::change_item::{ChangeItem, ChangeItemBuilder};
use crate::dbtype::document_id::DocumentId;
use crate::dbtype::fields::{required, FieldError, Sealed};
use crate::dbtype::revision::Revision;
use crate::revision::parse_revision;

verus! {

/// Single element as returned in a change list: one document that has
/// changed.
#[derive(Clone, Debug, PartialEq)]
pub struct ChangeResult {
    /// Sequence number for the change.
    pub seq: u64,
    /// Id of the changed document.
    pub id: DocumentId,
    /// Leaves of the changed document.
    pub changes: Vec<ChangeItem>,
    /// Whether the changed document has been deleted.
    pub deleted: bool,
    _dummy: Sealed,
}

impl View for ChangeResult {
    type V = (u64, DocumentId, Seq<ChangeItem>, bool);

    /// The sequence number, the document id, the leaves and whether the
    /// document was deleted.
    closed spec fn view(&self) -> (u64, DocumentId, Seq<ChangeItem>, bool) {
        (self.seq, self.id, self.changes@, self.deleted)
    }
}

/// The names of the fields of a change result, as its JSON object holds them.
pub const CHANGE_RESULT_FIELDS: [&'static str; 4] = ["changes", "deleted", "id", "seq"];

impl ChangeResult {
    /// Constructs a change result from its parts.
    pub fn new(seq: u64, id: DocumentId, changes: Vec<ChangeItem>, deleted: bool) -> (r: Self)
        ensures
            r@ == (seq, id, changes@, deleted),
    {
        ChangeResult { seq, id, changes, deleted, _dummy: Sealed }
    }

    /// Assembles a change result from the fields that its JSON object held:
    /// `changes`, `id` and `seq` are required, checked in that order, and
    /// `deleted` defaults to `false`.
    pub fn from_fields(
        changes: Option<Vec<ChangeItem>>,
        deleted: Option<bool>,
        id: Option<DocumentId>,
        seq: Option<u64>,
    ) -> (r: Result<Self, FieldError>)
        ensures
            changes is None ==> r == Err::<Self, FieldError>(FieldError::MissingField("changes")),
            changes is Some && id is None ==> r == Err::<Self, FieldError>(
                FieldError::MissingField("id"),
            ),
            changes is Some && id is Some && seq is None ==> r == Err::<Self, FieldError>(
                FieldError::MissingField("seq"),
            ),
            changes is Some && id is Some && seq is Some ==> (r matches Ok(x) && x@ == (
                seq->0,
                id->0,
                changes->0@,
                match deleted {
                    Some(d) => d,
                    None => false,
                },
            )),
    {
        let changes = required(changes, "changes")?;
        let deleted = match deleted {
            Some(d) => d,
            None => false,
        };
        let id = required(id, "id")?;
        let seq = required(seq, "seq")?;
        Ok(ChangeResult::new(seq, id, changes, deleted))
    }
}

/// Builder for constructing a change result.
#[derive(Debug)]
pub struct ChangeResultBuilder {
    target: ChangeResult,
}

impl View for ChangeResultBuilder {
    type V = (u64, DocumentId, Seq<ChangeItem>, bool);

    /// The change result under construction.
    closed spec fn view(&self) -> (u64, DocumentId, Seq<ChangeItem>, bool) {
        self.target@
    }
}

impl ChangeResultBuilder {
    /// Constructs a builder whose change result has the given sequence number
    /// and document id, no leaves, and is not deleted.
    pub fn new<I>(seq: u64, doc_id: I) -> (r: Self) where DocumentId: From<I>
        ensures
            r@.0 == seq,
            call_ensures(DocumentId::from, (doc_id,), r@.1),
            r@.2 == Seq::<ChangeItem>::empty(),
            r@.3 == false,
    {
        let id = DocumentId::from(doc_id);
        ChangeResultBuilder { target: ChangeResult::new(seq, id, Vec::new(), false) }
    }

    /// Returns the change result contained within the builder.
    pub fn unwrap(self) -> (r: ChangeResult)
        ensures
            r@ == self@,
    {
        self.target
    }

    /// Sets whether the document was deleted.
    pub fn deleted(self, deleted: bool) -> (r: Self)
        ensures
            r@ == (self@.0, self@.1, self@.2, deleted),
    {
        let mut b = self;
        b.target.deleted = deleted;
        b
    }

    /// Adds a leaf to the change result.
    pub fn push_change(self, change: ChangeItem) -> (r: Self)
        ensures
            r@ == (self@.0, self@.1, self@.2.push(change), self@.3),
    {
        let mut b = self;
        b.target.changes.push(change);
        b
    }

    /// Builds a leaf with the given revision, by handing a builder that holds
    /// it to `f`, and adds it to the change result.
    pub fn build_change<F>(self, rev: Revision, f: F) -> (r: Self) where
        F: FnOnce(ChangeItemBuilder) -> ChangeItemBuilder,

        requires
            forall|b: ChangeItemBuilder| call_requires(f, (b,)),
        ensures
            exists|b: ChangeItemBuilder, built: ChangeItemBuilder, item: ChangeItem|
                b@ == rev@ && call_ensures(f, (b,), built) && item@ == built@ && r@ == (
                    self@.0,
                    self@.1,
                    self@.2.push(item),
                    self@.3,
                ),
    {
        let b = ChangeItemBuilder::new(rev);
        let ghost gb = b;
        let built = f(b);
        let ghost gbuilt = built;
        let item = built.unwrap();
        let ghost gitem = item;
        let r = self.push_change(item);
        proof {
            assert(call_ensures(f, (gb,), gbuilt));
            assert(r@ == (self@.0, self@.1, self@.2.push(gitem), self@.3));
        }
        r
    }

    /// Builds a leaf with the revision that the string holds, which must be a
    /// valid revision, by handing a builder that holds it to `f`, and adds it
    /// to the change result.
    pub fn build_change_from_rev_str<F>(self, rev: &str, f: F) -> (r: Self) where
        F: FnOnce(ChangeItemBuilder) -> ChangeItemBuilder,

        requires
            parse_revision(rev@) is Some,
            forall|b: ChangeItemBuilder| call_requires(f, (b,)),
        ensures
            exists|b: ChangeItemBuilder, built: ChangeItemBuilder, item: ChangeItem|
                b@ == parse_revision(rev@)->0 && call_ensures(f, (b,), built) && item@ == built@
                    && r@ == (self@.0, self@.1, self@.2.push(item), self@.3),
    {
        let b = ChangeItemBuilder::new_from_rev_str(rev);
        let ghost gb = b;
        let built = f(b);
        let ghost gbuilt = built;
        let item = built.unwrap();
        let ghost gitem = item;
        let r = self.push_change(item);
        proof {
            assert(call_ensures(f, (gb,), gbuilt));
            assert(r@ == (self@.0, self@.1, self@.2.push(gitem), self@.3));
        }
        r
    }
}

} // verus!
