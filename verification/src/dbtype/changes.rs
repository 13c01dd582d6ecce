//! Change lists: the changes to the documents of a database.

use vstd::prelude::*;
use crate::dbtype::change_result::{ChangeResult, ChangeResultBuilder};
use crate::dbtype::document_id::DocumentId;
use crate::dbtype::fields::{required, FieldError, Sealed};

verus! {

/// List of changes to documents within a database.
#[derive(Clone, Debug, PartialEq)]
pub struct Changes {
    /// Sequence number for the most recent change.
    pub last_seq: u64,
    /// Changes in the change list.
    pub results: Vec<ChangeResult>,
    _dummy: Sealed,
}

impl View for Changes {
    type V = (u64, Seq<ChangeResult>);

    /// The last sequence number and the change results.
    closed spec fn view(&self) -> (u64, Seq<ChangeResult>) {
        (self.last_seq, self.results@)
    }
}

/// The names of the fields of a change list, as its JSON object holds them.
pub const CHANGES_FIELDS: [&'static str; 2] = ["last_seq", "results"];

impl Changes {
    /// Assembles a change list from the fields that its JSON object held:
    /// `last_seq` and `results` are required, checked in that order.
    pub fn from_fields(last_seq: Option<u64>, results: Option<Vec<ChangeResult>>) -> (r: Result<
        Self,
        FieldError,
    >)
        ensures
            last_seq is None ==> r == Err::<Self, FieldError>(FieldError::MissingField("last_seq")),
            last_seq is Some && results is None ==> r == Err::<Self, FieldError>(
                FieldError::MissingField("results"),
            ),
            last_seq is Some && results is Some ==> (r matches Ok(x) && x@ == (
                last_seq->0,
                results->0@,
            )),
    {
        let last_seq = required(last_seq, "last_seq")?;
        let results = required(results, "results")?;
        Ok(Changes { last_seq, results, _dummy: Sealed })
    }
}

/// Builder for constructing a change list.
#[derive(Debug)]
pub struct ChangesBuilder {
    target: Changes,
}

impl View for ChangesBuilder {
    type V = (u64, Seq<ChangeResult>);

    /// The change list under construction.
    closed spec fn view(&self) -> (u64, Seq<ChangeResult>) {
        self.target@
    }
}

impl ChangesBuilder {
    /// Constructs a builder whose change list has the given last sequence
    /// number and no change results.
    pub fn new(last_seq: u64) -> (r: Self)
        ensures
            r@ == (last_seq, Seq::<ChangeResult>::empty()),
    {
        ChangesBuilder { target: Changes { last_seq, results: Vec::new(), _dummy: Sealed } }
    }

    /// Returns the change list contained within the builder.
    pub fn unwrap(self) -> (r: Changes)
        ensures
            r@ == self@,
    {
        self.target
    }

    /// Adds a change result to the change list.
    pub fn push_result(self, result: ChangeResult) -> (r: Self)
        ensures
            r@ == (self@.0, self@.1.push(result)),
    {
        let mut b = self;
        b.target.results.push(result);
        b
    }

    /// Builds a change result with the given sequence number and document id,
    /// by handing a builder that holds them to `f`, and adds it to the change
    /// list.
    pub fn build_result<I, F>(self, seq: u64, doc_id: I, f: F) -> (r: Self) where
        DocumentId: From<I>,
        F: FnOnce(ChangeResultBuilder) -> ChangeResultBuilder,

        requires
            forall|b: ChangeResultBuilder| call_requires(f, (b,)),
        ensures
            exists|b: ChangeResultBuilder, built: ChangeResultBuilder, result: ChangeResult|
                b@.0 == seq && call_ensures(DocumentId::from, (doc_id,), b@.1) && b@.2 == Seq::<
                    crate::dbtype::change_item::ChangeItem,
                >::empty() && b@.3 == false && call_ensures(f, (b,), built) && result@ == built@
                    && r@ == (self@.0, self@.1.push(result)),
    {
        let b = ChangeResultBuilder::new(seq, doc_id);
        let ghost gb = b;
        let built = f(b);
        let ghost gbuilt = built;
        let result = built.unwrap();
        let ghost gresult = result;
        let r = self.push_result(result);
        proof {
            assert(call_ensures(f, (gb,), gbuilt));
            assert(r@ == (self@.0, self@.1.push(gresult)));
        }
        r
    }
}

} // verus!
