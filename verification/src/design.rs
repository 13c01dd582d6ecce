//! Design documents.

use vstd::prelude::*;
use crate::dbtype::view_function::{ViewFunction, ViewFunctionMap};

verus! {

/// Content of a design document.
///
/// CouchDB design documents contain many fields; `Design` holds only the
/// views.
#[derive(Clone, Debug, Eq, PartialEq)]
pub struct Design {
    /// Map of view names to the view function for each name.
    pub views: ViewFunctionMap,
}

impl Design {
    /// Constructs an empty design document: one with no views.
    pub fn new() -> (r: Self)
        ensures
            r.views@ == Map::<Seq<char>, ViewFunction>::empty(),
    {
        Design { views: ViewFunctionMap::new() }
    }

    /// Assembles a design document from the fields that its JSON object held:
    /// `views` is optional and defaults to no views.
    pub fn from_fields(views: Option<ViewFunctionMap>) -> (r: Self)
        ensures
            views is None ==> r.views@ == Map::<Seq<char>, ViewFunction>::empty(),
            views is Some ==> r.views == views->0,
    {
        match views {
            Some(x) => Design { views: x },
            None => Design::new(),
        }
    }
}

/// Builder for constructing a design document.
#[derive(Debug)]
pub struct DesignBuilder {
    design: Design,
}

impl View for DesignBuilder {
    type V = Map<Seq<char>, ViewFunction>;

    /// The views of the design document under construction.
    closed spec fn view(&self) -> Map<Seq<char>, ViewFunction> {
        self.design.views@
    }
}

impl DesignBuilder {
    /// Constructs a builder with an empty design document.
    pub fn new() -> (r: Self)
        ensures
            r@ == Map::<Seq<char>, ViewFunction>::empty(),
    {
        DesignBuilder { design: Design::new() }
    }

    /// Returns the design document.
    pub fn unwrap(self) -> (r: Design)
        ensures
            r.views@ == self@,
    {
        self.design
    }

    /// Adds a view function to the design document. A view function that the
    /// document already holds under the same name is replaced.
    pub fn insert_view<T, U>(self, view_name: T, view_function: U) -> (r: Self) where
        String: From<T>,
        ViewFunction: From<U>,

        ensures
            exists|n: String, f: ViewFunction|
                call_ensures(String::from, (view_name,), n) && call_ensures(
                    ViewFunction::from,
                    (view_function,),
                    f,
                ) && r@ == self@.insert(n@, f),
    {
        let mut b = self;
        let n = String::from(view_name);
        let f = ViewFunction::from(view_function);
        let ghost (gn, gf) = (n, f);
        b.design.views.insert(n, f);
        proof {
            assert(b@ == self@.insert(gn@, gf));
        }
        b
    }
}

} // verus!
