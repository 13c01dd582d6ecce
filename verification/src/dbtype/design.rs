//! The content of design documents.

use vstd::prelude::*;
use crate::dbtype::fields::Sealed;
use crate::dbtype::view_function::{ViewFunction, ViewFunctionBuilder, ViewFunctionMap};

verus! {

/// Content of a design document.
///
/// CouchDB design documents contain many fields; `Design` holds only the
/// views. Applications construct a `Design` with a `DesignBuilder`.
#[derive(Clone, Debug, Eq, PartialEq)]
pub struct Design {
    /// Map of view names to the view function for each name.
    pub views: ViewFunctionMap,
    _dummy: Sealed,
}

impl View for Design {
    type V = Map<Seq<char>, ViewFunction>;

    /// The views of the design document, by name.
    closed spec fn view(&self) -> Map<Seq<char>, ViewFunction> {
        self.views@
    }
}

impl Design {
    /// Constructs an empty design document: one with no views.
    pub fn new() -> (r: Self)
        ensures
            r@ == Map::<Seq<char>, ViewFunction>::empty(),
    {
        Design { views: ViewFunctionMap::new(), _dummy: Sealed }
    }

    /// Assembles a design document from the fields that its JSON object held:
    /// `views` is optional and defaults to no views.
    pub fn from_fields(views: Option<ViewFunctionMap>) -> (r: Self)
        ensures
            views is None ==> r@ == Map::<Seq<char>, ViewFunction>::empty(),
            views is Some ==> r@ == views->0@,
    {
        match views {
            Some(x) => Design { views: x, _dummy: Sealed },
            None => Design::new(),
        }
    }
}

/// The names of the fields of a design document, as its JSON object holds
/// them.
pub const DESIGN_FIELDS: [&'static str; 1] = ["views"];

/// Builder for constructing a design document.
#[derive(Debug)]
pub struct DesignBuilder {
    design: Design,
}

impl View for DesignBuilder {
    type V = Map<Seq<char>, ViewFunction>;

    /// The views of the design document under construction.
    closed spec fn view(&self) -> Map<Seq<char>, ViewFunction> {
        self.design@
    }
}

impl DesignBuilder {
    /// Constructs a builder containing an empty design document.
    pub fn new() -> (r: Self)
        ensures
            r@ == Map::<Seq<char>, ViewFunction>::empty(),
    {
        DesignBuilder { design: Design::new() }
    }

    /// Returns the design document contained within the builder.
    pub fn unwrap(self) -> (r: Design)
        ensures
            r@ == self@,
    {
        self.design
    }

    /// Adds a view function to the design document. A view function that the
    /// document already holds under the same name is replaced.
    pub fn insert_view<T, U>(self, view_name: T, view_function: U) -> (r: Self) where
        String: From<T>,
        ViewFunction: From<U>,

        ensures
            exists|n: String, f: ViewFunction|
                call_ensures(String::from, (view_name,), n) && call_ensures(
                    ViewFunction::from,
                    (view_function,),
                    f,
                ) && r@ == self@.insert(n@, f),
    {
        let mut b = self;
        let n = String::from(view_name);
        let f = ViewFunction::from(view_function);
        let ghost (gn, gf) = (n, f);
        b.design.views.insert(n, f);
        proof {
            assert(b@ == self@.insert(gn@, gf));
        }
        b
    }

    /// Builds a view function from the map function, by handing a builder
    /// that holds it to `f`, and adds it to the design document. A view
    /// function that the document already holds under the same name is
    /// replaced.
    pub fn build_view<T, U, F>(self, view_name: T, map_function: U, f: F) -> (r: Self) where
        String: From<T>,
        String: From<U>,
        F: FnOnce(ViewFunctionBuilder) -> ViewFunctionBuilder,

        requires
            forall|b: ViewFunctionBuilder| call_requires(f, (b,)),
        ensures
            exists|n: String, b: ViewFunctionBuilder, built: ViewFunctionBuilder|
                call_ensures(String::from, (view_name,), n) && (exists|m: String|
                    call_ensures(String::from, (map_function,), m) && b@.map == m)
                    && b@.reduce is None && call_ensures(f, (b,), built) && r@ == self@.insert(
                    n@,
                    built@,
                ),
    {
        let mut d = self;
        let n = String::from(view_name);
        let b = ViewFunctionBuilder::new(map_function);
        let ghost gb = b;
        let built = f(b);
        let ghost (gn, gbuilt) = (n, built);
        let v = built.unwrap();
        d.design.views.insert(n, v);
        proof {
            assert(d@ == self@.insert(gn@, gbuilt@));
            assert(call_ensures(f, (gb,), gbuilt));
        }
        d
    }
}

} // verus!
