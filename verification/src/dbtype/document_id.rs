//! Document identifiers: a document's type and name.

use vstd::prelude::*;
use vstd::string::*;
use crate::dbtype::design_document_name::DesignDocumentName;
use crate::dbtype::document_name::DocumentName;
use crate::docid::{doc_id_parts, design_slash, has_prefix, local_slash, string_of};
use crate::text::chars_of;

verus! {

/// Document identifier.
///
/// A document id specifies a document's type and name. For example, given the
/// HTTP request to `GET http://example.com:5984/db/_design/design-doc`, the
/// document id is `_design/design-doc` and specifies a design document with
/// the name `design-doc`.
///
/// There are three types of documents: *normal*, *design* (`_design`), and
/// *local* (`_local`). Each type is an enum variant that owns the document
/// name. Applications must not rely on how document ids are ordered.
#[derive(Clone, Debug, Eq, Hash, Ord, PartialEq, PartialOrd)]
pub enum DocumentId {
    /// Normal document: neither a design document nor a local document.
    Normal(DocumentName),
    /// Design document (`_design`).
    Design(DesignDocumentName),
    /// Local document (`_local`).
    Local(DocumentName),
}

/// The text of a document id of the given kind (0 for normal, 1 for design,
/// 2 for local) and name: the name after its type prefix.
pub open spec fn doc_id_text(p: (int, Seq<char>)) -> Seq<char> {
    if p.0 == 1 {
        design_slash() + p.1
    } else if p.0 == 2 {
        local_slash() + p.1
    } else {
        p.1
    }
}

impl DocumentId {
    /// The kind of the id (0 for normal, 1 for design, 2 for local) and the
    /// document name.
    pub open spec fn parts(self) -> (int, Seq<char>) {
        match self {
            DocumentId::Normal(n) => (0, n@),
            DocumentId::Design(n) => (1, n@),
            DocumentId::Local(n) => (2, n@),
        }
    }

    /// The id as its `Display` form prints it: the name after its prefix.
    pub fn to_string(&self) -> (r: String)
        ensures
            r@ == doc_id_text(self.parts()),
    {
        match self {
            DocumentId::Normal(n) => n.to_string(),
            DocumentId::Design(n) => {
                let mut s = String::from_str("_design/");
                proof {
                    reveal_strlit("_design/");
                }
                s.append(n.to_string().as_str());
                s
            },
            DocumentId::Local(n) => {
                let mut s = String::from_str("_local/");
                proof {
                    reveal_strlit("_local/");
                }
                s.append(n.to_string().as_str());
                s
            },
        }
    }
}

impl From<&str> for DocumentId {
    fn from(name: &str) -> (r: Self)
        ensures
            r.parts() == doc_id_parts(name@),
    {
        let v = chars_of(name);
        let design = vec!['_', 'd', 'e', 's', 'i', 'g', 'n', '/'];
        let local = vec!['_', 'l', 'o', 'c', 'a', 'l', '/'];
        proof {
            assert(design@ == design_slash());
            assert(local@ == local_slash());
        }
        if has_prefix(&v, &design) {
            DocumentId::Design(DesignDocumentName::from(string_of(&v, 8)))
        } else if has_prefix(&v, &local) {
            DocumentId::Local(DocumentName::from(string_of(&v, 7)))
        } else {
            proof {
                assert(v@.skip(0) =~= v@);
            }
            DocumentId::Normal(DocumentName::from(string_of(&v, 0)))
        }
    }
}

impl vstd::std_specs::convert::FromSpecImpl<&str> for DocumentId {
    open spec fn obeys_from_spec() -> bool {
        false
    }

    open spec fn from_spec(v: &str) -> Self {
        arbitrary()
    }
}

impl From<String> for DocumentId {
    fn from(name: String) -> (r: Self)
        ensures
            r.parts() == doc_id_parts(name@),
    {
        DocumentId::from(name.as_str())
    }
}

impl vstd::std_specs::convert::FromSpecImpl<String> for DocumentId {
    open spec fn obeys_from_spec() -> bool {
        false
    }

    open spec fn from_spec(v: String) -> Self {
        arbitrary()
    }
}

impl From<DocumentId> for String {
    fn from(doc_id: DocumentId) -> (r: String)
        ensures
            r@ == doc_id_text(doc_id.parts()),
    {
        doc_id.to_string()
    }
}

impl vstd::std_specs::convert::FromSpecImpl<DocumentId> for String {
    open spec fn obeys_from_spec() -> bool {
        false
    }

    open spec fn from_spec(v: DocumentId) -> String {
        arbitrary()
    }
}

/// Writing a document id and reading the text back gives the same kind and
/// name, for every name of a normal document that does not itself begin with
/// `_design/` or `_local/`.
pub proof fn law_doc_id_text_roundtrip(p: (int, Seq<char>))
    requires
        0 <= p.0 <= 2,
        p.0 == 0 ==> !design_slash().is_prefix_of(p.1) && !local_slash().is_prefix_of(p.1),
    ensures
        doc_id_parts(doc_id_text(p)) == p,
{
    let s = doc_id_text(p);
    if p.0 == 1 {
        assert(design_slash().is_prefix_of(s)) by {
            assert(s.take(8) =~= design_slash());
        }
        assert(s.skip(8) =~= p.1);
    } else if p.0 == 2 {
        assert(!design_slash().is_prefix_of(s)) by {
            assert(s[1] == 'l');
        }
        assert(local_slash().is_prefix_of(s)) by {
            assert(s.take(7) =~= local_slash());
        }
        assert(s.skip(7) =~= p.1);
    }
}

} // verus!
