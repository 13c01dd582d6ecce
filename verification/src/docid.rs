//! Document identifiers as enums of their three kinds.

use vstd::prelude::*;
use vstd::string::*;
use crate::text::chars_of;

verus! {

/// Document identifier.
///
/// A document id specifies a document's type and name. For example, given the
/// HTTP request `GET http://example.com:5984/db/_design/foo`, the document id
/// is `_design/foo` and specifies a design document with the name `foo`.
///
/// There are three types of documents: normal, design (`_design`), and local
/// (`_local`). Each type is an enum variant that owns the document name.
#[derive(Clone, Debug, Eq, Hash, Ord, PartialEq, PartialOrd)]
pub enum DocumentId {
    /// Normal document: neither a design document nor a local document.
    Normal(String),
    /// Design document (`_design`).
    Design(String),
    /// Local document (`_local`).
    Local(String),
}

/// `_design/`, the prefix of a design document id.
pub open spec fn design_slash() -> Seq<char> {
    seq!['_', 'd', 'e', 's', 'i', 'g', 'n', '/']
}

/// `_local/`, the prefix of a local document id.
pub open spec fn local_slash() -> Seq<char> {
    seq!['_', 'l', 'o', 'c', 'a', 'l', '/']
}

/// The kind and name that a document id string stands for: a design document
/// where it begins with `_design/`, else a local document where it begins
/// with `_local/`, else a normal document; the name is what follows the
/// prefix.
pub open spec fn doc_id_parts(s: Seq<char>) -> (int, Seq<char>) {
    if design_slash().is_prefix_of(s) {
        (1, s.skip(8))
    } else if local_slash().is_prefix_of(s) {
        (2, s.skip(7))
    } else {
        (0, s)
    }
}

impl DocumentId {
    /// The kind of the id (0 for normal, 1 for design, 2 for local) and the
    /// document name.
    pub open spec fn parts(self) -> (int, Seq<char>) {
        match self {
            DocumentId::Normal(s) => (0, s@),
            DocumentId::Design(s) => (1, s@),
            DocumentId::Local(s) => (2, s@),
        }
    }

    /// The URL path segments of the id, in order: the type prefix for design
    /// and local documents, then the document name.
    pub fn into_iter(self) -> (r: DocumentIdIterator)
        ensures
            r.items() == segments(self.parts()),
    {
        match self {
            DocumentId::Normal(s) => DocumentIdIterator::Root(s),
            DocumentId::Design(s) => DocumentIdIterator::Prefix("_design", s),
            DocumentId::Local(s) => DocumentIdIterator::Prefix("_local", s),
        }
    }
}

/// The URL path segments of a document id of the given kind and name.
pub open spec fn segments(p: (int, Seq<char>)) -> Seq<Seq<char>> {
    if p.0 == 1 {
        seq!["_design"@, p.1]
    } else if p.0 == 2 {
        seq!["_local"@, p.1]
    } else {
        seq![p.1]
    }
}

/// The URL path segments of a document id joined with slashes.
pub open spec fn join_segments(segs: Seq<Seq<char>>) -> Seq<char> {
    if segs.len() == 2 {
        segs[0] + seq!['/'] + segs[1]
    } else if segs.len() == 1 {
        segs[0]
    } else {
        Seq::empty()
    }
}

/// Joining the URL path segments of the document id that a string stands
/// for, with slashes, gives the string back.
pub proof fn law_doc_id_segments_join(s: Seq<char>)
    ensures
        join_segments(segments(doc_id_parts(s))) == s,
{
    reveal_strlit("_design");
    reveal_strlit("_local");
    let p = doc_id_parts(s);
    if design_slash().is_prefix_of(s) {
        assert(s =~= design_slash() + s.skip(8));
        assert(join_segments(segments(p)) =~= "_design"@ + seq!['/'] + s.skip(8));
    } else if local_slash().is_prefix_of(s) {
        assert(s =~= local_slash() + s.skip(7));
        assert(join_segments(segments(p)) =~= "_local"@ + seq!['/'] + s.skip(7));
    }
}

pub(crate) fn has_prefix(v: &Vec<char>, p: &Vec<char>) -> (r: bool)
    ensures
        r == p@.is_prefix_of(v@),
{
    if p.len() > v.len() {
        return false;
    }
    let mut i: usize = 0;
    while i < p.len()
        invariant
            p@.len() <= v@.len(),
            i <= p@.len(),
            forall|j: int| 0 <= j < i ==> p@[j] == v@[j],
        decreases p.len() - i,
    {
        if p[i] != v[i] {
            return false;
        }
        i = i + 1;
    }
    proof {
        assert(p@ =~= v@.take(p@.len() as int));
    }
    true
}

pub(crate) fn string_of(v: &Vec<char>, from: usize) -> (r: String)
    requires
        from <= v.len(),
    ensures
        r@ == v@.skip(from as int),
{
    let mut r = String::new();
    let mut i = from;
    while i < v.len()
        invariant
            from <= i <= v.len(),
            r@ == v@.subrange(from as int, i as int),
        decreases v.len() - i,
    {
        crate::text::push_char(&mut r, v[i]);
        proof {
            assert(v@.subrange(from as int, i + 1) =~= v@.subrange(from as int, i as int).push(
                v@[i as int],
            ));
        }
        i = i + 1;
    }
    proof {
        assert(v@.subrange(from as int, i as int) =~= v@.skip(from as int));
    }
    r
}

impl From<&str> for DocumentId {
    fn from(doc_id: &str) -> (r: Self)
        ensures
            r.parts() == doc_id_parts(doc_id@),
    {
        let v = chars_of(doc_id);
        let design = vec!['_', 'd', 'e', 's', 'i', 'g', 'n', '/'];
        let local = vec!['_', 'l', 'o', 'c', 'a', 'l', '/'];
        proof {
            assert(design@ == design_slash());
            assert(local@ == local_slash());
        }
        if has_prefix(&v, &design) {
            DocumentId::Design(string_of(&v, 8))
        } else if has_prefix(&v, &local) {
            DocumentId::Local(string_of(&v, 7))
        } else {
            proof {
                assert(v@.skip(0) =~= v@);
            }
            DocumentId::Normal(string_of(&v, 0))
        }
    }
}

impl vstd::std_specs::convert::FromSpecImpl<&str> for DocumentId {
    open spec fn obeys_from_spec() -> bool {
        false
    }

    open spec fn from_spec(v: &str) -> Self {
        arbitrary()
    }
}

impl From<String> for DocumentId {
    fn from(doc_id: String) -> (r: Self)
        ensures
            r.parts() == doc_id_parts(doc_id@),
    {
        DocumentId::from(doc_id.as_str())
    }
}

impl vstd::std_specs::convert::FromSpecImpl<String> for DocumentId {
    open spec fn obeys_from_spec() -> bool {
        false
    }

    open spec fn from_spec(v: String) -> Self {
        arbitrary()
    }
}

/// Document identifier iterator.
///
/// `DocumentIdIterator` goes through the URL path segments of a document id.
/// Normal documents have one segment, the document name, whereas design
/// documents and local documents have two: a type prefix (`_design` or
/// `_local`) and the document name.
pub enum DocumentIdIterator {
    /// The prefix and the name are still to come.
    Prefix(&'static str, String),
    /// The name is still to come.
    Root(String),
    /// Nothing is left.
    Done,
}

impl DocumentIdIterator {
    /// The segments still to come.
    pub open spec fn items(self) -> Seq<Seq<char>> {
        match self {
            DocumentIdIterator::Prefix(p, s) => seq![p@, s@],
            DocumentIdIterator::Root(s) => seq![s@],
            DocumentIdIterator::Done => Seq::empty(),
        }
    }

    /// Takes the next segment, if any is left.
    pub fn next(&mut self) -> (r: Option<String>)
        ensures
            old(self).items().len() == 0 ==> r is None && final(self).items().len() == 0,
            old(self).items().len() > 0 ==> (r matches Some(x) && x@ == old(self).items()[0])
                && final(self).items() == old(self).items().drop_first(),
    {
        let mut cur = DocumentIdIterator::Done;
        std::mem::swap(&mut cur, self);
        match cur {
            DocumentIdIterator::Prefix(p, s) => {
                *self = DocumentIdIterator::Root(s);
                proof {
                    assert(seq![p@, s@].drop_first() =~= seq![s@]);
                }
                Some(p.to_string())
            },
            DocumentIdIterator::Root(s) => {
                proof {
                    assert(seq![s@].drop_first() =~= Seq::<Seq<char>>::empty());
                }
                Some(s)
            },
            DocumentIdIterator::Done => None,
        }
    }

    /// The number of segments still to come, as a lower and an upper bound,
    /// which are equal.
    pub fn size_hint(&self) -> (r: (usize, Option<usize>))
        ensures
            r.0 == self.items().len(),
            r.1 == Some(self.items().len() as usize),
    {
        match self {
            DocumentIdIterator::Prefix(..) => (2, Some(2)),
            DocumentIdIterator::Root(..) => (1, Some(1)),
            DocumentIdIterator::Done => (0, Some(0)),
        }
    }

    /// Takes all the segments still to come, in order.
    pub fn collect(self) -> (r: Vec<String>)
        ensures
            r@.len() == self.items().len(),
            forall|i: int| 0 <= i < r@.len() ==> #[trigger] r@[i]@ == self.items()[i],
    {
        let mut it = self;
        let mut out: Vec<String> = Vec::new();
        let ghost all = self.items();
        while it.size_hint().0 > 0
            invariant
                all == self.items(),
                it.items().len() <= 2,
                out@.len() + it.items().len() == all.len(),
                forall|i: int| 0 <= i < out@.len() ==> #[trigger] out@[i]@ == all[i],
                forall|i: int| 0 <= i < it.items().len() ==> it.items()[i] == all[out@.len() + i],
            decreases it.items().len(),
        {
            let x = it.next();
            match x {
                Some(s) => {
                    out.push(s);
                },
                None => {},
            }
        }
        out
    }
}

} // verus!
