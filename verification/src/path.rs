//! Names, ids and paths that locate CouchDB resources.
//!
//! A **name** is one URL path segment and an **id** may comprise more; both
//! are percent-decoded. A **path** is a full percent-encoded URL path, as it
//! stands in the URL of an HTTP request.
//!
//! For example, the view path `/alpha/_design/bravo/_view/charlie%20delta`
//! holds the database name `alpha`, the design document id `_design/bravo` and
//! the view name `charlie delta`.

pub mod percent;

use vstd::prelude::*;
use vstd::string::*;
use crate::error::Error;
use crate::percent::{decoded_segment, encoded_segment, url_decode_segment, url_encode_segment, lemma_segment_roundtrip};
use crate::text::{chars_of, push_char};

verus! {

/// Detail of a path error: a segment between two slashes is empty.
pub const E_EMPTY_SEGMENT: &'static str = "Path has an segment";
/// Detail of a path error: the path does not begin with a slash.
pub const E_NO_LEADING_SLASH: &'static str = "Path does not begin with a slash";
/// Detail of a path error: the path ends before all its parts were found.
pub const E_TOO_FEW_SEGMENTS: &'static str = "Path has too few segments";
/// Detail of a path error: the path goes on after all its parts were found.
pub const E_TOO_MANY_SEGMENTS: &'static str = "Path has too many segments";
/// Detail of a path error: the path ends with a slash.
pub const E_TRAILING_SLASH: &'static str = "Path ends with a slash";
/// Detail of a path error: a fixed segment does not hold what it must.
pub const E_UNEXPECTED_SEGMENT: &'static str = "Path contains unexpected segment";
/// Detail of a path error: a segment is not UTF-8 once percent-decoded.
pub const E_BAD_UTF8: &'static str = "Path is invalid UTF-8 after percent-decoding";

/// The error whose detail is `what`.
pub open spec fn path_error(what: &'static str) -> Error {
    Error::BadPath { what }
}

/// `_design`, the first segment of a design document id.
pub open spec fn design_prefix() -> Seq<char> {
    seq!['_', 'd', 'e', 's', 'i', 'g', 'n']
}

/// `_local`, the first segment of a local document id.
pub open spec fn local_prefix() -> Seq<char> {
    seq!['_', 'l', 'o', 'c', 'a', 'l']
}

/// `_view`, the segment between a design document id and a view name.
pub open spec fn view_prefix() -> Seq<char> {
    seq!['_', 'v', 'i', 'e', 'w']
}

/// Position of the first slash in `s`, or its length if it has none.
pub open spec fn first_slash(s: Seq<char>) -> int
    decreases s.len(),
{
    if s.len() == 0 {
        0
    } else if s[0] == '/' {
        0
    } else {
        1 + first_slash(s.drop_first())
    }
}

/// The position that `first_slash` gives is that of the first slash.
pub proof fn lemma_first_slash(s: Seq<char>)
    ensures
        0 <= first_slash(s) <= s.len(),
        forall|j: int| 0 <= j < first_slash(s) ==> s[j] != '/',
        first_slash(s) < s.len() ==> s[first_slash(s)] == '/',
    decreases s.len(),
{
    if s.len() > 0 && s[0] != '/' {
        lemma_first_slash(s.drop_first());
        assert forall|j: int| 0 <= j < first_slash(s) implies s[j] != '/' by {
            if j > 0 {
                assert(s[j] == s.drop_first()[j - 1]);
            }
        }
    }
}

/// A position before which no slash stands and at which one stands, or the
/// end, is the first slash.
pub proof fn lemma_first_slash_at(s: Seq<char>, k: int)
    requires
        0 <= k <= s.len(),
        forall|j: int| 0 <= j < k ==> s[j] != '/',
        k < s.len() ==> s[k] == '/',
    ensures
        first_slash(s) == k,
    decreases s.len(),
{
    if s.len() > 0 && s[0] != '/' {
        assert forall|j: int| 0 <= j < k - 1 implies s.drop_first()[j] != '/' by {
            assert(s.drop_first()[j] == s[j + 1]);
        }
        lemma_first_slash_at(s.drop_first(), k - 1);
    }
}

/// A sequence without slashes has its first slash at its end.
pub proof fn lemma_first_slash_none(s: Seq<char>)
    requires
        !s.contains('/'),
    ensures
        first_slash(s) == s.len(),
{
    assert forall|j: int| 0 <= j < s.len() implies s[j] != '/' by {
        if s[j] == '/' {
            assert(s.contains('/'));
        }
    }
    lemma_first_slash_at(s, s.len() as int);
}

/// A sequence that ends before a slash has its first slash there.
pub proof fn lemma_first_slash_concat(a: Seq<char>, b: Seq<char>)
    requires
        !a.contains('/'),
        b.len() > 0,
        b[0] == '/',
    ensures
        first_slash(a + b) == a.len(),
{
    let s = a + b;
    assert forall|j: int| 0 <= j < a.len() implies s[j] != '/' by {
        assert(s[j] == a[j]);
        if a[j] == '/' {
            assert(a.contains('/'));
        }
    }
    lemma_first_slash_at(s, a.len() as int);
}

/// Finds the first slash at or after `from`.
fn find_slash(v: &Vec<char>, from: usize) -> (r: usize)
    requires
        from <= v.len(),
    ensures
        from <= r <= v.len(),
        r - from == first_slash(v@.skip(from as int)),
{
    let mut i = from;
    while i < v.len() && v[i] != '/'
        invariant
            from <= i <= v.len(),
            forall|j: int| from <= j < i ==> v@[j] != '/',
        decreases v.len() - i,
    {
        i = i + 1;
    }
    proof {
        let s = v@.skip(from as int);
        assert forall|j: int| 0 <= j < i - from implies s[j] != '/' by {
            assert(s[j] == v@[from + j]);
        }
        lemma_first_slash_at(s, i - from);
    }
    i
}

/// Whether the characters of `v` from `from` to `to` are those of `key`.
fn range_equals(v: &Vec<char>, from: usize, to: usize, key: &Vec<char>) -> (r: bool)
    requires
        from <= to <= v.len(),
    ensures
        r == (v@.subrange(from as int, to as int) == key@),
{
    if to - from != key.len() {
        proof {
            assert(v@.subrange(from as int, to as int).len() != key@.len());
        }
        return false;
    }
    let mut i: usize = 0;
    while i < key.len()
        invariant
            to - from == key.len(),
            from <= to <= v.len(),
            i <= key.len(),
            forall|j: int| 0 <= j < i ==> v@[from + j] == key@[j],
        decreases key.len() - i,
    {
        if v[from + i] != key[i] {
            proof {
                assert(v@.subrange(from as int, to as int)[i as int] != key@[i as int]);
            }
            return false;
        }
        i = i + 1;
    }
    proof {
        assert(v@.subrange(from as int, to as int) =~= key@);
    }
    true
}

/// The string holding the characters of `v` from `from` to `to`.
fn substring(v: &Vec<char>, from: usize, to: usize) -> (r: String)
    requires
        from <= to <= v.len(),
    ensures
        r@ == v@.subrange(from as int, to as int),
{
    let mut r = String::new();
    let mut i = from;
    while i < to
        invariant
            from <= i <= to <= v.len(),
            r@ == v@.subrange(from as int, i as int),
        decreases to - i,
    {
        push_char(&mut r, v[i]);
        proof {
            assert(v@.subrange(from as int, i + 1) =~= v@.subrange(from as int, i as int).push(v@[i as int]));
        }
        i = i + 1;
    }
    r
}

/// The rest of the path after the slash that begins it, if that rest is not
/// empty.
pub open spec fn after_slash(c: Seq<char>) -> Option<Seq<char>> {
    if c.len() <= 1 {
        None
    } else {
        Some(c.drop_first())
    }
}

/// Decoding one percent-encoded segment from the path `c`: the decoded
/// segment and the rest of the path.
pub open spec fn decode_segment_spec(c: Seq<char>) -> Result<(Seq<char>, Seq<char>), Error> {
    match after_slash(c) {
        None => Err(path_error(E_TOO_FEW_SEGMENTS)),
        Some(p) => {
            let k = first_slash(p);
            if k == 0 {
                Err(path_error(E_EMPTY_SEGMENT))
            } else {
                match decoded_segment(p.take(k)) {
                    None => Err(path_error(E_BAD_UTF8)),
                    Some(seg) => Ok((seg, p.skip(k))),
                }
            }
        },
    }
}

/// Decoding one segment that must equal `key`: the rest of the path.
pub open spec fn decode_exact_spec(c: Seq<char>, key: Seq<char>) -> Result<Seq<char>, Error> {
    match after_slash(c) {
        None => Err(path_error(E_TOO_FEW_SEGMENTS)),
        Some(p) => {
            let k = first_slash(p);
            if k == 0 {
                Err(path_error(E_EMPTY_SEGMENT))
            } else if p.take(k) != key {
                Err(path_error(E_UNEXPECTED_SEGMENT))
            } else {
                Ok(p.skip(k))
            }
        },
    }
}

/// Decoding the segment that follows the prefix segment ending at `k` in `p`:
/// the prefix, a slash and the decoded segment, and the rest of the path.
pub open spec fn decode_after_prefix_spec(p: Seq<char>, k: int, prefix: Seq<char>) -> Result<
    (Seq<char>, Seq<char>),
    Error,
> {
    if k + 1 >= p.len() {
        Err(path_error(E_TOO_FEW_SEGMENTS))
    } else {
        let q = p.skip(k + 1);
        let k2 = first_slash(q);
        if k2 == 0 {
            Err(path_error(E_EMPTY_SEGMENT))
        } else {
            match decoded_segment(q.take(k2)) {
                None => Err(path_error(E_BAD_UTF8)),
                Some(seg) => Ok((prefix + seq!['/'] + seg, q.skip(k2))),
            }
        }
    }
}

/// Decoding a segment that must equal `prefix`, and the segment after it.
pub open spec fn decode_with_prefix_spec(c: Seq<char>, prefix: Seq<char>) -> Result<
    (Seq<char>, Seq<char>),
    Error,
> {
    match after_slash(c) {
        None => Err(path_error(E_TOO_FEW_SEGMENTS)),
        Some(p) => {
            let k = first_slash(p);
            if k + 1 >= p.len() {
                Err(path_error(E_TOO_FEW_SEGMENTS))
            } else if p.take(k) != prefix {
                Err(path_error(E_UNEXPECTED_SEGMENT))
            } else {
                decode_after_prefix_spec(p, k, prefix)
            }
        },
    }
}

/// Decoding a segment that, if it is one of `prefixes`, is decoded together
/// with the segment after it.
pub open spec fn decode_with_optional_prefix_spec(c: Seq<char>, prefixes: Seq<Seq<char>>) -> Result<
    (Seq<char>, Seq<char>),
    Error,
> {
    match after_slash(c) {
        None => Err(path_error(E_TOO_FEW_SEGMENTS)),
        Some(p) => {
            let k = first_slash(p);
            if prefixes.contains(p.take(k)) {
                decode_after_prefix_spec(p, k, p.take(k))
            } else {
                decode_segment_spec(c)
            }
        },
    }
}

/// Checking that nothing of the path is left.
pub open spec fn end_spec(c: Seq<char>) -> Result<(), Error> {
    if c.len() == 0 {
        Ok(())
    } else if c == seq!['/'] {
        Err(path_error(E_TRAILING_SLASH))
    } else {
        Err(path_error(E_TOO_MANY_SEGMENTS))
    }
}

/// Whether a path starts with a slash.
pub open spec fn begins_with_slash(s: Seq<char>) -> bool {
    s.len() > 0 && s[0] == '/'
}

/// `PathDecoder` parses a path into its segments, one call at a time, with
/// consistent error reporting.
///
/// E.g., the string `/alpha/bravo` may be decoded into two segments, `alpha`
/// and `bravo`, and `/alpha%20bravo` into one, `alpha bravo`.
#[derive(Debug)]
pub struct PathDecoder {
    path: Vec<char>,
    pos: usize,
}

impl View for PathDecoder {
    type V = Seq<char>;

    /// The part of the path that is not yet decoded.
    closed spec fn view(&self) -> Seq<char> {
        self.path@.skip(self.pos as int)
    }
}

impl PathDecoder {
    #[verifier::type_invariant]
    spec fn inv(&self) -> bool {
        self.pos <= self.path.len()
    }

    /// Starts decoding `cursor`, which must begin with a slash.
    pub fn begin(cursor: &str) -> (r: Result<Self, Error>)
        ensures
            match r {
                Ok(d) => begins_with_slash(cursor@) && d@ == cursor@,
                Err(e) => !begins_with_slash(cursor@) && e == path_error(E_NO_LEADING_SLASH),
            },
    {
        let path = chars_of(cursor);
        if path.len() == 0 || path[0] != '/' {
            return Err(Error::bad_path(E_NO_LEADING_SLASH));
        }
        let d = PathDecoder { path, pos: 0 };
        proof {
            assert(d.path@.skip(0) =~= cursor@);
        }
        Ok(d)
    }

    /// Succeeds if nothing of the path is left.
    pub fn end(self) -> (r: Result<(), Error>)
        ensures
            r == end_spec(self@),
    {
        proof {
            use_type_invariant(&self);
        }
        let n = self.path.len();
        if self.pos == n {
            proof {
                assert(self@.len() == 0);
            }
            Ok(())
        } else if self.pos + 1 == n && self.path[self.pos] == '/' {
            proof {
                assert(self@ =~= seq!['/']);
            }
            Err(Error::bad_path(E_TRAILING_SLASH))
        } else {
            proof {
                if self@ == seq!['/'] {
                    assert(self@[0] == self.path@[self.pos as int]);
                }
            }
            Err(Error::bad_path(E_TOO_MANY_SEGMENTS))
        }
    }

    /// Finds the segment after the leading slash: its start and its end.
    fn prep(&self) -> (r: Result<(usize, usize), Error>)
        ensures
            match r {
                Ok((start, end)) => {
                    &&& after_slash(self@) matches Some(p)
                    &&& start == self.pos + 1
                    &&& start <= end <= self.path.len()
                    &&& p == self.path@.skip(start as int)
                    &&& end - start == first_slash(p)
                },
                Err(e) => after_slash(self@) is None && e == path_error(E_TOO_FEW_SEGMENTS),
            },
    {
        proof {
            use_type_invariant(self);
        }
        let n = self.path.len();
        if self.pos >= n || self.pos + 1 >= n {
            return Err(Error::bad_path(E_TOO_FEW_SEGMENTS));
        }
        let start = self.pos + 1;
        let end = find_slash(&self.path, start);
        proof {
            assert(self@.drop_first() =~= self.path@.skip(start as int));
        }
        Ok((start, end))
    }

    /// Decodes the segment that starts at `start` and ends at `end`.
    fn decode_range(&self, start: usize, end: usize) -> (r: Option<String>)
        requires
            start <= end <= self.path.len(),
        ensures
            r is Some <==> decoded_segment(self.path@.subrange(start as int, end as int)) is Some,
            r matches Some(s) ==> s@ == decoded_segment(
                self.path@.subrange(start as int, end as int),
            )->0,
    {
        let raw = substring(&self.path, start, end);
        url_decode_segment(raw.as_str())
    }

    /// Decodes one segment.
    pub fn decode_segment(&mut self) -> (r: Result<String, Error>)
        ensures
            match decode_segment_spec(old(self)@) {
                Ok((seg, rest)) => r matches Ok(s) && s@ == seg && final(self)@ == rest,
                Err(e) => r == Err::<String, Error>(e) && final(self)@ == old(self)@,
            },
    {
        proof {
            use_type_invariant(&*self);
        }
        let (start, end) = match self.prep() {
            Ok(x) => x,
            Err(e) => return Err(e),
        };
        let ghost p = self.path@.skip(start as int);
        proof {
            assert(p.take(end - start) =~= self.path@.subrange(start as int, end as int));
            assert(p.skip(end - start) =~= self.path@.skip(end as int));
        }
        if end == start {
            return Err(Error::bad_path(E_EMPTY_SEGMENT));
        }
        match self.decode_range(start, end) {
            None => Err(Error::bad_path(E_BAD_UTF8)),
            Some(seg) => {
                self.pos = end;
                Ok(seg)
            },
        }
    }

    /// Decodes one segment, which must equal `key`.
    pub fn decode_exact(&mut self, key: &str) -> (r: Result<(), Error>)
        ensures
            match decode_exact_spec(old(self)@, key@) {
                Ok(rest) => r is Ok && final(self)@ == rest,
                Err(e) => r == Err::<(), Error>(e) && final(self)@ == old(self)@,
            },
    {
        proof {
            use_type_invariant(&*self);
        }
        let (start, end) = match self.prep() {
            Ok(x) => x,
            Err(e) => return Err(e),
        };
        let ghost p = self.path@.skip(start as int);
        proof {
            assert(p.take(end - start) =~= self.path@.subrange(start as int, end as int));
            assert(p.skip(end - start) =~= self.path@.skip(end as int));
        }
        if end == start {
            return Err(Error::bad_path(E_EMPTY_SEGMENT));
        }
        let key_chars = chars_of(key);
        if !range_equals(&self.path, start, end, &key_chars) {
            return Err(Error::bad_path(E_UNEXPECTED_SEGMENT));
        }
        self.pos = end;
        Ok(())
    }

    /// Decodes the segment after a prefix segment that ends at `end`, and
    /// returns the prefix, a slash and that segment.
    fn decode_after_prefix(&mut self, start: usize, end: usize, prefix: &str) -> (r: Result<
        String,
        Error,
    >)
        requires
            start == old(self).pos + 1,
            start <= end <= old(self).path.len(),
            old(self).path@.subrange(start as int, end as int) == prefix@,
        ensures
            match decode_after_prefix_spec(
                old(self).path@.skip(start as int),
                end - start,
                prefix@,
            ) {
                Ok((seg, rest)) => r matches Ok(s) && s@ == seg && final(self)@ == rest,
                Err(e) => r == Err::<String, Error>(e) && final(self)@ == old(self)@,
            },
    {
        proof {
            use_type_invariant(&*self);
        }
        let ghost p = self.path@.skip(start as int);
        let n = self.path.len();
        if n - end <= 1 {
            return Err(Error::bad_path(E_TOO_FEW_SEGMENTS));
        }
        let start2 = end + 1;
        let end2 = find_slash(&self.path, start2);
        let ghost q = p.skip(end - start + 1);
        proof {
            assert(q =~= self.path@.skip(start2 as int));
            assert(q.take(end2 - start2) =~= self.path@.subrange(start2 as int, end2 as int));
            assert(q.skip(end2 - start2) =~= self.path@.skip(end2 as int));
        }
        if end2 == start2 {
            return Err(Error::bad_path(E_EMPTY_SEGMENT));
        }
        match self.decode_range(start2, end2) {
            None => Err(Error::bad_path(E_BAD_UTF8)),
            Some(seg) => {
                let mut out = String::new();
                out.append(prefix);
                out.append("/");
                out.append(seg.as_str());
                proof {
                    reveal_strlit("/");
                }
                self.pos = end2;
                Ok(out)
            },
        }
    }

    /// Decodes a segment that must equal `prefix`, together with the segment
    /// after it; the result is the prefix, a slash and the decoded segment.
    pub fn decode_with_prefix(&mut self, prefix: &str) -> (r: Result<String, Error>)
        ensures
            match decode_with_prefix_spec(old(self)@, prefix@) {
                Ok((seg, rest)) => r matches Ok(s) && s@ == seg && final(self)@ == rest,
                Err(e) => r == Err::<String, Error>(e) && final(self)@ == old(self)@,
            },
    {
        proof {
            use_type_invariant(&*self);
        }
        let (start, end) = match self.prep() {
            Ok(x) => x,
            Err(e) => return Err(e),
        };
        let ghost p = self.path@.skip(start as int);
        proof {
            assert(p.take(end - start) =~= self.path@.subrange(start as int, end as int));
        }
        if self.path.len() - end <= 1 {
            return Err(Error::bad_path(E_TOO_FEW_SEGMENTS));
        }
        let prefix_chars = chars_of(prefix);
        if !range_equals(&self.path, start, end, &prefix_chars) {
            return Err(Error::bad_path(E_UNEXPECTED_SEGMENT));
        }
        self.decode_after_prefix(start, end, prefix)
    }

    /// Decodes a segment; if it equals one of `prefixes`, the segment after it
    /// is decoded too and the result is the prefix, a slash and that segment.
    /// Once a prefix is found, the segment after it must be there.
    pub fn decode_with_optional_prefix(&mut self, prefixes: &[&str]) -> (r: Result<String, Error>)
        ensures
            match decode_with_optional_prefix_spec(
                old(self)@,
                prefixes@.map_values(|x: &str| x@),
            ) {
                Ok((seg, rest)) => r matches Ok(s) && s@ == seg && final(self)@ == rest,
                Err(e) => r == Err::<String, Error>(e) && final(self)@ == old(self)@,
            },
    {
        proof {
            use_type_invariant(&*self);
        }
        let ghost ps = prefixes@.map_values(|x: &str| x@);
        let (start, end) = match self.prep() {
            Ok(x) => x,
            Err(e) => return Err(e),
        };
        let ghost p = self.path@.skip(start as int);
        proof {
            assert(p.take(end - start) =~= self.path@.subrange(start as int, end as int));
        }
        let mut i: usize = 0;
        while i < prefixes.len()
            invariant
                i <= prefixes.len(),
                ps == prefixes@.map_values(|x: &str| x@),
                ps.len() == prefixes@.len(),
                start <= end <= self.path.len(),
                start == self.pos + 1,
                self@ == old(self)@,
                self.path@ == old(self).path@,
                self.pos == old(self).pos,
                p == self.path@.skip(start as int),
                after_slash(self@) == Some(p),
                end - start == first_slash(p),
                self.path@.subrange(start as int, end as int) == p.take(end - start),
                forall|j: int| 0 <= j < i ==> ps[j] != p.take(end - start),
            decreases prefixes.len() - i,
        {
            let prefix_chars = chars_of(prefixes[i]);
            proof {
                assert(ps[i as int] == prefixes@[i as int]@);
            }
            if range_equals(&self.path, start, end, &prefix_chars) {
                proof {
                    assert(ps[i as int] == p.take(end - start));
                    assert(ps.contains(p.take(end - start)));
                }
                return self.decode_after_prefix(start, end, prefixes[i]);
            }
            i = i + 1;
        }
        proof {
            if ps.contains(p.take(end - start)) {
                let j = choose|j: int| 0 <= j < ps.len() && ps[j] == p.take(end - start);
            }
        }
        self.decode_segment()
    }
}

/// One path segment after a slash, percent-encoded.
pub open spec fn seg_path(s: Seq<char>) -> Seq<char> {
    seq!['/'] + encoded_segment(s)
}

/// Appends a slash and the percent-encoding of `segment`.
fn push_segment(out: &mut String, segment: &str)
    ensures
        final(out)@ == old(out)@ + seg_path(segment@),
{
    out.append("/");
    let e = url_encode_segment(segment);
    out.append(e.as_str());
    proof {
        reveal_strlit("/");
        assert(final(out)@ =~= old(out)@ + seg_path(segment@));
    }
}

/// `DatabaseName` is a single URL path segment that specifies the name of a
/// database.
///
/// For example, given the document path `/db/_design/doc`, the database name is
/// `db`.
#[derive(Clone, Debug, Default, Eq, Hash, Ord, PartialEq, PartialOrd)]
pub struct DatabaseName(String);

impl View for DatabaseName {
    type V = Seq<char>;

    closed spec fn view(&self) -> Seq<char> {
        self.0@
    }
}

impl DatabaseName {
    /// Constructs a new database name.
    pub fn new(s: &str) -> (r: Self)
        ensures
            r@ == s@,
    {
        DatabaseName(s.to_string())
    }

    /// Converts the database name into a string.
    pub fn into_string(self) -> (r: String)
        ensures
            r@ == self@,
    {
        self.0
    }

    /// The name as its `Display` form prints it: the name itself.
    pub fn to_string(&self) -> (r: String)
        ensures
            r@ == self@,
    {
        self.0.as_str().to_string()
    }

    /// The name as one percent-encoded path segment, after a slash.
    pub fn encode_path(&self) -> (r: String)
        ensures
            r@ == seg_path(self@),
    {
        let mut out = String::new();
        push_segment(&mut out, self.0.as_str());
        out
    }

    pub(crate) fn from_string(s: String) -> (r: Self)
        ensures
            r@ == s@,
    {
        DatabaseName(s)
    }
}

impl AsRef<str> for DatabaseName {
    fn as_ref(&self) -> (r: &str)
        ensures
            r@ == self@,
    {
        self.0.as_str()
    }
}

impl From<DatabaseName> for String {
    fn from(x: DatabaseName) -> (r: String)
        ensures
            r@ == x@,
    {
        x.0
    }
}

impl vstd::std_specs::convert::FromSpecImpl<DatabaseName> for String {
    open spec fn obeys_from_spec() -> bool {
        false
    }

    open spec fn from_spec(v: DatabaseName) -> String {
        arbitrary()
    }
}

impl From<&str> for DatabaseName {
    fn from(s: &str) -> (r: Self)
        ensures
            r@ == s@,
    {
        DatabaseName(s.to_string())
    }
}

impl vstd::std_specs::convert::FromSpecImpl<&str> for DatabaseName {
    open spec fn obeys_from_spec() -> bool {
        false
    }

    open spec fn from_spec(v: &str) -> Self {
        arbitrary()
    }
}

impl From<String> for DatabaseName {
    fn from(s: String) -> (r: Self)
        ensures
            r@ == s@,
    {
        DatabaseName(s)
    }
}

impl vstd::std_specs::convert::FromSpecImpl<String> for DatabaseName {
    open spec fn obeys_from_spec() -> bool {
        false
    }

    open spec fn from_spec(v: String) -> Self {
        arbitrary()
    }
}

/// `NormalDocumentName` is a single URL path segment that specifies the name
/// of a document that is neither a design document nor a local document.
///
/// For example, given the document path `/db/doc`, the document name is `doc`.
#[derive(Clone, Debug, Default, Eq, Hash, Ord, PartialEq, PartialOrd)]
pub struct NormalDocumentName(String);

impl View for NormalDocumentName {
    type V = Seq<char>;

    closed spec fn view(&self) -> Seq<char> {
        self.0@
    }
}

impl NormalDocumentName {
    /// Constructs a new normal document name.
    pub fn new(s: &str) -> (r: Self)
        ensures
            r@ == s@,
    {
        NormalDocumentName(s.to_string())
    }

    /// Converts the normal document name into a string.
    pub fn into_string(self) -> (r: String)
        ensures
            r@ == self@,
    {
        self.0
    }

    /// The name as its `Display` form prints it: the name itself.
    pub fn to_string(&self) -> (r: String)
        ensures
            r@ == self@,
    {
        self.0.as_str().to_string()
    }

    /// The name as one percent-encoded path segment, after a slash.
    pub fn encode_path(&self) -> (r: String)
        ensures
            r@ == seg_path(self@),
    {
        let mut out = String::new();
        push_segment(&mut out, self.0.as_str());
        out
    }

    pub(crate) fn from_string(s: String) -> (r: Self)
        ensures
            r@ == s@,
    {
        NormalDocumentName(s)
    }
}

impl AsRef<str> for NormalDocumentName {
    fn as_ref(&self) -> (r: &str)
        ensures
            r@ == self@,
    {
        self.0.as_str()
    }
}

impl From<NormalDocumentName> for String {
    fn from(x: NormalDocumentName) -> (r: String)
        ensures
            r@ == x@,
    {
        x.0
    }
}

impl vstd::std_specs::convert::FromSpecImpl<NormalDocumentName> for String {
    open spec fn obeys_from_spec() -> bool {
        false
    }

    open spec fn from_spec(v: NormalDocumentName) -> String {
        arbitrary()
    }
}

impl From<&str> for NormalDocumentName {
    fn from(s: &str) -> (r: Self)
        ensures
            r@ == s@,
    {
        NormalDocumentName(s.to_string())
    }
}

impl vstd::std_specs::convert::FromSpecImpl<&str> for NormalDocumentName {
    open spec fn obeys_from_spec() -> bool {
        false
    }

    open spec fn from_spec(v: &str) -> Self {
        arbitrary()
    }
}

impl From<String> for NormalDocumentName {
    fn from(s: String) -> (r: Self)
        ensures
            r@ == s@,
    {
        NormalDocumentName(s)
    }
}

impl vstd::std_specs::convert::FromSpecImpl<String> for NormalDocumentName {
    open spec fn obeys_from_spec() -> bool {
        false
    }

    open spec fn from_spec(v: String) -> Self {
        arbitrary()
    }
}

/// `DesignDocumentName` is a single URL path segment that specifies the name
/// of a design document.
///
/// For example, given the design document path `/db/_design/doc`, the document
/// name is `doc`.
#[derive(Clone, Debug, Default, Eq, Hash, Ord, PartialEq, PartialOrd)]
pub struct DesignDocumentName(String);

impl View for DesignDocumentName {
    type V = Seq<char>;

    closed spec fn view(&self) -> Seq<char> {
        self.0@
    }
}

impl DesignDocumentName {
    /// Constructs a new design document name.
    pub fn new(s: &str) -> (r: Self)
        ensures
            r@ == s@,
    {
        DesignDocumentName(s.to_string())
    }

    /// Converts the design document name into a string.
    pub fn into_string(self) -> (r: String)
        ensures
            r@ == self@,
    {
        self.0
    }

    /// The name as its `Display` form prints it: the name itself.
    pub fn to_string(&self) -> (r: String)
        ensures
            r@ == self@,
    {
        self.0.as_str().to_string()
    }

    /// The name as one percent-encoded path segment, after a slash.
    pub fn encode_path(&self) -> (r: String)
        ensures
            r@ == seg_path(self@),
    {
        let mut out = String::new();
        push_segment(&mut out, self.0.as_str());
        out
    }

    pub(crate) fn from_string(s: String) -> (r: Self)
        ensures
            r@ == s@,
    {
        DesignDocumentName(s)
    }
}

impl AsRef<str> for DesignDocumentName {
    fn as_ref(&self) -> (r: &str)
        ensures
            r@ == self@,
    {
        self.0.as_str()
    }
}

impl From<DesignDocumentName> for String {
    fn from(x: DesignDocumentName) -> (r: String)
        ensures
            r@ == x@,
    {
        x.0
    }
}

impl vstd::std_specs::convert::FromSpecImpl<DesignDocumentName> for String {
    open spec fn obeys_from_spec() -> bool {
        false
    }

    open spec fn from_spec(v: DesignDocumentName) -> String {
        arbitrary()
    }
}

impl From<&str> for DesignDocumentName {
    fn from(s: &str) -> (r: Self)
        ensures
            r@ == s@,
    {
        DesignDocumentName(s.to_string())
    }
}

impl vstd::std_specs::convert::FromSpecImpl<&str> for DesignDocumentName {
    open spec fn obeys_from_spec() -> bool {
        false
    }

    open spec fn from_spec(v: &str) -> Self {
        arbitrary()
    }
}

impl From<String> for DesignDocumentName {
    fn from(s: String) -> (r: Self)
        ensures
            r@ == s@,
    {
        DesignDocumentName(s)
    }
}

impl vstd::std_specs::convert::FromSpecImpl<String> for DesignDocumentName {
    open spec fn obeys_from_spec() -> bool {
        false
    }

    open spec fn from_spec(v: String) -> Self {
        arbitrary()
    }
}

/// `LocalDocumentName` is a single URL path segment that specifies the name
/// of a local document.
///
/// For example, given the local document path `/db/_local/doc`, the document
/// name is `doc`.
#[derive(Clone, Debug, Default, Eq, Hash, Ord, PartialEq, PartialOrd)]
pub struct LocalDocumentName(String);

impl View for LocalDocumentName {
    type V = Seq<char>;

    closed spec fn view(&self) -> Seq<char> {
        self.0@
    }
}

impl LocalDocumentName {
    /// Constructs a new local document name.
    pub fn new(s: &str) -> (r: Self)
        ensures
            r@ == s@,
    {
        LocalDocumentName(s.to_string())
    }

    /// Converts the local document name into a string.
    pub fn into_string(self) -> (r: String)
        ensures
            r@ == self@,
    {
        self.0
    }

    /// The name as its `Display` form prints it: the name itself.
    pub fn to_string(&self) -> (r: String)
        ensures
            r@ == self@,
    {
        self.0.as_str().to_string()
    }

    /// The name as one percent-encoded path segment, after a slash.
    pub fn encode_path(&self) -> (r: String)
        ensures
            r@ == seg_path(self@),
    {
        let mut out = String::new();
        push_segment(&mut out, self.0.as_str());
        out
    }

    pub(crate) fn from_string(s: String) -> (r: Self)
        ensures
            r@ == s@,
    {
        LocalDocumentName(s)
    }
}

impl AsRef<str> for LocalDocumentName {
    fn as_ref(&self) -> (r: &str)
        ensures
            r@ == self@,
    {
        self.0.as_str()
    }
}

impl From<LocalDocumentName> for String {
    fn from(x: LocalDocumentName) -> (r: String)
        ensures
            r@ == x@,
    {
        x.0
    }
}

impl vstd::std_specs::convert::FromSpecImpl<LocalDocumentName> for String {
    open spec fn obeys_from_spec() -> bool {
        false
    }

    open spec fn from_spec(v: LocalDocumentName) -> String {
        arbitrary()
    }
}

impl From<&str> for LocalDocumentName {
    fn from(s: &str) -> (r: Self)
        ensures
            r@ == s@,
    {
        LocalDocumentName(s.to_string())
    }
}

impl vstd::std_specs::convert::FromSpecImpl<&str> for LocalDocumentName {
    open spec fn obeys_from_spec() -> bool {
        false
    }

    open spec fn from_spec(v: &str) -> Self {
        arbitrary()
    }
}

impl From<String> for LocalDocumentName {
    fn from(s: String) -> (r: Self)
        ensures
            r@ == s@,
    {
        LocalDocumentName(s)
    }
}

impl vstd::std_specs::convert::FromSpecImpl<String> for LocalDocumentName {
    open spec fn obeys_from_spec() -> bool {
        false
    }

    open spec fn from_spec(v: String) -> Self {
        arbitrary()
    }
}

/// `AttachmentName` is a single URL path segment that specifies the name of
/// an attachment.
///
/// For example, given the attachment path `/db/doc/att`, the attachment name is
/// `att`.
#[derive(Clone, Debug, Default, Eq, Hash, Ord, PartialEq, PartialOrd)]
pub struct AttachmentName(String);

impl View for AttachmentName {
    type V = Seq<char>;

    closed spec fn view(&self) -> Seq<char> {
        self.0@
    }
}

impl AttachmentName {
    /// Constructs a new attachment name.
    pub fn new(s: &str) -> (r: Self)
        ensures
            r@ == s@,
    {
        AttachmentName(s.to_string())
    }

    /// Converts the attachment name into a string.
    pub fn into_string(self) -> (r: String)
        ensures
            r@ == self@,
    {
        self.0
    }

    /// The name as its `Display` form prints it: the name itself.
    pub fn to_string(&self) -> (r: String)
        ensures
            r@ == self@,
    {
        self.0.as_str().to_string()
    }

    /// The name as one percent-encoded path segment, after a slash.
    pub fn encode_path(&self) -> (r: String)
        ensures
            r@ == seg_path(self@),
    {
        let mut out = String::new();
        push_segment(&mut out, self.0.as_str());
        out
    }

    pub(crate) fn from_string(s: String) -> (r: Self)
        ensures
            r@ == s@,
    {
        AttachmentName(s)
    }
}

impl AsRef<str> for AttachmentName {
    fn as_ref(&self) -> (r: &str)
        ensures
            r@ == self@,
    {
        self.0.as_str()
    }
}

impl From<AttachmentName> for String {
    fn from(x: AttachmentName) -> (r: String)
        ensures
            r@ == x@,
    {
        x.0
    }
}

impl vstd::std_specs::convert::FromSpecImpl<AttachmentName> for String {
    open spec fn obeys_from_spec() -> bool {
        false
    }

    open spec fn from_spec(v: AttachmentName) -> String {
        arbitrary()
    }
}

impl From<&str> for AttachmentName {
    fn from(s: &str) -> (r: Self)
        ensures
            r@ == s@,
    {
        AttachmentName(s.to_string())
    }
}

impl vstd::std_specs::convert::FromSpecImpl<&str> for AttachmentName {
    open spec fn obeys_from_spec() -> bool {
        false
    }

    open spec fn from_spec(v: &str) -> Self {
        arbitrary()
    }
}

impl From<String> for AttachmentName {
    fn from(s: String) -> (r: Self)
        ensures
            r@ == s@,
    {
        AttachmentName(s)
    }
}

impl vstd::std_specs::convert::FromSpecImpl<String> for AttachmentName {
    open spec fn obeys_from_spec() -> bool {
        false
    }

    open spec fn from_spec(v: String) -> Self {
        arbitrary()
    }
}

/// `ViewName` is a single URL path segment that specifies the name of a view.
///
/// For example, given the view path `/db/_design/doc/_view/view`, the view name
/// is `view`.
#[derive(Clone, Debug, Default, Eq, Hash, Ord, PartialEq, PartialOrd)]
pub struct ViewName(String);

impl View for ViewName {
    type V = Seq<char>;

    closed spec fn view(&self) -> Seq<char> {
        self.0@
    }
}

impl ViewName {
    /// Constructs a new view name.
    pub fn new(s: &str) -> (r: Self)
        ensures
            r@ == s@,
    {
        ViewName(s.to_string())
    }

    /// Converts the view name into a string.
    pub fn into_string(self) -> (r: String)
        ensures
            r@ == self@,
    {
        self.0
    }

    /// The name as its `Display` form prints it: the name itself.
    pub fn to_string(&self) -> (r: String)
        ensures
            r@ == self@,
    {
        self.0.as_str().to_string()
    }

    /// The name as one percent-encoded path segment, after a slash.
    pub fn encode_path(&self) -> (r: String)
        ensures
            r@ == seg_path(self@),
    {
        let mut out = String::new();
        push_segment(&mut out, self.0.as_str());
        out
    }

    pub(crate) fn from_string(s: String) -> (r: Self)
        ensures
            r@ == s@,
    {
        ViewName(s)
    }
}

impl AsRef<str> for ViewName {
    fn as_ref(&self) -> (r: &str)
        ensures
            r@ == self@,
    {
        self.0.as_str()
    }
}

impl From<ViewName> for String {
    fn from(x: ViewName) -> (r: String)
        ensures
            r@ == x@,
    {
        x.0
    }
}

impl vstd::std_specs::convert::FromSpecImpl<ViewName> for String {
    open spec fn obeys_from_spec() -> bool {
        false
    }

    open spec fn from_spec(v: ViewName) -> String {
        arbitrary()
    }
}

impl From<&str> for ViewName {
    fn from(s: &str) -> (r: Self)
        ensures
            r@ == s@,
    {
        ViewName(s.to_string())
    }
}

impl vstd::std_specs::convert::FromSpecImpl<&str> for ViewName {
    open spec fn obeys_from_spec() -> bool {
        false
    }

    open spec fn from_spec(v: &str) -> Self {
        arbitrary()
    }
}

impl From<String> for ViewName {
    fn from(s: String) -> (r: Self)
        ensures
            r@ == s@,
    {
        ViewName(s)
    }
}

impl vstd::std_specs::convert::FromSpecImpl<String> for ViewName {
    open spec fn obeys_from_spec() -> bool {
        false
    }

    open spec fn from_spec(v: String) -> Self {
        arbitrary()
    }
}

/// Whether `s` begins with the segment `prefix` followed by a slash.
pub open spec fn has_given_prefix(s: Seq<char>, prefix: Seq<char>) -> bool {
    &&& prefix.len() < s.len()
    &&& s.take(prefix.len() as int) == prefix
    &&& s[prefix.len() as int] == '/'
}

/// The type prefix of a document id (`_design` or `_local`), if it has one,
/// and the document name that follows it.
pub open spec fn split_prefix_spec(s: Seq<char>) -> (Option<Seq<char>>, Seq<char>) {
    if has_given_prefix(s, design_prefix()) {
        (Some(design_prefix()), s.skip(8))
    } else if has_given_prefix(s, local_prefix()) {
        (Some(local_prefix()), s.skip(7))
    } else {
        (None, s)
    }
}

/// The path segments of a document id, percent-encoded: the type prefix, if
/// any, and the document name.
pub open spec fn encode_doc_id(s: Seq<char>) -> Seq<char> {
    match split_prefix_spec(s) {
        (Some(prefix), base) => seg_path(prefix) + seg_path(base),
        (None, base) => seg_path(base),
    }
}

/// Whether a string is a design document id with a non-empty name.
pub open spec fn is_design_document_id(s: Seq<char>) -> bool {
    s.len() > design_prefix().len() + 1 && has_given_prefix(s, design_prefix())
}

fn design_prefix_str() -> (r: &'static str)
    ensures
        r@ == design_prefix(),
{
    proof {
        reveal_strlit("_design");
    }
    "_design"
}

fn local_prefix_str() -> (r: &'static str)
    ensures
        r@ == local_prefix(),
{
    proof {
        reveal_strlit("_local");
    }
    "_local"
}

fn view_prefix_str() -> (r: &'static str)
    ensures
        r@ == view_prefix(),
{
    proof {
        reveal_strlit("_view");
    }
    "_view"
}

/// Whether `s` begins with the segment `prefix` followed by a slash.
fn has_given_prefix_exec(s: &Vec<char>, prefix: &str) -> (r: bool)
    ensures
        r == has_given_prefix(s@, prefix@),
{
    let p = chars_of(prefix);
    if p.len() >= s.len() {
        return false;
    }
    let eq = range_equals(s, 0, p.len(), &p);
    proof {
        assert(s@.subrange(0, p.len() as int) == s@.take(p.len() as int));
    }
    eq && s[p.len()] == '/'
}

/// The string `prefix`, a slash and `name`.
fn join_with_slash(prefix: &str, name: &str) -> (r: String)
    ensures
        r@ == prefix@ + seq!['/'] + name@,
{
    let mut out = String::new();
    out.append(prefix);
    out.append("/");
    out.append(name);
    proof {
        reveal_strlit("/");
    }
    out
}

/// The type of a document, as its id's prefix gives it.
#[derive(PartialEq, Eq, Structural)]
enum DocPrefix {
    Normal,
    Design,
    Local,
}

impl DocPrefix {
    spec fn spec_prefix(self) -> Seq<char> {
        match self {
            DocPrefix::Design => design_prefix(),
            DocPrefix::Local => local_prefix(),
            DocPrefix::Normal => Seq::empty(),
        }
    }
}

/// `DocumentId` comprises one or more URL path segments that, together,
/// identify a document.
///
/// For example, given the document path `/db/_design/doc`, the document id is
/// `_design/doc`.
#[derive(Clone, Debug, Default, Eq, Hash, Ord, PartialEq, PartialOrd)]
pub struct DocumentId(String);

impl View for DocumentId {
    type V = Seq<char>;

    closed spec fn view(&self) -> Seq<char> {
        self.0@
    }
}

impl DocumentId {
    /// Constructs a new document id.
    pub fn new(s: &str) -> (r: Self)
        ensures
            r@ == s@,
    {
        DocumentId(s.to_string())
    }

    /// Converts the document id into a string.
    pub fn into_string(self) -> (r: String)
        ensures
            r@ == self@,
    {
        self.0
    }

    /// The id as its `Display` form prints it: the id itself.
    pub fn to_string(&self) -> (r: String)
        ensures
            r@ == self@,
    {
        self.0.as_str().to_string()
    }

    /// Splits off the type prefix, if any, from the document name.
    fn split_prefix(&self) -> (r: (DocPrefix, String))
        ensures
            match split_prefix_spec(self@) {
                (Some(prefix), base) => r.0 != DocPrefix::Normal && r.0.spec_prefix() == prefix
                    && r.1@ == base,
                (None, base) => r.0 == DocPrefix::Normal && r.1@ == base,
            },
    {
        let v = chars_of(self.0.as_str());
        if has_given_prefix_exec(&v, design_prefix_str()) {
            return (DocPrefix::Design, substring(&v, 8, v.len()));
        }
        if has_given_prefix_exec(&v, local_prefix_str()) {
            return (DocPrefix::Local, substring(&v, 7, v.len()));
        }
        proof {
            assert(v@.subrange(0, v@.len() as int) =~= v@);
        }
        (DocPrefix::Normal, substring(&v, 0, v.len()))
    }

    /// Returns whether the document id specifies a normal document—i.e.,
    /// neither a design document nor a local document.
    pub fn is_normal(&self) -> (r: bool)
        ensures
            r == (split_prefix_spec(self@).0 is None),
    {
        let (prefix, _) = self.split_prefix();
        match prefix {
            DocPrefix::Normal => true,
            _ => false,
        }
    }

    /// Tries to convert the document id into a normal document name.
    ///
    /// The conversion succeeds if and only if the document id begins with
    /// neither the `_design/` prefix nor the `_local/` prefix.
    pub fn into_normal_document_name(self) -> (r: Result<NormalDocumentName, DocumentId>)
        ensures
            split_prefix_spec(self@).0 is None ==> (r matches Ok(n) && n@ == self@),
            split_prefix_spec(self@).0 is Some ==> r == Err::<NormalDocumentName, DocumentId>(self),
    {
        let (prefix, base) = self.split_prefix();
        match prefix {
            DocPrefix::Normal => Ok(NormalDocumentName::from_string(base)),
            _ => Err(self),
        }
    }

    /// Returns whether the document id specifies a design document—i.e., the
    /// document id begins with the `_design/` prefix.
    pub fn is_design(&self) -> (r: bool)
        ensures
            r == has_given_prefix(self@, design_prefix()),
    {
        let v = chars_of(self.0.as_str());
        has_given_prefix_exec(&v, design_prefix_str())
    }

    /// Tries to convert the document id into a design document name.
    pub fn into_design_document_name(self) -> (r: Result<DesignDocumentName, DocumentId>)
        ensures
            has_given_prefix(self@, design_prefix()) ==> (r matches Ok(n) && n@ == self@.skip(8)),
            !has_given_prefix(self@, design_prefix()) ==> r == Err::<DesignDocumentName, DocumentId>(self),
    {
        let (prefix, base) = self.split_prefix();
        match prefix {
            DocPrefix::Design => Ok(DesignDocumentName::from_string(base)),
            _ => Err(self),
        }
    }

    /// Tries to convert the document id into a design document id.
    ///
    /// The conversion succeeds if and only if the document id begins with the
    /// `_design/` prefix.
    pub fn into_design_document_id(self) -> (r: Result<DesignDocumentId, DocumentId>)
        ensures
            has_given_prefix(self@, design_prefix()) ==> (r matches Ok(d) && d@ == self@),
            !has_given_prefix(self@, design_prefix()) ==> r == Err::<DesignDocumentId, DocumentId>(self),
    {
        if self.is_design() {
            Ok(DesignDocumentId(self))
        } else {
            Err(self)
        }
    }

    /// Returns whether the document id specifies a local document—i.e., the
    /// document id begins with the `_local/` prefix.
    pub fn is_local(&self) -> (r: bool)
        ensures
            r == has_given_prefix(self@, local_prefix()),
    {
        let v = chars_of(self.0.as_str());
        has_given_prefix_exec(&v, local_prefix_str())
    }

    /// Tries to convert the document id into a local document name.
    ///
    /// The conversion succeeds if and only if the document id begins with the
    /// `_local/` prefix.
    pub fn into_local_document_name(self) -> (r: Result<LocalDocumentName, DocumentId>)
        ensures
            split_prefix_spec(self@).0 == Some(local_prefix()) ==> (r matches Ok(n) && n@ == self@.skip(7)),
            split_prefix_spec(self@).0 != Some(local_prefix()) ==> r == Err::<LocalDocumentName, DocumentId>(self),
    {
        let (prefix, base) = self.split_prefix();
        match prefix {
            DocPrefix::Local => Ok(LocalDocumentName::from_string(base)),
            _ => Err(self),
        }
    }

    /// The id as percent-encoded path segments, each after a slash.
    pub fn encode_path(&self) -> (r: String)
        ensures
            r@ == encode_doc_id(self@),
    {
        let (prefix, base) = self.split_prefix();
        let mut out = String::new();
        match prefix {
            DocPrefix::Design => push_segment(&mut out, design_prefix_str()),
            DocPrefix::Local => push_segment(&mut out, local_prefix_str()),
            DocPrefix::Normal => {},
        }
        push_segment(&mut out, base.as_str());
        out
    }
}

impl AsRef<str> for DocumentId {
    fn as_ref(&self) -> (r: &str)
        ensures
            r@ == self@,
    {
        self.0.as_str()
    }
}

impl From<DocumentId> for String {
    fn from(x: DocumentId) -> (r: String)
        ensures
            r@ == x@,
    {
        x.0
    }
}

impl vstd::std_specs::convert::FromSpecImpl<DocumentId> for String {
    open spec fn obeys_from_spec() -> bool {
        false
    }

    open spec fn from_spec(v: DocumentId) -> String {
        arbitrary()
    }
}

impl From<&str> for DocumentId {
    fn from(s: &str) -> (r: Self)
        ensures
            r@ == s@,
    {
        DocumentId(s.to_string())
    }
}

impl vstd::std_specs::convert::FromSpecImpl<&str> for DocumentId {
    open spec fn obeys_from_spec() -> bool {
        false
    }

    open spec fn from_spec(v: &str) -> Self {
        arbitrary()
    }
}

impl From<String> for DocumentId {
    fn from(s: String) -> (r: Self)
        ensures
            r@ == s@,
    {
        DocumentId(s)
    }
}

impl vstd::std_specs::convert::FromSpecImpl<String> for DocumentId {
    open spec fn obeys_from_spec() -> bool {
        false
    }

    open spec fn from_spec(v: String) -> Self {
        arbitrary()
    }
}

impl From<DesignDocumentId> for DocumentId {
    fn from(x: DesignDocumentId) -> (r: Self)
        ensures
            r@ == x@,
    {
        x.into_document_id()
    }
}

impl vstd::std_specs::convert::FromSpecImpl<DesignDocumentId> for DocumentId {
    open spec fn obeys_from_spec() -> bool {
        false
    }

    open spec fn from_spec(v: DesignDocumentId) -> Self {
        arbitrary()
    }
}

impl From<NormalDocumentName> for DocumentId {
    fn from(x: NormalDocumentName) -> (r: Self)
        ensures
            r@ == x@,
    {
        DocumentId(x.into_string())
    }
}

impl vstd::std_specs::convert::FromSpecImpl<NormalDocumentName> for DocumentId {
    open spec fn obeys_from_spec() -> bool {
        false
    }

    open spec fn from_spec(v: NormalDocumentName) -> Self {
        arbitrary()
    }
}

impl From<DesignDocumentName> for DocumentId {
    fn from(x: DesignDocumentName) -> (r: Self)
        ensures
            r@ == design_prefix() + seq!['/'] + x@,
    {
        let s = join_with_slash(design_prefix_str(), x.into_string().as_str());
        DocumentId(s)
    }
}

impl vstd::std_specs::convert::FromSpecImpl<DesignDocumentName> for DocumentId {
    open spec fn obeys_from_spec() -> bool {
        false
    }

    open spec fn from_spec(v: DesignDocumentName) -> Self {
        arbitrary()
    }
}

impl From<LocalDocumentName> for DocumentId {
    fn from(x: LocalDocumentName) -> (r: Self)
        ensures
            r@ == local_prefix() + seq!['/'] + x@,
    {
        let s = join_with_slash(local_prefix_str(), x.into_string().as_str());
        DocumentId(s)
    }
}

impl vstd::std_specs::convert::FromSpecImpl<LocalDocumentName> for DocumentId {
    open spec fn obeys_from_spec() -> bool {
        false
    }

    open spec fn from_spec(v: LocalDocumentName) -> Self {
        arbitrary()
    }
}

/// `DesignDocumentId` comprises URL path segments that, together, identify a
/// design document.
///
/// For example, given the document path `/db/_design/doc`, the design document
/// id is `_design/doc`. All design document ids are document ids, but not all
/// document ids are design document ids.
#[derive(Debug, Eq, Hash, Ord, PartialEq, PartialOrd)]
pub struct DesignDocumentId(DocumentId);

impl View for DesignDocumentId {
    type V = Seq<char>;

    closed spec fn view(&self) -> Seq<char> {
        self.0@
    }
}

impl DesignDocumentId {
    #[verifier::type_invariant]
    spec fn inv(&self) -> bool {
        has_given_prefix(self.0@, design_prefix())
    }

    /// Tries to construct a design document id from a string, which must be
    /// `_design/` followed by a non-empty name.
    pub fn parse(s: &str) -> (r: Result<Self, Error>)
        ensures
            is_design_document_id(s@) ==> (r matches Ok(d) && d@ == s@),
            !is_design_document_id(s@) ==> r matches Err(Error::BadDesignDocumentId),
    {
        let v = chars_of(s);
        if v.len() <= 8 || !has_given_prefix_exec(&v, design_prefix_str()) {
            return Err(Error::BadDesignDocumentId);
        }
        Ok(DesignDocumentId(DocumentId(s.to_string())))
    }

    /// Converts the design document id into a `String`.
    pub fn into_string(self) -> (r: String)
        ensures
            r@ == self@,
    {
        self.into_document_id().into_string()
    }

    /// The id as its `Display` form prints it: the id itself.
    pub fn to_string(&self) -> (r: String)
        ensures
            r@ == self@,
    {
        self.0.to_string()
    }

    /// Converts the design document id into a general document id.
    pub fn into_document_id(self) -> (r: DocumentId)
        ensures
            r@ == self@,
    {
        let DesignDocumentId(d) = self;
        d
    }

    /// Converts the design document id into a design document name.
    pub fn into_design_document_name(self) -> (r: DesignDocumentName)
        ensures
            r@ == self@.skip(8),
    {
        proof {
            use_type_invariant(&self);
        }
        match self.into_document_id().into_design_document_name() {
            Ok(n) => n,
            Err(_) => {
                proof {
                    assert(false);
                }
                DesignDocumentName::new("")
            },
        }
    }

    /// The id as percent-encoded path segments, each after a slash.
    pub fn encode_path(&self) -> (r: String)
        ensures
            r@ == encode_doc_id(self@),
    {
        self.0.encode_path()
    }

    /// Constructs a design document id from a string known to begin with
    /// `_design/`.
    fn from_prefixed(s: String) -> (r: Self)
        requires
            has_given_prefix(s@, design_prefix()),
        ensures
            r@ == s@,
    {
        DesignDocumentId(DocumentId(s))
    }

    /// Borrows the design document id as a general document id.
    pub fn as_document_id(&self) -> (r: &DocumentId)
        ensures
            r@ == self@,
    {
        &self.0
    }
}

impl Clone for DesignDocumentId {
    fn clone(&self) -> (r: Self)
        ensures
            r@ == self@,
    {
        proof {
            use_type_invariant(self);
        }
        DesignDocumentId(DocumentId(self.0.0.as_str().to_string()))
    }
}

impl Default for DesignDocumentId {
    fn default() -> (r: Self)
        ensures
            r@ == design_prefix() + seq!['/'],
    {
        let s = join_with_slash(design_prefix_str(), "");
        proof {
            reveal_strlit("");
            assert(s@.take(7) =~= design_prefix());
        }
        DesignDocumentId(DocumentId(s))
    }
}

impl AsRef<str> for DesignDocumentId {
    fn as_ref(&self) -> (r: &str)
        ensures
            r@ == self@,
    {
        self.0.0.as_str()
    }
}

impl From<DesignDocumentId> for String {
    fn from(x: DesignDocumentId) -> (r: String)
        ensures
            r@ == x@,
    {
        x.into_string()
    }
}

impl vstd::std_specs::convert::FromSpecImpl<DesignDocumentId> for String {
    open spec fn obeys_from_spec() -> bool {
        false
    }

    open spec fn from_spec(v: DesignDocumentId) -> String {
        arbitrary()
    }
}

impl From<DesignDocumentName> for DesignDocumentId {
    fn from(x: DesignDocumentName) -> (r: Self)
        ensures
            r@ == design_prefix() + seq!['/'] + x@,
    {
        let s = join_with_slash(design_prefix_str(), x.into_string().as_str());
        proof {
            assert(s@.take(7) =~= design_prefix());
        }
        DesignDocumentId(DocumentId(s))
    }
}

impl vstd::std_specs::convert::FromSpecImpl<DesignDocumentName> for DesignDocumentId {
    open spec fn obeys_from_spec() -> bool {
        false
    }

    open spec fn from_spec(v: DesignDocumentName) -> Self {
        arbitrary()
    }
}

/// `ViewId` combines a design document name and a view name, as in the view
/// filter `doc/view` of `GET /{db}/_changes?filter=_view&view=doc/view`.
///
/// The names are not percent-encoded.
#[derive(Clone, Debug, Default, Eq, Hash, Ord, PartialEq, PartialOrd)]
pub struct ViewId(String);

impl View for ViewId {
    type V = Seq<char>;

    closed spec fn view(&self) -> Seq<char> {
        self.0@
    }
}

impl ViewId {
    /// Constructs a view id from a design document name and a view name.
    pub fn new(ddoc_name: DesignDocumentName, view_name: ViewName) -> (r: Self)
        ensures
            r@ == ddoc_name@ + seq!['/'] + view_name@,
    {
        ViewId(join_with_slash(ddoc_name.into_string().as_str(), view_name.into_string().as_str()))
    }

    /// Converts the view id into a `String`.
    pub fn into_string(self) -> (r: String)
        ensures
            r@ == self@,
    {
        self.0
    }

    /// The id as its `Display` form prints it: the id itself.
    pub fn to_string(&self) -> (r: String)
        ensures
            r@ == self@,
    {
        self.0.as_str().to_string()
    }
}

impl AsRef<str> for ViewId {
    fn as_ref(&self) -> (r: &str)
        ensures
            r@ == self@,
    {
        self.0.as_str()
    }
}

impl From<ViewId> for String {
    fn from(x: ViewId) -> (r: String)
        ensures
            r@ == x@,
    {
        x.0
    }
}

impl vstd::std_specs::convert::FromSpecImpl<ViewId> for String {
    open spec fn obeys_from_spec() -> bool {
        false
    }

    open spec fn from_spec(v: ViewId) -> String {
        arbitrary()
    }
}

/// `_design` and `_local`, the prefixes a document id may begin with.
pub open spec fn document_prefixes() -> Seq<Seq<char>> {
    seq![design_prefix(), local_prefix()]
}

/// Parsing a database path: its database name.
pub open spec fn parse_database_path_spec(s: Seq<char>) -> Result<Seq<char>, Error> {
    if !begins_with_slash(s) {
        Err(path_error(E_NO_LEADING_SLASH))
    } else {
        match decode_segment_spec(s) {
            Err(e) => Err(e),
            Ok((db, c1)) => match end_spec(c1) {
                Err(e) => Err(e),
                Ok(_) => Ok(db),
            },
        }
    }
}

/// Parsing a document path: its database name and document id.
pub open spec fn parse_document_path_spec(s: Seq<char>) -> Result<(Seq<char>, Seq<char>), Error> {
    if !begins_with_slash(s) {
        Err(path_error(E_NO_LEADING_SLASH))
    } else {
        match decode_segment_spec(s) {
            Err(e) => Err(e),
            Ok((db, c1)) => match decode_with_optional_prefix_spec(c1, document_prefixes()) {
                Err(e) => Err(e),
                Ok((id, c2)) => match end_spec(c2) {
                    Err(e) => Err(e),
                    Ok(_) => Ok((db, id)),
                },
            },
        }
    }
}

/// Parsing a design document path: its database name and design document id.
pub open spec fn parse_design_document_path_spec(s: Seq<char>) -> Result<
    (Seq<char>, Seq<char>),
    Error,
> {
    if !begins_with_slash(s) {
        Err(path_error(E_NO_LEADING_SLASH))
    } else {
        match decode_segment_spec(s) {
            Err(e) => Err(e),
            Ok((db, c1)) => match decode_with_prefix_spec(c1, design_prefix()) {
                Err(e) => Err(e),
                Ok((id, c2)) => match end_spec(c2) {
                    Err(e) => Err(e),
                    Ok(_) => Ok((db, id)),
                },
            },
        }
    }
}

/// Parsing an attachment path: its database name, document id and
/// attachment name.
pub open spec fn parse_attachment_path_spec(s: Seq<char>) -> Result<
    (Seq<char>, Seq<char>, Seq<char>),
    Error,
> {
    if !begins_with_slash(s) {
        Err(path_error(E_NO_LEADING_SLASH))
    } else {
        match decode_segment_spec(s) {
            Err(e) => Err(e),
            Ok((db, c1)) => match decode_with_optional_prefix_spec(c1, document_prefixes()) {
                Err(e) => Err(e),
                Ok((id, c2)) => match decode_segment_spec(c2) {
                    Err(e) => Err(e),
                    Ok((att, c3)) => match end_spec(c3) {
                        Err(e) => Err(e),
                        Ok(_) => Ok((db, id, att)),
                    },
                },
            },
        }
    }
}

/// Parsing a view path: its database name, design document id and view name.
pub open spec fn parse_view_path_spec(s: Seq<char>) -> Result<
    (Seq<char>, Seq<char>, Seq<char>),
    Error,
> {
    if !begins_with_slash(s) {
        Err(path_error(E_NO_LEADING_SLASH))
    } else {
        match decode_segment_spec(s) {
            Err(e) => Err(e),
            Ok((db, c1)) => match decode_with_prefix_spec(c1, design_prefix()) {
                Err(e) => Err(e),
                Ok((id, c2)) => match decode_exact_spec(c2, view_prefix()) {
                    Err(e) => Err(e),
                    Ok(c3) => match decode_segment_spec(c3) {
                        Err(e) => Err(e),
                        Ok((view, c4)) => match end_spec(c4) {
                            Err(e) => Err(e),
                            Ok(_) => Ok((db, id, view)),
                        },
                    },
                },
            },
        }
    }
}

/// The text of a database path.
pub open spec fn database_path_text(db: Seq<char>) -> Seq<char> {
    seg_path(db)
}

/// The text of a document path (also that of a design document path).
pub open spec fn document_path_text(db: Seq<char>, id: Seq<char>) -> Seq<char> {
    seg_path(db) + encode_doc_id(id)
}

/// The text of an attachment path.
pub open spec fn attachment_path_text(db: Seq<char>, id: Seq<char>, att: Seq<char>) -> Seq<char> {
    seg_path(db) + encode_doc_id(id) + seg_path(att)
}

/// The text of a view path.
pub open spec fn view_path_text(db: Seq<char>, id: Seq<char>, view: Seq<char>) -> Seq<char> {
    seg_path(db) + encode_doc_id(id) + seg_path(view_prefix()) + seg_path(view)
}

fn document_prefix_strs() -> (r: [&'static str; 2])
    ensures
        r@.map_values(|x: &str| x@) == document_prefixes(),
{
    let r = [design_prefix_str(), local_prefix_str()];
    proof {
        assert(r@.map_values(|x: &str| x@) =~= document_prefixes());
    }
    r
}

/// `DatabasePath` is the full URL path of a database.
#[derive(Clone, Debug, Default, Eq, Hash, Ord, PartialEq, PartialOrd)]
pub struct DatabasePath {
    db_name: DatabaseName,
}

impl View for DatabasePath {
    type V = Seq<char>;

    closed spec fn view(&self) -> Seq<char> {
        self.db_name@
    }
}

impl DatabaseName {
    /// Joins the database name with a document id to construct a document path.
    pub fn with_document_id<T>(self, doc_id: T) -> (r: DocumentPath) where DocumentId: From<T>
        ensures
            r@.0 == self@,
            exists|d: DocumentId| call_ensures(DocumentId::from, (doc_id,), d) && d@ == r@.1,
    {
        let d = DocumentId::from(doc_id);
        let ghost gd = d;
        let r = DocumentPath { db_name: self, doc_id: d };
        proof {
            assert(gd@ == r@.1);
        }
        r
    }

    /// Joins the database name with a design document id to construct a design
    /// document path.
    pub fn with_design_document_id<T>(self, ddoc_id: T) -> (r: DesignDocumentPath) where
        DesignDocumentId: From<T>,

        ensures
            r@.0 == self@,
            exists|d: DesignDocumentId|
                call_ensures(DesignDocumentId::from, (ddoc_id,), d) && d@ == r@.1,
    {
        let d = DesignDocumentId::from(ddoc_id);
        let ghost gd = d;
        let r = DesignDocumentPath { db_name: self, ddoc_id: d };
        proof {
            assert(gd@ == r@.1);
        }
        r
    }

    /// Converts the database name into a database path.
    pub fn into_database_path(self) -> (r: DatabasePath)
        ensures
            r@ == self@,
    {
        DatabasePath { db_name: self }
    }
}

impl DatabasePath {
    /// Tries to construct a database path from a string.
    pub fn parse(s: &str) -> (r: Result<Self, Error>)
        ensures
            match parse_database_path_spec(s@) {
                Ok(db) => r matches Ok(p) && p@ == db,
                Err(e) => r == Err::<Self, Error>(e),
            },
    {
        let mut p = PathDecoder::begin(s)?;
        let db_name = p.decode_segment()?;
        p.end()?;
        Ok(DatabasePath { db_name: DatabaseName::from_string(db_name) })
    }

    /// Borrows the path's database name.
    pub fn database_name(&self) -> (r: &DatabaseName)
        ensures
            r@ == self@,
    {
        &self.db_name
    }

    /// Joins the path with a document id to construct a document path.
    pub fn with_document_id<T>(self, doc_id: T) -> (r: DocumentPath) where DocumentId: From<T>
        ensures
            r@.0 == self@,
            exists|d: DocumentId| call_ensures(DocumentId::from, (doc_id,), d) && d@ == r@.1,
    {
        self.db_name.with_document_id(doc_id)
    }

    /// Joins the path with a design document id to construct a design document
    /// path.
    pub fn with_design_document_id<T>(self, ddoc_id: T) -> (r: DesignDocumentPath) where
        DesignDocumentId: From<T>,

        ensures
            r@.0 == self@,
            exists|d: DesignDocumentId|
                call_ensures(DesignDocumentId::from, (ddoc_id,), d) && d@ == r@.1,
    {
        self.db_name.with_design_document_id(ddoc_id)
    }

    /// The path as its `Display` form prints it: percent-encoded.
    pub fn to_string(&self) -> (r: String)
        ensures
            r@ == database_path_text(self@),
    {
        self.db_name.encode_path()
    }
}

/// `DocumentPath` is the full URL path of a document.
#[derive(Clone, Debug, Default, Eq, Hash, Ord, PartialEq, PartialOrd)]
pub struct DocumentPath {
    db_name: DatabaseName,
    doc_id: DocumentId,
}

impl View for DocumentPath {
    type V = (Seq<char>, Seq<char>);

    closed spec fn view(&self) -> (Seq<char>, Seq<char>) {
        (self.db_name@, self.doc_id@)
    }
}

impl DocumentPath {
    /// Tries to construct a document path from a string.
    pub fn parse(s: &str) -> (r: Result<Self, Error>)
        ensures
            match parse_document_path_spec(s@) {
                Ok(v) => r matches Ok(p) && p@ == v,
                Err(e) => r == Err::<Self, Error>(e),
            },
    {
        let mut p = PathDecoder::begin(s)?;
        let db_name = p.decode_segment()?;
        let prefixes = document_prefix_strs();
        let doc_id = p.decode_with_optional_prefix(prefixes.as_slice())?;
        p.end()?;
        Ok(DocumentPath { db_name: DatabaseName::from_string(db_name), doc_id: DocumentId(doc_id) })
    }

    /// Borrows the path's database name.
    pub fn database_name(&self) -> (r: &DatabaseName)
        ensures
            r@ == self@.0,
    {
        &self.db_name
    }

    /// Borrows the path's document id.
    pub fn document_id(&self) -> (r: &DocumentId)
        ensures
            r@ == self@.1,
    {
        &self.doc_id
    }

    /// Joins the path with an attachment name to construct an attachment path.
    pub fn with_attachment_name<T>(self, att_name: T) -> (r: AttachmentPath) where
        AttachmentName: From<T>,

        ensures
            r@.0 == self@.0,
            r@.1 == self@.1,
            exists|a: AttachmentName| call_ensures(AttachmentName::from, (att_name,), a) && a@ == r@.2,
    {
        let a = AttachmentName::from(att_name);
        AttachmentPath { db_name: self.db_name, doc_id: self.doc_id, att_name: a }
    }

    /// The path as its `Display` form prints it: percent-encoded.
    pub fn to_string(&self) -> (r: String)
        ensures
            r@ == document_path_text(self@.0, self@.1),
    {
        let mut out = self.db_name.encode_path();
        let id = self.doc_id.encode_path();
        out.append(id.as_str());
        out
    }
}

/// `DesignDocumentPath` is the full URL path of a design document.
#[derive(Clone, Debug, Default, Eq, Hash, Ord, PartialEq, PartialOrd)]
pub struct DesignDocumentPath {
    db_name: DatabaseName,
    ddoc_id: DesignDocumentId,
}

impl View for DesignDocumentPath {
    type V = (Seq<char>, Seq<char>);

    closed spec fn view(&self) -> (Seq<char>, Seq<char>) {
        (self.db_name@, self.ddoc_id@)
    }
}

impl DesignDocumentPath {
    /// Tries to construct a design document path from a string.
    pub fn parse(s: &str) -> (r: Result<Self, Error>)
        ensures
            match parse_design_document_path_spec(s@) {
                Ok(v) => r matches Ok(p) && p@ == v,
                Err(e) => r == Err::<Self, Error>(e),
            },
    {
        let mut p = PathDecoder::begin(s)?;
        let db_name = p.decode_segment()?;
        let ddoc_id = p.decode_with_prefix(design_prefix_str())?;
        p.end()?;
        proof {
            assert(ddoc_id@.take(7) =~= design_prefix());
        }
        Ok(
            DesignDocumentPath {
                db_name: DatabaseName::from_string(db_name),
                ddoc_id: DesignDocumentId::from_prefixed(ddoc_id),
            },
        )
    }

    /// Borrows the path's database name.
    pub fn database_name(&self) -> (r: &DatabaseName)
        ensures
            r@ == self@.0,
    {
        &self.db_name
    }

    /// Borrows the path's design document id.
    pub fn design_document_id(&self) -> (r: &DesignDocumentId)
        ensures
            r@ == self@.1,
    {
        &self.ddoc_id
    }

    /// Joins the path with an attachment name to construct an attachment path.
    pub fn with_attachment_name<T>(self, att_name: T) -> (r: AttachmentPath) where
        AttachmentName: From<T>,

        ensures
            r@.0 == self@.0,
            r@.1 == self@.1,
            exists|a: AttachmentName| call_ensures(AttachmentName::from, (att_name,), a) && a@ == r@.2,
    {
        let a = AttachmentName::from(att_name);
        AttachmentPath {
            db_name: self.db_name,
            doc_id: self.ddoc_id.into_document_id(),
            att_name: a,
        }
    }

    /// Joins the path with a view name to construct a view path.
    pub fn with_view_name<T>(self, view_name: T) -> (r: ViewPath) where ViewName: From<T>
        ensures
            r@.0 == self@.0,
            r@.1 == self@.1,
            exists|v: ViewName| call_ensures(ViewName::from, (view_name,), v) && v@ == r@.2,
    {
        let v = ViewName::from(view_name);
        ViewPath { db_name: self.db_name, ddoc_id: self.ddoc_id, view_name: v }
    }

    /// The path as its `Display` form prints it: percent-encoded.
    pub fn to_string(&self) -> (r: String)
        ensures
            r@ == document_path_text(self@.0, self@.1),
    {
        let mut out = self.db_name.encode_path();
        let id = self.ddoc_id.encode_path();
        out.append(id.as_str());
        out
    }
}

/// `AttachmentPath` is the full URL path of an attachment.
#[derive(Clone, Debug, Default, Eq, Hash, Ord, PartialEq, PartialOrd)]
pub struct AttachmentPath {
    db_name: DatabaseName,
    doc_id: DocumentId,
    att_name: AttachmentName,
}

impl View for AttachmentPath {
    type V = (Seq<char>, Seq<char>, Seq<char>);

    closed spec fn view(&self) -> (Seq<char>, Seq<char>, Seq<char>) {
        (self.db_name@, self.doc_id@, self.att_name@)
    }
}

impl AttachmentPath {
    /// Tries to construct an attachment path from a string.
    pub fn parse(s: &str) -> (r: Result<Self, Error>)
        ensures
            match parse_attachment_path_spec(s@) {
                Ok(v) => r matches Ok(p) && p@ == v,
                Err(e) => r == Err::<Self, Error>(e),
            },
    {
        let mut p = PathDecoder::begin(s)?;
        let db_name = p.decode_segment()?;
        let prefixes = document_prefix_strs();
        let doc_id = p.decode_with_optional_prefix(prefixes.as_slice())?;
        let att_name = p.decode_segment()?;
        p.end()?;
        Ok(
            AttachmentPath {
                db_name: DatabaseName::from_string(db_name),
                doc_id: DocumentId(doc_id),
                att_name: AttachmentName::from_string(att_name),
            },
        )
    }

    /// Borrows the path's database name.
    pub fn database_name(&self) -> (r: &DatabaseName)
        ensures
            r@ == self@.0,
    {
        &self.db_name
    }

    /// Borrows the path's document id.
    pub fn document_id(&self) -> (r: &DocumentId)
        ensures
            r@ == self@.1,
    {
        &self.doc_id
    }

    /// Borrows the path's attachment name.
    pub fn attachment_name(&self) -> (r: &AttachmentName)
        ensures
            r@ == self@.2,
    {
        &self.att_name
    }

    /// The path as its `Display` form prints it: percent-encoded.
    pub fn to_string(&self) -> (r: String)
        ensures
            r@ == attachment_path_text(self@.0, self@.1, self@.2),
    {
        let mut out = self.db_name.encode_path();
        let id = self.doc_id.encode_path();
        out.append(id.as_str());
        let att = self.att_name.encode_path();
        out.append(att.as_str());
        out
    }
}

/// `ViewPath` is the full URL path of a view.
#[derive(Clone, Debug, Default, Eq, Hash, Ord, PartialEq, PartialOrd)]
pub struct ViewPath {
    db_name: DatabaseName,
    ddoc_id: DesignDocumentId,
    view_name: ViewName,
}

impl View for ViewPath {
    type V = (Seq<char>, Seq<char>, Seq<char>);

    closed spec fn view(&self) -> (Seq<char>, Seq<char>, Seq<char>) {
        (self.db_name@, self.ddoc_id@, self.view_name@)
    }
}

impl ViewPath {
    /// Tries to construct a view path from a string.
    pub fn parse(s: &str) -> (r: Result<Self, Error>)
        ensures
            match parse_view_path_spec(s@) {
                Ok(v) => r matches Ok(p) && p@ == v,
                Err(e) => r == Err::<Self, Error>(e),
            },
    {
        let mut p = PathDecoder::begin(s)?;
        let db_name = p.decode_segment()?;
        let ddoc_id = p.decode_with_prefix(design_prefix_str())?;
        p.decode_exact(view_prefix_str())?;
        let view_name = p.decode_segment()?;
        p.end()?;
        proof {
            assert(ddoc_id@.take(7) =~= design_prefix());
        }
        Ok(
            ViewPath {
                db_name: DatabaseName::from_string(db_name),
                ddoc_id: DesignDocumentId::from_prefixed(ddoc_id),
                view_name: ViewName::from_string(view_name),
            },
        )
    }

    /// Borrows the path's database name.
    pub fn database_name(&self) -> (r: &DatabaseName)
        ensures
            r@ == self@.0,
    {
        &self.db_name
    }

    /// Borrows the path's design document id.
    pub fn design_document_id(&self) -> (r: &DesignDocumentId)
        ensures
            r@ == self@.1,
    {
        &self.ddoc_id
    }

    /// Borrows the path's view name.
    pub fn view_name(&self) -> (r: &ViewName)
        ensures
            r@ == self@.2,
    {
        &self.view_name
    }

    /// The path as its `Display` form prints it: percent-encoded.
    pub fn to_string(&self) -> (r: String)
        ensures
            r@ == view_path_text(self@.0, self@.1, self@.2),
    {
        let mut out = self.db_name.encode_path();
        let id = self.ddoc_id.encode_path();
        out.append(id.as_str());
        push_segment(&mut out, view_prefix_str());
        let view = self.view_name.encode_path();
        out.append(view.as_str());
        out
    }
}

proof fn lemma_fixed_segments()
    ensures
        encoded_segment(design_prefix()) == design_prefix(),
        encoded_segment(local_prefix()) == local_prefix(),
        encoded_segment(view_prefix()) == view_prefix(),
        !design_prefix().contains('/'),
        !local_prefix().contains('/'),
        !view_prefix().contains('/'),
{
    let d = design_prefix();
    let l = local_prefix();
    let v = view_prefix();
    assert(vstd::utf8::is_ascii_chars(d));
    assert(vstd::utf8::is_ascii_chars(l));
    assert(vstd::utf8::is_ascii_chars(v));
    assert forall|i: int| 0 <= i < d.len() implies !crate::percent::in_path_segment_set(
        #[trigger] d[i] as u8,
    ) by {
        assert(d[i] == '_' || d[i] == 'd' || d[i] == 'e' || d[i] == 's' || d[i] == 'i' || d[i]
            == 'g' || d[i] == 'n');
    }
    assert forall|i: int| 0 <= i < l.len() implies !crate::percent::in_path_segment_set(
        #[trigger] l[i] as u8,
    ) by {
        assert(l[i] == '_' || l[i] == 'l' || l[i] == 'o' || l[i] == 'c' || l[i] == 'a');
    }
    assert forall|i: int| 0 <= i < v.len() implies !crate::percent::in_path_segment_set(
        #[trigger] v[i] as u8,
    ) by {
        assert(v[i] == '_' || v[i] == 'v' || v[i] == 'i' || v[i] == 'e' || v[i] == 'w');
    }
    crate::percent::lemma_encode_plain(d);
    crate::percent::lemma_encode_plain(l);
    crate::percent::lemma_encode_plain(v);
    assert(!d.contains('/')) by {
        if d.contains('/') {
            let i = choose|i: int| 0 <= i < d.len() && d[i] == '/';
        }
    }
    assert(!l.contains('/')) by {
        if l.contains('/') {
            let i = choose|i: int| 0 <= i < l.len() && l[i] == '/';
        }
    }
    assert(!v.contains('/')) by {
        if v.contains('/') {
            let i = choose|i: int| 0 <= i < v.len() && v[i] == '/';
        }
    }
}

/// Whether the rest of a path is empty or begins with a slash.
pub open spec fn rest_ok(rest: Seq<char>) -> bool {
    rest.len() == 0 || rest[0] == '/'
}

proof fn lemma_first_slash_of_encoded(e: Seq<char>, rest: Seq<char>)
    requires
        !e.contains('/'),
        rest_ok(rest),
    ensures
        first_slash(e + rest) == e.len(),
        (e + rest).take(e.len() as int) == e,
        (e + rest).skip(e.len() as int) == rest,
{
    if rest.len() == 0 {
        assert(e + rest =~= e);
        lemma_first_slash_none(e);
    } else {
        lemma_first_slash_concat(e, rest);
    }
    assert((e + rest).take(e.len() as int) =~= e);
    assert((e + rest).skip(e.len() as int) =~= rest);
}

proof fn lemma_decode_segment_of(seg: Seq<char>, rest: Seq<char>)
    requires
        seg.len() > 0,
        rest_ok(rest),
    ensures
        decode_segment_spec(seg_path(seg) + rest) == Ok::<(Seq<char>, Seq<char>), Error>(
            (seg, rest),
        ),
        rest_ok(seg_path(seg) + rest),
        begins_with_slash(seg_path(seg) + rest),
{
    lemma_segment_roundtrip(seg);
    let e = encoded_segment(seg);
    let c = seg_path(seg) + rest;
    assert(c.drop_first() =~= e + rest);
    lemma_first_slash_of_encoded(e, rest);
}

proof fn lemma_decode_exact_of(key: Seq<char>, rest: Seq<char>)
    requires
        key.len() > 0,
        encoded_segment(key) == key,
        rest_ok(rest),
    ensures
        decode_exact_spec(seg_path(key) + rest, key) == Ok::<Seq<char>, Error>(rest),
        rest_ok(seg_path(key) + rest),
{
    lemma_segment_roundtrip(key);
    let e = encoded_segment(key);
    let c = seg_path(key) + rest;
    assert(c.drop_first() =~= e + rest);
    lemma_first_slash_of_encoded(e, rest);
}

proof fn lemma_decode_after_prefix_of(prefix: Seq<char>, base: Seq<char>, rest: Seq<char>)
    requires
        prefix.len() > 0,
        encoded_segment(prefix) == prefix,
        base.len() > 0,
        rest_ok(rest),
    ensures
        ({
            let p = prefix + seg_path(base) + rest;
            &&& first_slash(p) == prefix.len()
            &&& p.take(prefix.len() as int) == prefix
            &&& prefix.len() + 1 < p.len()
            &&& decode_after_prefix_spec(p, prefix.len() as int, prefix) == Ok::<
                (Seq<char>, Seq<char>),
                Error,
            >((prefix + seq!['/'] + base, rest))
        }),
{
    lemma_segment_roundtrip(prefix);
    lemma_segment_roundtrip(base);
    let e = encoded_segment(base);
    let p = prefix + seg_path(base) + rest;
    assert(p =~= prefix + (seg_path(base) + rest));
    lemma_first_slash_of_encoded(prefix, seg_path(base) + rest);
    let q = p.skip(prefix.len() as int + 1);
    assert(q =~= e + rest);
    lemma_first_slash_of_encoded(e, rest);
}

proof fn lemma_decode_with_prefix_of(prefix: Seq<char>, base: Seq<char>, rest: Seq<char>)
    requires
        prefix.len() > 0,
        encoded_segment(prefix) == prefix,
        base.len() > 0,
        rest_ok(rest),
    ensures
        decode_with_prefix_spec(seg_path(prefix) + seg_path(base) + rest, prefix) == Ok::<
            (Seq<char>, Seq<char>),
            Error,
        >((prefix + seq!['/'] + base, rest)),
        rest_ok(seg_path(prefix) + seg_path(base) + rest),
{
    let c = seg_path(prefix) + seg_path(base) + rest;
    assert(c.drop_first() =~= prefix + seg_path(base) + rest);
    lemma_decode_after_prefix_of(prefix, base, rest);
}

/// Whether a document id survives the trip through its path text: its name
/// is not empty, and an id without a prefix is not itself `_design` or
/// `_local`.
pub open spec fn is_encodable_doc_id(id: Seq<char>) -> bool {
    let (prefix, base) = split_prefix_spec(id);
    &&& base.len() > 0
    &&& prefix is None ==> base != design_prefix() && base != local_prefix()
}

proof fn lemma_split_prefix(id: Seq<char>)
    ensures
        match split_prefix_spec(id) {
            (Some(prefix), base) => id == prefix + seq!['/'] + base && prefix.len() > 0
                && encoded_segment(prefix) == prefix && document_prefixes().contains(prefix),
            (None, base) => id == base,
        },
{
    lemma_fixed_segments();
    match split_prefix_spec(id) {
        (Some(prefix), base) => {
            assert(id =~= prefix + seq!['/'] + base);
            assert(document_prefixes()[0] == design_prefix());
            assert(document_prefixes()[1] == local_prefix());
        },
        (None, base) => {},
    }
}

proof fn lemma_decode_doc_id_of(id: Seq<char>, rest: Seq<char>)
    requires
        is_encodable_doc_id(id),
        rest_ok(rest),
    ensures
        decode_with_optional_prefix_spec(encode_doc_id(id) + rest, document_prefixes()) == Ok::<
            (Seq<char>, Seq<char>),
            Error,
        >((id, rest)),
        rest_ok(encode_doc_id(id) + rest),
{
    lemma_split_prefix(id);
    lemma_fixed_segments();
    match split_prefix_spec(id) {
        (Some(prefix), base) => {
            let c = seg_path(prefix) + seg_path(base) + rest;
            assert(c.drop_first() =~= prefix + seg_path(base) + rest);
            lemma_decode_after_prefix_of(prefix, base, rest);
        },
        (None, base) => {
            let e = encoded_segment(base);
            let c = seg_path(base) + rest;
            lemma_decode_segment_of(base, rest);
            lemma_segment_roundtrip(base);
            assert(c.drop_first() =~= e + rest);
            lemma_first_slash_of_encoded(e, rest);
            lemma_segment_roundtrip(design_prefix());
            lemma_segment_roundtrip(local_prefix());
            if document_prefixes().contains(e) {
                let j = choose|j: int| 0 <= j < document_prefixes().len() && document_prefixes()[j] == e;
                assert(j == 0 || j == 1);
            }
        },
    }
}

/// Parsing the text of a database path gives the path back, when its name is
/// not empty.
pub proof fn law_database_path_roundtrip(db: Seq<char>)
    requires
        db.len() > 0,
    ensures
        parse_database_path_spec(database_path_text(db)) == Ok::<Seq<char>, Error>(db),
{
    lemma_decode_segment_of(db, Seq::empty());
    assert(seg_path(db) + Seq::<char>::empty() =~= seg_path(db));
}

/// Parsing the text of a document path gives the path back, when its names
/// are not empty and its id is not a bare `_design` or `_local`.
pub proof fn law_document_path_roundtrip(db: Seq<char>, id: Seq<char>)
    requires
        db.len() > 0,
        is_encodable_doc_id(id),
    ensures
        parse_document_path_spec(document_path_text(db, id)) == Ok::<
            (Seq<char>, Seq<char>),
            Error,
        >((db, id)),
{
    let e = Seq::<char>::empty();
    lemma_decode_doc_id_of(id, e);
    assert(encode_doc_id(id) + e =~= encode_doc_id(id));
    lemma_decode_segment_of(db, encode_doc_id(id));
}

/// Parsing the text of a design document path gives the path back, when its
/// database name and design document name are not empty.
pub proof fn law_design_document_path_roundtrip(db: Seq<char>, id: Seq<char>)
    requires
        db.len() > 0,
        is_design_document_id(id),
    ensures
        parse_design_document_path_spec(document_path_text(db, id)) == Ok::<
            (Seq<char>, Seq<char>),
            Error,
        >((db, id)),
{
    lemma_fixed_segments();
    lemma_split_prefix(id);
    let base = id.skip(8);
    let e = Seq::<char>::empty();
    lemma_decode_with_prefix_of(design_prefix(), base, e);
    assert(seg_path(design_prefix()) + seg_path(base) + e =~= encode_doc_id(id));
    lemma_decode_segment_of(db, encode_doc_id(id));
    assert(seg_path(db) + encode_doc_id(id) =~= document_path_text(db, id));
}

/// Parsing the text of an attachment path gives the path back, when its
/// names are not empty and its id is not a bare `_design` or `_local`.
pub proof fn law_attachment_path_roundtrip(db: Seq<char>, id: Seq<char>, att: Seq<char>)
    requires
        db.len() > 0,
        is_encodable_doc_id(id),
        att.len() > 0,
    ensures
        parse_attachment_path_spec(attachment_path_text(db, id, att)) == Ok::<
            (Seq<char>, Seq<char>, Seq<char>),
            Error,
        >((db, id, att)),
{
    let e = Seq::<char>::empty();
    lemma_decode_segment_of(att, e);
    assert(seg_path(att) + e =~= seg_path(att));
    lemma_decode_doc_id_of(id, seg_path(att));
    lemma_decode_segment_of(db, encode_doc_id(id) + seg_path(att));
    assert(seg_path(db) + (encode_doc_id(id) + seg_path(att)) =~= attachment_path_text(db, id, att));
}

/// Parsing the text of a view path gives the path back, when its database
/// name, design document name and view name are not empty.
pub proof fn law_view_path_roundtrip(db: Seq<char>, id: Seq<char>, view: Seq<char>)
    requires
        db.len() > 0,
        is_design_document_id(id),
        view.len() > 0,
    ensures
        parse_view_path_spec(view_path_text(db, id, view)) == Ok::<
            (Seq<char>, Seq<char>, Seq<char>),
            Error,
        >((db, id, view)),
{
    lemma_fixed_segments();
    lemma_split_prefix(id);
    let base = id.skip(8);
    let e = Seq::<char>::empty();
    lemma_decode_segment_of(view, e);
    assert(seg_path(view) + e =~= seg_path(view));
    lemma_decode_exact_of(view_prefix(), seg_path(view));
    let r2 = seg_path(view_prefix()) + seg_path(view);
    lemma_decode_with_prefix_of(design_prefix(), base, r2);
    assert(seg_path(design_prefix()) + seg_path(base) + r2 =~= encode_doc_id(id) + r2);
    lemma_decode_segment_of(db, encode_doc_id(id) + r2);
    assert(seg_path(db) + (encode_doc_id(id) + r2) =~= view_path_text(db, id, view));
}

impl std::str::FromStr for DesignDocumentId {
    type Err = Error;

    fn from_str(s: &str) -> (r: Result<Self, Self::Err>)
        ensures
            is_design_document_id(s@) ==> (r matches Ok(d) && d@ == s@),
            !is_design_document_id(s@) ==> r matches Err(Error::BadDesignDocumentId),
    {
        DesignDocumentId::parse(s)
    }
}

impl std::str::FromStr for DatabasePath {
    type Err = Error;

    fn from_str(s: &str) -> (r: Result<Self, Self::Err>)
        ensures
            match parse_database_path_spec(s@) {
                Ok(db) => r matches Ok(p) && p@ == db,
                Err(e) => r == Err::<Self, Error>(e),
            },
    {
        DatabasePath::parse(s)
    }
}

impl std::str::FromStr for DocumentPath {
    type Err = Error;

    fn from_str(s: &str) -> (r: Result<Self, Self::Err>)
        ensures
            match parse_document_path_spec(s@) {
                Ok(v) => r matches Ok(p) && p@ == v,
                Err(e) => r == Err::<Self, Error>(e),
            },
    {
        DocumentPath::parse(s)
    }
}

impl std::str::FromStr for DesignDocumentPath {
    type Err = Error;

    fn from_str(s: &str) -> (r: Result<Self, Self::Err>)
        ensures
            match parse_design_document_path_spec(s@) {
                Ok(v) => r matches Ok(p) && p@ == v,
                Err(e) => r == Err::<Self, Error>(e),
            },
    {
        DesignDocumentPath::parse(s)
    }
}

impl std::str::FromStr for AttachmentPath {
    type Err = Error;

    fn from_str(s: &str) -> (r: Result<Self, Self::Err>)
        ensures
            match parse_attachment_path_spec(s@) {
                Ok(v) => r matches Ok(p) && p@ == v,
                Err(e) => r == Err::<Self, Error>(e),
            },
    {
        AttachmentPath::parse(s)
    }
}

impl std::str::FromStr for ViewPath {
    type Err = Error;

    fn from_str(s: &str) -> (r: Result<Self, Self::Err>)
        ensures
            match parse_view_path_spec(s@) {
                Ok(v) => r matches Ok(p) && p@ == v,
                Err(e) => r == Err::<Self, Error>(e),
            },
    {
        ViewPath::parse(s)
    }
}

} // verus!
