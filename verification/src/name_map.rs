//! Maps from names to values.
//!
//! A `NameMap` holds each name at most once. `insert` places a new name
//! before the first name that does not come before it, so that the entries
//! stay in the order of names and two maps with the same entries compare
//! equal whatever order the entries were inserted in.

use vstd::prelude::*;
use vstd::string::*;

verus! {

/// Whether `a` comes before `b` in the order of `String`: character by
/// character, a proper prefix first.
pub open spec fn chars_lt(a: Seq<char>, b: Seq<char>) -> bool
    decreases a.len(),
{
    if a.len() == 0 {
        b.len() > 0
    } else if b.len() == 0 {
        false
    } else if a[0] != b[0] {
        (a[0] as u32) < (b[0] as u32)
    } else {
        chars_lt(a.drop_first(), b.drop_first())
    }
}

/// The value that the first entry named `k` holds, if any.
pub open spec fn lookup<V>(s: Seq<(String, V)>, k: Seq<char>) -> Option<V>
    decreases s.len(),
{
    if s.len() == 0 {
        None
    } else if s[0].0@ == k {
        Some(s[0].1)
    } else {
        lookup(s.drop_first(), k)
    }
}

/// Whether no two entries have the same name.
pub open spec fn names_distinct<V>(s: Seq<(String, V)>) -> bool {
    forall|i: int, j: int| 0 <= i < j < s.len() ==> s[i].0@ != s[j].0@
}

/// Whether the entries are in the order of their names, each name before
/// the next.
pub open spec fn names_sorted<V>(s: Seq<(String, V)>) -> bool {
    forall|i: int, j: int| 0 <= i < j < s.len() ==> chars_lt(s[i].0@, s[j].0@)
}

proof fn lemma_chars_lt_irreflexive(a: Seq<char>)
    ensures
        !chars_lt(a, a),
    decreases a.len(),
{
    if a.len() > 0 {
        lemma_chars_lt_irreflexive(a.drop_first());
    }
}

proof fn lemma_chars_lt_trichotomy(a: Seq<char>, b: Seq<char>)
    ensures
        a == b || chars_lt(a, b) || chars_lt(b, a),
    decreases a.len(),
{
    if a.len() > 0 && b.len() > 0 && a[0] == b[0] {
        lemma_chars_lt_trichotomy(a.drop_first(), b.drop_first());
        if a.drop_first() == b.drop_first() {
            assert(a =~= seq![a[0]] + a.drop_first());
            assert(b =~= seq![b[0]] + b.drop_first());
        }
    } else if a.len() == 0 && b.len() == 0 {
        assert(a =~= b);
    } else if a.len() > 0 && b.len() > 0 {
        vstd::utf8::char_u32_cast(a[0], a[0] as u32);
        vstd::utf8::char_u32_cast(b[0], b[0] as u32);
    }
}

proof fn lemma_chars_lt_transitive(a: Seq<char>, b: Seq<char>, c: Seq<char>)
    requires
        chars_lt(a, b),
        chars_lt(b, c),
    ensures
        chars_lt(a, c),
    decreases a.len(),
{
    if a.len() > 0 && b.len() > 0 && c.len() > 0 && a[0] == b[0] && b[0] == c[0] {
        lemma_chars_lt_transitive(a.drop_first(), b.drop_first(), c.drop_first());
    }
}

proof fn lemma_sorted_distinct<V>(s: Seq<(String, V)>)
    requires
        names_sorted(s),
    ensures
        names_distinct(s),
{
    assert forall|i: int, j: int| 0 <= i < j < s.len() implies s[i].0@ != s[j].0@ by {
        lemma_chars_lt_irreflexive(s[i].0@);
    }
}

/// The map that entries with distinct names stand for.
pub open spec fn entries_map<V>(s: Seq<(String, V)>) -> Map<Seq<char>, V> {
    Map::new(|k: Seq<char>| lookup(s, k) is Some, |k: Seq<char>| lookup(s, k)->0)
}

proof fn lemma_lookup_at<V>(s: Seq<(String, V)>, i: int)
    requires
        names_distinct(s),
        0 <= i < s.len(),
    ensures
        lookup(s, s[i].0@) == Some(s[i].1),
    decreases s.len(),
{
    if i > 0 {
        let t = s.drop_first();
        assert(names_distinct(t)) by {
            assert forall|a: int, b: int| 0 <= a < b < t.len() implies t[a].0@ != t[b].0@ by {
                assert(t[a] == s[a + 1] && t[b] == s[b + 1]);
            }
        }
        assert(s[0].0@ != s[i].0@);
        assert(t[i - 1] == s[i]);
        lemma_lookup_at(t, i - 1);
    }
}

proof fn lemma_lookup_absent<V>(s: Seq<(String, V)>, k: Seq<char>)
    requires
        forall|i: int| 0 <= i < s.len() ==> s[i].0@ != k,
    ensures
        lookup(s, k) is None,
    decreases s.len(),
{
    if s.len() > 0 {
        let t = s.drop_first();
        assert forall|i: int| 0 <= i < t.len() implies t[i].0@ != k by {
            assert(t[i] == s[i + 1]);
        }
        lemma_lookup_absent(t, k);
    }
}

/// With distinct names, the map holds exactly the entries.
proof fn lemma_entries_map<V>(s: Seq<(String, V)>, k: Seq<char>)
    requires
        names_distinct(s),
    ensures
        entries_map(s).contains_key(k) <==> exists|i: int| 0 <= i < s.len() && s[i].0@ == k,
        forall|i: int| 0 <= i < s.len() && s[i].0@ == k ==> entries_map(s)[k] == s[i].1,
{
    if exists|i: int| 0 <= i < s.len() && s[i].0@ == k {
        let i = choose|i: int| 0 <= i < s.len() && s[i].0@ == k;
        lemma_lookup_at(s, i);
        assert forall|j: int| 0 <= j < s.len() && s[j].0@ == k implies entries_map(s)[k]
            == s[j].1 by {
            lemma_lookup_at(s, j);
        }
    } else {
        lemma_lookup_absent(s, k);
    }
}

proof fn lemma_entries_map_drop_first<V>(s: Seq<(String, V)>)
    requires
        names_distinct(s),
        s.len() > 0,
    ensures
        entries_map(s.drop_first()) == entries_map(s).remove(s[0].0@),
{
    let r = s.drop_first();
    assert(names_distinct(r)) by {
        assert forall|a: int, b: int| 0 <= a < b < r.len() implies r[a].0@ != r[b].0@ by {
            assert(r[a] == s[a + 1] && r[b] == s[b + 1]);
        }
    }
    assert forall|q: Seq<char>| #[trigger] entries_map(r).contains_key(q) <==> entries_map(
        s,
    ).remove(s[0].0@).contains_key(q) by {
        lemma_entries_map(r, q);
        lemma_entries_map(s, q);
        if exists|j: int| 0 <= j < r.len() && r[j].0@ == q {
            let j = choose|j: int| 0 <= j < r.len() && r[j].0@ == q;
            assert(s[j + 1].0@ == q);
        }
        if q != s[0].0@ && exists|j: int| 0 <= j < s.len() && #[trigger] s[j].0@ == q {
            let j = choose|j: int| 0 <= j < s.len() && #[trigger] s[j].0@ == q;
            assert(j > 0);
            assert(r[j - 1].0@ == q);
        }
    }
    assert forall|q: Seq<char>| entries_map(r).contains_key(q) implies entries_map(r)[q]
        == entries_map(s).remove(s[0].0@)[q] by {
        lemma_entries_map(r, q);
        lemma_entries_map(s, q);
        let j = choose|j: int| 0 <= j < r.len() && r[j].0@ == q;
        assert(s[j + 1] == r[j]);
    }
    assert(entries_map(r) =~= entries_map(s).remove(s[0].0@));
}

/// Entries in the order of their names are determined by the map they stand
/// for: two such sequences of entries with the same names and values hold
/// them in the same places.
pub proof fn law_sorted_entries_are_determined<V>(a: Seq<(String, V)>, b: Seq<(String, V)>)
    requires
        names_sorted(a),
        names_sorted(b),
        entries_map(a) == entries_map(b),
    ensures
        a.len() == b.len(),
        forall|i: int| 0 <= i < a.len() ==> a[i].0@ == b[i].0@ && a[i].1 == b[i].1,
    decreases a.len(),
{
    lemma_sorted_distinct(a);
    lemma_sorted_distinct(b);
    if a.len() == 0 {
        if b.len() > 0 {
            lemma_entries_map(b, b[0].0@);
            lemma_entries_map(a, b[0].0@);
        }
    } else if b.len() == 0 {
        lemma_entries_map(a, a[0].0@);
        lemma_entries_map(b, a[0].0@);
    } else {
        let ka = a[0].0@;
        let kb = b[0].0@;
        lemma_entries_map(a, ka);
        lemma_entries_map(b, ka);
        lemma_entries_map(a, kb);
        lemma_entries_map(b, kb);
        if ka != kb {
            let j = choose|j: int| 0 <= j < b.len() && b[j].0@ == ka;
            let m = choose|m: int| 0 <= m < a.len() && a[m].0@ == kb;
            assert(j > 0 && m > 0);
            assert(chars_lt(kb, ka));
            assert(chars_lt(ka, kb));
            lemma_chars_lt_transitive(ka, kb, ka);
            lemma_chars_lt_irreflexive(ka);
        }
        assert(a[0].1 == b[0].1);
        lemma_entries_map_drop_first(a);
        lemma_entries_map_drop_first(b);
        let ra = a.drop_first();
        let rb = b.drop_first();
        assert(names_sorted(ra)) by {
            assert forall|x: int, y: int| 0 <= x < y < ra.len() implies chars_lt(
                ra[x].0@,
                ra[y].0@,
            ) by {
                assert(ra[x] == a[x + 1] && ra[y] == a[y + 1]);
            }
        }
        assert(names_sorted(rb)) by {
            assert forall|x: int, y: int| 0 <= x < y < rb.len() implies chars_lt(
                rb[x].0@,
                rb[y].0@,
            ) by {
                assert(rb[x] == b[x + 1] && rb[y] == b[y + 1]);
            }
        }
        law_sorted_entries_are_determined(ra, rb);
        assert forall|i: int| 0 <= i < a.len() implies a[i].0@ == b[i].0@ && a[i].1 == b[i].1 by {
            if i > 0 {
                assert(ra[i - 1] == a[i] && rb[i - 1] == b[i]);
            }
        }
    }
}

/// A map from names to values.
#[derive(Debug, Eq, Hash, PartialEq)]
pub struct NameMap<V> {
    entries: Vec<(String, V)>,
}

impl<V> View for NameMap<V> {
    type V = Map<Seq<char>, V>;

    /// The value stored under each name.
    closed spec fn view(&self) -> Map<Seq<char>, V> {
        entries_map(self.entries@)
    }
}

/// Compares two names in the order of `String`: negative where `a` comes
/// first, zero where they are equal, positive where `b` comes first.
pub fn compare_names(a: &str, b: &str) -> (r: i8)
    ensures
        r == 0 <==> a@ == b@,
        r < 0 <==> chars_lt(a@, b@),
{
    let n = a.unicode_len();
    let m = b.unicode_len();
    let mut i: usize = 0;
    proof {
        assert(a@.skip(0) =~= a@);
        assert(b@.skip(0) =~= b@);
    }
    while i < n && i < m && a.get_char(i) == b.get_char(i)
        invariant
            n == a@.len(),
            m == b@.len(),
            i <= n,
            i <= m,
            a@.take(i as int) == b@.take(i as int),
            chars_lt(a@, b@) == chars_lt(a@.skip(i as int), b@.skip(i as int)),
        decreases n - i,
    {
        proof {
            let x = a@.skip(i as int);
            let y = b@.skip(i as int);
            assert(x.drop_first() =~= a@.skip(i + 1));
            assert(y.drop_first() =~= b@.skip(i + 1));
            assert(a@.take(i + 1) =~= a@.take(i as int).push(a@[i as int]));
            assert(b@.take(i + 1) =~= b@.take(i as int).push(b@[i as int]));
        }
        i = i + 1;
    }
    let ghost x = a@.skip(i as int);
    let ghost y = b@.skip(i as int);
    if i == n && i == m {
        proof {
            assert(a@ =~= a@.take(i as int));
            assert(b@ =~= b@.take(i as int));
            assert(x.len() == 0 && y.len() == 0);
        }
        0
    } else if i == n {
        proof {
            assert(a@.len() < b@.len());
            assert(x.len() == 0 && y.len() > 0);
        }
        -1
    } else if i == m {
        proof {
            assert(a@.len() > b@.len());
            assert(x.len() > 0 && y.len() == 0);
        }
        1
    } else {
        let c = a.get_char(i);
        let d = b.get_char(i);
        proof {
            assert(x[0] == c && y[0] == d);
            assert(a@[i as int] != b@[i as int]);
        }
        if (c as u32) < (d as u32) {
            -1
        } else {
            1
        }
    }
}

impl<V> NameMap<V> {
    #[verifier::type_invariant]
    spec fn names_are_sorted(self) -> bool {
        names_sorted(self.entries@)
    }

    /// Constructs an empty map.
    pub fn new() -> (r: Self)
        ensures
            r@ == Map::<Seq<char>, V>::empty(),
    {
        let r = NameMap { entries: Vec::new() };
        proof {
            assert(r@ =~= Map::<Seq<char>, V>::empty());
        }
        r
    }

    /// Whether the map holds no entry.
    pub fn is_empty(&self) -> (r: bool)
        ensures
            r == (self@ == Map::<Seq<char>, V>::empty()),
    {
        proof {
            use_type_invariant(self);
            lemma_sorted_distinct(self.entries@);
            if self.entries@.len() > 0 {
                lemma_entries_map(self.entries@, self.entries@[0].0@);
                assert(self@.contains_key(self.entries@[0].0@));
            } else {
                assert(self@ =~= Map::<Seq<char>, V>::empty());
            }
        }
        self.entries.len() == 0
    }

    /// The value stored under `k`, if any.
    pub fn get(&self, k: &str) -> (r: Option<&V>)
        ensures
            match r {
                Some(v) => self@.contains_key(k@) && *v == self@[k@],
                None => !self@.contains_key(k@),
            },
    {
        proof {
            use_type_invariant(self);
            lemma_sorted_distinct(self.entries@);
            lemma_entries_map(self.entries@, k@);
        }
        let mut i: usize = 0;
        while i < self.entries.len()
            invariant
                i <= self.entries@.len(),
                names_distinct(self.entries@),
                forall|j: int| 0 <= j < i ==> self.entries@[j].0@ != k@,
            decreases self.entries.len() - i,
        {
            if compare_names(self.entries[i].0.as_str(), k) == 0 {
                proof {
                    lemma_entries_map(self.entries@, k@);
                }
                return Some(&self.entries[i].1);
            }
            i = i + 1;
        }
        proof {
            lemma_entries_map(self.entries@, k@);
        }
        None
    }

    /// Stores `v` under `k`, in place of any value stored there before, and
    /// returns that value.
    pub fn insert(&mut self, k: String, v: V) -> (r: Option<V>)
        ensures
            final(self)@ == old(self)@.insert(k@, v),
            old(self)@.contains_key(k@) ==> r == Some(old(self)@[k@]),
            !old(self)@.contains_key(k@) ==> r is None,
    {
        proof {
            use_type_invariant(&*self);
            lemma_sorted_distinct(self.entries@);
        }
        let mut e: Vec<(String, V)> = Vec::new();
        std::mem::swap(&mut e, &mut self.entries);
        let ghost s = e@;
        proof {
            lemma_entries_map(s, k@);
            assert(names_sorted(s));
        }
        let mut i: usize = 0;
        while i < e.len() && compare_names(e[i].0.as_str(), k.as_str()) != 0
            invariant
                e@ == s,
                names_distinct(s),
                i <= s.len(),
                forall|j: int| 0 <= j < i ==> s[j].0@ != k@,
            decreases e.len() - i,
        {
            i = i + 1;
        }
        let found = i < e.len();
        if !found {
            i = 0;
            while i < e.len() && compare_names(e[i].0.as_str(), k.as_str()) < 0
                invariant
                    e@ == s,
                    i <= s.len(),
                    forall|j: int| 0 <= j < i ==> chars_lt(#[trigger] s[j].0@, k@),
                decreases e.len() - i,
            {
                i = i + 1;
            }
        }
        let r = if found {
            let old_entry = e.remove(i);
            e.insert(i, (k, v));
            proof {
                let t = e@;
                assert(t =~= s.update(i as int, t[i as int]));
                assert(names_sorted(t)) by {
                    assert forall|a: int, b: int| 0 <= a < b < t.len() implies chars_lt(
                        t[a].0@,
                        t[b].0@,
                    ) by {
                        assert(t[a].0@ == s[a].0@ && t[b].0@ == s[b].0@);
                    }
                }
                assert(names_distinct(t)) by {
                    assert forall|a: int, b: int| 0 <= a < b < t.len() implies t[a].0@
                        != t[b].0@ by {
                        assert(t[a].0@ == s[a].0@ && t[b].0@ == s[b].0@);
                    }
                }
                assert forall|q: Seq<char>| #[trigger]
                    entries_map(t).contains_key(q) <==> entries_map(s).insert(k@, v).contains_key(
                        q,
                    ) by {
                    lemma_entries_map(t, q);
                    lemma_entries_map(s, q);
                    if exists|j: int| 0 <= j < s.len() && s[j].0@ == q {
                        let j = choose|j: int| 0 <= j < s.len() && s[j].0@ == q;
                        assert(t[j].0@ == s[j].0@);
                    }
                }
                assert forall|q: Seq<char>| entries_map(t).contains_key(q) implies entries_map(t)[q]
                    == entries_map(s).insert(k@, v)[q] by {
                    lemma_entries_map(t, q);
                    lemma_entries_map(s, q);
                }
                assert(entries_map(t) =~= entries_map(s).insert(k@, v));
            }
            Some(old_entry.1)
        } else {
            e.insert(i, (k, v));
            proof {
                let t = e@;
                assert(t =~= s.insert(i as int, t[i as int]));
                assert forall|j: int| 0 <= j < s.len() implies s[j].0@ != t[i as int].0@ by {}
                if i < s.len() {
                    lemma_chars_lt_trichotomy(k@, s[i as int].0@);
                }
                assert(names_sorted(t)) by {
                    assert forall|a: int, b: int| 0 <= a < b < t.len() implies chars_lt(
                        t[a].0@,
                        t[b].0@,
                    ) by {
                        if b < i {
                            assert(t[a] == s[a] && t[b] == s[b]);
                        } else if b == i {
                            assert(t[a] == s[a]);
                        } else if a < i {
                            assert(t[a] == s[a] && t[b] == s[b - 1]);
                            if b - 1 > i {
                                lemma_chars_lt_transitive(k@, s[i as int].0@, s[b - 1].0@);
                            }
                            lemma_chars_lt_transitive(s[a].0@, k@, s[b - 1].0@);
                        } else if a == i {
                            assert(t[b] == s[b - 1]);
                            if b - 1 > i {
                                lemma_chars_lt_transitive(k@, s[i as int].0@, s[b - 1].0@);
                            }
                        } else {
                            assert(t[a] == s[a - 1] && t[b] == s[b - 1]);
                        }
                    }
                }
                assert(names_distinct(t)) by {
                    assert forall|a: int, b: int| 0 <= a < b < t.len() implies t[a].0@
                        != t[b].0@ by {
                        if b < i {
                            assert(t[a] == s[a] && t[b] == s[b]);
                        } else if b == i {
                            assert(t[a] == s[a]);
                        } else if a < i {
                            assert(t[a] == s[a] && t[b] == s[b - 1]);
                        } else if a == i {
                            assert(t[b] == s[b - 1]);
                        } else {
                            assert(t[a] == s[a - 1] && t[b] == s[b - 1]);
                        }
                    }
                }
                assert forall|q: Seq<char>| #[trigger]
                    entries_map(t).contains_key(q) <==> entries_map(s).insert(k@, v).contains_key(
                        q,
                    ) by {
                    lemma_entries_map(t, q);
                    lemma_entries_map(s, q);
                    if exists|j: int| 0 <= j < s.len() && s[j].0@ == q {
                        let j = choose|j: int| 0 <= j < s.len() && s[j].0@ == q;
                        if j < i {
                            assert(t[j] == s[j]);
                        } else {
                            assert(t[j + 1] == s[j]);
                        }
                    }
                    if exists|j: int| 0 <= j < t.len() && t[j].0@ == q {
                        let j = choose|j: int| 0 <= j < t.len() && t[j].0@ == q;
                        if j < i {
                            assert(t[j] == s[j]);
                        } else if j > i {
                            assert(t[j] == s[j - 1]);
                        }
                    }
                }
                assert forall|q: Seq<char>| entries_map(t).contains_key(q) implies entries_map(t)[q]
                    == entries_map(s).insert(k@, v)[q] by {
                    lemma_entries_map(t, q);
                    lemma_entries_map(s, q);
                    let j = choose|j: int| 0 <= j < t.len() && t[j].0@ == q;
                    if j < i {
                        assert(t[j] == s[j]);
                    } else if j > i {
                        assert(t[j] == s[j - 1]);
                    }
                }
                assert(entries_map(t) =~= entries_map(s).insert(k@, v));
            }
            None
        };
        self.entries = e;
        r
    }

    /// The entries of the map, sorted by name.
    pub fn entries(&self) -> (r: &Vec<(String, V)>)
        ensures
            names_sorted(r@),
            names_distinct(r@),
            self@ == entries_map(r@),
    {
        proof {
            use_type_invariant(self);
            lemma_sorted_distinct(self.entries@);
        }
        &self.entries
    }
}

impl<V> Default for NameMap<V> {
    fn default() -> (r: Self)
        ensures
            r@ == Map::<Seq<char>, V>::empty(),
    {
        NameMap::new()
    }
}

impl<V: Clone> Clone for NameMap<V> {
    /// Clones every entry; the clone holds the same names, each with a clone
    /// of its value.
    fn clone(&self) -> (r: Self)
        ensures
            r@.dom() == self@.dom(),
            forall|k: Seq<char>| #[trigger] self@.contains_key(k) ==> cloned(self@[k], r@[k]),
    {
        proof {
            use_type_invariant(self);
            lemma_sorted_distinct(self.entries@);
        }
        let mut out: Vec<(String, V)> = Vec::new();
        let mut i: usize = 0;
        while i < self.entries.len()
            invariant
                i <= self.entries@.len(),
                out@.len() == i,
                names_distinct(self.entries@),
                forall|j: int|
                    0 <= j < i ==> (#[trigger] out@[j]).0@ == self.entries@[j].0@ && cloned(
                        self.entries@[j].1,
                        out@[j].1,
                    ),
            decreases self.entries.len() - i,
        {
            let k = self.entries[i].0.clone();
            let v = self.entries[i].1.clone();
            let ghost pair = (k, v);
            out.push((k, v));
            proof {
                assert(out@[i as int] == pair);
            }
            i = i + 1;
        }
        let ghost s = self.entries@;
        let ghost t = out@;
        proof {
            assert(names_distinct(t)) by {
                assert forall|a: int, b: int| 0 <= a < b < t.len() implies t[a].0@ != t[b].0@ by {
                    assert(t[a].0@ == s[a].0@ && t[b].0@ == s[b].0@);
                }
            }
            assert forall|q: Seq<char>| #[trigger]
                entries_map(t).contains_key(q) == entries_map(s).contains_key(q) by {
                lemma_entries_map(t, q);
                lemma_entries_map(s, q);
                if exists|j: int| 0 <= j < s.len() && s[j].0@ == q {
                    let j = choose|j: int| 0 <= j < s.len() && s[j].0@ == q;
                    assert(t[j].0@ == q);
                }
                if exists|j: int| 0 <= j < t.len() && t[j].0@ == q {
                    let j = choose|j: int| 0 <= j < t.len() && t[j].0@ == q;
                    assert(s[j].0@ == q);
                }
            }
            assert(entries_map(t).dom() =~= entries_map(s).dom());
            assert forall|q: Seq<char>| #[trigger] entries_map(s).contains_key(q) implies cloned(
                entries_map(s)[q],
                entries_map(t)[q],
            ) by {
                lemma_entries_map(t, q);
                lemma_entries_map(s, q);
                let j = choose|j: int| 0 <= j < s.len() && s[j].0@ == q;
                assert(t[j].0@ == q);
            }
        }
        NameMap { entries: out }
    }
}

} // verus!
