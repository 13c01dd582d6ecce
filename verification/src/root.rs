//! Version strings, as the CouchDB server's root resource reports them.

use vstd::prelude::*;
use vstd::string::*;
use crate::numeric::{all_digits, decimal, is_digit, lemma_parse_decimal, parse_u64, parse_u64_spec};
use crate::dbtype::fields::{required, FieldError, Sealed};
use crate::text::chars_of;

verus! {

/// The length of the run of decimal digits that `s` begins with.
pub open spec fn digit_run(s: Seq<char>) -> int
    decreases s.len(),
{
    if s.len() == 0 || !is_digit(s[0]) {
        0
    } else {
        1 + digit_run(s.drop_first())
    }
}

/// The run of digits ends at the first character that is not a digit, or at
/// the end.
pub proof fn lemma_digit_run(s: Seq<char>)
    ensures
        0 <= digit_run(s) <= s.len(),
        forall|j: int| 0 <= j < digit_run(s) ==> is_digit(s[j]),
        digit_run(s) < s.len() ==> !is_digit(s[digit_run(s)]),
    decreases s.len(),
{
    if s.len() > 0 && is_digit(s[0]) {
        lemma_digit_run(s.drop_first());
        assert forall|j: int| 0 <= j < digit_run(s) implies is_digit(s[j]) by {
            if j > 0 {
                assert(s[j] == s.drop_first()[j - 1]);
            }
        }
    }
}

/// The pieces of `s` between the characters that are not decimal digits, as
/// `str::split` with a predicate gives them: one more piece than there are
/// such characters, each piece possibly empty.
pub open spec fn digit_pieces(s: Seq<char>) -> Seq<Seq<char>>
    decreases s.len(),
{
    let k = digit_run(s);
    if k >= s.len() {
        seq![s]
    } else {
        proof {
            lemma_digit_run(s);
        }
        seq![s.take(k)] + digit_pieces(s.skip(k + 1))
    }
}

/// The major, minor and patch numbers of a version string: its first three
/// pieces of digits, each of which must be a number that fits in a `u64`.
pub open spec fn version_triple(s: Seq<char>) -> Option<(u64, u64, u64)> {
    let p = digit_pieces(s);
    if p.len() >= 3 {
        match (parse_u64_spec(p[0]), parse_u64_spec(p[1]), parse_u64_spec(p[2])) {
            (Some(a), Some(b), Some(c)) => Some((a, b, c)),
            _ => None,
        }
    } else {
        None
    }
}

proof fn lemma_digit_pieces_step(s: Seq<char>)
    ensures
        digit_pieces(s).len() >= 1,
        digit_pieces(s)[0] == s.take(digit_run(s)),
        digit_run(s) < s.len() ==> digit_pieces(s).drop_first() == digit_pieces(
            s.skip(digit_run(s) + 1),
        ),
        digit_run(s) >= s.len() ==> digit_pieces(s).len() == 1,
{
    lemma_digit_run(s);
    let k = digit_run(s);
    if k >= s.len() {
        assert(s.take(k) =~= s);
    } else {
        assert(digit_pieces(s).drop_first() =~= digit_pieces(s.skip(k + 1)));
    }
}

/// Finds the end of the run of digits that starts at `from`.
fn digit_run_end(v: &Vec<char>, from: usize) -> (r: usize)
    requires
        from <= v.len(),
    ensures
        from <= r <= v.len(),
        r - from == digit_run(v@.skip(from as int)),
{
    let mut i = from;
    while i < v.len() && ('0' <= v[i] && v[i] <= '9')
        invariant
            from <= i <= v.len(),
            forall|j: int| from <= j < i ==> is_digit(v@[j]),
        decreases v.len() - i,
    {
        i = i + 1;
    }
    proof {
        let s = v@.skip(from as int);
        lemma_digit_run_at(s, i - from);
    }
    i
}

proof fn lemma_digit_run_at(s: Seq<char>, k: int)
    requires
        0 <= k <= s.len(),
        forall|j: int| 0 <= j < k ==> is_digit(s[j]),
        k < s.len() ==> !is_digit(s[k]),
    ensures
        digit_run(s) == k,
    decreases s.len(),
{
    if s.len() > 0 && is_digit(s[0]) {
        assert forall|j: int| 0 <= j < k - 1 implies is_digit(s.drop_first()[j]) by {
            assert(s.drop_first()[j] == s[j + 1]);
        }
        lemma_digit_run_at(s.drop_first(), k - 1);
    }
}

/// The text `a.b.c` of a version with the given major, minor and patch
/// numbers.
pub open spec fn version_text(a: u64, b: u64, c: u64) -> Seq<char> {
    decimal(a as nat) + seq!['.'] + decimal(b as nat) + seq!['.'] + decimal(c as nat)
}

proof fn lemma_digit_run_decimal(n: u64, t: Seq<char>)
    requires
        t.len() == 0 || !is_digit(t[0]),
    ensures
        digit_run(decimal(n as nat) + t) == decimal(n as nat).len(),
        (decimal(n as nat) + t).take(decimal(n as nat).len() as int) == decimal(n as nat),
        t.len() > 0 ==> (decimal(n as nat) + t).skip(decimal(n as nat).len() as int + 1) == t.drop_first(),
{
    let d = decimal(n as nat);
    let s = d + t;
    lemma_parse_decimal(n);
    assert forall|j: int| 0 <= j < d.len() implies is_digit(s[j]) by {
        assert(s[j] == d[j]);
    }
    if t.len() > 0 {
        assert(s[d.len() as int] == t[0]);
        assert(s.skip(d.len() as int + 1) =~= t.drop_first());
    }
    lemma_digit_run_at(s, d.len() as int);
    assert(s.take(d.len() as int) =~= d);
}

/// Reading the version `a.b.c`, followed by anything that does not begin
/// with a digit, gives its three numbers back.
pub proof fn law_version_triple(a: u64, b: u64, c: u64, rest: Seq<char>)
    requires
        rest.len() == 0 || !is_digit(rest[0]),
    ensures
        version_triple(version_text(a, b, c) + rest) == Some((a, b, c)),
{
    let dc = decimal(c as nat);
    let t2 = dc + rest;
    let t1 = decimal(b as nat) + (seq!['.'] + t2);
    let s = decimal(a as nat) + (seq!['.'] + t1);
    assert(version_text(a, b, c) + rest =~= s);
    lemma_digit_run_decimal(a, seq!['.'] + t1);
    lemma_digit_run_decimal(b, seq!['.'] + t2);
    lemma_digit_run_decimal(c, rest);
    assert((seq!['.'] + t1).drop_first() =~= t1);
    assert((seq!['.'] + t2).drop_first() =~= t2);
    lemma_parse_decimal(a);
    lemma_parse_decimal(b);
    lemma_parse_decimal(c);
    lemma_digit_pieces_step(s);
    lemma_digit_pieces_step(t1);
    lemma_digit_pieces_step(t2);
    let p = digit_pieces(s);
    assert(p[1] == digit_pieces(t1)[0]);
    assert(p.drop_first().drop_first() == digit_pieces(t2));
    assert(p[2] == digit_pieces(t2)[0]);
}

/// `Version` is a string that names a version.
///
/// It thinly wraps a string, which `triple` reads as major, minor and patch
/// numbers where it can.
#[derive(Clone, Debug, Default, Eq, Hash, PartialEq)]
pub struct Version(String);

impl View for Version {
    type V = Seq<char>;

    /// The version string.
    closed spec fn view(&self) -> Seq<char> {
        self.0@
    }
}

impl Version {
    /// Reads the major, minor, and patch numbers from the version string.
    ///
    /// The string is split at each character that is not a decimal digit; the
    /// first three pieces must all be numbers. Whatever follows them does not
    /// matter, so `1.6.1_1` gives `(1, 6, 1)`.
    pub fn triple(&self) -> (r: Option<(u64, u64, u64)>)
        ensures
            r == version_triple(self@),
    {
        let v = chars_of(self.0.as_str());
        let ghost s = v@;
        let e0 = digit_run_end(&v, 0);
        proof {
            assert(s.skip(0) =~= s);
            lemma_digit_pieces_step(s);
            assert(v@.subrange(0, e0 as int) =~= s.take(e0 as int));
        }
        let a = parse_u64(&v, 0, e0);
        if e0 == v.len() {
            return None;
        }
        let p1 = e0 + 1;
        let e1 = digit_run_end(&v, p1);
        let ghost s1 = s.skip(p1 as int);
        proof {
            lemma_digit_pieces_step(s1);
            assert(v@.subrange(p1 as int, e1 as int) =~= s1.take(e1 - p1));
        }
        let b = parse_u64(&v, p1, e1);
        if e1 == v.len() {
            return None;
        }
        let p2 = e1 + 1;
        let e2 = digit_run_end(&v, p2);
        let ghost s2 = s.skip(p2 as int);
        proof {
            assert(s1.skip(e1 - p1 + 1) =~= s2);
            lemma_digit_pieces_step(s2);
            assert(v@.subrange(p2 as int, e2 as int) =~= s2.take(e2 - p2));
            assert(digit_pieces(s)[1] == digit_pieces(s1)[0]);
            assert(digit_pieces(s1).drop_first() == digit_pieces(s2));
            assert(digit_pieces(s)[2] == digit_pieces(s2)[0]);
        }
        let c = parse_u64(&v, p2, e2);
        match (a, b, c) {
            (Some(a), Some(b), Some(c)) => Some((a, b, c)),
            _ => None,
        }
    }

    /// The version string, as `Display` writes it.
    pub fn to_string(&self) -> (r: String)
        ensures
            r@ == self@,
    {
        self.0.clone()
    }
}

impl AsRef<str> for Version {
    fn as_ref(&self) -> (r: &str)
        ensures
            r@ == self@,
    {
        self.0.as_str()
    }
}

impl From<Version> for String {
    fn from(v: Version) -> (r: String)
        ensures
            r@ == v@,
    {
        v.0
    }
}

impl vstd::std_specs::convert::FromSpecImpl<Version> for String {
    open spec fn obeys_from_spec() -> bool {
        false
    }

    open spec fn from_spec(v: Version) -> String {
        arbitrary()
    }
}

impl From<String> for Version {
    fn from(s: String) -> (r: Self)
        ensures
            r@ == s@,
    {
        Version(s)
    }
}

impl vstd::std_specs::convert::FromSpecImpl<String> for Version {
    open spec fn obeys_from_spec() -> bool {
        false
    }

    open spec fn from_spec(v: String) -> Self {
        arbitrary()
    }
}

impl From<&str> for Version {
    fn from(s: &str) -> (r: Self)
        ensures
            r@ == s@,
    {
        Version(s.to_string())
    }
}

impl vstd::std_specs::convert::FromSpecImpl<&str> for Version {
    open spec fn obeys_from_spec() -> bool {
        false
    }

    open spec fn from_spec(v: &str) -> Self {
        arbitrary()
    }
}

/// The `uuid` crate's UUID type, carried through as it is.
#[verifier::external_type_specification]
#[verifier::external_body]
pub struct ExUuid(uuid::Uuid);

/// `Clone` of the `uuid` crate's UUID type: the type derives `Clone` and
/// `Copy`, so a clone is the same UUID.
pub assume_specification[ <uuid::Uuid as Clone>::clone ](u: &uuid::Uuid) -> (r: uuid::Uuid)
    ensures
        r == *u,
;

/// `Vendor` contains information about a CouchDB server vendor.
#[derive(Clone, Debug, Default, Eq, Hash, PartialEq)]
pub struct Vendor {
    /// Name of the vendor.
    pub name: String,
    /// Version of the vendor's server.
    pub version: Version,
    _private_guard: Sealed,
}

impl View for Vendor {
    type V = (String, Version);

    /// The name and the version.
    closed spec fn view(&self) -> (String, Version) {
        (self.name, self.version)
    }
}

impl Vendor {
    /// Assembles vendor information from the fields that its JSON object held;
    /// `name` and `version` are required, checked in that order.
    pub fn from_fields(name: Option<String>, version: Option<Version>) -> (r: Result<
        Self,
        FieldError,
    >)
        ensures
            name is None ==> r == Err::<Self, FieldError>(FieldError::MissingField("name")),
            name is Some && version is None ==> r == Err::<Self, FieldError>(
                FieldError::MissingField("version"),
            ),
            name is Some && version is Some ==> (r matches Ok(x) && x@ == (name->0, version->0)),
    {
        let name = required(name, "name")?;
        let version = required(version, "version")?;
        Ok(Vendor { name, version, _private_guard: Sealed })
    }
}

/// `Root` contains the content of a CouchDB server's root resource, which an
/// application obtains by sending a request to GET `/`.
#[derive(Clone, Debug, Default, Eq, Hash, PartialEq)]
pub struct Root {
    /// The welcome message.
    pub couchdb: String,
    /// The server's UUID.
    pub uuid: uuid::Uuid,
    /// The vendor information.
    pub vendor: Vendor,
    /// The server's version.
    pub version: Version,
    _private_guard: Sealed,
}

impl View for Root {
    type V = (String, uuid::Uuid, Vendor, Version);

    /// The welcome message, the UUID, the vendor and the version.
    closed spec fn view(&self) -> (String, uuid::Uuid, Vendor, Version) {
        (self.couchdb, self.uuid, self.vendor, self.version)
    }
}

impl Root {
    /// Assembles the root resource from the fields that its JSON object held;
    /// `couchdb`, `uuid`, `vendor` and `version` are required, checked in that
    /// order.
    pub fn from_fields(
        couchdb: Option<String>,
        uuid: Option<uuid::Uuid>,
        vendor: Option<Vendor>,
        version: Option<Version>,
    ) -> (r: Result<Self, FieldError>)
        ensures
            couchdb is None ==> r == Err::<Self, FieldError>(FieldError::MissingField("couchdb")),
            couchdb is Some && uuid is None ==> r == Err::<Self, FieldError>(
                FieldError::MissingField("uuid"),
            ),
            couchdb is Some && uuid is Some && vendor is None ==> r == Err::<Self, FieldError>(
                FieldError::MissingField("vendor"),
            ),
            couchdb is Some && uuid is Some && vendor is Some && version is None ==> r == Err::<
                Self,
                FieldError,
            >(FieldError::MissingField("version")),
            couchdb is Some && uuid is Some && vendor is Some && version is Some ==> (r matches Ok(
                x,
            ) && x@ == (couchdb->0, uuid->0, vendor->0, version->0)),
    {
        let couchdb = required(couchdb, "couchdb")?;
        let uuid = required(uuid, "uuid")?;
        let vendor = required(vendor, "vendor")?;
        let version = required(version, "version")?;
        Ok(Root { couchdb, uuid, vendor, version, _private_guard: Sealed })
    }
}

} // verus!
