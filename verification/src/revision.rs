//! Document revisions.
//!
//! A CouchDB document revision comprises a **sequence number** and an **MD5
//! digest**, written as `42-1234567890abcdef1234567890abcdef`: the number in
//! decimal, a hyphen, and the digest in 32 hexadecimal digits.

use vstd::prelude::*;
use vstd::string::*;
use crate::error::Error;
use crate::docid::string_of;
use crate::numeric::{
    all_hex,
    all_hex_range,
    decimal,
    decimal_string,
    hex_fixed,
    hex_value,
    lemma_parse_decimal,
    lemma_parse_hex32,
    parse_hex32,
    parse_hex32_spec,
    parse_u64,
    parse_u64_spec,
    push_hex_fixed,
};
use crate::text::{chars_of, find_char, first_of, lemma_first_of, lemma_first_of_at, push_char};

verus! {

/// What a revision string stands for: the sequence number and the digest, or
/// `None` where the string is not a revision.
///
/// The string must hold a hyphen; before the first hyphen stands a nonzero
/// decimal number that fits in a `u64` (as `u64::from_str_radix` reads it,
/// so an optional `+` may lead), and after it exactly 32 hexadecimal digits,
/// in either case.
pub open spec fn parse_revision(s: Seq<char>) -> Option<(u64, u128)> {
    let k = first_of(s, '-');
    if k < s.len() {
        match (parse_u64_spec(s.take(k)), parse_hex32_spec(s.skip(k + 1))) {
            (Some(n), Some(d)) => if n > 0 {
                Some((n, d))
            } else {
                None
            },
            _ => None,
        }
    } else {
        None
    }
}

/// The text of a revision: the number in decimal, a hyphen, and the digest
/// in 32 lower-case hexadecimal digits.
pub open spec fn revision_text(v: (u64, u128)) -> Seq<char> {
    decimal(v.0 as nat) + seq!['-'] + hex_fixed(v.1 as nat, 32)
}

/// What `uuid::Uuid::parse_str` makes of a string, as the 128-bit number of
/// the UUID (`Uuid::as_u128`), or `None` where it refuses the string.
pub uninterp spec fn uuid_parse_value(s: Seq<char>) -> Option<u128>;

/// Parses a UUID with `uuid::Uuid::parse_str` and gives its 128-bit number,
/// the first byte the most significant (`Uuid::as_u128`).
///
/// The contract names the result for every string. It states it only for
/// strings of hexadecimal digits, as the crate's parser shows it: those of 32
/// digits are read as one number, and no other length is accepted, since the
/// other forms (hyphenated, braced, URN) hold characters that are not
/// hexadecimal digits. What it makes of those other forms is left unsaid.
#[verifier::external_body]
pub(crate) fn uuid_parse(s: &str) -> (r: Option<u128>)
    ensures
        r == uuid_parse_value(s@),
        all_hex(s@) ==> (r is Some <==> s@.len() == 32),
        all_hex(s@) && s@.len() == 32 ==> r == Some(hex_value(s@) as u128),
{
    match uuid::Uuid::parse_str(s) {
        Ok(u) => Some(u.as_u128()),
        Err(_) => None,
    }
}

/// Writes a UUID in its simple form with `uuid::Uuid::simple`: 32 lower-case
/// hexadecimal digits, the most significant first.
#[verifier::external_body]
pub(crate) fn uuid_simple_text(d: u128) -> (r: String)
    ensures
        r@ == hex_fixed(d as nat, 32),
{
    uuid::Uuid::from_u128(d).simple().to_string()
}

/// Reads a revision string, the digest with the `uuid` crate.
fn parse_revision_with_uuid(s: &str) -> (r: Option<(u64, u128)>)
    ensures
        r == parse_revision(s@),
{
    let v = chars_of(s);
    let k = find_char(&v, '-');
    proof {
        lemma_first_of(v@, '-');
    }
    if k == v.len() {
        return None;
    }
    let n = parse_u64(&v, 0, k);
    let digest = string_of(&v, k + 1);
    let d = uuid_parse(digest.as_str());
    let hex = all_hex_range(&v, k + 1, v.len());
    proof {
        assert(v@.subrange(0, k as int) =~= v@.take(k as int));
        assert(v@.subrange(k + 1, v.len() as int) =~= v@.skip(k + 1));
    }
    match (n, d) {
        (Some(n), Some(d)) => {
            if n > 0 && hex {
                Some((n, d))
            } else {
                None
            }
        },
        _ => None,
    }
}

/// Reads a revision string, the digest as 32 hexadecimal digits read by the
/// library itself, as an MD5 hash is read.
pub(crate) fn parse_revision_parts(s: &str) -> (r: Option<(u64, u128)>)
    ensures
        r == parse_revision(s@),
{
    let v = chars_of(s);
    let k = find_char(&v, '-');
    proof {
        lemma_first_of(v@, '-');
    }
    if k == v.len() {
        return None;
    }
    let n = parse_u64(&v, 0, k);
    let d = parse_hex32(&v, k + 1, v.len());
    proof {
        assert(v@.subrange(0, k as int) =~= v@.take(k as int));
        assert(v@.subrange(k + 1, v.len() as int) =~= v@.skip(k + 1));
    }
    match (n, d) {
        (Some(n), Some(d)) => {
            if n > 0 {
                Some((n, d))
            } else {
                None
            }
        },
        _ => None,
    }
}

/// Writes the text of a revision.
pub(crate) fn revision_string(n: u64, d: u128) -> (r: String)
    ensures
        r@ == revision_text((n, d)),
{
    let mut s = decimal_string(n as u128);
    push_char(&mut s, '-');
    push_hex_fixed(&mut s, d, 32);
    proof {
        assert(s@ =~= revision_text((n, d)));
    }
    s
}

/// Reading the text of a revision gives the revision back.
pub proof fn law_revision_text_roundtrip(v: (u64, u128))
    requires
        v.0 > 0,
    ensures
        parse_revision(revision_text(v)) == Some(v),
{
    let a = decimal(v.0 as nat);
    let b = hex_fixed(v.1 as nat, 32);
    let s = revision_text(v);
    lemma_parse_decimal(v.0);
    lemma_parse_hex32(v.1);
    assert forall|j: int| 0 <= j < a.len() implies s[j] != '-' by {
        assert(s[j] == a[j]);
        if a[j] == '-' {
            assert(a.contains('-'));
        }
    }
    assert(s[a.len() as int] == '-');
    lemma_first_of_at(s, '-', a.len() as int);
    assert(s.take(a.len() as int) =~= a);
    assert(s.skip(a.len() as int + 1) =~= b);
}

/// A document revision.
///
/// A revision is read from a string by `parse` (or `FromStr`), and written
/// back by `to_string`. Two revisions are equal when their numbers and digests
/// are, so the case of the digest's hexadecimal digits does not matter.
#[derive(Clone, Copy, Debug, Eq, Hash, PartialEq, Structural)]
pub struct Revision {
    sequence_number: u64,
    digest: u128,
}

impl View for Revision {
    type V = (u64, u128);

    /// The sequence number and the digest.
    closed spec fn view(&self) -> (u64, u128) {
        (self.sequence_number, self.digest)
    }
}

impl Revision {
    /// A revision's number is never zero.
    #[verifier::type_invariant]
    spec fn inv(&self) -> bool {
        self.sequence_number >= 1
    }

    /// Constructs a revision from a string of the form
    /// `42-1234567890abcdef1234567890abcdef`.
    pub fn parse(s: &str) -> (r: Result<Self, Error>)
        ensures
            match parse_revision(s@) {
                Some(v) => r matches Ok(x) && x@ == v,
                None => r matches Err(Error::BadRevision),
            },
    {
        match parse_revision_with_uuid(s) {
            Some((n, d)) => Ok(Revision { sequence_number: n, digest: d }),
            None => Err(Error::BadRevision),
        }
    }

    /// The sequence number: the `42` of `42-1234567890abcdef1234567890abcdef`.
    pub fn sequence_number(&self) -> (r: u64)
        ensures
            r == self@.0,
            r >= 1,
    {
        proof {
            use_type_invariant(self);
        }
        self.sequence_number
    }

    /// The text of the revision, with the digest in lower case.
    pub fn to_string(&self) -> (r: String)
        ensures
            r@ == revision_text(self@),
            parse_revision(r@) == Some(self@),
    {
        proof {
            use_type_invariant(self);
            law_revision_text_roundtrip(self@);
        }
        let mut s = decimal_string(self.sequence_number as u128);
        push_char(&mut s, '-');
        let d = uuid_simple_text(self.digest);
        s.append(d.as_str());
        proof {
            assert(s@ =~= revision_text(self@));
        }
        s
    }
}

impl std::str::FromStr for Revision {
    type Err = Error;

    fn from_str(s: &str) -> (r: Result<Self, Self::Err>)
        ensures
            match parse_revision(s@) {
                Some(v) => r matches Ok(x) && x@ == v,
                None => r matches Err(Error::BadRevision),
            },
    {
        Revision::parse(s)
    }
}

impl From<Revision> for String {
    fn from(x: Revision) -> (r: String)
        ensures
            r@ == revision_text(x@),
    {
        x.to_string()
    }
}

impl vstd::std_specs::convert::FromSpecImpl<Revision> for String {
    open spec fn obeys_from_spec() -> bool {
        false
    }

    open spec fn from_spec(v: Revision) -> String {
        arbitrary()
    }
}

} // verus!
