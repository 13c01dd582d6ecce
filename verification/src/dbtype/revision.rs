//! MD5 hashes and document revisions as the database types carry them.

use vstd::prelude::*;
use crate::error::Error;
use crate::numeric::{hex_fixed, parse_hex32, parse_hex32_spec, push_hex_fixed};
use crate::revision::{
    law_revision_text_roundtrip, parse_revision, parse_revision_parts, revision_string, revision_text,
};
use crate::text::chars_of;
use std::cmp::Ordering;
use vstd::std_specs::cmp::PartialOrdSpecImpl;

verus! {

/// The number that bytes stand for, the first byte the most significant.
pub open spec fn bytes_value(b: Seq<u8>) -> int
    decreases b.len(),
{
    if b.len() == 0 {
        0
    } else {
        bytes_value(b.drop_last()) * 256 + b.last()
    }
}

/// `256` to the power `k`.
pub open spec fn pow256(k: nat) -> int
    decreases k,
{
    if k == 0 {
        1
    } else {
        256 * pow256((k - 1) as nat)
    }
}

proof fn lemma_pow256_grows(i: nat, j: nat)
    requires
        i <= j,
    ensures
        1 <= pow256(i) <= pow256(j),
    decreases j,
{
    if j > 0 {
        let i2: nat = if i < j {
            i
        } else {
            (j - 1) as nat
        };
        lemma_pow256_grows(i2, (j - 1) as nat);
    }
}

proof fn lemma_pow256_16()
    ensures
        pow256(16) == 0x1_0000_0000_0000_0000_0000_0000_0000_0000,
{
    reveal_with_fuel(pow256, 17);
}

/// An MD5 hash: 16 bytes, held as one 128-bit number whose most significant
/// byte comes first.
///
/// Its text is 32 hexadecimal digits; it is read in either case and written
/// in lower case. Hashes order as their bytes do.
#[derive(Clone, Copy, Debug, Eq, Hash, Ord, PartialEq, PartialOrd, Structural)]
pub struct Md5Hash(u128);

impl View for Md5Hash {
    type V = u128;

    /// The 16 bytes as one number, the first byte the most significant.
    closed spec fn view(&self) -> u128 {
        self.0
    }
}

impl Md5Hash {
    /// Constructs a hash from its 16 bytes.
    pub fn from_bytes(bytes: [u8; 16]) -> (r: Self)
        ensures
            r@ == bytes_value(bytes@),
    {
        let mut acc: u128 = 0;
        let mut i: usize = 0;
        while i < 16
            invariant
                bytes@.len() == 16,
                i <= 16,
                acc == bytes_value(bytes@.take(i as int)),
                acc < pow256(i as nat),
            decreases 16 - i,
        {
            let b = bytes[i];
            proof {
                assert(bytes@.take(i + 1).drop_last() =~= bytes@.take(i as int));
                lemma_pow256_grows((i + 1) as nat, 16);
                lemma_pow256_16();
                assert(acc * 256 + b < pow256((i + 1) as nat));
            }
            acc = acc * 256 + b as u128;
            i = i + 1;
        }
        proof {
            assert(bytes@.take(16) =~= bytes@);
        }
        Md5Hash(acc)
    }

    /// Reads 32 hexadecimal digits, in either case.
    pub fn from_str(s: &str) -> (r: Result<Self, Error>)
        ensures
            match parse_hex32_spec(s@) {
                Some(d) => r matches Ok(x) && x@ == d,
                None => r matches Err(Error::BadMd5Hash),
            },
    {
        let v = chars_of(s);
        proof {
            assert(v@.subrange(0, v.len() as int) =~= s@);
        }
        match parse_hex32(&v, 0, v.len()) {
            Some(d) => Ok(Md5Hash(d)),
            None => Err(Error::BadMd5Hash),
        }
    }

    /// The 32 lower-case hexadecimal digits of the hash.
    pub fn to_string(&self) -> (r: String)
        ensures
            r@ == hex_fixed(self@ as nat, 32),
    {
        let mut s = String::new();
        push_hex_fixed(&mut s, self.0, 32);
        proof {
            assert(s@ =~= hex_fixed(self@ as nat, 32));
        }
        s
    }
}

impl std::str::FromStr for Md5Hash {
    type Err = Error;

    fn from_str(s: &str) -> (r: Result<Self, Self::Err>)
        ensures
            match parse_hex32_spec(s@) {
                Some(d) => r matches Ok(x) && x@ == d,
                None => r matches Err(Error::BadMd5Hash),
            },
    {
        Md5Hash::from_str(s)
    }
}

impl From<Md5Hash> for String {
    fn from(x: Md5Hash) -> (r: String)
        ensures
            r@ == hex_fixed(x@ as nat, 32),
    {
        x.to_string()
    }
}

impl vstd::std_specs::convert::FromSpecImpl<Md5Hash> for String {
    open spec fn obeys_from_spec() -> bool {
        false
    }

    open spec fn from_spec(v: Md5Hash) -> String {
        arbitrary()
    }
}

/// Revision of a document: an update number and an MD5 hash, written as
/// `42-1234567890abcdef1234567890abcdef`.
///
/// Revisions order by their numbers, compared as numbers, and then by their
/// hashes.
#[derive(Clone, Copy, Debug, Eq, Hash, Ord, PartialEq, Structural)]
pub struct Revision {
    number: u64,
    hash: Md5Hash,
}

impl View for Revision {
    type V = (u64, u128);

    /// The update number and the hash.
    closed spec fn view(&self) -> (u64, u128) {
        (self.number, self.hash@)
    }
}

impl PartialOrd for Revision {
    fn partial_cmp(&self, other: &Self) -> (r: Option<Ordering>) {
        if self.number < other.number {
            Some(Ordering::Less)
        } else if self.number > other.number {
            Some(Ordering::Greater)
        } else if self.hash.0 < other.hash.0 {
            Some(Ordering::Less)
        } else if self.hash.0 > other.hash.0 {
            Some(Ordering::Greater)
        } else {
            Some(Ordering::Equal)
        }
    }
}

impl PartialOrdSpecImpl for Revision {
    open spec fn obeys_partial_cmp_spec() -> bool {
        true
    }

    /// Revisions compare by their numbers, as numbers, and then by their
    /// hashes.
    open spec fn partial_cmp_spec(&self, other: &Self) -> Option<Ordering> {
        if self@.0 < other@.0 {
            Some(Ordering::Less)
        } else if self@.0 > other@.0 {
            Some(Ordering::Greater)
        } else if self@.1 < other@.1 {
            Some(Ordering::Less)
        } else if self@.1 > other@.1 {
            Some(Ordering::Greater)
        } else {
            Some(Ordering::Equal)
        }
    }
}

impl Revision {
    /// A revision's number is never zero.
    #[verifier::type_invariant]
    spec fn inv(&self) -> bool {
        self.number >= 1
    }

    /// Constructs a revision from a string such as
    /// `42-1234567890abcdef1234567890abcdef`: exactly one hyphen, a nonzero
    /// update number before it and a 32-digit hash after it.
    pub fn parse(s: &str) -> (r: Result<Self, Error>)
        ensures
            match parse_revision(s@) {
                Some(v) => r matches Ok(x) && x@ == v,
                None => r matches Err(Error::BadRevision),
            },
    {
        match parse_revision_parts(s) {
            Some((n, d)) => Ok(Revision { number: n, hash: Md5Hash(d) }),
            None => Err(Error::BadRevision),
        }
    }

    /// The update number: the `999` of `999-1234567890abcdef1234567890abcdef`.
    pub fn update_number(&self) -> (r: u64)
        ensures
            r == self@.0,
            r >= 1,
    {
        proof {
            use_type_invariant(self);
        }
        self.number
    }

    /// The text of the revision, with the hash in lower case.
    pub fn to_string(&self) -> (r: String)
        ensures
            r@ == revision_text(self@),
            parse_revision(r@) == Some(self@),
    {
        proof {
            use_type_invariant(self);
            law_revision_text_roundtrip(self@);
        }
        revision_string(self.number, self.hash.0)
    }
}

impl std::str::FromStr for Revision {
    type Err = Error;

    fn from_str(s: &str) -> (r: Result<Self, Self::Err>)
        ensures
            match parse_revision(s@) {
                Some(v) => r matches Ok(x) && x@ == v,
                None => r matches Err(Error::BadRevision),
            },
    {
        Revision::parse(s)
    }
}

impl From<Revision> for String {
    fn from(x: Revision) -> (r: String)
        ensures
            r@ == revision_text(x@),
    {
        x.to_string()
    }
}

impl vstd::std_specs::convert::FromSpecImpl<Revision> for String {
    open spec fn obeys_from_spec() -> bool {
        false
    }

    open spec fn from_spec(v: Revision) -> String {
        arbitrary()
    }
}

} // verus!
