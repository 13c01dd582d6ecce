//! Percent-encoding of URL path segments, as the `url` crate performs it,
//! stated over the UTF-8 bytes of a string.

use vstd::prelude::*;
use vstd::string::*;
use vstd::utf8::*;
use url::percent_encoding;

verus! {

broadcast use vstd::utf8::group_utf8_lib;

/// Bytes that the `url` crate's `PATH_SEGMENT_ENCODE_SET` escapes: controls,
/// non-ASCII bytes, and `space " # < > ` ? { } % /`.
pub open spec fn in_path_segment_set(b: u8) -> bool {
    ||| b < 0x20
    ||| b > 0x7e
    ||| b == 0x20
    ||| b == 0x22
    ||| b == 0x23
    ||| b == 0x3c
    ||| b == 0x3e
    ||| b == 0x60
    ||| b == 0x3f
    ||| b == 0x7b
    ||| b == 0x7d
    ||| b == 0x25
    ||| b == 0x2f
}

/// Upper-case hexadecimal digit for a value below 16.
pub open spec fn hex_digit_upper(n: int) -> char {
    if n < 10 {
        (0x30 + n) as char
    } else {
        (0x41 + n - 10) as char
    }
}

/// Value of an ASCII hexadecimal digit (either case).
pub open spec fn hex_value(b: u8) -> Option<int> {
    if 0x30 <= b <= 0x39 {
        Some(b - 0x30)
    } else if 0x41 <= b <= 0x46 {
        Some(b - 0x41 + 10)
    } else if 0x61 <= b <= 0x66 {
        Some(b - 0x61 + 10)
    } else {
        None
    }
}

/// Percent-encoding of one byte: `%XY` for a byte in the set, else the byte.
pub open spec fn encode_byte(b: u8) -> Seq<char> {
    if in_path_segment_set(b) {
        seq!['%', hex_digit_upper(b as int / 16), hex_digit_upper(b as int % 16)]
    } else {
        seq![b as char]
    }
}

/// Percent-encoding of a byte sequence.
pub open spec fn encode_bytes(bs: Seq<u8>) -> Seq<char>
    decreases bs.len(),
{
    if bs.len() == 0 {
        seq![]
    } else {
        encode_byte(bs[0]) + encode_bytes(bs.drop_first())
    }
}

/// Percent-decoding of a byte sequence: `%` followed by two hexadecimal digits
/// stands for one byte; every other byte, a lone `%` included, stands for
/// itself.
pub open spec fn decode_bytes(bs: Seq<u8>) -> Seq<u8>
    decreases bs.len(),
{
    if bs.len() == 0 {
        seq![]
    } else if bs[0] == 0x25 && bs.len() >= 3 && hex_value(bs[1]) is Some && hex_value(
        bs[2],
    ) is Some {
        seq![(hex_value(bs[1])->0 * 16 + hex_value(bs[2])->0) as u8] + decode_bytes(bs.skip(3))
    } else {
        seq![bs[0]] + decode_bytes(bs.drop_first())
    }
}

/// The percent-encoded form of a path segment.
pub open spec fn encoded_segment(s: Seq<char>) -> Seq<char> {
    encode_bytes(encode_utf8(s))
}

/// The percent-decoded form of a path segment, if its decoded bytes are UTF-8.
pub open spec fn decoded_segment(s: Seq<char>) -> Option<Seq<char>> {
    let d = decode_bytes(encode_utf8(s));
    if valid_utf8(d) {
        Some(decode_utf8(d))
    } else {
        None
    }
}

/// `percent_encoding::percent_encode` with `PATH_SEGMENT_ENCODE_SET`, applied
/// to the UTF-8 bytes of `segment` and written out through `Display`. The
/// contract claims that every byte of the set becomes `%` and two upper-case
/// hexadecimal digits and every other byte is copied as it is.
#[verifier::external_body]
pub(crate) fn url_encode_segment(segment: &str) -> (r: String)
    ensures
        r@ == encoded_segment(segment@),
{
    percent_encoding::percent_encode(segment.as_bytes(), percent_encoding::PATH_SEGMENT_ENCODE_SET).to_string()
}

/// `percent_encoding::percent_decode` followed by `PercentDecode::decode_utf8`.
/// The contract claims that `%` and two hexadecimal digits become one byte,
/// every other byte is copied, and the result is returned exactly when the
/// bytes are well-formed UTF-8.
#[verifier::external_body]
pub(crate) fn url_decode_segment(segment: &str) -> (r: Option<String>)
    ensures
        r is Some <==> decoded_segment(segment@) is Some,
        r matches Some(s) ==> s@ == decoded_segment(segment@)->0,
{
    match percent_encoding::percent_decode(segment.as_bytes()).decode_utf8() {
        Ok(s) => Some(s.into_owned()),
        Err(_) => None,
    }
}

/// Bytes that the `url` crate's `DEFAULT_ENCODE_SET`, the set for whole URL
/// paths, escapes: controls, non-ASCII bytes, and ``space " # < > ` ? { }``.
pub open spec fn in_default_set(b: u8) -> bool {
    ||| b < 0x20
    ||| b > 0x7e
    ||| b == 0x20
    ||| b == 0x22
    ||| b == 0x23
    ||| b == 0x3c
    ||| b == 0x3e
    ||| b == 0x60
    ||| b == 0x3f
    ||| b == 0x7b
    ||| b == 0x7d
}

/// Percent-encoding of one byte with `DEFAULT_ENCODE_SET`.
pub open spec fn encode_byte_default(b: u8) -> Seq<char> {
    if in_default_set(b) {
        seq!['%', hex_digit_upper(b as int / 16), hex_digit_upper(b as int % 16)]
    } else {
        seq![b as char]
    }
}

/// Percent-encoding of a byte sequence with `DEFAULT_ENCODE_SET`.
pub open spec fn encode_bytes_default(bs: Seq<u8>) -> Seq<char>
    decreases bs.len(),
{
    if bs.len() == 0 {
        seq![]
    } else {
        encode_byte_default(bs[0]) + encode_bytes_default(bs.drop_first())
    }
}

/// `percent_encoding::utf8_percent_encode` with `DEFAULT_ENCODE_SET`, written
/// out through `Display`. The contract claims that every UTF-8 byte of the
/// set becomes `%` and two upper-case hexadecimal digits and every other byte
/// is copied as it is.
#[verifier::external_body]
pub(crate) fn url_encode_default(s: &str) -> (r: String)
    ensures
        r@ == encode_bytes_default(encode_utf8(s@)),
{
    percent_encoding::utf8_percent_encode(s, percent_encoding::DEFAULT_ENCODE_SET).to_string()
}

/// The bytes of a sequence of ASCII characters.
pub open spec fn ascii_bytes(cs: Seq<char>) -> Seq<u8> {
    Seq::new(cs.len(), |i: int| cs[i] as u8)
}

proof fn lemma_hex_digit(n: int)
    requires
        0 <= n < 16,
    ensures
        hex_value(hex_digit_upper(n) as u8) == Some(n),
        hex_digit_upper(n) != '/',
        hex_digit_upper(n) != '%',
        (hex_digit_upper(n) as u32) < 0x80,
{
}

proof fn lemma_encode_byte(b: u8)
    ensures
        is_ascii_chars(encode_byte(b)),
        !encode_byte(b).contains('/'),
        encode_byte(b).len() >= 1,
        decode_bytes(ascii_bytes(encode_byte(b))) == seq![b],
        encode_byte(b)[0] == '%' <==> in_path_segment_set(b),
{
    let e = encode_byte(b);
    if in_path_segment_set(b) {
        lemma_hex_digit(b as int / 16);
        lemma_hex_digit(b as int % 16);
        let a = ascii_bytes(e);
        assert(a[0] == 0x25);
        assert(decode_bytes(a.skip(3)) =~= Seq::<u8>::empty());
        assert(decode_bytes(a) =~= seq![b]);
        assert(!e.contains('/')) by {
            if e.contains('/') {
                let i = choose|i: int| 0 <= i < e.len() && e[i] == '/';
            }
        }
    } else {
        let a = ascii_bytes(e);
        assert(((b as char) as u8) == b);
        assert(a[0] == b);
        assert(decode_bytes(a.drop_first()) =~= Seq::<u8>::empty());
        assert(decode_bytes(a) =~= seq![b]);
    }
}

proof fn lemma_ascii_bytes_concat(a: Seq<char>, b: Seq<char>)
    ensures
        ascii_bytes(a + b) =~= ascii_bytes(a) + ascii_bytes(b),
{
}

proof fn lemma_decode_encoded_byte_then(b: u8, rest: Seq<u8>)
    ensures
        decode_bytes(ascii_bytes(encode_byte(b)) + rest) == seq![b] + decode_bytes(rest),
{
    lemma_encode_byte(b);
    let a = ascii_bytes(encode_byte(b));
    let x = a + rest;
    if in_path_segment_set(b) {
        lemma_hex_digit(b as int / 16);
        lemma_hex_digit(b as int % 16);
        assert(x.skip(3) =~= rest);
        assert(x[0] == 0x25);
    } else {
        assert(((b as char) as u8) == b);
        assert(x.drop_first() =~= rest);
        assert(x[0] == b);
    }
}

proof fn lemma_encode_bytes(bs: Seq<u8>)
    ensures
        is_ascii_chars(encode_bytes(bs)),
        !encode_bytes(bs).contains('/'),
        encode_bytes(bs).len() >= bs.len(),
        decode_bytes(ascii_bytes(encode_bytes(bs))) == bs,
    decreases bs.len(),
{
    if bs.len() == 0 {
        assert(decode_bytes(ascii_bytes(encode_bytes(bs))) =~= bs);
    } else {
        let rest = bs.drop_first();
        lemma_encode_bytes(rest);
        lemma_encode_byte(bs[0]);
        let e0 = encode_byte(bs[0]);
        let er = encode_bytes(rest);
        assert(encode_bytes(bs) == e0 + er);
        lemma_ascii_bytes_concat(e0, er);
        lemma_decode_encoded_byte_then(bs[0], ascii_bytes(er));
        assert(seq![bs[0]] + rest =~= bs);
        assert(!(e0 + er).contains('/')) by {
            if (e0 + er).contains('/') {
                let i = choose|i: int| 0 <= i < (e0 + er).len() && (e0 + er)[i] == '/';
                if i < e0.len() {
                    assert(e0[i] == '/');
                } else {
                    assert(er[i - e0.len()] == '/');
                }
            }
        }
    }
}

proof fn lemma_encode_utf8_len(s: Seq<char>)
    ensures
        encode_utf8(s).len() >= s.len(),
    decreases s.len(),
{
    if s.len() > 0 {
        lemma_encode_utf8_len(s.drop_first());
    }
}

/// The ASCII bytes of an ASCII character sequence are its UTF-8 encoding.
pub proof fn lemma_ascii_encode_utf8(cs: Seq<char>)
    requires
        is_ascii_chars(cs),
    ensures
        encode_utf8(cs) == ascii_bytes(cs),
{
    is_ascii_chars_encode_utf8(cs);
    assert(encode_utf8(cs) =~= ascii_bytes(cs));
}

/// Decoding the percent-encoding of a segment gives the segment back; the
/// encoding holds no slash and is empty exactly when the segment is.
pub proof fn lemma_segment_roundtrip(s: Seq<char>)
    ensures
        decoded_segment(encoded_segment(s)) == Some(s),
        !encoded_segment(s).contains('/'),
        encoded_segment(s).len() == 0 <==> s.len() == 0,
        is_ascii_chars(encoded_segment(s)),
{
    let bs = encode_utf8(s);
    lemma_encode_bytes(bs);
    lemma_encode_utf8_len(s);
    let e = encoded_segment(s);
    lemma_ascii_encode_utf8(e);
    if s.len() == 0 {
        assert(bs =~= Seq::<u8>::empty());
    }
}

proof fn lemma_encode_bytes_plain(bs: Seq<u8>)
    requires
        forall|i: int| 0 <= i < bs.len() ==> !in_path_segment_set(#[trigger] bs[i]),
    ensures
        encode_bytes(bs) =~= Seq::new(bs.len(), |i: int| bs[i] as char),
    decreases bs.len(),
{
    if bs.len() > 0 {
        let rest = bs.drop_first();
        assert forall|i: int| 0 <= i < rest.len() implies !in_path_segment_set(#[trigger] rest[i]) by {
            assert(rest[i] == bs[i + 1]);
        }
        lemma_encode_bytes_plain(rest);
    }
}

/// A segment of ASCII characters that the encode set leaves alone is its own
/// percent-encoding.
pub proof fn lemma_encode_plain(s: Seq<char>)
    requires
        is_ascii_chars(s),
        forall|i: int| 0 <= i < s.len() ==> !in_path_segment_set(#[trigger] s[i] as u8),
    ensures
        encoded_segment(s) == s,
{
    lemma_ascii_encode_utf8(s);
    let bs = ascii_bytes(s);
    assert forall|i: int| 0 <= i < bs.len() implies !in_path_segment_set(#[trigger] bs[i]) by {
        assert(bs[i] == s[i] as u8);
    }
    lemma_encode_bytes_plain(bs);
    assert forall|i: int| 0 <= i < s.len() implies (bs[i] as char) == s[i] by {
        let c = s[i];
        assert((c as u8) as char == c);
    }
    assert(encoded_segment(s) =~= s);
}

} // verus!
