//! Percent-encoding of whole names for URL paths, and its decoding, with an
//! error for every `%` that does not start a valid escape.

use vstd::prelude::*;
use vstd::string::*;
use crate::error::Error;
use crate::numeric::{hex_digit_value, is_hex_digit};
use crate::percent::{
    ascii_bytes,
    encode_byte_default,
    encode_bytes_default,
    hex_digit_upper,
    in_default_set,
    lemma_ascii_encode_utf8,
    url_encode_default,
};
use crate::text::{chars_of, find_char_from, first_of, lemma_first_of, lemma_first_of_at, push_char};
use vstd::utf8::{encode_utf8, is_ascii_chars};

verus! {

/// What the text of one part that follows a `%` decodes to: two hexadecimal
/// digits that stand for an ASCII character, followed by the rest of the part
/// as it is; `None` where the part does not begin so.
pub open spec fn decode_part(p: Seq<char>) -> Option<Seq<char>> {
    if p.len() >= 2 && is_hex_digit(p[0]) && is_hex_digit(p[1]) && hex_digit_value(p[0]) * 16
        + hex_digit_value(p[1]) < 0x80 {
        Some(seq![(hex_digit_value(p[0]) * 16 + hex_digit_value(p[1])) as char] + p.skip(2))
    } else {
        None
    }
}

/// Decodes the text after a `%`: its parts between the `%` signs, one by one;
/// the first part that does not decode is the error, with its `%` before it.
pub open spec fn decode_after_percent(t: Seq<char>) -> Result<Seq<char>, Seq<char>>
    decreases t.len(),
{
    let j = first_of(t, '%');
    let p = t.take(j);
    match decode_part(p) {
        None => Err(seq!['%'] + p),
        Some(d) => if j < t.len() {
            proof {
                lemma_first_of(t, '%');
            }
            match decode_after_percent(t.skip(j + 1)) {
                Ok(x) => Ok(d + x),
                Err(e) => Err(e),
            }
        } else {
            Ok(d)
        },
    }
}

/// The percent-decoding of `s`: the text before the first `%` as it is, then
/// each part after a `%` decoded; or the first escape that is not valid.
pub open spec fn percent_decode_spec(s: Seq<char>) -> Result<Seq<char>, Seq<char>> {
    let k = first_of(s, '%');
    if k < s.len() {
        match decode_after_percent(s.skip(k + 1)) {
            Ok(x) => Ok(s.take(k) + x),
            Err(e) => Err(e),
        }
    } else {
        Ok(s)
    }
}

fn hex_exec(c: char) -> (r: Option<u32>)
    ensures
        is_hex_digit(c) ==> r == Some(hex_digit_value(c) as u32),
        !is_hex_digit(c) ==> r is None,
{
    if '0' <= c && c <= '9' {
        Some(c as u32 - 0x30)
    } else if 'a' <= c && c <= 'f' {
        Some(c as u32 - 0x61 + 10)
    } else if 'A' <= c && c <= 'F' {
        Some(c as u32 - 0x41 + 10)
    } else {
        None
    }
}

fn push_range(out: &mut String, v: &Vec<char>, from: usize, to: usize)
    requires
        from <= to <= v.len(),
    ensures
        final(out)@ == old(out)@ + v@.subrange(from as int, to as int),
{
    let mut i = from;
    while i < to
        invariant
            from <= i <= to <= v.len(),
            out@ == old(out)@ + v@.subrange(from as int, i as int),
        decreases to - i,
    {
        push_char(out, v[i]);
        proof {
            assert(v@.subrange(from as int, i + 1) =~= v@.subrange(from as int, i as int).push(
                v@[i as int],
            ));
        }
        i = i + 1;
    }
}

/// Percent-decodes a string: `%` followed by two hexadecimal digits, in either
/// case, that stand for an ASCII character becomes that character. Every
/// other `%` is an error, which holds that `%` and the text after it up to the
/// next `%`.
pub fn percent_decode(s: &str) -> (r: Result<String, Error>)
    ensures
        match percent_decode_spec(s@) {
            Ok(x) => r matches Ok(y) && y@ == x,
            Err(e) => r matches Err(Error::InvalidPercentEncoding { encoding }) && encoding@ == e,
        },
{
    let v = chars_of(s);
    let ghost sv = v@;
    let k = find_char_from(&v, 0, '%');
    proof {
        assert(sv.skip(0) =~= sv);
        lemma_first_of(sv, '%');
    }
    let mut out = String::new();
    push_range(&mut out, &v, 0, k);
    proof {
        assert(sv.subrange(0, k as int) =~= sv.take(k as int));
    }
    if k == v.len() {
        proof {
            assert(out@ =~= sv);
        }
        return Ok(out);
    }
    let mut pos = k + 1;
    loop
        invariant
            v@ == sv,
            sv == s@,
            k < pos <= v.len(),
            percent_decode_spec(sv) == match decode_after_percent(sv.skip(pos as int)) {
                Ok(x) => Ok::<Seq<char>, Seq<char>>(out@ + x),
                Err(e) => Err(e),
            },
        decreases v.len() - pos,
    {
        let j = find_char_from(&v, pos, '%');
        let ghost t = sv.skip(pos as int);
        let ghost p = t.take(j - pos);
        proof {
            lemma_first_of(t, '%');
            assert(p =~= sv.subrange(pos as int, j as int));
        }
        let mut ok = false;
        let mut value: u32 = 0;
        if j - pos >= 2 {
            match (hex_exec(v[pos]), hex_exec(v[pos + 1])) {
                (Some(h), Some(l)) => {
                    value = h * 16 + l;
                    ok = value < 0x80;
                },
                _ => {},
            }
        }
        proof {
            if j - pos >= 2 {
                assert(p[0] == v@[pos as int] && p[1] == v@[pos + 1]);
            }
        }
        if !ok {
            let mut enc = String::new();
            push_char(&mut enc, '%');
            push_range(&mut enc, &v, pos, j);
            proof {
                assert(enc@ =~= seq!['%'] + p);
                assert(decode_part(p) is None);
                assert(decode_after_percent(t) == Err::<Seq<char>, Seq<char>>(seq!['%'] + p));
            }
            return Err(Error::InvalidPercentEncoding { encoding: enc });
        }
        let c = (value as u8) as char;
        let ghost before = out@;
        push_char(&mut out, c);
        push_range(&mut out, &v, pos + 2, j);
        proof {
            let d = seq![c] + p.skip(2);
            assert(p.skip(2) =~= sv.subrange(pos + 2, j as int));
            assert(decode_part(p) == Some(d));
            assert(out@ =~= before + d);
            if j < v.len() {
                assert(t.skip(j - pos + 1) =~= sv.skip(j + 1));
                match decode_after_percent(sv.skip(j + 1)) {
                    Ok(x) => {
                        assert(before + (d + x) =~= (before + d) + x);
                    },
                    Err(e) => {},
                }
            } else {
                assert(decode_after_percent(t) == Ok::<Seq<char>, Seq<char>>(d));
            }
        }
        if j == v.len() {
            return Ok(out);
        }
        pos = j + 1;
    }
}

/// The escape of one character before a URL path is percent-encoded:
/// `%` becomes `%25` and `/` becomes `%2F`, so that both stand in a name
/// without ending it; every other character stays.
pub open spec fn escape_char(c: char) -> Seq<char> {
    if c == '%' {
        seq!['%', '2', '5']
    } else if c == '/' {
        seq!['%', '2', 'F']
    } else {
        seq![c]
    }
}

/// `s` with every `%` replaced by `%25` and then every `/` by `%2F`.
pub open spec fn escape_percent_and_slash(s: Seq<char>) -> Seq<char>
    decreases s.len(),
{
    if s.len() == 0 {
        Seq::empty()
    } else {
        escape_percent_and_slash(s.drop_last()) + escape_char(s.last())
    }
}

/// Percent-encodes a name for a URL path: `%` and `/` are escaped first, and
/// the result is percent-encoded with the `url` crate's `DEFAULT_ENCODE_SET`.
pub fn percent_encode_uri_path(s: &str) -> (r: String)
    ensures
        r@ == encode_bytes_default(encode_utf8(escape_percent_and_slash(s@))),
{
    let v = chars_of(s);
    let mut escaped = String::new();
    let mut i: usize = 0;
    while i < v.len()
        invariant
            i <= v@.len(),
            v@ == s@,
            escaped@ == escape_percent_and_slash(v@.take(i as int)),
        decreases v.len() - i,
    {
        let c = v[i];
        if c == '%' {
            push_char(&mut escaped, '%');
            push_char(&mut escaped, '2');
            push_char(&mut escaped, '5');
        } else if c == '/' {
            push_char(&mut escaped, '%');
            push_char(&mut escaped, '2');
            push_char(&mut escaped, 'F');
        } else {
            push_char(&mut escaped, c);
        }
        proof {
            assert(v@.take(i + 1).drop_last() =~= v@.take(i as int));
            assert(escaped@ =~= escape_percent_and_slash(v@.take(i + 1)));
        }
        i = i + 1;
    }
    proof {
        assert(v@.take(i as int) =~= s@);
    }
    url_encode_default(escaped.as_str())
}

/// Percent-decoding read character by character: a `%` must start a valid
/// escape of an ASCII character, and every other character stands for
/// itself.
spec fn decode_chars(t: Seq<char>) -> Option<Seq<char>>
    decreases t.len(),
{
    if t.len() == 0 {
        Some(Seq::empty())
    } else if t[0] != '%' {
        match decode_chars(t.drop_first()) {
            Some(x) => Some(seq![t[0]] + x),
            None => None,
        }
    } else if t.len() >= 3 && is_hex_digit(t[1]) && is_hex_digit(t[2]) && hex_digit_value(t[1])
        * 16 + hex_digit_value(t[2]) < 0x80 {
        match decode_chars(t.skip(3)) {
            Some(x) => Some(seq![(hex_digit_value(t[1]) * 16 + hex_digit_value(t[2])) as char] + x),
            None => None,
        }
    } else {
        None
    }
}

proof fn lemma_decode_chars_plain_prefix(a: Seq<char>, r: Seq<char>)
    requires
        !a.contains('%'),
    ensures
        decode_chars(a + r) == match decode_chars(r) {
            Some(x) => Some(a + x),
            None => None::<Seq<char>>,
        },
    decreases a.len(),
{
    if a.len() > 0 {
        let b = a.drop_first();
        assert(!b.contains('%')) by {
            if b.contains('%') {
                let i = choose|i: int| 0 <= i < b.len() && b[i] == '%';
                assert(a[i + 1] == '%');
            }
        }
        assert(a[0] != '%') by {
            if a[0] == '%' {
                assert(a.contains('%'));
            }
        }
        lemma_decode_chars_plain_prefix(b, r);
        assert((a + r).drop_first() =~= b + r);
        assert((a + r)[0] == a[0]);
        match decode_chars(r) {
            Some(x) => {
                assert(seq![a[0]] + (b + x) =~= a + x);
            },
            None => {},
        }
    } else {
        assert(a + r =~= r);
        match decode_chars(r) {
            Some(x) => {
                assert(a + x =~= x);
            },
            None => {},
        }
    }
}

proof fn lemma_decode_chars_after_percent(r: Seq<char>)
    ensures
        decode_chars(seq!['%'] + r) matches Some(x) ==> decode_after_percent(r) == Ok::<
            Seq<char>,
            Seq<char>,
        >(x),
    decreases r.len(),
{
    let t = seq!['%'] + r;
    if let Some(x) = decode_chars(t) {
        assert(t[0] == '%');
        assert(t.len() >= 3);
        assert(t[1] == r[0] && t[2] == r[1]);
        assert(t.skip(3) =~= r.skip(2));
        lemma_first_of(r, '%');
        let j = first_of(r, '%');
        let p = r.take(j);
        assert(r[0] != '%' && r[1] != '%');
        assert(j >= 2);
        assert(p[0] == r[0] && p[1] == r[1]);
        let v = hex_digit_value(r[0]) * 16 + hex_digit_value(r[1]);
        let d = seq![v as char] + p.skip(2);
        assert(decode_part(p) == Some(d));
        let q = p.skip(2);
        assert(!q.contains('%')) by {
            if q.contains('%') {
                let i = choose|i: int| 0 <= i < q.len() && q[i] == '%';
                assert(r[i + 2] == '%');
            }
        }
        let tail = r.skip(j);
        assert(r.skip(2) =~= q + tail);
        lemma_decode_chars_plain_prefix(q, tail);
        let y = decode_chars(r.skip(2))->0;
        assert(x == seq![v as char] + y);
        if j < r.len() {
            assert(tail =~= seq!['%'] + r.skip(j + 1));
            lemma_decode_chars_after_percent(r.skip(j + 1));
            let z = decode_chars(tail)->0;
            assert(y == q + z);
            assert(decode_after_percent(r.skip(j + 1)) == Ok::<Seq<char>, Seq<char>>(z));
            assert(x =~= d + z);
        } else {
            assert(tail =~= Seq::<char>::empty());
            assert(y =~= q);
            assert(x =~= d);
        }
    }
}

proof fn lemma_decode_chars_spec(t: Seq<char>)
    ensures
        decode_chars(t) matches Some(x) ==> percent_decode_spec(t) == Ok::<Seq<char>, Seq<char>>(x),
{
    lemma_first_of(t, '%');
    let k = first_of(t, '%');
    let a = t.take(k);
    assert(!a.contains('%')) by {
        if a.contains('%') {
            let i = choose|i: int| 0 <= i < a.len() && a[i] == '%';
            assert(t[i] == '%');
        }
    }
    if k < t.len() {
        let r = t.skip(k + 1);
        assert(t =~= a + (seq!['%'] + r));
        lemma_decode_chars_plain_prefix(a, seq!['%'] + r);
        lemma_decode_chars_after_percent(r);
    } else {
        assert(t =~= a + Seq::<char>::empty());
        lemma_decode_chars_plain_prefix(a, Seq::<char>::empty());
        assert(a =~= t);
    }
}

/// The percent-encoding of one ASCII character of a name: its escape,
/// encoded with `DEFAULT_ENCODE_SET`.
spec fn encode_name_char(c: char) -> Seq<char> {
    encode_bytes_default(ascii_bytes(escape_char(c)))
}

/// The percent-encoding of an ASCII name, character by character.
spec fn encode_name_chars(s: Seq<char>) -> Seq<char>
    decreases s.len(),
{
    if s.len() == 0 {
        Seq::empty()
    } else {
        encode_name_char(s[0]) + encode_name_chars(s.drop_first())
    }
}

proof fn lemma_encode_bytes_default_concat(a: Seq<u8>, b: Seq<u8>)
    ensures
        encode_bytes_default(a + b) == encode_bytes_default(a) + encode_bytes_default(b),
    decreases a.len(),
{
    if a.len() > 0 {
        assert((a + b).drop_first() =~= a.drop_first() + b);
        assert((a + b)[0] == a[0]);
        lemma_encode_bytes_default_concat(a.drop_first(), b);
        assert(encode_byte_default(a[0]) + (encode_bytes_default(a.drop_first())
            + encode_bytes_default(b)) =~= encode_bytes_default(a) + encode_bytes_default(b));
    } else {
        assert(a + b =~= b);
        assert(encode_bytes_default(a) + encode_bytes_default(b) =~= encode_bytes_default(b));
    }
}

proof fn lemma_escape_first(s: Seq<char>)
    requires
        s.len() > 0,
    ensures
        escape_percent_and_slash(s) == escape_char(s[0]) + escape_percent_and_slash(
            s.drop_first(),
        ),
    decreases s.len(),
{
    if s.len() > 1 {
        let i = s.drop_last();
        lemma_escape_first(i);
        assert(i.drop_first() =~= s.drop_first().drop_last());
        assert(s.drop_first().last() == s.last());
        assert(i[0] == s[0]);
        assert(escape_char(s[0]) + escape_percent_and_slash(s.drop_first()) =~= escape_char(s[0])
            + escape_percent_and_slash(i.drop_first()) + escape_char(s.last()));
    } else {
        assert(s.drop_last() =~= Seq::<char>::empty());
        assert(s.drop_first() =~= Seq::<char>::empty());
        assert(escape_percent_and_slash(s) =~= escape_char(s[0]) + escape_percent_and_slash(
            s.drop_first(),
        ));
    }
}

proof fn lemma_escape_ascii(s: Seq<char>)
    requires
        is_ascii_chars(s),
    ensures
        is_ascii_chars(escape_percent_and_slash(s)),
        encode_bytes_default(ascii_bytes(escape_percent_and_slash(s))) == encode_name_chars(s),
    decreases s.len(),
{
    if s.len() > 0 {
        let rest = s.drop_first();
        assert(is_ascii_chars(rest)) by {
            assert forall|i: int| 0 <= i < rest.len() implies '\0' <= #[trigger] rest[i] <= '\u{7f}' by {
                assert(rest[i] == s[i + 1]);
            }
        }
        lemma_escape_ascii(rest);
        lemma_escape_first(s);
        let e0 = escape_char(s[0]);
        let er = escape_percent_and_slash(rest);
        assert(is_ascii_chars(e0 + er)) by {
            assert forall|i: int| 0 <= i < (e0 + er).len() implies '\0' <= #[trigger] (e0 + er)[i]
                <= '\u{7f}' by {
                if i >= e0.len() {
                    assert((e0 + er)[i] == er[i - e0.len()]);
                } else {
                    assert(s[0] <= '\u{7f}');
                }
            }
        }
        assert(ascii_bytes(e0 + er) =~= ascii_bytes(e0) + ascii_bytes(er));
        lemma_encode_bytes_default_concat(ascii_bytes(e0), ascii_bytes(er));
    } else {
        assert(ascii_bytes(escape_percent_and_slash(s)) =~= Seq::<u8>::empty());
    }
}

proof fn lemma_hex_digit_upper(n: int)
    requires
        0 <= n < 16,
    ensures
        is_hex_digit(hex_digit_upper(n)),
        hex_digit_value(hex_digit_upper(n)) == n,
        hex_digit_upper(n) != '%',
{
}

proof fn lemma_decode_name_char(c: char, rest: Seq<char>)
    requires
        c <= '\u{7f}',
    ensures
        decode_chars(encode_name_char(c) + rest) == match decode_chars(rest) {
            Some(x) => Some(seq![c] + x),
            None => None::<Seq<char>>,
        },
{
    let e = encode_name_char(c);
    let t = e + rest;
    if c == '%' {
        assert(ascii_bytes(escape_char(c)) =~= seq![0x25u8, 0x32u8, 0x35u8]);
        reveal_with_fuel(encode_bytes_default, 4);
        assert(e =~= seq!['%', '2', '5']);
        assert(t.skip(3) =~= rest);
    } else if c == '/' {
        assert(ascii_bytes(escape_char(c)) =~= seq![0x25u8, 0x32u8, 0x46u8]);
        reveal_with_fuel(encode_bytes_default, 4);
        assert(e =~= seq!['%', '2', 'F']);
        assert(t.skip(3) =~= rest);
    } else {
        let b = c as u8;
        assert(ascii_bytes(escape_char(c)) =~= seq![b]);
        reveal_with_fuel(encode_bytes_default, 2);
        assert(e =~= encode_byte_default(b));
        if in_default_set(b) {
            lemma_hex_digit_upper(b as int / 16);
            lemma_hex_digit_upper(b as int % 16);
            assert(t[0] == '%' && t[1] == hex_digit_upper(b as int / 16) && t[2]
                == hex_digit_upper(b as int % 16));
            assert(t.skip(3) =~= rest);
            assert((b as int / 16) * 16 + b as int % 16 == b);
        } else {
            assert(t[0] == c);
            assert(t.drop_first() =~= rest);
        }
    }
}

proof fn lemma_decode_name_chars(s: Seq<char>)
    requires
        is_ascii_chars(s),
    ensures
        decode_chars(encode_name_chars(s)) == Some(s),
    decreases s.len(),
{
    if s.len() > 0 {
        let rest = s.drop_first();
        assert(is_ascii_chars(rest)) by {
            assert forall|i: int| 0 <= i < rest.len() implies '\0' <= #[trigger] rest[i] <= '\u{7f}' by {
                assert(rest[i] == s[i + 1]);
            }
        }
        lemma_decode_name_chars(rest);
        assert(s[0] <= '\u{7f}');
        lemma_decode_name_char(s[0], encode_name_chars(rest));
        assert(seq![s[0]] + rest =~= s);
    } else {
        assert(encode_name_chars(s) =~= Seq::<char>::empty());
    }
}

/// Percent-decoding the encoding of a name for a URL path gives the name
/// back, for every name of ASCII characters.
pub proof fn law_percent_roundtrip(s: Seq<char>)
    requires
        is_ascii_chars(s),
    ensures
        percent_decode_spec(encode_bytes_default(encode_utf8(escape_percent_and_slash(s))))
            == Ok::<Seq<char>, Seq<char>>(s),
{
    lemma_escape_ascii(s);
    lemma_ascii_encode_utf8(escape_percent_and_slash(s));
    lemma_decode_name_chars(s);
    lemma_decode_chars_spec(encode_name_chars(s));
}

/// A string without `%` percent-decodes to itself.
pub proof fn law_percent_decode_plain(s: Seq<char>)
    requires
        !s.contains('%'),
    ensures
        percent_decode_spec(s) == Ok::<Seq<char>, Seq<char>>(s),
{
    lemma_first_of(s, '%');
}

/// Percent-decoding reads an escape of an ASCII character as that character:
/// for text `a` without `%`, two hexadecimal digits `h` and `l` (in either
/// case) that stand for a code below 0x80, and any rest `b`, decoding
/// `a`, `%`, `h`, `l`, `b` gives `a`, the character, and the decoding of `b`,
/// or the error that decoding `b` gives.
pub proof fn law_percent_decode_escape(a: Seq<char>, h: char, l: char, b: Seq<char>)
    requires
        !a.contains('%'),
        is_hex_digit(h),
        is_hex_digit(l),
        hex_digit_value(h) * 16 + hex_digit_value(l) < 0x80,
    ensures
        percent_decode_spec(a + seq!['%', h, l] + b) == match percent_decode_spec(b) {
            Ok(y) => Ok::<Seq<char>, Seq<char>>(
                a + seq![(hex_digit_value(h) * 16 + hex_digit_value(l)) as char] + y,
            ),
            Err(e) => Err::<Seq<char>, Seq<char>>(e),
        },
{
    let s = a + seq!['%', h, l] + b;
    let c = (hex_digit_value(h) * 16 + hex_digit_value(l)) as char;
    lemma_first_of(a, '%');
    assert forall|j: int| 0 <= j < a.len() implies s[j] != '%' by {
        assert(s[j] == a[j]);
    }
    assert(s[a.len() as int] == '%');
    lemma_first_of_at(s, '%', a.len() as int);
    assert(s.take(a.len() as int) =~= a);
    let t = s.skip(a.len() as int + 1);
    assert(t =~= seq![h, l] + b);
    lemma_first_of(b, '%');
    let kb = first_of(b, '%');
    assert forall|j: int| 0 <= j < kb + 2 implies t[j] != '%' by {
        if j >= 2 {
            assert(t[j] == b[j - 2]);
        }
    }
    if kb < b.len() {
        assert(t[kb + 2] == b[kb]);
    }
    lemma_first_of_at(t, '%', kb + 2);
    let p = t.take(kb + 2);
    assert(p[0] == h && p[1] == l);
    assert(p.skip(2) =~= b.take(kb));
    assert(decode_part(p) == Some(seq![c] + b.take(kb)));
    if kb < b.len() {
        assert(t.skip(kb + 3) =~= b.skip(kb + 1));
        match decode_after_percent(b.skip(kb + 1)) {
            Ok(x) => {
                assert(a + (seq![c] + b.take(kb) + x) =~= a + seq![c] + (b.take(kb) + x));
            },
            Err(e) => {},
        }
    } else {
        assert(b.take(kb) =~= b);
        assert(a + (seq![c] + b.take(kb)) =~= a + seq![c] + b);
    }
}

/// A `%` that does not start an escape of an ASCII character is refused: for
/// text `a` and `p` without `%`, where `p` does not begin with two
/// hexadecimal digits that stand for a code below 0x80, decoding `a`, `%`,
/// `p` and then either nothing or text that begins with `%` fails with the
/// error text `%` followed by `p`.
pub proof fn law_percent_decode_bad_escape(a: Seq<char>, p: Seq<char>, b: Seq<char>)
    requires
        !a.contains('%'),
        !p.contains('%'),
        b.len() == 0 || b[0] == '%',
        !(p.len() >= 2 && is_hex_digit(p[0]) && is_hex_digit(p[1]) && hex_digit_value(p[0]) * 16
            + hex_digit_value(p[1]) < 0x80),
    ensures
        percent_decode_spec(a + seq!['%'] + p + b) == Err::<Seq<char>, Seq<char>>(seq!['%'] + p),
{
    let s = a + seq!['%'] + p + b;
    lemma_first_of(a, '%');
    lemma_first_of(p, '%');
    assert forall|j: int| 0 <= j < a.len() implies s[j] != '%' by {
        assert(s[j] == a[j]);
    }
    assert(s[a.len() as int] == '%');
    lemma_first_of_at(s, '%', a.len() as int);
    let t = s.skip(a.len() as int + 1);
    assert(t =~= p + b);
    assert forall|j: int| 0 <= j < p.len() implies t[j] != '%' by {
        assert(t[j] == p[j]);
    }
    if b.len() > 0 {
        assert(t[p.len() as int] == b[0]);
    }
    lemma_first_of_at(t, '%', p.len() as int);
    assert(t.take(p.len() as int) =~= p);
}

/// The escape step keeps every character of a name but `%` and `/`: a name
/// that holds neither is percent-encoded as its UTF-8 bytes are, with
/// `DEFAULT_ENCODE_SET`.
pub proof fn law_encode_uri_path_plain(s: Seq<char>)
    requires
        !s.contains('%'),
        !s.contains('/'),
    ensures
        encode_bytes_default(encode_utf8(escape_percent_and_slash(s))) == encode_bytes_default(
            encode_utf8(s),
        ),
    decreases s.len(),
{
    lemma_escape_plain(s);
}

proof fn lemma_escape_plain(s: Seq<char>)
    requires
        !s.contains('%'),
        !s.contains('/'),
    ensures
        escape_percent_and_slash(s) == s,
    decreases s.len(),
{
    if s.len() > 0 {
        let i = s.drop_last();
        assert(!i.contains('%')) by {
            if i.contains('%') {
                let j = choose|j: int| 0 <= j < i.len() && i[j] == '%';
                assert(s[j] == '%');
            }
        }
        assert(!i.contains('/')) by {
            if i.contains('/') {
                let j = choose|j: int| 0 <= j < i.len() && i[j] == '/';
                assert(s[j] == '/');
            }
        }
        lemma_escape_plain(i);
        assert(s[s.len() - 1] != '%' && s[s.len() - 1] != '/') by {
            if s[s.len() - 1] == '%' {
                assert(s.contains('%'));
            }
            if s[s.len() - 1] == '/' {
                assert(s.contains('/'));
            }
        }
        assert(i + seq![s.last()] =~= s);
    } else {
        assert(escape_percent_and_slash(s) =~= s);
    }
}

/// The escape step works on each character alone: escaping two texts one
/// after the other is escaping the two joined; and `%` becomes `%25` and `/`
/// becomes `%2F`.
pub proof fn law_escape_percent_and_slash_parts(x: Seq<char>, y: Seq<char>)
    ensures
        escape_percent_and_slash(x + y) == escape_percent_and_slash(x) + escape_percent_and_slash(
            y,
        ),
        escape_percent_and_slash(seq!['%']) == seq!['%', '2', '5'],
        escape_percent_and_slash(seq!['/']) == seq!['%', '2', 'F'],
    decreases y.len(),
{
    assert(seq!['%'].drop_last() =~= Seq::<char>::empty());
    assert(seq!['/'].drop_last() =~= Seq::<char>::empty());
    assert(seq!['%'].last() == '%');
    assert(seq!['/'].last() == '/');
    assert(escape_percent_and_slash(Seq::<char>::empty()) =~= Seq::<char>::empty());
    assert(escape_percent_and_slash(seq!['%']) =~= seq!['%', '2', '5']);
    assert(escape_percent_and_slash(seq!['/']) =~= seq!['%', '2', 'F']);
    if y.len() > 0 {
        law_escape_percent_and_slash_parts(x, y.drop_last());
        assert((x + y).drop_last() =~= x + y.drop_last());
        assert((x + y).last() == y.last());
    } else {
        assert(x + y =~= x);
        assert(escape_percent_and_slash(y) =~= Seq::<char>::empty());
    }
}

} // verus!
