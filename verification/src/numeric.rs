//! Decimal and hexadecimal text of numbers.

use vstd::prelude::*;
use crate::text::push_char;

verus! {

/// The decimal digit for a value below 10.
pub open spec fn digit_char(d: int) -> char {
    (0x30 + d) as char
}

/// The value of a decimal digit character.
pub open spec fn digit_value(c: char) -> int {
    c as int - 0x30
}

/// Whether a character is a decimal digit.
pub open spec fn is_digit(c: char) -> bool {
    '0' <= c && c <= '9'
}

/// The decimal text of a number, without leading zeros.
pub open spec fn decimal(n: nat) -> Seq<char>
    decreases n,
{
    if n < 10 {
        seq![digit_char(n as int)]
    } else {
        decimal(n / 10) + seq![digit_char((n % 10) as int)]
    }
}

/// The value of a string of decimal digits.
pub open spec fn decimal_value(s: Seq<char>) -> int
    decreases s.len(),
{
    if s.len() == 0 {
        0
    } else {
        decimal_value(s.drop_last()) * 10 + digit_value(s.last())
    }
}

/// Whether every character of `s` is a decimal digit.
pub open spec fn all_digits(s: Seq<char>) -> bool {
    forall|i: int| 0 <= i < s.len() ==> is_digit(#[trigger] s[i])
}

/// What `u64::from_str_radix(s, 10)` gives: an optional `+` sign followed by
/// at least one decimal digit, whose value fits in a `u64`.
pub open spec fn parse_u64_spec(s: Seq<char>) -> Option<u64> {
    let ds = if s.len() > 0 && s[0] == '+' {
        s.drop_first()
    } else {
        s
    };
    if ds.len() > 0 && all_digits(ds) && 0 <= decimal_value(ds) <= u64::MAX {
        Some(decimal_value(ds) as u64)
    } else {
        None
    }
}

/// Appends the decimal text of `n`.
pub fn push_decimal(out: &mut String, n: u128)
    ensures
        final(out)@ == old(out)@ + decimal(n as nat),
    decreases n,
{
    if n >= 10 {
        push_decimal(out, n / 10);
    }
    let d = (n % 10) as u8;
    let c = (0x30u8 + d) as char;
    push_char(out, c);
    proof {
        assert(final(out)@ =~= old(out)@ + decimal(n as nat));
    }
}

/// The decimal text of `n`, as `Display` prints it.
pub fn decimal_string(n: u128) -> (r: String)
    ensures
        r@ == decimal(n as nat),
{
    let mut out = String::new();
    push_decimal(&mut out, n);
    proof {
        assert(out@ =~= decimal(n as nat));
    }
    out
}

proof fn lemma_decimal_value_step(s: Seq<char>, i: int)
    requires
        0 <= i < s.len(),
    ensures
        decimal_value(s.take(i + 1)) == decimal_value(s.take(i)) * 10 + digit_value(s[i]),
{
    assert(s.take(i + 1).drop_last() =~= s.take(i));
}

proof fn lemma_decimal_value_nonneg(s: Seq<char>)
    requires
        all_digits(s),
    ensures
        decimal_value(s) >= 0,
    decreases s.len(),
{
    if s.len() > 0 {
        let t = s.drop_last();
        assert(all_digits(t)) by {
            assert forall|j: int| 0 <= j < t.len() implies is_digit(#[trigger] t[j]) by {
                assert(t[j] == s[j]);
            }
        }
        lemma_decimal_value_nonneg(t);
        assert(is_digit(s[s.len() - 1]));
    }
}

proof fn lemma_decimal_value_prefix(s: Seq<char>, k: int)
    requires
        all_digits(s),
        0 <= k <= s.len(),
    ensures
        0 <= decimal_value(s.take(k)) <= decimal_value(s),
    decreases s.len(),
{
    if k < s.len() {
        let t = s.drop_last();
        assert(all_digits(t)) by {
            assert forall|j: int| 0 <= j < t.len() implies is_digit(#[trigger] t[j]) by {
                assert(t[j] == s[j]);
            }
        }
        lemma_decimal_value_prefix(t, k);
        assert(t.take(k) =~= s.take(k));
        assert(is_digit(s[s.len() - 1]));
    } else {
        assert(s.take(k) =~= s);
        lemma_decimal_value_nonneg(s);
    }
}

/// Parses the characters of `v` from `from` to `to` as `u64::from_str_radix`
/// does with radix 10.
pub fn parse_u64(v: &Vec<char>, from: usize, to: usize) -> (r: Option<u64>)
    requires
        from <= to <= v.len(),
    ensures
        r == parse_u64_spec(v@.subrange(from as int, to as int)),
{
    let ghost s = v@.subrange(from as int, to as int);
    let mut start = from;
    if from < to && v[from] == '+' {
        start = from + 1;
    }
    let ghost ds = if s.len() > 0 && s[0] == '+' {
        s.drop_first()
    } else {
        s
    };
    proof {
        assert(ds =~= v@.subrange(start as int, to as int));
    }
    if start == to {
        return None;
    }
    let mut acc: u64 = 0;
    let mut i = start;
    while i < to
        invariant
            from <= start <= i <= to <= v.len(),
            s == v@.subrange(from as int, to as int),
            ds == (if s.len() > 0 && s[0] == '+' {
                s.drop_first()
            } else {
                s
            }),
            ds == v@.subrange(start as int, to as int),
            all_digits(ds.take(i - start)),
            acc == decimal_value(ds.take(i - start)),
        decreases to - i,
    {
        let c = v[i];
        proof {
            assert(ds[i - start] == c);
        }
        if !('0' <= c && c <= '9') {
            proof {
                assert(!is_digit(ds[i - start]));
                assert(!all_digits(ds));
            }
            return None;
        }
        let d = (c as u32 - 0x30) as u64;
        proof {
            lemma_decimal_value_step(ds, i - start);
            assert(all_digits(ds.take(i - start + 1))) by {
                assert forall|j: int| 0 <= j < i - start + 1 implies is_digit(
                    #[trigger] ds.take(i - start + 1)[j],
                ) by {
                    if j < i - start {
                        assert(ds.take(i - start + 1)[j] == ds.take(i - start)[j]);
                    }
                }
            }
        }
        if acc > (u64::MAX - d) / 10 {
            proof {
                if all_digits(ds) {
                    lemma_decimal_value_prefix(ds, i - start + 1);
                    assert(decimal_value(ds) > u64::MAX);
                }
            }
            return None;
        }
        acc = acc * 10 + d;
        i = i + 1;
    }
    proof {
        assert(ds.take(i - start) =~= ds);
    }
    Some(acc)
}

proof fn lemma_decimal(n: nat)
    ensures
        decimal(n).len() > 0,
        all_digits(decimal(n)),
        decimal_value(decimal(n)) == n,
        decimal(n)[0] != '+',
        !decimal(n).contains('-'),
    decreases n,
{
    if n >= 10 {
        lemma_decimal(n / 10);
        let a = decimal(n / 10);
        let s = decimal(n);
        assert(s.drop_last() =~= a);
        assert(all_digits(s)) by {
            assert forall|j: int| 0 <= j < s.len() implies is_digit(#[trigger] s[j]) by {
                if j < a.len() {
                    assert(s[j] == a[j]);
                }
            }
        }
        assert(s[0] == a[0]);
        assert(s.last() == digit_char((n % 10) as int));
        assert(decimal_value(s) == decimal_value(a) * 10 + digit_value(s.last()));
    } else {
        let s = decimal(n);
        assert(s.drop_last() =~= Seq::<char>::empty());
        assert(decimal_value(s.drop_last()) == 0);
    }
    let s = decimal(n);
    assert(!s.contains('-')) by {
        if s.contains('-') {
            let j = choose|j: int| 0 <= j < s.len() && s[j] == '-';
            assert(is_digit(s[j]));
        }
    }
}

/// Parsing the decimal text of a `u64` gives the number back.
pub proof fn lemma_parse_decimal(n: u64)
    ensures
        parse_u64_spec(decimal(n as nat)) == Some(n),
        all_digits(decimal(n as nat)),
        !decimal(n as nat).contains('-'),
        decimal(n as nat).len() > 0,
{
    lemma_decimal(n as nat);
}

/// Whether a character is a hexadecimal digit, in either case.
pub open spec fn is_hex_digit(c: char) -> bool {
    ('0' <= c && c <= '9') || ('a' <= c && c <= 'f') || ('A' <= c && c <= 'F')
}

/// The value of a hexadecimal digit character, in either case.
pub open spec fn hex_digit_value(c: char) -> int {
    if '0' <= c && c <= '9' {
        c as int - 0x30
    } else if 'a' <= c && c <= 'f' {
        c as int - 0x61 + 10
    } else {
        c as int - 0x41 + 10
    }
}

/// The lower-case hexadecimal digit for a value below 16.
pub open spec fn hex_char_lower(d: int) -> char {
    if d < 10 {
        (0x30 + d) as char
    } else {
        (0x61 + d - 10) as char
    }
}

/// Whether every character of `s` is a hexadecimal digit.
pub open spec fn all_hex(s: Seq<char>) -> bool {
    forall|i: int| 0 <= i < s.len() ==> is_hex_digit(#[trigger] s[i])
}

/// The value of a string of hexadecimal digits.
pub open spec fn hex_value(s: Seq<char>) -> int
    decreases s.len(),
{
    if s.len() == 0 {
        0
    } else {
        hex_value(s.drop_last()) * 16 + hex_digit_value(s.last())
    }
}

/// `16` to the power `k`.
pub open spec fn pow16(k: nat) -> int
    decreases k,
{
    if k == 0 {
        1
    } else {
        16 * pow16((k - 1) as nat)
    }
}

/// What 32 hexadecimal digits, in either case, stand for as a 128-bit number.
pub open spec fn parse_hex32_spec(s: Seq<char>) -> Option<u128> {
    if s.len() == 32 && all_hex(s) {
        Some(hex_value(s) as u128)
    } else {
        None
    }
}

/// The lower-case hexadecimal text of `n` in exactly `k` digits, leading
/// zeros included.
pub open spec fn hex_fixed(n: nat, k: nat) -> Seq<char>
    decreases k,
{
    if k == 0 {
        Seq::empty()
    } else {
        hex_fixed(n / 16, (k - 1) as nat).push(hex_char_lower((n % 16) as int))
    }
}

proof fn lemma_pow16_grows(i: nat, j: nat)
    requires
        i <= j,
    ensures
        1 <= pow16(i) <= pow16(j),
    decreases j,
{
    if j > 0 {
        let i2: nat = if i < j {
            i
        } else {
            (j - 1) as nat
        };
        lemma_pow16_grows(i2, (j - 1) as nat);
    }
}

proof fn lemma_pow16_32()
    ensures
        pow16(32) == 0x1_0000_0000_0000_0000_0000_0000_0000_0000,
{
    reveal_with_fuel(pow16, 33);
}

fn hex_digit_exec(c: char) -> (r: Option<u128>)
    ensures
        is_hex_digit(c) ==> r == Some(hex_digit_value(c) as u128),
        !is_hex_digit(c) ==> r is None,
{
    if '0' <= c && c <= '9' {
        Some((c as u32 - 0x30) as u128)
    } else if 'a' <= c && c <= 'f' {
        Some((c as u32 - 0x61 + 10) as u128)
    } else if 'A' <= c && c <= 'F' {
        Some((c as u32 - 0x41 + 10) as u128)
    } else {
        None
    }
}

/// Parses the 32 hexadecimal digits of `v` from `from` to `to`.
pub fn parse_hex32(v: &Vec<char>, from: usize, to: usize) -> (r: Option<u128>)
    requires
        from <= to <= v.len(),
    ensures
        r == parse_hex32_spec(v@.subrange(from as int, to as int)),
{
    let ghost s = v@.subrange(from as int, to as int);
    if to - from != 32 {
        return None;
    }
    let mut acc: u128 = 0;
    let mut i: usize = 0;
    while i < 32
        invariant
            to - from == 32,
            from <= to <= v.len(),
            s == v@.subrange(from as int, to as int),
            i <= 32,
            all_hex(s.take(i as int)),
            acc == hex_value(s.take(i as int)),
            acc < pow16(i as nat),
        decreases 32 - i,
    {
        let c = v[from + i];
        proof {
            assert(s[i as int] == c);
        }
        let d = match hex_digit_exec(c) {
            Some(d) => d,
            None => {
                proof {
                    assert(!all_hex(s));
                }
                return None;
            },
        };
        proof {
            assert(s.take(i + 1).drop_last() =~= s.take(i as int));
            assert(all_hex(s.take(i + 1))) by {
                assert forall|j: int| 0 <= j < i + 1 implies is_hex_digit(
                    #[trigger] s.take(i + 1)[j],
                ) by {
                    if j < i {
                        assert(s.take(i + 1)[j] == s.take(i as int)[j]);
                    }
                }
            }
            lemma_pow16_grows((i + 1) as nat, 32);
            lemma_pow16_32();
            assert(acc * 16 + d < pow16((i + 1) as nat));
        }
        acc = acc * 16 + d;
        i = i + 1;
    }
    proof {
        assert(s.take(32) =~= s);
    }
    Some(acc)
}

/// Whether the characters of `v` from `from` to `to` are all hexadecimal
/// digits.
pub fn all_hex_range(v: &Vec<char>, from: usize, to: usize) -> (r: bool)
    requires
        from <= to <= v.len(),
    ensures
        r == all_hex(v@.subrange(from as int, to as int)),
{
    let ghost s = v@.subrange(from as int, to as int);
    let mut i = from;
    while i < to
        invariant
            from <= i <= to <= v.len(),
            s == v@.subrange(from as int, to as int),
            forall|j: int| 0 <= j < i - from ==> is_hex_digit(#[trigger] s[j]),
        decreases to - i,
    {
        let c = v[i];
        proof {
            assert(s[i - from] == c);
        }
        if hex_digit_exec(c).is_none() {
            return false;
        }
        i = i + 1;
    }
    true
}

fn hex_char_exec(d: u128) -> (c: char)
    requires
        d < 16,
    ensures
        c == hex_char_lower(d as int),
{
    if d < 10 {
        ((0x30u8 + d as u8) as char)
    } else {
        ((0x61u8 + (d as u8 - 10)) as char)
    }
}

/// Appends the lower-case hexadecimal text of `n` in exactly `k` digits.
pub fn push_hex_fixed(out: &mut String, n: u128, k: u32)
    ensures
        final(out)@ == old(out)@ + hex_fixed(n as nat, k as nat),
    decreases k,
{
    if k > 0 {
        push_hex_fixed(out, n / 16, k - 1);
        let c = hex_char_exec(n % 16);
        push_char(out, c);
    }
    proof {
        assert(final(out)@ =~= old(out)@ + hex_fixed(n as nat, k as nat));
    }
}

/// The hexadecimal text of `k` digits of `n` reads back as `n`, if `n` has no
/// more than `k` digits.
pub proof fn lemma_hex_fixed(n: nat, k: nat)
    requires
        n < pow16(k),
    ensures
        hex_fixed(n, k).len() == k,
        all_hex(hex_fixed(n, k)),
        hex_value(hex_fixed(n, k)) == n,
        !hex_fixed(n, k).contains('-'),
    decreases k,
{
    let s = hex_fixed(n, k);
    if k > 0 {
        let q = n / 16;
        let r = n % 16;
        assert(q < pow16((k - 1) as nat)) by (nonlinear_arith)
            requires
                n < 16 * pow16((k - 1) as nat),
                q == n / 16,
        ;
        lemma_hex_fixed(q, (k - 1) as nat);
        let a = hex_fixed(q, (k - 1) as nat);
        assert(s.drop_last() =~= a);
        assert(all_hex(s)) by {
            assert forall|j: int| 0 <= j < s.len() implies is_hex_digit(#[trigger] s[j]) by {
                if j < a.len() {
                    assert(s[j] == a[j]);
                }
            }
        }
        assert(hex_digit_value(s.last()) == r);
        assert(q * 16 + r == n) by (nonlinear_arith)
            requires
                q == n / 16,
                r == n % 16,
        ;
    } else {
        assert(n == 0);
    }
    assert(!s.contains('-')) by {
        if s.contains('-') {
            let j = choose|j: int| 0 <= j < s.len() && s[j] == '-';
            assert(is_hex_digit(s[j]));
        }
    }
}

/// Parsing the 32-digit hexadecimal text of a 128-bit number gives it back.
pub proof fn lemma_parse_hex32(n: u128)
    ensures
        parse_hex32_spec(hex_fixed(n as nat, 32)) == Some(n),
        !hex_fixed(n as nat, 32).contains('-'),
{
    lemma_pow16_32();
    lemma_hex_fixed(n as nat, 32);
}

} // verus!
