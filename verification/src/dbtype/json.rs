//! Building JSON object text from field texts, for testing how objects are
//! read when each of their fields is present or missing.

use vstd::prelude::*;
use vstd::string::*;

verus! {

/// Appends one field text to the text of an object under construction: right
/// after the opening brace, or after a comma and a space.
pub open spec fn json_append(acc: Seq<char>, item: Seq<char>) -> Seq<char> {
    if acc.len() > 0 && acc.last() == '{' {
        acc + item
    } else {
        acc + ", "@ + item
    }
}

/// Appends field texts in order.
pub open spec fn json_fold(acc: Seq<char>, items: Seq<Seq<char>>) -> Seq<char>
    decreases items.len(),
{
    if items.len() == 0 {
        acc
    } else {
        json_fold(json_append(acc, items[0]), items.drop_first())
    }
}

/// The text of a JSON object holding the given field texts.
pub open spec fn json_object(items: Seq<Seq<char>>) -> Seq<char> {
    json_fold("{"@, items) + "}"@
}

/// The texts that string slices hold.
pub open spec fn texts(s: Seq<&str>) -> Seq<Seq<char>> {
    s.map_values(|x: &str| x@)
}

/// The position of the first field text that begins with the quoted name.
pub open spec fn first_field_named(fields: Seq<Seq<char>>, name: Seq<char>) -> int
    decreases fields.len(),
{
    if fields.len() == 0 {
        0
    } else if ("\""@ + name + "\""@).is_prefix_of(fields[0]) {
        0
    } else {
        1 + first_field_named(fields.drop_first(), name)
    }
}

/// The field that `first_field_named` picks is the first whose text begins
/// with the quoted name; where none does, it is the number of fields.
pub proof fn law_first_field_named_is_first(fields: Seq<Seq<char>>, name: Seq<char>)
    ensures
        0 <= first_field_named(fields, name) <= fields.len(),
        first_field_named(fields, name) < fields.len() ==> ("\""@ + name + "\""@).is_prefix_of(
            fields[first_field_named(fields, name)],
        ),
        forall|q: int|
            0 <= q < first_field_named(fields, name) ==> !("\""@ + name + "\""@).is_prefix_of(
                #[trigger] fields[q],
            ),
    decreases fields.len(),
{
    if fields.len() > 0 && !("\""@ + name + "\""@).is_prefix_of(fields[0]) {
        let rest = fields.drop_first();
        law_first_field_named_is_first(rest, name);
        assert forall|q: int| 0 <= q < first_field_named(fields, name) implies !("\""@ + name
            + "\""@).is_prefix_of(#[trigger] fields[q]) by {
            if q > 0 {
                assert(fields[q] == rest[q - 1]);
            }
        }
        if first_field_named(fields, name) < fields.len() {
            assert(fields[first_field_named(fields, name)] == rest[first_field_named(rest, name)]);
        }
    }
}

proof fn lemma_json_fold_push(acc: Seq<char>, items: Seq<Seq<char>>, item: Seq<char>)
    ensures
        json_fold(acc, items.push(item)) == json_append(json_fold(acc, items), item),
    decreases items.len(),
{
    if items.len() > 0 {
        assert(items.push(item).drop_first() =~= items.drop_first().push(item));
        assert(items.push(item)[0] == items[0]);
        lemma_json_fold_push(json_append(acc, items[0]), items.drop_first(), item);
    } else {
        assert(items.push(item).drop_first() =~= Seq::<Seq<char>>::empty());
        assert(items.push(item)[0] == item);
        reveal_with_fuel(json_fold, 2);
    }
}

/// Appends the field texts of `parts` to `acc`, whose last character is `last`.
fn append_fields(acc: &mut String, last: &mut char, parts: &[&str], skip: usize)
    requires
        old(acc)@.len() > 0,
        *old(last) == old(acc)@.last(),
    ensures
        final(acc)@ == json_fold(
            old(acc)@,
            if skip < parts@.len() {
                texts(parts@).remove(skip as int)
            } else {
                texts(parts@)
            },
        ),
        final(acc)@.len() > 0,
        *final(last) == final(acc)@.last(),
{
    let ghost start = acc@;
    let ghost all = texts(parts@);
    let ghost kept = Seq::<Seq<char>>::empty();
    let mut i: usize = 0;
    while i < parts.len()
        invariant
            all == texts(parts@),
            i <= parts@.len(),
            acc@.len() > 0,
            *last == acc@.last(),
            kept == (if skip < i {
                all.take(i as int).remove(skip as int)
            } else {
                all.take(i as int)
            }),
            acc@ == json_fold(start, kept),
        decreases parts.len() - i,
    {
        if i != skip {
            let item = parts[i];
            let ghost before = acc@;
            proof {
                reveal_strlit(", ");
            }
            if *last != '{' {
                acc.append(", ");
            }
            acc.append(item);
            let n = item.unicode_len();
            if n > 0 {
                *last = item.get_char(n - 1);
            } else if *last != '{' {
                *last = ' ';
            }
            proof {
                assert(acc@ == json_append(before, item@));
                lemma_json_fold_push(start, kept, item@);
                kept = kept.push(item@);
                assert(all.take(i + 1) =~= all.take(i as int).push(item@));
                if skip < i {
                    assert(all.take(i + 1).remove(skip as int) =~= all.take(i as int).remove(
                        skip as int,
                    ).push(item@));
                }
            }
        } else {
            proof {
                assert(all.take(i + 1).remove(skip as int) =~= all.take(i as int));
            }
        }
        i = i + 1;
    }
    proof {
        assert(all.take(i as int) =~= all);
    }
}

/// The text of a JSON object that holds the field texts of `head` and then
/// those of `tail`.
pub fn join_json_string(head: &[&str], tail: &[&str]) -> (r: String)
    ensures
        r@ == json_object(texts(head@) + texts(tail@)),
{
    let mut acc = String::from_str("{");
    let mut last = '{';
    proof {
        reveal_strlit("{");
    }
    append_fields(&mut acc, &mut last, head, head.len());
    let ghost mid = acc@;
    append_fields(&mut acc, &mut last, tail, tail.len());
    proof {
        lemma_json_fold_concat("{"@, texts(head@), texts(tail@));
    }
    acc.append("}");
    acc
}

proof fn lemma_json_fold_concat(acc: Seq<char>, a: Seq<Seq<char>>, b: Seq<Seq<char>>)
    ensures
        json_fold(acc, a + b) == json_fold(json_fold(acc, a), b),
    decreases a.len(),
{
    if a.len() > 0 {
        assert((a + b).drop_first() =~= a.drop_first() + b);
        lemma_json_fold_concat(json_append(acc, a[0]), a.drop_first(), b);
    } else {
        assert(a + b =~= b);
    }
}

/// The text of a JSON object that holds all the given field texts.
pub fn make_complete_json_object(fields: &[&str]) -> (r: String)
    ensures
        r@ == json_object(texts(fields@)),
{
    let mut acc = String::from_str("{");
    let mut last = '{';
    proof {
        reveal_strlit("{");
    }
    append_fields(&mut acc, &mut last, fields, fields.len());
    acc.append("}");
    acc
}

/// Each field text after a comma and a space, in order.
pub open spec fn comma_each(items: Seq<Seq<char>>) -> Seq<char>
    decreases items.len(),
{
    if items.len() == 0 {
        Seq::empty()
    } else {
        ", "@ + items[0] + comma_each(items.drop_first())
    }
}

/// The field texts joined by a comma and a space.
pub open spec fn comma_join(items: Seq<Seq<char>>) -> Seq<char> {
    if items.len() == 0 {
        Seq::empty()
    } else {
        items[0] + comma_each(items.drop_first())
    }
}

/// Whether a field text does not end with an opening brace, so that a comma
/// follows it.
pub open spec fn no_brace_end(t: Seq<char>) -> bool {
    t.len() > 0 ==> t.last() != '{'
}

proof fn lemma_json_fold_after_field(acc: Seq<char>, items: Seq<Seq<char>>)
    requires
        acc.len() > 0,
        acc.last() != '{',
        forall|i: int| 0 <= i < items.len() - 1 ==> no_brace_end(#[trigger] items[i]),
    ensures
        json_fold(acc, items) == acc + comma_each(items),
    decreases items.len(),
{
    if items.len() == 0 {
        assert(acc + comma_each(items) =~= acc);
    } else {
        reveal_strlit(", ");
        let next = acc + ", "@ + items[0];
        assert(json_append(acc, items[0]) == next);
        let rest = items.drop_first();
        if items.len() > 1 {
            assert(no_brace_end(items[0]));
            if items[0].len() > 0 {
                assert(next.last() == items[0].last());
            } else {
                assert(next.last() == ' ');
            }
            assert forall|i: int| 0 <= i < rest.len() - 1 implies no_brace_end(#[trigger] rest[i]) by {
                assert(rest[i] == items[i + 1]);
            }
            lemma_json_fold_after_field(next, rest);
        } else {
            assert(rest.len() == 0);
            assert(next + comma_each(rest) =~= next);
        }
        assert(acc + comma_each(items) =~= next + comma_each(rest));
    }
}

/// The text of an object is its field texts joined by a comma and a space,
/// between braces, where no field text but the last ends with an opening
/// brace and, where there are two or more, the first is not empty.
pub proof fn law_json_object_is_comma_join(items: Seq<Seq<char>>)
    requires
        forall|i: int| 0 <= i < items.len() - 1 ==> no_brace_end(#[trigger] items[i]),
        items.len() > 1 ==> items[0].len() > 0,
    ensures
        json_object(items) == "{"@ + comma_join(items) + "}"@,
{
    reveal_strlit("{");
    if items.len() == 0 {
        assert("{"@ + comma_join(items) =~= "{"@);
    } else {
        let first = "{"@ + items[0];
        assert(json_append("{"@, items[0]) == first);
        let rest = items.drop_first();
        if items.len() > 1 {
            assert(no_brace_end(items[0]));
            assert(first.last() == items[0].last());
            assert forall|i: int| 0 <= i < rest.len() - 1 implies no_brace_end(#[trigger] rest[i]) by {
                assert(rest[i] == items[i + 1]);
            }
            lemma_json_fold_after_field(first, rest);
        } else {
            assert(rest.len() == 0);
            assert(json_fold(first, rest) == first);
            assert(first + comma_each(rest) =~= first);
        }
        assert(json_fold("{"@, items) == json_fold(first, rest));
        assert("{"@ + comma_join(items) =~= first + comma_each(rest));
    }
}

/// Whether `s` begins with a double quote, `name` and a double quote.
fn starts_with_quoted(s: &str, name: &str) -> (r: bool)
    ensures
        r == ("\""@ + name@ + "\""@).is_prefix_of(s@),
{
    let n = name.unicode_len();
    let m = s.unicode_len();
    let ghost q = "\""@ + name@ + "\""@;
    proof {
        reveal_strlit("\"");
    }
    if m < 2 || m - 2 < n {
        return false;
    }
    if s.get_char(0) != '"' || s.get_char(n + 1) != '"' {
        proof {
            assert(q[0] == '"' && q[n + 1] == '"');
        }
        return false;
    }
    let mut i: usize = 0;
    while i < n
        invariant
            n == name@.len(),
            m == s@.len(),
            n + 2 <= m,
            s@[0] == '"',
            s@[n + 1] == '"',
            q == "\""@ + name@ + "\""@,
            "\""@ == seq!['"'],
            i <= n,
            forall|j: int| 0 <= j < i ==> s@[j + 1] == name@[j],
        decreases n - i,
    {
        if s.get_char(i + 1) != name.get_char(i) {
            proof {
                assert(q[i + 1] == name@[i as int]);
            }
            return false;
        }
        i = i + 1;
    }
    proof {
        assert forall|j: int| 0 <= j < q.len() implies q[j] == s@[j] by {
            if 1 <= j <= n {
                assert(q[j] == name@[j - 1]);
            }
        }
    }
    true
}

/// The text of a JSON object that holds all the given field texts but the
/// first one for the field `exclude`: the first that begins with the name in
/// double quotes. One such field text must be among them.
pub fn make_json_object_with_missing_field(fields: &[&str], exclude: &str) -> (r: String)
    requires
        first_field_named(texts(fields@), exclude@) < fields@.len(),
    ensures
        r@ == json_object(
            texts(fields@).remove(first_field_named(texts(fields@), exclude@)),
        ),
{
    let mut pos: usize = 0;
    let ghost all = texts(fields@);
    proof {
        assert(all.skip(0) =~= all);
    }
    while pos < fields.len() && !starts_with_quoted(fields[pos], exclude)
        invariant
            all == texts(fields@),
            pos <= fields@.len(),
            first_field_named(all, exclude@) == pos + first_field_named(
                all.skip(pos as int),
                exclude@,
            ),
        decreases fields.len() - pos,
    {
        proof {
            assert(all.skip(pos as int).drop_first() =~= all.skip(pos + 1));
        }
        pos = pos + 1;
    }
    proof {
        if pos == fields.len() {
            assert(all.skip(pos as int).len() == 0);
        } else {
            assert(all.skip(pos as int)[0] == all[pos as int]);
        }
    }
    let mut acc = String::from_str("{");
    let mut last = '{';
    proof {
        reveal_strlit("{");
    }
    append_fields(&mut acc, &mut last, fields, pos);
    acc.append("}");
    acc
}

} // verus!
