//! What a CouchDB server started for testing announces on its output.
//!
//! Starting the server, reading its output and stopping it is the work of the
//! application; this module decides which line of output announces the
//! server's URL, and what the URL is.

use vstd::prelude::*;
use crate::text::first_of;

verus! {

/// Whether a character has the Unicode `White_Space` property, which is what
/// `char::is_whitespace` tests.
pub open spec fn is_white_space(c: char) -> bool {
    let u = c as u32;
    (0x9 <= u && u <= 0xd) || u == 0x20 || u == 0x85 || u == 0xa0 || u == 0x1680 || (0x2000 <= u
        && u <= 0x200a) || u == 0x2028 || u == 0x2029 || u == 0x202f || u == 0x205f || u == 0x3000
}

/// A line without its trailing whitespace.
pub open spec fn trimmed_end(s: Seq<char>) -> Seq<char>
    decreases s.len(),
{
    if s.len() > 0 && is_white_space(s.last()) {
        trimmed_end(s.drop_last())
    } else {
        s
    }
}

/// Removes the trailing whitespace of a line with `str::trim_end`, which
/// removes the characters that `char::is_whitespace` accepts from the end.
#[verifier::external_body]
fn trim_end(s: &str) -> (r: String)
    ensures
        r@ == trimmed_end(s@),
{
    s.trim_end().to_string()
}

/// The text that announces a started server, up to the URL's scheme.
pub open spec fn announcement() -> Seq<char> {
    "Apache CouchDB has started on http"@
}

/// The length of `Apache CouchDB has started on `, after which the URL
/// begins.
pub open spec fn url_offset() -> int {
    30
}

/// Whether the announcement begins at position `p` of the line.
pub open spec fn announces_at(line: Seq<char>, p: int) -> bool {
    0 <= p && p + announcement().len() <= line.len() && line.subrange(
        p,
        p + announcement().len(),
    ) == announcement()
}

/// What the regular expression `Apache CouchDB has started on (http.*)`
/// captures in its first group, searched for in a line: where the
/// announcement first begins, what follows `started on ` up to the first line
/// feed or the end of the line (`.` matches anything but a line feed); `None`
/// where the line holds no announcement.
pub open spec fn started_capture(line: Seq<char>) -> Option<Seq<char>> {
    if exists|p: int| announces_at(line, p) {
        let p = choose|p: int|
            announces_at(line, p) && forall|q: int| 0 <= q < p ==> !announces_at(line, q);
        let rest = line.skip(p + url_offset());
        Some(rest.take(first_of(rest, '\n')))
    } else {
        None
    }
}

/// Searches a line for `Apache CouchDB has started on (http.*)` with the
/// `regex` crate and gives what the group captures.
#[verifier::external_body]
fn capture_started_url(line: &str) -> (r: Option<String>)
    ensures
        match started_capture(line@) {
            Some(u) => r matches Some(x) && x@ == u,
            None => r is None,
        },
{
    match regex::Regex::new(r"Apache CouchDB has started on (http.*)") {
        Ok(re) => match re.captures(line) {
            Some(caps) => match caps.get(1) {
                Some(m) => Some(m.as_str().to_string()),
                None => None,
            },
            None => None,
        },
        Err(_) => None,
    }
}

/// The URL that a line of the server's output announces the server on, if
/// the line does so: the line is stripped of its trailing whitespace and
/// searched for `Apache CouchDB has started on` followed by the URL.
pub fn started_url(line: &str) -> (r: Option<String>)
    ensures
        match started_capture(trimmed_end(line@)) {
            Some(u) => r matches Some(x) && x@ == u,
            None => r is None,
        },
{
    let trimmed = trim_end(line);
    capture_started_url(trimmed.as_str())
}

} // verus!
