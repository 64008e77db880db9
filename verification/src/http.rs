//! How a response body is shown: JSON is laid out, everything else is left
//! as it came.

use vstd::prelude::*;
use crate::text::{slice_text, text_is, text_of};

verus! {

/// What `serde_json` makes of a body when it reads it as a JSON value and
/// writes that value out again with indentation: the laid-out text, or
/// nothing where the body is no JSON.
pub uninterp spec fn pretty_printed(body: Seq<char>) -> Option<Seq<char>>;

/// A text that may be there, as plain values.
pub open spec fn text_view(text: Option<String>) -> Option<Seq<char>> {
    match text {
        Some(t) => Some(t@),
        None => None,
    }
}

/// Reads the body with `serde_json::from_str` as a `serde_json::Value` and
/// writes the value with `serde_json::to_string_pretty`. `None` says that one
/// of the two refused. The result is a function of the body alone; the
/// contract gives it the name `pretty_printed` and says no more.
#[verifier::external_body]
pub(crate) fn pretty_json(body: &str) -> (pretty: Option<String>)
    ensures
        text_view(pretty) == pretty_printed(body@),
{
    match serde_json::from_str::<serde_json::Value>(body) {
        Ok(value) => serde_json::to_string_pretty(&value).ok(),
        Err(_) => None,
    }
}

/// White space, as Unicode defines it.
pub open spec fn is_blank(c: char) -> bool {
    c == ' ' || ('\t' <= c && c <= '\r') || c == '\u{85}' || c == '\u{a0}' || c == '\u{1680}' || (
    '\u{2000}' <= c && c <= '\u{200a}') || c == '\u{2028}' || c == '\u{2029}' || c == '\u{202f}'
        || c == '\u{205f}' || c == '\u{3000}'
}

/// Number of characters before the first semicolon; the length of the text
/// where it has none.
pub open spec fn before_semicolon(s: Seq<char>) -> int
    decreases s.len(),
{
    if s.len() == 0 || s[0] == ';' {
        0
    } else {
        1 + before_semicolon(s.drop_first())
    }
}

/// Number of blanks that the text begins with.
pub open spec fn blank_head(s: Seq<char>) -> int
    decreases s.len(),
{
    if s.len() == 0 || !is_blank(s[0]) {
        0
    } else {
        1 + blank_head(s.drop_first())
    }
}

/// Number of blanks that the text ends with.
pub open spec fn blank_tail(s: Seq<char>) -> int
    decreases s.len(),
{
    if s.len() == 0 || !is_blank(s.last()) {
        0
    } else {
        1 + blank_tail(s.drop_last())
    }
}

/// The text without the blanks around it.
pub open spec fn trimmed(s: Seq<char>) -> Seq<char> {
    if blank_head(s) >= s.len() {
        Seq::empty()
    } else {
        s.subrange(blank_head(s), s.len() - blank_tail(s))
    }
}

/// The media type that a `Content-Type` value names: what stands before the
/// first semicolon, without the blanks around it.
pub open spec fn media_type(content_type: Seq<char>) -> Seq<char> {
    trimmed(content_type.subrange(0, before_semicolon(content_type)))
}

/// The body as it is shown for a content type: laid out where the type is
/// `application/json` and the body is JSON, else unchanged.
pub open spec fn shown_body(content_type: Seq<char>, body: Seq<char>) -> Seq<char> {
    if media_type(content_type) == "application/json"@ {
        match pretty_printed(body) {
            Some(pretty) => pretty,
            None => body,
        }
    } else {
        body
    }
}

proof fn lemma_before_semicolon(s: Seq<char>, k: int)
    requires
        0 <= k <= s.len(),
        forall|i: int| 0 <= i < k ==> s[i] != ';',
        k == s.len() || s[k] == ';',
    ensures
        before_semicolon(s) == k,
    decreases s.len(),
{
    if k > 0 {
        let rest = s.drop_first();
        assert forall|i: int| 0 <= i < k - 1 implies rest[i] != ';' by {
            assert(rest[i] == s[i + 1]);
        }
        lemma_before_semicolon(rest, k - 1);
    }
}

proof fn lemma_blank_head(s: Seq<char>, k: int)
    requires
        0 <= k <= s.len(),
        forall|i: int| 0 <= i < k ==> is_blank(s[i]),
        k == s.len() || !is_blank(s[k]),
    ensures
        blank_head(s) == k,
    decreases s.len(),
{
    if k > 0 {
        let rest = s.drop_first();
        assert forall|i: int| 0 <= i < k - 1 implies is_blank(rest[i]) by {
            assert(rest[i] == s[i + 1]);
        }
        lemma_blank_head(rest, k - 1);
    }
}

proof fn lemma_blank_tail(s: Seq<char>, k: int)
    requires
        0 <= k <= s.len(),
        forall|i: int| s.len() - k <= i < s.len() ==> is_blank(s[i]),
        k == s.len() || !is_blank(s[s.len() - k - 1]),
    ensures
        blank_tail(s) == k,
    decreases s.len(),
{
    if k > 0 {
        let rest = s.drop_last();
        assert forall|i: int| rest.len() - (k - 1) <= i < rest.len() implies is_blank(rest[i]) by {
            assert(rest[i] == s[i]);
        }
        lemma_blank_tail(rest, k - 1);
    }
}

/// Whether `c` is white space.
pub fn blank(c: char) -> (yes: bool)
    ensures
        yes == is_blank(c),
{
    c == ' ' || ('\t' <= c && c <= '\r') || c == '\u{85}' || c == '\u{a0}' || c == '\u{1680}' || (
    '\u{2000}' <= c && c <= '\u{200a}') || c == '\u{2028}' || c == '\u{2029}' || c == '\u{202f}'
        || c == '\u{205f}' || c == '\u{3000}'
}

/// The media type that a `Content-Type` value names.
pub fn media_type_of(content_type: &Vec<char>) -> (media: Vec<char>)
    ensures
        media@ == media_type(content_type@),
{
    let mut end: usize = 0;
    while end < content_type.len() && content_type[end] != ';'
        invariant
            end <= content_type@.len(),
            forall|i: int| 0 <= i < end ==> content_type@[i] != ';',
        decreases content_type@.len() - end,
    {
        end = end + 1;
    }
    proof {
        lemma_before_semicolon(content_type@, end as int);
    }
    let ghost part = content_type@.subrange(0, end as int);
    let mut lo: usize = 0;
    while lo < end && blank(content_type[lo])
        invariant
            lo <= end <= content_type@.len(),
            part == content_type@.subrange(0, end as int),
            forall|i: int| 0 <= i < lo ==> is_blank(part[i]),
        decreases end - lo,
    {
        lo = lo + 1;
    }
    proof {
        lemma_blank_head(part, lo as int);
    }
    if lo >= end {
        return Vec::new();
    }
    let mut hi: usize = end;
    while hi > lo && blank(content_type[hi - 1])
        invariant
            lo < end,
            lo <= hi <= end <= content_type@.len(),
            part == content_type@.subrange(0, end as int),
            !is_blank(part[lo as int]),
            forall|i: int| hi <= i < end ==> is_blank(part[i]),
        decreases hi,
    {
        hi = hi - 1;
    }
    proof {
        lemma_blank_tail(part, end - hi);
    }
    let media = slice_text(content_type, lo, hi);
    assert(media@ =~= part.subrange(lo as int, hi as int));
    media
}

/// The body as it is shown for a content type, given what laying it out as
/// JSON gave.
pub fn choose_body(content_type: &str, body: &str, pretty: Option<String>) -> (shown: String)
    ensures
        shown@ == if media_type(content_type@) == "application/json"@ {
            match pretty {
                Some(laid_out) => laid_out@,
                None => body@,
            }
        } else {
            body@
        },
{
    let media = media_type_of(&text_of(content_type));
    if text_is(&media, "application/json") {
        match pretty {
            Some(laid_out) => laid_out,
            None => String::from_str(body),
        }
    } else {
        String::from_str(body)
    }
}

/// The body as it is shown for a content type: JSON is laid out with
/// indentation, anything else, and JSON that does not parse, is left as it
/// came.
pub fn format_response_body(content_type: &str, body: &str) -> (shown: String)
    ensures
        shown@ == shown_body(content_type@, body@),
{
    let media = media_type_of(&text_of(content_type));
    if text_is(&media, "application/json") {
        choose_body(content_type, body, pretty_json(body))
    } else {
        String::from_str(body)
    }
}

} // verus!
