//! Editable text as a sequence of characters, addressed by a character offset.
//!
//! Every buffer the user can type into is a `Vec<char>`; its model is the
//! `Seq<char>` that `@` gives. A cursor is an offset into that sequence and is
//! clamped to the buffer before every use, so no operation can fail.

use vstd::prelude::*;

verus! {

/// The offset `pos` brought into `[0, len]`.
pub open spec fn clamped(pos: int, len: int) -> int {
    if pos > len {
        len
    } else {
        pos
    }
}

/// The text with `c` inserted at the clamped cursor.
pub open spec fn with_char_inserted(text: Seq<char>, cursor: int, c: char) -> Seq<char> {
    text.insert(clamped(cursor, text.len() as int), c)
}

/// The text with the character before the clamped cursor removed, if there is one.
pub open spec fn with_char_erased(text: Seq<char>, cursor: int) -> Seq<char> {
    let at = clamped(cursor, text.len() as int);
    if at > 0 {
        text.remove(at - 1)
    } else {
        text
    }
}

/// The cursor after erasing the character before it.
pub open spec fn cursor_after_erase(text: Seq<char>, cursor: int) -> int {
    let at = clamped(cursor, text.len() as int);
    if at > 0 {
        at - 1
    } else {
        0
    }
}

/// The text with the range `[lo, hi)` replaced by `ins`.
pub open spec fn spliced(text: Seq<char>, lo: int, hi: int, ins: Seq<char>) -> Seq<char> {
    text.subrange(0, lo) + ins + text.subrange(hi, text.len() as int)
}

/// Lower bound of the selection between `anchor` and `cursor` in a text of length `len`.
pub open spec fn selection_lo(anchor: int, cursor: int, len: int) -> int {
    if anchor <= cursor {
        clamped(anchor, len)
    } else {
        clamped(cursor, len)
    }
}

/// Upper bound of the selection between `anchor` and `cursor` in a text of length `len`.
pub open spec fn selection_hi(anchor: int, cursor: int, len: int) -> int {
    if anchor <= cursor {
        clamped(cursor, len)
    } else {
        clamped(anchor, len)
    }
}

/// Characters that a paste never carries into a single-line field.
pub open spec fn is_line_noise(c: char) -> bool {
    c == '\n' || c == '\r' || c == '\t'
}

/// The text without line breaks, carriage returns and tabs, order kept.
pub open spec fn sanitized(text: Seq<char>) -> Seq<char>
    decreases text.len(),
{
    if text.len() == 0 {
        Seq::empty()
    } else if is_line_noise(text.last()) {
        sanitized(text.drop_last())
    } else {
        sanitized(text.drop_last()).push(text.last())
    }
}

/// Strict lexicographic order on character sequences, by code point. A proper
/// prefix comes before the longer text.
pub open spec fn lex_less(a: Seq<char>, b: Seq<char>) -> bool
    decreases a.len(),
{
    if b.len() == 0 {
        false
    } else if a.len() == 0 {
        true
    } else if a[0] != b[0] {
        a[0] < b[0]
    } else {
        lex_less(a.drop_first(), b.drop_first())
    }
}

/// Whether `text` begins with `prefix`.
pub open spec fn has_prefix(text: Seq<char>, prefix: Seq<char>) -> bool {
    prefix.len() <= text.len() && text.subrange(0, prefix.len() as int) == prefix
}

/// The decimal digit for a value below ten.
pub open spec fn digit_char(d: nat) -> char {
    if d == 0 {
        '0'
    } else if d == 1 {
        '1'
    } else if d == 2 {
        '2'
    } else if d == 3 {
        '3'
    } else if d == 4 {
        '4'
    } else if d == 5 {
        '5'
    } else if d == 6 {
        '6'
    } else if d == 7 {
        '7'
    } else if d == 8 {
        '8'
    } else {
        '9'
    }
}

/// The decimal numeral of `n`, without sign or leading zeros.
pub open spec fn decimal_digits(n: nat) -> Seq<char>
    decreases n,
{
    if n < 10 {
        seq![digit_char(n)]
    } else {
        decimal_digits(n / 10).push(digit_char(n % 10))
    }
}

/// Number of bytes that `c` takes in UTF-8.
pub open spec fn utf8_width(c: char) -> nat {
    if (c as int) < 0x80 {
        1
    } else if (c as int) < 0x800 {
        2
    } else if (c as int) < 0x10000 {
        3
    } else {
        4
    }
}

/// Number of bytes that `text` takes in UTF-8.
pub open spec fn utf8_size(text: Seq<char>) -> nat
    decreases text.len(),
{
    if text.len() == 0 {
        0
    } else {
        utf8_size(text.drop_last()) + utf8_width(text.last())
    }
}

/// `lex_less` is irreflexive.
pub proof fn lemma_lex_irreflexive(a: Seq<char>)
    ensures
        !lex_less(a, a),
    decreases a.len(),
{
    if a.len() > 0 {
        lemma_lex_irreflexive(a.drop_first());
    }
}

/// Two different texts are ordered one way or the other.
pub proof fn lemma_lex_total(a: Seq<char>, b: Seq<char>)
    ensures
        a == b || lex_less(a, b) || lex_less(b, a),
    decreases a.len(),
{
    if a.len() == 0 || b.len() == 0 {
        if a.len() == 0 && b.len() == 0 {
            assert(a =~= b);
        }
    } else if a[0] == b[0] {
        lemma_lex_total(a.drop_first(), b.drop_first());
        if a.drop_first() == b.drop_first() {
            assert(a =~= seq![a[0]] + a.drop_first());
            assert(b =~= seq![b[0]] + b.drop_first());
        }
    }
}

/// `lex_less` is transitive.
pub proof fn lemma_lex_transitive(a: Seq<char>, b: Seq<char>, c: Seq<char>)
    requires
        lex_less(a, b),
        lex_less(b, c),
    ensures
        lex_less(a, c),
    decreases a.len(),
{
    if a.len() > 0 && b.len() > 0 && c.len() > 0 {
        if a[0] == b[0] && b[0] == c[0] {
            lemma_lex_transitive(a.drop_first(), b.drop_first(), c.drop_first());
        }
    }
}

/// `lex_less` never holds both ways.
pub proof fn lemma_lex_asymmetric(a: Seq<char>, b: Seq<char>)
    requires
        lex_less(a, b),
    ensures
        !lex_less(b, a),
{
    if lex_less(b, a) {
        lemma_lex_transitive(a, b, a);
        lemma_lex_irreflexive(a);
    }
}

/// The characters of `s`, in order. Takes time quadratic in the length: meant
/// for names and other short strings.
pub fn text_of(s: &str) -> (t: Vec<char>)
    ensures
        t@ == s@,
{
    let n: usize = s.unicode_len();
    let mut t: Vec<char> = Vec::new();
    let mut i: usize = 0;
    while i < n
        invariant
            n == s@.len(),
            i <= n,
            t@ == s@.subrange(0, i as int),
        decreases n - i,
    {
        let c = s.get_char(i);
        t.push(c);
        i = i + 1;
        assert(t@ =~= s@.subrange(0, i as int));
    }
    assert(t@ =~= s@);
    t
}

/// A copy of `text`.
pub fn copy_text(text: &Vec<char>) -> (t: Vec<char>)
    ensures
        t@ == text@,
{
    let mut t: Vec<char> = Vec::new();
    let mut i: usize = 0;
    while i < text.len()
        invariant
            i <= text.len(),
            t@ == text@.subrange(0, i as int),
        decreases text.len() - i,
    {
        t.push(text[i]);
        i = i + 1;
        assert(t@ =~= text@.subrange(0, i as int));
    }
    assert(t@ =~= text@);
    t
}

/// Whether two texts hold the same characters.
pub fn text_eq(a: &Vec<char>, b: &Vec<char>) -> (same: bool)
    ensures
        same == (a@ == b@),
{
    if a.len() != b.len() {
        return false;
    }
    let mut i: usize = 0;
    while i < a.len()
        invariant
            a.len() == b.len(),
            i <= a.len(),
            a@.subrange(0, i as int) == b@.subrange(0, i as int),
        decreases a.len() - i,
    {
        if a[i] != b[i] {
            return false;
        }
        i = i + 1;
        assert(a@.subrange(0, i as int) =~= a@.subrange(0, i - 1).push(a@[i - 1]));
        assert(b@.subrange(0, i as int) =~= b@.subrange(0, i - 1).push(b@[i - 1]));
    }
    assert(a@ =~= a@.subrange(0, i as int));
    assert(b@ =~= b@.subrange(0, i as int));
    true
}

/// Whether `text` holds exactly the characters of `s`.
pub fn text_is(text: &Vec<char>, s: &str) -> (same: bool)
    ensures
        same == (text@ == s@),
{
    let other = text_of(s);
    text_eq(text, &other)
}

/// Whether `a` comes strictly before `b` in lexicographic order.
pub fn text_less(a: &Vec<char>, b: &Vec<char>) -> (less: bool)
    ensures
        less == lex_less(a@, b@),
{
    let mut i: usize = 0;
    assert(a@.skip(0) =~= a@);
    assert(b@.skip(0) =~= b@);
    while i < a.len() && i < b.len()
        invariant
            i <= a.len(),
            i <= b.len(),
            lex_less(a@, b@) == lex_less(a@.skip(i as int), b@.skip(i as int)),
        decreases a.len() - i,
    {
        let x = a[i];
        let y = b[i];
        proof {
            assert(a@.skip(i as int)[0] == x);
            assert(b@.skip(i as int)[0] == y);
            assert(a@.skip(i as int).drop_first() =~= a@.skip(i + 1));
            assert(b@.skip(i as int).drop_first() =~= b@.skip(i + 1));
        }
        if x != y {
            return x < y;
        }
        i = i + 1;
    }
    i < b.len()
}

/// Whether `text` begins with the characters of `prefix`.
pub fn starts_with(text: &Vec<char>, prefix: &str) -> (yes: bool)
    ensures
        yes == has_prefix(text@, prefix@),
{
    let p = text_of(prefix);
    if p.len() > text.len() {
        return false;
    }
    let mut i: usize = 0;
    while i < p.len()
        invariant
            p@ == prefix@,
            p.len() <= text.len(),
            i <= p.len(),
            text@.subrange(0, i as int) == p@.subrange(0, i as int),
        decreases p.len() - i,
    {
        if text[i] != p[i] {
            proof {
                assert(text@.subrange(0, p.len() as int)[i as int] != p@[i as int]);
            }
            return false;
        }
        i = i + 1;
        assert(text@.subrange(0, i as int) =~= text@.subrange(0, i - 1).push(text@[i - 1]));
        assert(p@.subrange(0, i as int) =~= p@.subrange(0, i - 1).push(p@[i - 1]));
    }
    assert(p@ =~= p@.subrange(0, i as int));
    true
}

/// A cursor brought into the bounds of a text of length `len`.
pub fn clamp_cursor(cursor: usize, len: usize) -> (at: usize)
    ensures
        at == clamped(cursor as int, len as int),
        at <= len,
{
    if cursor > len {
        len
    } else {
        cursor
    }
}

/// Inserts `c` at the cursor and moves the cursor behind it.
pub fn insert_char(text: &mut Vec<char>, cursor: &mut usize, c: char)
    ensures
        final(text)@ == with_char_inserted(old(text)@, *old(cursor) as int, c),
        *final(cursor) == clamped(*old(cursor) as int, old(text)@.len() as int) + 1,
        *final(cursor) <= final(text)@.len(),
{
    let at = clamp_cursor(*cursor, text.len());
    text.insert(at, c);
    let len = text.len();
    assert(at < len);
    *cursor = at + 1;
}

/// Removes the character before the cursor, if any, and moves the cursor onto
/// its place.
pub fn erase_before(text: &mut Vec<char>, cursor: &mut usize)
    ensures
        final(text)@ == with_char_erased(old(text)@, *old(cursor) as int),
        *final(cursor) == cursor_after_erase(old(text)@, *old(cursor) as int),
        *final(cursor) <= final(text)@.len(),
{
    let at = clamp_cursor(*cursor, text.len());
    if at > 0 {
        text.remove(at - 1);
        *cursor = at - 1;
    } else {
        *cursor = 0;
    }
}

/// The characters of `text` from `lo` up to `hi`.
pub fn slice_text(text: &Vec<char>, lo: usize, hi: usize) -> (part: Vec<char>)
    requires
        lo <= hi <= text@.len(),
    ensures
        part@ == text@.subrange(lo as int, hi as int),
{
    let mut part: Vec<char> = Vec::new();
    let mut i: usize = lo;
    while i < hi
        invariant
            lo <= i <= hi,
            hi <= text@.len(),
            part@ == text@.subrange(lo as int, i as int),
        decreases hi - i,
    {
        part.push(text[i]);
        i = i + 1;
        assert(part@ =~= text@.subrange(lo as int, i as int));
    }
    part
}

/// Replaces the characters from `lo` up to `hi` by `ins` and returns the
/// offset just behind the inserted text.
pub fn splice(text: &mut Vec<char>, lo: usize, hi: usize, ins: &Vec<char>) -> (end: usize)
    requires
        lo <= hi <= old(text)@.len(),
    ensures
        final(text)@ == spliced(old(text)@, lo as int, hi as int, ins@),
        end == lo + ins@.len(),
        end <= final(text)@.len(),
{
    let mut out: Vec<char> = slice_text(text, 0, lo);
    let mut i: usize = 0;
    while i < ins.len()
        invariant
            i <= ins.len(),
            out@ == old(text)@.subrange(0, lo as int) + ins@.subrange(0, i as int),
        decreases ins.len() - i,
    {
        out.push(ins[i]);
        i = i + 1;
        assert(out@ =~= old(text)@.subrange(0, lo as int) + ins@.subrange(0, i as int));
    }
    assert(ins@.subrange(0, i as int) =~= ins@);
    let end = out.len();
    let n = text.len();
    let mut j: usize = hi;
    while j < n
        invariant
            hi <= j <= n,
            n == text@.len(),
            text@ == old(text)@,
            out@ == old(text)@.subrange(0, lo as int) + ins@ + old(text)@.subrange(
                hi as int,
                j as int,
            ),
        decreases n - j,
    {
        out.push(text[j]);
        j = j + 1;
        assert(out@ =~= old(text)@.subrange(0, lo as int) + ins@ + old(text)@.subrange(
            hi as int,
            j as int,
        ));
    }
    *text = out;
    end
}

/// The bounds of the selection between an anchor and the cursor, smaller
/// first, both inside a text of length `len`.
pub fn selection_bounds(anchor: usize, cursor: usize, len: usize) -> (bounds: (usize, usize))
    ensures
        bounds.0 == selection_lo(anchor as int, cursor as int, len as int),
        bounds.1 == selection_hi(anchor as int, cursor as int, len as int),
        bounds.0 <= bounds.1 <= len,
{
    if anchor <= cursor {
        (clamp_cursor(anchor, len), clamp_cursor(cursor, len))
    } else {
        (clamp_cursor(cursor, len), clamp_cursor(anchor, len))
    }
}

/// The pasted text without the characters that a single-line field refuses.
pub fn sanitize_paste(text: &Vec<char>) -> (clean: Vec<char>)
    ensures
        clean@ == sanitized(text@),
{
    let mut clean: Vec<char> = Vec::new();
    let mut i: usize = 0;
    while i < text.len()
        invariant
            i <= text.len(),
            clean@ == sanitized(text@.subrange(0, i as int)),
        decreases text.len() - i,
    {
        let c = text[i];
        proof {
            let next = text@.subrange(0, i + 1);
            assert(next.drop_last() =~= text@.subrange(0, i as int));
            assert(next.last() == c);
        }
        if !(c == '\n' || c == '\r' || c == '\t') {
            clean.push(c);
        }
        i = i + 1;
    }
    assert(text@.subrange(0, i as int) =~= text@);
    clean
}

/// The digit for a value below ten.
pub fn digit_of(d: u8) -> (c: char)
    requires
        d < 10,
    ensures
        c == digit_char(d as nat),
{
    if d == 0 {
        '0'
    } else if d == 1 {
        '1'
    } else if d == 2 {
        '2'
    } else if d == 3 {
        '3'
    } else if d == 4 {
        '4'
    } else if d == 5 {
        '5'
    } else if d == 6 {
        '6'
    } else if d == 7 {
        '7'
    } else if d == 8 {
        '8'
    } else {
        '9'
    }
}

/// The decimal numeral of `n`.
pub fn decimal(n: u128) -> (digits: Vec<char>)
    ensures
        digits@ == decimal_digits(n as nat),
    decreases n,
{
    if n < 10 {
        let mut digits: Vec<char> = Vec::new();
        digits.push(digit_of(n as u8));
        assert(digits@ =~= seq![digit_char(n as nat)]);
        digits
    } else {
        let mut digits = decimal(n / 10);
        digits.push(digit_of((n % 10) as u8));
        digits
    }
}

/// Number of bytes that `c` takes in UTF-8.
pub fn char_width(c: char) -> (w: u128)
    ensures
        w == utf8_width(c),
        1 <= w <= 4,
{
    let code: u32 = c as u32;
    if code < 0x80 {
        1
    } else if code < 0x800 {
        2
    } else if code < 0x10000 {
        3
    } else {
        4
    }
}

/// Number of bytes that `text` takes in UTF-8.
pub fn byte_len(text: &Vec<char>) -> (n: u128)
    ensures
        n == utf8_size(text@),
{
    let mut n: u128 = 0;
    let mut i: usize = 0;
    while i < text.len()
        invariant
            i <= text.len(),
            n == utf8_size(text@.subrange(0, i as int)),
            n <= 4 * i,
        decreases text.len() - i,
    {
        proof {
            let next = text@.subrange(0, i + 1);
            assert(next.drop_last() =~= text@.subrange(0, i as int));
            assert(next.last() == text@[i as int]);
        }
        n = n + char_width(text[i]);
        i = i + 1;
    }
    assert(text@.subrange(0, i as int) =~= text@);
    n
}

/// The concatenation of two texts.
pub fn join(a: &Vec<char>, b: &Vec<char>) -> (both: Vec<char>)
    ensures
        both@ == a@ + b@,
{
    let mut both = copy_text(a);
    let mut i: usize = 0;
    while i < b.len()
        invariant
            i <= b.len(),
            both@ == a@ + b@.subrange(0, i as int),
        decreases b.len() - i,
    {
        both.push(b[i]);
        i = i + 1;
        assert(both@ =~= a@ + b@.subrange(0, i as int));
    }
    assert(b@.subrange(0, i as int) =~= b@);
    both
}

} // verus!
