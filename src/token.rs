//! Resolving the identifier span that surrounds a cursor in one line of text.

use vstd::prelude::*;

verus! {

/// A text cursor between characters, pointing at the next character of the line.
pub type Column = usize;

/// What `char::is_alphanumeric` answers for a character (Unicode's Alphabetic
/// or Numeric property).
pub uninterp spec fn alphanumeric(c: char) -> bool;

/// Relies on `char::is_alphanumeric`: its answer depends on the character alone.
#[verifier::external_body]
fn is_alphanumeric(c: char) -> (r: bool)
    ensures
        r == alphanumeric(c),
{
    c.is_alphanumeric()
}

/// A character that may be part of an identifier.
pub open spec fn is_ident_char(c: char) -> bool {
    alphanumeric(c) || c == '_'
}

/// The identifier classification of each character of a line.
pub open spec fn classes_of(line: Seq<char>) -> Seq<bool> {
    Seq::new(line.len(), |i: int| is_ident_char(line[i]))
}

/// The cursor, moved back to the end of the line when it lies past it.
pub open spec fn clamp(col: int, len: int) -> int {
    if col < len {
        col
    } else {
        len
    }
}

/// `(start, end)` is the word span of the cursor `col` over a line whose
/// characters are classified by `ident`: when the cursor sits on a separator
/// the span is empty at the cursor; otherwise it is the maximal run of
/// identifier characters that contains the (clamped) cursor or ends at it.
pub open spec fn is_word_span(ident: Seq<bool>, col: int, start: int, end: int) -> bool {
    let k = clamp(col, ident.len() as int);
    if k < ident.len() && !ident[k] {
        start == k && end == k
    } else {
        &&& 0 <= start <= k <= end <= ident.len()
        &&& forall|i: int| start <= i < end ==> #[trigger] ident[i]
        &&& (start == 0 || !ident[start - 1])
        &&& (end == ident.len() || !ident[end])
    }
}

/// Finds the word span of the cursor `col` from the classification `ident`
/// of each character of the line (`true` for an identifier character).
pub fn word_span(ident: &Vec<bool>, col: Column) -> (r: (Column, Column))
    ensures
        is_word_span(ident@, col as int, r.0 as int, r.1 as int),
{
    let len = ident.len();
    let k: usize = if col < len {
        col
    } else {
        len
    };
    if k < len && !ident[k] {
        return (k, k);
    }
    let mut start: usize = k;
    while start > 0 && ident[start - 1]
        invariant
            start <= k <= len == ident@.len(),
            forall|i: int| start <= i < k ==> #[trigger] ident@[i],
        decreases start,
    {
        start = start - 1;
    }
    let mut end: usize = k;
    while end < len && ident[end]
        invariant
            k <= end <= len == ident@.len(),
            forall|i: int| k <= i < end ==> #[trigger] ident@[i],
        decreases len - end,
    {
        end = end + 1;
    }
    (start, end)
}

/// Finds the start and end (in characters) of the identifier under the
/// cursor `col` in `line`; see `is_word_span`.
pub fn find_word_at_pos(line: &str, col: Column) -> (r: (Column, Column))
    ensures
        is_word_span(classes_of(line@), col as int, r.0 as int, r.1 as int),
{
    let mut ident: Vec<bool> = Vec::new();
    for c in it: line.chars()
        invariant
            it.seq() == line@,
            ident@ == classes_of(line@).subrange(0, it.index() as int),
    {
        let b = is_alphanumeric(c) || c == '_';
        ident.push(b);
    }
    assert(ident@ == classes_of(line@));
    word_span(&ident, col)
}

/// For a cursor within the line (or at its end), the span lies inside the
/// line and every character it covers is an identifier character.
pub proof fn lemma_word_span_in_line(line: Seq<char>, col: int, start: int, end: int)
    requires
        0 <= col <= line.len(),
        is_word_span(classes_of(line), col, start, end),
    ensures
        0 <= start <= end <= line.len(),
        forall|i: int| start <= i < end ==> is_ident_char(#[trigger] line[i]),
{
    let ident = classes_of(line);
    assert forall|i: int| start <= i < end implies is_ident_char(#[trigger] line[i]) by {
        assert(ident[i]);
    }
}

/// The word span is a function of the line and the cursor: two spans that
/// both satisfy `is_word_span` for the same inputs are the same span.
pub proof fn lemma_word_span_unique(
    ident: Seq<bool>,
    col: int,
    start1: int,
    end1: int,
    start2: int,
    end2: int,
)
    requires
        is_word_span(ident, col, start1, end1),
        is_word_span(ident, col, start2, end2),
    ensures
        start1 == start2,
        end1 == end2,
{
    let k = clamp(col, ident.len() as int);
    if !(k < ident.len() && !ident[k]) {
        if start1 < start2 {
            assert(ident[start2 - 1]);
        }
        if start2 < start1 {
            assert(ident[start1 - 1]);
        }
        if end1 < end2 {
            assert(ident[end1]);
        }
        if end2 < end1 {
            assert(ident[end2]);
        }
    }
}

} // verus!
