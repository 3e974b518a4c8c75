//! Picking a line out of a document and reading the identifier at a position.

use vstd::prelude::*;
use vstd::string::*;
use crate::token::{classes_of, find_word_at_pos, is_word_span, Column};

verus! {

/// A zero-based cursor location in a text document.
#[derive(Clone, Copy, Debug, PartialEq, Eq, Structural)]
pub struct Position {
    pub line: u32,
    pub character: u32,
}

/// Why no identifier could be read at a position.
#[derive(Clone, Copy, Debug, PartialEq, Eq, Structural)]
pub enum LookupError {
    /// The document does not name a readable local resource.
    NotFound,
    /// The document has fewer lines than the requested line index.
    LineOutOfRange,
    /// Reading the resource failed after it was opened.
    ReadFailure,
}

/// A line without the carriage return that ends it, if any.
pub open spec fn strip_cr(l: Seq<char>) -> Seq<char> {
    if l.len() > 0 && l.last() == '\r' {
        l.drop_last()
    } else {
        l
    }
}

/// Splitting `s` from the left: the lines ended by a newline so far (each
/// without its `"\n"` or `"\r\n"`), and the characters read since the last
/// newline.
pub open spec fn split_state(s: Seq<char>) -> (Seq<Seq<char>>, Seq<char>)
    decreases s.len(),
{
    if s.len() == 0 {
        (Seq::empty(), Seq::empty())
    } else {
        let prev = split_state(s.drop_last());
        if s.last() == '\n' {
            (prev.0.push(strip_cr(prev.1)), Seq::empty())
        } else {
            (prev.0, prev.1.push(s.last()))
        }
    }
}

/// The lines of a text: split at each `'\n'`, with a `"\r"` before the
/// newline dropped; a last line without a newline counts when it is not
/// empty, so an empty text has no lines.
pub open spec fn lines_of(s: Seq<char>) -> Seq<Seq<char>> {
    let st = split_state(s);
    if st.1.len() == 0 {
        st.0
    } else {
        st.0.push(st.1)
    }
}

/// `w` is the text that the word span of cursor `col` covers in `line`.
pub open spec fn is_word_at(line: Seq<char>, col: int, w: Seq<char>) -> bool {
    exists|start: int, end: int|
        #[trigger] is_word_span(classes_of(line), col, start, end) && w == line.subrange(
            start,
            end,
        )
}

/// The lines ended in a prefix of `s` stay, in order, in every longer prefix.
proof fn lemma_split_grows(s: Seq<char>, j: int, i: int)
    requires
        0 <= j <= i <= s.len(),
    ensures
        split_state(s.subrange(0, j)).0.len() <= split_state(s.subrange(0, i)).0.len(),
        forall|m: int|
            0 <= m < split_state(s.subrange(0, j)).0.len() ==> split_state(s.subrange(0, i)).0[m]
                == split_state(s.subrange(0, j)).0[m],
    decreases i - j,
{
    if j < i {
        lemma_split_grows(s, j, i - 1);
        assert(s.subrange(0, i).drop_last() =~= s.subrange(0, i - 1));
    }
}

/// Every line ended in a prefix of `s` is a line of `s`, at the same index.
proof fn lemma_split_prefix_of_lines(s: Seq<char>, i: int)
    requires
        0 <= i <= s.len(),
    ensures
        split_state(s.subrange(0, i)).0.len() <= lines_of(s).len(),
        forall|m: int|
            0 <= m < split_state(s.subrange(0, i)).0.len() ==> lines_of(s)[m] == split_state(
                s.subrange(0, i),
            ).0[m],
{
    lemma_split_grows(s, i, s.len() as int);
    assert(s.subrange(0, s.len() as int) =~= s);
}

/// The characters of a text, in order.
fn chars_of(text: &str) -> (r: Vec<char>)
    ensures
        r@ == text@,
{
    let mut r: Vec<char> = Vec::new();
    for c in it: text.chars()
        invariant
            it.seq() == text@,
            r@ == text@.subrange(0, it.index() as int),
    {
        r.push(c);
    }
    r
}

/// Returns line `n` (zero-based) of `text`, or `None` when the text has no
/// such line.
pub fn line_at(text: &str, n: usize) -> (r: Option<String>)
    ensures
        match r {
            Some(l) => n < lines_of(text@).len() && l@ == lines_of(text@)[n as int],
            None => n >= lines_of(text@).len(),
        },
{
    let ghost s = text@;
    let chars = chars_of(text);
    let len = chars.len();
    let mut k: usize = 0;
    let mut start: usize = 0;
    let mut i: usize = 0;
    while i < len
        invariant
            chars@ == s,
            s == text@,
            len == s.len(),
            start <= i <= len,
            k <= n,
            split_state(s.subrange(0, i as int)).0.len() == k,
            split_state(s.subrange(0, i as int)).1 == s.subrange(start as int, i as int),
        decreases len - i,
    {
        let c = chars[i];
        proof {
            assert(s.subrange(0, i + 1).drop_last() =~= s.subrange(0, i as int));
        }
        if c == '\n' {
            if k == n {
                let mut stop: usize = i;
                if i > start && chars[i - 1] == '\r' {
                    stop = i - 1;
                }
                let l = text.substring_char(start, stop).to_owned();
                proof {
                    assert(l@ =~= strip_cr(s.subrange(start as int, i as int)));
                    lemma_split_prefix_of_lines(s, i + 1);
                }
                return Some(l);
            }
            k = k + 1;
            start = i + 1;
        } else {
            proof {
                assert(s.subrange(start as int, i + 1) =~= s.subrange(start as int, i as int).push(
                    c,
                ));
            }
        }
        i = i + 1;
    }
    proof {
        assert(s.subrange(0, i as int) =~= s);
    }
    if k == n && start < i {
        let l = text.substring_char(start, i).to_owned();
        Some(l)
    } else {
        None
    }
}

/// `r` is the outcome of reading the identifier at `position` in a document
/// whose text is `text`: the text that the word span of `position.character`
/// covers in line `position.line`, or `LineOutOfRange` when the document has
/// no such line.
pub open spec fn is_lookup(text: Seq<char>, position: Position, r: Result<String, LookupError>) -> bool {
    match r {
        Ok(w) => position.line < lines_of(text).len() && is_word_at(
            lines_of(text)[position.line as int],
            position.character as int,
            w@,
        ),
        Err(e) => e == LookupError::LineOutOfRange && position.line >= lines_of(text).len(),
    }
}

/// Reads the identifier at `position` in a document whose text is `text`,
/// for a hover request.
pub fn get_word_from_file_params(text: &str, position: &Position) -> (r: Result<String, LookupError>)
    ensures
        is_lookup(text@, *position, r),
{
    match line_at(text, position.line as usize) {
        None => Err(LookupError::LineOutOfRange),
        Some(line) => {
            let col: Column = position.character as usize;
            let (start, end) = find_word_at_pos(line.as_str(), col);
            let w = line.as_str().substring_char(start, end).to_owned();
            Ok(w)
        },
    }
}

/// Reads the identifier at `position` in a document whose text is `text`,
/// as the context of a completion request.
pub fn get_context_from_file_params(text: &str, position: &Position) -> (r: Result<String, LookupError>)
    ensures
        is_lookup(text@, *position, r),
{
    get_word_from_file_params(text, position)
}

} // verus!
