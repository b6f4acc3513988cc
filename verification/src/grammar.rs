//! The mathematical description of the line grammar.
//!
//! A document is a sequence of characters; every function here speaks of a
//! document `s` and a position `i` in it, counted in characters from zero.

use vstd::prelude::*;

verus! {

/// Horizontal whitespace: a space or a tab.
pub open spec fn is_hspace(c: char) -> bool {
    c == ' ' || c == '\t'
}

/// The length of the line terminator that starts at `i`: 1 for a line feed,
/// 2 for a carriage return followed by a line feed, 0 where none starts.
pub open spec fn terminator_len(s: Seq<char>, i: int) -> int {
    if 0 <= i < s.len() && s[i] == '\n' {
        1
    } else if 0 <= i && i + 1 < s.len() && s[i] == '\r' && s[i + 1] == '\n' {
        2
    } else {
        0
    }
}

/// A line ends at `i`: a terminator starts there, or the document ends.
pub open spec fn at_line_end(s: Seq<char>, i: int) -> bool {
    i >= s.len() || terminator_len(s, i) > 0
}

/// The first position at or after `i` where the line ends.
pub open spec fn line_end(s: Seq<char>, i: int) -> int
    decreases s.len() - i,
{
    if i < 0 || at_line_end(s, i) {
        i
    } else {
        line_end(s, i + 1)
    }
}

/// The position just behind the terminator of the line that holds `i`
/// (the end of the document where the last line has no terminator).
pub open spec fn after_line(s: Seq<char>, i: int) -> int {
    line_end(s, i) + terminator_len(s, line_end(s, i))
}

/// The first position at or after `i` that holds no horizontal whitespace.
pub open spec fn skip_hspace(s: Seq<char>, i: int) -> int
    decreases s.len() - i,
{
    if 0 <= i < s.len() && is_hspace(s[i]) {
        skip_hspace(s, i + 1)
    } else {
        i
    }
}

/// The end of the token that starts at `i`: the first position at or after
/// `i` that holds horizontal whitespace or ends the line.
pub open spec fn token_end(s: Seq<char>, i: int) -> int
    decreases s.len() - i,
{
    if 0 <= i < s.len() && !is_hspace(s[i]) && !at_line_end(s, i) {
        token_end(s, i + 1)
    } else {
        i
    }
}

/// The document holds `token` at position `i`.
pub open spec fn starts_with(s: Seq<char>, i: int, token: Seq<char>) -> bool {
    0 <= i && i + token.len() <= s.len() && s.subrange(i, i + token.len()) == token
}

/// The text from `i` to the end of its line, without the terminator.
pub open spec fn line_text(s: Seq<char>, i: int) -> Seq<char> {
    s.subrange(i, line_end(s, i))
}

/// The 1-based number of the line that holds position `i`.
pub open spec fn line_at(s: Seq<char>, i: int) -> int
    decreases i,
{
    if i <= 0 || i > s.len() {
        1
    } else if s[i - 1] == '\n' {
        line_at(s, i - 1) + 1
    } else {
        line_at(s, i - 1)
    }
}

/// The 1-based column of position `i` in its line, counted in characters.
pub open spec fn column_at(s: Seq<char>, i: int) -> int
    decreases i,
{
    if i <= 0 || i > s.len() {
        1
    } else if s[i - 1] == '\n' {
        1
    } else {
        column_at(s, i - 1) + 1
    }
}

/// Line end, terminator and the scanners stay inside the document.
pub proof fn lemma_line_end_bounds(s: Seq<char>, i: int)
    requires
        0 <= i <= s.len(),
    ensures
        i <= line_end(s, i) <= s.len(),
        at_line_end(s, line_end(s, i)),
        line_end(s, i) <= after_line(s, i) <= s.len(),
        i < s.len() ==> i < after_line(s, i),
        forall|j: int|
            #![trigger s[j]]
            i <= j < line_end(s, i) ==> !at_line_end(s, j) && s[j] != '\n',
    decreases s.len() - i,
{
    if !at_line_end(s, i) {
        lemma_line_end_bounds(s, i + 1);
    }
}

/// Skipping whitespace stays inside the document and passes only whitespace.
pub proof fn lemma_skip_hspace_bounds(s: Seq<char>, i: int)
    requires
        0 <= i <= s.len(),
    ensures
        i <= skip_hspace(s, i) <= s.len(),
        skip_hspace(s, i) < s.len() ==> !is_hspace(s[skip_hspace(s, i)]),
        forall|j: int| #![trigger s[j]] i <= j < skip_hspace(s, i) ==> is_hspace(s[j]),
    decreases s.len() - i,
{
    if i < s.len() && is_hspace(s[i]) {
        lemma_skip_hspace_bounds(s, i + 1);
    }
}

/// A token stays inside the document and holds neither whitespace nor a line end.
pub proof fn lemma_token_end_bounds(s: Seq<char>, i: int)
    requires
        0 <= i <= s.len(),
    ensures
        i <= token_end(s, i) <= s.len(),
        token_end(s, i) < s.len() ==> is_hspace(s[token_end(s, i)]) || at_line_end(
            s,
            token_end(s, i),
        ),
        forall|j: int|
            #![trigger s[j]]
            i <= j < token_end(s, i) ==> !is_hspace(s[j]) && !at_line_end(s, j),
    decreases s.len() - i,
{
    if i < s.len() && !is_hspace(s[i]) && !at_line_end(s, i) {
        lemma_token_end_bounds(s, i + 1);
    }
}

/// Line and column are at least 1 and at most one more than the position.
pub proof fn lemma_position_bounds(s: Seq<char>, i: int)
    requires
        0 <= i <= s.len(),
    ensures
        1 <= line_at(s, i) <= i + 1,
        1 <= column_at(s, i) <= i + 1,
    decreases i,
{
    if i > 0 {
        lemma_position_bounds(s, i - 1);
    }
}

} // verus!
