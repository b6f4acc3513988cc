//! The primitive scanners that the line classifiers are built from.
//!
//! A scanner takes a cursor and hands back the cursor behind what it
//! consumed, with what it recognised. One that can fail returns an error
//! located at the cursor it was given and consumes nothing.

use vstd::prelude::*;
use vstd::string::*;
use crate::cursor::Cursor;
use crate::error::{Error, ErrorKind};
use crate::grammar::{
    after_line, at_line_end, lemma_line_end_bounds, line_end as line_end_of, line_text,
    skip_hspace, starts_with, terminator_len,
};
use crate::model::optional;
use crate::text::string_of;

verus! {

/// What is reported of a document too long for its positions to be counted.
pub open spec fn is_too_long_error(e: Error) -> bool {
    &&& e.line == 1
    &&& e.column == 1
    &&& e.snippet@.len() == 0
    &&& e.kind matches ErrorKind::Internal(what)
    &&& what@ == "the input is too long"@
    &&& e.prev is None
}

/// A cursor at the start of `input`. A document of `usize::MAX` characters
/// is refused, since the line and column behind its last character could
/// not be counted.
pub fn open<'a>(input: &'a [char]) -> (r: Result<Cursor<'a>, Error>)
    ensures
        (match r {
            Ok(c) => input@.len() < usize::MAX && c.stands_at(input@, 0),
            Err(e) => input@.len() >= usize::MAX && is_too_long_error(e),
        }),
{
    if input.len() == usize::MAX {
        Err(
            Error {
                line: 1,
                column: 1,
                snippet: String::new(),
                kind: ErrorKind::Internal("the input is too long"),
                prev: None,
            },
        )
    } else {
        Ok(Cursor::new(input))
    }
}

/// What `line_end` reports where no line ends.
pub open spec fn is_line_end_error(e: Error, s: Seq<char>, i: int) -> bool {
    &&& e.located_at(s, i)
    &&& e.kind matches ErrorKind::Context(what)
    &&& what@ == "a line ending or EOF"@
    &&& e.prev matches Some(cause)
    &&& cause.located_at(s, i)
    &&& cause.kind == ErrorKind::ExpectedLineEnd
    &&& cause.prev is None
}

/// What `better_tag` reports where the literal is missing.
pub open spec fn is_literal_error(e: Error, s: Seq<char>, i: int, literal: &'static str) -> bool {
    &&& e.located_at(s, i)
    &&& e.kind == ErrorKind::ExpectedStr(literal)
    &&& e.prev is None
}

/// Whether `literal` stands at the cursor, character for character.
pub fn looking_at(input: &Cursor<'_>, literal: &str) -> (b: bool)
    requires
        input.wf(),
    ensures
        b == starts_with(input.input@, input.offset as int, literal@),
{
    let n = literal.unicode_len();
    if n > input.input.len() - input.offset {
        return false;
    }
    let mut k: usize = 0;
    while k < n
        invariant
            input.wf(),
            n == literal@.len(),
            k <= n,
            input.offset + n <= input.input@.len(),
            forall|j: int| 0 <= j < k ==> input.input@[input.offset + j] == literal@[j],
        decreases n - k,
    {
        if input.input[input.offset + k] != literal.get_char(k) {
            proof {
                let ghost found = input.input@.subrange(
                    input.offset as int,
                    input.offset + literal@.len(),
                );
                assert(found[k as int] != literal@[k as int]);
            }
            return false;
        }
        k += 1;
    }
    assert(input.input@.subrange(input.offset as int, input.offset + literal@.len())
        =~= literal@);
    true
}

/// Recognises `literal` at the cursor and steps over it.
pub fn better_tag<'a>(input: &Cursor<'a>, literal: &'static str) -> (r: Result<Cursor<'a>, Error>)
    requires
        input.wf(),
    ensures
        (match r {
            Ok(c) => starts_with(input.input@, input.offset as int, literal@) && c.stands_at(
                input.input@,
                input.offset + literal@.len(),
            ),
            Err(e) => !starts_with(input.input@, input.offset as int, literal@)
                && is_literal_error(e, input.input@, input.offset as int, literal),
        }),
{
    if looking_at(input, literal) {
        Ok(input.advance(literal.unicode_len()))
    } else {
        Err(Error::new(input, ErrorKind::ExpectedStr(literal)))
    }
}

/// Skips horizontal whitespace, if there is any.
pub fn whitespace0<'a>(input: &Cursor<'a>) -> (c: Cursor<'a>)
    requires
        input.wf(),
    ensures
        c.stands_at(input.input@, skip_hspace(input.input@, input.offset as int)),
{
    let mut end: usize = input.offset;
    while end < input.input.len() && (input.input[end] == ' ' || input.input[end] == '\t')
        invariant
            input.wf(),
            input.offset <= end <= input.input@.len(),
            skip_hspace(input.input@, end as int) == skip_hspace(
                input.input@,
                input.offset as int,
            ),
        decreases input.input@.len() - end,
    {
        end += 1;
    }
    input.advance(end - input.offset)
}

/// Consumes the line terminator that starts at the cursor, if one does.
pub fn skip_terminator<'a>(input: &Cursor<'a>) -> (c: Cursor<'a>)
    requires
        input.wf(),
    ensures
        c.stands_at(
            input.input@,
            input.offset + terminator_len(input.input@, input.offset as int),
        ),
{
    let len = input.input.len();
    if input.offset < len && input.input[input.offset] == '\n' {
        input.advance(1)
    } else if len - input.offset >= 2 && input.input[input.offset] == '\r' && input.input[input.offset
        + 1] == '\n' {
        input.advance(2)
    } else {
        *input
    }
}

/// Consumes a line terminator; at the end of the input it consumes nothing.
/// It fails where the line goes on.
pub fn line_end<'a>(input: &Cursor<'a>) -> (r: Result<Cursor<'a>, Error>)
    requires
        input.wf(),
    ensures
        (match r {
            Ok(c) => at_line_end(input.input@, input.offset as int) && c.stands_at(
                input.input@,
                input.offset + terminator_len(input.input@, input.offset as int),
            ),
            Err(e) => !at_line_end(input.input@, input.offset as int) && is_line_end_error(
                e,
                input.input@,
                input.offset as int,
            ),
        }),
{
    let next = skip_terminator(input);
    if input.is_empty() || next.offset > input.offset {
        Ok(next)
    } else {
        let cause = Error::new(input, ErrorKind::ExpectedLineEnd);
        Err(Error::add_context(input, "a line ending or EOF", cause))
    }
}

/// Moves to the end of the line, in front of its terminator.
pub fn to_line_end<'a>(input: &Cursor<'a>) -> (c: Cursor<'a>)
    requires
        input.wf(),
    ensures
        c.stands_at(input.input@, line_end_of(input.input@, input.offset as int)),
{
    let len = input.input.len();
    let mut end: usize = input.offset;
    while end < len && !(input.input[end] == '\n' || (len - end >= 2 && input.input[end] == '\r'
        && input.input[end + 1] == '\n'))
        invariant
            input.wf(),
            len == input.input@.len(),
            input.offset <= end <= len,
            line_end_of(input.input@, end as int) == line_end_of(
                input.input@,
                input.offset as int,
            ),
        decreases len - end,
    {
        end += 1;
    }
    input.advance(end - input.offset)
}

/// Consumes the rest of the line with its terminator and hands back the
/// text before the terminator. It never fails; the text may be empty.
pub fn str_until_newline<'a>(input: &Cursor<'a>) -> (r: (Cursor<'a>, String))
    requires
        input.wf(),
    ensures
        r.0.stands_at(input.input@, after_line(input.input@, input.offset as int)),
        r.1@ == line_text(input.input@, input.offset as int),
{
    proof {
        lemma_line_end_bounds(input.input@, input.offset as int);
    }
    let at_end = to_line_end(input);
    let text = string_of(input.input, input.offset, at_end.offset);
    (skip_terminator(&at_end), text)
}

/// As `str_until_newline`, with an empty text reported as absent.
pub fn optional_str_until_newline<'a>(input: &Cursor<'a>) -> (r: (Cursor<'a>, Option<String>))
    requires
        input.wf(),
    ensures
        r.0.stands_at(input.input@, after_line(input.input@, input.offset as int)),
        optional(line_text(input.input@, input.offset as int)) == match r.1 {
            Some(text) => Some(text@),
            None => None,
        },
{
    let (next, text) = str_until_newline(input);
    if text.as_str().unicode_len() == 0 {
        (next, None)
    } else {
        (next, Some(text))
    }
}

/// Accepts what a scanner found only where nothing is left behind it;
/// where something is left, the end of the input was expected there.
pub fn better_all_consuming<'a, T>(found: (Cursor<'a>, T)) -> (r: Result<(Cursor<'a>, T), Error>)
    requires
        found.0.wf(),
    ensures
        (match r {
            Ok(same) => found.0.offset == found.0.input@.len() && same == found,
            Err(e) => {
                &&& found.0.offset < found.0.input@.len()
                &&& e.located_at(found.0.input@, found.0.offset as int)
                &&& e.kind == ErrorKind::ExpectedEOF
                &&& e.prev is None
            },
        }),
{
    if found.0.is_empty() {
        Ok(found)
    } else {
        Err(Error::new(&found.0, ErrorKind::ExpectedEOF))
    }
}

/// The position where the text of a line with the leader `lead` begins.
pub open spec fn leader_text_start(s: Seq<char>, i: int, lead: Seq<char>) -> int {
    skip_hspace(s, i + lead.len())
}

/// Recognises the leader `lead`, skips the whitespace behind it and takes
/// the rest of the line.
pub fn line_with_leader<'a>(input: &Cursor<'a>, lead: &'static str) -> (r: Result<
    (Cursor<'a>, String),
    Error,
>)
    requires
        input.wf(),
    ensures
        (match r {
            Ok(found) => {
                let start = leader_text_start(input.input@, input.offset as int, lead@);
                &&& starts_with(input.input@, input.offset as int, lead@)
                &&& found.0.stands_at(input.input@, after_line(input.input@, start))
                &&& found.1@ == line_text(input.input@, start)
            },
            Err(e) => !starts_with(input.input@, input.offset as int, lead@) && is_literal_error(
                e,
                input.input@,
                input.offset as int,
                lead,
            ),
        }),
{
    match better_tag(input, lead) {
        Ok(behind) => {
            let start = whitespace0(&behind);
            Ok(str_until_newline(&start))
        },
        Err(e) => Err(e),
    }
}

} // verus!
