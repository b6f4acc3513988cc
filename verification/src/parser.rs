//! The line classifiers and the document assembler.

use vstd::prelude::*;
use vstd::string::*;
use crate::cursor::Cursor;
use crate::error::{Error, ErrorKind};
use crate::grammar::{after_line, lemma_line_end_bounds, line_text, skip_hspace, starts_with};
use crate::heading::Heading;
use crate::line::{views, Preformatted, RawLine};
use crate::link::{resolver, Link};
use crate::model::{
    body_end, bullet, classify, closing_fence, fence, first_open_fence, lemma_records_step,
    optional, quote, records_from, LineModel, Outcome,
};
use crate::scanner::{
    better_tag, is_literal_error, is_too_long_error, line_end, line_with_leader, looking_at,
    open, optional_str_until_newline, skip_terminator, str_until_newline, to_line_end,
};
use crate::text::{chars_of, string_of, text_of};

verus! {

/// A text line: the catch-all, which takes the rest of the line whatever it
/// holds, an empty line too.
pub fn parse_text<'a>(input: &Cursor<'a>) -> (r: (Cursor<'a>, RawLine))
    requires
        input.wf(),
    ensures
        r.0.stands_at(input.input@, after_line(input.input@, input.offset as int)),
        r.1@ == (LineModel::Text { text: line_text(input.input@, input.offset as int) }),
{
    let (next, text) = str_until_newline(input);
    (next, RawLine::Text(text))
}

/// A blockquote line: `>`, optional whitespace, then the rest of the line.
pub fn parse_blockquote<'a>(input: &Cursor<'a>) -> (r: Result<(Cursor<'a>, RawLine), Error>)
    requires
        input.wf(),
    ensures
        (match r {
            Ok(found) => {
                let start = skip_hspace(input.input@, input.offset + 1);
                &&& starts_with(input.input@, input.offset as int, quote())
                &&& found.0.stands_at(input.input@, after_line(input.input@, start))
                &&& found.1@ == (LineModel::Blockquote { text: line_text(input.input@, start) })
            },
            Err(e) => !starts_with(input.input@, input.offset as int, quote())
                && is_literal_error(e, input.input@, input.offset as int, ">"),
        }),
{
    proof {
        reveal_strlit(">");
        assert(">"@ =~= quote());
    }
    match line_with_leader(input, ">") {
        Ok((next, text)) => Ok((next, RawLine::Blockquote(text))),
        Err(e) => Err(e),
    }
}

/// A list item: `* ` with exactly one space, then the rest of the line as it stands.
pub fn parse_list_item<'a>(input: &Cursor<'a>) -> (r: Result<(Cursor<'a>, RawLine), Error>)
    requires
        input.wf(),
    ensures
        (match r {
            Ok(found) => {
                &&& starts_with(input.input@, input.offset as int, bullet())
                &&& found.0.stands_at(input.input@, after_line(input.input@, input.offset + 2))
                &&& found.1@ == (LineModel::ListItem {
                    text: line_text(input.input@, input.offset + 2),
                })
            },
            Err(e) => !starts_with(input.input@, input.offset as int, bullet())
                && is_literal_error(e, input.input@, input.offset as int, "* "),
        }),
{
    proof {
        reveal_strlit("* ");
        assert("* "@ =~= bullet());
    }
    match better_tag(input, "* ") {
        Ok(behind) => {
            let (next, text) = str_until_newline(&behind);
            Ok((next, RawLine::ListItem(text)))
        },
        Err(e) => Err(e),
    }
}

/// What the preformatted classifier reports at `i`: that a preformatted
/// block was expected there, over the missing fence at `cause_at`.
pub open spec fn is_block_error(e: Error, s: Seq<char>, i: int, cause_at: int) -> bool {
    &&& e.located_at(s, i)
    &&& e.kind matches ErrorKind::Context(what)
    &&& what@ == "a preformatted block"@
    &&& e.prev matches Some(cause)
    &&& is_literal_error(*cause, s, cause_at, "```")
}

/// A preformatted block: the opening fence with its optional alt-text, the
/// lines of the body as they stand, and the first line that is a fence and
/// nothing else, which closes the block and is consumed.
///
/// It fails where no fence opens a block at the cursor, with the missing
/// fence as the cause, and where a block opens that nothing closes, with
/// the fence missing at the end of the input as the cause. Either way the
/// error is located at the cursor.
pub fn parse_preformatted<'a>(input: &Cursor<'a>) -> (r: Result<(Cursor<'a>, RawLine), Error>)
    requires
        input.wf(),
    ensures
        (match r {
            Ok(found) => {
                let body = after_line(input.input@, input.offset + 3);
                let close = closing_fence(input.input@, body);
                &&& starts_with(input.input@, input.offset as int, fence())
                &&& close >= 0
                &&& found.0.stands_at(input.input@, after_line(input.input@, close + 3))
                &&& found.1@ == (LineModel::Preformatted {
                    alt_text: optional(line_text(input.input@, input.offset + 3)),
                    text: input.input@.subrange(body, body_end(input.input@, body, close)),
                })
            },
            Err(e) => if starts_with(input.input@, input.offset as int, fence()) {
                &&& closing_fence(input.input@, after_line(input.input@, input.offset + 3)) < 0
                &&& is_block_error(
                    e,
                    input.input@,
                    input.offset as int,
                    input.input@.len() as int,
                )
            } else {
                is_block_error(e, input.input@, input.offset as int, input.offset as int)
            },
        }),
{
    proof {
        reveal_strlit("```");
        assert("```"@ =~= fence());
    }
    let opened = match better_tag(input, "```") {
        Ok(opened) => opened,
        Err(cause) => {
            return Err(Error::add_context(input, "a preformatted block", cause));
        },
    };
    proof {
        lemma_line_end_bounds(input.input@, input.offset + 3);
    }
    let (body, alt_text) = optional_str_until_newline(&opened);
    let ghost s = input.input@;
    let mut line = body;
    let mut end: usize = body.offset;
    loop
        invariant
            input.wf(),
            body.wf(),
            line.wf(),
            s == input.input@,
            body.input@ == s,
            line.input@ == s,
            body.offset <= line.offset <= s.len(),
            body.offset <= end <= line.offset,
            closing_fence(s, line.offset as int) == closing_fence(s, body.offset as int),
            line.offset < s.len() ==> end == body_end(s, body.offset as int, line.offset as int),
            body.offset < line.offset < s.len() ==> s[line.offset - 1] == '\n',
            "```"@ == fence(),
            starts_with(s, input.offset as int, fence()),
            body.offset == after_line(s, input.offset + 3),
            text_of(alt_text) == optional(line_text(s, input.offset + 3)),
        decreases s.len() - line.offset,
    {
        if line.is_empty() {
            let cause = Error::new(&line, ErrorKind::ExpectedStr("```"));
            return Err(Error::add_context(input, "a preformatted block", cause));
        }
        if looking_at(&line, "```") {
            if let Ok(next) = line_end(&line.advance(3)) {
                let text = string_of(input.input, body.offset, end);
                return Ok((next, RawLine::Preformatted(Preformatted { alt_text, text })));
            }
        }
        proof {
            lemma_line_end_bounds(s, line.offset as int);
        }
        let stop = to_line_end(&line);
        end = stop.offset;
        line = skip_terminator(&stop);
    }
}

/// One record at the cursor, by the classifiers in their fixed order:
/// preformatted block, heading, link, list item, blockquote, text.
///
/// A classifier that does not match leaves the cursor where it was and the
/// next one is tried; text matches every line, so the only failure is a
/// fence that opens a block which nothing closes. That one is final: the
/// fence is not read as text.
pub fn parse_line<'a>(input: &Cursor<'a>) -> (r: Result<(Cursor<'a>, RawLine), Error>)
    requires
        input.wf(),
        input.offset < input.input@.len(),
    ensures
        (match r {
            Ok(found) => {
                &&& found.0.stands_at(input.input@, found.0.offset as int)
                &&& classify(input.input@, input.offset as int, resolver()) == (Outcome::Line {
                    record: found.1@,
                    next: found.0.offset as int,
                })
            },
            Err(e) => {
                &&& classify(input.input@, input.offset as int, resolver())
                    == Outcome::Unterminated
                &&& is_block_error(
                    e,
                    input.input@,
                    input.offset as int,
                    input.input@.len() as int,
                )
            },
        }),
{
    proof {
        reveal(classify);
        reveal_strlit("```");
        assert("```"@ =~= fence());
    }
    if looking_at(input, "```") {
        return parse_preformatted(input);
    }
    if let Ok((next, heading)) = Heading::parse(input) {
        return Ok((next, RawLine::Heading(heading)));
    }
    if let Ok((next, link)) = Link::parse(input) {
        return Ok((next, RawLine::Link(link)));
    }
    if let Ok(found) = parse_list_item(input) {
        return Ok(found);
    }
    if let Ok(found) = parse_blockquote(input) {
        return Ok(found);
    }
    Ok(parse_text(input))
}

/// The records `done`, followed by the records `rest`, where there are any.
pub open spec fn followed_by(done: Seq<LineModel>, rest: Option<Seq<LineModel>>) -> Option<
    Seq<LineModel>,
> {
    match rest {
        Some(rest) => Some(done + rest),
        None => None,
    }
}

/// Takes records from the cursor on until nothing is left of the input.
/// The first line that fails ends the scan with its error; nothing is skipped.
pub fn repeated_all_consuming<'a>(input: &Cursor<'a>) -> (r: Result<
    (Cursor<'a>, Vec<RawLine>),
    Error,
>)
    requires
        input.wf(),
    ensures
        (match r {
            Ok(found) => {
                &&& found.0.stands_at(input.input@, input.input@.len() as int)
                &&& records_from(input.input@, input.offset as int, resolver()) == Some(
                    views(found.1@),
                )
            },
            Err(e) => {
                let at = first_open_fence(input.input@, input.offset as int, resolver());
                &&& records_from(input.input@, input.offset as int, resolver()) is None
                &&& input.offset <= at < input.input@.len()
                &&& is_block_error(e, input.input@, at, input.input@.len() as int)
            },
        }),
{
    let ghost s = input.input@;
    let ghost start = input.offset as int;
    let mut lines: Vec<RawLine> = Vec::new();
    let mut rest = *input;
    proof {
        lemma_followed_by_nothing(views(lines@), records_from(s, start, resolver()));
    }
    while !rest.is_empty()
        invariant
            s == input.input@,
            start == input.offset,
            rest.stands_at(s, rest.offset as int),
            start <= rest.offset,
            records_from(s, start, resolver()) == followed_by(
                views(lines@),
                records_from(s, rest.offset as int, resolver()),
            ),
            first_open_fence(s, start, resolver()) == first_open_fence(
                s,
                rest.offset as int,
                resolver(),
            ),
        decreases s.len() - rest.offset,
    {
        proof {
            lemma_records_step(s, rest.offset as int, resolver());
        }
        match parse_line(&rest) {
            Ok((next, line)) => {
                proof {
                    lemma_followed_by_push(
                        lines@,
                        line,
                        records_from(s, next.offset as int, resolver()),
                    );
                }
                lines.push(line);
                rest = next;
            },
            Err(e) => {
                return Err(e);
            },
        }
    }
    proof {
        assert(views(lines@) + Seq::<LineModel>::empty() =~= views(lines@));
    }
    Ok((rest, lines))
}

/// Nothing followed by records is those records.
proof fn lemma_followed_by_nothing(done: Seq<LineModel>, rest: Option<Seq<LineModel>>)
    requires
        done.len() == 0,
    ensures
        followed_by(done, rest) == rest,
{
    if let Some(tail) = rest {
        assert(done + tail =~= tail);
    }
}

/// Moving the first of the records that follow to the end of those that are
/// done changes nothing.
proof fn lemma_followed_by_push(lines: Seq<RawLine>, line: RawLine, rest: Option<Seq<LineModel>>)
    ensures
        followed_by(views(lines.push(line)), rest) == followed_by(
            views(lines),
            followed_by(seq![line@], rest),
        ),
{
    assert(views(lines.push(line)) =~= views(lines).push(line@));
    if let Some(tail) = rest {
        assert(views(lines).push(line@) + tail =~= views(lines) + (seq![line@] + tail));
    }
}

/// Parses a whole document into its line records, in the order of the lines.
///
/// The parse is all or nothing: it fails on the first fence that opens a
/// preformatted block which nothing closes, with an error located at that
/// fence, and on no other document that a machine can hold.
pub fn parse_lines(input: &str) -> (r: Result<Vec<RawLine>, Error>)
    ensures
        (match r {
            Ok(lines) => records_from(input@, 0, resolver()) == Some(views(lines@)),
            Err(e) => if input@.len() < usize::MAX {
                let at = first_open_fence(input@, 0, resolver());
                &&& records_from(input@, 0, resolver()) is None
                &&& 0 <= at < input@.len()
                &&& is_block_error(e, input@, at, input@.len() as int)
            } else {
                is_too_long_error(e)
            },
        }),
{
    let chars = chars_of(input);
    let start = match open(chars.as_slice()) {
        Ok(start) => start,
        Err(e) => {
            return Err(e);
        },
    };
    match repeated_all_consuming(&start) {
        Ok((_, lines)) => Ok(lines),
        Err(e) => Err(e),
    }
}

} // verus!
