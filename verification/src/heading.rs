//! Headings of the three levels.

use vstd::prelude::*;
use vstd::string::*;
use crate::cursor::Cursor;
use crate::error::Error;
use crate::grammar::{after_line, line_text, skip_hspace};
use crate::model::{hashes, heading_level};
use crate::scanner::{is_literal_error, is_too_long_error, line_with_leader, open};
use crate::text::chars_of;

verus! {

/// A heading line; the variant gives its level.
#[derive(Clone, Debug, PartialEq, Eq, PartialOrd, Ord)]
pub enum Heading {
    H1(String),
    H2(String),
    H3(String),
}

impl Heading {
    /// The level: the number of number signs in the leader.
    pub open spec fn level(&self) -> int {
        match self {
            Heading::H1(_) => 1,
            Heading::H2(_) => 2,
            Heading::H3(_) => 3,
        }
    }

    /// The text of the heading.
    pub open spec fn text(&self) -> Seq<char> {
        match self {
            Heading::H1(t) => t@,
            Heading::H2(t) => t@,
            Heading::H3(t) => t@,
        }
    }

    /// A heading line: one to three number signs, the longest leader first,
    /// optional whitespace, then the rest of the line.
    pub fn parse<'a>(input: &Cursor<'a>) -> (r: Result<(Cursor<'a>, Heading), Error>)
        requires
            input.wf(),
        ensures
            (match r {
                Ok(found) => {
                    let level = heading_level(input.input@, input.offset as int);
                    let start = skip_hspace(input.input@, input.offset + level);
                    &&& level > 0
                    &&& found.0.stands_at(input.input@, after_line(input.input@, start))
                    &&& found.1.level() == level
                    &&& found.1.text() == line_text(input.input@, start)
                },
                Err(e) => heading_level(input.input@, input.offset as int) == 0
                    && is_literal_error(e, input.input@, input.offset as int, "#"),
            }),
    {
        proof {
            reveal_strlit("###");
            reveal_strlit("##");
            reveal_strlit("#");
            assert("###"@ =~= hashes(3));
            assert("##"@ =~= hashes(2));
            assert("#"@ =~= hashes(1));
        }
        if let Ok((next, text)) = line_with_leader(input, "###") {
            return Ok((next, Heading::H3(text)));
        }
        if let Ok((next, text)) = line_with_leader(input, "##") {
            return Ok((next, Heading::H2(text)));
        }
        match line_with_leader(input, "#") {
            Ok((next, text)) => Ok((next, Heading::H1(text))),
            Err(e) => Err(e),
        }
    }

    /// Reads a heading from the start of `input`; what follows the heading's
    /// line is ignored.
    pub fn from_str(input: &str) -> (r: Result<Heading, Error>)
        ensures
            (match r {
                Ok(heading) => {
                    let level = heading_level(input@, 0);
                    &&& level > 0
                    &&& heading.level() == level
                    &&& heading.text() == line_text(input@, skip_hspace(input@, level))
                },
                Err(e) => if input@.len() < usize::MAX {
                    heading_level(input@, 0) == 0 && is_literal_error(e, input@, 0, "#")
                } else {
                    is_too_long_error(e)
                },
            }),
    {
        let chars = chars_of(input);
        let start = match open(chars.as_slice()) {
            Ok(start) => start,
            Err(e) => {
                return Err(e);
            },
        };
        match Heading::parse(&start) {
            Ok((_, heading)) => Ok(heading),
            Err(e) => Err(e),
        }
    }

    /// Detaches the heading from the input it was made from; a heading owns
    /// its text already, so this is the same value.
    pub fn into_static(self) -> (h: Heading)
        ensures
            h == self,
    {
        self
    }
}

} // verus!
