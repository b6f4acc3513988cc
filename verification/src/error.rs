//! Diagnostics: where a scan failed, what was expected there, and the
//! failure underneath it, if this one only adds context.

use vstd::prelude::*;
use crate::cursor::Cursor;
use crate::grammar::{column_at, line_at};
use crate::text::string_of;

verus! {

/// The longest snippet of the offending text that an error carries, in characters.
pub const SNIPPET_LEN: usize = 15;

/// What was expected where a scan failed.
#[derive(Debug, PartialEq, Eq)]
pub enum ErrorKind {
    /// A wrapping annotation that names the construct being scanned; the
    /// cause is the previous error.
    Context(&'static str),
    /// The end of the input was expected.
    ExpectedEOF,
    /// The end of the line was expected.
    ExpectedLineEnd,
    /// One or more whitespace characters were expected.
    ExpectedWhitespace,
    /// The given literal was expected.
    ExpectedStr(&'static str),
    /// A low-level scan failed; the payload names it.
    Internal(&'static str),
    /// A link target was not a valid URL; the payload is the URL parser's reason.
    InvalidUrl(url::ParseError),
}

/// A located diagnostic. The chain of `prev` runs from the outermost context
/// to the innermost cause, which comes last.
#[derive(Debug, PartialEq, Eq)]
pub struct Error {
    /// 1-based line of the place the error speaks of.
    pub line: usize,
    /// 1-based column of that place, counted in characters.
    pub column: usize,
    /// The text at that place, cut to `SNIPPET_LEN` characters.
    pub snippet: String,
    /// What was expected there.
    pub kind: ErrorKind,
    /// The error that this one wraps.
    pub prev: Option<Box<Error>>,
}

/// The snippet that an error at position `i` of `s` carries.
pub open spec fn snippet_at(s: Seq<char>, i: int) -> Seq<char> {
    if i + SNIPPET_LEN <= s.len() {
        s.subrange(i, i + SNIPPET_LEN)
    } else {
        s.subrange(i, s.len() as int)
    }
}

impl Error {
    /// The error sits at position `i` of the document `s`.
    pub open spec fn located_at(&self, s: Seq<char>, i: int) -> bool {
        &&& self.line == line_at(s, i)
        &&& self.column == column_at(s, i)
        &&& self.snippet@ == snippet_at(s, i)
        &&& self.snippet@.len() <= SNIPPET_LEN
    }

    fn inner_new(input: &Cursor<'_>, kind: ErrorKind, prev: Option<Box<Error>>) -> (e: Error)
        requires
            input.wf(),
        ensures
            e.located_at(input.input@, input.offset as int),
            e.kind == kind,
            e.prev == prev,
    {
        let len = input.input.len();
        let end = if len - input.offset >= SNIPPET_LEN {
            input.offset + SNIPPET_LEN
        } else {
            len
        };
        Error {
            line: input.line,
            column: input.column,
            snippet: string_of(input.input, input.offset, end),
            kind,
            prev,
        }
    }

    /// A root error of the given kind at the cursor's position.
    pub fn new(input: &Cursor<'_>, kind: ErrorKind) -> (e: Error)
        requires
            input.wf(),
        ensures
            e.located_at(input.input@, input.offset as int),
            e.kind == kind,
            e.prev is None,
    {
        Error::inner_new(input, kind, None)
    }

    /// An error of the given kind at the cursor's position that wraps `prev`.
    pub fn with_previous(input: &Cursor<'_>, kind: ErrorKind, prev: Error) -> (e: Error)
        requires
            input.wf(),
        ensures
            e.located_at(input.input@, input.offset as int),
            e.kind == kind,
            e.prev == Some(Box::new(prev)),
    {
        Error::inner_new(input, kind, Some(Box::new(prev)))
    }

    /// Wraps `other` in the context `ctx`, located at the cursor: `ctx`
    /// names what was being scanned when `other` came up.
    pub fn add_context(input: &Cursor<'_>, ctx: &'static str, other: Error) -> (e: Error)
        requires
            input.wf(),
        ensures
            e.located_at(input.input@, input.offset as int),
            e.kind == ErrorKind::Context(ctx),
            e.prev == Some(Box::new(other)),
    {
        Error::with_previous(input, ErrorKind::Context(ctx), other)
    }

    /// A root error at the cursor that carries the URL parser's reason.
    pub fn from_external_error(input: &Cursor<'_>, reason: url::ParseError) -> (e: Error)
        requires
            input.wf(),
        ensures
            e.located_at(input.input@, input.offset as int),
            e.kind == ErrorKind::InvalidUrl(reason),
            e.prev is None,
    {
        Error::new(input, ErrorKind::InvalidUrl(reason))
    }

    /// Detaches the error from the input it was made from. An error owns its
    /// snippet already, so this hands back the same value, chain included.
    pub fn into_static(self) -> (e: Error)
        ensures
            e == self,
    {
        self
    }
}

} // verus!
