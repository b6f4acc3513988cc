//! The cursor: a position in a document together with its line and column.

use vstd::prelude::*;
use crate::grammar::{column_at, lemma_position_bounds, line_at};

verus! {

/// An immutable view of what is left of a document. Scanning never changes a
/// cursor; it makes a new one further on.
#[derive(Debug, Clone, Copy)]
pub struct Cursor<'a> {
    /// The whole document.
    pub input: &'a [char],
    /// How many characters of it have been consumed.
    pub offset: usize,
    /// 1-based line of the next character.
    pub line: usize,
    /// 1-based column of the next character.
    pub column: usize,
}

impl<'a> Cursor<'a> {
    /// Line and column are those of the offset, which lies inside the document.
    pub open spec fn wf(&self) -> bool {
        &&& self.offset <= self.input@.len() < usize::MAX
        &&& self.line == line_at(self.input@, self.offset as int)
        &&& self.column == column_at(self.input@, self.offset as int)
    }

    /// The text that is left.
    pub open spec fn remaining(&self) -> Seq<char> {
        self.input@.subrange(self.offset as int, self.input@.len() as int)
    }

    /// This cursor stands at `offset` in the document `s`.
    pub open spec fn stands_at(&self, s: Seq<char>, offset: int) -> bool {
        self.wf() && self.input@ == s && self.offset == offset
    }

    /// A cursor at the start of `input`: line 1, column 1.
    pub fn new(input: &'a [char]) -> (c: Cursor<'a>)
        requires
            input@.len() < usize::MAX,
        ensures
            c.stands_at(input@, 0),
            c.line == 1,
            c.column == 1,
    {
        Cursor { input, offset: 0, line: 1, column: 1 }
    }

    /// Nothing is left.
    pub fn is_empty(&self) -> (b: bool)
        requires
            self.wf(),
        ensures
            b == (self.offset == self.input@.len()),
            b == (self.remaining().len() == 0),
    {
        self.offset == self.input.len()
    }

    /// The cursor `n` characters further on.
    pub fn advance(&self, n: usize) -> (c: Cursor<'a>)
        requires
            self.wf(),
            self.offset + n <= self.input@.len(),
        ensures
            c.stands_at(self.input@, self.offset + n),
    {
        let mut c = *self;
        let end = self.offset + n;
        while c.offset < end
            invariant
                c.wf(),
                c.input == self.input,
                self.offset <= c.offset <= end <= self.input@.len(),
            decreases end - c.offset,
        {
            proof {
                lemma_position_bounds(c.input@, c.offset as int);
            }
            if c.input[c.offset] == '\n' {
                c.line = c.line + 1;
                c.column = 1;
            } else {
                c.column = c.column + 1;
            }
            c.offset = c.offset + 1;
        }
        c
    }
}

} // verus!
