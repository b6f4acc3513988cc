//! Links and the resolution of their targets.

use vstd::prelude::*;
use vstd::string::*;
use crate::address::{url_parts, url_text};
use crate::cursor::Cursor;
use crate::error::Error;
use crate::grammar::{starts_with, token_end};
use crate::model::{arrow, link_label, link_next, link_token, TargetModel};
use crate::scanner::{
    better_tag, is_literal_error, is_too_long_error, open, optional_str_until_newline,
    skip_terminator, whitespace0,
};
use crate::text::{chars_of, string_of, text_of};

verus! {

/// The target that a token resolves to, given what the URL parser made of it.
pub open spec fn resolved(token: Seq<char>, parsed: Option<Seq<char>>) -> TargetModel {
    match parsed {
        Some(url) => TargetModel::Absolute(url),
        None => TargetModel::Relative(token),
    }
}

/// The target that a token resolves to: absolute, in the URL parser's
/// serialization, where the token is an absolute URL, else relative.
pub open spec fn resolve(token: Seq<char>) -> TargetModel {
    resolved(token, url_text(token))
}

/// `resolve` as a value, for the functions that take the resolution as an argument.
pub open spec fn resolver() -> spec_fn(Seq<char>) -> TargetModel {
    |token: Seq<char>| resolve(token)
}

/// Finds where the token that starts at `from` ends.
fn find_token_end(chars: &[char], from: usize) -> (end: usize)
    requires
        from <= chars@.len(),
    ensures
        end == token_end(chars@, from as int),
        from <= end <= chars@.len(),
{
    let len = chars.len();
    let mut end: usize = from;
    while end < len && !(chars[end] == ' ' || chars[end] == '\t' || chars[end] == '\n' || (len
        - end >= 2 && chars[end] == '\r' && chars[end + 1] == '\n'))
        invariant
            len == chars@.len(),
            from <= end <= len,
            token_end(chars@, end as int) == token_end(chars@, from as int),
        decreases len - end,
    {
        end += 1;
    }
    end
}

/// Where a link points.
#[derive(Clone, Debug, PartialEq, Eq, PartialOrd, Ord)]
pub enum LinkTarget {
    /// An absolute URL, in the serialization that the URL parser gave it.
    Absolute(String),
    /// Anything else, kept as it was written.
    Relative(String),
}

impl View for LinkTarget {
    type V = TargetModel;

    open spec fn view(&self) -> TargetModel {
        match self {
            LinkTarget::Absolute(url) => TargetModel::Absolute(url@),
            LinkTarget::Relative(path) => TargetModel::Relative(path@),
        }
    }
}

impl LinkTarget {
    /// Classifies a token by what the URL parser made of it: absolute where
    /// it parsed, else relative with the token unchanged.
    pub fn from_parsed(token: String, parsed: Option<String>) -> (t: LinkTarget)
        ensures
            t@ == resolved(token@, text_of(parsed)),
    {
        match parsed {
            Some(url) => LinkTarget::Absolute(url),
            None => LinkTarget::Relative(token),
        }
    }

    /// Classifies a token as an absolute URL or a relative path. It never fails.
    pub fn resolve(token: String) -> (t: LinkTarget)
        ensures
            t@ == resolve(token@),
    {
        let parsed = match url_parts(token.as_str()) {
            Ok(parts) => Some(parts.text),
            Err(_) => None,
        };
        LinkTarget::from_parsed(token, parsed)
    }

    /// Takes the target token at the cursor, which runs up to the next
    /// whitespace or the end of the line, and resolves it. It never fails;
    /// the token may be empty.
    pub fn parse<'a>(input: &Cursor<'a>) -> (r: (Cursor<'a>, LinkTarget))
        requires
            input.wf(),
        ensures
            r.0.stands_at(input.input@, token_end(input.input@, input.offset as int)),
            r.1@ == resolve(
                input.input@.subrange(
                    input.offset as int,
                    token_end(input.input@, input.offset as int),
                ),
            ),
    {
        let end = find_token_end(input.input, input.offset);
        let token = string_of(input.input, input.offset, end);
        (input.advance(end - input.offset), LinkTarget::resolve(token))
    }

    /// Resolves `input` as one token, whatever it holds.
    pub fn from_str(input: &str) -> (t: LinkTarget)
        ensures
            t@ == resolve(input@),
    {
        LinkTarget::resolve(String::from_str(input))
    }

    /// Detaches the target from the input it was made from; a target owns
    /// its text already, so this is the same value.
    pub fn into_static(self) -> (t: LinkTarget)
        ensures
            t == self,
    {
        self
    }
}

/// A link line: its target and, where one was given, its label.
#[derive(Clone, Debug, PartialEq, Eq, PartialOrd, Ord)]
pub struct Link {
    pub target: LinkTarget,
    pub text: Option<String>,
}

impl Link {
    /// A link to `url`, with the given label. Nothing is parsed: the whole
    /// of `url` is resolved as one token, absolute where the URL parser
    /// accepts it and else relative as it stands, and the label is taken
    /// as it is. It never fails.
    pub fn new(url: &str, text: Option<&str>) -> (r: Result<Link, Error>)
        ensures
            r matches Ok(link),
            r->Ok_0.target@ == resolve(url@),
            (match text {
                Some(label) => r->Ok_0.text matches Some(t) && t@ == label@,
                None => r->Ok_0.text is None,
            }),
    {
        let target = LinkTarget::from_str(url);
        let text = match text {
            Some(label) => Some(String::from_str(label)),
            None => None,
        };
        Ok(Link { target, text })
    }

    /// A link line: `=>`, optional whitespace, the target token, and then
    /// either whitespace and an optional label or the end of the line.
    pub fn parse<'a>(input: &Cursor<'a>) -> (r: Result<(Cursor<'a>, Link), Error>)
        requires
            input.wf(),
        ensures
            (match r {
                Ok(found) => {
                    &&& starts_with(input.input@, input.offset as int, arrow())
                    &&& found.0.stands_at(
                        input.input@,
                        link_next(input.input@, input.offset as int),
                    )
                    &&& found.1.target@ == resolve(link_token(input.input@, input.offset as int))
                    &&& text_of(found.1.text) == link_label(input.input@, input.offset as int)
                },
                Err(e) => !starts_with(input.input@, input.offset as int, arrow())
                    && is_literal_error(e, input.input@, input.offset as int, "=>"),
            }),
    {
        proof {
            reveal_strlit("=>");
            assert("=>"@ =~= arrow());
        }
        let behind = match better_tag(input, "=>") {
            Ok(behind) => behind,
            Err(e) => {
                return Err(e);
            },
        };
        let at_target = whitespace0(&behind);
        let (at_gap, target) = LinkTarget::parse(&at_target);
        if !at_gap.is_empty() && (at_gap.input[at_gap.offset] == ' '
            || at_gap.input[at_gap.offset] == '\t') {
            let at_label = whitespace0(&at_gap);
            let (next, text) = optional_str_until_newline(&at_label);
            Ok((next, Link { target, text }))
        } else {
            Ok((skip_terminator(&at_gap), Link { target, text: None }))
        }
    }

    /// Reads a link from the start of `input`; what follows the link's line
    /// is ignored.
    pub fn from_str(input: &str) -> (r: Result<Link, Error>)
        ensures
            (match r {
                Ok(link) => {
                    &&& starts_with(input@, 0, arrow())
                    &&& link.target@ == resolve(link_token(input@, 0))
                    &&& text_of(link.text) == link_label(input@, 0)
                },
                Err(e) => if input@.len() < usize::MAX {
                    !starts_with(input@, 0, arrow()) && is_literal_error(e, input@, 0, "=>")
                } else {
                    is_too_long_error(e)
                },
            }),
    {
        let chars = chars_of(input);
        let start = match open(chars.as_slice()) {
            Ok(start) => start,
            Err(e) => {
                return Err(e);
            },
        };
        match Link::parse(&start) {
            Ok((_, link)) => Ok(link),
            Err(e) => Err(e),
        }
    }

    /// Detaches the link from the input it was made from; a link owns its
    /// text already, so this is the same value.
    pub fn into_static(self) -> (l: Link)
        ensures
            l == self,
    {
        self
    }
}

} // verus!
