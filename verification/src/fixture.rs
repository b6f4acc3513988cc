//! Constructors for single line records, for fixtures and for documents
//! that are put together by hand. None of them parses a line: the text is
//! taken as it is given.

use vstd::pervasive::unreached;
use vstd::prelude::*;
use vstd::string::*;
use crate::heading::Heading;
use crate::line::{Preformatted, RawLine};
use crate::link::{resolve, Link};
use crate::model::LineModel;

verus! {

/// The characters of an optional string slice.
pub open spec fn slice_text(text: Option<&str>) -> Option<Seq<char>> {
    match text {
        Some(t) => Some(t@),
        None => None,
    }
}

/// A blockquote line with the given text.
pub fn blockquote(input: &str) -> (line: RawLine)
    ensures
        line@ == (LineModel::Blockquote { text: input@ }),
{
    RawLine::Blockquote(String::from_str(input))
}

/// A heading of level 1 with the given text.
pub fn h1(input: &str) -> (line: RawLine)
    ensures
        line@ == (LineModel::Heading { level: 1, text: input@ }),
{
    RawLine::Heading(Heading::H1(String::from_str(input)))
}

/// A heading of level 2 with the given text.
pub fn h2(input: &str) -> (line: RawLine)
    ensures
        line@ == (LineModel::Heading { level: 2, text: input@ }),
{
    RawLine::Heading(Heading::H2(String::from_str(input)))
}

/// A heading of level 3 with the given text.
pub fn h3(input: &str) -> (line: RawLine)
    ensures
        line@ == (LineModel::Heading { level: 3, text: input@ }),
{
    RawLine::Heading(Heading::H3(String::from_str(input)))
}

/// A list item with the given text.
pub fn list_item(input: &str) -> (line: RawLine)
    ensures
        line@ == (LineModel::ListItem { text: input@ }),
{
    RawLine::ListItem(String::from_str(input))
}

/// A text line with the given text.
pub fn text(input: &str) -> (line: RawLine)
    ensures
        line@ == (LineModel::Text { text: input@ }),
{
    RawLine::Text(String::from_str(input))
}

/// A link to `url`, with the given label. The whole of `url` is resolved
/// as one token: absolute where the URL parser accepts it, else relative
/// as it stands.
pub fn link(url: &str, label: Option<&str>) -> (line: RawLine)
    ensures
        line@ == (LineModel::Link { target: resolve(url@), label: slice_text(label) }),
{
    match Link::new(url, label) {
        Ok(link) => RawLine::Link(link),
        Err(_) => unreached(),
    }
}

/// A preformatted block with the given alt-text and body.
pub fn preformatted(alt_text: Option<&str>, body: &str) -> (line: RawLine)
    ensures
        line@ == (LineModel::Preformatted { alt_text: slice_text(alt_text), text: body@ }),
{
    let alt_text = match alt_text {
        Some(alt) => Some(String::from_str(alt)),
        None => None,
    };
    RawLine::Preformatted(Preformatted { alt_text, text: String::from_str(body) })
}

} // verus!
