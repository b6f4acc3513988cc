//! The line records that a document is made of.

use vstd::prelude::*;
use vstd::string::*;
use crate::heading::Heading;
use crate::link::{Link, LinkTarget};
use crate::text::text_of;
use crate::model::{bullet, hashes, quote, rendering, LineModel};

verus! {

/// A preformatted block: the text between two fences, and the alt-text
/// that followed the opening fence, if any.
#[derive(Clone, Debug, PartialEq, Eq, PartialOrd, Ord)]
pub struct Preformatted {
    pub alt_text: Option<String>,
    pub text: String,
}

/// One line of a document (a whole block, for preformatted text).
#[derive(Clone, Debug, PartialEq, Eq, PartialOrd, Ord)]
pub enum RawLine {
    Blockquote(String),
    Heading(Heading),
    Link(Link),
    ListItem(String),
    Preformatted(Preformatted),
    Text(String),
}

impl View for RawLine {
    type V = LineModel;

    open spec fn view(&self) -> LineModel {
        match self {
            RawLine::Blockquote(text) => LineModel::Blockquote { text: text@ },
            RawLine::Heading(heading) => LineModel::Heading {
                level: heading.level(),
                text: heading.text(),
            },
            RawLine::Link(link) => LineModel::Link {
                target: link.target@,
                label: text_of(link.text),
            },
            RawLine::ListItem(text) => LineModel::ListItem { text: text@ },
            RawLine::Preformatted(block) => LineModel::Preformatted {
                alt_text: text_of(block.alt_text),
                text: block.text@,
            },
            RawLine::Text(text) => LineModel::Text { text: text@ },
        }
    }
}

impl RawLine {
    /// Spells the record out in its canonical form: the leader, one space
    /// where the grammar skips whitespace, and the text, with no terminator
    /// behind the last line.
    pub fn to_string(&self) -> (s: String)
        ensures
            s@ == rendering(self@),
    {
        proof {
            reveal_strlit("> ");
            reveal_strlit("# ");
            reveal_strlit("## ");
            reveal_strlit("### ");
            reveal_strlit("=> ");
            reveal_strlit(" ");
            reveal_strlit("* ");
            reveal_strlit("```");
            reveal_strlit("\n");
            reveal_strlit("\n```");
        }
        match self {
            RawLine::Blockquote(text) => {
                let mut s = String::from_str("> ");
                s.append(text.as_str());
                assert(s@ =~= quote() + seq![' '] + text@);
                s
            },
            RawLine::Heading(heading) => {
                let (leader, text) = match heading {
                    Heading::H1(text) => ("# ", text),
                    Heading::H2(text) => ("## ", text),
                    Heading::H3(text) => ("### ", text),
                };
                let mut s = String::from_str(leader);
                s.append(text.as_str());
                assert(s@ =~= hashes(heading.level()) + seq![' '] + heading.text());
                s
            },
            RawLine::Link(link) => {
                let mut s = String::from_str("=> ");
                match &link.target {
                    LinkTarget::Absolute(url) => s.append(url.as_str()),
                    LinkTarget::Relative(path) => s.append(path.as_str()),
                }
                match &link.text {
                    Some(label) => {
                        s.append(" ");
                        s.append(label.as_str());
                    },
                    None => {},
                }
                assert(s@ =~= rendering(self@));
                s
            },
            RawLine::ListItem(text) => {
                let mut s = String::from_str("* ");
                s.append(text.as_str());
                assert(s@ =~= bullet() + text@);
                s
            },
            RawLine::Preformatted(block) => {
                let mut s = String::from_str("```");
                match &block.alt_text {
                    Some(alt) => s.append(alt.as_str()),
                    None => {},
                }
                s.append("\n");
                s.append(block.text.as_str());
                s.append("\n```");
                assert(s@ =~= rendering(self@));
                s
            },
            RawLine::Text(text) => text.clone(),
        }
    }
}

/// The records of a vector of lines, in order.
pub open spec fn views(lines: Seq<RawLine>) -> Seq<LineModel> {
    Seq::new(lines.len(), |k: int| lines[k]@)
}

} // verus!
