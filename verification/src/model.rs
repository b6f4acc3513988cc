//! What a document means: the record that each line stands for, and the
//! sequence of records of a whole document, as functions of its characters.

use vstd::prelude::*;
use crate::grammar::{
    after_line, at_line_end, is_hspace, lemma_line_end_bounds, lemma_skip_hspace_bounds,
    lemma_token_end_bounds, line_text, skip_hspace, starts_with, terminator_len, token_end,
};

verus! {

/// Where a link points: a URL in its normalised spelling, or a path kept as written.
pub enum TargetModel {
    Absolute(Seq<char>),
    Relative(Seq<char>),
}

/// One line record, as plain mathematical data.
pub enum LineModel {
    Blockquote { text: Seq<char> },
    Heading { level: int, text: Seq<char> },
    Link { target: TargetModel, label: Option<Seq<char>> },
    ListItem { text: Seq<char> },
    Preformatted { alt_text: Option<Seq<char>>, text: Seq<char> },
    Text { text: Seq<char> },
}

/// An empty text stands for none.
pub open spec fn optional(text: Seq<char>) -> Option<Seq<char>> {
    if text.len() == 0 {
        None
    } else {
        Some(text)
    }
}

/// The fence that opens and closes a preformatted block.
pub open spec fn fence() -> Seq<char> {
    seq!['`', '`', '`']
}

/// The leader of a link line.
pub open spec fn arrow() -> Seq<char> {
    seq!['=', '>']
}

/// The leader of a list item: an asterisk and exactly one space.
pub open spec fn bullet() -> Seq<char> {
    seq!['*', ' ']
}

/// The leader of a blockquote line.
pub open spec fn quote() -> Seq<char> {
    seq!['>']
}

/// A heading leader of the given level: that many number signs.
pub open spec fn hashes(level: int) -> Seq<char> {
    Seq::new(level as nat, |k: int| '#')
}

/// The text of a link target.
pub open spec fn target_text(target: TargetModel) -> Seq<char> {
    match target {
        TargetModel::Absolute(url) => url,
        TargetModel::Relative(path) => path,
    }
}

/// The text of an optional part of a line; nothing where there is none.
pub open spec fn text_or_nothing(text: Option<Seq<char>>) -> Seq<char> {
    match text {
        Some(t) => t,
        None => Seq::empty(),
    }
}

/// The canonical spelling of a record: its leader, one space where the
/// grammar skips whitespace, and its text. A link's label follows its
/// target after one space; a preformatted block is spelled with its two
/// fences, each on a line of its own. The last line has no terminator.
pub open spec fn rendering(record: LineModel) -> Seq<char> {
    match record {
        LineModel::Blockquote { text } => quote() + seq![' '] + text,
        LineModel::Heading { level, text } => hashes(level) + seq![' '] + text,
        LineModel::Link { target, label } => arrow() + seq![' '] + target_text(target) + (
        match label {
            Some(l) => seq![' '] + l,
            None => Seq::empty(),
        }),
        LineModel::ListItem { text } => bullet() + text,
        LineModel::Preformatted { alt_text, text } => fence() + text_or_nothing(alt_text)
            + seq!['\n'] + text + seq!['\n'] + fence(),
        LineModel::Text { text } => text,
    }
}

/// The line that starts at `p` is a closing fence: the fence and nothing else.
pub open spec fn is_fence_line(s: Seq<char>, p: int) -> bool {
    starts_with(s, p, fence()) && at_line_end(s, p + 3)
}

/// The start of the first closing fence line among the lines that start at
/// `p` and after it; -1 where the document ends before one is found.
pub open spec fn closing_fence(s: Seq<char>, p: int) -> int
    decreases s.len() - p,
{
    if p < 0 || p >= s.len() {
        -1
    } else if is_fence_line(s, p) {
        p
    } else {
        proof {
            lemma_line_end_bounds(s, p);
        }
        closing_fence(s, after_line(s, p))
    }
}

/// Where the body of the block ends whose body starts at `body` and whose
/// closing fence starts at `close`: before the terminator in front of the
/// fence, so that the last body line keeps no terminator.
pub open spec fn body_end(s: Seq<char>, body: int, close: int) -> int {
    if close <= body {
        body
    } else if close - 2 >= body && s[close - 2] == '\r' {
        close - 2
    } else {
        close - 1
    }
}

/// The heading level of the leader at `i`, the longest leader first; 0 where
/// no heading starts.
pub open spec fn heading_level(s: Seq<char>, i: int) -> int {
    if starts_with(s, i, hashes(3)) {
        3
    } else if starts_with(s, i, hashes(2)) {
        2
    } else if starts_with(s, i, hashes(1)) {
        1
    } else {
        0
    }
}

/// Where the target token of the link at `i` starts.
pub open spec fn link_target_start(s: Seq<char>, i: int) -> int {
    skip_hspace(s, i + 2)
}

/// Where the target token of the link at `i` ends.
pub open spec fn link_target_end(s: Seq<char>, i: int) -> int {
    token_end(s, link_target_start(s, i))
}

/// The target token of the link at `i`.
pub open spec fn link_token(s: Seq<char>, i: int) -> Seq<char> {
    s.subrange(link_target_start(s, i), link_target_end(s, i))
}

/// Whitespace follows the target of the link at `i`, so a label may follow.
pub open spec fn link_has_gap(s: Seq<char>, i: int) -> bool {
    link_target_end(s, i) < s.len() && is_hspace(s[link_target_end(s, i)])
}

/// Where the label of the link at `i` starts, given that whitespace follows its target.
pub open spec fn link_label_start(s: Seq<char>, i: int) -> int {
    skip_hspace(s, link_target_end(s, i))
}

/// The label of the link at `i`.
pub open spec fn link_label(s: Seq<char>, i: int) -> Option<Seq<char>> {
    if link_has_gap(s, i) {
        optional(line_text(s, link_label_start(s, i)))
    } else {
        None
    }
}

/// The position behind the link line at `i`.
pub open spec fn link_next(s: Seq<char>, i: int) -> int {
    if link_has_gap(s, i) {
        after_line(s, link_label_start(s, i))
    } else {
        link_target_end(s, i) + terminator_len(s, link_target_end(s, i))
    }
}

/// What stands at a position of a document.
pub enum Outcome {
    /// A record, and the position behind what it consumed.
    Line { record: LineModel, next: int },
    /// A fence that opens a block which nothing closes.
    Unterminated,
}

/// The record at position `i`, by the classifiers in their fixed order:
/// preformatted block, heading, link, list item, blockquote, text. `target`
/// says how a link's token is resolved.
#[verifier::opaque]
pub open spec fn classify(
    s: Seq<char>,
    i: int,
    target: spec_fn(Seq<char>) -> TargetModel,
) -> Outcome {
    if starts_with(s, i, fence()) {
        let body = after_line(s, i + 3);
        let close = closing_fence(s, body);
        if close < 0 {
            Outcome::Unterminated
        } else {
            Outcome::Line {
                record: LineModel::Preformatted {
                    alt_text: optional(line_text(s, i + 3)),
                    text: s.subrange(body, body_end(s, body, close)),
                },
                next: after_line(s, close + 3),
            }
        }
    } else if heading_level(s, i) > 0 {
        let start = skip_hspace(s, i + heading_level(s, i));
        Outcome::Line {
            record: LineModel::Heading { level: heading_level(s, i), text: line_text(s, start) },
            next: after_line(s, start),
        }
    } else if starts_with(s, i, arrow()) {
        Outcome::Line {
            record: LineModel::Link { target: target(link_token(s, i)), label: link_label(s, i) },
            next: link_next(s, i),
        }
    } else if starts_with(s, i, bullet()) {
        Outcome::Line {
            record: LineModel::ListItem { text: line_text(s, i + 2) },
            next: after_line(s, i + 2),
        }
    } else if starts_with(s, i, quote()) {
        let start = skip_hspace(s, i + 1);
        Outcome::Line {
            record: LineModel::Blockquote { text: line_text(s, start) },
            next: after_line(s, start),
        }
    } else {
        Outcome::Line { record: LineModel::Text { text: line_text(s, i) }, next: after_line(s, i) }
    }
}

/// A closing fence, where there is one, lies inside the document at or after `p`.
pub proof fn lemma_closing_fence_bounds(s: Seq<char>, p: int)
    requires
        0 <= p <= s.len(),
    ensures
        closing_fence(s, p) == -1 || (p <= closing_fence(s, p) && closing_fence(s, p) + 3
            <= s.len() && is_fence_line(s, closing_fence(s, p))),
    decreases s.len() - p,
{
    if p < s.len() && !is_fence_line(s, p) {
        lemma_line_end_bounds(s, p);
        lemma_closing_fence_bounds(s, after_line(s, p));
    }
}

/// Every record consumes at least one character and stays inside the document.
pub proof fn lemma_classify_advances(
    s: Seq<char>,
    i: int,
    target: spec_fn(Seq<char>) -> TargetModel,
)
    requires
        0 <= i < s.len(),
    ensures
        classify(s, i, target) matches Outcome::Line { next, .. } ==> i < next <= s.len(),
{
    reveal(classify);
    if starts_with(s, i, fence()) {
        lemma_line_end_bounds(s, i + 3);
        let body = after_line(s, i + 3);
        lemma_closing_fence_bounds(s, body);
        let close = closing_fence(s, body);
        if close >= 0 {
            lemma_line_end_bounds(s, close + 3);
        }
    } else if heading_level(s, i) > 0 {
        let start = skip_hspace(s, i + heading_level(s, i));
        lemma_skip_hspace_bounds(s, i + heading_level(s, i));
        lemma_line_end_bounds(s, start);
    } else if starts_with(s, i, arrow()) {
        lemma_skip_hspace_bounds(s, i + 2);
        lemma_token_end_bounds(s, link_target_start(s, i));
        if link_has_gap(s, i) {
            lemma_skip_hspace_bounds(s, link_target_end(s, i));
            lemma_line_end_bounds(s, link_label_start(s, i));
        }
    } else if starts_with(s, i, bullet()) {
        lemma_line_end_bounds(s, i + 2);
    } else if starts_with(s, i, quote()) {
        lemma_skip_hspace_bounds(s, i + 1);
        lemma_line_end_bounds(s, skip_hspace(s, i + 1));
    } else {
        lemma_line_end_bounds(s, i);
    }
}

/// The records of the document from position `i` on; none where a
/// preformatted block is left open.
pub open spec fn records_from(
    s: Seq<char>,
    i: int,
    target: spec_fn(Seq<char>) -> TargetModel,
) -> Option<Seq<LineModel>>
    decreases s.len() - i,
{
    if i < 0 || i >= s.len() {
        Some(Seq::empty())
    } else {
        match classify(s, i, target) {
            Outcome::Unterminated => None,
            Outcome::Line { record, next } => {
                proof {
                    lemma_classify_advances(s, i, target);
                }
                match records_from(s, next, target) {
                    Some(rest) => Some(seq![record] + rest),
                    None => None,
                }
            },
        }
    }
}

/// The position of the first fence, from `i` on, that opens a block which
/// nothing closes; -1 where every block is closed.
pub open spec fn first_open_fence(
    s: Seq<char>,
    i: int,
    target: spec_fn(Seq<char>) -> TargetModel,
) -> int
    decreases s.len() - i,
{
    if i < 0 || i >= s.len() {
        -1
    } else {
        match classify(s, i, target) {
            Outcome::Unterminated => i,
            Outcome::Line { record, next } => {
                proof {
                    lemma_classify_advances(s, i, target);
                }
                first_open_fence(s, next, target)
            },
        }
    }
}

/// One step of the document: a record is followed by the records behind it,
/// and an open fence ends the document with no records at all.
pub proof fn lemma_records_step(s: Seq<char>, i: int, target: spec_fn(Seq<char>) -> TargetModel)
    requires
        0 <= i < s.len(),
    ensures
        (match classify(s, i, target) {
            Outcome::Unterminated => {
                &&& records_from(s, i, target) is None
                &&& first_open_fence(s, i, target) == i
            },
            Outcome::Line { record, next } => {
                &&& i < next <= s.len()
                &&& first_open_fence(s, i, target) == first_open_fence(s, next, target)
                &&& records_from(s, i, target) == (match records_from(s, next, target) {
                    Some(rest) => Some(seq![record] + rest),
                    None => None,
                })
            },
        }),
{
    lemma_classify_advances(s, i, target);
}

} // verus!
