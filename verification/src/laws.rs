//! What holds of every document: laws that relate the functions of the
//! grammar to one another, each proved from their definitions.

use vstd::prelude::*;
use crate::address::url_text;
use crate::grammar::{
    after_line, at_line_end, is_hspace, lemma_line_end_bounds, lemma_skip_hspace_bounds,
    lemma_token_end_bounds, line_end, line_text, skip_hspace, starts_with, terminator_len,
    token_end,
};
use crate::link::{resolve, resolver};
use crate::model::{
    arrow, body_end, bullet, classify, closing_fence, fence, hashes, heading_level,
    is_fence_line, lemma_classify_advances, lemma_records_step, link_has_gap, link_label_start,
    link_target_start, link_token, optional, quote, records_from, rendering, target_text,
    LineModel, Outcome, TargetModel,
};

verus! {

/// The stretches of the document that its records consumed, one for each
/// record, as pairs of a start and an end.
pub open spec fn spans_from(
    s: Seq<char>,
    i: int,
    target: spec_fn(Seq<char>) -> TargetModel,
) -> Seq<(int, int)>
    decreases s.len() - i,
{
    if i < 0 || i >= s.len() {
        Seq::empty()
    } else {
        match classify(s, i, target) {
            Outcome::Unterminated => Seq::empty(),
            Outcome::Line { record, next } => {
                proof {
                    lemma_classify_advances(s, i, target);
                }
                seq![(i, next)] + spans_from(s, next, target)
            },
        }
    }
}

/// The text of the given stretches of the document, one after another.
pub open spec fn text_of_spans(s: Seq<char>, spans: Seq<(int, int)>) -> Seq<char>
    decreases spans.len(),
{
    if spans.len() == 0 {
        Seq::empty()
    } else {
        s.subrange(spans[0].0, spans[0].1) + text_of_spans(s, spans.drop_first())
    }
}

/// The stretches lie one behind the other from `from` to `to`: none is
/// empty, and each starts where the one before it ends.
pub open spec fn tiles(spans: Seq<(int, int)>, from: int, to: int) -> bool
    decreases spans.len(),
{
    if spans.len() == 0 {
        from == to
    } else {
        spans[0].0 == from && from < spans[0].1 <= to && tiles(spans.drop_first(), spans[0].1, to)
    }
}

/// Total coverage, from any position on: where the rest of a document
/// parses, the stretches that its records consumed are as many as the
/// records, each record is the one classified at the start of its stretch,
/// and the stretches tile the rest of the document without gap or overlap,
/// so that their text, put together, is the rest of the document.
pub proof fn lemma_coverage_from(s: Seq<char>, i: int, target: spec_fn(Seq<char>) -> TargetModel)
    requires
        0 <= i <= s.len(),
        records_from(s, i, target) is Some,
    ensures
        spans_from(s, i, target).len() == records_from(s, i, target)->Some_0.len(),
        tiles(spans_from(s, i, target), i, s.len() as int),
        text_of_spans(s, spans_from(s, i, target)) == s.subrange(i, s.len() as int),
        forall|k: int|
            0 <= k < spans_from(s, i, target).len() ==> classify(
                s,
                (#[trigger] spans_from(s, i, target)[k]).0,
                target,
            ) == (Outcome::Line {
                record: records_from(s, i, target)->Some_0[k],
                next: spans_from(s, i, target)[k].1,
            }),
    decreases s.len() - i,
{
    if i >= s.len() {
        assert(s.subrange(i, s.len() as int) =~= Seq::<char>::empty());
    } else {
        lemma_records_step(s, i, target);
        match classify(s, i, target) {
            Outcome::Unterminated => {},
            Outcome::Line { record, next } => {
                lemma_coverage_from(s, next, target);
                let spans = spans_from(s, i, target);
                let rest = spans_from(s, next, target);
                let records = records_from(s, i, target)->Some_0;
                let later = records_from(s, next, target)->Some_0;
                assert(spans == seq![(i, next)] + rest);
                assert(spans.drop_first() =~= rest);
                assert(records == seq![record] + later);
                assert(s.subrange(i, next) + s.subrange(next, s.len() as int) =~= s.subrange(
                    i,
                    s.len() as int,
                ));
                assert forall|k: int| 0 <= k < spans.len() implies classify(
                    s,
                    (#[trigger] spans[k]).0,
                    target,
                ) == (Outcome::Line { record: records[k], next: spans[k].1 }) by {
                    if k > 0 {
                        assert(spans[k] == rest[k - 1]);
                        assert(records[k] == later[k - 1]);
                    }
                }
            },
        }
    }
}

/// Total coverage: where a document parses, the stretches that its records
/// consumed, put together in order, are the whole document, with no gap
/// and no overlap, and there is one stretch for each record.
pub proof fn law_total_coverage(s: Seq<char>, target: spec_fn(Seq<char>) -> TargetModel)
    requires
        records_from(s, 0, target) is Some,
    ensures
        spans_from(s, 0, target).len() == records_from(s, 0, target)->Some_0.len(),
        tiles(spans_from(s, 0, target), 0, s.len() as int),
        text_of_spans(s, spans_from(s, 0, target)) == s,
{
    lemma_coverage_from(s, 0, target);
    assert(s.subrange(0, s.len() as int) =~= s);
}

/// The empty document parses, and has no records.
pub proof fn law_empty_document(target: spec_fn(Seq<char>) -> TargetModel)
    ensures
        records_from(Seq::<char>::empty(), 0, target) == Some(Seq::<LineModel>::empty()),
{
}

/// No line terminator stands in the text.
pub open spec fn unbroken(text: Seq<char>) -> bool {
    forall|k: int| 0 <= k < text.len() ==> terminator_len(text, #[trigger] (k + 0)) == 0
}

/// The text of a line holds no line terminator.
pub proof fn lemma_line_text_unbroken(s: Seq<char>, i: int)
    requires
        0 <= i <= s.len(),
    ensures
        unbroken(line_text(s, i)),
{
    lemma_line_end_bounds(s, i);
    let text = line_text(s, i);
    assert forall|k: int| 0 <= k < text.len() implies terminator_len(text, #[trigger] (k + 0))
        == 0 by {
        assert(text[k] == s[i + k]);
        assert(!at_line_end(s, i + k));
        if k + 1 < text.len() {
            assert(text[k + 1] == s[i + k + 1]);
        }
    }
}

/// No record but a preformatted block holds a line terminator: not in its
/// text, not in a link's label, and not in a block's alt-text either. Only
/// the body of a preformatted block may run over several lines.
pub proof fn law_records_are_single_lines(
    s: Seq<char>,
    i: int,
    target: spec_fn(Seq<char>) -> TargetModel,
)
    requires
        0 <= i < s.len(),
    ensures
        (match classify(s, i, target) {
            Outcome::Line { record, next } => match record {
                LineModel::Blockquote { text } => unbroken(text),
                LineModel::Heading { level, text } => 1 <= level <= 3 && unbroken(text),
                LineModel::Link { target, label } => label matches Some(l) ==> unbroken(l),
                LineModel::ListItem { text } => unbroken(text),
                LineModel::Preformatted { alt_text, text } => alt_text matches Some(a)
                    ==> unbroken(a),
                LineModel::Text { text } => unbroken(text),
            },
            Outcome::Unterminated => true,
        }),
{
    reveal(classify);
    if starts_with(s, i, fence()) {
        lemma_line_text_unbroken(s, i + 3);
    } else if heading_level(s, i) > 0 {
        lemma_skip_hspace_bounds(s, i + heading_level(s, i));
        lemma_line_text_unbroken(s, skip_hspace(s, i + heading_level(s, i)));
    } else if starts_with(s, i, arrow()) {
        if link_has_gap(s, i) {
            lemma_skip_hspace_bounds(s, i + 2);
            lemma_token_end_bounds(s, link_target_start(s, i));
            lemma_skip_hspace_bounds(s, token_end(s, link_target_start(s, i)));
            lemma_line_text_unbroken(s, link_label_start(s, i));
        }
    } else if starts_with(s, i, bullet()) {
        lemma_line_text_unbroken(s, i + 2);
    } else if starts_with(s, i, quote()) {
        lemma_skip_hspace_bounds(s, i + 1);
        lemma_line_text_unbroken(s, skip_hspace(s, i + 1));
    } else {
        lemma_line_text_unbroken(s, i);
    }
}

/// No line feed stands in the text.
pub open spec fn single_line(text: Seq<char>) -> bool {
    forall|k: int| 0 <= k < text.len() ==> #[trigger] text[k] != '\n'
}

/// The text does not begin with horizontal whitespace.
pub open spec fn flush(text: Seq<char>) -> bool {
    text.len() == 0 || !is_hspace(text[0])
}

/// Where no line feed stands from `i` on, the line runs to the end of the document.
pub proof fn lemma_last_line(s: Seq<char>, i: int)
    requires
        0 <= i <= s.len(),
        forall|k: int| i <= k < s.len() ==> #[trigger] s[k] != '\n',
    ensures
        line_end(s, i) == s.len(),
        after_line(s, i) == s.len(),
    decreases s.len() - i,
{
    if i < s.len() {
        lemma_last_line(s, i + 1);
    }
}

/// A document that is one record and nothing else.
pub proof fn lemma_single_record(
    s: Seq<char>,
    record: LineModel,
    target: spec_fn(Seq<char>) -> TargetModel,
)
    requires
        s.len() > 0,
        classify(s, 0, target) == (Outcome::Line { record, next: s.len() as int }),
    ensures
        records_from(s, 0, target) == Some(seq![record]),
{
    lemma_records_step(s, 0, target);
    assert(records_from(s, s.len() as int, target) == Some(Seq::<LineModel>::empty()));
    assert(seq![record] + Seq::<LineModel>::empty() =~= seq![record]);
}

/// Round trip of a heading: a heading of level 1 to 3 whose text is a
/// single line that does not begin with whitespace is what its canonical
/// spelling parses to, and nothing else comes out of the parse.
pub proof fn law_heading_round_trip(
    level: int,
    text: Seq<char>,
    target: spec_fn(Seq<char>) -> TargetModel,
)
    requires
        1 <= level <= 3,
        single_line(text),
        flush(text),
    ensures
        records_from(rendering(LineModel::Heading { level, text }), 0, target) == Some(
            seq![LineModel::Heading { level, text }],
        ),
{
    let record = LineModel::Heading { level, text };
    let s = rendering(record);
    let start = level + 1;
    assert(s.len() == level + 1 + text.len());
    assert(forall|k: int| 0 <= k < level ==> s[k] == '#');
    assert(s[level] == ' ');
    assert(forall|k: int| 0 <= k < text.len() ==> s[start + k] == text[k]);
    assert(!starts_with(s, 0, fence())) by {
        if starts_with(s, 0, fence()) {
            assert(s.subrange(0, 3)[0] == fence()[0]);
        }
    }
    assert(heading_level(s, 0) == level) by {
        assert(s.subrange(0, level) =~= hashes(level));
        if level < 3 && starts_with(s, 0, hashes(3)) {
            assert(s.subrange(0, 3)[level] == hashes(3)[level]);
        }
        if level < 2 && starts_with(s, 0, hashes(2)) {
            assert(s.subrange(0, 2)[level] == hashes(2)[level]);
        }
    }
    assert(skip_hspace(s, level) == start) by {
        reveal_with_fuel(skip_hspace, 3);
    }
    assert forall|k: int| start <= k < s.len() implies #[trigger] s[k] != '\n' by {
        assert(s[k] == text[k - start]);
    }
    lemma_last_line(s, start);
    assert(line_text(s, start) =~= text);
    reveal(classify);
    lemma_single_record(s, record, target);
}

/// Neither whitespace nor a line feed stands in the text.
pub open spec fn is_token(text: Seq<char>) -> bool {
    forall|k: int| 0 <= k < text.len() ==> !is_hspace(#[trigger] text[k]) && text[k] != '\n'
}

/// Where neither whitespace nor a line end stands from `i` up to `end`, and
/// one of them stands at `end` or the document ends there, the token that
/// starts at `i` ends at `end`.
pub proof fn lemma_token_run(s: Seq<char>, i: int, end: int)
    requires
        0 <= i <= end <= s.len(),
        forall|k: int| i <= k < end ==> !is_hspace(#[trigger] s[k]) && !at_line_end(s, k),
        end == s.len() || is_hspace(s[end]) || at_line_end(s, end),
    ensures
        token_end(s, i) == end,
    decreases end - i,
{
    if i < end {
        assert(!is_hspace(s[i]) && !at_line_end(s, i));
        lemma_token_run(s, i + 1, end);
    }
}

/// Round trip of a link: a link is what its canonical spelling parses to,
/// and nothing else comes out of the parse, where its target's text is a
/// token that resolves to the target, and its label, if it has one, is a
/// single line that is not empty and does not begin with whitespace, behind
/// a target that is not empty.
pub proof fn law_link_round_trip(
    link_target: TargetModel,
    label: Option<Seq<char>>,
    target: spec_fn(Seq<char>) -> TargetModel,
)
    requires
        is_token(target_text(link_target)),
        target(target_text(link_target)) == link_target,
        label matches Some(l) ==> l.len() > 0 && single_line(l) && flush(l) && target_text(
            link_target,
        ).len() > 0,
    ensures
        records_from(rendering(LineModel::Link { target: link_target, label }), 0, target)
            == Some(seq![LineModel::Link { target: link_target, label }]),
{
    let record = LineModel::Link { target: link_target, label };
    let s = rendering(record);
    let token = target_text(link_target);
    let end: int = 3 + token.len() as int;
    assert(s[0] == '=' && s[1] == '>' && s[2] == ' ');
    assert(forall|k: int| 0 <= k < token.len() ==> s[3 + k] == token[k]);
    assert(!starts_with(s, 0, fence())) by {
        if starts_with(s, 0, fence()) {
            assert(s.subrange(0, 3)[0] == fence()[0]);
        }
    }
    assert(heading_level(s, 0) == 0) by {
        if starts_with(s, 0, hashes(3)) {
            assert(s.subrange(0, 3)[0] == hashes(3)[0]);
        }
        if starts_with(s, 0, hashes(2)) {
            assert(s.subrange(0, 2)[0] == hashes(2)[0]);
        }
        if starts_with(s, 0, hashes(1)) {
            assert(s.subrange(0, 1)[0] == hashes(1)[0]);
        }
    }
    assert(starts_with(s, 0, arrow())) by {
        assert(s.subrange(0, 2) =~= arrow());
    }
    match label {
        Some(l) => {
            assert(s.len() == end + 1 + l.len());
            assert(s[end] == ' ');
            assert(forall|k: int| 0 <= k < l.len() ==> s[end + 1 + k] == l[k]);
        },
        None => {
            assert(s.len() == end);
        },
    }
    assert(link_target_start(s, 0) == 3) by {
        reveal_with_fuel(skip_hspace, 3);
        if token.len() > 0 {
            assert(s[3] == token[0]);
        }
    }
    assert forall|k: int| 3 <= k < end implies !is_hspace(#[trigger] s[k]) && !at_line_end(
        s,
        k,
    ) by {
        assert(s[k] == token[k - 3]);
        if k + 1 < end {
            assert(s[k + 1] == token[k + 1 - 3]);
        }
    }
    lemma_token_run(s, 3, end);
    assert(link_token(s, 0) =~= token);
    match label {
        Some(l) => {
            assert(link_has_gap(s, 0));
            assert(link_label_start(s, 0) == end + 1) by {
                reveal_with_fuel(skip_hspace, 3);
                assert(s[end + 1] == l[0]);
            }
            assert forall|k: int| end + 1 <= k < s.len() implies #[trigger] s[k] != '\n' by {
                assert(s[k] == l[k - end - 1]);
            }
            lemma_last_line(s, end + 1);
            assert(line_text(s, end + 1) =~= l);
        },
        None => {
            assert(!link_has_gap(s, 0));
        },
    }
    reveal(classify);
    lemma_single_record(s, record, target);
}

/// Round trip of a link that was made from a text which the URL parser
/// rejects: such a link is relative and keeps the text, so it is what its
/// canonical spelling parses to wherever the text is a token and the label
/// is as the round trip of links asks.
pub proof fn law_relative_link_round_trip(url: Seq<char>, label: Option<Seq<char>>)
    requires
        is_token(url),
        label matches Some(l) ==> l.len() > 0 && single_line(l) && flush(l) && url.len() > 0,
    ensures
        url_text(url) is None ==> resolve(url) == TargetModel::Relative(url) && records_from(
            rendering(LineModel::Link { target: resolve(url), label }),
            0,
            resolver(),
        ) == Some(seq![LineModel::Link { target: resolve(url), label }]),
{
    if url_text(url) is None {
        law_link_round_trip(resolve(url), label, resolver());
    }
}

/// The text does not end in a carriage return.
pub open spec fn ends_clean(text: Seq<char>) -> bool {
    text.len() == 0 || text.last() != '\r'
}

/// No line of the text is a fence and nothing else.
pub open spec fn no_fence_line(text: Seq<char>) -> bool {
    closing_fence(text, 0) < 0
}

/// Where no line ends from `i` up to `end` and one ends at `end`, the line
/// that holds `i` ends at `end`.
pub proof fn lemma_line_run(s: Seq<char>, i: int, end: int)
    requires
        0 <= i <= end <= s.len(),
        forall|k: int| i <= k < end ==> !at_line_end(s, #[trigger] (k + 0)),
        at_line_end(s, end),
    ensures
        line_end(s, i) == end,
    decreases end - i,
{
    if i < end {
        assert(!at_line_end(s, i + 0));
        lemma_line_run(s, i + 1, end);
    }
}

/// The body of a spelled-out block: `s` holds `text` from `body` on, a
/// line feed behind it and the closing fence behind that, and `text` has no
/// fence line from its line start `p` on. Then the first closing fence in
/// `s` from `body + p` on is the one behind the text.
proof fn lemma_fence_behind_text(s: Seq<char>, body: int, text: Seq<char>, p: int)
    requires
        0 <= body,
        0 <= p <= text.len(),
        s.len() == body + text.len() + 4,
        forall|k: int| 0 <= k < text.len() ==> s[body + k] == #[trigger] text[k],
        s[body + text.len()] == '\n',
        s.subrange(body + text.len() + 1, s.len() as int) == fence(),
        ends_clean(text),
        closing_fence(text, p) < 0,
    ensures
        closing_fence(s, body + p) == body + text.len() + 1,
    decreases text.len() - p,
{
    let n = text.len() as int;
    let close = body + n + 1;
    assert(s[close] == fence()[0] && s[close + 1] == fence()[1] && s[close + 2] == fence()[2]) by {
        assert(s.subrange(close, s.len() as int)[0] == s[close]);
        assert(s.subrange(close, s.len() as int)[1] == s[close + 1]);
        assert(s.subrange(close, s.len() as int)[2] == s[close + 2]);
    }
    assert(closing_fence(s, close) == close) by {
        assert(s.subrange(close, close + 3) =~= fence());
    }
    assert(forall|k: int| 0 <= k < n ==> at_line_end(text, k) == at_line_end(s, body + k)) by {
        assert forall|k: int| 0 <= k < n implies at_line_end(text, k) == at_line_end(
            s,
            body + k,
        ) by {
            assert(s[body + k] == text[k]);
            if k + 1 < n {
                assert(s[body + k + 1] == text[k + 1]);
            } else {
                assert(text[k] == text.last());
            }
        }
    }
    if p >= n {
        assert(!is_fence_line(s, body + p)) by {
            if starts_with(s, body + p, fence()) {
                assert(s.subrange(body + p, body + p + 3)[0] == fence()[0]);
            }
        }
        assert(line_end(s, body + p) == body + p);
    } else {
        lemma_line_end_bounds(text, p);
        let e = line_end(text, p);
        assert(!is_fence_line(text, p));
        assert(!is_fence_line(s, body + p)) by {
            if is_fence_line(s, body + p) {
                let found = s.subrange(body + p, body + p + 3);
                assert(found[0] == fence()[0] && found[1] == fence()[1] && found[2] == fence()[2]);
                if p + 3 <= n {
                    assert(text.subrange(p, p + 3) =~= fence());
                    if p + 3 < n {
                        assert(at_line_end(text, p + 3) == at_line_end(s, body + p + 3));
                    }
                }
            }
        }
        assert forall|k: int| body + p <= k < body + e implies !at_line_end(
            s,
            #[trigger] (k + 0),
        ) by {
            assert(text[k - body] == text[k - body]);
            assert(!at_line_end(text, k - body));
        }
        if e < n {
            assert(at_line_end(s, body + e));
            lemma_line_run(s, body + p, body + e);
            assert(terminator_len(s, body + e) == terminator_len(text, e)) by {
                assert(s[body + e] == text[e]);
                if e + 1 < n {
                    assert(s[body + e + 1] == text[e + 1]);
                } else {
                    assert(text[e] == text.last());
                }
            }
            lemma_fence_behind_text(s, body, text, after_line(text, p));
        } else {
            lemma_line_run(s, body + p, body + n);
        }
    }
}

/// Round trip of a preformatted block: a block is what its canonical
/// spelling parses to, and nothing else comes out of the parse, where its
/// alt-text, if it has one, is a single line that is not empty, its body
/// has no line that is a fence and nothing else, and neither of the two
/// ends in a carriage return.
pub proof fn law_preformatted_round_trip(
    alt_text: Option<Seq<char>>,
    text: Seq<char>,
    target: spec_fn(Seq<char>) -> TargetModel,
)
    requires
        alt_text matches Some(a) ==> a.len() > 0 && single_line(a) && ends_clean(a),
        no_fence_line(text),
        ends_clean(text),
    ensures
        records_from(rendering(LineModel::Preformatted { alt_text, text }), 0, target) == Some(
            seq![LineModel::Preformatted { alt_text, text }],
        ),
{
    let record = LineModel::Preformatted { alt_text, text };
    let s = rendering(record);
    let alt = match alt_text {
        Some(a) => a,
        None => Seq::<char>::empty(),
    };
    let body: int = 3 + alt.len() as int + 1;
    let n = text.len() as int;
    let close = body + n + 1;
    assert(s.len() == close + 3);
    assert(s.subrange(0, 3) =~= fence());
    assert(forall|k: int| 0 <= k < alt.len() ==> s[3 + k] == alt[k]);
    assert(s[body - 1] == '\n');
    assert(forall|k: int| 0 <= k < n ==> s[body + k] == text[k]);
    assert(s[body + n] == '\n');
    assert(s.subrange(close, s.len() as int) =~= fence());
    assert forall|k: int| 3 <= k < body - 1 implies !at_line_end(s, #[trigger] (k + 0)) by {
        assert(s[k] == alt[k - 3]);
        if k + 1 < body - 1 {
            assert(s[k + 1] == alt[k + 1 - 3]);
        } else {
            assert(alt[k - 3] == alt.last());
        }
    }
    lemma_line_run(s, 3, body - 1);
    assert(line_text(s, 3) =~= alt);
    assert(optional(line_text(s, 3)) == alt_text);
    assert(after_line(s, 3) == body);
    lemma_fence_behind_text(s, body, text, 0);
    assert(closing_fence(s, body) == close);
    assert(body_end(s, body, close) == body + n) by {
        if n > 0 {
            assert(s[close - 2] == text.last());
        }
    }
    assert(s.subrange(body, body + n) =~= text);
    assert(after_line(s, close + 3) == s.len());
    reveal(classify);
    lemma_single_record(s, record, target);
}

} // verus!
