use tejat::cursor::Cursor;
use tejat::error::{Error, ErrorKind};
use tejat::fixture::{blockquote, h1, h2, h3, link, list_item, preformatted, text};
use tejat::heading::Heading;
use tejat::line::{Preformatted, RawLine};
use tejat::link::{Link, LinkTarget};
use tejat::parser::{parse_line, parse_lines, parse_preformatted};
use tejat::scanner::{
    better_all_consuming, better_tag, line_end, line_with_leader, open,
    optional_str_until_newline, str_until_newline, to_line_end, whitespace0,
};
use tejat::text::{chars_of, string_of};

fn chars(s: &str) -> Vec<char> {
    s.chars().collect()
}

#[test]
fn chars_and_strings_convert_both_ways() {
    let v = chars_of("a\u{e9}\u{30e1}z");
    assert_eq!(v, vec!['a', '\u{e9}', '\u{30e1}', 'z']);
    assert_eq!(string_of(&v, 1, 3), "\u{e9}\u{30e1}");
    assert_eq!(string_of(&v, 2, 2), "");
}

#[test]
fn cursor_tracks_line_and_column() {
    let doc = chars("ab\ncd\r\n\u{30e1}f");
    let start = Cursor::new(&doc);
    assert_eq!((start.offset, start.line, start.column), (0, 1, 1));
    let c = start.advance(2);
    assert_eq!((c.offset, c.line, c.column), (2, 1, 3));
    let c = start.advance(3);
    assert_eq!((c.offset, c.line, c.column), (3, 2, 1));
    let c = start.advance(6);
    assert_eq!((c.offset, c.line, c.column), (6, 2, 4));
    let c = start.advance(7);
    assert_eq!((c.offset, c.line, c.column), (7, 3, 1));
    let c = start.advance(9);
    assert_eq!((c.offset, c.line, c.column), (9, 3, 3));
    assert!(c.is_empty());
    assert!(!start.is_empty());
}

#[test]
fn better_tag_matches_exactly() {
    let doc = chars("=>x");
    let start = Cursor::new(&doc);
    let behind = better_tag(&start, "=>").unwrap();
    assert_eq!(behind.offset, 2);
    let err = better_tag(&start, "=>y").unwrap_err();
    assert_eq!(err.kind, ErrorKind::ExpectedStr("=>y"));
    assert_eq!((err.line, err.column), (1, 1));
    assert_eq!(err.snippet, "=>x");
    assert!(err.prev.is_none());
    let err = better_tag(&behind, "xy").unwrap_err();
    assert_eq!(err.kind, ErrorKind::ExpectedStr("xy"));
    assert_eq!((err.line, err.column), (1, 3));
}

#[test]
fn snippet_is_cut_to_fifteen_characters() {
    let doc = chars("abcdefghijklmnopqrstuvwxyz");
    let start = Cursor::new(&doc);
    let err = Error::new(&start.advance(1), ErrorKind::ExpectedEOF);
    assert_eq!(err.snippet, "bcdefghijklmnop");
    assert_eq!(err.snippet.chars().count(), 15);
    let err = Error::new(&start.advance(20), ErrorKind::ExpectedWhitespace);
    assert_eq!(err.snippet, "uvwxyz");
    assert_eq!((err.line, err.column), (1, 21));
}

#[test]
fn with_previous_chains_the_cause() {
    let doc = chars("one\ntwo");
    let start = Cursor::new(&doc);
    let cause = Error::new(&start.advance(4), ErrorKind::ExpectedLineEnd);
    let err = Error::with_previous(&start, ErrorKind::Context("a thing"), cause);
    assert_eq!(err.kind, ErrorKind::Context("a thing"));
    assert_eq!((err.line, err.column), (1, 1));
    let cause = err.prev.as_ref().unwrap();
    assert_eq!(cause.kind, ErrorKind::ExpectedLineEnd);
    assert_eq!((cause.line, cause.column), (2, 1));
    assert_eq!(cause.snippet, "two");
    let same = Error::with_previous(
        &start,
        ErrorKind::Context("a thing"),
        Error::new(&start.advance(4), ErrorKind::ExpectedLineEnd),
    );
    assert_eq!(err.into_static(), same);
}

#[test]
fn context_and_outside_reasons() {
    let doc = chars("x y");
    let start = Cursor::new(&doc);
    let cause = Error::from_external_error(&start.advance(2), url::ParseError::EmptyHost);
    assert_eq!(cause.kind, ErrorKind::InvalidUrl(url::ParseError::EmptyHost));
    assert_eq!((cause.line, cause.column, cause.snippet.as_str()), (1, 3, "y"));
    assert!(cause.prev.is_none());
    let err = Error::add_context(&start, "a link", cause);
    assert_eq!(err.kind, ErrorKind::Context("a link"));
    assert_eq!((err.line, err.column, err.snippet.as_str()), (1, 1, "x y"));
    assert_eq!(
        err.prev.unwrap().kind,
        ErrorKind::InvalidUrl(url::ParseError::EmptyHost)
    );
}

#[test]
fn whitespace0_skips_spaces_and_tabs_only() {
    let doc = chars(" \t  x");
    let start = Cursor::new(&doc);
    assert_eq!(whitespace0(&start).offset, 4);
    assert_eq!(whitespace0(&start.advance(4)).offset, 4);
    let doc = chars(" \n x");
    assert_eq!(whitespace0(&Cursor::new(&doc)).offset, 1);
}

#[test]
fn line_end_takes_one_terminator() {
    let doc = chars("\n\r\nx\r");
    let start = Cursor::new(&doc);
    assert_eq!(line_end(&start).unwrap().offset, 1);
    assert_eq!(line_end(&start.advance(1)).unwrap().offset, 3);
    let err = line_end(&start.advance(3)).unwrap_err();
    assert_eq!(err.kind, ErrorKind::Context("a line ending or EOF"));
    assert_eq!(err.prev.as_ref().unwrap().kind, ErrorKind::ExpectedLineEnd);
    assert_eq!((err.line, err.column), (3, 1));
    let err = line_end(&start.advance(4)).unwrap_err();
    assert_eq!(err.snippet, "\r");
    assert_eq!(line_end(&start.advance(5)).unwrap().offset, 5);
}

#[test]
fn str_until_newline_drops_the_terminator() {
    let doc = chars("one\ntwo\r\n\nlast\r");
    let start = Cursor::new(&doc);
    let (next, line) = str_until_newline(&start);
    assert_eq!((next.offset, line.as_str()), (4, "one"));
    let (next, line) = str_until_newline(&next);
    assert_eq!((next.offset, line.as_str()), (9, "two"));
    let (next, line) = optional_str_until_newline(&next);
    assert_eq!((next.offset, line), (10, None));
    let (next, line) = optional_str_until_newline(&next);
    assert_eq!((next.offset, line), (15, Some(String::from("last\r"))));
    let (next, line) = str_until_newline(&next);
    assert_eq!((next.offset, line.as_str()), (15, ""));
}

#[test]
fn line_with_leader_trims_behind_the_leader() {
    let doc = chars(">  \t quoted  \nrest");
    let start = Cursor::new(&doc);
    let (next, line) = line_with_leader(&start, ">").unwrap();
    assert_eq!((next.offset, line.as_str()), (14, "quoted  "));
    let err = line_with_leader(&start, "#").unwrap_err();
    assert_eq!(err.kind, ErrorKind::ExpectedStr("#"));
}

#[test]
fn all_consuming_wants_the_end_of_the_input() {
    let doc = chars("# one\nrest");
    let start = open(&doc).unwrap();
    let err = better_all_consuming(Heading::parse(&start).unwrap()).unwrap_err();
    assert_eq!(err.kind, ErrorKind::ExpectedEOF);
    assert_eq!((err.line, err.column, err.snippet.as_str()), (2, 1, "rest"));
    let doc = chars("# one\n");
    let start = open(&doc).unwrap();
    let (next, heading) = better_all_consuming(Heading::parse(&start).unwrap()).unwrap();
    assert!(next.is_empty());
    assert_eq!(heading, Heading::H1(String::from("one")));
    assert_eq!(to_line_end(&start).offset, 5);
}

#[test]
fn empty_input_is_an_empty_document() {
    assert_eq!(parse_lines("").unwrap(), Vec::<RawLine>::new());
}

#[test]
fn longest_heading_leader_wins() {
    assert_eq!(parse_lines("###Heading 3").unwrap(), vec![h3("Heading 3")]);
    assert_ne!(parse_lines("###Heading 3").unwrap(), vec![h1("##Heading 3")]);
    assert_eq!(parse_lines("## \t two\n# one").unwrap(), vec![h2("two"), h1("one")]);
    assert_eq!(parse_lines("####four").unwrap(), vec![h3("#four")]);
    assert_eq!(parse_lines("#").unwrap(), vec![h1("")]);
}

#[test]
fn heading_parses_from_a_cursor() {
    let doc = chars("#Test");
    let (next, heading) = Heading::parse(&Cursor::new(&doc)).unwrap();
    assert_eq!(heading, Heading::H1(String::from("Test")));
    assert!(next.is_empty());
    assert_eq!(heading.clone().into_static(), heading);
    let doc = chars("Test");
    let err = Heading::parse(&Cursor::new(&doc)).unwrap_err();
    assert_eq!(err.kind, ErrorKind::ExpectedStr("#"));
}

#[test]
fn absolute_and_relative_links() {
    assert_eq!(
        parse_lines("=> https://example.com  An example HTTPS link").unwrap(),
        vec![RawLine::Link(Link {
            target: LinkTarget::Absolute(String::from("https://example.com/")),
            text: Some(String::from("An example HTTPS link")),
        })]
    );
    assert_eq!(
        parse_lines("=> /root-relative/link").unwrap(),
        vec![RawLine::Link(Link {
            target: LinkTarget::Relative(String::from("/root-relative/link")),
            text: None,
        })]
    );
    assert_eq!(
        parse_lines("=>gemini://example.com/test/?query=something&test An example Gemini link")
            .unwrap(),
        vec![RawLine::Link(Link {
            target: LinkTarget::Absolute(String::from(
                "gemini://example.com/test/?query=something&test"
            )),
            text: Some(String::from("An example Gemini link")),
        })]
    );
}

#[test]
fn link_without_label_ends_with_its_line() {
    let expected = Link { target: LinkTarget::Relative(String::from("/relative/url")), text: None };
    let doc = chars("=> /relative/url  ");
    let (next, found) = Link::parse(&Cursor::new(&doc)).unwrap();
    assert_eq!(found, expected);
    assert!(next.is_empty());
    assert_eq!(
        parse_lines("=>a\n=>\tb\r\n=> c d\n").unwrap(),
        vec![link("a", None), link("b", None), link("c", Some("d"))]
    );
    assert_eq!(parse_lines("=>\nx").unwrap(), vec![link("", None), text("x")]);
    assert_eq!(found.clone().into_static(), found);
}

#[test]
fn link_target_is_normalised_by_the_url_parser() {
    assert_eq!(
        LinkTarget::resolve(String::from("HTTP://EXAMPLE.com")),
        LinkTarget::Absolute(String::from("http://example.com/"))
    );
    assert_eq!(
        LinkTarget::resolve(String::from("no scheme")),
        LinkTarget::Relative(String::from("no scheme"))
    );
    assert_eq!(
        LinkTarget::from_parsed(String::from("x"), Some(String::from("y:z"))),
        LinkTarget::Absolute(String::from("y:z"))
    );
    assert_eq!(
        LinkTarget::from_parsed(String::from("x"), None),
        LinkTarget::Relative(String::from("x"))
    );
    assert_eq!(
        LinkTarget::from_str("gemini://example.com"),
        LinkTarget::Absolute(String::from("gemini://example.com"))
    );
    assert_eq!(
        LinkTarget::from_str("two words\nand a line"),
        LinkTarget::Relative(String::from("two words\nand a line"))
    );
    let doc = chars("first second");
    let (next, target) = LinkTarget::parse(&Cursor::new(&doc));
    assert_eq!((next.offset, target), (5, LinkTarget::Relative(String::from("first"))));
    let target = LinkTarget::from_str("path");
    assert_eq!(target.clone().into_static(), target);
}

#[test]
fn link_new_resolves_the_whole_text() {
    let made = Link::new("relative/link and more", Some("label")).unwrap();
    assert_eq!(made.target, LinkTarget::Relative(String::from("relative/link and more")));
    assert_eq!(made.text, Some(String::from("label")));
    let made = Link::new("a\nb", None).unwrap();
    assert_eq!(made.target, LinkTarget::Relative(String::from("a\nb")));
    assert_eq!(made.text, None);
    let made = Link::new("https://example.com", Some("")).unwrap();
    assert_eq!(made.target, LinkTarget::Absolute(String::from("https://example.com/")));
    assert_eq!(made.text, Some(String::new()));
    assert_eq!(
        link("tab\tin it", None),
        RawLine::Link(Link {
            target: LinkTarget::Relative(String::from("tab\tin it")),
            text: None,
        })
    );
}

#[test]
fn list_item_needs_exactly_one_space() {
    assert_eq!(parse_lines("* item").unwrap(), vec![list_item("item")]);
    assert_eq!(parse_lines("*  item").unwrap(), vec![list_item(" item")]);
    assert_eq!(parse_lines("*item").unwrap(), vec![text("*item")]);
    assert_eq!(parse_lines("*\titem").unwrap(), vec![text("*\titem")]);
}

#[test]
fn blockquote_is_trimmed_in_front() {
    assert_eq!(parse_lines(">q").unwrap(), vec![blockquote("q")]);
    assert_eq!(parse_lines(">  q \n>").unwrap(), vec![blockquote("q "), blockquote("")]);
}

#[test]
fn blank_lines_are_kept() {
    assert_eq!(parse_lines("\n\n\n").unwrap(), vec![text(""), text(""), text("")]);
    assert_eq!(parse_lines("a\n\n\nb").unwrap(), vec![text("a"), text(""), text(""), text("b")]);
    assert_eq!(parse_lines("a\r\n\r\nb\r\n").unwrap(), vec![text("a"), text(""), text("b")]);
    assert_eq!(parse_lines("a\rb").unwrap(), vec![text("a\rb")]);
}

#[test]
fn preformatted_block_with_alt_text() {
    let doc = "before\n```banner\n o  o\n``` not a fence\n  ```\n\n`OoO'\n```\nafter";
    assert_eq!(
        parse_lines(doc).unwrap(),
        vec![
            text("before"),
            preformatted(Some("banner"), " o  o\n``` not a fence\n  ```\n\n`OoO'"),
            text("after"),
        ]
    );
}

#[test]
fn preformatted_block_edges() {
    assert_eq!(parse_lines("```\n```").unwrap(), vec![preformatted(None, "")]);
    assert_eq!(parse_lines("```\n\n```\n").unwrap(), vec![preformatted(None, "")]);
    assert_eq!(parse_lines("```\n\n\n```\n").unwrap(), vec![preformatted(None, "\n")]);
    assert_eq!(parse_lines("``` alt\r\na\r\nb\r\n```\r\nx").unwrap(), vec![
        preformatted(Some(" alt"), "a\r\nb"),
        text("x"),
    ]);
    assert_eq!(parse_lines("```\na\r\n```").unwrap(), vec![preformatted(None, "a")]);
    assert_eq!(parse_lines("```\n```\n```\n```").unwrap(), vec![
        preformatted(None, ""),
        preformatted(None, ""),
    ]);
}

#[test]
fn unterminated_block_is_an_error_at_its_fence() {
    let err = parse_lines("one\ntwo\n  x\n```alt\nbody\n``` \nmore").unwrap_err();
    assert_eq!(err.kind, ErrorKind::Context("a preformatted block"));
    assert_eq!((err.line, err.column), (4, 1));
    assert_eq!(err.snippet, "```alt\nbody\n```");
    let cause = err.prev.as_ref().unwrap();
    assert_eq!(cause.kind, ErrorKind::ExpectedStr("```"));
    assert_eq!((cause.line, cause.column), (7, 5));
    assert_eq!(cause.snippet, "");
    assert!(cause.prev.is_none());
    assert!(parse_lines("```").is_err());
    assert!(parse_lines("```\n").is_err());
    assert!(parse_lines("```\n```x").is_err());
}

#[test]
fn preformatted_classifier_reports_a_missing_fence() {
    let doc = chars("x\n``\n");
    let start = Cursor::new(&doc).advance(2);
    let err = parse_preformatted(&start).unwrap_err();
    assert_eq!(err.kind, ErrorKind::Context("a preformatted block"));
    assert_eq!((err.line, err.column), (2, 1));
    let cause = err.prev.as_ref().unwrap();
    assert_eq!(cause.kind, ErrorKind::ExpectedStr("```"));
    assert_eq!((cause.line, cause.column), (2, 1));
    let (next, line) = parse_line(&start).unwrap();
    assert_eq!(line, text("``"));
    assert!(next.is_empty());
}

#[test]
fn fixtures_build_the_records_they_name() {
    assert_eq!(h1("a"), RawLine::Heading(Heading::H1(String::from("a"))));
    assert_eq!(h2("a"), RawLine::Heading(Heading::H2(String::from("a"))));
    assert_eq!(h3("a"), RawLine::Heading(Heading::H3(String::from("a"))));
    assert_eq!(text("a"), RawLine::Text(String::from("a")));
    assert_eq!(blockquote("a"), RawLine::Blockquote(String::from("a")));
    assert_eq!(list_item("a"), RawLine::ListItem(String::from("a")));
    assert_eq!(
        preformatted(Some("alt"), "a\nb"),
        RawLine::Preformatted(Preformatted {
            alt_text: Some(String::from("alt")),
            text: String::from("a\nb"),
        })
    );
    assert_eq!(
        link("gemini://example.com/bare-link", None),
        RawLine::Link(Link {
            target: LinkTarget::Absolute(String::from("gemini://example.com/bare-link")),
            text: None,
        })
    );
}
