use smiley::preprocessor::line::builder::{
    is_blank_line, is_space, Builder as LineBuilder, IndentationHandler,
};
use smiley::preprocessor::line::error::{Error, ErrorKind};
use smiley::preprocessor::line::indentation::{Indentation, IndentationKind};
use smiley::preprocessor::line::position::Position;
use smiley::preprocessor::line::Content;

fn text_of(content: &Content) -> Option<&str> {
    match content {
        Content::Eof => None,
        Content::Value(text) => Some(text.as_str()),
    }
}

#[test]
fn build_normal_lines() {
    let mut builder = LineBuilder::default();
    let src = "foo\n    foo\n    foo\n        foo\n    foo\n    foo\n";

    for line in src.lines() {
        assert!(builder.build_line_from(line).is_ok());
    }
}

#[test]
fn build_with_inconsistent_indentation() {
    let mut builder = LineBuilder::default();
    let src = "foo\n    foo\n\tfoo\n";

    let mut lines = src.lines();

    // consume until before last
    builder.build_line_from(lines.next().unwrap()).unwrap();
    builder.build_line_from(lines.next().unwrap()).unwrap();

    assert!(builder.build_line_from(lines.next().unwrap()).is_err());
}

#[test]
fn build_with_unexpected_indentation_1() {
    let mut builder = LineBuilder::default();
    let src = "\tfoo\n";

    assert!(builder.build_line_from(src).is_err());
}

#[test]
fn build_with_unexpected_indentation_2() {
    let mut builder = LineBuilder::default();
    let src = "foo\n    foo\n        foo\n    foo\n  foo\n";

    let mut lines = src.lines();

    // consume until before last
    builder.build_line_from(lines.next().unwrap()).unwrap();
    builder.build_line_from(lines.next().unwrap()).unwrap();
    builder.build_line_from(lines.next().unwrap()).unwrap();
    builder.build_line_from(lines.next().unwrap()).unwrap();

    assert!(builder.build_line_from(lines.next().unwrap()).is_err());
}

#[test]
fn built_line_has_row_text_and_indentation() {
    let mut builder = LineBuilder::default();
    let (row, line) = builder.build_line_from("body").unwrap().unwrap();
    assert_eq!(row, 1);
    assert_eq!(text_of(&line.content), Some("body"));
    assert_eq!(line.indentation, Indentation::none());

    let (row, line) = builder.build_line_from("    color: red").unwrap().unwrap();
    assert_eq!(row, 2);
    assert_eq!(text_of(&line.content), Some("color: red"));
    assert_eq!(line.indentation, Indentation { kind: IndentationKind::Space, depth: 4 });
}

#[test]
fn text_keeps_what_follows_the_indentation() {
    let mut builder = LineBuilder::default();
    builder.build_line_from("a").unwrap();
    let (_, line) = builder.build_line_from("  margin:  0 auto  ").unwrap().unwrap();
    assert_eq!(text_of(&line.content), Some("margin:  0 auto  "));
    let (_, line) = builder.build_line_from("\u{a0}b").unwrap().unwrap();
    assert_eq!(text_of(&line.content), Some("\u{a0}b"));
    assert_eq!(line.indentation.depth, 0);
}

#[test]
fn blank_lines_count_as_rows_and_give_no_line() {
    let mut builder = LineBuilder::default();
    assert!(builder.build_line_from("").unwrap().is_none());
    assert!(builder.build_line_from("   ").unwrap().is_none());
    assert!(builder.build_line_from(" \t ").unwrap().is_none());
    assert!(builder.build_line_from("\u{2003}\u{a0}").unwrap().is_none());
    let (row, _) = builder.build_line_from("a").unwrap().unwrap();
    assert_eq!(row, 5);
    assert!(builder.build_line_from("\t").unwrap().is_none());
    let (row, _) = builder.build_line_from("  b").unwrap().unwrap();
    assert_eq!(row, 7);
}

#[test]
fn blank_lines_do_not_touch_the_nesting() {
    let mut builder = LineBuilder::default();
    builder.build_line_from("a").unwrap();
    builder.build_line_from("  b").unwrap();
    builder.build_line_from("    c").unwrap();
    assert!(builder.build_line_from("\t\t").unwrap().is_none());
    assert!(builder.build_line_from("").unwrap().is_none());
    assert!(builder.build_line_from("    d").unwrap().is_some());
    assert!(builder.build_line_from("  e").unwrap().is_some());
}

#[test]
fn mixed_indentation_is_reported_at_its_column() {
    let mut builder = LineBuilder::default();
    builder.build_line_from("a").unwrap();
    let error = builder.build_line_from("  \tb").unwrap_err();
    assert_eq!(
        error,
        Error { kind: ErrorKind::InconsistentIndentation, pos: Position { row: 2, col: 2 } }
    );
}

#[test]
fn mixed_indentation_is_found_before_nesting() {
    let mut builder = LineBuilder::default();
    let error = builder.build_line_from("\t foo").unwrap_err();
    assert_eq!(
        error,
        Error { kind: ErrorKind::InconsistentIndentation, pos: Position { row: 1, col: 1 } }
    );
}

#[test]
fn other_kind_is_reported_at_column_zero() {
    let mut builder = LineBuilder::default();
    assert!(builder.build_line_from("foo").unwrap().is_some());
    assert!(builder.build_line_from("  bar").unwrap().is_some());
    let error = builder.build_line_from("\tbaz").unwrap_err();
    assert_eq!(
        error,
        Error { kind: ErrorKind::InconsistentIndentation, pos: Position { row: 3, col: 0 } }
    );
}

#[test]
fn indented_first_line_is_reported_at_column_zero() {
    let mut builder = LineBuilder::default();
    let error = builder.build_line_from("\tfoo").unwrap_err();
    assert_eq!(
        error,
        Error { kind: ErrorKind::UnexpectedIndentation, pos: Position { row: 1, col: 0 } }
    );
}

#[test]
fn indented_first_line_after_blank_lines_is_unexpected() {
    let mut builder = LineBuilder::default();
    assert!(builder.build_line_from("").unwrap().is_none());
    assert!(builder.build_line_from("  ").unwrap().is_none());
    let error = builder.build_line_from("    foo").unwrap_err();
    assert_eq!(
        error,
        Error { kind: ErrorKind::UnexpectedIndentation, pos: Position { row: 3, col: 0 } }
    );
}

#[test]
fn unopened_depth_is_reported_at_that_depth() {
    let mut builder = LineBuilder::default();
    let lines = ["foo", "    bar", "        baz", "    bar2"];
    for (i, line) in lines.iter().enumerate() {
        let (row, built) = builder.build_line_from(line).unwrap().unwrap();
        assert_eq!(row, i + 1);
        assert_eq!(built.indentation.depth, 4 * [0, 1, 2, 1][i]);
    }
    let error = builder.build_line_from("  bat").unwrap_err();
    assert_eq!(
        error,
        Error { kind: ErrorKind::UnexpectedIndentation, pos: Position { row: 5, col: 2 } }
    );
}

#[test]
fn unicode_whitespace_is_recognised() {
    let spaces = [
        '\u{9}', '\u{a}', '\u{b}', '\u{c}', '\u{d}', '\u{20}', '\u{85}', '\u{a0}', '\u{1680}',
        '\u{2000}', '\u{2005}', '\u{200a}', '\u{2028}', '\u{2029}', '\u{202f}', '\u{205f}',
        '\u{3000}',
    ];
    for c in spaces {
        assert!(is_space(c), "{:?}", c);
    }
    for c in ['a', '\u{8}', '\u{e}', '\u{1f}', '\u{200b}', '\u{180e}', '\u{feff}', '\u{3001}'] {
        assert!(!is_space(c), "{:?}", c);
    }
}

#[test]
fn whitespace_agrees_with_the_standard_library() {
    let mut n: u32 = 0;
    while n <= 0x3100 {
        if let Some(c) = char::from_u32(n) {
            assert_eq!(is_space(c), c.is_whitespace(), "{:?}", c);
        }
        n += 1;
    }
}

#[test]
fn blank_means_whitespace_only() {
    assert!(is_blank_line(""));
    assert!(is_blank_line(" \t\r"));
    assert!(!is_blank_line("  x  "));
    assert!(!is_blank_line("\u{200b}"));
}

fn indented(kind: IndentationKind, depth: usize) -> Indentation {
    Indentation { kind, depth }
}

#[test]
fn handler_reports_kind_and_column() {
    let mut handler = IndentationHandler::new();
    assert_eq!(
        handler.handle(indented(IndentationKind::Space, 3)),
        Err((ErrorKind::UnexpectedIndentation, 0))
    );

    let mut handler = IndentationHandler::new();
    assert_eq!(handler.handle(Indentation::none()), Ok(()));
    assert_eq!(handler.handle(indented(IndentationKind::Space, 3)), Ok(()));
    assert_eq!(handler.handle(indented(IndentationKind::Space, 6)), Ok(()));
    assert_eq!(
        handler.handle(indented(IndentationKind::Tab, 6)),
        Err((ErrorKind::InconsistentIndentation, 0))
    );
    assert_eq!(
        handler.handle(indented(IndentationKind::Space, 4)),
        Err((ErrorKind::UnexpectedIndentation, 4))
    );
    // the blocks deeper than the faulty line are closed by then
    assert_eq!(handler.handle(indented(IndentationKind::Space, 3)), Ok(()));
    assert_eq!(handler.handle(indented(IndentationKind::Space, 6)), Ok(()));
}

#[test]
fn handler_takes_depth_zero_of_any_kind() {
    let mut handler = IndentationHandler::new();
    assert_eq!(handler.handle(indented(IndentationKind::Tab, 0)), Ok(()));
    assert_eq!(handler.handle(indented(IndentationKind::Space, 2)), Ok(()));
    assert_eq!(handler.handle(indented(IndentationKind::Tab, 0)), Ok(()));
    assert_eq!(handler.handle(indented(IndentationKind::Space, 4)), Ok(()));
    assert_eq!(
        handler.handle(indented(IndentationKind::Tab, 4)),
        Err((ErrorKind::InconsistentIndentation, 0))
    );
}

#[test]
fn handler_settles_kind_even_where_depth_is_unexpected() {
    let mut handler = IndentationHandler::new();
    assert_eq!(
        handler.handle(indented(IndentationKind::Tab, 1)),
        Err((ErrorKind::UnexpectedIndentation, 0))
    );
    assert_eq!(handler.handle(Indentation::none()), Ok(()));
    assert_eq!(
        handler.handle(indented(IndentationKind::Space, 1)),
        Err((ErrorKind::InconsistentIndentation, 0))
    );
    assert_eq!(handler.handle(indented(IndentationKind::Tab, 1)), Ok(()));
}
