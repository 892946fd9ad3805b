use smiley::error::{Error, ErrorKind};
use smiley::preprocessor::line::error::{Error as LineError, ErrorKind as LineErrorKind};
use smiley::preprocessor::line::indentation::{Indentation, IndentationKind};
use smiley::preprocessor::line::position::Position;
use smiley::preprocessor::line::{Content, CssLineKind, Line, NumberedLine};
use smiley::preprocessor::{build_lines, classify, Preprocessor};
use smiley::util::{create_default_out_file_pathbuf, path_names_file};
use smiley::PreprocessorBuilder;

fn source(text: &str) -> Vec<String> {
    text.lines().map(String::from).collect()
}

fn ready() -> Preprocessor {
    PreprocessorBuilder::default()
        .set_src_file("main.smly")
        .set_out_file(None)
        .build()
}

fn numbered(row: usize, depth: usize) -> NumberedLine {
    let kind = if depth == 0 { IndentationKind::Absent } else { IndentationKind::Space };
    (
        row,
        Line { content: Content::Value(String::from("x")), indentation: Indentation { kind, depth } },
    )
}

fn depths_of(lines: &[(NumberedLine, CssLineKind)]) -> Vec<usize> {
    lines.iter().map(|((_, line), _)| line.indentation.depth).collect()
}

fn kinds_of(lines: &[(NumberedLine, CssLineKind)]) -> Vec<CssLineKind> {
    lines.iter().map(|(_, kind)| *kind).collect()
}

fn rows_of(lines: &[(NumberedLine, CssLineKind)]) -> Vec<usize> {
    lines.iter().map(|((row, _), _)| *row).collect()
}

#[test]
fn default_out_file_pathbuf_creation() {
    let src = "path/to/src.smly";
    let pathbuf = create_default_out_file_pathbuf(src);

    assert_eq!(pathbuf.as_str(), "src.css");
}

#[test]
fn default_out_file_replaces_the_last_extension_only() {
    assert_eq!(create_default_out_file_pathbuf("a.b.smly"), "a.b.css");
    assert_eq!(create_default_out_file_pathbuf("dir.d/style"), "style.css");
    assert_eq!(create_default_out_file_pathbuf("/abs/style."), "style.css");
    assert_eq!(create_default_out_file_pathbuf(".hidden"), ".hidden.css");
    assert_eq!(create_default_out_file_pathbuf("x/.hidden.smly"), ".hidden.css");
    assert_eq!(create_default_out_file_pathbuf("..a"), "..css");
}

#[test]
fn paths_that_name_no_file() {
    for path in ["", "dir/", "/", ".", "..", "a/.", "a/.."] {
        assert!(!path_names_file(path), "{:?}", path);
    }
    for path in ["a", "a/b", ".a", "..a", "a/...", "a.smly", "/x/y.smly"] {
        assert!(path_names_file(path), "{:?}", path);
    }
}

#[test]
fn nested_lines_get_depths_and_kinds() {
    let mut preprocessor = ready();
    let lines = preprocessor.run(&source("a\n  b\n    c\n    d\n  e\n")).unwrap();
    assert_eq!(depths_of(&lines), vec![0, 2, 4, 4, 2]);
    assert_eq!(
        kinds_of(&lines),
        vec![
            CssLineKind::Selector,
            CssLineKind::Selector,
            CssLineKind::Property,
            CssLineKind::Property,
            CssLineKind::Property,
        ]
    );
    assert_eq!(rows_of(&lines), vec![1, 2, 3, 4, 5]);
}

#[test]
fn every_line_is_classified_once() {
    let mut preprocessor = ready();
    let text = "abc\n    def\n        ghi\n        jkl\n    mno\npqr\n        stu\n        vwx\n                yz\n";
    let lines = preprocessor.run(&source(text)).unwrap();
    assert_eq!(lines.len(), 9);
    assert_eq!(rows_of(&lines), vec![1, 2, 3, 4, 5, 6, 7, 8, 9]);
    assert_eq!(
        kinds_of(&lines),
        vec![
            CssLineKind::Selector,
            CssLineKind::Selector,
            CssLineKind::Property,
            CssLineKind::Property,
            CssLineKind::Property,
            CssLineKind::Selector,
            CssLineKind::Property,
            CssLineKind::Selector,
            CssLineKind::Property,
        ]
    );
    for ((_, line), _) in &lines {
        assert!(matches!(line.content, Content::Value(_)));
    }
}

#[test]
fn blank_lines_are_left_out_but_counted() {
    let mut preprocessor = ready();
    let lines = preprocessor.run(&source("\na\n\n  b\n   \n  c\n\n")).unwrap();
    assert_eq!(rows_of(&lines), vec![2, 4, 6]);
    assert_eq!(
        kinds_of(&lines),
        vec![CssLineKind::Selector, CssLineKind::Property, CssLineKind::Property]
    );
}

#[test]
fn file_without_content_is_valid_and_empty() {
    let mut preprocessor = ready();
    assert!(preprocessor.run(&Vec::new()).unwrap().is_empty());
    assert!(preprocessor.run(&source("\n   \n\t\n")).unwrap().is_empty());
}

#[test]
fn single_line_is_a_property() {
    let mut preprocessor = ready();
    let lines = preprocessor.run(&source("a")).unwrap();
    assert_eq!(kinds_of(&lines), vec![CssLineKind::Property]);
}

#[test]
fn other_kind_fails_at_row_three() {
    let mut preprocessor = ready();
    let error = preprocessor.run(&source("foo\n  bar\n\tbaz\n")).unwrap_err();
    assert_eq!(
        error,
        Error { kind: ErrorKind::InconsistentIndentation, pos: Position { row: 3, col: 0 } }
    );
}

#[test]
fn indented_only_line_fails_at_row_one() {
    let mut preprocessor = ready();
    let error = preprocessor.run(&source("\tfoo")).unwrap_err();
    assert_eq!(
        error,
        Error { kind: ErrorKind::UnexpectedIndentation, pos: Position { row: 1, col: 0 } }
    );
}

#[test]
fn unopened_depth_fails_at_row_five() {
    let mut preprocessor = ready();
    let error = preprocessor
        .run(&source("foo\n    bar\n        baz\n    bar2\n  bat\n"))
        .unwrap_err();
    assert_eq!(
        error,
        Error { kind: ErrorKind::UnexpectedIndentation, pos: Position { row: 5, col: 2 } }
    );
}

#[test]
fn first_fault_stops_the_run() {
    let mut preprocessor = ready();
    let error = preprocessor.run(&source("a\n \tb\n\tc\n      d\n")).unwrap_err();
    assert_eq!(
        error,
        Error { kind: ErrorKind::InconsistentIndentation, pos: Position { row: 2, col: 1 } }
    );
}

#[test]
fn run_can_be_repeated() {
    let mut preprocessor = ready();
    assert!(preprocessor.run(&source("a\n  b\n")).is_ok());
    assert!(preprocessor.run(&source("  b\n")).is_err());
    assert_eq!(preprocessor.run(&source("a\n\tb\n")).unwrap().len(), 2);
}

#[test]
fn built_lines_end_with_eof() {
    let lines = build_lines(&source("a\n\n  b\n")).unwrap();
    assert_eq!(lines.len(), 3);
    assert_eq!(lines[0].0, 1);
    assert_eq!(lines[1].0, 3);
    assert_eq!(lines[2].0, 0);
    assert!(matches!(lines[2].1.content, Content::Eof));

    let lines = build_lines(&Vec::new()).unwrap();
    assert_eq!(lines.len(), 1);
    assert!(matches!(lines[0].1.content, Content::Eof));
}

#[test]
fn built_lines_fail_with_the_fault_of_the_line() {
    let error = build_lines(&source("a\n  b\n c\n")).unwrap_err();
    assert_eq!(
        error,
        LineError { kind: LineErrorKind::UnexpectedIndentation, pos: Position { row: 3, col: 1 } }
    );
}

#[test]
fn classify_pairs_each_line_with_the_next() {
    let lines = vec![numbered(1, 0), numbered(2, 3), numbered(3, 3), numbered(4, 5), (0, Line::eof())];
    assert_eq!(
        classify(&lines),
        vec![
            CssLineKind::Selector,
            CssLineKind::Property,
            CssLineKind::Selector,
            CssLineKind::Property,
        ]
    );
}

#[test]
fn classify_needs_two_lines_for_a_kind() {
    assert!(classify(&Vec::new()).is_empty());
    assert!(classify(&vec![(0, Line::eof())]).is_empty());
    assert_eq!(classify(&vec![numbered(1, 0), (0, Line::eof())]), vec![CssLineKind::Property]);
}

#[test]
fn error_of_a_line_becomes_error_of_the_run() {
    let pos = Position::at(4, 2);
    assert_eq!(pos, Position { row: 4, col: 2 });
    assert_eq!(
        Error::from(LineError { kind: LineErrorKind::InconsistentIndentation, pos }),
        Error { kind: ErrorKind::InconsistentIndentation, pos }
    );
    assert_eq!(
        Error::from(LineError { kind: LineErrorKind::UnexpectedIndentation, pos }),
        Error { kind: ErrorKind::UnexpectedIndentation, pos }
    );
}

#[test]
fn messages_start_with_their_headline() {
    assert_eq!(
        ErrorKind::InconsistentIndentation.get_message(),
        "Inconsistent indentation\n\nSmiley files should only use either space or tab as\nindentation character, but never both\n"
    );
    assert_eq!(ErrorKind::UnexpectedIndentation.get_message(), "Unexpected indentation\n");
}

#[test]
fn builder_keeps_the_out_file_it_is_given() {
    let mut preprocessor = PreprocessorBuilder::default()
        .set_src_file("a/b/main.smly")
        .set_out_file(Some("out/main.css"))
        .build();
    assert!(preprocessor.run(&source("a\n")).is_ok());
}
