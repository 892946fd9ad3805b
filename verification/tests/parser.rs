use smiley::parser::scan::{chars_of, find_char, skip_name, skip_whitespace, trim_end, Span};
use smiley::parser::selector::{parse_basic, parse_name, SelectorParser};
use smiley::parser::{starts_with_word, Declaration, SmileyParser, Statement};
use smiley::preprocessor::line::CssLineKind;

fn span(start: usize, end: usize) -> Span {
    Span { start, end }
}

fn declaration(input: &str) -> Option<(String, String, bool)> {
    let chars: Vec<char> = input.chars().collect();
    SmileyParser::parse_declaration(input).map(|d| {
        (
            chars[d.property.start..d.property.end].iter().collect(),
            chars[d.value.start..d.value.end].iter().collect(),
            d.important,
        )
    })
}

fn parsed(property: &str, value: &str, important: bool) -> Option<(String, String, bool)> {
    Some((String::from(property), String::from(value), important))
}

#[test]
fn basic_selector_parsing() {
    let cases = [
        "foo",
        "foo.bar",
        "foo.bar.bat",
        "foo#bar.bat",
        ".foo.bar.bat",
        "foo.bar[ baz |= 'string' i ].abc",
        "[foo=bar i][ baz ~= \"bat\" S]",
        ".foo-bar.bat[abc = ghi]",
    ];

    for case in &cases {
        let eoi_pos = case.len();

        assert_eq!(SelectorParser::parse(case), Some(vec![span(0, eoi_pos)]), "{}", case);
    }
}

#[test]
fn selector_of_several_basic_selectors() {
    assert_eq!(SelectorParser::parse("ul li"), Some(vec![span(0, 2), span(3, 5)]));
    assert_eq!(
        SelectorParser::parse("nav.main  a[href ^= 'http']\t.icon"),
        Some(vec![span(0, 8), span(10, 27), span(28, 33)])
    );
}

#[test]
fn whitespace_around_a_selector_is_passed() {
    assert_eq!(SelectorParser::parse("  a.b  "), Some(vec![span(2, 5)]));
    assert_eq!(SelectorParser::parse("a "), Some(vec![span(0, 1)]));
}

#[test]
fn every_operator_is_known() {
    for operator in ["=", "~=", "|=", "^=", "$=", "*="] {
        let text = format!("[a{}b]", operator);
        assert_eq!(SelectorParser::parse(&text), Some(vec![span(0, text.len())]), "{}", text);
    }
    for operator in ["==", "!=", "~", "<=", "=~", ""] {
        let text = format!("[a{}b]", operator);
        assert_eq!(SelectorParser::parse(&text), None, "{}", text);
    }
}

#[test]
fn every_case_flag_is_known() {
    for flag in ["i", "I", "s", "S"] {
        let text = format!("[a=b {}]", flag);
        assert_eq!(SelectorParser::parse(&text), Some(vec![span(0, text.len())]), "{}", text);
        let text = format!("[a='b'\t{} ]", flag);
        assert_eq!(SelectorParser::parse(&text), Some(vec![span(0, text.len())]), "{}", text);
    }
    assert_eq!(SelectorParser::parse("[a=b x]"), None);
    assert_eq!(SelectorParser::parse("[a=b is]"), None);
    assert_eq!(SelectorParser::parse("[a=b i s]"), None);
    // a flag stands apart from the value
    assert_eq!(SelectorParser::parse("[a='b'i]"), None);
}

#[test]
fn whitespace_in_quotes_belongs_to_the_value() {
    assert_eq!(SelectorParser::parse("[a=' b  c ']"), Some(vec![span(0, 12)]));
    assert_eq!(SelectorParser::parse("[a=\"it's\"]"), Some(vec![span(0, 10)]));
    assert_eq!(SelectorParser::parse("[a='it\"s']"), Some(vec![span(0, 10)]));
    assert_eq!(SelectorParser::parse("[a=b c]"), None);
    assert_eq!(SelectorParser::parse("[a='b]"), None);
    assert_eq!(SelectorParser::parse("[a='b\"]"), None);
    assert_eq!(SelectorParser::parse("[a='']"), Some(vec![span(0, 6)]));
}

#[test]
fn texts_that_are_no_selector() {
    for text in [
        "", "   ", "#", ".", "a.", "a#", "a..b", "[", "[]", "[a]", "[a=]", "[=b]", "[a=b", "a]",
        "a[b=c]]", "a,b", "a > b", "a:hover", "color: red", "a!", "*",
    ] {
        assert_eq!(SelectorParser::parse(text), None, "{:?}", text);
    }
}

#[test]
fn spans_count_characters() {
    assert_eq!(SelectorParser::parse("[a='\u{e9}\u{e9}'] b"), Some(vec![span(0, 8), span(9, 10)]));
}

#[test]
fn smiley_parser_reads_selectors() {
    assert_eq!(SmileyParser::parse_selector("a.b c"), Some(vec![span(0, 3), span(4, 5)]));
    assert_eq!(SmileyParser::parse_selector("a: b"), None);
}

#[test]
fn declaration_parsing() {
    assert_eq!(declaration("color: red"), parsed("color", "red", false));
    assert_eq!(declaration("color:red"), parsed("color", "red", false));
    assert_eq!(declaration("  margin-top \t:  0 auto  "), parsed("margin-top", "0 auto", false));
    assert_eq!(
        declaration("font-family: 'Fira Sans', sans-serif"),
        parsed("font-family", "'Fira Sans', sans-serif", false)
    );
    assert_eq!(declaration("a:b:c"), parsed("a", "b:c", false));
}

#[test]
fn declaration_spans() {
    assert_eq!(
        SmileyParser::parse_declaration(" color : red !important"),
        Some(Declaration { property: span(1, 6), value: span(9, 12), important: true })
    );
}

#[test]
fn important_declarations() {
    assert_eq!(declaration("color: red !important"), parsed("color", "red", true));
    assert_eq!(declaration("color: red!important"), parsed("color", "red", true));
    assert_eq!(declaration("color: red  !  important  "), parsed("color", "red", true));
    assert_eq!(declaration("color: red ! \timportant"), parsed("color", "red", true));
}

#[test]
fn texts_that_are_no_declaration() {
    for text in [
        "",
        "color",
        "color red",
        ": red",
        "color:",
        "color:   ",
        "color: !important",
        "color: red !",
        "color: red !import",
        "color: red !importance",
        "color: red !important !important",
        "color: red !important;",
        "color: red ! im portant",
        "co lor: red",
        "a.b: c",
        "color: red !IMPORTANT",
    ] {
        assert_eq!(SmileyParser::parse_declaration(text), None, "{:?}", text);
    }
}

#[test]
fn parse_goes_by_the_kind_of_the_line() {
    assert_eq!(
        SmileyParser::parse(CssLineKind::Selector, "a.b"),
        Some(Statement::Selector(vec![span(0, 3)]))
    );
    assert_eq!(
        SmileyParser::parse(CssLineKind::Property, "a: b"),
        Some(Statement::Declaration(Declaration {
            property: span(0, 1),
            value: span(3, 4),
            important: false,
        }))
    );
    assert_eq!(SmileyParser::parse(CssLineKind::Selector, "a: b"), None);
    assert_eq!(SmileyParser::parse(CssLineKind::Property, "a.b"), None);
}

#[test]
fn scanning_helpers() {
    let text = chars_of("  ab-c_1 = 'x y'  ");
    assert_eq!(text.len(), 18);
    assert_eq!(skip_whitespace(&text, 0), 2);
    assert_eq!(skip_whitespace(&text, 2), 2);
    assert_eq!(skip_name(&text, 2), 8);
    assert_eq!(skip_name(&text, 8), 8);
    assert_eq!(find_char(&text, '\'', 0), 11);
    assert_eq!(find_char(&text, '\'', 12), 15);
    assert_eq!(find_char(&text, '!', 0), 18);
    assert_eq!(trim_end(&text, 11, 18), 16);
    assert_eq!(trim_end(&text, 0, 2), 0);
    assert_eq!(skip_whitespace(&text, 18), 18);
}

#[test]
fn names_and_basic_selectors_at_an_index() {
    let text = chars_of("a.b[c=d] e");
    assert_eq!(parse_name(&text, 0), Some(1));
    assert_eq!(parse_name(&text, 1), None);
    assert_eq!(parse_basic(&text, 0), Some(8));
    assert_eq!(parse_basic(&text, 1), Some(8));
    assert_eq!(parse_basic(&text, 8), None);
    assert_eq!(parse_basic(&text, 9), Some(10));
    assert_eq!(parse_basic(&text, 10), None);
}

#[test]
fn words_at_an_index() {
    let text = chars_of("x important");
    let word = chars_of("important");
    assert!(starts_with_word(&text, 2, &word));
    assert!(!starts_with_word(&text, 1, &word));
    assert!(!starts_with_word(&text, 3, &word));
    assert!(starts_with_word(&text, 11, &Vec::new()));
}

#[test]
fn chars_of_counts_characters() {
    assert_eq!(chars_of("h\u{e9}llo"), vec!['h', '\u{e9}', 'l', 'l', 'o']);
    assert!(chars_of("").is_empty());
}
