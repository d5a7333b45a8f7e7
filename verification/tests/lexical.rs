use toyparse::parser::{
    id, ignored, multi_line_comment, number, single_line_comment, token, token_base, whitespace,
};

/// The input left unconsumed when a recognizer stops at character position `p`.
fn remaining(s: &str, p: usize) -> String {
    s.chars().skip(p).collect()
}

#[test]
fn parser_whitespace_empty() {
    assert_eq!(whitespace("", 0), None);
}

#[test]
fn parser_whitespace_single_space() {
    let s = " ";
    let p = whitespace(s, 0).unwrap();
    assert_eq!(remaining(s, p), "");
}

#[test]
fn parser_whitespace_multiple_spaces() {
    let s = "   \t\n\t  \n";
    let p = whitespace(s, 0).unwrap();
    assert_eq!(remaining(s, p), "");
}

#[test]
fn parser_whitespace_no_space() {
    assert_eq!(whitespace("no space!", 0), None);
}

#[test]
fn parser_single_line_comment_empty() {
    assert_eq!(single_line_comment("", 0), None);
}

#[test]
fn parser_single_line_comment_single_line() {
    let s = "// single line comment";
    let p = single_line_comment(s, 0).unwrap();
    assert_eq!(remaining(s, p), "");
}

#[test]
fn parser_single_line_comment_multiple_lines() {
    let s = "// single line comment\nsomething else";
    let p = single_line_comment(s, 0).unwrap();
    assert_eq!(remaining(s, p), "something else");
}

#[test]
fn parser_single_line_comment_no_comment() {
    assert_eq!(single_line_comment("no comment", 0), None);
}

#[test]
fn parser_multi_line_comment_empty() {
    assert_eq!(multi_line_comment("", 0), None);
}

#[test]
fn parser_multi_line_comment_single_line() {
    let s = "/* multi line comment */";
    let p = multi_line_comment(s, 0).unwrap();
    assert_eq!(remaining(s, p), "");
}

#[test]
fn parser_multi_line_comment_multiple_lines() {
    let s = "/* multi line comment\nsomething else */";
    let p = multi_line_comment(s, 0).unwrap();
    assert_eq!(remaining(s, p), "");
}

#[test]
fn parser_multi_line_comment_no_comment() {
    assert_eq!(multi_line_comment("no comment", 0), None);
}

#[test]
fn parser_multi_line_comment_no_end() {
    assert_eq!(multi_line_comment("/* multi line comment", 0), None);
}

#[test]
fn parser_ignored_empty() {
    let s = "";
    let p = ignored(s, 0).unwrap();
    assert_eq!(remaining(s, p), "");
}

#[test]
fn parser_ignored_whitespace() {
    let s = " \t\n";
    let p = ignored(s, 0).unwrap();
    assert_eq!(remaining(s, p), "");
}

#[test]
fn parser_ignored_comments() {
    let s = "// single line comment\n/* multi line comment */";
    let p = ignored(s, 0).unwrap();
    assert_eq!(remaining(s, p), "");
}

#[test]
fn parser_ignored_some() {
    let s = " \t\n  // some comment";
    let p = ignored(s, 0).unwrap();
    assert_eq!(remaining(s, p), "");
}

#[test]
fn tests_whitespace_empty() {
    assert_eq!(whitespace("", 0), None);
}

#[test]
fn tests_whitespace_single_space() {
    let s = " ";
    let p = whitespace(s, 0).unwrap();
    assert_eq!(remaining(s, p), "");
}

#[test]
fn tests_whitespace_multiple_spaces() {
    let s = "   \t\n\t  \n";
    let p = whitespace(s, 0).unwrap();
    assert_eq!(remaining(s, p), "");
}

#[test]
fn tests_whitespace_no_space() {
    assert_eq!(whitespace("no space!", 0), None);
}

#[test]
fn tests_single_line_comment_empty() {
    assert_eq!(single_line_comment("", 0), None);
}

#[test]
fn tests_single_line_comment_single_line() {
    let s = "// single line comment";
    let p = single_line_comment(s, 0).unwrap();
    assert_eq!(remaining(s, p), "");
}

#[test]
fn tests_single_line_comment_multiple_lines() {
    let s = "// single line comment\nsomething else";
    let p = single_line_comment(s, 0).unwrap();
    assert_eq!(remaining(s, p), "something else");
}

#[test]
fn tests_single_line_comment_no_comment() {
    assert_eq!(single_line_comment("no comment", 0), None);
}

#[test]
fn tests_multi_line_comment_empty() {
    assert_eq!(multi_line_comment("", 0), None);
}

#[test]
fn tests_multi_line_comment_single_line() {
    let s = "/* multi line comment */";
    let p = multi_line_comment(s, 0).unwrap();
    assert_eq!(remaining(s, p), "");
}

#[test]
fn tests_multi_line_comment_multiple_lines() {
    let s = "/* multi line comment\nsomething else */";
    let p = multi_line_comment(s, 0).unwrap();
    assert_eq!(remaining(s, p), "");
}

#[test]
fn tests_multi_line_comment_no_comment() {
    assert_eq!(multi_line_comment("no comment", 0), None);
}

#[test]
fn tests_multi_line_comment_no_end() {
    assert_eq!(multi_line_comment("/* multi line comment", 0), None);
}

#[test]
fn tests_ignored_empty() {
    let s = "";
    let p = ignored(s, 0).unwrap();
    assert_eq!(remaining(s, p), "");
}

#[test]
fn tests_ignored_whitespace() {
    let s = " \t\n";
    let p = ignored(s, 0).unwrap();
    assert_eq!(remaining(s, p), "");
}

#[test]
fn tests_ignored_comments() {
    let s = "// single line comment\n/* multi line comment */";
    let p = ignored(s, 0).unwrap();
    assert_eq!(remaining(s, p), "");
}

#[test]
fn tests_ignored_some() {
    let s = " \t\n  // some comment";
    let p = ignored(s, 0).unwrap();
    assert_eq!(remaining(s, p), "");
}

#[test]
fn token_empty() {
    assert_eq!(token_base("", 0, "a", false), None);
    assert_eq!(token_base("", 0, "a", true), None);
}

#[test]
fn token_breakable() {
    let s = ",";
    let p = token(s, 0, ",", false).unwrap();
    assert_eq!(remaining(s, p), "");

    let s = ",foo";
    let p = token(s, 0, ",", false).unwrap();
    assert_eq!(remaining(s, p), "foo");

    let s = ", \n /* comment */ foo";
    let p = token(s, 0, ",", false).unwrap();
    assert_eq!(remaining(s, p), "foo");

    assert_eq!(token("foo,", 0, ",", false), None);
}

#[test]
fn token_unbreakable() {
    let s = ",";
    let p = token(s, 0, ",", true).unwrap();
    assert_eq!(remaining(s, p), "");

    assert_eq!(token(",foo", 0, ",", true), None);

    let s = ", \n /* comment */ foo";
    let p = token(s, 0, ",", true).unwrap();
    assert_eq!(remaining(s, p), "foo");

    assert_eq!(token("foo,", 0, ",", true), None);
}

#[test]
fn number_empty() {
    assert_eq!(number("", 0), None);
}

#[test]
fn number_valid() {
    let s = "123";
    let (p, v) = number(s, 0).unwrap();
    assert_eq!(v, 123);
    assert_eq!(remaining(s, p), "");

    let s = "123   ";
    let (p, v) = number(s, 0).unwrap();
    assert_eq!(v, 123);
    assert_eq!(remaining(s, p), "");
}

#[test]
fn number_invalid() {
    assert_eq!(number("foo", 0), None);
}

#[test]
fn id_empty() {
    assert_eq!(id("", 0), None);
}

#[test]
fn id_valid() {
    let s = "foo";
    let (p, name) = id(s, 0).unwrap();
    assert_eq!(name, "foo");
    assert_eq!(remaining(s, p), "");

    let s = "_foo_123 \n test";
    let (p, name) = id(s, 0).unwrap();
    assert_eq!(name, "_foo_123");
    assert_eq!(remaining(s, p), "test");

    let s = "foo,bar";
    let (p, name) = id(s, 0).unwrap();
    assert_eq!(name, "foo");
    assert_eq!(remaining(s, p), ",bar");
}

#[test]
fn id_invalid() {
    assert_eq!(id("1foo", 0), None);
}
