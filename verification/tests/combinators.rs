use toyparse::combinator::{
    And, Choice, Constant, Maybe, MultiLineComment, Parser, SingleLineComment, Whitespace,
    ZeroOrMore,
};

/// The input left unconsumed when a parser stops at character position `p`.
fn remaining(s: &str, p: usize) -> String {
    s.chars().skip(p).collect()
}

#[test]
fn constant_succeeds_without_consuming() {
    let p = Constant::new(7u64);
    assert_eq!(p.parse("abc", 0), Some((0, 7)));
    assert_eq!(p.parse("", 0), Some((0, 7)));
}

#[test]
fn choice_takes_first_match() {
    let p = Choice(SingleLineComment, MultiLineComment);
    let s = "// line\nrest";
    let (e, ()) = p.parse(s, 0).unwrap();
    assert_eq!(remaining(s, e), "rest");

    let s = "/* block */rest";
    let (e, ()) = p.parse(s, 0).unwrap();
    assert_eq!(remaining(s, e), "rest");

    assert_eq!(p.parse("plain", 0), None);
}

#[test]
fn choice_retries_from_original_position() {
    // The first branch fails on an unterminated block comment; the second is
    // tried on the same, unconsumed input.
    let p = Choice(MultiLineComment, Whitespace);
    assert_eq!(p.parse("/* open", 0), None);
    let s = " x";
    let (e, ()) = p.parse(s, 0).unwrap();
    assert_eq!(remaining(s, e), "x");
}

#[test]
fn and_discards_left_and_keeps_right() {
    let p = And(Whitespace, Constant::new(3i64));
    let s = "  next";
    let (e, v) = p.parse(s, 0).unwrap();
    assert_eq!(v, 3);
    assert_eq!(remaining(s, e), "next");

    assert_eq!(p.parse("next", 0), None);
}

#[test]
fn maybe_wraps_success_and_absorbs_failure() {
    let p = Maybe::new(Whitespace);
    let s = " x";
    assert_eq!(p.parse(s, 0), Some((1, Some(()))));
    assert_eq!(p.parse("x", 0), Some((0, None)));
}

#[test]
fn zero_or_more_accumulates_until_no_match() {
    let p = ZeroOrMore::new(Choice(Whitespace, Choice(SingleLineComment, MultiLineComment)));
    let s = " \t// c\n/* c2 */rest";
    let (e, items) = p.parse(s, 0).unwrap();
    assert_eq!(remaining(s, e), "rest");
    assert_eq!(items.len(), 3);

    let (e, items) = p.parse("rest", 0).unwrap();
    assert_eq!(e, 0);
    assert_eq!(items.len(), 0);
}

#[test]
fn parse_to_completion_demands_all_input() {
    assert_eq!(Whitespace.parse_to_completion("   "), Ok(()));
    assert_eq!(Whitespace.parse_to_completion("  x"), Err(()));
    assert_eq!(Whitespace.parse_to_completion(""), Err(()));
}
