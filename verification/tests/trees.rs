use toyparse::ast::{Function, If, Node, While};
use toyparse::grammar::parse_program;
use toyparse::parser::{id, ignored, number, token};

/// The input left unconsumed when a recognizer stops at character position `p`.
fn remaining(s: &str, p: usize) -> String {
    s.chars().skip(p).collect()
}

fn num(v: i64) -> Box<Node> {
    Box::new(Node::Number(v))
}

fn ident(name: &str) -> Box<Node> {
    Box::new(Node::Id(name.to_owned()))
}

#[test]
fn keyword_boundary_rejects_prefix() {
    assert_eq!(token("ifx", 0, "if", true), None);

    let s = "if (";
    let p = token(s, 0, "if", true).unwrap();
    assert_eq!(remaining(s, p), "(");
}

#[test]
fn ignored_content_folding() {
    let s = " \t\n// c\n/* c2 */rest";
    let p = ignored(s, 0).unwrap();
    assert_eq!(remaining(s, p), "rest");
}

#[test]
fn number_identifier_boundary_asymmetry() {
    let s = "123abc";
    let (p, v) = number(s, 0).unwrap();
    assert_eq!(v, 123);
    assert_eq!(remaining(s, p), "abc");

    assert_eq!(id("1foo", 0), None);

    let s = "_foo1 bar";
    let (p, name) = id(s, 0).unwrap();
    assert_eq!(name, "_foo1");
    assert_eq!(remaining(s, p), "bar");
}

#[test]
fn end_to_end_var_and_return() {
    let got = parse_program("var x = 1 + 2 * 3; return x;").unwrap();
    let expected = Node::Block(vec![
        Node::Var(
            "x".to_owned(),
            Box::new(Node::Add(num(1), Box::new(Node::Multiply(num(2), num(3))))),
        ),
        Node::Return(ident("x")),
    ]);
    assert_eq!(got, expected);
}

#[test]
fn end_to_end_function_declaration() {
    let got = parse_program("function add(a, b) { return a + b; }").unwrap();
    let expected = Node::Block(vec![Node::Function(Function {
        name: "add".to_owned(),
        parameters: vec!["a".to_owned(), "b".to_owned()],
        body: Box::new(Node::Block(vec![Node::Return(Box::new(Node::Add(
            ident("a"),
            ident("b"),
        )))])),
    })]);
    assert_eq!(got, expected);
}

#[test]
fn missing_else_normalizes_to_empty_block() {
    let got = parse_program("if (x) { y; }").unwrap();
    let expected = Node::Block(vec![Node::If(If {
        condition: ident("x"),
        consequence: Box::new(Node::Block(vec![Node::Id("y".to_owned())])),
        alternative: Box::new(Node::Block(vec![])),
    })]);
    assert_eq!(got, expected);
}

#[test]
fn completion_enforcement() {
    assert!(parse_program("x;").is_some());
    assert_eq!(parse_program("x; garbage$$"), None);
}

#[test]
fn if_else_branches() {
    let got = parse_program("if (x) { y; } else { z; }").unwrap();
    let expected = Node::Block(vec![Node::If(If {
        condition: ident("x"),
        consequence: Box::new(Node::Block(vec![Node::Id("y".to_owned())])),
        alternative: Box::new(Node::Block(vec![Node::Id("z".to_owned())])),
    })]);
    assert_eq!(got, expected);
}

#[test]
fn else_if_chain() {
    let got = parse_program("if (a) { x; } else if (b) { y; } else { z; }").unwrap();
    let expected = Node::Block(vec![Node::If(If {
        condition: ident("a"),
        consequence: Box::new(Node::Block(vec![Node::Id("x".to_owned())])),
        alternative: Box::new(Node::If(If {
            condition: ident("b"),
            consequence: Box::new(Node::Block(vec![Node::Id("y".to_owned())])),
            alternative: Box::new(Node::Block(vec![Node::Id("z".to_owned())])),
        })),
    })]);
    assert_eq!(got, expected);
}

#[test]
fn while_loop_tree() {
    let got = parse_program("while (x == 1) { x = x - 1; }").unwrap();
    let expected = Node::Block(vec![Node::While(While {
        condition: Box::new(Node::Equal(ident("x"), num(1))),
        body: Box::new(Node::Block(vec![Node::Assignment(
            "x".to_owned(),
            Box::new(Node::Subtract(ident("x"), num(1))),
        )])),
    })]);
    assert_eq!(got, expected);
}

#[test]
fn calls_with_argument_lists() {
    let got = parse_program("f(); g(1); h(1, x + 2);").unwrap();
    let expected = Node::Block(vec![
        Node::Call { callee: "f".to_owned(), args: vec![] },
        Node::Call { callee: "g".to_owned(), args: vec![Node::Number(1)] },
        Node::Call {
            callee: "h".to_owned(),
            args: vec![
                Node::Number(1),
                Node::Add(ident("x"), num(2)),
            ],
        },
    ]);
    assert_eq!(got, expected);
}

#[test]
fn trailing_comma_rejected() {
    assert_eq!(parse_program("f(1,);"), None);
}

#[test]
fn precedence_equality_lowest() {
    let got = parse_program("1 + 2 == 3 * 4;").unwrap();
    let expected = Node::Block(vec![Node::Equal(
        Box::new(Node::Add(num(1), num(2))),
        Box::new(Node::Multiply(num(3), num(4))),
    )]);
    assert_eq!(got, expected);
}

#[test]
fn subtraction_is_left_associative() {
    let got = parse_program("1 - 2 - 3;").unwrap();
    let expected = Node::Block(vec![Node::Subtract(
        Box::new(Node::Subtract(num(1), num(2))),
        num(3),
    )]);
    assert_eq!(got, expected);
}

#[test]
fn parentheses_group() {
    let got = parse_program("(1 + 2) * 3;").unwrap();
    let expected = Node::Block(vec![Node::Multiply(
        Box::new(Node::Add(num(1), num(2))),
        num(3),
    )]);
    assert_eq!(got, expected);
}

#[test]
fn negation_and_inequality() {
    let got = parse_program("!x; a != b;").unwrap();
    let expected = Node::Block(vec![
        Node::Not(ident("x")),
        Node::NotEqual(ident("a"), ident("b")),
    ]);
    assert_eq!(got, expected);
}

#[test]
fn division_tree() {
    let got = parse_program("a / b / c;").unwrap();
    let expected = Node::Block(vec![Node::Divide(
        Box::new(Node::Divide(ident("a"), ident("b"))),
        ident("c"),
    )]);
    assert_eq!(got, expected);
}

#[test]
fn empty_and_comment_only_programs() {
    assert_eq!(parse_program(""), Some(Node::Block(vec![])));
    assert_eq!(parse_program("  // nothing here\n"), Some(Node::Block(vec![])));
}

#[test]
fn keyword_without_boundary_fails_program() {
    // `if` must be followed by whitespace; `if(x)` is not an if statement,
    // and the fallback call expression is not followed by a semicolon.
    assert_eq!(parse_program("if(x) { y; }"), None);
}

#[test]
fn unterminated_block_comment_fails_program() {
    assert_eq!(parse_program("x; /* never closed"), None);
}

#[test]
fn number_overflow_is_rejected() {
    assert_eq!(number("9223372036854775808", 0), None);
    let (_, v) = number("9223372036854775807", 0).unwrap();
    assert_eq!(v, i64::MAX);
    let (_, v) = number("000000000000000000001", 0).unwrap();
    assert_eq!(v, 1);
}

#[test]
fn unicode_identifier() {
    let s = "héllo monde";
    let (p, name) = id(s, 0).unwrap();
    assert_eq!(name, "héllo");
    assert_eq!(remaining(s, p), "monde");
}

#[test]
fn assignment_versus_equality() {
    let got = parse_program("x = 1; x == 1;").unwrap();
    let expected = Node::Block(vec![
        Node::Assignment("x".to_owned(), num(1)),
        Node::Equal(ident("x"), num(1)),
    ]);
    assert_eq!(got, expected);
}

#[test]
fn nested_blocks() {
    let got = parse_program("{ x; { y; } }").unwrap();
    let expected = Node::Block(vec![Node::Block(vec![
        Node::Id("x".to_owned()),
        Node::Block(vec![Node::Id("y".to_owned())]),
    ])]);
    assert_eq!(got, expected);
}
