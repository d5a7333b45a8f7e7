//! The grammar layer: one recursive-descent rule per non-terminal, built on
//! the lexical layer, producing AST nodes.
//!
//! Each rule is proved equal to a spec function over `Seq<char>`, so the
//! contract of every rule says exactly which inputs it matches, what it
//! consumes, and which tree it builds. Alternatives are tried in order from
//! the same position; a failed alternative consumes nothing. Binary operators
//! are parsed as "next level, then zero or more (operator, next level)" and
//! folded left-associatively. Precedence, lowest first: equality, additive,
//! multiplicative, unary, primary.

use vstd::prelude::*;
use vstd::string::StrSliceExecFns;

use crate::ast::{Function, FunctionV, If, IfV, Node, NodeV, While, WhileV};
use crate::ast::{lemma_nodes_view, names_view, nodes_view};
use crate::parser::{
    assign_t, comma_t, else_t, equal_t, function_t, id, if_t, left_brace_t, left_paren_t, minus_t,
    not_equal_t, not_t, number, plus_t, return_t, right_brace_t, right_paren_t, semicolon_t,
    skip_ignored, slash_t, star_t, var_t, while_t,
};
use crate::parser::{ignored_end, spec_id, spec_number, spec_token};

verus! {

/// What the primary-expression rule returns: a number literal, an identifier
/// or a call of one, or a parenthesized expression.
pub open spec fn spec_primary(s: Seq<char>, pos: int) -> Option<(int, NodeV)>
    decreases s.len() - pos, 0int,
{
    match spec_number(s, pos) {
        Some((e, v)) => Some((e, NodeV::Number(v))),
        None => match spec_id(s, pos) {
            Some((e1, name)) => if pos < e1 <= s.len() {
                match spec_call_tail(s, e1) {
                    Some((e2, args)) => Some((e2, NodeV::Call { callee: name, args })),
                    None => Some((e1, NodeV::Id(name))),
                }
            } else {
                None
            },
            None => match spec_token(s, pos, "("@, false) {
                Some(e1) => if pos < e1 <= s.len() {
                    match spec_expression(s, e1) {
                        Some((e2, n)) => if e1 < e2 <= s.len() {
                            match spec_token(s, e2, ")"@, false) {
                                Some(e3) => Some((e3, n)),
                                None => None,
                            }
                        } else {
                            None
                        },
                        None => None,
                    }
                } else {
                    None
                },
                None => None,
            },
        },
    }
}

/// What follows a callee: a parenthesized, comma-separated, possibly-empty
/// argument list. No match leaves the identifier to stand alone.
pub open spec fn spec_call_tail(s: Seq<char>, pos: int) -> Option<(int, Seq<NodeV>)>
    decreases s.len() - pos, 1int,
{
    match spec_token(s, pos, "("@, false) {
        Some(e1) => if pos < e1 <= s.len() {
            let (e2, args) = spec_arguments(s, e1);
            if e1 <= e2 <= s.len() {
                match spec_token(s, e2, ")"@, false) {
                    Some(e3) => Some((e3, args)),
                    None => None,
                }
            } else {
                None
            }
        } else {
            None
        },
        None => None,
    }
}

/// What the unary rule returns: an optional `!` applied to a primary.
pub open spec fn spec_unary(s: Seq<char>, pos: int) -> Option<(int, NodeV)>
    decreases s.len() - pos, 2int,
{
    match spec_token(s, pos, "!"@, false) {
        Some(e) => if pos < e <= s.len() {
            match spec_primary(s, e) {
                Some((e2, n)) => Some((e2, NodeV::Not(Box::new(n)))),
                None => None,
            }
        } else {
            None
        },
        None => spec_primary(s, pos),
    }
}

/// The multiplicative operators already parsed, folded into `lhs` from the
/// left; stops before the first position where no further `*` or `/` step
/// matches.
pub open spec fn spec_mul_rest(s: Seq<char>, pos: int, lhs: NodeV) -> (int, NodeV)
    decreases s.len() - pos, 0int,
{
    if 0 <= pos <= s.len() {
        match spec_token(s, pos, "*"@, false) {
            Some(e) => if pos < e <= s.len() {
                match spec_unary(s, e) {
                    Some((p2, rhs)) => if pos < p2 <= s.len() {
                        spec_mul_rest(s, p2, NodeV::Multiply(Box::new(lhs), Box::new(rhs)))
                    } else {
                        (pos, lhs)
                    },
                    None => (pos, lhs),
                }
            } else {
                (pos, lhs)
            },
            None => match spec_token(s, pos, "/"@, false) {
                Some(e) => if pos < e <= s.len() {
                    match spec_unary(s, e) {
                        Some((p2, rhs)) => if pos < p2 <= s.len() {
                            spec_mul_rest(s, p2, NodeV::Divide(Box::new(lhs), Box::new(rhs)))
                        } else {
                            (pos, lhs)
                        },
                        None => (pos, lhs),
                    }
                } else {
                    (pos, lhs)
                },
                None => (pos, lhs),
            },
        }
    } else {
        (pos, lhs)
    }
}

/// What the multiplicative rule returns: a unary, then zero or more
/// (`*` or `/`, unary) steps folded left-associatively.
pub open spec fn spec_multiplicative(s: Seq<char>, pos: int) -> Option<(int, NodeV)>
    decreases s.len() - pos, 3int,
{
    match spec_unary(s, pos) {
        Some((p1, lhs)) => if pos < p1 <= s.len() {
            Some(spec_mul_rest(s, p1, lhs))
        } else {
            None
        },
        None => None,
    }
}

/// The additive operators already parsed, folded into `lhs` from the left.
pub open spec fn spec_add_rest(s: Seq<char>, pos: int, lhs: NodeV) -> (int, NodeV)
    decreases s.len() - pos, 4int,
{
    if 0 <= pos <= s.len() {
        match spec_token(s, pos, "+"@, false) {
            Some(e) => if pos < e <= s.len() {
                match spec_multiplicative(s, e) {
                    Some((p2, rhs)) => if pos < p2 <= s.len() {
                        spec_add_rest(s, p2, NodeV::Add(Box::new(lhs), Box::new(rhs)))
                    } else {
                        (pos, lhs)
                    },
                    None => (pos, lhs),
                }
            } else {
                (pos, lhs)
            },
            None => match spec_token(s, pos, "-"@, false) {
                Some(e) => if pos < e <= s.len() {
                    match spec_multiplicative(s, e) {
                        Some((p2, rhs)) => if pos < p2 <= s.len() {
                            spec_add_rest(s, p2, NodeV::Subtract(Box::new(lhs), Box::new(rhs)))
                        } else {
                            (pos, lhs)
                        },
                        None => (pos, lhs),
                    }
                } else {
                    (pos, lhs)
                },
                None => (pos, lhs),
            },
        }
    } else {
        (pos, lhs)
    }
}

/// What the additive rule returns: a multiplicative, then zero or more
/// (`+` or `-`, multiplicative) steps folded left-associatively.
pub open spec fn spec_additive(s: Seq<char>, pos: int) -> Option<(int, NodeV)>
    decreases s.len() - pos, 5int,
{
    match spec_multiplicative(s, pos) {
        Some((p1, lhs)) => if pos < p1 <= s.len() {
            Some(spec_add_rest(s, p1, lhs))
        } else {
            None
        },
        None => None,
    }
}

/// The equality operators already parsed, folded into `lhs` from the left.
pub open spec fn spec_eq_rest(s: Seq<char>, pos: int, lhs: NodeV) -> (int, NodeV)
    decreases s.len() - pos, 6int,
{
    if 0 <= pos <= s.len() {
        match spec_token(s, pos, "=="@, false) {
            Some(e) => if pos < e <= s.len() {
                match spec_additive(s, e) {
                    Some((p2, rhs)) => if pos < p2 <= s.len() {
                        spec_eq_rest(s, p2, NodeV::Equal(Box::new(lhs), Box::new(rhs)))
                    } else {
                        (pos, lhs)
                    },
                    None => (pos, lhs),
                }
            } else {
                (pos, lhs)
            },
            None => match spec_token(s, pos, "!="@, false) {
                Some(e) => if pos < e <= s.len() {
                    match spec_additive(s, e) {
                        Some((p2, rhs)) => if pos < p2 <= s.len() {
                            spec_eq_rest(s, p2, NodeV::NotEqual(Box::new(lhs), Box::new(rhs)))
                        } else {
                            (pos, lhs)
                        },
                        None => (pos, lhs),
                    }
                } else {
                    (pos, lhs)
                },
                None => (pos, lhs),
            },
        }
    } else {
        (pos, lhs)
    }
}

/// What the equality rule returns: an additive, then zero or more
/// (`==` or `!=`, additive) steps folded left-associatively.
pub open spec fn spec_equality(s: Seq<char>, pos: int) -> Option<(int, NodeV)>
    decreases s.len() - pos, 7int,
{
    match spec_additive(s, pos) {
        Some((p1, lhs)) => if pos < p1 <= s.len() {
            Some(spec_eq_rest(s, p1, lhs))
        } else {
            None
        },
        None => None,
    }
}

/// What the expression rule returns: an equality, the lowest-precedence
/// level.
pub open spec fn spec_expression(s: Seq<char>, pos: int) -> Option<(int, NodeV)>
    decreases s.len() - pos, 8int,
{
    spec_equality(s, pos)
}

/// What the argument-list rule returns: zero or more comma-separated
/// expressions; it always succeeds, with the empty list when no expression
/// matches.
pub open spec fn spec_arguments(s: Seq<char>, pos: int) -> (int, Seq<NodeV>)
    decreases s.len() - pos, 9int,
{
    if 0 <= pos <= s.len() {
        match spec_expression(s, pos) {
            Some((p1, first)) => if pos < p1 <= s.len() {
                let (p2, rest) = spec_args_rest(s, p1);
                (p2, seq![first] + rest)
            } else {
                (pos, Seq::empty())
            },
            None => (pos, Seq::empty()),
        }
    } else {
        (pos, Seq::empty())
    }
}

/// The (`,`, expression) steps that continue an argument list; stops before a
/// comma not followed by an expression.
pub open spec fn spec_args_rest(s: Seq<char>, pos: int) -> (int, Seq<NodeV>)
    decreases s.len() - pos, 0int,
{
    if 0 <= pos <= s.len() {
        match spec_token(s, pos, ","@, false) {
            Some(e) => if pos < e <= s.len() {
                match spec_expression(s, e) {
                    Some((p2, n)) => if pos < p2 <= s.len() {
                        let (p3, rest) = spec_args_rest(s, p2);
                        (p3, seq![n] + rest)
                    } else {
                        (pos, Seq::empty())
                    },
                    None => (pos, Seq::empty()),
                }
            } else {
                (pos, Seq::empty())
            },
            None => (pos, Seq::empty()),
        }
    } else {
        (pos, Seq::empty())
    }
}

/// What the variable-declaration rule returns:
/// `var` identifier `=` expression `;`.
pub open spec fn spec_var_statement(s: Seq<char>, pos: int) -> Option<(int, NodeV)>
    decreases s.len() - pos, 10int,
{
    match spec_token(s, pos, "var"@, true) {
        Some(e1) => if pos < e1 <= s.len() {
            match spec_id(s, e1) {
                Some((e2, name)) => match spec_token(s, e2, "="@, false) {
                    Some(e3) => if pos < e3 <= s.len() {
                        match spec_expression(s, e3) {
                            Some((e4, init)) => match spec_token(s, e4, ";"@, false) {
                                Some(e5) => Some((e5, NodeV::Var(name, Box::new(init)))),
                                None => None,
                            },
                            None => None,
                        }
                    } else {
                        None
                    },
                    None => None,
                },
                None => None,
            }
        } else {
            None
        },
        None => None,
    }
}

/// What the assignment rule returns: identifier `=` expression `;`.
pub open spec fn spec_assignment_statement(s: Seq<char>, pos: int) -> Option<(int, NodeV)>
    decreases s.len() - pos, 10int,
{
    match spec_id(s, pos) {
        Some((e1, name)) => match spec_token(s, e1, "="@, false) {
            Some(e2) => if pos < e2 <= s.len() {
                match spec_expression(s, e2) {
                    Some((e3, value)) => match spec_token(s, e3, ";"@, false) {
                        Some(e4) => Some((e4, NodeV::Assignment(name, Box::new(value)))),
                        None => None,
                    },
                    None => None,
                }
            } else {
                None
            },
            None => None,
        },
        None => None,
    }
}

/// What the return rule returns: `return` expression `;`.
pub open spec fn spec_return_statement(s: Seq<char>, pos: int) -> Option<(int, NodeV)>
    decreases s.len() - pos, 10int,
{
    match spec_token(s, pos, "return"@, true) {
        Some(e1) => if pos < e1 <= s.len() {
            match spec_expression(s, e1) {
                Some((e2, value)) => match spec_token(s, e2, ";"@, false) {
                    Some(e3) => Some((e3, NodeV::Return(Box::new(value)))),
                    None => None,
                },
                None => None,
            }
        } else {
            None
        },
        None => None,
    }
}

/// What the expression-statement rule returns: expression `;`, yielding the
/// expression itself.
pub open spec fn spec_expression_statement(s: Seq<char>, pos: int) -> Option<(int, NodeV)>
    decreases s.len() - pos, 10int,
{
    match spec_expression(s, pos) {
        Some((e1, n)) => match spec_token(s, e1, ";"@, false) {
            Some(e2) => Some((e2, n)),
            None => None,
        },
        None => None,
    }
}

/// What the block rule returns: `{` zero or more statements `}`.
pub open spec fn spec_block(s: Seq<char>, pos: int) -> Option<(int, NodeV)>
    decreases s.len() - pos, 10int,
{
    match spec_token(s, pos, "{"@, false) {
        Some(e1) => if pos < e1 <= s.len() {
            let (e2, stmts) = spec_statements(s, e1);
            if pos < e2 <= s.len() {
                match spec_token(s, e2, "}"@, false) {
                    Some(e3) => Some((e3, NodeV::Block(stmts))),
                    None => None,
                }
            } else {
                None
            }
        } else {
            None
        },
        None => None,
    }
}

/// What the if rule returns: `if` `(` expression `)` block, optionally
/// followed by `else` and another if or a block. A missing or unparsable
/// alternative leaves an empty block in its place, never an absent branch.
pub open spec fn spec_if_statement(s: Seq<char>, pos: int) -> Option<(int, NodeV)>
    decreases s.len() - pos, 10int,
{
    match spec_token(s, pos, "if"@, true) {
        Some(e1) => if pos < e1 <= s.len() {
            match spec_token(s, e1, "("@, false) {
                Some(e2) => if pos < e2 <= s.len() {
                    match spec_expression(s, e2) {
                        Some((e3, cond)) => match spec_token(s, e3, ")"@, false) {
                            Some(e4) => if pos < e4 <= s.len() {
                                match spec_block(s, e4) {
                                    Some((e5, cons)) => if pos < e5 <= s.len() {
                                        Some(spec_else_tail(s, e5, cond, cons))
                                    } else {
                                        None
                                    },
                                    None => None,
                                }
                            } else {
                                None
                            },
                            None => None,
                        },
                        None => None,
                    }
                } else {
                    None
                },
                None => None,
            }
        } else {
            None
        },
        None => None,
    }
}

/// The optional `else` branch of an if: `else` then another if or a block.
/// When nothing of that shape follows, the alternative is the empty block and
/// nothing is consumed.
pub open spec fn spec_else_tail(s: Seq<char>, pos: int, cond: NodeV, cons: NodeV) -> (int, NodeV)
    decreases s.len() - pos, 0int,
{
    let absent = (
        pos,
        NodeV::If(
            IfV {
                condition: Box::new(cond),
                consequence: Box::new(cons),
                alternative: Box::new(NodeV::Block(Seq::empty())),
            },
        ),
    );
    if 0 <= pos <= s.len() {
        match spec_token(s, pos, "else"@, true) {
            Some(e1) => if pos < e1 <= s.len() {
                match spec_if_statement(s, e1) {
                    Some((e2, alt)) => (
                        e2,
                        NodeV::If(
                            IfV {
                                condition: Box::new(cond),
                                consequence: Box::new(cons),
                                alternative: Box::new(alt),
                            },
                        ),
                    ),
                    None => match spec_block(s, e1) {
                        Some((e2, alt)) => (
                            e2,
                            NodeV::If(
                                IfV {
                                    condition: Box::new(cond),
                                    consequence: Box::new(cons),
                                    alternative: Box::new(alt),
                                },
                            ),
                        ),
                        None => absent,
                    },
                }
            } else {
                absent
            },
            None => absent,
        }
    } else {
        absent
    }
}

/// What the while rule returns: `while` `(` expression `)` block.
pub open spec fn spec_while_statement(s: Seq<char>, pos: int) -> Option<(int, NodeV)>
    decreases s.len() - pos, 10int,
{
    match spec_token(s, pos, "while"@, true) {
        Some(e1) => if pos < e1 <= s.len() {
            match spec_token(s, e1, "("@, false) {
                Some(e2) => if pos < e2 <= s.len() {
                    match spec_expression(s, e2) {
                        Some((e3, cond)) => match spec_token(s, e3, ")"@, false) {
                            Some(e4) => if pos < e4 <= s.len() {
                                match spec_block(s, e4) {
                                    Some((e5, body)) => Some(
                                        (
                                            e5,
                                            NodeV::While(
                                                WhileV {
                                                    condition: Box::new(cond),
                                                    body: Box::new(body),
                                                },
                                            ),
                                        ),
                                    ),
                                    None => None,
                                }
                            } else {
                                None
                            },
                            None => None,
                        },
                        None => None,
                    }
                } else {
                    None
                },
                None => None,
            }
        } else {
            None
        },
        None => None,
    }
}

/// What the parameter-list rule returns: zero or more comma-separated
/// identifiers; it always succeeds.
pub open spec fn spec_parameters(s: Seq<char>, pos: int) -> (int, Seq<Seq<char>>) {
    match spec_id(s, pos) {
        Some((p1, first)) => {
            let (p2, rest) = spec_params_rest(s, p1);
            (p2, seq![first] + rest)
        },
        None => (pos, Seq::empty()),
    }
}

/// The (`,`, identifier) steps that continue a parameter list.
pub open spec fn spec_params_rest(s: Seq<char>, pos: int) -> (int, Seq<Seq<char>>)
    decreases s.len() - pos,
{
    if 0 <= pos <= s.len() {
        match spec_token(s, pos, ","@, false) {
            Some(e) => if pos < e <= s.len() {
                match spec_id(s, e) {
                    Some((p2, name)) => if pos < p2 <= s.len() {
                        let (p3, rest) = spec_params_rest(s, p2);
                        (p3, seq![name] + rest)
                    } else {
                        (pos, Seq::empty())
                    },
                    None => (pos, Seq::empty()),
                }
            } else {
                (pos, Seq::empty())
            },
            None => (pos, Seq::empty()),
        }
    } else {
        (pos, Seq::empty())
    }
}

/// What the function-declaration rule returns:
/// `function` identifier `(` parameters `)` block.
pub open spec fn spec_function_statement(s: Seq<char>, pos: int) -> Option<(int, NodeV)>
    decreases s.len() - pos, 10int,
{
    match spec_token(s, pos, "function"@, true) {
        Some(e1) => if pos < e1 <= s.len() {
            match spec_id(s, e1) {
                Some((e2, name)) => match spec_token(s, e2, "("@, false) {
                    Some(e3) => {
                        let (e4, params) = spec_parameters(s, e3);
                        match spec_token(s, e4, ")"@, false) {
                            Some(e5) => if pos < e5 <= s.len() {
                                match spec_block(s, e5) {
                                    Some((e6, body)) => Some(
                                        (
                                            e6,
                                            NodeV::Function(
                                                FunctionV {
                                                    name: name,
                                                    parameters: params,
                                                    body: Box::new(body),
                                                },
                                            ),
                                        ),
                                    ),
                                    None => None,
                                }
                            } else {
                                None
                            },
                            None => None,
                        }
                    },
                    None => None,
                },
                None => None,
            }
        } else {
            None
        },
        None => None,
    }
}

/// What the statement rule returns: the first matching alternative, tried in
/// this order: variable declaration, assignment, if, while, return, function
/// declaration, block, expression statement. Alternatives that share a
/// leading token stand so that the more specific one is tried first.
pub open spec fn spec_statement(s: Seq<char>, pos: int) -> Option<(int, NodeV)>
    decreases s.len() - pos, 11int,
{
    match spec_var_statement(s, pos) {
        Some(r) => Some(r),
        None => match spec_assignment_statement(s, pos) {
            Some(r) => Some(r),
            None => match spec_if_statement(s, pos) {
                Some(r) => Some(r),
                None => match spec_while_statement(s, pos) {
                    Some(r) => Some(r),
                    None => match spec_return_statement(s, pos) {
                        Some(r) => Some(r),
                        None => match spec_function_statement(s, pos) {
                            Some(r) => Some(r),
                            None => match spec_block(s, pos) {
                                Some(r) => Some(r),
                                None => spec_expression_statement(s, pos),
                            },
                        },
                    },
                },
            },
        },
    }
}

/// Zero or more statements in sequence; always succeeds, in encounter order.
pub open spec fn spec_statements(s: Seq<char>, pos: int) -> (int, Seq<NodeV>)
    decreases s.len() - pos, 12int,
{
    if 0 <= pos <= s.len() {
        match spec_statement(s, pos) {
            Some((p1, n)) => if pos < p1 <= s.len() {
                let (p2, rest) = spec_statements(s, p1);
                (p2, seq![n] + rest)
            } else {
                (pos, Seq::empty())
            },
            None => (pos, Seq::empty()),
        }
    } else {
        (pos, Seq::empty())
    }
}

/// What parsing a whole program returns: leading ignorable content, zero or
/// more statements gathered into a block, and then the end of the input. Any
/// unconsumed remainder makes the whole parse fail, even though a prefix
/// parsed.
pub open spec fn spec_program(s: Seq<char>) -> Option<NodeV>
    decreases s.len(), 13int,
{
    let start = ignored_end(s, 0);
    if 0 <= start <= s.len() {
        let (e, stmts) = spec_statements(s, start);
        if e == s.len() {
            Some(NodeV::Block(stmts))
        } else {
            None
        }
    } else {
        None
    }
}


/// Parses a primary expression: a number literal, an identifier or a call of
/// one, or a parenthesized expression.
pub fn primary(source: &str, pos: usize) -> (r: Option<(usize, Node)>)
    requires
        pos <= source@.len(),
    ensures
        match r {
            Some((p, n)) => spec_primary(source@, pos as int) == Some((p as int, n@)) && pos < p
                <= source@.len(),
            None => spec_primary(source@, pos as int) is None,
        },
    decreases source@.len() - pos, 0int,
{
    match number(source, pos) {
        Some((e, v)) => Some((e, Node::Number(v))),
        None => match id(source, pos) {
            Some((e1, name)) => match call_tail(source, e1) {
                Some((e2, args)) => Some((e2, Node::Call { callee: name.to_owned(), args })),
                None => Some((e1, Node::Id(name.to_owned()))),
            },
            None => match left_paren_t(source, pos) {
                Some(e1) => match expression(source, e1) {
                    Some((e2, n)) => match right_paren_t(source, e2) {
                        Some(e3) => Some((e3, n)),
                        None => None,
                    },
                    None => None,
                },
                None => None,
            },
        },
    }
}

/// Parses the argument list of a call, parentheses included.
fn call_tail(source: &str, pos: usize) -> (r: Option<(usize, Vec<Node>)>)
    requires
        pos <= source@.len(),
    ensures
        match r {
            Some((p, args)) => spec_call_tail(source@, pos as int) == Some(
                (p as int, nodes_view(args@)),
            ) && pos < p <= source@.len(),
            None => spec_call_tail(source@, pos as int) is None,
        },
    decreases source@.len() - pos, 1int,
{
    match left_paren_t(source, pos) {
        Some(e1) => {
            let (e2, args) = arguments(source, e1);
            match right_paren_t(source, e2) {
                Some(e3) => Some((e3, args)),
                None => None,
            }
        },
        None => None,
    }
}

/// Parses a unary expression: an optional `!` applied to a primary.
pub fn unary(source: &str, pos: usize) -> (r: Option<(usize, Node)>)
    requires
        pos <= source@.len(),
    ensures
        match r {
            Some((p, n)) => spec_unary(source@, pos as int) == Some((p as int, n@)) && pos < p
                <= source@.len(),
            None => spec_unary(source@, pos as int) is None,
        },
    decreases source@.len() - pos, 2int,
{
    match not_t(source, pos) {
        Some(e) => match primary(source, e) {
            Some((e2, n)) => Some((e2, Node::Not(Box::new(n)))),
            None => None,
        },
        None => primary(source, pos),
    }
}

/// Folds further (`*` or `/`, unary) steps into `lhs`, left-associatively.
fn mul_rest(source: &str, pos: usize, lhs: Node) -> (r: (usize, Node))
    requires
        pos <= source@.len(),
    ensures
        spec_mul_rest(source@, pos as int, lhs@) == (r.0 as int, r.1@),
        pos <= r.0 <= source@.len(),
    decreases source@.len() - pos, 0int,
{
    match star_t(source, pos) {
        Some(e) => match unary(source, e) {
            Some((p2, rhs)) => mul_rest(source, p2, Node::Multiply(Box::new(lhs), Box::new(rhs))),
            None => (pos, lhs),
        },
        None => match slash_t(source, pos) {
            Some(e) => match unary(source, e) {
                Some((p2, rhs)) => mul_rest(
                    source,
                    p2,
                    Node::Divide(Box::new(lhs), Box::new(rhs)),
                ),
                None => (pos, lhs),
            },
            None => (pos, lhs),
        },
    }
}

/// Parses a multiplicative expression: unary, then zero or more `*` or `/`
/// steps, left-associative.
pub fn multiplicative(source: &str, pos: usize) -> (r: Option<(usize, Node)>)
    requires
        pos <= source@.len(),
    ensures
        match r {
            Some((p, n)) => spec_multiplicative(source@, pos as int) == Some((p as int, n@)) && pos
                < p <= source@.len(),
            None => spec_multiplicative(source@, pos as int) is None,
        },
    decreases source@.len() - pos, 3int,
{
    match unary(source, pos) {
        Some((p1, lhs)) => {
            let (p2, n) = mul_rest(source, p1, lhs);
            Some((p2, n))
        },
        None => None,
    }
}

/// Folds further (`+` or `-`, multiplicative) steps into `lhs`.
fn add_rest(source: &str, pos: usize, lhs: Node) -> (r: (usize, Node))
    requires
        pos <= source@.len(),
    ensures
        spec_add_rest(source@, pos as int, lhs@) == (r.0 as int, r.1@),
        pos <= r.0 <= source@.len(),
    decreases source@.len() - pos, 4int,
{
    match plus_t(source, pos) {
        Some(e) => match multiplicative(source, e) {
            Some((p2, rhs)) => add_rest(source, p2, Node::Add(Box::new(lhs), Box::new(rhs))),
            None => (pos, lhs),
        },
        None => match minus_t(source, pos) {
            Some(e) => match multiplicative(source, e) {
                Some((p2, rhs)) => add_rest(
                    source,
                    p2,
                    Node::Subtract(Box::new(lhs), Box::new(rhs)),
                ),
                None => (pos, lhs),
            },
            None => (pos, lhs),
        },
    }
}

/// Parses an additive expression: multiplicative, then zero or more `+` or
/// `-` steps, left-associative.
pub fn additive(source: &str, pos: usize) -> (r: Option<(usize, Node)>)
    requires
        pos <= source@.len(),
    ensures
        match r {
            Some((p, n)) => spec_additive(source@, pos as int) == Some((p as int, n@)) && pos < p
                <= source@.len(),
            None => spec_additive(source@, pos as int) is None,
        },
    decreases source@.len() - pos, 5int,
{
    match multiplicative(source, pos) {
        Some((p1, lhs)) => {
            let (p2, n) = add_rest(source, p1, lhs);
            Some((p2, n))
        },
        None => None,
    }
}

/// Folds further (`==` or `!=`, additive) steps into `lhs`.
fn eq_rest(source: &str, pos: usize, lhs: Node) -> (r: (usize, Node))
    requires
        pos <= source@.len(),
    ensures
        spec_eq_rest(source@, pos as int, lhs@) == (r.0 as int, r.1@),
        pos <= r.0 <= source@.len(),
    decreases source@.len() - pos, 6int,
{
    match equal_t(source, pos) {
        Some(e) => match additive(source, e) {
            Some((p2, rhs)) => eq_rest(source, p2, Node::Equal(Box::new(lhs), Box::new(rhs))),
            None => (pos, lhs),
        },
        None => match not_equal_t(source, pos) {
            Some(e) => match additive(source, e) {
                Some((p2, rhs)) => eq_rest(
                    source,
                    p2,
                    Node::NotEqual(Box::new(lhs), Box::new(rhs)),
                ),
                None => (pos, lhs),
            },
            None => (pos, lhs),
        },
    }
}

/// Parses an equality expression: additive, then zero or more `==` or `!=`
/// steps, left-associative.
pub fn equality(source: &str, pos: usize) -> (r: Option<(usize, Node)>)
    requires
        pos <= source@.len(),
    ensures
        match r {
            Some((p, n)) => spec_equality(source@, pos as int) == Some((p as int, n@)) && pos < p
                <= source@.len(),
            None => spec_equality(source@, pos as int) is None,
        },
    decreases source@.len() - pos, 7int,
{
    match additive(source, pos) {
        Some((p1, lhs)) => {
            let (p2, n) = eq_rest(source, p1, lhs);
            Some((p2, n))
        },
        None => None,
    }
}

/// Parses an expression: the lowest-precedence level, equality.
pub fn expression(source: &str, pos: usize) -> (r: Option<(usize, Node)>)
    requires
        pos <= source@.len(),
    ensures
        match r {
            Some((p, n)) => spec_expression(source@, pos as int) == Some((p as int, n@)) && pos < p
                <= source@.len(),
            None => spec_expression(source@, pos as int) is None,
        },
    decreases source@.len() - pos, 8int,
{
    equality(source, pos)
}

/// Parses a possibly-empty, comma-separated argument list; always succeeds.
pub fn arguments(source: &str, pos: usize) -> (r: (usize, Vec<Node>))
    requires
        pos <= source@.len(),
    ensures
        spec_arguments(source@, pos as int) == (r.0 as int, nodes_view(r.1@)),
        pos <= r.0 <= source@.len(),
    decreases source@.len() - pos, 9int,
{
    match expression(source, pos) {
        Some((p1, first)) => {
            let (p2, mut rest) = args_rest(source, p1);
            let ghost r0 = rest@;
            rest.insert(0, first);
            proof {
                lemma_nodes_view(rest@);
                lemma_nodes_view(r0);
                assert(nodes_view(rest@) =~= seq![first@] + nodes_view(r0));
            }
            (p2, rest)
        },
        None => {
            let v: Vec<Node> = Vec::new();
            proof {
                assert(nodes_view(v@) =~= Seq::<NodeV>::empty());
            }
            (pos, v)
        },
    }
}

/// Parses the (`,`, expression) steps that continue an argument list.
fn args_rest(source: &str, pos: usize) -> (r: (usize, Vec<Node>))
    requires
        pos <= source@.len(),
    ensures
        spec_args_rest(source@, pos as int) == (r.0 as int, nodes_view(r.1@)),
        pos <= r.0 <= source@.len(),
    decreases source@.len() - pos, 0int,
{
    let none: Option<usize> = None;
    match comma_t(source, pos) {
        Some(e) => match expression(source, e) {
            Some((p2, n)) => {
                let (p3, mut rest) = args_rest(source, p2);
                let ghost r0 = rest@;
                rest.insert(0, n);
                proof {
                    lemma_nodes_view(rest@);
                    lemma_nodes_view(r0);
                    assert(nodes_view(rest@) =~= seq![n@] + nodes_view(r0));
                }
                (p3, rest)
            },
            None => {
                let v: Vec<Node> = Vec::new();
                proof {
                    assert(nodes_view(v@) =~= Seq::<NodeV>::empty());
                }
                (pos, v)
            },
        },
        None => {
            let v: Vec<Node> = Vec::new();
            proof {
                assert(nodes_view(v@) =~= Seq::<NodeV>::empty());
            }
            (pos, v)
        },
    }
}

/// Parses a variable declaration: `var` identifier `=` expression `;`.
#[verifier::rlimit(50)]
pub fn var_statement(source: &str, pos: usize) -> (r: Option<(usize, Node)>)
    requires
        pos <= source@.len(),
    ensures
        match r {
            Some((p, n)) => spec_var_statement(source@, pos as int) == Some((p as int, n@)) && pos
                < p <= source@.len(),
            None => spec_var_statement(source@, pos as int) is None,
        },
    decreases source@.len() - pos, 10int,
{
    match var_t(source, pos) {
        Some(e1) => match id(source, e1) {
            Some((e2, name)) => match assign_t(source, e2) {
                Some(e3) => match expression(source, e3) {
                    Some((e4, init)) => match semicolon_t(source, e4) {
                        Some(e5) => Some(
                            (e5, Node::Var(name.to_owned(), Box::new(init))),
                        ),
                        None => None,
                    },
                    None => None,
                },
                None => None,
            },
            None => None,
        },
        None => None,
    }
}

/// Parses an assignment: identifier `=` expression `;`.
pub fn assignment_statement(source: &str, pos: usize) -> (r: Option<(usize, Node)>)
    requires
        pos <= source@.len(),
    ensures
        match r {
            Some((p, n)) => spec_assignment_statement(source@, pos as int) == Some((p as int, n@))
                && pos < p <= source@.len(),
            None => spec_assignment_statement(source@, pos as int) is None,
        },
    decreases source@.len() - pos, 10int,
{
    match id(source, pos) {
        Some((e1, name)) => match assign_t(source, e1) {
            Some(e2) => match expression(source, e2) {
                Some((e3, value)) => match semicolon_t(source, e3) {
                    Some(e4) => Some(
                        (e4, Node::Assignment(name.to_owned(), Box::new(value))),
                    ),
                    None => None,
                },
                None => None,
            },
            None => None,
        },
        None => None,
    }
}

/// Parses a return statement: `return` expression `;`.
pub fn return_statement(source: &str, pos: usize) -> (r: Option<(usize, Node)>)
    requires
        pos <= source@.len(),
    ensures
        match r {
            Some((p, n)) => spec_return_statement(source@, pos as int) == Some((p as int, n@))
                && pos < p <= source@.len(),
            None => spec_return_statement(source@, pos as int) is None,
        },
    decreases source@.len() - pos, 10int,
{
    match return_t(source, pos) {
        Some(e1) => match expression(source, e1) {
            Some((e2, value)) => match semicolon_t(source, e2) {
                Some(e3) => Some((e3, Node::Return(Box::new(value)))),
                None => None,
            },
            None => None,
        },
        None => None,
    }
}

/// Parses a bare expression statement: expression `;`.
pub fn expression_statement(source: &str, pos: usize) -> (r: Option<(usize, Node)>)
    requires
        pos <= source@.len(),
    ensures
        match r {
            Some((p, n)) => spec_expression_statement(source@, pos as int) == Some((p as int, n@))
                && pos < p <= source@.len(),
            None => spec_expression_statement(source@, pos as int) is None,
        },
    decreases source@.len() - pos, 10int,
{
    match expression(source, pos) {
        Some((e1, n)) => match semicolon_t(source, e1) {
            Some(e2) => Some((e2, n)),
            None => None,
        },
        None => None,
    }
}

/// Parses a block: `{` zero or more statements `}`.
pub fn block(source: &str, pos: usize) -> (r: Option<(usize, Node)>)
    requires
        pos <= source@.len(),
    ensures
        match r {
            Some((p, n)) => spec_block(source@, pos as int) == Some((p as int, n@)) && pos < p
                <= source@.len(),
            None => spec_block(source@, pos as int) is None,
        },
    decreases source@.len() - pos, 10int,
{
    match left_brace_t(source, pos) {
        Some(e1) => {
            let (e2, stmts) = statements(source, e1);
            match right_brace_t(source, e2) {
                Some(e3) => Some((e3, Node::Block(stmts))),
                None => None,
            }
        },
        None => None,
    }
}

/// Parses an if statement; a missing `else` yields an empty block as the
/// alternative.
#[verifier::rlimit(50)]
pub fn if_statement(source: &str, pos: usize) -> (r: Option<(usize, Node)>)
    requires
        pos <= source@.len(),
    ensures
        match r {
            Some((p, n)) => spec_if_statement(source@, pos as int) == Some((p as int, n@)) && pos
                < p <= source@.len(),
            None => spec_if_statement(source@, pos as int) is None,
        },
    decreases source@.len() - pos, 10int,
{
    match if_t(source, pos) {
        Some(e1) => match left_paren_t(source, e1) {
            Some(e2) => match expression(source, e2) {
                Some((e3, cond)) => match right_paren_t(source, e3) {
                    Some(e4) => match block(source, e4) {
                        Some((e5, cons)) => {
                            let (e6, n) = else_tail(source, e5, cond, cons);
                            Some((e6, n))
                        },
                        None => None,
                    },
                    None => None,
                },
                None => None,
            },
            None => None,
        },
        None => None,
    }
}

/// Parses the optional `else` branch of an if statement.
#[verifier::rlimit(50)]
fn else_tail(source: &str, pos: usize, cond: Node, cons: Node) -> (r: (usize, Node))
    requires
        pos <= source@.len(),
    ensures
        spec_else_tail(source@, pos as int, cond@, cons@) == (r.0 as int, r.1@),
        pos <= r.0 <= source@.len(),
    decreases source@.len() - pos, 0int,
{
    match else_t(source, pos) {
        Some(e1) => match if_statement(source, e1) {
            Some((e2, alt)) => (e2, make_if(cond, cons, alt)),
            None => match block(source, e1) {
                Some((e2, alt)) => (e2, make_if(cond, cons, alt)),
                None => (pos, make_if(cond, cons, empty_block())),
            },
        },
        None => (pos, make_if(cond, cons, empty_block())),
    }
}

/// Builds an empty block node.
fn empty_block() -> (r: Node)
    ensures
        r@ == NodeV::Block(Seq::empty()),
{
    let v: Vec<Node> = Vec::new();
    proof {
        assert(nodes_view(v@) =~= Seq::<NodeV>::empty());
    }
    Node::Block(v)
}

/// Builds an if node from its three parts.
fn make_if(cond: Node, cons: Node, alt: Node) -> (r: Node)
    ensures
        r@ == NodeV::If(
            IfV {
                condition: Box::new(cond@),
                consequence: Box::new(cons@),
                alternative: Box::new(alt@),
            },
        ),
{
    let ghost cv = cond@;
    let ghost sv = cons@;
    let ghost av = alt@;
    let i = If {
        condition: Box::new(cond),
        consequence: Box::new(cons),
        alternative: Box::new(alt),
    };
    proof {
        assert(i@ == (IfV {
            condition: Box::new(cv),
            consequence: Box::new(sv),
            alternative: Box::new(av),
        }));
    }
    Node::If(i)
}

/// Parses a while statement: `while` `(` expression `)` block.
#[verifier::rlimit(100)]
#[verifier::spinoff_prover]
pub fn while_statement(source: &str, pos: usize) -> (r: Option<(usize, Node)>)
    requires
        pos <= source@.len(),
    ensures
        match r {
            Some((p, n)) => spec_while_statement(source@, pos as int) == Some((p as int, n@))
                && pos < p <= source@.len(),
            None => spec_while_statement(source@, pos as int) is None,
        },
    decreases source@.len() - pos, 10int,
{
    match while_t(source, pos) {
        Some(e1) => match left_paren_t(source, e1) {
            Some(e2) => match expression(source, e2) {
                Some((e3, cond)) => match right_paren_t(source, e3) {
                    Some(e4) => match block(source, e4) {
                        Some((e5, body)) => {
                            let ghost cv = cond@;
                            let ghost bv = body@;
                            let w = While { condition: Box::new(cond), body: Box::new(body) };
                            proof {
                                assert(w@ == (WhileV {
                                    condition: Box::new(cv),
                                    body: Box::new(bv),
                                }));
                            }
                            Some((e5, Node::While(w)))
                        },
                        None => None,
                    },
                    None => None,
                },
                None => None,
            },
            None => None,
        },
        None => None,
    }
}

/// Parses a possibly-empty, comma-separated parameter-name list; always
/// succeeds.
pub fn parameters(source: &str, pos: usize) -> (r: (usize, Vec<String>))
    requires
        pos <= source@.len(),
    ensures
        spec_parameters(source@, pos as int) == (r.0 as int, names_view(r.1@)),
        pos <= r.0 <= source@.len(),
{
    match id(source, pos) {
        Some((p1, first)) => {
            let (p2, mut rest) = params_rest(source, p1);
            let ghost r0 = rest@;
            rest.insert(0, first.to_owned());
            proof {
                assert(names_view(rest@) =~= seq![first@] + names_view(r0));
            }
            (p2, rest)
        },
        None => {
            let v: Vec<String> = Vec::new();
            proof {
                assert(names_view(v@) =~= Seq::<Seq<char>>::empty());
            }
            (pos, v)
        },
    }
}

/// Parses the (`,`, identifier) steps that continue a parameter list.
fn params_rest(source: &str, pos: usize) -> (r: (usize, Vec<String>))
    requires
        pos <= source@.len(),
    ensures
        spec_params_rest(source@, pos as int) == (r.0 as int, names_view(r.1@)),
        pos <= r.0 <= source@.len(),
    decreases source@.len() - pos,
{
    match comma_t(source, pos) {
        Some(e) => match id(source, e) {
            Some((p2, name)) => {
                let (p3, mut rest) = params_rest(source, p2);
                let ghost r0 = rest@;
                rest.insert(0, name.to_owned());
                proof {
                    assert(names_view(rest@) =~= seq![name@] + names_view(r0));
                }
                (p3, rest)
            },
            None => {
                let v: Vec<String> = Vec::new();
                proof {
                    assert(names_view(v@) =~= Seq::<Seq<char>>::empty());
                }
                (pos, v)
            },
        },
        None => {
            let v: Vec<String> = Vec::new();
            proof {
                assert(names_view(v@) =~= Seq::<Seq<char>>::empty());
            }
            (pos, v)
        },
    }
}

/// Parses a function declaration:
/// `function` identifier `(` parameters `)` block.
#[verifier::rlimit(50)]
pub fn function_statement(source: &str, pos: usize) -> (r: Option<(usize, Node)>)
    requires
        pos <= source@.len(),
    ensures
        match r {
            Some((p, n)) => spec_function_statement(source@, pos as int) == Some((p as int, n@))
                && pos < p <= source@.len(),
            None => spec_function_statement(source@, pos as int) is None,
        },
    decreases source@.len() - pos, 10int,
{
    match function_t(source, pos) {
        Some(e1) => match id(source, e1) {
            Some((e2, name)) => match left_paren_t(source, e2) {
                Some(e3) => {
                    let (e4, params) = parameters(source, e3);
                    match right_paren_t(source, e4) {
                        Some(e5) => match block(source, e5) {
                            Some((e6, body)) => {
                                let ghost pv = params@;
                                let ghost bv = body@;
                                let f = Function {
                                    name: name.to_owned(),
                                    parameters: params,
                                    body: Box::new(body),
                                };
                                proof {
                                    assert(f@ == (FunctionV {
                                        name: name@,
                                        parameters: names_view(pv),
                                        body: Box::new(bv),
                                    }));
                                }
                                Some((e6, Node::Function(f)))
                            },
                            None => None,
                        },
                        None => None,
                    }
                },
                None => None,
            },
            None => None,
        },
        None => None,
    }
}

/// Parses one statement: the first matching alternative, in the order fixed
/// by `spec_statement`.
#[verifier::rlimit(50)]
pub fn statement(source: &str, pos: usize) -> (r: Option<(usize, Node)>)
    requires
        pos <= source@.len(),
    ensures
        match r {
            Some((p, n)) => spec_statement(source@, pos as int) == Some((p as int, n@)) && pos < p
                <= source@.len(),
            None => spec_statement(source@, pos as int) is None,
        },
    decreases source@.len() - pos, 11int,
{
    match var_statement(source, pos) {
        Some(r1) => Some(r1),
        None => match assignment_statement(source, pos) {
            Some(r1) => Some(r1),
            None => match if_statement(source, pos) {
                Some(r1) => Some(r1),
                None => match while_statement(source, pos) {
                    Some(r1) => Some(r1),
                    None => match return_statement(source, pos) {
                        Some(r1) => Some(r1),
                        None => match function_statement(source, pos) {
                            Some(r1) => Some(r1),
                            None => match block(source, pos) {
                                Some(r1) => Some(r1),
                                None => expression_statement(source, pos),
                            },
                        },
                    },
                },
            },
        },
    }
}

/// Parses zero or more statements in sequence; always succeeds.
pub fn statements(source: &str, pos: usize) -> (r: (usize, Vec<Node>))
    requires
        pos <= source@.len(),
    ensures
        spec_statements(source@, pos as int) == (r.0 as int, nodes_view(r.1@)),
        pos <= r.0 <= source@.len(),
    decreases source@.len() - pos, 12int,
{
    match statement(source, pos) {
        Some((p1, n)) => {
            let (p2, mut rest) = statements(source, p1);
            let ghost r0 = rest@;
            rest.insert(0, n);
            proof {
                lemma_nodes_view(rest@);
                lemma_nodes_view(r0);
                assert(nodes_view(rest@) =~= seq![n@] + nodes_view(r0));
            }
            (p2, rest)
        },
        None => {
            let v: Vec<Node> = Vec::new();
            proof {
                assert(nodes_view(v@) =~= Seq::<NodeV>::empty());
            }
            (pos, v)
        },
    }
}

/// The single entry point: parses a whole program to a block of statements.
/// It succeeds only when the entire input is consumed after leading and
/// trailing ignorable content; any unconsumed remainder fails the parse even
/// though a prefix parsed.
pub fn parse_program(source: &str) -> (r: Option<Node>)
    ensures
        match r {
            Some(n) => spec_program(source@) == Some(n@),
            None => spec_program(source@) is None,
        },
{
    let start = skip_ignored(source, 0);
    let (e, stmts) = statements(source, start);
    let len = source.unicode_len();
    if e == len {
        Some(Node::Block(stmts))
    } else {
        None
    }
}

} // verus!
