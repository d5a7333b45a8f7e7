//! The front end of a toy imperative language: source text in, abstract
//! syntax tree out.
//!
//! The crate is layered bottom-up: `combinator` is a small algebra of parser
//! values; `parser` is the lexical layer (whitespace, comments, literal
//! tokens, numbers, identifiers); `grammar` is the recursive-descent grammar,
//! one rule per non-terminal, whose single entry point `parse_program` either
//! yields the complete program tree of `ast` or fails as a whole. Every
//! recognizer and rule carries a contract proved against a spec function over
//! the input's characters, so what each one matches, consumes and builds is
//! pinned down exactly.

pub mod ast;
pub mod combinator;
pub mod parser;
pub mod grammar;
