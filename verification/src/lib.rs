//! A parser for a subset of C11 that types what it parses.
//!
//! The parser reads a finished sequence of tokens and builds the parse tree
//! in one pass of recursive descent. Every node of the tree carries the type
//! of the construct it stands for, and a construct that the typing rules
//! reject does not parse.
//!
//! `grammar` defines, as functions over token values, what each production
//! gives at each position; `parser` holds the functions that compute it,
//! each proved to return what the grammar defines; `laws` states what
//! holds of every parse.

pub mod ast;
pub mod cursor;
pub mod error;
pub mod grammar;
pub mod laws;
pub mod parser;
pub mod rule;
pub mod sema;
pub mod text;
pub mod token;
pub mod types;
