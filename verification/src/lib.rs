//! A small expression language: an abstract syntax tree over integer and
//! boolean values, a recursive evaluator with typed, recoverable failures,
//! an environment for late-bound variables, and a whitespace-based parser
//! for the textual grammar.

pub mod parser;
pub mod program;
