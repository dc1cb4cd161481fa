//! A front end and evaluator for a small dynamically typed scripting
//! language: the scanner turns source text into tokens, the parser turns
//! the tokens into an abstract syntax tree of statements and expressions,
//! and the evaluator walks that tree against a mutable name-to-value
//! environment, producing renderings to print and structured error values.
//!
//! Numbers of the language are IEEE 754 binary64 values, carried
//! throughout as their 64-bit encodings; `numbits` says how.

pub mod code_location;
pub mod dbg_display;
pub mod environment;
pub mod evaluator;
pub mod expr;
pub mod interpreter;
pub mod literal_type;
pub mod numbits;
pub mod parser;
pub mod run;
pub mod scanner;
pub mod stmt;
pub mod token;
pub mod token_type;
pub mod util;
