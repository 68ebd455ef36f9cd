//! A recognizer for a small imperative language: a recursive-descent engine
//! with ordered-choice backtracking, a declaration table and a sticky
//! semantic error, whose every step is stated over a mathematical model of
//! the parser state.
pub mod error;
pub mod lexer;
pub mod grammar_spec;
pub mod grammar;
pub mod outcome;
pub mod laws;
