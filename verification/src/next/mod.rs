//! A span-tracking lexer that skips whitespace and comments and produces
//! words, punctuation characters and literals.

pub mod error;
pub mod lexer;
pub mod span;
pub mod token;
