//! A universal SQL lexer and parser.
use vstd::prelude::*;

pub mod ast;
pub mod config;
pub mod dialect;
pub mod error;
pub mod keyword;
pub mod keyword_table;
pub mod lexer;
pub mod next;
pub mod parser;
pub mod peek;
pub mod text;
pub mod token;

verus! {
} // verus!
