//! The abstract syntax tree of SQL: literals, data types, expressions,
//! queries and statements, with their SQL text.

pub mod expression;
pub mod function;
pub mod operator;
pub mod query;
pub mod statement;
pub mod table;

pub mod types;
pub mod view;
pub mod text;
pub mod valid;
pub mod write_expr;
pub mod write_query;
pub mod write_table;
