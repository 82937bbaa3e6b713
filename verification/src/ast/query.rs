//! Query expressions: `WITH`, set operations, `ORDER BY`, `LIMIT`, `OFFSET`
//! and `FETCH`.
use vstd::prelude::*;

use crate::ast::expression::Expr;
use crate::ast::table::QuerySpec;
use crate::ast::types::{Ident, Literal, ObjectName};

verus! {

/// A query expression: `[ <with clause> ] <query expression body>
/// [ <order by clause> ] [ <result offset clause> ] [ <fetch first clause> ]`.
#[derive(Debug, PartialEq, Eq)]
pub struct Query {
    /// `WITH` (common table expressions).
    pub with: Option<With>,
    /// `SELECT` or `UNION` / `EXCEPT` / `INTERSECT`.
    pub body: QueryBody,
    /// `ORDER BY`.
    pub order_by: Option<OrderBy>,
    /// `OFFSET <N> [ { ROW | ROWS } ]`.
    pub offset: Option<Offset>,
    /// `LIMIT <N>`.
    pub limit: Option<Limit>,
    /// `FETCH { FIRST | NEXT } <N> [ PERCENT ] { ROW | ROWS } { ONLY | WITH TIES }`.
    pub fetch: Option<Fetch>,
}

/// The body of a query expression.
#[derive(Debug, PartialEq, Eq)]
pub enum QueryBody {
    /// Query specification, like `SELECT ... FROM ... GROUP BY ...`.
    QuerySpec(Box<QuerySpec>),
    /// Parenthesized (non-with clause) subquery expression.
    Subquery(Box<Query>),
    /// Table value constructor.
    Values(Values),
    /// Explicit table.
    Table(ObjectName),
    /// `UNION` / `EXCEPT` / `INTERSECT` operation of two query bodies.
    Operation {
        /// The left operand.
        left: Box<QueryBody>,
        /// The operator.
        op: QueryBodyOperator,
        /// `ALL` or `DISTINCT`.
        quantifier: Option<SetQuantifier>,
        /// The right operand.
        right: Box<QueryBody>,
    },
}

/// The values list: `VALUES <row value expression> [ , ... ]`.
#[derive(Debug, PartialEq, Eq)]
pub struct Values {
    /// The rows.
    pub list: Vec<Vec<Expr>>,
}

/// The operators of a query expression body.
#[derive(Copy, Clone, Debug, PartialEq, Eq, Hash, Structural)]
pub enum QueryBodyOperator {
    /// `UNION`
    Union,
    /// `EXCEPT`
    Except,
    /// `INTERSECT`
    Intersect,
}

/// The set quantifier of a query body operator or a select list.
#[derive(Copy, Clone, Debug, PartialEq, Eq, Hash, Structural)]
pub enum SetQuantifier {
    /// `ALL`
    All,
    /// `DISTINCT`
    Distinct,
}

/// `WITH [ RECURSIVE ] <with list element> [ , ... ]`.
#[derive(Debug, PartialEq, Eq)]
pub struct With {
    /// Whether `RECURSIVE` is present.
    pub recursive: bool,
    /// Common table expressions.
    pub ctes: Vec<Cte>,
}

/// A common table expression: `name [ ( col, ... ) ] AS ( query )`.
#[derive(Debug, PartialEq, Eq)]
pub struct Cte {
    /// The query name.
    pub name: Ident,
    /// The column names.
    pub columns: Option<Vec<Ident>>,
    /// The query.
    pub query: Box<Query>,
}

/// `ORDER BY <sort specification> [ , ... ]`.
#[derive(Debug, PartialEq, Eq)]
pub struct OrderBy {
    /// The sort specifications.
    pub list: Vec<SortSpec>,
}

/// `<sort key> [ ASC | DESC ] [ NULLS FIRST | NULLS LAST ]`.
#[derive(Debug, PartialEq, Eq)]
pub struct SortSpec {
    /// The sort key.
    pub expr: Box<Expr>,
    /// `Some(true)` for `ASC`, `Some(false)` for `DESC`.
    pub asc: Option<bool>,
    /// `Some(true)` for `NULLS FIRST`, `Some(false)` for `NULLS LAST`.
    pub nulls_first: Option<bool>,
}

/// `LIMIT <count>`.
#[derive(Debug, PartialEq, Eq)]
pub struct Limit {
    /// The row count.
    pub count: Literal,
}

/// `OFFSET <count> [ ROW | ROWS ]`.
#[derive(Debug, PartialEq, Eq)]
pub struct Offset {
    /// The row count.
    pub count: Literal,
    /// The keyword after the count.
    pub rows: OffsetRows,
}

/// The keyword after `OFFSET <number>`.
#[derive(Copy, Clone, Debug, PartialEq, Eq, Hash, Structural)]
pub enum OffsetRows {
    /// `ROW`
    Row,
    /// `ROWS`
    Rows,
    /// Nothing (a MySQL extension).
    Omitted,
}

/// `FETCH { FIRST | NEXT } [ <quantity> [ PERCENT ] ] { ROW | ROWS } { ONLY | WITH TIES }`.
#[derive(Debug, PartialEq, Eq)]
pub struct Fetch {
    /// The quantity.
    pub quantity: Option<Literal>,
    /// Whether the quantity is a percentage.
    pub percent: bool,
    /// Whether `WITH TIES` is present.
    pub with_ties: bool,
}

} // verus!
