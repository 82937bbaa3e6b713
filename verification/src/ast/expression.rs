//! SQL expressions.
use vstd::prelude::*;

use crate::ast::function::Function;
use crate::ast::operator::{BinaryOperator, UnaryOperator};
use crate::ast::query::{OrderBy, Query};
use crate::ast::types::{DataType, DateTimeField, Ident, Literal, ObjectName};

verus! {

/// SQL expression.
#[derive(Debug, PartialEq, Eq)]
pub enum Expr {
    /// A literal value, such as string, number, date.
    Literal(Literal),
    /// A constant of form `<data_type> 'value'`.
    TypedString {
        /// The data type.
        data_type: DataType,
        /// The value.
        value: String,
    },
    /// Identifier, e.g. a table name or a column name.
    Identifier(Ident),
    /// Unqualified wildcard (`*`).
    Wildcard,
    /// Qualified wildcard, e.g. `alias.*` or `schema.table.*`.
    QualifiedWildcard(Vec<Ident>),
    /// Multi-part identifier, e.g. `table_alias.column` or `schema.table.col`.
    CompoundIdentifier(Vec<Ident>),
    /// Nested expression, e.g. `(foo > bar)` or `(1)`.
    Nested(Box<Expr>),
    /// `EXISTS (SELECT ...)`.
    Exists(Box<Query>),
    /// A parenthesized subquery `(SELECT ...)`.
    Subquery(Box<Query>),
    /// `IS [NOT] NULL` operator.
    IsNull(IsNullExpr),
    /// `IS [NOT] DISTINCT FROM` operator.
    IsDistinctFrom(IsDistinctFromExpr),
    /// Unary operation, e.g. `NOT foo`.
    UnaryOp(UnaryOpExpr),
    /// Binary operation, e.g. `1 + 1` or `foo > bar`.
    BinaryOp(BinaryOpExpr),
    /// `<expr> [ NOT ] IN (val1, val2, ...)`.
    InList(InListExpr),
    /// `<expr> [ NOT ] IN (SELECT ...)`.
    InSubquery(InSubqueryExpr),
    /// `<expr> [ NOT ] BETWEEN <low> AND <high>`.
    Between(BetweenExpr),
    /// `CASE [<operand>] WHEN <condition> THEN <result> ... [ELSE <result>] END`.
    Case(CaseExpr),
    /// `<expr> COLLATE collation`.
    Collate(CollateExpr),
    /// `CAST(foo AS type)` or `TRY_CAST(foo AS type)`.
    Cast(CastExpr),
    /// `EXTRACT(DateTimeField FROM <expr>)`.
    Extract(ExtractExpr),
    /// `SUBSTRING(<expr> [FROM <expr>] [FOR <expr>])`.
    Substring(SubstringExpr),
    /// `TRIM([BOTH | LEADING | TRAILING] <expr> [FROM <expr>])` or `TRIM(<expr>)`.
    Trim(TrimExpr),
    /// `LISTAGG(...)`.
    ListAgg(ListAggExpr),
    /// Scalar function call, e.g. `LEFT(foo, 5)`.
    Function(Function),
}

/// `<expr> IS [NOT] NULL`.
#[derive(Debug, PartialEq, Eq)]
pub struct IsNullExpr {
    /// Whether `NOT` is present.
    pub negated: bool,
    /// The operand.
    pub expr: Box<Expr>,
}

/// `<expr1> IS [NOT] DISTINCT FROM <expr2>`.
#[derive(Debug, PartialEq, Eq)]
pub struct IsDistinctFromExpr {
    /// Whether `NOT` is present.
    pub negated: bool,
    /// The left operand.
    pub left: Box<Expr>,
    /// The right operand.
    pub right: Box<Expr>,
}

/// Unary operation, e.g. `NOT foo`.
#[derive(Debug, PartialEq, Eq)]
pub struct UnaryOpExpr {
    /// The operator.
    pub op: UnaryOperator,
    /// The operand.
    pub expr: Box<Expr>,
}

/// Binary operation, e.g. `1 + 1` or `foo > bar`.
#[derive(Debug, PartialEq, Eq)]
pub struct BinaryOpExpr {
    /// The operator.
    pub op: BinaryOperator,
    /// The left operand.
    pub left: Box<Expr>,
    /// The right operand.
    pub right: Box<Expr>,
}

/// `<expr> [ NOT ] IN (val1, val2, ...)`.
#[derive(Debug, PartialEq, Eq)]
pub struct InListExpr {
    /// The operand.
    pub expr: Box<Expr>,
    /// Whether `NOT` is present.
    pub negated: bool,
    /// The list of values.
    pub list: Vec<Expr>,
}

/// `<expr> [ NOT ] IN (SELECT ...)`.
#[derive(Debug, PartialEq, Eq)]
pub struct InSubqueryExpr {
    /// The operand.
    pub expr: Box<Expr>,
    /// Whether `NOT` is present.
    pub negated: bool,
    /// The subquery.
    pub subquery: Box<Query>,
}

/// `<expr> [ NOT ] BETWEEN <low> AND <high>`.
#[derive(Debug, PartialEq, Eq)]
pub struct BetweenExpr {
    /// The operand.
    pub expr: Box<Expr>,
    /// Whether `NOT` is present.
    pub negated: bool,
    /// The lower bound.
    pub low: Box<Expr>,
    /// The upper bound.
    pub high: Box<Expr>,
}

/// `CASE [<operand>] WHEN <condition> THEN <result> ... [ELSE <result>] END`.
#[derive(Debug, PartialEq, Eq)]
pub struct CaseExpr {
    /// The operand of a simple `CASE`.
    pub operand: Option<Box<Expr>>,
    /// The conditions.
    pub conditions: Vec<Expr>,
    /// The results, one for each condition.
    pub results: Vec<Expr>,
    /// The `ELSE` result.
    pub else_result: Option<Box<Expr>>,
}

/// `<expr> COLLATE collation`.
#[derive(Debug, PartialEq, Eq)]
pub struct CollateExpr {
    /// The operand.
    pub expr: Box<Expr>,
    /// The collation.
    pub collation: ObjectName,
}

/// `CAST(foo AS type)` or `TRY_CAST(foo AS type)`.
#[derive(Debug, PartialEq, Eq)]
pub struct CastExpr {
    /// Whether this is a `TRY_CAST`.
    pub try_cast: bool,
    /// The operand.
    pub expr: Box<Expr>,
    /// The target data type.
    pub data_type: DataType,
}

/// `EXTRACT(DateTimeField FROM <expr>)`.
#[derive(Debug, PartialEq, Eq)]
pub struct ExtractExpr {
    /// The field to extract.
    pub field: DateTimeField,
    /// The operand.
    pub expr: Box<Expr>,
}

/// `SUBSTRING(<expr> [FROM <expr>] [FOR <expr>])`.
#[derive(Debug, PartialEq, Eq)]
pub struct SubstringExpr {
    /// The operand.
    pub expr: Box<Expr>,
    /// The start position.
    pub substring_from: Option<Box<Expr>>,
    /// The length.
    pub substring_for: Option<Box<Expr>>,
}

/// `TRIM([BOTH | LEADING | TRAILING] <expr> [FROM <expr>])` or `TRIM(<expr>)`.
#[derive(Debug, PartialEq, Eq)]
pub struct TrimExpr {
    /// The operand.
    pub expr: Box<Expr>,
    /// Where to trim and the characters to trim.
    pub trim_where: Option<(TrimWhereField, Box<Expr>)>,
}

/// `BOTH`, `LEADING` or `TRAILING`.
#[derive(Copy, Clone, Debug, PartialEq, Eq, Hash, Structural)]
pub enum TrimWhereField {
    /// `BOTH`
    Both,
    /// `LEADING`
    Leading,
    /// `TRAILING`
    Trailing,
}

/// `LISTAGG( [ DISTINCT ] <expr> [, <separator> ] [ON OVERFLOW <on_overflow>] )
/// [ WITHIN GROUP (ORDER BY <within_group1>[, ...] ) ]`.
#[derive(Debug, PartialEq, Eq)]
pub struct ListAggExpr {
    /// Whether `DISTINCT` is present.
    pub distinct: bool,
    /// The aggregated expression.
    pub expr: Box<Expr>,
    /// The separator.
    pub separator: Option<Box<Expr>>,
    /// The `ON OVERFLOW` clause.
    pub on_overflow: Option<ListAggOnOverflow>,
    /// The `WITHIN GROUP` ordering.
    pub within_group: Vec<OrderBy>,
}

/// The `ON OVERFLOW` clause of a `LISTAGG` invocation.
#[derive(Debug, PartialEq, Eq)]
pub enum ListAggOnOverflow {
    /// `ON OVERFLOW ERROR`
    Error,
    /// `ON OVERFLOW TRUNCATE [ <filler> ] WITH[OUT] COUNT`
    Truncate {
        /// The filler.
        filler: Option<Box<Expr>>,
        /// Whether `WITH COUNT` is present.
        with_count: bool,
    },
}

} // verus!
