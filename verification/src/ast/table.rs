//! Query specifications and table expressions: `SELECT`, `FROM`, joins,
//! `WHERE`, `GROUP BY`, `HAVING` and `WINDOW`.
use vstd::prelude::*;

use crate::ast::expression::Expr;
use crate::ast::query::{OrderBy, Query, SetQuantifier};
use crate::ast::types::{Ident, ObjectName};

verus! {

/// `SELECT [ ALL | DISTINCT ] <select list> <from clause> [ <where clause> ]
/// [ <group by clause> ] [ <having clause> ] [ <window clause> ]`.
#[derive(Debug, PartialEq, Eq)]
pub struct QuerySpec {
    /// `ALL` or `DISTINCT`.
    pub quantifier: Option<SetQuantifier>,
    /// The select list.
    pub projection: Vec<SelectItem>,
    /// `FROM` clause.
    pub from: From,
    /// `WHERE` clause.
    pub where_clause: Option<Where>,
    /// `GROUP BY` clause.
    pub group_by: Option<GroupBy>,
    /// `HAVING` clause.
    pub having: Option<Having>,
    /// `WINDOW` clause.
    pub window: Option<Window>,
}

/// One item of the select list.
#[derive(Debug, PartialEq, Eq)]
pub enum SelectItem {
    /// An unqualified `*`.
    Wildcard,
    /// `alias.*` or `schema.table.*`.
    QualifiedWildcard(ObjectName),
    /// An expression, maybe followed by `AS alias`.
    DerivedColumn {
        /// The expression.
        expr: Box<Expr>,
        /// The alias.
        alias: Option<Ident>,
    },
}

/// `FROM <table reference> [ , ... ]`.
#[derive(Debug, PartialEq, Eq)]
pub struct From {
    /// The table references.
    pub list: Vec<TableReference>,
}

/// A table factor and the joins that follow it.
#[derive(Debug, PartialEq, Eq)]
pub struct TableReference {
    /// The table factor.
    pub relation: TableFactor,
    /// The joins.
    pub joins: Vec<Join>,
}

/// A table name or a parenthesized subquery, with an optional alias.
#[derive(Debug, PartialEq, Eq)]
pub enum TableFactor {
    /// A table or query name.
    Table {
        /// The name.
        name: ObjectName,
        /// The alias.
        alias: Option<TableAlias>,
    },
    /// A derived table.
    Derived {
        /// Whether `LATERAL` is present.
        lateral: bool,
        /// The subquery.
        subquery: Box<Query>,
        /// The alias.
        alias: Option<TableAlias>,
    },
    /// A parenthesized joined table.
    NestedJoin(Box<TableReference>),
}

/// `AS <alias name> [ ( <columns> ) ]`.
#[derive(Debug, PartialEq, Eq)]
pub struct TableAlias {
    /// The alias name.
    pub name: Ident,
    /// The column names.
    pub columns: Option<Vec<Ident>>,
}

/// A join with a table factor.
#[derive(Debug, PartialEq, Eq)]
pub struct Join {
    /// The join operator.
    pub join: JoinOperator,
    /// The joined table factor.
    pub relation: TableFactor,
}

/// The join operator.
#[derive(Debug, PartialEq, Eq)]
pub enum JoinOperator {
    /// `CROSS JOIN`
    CrossJoin,
    /// `[ INNER ] JOIN` with a join specification.
    InnerJoin(JoinSpec),
    /// `LEFT [ OUTER ] JOIN` with a join specification.
    LeftOuterJoin(JoinSpec),
    /// `RIGHT [ OUTER ] JOIN` with a join specification.
    RightOuterJoin(JoinSpec),
    /// `FULL [ OUTER ] JOIN` with a join specification.
    FullOuterJoin(JoinSpec),
    /// `NATURAL [ INNER ] JOIN`
    NaturalInnerJoin,
    /// `NATURAL LEFT [ OUTER ] JOIN`
    NaturalLeftOuterJoin,
    /// `NATURAL RIGHT [ OUTER ] JOIN`
    NaturalRightOuterJoin,
    /// `NATURAL FULL [ OUTER ] JOIN`
    NaturalFullOuterJoin,
}

/// `ON <search condition>` or `USING ( <column list> ) [ AS <name> ]`.
#[derive(Debug, PartialEq, Eq)]
pub enum JoinSpec {
    /// Join condition.
    On(Box<Expr>),
    /// Named columns join.
    Using {
        /// The columns.
        columns: Vec<Ident>,
        /// The correlation name.
        alias: Option<Ident>,
    },
}

/// `WHERE <search condition>`.
#[derive(Debug, PartialEq, Eq)]
pub struct Where {
    /// The search condition.
    pub expr: Box<Expr>,
}

/// `GROUP BY [ DISTINCT | ALL ] <grouping element> [ , ... ]`.
#[derive(Debug, PartialEq, Eq)]
pub struct GroupBy {
    /// `ALL` or `DISTINCT`.
    pub quantifier: Option<SetQuantifier>,
    /// The grouping elements.
    pub list: Vec<GroupingElement>,
}

/// A grouping element.
#[derive(Debug, PartialEq, Eq)]
pub enum GroupingElement {
    /// `( )`
    Empty,
    /// An ordinary grouping set.
    OrdinarySet(GroupingSet),
    /// `ROLLUP ( ... )`
    Rollup(Vec<GroupingSet>),
    /// `CUBE ( ... )`
    Cube(Vec<GroupingSet>),
    /// `GROUPING SETS ( ... )`
    Sets(Vec<GroupingElement>),
}

/// An ordinary grouping set: a column or a parenthesized list of columns.
#[derive(Debug, PartialEq, Eq)]
pub enum GroupingSet {
    /// A grouping column.
    Column(ObjectName),
    /// A list of grouping columns.
    Columns(Vec<ObjectName>),
}

/// `HAVING <search condition>`.
#[derive(Debug, PartialEq, Eq)]
pub struct Having {
    /// The search condition.
    pub expr: Box<Expr>,
}

/// `WINDOW <window definition> [ , ... ]`.
#[derive(Debug, PartialEq, Eq)]
pub struct Window {
    /// The window definitions.
    pub list: Vec<WindowDef>,
}

/// `<window name> AS <window specification>`.
#[derive(Debug, PartialEq, Eq)]
pub struct WindowDef {
    /// The window name.
    pub name: Ident,
    /// The window specification.
    pub spec: WindowSpec,
}

/// Window specification: `[ <existing window name> ] [ PARTITION BY ... ]
/// [ ORDER BY ... ] [ <window frame clause> ]`.
#[derive(Debug, PartialEq, Eq)]
pub struct WindowSpec {
    /// The existing window name.
    pub name: Option<Ident>,
    /// The partition columns.
    pub partition_by: Option<Vec<ObjectName>>,
    /// The window ordering.
    pub order_by: Option<OrderBy>,
    /// The window frame.
    pub window_frame: Option<WindowFrame>,
}

/// The frame of a window, e.g. `ROWS BETWEEN 5 PRECEDING AND CURRENT ROW`.
#[derive(Copy, Clone, Debug, PartialEq, Eq, Hash, Structural)]
pub struct WindowFrame {
    /// The frame units.
    pub units: WindowFrameUnits,
    /// The start bound.
    pub start_bound: WindowFrameBound,
    /// The end bound of `BETWEEN .. AND`; `None` for the short form.
    pub end_bound: Option<WindowFrameBound>,
    /// The exclusion.
    pub exclusion: Option<WindowFrameExclusion>,
}

/// The units of a window frame.
#[derive(Copy, Clone, Debug, PartialEq, Eq, Hash, Structural)]
pub enum WindowFrameUnits {
    /// `ROWS`
    Rows,
    /// `RANGE`
    Range,
    /// `GROUPS`
    Groups,
}

/// A bound of a window frame.
#[derive(Copy, Clone, Debug, PartialEq, Eq, Hash, Structural)]
pub enum WindowFrameBound {
    /// `CURRENT ROW`
    CurrentRow,
    /// `<N> PRECEDING` or `UNBOUNDED PRECEDING`.
    Preceding(Option<u64>),
    /// `<N> FOLLOWING` or `UNBOUNDED FOLLOWING`.
    Following(Option<u64>),
}

/// The exclusion of a window frame.
#[derive(Copy, Clone, Debug, PartialEq, Eq, Hash, Structural)]
pub enum WindowFrameExclusion {
    /// `EXCLUDE CURRENT ROW`
    CurrentRow,
    /// `EXCLUDE GROUP`
    Group,
    /// `EXCLUDE TIES`
    Ties,
    /// `EXCLUDE NO OTHERS`
    NoOthers,
}

} // verus!
