//! The abstract values of expressions and queries: the same trees, with
//! character sequences for strings and sequences for lists.
use vstd::prelude::*;
use vstd::pervasive::arbitrary;

use crate::ast::expression::{
    BetweenExpr, BinaryOpExpr, CaseExpr, CastExpr, CollateExpr, Expr, ExtractExpr, InListExpr,
    InSubqueryExpr, IsDistinctFromExpr, IsNullExpr, ListAggExpr, ListAggOnOverflow, SubstringExpr,
    TrimExpr, TrimWhereField, UnaryOpExpr,
};
use crate::ast::function::{Function, FunctionArg};
use crate::ast::operator::{BinaryOperator, UnaryOperator};
use crate::ast::query::{
    Cte, OffsetRows, OrderBy, Query, QueryBody, QueryBodyOperator, SetQuantifier, SortSpec, Values,
    With,
};
use crate::ast::table::{
    GroupingElement, GroupingSet, Join, JoinOperator, JoinSpec, QuerySpec, SelectItem,
    TableAlias, TableFactor, TableReference, WindowDef, WindowFrame, WindowSpec,
};
use crate::ast::types::{
    idents_view, object_names_view, DataType, DateTimeField, Ident, IdentView, Literal, LiteralView,
    ObjectName,
};

verus! {

broadcast use vstd::std_specs::vec::axiom_vec_index_decreases;

/// The abstract value of an expression.
pub enum ExprV {
    /// A literal.
    Literal(LiteralView),
    /// `<data_type> 'value'`.
    TypedString { data_type: DataType, value: Seq<char> },
    /// An identifier.
    Identifier(IdentView),
    /// `*`
    Wildcard,
    /// `a.b.*`
    QualifiedWildcard(Seq<IdentView>),
    /// `a.b.c`
    CompoundIdentifier(Seq<IdentView>),
    /// `( expr )`
    Nested(Box<ExprV>),
    /// `EXISTS ( query )`
    Exists(Box<QueryV>),
    /// `( query )`
    Subquery(Box<QueryV>),
    /// `expr IS [NOT] NULL`
    IsNull { negated: bool, expr: Box<ExprV> },
    /// `left IS [NOT] DISTINCT FROM right`
    IsDistinctFrom { negated: bool, left: Box<ExprV>, right: Box<ExprV> },
    /// `op expr`
    UnaryOp { op: UnaryOperator, expr: Box<ExprV> },
    /// `left op right`
    BinaryOp { op: BinaryOperator, left: Box<ExprV>, right: Box<ExprV> },
    /// `expr [NOT] IN ( list )`
    InList { expr: Box<ExprV>, negated: bool, list: Seq<ExprV> },
    /// `expr [NOT] IN ( query )`
    InSubquery { expr: Box<ExprV>, negated: bool, subquery: Box<QueryV> },
    /// `expr [NOT] BETWEEN low AND high`
    Between { expr: Box<ExprV>, negated: bool, low: Box<ExprV>, high: Box<ExprV> },
    /// `CASE [operand] WHEN .. THEN .. [ELSE ..] END`, with the condition and
    /// result pairs.
    Case { operand: Option<Box<ExprV>>, whens: Seq<(ExprV, ExprV)>, else_result: Option<Box<ExprV>> },
    /// `expr COLLATE collation`
    Collate { expr: Box<ExprV>, collation: Seq<IdentView> },
    /// `[TRY_]CAST(expr AS data_type)`
    Cast { try_cast: bool, expr: Box<ExprV>, data_type: DataType },
    /// `EXTRACT(field FROM expr)`
    Extract { field: DateTimeField, expr: Box<ExprV> },
    /// `SUBSTRING(expr [FROM ..] [FOR ..])`
    Substring { expr: Box<ExprV>, substring_from: Option<Box<ExprV>>, substring_for: Option<Box<ExprV>> },
    /// `TRIM(..)`
    Trim { expr: Box<ExprV>, trim_where: Option<(TrimWhereField, Box<ExprV>)> },
    /// `LISTAGG(..)`
    ListAgg {
        distinct: bool,
        expr: Box<ExprV>,
        separator: Option<Box<ExprV>>,
        on_overflow: Option<OnOverflowV>,
        within_group: Seq<Seq<SortSpecV>>,
    },
    /// A function call.
    Function(FunctionV),
}

/// The abstract value of a `LISTAGG` overflow clause.
pub enum OnOverflowV {
    /// `ON OVERFLOW ERROR`
    Error,
    /// `ON OVERFLOW TRUNCATE [filler] WITH[OUT] COUNT`
    Truncate { filler: Option<Box<ExprV>>, with_count: bool },
}

/// The abstract value of a function call.
pub struct FunctionV {
    /// `DISTINCT`
    pub distinct: bool,
    /// The name.
    pub name: Seq<IdentView>,
    /// The arguments.
    pub args: Seq<FunctionArgV>,
    /// The window.
    pub over: Option<WindowSpecV>,
}

/// The abstract value of a function argument.
pub enum FunctionArgV {
    /// `name => arg`
    Named { name: IdentView, arg: ExprV },
    /// `arg`
    Unnamed(ExprV),
}

/// The abstract value of a sort specification.
pub struct SortSpecV {
    /// The sort key.
    pub expr: ExprV,
    /// `ASC` / `DESC`.
    pub asc: Option<bool>,
    /// `NULLS FIRST` / `NULLS LAST`.
    pub nulls_first: Option<bool>,
}

/// The abstract value of a window specification.
pub struct WindowSpecV {
    /// The existing window name.
    pub name: Option<IdentView>,
    /// The partition columns.
    pub partition_by: Option<Seq<Seq<IdentView>>>,
    /// The ordering.
    pub order_by: Option<Seq<SortSpecV>>,
    /// The frame.
    pub window_frame: Option<WindowFrame>,
}

/// The abstract value of a query.
pub struct QueryV {
    /// `WITH`
    pub with: Option<WithV>,
    /// The body.
    pub body: QueryBodyV,
    /// `ORDER BY`
    pub order_by: Option<Seq<SortSpecV>>,
    /// `OFFSET count rows`
    pub offset: Option<(LiteralView, OffsetRows)>,
    /// `LIMIT count`
    pub limit: Option<LiteralView>,
    /// `FETCH`: quantity, percent, with ties.
    pub fetch: Option<(Option<LiteralView>, bool, bool)>,
}

/// The abstract value of a `WITH` clause.
pub struct WithV {
    /// `RECURSIVE`
    pub recursive: bool,
    /// The common table expressions.
    pub ctes: Seq<CteV>,
}

/// The abstract value of a common table expression.
pub struct CteV {
    /// The name.
    pub name: IdentView,
    /// The columns.
    pub columns: Option<Seq<IdentView>>,
    /// The query.
    pub query: Box<QueryV>,
}

/// The abstract value of a query body.
pub enum QueryBodyV {
    /// A query specification.
    QuerySpec(Box<QuerySpecV>),
    /// A parenthesized subquery.
    Subquery(Box<QueryV>),
    /// `VALUES` rows.
    Values(Seq<Seq<ExprV>>),
    /// `TABLE name`
    Table(Seq<IdentView>),
    /// A set operation.
    Operation {
        left: Box<QueryBodyV>,
        op: QueryBodyOperator,
        quantifier: Option<SetQuantifier>,
        right: Box<QueryBodyV>,
    },
}

/// The abstract value of a query specification.
pub struct QuerySpecV {
    /// `ALL` / `DISTINCT`
    pub quantifier: Option<SetQuantifier>,
    /// The select list.
    pub projection: Seq<SelectItemV>,
    /// The `FROM` list.
    pub from: Seq<TableReferenceV>,
    /// The `WHERE` condition.
    pub where_clause: Option<ExprV>,
    /// `GROUP BY`: quantifier and grouping elements.
    pub group_by: Option<(Option<SetQuantifier>, Seq<GroupingElementV>)>,
    /// The `HAVING` condition.
    pub having: Option<ExprV>,
    /// The `WINDOW` definitions.
    pub window: Option<Seq<WindowDefV>>,
}

/// The abstract value of a select item.
pub enum SelectItemV {
    /// `*`
    Wildcard,
    /// `name.*`
    QualifiedWildcard(Seq<IdentView>),
    /// `expr [AS alias]`
    DerivedColumn { expr: Box<ExprV>, alias: Option<IdentView> },
}

/// The abstract value of a table reference.
pub struct TableReferenceV {
    /// The table factor.
    pub relation: TableFactorV,
    /// The joins.
    pub joins: Seq<JoinV>,
}

/// The abstract value of a table alias.
pub struct TableAliasV {
    /// The name.
    pub name: IdentView,
    /// The columns.
    pub columns: Option<Seq<IdentView>>,
}

/// The abstract value of a table factor.
pub enum TableFactorV {
    /// A named table.
    Table { name: Seq<IdentView>, alias: Option<TableAliasV> },
    /// A derived table.
    Derived { lateral: bool, subquery: Box<QueryV>, alias: Option<TableAliasV> },
    /// A parenthesized joined table.
    NestedJoin(Box<TableReferenceV>),
}

/// The abstract value of a join.
pub struct JoinV {
    /// The operator.
    pub join: JoinOperatorV,
    /// The joined table factor.
    pub relation: TableFactorV,
}

/// The abstract value of a join operator.
pub enum JoinOperatorV {
    CrossJoin,
    InnerJoin(JoinSpecV),
    LeftOuterJoin(JoinSpecV),
    RightOuterJoin(JoinSpecV),
    FullOuterJoin(JoinSpecV),
    NaturalInnerJoin,
    NaturalLeftOuterJoin,
    NaturalRightOuterJoin,
    NaturalFullOuterJoin,
}

/// The abstract value of a join specification.
pub enum JoinSpecV {
    /// `ON expr`
    On(Box<ExprV>),
    /// `USING (columns) [AS alias]`
    Using { columns: Seq<IdentView>, alias: Option<IdentView> },
}

/// The abstract value of a grouping set.
pub enum GroupingSetV {
    /// A column.
    Column(Seq<IdentView>),
    /// A list of columns.
    Columns(Seq<Seq<IdentView>>),
}

/// The abstract value of a grouping element.
pub enum GroupingElementV {
    Empty,
    OrdinarySet(GroupingSetV),
    Rollup(Seq<GroupingSetV>),
    Cube(Seq<GroupingSetV>),
    Sets(Seq<GroupingElementV>),
}

/// The abstract value of a window definition.
pub struct WindowDefV {
    /// The name.
    pub name: IdentView,
    /// The specification.
    pub spec: WindowSpecV,
}

// ============================================================================
// Grouping (not part of the expression recursion)
// ============================================================================

/// The abstract value of a grouping set.
pub open spec fn grouping_set_v(g: GroupingSet) -> GroupingSetV {
    match g {
        GroupingSet::Column(n) => GroupingSetV::Column(n@),
        GroupingSet::Columns(ns) => GroupingSetV::Columns(object_names_view(ns@)),
    }
}

/// The abstract values of a sequence of grouping sets.
pub open spec fn grouping_sets_v(s: Seq<GroupingSet>) -> Seq<GroupingSetV> {
    s.map_values(|g: GroupingSet| grouping_set_v(g))
}

/// The abstract value of a grouping element.
pub open spec fn grouping_element_v(g: GroupingElement) -> GroupingElementV
    decreases g,
{
    match g {
        GroupingElement::Empty => GroupingElementV::Empty,
        GroupingElement::OrdinarySet(s) => GroupingElementV::OrdinarySet(grouping_set_v(s)),
        GroupingElement::Rollup(l) => GroupingElementV::Rollup(grouping_sets_v(l@)),
        GroupingElement::Cube(l) => GroupingElementV::Cube(grouping_sets_v(l@)),
        GroupingElement::Sets(l) => GroupingElementV::Sets(grouping_elements_v(l@)),
    }
}


/// The abstract values of a sequence of grouping elements.
pub open spec fn grouping_elements_v(s: Seq<GroupingElement>) -> Seq<GroupingElementV>
    decreases s,
{
    Seq::new(s.len(), |i: int| if 0 <= i < s.len() {
        grouping_element_v(s[i])
    } else {
        arbitrary()
    })
}

/// The abstract value of a table alias.
pub open spec fn table_alias_v(a: TableAlias) -> TableAliasV {
    TableAliasV {
        name: a.name@,
        columns: match a.columns {
            Some(c) => Some(idents_view(c@)),
            None => None,
        },
    }
}

/// The abstract value of an optional table alias.
pub open spec fn opt_table_alias_v(a: Option<TableAlias>) -> Option<TableAliasV> {
    match a {
        Some(a) => Some(table_alias_v(a)),
        None => None,
    }
}

/// The abstract value of an optional identifier.
pub open spec fn opt_ident_v(i: Option<crate::ast::types::Ident>) -> Option<IdentView> {
    match i {
        Some(i) => Some(i@),
        None => None,
    }
}

// ============================================================================
// Expressions and queries
// ============================================================================

/// The abstract value of an optional boxed expression.
pub open spec fn opt_expr_v(e: Option<Box<Expr>>) -> Option<Box<ExprV>>
    decreases e,
{
    match e {
        Some(x) => Some(Box::new(expr_v(*x))),
        None => None,
    }
}

/// The abstract value of an expression.
#[verifier::opaque]
pub open spec fn expr_v(e: Expr) -> ExprV
    decreases e,
{
    match e {
        Expr::Literal(l) => ExprV::Literal(l@),
        Expr::TypedString { data_type, value } => ExprV::TypedString { data_type, value: value@ },
        Expr::Identifier(i) => ExprV::Identifier(i@),
        Expr::Wildcard => ExprV::Wildcard,
        Expr::QualifiedWildcard(ids) => ExprV::QualifiedWildcard(idents_view(ids@)),
        Expr::CompoundIdentifier(ids) => ExprV::CompoundIdentifier(idents_view(ids@)),
        Expr::Nested(x) => ExprV::Nested(Box::new(expr_v(*x))),
        Expr::Exists(q) => ExprV::Exists(Box::new(query_v(*q))),
        Expr::Subquery(q) => ExprV::Subquery(Box::new(query_v(*q))),
        Expr::IsNull(x) => ExprV::IsNull { negated: x.negated, expr: Box::new(expr_v(*x.expr)) },
        Expr::IsDistinctFrom(x) => ExprV::IsDistinctFrom {
            negated: x.negated,
            left: Box::new(expr_v(*x.left)),
            right: Box::new(expr_v(*x.right)),
        },
        Expr::UnaryOp(x) => ExprV::UnaryOp { op: x.op, expr: Box::new(expr_v(*x.expr)) },
        Expr::BinaryOp(x) => ExprV::BinaryOp {
            op: x.op,
            left: Box::new(expr_v(*x.left)),
            right: Box::new(expr_v(*x.right)),
        },
        Expr::InList(x) => ExprV::InList {
            expr: Box::new(expr_v(*x.expr)),
            negated: x.negated,
            list: exprs_v(x.list@),
        },
        Expr::InSubquery(x) => ExprV::InSubquery {
            expr: Box::new(expr_v(*x.expr)),
            negated: x.negated,
            subquery: Box::new(query_v(*x.subquery)),
        },
        Expr::Between(x) => ExprV::Between {
            expr: Box::new(expr_v(*x.expr)),
            negated: x.negated,
            low: Box::new(expr_v(*x.low)),
            high: Box::new(expr_v(*x.high)),
        },
        Expr::Case(x) => ExprV::Case {
            operand: opt_expr_v(x.operand),
            whens: case_whens_v(x),
            else_result: opt_expr_v(x.else_result),
        },
        Expr::Collate(x) => ExprV::Collate { expr: Box::new(expr_v(*x.expr)), collation: x.collation@ },
        Expr::Cast(x) => ExprV::Cast {
            try_cast: x.try_cast,
            expr: Box::new(expr_v(*x.expr)),
            data_type: x.data_type,
        },
        Expr::Extract(x) => ExprV::Extract { field: x.field, expr: Box::new(expr_v(*x.expr)) },
        Expr::Substring(x) => ExprV::Substring {
            expr: Box::new(expr_v(*x.expr)),
            substring_from: opt_expr_v(x.substring_from),
            substring_for: opt_expr_v(x.substring_for),
        },
        Expr::Trim(x) => ExprV::Trim {
            expr: Box::new(expr_v(*x.expr)),
            trim_where: match x.trim_where {
                Some((w, c)) => Some((w, Box::new(expr_v(*c)))),
                None => None,
            },
        },
        Expr::ListAgg(x) => ExprV::ListAgg {
            distinct: x.distinct,
            expr: Box::new(expr_v(*x.expr)),
            separator: opt_expr_v(x.separator),
            on_overflow: match x.on_overflow {
                Some(o) => Some(on_overflow_v(o)),
                None => None,
            },
            within_group: order_bys_v(x.within_group@),
        },
        Expr::Function(f) => ExprV::Function(function_v(f)),
    }
}

/// An expression is a wildcard, or a qualified wildcard, exactly when its
/// abstract value is.
pub proof fn lemma_expr_v_wildcards(e: Expr)
    ensures
        expr_v(e) is Wildcard <==> e is Wildcard,
        expr_v(e) is QualifiedWildcard <==> e is QualifiedWildcard,
        e matches Expr::QualifiedWildcard(ids) ==> expr_v(e) == ExprV::QualifiedWildcard(
            idents_view(ids@),
        ),
{
    reveal(expr_v);
}

/// The abstract value of `Expr::Literal(l)`.
pub broadcast proof fn lemma_expr_v_literal(l: Literal)
    ensures
        #[trigger] expr_v(Expr::Literal(l)) == (ExprV::Literal(l@)),
{
    reveal(expr_v);
}

/// The abstract value of `Expr::TypedString { data_type, value }`.
pub broadcast proof fn lemma_expr_v_typed_string(data_type: DataType, value: String)
    ensures
        #[trigger] expr_v(Expr::TypedString { data_type, value }) == (ExprV::TypedString { data_type, value: value@ }),
{
    reveal(expr_v);
}

/// The abstract value of `Expr::Identifier(i)`.
pub broadcast proof fn lemma_expr_v_identifier(i: Ident)
    ensures
        #[trigger] expr_v(Expr::Identifier(i)) == (ExprV::Identifier(i@)),
{
    reveal(expr_v);
}

/// The abstract value of `Expr::Wildcard`.
pub broadcast proof fn lemma_expr_v_wildcard()
    ensures
        #[trigger] expr_v(Expr::Wildcard) == (ExprV::Wildcard),
{
    reveal(expr_v);
}

/// The abstract value of `Expr::QualifiedWildcard(ids)`.
pub broadcast proof fn lemma_expr_v_qualified_wildcard(ids: Vec<Ident>)
    ensures
        #[trigger] expr_v(Expr::QualifiedWildcard(ids)) == (ExprV::QualifiedWildcard(idents_view(ids@))),
{
    reveal(expr_v);
}

/// The abstract value of `Expr::CompoundIdentifier(ids)`.
pub broadcast proof fn lemma_expr_v_compound_identifier(ids: Vec<Ident>)
    ensures
        #[trigger] expr_v(Expr::CompoundIdentifier(ids)) == (ExprV::CompoundIdentifier(idents_view(ids@))),
{
    reveal(expr_v);
}

/// The abstract value of `Expr::Nested(x)`.
pub broadcast proof fn lemma_expr_v_nested(x: Box<Expr>)
    ensures
        #[trigger] expr_v(Expr::Nested(x)) == (ExprV::Nested(Box::new(expr_v(*x)))),
{
    reveal(expr_v);
}

/// The abstract value of `Expr::Exists(q)`.
pub broadcast proof fn lemma_expr_v_exists(q: Box<Query>)
    ensures
        #[trigger] expr_v(Expr::Exists(q)) == (ExprV::Exists(Box::new(query_v(*q)))),
{
    reveal(expr_v);
}

/// The abstract value of `Expr::Subquery(q)`.
pub broadcast proof fn lemma_expr_v_subquery(q: Box<Query>)
    ensures
        #[trigger] expr_v(Expr::Subquery(q)) == (ExprV::Subquery(Box::new(query_v(*q)))),
{
    reveal(expr_v);
}

/// The abstract value of `Expr::IsNull(x)`.
pub broadcast proof fn lemma_expr_v_is_null(x: IsNullExpr)
    ensures
        #[trigger] expr_v(Expr::IsNull(x)) == (ExprV::IsNull { negated: x.negated, expr: Box::new(expr_v(*x.expr)) }),
{
    reveal(expr_v);
}

/// The abstract value of `Expr::IsDistinctFrom(x)`.
pub broadcast proof fn lemma_expr_v_is_distinct_from(x: IsDistinctFromExpr)
    ensures
        #[trigger] expr_v(Expr::IsDistinctFrom(x)) == (ExprV::IsDistinctFrom {
            negated: x.negated,
            left: Box::new(expr_v(*x.left)),
            right: Box::new(expr_v(*x.right)),
        }),
{
    reveal(expr_v);
}

/// The abstract value of `Expr::UnaryOp(x)`.
pub broadcast proof fn lemma_expr_v_unary_op(x: UnaryOpExpr)
    ensures
        #[trigger] expr_v(Expr::UnaryOp(x)) == (ExprV::UnaryOp { op: x.op, expr: Box::new(expr_v(*x.expr)) }),
{
    reveal(expr_v);
}

/// The abstract value of `Expr::BinaryOp(x)`.
pub broadcast proof fn lemma_expr_v_binary_op(x: BinaryOpExpr)
    ensures
        #[trigger] expr_v(Expr::BinaryOp(x)) == (ExprV::BinaryOp {
            op: x.op,
            left: Box::new(expr_v(*x.left)),
            right: Box::new(expr_v(*x.right)),
        }),
{
    reveal(expr_v);
}

/// The abstract value of `Expr::InList(x)`.
pub broadcast proof fn lemma_expr_v_in_list(x: InListExpr)
    ensures
        #[trigger] expr_v(Expr::InList(x)) == (ExprV::InList {
            expr: Box::new(expr_v(*x.expr)),
            negated: x.negated,
            list: exprs_v(x.list@),
        }),
{
    reveal(expr_v);
}

/// The abstract value of `Expr::InSubquery(x)`.
pub broadcast proof fn lemma_expr_v_in_subquery(x: InSubqueryExpr)
    ensures
        #[trigger] expr_v(Expr::InSubquery(x)) == (ExprV::InSubquery {
            expr: Box::new(expr_v(*x.expr)),
            negated: x.negated,
            subquery: Box::new(query_v(*x.subquery)),
        }),
{
    reveal(expr_v);
}

/// The abstract value of `Expr::Between(x)`.
pub broadcast proof fn lemma_expr_v_between(x: BetweenExpr)
    ensures
        #[trigger] expr_v(Expr::Between(x)) == (ExprV::Between {
            expr: Box::new(expr_v(*x.expr)),
            negated: x.negated,
            low: Box::new(expr_v(*x.low)),
            high: Box::new(expr_v(*x.high)),
        }),
{
    reveal(expr_v);
}

/// The abstract value of `Expr::Case(x)`.
pub broadcast proof fn lemma_expr_v_case(x: CaseExpr)
    ensures
        #[trigger] expr_v(Expr::Case(x)) == (ExprV::Case {
            operand: opt_expr_v(x.operand),
            whens: case_whens_v(x),
            else_result: opt_expr_v(x.else_result),
        }),
{
    reveal(expr_v);
}

/// The abstract value of `Expr::Collate(x)`.
pub broadcast proof fn lemma_expr_v_collate(x: CollateExpr)
    ensures
        #[trigger] expr_v(Expr::Collate(x)) == (ExprV::Collate { expr: Box::new(expr_v(*x.expr)), collation: x.collation@ }),
{
    reveal(expr_v);
}

/// The abstract value of `Expr::Cast(x)`.
pub broadcast proof fn lemma_expr_v_cast(x: CastExpr)
    ensures
        #[trigger] expr_v(Expr::Cast(x)) == (ExprV::Cast {
            try_cast: x.try_cast,
            expr: Box::new(expr_v(*x.expr)),
            data_type: x.data_type,
        }),
{
    reveal(expr_v);
}

/// The abstract value of `Expr::Extract(x)`.
pub broadcast proof fn lemma_expr_v_extract(x: ExtractExpr)
    ensures
        #[trigger] expr_v(Expr::Extract(x)) == (ExprV::Extract { field: x.field, expr: Box::new(expr_v(*x.expr)) }),
{
    reveal(expr_v);
}

/// The abstract value of `Expr::Substring(x)`.
pub broadcast proof fn lemma_expr_v_substring(x: SubstringExpr)
    ensures
        #[trigger] expr_v(Expr::Substring(x)) == (ExprV::Substring {
            expr: Box::new(expr_v(*x.expr)),
            substring_from: opt_expr_v(x.substring_from),
            substring_for: opt_expr_v(x.substring_for),
        }),
{
    reveal(expr_v);
}

/// The abstract value of `Expr::Trim(x)`.
pub broadcast proof fn lemma_expr_v_trim(x: TrimExpr)
    ensures
        #[trigger] expr_v(Expr::Trim(x)) == (ExprV::Trim {
            expr: Box::new(expr_v(*x.expr)),
            trim_where: match x.trim_where {
                Some((w, c)) => Some((w, Box::new(expr_v(*c)))),
                None => None,
            },
        }),
{
    reveal(expr_v);
}

/// The abstract value of `Expr::ListAgg(x)`.
pub broadcast proof fn lemma_expr_v_list_agg(x: ListAggExpr)
    ensures
        #[trigger] expr_v(Expr::ListAgg(x)) == (ExprV::ListAgg {
            distinct: x.distinct,
            expr: Box::new(expr_v(*x.expr)),
            separator: opt_expr_v(x.separator),
            on_overflow: match x.on_overflow {
                Some(o) => Some(on_overflow_v(o)),
                None => None,
            },
            within_group: order_bys_v(x.within_group@),
        }),
{
    reveal(expr_v);
}

/// The abstract value of `Expr::Function(f)`.
pub broadcast proof fn lemma_expr_v_function(f: Function)
    ensures
        #[trigger] expr_v(Expr::Function(f)) == (ExprV::Function(function_v(f))),
{
    reveal(expr_v);
}

/// The abstract value of each kind of expression.
pub broadcast group group_expr_v {
    lemma_expr_v_literal,
    lemma_expr_v_typed_string,
    lemma_expr_v_identifier,
    lemma_expr_v_wildcard,
    lemma_expr_v_qualified_wildcard,
    lemma_expr_v_compound_identifier,
    lemma_expr_v_nested,
    lemma_expr_v_exists,
    lemma_expr_v_subquery,
    lemma_expr_v_is_null,
    lemma_expr_v_is_distinct_from,
    lemma_expr_v_unary_op,
    lemma_expr_v_binary_op,
    lemma_expr_v_in_list,
    lemma_expr_v_in_subquery,
    lemma_expr_v_between,
    lemma_expr_v_case,
    lemma_expr_v_collate,
    lemma_expr_v_cast,
    lemma_expr_v_extract,
    lemma_expr_v_substring,
    lemma_expr_v_trim,
    lemma_expr_v_list_agg,
    lemma_expr_v_function,
}

/// The abstract values of a sequence of expressions.
pub open spec fn exprs_v(s: Seq<Expr>) -> Seq<ExprV>
    decreases s,
{
    Seq::new(s.len(), |i: int| if 0 <= i < s.len() {
        expr_v(s[i])
    } else {
        arbitrary()
    })
}

/// The condition and result pairs of a `CASE` expression (as many as the
/// shorter of the two lists has).
pub open spec fn case_whens_v(x: CaseExpr) -> Seq<(ExprV, ExprV)>
    decreases x,
{
    let n = if x.conditions@.len() <= x.results@.len() {
        x.conditions@.len()
    } else {
        x.results@.len()
    };
    Seq::new(n, |i: int| if 0 <= i < n && n <= x.conditions@.len() && n <= x.results@.len() {
        (expr_v(x.conditions@[i]), expr_v(x.results@[i]))
    } else {
        arbitrary()
    })
}

/// The abstract value of a `LISTAGG` overflow clause.
pub open spec fn on_overflow_v(o: ListAggOnOverflow) -> OnOverflowV
    decreases o,
{
    match o {
        ListAggOnOverflow::Error => OnOverflowV::Error,
        ListAggOnOverflow::Truncate { filler, with_count } => OnOverflowV::Truncate {
            filler: opt_expr_v(filler),
            with_count,
        },
    }
}

/// The abstract value of an `ORDER BY` clause: its sort specifications.
pub open spec fn order_by_v(o: OrderBy) -> Seq<SortSpecV>
    decreases o,
{
    sort_specs_v(o.list@)
}

/// The abstract values of a sequence of `ORDER BY` clauses.
pub open spec fn order_bys_v(s: Seq<OrderBy>) -> Seq<Seq<SortSpecV>>
    decreases s,
{
    Seq::new(s.len(), |i: int| if 0 <= i < s.len() {
        order_by_v(s[i])
    } else {
        arbitrary()
    })
}

/// The abstract value of an optional `ORDER BY` clause.
pub open spec fn opt_order_by_v(o: Option<OrderBy>) -> Option<Seq<SortSpecV>>
    decreases o,
{
    match o {
        Some(o) => Some(order_by_v(o)),
        None => None,
    }
}

/// The abstract value of a sort specification.
pub open spec fn sort_spec_v(s: SortSpec) -> SortSpecV
    decreases s,
{
    SortSpecV { expr: expr_v(*s.expr), asc: s.asc, nulls_first: s.nulls_first }
}

/// The abstract values of a sequence of sort specifications.
pub open spec fn sort_specs_v(s: Seq<SortSpec>) -> Seq<SortSpecV>
    decreases s,
{
    Seq::new(s.len(), |i: int| if 0 <= i < s.len() {
        sort_spec_v(s[i])
    } else {
        arbitrary()
    })
}

/// The abstract value of a function call.
pub open spec fn function_v(f: Function) -> FunctionV
    decreases f,
{
    FunctionV {
        distinct: f.distinct,
        name: f.name@,
        args: function_args_v(f.args@),
        over: match f.over {
            Some(w) => Some(window_spec_v(w)),
            None => None,
        },
    }
}

/// The abstract values of a sequence of function arguments.
pub open spec fn function_args_v(s: Seq<FunctionArg>) -> Seq<FunctionArgV>
    decreases s,
{
    Seq::new(s.len(), |i: int| if 0 <= i < s.len() {
        function_arg_v(s[i])
    } else {
        arbitrary()
    })
}

/// The abstract value of a function argument.
pub open spec fn function_arg_v(a: FunctionArg) -> FunctionArgV
    decreases a,
{
    match a {
        FunctionArg::Named { name, arg } => FunctionArgV::Named { name: name@, arg: expr_v(arg) },
        FunctionArg::Unnamed(arg) => FunctionArgV::Unnamed(expr_v(arg)),
    }
}


/// The abstract value of a window specification.
pub open spec fn window_spec_v(w: WindowSpec) -> WindowSpecV
    decreases w,
{
    WindowSpecV {
        name: opt_ident_v(w.name),
        partition_by: match w.partition_by {
            Some(p) => Some(object_names_view(p@)),
            None => None,
        },
        order_by: opt_order_by_v(w.order_by),
        window_frame: w.window_frame,
    }
}

/// The abstract value of a window definition.
pub open spec fn window_def_v(w: WindowDef) -> WindowDefV
    decreases w,
{
    WindowDefV { name: w.name@, spec: window_spec_v(w.spec) }
}

/// The abstract values of a sequence of window definitions.
pub open spec fn window_defs_v(s: Seq<WindowDef>) -> Seq<WindowDefV>
    decreases s,
{
    Seq::new(s.len(), |i: int| if 0 <= i < s.len() {
        window_def_v(s[i])
    } else {
        arbitrary()
    })
}

/// The abstract value of a query.
pub open spec fn query_v(q: Query) -> QueryV
    decreases q,
{
    QueryV {
        with: match q.with {
            Some(w) => Some(with_v(w)),
            None => None,
        },
        body: query_body_v(q.body),
        order_by: opt_order_by_v(q.order_by),
        offset: match q.offset {
            Some(o) => Some((o.count@, o.rows)),
            None => None,
        },
        limit: match q.limit {
            Some(l) => Some(l.count@),
            None => None,
        },
        fetch: match q.fetch {
            Some(f) => Some(
                (
                    match f.quantity {
                        Some(l) => Some(l@),
                        None => None,
                    },
                    f.percent,
                    f.with_ties,
                ),
            ),
            None => None,
        },
    }
}

/// The abstract value of a `WITH` clause.
pub open spec fn with_v(w: With) -> WithV
    decreases w,
{
    WithV { recursive: w.recursive, ctes: ctes_v(w.ctes@) }
}

/// The abstract values of a sequence of common table expressions.
pub open spec fn ctes_v(s: Seq<Cte>) -> Seq<CteV>
    decreases s,
{
    Seq::new(s.len(), |i: int| if 0 <= i < s.len() {
        cte_v(s[i])
    } else {
        arbitrary()
    })
}

/// The abstract value of a common table expression.
pub open spec fn cte_v(c: Cte) -> CteV
    decreases c,
{
    CteV {
        name: c.name@,
        columns: match c.columns {
            Some(cols) => Some(idents_view(cols@)),
            None => None,
        },
        query: Box::new(query_v(*c.query)),
    }
}

/// The abstract value of a query body.
#[verifier::opaque]
pub open spec fn query_body_v(b: QueryBody) -> QueryBodyV
    decreases b,
{
    match b {
        QueryBody::QuerySpec(s) => QueryBodyV::QuerySpec(Box::new(query_spec_v(*s))),
        QueryBody::Subquery(q) => QueryBodyV::Subquery(Box::new(query_v(*q))),
        QueryBody::Values(v) => QueryBodyV::Values(rows_v(v.list@)),
        QueryBody::Table(n) => QueryBodyV::Table(n@),
        QueryBody::Operation { left, op, quantifier, right } => QueryBodyV::Operation {
            left: Box::new(query_body_v(*left)),
            op,
            quantifier,
            right: Box::new(query_body_v(*right)),
        },
    }
}

/// The abstract value of `QueryBody::QuerySpec(s)`.
pub broadcast proof fn lemma_query_body_v_query_spec(s: Box<QuerySpec>)
    ensures
        #[trigger] query_body_v(QueryBody::QuerySpec(s)) == (QueryBodyV::QuerySpec(Box::new(query_spec_v(*s)))),
{
    reveal(query_body_v);
}

/// The abstract value of `QueryBody::Subquery(q)`.
pub broadcast proof fn lemma_query_body_v_subquery(q: Box<Query>)
    ensures
        #[trigger] query_body_v(QueryBody::Subquery(q)) == (QueryBodyV::Subquery(Box::new(query_v(*q)))),
{
    reveal(query_body_v);
}

/// The abstract value of `QueryBody::Values(v)`.
pub broadcast proof fn lemma_query_body_v_values(v: Values)
    ensures
        #[trigger] query_body_v(QueryBody::Values(v)) == (QueryBodyV::Values(rows_v(v.list@))),
{
    reveal(query_body_v);
}

/// The abstract value of `QueryBody::Table(n)`.
pub broadcast proof fn lemma_query_body_v_table(n: ObjectName)
    ensures
        #[trigger] query_body_v(QueryBody::Table(n)) == (QueryBodyV::Table(n@)),
{
    reveal(query_body_v);
}

/// The abstract value of `QueryBody::Operation { left, op, quantifier, right }`.
pub broadcast proof fn lemma_query_body_v_operation(left: Box<QueryBody>, op: QueryBodyOperator, quantifier: Option<SetQuantifier>, right: Box<QueryBody>)
    ensures
        #[trigger] query_body_v(QueryBody::Operation { left, op, quantifier, right }) == (QueryBodyV::Operation {
            left: Box::new(query_body_v(*left)),
            op,
            quantifier,
            right: Box::new(query_body_v(*right)),
        }),
{
    reveal(query_body_v);
}

/// The abstract values of `QueryBody` values, one kind at a time.
pub broadcast group group_query_body_v {
    lemma_query_body_v_query_spec,
    lemma_query_body_v_subquery,
    lemma_query_body_v_values,
    lemma_query_body_v_table,
    lemma_query_body_v_operation,
}


/// The abstract values of the rows of a `VALUES` list.
pub open spec fn rows_v(s: Seq<Vec<Expr>>) -> Seq<Seq<ExprV>>
    decreases s,
{
    Seq::new(s.len(), |i: int| if 0 <= i < s.len() {
        exprs_v(s[i]@)
    } else {
        arbitrary()
    })
}

/// The abstract value of a query specification.
pub open spec fn query_spec_v(s: QuerySpec) -> QuerySpecV
    decreases s,
{
    QuerySpecV {
        quantifier: s.quantifier,
        projection: select_items_v(s.projection@),
        from: table_refs_v(s.from.list@),
        where_clause: match s.where_clause {
            Some(w) => Some(expr_v(*w.expr)),
            None => None,
        },
        group_by: match s.group_by {
            Some(g) => Some((g.quantifier, grouping_elements_v(g.list@))),
            None => None,
        },
        having: match s.having {
            Some(h) => Some(expr_v(*h.expr)),
            None => None,
        },
        window: match s.window {
            Some(w) => Some(window_defs_v(w.list@)),
            None => None,
        },
    }
}

/// The abstract value of a select item.
pub open spec fn select_item_v(i: SelectItem) -> SelectItemV
    decreases i,
{
    match i {
        SelectItem::Wildcard => SelectItemV::Wildcard,
        SelectItem::QualifiedWildcard(n) => SelectItemV::QualifiedWildcard(n@),
        SelectItem::DerivedColumn { expr, alias } => SelectItemV::DerivedColumn {
            expr: Box::new(expr_v(*expr)),
            alias: opt_ident_v(alias),
        },
    }
}


/// The abstract values of a sequence of select items.
pub open spec fn select_items_v(s: Seq<SelectItem>) -> Seq<SelectItemV>
    decreases s,
{
    Seq::new(s.len(), |i: int| if 0 <= i < s.len() {
        select_item_v(s[i])
    } else {
        arbitrary()
    })
}

/// The abstract value of a table reference.
pub open spec fn table_ref_v(t: TableReference) -> TableReferenceV
    decreases t,
{
    TableReferenceV { relation: table_factor_v(t.relation), joins: joins_v(t.joins@) }
}

/// The abstract values of a sequence of table references.
pub open spec fn table_refs_v(s: Seq<TableReference>) -> Seq<TableReferenceV>
    decreases s,
{
    Seq::new(s.len(), |i: int| if 0 <= i < s.len() {
        table_ref_v(s[i])
    } else {
        arbitrary()
    })
}

/// The abstract value of a table factor.
#[verifier::opaque]
pub open spec fn table_factor_v(t: TableFactor) -> TableFactorV
    decreases t,
{
    match t {
        TableFactor::Table { name, alias } => TableFactorV::Table {
            name: name@,
            alias: opt_table_alias_v(alias),
        },
        TableFactor::Derived { lateral, subquery, alias } => TableFactorV::Derived {
            lateral,
            subquery: Box::new(query_v(*subquery)),
            alias: opt_table_alias_v(alias),
        },
        TableFactor::NestedJoin(r) => TableFactorV::NestedJoin(Box::new(table_ref_v(*r))),
    }
}

/// The abstract value of `TableFactor::Table { name, alias }`.
pub broadcast proof fn lemma_table_factor_v_table(name: ObjectName, alias: Option<TableAlias>)
    ensures
        #[trigger] table_factor_v(TableFactor::Table { name, alias }) == (TableFactorV::Table {
            name: name@,
            alias: opt_table_alias_v(alias),
        }),
{
    reveal(table_factor_v);
}

/// The abstract value of `TableFactor::Derived { lateral, subquery, alias }`.
pub broadcast proof fn lemma_table_factor_v_derived(lateral: bool, subquery: Box<Query>, alias: Option<TableAlias>)
    ensures
        #[trigger] table_factor_v(TableFactor::Derived { lateral, subquery, alias }) == (TableFactorV::Derived {
            lateral,
            subquery: Box::new(query_v(*subquery)),
            alias: opt_table_alias_v(alias),
        }),
{
    reveal(table_factor_v);
}

/// The abstract value of `TableFactor::NestedJoin(r)`.
pub broadcast proof fn lemma_table_factor_v_nested_join(r: Box<TableReference>)
    ensures
        #[trigger] table_factor_v(TableFactor::NestedJoin(r)) == (TableFactorV::NestedJoin(Box::new(table_ref_v(*r)))),
{
    reveal(table_factor_v);
}

/// The abstract values of `TableFactor` values, one kind at a time.
pub broadcast group group_table_factor_v {
    lemma_table_factor_v_table,
    lemma_table_factor_v_derived,
    lemma_table_factor_v_nested_join,
}


/// The abstract value of a join.
pub open spec fn join_v(j: Join) -> JoinV
    decreases j,
{
    JoinV { join: join_operator_v(j.join), relation: table_factor_v(j.relation) }
}

/// The abstract values of a sequence of joins.
pub open spec fn joins_v(s: Seq<Join>) -> Seq<JoinV>
    decreases s,
{
    Seq::new(s.len(), |i: int| if 0 <= i < s.len() {
        join_v(s[i])
    } else {
        arbitrary()
    })
}

/// The abstract value of a join operator.
pub open spec fn join_operator_v(j: JoinOperator) -> JoinOperatorV
    decreases j,
{
    match j {
        JoinOperator::CrossJoin => JoinOperatorV::CrossJoin,
        JoinOperator::InnerJoin(s) => JoinOperatorV::InnerJoin(join_spec_v(s)),
        JoinOperator::LeftOuterJoin(s) => JoinOperatorV::LeftOuterJoin(join_spec_v(s)),
        JoinOperator::RightOuterJoin(s) => JoinOperatorV::RightOuterJoin(join_spec_v(s)),
        JoinOperator::FullOuterJoin(s) => JoinOperatorV::FullOuterJoin(join_spec_v(s)),
        JoinOperator::NaturalInnerJoin => JoinOperatorV::NaturalInnerJoin,
        JoinOperator::NaturalLeftOuterJoin => JoinOperatorV::NaturalLeftOuterJoin,
        JoinOperator::NaturalRightOuterJoin => JoinOperatorV::NaturalRightOuterJoin,
        JoinOperator::NaturalFullOuterJoin => JoinOperatorV::NaturalFullOuterJoin,
    }
}


/// The abstract value of a join specification.
pub open spec fn join_spec_v(j: JoinSpec) -> JoinSpecV
    decreases j,
{
    match j {
        JoinSpec::On(e) => JoinSpecV::On(Box::new(expr_v(*e))),
        JoinSpec::Using { columns, alias } => JoinSpecV::Using {
            columns: idents_view(columns@),
            alias: opt_ident_v(alias),
        },
    }
}


} // verus!
