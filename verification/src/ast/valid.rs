//! The trees whose SQL text can be written: every quoted identifier uses a
//! supported quote character, every `NUMERIC` or `DECIMAL` scale comes with a
//! precision, and no `INTERVAL .. SECOND(p, s)` has a tailing field.
use vstd::prelude::*;

use crate::ast::types::{DataType, DateTimeField, IdentView, IntervalView, LiteralView};
use crate::ast::view::{
    CteV, ExprV, FunctionArgV, FunctionV, GroupingElementV, GroupingSetV, JoinOperatorV, JoinSpecV,
    JoinV, OnOverflowV, QueryBodyV, QuerySpecV, QueryV, SelectItemV, SortSpecV, TableAliasV,
    TableFactorV, TableReferenceV, WindowDefV, WindowSpecV, WithV,
};
use crate::token::ident_quote_ok;

verus! {

/// Every identifier is unquoted or quoted with `"` or `` ` ``.
pub open spec fn idents_ok(s: Seq<IdentView>) -> bool {
    forall|i: int| 0 <= i < s.len() ==> ident_quote_ok(#[trigger] s[i].quote)
}

/// Every object name's identifiers are writable.
pub open spec fn object_names_ok(s: Seq<Seq<IdentView>>) -> bool {
    forall|i: int| 0 <= i < s.len() ==> idents_ok(#[trigger] s[i])
}

/// An optional identifier is writable.
pub open spec fn opt_ident_ok(i: Option<IdentView>) -> bool {
    i matches Some(i) ==> ident_quote_ok(i.quote)
}

/// An interval with the form `SECOND(p, s)` has no tailing field.
pub open spec fn interval_ok(i: IntervalView) -> bool {
    (i.leading_field == Some(DateTimeField::Second) && i.leading_precision is Some
        && i.fractional_seconds_precision is Some) ==> i.tailing_field is None
}

/// A literal can be written.
pub open spec fn literal_ok(l: LiteralView) -> bool {
    l matches LiteralView::Interval(i) ==> interval_ok(i)
}

/// Every `NUMERIC` or `DECIMAL` scale comes with a precision.
pub open spec fn data_type_ok(t: DataType) -> bool
    decreases t,
{
    match t {
        DataType::Numeric { precision, scale } => scale is Some ==> precision is Some,
        DataType::Decimal { precision, scale } => scale is Some ==> precision is Some,
        DataType::Array(inner) => data_type_ok(*inner),
        _ => true,
    }
}

/// A table alias can be written.
pub open spec fn table_alias_ok(a: TableAliasV) -> bool {
    &&& ident_quote_ok(a.name.quote)
    &&& (a.columns matches Some(c) ==> idents_ok(c))
}

/// A grouping set can be written.
pub open spec fn grouping_set_ok(g: GroupingSetV) -> bool {
    match g {
        GroupingSetV::Column(n) => idents_ok(n),
        GroupingSetV::Columns(ns) => object_names_ok(ns),
    }
}

/// Every grouping set can be written.
pub open spec fn grouping_sets_ok(l: Seq<GroupingSetV>) -> bool {
    forall|i: int| 0 <= i < l.len() ==> grouping_set_ok(#[trigger] l[i])
}

/// A grouping element can be written.
pub open spec fn grouping_element_ok(g: GroupingElementV) -> bool
    decreases g,
{
    match g {
        GroupingElementV::Empty => true,
        GroupingElementV::OrdinarySet(s) => grouping_set_ok(s),
        GroupingElementV::Rollup(l) => grouping_sets_ok(l),
        GroupingElementV::Cube(l) => grouping_sets_ok(l),
        GroupingElementV::Sets(l) => grouping_elements_ok(l),
    }
}

/// Every grouping element can be written.
pub open spec fn grouping_elements_ok(s: Seq<GroupingElementV>) -> bool
    decreases s,
{
    forall|i: int| 0 <= i < s.len() ==> grouping_element_ok(#[trigger] s[i])
}

/// An optional boxed expression can be written.
pub open spec fn opt_expr_ok(e: Option<Box<ExprV>>) -> bool
    decreases e,
{
    match e {
        Some(x) => expr_ok(*x),
        None => true,
    }
}

/// An expression can be written.
pub open spec fn expr_ok(e: ExprV) -> bool
    decreases e,
{
    match e {
        ExprV::Literal(l) => literal_ok(l),
        ExprV::TypedString { data_type, .. } => data_type_ok(data_type),
        ExprV::Identifier(i) => ident_quote_ok(i.quote),
        ExprV::Wildcard => true,
        ExprV::QualifiedWildcard(ids) => idents_ok(ids),
        ExprV::CompoundIdentifier(ids) => idents_ok(ids),
        ExprV::Nested(x) => expr_ok(*x),
        ExprV::Exists(q) => query_ok(*q),
        ExprV::Subquery(q) => query_ok(*q),
        ExprV::IsNull { expr, .. } => expr_ok(*expr),
        ExprV::IsDistinctFrom { left, right, .. } => expr_ok(*left) && expr_ok(*right),
        ExprV::UnaryOp { expr, .. } => expr_ok(*expr),
        ExprV::BinaryOp { left, right, .. } => expr_ok(*left) && expr_ok(*right),
        ExprV::InList { expr, list, .. } => expr_ok(*expr) && exprs_ok(list),
        ExprV::InSubquery { expr, subquery, .. } => expr_ok(*expr) && query_ok(*subquery),
        ExprV::Between { expr, low, high, .. } => expr_ok(*expr) && expr_ok(*low) && expr_ok(*high),
        ExprV::Case { operand, whens, else_result } => opt_expr_ok(operand) && whens_ok(whens)
            && opt_expr_ok(else_result),
        ExprV::Collate { expr, collation } => expr_ok(*expr) && idents_ok(collation),
        ExprV::Cast { expr, data_type, .. } => expr_ok(*expr) && data_type_ok(data_type),
        ExprV::Extract { expr, .. } => expr_ok(*expr),
        ExprV::Substring { expr, substring_from, substring_for } => expr_ok(*expr) && opt_expr_ok(
            substring_from,
        ) && opt_expr_ok(substring_for),
        ExprV::Trim { expr, trim_where } => expr_ok(*expr) && match trim_where {
            Some((_, c)) => expr_ok(*c),
            None => true,
        },
        ExprV::ListAgg { expr, separator, on_overflow, within_group, .. } => expr_ok(*expr)
            && opt_expr_ok(separator) && match on_overflow {
            Some(OnOverflowV::Truncate { filler, .. }) => opt_expr_ok(filler),
            _ => true,
        } && order_bys_ok(within_group),
        ExprV::Function(f) => function_ok(f),
    }
}

/// Every expression can be written.
pub open spec fn exprs_ok(s: Seq<ExprV>) -> bool
    decreases s,
{
    forall|i: int| 0 <= i < s.len() ==> expr_ok(#[trigger] s[i])
}

/// Every condition and result of a `CASE` expression can be written.
pub open spec fn whens_ok(w: Seq<(ExprV, ExprV)>) -> bool
    decreases w,
{
    forall|i: int| 0 <= i < w.len() ==> expr_ok((#[trigger] w[i]).0) && expr_ok(w[i].1)
}

/// Every `ORDER BY` clause can be written.
pub open spec fn order_bys_ok(s: Seq<Seq<SortSpecV>>) -> bool
    decreases s,
{
    forall|i: int| 0 <= i < s.len() ==> sort_specs_ok(#[trigger] s[i])
}

/// Every sort specification can be written.
pub open spec fn sort_specs_ok(s: Seq<SortSpecV>) -> bool
    decreases s,
{
    forall|i: int| 0 <= i < s.len() ==> expr_ok((#[trigger] s[i]).expr)
}

/// A function call can be written.
pub open spec fn function_ok(f: FunctionV) -> bool
    decreases f,
{
    idents_ok(f.name) && function_args_ok(f.args) && match f.over {
        Some(w) => window_spec_ok(w),
        None => true,
    }
}

/// Every function argument can be written.
pub open spec fn function_args_ok(s: Seq<FunctionArgV>) -> bool
    decreases s,
{
    forall|i: int| 0 <= i < s.len() ==> match #[trigger] s[i] {
        FunctionArgV::Named { name, arg } => ident_quote_ok(name.quote) && expr_ok(arg),
        FunctionArgV::Unnamed(arg) => expr_ok(arg),
    }
}

/// A window specification can be written.
pub open spec fn window_spec_ok(w: WindowSpecV) -> bool
    decreases w,
{
    &&& opt_ident_ok(w.name)
    &&& (w.partition_by matches Some(p) ==> object_names_ok(p))
    &&& match w.order_by {
        Some(o) => sort_specs_ok(o),
        None => true,
    }
}

/// Every window definition can be written.
pub open spec fn window_defs_ok(s: Seq<WindowDefV>) -> bool
    decreases s,
{
    forall|i: int| 0 <= i < s.len() ==> ident_quote_ok((#[trigger] s[i]).name.quote) && window_spec_ok(s[i].spec)
}

/// A query can be written.
pub open spec fn query_ok(q: QueryV) -> bool
    decreases q,
{
    &&& match q.with {
        Some(w) => ctes_ok(w.ctes),
        None => true,
    }
    &&& query_body_ok(q.body)
    &&& match q.order_by {
        Some(o) => sort_specs_ok(o),
        None => true,
    }
    &&& (q.offset matches Some((c, _)) ==> literal_ok(c))
    &&& (q.limit matches Some(c) ==> literal_ok(c))
    &&& (q.fetch matches Some((Some(c), _, _)) ==> literal_ok(c))
}

/// Every common table expression can be written.
pub open spec fn ctes_ok(s: Seq<CteV>) -> bool
    decreases s,
{
    forall|i: int| 0 <= i < s.len() ==> ident_quote_ok((#[trigger] s[i]).name.quote) && (s[i].columns matches Some(c) ==> idents_ok(c))
        && query_ok(*s[i].query)
}

/// A query body can be written.
pub open spec fn query_body_ok(b: QueryBodyV) -> bool
    decreases b,
{
    match b {
        QueryBodyV::QuerySpec(s) => query_spec_ok(*s),
        QueryBodyV::Subquery(q) => query_ok(*q),
        QueryBodyV::Values(rows) => rows_ok(rows),
        QueryBodyV::Table(n) => idents_ok(n),
        QueryBodyV::Operation { left, right, .. } => query_body_ok(*left) && query_body_ok(*right),
    }
}

/// Every row of a `VALUES` list can be written.
pub open spec fn rows_ok(s: Seq<Seq<ExprV>>) -> bool
    decreases s,
{
    forall|i: int| 0 <= i < s.len() ==> exprs_ok(#[trigger] s[i])
}

/// A query specification can be written.
pub open spec fn query_spec_ok(s: QuerySpecV) -> bool
    decreases s,
{
    &&& select_items_ok(s.projection)
    &&& table_refs_ok(s.from)
    &&& match s.where_clause {
        Some(e) => expr_ok(e),
        None => true,
    }
    &&& (s.group_by matches Some((_, l)) ==> grouping_elements_ok(l))
    &&& match s.having {
        Some(e) => expr_ok(e),
        None => true,
    }
    &&& match s.window {
        Some(w) => window_defs_ok(w),
        None => true,
    }
}

/// Every select item can be written.
pub open spec fn select_items_ok(s: Seq<SelectItemV>) -> bool
    decreases s,
{
    forall|i: int| 0 <= i < s.len() ==> match #[trigger] s[i] {
        SelectItemV::Wildcard => true,
        SelectItemV::QualifiedWildcard(n) => idents_ok(n),
        SelectItemV::DerivedColumn { expr, alias } => expr_ok(*expr) && opt_ident_ok(alias),
    }
}

/// Every table reference can be written.
pub open spec fn table_refs_ok(s: Seq<TableReferenceV>) -> bool
    decreases s,
{
    forall|i: int| 0 <= i < s.len() ==> table_ref_ok(#[trigger] s[i])
}

/// A table reference can be written.
pub open spec fn table_ref_ok(t: TableReferenceV) -> bool
    decreases t,
{
    table_factor_ok(t.relation) && joins_ok(t.joins)
}

/// A table factor can be written.
pub open spec fn table_factor_ok(t: TableFactorV) -> bool
    decreases t,
{
    match t {
        TableFactorV::Table { name, alias } => idents_ok(name) && (alias matches Some(a)
            ==> table_alias_ok(a)),
        TableFactorV::Derived { subquery, alias, .. } => query_ok(*subquery) && (alias matches Some(a)
            ==> table_alias_ok(a)),
        TableFactorV::NestedJoin(r) => table_ref_ok(*r),
    }
}

/// Every join can be written.
pub open spec fn joins_ok(s: Seq<JoinV>) -> bool
    decreases s,
{
    forall|i: int| 0 <= i < s.len() ==> table_factor_ok((#[trigger] s[i]).relation) && match s[i].join {
        JoinOperatorV::InnerJoin(c) => join_spec_ok(c),
        JoinOperatorV::LeftOuterJoin(c) => join_spec_ok(c),
        JoinOperatorV::RightOuterJoin(c) => join_spec_ok(c),
        JoinOperatorV::FullOuterJoin(c) => join_spec_ok(c),
        _ => true,
    }
}

/// A join specification can be written.
pub open spec fn join_spec_ok(j: JoinSpecV) -> bool
    decreases j,
{
    match j {
        JoinSpecV::On(e) => expr_ok(*e),
        JoinSpecV::Using { columns, alias } => idents_ok(columns) && opt_ident_ok(alias),
    }
}

} // verus!
