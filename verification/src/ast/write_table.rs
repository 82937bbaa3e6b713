//! Writing query specifications and table expressions as SQL text.
use vstd::prelude::*;

use crate::ast::expression::{
    BetweenExpr, BinaryOpExpr, CaseExpr, CastExpr, CollateExpr, Expr, ExtractExpr, InListExpr,
    InSubqueryExpr, IsDistinctFromExpr, IsNullExpr, ListAggExpr, ListAggOnOverflow, SubstringExpr,
    TrimExpr, TrimWhereField, UnaryOpExpr,
};
use crate::ast::function::{Function, FunctionArg};
use crate::ast::query::{
    Cte, Fetch, Limit, Offset, OffsetRows, OrderBy, Query, QueryBody, QueryBodyOperator,
    SetQuantifier, SortSpec, Values, With,
};
use crate::ast::table::{
    From, GroupBy, GroupingElement, GroupingSet, Having, Join, JoinOperator, JoinSpec, QuerySpec,
    SelectItem, TableAlias, TableFactor, TableReference, Where, Window, WindowDef, WindowFrame,
    WindowFrameBound, WindowFrameExclusion, WindowFrameUnits, WindowSpec,
};
use crate::ast::text::{
    group_by_part_sql, having_part_sql, quantifier_part_sql, where_part_sql, window_part_sql,
    cte_sql, ctes_sql, exprs_sql, expr_sql, fetch_sql, function_arg_sql, function_args_sql,
    function_sql, group_by_sql, grouping_element_sql, grouping_elements_sql, grouping_set_sql,
    grouping_sets_sql, idents_sql, join_space, join_spec_sql, join_sql, joins_sql, limit_sql,
    not_sql, object_name_sql, object_names_sql, offset_rows_sql, offset_sql, on_overflow_sql,
    order_by_sql, order_bys_sql, query_body_operator_sql, query_body_sql, query_spec_sql,
    query_sql, rows_sql, select_item_sql, select_items_sql, set_quantifier_sql, sort_spec_sql,
    sort_specs_sql, table_alias_sql, table_factor_sql, table_ref_sql, table_refs_sql,
    trim_where_sql, whens_sql, window_def_sql, window_defs_sql, window_frame_bound_sql,
    window_frame_exclusion_sql, window_frame_sql, window_frame_units_sql, window_spec_parts,
    window_spec_sql, with_sql,
};
use crate::ast::types::{
    idents_view, object_names_view, push_escaped, write_object_name, Ident, IdentView, ObjectName,
};
use crate::ast::valid::{
    ctes_ok, exprs_ok, expr_ok, function_args_ok, grouping_element_ok, grouping_elements_ok,
    grouping_set_ok, idents_ok, literal_ok, object_names_ok, opt_ident_ok, order_bys_ok,
    query_body_ok, query_ok, query_spec_ok, rows_ok, select_items_ok, sort_specs_ok,
    table_alias_ok, table_factor_ok, table_ref_ok, table_refs_ok, whens_ok, window_defs_ok,
    window_spec_ok, joins_ok, join_spec_ok,
};
use crate::ast::view::{
    case_whens_v, cte_v, ctes_v, exprs_v, expr_v, function_arg_v, function_args_v, function_v,
    grouping_element_v, grouping_elements_v, grouping_set_v, grouping_sets_v, join_spec_v, join_v,
    joins_v, opt_expr_v, opt_ident_v, order_by_v, order_bys_v, query_body_v, query_spec_v, query_v,
    rows_v, opt_table_alias_v, select_item_v, select_items_v, sort_spec_v, sort_specs_v, table_alias_v,
    table_factor_v, table_ref_v, table_refs_v, window_def_v, window_defs_v, window_spec_v, with_v,
    ExprV, FunctionArgV, GroupingElementV, JoinOperatorV, SelectItemV,
};
use crate::text::{push_decimal, push_str};
use crate::ast::write_expr::{write_idents, write_object_names};
use crate::ast::write_query::write_window_defs;
use crate::token::ident_quote_ok;
use vstd::seq_lib::lemma_concat_associative;

verus! {

broadcast use {vstd::std_specs::vec::axiom_vec_index_decreases, crate::ast::view::group_expr_v, crate::ast::view::group_query_body_v, crate::ast::view::group_table_factor_v};

// ============================================================================
// Query specifications and tables
// ============================================================================

impl SelectItem {
    /// Appends `*`, `<name>.*` or `<expr>[ AS <alias>]`.
    pub fn write_sql(&self, out: &mut String)
        requires
            match select_item_v(*self) {
                SelectItemV::Wildcard => true,
                SelectItemV::QualifiedWildcard(n) => idents_ok(n),
                SelectItemV::DerivedColumn { expr, alias } => expr_ok(*expr) && opt_ident_ok(alias),
            },
        ensures
            final(out)@ == old(out)@ + select_item_sql(select_item_v(*self)),
        decreases self,
    {
        match self {
            SelectItem::Wildcard => push_str(out, "*"),
            SelectItem::QualifiedWildcard(n) => {
                n.write_sql(out);
                push_str(out, ".*");
            },
            SelectItem::DerivedColumn { expr, alias } => {
                expr.write_sql(out);
                if let Some(a) = alias {
                    push_str(out, " AS ");
                    a.write_sql(out);
                }
            },
        }
        assert(out@ =~= old(out)@ + select_item_sql(select_item_v(*self)));
    }
}

impl From {
    /// Appends `FROM <table references>`.
    pub fn write_sql(&self, out: &mut String)
        requires
            table_refs_ok(table_refs_v(self.list@)),
        ensures
            final(out)@ == old(out)@ + "FROM "@ + table_refs_sql(table_refs_v(self.list@)),
        decreases self,
    {
        push_str(out, "FROM ");
        write_table_refs(&self.list, out);
        assert(out@ =~= old(out)@ + "FROM "@ + table_refs_sql(table_refs_v(self.list@)));
    }
}

impl Where {
    /// Appends `WHERE <condition>`.
    pub fn write_sql(&self, out: &mut String)
        requires
            expr_ok(expr_v(*self.expr)),
        ensures
            final(out)@ == old(out)@ + "WHERE "@ + expr_sql(expr_v(*self.expr)),
        decreases self,
    {
        push_str(out, "WHERE ");
        self.expr.write_sql(out);
        assert(out@ =~= old(out)@ + "WHERE "@ + expr_sql(expr_v(*self.expr)));
    }
}

impl Having {
    /// Appends `HAVING <condition>`.
    pub fn write_sql(&self, out: &mut String)
        requires
            expr_ok(expr_v(*self.expr)),
        ensures
            final(out)@ == old(out)@ + "HAVING "@ + expr_sql(expr_v(*self.expr)),
        decreases self,
    {
        push_str(out, "HAVING ");
        self.expr.write_sql(out);
        assert(out@ =~= old(out)@ + "HAVING "@ + expr_sql(expr_v(*self.expr)));
    }
}

impl Window {
    /// Appends `WINDOW <window definitions>`.
    pub fn write_sql(&self, out: &mut String)
        requires
            window_defs_ok(window_defs_v(self.list@)),
        ensures
            final(out)@ == old(out)@ + "WINDOW "@ + window_defs_sql(window_defs_v(self.list@)),
        decreases self,
    {
        push_str(out, "WINDOW ");
        write_window_defs(&self.list, out);
        assert(out@ =~= old(out)@ + "WINDOW "@ + window_defs_sql(window_defs_v(self.list@)));
    }
}

/// The text of a query specification, part by part.
proof fn lemma_query_spec_text(x: QuerySpec)
    ensures
        query_spec_sql(query_spec_v(x)) == "SELECT"@ + quantifier_part_sql(x.quantifier) + " "@
            + select_items_sql(select_items_v(x.projection@)) + " "@ + "FROM "@ + table_refs_sql(
            table_refs_v(x.from.list@),
        ) + where_part_sql(
            match x.where_clause {
                Some(w) => Some(expr_v(*w.expr)),
                None => None,
            },
        ) + group_by_part_sql(
            match x.group_by {
                Some(g) => Some((g.quantifier, grouping_elements_v(g.list@))),
                None => None,
            },
        ) + having_part_sql(
            match x.having {
                Some(h) => Some(expr_v(*h.expr)),
                None => None,
            },
        ) + window_part_sql(
            match x.window {
                Some(w) => Some(window_defs_v(w.list@)),
                None => None,
            },
        ),
{
}

/// A writable query specification has writable parts.
proof fn lemma_query_spec_ok(x: QuerySpec)
    requires
        query_spec_ok(query_spec_v(x)),
    ensures
        select_items_ok(select_items_v(x.projection@)),
        table_refs_ok(table_refs_v(x.from.list@)),
        x.where_clause matches Some(w) ==> expr_ok(expr_v(*w.expr)),
        x.group_by matches Some(g) ==> grouping_elements_ok(grouping_elements_v(g.list@)),
        x.having matches Some(h) ==> expr_ok(expr_v(*h.expr)),
        x.window matches Some(w) ==> window_defs_ok(window_defs_v(w.list@)),
{
}

impl QuerySpec {
    fn write_quantifier(quantifier: &Option<SetQuantifier>, out: &mut String)
        ensures
            final(out)@ == old(out)@ + quantifier_part_sql(*quantifier),
    {
        if let Some(q) = quantifier {
            push_str(out, " ");
            q.write_sql(out);
        }
        assert(out@ =~= old(out)@ + quantifier_part_sql(*quantifier));
    }

    fn write_where(where_clause: &Option<Where>, out: &mut String)
        requires
            *where_clause matches Some(w) ==> expr_ok(expr_v(*w.expr)),
        ensures
            final(out)@ == old(out)@ + where_part_sql(
                match *where_clause {
                    Some(w) => Some(expr_v(*w.expr)),
                    None => None,
                },
            ),
        decreases where_clause,
    {
        if let Some(w) = where_clause {
            push_str(out, " ");
            w.write_sql(out);
        }
        assert(out@ =~= old(out)@ + where_part_sql(
            match *where_clause {
                Some(w) => Some(expr_v(*w.expr)),
                None => None,
            },
        ));
    }

    fn write_group_by(group_by: &Option<GroupBy>, out: &mut String)
        requires
            *group_by matches Some(g) ==> grouping_elements_ok(grouping_elements_v(g.list@)),
        ensures
            final(out)@ == old(out)@ + group_by_part_sql(
                match *group_by {
                    Some(g) => Some((g.quantifier, grouping_elements_v(g.list@))),
                    None => None,
                },
            ),
    {
        if let Some(g) = group_by {
            push_str(out, " ");
            g.write_sql(out);
        }
        assert(out@ =~= old(out)@ + group_by_part_sql(
            match *group_by {
                Some(g) => Some((g.quantifier, grouping_elements_v(g.list@))),
                None => None,
            },
        ));
    }

    fn write_having(having: &Option<Having>, out: &mut String)
        requires
            *having matches Some(h) ==> expr_ok(expr_v(*h.expr)),
        ensures
            final(out)@ == old(out)@ + having_part_sql(
                match *having {
                    Some(h) => Some(expr_v(*h.expr)),
                    None => None,
                },
            ),
        decreases having,
    {
        if let Some(h) = having {
            push_str(out, " ");
            h.write_sql(out);
        }
        assert(out@ =~= old(out)@ + having_part_sql(
            match *having {
                Some(h) => Some(expr_v(*h.expr)),
                None => None,
            },
        ));
    }

    fn write_window(window: &Option<Window>, out: &mut String)
        requires
            *window matches Some(w) ==> window_defs_ok(window_defs_v(w.list@)),
        ensures
            final(out)@ == old(out)@ + window_part_sql(
                match *window {
                    Some(w) => Some(window_defs_v(w.list@)),
                    None => None,
                },
            ),
        decreases window,
    {
        if let Some(w) = window {
            push_str(out, " ");
            w.write_sql(out);
        }
        assert(out@ =~= old(out)@ + window_part_sql(
            match *window {
                Some(w) => Some(window_defs_v(w.list@)),
                None => None,
            },
        ));
    }

    /// Appends `SELECT [<quantifier> ]<items> FROM ..[ WHERE ..][ GROUP BY ..][ HAVING ..][ WINDOW ..]`.
    #[verifier::spinoff_prover]
    pub fn write_sql(&self, out: &mut String)
        requires
            query_spec_ok(query_spec_v(*self)),
        ensures
            final(out)@ == old(out)@ + query_spec_sql(query_spec_v(*self)),
        decreases self,
    {
        proof {
            lemma_query_spec_text(*self);
            lemma_query_spec_ok(*self);
        }
        let ghost o = out@;
        let ghost v = query_spec_v(*self);
        push_str(out, "SELECT");
        let ghost p = "SELECT"@;
        Self::write_quantifier(&self.quantifier, out);
        proof { lemma_concat_associative(o, p, quantifier_part_sql(v.quantifier)); }
        let ghost p = p + quantifier_part_sql(v.quantifier);
        push_str(out, " ");
        proof { lemma_concat_associative(o, p, " "@); }
        let ghost p = p + " "@;
        write_select_items(&self.projection, out);
        proof { lemma_concat_associative(o, p, select_items_sql(v.projection)); }
        let ghost p = p + select_items_sql(v.projection);
        push_str(out, " ");
        proof { lemma_concat_associative(o, p, " "@); }
        let ghost p = p + " "@;
        self.from.write_sql(out);
        proof {
            lemma_concat_associative(o + p, "FROM "@, table_refs_sql(v.from));
            lemma_concat_associative(o, p, "FROM "@ + table_refs_sql(v.from));
        }
        let ghost p = p + ("FROM "@ + table_refs_sql(v.from));
        Self::write_where(&self.where_clause, out);
        proof { lemma_concat_associative(o, p, where_part_sql(v.where_clause)); }
        let ghost p = p + where_part_sql(v.where_clause);
        Self::write_group_by(&self.group_by, out);
        proof { lemma_concat_associative(o, p, group_by_part_sql(v.group_by)); }
        let ghost p = p + group_by_part_sql(v.group_by);
        Self::write_having(&self.having, out);
        proof { lemma_concat_associative(o, p, having_part_sql(v.having)); }
        let ghost p = p + having_part_sql(v.having);
        Self::write_window(&self.window, out);
        proof {
            lemma_concat_associative(o, p, window_part_sql(v.window));
            lemma_concat_associative(
                "SELECT"@ + quantifier_part_sql(v.quantifier) + " "@ + select_items_sql(v.projection) + " "@,
                "FROM "@,
                table_refs_sql(v.from),
            );
        }
    }
}

impl TableAlias {
    /// Appends `AS <name>[ (<columns>)]`.
    pub fn write_sql(&self, out: &mut String)
        requires
            table_alias_ok(table_alias_v(*self)),
        ensures
            final(out)@ == old(out)@ + table_alias_sql(table_alias_v(*self)),
    {
        push_str(out, "AS ");
        self.name.write_sql(out);
        match &self.columns {
            Some(cols) => {
                push_str(out, " (");
                write_idents(cols, out);
                push_str(out, ")");
            },
            None => {},
        }
        assert(out@ =~= old(out)@ + table_alias_sql(table_alias_v(*self)));
    }
}

impl TableFactor {
    fn write_alias(alias: &Option<TableAlias>, out: &mut String)
        requires
            *alias matches Some(a) ==> table_alias_ok(table_alias_v(a)),
        ensures
            final(out)@ == old(out)@ + match opt_table_alias_v(*alias) {
                Some(a) => " "@ + table_alias_sql(a),
                None => Seq::empty(),
            },
    {
        if let Some(a) = alias {
            push_str(out, " ");
            a.write_sql(out);
        }
        assert(out@ =~= old(out)@ + match opt_table_alias_v(*alias) {
            Some(a) => " "@ + table_alias_sql(a),
            None => Seq::<char>::empty(),
        });
    }

    fn write_table(name: &ObjectName, alias: &Option<TableAlias>, out: &mut String)
        requires
            table_factor_ok(table_factor_v(TableFactor::Table { name: *name, alias: *alias })),
        ensures
            final(out)@ == old(out)@ + table_factor_sql(
                table_factor_v(TableFactor::Table { name: *name, alias: *alias }),
            ),
    {
        name.write_sql(out);
        Self::write_alias(alias, out);
        assert(out@ =~= old(out)@ + table_factor_sql(
            table_factor_v(TableFactor::Table { name: *name, alias: *alias }),
        ));
    }

    /// Appends the text of the table factor.
    pub fn write_sql(&self, out: &mut String)
        requires
            table_factor_ok(table_factor_v(*self)),
        ensures
            final(out)@ == old(out)@ + table_factor_sql(table_factor_v(*self)),
        decreases self,
    {
        match self {
            TableFactor::Table { name, alias } => {
                assert(*self == TableFactor::Table { name: *name, alias: *alias });
                Self::write_table(name, alias, out);
            },
            TableFactor::Derived { lateral, subquery, alias } => {
                assert(*self == TableFactor::Derived {
                    lateral: *lateral,
                    subquery: *subquery,
                    alias: *alias,
                });
                if *lateral {
                    push_str(out, "LATERAL ");
                }
                push_str(out, "(");
                subquery.write_sql(out);
                push_str(out, ")");
                Self::write_alias(alias, out);
                assert(out@ =~= old(out)@ + table_factor_sql(table_factor_v(*self)));
            },
            TableFactor::NestedJoin(r) => {
                assert(*self == TableFactor::NestedJoin(*r));
                push_str(out, "(");
                r.write_sql(out);
                push_str(out, ")");
                assert(out@ =~= old(out)@ + table_factor_sql(table_factor_v(*self)));
            },
        }
    }
}

impl JoinSpec {
    /// Appends ` ON <expr>` or ` USING (<columns>)[ AS <alias>]`.
    pub fn write_sql(&self, out: &mut String)
        requires
            join_spec_ok(join_spec_v(*self)),
        ensures
            final(out)@ == old(out)@ + join_spec_sql(join_spec_v(*self)),
        decreases self,
    {
        match self {
            JoinSpec::On(e) => {
                push_str(out, " ON ");
                e.write_sql(out);
            },
            JoinSpec::Using { columns, alias } => {
                push_str(out, " USING (");
                write_idents(columns, out);
                push_str(out, ")");
                if let Some(a) = alias {
                    push_str(out, " AS ");
                    a.write_sql(out);
                }
            },
        }
        assert(out@ =~= old(out)@ + join_spec_sql(join_spec_v(*self)));
    }
}

impl Join {
    /// Appends the join operator and the joined table factor.
    pub fn write_sql(&self, out: &mut String)
        requires
            table_factor_ok(join_v(*self).relation),
            match join_v(*self).join {
                JoinOperatorV::InnerJoin(c) => join_spec_ok(c),
                JoinOperatorV::LeftOuterJoin(c) => join_spec_ok(c),
                JoinOperatorV::RightOuterJoin(c) => join_spec_ok(c),
                JoinOperatorV::FullOuterJoin(c) => join_spec_ok(c),
                _ => true,
            },
        ensures
            final(out)@ == old(out)@ + join_sql(join_v(*self)),
        decreases self,
    {
        match &self.join {
            JoinOperator::CrossJoin => {
                push_str(out, "CROSS JOIN ");
                self.relation.write_sql(out);
            },
            JoinOperator::InnerJoin(c) => {
                push_str(out, "INNER JOIN ");
                self.relation.write_sql(out);
                c.write_sql(out);
            },
            JoinOperator::LeftOuterJoin(c) => {
                push_str(out, "LEFT JOIN ");
                self.relation.write_sql(out);
                push_str(out, " ");
                c.write_sql(out);
            },
            JoinOperator::RightOuterJoin(c) => {
                push_str(out, "RIGHT JOIN ");
                self.relation.write_sql(out);
                push_str(out, " ");
                c.write_sql(out);
            },
            JoinOperator::FullOuterJoin(c) => {
                push_str(out, "FULL JOIN ");
                self.relation.write_sql(out);
                push_str(out, " ");
                c.write_sql(out);
            },
            JoinOperator::NaturalInnerJoin => {
                push_str(out, "NATURAL INNER JOIN ");
                self.relation.write_sql(out);
            },
            JoinOperator::NaturalLeftOuterJoin => {
                push_str(out, "NATURAL LEFT JOIN ");
                self.relation.write_sql(out);
            },
            JoinOperator::NaturalRightOuterJoin => {
                push_str(out, "NATURAL RIGHT JOIN ");
                self.relation.write_sql(out);
            },
            JoinOperator::NaturalFullOuterJoin => {
                push_str(out, "NATURAL FULL JOIN ");
                self.relation.write_sql(out);
            },
        }
        assert(out@ =~= old(out)@ + join_sql(join_v(*self)));
    }
}

impl TableReference {
    /// Appends the table factor and each join after a space.
    pub fn write_sql(&self, out: &mut String)
        requires
            table_ref_ok(table_ref_v(*self)),
        ensures
            final(out)@ == old(out)@ + table_ref_sql(table_ref_v(*self)),
        decreases self,
    {
        self.relation.write_sql(out);
        write_joins(&self.joins, out);
        assert(out@ =~= old(out)@ + table_ref_sql(table_ref_v(*self)));
    }
}

// ============================================================================
// Grouping
// ============================================================================

impl GroupingSet {
    /// Appends a column or a parenthesized list of columns.
    pub fn write_sql(&self, out: &mut String)
        requires
            grouping_set_ok(grouping_set_v(*self)),
        ensures
            final(out)@ == old(out)@ + grouping_set_sql(grouping_set_v(*self)),
    {
        match self {
            GroupingSet::Column(n) => n.write_sql(out),
            GroupingSet::Columns(ns) => {
                push_str(out, "(");
                write_object_names(ns, out);
                push_str(out, ")");
            },
        }
        assert(out@ =~= old(out)@ + grouping_set_sql(grouping_set_v(*self)));
    }
}

impl GroupingElement {
    /// Appends the text of the grouping element.
    pub fn write_sql(&self, out: &mut String)
        requires
            grouping_element_ok(grouping_element_v(*self)),
        ensures
            final(out)@ == old(out)@ + grouping_element_sql(grouping_element_v(*self)),
        decreases self,
    {
        match self {
            GroupingElement::Empty => push_str(out, "()"),
            GroupingElement::OrdinarySet(s) => s.write_sql(out),
            GroupingElement::Rollup(l) => {
                assert(grouping_element_v(*self) == GroupingElementV::Rollup(grouping_sets_v(l@)));
                push_str(out, "ROLLUP (");
                write_grouping_sets(l, out);
                push_str(out, ")");
            },
            GroupingElement::Cube(l) => {
                assert(grouping_element_v(*self) == GroupingElementV::Cube(grouping_sets_v(l@)));
                push_str(out, "CUBE (");
                write_grouping_sets(l, out);
                push_str(out, ")");
            },
            GroupingElement::Sets(l) => {
                push_str(out, " GROUPING SETS (");
                write_grouping_elements(l, out);
                push_str(out, ")");
            },
        }
        assert(out@ =~= old(out)@ + grouping_element_sql(grouping_element_v(*self)));
    }
}

impl GroupBy {
    /// Appends `GROUP BY [<quantifier> ]<grouping elements>`.
    pub fn write_sql(&self, out: &mut String)
        requires
            grouping_elements_ok(grouping_elements_v(self.list@)),
        ensures
            final(out)@ == old(out)@ + group_by_sql(self.quantifier, grouping_elements_v(self.list@)),
    {
        push_str(out, "GROUP BY ");
        if let Some(q) = &self.quantifier {
            q.write_sql(out);
            push_str(out, " ");
        }
        write_grouping_elements(&self.list, out);
        assert(out@ =~= old(out)@ + group_by_sql(self.quantifier, grouping_elements_v(self.list@)));
    }
}


/// Appends select items separated by `, `.
pub fn write_select_items(list: &Vec<SelectItem>, out: &mut String)
    requires
        select_items_ok(select_items_v(list@)),
    ensures
        final(out)@ == old(out)@ + select_items_sql(select_items_v(list@)),
    decreases list,
{
    let ghost v = select_items_v(list@);
    let mut i: usize = 0;
    assert(v.take(0) =~= Seq::<SelectItemV>::empty());
    while i < list.len()
        invariant
            v == select_items_v(list@),
            v.len() == list@.len(),
            i <= list.len(),
            select_items_ok(select_items_v(list@)),
            out@ == old(out)@ + select_items_sql(v.take(i as int)),
        decreases list.len() - i,
    {
        assert(v.take(i + 1).drop_last() =~= v.take(i as int));
        assert(v.take(i + 1).last() == v[i as int]);
        assert(v[i as int] == select_item_v(list@[i as int]));
        assert(match v[i as int] { SelectItemV::Wildcard => true, SelectItemV::QualifiedWildcard(n) => idents_ok(n), SelectItemV::DerivedColumn { expr, alias } => expr_ok(*expr) && opt_ident_ok(alias) });
        if i > 0 {
            push_str(out, ", ");
        }
        list[i].write_sql(out);
        i += 1;
        assert(out@ =~= old(out)@ + select_items_sql(v.take(i as int)));
    }
    assert(v.take(list.len() as int) =~= v);
}

/// Appends table references separated by `, `.
pub fn write_table_refs(list: &Vec<TableReference>, out: &mut String)
    requires
        table_refs_ok(table_refs_v(list@)),
    ensures
        final(out)@ == old(out)@ + table_refs_sql(table_refs_v(list@)),
    decreases list,
{
    let ghost v = table_refs_v(list@);
    let mut i: usize = 0;
    assert(v.take(0) =~= Seq::<crate::ast::view::TableReferenceV>::empty());
    while i < list.len()
        invariant
            v == table_refs_v(list@),
            v.len() == list@.len(),
            i <= list.len(),
            table_refs_ok(table_refs_v(list@)),
            out@ == old(out)@ + table_refs_sql(v.take(i as int)),
        decreases list.len() - i,
    {
        assert(v.take(i + 1).drop_last() =~= v.take(i as int));
        assert(v.take(i + 1).last() == v[i as int]);
        assert(v[i as int] == table_ref_v(list@[i as int]));
        assert(table_ref_ok(v[i as int]));
        if i > 0 {
            push_str(out, ", ");
        }
        list[i].write_sql(out);
        i += 1;
        assert(out@ =~= old(out)@ + table_refs_sql(v.take(i as int)));
    }
    assert(v.take(list.len() as int) =~= v);
}

/// Appends joins, each after a space.
pub fn write_joins(list: &Vec<Join>, out: &mut String)
    requires
        joins_ok(joins_v(list@)),
    ensures
        final(out)@ == old(out)@ + joins_sql(joins_v(list@)),
    decreases list,
{
    let ghost v = joins_v(list@);
    let mut i: usize = 0;
    assert(v.take(0) =~= Seq::<crate::ast::view::JoinV>::empty());
    while i < list.len()
        invariant
            v == joins_v(list@),
            v.len() == list@.len(),
            i <= list.len(),
            joins_ok(joins_v(list@)),
            out@ == old(out)@ + joins_sql(v.take(i as int)),
        decreases list.len() - i,
    {
        assert(v.take(i + 1).drop_last() =~= v.take(i as int));
        assert(v.take(i + 1).last() == v[i as int]);
        assert(v[i as int] == join_v(list@[i as int]));
        assert(table_factor_ok((v[i as int]).relation) && match (v[i as int]).join { JoinOperatorV::InnerJoin(c) => join_spec_ok(c), JoinOperatorV::LeftOuterJoin(c) => join_spec_ok(c), JoinOperatorV::RightOuterJoin(c) => join_spec_ok(c), JoinOperatorV::FullOuterJoin(c) => join_spec_ok(c), _ => true });
        push_str(out, " ");
        list[i].write_sql(out);
        i += 1;
        assert(out@ =~= old(out)@ + joins_sql(v.take(i as int)));
    }
    assert(v.take(list.len() as int) =~= v);
}

/// Appends grouping elements separated by `, `.
pub fn write_grouping_elements(list: &Vec<GroupingElement>, out: &mut String)
    requires
        grouping_elements_ok(grouping_elements_v(list@)),
    ensures
        final(out)@ == old(out)@ + grouping_elements_sql(grouping_elements_v(list@)),
    decreases list,
{
    let ghost v = grouping_elements_v(list@);
    let mut i: usize = 0;
    assert(v.take(0) =~= Seq::<crate::ast::view::GroupingElementV>::empty());
    while i < list.len()
        invariant
            v == grouping_elements_v(list@),
            v.len() == list@.len(),
            i <= list.len(),
            grouping_elements_ok(grouping_elements_v(list@)),
            out@ == old(out)@ + grouping_elements_sql(v.take(i as int)),
        decreases list.len() - i,
    {
        assert(v.take(i + 1).drop_last() =~= v.take(i as int));
        assert(v.take(i + 1).last() == v[i as int]);
        assert(v[i as int] == grouping_element_v(list@[i as int]));
        assert(grouping_element_ok(v[i as int]));
        if i > 0 {
            push_str(out, ", ");
        }
        list[i].write_sql(out);
        i += 1;
        assert(out@ =~= old(out)@ + grouping_elements_sql(v.take(i as int)));
    }
    assert(v.take(list.len() as int) =~= v);
}

/// Appends grouping sets separated by `, `.
pub fn write_grouping_sets(list: &Vec<GroupingSet>, out: &mut String)
    requires
        crate::ast::valid::grouping_sets_ok(grouping_sets_v(list@)),
    ensures
        final(out)@ == old(out)@ + grouping_sets_sql(grouping_sets_v(list@)),
    decreases list,
{
    let ghost v = grouping_sets_v(list@);
    let mut i: usize = 0;
    assert(v.take(0) =~= Seq::<crate::ast::view::GroupingSetV>::empty());
    while i < list.len()
        invariant
            v == grouping_sets_v(list@),
            v.len() == list@.len(),
            i <= list.len(),
            crate::ast::valid::grouping_sets_ok(grouping_sets_v(list@)),
            out@ == old(out)@ + grouping_sets_sql(v.take(i as int)),
        decreases list.len() - i,
    {
        assert(v.take(i + 1).drop_last() =~= v.take(i as int));
        assert(v.take(i + 1).last() == v[i as int]);
        assert(v[i as int] == grouping_set_v(list@[i as int]));
        assert(grouping_set_ok(v[i as int]));
        if i > 0 {
            push_str(out, ", ");
        }
        list[i].write_sql(out);
        i += 1;
        assert(out@ =~= old(out)@ + grouping_sets_sql(v.take(i as int)));
    }
    assert(v.take(list.len() as int) =~= v);
}

} // verus!
