//! Writing queries as SQL text.
use vstd::prelude::*;

use crate::ast::expression::{
    BetweenExpr, BinaryOpExpr, CaseExpr, CastExpr, CollateExpr, Expr, ExtractExpr, InListExpr,
    InSubqueryExpr, IsDistinctFromExpr, IsNullExpr, ListAggExpr, ListAggOnOverflow, SubstringExpr,
    TrimExpr, TrimWhereField, UnaryOpExpr,
};
use crate::ast::function::{Function, FunctionArg};
use crate::ast::query::{
    Cte, Fetch, Limit, Offset, OffsetRows, OrderBy, Query, QueryBody, QueryBodyOperator,
    SetQuantifier, SortSpec, Values, With,
};
use crate::ast::table::{
    From, GroupBy, GroupingElement, GroupingSet, Having, Join, JoinOperator, JoinSpec, QuerySpec,
    SelectItem, TableAlias, TableFactor, TableReference, Where, Window, WindowDef, WindowFrame,
    WindowFrameBound, WindowFrameExclusion, WindowFrameUnits, WindowSpec,
};
use crate::ast::text::{
    cte_sql, ctes_sql, exprs_sql, expr_sql, fetch_sql, function_arg_sql, function_args_sql,
    function_sql, group_by_sql, grouping_element_sql, grouping_elements_sql, grouping_set_sql,
    grouping_sets_sql, idents_sql, join_space, join_spec_sql, join_sql, joins_sql, limit_sql,
    not_sql, object_name_sql, object_names_sql, offset_rows_sql, offset_sql, on_overflow_sql,
    order_by_sql, order_bys_sql, query_body_operator_sql, query_body_sql, query_spec_sql,
    query_sql, rows_sql, select_item_sql, select_items_sql, set_quantifier_sql, sort_spec_sql,
    sort_specs_sql, table_alias_sql, table_factor_sql, table_ref_sql, table_refs_sql,
    trim_where_sql, whens_sql, window_def_sql, window_defs_sql, window_frame_bound_sql,
    window_frame_exclusion_sql, window_frame_sql, window_frame_units_sql, window_spec_parts,
    window_spec_sql, with_sql,
};
use crate::ast::types::{
    idents_view, object_names_view, push_escaped, write_object_name, Ident, IdentView, ObjectName,
};
use crate::ast::valid::{
    ctes_ok, exprs_ok, expr_ok, function_args_ok, grouping_element_ok, grouping_elements_ok,
    grouping_set_ok, idents_ok, literal_ok, object_names_ok, opt_ident_ok, order_bys_ok,
    query_body_ok, query_ok, query_spec_ok, rows_ok, select_items_ok, sort_specs_ok,
    table_alias_ok, table_factor_ok, table_ref_ok, table_refs_ok, whens_ok, window_defs_ok,
    window_spec_ok, joins_ok, join_spec_ok,
};
use crate::ast::view::{
    case_whens_v, cte_v, ctes_v, exprs_v, expr_v, function_arg_v, function_args_v, function_v,
    grouping_element_v, grouping_elements_v, grouping_set_v, grouping_sets_v, join_spec_v, join_v,
    joins_v, opt_expr_v, opt_ident_v, order_by_v, order_bys_v, query_body_v, query_spec_v, query_v,
    rows_v, select_item_v, select_items_v, sort_spec_v, sort_specs_v, table_alias_v,
    table_factor_v, table_ref_v, table_refs_v, window_def_v, window_defs_v, window_spec_v, with_v,
    ExprV, FunctionArgV, JoinOperatorV, SelectItemV,
};
use crate::text::{push_decimal, push_str};
use crate::ast::write_expr::{write_exprs, write_idents};
use crate::token::ident_quote_ok;

verus! {

broadcast use {vstd::std_specs::vec::axiom_vec_index_decreases, crate::ast::view::group_expr_v, crate::ast::view::group_query_body_v, crate::ast::view::group_table_factor_v};

// ============================================================================
// Queries
// ============================================================================

impl SetQuantifier {
    /// Appends `ALL` or `DISTINCT`.
    pub fn write_sql(&self, out: &mut String)
        ensures
            final(out)@ == old(out)@ + set_quantifier_sql(*self),
    {
        match self {
            SetQuantifier::All => push_str(out, "ALL"),
            SetQuantifier::Distinct => push_str(out, "DISTINCT"),
        }
    }
}

impl QueryBodyOperator {
    /// Appends `UNION`, `EXCEPT` or `INTERSECT`.
    pub fn write_sql(&self, out: &mut String)
        ensures
            final(out)@ == old(out)@ + query_body_operator_sql(*self),
    {
        match self {
            QueryBodyOperator::Union => push_str(out, "UNION"),
            QueryBodyOperator::Except => push_str(out, "EXCEPT"),
            QueryBodyOperator::Intersect => push_str(out, "INTERSECT"),
        }
    }
}

impl OffsetRows {
    /// Appends ` ROW`, ` ROWS` or nothing.
    pub fn write_sql(&self, out: &mut String)
        ensures
            final(out)@ == old(out)@ + offset_rows_sql(*self),
    {
        match self {
            OffsetRows::Row => push_str(out, " ROW"),
            OffsetRows::Rows => push_str(out, " ROWS"),
            OffsetRows::Omitted => {},
        }
        assert(out@ =~= old(out)@ + offset_rows_sql(*self));
    }
}

impl Limit {
    /// Appends `LIMIT <count>`.
    pub fn write_sql(&self, out: &mut String)
        requires
            literal_ok(self.count@),
        ensures
            final(out)@ == old(out)@ + limit_sql(self.count@),
    {
        push_str(out, "LIMIT ");
        self.count.write_sql(out);
        assert(out@ =~= old(out)@ + limit_sql(self.count@));
    }
}

impl Offset {
    /// Appends `OFFSET <count>[ ROW| ROWS]`.
    pub fn write_sql(&self, out: &mut String)
        requires
            literal_ok(self.count@),
        ensures
            final(out)@ == old(out)@ + offset_sql(self.count@, self.rows),
    {
        push_str(out, "OFFSET ");
        self.count.write_sql(out);
        self.rows.write_sql(out);
        assert(out@ =~= old(out)@ + offset_sql(self.count@, self.rows));
    }
}

impl Fetch {
    /// Appends `FETCH FIRST [<quantity>[ PERCENT]] ROWS { ONLY | WITH TIES }`.
    pub fn write_sql(&self, out: &mut String)
        requires
            self.quantity matches Some(c) ==> literal_ok(c@),
        ensures
            final(out)@ == old(out)@ + fetch_sql(
                match self.quantity {
                    Some(l) => Some(l@),
                    None => None,
                },
                self.percent,
                self.with_ties,
            ),
    {
        match &self.quantity {
            Some(q) => {
                push_str(out, "FETCH FIRST ");
                q.write_sql(out);
                if self.percent {
                    push_str(out, " PERCENT");
                }
                push_str(out, " ROWS ");
            },
            None => {
                push_str(out, "FETCH FIRST ROWS ");
            },
        }
        if self.with_ties {
            push_str(out, "WITH TIES");
        } else {
            push_str(out, "ONLY");
        }
        assert(out@ =~= old(out)@ + fetch_sql(
            match self.quantity {
                Some(l) => Some(l@),
                None => None,
            },
            self.percent,
            self.with_ties,
        ));
    }
}

impl SortSpec {
    /// Appends `<expr>[ ASC| DESC][ NULLS FIRST| NULLS LAST]`.
    pub fn write_sql(&self, out: &mut String)
        requires
            expr_ok(sort_spec_v(*self).expr),
        ensures
            final(out)@ == old(out)@ + sort_spec_sql(sort_spec_v(*self)),
        decreases self,
    {
        self.expr.write_sql(out);
        match self.asc {
            Some(true) => push_str(out, " ASC"),
            Some(false) => push_str(out, " DESC"),
            None => {},
        }
        match self.nulls_first {
            Some(true) => push_str(out, " NULLS FIRST"),
            Some(false) => push_str(out, " NULLS LAST"),
            None => {},
        }
        assert(out@ =~= old(out)@ + sort_spec_sql(sort_spec_v(*self)));
    }
}

impl OrderBy {
    /// Appends `ORDER BY <sort specifications>`.
    pub fn write_sql(&self, out: &mut String)
        requires
            sort_specs_ok(order_by_v(*self)),
        ensures
            final(out)@ == old(out)@ + order_by_sql(order_by_v(*self)),
        decreases self,
    {
        push_str(out, "ORDER BY ");
        write_sort_specs(&self.list, out);
        assert(out@ =~= old(out)@ + order_by_sql(order_by_v(*self)));
    }
}

impl Cte {
    /// Appends `<name>[ (<columns>)] AS (<query>)`.
    pub fn write_sql(&self, out: &mut String)
        requires
            ident_quote_ok(self.name.quote),
            cte_v(*self).columns matches Some(c) ==> idents_ok(c),
            query_ok(query_v(*self.query)),
        ensures
            final(out)@ == old(out)@ + cte_sql(cte_v(*self)),
        decreases self,
    {
        let ghost c = cte_v(*self);
        self.name.write_sql(out);
        match &self.columns {
            Some(cols) => {
                push_str(out, " (");
                write_idents(cols, out);
                push_str(out, ")");
            },
            None => {},
        }
        let ghost cols = match c.columns {
            Some(cols) => " ("@ + idents_sql(cols) + ")"@,
            None => Seq::<char>::empty(),
        };
        assert(out@ =~= old(out)@ + crate::token::spec_ident_sql(c.name) + cols);
        push_str(out, " AS (");
        self.query.write_sql(out);
        push_str(out, ")");
        assert(*c.query == query_v(*self.query));
        assert(out@ =~= old(out)@ + (crate::token::spec_ident_sql(c.name) + cols + " AS ("@ + query_sql(*c.query) + ")"@));
        assert(cte_sql(c) == crate::token::spec_ident_sql(c.name) + cols + " AS ("@ + query_sql(*c.query) + ")"@);
    }
}

impl With {
    /// Appends `WITH [RECURSIVE ]<ctes>`.
    pub fn write_sql(&self, out: &mut String)
        requires
            ctes_ok(with_v(*self).ctes),
        ensures
            final(out)@ == old(out)@ + with_sql(with_v(*self)),
        decreases self,
    {
        push_str(out, "WITH ");
        if self.recursive {
            push_str(out, "RECURSIVE ");
        }
        write_ctes(&self.ctes, out);
        assert(out@ =~= old(out)@ + with_sql(with_v(*self)));
    }
}

impl Values {
    /// Appends `VALUES (<row>), ...`.
    pub fn write_sql(&self, out: &mut String)
        requires
            rows_ok(rows_v(self.list@)),
        ensures
            final(out)@ == old(out)@ + "VALUES "@ + rows_sql(rows_v(self.list@)),
        decreases self,
    {
        push_str(out, "VALUES ");
        write_rows(&self.list, out);
        assert(out@ =~= old(out)@ + "VALUES "@ + rows_sql(rows_v(self.list@)));
    }
}

impl QueryBody {
    /// Appends the text of the query body.
    pub fn write_sql(&self, out: &mut String)
        requires
            query_body_ok(query_body_v(*self)),
        ensures
            final(out)@ == old(out)@ + query_body_sql(query_body_v(*self)),
        decreases self,
    {
        match self {
            QueryBody::QuerySpec(s) => {
                assert(*self == QueryBody::QuerySpec(*s));
                s.write_sql(out);
            },
            QueryBody::Subquery(q) => {
                assert(*self == QueryBody::Subquery(*q));
                push_str(out, "(");
                q.write_sql(out);
                push_str(out, ")");
            },
            QueryBody::Values(v) => {
                assert(*self == QueryBody::Values(*v));
                v.write_sql(out);
            },
            QueryBody::Table(n) => {
                assert(*self == QueryBody::Table(*n));
                n.write_sql(out);
            },
            QueryBody::Operation { left, op, quantifier, right } => {
                assert(*self == QueryBody::Operation {
                    left: *left,
                    op: *op,
                    quantifier: *quantifier,
                    right: *right,
                });
                left.write_sql(out);
                push_str(out, " ");
                op.write_sql(out);
                if let Some(q) = quantifier {
                    push_str(out, " ");
                    q.write_sql(out);
                }
                push_str(out, " ");
                right.write_sql(out);
            },
        }
        assert(out@ =~= old(out)@ + query_body_sql(query_body_v(*self)));
    }
}

/// The text of a query: its parts in order.
proof fn lemma_query_sql(x: Query)
    requires
        query_ok(query_v(x)),
    ensures
        query_sql(query_v(x)) == (match x.with {
            Some(w) => with_sql(with_v(w)) + " "@,
            None => Seq::<char>::empty(),
        }) + query_body_sql(query_body_v(x.body)) + (match x.order_by {
            Some(o) => " "@ + order_by_sql(order_by_v(o)),
            None => Seq::<char>::empty(),
        }) + (match x.limit {
            Some(l) => " "@ + limit_sql(l.count@),
            None => Seq::<char>::empty(),
        }) + (match x.offset {
            Some(o) => " "@ + offset_sql(o.count@, o.rows),
            None => Seq::<char>::empty(),
        }) + (match x.fetch {
            Some(f) => " "@ + fetch_sql(
                match f.quantity {
                    Some(l) => Some(l@),
                    None => None,
                },
                f.percent,
                f.with_ties,
            ),
            None => Seq::<char>::empty(),
        }),
        x.with matches Some(w) ==> ctes_ok(with_v(w).ctes),
        query_body_ok(query_body_v(x.body)),
        x.order_by matches Some(o) ==> sort_specs_ok(order_by_v(o)),
        x.limit matches Some(l) ==> literal_ok(l.count@),
        x.offset matches Some(o) ==> literal_ok(o.count@),
        x.fetch matches Some(f) ==> (f.quantity matches Some(c) ==> literal_ok(c@)),
{
}

impl Query {
    fn write_with(with: &Option<With>, out: &mut String)
        requires
            *with matches Some(w) ==> ctes_ok(with_v(w).ctes),
        ensures
            final(out)@ == old(out)@ + match *with {
                Some(w) => with_sql(with_v(w)) + " "@,
                None => Seq::empty(),
            },
        decreases with,
    {
        if let Some(w) = with {
            w.write_sql(out);
            push_str(out, " ");
        }
        assert(out@ =~= old(out)@ + match *with {
            Some(w) => with_sql(with_v(w)) + " "@,
            None => Seq::<char>::empty(),
        });
    }

    fn write_order_by(order_by: &Option<OrderBy>, out: &mut String)
        requires
            *order_by matches Some(o) ==> sort_specs_ok(order_by_v(o)),
        ensures
            final(out)@ == old(out)@ + match *order_by {
                Some(o) => " "@ + order_by_sql(order_by_v(o)),
                None => Seq::empty(),
            },
        decreases order_by,
    {
        if let Some(o) = order_by {
            push_str(out, " ");
            o.write_sql(out);
        }
        assert(out@ =~= old(out)@ + match *order_by {
            Some(o) => " "@ + order_by_sql(order_by_v(o)),
            None => Seq::<char>::empty(),
        });
    }

    fn write_limit(limit: &Option<Limit>, out: &mut String)
        requires
            *limit matches Some(l) ==> literal_ok(l.count@),
        ensures
            final(out)@ == old(out)@ + match *limit {
                Some(l) => " "@ + limit_sql(l.count@),
                None => Seq::empty(),
            },
    {
        if let Some(l) = limit {
            push_str(out, " ");
            l.write_sql(out);
        }
        assert(out@ =~= old(out)@ + match *limit {
            Some(l) => " "@ + limit_sql(l.count@),
            None => Seq::<char>::empty(),
        });
    }

    fn write_offset(offset: &Option<Offset>, out: &mut String)
        requires
            *offset matches Some(o) ==> literal_ok(o.count@),
        ensures
            final(out)@ == old(out)@ + match *offset {
                Some(o) => " "@ + offset_sql(o.count@, o.rows),
                None => Seq::empty(),
            },
    {
        if let Some(o) = offset {
            push_str(out, " ");
            o.write_sql(out);
        }
        assert(out@ =~= old(out)@ + match *offset {
            Some(o) => " "@ + offset_sql(o.count@, o.rows),
            None => Seq::<char>::empty(),
        });
    }

    fn write_fetch(fetch: &Option<Fetch>, out: &mut String)
        requires
            *fetch matches Some(f) ==> (f.quantity matches Some(c) ==> literal_ok(c@)),
        ensures
            final(out)@ == old(out)@ + match *fetch {
                Some(f) => " "@ + fetch_sql(
                    match f.quantity {
                        Some(l) => Some(l@),
                        None => None,
                    },
                    f.percent,
                    f.with_ties,
                ),
                None => Seq::empty(),
            },
    {
        if let Some(f) = fetch {
            push_str(out, " ");
            f.write_sql(out);
        }
        assert(out@ =~= old(out)@ + match *fetch {
            Some(f) => " "@ + fetch_sql(
                match f.quantity {
                    Some(l) => Some(l@),
                    None => None,
                },
                f.percent,
                f.with_ties,
            ),
            None => Seq::<char>::empty(),
        });
    }

    /// Appends the text of the query.
    #[verifier::spinoff_prover]
    #[verifier::rlimit(100)]
    pub fn write_sql(&self, out: &mut String)
        requires
            query_ok(query_v(*self)),
        ensures
            final(out)@ == old(out)@ + query_sql(query_v(*self)),
        decreases self,
    {
        proof {
            lemma_query_sql(*self);
        }
        Self::write_with(&self.with, out);
        self.body.write_sql(out);
        Self::write_order_by(&self.order_by, out);
        Self::write_limit(&self.limit, out);
        Self::write_offset(&self.offset, out);
        Self::write_fetch(&self.fetch, out);
        assert(out@ =~= old(out)@ + query_sql(query_v(*self)));
    }

    /// The text of the query.
    pub fn to_string(&self) -> (s: String)
        requires
            query_ok(query_v(*self)),
        ensures
            s@ == query_sql(query_v(*self)),
    {
        let mut s = String::new();
        self.write_sql(&mut s);
        s
    }
}


/// Appends sort specifications separated by `, `.
pub fn write_sort_specs(list: &Vec<SortSpec>, out: &mut String)
    requires
        sort_specs_ok(sort_specs_v(list@)),
    ensures
        final(out)@ == old(out)@ + sort_specs_sql(sort_specs_v(list@)),
    decreases list,
{
    let ghost v = sort_specs_v(list@);
    let mut i: usize = 0;
    assert(v.take(0) =~= Seq::<crate::ast::view::SortSpecV>::empty());
    while i < list.len()
        invariant
            v == sort_specs_v(list@),
            v.len() == list@.len(),
            i <= list.len(),
            sort_specs_ok(sort_specs_v(list@)),
            out@ == old(out)@ + sort_specs_sql(v.take(i as int)),
        decreases list.len() - i,
    {
        assert(v.take(i + 1).drop_last() =~= v.take(i as int));
        assert(v.take(i + 1).last() == v[i as int]);
        assert(v[i as int] == sort_spec_v(list@[i as int]));
        assert(expr_ok((v[i as int]).expr));
        if i > 0 {
            push_str(out, ", ");
        }
        list[i].write_sql(out);
        i += 1;
        assert(out@ =~= old(out)@ + sort_specs_sql(v.take(i as int)));
    }
    assert(v.take(list.len() as int) =~= v);
}

/// Appends `ORDER BY` clauses separated by `, `.
pub fn write_order_bys(list: &Vec<OrderBy>, out: &mut String)
    requires
        order_bys_ok(order_bys_v(list@)),
    ensures
        final(out)@ == old(out)@ + order_bys_sql(order_bys_v(list@)),
    decreases list,
{
    let ghost v = order_bys_v(list@);
    let mut i: usize = 0;
    assert(v.take(0) =~= Seq::<Seq<crate::ast::view::SortSpecV>>::empty());
    while i < list.len()
        invariant
            v == order_bys_v(list@),
            v.len() == list@.len(),
            i <= list.len(),
            order_bys_ok(order_bys_v(list@)),
            out@ == old(out)@ + order_bys_sql(v.take(i as int)),
        decreases list.len() - i,
    {
        assert(v.take(i + 1).drop_last() =~= v.take(i as int));
        assert(v.take(i + 1).last() == v[i as int]);
        assert(v[i as int] == order_by_v(list@[i as int]));
        assert(sort_specs_ok(v[i as int]));
        if i > 0 {
            push_str(out, ", ");
        }
        list[i].write_sql(out);
        i += 1;
        assert(out@ =~= old(out)@ + order_bys_sql(v.take(i as int)));
    }
    assert(v.take(list.len() as int) =~= v);
}

/// Appends window definitions separated by `, `.
pub fn write_window_defs(list: &Vec<WindowDef>, out: &mut String)
    requires
        window_defs_ok(window_defs_v(list@)),
    ensures
        final(out)@ == old(out)@ + window_defs_sql(window_defs_v(list@)),
    decreases list,
{
    let ghost v = window_defs_v(list@);
    let mut i: usize = 0;
    assert(v.take(0) =~= Seq::<crate::ast::view::WindowDefV>::empty());
    while i < list.len()
        invariant
            v == window_defs_v(list@),
            v.len() == list@.len(),
            i <= list.len(),
            window_defs_ok(window_defs_v(list@)),
            out@ == old(out)@ + window_defs_sql(v.take(i as int)),
        decreases list.len() - i,
    {
        assert(v.take(i + 1).drop_last() =~= v.take(i as int));
        assert(v.take(i + 1).last() == v[i as int]);
        assert(v[i as int] == window_def_v(list@[i as int]));
        assert(ident_quote_ok((v[i as int]).name.quote) && window_spec_ok((v[i as int]).spec));
        if i > 0 {
            push_str(out, ", ");
        }
        list[i].write_sql(out);
        i += 1;
        assert(out@ =~= old(out)@ + window_defs_sql(v.take(i as int)));
    }
    assert(v.take(list.len() as int) =~= v);
}

/// Appends common table expressions separated by `, `.
pub fn write_ctes(list: &Vec<Cte>, out: &mut String)
    requires
        ctes_ok(ctes_v(list@)),
    ensures
        final(out)@ == old(out)@ + ctes_sql(ctes_v(list@)),
    decreases list,
{
    let ghost v = ctes_v(list@);
    let mut i: usize = 0;
    assert(v.take(0) =~= Seq::<crate::ast::view::CteV>::empty());
    while i < list.len()
        invariant
            v == ctes_v(list@),
            v.len() == list@.len(),
            i <= list.len(),
            ctes_ok(ctes_v(list@)),
            out@ == old(out)@ + ctes_sql(v.take(i as int)),
        decreases list.len() - i,
    {
        assert(v.take(i + 1).drop_last() =~= v.take(i as int));
        assert(v.take(i + 1).last() == v[i as int]);
        assert(v[i as int] == cte_v(list@[i as int]));
        assert(ident_quote_ok((v[i as int]).name.quote) && ((v[i as int]).columns matches Some(c) ==> idents_ok(c)) && query_ok(*(v[i as int]).query));
        if i > 0 {
            push_str(out, ", ");
        }
        list[i].write_sql(out);
        i += 1;
        assert(out@ =~= old(out)@ + ctes_sql(v.take(i as int)));
    }
    assert(v.take(list.len() as int) =~= v);
}

/// Appends parenthesized rows separated by `, `.
pub fn write_rows(list: &Vec<Vec<Expr>>, out: &mut String)
    requires
        rows_ok(rows_v(list@)),
    ensures
        final(out)@ == old(out)@ + rows_sql(rows_v(list@)),
    decreases list,
{
    let ghost v = rows_v(list@);
    let mut i: usize = 0;
    assert(v.take(0) =~= Seq::<Seq<ExprV>>::empty());
    while i < list.len()
        invariant
            v == rows_v(list@),
            v.len() == list@.len(),
            i <= list.len(),
            rows_ok(rows_v(list@)),
            out@ == old(out)@ + rows_sql(v.take(i as int)),
        decreases list.len() - i,
    {
        assert(v.take(i + 1).drop_last() =~= v.take(i as int));
        assert(v.take(i + 1).last() == v[i as int]);
        assert(v[i as int] == exprs_v((list@[i as int])@));
        assert(exprs_ok(v[i as int]));
        if i > 0 {
            push_str(out, ", ");
        }
        push_str(out, "(");
        write_exprs(&list[i], out);
        push_str(out, ")");
        i += 1;
        assert(out@ =~= old(out)@ + rows_sql(v.take(i as int)));
    }
    assert(v.take(list.len() as int) =~= v);
}

} // verus!
