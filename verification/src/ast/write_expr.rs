//! Writing expressions and function calls as SQL text.
use vstd::prelude::*;

use crate::ast::expression::{
    BetweenExpr, BinaryOpExpr, CaseExpr, CastExpr, CollateExpr, Expr, ExtractExpr, InListExpr,
    InSubqueryExpr, IsDistinctFromExpr, IsNullExpr, ListAggExpr, ListAggOnOverflow, SubstringExpr,
    TrimExpr, TrimWhereField, UnaryOpExpr,
};
use crate::ast::function::{Function, FunctionArg};
use crate::ast::query::{
    Cte, Fetch, Limit, Offset, OffsetRows, OrderBy, Query, QueryBody, QueryBodyOperator,
    SetQuantifier, SortSpec, Values, With,
};
use crate::ast::table::{
    From, GroupBy, GroupingElement, GroupingSet, Having, Join, JoinOperator, JoinSpec, QuerySpec,
    SelectItem, TableAlias, TableFactor, TableReference, Where, Window, WindowDef, WindowFrame,
    WindowFrameBound, WindowFrameExclusion, WindowFrameUnits, WindowSpec,
};
use crate::ast::text::{
    cte_sql, ctes_sql, exprs_sql, expr_sql, fetch_sql, function_arg_sql, function_args_sql,
    function_sql, group_by_sql, grouping_element_sql, grouping_elements_sql, grouping_set_sql,
    grouping_sets_sql, idents_sql, join_space, join_spec_sql, join_sql, joins_sql, limit_sql,
    not_sql, object_name_sql, object_names_sql, offset_rows_sql, offset_sql, on_overflow_sql,
    order_by_sql, order_bys_sql, query_body_operator_sql, query_body_sql, query_spec_sql,
    query_sql, rows_sql, select_item_sql, select_items_sql, set_quantifier_sql, sort_spec_sql,
    sort_specs_sql, table_alias_sql, table_factor_sql, table_ref_sql, table_refs_sql,
    trim_where_sql, whens_sql, window_def_sql, window_defs_sql, window_frame_bound_sql,
    window_frame_exclusion_sql, window_frame_sql, window_frame_units_sql, window_spec_parts,
    window_spec_sql, with_sql,
};
use crate::ast::types::{
    idents_view, object_names_view, push_escaped, write_object_name, Ident, IdentView, ObjectName,
};
use crate::ast::valid::{
    ctes_ok, exprs_ok, expr_ok, function_args_ok, grouping_element_ok, grouping_elements_ok,
    grouping_set_ok, idents_ok, literal_ok, object_names_ok, opt_ident_ok, order_bys_ok,
    query_body_ok, query_ok, query_spec_ok, rows_ok, select_items_ok, sort_specs_ok,
    table_alias_ok, table_factor_ok, table_ref_ok, table_refs_ok, whens_ok, window_defs_ok,
    window_spec_ok, joins_ok, join_spec_ok,
};
use crate::ast::view::{
    case_whens_v, cte_v, ctes_v, exprs_v, expr_v, function_arg_v, function_args_v, function_v,
    grouping_element_v, grouping_elements_v, grouping_set_v, grouping_sets_v, join_spec_v, join_v,
    joins_v, opt_expr_v, opt_ident_v, order_by_v, order_bys_v, query_body_v, query_spec_v, query_v,
    rows_v, select_item_v, select_items_v, sort_spec_v, sort_specs_v, table_alias_v,
    table_factor_v, table_ref_v, table_refs_v, window_def_v, window_defs_v, window_spec_v, with_v,
    ExprV, FunctionArgV, JoinOperatorV, SelectItemV,
};
use crate::text::{push_decimal, push_str};
use crate::ast::write_query::write_order_bys;
use crate::token::ident_quote_ok;

verus! {

broadcast use {vstd::std_specs::vec::axiom_vec_index_decreases, crate::ast::view::group_expr_v, crate::ast::view::group_query_body_v, crate::ast::view::group_table_factor_v};

// ============================================================================
// Expressions
// ============================================================================

/// Appends `prefix` and the expression, if there is one.
fn write_opt_expr(out: &mut String, prefix: &str, e: &Option<Box<Expr>>)
    requires
        crate::ast::valid::opt_expr_ok(opt_expr_v(*e)),
    ensures
        final(out)@ == old(out)@ + match opt_expr_v(*e) {
            Some(x) => prefix@ + expr_sql(*x),
            None => Seq::empty(),
        },
    decreases e,
{
    match e {
        Some(x) => {
            push_str(out, prefix);
            x.write_sql(out);
        },
        None => {},
    }
    assert(out@ =~= old(out)@ + match opt_expr_v(*e) {
        Some(x) => prefix@ + expr_sql(*x),
        None => Seq::<char>::empty(),
    });
}

/// Appends `NOT ` if `negated`.
fn write_not(out: &mut String, negated: bool)
    ensures
        final(out)@ == old(out)@ + not_sql(negated),
{
    if negated {
        push_str(out, "NOT ");
    }
    assert(out@ =~= old(out)@ + not_sql(negated));
}

impl Expr {
    /// Appends the text of the expression.
    pub fn write_sql(&self, out: &mut String)
        requires
            expr_ok(expr_v(*self)),
        ensures
            final(out)@ == old(out)@ + expr_sql(expr_v(*self)),
        decreases self,
    {
        match self {
            Expr::Literal(v) => v.write_sql(out),
            Expr::TypedString { data_type, value } => {
                assert(*self == Expr::TypedString { data_type: *data_type, value: *value });
                data_type.write_sql(out);
                push_str(out, " '");
                push_escaped(out, value.as_str());
                push_str(out, "'");
                assert(out@ =~= old(out)@ + expr_sql(expr_v(*self)));
            },
            Expr::Identifier(i) => i.write_sql(out),
            Expr::Wildcard => push_str(out, "*"),
            Expr::QualifiedWildcard(ids) => {
                write_object_name(out, ids);
                push_str(out, ".*");
                assert(out@ =~= old(out)@ + expr_sql(expr_v(*self)));
            },
            Expr::CompoundIdentifier(ids) => write_object_name(out, ids),
            Expr::Nested(x) => {
                push_str(out, "(");
                x.write_sql(out);
                push_str(out, ")");
                assert(out@ =~= old(out)@ + expr_sql(expr_v(*self)));
            },
            Expr::Exists(q) => {
                push_str(out, "EXISTS (");
                q.write_sql(out);
                push_str(out, ")");
                assert(out@ =~= old(out)@ + expr_sql(expr_v(*self)));
            },
            Expr::Subquery(q) => {
                push_str(out, "(");
                q.write_sql(out);
                push_str(out, ")");
                assert(out@ =~= old(out)@ + expr_sql(expr_v(*self)));
            },
            Expr::IsNull(x) => x.write_sql(out),
            Expr::IsDistinctFrom(x) => x.write_sql(out),
            Expr::UnaryOp(x) => x.write_sql(out),
            Expr::BinaryOp(x) => x.write_sql(out),
            Expr::InList(x) => x.write_sql(out),
            Expr::InSubquery(x) => x.write_sql(out),
            Expr::Between(x) => x.write_sql(out),
            Expr::Case(x) => x.write_sql(out),
            Expr::Collate(x) => x.write_sql(out),
            Expr::Cast(x) => x.write_sql(out),
            Expr::Extract(x) => x.write_sql(out),
            Expr::Substring(x) => x.write_sql(out),
            Expr::Trim(x) => x.write_sql(out),
            Expr::ListAgg(x) => x.write_sql(out),
            Expr::Function(f) => f.write_sql(out),
        }
    }

    /// The text of the expression.
    pub fn to_string(&self) -> (s: String)
        requires
            expr_ok(expr_v(*self)),
        ensures
            s@ == expr_sql(expr_v(*self)),
    {
        let mut s = String::new();
        self.write_sql(&mut s);
        s
    }
}

impl IsNullExpr {
    /// Appends `<expr> IS [NOT] NULL`.
    pub fn write_sql(&self, out: &mut String)
        requires
            expr_ok(expr_v(Expr::IsNull(*self))),
        ensures
            final(out)@ == old(out)@ + expr_sql(expr_v(Expr::IsNull(*self))),
        decreases self,
    {
        self.expr.write_sql(out);
        push_str(out, " IS ");
        write_not(out, self.negated);
        push_str(out, "NULL");
        assert(out@ =~= old(out)@ + expr_sql(expr_v(Expr::IsNull(*self))));
    }
}

impl IsDistinctFromExpr {
    /// Appends `<left> IS [NOT] DISTINCT FROM <right>`.
    pub fn write_sql(&self, out: &mut String)
        requires
            expr_ok(expr_v(Expr::IsDistinctFrom(*self))),
        ensures
            final(out)@ == old(out)@ + expr_sql(expr_v(Expr::IsDistinctFrom(*self))),
        decreases self,
    {
        self.left.write_sql(out);
        push_str(out, " IS ");
        write_not(out, self.negated);
        push_str(out, "DISTINCT FROM ");
        self.right.write_sql(out);
        assert(out@ =~= old(out)@ + expr_sql(expr_v(Expr::IsDistinctFrom(*self))));
    }
}

impl UnaryOpExpr {
    /// Appends `<op> <expr>`.
    pub fn write_sql(&self, out: &mut String)
        requires
            expr_ok(expr_v(Expr::UnaryOp(*self))),
        ensures
            final(out)@ == old(out)@ + expr_sql(expr_v(Expr::UnaryOp(*self))),
        decreases self,
    {
        self.op.write_sql(out);
        push_str(out, " ");
        self.expr.write_sql(out);
        assert(out@ =~= old(out)@ + expr_sql(expr_v(Expr::UnaryOp(*self))));
    }
}

impl BinaryOpExpr {
    /// Appends `<left> <op> <right>`.
    pub fn write_sql(&self, out: &mut String)
        requires
            expr_ok(expr_v(Expr::BinaryOp(*self))),
        ensures
            final(out)@ == old(out)@ + expr_sql(expr_v(Expr::BinaryOp(*self))),
        decreases self,
    {
        self.left.write_sql(out);
        push_str(out, " ");
        self.op.write_sql(out);
        push_str(out, " ");
        self.right.write_sql(out);
        assert(out@ =~= old(out)@ + expr_sql(expr_v(Expr::BinaryOp(*self))));
    }
}

impl InListExpr {
    /// Appends `<expr> [NOT] IN (<list>)`.
    pub fn write_sql(&self, out: &mut String)
        requires
            expr_ok(expr_v(Expr::InList(*self))),
        ensures
            final(out)@ == old(out)@ + expr_sql(expr_v(Expr::InList(*self))),
        decreases self,
    {
        self.expr.write_sql(out);
        push_str(out, " ");
        write_not(out, self.negated);
        push_str(out, "IN (");
        write_exprs(&self.list, out);
        push_str(out, ")");
        assert(out@ =~= old(out)@ + expr_sql(expr_v(Expr::InList(*self))));
    }
}

impl InSubqueryExpr {
    /// Appends `<expr> [NOT] IN (<subquery>)`.
    pub fn write_sql(&self, out: &mut String)
        requires
            expr_ok(expr_v(Expr::InSubquery(*self))),
        ensures
            final(out)@ == old(out)@ + expr_sql(expr_v(Expr::InSubquery(*self))),
        decreases self,
    {
        self.expr.write_sql(out);
        push_str(out, " ");
        write_not(out, self.negated);
        push_str(out, "IN (");
        self.subquery.write_sql(out);
        push_str(out, ")");
        assert(out@ =~= old(out)@ + expr_sql(expr_v(Expr::InSubquery(*self))));
    }
}

impl BetweenExpr {
    /// Appends `<expr> [NOT] BETWEEN <low> AND <high>`.
    pub fn write_sql(&self, out: &mut String)
        requires
            expr_ok(expr_v(Expr::Between(*self))),
        ensures
            final(out)@ == old(out)@ + expr_sql(expr_v(Expr::Between(*self))),
        decreases self,
    {
        self.expr.write_sql(out);
        push_str(out, " ");
        write_not(out, self.negated);
        push_str(out, "BETWEEN ");
        self.low.write_sql(out);
        push_str(out, " AND ");
        self.high.write_sql(out);
        assert(out@ =~= old(out)@ + expr_sql(expr_v(Expr::Between(*self))));
    }
}

impl CaseExpr {
    /// Appends `CASE [<operand>] WHEN .. THEN .. [ELSE ..] END`.
    pub fn write_sql(&self, out: &mut String)
        requires
            expr_ok(expr_v(Expr::Case(*self))),
        ensures
            final(out)@ == old(out)@ + expr_sql(expr_v(Expr::Case(*self))),
        decreases self,
    {
        let ghost x = *self;
        let ghost w = case_whens_v(x);
        push_str(out, "CASE");
        write_opt_expr(out, " ", &self.operand);
        let ghost o1 = out@;
        let n = if self.conditions.len() <= self.results.len() {
            self.conditions.len()
        } else {
            self.results.len()
        };
        let mut i: usize = 0;
        assert(w.take(0) =~= Seq::<(ExprV, ExprV)>::empty());
        while i < n
            invariant
                x == *self,
                w == case_whens_v(x),
                w.len() == n,
                i <= n,
                n <= self.conditions.len(),
                n <= self.results.len(),
                whens_ok(w),
                out@ == o1 + whens_sql(w.take(i as int)),
            decreases n - i,
        {
            proof {
                assert(w[i as int] == (expr_v(x.conditions@[i as int]), expr_v(x.results@[i as int])));
                assert(expr_ok(w[i as int].0) && expr_ok(w[i as int].1));
                assert(w.take(i + 1).drop_last() =~= w.take(i as int));
                assert(w.take(i + 1).last() == w[i as int]);
            }
            push_str(out, " WHEN ");
            self.conditions[i].write_sql(out);
            push_str(out, " THEN ");
            self.results[i].write_sql(out);
            i += 1;
            assert(out@ =~= o1 + whens_sql(w.take(i as int)));
        }
        assert(w.take(n as int) =~= w);
        write_opt_expr(out, " ELSE ", &self.else_result);
        push_str(out, " END");
        assert(out@ =~= old(out)@ + expr_sql(expr_v(Expr::Case(*self))));
    }
}

impl CollateExpr {
    /// Appends `<expr> COLLATE <collation>`.
    pub fn write_sql(&self, out: &mut String)
        requires
            expr_ok(expr_v(Expr::Collate(*self))),
        ensures
            final(out)@ == old(out)@ + expr_sql(expr_v(Expr::Collate(*self))),
        decreases self,
    {
        self.expr.write_sql(out);
        push_str(out, " COLLATE ");
        self.collation.write_sql(out);
        assert(out@ =~= old(out)@ + expr_sql(expr_v(Expr::Collate(*self))));
    }
}

impl CastExpr {
    /// Appends `[TRY_]CAST(<expr> AS <data type>)`.
    pub fn write_sql(&self, out: &mut String)
        requires
            expr_ok(expr_v(Expr::Cast(*self))),
        ensures
            final(out)@ == old(out)@ + expr_sql(expr_v(Expr::Cast(*self))),
        decreases self,
    {
        if self.try_cast {
            push_str(out, "TRY_CAST(");
        } else {
            push_str(out, "CAST(");
        }
        self.expr.write_sql(out);
        push_str(out, " AS ");
        self.data_type.write_sql(out);
        push_str(out, ")");
        assert(out@ =~= old(out)@ + expr_sql(expr_v(Expr::Cast(*self))));
    }
}

impl ExtractExpr {
    /// Appends `EXTRACT(<field> FROM <expr>)`.
    pub fn write_sql(&self, out: &mut String)
        requires
            expr_ok(expr_v(Expr::Extract(*self))),
        ensures
            final(out)@ == old(out)@ + expr_sql(expr_v(Expr::Extract(*self))),
        decreases self,
    {
        push_str(out, "EXTRACT(");
        self.field.write_sql(out);
        push_str(out, " FROM ");
        self.expr.write_sql(out);
        push_str(out, ")");
        assert(out@ =~= old(out)@ + expr_sql(expr_v(Expr::Extract(*self))));
    }
}

impl SubstringExpr {
    /// Appends `SUBSTRING(<expr> [FROM <expr>] [FOR <expr>])`.
    pub fn write_sql(&self, out: &mut String)
        requires
            expr_ok(expr_v(Expr::Substring(*self))),
        ensures
            final(out)@ == old(out)@ + expr_sql(expr_v(Expr::Substring(*self))),
        decreases self,
    {
        push_str(out, "SUBSTRING(");
        self.expr.write_sql(out);
        write_opt_expr(out, " FROM ", &self.substring_from);
        write_opt_expr(out, " FOR ", &self.substring_for);
        push_str(out, ")");
        assert(out@ =~= old(out)@ + expr_sql(expr_v(Expr::Substring(*self))));
    }
}

impl TrimWhereField {
    /// Appends `BOTH`, `LEADING` or `TRAILING`.
    pub fn write_sql(&self, out: &mut String)
        ensures
            final(out)@ == old(out)@ + trim_where_sql(*self),
    {
        match self {
            TrimWhereField::Both => push_str(out, "BOTH"),
            TrimWhereField::Leading => push_str(out, "LEADING"),
            TrimWhereField::Trailing => push_str(out, "TRAILING"),
        }
    }
}

impl TrimExpr {
    /// Appends `TRIM([<where> <chars> FROM] <expr>)`.
    pub fn write_sql(&self, out: &mut String)
        requires
            expr_ok(expr_v(Expr::Trim(*self))),
        ensures
            final(out)@ == old(out)@ + expr_sql(expr_v(Expr::Trim(*self))),
        decreases self,
    {
        push_str(out, "TRIM(");
        match &self.trim_where {
            Some((w, c)) => {
                w.write_sql(out);
                push_str(out, " ");
                c.write_sql(out);
                push_str(out, " FROM ");
                self.expr.write_sql(out);
            },
            None => {
                self.expr.write_sql(out);
            },
        }
        push_str(out, ")");
        assert(out@ =~= old(out)@ + expr_sql(expr_v(Expr::Trim(*self))));
    }
}

impl ListAggOnOverflow {
    /// Appends ` ON OVERFLOW ERROR` or ` ON OVERFLOW TRUNCATE [<filler>] WITH[OUT] COUNT`.
    pub fn write_sql(&self, out: &mut String)
        requires
            match crate::ast::view::on_overflow_v(*self) {
                crate::ast::view::OnOverflowV::Truncate { filler, .. } => crate::ast::valid::opt_expr_ok(filler),
                _ => true,
            },
        ensures
            final(out)@ == old(out)@ + on_overflow_sql(crate::ast::view::on_overflow_v(*self)),
        decreases self,
    {
        push_str(out, " ON OVERFLOW");
        match self {
            ListAggOnOverflow::Error => push_str(out, " ERROR"),
            ListAggOnOverflow::Truncate { filler, with_count } => {
                push_str(out, " TRUNCATE");
                write_opt_expr(out, " ", filler);
                if *with_count {
                    push_str(out, " WITH");
                } else {
                    push_str(out, " WITHOUT");
                }
                push_str(out, " COUNT");
            },
        }
        assert(out@ =~= old(out)@ + on_overflow_sql(crate::ast::view::on_overflow_v(*self)));
    }
}

impl ListAggExpr {
    /// Appends `LISTAGG(..) [WITHIN GROUP (ORDER BY ..)]`.
    pub fn write_sql(&self, out: &mut String)
        requires
            expr_ok(expr_v(Expr::ListAgg(*self))),
        ensures
            final(out)@ == old(out)@ + expr_sql(expr_v(Expr::ListAgg(*self))),
        decreases self,
    {
        push_str(out, "LISTAGG(");
        if self.distinct {
            push_str(out, "DISTINCT ");
        }
        self.expr.write_sql(out);
        write_opt_expr(out, ", ", &self.separator);
        match &self.on_overflow {
            Some(o) => o.write_sql(out),
            None => {},
        }
        push_str(out, ")");
        let ghost o1 = out@;
        if self.within_group.len() > 0 {
            push_str(out, " WITHIN GROUP (ORDER BY ");
            write_order_bys(&self.within_group, out);
            push_str(out, ")");
        }
        assert(out@ =~= old(out)@ + expr_sql(expr_v(Expr::ListAgg(*self))));
    }
}

// ============================================================================
// Function calls
// ============================================================================

impl Function {
    /// Appends `<name>([DISTINCT] <args>) [OVER (<window>)]`.
    pub fn write_sql(&self, out: &mut String)
        requires
            crate::ast::valid::function_ok(function_v(*self)),
        ensures
            final(out)@ == old(out)@ + function_sql(function_v(*self)),
        decreases self,
    {
        self.name.write_sql(out);
        push_str(out, "(");
        if self.distinct {
            push_str(out, "DISTINCT ");
        }
        write_function_args(&self.args, out);
        push_str(out, ")");
        match &self.over {
            Some(w) => {
                push_str(out, " OVER (");
                w.write_sql(out);
                push_str(out, ")");
            },
            None => {},
        }
        assert(out@ =~= old(out)@ + function_sql(function_v(*self)));
    }
}

impl FunctionArg {
    /// Appends `<name> => <arg>` or `<arg>`.
    pub fn write_sql(&self, out: &mut String)
        requires
            match function_arg_v(*self) {
                FunctionArgV::Named { name, arg } => ident_quote_ok(name.quote) && expr_ok(arg),
                FunctionArgV::Unnamed(arg) => expr_ok(arg),
            },
        ensures
            final(out)@ == old(out)@ + function_arg_sql(function_arg_v(*self)),
        decreases self,
    {
        match self {
            FunctionArg::Named { name, arg } => {
                name.write_sql(out);
                push_str(out, " => ");
                arg.write_sql(out);
            },
            FunctionArg::Unnamed(arg) => arg.write_sql(out),
        }
        assert(out@ =~= old(out)@ + function_arg_sql(function_arg_v(*self)));
    }
}

/// Joining one more part with spaces appends a space (unless it is the
/// first part) and the part.
proof fn lemma_join_space_push(parts: Seq<Seq<char>>, x: Seq<char>)
    ensures
        join_space(parts.push(x)) == if parts.len() == 0 {
            x
        } else {
            join_space(parts) + " "@ + x
        },
{
    assert(parts.push(x).drop_last() =~= parts);
    if parts.len() == 0 {
        assert(parts.push(x)[0] == x);
    }
}

/// Appends a space if `any`.
fn write_space_if(out: &mut String, any: bool)
    ensures
        final(out)@ == if any {
            old(out)@ + " "@
        } else {
            old(out)@
        },
{
    if any {
        push_str(out, " ");
    }
}

impl WindowSpec {
    /// Appends the parts of the window specification that are present,
    /// separated by spaces.
    #[verifier::spinoff_prover]
    #[verifier::rlimit(50)]
    pub fn write_sql(&self, out: &mut String)
        requires
            window_spec_ok(window_spec_v(*self)),
        ensures
            final(out)@ == old(out)@ + window_spec_sql(window_spec_v(*self)),
        decreases self,
    {
        let ghost w = window_spec_v(*self);
        let ghost mut parts: Seq<Seq<char>> = Seq::empty();
        let mut any = false;
        assert(out@ =~= old(out)@ + join_space(parts));
        if let Some(name) = &self.name {
            let ghost x = crate::token::spec_ident_sql(name@);
            name.write_sql(out);
            proof {
                lemma_join_space_push(parts, x);
                parts = parts.push(x);
            }
            any = true;
        }
        let ghost p1 = parts;
        assert(out@ =~= old(out)@ + join_space(parts));
        if let Some(p) = &self.partition_by {
            let ghost x = "PARTITION BY "@ + object_names_sql(object_names_view(p@));
            write_space_if(out, any);
            push_str(out, "PARTITION BY ");
            write_object_names(p, out);
            proof {
                lemma_join_space_push(parts, x);
                parts = parts.push(x);
            }
            any = true;
        }
        let ghost p2 = parts;
        assert(out@ =~= old(out)@ + join_space(parts));
        if let Some(o) = &self.order_by {
            let ghost x = order_by_sql(order_by_v(*o));
            write_space_if(out, any);
            o.write_sql(out);
            proof {
                lemma_join_space_push(parts, x);
                parts = parts.push(x);
            }
            any = true;
        }
        let ghost p3 = parts;
        assert(out@ =~= old(out)@ + join_space(parts));
        if let Some(f) = &self.window_frame {
            let ghost x = window_frame_sql(*f);
            write_space_if(out, any);
            f.write_sql(out);
            proof {
                lemma_join_space_push(parts, x);
                parts = parts.push(x);
            }
        }
        assert(out@ =~= old(out)@ + join_space(parts));
        assert(parts =~= window_spec_parts(w));
    }
}

impl WindowDef {
    /// Appends `<name> AS (<spec>)`.
    pub fn write_sql(&self, out: &mut String)
        requires
            ident_quote_ok(self.name.quote),
            window_spec_ok(window_spec_v(self.spec)),
        ensures
            final(out)@ == old(out)@ + window_def_sql(window_def_v(*self)),
        decreases self,
    {
        self.name.write_sql(out);
        push_str(out, " AS (");
        self.spec.write_sql(out);
        push_str(out, ")");
        assert(out@ =~= old(out)@ + window_def_sql(window_def_v(*self)));
    }
}

impl WindowFrameUnits {
    /// Appends `ROWS`, `RANGE` or `GROUPS`.
    pub fn write_sql(&self, out: &mut String)
        ensures
            final(out)@ == old(out)@ + window_frame_units_sql(*self),
    {
        match self {
            WindowFrameUnits::Rows => push_str(out, "ROWS"),
            WindowFrameUnits::Range => push_str(out, "RANGE"),
            WindowFrameUnits::Groups => push_str(out, "GROUPS"),
        }
    }
}

impl WindowFrameBound {
    /// Appends the bound.
    pub fn write_sql(&self, out: &mut String)
        ensures
            final(out)@ == old(out)@ + window_frame_bound_sql(*self),
    {
        match self {
            WindowFrameBound::CurrentRow => push_str(out, "CURRENT ROW"),
            WindowFrameBound::Preceding(None) => push_str(out, "UNBOUNDED PRECEDING"),
            WindowFrameBound::Preceding(Some(n)) => {
                push_decimal(out, *n);
                push_str(out, " PRECEDING");
            },
            WindowFrameBound::Following(None) => push_str(out, "UNBOUNDED FOLLOWING"),
            WindowFrameBound::Following(Some(n)) => {
                push_decimal(out, *n);
                push_str(out, " FOLLOWING");
            },
        }
        assert(out@ =~= old(out)@ + window_frame_bound_sql(*self));
    }
}

impl WindowFrameExclusion {
    /// Appends the exclusion.
    pub fn write_sql(&self, out: &mut String)
        ensures
            final(out)@ == old(out)@ + window_frame_exclusion_sql(*self),
    {
        match self {
            WindowFrameExclusion::CurrentRow => push_str(out, "CURRENT ROW"),
            WindowFrameExclusion::Group => push_str(out, "GROUP"),
            WindowFrameExclusion::Ties => push_str(out, "TIES"),
            WindowFrameExclusion::NoOthers => push_str(out, "NO OTHERS"),
        }
    }
}

impl WindowFrame {
    /// Appends `<units> BETWEEN <start> AND <end>` or `<units> <start>`, and
    /// ` EXCLUDE <exclusion>` if there is one.
    pub fn write_sql(&self, out: &mut String)
        ensures
            final(out)@ == old(out)@ + window_frame_sql(*self),
    {
        self.units.write_sql(out);
        match self.end_bound {
            Some(end) => {
                push_str(out, " BETWEEN ");
                self.start_bound.write_sql(out);
                push_str(out, " AND ");
                end.write_sql(out);
            },
            None => {
                push_str(out, " ");
                self.start_bound.write_sql(out);
            },
        }
        if let Some(e) = self.exclusion {
            push_str(out, " EXCLUDE ");
            e.write_sql(out);
        }
        assert(out@ =~= old(out)@ + window_frame_sql(*self));
    }

    /// The text of the window frame.
    pub fn to_string(&self) -> (s: String)
        ensures
            s@ == window_frame_sql(*self),
    {
        let mut s = String::new();
        self.write_sql(&mut s);
        s
    }
}


/// Appends expressions separated by `, `.
pub fn write_exprs(list: &Vec<Expr>, out: &mut String)
    requires
        exprs_ok(exprs_v(list@)),
    ensures
        final(out)@ == old(out)@ + exprs_sql(exprs_v(list@)),
    decreases list,
{
    let ghost v = exprs_v(list@);
    let mut i: usize = 0;
    assert(v.take(0) =~= Seq::<ExprV>::empty());
    while i < list.len()
        invariant
            v == exprs_v(list@),
            v.len() == list@.len(),
            i <= list.len(),
            exprs_ok(exprs_v(list@)),
            out@ == old(out)@ + exprs_sql(v.take(i as int)),
        decreases list.len() - i,
    {
        assert(v.take(i + 1).drop_last() =~= v.take(i as int));
        assert(v.take(i + 1).last() == v[i as int]);
        assert(v[i as int] == expr_v(list@[i as int]));
        assert(expr_ok(v[i as int]));
        if i > 0 {
            push_str(out, ", ");
        }
        list[i].write_sql(out);
        i += 1;
        assert(out@ =~= old(out)@ + exprs_sql(v.take(i as int)));
    }
    assert(v.take(list.len() as int) =~= v);
}

/// Appends function arguments separated by `, `.
pub fn write_function_args(list: &Vec<FunctionArg>, out: &mut String)
    requires
        function_args_ok(function_args_v(list@)),
    ensures
        final(out)@ == old(out)@ + function_args_sql(function_args_v(list@)),
    decreases list,
{
    let ghost v = function_args_v(list@);
    let mut i: usize = 0;
    assert(v.take(0) =~= Seq::<FunctionArgV>::empty());
    while i < list.len()
        invariant
            v == function_args_v(list@),
            v.len() == list@.len(),
            i <= list.len(),
            function_args_ok(function_args_v(list@)),
            out@ == old(out)@ + function_args_sql(v.take(i as int)),
        decreases list.len() - i,
    {
        assert(v.take(i + 1).drop_last() =~= v.take(i as int));
        assert(v.take(i + 1).last() == v[i as int]);
        assert(v[i as int] == function_arg_v(list@[i as int]));
        assert(match v[i as int] { FunctionArgV::Named { name, arg } => ident_quote_ok(name.quote) && expr_ok(arg), FunctionArgV::Unnamed(arg) => expr_ok(arg) });
        if i > 0 {
            push_str(out, ", ");
        }
        list[i].write_sql(out);
        i += 1;
        assert(out@ =~= old(out)@ + function_args_sql(v.take(i as int)));
    }
    assert(v.take(list.len() as int) =~= v);
}

/// Appends identifiers separated by `, `.
pub fn write_idents(list: &Vec<Ident>, out: &mut String)
    requires
        idents_ok(idents_view(list@)),
    ensures
        final(out)@ == old(out)@ + idents_sql(idents_view(list@)),
    decreases list,
{
    let ghost v = idents_view(list@);
    let mut i: usize = 0;
    assert(v.take(0) =~= Seq::<IdentView>::empty());
    while i < list.len()
        invariant
            v == idents_view(list@),
            v.len() == list@.len(),
            i <= list.len(),
            idents_ok(idents_view(list@)),
            out@ == old(out)@ + idents_sql(v.take(i as int)),
        decreases list.len() - i,
    {
        assert(v.take(i + 1).drop_last() =~= v.take(i as int));
        assert(v.take(i + 1).last() == v[i as int]);
        assert(v[i as int] == list@[i as int]@);
        assert(ident_quote_ok((v[i as int]).quote));
        if i > 0 {
            push_str(out, ", ");
        }
        list[i].write_sql(out);
        i += 1;
        assert(out@ =~= old(out)@ + idents_sql(v.take(i as int)));
    }
    assert(v.take(list.len() as int) =~= v);
}

/// Appends object names separated by `, `.
pub fn write_object_names(list: &Vec<ObjectName>, out: &mut String)
    requires
        object_names_ok(object_names_view(list@)),
    ensures
        final(out)@ == old(out)@ + object_names_sql(object_names_view(list@)),
    decreases list,
{
    let ghost v = object_names_view(list@);
    let mut i: usize = 0;
    assert(v.take(0) =~= Seq::<Seq<IdentView>>::empty());
    while i < list.len()
        invariant
            v == object_names_view(list@),
            v.len() == list@.len(),
            i <= list.len(),
            object_names_ok(object_names_view(list@)),
            out@ == old(out)@ + object_names_sql(v.take(i as int)),
        decreases list.len() - i,
    {
        assert(v.take(i + 1).drop_last() =~= v.take(i as int));
        assert(v.take(i + 1).last() == v[i as int]);
        assert(v[i as int] == (list@[i as int])@);
        assert(idents_ok(v[i as int]));
        if i > 0 {
            push_str(out, ", ");
        }
        list[i].write_sql(out);
        i += 1;
        assert(out@ =~= old(out)@ + object_names_sql(v.take(i as int)));
    }
    assert(v.take(list.len() as int) =~= v);
}

} // verus!
