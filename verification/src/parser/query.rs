//! Parsing query expressions: `WITH`, set operations, `ORDER BY`, `OFFSET`,
//! `LIMIT` and `FETCH`.
use vstd::prelude::*;

use crate::ast::expression::Expr;
use crate::ast::query::{
    Cte, Fetch, Limit, Offset, OffsetRows, OrderBy, Query, QueryBody, QueryBodyOperator,
    SetQuantifier, SortSpec, Values, With,
};
use crate::ast::table::{From, QuerySpec, SelectItem};
use crate::ast::types::{idents_view, Ident, LiteralView, ObjectName};
use crate::dialect::Dialect;
use crate::keyword_table::Keyword;
use crate::parser::table::list_prepend;
use crate::parser::types::{lemma_step_advanced, skip_state, spec_literal, spec_object_name, word_ident};
use crate::parser::{
    advanced, consumed, keywords_follow, lemma_consumed_trans, lemma_next_consumed,
    lemma_two_keywords_follow, peek_is_keyword, ParserError, Parser,
};
use crate::peek::{spec_next, spec_next_state, spec_peek, PeekState};
use crate::token::{is_keyword_token, IdentView, Token, TokenView};
use crate::parser::{error_view, opt_token_view, spec_expected_message};
use crate::keyword_table::spec_keyword_name;
use crate::ast::text::{
    expr_sql, offset_rows_sql, query_body_operator_sql, set_quantifier_sql, sort_spec_sql,
};
use crate::token::spec_token_sql;
use crate::ast::view::{
    cte_v, ctes_v, expr_v, grouping_elements_v, query_body_v, query_spec_v, query_v, with_v,
    table_refs_v, CteV, GroupingElementV, QueryBodyV,
    QuerySpecV, QueryV, TableFactorV, TableReferenceV, WithV,
    select_item_v, select_items_v, sort_spec_v, sort_specs_v, ExprV, SelectItemV, SortSpecV,
};
use crate::parser::constraints::{first_keyword, two_keywords};
use crate::parser::grammar::{
    lemma_list_len, lemma_subexpr_len, list_tail, meets, prepend, shift, spec_list,
    spec_subexpr, Parsed,
};
use crate::parser::table::{
    lemma_clause_parts_len, lemma_table_refs_len, spec_condition_clause, spec_group_by_part,
    spec_table_alias,
    spec_table_refs, spec_window_part,
};

verus! {

/// `ASC`, `DESC` or nothing at the front of the tokens.
pub open spec fn spec_asc(t: Seq<Token>) -> (Option<bool>, nat) {
    if first_keyword(t, Keyword::ASC) {
        (Some(true), 1)
    } else if first_keyword(t, Keyword::DESC) {
        (Some(false), 1)
    } else {
        (None, 0)
    }
}

/// `NULLS FIRST`, `NULLS LAST` or nothing at the front of the tokens.
pub open spec fn spec_nulls_first(t: Seq<Token>) -> (Option<bool>, nat) {
    if two_keywords(t, Keyword::NULLS, Keyword::FIRST) {
        (Some(true), 2)
    } else if two_keywords(t, Keyword::NULLS, Keyword::LAST) {
        (Some(false), 2)
    } else {
        (None, 0)
    }
}

/// An ordering keyword writes back as itself: the text of a sort
/// specification whose order was read by `spec_asc` is its expression,
/// then a space and the `ASC` or `DESC` token read, or nothing.
pub proof fn law_sort_order_is_its_keyword(t: Seq<Token>, e: ExprV)
    ensures
        sort_spec_sql(SortSpecV { expr: e, asc: spec_asc(t).0, nulls_first: None }) == expr_sql(e) + (
        if spec_asc(t).1 == 1 {
            " "@ + spec_token_sql(t[0]@)
        } else {
            Seq::empty()
        }),
        spec_asc(t).1 == 1 || spec_asc(t).1 == 0,
{
    reveal_strlit("ASC");
    reveal_strlit("DESC");
    reveal_strlit(" ASC");
    reveal_strlit(" DESC");
    reveal_strlit(" ");
    assert(" ASC"@ =~= " "@ + "ASC"@);
    assert(" DESC"@ =~= " "@ + "DESC"@);
    assert(expr_sql(e) + Seq::<char>::empty() + Seq::<char>::empty() =~= expr_sql(e)
        + Seq::<char>::empty());
    assert(expr_sql(e) + " ASC"@ + Seq::<char>::empty() =~= expr_sql(e) + " ASC"@);
    assert(expr_sql(e) + " DESC"@ + Seq::<char>::empty() =~= expr_sql(e) + " DESC"@);
}

/// A `NULLS FIRST` or `NULLS LAST` ordering writes back as the keywords it
/// was read from, each after a space.
pub proof fn law_nulls_order_is_its_keywords(t: Seq<Token>, e: ExprV)
    ensures
        sort_spec_sql(SortSpecV { expr: e, asc: None, nulls_first: spec_nulls_first(t).0 })
            == expr_sql(e) + (if spec_nulls_first(t).1 == 2 {
            " "@ + spec_token_sql(t[0]@) + " "@ + spec_token_sql(t[1]@)
        } else {
            Seq::empty()
        }),
        spec_nulls_first(t).1 == 2 || spec_nulls_first(t).1 == 0,
{
    reveal_strlit("NULLS");
    reveal_strlit("FIRST");
    reveal_strlit("LAST");
    reveal_strlit(" NULLS FIRST");
    reveal_strlit(" NULLS LAST");
    reveal_strlit(" ");
    assert(" NULLS FIRST"@ =~= " "@ + "NULLS"@ + " "@ + "FIRST"@);
    assert(" NULLS LAST"@ =~= " "@ + "NULLS"@ + " "@ + "LAST"@);
    assert(expr_sql(e) + Seq::<char>::empty() + Seq::<char>::empty() =~= expr_sql(e)
        + Seq::<char>::empty());
    assert(expr_sql(e) + Seq::<char>::empty() + " NULLS FIRST"@ =~= expr_sql(e) + " NULLS FIRST"@);
    assert(expr_sql(e) + Seq::<char>::empty() + " NULLS LAST"@ =~= expr_sql(e) + " NULLS LAST"@);
}

/// A sort specification at the front of the tokens:
/// `<expression> [ ASC | DESC ] [ NULLS FIRST | NULLS LAST ]`.
#[verifier::opaque]
pub open spec fn spec_sort_spec(s: Seq<Token>) -> Parsed<SortSpecV> 
    decreases s.len(), 4nat,
{
    match spec_subexpr(s, 0) {
        Parsed::Done(e, n) => {
            let t = s.skip(n as int);
            let (asc, a) = spec_asc(t);
            let (nulls_first, b) = spec_nulls_first(t.skip(a as int));
            Parsed::Done(SortSpecV { expr: e, asc, nulls_first }, n + a + b)
        },
        Parsed::Fails => Parsed::Fails,
    }
}

/// Sort specifications separated by commas at the front of the tokens.
pub open spec fn spec_sort_specs(s: Seq<Token>) -> Parsed<Seq<SortSpecV>>
    decreases s.len(), 5nat,
{
    match spec_sort_spec(s) {
        Parsed::Done(e, n) => if 0 < n <= s.len() {
            prepend(seq![e], spec_sort_specs_tail(s.skip(n as int)), n)
        } else {
            Parsed::Fails
        },
        Parsed::Fails => Parsed::Fails,
    }
}

/// What follows an item of the list: `, <item>` again and again.
pub open spec fn spec_sort_specs_tail(t: Seq<Token>) -> Parsed<Seq<SortSpecV>>
    decreases t.len(), 5nat,
{
    if t.len() > 0 && t[0]@ == TokenView::Comma {
        shift(spec_sort_specs(t.skip(1)), 1)
    } else {
        Parsed::Done(Seq::empty(), 0)
    }
}

/// The list is the comma-separated list of its items.
pub proof fn lemma_sort_specs_is_list(s: Seq<Token>)
    ensures
        spec_sort_specs(s) == spec_list(s, |t: Seq<Token>| spec_sort_spec(t)),
    decreases s.len(),
{
    reveal(spec_sort_spec);
    if let Parsed::Done(e, n) = spec_sort_spec(s) {
        if 0 < n <= s.len() {
            let t = s.skip(n as int);
            if t.len() > 0 && t[0]@ == TokenView::Comma {
                lemma_sort_specs_is_list(t.skip(1));
            }
        }
    }
}

/// The list takes at least one token and no more than there are.
pub proof fn lemma_sort_specs_len(s: Seq<Token>)
    ensures
        spec_sort_specs(s) matches Parsed::Done(_, n) ==> 0 < n <= s.len(),
{
    lemma_sort_specs_is_list(s);
    lemma_list_len(s, |t: Seq<Token>| spec_sort_spec(t));
}

/// What a sort specification is, read one step.
pub proof fn lemma_sort_spec_unfold(s: Seq<Token>)
    ensures
        spec_sort_spec(s) == (match spec_subexpr(s, 0) {
            Parsed::Done(e, n) => {
                let t = s.skip(n as int);
                let (asc, a) = spec_asc(t);
                let (nulls_first, b) = spec_nulls_first(t.skip(a as int));
                Parsed::Done(SortSpecV { expr: e, asc, nulls_first }, n + a + b)
            },
            Parsed::Fails => Parsed::Fails,
        }),
{
    reveal(spec_sort_spec);
}

/// A sort specification takes at least one token and no more than there are.
pub proof fn lemma_sort_spec_len(s: Seq<Token>)
    ensures
        spec_sort_spec(s) matches Parsed::Done(_, n) ==> 0 < n <= s.len(),
{
    reveal(spec_sort_spec);
    lemma_subexpr_len(s, 0);
}

/// A select item at the front of the tokens: `*`, `<name>.*`, or
/// `<expression> [ AS <alias> ]`.
#[verifier::opaque]
pub open spec fn spec_select_item(s: Seq<Token>) -> Parsed<SelectItemV> 
    decreases s.len(), 4nat,
{
    match spec_subexpr(s, 0) {
        Parsed::Done(e, n) => match e {
            ExprV::Wildcard => Parsed::Done(SelectItemV::Wildcard, n),
            ExprV::QualifiedWildcard(p) => Parsed::Done(SelectItemV::QualifiedWildcard(p), n),
            _ => {
                let t = s.skip(n as int);
                if t.len() > 0 && is_keyword_token(t[0]@, Keyword::AS) {
                    if t.len() > 1 && word_ident(t[1]@) is Some {
                        Parsed::Done(
                            SelectItemV::DerivedColumn {
                                expr: Box::new(e),
                                alias: Some(word_ident(t[1]@)->0),
                            },
                            n + 2,
                        )
                    } else {
                        Parsed::Fails
                    }
                } else {
                    Parsed::Done(SelectItemV::DerivedColumn { expr: Box::new(e), alias: None }, n)
                }
            },
        },
        Parsed::Fails => Parsed::Fails,
    }
}

/// Select items separated by commas at the front of the tokens.
pub open spec fn spec_select_items(s: Seq<Token>) -> Parsed<Seq<SelectItemV>>
    decreases s.len(), 5nat,
{
    match spec_select_item(s) {
        Parsed::Done(e, n) => if 0 < n <= s.len() {
            prepend(seq![e], spec_select_items_tail(s.skip(n as int)), n)
        } else {
            Parsed::Fails
        },
        Parsed::Fails => Parsed::Fails,
    }
}

/// What follows an item of the list: `, <item>` again and again.
pub open spec fn spec_select_items_tail(t: Seq<Token>) -> Parsed<Seq<SelectItemV>>
    decreases t.len(), 5nat,
{
    if t.len() > 0 && t[0]@ == TokenView::Comma {
        shift(spec_select_items(t.skip(1)), 1)
    } else {
        Parsed::Done(Seq::empty(), 0)
    }
}

/// The list is the comma-separated list of its items.
pub proof fn lemma_select_items_is_list(s: Seq<Token>)
    ensures
        spec_select_items(s) == spec_list(s, |t: Seq<Token>| spec_select_item(t)),
    decreases s.len(),
{
    reveal(spec_select_item);
    if let Parsed::Done(e, n) = spec_select_item(s) {
        if 0 < n <= s.len() {
            let t = s.skip(n as int);
            if t.len() > 0 && t[0]@ == TokenView::Comma {
                lemma_select_items_is_list(t.skip(1));
            }
        }
    }
}

/// The list takes at least one token and no more than there are.
pub proof fn lemma_select_items_len(s: Seq<Token>)
    ensures
        spec_select_items(s) matches Parsed::Done(_, n) ==> 0 < n <= s.len(),
{
    lemma_select_items_is_list(s);
    lemma_list_len(s, |t: Seq<Token>| spec_select_item(t));
}

/// A select item takes at least one token and no more than there are.
pub proof fn lemma_select_item_len(s: Seq<Token>)
    ensures
        spec_select_item(s) matches Parsed::Done(_, n) ==> 0 < n <= s.len(),
{
    reveal(spec_select_item);
    lemma_subexpr_len(s, 0);
}

/// The clauses of a query specification after its `FROM` list:
/// `[ WHERE <condition> ] [ GROUP BY ... ] [ HAVING <condition> ] [ WINDOW ... ]`,
/// with the parts read before them.
pub open spec fn spec_query_spec_clauses(
    u: Seq<Token>,
    quantifier: Option<SetQuantifier>,
    projection: Seq<SelectItemV>,
    from: Seq<TableReferenceV>,
) -> Parsed<QuerySpecV> 
    decreases u.len(), 4nat,
{
    match spec_condition_clause(u, Keyword::WHERE) {
        Parsed::Done(where_clause, d) => if d <= u.len() {
            shift(spec_after_where(u.skip(d as int), quantifier, projection, from, where_clause), d)
        } else {
            Parsed::Fails
        },
        Parsed::Fails => Parsed::Fails,
    }
}

/// The clauses of a query specification after its `WHERE` clause.
pub open spec fn spec_after_where(
    u: Seq<Token>,
    quantifier: Option<SetQuantifier>,
    projection: Seq<SelectItemV>,
    from: Seq<TableReferenceV>,
    where_clause: Option<ExprV>,
) -> Parsed<QuerySpecV> 
    decreases u.len(), 3nat,
{
    match spec_group_by_part(u) {
        Parsed::Done(group_by, e) => if e <= u.len() {
            shift(
                spec_after_group_by(u.skip(e as int), quantifier, projection, from, where_clause, group_by),
                e,
            )
        } else {
            Parsed::Fails
        },
        Parsed::Fails => Parsed::Fails,
    }
}

/// The clauses of a query specification after its `GROUP BY` clause.
pub open spec fn spec_after_group_by(
    u: Seq<Token>,
    quantifier: Option<SetQuantifier>,
    projection: Seq<SelectItemV>,
    from: Seq<TableReferenceV>,
    where_clause: Option<ExprV>,
    group_by: Option<(Option<SetQuantifier>, Seq<GroupingElementV>)>,
) -> Parsed<QuerySpecV> 
    decreases u.len(), 2nat,
{
    match spec_condition_clause(u, Keyword::HAVING) {
        Parsed::Done(having, f) => if f <= u.len() {
            match spec_window_part(u.skip(f as int)) {
                Parsed::Done(window, g) => Parsed::Done(
                    QuerySpecV { quantifier, projection, from, where_clause, group_by, having, window },
                    f + g,
                ),
                Parsed::Fails => Parsed::Fails,
            }
        } else {
            Parsed::Fails
        },
        Parsed::Fails => Parsed::Fails,
    }
}

/// The clauses after a `FROM` list take no more tokens than there are.
pub proof fn lemma_query_spec_clauses_len(
    u: Seq<Token>,
    quantifier: Option<SetQuantifier>,
    projection: Seq<SelectItemV>,
    from: Seq<TableReferenceV>,
)
    ensures
        spec_query_spec_clauses(u, quantifier, projection, from) matches Parsed::Done(_, n) ==> n
            <= u.len(),
{
    lemma_clause_parts_len(u, Keyword::WHERE);
    if let Parsed::Done(w, d) = spec_condition_clause(u, Keyword::WHERE) {
        let u1 = u.skip(d as int);
        lemma_clause_parts_len(u1, Keyword::WHERE);
        if let Parsed::Done(g, e) = spec_group_by_part(u1) {
            let u2 = u1.skip(e as int);
            lemma_clause_parts_len(u2, Keyword::HAVING);
            if let Parsed::Done(h, f) = spec_condition_clause(u2, Keyword::HAVING) {
                lemma_clause_parts_len(u2.skip(f as int), Keyword::WINDOW);
            }
        }
    }
}

/// A query specification at the front of the tokens:
/// `SELECT [ ALL | DISTINCT ] <select list> FROM <table reference> [, ...]`
/// followed by its optional clauses.
#[verifier::opaque]
pub open spec fn spec_query_spec(s: Seq<Token>) -> Parsed<QuerySpecV>
    decreases s.len(), 0nat,
{
    if s.len() > 0 && is_keyword_token(s[0]@, Keyword::SELECT) {
        let quantifier = spec_set_quantifier(PeekState { items: s.skip(1), cursor: 0 });
        let a: nat = if quantifier is Some {
            2
        } else {
            1
        };
        if a <= s.len() {
            shift(spec_select_rest(s.skip(a as int), quantifier), a)
        } else {
            Parsed::Fails
        }
    } else {
        Parsed::Fails
    }
}

/// What follows `SELECT` and its quantifier in a query specification: the
/// select list, `FROM <table reference> [, ...]` and the optional clauses.
pub open spec fn spec_select_rest(u: Seq<Token>, quantifier: Option<SetQuantifier>) -> Parsed<QuerySpecV>
    decreases u.len(), 6nat,
{
    match spec_select_items(u) {
        Parsed::Done(projection, b) => {
            let t = u.skip(b as int);
            if b <= u.len() && t.len() > 0 && is_keyword_token(t[0]@, Keyword::FROM) {
                match spec_table_refs(t.skip(1)) {
                    Parsed::Done(from, c) => if 1 + c <= t.len() {
                        shift(
                            spec_query_spec_clauses(t.skip(1 + c as int), quantifier, projection, from),
                            b + 1 + c,
                        )
                    } else {
                        Parsed::Fails
                    },
                    Parsed::Fails => Parsed::Fails,
                }
            } else {
                Parsed::Fails
            }
        },
        Parsed::Fails => Parsed::Fails,
    }
}

/// An outcome that takes no more than `len` tokens; one that would take more
/// fails.
pub open spec fn fit<V>(p: Parsed<V>, len: nat) -> Parsed<V> {
    match p {
        Parsed::Done(v, n) => if n <= len {
            Parsed::Done(v, n)
        } else {
            Parsed::Fails
        },
        Parsed::Fails => Parsed::Fails,
    }
}

/// The set operator that the token names, with its precedence: `UNION` and
/// `EXCEPT` 10, `INTERSECT` 20.
pub open spec fn token_set_operator(t: TokenView) -> Option<(QueryBodyOperator, u8)> {
    if is_keyword_token(t, Keyword::UNION) {
        Some((QueryBodyOperator::Union, 10))
    } else if is_keyword_token(t, Keyword::EXCEPT) {
        Some((QueryBodyOperator::Except, 10))
    } else if is_keyword_token(t, Keyword::INTERSECT) {
        Some((QueryBodyOperator::Intersect, 20))
    } else {
        None
    }
}

/// A set operator writes back as the keyword it was read from: `UNION`,
/// `EXCEPT` and `INTERSECT` each name their own operator.
pub proof fn law_set_operator_is_its_keyword(t: TokenView)
    ensures
        token_set_operator(t) matches Some((op, _)) ==> (t matches TokenView::Keyword(k, _)
            && query_body_operator_sql(op) == spec_keyword_name(k)),
{
    reveal_strlit("UNION");
    reveal_strlit("EXCEPT");
    reveal_strlit("INTERSECT");
}

/// The end of an `OFFSET` clause writes back as the keyword it was read
/// from, after a space; when no `ROW` or `ROWS` follows, nothing is read
/// and nothing is written.
pub proof fn law_offset_rows_is_its_keyword(s: Seq<Token>)
    ensures
        spec_offset_rows(s).1 == 1 ==> (s[0]@ matches TokenView::Keyword(k, _) && offset_rows_sql(
            spec_offset_rows(s).0,
        ) == " "@ + spec_keyword_name(k)),
        spec_offset_rows(s).1 == 0 ==> offset_rows_sql(spec_offset_rows(s).0).len() == 0,
{
    reveal_strlit("ROW");
    reveal_strlit("ROWS");
    reveal_strlit(" ROW");
    reveal_strlit(" ROWS");
    reveal_strlit(" ");
}

/// A query expression at the front of the tokens:
/// `[ <with clause> ] <query body> [ ORDER BY ... ] [ OFFSET ... ] [ LIMIT ... | FETCH ... ]`,
/// without the `WITH` clause when `skip_with`.
#[verifier::opaque]
pub open spec fn spec_query_expr(s: Seq<Token>, skip_with: bool) -> Parsed<QueryV>
    decreases s.len(), 6nat,
{
    let w: Parsed<Option<WithV>> = if skip_with {
        Parsed::Done(None, 0)
    } else {
        spec_with(s)
    };
    match w {
        Parsed::Done(with, a) => if a <= s.len() {
            let t = s.skip(a as int);
            match spec_query_body(t, 0) {
                Parsed::Done(body, b) => if b <= t.len() {
                    fit(shift(spec_query_tail(t.skip(b as int), with, body), a + b), s.len())
                } else {
                    Parsed::Fails
                },
                Parsed::Fails => Parsed::Fails,
            }
        } else {
            Parsed::Fails
        },
        Parsed::Fails => Parsed::Fails,
    }
}

/// An optional `ORDER BY` clause at the front of the tokens:
/// `ORDER BY <sort specification> [, ...]`, or nothing.
pub open spec fn spec_order_by_part(u: Seq<Token>) -> Parsed<Option<Seq<SortSpecV>>> 
    decreases u.len(), 4nat,
{
    if u.len() > 1 && is_keyword_token(u[0]@, Keyword::ORDER) && is_keyword_token(u[1]@, Keyword::BY) {
        match spec_sort_specs(u.skip(2)) {
            Parsed::Done(l, n) => Parsed::Done(Some(l), n + 2),
            Parsed::Fails => Parsed::Fails,
        }
    } else {
        Parsed::Done(None, 0)
    }
}

/// The count and rows of an optional `OFFSET` clause.
pub open spec fn opt_offset_v(o: Option<Offset>) -> Option<(LiteralView, OffsetRows)> {
    match o {
        Some(o) => Some((o.count@, o.rows)),
        None => None,
    }
}

/// The count of an optional `LIMIT` clause.
pub open spec fn opt_limit_v(l: Option<Limit>) -> Option<LiteralView> {
    match l {
        Some(l) => Some(l.count@),
        None => None,
    }
}

/// The quantity, percentage and ties of an optional `FETCH` clause.
pub open spec fn opt_fetch_v(f: Option<Fetch>) -> Option<(Option<LiteralView>, bool, bool)> {
    match f {
        Some(f) => Some(
            (
                match f.quantity {
                    Some(l) => Some(l@),
                    None => None,
                },
                f.percent,
                f.with_ties,
            ),
        ),
        None => None,
    }
}

/// The abstract value of an optional `WITH` clause.
pub open spec fn opt_with_v(w: Option<With>) -> Option<WithV> {
    match w {
        Some(w) => Some(with_v(w)),
        None => None,
    }
}

/// What follows the body of a query expression: `[ ORDER BY ... ]` and the
/// `OFFSET`, `LIMIT` and `FETCH` clauses.
pub open spec fn spec_query_tail(u: Seq<Token>, with: Option<WithV>, body: QueryBodyV) -> Parsed<QueryV> 
    decreases u.len(), 5nat,
{
    match spec_order_by_part(u) {
        Parsed::Done(order_by, c) => if c <= u.len() {
            match spec_query_limits(u.skip(c as int), None, None, None) {
                Some(((offset, limit, fetch), d)) => Parsed::Done(
                    QueryV { with, body, order_by, offset, limit, fetch },
                    c + d,
                ),
                None => Parsed::Fails,
            }
        } else {
            Parsed::Fails
        },
        Parsed::Fails => Parsed::Fails,
    }
}

/// The `OFFSET`, `LIMIT` and `FETCH` clauses at the front of the tokens, in
/// any order, with the ones read so far: at most one `OFFSET`, and `LIMIT`
/// or `FETCH` at most once and not both; a clause that breaks this fails.
pub open spec fn spec_query_limits(
    v: Seq<Token>,
    offset: Option<(LiteralView, OffsetRows)>,
    limit: Option<LiteralView>,
    fetch: Option<(Option<LiteralView>, bool, bool)>,
) -> Option<(
    (Option<(LiteralView, OffsetRows)>, Option<LiteralView>, Option<(Option<LiteralView>, bool, bool)>),
    nat,
)>
    decreases v.len(),
{
    if v.len() > 0 && is_keyword_token(v[0]@, Keyword::OFFSET) {
        if offset is Some {
            None
        } else {
            match spec_literal(v.skip(1)) {
                Some((c, n)) => if 1 + n <= v.len() {
                    let (rows, k) = spec_offset_rows(v.skip(1 + n as int));
                    if 1 + n + k <= v.len() {
                        shift_limits(
                            spec_query_limits(v.skip(1 + n + k as int), Some((c, rows)), limit, fetch),
                            1 + n + k,
                        )
                    } else {
                        None
                    }
                } else {
                    None
                },
                None => None,
            }
        }
    } else if v.len() > 0 && is_keyword_token(v[0]@, Keyword::LIMIT) {
        if limit is Some || fetch is Some {
            None
        } else if v.len() > 1 && is_keyword_token(v[1]@, Keyword::ALL) {
            shift_limits(spec_query_limits(v.skip(2), offset, None, fetch), 2)
        } else {
            match spec_literal(v.skip(1)) {
                Some((c, n)) => if 1 + n <= v.len() {
                    shift_limits(spec_query_limits(v.skip(1 + n as int), offset, Some(c), fetch), 1 + n)
                } else {
                    None
                },
                None => None,
            }
        }
    } else if v.len() > 0 && is_keyword_token(v[0]@, Keyword::FETCH) {
        if fetch is Some || limit is Some {
            None
        } else {
            match spec_fetch_rest(v.skip(1)) {
                Some((q, p, w, n)) => if 1 + n <= v.len() {
                    shift_limits(spec_query_limits(v.skip(1 + n as int), offset, limit, Some((q, p, w))), 1 + n)
                } else {
                    None
                },
                None => None,
            }
        }
    } else {
        Some(((offset, limit, fetch), 0))
    }
}

/// The clauses read with `k` more tokens in front.
pub open spec fn shift_limits<X>(r: Option<(X, nat)>, k: nat) -> Option<(X, nat)> {
    match r {
        Some((x, n)) => Some((x, n + k)),
        None => None,
    }
}

/// A `WITH` clause at the front of the tokens, or nothing:
/// `WITH [ RECURSIVE ] <cte> [, ...]`.
#[verifier::opaque]
pub open spec fn spec_with(s: Seq<Token>) -> Parsed<Option<WithV>>
    decreases s.len(), 5nat,
{
    if s.len() > 0 && is_keyword_token(s[0]@, Keyword::WITH) {
        let recursive = s.len() > 1 && is_keyword_token(s[1]@, Keyword::RECURSIVE);
        let k: nat = if recursive {
            2
        } else {
            1
        };
        match spec_ctes(s.skip(k as int)) {
            Parsed::Done(ctes, n) => fit(Parsed::Done(Some(WithV { recursive, ctes }), k + n), s.len()),
            Parsed::Fails => Parsed::Fails,
        }
    } else {
        Parsed::Done(None, 0)
    }
}

/// Common table expressions separated by commas at the front of the tokens.
pub open spec fn spec_ctes(s: Seq<Token>) -> Parsed<Seq<CteV>>
    decreases s.len(), 4nat,
{
    match spec_cte(s) {
        Parsed::Done(c, n) => if 0 < n <= s.len() {
            prepend(seq![c], spec_ctes_tail(s.skip(n as int)), n)
        } else {
            Parsed::Fails
        },
        Parsed::Fails => Parsed::Fails,
    }
}

/// What follows a common table expression of a list: `, <cte>` again and
/// again.
pub open spec fn spec_ctes_tail(t: Seq<Token>) -> Parsed<Seq<CteV>>
    decreases t.len(), 4nat,
{
    if t.len() > 0 && t[0]@ == TokenView::Comma {
        shift(spec_ctes(t.skip(1)), 1)
    } else {
        Parsed::Done(Seq::empty(), 0)
    }
}

/// A common table expression at the front of the tokens:
/// `<name> [ ( <column> [, ...] ) ] AS ( <query expression> )`.
#[verifier::opaque]
pub open spec fn spec_cte(s: Seq<Token>) -> Parsed<CteV>
    decreases s.len(), 3nat,
{
    if s.len() > 0 && word_ident(s[0]@) is Some {
        match spec_optional_column_list(s.skip(1)) {
            Some((columns, k)) => if 1 + k <= s.len() {
                let t = s.skip(1 + k as int);
                if t.len() > 1 && is_keyword_token(t[0]@, Keyword::AS) && t[1]@ == TokenView::LeftParen {
                    match spec_query_expr(t.skip(2), true) {
                        Parsed::Done(q, m) => if m + 2 < t.len() && t[m + 2int]@ == TokenView::RightParen {
                            Parsed::Done(
                                CteV { name: word_ident(s[0]@)->0, columns, query: Box::new(q) },
                                1 + k + m + 3,
                            )
                        } else {
                            Parsed::Fails
                        },
                        Parsed::Fails => Parsed::Fails,
                    }
                } else {
                    Parsed::Fails
                }
            } else {
                Parsed::Fails
            },
            None => Parsed::Fails,
        }
    } else {
        Parsed::Fails
    }
}

/// The first operand of a query body at the front of the tokens: a query
/// specification, `( <query expression> )`, `VALUES` or `TABLE <name>`.
pub open spec fn spec_query_primary(s: Seq<Token>) -> Parsed<QueryBodyV>
    decreases s.len(), 1nat,
{
    if s.len() > 0 && is_keyword_token(s[0]@, Keyword::SELECT) {
        match spec_query_spec(s) {
            Parsed::Done(q, n) => Parsed::Done(QueryBodyV::QuerySpec(Box::new(q)), n),
            Parsed::Fails => Parsed::Fails,
        }
    } else if s.len() > 0 && s[0]@ == TokenView::LeftParen {
        match spec_query_expr(s.skip(1), true) {
            Parsed::Done(q, m) => if m + 1 < s.len() && s[m + 1int]@ == TokenView::RightParen {
                Parsed::Done(QueryBodyV::Subquery(Box::new(q)), m + 2)
            } else {
                Parsed::Fails
            },
            Parsed::Fails => Parsed::Fails,
        }
    } else if s.len() > 0 && is_keyword_token(s[0]@, Keyword::VALUES) {
        Parsed::Done(QueryBodyV::Values(Seq::empty()), 0)
    } else if s.len() > 0 && is_keyword_token(s[0]@, Keyword::TABLE) {
        match spec_object_name(s.skip(1)) {
            Some((name, k)) => Parsed::Done(QueryBodyV::Table(name), 1 + k),
            None => Parsed::Fails,
        }
    } else {
        Parsed::Fails
    }
}

/// A query body at the front of the tokens whose set operators bind tighter
/// than `prec`: `INTERSECT` binds tighter than `UNION` and `EXCEPT`, and
/// operators of equal precedence associate to the left.
pub open spec fn spec_query_body(s: Seq<Token>, prec: u8) -> Parsed<QueryBodyV>
    decreases s.len(), 2nat,
{
    match spec_query_primary(s) {
        Parsed::Done(left, n) => if n <= s.len() {
            shift(spec_query_body_rest(s.skip(n as int), prec, left), n)
        } else {
            Parsed::Fails
        },
        Parsed::Fails => Parsed::Fails,
    }
}

/// The set operators and operands that follow `left` at the front of the
/// tokens, as long as they bind tighter than `prec`.
pub open spec fn spec_query_body_rest(t: Seq<Token>, prec: u8, left: QueryBodyV) -> Parsed<QueryBodyV>
    decreases t.len(), 0nat,
{
    if t.len() > 0 && token_set_operator(t[0]@) is Some {
        let (op, p) = token_set_operator(t[0]@)->0;
        if prec >= p {
            Parsed::Done(left, 0)
        } else {
            let quantifier = spec_set_quantifier(PeekState { items: t.skip(1), cursor: 0 });
            let k: nat = if quantifier is Some {
                2
            } else {
                1
            };
            if k <= t.len() {
                match spec_query_body(t.skip(k as int), p) {
                    Parsed::Done(right, m) => if k + m <= t.len() {
                        shift(
                            spec_query_body_rest(
                                t.skip((k + m) as int),
                                prec,
                                QueryBodyV::Operation {
                                    left: Box::new(left),
                                    op,
                                    quantifier,
                                    right: Box::new(right),
                                },
                            ),
                            k + m,
                        )
                    } else {
                        Parsed::Fails
                    },
                    Parsed::Fails => Parsed::Fails,
                }
            } else {
                Parsed::Fails
            }
        }
    } else {
        Parsed::Done(left, 0)
    }
}

/// What follows `SELECT` takes at least one token and no more than there
/// are.
pub proof fn lemma_select_rest_len(u: Seq<Token>, quantifier: Option<SetQuantifier>)
    ensures
        spec_select_rest(u, quantifier) matches Parsed::Done(_, n) ==> 0 < n <= u.len(),
{
    lemma_select_items_len(u);
    if let Parsed::Done(projection, b) = spec_select_items(u) {
        let t = u.skip(b as int);
        if b <= u.len() && t.len() > 0 {
            lemma_table_refs_len(t.skip(1));
            if let Parsed::Done(from, c) = spec_table_refs(t.skip(1)) {
                if 1 + c <= t.len() {
                    lemma_query_spec_clauses_len(t.skip(1 + c as int), quantifier, projection, from);
                }
            }
        }
    }
}

/// A query specification takes at least one token and no more than there
/// are.
pub proof fn lemma_query_spec_len(s: Seq<Token>)
    ensures
        spec_query_spec(s) matches Parsed::Done(_, n) ==> 0 < n <= s.len(),
{
    reveal(spec_query_spec);
    if s.len() > 0 && is_keyword_token(s[0]@, Keyword::SELECT) {
        let quantifier = spec_set_quantifier(PeekState { items: s.skip(1), cursor: 0 });
        let a: nat = if quantifier is Some { 2 } else { 1 };
        if a <= s.len() {
            lemma_select_rest_len(s.skip(a as int), quantifier);
        }
    }
}

/// The first operand of a query body takes no more tokens than there are.
pub proof fn lemma_query_primary_len(s: Seq<Token>)
    ensures
        spec_query_primary(s) matches Parsed::Done(_, n) ==> n <= s.len(),
{
    reveal(spec_query_spec);
    reveal(spec_query_expr);
    lemma_query_spec_len(s);
    if s.len() > 0 {
        crate::parser::types::lemma_object_name_len(s.skip(1));
    }
}

/// A query body takes no more tokens than there are.
pub proof fn lemma_query_body_len(s: Seq<Token>, prec: u8)
    ensures
        spec_query_body(s, prec) matches Parsed::Done(_, n) ==> n <= s.len(),
    decreases s.len(), 2nat,
{
    lemma_query_primary_len(s);
    if let Parsed::Done(left, n) = spec_query_primary(s) {
        if n <= s.len() {
            lemma_query_body_rest_len(s.skip(n as int), prec, left);
        }
    }
}

/// The set operations after an operand take no more tokens than there are.
pub proof fn lemma_query_body_rest_len(t: Seq<Token>, prec: u8, left: QueryBodyV)
    ensures
        spec_query_body_rest(t, prec, left) matches Parsed::Done(_, n) ==> n <= t.len(),
    decreases t.len(), 0nat,
{
    if t.len() > 0 && token_set_operator(t[0]@) is Some {
        let (op, p) = token_set_operator(t[0]@)->0;
        if prec < p {
            let quantifier = spec_set_quantifier(PeekState { items: t.skip(1), cursor: 0 });
            let k: nat = if quantifier is Some { 2 } else { 1 };
            if k <= t.len() {
                if let Parsed::Done(right, m) = spec_query_body(t.skip(k as int), p) {
                    if k + m <= t.len() {
                        lemma_query_body_rest_len(
                            t.skip((k + m) as int),
                            prec,
                            QueryBodyV::Operation {
                                left: Box::new(left),
                                op,
                                quantifier,
                                right: Box::new(right),
                            },
                        );
                    }
                }
            }
        }
    }
}

/// The `OFFSET`, `LIMIT` and `FETCH` clauses take no more tokens than there
/// are.
pub proof fn lemma_query_limits_len(
    v: Seq<Token>,
    offset: Option<(LiteralView, OffsetRows)>,
    limit: Option<LiteralView>,
    fetch: Option<(Option<LiteralView>, bool, bool)>,
)
    ensures
        spec_query_limits(v, offset, limit, fetch) matches Some((_, n)) ==> n <= v.len(),
    decreases v.len(),
{
    if v.len() > 0 {
        crate::parser::types::lemma_literal_len(v.skip(1));
        if let Some((c, n)) = spec_literal(v.skip(1)) {
            if 1 + n <= v.len() {
                let (rows, k) = spec_offset_rows(v.skip(1 + n as int));
                if 1 + n + k <= v.len() {
                    lemma_query_limits_len(v.skip(1 + n + k as int), Some((c, rows)), limit, fetch);
                }
                lemma_query_limits_len(v.skip(1 + n as int), offset, Some(c), fetch);
            }
        }
        if v.len() > 1 {
            lemma_query_limits_len(v.skip(2), offset, None, fetch);
        }
        if let Some((q, p, w, n)) = spec_fetch_rest(v.skip(1)) {
            if 1 + n <= v.len() {
                lemma_query_limits_len(v.skip(1 + n as int), offset, limit, Some((q, p, w)));
            }
        }
    }
}

/// What follows a query body takes no more tokens than there are.
pub proof fn lemma_query_tail_len(u: Seq<Token>, with: Option<WithV>, body: QueryBodyV)
    ensures
        spec_query_tail(u, with, body) matches Parsed::Done(_, n) ==> n <= u.len(),
{
    if u.len() > 1 {
        lemma_sort_specs_len(u.skip(2));
    }
    if let Parsed::Done(_, c) = spec_order_by_part(u) {
        if c <= u.len() {
            lemma_query_limits_len(u.skip(c as int), None, None, None);
        }
    }
}

/// A list of common table expressions takes at least one token and no more
/// than there are.
pub proof fn lemma_ctes_len(s: Seq<Token>)
    ensures
        spec_ctes(s) matches Parsed::Done(_, n) ==> 0 < n <= s.len(),
    decreases s.len(),
{
    reveal(spec_cte);
    if let Parsed::Done(c, n) = spec_cte(s) {
        if 0 < n <= s.len() {
            let t = s.skip(n as int);
            if t.len() > 0 && t[0]@ == TokenView::Comma {
                lemma_ctes_len(t.skip(1));
                assert(spec_ctes_tail(t) == shift(spec_ctes(t.skip(1)), 1));
            } else {
                assert(spec_ctes_tail(t) == Parsed::<Seq<CteV>>::Done(Seq::empty(), 0));
            }
            assert(spec_ctes(s) == prepend(seq![c], spec_ctes_tail(t), n));
        }
    }
}

/// A query expression, and a `WITH` clause, take no more tokens than there
/// are.
pub proof fn lemma_query_expr_len(s: Seq<Token>, skip_with: bool)
    ensures
        spec_query_expr(s, skip_with) matches Parsed::Done(_, n) ==> n <= s.len(),
        spec_with(s) matches Parsed::Done(_, n) ==> n <= s.len(),
{
    reveal(spec_query_expr);
    reveal(spec_with);
}

/// `( <query expression> )` at the front of the tokens, the parentheses
/// included.
#[verifier::opaque]
pub open spec fn spec_paren_query(s: Seq<Token>) -> Parsed<QueryV> 
    decreases s.len(), 0nat,
{
    if s.len() > 0 && s[0]@ == TokenView::LeftParen {
        match spec_query_expr(s.skip(1), true) {
            Parsed::Done(q, m) => if m + 1 < s.len() && s[m + 1int]@ == TokenView::RightParen {
                Parsed::Done(q, m + 2)
            } else {
                Parsed::Fails
            },
            Parsed::Fails => Parsed::Fails,
        }
    } else {
        Parsed::Fails
    }
}

/// A subquery expression at the front of the tokens: `( <query expression> )`.
pub open spec fn spec_subquery_expr(s: Seq<Token>) -> Parsed<ExprV> {
    match spec_paren_query(s) {
        Parsed::Done(q, n) => Parsed::Done(ExprV::Subquery(Box::new(q)), n),
        Parsed::Fails => Parsed::Fails,
    }
}

/// The parenthesized subquery after `[NOT] IN`, `expr` being the tested
/// expression.
pub open spec fn spec_in_subquery(u: Seq<Token>, expr: ExprV, negated: bool) -> Parsed<ExprV> {
    match spec_paren_query(u) {
        Parsed::Done(q, n) => Parsed::Done(
            ExprV::InSubquery { expr: Box::new(expr), negated, subquery: Box::new(q) },
            n,
        ),
        Parsed::Fails => Parsed::Fails,
    }
}

/// A derived table at the front of the tokens:
/// `( <query expression> ) [ AS <alias> ]`.
pub open spec fn spec_derived_table(s: Seq<Token>, lateral: bool) -> Parsed<TableFactorV> 
    decreases s.len(), 2nat,
{
    match spec_paren_query(s) {
        Parsed::Done(q, n) => match spec_table_alias(s.skip(n as int)) {
            Some((alias, m)) => Parsed::Done(
                TableFactorV::Derived { lateral, subquery: Box::new(q), alias },
                n + m,
            ),
            None => Parsed::Fails,
        },
        Parsed::Fails => Parsed::Fails,
    }
}

/// What a parenthesized query is, read one step.
pub proof fn lemma_paren_query_unfold(s: Seq<Token>)
    ensures
        spec_paren_query(s) == (if s.len() > 0 && s[0]@ == TokenView::LeftParen {
            match spec_query_expr(s.skip(1), true) {
                Parsed::Done(q, m) => if m + 1 < s.len() && s[m + 1int]@ == TokenView::RightParen {
                    Parsed::Done(q, m + 2)
                } else {
                    Parsed::Fails
                },
                Parsed::Fails => Parsed::Fails,
            }
        } else {
            Parsed::Fails
        }),
{
    reveal(spec_query_expr);
    reveal(spec_paren_query);
}

/// A parenthesized query takes no more tokens than there are.
pub proof fn lemma_paren_query_len(s: Seq<Token>)
    ensures
        spec_paren_query(s) matches Parsed::Done(_, n) ==> 0 < n <= s.len(),
{
    reveal(spec_paren_query);
}

/// A derived table takes at least one token and no more than there are.
pub proof fn lemma_derived_table_len(s: Seq<Token>, lateral: bool)
    ensures
        spec_derived_table(s, lateral) matches Parsed::Done(_, n) ==> 0 < n <= s.len(),
{
    if let Parsed::Done(q, n) = spec_paren_query(s) {
        crate::parser::table::lemma_table_alias_len(s.skip(n as int));
    }
}

/// The set quantifier that the next token names: `ALL` or `DISTINCT`.
pub open spec fn spec_set_quantifier(st: PeekState<Token>) -> Option<SetQuantifier> {
    if peek_is_keyword(st, Keyword::ALL) {
        Some(SetQuantifier::All)
    } else if peek_is_keyword(st, Keyword::DISTINCT) {
        Some(SetQuantifier::Distinct)
    } else {
        None
    }
}

/// A set quantifier writes back as the keyword it was read from: the text of
/// the quantifier read is the text of the keyword token, so `DISTINCT` and
/// `ALL` each write back as themselves.
pub proof fn law_set_quantifier_is_its_keyword(st: PeekState<Token>)
    ensures
        spec_set_quantifier(st) matches Some(q) ==> (spec_next(st) matches Some(tok) && (
        tok@ matches TokenView::Keyword(k, _) && set_quantifier_sql(q) == spec_keyword_name(k))),
{
    reveal_strlit("ALL");
    reveal_strlit("DISTINCT");
}

/// The result of an `OFFSET` clause read from the front of the tokens: the
/// count and how the clause ends, and the number of tokens it takes.
pub open spec fn spec_offset_rows(s: Seq<Token>) -> (OffsetRows, nat) {
    if s.len() > 0 && crate::token::is_keyword_token(s[0]@, Keyword::ROW) {
        (OffsetRows::Row, 1)
    } else if s.len() > 0 && crate::token::is_keyword_token(s[0]@, Keyword::ROWS) {
        (OffsetRows::Rows, 1)
    } else {
        (OffsetRows::Omitted, 0)
    }
}

/// Whether a query body starts with the next token: `SELECT`, `(`,
/// `VALUES` or `TABLE`.
pub open spec fn starts_query_body(st: PeekState<Token>) -> bool {
    spec_next(st) matches Some(t) && (is_keyword_token(t@, Keyword::SELECT) || t@
        == TokenView::LeftParen || is_keyword_token(t@, Keyword::VALUES) || is_keyword_token(
        t@,
        Keyword::TABLE,
    ))
}

/// Identifiers separated by commas at the front of the tokens, and the
/// number of tokens they take.
pub open spec fn spec_idents(s: Seq<Token>) -> Option<(Seq<IdentView>, nat)>
    decreases s.len(),
{
    if s.len() > 0 && word_ident(s[0]@) is Some {
        if s.len() > 1 && s[1]@ == TokenView::Comma {
            list_prepend(seq![word_ident(s[0]@)->0], 2, spec_idents(s.skip(2)))
        } else {
            Some((seq![word_ident(s[0]@)->0], 1))
        }
    } else {
        None
    }
}

/// What follows an identifier in a list: `, <identifiers>`, or nothing.
pub open spec fn idents_after(s: Seq<Token>) -> Option<(Seq<IdentView>, nat)> {
    if s.len() > 0 && s[0]@ == TokenView::Comma {
        list_prepend(Seq::empty(), 1, spec_idents(s.skip(1)))
    } else {
        Some((Seq::empty(), 0))
    }
}

/// An identifier list is its first identifier followed by what comes after it.
pub proof fn lemma_idents_unfold(s: Seq<Token>)
    ensures
        s.len() > 0 && word_ident(s[0]@) is Some ==> spec_idents(s) == list_prepend(
            seq![word_ident(s[0]@)->0],
            1,
            idents_after(s.skip(1)),
        ),
{
    if s.len() > 0 && word_ident(s[0]@) is Some {
        let i = word_ident(s[0]@)->0;
        if s.len() > 1 && s[1]@ == TokenView::Comma {
            assert(s.skip(1).skip(1) =~= s.skip(2));
            match spec_idents(s.skip(2)) {
                Some((r, m)) => {
                    assert(seq![i] + (Seq::<IdentView>::empty() + r) =~= seq![i] + r);
                },
                None => {},
            }
        } else {
            assert(seq![i] + Seq::<IdentView>::empty() =~= seq![i]);
        }
    }
}

/// An identifier list takes some of the tokens.
pub proof fn lemma_idents_len(s: Seq<Token>)
    ensures
        spec_idents(s) matches Some((l, k)) ==> 1 <= k <= s.len() && l.len() > 0,
    decreases s.len(),
{
    if s.len() > 1 {
        lemma_idents_len(s.skip(2));
    }
}

/// The optional parenthesized column list at the front of the tokens: its
/// identifiers and the number of tokens it takes; `None` inside when there is
/// no list, `None` outside when the list is malformed.
pub open spec fn spec_optional_column_list(s: Seq<Token>) -> Option<(Option<Seq<IdentView>>, nat)> {
    if s.len() > 0 && s[0]@ == TokenView::LeftParen {
        match spec_idents(s.skip(1)) {
            Some((l, k)) => if s.len() > k + 1 && s[k + 1int]@ == TokenView::RightParen {
                Some((Some(l), k + 2))
            } else {
                None
            },
            None => None,
        }
    } else {
        Some((None, 0))
    }
}

/// Whether the token is the keyword `ROW` or `ROWS`.
pub open spec fn is_row_or_rows(t: TokenView) -> bool {
    is_keyword_token(t, Keyword::ROW) || is_keyword_token(t, Keyword::ROWS)
}

/// The quantity part of a `FETCH` clause at the front of the tokens:
/// `{ ROW | ROWS }` or `<quantity> [ PERCENT ] { ROW | ROWS }`, with the
/// quantity, whether it is a percentage, and the number of tokens it takes.
pub open spec fn spec_fetch_quantity(t: Seq<Token>) -> Option<(Option<LiteralView>, bool, nat)> {
    if t.len() > 0 && is_row_or_rows(t[0]@) {
        Some((None, false, 1))
    } else {
        match spec_literal(t) {
            Some((q, n)) => {
                let p = t.len() > n && is_keyword_token(t[n as int]@, Keyword::PERCENT);
                let m: nat = if p { n + 1 } else { n };
                if t.len() > m && is_row_or_rows(t[m as int]@) {
                    Some((Some(q), p, m + 1))
                } else {
                    None
                }
            },
            None => None,
        }
    }
}

/// The end of a `FETCH` clause at the front of the tokens: `ONLY` or
/// `WITH TIES`, with whether it is `WITH TIES` and the number of tokens.
pub open spec fn spec_fetch_ties(u: Seq<Token>) -> Option<(bool, nat)> {
    if u.len() > 0 && is_keyword_token(u[0]@, Keyword::ONLY) {
        Some((false, 1))
    } else if u.len() > 1 && is_keyword_token(u[0]@, Keyword::WITH) && is_keyword_token(
        u[1]@,
        Keyword::TIES,
    ) {
        Some((true, 2))
    } else {
        None
    }
}

/// What follows `FETCH` at the front of the tokens:
/// `{ FIRST | NEXT } <quantity part> { ONLY | WITH TIES }`, with the quantity,
/// the percentage and ties flags, and the number of tokens it takes.
pub open spec fn spec_fetch_rest(s: Seq<Token>) -> Option<(Option<LiteralView>, bool, bool, nat)> {
    if s.len() > 0 && (is_keyword_token(s[0]@, Keyword::FIRST) || is_keyword_token(
        s[0]@,
        Keyword::NEXT,
    )) {
        match spec_fetch_quantity(s.skip(1)) {
            Some((q, p, k)) => match spec_fetch_ties(s.skip(1 + k as int)) {
                Some((w, j)) => Some((q, p, w, 1 + k + j)),
                None => None,
            },
            None => None,
        }
    } else {
        None
    }
}

impl<'a, D: Dialect> Parser<'a, D> {
    /// Parses a query expression:
    /// `[ <with clause> ] <query body> [ <order by> ] [ <offset> ] [ <limit> | <fetch> ]`.
    #[verifier::loop_isolation(false)]
    #[verifier::rlimit(100)]
    #[verifier::spinoff_prover]
    pub fn parse_query_expr(&mut self, skip_with: bool) -> (r: Result<Query, ParserError>)
        requires
            old(self).wf(),
        ensures
            final(self).wf(),
            final(self).dialect_in_use() == old(self).dialect_in_use(),
            r is Ok ==> consumed(old(self).state(), final(self).state()),
            skip_with && !starts_query_body(old(self).state()) ==> r is Err,
            r matches Ok(q) ==> !(q.limit is Some && q.fetch is Some),
            r matches Ok(q) ==> (skip_with ==> q.with is None),
            r is Ok ==> !peek_is_keyword(final(self).state(), Keyword::OFFSET) && !peek_is_keyword(
                final(self).state(),
                Keyword::LIMIT,
            ) && !peek_is_keyword(final(self).state(), Keyword::FETCH),
            old(self).state().cursor == 0 ==> meets(
                spec_query_expr(old(self).state().items, skip_with),
                |q: Query| query_v(q),
                old(self).state(),
                r,
                final(self).state(),
            ),
        decreases old(self).state().items.len(), 30nat,
    {
        proof {
            reveal(spec_query_expr);
            reveal(spec_with);
            reveal(spec_cte);
        }
        proof {
        }
        let ghost st = self.state();
        let ghost s = st.items;
        let ghost cond = st.cursor == 0;
        proof { crate::parser::lemma_consumed_refl(st); }
        let ghost wp: Parsed<Option<WithV>> = if skip_with {
            Parsed::Done(None, 0)
        } else {
            spec_with(s)
        };
        proof { lemma_query_expr_len(s, skip_with); }
        let with = if skip_with {
            None
        } else {
            self.parse_with_clause()?
        };
        let ghost s1 = self.state();
        let ghost a: nat = wp->Done_1;
        proof {
            if cond && wp is Done {
                assert(s1.items =~= s.skip(a as int));
            }
            lemma_query_body_len(s1.items, 0);
        }
        let body = self.parse_query_body(0)?;
        let ghost s2 = self.state();
        let ghost b: nat = spec_query_body(s1.items, 0)->Done_1;
        let ghost pre_ok = cond && wp is Done && spec_query_body(s1.items, 0) is Done;
        proof {
            if pre_ok {
                assert(s2.items =~= s1.items.skip(b as int));
            }
            lemma_two_keywords_follow(s2, Keyword::ORDER, Keyword::BY);
            lemma_sort_specs_len(s2.items.skip(2));
            lemma_query_tail_len(s2.items, opt_with_v(with), query_body_v(body));
        }
        let order_by = self.parse_order_by_clause()?;
        let ghost s3 = self.state();
        let ghost c: nat = spec_order_by_part(s2.items)->Done_1;
        let ghost tail_ok = pre_ok && spec_order_by_part(s2.items) is Done;
        proof {
            lemma_consumed_trans(st, s1, s2);
            lemma_consumed_trans(st, s2, self.state());
            if tail_ok {
                assert(s3.items =~= s2.items.skip(c as int));
            }
            lemma_query_limits_len(s3.items, None, None, None);
        }
        let (offset, limit, fetch) = self.parse_query_limits()?;
        proof {
            lemma_consumed_trans(st, s3, self.state());
            if tail_ok {
                let d = (spec_query_limits(s3.items, None, None, None)->0).1;
                assert(self.state().items =~= s.skip((a + b + c + d) as int));
                assert(opt_with_v(with) == wp->Done_0);
                assert(query_body_v(body) == spec_query_body(s1.items, 0)->Done_0);
                assert(crate::ast::view::opt_order_by_v(order_by) == spec_order_by_part(s2.items)->Done_0);
                if spec_query_limits(s3.items, None, None, None) is Some {
                    assert(spec_query_tail(s2.items, wp->Done_0, spec_query_body(s1.items, 0)->Done_0)
                        == Parsed::Done(query_v(Query { with, body, order_by, offset, limit, fetch }), c + d));
                }
            }
        }
        Ok(Query { with, body, order_by, offset, limit, fetch })
    }

    /// Parses the `OFFSET`, `LIMIT` and `FETCH` clauses of a query
    /// expression, in any order: at most one `OFFSET`, and `LIMIT` or `FETCH`
    /// at most once and not both.
    #[verifier::loop_isolation(false)]
    #[verifier::rlimit(100)]
    #[verifier::spinoff_prover]
    fn parse_query_limits(&mut self) -> (r: Result<(Option<Offset>, Option<Limit>, Option<Fetch>), ParserError>)
        requires
            old(self).wf(),
        ensures
            final(self).wf(),
            final(self).dialect_in_use() == old(self).dialect_in_use(),
            r is Ok ==> consumed(old(self).state(), final(self).state()),
            r matches Ok((_, l, f)) ==> !(l is Some && f is Some),
            r is Ok ==> !peek_is_keyword(final(self).state(), Keyword::OFFSET) && !peek_is_keyword(
                final(self).state(),
                Keyword::LIMIT,
            ) && !peek_is_keyword(final(self).state(), Keyword::FETCH),
            old(self).state().cursor == 0 ==> match spec_query_limits(
                old(self).state().items,
                None,
                None,
                None,
            ) {
                Some(((ov, lv, fv), d)) => r matches Ok((o, l, f)) && opt_offset_v(o) == ov
                    && opt_limit_v(l) == lv && opt_fetch_v(f) == fv && final(self).state()
                    == skip_state(old(self).state(), d),
                None => r is Err,
            },
        decreases old(self).state().items.len(), 22nat,
    {
        let ghost s3 = self.state();
        let ghost cond = s3.cursor == 0;
        proof { crate::parser::lemma_consumed_refl(s3); }
        let mut offset: Option<Offset> = None;
        let mut limit: Option<Limit> = None;
        let mut fetch: Option<Fetch> = None;
        loop
            invariant
                self.wf(),
                self.dialect_in_use() == old(self).dialect_in_use(),
                consumed(s3, self.state()),
                !(limit is Some && fetch is Some),
                cond ==> (self.state().cursor == 0 && spec_query_limits(s3.items, None, None, None)
                    == shift_limits(
                    spec_query_limits(
                        self.state().items,
                        opt_offset_v(offset),
                        opt_limit_v(limit),
                        opt_fetch_v(fetch),
                    ),
                    (s3.items.len() - self.state().items.len()) as nat,
                )),
            decreases self.state().items.len(),
        {
            let ghost cur = self.state();
            let ghost v = cur.items;
            proof {
                if v.len() > 0 {
                    crate::parser::types::lemma_literal_len(v.skip(1));
                    assert(spec_next_state(cur).items =~= v.skip(1));
                }
            }
            let (is_offset, is_limit, is_fetch) = match self.peek_token() {
                Some(t) => (t.is_keyword(Keyword::OFFSET), t.is_keyword(Keyword::LIMIT), t.is_keyword(
                    Keyword::FETCH,
                )),
                None => (false, false, false),
            };
            if is_offset {
                if offset.is_none() {
                    offset = self.parse_offset_clause()?;
                    proof {
                        if cond {
                            let (cv, n) = spec_literal(v.skip(1))->0;
                            let (rows, k) = spec_offset_rows(v.skip(1 + n as int));
                            assert(v.skip(1).skip(n as int) =~= v.skip(1 + n as int));
                            assert(self.state().items =~= v.skip((1 + n + k) as int));
                        }
                    }
                } else {
                    return self.expected_text("LIMIT or FETCH clause", "Duplicated OFFSET clause");
                }
            } else if is_limit {
                if limit.is_none() && fetch.is_none() {
                    limit = self.parse_limit_clause()?;
                    proof {
                        if cond {
                            if v.len() > 1 && is_keyword_token(v[1]@, Keyword::ALL) {
                                assert(self.state().items =~= v.skip(2));
                            } else {
                                let (cv, n) = spec_literal(v.skip(1))->0;
                                assert(self.state().items =~= v.skip((1 + n) as int));
                            }
                        }
                    }
                } else {
                    return self.expected_text("OFFSET clause", "LIMIT or FETCH clause");
                }
            } else if is_fetch {
                if fetch.is_none() && limit.is_none() {
                    fetch = self.parse_fetch_clause()?;
                    proof {
                        if cond {
                            let (q, p, w, n) = spec_fetch_rest(v.skip(1))->0;
                            assert(self.state().items =~= v.skip((1 + n) as int));
                        }
                    }
                } else {
                    return self.expected_text("OFFSET clause", "FETCH or LIMIT clause");
                }
            } else {
                proof {
                    if cond {
                        assert(cur.items =~= s3.items.skip(s3.items.len() - cur.items.len()));
                    }
                }
                break;
            }
            proof {
                lemma_consumed_trans(s3, cur, self.state());
            }
        }
        Ok((offset, limit, fetch))
    }

    /// Parses a query body: a query specification, a parenthesized query,
    /// `VALUES`, `TABLE <name>`, and set operations of them, `INTERSECT`
    /// binding tighter than `UNION` and `EXCEPT`.
    #[verifier::loop_isolation(false)]
    #[verifier::rlimit(100)]
    #[verifier::spinoff_prover]
    fn parse_query_body(&mut self, precedence: u8) -> (r: Result<QueryBody, ParserError>)
        requires
            old(self).wf(),
        ensures
            final(self).wf(),
            final(self).dialect_in_use() == old(self).dialect_in_use(),
            r is Ok ==> consumed(old(self).state(), final(self).state()),
            !starts_query_body(old(self).state()) ==> r is Err,
            old(self).state().cursor == 0 ==> meets(
                spec_query_body(old(self).state().items, precedence),
                |b: QueryBody| query_body_v(b),
                old(self).state(),
                r,
                final(self).state(),
            ),
        decreases old(self).state().items.len(), 28nat,
    {
        let ghost st = self.state();
        let ghost s = st.items;
        let ghost cond = st.cursor == 0;
        let ghost sb = spec_query_body(s, precedence);
        proof {
            lemma_query_primary_len(s);
        }
        let (is_select, is_paren, is_values, is_table) = match self.peek_token() {
            Some(t) => (t.is_keyword(Keyword::SELECT), t.equals(&Token::LeftParen), t.is_keyword(
                Keyword::VALUES,
            ), t.is_keyword(Keyword::TABLE)),
            None => (false, false, false, false),
        };
        let mut body = if is_select {
            let select = self.parse_query_spec()?;
            proof { crate::ast::view::lemma_query_body_v_query_spec(Box::new(select)); }
            QueryBody::QuerySpec(Box::new(select))
        } else if is_paren {
            self.next_token();
            proof { lemma_next_consumed(st); }
            let ghost s1 = self.state();
            proof {
                if cond { assert(s1.items =~= s.skip(1)); }
                lemma_query_expr_len(s1.items, true);
            }
            let subquery = self.parse_query_expr(true)?;
            let ghost s2 = self.state();
            proof {
                if cond {
                    if let Parsed::Done(_, m) = spec_query_expr(s1.items, true) {
                        assert(s2.items =~= s.skip(1 + m as int));
                        assert(s2.items.len() > 0 ==> s2.items[0] == s[1 + m as int]);
                    }
                }
            }
            self.expect_token(&Token::RightParen)?;
            proof {
                lemma_consumed_trans(st, s1, s2);
                crate::parser::lemma_consumed_then_next(st, s2);
                crate::ast::view::lemma_query_body_v_subquery(Box::new(subquery));
                if cond {
                    if let Parsed::Done(_, m) = spec_query_expr(s1.items, true) {
                        assert(self.state().items =~= s.skip(m + 2 as int));
                    }
                }
            }
            QueryBody::Subquery(Box::new(subquery))
        } else if is_values {
            proof {
                assert(st.items =~= st.items.skip(0));
            }
            let v = Values { list: Vec::new() };
            proof {
                crate::ast::view::lemma_query_body_v_values(v);
                assert(crate::ast::view::rows_v(v.list@) =~= Seq::<Seq<ExprV>>::empty());
            }
            QueryBody::Values(v)
        } else if is_table {
            self.next_token();
            proof { lemma_next_consumed(st); }
            let ghost s1 = self.state();
            proof {
                if cond { assert(s1.items =~= s.skip(1)); }
            }
            let name = self.parse_object_name()?;
            proof {
                crate::parser::types::lemma_object_name_len(s1.items);
                crate::ast::view::lemma_query_body_v_table(name);
                assert(self.state().items =~= st.items.skip(st.items.len() - self.state().items.len()));
            }
            QueryBody::Table(name)
        } else {
            return self.expected_here("SELECT, Subquery, VALUES or TABLE");
        };
        let ghost sp = self.state();
        proof {
            if cond {
                if let Parsed::Done(left, n) = spec_query_primary(s) {
                    assert(sp.items =~= s.skip(n as int));
                    assert(query_body_v(body) == left);
                }
            }
        }
        loop
            invariant
                self.wf(),
                self.dialect_in_use() == old(self).dialect_in_use(),
                consumed(st, self.state()),
                cond ==> ((self.state().cursor == 0 && sb == shift(
                    spec_query_body_rest(self.state().items, precedence, query_body_v(body)),
                    (s.len() - self.state().items.len()) as nat,
                ))),
            decreases self.state().items.len(),
        {
            let ghost cur = self.state();
            let ghost c: nat = (s.len() - cur.items.len()) as nat;
            let op = match self.peek_token() {
                Some(t) => {
                    if t.is_keyword(Keyword::UNION) {
                        Some(QueryBodyOperator::Union)
                    } else if t.is_keyword(Keyword::EXCEPT) {
                        Some(QueryBodyOperator::Except)
                    } else if t.is_keyword(Keyword::INTERSECT) {
                        Some(QueryBodyOperator::Intersect)
                    } else {
                        None
                    }
                },
                None => None,
            };
            let next_precedence: u8 = match op {
                Some(QueryBodyOperator::Union) | Some(QueryBodyOperator::Except) => 10,
                Some(QueryBodyOperator::Intersect) => 20,
                None => {
                    proof {
                        if cond {
                            assert(cur.items == s.skip(c as int));
                        }
                    }
                    break;
                },
            };
            if precedence >= next_precedence {
                proof {
                    if cond {
                        assert(cur.items == s.skip(c as int));
                    }
                }
                break;
            }
            self.next_token();
            proof {
                lemma_next_consumed(cur);
                lemma_consumed_trans(st, cur, self.state());
            }
            let ghost s1 = self.state();
            let quantifier = self.parse_set_quantifier();
            let ghost s2 = self.state();
            let ghost k: nat = if quantifier is Some { 2 } else { 1 };
            proof {
                if cond {
                    assert(s1.items =~= cur.items.skip(1));
                    assert(s2.items =~= cur.items.skip(k as int));
                }
                lemma_query_body_len(s2.items, next_precedence);
            }
            let right = self.parse_query_body(next_precedence)?;
            let ghost left_v = query_body_v(body);
            proof {
                assert(consumed(s1, s2));
                lemma_consumed_trans(st, s1, s2);
                lemma_consumed_trans(st, s2, self.state());
            }
            let ghost old_body = body;
            body = QueryBody::Operation {
                left: Box::new(body),
                op: op.unwrap(),
                quantifier,
                right: Box::new(right),
            };
            proof {
                crate::ast::view::lemma_query_body_v_operation(
                    Box::new(old_body),
                    op.unwrap(),
                    quantifier,
                    Box::new(right),
                );
                if cond {
                    if let Parsed::Done(_, m) = spec_query_body(s2.items, next_precedence) {
                        assert(self.state().items =~= cur.items.skip((k + m) as int));
                        crate::parser::grammar::lemma_shift_shift(
                            spec_query_body_rest(self.state().items, precedence, query_body_v(body)),
                            k + m,
                            c,
                        );
                    }
                }
            }
        }
        Ok(body)
    }

    /// Parses a query specification:
    /// `SELECT [ ALL | DISTINCT ] <select list> <from clause> [ <where> ]
    /// [ <group by> ] [ <having> ] [ <window> ]`.
    #[verifier::rlimit(100)]
    #[verifier::spinoff_prover]
    pub fn parse_query_spec(&mut self) -> (r: Result<QuerySpec, ParserError>)
        requires
            old(self).wf(),
        ensures
            final(self).wf(),
            final(self).dialect_in_use() == old(self).dialect_in_use(),
            r is Ok ==> peek_is_keyword(old(self).state(), Keyword::SELECT) && advanced(
                old(self).state(),
                final(self).state(),
            ),
            !peek_is_keyword(old(self).state(), Keyword::SELECT) ==> (r matches Err(e) && error_view(e)
                == (false, spec_expected_message(
                spec_keyword_name(Keyword::SELECT),
                opt_token_view(spec_next(old(self).state())),
            )) && final(self).state() == old(self).state()),
            old(self).state().cursor == 0 ==> meets(
                spec_query_spec(old(self).state().items),
                |q: QuerySpec| query_spec_v(q),
                old(self).state(),
                r,
                final(self).state(),
            ),
        decreases old(self).state().items.len(), 27nat,
    {
        proof {
            reveal(spec_query_spec);
        }
        let ghost st = self.state();
        let ghost s = st.items;
        let ghost cond = st.cursor == 0;
        self.expect_keyword(Keyword::SELECT)?;
        proof { lemma_next_consumed(st); }
        let ghost s1 = self.state();
        let quantifier = self.parse_set_quantifier();
        let ghost s2 = self.state();
        let ghost a: nat = if quantifier is Some { 2 } else { 1 };
        proof {
            lemma_step_advanced(st, s1, s2);
            if cond {
                assert(s1.items =~= s.skip(1));
                assert(s2.items =~= s.skip(a as int));
            }
            lemma_select_rest_len(s2.items, quantifier);
        }
        let spec = self.parse_select_rest(quantifier)?;
        proof {
            lemma_consumed_trans(st, s2, self.state());
            if cond {
                if let Parsed::Done(_, k) = spec_select_rest(s2.items, quantifier) {
                    assert(self.state().items =~= s.skip((a + k) as int));
                }
            }
        }
        Ok(spec)
    }

    /// Parses what follows `SELECT` and its quantifier: the select list, the
    /// `FROM` clause and the optional clauses.
    #[verifier::rlimit(100)]
    #[verifier::spinoff_prover]
    fn parse_select_rest(&mut self, quantifier: Option<SetQuantifier>) -> (r: Result<QuerySpec, ParserError>)
        requires
            old(self).wf(),
        ensures
            final(self).wf(),
            final(self).dialect_in_use() == old(self).dialect_in_use(),
            r is Ok ==> advanced(old(self).state(), final(self).state()),
            old(self).state().cursor == 0 ==> meets(
                spec_select_rest(old(self).state().items, quantifier),
                |q: QuerySpec| query_spec_v(q),
                old(self).state(),
                r,
                final(self).state(),
            ),
        decreases old(self).state().items.len(), 26nat,
    {
        let ghost s2 = self.state();
        let ghost s = s2.items;
        let ghost cond = s2.cursor == 0;
        proof {
            lemma_select_items_len(s2.items);
        }
        let projection = self.parse_select_items()?;
        let ghost s3 = self.state();
        let ghost b: nat = spec_select_items(s2.items)->Done_1;
        proof {
            if spec_select_items(s2.items) is Done {
                assert(s3.items =~= s.skip(b as int));
            }
            lemma_table_refs_len(s3.items.skip(1));
        }
        let from = self.parse_from_clause()?;
        let ghost s4 = self.state();
        let ghost c: nat = spec_table_refs(s3.items.skip(1))->Done_1;
        let ghost pv = select_items_v(projection@);
        let ghost fv = table_refs_v(from.list@);
        proof {
            if spec_select_items(s2.items) is Done && spec_table_refs(s3.items.skip(1)) is Done {
                assert(s4.items =~= s.skip((b + 1 + c) as int));
            }
            lemma_query_spec_clauses_len(s4.items, quantifier, pv, fv);
        }
        let spec = self.parse_query_spec_clauses(quantifier, projection, from)?;
        proof {
            lemma_consumed_trans(s2, s3, s4);
            lemma_consumed_trans(s2, s4, self.state());
            assert(advanced(s2, self.state()));
            if cond && spec_select_rest(s, quantifier) is Done {
                let k = spec_query_spec_clauses(s4.items, quantifier, pv, fv)->Done_1;
                assert(self.state().items =~= s.skip((b + 1 + c + k) as int));
            }
        }
        Ok(spec)
    }

    /// Parses the clauses of a query specification after its `FROM` list,
    /// and builds the query specification from them and the parts before.
    #[verifier::rlimit(100)]
    #[verifier::spinoff_prover]
    fn parse_query_spec_clauses(
        &mut self,
        quantifier: Option<SetQuantifier>,
        projection: Vec<SelectItem>,
        from: From,
    ) -> (r: Result<QuerySpec, ParserError>)
        requires
            old(self).wf(),
        ensures
            final(self).wf(),
            final(self).dialect_in_use() == old(self).dialect_in_use(),
            r is Ok ==> consumed(old(self).state(), final(self).state()),
            r is Ok && old(self).state().cursor == 0 ==> final(self).state().cursor == 0,
            old(self).state().cursor == 0 ==> meets(
                spec_query_spec_clauses(
                    old(self).state().items,
                    quantifier,
                    select_items_v(projection@),
                    table_refs_v(from.list@),
                ),
                |q: QuerySpec| query_spec_v(q),
                old(self).state(),
                r,
                final(self).state(),
            ),
        decreases old(self).state().items.len(), 28nat,
    {
        let ghost s4 = self.state();
        let ghost pv = select_items_v(projection@);
        let ghost fv = table_refs_v(from.list@);
        proof {
            lemma_clause_parts_len(s4.items, Keyword::WHERE);
        }
        let where_clause = self.parse_where_clause()?;
        let ghost s5 = self.state();
        let ghost wv = if where_clause is Some {
            Some(expr_v(*where_clause->Some_0.expr))
        } else {
            None
        };
        proof {
            if s4.cursor == 0 {
                if let Parsed::Done(_, d) = spec_condition_clause(s4.items, Keyword::WHERE) {
                    assert(s5.items =~= s4.items.skip(d as int));
                }
            }
            lemma_clause_parts_len(s5.items, Keyword::WHERE);
        }
        let group_by = self.parse_group_by_clause()?;
        let ghost s6 = self.state();
        let ghost gv = if group_by is Some {
            Some((group_by->Some_0.quantifier, grouping_elements_v(group_by->Some_0.list@)))
        } else {
            None
        };
        proof {
            lemma_clause_parts_len(s6.items, Keyword::HAVING);
        }
        let having = self.parse_having_clause()?;
        let ghost s7 = self.state();
        proof {
            if s6.cursor == 0 {
                if let Parsed::Done(_, f) = spec_condition_clause(s6.items, Keyword::HAVING) {
                    assert(s7.items =~= s6.items.skip(f as int));
                }
            }
            lemma_clause_parts_len(s7.items, Keyword::WINDOW);
        }
        let window = self.parse_window_clause()?;
        proof {
            lemma_consumed_trans(s4, s5, s6);
            lemma_consumed_trans(s4, s6, s7);
            lemma_consumed_trans(s4, s7, self.state());
            if s4.cursor == 0 {
                if let Parsed::Done(_, d) = spec_condition_clause(s4.items, Keyword::WHERE) {
                    assert(spec_query_spec_clauses(s4.items, quantifier, pv, fv) == shift(
                        spec_after_where(s5.items, quantifier, pv, fv, wv),
                        d,
                    ));
                    if let Parsed::Done(_, e) = spec_group_by_part(s5.items) {
                        assert(spec_after_where(s5.items, quantifier, pv, fv, wv) == shift(
                            spec_after_group_by(s6.items, quantifier, pv, fv, wv, gv),
                            e,
                        ));
                        if let Parsed::Done(_, f) = spec_condition_clause(s6.items, Keyword::HAVING) {
                            if let Parsed::Done(_, g) = spec_window_part(s7.items) {
                                assert(self.state().items =~= s4.items.skip((d + e + f + g) as int));
                            }
                        }
                    }
                }
            }
        }
        Ok(QuerySpec { quantifier, projection, from, where_clause, group_by, having, window })
    }

    /// Parses a set quantifier: `ALL` or `DISTINCT`.
    pub fn parse_set_quantifier(&mut self) -> (r: Option<SetQuantifier>)
        requires
            old(self).wf(),
        ensures
            final(self).wf(),
            final(self).dialect_in_use() == old(self).dialect_in_use(),
            r == spec_set_quantifier(old(self).state()),
            r is Some ==> final(self).state() == spec_next_state(old(self).state()),
            r is None ==> final(self).state() == old(self).state(),
            consumed(old(self).state(), final(self).state()),
    {
        let ghost st = self.state();
        proof {
            crate::parser::lemma_consumed_refl(st);
            if st.items.len() > 0 {
                lemma_next_consumed(st);
            }
        }
        if self.parse_keyword(Keyword::ALL) {
            Some(SetQuantifier::All)
        } else if self.parse_keyword(Keyword::DISTINCT) {
            Some(SetQuantifier::Distinct)
        } else {
            None
        }
    }

    /// Parses select items separated by commas.
    #[verifier::loop_isolation(false)]
    #[verifier::rlimit(100)]
    #[verifier::spinoff_prover]
    fn parse_select_items(&mut self) -> (r: Result<Vec<SelectItem>, ParserError>)
        requires
            old(self).wf(),
        ensures
            final(self).wf(),
            final(self).dialect_in_use() == old(self).dialect_in_use(),
            r matches Ok(v) ==> v@.len() > 0 && advanced(old(self).state(), final(self).state()),
            meets(
                spec_select_items(old(self).state().items),
                |v: Vec<SelectItem>| select_items_v(v@),
                old(self).state(),
                r,
                final(self).state(),
            ),
        decreases old(self).state().items.len(), 22nat,
    {
        let ghost st = self.state();
        let ghost f = |t: Seq<Token>| spec_select_item(t);
        let ghost sp = spec_list(st.items, f);
        proof { lemma_select_items_is_list(st.items); }
        proof {
            lemma_select_item_len(st.items);
        }
        let mut list: Vec<SelectItem> = Vec::new();
        let first = self.parse_select_item()?;
        list.push(first);
        proof {
            assert(select_items_v(list@) =~= seq![select_item_v(first)]);
        }
        loop
            invariant
                self.wf(),
                self.dialect_in_use() == old(self).dialect_in_use(),
                advanced(st, self.state()),
                list@.len() > 0,
                f == (|t: Seq<Token>| spec_select_item(t)),
                sp == spec_list(st.items, f),
                sp == prepend(
                    select_items_v(list@),
                    list_tail(self.state().items, f),
                    (st.items.len() - self.state().items.len()) as nat,
                ),
            decreases self.state().items.len(),
        {
            let ghost cur = self.state();
            let ghost c: nat = (st.items.len() - cur.items.len()) as nat;
            proof {
                assert(cur.items == st.items.skip(c as int));
            }
            if !self.next_token_if_is(&Token::Comma) {
                proof {
                    assert(select_items_v(list@) + Seq::<SelectItemV>::empty() =~= select_items_v(list@));
                    assert(self.state() == skip_state(st, c));
                }
                break;
            }
            let ghost mid = self.state();
            proof {
                assert(mid.items =~= cur.items.skip(1));
                lemma_select_item_len(mid.items);
            }
            let e = self.parse_select_item()?;
            proof {
                lemma_step_advanced(st, cur, mid);
                lemma_consumed_trans(st, mid, self.state());
                assert(select_items_v(list@.push(e)) =~= select_items_v(list@).push(select_item_v(e)));
                if let Parsed::Done(_, n) = spec_select_item(mid.items) {
                    assert(self.state().items =~= mid.items.skip(n as int));
                    crate::parser::grammar::lemma_list_tail_step(f, cur.items, select_items_v(list@), c);
                }
            }
            list.push(e);
        }
        Ok(list)
    }

    /// Parses one item of a select list: `*`, `<name>.*`, or
    /// `<expression> [ AS <alias> ]`.
    #[verifier::rlimit(100)]
    #[verifier::spinoff_prover]
    pub fn parse_select_item(&mut self) -> (r: Result<SelectItem, ParserError>)
        requires
            old(self).wf(),
        ensures
            final(self).wf(),
            final(self).dialect_in_use() == old(self).dialect_in_use(),
            r is Ok ==> advanced(old(self).state(), final(self).state()),
            meets(
                spec_select_item(old(self).state().items),
                |x: SelectItem| select_item_v(x),
                old(self).state(),
                r,
                final(self).state(),
            ),
        decreases old(self).state().items.len(), 21nat,
    {
        proof {
            reveal(spec_select_item);
        }
        let ghost st = self.state();
        proof {
            lemma_subexpr_len(st.items, 0);
        }
        let expr = self.parse_expr()?;
        let ghost s1 = self.state();
        proof { crate::ast::view::lemma_expr_v_wildcards(expr); }
        match expr {
            Expr::Wildcard => Ok(SelectItem::Wildcard),
            Expr::QualifiedWildcard(prefix) => Ok(SelectItem::QualifiedWildcard(ObjectName(prefix))),
            expr => {
                let ghost n: nat = (spec_subexpr(st.items, 0)->Done_1);
                proof {
                    if spec_subexpr(st.items, 0) is Done {
                        assert(s1.items =~= st.items.skip(n as int));
                        assert(s1.items.len() > 1 ==> s1.items[1] == st.items[n + 1int]);
                        assert(s1.items.len() > 0 ==> s1.items[0] == st.items[n as int]);
                    }
                }
                let alias = if self.parse_keyword(Keyword::AS) {
                    let ghost s2 = self.state();
                    let a = self.parse_identifier()?;
                    proof {
                        lemma_step_advanced(st, s1, s2);
                        lemma_step_advanced(st, s2, self.state());
                        if spec_subexpr(st.items, 0) is Done {
                            assert(s2.items =~= s1.items.skip(1));
                            assert(spec_next(s2) == Some(s1.items[1]));
                            assert(self.state().items =~= st.items.skip(n + 2int));
                        }
                    }
                    Some(a)
                } else {
                    None
                };
                Ok(SelectItem::DerivedColumn { expr: Box::new(expr), alias })
            },
        }
    }

    /// Parses a `WITH` clause: `WITH [ RECURSIVE ] <cte> [, ...]`.
    #[verifier::rlimit(100)]
    #[verifier::spinoff_prover]
    pub fn parse_with_clause(&mut self) -> (r: Result<Option<With>, ParserError>)
        requires
            old(self).wf(),
        ensures
            final(self).wf(),
            final(self).dialect_in_use() == old(self).dialect_in_use(),
            r matches Ok(None) ==> !peek_is_keyword(old(self).state(), Keyword::WITH) && final(self).state() == old(self).state(),
            r matches Ok(Some(_)) ==> peek_is_keyword(old(self).state(), Keyword::WITH) && advanced(
                old(self).state(),
                final(self).state(),
            ),
            !peek_is_keyword(old(self).state(), Keyword::WITH) ==> (r matches Ok(None)),
            r matches Ok(Some(w)) ==> w.recursive == peek_is_keyword(
                spec_next_state(old(self).state()),
                Keyword::RECURSIVE,
            ) && w.ctes@.len() > 0,
            r is Ok ==> consumed(old(self).state(), final(self).state()),
            old(self).state().cursor == 0 ==> meets(
                spec_with(old(self).state().items),
                |w: Option<With>| opt_with_v(w),
                old(self).state(),
                r,
                final(self).state(),
            ),
        decreases old(self).state().items.len(), 29nat,
    {
        proof {
            reveal(spec_with);
        }
        let ghost st = self.state();
        if self.parse_keyword(Keyword::WITH) {
            proof { lemma_next_consumed(st); }
            let ghost s1 = self.state();
            let recursive = self.parse_keyword(Keyword::RECURSIVE);
            let ghost s2 = self.state();
            let ghost k: nat = if recursive { 2 } else { 1 };
            proof {
                lemma_step_advanced(st, s1, s2);
                if st.cursor == 0 {
                    assert(s1.items =~= st.items.skip(1));
                    assert(s2.items =~= st.items.skip(k as int));
                }
                lemma_ctes_len(s2.items);
            }
            let ctes = self.parse_ctes()?;
            proof {
                lemma_consumed_trans(st, s2, self.state());
                if st.cursor == 0 {
                    if let Parsed::Done(_, n) = spec_ctes(s2.items) {
                        assert(self.state().items =~= st.items.skip((k + n) as int));
                    }
                }
            }
            Ok(Some(With { recursive, ctes }))
        } else {
            proof {
                crate::parser::lemma_consumed_refl(st);
                assert(st.items =~= st.items.skip(0));
            }
            Ok(None)
        }
    }

    /// Parses common table expressions separated by commas.
    #[verifier::loop_isolation(false)]
    #[verifier::rlimit(100)]
    #[verifier::spinoff_prover]
    fn parse_ctes(&mut self) -> (r: Result<Vec<Cte>, ParserError>)
        requires
            old(self).wf(),
        ensures
            final(self).wf(),
            final(self).dialect_in_use() == old(self).dialect_in_use(),
            r matches Ok(v) ==> v@.len() > 0 && advanced(old(self).state(), final(self).state()),
            old(self).state().cursor == 0 ==> meets(
                spec_ctes(old(self).state().items),
                |v: Vec<Cte>| ctes_v(v@),
                old(self).state(),
                r,
                final(self).state(),
            ),
        decreases old(self).state().items.len(), 24nat,
    {
        proof {
            reveal(spec_cte);
        }
        let ghost st = self.state();
        let ghost sp = spec_ctes(st.items);
        let ghost cond = st.cursor == 0;
        let mut list: Vec<Cte> = Vec::new();
        let first = self.parse_cte()?;
        list.push(first);
        proof {
            assert(ctes_v(list@) =~= seq![cte_v(first)]);
            if cond {
                if let Parsed::Done(_, n) = spec_cte(st.items) {
                    assert(self.state().items == st.items.skip(n as int));
                }
            }
        }
        loop
            invariant
                self.wf(),
                self.dialect_in_use() == old(self).dialect_in_use(),
                advanced(st, self.state()),
                list@.len() > 0,
                sp == spec_ctes(st.items),
                cond ==> (sp == prepend(
                    ctes_v(list@),
                    spec_ctes_tail(self.state().items),
                    (st.items.len() - self.state().items.len()) as nat,
                )),
            decreases self.state().items.len(),
        {
            let ghost cur = self.state();
            let ghost c: nat = (st.items.len() - cur.items.len()) as nat;
            proof {
                assert(cur.items == st.items.skip(c as int));
            }
            if !self.next_token_if_is(&Token::Comma) {
                proof {
                    assert(ctes_v(list@) + Seq::<CteV>::empty() =~= ctes_v(list@));
                    assert(self.state() == skip_state(st, c));
                }
                break;
            }
            let ghost mid = self.state();
            proof {
                assert(mid.items =~= cur.items.skip(1));
            }
            let e = self.parse_cte()?;
            proof {
                lemma_step_advanced(st, cur, mid);
                lemma_consumed_trans(st, mid, self.state());
                assert(ctes_v(list@.push(e)) =~= ctes_v(list@).push(cte_v(e)));
                if let Parsed::Done(ev, n) = spec_cte(mid.items) {
                    assert(self.state().items =~= mid.items.skip(n as int));
                    assert(spec_ctes_tail(cur.items) == shift(spec_ctes(mid.items), 1));
                    if let Parsed::Done(l, m) = spec_ctes_tail(self.state().items) {
                        assert(ctes_v(list@) + (seq![cte_v(e)] + l) =~= ctes_v(list@).push(cte_v(e)) + l);
                    }
                }
            }
            list.push(e);
        }
        Ok(list)
    }

    /// Parses a common table expression:
    /// `<name> [ ( <column> [, ...] ) ] AS ( <query expression> )`.
    #[verifier::rlimit(100)]
    #[verifier::spinoff_prover]
    pub fn parse_cte(&mut self) -> (r: Result<Cte, ParserError>)
        requires
            old(self).wf(),
        ensures
            final(self).wf(),
            final(self).dialect_in_use() == old(self).dialect_in_use(),
            r is Ok ==> advanced(old(self).state(), final(self).state()),
            old(self).state().items.len() == 0 || word_ident(old(self).state().items[0]@) is None
                ==> r is Err,
            old(self).state().cursor == 0 ==> meets(
                spec_cte(old(self).state().items),
                |c: Cte| cte_v(c),
                old(self).state(),
                r,
                final(self).state(),
            ),
        decreases old(self).state().items.len(), 23nat,
    {
        proof {
            reveal(spec_cte);
        }
        let ghost st = self.state();
        let ghost s = st.items;
        let name = self.parse_identifier()?;
        proof { lemma_next_consumed(st); }
        let ghost s1 = self.state();
        proof {
            assert(s1.items =~= st.items.skip(1));
            lemma_idents_len(s1.items.skip(1));
            if st.cursor == 0 {
                assert(spec_next(st) == Some(s[0]));
            }
        }
        let columns = self.parse_optional_column_list()?;
        let ghost s2 = self.state();
        let ghost k: nat = if columns is Some {
            (spec_optional_column_list(s1.items)->0).1
        } else {
            0
        };
        proof {
            if columns.is_some() {
                assert(s2.items =~= st.items.skip(st.items.len() - s2.items.len()));
                assert(s2.items =~= s1.items.skip(s1.items.len() - s2.items.len()));
            }
            if st.cursor == 0 {
                assert(s2.items =~= s.skip(1 + k as int));
                assert(s2.items.len() > 0 ==> s2.items[0] == s[1 + k as int]);
                assert(s2.items.len() > 1 ==> s2.items[1] == s[2 + k as int]);
            }
        }
        self.expect_keyword(Keyword::AS)?;
        let ghost s3 = self.state();
        self.expect_token(&Token::LeftParen)?;
        let ghost s4 = self.state();
        proof {
            lemma_consumed_trans(st, s1, s2);
            lemma_step_advanced(st, s2, s3);
            lemma_step_advanced(st, s3, s4);
            if st.cursor == 0 {
                assert(s4.items =~= s2.items.skip(2));
            }
        }
        proof { lemma_query_expr_len(s4.items, true); }
        let query = self.parse_query_expr(true)?;
        let ghost s5 = self.state();
        proof {
            if st.cursor == 0 {
                if let Parsed::Done(_, m) = spec_query_expr(s4.items, true) {
                    assert(s5.items =~= s2.items.skip(2 + m as int));
                    assert(s5.items.len() > 0 ==> s5.items[0] == s2.items[2 + m as int]);
                }
            }
        }
        self.expect_token(&Token::RightParen)?;
        proof {
            lemma_consumed_trans(st, s4, s5);
            crate::parser::lemma_consumed_then_next(st, s5);
            if st.cursor == 0 {
                if let Parsed::Done(_, m) = spec_query_expr(s4.items, true) {
                    assert(self.state().items =~= s.skip(1 + k + m + 3 as int));
                }
            }
        }
        Ok(Cte { name, columns, query: Box::new(query) })
    }

    /// Parses an optional parenthesized list of identifiers separated by
    /// commas.
    pub(crate) fn parse_optional_column_list(&mut self) -> (r: Result<Option<Vec<Ident>>, ParserError>)
        requires
            old(self).wf(),
        ensures
            final(self).wf(),
            final(self).dialect_in_use() == old(self).dialect_in_use(),
            r matches Ok(None) ==> final(self).state() == old(self).state(),
            r matches Ok(Some(_)) ==> advanced(old(self).state(), final(self).state()),
            r is Ok ==> consumed(old(self).state(), final(self).state()),
            old(self).state().cursor == 0 ==> match spec_optional_column_list(old(self).state().items) {
                Some((Some(l), n)) => r matches Ok(Some(v)) && idents_view(v@) == l
                    && final(self).state() == skip_state(old(self).state(), n),
                Some((None, _)) => r matches Ok(None),
                None => r is Err,
            },
    {
        let ghost st = self.state();
        if self.next_token_if_is(&Token::LeftParen) {
            proof {
                lemma_next_consumed(st);
                assert(self.state().items =~= st.items.skip(1));
            }
            let ghost s1 = self.state();
            proof { lemma_idents_len(s1.items); }
            let columns = self.parse_idents()?;
            let ghost s2 = self.state();
            self.expect_token(&Token::RightParen)?;
            proof {
                lemma_consumed_trans(st, s1, s2);
                crate::parser::lemma_consumed_then_next(st, s2);
                assert(self.state().items =~= st.items.skip(st.items.len() - self.state().items.len()));
            }
            Ok(Some(columns))
        } else {
            proof { crate::parser::lemma_consumed_refl(st); }
            Ok(None)
        }
    }

    /// Parses identifiers separated by commas.
    #[verifier::loop_isolation(false)]
    pub(crate) fn parse_idents(&mut self) -> (r: Result<Vec<Ident>, ParserError>)
        requires
            old(self).wf(),
        ensures
            final(self).wf(),
            final(self).dialect_in_use() == old(self).dialect_in_use(),
            r matches Ok(v) ==> v@.len() > 0 && advanced(old(self).state(), final(self).state()),
            match spec_idents(old(self).state().items) {
                Some((l, n)) => r matches Ok(v) && idents_view(v@) == l && final(self).state()
                    == skip_state(old(self).state(), n),
                None => r is Err,
            },
    {
        let ghost st = self.state();
        let mut list: Vec<Ident> = Vec::new();
        proof { lemma_idents_unfold(st.items); }
        let first = self.parse_identifier()?;
        proof {
            lemma_next_consumed(st);
            assert(self.state().items =~= st.items.skip(1));
        }
        list.push(first);
        proof { assert(idents_view(list@) =~= seq![first@]); }
        loop
            invariant
                self.wf(),
                self.dialect_in_use() == old(self).dialect_in_use(),
                advanced(st, self.state()),
                list@.len() > 0,
                self.state() == skip_state(st, (st.items.len() - self.state().items.len()) as nat),
                spec_idents(st.items) == list_prepend(
                    idents_view(list@),
                    (st.items.len() - self.state().items.len()) as nat,
                    idents_after(self.state().items),
                ),
            decreases self.state().items.len(),
        {
            let ghost cur = self.state();
            if !self.next_token_if_is(&Token::Comma) {
                proof {
                    assert(idents_view(list@) + Seq::<IdentView>::empty() =~= idents_view(list@));
                }
                break;
            }
            let ghost mid = self.state();
            proof {
                assert(mid.items =~= cur.items.skip(1));
                lemma_idents_unfold(mid.items);
            }
            let e = self.parse_identifier()?;
            proof {
                lemma_step_advanced(st, cur, mid);
                lemma_step_advanced(st, mid, self.state());
                assert(self.state().items =~= st.items.skip(st.items.len() - self.state().items.len()));
                assert(self.state().items =~= mid.items.skip(1));
            }
            let ghost old_view = idents_view(list@);
            list.push(e);
            proof {
                assert(idents_view(list@) =~= old_view + seq![e@]);
                match idents_after(self.state().items) {
                    Some((r, m)) => {
                        assert(old_view + (seq![e@] + r) =~= idents_view(list@) + r);
                    },
                    None => {},
                }
            }
        }
        Ok(list)
    }

    /// Parses an `ORDER BY` clause: `ORDER BY <sort specification> [, ...]`.
    pub fn parse_order_by_clause(&mut self) -> (r: Result<Option<OrderBy>, ParserError>)
        requires
            old(self).wf(),
        ensures
            final(self).wf(),
            final(self).dialect_in_use() == old(self).dialect_in_use(),
            r matches Ok(None) ==> !keywords_follow(old(self).state(), seq![Keyword::ORDER, Keyword::BY])
                && final(self).state() == (PeekState { items: old(self).state().items, cursor: 0 }),
            r matches Ok(Some(o)) ==> keywords_follow(
                old(self).state(),
                seq![Keyword::ORDER, Keyword::BY],
            ) && o.list@.len() > 0 && advanced(old(self).state(), final(self).state()),
            !keywords_follow(old(self).state(), seq![Keyword::ORDER, Keyword::BY]) ==> (r matches Ok(None)),
            r is Ok ==> consumed(old(self).state(), final(self).state()),
            keywords_follow(old(self).state(), seq![Keyword::ORDER, Keyword::BY]) ==> match spec_sort_specs(
                old(self).state().items.skip(2),
            ) {
                Parsed::Done(l, n) => r matches Ok(Some(o)) && sort_specs_v(o.list@) == l
                    && final(self).state() == skip_state(old(self).state(), n + 2),
                Parsed::Fails => r is Err,
            },
        decreases old(self).state().items.len(), 25nat,
    {
        let ghost st = self.state();
        let kws = [Keyword::ORDER, Keyword::BY];
        assert(kws@ =~= seq![Keyword::ORDER, Keyword::BY]);
        if self.parse_keywords(&kws) {
            let ghost s1 = self.state();
            proof {
                assert(s1.items =~= st.items.skip(st.items.len() - s1.items.len()));
                lemma_sort_specs_len(s1.items);
            }
            let list = self.parse_sort_specs()?;
            proof {
                lemma_consumed_trans(st, s1, self.state());
                if let Parsed::Done(_, n) = spec_sort_specs(s1.items) {
                    assert(self.state().items =~= st.items.skip(n + 2int));
                }
            }
            Ok(Some(OrderBy { list }))
        } else {
            proof { crate::parser::lemma_consumed_refl(st); }
            Ok(None)
        }
    }

    /// Parses sort specifications separated by commas.
    #[verifier::loop_isolation(false)]
    #[verifier::rlimit(100)]
    #[verifier::spinoff_prover]
    fn parse_sort_specs(&mut self) -> (r: Result<Vec<SortSpec>, ParserError>)
        requires
            old(self).wf(),
        ensures
            final(self).wf(),
            final(self).dialect_in_use() == old(self).dialect_in_use(),
            r matches Ok(v) ==> v@.len() > 0 && advanced(old(self).state(), final(self).state()),
            meets(
                spec_sort_specs(old(self).state().items),
                |v: Vec<SortSpec>| sort_specs_v(v@),
                old(self).state(),
                r,
                final(self).state(),
            ),
        decreases old(self).state().items.len(), 22nat,
    {
        let ghost st = self.state();
        let ghost f = |t: Seq<Token>| spec_sort_spec(t);
        let ghost sp = spec_list(st.items, f);
        proof { lemma_sort_specs_is_list(st.items); }
        proof {
            lemma_sort_spec_len(st.items);
        }
        let mut list: Vec<SortSpec> = Vec::new();
        let first = self.parse_sort_spec()?;
        list.push(first);
        proof {
            assert(sort_specs_v(list@) =~= seq![sort_spec_v(first)]);
        }
        loop
            invariant
                self.wf(),
                self.dialect_in_use() == old(self).dialect_in_use(),
                advanced(st, self.state()),
                list@.len() > 0,
                f == (|t: Seq<Token>| spec_sort_spec(t)),
                sp == spec_list(st.items, f),
                sp == prepend(
                    sort_specs_v(list@),
                    list_tail(self.state().items, f),
                    (st.items.len() - self.state().items.len()) as nat,
                ),
            decreases self.state().items.len(),
        {
            let ghost cur = self.state();
            let ghost c: nat = (st.items.len() - cur.items.len()) as nat;
            proof {
                assert(cur.items == st.items.skip(c as int));
            }
            if !self.next_token_if_is(&Token::Comma) {
                proof {
                    assert(sort_specs_v(list@) + Seq::<SortSpecV>::empty() =~= sort_specs_v(list@));
                    assert(self.state() == skip_state(st, c));
                }
                break;
            }
            let ghost mid = self.state();
            proof {
                assert(mid.items =~= cur.items.skip(1));
                lemma_sort_spec_len(mid.items);
            }
            let e = self.parse_sort_spec()?;
            proof {
                lemma_step_advanced(st, cur, mid);
                lemma_consumed_trans(st, mid, self.state());
                assert(sort_specs_v(list@.push(e)) =~= sort_specs_v(list@).push(sort_spec_v(e)));
                if let Parsed::Done(_, n) = spec_sort_spec(mid.items) {
                    assert(self.state().items =~= mid.items.skip(n as int));
                    if let Parsed::Done(l, m) = list_tail(self.state().items, f) {
                        assert(sort_specs_v(list@) + (seq![sort_spec_v(e)] + l) =~= sort_specs_v(
                            list@,
                        ).push(sort_spec_v(e)) + l);
                    }
                }
            }
            list.push(e);
        }
        Ok(list)
    }

    /// Parses a sort specification:
    /// `<expression> [ ASC | DESC ] [ NULLS FIRST | NULLS LAST ]`.
    #[verifier::rlimit(100)]
    #[verifier::spinoff_prover]
    pub fn parse_sort_spec(&mut self) -> (r: Result<SortSpec, ParserError>)
        requires
            old(self).wf(),
        ensures
            final(self).wf(),
            final(self).dialect_in_use() == old(self).dialect_in_use(),
            r is Ok ==> advanced(old(self).state(), final(self).state()),
            meets(
                spec_sort_spec(old(self).state().items),
                |x: SortSpec| sort_spec_v(x),
                old(self).state(),
                r,
                final(self).state(),
            ),
        decreases old(self).state().items.len(), 21nat,
    {
        let ghost st = self.state();
        let expr = match self.parse_expr() {
            Ok(e) => e,
            Err(err) => {
                proof { lemma_sort_spec_unfold(st.items); }
                return Err(err);
            },
        };
        let ghost s1 = self.state();
        let asc = if self.parse_keyword(Keyword::ASC) {
            Some(true)
        } else if self.parse_keyword(Keyword::DESC) {
            Some(false)
        } else {
            None
        };
        let ghost s2 = self.state();
        proof {
            lemma_step_advanced(st, s1, s2);
            assert(s1.items.skip(1) =~= s1.items.drop_first());
            lemma_two_keywords_follow(s2, Keyword::NULLS, Keyword::FIRST);
            lemma_two_keywords_follow(
                PeekState { items: s2.items, cursor: 0 },
                Keyword::NULLS,
                Keyword::LAST,
            );
        }
        let nulls_first_kws = [Keyword::NULLS, Keyword::FIRST];
        let nulls_last_kws = [Keyword::NULLS, Keyword::LAST];
        proof {
            assert(nulls_first_kws@ =~= seq![Keyword::NULLS, Keyword::FIRST]);
            assert(nulls_last_kws@ =~= seq![Keyword::NULLS, Keyword::LAST]);
        }
        let nulls_first = if self.parse_keywords(&nulls_first_kws) {
            Some(true)
        } else if self.parse_keywords(&nulls_last_kws) {
            Some(false)
        } else {
            None
        };
        proof {
            assert(self.state().items =~= st.items.skip(st.items.len() - self.state().items.len()));
            lemma_subexpr_len(st.items, 0);
            if let Parsed::Done(_, n) = spec_subexpr(st.items, 0) {
                let (_, a) = spec_asc(s1.items);
                let (_, b) = spec_nulls_first(s2.items);
                assert(s2.items =~= st.items.skip((n + a) as int));
                assert(self.state().items =~= st.items.skip((n + a + b) as int));
            }
            lemma_sort_spec_unfold(st.items);
        }
        Ok(SortSpec { expr: Box::new(expr), asc, nulls_first })
    }

    /// Parses a `LIMIT` clause: `LIMIT <count>` or `LIMIT ALL` (no limit).
    /// In a dialect where `LIMIT` is not a keyword, `LIMIT <count>` is read
    /// and left out.
    pub fn parse_limit_clause(&mut self) -> (r: Result<Option<Limit>, ParserError>)
        requires
            old(self).wf(),
        ensures
            final(self).wf(),
            final(self).dialect_in_use() == old(self).dialect_in_use(),
            peek_is_keyword(old(self).state(), Keyword::LIMIT) ==> (r is Ok ==> advanced(
                old(self).state(),
                final(self).state(),
            )),
            r matches Ok(Some(l)) ==> peek_is_keyword(old(self).state(), Keyword::LIMIT) && ({
                let s = spec_next_state(old(self).state()).items;
                spec_literal(s) matches Some((c, n)) ==> l.count@ == c
            }),
            r matches Ok(None) ==> consumed(old(self).state(), final(self).state()),
            r is Ok ==> consumed(old(self).state(), final(self).state()),
            peek_is_keyword(old(self).state(), Keyword::LIMIT) ==> ({
                let s = spec_next_state(old(self).state()).items;
                if s.len() > 0 && is_keyword_token(s[0]@, Keyword::ALL) {
                    r matches Ok(None) && final(self).state() == skip_state(old(self).state(), 2)
                } else {
                    match spec_literal(s) {
                        Some((c, n)) => r matches Ok(Some(l)) && l.count@ == c && final(self).state()
                            == skip_state(old(self).state(), n + 1),
                        None => r is Err,
                    }
                }
            }),
    {
        let ghost st = self.state();
        if self.parse_keyword(Keyword::LIMIT) {
            proof { lemma_next_consumed(st); }
            let ghost s1 = self.state();
            if self.parse_keyword(Keyword::ALL) {
                proof {
                    lemma_step_advanced(st, s1, self.state());
                    assert(self.state().items =~= st.items.skip(2));
                }
                Ok(None)
            } else {
                proof { crate::parser::types::lemma_literal_len(s1.items); }
                let count = self.parse_literal()?;
                proof {
                    lemma_consumed_trans(st, s1, self.state());
                    assert(self.state().items =~= st.items.skip(st.items.len() - self.state().items.len()));
                }
                Ok(Some(Limit { count }))
            }
        } else if self.next_token_if_is(&Token::ident("LIMIT", None)) {
            proof { lemma_next_consumed(st); }
            let ghost s1 = self.state();
            let _count = self.parse_literal()?;
            proof { lemma_consumed_trans(st, s1, self.state()); }
            Ok(None)
        } else {
            proof { assert(st.items =~= st.items.skip(0)); }
            Ok(None)
        }
    }

    /// Parses an `OFFSET` clause: `OFFSET <count> [ ROW | ROWS ]`.
    pub fn parse_offset_clause(&mut self) -> (r: Result<Option<Offset>, ParserError>)
        requires
            old(self).wf(),
        ensures
            final(self).wf(),
            final(self).dialect_in_use() == old(self).dialect_in_use(),
            !peek_is_keyword(old(self).state(), Keyword::OFFSET) ==> (r matches Ok(None)
                && final(self).state() == old(self).state()),
            peek_is_keyword(old(self).state(), Keyword::OFFSET) ==> ({
                let s = spec_next_state(old(self).state()).items;
                match spec_literal(s) {
                    Some((c, n)) => r matches Ok(Some(o)) && o.count@ == c && o.rows == spec_offset_rows(
                        s.skip(n as int),
                    ).0 && final(self).state() == skip_state(
                        old(self).state(),
                        1 + n + spec_offset_rows(s.skip(n as int)).1,
                    ),
                    None => r is Err,
                }
            }),
            r is Ok && peek_is_keyword(old(self).state(), Keyword::OFFSET) ==> advanced(
                old(self).state(),
                final(self).state(),
            ),
            r is Ok ==> consumed(old(self).state(), final(self).state()),
    {
        let ghost st = self.state();
        if self.parse_keyword(Keyword::OFFSET) {
            proof { lemma_next_consumed(st); }
            let ghost s1 = self.state();
            let count = self.parse_literal()?;
            let ghost s2 = self.state();
            let rows = if self.parse_keyword(Keyword::ROW) {
                OffsetRows::Row
            } else if self.parse_keyword(Keyword::ROWS) {
                OffsetRows::Rows
            } else {
                OffsetRows::Omitted
            };
            proof {
                lemma_consumed_trans(st, s1, s2);
                lemma_step_advanced(st, s2, self.state());
                let s = s1.items;
                crate::parser::types::lemma_literal_len(s);
                if spec_literal(s) is Some {
                    let n = (spec_literal(s)->0).1;
                    assert(s2.items == s.skip(n as int));
                    assert(s.skip(n as int).skip(spec_offset_rows(s.skip(n as int)).1 as int)
                        =~= st.items.skip((1 + n + spec_offset_rows(s.skip(n as int)).1) as int));
                }
            }
            Ok(Some(Offset { count, rows }))
        } else {
            proof { crate::parser::lemma_consumed_refl(st); }
            Ok(None)
        }
    }

    /// Parses a `FETCH` clause:
    /// `FETCH { FIRST | NEXT } [ <quantity> [ PERCENT ] ] { ROW | ROWS } { ONLY | WITH TIES }`.
    #[verifier::rlimit(100)]
    #[verifier::spinoff_prover]
    pub fn parse_fetch_clause(&mut self) -> (r: Result<Option<Fetch>, ParserError>)
        requires
            old(self).wf(),
        ensures
            final(self).wf(),
            final(self).dialect_in_use() == old(self).dialect_in_use(),
            !peek_is_keyword(old(self).state(), Keyword::FETCH) ==> (r matches Ok(None)
                && final(self).state() == old(self).state()),
            r is Ok && peek_is_keyword(old(self).state(), Keyword::FETCH) ==> (r matches Ok(Some(_))
                && advanced(old(self).state(), final(self).state())),
            r is Ok ==> consumed(old(self).state(), final(self).state()),
            peek_is_keyword(old(self).state(), Keyword::FETCH) ==> match spec_fetch_rest(
                spec_next_state(old(self).state()).items,
            ) {
                Some((q, p, w, n)) => r matches Ok(Some(f)) && (match f.quantity {
                    Some(l) => q == Some(l@),
                    None => q is None,
                }) && f.percent == p && f.with_ties == w && final(self).state() == skip_state(
                    old(self).state(),
                    n + 1,
                ),
                None => r is Err,
            },
    {
        let ghost st = self.state();
        if self.parse_keyword(Keyword::FETCH) {
            proof { lemma_next_consumed(st); }
            let ghost s1 = self.state();
            let first_next = [Keyword::FIRST, Keyword::NEXT];
            let row_rows = [Keyword::ROW, Keyword::ROWS];
            proof {
                reveal_with_fuel(crate::token::spec_first_keyword_of, 3);
                assert(first_next@.drop_first() =~= seq![Keyword::NEXT]);
                assert(first_next@.drop_first().drop_first() =~= Seq::<Keyword>::empty());
                assert(row_rows@.drop_first() =~= seq![Keyword::ROWS]);
                assert(row_rows@.drop_first().drop_first() =~= Seq::<Keyword>::empty());
            }
            self.expect_one_of_keywords(&first_next, "FIRST or NEXT")?;
            let ghost s2 = self.state();
            proof {
                lemma_step_advanced(st, s1, s2);
                assert(s2.items =~= s1.items.skip(1));
            }
            let ghost t = s2.items;
            let (quantity, percent) = if self.parse_one_of_keywords(&row_rows).is_some() {
                proof { lemma_step_advanced(st, s2, self.state()); }
                (None, false)
            } else {
                let quantity = self.parse_literal()?;
                let ghost s3 = self.state();
                proof { lemma_consumed_trans(st, s2, s3); }
                let percent = self.parse_keyword(Keyword::PERCENT);
                let ghost s4 = self.state();
                proof {
                    lemma_step_advanced(st, s3, s4);
                    crate::parser::types::lemma_literal_len(t);
                    if spec_literal(t) is Some {
                        let n = (spec_literal(t)->0).1;
                        assert(s3.items == t.skip(n as int));
                        if percent {
                            assert(s4.items =~= t.skip(n + 1int));
                        }
                    }
                }
                self.expect_one_of_keywords(&row_rows, "ROW or ROWS")?;
                proof { lemma_step_advanced(st, s4, self.state()); }
                (Some(quantity), percent)
            };
            let ghost s5 = self.state();
            proof {
                assert(s5.items =~= st.items.skip(st.items.len() - s5.items.len()));
                match spec_fetch_quantity(t) {
                    Some((q, p, k)) => {
                        assert(s5.items =~= t.skip(k as int));
                        assert(t.skip(k as int) =~= s1.items.skip(1 + k as int));
                    },
                    None => {},
                }
            }
            let with_ties_kws = [Keyword::WITH, Keyword::TIES];
            proof {
                assert(with_ties_kws@ =~= seq![Keyword::WITH, Keyword::TIES]);
                crate::parser::lemma_two_keywords_follow(s5, Keyword::WITH, Keyword::TIES);
            }
            let with_ties = if self.parse_keyword(Keyword::ONLY) {
                proof { lemma_step_advanced(st, s5, self.state()); }
                false
            } else if self.parse_keywords(&with_ties_kws) {
                proof {
                    assert(self.state().items =~= st.items.skip(st.items.len() - self.state().items.len()));
                }
                true
            } else {
                return self.expected_here("one of ONLY or WITH TIES");
            };
            proof {
                assert(self.state().items =~= st.items.skip(st.items.len() - self.state().items.len()));
            }
            Ok(Some(Fetch { with_ties, percent, quantity }))
        } else {
            proof { crate::parser::lemma_consumed_refl(st); }
            Ok(None)
        }
    }
}

} // verus!
