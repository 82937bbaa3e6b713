//! Parsing table expressions: `FROM`, joins, `WHERE`, `GROUP BY`, `HAVING`
//! and `WINDOW`.
use vstd::prelude::*;

use crate::ast::table::{
    From, GroupBy, GroupingElement, GroupingSet, Having, Join, JoinOperator, JoinSpec,
    TableAlias, TableFactor, TableReference, Where, Window, WindowDef, WindowFrame,
    WindowFrameBound, WindowFrameExclusion, WindowFrameUnits, WindowSpec,
};
use crate::ast::types::{idents_view, object_names_view, ObjectName};
use crate::ast::query::SetQuantifier;
use crate::parser::query::{
    spec_derived_table,
    spec_idents, spec_optional_column_list, spec_set_quantifier, spec_sort_spec, spec_sort_specs,
};
use crate::ast::view::{
    grouping_element_v, grouping_elements_v, grouping_set_v, grouping_sets_v, table_alias_v,
    opt_ident_v, opt_table_alias_v, GroupingElementV, GroupingSetV, TableAliasV,
};
use crate::dialect::Dialect;
use crate::keyword_table::Keyword;
use crate::parser::types::{
    lemma_object_name_len, lemma_step_advanced, skip_state, spec_object_name, token_uint,
    word_ident,
};
use crate::parser::{
    advanced, consumed, keywords_follow, lemma_consumed_trans, lemma_next_consumed, peek_is,
    peek_is_keyword, ParserError, Parser,
};
use crate::peek::{spec_next, spec_next_state, PeekState};
use crate::token::{is_keyword_token, spec_token_sql, IdentView, Token, TokenView};
use crate::ast::text::{
    join_sql, window_frame_bound_sql, window_frame_exclusion_sql, window_frame_units_sql,
};
use crate::text::decimal;
use crate::ast::view::{
    expr_v, join_spec_v, join_v, joins_v, table_factor_v, table_ref_v, table_refs_v, ExprV,
    JoinOperatorV, JoinSpecV, JoinV, TableFactorV, TableReferenceV, SortSpecV, WindowSpecV,
    WindowDefV, window_spec_v, window_def_v, window_defs_v, sort_specs_v,
};
use crate::parser::grammar::{
    lemma_list_len, lemma_subexpr_len, list_tail, meets, prepend, shift, spec_list, spec_subexpr,
    Parsed,
};
use crate::parser::{error_view, opt_token_view, spec_expected_message};
use crate::keyword_table::spec_keyword_name;

verus! {

/// The window frame units that a keyword token names.
pub open spec fn token_frame_units(t: TokenView) -> Option<WindowFrameUnits> {
    if is_keyword_token(t, Keyword::ROWS) {
        Some(WindowFrameUnits::Rows)
    } else if is_keyword_token(t, Keyword::RANGE) {
        Some(WindowFrameUnits::Range)
    } else if is_keyword_token(t, Keyword::GROUPS) {
        Some(WindowFrameUnits::Groups)
    } else {
        None
    }
}

/// The bound `{ UNBOUNDED | <n> } { PRECEDING | FOLLOWING }` at the front of
/// the tokens, and the number of tokens it takes.
pub open spec fn spec_frame_bound(s: Seq<Token>) -> Option<(WindowFrameBound, nat)> {
    let rows: Option<Option<u64>> = if s.len() > 0 && is_keyword_token(s[0]@, Keyword::UNBOUNDED) {
        Some(None)
    } else if s.len() > 0 && token_uint(s[0]@) is Some {
        Some(token_uint(s[0]@))
    } else {
        None
    };
    match rows {
        Some(n) => if s.len() > 1 && is_keyword_token(s[1]@, Keyword::PRECEDING) {
            Some((WindowFrameBound::Preceding(n), 2))
        } else if s.len() > 1 && is_keyword_token(s[1]@, Keyword::FOLLOWING) {
            Some((WindowFrameBound::Following(n), 2))
        } else {
            None
        },
        None => None,
    }
}

/// The window frame exclusion after `EXCLUDE` at the front of the tokens,
/// and the number of tokens it takes.
pub open spec fn spec_frame_exclusion(s: Seq<Token>) -> Option<(WindowFrameExclusion, nat)> {
    if s.len() > 1 && is_keyword_token(s[0]@, Keyword::CURRENT) && is_keyword_token(
        s[1]@,
        Keyword::ROW,
    ) {
        Some((WindowFrameExclusion::CurrentRow, 2))
    } else if s.len() > 0 && is_keyword_token(s[0]@, Keyword::GROUP) {
        Some((WindowFrameExclusion::Group, 1))
    } else if s.len() > 0 && is_keyword_token(s[0]@, Keyword::TIES) {
        Some((WindowFrameExclusion::Ties, 1))
    } else if s.len() > 1 && is_keyword_token(s[0]@, Keyword::NO) && is_keyword_token(
        s[1]@,
        Keyword::OTHERS,
    ) {
        Some((WindowFrameExclusion::NoOthers, 2))
    } else {
        None
    }
}

/// A window frame bound at the front of the tokens: `CURRENT ROW` or
/// `{ UNBOUNDED | <n> } { PRECEDING | FOLLOWING }`.
pub open spec fn spec_bound(s: Seq<Token>) -> Option<(WindowFrameBound, nat)> {
    if s.len() > 1 && is_keyword_token(s[0]@, Keyword::CURRENT) && is_keyword_token(
        s[1]@,
        Keyword::ROW,
    ) {
        Some((WindowFrameBound::CurrentRow, 2))
    } else {
        spec_frame_bound(s)
    }
}

/// Frame units write back as the keyword they were read from: `ROWS`,
/// `RANGE` and `GROUPS` each name their own units.
pub proof fn law_frame_units_is_its_keyword(t: TokenView)
    ensures
        token_frame_units(t) matches Some(u) ==> window_frame_units_sql(u) == spec_token_sql(t),
{
    reveal_strlit("ROWS");
    reveal_strlit("RANGE");
    reveal_strlit("GROUPS");
}

/// A frame exclusion writes back as the keywords it was read from,
/// separated by a space.
pub proof fn law_frame_exclusion_is_its_text(s: Seq<Token>)
    ensures
        spec_frame_exclusion(s) matches Some((x, n)) ==> (n == 1 || n == 2) && n <= s.len()
            && window_frame_exclusion_sql(x) == (if n == 1 {
            spec_token_sql(s[0]@)
        } else {
            spec_token_sql(s[0]@) + " "@ + spec_token_sql(s[1]@)
        }),
{
    reveal_strlit("CURRENT");
    reveal_strlit("ROW");
    reveal_strlit("CURRENT ROW");
    reveal_strlit("GROUP");
    reveal_strlit("TIES");
    reveal_strlit("NO");
    reveal_strlit("OTHERS");
    reveal_strlit("NO OTHERS");
    reveal_strlit(" ");
    assert("CURRENT ROW"@ =~= "CURRENT"@ + " "@ + "ROW"@);
    assert("NO OTHERS"@ =~= "NO"@ + " "@ + "OTHERS"@);
}

/// The text of the row count of a bound as read from its token: the number
/// read, or the keyword `UNBOUNDED`.
pub open spec fn bound_count_text(t: TokenView) -> Seq<char> {
    match token_uint(t) {
        Some(n) => decimal(n as nat),
        None => spec_token_sql(t),
    }
}

/// A frame bound writes back as the two tokens it was read from, separated
/// by a space, its row count written as the number that was read.
pub proof fn law_frame_bound_is_its_text(s: Seq<Token>)
    ensures
        spec_bound(s) matches Some((b, n)) ==> n == 2 && s.len() > 1 && window_frame_bound_sql(b)
            == bound_count_text(s[0]@) + " "@ + spec_token_sql(s[1]@),
{
    reveal_strlit("CURRENT");
    reveal_strlit("ROW");
    reveal_strlit("CURRENT ROW");
    reveal_strlit("UNBOUNDED");
    reveal_strlit("PRECEDING");
    reveal_strlit("FOLLOWING");
    reveal_strlit("UNBOUNDED PRECEDING");
    reveal_strlit("UNBOUNDED FOLLOWING");
    reveal_strlit(" PRECEDING");
    reveal_strlit(" FOLLOWING");
    reveal_strlit(" ");
    assert("CURRENT ROW"@ =~= "CURRENT"@ + " "@ + "ROW"@);
    assert("UNBOUNDED PRECEDING"@ =~= "UNBOUNDED"@ + " "@ + "PRECEDING"@);
    assert("UNBOUNDED FOLLOWING"@ =~= "UNBOUNDED"@ + " "@ + "FOLLOWING"@);
    assert(" PRECEDING"@ =~= " "@ + "PRECEDING"@);
    assert(" FOLLOWING"@ =~= " "@ + "FOLLOWING"@);
    if s.len() > 1 {
        let c = bound_count_text(s[0]@);
        assert(c + " PRECEDING"@ =~= c + " "@ + "PRECEDING"@);
        assert(c + " FOLLOWING"@ =~= c + " "@ + "FOLLOWING"@);
    }
}

/// The bounds of a frame after its units at the front of the tokens:
/// `BETWEEN <bound> AND <bound>` or `<bound>`.
pub open spec fn spec_frame_extent(t: Seq<Token>) -> Option<(WindowFrameBound, Option<WindowFrameBound>, nat)> {
    if t.len() > 0 && is_keyword_token(t[0]@, Keyword::BETWEEN) {
        match spec_bound(t.skip(1)) {
            Some((b1, n1)) => {
                let u = t.skip(1).skip(n1 as int);
                if u.len() > 0 && is_keyword_token(u[0]@, Keyword::AND) {
                    match spec_bound(u.skip(1)) {
                        Some((b2, n2)) => Some((b1, Some(b2), 1 + n1 + 1 + n2)),
                        None => None,
                    }
                } else {
                    None
                }
            },
            None => None,
        }
    } else {
        match spec_bound(t) {
            Some((b, n)) => Some((b, None, n)),
            None => None,
        }
    }
}

/// A window frame clause at the front of the tokens, or nothing:
/// `<units> <extent> [ EXCLUDE <exclusion> ]`.
pub open spec fn spec_window_frame(s: Seq<Token>) -> Option<(Option<WindowFrame>, nat)> {
    if s.len() > 0 && token_frame_units(s[0]@) is Some {
        let units = token_frame_units(s[0]@)->0;
        match spec_frame_extent(s.skip(1)) {
            Some((start_bound, end_bound, k)) => {
                let v = s.skip(1).skip(k as int);
                if v.len() > 0 && is_keyword_token(v[0]@, Keyword::EXCLUDE) {
                    match spec_frame_exclusion(v.skip(1)) {
                        Some((x, m)) => Some((
                            Some(WindowFrame { units, start_bound, end_bound, exclusion: Some(x) }),
                            1 + k + 1 + m,
                        )),
                        None => None,
                    }
                } else {
                    Some((Some(WindowFrame { units, start_bound, end_bound, exclusion: None }), 1 + k))
                }
            },
            None => None,
        }
    } else {
        Some((None, 0))
    }
}

/// The keyword that writes the units of a frame.
pub open spec fn frame_units_keyword(u: WindowFrameUnits) -> Keyword {
    match u {
        WindowFrameUnits::Rows => Keyword::ROWS,
        WindowFrameUnits::Range => Keyword::RANGE,
        WindowFrameUnits::Groups => Keyword::GROUPS,
    }
}

/// Whether the token writes the row count of a bound: `UNBOUNDED` for no
/// count, a number with the count's value otherwise.
pub open spec fn is_bound_count_token(t: TokenView, n: Option<u64>) -> bool {
    match n {
        None => is_keyword_token(t, Keyword::UNBOUNDED),
        Some(v) => token_uint(t) == Some(v),
    }
}

/// Whether the two tokens at the front of `s` write the frame bound `b`.
pub open spec fn bound_tokens_at(s: Seq<Token>, b: WindowFrameBound) -> bool {
    &&& s.len() > 1
    &&& match b {
        WindowFrameBound::CurrentRow => is_keyword_token(s[0]@, Keyword::CURRENT)
            && is_keyword_token(s[1]@, Keyword::ROW),
        WindowFrameBound::Preceding(n) => is_bound_count_token(s[0]@, n) && is_keyword_token(
            s[1]@,
            Keyword::PRECEDING,
        ),
        WindowFrameBound::Following(n) => is_bound_count_token(s[0]@, n) && is_keyword_token(
            s[1]@,
            Keyword::FOLLOWING,
        ),
    }
}

/// The number of tokens that write the exclusion `x` after `EXCLUDE`.
pub open spec fn exclusion_token_count(x: WindowFrameExclusion) -> nat {
    match x {
        WindowFrameExclusion::CurrentRow => 2,
        WindowFrameExclusion::Group => 1,
        WindowFrameExclusion::Ties => 1,
        WindowFrameExclusion::NoOthers => 2,
    }
}

/// Whether the tokens at the front of `s` write the exclusion `x`.
pub open spec fn exclusion_tokens_at(s: Seq<Token>, x: WindowFrameExclusion) -> bool {
    match x {
        WindowFrameExclusion::CurrentRow => s.len() > 1 && is_keyword_token(s[0]@, Keyword::CURRENT)
            && is_keyword_token(s[1]@, Keyword::ROW),
        WindowFrameExclusion::Group => s.len() > 0 && is_keyword_token(s[0]@, Keyword::GROUP),
        WindowFrameExclusion::Ties => s.len() > 0 && is_keyword_token(s[0]@, Keyword::TIES),
        WindowFrameExclusion::NoOthers => s.len() > 1 && is_keyword_token(s[0]@, Keyword::NO)
            && is_keyword_token(s[1]@, Keyword::OTHERS),
    }
}

/// The number of tokens that write the bounds of the frame `f`:
/// `BETWEEN <bound> AND <bound>` or `<bound>`.
pub open spec fn frame_extent_token_count(f: WindowFrame) -> nat {
    match f.end_bound {
        Some(_) => 6,
        None => 2,
    }
}

/// The number of tokens that write the frame `f`.
pub open spec fn frame_token_count(f: WindowFrame) -> nat {
    1 + frame_extent_token_count(f) + match f.exclusion {
        Some(x) => 1 + exclusion_token_count(x),
        None => 0,
    }
}

/// Whether the tokens at the front of `s` write the frame `f`, in the form
/// `<units> { BETWEEN <bound> AND <bound> | <bound> } [ EXCLUDE <exclusion> ]`,
/// and no `EXCLUDE` follows a frame without an exclusion.
pub open spec fn frame_tokens_at(s: Seq<Token>, f: WindowFrame) -> bool {
    &&& s.len() > 0
    &&& is_keyword_token(s[0]@, frame_units_keyword(f.units))
    &&& match f.end_bound {
        Some(e) => {
            &&& s.len() > 4
            &&& is_keyword_token(s[1]@, Keyword::BETWEEN)
            &&& bound_tokens_at(s.skip(2), f.start_bound)
            &&& is_keyword_token(s[4]@, Keyword::AND)
            &&& bound_tokens_at(s.skip(5), e)
        },
        None => bound_tokens_at(s.skip(1), f.start_bound),
    }
    &&& {
        let v = s.skip(1 + frame_extent_token_count(f) as int);
        match f.exclusion {
            Some(x) => v.len() > 0 && is_keyword_token(v[0]@, Keyword::EXCLUDE)
                && exclusion_tokens_at(v.skip(1), x),
            None => !(v.len() > 0 && is_keyword_token(v[0]@, Keyword::EXCLUDE)),
        }
    }
}

proof fn lemma_bound_tokens_read_back(s: Seq<Token>, b: WindowFrameBound)
    requires
        bound_tokens_at(s, b),
    ensures
        spec_bound(s) == Some((b, 2nat)),
{
}

/// Reading a window frame back from the tokens that write it gives the
/// frame: its units, both bounds and its exclusion come out as they were
/// written, and the frame takes exactly its tokens.
pub proof fn law_window_frame_read_back(s: Seq<Token>, f: WindowFrame)
    requires
        frame_tokens_at(s, f),
    ensures
        spec_window_frame(s) == Some((Some(f), frame_token_count(f))),
{
    let t = s.skip(1);
    match f.end_bound {
        Some(e) => {
            assert(t.skip(1) =~= s.skip(2));
            lemma_bound_tokens_read_back(s.skip(2), f.start_bound);
            assert(t.skip(1).skip(2) =~= s.skip(4));
            assert(t.skip(1).skip(2).skip(1) =~= s.skip(5));
            lemma_bound_tokens_read_back(s.skip(5), e);
        },
        None => {
            lemma_bound_tokens_read_back(t, f.start_bound);
        },
    }
    let k = frame_extent_token_count(f);
    assert(spec_frame_extent(t) == Some((f.start_bound, f.end_bound, k)));
    assert(t.skip(k as int) =~= s.skip(1 + k as int));
}

/// A window specification at the front of the tokens:
/// `( [ PARTITION BY <columns> ] [ ORDER BY <sort specifications> ] [ <frame> ] )`.
pub open spec fn spec_window_spec(s: Seq<Token>) -> Parsed<WindowSpecV> 
    decreases s.len(), 3nat,
{
    if s.len() > 0 && s[0]@ == TokenView::LeftParen {
        let t = s.skip(1);
        let part: Option<(Option<Seq<Seq<IdentView>>>, nat)> = if partition_by_at(t) {
            match spec_object_names(t.skip(2)) {
                Some((names, n)) => Some((Some(names), n + 2)),
                None => None,
            }
        } else {
            Some((None, 0))
        };
        match part {
            Some((partition_by, a)) => if a <= t.len() {
                let u = t.skip(a as int);
                let order: Parsed<Option<Seq<SortSpecV>>> = if u.len() > 1 && is_keyword_token(
                    u[0]@,
                    Keyword::ORDER,
                ) && is_keyword_token(u[1]@, Keyword::BY) {
                    match spec_sort_specs(u.skip(2)) {
                        Parsed::Done(l, n) => Parsed::Done(Some(l), n + 2),
                        Parsed::Fails => Parsed::Fails,
                    }
                } else {
                    Parsed::Done(None, 0)
                };
                match order {
                    Parsed::Done(order_by, b) => {
                        let v = u.skip(b as int);
                        match spec_window_frame(v) {
                            Some((window_frame, c)) => {
                                let w = v.skip(c as int);
                                if w.len() > 0 && w[0]@ == TokenView::RightParen {
                                    Parsed::Done(
                                        WindowSpecV { name: None, partition_by, order_by, window_frame },
                                        1 + a + b + c + 1,
                                    )
                                } else {
                                    Parsed::Fails
                                }
                            },
                            None => Parsed::Fails,
                        }
                    },
                    Parsed::Fails => Parsed::Fails,
                }
            } else {
                Parsed::Fails
            },
            None => Parsed::Fails,
        }
    } else {
        Parsed::Fails
    }
}

/// A window definition at the front of the tokens:
/// `<name> [ AS ] <window specification>`.
pub open spec fn spec_window_def(s: Seq<Token>) -> Parsed<WindowDefV> 
    decreases s.len(), 4nat,
{
    if s.len() > 0 && word_ident(s[0]@) is Some {
        let a: nat = if s.len() > 1 && is_keyword_token(s[1]@, Keyword::AS) {
            2
        } else {
            1
        };
        match spec_window_spec(s.skip(a as int)) {
            Parsed::Done(spec, n) => Parsed::Done(
                WindowDefV { name: word_ident(s[0]@)->0, spec },
                a + n,
            ),
            Parsed::Fails => Parsed::Fails,
        }
    } else {
        Parsed::Fails
    }
}

/// An optional clause of one keyword and a condition at the front of the
/// tokens: `<keyword> <expression>`, or nothing.
#[verifier::opaque]
pub open spec fn spec_condition_clause(s: Seq<Token>, keyword: Keyword) -> Parsed<Option<ExprV>> 
    decreases s.len(), 1nat,
{
    if s.len() > 0 && is_keyword_token(s[0]@, keyword) {
        match spec_subexpr(s.skip(1), 0) {
            Parsed::Done(e, n) => Parsed::Done(Some(e), n + 1),
            Parsed::Fails => Parsed::Fails,
        }
    } else {
        Parsed::Done(None, 0)
    }
}

/// An optional `GROUP BY` clause at the front of the tokens:
/// `GROUP BY [ DISTINCT | ALL ] <grouping element> [, ...]`, or nothing.
#[verifier::opaque]
pub open spec fn spec_group_by_part(s: Seq<Token>) -> Parsed<Option<(Option<SetQuantifier>, Seq<GroupingElementV>)>> {
    if s.len() > 1 && is_keyword_token(s[0]@, Keyword::GROUP) && is_keyword_token(s[1]@, Keyword::BY) {
        let q = spec_set_quantifier(PeekState { items: s.skip(2), cursor: 0 });
        let k: nat = if q is Some {
            3
        } else {
            2
        };
        match spec_grouping_elements(s.skip(k as int)) {
            Some((l, n)) => Parsed::Done(Some((q, l)), k + n),
            None => Parsed::Fails,
        }
    } else {
        Parsed::Done(None, 0)
    }
}

/// An optional `WINDOW` clause at the front of the tokens:
/// `WINDOW <window definition> [, ...]`, or nothing.
#[verifier::opaque]
pub open spec fn spec_window_part(s: Seq<Token>) -> Parsed<Option<Seq<WindowDefV>>> 
    decreases s.len(), 1nat,
{
    if s.len() > 0 && is_keyword_token(s[0]@, Keyword::WINDOW) {
        match spec_window_defs(s.skip(1)) {
            Parsed::Done(l, n) => Parsed::Done(Some(l), n + 1),
            Parsed::Fails => Parsed::Fails,
        }
    } else {
        Parsed::Done(None, 0)
    }
}

/// The optional clauses after a `FROM` list take no more tokens than there
/// are.
pub proof fn lemma_clause_parts_len(s: Seq<Token>, keyword: Keyword)
    ensures
        spec_condition_clause(s, keyword) matches Parsed::Done(_, n) ==> n <= s.len(),
        spec_group_by_part(s) matches Parsed::Done(_, n) ==> n <= s.len(),
        spec_window_part(s) matches Parsed::Done(_, n) ==> n <= s.len(),
{
    reveal(spec_condition_clause);
    reveal(spec_window_part);
    reveal(spec_group_by_part);
    if s.len() > 0 {
        lemma_subexpr_len(s.skip(1), 0);
        lemma_window_defs_len(s.skip(1));
    }
    if s.len() > 1 {
        lemma_grouping_elements_len(s.skip(2));
    }
    if s.len() > 2 {
        lemma_grouping_elements_len(s.skip(3));
    }
}

/// Window definitions separated by commas at the front of the tokens.
pub open spec fn spec_window_defs(s: Seq<Token>) -> Parsed<Seq<WindowDefV>>
    decreases s.len(), 5nat,
{
    match spec_window_def(s) {
        Parsed::Done(e, n) => if 0 < n <= s.len() {
            prepend(seq![e], spec_window_defs_tail(s.skip(n as int)), n)
        } else {
            Parsed::Fails
        },
        Parsed::Fails => Parsed::Fails,
    }
}

/// What follows an item of the list: `, <item>` again and again.
pub open spec fn spec_window_defs_tail(t: Seq<Token>) -> Parsed<Seq<WindowDefV>>
    decreases t.len(), 5nat,
{
    if t.len() > 0 && t[0]@ == TokenView::Comma {
        shift(spec_window_defs(t.skip(1)), 1)
    } else {
        Parsed::Done(Seq::empty(), 0)
    }
}

/// The list is the comma-separated list of its items.
pub proof fn lemma_window_defs_is_list(s: Seq<Token>)
    ensures
        spec_window_defs(s) == spec_list(s, |t: Seq<Token>| spec_window_def(t)),
    decreases s.len(),
{
    if let Parsed::Done(e, n) = spec_window_def(s) {
        if 0 < n <= s.len() {
            let t = s.skip(n as int);
            if t.len() > 0 && t[0]@ == TokenView::Comma {
                lemma_window_defs_is_list(t.skip(1));
            }
        }
    }
}

/// The list takes at least one token and no more than there are.
pub proof fn lemma_window_defs_len(s: Seq<Token>)
    ensures
        spec_window_defs(s) matches Parsed::Done(_, n) ==> 0 < n <= s.len(),
{
    lemma_window_defs_is_list(s);
    lemma_list_len(s, |t: Seq<Token>| spec_window_def(t));
}

/// A window frame clause takes no more tokens than there are.
pub proof fn lemma_window_frame_len(s: Seq<Token>)
    ensures
        spec_window_frame(s) matches Some((_, n)) ==> n <= s.len(),
{
}

/// Object names separated by commas at the front of the tokens, and the
/// number of tokens they take.
pub open spec fn spec_object_names(s: Seq<Token>) -> Option<(Seq<Seq<IdentView>>, nat)>
    decreases s.len(),
{
    match spec_object_name(s) {
        Some((n, k)) => {
            proof { lemma_object_name_len(s); }
            if s.len() > k && s[k as int]@ == TokenView::Comma {
                list_prepend(seq![n], k + 1, spec_object_names(s.skip(k + 1int)))
            } else {
                Some((seq![n], k))
            }
        },
        None => None,
    }
}

/// A list with `prefix` in front, the prefix taking `k` tokens.
pub open spec fn list_prepend<A>(prefix: Seq<A>, k: nat, rest: Option<(Seq<A>, nat)>) -> Option<(Seq<A>, nat)> {
    match rest {
        Some((r, m)) => Some((prefix + r, k + m)),
        None => None,
    }
}

/// What follows an object name in a list: `, <object names>`, or nothing.
pub open spec fn object_names_after(s: Seq<Token>) -> Option<(Seq<Seq<IdentView>>, nat)> {
    if s.len() > 0 && s[0]@ == TokenView::Comma {
        list_prepend(Seq::empty(), 1, spec_object_names(s.skip(1)))
    } else {
        Some((Seq::empty(), 0))
    }
}

/// An object name list is its first name followed by what comes after it.
pub proof fn lemma_object_names_unfold(s: Seq<Token>)
    ensures
        spec_object_name(s) matches Some((n, k)) ==> spec_object_names(s) == list_prepend(
            seq![n],
            k,
            object_names_after(s.skip(k as int)),
        ),
        spec_object_name(s) is None ==> spec_object_names(s) is None,
{
    if let Some((n, k)) = spec_object_name(s) {
        lemma_object_name_len(s);
        let t = s.skip(k as int);
        if s.len() > k && s[k as int]@ == TokenView::Comma {
            assert(t.skip(1) =~= s.skip(k + 1int));
            match spec_object_names(s.skip(k + 1int)) {
                Some((r, m)) => {
                    assert(seq![n] + (Seq::<Seq<IdentView>>::empty() + r) =~= seq![n] + r);
                },
                None => {},
            }
        } else {
            assert(seq![n] + Seq::<Seq<IdentView>>::empty() =~= seq![n]);
        }
    }
}

/// An object name list takes some of the tokens and has some names.
pub proof fn lemma_object_names_len(s: Seq<Token>)
    ensures
        spec_object_names(s) matches Some((ns, k)) ==> 1 <= k <= s.len() && ns.len() > 0,
    decreases s.len(),
{
    lemma_object_name_len(s);
    if let Some((n, k)) = spec_object_name(s) {
        if s.len() > k && s[k as int]@ == TokenView::Comma {
            lemma_object_names_len(s.skip(k + 1int));
        }
    }
}

/// The ordinary grouping set at the front of the tokens: a column, or
/// columns in parentheses separated by commas.
pub open spec fn spec_grouping_set(s: Seq<Token>) -> Option<(GroupingSetV, nat)> {
    if s.len() > 0 && s[0]@ == TokenView::LeftParen {
        match spec_object_names(s.skip(1)) {
            Some((ns, k)) => if s.len() > k + 1 && s[k + 1int]@ == TokenView::RightParen {
                Some((GroupingSetV::Columns(ns), k + 2))
            } else {
                None
            },
            None => None,
        }
    } else {
        match spec_object_name(s) {
            Some((n, k)) => Some((GroupingSetV::Column(n), k)),
            None => None,
        }
    }
}

/// A grouping set takes some of the tokens.
pub proof fn lemma_grouping_set_len(s: Seq<Token>)
    ensures
        spec_grouping_set(s) matches Some((g, k)) ==> 1 <= k <= s.len(),
{
    lemma_object_name_len(s);
    if s.len() > 0 {
        lemma_object_names_len(s.skip(1));
    }
}

/// Ordinary grouping sets separated by commas at the front of the tokens.
pub open spec fn spec_grouping_sets(s: Seq<Token>) -> Option<(Seq<GroupingSetV>, nat)>
    decreases s.len(),
{
    match spec_grouping_set(s) {
        Some((g, k)) => {
            proof { lemma_grouping_set_len(s); }
            if s.len() > k && s[k as int]@ == TokenView::Comma {
                list_prepend(seq![g], k + 1, spec_grouping_sets(s.skip(k + 1int)))
            } else {
                Some((seq![g], k))
            }
        },
        None => None,
    }
}

/// What follows a grouping set in a list: `, <grouping sets>`, or nothing.
pub open spec fn grouping_sets_after(s: Seq<Token>) -> Option<(Seq<GroupingSetV>, nat)> {
    if s.len() > 0 && s[0]@ == TokenView::Comma {
        list_prepend(Seq::empty(), 1, spec_grouping_sets(s.skip(1)))
    } else {
        Some((Seq::empty(), 0))
    }
}

/// A grouping set list is its first set followed by what comes after it.
pub proof fn lemma_grouping_sets_unfold(s: Seq<Token>)
    ensures
        spec_grouping_set(s) matches Some((g, k)) ==> spec_grouping_sets(s) == list_prepend(
            seq![g],
            k,
            grouping_sets_after(s.skip(k as int)),
        ),
        spec_grouping_set(s) is None ==> spec_grouping_sets(s) is None,
{
    if let Some((g, k)) = spec_grouping_set(s) {
        lemma_grouping_set_len(s);
        let t = s.skip(k as int);
        if s.len() > k && s[k as int]@ == TokenView::Comma {
            assert(t.skip(1) =~= s.skip(k + 1int));
            match spec_grouping_sets(s.skip(k + 1int)) {
                Some((r, m)) => {
                    assert(seq![g] + (Seq::<GroupingSetV>::empty() + r) =~= seq![g] + r);
                },
                None => {},
            }
        } else {
            assert(seq![g] + Seq::<GroupingSetV>::empty() =~= seq![g]);
        }
    }
}

/// A grouping set list takes some of the tokens and has some sets.
pub proof fn lemma_grouping_sets_len(s: Seq<Token>)
    ensures
        spec_grouping_sets(s) matches Some((l, k)) ==> 1 <= k <= s.len() && l.len() > 0,
    decreases s.len(),
{
    lemma_grouping_set_len(s);
    if let Some((g, k)) = spec_grouping_set(s) {
        if s.len() > k && s[k as int]@ == TokenView::Comma {
            lemma_grouping_sets_len(s.skip(k + 1int));
        }
    }
}

/// The grouping element at the front of the tokens: `ROLLUP <grouping sets>`,
/// `CUBE <grouping sets>`, `GROUPING SETS ( <grouping elements> )`, `( )`,
/// or an ordinary grouping set.
pub open spec fn spec_grouping_element(s: Seq<Token>) -> Option<(GroupingElementV, nat)>
    decreases s.len(), 0nat,
{
    if s.len() > 0 && is_keyword_token(s[0]@, Keyword::ROLLUP) {
        match spec_grouping_sets(s.skip(1)) {
            Some((l, k)) => Some((GroupingElementV::Rollup(l), k + 1)),
            None => None,
        }
    } else if s.len() > 0 && is_keyword_token(s[0]@, Keyword::CUBE) {
        match spec_grouping_sets(s.skip(1)) {
            Some((l, k)) => Some((GroupingElementV::Cube(l), k + 1)),
            None => None,
        }
    } else if s.len() > 1 && is_keyword_token(s[0]@, Keyword::GROUPING) && is_keyword_token(
        s[1]@,
        Keyword::SETS,
    ) {
        if s.len() > 2 && s[2]@ == TokenView::LeftParen {
            match spec_grouping_elements(s.skip(3)) {
                Some((l, k)) => if s.len() > k + 3 && s[k + 3int]@ == TokenView::RightParen {
                    Some((GroupingElementV::Sets(l), k + 4))
                } else {
                    None
                },
                None => None,
            }
        } else {
            None
        }
    } else if s.len() > 1 && s[0]@ == TokenView::LeftParen && s[1]@ == TokenView::RightParen {
        Some((GroupingElementV::Empty, 2))
    } else {
        match spec_grouping_set(s) {
            Some((g, k)) => Some((GroupingElementV::OrdinarySet(g), k)),
            None => None,
        }
    }
}

/// Grouping elements separated by commas at the front of the tokens.
pub open spec fn spec_grouping_elements(s: Seq<Token>) -> Option<(Seq<GroupingElementV>, nat)>
    decreases s.len(), 1nat,
{
    match spec_grouping_element(s) {
        Some((g, k)) => if 0 < k < s.len() && s[k as int]@ == TokenView::Comma {
            list_prepend(seq![g], k + 1, spec_grouping_elements(s.skip(k + 1int)))
        } else {
            Some((seq![g], k))
        },
        None => None,
    }
}

/// A grouping element takes some of the tokens.
pub proof fn lemma_grouping_element_len(s: Seq<Token>)
    ensures
        spec_grouping_element(s) matches Some((g, k)) ==> 1 <= k <= s.len(),
    decreases s.len(), 0nat,
{
    lemma_grouping_set_len(s);
    if s.len() > 0 {
        lemma_grouping_sets_len(s.skip(1));
    }
    if s.len() > 2 {
        lemma_grouping_elements_len(s.skip(3));
    }
}

/// A grouping element list takes some of the tokens and has some elements.
pub proof fn lemma_grouping_elements_len(s: Seq<Token>)
    ensures
        spec_grouping_elements(s) matches Some((l, k)) ==> 1 <= k <= s.len() && l.len() > 0,
    decreases s.len(), 1nat,
{
    lemma_grouping_element_len(s);
    if let Some((g, k)) = spec_grouping_element(s) {
        if 0 < k < s.len() && s[k as int]@ == TokenView::Comma {
            lemma_grouping_elements_len(s.skip(k + 1int));
        }
    }
}

/// What follows a grouping element in a list: `, <grouping elements>`, or
/// nothing.
pub open spec fn grouping_elements_after(s: Seq<Token>) -> Option<(Seq<GroupingElementV>, nat)> {
    if s.len() > 0 && s[0]@ == TokenView::Comma {
        list_prepend(Seq::empty(), 1, spec_grouping_elements(s.skip(1)))
    } else {
        Some((Seq::empty(), 0))
    }
}

/// A grouping element list is its first element followed by what comes
/// after it.
pub proof fn lemma_grouping_elements_unfold(s: Seq<Token>)
    ensures
        spec_grouping_element(s) matches Some((g, k)) ==> spec_grouping_elements(s)
            == list_prepend(seq![g], k, grouping_elements_after(s.skip(k as int))),
        spec_grouping_element(s) is None ==> spec_grouping_elements(s) is None,
{
    if let Some((g, k)) = spec_grouping_element(s) {
        lemma_grouping_element_len(s);
        let t = s.skip(k as int);
        if s.len() > k && s[k as int]@ == TokenView::Comma {
            assert(t.skip(1) =~= s.skip(k + 1int));
            match spec_grouping_elements(s.skip(k + 1int)) {
                Some((r, m)) => {
                    assert(seq![g] + (Seq::<GroupingElementV>::empty() + r) =~= seq![g] + r);
                },
                None => {},
            }
        } else {
            assert(seq![g] + Seq::<GroupingElementV>::empty() =~= seq![g]);
        }
    }
}

/// The tokens where the grouping elements of a `GROUP BY` clause start:
/// after `GROUP BY` and the set quantifier, if there is one.
pub open spec fn group_by_elements_start(st: PeekState<Token>) -> Seq<Token> {
    if spec_set_quantifier(skip_state(st, 2)) is Some {
        st.items.skip(3)
    } else {
        st.items.skip(2)
    }
}

/// The optional table alias at the front of the tokens:
/// `AS <name> [ ( <columns> ) ]`, and the number of tokens it takes; `None`
/// inside when there is no `AS`, `None` outside when the alias is malformed.
pub open spec fn spec_table_alias(s: Seq<Token>) -> Option<(Option<TableAliasV>, nat)> {
    if s.len() > 0 && is_keyword_token(s[0]@, Keyword::AS) {
        if s.len() > 1 && word_ident(s[1]@) is Some {
            match spec_optional_column_list(s.skip(2)) {
                Some((columns, k)) => Some((
                    Some(TableAliasV { name: word_ident(s[1]@)->0, columns }),
                    k + 2,
                )),
                None => None,
            }
        } else {
            None
        }
    } else {
        Some((None, 0))
    }
}

/// A table alias takes no more tokens than there are.
pub proof fn lemma_table_alias_len(s: Seq<Token>)
    ensures
        spec_table_alias(s) matches Some((_, n)) ==> n <= s.len(),
{
    if s.len() > 2 {
        crate::parser::query::lemma_idents_len(s.skip(3));
    }
}

/// The rest of a `USING` join specification at the front of the tokens:
/// `( <columns> ) [ AS <alias> ]`, with the number of tokens it takes.
pub open spec fn spec_using_columns(s: Seq<Token>) -> Option<(Seq<IdentView>, Option<IdentView>, nat)> {
    if s.len() > 0 && s[0]@ == TokenView::LeftParen {
        match spec_idents(s.skip(1)) {
            Some((columns, k)) => if s.len() > k + 1 && s[k + 1int]@ == TokenView::RightParen {
                if s.len() > k + 2 && is_keyword_token(s[k + 2int]@, Keyword::AS) {
                    if s.len() > k + 3 && word_ident(s[k + 3int]@) is Some {
                        Some((columns, Some(word_ident(s[k + 3int]@)->0), k + 4))
                    } else {
                        None
                    }
                } else {
                    Some((columns, None, k + 2))
                }
            } else {
                None
            },
            None => None,
        }
    } else {
        None
    }
}

/// Whether `PARTITION BY` is at the front of the tokens.
pub open spec fn partition_by_at(s: Seq<Token>) -> bool {
    s.len() > 1 && is_keyword_token(s[0]@, Keyword::PARTITION) && is_keyword_token(
        s[1]@,
        Keyword::BY,
    )
}

/// Whether a join operator is the one for a join type: `kind` 0 for
/// `INNER`, 1 for `LEFT`, 2 for `RIGHT`, 3 for `FULL`, natural or not.
pub open spec fn join_kind_is(op: JoinOperator, natural: bool, kind: u8) -> bool {
    if natural {
        ||| kind == 0 && op is NaturalInnerJoin
        ||| kind == 1 && op is NaturalLeftOuterJoin
        ||| kind == 2 && op is NaturalRightOuterJoin
        ||| kind == 3 && op is NaturalFullOuterJoin
    } else {
        ||| kind == 0 && op is InnerJoin
        ||| kind == 1 && op is LeftOuterJoin
        ||| kind == 2 && op is RightOuterJoin
        ||| kind == 3 && op is FullOuterJoin
    }
}

/// Whether a join operator is a natural join.
pub open spec fn is_natural_join(op: JoinOperator) -> bool {
    op is NaturalInnerJoin || op is NaturalLeftOuterJoin || op is NaturalRightOuterJoin
        || op is NaturalFullOuterJoin
}

/// Whether a join starts with the next token: `CROSS`, `NATURAL`, `JOIN`,
/// `INNER`, `LEFT`, `RIGHT` or `FULL`.
pub open spec fn starts_join(st: PeekState<Token>) -> bool {
    ||| peek_is_keyword(st, Keyword::CROSS)
    ||| peek_is_keyword(st, Keyword::NATURAL)
    ||| peek_is_keyword(st, Keyword::JOIN)
    ||| peek_is_keyword(st, Keyword::INNER)
    ||| peek_is_keyword(st, Keyword::LEFT)
    ||| peek_is_keyword(st, Keyword::RIGHT)
    ||| peek_is_keyword(st, Keyword::FULL)
}

/// A table factor at the front of the tokens: a table name with an
/// optional alias, or a derived table `[ LATERAL ] ( <query> ) [ AS <alias> ]`.
#[verifier::opaque]
pub open spec fn spec_table_factor(s: Seq<Token>) -> Parsed<TableFactorV> 
    decreases s.len(), 6nat,
{
    if s.len() > 0 && is_keyword_token(s[0]@, Keyword::LATERAL) {
        shift(spec_derived_table(s.skip(1), true), 1)
    } else if s.len() > 0 && s[0]@ == TokenView::LeftParen {
        spec_derived_table(s, false)
    } else {
        match spec_object_name(s) {
            Some((name, k)) => match spec_table_alias(s.skip(k as int)) {
                Some((alias, m)) => Parsed::Done(TableFactorV::Table { name, alias }, k + m),
                None => Parsed::Fails,
            },
            None => Parsed::Fails,
        }
    }
}

/// A join specification at the front of the tokens: `ON <condition>` or
/// `USING ( <columns> ) [ AS <alias> ]`.
#[verifier::opaque]
pub open spec fn spec_join_spec(s: Seq<Token>) -> Parsed<JoinSpecV> 
    decreases s.len(), 5nat,
{
    if s.len() > 0 && is_keyword_token(s[0]@, Keyword::ON) {
        match spec_subexpr(s.skip(1), 0) {
            Parsed::Done(e, n) => Parsed::Done(JoinSpecV::On(Box::new(e)), n + 1),
            Parsed::Fails => Parsed::Fails,
        }
    } else if s.len() > 0 && is_keyword_token(s[0]@, Keyword::USING) {
        match spec_using_columns(s.skip(1)) {
            Some((columns, alias, n)) => Parsed::Done(JoinSpecV::Using { columns, alias }, n + 1),
            None => Parsed::Fails,
        }
    } else {
        Parsed::Fails
    }
}

/// The join operator of a join kind (0 inner, 1 left, 2 right, 3 full),
/// natural or with its specification.
pub open spec fn join_operator_of(natural: bool, kind: u8, spec: JoinSpecV) -> JoinOperatorV {
    if natural {
        if kind == 0 {
            JoinOperatorV::NaturalInnerJoin
        } else if kind == 1 {
            JoinOperatorV::NaturalLeftOuterJoin
        } else if kind == 2 {
            JoinOperatorV::NaturalRightOuterJoin
        } else {
            JoinOperatorV::NaturalFullOuterJoin
        }
    } else if kind == 0 {
        JoinOperatorV::InnerJoin(spec)
    } else if kind == 1 {
        JoinOperatorV::LeftOuterJoin(spec)
    } else if kind == 2 {
        JoinOperatorV::RightOuterJoin(spec)
    } else {
        JoinOperatorV::FullOuterJoin(spec)
    }
}

/// What follows `JOIN` at the front of the tokens: the table factor and, for
/// a join that is not natural, its specification.
pub open spec fn spec_join_rest(s: Seq<Token>, natural: bool, kind: u8) -> Parsed<JoinV> 
    decreases s.len(), 7nat,
{
    match spec_table_factor(s) {
        Parsed::Done(f, n) => if natural {
            Parsed::Done(
                JoinV { join: join_operator_of(natural, kind, JoinSpecV::On(Box::new(ExprV::Wildcard))), relation: f },
                n,
            )
        } else if n <= s.len() {
            match spec_join_spec(s.skip(n as int)) {
                Parsed::Done(j, m) => Parsed::Done(
                    JoinV { join: join_operator_of(natural, kind, j), relation: f },
                    n + m,
                ),
                Parsed::Fails => Parsed::Fails,
            }
        } else {
            Parsed::Fails
        },
        Parsed::Fails => Parsed::Fails,
    }
}

/// The kind of a join type keyword: 0 for `JOIN` and `INNER`, 1 for `LEFT`,
/// 2 for `RIGHT`, 3 for `FULL`.
pub open spec fn join_kind_of(t: TokenView) -> Option<u8> {
    if is_keyword_token(t, Keyword::JOIN) || is_keyword_token(t, Keyword::INNER) {
        Some(0)
    } else if is_keyword_token(t, Keyword::LEFT) {
        Some(1)
    } else if is_keyword_token(t, Keyword::RIGHT) {
        Some(2)
    } else if is_keyword_token(t, Keyword::FULL) {
        Some(3)
    } else {
        None
    }
}

/// The words that start the text of a join: `NATURAL ` for a natural join,
/// then the join type keyword that was read (`INNER` for a bare `JOIN`),
/// then ` JOIN `.
pub open spec fn join_words_read(natural: bool, t: TokenView) -> Seq<char> {
    (if natural {
        "NATURAL "@
    } else {
        Seq::empty()
    }) + (if is_keyword_token(t, Keyword::JOIN) {
        "INNER"@
    } else {
        spec_token_sql(t)
    }) + " JOIN "@
}

/// A join writes back with the join type that was read: its text starts
/// with `NATURAL ` when natural, then the join type keyword read (`LEFT`,
/// `RIGHT`, `FULL`, `INNER`, or `INNER` for a bare `JOIN`), then ` JOIN `.
pub proof fn law_join_type_is_its_keyword(
    natural: bool,
    t: TokenView,
    spec: JoinSpecV,
    relation: TableFactorV,
)
    ensures
        join_kind_of(t) matches Some(k) ==> {
            let text = join_sql(JoinV { join: join_operator_of(natural, k, spec), relation });
            let w = join_words_read(natural, t);
            w.len() <= text.len() && text.subrange(0, w.len() as int) == w
        },
{
    reveal_strlit("NATURAL ");
    reveal_strlit("INNER");
    reveal_strlit("LEFT");
    reveal_strlit("RIGHT");
    reveal_strlit("FULL");
    reveal_strlit(" JOIN ");
    reveal_strlit("INNER JOIN ");
    reveal_strlit("LEFT JOIN ");
    reveal_strlit("RIGHT JOIN ");
    reveal_strlit("FULL JOIN ");
    reveal_strlit("NATURAL INNER JOIN ");
    reveal_strlit("NATURAL LEFT JOIN ");
    reveal_strlit("NATURAL RIGHT JOIN ");
    reveal_strlit("NATURAL FULL JOIN ");
    if let Some(k) = join_kind_of(t) {
        let text = join_sql(JoinV { join: join_operator_of(natural, k, spec), relation });
        let w = join_words_read(natural, t);
        assert(w.len() <= text.len());
        assert(text.subrange(0, w.len() as int) =~= w);
    }
}

/// The number of tokens from a join type keyword up to and including
/// `JOIN`: `JOIN`, `INNER JOIN`, or `{ LEFT | RIGHT | FULL } [ OUTER ] JOIN`;
/// `None` where `JOIN` is missing.
pub open spec fn join_keywords_len(t: Seq<Token>) -> Option<nat> {
    if is_keyword_token(t[0]@, Keyword::JOIN) {
        Some(1)
    } else if is_keyword_token(t[0]@, Keyword::INNER) {
        if t.len() > 1 && is_keyword_token(t[1]@, Keyword::JOIN) {
            Some(2)
        } else {
            None
        }
    } else {
        let o: nat = if t.len() > 1 && is_keyword_token(t[1]@, Keyword::OUTER) {
            1
        } else {
            0
        };
        if t.len() > 1 + o && is_keyword_token(t[(1 + o) as int]@, Keyword::JOIN) {
            Some(2 + o)
        } else {
            None
        }
    }
}

/// A joined table at the front of the tokens: `CROSS JOIN <table factor>`,
/// or `[ NATURAL ] <join type> JOIN <table factor> [ <join specification> ]`;
/// `None` where no join starts there.
pub open spec fn spec_joined_table(s: Seq<Token>) -> Parsed<Option<JoinV>> 
    decreases s.len(), 4nat,
{
    if s.len() > 0 && is_keyword_token(s[0]@, Keyword::CROSS) {
        if s.len() > 1 && is_keyword_token(s[1]@, Keyword::JOIN) {
            match spec_table_factor(s.skip(2)) {
                Parsed::Done(f, n) => Parsed::Done(
                    Some(JoinV { join: JoinOperatorV::CrossJoin, relation: f }),
                    n + 2,
                ),
                Parsed::Fails => Parsed::Fails,
            }
        } else {
            Parsed::Fails
        }
    } else {
        let natural = s.len() > 0 && is_keyword_token(s[0]@, Keyword::NATURAL);
        let a: nat = if natural {
            1
        } else {
            0
        };
        let t = s.skip(a as int);
        if t.len() > 0 && join_kind_of(t[0]@) is Some {
            match join_keywords_len(t) {
                Some(b) => match spec_join_rest(t.skip(b as int), natural, join_kind_of(t[0]@)->0) {
                    Parsed::Done(j, n) => Parsed::Done(Some(j), a + b + n),
                    Parsed::Fails => Parsed::Fails,
                },
                None => Parsed::Fails,
            }
        } else if natural {
            Parsed::Fails
        } else {
            Parsed::Done(None, 0)
        }
    }
}

/// The joins after a table factor at the front of the tokens, as long as
/// joins follow.
pub open spec fn spec_joins(t: Seq<Token>) -> Parsed<Seq<JoinV>>
    decreases t.len(), 5nat,
{
    match spec_joined_table(t) {
        Parsed::Done(Some(j), n) => if 0 < n <= t.len() {
            prepend(seq![j], spec_joins(t.skip(n as int)), n)
        } else {
            Parsed::Fails
        },
        Parsed::Done(None, _) => Parsed::Done(Seq::empty(), 0),
        Parsed::Fails => Parsed::Fails,
    }
}

/// A table reference at the front of the tokens: a table factor and the
/// joins that follow it.
pub open spec fn spec_table_reference(s: Seq<Token>) -> Parsed<TableReferenceV> 
    decreases s.len(), 7nat,
{
    match spec_table_factor(s) {
        Parsed::Done(f, n) => if n <= s.len() {
            match spec_joins(s.skip(n as int)) {
                Parsed::Done(js, m) => Parsed::Done(TableReferenceV { relation: f, joins: js }, n + m),
                Parsed::Fails => Parsed::Fails,
            }
        } else {
            Parsed::Fails
        },
        Parsed::Fails => Parsed::Fails,
    }
}

/// Table references separated by commas at the front of the tokens.
pub open spec fn spec_table_refs(s: Seq<Token>) -> Parsed<Seq<TableReferenceV>>
    decreases s.len(), 8nat,
{
    match spec_table_reference(s) {
        Parsed::Done(e, n) => if 0 < n <= s.len() {
            prepend(seq![e], spec_table_refs_tail(s.skip(n as int)), n)
        } else {
            Parsed::Fails
        },
        Parsed::Fails => Parsed::Fails,
    }
}

/// What follows an item of the list: `, <item>` again and again.
pub open spec fn spec_table_refs_tail(t: Seq<Token>) -> Parsed<Seq<TableReferenceV>>
    decreases t.len(), 8nat,
{
    if t.len() > 0 && t[0]@ == TokenView::Comma {
        shift(spec_table_refs(t.skip(1)), 1)
    } else {
        Parsed::Done(Seq::empty(), 0)
    }
}

/// The list is the comma-separated list of its items.
pub proof fn lemma_table_refs_is_list(s: Seq<Token>)
    ensures
        spec_table_refs(s) == spec_list(s, |t: Seq<Token>| spec_table_reference(t)),
    decreases s.len(),
{
    if let Parsed::Done(e, n) = spec_table_reference(s) {
        if 0 < n <= s.len() {
            let t = s.skip(n as int);
            if t.len() > 0 && t[0]@ == TokenView::Comma {
                lemma_table_refs_is_list(t.skip(1));
            }
        }
    }
}

/// The list takes at least one token and no more than there are.
pub proof fn lemma_table_refs_len(s: Seq<Token>)
    ensures
        spec_table_refs(s) matches Parsed::Done(_, n) ==> 0 < n <= s.len(),
{
    lemma_table_refs_is_list(s);
    lemma_list_len(s, |t: Seq<Token>| spec_table_reference(t));
}

/// The joins after a table factor take no more tokens than there are.
pub proof fn lemma_joins_len(t: Seq<Token>)
    ensures
        spec_joins(t) matches Parsed::Done(_, n) ==> n <= t.len(),
    decreases t.len(),
{
    if let Parsed::Done(Some(j), n) = spec_joined_table(t) {
        if 0 < n <= t.len() {
            lemma_joins_len(t.skip(n as int));
        }
    }
}

/// A table factor takes at least one token and no more than there are.
#[verifier::rlimit(100)]
#[verifier::spinoff_prover]
pub proof fn lemma_table_factor_len(s: Seq<Token>)
    ensures
        spec_table_factor(s) matches Parsed::Done(_, n) ==> 0 < n <= s.len(),
{
    reveal(spec_table_factor);
    crate::parser::query::lemma_derived_table_len(s, false);
    if s.len() > 0 {
        crate::parser::query::lemma_derived_table_len(s.skip(1), true);
    }
    lemma_object_name_len(s);
    if let Some((name, k)) = spec_object_name(s) {
        let t = s.skip(k as int);
        if t.len() > 1 {
            crate::parser::constraints::lemma_optional_column_list_len(t.skip(2));
        }
    }
}

/// A join specification takes at least one token and no more than there
/// are.
pub proof fn lemma_join_spec_len(s: Seq<Token>)
    ensures
        spec_join_spec(s) matches Parsed::Done(_, n) ==> 0 < n <= s.len(),
{
    reveal(spec_join_spec);
    if s.len() > 0 {
        lemma_subexpr_len(s.skip(1), 0);
        if s.len() > 1 {
            crate::parser::query::lemma_idents_len(s.skip(2));
        }
    }
}

/// What follows `JOIN` takes at least one token and no more than there are.
pub proof fn lemma_join_rest_len(s: Seq<Token>, natural: bool, kind: u8)
    ensures
        spec_join_rest(s, natural, kind) matches Parsed::Done(_, n) ==> 0 < n <= s.len(),
{
    reveal(spec_join_spec);
    reveal(spec_table_factor);
    lemma_table_factor_len(s);
    if let Parsed::Done(f, n) = spec_table_factor(s) {
        lemma_join_spec_len(s.skip(n as int));
    }
}

/// A window specification takes at least one token and no more than there
/// are.
pub proof fn lemma_window_spec_len(s: Seq<Token>)
    ensures
        spec_window_spec(s) matches Parsed::Done(_, n) ==> 0 < n <= s.len(),
{
    if s.len() > 0 {
        let t = s.skip(1);
        if t.len() > 1 {
            lemma_object_names_len(t.skip(2));
        }
        if let Some((_, a)) = (if partition_by_at(t) {
            match spec_object_names(t.skip(2)) {
                Some((names, n)) => Some((Some(names), n + 2)),
                None => None,
            }
        } else {
            Some((None::<Seq<Seq<IdentView>>>, 0nat))
        }) {
            let u = t.skip(a as int);
            if u.len() > 1 {
                crate::parser::query::lemma_sort_specs_len(u.skip(2));
            }
        }
    }
}

/// A window definition takes at least one token and no more than there are.
pub proof fn lemma_window_def_len(s: Seq<Token>)
    ensures
        spec_window_def(s) matches Parsed::Done(_, n) ==> 0 < n <= s.len(),
{
    if s.len() > 1 {
        lemma_window_spec_len(s.skip(2));
    }
    if s.len() > 0 {
        lemma_window_spec_len(s.skip(1));
    }
}

/// A joined table takes at least one token and no more than there are.
pub proof fn lemma_joined_table_len(s: Seq<Token>)
    ensures
        spec_joined_table(s) matches Parsed::Done(Some(_), n) ==> 0 < n <= s.len(),
{
    reveal(spec_table_factor);
    if s.len() > 1 {
        lemma_table_factor_len(s.skip(2));
    }
    let natural = s.len() > 0 && is_keyword_token(s[0]@, Keyword::NATURAL);
    let a: nat = if natural { 1 } else { 0 };
    let t = s.skip(a as int);
    if t.len() > 0 && join_kind_of(t[0]@) is Some {
        if let Some(b) = join_keywords_len(t) {
            lemma_join_rest_len(t.skip(b as int), natural, join_kind_of(t[0]@)->0);
        }
    }
}

/// A table reference takes at least one token and no more than there are.
pub proof fn lemma_table_reference_len(s: Seq<Token>)
    ensures
        spec_table_reference(s) matches Parsed::Done(_, n) ==> 0 < n <= s.len(),
{
    reveal(spec_table_factor);
    lemma_table_factor_len(s);
    if let Parsed::Done(f, n) = spec_table_factor(s) {
        lemma_joins_len(s.skip(n as int));
    }
}

/// The abstract value of an optional join.
pub open spec fn opt_join_v(o: Option<Join>) -> Option<JoinV> {
    match o {
        Some(j) => Some(join_v(j)),
        None => None,
    }
}

impl<'a, D: Dialect> Parser<'a, D> {
    /// Parses a `FROM` clause: `FROM <table reference> [, ...]`.
    pub fn parse_from_clause(&mut self) -> (r: Result<From, ParserError>)
        requires
            old(self).wf(),
        ensures
            final(self).wf(),
            final(self).dialect_in_use() == old(self).dialect_in_use(),
            r matches Ok(f) ==> peek_is_keyword(old(self).state(), Keyword::FROM) && f.list@.len()
                > 0 && advanced(old(self).state(), final(self).state()),
            !peek_is_keyword(old(self).state(), Keyword::FROM) ==> (r matches Err(e) && error_view(e)
                == (false, spec_expected_message(
                spec_keyword_name(Keyword::FROM),
                opt_token_view(spec_next(old(self).state())),
            )) && final(self).state() == old(self).state()),
            peek_is_keyword(old(self).state(), Keyword::FROM) ==> match spec_table_refs(
                old(self).state().items.skip(1),
            ) {
                Parsed::Done(l, n) => r matches Ok(f) && table_refs_v(f.list@) == l && final(self).state()
                    == skip_state(old(self).state(), n + 1),
                Parsed::Fails => r is Err,
            },
        decreases old(self).state().items.len(), 26nat,
    {
        let ghost st = self.state();
        self.expect_keyword(Keyword::FROM)?;
        proof {
            lemma_next_consumed(st);
            assert(st.items.skip(1) =~= st.items.drop_first());
            lemma_table_refs_len(st.items.skip(1));
        }
        let ghost s1 = self.state();
        let list = self.parse_table_refs()?;
        proof {
            lemma_consumed_trans(st, s1, self.state());
            if let Parsed::Done(_, n) = spec_table_refs(s1.items) {
                assert(self.state().items =~= st.items.skip(n + 1int));
            }
        }
        Ok(From { list })
    }

    /// Parses table references separated by commas.
    #[verifier::loop_isolation(false)]
    #[verifier::rlimit(100)]
    #[verifier::spinoff_prover]
    fn parse_table_refs(&mut self) -> (r: Result<Vec<TableReference>, ParserError>)
        requires
            old(self).wf(),
        ensures
            final(self).wf(),
            final(self).dialect_in_use() == old(self).dialect_in_use(),
            r matches Ok(v) ==> v@.len() > 0 && advanced(old(self).state(), final(self).state()),
            old(self).state().cursor == 0 ==> meets(
                spec_table_refs(old(self).state().items),
                |v: Vec<TableReference>| table_refs_v(v@),
                old(self).state(),
                r,
                final(self).state(),
            ),
        decreases old(self).state().items.len(), 25nat,
    {
        let ghost st = self.state();
        let ghost sp = spec_table_refs(st.items);
        let ghost cond = st.cursor == 0;
        proof {
            lemma_table_reference_len(st.items);
        }
        let mut list: Vec<TableReference> = Vec::new();
        let first = self.parse_table_reference()?;
        list.push(first);
        proof {
            assert(table_refs_v(list@) =~= seq![table_ref_v(first)]);
            if cond {
                if let Parsed::Done(_, n) = spec_table_reference(st.items) {
                    assert(self.state().items == st.items.skip(n as int));
                }
            }
        }
        loop
            invariant
                self.wf(),
                self.dialect_in_use() == old(self).dialect_in_use(),
                advanced(st, self.state()),
                list@.len() > 0,
                sp == spec_table_refs(st.items),
                cond ==> (sp == prepend(
                    table_refs_v(list@),
                    spec_table_refs_tail(self.state().items),
                    (st.items.len() - self.state().items.len()) as nat,
                )),
            decreases self.state().items.len(),
        {
            let ghost cur = self.state();
            let ghost c: nat = (st.items.len() - cur.items.len()) as nat;
            proof {
                assert(cur.items == st.items.skip(c as int));
            }
            if !self.next_token_if_is(&Token::Comma) {
                proof {
                    assert(table_refs_v(list@) + Seq::<TableReferenceV>::empty() =~= table_refs_v(list@));
                    assert(self.state() == skip_state(st, c));
                }
                break;
            }
            let ghost mid = self.state();
            proof {
                assert(mid.items =~= cur.items.skip(1));
                lemma_table_reference_len(mid.items);
            }
            let e = self.parse_table_reference()?;
            proof {
                lemma_step_advanced(st, cur, mid);
                lemma_consumed_trans(st, mid, self.state());
                assert(table_refs_v(list@.push(e)) =~= table_refs_v(list@).push(table_ref_v(e)));
                if let Parsed::Done(_, n) = spec_table_reference(mid.items) {
                    assert(self.state().items =~= mid.items.skip(n as int));
                    assert(spec_table_refs_tail(cur.items) == shift(spec_table_refs(mid.items), 1));
                    if let Parsed::Done(l, m) = spec_table_refs_tail(self.state().items) {
                        assert(table_refs_v(list@) + (seq![table_ref_v(e)] + l) =~= table_refs_v(
                            list@,
                        ).push(table_ref_v(e)) + l);
                    }
                }
            }
            list.push(e);
        }
        Ok(list)
    }

    /// Parses a table reference: a table factor followed by joins.
    #[verifier::loop_isolation(false)]
    #[verifier::rlimit(100)]
    #[verifier::spinoff_prover]
    pub fn parse_table_reference(&mut self) -> (r: Result<TableReference, ParserError>)
        requires
            old(self).wf(),
        ensures
            final(self).wf(),
            final(self).dialect_in_use() == old(self).dialect_in_use(),
            r is Ok ==> advanced(old(self).state(), final(self).state()),
            old(self).state().cursor == 0 ==> meets(
                spec_table_reference(old(self).state().items),
                |t: TableReference| table_ref_v(t),
                old(self).state(),
                r,
                final(self).state(),
            ),
        decreases old(self).state().items.len(), 24nat,
    {
        proof {
            reveal(spec_table_factor);
        }
        let ghost st = self.state();
        proof {
            lemma_table_factor_len(st.items);
        }
        let relation = self.parse_table_factor()?;
        let ghost s1 = self.state();
        let ghost cond = st.cursor == 0 && spec_table_factor(st.items) is Done;
        let ghost sj = spec_joins(s1.items);
        let mut joins: Vec<Join> = Vec::new();
        proof {
            crate::parser::lemma_consumed_refl(s1);
            if cond {
                assert(s1.items == st.items.skip((spec_table_factor(st.items)->Done_1) as int));
                assert(prepend(joins_v(joins@), sj, 0) == sj) by {
                    if let Parsed::Done(l, m) = sj {
                        assert(joins_v(joins@) + l =~= l);
                    }
                }
            }
        }
        loop
            invariant
                self.wf(),
                self.dialect_in_use() == old(self).dialect_in_use(),
                advanced(st, self.state()),
                cond ==> ((self.state().cursor == 0 && sj == prepend(
                    joins_v(joins@),
                    spec_joins(self.state().items),
                    (s1.items.len() - self.state().items.len()) as nat,
                ))),
                consumed(s1, self.state()),
            decreases self.state().items.len(),
        {
            let ghost cur = self.state();
            proof {
                lemma_joined_table_len(cur.items);
            }
            match self.parse_joined_table()? {
                Some(join) => {
                    proof {
                        lemma_consumed_trans(st, cur, self.state());
                        lemma_consumed_trans(s1, cur, self.state());
                        assert(joins_v(joins@.push(join)) =~= joins_v(joins@).push(join_v(join)));
                        if cond {
                            if let Parsed::Done(_, n) = spec_joined_table(cur.items) {
                                assert(self.state().items =~= cur.items.skip(n as int));
                                if let Parsed::Done(l, m) = spec_joins(self.state().items) {
                                    assert(joins_v(joins@) + (seq![join_v(join)] + l) =~= joins_v(
                                        joins@,
                                    ).push(join_v(join)) + l);
                                }
                            }
                        }
                    }
                    joins.push(join);
                },
                None => {
                    proof {
                        if cond {
                            assert(joins_v(joins@) + Seq::<JoinV>::empty() =~= joins_v(joins@));
                        }
                    }
                    break;
                },
            }
        }
        proof {
            if cond {
                let n = spec_table_factor(st.items)->Done_1;
                assert(self.state().items =~= st.items.skip(
                    (n + (s1.items.len() - self.state().items.len())) as int,
                ));
            }
        }
        Ok(TableReference { relation, joins })
    }

    /// Parses a table factor: `<name> [ AS <alias> ]`,
    /// `[ LATERAL ] ( <query> ) [ AS <alias> ]`.
    pub fn parse_table_factor(&mut self) -> (r: Result<TableFactor, ParserError>)
        requires
            old(self).wf(),
        ensures
            final(self).wf(),
            final(self).dialect_in_use() == old(self).dialect_in_use(),
            r is Ok ==> advanced(old(self).state(), final(self).state()),
            peek_is_keyword(old(self).state(), Keyword::LATERAL) ==> (r matches Ok(f) ==> (f matches TableFactor::Derived {
                lateral,
                ..
            } && lateral)),
            old(self).state().cursor == 0 && !peek_is_keyword(old(self).state(), Keyword::LATERAL)
                && old(self).state().items.len() > 0 && old(self).state().items[0]@
                == TokenView::LeftParen ==> (r matches Ok(f) ==> (f matches TableFactor::Derived {
                lateral,
                ..
            } && !lateral)),
            old(self).state().cursor == 0 && !peek_is_keyword(old(self).state(), Keyword::LATERAL)
                && !(old(self).state().items.len() > 0 && old(self).state().items[0]@
                == TokenView::LeftParen) ==> match spec_object_name(old(self).state().items) {
                Some((name, k)) => match spec_table_alias(old(self).state().items.skip(k as int)) {
                    Some((alias, m)) => r matches Ok(f) && f matches TableFactor::Table { name: n, alias: a }
                        && n@ == name && opt_table_alias_v(a) == alias && final(self).state()
                        == skip_state(old(self).state(), k + m),
                    None => r is Err,
                },
                None => r is Err,
            },
            old(self).state().cursor == 0 ==> meets(
                spec_table_factor(old(self).state().items),
                |f: TableFactor| table_factor_v(f),
                old(self).state(),
                r,
                final(self).state(),
            ),
            old(self).state().cursor == 0 && peek_is_keyword(old(self).state(), Keyword::LATERAL)
                ==> meets(
                shift(spec_derived_table(old(self).state().items.skip(1), true), 1),
                |f: TableFactor| table_factor_v(f),
                old(self).state(),
                r,
                final(self).state(),
            ),
            old(self).state().cursor == 0 && !peek_is_keyword(old(self).state(), Keyword::LATERAL)
                && peek_is(old(self).state(), TokenView::LeftParen) ==> meets(
                spec_derived_table(old(self).state().items, false),
                |f: TableFactor| table_factor_v(f),
                old(self).state(),
                r,
                final(self).state(),
            ),
        decreases old(self).state().items.len(), 23nat,
    {
        proof {
            reveal(spec_table_factor);
        }
        broadcast use crate::ast::view::group_table_factor_v;

        let ghost st = self.state();
        if self.parse_keyword(Keyword::LATERAL) {
            proof { lemma_next_consumed(st); }
            let ghost s1 = self.state();
            proof {
                if st.cursor == 0 {
                    assert(s1.items =~= st.items.skip(1));
                }
                crate::parser::query::lemma_derived_table_len(s1.items, true);
            }
            let t = self.parse_derived_table_factor(true)?;
            proof {
                lemma_consumed_trans(st, s1, self.state());
                if st.cursor == 0 {
                    if let Parsed::Done(_, n) = spec_derived_table(s1.items, true) {
                        assert(self.state().items =~= st.items.skip(n + 1 as int));
                    }
                }
            }
            Ok(t)
        } else {
            let is_paren = match self.peek_token() {
                Some(t) => t.equals(&Token::LeftParen),
                None => false,
            };
            if is_paren {
                self.parse_derived_table_factor(false)
            } else {
                let name = self.parse_object_name()?;
                proof {
                    crate::parser::types::lemma_object_name_len(st.items);
                    assert(self.state().items =~= st.items.skip(
                        st.items.len() - self.state().items.len(),
                    ));
                }
                let ghost s1 = self.state();
                let alias = self.parse_optional_table_alias()?;
                proof {
                    if alias.is_some() {
                        lemma_consumed_trans(st, s1, self.state());
                    }
                    if st.cursor == 0 {
                        let k = (spec_object_name(st.items)->0).1;
                        assert(s1.items =~= st.items.skip(k as int));
                        match spec_table_alias(s1.items) {
                            Some((a, m)) => {
                                assert(s1.items.skip(m as int) =~= st.items.skip((k + m) as int));
                                if a is None {
                                    assert(self.state().items =~= st.items.skip(k as int));
                                }
                            },
                            None => {},
                        }
                    }
                }
                Ok(TableFactor::Table { name, alias })
            }
        }
    }

    /// Parses `( <query> ) [ AS <alias> ]`.
    #[verifier::rlimit(100)]
    #[verifier::spinoff_prover]
    fn parse_derived_table_factor(&mut self, lateral: bool) -> (r: Result<TableFactor, ParserError>)
        requires
            old(self).wf(),
        ensures
            final(self).wf(),
            final(self).dialect_in_use() == old(self).dialect_in_use(),
            r is Ok ==> advanced(old(self).state(), final(self).state()),
            r matches Ok(f) ==> (f matches TableFactor::Derived { lateral: l, .. } && l == lateral),
            old(self).state().cursor == 0 ==> meets(
                spec_derived_table(old(self).state().items, lateral),
                |f: TableFactor| table_factor_v(f),
                old(self).state(),
                r,
                final(self).state(),
            ),
        decreases old(self).state().items.len(), 22nat,
    {
        proof {
            reveal(crate::parser::query::spec_paren_query);
        }
        broadcast use crate::ast::view::group_table_factor_v;

        let ghost st = self.state();
        let ghost s = st.items;
        self.expect_token(&Token::LeftParen)?;
        proof { lemma_next_consumed(st); }
        let ghost s1 = self.state();
        proof {
            if st.cursor == 0 {
                assert(s1.items =~= s.skip(1));
            }
            crate::parser::query::lemma_query_expr_len(s1.items, true);
            crate::parser::query::lemma_paren_query_unfold(s);
        }
        let subquery = self.parse_query_expr(true)?;
        let ghost s2 = self.state();
        proof {
            if st.cursor == 0 {
                if let Parsed::Done(_, m) = crate::parser::query::spec_query_expr(s1.items, true) {
                    assert(s2.items =~= s.skip(1 + m as int));
                    assert(s2.items.len() > 0 ==> s2.items[0] == s[1 + m as int]);
                }
            }
        }
        self.expect_token(&Token::RightParen)?;
        proof {
            lemma_consumed_trans(st, s1, s2);
            crate::parser::lemma_consumed_then_next(st, s2);
        }
        let ghost s3 = self.state();
        proof {
            if st.cursor == 0 {
                if let Parsed::Done(_, m) = crate::parser::query::spec_query_expr(s1.items, true) {
                    assert(s3.items =~= s.skip(m + 2 as int));
                }
            }
        }
        let alias = self.parse_optional_table_alias()?;
        proof {
            if st.cursor == 0 {
                if let Parsed::Done(_, n) = crate::parser::query::spec_paren_query(s) {
                    if let Some((a, k)) = spec_table_alias(s3.items) {
                        if a is Some {
                            assert(self.state().items =~= s.skip((n + k) as int));
                        }
                    }
                }
            }
            if alias.is_some() {
                lemma_consumed_trans(st, s3, self.state());
            }
        }
        Ok(TableFactor::Derived { lateral, subquery: Box::new(subquery), alias })
    }

    /// Parses an optional table alias: `AS <name> [ ( <column> [, ...] ) ]`.
    pub fn parse_optional_table_alias(&mut self) -> (r: Result<Option<TableAlias>, ParserError>)
        requires
            old(self).wf(),
        ensures
            final(self).wf(),
            final(self).dialect_in_use() == old(self).dialect_in_use(),
            !peek_is_keyword(old(self).state(), Keyword::AS) ==> (r matches Ok(None)
                && final(self).state() == old(self).state()),
            r matches Ok(Some(_)) ==> peek_is_keyword(old(self).state(), Keyword::AS) && advanced(
                old(self).state(),
                final(self).state(),
            ),
            r matches Ok(None) ==> final(self).state() == old(self).state(),
            r is Ok ==> consumed(old(self).state(), final(self).state()),
            old(self).state().cursor == 0 ==> match spec_table_alias(old(self).state().items) {
                Some((Some(a), n)) => r matches Ok(Some(x)) && table_alias_v(x) == a
                    && final(self).state() == skip_state(old(self).state(), n),
                Some((None, _)) => r matches Ok(None),
                None => r is Err,
            },
    {
        let ghost st = self.state();
        if self.parse_keyword(Keyword::AS) {
            proof { lemma_next_consumed(st); }
            let ghost s1 = self.state();
            let name = self.parse_identifier()?;
            let ghost s2 = self.state();
            proof {
                lemma_step_advanced(st, s1, s2);
                assert(s2.items =~= st.items.skip(2));
            }
            let columns = self.parse_optional_column_list()?;
            proof {
                if columns.is_some() {
                    lemma_consumed_trans(st, s2, self.state());
                    assert(self.state().items =~= st.items.skip(st.items.len() - self.state().items.len()));
                }
            }
            Ok(Some(TableAlias { name, columns }))
        } else {
            proof { crate::parser::lemma_consumed_refl(st); }
            Ok(None)
        }
    }

    /// Finishes a join after its join type: `JOIN <table factor>` and, for a
    /// join that is not natural, its join specification.
    #[verifier::rlimit(100)]
    #[verifier::spinoff_prover]
    fn parse_join_rest(&mut self, natural: bool, kind: u8) -> (r: Result<Join, ParserError>)
        requires
            old(self).wf(),
            kind < 4,
        ensures
            final(self).wf(),
            final(self).dialect_in_use() == old(self).dialect_in_use(),
            r is Ok ==> advanced(old(self).state(), final(self).state()),
            r matches Ok(j) ==> join_kind_is(j.join, natural, kind),
            old(self).state().cursor == 0 ==> meets(
                spec_join_rest(old(self).state().items, natural, kind),
                |j: Join| join_v(j),
                old(self).state(),
                r,
                final(self).state(),
            ),
        decreases old(self).state().items.len(), 24nat,
    {
        proof {
            reveal(spec_join_spec);
        }
        proof {
            reveal(spec_table_factor);
        }
        proof {
            reveal(crate::parser::query::spec_paren_query);
        }
        let ghost st = self.state();
        proof {
            lemma_table_factor_len(st.items);
        }
        let relation = self.parse_table_factor()?;
        proof {
            if st.cursor == 0 {
                if let Parsed::Done(_, n) = spec_table_factor(st.items) {
                    lemma_join_spec_len(st.items.skip(n as int));
                }
            }
        }
        let join = if natural {
            if kind == 0 {
                JoinOperator::NaturalInnerJoin
            } else if kind == 1 {
                JoinOperator::NaturalLeftOuterJoin
            } else if kind == 2 {
                JoinOperator::NaturalRightOuterJoin
            } else {
                JoinOperator::NaturalFullOuterJoin
            }
        } else {
            let ghost s1 = self.state();
            let spec = self.parse_join_spec()?;
            proof {
                lemma_consumed_trans(st, s1, self.state());
                if st.cursor == 0 {
                    if let Parsed::Done(_, n) = spec_table_factor(st.items) {
                        if let Parsed::Done(_, m) = spec_join_spec(s1.items) {
                            assert(self.state().items =~= st.items.skip((n + m) as int));
                        }
                    }
                }
            }
            if kind == 0 {
                JoinOperator::InnerJoin(spec)
            } else if kind == 1 {
                JoinOperator::LeftOuterJoin(spec)
            } else if kind == 2 {
                JoinOperator::RightOuterJoin(spec)
            } else {
                JoinOperator::FullOuterJoin(spec)
            }
        };
        Ok(Join { join, relation })
    }

    /// Parses the rest of a cross join after `CROSS`: `JOIN <table factor>`.
    #[verifier::rlimit(100)]
    #[verifier::spinoff_prover]
    fn parse_cross_join(&mut self, Ghost(st): Ghost<PeekState<Token>>) -> (r: Result<Option<Join>, ParserError>)
        requires
            old(self).wf(),
            st.items.len() > 0,
            is_keyword_token(st.items[0]@, Keyword::CROSS),
            old(self).state() == spec_next_state(st),
        ensures
            final(self).wf(),
            final(self).dialect_in_use() == old(self).dialect_in_use(),
            r is Ok ==> advanced(st, final(self).state()),
            r matches Ok(o) ==> (o matches Some(j) && j.join is CrossJoin),
            st.cursor == 0 ==> meets(
                spec_joined_table(st.items),
                |o: Option<Join>| opt_join_v(o),
                st,
                r,
                final(self).state(),
            ),
        decreases old(self).state().items.len(), 20nat,
    {
        proof {
            reveal(spec_table_factor);
        }
        let ghost s = st.items;
        proof {
            lemma_next_consumed(st);
            assert(s.skip(1) =~= s.drop_first());
            if s.len() > 1 {
                assert(s.skip(2) =~= s.skip(1).drop_first());
                lemma_table_factor_len(s.skip(2));
            }
        }
        let ghost s1 = self.state();
        self.expect_keyword(Keyword::JOIN)?;
        let ghost s2 = self.state();
        proof { lemma_step_advanced(st, s1, s2); }
        let relation = self.parse_table_factor()?;
        proof {
            lemma_consumed_trans(st, s2, self.state());
            if let Parsed::Done(_, n) = spec_table_factor(s2.items) {
                assert(self.state().items =~= s.skip(n + 2int));
            }
        }
        Ok(Some(Join { join: JoinOperator::CrossJoin, relation }))
    }

    /// Parses a joined table: `CROSS JOIN <table factor>`, or
    /// `[ NATURAL ] [ INNER | { LEFT | RIGHT | FULL } [ OUTER ] ] JOIN <table factor>`
    /// with a join specification unless the join is natural. Returns `None`
    /// when no join follows.
    #[verifier::rlimit(100)]
    #[verifier::spinoff_prover]
    pub fn parse_joined_table(&mut self) -> (r: Result<Option<Join>, ParserError>)
        requires
            old(self).wf(),
        ensures
            final(self).wf(),
            final(self).dialect_in_use() == old(self).dialect_in_use(),
            r matches Ok(None) ==> final(self).state() == old(self).state(),
            r matches Ok(Some(_)) ==> advanced(old(self).state(), final(self).state()),
            r is Ok ==> consumed(old(self).state(), final(self).state()),
            peek_is_keyword(old(self).state(), Keyword::CROSS) ==> (r matches Ok(o) ==> (o matches Some(
                j,
            ) && j.join is CrossJoin)),
            peek_is_keyword(old(self).state(), Keyword::NATURAL) ==> (r matches Ok(o) ==> (o matches Some(
                j,
            ) && is_natural_join(j.join))),
            (peek_is_keyword(old(self).state(), Keyword::JOIN) || peek_is_keyword(
                old(self).state(),
                Keyword::INNER,
            )) ==> (r matches Ok(o) ==> (o matches Some(j) && j.join is InnerJoin)),
            peek_is_keyword(old(self).state(), Keyword::LEFT) ==> (r matches Ok(o) ==> (o matches Some(
                j,
            ) && j.join is LeftOuterJoin)),
            peek_is_keyword(old(self).state(), Keyword::RIGHT) ==> (r matches Ok(o) ==> (o matches Some(
                j,
            ) && j.join is RightOuterJoin)),
            peek_is_keyword(old(self).state(), Keyword::FULL) ==> (r matches Ok(o) ==> (o matches Some(
                j,
            ) && j.join is FullOuterJoin)),
            !starts_join(old(self).state()) ==> r == Ok::<Option<Join>, ParserError>(None),
            old(self).state().cursor == 0 ==> meets(
                spec_joined_table(old(self).state().items),
                |o: Option<Join>| opt_join_v(o),
                old(self).state(),
                r,
                final(self).state(),
            ),
        decreases old(self).state().items.len(), 21nat,
    {
        let ghost st = self.state();
        let ghost s = st.items;
        proof {
            crate::parser::lemma_consumed_refl(st);
            assert(s.skip(0) =~= s);
            assert(s.skip(1) =~= s.drop_first());
            if s.len() > 1 {
                assert(s.skip(2) =~= s.skip(1).drop_first());
                lemma_table_factor_len(s.skip(2));
            }
        }
        if self.parse_keyword(Keyword::CROSS) {
            return self.parse_cross_join(Ghost(st));
        }
        let natural = self.parse_keyword(Keyword::NATURAL);
        let ghost s1 = self.state();
        let join_types = [Keyword::JOIN, Keyword::INNER, Keyword::LEFT, Keyword::RIGHT, Keyword::FULL];
        proof {
            reveal_with_fuel(crate::token::spec_first_keyword_of, 6);
            assert(join_types@.drop_first() =~= seq![Keyword::INNER, Keyword::LEFT, Keyword::RIGHT, Keyword::FULL]);
            assert(join_types@.drop_first().drop_first() =~= seq![Keyword::LEFT, Keyword::RIGHT, Keyword::FULL]);
            assert(join_types@.drop_first().drop_first().drop_first() =~= seq![Keyword::RIGHT, Keyword::FULL]);
            assert(join_types@.drop_first().drop_first().drop_first().drop_first() =~= seq![Keyword::FULL]);
            assert(join_types@.drop_first().drop_first().drop_first().drop_first().drop_first() =~= Seq::<Keyword>::empty());
        }
        let kind = self.parse_one_of_keywords(&join_types);
        let ghost s2 = self.state();
        match kind {
            Some(k) => {
                proof {
                    if natural {
                        lemma_next_consumed(st);
                        lemma_step_advanced(st, s1, s2);
                    } else {
                        lemma_next_consumed(st);
                    }
                }
                let ghost a: nat = if natural { 1 } else { 0 };
                let ghost t = s.skip(a as int);
                proof {
                    assert(s1.items == t);
                    assert(t.skip(1) =~= t.drop_first());
                    if t.len() > 1 {
                        assert(t.skip(2) =~= t.skip(1).drop_first());
                    }
                    if t.len() > 2 {
                        assert(t.skip(3) =~= t.skip(2).drop_first());
                    }
                }
                let kind_index: u8 = if k == Keyword::JOIN || k == Keyword::INNER {
                    0
                } else if k == Keyword::LEFT {
                    1
                } else if k == Keyword::RIGHT {
                    2
                } else {
                    3
                };
                if k != Keyword::JOIN {
                    if k != Keyword::INNER {
                        self.parse_keyword(Keyword::OUTER);
                    }
                    let ghost s3 = self.state();
                    proof { lemma_step_advanced(st, s2, s3); }
                    self.expect_keyword(Keyword::JOIN)?;
                    proof { lemma_step_advanced(st, s3, self.state()); }
                }
                let ghost s4 = self.state();
                proof {
                    assert(join_kind_of(t[0]@) == Some(kind_index));
                    if st.cursor == 0 {
                        let b = join_keywords_len(t)->0;
                        assert(s4.items =~= t.skip(b as int));
                        lemma_join_rest_len(s4.items, natural, kind_index);
                    }
                }
                let join = self.parse_join_rest(natural, kind_index)?;
                proof {
                    lemma_consumed_trans(st, s4, self.state());
                    if st.cursor == 0 {
                        let b = join_keywords_len(t)->0;
                        if let Parsed::Done(_, n) = spec_join_rest(s4.items, natural, kind_index) {
                            assert(self.state().items =~= s.skip((a + b + n) as int));
                        }
                    }
                }
                Ok(Some(join))
            },
            None => {
                if natural {
                    self.expected_here("join type after NATURAL")
                } else {
                    Ok(None)
                }
            },
        }
    }

    /// Parses a join specification: `ON <condition>` or
    /// `USING ( <column> [, ...] ) [ AS <alias> ]`.
    #[verifier::rlimit(100)]
    #[verifier::spinoff_prover]
    pub fn parse_join_spec(&mut self) -> (r: Result<JoinSpec, ParserError>)
        requires
            old(self).wf(),
        ensures
            final(self).wf(),
            final(self).dialect_in_use() == old(self).dialect_in_use(),
            r matches Ok(JoinSpec::On(_)) ==> peek_is_keyword(old(self).state(), Keyword::ON),
            r matches Ok(JoinSpec::Using { .. }) ==> peek_is_keyword(old(self).state(), Keyword::USING),
            r is Ok ==> advanced(old(self).state(), final(self).state()),
            !peek_is_keyword(old(self).state(), Keyword::ON) && !peek_is_keyword(
                old(self).state(),
                Keyword::USING,
            ) ==> r is Err,
            old(self).state().cursor == 0 && peek_is_keyword(old(self).state(), Keyword::USING) ==> match spec_using_columns(
                old(self).state().items.skip(1),
            ) {
                Some((columns, alias, n)) => r matches Ok(JoinSpec::Using { columns: c, alias: a })
                    && idents_view(c@) == columns && opt_ident_v(a) == alias && final(self).state()
                    == skip_state(old(self).state(), n + 1),
                None => r is Err,
            },
            old(self).state().cursor == 0 ==> meets(
                spec_join_spec(old(self).state().items),
                |j: JoinSpec| join_spec_v(j),
                old(self).state(),
                r,
                final(self).state(),
            ),
            peek_is_keyword(old(self).state(), Keyword::ON) ==> match spec_subexpr(
                old(self).state().items.skip(1),
                0,
            ) {
                Parsed::Done(e, n) => r matches Ok(JoinSpec::On(c)) && expr_v(*c) == e
                    && final(self).state() == skip_state(old(self).state(), n + 1),
                Parsed::Fails => r is Err,
            },
        decreases old(self).state().items.len(), 21nat,
    {
        proof {
            reveal(spec_join_spec);
        }
        let ghost st = self.state();
        if self.parse_keyword(Keyword::ON) {
            proof {
                lemma_next_consumed(st);
                assert(st.items.skip(1) =~= st.items.drop_first());
                lemma_subexpr_len(st.items.skip(1), 0);
            }
            let ghost s1 = self.state();
            let constraint = self.parse_expr()?;
            proof {
                lemma_consumed_trans(st, s1, self.state());
                if let Parsed::Done(_, n) = spec_subexpr(s1.items, 0) {
                    assert(self.state().items =~= st.items.skip(n + 1int));
                }
            }
            Ok(JoinSpec::On(Box::new(constraint)))
        } else if self.parse_keyword(Keyword::USING) {
            proof { lemma_next_consumed(st); }
            let ghost s1 = self.state();
            self.expect_token(&Token::LeftParen)?;
            let ghost s2 = self.state();
            proof {
                lemma_step_advanced(st, s1, s2);
                assert(s2.items =~= st.items.skip(2));
                crate::parser::query::lemma_idents_len(s2.items);
            }
            let columns = self.parse_idents()?;
            let ghost s3 = self.state();
            self.expect_token(&Token::RightParen)?;
            let ghost s4 = self.state();
            proof {
                lemma_consumed_trans(st, s2, s3);
                lemma_step_advanced(st, s3, s4);
                assert(s4.items =~= st.items.skip(st.items.len() - s4.items.len()));
            }
            let alias = if self.parse_keyword(Keyword::AS) {
                let ghost s5 = self.state();
                let a = self.parse_identifier()?;
                proof {
                    lemma_step_advanced(st, s4, s5);
                    lemma_step_advanced(st, s5, self.state());
                    assert(self.state().items =~= st.items.skip(st.items.len() - self.state().items.len()));
                }
                Some(a)
            } else {
                None
            };
            Ok(JoinSpec::Using { columns, alias })
        } else {
            self.expected_here("ON or USING after join type")
        }
    }

    /// Parses a `WHERE` clause: `WHERE <condition>`.
    pub fn parse_where_clause(&mut self) -> (r: Result<Option<Where>, ParserError>)
        requires
            old(self).wf(),
        ensures
            final(self).wf(),
            final(self).dialect_in_use() == old(self).dialect_in_use(),
            !peek_is_keyword(old(self).state(), Keyword::WHERE) ==> (r matches Ok(None)
                && final(self).state() == old(self).state()),
            peek_is_keyword(old(self).state(), Keyword::WHERE) ==> (r is Ok ==> (r matches Ok(Some(_))
                && advanced(old(self).state(), final(self).state()))),
            r is Ok ==> consumed(old(self).state(), final(self).state()),
            peek_is_keyword(old(self).state(), Keyword::WHERE) ==> match spec_subexpr(
                old(self).state().items.skip(1),
                0,
            ) {
                Parsed::Done(e, n) => r matches Ok(Some(w)) && expr_v(*w.expr) == e && final(self).state()
                    == skip_state(old(self).state(), n + 1),
                Parsed::Fails => r is Err,
            },
            old(self).state().cursor == 0 ==> meets(
                spec_condition_clause(old(self).state().items, Keyword::WHERE),
                |c: Option<Where>| match c {
                    Some(c) => Some(expr_v(*c.expr)),
                    None => None,
                },
                old(self).state(),
                r,
                final(self).state(),
            ),
        decreases old(self).state().items.len(), 21nat,
    {
        proof {
            reveal(spec_condition_clause);
        }
        let ghost st = self.state();
        if self.parse_keyword(Keyword::WHERE) {
            proof {
                lemma_next_consumed(st);
                assert(st.items.skip(1) =~= st.items.drop_first());
                lemma_subexpr_len(st.items.skip(1), 0);
            }
            let ghost s1 = self.state();
            let expr = self.parse_expr()?;
            proof {
                lemma_consumed_trans(st, s1, self.state());
                if let Parsed::Done(_, n) = spec_subexpr(s1.items, 0) {
                    assert(self.state().items =~= st.items.skip(n + 1int));
                }
            }
            Ok(Some(Where { expr: Box::new(expr) }))
        } else {
            proof { crate::parser::lemma_consumed_refl(st); }
            Ok(None)
        }
    }

    /// Parses a `GROUP BY` clause:
    /// `GROUP BY [ DISTINCT | ALL ] <grouping element> [, ...]`.
    pub fn parse_group_by_clause(&mut self) -> (r: Result<Option<GroupBy>, ParserError>)
        requires
            old(self).wf(),
        ensures
            final(self).wf(),
            final(self).dialect_in_use() == old(self).dialect_in_use(),
            !keywords_follow(old(self).state(), seq![Keyword::GROUP, Keyword::BY]) ==> (r matches Ok(
                None,
            ) && final(self).state() == (PeekState { items: old(self).state().items, cursor: 0 })),
            keywords_follow(old(self).state(), seq![Keyword::GROUP, Keyword::BY]) ==> (r is Ok
                ==> (r matches Ok(Some(_)) && advanced(old(self).state(), final(self).state()))),
            r matches Ok(None) ==> consumed(old(self).state(), final(self).state()),
            old(self).state().cursor == 0 && keywords_follow(
                old(self).state(),
                seq![Keyword::GROUP, Keyword::BY],
            ) ==> match spec_grouping_elements(group_by_elements_start(old(self).state())) {
                Some((l, n)) => r matches Ok(Some(g)) && g.quantifier == spec_set_quantifier(
                    skip_state(old(self).state(), 2),
                ) && grouping_elements_v(g.list@) == l,
                None => r is Err,
            },
            old(self).state().cursor == 0 ==> meets(
                spec_group_by_part(old(self).state().items),
                |g: Option<GroupBy>| match g {
                    Some(g) => Some((g.quantifier, grouping_elements_v(g.list@))),
                    None => None,
                },
                old(self).state(),
                r,
                final(self).state(),
            ),
        decreases old(self).state().items.len(), 21nat,
    {
        proof { reveal(spec_group_by_part); }
        let ghost st = self.state();
        let kws = [Keyword::GROUP, Keyword::BY];
        assert(kws@ =~= seq![Keyword::GROUP, Keyword::BY]);
        if self.parse_keywords(&kws) {
            let ghost s1 = self.state();
            proof {
                assert(s1.items =~= st.items.skip(st.items.len() - s1.items.len()));
            }
            let quantifier = self.parse_set_quantifier();
            let ghost s2 = self.state();
            proof {
                lemma_step_advanced(st, s1, s2);
                if quantifier.is_some() {
                    assert(s2.items =~= s1.items.skip(1));
                }
            }
            proof {
                if st.cursor == 0 {
                    crate::parser::lemma_two_keywords_follow(st, Keyword::GROUP, Keyword::BY);
                    let k: nat = if quantifier is Some { 3 } else { 2 };
                    assert(s2.items =~= st.items.skip(k as int));
                    lemma_grouping_elements_len(s2.items);
                }
            }
            let list = self.parse_grouping_elements()?;
            proof {
                lemma_consumed_trans(st, s2, self.state());
                if st.cursor == 0 {
                    let k: nat = if quantifier is Some { 3 } else { 2 };
                    if let Some((_, n)) = spec_grouping_elements(s2.items) {
                        assert(self.state().items =~= st.items.skip((k + n) as int));
                    }
                }
            }
            Ok(Some(GroupBy { quantifier, list }))
        } else {
            proof {
                assert(st.items =~= st.items.skip(0));
                if st.cursor == 0 {
                    crate::parser::lemma_two_keywords_follow(st, Keyword::GROUP, Keyword::BY);
                }
            }
            Ok(None)
        }
    }

    /// Parses grouping elements separated by commas.
    #[verifier::loop_isolation(false)]
    #[verifier::rlimit(100)]
    #[verifier::spinoff_prover]
    fn parse_grouping_elements(&mut self) -> (r: Result<Vec<GroupingElement>, ParserError>)
        requires
            old(self).wf(),
        ensures
            final(self).wf(),
            final(self).dialect_in_use() == old(self).dialect_in_use(),
            r matches Ok(v) ==> v@.len() > 0 && advanced(old(self).state(), final(self).state()),
            old(self).state().cursor == 0 ==> match spec_grouping_elements(old(self).state().items) {
                Some((elements, n)) => r matches Ok(v) && grouping_elements_v(v@) == elements
                    && final(self).state() == skip_state(old(self).state(), n),
                None => r is Err,
            },
        decreases old(self).state().items.len(), 26nat,
    {
        let ghost st = self.state();
        let mut list: Vec<GroupingElement> = Vec::new();
        proof {
            lemma_grouping_elements_unfold(st.items);
            lemma_grouping_element_len(st.items);
        }
        let first = self.parse_grouping_element()?;
        let ghost g0 = grouping_element_v(first);
        list.push(first);
        proof { assert(grouping_elements_v(list@) =~= seq![g0]); }
        loop
            invariant
                self.wf(),
                self.dialect_in_use() == old(self).dialect_in_use(),
                advanced(st, self.state()),
                list@.len() > 0,
                st.cursor == 0 ==> self.state() == skip_state(
                    st,
                    (st.items.len() - self.state().items.len()) as nat,
                ),
                st.cursor == 0 ==> spec_grouping_elements(st.items) == list_prepend(
                    grouping_elements_v(list@),
                    (st.items.len() - self.state().items.len()) as nat,
                    grouping_elements_after(self.state().items),
                ),
            decreases self.state().items.len(),
        {
            let ghost cur = self.state();
            if !self.next_token_if_is(&Token::Comma) {
                proof {
                    assert(grouping_elements_v(list@) + Seq::<GroupingElementV>::empty()
                        =~= grouping_elements_v(list@));
                }
                break;
            }
            let ghost mid = self.state();
            proof {
                assert(mid.items =~= cur.items.skip(1));
                lemma_grouping_elements_unfold(mid.items);
                lemma_grouping_element_len(mid.items);
            }
            let e = self.parse_grouping_element()?;
            proof {
                lemma_step_advanced(st, cur, mid);
                lemma_consumed_trans(st, mid, self.state());
            }
            let ghost old_view = grouping_elements_v(list@);
            let ghost ge = grouping_element_v(e);
            list.push(e);
            proof {
                assert(grouping_elements_v(list@) =~= old_view + seq![ge]);
                if st.cursor == 0 {
                    assert(self.state().items =~= st.items.skip(st.items.len() - self.state().items.len()));
                    match grouping_elements_after(self.state().items) {
                        Some((r, m)) => {
                            assert(old_view + (seq![ge] + r) =~= grouping_elements_v(list@) + r);
                        },
                        None => {},
                    }
                }
            }
        }
        Ok(list)
    }

    /// Parses a grouping element: `( )`, an ordinary grouping set,
    /// `ROLLUP <grouping sets>`, `CUBE <grouping sets>` or
    /// `GROUPING SETS ( <grouping element> [, ...] )`.
    #[verifier::rlimit(100)]
    #[verifier::spinoff_prover]
    pub fn parse_grouping_element(&mut self) -> (r: Result<GroupingElement, ParserError>)
        requires
            old(self).wf(),
        ensures
            final(self).wf(),
            final(self).dialect_in_use() == old(self).dialect_in_use(),
            r is Ok ==> advanced(old(self).state(), final(self).state()),
            old(self).state().cursor == 0 ==> match spec_grouping_element(old(self).state().items) {
                Some((g, n)) => r matches Ok(x) && grouping_element_v(x) == g
                    && final(self).state() == skip_state(old(self).state(), n),
                None => r is Err,
            },
        decreases old(self).state().items.len(), 25nat,
    {
        let ghost st = self.state();
        proof { lemma_grouping_element_len(st.items); }
        if self.parse_keyword(Keyword::ROLLUP) {
            proof {
                lemma_next_consumed(st);
                assert(self.state().items =~= st.items.skip(1));
            }
            let ghost s1 = self.state();
            proof { lemma_grouping_sets_len(s1.items); }
            let list = self.parse_grouping_sets()?;
            proof {
                lemma_consumed_trans(st, s1, self.state());
                assert(self.state().items =~= st.items.skip(st.items.len() - self.state().items.len()));
            }
            return Ok(GroupingElement::Rollup(list));
        }
        if self.parse_keyword(Keyword::CUBE) {
            proof {
                lemma_next_consumed(st);
                assert(self.state().items =~= st.items.skip(1));
            }
            let ghost s1 = self.state();
            proof { lemma_grouping_sets_len(s1.items); }
            let list = self.parse_grouping_sets()?;
            proof {
                lemma_consumed_trans(st, s1, self.state());
                assert(self.state().items =~= st.items.skip(st.items.len() - self.state().items.len()));
            }
            return Ok(GroupingElement::Cube(list));
        }
        let kws = [Keyword::GROUPING, Keyword::SETS];
        proof {
            assert(kws@ =~= seq![Keyword::GROUPING, Keyword::SETS]);
            crate::parser::lemma_two_keywords_follow(st, Keyword::GROUPING, Keyword::SETS);
        }
        if self.parse_keywords(&kws) {
            let ghost s1 = self.state();
            proof {
                assert(s1.items =~= st.items.skip(st.items.len() - s1.items.len()));
            }
            self.expect_token(&Token::LeftParen)?;
            let ghost s2 = self.state();
            proof {
                lemma_step_advanced(st, s1, s2);
                assert(s2.items =~= st.items.skip(3));
                lemma_grouping_elements_len(s2.items);
            }
            let list = self.parse_grouping_elements()?;
            let ghost s3 = self.state();
            self.expect_token(&Token::RightParen)?;
            proof {
                lemma_consumed_trans(st, s2, s3);
                lemma_step_advanced(st, s3, self.state());
                assert(self.state().items =~= st.items.skip(st.items.len() - self.state().items.len()));
            }
            return Ok(GroupingElement::Sets(list));
        }
        let open_paren = match self.peek_next_token() {
            Some(t) => t.equals(&Token::LeftParen),
            None => false,
        };
        if open_paren {
            let close_paren = match self.peek_next_token() {
                Some(t) => t.equals(&Token::RightParen),
                None => false,
            };
            if close_paren {
                self.next_token();
                self.next_token();
                proof {
                    assert(self.state().items =~= st.items.skip(2));
                }
                Ok(GroupingElement::Empty)
            } else {
                self.reset_peek_cursor();
                proof { lemma_grouping_set_len(st.items); }
                let set = self.parse_grouping_set()?;
                Ok(GroupingElement::OrdinarySet(set))
            }
        } else {
            let column = self.parse_object_name()?;
            proof {
                lemma_object_name_len(st.items);
                assert(self.state().items =~= st.items.skip(st.items.len() - self.state().items.len()));
            }
            Ok(GroupingElement::OrdinarySet(GroupingSet::Column(column)))
        }
    }

    /// Parses ordinary grouping sets separated by commas.
    #[verifier::loop_isolation(false)]
    #[verifier::rlimit(100)]
    #[verifier::spinoff_prover]
    fn parse_grouping_sets(&mut self) -> (r: Result<Vec<GroupingSet>, ParserError>)
        requires
            old(self).wf(),
        ensures
            final(self).wf(),
            final(self).dialect_in_use() == old(self).dialect_in_use(),
            r matches Ok(v) ==> v@.len() > 0 && advanced(old(self).state(), final(self).state()),
            old(self).state().cursor == 0 ==> match spec_grouping_sets(old(self).state().items) {
                Some((sets, n)) => r matches Ok(v) && grouping_sets_v(v@) == sets
                    && final(self).state() == skip_state(old(self).state(), n),
                None => r is Err,
            },
    {
        let ghost st = self.state();
        let mut list: Vec<GroupingSet> = Vec::new();
        proof {
            lemma_grouping_sets_unfold(st.items);
            lemma_grouping_set_len(st.items);
        }
        let first = self.parse_grouping_set()?;
        let ghost g0 = grouping_set_v(first);
        list.push(first);
        proof { assert(grouping_sets_v(list@) =~= seq![g0]); }
        loop
            invariant
                self.wf(),
                self.dialect_in_use() == old(self).dialect_in_use(),
                advanced(st, self.state()),
                list@.len() > 0,
                st.cursor == 0 ==> self.state() == skip_state(
                    st,
                    (st.items.len() - self.state().items.len()) as nat,
                ),
                st.cursor == 0 ==> spec_grouping_sets(st.items) == list_prepend(
                    grouping_sets_v(list@),
                    (st.items.len() - self.state().items.len()) as nat,
                    grouping_sets_after(self.state().items),
                ),
            decreases self.state().items.len(),
        {
            let ghost cur = self.state();
            if !self.next_token_if_is(&Token::Comma) {
                proof {
                    assert(grouping_sets_v(list@) + Seq::<GroupingSetV>::empty() =~= grouping_sets_v(list@));
                }
                break;
            }
            let ghost mid = self.state();
            proof {
                assert(mid.items =~= cur.items.skip(1));
                lemma_grouping_sets_unfold(mid.items);
                lemma_grouping_set_len(mid.items);
            }
            let e = self.parse_grouping_set()?;
            proof {
                lemma_step_advanced(st, cur, mid);
                lemma_consumed_trans(st, mid, self.state());
            }
            let ghost old_view = grouping_sets_v(list@);
            let ghost ge = grouping_set_v(e);
            list.push(e);
            proof {
                assert(grouping_sets_v(list@) =~= old_view + seq![ge]);
                if st.cursor == 0 {
                    assert(self.state().items =~= st.items.skip(st.items.len() - self.state().items.len()));
                    match grouping_sets_after(self.state().items) {
                        Some((r, m)) => {
                            assert(old_view + (seq![ge] + r) =~= grouping_sets_v(list@) + r);
                        },
                        None => {},
                    }
                }
            }
        }
        Ok(list)
    }

    /// Parses an ordinary grouping set: a column, or columns in parentheses
    /// separated by commas.
    pub fn parse_grouping_set(&mut self) -> (r: Result<GroupingSet, ParserError>)
        requires
            old(self).wf(),
        ensures
            final(self).wf(),
            final(self).dialect_in_use() == old(self).dialect_in_use(),
            r is Ok ==> advanced(old(self).state(), final(self).state()),
            old(self).state().cursor == 0 ==> match spec_grouping_set(old(self).state().items) {
                Some((g, n)) => r matches Ok(x) && grouping_set_v(x) == g
                    && final(self).state() == skip_state(old(self).state(), n),
                None => r is Err,
            },
    {
        let ghost st = self.state();
        if self.next_token_if_is(&Token::LeftParen) {
            proof {
                lemma_next_consumed(st);
                assert(self.state().items =~= st.items.skip(1));
            }
            let ghost s1 = self.state();
            let columns = self.parse_object_names()?;
            let ghost s2 = self.state();
            proof { lemma_object_names_len(s1.items); }
            self.expect_token(&Token::RightParen)?;
            proof {
                lemma_consumed_trans(st, s1, s2);
                lemma_step_advanced(st, s2, self.state());
                assert(self.state().items =~= st.items.skip(st.items.len() - self.state().items.len()));
            }
            Ok(GroupingSet::Columns(columns))
        } else {
            let column = self.parse_object_name()?;
            proof {
                lemma_object_name_len(st.items);
                assert(self.state().items =~= st.items.skip(st.items.len() - self.state().items.len()));
            }
            Ok(GroupingSet::Column(column))
        }
    }

    /// Parses object names separated by commas.
    #[verifier::loop_isolation(false)]
    pub(crate) fn parse_object_names(&mut self) -> (r: Result<Vec<ObjectName>, ParserError>)
        requires
            old(self).wf(),
        ensures
            final(self).wf(),
            final(self).dialect_in_use() == old(self).dialect_in_use(),
            r matches Ok(v) ==> v@.len() > 0 && advanced(old(self).state(), final(self).state()),
            match spec_object_names(old(self).state().items) {
                Some((names, n)) => r matches Ok(v) && object_names_view(v@) == names
                    && final(self).state() == skip_state(old(self).state(), n),
                None => r is Err,
            },
    {
        let ghost st = self.state();
        let mut list: Vec<ObjectName> = Vec::new();
        proof { lemma_object_names_unfold(st.items); }
        let first = self.parse_object_name()?;
        proof {
            lemma_object_name_len(st.items);
            assert(self.state().items =~= st.items.skip(st.items.len() - self.state().items.len()));
        }
        list.push(first);
        proof { assert(object_names_view(list@) =~= seq![first@]); }
        loop
            invariant
                self.wf(),
                self.dialect_in_use() == old(self).dialect_in_use(),
                advanced(st, self.state()),
                list@.len() > 0,
                self.state() == skip_state(st, (st.items.len() - self.state().items.len()) as nat),
                spec_object_names(st.items) == list_prepend(
                    object_names_view(list@),
                    (st.items.len() - self.state().items.len()) as nat,
                    object_names_after(self.state().items),
                ),
            decreases self.state().items.len(),
        {
            let ghost cur = self.state();
            if !self.next_token_if_is(&Token::Comma) {
                proof {
                    assert(object_names_view(list@) + Seq::<Seq<IdentView>>::empty() =~= object_names_view(list@));
                }
                break;
            }
            let ghost mid = self.state();
            proof {
                assert(mid.items =~= cur.items.skip(1));
                lemma_object_names_unfold(mid.items);
            }
            let e = self.parse_object_name()?;
            proof {
                lemma_step_advanced(st, cur, mid);
                lemma_object_name_len(mid.items);
                assert(self.state().items =~= st.items.skip(st.items.len() - self.state().items.len()));
                assert(self.state().items =~= mid.items.skip(mid.items.len() - self.state().items.len()));
            }
            let ghost old_view = object_names_view(list@);
            list.push(e);
            proof {
                assert(object_names_view(list@) =~= old_view + seq![e@]);
                match object_names_after(self.state().items) {
                    Some((r, m)) => {
                        assert(old_view + (seq![e@] + r) =~= object_names_view(list@) + r);
                    },
                    None => {},
                }
            }
        }
        Ok(list)
    }

    /// Parses a `HAVING` clause: `HAVING <condition>`.
    pub fn parse_having_clause(&mut self) -> (r: Result<Option<Having>, ParserError>)
        requires
            old(self).wf(),
        ensures
            final(self).wf(),
            final(self).dialect_in_use() == old(self).dialect_in_use(),
            !peek_is_keyword(old(self).state(), Keyword::HAVING) ==> (r matches Ok(None)
                && final(self).state() == old(self).state()),
            peek_is_keyword(old(self).state(), Keyword::HAVING) ==> (r is Ok ==> (r matches Ok(Some(_))
                && advanced(old(self).state(), final(self).state()))),
            r is Ok ==> consumed(old(self).state(), final(self).state()),
            peek_is_keyword(old(self).state(), Keyword::HAVING) ==> match spec_subexpr(
                old(self).state().items.skip(1),
                0,
            ) {
                Parsed::Done(e, n) => r matches Ok(Some(w)) && expr_v(*w.expr) == e && final(self).state()
                    == skip_state(old(self).state(), n + 1),
                Parsed::Fails => r is Err,
            },
            old(self).state().cursor == 0 ==> meets(
                spec_condition_clause(old(self).state().items, Keyword::HAVING),
                |c: Option<Having>| match c {
                    Some(c) => Some(expr_v(*c.expr)),
                    None => None,
                },
                old(self).state(),
                r,
                final(self).state(),
            ),
        decreases old(self).state().items.len(), 21nat,
    {
        proof {
            reveal(spec_condition_clause);
        }
        let ghost st = self.state();
        if self.parse_keyword(Keyword::HAVING) {
            proof {
                lemma_next_consumed(st);
                assert(st.items.skip(1) =~= st.items.drop_first());
                lemma_subexpr_len(st.items.skip(1), 0);
            }
            let ghost s1 = self.state();
            let expr = self.parse_expr()?;
            proof {
                lemma_consumed_trans(st, s1, self.state());
                if let Parsed::Done(_, n) = spec_subexpr(s1.items, 0) {
                    assert(self.state().items =~= st.items.skip(n + 1int));
                }
            }
            Ok(Some(Having { expr: Box::new(expr) }))
        } else {
            proof { crate::parser::lemma_consumed_refl(st); }
            Ok(None)
        }
    }

    /// Parses a `WINDOW` clause: `WINDOW <window definition> [, ...]`.
    #[verifier::rlimit(100)]
    #[verifier::spinoff_prover]
    pub fn parse_window_clause(&mut self) -> (r: Result<Option<Window>, ParserError>)
        requires
            old(self).wf(),
        ensures
            final(self).wf(),
            final(self).dialect_in_use() == old(self).dialect_in_use(),
            !peek_is_keyword(old(self).state(), Keyword::WINDOW) ==> (r matches Ok(None)
                && final(self).state() == old(self).state()),
            peek_is_keyword(old(self).state(), Keyword::WINDOW) ==> (r is Ok ==> (r matches Ok(Some(w))
                && w.list@.len() > 0 && advanced(old(self).state(), final(self).state()))),
            r is Ok ==> consumed(old(self).state(), final(self).state()),
            old(self).state().cursor == 0 ==> meets(
                spec_window_part(old(self).state().items),
                |w: Option<Window>| match w {
                    Some(w) => Some(window_defs_v(w.list@)),
                    None => None,
                },
                old(self).state(),
                r,
                final(self).state(),
            ),
        decreases old(self).state().items.len(), 27nat,
    {
        proof {
            reveal(spec_window_part);
        }
        let ghost st = self.state();
        if self.parse_keyword(Keyword::WINDOW) {
            proof { lemma_next_consumed(st); }
            let ghost s1 = self.state();
            proof {
                if st.cursor == 0 { assert(s1.items =~= st.items.skip(1)); }
                lemma_window_defs_len(s1.items);
            }
            let list = self.parse_window_defs()?;
            proof {
                lemma_consumed_trans(st, s1, self.state());
                if st.cursor == 0 {
                    if let Parsed::Done(_, n) = spec_window_defs(s1.items) {
                        assert(self.state().items =~= st.items.skip((n + 1) as int));
                    }
                }
            }
            Ok(Some(Window { list }))
        } else {
            proof {
                crate::parser::lemma_consumed_refl(st);
                assert(st.items =~= st.items.skip(0));
            }
            Ok(None)
        }
    }

    /// Parses window definitions separated by commas.
    #[verifier::loop_isolation(false)]
    #[verifier::rlimit(100)]
    #[verifier::spinoff_prover]
    fn parse_window_defs(&mut self) -> (r: Result<Vec<WindowDef>, ParserError>)
        requires
            old(self).wf(),
        ensures
            final(self).wf(),
            final(self).dialect_in_use() == old(self).dialect_in_use(),
            r matches Ok(v) ==> v@.len() > 0 && advanced(old(self).state(), final(self).state()),
            old(self).state().cursor == 0 ==> meets(
                spec_window_defs(old(self).state().items),
                |v: Vec<WindowDef>| window_defs_v(v@),
                old(self).state(),
                r,
                final(self).state(),
            ),
        decreases old(self).state().items.len(), 26nat,
    {
        let ghost st = self.state();
        let ghost f = |t: Seq<Token>| spec_window_def(t);
        let ghost sp = spec_list(st.items, f);
        proof { lemma_window_defs_is_list(st.items); }
        let ghost cond = st.cursor == 0;
        proof {
            lemma_window_def_len(st.items);
        }
        let mut list: Vec<WindowDef> = Vec::new();
        let first = self.parse_window_def()?;
        list.push(first);
        proof {
            assert(window_defs_v(list@) =~= seq![window_def_v(first)]);
        }
        loop
            invariant
                self.wf(),
                self.dialect_in_use() == old(self).dialect_in_use(),
                advanced(st, self.state()),
                list@.len() > 0,
                f == (|t: Seq<Token>| spec_window_def(t)),
                sp == spec_list(st.items, f),
                cond ==> (sp == prepend(
                    window_defs_v(list@),
                    list_tail(self.state().items, f),
                    (st.items.len() - self.state().items.len()) as nat,
                )),
            decreases self.state().items.len(),
        {
            let ghost cur = self.state();
            let ghost c: nat = (st.items.len() - cur.items.len()) as nat;
            proof {
                assert(cur.items == st.items.skip(c as int));
            }
            if !self.next_token_if_is(&Token::Comma) {
                proof {
                    assert(window_defs_v(list@) + Seq::<WindowDefV>::empty() =~= window_defs_v(list@));
                    assert(self.state() == skip_state(st, c));
                }
                break;
            }
            let ghost mid = self.state();
            proof {
                assert(mid.items =~= cur.items.skip(1));
                lemma_window_def_len(mid.items);
            }
            let e = self.parse_window_def()?;
            proof {
                lemma_step_advanced(st, cur, mid);
                lemma_consumed_trans(st, mid, self.state());
                assert(window_defs_v(list@.push(e)) =~= window_defs_v(list@).push(window_def_v(e)));
                if let Parsed::Done(_, n) = spec_window_def(mid.items) {
                    assert(self.state().items =~= mid.items.skip(n as int));
                    crate::parser::grammar::lemma_list_tail_step(f, cur.items, window_defs_v(list@), c);
                }
            }
            list.push(e);
        }
        Ok(list)
    }

    /// Parses a window definition: `<name> [ AS ] <window specification>`.
    #[verifier::rlimit(100)]
    #[verifier::spinoff_prover]
    pub fn parse_window_def(&mut self) -> (r: Result<WindowDef, ParserError>)
        requires
            old(self).wf(),
        ensures
            final(self).wf(),
            final(self).dialect_in_use() == old(self).dialect_in_use(),
            r is Ok ==> advanced(old(self).state(), final(self).state()),
            old(self).state().items.len() == 0 || word_ident(old(self).state().items[0]@) is None
                ==> r is Err,
            r matches Ok(w) ==> Some(w.name@) == word_ident(old(self).state().items[0]@),
            old(self).state().cursor == 0 ==> meets(
                spec_window_def(old(self).state().items),
                |w: WindowDef| window_def_v(w),
                old(self).state(),
                r,
                final(self).state(),
            ),
        decreases old(self).state().items.len(), 25nat,
    {
        let ghost st = self.state();
        let name = self.parse_identifier()?;
        proof { lemma_next_consumed(st); }
        let ghost s1 = self.state();
        let ghost a: nat = if st.items.len() > 1 && is_keyword_token(st.items[1]@, Keyword::AS) {
            2
        } else {
            1
        };
        proof {
            if st.cursor == 0 {
                assert(spec_next(st) == Some(st.items[0]));
                assert(s1.items =~= st.items.skip(1));
                assert(s1.items.len() > 0 ==> s1.items[0] == st.items[1]);
            }
        }
        self.parse_keyword(Keyword::AS);
        let ghost s2 = self.state();
        proof {
            lemma_step_advanced(st, s1, s2);
            if st.cursor == 0 {
                assert(s2.items =~= st.items.skip(a as int));
            }
            lemma_window_spec_len(s2.items);
        }
        let spec = self.parse_window_spec()?;
        proof {
            lemma_consumed_trans(st, s2, self.state());
            if st.cursor == 0 {
                if let Parsed::Done(_, n) = spec_window_spec(s2.items) {
                    assert(self.state().items =~= st.items.skip((a + n) as int));
                }
            }
        }
        Ok(WindowDef { name, spec })
    }

    /// Parses a window specification:
    /// `( [ <partition clause> ] [ <order by clause> ] [ <frame clause> ] )`.
    #[verifier::rlimit(100)]
    #[verifier::spinoff_prover]
    pub fn parse_window_spec(&mut self) -> (r: Result<WindowSpec, ParserError>)
        requires
            old(self).wf(),
        ensures
            final(self).wf(),
            final(self).dialect_in_use() == old(self).dialect_in_use(),
            r matches Ok(w) ==> w.name is None && peek_is(old(self).state(), TokenView::LeftParen)
                && advanced(old(self).state(), final(self).state()),
            !peek_is(old(self).state(), TokenView::LeftParen) ==> (r matches Err(e) && error_view(e)
                == (false, spec_expected_message(
                spec_token_sql(TokenView::LeftParen),
                opt_token_view(spec_next(old(self).state())),
            )) && final(self).state() == old(self).state()),
            old(self).state().cursor == 0 ==> meets(
                spec_window_spec(old(self).state().items),
                |w: WindowSpec| window_spec_v(w),
                old(self).state(),
                r,
                final(self).state(),
            ),
        decreases old(self).state().items.len(), 21nat,
    {
        let ghost st = self.state();
        let ghost s = st.items;
        let ghost cond = st.cursor == 0;
        self.expect_token(&Token::LeftParen)?;
        proof { lemma_next_consumed(st); }
        let ghost s1 = self.state();
        let ghost t = s.skip(1);
        proof {
            if cond { assert(s1.items =~= t); }
            crate::parser::lemma_two_keywords_follow(s1, Keyword::PARTITION, Keyword::BY);
            lemma_object_names_len(s1.items.skip(2));
        }
        let partition_by = self.parse_window_partition_clause()?;
        let ghost s2 = self.state();
        proof {
            crate::parser::lemma_two_keywords_follow(s2, Keyword::ORDER, Keyword::BY);
            crate::parser::query::lemma_sort_specs_len(s2.items.skip(2));
            if cond {
                if partition_by_at(t) {
                    let n = (spec_object_names(t.skip(2))->0).1;
                    assert(s2.items =~= t.skip((n + 2) as int));
                } else {
                    assert(s2.items =~= t.skip(0));
                }
            }
        }
        let order_by = self.parse_order_by_clause()?;
        let ghost s3 = self.state();
        proof {
            lemma_window_frame_len(s3.items);
        }
        let window_frame = self.parse_window_frame_clause()?;
        let ghost s4 = self.state();
        self.expect_token(&Token::RightParen)?;
        proof {
            lemma_consumed_trans(st, s1, s2);
            lemma_consumed_trans(st, s2, s3);
            lemma_consumed_trans(st, s3, s4);
            lemma_next_consumed(s4);
            lemma_consumed_trans(st, s4, self.state());
            assert(self.state().items =~= s.skip(s.len() - self.state().items.len()));
        }
        Ok(WindowSpec { name: None, partition_by, order_by, window_frame })
    }

    /// Parses a window partition clause: `PARTITION BY <column> [, ...]`.
    pub fn parse_window_partition_clause(&mut self) -> (r: Result<Option<Vec<ObjectName>>, ParserError>)
        requires
            old(self).wf(),
        ensures
            final(self).wf(),
            final(self).dialect_in_use() == old(self).dialect_in_use(),
            !keywords_follow(old(self).state(), seq![Keyword::PARTITION, Keyword::BY]) ==> (r matches Ok(
                None,
            ) && final(self).state() == (PeekState { items: old(self).state().items, cursor: 0 })),
            r matches Ok(Some(v)) ==> v@.len() > 0 && advanced(old(self).state(), final(self).state()),
            r is Ok ==> consumed(old(self).state(), final(self).state()),
            old(self).state().cursor == 0 && keywords_follow(
                old(self).state(),
                seq![Keyword::PARTITION, Keyword::BY],
            ) ==> match spec_object_names(old(self).state().items.skip(2)) {
                Some((names, n)) => r matches Ok(Some(v)) && object_names_view(v@) == names
                    && final(self).state() == skip_state(old(self).state(), n + 2),
                None => r is Err,
            },
    {
        let ghost st = self.state();
        let kws = [Keyword::PARTITION, Keyword::BY];
        assert(kws@ =~= seq![Keyword::PARTITION, Keyword::BY]);
        if self.parse_keywords(&kws) {
            let ghost s1 = self.state();
            proof {
                assert(s1.items =~= st.items.skip(st.items.len() - s1.items.len()));
            }
            let names = self.parse_object_names()?;
            proof {
                lemma_consumed_trans(st, s1, self.state());
                lemma_object_names_len(s1.items);
                assert(self.state().items =~= st.items.skip(st.items.len() - self.state().items.len()));
            }
            Ok(Some(names))
        } else {
            proof { assert(st.items =~= st.items.skip(0)); }
            Ok(None)
        }
    }

    /// Parses a window frame clause:
    /// `{ ROWS | RANGE | GROUPS } { <bound> | BETWEEN <bound> AND <bound> } [ <exclusion> ]`.
    #[verifier::rlimit(100)]
    #[verifier::spinoff_prover]
    pub fn parse_window_frame_clause(&mut self) -> (r: Result<Option<WindowFrame>, ParserError>)
        requires
            old(self).wf(),
        ensures
            final(self).wf(),
            final(self).dialect_in_use() == old(self).dialect_in_use(),
            (peek_is_keyword(old(self).state(), Keyword::ROWS) || peek_is_keyword(
                old(self).state(),
                Keyword::RANGE,
            ) || peek_is_keyword(old(self).state(), Keyword::GROUPS)) ==> (r is Ok ==> (r matches Ok(Some(_)))),
            !(peek_is_keyword(old(self).state(), Keyword::ROWS) || peek_is_keyword(
                old(self).state(),
                Keyword::RANGE,
            ) || peek_is_keyword(old(self).state(), Keyword::GROUPS)) ==> (r matches Ok(None)
                && final(self).state() == old(self).state()),
            r is Ok ==> consumed(old(self).state(), final(self).state()),
            old(self).state().cursor == 0 ==> match spec_window_frame(old(self).state().items) {
                Some((f, n)) => r == Ok::<Option<WindowFrame>, ParserError>(f) && final(self).state()
                    == skip_state(old(self).state(), n),
                None => r is Err,
            },
    {
        let ghost st = self.state();
        let is_frame = match self.peek_token() {
            Some(t) => t.is_keyword(Keyword::ROWS) || t.is_keyword(Keyword::RANGE) || t.is_keyword(
                Keyword::GROUPS,
            ),
            None => false,
        };
        if !is_frame {
            proof { assert(st.items =~= st.items.skip(0)); }
            return Ok(None);
        }
        proof { self.lemma_wf_cursor(); }
        let ghost s = st.items;
        let units = self.parse_window_frame_units()?;
        proof { lemma_next_consumed(st); }
        let ghost s1 = self.state();
        proof {
            assert(s1.items =~= s.skip(1));
            assert(s1.items.skip(1) =~= s1.items.drop_first());
            crate::parser::lemma_two_keywords_follow(
                PeekState { items: s1.items.skip(1), cursor: 0 },
                Keyword::CURRENT,
                Keyword::ROW,
            );
            crate::parser::lemma_two_keywords_follow(
                PeekState { items: s1.items, cursor: 0 },
                Keyword::CURRENT,
                Keyword::ROW,
            );
        }
        let (start_bound, end_bound) = if self.parse_keyword(Keyword::BETWEEN) {
            let ghost s2 = self.state();
            proof { lemma_step_advanced(st, s1, s2); }
            let start_bound = self.parse_window_frame_bound()?;
            let ghost s3 = self.state();
            proof {
                lemma_consumed_trans(st, s2, s3);
                assert(s3.items.skip(1) =~= s3.items.drop_first());
                crate::parser::lemma_two_keywords_follow(
                    PeekState { items: s3.items.skip(1), cursor: 0 },
                    Keyword::CURRENT,
                    Keyword::ROW,
                );
            }
            self.expect_keyword(Keyword::AND)?;
            let ghost s4 = self.state();
            proof { lemma_step_advanced(st, s3, s4); }
            let end_bound = self.parse_window_frame_bound()?;
            proof {
                lemma_consumed_trans(st, s4, self.state());
                assert(self.state().items =~= s.skip(st.items.len() - self.state().items.len()));
            }
            (start_bound, Some(end_bound))
        } else {
            let b = self.parse_window_frame_bound()?;
            proof { lemma_consumed_trans(st, s1, self.state()); }
            (b, None)
        };
        let ghost s5 = self.state();
        proof {
            if st.cursor == 0 {
                let k = (spec_frame_extent(s1.items)->0).2;
                assert(s5.items =~= s1.items.skip(k as int));
            }
        }
        let exclusion = self.parse_window_frame_exclusion()?;
        proof {
            lemma_consumed_trans(st, s5, self.state());
            if st.cursor == 0 {
                assert(self.state().items =~= s.skip(st.items.len() - self.state().items.len()));
            }
        }
        Ok(Some(WindowFrame { units, start_bound, end_bound, exclusion }))
    }

    /// Parses window frame units: `ROWS`, `RANGE` or `GROUPS`.
    pub fn parse_window_frame_units(&mut self) -> (r: Result<WindowFrameUnits, ParserError>)
        requires
            old(self).wf(),
        ensures
            final(self).wf(),
            final(self).dialect_in_use() == old(self).dialect_in_use(),
            final(self).state() == spec_next_state(old(self).state()),
            match spec_next(old(self).state()) {
                Some(t) => match token_frame_units(t@) {
                    Some(u) => r == Ok::<WindowFrameUnits, ParserError>(u),
                    None => r is Err,
                },
                None => r is Err,
            },
    {
        match self.next_token() {
            Some(t) => {
                if t.is_keyword(Keyword::ROWS) {
                    Ok(WindowFrameUnits::Rows)
                } else if t.is_keyword(Keyword::RANGE) {
                    Ok(WindowFrameUnits::Range)
                } else if t.is_keyword(Keyword::GROUPS) {
                    Ok(WindowFrameUnits::Groups)
                } else {
                    self.expected("ROWS, RANGE, GROUPS", Some(&t))
                }
            },
            None => self.expected("ROWS, RANGE, GROUPS", None),
        }
    }

    /// Parses a window frame bound: `CURRENT ROW` or
    /// `{ <unsigned integer> | UNBOUNDED } { PRECEDING | FOLLOWING }`.
    pub fn parse_window_frame_bound(&mut self) -> (r: Result<WindowFrameBound, ParserError>)
        requires
            old(self).wf(),
        ensures
            final(self).wf(),
            final(self).dialect_in_use() == old(self).dialect_in_use(),
            if keywords_follow(old(self).state(), seq![Keyword::CURRENT, Keyword::ROW]) {
                r == Ok::<WindowFrameBound, ParserError>(WindowFrameBound::CurrentRow)
                    && final(self).state() == skip_state(old(self).state(), 2)
            } else {
                match spec_frame_bound(old(self).state().items) {
                    Some((b, n)) => r == Ok::<WindowFrameBound, ParserError>(b) && final(self).state() == skip_state(old(self).state(), n),
                    None => r matches Err(e) && error_view(e) == (false, if old(self).state().items.len()
                        > 0 && (is_keyword_token(old(self).state().items[0]@, Keyword::UNBOUNDED)
                        || token_uint(old(self).state().items[0]@) is Some) {
                        spec_expected_message(
                            "PRECEDING or FOLLOWING"@,
                            opt_token_view(spec_next(skip_state(old(self).state(), 1))),
                        )
                    } else {
                        spec_expected_message(
                            "an unsigned integer"@,
                            opt_token_view(spec_next(old(self).state())),
                        )
                    }),
                }
            },
    {
        let ghost st = self.state();
        let ghost s = st.items;
        let kws = [Keyword::CURRENT, Keyword::ROW];
        assert(kws@ =~= seq![Keyword::CURRENT, Keyword::ROW]);
        if self.parse_keywords(&kws) {
            return Ok(WindowFrameBound::CurrentRow);
        }
        proof {
            crate::parser::lemma_two_keywords_follow(self.state(), Keyword::CURRENT, Keyword::ROW);
        }
        let rows = if self.parse_keyword(Keyword::UNBOUNDED) {
            None
        } else {
            Some(self.parse_literal_uint()?)
        };
        proof {
            assert(self.state().items =~= s.skip(1));
        }
        if self.parse_keyword(Keyword::PRECEDING) {
            assert(self.state().items =~= s.skip(2));
            Ok(WindowFrameBound::Preceding(rows))
        } else if self.parse_keyword(Keyword::FOLLOWING) {
            assert(self.state().items =~= s.skip(2));
            Ok(WindowFrameBound::Following(rows))
        } else {
            self.expected_here("PRECEDING or FOLLOWING")
        }
    }

    /// Parses a window frame exclusion:
    /// `EXCLUDE { CURRENT ROW | GROUP | TIES | NO OTHERS }`.
    pub fn parse_window_frame_exclusion(&mut self) -> (r: Result<Option<WindowFrameExclusion>, ParserError>)
        requires
            old(self).wf(),
        ensures
            final(self).wf(),
            final(self).dialect_in_use() == old(self).dialect_in_use(),
            if peek_is_keyword(old(self).state(), Keyword::EXCLUDE) {
                match spec_frame_exclusion(spec_next_state(old(self).state()).items) {
                    Some((x, n)) => r == Ok::<Option<WindowFrameExclusion>, ParserError>(Some(x))
                        && final(self).state() == skip_state(old(self).state(), n + 1),
                    None => r matches Err(e) && error_view(e) == (false, spec_expected_message(
                        "CURRENT ROW, GROUP, TIES or NO OTHERS"@,
                        opt_token_view(spec_next(spec_next_state(old(self).state()))),
                    )),
                }
            } else {
                r == Ok::<Option<WindowFrameExclusion>, ParserError>(None) && final(self).state()
                    == old(self).state()
            },
            r is Ok ==> consumed(old(self).state(), final(self).state()),
    {
        let ghost st = self.state();
        proof { crate::parser::lemma_consumed_refl(st); }
        if self.parse_keyword(Keyword::EXCLUDE) {
            let ghost s = self.state().items;
            proof {
                crate::parser::lemma_two_keywords_follow(self.state(), Keyword::CURRENT, Keyword::ROW);
                crate::parser::lemma_two_keywords_follow(self.state(), Keyword::NO, Keyword::OTHERS);
            }
            let current_row = [Keyword::CURRENT, Keyword::ROW];
            let no_others = [Keyword::NO, Keyword::OTHERS];
            assert(current_row@ =~= seq![Keyword::CURRENT, Keyword::ROW]);
            assert(no_others@ =~= seq![Keyword::NO, Keyword::OTHERS]);
            if self.parse_keywords(&current_row) {
                assert(self.state().items =~= st.items.skip(3));
                Ok(Some(WindowFrameExclusion::CurrentRow))
            } else if self.parse_keyword(Keyword::GROUP) {
                assert(self.state().items =~= st.items.skip(2));
                Ok(Some(WindowFrameExclusion::Group))
            } else if self.parse_keyword(Keyword::TIES) {
                assert(self.state().items =~= st.items.skip(2));
                Ok(Some(WindowFrameExclusion::Ties))
            } else if self.parse_keywords(&no_others) {
                assert(self.state().items =~= st.items.skip(3));
                Ok(Some(WindowFrameExclusion::NoOthers))
            } else {
                self.expected_here("CURRENT ROW, GROUP, TIES or NO OTHERS")
            }
        } else {
            proof { crate::parser::lemma_consumed_refl(st); }
            Ok(None)
        }
    }
}

} // verus!
