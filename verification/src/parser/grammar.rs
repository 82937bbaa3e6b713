//! The expression grammar that the parser reads, as functions on tokens.
use vstd::prelude::*;

use crate::ast::operator::{BinaryOperator, UnaryOperator};
use crate::ast::expression::Expr;
use crate::ast::view::{expr_v, ExprV};
use crate::parser::ParserError;
use crate::keyword_table::Keyword;
use crate::parser::expression::{
    spec_next_precedence, starts_literal, token_binary_operator, BETWEEN_PREC, PLUS_MINUS_PREC,
    UNARY_NOT_PREC,
};
use crate::parser::types::{lemma_literal_len, skip_state, spec_literal, word_ident};
use crate::parser::query::spec_paren_query;
use crate::peek::PeekState;
use crate::token::{is_keyword_token, spec_token_sql, IdentView, Token, TokenView};
use crate::ast::text::{binary_operator_sql, expr_sql, not_sql, unary_operator_sql};

verus! {

/// The outcome of reading something from the front of the tokens: its value
/// and the number of tokens it takes, or a failure.
pub enum Parsed<V> {
    /// Read, taking that many tokens.
    Done(V, nat),
    /// The tokens do not start with one.
    Fails,
}

/// An outcome with `k` more tokens in front.
pub open spec fn shift<V>(p: Parsed<V>, k: nat) -> Parsed<V> {
    match p {
        Parsed::Done(v, n) => Parsed::Done(v, n + k),
        Parsed::Fails => Parsed::Fails,
    }
}

/// The precedence of the operator at the front of the tokens; 0 if none.
pub open spec fn front_precedence(t: Seq<Token>) -> u8 {
    spec_next_precedence(PeekState { items: t, cursor: 0 })
}

/// Whether a query starts with the token: `SELECT` or `WITH`.
pub open spec fn starts_query(t: TokenView) -> bool {
    is_keyword_token(t, Keyword::SELECT) || is_keyword_token(t, Keyword::WITH)
}

/// A unary operator applied to an operand read after one token.
pub open spec fn unary(op: UnaryOperator, p: Parsed<ExprV>) -> Parsed<ExprV> {
    match p {
        Parsed::Done(e, n) => Parsed::Done(ExprV::UnaryOp { op, expr: Box::new(e) }, n + 1),
        Parsed::Fails => Parsed::Fails,
    }
}

/// A binary operator with its left operand and a right operand read after
/// `k` tokens.
pub open spec fn binary(op: BinaryOperator, left: ExprV, p: Parsed<ExprV>, k: nat) -> Parsed<ExprV> {
    match p {
        Parsed::Done(e, n) => Parsed::Done(
            ExprV::BinaryOp { op, left: Box::new(left), right: Box::new(e) },
            n + k,
        ),
        Parsed::Fails => Parsed::Fails,
    }
}

/// The rest of a compound identifier after its first word:
/// `{ . <word> } [ . * ]`, with the further words, whether it ends with `*`,
/// and the number of tokens.
pub open spec fn spec_compound_rest(t: Seq<Token>) -> Option<(Seq<IdentView>, bool, nat)>
    decreases t.len(),
{
    if t.len() > 0 && t[0]@ == TokenView::Period {
        if t.len() > 1 && word_ident(t[1]@) is Some {
            match spec_compound_rest(t.skip(2)) {
                Some((p, w, n)) => Some((seq![word_ident(t[1]@)->0] + p, w, n + 2)),
                None => None,
            }
        } else if t.len() > 1 && t[1]@ == TokenView::Asterisk {
            Some((Seq::empty(), true, 2))
        } else {
            None
        }
    } else {
        Some((Seq::empty(), false, 0))
    }
}

/// The expression operand at the front of the tokens: a literal, `NOT`,
/// `+` or `-` and an operand, an identifier or compound identifier, `*`, or
/// a parenthesized expression.
pub open spec fn spec_prefix(s: Seq<Token>) -> Parsed<ExprV>
    decreases s.len(), 1nat,
{
    if s.len() == 0 {
        Parsed::Fails
    } else {
        let t = s[0]@;
        if starts_literal(t) {
            match spec_literal(s) {
                Some((l, n)) => Parsed::Done(ExprV::Literal(l), n),
                None => Parsed::Fails,
            }
        } else if is_keyword_token(t, Keyword::NOT) {
            unary(UnaryOperator::Not, spec_subexpr(s.skip(1), UNARY_NOT_PREC))
        } else if t is Keyword || t is Ident {
            let w = word_ident(t)->0;
            if s.len() > 1 && s[1]@ == TokenView::Period {
                match spec_compound_rest(s.skip(1)) {
                    Some((p, wild, n)) => Parsed::Done(
                        if wild {
                            ExprV::QualifiedWildcard(seq![w] + p)
                        } else {
                            ExprV::CompoundIdentifier(seq![w] + p)
                        },
                        n + 1,
                    ),
                    None => Parsed::Fails,
                }
            } else {
                Parsed::Done(ExprV::Identifier(w), 1)
            }
        } else if t == TokenView::Minus {
            unary(UnaryOperator::Minus, spec_subexpr(s.skip(1), PLUS_MINUS_PREC))
        } else if t == TokenView::Plus {
            unary(UnaryOperator::Plus, spec_subexpr(s.skip(1), PLUS_MINUS_PREC))
        } else if t == TokenView::Asterisk {
            Parsed::Done(ExprV::Wildcard, 1)
        } else if t == TokenView::LeftParen {
            if s.len() > 1 && starts_query(s[1]@) {
                match spec_paren_query(s) {
                    Parsed::Done(q, n) => Parsed::Done(ExprV::Subquery(Box::new(q)), n),
                    Parsed::Fails => Parsed::Fails,
                }
            } else {
                match spec_subexpr(s.skip(1), 0) {
                    Parsed::Done(e, n) => if s.len() > n + 1 && s[n + 1int]@ == TokenView::RightParen {
                        Parsed::Done(ExprV::Nested(Box::new(e)), n + 2)
                    } else {
                        Parsed::Fails
                    },
                    Parsed::Fails => Parsed::Fails,
                }
            }
        } else {
            Parsed::Fails
        }
    }
}

/// The expression at the front of the tokens whose operators bind tighter
/// than `prec`.
pub open spec fn spec_subexpr(s: Seq<Token>, prec: u8) -> Parsed<ExprV>
    decreases s.len(), 3nat,
{
    match spec_prefix(s) {
        Parsed::Done(e, n) => if 0 < n <= s.len() {
            shift(spec_subexpr_rest(s.skip(n as int), prec, e), n)
        } else {
            Parsed::Fails
        },
        Parsed::Fails => Parsed::Fails,
    }
}

/// The operators and operands that follow `left` at the front of the tokens,
/// as long as they bind tighter than `prec`.
pub open spec fn spec_subexpr_rest(t: Seq<Token>, prec: u8, left: ExprV) -> Parsed<ExprV>
    decreases t.len(), 2nat,
{
    let p = front_precedence(t);
    if prec >= p {
        Parsed::Done(left, 0)
    } else {
        match spec_infix(t, left, p) {
            Parsed::Done(e, m) => if 0 < m <= t.len() {
                shift(spec_subexpr_rest(t.skip(m as int), prec, e), m)
            } else {
                Parsed::Fails
            },
            Parsed::Fails => Parsed::Fails,
        }
    }
}

/// An operator at the front of the tokens with what follows it, `left`
/// being its left operand and `p` its precedence.
pub open spec fn spec_infix(t: Seq<Token>, left: ExprV, p: u8) -> Parsed<ExprV>
    decreases t.len(), 1nat,
{
    if t.len() == 0 {
        Parsed::Fails
    } else {
        let tok = t[0]@;
        let u = t.skip(1);
        if token_binary_operator(tok) is Some {
            binary(token_binary_operator(tok)->0, left, spec_subexpr(u, p), 1)
        } else if is_keyword_token(tok, Keyword::NOT) && u.len() > 0 && is_keyword_token(
            u[0]@,
            Keyword::LIKE,
        ) {
            binary(BinaryOperator::NotLike, left, spec_subexpr(t.skip(2), p), 2)
        } else if is_keyword_token(tok, Keyword::NOT) && u.len() > 0 && is_keyword_token(
            u[0]@,
            Keyword::ILIKE,
        ) {
            binary(BinaryOperator::NotILike, left, spec_subexpr(t.skip(2), p), 2)
        } else if is_keyword_token(tok, Keyword::IS) {
            shift(spec_is(u, left), 1)
        } else if is_keyword_token(tok, Keyword::NOT) {
            if u.len() > 0 && is_keyword_token(u[0]@, Keyword::IN) {
                shift(spec_in(t.skip(2), left, true), 2)
            } else if u.len() > 0 && is_keyword_token(u[0]@, Keyword::BETWEEN) {
                shift(spec_between(t.skip(2), left, true), 2)
            } else {
                Parsed::Fails
            }
        } else if is_keyword_token(tok, Keyword::IN) {
            shift(spec_in(u, left, false), 1)
        } else if is_keyword_token(tok, Keyword::BETWEEN) {
            shift(spec_between(u, left, false), 1)
        } else {
            Parsed::Fails
        }
    }
}

/// An infix operator writes back as the tokens it was read from: the text
/// of the binary operator read after an operand is the text of its token,
/// or of its two tokens separated by a space (`NOT LIKE`, `NOT ILIKE`).
pub proof fn law_infix_operator_is_its_tokens(t: Seq<Token>, left: ExprV, p: u8)
    ensures
        spec_infix(t, left, p) matches Parsed::Done(ExprV::BinaryOp { op, .. }, _) ==> t.len() > 0
            && (binary_operator_sql(op) == spec_token_sql(t[0]@) || (t.len() > 1
            && binary_operator_sql(op) == spec_token_sql(t[0]@) + " "@ + spec_token_sql(t[1]@))),
{
    if t.len() > 0 {
        crate::parser::expression::law_binary_operator_is_its_token(t[0]@);
        reveal_strlit("NOT");
        reveal_strlit("LIKE");
        reveal_strlit("ILIKE");
        reveal_strlit("NOT LIKE");
        reveal_strlit("NOT ILIKE");
        reveal_strlit(" ");
        assert("NOT LIKE"@ =~= "NOT"@ + " "@ + "LIKE"@);
        assert("NOT ILIKE"@ =~= "NOT"@ + " "@ + "ILIKE"@);
        if t.len() > 1 {
            assert(t.skip(1)[0] == t[1]);
        }
        reveal(spec_paren_query);
    }
}

/// The words of the first `n` tokens, separated by single spaces (one or
/// two tokens).
pub open spec fn words_read(u: Seq<Token>, n: nat) -> Seq<char> {
    if n == 1 {
        spec_token_sql(u[0]@)
    } else {
        spec_token_sql(u[0]@) + " "@ + spec_token_sql(u[1]@)
    }
}

/// A test written after `IS` writes back as the keywords it was read from:
/// `<expr> IS [NOT] NULL` and `<expr> IS [NOT] DISTINCT FROM <expr>` keep
/// their `NOT`, and `NULL` or `DISTINCT FROM`, as read.
pub proof fn law_is_test_is_its_keywords(u: Seq<Token>, left: ExprV)
    ensures
        spec_is(u, left) matches Parsed::Done(e, n) ==> (e matches ExprV::IsNull { .. } ==> (1
            <= n <= 2 && n <= u.len() && expr_sql(e) == expr_sql(left) + " IS "@ + words_read(
            u,
            n,
        ))),
        spec_is(u, left) matches Parsed::Done(e, n) ==> (e matches ExprV::IsDistinctFrom {
            right,
            ..
        } ==> {
            let k: nat = if u.len() > 0 && is_keyword_token(u[0]@, Keyword::NOT) {
                1
            } else {
                0
            };
            &&& k + 2 <= u.len()
            &&& expr_sql(e) == expr_sql(left) + " IS "@ + (if k == 1 {
                spec_token_sql(u[0]@) + " "@
            } else {
                Seq::empty()
            }) + spec_token_sql(u[k as int]@) + " "@ + spec_token_sql(u[k + 1int]@) + " "@
                + expr_sql(*right)
        }),
{
    reveal_strlit("NOT");
    reveal_strlit("NULL");
    reveal_strlit("NOT ");
    reveal_strlit(" IS ");
    reveal_strlit(" ");
    reveal_strlit("DISTINCT");
    reveal_strlit("FROM");
    reveal_strlit("DISTINCT FROM ");
    let negated = u.len() > 0 && is_keyword_token(u[0]@, Keyword::NOT);
    assert("NOT "@ =~= "NOT"@ + " "@);
    assert("DISTINCT FROM "@ =~= "DISTINCT"@ + " "@ + "FROM"@ + " "@);
    if let Parsed::Done(e, n) = spec_is(u, left) {
        match e {
            ExprV::IsNull { .. } => {
                if negated {
                    assert(u.skip(1)[0] == u[1]);
                    assert(expr_sql(left) + " IS "@ + not_sql(true) + "NULL"@ =~= expr_sql(left)
                        + " IS "@ + ("NOT"@ + " "@ + "NULL"@));
                } else {
                    assert(u.skip(0)[0] == u[0]);
                    assert(expr_sql(left) + " IS "@ + not_sql(false) + "NULL"@ =~= expr_sql(left)
                        + " IS "@ + "NULL"@);
                }
            },
            ExprV::IsDistinctFrom { right, .. } => {
                let k: int = if negated {
                    1
                } else {
                    0
                };
                assert(u.skip(k)[0] == u[k]);
                assert(u.skip(k)[1] == u[k + 1]);
                let r = expr_sql(*right);
                if negated {
                    assert(expr_sql(left) + " IS "@ + not_sql(true) + "DISTINCT FROM "@ + r
                        =~= expr_sql(left) + " IS "@ + ("NOT"@ + " "@) + "DISTINCT"@ + " "@
                        + "FROM"@ + " "@ + r);
                } else {
                    assert(expr_sql(left) + " IS "@ + not_sql(false) + "DISTINCT FROM "@ + r
                        =~= expr_sql(left) + " IS "@ + Seq::<char>::empty() + "DISTINCT"@ + " "@
                        + "FROM"@ + " "@ + r);
                }
            },
            _ => {},
        }
    }
}

/// A prefix operator writes back as the token it was read from: `NOT`,
/// `-` and `+` each name their own unary operator.
pub proof fn law_unary_operator_is_its_token(s: Seq<Token>)
    ensures
        spec_prefix(s) matches Parsed::Done(ExprV::UnaryOp { op, .. }, _) ==> s.len() > 0
            && unary_operator_sql(op) == spec_token_sql(s[0]@),
{
    reveal_strlit("NOT");
    reveal_strlit("-");
    reveal_strlit("+");
}

/// What follows `IS`: `[NOT] NULL` or `[NOT] DISTINCT FROM <expr>`, `left`
/// being the tested expression.
pub open spec fn spec_is(u: Seq<Token>, left: ExprV) -> Parsed<ExprV>
    decreases u.len(), 0nat,
{
    let negated = u.len() > 0 && is_keyword_token(u[0]@, Keyword::NOT);
    let k: nat = if negated {
        1
    } else {
        0
    };
    let v = u.skip(k as int);
    if v.len() > 0 && is_keyword_token(v[0]@, Keyword::NULL) {
        Parsed::Done(ExprV::IsNull { negated, expr: Box::new(left) }, k + 1)
    } else if v.len() > 1 && is_keyword_token(v[0]@, Keyword::DISTINCT) && is_keyword_token(
        v[1]@,
        Keyword::FROM,
    ) {
        match spec_subexpr(v.skip(2), 0) {
            Parsed::Done(r, n) => Parsed::Done(
                ExprV::IsDistinctFrom { negated, left: Box::new(left), right: Box::new(r) },
                k + 2 + n,
            ),
            Parsed::Fails => Parsed::Fails,
        }
    } else {
        Parsed::Fails
    }
}

/// The parenthesized list after `[NOT] IN`, `expr` being the tested
/// expression: a nested query or a list of expressions.
pub open spec fn spec_in(u: Seq<Token>, expr: ExprV, negated: bool) -> Parsed<ExprV>
    decreases u.len(), 5nat,
{
    if u.len() > 0 && u[0]@ == TokenView::LeftParen {
        if u.len() > 1 && starts_query(u[1]@) {
            match spec_paren_query(u) {
                Parsed::Done(q, n) => Parsed::Done(
                    ExprV::InSubquery { expr: Box::new(expr), negated, subquery: Box::new(q) },
                    n,
                ),
                Parsed::Fails => Parsed::Fails,
            }
        } else {
            match spec_exprs(u.skip(1)) {
                Parsed::Done(list, n) => if u.len() > n + 1 && u[n + 1int]@ == TokenView::RightParen {
                    Parsed::Done(ExprV::InList { expr: Box::new(expr), negated, list }, n + 2)
                } else {
                    Parsed::Fails
                },
                Parsed::Fails => Parsed::Fails,
            }
        }
    } else {
        Parsed::Fails
    }
}

/// `<low> AND <high>` after `[NOT] BETWEEN`, `expr` being the tested
/// expression.
pub open spec fn spec_between(u: Seq<Token>, expr: ExprV, negated: bool) -> Parsed<ExprV>
    decreases u.len(), 4nat,
{
    match spec_subexpr(u, BETWEEN_PREC) {
        Parsed::Done(low, a) => if a < u.len() && is_keyword_token(u[a as int]@, Keyword::AND) {
            match spec_subexpr(u.skip(a + 1int), BETWEEN_PREC) {
                Parsed::Done(high, b) => Parsed::Done(
                    ExprV::Between {
                        expr: Box::new(expr),
                        negated,
                        low: Box::new(low),
                        high: Box::new(high),
                    },
                    a + 1 + b,
                ),
                Parsed::Fails => Parsed::Fails,
            }
        } else {
            Parsed::Fails
        },
        Parsed::Fails => Parsed::Fails,
    }
}

/// Reading an expression whose operators bind tighter than `prec` stops at
/// the first operator that does not: the operator after it binds no tighter
/// than `prec`. So the right operand of an operator of precedence `p` ends
/// before the next operator of precedence `p` or lower, and operators of
/// equal precedence associate to the left.
pub proof fn law_subexpr_stops(s: Seq<Token>, prec: u8)
    ensures
        spec_subexpr(s, prec) matches Parsed::Done(_, n) ==> n <= s.len() && front_precedence(
            s.skip(n as int),
        ) <= prec,
{
    if let Parsed::Done(e, n) = spec_prefix(s) {
        if 0 < n <= s.len() {
            lemma_subexpr_rest_stops(s.skip(n as int), prec, e);
            if let Parsed::Done(_, m) = spec_subexpr_rest(s.skip(n as int), prec, e) {
                assert(s.skip(n as int).skip(m as int) =~= s.skip((n + m) as int));
            }
        }
    }
}

/// The operators that follow an operand are read as long as they bind
/// tighter than `prec`, and no further.
pub proof fn lemma_subexpr_rest_stops(t: Seq<Token>, prec: u8, left: ExprV)
    ensures
        spec_subexpr_rest(t, prec, left) matches Parsed::Done(_, m) ==> m <= t.len() && front_precedence(
            t.skip(m as int),
        ) <= prec,
    decreases t.len(),
{
    let p = front_precedence(t);
    if prec >= p {
        assert(t.skip(0) =~= t);
    } else if let Parsed::Done(e, m) = spec_infix(t, left, p) {
        if 0 < m <= t.len() {
            lemma_subexpr_rest_stops(t.skip(m as int), prec, e);
            if let Parsed::Done(_, k) = spec_subexpr_rest(t.skip(m as int), prec, e) {
                assert(t.skip(m as int).skip(k as int) =~= t.skip((m + k) as int));
            }
        }
    }
}

/// A list with `pre` in front, after `k` more tokens.
pub open spec fn prepend<V>(pre: Seq<V>, p: Parsed<Seq<V>>, k: nat) -> Parsed<Seq<V>> {
    match p {
        Parsed::Done(l, n) => Parsed::Done(pre + l, n + k),
        Parsed::Fails => Parsed::Fails,
    }
}

/// Expressions separated by commas at the front of the tokens.
pub open spec fn spec_exprs(s: Seq<Token>) -> Parsed<Seq<ExprV>>
    decreases s.len(), 4nat,
{
    match spec_subexpr(s, 0) {
        Parsed::Done(e, n) => if 0 < n <= s.len() {
            prepend(seq![e], spec_exprs_tail(s.skip(n as int)), n)
        } else {
            Parsed::Fails
        },
        Parsed::Fails => Parsed::Fails,
    }
}

/// What follows an expression of a comma-separated list: `, <expr>` again
/// and again.
pub open spec fn spec_exprs_tail(t: Seq<Token>) -> Parsed<Seq<ExprV>>
    decreases t.len(), 5nat,
{
    if t.len() > 0 && t[0]@ == TokenView::Comma {
        shift(spec_exprs(t.skip(1)), 1)
    } else {
        Parsed::Done(Seq::empty(), 0)
    }
}

/// Items separated by commas at the front of the tokens, `item` being the
/// outcome of reading one item.
pub open spec fn spec_list<V>(s: Seq<Token>, item: spec_fn(Seq<Token>) -> Parsed<V>) -> Parsed<Seq<V>>
    decreases s.len(), 0nat,
{
    match item(s) {
        Parsed::Done(e, n) => if 0 < n <= s.len() {
            prepend(seq![e], list_tail(s.skip(n as int), item), n)
        } else {
            Parsed::Fails
        },
        Parsed::Fails => Parsed::Fails,
    }
}

/// What follows an item of a comma-separated list: `, <item>` again and
/// again.
pub open spec fn list_tail<V>(t: Seq<Token>, item: spec_fn(Seq<Token>) -> Parsed<V>) -> Parsed<Seq<V>>
    decreases t.len(), 1nat,
{
    if t.len() > 0 && t[0]@ == TokenView::Comma {
        shift(spec_list(t.skip(1), item), 1)
    } else {
        Parsed::Done(Seq::empty(), 0)
    }
}

/// A comma-separated list takes at least one token and no more than there
/// are.
pub proof fn lemma_list_len<V>(s: Seq<Token>, item: spec_fn(Seq<Token>) -> Parsed<V>)
    ensures
        spec_list(s, item) matches Parsed::Done(_, n) ==> 0 < n <= s.len(),
    decreases s.len(), 0nat,
{
    if let Parsed::Done(e, n) = item(s) {
        if 0 < n <= s.len() {
            lemma_list_tail_len(s.skip(n as int), item);
        }
    }
}

/// After `, <item>`, the items of a comma-separated list read so far grow by
/// that item, and the rest of the list follows it.
pub proof fn lemma_list_tail_step<V>(
    item: spec_fn(Seq<Token>) -> Parsed<V>,
    t: Seq<Token>,
    done: Seq<V>,
    c: nat,
)
    requires
        t.len() > 0,
        t[0]@ == TokenView::Comma,
        item(t.skip(1)) matches Parsed::Done(_, n) && 0 < n <= t.len() - 1,
    ensures
        prepend(done, list_tail(t, item), c) == prepend(
            done.push(item(t.skip(1))->Done_0),
            list_tail(t.skip(1).skip((item(t.skip(1))->Done_1) as int), item),
            c + 1 + item(t.skip(1))->Done_1,
        ),
{
    let e = item(t.skip(1))->Done_0;
    let n = item(t.skip(1))->Done_1;
    if let Parsed::Done(l, m) = list_tail(t.skip(1).skip(n as int), item) {
        assert(done + (seq![e] + l) =~= done.push(e) + l);
    }
}

/// The rest of a comma-separated list takes no more tokens than there are.
pub proof fn lemma_list_tail_len<V>(t: Seq<Token>, item: spec_fn(Seq<Token>) -> Parsed<V>)
    ensures
        list_tail(t, item) matches Parsed::Done(_, n) ==> n <= t.len(),
    decreases t.len(), 1nat,
{
    if t.len() > 0 && t[0]@ == TokenView::Comma {
        lemma_list_len(t.skip(1), item);
    }
}

/// What a parse that returned `r` and left the tokens in state `fin`, started
/// in state `st`, owes to the outcome `p` of the grammar: the value read and
/// the tokens after it, or an error.
pub open spec fn meets<V, X>(
    p: Parsed<V>,
    view: spec_fn(X) -> V,
    st: PeekState<Token>,
    r: Result<X, ParserError>,
    fin: PeekState<Token>,
) -> bool {
    match p {
        Parsed::Done(v, n) => r matches Ok(x) && view(x) == v && fin == skip_state(st, n),
        Parsed::Fails => r is Err,
    }
}

/// What a parse of an expression owes to the outcome `p` of the grammar.
pub open spec fn meets_expr(
    p: Parsed<ExprV>,
    st: PeekState<Token>,
    r: Result<Expr, ParserError>,
    fin: PeekState<Token>,
) -> bool {
    meets(p, |x: Expr| expr_v(x), st, r, fin)
}

/// Two shifts add up.
pub proof fn lemma_shift_shift<V>(p: Parsed<V>, a: nat, b: nat)
    ensures
        shift(shift(p, a), b) == shift(p, a + b),
{
}

/// The rest of a compound identifier takes no more tokens than there are.
pub proof fn lemma_compound_rest_len(t: Seq<Token>)
    ensures
        spec_compound_rest(t) matches Some((_, _, n)) ==> n <= t.len(),
    decreases t.len(),
{
    if t.len() > 1 && t[0]@ == TokenView::Period && word_ident(t[1]@) is Some {
        lemma_compound_rest_len(t.skip(2));
    }
}

/// An operand takes at least one token and no more than there are.
pub proof fn lemma_prefix_len(s: Seq<Token>)
    ensures
        spec_prefix(s) matches Parsed::Done(_, n) ==> 0 < n <= s.len(),
    decreases s.len(), 1nat,
{
    if s.len() > 0 {
        lemma_literal_len(s);
        lemma_subexpr_len(s.skip(1), UNARY_NOT_PREC);
        lemma_subexpr_len(s.skip(1), PLUS_MINUS_PREC);
        lemma_subexpr_len(s.skip(1), 0);
        lemma_compound_rest_len(s.skip(1));
        crate::parser::query::lemma_paren_query_len(s);
    }
}

/// An expression takes at least one token and no more than there are.
pub proof fn lemma_subexpr_len(s: Seq<Token>, prec: u8)
    ensures
        spec_subexpr(s, prec) matches Parsed::Done(_, n) ==> 0 < n <= s.len(),
    decreases s.len(), 3nat,
{
    lemma_prefix_len(s);
    if let Parsed::Done(e, n) = spec_prefix(s) {
        lemma_subexpr_rest_len(s.skip(n as int), prec, e);
    }
}

/// The operators after an operand take no more tokens than there are.
pub proof fn lemma_subexpr_rest_len(t: Seq<Token>, prec: u8, left: ExprV)
    ensures
        spec_subexpr_rest(t, prec, left) matches Parsed::Done(_, n) ==> n <= t.len(),
    decreases t.len(), 2nat,
{
    let p = front_precedence(t);
    if prec >= p {
        assert(spec_subexpr_rest(t, prec, left) == Parsed::Done(left, 0nat));
    } else {
        lemma_infix_len(t, left, p);
        if let Parsed::Done(e, m) = spec_infix(t, left, p) {
            lemma_subexpr_rest_len(t.skip(m as int), prec, e);
            assert(spec_subexpr_rest(t, prec, left) == shift(
                spec_subexpr_rest(t.skip(m as int), prec, e),
                m,
            ));
        }
    }
}

/// An operator and what follows it take at least one token and no more
/// than there are.
pub proof fn lemma_infix_len(t: Seq<Token>, left: ExprV, p: u8)
    ensures
        spec_infix(t, left, p) matches Parsed::Done(_, n) ==> 0 < n <= t.len(),
    decreases t.len(), 1nat,
{
    if t.len() > 0 {
        let tok = t[0]@;
        let u = t.skip(1);
        if token_binary_operator(tok) is Some {
            lemma_subexpr_len(u, p);
        } else if is_keyword_token(tok, Keyword::NOT) && u.len() > 0 && (is_keyword_token(
            u[0]@,
            Keyword::LIKE,
        ) || is_keyword_token(u[0]@, Keyword::ILIKE)) {
            lemma_subexpr_len(t.skip(2), p);
        } else if is_keyword_token(tok, Keyword::IS) {
            lemma_is_len(u, left);
        } else if is_keyword_token(tok, Keyword::NOT) {
            if u.len() > 0 {
                lemma_in_len(t.skip(2), left, true);
                lemma_between_len(t.skip(2), left, true);
            }
        } else if is_keyword_token(tok, Keyword::IN) {
            lemma_in_len(u, left, false);
        } else if is_keyword_token(tok, Keyword::BETWEEN) {
            lemma_between_len(u, left, false);
        }
    }
}

/// What follows `IS` takes at least one token and no more than there are.
pub proof fn lemma_is_len(u: Seq<Token>, left: ExprV)
    ensures
        spec_is(u, left) matches Parsed::Done(_, n) ==> 0 < n <= u.len(),
    decreases u.len(), 0nat,
{
    let negated = u.len() > 0 && is_keyword_token(u[0]@, Keyword::NOT);
    let k: nat = if negated {
        1
    } else {
        0
    };
    let v = u.skip(k as int);
    if v.len() > 1 {
        lemma_subexpr_len(v.skip(2), 0);
    }
}

/// A parenthesized list takes at least one token and no more than there are.
pub proof fn lemma_in_len(u: Seq<Token>, expr: ExprV, negated: bool)
    ensures
        spec_in(u, expr, negated) matches Parsed::Done(_, n) ==> 0 < n <= u.len(),
    decreases u.len(), 5nat,
{
    if u.len() > 0 {
        lemma_exprs_len(u.skip(1));
    }
    crate::parser::query::lemma_paren_query_len(u);
}

/// `<low> AND <high>` takes at least one token and no more than there are.
pub proof fn lemma_between_len(u: Seq<Token>, expr: ExprV, negated: bool)
    ensures
        spec_between(u, expr, negated) matches Parsed::Done(_, n) ==> 0 < n <= u.len(),
    decreases u.len(), 4nat,
{
    lemma_subexpr_len(u, BETWEEN_PREC);
    if let Parsed::Done(low, a) = spec_subexpr(u, BETWEEN_PREC) {
        if a < u.len() {
            lemma_subexpr_len(u.skip(a + 1int), BETWEEN_PREC);
        }
    }
}

/// A list of expressions takes at least one token and no more than there
/// are.
pub proof fn lemma_exprs_len(s: Seq<Token>)
    ensures
        spec_exprs(s) matches Parsed::Done(_, n) ==> 0 < n <= s.len(),
    decreases s.len(), 4nat,
{
    lemma_subexpr_len(s, 0);
    if let Parsed::Done(e, n) = spec_subexpr(s, 0) {
        if 0 < n <= s.len() {
            lemma_exprs_tail_len(s.skip(n as int));
        }
    }
}

/// The rest of a list of expressions takes no more tokens than there are.
pub proof fn lemma_exprs_tail_len(t: Seq<Token>)
    ensures
        spec_exprs_tail(t) matches Parsed::Done(_, n) ==> n <= t.len(),
    decreases t.len(), 5nat,
{
    if t.len() > 0 {
        lemma_exprs_len(t.skip(1));
    }
}

} // verus!
