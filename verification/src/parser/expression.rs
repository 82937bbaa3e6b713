//! Parsing expressions, by precedence climbing.
use vstd::prelude::*;

use crate::ast::expression::{
    BetweenExpr, BinaryOpExpr, Expr, InListExpr, InSubqueryExpr, IsDistinctFromExpr, IsNullExpr,
    UnaryOpExpr,
};
use crate::ast::operator::{BinaryOperator, UnaryOperator};
use crate::ast::types::{idents_view, Ident};
use crate::ast::view::{expr_v, exprs_v, ExprV};
use crate::parser::grammar::{
    binary, lemma_compound_rest_len, lemma_exprs_len, lemma_in_len, lemma_between_len, lemma_infix_len, lemma_is_len,
    lemma_prefix_len, lemma_shift_shift, lemma_subexpr_len, meets, meets_expr, prepend,
    shift, spec_between, spec_compound_rest, spec_exprs, spec_exprs_tail, spec_in, spec_infix,
    spec_is, spec_prefix, spec_subexpr, spec_subexpr_rest, Parsed,
};
use crate::dialect::Dialect;
use crate::parser::grammar::starts_query;
use crate::parser::query::{
    lemma_paren_query_len, lemma_query_expr_len, spec_in_subquery, spec_query_expr, spec_subquery_expr,
};
use crate::keyword_table::Keyword;
use crate::parser::types::{lemma_step_advanced, skip_state, spec_literal, token_literal, word_ident};
use crate::parser::{
    advanced, consumed, error_view, lemma_consumed_trans, peek_is_keyword, spec_expected_message,
    ParserError, Parser,
};
use crate::peek::{spec_next, spec_next_state, spec_peek, PeekState};
use crate::token::{is_keyword_token, spec_token_sql, IdentView, Token, TokenView};
use crate::ast::text::binary_operator_sql;

verus! {

/// The binding power of `NOT` as a prefix operator.
pub const UNARY_NOT_PREC: u8 = 15;

/// The binding power of `BETWEEN`, `IN`, `LIKE` and the comparisons.
pub const BETWEEN_PREC: u8 = 20;

/// The binding power of `+` and `-`.
pub const PLUS_MINUS_PREC: u8 = 30;

/// The binding power of an operator token, given the token after it (which
/// matters for `NOT`); 0 for a token that does not continue an expression.
pub open spec fn token_precedence(t: TokenView, next: Option<TokenView>) -> u8 {
    if is_keyword_token(t, Keyword::OR) {
        5
    } else if is_keyword_token(t, Keyword::AND) {
        10
    } else if is_keyword_token(t, Keyword::XOR) {
        24
    } else if is_keyword_token(t, Keyword::NOT) {
        match next {
            Some(n) => if is_keyword_token(n, Keyword::IN) || is_keyword_token(n, Keyword::BETWEEN)
                || is_keyword_token(n, Keyword::LIKE) || is_keyword_token(n, Keyword::ILIKE) {
                BETWEEN_PREC
            } else {
                0
            },
            None => 0,
        }
    } else if is_keyword_token(t, Keyword::IS) {
        17
    } else if is_keyword_token(t, Keyword::IN) || is_keyword_token(t, Keyword::BETWEEN)
        || is_keyword_token(t, Keyword::LIKE) || is_keyword_token(t, Keyword::ILIKE) {
        BETWEEN_PREC
    } else {
        match t {
            TokenView::Equal | TokenView::LessThan | TokenView::LessThanOrEqual
            | TokenView::NotEqual | TokenView::GreaterThan | TokenView::GreaterThanOrEqual
            | TokenView::Tilde => 20,
            TokenView::Pipe => 21,
            TokenView::Caret | TokenView::Sharp | TokenView::LeftShift | TokenView::RightShift => 22,
            TokenView::Ampersand => 23,
            TokenView::Plus | TokenView::Minus => PLUS_MINUS_PREC,
            TokenView::Asterisk | TokenView::Slash | TokenView::Percent | TokenView::Concat => 40,
            TokenView::DoubleColon | TokenView::Exclamation => 50,
            TokenView::LeftBracket | TokenView::RightBracket => 10,
            _ => 0,
        }
    }
}

/// The precedence of the tokens at the peeking cursor.
pub open spec fn spec_next_precedence(st: PeekState<Token>) -> u8 {
    if st.cursor < st.items.len() {
        token_precedence(
            st.items[st.cursor as int]@,
            if st.cursor + 1 < st.items.len() {
                Some(st.items[(st.cursor + 1) as int]@)
            } else {
                None
            },
        )
    } else {
        0
    }
}

/// The binary operator that a token stands for by itself.
pub open spec fn token_binary_operator(t: TokenView) -> Option<BinaryOperator> {
    match t {
        TokenView::Plus => Some(BinaryOperator::Plus),
        TokenView::Minus => Some(BinaryOperator::Minus),
        TokenView::Asterisk => Some(BinaryOperator::Multiply),
        TokenView::Slash => Some(BinaryOperator::Divide),
        TokenView::Percent => Some(BinaryOperator::Modulo),
        TokenView::GreaterThan => Some(BinaryOperator::Greater),
        TokenView::LessThan => Some(BinaryOperator::Less),
        TokenView::GreaterThanOrEqual => Some(BinaryOperator::GreaterOrEqual),
        TokenView::LessThanOrEqual => Some(BinaryOperator::LessOrEqual),
        TokenView::Equal => Some(BinaryOperator::Equal),
        TokenView::NotEqual => Some(BinaryOperator::NotEqual),
        TokenView::Concat => Some(BinaryOperator::StringConcat),
        TokenView::Ampersand => Some(BinaryOperator::BitwiseAnd),
        TokenView::Pipe => Some(BinaryOperator::BitwiseOr),
        TokenView::Caret => Some(BinaryOperator::BitwiseXor),
        TokenView::LeftShift => Some(BinaryOperator::BitwiseLeftShift),
        TokenView::RightShift => Some(BinaryOperator::BitwiseRightShift),
        TokenView::Keyword(k, _) => if k == Keyword::AND {
            Some(BinaryOperator::And)
        } else if k == Keyword::OR {
            Some(BinaryOperator::Or)
        } else if k == Keyword::XOR {
            Some(BinaryOperator::Xor)
        } else if k == Keyword::LIKE {
            Some(BinaryOperator::Like)
        } else if k == Keyword::ILIKE {
            Some(BinaryOperator::ILike)
        } else {
            None
        },
        _ => None,
    }
}

/// An operator token is read as the binary operator it spells: the text
/// of the operator read is the text of its token (`>=` is read as
/// greater-or-equal, `AND` as the conjunction).
pub proof fn law_binary_operator_is_its_token(t: TokenView)
    ensures
        token_binary_operator(t) matches Some(op) ==> binary_operator_sql(op) == spec_token_sql(t),
{
    reveal_strlit("+");
    reveal_strlit("-");
    reveal_strlit("*");
    reveal_strlit("/");
    reveal_strlit("%");
    reveal_strlit(">");
    reveal_strlit("<");
    reveal_strlit(">=");
    reveal_strlit("<=");
    reveal_strlit("=");
    reveal_strlit("<>");
    reveal_strlit("||");
    reveal_strlit("&");
    reveal_strlit("|");
    reveal_strlit("^");
    reveal_strlit("<<");
    reveal_strlit(">>");
    reveal_strlit("AND");
    reveal_strlit("OR");
    reveal_strlit("XOR");
    reveal_strlit("LIKE");
    reveal_strlit("ILIKE");
}

/// The binary operator that a token stands for by itself.
fn binary_operator_of(t: &Token) -> (r: Option<BinaryOperator>)
    ensures
        r == token_binary_operator(t@),
{
    match t {
        Token::Plus => Some(BinaryOperator::Plus),
        Token::Minus => Some(BinaryOperator::Minus),
        Token::Asterisk => Some(BinaryOperator::Multiply),
        Token::Slash => Some(BinaryOperator::Divide),
        Token::Percent => Some(BinaryOperator::Modulo),
        Token::GreaterThan => Some(BinaryOperator::Greater),
        Token::LessThan => Some(BinaryOperator::Less),
        Token::GreaterThanOrEqual => Some(BinaryOperator::GreaterOrEqual),
        Token::LessThanOrEqual => Some(BinaryOperator::LessOrEqual),
        Token::Equal => Some(BinaryOperator::Equal),
        Token::NotEqual => Some(BinaryOperator::NotEqual),
        Token::Concat => Some(BinaryOperator::StringConcat),
        Token::Ampersand => Some(BinaryOperator::BitwiseAnd),
        Token::Pipe => Some(BinaryOperator::BitwiseOr),
        Token::Caret => Some(BinaryOperator::BitwiseXor),
        Token::LeftShift => Some(BinaryOperator::BitwiseLeftShift),
        Token::RightShift => Some(BinaryOperator::BitwiseRightShift),
        Token::Keyword(k, _) => {
            if *k == Keyword::AND {
                Some(BinaryOperator::And)
            } else if *k == Keyword::OR {
                Some(BinaryOperator::Or)
            } else if *k == Keyword::XOR {
                Some(BinaryOperator::Xor)
            } else if *k == Keyword::LIKE {
                Some(BinaryOperator::Like)
            } else if *k == Keyword::ILIKE {
                Some(BinaryOperator::ILike)
            } else {
                None
            }
        },
        _ => None,
    }
}

/// The binding power of an operator token, given the token after it.
fn precedence_of(t: &Token, next: Option<&Token>) -> (p: u8)
    ensures
        p == token_precedence(
            t@,
            match next {
                Some(n) => Some(n@),
                None => None,
            },
        ),
{
    if t.is_keyword(Keyword::OR) {
        5
    } else if t.is_keyword(Keyword::AND) {
        10
    } else if t.is_keyword(Keyword::XOR) {
        24
    } else if t.is_keyword(Keyword::NOT) {
        match next {
            Some(n) => {
                if n.is_keyword(Keyword::IN) || n.is_keyword(Keyword::BETWEEN) || n.is_keyword(
                    Keyword::LIKE,
                ) || n.is_keyword(Keyword::ILIKE) {
                    BETWEEN_PREC
                } else {
                    0
                }
            },
            None => 0,
        }
    } else if t.is_keyword(Keyword::IS) {
        17
    } else if t.is_keyword(Keyword::IN) || t.is_keyword(Keyword::BETWEEN) || t.is_keyword(
        Keyword::LIKE,
    ) || t.is_keyword(Keyword::ILIKE) {
        BETWEEN_PREC
    } else {
        match t {
            Token::Equal | Token::LessThan | Token::LessThanOrEqual | Token::NotEqual
            | Token::GreaterThan | Token::GreaterThanOrEqual | Token::Tilde => 20,
            Token::Pipe => 21,
            Token::Caret | Token::Sharp | Token::LeftShift | Token::RightShift => 22,
            Token::Ampersand => 23,
            Token::Plus | Token::Minus => PLUS_MINUS_PREC,
            Token::Asterisk | Token::Slash | Token::Percent | Token::Concat => 40,
            Token::DoubleColon | Token::Exclamation => 50,
            Token::LeftBracket | Token::RightBracket => 10,
            _ => 0,
        }
    }
}

/// Whether an expression that starts with the token is a literal: a
/// literal token, `NULL`, `TRUE`, `FALSE`, `DATE`, `TIME`, `DATETIME` or
/// `INTERVAL`.
pub open spec fn starts_literal(t: TokenView) -> bool {
    ||| token_literal(t) is Some
    ||| is_keyword_token(t, Keyword::DATE)
    ||| is_keyword_token(t, Keyword::TIME)
    ||| is_keyword_token(t, Keyword::DATETIME)
    ||| is_keyword_token(t, Keyword::INTERVAL)
}

/// Whether an expression can start with the token: a literal, a keyword or
/// identifier, a sign, `*` or `(`.
pub open spec fn can_start_prefix(t: TokenView) -> bool {
    ||| t is Number
    ||| t is String
    ||| t is NationalString
    ||| t is HexString
    ||| t is BitString
    ||| t is Keyword
    ||| t is Ident
    ||| t == TokenView::Minus
    ||| t == TokenView::Plus
    ||| t == TokenView::Asterisk
    ||| t == TokenView::LeftParen
}

impl<'a, D: Dialect> Parser<'a, D> {
    /// Parses an expression.
    pub fn parse_expr(&mut self) -> (r: Result<Expr, ParserError>)
        requires
            old(self).wf(),
        ensures
            final(self).wf(),
            final(self).dialect_in_use() == old(self).dialect_in_use(),
            r is Ok ==> advanced(old(self).state(), final(self).state()),
            old(self).state().items.len() == 0 ==> r is Err,
            old(self).state().items.len() > 0 && !can_start_prefix(old(self).state().items[0]@)
                ==> r is Err,
            meets_expr(spec_subexpr(old(self).state().items, 0), old(self).state(), r, final(self).state()),
        decreases old(self).state().items.len(), 20nat,
    {
        self.parse_subexpr(0)
    }

    /// Parses an expression whose operators bind tighter than `precedence`.
    #[verifier::loop_isolation(false)]
    pub fn parse_subexpr(&mut self, precedence: u8) -> (r: Result<Expr, ParserError>)
        requires
            old(self).wf(),
        ensures
            final(self).wf(),
            final(self).dialect_in_use() == old(self).dialect_in_use(),
            r is Ok ==> advanced(old(self).state(), final(self).state()),
            old(self).state().items.len() == 0 ==> r is Err,
            old(self).state().items.len() > 0 && !can_start_prefix(old(self).state().items[0]@)
                ==> r is Err,
            meets_expr(
                spec_subexpr(old(self).state().items, precedence),
                old(self).state(),
                r,
                final(self).state(),
            ),
            r is Ok ==> spec_next_precedence(final(self).state()) <= precedence,
        decreases old(self).state().items.len(), 19nat,
    {
        let ghost st = self.state();
        let ghost sp = spec_subexpr(st.items, precedence);
        proof {
            lemma_prefix_len(st.items);
        }
        let mut expr = self.parse_prefix()?;
        proof {
            if let Parsed::Done(_, n) = spec_prefix(st.items) {
                assert(sp == shift(
                    spec_subexpr_rest(self.state().items, precedence, expr_v(expr)),
                    (st.items.len() - self.state().items.len()) as nat,
                ));
            }
        }
        loop
            invariant
                self.wf(),
                self.dialect_in_use() == old(self).dialect_in_use(),
                advanced(st, self.state()),
                st == old(self).state(),
                sp == spec_subexpr(st.items, precedence),
                sp == shift(
                    spec_subexpr_rest(self.state().items, precedence, expr_v(expr)),
                    (st.items.len() - self.state().items.len()) as nat,
                ),
            decreases self.state().items.len(),
        {
            let ghost cur = self.state();
            let ghost c: nat = (st.items.len() - cur.items.len()) as nat;
            let next_precedence = self.next_precedence()?;
            proof {
                assert(self.state().items == cur.items);
                assert(cur.items == st.items.skip(c as int));
            }
            if precedence >= next_precedence {
                proof {
                    assert(self.state() == skip_state(st, c));
                    assert(self.state() == cur);
                }
                break;
            }
            proof {
                lemma_infix_len(cur.items, expr_v(expr), next_precedence);
            }
            let ghost left = expr_v(expr);
            expr = self.parse_infix(Box::new(expr), next_precedence)?;
            proof {
                lemma_consumed_trans(st, cur, self.state());
                if let Parsed::Done(e2, m) = spec_infix(cur.items, left, next_precedence) {
                    assert(self.state().items =~= cur.items.skip(m as int));
                    lemma_shift_shift(spec_subexpr_rest(self.state().items, precedence, e2), m, c);
                }
            }
        }
        Ok(expr)
    }

    /// Parses an expression prefix: a literal, an identifier, a compound
    /// identifier, a wildcard, a unary operator applied to an expression, or
    /// a parenthesized expression or subquery.
    #[verifier::rlimit(100)]
    #[verifier::spinoff_prover]
    pub fn parse_prefix(&mut self) -> (r: Result<Expr, ParserError>)
        requires
            old(self).wf(),
        ensures
            final(self).wf(),
            final(self).dialect_in_use() == old(self).dialect_in_use(),
            r is Ok ==> advanced(old(self).state(), final(self).state()),
            old(self).state().items.len() == 0 ==> r is Err,
            old(self).state().items.len() > 0 && !can_start_prefix(old(self).state().items[0]@)
                ==> r is Err,
            old(self).state().items.len() > 0 && starts_literal(old(self).state().items[0]@) ==> match spec_literal(
                old(self).state().items,
            ) {
                Some((l, n)) => r matches Ok(e) && e matches Expr::Literal(x) && x@ == l && final(self).state()
                    == skip_state(old(self).state(), n),
                None => r is Err,
            },
            old(self).state().items.len() > 0 && old(self).state().items[0]@ == TokenView::Asterisk
                ==> r == Ok::<Expr, ParserError>(Expr::Wildcard),
            old(self).state().items.len() > 0 && old(self).state().items[0]@ is Ident && !(
            old(self).state().items.len() > 1 && old(self).state().items[1]@ == TokenView::Period)
                ==> (r matches Ok(e) && e matches Expr::Identifier(i) && word_ident(
                old(self).state().items[0]@,
            ) == Some(i@)),
            old(self).state().items.len() > 1 && (old(self).state().items[0]@ is Ident
                || old(self).state().items[0]@ is Keyword) && old(self).state().items[1]@
                == TokenView::Period && token_literal(old(self).state().items[0]@) is None
                && !is_keyword_token(old(self).state().items[0]@, Keyword::NOT)
                && !is_keyword_token(old(self).state().items[0]@, Keyword::DATE)
                && !is_keyword_token(old(self).state().items[0]@, Keyword::TIME)
                && !is_keyword_token(old(self).state().items[0]@, Keyword::DATETIME)
                && !is_keyword_token(old(self).state().items[0]@, Keyword::INTERVAL)
                ==> (r matches Ok(e) ==> e is CompoundIdentifier || e is QualifiedWildcard),
            old(self).state().items.len() > 0 && old(self).state().items[0]@ == TokenView::Minus
                ==> (r matches Ok(e) ==> e matches Expr::UnaryOp(u) && u.op == UnaryOperator::Minus),
            old(self).state().items.len() > 0 && old(self).state().items[0]@ == TokenView::Plus
                ==> (r matches Ok(e) ==> e matches Expr::UnaryOp(u) && u.op == UnaryOperator::Plus),
            old(self).state().items.len() > 0 && is_keyword_token(
                old(self).state().items[0]@,
                Keyword::NOT,
            ) ==> (r matches Ok(e) ==> e matches Expr::UnaryOp(u) && u.op == UnaryOperator::Not),
            old(self).state().items.len() > 0 && old(self).state().items[0]@ == TokenView::LeftParen
                ==> (r matches Ok(e) ==> e is Subquery || e is Nested),
            meets_expr(spec_prefix(old(self).state().items), old(self).state(), r, final(self).state()),
            old(self).state().items.len() > 1 && old(self).state().items[0]@ == TokenView::LeftParen
                && starts_query(old(self).state().items[1]@) ==> meets_expr(
                spec_subquery_expr(old(self).state().items),
                old(self).state(),
                r,
                final(self).state(),
            ),
        decreases old(self).state().items.len(), 18nat,
    {
        proof {
            reveal(crate::parser::query::spec_paren_query);
        }
        broadcast use crate::ast::view::group_expr_v;

        let ghost st = self.state();
        self.reset_peek_cursor();
        let token = match self.peek_next_token() {
            Some(t) => t.clone_token(),
            None => {
                return self.expected("an expression prefix", None);
            },
        };
        proof {
            assert(st.items.len() > 0);
            assert(token@ == st.items[0]@);
        }
        proof {
            assert(st.items.skip(1) =~= st.items.drop_first());
            lemma_subexpr_len(st.items.skip(1), UNARY_NOT_PREC);
            lemma_subexpr_len(st.items.skip(1), PLUS_MINUS_PREC);
            lemma_subexpr_len(st.items.skip(1), 0);
        }
        match &token {
            Token::Number(_) | Token::String(_) | Token::NationalString(_) | Token::HexString(_)
            | Token::BitString(_) => {
                let l = self.parse_literal()?;
                Ok(Expr::Literal(l))
            },
            Token::Keyword(k, _) if *k == Keyword::NULL || *k == Keyword::TRUE || *k
                == Keyword::FALSE || *k == Keyword::DATE || *k == Keyword::TIME || *k
                == Keyword::DATETIME || *k == Keyword::INTERVAL => {
                let l = self.parse_literal()?;
                Ok(Expr::Literal(l))
            },
            Token::Keyword(k, _) if *k == Keyword::NOT => {
                self.next_token();
                proof { crate::parser::lemma_next_consumed(st); }
                let ghost s1 = self.state();
                let e = self.parse_subexpr(UNARY_NOT_PREC)?;
                proof {
                    lemma_consumed_trans(st, spec_next_state(st), self.state());
                    if let Parsed::Done(_, n) = spec_subexpr(s1.items, UNARY_NOT_PREC) {
                        assert(s1.items.skip(n as int) =~= st.items.skip((n + 1) as int));
                    }
                }
                Ok(Expr::UnaryOp(UnaryOpExpr { op: UnaryOperator::Not, expr: Box::new(e) }))
            },
            Token::Keyword(_, _) | Token::Ident(_) => {
                let is_compound = match self.peek_next_token() {
                    Some(t) => t.equals(&Token::Period),
                    None => false,
                };
                if is_compound {
                    self.parse_compound(Ghost(st))
                } else {
                    let i = self.parse_identifier()?;
                    proof {
                        crate::parser::lemma_next_consumed(st);
                        assert(self.state().items =~= st.items.skip(1));
                    }
                    Ok(Expr::Identifier(i))
                }
            },
            Token::Minus => {
                self.next_token();
                proof { crate::parser::lemma_next_consumed(st); }
                let ghost s1 = self.state();
                let e = self.parse_subexpr(PLUS_MINUS_PREC)?;
                proof {
                    lemma_consumed_trans(st, spec_next_state(st), self.state());
                    if let Parsed::Done(_, n) = spec_subexpr(s1.items, PLUS_MINUS_PREC) {
                        assert(s1.items.skip(n as int) =~= st.items.skip((n + 1) as int));
                    }
                }
                Ok(Expr::UnaryOp(UnaryOpExpr { op: UnaryOperator::Minus, expr: Box::new(e) }))
            },
            Token::Plus => {
                self.next_token();
                proof { crate::parser::lemma_next_consumed(st); }
                let ghost s1 = self.state();
                let e = self.parse_subexpr(PLUS_MINUS_PREC)?;
                proof {
                    lemma_consumed_trans(st, spec_next_state(st), self.state());
                    if let Parsed::Done(_, n) = spec_subexpr(s1.items, PLUS_MINUS_PREC) {
                        assert(s1.items.skip(n as int) =~= st.items.skip((n + 1) as int));
                    }
                }
                Ok(Expr::UnaryOp(UnaryOpExpr { op: UnaryOperator::Plus, expr: Box::new(e) }))
            },
            Token::Asterisk => {
                self.next_token();
                proof {
                    crate::parser::lemma_next_consumed(st);
                    assert(self.state().items =~= st.items.skip(1));
                }
                Ok(Expr::Wildcard)
            },
            Token::LeftParen => {
                self.next_token();
                proof { crate::parser::lemma_next_consumed(st); }
                let ghost s1 = self.state();
                proof {
                    assert(s1.items =~= st.items.skip(1));
                    lemma_query_expr_len(s1.items, true);
                    crate::parser::query::lemma_paren_query_unfold(st.items);
                }
                let expr = if self.next_is_query() {
                    Expr::Subquery(Box::new(self.parse_query_expr(true)?))
                } else {
                    Expr::Nested(Box::new(self.parse_expr()?))
                };
                let ghost s2 = self.state();
                proof {
                    if let Parsed::Done(_, n) = spec_subexpr(s1.items, 0) {
                        if s2 == skip_state(s1, n) && s2.items.len() > 0 {
                            assert(s2.items[0] == st.items[n + 1int]);
                        }
                    }
                    if let Parsed::Done(_, m) = spec_query_expr(s1.items, true) {
                        if s2 == skip_state(s1, m) && s2.items.len() > 0 {
                            assert(s2.items[0] == st.items[m + 1int]);
                        }
                    }
                }
                self.expect_token(&Token::RightParen)?;
                proof {
                    lemma_consumed_trans(st, s1, s2);
                    crate::parser::lemma_consumed_then_next(st, s2);
                    if let Parsed::Done(_, n) = spec_subexpr(s1.items, 0) {
                        if s2 == skip_state(s1, n) {
                            assert(self.state().items =~= st.items.skip((n + 2) as int));
                        }
                    }
                    if let Parsed::Done(_, m) = spec_query_expr(s1.items, true) {
                        if s2 == skip_state(s1, m) {
                            assert(self.state().items =~= st.items.skip((m + 2) as int));
                        }
                    }
                }
                Ok(expr)
            },
            _ => self.expected("an expression infix", Some(&token)),
        }
    }

    /// Parses `<word> . <word> [. ...]` or `<word> . [<word> . ...] *`, the
    /// first word being at the front of the tokens.
    #[verifier::loop_isolation(false)]
    #[verifier::rlimit(100)]
    #[verifier::spinoff_prover]
    fn parse_compound(&mut self, Ghost(st): Ghost<PeekState<Token>>) -> (r: Result<Expr, ParserError>)
        requires
            old(self).wf(),
            old(self).state().items == st.items,
            st.items.len() > 1,
            st.items[1]@ == TokenView::Period,
            st.items[0]@ is Ident || st.items[0]@ is Keyword,
        ensures
            final(self).wf(),
            final(self).dialect_in_use() == old(self).dialect_in_use(),
            r is Ok ==> advanced(st, final(self).state()),
            r matches Ok(e) ==> e is CompoundIdentifier || e is QualifiedWildcard,
            match spec_compound_rest(st.items.skip(1)) {
                Some((p, wild, n)) => r matches Ok(x) && expr_v(x) == (if wild {
                    ExprV::QualifiedWildcard(seq![word_ident(st.items[0]@)->0] + p)
                } else {
                    ExprV::CompoundIdentifier(seq![word_ident(st.items[0]@)->0] + p)
                }) && final(self).state() == skip_state(st, n + 1),
                None => r is Err,
            },
    {
        broadcast use crate::ast::view::group_expr_v;

        let mut id_parts: Vec<Ident> = Vec::new();
        let first = self.parse_identifier()?;
        proof { crate::parser::lemma_next_consumed(st); }
        id_parts.push(first);
        let ghost w = word_ident(st.items[0]@)->0;
        let ghost mut parts: Seq<IdentView> = Seq::empty();
        let ghost mut k: nat = 0;
        proof {
            assert(self.state().items =~= st.items.skip(1));
            assert(idents_view(id_parts@) =~= seq![w] + parts);
            assert(spec_compound_rest(self.state().items) == match spec_compound_rest(self.state().items) {
                Some((p, wd, n)) => Some((parts + p, wd, n + k)),
                None => None,
            }) by {
                if let Some((p, wd, n)) = spec_compound_rest(self.state().items) {
                    assert(parts + p =~= p);
                }
            }
        }
        let mut ends_with_wildcard = false;
        loop
            invariant
                self.wf(),
                self.dialect_in_use() == old(self).dialect_in_use(),
                advanced(st, self.state()),
                k + 1 <= st.items.len(),
                self.state().items == st.items.skip(k + 1int),
                idents_view(id_parts@) == seq![w] + parts,
                w == word_ident(st.items[0]@)->0,
                spec_compound_rest(st.items.skip(1)) == match spec_compound_rest(self.state().items) {
                    Some((p, wd, n)) => Some((parts + p, wd, n + k)),
                    None => None,
                },
                !ends_with_wildcard,
            decreases self.state().items.len(),
        {
            let ghost cur = self.state();
            if !self.next_token_if_is(&Token::Period) {
                proof {
                    assert(parts + Seq::<IdentView>::empty() =~= parts);
                }
                break;
            }
            let ghost mid = self.state();
            proof {
                lemma_compound_rest_len(cur.items.skip(2));
            }
            match self.next_token() {
                Some(Token::Ident(i)) => {
                    proof {
                        assert(idents_view(id_parts@.push(i)) =~= idents_view(id_parts@).push(i@));
                        assert(self.state().items =~= cur.items.skip(2));
                        assert(cur.items.skip(2) =~= st.items.skip(k + 3int));
                        if let Some((p, wd, n)) = spec_compound_rest(cur.items.skip(2)) {
                            assert(parts + (seq![i@] + p) =~= parts.push(i@) + p);
                        }
                        assert(seq![w] + parts.push(i@) =~= (seq![w] + parts).push(i@));
                        parts = parts.push(i@);
                        k = k + 2;
                    }
                    id_parts.push(i);
                },
                Some(Token::Keyword(_, v)) => {
                    let ghost iv = IdentView { value: v@, quote: None };
                    let id = Ident { value: v, quote: None };
                    proof {
                        assert(id@ == iv);
                        assert(idents_view(id_parts@.push(id)) =~= idents_view(id_parts@).push(iv));
                        assert(self.state().items =~= cur.items.skip(2));
                        assert(cur.items.skip(2) =~= st.items.skip(k + 3int));
                        if let Some((p, wd, n)) = spec_compound_rest(cur.items.skip(2)) {
                            assert(parts + (seq![iv] + p) =~= parts.push(iv) + p);
                        }
                        assert(seq![w] + parts.push(iv) =~= (seq![w] + parts).push(iv));
                        parts = parts.push(iv);
                        k = k + 2;
                    }
                    id_parts.push(id);
                },
                Some(Token::Asterisk) => {
                    proof {
                        lemma_step_advanced(st, cur, mid);
                        lemma_step_advanced(st, mid, self.state());
                        assert(self.state().items =~= st.items.skip(k + 3int));
                        assert(parts + Seq::<IdentView>::empty() =~= parts);
                    }
                    ends_with_wildcard = true;
                    break;
                },
                unexpected => {
                    return match unexpected {
                        Some(t) => self.expected("an identifier or a '*' after '.'", Some(&t)),
                        None => self.expected("an identifier or a '*' after '.'", None),
                    };
                },
            }
            proof {
                lemma_step_advanced(st, cur, mid);
                lemma_step_advanced(st, mid, self.state());
            }
        }
        if ends_with_wildcard {
            Ok(Expr::QualifiedWildcard(id_parts))
        } else {
            Ok(Expr::CompoundIdentifier(id_parts))
        }
    }

    /// The precedence of the token at the peeking cursor, given the token
    /// after it; the peeking cursor is reset.
    pub fn next_precedence(&mut self) -> (r: Result<u8, ParserError>)
        requires
            old(self).wf(),
        ensures
            final(self).wf(),
            final(self).dialect_in_use() == old(self).dialect_in_use(),
            r == Ok::<u8, ParserError>(spec_next_precedence(old(self).state())),
            final(self).state() == (PeekState { items: old(self).state().items, cursor: 0 }),
    {
        let ghost st = self.state();
        let first = match self.peek_next_token() {
            Some(t) => t.clone_token(),
            None => {
                self.reset_peek_cursor();
                return Ok(0);
            },
        };
        let p = {
            let second = self.peek_next_token();
            precedence_of(&first, second)
        };
        self.reset_peek_cursor();
        Ok(p)
    }

    /// Parses an operator and what follows it, with the expression before
    /// it as its left operand.
    #[verifier::rlimit(100)]
    #[verifier::spinoff_prover]
    pub fn parse_infix(&mut self, expr: Box<Expr>, precedence: u8) -> (r: Result<Expr, ParserError>)
        requires
            old(self).wf(),
        ensures
            final(self).wf(),
            final(self).dialect_in_use() == old(self).dialect_in_use(),
            r is Ok ==> advanced(old(self).state(), final(self).state()),
            old(self).state().items.len() == 0 ==> r is Err,
            old(self).state().items.len() > 0 && token_binary_operator(old(self).state().items[0]@)
                is None && !(old(self).state().items[0]@ is Keyword) ==> r is Err,
            old(self).state().items.len() > 0 && token_binary_operator(old(self).state().items[0]@)
                is Some ==> (r matches Ok(e) ==> (e matches Expr::BinaryOp(b) && Some(b.op)
                == token_binary_operator(old(self).state().items[0]@) && b.left == expr)),
            old(self).state().items.len() > 0 && is_keyword_token(
                old(self).state().items[0]@,
                Keyword::IS,
            ) ==> (r matches Ok(e) ==> ((e matches Expr::IsNull(x) && x.expr == expr) || (
            e matches Expr::IsDistinctFrom(x) && x.left == expr))),
            old(self).state().items.len() > 0 && is_keyword_token(
                old(self).state().items[0]@,
                Keyword::IN,
            ) ==> (r matches Ok(e) ==> e is InList || e is InSubquery),
            old(self).state().items.len() > 0 && is_keyword_token(
                old(self).state().items[0]@,
                Keyword::BETWEEN,
            ) ==> (r matches Ok(e) ==> e is Between),
            meets_expr(
                spec_infix(old(self).state().items, expr_v(*expr), precedence),
                old(self).state(),
                r,
                final(self).state(),
            ),
            r matches Ok(Expr::InSubquery(x)) ==> x.expr == expr && x.negated == is_keyword_token(
                old(self).state().items[0]@,
                Keyword::NOT,
            ),
        decreases old(self).state().items.len(), 17nat,
    {
        broadcast use crate::ast::view::group_expr_v;

        let ghost st = self.state();
        let ghost t = st.items;
        let ghost left = expr_v(*expr);
        let token = match self.next_token() {
            Some(t) => t,
            None => {
                return self.expected("expression infix", None);
            },
        };
        proof {
            crate::parser::lemma_next_consumed(st);
            assert(t.skip(1) =~= t.drop_first());
            lemma_subexpr_len(t.skip(1), precedence);
            if t.len() > 1 {
                assert(t.skip(2) =~= t.skip(1).drop_first());
                lemma_subexpr_len(t.skip(2), precedence);
                lemma_in_len(t.skip(2), left, true);
                lemma_between_len(t.skip(2), left, true);
            }
            lemma_in_len(t.skip(1), left, false);
            lemma_between_len(t.skip(1), left, false);
        }
        let ghost s1 = self.state();
        let mut op = binary_operator_of(&token);
        if op.is_none() && token.is_keyword(Keyword::NOT) {
            if self.parse_keyword(Keyword::LIKE) {
                op = Some(BinaryOperator::NotLike);
            } else if self.parse_keyword(Keyword::ILIKE) {
                op = Some(BinaryOperator::NotILike);
            }
        }
        let ghost s2 = self.state();
        proof {
            lemma_step_advanced(st, s1, s2);
        }
        if let Some(op) = op {
            let right = self.parse_subexpr(precedence)?;
            proof {
                lemma_consumed_trans(st, s2, self.state());
                let k: nat = (t.len() - s2.items.len()) as nat;
                assert(s2.items == t.skip(k as int));
                if let Parsed::Done(_, n) = spec_subexpr(s2.items, precedence) {
                    assert(s2.items.skip(n as int) =~= t.skip((n + k) as int));
                }
                assert(spec_infix(t, left, precedence) == binary(
                    op,
                    left,
                    spec_subexpr(s2.items, precedence),
                    k,
                ));
            }
            return Ok(Expr::BinaryOp(BinaryOpExpr { left: expr, op, right: Box::new(right) }));
        }
        proof {
            assert(s2 == s1);
        }
        self.parse_keyword_infix(&token, expr, precedence, Ghost(st))
    }

    /// Parses what follows a keyword operator (`IS`, `[NOT] IN`,
    /// `[NOT] BETWEEN`) that has been read, `expr` being its left operand.
    #[verifier::rlimit(100)]
    #[verifier::spinoff_prover]
    fn parse_keyword_infix(
        &mut self,
        token: &Token,
        expr: Box<Expr>,
        precedence: u8,
        Ghost(st): Ghost<PeekState<Token>>,
    ) -> (r: Result<Expr, ParserError>)
        requires
            old(self).wf(),
            st.items.len() > 0,
            token@ == st.items[0]@,
            old(self).state() == (PeekState { items: st.items.skip(1), cursor: 0 }),
            token_binary_operator(token@) is None,
            !(is_keyword_token(token@, Keyword::NOT) && st.items.len() > 1 && (is_keyword_token(
                st.items[1]@,
                Keyword::LIKE,
            ) || is_keyword_token(st.items[1]@, Keyword::ILIKE))),
        ensures
            final(self).wf(),
            final(self).dialect_in_use() == old(self).dialect_in_use(),
            r is Ok ==> advanced(st, final(self).state()),
            !(token@ is Keyword) ==> r is Err,
            is_keyword_token(token@, Keyword::IS) ==> (r matches Ok(e) ==> ((e matches Expr::IsNull(
                x,
            ) && x.expr == expr) || (e matches Expr::IsDistinctFrom(x) && x.left == expr))),
            is_keyword_token(token@, Keyword::IN) ==> (r matches Ok(e) ==> e is InList
                || e is InSubquery),
            is_keyword_token(token@, Keyword::BETWEEN) ==> (r matches Ok(e) ==> e is Between),
            meets_expr(spec_infix(st.items, expr_v(*expr), precedence), st, r, final(self).state()),
            r matches Ok(Expr::InSubquery(x)) ==> x.expr == expr && x.negated == is_keyword_token(
                token@,
                Keyword::NOT,
            ),
        decreases old(self).state().items.len(), 22nat,
    {
        proof {
            reveal(crate::parser::query::spec_paren_query);
        }
        broadcast use crate::ast::view::group_expr_v;

        let ghost t = st.items;
        let ghost left = expr_v(*expr);
        let ghost s2 = self.state();
        proof {
            crate::parser::lemma_next_consumed(st);
            assert(s2 == spec_next_state(st));
        }
        match token {
            Token::Keyword(k, _) => {
                if *k == Keyword::IS {
                    proof {
                        assert(spec_infix(t, left, precedence) == shift(spec_is(t.skip(1), left), 1));
                        lemma_is_len(t.skip(1), left);
                    }
                    let e = self.parse_is(expr)?;
                    proof {
                        lemma_consumed_trans(st, s2, self.state());
                        if let Parsed::Done(_, n) = spec_is(s2.items, left) {
                            assert(s2.items.skip(n as int) =~= t.skip((n + 1) as int));
                        }
                    }
                    Ok(e)
                } else if *k == Keyword::NOT {
                    proof {
                        assert(spec_infix(t, left, precedence) == if t.len() > 1 && is_keyword_token(
                            t[1]@,
                            Keyword::IN,
                        ) {
                            shift(spec_in(t.skip(2), left, true), 2)
                        } else if t.len() > 1 && is_keyword_token(t[1]@, Keyword::BETWEEN) {
                            shift(spec_between(t.skip(2), left, true), 2)
                        } else {
                            Parsed::Fails
                        });
                        if t.len() > 1 {
                            assert(t.skip(2) =~= t.skip(1).drop_first());
                            lemma_in_len(t.skip(2), left, true);
                            lemma_between_len(t.skip(2), left, true);
                        }
                    }
                    if self.parse_keyword(Keyword::IN) {
                        let ghost s3 = self.state();
                        proof { assert(s3.items =~= t.skip(2)); }
                        let e = self.parse_in(expr, true)?;
                        proof {
                            lemma_step_advanced(st, s2, s3);
                            lemma_consumed_trans(st, s3, self.state());
                            if let Parsed::Done(_, n) = spec_in(s3.items, left, true) {
                                assert(s3.items.skip(n as int) =~= t.skip((n + 2) as int));
                            }
                        }
                        Ok(e)
                    } else if self.parse_keyword(Keyword::BETWEEN) {
                        let ghost s3 = self.state();
                        proof { assert(s3.items =~= t.skip(2)); }
                        let e = self.parse_between(expr, true)?;
                        proof {
                            lemma_step_advanced(st, s2, s3);
                            lemma_consumed_trans(st, s3, self.state());
                            if let Parsed::Done(_, n) = spec_between(s3.items, left, true) {
                                assert(s3.items.skip(n as int) =~= t.skip((n + 2) as int));
                            }
                        }
                        Ok(e)
                    } else {
                        self.expected_here("[NOT] IN or [NOT] BETWEEN after NOT")
                    }
                } else if *k == Keyword::IN {
                    proof {
                        assert(spec_infix(t, left, precedence) == shift(spec_in(t.skip(1), left, false), 1));
                        lemma_in_len(t.skip(1), left, false);
                    }
                    let e = self.parse_in(expr, false)?;
                    proof {
                        lemma_consumed_trans(st, s2, self.state());
                        if let Parsed::Done(_, n) = spec_in(s2.items, left, false) {
                            assert(s2.items.skip(n as int) =~= t.skip((n + 1) as int));
                        }
                    }
                    Ok(e)
                } else if *k == Keyword::BETWEEN {
                    proof {
                        assert(spec_infix(t, left, precedence) == shift(
                            spec_between(t.skip(1), left, false),
                            1,
                        ));
                        lemma_between_len(t.skip(1), left, false);
                    }
                    let e = self.parse_between(expr, false)?;
                    proof {
                        lemma_consumed_trans(st, s2, self.state());
                        if let Parsed::Done(_, n) = spec_between(s2.items, left, false) {
                            assert(s2.items.skip(n as int) =~= t.skip((n + 1) as int));
                        }
                    }
                    Ok(e)
                } else {
                    self.expected("an infix operator", Some(token))
                }
            },
            _ => self.expected("expression infix", Some(token)),
        }
    }

    /// Parses what follows `IS`: `[NOT] NULL` or `[NOT] DISTINCT FROM
    /// <expr>`, `expr` being the tested expression.
    #[verifier::rlimit(100)]
    #[verifier::spinoff_prover]
    fn parse_is(&mut self, expr: Box<Expr>) -> (r: Result<Expr, ParserError>)
        requires
            old(self).wf(),
            old(self).state().cursor == 0,
        ensures
            final(self).wf(),
            final(self).dialect_in_use() == old(self).dialect_in_use(),
            r is Ok ==> advanced(old(self).state(), final(self).state()),
            r matches Ok(e) ==> ((e matches Expr::IsNull(x) && x.expr == expr) || (
            e matches Expr::IsDistinctFrom(x) && x.left == expr)),
            meets_expr(
                spec_is(old(self).state().items, expr_v(*expr)),
                old(self).state(),
                r,
                final(self).state(),
            ),
        decreases old(self).state().items.len(), 21nat,
    {
        broadcast use crate::ast::view::group_expr_v;

        let ghost st = self.state();
        let ghost u = st.items;
        let negated = self.parse_keyword(Keyword::NOT);
        let ghost s3 = self.state();
        let ghost kk: nat = if negated {
            1
        } else {
            0
        };
        proof {
            assert(s3.items =~= u.skip(kk as int));
            crate::parser::lemma_two_keywords_follow(s3, Keyword::DISTINCT, Keyword::FROM);
            if s3.items.len() > 1 {
                lemma_subexpr_len(s3.items.skip(2), 0);
            }
        }
        if self.parse_keyword(Keyword::NULL) {
            proof {
                crate::parser::lemma_next_consumed(s3);
                lemma_consumed_trans(st, s3, self.state());
                assert(self.state().items =~= u.skip((kk + 1) as int));
            }
            Ok(Expr::IsNull(IsNullExpr { negated, expr }))
        } else if self.parse_keywords(&[Keyword::DISTINCT, Keyword::FROM]) {
            let ghost s4 = self.state();
            let right = self.parse_expr()?;
            proof {
                assert(s4.items =~= s3.items.skip(2));
                lemma_consumed_trans(st, s3, s4);
                lemma_consumed_trans(st, s4, self.state());
                if let Parsed::Done(_, n) = spec_subexpr(s4.items, 0) {
                    assert(s4.items.skip(n as int) =~= u.skip((kk + 2 + n) as int));
                }
            }
            Ok(Expr::IsDistinctFrom(IsDistinctFromExpr { negated, left: expr, right: Box::new(right) }))
        } else {
            self.expected_here("[NOT] NULL or [NOT] DISTINCT FROM after IS")
        }
    }

    /// Parses the parenthesized list or subquery after `[NOT] IN`.
    fn parse_in(&mut self, expr: Box<Expr>, negated: bool) -> (r: Result<Expr, ParserError>)
        requires
            old(self).wf(),
        ensures
            final(self).wf(),
            final(self).dialect_in_use() == old(self).dialect_in_use(),
            r is Ok ==> advanced(old(self).state(), final(self).state()),
            r matches Ok(e) ==> e is InList || e is InSubquery,
            r matches Ok(Expr::InSubquery(x)) ==> x.expr == expr && x.negated == negated,
            old(self).state().cursor == 0 ==> meets_expr(
                spec_in(old(self).state().items, expr_v(*expr), negated),
                old(self).state(),
                r,
                final(self).state(),
            ),
            old(self).state().cursor == 0 && old(self).state().items.len() > 1 && starts_query(
                old(self).state().items[1]@,
            ) ==> meets_expr(
                spec_in_subquery(old(self).state().items, expr_v(*expr), negated),
                old(self).state(),
                r,
                final(self).state(),
            ),
        decreases old(self).state().items.len(), 21nat,
    {
        proof {
            reveal(crate::parser::query::spec_paren_query);
        }
        broadcast use crate::ast::view::group_expr_v;

        let ghost st = self.state();
        let ghost u = st.items;
        self.expect_token(&Token::LeftParen)?;
        proof {
            crate::parser::lemma_next_consumed(st);
            assert(u.skip(1) =~= u.drop_first());
            lemma_exprs_len(u.skip(1));
        }
        let ghost s1 = self.state();
        proof {
            lemma_query_expr_len(s1.items, true);
            crate::parser::query::lemma_paren_query_unfold(u);
        }
        let in_op = if self.next_is_query() {
            Expr::InSubquery(InSubqueryExpr {
                expr,
                negated,
                subquery: Box::new(self.parse_query_expr(true)?),
            })
        } else {
            Expr::InList(InListExpr { expr, negated, list: self.parse_exprs()? })
        };
        let ghost s2 = self.state();
        proof {
            if let Parsed::Done(_, n) = spec_exprs(s1.items) {
                if s2 == skip_state(s1, n) && s2.items.len() > 0 {
                    assert(s2.items[0] == u[n + 1int]);
                }
            }
            if let Parsed::Done(_, m) = spec_query_expr(s1.items, true) {
                if s2 == skip_state(s1, m) && s2.items.len() > 0 {
                    assert(s2.items[0] == u[m + 1int]);
                }
            }
        }
        self.expect_token(&Token::RightParen)?;
        proof {
            lemma_consumed_trans(st, s1, s2);
            crate::parser::lemma_consumed_then_next(st, s2);
            if let Parsed::Done(_, n) = spec_exprs(s1.items) {
                if s2 == skip_state(s1, n) {
                    assert(self.state().items =~= u.skip((n + 2) as int));
                }
            }
            if let Parsed::Done(_, m) = spec_query_expr(s1.items, true) {
                if s2 == skip_state(s1, m) {
                    assert(self.state().items =~= u.skip((m + 2) as int));
                }
            }
        }
        Ok(in_op)
    }

    /// Parses `<low> AND <high>` after `[NOT] BETWEEN`.
    #[verifier::rlimit(100)]
    #[verifier::spinoff_prover]
    fn parse_between(&mut self, expr: Box<Expr>, negated: bool) -> (r: Result<Expr, ParserError>)
        requires
            old(self).wf(),
        ensures
            final(self).wf(),
            final(self).dialect_in_use() == old(self).dialect_in_use(),
            r is Ok ==> advanced(old(self).state(), final(self).state()),
            r matches Ok(e) ==> e is Between,
            meets_expr(
                spec_between(old(self).state().items, expr_v(*expr), negated),
                old(self).state(),
                r,
                final(self).state(),
            ),
        decreases old(self).state().items.len(), 20nat,
    {
        broadcast use crate::ast::view::group_expr_v;

        let ghost st = self.state();
        let ghost u = st.items;
        proof {
            lemma_subexpr_len(u, BETWEEN_PREC);
        }
        let low = self.parse_subexpr(BETWEEN_PREC)?;
        let ghost s1 = self.state();
        proof {
            if let Parsed::Done(_, a) = spec_subexpr(u, BETWEEN_PREC) {
                if a < u.len() {
                    assert(s1.items[0] == u[a as int]);
                    lemma_subexpr_len(u.skip(a + 1int), BETWEEN_PREC);
                }
            }
        }
        self.expect_keyword(Keyword::AND)?;
        let ghost s2 = self.state();
        proof {
            if let Parsed::Done(_, a) = spec_subexpr(u, BETWEEN_PREC) {
                assert(s2.items =~= u.skip(a + 1int));
            }
        }
        let high = self.parse_subexpr(BETWEEN_PREC)?;
        proof {
            lemma_step_advanced(st, s1, s2);
            lemma_consumed_trans(st, s2, self.state());
            if let Parsed::Done(_, a) = spec_subexpr(u, BETWEEN_PREC) {
                if let Parsed::Done(_, b) = spec_subexpr(s2.items, BETWEEN_PREC) {
                    assert(s2.items.skip(b as int) =~= u.skip((a + 1 + b) as int));
                }
            }
        }
        Ok(Expr::Between(BetweenExpr {
            expr,
            negated,
            low: Box::new(low),
            high: Box::new(high),
        }))
    }

    /// Parses expressions separated by commas.
    #[verifier::loop_isolation(false)]
    pub(crate) fn parse_exprs(&mut self) -> (r: Result<Vec<Expr>, ParserError>)
        requires
            old(self).wf(),
        ensures
            final(self).wf(),
            final(self).dialect_in_use() == old(self).dialect_in_use(),
            r matches Ok(v) ==> v@.len() > 0 && advanced(old(self).state(), final(self).state()),
            meets(
                spec_exprs(old(self).state().items),
                |v: Vec<Expr>| exprs_v(v@),
                old(self).state(),
                r,
                final(self).state(),
            ),
        decreases old(self).state().items.len(), 21nat,
    {
        let ghost st = self.state();
        let ghost sp = spec_exprs(st.items);
        proof {
            lemma_subexpr_len(st.items, 0);
        }
        let mut list: Vec<Expr> = Vec::new();
        let first = self.parse_expr()?;
        list.push(first);
        proof {
            assert(exprs_v(list@) =~= seq![expr_v(first)]);
        }
        loop
            invariant
                self.wf(),
                self.dialect_in_use() == old(self).dialect_in_use(),
                advanced(st, self.state()),
                list@.len() > 0,
                sp == spec_exprs(st.items),
                sp == prepend(
                    exprs_v(list@),
                    spec_exprs_tail(self.state().items),
                    (st.items.len() - self.state().items.len()) as nat,
                ),
            decreases self.state().items.len(),
        {
            let ghost cur = self.state();
            let ghost c: nat = (st.items.len() - cur.items.len()) as nat;
            proof {
                assert(cur.items == st.items.skip(c as int));
            }
            if !self.next_token_if_is(&Token::Comma) {
                proof {
                    assert(exprs_v(list@) + Seq::<ExprV>::empty() =~= exprs_v(list@));
                    assert(self.state() == skip_state(st, c));
                }
                break;
            }
            let ghost mid = self.state();
            proof {
                assert(mid.items =~= cur.items.skip(1));
                lemma_subexpr_len(mid.items, 0);
            }
            let e = self.parse_expr()?;
            proof {
                lemma_step_advanced(st, cur, mid);
                lemma_consumed_trans(st, mid, self.state());
                assert(exprs_v(list@.push(e)) =~= exprs_v(list@).push(expr_v(e)));
                if let Parsed::Done(_, n) = spec_subexpr(mid.items, 0) {
                    assert(self.state().items =~= mid.items.skip(n as int));
                    if let Parsed::Done(l, m) = spec_exprs_tail(self.state().items) {
                        assert(exprs_v(list@) + (seq![expr_v(e)] + l) =~= exprs_v(list@).push(
                            expr_v(e),
                        ) + l);
                    }
                }
            }
            list.push(e);
        }
        Ok(list)
    }

    /// Whether a query starts with the next token: `SELECT` or `WITH`.
    pub(crate) fn next_is_query(&self) -> (b: bool)
        requires
            self.wf(),
        ensures
            b == (peek_is_keyword(self.state(), Keyword::SELECT) || peek_is_keyword(
                self.state(),
                Keyword::WITH,
            )),
    {
        match self.peek_token() {
            Some(t) => t.is_keyword(Keyword::SELECT) || t.is_keyword(Keyword::WITH),
            None => false,
        }
    }
}

} // verus!
