//! The SQL parser: turns a sequence of tokens into syntax trees.
use vstd::prelude::*;

use crate::dialect::Dialect;
use crate::error::{spec_lexer_error_sql, Location};
use crate::keyword_table::{spec_keyword_name, Keyword};
use crate::lexer::{spec_tokenize, token_views, Lexer};
use crate::peek::{
    multipeek, spec_next, spec_next_state, spec_peek, spec_peek_next_state, MultiPeek, PeekState,
};
use crate::text::{push_char, push_str};
use crate::token::{
    is_keyword_token, spec_first_keyword_of, spec_token_sql, Token, TokenView,
};

pub mod constraints;
pub mod ddl;
pub mod expression;
pub mod grammar;
pub mod query;
pub mod table;
pub mod types;

verus! {

/// Parser error.
#[derive(Clone, Debug, PartialEq)]
pub enum ParserError {
    /// Tokenize error.
    TokenizeError(String),
    /// Parse error.
    ParseError(String),
}

/// The abstract value of a parser error: whether it is a tokenize error, and
/// its message.
pub open spec fn error_view(e: ParserError) -> (bool, Seq<char>) {
    match e {
        ParserError::TokenizeError(s) => (true, s@),
        ParserError::ParseError(s) => (false, s@),
    }
}

/// The message of an unexpected token error:
/// `Expected: <expected>, found: <found or EOF>`.
pub open spec fn spec_expected_message(expected: Seq<char>, found: Option<TokenView>) -> Seq<char> {
    "Expected: "@ + expected + ", found: "@ + match found {
        Some(t) => spec_token_sql(t),
        None => "EOF"@,
    }
}

/// The abstract value of an optional token.
pub open spec fn opt_token_view(t: Option<Token>) -> Option<TokenView> {
    match t {
        Some(t) => Some(t@),
        None => None,
    }
}

/// The tokens that a parser reads: all but whitespace and comments.
pub open spec fn significant(ts: Seq<TokenView>) -> Seq<TokenView>
    decreases ts.len(),
{
    if ts.len() == 0 {
        Seq::empty()
    } else if ts.last() is Whitespace || ts.last() is Comment {
        significant(ts.drop_last())
    } else {
        significant(ts.drop_last()).push(ts.last())
    }
}

/// Whether the next token is the keyword `k`.
pub open spec fn peek_is_keyword(st: PeekState<Token>, k: Keyword) -> bool {
    spec_next(st) matches Some(t) && is_keyword_token(t@, k)
}

/// Whether the next token is the token `t`.
pub open spec fn peek_is(st: PeekState<Token>, t: TokenView) -> bool {
    spec_next(st) matches Some(x) && x@ == t
}

/// The first of `keywords` that the next token is, if it
/// is one of them.
pub open spec fn peek_keyword_of(st: PeekState<Token>, keywords: Seq<Keyword>) -> Option<Keyword> {
    match spec_next(st) {
        Some(t) => spec_first_keyword_of(t@, keywords),
        None => None,
    }
}

/// The tokens of `new` are the tokens of `old` without some first tokens.
pub open spec fn consumed(old: PeekState<Token>, new: PeekState<Token>) -> bool {
    &&& new.items.len() <= old.items.len()
    &&& new.items == old.items.skip(old.items.len() - new.items.len())
}

/// The tokens of `new` are the tokens of `old` without one or more first
/// tokens, and the peeking cursor is reset.
pub open spec fn advanced(old: PeekState<Token>, new: PeekState<Token>) -> bool {
    &&& consumed(old, new)
    &&& new.items.len() < old.items.len()
    &&& new.cursor == 0
}

/// Consuming nothing.
pub proof fn lemma_consumed_refl(st: PeekState<Token>)
    ensures
        consumed(st, st),
{
    assert(st.items =~= st.items.skip(0));
}

/// Moving to the next token consumes at most that token.
pub proof fn lemma_next_state_consumed(st: PeekState<Token>)
    ensures
        consumed(st, spec_next_state(st)),
{
    assert(spec_next_state(st).items =~= st.items.skip(st.items.len() - spec_next_state(st).items.len()));
}

/// Resetting the cursor consumes nothing.
pub proof fn lemma_reset_consumed(st: PeekState<Token>)
    ensures
        consumed(st, PeekState { items: st.items, cursor: 0 }),
{
    assert(st.items =~= st.items.skip(0));
}

/// Consuming is transitive.
pub proof fn lemma_consumed_trans(a: PeekState<Token>, b: PeekState<Token>, c: PeekState<Token>)
    requires
        consumed(a, b),
        consumed(b, c),
    ensures
        consumed(a, c),
{
    assert(c.items =~= a.items.skip(a.items.len() - c.items.len()));
}

/// The state after consuming the next token when there is one.
pub proof fn lemma_next_consumed(st: PeekState<Token>)
    requires
        st.items.len() > 0,
    ensures
        advanced(st, spec_next_state(st)),
{
    assert(spec_next_state(st).items =~= st.items.skip(1));
}

/// Consuming some tokens and then the next one advances.
pub proof fn lemma_consumed_then_next(st: PeekState<Token>, s: PeekState<Token>)
    requires
        consumed(st, s),
        s.items.len() > 0,
    ensures
        advanced(st, spec_next_state(s)),
{
    assert(spec_next_state(s).items =~= st.items.skip(st.items.len() - spec_next_state(s).items.len()));
}

/// The state after `parse_keywords`: whether the keywords follow the cursor
/// one by one.
pub open spec fn keywords_follow(st: PeekState<Token>, keywords: Seq<Keyword>) -> bool {
    &&& st.cursor + keywords.len() <= st.items.len()
    &&& forall|i: int|
        0 <= i < keywords.len() ==> is_keyword_token(#[trigger] st.items[st.cursor + i]@, keywords[i])
}

/// Two keywords follow the cursor when the two tokens from the cursor are
/// those keywords.
pub proof fn lemma_two_keywords_follow(st: PeekState<Token>, a: Keyword, b: Keyword)
    ensures
        keywords_follow(st, seq![a, b]) <==> (st.cursor + 2 <= st.items.len() && is_keyword_token(
            st.items[st.cursor as int]@,
            a,
        ) && is_keyword_token(st.items[st.cursor + 1int]@, b)),
{
    let k = seq![a, b];
    let i0: int = 0;
    let i1: int = 1;
    if keywords_follow(st, k) {
        assert(is_keyword_token(st.items[st.cursor + i0]@, k[i0]));
        assert(is_keyword_token(st.items[st.cursor + i1]@, k[i1]));
    }
    if st.cursor + 2 <= st.items.len() && is_keyword_token(st.items[st.cursor as int]@, a)
        && is_keyword_token(st.items[st.cursor + 1int]@, b) {
        assert forall|i: int| 0 <= i < k.len() implies is_keyword_token(
            #[trigger] st.items[st.cursor + i]@,
            k[i],
        ) by {
            if i == 0 {
                assert(st.items[st.cursor + i] == st.items[st.cursor as int]);
            }
        }
    }
}

/// The state after `expect_keywords`, or the error it gives with the state
/// it leaves: the keywords before the one that is missing stay consumed.
pub open spec fn spec_expect_keywords(st: PeekState<Token>, keywords: Seq<Keyword>) -> Result<
    PeekState<Token>,
    (PeekState<Token>, Seq<char>),
>
    decreases keywords.len(),
{
    if keywords.len() == 0 {
        Ok(st)
    } else if peek_is_keyword(st, keywords[0]) {
        spec_expect_keywords(spec_next_state(st), keywords.drop_first())
    } else {
        Err((st, spec_expected_message(spec_keyword_name(keywords[0]), opt_token_view(spec_next(st)))))
    }
}

/// SQL parser.
pub struct Parser<'a, D: Dialect> {
    dialect: &'a D,
    iter: MultiPeek<Token>,
}

/// Appends the text of a token as an error message shows it.
fn push_token(out: &mut String, t: &Token)
    ensures
        final(out)@ == old(out)@ + spec_token_sql(t@),
{
    match t {
        Token::Ident(i) => match i.quote {
            None => push_str(out, i.value.as_str()),
            Some(q) => {
                push_char(out, q);
                push_str(out, i.value.as_str());
                push_char(out, q);
                assert(out@ =~= old(out)@ + spec_token_sql(t@));
            },
        },
        _ => t.write_sql(out),
    }
}

/// The message `Expected: <expected>, found: <found or EOF>`.
pub fn expected_message(expected: &str, found: Option<&Token>) -> (s: String)
    ensures
        s@ == spec_expected_message(
            expected@,
            match found {
                Some(t) => Some(t@),
                None => None,
            },
        ),
{
    let mut s = String::new();
    push_str(&mut s, "Expected: ");
    push_str(&mut s, expected);
    push_str(&mut s, ", found: ");
    match found {
        Some(t) => push_token(&mut s, t),
        None => push_str(&mut s, "EOF"),
    }
    assert(s@ =~= spec_expected_message(
        expected@,
        match found {
            Some(t) => Some(t@),
            None => None,
        },
    ));
    s
}

/// The significant tokens, in order.
fn significant_tokens(tokens: Vec<Token>) -> (v: Vec<Token>)
    ensures
        token_views(v@) == significant(token_views(tokens@)),
{
    let mut v: Vec<Token> = Vec::new();
    let mut i: usize = 0;
    assert(token_views(tokens@).take(0) =~= Seq::<TokenView>::empty());
    while i < tokens.len()
        invariant
            i <= tokens@.len(),
            token_views(v@) == significant(token_views(tokens@).take(i as int)),
        decreases tokens@.len() - i,
    {
        let t = tokens[i].clone_token();
        let ghost tv = token_views(tokens@);
        assert(tv.take(i + 1).drop_last() =~= tv.take(i as int));
        assert(tv.take(i + 1).last() == tokens@[i as int]@);
        if !(t.is_whitespace() || t.is_comment()) {
            v.push(t);
            assert(token_views(v@) =~= significant(token_views(tokens@).take(i as int)).push(
                tokens@[i as int]@,
            ));
        }
        i += 1;
    }
    assert(token_views(tokens@).take(tokens@.len() as int) =~= token_views(tokens@));
    v
}

impl<'a, D: Dialect> Parser<'a, D> {
    /// The state of the token stream: the tokens that are left and the
    /// peeking cursor.
    pub closed spec fn state(&self) -> PeekState<Token> {
        self.iter.state()
    }

    /// The dialect that the parser reads by.
    pub closed spec fn dialect_in_use(&self) -> D {
        *self.dialect
    }

    /// The peeking cursor never passes the end of the tokens.
    pub closed spec fn wf(&self) -> bool {
        self.iter.wf()
    }

    /// A well-formed parser's cursor is within the tokens.
    pub proof fn lemma_wf_cursor(&self)
        requires
            self.wf(),
        ensures
            self.state().cursor <= self.state().items.len(),
    {
        self.iter.lemma_wf_cursor();
    }

    /// The dialect of the parser.
    pub closed spec fn spec_dialect(&self) -> D {
        *self.dialect
    }

    /// Creates a new SQL parser with the given tokens, all of them kept.
    pub fn new_with_tokens(dialect: &'a D, tokens: Vec<Token>) -> (p: Self)
        ensures
            p.wf(),
            p.state().items == tokens@,
            p.state().cursor == 0,
            p.spec_dialect() == *dialect,
    {
        let iter = multipeek(tokens);
        Parser { dialect, iter }
    }

    /// Creates a new SQL parser with the given sql string; whitespace and
    /// comments are left out of the tokens it reads.
    pub fn new_with_sql(dialect: &'a D, sql: &str) -> (r: Result<Self, ParserError>)
        requires
            sql@.len() < usize::MAX,
        ensures
            match spec_tokenize(*dialect, sql@, 0, Location { line: 1, column: 1 }) {
                Ok(ts) => r matches Ok(p) && p.wf() && token_views(p.state().items) == significant(
                    ts,
                ) && p.state().cursor == 0 && p.spec_dialect() == *dialect,
                Err((m, l)) => r matches Err(e) && error_view(e) == (true, spec_lexer_error_sql(m, l)),
            },
    {
        let mut lexer = Lexer::new(dialect, sql);
        match lexer.tokenize() {
            Ok(tokens) => Ok(Self::new_with_tokens(dialect, significant_tokens(tokens))),
            Err(e) => Err(ParserError::TokenizeError(e.to_string())),
        }
    }

    /// Reports an unexpected token: `Expected: <expected>, found: <found>`.
    pub fn expected<R>(&self, expected: &str, found: Option<&Token>) -> (r: Result<R, ParserError>)
        ensures
            r matches Err(e) && error_view(e) == (false, spec_expected_message(
                expected@,
                match found {
                    Some(t) => Some(t@),
                    None => None,
                },
            )),
    {
        Err(ParserError::ParseError(expected_message(expected, found)))
    }

    /// Reports an unexpected part: `Expected: <expected>, found: <found>`.
    fn expected_text<R>(&self, expected: &str, found: &str) -> (r: Result<R, ParserError>)
        ensures
            r matches Err(e) && error_view(e) == (false, "Expected: "@ + expected@ + ", found: "@
                + found@),
    {
        let mut s = String::new();
        push_str(&mut s, "Expected: ");
        push_str(&mut s, expected);
        push_str(&mut s, ", found: ");
        push_str(&mut s, found);
        Err(ParserError::ParseError(s))
    }

    /// Reports the next token as unexpected.
    fn expected_here<R>(&self, expected: &str) -> (r: Result<R, ParserError>)
        requires
            self.wf(),
        ensures
            r matches Err(e) && error_view(e) == (false, spec_expected_message(
                expected@,
                opt_token_view(spec_next(self.state())),
            )),
    {
        let found = self.peek_token();
        self.expected(expected, found)
    }

    /// Consumes the next keyword token and returns ok if it matches the
    /// expected keyword, otherwise returns an error.
    pub fn expect_keyword(&mut self, expected: Keyword) -> (r: Result<(), ParserError>)
        requires
            old(self).wf(),
        ensures
            final(self).wf(),
            final(self).dialect_in_use() == old(self).dialect_in_use(),
            r is Ok <==> peek_is_keyword(old(self).state(), expected),
            r is Ok ==> final(self).state() == spec_next_state(old(self).state()),
            r matches Err(e) ==> final(self).state() == old(self).state() && error_view(e) == (
            false, spec_expected_message(
                spec_keyword_name(expected),
                opt_token_view(spec_next(old(self).state())),
            )),
            r is Ok ==> consumed(old(self).state(), final(self).state()),
    {
        proof {
            lemma_next_state_consumed(old(self).state());
            lemma_reset_consumed(old(self).state());
            lemma_consumed_refl(old(self).state());
        }
        if self.parse_keyword(expected) {
            Ok(())
        } else {
            self.expected_here(expected.as_str())
        }
    }

    /// Consumes the next keyword tokens and returns ok if they match the
    /// expected keywords, otherwise returns an error.
    pub fn expect_keywords(&mut self, expected: &[Keyword]) -> (r: Result<(), ParserError>)
        requires
            old(self).wf(),
        ensures
            final(self).wf(),
            final(self).dialect_in_use() == old(self).dialect_in_use(),
            match spec_expect_keywords(old(self).state(), expected@) {
                Ok(st) => r is Ok && final(self).state() == st,
                Err((st, m)) => r matches Err(e) && error_view(e) == (false, m) && final(self).state()
                    == st,
            },
            r is Ok ==> consumed(old(self).state(), final(self).state()),
    {
        let mut i: usize = 0;
        assert(expected@.skip(0) =~= expected@);
        proof { lemma_consumed_refl(old(self).state()); }
        while i < expected.len()
            invariant
                i <= expected@.len(),
                self.wf(),
                self.dialect_in_use() == old(self).dialect_in_use(),
                spec_expect_keywords(old(self).state(), expected@) == spec_expect_keywords(
                    self.state(),
                    expected@.skip(i as int),
                ),
                consumed(old(self).state(), self.state()),
            decreases expected@.len() - i,
        {
            assert(expected@.skip(i as int).drop_first() =~= expected@.skip(i + 1));
            let ghost cur = self.state();
            self.expect_keyword(expected[i])?;
            proof { lemma_consumed_trans(old(self).state(), cur, self.state()); }
            i += 1;
        }
        Ok(())
    }

    /// Consumes the next keyword token and returns true if it matches the
    /// expected keyword, otherwise returns false.
    pub fn parse_keyword(&mut self, keyword: Keyword) -> (b: bool)
        requires
            old(self).wf(),
        ensures
            final(self).wf(),
            final(self).dialect_in_use() == old(self).dialect_in_use(),
            b == peek_is_keyword(old(self).state(), keyword),
            b ==> final(self).state() == spec_next_state(old(self).state()),
            !b ==> final(self).state() == old(self).state(),
            consumed(old(self).state(), final(self).state()),
    {
        proof {
            lemma_next_state_consumed(old(self).state());
            lemma_reset_consumed(old(self).state());
            lemma_consumed_refl(old(self).state());
        }
        let matched = match self.iter.peek() {
            Some(t) => t.is_keyword(keyword),
            None => false,
        };
        if matched {
            self.iter.next();
            true
        } else {
            false
        }
    }

    /// Consumes the next keyword tokens and returns true if they match the
    /// expected keywords one by one, otherwise returns false; the peeking
    /// cursor is reset either way.
    pub fn parse_keywords(&mut self, keywords: &[Keyword]) -> (b: bool)
        requires
            old(self).wf(),
        ensures
            final(self).wf(),
            final(self).dialect_in_use() == old(self).dialect_in_use(),
            b == keywords_follow(old(self).state(), keywords@),
            b ==> final(self).state() == (PeekState {
                items: old(self).state().items.skip(keywords@.len() as int),
                cursor: 0,
            }),
            !b ==> final(self).state() == (PeekState { items: old(self).state().items, cursor: 0 }),
            consumed(old(self).state(), final(self).state()),
    {
        let ghost st = self.state();
        proof {
            self.lemma_wf_cursor();
            lemma_reset_consumed(st);
        }
        let mut i: usize = 0;
        while i < keywords.len()
            invariant
                i <= keywords@.len(),
                self.wf(),
                self.dialect_in_use() == old(self).dialect_in_use(),
                st == old(self).state(),
                consumed(st, PeekState { items: st.items, cursor: 0 }),
                self.state() == (PeekState { items: st.items, cursor: (st.cursor + i) as nat }),
                st.cursor + i <= st.items.len(),
                forall|j: int| 0 <= j < i ==> is_keyword_token(#[trigger] st.items[st.cursor + j]@, keywords@[j]),
            decreases keywords@.len() - i,
        {
            let matched = match self.iter.peek_next() {
                Some(t) => t.is_keyword(keywords[i]),
                None => false,
            };
            if !matched {
                self.iter.reset_cursor();
                proof {
                    if st.cursor + i < st.items.len() {
                        assert(!is_keyword_token(st.items[st.cursor + i]@, keywords@[i as int]));
                    }
                }
                return false;
            }
            i += 1;
        }
        let mut j: usize = 0;
        self.iter.reset_cursor();
        assert(st.items.skip(0) =~= st.items);
        while j < keywords.len()
            invariant
                j <= keywords@.len(),
                self.wf(),
                self.dialect_in_use() == old(self).dialect_in_use(),
                keywords@.len() <= st.items.len(),
                self.state() == (PeekState { items: st.items.skip(j as int), cursor: 0 }),
            decreases keywords@.len() - j,
        {
            self.iter.next();
            assert(st.items.skip(j as int).drop_first() =~= st.items.skip(j + 1));
            j += 1;
        }
        assert(st.items.skip(keywords@.len() as int) =~= st.items.skip(
            st.items.len() - (st.items.len() - keywords@.len()),
        ));
        true
    }

    /// Consumes the next token and returns its keyword if it is one of the
    /// expected keywords, otherwise returns `None`.
    pub fn parse_one_of_keywords(&mut self, keywords: &[Keyword]) -> (r: Option<Keyword>)
        requires
            old(self).wf(),
        ensures
            final(self).wf(),
            final(self).dialect_in_use() == old(self).dialect_in_use(),
            r == peek_keyword_of(old(self).state(), keywords@),
            r is Some ==> final(self).state() == spec_next_state(old(self).state()),
            r is None ==> final(self).state() == old(self).state(),
            consumed(old(self).state(), final(self).state()),
    {
        proof {
            lemma_next_state_consumed(old(self).state());
            lemma_reset_consumed(old(self).state());
            lemma_consumed_refl(old(self).state());
        }
        let found = match self.iter.peek() {
            Some(t) => t.is_one_of_keywords(keywords),
            None => None,
        };
        if found.is_some() {
            self.iter.next();
        }
        found
    }

    /// Consumes the next token and returns its keyword if it is one of the
    /// expected keywords, otherwise returns an error.
    pub fn expect_one_of_keywords(&mut self, keywords: &[Keyword], expected: &str) -> (r: Result<
        Keyword,
        ParserError,
    >)
        requires
            old(self).wf(),
        ensures
            final(self).wf(),
            final(self).dialect_in_use() == old(self).dialect_in_use(),
            match peek_keyword_of(old(self).state(), keywords@) {
                Some(k) => r == Ok::<Keyword, ParserError>(k) && final(self).state()
                    == spec_next_state(old(self).state()),
                None => final(self).state() == old(self).state() && (r matches Err(e)
                    && error_view(e) == (false, spec_expected_message(
                    expected@,
                    opt_token_view(spec_next(old(self).state())),
                ))),
            },
            r is Ok ==> consumed(old(self).state(), final(self).state()),
    {
        proof {
            lemma_next_state_consumed(old(self).state());
            lemma_reset_consumed(old(self).state());
            lemma_consumed_refl(old(self).state());
        }
        match self.parse_one_of_keywords(keywords) {
            Some(k) => Ok(k),
            None => self.expected_here(expected),
        }
    }

    /// Consumes the next token and returns ok if it matches the expected
    /// token, otherwise returns an error.
    pub fn expect_token(&mut self, expected: &Token) -> (r: Result<(), ParserError>)
        requires
            old(self).wf(),
        ensures
            final(self).wf(),
            final(self).dialect_in_use() == old(self).dialect_in_use(),
            r is Ok <==> peek_is(old(self).state(), expected@),
            r is Ok ==> final(self).state() == spec_next_state(old(self).state()),
            r matches Err(e) ==> final(self).state() == old(self).state() && error_view(e) == (
            false, spec_expected_message(
                spec_token_sql(expected@),
                opt_token_view(spec_next(old(self).state())),
            )),
            r is Ok ==> consumed(old(self).state(), final(self).state()),
    {
        proof {
            lemma_next_state_consumed(old(self).state());
            lemma_reset_consumed(old(self).state());
            lemma_consumed_refl(old(self).state());
        }
        if self.next_token_if_is(expected) {
            Ok(())
        } else {
            let mut s = String::new();
            push_token(&mut s, expected);
            let found = self.peek_token();
            self.expected(s.as_str(), found)
        }
    }

    /// Returns a reference to the next token, the one `next_token` returns,
    /// without advancing.
    pub fn peek_token(&self) -> (r: Option<&Token>)
        requires
            self.wf(),
        ensures
            r is Some <==> spec_next(self.state()) is Some,
            r matches Some(t) ==> *t == spec_next(self.state())->0,
    {
        self.iter.peek()
    }

    /// Returns the token at the peeking cursor and moves the cursor one
    /// token ahead, to peek further; `next_token` resets the cursor.
    pub fn peek_next_token(&mut self) -> (r: Option<&Token>)
        requires
            old(self).wf(),
        ensures
            final(self).wf(),
            final(self).dialect_in_use() == old(self).dialect_in_use(),
            final(self).state() == spec_peek_next_state(old(self).state()),
            r is Some <==> spec_peek(old(self).state()) is Some,
            r matches Some(t) ==> *t == spec_peek(old(self).state())->0,
    {
        self.iter.peek_next()
    }

    /// Resets the peeking cursor.
    pub fn reset_peek_cursor(&mut self)
        requires
            old(self).wf(),
        ensures
            final(self).wf(),
            final(self).dialect_in_use() == old(self).dialect_in_use(),
            final(self).state() == (PeekState { items: old(self).state().items, cursor: 0 }),
    {
        self.iter.reset_cursor();
    }

    /// Consumes the next token and returns it.
    pub fn next_token(&mut self) -> (r: Option<Token>)
        requires
            old(self).wf(),
        ensures
            final(self).wf(),
            final(self).dialect_in_use() == old(self).dialect_in_use(),
            r == spec_next(old(self).state()),
            final(self).state() == spec_next_state(old(self).state()),
            consumed(old(self).state(), final(self).state()),
    {
        proof {
            lemma_next_state_consumed(old(self).state());
            lemma_reset_consumed(old(self).state());
            lemma_consumed_refl(old(self).state());
        }
        self.iter.next()
    }

    /// Consumes the next token and returns it if `func` holds of it,
    /// otherwise returns `None`.
    pub fn next_token_if<F: FnOnce(&Token) -> bool>(&mut self, func: F) -> (r: Option<Token>)
        requires
            old(self).wf(),
            forall|x: &Token| call_requires(func, (x,)),
        ensures
            final(self).wf(),
            final(self).dialect_in_use() == old(self).dialect_in_use(),
            r is Some ==> spec_next(old(self).state()) is Some && call_ensures(
                func,
                (&spec_next(old(self).state())->0,),
                true,
            ) && r == spec_next(old(self).state()) && final(self).state() == spec_next_state(
                old(self).state(),
            ),
            r is None ==> final(self).state() == old(self).state() && (spec_next(old(self).state()) is None
                || call_ensures(func, (&spec_next(old(self).state())->0,), false)),
    {
        self.iter.next_if(func)
    }

    /// Consumes the next token and returns it if it is the expected
    /// token, otherwise returns `None`.
    pub fn next_token_if_eq(&mut self, expected: &Token) -> (r: Option<Token>)
        requires
            old(self).wf(),
        ensures
            final(self).wf(),
            final(self).dialect_in_use() == old(self).dialect_in_use(),
            r is Some <==> peek_is(old(self).state(), expected@),
            r is Some ==> r == spec_next(old(self).state()) && final(self).state()
                == spec_next_state(old(self).state()),
            r is None ==> final(self).state() == old(self).state(),
    {
        let matched = match self.iter.peek() {
            Some(t) => t.equals(expected),
            None => false,
        };
        if matched {
            self.iter.next()
        } else {
            None
        }
    }

    /// Consumes the next token and returns true if it is the expected
    /// token, otherwise returns false.
    pub fn next_token_if_is(&mut self, expected: &Token) -> (b: bool)
        requires
            old(self).wf(),
        ensures
            final(self).wf(),
            final(self).dialect_in_use() == old(self).dialect_in_use(),
            b == peek_is(old(self).state(), expected@),
            b ==> final(self).state() == spec_next_state(old(self).state()),
            !b ==> final(self).state() == old(self).state(),
            consumed(old(self).state(), final(self).state()),
    {
        proof {
            lemma_next_state_consumed(old(self).state());
            lemma_reset_consumed(old(self).state());
            lemma_consumed_refl(old(self).state());
        }
        self.next_token_if_eq(expected).is_some()
    }
}

} // verus!
