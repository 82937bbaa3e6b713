use usql::dialect::{AnsiDialect, AnsiKeyword};
use usql::next::error::LexerError;
use usql::next::lexer::Lexer;
use usql::next::span::{LineColumn, Span};
use usql::next::token::{Literal, Punct, Spacing, TokenTree, Word};

fn tokenize(input: &str) -> Result<Vec<TokenTree>, LexerError> {
    let dialect = AnsiDialect::default();
    Lexer::new(&dialect, input).tokenize()
}

fn word(s: &str) -> TokenTree {
    TokenTree::Word(Word::new::<AnsiKeyword>(s, None))
}

fn kw(s: &str) -> TokenTree {
    TokenTree::Word(Word::keyword::<AnsiKeyword>(s).unwrap())
}

#[test]
fn mod_tokenize_whitespace() {
    assert_eq!(
        tokenize(" line1\nline2\t\rline3\r\nline4\r"),
        Ok(vec![word("line1"), word("line2"), word("line3"), word("line4")])
    );
}

#[test]
fn mod_tokenize_single_line_comment() {
    assert_eq!(
        tokenize("0--this is single line comment\n1"),
        Ok(vec![
            TokenTree::Literal(Literal::number("0")),
            TokenTree::Literal(Literal::number("1")),
        ])
    );
    assert_eq!(
        tokenize("0-- this is single line comment"),
        Ok(vec![TokenTree::Literal(Literal::number("0"))])
    );
}

#[test]
fn mod_tokenize_multi_line_comment() {
    assert_eq!(tokenize("/**/"), Ok(vec![]));
    assert_eq!(tokenize("/***/"), Ok(vec![]));
    assert_eq!(
        tokenize("/*/*/"),
        Err(LexerError {
            message: "Unexpected EOF while in a multi-line comment".into(),
            location: LineColumn::new(1, 5)
        })
    );
    assert_eq!(tokenize("/*line1*/"), Ok(vec![]));
    assert_eq!(tokenize("/*line1\nline2*/"), Ok(vec![]));
    assert_eq!(tokenize("/*\n--line1\nline2*/"), Ok(vec![]));
    assert_eq!(
        tokenize("/*--line1\nline2"),
        Err(LexerError {
            message: "Unexpected EOF while in a multi-line comment".into(),
            location: LineColumn::new(2, 5)
        })
    );
    assert_eq!(tokenize("/*line1\n/*line2*/*/"), Ok(vec![]));
    assert_eq!(tokenize("/*line1\n/*line2*/**/"), Ok(vec![]));
}

#[test]
fn mod_tokenize_simple_select() {
    assert_eq!(
        tokenize("SELECT * FROM customer WHERE id = 1"),
        Ok(vec![
            kw("SELECT"),
            TokenTree::Punct(Punct::new('*', Spacing::Alone)),
            kw("FROM"),
            word("customer"),
            kw("WHERE"),
            word("id"),
            TokenTree::Punct(Punct::new('=', Spacing::Alone)),
            TokenTree::Literal(Literal::number("1")),
        ])
    );
    assert_eq!(
        tokenize("SELECT * FROM customer WHERE salary != 'Not Provided'"),
        Ok(vec![
            kw("SELECT"),
            TokenTree::Punct(Punct::new('*', Spacing::Alone)),
            kw("FROM"),
            word("customer"),
            kw("WHERE"),
            word("salary"),
            TokenTree::Punct(Punct::new('!', Spacing::Joint)),
            TokenTree::Punct(Punct::new('=', Spacing::Alone)),
            TokenTree::Literal(Literal::string("Not Provided")),
        ])
    );
    assert_eq!(
        tokenize("\n\nSELECT * FROM table1\tمصطفىh"),
        Err(LexerError {
            message: "Unexpected EOF or punctuation character".into(),
            location: LineColumn::new(3, 21)
        })
    );
}

#[test]
fn next_tokens_carry_their_spans() {
    let tokens = tokenize("SELECT a,\n  b").unwrap();
    assert_eq!(tokens.len(), 4);
    assert_eq!(
        tokens[0].span(),
        Span::with(LineColumn::new(1, 0), LineColumn::new(1, 6))
    );
    assert_eq!(
        tokens[1].span(),
        Span::with(LineColumn::new(1, 7), LineColumn::new(1, 8))
    );
    assert_eq!(
        tokens[2].span(),
        Span::with(LineColumn::new(1, 8), LineColumn::new(1, 9))
    );
    assert_eq!(
        tokens[3].span(),
        Span::with(LineColumn::new(2, 2), LineColumn::new(2, 3))
    );
}

#[test]
fn next_tokenize_prefixed_literals_and_period() {
    assert_eq!(
        tokenize("N'a' X'0f' B'01' Nx . .5"),
        Ok(vec![
            TokenTree::Literal(Literal::national_string("a")),
            TokenTree::Literal(Literal::hex_string("0f")),
            TokenTree::Literal(Literal::bit_string("01")),
            word("Nx"),
            TokenTree::Punct(Punct::new('.', Spacing::Alone)),
            TokenTree::Literal(Literal::number(".5")),
        ])
    );
    assert_eq!(
        tokenize("a.*"),
        Ok(vec![
            word("a"),
            TokenTree::Punct(Punct::new('.', Spacing::Joint)),
            TokenTree::Punct(Punct::new('*', Spacing::Alone)),
        ])
    );
}

#[test]
fn next_tokenize_errors() {
    assert_eq!(
        tokenize("'abc"),
        Err(LexerError {
            message: "Unterminated string literal".into(),
            location: LineColumn::new(1, 4)
        })
    );
    assert_eq!(
        tokenize("\"abc"),
        Err(LexerError {
            message: "Expected close delimiter '\"' before EOF".into(),
            location: LineColumn::new(1, 4)
        })
    );
    let err = tokenize("'abc").unwrap_err();
    assert_eq!(err.to_string(), "Unterminated string literal at Line: 1, Column: 4");
}
