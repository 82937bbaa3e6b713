use usql::dialect::{AnsiDialect, AnsiKeyword, MysqlDialect, MysqlKeyword};
use usql::error::{LexerError, Location};
use usql::lexer::Lexer;
use usql::token::{Comment, Token, Whitespace};

fn tokenize(input: &str) -> Result<Vec<Token>, LexerError> {
    let dialect = AnsiDialect::default();
    let mut lexer = Lexer::new(&dialect, input);
    lexer.tokenize()
}

fn kw(s: &str) -> Token {
    Token::keyword::<AnsiKeyword>(s).unwrap()
}

#[test]
fn lexer_tokenize_whitespace() {
    assert_eq!(
        tokenize(" line1\nline2\t\rline3\r\nline4\r"),
        Ok(vec![
            Token::Whitespace(Whitespace::Space),
            Token::ident("line1", None),
            Token::Whitespace(Whitespace::Newline),
            Token::ident("line2", None),
            Token::Whitespace(Whitespace::Tab),
            Token::Whitespace(Whitespace::Newline),
            Token::ident("line3", None),
            Token::Whitespace(Whitespace::Newline),
            Token::ident("line4", None),
            Token::Whitespace(Whitespace::Newline),
        ])
    );
}

#[test]
fn lexer_tokenize_single_line_comment() {
    assert_eq!(
        tokenize("0--this is single line comment\n1"),
        Ok(vec![
            Token::Number("0".into()),
            Token::Comment(Comment::SingleLine {
                prefix: "--".into(),
                comment: "this is single line comment\n".into()
            }),
            Token::Number("1".into())
        ])
    );
    assert_eq!(
        tokenize("0-- this is single line comment"),
        Ok(vec![
            Token::Number("0".into()),
            Token::Comment(Comment::SingleLine {
                prefix: "--".into(),
                comment: " this is single line comment".into()
            }),
        ])
    );
}

#[test]
fn lexer_tokenize_multi_line_comment() {
    assert_eq!(tokenize("/**/"), Ok(vec![Token::Comment(Comment::MultiLine(vec!["".into()]))]));
    assert_eq!(tokenize("/***/"), Ok(vec![Token::Comment(Comment::MultiLine(vec!["*".into()]))]));
    assert_eq!(
        tokenize("/*/*/"),
        Err(Location { line: 1, column: 6 }.into_error("Unexpected EOF while in a multi-line comment"))
    );
    assert_eq!(
        tokenize("/*line1*/"),
        Ok(vec![Token::Comment(Comment::MultiLine(vec!["line1".into()]))])
    );
    assert_eq!(
        tokenize("/*line1\nline2*/"),
        Ok(vec![Token::Comment(Comment::MultiLine(vec!["line1".into(), "line2".into()]))])
    );
    assert_eq!(
        tokenize("/*\n--line1\nline2*/"),
        Ok(vec![Token::Comment(Comment::MultiLine(vec![
            "".into(),
            "--line1".into(),
            "line2".into()
        ]))])
    );
    assert_eq!(
        tokenize("/*--line1\nline2"),
        Err(Location { line: 2, column: 6 }.into_error("Unexpected EOF while in a multi-line comment"))
    );
    assert_eq!(
        tokenize("/*line1\n/*line2*/*/"),
        Ok(vec![Token::Comment(Comment::MultiLine(vec!["line1".into(), "/*line2*/".into()]))])
    );
    assert_eq!(
        tokenize("/*line1\n/*line2*/**/"),
        Ok(vec![Token::Comment(Comment::MultiLine(vec!["line1".into(), "/*line2*/*".into()]))])
    );
}

#[test]
fn tokenize_number_literal() {
    assert_eq!(
        tokenize("1234567890 0987654321"),
        Ok(vec![
            Token::Number("1234567890".into()),
            Token::Whitespace(Whitespace::Space),
            Token::Number("0987654321".into()),
        ])
    );
    assert_eq!(
        tokenize(".1 12345.6789 0. ."),
        Ok(vec![
            Token::Number(".1".into()),
            Token::Whitespace(Whitespace::Space),
            Token::Number("12345.6789".into()),
            Token::Whitespace(Whitespace::Space),
            Token::Number("0.".into()),
            Token::Whitespace(Whitespace::Space),
            Token::Period,
        ])
    );
}

#[test]
fn tokenize_string_literal() {
    assert_eq!(tokenize("'hello'"), Ok(vec![Token::String("hello".into())]));
    assert_eq!(tokenize("'hello'"), Ok(vec![Token::String("hello".into())]));
    assert_eq!(tokenize("N'你好'"), Ok(vec![Token::NationalString("你好".into())]));
    assert_eq!(tokenize("n'你好'"), Ok(vec![Token::NationalString("你好".into())]));
    assert_eq!(tokenize("X'abcdef'"), Ok(vec![Token::HexString("abcdef".into())]));
    assert_eq!(tokenize("x'abcdef'"), Ok(vec![Token::HexString("abcdef".into())]));
    assert_eq!(tokenize("B'01010101'"), Ok(vec![Token::BitString("01010101".into())]));
    assert_eq!(tokenize("b'01010101'"), Ok(vec![Token::BitString("01010101".into())]));
    assert_eq!(tokenize("'foo\r\nbar\nbaz'"), Ok(vec![Token::String("foo\r\nbar\nbaz".into())]));
    assert_eq!(
        tokenize("\nمصطفىh"),
        Ok(vec![
            Token::Whitespace(Whitespace::Newline),
            Token::Char('م'),
            Token::Char('ص'),
            Token::Char('ط'),
            Token::Char('ف'),
            Token::Char('ى'),
            Token::ident("h", None),
        ])
    );
    assert_eq!(
        tokenize("select 'foo"),
        Err(Location { line: 1, column: 12 }.into_error("Unterminated string literal"))
    );
}

#[test]
fn tokenize_delimited_ident() {
    assert_eq!(tokenize("\"foo\""), Ok(vec![Token::ident("foo", Some('\"'))]));
    assert_eq!(
        tokenize("\"foo"),
        Err(Location { line: 1, column: 5 }.into_error("Expected close delimiter '\"' before EOF"))
    );
}

#[test]
fn tokenize_string_concat() {
    assert_eq!(
        tokenize("SELECT 'a' || 'b'"),
        Ok(vec![
            kw("SELECT"),
            Token::Whitespace(Whitespace::Space),
            Token::String("a".into()),
            Token::Whitespace(Whitespace::Space),
            Token::Concat,
            Token::Whitespace(Whitespace::Space),
            Token::String("b".into()),
        ])
    );
}

#[test]
fn tokenize_bitwise_op() {
    assert_eq!(
        tokenize("SELECT one | two ^ three"),
        Ok(vec![
            kw("SELECT"),
            Token::Whitespace(Whitespace::Space),
            kw("one"),
            Token::Whitespace(Whitespace::Space),
            Token::Pipe,
            Token::Whitespace(Whitespace::Space),
            Token::ident("two", None),
            Token::Whitespace(Whitespace::Space),
            Token::Caret,
            Token::Whitespace(Whitespace::Space),
            Token::ident("three", None),
        ])
    );
}

#[test]
fn tokenize_mysql_logical_xor() {
    let dialect = MysqlDialect::default();
    let k = |s: &str| Token::keyword::<MysqlKeyword>(s).unwrap();
    let mut lexer = Lexer::new(&dialect, "SELECT true XOR true, false XOR false, true XOR false, false XOR true");
    assert_eq!(
        lexer.tokenize(),
        Ok(vec![
            k("SELECT"),
            Token::Whitespace(Whitespace::Space),
            k("true"),
            Token::Whitespace(Whitespace::Space),
            k("XOR"),
            Token::Whitespace(Whitespace::Space),
            k("true"),
            Token::Comma,
            Token::Whitespace(Whitespace::Space),
            k("false"),
            Token::Whitespace(Whitespace::Space),
            k("XOR"),
            Token::Whitespace(Whitespace::Space),
            k("false"),
            Token::Comma,
            Token::Whitespace(Whitespace::Space),
            k("true"),
            Token::Whitespace(Whitespace::Space),
            k("XOR"),
            Token::Whitespace(Whitespace::Space),
            k("false"),
            Token::Comma,
            Token::Whitespace(Whitespace::Space),
            k("false"),
            Token::Whitespace(Whitespace::Space),
            k("XOR"),
            Token::Whitespace(Whitespace::Space),
            k("true"),
        ])
    );
}

#[test]
fn lexer_tokenize_simple_select() {
    assert_eq!(
        tokenize("SELECT * FROM customer WHERE id = 1"),
        Ok(vec![
            kw("SELECT"),
            Token::Whitespace(Whitespace::Space),
            Token::Asterisk,
            Token::Whitespace(Whitespace::Space),
            kw("FROM"),
            Token::Whitespace(Whitespace::Space),
            Token::ident("customer", None),
            Token::Whitespace(Whitespace::Space),
            kw("WHERE"),
            Token::Whitespace(Whitespace::Space),
            Token::ident("id", None),
            Token::Whitespace(Whitespace::Space),
            Token::Equal,
            Token::Whitespace(Whitespace::Space),
            Token::Number("1".into()),
        ])
    );
    assert_eq!(
        tokenize("SELECT * FROM customer WHERE salary != 'Not Provided'"),
        Ok(vec![
            kw("SELECT"),
            Token::Whitespace(Whitespace::Space),
            Token::Asterisk,
            Token::Whitespace(Whitespace::Space),
            kw("FROM"),
            Token::Whitespace(Whitespace::Space),
            Token::ident("customer", None),
            Token::Whitespace(Whitespace::Space),
            kw("WHERE"),
            Token::Whitespace(Whitespace::Space),
            Token::ident("salary", None),
            Token::Whitespace(Whitespace::Space),
            Token::NotEqual,
            Token::Whitespace(Whitespace::Space),
            Token::String("Not Provided".into()),
        ])
    );
    assert_eq!(
        tokenize("\n\nSELECT * FROM table\tمصطفىh"),
        Ok(vec![
            Token::Whitespace(Whitespace::Newline),
            Token::Whitespace(Whitespace::Newline),
            kw("SELECT"),
            Token::Whitespace(Whitespace::Space),
            Token::Asterisk,
            Token::Whitespace(Whitespace::Space),
            kw("FROM"),
            Token::Whitespace(Whitespace::Space),
            kw("table"),
            Token::Whitespace(Whitespace::Tab),
            Token::Char('م'),
            Token::Char('ص'),
            Token::Char('ط'),
            Token::Char('ف'),
            Token::Char('ى'),
            Token::ident("h", None),
        ])
    );
}

#[test]
fn lower_case_keyword_holds_the_upper_case_keyword() {
    assert_eq!(
        tokenize("select x"),
        Ok(vec![
            Token::Keyword(usql::keyword_table::Keyword::SELECT, "SELECT".into()),
            Token::Whitespace(Whitespace::Space),
            Token::ident("x", None),
        ])
    );
}

#[test]
fn mysql_if_is_a_keyword_but_not_in_ansi() {
    let mysql = MysqlDialect::default();
    let mut lexer = Lexer::new(&mysql, "if");
    assert_eq!(
        lexer.tokenize(),
        Ok(vec![Token::Keyword(usql::keyword_table::Keyword::IF, "IF".into())])
    );
    assert_eq!(tokenize("if"), Ok(vec![Token::ident("if", None)]));
}

#[test]
fn string_tokens_are_written_as_literals() {
    assert_eq!(Token::String("abc".into()).to_string(), "'abc'");
    assert_eq!(Token::NationalString("abc".into()).to_string(), "N'abc'");
}

#[test]
fn keyword_token_holds_the_upper_case_keyword() {
    let lower = Token::keyword::<AnsiKeyword>("select").unwrap();
    let upper = Token::keyword::<AnsiKeyword>("SELECT").unwrap();
    assert_eq!(lower, upper);
    assert_eq!(lower.to_string(), "SELECT");
}

#[test]
fn lexer_stands_at_the_error_location_after_an_error() {
    let dialect = AnsiDialect::default();
    let mut lexer = Lexer::new(&dialect, "SELECT 'abc");
    let err = lexer.tokenize().unwrap_err();
    assert_eq!(lexer.location(), err.location);
}
