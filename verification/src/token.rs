//! The tokens produced by the lexer.
use vstd::prelude::*;

use crate::dialect::KeywordDef;
use crate::keyword_table::{spec_keyword_name, Keyword};
use crate::keyword::{lookup_keyword, spec_lookup_keyword};
use crate::text::{push_char, push_str, spec_to_uppercase, string_equals, to_uppercase};

verus! {

/// Whitespace token.
#[derive(Copy, Clone, Debug, PartialEq, Eq, Hash, Structural)]
pub enum Whitespace {
    /// A space.
    Space,
    /// A line break (`\n`, `\r` or `\r\n`).
    Newline,
    /// A tab.
    Tab,
}

/// The text of a whitespace token.
pub open spec fn spec_whitespace_sql(w: Whitespace) -> Seq<char> {
    match w {
        Whitespace::Space => " "@,
        Whitespace::Newline => "\n"@,
        Whitespace::Tab => "\t"@,
    }
}

impl Whitespace {
    /// Appends the text of the whitespace.
    pub fn write_sql(&self, out: &mut String)
        ensures
            final(out)@ == old(out)@ + spec_whitespace_sql(*self),
    {
        match self {
            Whitespace::Space => push_str(out, " "),
            Whitespace::Newline => push_str(out, "\n"),
            Whitespace::Tab => push_str(out, "\t"),
        }
    }

    /// The text of the whitespace.
    pub fn to_string(&self) -> (s: String)
        ensures
            s@ == spec_whitespace_sql(*self),
    {
        let mut s = String::new();
        self.write_sql(&mut s);
        s
    }
}

/// Comment token.
#[derive(Clone, Debug, PartialEq, Eq, Hash)]
pub enum Comment {
    /// Single line comment.
    SingleLine {
        /// The prefix of the comment.
        prefix: String,
        /// The comment text (with its line break, if it has one).
        comment: String,
    },
    /// Multi-line comment, split into its lines.
    MultiLine(Vec<String>),
}

/// The abstract value of a comment.
pub enum CommentView {
    /// Single line comment.
    SingleLine { prefix: Seq<char>, comment: Seq<char> },
    /// Multi-line comment, split into its lines.
    MultiLine(Seq<Seq<char>>),
}

/// The characters of each string of a sequence.
pub open spec fn string_views(v: Seq<String>) -> Seq<Seq<char>> {
    v.map_values(|s: String| s@)
}

impl View for Comment {
    type V = CommentView;

    open spec fn view(&self) -> CommentView {
        match self {
            Comment::SingleLine { prefix, comment } => CommentView::SingleLine {
                prefix: prefix@,
                comment: comment@,
            },
            Comment::MultiLine(lines) => CommentView::MultiLine(string_views(lines@)),
        }
    }
}

/// The lines joined with line breaks.
pub open spec fn join_lines(lines: Seq<Seq<char>>) -> Seq<char>
    decreases lines.len(),
{
    if lines.len() == 0 {
        Seq::empty()
    } else if lines.len() == 1 {
        lines[0]
    } else {
        join_lines(lines.drop_last()) + "\n"@ + lines.last()
    }
}

/// The text of a comment.
pub open spec fn spec_comment_sql(c: CommentView) -> Seq<char> {
    match c {
        CommentView::SingleLine { prefix, comment } => prefix + " "@ + comment,
        CommentView::MultiLine(lines) => "/*"@ + join_lines(lines) + "*/"@,
    }
}

impl Comment {
    /// Appends the text of the comment.
    pub fn write_sql(&self, out: &mut String)
        ensures
            final(out)@ == old(out)@ + spec_comment_sql(self@),
    {
        match self {
            Comment::SingleLine { prefix, comment } => {
                push_str(out, prefix.as_str());
                push_str(out, " ");
                push_str(out, comment.as_str());
            },
            Comment::MultiLine(lines) => {
                push_str(out, "/*");
                let ghost start = out@;
                let mut i: usize = 0;
                while i < lines.len()
                    invariant
                        i <= lines.len(),
                        out@ == start + join_lines(string_views(lines@.subrange(0, i as int))),
                    decreases lines.len() - i,
                {
                    if i > 0 {
                        push_str(out, "\n");
                    }
                    push_str(out, lines[i].as_str());
                    proof {
                        let sub = string_views(lines@.subrange(0, i + 1));
                        assert(sub.drop_last() =~= string_views(lines@.subrange(0, i as int)));
                    }
                    i += 1;
                }
                assert(lines@.subrange(0, lines.len() as int) =~= lines@);
                push_str(out, "*/");
            },
        }
    }

    /// The text of the comment.
    pub fn to_string(&self) -> (s: String)
        ensures
            s@ == spec_comment_sql(self@),
    {
        let mut s = String::new();
        self.write_sql(&mut s);
        s
    }
}

/// An optionally quoted SQL identifier.
#[derive(Clone, Debug, PartialEq, Eq, Hash)]
pub struct Ident {
    /// The value of the identifier, without the enclosing quotes.
    pub value: String,
    /// The quote character of a quoted (delimited) identifier: `"` in ANSI
    /// SQL and most dialects, also `` ` `` in MySQL.
    pub quote: Option<char>,
}

/// The abstract value of an identifier.
pub struct IdentView {
    /// The characters of the identifier.
    pub value: Seq<char>,
    /// The quote character.
    pub quote: Option<char>,
}

impl View for Ident {
    type V = IdentView;

    open spec fn view(&self) -> IdentView {
        IdentView { value: self.value@, quote: self.quote }
    }
}

/// Whether an identifier can be written out: it is unquoted, or quoted with
/// `"` or `` ` ``.
pub open spec fn ident_quote_ok(q: Option<char>) -> bool {
    q matches Some(c) ==> (c == '"' || c == '`')
}

/// The text of an identifier.
pub open spec fn spec_ident_sql(i: IdentView) -> Seq<char> {
    match i.quote {
        None => i.value,
        Some(q) => seq![q] + i.value + seq![q],
    }
}

impl Ident {
    /// Creates an unquoted identifier.
    pub fn new(value: &str) -> (i: Ident)
        ensures
            i@ == (IdentView { value: value@, quote: None }),
    {
        Ident { value: String::from_str(value), quote: None }
    }

    /// Creates an optionally quoted identifier.
    pub fn with_quote(value: &str, quote: Option<char>) -> (i: Ident)
        ensures
            i@ == (IdentView { value: value@, quote: quote }),
    {
        Ident { value: String::from_str(value), quote }
    }

    /// Appends the text of the identifier (quoted with its quote character).
    pub fn write_sql(&self, out: &mut String)
        requires
            ident_quote_ok(self.quote),
        ensures
            final(out)@ == old(out)@ + spec_ident_sql(self@),
    {
        match self.quote {
            None => push_str(out, self.value.as_str()),
            Some(q) => {
                push_char(out, q);
                push_str(out, self.value.as_str());
                push_char(out, q);
                assert(out@ =~= old(out)@ + spec_ident_sql(self@));
            },
        }
    }

    /// The text of the identifier.
    pub fn to_string(&self) -> (s: String)
        requires
            ident_quote_ok(self.quote),
        ensures
            s@ == spec_ident_sql(self@),
    {
        let mut s = String::new();
        self.write_sql(&mut s);
        s
    }
}

/// SQL token.
#[derive(Clone, Debug, PartialEq, Eq, Hash)]
pub enum Token {
    /// Whitespace (space, newline, tab).
    Whitespace(Whitespace),
    /// Single-line comment or multi-line comment.
    Comment(Comment),

    /// An unsigned numeric literal.
    Number(String),
    /// Character string literal, e.g. `'string'`.
    String(String),
    /// National character string literal, e.g. `N'string'`.
    NationalString(String),
    /// Bit string literal, e.g. `B'101010'`.
    BitString(String),
    /// Hexadecimal string literal, e.g. `X'deadbeef'`.
    HexString(String),
    /// An optionally quoted SQL identifier.
    Ident(Ident),
    /// A keyword, with its text as written.
    Keyword(Keyword, String),
    /// A character that could not be tokenized.
    Char(char),
    /// Comma `,`
    Comma,
    /// SemiColon `;`
    SemiColon,
    /// Period `.`
    Period,
    /// Colon `:`
    Colon,
    /// Double colon `::`
    DoubleColon,
    /// Left parenthesis `(`
    LeftParen,
    /// Right parenthesis `)`
    RightParen,
    /// Left bracket `[`
    LeftBracket,
    /// Right bracket `]`
    RightBracket,
    /// Left brace `{`
    LeftBrace,
    /// Right brace `}`
    RightBrace,
    /// Equal `=`
    Equal,
    /// Not equal `<>` or `!=`
    NotEqual,
    /// Less than `<`
    LessThan,
    /// Less than or equal `<=`
    LessThanOrEqual,
    /// Greater than `>`
    GreaterThan,
    /// Greater than or equal `>=`
    GreaterThanOrEqual,
    /// Left shift `<<`
    LeftShift,
    /// Right shift `>>`
    RightShift,
    /// Plus `+`
    Plus,
    /// Minus `-`
    Minus,
    /// Asterisk `*`
    Asterisk,
    /// Slash `/`
    Slash,
    /// Percent `%`
    Percent,
    /// Caret `^`
    Caret,
    /// Exclamation `!`
    Exclamation,
    /// Double exclamation `!!`
    DoubleExclamation,
    /// Question `?`
    Question,
    /// Tilde `~`
    Tilde,
    /// Ampersand `&`
    Ampersand,
    /// Pipe `|`
    Pipe,
    /// Concat `||`
    Concat,
    /// Backslash `\`
    Backslash,
    /// Sharp `#`
    Sharp,
    /// At `@`
    At,
}

/// The abstract value of a token.
pub enum TokenView {
    /// Whitespace.
    Whitespace(Whitespace),
    /// Comment.
    Comment(CommentView),
    /// An unsigned numeric literal.
    Number(Seq<char>),
    /// Character string literal, e.g. `'string'`.
    String(Seq<char>),
    /// National character string literal, e.g. `N'string'`.
    NationalString(Seq<char>),
    /// Bit string literal, e.g. `B'101010'`.
    BitString(Seq<char>),
    /// Hexadecimal string literal, e.g. `X'deadbeef'`.
    HexString(Seq<char>),
    /// Identifier.
    Ident(IdentView),
    /// Keyword.
    Keyword(Keyword, Seq<char>),
    /// Untokenizable character.
    Char(char),
    /// Comma `,`
    Comma,
    /// SemiColon `;`
    SemiColon,
    /// Period `.`
    Period,
    /// Colon `:`
    Colon,
    /// Double colon `::`
    DoubleColon,
    /// Left parenthesis `(`
    LeftParen,
    /// Right parenthesis `)`
    RightParen,
    /// Left bracket `[`
    LeftBracket,
    /// Right bracket `]`
    RightBracket,
    /// Left brace `{`
    LeftBrace,
    /// Right brace `}`
    RightBrace,
    /// Equal `=`
    Equal,
    /// Not equal `<>` or `!=`
    NotEqual,
    /// Less than `<`
    LessThan,
    /// Less than or equal `<=`
    LessThanOrEqual,
    /// Greater than `>`
    GreaterThan,
    /// Greater than or equal `>=`
    GreaterThanOrEqual,
    /// Left shift `<<`
    LeftShift,
    /// Right shift `>>`
    RightShift,
    /// Plus `+`
    Plus,
    /// Minus `-`
    Minus,
    /// Asterisk `*`
    Asterisk,
    /// Slash `/`
    Slash,
    /// Percent `%`
    Percent,
    /// Caret `^`
    Caret,
    /// Exclamation `!`
    Exclamation,
    /// Double exclamation `!!`
    DoubleExclamation,
    /// Question `?`
    Question,
    /// Tilde `~`
    Tilde,
    /// Ampersand `&`
    Ampersand,
    /// Pipe `|`
    Pipe,
    /// Concat `||`
    Concat,
    /// Backslash `\`
    Backslash,
    /// Sharp `#`
    Sharp,
    /// At `@`
    At,
}

impl View for Token {
    type V = TokenView;

    open spec fn view(&self) -> TokenView {
        match self {
            Token::Whitespace(w) => TokenView::Whitespace(*w),
            Token::Comment(c) => TokenView::Comment(c@),
            Token::Number(s) => TokenView::Number(s@),
            Token::String(s) => TokenView::String(s@),
            Token::NationalString(s) => TokenView::NationalString(s@),
            Token::BitString(s) => TokenView::BitString(s@),
            Token::HexString(s) => TokenView::HexString(s@),
            Token::Ident(i) => TokenView::Ident(i@),
            Token::Keyword(k, s) => TokenView::Keyword(*k, s@),
            Token::Char(c) => TokenView::Char(*c),
            Token::Comma => TokenView::Comma,
            Token::SemiColon => TokenView::SemiColon,
            Token::Period => TokenView::Period,
            Token::Colon => TokenView::Colon,
            Token::DoubleColon => TokenView::DoubleColon,
            Token::LeftParen => TokenView::LeftParen,
            Token::RightParen => TokenView::RightParen,
            Token::LeftBracket => TokenView::LeftBracket,
            Token::RightBracket => TokenView::RightBracket,
            Token::LeftBrace => TokenView::LeftBrace,
            Token::RightBrace => TokenView::RightBrace,
            Token::Equal => TokenView::Equal,
            Token::NotEqual => TokenView::NotEqual,
            Token::LessThan => TokenView::LessThan,
            Token::LessThanOrEqual => TokenView::LessThanOrEqual,
            Token::GreaterThan => TokenView::GreaterThan,
            Token::GreaterThanOrEqual => TokenView::GreaterThanOrEqual,
            Token::LeftShift => TokenView::LeftShift,
            Token::RightShift => TokenView::RightShift,
            Token::Plus => TokenView::Plus,
            Token::Minus => TokenView::Minus,
            Token::Asterisk => TokenView::Asterisk,
            Token::Slash => TokenView::Slash,
            Token::Percent => TokenView::Percent,
            Token::Caret => TokenView::Caret,
            Token::Exclamation => TokenView::Exclamation,
            Token::DoubleExclamation => TokenView::DoubleExclamation,
            Token::Question => TokenView::Question,
            Token::Tilde => TokenView::Tilde,
            Token::Ampersand => TokenView::Ampersand,
            Token::Pipe => TokenView::Pipe,
            Token::Concat => TokenView::Concat,
            Token::Backslash => TokenView::Backslash,
            Token::Sharp => TokenView::Sharp,
            Token::At => TokenView::At,
        }
    }
}

/// Whether a token can be written out (an identifier token must be
/// unquoted or quoted with `"` or `` ` ``).
pub open spec fn token_wf(t: TokenView) -> bool {
    t matches TokenView::Ident(i) ==> ident_quote_ok(i.quote)
}

/// The text of a token.
pub open spec fn spec_token_sql(t: TokenView) -> Seq<char> {
    match t {
        TokenView::Whitespace(w) => spec_whitespace_sql(w),
        TokenView::Comment(c) => spec_comment_sql(c),
        TokenView::Number(s) => s,
        TokenView::String(s) => "'"@ + s + "'"@,
        TokenView::NationalString(s) => "N'"@ + s + "'"@,
        TokenView::BitString(s) => "B'"@ + s + "'"@,
        TokenView::HexString(s) => "X'"@ + s + "'"@,
        TokenView::Ident(i) => spec_ident_sql(i),
        TokenView::Keyword(k, _) => spec_keyword_name(k),
        TokenView::Char(c) => seq![c],
        TokenView::Comma => ","@,
        TokenView::SemiColon => ";"@,
        TokenView::Period => "."@,
        TokenView::Colon => ":"@,
        TokenView::DoubleColon => "::"@,
        TokenView::LeftParen => "("@,
        TokenView::RightParen => ")"@,
        TokenView::LeftBracket => "["@,
        TokenView::RightBracket => "]"@,
        TokenView::LeftBrace => "{"@,
        TokenView::RightBrace => "}"@,
        TokenView::Equal => "="@,
        TokenView::NotEqual => "<>"@,
        TokenView::LessThan => "<"@,
        TokenView::LessThanOrEqual => "<="@,
        TokenView::GreaterThan => ">"@,
        TokenView::GreaterThanOrEqual => ">="@,
        TokenView::LeftShift => "<<"@,
        TokenView::RightShift => ">>"@,
        TokenView::Plus => "+"@,
        TokenView::Minus => "-"@,
        TokenView::Asterisk => "*"@,
        TokenView::Slash => "/"@,
        TokenView::Percent => "%"@,
        TokenView::Caret => "^"@,
        TokenView::Exclamation => "!"@,
        TokenView::DoubleExclamation => "!!"@,
        TokenView::Question => "?"@,
        TokenView::Tilde => "~"@,
        TokenView::Ampersand => "&"@,
        TokenView::Pipe => "|"@,
        TokenView::Concat => "||"@,
        TokenView::Backslash => "\\"@,
        TokenView::Sharp => "#"@,
        TokenView::At => "@"@,
    }
}

impl Token {
    /// Appends the text of the token.
    pub fn write_sql(&self, out: &mut String)
        requires
            token_wf(self@),
        ensures
            final(out)@ == old(out)@ + spec_token_sql(self@),
    {
        match self {
            Token::Whitespace(w) => w.write_sql(out),
            Token::Comment(c) => c.write_sql(out),
            Token::Number(s) => push_str(out, s.as_str()),
            Token::String(s) => {
                push_str(out, "'");
                push_str(out, s.as_str());
                push_str(out, "'");
            },
            Token::NationalString(s) => {
                push_str(out, "N'");
                push_str(out, s.as_str());
                push_str(out, "'");
            },
            Token::BitString(s) => {
                push_str(out, "B'");
                push_str(out, s.as_str());
                push_str(out, "'");
            },
            Token::HexString(s) => {
                push_str(out, "X'");
                push_str(out, s.as_str());
                push_str(out, "'");
            },
            Token::Ident(i) => i.write_sql(out),
            Token::Keyword(k, _) => push_str(out, k.as_str()),
            Token::Char(c) => {
                push_char(out, *c);
                assert(out@ =~= old(out)@ + seq![*c]);
            },
            Token::Comma => push_str(out, ","),
            Token::SemiColon => push_str(out, ";"),
            Token::Period => push_str(out, "."),
            Token::Colon => push_str(out, ":"),
            Token::DoubleColon => push_str(out, "::"),
            Token::LeftParen => push_str(out, "("),
            Token::RightParen => push_str(out, ")"),
            Token::LeftBracket => push_str(out, "["),
            Token::RightBracket => push_str(out, "]"),
            Token::LeftBrace => push_str(out, "{"),
            Token::RightBrace => push_str(out, "}"),
            Token::Equal => push_str(out, "="),
            Token::NotEqual => push_str(out, "<>"),
            Token::LessThan => push_str(out, "<"),
            Token::LessThanOrEqual => push_str(out, "<="),
            Token::GreaterThan => push_str(out, ">"),
            Token::GreaterThanOrEqual => push_str(out, ">="),
            Token::LeftShift => push_str(out, "<<"),
            Token::RightShift => push_str(out, ">>"),
            Token::Plus => push_str(out, "+"),
            Token::Minus => push_str(out, "-"),
            Token::Asterisk => push_str(out, "*"),
            Token::Slash => push_str(out, "/"),
            Token::Percent => push_str(out, "%"),
            Token::Caret => push_str(out, "^"),
            Token::Exclamation => push_str(out, "!"),
            Token::DoubleExclamation => push_str(out, "!!"),
            Token::Question => push_str(out, "?"),
            Token::Tilde => push_str(out, "~"),
            Token::Ampersand => push_str(out, "&"),
            Token::Pipe => push_str(out, "|"),
            Token::Concat => push_str(out, "||"),
            Token::Backslash => push_str(out, "\\"),
            Token::Sharp => push_str(out, "#"),
            Token::At => push_str(out, "@"),
        }
    }

    /// The text of the token.
    pub fn to_string(&self) -> (s: String)
        requires
            token_wf(self@),
        ensures
            s@ == spec_token_sql(self@),
    {
        let mut s = String::new();
        self.write_sql(&mut s);
        s
    }

    /// Creates a keyword token if the upper case form of `keyword` is a
    /// keyword of the keyword definition `K`; the token holds the keyword's
    /// own upper-case text.
    pub fn keyword<K: KeywordDef>(keyword: &str) -> (t: Option<Token>)
        ensures
            t matches Some(tok) ==> tok@ == TokenView::Keyword(
                spec_lookup_keyword(spec_to_uppercase(keyword@))->0,
                spec_keyword_name(spec_lookup_keyword(spec_to_uppercase(keyword@))->0),
            ),
            t is Some <==> (spec_lookup_keyword(spec_to_uppercase(keyword@)) matches Some(k)
                && K::spec_contains(k)),
    {
        let upper = to_uppercase(keyword);
        match lookup_keyword(upper.as_str()) {
            Some(k) => {
                if K::contains(k) {
                    Some(Token::Keyword(k, String::from_str(k.as_str())))
                } else {
                    None
                }
            },
            None => None,
        }
    }

    /// Creates an optionally quoted SQL identifier.
    pub fn ident(value: &str, quote: Option<char>) -> (t: Token)
        ensures
            t@ == TokenView::Ident(IdentView { value: value@, quote }),
    {
        Token::Ident(Ident { value: String::from_str(value), quote })
    }

    /// Whether the token is whitespace.
    pub fn is_whitespace(&self) -> (b: bool)
        ensures
            b == (self@ is Whitespace),
    {
        match self {
            Token::Whitespace(_) => true,
            _ => false,
        }
    }

    /// Whether the token is a comment.
    pub fn is_comment(&self) -> (b: bool)
        ensures
            b == (self@ is Comment),
    {
        match self {
            Token::Comment(_) => true,
            _ => false,
        }
    }
    /// A copy of the token.
    pub fn clone_token(&self) -> (t: Token)
        ensures
            t@ == self@,
    {
        match self {
            Token::Whitespace(w) => Token::Whitespace(*w),
            Token::Comment(c) => Token::Comment(c.clone_comment()),
            Token::Number(s) => Token::Number(s.clone()),
            Token::String(s) => Token::String(s.clone()),
            Token::NationalString(s) => Token::NationalString(s.clone()),
            Token::BitString(s) => Token::BitString(s.clone()),
            Token::HexString(s) => Token::HexString(s.clone()),
            Token::Ident(i) => Token::Ident(Ident { value: i.value.clone(), quote: i.quote }),
            Token::Keyword(k, s) => Token::Keyword(*k, s.clone()),
            Token::Char(c) => Token::Char(*c),
            Token::Comma => Token::Comma,
            Token::SemiColon => Token::SemiColon,
            Token::Period => Token::Period,
            Token::Colon => Token::Colon,
            Token::DoubleColon => Token::DoubleColon,
            Token::LeftParen => Token::LeftParen,
            Token::RightParen => Token::RightParen,
            Token::LeftBracket => Token::LeftBracket,
            Token::RightBracket => Token::RightBracket,
            Token::LeftBrace => Token::LeftBrace,
            Token::RightBrace => Token::RightBrace,
            Token::Equal => Token::Equal,
            Token::NotEqual => Token::NotEqual,
            Token::LessThan => Token::LessThan,
            Token::LessThanOrEqual => Token::LessThanOrEqual,
            Token::GreaterThan => Token::GreaterThan,
            Token::GreaterThanOrEqual => Token::GreaterThanOrEqual,
            Token::LeftShift => Token::LeftShift,
            Token::RightShift => Token::RightShift,
            Token::Plus => Token::Plus,
            Token::Minus => Token::Minus,
            Token::Asterisk => Token::Asterisk,
            Token::Slash => Token::Slash,
            Token::Percent => Token::Percent,
            Token::Caret => Token::Caret,
            Token::Exclamation => Token::Exclamation,
            Token::DoubleExclamation => Token::DoubleExclamation,
            Token::Question => Token::Question,
            Token::Tilde => Token::Tilde,
            Token::Ampersand => Token::Ampersand,
            Token::Pipe => Token::Pipe,
            Token::Concat => Token::Concat,
            Token::Backslash => Token::Backslash,
            Token::Sharp => Token::Sharp,
            Token::At => Token::At,
        }
    }

    /// Whether the token is the keyword `keyword`.
    pub fn is_keyword(&self, keyword: Keyword) -> (b: bool)
        ensures
            b == is_keyword_token(self@, keyword),
    {
        match self {
            Token::Keyword(k, _) => *k == keyword,
            _ => false,
        }
    }

    /// The first of `keywords` that the token is, if it is one of them.
    pub fn is_one_of_keywords(&self, keywords: &[Keyword]) -> (r: Option<Keyword>)
        ensures
            r == spec_first_keyword_of(self@, keywords@),
    {
        let mut i: usize = 0;
        assert(keywords@.skip(0) =~= keywords@);
        while i < keywords.len()
            invariant
                i <= keywords@.len(),
                spec_first_keyword_of(self@, keywords@) == spec_first_keyword_of(
                    self@,
                    keywords@.skip(i as int),
                ),
            decreases keywords@.len() - i,
        {
            assert(keywords@.skip(i as int).drop_first() =~= keywords@.skip(i + 1));
            if self.is_keyword(keywords[i]) {
                return Some(keywords[i]);
            }
            i += 1;
        }
        assert(keywords@.skip(i as int) =~= Seq::<Keyword>::empty());
        None
    }

    /// Whether the two tokens are the same token.
    pub fn equals(&self, other: &Token) -> (b: bool)
        ensures
            b == (self@ == other@),
    {
        match (self, other) {
            (Token::Whitespace(a), Token::Whitespace(b)) => *a == *b,
            (Token::Comment(a), Token::Comment(b)) => a.equals(b),
            (Token::Number(a), Token::Number(b)) => string_equals(a, b),
            (Token::String(a), Token::String(b)) => string_equals(a, b),
            (Token::NationalString(a), Token::NationalString(b)) => string_equals(a, b),
            (Token::BitString(a), Token::BitString(b)) => string_equals(a, b),
            (Token::HexString(a), Token::HexString(b)) => string_equals(a, b),
            (Token::Ident(a), Token::Ident(b)) => string_equals(&a.value, &b.value) && a.quote == b.quote,
            (Token::Keyword(a, x), Token::Keyword(b, y)) => *a == *b && string_equals(x, y),
            (Token::Char(a), Token::Char(b)) => *a == *b,
            (Token::Comma, Token::Comma) => true,
            (Token::SemiColon, Token::SemiColon) => true,
            (Token::Period, Token::Period) => true,
            (Token::Colon, Token::Colon) => true,
            (Token::DoubleColon, Token::DoubleColon) => true,
            (Token::LeftParen, Token::LeftParen) => true,
            (Token::RightParen, Token::RightParen) => true,
            (Token::LeftBracket, Token::LeftBracket) => true,
            (Token::RightBracket, Token::RightBracket) => true,
            (Token::LeftBrace, Token::LeftBrace) => true,
            (Token::RightBrace, Token::RightBrace) => true,
            (Token::Equal, Token::Equal) => true,
            (Token::NotEqual, Token::NotEqual) => true,
            (Token::LessThan, Token::LessThan) => true,
            (Token::LessThanOrEqual, Token::LessThanOrEqual) => true,
            (Token::GreaterThan, Token::GreaterThan) => true,
            (Token::GreaterThanOrEqual, Token::GreaterThanOrEqual) => true,
            (Token::LeftShift, Token::LeftShift) => true,
            (Token::RightShift, Token::RightShift) => true,
            (Token::Plus, Token::Plus) => true,
            (Token::Minus, Token::Minus) => true,
            (Token::Asterisk, Token::Asterisk) => true,
            (Token::Slash, Token::Slash) => true,
            (Token::Percent, Token::Percent) => true,
            (Token::Caret, Token::Caret) => true,
            (Token::Exclamation, Token::Exclamation) => true,
            (Token::DoubleExclamation, Token::DoubleExclamation) => true,
            (Token::Question, Token::Question) => true,
            (Token::Tilde, Token::Tilde) => true,
            (Token::Ampersand, Token::Ampersand) => true,
            (Token::Pipe, Token::Pipe) => true,
            (Token::Concat, Token::Concat) => true,
            (Token::Backslash, Token::Backslash) => true,
            (Token::Sharp, Token::Sharp) => true,
            (Token::At, Token::At) => true,
            _ => false,
        }
    }
}

impl Comment {
    /// A copy of the comment.
    pub fn clone_comment(&self) -> (c: Comment)
        ensures
            c@ == self@,
    {
        match self {
            Comment::SingleLine { prefix, comment } => Comment::SingleLine {
                prefix: prefix.clone(),
                comment: comment.clone(),
            },
            Comment::MultiLine(lines) => {
                let mut v: Vec<String> = Vec::new();
                let mut i: usize = 0;
                while i < lines.len()
                    invariant
                        i <= lines@.len(),
                        v@.len() == i,
                        forall|j: int| 0 <= j < i ==> v@[j]@ == lines@[j]@,
                    decreases lines@.len() - i,
                {
                    v.push(lines[i].clone());
                    i += 1;
                }
                assert(string_views(v@) =~= string_views(lines@));
                Comment::MultiLine(v)
            },
        }
    }

    /// Whether the two comments are the same comment.
    pub fn equals(&self, other: &Comment) -> (b: bool)
        ensures
            b == (self@ == other@),
    {
        match (self, other) {
            (
                Comment::SingleLine { prefix: p1, comment: c1 },
                Comment::SingleLine { prefix: p2, comment: c2 },
            ) => string_equals(p1, p2) && string_equals(c1, c2),
            (Comment::MultiLine(a), Comment::MultiLine(b)) => {
                if a.len() != b.len() {
                    assert(string_views(a@).len() != string_views(b@).len());
                    assert(string_views(a@) != string_views(b@));
                    return false;
                }
                let mut i: usize = 0;
                while i < a.len()
                    invariant
                        i <= a@.len(),
                        a@.len() == b@.len(),
                        self@ == CommentView::MultiLine(string_views(a@)),
                        other@ == CommentView::MultiLine(string_views(b@)),
                        forall|j: int| 0 <= j < i ==> a@[j]@ == b@[j]@,
                    decreases a@.len() - i,
                {
                    if !string_equals(&a[i], &b[i]) {
                        assert(string_views(a@)[i as int] != string_views(b@)[i as int]);
                        assert(string_views(a@) != string_views(b@));
                        return false;
                    }
                    i += 1;
                }
                assert(string_views(a@) =~= string_views(b@));
                true
            },
            _ => false,
        }
    }
}

/// Whether the token is the keyword `k`.
pub open spec fn is_keyword_token(t: TokenView, k: Keyword) -> bool {
    t matches TokenView::Keyword(k2, _) && k2 == k
}

/// The first of `keywords` that the token is, if it is one of them.
pub open spec fn spec_first_keyword_of(t: TokenView, keywords: Seq<Keyword>) -> Option<Keyword>
    decreases keywords.len(),
{
    if keywords.len() == 0 {
        None
    } else if is_keyword_token(t, keywords[0]) {
        Some(keywords[0])
    } else {
        spec_first_keyword_of(t, keywords.drop_first())
    }
}

} // verus!
