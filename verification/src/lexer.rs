//! The SQL lexer: converts a string into a sequence of tokens.
use vstd::prelude::*;

use crate::dialect::{ascii_digit, is_ascii_digit, Dialect, DialectLexerConf, KeywordDef};
use crate::error::{spec_advance, spec_advance_over, LexerError, Location};
use crate::keyword::{lookup_keyword, spec_lookup_keyword};
use crate::keyword_table::spec_keyword_name;
use crate::text::{chars_of, push_char, push_str, spec_to_uppercase, string_of, to_uppercase};
use crate::token::{
    spec_token_sql,
    string_views, Comment, CommentView, Ident, IdentView, Token, TokenView, Whitespace,
};

verus! {

// ============================================================================
// Specification
// ============================================================================

/// The outcome of scanning one token at a position of the input.
pub enum LexStep {
    /// The input is exhausted.
    End,
    /// A token, the position after it and the location after it.
    Token(TokenView, usize, Location),
    /// An error message and its location.
    Error(Seq<char>, Location),
}

/// The outcome of scanning a piece of text.
pub enum Scan {
    /// The text, the position after it and the location after it.
    Found(Seq<char>, usize, Location),
    /// An error message and its location.
    Failed(Seq<char>, Location),
}

/// The first position at or after `pos` whose character does not satisfy
/// `pred` (or the end of the input).
pub open spec fn scan_while(s: Seq<char>, pos: int, pred: spec_fn(char) -> bool) -> int
    decreases s.len() - pos,
{
    if 0 <= pos < s.len() && pred(s[pos]) {
        scan_while(s, pos + 1, pred)
    } else {
        pos
    }
}

/// The predicate "is not the character `c`".
pub open spec fn not_char(c: char) -> spec_fn(char) -> bool {
    |x: char| x != c
}

/// The predicate "is an ASCII digit".
pub open spec fn digit_pred() -> spec_fn(char) -> bool {
    |x: char| is_ascii_digit(x)
}

/// The predicate "may continue an unquoted identifier" of a lexer configuration.
pub open spec fn ident_part_pred<C: DialectLexerConf>(conf: C) -> spec_fn(char) -> bool {
    |x: char| conf.spec_is_identifier_part(x)
}

/// Whether position `i` of `s` holds the character `c`.
pub open spec fn char_at(s: Seq<char>, i: int, c: char) -> bool {
    0 <= i < s.len() && s[i] == c
}

/// The word token for an unquoted identifier text: a keyword token if the
/// upper case text is a keyword of the dialect, an identifier token otherwise.
pub open spec fn spec_make_word<K: KeywordDef>(text: Seq<char>) -> TokenView {
    match spec_lookup_keyword(spec_to_uppercase(text)) {
        Some(k) => if K::spec_contains(k) {
            TokenView::Keyword(k, spec_keyword_name(k))
        } else {
            TokenView::Ident(IdentView { value: text, quote: None })
        },
        None => TokenView::Ident(IdentView { value: text, quote: None }),
    }
}

/// The whitespace token at `pos`.
pub open spec fn spec_whitespace(s: Seq<char>, pos: usize, loc: Location) -> LexStep {
    let ch = s[pos as int];
    if ch == ' ' {
        LexStep::Token(
            TokenView::Whitespace(Whitespace::Space),
            (pos + 1) as usize,
            Location { line: loc.line, column: (loc.column + 1) as usize },
        )
    } else if ch == '\t' {
        LexStep::Token(
            TokenView::Whitespace(Whitespace::Tab),
            (pos + 1) as usize,
            Location { line: loc.line, column: (loc.column + 1) as usize },
        )
    } else {
        // a `\r\n` pair is a single line break
        let next = if ch == '\r' && char_at(s, pos + 1, '\n') {
            pos + 2
        } else {
            pos + 1
        };
        LexStep::Token(
            TokenView::Whitespace(Whitespace::Newline),
            next as usize,
            Location { line: (loc.line + 1) as usize, column: 1 },
        )
    }
}

/// The string literal whose text starts at `start` (after the opening
/// quotation mark).
pub open spec fn spec_string_literal(s: Seq<char>, start: usize, loc: Location, quote: char) -> Scan {
    let end = scan_while(s, start as int, not_char(quote));
    let lend = spec_advance_over(loc, s, start as int, end);
    if end < s.len() {
        Scan::Found(s.subrange(start as int, end), (end + 1) as usize, spec_advance(lend, quote))
    } else {
        Scan::Failed("Unterminated string literal"@, lend)
    }
}

/// The message for a delimited identifier without its closing quote.
pub open spec fn spec_close_delimiter_message(close: char) -> Seq<char> {
    "Expected close delimiter '"@ + seq![close] + "' before EOF"@
}

/// The delimited identifier whose text starts at `start` (after the opening
/// quotation mark `open`).
pub open spec fn spec_delimited_ident(s: Seq<char>, start: usize, loc: Location, open: char) -> Scan {
    if open != '"' && open != '`' {
        Scan::Failed("Unexpected quoting style"@, loc)
    } else {
        let end = scan_while(s, start as int, not_char(open));
        let lend = spec_advance_over(loc, s, start as int, end);
        if end < s.len() {
            Scan::Found(s.subrange(start as int, end), (end + 1) as usize, spec_advance(lend, open))
        } else {
            Scan::Failed(spec_close_delimiter_message(open), lend)
        }
    }
}

/// The identifier (or keyword) whose first character is at `pos`.
pub open spec fn spec_ident<D: Dialect>(d: D, s: Seq<char>, pos: usize, loc: Location) -> LexStep {
    let p1 = pos + 1;
    let end = scan_while(s, p1, ident_part_pred(d.spec_lexer_conf()));
    LexStep::Token(
        spec_make_word::<D::Keyword>(s.subrange(pos as int, end)),
        end as usize,
        spec_advance_over(spec_advance(loc, s[pos as int]), s, p1, end),
    )
}

/// The number literal (or period) that starts at `pos`.
pub open spec fn spec_number(s: Seq<char>, pos: usize, loc: Location) -> LexStep {
    let e1 = scan_while(s, pos as int, digit_pred());
    let e2 = if char_at(s, e1, '.') {
        e1 + 1
    } else {
        e1
    };
    let e3 = scan_while(s, e2, digit_pred());
    let text = s.subrange(pos as int, e3);
    LexStep::Token(
        if text == seq!['.'] {
            TokenView::Period
        } else {
            TokenView::Number(text)
        },
        e3 as usize,
        spec_advance_over(loc, s, pos as int, e3),
    )
}

/// The single-character token of a symbol character.
pub open spec fn spec_symbol_base(ch: char) -> TokenView {
    if ch == ',' { TokenView::Comma }
    else if ch == ';' { TokenView::SemiColon }
    else if ch == ':' { TokenView::Colon }
    else if ch == '(' { TokenView::LeftParen }
    else if ch == ')' { TokenView::RightParen }
    else if ch == '[' { TokenView::LeftBracket }
    else if ch == ']' { TokenView::RightBracket }
    else if ch == '{' { TokenView::LeftBrace }
    else if ch == '}' { TokenView::RightBrace }
    else if ch == '=' { TokenView::Equal }
    else if ch == '<' { TokenView::LessThan }
    else if ch == '>' { TokenView::GreaterThan }
    else if ch == '+' { TokenView::Plus }
    else if ch == '-' { TokenView::Minus }
    else if ch == '*' { TokenView::Asterisk }
    else if ch == '/' { TokenView::Slash }
    else if ch == '%' { TokenView::Percent }
    else if ch == '^' { TokenView::Caret }
    else if ch == '!' { TokenView::Exclamation }
    else if ch == '?' { TokenView::Question }
    else if ch == '~' { TokenView::Tilde }
    else if ch == '&' { TokenView::Ampersand }
    else if ch == '|' { TokenView::Pipe }
    else if ch == '\\' { TokenView::Backslash }
    else if ch == '#' { TokenView::Sharp }
    else if ch == '@' { TokenView::At }
    else { TokenView::Char(ch) }
}

/// The single-line comment whose text starts at `start` (after `--`); the
/// comment keeps its line break.
pub open spec fn spec_single_line_comment(s: Seq<char>, start: usize, loc: Location) -> LexStep {
    let end = scan_while(s, start as int, not_char('\n'));
    let lend = spec_advance_over(loc, s, start as int, end);
    if end < s.len() {
        LexStep::Token(
            TokenView::Comment(
                CommentView::SingleLine { prefix: "--"@, comment: s.subrange(start as int, end + 1) },
            ),
            (end + 1) as usize,
            spec_advance(lend, '\n'),
        )
    } else {
        LexStep::Token(
            TokenView::Comment(
                CommentView::SingleLine { prefix: "--"@, comment: s.subrange(start as int, end) },
            ),
            end as usize,
            lend,
        )
    }
}

/// Scans the rest of a multi-line comment from `pos`, with `nested` comments
/// open and the text `acc` read so far. Nested comments keep their
/// delimiters in the text.
pub open spec fn spec_multi_line_scan(
    s: Seq<char>,
    pos: int,
    loc: Location,
    nested: nat,
    acc: Seq<char>,
) -> Scan
    decreases s.len() - pos,
{
    if pos < 0 || pos >= s.len() {
        Scan::Failed("Unexpected EOF while in a multi-line comment"@, loc)
    } else {
        let ch = s[pos];
        let l1 = spec_advance(loc, ch);
        if ch == '*' && char_at(s, pos + 1, '/') {
            let l2 = spec_advance(l1, '/');
            if nested <= 1 {
                Scan::Found(acc, (pos + 2) as usize, l2)
            } else {
                spec_multi_line_scan(s, pos + 2, l2, (nested - 1) as nat, acc + seq!['*', '/'])
            }
        } else if ch == '/' && char_at(s, pos + 1, '*') {
            spec_multi_line_scan(s, pos + 2, spec_advance(l1, '*'), nested + 1, acc + seq!['/', '*'])
        } else {
            spec_multi_line_scan(s, pos + 1, l1, nested, acc.push(ch))
        }
    }
}

/// The text split at its line breaks.
pub open spec fn split_lines(s: Seq<char>) -> Seq<Seq<char>>
    decreases s.len(),
{
    if s.len() == 0 {
        seq![Seq::empty()]
    } else {
        let lines = split_lines(s.drop_last());
        if s.last() == '\n' {
            lines.push(Seq::empty())
        } else {
            lines.update(lines.len() - 1, lines.last().push(s.last()))
        }
    }
}

/// The multi-line comment whose text starts at `start` (after `/*`).
pub open spec fn spec_multi_line_comment(s: Seq<char>, start: usize, loc: Location) -> LexStep {
    match spec_multi_line_scan(s, start as int, loc, 1, Seq::empty()) {
        Scan::Found(text, p, l) => LexStep::Token(
            TokenView::Comment(CommentView::MultiLine(split_lines(text))),
            p,
            l,
        ),
        Scan::Failed(m, l) => LexStep::Error(m, l),
    }
}

/// The symbol token at `pos`: one- and two-character operators, and comments.
pub open spec fn spec_symbol(s: Seq<char>, pos: usize, loc: Location) -> LexStep {
    let ch = s[pos as int];
    let p1 = (pos + 1) as usize;
    let p2 = (pos + 2) as usize;
    let l1 = spec_advance(loc, ch);
    let base = spec_symbol_base(ch);
    match base {
        TokenView::Colon => if char_at(s, p1 as int, ':') {
            LexStep::Token(TokenView::DoubleColon, p2, spec_advance(l1, ':'))
        } else {
            LexStep::Token(base, p1, l1)
        },
        TokenView::LessThan => if char_at(s, p1 as int, '>') {
            LexStep::Token(TokenView::NotEqual, p2, spec_advance(l1, '>'))
        } else if char_at(s, p1 as int, '=') {
            LexStep::Token(TokenView::LessThanOrEqual, p2, spec_advance(l1, '='))
        } else if char_at(s, p1 as int, '<') {
            LexStep::Token(TokenView::LeftShift, p2, spec_advance(l1, '<'))
        } else {
            LexStep::Token(base, p1, l1)
        },
        TokenView::GreaterThan => if char_at(s, p1 as int, '=') {
            LexStep::Token(TokenView::GreaterThanOrEqual, p2, spec_advance(l1, '='))
        } else if char_at(s, p1 as int, '>') {
            LexStep::Token(TokenView::RightShift, p2, spec_advance(l1, '>'))
        } else {
            LexStep::Token(base, p1, l1)
        },
        TokenView::Minus => if char_at(s, p1 as int, '-') {
            spec_single_line_comment(s, p2, spec_advance(l1, '-'))
        } else {
            LexStep::Token(base, p1, l1)
        },
        TokenView::Slash => if char_at(s, p1 as int, '*') {
            spec_multi_line_comment(s, p2, spec_advance(l1, '*'))
        } else {
            LexStep::Token(base, p1, l1)
        },
        TokenView::Exclamation => if char_at(s, p1 as int, '=') {
            LexStep::Token(TokenView::NotEqual, p2, spec_advance(l1, '='))
        } else if char_at(s, p1 as int, '!') {
            LexStep::Token(TokenView::DoubleExclamation, p2, spec_advance(l1, '!'))
        } else {
            LexStep::Token(base, p1, l1)
        },
        TokenView::Pipe => if char_at(s, p1 as int, '|') {
            LexStep::Token(TokenView::Concat, p2, spec_advance(l1, '|'))
        } else {
            LexStep::Token(base, p1, l1)
        },
        _ => LexStep::Token(base, p1, l1),
    }
}

/// Lexing a symbol is faithful to the text: the operator or punctuation
/// token read at `pos` takes one or two characters, and its text is exactly
/// the characters it took; the one exception is `!=`, which is read as the
/// not-equal operator and written `<>`.
pub proof fn law_symbol_token_is_its_text(s: Seq<char>, pos: usize, loc: Location)
    requires
        pos < s.len(),
        s.len() <= usize::MAX,
    ensures
        spec_symbol(s, pos, loc) matches LexStep::Token(t, p, _) ==> (!(t is Comment) ==> (pos
            < p <= s.len() && (spec_token_sql(t) == s.subrange(pos as int, p as int) || (t
            == TokenView::NotEqual && s.subrange(pos as int, p as int) == "!="@)))),
{
    reveal_strlit(",");
    reveal_strlit(";");
    reveal_strlit(":");
    reveal_strlit("::");
    reveal_strlit("(");
    reveal_strlit(")");
    reveal_strlit("[");
    reveal_strlit("]");
    reveal_strlit("{");
    reveal_strlit("}");
    reveal_strlit("=");
    reveal_strlit("<>");
    reveal_strlit("!=");
    reveal_strlit("<");
    reveal_strlit("<=");
    reveal_strlit("<<");
    reveal_strlit(">");
    reveal_strlit(">=");
    reveal_strlit(">>");
    reveal_strlit("+");
    reveal_strlit("-");
    reveal_strlit("*");
    reveal_strlit("/");
    reveal_strlit("%");
    reveal_strlit("^");
    reveal_strlit("!");
    reveal_strlit("!!");
    reveal_strlit("?");
    reveal_strlit("~");
    reveal_strlit("&");
    reveal_strlit("|");
    reveal_strlit("||");
    reveal_strlit("\\");
    reveal_strlit("#");
    reveal_strlit("@");
    let ch = s[pos as int];
    assert(s.subrange(pos as int, pos + 1) =~= seq![ch]);
    if pos + 1 < s.len() {
        assert(s.subrange(pos as int, pos + 2) =~= seq![ch, s[pos + 1]]);
    }
}

/// The string-literal token of a prefixed literal (`N'..'`, `X'..'`, `B'..'`)
/// or the identifier that starts with the prefix letter.
pub open spec fn spec_prefixed<D: Dialect>(
    d: D,
    s: Seq<char>,
    pos: usize,
    loc: Location,
    kind: int,
) -> LexStep {
    let p1 = (pos + 1) as usize;
    let l1 = spec_advance(loc, s[pos as int]);
    if char_at(s, p1 as int, '\'') {
        match spec_string_literal(s, (p1 + 1) as usize, spec_advance(l1, '\''), '\'') {
            Scan::Found(text, p, l) => LexStep::Token(
                if kind == 0 {
                    TokenView::NationalString(text)
                } else if kind == 1 {
                    TokenView::HexString(text)
                } else {
                    TokenView::BitString(text)
                },
                p,
                l,
            ),
            Scan::Failed(m, l) => LexStep::Error(m, l),
        }
    } else {
        spec_ident(d, s, pos, loc)
    }
}

/// The token that starts at `pos` of the input `s`, with the location `loc`.
pub open spec fn spec_next_token<D: Dialect>(d: D, s: Seq<char>, pos: usize, loc: Location) -> LexStep {
    if pos >= s.len() {
        LexStep::End
    } else {
        let ch = s[pos as int];
        let conf = d.spec_lexer_conf();
        if ch == ' ' || ch == '\t' || ch == '\n' || ch == '\r' {
            spec_whitespace(s, pos, loc)
        } else if ch == 'N' || ch == 'n' {
            spec_prefixed(d, s, pos, loc, 0)
        } else if ch == 'X' || ch == 'x' {
            spec_prefixed(d, s, pos, loc, 1)
        } else if ch == 'B' || ch == 'b' {
            spec_prefixed(d, s, pos, loc, 2)
        } else if conf.spec_is_string_literal_quotation(ch) {
            match spec_string_literal(s, (pos + 1) as usize, spec_advance(loc, ch), ch) {
                Scan::Found(text, p, l) => LexStep::Token(TokenView::String(text), p, l),
                Scan::Failed(m, l) => LexStep::Error(m, l),
            }
        } else if conf.spec_is_delimited_identifier_start(ch) {
            match spec_delimited_ident(s, (pos + 1) as usize, spec_advance(loc, ch), ch) {
                Scan::Found(text, p, l) => LexStep::Token(
                    TokenView::Ident(IdentView { value: text, quote: Some(ch) }),
                    p,
                    l,
                ),
                Scan::Failed(m, l) => LexStep::Error(m, l),
            }
        } else if conf.spec_is_identifier_start(ch) {
            spec_ident(d, s, pos, loc)
        } else if is_ascii_digit(ch) || ch == '.' {
            spec_number(s, pos, loc)
        } else {
            spec_symbol(s, pos, loc)
        }
    }
}

/// Whether the token `t` was read from the characters `w`: its text is `w`,
/// save for the differences that reading allows. A keyword is written in
/// its canonical upper case form; `!=` is written `<>`; a line break read
/// as `\r` or `\r\n` is written `\n`; a prefixed string is written with
/// its prefix letter in upper case; a string is read between any quotation
/// mark of the dialect and written between single quotes; a single-line
/// comment is its prefix and its text. Multi-line comments are not
/// covered here.
pub open spec fn token_read_from(t: TokenView, w: Seq<char>) -> bool {
    match t {
        TokenView::Keyword(k, _) => spec_keyword_name(k) == spec_to_uppercase(w),
        TokenView::NotEqual => w == "<>"@ || w == "!="@,
        TokenView::Whitespace(Whitespace::Newline) => w == "\n"@ || w == "\r"@ || w == "\r\n"@,
        TokenView::String(x) => w.len() >= 2 && w == seq![w[0]] + x + seq![w[0]],
        TokenView::NationalString(_) | TokenView::HexString(_) | TokenView::BitString(_) => {
            let sql = spec_token_sql(t);
            &&& w.len() == sql.len()
            &&& w.len() > 0
            &&& (w[0] == sql[0] || w[0] as u32 == sql[0] as u32 + 32)
            &&& w.skip(1) == sql.skip(1)
        },
        TokenView::Comment(c) => match c {
            CommentView::SingleLine { prefix, comment } => w == prefix + comment,
            CommentView::MultiLine(_) => true,
        },
        _ => spec_token_sql(t) == w,
    }
}

/// Whether a lexing step read a token from the characters it took.
pub open spec fn step_reads_text(step: LexStep, s: Seq<char>, pos: usize) -> bool {
    step matches LexStep::Token(t, p, _) ==> pos < p <= s.len() && token_read_from(
        t,
        s.subrange(pos as int, p as int),
    )
}

proof fn lemma_whitespace_read(s: Seq<char>, pos: usize, loc: Location)
    requires
        pos < s.len(),
        s.len() <= usize::MAX,
        s[pos as int] == ' ' || s[pos as int] == '\t' || s[pos as int] == '\n' || s[pos as int] == '\r',
    ensures
        step_reads_text(spec_whitespace(s, pos, loc), s, pos),
{
    reveal_strlit("\n");
    reveal_strlit("\r");
    reveal_strlit("\r\n");
    reveal_strlit(" ");
    reveal_strlit("\t");
    let ch = s[pos as int];
    assert(s.subrange(pos as int, pos + 1) =~= seq![ch]);
    assert(seq!['\n'] =~= "\n"@);
    assert(seq!['\r'] =~= "\r"@);
    assert(seq![' '] =~= " "@);
    assert(seq!['\t'] =~= "\t"@);
    if pos + 1 < s.len() {
        assert(s.subrange(pos as int, pos + 2) =~= seq![ch, s[pos + 1]]);
        assert(seq!['\r', '\n'] =~= "\r\n"@);
    }
}

proof fn lemma_quoted_read(s: Seq<char>, pos: usize, loc: Location, quote: char)
    requires
        pos < s.len(),
        s.len() <= usize::MAX,
        s[pos as int] == quote,
    ensures
        spec_string_literal(s, (pos + 1) as usize, loc, quote) matches Scan::Found(text, p, _)
            ==> pos < p <= s.len() && s.subrange(pos as int, p as int) == seq![quote] + text
            + seq![quote],
{
    let end = scan_while(s, pos + 1, not_char(quote));
    lemma_scan_while(s, pos + 1, not_char(quote));
    if end < s.len() {
        assert(s.subrange(pos as int, end + 1) =~= seq![quote] + s.subrange(pos + 1, end) + seq![
            quote,
        ]);
    }
}

proof fn lemma_delimited_read(s: Seq<char>, pos: usize, loc: Location, quote: char)
    requires
        pos < s.len(),
        s.len() <= usize::MAX,
        s[pos as int] == quote,
    ensures
        spec_delimited_ident(s, (pos + 1) as usize, loc, quote) matches Scan::Found(text, p, _)
            ==> pos < p <= s.len() && s.subrange(pos as int, p as int) == seq![quote] + text
            + seq![quote],
{
    let end = scan_while(s, pos + 1, not_char(quote));
    lemma_scan_while(s, pos + 1, not_char(quote));
    if end < s.len() {
        assert(s.subrange(pos as int, end + 1) =~= seq![quote] + s.subrange(pos + 1, end) + seq![
            quote,
        ]);
    }
}

proof fn lemma_word_read<K: KeywordDef>(w: Seq<char>)
    ensures
        token_read_from(spec_make_word::<K>(w), w),
{
    crate::keyword::lemma_lookup_keyword_name(spec_to_uppercase(w));
}

proof fn lemma_ident_read<D: Dialect>(d: D, s: Seq<char>, pos: usize, loc: Location)
    requires
        pos < s.len(),
        s.len() <= usize::MAX,
    ensures
        step_reads_text(spec_ident(d, s, pos, loc), s, pos),
{
    lemma_scan_while(s, pos + 1, ident_part_pred(d.spec_lexer_conf()));
    let end = scan_while(s, pos + 1, ident_part_pred(d.spec_lexer_conf()));
    lemma_word_read::<D::Keyword>(s.subrange(pos as int, end));
}

proof fn lemma_prefixed_read<D: Dialect>(d: D, s: Seq<char>, pos: usize, loc: Location, kind: int)
    requires
        pos < s.len(),
        s.len() <= usize::MAX,
        kind == 0 ==> s[pos as int] == 'N' || s[pos as int] == 'n',
        kind == 1 ==> s[pos as int] == 'X' || s[pos as int] == 'x',
        kind != 0 && kind != 1 ==> s[pos as int] == 'B' || s[pos as int] == 'b',
    ensures
        step_reads_text(spec_prefixed(d, s, pos, loc, kind), s, pos),
{
    reveal_strlit("N'");
    reveal_strlit("X'");
    reveal_strlit("B'");
    reveal_strlit("'");
    if char_at(s, pos + 1, '\'') {
        let end = scan_while(s, pos + 2, not_char('\''));
        lemma_scan_while(s, pos + 2, not_char('\''));
        if end < s.len() {
            let text = s.subrange(pos + 2, end);
            let w = s.subrange(pos as int, end + 1);
            assert(w.skip(1) =~= "'"@ + text + "'"@);
            assert(("N'"@ + text + "'"@).skip(1) =~= "'"@ + text + "'"@);
            assert(("X'"@ + text + "'"@).skip(1) =~= "'"@ + text + "'"@);
            assert(("B'"@ + text + "'"@).skip(1) =~= "'"@ + text + "'"@);
        }
    } else {
        lemma_ident_read(d, s, pos, loc);
    }
}

proof fn lemma_number_read(s: Seq<char>, pos: usize, loc: Location)
    requires
        pos < s.len(),
        s.len() <= usize::MAX,
        is_ascii_digit(s[pos as int]) || s[pos as int] == '.',
    ensures
        step_reads_text(spec_number(s, pos, loc), s, pos),
{
    let e1 = scan_while(s, pos as int, digit_pred());
    lemma_scan_while(s, pos as int, digit_pred());
    let e2 = if char_at(s, e1, '.') {
        e1 + 1
    } else {
        e1
    };
    lemma_scan_while(s, e2, digit_pred());
    reveal_strlit(".");
    assert(seq!['.'] =~= "."@);
}

proof fn lemma_multi_line_scan_bounds(s: Seq<char>, pos: int, loc: Location, nested: nat, acc: Seq<char>)
    requires
        0 <= pos,
        s.len() <= usize::MAX,
    ensures
        spec_multi_line_scan(s, pos, loc, nested, acc) matches Scan::Found(_, p, _) ==> pos < p
            <= s.len(),
    decreases s.len() - pos,
{
    if 0 <= pos < s.len() {
        let ch = s[pos];
        let l1 = spec_advance(loc, ch);
        if ch == '*' && char_at(s, pos + 1, '/') {
            if nested > 1 {
                lemma_multi_line_scan_bounds(s, pos + 2, spec_advance(l1, '/'), (nested - 1) as nat, acc + seq!['*', '/']);
            }
        } else if ch == '/' && char_at(s, pos + 1, '*') {
            lemma_multi_line_scan_bounds(s, pos + 2, spec_advance(l1, '*'), nested + 1, acc + seq!['/', '*']);
        } else {
            lemma_multi_line_scan_bounds(s, pos + 1, l1, nested, acc.push(ch));
        }
    }
}

proof fn lemma_symbol_read(s: Seq<char>, pos: usize, loc: Location)
    requires
        pos < s.len(),
        s.len() <= usize::MAX,
    ensures
        step_reads_text(spec_symbol(s, pos, loc), s, pos),
{
    law_symbol_token_is_its_text(s, pos, loc);
    reveal_strlit("--");
    reveal_strlit("<>");
    reveal_strlit("!=");
    let ch = s[pos as int];
    if ch == '-' && char_at(s, pos + 1, '-') {
        let end = scan_while(s, pos + 2, not_char('\n'));
        lemma_scan_while(s, pos + 2, not_char('\n'));
        if end < s.len() {
            assert(s.subrange(pos as int, end + 1) =~= "--"@ + s.subrange(pos + 2, end + 1));
        } else {
            assert(s.subrange(pos as int, end) =~= "--"@ + s.subrange(pos + 2, end));
        }
    } else if ch == '/' && char_at(s, pos + 1, '*') {
        lemma_multi_line_scan_bounds(
            s,
            pos + 2,
            spec_advance(spec_advance(loc, '/'), '*'),
            1,
            Seq::empty(),
        );
    }
}

/// Lexing is faithful to the text: each token read at `pos` takes at least
/// one character, and the characters it takes are the token's own text,
/// up to the differences that `token_read_from` lists (the upper case of
/// keywords and string prefixes, `!=` for `<>`, the kinds of line break
/// and of quotation mark).
pub proof fn law_token_is_its_text<D: Dialect>(d: D, s: Seq<char>, pos: usize, loc: Location)
    requires
        s.len() <= usize::MAX,
    ensures
        step_reads_text(spec_next_token(d, s, pos, loc), s, pos),
{
    if pos < s.len() {
        let ch = s[pos as int];
        let conf = d.spec_lexer_conf();
        if ch == ' ' || ch == '\t' || ch == '\n' || ch == '\r' {
            lemma_whitespace_read(s, pos, loc);
        } else if ch == 'N' || ch == 'n' {
            lemma_prefixed_read(d, s, pos, loc, 0);
        } else if ch == 'X' || ch == 'x' {
            lemma_prefixed_read(d, s, pos, loc, 1);
        } else if ch == 'B' || ch == 'b' {
            lemma_prefixed_read(d, s, pos, loc, 2);
        } else if conf.spec_is_string_literal_quotation(ch) {
            lemma_quoted_read(s, pos, spec_advance(loc, ch), ch);
        } else if conf.spec_is_delimited_identifier_start(ch) {
            lemma_delimited_read(s, pos, spec_advance(loc, ch), ch);
        } else if conf.spec_is_identifier_start(ch) {
            lemma_ident_read(d, s, pos, loc);
        } else if is_ascii_digit(ch) || ch == '.' {
            lemma_number_read(s, pos, loc);
        } else {
            lemma_symbol_read(s, pos, loc);
        }
    }
}

/// Whether the dialect leaves the token out of the lexer's result.
pub open spec fn spec_skipped<D: Dialect>(d: D, t: TokenView) -> bool {
    (d.spec_lexer_conf().spec_ignore_whitespace() && t is Whitespace) || (
    d.spec_lexer_conf().spec_ignore_comment() && t is Comment)
}

/// The tokens of the input `s` from position `pos` on, or the first error.
pub open spec fn spec_tokenize<D: Dialect>(d: D, s: Seq<char>, pos: usize, loc: Location) -> Result<
    Seq<TokenView>,
    (Seq<char>, Location),
>
    decreases s.len() - pos,
{
    match spec_next_token(d, s, pos, loc) {
        LexStep::End => Ok(Seq::empty()),
        LexStep::Error(m, l) => Err((m, l)),
        LexStep::Token(t, p, l) => if p <= pos || p > s.len() {
            Ok(Seq::empty())
        } else {
            match spec_tokenize(d, s, p, l) {
                Ok(rest) => Ok(
                    if spec_skipped(d, t) {
                        rest
                    } else {
                        seq![t] + rest
                    },
                ),
                Err(e) => Err(e),
            }
        },
    }
}

/// The abstract values of a sequence of tokens.
pub open spec fn token_views(v: Seq<Token>) -> Seq<TokenView> {
    v.map_values(|t: Token| t@)
}

// ============================================================================
// Lemmas
// ============================================================================

/// `scan_while` stops at or after `pos`, at the end or at a character that
/// fails the predicate, and every character it passes satisfies it.
pub proof fn lemma_scan_while(s: Seq<char>, pos: int, pred: spec_fn(char) -> bool)
    requires
        0 <= pos <= s.len(),
    ensures
        pos <= scan_while(s, pos, pred) <= s.len(),
        scan_while(s, pos, pred) < s.len() ==> !pred(s[scan_while(s, pos, pred)]),
        forall|i: int| pos <= i < scan_while(s, pos, pred) ==> pred(#[trigger] s[i]),
    decreases s.len() - pos,
{
    if pos < s.len() && pred(s[pos]) {
        lemma_scan_while(s, pos + 1, pred);
    }
}

/// Moving over `s[a..c]` is moving over `s[a..b]` and then over `s[b..c]`.
pub proof fn lemma_advance_over_split(loc: Location, s: Seq<char>, a: int, b: int, c: int)
    requires
        a <= b <= c,
    ensures
        spec_advance_over(loc, s, a, c) == spec_advance_over(
            spec_advance_over(loc, s, a, b),
            s,
            b,
            c,
        ),
    decreases c - b,
{
    if b < c {
        lemma_advance_over_split(loc, s, a, b, c - 1);
    }
}

/// Moving over `s[a..b]` adds at most `b - a` to the line and the column
/// (the column may also be reset to 1).
pub proof fn lemma_advance_over_bounds(loc: Location, s: Seq<char>, a: int, b: int)
    requires
        a <= b,
        loc.line + (b - a) <= usize::MAX,
        loc.column + (b - a) <= usize::MAX,
        loc.column >= 1,
    ensures
        loc.line <= spec_advance_over(loc, s, a, b).line <= loc.line + (b - a),
        1 <= spec_advance_over(loc, s, a, b).column <= loc.column + (b - a),
    decreases b - a,
{
    if a < b {
        lemma_advance_over_bounds(loc, s, a, b - 1);
    }
}

/// The lines of the text, built one character at a time.
proof fn lemma_split_lines_push(s: Seq<char>, c: char)
    ensures
        split_lines(s.push(c)) == if c == '\n' {
            split_lines(s).push(Seq::empty())
        } else {
            split_lines(s).update(
                split_lines(s).len() - 1,
                split_lines(s).last().push(c),
            )
        },
{
    assert(s.push(c).drop_last() =~= s);
}

/// There is at least one line.
proof fn lemma_split_lines_len(s: Seq<char>)
    ensures
        split_lines(s).len() >= 1,
    decreases s.len(),
{
    if s.len() > 0 {
        lemma_split_lines_len(s.drop_last());
    }
}

// ============================================================================
// The lexer
// ============================================================================

/// SQL lexer.
pub struct Lexer<'a, D: Dialect> {
    dialect: &'a D,
    chars: Vec<char>,
    pos: usize,
    location: Location,
}

impl<'a, D: Dialect> Lexer<'a, D> {
    /// The characters of the input.
    pub closed spec fn input(&self) -> Seq<char> {
        self.chars@
    }

    /// The position of the next character to read.
    pub closed spec fn position(&self) -> usize {
        self.pos
    }

    /// The location of the next character to read.
    pub closed spec fn spec_location(&self) -> Location {
        self.location
    }

    /// The dialect of the lexer.
    pub closed spec fn spec_dialect(&self) -> D {
        *self.dialect
    }

    /// The lexer's position is within the input, and the line and the column
    /// are at most one more than the number of characters read.
    pub closed spec fn wf(&self) -> bool {
        &&& self.pos <= self.chars.len()
        &&& self.chars.len() < usize::MAX
        &&& 1 <= self.location.line <= self.pos + 1
        &&& 1 <= self.location.column <= self.pos + 1
    }

    spec fn same_input(&self, other: &Self) -> bool {
        self.chars@ == other.chars@ && self.dialect == other.dialect
    }

    /// Creates a new SQL lexer for the given input string.
    pub fn new(dialect: &'a D, input: &'a str) -> (l: Self)
        requires
            input@.len() < usize::MAX,
        ensures
            l.wf(),
            l.input() == input@,
            l.position() == 0,
            l.spec_location() == (Location { line: 1, column: 1 }),
            l.spec_dialect() == *dialect,
    {
        Lexer { dialect, chars: chars_of(input), pos: 0, location: Location::default() }
    }

    /// Returns the current location scanned by lexer.
    pub fn location(&self) -> (l: Location)
        ensures
            l == self.spec_location(),
    {
        self.location
    }

    /// Tokenizes the statement and produces a sequence of tokens, leaving out
    /// the whitespace and comment tokens that the dialect ignores.
    pub fn tokenize(&mut self) -> (res: Result<Vec<Token>, LexerError>)
        requires
            old(self).wf(),
        ensures
            final(self).wf(),
            match spec_tokenize(
                old(self).spec_dialect(),
                old(self).input(),
                old(self).position(),
                old(self).spec_location(),
            ) {
                Ok(tokens) => res matches Ok(v) && token_views(v@) == tokens && final(self).position()
                    == final(self).input().len(),
                Err((m, l)) => res matches Err(e) && e.message@ == m && e.location == l
                    && final(self).spec_location() == l,
            },
            final(self).input() == old(self).input(),
    {
        let ghost s = self.chars@;
        let ghost d = *self.dialect;
        let ghost start_pos = self.pos;
        let ghost start_loc = self.location;
        let mut tokens: Vec<Token> = Vec::new();
        loop
            invariant
                self.wf(),
                self.chars@ == s,
                *self.dialect == d,
                s == old(self).chars@,
                d == *old(self).dialect,
                start_pos == old(self).pos,
                start_loc == old(self).location,
                spec_tokenize(d, s, start_pos, start_loc) == match spec_tokenize(
                    d,
                    s,
                    self.pos,
                    self.location,
                ) {
                    Ok(rest) => Ok(token_views(tokens@) + rest),
                    Err(e) => Err(e),
                },
            decreases s.len() - self.pos,
        {
            let ghost pos0 = self.pos;
            let ghost loc0 = self.location;
            match self.next_token() {
                Err(e) => {
                    return Err(e);
                },
                Ok(None) => {
                    assert(token_views(tokens@) + Seq::<TokenView>::empty() =~= token_views(
                        tokens@,
                    ));
                    assert(spec_next_token(d, s, pos0, loc0) is End);
                    assert(self.pos >= s.len());
                    return Ok(tokens);
                },
                Ok(Some(token)) => {
                    let skip = (self.dialect.lexer_conf().ignore_whitespace()
                        && token.is_whitespace()) || (self.dialect.lexer_conf().ignore_comment()
                        && token.is_comment());
                    if !skip {
                        let ghost before = tokens@;
                        tokens.push(token);
                        proof {
                            assert(token_views(tokens@) =~= token_views(before).push(token@));
                            match spec_tokenize(d, s, self.pos, self.location) {
                                Ok(rest) => {
                                    assert(token_views(before) + (seq![token@] + rest)
                                        =~= token_views(tokens@) + rest);
                                },
                                Err(_) => {},
                            }
                        }
                    }
                },
            }
        }
    }

    /// Reads the next token; `None` at the end of the input.
    fn next_token(&mut self) -> (res: Result<Option<Token>, LexerError>)
        requires
            old(self).wf(),
        ensures
            final(self).wf(),
            final(self).same_input(old(self)),
            match spec_next_token(*old(self).dialect, old(self).chars@, old(self).pos, old(self).location) {
                LexStep::End => res matches Ok(None) && final(self).pos == old(self).pos,
                LexStep::Token(t, p, l) => res matches Ok(Some(tok)) && tok@ == t && final(self).pos == p
                    && final(self).location == l && p > old(self).pos,
                LexStep::Error(m, l) => res matches Err(e) && e.message@ == m && e.location == l
                    && final(self).location == l,
            },
    {
        if self.pos >= self.chars.len() {
            return Ok(None);
        }
        let ch = self.chars[self.pos];
        if ch == ' ' || ch == '\t' || ch == '\n' || ch == '\r' {
            let w = self.tokenize_whitespace();
            Ok(Some(Token::Whitespace(w)))
        } else if ch == 'N' || ch == 'n' {
            self.tokenize_prefixed(0)
        } else if ch == 'X' || ch == 'x' {
            self.tokenize_prefixed(1)
        } else if ch == 'B' || ch == 'b' {
            self.tokenize_prefixed(2)
        } else if self.dialect.lexer_conf().is_string_literal_quotation(ch) {
            self.next_char();
            match self.tokenize_string_literal(ch) {
                Ok(s) => Ok(Some(Token::String(s))),
                Err(e) => Err(e),
            }
        } else if self.dialect.lexer_conf().is_delimited_identifier_start(ch) {
            self.next_char();
            match self.tokenize_delimited_ident(ch) {
                Ok(s) => Ok(Some(Token::Ident(Ident { value: s, quote: Some(ch) }))),
                Err(e) => Err(e),
            }
        } else if self.dialect.lexer_conf().is_identifier_start(ch) {
            self.next_char();
            Ok(Some(self.tokenize_ident(ch)))
        } else if ascii_digit(ch) || ch == '.' {
            Ok(Some(self.tokenize_number()))
        } else {
            self.tokenize_symbol()
        }
    }

    /// A `N'..'`, `X'..'` or `B'..'` literal, or an identifier that starts
    /// with the prefix letter.
    fn tokenize_prefixed(&mut self, kind: u8) -> (res: Result<Option<Token>, LexerError>)
        requires
            old(self).wf(),
            old(self).pos < old(self).chars.len(),
            kind <= 2,
        ensures
            final(self).wf(),
            final(self).same_input(old(self)),
            match spec_prefixed(*old(self).dialect, old(self).chars@, old(self).pos, old(self).location, kind as int) {
                LexStep::End => false,
                LexStep::Token(t, p, l) => res matches Ok(Some(tok)) && tok@ == t && final(self).pos == p
                    && final(self).location == l && p > old(self).pos,
                LexStep::Error(m, l) => res matches Err(e) && e.message@ == m && e.location == l
                    && final(self).location == l,
            },
    {
        let first = self.chars[self.pos];
        self.next_char();
        if self.next_if_is('\'') {
            let s = match self.tokenize_string_literal('\'') {
                Ok(s) => s,
                Err(e) => {
                    return Err(e);
                },
            };
            if kind == 0 {
                Ok(Some(Token::NationalString(s)))
            } else if kind == 1 {
                Ok(Some(Token::HexString(s)))
            } else {
                Ok(Some(Token::BitString(s)))
            }
        } else {
            Ok(Some(self.tokenize_ident(first)))
        }
    }

    /// Reads a whitespace character; a `\r\n` pair is read as one line break.
    fn tokenize_whitespace(&mut self) -> (w: Whitespace)
        requires
            old(self).wf(),
            old(self).pos < old(self).chars.len(),
            ({
                let ch = old(self).chars@[old(self).pos as int];
                ch == ' ' || ch == '\t' || ch == '\n' || ch == '\r'
            }),
        ensures
            final(self).wf(),
            final(self).same_input(old(self)),
            spec_whitespace(old(self).chars@, old(self).pos, old(self).location) == LexStep::Token(
                TokenView::Whitespace(w),
                final(self).pos,
                final(self).location,
            ),
    {
        let ch = self.chars[self.pos];
        self.pos = self.pos + 1;
        if ch == ' ' {
            self.location.column = self.location.column + 1;
            Whitespace::Space
        } else if ch == '\t' {
            self.location.column = self.location.column + 1;
            Whitespace::Tab
        } else {
            if ch == '\r' && self.pos < self.chars.len() && self.chars[self.pos] == '\n' {
                self.pos = self.pos + 1;
            }
            self.location.line = self.location.line + 1;
            self.location.column = 1;
            Whitespace::Newline
        }
    }

    /// Reads a string literal up to its closing quotation mark (the opening
    /// one has been read).
    fn tokenize_string_literal(&mut self, quote: char) -> (res: Result<String, LexerError>)
        requires
            old(self).wf(),
        ensures
            final(self).wf(),
            final(self).same_input(old(self)),
            final(self).pos >= old(self).pos,
            match spec_string_literal(old(self).chars@, old(self).pos, old(self).location, quote) {
                Scan::Found(text, p, l) => res matches Ok(s) && s@ == text && final(self).pos == p
                    && final(self).location == l,
                Scan::Failed(m, l) => res matches Err(e) && e.message@ == m && e.location == l
                    && final(self).location == l,
            },
    {
        let s = self.next_while_not(quote);
        if self.pos < self.chars.len() {
            self.next_char();
            Ok(s)
        } else {
            self.tokenize_error("Unterminated string literal")
        }
    }

    /// Reads a delimited identifier up to its closing quotation mark (the
    /// opening one has been read).
    fn tokenize_delimited_ident(&mut self, open_quote: char) -> (res: Result<String, LexerError>)
        requires
            old(self).wf(),
        ensures
            final(self).wf(),
            final(self).same_input(old(self)),
            final(self).pos >= old(self).pos,
            match spec_delimited_ident(old(self).chars@, old(self).pos, old(self).location, open_quote) {
                Scan::Found(text, p, l) => res matches Ok(s) && s@ == text && final(self).pos == p
                    && final(self).location == l,
                Scan::Failed(m, l) => res matches Err(e) && e.message@ == m && e.location == l
                    && final(self).location == l,
            },
    {
        if open_quote != '"' && open_quote != '`' {
            return self.tokenize_error("Unexpected quoting style");
        }
        let close_quote = open_quote;
        let s = self.next_while_not(close_quote);
        if self.next_if_is(close_quote) {
            Ok(s)
        } else {
            let mut message = String::new();
            push_str(&mut message, "Expected close delimiter '");
            push_char(&mut message, close_quote);
            push_str(&mut message, "' before EOF");
            assert(message@ =~= spec_close_delimiter_message(close_quote));
            Err(LexerError { message, location: self.location })
        }
    }

    /// Reads the rest of an identifier whose first character `first` has
    /// been read, and makes a keyword or identifier token of it.
    fn tokenize_ident(&mut self, first: char) -> (t: Token)
        requires
            old(self).wf(),
            old(self).pos >= 1,
            old(self).chars@[old(self).pos - 1] == first,
        ensures
            final(self).wf(),
            final(self).same_input(old(self)),
            ({
                let s = old(self).chars@;
                let end = scan_while(s, old(self).pos as int,
                    ident_part_pred(old(self).dialect.spec_lexer_conf()));
                &&& t@ == spec_make_word::<D::Keyword>(s.subrange(old(self).pos - 1, end))
                &&& final(self).pos == end
                &&& old(self).pos <= end <= s.len()
                &&& final(self).location == spec_advance_over(old(self).location, s, old(self).pos as int, end)
            }),
    {
        let start = self.pos - 1;
        self.next_while_ident_part();
        let text = string_of(&self.chars, start, self.pos);
        self.make_word(text)
    }

    /// A keyword token if the upper case text is a keyword of the dialect,
    /// an identifier token otherwise.
    fn make_word(&self, text: String) -> (t: Token)
        ensures
            t@ == spec_make_word::<D::Keyword>(text@),
    {
        let upper = to_uppercase(text.as_str());
        match lookup_keyword(upper.as_str()) {
            Some(k) => {
                if D::Keyword::contains(k) {
                    Token::Keyword(k, String::from_str(k.as_str()))
                } else {
                    Token::Ident(Ident { value: text, quote: None })
                }
            },
            None => Token::Ident(Ident { value: text, quote: None }),
        }
    }

    /// Reads a number literal: digits, an optional period and digits. A
    /// period alone is a period token.
    fn tokenize_number(&mut self) -> (t: Token)
        requires
            old(self).wf(),
            old(self).pos < old(self).chars.len(),
            is_ascii_digit(old(self).chars@[old(self).pos as int]) || old(self).chars@[old(self).pos as int] == '.',
        ensures
            final(self).wf(),
            final(self).same_input(old(self)),
            final(self).pos > old(self).pos,
            spec_number(old(self).chars@, old(self).pos, old(self).location) == LexStep::Token(
                t@,
                final(self).pos,
                final(self).location,
            ),
    {
        let ghost s = self.chars@;
        let ghost loc0 = self.location;
        let start = self.pos;
        proof {
            if is_ascii_digit(s[start as int]) {
                lemma_scan_while(s, start + 1, digit_pred());
            }
        }
        self.next_while_digit();
        let ghost e1 = self.pos;
        self.next_if_is('.');
        let ghost e2 = self.pos;
        let ghost l2 = self.location;
        self.next_while_digit();
        proof {
            lemma_advance_over_split(loc0, s, start as int, e2 as int, self.pos as int);
        }
        if self.pos - start == 1 && self.chars[start] == '.' {
            assert(s.subrange(start as int, self.pos as int) =~= seq!['.']);
            Token::Period
        } else {
            let text = string_of(&self.chars, start, self.pos);
            proof {
                if s.subrange(start as int, self.pos as int) == seq!['.'] {
                    assert(seq!['.'].len() == 1);
                    assert(seq!['.'][0] == '.');
                    assert(s.subrange(start as int, self.pos as int).len() == 1);
                    assert(s.subrange(start as int, self.pos as int)[0] == s[start as int]);
                }
            }
            Token::Number(text)
        }
    }

    /// Reads an operator or punctuation token, or a comment.
    fn tokenize_symbol(&mut self) -> (res: Result<Option<Token>, LexerError>)
        requires
            old(self).wf(),
            old(self).pos < old(self).chars.len(),
        ensures
            final(self).wf(),
            final(self).same_input(old(self)),
            match spec_symbol(old(self).chars@, old(self).pos, old(self).location) {
                LexStep::End => false,
                LexStep::Token(t, p, l) => res matches Ok(Some(tok)) && tok@ == t && final(self).pos == p
                    && final(self).location == l && p > old(self).pos,
                LexStep::Error(m, l) => res matches Err(e) && e.message@ == m && e.location == l
                    && final(self).location == l,
            },
    {
        let ch = self.chars[self.pos];
        let token = symbol_base(ch);
        self.next_char();
        let t = match token {
            Token::Colon => if self.next_if_is(':') {
                Token::DoubleColon
            } else {
                Token::Colon
            },
            Token::LessThan => if self.next_if_is('>') {
                Token::NotEqual
            } else if self.next_if_is('=') {
                Token::LessThanOrEqual
            } else if self.next_if_is('<') {
                Token::LeftShift
            } else {
                Token::LessThan
            },
            Token::GreaterThan => if self.next_if_is('=') {
                Token::GreaterThanOrEqual
            } else if self.next_if_is('>') {
                Token::RightShift
            } else {
                Token::GreaterThan
            },
            Token::Minus => if self.next_if_is('-') {
                Token::Comment(self.tokenize_single_line_comment())
            } else {
                Token::Minus
            },
            Token::Slash => if self.next_if_is('*') {
                match self.tokenize_multi_line_comment() {
                    Ok(c) => Token::Comment(c),
                    Err(e) => {
                        return Err(e);
                    },
                }
            } else {
                Token::Slash
            },
            Token::Exclamation => if self.next_if_is('=') {
                Token::NotEqual
            } else if self.next_if_is('!') {
                Token::DoubleExclamation
            } else {
                Token::Exclamation
            },
            Token::Pipe => if self.next_if_is('|') {
                Token::Concat
            } else {
                Token::Pipe
            },
            token => token,
        };
        Ok(Some(t))
    }

    /// Reads a single-line comment (after `--`) up to and including its line
    /// break.
    fn tokenize_single_line_comment(&mut self) -> (c: Comment)
        requires
            old(self).wf(),
        ensures
            final(self).wf(),
            final(self).same_input(old(self)),
            final(self).pos >= old(self).pos,
            spec_single_line_comment(old(self).chars@, old(self).pos, old(self).location)
                == LexStep::Token(TokenView::Comment(c@), final(self).pos, final(self).location),
    {
        let start = self.pos;
        self.next_while_not('\n');
        if self.pos < self.chars.len() {
            self.next_char();
        }
        let comment = string_of(&self.chars, start, self.pos);
        Comment::SingleLine { prefix: String::from_str("--"), comment }
    }

    /// Reads a multi-line comment (after `/*`) up to its closing `*/`;
    /// nested comments are kept in the text.
    fn tokenize_multi_line_comment(&mut self) -> (res: Result<Comment, LexerError>)
        requires
            old(self).wf(),
        ensures
            final(self).wf(),
            final(self).same_input(old(self)),
            final(self).pos >= old(self).pos,
            match spec_multi_line_comment(old(self).chars@, old(self).pos, old(self).location) {
                LexStep::End => false,
                LexStep::Token(t, p, l) => res matches Ok(c) && t == TokenView::Comment(c@)
                    && final(self).pos == p && final(self).location == l,
                LexStep::Error(m, l) => res matches Err(e) && e.message@ == m && e.location == l
                    && final(self).location == l,
            },
    {
        let ghost s = self.chars@;
        let ghost start = self.pos;
        let ghost start_loc = self.location;
        let mut comment: Vec<char> = Vec::new();
        let mut nested: usize = 1;
        loop
            invariant
                self.wf(),
                self.chars@ == s,
                s == old(self).chars@,
                start == old(self).pos,
                start_loc == old(self).location,
                self.same_input(old(self)),
                self.pos >= start,
                1 <= nested <= self.pos + 1,
                spec_multi_line_scan(s, start as int, start_loc, 1, Seq::empty())
                    == spec_multi_line_scan(s, self.pos as int, self.location, nested as nat, comment@),
            decreases s.len() - self.pos,
        {
            match self.next_char() {
                Some(ch) => {
                    if ch == '*' && self.next_if_is('/') {
                        if nested == 1 {
                            let lines = split_into_lines(&comment);
                            return Ok(Comment::MultiLine(lines));
                        } else {
                            nested = nested - 1;
                            let ghost acc = comment@;
                            comment.push('*');
                            comment.push('/');
                            assert(comment@ =~= acc + seq!['*', '/']);
                        }
                    } else if ch == '/' && self.next_if_is('*') {
                        nested = nested + 1;
                        let ghost acc = comment@;
                        comment.push('/');
                        comment.push('*');
                        assert(comment@ =~= acc + seq!['/', '*']);
                    } else {
                        comment.push(ch);
                    }
                },
                None => {
                    return self.tokenize_error("Unexpected EOF while in a multi-line comment");
                },
            }
        }
    }

    /// An error with the given message at the current location.
    fn tokenize_error<R>(&self, message: &str) -> (res: Result<R, LexerError>)
        ensures
            res matches Err(e) && e.message@ == message@ && e.location == self.location,
    {
        Err(self.location.into_error(message))
    }

    /// Reads the next character, if there is one.
    fn next_char(&mut self) -> (r: Option<char>)
        requires
            old(self).wf(),
        ensures
            final(self).wf(),
            final(self).same_input(old(self)),
            old(self).pos < old(self).chars.len() ==> r == Some(old(self).chars@[old(self).pos as int])
                && final(self).pos == old(self).pos + 1 && final(self).location == spec_advance(
                old(self).location,
                old(self).chars@[old(self).pos as int],
            ),
            old(self).pos >= old(self).chars.len() ==> r is None && final(self).pos == old(self).pos
                && final(self).location == old(self).location,
    {
        if self.pos < self.chars.len() {
            let ch = self.chars[self.pos];
            self.pos = self.pos + 1;
            self.location.advance(ch);
            Some(ch)
        } else {
            None
        }
    }

    /// Reads the characters up to (not including) the next `stop` character
    /// or the end of the input.
    fn next_while_not(&mut self, stop: char) -> (r: String)
        requires
            old(self).wf(),
        ensures
            final(self).wf(),
            final(self).same_input(old(self)),
            ({
                let s = old(self).chars@;
                let end = scan_while(s, old(self).pos as int, not_char(stop));
                &&& end < s.len() ==> s[end] == stop
                &&& final(self).pos == end
                &&& old(self).pos <= end <= s.len()
                &&& final(self).location == spec_advance_over(old(self).location, s, old(self).pos as int, end)
                &&& r@ == s.subrange(old(self).pos as int, end)
            }),
    {
        let ghost s = self.chars@;
        let start = self.pos;
        while self.pos < self.chars.len() && self.chars[self.pos] != stop
            invariant
                self.wf(),
                self.same_input(old(self)),
                self.chars@ == s,
                start == old(self).pos <= self.pos,
                scan_while(s, start as int, not_char(stop)) == scan_while(s, self.pos as int, not_char(stop)),
                self.location == spec_advance_over(old(self).location, s, start as int, self.pos as int),
            decreases s.len() - self.pos,
        {
            self.next_char();
        }
        string_of(&self.chars, start, self.pos)
    }

    /// Reads the ASCII digits that follow.
    fn next_while_digit(&mut self)
        requires
            old(self).wf(),
        ensures
            final(self).wf(),
            final(self).same_input(old(self)),
            ({
                let s = old(self).chars@;
                let end = scan_while(s, old(self).pos as int, digit_pred());
                &&& final(self).pos == end
                &&& old(self).pos <= end <= s.len()
                &&& final(self).location == spec_advance_over(old(self).location, s, old(self).pos as int, end)
            }),
    {
        let ghost s = self.chars@;
        let start = self.pos;
        while self.pos < self.chars.len() && ascii_digit(self.chars[self.pos])
            invariant
                self.wf(),
                self.same_input(old(self)),
                self.chars@ == s,
                start == old(self).pos <= self.pos,
                scan_while(s, start as int, digit_pred()) == scan_while(s, self.pos as int, digit_pred()),
                self.location == spec_advance_over(old(self).location, s, start as int, self.pos as int),
            decreases s.len() - self.pos,
        {
            self.next_char();
        }
    }

    /// Reads the characters that may continue an identifier.
    fn next_while_ident_part(&mut self)
        requires
            old(self).wf(),
        ensures
            final(self).wf(),
            final(self).same_input(old(self)),
            ({
                let s = old(self).chars@;
                let end = scan_while(s, old(self).pos as int,
                    ident_part_pred(old(self).dialect.spec_lexer_conf()));
                &&& final(self).pos == end
                &&& old(self).pos <= end <= s.len()
                &&& final(self).location == spec_advance_over(old(self).location, s, old(self).pos as int, end)
            }),
    {
        let ghost s = self.chars@;
        let ghost pred = ident_part_pred(self.dialect.spec_lexer_conf());
        let start = self.pos;
        while self.pos < self.chars.len() && self.dialect.lexer_conf().is_identifier_part(self.chars[self.pos])
            invariant
                self.wf(),
                self.same_input(old(self)),
                self.chars@ == s,
                pred == ident_part_pred(self.dialect.spec_lexer_conf()),
                start == old(self).pos <= self.pos,
                scan_while(s, start as int, pred) == scan_while(s, self.pos as int, pred),
                self.location == spec_advance_over(old(self).location, s, start as int, self.pos as int),
            decreases s.len() - self.pos,
        {
            self.next_char();
        }
    }

    /// Reads the next character if it is `ch`.
    fn next_if_is(&mut self, ch: char) -> (b: bool)
        requires
            old(self).wf(),
        ensures
            final(self).wf(),
            final(self).same_input(old(self)),
            b == char_at(old(self).chars@, old(self).pos as int, ch),
            b ==> final(self).pos == old(self).pos + 1 && final(self).location == spec_advance(
                old(self).location,
                ch,
            ),
            !b ==> final(self).pos == old(self).pos && final(self).location == old(self).location,
    {
        if self.pos < self.chars.len() && self.chars[self.pos] == ch {
            self.next_char();
            true
        } else {
            false
        }
    }
}

/// The single-character token of a symbol character.
fn symbol_base(ch: char) -> (t: Token)
    ensures
        t@ == spec_symbol_base(ch),
{
    if ch == ',' { Token::Comma }
    else if ch == ';' { Token::SemiColon }
    else if ch == ':' { Token::Colon }
    else if ch == '(' { Token::LeftParen }
    else if ch == ')' { Token::RightParen }
    else if ch == '[' { Token::LeftBracket }
    else if ch == ']' { Token::RightBracket }
    else if ch == '{' { Token::LeftBrace }
    else if ch == '}' { Token::RightBrace }
    else if ch == '=' { Token::Equal }
    else if ch == '<' { Token::LessThan }
    else if ch == '>' { Token::GreaterThan }
    else if ch == '+' { Token::Plus }
    else if ch == '-' { Token::Minus }
    else if ch == '*' { Token::Asterisk }
    else if ch == '/' { Token::Slash }
    else if ch == '%' { Token::Percent }
    else if ch == '^' { Token::Caret }
    else if ch == '!' { Token::Exclamation }
    else if ch == '?' { Token::Question }
    else if ch == '~' { Token::Tilde }
    else if ch == '&' { Token::Ampersand }
    else if ch == '|' { Token::Pipe }
    else if ch == '\\' { Token::Backslash }
    else if ch == '#' { Token::Sharp }
    else if ch == '@' { Token::At }
    else { Token::Char(ch) }
}

/// Splits a text at its line breaks.
pub fn split_into_lines(text: &Vec<char>) -> (lines: Vec<String>)
    ensures
        string_views(lines@) == split_lines(text@),
{
    let mut lines: Vec<String> = Vec::new();
    let mut current = String::new();
    let mut i: usize = 0;
    proof {
        assert(text@.subrange(0, 0) =~= Seq::<char>::empty());
        assert(string_views(lines@).push(current@) =~= split_lines(Seq::<char>::empty()));
    }
    while i < text.len()
        invariant
            i <= text.len(),
            string_views(lines@).push(current@) == split_lines(text@.subrange(0, i as int)),
        decreases text.len() - i,
    {
        let c = text[i];
        proof {
            assert(text@.subrange(0, i + 1) =~= text@.subrange(0, i as int).push(c));
            lemma_split_lines_push(text@.subrange(0, i as int), c);
        }
        let ghost before = string_views(lines@);
        if c == '\n' {
            lines.push(current);
            current = String::new();
            assert(string_views(lines@) =~= before.push(lines@.last()@));
            assert(string_views(lines@).push(current@) =~= split_lines(text@.subrange(0, i + 1)));
        } else {
            let ghost cur0 = current@;
            push_char(&mut current, c);
            assert(string_views(lines@).push(current@) =~= split_lines(text@.subrange(0, i + 1)));
        }
        i += 1;
    }
    lines.push(current);
    assert(text@.subrange(0, text.len() as int) =~= text@);
    assert(string_views(lines@) =~= string_views(lines@.drop_last()).push(lines@.last()@));
    lines
}

} // verus!
