//! The span-tracking lexer: skips whitespace and comments and produces words,
//! punctuation characters and literals, each with the region it covers.
use vstd::prelude::*;

use crate::dialect::{ascii_digit, is_ascii_digit, Dialect, DialectLexerConf, KeywordDef};
use crate::lexer::{char_at, digit_pred, ident_part_pred, not_char, scan_while, lemma_scan_while, spec_close_delimiter_message};
use crate::next::error::LexerError;
use crate::next::span::{spec_lc_advance, spec_lc_advance_over, LineColumn, Span};
use crate::next::token::{
    spec_literal_sql, spec_token_tree_sql, spec_word_keyword, with_span, Literal, LiteralKind, Punct, Spacing, TokenStream, TokenTree,
    TokenTreeView, Word,
};
use crate::text::{chars_of, push_char, push_str, string_of};

verus! {

// ============================================================================
// Specification
// ============================================================================

/// The outcome of reading at a position of the input.
pub enum Step {
    /// The input is exhausted.
    End,
    /// Whitespace or a comment was read; the position and location after it.
    Skip(usize, LineColumn),
    /// A token (with the default span), the position and location after it.
    Token(TokenTreeView, usize, LineColumn),
    /// An error message and its location.
    Error(Seq<char>, LineColumn),
}

/// The outcome of reading a piece of text.
pub enum Scanned {
    /// The text, the position and the location after it.
    Found(Seq<char>, usize, LineColumn),
    /// An error message and its location.
    Failed(Seq<char>, LineColumn),
}

/// The characters that the lexer reads as punctuation.
pub open spec fn is_punct_char(c: char) -> bool {
    c == '~' || c == '!' || c == '@' || c == '#' || c == '$' || c == '%' || c == '^' || c == '&'
        || c == '*' || c == '(' || c == ')' || c == '-' || c == '=' || c == '+' || c == '['
        || c == ']' || c == '{' || c == '}' || c == '|' || c == ';' || c == ':' || c == ','
        || c == '<' || c == '.' || c == '>' || c == '/' || c == '?' || c == '\''
}

/// `Joint` if a punctuation character stands at position `i`, `Alone`
/// otherwise (also at the end of the input).
pub open spec fn spacing_at(s: Seq<char>, i: int) -> Spacing {
    if 0 <= i < s.len() && is_punct_char(s[i]) {
        Spacing::Joint
    } else {
        Spacing::Alone
    }
}

/// A word token with the default span.
pub open spec fn word_view<K: KeywordDef>(value: Seq<char>, quote: Option<char>) -> TokenTreeView {
    TokenTreeView::Word {
        keyword: spec_word_keyword::<K>(value, quote),
        value,
        quote,
        span: Span::spec_default(),
    }
}

/// A literal token with the default span.
pub open spec fn literal_view(kind: LiteralKind, text: Seq<char>) -> TokenTreeView {
    TokenTreeView::Literal { kind, text, span: Span::spec_default() }
}

/// A punctuation token with the default span.
pub open spec fn punct_view(ch: char, spacing: Spacing) -> TokenTreeView {
    TokenTreeView::Punct { ch, spacing, span: Span::spec_default() }
}

/// The text of a quoted string whose characters start at `start` (after the
/// opening quotation mark), up to the closing `quote`.
pub open spec fn spec_string_literal(s: Seq<char>, start: usize, loc: LineColumn, quote: char) -> Scanned {
    let end = scan_while(s, start as int, not_char(quote));
    let lend = spec_lc_advance_over(loc, s, start as int, end);
    if end < s.len() {
        Scanned::Found(s.subrange(start as int, end), (end + 1) as usize, spec_lc_advance(lend, quote))
    } else {
        Scanned::Failed("Unterminated string literal"@, lend)
    }
}

/// The text of a delimited identifier whose characters start at `start`
/// (after the opening quotation mark `open`).
pub open spec fn spec_delimited_ident(s: Seq<char>, start: usize, loc: LineColumn, open: char) -> Scanned {
    if open != '"' && open != '`' {
        Scanned::Failed("Unexpected quoting style"@, loc)
    } else {
        let end = scan_while(s, start as int, not_char(open));
        let lend = spec_lc_advance_over(loc, s, start as int, end);
        if end < s.len() {
            Scanned::Found(s.subrange(start as int, end), (end + 1) as usize, spec_lc_advance(lend, open))
        } else {
            Scanned::Failed(spec_close_delimiter_message(open), lend)
        }
    }
}

/// The word whose first character is at `pos`.
pub open spec fn spec_ident<D: Dialect>(d: D, s: Seq<char>, pos: usize, loc: LineColumn) -> Step {
    let p1 = pos + 1;
    let end = scan_while(s, p1, ident_part_pred(d.spec_lexer_conf()));
    Step::Token(
        word_view::<D::Keyword>(s.subrange(pos as int, end), None),
        end as usize,
        spec_lc_advance_over(spec_lc_advance(loc, s[pos as int]), s, p1, end),
    )
}

/// The number literal that starts at `pos`: digits, an optional period and
/// digits. A period alone is a punctuation character.
pub open spec fn spec_number(s: Seq<char>, pos: usize, loc: LineColumn) -> Step {
    let e1 = scan_while(s, pos as int, digit_pred());
    let e2 = if char_at(s, e1, '.') {
        e1 + 1
    } else {
        e1
    };
    let e3 = scan_while(s, e2, digit_pred());
    let text = s.subrange(pos as int, e3);
    Step::Token(
        if text == seq!['.'] {
            punct_view('.', spacing_at(s, e3))
        } else {
            literal_view(LiteralKind::Number, text)
        },
        e3 as usize,
        spec_lc_advance_over(loc, s, pos as int, e3),
    )
}

/// The punctuation character at `pos`, or an error if the character there
/// is none.
pub open spec fn spec_punct(s: Seq<char>, pos: usize, loc: LineColumn) -> Step {
    let ch = s[pos as int];
    if is_punct_char(ch) {
        Step::Token(
            punct_view(ch, spacing_at(s, pos + 1)),
            (pos + 1) as usize,
            spec_lc_advance(loc, ch),
        )
    } else {
        Step::Error("Unexpected EOF or punctuation character"@, loc)
    }
}

/// Skips a single-line comment whose text starts at `start` (after `--`),
/// up to and including its line break.
pub open spec fn spec_single_line_comment(s: Seq<char>, start: usize, loc: LineColumn) -> Step {
    let end = scan_while(s, start as int, not_char('\n'));
    let lend = spec_lc_advance_over(loc, s, start as int, end);
    if end < s.len() {
        Step::Skip((end + 1) as usize, spec_lc_advance(lend, '\n'))
    } else {
        Step::Skip(end as usize, lend)
    }
}

/// Skips the rest of a multi-line comment from `pos`, with `nested`
/// comments open.
pub open spec fn spec_multi_line_comment(s: Seq<char>, pos: int, loc: LineColumn, nested: nat) -> Step
    decreases s.len() - pos,
{
    if pos < 0 || pos >= s.len() {
        Step::Error("Unexpected EOF while in a multi-line comment"@, loc)
    } else {
        let ch = s[pos];
        let l1 = spec_lc_advance(loc, ch);
        if ch == '*' && char_at(s, pos + 1, '/') {
            let l2 = spec_lc_advance(l1, '/');
            if nested <= 1 {
                Step::Skip((pos + 2) as usize, l2)
            } else {
                spec_multi_line_comment(s, pos + 2, l2, (nested - 1) as nat)
            }
        } else if ch == '/' && char_at(s, pos + 1, '*') {
            spec_multi_line_comment(s, pos + 2, spec_lc_advance(l1, '*'), nested + 1)
        } else {
            spec_multi_line_comment(s, pos + 1, l1, nested)
        }
    }
}

/// The kind of literal that a prefix letter introduces.
pub open spec fn prefix_kind(ch: char) -> LiteralKind {
    if ch == 'N' || ch == 'n' {
        LiteralKind::NationalString
    } else if ch == 'X' || ch == 'x' {
        LiteralKind::HexString
    } else {
        LiteralKind::BitString
    }
}

/// A `N'..'`, `X'..'` or `B'..'` literal, or the word that starts with the
/// prefix letter at `pos`.
pub open spec fn spec_prefixed<D: Dialect>(d: D, s: Seq<char>, pos: usize, loc: LineColumn) -> Step {
    let ch = s[pos as int];
    let p1 = (pos + 1) as usize;
    let l1 = spec_lc_advance(loc, ch);
    if char_at(s, p1 as int, '\'') {
        match spec_string_literal(s, (p1 + 1) as usize, spec_lc_advance(l1, '\''), '\'') {
            Scanned::Found(text, p, l) => Step::Token(literal_view(prefix_kind(ch), text), p, l),
            Scanned::Failed(m, l) => Step::Error(m, l),
        }
    } else {
        spec_ident(d, s, pos, loc)
    }
}

/// A prefixed string literal keeps its prefix letter: the text of the
/// literal read at `pos` starts with the letter that introduced it, written
/// upper case, so `x'..'` and `X'..'` are both hex strings and `n'..'`,
/// `b'..'` national and bit strings.
pub proof fn law_prefixed_literal_keeps_its_letter<D: Dialect>(
    d: D,
    s: Seq<char>,
    pos: usize,
    loc: LineColumn,
)
    requires
        pos < s.len(),
        s[pos as int] == 'N' || s[pos as int] == 'n' || s[pos as int] == 'X' || s[pos as int] == 'x'
            || s[pos as int] == 'B' || s[pos as int] == 'b',
    ensures
        spec_prefixed(d, s, pos, loc) matches Step::Token(TokenTreeView::Literal { kind, text, .. }, _, _)
            ==> spec_literal_sql(kind, text).len() > 0 && (spec_literal_sql(kind, text)[0]
            == s[pos as int] || spec_literal_sql(kind, text)[0] as u32 + 32 == s[pos as int] as u32),
{
    reveal_strlit("N'");
    reveal_strlit("X'");
    reveal_strlit("B'");
    reveal_strlit("'");
}

/// Whether `ch` is read as whitespace.
pub open spec fn is_space(ch: char) -> bool {
    ch == ' ' || ch == '\t' || ch == '\n' || ch == '\r'
}

/// What the lexer reads at position `pos` of the input `s`, at location `loc`.
pub open spec fn spec_step<D: Dialect>(d: D, s: Seq<char>, pos: usize, loc: LineColumn) -> Step {
    if pos >= s.len() {
        Step::End
    } else {
        let ch = s[pos as int];
        let conf = d.spec_lexer_conf();
        if is_space(ch) {
            Step::Skip((pos + 1) as usize, spec_lc_advance(loc, ch))
        } else if ch == '-' && char_at(s, pos + 1, '-') {
            spec_single_line_comment(s, (pos + 2) as usize, spec_lc_advance(spec_lc_advance(loc, '-'), '-'))
        } else if ch == '/' && char_at(s, pos + 1, '*') {
            spec_multi_line_comment(s, pos + 2, spec_lc_advance(spec_lc_advance(loc, '/'), '*'), 1)
        } else if ch == 'N' || ch == 'n' || ch == 'X' || ch == 'x' || ch == 'B' || ch == 'b' {
            spec_prefixed(d, s, pos, loc)
        } else if conf.spec_is_string_literal_quotation(ch) {
            match spec_string_literal(s, (pos + 1) as usize, spec_lc_advance(loc, ch), ch) {
                Scanned::Found(text, p, l) => Step::Token(literal_view(LiteralKind::String, text), p, l),
                Scanned::Failed(m, l) => Step::Error(m, l),
            }
        } else if conf.spec_is_delimited_identifier_start(ch) {
            match spec_delimited_ident(s, (pos + 1) as usize, spec_lc_advance(loc, ch), ch) {
                Scanned::Found(text, p, l) => Step::Token(word_view::<D::Keyword>(text, Some(ch)), p, l),
                Scanned::Failed(m, l) => Step::Error(m, l),
            }
        } else if conf.spec_is_identifier_start(ch) {
            spec_ident(d, s, pos, loc)
        } else if is_ascii_digit(ch) || ch == '.' {
            spec_number(s, pos, loc)
        } else {
            spec_punct(s, pos, loc)
        }
    }
}

/// Whether the token `t` was read from the characters `w`: its text is `w`,
/// save that a string is read between any quotation mark of the dialect and
/// written between single quotes, and that a prefixed string is written
/// with its prefix letter in upper case.
pub open spec fn tree_read_from(t: TokenTreeView, w: Seq<char>) -> bool {
    match t {
        TokenTreeView::Literal { kind: LiteralKind::String, text, .. } => w.len() >= 2 && w == seq![w[0]]
            + text + seq![w[0]],
        TokenTreeView::Literal { kind: LiteralKind::Number, .. } => spec_token_tree_sql(t) == w,
        TokenTreeView::Literal { .. } => {
            let sql = spec_token_tree_sql(t);
            &&& w.len() == sql.len()
            &&& w.len() > 0
            &&& (w[0] == sql[0] || w[0] as u32 == sql[0] as u32 + 32)
            &&& w.skip(1) == sql.skip(1)
        },
        _ => spec_token_tree_sql(t) == w,
    }
}

/// Whether a lexing step read a token from the characters it took.
pub open spec fn step_reads_text(step: Step, s: Seq<char>, pos: usize) -> bool {
    step matches Step::Token(t, p, _) ==> pos < p <= s.len() && tree_read_from(
        t,
        s.subrange(pos as int, p as int),
    )
}

proof fn lemma_multi_line_comment_skips(s: Seq<char>, pos: int, loc: LineColumn, nested: nat)
    ensures
        !(spec_multi_line_comment(s, pos, loc, nested) is Token),
    decreases s.len() - pos,
{
    if 0 <= pos < s.len() {
        let ch = s[pos];
        let l1 = spec_lc_advance(loc, ch);
        if ch == '*' && char_at(s, pos + 1, '/') {
            if nested > 1 {
                lemma_multi_line_comment_skips(s, pos + 2, spec_lc_advance(l1, '/'), (nested - 1) as nat);
            }
        } else if ch == '/' && char_at(s, pos + 1, '*') {
            lemma_multi_line_comment_skips(s, pos + 2, spec_lc_advance(l1, '*'), nested + 1);
        } else {
            lemma_multi_line_comment_skips(s, pos + 1, l1, nested);
        }
    }
}

proof fn lemma_quoted_read(s: Seq<char>, pos: usize, quote: char)
    requires
        pos < s.len(),
        s.len() <= usize::MAX,
        s[pos as int] == quote,
    ensures
        forall|loc: LineColumn|
            #![trigger spec_string_literal(s, (pos + 1) as usize, loc, quote)]
            spec_string_literal(s, (pos + 1) as usize, loc, quote) matches Scanned::Found(text, p, _)
                ==> pos < p <= s.len() && s.subrange(pos as int, p as int) == seq![quote] + text
                + seq![quote],
        forall|loc: LineColumn|
            #![trigger spec_delimited_ident(s, (pos + 1) as usize, loc, quote)]
            spec_delimited_ident(s, (pos + 1) as usize, loc, quote) matches Scanned::Found(text, p, _)
                ==> pos < p <= s.len() && s.subrange(pos as int, p as int) == seq![quote] + text
                + seq![quote],
{
    let end = scan_while(s, pos + 1, not_char(quote));
    lemma_scan_while(s, pos + 1, not_char(quote));
    if end < s.len() {
        assert(s.subrange(pos as int, end + 1) =~= seq![quote] + s.subrange(pos + 1, end) + seq![
            quote,
        ]);
    }
}

proof fn lemma_ident_read<D: Dialect>(d: D, s: Seq<char>, pos: usize, loc: LineColumn)
    requires
        pos < s.len(),
        s.len() <= usize::MAX,
    ensures
        step_reads_text(spec_ident(d, s, pos, loc), s, pos),
{
    lemma_scan_while(s, pos + 1, ident_part_pred(d.spec_lexer_conf()));
}

proof fn lemma_prefixed_read<D: Dialect>(d: D, s: Seq<char>, pos: usize, loc: LineColumn)
    requires
        pos < s.len(),
        s.len() <= usize::MAX,
        s[pos as int] == 'N' || s[pos as int] == 'n' || s[pos as int] == 'X' || s[pos as int] == 'x'
            || s[pos as int] == 'B' || s[pos as int] == 'b',
    ensures
        step_reads_text(spec_prefixed(d, s, pos, loc), s, pos),
{
    reveal_strlit("N'");
    reveal_strlit("X'");
    reveal_strlit("B'");
    reveal_strlit("'");
    if char_at(s, pos + 1, '\'') {
        let end = scan_while(s, pos + 2, not_char('\''));
        lemma_scan_while(s, pos + 2, not_char('\''));
        if end < s.len() {
            let text = s.subrange(pos + 2, end);
            let w = s.subrange(pos as int, end + 1);
            assert(w.skip(1) =~= "'"@ + text + "'"@);
            assert(("N'"@ + text + "'"@).skip(1) =~= "'"@ + text + "'"@);
            assert(("X'"@ + text + "'"@).skip(1) =~= "'"@ + text + "'"@);
            assert(("B'"@ + text + "'"@).skip(1) =~= "'"@ + text + "'"@);
        }
    } else {
        lemma_ident_read(d, s, pos, loc);
    }
}

proof fn lemma_number_read(s: Seq<char>, pos: usize, loc: LineColumn)
    requires
        pos < s.len(),
        s.len() <= usize::MAX,
        is_ascii_digit(s[pos as int]) || s[pos as int] == '.',
    ensures
        step_reads_text(spec_number(s, pos, loc), s, pos),
{
    lemma_scan_while(s, pos as int, digit_pred());
    let e1 = scan_while(s, pos as int, digit_pred());
    let e2 = if char_at(s, e1, '.') {
        e1 + 1
    } else {
        e1
    };
    lemma_scan_while(s, e2, digit_pred());
}

/// Lexing is faithful to the text: each token read at `pos` takes at least
/// one character, and those characters are the token's own text, up to
/// the differences that `tree_read_from` lists (the quotation mark of a
/// string, the case of a string prefix).
pub proof fn law_token_tree_is_its_text<D: Dialect>(d: D, s: Seq<char>, pos: usize, loc: LineColumn)
    requires
        s.len() <= usize::MAX,
    ensures
        step_reads_text(spec_step(d, s, pos, loc), s, pos),
{
    if pos < s.len() {
        let ch = s[pos as int];
        let conf = d.spec_lexer_conf();
        assert(s.subrange(pos as int, pos + 1) =~= seq![ch]);
        if is_space(ch) {
        } else if ch == '-' && char_at(s, pos + 1, '-') {
        } else if ch == '/' && char_at(s, pos + 1, '*') {
            lemma_multi_line_comment_skips(
                s,
                pos + 2,
                spec_lc_advance(spec_lc_advance(loc, '/'), '*'),
                1,
            );
        } else if ch == 'N' || ch == 'n' || ch == 'X' || ch == 'x' || ch == 'B' || ch == 'b' {
            lemma_prefixed_read(d, s, pos, loc);
        } else if conf.spec_is_string_literal_quotation(ch) {
            lemma_quoted_read(s, pos, ch);
        } else if conf.spec_is_delimited_identifier_start(ch) {
            lemma_quoted_read(s, pos, ch);
        } else if conf.spec_is_identifier_start(ch) {
            lemma_ident_read(d, s, pos, loc);
        } else if is_ascii_digit(ch) || ch == '.' {
            lemma_number_read(s, pos, loc);
        }
    }
}

/// The tokens of the input `s` from position `pos` on, each with the region
/// it covers, or the first error.
pub open spec fn spec_tokenize<D: Dialect>(d: D, s: Seq<char>, pos: usize, loc: LineColumn) -> Result<
    Seq<TokenTreeView>,
    (Seq<char>, LineColumn),
>
    decreases s.len() - pos,
{
    match spec_step(d, s, pos, loc) {
        Step::End => Ok(Seq::empty()),
        Step::Error(m, l) => Err((m, l)),
        Step::Skip(p, l) => if p <= pos || p > s.len() {
            Ok(Seq::empty())
        } else {
            spec_tokenize(d, s, p, l)
        },
        Step::Token(t, p, l) => if p <= pos || p > s.len() {
            Ok(Seq::empty())
        } else {
            match spec_tokenize(d, s, p, l) {
                Ok(rest) => Ok(seq![with_span(t, Span { start: loc, end: l })] + rest),
                Err(e) => Err(e),
            }
        },
    }
}

/// The abstract values of a token stream.
pub open spec fn token_tree_views(v: Seq<TokenTree>) -> Seq<TokenTreeView> {
    v.map_values(|t: TokenTree| t@)
}

/// Moving over `s[a..c]` is moving over `s[a..b]` and then over `s[b..c]`.
pub proof fn lemma_lc_advance_over_split(lc: LineColumn, s: Seq<char>, a: int, b: int, c: int)
    requires
        a <= b <= c,
    ensures
        spec_lc_advance_over(lc, s, a, c) == spec_lc_advance_over(
            spec_lc_advance_over(lc, s, a, b),
            s,
            b,
            c,
        ),
    decreases c - b,
{
    if b < c {
        lemma_lc_advance_over_split(lc, s, a, b, c - 1);
    }
}

// ============================================================================
// The cursor
// ============================================================================

/// A position in the input: the characters, the index of the next one and
/// its line and column.
struct Cursor {
    chars: Vec<char>,
    pos: usize,
    location: LineColumn,
}

impl Cursor {
    /// The position is within the input, and the line and the column are
    /// bounded by the number of characters read.
    spec fn wf(&self) -> bool {
        &&& self.pos <= self.chars.len()
        &&& self.chars.len() < usize::MAX
        &&& 1 <= self.location.line <= self.pos + 1
        &&& self.location.column <= self.pos
    }

    fn new(input: &str) -> (c: Cursor)
        requires
            input@.len() < usize::MAX,
        ensures
            c.wf(),
            c.chars@ == input@,
            c.pos == 0,
            c.location == (LineColumn { line: 1, column: 0 }),
    {
        Cursor { chars: chars_of(input), pos: 0, location: LineColumn::default() }
    }

    /// The next character, without reading it.
    fn peek(&self) -> (r: Option<char>)
        requires
            self.wf(),
        ensures
            r == (if self.pos < self.chars.len() {
                Some(self.chars@[self.pos as int])
            } else {
                None
            }),
    {
        if self.pos < self.chars.len() {
            Some(self.chars[self.pos])
        } else {
            None
        }
    }

    /// Reads the next character, if there is one.
    fn next(&mut self) -> (r: Option<char>)
        requires
            old(self).wf(),
        ensures
            final(self).wf(),
            final(self).chars == old(self).chars,
            old(self).pos < old(self).chars.len() ==> r == Some(old(self).chars@[old(self).pos as int])
                && final(self).pos == old(self).pos + 1 && final(self).location == spec_lc_advance(
                old(self).location,
                old(self).chars@[old(self).pos as int],
            ),
            old(self).pos >= old(self).chars.len() ==> r is None && *final(self) == *old(self),
    {
        if self.pos < self.chars.len() {
            let ch = self.chars[self.pos];
            self.pos = self.pos + 1;
            self.location.advance(ch);
            Some(ch)
        } else {
            None
        }
    }

    /// Whether the characters that follow are those of `tag`.
    fn starts_with(&self, tag: &str) -> (b: bool)
        requires
            self.wf(),
        ensures
            b == (self.pos + tag@.len() <= self.chars.len() && self.chars@.subrange(
                self.pos as int,
                self.pos + tag@.len(),
            ) == tag@),
    {
        let t = chars_of(tag);
        if t.len() > self.chars.len() - self.pos {
            return false;
        }
        let mut i: usize = 0;
        while i < t.len()
            invariant
                self.wf(),
                t@ == tag@,
                self.pos + t.len() <= self.chars.len(),
                i <= t.len(),
                forall|j: int| 0 <= j < i ==> self.chars@[self.pos + j] == t@[j],
            decreases t.len() - i,
        {
            if self.chars[self.pos + i] != t[i] {
                assert(self.chars@.subrange(self.pos as int, self.pos + tag@.len())[i as int]
                    != tag@[i as int]);
                return false;
            }
            i += 1;
        }
        assert(self.chars@.subrange(self.pos as int, self.pos + tag@.len()) =~= tag@);
        true
    }

    /// Reads the characters of `tag` if they are the ones that follow.
    fn try_next(&mut self, tag: &str) -> (b: bool)
        requires
            old(self).wf(),
        ensures
            final(self).wf(),
            final(self).chars == old(self).chars,
            b == (old(self).pos + tag@.len() <= old(self).chars.len() && old(self).chars@.subrange(
                old(self).pos as int,
                old(self).pos + tag@.len(),
            ) == tag@),
            b ==> final(self).pos == old(self).pos + tag@.len() && final(self).location
                == spec_lc_advance_over(
                old(self).location,
                old(self).chars@,
                old(self).pos as int,
                old(self).pos + tag@.len(),
            ),
            !b ==> *final(self) == *old(self),
    {
        if self.starts_with(tag) {
            let n = tag.unicode_len();
            let ghost start = self.pos;
            let end = self.pos + n;
            while self.pos < end
                invariant
                    self.wf(),
                    self.chars == old(self).chars,
                    start == old(self).pos <= self.pos <= end <= self.chars.len(),
                    self.location == spec_lc_advance_over(
                        old(self).location,
                        self.chars@,
                        start as int,
                        self.pos as int,
                    ),
                decreases end - self.pos,
            {
                self.next();
            }
            true
        } else {
            false
        }
    }

    /// Reads the next character if it is `ch`.
    fn next_if_is(&mut self, ch: char) -> (b: bool)
        requires
            old(self).wf(),
        ensures
            final(self).wf(),
            final(self).chars == old(self).chars,
            b == char_at(old(self).chars@, old(self).pos as int, ch),
            b ==> final(self).pos == old(self).pos + 1 && final(self).location == spec_lc_advance(
                old(self).location,
                ch,
            ),
            !b ==> *final(self) == *old(self),
    {
        if self.pos < self.chars.len() && self.chars[self.pos] == ch {
            self.next();
            true
        } else {
            false
        }
    }

    /// Reads the characters up to (not including) the next `stop` character
    /// or the end of the input.
    fn next_while_not(&mut self, stop: char) -> (r: String)
        requires
            old(self).wf(),
        ensures
            final(self).wf(),
            final(self).chars == old(self).chars,
            ({
                let s = old(self).chars@;
                let end = scan_while(s, old(self).pos as int, not_char(stop));
                &&& old(self).pos <= end <= s.len()
                &&& end < s.len() ==> s[end] == stop
                &&& final(self).pos == end
                &&& final(self).location == spec_lc_advance_over(old(self).location, s, old(self).pos as int, end)
                &&& r@ == s.subrange(old(self).pos as int, end)
            }),
    {
        let ghost s = self.chars@;
        let start = self.pos;
        proof {
            lemma_scan_while(s, start as int, not_char(stop));
        }
        while self.pos < self.chars.len() && self.chars[self.pos] != stop
            invariant
                self.wf(),
                self.chars == old(self).chars,
                self.chars@ == s,
                start == old(self).pos <= self.pos,
                scan_while(s, start as int, not_char(stop)) == scan_while(s, self.pos as int, not_char(stop)),
                self.location == spec_lc_advance_over(old(self).location, s, start as int, self.pos as int),
            decreases s.len() - self.pos,
        {
            self.next();
        }
        string_of(&self.chars, start, self.pos)
    }

    /// Reads the ASCII digits that follow.
    fn next_while_digit(&mut self)
        requires
            old(self).wf(),
        ensures
            final(self).wf(),
            final(self).chars == old(self).chars,
            ({
                let s = old(self).chars@;
                let end = scan_while(s, old(self).pos as int, digit_pred());
                &&& old(self).pos <= end <= s.len()
                &&& final(self).pos == end
                &&& final(self).location == spec_lc_advance_over(old(self).location, s, old(self).pos as int, end)
            }),
    {
        let ghost s = self.chars@;
        let start = self.pos;
        proof {
            lemma_scan_while(s, start as int, digit_pred());
        }
        while self.pos < self.chars.len() && ascii_digit(self.chars[self.pos])
            invariant
                self.wf(),
                self.chars == old(self).chars,
                self.chars@ == s,
                start == old(self).pos <= self.pos,
                scan_while(s, start as int, digit_pred()) == scan_while(s, self.pos as int, digit_pred()),
                self.location == spec_lc_advance_over(old(self).location, s, start as int, self.pos as int),
            decreases s.len() - self.pos,
        {
            self.next();
        }
    }

    /// Reads the characters that may continue an identifier in the lexer
    /// configuration `conf`.
    fn next_while_ident_part<C: DialectLexerConf>(&mut self, conf: &C)
        requires
            old(self).wf(),
        ensures
            final(self).wf(),
            final(self).chars == old(self).chars,
            ({
                let s = old(self).chars@;
                let end = scan_while(s, old(self).pos as int, ident_part_pred(*conf));
                &&& old(self).pos <= end <= s.len()
                &&& final(self).pos == end
                &&& final(self).location == spec_lc_advance_over(old(self).location, s, old(self).pos as int, end)
            }),
    {
        let ghost s = self.chars@;
        let ghost pred = ident_part_pred(*conf);
        let start = self.pos;
        proof {
            lemma_scan_while(s, start as int, pred);
        }
        while self.pos < self.chars.len() && conf.is_identifier_part(self.chars[self.pos])
            invariant
                self.wf(),
                self.chars == old(self).chars,
                self.chars@ == s,
                pred == ident_part_pred(*conf),
                start == old(self).pos <= self.pos,
                scan_while(s, start as int, pred) == scan_while(s, self.pos as int, pred),
                self.location == spec_lc_advance_over(old(self).location, s, start as int, self.pos as int),
            decreases s.len() - self.pos,
        {
            self.next();
        }
    }
}

// ============================================================================
// The lexer
// ============================================================================

/// What the lexer read at one position.
enum Lexed {
    /// The input is exhausted.
    End,
    /// Whitespace or a comment.
    Skipped,
    /// A token, with the default span.
    Token(TokenTree),
}

/// SQL lexer.
pub struct Lexer<'a, D: Dialect> {
    dialect: &'a D,
    cursor: Cursor,
}

impl<'a, D: Dialect> Lexer<'a, D> {
    /// The characters of the input.
    pub closed spec fn input(&self) -> Seq<char> {
        self.cursor.chars@
    }

    /// The position of the next character to read.
    pub closed spec fn position(&self) -> usize {
        self.cursor.pos
    }

    /// The line and column of the next character to read.
    pub closed spec fn spec_location(&self) -> LineColumn {
        self.cursor.location
    }

    /// The dialect of the lexer.
    pub closed spec fn spec_dialect(&self) -> D {
        *self.dialect
    }

    /// The lexer's position is within its input.
    pub closed spec fn wf(&self) -> bool {
        self.cursor.wf()
    }

    spec fn same_input(&self, other: &Self) -> bool {
        self.cursor.chars == other.cursor.chars && self.dialect == other.dialect
    }

    /// Creates a new SQL lexer for the given input string.
    pub fn new(dialect: &'a D, input: &'a str) -> (l: Self)
        requires
            input@.len() < usize::MAX,
        ensures
            l.wf(),
            l.input() == input@,
            l.position() == 0,
            l.spec_location() == (LineColumn { line: 1, column: 0 }),
            l.spec_dialect() == *dialect,
    {
        Lexer { dialect, cursor: Cursor::new(input) }
    }

    /// Tokenizes the statement and produces a sequence of tokens, each with
    /// the region of the input it covers; whitespace and comments are
    /// skipped.
    #[verifier::loop_isolation(false)]
    pub fn tokenize(self) -> (res: Result<TokenStream, LexerError>)
        requires
            self.wf(),
        ensures
            match spec_tokenize(self.spec_dialect(), self.input(), self.position(), self.spec_location()) {
                Ok(tokens) => res matches Ok(v) && token_tree_views(v@) == tokens,
                Err((m, l)) => res matches Err(e) && e.message@ == m && e.location == l,
            },
    {
        let ghost s = self.cursor.chars@;
        let ghost d = *self.dialect;
        let ghost start_pos = self.cursor.pos;
        let ghost start_loc = self.cursor.location;
        let mut lexer = self;
        let mut tokens: TokenStream = Vec::new();
        loop
            invariant
                lexer.wf(),
                lexer.cursor.chars@ == s,
                *lexer.dialect == d,
                spec_tokenize(d, s, start_pos, start_loc) == match spec_tokenize(
                    d,
                    s,
                    lexer.cursor.pos,
                    lexer.cursor.location,
                ) {
                    Ok(rest) => Ok(token_tree_views(tokens@) + rest),
                    Err(e) => Err(e),
                },
            decreases s.len() - lexer.cursor.pos,
        {
            let start = lexer.cursor.location;
            match lexer.next_token() {
                Err(e) => {
                    return Err(e);
                },
                Ok(Lexed::End) => {
                    assert(token_tree_views(tokens@) + Seq::<TokenTreeView>::empty() =~= token_tree_views(
                        tokens@,
                    ));
                    return Ok(tokens);
                },
                Ok(Lexed::Skipped) => {},
                Ok(Lexed::Token(token)) => {
                    let mut token = token;
                    let end = lexer.cursor.location;
                    token.set_span(Span::with(start, end));
                    let ghost before = tokens@;
                    tokens.push(token);
                    proof {
                        assert(token_tree_views(tokens@) =~= token_tree_views(before).push(token@));
                        match spec_tokenize(d, s, lexer.cursor.pos, lexer.cursor.location) {
                            Ok(rest) => {
                                assert(token_tree_views(before) + (seq![token@] + rest)
                                    =~= token_tree_views(tokens@) + rest);
                            },
                            Err(_) => {},
                        }
                    }
                },
            }
        }
    }

    /// Reads what stands at the current position: whitespace, a comment or a
    /// token.
    fn next_token(&mut self) -> (res: Result<Lexed, LexerError>)
        requires
            old(self).wf(),
        ensures
            final(self).wf(),
            final(self).same_input(old(self)),
            match spec_step(*old(self).dialect, old(self).cursor.chars@, old(self).cursor.pos, old(self).cursor.location) {
                Step::End => res matches Ok(Lexed::End),
                Step::Skip(p, l) => res matches Ok(Lexed::Skipped) && final(self).cursor.pos == p
                    && final(self).cursor.location == l && p > old(self).cursor.pos,
                Step::Token(t, p, l) => res matches Ok(Lexed::Token(tok)) && tok@ == t
                    && final(self).cursor.pos == p && final(self).cursor.location == l
                    && p > old(self).cursor.pos,
                Step::Error(m, l) => res matches Err(e) && e.message@ == m && e.location == l,
            },
    {
        let ch = match self.cursor.peek() {
            Some(ch) => ch,
            None => {
                return Ok(Lexed::End);
            },
        };
        if ch == ' ' || ch == '\t' || ch == '\n' || ch == '\r' {
            self.skip_whitespace();
            return Ok(Lexed::Skipped);
        }
        let ghost s = self.cursor.chars@;
        let ghost pos0 = self.cursor.pos;
        let ghost loc0 = self.cursor.location;
        if ch == '-' && self.cursor.try_next("--") {
            proof {
                reveal_strlit("--");
                assert(s[pos0 + 1] == s.subrange(pos0 as int, pos0 + 2)[1]);
                assert(spec_lc_advance_over(loc0, s, pos0 as int, pos0 + 1) == spec_lc_advance(loc0, '-'));
            }
            self.skip_single_line_comment();
            return Ok(Lexed::Skipped);
        }
        proof {
            reveal_strlit("--");
            if ch == '-' && char_at(self.cursor.chars@, self.cursor.pos + 1, '-') {
                assert(self.cursor.chars@.subrange(self.cursor.pos as int, self.cursor.pos + 2) =~= "--"@);
            }
        }
        if ch == '/' && self.cursor.try_next("/*") {
            proof {
                reveal_strlit("/*");
                assert(s[pos0 + 1] == s.subrange(pos0 as int, pos0 + 2)[1]);
                assert(spec_lc_advance_over(loc0, s, pos0 as int, pos0 + 1) == spec_lc_advance(loc0, '/'));
            }
            match self.skip_multi_line_comment() {
                Ok(()) => {
                    return Ok(Lexed::Skipped);
                },
                Err(e) => {
                    return Err(e);
                },
            }
        }
        proof {
            reveal_strlit("/*");
            if ch == '/' && char_at(self.cursor.chars@, self.cursor.pos + 1, '*') {
                assert(self.cursor.chars@.subrange(self.cursor.pos as int, self.cursor.pos + 2) =~= "/*"@);
            }
        }
        if ch == 'N' || ch == 'n' || ch == 'X' || ch == 'x' || ch == 'B' || ch == 'b' {
            self.tokenize_prefixed(ch)
        } else if self.dialect.lexer_conf().is_string_literal_quotation(ch) {
            self.cursor.next();
            match self.tokenize_string_literal(ch) {
                Ok(s) => Ok(Lexed::Token(TokenTree::Literal(Literal::string(s.as_str())))),
                Err(e) => Err(e),
            }
        } else if self.dialect.lexer_conf().is_delimited_identifier_start(ch) {
            self.cursor.next();
            match self.tokenize_delimited_ident(ch) {
                Ok(s) => Ok(Lexed::Token(TokenTree::Word(Word::new::<D::Keyword>(s.as_str(), Some(ch))))),
                Err(e) => Err(e),
            }
        } else if self.dialect.lexer_conf().is_identifier_start(ch) {
            self.cursor.next();
            let ident = self.tokenize_ident(ch);
            Ok(Lexed::Token(TokenTree::Word(Word::new::<D::Keyword>(ident.as_str(), None))))
        } else if ascii_digit(ch) || ch == '.' {
            Ok(Lexed::Token(self.tokenize_number()))
        } else {
            match self.tokenize_punct() {
                Ok(p) => Ok(Lexed::Token(TokenTree::Punct(p))),
                Err(e) => Err(e),
            }
        }
    }

    /// A `N'..'`, `X'..'` or `B'..'` literal, or a word that starts with the
    /// prefix letter.
    fn tokenize_prefixed(&mut self, first: char) -> (res: Result<Lexed, LexerError>)
        requires
            old(self).wf(),
            old(self).cursor.pos < old(self).cursor.chars.len(),
            old(self).cursor.chars@[old(self).cursor.pos as int] == first,
            first == 'N' || first == 'n' || first == 'X' || first == 'x' || first == 'B' || first == 'b',
        ensures
            final(self).wf(),
            final(self).same_input(old(self)),
            match spec_prefixed(*old(self).dialect, old(self).cursor.chars@, old(self).cursor.pos, old(self).cursor.location) {
                Step::Token(t, p, l) => res matches Ok(Lexed::Token(tok)) && tok@ == t
                    && final(self).cursor.pos == p && final(self).cursor.location == l
                    && p > old(self).cursor.pos,
                Step::Error(m, l) => res matches Err(e) && e.message@ == m && e.location == l,
                _ => false,
            },
    {
        self.cursor.next();
        if self.cursor.next_if_is('\'') {
            let s = match self.tokenize_string_literal('\'') {
                Ok(s) => s,
                Err(e) => {
                    return Err(e);
                },
            };
            let lit = if first == 'N' || first == 'n' {
                Literal::national_string(s.as_str())
            } else if first == 'X' || first == 'x' {
                Literal::hex_string(s.as_str())
            } else {
                Literal::bit_string(s.as_str())
            };
            Ok(Lexed::Token(TokenTree::Literal(lit)))
        } else {
            let ident = self.tokenize_ident(first);
            Ok(Lexed::Token(TokenTree::Word(Word::new::<D::Keyword>(ident.as_str(), None))))
        }
    }

    /// Skips one whitespace character.
    fn skip_whitespace(&mut self)
        requires
            old(self).wf(),
            old(self).cursor.pos < old(self).cursor.chars.len(),
        ensures
            final(self).wf(),
            final(self).same_input(old(self)),
            final(self).cursor.pos == old(self).cursor.pos + 1,
            final(self).cursor.location == spec_lc_advance(
                old(self).cursor.location,
                old(self).cursor.chars@[old(self).cursor.pos as int],
            ),
    {
        self.cursor.next();
    }

    /// Skips a single-line comment (after `--`) up to and including its line
    /// break.
    fn skip_single_line_comment(&mut self)
        requires
            old(self).wf(),
        ensures
            final(self).wf(),
            final(self).same_input(old(self)),
            spec_single_line_comment(old(self).cursor.chars@, old(self).cursor.pos, old(self).cursor.location)
                == Step::Skip(final(self).cursor.pos, final(self).cursor.location),
            final(self).cursor.pos >= old(self).cursor.pos,
    {
        let _comment = self.cursor.next_while_not('\n');
        self.cursor.next();
    }

    /// Skips a multi-line comment (after `/*`) up to its closing `*/`;
    /// nested comments are skipped with it.
    fn skip_multi_line_comment(&mut self) -> (res: Result<(), LexerError>)
        requires
            old(self).wf(),
        ensures
            final(self).wf(),
            final(self).same_input(old(self)),
            match spec_multi_line_comment(old(self).cursor.chars@, old(self).cursor.pos as int, old(self).cursor.location, 1) {
                Step::Skip(p, l) => res is Ok && final(self).cursor.pos == p && final(self).cursor.location == l
                    && p > old(self).cursor.pos,
                Step::Error(m, l) => res matches Err(e) && e.message@ == m && e.location == l,
                _ => false,
            },
    {
        let ghost s = self.cursor.chars@;
        let ghost start = self.cursor.pos;
        let ghost start_loc = self.cursor.location;
        let mut nested: usize = 1;
        loop
            invariant
                self.wf(),
                self.same_input(old(self)),
                self.cursor.chars@ == s,
                s == old(self).cursor.chars@,
                start == old(self).cursor.pos,
                start_loc == old(self).cursor.location,
                self.cursor.pos >= start,
                1 <= nested <= self.cursor.pos + 1,
                spec_multi_line_comment(s, start as int, start_loc, 1)
                    == spec_multi_line_comment(s, self.cursor.pos as int, self.cursor.location, nested as nat),
            decreases s.len() - self.cursor.pos,
        {
            match self.cursor.next() {
                Some(ch) => {
                    if ch == '*' && self.cursor.next_if_is('/') {
                        if nested == 1 {
                            return Ok(());
                        } else {
                            nested = nested - 1;
                        }
                    } else if ch == '/' && self.cursor.next_if_is('*') {
                        nested = nested + 1;
                    }
                },
                None => {
                    return self.tokenize_error("Unexpected EOF while in a multi-line comment");
                },
            }
        }
    }

    /// Reads a string literal up to its closing quotation mark (the opening
    /// one has been read).
    fn tokenize_string_literal(&mut self, quote: char) -> (res: Result<String, LexerError>)
        requires
            old(self).wf(),
        ensures
            final(self).wf(),
            final(self).same_input(old(self)),
            final(self).cursor.pos >= old(self).cursor.pos,
            match spec_string_literal(old(self).cursor.chars@, old(self).cursor.pos, old(self).cursor.location, quote) {
                Scanned::Found(text, p, l) => res matches Ok(s) && s@ == text && final(self).cursor.pos == p
                    && final(self).cursor.location == l,
                Scanned::Failed(m, l) => res matches Err(e) && e.message@ == m && e.location == l,
            },
    {
        let s = self.cursor.next_while_not(quote);
        match self.cursor.next() {
            Some(_) => Ok(s),
            None => self.tokenize_error("Unterminated string literal"),
        }
    }

    /// Reads a delimited identifier up to its closing quotation mark (the
    /// opening one has been read).
    fn tokenize_delimited_ident(&mut self, open_quote: char) -> (res: Result<String, LexerError>)
        requires
            old(self).wf(),
        ensures
            final(self).wf(),
            final(self).same_input(old(self)),
            final(self).cursor.pos >= old(self).cursor.pos,
            match spec_delimited_ident(old(self).cursor.chars@, old(self).cursor.pos, old(self).cursor.location, open_quote) {
                Scanned::Found(text, p, l) => res matches Ok(s) && s@ == text && final(self).cursor.pos == p
                    && final(self).cursor.location == l,
                Scanned::Failed(m, l) => res matches Err(e) && e.message@ == m && e.location == l,
            },
    {
        if open_quote != '"' && open_quote != '`' {
            return self.tokenize_error("Unexpected quoting style");
        }
        let close_quote = open_quote;
        let s = self.cursor.next_while_not(close_quote);
        if self.cursor.next_if_is(close_quote) {
            Ok(s)
        } else {
            let mut message = String::new();
            push_str(&mut message, "Expected close delimiter '");
            push_char(&mut message, close_quote);
            push_str(&mut message, "' before EOF");
            assert(message@ =~= spec_close_delimiter_message(close_quote));
            Err(LexerError { message, location: self.cursor.location })
        }
    }

    /// Reads the rest of a word whose first character `first` has been read.
    fn tokenize_ident(&mut self, first: char) -> (r: String)
        requires
            old(self).wf(),
            old(self).cursor.pos >= 1,
            old(self).cursor.chars@[old(self).cursor.pos - 1] == first,
        ensures
            final(self).wf(),
            final(self).same_input(old(self)),
            ({
                let s = old(self).cursor.chars@;
                let end = scan_while(s, old(self).cursor.pos as int,
                    ident_part_pred(old(self).dialect.spec_lexer_conf()));
                &&& r@ == s.subrange(old(self).cursor.pos - 1, end)
                &&& final(self).cursor.pos == end
                &&& old(self).cursor.pos <= end <= s.len()
                &&& final(self).cursor.location == spec_lc_advance_over(old(self).cursor.location, s,
                    old(self).cursor.pos as int, end)
            }),
    {
        proof {
            lemma_scan_while(self.cursor.chars@, self.cursor.pos as int,
                ident_part_pred(self.dialect.spec_lexer_conf()));
        }
        let start = self.cursor.pos - 1;
        self.cursor.next_while_ident_part(self.dialect.lexer_conf());
        string_of(&self.cursor.chars, start, self.cursor.pos)
    }

    /// Reads a number literal: digits, an optional period and digits. A
    /// period alone is a punctuation character.
    fn tokenize_number(&mut self) -> (t: TokenTree)
        requires
            old(self).wf(),
            old(self).cursor.pos < old(self).cursor.chars.len(),
            is_ascii_digit(old(self).cursor.chars@[old(self).cursor.pos as int])
                || old(self).cursor.chars@[old(self).cursor.pos as int] == '.',
        ensures
            final(self).wf(),
            final(self).same_input(old(self)),
            final(self).cursor.pos > old(self).cursor.pos,
            spec_number(old(self).cursor.chars@, old(self).cursor.pos, old(self).cursor.location)
                == Step::Token(t@, final(self).cursor.pos, final(self).cursor.location),
    {
        let ghost s = self.cursor.chars@;
        let ghost loc0 = self.cursor.location;
        let start = self.cursor.pos;
        proof {
            lemma_scan_while(s, start as int, digit_pred());
            if is_ascii_digit(s[start as int]) {
                lemma_scan_while(s, start + 1, digit_pred());
            }
        }
        self.cursor.next_while_digit();
        self.cursor.next_if_is('.');
        let ghost e2 = self.cursor.pos;
        proof {
            lemma_scan_while(s, e2 as int, digit_pred());
        }
        self.cursor.next_while_digit();
        proof {
            lemma_lc_advance_over_split(loc0, s, start as int, e2 as int, self.cursor.pos as int);
        }
        if self.cursor.pos - start == 1 && self.cursor.chars[start] == '.' {
            assert(s.subrange(start as int, self.cursor.pos as int) =~= seq!['.']);
            let spacing = match self.tokenize_punct_char() {
                Ok(_) => Spacing::Joint,
                Err(_) => Spacing::Alone,
            };
            TokenTree::Punct(Punct::new('.', spacing))
        } else {
            let text = string_of(&self.cursor.chars, start, self.cursor.pos);
            proof {
                if s.subrange(start as int, self.cursor.pos as int) == seq!['.'] {
                    assert(seq!['.'].len() == 1);
                    assert(seq!['.'][0] == '.');
                    assert(s.subrange(start as int, self.cursor.pos as int).len() == 1);
                    assert(s.subrange(start as int, self.cursor.pos as int)[0] == s[start as int]);
                }
            }
            TokenTree::Literal(Literal::number(text.as_str()))
        }
    }

    /// Reads a punctuation character.
    fn tokenize_punct(&mut self) -> (res: Result<Punct, LexerError>)
        requires
            old(self).wf(),
            old(self).cursor.pos < old(self).cursor.chars.len(),
        ensures
            final(self).wf(),
            final(self).same_input(old(self)),
            match spec_punct(old(self).cursor.chars@, old(self).cursor.pos, old(self).cursor.location) {
                Step::Token(t, p, l) => res matches Ok(punct) && TokenTree::Punct(punct)@ == t
                    && final(self).cursor.pos == p && final(self).cursor.location == l
                    && p > old(self).cursor.pos,
                Step::Error(m, l) => res matches Err(e) && e.message@ == m && e.location == l,
                _ => false,
            },
    {
        let ch = match self.tokenize_punct_char() {
            Ok(ch) => ch,
            Err(e) => {
                return Err(e);
            },
        };
        self.cursor.next();
        let spacing = match self.tokenize_punct_char() {
            Ok(_) => Spacing::Joint,
            Err(_) => Spacing::Alone,
        };
        Ok(Punct::new(ch, spacing))
    }

    /// The next character, if it is a punctuation character; an error
    /// otherwise (also at the end of the input).
    fn tokenize_punct_char(&self) -> (res: Result<char, LexerError>)
        requires
            self.wf(),
        ensures
            match res {
                Ok(ch) => self.cursor.pos < self.cursor.chars.len() && ch == self.cursor.chars@[self.cursor.pos as int]
                    && is_punct_char(ch),
                Err(e) => !(self.cursor.pos < self.cursor.chars.len() && is_punct_char(
                    self.cursor.chars@[self.cursor.pos as int],
                )) && e.message@ == "Unexpected EOF or punctuation character"@ && e.location
                    == self.cursor.location,
            },
    {
        match self.cursor.peek() {
            Some(ch) => if punct_char(ch) {
                Ok(ch)
            } else {
                self.tokenize_error("Unexpected EOF or punctuation character")
            },
            None => self.tokenize_error("Unexpected EOF or punctuation character"),
        }
    }

    /// An error with the given message at the current location.
    fn tokenize_error<R>(&self, message: &str) -> (res: Result<R, LexerError>)
        ensures
            res matches Err(e) && e.message@ == message@ && e.location == self.cursor.location,
    {
        Err(LexerError { message: String::from_str(message), location: self.cursor.location })
    }
}

/// Whether the lexer reads `c` as punctuation.
fn punct_char(c: char) -> (b: bool)
    ensures
        b == is_punct_char(c),
{
    c == '~' || c == '!' || c == '@' || c == '#' || c == '$' || c == '%' || c == '^' || c == '&'
        || c == '*' || c == '(' || c == ')' || c == '-' || c == '=' || c == '+' || c == '['
        || c == ']' || c == '{' || c == '}' || c == '|' || c == ';' || c == ':' || c == ','
        || c == '<' || c == '.' || c == '>' || c == '/' || c == '?' || c == '\''
}

} // verus!
