//! The tokens produced by the span-tracking lexer.
use vstd::prelude::*;

use crate::dialect::KeywordDef;
use crate::keyword::{lookup_keyword, spec_lookup_keyword};
use crate::keyword_table::Keyword;
use crate::next::span::Span;
use crate::text::{push_char, push_str, spec_to_uppercase, string_equals, to_uppercase};
use crate::token::{ident_quote_ok, spec_ident_sql, IdentView};

verus! {

/// Marker trait for types that represent a single token.
pub trait Token {
    /// Whether the token can come next.
    fn peek() -> bool;
}

/// A token type defined outside this module; every such type is a [`Token`].
pub trait CustomToken {
    /// Whether the token can come next.
    fn peek() -> bool;
}

impl<T: CustomToken> Token for T {
    fn peek() -> bool {
        <T as CustomToken>::peek()
    }
}

/// A keyword (like SELECT) or an optionally quoted SQL identifier.
#[derive(Clone, Debug)]
pub struct Word {
    /// The keyword, if the word is unquoted and is a keyword of the dialect.
    pub keyword: Option<Keyword>,
    /// The value of the word, without the enclosing quotes.
    pub value: String,
    /// The quote character of a quoted identifier.
    pub quote: Option<char>,
    /// Where the word stands in the input.
    pub span: Span,
}

/// Whether two optional characters are equal.
fn option_char_eq(a: Option<char>, b: Option<char>) -> (r: bool)
    ensures
        r == (a == b),
{
    match (a, b) {
        (Some(x), Some(y)) => x == y,
        (None, None) => true,
        _ => false,
    }
}

/// Whether two optional keywords are equal.
fn option_keyword_eq(a: Option<Keyword>, b: Option<Keyword>) -> (r: bool)
    ensures
        r == (a == b),
{
    match (a, b) {
        (Some(x), Some(y)) => x == y,
        (None, None) => true,
        _ => false,
    }
}

impl PartialEq for Word {
    fn eq(&self, other: &Self) -> (r: bool) {
        option_keyword_eq(self.keyword, other.keyword) && string_equals(&self.value, &other.value)
            && option_char_eq(self.quote, other.quote)
    }
}

impl vstd::std_specs::cmp::PartialEqSpecImpl for Word {
    open spec fn obeys_eq_spec() -> bool {
        true
    }

    open spec fn eq_spec(&self, other: &Self) -> bool {
        self.keyword == other.keyword && self.value@ == other.value@ && self.quote == other.quote
    }
}

/// The keyword of an unquoted word: the keyword whose text is the upper case
/// word, if the keyword definition `K` has it.
pub open spec fn spec_word_keyword<K: KeywordDef>(value: Seq<char>, quote: Option<char>) -> Option<
    Keyword,
> {
    if quote is None {
        match spec_lookup_keyword(spec_to_uppercase(value)) {
            Some(k) => if K::spec_contains(k) {
                Some(k)
            } else {
                None
            },
            None => None,
        }
    } else {
        None
    }
}

/// The keyword of the keyword definition `K` whose text is the upper case
/// `value`, if there is one.
fn keyword_of<K: KeywordDef>(value: &str) -> (k: Option<Keyword>)
    ensures
        k == spec_word_keyword::<K>(value@, None),
{
    let upper = to_uppercase(value);
    match lookup_keyword(upper.as_str()) {
        Some(k) => if K::contains(k) {
            Some(k)
        } else {
            None
        },
        None => None,
    }
}

impl Word {
    /// Creates a SQL keyword or an optionally quoted SQL identifier: an
    /// unquoted word is a keyword if its upper case form is a keyword of `K`.
    pub fn new<K: KeywordDef>(value: &str, quote: Option<char>) -> (w: Word)
        ensures
            w.value@ == value@,
            w.quote == quote,
            w.keyword == spec_word_keyword::<K>(value@, quote),
            w.span == Span::spec_default(),
    {
        let keyword = if quote.is_none() {
            keyword_of::<K>(value)
        } else {
            None
        };
        Word { keyword, value: String::from_str(value), quote, span: Span::new() }
    }

    /// Creates a SQL keyword, if the upper case form of `value` is a keyword
    /// of `K`.
    pub fn keyword<K: KeywordDef>(value: &str) -> (w: Option<Word>)
        ensures
            w is Some <==> spec_word_keyword::<K>(value@, None) is Some,
            w matches Some(w) ==> w.value@ == value@ && w.quote is None && w.keyword
                == spec_word_keyword::<K>(value@, None) && w.span == Span::spec_default(),
    {
        match keyword_of::<K>(value) {
            Some(kw) => Some(
                Word {
                    keyword: Some(kw),
                    value: String::from_str(value),
                    quote: None,
                    span: Span::new(),
                },
            ),
            None => None,
        }
    }

    /// Returns the span for this word.
    pub fn span(&self) -> (s: Span)
        ensures
            s == self.span,
    {
        self.span
    }

    /// Configures the span for this word.
    pub fn set_span(&mut self, span: Span)
        ensures
            final(self).span == span,
            final(self).keyword == old(self).keyword,
            final(self).value == old(self).value,
            final(self).quote == old(self).quote,
    {
        self.span = span;
    }

    /// Appends the text of the word (quoted with its quote character).
    pub fn write_sql(&self, out: &mut String)
        requires
            ident_quote_ok(self.quote),
        ensures
            final(out)@ == old(out)@ + spec_ident_sql(IdentView { value: self.value@, quote: self.quote }),
    {
        match self.quote {
            None => push_str(out, self.value.as_str()),
            Some(q) => {
                push_char(out, q);
                push_str(out, self.value.as_str());
                push_char(out, q);
                assert(out@ =~= old(out)@ + spec_ident_sql(
                    IdentView { value: self.value@, quote: self.quote },
                ));
            },
        }
    }
}

impl Span {
    /// The span that `Span::new` creates.
    pub open spec fn spec_default() -> Span {
        Span {
            start: crate::next::span::LineColumn { line: 1, column: 0 },
            end: crate::next::span::LineColumn { line: 1, column: 0 },
        }
    }
}

/// Whether a `Punct` is followed immediately by another `Punct` or by
/// another token or whitespace.
#[derive(Copy, Clone, Debug, PartialEq, Eq, Structural)]
pub enum Spacing {
    /// E.g. `+` is `Alone` in `+ =`, `+ident` or `+()`.
    Alone,
    /// E.g. `+` is `Joint` in `+=`.
    Joint,
}

/// A single punctuation character like `+`, `-` or `#`.
#[derive(Copy, Clone, Debug)]
pub struct Punct {
    /// The character.
    pub ch: char,
    /// Whether another punctuation character follows immediately.
    pub spacing: Spacing,
    /// Where the character stands in the input.
    pub span: Span,
}

impl PartialEq for Punct {
    fn eq(&self, other: &Self) -> (r: bool) {
        self.ch == other.ch && self.spacing == other.spacing
    }
}

impl vstd::std_specs::cmp::PartialEqSpecImpl for Punct {
    open spec fn obeys_eq_spec() -> bool {
        true
    }

    open spec fn eq_spec(&self, other: &Self) -> bool {
        self.ch == other.ch && self.spacing == other.spacing
    }
}

impl Punct {
    /// Creates a new `Punct` from the given character and spacing, with the
    /// default span; the character must be one the lexer reads as
    /// punctuation.
    pub fn new(ch: char, spacing: Spacing) -> (p: Punct)
        requires
            crate::next::lexer::is_punct_char(ch),
        ensures
            p == (Punct { ch, spacing, span: Span::spec_default() }),
    {
        Punct { ch, spacing, span: Span::new() }
    }

    /// Returns the value of this punctuation character.
    pub fn as_char(&self) -> (c: char)
        ensures
            c == self.ch,
    {
        self.ch
    }

    /// Returns the spacing of this punctuation character.
    pub fn spacing(&self) -> (s: Spacing)
        ensures
            s == self.spacing,
    {
        self.spacing
    }

    /// Returns the span for this punctuation character.
    pub fn span(&self) -> (s: Span)
        ensures
            s == self.span,
    {
        self.span
    }

    /// Configures the span for this punctuation character.
    pub fn set_span(&mut self, span: Span)
        ensures
            *final(self) == (Punct { span, ..*old(self) }),
    {
        self.span = span;
    }

    /// Appends the character.
    pub fn write_sql(&self, out: &mut String)
        ensures
            final(out)@ == old(out)@.push(self.ch),
    {
        push_char(out, self.ch);
    }
}

/// The kind of a literal.
#[derive(Copy, Clone, Debug, PartialEq, Eq, Structural)]
pub enum LiteralKind {
    /// Unsigned number literal.
    Number,
    /// Character string literal.
    String,
    /// National character string literal.
    NationalString,
    /// Hexadecimal character string literal.
    HexString,
    /// Bit string literal.
    BitString,
}

/// A character string literal (`'hello'`), national character string
/// literal (`N'你好'`), hexadecimal string literal (`X'deadbeef'`), bit string
/// literal (`B'101010'`), or number literal (`2.3`).
#[derive(Clone, Debug)]
pub struct Literal {
    /// The kind of the literal.
    pub kind: LiteralKind,
    /// The text of the literal, without quotes.
    pub text: String,
    /// Where the literal stands in the input.
    pub span: Span,
}

impl PartialEq for Literal {
    fn eq(&self, other: &Self) -> (r: bool) {
        self.kind == other.kind && string_equals(&self.text, &other.text)
    }
}

impl vstd::std_specs::cmp::PartialEqSpecImpl for Literal {
    open spec fn obeys_eq_spec() -> bool {
        true
    }

    open spec fn eq_spec(&self, other: &Self) -> bool {
        self.kind == other.kind && self.text@ == other.text@
    }
}

/// The text of a literal.
pub open spec fn spec_literal_sql(kind: LiteralKind, text: Seq<char>) -> Seq<char> {
    match kind {
        LiteralKind::Number => text,
        LiteralKind::String => "'"@ + text + "'"@,
        LiteralKind::NationalString => "N'"@ + text + "'"@,
        LiteralKind::HexString => "X'"@ + text + "'"@,
        LiteralKind::BitString => "B'"@ + text + "'"@,
    }
}

impl Literal {
    fn make(kind: LiteralKind, text: &str) -> (l: Literal)
        ensures
            l.kind == kind,
            l.text@ == text@,
            l.span == Span::spec_default(),
    {
        Literal { kind, text: String::from_str(text), span: Span::new() }
    }

    /// Number literal.
    pub fn number(n: &str) -> (l: Literal)
        ensures
            l.kind == LiteralKind::Number,
            l.text@ == n@,
            l.span == Span::spec_default(),
    {
        Self::make(LiteralKind::Number, n)
    }

    /// String literal.
    pub fn string(s: &str) -> (l: Literal)
        ensures
            l.kind == LiteralKind::String,
            l.text@ == s@,
            l.span == Span::spec_default(),
    {
        Self::make(LiteralKind::String, s)
    }

    /// National string literal.
    pub fn national_string(s: &str) -> (l: Literal)
        ensures
            l.kind == LiteralKind::NationalString,
            l.text@ == s@,
            l.span == Span::spec_default(),
    {
        Self::make(LiteralKind::NationalString, s)
    }

    /// Hexadecimal string literal.
    pub fn hex_string(s: &str) -> (l: Literal)
        ensures
            l.kind == LiteralKind::HexString,
            l.text@ == s@,
            l.span == Span::spec_default(),
    {
        Self::make(LiteralKind::HexString, s)
    }

    /// Bit string literal.
    pub fn bit_string(s: &str) -> (l: Literal)
        ensures
            l.kind == LiteralKind::BitString,
            l.text@ == s@,
            l.span == Span::spec_default(),
    {
        Self::make(LiteralKind::BitString, s)
    }

    /// Returns the span for this literal.
    pub fn span(&self) -> (s: Span)
        ensures
            s == self.span,
    {
        self.span
    }

    /// Configures the span for this literal.
    pub fn set_span(&mut self, span: Span)
        ensures
            final(self).span == span,
            final(self).kind == old(self).kind,
            final(self).text == old(self).text,
    {
        self.span = span;
    }

    /// Appends the text of the literal.
    pub fn write_sql(&self, out: &mut String)
        ensures
            final(out)@ == old(out)@ + spec_literal_sql(self.kind, self.text@),
    {
        match self.kind {
            LiteralKind::Number => push_str(out, self.text.as_str()),
            LiteralKind::String => {
                push_str(out, "'");
                push_str(out, self.text.as_str());
                push_str(out, "'");
            },
            LiteralKind::NationalString => {
                push_str(out, "N'");
                push_str(out, self.text.as_str());
                push_str(out, "'");
            },
            LiteralKind::HexString => {
                push_str(out, "X'");
                push_str(out, self.text.as_str());
                push_str(out, "'");
            },
            LiteralKind::BitString => {
                push_str(out, "B'");
                push_str(out, self.text.as_str());
                push_str(out, "'");
            },
        }
    }
}

/// A SQL token with its span.
#[derive(Clone, Debug, PartialEq)]
pub enum TokenTree {
    /// A keyword or an optionally quoted SQL identifier.
    Word(Word),
    /// A single punctuation character.
    Punct(Punct),
    /// A literal.
    Literal(Literal),
}

/// A SQL token stream.
pub type TokenStream = Vec<TokenTree>;

/// The abstract value of a token: its kind, text and span.
pub enum TokenTreeView {
    /// A keyword or identifier.
    Word { keyword: Option<Keyword>, value: Seq<char>, quote: Option<char>, span: Span },
    /// A punctuation character.
    Punct { ch: char, spacing: Spacing, span: Span },
    /// A literal.
    Literal { kind: LiteralKind, text: Seq<char>, span: Span },
}

impl View for TokenTree {
    type V = TokenTreeView;

    open spec fn view(&self) -> TokenTreeView {
        match self {
            TokenTree::Word(w) => TokenTreeView::Word {
                keyword: w.keyword,
                value: w.value@,
                quote: w.quote,
                span: w.span,
            },
            TokenTree::Punct(p) => TokenTreeView::Punct { ch: p.ch, spacing: p.spacing, span: p.span },
            TokenTree::Literal(l) => TokenTreeView::Literal { kind: l.kind, text: l.text@, span: l.span },
        }
    }
}

/// The token with its span replaced.
pub open spec fn with_span(t: TokenTreeView, span: Span) -> TokenTreeView {
    match t {
        TokenTreeView::Word { keyword, value, quote, .. } => TokenTreeView::Word {
            keyword,
            value,
            quote,
            span,
        },
        TokenTreeView::Punct { ch, spacing, .. } => TokenTreeView::Punct { ch, spacing, span },
        TokenTreeView::Literal { kind, text, .. } => TokenTreeView::Literal { kind, text, span },
    }
}

/// The span of a token.
pub open spec fn span_of(t: TokenTreeView) -> Span {
    match t {
        TokenTreeView::Word { span, .. } => span,
        TokenTreeView::Punct { span, .. } => span,
        TokenTreeView::Literal { span, .. } => span,
    }
}

/// Whether a token can be written out (a word must be unquoted or quoted with
/// `"` or `` ` ``).
pub open spec fn token_tree_wf(t: TokenTreeView) -> bool {
    t matches TokenTreeView::Word { quote, .. } ==> ident_quote_ok(quote)
}

/// The text of a token.
pub open spec fn spec_token_tree_sql(t: TokenTreeView) -> Seq<char> {
    match t {
        TokenTreeView::Word { value, quote, .. } => spec_ident_sql(IdentView { value, quote }),
        TokenTreeView::Punct { ch, .. } => seq![ch],
        TokenTreeView::Literal { kind, text, .. } => spec_literal_sql(kind, text),
    }
}

impl TokenTree {
    /// Returns the span of this token.
    pub fn span(&self) -> (s: Span)
        ensures
            s == span_of(self@),
    {
        match self {
            TokenTree::Word(t) => t.span(),
            TokenTree::Punct(t) => t.span(),
            TokenTree::Literal(t) => t.span(),
        }
    }

    /// Configures the span for only this token.
    pub fn set_span(&mut self, span: Span)
        ensures
            final(self)@ == with_span(old(self)@, span),
    {
        match self {
            TokenTree::Word(t) => t.set_span(span),
            TokenTree::Punct(t) => t.set_span(span),
            TokenTree::Literal(t) => t.set_span(span),
        }
    }

    /// Appends the text of the token.
    pub fn write_sql(&self, out: &mut String)
        requires
            token_tree_wf(self@),
        ensures
            final(out)@ == old(out)@ + spec_token_tree_sql(self@),
    {
        match self {
            TokenTree::Word(w) => w.write_sql(out),
            TokenTree::Punct(p) => {
                p.write_sql(out);
                assert(out@ =~= old(out)@ + seq![p.ch]);
            },
            TokenTree::Literal(l) => l.write_sql(out),
        }
    }

    /// The text of the token.
    pub fn to_string(&self) -> (s: String)
        requires
            token_tree_wf(self@),
        ensures
            s@ == spec_token_tree_sql(self@),
    {
        let mut s = String::new();
        self.write_sql(&mut s);
        s
    }
}

} // verus!
