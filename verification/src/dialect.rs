//! SQL dialects: keyword sets and lexer configurations.
use vstd::prelude::*;

use crate::keyword_table::{is_extension_keyword, Keyword};

verus! {

/// A keyword definition: the set of keywords that a dialect recognises.
pub trait KeywordDef {
    /// Whether the dialect treats `k` as a keyword.
    spec fn spec_contains(k: Keyword) -> bool;

    /// Whether the dialect treats `k` as a keyword.
    fn contains(k: Keyword) -> (b: bool)
        ensures
            b == Self::spec_contains(k),
    ;
}

/// The configuration of the lexer part of a dialect.
pub trait DialectLexerConf {
    /// Whether `ch` is the quotation mark of a string literal.
    spec fn spec_is_string_literal_quotation(&self, ch: char) -> bool;

    /// Whether `ch` starts a quoted (delimited) identifier.
    spec fn spec_is_delimited_identifier_start(&self, ch: char) -> bool;

    /// Whether `ch` may start an unquoted identifier.
    spec fn spec_is_identifier_start(&self, ch: char) -> bool;

    /// Whether `ch` may continue an unquoted identifier.
    spec fn spec_is_identifier_part(&self, ch: char) -> bool;

    /// Whether whitespace tokens are left out of the lexer's result.
    spec fn spec_ignore_whitespace(&self) -> bool;

    /// Whether comment tokens are left out of the lexer's result.
    spec fn spec_ignore_comment(&self) -> bool;

    /// Whether `ch` is the quotation mark of a string literal.
    fn is_string_literal_quotation(&self, ch: char) -> (b: bool)
        ensures
            b == self.spec_is_string_literal_quotation(ch),
    ;

    /// Whether `ch` starts a quoted (delimited) identifier.
    fn is_delimited_identifier_start(&self, ch: char) -> (b: bool)
        ensures
            b == self.spec_is_delimited_identifier_start(ch),
    ;

    /// Whether `ch` may start an unquoted identifier.
    fn is_identifier_start(&self, ch: char) -> (b: bool)
        ensures
            b == self.spec_is_identifier_start(ch),
    ;

    /// Whether `ch` may continue an unquoted identifier.
    fn is_identifier_part(&self, ch: char) -> (b: bool)
        ensures
            b == self.spec_is_identifier_part(ch),
    ;

    /// Whether whitespace tokens are left out of the lexer's result.
    fn ignore_whitespace(&self) -> (b: bool)
        ensures
            b == self.spec_ignore_whitespace(),
    ;

    /// Whether comment tokens are left out of the lexer's result.
    fn ignore_comment(&self) -> (b: bool)
        ensures
            b == self.spec_ignore_comment(),
    ;
}

/// The configuration of the parser part of a dialect.
pub trait DialectParserConf {}

/// A SQL dialect: its keywords and the configuration of its lexer and parser.
pub trait Dialect {
    /// The keyword definition of the dialect.
    type Keyword: KeywordDef;

    /// The lexer configuration of the dialect.
    type LexerConf: DialectLexerConf;

    /// The parser configuration of the dialect.
    type ParserConf: DialectParserConf;

    /// The lexer configuration.
    spec fn spec_lexer_conf(&self) -> Self::LexerConf;

    /// Returns the lexer configuration.
    fn lexer_conf(&self) -> (c: &Self::LexerConf)
        ensures
            *c == self.spec_lexer_conf(),
    ;

    /// Returns the parser configuration.
    fn parser_conf(&self) -> &Self::ParserConf;
}

// ============================================================================
// Default character classes (ANSI SQL)
// ============================================================================

/// ASCII letter.
pub open spec fn is_ascii_alphabetic(ch: char) -> bool {
    ('a' <= ch && ch <= 'z') || ('A' <= ch && ch <= 'Z')
}

/// ASCII digit.
pub open spec fn is_ascii_digit(ch: char) -> bool {
    '0' <= ch && ch <= '9'
}

/// ASCII letter or digit.
pub open spec fn is_ascii_alphanumeric(ch: char) -> bool {
    is_ascii_alphabetic(ch) || is_ascii_digit(ch)
}

/// A character of the Basic Multilingual Plane outside ASCII.
pub open spec fn is_non_ascii_bmp(ch: char) -> bool {
    '\u{0080}' <= ch && ch <= '\u{ffff}'
}

/// Whether `ch` is an ASCII letter.
pub fn ascii_alphabetic(ch: char) -> (b: bool)
    ensures
        b == is_ascii_alphabetic(ch),
{
    ('a' <= ch && ch <= 'z') || ('A' <= ch && ch <= 'Z')
}

/// Whether `ch` is an ASCII digit.
pub fn ascii_digit(ch: char) -> (b: bool)
    ensures
        b == is_ascii_digit(ch),
{
    '0' <= ch && ch <= '9'
}

/// Whether `ch` is an ASCII letter or digit.
pub fn ascii_alphanumeric(ch: char) -> (b: bool)
    ensures
        b == is_ascii_alphanumeric(ch),
{
    ascii_alphabetic(ch) || ascii_digit(ch)
}

// ============================================================================
// Keyword definitions
// ============================================================================

/// ANSI SQL:2016 keywords.
#[derive(Copy, Clone, Debug, PartialEq, Eq, Hash, Default)]
pub struct AnsiKeyword;

impl KeywordDef for AnsiKeyword {
    open spec fn spec_contains(k: Keyword) -> bool {
        !is_extension_keyword(k)
    }

    fn contains(k: Keyword) -> (b: bool) {
        k.is_ansi()
    }
}

/// MySQL 8.0 keywords: the ANSI keywords together with `DATABASE`,
/// `DATETIME`, `IF`, `INDEX`, `LIMIT`, `REPLACE` and `XOR`.
#[derive(Copy, Clone, Debug, PartialEq, Eq, Hash, Default)]
pub struct MysqlKeyword;

impl KeywordDef for MysqlKeyword {
    open spec fn spec_contains(k: Keyword) -> bool {
        !is_extension_keyword(k) || k == Keyword::DATABASE || k == Keyword::DATETIME
            || k == Keyword::LIMIT || k == Keyword::REPLACE || k == Keyword::XOR
            || k == Keyword::IF || k == Keyword::INDEX
    }

    fn contains(k: Keyword) -> (b: bool) {
        k.is_ansi() || k == Keyword::DATABASE || k == Keyword::DATETIME || k == Keyword::LIMIT
            || k == Keyword::REPLACE || k == Keyword::XOR || k == Keyword::IF
            || k == Keyword::INDEX
    }
}

/// PostgreSQL 13 keywords: the ANSI keywords together with `DATABASE`,
/// `IF`, `ILIKE`, `INDEX`, `LIMIT` and `REPLACE`.
#[derive(Copy, Clone, Debug, PartialEq, Eq, Hash, Default)]
pub struct PostgresKeyword;

impl KeywordDef for PostgresKeyword {
    open spec fn spec_contains(k: Keyword) -> bool {
        !is_extension_keyword(k) || k == Keyword::DATABASE || k == Keyword::ILIKE
            || k == Keyword::LIMIT || k == Keyword::REPLACE || k == Keyword::IF
            || k == Keyword::INDEX
    }

    fn contains(k: Keyword) -> (b: bool) {
        k.is_ansi() || k == Keyword::DATABASE || k == Keyword::ILIKE || k == Keyword::LIMIT
            || k == Keyword::REPLACE || k == Keyword::IF || k == Keyword::INDEX
    }
}

/// SQLite 3 keywords: the ANSI keywords together with `DATABASE`, `IF`,
/// `INDEX`, `LIMIT` and `REPLACE`.
#[derive(Copy, Clone, Debug, PartialEq, Eq, Hash, Default)]
pub struct SqliteKeyword;

impl KeywordDef for SqliteKeyword {
    open spec fn spec_contains(k: Keyword) -> bool {
        !is_extension_keyword(k) || k == Keyword::DATABASE || k == Keyword::LIMIT
            || k == Keyword::REPLACE || k == Keyword::IF || k == Keyword::INDEX
    }

    fn contains(k: Keyword) -> (b: bool) {
        k.is_ansi() || k == Keyword::DATABASE || k == Keyword::LIMIT || k == Keyword::REPLACE
            || k == Keyword::IF || k == Keyword::INDEX
    }
}

// ============================================================================
// ANSI
// ============================================================================

/// The lexer configuration of the ANSI dialect.
#[derive(Copy, Clone, Debug, PartialEq, Eq, Default)]
pub struct AnsiLexerConfig {}

impl DialectLexerConf for AnsiLexerConfig {
    open spec fn spec_is_string_literal_quotation(&self, ch: char) -> bool {
        ch == '\''
    }

    open spec fn spec_is_delimited_identifier_start(&self, ch: char) -> bool {
        ch == '"'
    }

    open spec fn spec_is_identifier_start(&self, ch: char) -> bool {
        is_ascii_alphabetic(ch)
    }

    open spec fn spec_is_identifier_part(&self, ch: char) -> bool {
        is_ascii_alphanumeric(ch) || ch == '_'
    }

    open spec fn spec_ignore_whitespace(&self) -> bool {
        false
    }

    open spec fn spec_ignore_comment(&self) -> bool {
        false
    }

    fn is_string_literal_quotation(&self, ch: char) -> (b: bool) {
        ch == '\''
    }

    fn is_delimited_identifier_start(&self, ch: char) -> (b: bool) {
        ch == '"'
    }

    fn is_identifier_start(&self, ch: char) -> (b: bool) {
        ascii_alphabetic(ch)
    }

    fn is_identifier_part(&self, ch: char) -> (b: bool) {
        ascii_alphanumeric(ch) || ch == '_'
    }

    fn ignore_whitespace(&self) -> (b: bool) {
        false
    }

    fn ignore_comment(&self) -> (b: bool) {
        false
    }
}

/// The parser configuration of the ANSI dialect.
#[derive(Copy, Clone, Debug, PartialEq, Eq, Default)]
pub struct AnsiParserConfig {}

impl DialectParserConf for AnsiParserConfig {}

/// The ANSI dialect.
#[derive(Copy, Clone, Debug, PartialEq, Eq, Default)]
pub struct AnsiDialect {
    /// ANSI lexer configuration.
    pub lexer_conf: AnsiLexerConfig,
    /// ANSI parser configuration.
    pub parser_conf: AnsiParserConfig,
}

impl Dialect for AnsiDialect {
    type Keyword = AnsiKeyword;
    type LexerConf = AnsiLexerConfig;
    type ParserConf = AnsiParserConfig;

    open spec fn spec_lexer_conf(&self) -> AnsiLexerConfig {
        self.lexer_conf
    }

    fn lexer_conf(&self) -> (c: &AnsiLexerConfig) {
        &self.lexer_conf
    }

    fn parser_conf(&self) -> &AnsiParserConfig {
        &self.parser_conf
    }
}

// ============================================================================
// MySQL
// ============================================================================

/// The lexer configuration of the MySQL dialect.
#[derive(Copy, Clone, Debug, PartialEq, Eq)]
pub struct MySqlLexerConfig {
    /// If the ANSI_QUOTES SQL mode is enabled, identifiers may also be quoted
    /// with double quotation marks (and string literals use single quotes).
    pub ansi_quotes_mode: bool,
}

impl MySqlLexerConfig {
    /// The default MySQL lexer configuration (ANSI_QUOTES mode enabled).
    pub fn default() -> (c: Self)
        ensures
            c.ansi_quotes_mode,
    {
        MySqlLexerConfig { ansi_quotes_mode: true }
    }
}

impl DialectLexerConf for MySqlLexerConfig {
    open spec fn spec_is_string_literal_quotation(&self, ch: char) -> bool {
        if self.ansi_quotes_mode {
            ch == '\''
        } else {
            ch == '"'
        }
    }

    open spec fn spec_is_delimited_identifier_start(&self, ch: char) -> bool {
        if self.ansi_quotes_mode {
            ch == '"' || ch == '`'
        } else {
            ch == '`'
        }
    }

    open spec fn spec_is_identifier_start(&self, ch: char) -> bool {
        is_ascii_alphabetic(ch) || ch == '_' || ch == '$' || is_non_ascii_bmp(ch)
    }

    open spec fn spec_is_identifier_part(&self, ch: char) -> bool {
        is_ascii_alphanumeric(ch) || ch == '_' || ch == '$' || is_non_ascii_bmp(ch)
    }

    open spec fn spec_ignore_whitespace(&self) -> bool {
        false
    }

    open spec fn spec_ignore_comment(&self) -> bool {
        false
    }

    fn is_string_literal_quotation(&self, ch: char) -> (b: bool) {
        if self.ansi_quotes_mode {
            ch == '\''
        } else {
            ch == '"'
        }
    }

    fn is_delimited_identifier_start(&self, ch: char) -> (b: bool) {
        if self.ansi_quotes_mode {
            ch == '"' || ch == '`'
        } else {
            ch == '`'
        }
    }

    fn is_identifier_start(&self, ch: char) -> (b: bool) {
        ascii_alphabetic(ch) || ch == '_' || ch == '$' || ('\u{0080}' <= ch && ch <= '\u{ffff}')
    }

    fn is_identifier_part(&self, ch: char) -> (b: bool) {
        ascii_alphanumeric(ch) || ch == '_' || ch == '$' || ('\u{0080}' <= ch && ch
            <= '\u{ffff}')
    }

    fn ignore_whitespace(&self) -> (b: bool) {
        false
    }

    fn ignore_comment(&self) -> (b: bool) {
        false
    }
}

/// The parser configuration of the MySQL dialect.
#[derive(Copy, Clone, Debug, PartialEq, Eq, Default)]
pub struct MysqlParserConfig {}

impl DialectParserConf for MysqlParserConfig {}

/// The MySQL dialect.
#[derive(Copy, Clone, Debug, PartialEq, Eq)]
pub struct MysqlDialect {
    /// MySQL lexer configuration.
    pub lexer_conf: MySqlLexerConfig,
    /// MySQL parser configuration.
    pub parser_conf: MysqlParserConfig,
}

impl MysqlDialect {
    /// The MySQL dialect with its default configuration.
    pub fn default() -> (d: Self)
        ensures
            d.lexer_conf.ansi_quotes_mode,
    {
        MysqlDialect { lexer_conf: MySqlLexerConfig::default(), parser_conf: MysqlParserConfig {} }
    }
}

impl Dialect for MysqlDialect {
    type Keyword = MysqlKeyword;
    type LexerConf = MySqlLexerConfig;
    type ParserConf = MysqlParserConfig;

    open spec fn spec_lexer_conf(&self) -> MySqlLexerConfig {
        self.lexer_conf
    }

    fn lexer_conf(&self) -> (c: &MySqlLexerConfig) {
        &self.lexer_conf
    }

    fn parser_conf(&self) -> &MysqlParserConfig {
        &self.parser_conf
    }
}

// ============================================================================
// PostgreSQL
// ============================================================================

/// The lexer configuration of the PostgreSQL dialect.
#[derive(Copy, Clone, Debug, PartialEq, Eq, Default)]
pub struct PostgresLexerConfig {}

impl DialectLexerConf for PostgresLexerConfig {
    open spec fn spec_is_string_literal_quotation(&self, ch: char) -> bool {
        ch == '\''
    }

    open spec fn spec_is_delimited_identifier_start(&self, ch: char) -> bool {
        ch == '"'
    }

    open spec fn spec_is_identifier_start(&self, ch: char) -> bool {
        is_ascii_alphabetic(ch) || ch == '_'
    }

    open spec fn spec_is_identifier_part(&self, ch: char) -> bool {
        is_ascii_alphanumeric(ch) || ch == '_' || ch == '$'
    }

    open spec fn spec_ignore_whitespace(&self) -> bool {
        false
    }

    open spec fn spec_ignore_comment(&self) -> bool {
        false
    }

    fn is_string_literal_quotation(&self, ch: char) -> (b: bool) {
        ch == '\''
    }

    fn is_delimited_identifier_start(&self, ch: char) -> (b: bool) {
        ch == '"'
    }

    fn is_identifier_start(&self, ch: char) -> (b: bool) {
        ascii_alphabetic(ch) || ch == '_'
    }

    fn is_identifier_part(&self, ch: char) -> (b: bool) {
        ascii_alphanumeric(ch) || ch == '_' || ch == '$'
    }

    fn ignore_whitespace(&self) -> (b: bool) {
        false
    }

    fn ignore_comment(&self) -> (b: bool) {
        false
    }
}

/// The parser configuration of the PostgreSQL dialect.
#[derive(Copy, Clone, Debug, PartialEq, Eq, Default)]
pub struct PostgresParserConfig {}

impl DialectParserConf for PostgresParserConfig {}

/// The PostgreSQL dialect.
#[derive(Copy, Clone, Debug, PartialEq, Eq, Default)]
pub struct PostgresDialect {
    /// PostgreSQL lexer configuration.
    pub lexer_conf: PostgresLexerConfig,
    /// PostgreSQL parser configuration.
    pub parser_conf: PostgresParserConfig,
}

impl Dialect for PostgresDialect {
    type Keyword = PostgresKeyword;
    type LexerConf = PostgresLexerConfig;
    type ParserConf = PostgresParserConfig;

    open spec fn spec_lexer_conf(&self) -> PostgresLexerConfig {
        self.lexer_conf
    }

    fn lexer_conf(&self) -> (c: &PostgresLexerConfig) {
        &self.lexer_conf
    }

    fn parser_conf(&self) -> &PostgresParserConfig {
        &self.parser_conf
    }
}

// ============================================================================
// SQLite
// ============================================================================

/// The lexer configuration of the SQLite dialect.
#[derive(Copy, Clone, Debug, PartialEq, Eq, Default)]
pub struct SqliteLexerConfig {}

impl DialectLexerConf for SqliteLexerConfig {
    open spec fn spec_is_string_literal_quotation(&self, ch: char) -> bool {
        ch == '\''
    }

    open spec fn spec_is_delimited_identifier_start(&self, ch: char) -> bool {
        ch == '"' || ch == '`' || ch == '['
    }

    open spec fn spec_is_identifier_start(&self, ch: char) -> bool {
        is_ascii_alphabetic(ch) || ch == '_' || ch == '$' || is_non_ascii_bmp(ch)
    }

    open spec fn spec_is_identifier_part(&self, ch: char) -> bool {
        is_ascii_alphanumeric(ch) || ch == '_' || ch == '$' || is_non_ascii_bmp(ch)
    }

    open spec fn spec_ignore_whitespace(&self) -> bool {
        false
    }

    open spec fn spec_ignore_comment(&self) -> bool {
        false
    }

    fn is_string_literal_quotation(&self, ch: char) -> (b: bool) {
        ch == '\''
    }

    fn is_delimited_identifier_start(&self, ch: char) -> (b: bool) {
        ch == '"' || ch == '`' || ch == '['
    }

    fn is_identifier_start(&self, ch: char) -> (b: bool) {
        ascii_alphabetic(ch) || ch == '_' || ch == '$' || ('\u{0080}' <= ch && ch <= '\u{ffff}')
    }

    fn is_identifier_part(&self, ch: char) -> (b: bool) {
        ascii_alphanumeric(ch) || ch == '_' || ch == '$' || ('\u{0080}' <= ch && ch
            <= '\u{ffff}')
    }

    fn ignore_whitespace(&self) -> (b: bool) {
        false
    }

    fn ignore_comment(&self) -> (b: bool) {
        false
    }
}

/// The parser configuration of the SQLite dialect.
#[derive(Copy, Clone, Debug, PartialEq, Eq, Default)]
pub struct SqliteParserConfig {}

impl DialectParserConf for SqliteParserConfig {}

/// The SQLite dialect.
#[derive(Copy, Clone, Debug, PartialEq, Eq, Default)]
pub struct SqliteDialect {
    /// SQLite lexer configuration.
    pub lexer_conf: SqliteLexerConfig,
    /// SQLite parser configuration.
    pub parser_conf: SqliteParserConfig,
}

impl Dialect for SqliteDialect {
    type Keyword = SqliteKeyword;
    type LexerConf = SqliteLexerConfig;
    type ParserConf = SqliteParserConfig;

    open spec fn spec_lexer_conf(&self) -> SqliteLexerConfig {
        self.lexer_conf
    }

    fn lexer_conf(&self) -> (c: &SqliteLexerConfig) {
        &self.lexer_conf
    }

    fn parser_conf(&self) -> &SqliteParserConfig {
        &self.parser_conf
    }
}

// ============================================================================
// Custom dialect
// ============================================================================

/// A simple customizable SQL dialect: a keyword definition `K` with the
/// lexer configuration `L` and the parser configuration `P`.
#[derive(Clone, Debug)]
pub struct CustomDialect<K, L, P> {
    keyword: K,
    lexer_conf: L,
    parser_conf: P,
}

impl<K: KeywordDef + Default, L: DialectLexerConf, P: DialectParserConf> CustomDialect<K, L, P> {
    /// Creates a new SQL dialect.
    pub fn new(lexer_conf: L, parser_conf: P) -> (d: Self)
        ensures
            d.spec_lexer_conf() == lexer_conf,
            d.spec_parser_conf() == parser_conf,
    {
        CustomDialect { keyword: K::default(), lexer_conf, parser_conf }
    }

    /// The parser configuration of the dialect.
    pub closed spec fn spec_parser_conf(&self) -> P {
        self.parser_conf
    }
}

impl<K: KeywordDef, L: DialectLexerConf, P: DialectParserConf> Dialect for CustomDialect<K, L, P> {
    type Keyword = K;
    type LexerConf = L;
    type ParserConf = P;

    closed spec fn spec_lexer_conf(&self) -> L {
        self.lexer_conf
    }

    fn lexer_conf(&self) -> (c: &L) {
        &self.lexer_conf
    }

    fn parser_conf(&self) -> &P {
        &self.parser_conf
    }
}

} // verus!
