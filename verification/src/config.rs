//! Lexer configuration and its builder.
use vstd::prelude::*;

use crate::dialect::{AnsiKeyword, KeywordDef};

verus! {

/// The longest multi-line comment, in lines, that a default configuration allows.
pub const DEFAULT_MAX_MULTI_LINE_COMMENT: u32 = 128;

/// The configuration of a lexer: the keyword set it recognises and the
/// longest multi-line comment it accepts.
#[derive(Copy, Clone, Debug)]
pub struct LexerConfig<K = AnsiKeyword> {
    pub(crate) keyword: K,
    pub(crate) max_multi_line_comment: u32,
}

impl<K: KeywordDef + Default> Default for LexerConfig<K> {
    fn default() -> (c: Self)
        ensures
            c.spec_max_multi_line_comment() == DEFAULT_MAX_MULTI_LINE_COMMENT,
    {
        LexerConfig { keyword: K::default(), max_multi_line_comment: DEFAULT_MAX_MULTI_LINE_COMMENT }
    }
}

impl<K: KeywordDef + Default> LexerConfig<K> {
    /// The longest multi-line comment that the configuration accepts.
    pub closed spec fn spec_max_multi_line_comment(&self) -> u32 {
        self.max_multi_line_comment
    }

    /// The default configuration.
    pub fn new() -> (c: Self)
        ensures
            c.spec_max_multi_line_comment() == DEFAULT_MAX_MULTI_LINE_COMMENT,
    {
        Self::default()
    }

    /// A builder that starts from the default configuration.
    pub fn builder() -> (b: LexerConfigBuilder<K>)
        ensures
            b.spec_max_multi_line_comment() == DEFAULT_MAX_MULTI_LINE_COMMENT,
    {
        LexerConfigBuilder::<K>::default()
    }
}

/// Builds a [`LexerConfig`] step by step.
#[derive(Copy, Clone, Debug)]
pub struct LexerConfigBuilder<K = AnsiKeyword> {
    keyword: K,
    max_multi_line_comment: u32,
}

impl<K: KeywordDef + Default> Default for LexerConfigBuilder<K> {
    fn default() -> (b: Self)
        ensures
            b.spec_max_multi_line_comment() == DEFAULT_MAX_MULTI_LINE_COMMENT,
    {
        LexerConfigBuilder {
            keyword: K::default(),
            max_multi_line_comment: DEFAULT_MAX_MULTI_LINE_COMMENT,
        }
    }
}

impl<K: KeywordDef + Default> LexerConfigBuilder<K> {
    /// The longest multi-line comment that the built configuration will accept.
    pub closed spec fn spec_max_multi_line_comment(&self) -> u32 {
        self.max_multi_line_comment
    }

    /// Sets the longest multi-line comment; the builder is handed back for
    /// further settings.
    pub fn max_multi_line_comment(&mut self, max: u32) -> (r: &mut Self)
        ensures
            r.spec_max_multi_line_comment() == max,
            *final(self) == *final(r),
    {
        self.max_multi_line_comment = max;
        self
    }

    /// The configuration with the settings made so far.
    pub fn build(self) -> (c: LexerConfig<K>)
        ensures
            c.spec_max_multi_line_comment() == self.spec_max_multi_line_comment(),
    {
        LexerConfig { keyword: self.keyword, max_multi_line_comment: self.max_multi_line_comment }
    }
}

} // verus!
