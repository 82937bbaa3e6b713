use usql::config::{LexerConfig, LexerConfigBuilder};
use usql::dialect::{AnsiKeyword, MysqlKeyword};

#[test]
fn default_config_allows_128_comment_lines() {
    let config = LexerConfig::<AnsiKeyword>::new();
    assert_eq!(
        format!("{:?}", config),
        "LexerConfig { keyword: AnsiKeyword, max_multi_line_comment: 128 }"
    );
}

#[test]
fn builder_starts_from_the_default() {
    let builder: LexerConfigBuilder<MysqlKeyword> = LexerConfig::<MysqlKeyword>::builder();
    assert_eq!(
        format!("{:?}", builder.build()),
        "LexerConfig { keyword: MysqlKeyword, max_multi_line_comment: 128 }"
    );
}

#[test]
fn builder_keeps_the_last_setting() {
    let mut builder = LexerConfig::<AnsiKeyword>::builder();
    builder.max_multi_line_comment(16).max_multi_line_comment(32);
    let config = builder.build();
    assert_eq!(
        format!("{:?}", config),
        "LexerConfig { keyword: AnsiKeyword, max_multi_line_comment: 32 }"
    );
}
