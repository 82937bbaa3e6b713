# usql

A universal SQL lexer and parser whose behaviour is stated in Verus
contracts and proved.

Layout:

- `src/keyword_table.rs`, `src/keyword.rs`: the keyword set and keyword lookup.
- `src/dialect.rs`: the dialects (ANSI, MySQL, PostgreSQL, SQLite) and the
  character classes and keyword sets that they configure.
- `src/token.rs`, `src/lexer.rs`, `src/error.rs`, `src/config.rs`: tokens, the
  lexer with its exact tokenizing function (`spec_tokenize`), errors with
  locations, and the lexer configuration builder.
- `src/next/`: the span-tracking lexer that yields token trees.
- `src/peek.rs`: the multi-peek iterator that the parser reads tokens through.
- `src/ast/`: the syntax tree of expressions, queries and statements, and its
  SQL text, each writer proved against a spec function of the text.
- `src/parser/`: the recursive descent and Pratt parser over tokens.
- `tests/`: the tests, run against the compiled library.
- `app/`: serde copies of library types, with conversions in both directions.
