//! The constraints of column, table and domain definitions, as functions on
//! tokens.
use vstd::prelude::*;

use crate::ast::statement::ddl::{
    ColumnConstraint, ColumnConstraintDef, ColumnDef, CreateDomainStmt, DomainConstraint,
    DomainConstraintDef, ReferentialAction, ReferentialMatchType, TableConstraint,
};
use crate::ast::types::{idents_view, DataType};
use crate::ast::view::{expr_v, opt_ident_v, ExprV};
use crate::keyword_table::Keyword;
use crate::parser::grammar::{lemma_subexpr_len, shift, spec_subexpr, Parsed};
use crate::parser::ddl::{starts_column_constraint, starts_domain_constraint};
use crate::parser::query::{lemma_idents_len, spec_optional_column_list};
use crate::parser::types::{
    lemma_object_name_len, spec_data_type, spec_literal,
    spec_object_name, word_ident,
};
use crate::token::{is_keyword_token, spec_token_sql, IdentView, Token, TokenView};
use crate::ast::statement::ddl::{
    column_constraint_sql, match_type_sql, references_tail_sql, referential_action_sql,
    table_constraint_sql,
};
use crate::parser::grammar::words_read;
use crate::ast::statement::{expr_text, name_text};
use crate::ast::text::idents_sql;

verus! {

/// What follows the table of a referential constraint: the referenced
/// columns, the match type and the actions.
pub struct ReferencesV {
    /// The referenced columns.
    pub columns: Seq<IdentView>,
    /// `MATCH { FULL | PARTIAL | SIMPLE }`
    pub match_type: Option<ReferentialMatchType>,
    /// `ON UPDATE <action>`
    pub on_update: Option<ReferentialAction>,
    /// `ON DELETE <action>`
    pub on_delete: Option<ReferentialAction>,
}

/// The abstract value of a column constraint.
pub enum ColumnConstraintV {
    /// `NULL`
    Null,
    /// `NOT NULL`
    NotNull,
    /// `{ PRIMARY KEY | UNIQUE }`
    Unique { is_primary: bool },
    /// `REFERENCES <table> ...`
    References { table: Seq<IdentView>, tail: ReferencesV },
    /// `CHECK ( <expr> )`
    Check(ExprV),
}

/// The abstract value of a table constraint.
pub enum TableConstraintV {
    /// `{ PRIMARY KEY | UNIQUE } ( <columns> )`
    Unique { columns: Seq<IdentView>, is_primary: bool },
    /// `FOREIGN KEY ( <columns> ) REFERENCES <table> ...`
    ForeignKey { referencing_columns: Seq<IdentView>, table: Seq<IdentView>, tail: ReferencesV },
    /// `CHECK ( <expr> )`
    Check(ExprV),
}

/// The abstract value of a domain constraint.
pub enum DomainConstraintV {
    /// `NULL`
    Null,
    /// `NOT NULL`
    NotNull,
    /// `CHECK <expr>`
    Check(ExprV),
}

/// The abstract value of a column constraint.
pub open spec fn column_constraint_v(c: ColumnConstraint) -> ColumnConstraintV {
    match c {
        ColumnConstraint::Null => ColumnConstraintV::Null,
        ColumnConstraint::NotNull => ColumnConstraintV::NotNull,
        ColumnConstraint::Unique { is_primary } => ColumnConstraintV::Unique { is_primary },
        ColumnConstraint::References {
            table,
            referenced_columns,
            match_type,
            on_update,
            on_delete,
        } => ColumnConstraintV::References {
            table: table@,
            tail: ReferencesV {
                columns: idents_view(referenced_columns@),
                match_type,
                on_update,
                on_delete,
            },
        },
        ColumnConstraint::Check(e) => ColumnConstraintV::Check(expr_v(*e)),
    }
}

/// The abstract value of a table constraint.
pub open spec fn table_constraint_v(c: TableConstraint) -> TableConstraintV {
    match c {
        TableConstraint::Unique { columns, is_primary } => TableConstraintV::Unique {
            columns: idents_view(columns@),
            is_primary,
        },
        TableConstraint::ForeignKey {
            referencing_columns,
            table,
            referenced_columns,
            match_type,
            on_update,
            on_delete,
        } => TableConstraintV::ForeignKey {
            referencing_columns: idents_view(referencing_columns@),
            table: table@,
            tail: ReferencesV {
                columns: idents_view(referenced_columns@),
                match_type,
                on_update,
                on_delete,
            },
        },
        TableConstraint::Check(e) => TableConstraintV::Check(expr_v(*e)),
    }
}

/// The abstract value of a domain constraint.
pub open spec fn domain_constraint_v(c: DomainConstraint) -> DomainConstraintV {
    match c {
        DomainConstraint::Null => DomainConstraintV::Null,
        DomainConstraint::NotNull => DomainConstraintV::NotNull,
        DomainConstraint::Check(e) => DomainConstraintV::Check(expr_v(*e)),
    }
}

/// Whether the first two tokens are the keywords `a` and `b`.
pub open spec fn two_keywords(s: Seq<Token>, a: Keyword, b: Keyword) -> bool {
    s.len() > 1 && is_keyword_token(s[0]@, a) && is_keyword_token(s[1]@, b)
}

/// Whether the first token is the keyword `k`.
pub open spec fn first_keyword(s: Seq<Token>, k: Keyword) -> bool {
    s.len() > 0 && is_keyword_token(s[0]@, k)
}

/// `( <expr> )` at the front of the tokens.
pub open spec fn spec_parenthesized(s: Seq<Token>) -> Parsed<ExprV> {
    if s.len() > 0 && s[0]@ == TokenView::LeftParen {
        match spec_subexpr(s.skip(1), 0) {
            Parsed::Done(e, n) => if s.len() > n + 1 && s[n + 1int]@ == TokenView::RightParen {
                Parsed::Done(e, n + 2)
            } else {
                Parsed::Fails
            },
            Parsed::Fails => Parsed::Fails,
        }
    } else {
        Parsed::Fails
    }
}

/// `( <column> [, ...] )` at the front of the tokens: the columns and the
/// number of tokens.
pub open spec fn spec_column_list(s: Seq<Token>) -> Option<(Seq<IdentView>, nat)> {
    match spec_optional_column_list(s) {
        Some((Some(l), n)) => Some((l, n)),
        _ => None,
    }
}

/// `CONSTRAINT <name>` or nothing at the front of the tokens: the name, and
/// the number of tokens; `None` where `CONSTRAINT` has no name after it.
pub open spec fn spec_constraint_name(s: Seq<Token>) -> Option<(Option<IdentView>, nat)> {
    if first_keyword(s, Keyword::CONSTRAINT) {
        if s.len() > 1 && word_ident(s[1]@) is Some {
            Some((Some(word_ident(s[1]@)->0), 2))
        } else {
            None
        }
    } else {
        Some((None, 0))
    }
}

/// A referential action at the front of the tokens: `CASCADE`, `RESTRICT`,
/// `SET NULL`, `SET DEFAULT` or `NO ACTION`, and its number of tokens.
pub open spec fn spec_referential_action(s: Seq<Token>) -> Option<(ReferentialAction, nat)> {
    if first_keyword(s, Keyword::CASCADE) {
        Some((ReferentialAction::Cascade, 1))
    } else if first_keyword(s, Keyword::RESTRICT) {
        Some((ReferentialAction::Restrict, 1))
    } else if two_keywords(s, Keyword::SET, Keyword::NULL) {
        Some((ReferentialAction::SetNull, 2))
    } else if two_keywords(s, Keyword::SET, Keyword::DEFAULT) {
        Some((ReferentialAction::SetDefault, 2))
    } else if two_keywords(s, Keyword::NO, Keyword::ACTION) {
        Some((ReferentialAction::NoAction, 2))
    } else {
        None
    }
}

/// `MATCH { FULL | PARTIAL | SIMPLE }` or nothing at the front of the
/// tokens.
pub open spec fn spec_match_clause(s: Seq<Token>) -> Option<(Option<ReferentialMatchType>, nat)> {
    if first_keyword(s, Keyword::MATCH) {
        if first_keyword(s.skip(1), Keyword::FULL) {
            Some((Some(ReferentialMatchType::Full), 2))
        } else if first_keyword(s.skip(1), Keyword::PARTIAL) {
            Some((Some(ReferentialMatchType::Partial), 2))
        } else if first_keyword(s.skip(1), Keyword::SIMPLE) {
            Some((Some(ReferentialMatchType::Simple), 2))
        } else {
            None
        }
    } else {
        Some((None, 0))
    }
}

/// A referential action writes back as the keywords it was read from,
/// separated by a space: `CASCADE`, `RESTRICT`, `SET NULL`, `SET DEFAULT`,
/// `NO ACTION`.
pub proof fn law_referential_action_is_its_text(s: Seq<Token>)
    ensures
        spec_referential_action(s) matches Some((a, n)) ==> (n == 1 || n == 2) && n <= s.len()
            && referential_action_sql(a) == (if n == 1 {
            spec_token_sql(s[0]@)
        } else {
            spec_token_sql(s[0]@) + " "@ + spec_token_sql(s[1]@)
        }),
{
    reveal_strlit("CASCADE");
    reveal_strlit("RESTRICT");
    reveal_strlit("SET");
    reveal_strlit("NULL");
    reveal_strlit("DEFAULT");
    reveal_strlit("NO");
    reveal_strlit("ACTION");
    reveal_strlit("SET NULL");
    reveal_strlit("SET DEFAULT");
    reveal_strlit("NO ACTION");
    reveal_strlit(" ");
    assert("SET NULL"@ =~= "SET"@ + " "@ + "NULL"@);
    assert("SET DEFAULT"@ =~= "SET"@ + " "@ + "DEFAULT"@);
    assert("NO ACTION"@ =~= "NO"@ + " "@ + "ACTION"@);
}

/// A `MATCH` clause's match type writes back as the keyword it was read
/// from: `FULL`, `PARTIAL` and `SIMPLE` each name their own type.
pub proof fn law_match_type_is_its_keyword(s: Seq<Token>)
    ensures
        spec_match_clause(s) matches Some((Some(m), n)) ==> n == 2 && s.len() > 1 && match_type_sql(
            m,
        ) == spec_token_sql(s[1]@),
{
    reveal_strlit("FULL");
    reveal_strlit("PARTIAL");
    reveal_strlit("SIMPLE");
}

/// `ON <event> <action>` or nothing at the front of the tokens.
pub open spec fn spec_on_action(s: Seq<Token>, event: Keyword) -> Option<(Option<ReferentialAction>, nat)> {
    if two_keywords(s, Keyword::ON, event) {
        match spec_referential_action(s.skip(2)) {
            Some((a, n)) => Some((Some(a), n + 2)),
            None => None,
        }
    } else {
        Some((None, 0))
    }
}

/// What follows the table of a referential constraint at the front of the
/// tokens: `[( <columns> )] [MATCH <type>] [ON UPDATE <action>]
/// [ON DELETE <action>]`, and its number of tokens.
pub open spec fn spec_references_tail(s: Seq<Token>) -> Option<(ReferencesV, nat)> {
    match spec_optional_column_list(s) {
        Some((c, a)) => match spec_match_clause(s.skip(a as int)) {
            Some((m, b)) => match spec_on_action(s.skip(a as int).skip(b as int), Keyword::UPDATE) {
                Some((u, c2)) => match spec_on_action(
                    s.skip(a as int).skip(b as int).skip(c2 as int),
                    Keyword::DELETE,
                ) {
                    Some((d, e)) => Some((
                        ReferencesV {
                            columns: match c {
                                Some(l) => l,
                                None => Seq::empty(),
                            },
                            match_type: m,
                            on_update: u,
                            on_delete: d,
                        },
                        a + b + c2 + e,
                    )),
                    None => None,
                },
                None => None,
            },
            None => None,
        },
        None => None,
    }
}

/// A column constraint at the front of the tokens.
pub open spec fn spec_column_constraint(s: Seq<Token>) -> Parsed<ColumnConstraintV> {
    if first_keyword(s, Keyword::NULL) {
        Parsed::Done(ColumnConstraintV::Null, 1)
    } else if two_keywords(s, Keyword::NOT, Keyword::NULL) {
        Parsed::Done(ColumnConstraintV::NotNull, 2)
    } else if first_keyword(s, Keyword::UNIQUE) {
        Parsed::Done(ColumnConstraintV::Unique { is_primary: false }, 1)
    } else if two_keywords(s, Keyword::PRIMARY, Keyword::KEY) {
        Parsed::Done(ColumnConstraintV::Unique { is_primary: true }, 2)
    } else if first_keyword(s, Keyword::REFERENCES) {
        match spec_object_name(s.skip(1)) {
            Some((table, a)) => match spec_references_tail(s.skip(1).skip(a as int)) {
                Some((tail, b)) => Parsed::Done(ColumnConstraintV::References { table, tail }, 1 + a + b),
                None => Parsed::Fails,
            },
            None => Parsed::Fails,
        }
    } else if first_keyword(s, Keyword::CHECK) {
        match spec_parenthesized(s.skip(1)) {
            Parsed::Done(e, n) => Parsed::Done(ColumnConstraintV::Check(e), n + 1),
            Parsed::Fails => Parsed::Fails,
        }
    } else {
        Parsed::Fails
    }
}

/// A table constraint at the front of the tokens.
pub open spec fn spec_table_constraint(s: Seq<Token>) -> Parsed<TableConstraintV> {
    if first_keyword(s, Keyword::UNIQUE) {
        match spec_column_list(s.skip(1)) {
            Some((columns, n)) => Parsed::Done(TableConstraintV::Unique { columns, is_primary: false }, n + 1),
            None => Parsed::Fails,
        }
    } else if two_keywords(s, Keyword::PRIMARY, Keyword::KEY) {
        match spec_column_list(s.skip(2)) {
            Some((columns, n)) => Parsed::Done(TableConstraintV::Unique { columns, is_primary: true }, n + 2),
            None => Parsed::Fails,
        }
    } else if two_keywords(s, Keyword::FOREIGN, Keyword::KEY) {
        match spec_column_list(s.skip(2)) {
            Some((referencing_columns, a)) => {
                let t = s.skip(2).skip(a as int);
                if first_keyword(t, Keyword::REFERENCES) {
                    match spec_object_name(t.skip(1)) {
                        Some((table, b)) => match spec_references_tail(t.skip(1).skip(b as int)) {
                            Some((tail, c)) => Parsed::Done(
                                TableConstraintV::ForeignKey { referencing_columns, table, tail },
                                2 + a + 1 + b + c,
                            ),
                            None => Parsed::Fails,
                        },
                        None => Parsed::Fails,
                    }
                } else {
                    Parsed::Fails
                }
            },
            None => Parsed::Fails,
        }
    } else if first_keyword(s, Keyword::CHECK) {
        match spec_parenthesized(s.skip(1)) {
            Parsed::Done(e, n) => Parsed::Done(TableConstraintV::Check(e), n + 1),
            Parsed::Fails => Parsed::Fails,
        }
    } else {
        Parsed::Fails
    }
}

/// A domain constraint at the front of the tokens.
pub open spec fn spec_domain_constraint(s: Seq<Token>) -> Parsed<DomainConstraintV> {
    if first_keyword(s, Keyword::NULL) {
        Parsed::Done(DomainConstraintV::Null, 1)
    } else if two_keywords(s, Keyword::NOT, Keyword::NULL) {
        Parsed::Done(DomainConstraintV::NotNull, 2)
    } else if first_keyword(s, Keyword::CHECK) {
        match spec_subexpr(s.skip(1), 0) {
            Parsed::Done(e, n) => Parsed::Done(DomainConstraintV::Check(e), n + 1),
            Parsed::Fails => Parsed::Fails,
        }
    } else {
        Parsed::Fails
    }
}

/// The number of keywords that introduce a constraint at the front of the
/// tokens: two for `NOT NULL`, `PRIMARY KEY` and `FOREIGN KEY`, one
/// otherwise.
pub open spec fn constraint_keyword_count(s: Seq<Token>) -> nat {
    if s.len() > 0 && (is_keyword_token(s[0]@, Keyword::NOT) || is_keyword_token(
        s[0]@,
        Keyword::PRIMARY,
    ) || is_keyword_token(s[0]@, Keyword::FOREIGN)) {
        2
    } else {
        1
    }
}

/// Whether `text` starts with `w`.
pub open spec fn starts_with(text: Seq<char>, w: Seq<char>) -> bool {
    w.len() <= text.len() && text.subrange(0, w.len() as int) == w
}

pub proof fn lemma_starts_with(w: Seq<char>, rest: Seq<char>)
    ensures
        starts_with(w + rest, w),
{
    assert((w + rest).subrange(0, w.len() as int) =~= w);
}

proof fn lemma_constraint_words()
    ensures
        "NOT NULL"@ == "NOT"@ + " "@ + "NULL"@,
        "PRIMARY KEY"@ == "PRIMARY"@ + " "@ + "KEY"@,
        "FOREIGN KEY ("@ == "FOREIGN"@ + " "@ + "KEY"@ + " ("@,
        "CHECK ("@ == "CHECK"@ + " ("@,
        "REFERENCES "@ == "REFERENCES"@ + " "@,
{
    reveal_strlit("NOT NULL");
    reveal_strlit("NOT");
    reveal_strlit("NULL");
    reveal_strlit(" ");
    reveal_strlit("PRIMARY KEY");
    reveal_strlit("PRIMARY");
    reveal_strlit("KEY");
    reveal_strlit("FOREIGN KEY (");
    reveal_strlit("FOREIGN");
    reveal_strlit(" (");
    reveal_strlit("CHECK (");
    reveal_strlit("CHECK");
    reveal_strlit("REFERENCES ");
    reveal_strlit("REFERENCES");
    assert("NOT NULL"@ =~= "NOT"@ + " "@ + "NULL"@);
    assert("PRIMARY KEY"@ =~= "PRIMARY"@ + " "@ + "KEY"@);
    assert("FOREIGN KEY ("@ =~= "FOREIGN"@ + " "@ + "KEY"@ + " ("@);
    assert("CHECK ("@ =~= "CHECK"@ + " ("@);
    assert("REFERENCES "@ =~= "REFERENCES"@ + " "@);
}

/// A column constraint writes back starting with the keywords it was read
/// from (`NULL`, `NOT NULL`, `UNIQUE`, `PRIMARY KEY`, `REFERENCES`,
/// `CHECK`); a constraint of keywords alone writes back as exactly those
/// keywords.
pub proof fn law_column_constraint_is_its_keywords(s: Seq<Token>, c: ColumnConstraint)
    ensures
        spec_column_constraint(s) matches Parsed::Done(v, n) ==> (column_constraint_v(c) == v ==> {
            let m = constraint_keyword_count(s);
            &&& m <= s.len()
            &&& starts_with(column_constraint_sql(c), words_read(s, m))
            &&& (v is Null || v is NotNull || v is Unique) ==> column_constraint_sql(c) == words_read(s, m)
        }),
{
    lemma_constraint_words();
    reveal_strlit("NULL");
    reveal_strlit("UNIQUE");
    reveal_strlit(" ");
    if let Parsed::Done(v, n) = spec_column_constraint(s) {
        if column_constraint_v(c) == v {
            let text = column_constraint_sql(c);
            let w = words_read(s, constraint_keyword_count(s));
            match c {
                ColumnConstraint::References { table, referenced_columns, match_type, on_update, on_delete } => {
                    lemma_starts_with("REFERENCES"@, " "@ + name_text(table) + references_tail_sql(
                        referenced_columns@,
                        match_type,
                        on_update,
                        on_delete,
                    ));
                    assert(text =~= "REFERENCES"@ + (" "@ + name_text(table) + references_tail_sql(
                        referenced_columns@,
                        match_type,
                        on_update,
                        on_delete,
                    )));
                },
                ColumnConstraint::Check(e) => {
                    lemma_starts_with("CHECK"@, " ("@ + expr_text(*e) + ")"@);
                    assert(text =~= "CHECK"@ + (" ("@ + expr_text(*e) + ")"@));
                },
                _ => {
                    lemma_starts_with(w, Seq::empty());
                    assert(w + Seq::<char>::empty() =~= w);
                },
            }
        }
    }
}

/// A table constraint writes back starting with the keywords it was read
/// from: `UNIQUE`, `PRIMARY KEY`, `FOREIGN KEY` or `CHECK`.
pub proof fn law_table_constraint_is_its_keywords(s: Seq<Token>, c: TableConstraint)
    ensures
        spec_table_constraint(s) matches Parsed::Done(v, n) ==> (table_constraint_v(c) == v ==> {
            let m = constraint_keyword_count(s);
            m <= s.len() && starts_with(table_constraint_sql(c), words_read(s, m))
        }),
{
    lemma_constraint_words();
    reveal_strlit("UNIQUE");
    reveal_strlit(" (");
    if let Parsed::Done(v, n) = spec_table_constraint(s) {
        if table_constraint_v(c) == v {
            let text = table_constraint_sql(c);
            match c {
                TableConstraint::Unique { columns, is_primary } => {
                    let kw = if is_primary {
                        "PRIMARY KEY"@
                    } else {
                        "UNIQUE"@
                    };
                    let rest = " ("@ + idents_sql(idents_view(columns@)) + ")"@;
                    lemma_starts_with(kw, rest);
                    assert(text =~= kw + rest);
                },
                TableConstraint::ForeignKey {
                    referencing_columns,
                    table,
                    referenced_columns,
                    match_type,
                    on_update,
                    on_delete,
                } => {
                    let rest = " ("@ + idents_sql(idents_view(referencing_columns@)) + ") REFERENCES "@
                        + name_text(table) + references_tail_sql(
                        referenced_columns@,
                        match_type,
                        on_update,
                        on_delete,
                    );
                    lemma_starts_with("FOREIGN"@ + " "@ + "KEY"@, rest);
                    assert(text =~= "FOREIGN"@ + " "@ + "KEY"@ + rest);
                },
                TableConstraint::Check(e) => {
                    lemma_starts_with("CHECK"@, " ("@ + expr_text(*e) + ")"@);
                    assert(text =~= "CHECK"@ + (" ("@ + expr_text(*e) + ")"@));
                },
            }
        }
    }
}

/// A constraint with its optional name at the front of the tokens, `inner`
/// being the outcome of reading the constraint itself after the name.
pub open spec fn with_name<V>(s: Seq<Token>, inner: spec_fn(Seq<Token>) -> Parsed<V>) -> Parsed<(Option<IdentView>, V)> {
    match spec_constraint_name(s) {
        Some((name, a)) => match inner(s.skip(a as int)) {
            Parsed::Done(c, b) => Parsed::Done((name, c), a + b),
            Parsed::Fails => Parsed::Fails,
        },
        None => Parsed::Fails,
    }
}

/// A parenthesized expression takes at least two tokens and no more than
/// there are.
pub proof fn lemma_parenthesized_len(s: Seq<Token>)
    ensures
        spec_parenthesized(s) matches Parsed::Done(_, n) ==> 2 <= n <= s.len(),
{
    if s.len() > 0 {
        lemma_subexpr_len(s.skip(1), 0);
    }
}

/// An optional column list takes no more tokens than there are.
pub proof fn lemma_optional_column_list_len(s: Seq<Token>)
    ensures
        spec_optional_column_list(s) matches Some((c, n)) ==> n <= s.len() && (c is Some ==> n
            >= 2),
{
    if s.len() > 0 {
        lemma_idents_len(s.skip(1));
    }
}

/// What follows the table of a referential constraint takes no more tokens
/// than there are.
pub proof fn lemma_references_tail_len(s: Seq<Token>)
    ensures
        spec_references_tail(s) matches Some((_, n)) ==> n <= s.len(),
{
    lemma_optional_column_list_len(s);
    if let Some((c, a)) = spec_optional_column_list(s) {
        let t1 = s.skip(a as int);
        if let Some((m, b)) = spec_match_clause(t1) {
            let t2 = t1.skip(b as int);
            if let Some((u, c2)) = spec_on_action(t2, Keyword::UPDATE) {
                let t3 = t2.skip(c2 as int);
                if let Some((d, e)) = spec_on_action(t3, Keyword::DELETE) {
                    assert(e <= t3.len());
                }
            }
        }
    }
}

/// A column constraint takes at least one token and no more than there are.
pub proof fn lemma_column_constraint_len(s: Seq<Token>)
    ensures
        spec_column_constraint(s) matches Parsed::Done(_, n) ==> 0 < n <= s.len(),
{
    if s.len() > 0 {
        lemma_object_name_len(s.skip(1));
        if let Some((t, a)) = spec_object_name(s.skip(1)) {
            lemma_references_tail_len(s.skip(1).skip(a as int));
        }
        lemma_parenthesized_len(s.skip(1));
    }
}

/// A table constraint takes at least one token and no more than there are.
pub proof fn lemma_table_constraint_len(s: Seq<Token>)
    ensures
        spec_table_constraint(s) matches Parsed::Done(_, n) ==> 0 < n <= s.len(),
{
    if s.len() > 0 {
        lemma_optional_column_list_len(s.skip(1));
        lemma_parenthesized_len(s.skip(1));
    }
    if s.len() > 1 {
        lemma_optional_column_list_len(s.skip(2));
        if let Some((c, a)) = spec_column_list(s.skip(2)) {
            let t = s.skip(2).skip(a as int);
            if t.len() > 0 {
                lemma_object_name_len(t.skip(1));
                if let Some((table, b)) = spec_object_name(t.skip(1)) {
                    lemma_references_tail_len(t.skip(1).skip(b as int));
                }
            }
        }
    }
}

/// A domain constraint takes at least one token and no more than there are.
pub proof fn lemma_domain_constraint_len(s: Seq<Token>)
    ensures
        spec_domain_constraint(s) matches Parsed::Done(_, n) ==> 0 < n <= s.len(),
{
    if s.len() > 0 {
        lemma_subexpr_len(s.skip(1), 0);
    }
}

/// A named column constraint takes at least one token and no more than
/// there are.
pub proof fn lemma_column_constraint_def_len(s: Seq<Token>)
    ensures
        with_name(s, |t: Seq<Token>| spec_column_constraint(t)) matches Parsed::Done(_, n) ==> 0 < n
            <= s.len(),
{
    if let Some((_, a)) = spec_constraint_name(s) {
        lemma_column_constraint_len(s.skip(a as int));
    }
}

/// The abstract value of a column definition.
pub struct ColumnDefV {
    /// The column name.
    pub name: IdentView,
    /// The data type.
    pub data_type: DataType,
    /// The column constraints with their names.
    pub constraints: Seq<(Option<IdentView>, ColumnConstraintV)>,
    /// `DEFAULT <literal>`
    pub default: Option<ExprV>,
    /// `COLLATE <collation>`
    pub collation: Option<Seq<IdentView>>,
}

/// The abstract values of named column constraints.
pub open spec fn column_constraint_defs_v(s: Seq<ColumnConstraintDef>) -> Seq<(Option<IdentView>, ColumnConstraintV)> {
    s.map_values(|d: ColumnConstraintDef| (opt_ident_v(d.name), column_constraint_v(d.constraint)))
}

/// The abstract value of a column definition.
pub open spec fn column_def_v(d: ColumnDef) -> ColumnDefV {
    ColumnDefV {
        name: d.name@,
        data_type: d.data_type,
        constraints: column_constraint_defs_v(d.constraints@),
        default: match d.default {
            Some(e) => Some(expr_v(e)),
            None => None,
        },
        collation: match d.collation {
            Some(c) => Some(c@),
            None => None,
        },
    }
}

/// The abstract value of a column definition from its parts.
pub open spec fn column_acc(
    name: IdentView,
    data_type: DataType,
    constraints: Seq<ColumnConstraintDef>,
    default: Option<crate::ast::expression::Expr>,
    collation: Option<crate::ast::types::ObjectName>,
) -> ColumnDefV {
    ColumnDefV {
        name,
        data_type,
        constraints: column_constraint_defs_v(constraints),
        default: match default {
            Some(e) => Some(expr_v(e)),
            None => None,
        },
        collation: match collation {
            Some(c) => Some(c@),
            None => None,
        },
    }
}

/// The options after the data type of a column at the front of the tokens,
/// `acc` being the definition read so far: `DEFAULT <literal>`,
/// `COLLATE <collation>` and column constraints, in any order; a later
/// `DEFAULT` or `COLLATE` replaces an earlier one.
pub open spec fn spec_column_options(t: Seq<Token>, acc: ColumnDefV) -> Parsed<ColumnDefV>
    decreases t.len(),
{
    if first_keyword(t, Keyword::DEFAULT) {
        match spec_literal(t.skip(1)) {
            Some((l, n)) => if n + 1 <= t.len() {
                shift(
                    spec_column_options(
                        t.skip(n + 1int),
                        ColumnDefV {
                            name: acc.name,
                            data_type: acc.data_type,
                            constraints: acc.constraints,
                            default: Some(ExprV::Literal(l)),
                            collation: acc.collation,
                        },
                    ),
                    n + 1,
                )
            } else {
                Parsed::Fails
            },
            None => Parsed::Fails,
        }
    } else if first_keyword(t, Keyword::COLLATE) {
        match spec_object_name(t.skip(1)) {
            Some((c, n)) => if n + 1 <= t.len() {
                shift(
                    spec_column_options(
                        t.skip(n + 1int),
                        ColumnDefV {
                            name: acc.name,
                            data_type: acc.data_type,
                            constraints: acc.constraints,
                            default: acc.default,
                            collation: Some(c),
                        },
                    ),
                    n + 1,
                )
            } else {
                Parsed::Fails
            },
            None => Parsed::Fails,
        }
    } else if t.len() > 0 && starts_column_constraint(t[0]@) {
        match with_name(t, |x: Seq<Token>| spec_column_constraint(x)) {
            Parsed::Done(c, n) => if 0 < n <= t.len() {
                shift(
                    spec_column_options(
                        t.skip(n as int),
                        ColumnDefV {
                            name: acc.name,
                            data_type: acc.data_type,
                            constraints: acc.constraints.push(c),
                            default: acc.default,
                            collation: acc.collation,
                        },
                    ),
                    n,
                )
            } else {
                Parsed::Fails
            },
            Parsed::Fails => Parsed::Fails,
        }
    } else {
        Parsed::Done(acc, 0)
    }
}

/// A column definition at the front of the tokens:
/// `<name> <data type> { <column constraint> | DEFAULT <literal> | COLLATE <collation> }`.
pub open spec fn spec_column_def(s: Seq<Token>) -> Parsed<ColumnDefV> {
    if s.len() > 0 && word_ident(s[0]@) is Some {
        let t = s.skip(1);
        match spec_data_type(t) {
            Some((data_type, m)) => if m <= t.len() {
                shift(
                    spec_column_options(
                        t.skip(m as int),
                        ColumnDefV {
                            name: word_ident(s[0]@)->0,
                            data_type,
                            constraints: Seq::empty(),
                            default: None,
                            collation: None,
                        },
                    ),
                    m + 1,
                )
            } else {
                Parsed::Fails
            },
            None => Parsed::Fails,
        }
    } else {
        Parsed::Fails
    }
}

/// A named domain constraint takes at least one token and no more than
/// there are.
pub proof fn lemma_domain_constraint_def_len(s: Seq<Token>)
    ensures
        with_name(s, |t: Seq<Token>| spec_domain_constraint(t)) matches Parsed::Done(_, n) ==> 0 < n
            <= s.len(),
{
    if let Some((_, a)) = spec_constraint_name(s) {
        lemma_domain_constraint_len(s.skip(a as int));
    }
}

/// The abstract value of a `CREATE DOMAIN` statement.
pub struct CreateDomainV {
    /// The domain name.
    pub name: Seq<IdentView>,
    /// The data type.
    pub data_type: DataType,
    /// The domain constraints with their names.
    pub constraints: Seq<(Option<IdentView>, DomainConstraintV)>,
    /// `DEFAULT <literal>`
    pub default: Option<ExprV>,
    /// `COLLATE <collation>`
    pub collation: Option<Seq<IdentView>>,
}

/// The abstract values of named domain constraints.
pub open spec fn domain_constraint_defs_v(s: Seq<DomainConstraintDef>) -> Seq<(Option<IdentView>, DomainConstraintV)> {
    s.map_values(|d: DomainConstraintDef| (opt_ident_v(d.name), domain_constraint_v(d.constraint)))
}

/// The abstract value of a `CREATE DOMAIN` statement from its parts.
pub open spec fn domain_acc(
    name: Seq<IdentView>,
    data_type: DataType,
    constraints: Seq<DomainConstraintDef>,
    default: Option<crate::ast::expression::Expr>,
    collation: Option<crate::ast::types::ObjectName>,
) -> CreateDomainV {
    CreateDomainV {
        name,
        data_type,
        constraints: domain_constraint_defs_v(constraints),
        default: match default {
            Some(e) => Some(expr_v(e)),
            None => None,
        },
        collation: match collation {
            Some(c) => Some(c@),
            None => None,
        },
    }
}

/// The abstract value of a `CREATE DOMAIN` statement.
pub open spec fn create_domain_v(d: CreateDomainStmt) -> CreateDomainV {
    domain_acc(d.name@, d.data_type, d.constraints@, d.default, d.collation)
}

/// The options after the data type of a domain at the front of the tokens,
/// `acc` being the statement read so far: `DEFAULT <literal>`,
/// `COLLATE <collation>` and domain constraints, in any order; a later
/// `DEFAULT` or `COLLATE` replaces an earlier one.
pub open spec fn spec_domain_options(t: Seq<Token>, acc: CreateDomainV) -> Parsed<CreateDomainV>
    decreases t.len(),
{
    if first_keyword(t, Keyword::DEFAULT) {
        match spec_literal(t.skip(1)) {
            Some((l, n)) => if n + 1 <= t.len() {
                shift(
                    spec_domain_options(
                        t.skip(n + 1int),
                        CreateDomainV {
                            name: acc.name,
                            data_type: acc.data_type,
                            constraints: acc.constraints,
                            default: Some(ExprV::Literal(l)),
                            collation: acc.collation,
                        },
                    ),
                    n + 1,
                )
            } else {
                Parsed::Fails
            },
            None => Parsed::Fails,
        }
    } else if first_keyword(t, Keyword::COLLATE) {
        match spec_object_name(t.skip(1)) {
            Some((c, n)) => if n + 1 <= t.len() {
                shift(
                    spec_domain_options(
                        t.skip(n + 1int),
                        CreateDomainV {
                            name: acc.name,
                            data_type: acc.data_type,
                            constraints: acc.constraints,
                            default: acc.default,
                            collation: Some(c),
                        },
                    ),
                    n + 1,
                )
            } else {
                Parsed::Fails
            },
            None => Parsed::Fails,
        }
    } else if t.len() > 0 && starts_domain_constraint(t[0]@) {
        match with_name(t, |x: Seq<Token>| spec_domain_constraint(x)) {
            Parsed::Done(c, n) => if 0 < n <= t.len() {
                shift(
                    spec_domain_options(
                        t.skip(n as int),
                        CreateDomainV {
                            name: acc.name,
                            data_type: acc.data_type,
                            constraints: acc.constraints.push(c),
                            default: acc.default,
                            collation: acc.collation,
                        },
                    ),
                    n,
                )
            } else {
                Parsed::Fails
            },
            Parsed::Fails => Parsed::Fails,
        }
    } else {
        Parsed::Done(acc, 0)
    }
}

} // verus!
