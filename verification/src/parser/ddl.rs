//! Parsing schema definition and manipulation statements.
use vstd::prelude::*;

use crate::ast::expression::Expr;
use crate::ast::query::{OrderBy, SortSpec};
use crate::ast::statement::ddl::{
    AlterDomainAction, AlterDomainStmt, AlterTableAction, AlterTableStmt, AlterTypeAction,
    AlterTypeStmt, ColumnConstraint, ColumnConstraintDef, ColumnDef, CreateDomainStmt, CreateIndexStmt,
    CreateSchemaStmt, CreateTableStmt, CreateTypeStmt, CreateViewStmt, DomainConstraint,
    DomainConstraintDef, DropBehavior, DropStmt, LikeClause, LikeOption, ObjectType,
    ReferentialAction, ReferentialMatchType, TableConstraint, TableConstraintDef, TypeAttributeDef,
    TypeDef, ViewCheckOption,
};
use crate::ast::types::{DataType, Ident, LiteralView, ObjectName};
use crate::dialect::Dialect;
use crate::keyword_table::{spec_keyword_name, Keyword};
use crate::parser::constraints::{lemma_starts_with, starts_with};
use crate::ast::text::object_names_sql;
use crate::ast::statement::text_if;
use crate::ast::statement::ddl::{
    drop_sql, opt_drop_behavior_sql, table_head_sql, drop_behavior_sql, like_option_sql, match_type_sql, object_type_sql, view_check_option_sql,
};
use crate::parser::{
    advanced, consumed, keywords_follow, lemma_consumed_refl, spec_expect_keywords, lemma_consumed_trans, lemma_two_keywords_follow,
    peek_is_keyword, peek_keyword_of, ParserError, Parser, error_view, opt_token_view, spec_expected_message,
};
use crate::peek::{spec_next, spec_next_state, spec_peek, PeekState};
use crate::parser::table::{lemma_object_names_len, list_prepend, spec_object_names};
use crate::parser::query::spec_optional_column_list;
use crate::parser::types::{skip_state, spec_data_type, spec_literal, spec_object_name, word_ident};
use crate::ast::types::{idents_view, object_names_view};
use crate::ast::view::opt_ident_v;
use crate::token::{IdentView, TokenView};
use crate::token::{is_keyword_token, spec_token_sql, Token};
use crate::parser::constraints::{
    lemma_column_constraint_len, lemma_domain_constraint_len, lemma_optional_column_list_len,
    lemma_parenthesized_len, lemma_references_tail_len, lemma_table_constraint_len,
    column_constraint_v, domain_constraint_v, table_constraint_v, spec_column_constraint,
    spec_column_list, spec_constraint_name, spec_domain_constraint, spec_match_clause, spec_on_action,
    spec_parenthesized, spec_references_tail, spec_referential_action, spec_table_constraint,
    with_name, column_constraint_defs_v, column_def_v, lemma_column_constraint_def_len,
    spec_column_def, spec_column_options, column_acc, create_domain_v, domain_acc,
    domain_constraint_defs_v, lemma_domain_constraint_def_len, spec_domain_options,
};
use crate::parser::types::lemma_literal_len;
use crate::parser::grammar::{
    lemma_shift_shift, list_tail, meets, meets_expr, prepend, shift, spec_list, spec_subexpr, Parsed,
};
use crate::ast::view::{order_bys_v, sort_spec_v, sort_specs_v, SortSpecV};

verus! {

/// The referential match type named by the next token.
pub open spec fn spec_match_type(st: PeekState<Token>) -> Option<ReferentialMatchType> {
    if peek_is_keyword(st, Keyword::FULL) {
        Some(ReferentialMatchType::Full)
    } else if peek_is_keyword(st, Keyword::PARTIAL) {
        Some(ReferentialMatchType::Partial)
    } else if peek_is_keyword(st, Keyword::SIMPLE) {
        Some(ReferentialMatchType::Simple)
    } else {
        None
    }
}

/// The match type writes back as the keyword it was read from.
pub proof fn law_match_type_token_is_its_keyword(st: PeekState<Token>)
    ensures
        spec_match_type(st) matches Some(m) ==> (spec_next(st) matches Some(tok) && (
        tok@ matches TokenView::Keyword(k, _) && match_type_sql(m) == spec_keyword_name(k))),
{
    reveal_strlit("FULL");
    reveal_strlit("PARTIAL");
    reveal_strlit("SIMPLE");
}

/// The object type named by the next token.
pub open spec fn spec_object_type(st: PeekState<Token>) -> Option<ObjectType> {
    if peek_is_keyword(st, Keyword::SCHEMA) {
        Some(ObjectType::Schema)
    } else if peek_is_keyword(st, Keyword::TABLE) {
        Some(ObjectType::Table)
    } else if peek_is_keyword(st, Keyword::VIEW) {
        Some(ObjectType::View)
    } else if peek_is_keyword(st, Keyword::DOMAIN) {
        Some(ObjectType::Domain)
    } else if peek_is_keyword(st, Keyword::TYPE) {
        Some(ObjectType::Type)
    } else if peek_is_keyword(st, Keyword::DATABASE) {
        Some(ObjectType::Database)
    } else if peek_is_keyword(st, Keyword::INDEX) {
        Some(ObjectType::Index)
    } else {
        None
    }
}

/// The object type read after `DROP` is the object that its keyword names:
/// the text of the object type is the text of the keyword token that was
/// read.
pub proof fn law_object_type_is_its_keyword(st: PeekState<Token>)
    ensures
        spec_object_type(st) matches Some(t) ==> (spec_next(st) matches Some(tok) && (
        tok@ matches TokenView::Keyword(k, _) && object_type_sql(t) == spec_keyword_name(k))),
{
    reveal_strlit("SCHEMA");
    reveal_strlit("TABLE");
    reveal_strlit("VIEW");
    reveal_strlit("DOMAIN");
    reveal_strlit("TYPE");
    reveal_strlit("DATABASE");
    reveal_strlit("INDEX");
}

/// The drop behavior writes back as the keyword it was read from:
/// `CASCADE` and `RESTRICT` each name their own behavior.
pub proof fn law_drop_behavior_is_its_keyword(st: PeekState<Token>)
    ensures
        spec_drop_behavior(st) matches Some(b) ==> (spec_next(st) matches Some(tok) && (
        tok@ matches TokenView::Keyword(k, _) && drop_behavior_sql(b) == spec_keyword_name(k))),
{
    reveal_strlit("CASCADE");
    reveal_strlit("RESTRICT");
}

/// Whether the `i`-th `LIKE` option of the tokens `s`, at positions `2i`
/// and `2i + 1`, is the option `o`: the two keywords there, separated by
/// a space, are the text of `o`.
pub open spec fn like_option_read(s: Seq<Token>, i: int, o: LikeOption) -> bool {
    &&& 0 <= 2 * i && 2 * i + 1 < s.len()
    &&& s[2 * i]@ matches TokenView::Keyword(a, _)
    &&& s[2 * i + 1]@ matches TokenView::Keyword(b, _)
    &&& like_option_sql(o) == spec_keyword_name(a) + " "@ + spec_keyword_name(b)
}

/// The drop behavior named by the next token.
pub open spec fn spec_drop_behavior(st: PeekState<Token>) -> Option<DropBehavior> {
    if peek_is_keyword(st, Keyword::CASCADE) {
        Some(DropBehavior::Cascade)
    } else if peek_is_keyword(st, Keyword::RESTRICT) {
        Some(DropBehavior::Restrict)
    } else {
        None
    }
}

/// Whether `IF EXISTS` follows `DROP <object type>` at the front of the tokens.
pub open spec fn drop_if_exists(s: Seq<Token>) -> bool {
    s.len() > 3 && is_keyword_token(s[2]@, Keyword::IF) && is_keyword_token(s[3]@, Keyword::EXISTS)
}

/// Where the object names of a `DROP` statement start.
pub open spec fn drop_names_start(s: Seq<Token>) -> nat {
    if drop_if_exists(s) {
        4
    } else {
        2
    }
}

/// Two keywords at the front of the tokens are what `expect_keywords`
/// consumes.
pub proof fn lemma_expect_two_keywords(st: PeekState<Token>, a: Keyword, b: Keyword)
    requires
        st.cursor == 0,
        st.items.len() > 1,
        is_keyword_token(st.items[0]@, a),
        is_keyword_token(st.items[1]@, b),
    ensures
        spec_expect_keywords(st, seq![a, b]) == Ok::<PeekState<Token>, (PeekState<Token>, Seq<char>)>(
            skip_state(st, 2),
        ),
{
    reveal_with_fuel(spec_expect_keywords, 3);
    assert(seq![a, b].drop_first() =~= seq![b]);
    assert(seq![b].drop_first() =~= Seq::<Keyword>::empty());
    assert(spec_next_state(spec_next_state(st)).items =~= st.items.skip(2));
}

/// The rest of a `CREATE SCHEMA` statement after its two keywords:
/// `[IF NOT EXISTS] [<name>] [AUTHORIZATION <owner>]`, with whether
/// `IF NOT EXISTS` is present, the name and the owner.
pub open spec fn spec_create_schema_rest(s: Seq<Token>) -> Option<
    (bool, Option<Seq<IdentView>>, Option<IdentView>),
> {
    let ine = s.len() > 2 && is_keyword_token(s[0]@, Keyword::IF) && is_keyword_token(
        s[1]@,
        Keyword::NOT,
    ) && is_keyword_token(s[2]@, Keyword::EXISTS);
    let t = if ine {
        s.skip(3)
    } else {
        s
    };
    let named = t.len() > 0 && !is_keyword_token(t[0]@, Keyword::AUTHORIZATION);
    if named && spec_object_name(t) is None {
        None
    } else {
        let name = if named {
            Some((spec_object_name(t)->0).0)
        } else {
            None
        };
        let u = if named {
            t.skip((spec_object_name(t)->0).1 as int)
        } else {
            t
        };
        if u.len() > 0 && is_keyword_token(u[0]@, Keyword::AUTHORIZATION) {
            if u.len() > 1 && word_ident(u[1]@) is Some {
                Some((ine, name, Some(word_ident(u[1]@)->0)))
            } else {
                None
            }
        } else {
            Some((ine, name, None))
        }
    }
}

/// The parts of an optional object name.
pub open spec fn opt_name_v(n: Option<ObjectName>) -> Option<Seq<IdentView>> {
    match n {
        Some(n) => Some(n@),
        None => None,
    }
}

/// Whether `IF NOT EXISTS` is at the front of the tokens.
pub open spec fn if_not_exists_at(s: Seq<Token>) -> bool {
    s.len() > 2 && is_keyword_token(s[0]@, Keyword::IF) && is_keyword_token(s[1]@, Keyword::NOT)
        && is_keyword_token(s[2]@, Keyword::EXISTS)
}

/// With the cursor at the front, `IF NOT EXISTS` follows it exactly when it
/// is at the front of the tokens.
pub proof fn lemma_if_not_exists_follows(st: PeekState<Token>)
    requires
        st.cursor == 0,
    ensures
        keywords_follow(st, seq![Keyword::IF, Keyword::NOT, Keyword::EXISTS]) <==> if_not_exists_at(
            st.items,
        ),
{
    let k = seq![Keyword::IF, Keyword::NOT, Keyword::EXISTS];
    if keywords_follow(st, k) {
        assert(is_keyword_token(st.items[st.cursor + 0int]@, k[0]));
        assert(is_keyword_token(st.items[st.cursor + 1int]@, k[1]));
        assert(is_keyword_token(st.items[st.cursor + 2int]@, k[2]));
    }
    if if_not_exists_at(st.items) {
        assert forall|i: int| 0 <= i < k.len() implies is_keyword_token(
            #[trigger] st.items[st.cursor + i]@,
            k[i],
        ) by {
            if i == 0 {
            } else if i == 1 {
            } else {
            }
        }
    }
}

/// The head of a `CREATE TABLE` statement after `CREATE`:
/// `[TEMPORARY] TABLE [IF NOT EXISTS] <name>`, with whether it is temporary,
/// whether `IF NOT EXISTS` is present, the name and the number of tokens.
pub open spec fn spec_table_head(s: Seq<Token>) -> Option<(bool, bool, Seq<IdentView>, nat)> {
    let temporary = s.len() > 0 && is_keyword_token(s[0]@, Keyword::TEMPORARY);
    let a: nat = if temporary {
        1
    } else {
        0
    };
    let t = s.skip(a as int);
    if t.len() > 0 && is_keyword_token(t[0]@, Keyword::TABLE) {
        let u = t.skip(1);
        let ine = if_not_exists_at(u);
        let b: nat = if ine {
            3
        } else {
            0
        };
        match spec_object_name(u.skip(b as int)) {
            Some((name, k)) => Some((temporary, ine, name, a + 1 + b + k)),
            None => None,
        }
    } else {
        None
    }
}

/// The texts of the first `n` tokens, each followed by a space.
pub open spec fn words_spaced(s: Seq<Token>, n: nat) -> Seq<char>
    decreases n,
{
    if n == 0 || n > s.len() {
        Seq::empty()
    } else {
        words_spaced(s, (n - 1) as nat) + spec_token_sql(s[n - 1]@) + " "@
    }
}

/// The head of a `CREATE TABLE` statement writes back as the keywords it
/// was read from: `TEMPORARY`, `TABLE` and `IF NOT EXISTS` as read, each
/// followed by a space.
#[verifier::rlimit(100)]
#[verifier::spinoff_prover]
pub proof fn law_table_head_is_its_keywords(s: Seq<Token>, stmt: CreateTableStmt)
    ensures
        spec_table_head(s) matches Some((temporary, ine, _, _)) ==> (stmt.temporary == temporary
            && stmt.if_not_exists == ine ==> table_head_sql(stmt) == "CREATE "@ + words_spaced(
            s,
            (if temporary {
                1nat
            } else {
                0nat
            }) + 1 + if ine {
                3nat
            } else {
                0nat
            },
        )),
{
    reveal_with_fuel(words_spaced, 6);
    reveal_strlit("TEMPORARY");
    reveal_strlit("TABLE");
    reveal_strlit("IF");
    reveal_strlit("NOT");
    reveal_strlit("EXISTS");
    reveal_strlit("TEMPORARY ");
    reveal_strlit("TABLE ");
    reveal_strlit("IF NOT EXISTS ");
    reveal_strlit(" ");
    if let Some((temporary, ine, _, _)) = spec_table_head(s) {
        let a: int = if temporary {
            1
        } else {
            0
        };
        assert(s.skip(a)[0] == s[a]);
        if ine {
            assert(s.skip(a).skip(1)[0] == s[a + 1]);
            assert(s.skip(a).skip(1)[1] == s[a + 2]);
            assert(s.skip(a).skip(1)[2] == s[a + 3]);
        }
        assert("TEMPORARY "@ =~= "TEMPORARY"@ + " "@);
        assert("TABLE "@ =~= "TABLE"@ + " "@);
        assert("IF NOT EXISTS "@ =~= "IF"@ + " "@ + "NOT"@ + " "@ + "EXISTS"@ + " "@);
        let w0 = spec_token_sql(s[a]@) + " "@;
        let w1 = if ine {
            spec_token_sql(s[a + 1]@) + " "@ + spec_token_sql(s[a + 2]@) + " "@ + spec_token_sql(
                s[a + 3]@,
            ) + " "@
        } else {
            Seq::empty()
        };
        let w = (if temporary {
            spec_token_sql(s[0]@) + " "@
        } else {
            Seq::empty()
        }) + w0 + w1;
        let n: nat = (if temporary {
            1nat
        } else {
            0nat
        }) + 1 + if ine {
            3nat
        } else {
            0nat
        };
        assert(words_spaced(s, 0) =~= Seq::<char>::empty());
        if temporary {
            assert(words_spaced(s, 1) =~= spec_token_sql(s[0]@) + " "@);
        }
        assert(words_spaced(s, (a + 1) as nat) =~= words_spaced(s, a as nat) + w0);
        if ine {
            assert(words_spaced(s, (a + 2) as nat) =~= words_spaced(s, (a + 1) as nat)
                + spec_token_sql(s[a + 1]@) + " "@);
            assert(words_spaced(s, (a + 3) as nat) =~= words_spaced(s, (a + 2) as nat)
                + spec_token_sql(s[a + 2]@) + " "@);
            assert(words_spaced(s, (a + 4) as nat) =~= words_spaced(s, (a + 3) as nat)
                + spec_token_sql(s[a + 3]@) + " "@);
        }
        assert(words_spaced(s, n) =~= w);
        if temporary {
            assert(spec_token_sql(s[0]@) == "TEMPORARY"@);
        }
        assert(spec_token_sql(s[a]@) == "TABLE"@);
        if ine {
            assert(spec_token_sql(s[a + 1]@) == "IF"@);
            assert(spec_token_sql(s[a + 2]@) == "NOT"@);
            assert(spec_token_sql(s[a + 3]@) == "EXISTS"@);
        }
        let h = if temporary {
            spec_token_sql(s[0]@) + " "@
        } else {
            Seq::empty()
        };
        if stmt.temporary == temporary && stmt.if_not_exists == ine {
            assert(h == text_if(stmt.temporary, "TEMPORARY "@));
            assert(w0 == "TABLE "@);
            assert(w1 == text_if(stmt.if_not_exists, "IF NOT EXISTS "@)) by {
                if ine {
                    assert(w1 =~= "IF"@ + " "@ + "NOT"@ + " "@ + "EXISTS"@ + " "@);
                }
            }
            assert(table_head_sql(stmt) =~= "CREATE "@ + (h + w0 + w1));
        }
    }
}

/// A `DROP` statement writes back starting with the keywords it was read
/// from: `DROP`, the object type and `IF EXISTS` as read, each followed by
/// a space.
pub proof fn law_drop_head_is_its_keywords(s: Seq<Token>, stmt: DropStmt)
    requires
        s.len() > 0,
        is_keyword_token(s[0]@, Keyword::DROP),
        spec_object_type(PeekState { items: s.skip(1), cursor: 0 }) == Some(stmt.ty),
        stmt.if_exists == drop_if_exists(s),
    ensures
        starts_with(drop_sql(stmt), words_spaced(s, drop_names_start(s))),
{
    reveal_with_fuel(words_spaced, 5);
    reveal(drop_sql);
    law_object_type_is_its_keyword(PeekState { items: s.skip(1), cursor: 0 });
    reveal_strlit("DROP");
    reveal_strlit("DROP ");
    reveal_strlit("IF");
    reveal_strlit("EXISTS");
    reveal_strlit("IF EXISTS ");
    reveal_strlit(" ");
    assert(s.skip(1)[0] == s[1]);
    assert("DROP "@ =~= "DROP"@ + " "@);
    assert("IF EXISTS "@ =~= "IF"@ + " "@ + "EXISTS"@ + " "@);
    let w = words_spaced(s, drop_names_start(s));
    let rest = object_names_sql(object_names_view(stmt.name@)) + opt_drop_behavior_sql(stmt.behavior);
    assert(drop_sql(stmt) =~= w + rest);
    lemma_starts_with(w, rest);
}

/// The head of a `CREATE VIEW` statement after `CREATE`:
/// `[OR REPLACE] [RECURSIVE] VIEW [IF NOT EXISTS] <name> [( <columns> )] AS`,
/// with the three flags, the name and the columns.
pub open spec fn spec_view_head(s: Seq<Token>) -> Option<(bool, bool, bool, Seq<IdentView>, Seq<IdentView>)> {
    let or_replace = s.len() > 1 && is_keyword_token(s[0]@, Keyword::OR) && is_keyword_token(
        s[1]@,
        Keyword::REPLACE,
    );
    let t = if or_replace {
        s.skip(2)
    } else {
        s
    };
    let recursive = t.len() > 0 && is_keyword_token(t[0]@, Keyword::RECURSIVE);
    let u = if recursive {
        t.skip(1)
    } else {
        t
    };
    if u.len() > 0 && is_keyword_token(u[0]@, Keyword::VIEW) {
        let v = u.skip(1);
        let ine = if_not_exists_at(v);
        let w = if ine {
            v.skip(3)
        } else {
            v
        };
        match spec_object_name(w) {
            Some((name, k)) => match spec_optional_column_list(w.skip(k as int)) {
                Some((columns, m)) => {
                    let x = w.skip(k as int).skip(m as int);
                    if x.len() > 0 && is_keyword_token(x[0]@, Keyword::AS) {
                        Some((
                            or_replace,
                            recursive,
                            ine,
                            name,
                            match columns {
                                Some(c) => c,
                                None => Seq::empty(),
                            },
                        ))
                    } else {
                        None
                    }
                },
                None => None,
            },
            None => None,
        }
    } else {
        None
    }
}

/// The head of a `CREATE DOMAIN` statement after its two keywords:
/// `<name> [AS] <data type>`.
pub open spec fn spec_domain_head(s: Seq<Token>) -> Option<(Seq<IdentView>, DataType)> {
    match spec_object_name(s) {
        Some((name, k)) => {
            let t = s.skip(k as int);
            let a: int = if t.len() > 0 && is_keyword_token(t[0]@, Keyword::AS) {
                1
            } else {
                0
            };
            match spec_data_type(t.skip(a)) {
                Some((d, _)) => Some((name, d)),
                None => None,
            }
        },
        None => None,
    }
}

/// The number of tokens of the head of a `CREATE INDEX` statement after
/// `CREATE`, its `(` included, where `spec_index_head` reads one.
pub open spec fn spec_index_head_len(s: Seq<Token>) -> nat {
    let a: nat = if s.len() > 0 && is_keyword_token(s[0]@, Keyword::UNIQUE) {
        1
    } else {
        0
    };
    let u = s.skip(a as int).skip(1);
    let b: nat = if if_not_exists_at(u) {
        3
    } else {
        0
    };
    let v = u.skip(b as int);
    match spec_object_name(v) {
        Some((_, k)) => match spec_object_name(v.skip(k as int).skip(1)) {
            Some((_, m)) => a + 1 + b + k + 1 + m + 1,
            None => 0,
        },
        None => 0,
    }
}

/// A column of an index at the front of the tokens: a sort specification,
/// kept as an `ORDER BY` list of one.
pub open spec fn spec_index_column(t: Seq<Token>) -> Parsed<Seq<SortSpecV>> {
    match crate::parser::query::spec_sort_spec(t) {
        Parsed::Done(x, n) => Parsed::Done(seq![x], n),
        Parsed::Fails => Parsed::Fails,
    }
}

/// The number of tokens of the head of a `CREATE DOMAIN` statement after
/// its two keywords, where `spec_domain_head` reads one.
pub open spec fn spec_domain_head_len(s: Seq<Token>) -> nat {
    match spec_object_name(s) {
        Some((_, k)) => {
            let t = s.skip(k as int);
            let a: nat = if t.len() > 0 && is_keyword_token(t[0]@, Keyword::AS) {
                1
            } else {
                0
            };
            match spec_data_type(t.skip(a as int)) {
                Some((_, m)) => k + a + m,
                None => 0,
            }
        },
        None => 0,
    }
}

/// The abstract value of an `ALTER DOMAIN` action as the parser reads it;
/// an added constraint is left open.
pub enum AlterDomainActionV {
    /// `SET DEFAULT <literal>`
    SetDefault(LiteralView),
    /// `DROP DEFAULT`
    DropDefault,
    /// `ADD <domain constraint>`
    AddConstraint,
    /// `DROP CONSTRAINT <name>`
    DropConstraint(IdentView),
}

/// The `ALTER DOMAIN` action at the front of the tokens.
pub open spec fn spec_alter_domain_action(t: Seq<Token>) -> Option<AlterDomainActionV> {
    if t.len() > 1 && is_keyword_token(t[0]@, Keyword::SET) && is_keyword_token(
        t[1]@,
        Keyword::DEFAULT,
    ) {
        match spec_literal(t.skip(2)) {
            Some((l, _)) => Some(AlterDomainActionV::SetDefault(l)),
            None => None,
        }
    } else if t.len() > 1 && is_keyword_token(t[0]@, Keyword::DROP) && is_keyword_token(
        t[1]@,
        Keyword::DEFAULT,
    ) {
        Some(AlterDomainActionV::DropDefault)
    } else if t.len() > 0 && is_keyword_token(t[0]@, Keyword::ADD) {
        Some(AlterDomainActionV::AddConstraint)
    } else if t.len() > 1 && is_keyword_token(t[0]@, Keyword::DROP) && is_keyword_token(
        t[1]@,
        Keyword::CONSTRAINT,
    ) {
        if t.len() > 2 && word_ident(t[2]@) is Some {
            Some(AlterDomainActionV::DropConstraint(word_ident(t[2]@)->0))
        } else {
            None
        }
    } else {
        None
    }
}

/// Whether an `ALTER DOMAIN` action has the abstract value `v`.
pub open spec fn alter_domain_action_is(a: AlterDomainAction, v: AlterDomainActionV) -> bool {
    match v {
        AlterDomainActionV::SetDefault(l) => a matches AlterDomainAction::SetDefault(e) && (*e matches Expr::Literal(x) && x@ == l),
        AlterDomainActionV::DropDefault => a is DropDefault,
        AlterDomainActionV::AddConstraint => a is AddConstraint,
        AlterDomainActionV::DropConstraint(n) => a matches AlterDomainAction::DropConstraint(m) && m@ == n,
    }
}

/// Whether `IF EXISTS` is at the front of the tokens.
pub open spec fn if_exists_at(s: Seq<Token>) -> bool {
    s.len() > 1 && is_keyword_token(s[0]@, Keyword::IF) && is_keyword_token(s[1]@, Keyword::EXISTS)
}

/// Whether a table constraint starts with the token.
pub open spec fn starts_table_constraint(t: TokenView) -> bool {
    ||| is_keyword_token(t, Keyword::CONSTRAINT)
    ||| is_keyword_token(t, Keyword::UNIQUE)
    ||| is_keyword_token(t, Keyword::PRIMARY)
    ||| is_keyword_token(t, Keyword::FOREIGN)
    ||| is_keyword_token(t, Keyword::CHECK)
}

/// Whether a column constraint starts with the token.
pub open spec fn starts_column_constraint(t: TokenView) -> bool {
    ||| is_keyword_token(t, Keyword::CONSTRAINT)
    ||| is_keyword_token(t, Keyword::NULL)
    ||| is_keyword_token(t, Keyword::NOT)
    ||| is_keyword_token(t, Keyword::UNIQUE)
    ||| is_keyword_token(t, Keyword::PRIMARY)
    ||| is_keyword_token(t, Keyword::REFERENCES)
    ||| is_keyword_token(t, Keyword::CHECK)
}

/// Whether a domain constraint starts with the token.
pub open spec fn starts_domain_constraint(t: TokenView) -> bool {
    ||| is_keyword_token(t, Keyword::CONSTRAINT)
    ||| is_keyword_token(t, Keyword::NULL)
    ||| is_keyword_token(t, Keyword::NOT)
    ||| is_keyword_token(t, Keyword::CHECK)
}

/// The abstract value of an `ALTER TABLE` action as the parser reads it;
/// the added column or constraint is left open.
pub enum AlterTableActionV {
    /// `ADD [COLUMN] [IF NOT EXISTS] <column>`
    AddColumn { if_not_exists: bool },
    /// `ADD <table constraint>`
    AddTableConstraint,
    /// `DROP COLUMN [IF EXISTS] <name> [<behavior>]`
    DropColumn { if_exists: bool, name: IdentView, behavior: Option<DropBehavior> },
    /// `DROP CONSTRAINT [IF EXISTS] <name> [<behavior>]`
    DropTableConstraint { if_exists: bool, name: Seq<IdentView>, behavior: Option<DropBehavior> },
}

/// The drop behavior keyword at the front of the tokens.
pub open spec fn behavior_at(s: Seq<Token>) -> Option<DropBehavior> {
    if s.len() > 0 && is_keyword_token(s[0]@, Keyword::CASCADE) {
        Some(DropBehavior::Cascade)
    } else if s.len() > 0 && is_keyword_token(s[0]@, Keyword::RESTRICT) {
        Some(DropBehavior::Restrict)
    } else {
        None
    }
}

/// The `ALTER TABLE` action at the front of the tokens.
pub open spec fn spec_alter_table_action(t: Seq<Token>) -> Option<AlterTableActionV> {
    if t.len() > 0 && is_keyword_token(t[0]@, Keyword::ADD) {
        if t.len() > 1 && starts_table_constraint(t[1]@) {
            Some(AlterTableActionV::AddTableConstraint)
        } else {
            let u = if t.len() > 1 && is_keyword_token(t[1]@, Keyword::COLUMN) {
                t.skip(2)
            } else {
                t.skip(1)
            };
            Some(AlterTableActionV::AddColumn { if_not_exists: if_not_exists_at(u) })
        }
    } else if t.len() > 1 && is_keyword_token(t[0]@, Keyword::DROP) && is_keyword_token(
        t[1]@,
        Keyword::COLUMN,
    ) {
        let ie = if_exists_at(t.skip(2));
        let u = if ie {
            t.skip(4)
        } else {
            t.skip(2)
        };
        if u.len() > 0 && word_ident(u[0]@) is Some {
            Some(
                AlterTableActionV::DropColumn {
                    if_exists: ie,
                    name: word_ident(u[0]@)->0,
                    behavior: behavior_at(u.skip(1)),
                },
            )
        } else {
            None
        }
    } else if t.len() > 1 && is_keyword_token(t[0]@, Keyword::DROP) && is_keyword_token(
        t[1]@,
        Keyword::CONSTRAINT,
    ) {
        let ie = if_exists_at(t.skip(2));
        let u = if ie {
            t.skip(4)
        } else {
            t.skip(2)
        };
        match spec_object_name(u) {
            Some((n, k)) => Some(
                AlterTableActionV::DropTableConstraint {
                    if_exists: ie,
                    name: n,
                    behavior: behavior_at(u.skip(k as int)),
                },
            ),
            None => None,
        }
    } else {
        None
    }
}

/// Where the name of an `ALTER TABLE` statement starts, after its two
/// keywords and `IF EXISTS`.
pub open spec fn alter_table_name_start(s: Seq<Token>) -> Seq<Token> {
    if if_exists_at(s.skip(2)) {
        s.skip(4)
    } else {
        s.skip(2)
    }
}

/// Whether an `ALTER TABLE` action has the abstract value `v`.
pub open spec fn alter_table_action_is(a: AlterTableAction, v: AlterTableActionV) -> bool {
    match v {
        AlterTableActionV::AddColumn { if_not_exists } => a matches AlterTableAction::AddColumn {
            if_not_exists: x,
            ..
        } && x == if_not_exists,
        AlterTableActionV::AddTableConstraint => a is AddTableConstraint,
        AlterTableActionV::DropColumn { if_exists, name, behavior } => a matches AlterTableAction::DropColumn {
            if_exists: x,
            name: n,
            drop_behavior: b,
        } && x == if_exists && n@ == name && b == behavior,
        AlterTableActionV::DropTableConstraint { if_exists, name, behavior } => a matches AlterTableAction::DropTableConstraint {
            if_exists: x,
            name: n,
            drop_behavior: b,
        } && x == if_exists && n@ == name && b == behavior,
    }
}

/// The head of a `CREATE INDEX` statement after `CREATE`:
/// `[UNIQUE] INDEX [IF NOT EXISTS] <index> ON <table> (`, with whether it is
/// unique, whether `IF NOT EXISTS` is present, and the two names.
pub open spec fn spec_index_head(s: Seq<Token>) -> Option<(bool, bool, Seq<IdentView>, Seq<IdentView>)> {
    let unique = s.len() > 0 && is_keyword_token(s[0]@, Keyword::UNIQUE);
    let t = if unique {
        s.skip(1)
    } else {
        s
    };
    if t.len() > 0 && is_keyword_token(t[0]@, Keyword::INDEX) {
        let u = t.skip(1);
        let ine = if_not_exists_at(u);
        let v = if ine {
            u.skip(3)
        } else {
            u
        };
        match spec_object_name(v) {
            Some((index, k)) => {
                let w = v.skip(k as int);
                if w.len() > 0 && is_keyword_token(w[0]@, Keyword::ON) {
                    match spec_object_name(w.skip(1)) {
                        Some((table, m)) => {
                            let x = w.skip(1).skip(m as int);
                            if x.len() > 0 && x[0]@ == TokenView::LeftParen {
                                Some((unique, ine, index, table))
                            } else {
                                None
                            }
                        },
                        None => None,
                    }
                } else {
                    None
                }
            },
            None => None,
        }
    } else {
        None
    }
}

/// The abstract value of a type attribute as the parser reads it.
pub struct TypeAttributeV {
    /// The name.
    pub name: IdentView,
    /// The data type.
    pub data_type: DataType,
    /// The default literal.
    pub default: Option<LiteralView>,
    /// The collation.
    pub collation: Option<Seq<IdentView>>,
}

/// Whether a type attribute has the abstract value `v`.
pub open spec fn type_attribute_is(a: TypeAttributeDef, v: TypeAttributeV) -> bool {
    &&& a.name@ == v.name
    &&& a.data_type == v.data_type
    &&& match v.default {
        Some(l) => a.default matches Some(Expr::Literal(x)) && x@ == l,
        None => a.default is None,
    }
    &&& opt_name_v(a.collation) == v.collation
}

/// The optional `DEFAULT <literal>` and `COLLATE <collation>` at the front
/// of the tokens, and the number of tokens they take.
pub open spec fn spec_default_collation(u: Seq<Token>) -> Option<
    (Option<LiteralView>, Option<Seq<IdentView>>, nat),
> {
    let has_default = u.len() > 0 && is_keyword_token(u[0]@, Keyword::DEFAULT);
    if has_default && spec_literal(u.skip(1)) is None {
        None
    } else {
        let default = if has_default {
            Some((spec_literal(u.skip(1))->0).0)
        } else {
            None
        };
        let d: nat = if has_default {
            1 + (spec_literal(u.skip(1))->0).1
        } else {
            0
        };
        let v = u.skip(d as int);
        if v.len() > 0 && is_keyword_token(v[0]@, Keyword::COLLATE) {
            match spec_object_name(v.skip(1)) {
                Some((c, k)) => Some((default, Some(c), d + 1 + k)),
                None => None,
            }
        } else {
            Some((default, None, d))
        }
    }
}

/// The type attribute at the front of the tokens:
/// `<name> <data type> [DEFAULT <literal>] [COLLATE <collation>]`, and the
/// number of tokens it takes.
#[verifier::opaque]
pub open spec fn spec_type_attribute(s: Seq<Token>) -> Option<(TypeAttributeV, nat)> {
    if s.len() > 0 && word_ident(s[0]@) is Some {
        match spec_data_type(s.skip(1)) {
            Some((t, n)) => match spec_default_collation(s.skip(1 + n as int)) {
                Some((default, collation, m)) => Some((
                    TypeAttributeV { name: word_ident(s[0]@)->0, data_type: t, default, collation },
                    1 + n + m,
                )),
                None => None,
            },
            None => None,
        }
    } else {
        None
    }
}

/// A type attribute takes some of the tokens.
pub proof fn lemma_type_attribute_len(s: Seq<Token>)
    ensures
        spec_type_attribute(s) matches Some((_, n)) ==> 1 <= n <= s.len(),
{
    reveal(spec_type_attribute);
    if s.len() > 0 {
        crate::parser::types::lemma_data_type_len(s.skip(1));
        if let Some((t, n)) = spec_data_type(s.skip(1)) {
            let u = s.skip(1 + n as int);
            if u.len() > 0 {
                crate::parser::types::lemma_literal_len(u.skip(1));
            }
            let has_default = u.len() > 0 && is_keyword_token(u[0]@, Keyword::DEFAULT);
            if !(has_default && spec_literal(u.skip(1)) is None) {
                let d: nat = if has_default {
                    1 + (spec_literal(u.skip(1))->0).1
                } else {
                    0
                };
                let v = u.skip(d as int);
                if v.len() > 0 {
                    crate::parser::types::lemma_object_name_len(v.skip(1));
                }
            }
        }
    }
}

/// Type attributes separated by commas at the front of the tokens.
pub open spec fn spec_type_attributes(s: Seq<Token>) -> Option<(Seq<TypeAttributeV>, nat)>
    decreases s.len(),
{
    match spec_type_attribute(s) {
        Some((v, k)) => {
            proof { lemma_type_attribute_len(s); }
            if s.len() > k && s[k as int]@ == TokenView::Comma {
                list_prepend(seq![v], k + 1, spec_type_attributes(s.skip(k + 1int)))
            } else {
                Some((seq![v], k))
            }
        },
        None => None,
    }
}

/// What follows a type attribute in a list: `, <attributes>`, or nothing.
pub open spec fn type_attributes_after(s: Seq<Token>) -> Option<(Seq<TypeAttributeV>, nat)> {
    if s.len() > 0 && s[0]@ == TokenView::Comma {
        list_prepend(Seq::empty(), 1, spec_type_attributes(s.skip(1)))
    } else {
        Some((Seq::empty(), 0))
    }
}

/// A type attribute list is its first attribute followed by what comes
/// after it.
pub proof fn lemma_type_attributes_unfold(s: Seq<Token>)
    ensures
        spec_type_attribute(s) matches Some((v, k)) ==> spec_type_attributes(s) == list_prepend(
            seq![v],
            k,
            type_attributes_after(s.skip(k as int)),
        ),
        spec_type_attribute(s) is None ==> spec_type_attributes(s) is None,
{
    if let Some((v, k)) = spec_type_attribute(s) {
        lemma_type_attribute_len(s);
        let t = s.skip(k as int);
        if s.len() > k && s[k as int]@ == TokenView::Comma {
            assert(t.skip(1) =~= s.skip(k + 1int));
            match spec_type_attributes(s.skip(k + 1int)) {
                Some((r, m)) => {
                    assert(seq![v] + (Seq::<TypeAttributeV>::empty() + r) =~= seq![v] + r);
                },
                None => {},
            }
        } else {
            assert(seq![v] + Seq::<TypeAttributeV>::empty() =~= seq![v]);
        }
    }
}

/// A type attribute list takes some of the tokens.
pub proof fn lemma_type_attributes_len(s: Seq<Token>)
    ensures
        spec_type_attributes(s) matches Some((l, k)) ==> 1 <= k <= s.len() && l.len() > 0,
    decreases s.len(),
{
    lemma_type_attribute_len(s);
    if let Some((v, k)) = spec_type_attribute(s) {
        if s.len() > k && s[k as int]@ == TokenView::Comma {
            lemma_type_attributes_len(s.skip(k + 1int));
        }
    }
}

/// The abstract value of a type definition as the parser reads it.
pub enum TypeDefV {
    /// `AS <data type>`
    DataType(DataType),
    /// `AS ( <attribute> [, ...] )`
    MemberList(Seq<TypeAttributeV>),
}

/// Whether type attributes have the abstract values `v`, one by one.
pub open spec fn type_attributes_are(a: Seq<TypeAttributeDef>, v: Seq<TypeAttributeV>) -> bool {
    a.len() == v.len() && forall|i: int| 0 <= i < a.len() ==> type_attribute_is(#[trigger] a[i], v[i])
}

/// Whether an optional type definition has the abstract value `v`.
pub open spec fn type_def_is(d: Option<TypeDef>, v: Option<TypeDefV>) -> bool {
    match v {
        None => d is None,
        Some(TypeDefV::DataType(t)) => d matches Some(TypeDef::DataType(x)) && x == t,
        Some(TypeDefV::MemberList(l)) => d matches Some(TypeDef::MemberList(x)) && type_attributes_are(
            x@,
            l,
        ),
    }
}

/// The optional type definition at the front of the tokens:
/// `AS ( <attribute> [, ...] )`, `AS <data type>` or nothing, and the number
/// of tokens it takes.
pub open spec fn spec_type_definition(s: Seq<Token>) -> Option<(Option<TypeDefV>, nat)> {
    if s.len() > 0 && is_keyword_token(s[0]@, Keyword::AS) {
        if s.len() > 1 && s[1]@ == TokenView::LeftParen {
            match spec_type_attributes(s.skip(2)) {
                Some((l, k)) => if s.len() > k + 2 && s[k + 2int]@ == TokenView::RightParen {
                    Some((Some(TypeDefV::MemberList(l)), k + 3))
                } else {
                    None
                },
                None => None,
            }
        } else {
            match spec_data_type(s.skip(1)) {
                Some((t, k)) => Some((Some(TypeDefV::DataType(t)), k + 1)),
                None => None,
            }
        }
    } else {
        Some((None, 0))
    }
}

/// The abstract value of an `ALTER TYPE` action as the parser reads it.
pub enum AlterTypeActionV {
    /// `ADD ATTRIBUTE <attribute>`
    Add(TypeAttributeV),
    /// `DROP ATTRIBUTE <name>`
    Drop(IdentView),
}

/// Whether an `ALTER TYPE` action has the abstract value `v`.
pub open spec fn alter_type_action_is(a: AlterTypeAction, v: AlterTypeActionV) -> bool {
    match v {
        AlterTypeActionV::Add(x) => a matches AlterTypeAction::AddAttribute(y) && type_attribute_is(y, x),
        AlterTypeActionV::Drop(n) => a matches AlterTypeAction::DropAttribute(m) && m@ == n,
    }
}

/// The rest of an `ALTER TYPE` statement after its two keywords:
/// `<name> { ADD ATTRIBUTE <attribute> | DROP ATTRIBUTE <name> }`.
pub open spec fn spec_alter_type_rest(s: Seq<Token>) -> Option<(Seq<IdentView>, AlterTypeActionV)> {
    match spec_object_name(s) {
        Some((name, k)) => {
            let t = s.skip(k as int);
            if t.len() > 1 && is_keyword_token(t[0]@, Keyword::ADD) && is_keyword_token(
                t[1]@,
                Keyword::ATTRIBUTE,
            ) {
                match spec_type_attribute(t.skip(2)) {
                    Some((v, _)) => Some((name, AlterTypeActionV::Add(v))),
                    None => None,
                }
            } else if t.len() > 1 && is_keyword_token(t[0]@, Keyword::DROP) && is_keyword_token(
                t[1]@,
                Keyword::ATTRIBUTE,
            ) {
                if t.len() > 2 && word_ident(t[2]@) is Some {
                    Some((name, AlterTypeActionV::Drop(word_ident(t[2]@)->0)))
                } else {
                    None
                }
            } else {
                None
            }
        },
        None => None,
    }
}

impl<'a, D: Dialect> Parser<'a, D> {
    /// Parses `CREATE SCHEMA [IF NOT EXISTS] [<name>] [AUTHORIZATION <owner>]`.
    #[verifier::rlimit(100)]
    #[verifier::spinoff_prover]
    pub fn parse_create_schema_stmt(&mut self) -> (r: Result<CreateSchemaStmt, ParserError>)
        requires
            old(self).wf(),
        ensures
            final(self).wf(),
            final(self).dialect_in_use() == old(self).dialect_in_use(),
            spec_expect_keywords(old(self).state(), seq![Keyword::CREATE, Keyword::SCHEMA]) is Err ==> r is Err,
            r is Ok ==> consumed(old(self).state(), final(self).state()),
            r matches Ok(s) ==> s.elements@.len() == 0,
            old(self).state().cursor == 0 && old(self).state().items.len() > 1 && is_keyword_token(
                old(self).state().items[0]@,
                Keyword::CREATE,
            ) && is_keyword_token(old(self).state().items[1]@, Keyword::SCHEMA) ==> match spec_create_schema_rest(
                old(self).state().items.skip(2),
            ) {
                Some((ine, name, owner)) => r matches Ok(c) && c.if_not_exists == ine && opt_name_v(
                    c.name,
                ) == name && opt_ident_v(c.authorization) == owner,
                None => r is Err,
            },
    {
        let ghost st = self.state();
        proof {
            if st.cursor == 0 && st.items.len() > 1 && is_keyword_token(st.items[0]@, Keyword::CREATE)
                && is_keyword_token(st.items[1]@, Keyword::SCHEMA) {
                lemma_expect_two_keywords(st, Keyword::CREATE, Keyword::SCHEMA);
            }
        }
        let create_schema = [Keyword::CREATE, Keyword::SCHEMA];
        proof { assert(create_schema@ =~= seq![Keyword::CREATE, Keyword::SCHEMA]); }
        self.expect_keywords(&create_schema)?;
        let ghost s1 = self.state();
        let if_not_exists_kws = [Keyword::IF, Keyword::NOT, Keyword::EXISTS];
        let if_not_exists = self.parse_keywords(&if_not_exists_kws);
        let ghost s2 = self.state();
        proof {
            lemma_consumed_trans(st, s1, s2);
            if st.cursor == 0 && st.items.len() > 1 && is_keyword_token(st.items[0]@, Keyword::CREATE)
                && is_keyword_token(st.items[1]@, Keyword::SCHEMA) {
                assert(s1.items =~= st.items.skip(2));
                assert(if_not_exists_kws@ =~= seq![Keyword::IF, Keyword::NOT, Keyword::EXISTS]);
                lemma_if_not_exists_follows(s1);
            }
        }
        let has_name = match self.peek_token() {
            Some(t) => !t.is_keyword(Keyword::AUTHORIZATION),
            None => false,
        };
        let name = if has_name {
            let n = self.parse_object_name()?;
            Some(n)
        } else {
            None
        };
        let ghost s3 = self.state();
        proof {
            if has_name {
                lemma_consumed_trans(st, s2, s3);
                crate::parser::types::lemma_object_name_len(s2.items);
            }
        }
        let authorization = if self.parse_keyword(Keyword::AUTHORIZATION) {
            let ghost s4 = self.state();
            let a = self.parse_identifier()?;
            proof {
                lemma_consumed_trans(st, s3, s4);
                lemma_consumed_trans(st, s4, self.state());
            }
            Some(a)
        } else {
            None
        };
        Ok(CreateSchemaStmt { if_not_exists, name, authorization, elements: Vec::new() })
    }

    /// Parses `CREATE [TEMPORARY] TABLE [IF NOT EXISTS] <name>
    /// [( <column or table constraint> [, ...] )] [LIKE <table> [<options>]] [AS <query>]`.
    #[verifier::rlimit(100)]
    #[verifier::spinoff_prover]
    pub fn parse_create_table_stmt(&mut self) -> (r: Result<CreateTableStmt, ParserError>)
        requires
            old(self).wf(),
        ensures
            final(self).wf(),
            final(self).dialect_in_use() == old(self).dialect_in_use(),
            !peek_is_keyword(old(self).state(), Keyword::CREATE) ==> r is Err,
            r is Ok ==> consumed(old(self).state(), final(self).state()),
            old(self).state().cursor == 0 && peek_is_keyword(old(self).state(), Keyword::CREATE)
                ==> match spec_table_head(old(self).state().items.skip(1)) {
                Some((temporary, ine, name, _)) => r matches Ok(c) ==> c.temporary == temporary
                    && c.if_not_exists == ine && c.name@ == name,
                None => r is Err,
            },
    {
        let ghost st = self.state();
        let ghost s = st.items;
        self.expect_keyword(Keyword::CREATE)?;
        let ghost s1 = self.state();
        proof { assert(s1.items =~= s.skip(1)); }
        let temporary = self.parse_keyword(Keyword::TEMPORARY);
        let ghost s2 = self.state();
        proof {
            if temporary {
                assert(s2.items =~= s1.items.skip(1));
            } else {
                assert(s2.items =~= s1.items.skip(0));
            }
        }
        self.expect_keyword(Keyword::TABLE)?;
        let ghost s3 = self.state();
        let if_not_exists_kws = [Keyword::IF, Keyword::NOT, Keyword::EXISTS];
        proof {
            assert(if_not_exists_kws@ =~= seq![Keyword::IF, Keyword::NOT, Keyword::EXISTS]);
            lemma_if_not_exists_follows(s3);
            assert(s3.items =~= s2.items.skip(1));
        }
        let if_not_exists = self.parse_keywords(&if_not_exists_kws);
        let ghost s4 = self.state();
        proof {
            if if_not_exists {
                assert(s4.items =~= s3.items.skip(3));
            } else {
                assert(s4.items =~= s3.items.skip(0));
            }
        }
        let name = self.parse_object_name()?;
        let ghost s5 = self.state();
        proof {
            lemma_consumed_trans(st, s1, s2);
            lemma_consumed_trans(st, s2, s3);
            lemma_consumed_trans(st, s3, s4);
            lemma_consumed_trans(st, s4, s5);
        }
        let mut columns: Vec<ColumnDef> = Vec::new();
        let mut constraints: Vec<TableConstraintDef> = Vec::new();
        if self.next_token_if_is(&Token::LeftParen) {
            proof { lemma_consumed_trans(st, s5, self.state()); }
            loop
                invariant
                    self.wf(),
                    self.dialect_in_use() == old(self).dialect_in_use(),
                    consumed(st, self.state()),
                decreases self.state().items.len(),
            {
                let ghost cur = self.state();
                if self.next_is_table_constraint() {
                    let c = self.parse_table_constraint_def()?;
                    constraints.push(c);
                } else {
                    let c = self.parse_column_def()?;
                    columns.push(c);
                }
                let ghost mid = self.state();
                proof { lemma_consumed_trans(st, cur, mid); }
                if !self.next_token_if_is(&Token::Comma) {
                    break;
                }
                proof {
                    lemma_consumed_trans(st, mid, self.state());
                    assert(self.state().items.len() < cur.items.len());
                }
            }
            let ghost s6 = self.state();
            self.expect_token(&Token::RightParen)?;
            proof { lemma_consumed_trans(st, s6, self.state()); }
        }
        let ghost s7 = self.state();
        let like = if self.parse_keyword(Keyword::LIKE) {
            let ghost s8 = self.state();
            let table = self.parse_object_name()?;
            let ghost s9 = self.state();
            let options = self.parse_like_options();
            proof {
                lemma_consumed_trans(st, s7, s8);
                lemma_consumed_trans(st, s8, s9);
                lemma_consumed_trans(st, s9, self.state());
            }
            Some(LikeClause { table, options })
        } else {
            None
        };
        let ghost s10 = self.state();
        let query = if self.parse_keyword(Keyword::AS) {
            let ghost s11 = self.state();
            let q = self.parse_query_expr(false)?;
            proof {
                lemma_consumed_trans(st, s10, s11);
                lemma_consumed_trans(st, s11, self.state());
            }
            Some(Box::new(q))
        } else {
            None
        };
        Ok(CreateTableStmt { temporary, if_not_exists, name, columns, constraints, like, query })
    }

    /// Whether a table constraint starts with the next token.
    fn next_is_table_constraint(&self) -> (b: bool)
        requires
            self.wf(),
        ensures
            b == (spec_next(self.state()) matches Some(t) && starts_table_constraint(t@)),
    {
        match self.peek_token() {
            Some(t) => t.is_keyword(Keyword::CONSTRAINT) || t.is_keyword(Keyword::UNIQUE)
                || t.is_keyword(Keyword::PRIMARY) || t.is_keyword(Keyword::FOREIGN) || t.is_keyword(
                Keyword::CHECK,
            ),
            None => false,
        }
    }

    /// Parses the options of a `LIKE` clause.
    fn parse_like_options(&mut self) -> (r: Vec<LikeOption>)
        requires
            old(self).wf(),
        ensures
            final(self).wf(),
            final(self).dialect_in_use() == old(self).dialect_in_use(),
            consumed(old(self).state(), final(self).state()),
            final(self).state().items == old(self).state().items.skip(2 * r.len())
                || final(self).state().items == old(self).state().items.skip(2 * r.len() + 1),
            forall|i: int|
                0 <= i < r.len() ==> like_option_read(old(self).state().items, i, #[trigger] r@[i]),
    {
        let ghost st = self.state();
        let mut options: Vec<LikeOption> = Vec::new();
        proof {
            lemma_consumed_refl(self.state());
            assert(st.items.skip(0) =~= st.items);
        }
        loop
            invariant_except_break
                2 * options.len() <= st.items.len(),
                self.state().items == st.items.skip(2 * options.len()),
            invariant
                self.wf(),
                self.dialect_in_use() == old(self).dialect_in_use(),
                st == old(self).state(),
                consumed(st, self.state()),
                forall|i: int|
                    0 <= i < options.len() ==> like_option_read(st.items, i, #[trigger] options@[i]),
            ensures
                self.state().items == st.items.skip(2 * options.len()) || self.state().items
                    == st.items.skip(2 * options.len() + 1),
            decreases self.state().items.len(),
        {
            let ghost cur = self.state();
            let including = if self.parse_keyword(Keyword::INCLUDING) {
                true
            } else if self.parse_keyword(Keyword::EXCLUDING) {
                false
            } else {
                break;
            };
            let ghost mid = self.state();
            proof {
                assert(cur.items.len() > 0);
                assert(mid.items =~= cur.items.drop_first());
                assert(mid.items =~= st.items.skip(2 * options.len() + 1));
            }
            let kinds = [Keyword::IDENTITY, Keyword::DEFAULTS, Keyword::GENERATED];
            proof {
                reveal_with_fuel(crate::token::spec_first_keyword_of, 4);
                assert(kinds@.drop_first() =~= seq![Keyword::DEFAULTS, Keyword::GENERATED]);
                assert(kinds@.drop_first().drop_first() =~= seq![Keyword::GENERATED]);
                assert(kinds@.drop_first().drop_first().drop_first() =~= Seq::<Keyword>::empty());
            }
            let k = match self.parse_one_of_keywords(&kinds) {
                Some(k) => k,
                None => {
                    proof { lemma_consumed_trans(old(self).state(), cur, mid); }
                    break;
                },
            };
            proof {
                lemma_consumed_trans(old(self).state(), cur, mid);
                lemma_consumed_trans(old(self).state(), mid, self.state());
            }
            let option = if k == Keyword::IDENTITY {
                if including { LikeOption::IncludingIdentity } else { LikeOption::ExcludingIdentity }
            } else if k == Keyword::DEFAULTS {
                if including { LikeOption::IncludingDefaults } else { LikeOption::ExcludingDefaults }
            } else {
                if including { LikeOption::IncludingGenerated } else { LikeOption::ExcludingGenerated }
            };
            proof {
    reveal_with_fuel(crate::token::spec_first_keyword_of, 4);
                reveal_strlit("INCLUDING");
                reveal_strlit("EXCLUDING");
                reveal_strlit("IDENTITY");
                reveal_strlit("DEFAULTS");
                reveal_strlit("GENERATED");
                reveal_strlit(" ");
                reveal_strlit("INCLUDING IDENTITY");
                reveal_strlit("EXCLUDING IDENTITY");
                reveal_strlit("INCLUDING DEFAULTS");
                reveal_strlit("EXCLUDING DEFAULTS");
                reveal_strlit("INCLUDING GENERATED");
                reveal_strlit("EXCLUDING GENERATED");
                assert("INCLUDING IDENTITY"@ =~= "INCLUDING"@ + " "@ + "IDENTITY"@);
                assert("EXCLUDING IDENTITY"@ =~= "EXCLUDING"@ + " "@ + "IDENTITY"@);
                assert("INCLUDING DEFAULTS"@ =~= "INCLUDING"@ + " "@ + "DEFAULTS"@);
                assert("EXCLUDING DEFAULTS"@ =~= "EXCLUDING"@ + " "@ + "DEFAULTS"@);
                assert("INCLUDING GENERATED"@ =~= "INCLUDING"@ + " "@ + "GENERATED"@);
                assert("EXCLUDING GENERATED"@ =~= "EXCLUDING"@ + " "@ + "GENERATED"@);
                let n = options.len() as int;
                assert(cur.items[0] == st.items[2 * n]);
                assert(mid.items[0] == st.items[2 * n + 1]);
                assert(like_option_read(st.items, n, option));
                assert(self.state().items =~= st.items.skip(2 * (n + 1)));
            }
            options.push(option);
        }
        options
    }

    /// Parses a column definition:
    /// `<name> <data type> { <column constraint> | DEFAULT <literal> | COLLATE <collation> }`.
    #[verifier::loop_isolation(false)]
    #[verifier::rlimit(100)]
    #[verifier::spinoff_prover]
    fn parse_column_def(&mut self) -> (r: Result<ColumnDef, ParserError>)
        requires
            old(self).wf(),
        ensures
            final(self).wf(),
            final(self).dialect_in_use() == old(self).dialect_in_use(),
            r is Ok ==> consumed(old(self).state(), final(self).state()),
            meets(
                spec_column_def(old(self).state().items),
                |d: ColumnDef| column_def_v(d),
                old(self).state(),
                r,
                final(self).state(),
            ),
    {
        let ghost st = self.state();
        let ghost sp = spec_column_def(st.items);
        let name = self.parse_identifier()?;
        let ghost s1 = self.state();
        proof {
            assert(s1.items =~= st.items.skip(1));
            crate::parser::types::lemma_data_type_len(s1.items);
        }
        let data_type = self.parse_data_type()?;
        proof {
            lemma_consumed_trans(st, s1, self.state());
            if let Some((_, m)) = crate::parser::types::spec_data_type(s1.items) {
                assert(self.state().items =~= st.items.skip(m + 1int));
            }
        }
        let mut constraints: Vec<ColumnConstraintDef> = Vec::new();
        let mut default: Option<Expr> = None;
        let mut collation: Option<ObjectName> = None;
        proof {
            assert(column_constraint_defs_v(constraints@) =~= Seq::empty());
        }
        loop
            invariant
                self.wf(),
                self.dialect_in_use() == old(self).dialect_in_use(),
                consumed(st, self.state()),
                sp == spec_column_def(st.items),
                (self.state().cursor == 0 && sp == shift(
                    spec_column_options(
                        self.state().items,
                        column_acc(name@, data_type, constraints@, default, collation),
                    ),
                    (st.items.len() - self.state().items.len()) as nat,
                )),
            decreases self.state().items.len(),
        {
            let ghost cur = self.state();
            let ghost c0: nat = (st.items.len() - cur.items.len()) as nat;
            let ghost acc0 = column_acc(name@, data_type, constraints@, default, collation);
            let more = self.parse_column_option(
                &mut constraints,
                &mut default,
                &mut collation,
                Ghost(name@),
                Ghost(data_type),
            )?;
            proof {
                lemma_consumed_trans(st, cur, self.state());
                assert(cur.items == st.items.skip(c0 as int));
                if more {
                    lemma_shift_shift(
                        spec_column_options(
                            self.state().items,
                            column_acc(name@, data_type, constraints@, default, collation),
                        ),
                        (cur.items.len() - self.state().items.len()) as nat,
                        c0,
                    );
                } else {
                    assert(self.state() == skip_state(st, c0));
                }
            }
            if !more {
                break;
            }
        }
        Ok(ColumnDef { name, data_type, constraints, default, collation })
    }

    /// Parses one option after the data type of a column: `DEFAULT
    /// <literal>`, `COLLATE <collation>` or a column constraint; returns
    /// whether one followed.
    #[verifier::rlimit(100)]
    #[verifier::spinoff_prover]
    fn parse_column_option(
        &mut self,
        constraints: &mut Vec<ColumnConstraintDef>,
        default: &mut Option<Expr>,
        collation: &mut Option<ObjectName>,
        Ghost(nm): Ghost<IdentView>,
        Ghost(dt): Ghost<DataType>,
    ) -> (r: Result<bool, ParserError>)
        requires
            old(self).wf(),
        ensures
            final(self).wf(),
            final(self).dialect_in_use() == old(self).dialect_in_use(),
            r is Ok ==> consumed(old(self).state(), final(self).state()),
            r matches Ok(true) ==> final(self).state().items.len() < old(self).state().items.len(),
            r matches Ok(false) ==> final(self).state() == old(self).state() && final(constraints)@
                == old(constraints)@ && *final(default) == *old(default) && *final(collation)
                == *old(collation),
            old(self).state().cursor == 0 ==> ({
                let p = spec_column_options(
                    old(self).state().items,
                    column_acc(nm, dt, old(constraints)@, *old(default), *old(collation)),
                );
                match r {
                    Ok(true) => (final(self).state().cursor == 0 && p == shift(
                        spec_column_options(
                            final(self).state().items,
                            column_acc(nm, dt, final(constraints)@, *final(default), *final(collation)),
                        ),
                        (old(self).state().items.len() - final(self).state().items.len()) as nat,
                    )),
                    Ok(false) => p == Parsed::Done(
                        column_acc(nm, dt, old(constraints)@, *old(default), *old(collation)),
                        0,
                    ),
                    Err(_) => p is Fails,
                }
            }),
    {
        let ghost cur = self.state();
        proof {
            assert(cur.items.skip(1) =~= cur.items.drop_first());
        }
        if self.parse_keyword(Keyword::DEFAULT) {
            proof {
                crate::parser::lemma_next_consumed(cur);
                lemma_literal_len(cur.items.skip(1));
            }
            let ghost mid = self.state();
            let l = self.parse_literal()?;
            proof {
                lemma_consumed_trans(cur, mid, self.state());
                crate::ast::view::lemma_expr_v_literal(l);
                if let Some((_, n)) = spec_literal(mid.items) {
                    assert(self.state().items =~= cur.items.skip(n + 1int));
                }
            }
            *default = Some(Expr::Literal(l));
            Ok(true)
        } else if self.parse_keyword(Keyword::COLLATE) {
            proof {
                crate::parser::lemma_next_consumed(cur);
                crate::parser::types::lemma_object_name_len(cur.items.skip(1));
            }
            let ghost mid = self.state();
            let c = self.parse_object_name()?;
            proof {
                lemma_consumed_trans(cur, mid, self.state());
                if let Some((_, n)) = spec_object_name(mid.items) {
                    assert(self.state().items =~= cur.items.skip(n + 1int));
                }
            }
            *collation = Some(c);
            Ok(true)
        } else if self.next_is_column_constraint() {
            proof {
                lemma_column_constraint_def_len(cur.items);
            }
            let c = self.parse_column_constraint_def()?;
            proof {
                assert(column_constraint_defs_v(constraints@.push(c)) =~= column_constraint_defs_v(
                    constraints@,
                ).push((opt_ident_v(c.name), column_constraint_v(c.constraint))));
            }
            constraints.push(c);
            Ok(true)
        } else {
            Ok(false)
        }
    }

    /// Whether a column constraint starts with the next token.
    fn next_is_column_constraint(&self) -> (b: bool)
        requires
            self.wf(),
        ensures
            b == (spec_next(self.state()) matches Some(t) && starts_column_constraint(t@)),
    {
        match self.peek_token() {
            Some(t) => t.is_keyword(Keyword::CONSTRAINT) || t.is_keyword(Keyword::NULL) || t.is_keyword(
                Keyword::NOT,
            ) || t.is_keyword(Keyword::UNIQUE) || t.is_keyword(Keyword::PRIMARY) || t.is_keyword(
                Keyword::REFERENCES,
            ) || t.is_keyword(Keyword::CHECK),
            None => false,
        }
    }

    /// Parses an optional constraint name: `CONSTRAINT <name>`.
    fn parse_constraint_name(&mut self) -> (r: Result<Option<Ident>, ParserError>)
        requires
            old(self).wf(),
        ensures
            final(self).wf(),
            final(self).dialect_in_use() == old(self).dialect_in_use(),
            r matches Ok(None) ==> final(self).state() == old(self).state(),
            r matches Ok(Some(_)) ==> advanced(old(self).state(), final(self).state()),
            old(self).state().cursor == 0 ==> match spec_constraint_name(old(self).state().items) {
                Some((n, k)) => r matches Ok(x) && opt_ident_v(x) == n && final(self).state()
                    == skip_state(old(self).state(), k),
                None => r is Err,
            },
    {
        let ghost st = self.state();
        if self.parse_keyword(Keyword::CONSTRAINT) {
            proof { crate::parser::lemma_next_consumed(st); }
            let ghost s1 = self.state();
            let name = self.parse_identifier()?;
            proof {
                crate::parser::lemma_next_consumed(s1);
                lemma_consumed_trans(st, s1, self.state());
                assert(self.state().items =~= st.items.skip(2));
            }
            Ok(Some(name))
        } else {
            proof {
                assert(st.items.skip(0) =~= st.items);
            }
            Ok(None)
        }
    }

    /// Parses a column constraint definition: `[CONSTRAINT <name>] <column constraint>`.
    fn parse_column_constraint_def(&mut self) -> (r: Result<ColumnConstraintDef, ParserError>)
        requires
            old(self).wf(),
        ensures
            final(self).wf(),
            final(self).dialect_in_use() == old(self).dialect_in_use(),
            r is Ok ==> consumed(old(self).state(), final(self).state()),
            r is Ok ==> final(self).state().items.len() < old(self).state().items.len(),
            old(self).state().cursor == 0 ==> meets(
                with_name(old(self).state().items, |t: Seq<Token>| spec_column_constraint(t)),
                |d: ColumnConstraintDef| (opt_ident_v(d.name), column_constraint_v(d.constraint)),
                old(self).state(),
                r,
                final(self).state(),
            ),
    {
        let ghost st = self.state();
        let name = self.parse_constraint_name()?;
        let ghost s1 = self.state();
        proof {
            if st.cursor == 0 {
                assert(st.items.skip(0) =~= st.items);
                lemma_column_constraint_len(s1.items);
            }
        }
        let constraint = self.parse_column_constraint()?;
        proof {
            if name.is_some() {
                lemma_consumed_trans(st, s1, self.state());
            }
            if st.cursor == 0 {
                if let Some((_, a)) = spec_constraint_name(st.items) {
                    if let Parsed::Done(_, b) = spec_column_constraint(s1.items) {
                        assert(self.state().items =~= st.items.skip((a + b) as int));
                    }
                }
            }
        }
        Ok(ColumnConstraintDef { name, constraint })
    }

    /// Parses what follows a referenced table:
    /// `[( <columns> )] [MATCH <type>] [ON UPDATE <action>] [ON DELETE <action>]`.
    #[verifier::rlimit(100)]
    #[verifier::spinoff_prover]
    fn parse_references_tail(&mut self) -> (r: Result<
        (Vec<Ident>, Option<ReferentialMatchType>, Option<ReferentialAction>, Option<ReferentialAction>),
        ParserError,
    >)
        requires
            old(self).wf(),
        ensures
            final(self).wf(),
            final(self).dialect_in_use() == old(self).dialect_in_use(),
            r is Ok ==> consumed(old(self).state(), final(self).state()),
            old(self).state().cursor == 0 ==> match spec_references_tail(old(self).state().items) {
                Some((v, n)) => r matches Ok(x) && idents_view(x.0@) == v.columns && x.1
                    == v.match_type && x.2 == v.on_update && x.3 == v.on_delete && final(self).state()
                    == skip_state(old(self).state(), n),
                None => r is Err,
            },
    {
        let ghost st = self.state();
        proof {
            lemma_consumed_refl(st);
            lemma_optional_column_list_len(st.items);
            assert(st.items.skip(0) =~= st.items);
        }
        let columns = match self.parse_optional_column_list()? {
            Some(c) => c,
            None => {
                let v: Vec<Ident> = Vec::new();
                proof {
                    assert(idents_view(v@) =~= Seq::<IdentView>::empty());
                }
                v
            },
        };
        let ghost s1 = self.state();
        let ghost a: nat = (st.items.len() - s1.items.len()) as nat;
        let match_type = self.parse_match_clause()?;
        let ghost s2 = self.state();
        let ghost b: nat = (s1.items.len() - s2.items.len()) as nat;
        proof {
            lemma_consumed_trans(st, s1, s2);
            if st.cursor == 0 {
                assert(s2.items =~= st.items.skip(a as int).skip(b as int));
            }
        }
        let on_update = self.parse_on_action(Keyword::UPDATE)?;
        let ghost s3 = self.state();
        let ghost c2: nat = (s2.items.len() - s3.items.len()) as nat;
        proof {
            lemma_consumed_trans(st, s2, s3);
            if st.cursor == 0 {
                assert(s3.items =~= st.items.skip(a as int).skip(b as int).skip(c2 as int));
            }
        }
        let on_delete = self.parse_on_action(Keyword::DELETE)?;
        proof {
            lemma_consumed_trans(st, s3, self.state());
            if st.cursor == 0 {
                let e: nat = (s3.items.len() - self.state().items.len()) as nat;
                assert(self.state().items =~= st.items.skip((a + b + c2 + e) as int));
            }
        }
        Ok((columns, match_type, on_update, on_delete))
    }

    /// Parses `MATCH <type>`, if it follows.
    fn parse_match_clause(&mut self) -> (r: Result<Option<ReferentialMatchType>, ParserError>)
        requires
            old(self).wf(),
        ensures
            final(self).wf(),
            final(self).dialect_in_use() == old(self).dialect_in_use(),
            r is Ok ==> consumed(old(self).state(), final(self).state()),
            old(self).state().cursor == 0 ==> match spec_match_clause(old(self).state().items) {
                Some((m, n)) => r == Ok::<Option<ReferentialMatchType>, ParserError>(m)
                    && final(self).state() == skip_state(old(self).state(), n),
                None => r is Err,
            },
    {
        let ghost st = self.state();
        proof {
            assert(st.items.skip(0) =~= st.items);
            assert(st.items.skip(1) =~= st.items.drop_first());
            if st.items.len() > 1 {
                assert(st.items.skip(2) =~= st.items.skip(1).drop_first());
            }
        }
        if self.parse_keyword(Keyword::MATCH) {
            let ghost a1 = self.state();
            let m = self.parse_referential_match_type()?;
            proof {
                crate::parser::lemma_next_state_consumed(st);
                lemma_consumed_trans(st, a1, self.state());
            }
            Ok(Some(m))
        } else {
            proof { lemma_consumed_refl(st); }
            Ok(None)
        }
    }

    /// Parses `ON <event> <action>`, if it follows.
    fn parse_on_action(&mut self, event: Keyword) -> (r: Result<Option<ReferentialAction>, ParserError>)
        requires
            old(self).wf(),
        ensures
            final(self).wf(),
            final(self).dialect_in_use() == old(self).dialect_in_use(),
            r is Ok ==> consumed(old(self).state(), final(self).state()),
            old(self).state().cursor == 0 ==> match spec_on_action(old(self).state().items, event) {
                Some((x, n)) => r == Ok::<Option<ReferentialAction>, ParserError>(x)
                    && final(self).state() == skip_state(old(self).state(), n),
                None => r is Err,
            },
    {
        let ghost st = self.state();
        let kws = [Keyword::ON, event];
        proof {
            assert(kws@ =~= seq![Keyword::ON, event]);
            lemma_two_keywords_follow(st, Keyword::ON, event);
            assert(st.items.skip(0) =~= st.items);
        }
        if self.parse_keywords(&kws) {
            let ghost a1 = self.state();
            let x = self.parse_referential_action()?;
            proof {
                lemma_consumed_trans(st, a1, self.state());
                if let Some((_, n)) = spec_referential_action(a1.items) {
                    assert(self.state().items =~= st.items.skip(n + 2int));
                }
            }
            Ok(Some(x))
        } else {
            Ok(None)
        }
    }

    /// Parses a column constraint: `NULL`, `NOT NULL`, `UNIQUE`,
    /// `PRIMARY KEY`, `REFERENCES <table> ...` or `CHECK ( <expr> )`.
    #[verifier::rlimit(100)]
    #[verifier::spinoff_prover]
    fn parse_column_constraint(&mut self) -> (r: Result<ColumnConstraint, ParserError>)
        requires
            old(self).wf(),
        ensures
            final(self).wf(),
            final(self).dialect_in_use() == old(self).dialect_in_use(),
            r is Ok ==> consumed(old(self).state(), final(self).state()),
            r is Ok ==> final(self).state().items.len() < old(self).state().items.len(),
            old(self).state().cursor == 0 ==> meets(
                spec_column_constraint(old(self).state().items),
                |c: ColumnConstraint| column_constraint_v(c),
                old(self).state(),
                r,
                final(self).state(),
            ),
    {
        broadcast use crate::ast::view::group_expr_v;

        let ghost st = self.state();
        let not_null = [Keyword::NOT, Keyword::NULL];
        let primary_key = [Keyword::PRIMARY, Keyword::KEY];
        proof {
            assert(not_null@ =~= seq![Keyword::NOT, Keyword::NULL]);
            assert(primary_key@ =~= seq![Keyword::PRIMARY, Keyword::KEY]);
            lemma_two_keywords_follow(st, Keyword::NOT, Keyword::NULL);
            lemma_two_keywords_follow(
                PeekState { items: st.items, cursor: 0 },
                Keyword::PRIMARY,
                Keyword::KEY,
            );
            assert(st.items.skip(1) =~= st.items.drop_first());
            lemma_column_constraint_len(st.items);
        }
        if self.parse_keyword(Keyword::NULL) {
            proof { crate::parser::lemma_next_consumed(st); }
            return Ok(ColumnConstraint::Null);
        }
        if self.parse_keywords(&not_null) {
            proof { lemma_keywords_advanced(st, self.state(), 2); }
            return Ok(ColumnConstraint::NotNull);
        }
        let ghost s0 = self.state();
        if self.parse_keyword(Keyword::UNIQUE) {
            proof { crate::parser::lemma_next_consumed(s0); lemma_reset_advanced(st, s0, self.state()); }
            return Ok(ColumnConstraint::Unique { is_primary: false });
        }
        if self.parse_keywords(&primary_key) {
            proof { lemma_keywords_advanced(st, self.state(), 2); }
            return Ok(ColumnConstraint::Unique { is_primary: true });
        }
        let ghost s1 = self.state();
        if self.parse_keyword(Keyword::REFERENCES) {
            proof { crate::parser::lemma_next_consumed(s1); lemma_reset_advanced(st, s1, self.state()); }
            let ghost s2 = self.state();
            proof {
                crate::parser::types::lemma_object_name_len(s2.items);
            }
            let table = self.parse_object_name()?;
            let ghost s3 = self.state();
            proof {
                lemma_references_tail_len(s3.items);
            }
            let (referenced_columns, match_type, on_update, on_delete) = self.parse_references_tail()?;
            proof {
                lemma_consumed_trans(st, s2, s3);
                lemma_consumed_trans(st, s3, self.state());
                if let Some((_, a)) = spec_object_name(s2.items) {
                    if let Some((_, b)) = spec_references_tail(s3.items) {
                        assert(self.state().items =~= st.items.skip((1 + a + b) as int));
                    }
                }
            }
            return Ok(ColumnConstraint::References {
                table,
                referenced_columns,
                match_type,
                on_update,
                on_delete,
            });
        }
        if self.parse_keyword(Keyword::CHECK) {
            proof { crate::parser::lemma_next_consumed(s1); lemma_reset_advanced(st, s1, self.state()); }
            let ghost s2 = self.state();
            proof {
                lemma_parenthesized_len(s2.items);
            }
            let e = self.parse_parenthesized_expr()?;
            proof {
                lemma_consumed_trans(st, s2, self.state());
                if let Parsed::Done(_, n) = spec_parenthesized(s2.items) {
                    assert(self.state().items =~= st.items.skip(n + 1int));
                }
            }
            return Ok(ColumnConstraint::Check(Box::new(e)));
        }
        self.expected_here("NULL, NOT NULL, UNIQUE, PRIMARY KEY, REFERENCES or CHECK")
    }

    /// Parses `( <expr> )`.
    fn parse_parenthesized_expr(&mut self) -> (r: Result<Expr, ParserError>)
        requires
            old(self).wf(),
        ensures
            final(self).wf(),
            final(self).dialect_in_use() == old(self).dialect_in_use(),
            r is Ok ==> advanced(old(self).state(), final(self).state()),
            old(self).state().cursor == 0 ==> meets_expr(
                spec_parenthesized(old(self).state().items),
                old(self).state(),
                r,
                final(self).state(),
            ),
    {
        let ghost st = self.state();
        self.expect_token(&Token::LeftParen)?;
        proof {
            crate::parser::lemma_next_consumed(st);
            assert(self.state().items =~= st.items.skip(1));
            crate::parser::grammar::lemma_subexpr_len(st.items.skip(1), 0);
        }
        let ghost s1 = self.state();
        let e = self.parse_expr()?;
        let ghost s2 = self.state();
        proof {
            if let Parsed::Done(_, k) = spec_subexpr(s1.items, 0) {
                if s2.items.len() > 0 {
                    assert(s2.items[0] == st.items[k + 1int]);
                }
            }
        }
        self.expect_token(&Token::RightParen)?;
        proof {
            lemma_consumed_trans(st, s1, s2);
            crate::parser::lemma_consumed_then_next(st, s2);
            if let Parsed::Done(_, k) = spec_subexpr(s1.items, 0) {
                assert(self.state().items =~= st.items.skip(k + 2int));
            }
        }
        Ok(e)
    }

    /// Parses a table constraint definition: `[CONSTRAINT <name>] <table constraint>`.
    fn parse_table_constraint_def(&mut self) -> (r: Result<TableConstraintDef, ParserError>)
        requires
            old(self).wf(),
        ensures
            final(self).wf(),
            final(self).dialect_in_use() == old(self).dialect_in_use(),
            r is Ok ==> consumed(old(self).state(), final(self).state()),
            r is Ok ==> final(self).state().items.len() < old(self).state().items.len(),
            old(self).state().cursor == 0 ==> meets(
                with_name(old(self).state().items, |t: Seq<Token>| spec_table_constraint(t)),
                |d: TableConstraintDef| (opt_ident_v(d.name), table_constraint_v(d.constraint)),
                old(self).state(),
                r,
                final(self).state(),
            ),
    {
        let ghost st = self.state();
        let name = self.parse_constraint_name()?;
        let ghost s1 = self.state();
        proof {
            if st.cursor == 0 {
                assert(st.items.skip(0) =~= st.items);
                lemma_table_constraint_len(s1.items);
            }
        }
        let constraint = self.parse_table_constraint()?;
        proof {
            if name.is_some() {
                lemma_consumed_trans(st, s1, self.state());
            }
            if st.cursor == 0 {
                if let Some((_, a)) = spec_constraint_name(st.items) {
                    if let Parsed::Done(_, b) = spec_table_constraint(s1.items) {
                        assert(self.state().items =~= st.items.skip((a + b) as int));
                    }
                }
            }
        }
        Ok(TableConstraintDef { name, constraint })
    }

    /// Parses `( <column> [, ...] )`.
    fn parse_column_list(&mut self) -> (r: Result<Vec<Ident>, ParserError>)
        requires
            old(self).wf(),
        ensures
            final(self).wf(),
            final(self).dialect_in_use() == old(self).dialect_in_use(),
            r is Ok ==> advanced(old(self).state(), final(self).state()),
            old(self).state().cursor == 0 ==> match spec_column_list(old(self).state().items) {
                Some((l, n)) => r matches Ok(v) && idents_view(v@) == l && final(self).state()
                    == skip_state(old(self).state(), n),
                None => r is Err,
            },
    {
        let ghost st = self.state();
        self.expect_token(&Token::LeftParen)?;
        proof {
            crate::parser::lemma_next_consumed(st);
            assert(self.state().items =~= st.items.skip(1));
            crate::parser::query::lemma_idents_len(st.items.skip(1));
        }
        let ghost s1 = self.state();
        let columns = self.parse_idents()?;
        let ghost s2 = self.state();
        proof {
            if let Some((l, k)) = crate::parser::query::spec_idents(s1.items) {
                if s2.items.len() > 0 {
                    assert(s2.items[0] == st.items[k + 1int]);
                }
            }
        }
        self.expect_token(&Token::RightParen)?;
        proof {
            lemma_consumed_trans(st, s1, s2);
            crate::parser::lemma_consumed_then_next(st, s2);
            if let Some((l, k)) = crate::parser::query::spec_idents(s1.items) {
                assert(self.state().items =~= st.items.skip(k + 2int));
            }
        }
        Ok(columns)
    }

    /// Parses a table constraint: `UNIQUE ( <columns> )`,
    /// `PRIMARY KEY ( <columns> )`,
    /// `FOREIGN KEY ( <columns> ) REFERENCES <table> ...` or `CHECK ( <expr> )`.
    #[verifier::rlimit(100)]
    #[verifier::spinoff_prover]
    fn parse_table_constraint(&mut self) -> (r: Result<TableConstraint, ParserError>)
        requires
            old(self).wf(),
        ensures
            final(self).wf(),
            final(self).dialect_in_use() == old(self).dialect_in_use(),
            r is Ok ==> consumed(old(self).state(), final(self).state()),
            r is Ok ==> final(self).state().items.len() < old(self).state().items.len(),
            old(self).state().cursor == 0 ==> meets(
                spec_table_constraint(old(self).state().items),
                |c: TableConstraint| table_constraint_v(c),
                old(self).state(),
                r,
                final(self).state(),
            ),
    {
        broadcast use crate::ast::view::group_expr_v;

        let ghost st = self.state();
        let primary_key = [Keyword::PRIMARY, Keyword::KEY];
        let foreign_key = [Keyword::FOREIGN, Keyword::KEY];
        proof {
            assert(primary_key@ =~= seq![Keyword::PRIMARY, Keyword::KEY]);
            assert(foreign_key@ =~= seq![Keyword::FOREIGN, Keyword::KEY]);
            lemma_two_keywords_follow(st, Keyword::PRIMARY, Keyword::KEY);
            lemma_two_keywords_follow(
                PeekState { items: st.items, cursor: 0 },
                Keyword::FOREIGN,
                Keyword::KEY,
            );
            assert(st.items.skip(1) =~= st.items.drop_first());
            lemma_table_constraint_len(st.items);
            lemma_optional_column_list_len(st.items.skip(1));
            lemma_optional_column_list_len(st.items.skip(2));
        }
        if self.parse_keyword(Keyword::UNIQUE) {
            proof { crate::parser::lemma_next_consumed(st); }
            let ghost s1 = self.state();
            let columns = self.parse_column_list()?;
            proof {
                lemma_consumed_trans(st, s1, self.state());
                if let Some((_, n)) = spec_column_list(s1.items) {
                    assert(self.state().items =~= st.items.skip(n + 1int));
                }
            }
            return Ok(TableConstraint::Unique { columns, is_primary: false });
        }
        if self.parse_keywords(&primary_key) {
            proof { lemma_keywords_advanced(st, self.state(), 2); }
            let ghost s1 = self.state();
            let columns = self.parse_column_list()?;
            proof {
                lemma_consumed_trans(st, s1, self.state());
                if let Some((_, n)) = spec_column_list(s1.items) {
                    assert(self.state().items =~= st.items.skip(n + 2int));
                }
            }
            return Ok(TableConstraint::Unique { columns, is_primary: true });
        }
        if self.parse_keywords(&foreign_key) {
            proof { lemma_keywords_advanced(st, self.state(), 2); }
            let ghost s1 = self.state();
            let referencing_columns = self.parse_column_list()?;
            let ghost s2 = self.state();
            proof {
                if let Some((_, a)) = spec_column_list(s1.items) {
                    assert(s2.items =~= st.items.skip(2).skip(a as int));
                    if s2.items.len() > 0 {
                        assert(s2.items.skip(1) =~= s2.items.drop_first());
                        crate::parser::types::lemma_object_name_len(s2.items.skip(1));
                    }
                }
            }
            self.expect_keyword(Keyword::REFERENCES)?;
            let ghost s3 = self.state();
            let table = self.parse_object_name()?;
            let ghost s4 = self.state();
            proof {
                lemma_references_tail_len(s4.items);
            }
            let (referenced_columns, match_type, on_update, on_delete) = self.parse_references_tail()?;
            proof {
                lemma_consumed_trans(st, s1, s2);
                lemma_consumed_trans(st, s2, s3);
                lemma_consumed_trans(st, s3, s4);
                lemma_consumed_trans(st, s4, self.state());
                if let Some((_, a)) = spec_column_list(s1.items) {
                    if let Some((_, b)) = spec_object_name(s3.items) {
                        if let Some((_, c)) = spec_references_tail(s4.items) {
                            assert(self.state().items =~= st.items.skip((2 + a + 1 + b + c) as int));
                        }
                    }
                }
            }
            return Ok(TableConstraint::ForeignKey {
                referencing_columns,
                table,
                referenced_columns,
                match_type,
                on_update,
                on_delete,
            });
        }
        let ghost s0 = self.state();
        if self.parse_keyword(Keyword::CHECK) {
            proof { crate::parser::lemma_next_consumed(s0); lemma_reset_advanced(st, s0, self.state()); }
            let ghost s1 = self.state();
            proof {
                lemma_parenthesized_len(s1.items);
            }
            let e = self.parse_parenthesized_expr()?;
            proof {
                lemma_consumed_trans(st, s1, self.state());
                if let Parsed::Done(_, n) = spec_parenthesized(s1.items) {
                    assert(self.state().items =~= st.items.skip(n + 1int));
                }
            }
            return Ok(TableConstraint::Check(Box::new(e)));
        }
        self.expected_here("UNIQUE, PRIMARY KEY, FOREIGN KEY or CHECK")
    }

    /// Parses a referential match type: `FULL`, `PARTIAL` or `SIMPLE`.
    fn parse_referential_match_type(&mut self) -> (r: Result<ReferentialMatchType, ParserError>)
        requires
            old(self).wf(),
        ensures
            final(self).wf(),
            final(self).dialect_in_use() == old(self).dialect_in_use(),
            match spec_match_type(old(self).state()) {
                Some(m) => r == Ok::<ReferentialMatchType, ParserError>(m) && final(self).state()
                    == spec_next_state(old(self).state()),
                None => r is Err && final(self).state() == old(self).state(),
            },
            r is Ok ==> consumed(old(self).state(), final(self).state()),
    {
        let kws = [Keyword::FULL, Keyword::PARTIAL, Keyword::SIMPLE];
        proof {
            reveal_with_fuel(crate::token::spec_first_keyword_of, 4);
            assert(kws@.drop_first() =~= seq![Keyword::PARTIAL, Keyword::SIMPLE]);
            assert(kws@.drop_first().drop_first() =~= seq![Keyword::SIMPLE]);
            assert(kws@.drop_first().drop_first().drop_first() =~= Seq::<Keyword>::empty());
        }
        match self.parse_one_of_keywords(&kws) {
            Some(k) => {
                if k == Keyword::FULL {
                    Ok(ReferentialMatchType::Full)
                } else if k == Keyword::PARTIAL {
                    Ok(ReferentialMatchType::Partial)
                } else {
                    Ok(ReferentialMatchType::Simple)
                }
            },
            None => self.expected_here("FULL, PARTIAL or SIMPLE"),
        }
    }
    /// Parses a referential action: `CASCADE`, `RESTRICT`, `SET NULL`,
    /// `SET DEFAULT` or `NO ACTION`.
    fn parse_referential_action(&mut self) -> (r: Result<ReferentialAction, ParserError>)
        requires
            old(self).wf(),
        ensures
            final(self).wf(),
            final(self).dialect_in_use() == old(self).dialect_in_use(),
            r is Ok ==> consumed(old(self).state(), final(self).state()),
            peek_is_keyword(old(self).state(), Keyword::CASCADE) ==> r == Ok::<
                ReferentialAction,
                ParserError,
            >(ReferentialAction::Cascade),
            old(self).state().cursor == 0 ==> match spec_referential_action(old(self).state().items) {
                Some((a, n)) => r == Ok::<ReferentialAction, ParserError>(a) && final(self).state()
                    == skip_state(old(self).state(), n),
                None => r is Err,
            },
    {
        let ghost st = self.state();
        let set_null = [Keyword::SET, Keyword::NULL];
        let set_default = [Keyword::SET, Keyword::DEFAULT];
        let no_action = [Keyword::NO, Keyword::ACTION];
        proof {
            assert(set_null@ =~= seq![Keyword::SET, Keyword::NULL]);
            assert(set_default@ =~= seq![Keyword::SET, Keyword::DEFAULT]);
            assert(no_action@ =~= seq![Keyword::NO, Keyword::ACTION]);
            lemma_two_keywords_follow(PeekState { items: st.items, cursor: 0 }, Keyword::SET, Keyword::NULL);
            lemma_two_keywords_follow(PeekState { items: st.items, cursor: 0 }, Keyword::SET, Keyword::DEFAULT);
            lemma_two_keywords_follow(PeekState { items: st.items, cursor: 0 }, Keyword::NO, Keyword::ACTION);
            assert(st.items.skip(1) =~= st.items.drop_first());
        }
        if self.parse_keyword(Keyword::CASCADE) {
            Ok(ReferentialAction::Cascade)
        } else if self.parse_keyword(Keyword::RESTRICT) {
            Ok(ReferentialAction::Restrict)
        } else if self.parse_keywords(&set_null) {
            Ok(ReferentialAction::SetNull)
        } else if self.parse_keywords(&set_default) {
            proof { lemma_consumed_trans(st, PeekState { items: st.items, cursor: 0 }, self.state()); }
            Ok(ReferentialAction::SetDefault)
        } else if self.parse_keywords(&no_action) {
            proof { lemma_consumed_trans(st, PeekState { items: st.items, cursor: 0 }, self.state()); }
            Ok(ReferentialAction::NoAction)
        } else {
            self.expected_here("CASCADE, RESTRICT, SET NULL, SET DEFAULT, or NO ACTION")
        }
    }

    /// Parses `ALTER TABLE [IF EXISTS] <name> <action>`.
    pub fn parse_alter_table_stmt(&mut self) -> (r: Result<AlterTableStmt, ParserError>)
        requires
            old(self).wf(),
        ensures
            final(self).wf(),
            final(self).dialect_in_use() == old(self).dialect_in_use(),
            spec_expect_keywords(old(self).state(), seq![Keyword::ALTER, Keyword::TABLE]) is Err ==> r is Err,
            r is Ok ==> consumed(old(self).state(), final(self).state()),
            old(self).state().cursor == 0 && old(self).state().items.len() > 1 && is_keyword_token(
                old(self).state().items[0]@,
                Keyword::ALTER,
            ) && is_keyword_token(old(self).state().items[1]@, Keyword::TABLE) ==> match spec_object_name(
                alter_table_name_start(old(self).state().items),
            ) {
                Some((name, k)) => match spec_alter_table_action(
                    alter_table_name_start(old(self).state().items).skip(k as int),
                ) {
                    Some(AlterTableActionV::AddColumn { if_not_exists }) => r matches Ok(a) ==> a.if_exists
                        == if_exists_at(old(self).state().items.skip(2)) && a.name@ == name
                        && alter_table_action_is(a.action, AlterTableActionV::AddColumn { if_not_exists }),
                    Some(AlterTableActionV::AddTableConstraint) => r matches Ok(a) ==> a.if_exists
                        == if_exists_at(old(self).state().items.skip(2)) && a.name@ == name
                        && a.action is AddTableConstraint,
                    Some(v) => r matches Ok(a) && a.if_exists == if_exists_at(old(self).state().items.skip(2))
                        && a.name@ == name && alter_table_action_is(a.action, v),
                    None => r is Err,
                },
                None => r is Err,
            },
    {
        let ghost st = self.state();
        let ghost s = st.items;
        let ghost head_ok = st.cursor == 0 && st.items.len() > 1 && is_keyword_token(
            st.items[0]@,
            Keyword::ALTER,
        ) && is_keyword_token(st.items[1]@, Keyword::TABLE);
        proof {
            if head_ok {
                lemma_expect_two_keywords(st, Keyword::ALTER, Keyword::TABLE);
            }
        }
        let alter_table = [Keyword::ALTER, Keyword::TABLE];
        proof { assert(alter_table@ =~= seq![Keyword::ALTER, Keyword::TABLE]); }
        self.expect_keywords(&alter_table)?;
        let ghost s1 = self.state();
        let if_exists_kws = [Keyword::IF, Keyword::EXISTS];
        proof {
            assert(if_exists_kws@ =~= seq![Keyword::IF, Keyword::EXISTS]);
            crate::parser::lemma_two_keywords_follow(s1, Keyword::IF, Keyword::EXISTS);
            if head_ok {
                assert(s1.items =~= s.skip(2));
            }
        }
        let if_exists = self.parse_keywords(&if_exists_kws);
        let ghost s2 = self.state();
        proof {
            if head_ok {
                if if_exists {
                    assert(s2.items =~= s.skip(4));
                }
                assert(s2.items =~= alter_table_name_start(s));
            }
            crate::parser::types::lemma_object_name_len(s2.items);
        }
        let name = self.parse_object_name()?;
        let ghost s3 = self.state();
        let action = self.parse_alter_table_action()?;
        proof {
            lemma_consumed_trans(st, s1, s2);
            lemma_consumed_trans(st, s2, s3);
            lemma_consumed_trans(st, s3, self.state());
        }
        Ok(AlterTableStmt { if_exists, name, action })
    }

    /// Parses an `ALTER TABLE` action: `ADD [COLUMN] [IF NOT EXISTS] <column>`,
    /// `ADD <table constraint>`, `DROP COLUMN [IF EXISTS] <name> [<behavior>]`
    /// or `DROP CONSTRAINT [IF EXISTS] <name> [<behavior>]`.
    #[verifier::rlimit(100)]
    #[verifier::spinoff_prover]
    fn parse_alter_table_action(&mut self) -> (r: Result<AlterTableAction, ParserError>)
        requires
            old(self).wf(),
        ensures
            final(self).wf(),
            final(self).dialect_in_use() == old(self).dialect_in_use(),
            r is Ok ==> consumed(old(self).state(), final(self).state()),
            old(self).state().cursor == 0 ==> match spec_alter_table_action(old(self).state().items) {
                Some(AlterTableActionV::AddColumn { if_not_exists }) => r matches Ok(a)
                    ==> alter_table_action_is(a, AlterTableActionV::AddColumn { if_not_exists }),
                Some(AlterTableActionV::AddTableConstraint) => r matches Ok(a) ==> a is AddTableConstraint,
                Some(v) => r matches Ok(a) && alter_table_action_is(a, v),
                None => r is Err,
            },
    {
        let ghost st = self.state();
        let ghost s = st.items;
        proof {
            if s.len() >= 4 { assert(s.skip(2).skip(2) =~= s.skip(4)); }
            crate::parser::lemma_two_keywords_follow(st, Keyword::DROP, Keyword::COLUMN);
            crate::parser::lemma_two_keywords_follow(st, Keyword::DROP, Keyword::CONSTRAINT);
        }
        let drop_column = [Keyword::DROP, Keyword::COLUMN];
        let drop_constraint = [Keyword::DROP, Keyword::CONSTRAINT];
        let if_exists_kws = [Keyword::IF, Keyword::EXISTS];
        let if_not_exists_kws = [Keyword::IF, Keyword::NOT, Keyword::EXISTS];
        if self.parse_keyword(Keyword::ADD) {
            let ghost s1 = self.state();
            if self.next_is_table_constraint() {
                let constraint = self.parse_table_constraint_def()?;
                proof { lemma_consumed_trans(st, s1, self.state()); }
                return Ok(AlterTableAction::AddTableConstraint { constraint });
            }
            self.parse_keyword(Keyword::COLUMN);
            let ghost s2 = self.state();
            proof {
                assert(if_not_exists_kws@ =~= seq![Keyword::IF, Keyword::NOT, Keyword::EXISTS]);
                lemma_if_not_exists_follows(s2);
                assert(s1.items =~= s.skip(1));
                if s2 != s1 {
                    assert(s2.items =~= s.skip(2));
                }
            }
            let if_not_exists = self.parse_keywords(&if_not_exists_kws);
            let ghost s3 = self.state();
            let column = self.parse_column_def()?;
            proof {
                lemma_consumed_trans(st, s1, s2);
                lemma_consumed_trans(st, s2, s3);
                lemma_consumed_trans(st, s3, self.state());
            }
            return Ok(AlterTableAction::AddColumn { if_not_exists, column });
        }
        proof {
            assert(drop_column@ =~= seq![Keyword::DROP, Keyword::COLUMN]);
            assert(drop_constraint@ =~= seq![Keyword::DROP, Keyword::CONSTRAINT]);
            assert(if_exists_kws@ =~= seq![Keyword::IF, Keyword::EXISTS]);
        }
        if self.parse_keywords(&drop_column) {
            let ghost s1 = self.state();
            proof {
                assert(s1.items =~= s.skip(2));
                crate::parser::lemma_two_keywords_follow(s1, Keyword::IF, Keyword::EXISTS);
            }
            let if_exists = self.parse_keywords(&if_exists_kws);
            let ghost s2 = self.state();
            proof {
                if if_exists {
                    assert(s2.items =~= s.skip(4));
                }
            }
            let name = self.parse_identifier()?;
            let ghost s3 = self.state();
            proof { assert(s3.items =~= s2.items.skip(1)); }
            let drop_behavior = self.parse_drop_behavior()?;
            proof {
                lemma_consumed_trans(st, s1, s2);
                lemma_consumed_trans(st, s2, s3);
                lemma_consumed_trans(st, s3, self.state());
            }
            return Ok(AlterTableAction::DropColumn { if_exists, name, drop_behavior });
        }
        if self.parse_keywords(&drop_constraint) {
            proof { lemma_consumed_trans(st, PeekState { items: st.items, cursor: 0 }, self.state()); }
            let ghost s1 = self.state();
            proof {
                assert(s1.items =~= s.skip(2));
                crate::parser::lemma_two_keywords_follow(s1, Keyword::IF, Keyword::EXISTS);
            }
            let if_exists = self.parse_keywords(&if_exists_kws);
            let ghost s2 = self.state();
            proof {
                if if_exists {
                    assert(s2.items =~= s.skip(4));
                }
                crate::parser::types::lemma_object_name_len(s2.items);
            }
            let name = self.parse_object_name()?;
            let ghost s3 = self.state();
            let drop_behavior = self.parse_drop_behavior()?;
            proof {
                lemma_consumed_trans(st, s1, s2);
                lemma_consumed_trans(st, s2, s3);
                lemma_consumed_trans(st, s3, self.state());
            }
            return Ok(AlterTableAction::DropTableConstraint { if_exists, name, drop_behavior });
        }
        self.expected_here("ADD, DROP COLUMN or DROP CONSTRAINT")
    }

    /// Parses `CREATE [OR REPLACE] [RECURSIVE] VIEW [IF NOT EXISTS] <name>
    /// [( <columns> )] AS <query> [WITH [CASCADED | LOCAL] CHECK OPTION]`.
    #[verifier::rlimit(100)]
    #[verifier::spinoff_prover]
    pub fn parse_create_view_stmt(&mut self) -> (r: Result<CreateViewStmt, ParserError>)
        requires
            old(self).wf(),
        ensures
            final(self).wf(),
            final(self).dialect_in_use() == old(self).dialect_in_use(),
            !peek_is_keyword(old(self).state(), Keyword::CREATE) ==> r is Err,
            r is Ok ==> consumed(old(self).state(), final(self).state()),
            old(self).state().cursor == 0 && peek_is_keyword(old(self).state(), Keyword::CREATE)
                ==> match spec_view_head(old(self).state().items.skip(1)) {
                Some((or_replace, recursive, ine, name, columns)) => r matches Ok(v) ==> v.or_replace
                    == or_replace && v.recursive == recursive && v.if_not_exists == ine && v.name@
                    == name && idents_view(v.columns@) == columns,
                None => r is Err,
            },
    {
        let ghost st = self.state();
        let ghost s = st.items;
        self.expect_keyword(Keyword::CREATE)?;
        let ghost s1 = self.state();
        proof { assert(s1.items =~= s.skip(1)); }
        let or_replace_kws = [Keyword::OR, Keyword::REPLACE];
        proof {
            assert(or_replace_kws@ =~= seq![Keyword::OR, Keyword::REPLACE]);
            crate::parser::lemma_two_keywords_follow(s1, Keyword::OR, Keyword::REPLACE);
        }
        let or_replace = self.parse_keywords(&or_replace_kws);
        let ghost s2 = self.state();
        proof {
            if or_replace {
                assert(s2.items =~= s1.items.skip(2));
            }
        }
        let recursive = self.parse_keyword(Keyword::RECURSIVE);
        let ghost s3 = self.state();
        proof {
            if recursive {
                assert(s3.items =~= s2.items.skip(1));
            }
        }
        self.expect_keyword(Keyword::VIEW)?;
        let ghost s4 = self.state();
        let if_not_exists_kws = [Keyword::IF, Keyword::NOT, Keyword::EXISTS];
        proof {
            assert(if_not_exists_kws@ =~= seq![Keyword::IF, Keyword::NOT, Keyword::EXISTS]);
            lemma_if_not_exists_follows(s4);
            assert(s4.items =~= s3.items.skip(1));
        }
        let if_not_exists = self.parse_keywords(&if_not_exists_kws);
        let ghost s5 = self.state();
        proof {
            if if_not_exists {
                assert(s5.items =~= s4.items.skip(3));
            }
        }
        let name = self.parse_object_name()?;
        let ghost s6 = self.state();
        proof { crate::parser::types::lemma_object_name_len(s5.items); }
        proof {
            lemma_consumed_trans(st, s1, s2);
            lemma_consumed_trans(st, s2, s3);
            lemma_consumed_trans(st, s3, s4);
            lemma_consumed_trans(st, s4, s5);
            lemma_consumed_trans(st, s5, s6);
        }
        proof {
            crate::parser::query::lemma_idents_len(s6.items.skip(1));
        }
        let columns = match self.parse_optional_column_list()? {
            Some(c) => c,
            None => Vec::new(),
        };
        let ghost s7 = self.state();
        proof {
            let k = (spec_object_name(s5.items)->0).1;
            assert(s6.items =~= s5.items.skip(k as int));
            match spec_optional_column_list(s6.items) {
                Some((c, m)) => {
                    assert(s7.items =~= s6.items.skip(m as int));
                },
                None => {},
            }
        }
        self.expect_keyword(Keyword::AS)?;
        let ghost s8 = self.state();
        let query = self.parse_query_expr(true)?;
        let ghost s9 = self.state();
        let check_option = self.parse_view_check_option()?;
        proof {
            lemma_consumed_trans(st, s6, s7);
            lemma_consumed_trans(st, s7, s8);
            lemma_consumed_trans(st, s8, s9);
            lemma_consumed_trans(st, s9, self.state());
        }
        Ok(CreateViewStmt {
            or_replace,
            if_not_exists,
            recursive,
            name,
            columns,
            query: Box::new(query),
            check_option,
        })
    }

    /// Parses `WITH [ CASCADED | LOCAL ] CHECK OPTION`.
    fn parse_view_check_option(&mut self) -> (r: Result<Option<ViewCheckOption>, ParserError>)
        requires
            old(self).wf(),
        ensures
            final(self).wf(),
            final(self).dialect_in_use() == old(self).dialect_in_use(),
            r is Ok ==> consumed(old(self).state(), final(self).state()),
            !peek_is_keyword(old(self).state(), Keyword::WITH) ==> r == Ok::<
                Option<ViewCheckOption>,
                ParserError,
            >(None) && final(self).state() == old(self).state(),
            r matches Ok(Some(o)) ==> old(self).state().items.len() > 1 && (old(
                self,
            ).state().items[1]@ matches TokenView::Keyword(k, _) && view_check_option_sql(o)
                == spec_keyword_name(k)),
            r matches Ok(None) && peek_is_keyword(old(self).state(), Keyword::WITH) ==> !(old(
                self,
            ).state().items.len() > 1 && (is_keyword_token(
                old(self).state().items[1]@,
                Keyword::CASCADED,
            ) || is_keyword_token(old(self).state().items[1]@, Keyword::LOCAL))),
    {
        let ghost st = self.state();
        proof { lemma_consumed_refl(st); }
        if self.parse_keyword(Keyword::WITH) {
            let ghost s1 = self.state();
            let kws = [Keyword::CASCADED, Keyword::LOCAL];
            proof {
                reveal_with_fuel(crate::token::spec_first_keyword_of, 3);
                assert(kws@.drop_first() =~= seq![Keyword::LOCAL]);
                assert(kws@.drop_first().drop_first() =~= Seq::<Keyword>::empty());
                assert(s1.items.len() > 0 ==> s1.items[0] == st.items[1]);
                reveal_strlit("CASCADED");
                reveal_strlit("LOCAL");
            }
            let check_option = match self.parse_one_of_keywords(&kws) {
                Some(k) => {
                    if k == Keyword::CASCADED {
                        Some(ViewCheckOption::Cascaded)
                    } else {
                        Some(ViewCheckOption::Local)
                    }
                },
                None => None,
            };
            let ghost s2 = self.state();
            let check_option_kws = [Keyword::CHECK, Keyword::OPTION];
            self.expect_keywords(&check_option_kws)?;
            proof {
                lemma_consumed_trans(st, s1, s2);
                lemma_consumed_trans(st, s2, self.state());
            }
            Ok(check_option)
        } else {
            Ok(None)
        }
    }

    /// Parses `CREATE DOMAIN <name> [AS] <data type>
    /// { <domain constraint> | DEFAULT <literal> | COLLATE <collation> }`.
    #[verifier::loop_isolation(false)]
    #[verifier::rlimit(100)]
    #[verifier::spinoff_prover]
    pub fn parse_create_domain_stmt(&mut self) -> (r: Result<CreateDomainStmt, ParserError>)
        requires
            old(self).wf(),
        ensures
            final(self).wf(),
            final(self).dialect_in_use() == old(self).dialect_in_use(),
            spec_expect_keywords(old(self).state(), seq![Keyword::CREATE, Keyword::DOMAIN]) is Err ==> r is Err,
            r is Ok ==> consumed(old(self).state(), final(self).state()),
            old(self).state().cursor == 0 && old(self).state().items.len() > 1 && is_keyword_token(
                old(self).state().items[0]@,
                Keyword::CREATE,
            ) && is_keyword_token(old(self).state().items[1]@, Keyword::DOMAIN) ==> match spec_domain_head(
                old(self).state().items.skip(2),
            ) {
                Some((name, data_type)) => r matches Ok(d) ==> d.name@ == name && d.data_type
                    == data_type,
                None => r is Err,
            },
            old(self).state().cursor == 0 && old(self).state().items.len() > 1 && is_keyword_token(
                old(self).state().items[0]@,
                Keyword::CREATE,
            ) && is_keyword_token(old(self).state().items[1]@, Keyword::DOMAIN) ==> match spec_domain_head(
                old(self).state().items.skip(2),
            ) {
                Some((name, data_type)) => meets(
                    shift(
                        spec_domain_options(
                            old(self).state().items.skip(2).skip(
                                spec_domain_head_len(old(self).state().items.skip(2)) as int,
                            ),
                            domain_acc(name, data_type, Seq::empty(), None, None),
                        ),
                        2 + spec_domain_head_len(old(self).state().items.skip(2)),
                    ),
                    |d: CreateDomainStmt| create_domain_v(d),
                    old(self).state(),
                    r,
                    final(self).state(),
                ),
                None => r is Err,
            },
    {
        let ghost st = self.state();
        proof {
            if st.cursor == 0 && st.items.len() > 1 && is_keyword_token(st.items[0]@, Keyword::CREATE)
                && is_keyword_token(st.items[1]@, Keyword::DOMAIN) {
                lemma_expect_two_keywords(st, Keyword::CREATE, Keyword::DOMAIN);
            }
        }
        let create_domain = [Keyword::CREATE, Keyword::DOMAIN];
        proof { assert(create_domain@ =~= seq![Keyword::CREATE, Keyword::DOMAIN]); }
        self.expect_keywords(&create_domain)?;
        let ghost s1 = self.state();
        let name = self.parse_object_name()?;
        let ghost s2 = self.state();
        self.parse_keyword(Keyword::AS);
        let ghost s3 = self.state();
        proof {
            crate::parser::types::lemma_object_name_len(s1.items);
            if st.cursor == 0 && st.items.len() > 1 && is_keyword_token(st.items[0]@, Keyword::CREATE)
                && is_keyword_token(st.items[1]@, Keyword::DOMAIN) {
                assert(s1.items =~= st.items.skip(2));
                let k = (spec_object_name(s1.items)->0).1;
                assert(s2.items =~= s1.items.skip(k as int));
                if s3 != s2 {
                    assert(s3.items =~= s2.items.skip(1));
                } else {
                    assert(s3.items =~= s2.items.skip(0));
                }
            }
        }
        let data_type = self.parse_data_type()?;
        proof {
            lemma_consumed_trans(st, s1, s2);
            lemma_consumed_trans(st, s2, s3);
            lemma_consumed_trans(st, s3, self.state());
        }
        let ghost cond = st.cursor == 0 && st.items.len() > 1 && is_keyword_token(
            st.items[0]@,
            Keyword::CREATE,
        ) && is_keyword_token(st.items[1]@, Keyword::DOMAIN);
        let ghost hs = st.items.skip(2);
        let ghost hl = spec_domain_head_len(hs);
        let ghost sp = shift(
            spec_domain_options(hs.skip(hl as int), domain_acc(name@, data_type, Seq::empty(), None, None)),
            2 + hl,
        );
        proof {
            if cond {
                assert(s1.items =~= hs);
                crate::parser::types::lemma_object_name_len(hs);
                let k = (spec_object_name(hs)->0).1;
                assert(s2.items =~= hs.skip(k as int));
                let t = hs.skip(k as int);
                let a: nat = if t.len() > 0 && is_keyword_token(t[0]@, Keyword::AS) {
                    1
                } else {
                    0
                };
                assert(s3.items =~= t.skip(a as int));
                crate::parser::types::lemma_data_type_len(s3.items);
                let m = (spec_data_type(s3.items)->0).1;
                assert(hl == k + a + m);
                assert(self.state().items =~= hs.skip(hl as int));
                assert(self.state().items =~= st.items.skip((2 + hl) as int));
            }
        }
        let mut constraints: Vec<DomainConstraintDef> = Vec::new();
        let mut default: Option<Expr> = None;
        let mut collation: Option<ObjectName> = None;
        proof {
            assert(domain_constraint_defs_v(constraints@) =~= Seq::empty());
            assert(domain_constraint_defs_v(Seq::<DomainConstraintDef>::empty()) =~= Seq::empty());
        }
        loop
            invariant
                self.wf(),
                self.dialect_in_use() == old(self).dialect_in_use(),
                consumed(st, self.state()),
                cond ==> ((self.state().cursor == 0 && sp == shift(
                    spec_domain_options(
                        self.state().items,
                        domain_acc(name@, data_type, constraints@, default, collation),
                    ),
                    (st.items.len() - self.state().items.len()) as nat,
                ))),
            decreases self.state().items.len(),
        {
            let ghost cur = self.state();
            let ghost c0: nat = (st.items.len() - cur.items.len()) as nat;
            let more = self.parse_domain_option(
                &mut constraints,
                &mut default,
                &mut collation,
                Ghost(name@),
                Ghost(data_type),
            )?;
            proof {
                lemma_consumed_trans(st, cur, self.state());
                if cond {
                    assert(cur.items == st.items.skip(c0 as int));
                    if more {
                        lemma_shift_shift(
                            spec_domain_options(
                                self.state().items,
                                domain_acc(name@, data_type, constraints@, default, collation),
                            ),
                            (cur.items.len() - self.state().items.len()) as nat,
                            c0,
                        );
                    } else {
                        assert(self.state() == skip_state(st, c0));
                    }
                }
            }
            if !more {
                break;
            }
        }
        Ok(CreateDomainStmt { name, data_type, constraints, default, collation })
    }

    /// Parses one option after the data type of a domain: `DEFAULT
    /// <literal>`, `COLLATE <collation>` or a domain constraint; returns
    /// whether one followed.
    #[verifier::rlimit(100)]
    #[verifier::spinoff_prover]
    fn parse_domain_option(
        &mut self,
        constraints: &mut Vec<DomainConstraintDef>,
        default: &mut Option<Expr>,
        collation: &mut Option<ObjectName>,
        Ghost(nm): Ghost<Seq<IdentView>>,
        Ghost(dt): Ghost<DataType>,
    ) -> (r: Result<bool, ParserError>)
        requires
            old(self).wf(),
        ensures
            final(self).wf(),
            final(self).dialect_in_use() == old(self).dialect_in_use(),
            r is Ok ==> consumed(old(self).state(), final(self).state()),
            r matches Ok(true) ==> final(self).state().items.len() < old(self).state().items.len(),
            r matches Ok(false) ==> final(self).state() == old(self).state() && final(constraints)@
                == old(constraints)@ && *final(default) == *old(default) && *final(collation)
                == *old(collation),
            old(self).state().cursor == 0 ==> ({
                let p = spec_domain_options(
                    old(self).state().items,
                    domain_acc(nm, dt, old(constraints)@, *old(default), *old(collation)),
                );
                match r {
                    Ok(true) => (final(self).state().cursor == 0 && p == shift(
                        spec_domain_options(
                            final(self).state().items,
                            domain_acc(nm, dt, final(constraints)@, *final(default), *final(collation)),
                        ),
                        (old(self).state().items.len() - final(self).state().items.len()) as nat,
                    )),
                    Ok(false) => p == Parsed::Done(
                        domain_acc(nm, dt, old(constraints)@, *old(default), *old(collation)),
                        0,
                    ),
                    Err(_) => p is Fails,
                }
            }),
    {
        let ghost cur = self.state();
        proof {
            assert(cur.items.skip(1) =~= cur.items.drop_first());
        }
        if self.parse_keyword(Keyword::DEFAULT) {
            proof {
                crate::parser::lemma_next_consumed(cur);
                lemma_literal_len(cur.items.skip(1));
            }
            let ghost mid = self.state();
            let l = self.parse_literal()?;
            proof {
                lemma_consumed_trans(cur, mid, self.state());
                crate::ast::view::lemma_expr_v_literal(l);
                if let Some((_, n)) = spec_literal(mid.items) {
                    assert(self.state().items =~= cur.items.skip(n + 1int));
                }
            }
            *default = Some(Expr::Literal(l));
            Ok(true)
        } else if self.parse_keyword(Keyword::COLLATE) {
            proof {
                crate::parser::lemma_next_consumed(cur);
                crate::parser::types::lemma_object_name_len(cur.items.skip(1));
            }
            let ghost mid = self.state();
            let c = self.parse_object_name()?;
            proof {
                lemma_consumed_trans(cur, mid, self.state());
                if let Some((_, n)) = spec_object_name(mid.items) {
                    assert(self.state().items =~= cur.items.skip(n + 1int));
                }
            }
            *collation = Some(c);
            Ok(true)
        } else if self.next_is_domain_constraint() {
            proof {
                lemma_domain_constraint_def_len(cur.items);
            }
            let c = self.parse_domain_constraint_def()?;
            proof {
                assert(domain_constraint_defs_v(constraints@.push(c)) =~= domain_constraint_defs_v(
                    constraints@,
                ).push((opt_ident_v(c.name), domain_constraint_v(c.constraint))));
            }
            constraints.push(c);
            Ok(true)
        } else {
            Ok(false)
        }
    }

    /// Whether a domain constraint starts with the next token.
    fn next_is_domain_constraint(&self) -> (b: bool)
        requires
            self.wf(),
        ensures
            b == (spec_next(self.state()) matches Some(t) && starts_domain_constraint(t@)),
    {
        match self.peek_token() {
            Some(t) => t.is_keyword(Keyword::CONSTRAINT) || t.is_keyword(Keyword::NULL) || t.is_keyword(
                Keyword::NOT,
            ) || t.is_keyword(Keyword::CHECK),
            None => false,
        }
    }

    /// Parses a domain constraint definition: `[CONSTRAINT <name>] <domain constraint>`.
    fn parse_domain_constraint_def(&mut self) -> (r: Result<DomainConstraintDef, ParserError>)
        requires
            old(self).wf(),
        ensures
            final(self).wf(),
            final(self).dialect_in_use() == old(self).dialect_in_use(),
            r is Ok ==> advanced(old(self).state(), final(self).state()),
            old(self).state().cursor == 0 ==> meets(
                with_name(old(self).state().items, |t: Seq<Token>| spec_domain_constraint(t)),
                |d: DomainConstraintDef| (opt_ident_v(d.name), domain_constraint_v(d.constraint)),
                old(self).state(),
                r,
                final(self).state(),
            ),
    {
        let ghost st = self.state();
        let name = self.parse_constraint_name()?;
        let ghost s1 = self.state();
        proof {
            if st.cursor == 0 {
                assert(st.items.skip(0) =~= st.items);
                lemma_domain_constraint_len(s1.items);
            }
        }
        let constraint = self.parse_domain_constraint()?;
        proof {
            if name.is_some() {
                lemma_consumed_trans(st, s1, self.state());
            }
            if st.cursor == 0 {
                if let Some((_, a)) = spec_constraint_name(st.items) {
                    if let Parsed::Done(_, b) = spec_domain_constraint(s1.items) {
                        assert(self.state().items =~= st.items.skip((a + b) as int));
                    }
                }
            }
        }
        Ok(DomainConstraintDef { name, constraint })
    }

    /// Parses a domain constraint: `NULL`, `NOT NULL` or `CHECK <expr>`.
    #[verifier::rlimit(100)]
    #[verifier::spinoff_prover]
    fn parse_domain_constraint(&mut self) -> (r: Result<DomainConstraint, ParserError>)
        requires
            old(self).wf(),
        ensures
            final(self).wf(),
            final(self).dialect_in_use() == old(self).dialect_in_use(),
            r is Ok ==> advanced(old(self).state(), final(self).state()),
            peek_is_keyword(old(self).state(), Keyword::NULL) ==> r == Ok::<DomainConstraint, ParserError>(
                DomainConstraint::Null,
            ),
            old(self).state().cursor == 0 ==> meets(
                spec_domain_constraint(old(self).state().items),
                |c: DomainConstraint| domain_constraint_v(c),
                old(self).state(),
                r,
                final(self).state(),
            ),
    {
        broadcast use crate::ast::view::group_expr_v;

        let ghost st = self.state();
        let not_null = [Keyword::NOT, Keyword::NULL];
        proof {
            assert(not_null@ =~= seq![Keyword::NOT, Keyword::NULL]);
            lemma_two_keywords_follow(st, Keyword::NOT, Keyword::NULL);
            assert(st.items.skip(1) =~= st.items.drop_first());
            lemma_domain_constraint_len(st.items);
            crate::parser::grammar::lemma_subexpr_len(st.items.skip(1), 0);
        }
        if self.parse_keyword(Keyword::NULL) {
            proof { crate::parser::lemma_next_consumed(st); }
            return Ok(DomainConstraint::Null);
        }
        if self.parse_keywords(&not_null) {
            proof { lemma_keywords_advanced(st, self.state(), 2); }
            return Ok(DomainConstraint::NotNull);
        }
        let ghost s0 = self.state();
        if self.parse_keyword(Keyword::CHECK) {
            proof { crate::parser::lemma_next_consumed(s0); lemma_reset_advanced(st, s0, self.state()); }
            let ghost s1 = self.state();
            let e = self.parse_expr()?;
            proof {
                lemma_consumed_trans(st, s1, self.state());
                if let Parsed::Done(_, n) = spec_subexpr(s1.items, 0) {
                    assert(self.state().items =~= st.items.skip(n + 1int));
                }
            }
            return Ok(DomainConstraint::Check(Box::new(e)));
        }
        self.expected_here("NULL, NOT NULL, CHECK, DEFAULT or COLLATE")
    }

    /// Parses `ALTER DOMAIN <name> <action>`.
    pub fn parse_alter_domain_stmt(&mut self) -> (r: Result<AlterDomainStmt, ParserError>)
        requires
            old(self).wf(),
        ensures
            final(self).wf(),
            final(self).dialect_in_use() == old(self).dialect_in_use(),
            spec_expect_keywords(old(self).state(), seq![Keyword::ALTER, Keyword::DOMAIN]) is Err ==> r is Err,
            r is Ok ==> consumed(old(self).state(), final(self).state()),
            old(self).state().cursor == 0 && old(self).state().items.len() > 1 && is_keyword_token(
                old(self).state().items[0]@,
                Keyword::ALTER,
            ) && is_keyword_token(old(self).state().items[1]@, Keyword::DOMAIN) ==> match spec_object_name(
                old(self).state().items.skip(2),
            ) {
                Some((name, k)) => match spec_alter_domain_action(old(self).state().items.skip(2 + k as int)) {
                    Some(AlterDomainActionV::AddConstraint) => r matches Ok(a) ==> a.name@ == name
                        && a.action is AddConstraint,
                    Some(v) => r matches Ok(a) && a.name@ == name && alter_domain_action_is(a.action, v),
                    None => r is Err,
                },
                None => r is Err,
            },
    {
        let ghost st = self.state();
        proof {
            if st.cursor == 0 && st.items.len() > 1 && is_keyword_token(st.items[0]@, Keyword::ALTER)
                && is_keyword_token(st.items[1]@, Keyword::DOMAIN) {
                lemma_expect_two_keywords(st, Keyword::ALTER, Keyword::DOMAIN);
            }
        }
        let alter_domain = [Keyword::ALTER, Keyword::DOMAIN];
        proof { assert(alter_domain@ =~= seq![Keyword::ALTER, Keyword::DOMAIN]); }
        self.expect_keywords(&alter_domain)?;
        let ghost s1 = self.state();
        let name = self.parse_object_name()?;
        let ghost s2 = self.state();
        proof {
            crate::parser::types::lemma_object_name_len(s1.items);
            if st.cursor == 0 && st.items.len() > 1 && is_keyword_token(st.items[0]@, Keyword::ALTER)
                && is_keyword_token(st.items[1]@, Keyword::DOMAIN) {
                assert(s1.items =~= st.items.skip(2));
                let k = (spec_object_name(s1.items)->0).1;
                assert(s2.items =~= st.items.skip(2 + k as int));
            }
        }
        let action = self.parse_alter_domain_action()?;
        proof {
            lemma_consumed_trans(st, s1, s2);
            lemma_consumed_trans(st, s2, self.state());
        }
        Ok(AlterDomainStmt { name, action })
    }

    /// Parses an `ALTER DOMAIN` action: `SET DEFAULT <literal>`,
    /// `DROP DEFAULT`, `ADD <domain constraint>` or `DROP CONSTRAINT <name>`.
    fn parse_alter_domain_action(&mut self) -> (r: Result<AlterDomainAction, ParserError>)
        requires
            old(self).wf(),
        ensures
            final(self).wf(),
            final(self).dialect_in_use() == old(self).dialect_in_use(),
            r is Ok ==> consumed(old(self).state(), final(self).state()),
            old(self).state().cursor == 0 ==> match spec_alter_domain_action(old(self).state().items) {
                Some(AlterDomainActionV::AddConstraint) => r matches Ok(a) ==> a is AddConstraint,
                Some(v) => r matches Ok(a) && alter_domain_action_is(a, v),
                None => r is Err,
            },
            old(self).state().cursor == 0 && keywords_follow(
                old(self).state(),
                seq![Keyword::DROP, Keyword::DEFAULT],
            ) ==> r == Ok::<
                AlterDomainAction,
                ParserError,
            >(AlterDomainAction::DropDefault),
    {
        let ghost st = self.state();
        let set_default = [Keyword::SET, Keyword::DEFAULT];
        let drop_default = [Keyword::DROP, Keyword::DEFAULT];
        let drop_constraint = [Keyword::DROP, Keyword::CONSTRAINT];
        proof {
            lemma_two_keywords_follow(st, Keyword::SET, Keyword::DEFAULT);
            lemma_two_keywords_follow(st, Keyword::DROP, Keyword::DEFAULT);
            assert(drop_default@ =~= seq![Keyword::DROP, Keyword::DEFAULT]);
            assert(set_default@ =~= seq![Keyword::SET, Keyword::DEFAULT]);
        }
        if self.parse_keywords(&set_default) {
            let ghost s1 = self.state();
            let l = self.parse_literal()?;
            proof { lemma_consumed_trans(st, s1, self.state()); }
            return Ok(AlterDomainAction::SetDefault(Box::new(Expr::Literal(l))));
        }
        if self.parse_keywords(&drop_default) {
            return Ok(AlterDomainAction::DropDefault);
        }
        let ghost s0 = self.state();
        if self.parse_keyword(Keyword::ADD) {
            let ghost s1 = self.state();
            let c = self.parse_domain_constraint_def()?;
            proof {
                lemma_consumed_trans(st, s0, s1);
                lemma_consumed_trans(st, s1, self.state());
            }
            return Ok(AlterDomainAction::AddConstraint(c));
        }
        proof {
            assert(drop_constraint@ =~= seq![Keyword::DROP, Keyword::CONSTRAINT]);
            crate::parser::lemma_two_keywords_follow(self.state(), Keyword::DROP, Keyword::CONSTRAINT);
        }
        if self.parse_keywords(&drop_constraint) {
            let ghost s1 = self.state();
            proof { assert(s1.items =~= st.items.skip(2)); }
            let name = self.parse_identifier()?;
            proof {
                lemma_consumed_trans(st, s0, s1);
                lemma_consumed_trans(st, s1, self.state());
            }
            return Ok(AlterDomainAction::DropConstraint(name));
        }
        self.expected_here("SET DEFAULT, DROP DEFAULT, ADD CONSTRAINT, DROP CONSTRAINT")
    }

    /// Parses `CREATE TYPE <name> [AS <definition>]`.
    pub fn parse_create_type_stmt(&mut self) -> (r: Result<CreateTypeStmt, ParserError>)
        requires
            old(self).wf(),
        ensures
            final(self).wf(),
            final(self).dialect_in_use() == old(self).dialect_in_use(),
            spec_expect_keywords(old(self).state(), seq![Keyword::CREATE, Keyword::TYPE]) is Err ==> r is Err,
            r is Ok ==> consumed(old(self).state(), final(self).state()),
            old(self).state().cursor == 0 && old(self).state().items.len() > 1 && is_keyword_token(
                old(self).state().items[0]@,
                Keyword::CREATE,
            ) && is_keyword_token(old(self).state().items[1]@, Keyword::TYPE) ==> match spec_object_name(
                old(self).state().items.skip(2),
            ) {
                Some((name, k)) => match spec_type_definition(old(self).state().items.skip(2 + k as int)) {
                    Some((d, _)) => r matches Ok(c) && c.name@ == name && type_def_is(c.definition, d),
                    None => r is Err,
                },
                None => r is Err,
            },
    {
        let ghost st = self.state();
        proof {
            if st.cursor == 0 && st.items.len() > 1 && is_keyword_token(st.items[0]@, Keyword::CREATE)
                && is_keyword_token(st.items[1]@, Keyword::TYPE) {
                lemma_expect_two_keywords(st, Keyword::CREATE, Keyword::TYPE);
            }
        }
        let create_type = [Keyword::CREATE, Keyword::TYPE];
        proof { assert(create_type@ =~= seq![Keyword::CREATE, Keyword::TYPE]); }
        self.expect_keywords(&create_type)?;
        let ghost s1 = self.state();
        let name = self.parse_object_name()?;
        let ghost s2 = self.state();
        proof {
            crate::parser::types::lemma_object_name_len(s1.items);
            if st.cursor == 0 && st.items.len() > 1 && is_keyword_token(st.items[0]@, Keyword::CREATE)
                && is_keyword_token(st.items[1]@, Keyword::TYPE) {
                assert(s1.items =~= st.items.skip(2));
                let k = (spec_object_name(s1.items)->0).1;
                assert(s2.items =~= st.items.skip(2 + k as int));
            }
        }
        let definition = self.parse_type_definition()?;
        proof {
            lemma_consumed_trans(st, s1, s2);
            lemma_consumed_trans(st, s2, self.state());
        }
        Ok(CreateTypeStmt { name, definition })
    }

    /// Parses `[AS ( <attribute> [, ...] ) | AS <data type>]`.
    #[verifier::rlimit(100)]
    #[verifier::spinoff_prover]
    fn parse_type_definition(&mut self) -> (r: Result<Option<TypeDef>, ParserError>)
        requires
            old(self).wf(),
        ensures
            final(self).wf(),
            final(self).dialect_in_use() == old(self).dialect_in_use(),
            r is Ok ==> consumed(old(self).state(), final(self).state()),
            old(self).state().cursor == 0 ==> match spec_type_definition(old(self).state().items) {
                Some((v, n)) => r matches Ok(d) && type_def_is(d, v) && final(self).state()
                    == skip_state(old(self).state(), n),
                None => r is Err,
            },
    {
        let ghost st = self.state();
        let ghost s = st.items;
        proof { lemma_consumed_refl(st); }
        if !self.parse_keyword(Keyword::AS) {
            proof { assert(s.skip(0) =~= s); }
            return Ok(None);
        }
        let ghost s1 = self.state();
        proof { assert(s1.items =~= s.skip(1)); }
        if self.next_token_if_is(&Token::LeftParen) {
            let ghost s2 = self.state();
            proof {
                lemma_consumed_trans(st, s1, s2);
                assert(s2.items =~= s.skip(2));
                lemma_type_attributes_len(s2.items);
            }
            let attrs = self.parse_type_attributes()?;
            let ghost s3 = self.state();
            proof { lemma_consumed_trans(st, s2, s3); }
            self.expect_token(&Token::RightParen)?;
            proof {
                lemma_consumed_trans(st, s3, self.state());
            }
            Ok(Some(TypeDef::MemberList(attrs)))
        } else {
            let t = self.parse_data_type()?;
            proof {
                lemma_consumed_trans(st, s1, self.state());
                crate::parser::types::lemma_data_type_len(s.skip(1));
                assert(self.state().items =~= s.skip(s.len() - self.state().items.len()));
            }
            Ok(Some(TypeDef::DataType(t)))
        }
    }

    /// Parses type attributes separated by commas.
    #[verifier::rlimit(100)]
    #[verifier::spinoff_prover]
    fn parse_type_attributes(&mut self) -> (r: Result<Vec<TypeAttributeDef>, ParserError>)
        requires
            old(self).wf(),
            old(self).state().cursor == 0,
        ensures
            final(self).wf(),
            final(self).dialect_in_use() == old(self).dialect_in_use(),
            r is Ok ==> consumed(old(self).state(), final(self).state()),
            match spec_type_attributes(old(self).state().items) {
                Some((l, n)) => r matches Ok(v) && type_attributes_are(v@, l) && final(self).state()
                    == skip_state(old(self).state(), n),
                None => r is Err,
            },
    {
        let ghost st = self.state();
        let mut attrs: Vec<TypeAttributeDef> = Vec::new();
        proof {
            lemma_type_attributes_unfold(st.items);
            lemma_type_attribute_len(st.items);
        }
        let first = self.parse_type_attribute_def()?;
        let ghost v0 = (spec_type_attribute(st.items)->0).0;
        attrs.push(first);
        let ghost mut views: Seq<TypeAttributeV> = seq![v0];
        proof {
            assert(views + Seq::<TypeAttributeV>::empty() =~= views);
            assert(type_attributes_are(attrs@, views));
        }
        loop
            invariant
                self.wf(),
                self.dialect_in_use() == old(self).dialect_in_use(),
                st == old(self).state(),
                consumed(st, self.state()),
                self.state() == skip_state(st, (st.items.len() - self.state().items.len()) as nat),
                type_attributes_are(attrs@, views),
                spec_type_attributes(st.items) == list_prepend(
                    views,
                    (st.items.len() - self.state().items.len()) as nat,
                    type_attributes_after(self.state().items),
                ),
            ensures
                self.wf(),
                consumed(st, self.state()),
                self.state() == skip_state(st, (st.items.len() - self.state().items.len()) as nat),
                type_attributes_are(attrs@, views),
                spec_type_attributes(st.items) == Some((views, (st.items.len() - self.state().items.len()) as nat)),
            decreases self.state().items.len(),
        {
            let ghost cur = self.state();
            if !self.next_token_if_is(&Token::Comma) {
                proof {
                    assert(views + Seq::<TypeAttributeV>::empty() =~= views);
                    assert(type_attributes_after(cur.items) == Some((Seq::<TypeAttributeV>::empty(), 0nat)));
                }
                break;
            }
            let ghost mid = self.state();
            proof {
                assert(mid.items =~= cur.items.skip(1));
                lemma_type_attributes_unfold(mid.items);
                lemma_type_attribute_len(mid.items);
                lemma_consumed_trans(st, cur, mid);
            }
            let a = match self.parse_type_attribute_def() {
                Ok(a) => a,
                Err(e) => {
                    proof {
                        assert(spec_type_attributes(mid.items) is None);
                        assert(cur.items.skip(1) =~= mid.items);
                        assert(type_attributes_after(cur.items) is None);
                    }
                    return Err(e);
                },
            };
            let ghost v = (spec_type_attribute(mid.items)->0).0;
            let ghost old_views = views;
            let ghost old_attrs = attrs@;
            attrs.push(a);
            proof {
                views = views.push(v);
                assert forall|i: int| 0 <= i < attrs@.len() implies type_attribute_is(
                    #[trigger] attrs@[i],
                    views[i],
                ) by {
                    if i < attrs@.len() - 1 {
                        assert(attrs@[i] == old_attrs[i]);
                    }
                }
                lemma_consumed_trans(st, mid, self.state());
                assert(self.state().items =~= st.items.skip(st.items.len() - self.state().items.len()));
                match type_attributes_after(self.state().items) {
                    Some((r, m)) => {
                        assert(old_views + (seq![v] + r) =~= views + r);
                    },
                    None => {},
                }
            }
        }
        Ok(attrs)
    }

    /// Parses a type attribute: `<name> <data type> [DEFAULT <literal>] [COLLATE <collation>]`.
    #[verifier::rlimit(100)]
    #[verifier::spinoff_prover]
    fn parse_type_attribute_def(&mut self) -> (r: Result<TypeAttributeDef, ParserError>)
        requires
            old(self).wf(),
        ensures
            final(self).wf(),
            final(self).dialect_in_use() == old(self).dialect_in_use(),
            r is Ok ==> advanced(old(self).state(), final(self).state()),
            match spec_type_attribute(old(self).state().items) {
                Some((v, n)) => r matches Ok(a) && type_attribute_is(a, v) && final(self).state()
                    == skip_state(old(self).state(), n),
                None => r is Err,
            },
    {
        reveal(spec_type_attribute);
        let ghost st = self.state();
        let ghost s = st.items;
        let name = self.parse_identifier()?;
        proof {
            crate::parser::lemma_next_consumed(st);
            assert(self.state().items =~= s.skip(1));
        }
        let ghost s1 = self.state();
        let data_type = self.parse_data_type()?;
        let ghost s2 = self.state();
        proof {
            lemma_consumed_trans(st, s1, s2);
            assert(s2.items =~= s.skip(s.len() - s2.items.len()));
            crate::parser::types::lemma_data_type_len(s.skip(1));
            match spec_data_type(s.skip(1)) {
                Some((t, n)) => {
                    assert(s.skip(1).skip(n as int) =~= s.skip(1 + n as int));
                    assert(s2.items =~= s.skip(1 + n as int));
                },
                None => {},
            }
        }
        let ghost u = s2.items;
        let default = if self.parse_keyword(Keyword::DEFAULT) {
            let ghost a = self.state();
            proof { assert(a.items =~= u.skip(1)); }
            let l = self.parse_literal()?;
            proof {
                lemma_consumed_trans(st, s2, a);
                lemma_consumed_trans(st, a, self.state());
                assert(self.state().items =~= u.skip(u.len() - self.state().items.len()));
            }
            Some(Expr::Literal(l))
        } else {
            None
        };
        let ghost s3 = self.state();
        proof {
            if u.len() > 0 && is_keyword_token(u[0]@, Keyword::DEFAULT) {
                crate::parser::types::lemma_literal_len(u.skip(1));
                match spec_literal(u.skip(1)) {
                    Some((l, m)) => {
                        assert(u.skip(1).skip(m as int) =~= u.skip(1 + m as int));
                        assert(s3.items =~= u.skip(1 + m as int));
                    },
                    None => {},
                }
            } else {
                assert(s3.items =~= u.skip(0));
            }
        }
        let collation = if self.parse_keyword(Keyword::COLLATE) {
            let ghost a = self.state();
            proof { assert(a.items =~= s3.items.skip(1)); }
            let c = self.parse_object_name()?;
            proof {
                lemma_consumed_trans(st, s3, a);
                lemma_consumed_trans(st, a, self.state());
            }
            Some(c)
        } else {
            None
        };
        proof {
            lemma_cursor_zero(st, self.state());
            assert(self.state().items =~= s.skip(s.len() - self.state().items.len()));
            assert(self.state().items =~= u.skip(u.len() - self.state().items.len()));
            let v = s3.items;
            if v.len() > 0 && is_keyword_token(v[0]@, Keyword::COLLATE) {
                crate::parser::types::lemma_object_name_len(v.skip(1));
                match spec_object_name(v.skip(1)) {
                    Some((c, k)) => {
                        assert(v.skip(1).skip(k as int) =~= v.skip(1 + k as int));
                    },
                    None => {},
                }
            }
            match spec_default_collation(u) {
                Some((dv, cv, m)) => {
                    assert(self.state().items.len() == u.len() - m);
                },
                None => {},
            }
        }
        Ok(TypeAttributeDef { name, data_type, default, collation })
    }

    /// Parses `ALTER TYPE <name> { ADD ATTRIBUTE <attribute> | DROP ATTRIBUTE <name> }`.
    pub fn parse_alter_type_stmt(&mut self) -> (r: Result<AlterTypeStmt, ParserError>)
        requires
            old(self).wf(),
        ensures
            final(self).wf(),
            final(self).dialect_in_use() == old(self).dialect_in_use(),
            spec_expect_keywords(old(self).state(), seq![Keyword::ALTER, Keyword::TYPE]) is Err ==> r is Err,
            r is Ok ==> consumed(old(self).state(), final(self).state()),
            old(self).state().cursor == 0 && old(self).state().items.len() > 1 && is_keyword_token(
                old(self).state().items[0]@,
                Keyword::ALTER,
            ) && is_keyword_token(old(self).state().items[1]@, Keyword::TYPE) ==> match spec_alter_type_rest(
                old(self).state().items.skip(2),
            ) {
                Some((name, action)) => r matches Ok(a) && a.name@ == name && alter_type_action_is(
                    a.action,
                    action,
                ),
                None => r is Err,
            },
    {
        let ghost st = self.state();
        proof {
            if st.cursor == 0 && st.items.len() > 1 && is_keyword_token(st.items[0]@, Keyword::ALTER)
                && is_keyword_token(st.items[1]@, Keyword::TYPE) {
                lemma_expect_two_keywords(st, Keyword::ALTER, Keyword::TYPE);
            }
        }
        let alter_type = [Keyword::ALTER, Keyword::TYPE];
        proof { assert(alter_type@ =~= seq![Keyword::ALTER, Keyword::TYPE]); }
        self.expect_keywords(&alter_type)?;
        let ghost s1 = self.state();
        let name = self.parse_object_name()?;
        let ghost s2 = self.state();
        proof { lemma_consumed_trans(st, s1, s2); }
        let add_attribute = [Keyword::ADD, Keyword::ATTRIBUTE];
        let drop_attribute = [Keyword::DROP, Keyword::ATTRIBUTE];
        proof {
            assert(add_attribute@ =~= seq![Keyword::ADD, Keyword::ATTRIBUTE]);
            assert(drop_attribute@ =~= seq![Keyword::DROP, Keyword::ATTRIBUTE]);
            crate::parser::lemma_two_keywords_follow(s2, Keyword::ADD, Keyword::ATTRIBUTE);
            crate::parser::lemma_two_keywords_follow(s2, Keyword::DROP, Keyword::ATTRIBUTE);
            crate::parser::types::lemma_object_name_len(s1.items);
            if st.cursor == 0 && st.items.len() > 1 && is_keyword_token(st.items[0]@, Keyword::ALTER)
                && is_keyword_token(st.items[1]@, Keyword::TYPE) {
                assert(s1.items =~= st.items.skip(2));
            }
        }
        let action = if self.parse_keywords(&add_attribute) {
            let ghost a = self.state();
            let attr = self.parse_type_attribute_def()?;
            proof {
                lemma_consumed_trans(st, s2, a);
                lemma_consumed_trans(st, a, self.state());
            }
            AlterTypeAction::AddAttribute(attr)
        } else if self.parse_keywords(&drop_attribute) {
            let ghost a = self.state();
            let n = self.parse_identifier()?;
            proof {
                lemma_consumed_trans(st, s2, a);
                lemma_consumed_trans(st, a, self.state());
            }
            AlterTypeAction::DropAttribute(n)
        } else {
            return self.expected_here("ADD ATTRIBUTE or DROP ATTRIBUTE");
        };
        Ok(AlterTypeStmt { name, action })
    }

    /// Parses `CREATE [UNIQUE] INDEX [IF NOT EXISTS] <index> ON <table>
    /// ( <column> [ASC | DESC] [, ...] )`, each indexed column kept as an
    /// ordering of its own.
    #[verifier::rlimit(100)]
    #[verifier::spinoff_prover]
    pub fn parse_create_index_stmt(&mut self) -> (r: Result<CreateIndexStmt, ParserError>)
        requires
            old(self).wf(),
        ensures
            final(self).wf(),
            final(self).dialect_in_use() == old(self).dialect_in_use(),
            !peek_is_keyword(old(self).state(), Keyword::CREATE) ==> r is Err,
            r is Ok ==> consumed(old(self).state(), final(self).state()),
            r matches Ok(c) ==> c.unique == peek_is_keyword(
                spec_next_state(old(self).state()),
                Keyword::UNIQUE,
            ) && c.columns@.len() > 0,
            peek_is_keyword(old(self).state(), Keyword::CREATE)
                ==> match spec_index_head(old(self).state().items.skip(1)) {
                Some((unique, ine, index, table)) => r matches Ok(c) ==> c.unique == unique
                    && c.if_not_exists == ine && c.index@ == index && c.table@ == table,
                None => r is Err,
            },
            peek_is_keyword(old(self).state(), Keyword::CREATE)
                ==> match spec_index_head(old(self).state().items.skip(1)) {
                Some((unique, ine, index, table)) => {
                    let rest = old(self).state().items.skip(
                        (1 + spec_index_head_len(old(self).state().items.skip(1))) as int,
                    );
                    match spec_list(rest, |t: Seq<Token>| spec_index_column(t)) {
                        Parsed::Done(cols, n) => if n < rest.len() && rest[n as int]@
                            == TokenView::RightParen {
                            r matches Ok(c) && c.unique == unique && c.if_not_exists == ine
                                && c.index@ == index && c.table@ == table && order_bys_v(
                                c.columns@,
                            ) == cols && final(self).state() == skip_state(
                                old(self).state(),
                                1 + spec_index_head_len(old(self).state().items.skip(1)) + n + 1,
                            )
                        } else {
                            r is Err
                        },
                        Parsed::Fails => r is Err,
                    }
                },
                None => true,
            },
    {
        let ghost st = self.state();
        let ghost s = st.items;
        self.expect_keyword(Keyword::CREATE)?;
        let ghost s1 = self.state();
        proof { assert(s1.items =~= s.skip(1)); }
        let (unique, if_not_exists, index, table) = self.parse_index_head()?;
        proof {
            lemma_consumed_trans(st, s1, self.state());
        }
        let ghost cond = peek_is_keyword(st, Keyword::CREATE) && spec_index_head(
            s.skip(1),
        ) is Some;
        let ghost hl = spec_index_head_len(s.skip(1));
        let ghost rest = s.skip((1 + hl) as int);
        let ghost f = |t: Seq<Token>| spec_index_column(t);
        let ghost sp = spec_list(rest, f);
        proof {
            if cond {
                assert(self.state().items =~= s1.items.skip(hl as int));
                assert(self.state().items =~= rest);
            }
        }
        let ghost s75 = self.state();
        let columns = self.parse_index_columns()?;
        let ghost s8 = self.state();
        proof {
            lemma_consumed_trans(st, s75, s8);
            crate::parser::grammar::lemma_list_len(rest, f);
            if cond {
                if let Parsed::Done(_, n) = sp {
                    assert(s8.items =~= s.skip((1 + hl + n) as int));
                    if s8.items.len() > 0 {
                        assert(s8.items[0] == rest[n as int]);
                    }
                }
            }
        }
        self.expect_token(&Token::RightParen)?;
        proof {
            crate::parser::lemma_consumed_then_next(st, s8);
            if cond {
                if let Parsed::Done(_, n) = sp {
                    assert(self.state().items =~= s.skip((1 + hl + n + 1) as int));
                }
            }
        }
        Ok(CreateIndexStmt { unique, if_not_exists, index, table, columns })
    }

    /// Parses the head of `CREATE INDEX` after `CREATE`:
    /// `[UNIQUE] INDEX [IF NOT EXISTS] <index> ON <table> (`.
    #[verifier::rlimit(100)]
    #[verifier::spinoff_prover]
    fn parse_index_head(&mut self) -> (r: Result<(bool, bool, ObjectName, ObjectName), ParserError>)
        requires
            old(self).wf(),
            old(self).state().cursor == 0,
        ensures
            final(self).wf(),
            final(self).dialect_in_use() == old(self).dialect_in_use(),
            r is Ok ==> consumed(old(self).state(), final(self).state()),
            r matches Ok(x) ==> x.0 == peek_is_keyword(old(self).state(), Keyword::UNIQUE),
            r is Ok ==> spec_index_head_len(old(self).state().items) <= old(self).state().items.len(),
            match spec_index_head(old(self).state().items) {
                Some((unique, ine, index, table)) => r matches Ok(x) && x.0 == unique && x.1 == ine
                    && x.2@ == index && x.3@ == table && final(self).state() == skip_state(
                    old(self).state(),
                    spec_index_head_len(old(self).state().items),
                ),
                None => r is Err,
            },
    {
        let ghost s1 = self.state();
        let ghost s = s1.items;
        let unique = self.parse_keyword(Keyword::UNIQUE);
        let ghost s2 = self.state();
        proof {
            if unique {
                assert(s2.items =~= s1.items.skip(1));
            }
        }
        self.expect_keyword(Keyword::INDEX)?;
        let ghost s3 = self.state();
        let if_not_exists_kws = [Keyword::IF, Keyword::NOT, Keyword::EXISTS];
        proof {
            assert(if_not_exists_kws@ =~= seq![Keyword::IF, Keyword::NOT, Keyword::EXISTS]);
            lemma_if_not_exists_follows(s3);
            assert(s3.items =~= s2.items.skip(1));
        }
        let if_not_exists = self.parse_keywords(&if_not_exists_kws);
        let ghost s4 = self.state();
        proof {
            if if_not_exists {
                assert(s4.items =~= s3.items.skip(3));
            }
            crate::parser::types::lemma_object_name_len(s4.items);
        }
        let index = self.parse_object_name()?;
        let ghost s5 = self.state();
        self.expect_keyword(Keyword::ON)?;
        let ghost s6 = self.state();
        proof {
            assert(s6.items =~= s5.items.skip(1));
            crate::parser::types::lemma_object_name_len(s6.items);
        }
        let table = self.parse_object_name()?;
        let ghost s7 = self.state();
        self.expect_token(&Token::LeftParen)?;
        proof {
            lemma_consumed_refl(s1);
            lemma_consumed_trans(s1, s1, s2);
            lemma_consumed_trans(s1, s2, s3);
            lemma_consumed_trans(s1, s3, s4);
            lemma_consumed_trans(s1, s4, s5);
            lemma_consumed_trans(s1, s5, s6);
            lemma_consumed_trans(s1, s6, s7);
            lemma_consumed_trans(s1, s7, self.state());
        }
        proof {
            let a: nat = if unique { 1 } else { 0 };
            let b: nat = if if_not_exists { 3 } else { 0 };
            let k = (spec_object_name(s4.items)->0).1;
            let m = (spec_object_name(s6.items)->0).1;
            assert(s5.items =~= s4.items.skip(k as int));
            assert(s7.items =~= s6.items.skip(m as int));
            assert(spec_index_head_len(s) == a + 1 + b + k + 1 + m + 1);
            assert(self.state().items.len() + spec_index_head_len(s) == s.len());
            assert(self.state().items =~= s.skip(spec_index_head_len(s) as int));
        }
        Ok((unique, if_not_exists, index, table))
    }

    /// Parses the columns of an index: sort specifications separated by
    /// commas, each kept as an `ORDER BY` list of one.
    #[verifier::loop_isolation(false)]
    #[verifier::rlimit(100)]
    #[verifier::spinoff_prover]
    fn parse_index_columns(&mut self) -> (r: Result<Vec<OrderBy>, ParserError>)
        requires
            old(self).wf(),
        ensures
            final(self).wf(),
            final(self).dialect_in_use() == old(self).dialect_in_use(),
            r matches Ok(v) ==> v@.len() > 0 && advanced(old(self).state(), final(self).state()),
            meets(
                spec_list(old(self).state().items, |t: Seq<Token>| spec_index_column(t)),
                |v: Vec<OrderBy>| order_bys_v(v@),
                old(self).state(),
                r,
                final(self).state(),
            ),
    {
        let ghost st = self.state();
        let ghost f = |t: Seq<Token>| spec_index_column(t);
        let ghost sp = spec_list(st.items, f);
        proof {
            crate::parser::query::lemma_sort_spec_len(st.items);
        }
        let mut columns: Vec<OrderBy> = Vec::new();
        let first = self.parse_sort_spec()?;
        let mut list: Vec<SortSpec> = Vec::new();
        list.push(first);
        proof {
            assert(sort_specs_v(list@) =~= seq![sort_spec_v(first)]);
        }
        columns.push(OrderBy { list });
        proof {
            assert(order_bys_v(columns@) =~= seq![seq![sort_spec_v(first)]]);
        }
        loop
            invariant
                self.wf(),
                self.dialect_in_use() == old(self).dialect_in_use(),
                advanced(st, self.state()),
                columns@.len() > 0,
                f == (|t: Seq<Token>| spec_index_column(t)),
                sp == spec_list(st.items, f),
                sp == prepend(
                    order_bys_v(columns@),
                    list_tail(self.state().items, f),
                    (st.items.len() - self.state().items.len()) as nat,
                ),
            decreases self.state().items.len(),
        {
            let ghost cur = self.state();
            let ghost c: nat = (st.items.len() - cur.items.len()) as nat;
            proof {
                assert(cur.items == st.items.skip(c as int));
            }
            if !self.next_token_if_is(&Token::Comma) {
                proof {
                    assert(order_bys_v(columns@) + Seq::<Seq<SortSpecV>>::empty() =~= order_bys_v(columns@));
                    assert(self.state() == skip_state(st, c));
                }
                break;
            }
            let ghost mid = self.state();
            proof {
                assert(mid.items =~= cur.items.skip(1));
                crate::parser::query::lemma_sort_spec_len(mid.items);
            }
            let e = self.parse_sort_spec()?;
            proof {
                crate::parser::types::lemma_step_advanced(st, cur, mid);
                lemma_consumed_trans(st, mid, self.state());
            }
            let mut list: Vec<SortSpec> = Vec::new();
            list.push(e);
            let ghost cols0 = columns@;
            proof {
                assert(sort_specs_v(list@) =~= seq![sort_spec_v(e)]);
            }
            columns.push(OrderBy { list });
            proof {
                assert(order_bys_v(columns@) =~= order_bys_v(cols0).push(seq![sort_spec_v(e)]));
                if let Parsed::Done(_, n) = crate::parser::query::spec_sort_spec(mid.items) {
                    assert(self.state().items =~= mid.items.skip(n as int));
                    if let Parsed::Done(l, m) = list_tail(self.state().items, f) {
                        assert(order_bys_v(cols0) + (seq![seq![sort_spec_v(e)]] + l) =~= order_bys_v(
                            cols0,
                        ).push(seq![sort_spec_v(e)]) + l);
                    }
                }
            }
        }
        Ok(columns)
    }

    /// Parses `DROP <object type> [IF EXISTS] <name> [, ...] [CASCADE | RESTRICT]`.
    #[verifier::rlimit(100)]
    #[verifier::spinoff_prover]
    pub fn parse_drop_stmt(&mut self) -> (r: Result<DropStmt, ParserError>)
        requires
            old(self).wf(),
        ensures
            final(self).wf(),
            final(self).dialect_in_use() == old(self).dialect_in_use(),
            !peek_is_keyword(old(self).state(), Keyword::DROP) ==> r is Err,
            peek_is_keyword(old(self).state(), Keyword::DROP) && spec_object_type(
                spec_next_state(old(self).state()),
            ) is None ==> r is Err,
            r matches Ok(d) ==> spec_object_type(spec_next_state(old(self).state())) == Some(d.ty),
            r is Ok ==> consumed(old(self).state(), final(self).state()),
            r matches Ok(d) ==> d.name@.len() > 0,
            old(self).state().cursor == 0 && peek_is_keyword(old(self).state(), Keyword::DROP)
                && spec_object_type(spec_next_state(old(self).state())) is Some ==> match spec_object_names(
                old(self).state().items.skip(drop_names_start(old(self).state().items) as int),
            ) {
                Some((names, k)) => r matches Ok(d) && d.if_exists == drop_if_exists(
                    old(self).state().items,
                ) && object_names_view(d.name@) == names && d.behavior == spec_drop_behavior(
                    skip_state(old(self).state(), drop_names_start(old(self).state().items) + k),
                ),
                None => r is Err,
            },
    {
        let ghost st = self.state();
        self.expect_keyword(Keyword::DROP)?;
        let ghost s1 = self.state();
        let ty = self.parse_drop_type()?;
        let ghost s2 = self.state();
        let if_exists_kws = [Keyword::IF, Keyword::EXISTS];
        proof {
            assert(if_exists_kws@ =~= seq![Keyword::IF, Keyword::EXISTS]);
            crate::parser::lemma_two_keywords_follow(s2, Keyword::IF, Keyword::EXISTS);
            assert(s2.items =~= st.items.skip(2));
        }
        let if_exists = self.parse_keywords(&if_exists_kws);
        let ghost s3 = self.state();
        proof {
            if if_exists {
                assert(s3.items =~= st.items.skip(4));
            }
            lemma_object_names_len(s3.items);
        }
        let name = self.parse_object_names()?;
        let ghost s4 = self.state();
        proof {
            assert(s4.items =~= st.items.skip(st.items.len() - s4.items.len()));
        }
        let behavior = self.parse_drop_behavior()?;
        proof {
            lemma_consumed_trans(st, s1, s2);
            lemma_consumed_trans(st, s2, s3);
            lemma_consumed_trans(st, s3, s4);
            lemma_consumed_trans(st, s4, self.state());
        }
        Ok(DropStmt { if_exists, ty, name, behavior })
    }

    /// Parses the kind of object after `DROP`: `SCHEMA`, `TABLE`, `VIEW`,
    /// `DOMAIN`, `TYPE`, `DATABASE` or `INDEX`.
    pub fn parse_drop_type(&mut self) -> (r: Result<ObjectType, ParserError>)
        requires
            old(self).wf(),
        ensures
            final(self).wf(),
            final(self).dialect_in_use() == old(self).dialect_in_use(),
            match spec_object_type(old(self).state()) {
                Some(t) => r == Ok::<ObjectType, ParserError>(t) && final(self).state()
                    == spec_next_state(old(self).state()),
                None => r matches Err(e) && final(self).state() == old(self).state() && error_view(e)
                    == (false, spec_expected_message(
                    "SCHEMA, TABLE, VIEW, DOMAIN, TYPE, DATABASE or INDEX after DROP"@,
                    opt_token_view(spec_next(old(self).state())),
                )),
            },
            r is Ok ==> consumed(old(self).state(), final(self).state()),
    {
        let kws = [
            Keyword::SCHEMA,
            Keyword::TABLE,
            Keyword::VIEW,
            Keyword::DOMAIN,
            Keyword::TYPE,
            Keyword::DATABASE,
            Keyword::INDEX,
        ];
        proof {
            reveal_with_fuel(crate::token::spec_first_keyword_of, 8);
            assert(kws@.drop_first() =~= seq![Keyword::TABLE, Keyword::VIEW, Keyword::DOMAIN, Keyword::TYPE, Keyword::DATABASE, Keyword::INDEX]);
            assert(kws@.drop_first().drop_first() =~= seq![Keyword::VIEW, Keyword::DOMAIN, Keyword::TYPE, Keyword::DATABASE, Keyword::INDEX]);
            assert(kws@.drop_first().drop_first().drop_first() =~= seq![Keyword::DOMAIN, Keyword::TYPE, Keyword::DATABASE, Keyword::INDEX]);
            assert(kws@.drop_first().drop_first().drop_first().drop_first() =~= seq![Keyword::TYPE, Keyword::DATABASE, Keyword::INDEX]);
            assert(kws@.drop_first().drop_first().drop_first().drop_first().drop_first() =~= seq![Keyword::DATABASE, Keyword::INDEX]);
            assert(kws@.drop_first().drop_first().drop_first().drop_first().drop_first().drop_first() =~= seq![Keyword::INDEX]);
            assert(kws@.drop_first().drop_first().drop_first().drop_first().drop_first().drop_first().drop_first() =~= Seq::<Keyword>::empty());
        }
        match self.parse_one_of_keywords(&kws) {
            Some(k) => {
                if k == Keyword::SCHEMA {
                    Ok(ObjectType::Schema)
                } else if k == Keyword::TABLE {
                    Ok(ObjectType::Table)
                } else if k == Keyword::VIEW {
                    Ok(ObjectType::View)
                } else if k == Keyword::DOMAIN {
                    Ok(ObjectType::Domain)
                } else if k == Keyword::TYPE {
                    Ok(ObjectType::Type)
                } else if k == Keyword::DATABASE {
                    Ok(ObjectType::Database)
                } else {
                    Ok(ObjectType::Index)
                }
            },
            None => self.expected_here("SCHEMA, TABLE, VIEW, DOMAIN, TYPE, DATABASE or INDEX after DROP"),
        }
    }

    /// Parses an optional drop behavior: `CASCADE` or `RESTRICT`.
    fn parse_drop_behavior(&mut self) -> (r: Result<Option<DropBehavior>, ParserError>)
        requires
            old(self).wf(),
        ensures
            final(self).wf(),
            final(self).dialect_in_use() == old(self).dialect_in_use(),
            r == Ok::<Option<DropBehavior>, ParserError>(spec_drop_behavior(old(self).state())),
            spec_drop_behavior(old(self).state()) is Some ==> final(self).state() == spec_next_state(
                old(self).state(),
            ),
            spec_drop_behavior(old(self).state()) is None ==> final(self).state() == old(self).state(),
            consumed(old(self).state(), final(self).state()),
    {
        let kws = [Keyword::CASCADE, Keyword::RESTRICT];
        proof {
            reveal_with_fuel(crate::token::spec_first_keyword_of, 3);
            assert(kws@.drop_first() =~= seq![Keyword::RESTRICT]);
            assert(kws@.drop_first().drop_first() =~= Seq::<Keyword>::empty());
        }
        match self.parse_one_of_keywords(&kws) {
            Some(k) => {
                if k == Keyword::CASCADE {
                    Ok(Some(DropBehavior::Cascade))
                } else {
                    Ok(Some(DropBehavior::Restrict))
                }
            },
            None => Ok(None),
        }
    }
}

/// Keywords consumed by `parse_keywords` advance the parser.
proof fn lemma_keywords_advanced(st: PeekState<Token>, now: PeekState<Token>, n: nat)
    requires
        0 < n <= st.items.len(),
        now == (PeekState { items: st.items.skip(n as int), cursor: 0 }),
    ensures
        advanced(st, now),
{
    assert(now.items =~= st.items.skip(st.items.len() - now.items.len()));
}

/// Advancing from a state with the same tokens advances from the first one.
proof fn lemma_reset_advanced(st: PeekState<Token>, s0: PeekState<Token>, now: PeekState<Token>)
    requires
        s0.items == st.items,
        advanced(s0, now),
    ensures
        advanced(st, now),
{
}

/// A state with fewer tokens and a reset cursor is advanced.
proof fn lemma_cursor_zero(st: PeekState<Token>, now: PeekState<Token>)
    requires
        consumed(st, now),
        now.items.len() < st.items.len(),
        now.cursor == 0,
    ensures
        advanced(st, now),
{
}

} // verus!
