//! Statements: schema definition and manipulation, data manipulation and
//! transactions, with their SQL text.
use vstd::prelude::*;

use crate::ast::expression::Expr;
use crate::ast::query::Query;
use crate::ast::text::{expr_sql, object_name_sql, query_sql};
use crate::ast::types::{Ident, ObjectName};
use crate::ast::valid::{expr_ok, idents_ok, query_ok};
use crate::ast::view::{expr_v, query_v};
use crate::ast::statement::ddl::{
    alter_domain_action_ok, alter_domain_sql, alter_table_action_ok, alter_table_sql,
    alter_type_action_ok, alter_type_sql, create_domain_ok, create_domain_sql, create_index_ok,
    create_index_sql, create_table_ok, create_table_sql, create_type_sql, create_view_ok,
    create_view_sql, drop_sql, type_def_ok, AlterDomainStmt, AlterTableStmt, AlterTypeStmt,
    CreateDomainStmt, CreateIndexStmt, CreateSchemaStmt, CreateTableStmt, CreateTypeStmt,
    CreateViewStmt, DropStmt,
};
use crate::ast::statement::dml::{
    delete_sql, insert_ok, insert_sql, update_ok, update_sql, DeleteStmt, InsertStmt, SelectStmt,
    UpdateStmt,
};
use crate::ast::statement::transaction::{
    and_chain_sql, characteristics_sql, CommitTransactionStmt, RollbackTransactionStmt,
    SetTransactionStmt, StartTransactionStmt,
};
use crate::ast::valid::{data_type_ok, object_names_ok};
use crate::ast::types::object_names_view;
use crate::text::push_str;
use crate::token::{ident_quote_ok, spec_ident_sql};

pub mod ddl;
pub mod dml;
pub mod transaction;

verus! {

/// Texts joined with a separator.
pub open spec fn join_with(parts: Seq<Seq<char>>, sep: Seq<char>) -> Seq<char>
    decreases parts.len(),
{
    if parts.len() == 0 {
        Seq::empty()
    } else if parts.len() == 1 {
        parts[0]
    } else {
        join_with(parts.drop_last(), sep) + sep + parts.last()
    }
}

/// Texts, each after a prefix.
pub open spec fn prefix_each(parts: Seq<Seq<char>>, prefix: Seq<char>) -> Seq<char>
    decreases parts.len(),
{
    if parts.len() == 0 {
        Seq::empty()
    } else {
        prefix_each(parts.drop_last(), prefix) + prefix + parts.last()
    }
}

/// One more part joined with a separator.
pub proof fn lemma_join_with_push(parts: Seq<Seq<char>>, sep: Seq<char>, x: Seq<char>)
    ensures
        join_with(parts.push(x), sep) == if parts.len() == 0 {
            x
        } else {
            join_with(parts, sep) + sep + x
        },
{
    assert(parts.push(x).drop_last() =~= parts);
    if parts.len() == 0 {
        assert(parts.push(x)[0] == x);
    }
}

/// One more part after a prefix.
pub proof fn lemma_prefix_each_push(parts: Seq<Seq<char>>, prefix: Seq<char>, x: Seq<char>)
    ensures
        prefix_each(parts.push(x), prefix) == prefix_each(parts, prefix) + prefix + x,
{
    assert(parts.push(x).drop_last() =~= parts);
}

/// `s` when `b` holds, nothing otherwise.
pub open spec fn text_if(b: bool, s: Seq<char>) -> Seq<char> {
    if b {
        s
    } else {
        Seq::empty()
    }
}

/// The text of an identifier.
pub open spec fn ident_text(i: Ident) -> Seq<char> {
    spec_ident_sql(i@)
}

/// The text of an object name.
pub open spec fn name_text(n: ObjectName) -> Seq<char> {
    object_name_sql(n@)
}

/// The text of an expression.
#[verifier::opaque]
pub open spec fn expr_text(e: Expr) -> Seq<char> {
    expr_sql(expr_v(e))
}

/// The text of a query.
#[verifier::opaque]
pub open spec fn query_text(q: Query) -> Seq<char> {
    query_sql(query_v(q))
}

/// Appends the text of an expression.
pub fn write_expr(e: &Expr, out: &mut String)
    requires
        expr_can_write(*e),
    ensures
        final(out)@ == old(out)@ + expr_text(*e),
{
    e.write_sql(out);
    proof {
        reveal(expr_text);
    }
}

/// Appends the text of a query.
pub fn write_query(q: &Query, out: &mut String)
    requires
        query_can_write(*q),
    ensures
        final(out)@ == old(out)@ + query_text(*q),
{
    q.write_sql(out);
    proof {
        reveal(query_text);
    }
}

/// An identifier can be written.
pub open spec fn ident_ok(i: Ident) -> bool {
    ident_quote_ok(i.quote)
}

/// An object name can be written.
pub open spec fn name_ok(n: ObjectName) -> bool {
    idents_ok(n@)
}

/// An expression can be written.
pub open spec fn expr_can_write(e: Expr) -> bool {
    expr_ok(expr_v(e))
}

/// A query can be written.
pub open spec fn query_can_write(q: Query) -> bool {
    query_ok(query_v(q))
}

/// A statement.
#[derive(Debug, PartialEq, Eq)]
pub enum Stmt {
    /// `CREATE TABLE`
    CreateTable(CreateTableStmt),
    /// `ALTER TABLE`
    AlterTable(AlterTableStmt),
    /// `CREATE VIEW`
    CreateView(CreateViewStmt),
    /// `CREATE DOMAIN`
    CreateDomain(CreateDomainStmt),
    /// `ALTER DOMAIN`
    AlterDomain(AlterDomainStmt),
    /// `CREATE TYPE`
    CreateType(CreateTypeStmt),
    /// `ALTER TYPE`
    AlterType(AlterTypeStmt),
    /// `CREATE INDEX`
    CreateIndex(CreateIndexStmt),
    /// `DROP`
    Drop(DropStmt),
    /// `INSERT`
    Insert(InsertStmt),
    /// `DELETE`
    Delete(DeleteStmt),
    /// `UPDATE`
    Update(UpdateStmt),
    /// `SELECT`
    Select(SelectStmt),
    /// `START TRANSACTION`
    StartTransaction(StartTransactionStmt),
    /// `SET TRANSACTION`
    SetTransaction(SetTransactionStmt),
    /// `COMMIT`
    Commit(CommitTransactionStmt),
    /// `ROLLBACK`
    Rollback(RollbackTransactionStmt),
}

/// The text of a statement.
pub open spec fn stmt_sql(s: Stmt) -> Seq<char> {
    match s {
        Stmt::CreateTable(x) => create_table_sql(x),
        Stmt::AlterTable(x) => alter_table_sql(x),
        Stmt::CreateView(x) => create_view_sql(x),
        Stmt::CreateDomain(x) => create_domain_sql(x),
        Stmt::AlterDomain(x) => alter_domain_sql(x),
        Stmt::CreateType(x) => create_type_sql(x),
        Stmt::AlterType(x) => alter_type_sql(x),
        Stmt::CreateIndex(x) => create_index_sql(x),
        Stmt::Drop(x) => drop_sql(x),
        Stmt::Insert(x) => insert_sql(x),
        Stmt::Delete(x) => delete_sql(x),
        Stmt::Update(x) => update_sql(x),
        Stmt::Select(x) => query_text(*x.0),
        Stmt::StartTransaction(x) => "START TRANSACTION"@ + characteristics_sql(x.characteristics@),
        Stmt::SetTransaction(x) => "SET TRANSACTION"@ + characteristics_sql(x.characteristics@),
        Stmt::Commit(x) => "COMMIT"@ + and_chain_sql(x.and_chain),
        Stmt::Rollback(x) => "ROLLBACK"@ + and_chain_sql(x.and_chain),
    }
}

/// A statement can be written.
pub open spec fn stmt_ok(s: Stmt) -> bool {
    match s {
        Stmt::CreateTable(x) => create_table_ok(x),
        Stmt::AlterTable(x) => name_ok(x.name) && alter_table_action_ok(x.action),
        Stmt::CreateView(x) => create_view_ok(x),
        Stmt::CreateDomain(x) => create_domain_ok(x),
        Stmt::AlterDomain(x) => name_ok(x.name) && alter_domain_action_ok(x.action),
        Stmt::CreateType(x) => name_ok(x.name) && (x.definition matches Some(d) ==> type_def_ok(d)),
        Stmt::AlterType(x) => name_ok(x.name) && alter_type_action_ok(x.action),
        Stmt::CreateIndex(x) => create_index_ok(x),
        Stmt::Drop(x) => object_names_ok(object_names_view(x.name@)),
        Stmt::Insert(x) => insert_ok(x),
        Stmt::Delete(x) => name_ok(x.table) && (x.selection matches Some(e) ==> expr_can_write(e)),
        Stmt::Update(x) => update_ok(x),
        Stmt::Select(x) => query_can_write(*x.0),
        _ => true,
    }
}

impl Stmt {
    /// Appends the text of the statement.
    #[verifier::spinoff_prover]
    #[verifier::rlimit(100)]
    pub fn write_sql(&self, out: &mut String)
        requires
            stmt_ok(*self),
        ensures
            final(out)@ == old(out)@ + stmt_sql(*self),
    {
        match self {
            Stmt::CreateTable(x) => x.write_sql(out),
            Stmt::AlterTable(x) => x.write_sql(out),
            Stmt::CreateView(x) => x.write_sql(out),
            Stmt::CreateDomain(x) => x.write_sql(out),
            Stmt::AlterDomain(x) => x.write_sql(out),
            Stmt::CreateType(x) => x.write_sql(out),
            Stmt::AlterType(x) => x.write_sql(out),
            Stmt::CreateIndex(x) => x.write_sql(out),
            Stmt::Drop(x) => x.write_sql(out),
            Stmt::Insert(x) => x.write_sql(out),
            Stmt::Delete(x) => x.write_sql(out),
            Stmt::Update(x) => x.write_sql(out),
            Stmt::Select(x) => x.write_sql(out),
            Stmt::StartTransaction(x) => x.write_sql(out),
            Stmt::SetTransaction(x) => x.write_sql(out),
            Stmt::Commit(x) => x.write_sql(out),
            Stmt::Rollback(x) => x.write_sql(out),
        }
    }

    /// The text of the statement.
    pub fn to_string(&self) -> (s: String)
        requires
            stmt_ok(*self),
        ensures
            s@ == stmt_sql(*self),
    {
        let mut s = String::new();
        self.write_sql(&mut s);
        s
    }
}

/// The text of a `CREATE SCHEMA` statement:
/// `CREATE SCHEMA[ IF NOT EXISTS][ <name>][ AUTHORIZATION <owner>]<elements>`,
/// the elements separated by line breaks.
pub open spec fn create_schema_sql(s: CreateSchemaStmt) -> Seq<char> {
    "CREATE SCHEMA"@ + text_if(s.if_not_exists, " IF NOT EXISTS"@) + match s.name {
        Some(n) => " "@ + name_text(n),
        None => Seq::empty(),
    } + match s.authorization {
        Some(a) => " AUTHORIZATION "@ + ident_text(a),
        None => Seq::empty(),
    } + join_with(s.elements@.map_values(|e: Stmt| stmt_sql(e)), "\n"@)
}

/// A `CREATE SCHEMA` statement can be written.
pub open spec fn create_schema_ok(s: CreateSchemaStmt) -> bool {
    &&& s.name matches Some(n) ==> name_ok(n)
    &&& s.authorization matches Some(a) ==> ident_ok(a)
    &&& forall|i: int| 0 <= i < s.elements@.len() ==> stmt_ok(#[trigger] s.elements@[i])
}

impl CreateSchemaStmt {
    /// Appends the text of the statement.
    #[verifier::rlimit(60)]
    #[verifier::spinoff_prover]
    pub fn write_sql(&self, out: &mut String)
        requires
            create_schema_ok(*self),
        ensures
            final(out)@ == old(out)@ + create_schema_sql(*self),
    {
        push_str(out, "CREATE SCHEMA");
        if self.if_not_exists {
            push_str(out, " IF NOT EXISTS");
        }
        if let Some(n) = &self.name {
            push_str(out, " ");
            n.write_sql(out);
        }
        if let Some(a) = &self.authorization {
            push_str(out, " AUTHORIZATION ");
            a.write_sql(out);
        }
        let ghost b = out@;
        let ghost parts = self.elements@.map_values(|e: Stmt| stmt_sql(e));
        let mut i: usize = 0;
        assert(parts.take(0) =~= Seq::<Seq<char>>::empty());
        while i < self.elements.len()
            invariant
                i <= self.elements@.len(),
                parts == self.elements@.map_values(|e: Stmt| stmt_sql(e)),
                parts.len() == self.elements@.len(),
                forall|j: int| 0 <= j < self.elements@.len() ==> stmt_ok(#[trigger] self.elements@[j]),
                out@ == b + join_with(parts.take(i as int), "\n"@),
            decreases self.elements@.len() - i,
        {
            proof {
                lemma_join_with_push(parts.take(i as int), "\n"@, parts[i as int]);
                assert(parts.take(i + 1) =~= parts.take(i as int).push(parts[i as int]));
            }
            if i > 0 {
                push_str(out, "\n");
            }
            self.elements[i].write_sql(out);
            i += 1;
        }
        assert(parts.take(self.elements@.len() as int) =~= parts);
        assert(out@ =~= old(out)@ + create_schema_sql(*self));
    }
}

} // verus!
