//! Data manipulation statements: `INSERT`, `DELETE`, `UPDATE` and `SELECT`.
use vstd::prelude::*;

use crate::ast::expression::Expr;
use crate::ast::query::Query;
use crate::ast::statement::{
    write_expr, write_query,
    expr_can_write, expr_text, ident_ok, ident_text, join_with, lemma_join_with_push, name_ok,
    name_text, query_can_write, query_text, text_if,
};
use crate::ast::text::idents_sql;
use crate::ast::types::{idents_view, Ident, ObjectName};
use crate::ast::valid::idents_ok;
use crate::ast::write_expr::write_idents;
use crate::text::push_str;

verus! {

/// `INSERT` statement.
#[derive(Debug, PartialEq, Eq)]
pub struct InsertStmt {
    /// The table.
    pub table: ObjectName,
    /// The columns.
    pub columns: Vec<Ident>,
    /// The source of the rows.
    pub source: Option<Box<Query>>,
}

/// `DELETE` statement.
#[derive(Debug, PartialEq, Eq)]
pub struct DeleteStmt {
    /// The table.
    pub table: ObjectName,
    /// The condition.
    pub selection: Option<Expr>,
}

/// `UPDATE` statement.
#[derive(Debug, PartialEq, Eq)]
pub struct UpdateStmt {
    /// The table.
    pub table: ObjectName,
    /// The assignments.
    pub assignments: Vec<Assignment>,
    /// The condition.
    pub selection: Option<Expr>,
}

/// `<column> = <value>` in an `UPDATE` statement.
#[derive(Debug, PartialEq, Eq)]
pub struct Assignment {
    /// The column.
    pub target: Ident,
    /// The value.
    pub value: Expr,
}

/// `SELECT` statement.
#[derive(Debug, PartialEq, Eq)]
pub struct SelectStmt(pub Box<Query>);

/// The text of an `INSERT` statement: `INSERT INTO <table>[(<columns>)][<query>]`.
#[verifier::opaque]
pub open spec fn insert_sql(s: InsertStmt) -> Seq<char> {
    "INSERT INTO "@ + name_text(s.table) + text_if(
        s.columns@.len() > 0,
        "("@ + idents_sql(idents_view(s.columns@)) + ")"@,
    ) + match s.source {
        Some(q) => query_text(*q),
        None => Seq::empty(),
    }
}

/// An `INSERT` statement can be written.
pub open spec fn insert_ok(s: InsertStmt) -> bool {
    name_ok(s.table) && idents_ok(idents_view(s.columns@)) && (s.source matches Some(q)
        ==> query_can_write(*q))
}

/// `WHERE <condition>` when present (right after what precedes it).
pub open spec fn selection_sql(e: Option<Expr>) -> Seq<char> {
    match e {
        Some(e) => "WHERE "@ + expr_text(e),
        None => Seq::empty(),
    }
}

/// The text of a `DELETE` statement: `DELETE FROM <table>[WHERE <condition>]`.
#[verifier::opaque]
pub open spec fn delete_sql(s: DeleteStmt) -> Seq<char> {
    "DELETE FROM "@ + name_text(s.table) + selection_sql(s.selection)
}

/// The text of an assignment: `<column> = <value>`.
pub open spec fn assignment_sql(a: Assignment) -> Seq<char> {
    ident_text(a.target) + " = "@ + expr_text(a.value)
}

/// An assignment can be written.
pub open spec fn assignment_ok(a: Assignment) -> bool {
    ident_ok(a.target) && expr_can_write(a.value)
}

/// The texts of assignments.
pub open spec fn assignment_texts(s: Seq<Assignment>) -> Seq<Seq<char>> {
    s.map_values(|a: Assignment| assignment_sql(a))
}

/// The text of an `UPDATE` statement:
/// `UPDATE <table>[ SET <assignments>][WHERE <condition>]`.
#[verifier::opaque]
pub open spec fn update_sql(s: UpdateStmt) -> Seq<char> {
    "UPDATE "@ + name_text(s.table) + text_if(
        s.assignments@.len() > 0,
        " SET "@ + join_with(assignment_texts(s.assignments@), ", "@),
    ) + selection_sql(s.selection)
}

/// An `UPDATE` statement can be written.
pub open spec fn update_ok(s: UpdateStmt) -> bool {
    &&& name_ok(s.table)
    &&& forall|i: int| 0 <= i < s.assignments@.len() ==> assignment_ok(#[trigger] s.assignments@[i])
    &&& s.selection matches Some(e) ==> expr_can_write(e)
}

/// Appends `WHERE <condition>` when present.
fn write_selection(e: &Option<Expr>, out: &mut String)
    requires
        *e matches Some(x) ==> expr_can_write(x),
    ensures
        final(out)@ == old(out)@ + selection_sql(*e),
{
    if let Some(x) = e {
        push_str(out, "WHERE ");
        write_expr(x, out);
    }
    assert(out@ =~= old(out)@ + selection_sql(*e));
}

impl InsertStmt {
    /// Appends the text of the statement.
    pub fn write_sql(&self, out: &mut String)
        requires
            insert_ok(*self),
        ensures
            final(out)@ == old(out)@ + insert_sql(*self),
    {
        proof {
            reveal(insert_sql);
        }
        push_str(out, "INSERT INTO ");
        self.table.write_sql(out);
        if self.columns.len() > 0 {
            push_str(out, "(");
            write_idents(&self.columns, out);
            push_str(out, ")");
        }
        if let Some(q) = &self.source {
            write_query(q, out);
        }
        assert(out@ =~= old(out)@ + insert_sql(*self));
    }
}

impl DeleteStmt {
    /// Appends the text of the statement.
    pub fn write_sql(&self, out: &mut String)
        requires
            name_ok(self.table),
            self.selection matches Some(e) ==> expr_can_write(e),
        ensures
            final(out)@ == old(out)@ + delete_sql(*self),
    {
        proof {
            reveal(delete_sql);
        }
        push_str(out, "DELETE FROM ");
        self.table.write_sql(out);
        write_selection(&self.selection, out);
        assert(out@ =~= old(out)@ + delete_sql(*self));
    }
}

impl Assignment {
    /// Appends `<column> = <value>`.
    pub fn write_sql(&self, out: &mut String)
        requires
            assignment_ok(*self),
        ensures
            final(out)@ == old(out)@ + assignment_sql(*self),
    {
        self.target.write_sql(out);
        push_str(out, " = ");
        write_expr(&self.value, out);
        assert(out@ =~= old(out)@ + assignment_sql(*self));
    }
}

impl UpdateStmt {
    /// Appends the text of the statement.
    pub fn write_sql(&self, out: &mut String)
        requires
            update_ok(*self),
        ensures
            final(out)@ == old(out)@ + update_sql(*self),
    {
        proof {
            reveal(update_sql);
        }
        push_str(out, "UPDATE ");
        self.table.write_sql(out);
        let ghost a = out@;
        let ghost parts = assignment_texts(self.assignments@);
        if self.assignments.len() > 0 {
            push_str(out, " SET ");
        }
        let ghost b = out@;
        let mut i: usize = 0;
        assert(parts.take(0) =~= Seq::<Seq<char>>::empty());
        while i < self.assignments.len()
            invariant
                i <= self.assignments@.len(),
                parts == assignment_texts(self.assignments@),
                parts.len() == self.assignments@.len(),
                forall|j: int| 0 <= j < self.assignments@.len() ==> assignment_ok(#[trigger] self.assignments@[j]),
                out@ == b + join_with(parts.take(i as int), ", "@),
            decreases self.assignments@.len() - i,
        {
            proof {
                lemma_join_with_push(parts.take(i as int), ", "@, parts[i as int]);
                assert(parts.take(i + 1) =~= parts.take(i as int).push(parts[i as int]));
            }
            if i > 0 {
                push_str(out, ", ");
            }
            self.assignments[i].write_sql(out);
            i += 1;
        }
        assert(parts.take(self.assignments@.len() as int) =~= parts);
        assert(out@ =~= a + text_if(
            self.assignments@.len() > 0,
            " SET "@ + join_with(assignment_texts(self.assignments@), ", "@),
        ));
        write_selection(&self.selection, out);
        assert(out@ =~= old(out)@ + update_sql(*self));
    }
}

impl SelectStmt {
    /// Appends the text of the query.
    pub fn write_sql(&self, out: &mut String)
        requires
            query_can_write(*self.0),
        ensures
            final(out)@ == old(out)@ + query_text(*self.0),
    {
        write_query(&self.0, out);
    }
}

} // verus!
