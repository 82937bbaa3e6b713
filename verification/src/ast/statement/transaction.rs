//! Transaction statements.
use vstd::prelude::*;

use crate::ast::statement::{join_with, lemma_join_with_push, text_if};
use crate::text::push_str;

verus! {

/// `START TRANSACTION` statement.
#[derive(Debug, PartialEq, Eq)]
pub struct StartTransactionStmt {
    /// The transaction characteristics.
    pub characteristics: Vec<TransactionCharacteristic>,
}

/// `SET TRANSACTION` statement.
#[derive(Debug, PartialEq, Eq)]
pub struct SetTransactionStmt {
    /// The transaction characteristics.
    pub characteristics: Vec<TransactionCharacteristic>,
}

/// A transaction characteristic.
#[derive(Copy, Clone, Debug, PartialEq, Eq, Hash, Structural)]
pub enum TransactionCharacteristic {
    /// The access mode.
    AccessMode(TransactionAccessMode),
    /// `ISOLATION LEVEL <level>`
    IsolationLevel(TransactionIsolationLevel),
}

/// The access mode of a transaction.
#[derive(Copy, Clone, Debug, PartialEq, Eq, Hash, Structural)]
pub enum TransactionAccessMode {
    /// `READ ONLY`
    ReadOnly,
    /// `READ WRITE`
    ReadWrite,
}

/// The isolation level of a transaction.
#[derive(Copy, Clone, Debug, PartialEq, Eq, Hash, Structural)]
pub enum TransactionIsolationLevel {
    /// `READ UNCOMMITTED`
    ReadUncommitted,
    /// `READ COMMITTED`
    ReadCommitted,
    /// `REPEATABLE READ`
    RepeatableRead,
    /// `SERIALIZABLE`
    Serializable,
}

/// `COMMIT` statement.
#[derive(Copy, Clone, Debug, PartialEq, Eq, Hash, Structural)]
pub struct CommitTransactionStmt {
    /// `AND CHAIN`
    pub and_chain: bool,
}

/// `ROLLBACK` statement.
#[derive(Copy, Clone, Debug, PartialEq, Eq, Hash, Structural)]
pub struct RollbackTransactionStmt {
    /// `AND CHAIN`
    pub and_chain: bool,
}

/// The text of an access mode.
pub open spec fn access_mode_sql(m: TransactionAccessMode) -> Seq<char> {
    match m {
        TransactionAccessMode::ReadOnly => "READ ONLY"@,
        TransactionAccessMode::ReadWrite => "READ WRITE"@,
    }
}

/// The text of an isolation level.
pub open spec fn isolation_level_sql(l: TransactionIsolationLevel) -> Seq<char> {
    match l {
        TransactionIsolationLevel::ReadUncommitted => "READ UNCOMMITTED"@,
        TransactionIsolationLevel::ReadCommitted => "READ COMMITTED"@,
        TransactionIsolationLevel::RepeatableRead => "REPEATABLE READ"@,
        TransactionIsolationLevel::Serializable => "SERIALIZABLE"@,
    }
}

/// The text of a transaction characteristic.
pub open spec fn characteristic_sql(c: TransactionCharacteristic) -> Seq<char> {
    match c {
        TransactionCharacteristic::AccessMode(m) => access_mode_sql(m),
        TransactionCharacteristic::IsolationLevel(l) => "ISOLATION LEVEL "@ + isolation_level_sql(l),
    }
}

/// ` <characteristic>, ..` when there are any.
#[verifier::opaque]
pub open spec fn characteristics_sql(s: Seq<TransactionCharacteristic>) -> Seq<char> {
    text_if(
        s.len() > 0,
        " "@ + join_with(s.map_values(|c: TransactionCharacteristic| characteristic_sql(c)), ", "@),
    )
}

/// ` AND CHAIN` when `and_chain`.
pub open spec fn and_chain_sql(and_chain: bool) -> Seq<char> {
    text_if(and_chain, " AND CHAIN"@)
}

impl TransactionAccessMode {
    /// Appends `READ ONLY` or `READ WRITE`.
    pub fn write_sql(&self, out: &mut String)
        ensures
            final(out)@ == old(out)@ + access_mode_sql(*self),
    {
        match self {
            TransactionAccessMode::ReadOnly => push_str(out, "READ ONLY"),
            TransactionAccessMode::ReadWrite => push_str(out, "READ WRITE"),
        }
    }
}

impl TransactionIsolationLevel {
    /// Appends the isolation level.
    pub fn write_sql(&self, out: &mut String)
        ensures
            final(out)@ == old(out)@ + isolation_level_sql(*self),
    {
        match self {
            TransactionIsolationLevel::ReadUncommitted => push_str(out, "READ UNCOMMITTED"),
            TransactionIsolationLevel::ReadCommitted => push_str(out, "READ COMMITTED"),
            TransactionIsolationLevel::RepeatableRead => push_str(out, "REPEATABLE READ"),
            TransactionIsolationLevel::Serializable => push_str(out, "SERIALIZABLE"),
        }
    }
}

impl TransactionCharacteristic {
    /// Appends the characteristic.
    pub fn write_sql(&self, out: &mut String)
        ensures
            final(out)@ == old(out)@ + characteristic_sql(*self),
    {
        match self {
            TransactionCharacteristic::AccessMode(m) => m.write_sql(out),
            TransactionCharacteristic::IsolationLevel(l) => {
                push_str(out, "ISOLATION LEVEL ");
                l.write_sql(out);
                assert(out@ =~= old(out)@ + characteristic_sql(*self));
            },
        }
    }
}

/// Appends ` <characteristic>, ..` when there are any.
fn write_characteristics(list: &Vec<TransactionCharacteristic>, out: &mut String)
    ensures
        final(out)@ == old(out)@ + characteristics_sql(list@),
{
    proof {
        reveal(characteristics_sql);
    }
    let ghost parts = list@.map_values(|c: TransactionCharacteristic| characteristic_sql(c));
    if list.len() > 0 {
        push_str(out, " ");
    }
    let ghost b = out@;
    let mut i: usize = 0;
    assert(parts.take(0) =~= Seq::<Seq<char>>::empty());
    while i < list.len()
        invariant
            i <= list@.len(),
            parts == list@.map_values(|c: TransactionCharacteristic| characteristic_sql(c)),
            parts.len() == list@.len(),
            out@ == b + join_with(parts.take(i as int), ", "@),
        decreases list@.len() - i,
    {
        proof {
            lemma_join_with_push(parts.take(i as int), ", "@, parts[i as int]);
            assert(parts.take(i + 1) =~= parts.take(i as int).push(parts[i as int]));
        }
        if i > 0 {
            push_str(out, ", ");
        }
        list[i].write_sql(out);
        i += 1;
    }
    assert(parts.take(list@.len() as int) =~= parts);
    assert(out@ =~= old(out)@ + characteristics_sql(list@));
}

impl StartTransactionStmt {
    /// Appends `START TRANSACTION[ <characteristics>]`.
    pub fn write_sql(&self, out: &mut String)
        ensures
            final(out)@ == old(out)@ + "START TRANSACTION"@ + characteristics_sql(self.characteristics@),
    {
        push_str(out, "START TRANSACTION");
        write_characteristics(&self.characteristics, out);
    }
}

impl SetTransactionStmt {
    /// Appends `SET TRANSACTION[ <characteristics>]`.
    pub fn write_sql(&self, out: &mut String)
        ensures
            final(out)@ == old(out)@ + "SET TRANSACTION"@ + characteristics_sql(self.characteristics@),
    {
        push_str(out, "SET TRANSACTION");
        write_characteristics(&self.characteristics, out);
    }
}

impl CommitTransactionStmt {
    /// Appends `COMMIT[ AND CHAIN]`.
    pub fn write_sql(&self, out: &mut String)
        ensures
            final(out)@ == old(out)@ + "COMMIT"@ + and_chain_sql(self.and_chain),
    {
        push_str(out, "COMMIT");
        if self.and_chain {
            push_str(out, " AND CHAIN");
        }
        assert(out@ =~= old(out)@ + "COMMIT"@ + and_chain_sql(self.and_chain));
    }
}

impl RollbackTransactionStmt {
    /// Appends `ROLLBACK[ AND CHAIN]`.
    pub fn write_sql(&self, out: &mut String)
        ensures
            final(out)@ == old(out)@ + "ROLLBACK"@ + and_chain_sql(self.and_chain),
    {
        push_str(out, "ROLLBACK");
        if self.and_chain {
            push_str(out, " AND CHAIN");
        }
        assert(out@ =~= old(out)@ + "ROLLBACK"@ + and_chain_sql(self.and_chain));
    }
}

} // verus!
