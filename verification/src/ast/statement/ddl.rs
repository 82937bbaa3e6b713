//! Schema definition and manipulation statements: schemas, tables, views,
//! domains, user-defined types, indexes, and dropping them.
use vstd::prelude::*;

use crate::ast::expression::Expr;
use crate::ast::query::{OrderBy, Query};
use crate::ast::statement::{
    write_expr, write_query,
    expr_can_write, expr_text, ident_ok, ident_text, join_with, lemma_join_with_push,
    lemma_prefix_each_push, name_ok, name_text, prefix_each, query_can_write, query_text, text_if,
    Stmt,
};
use crate::ast::text::{data_type_sql, idents_sql, object_names_sql, order_bys_sql};
use crate::ast::types::{idents_view, object_names_view, DataType, Ident, ObjectName};
use crate::ast::valid::{data_type_ok, idents_ok, object_names_ok, order_bys_ok};
use crate::ast::view::order_bys_v;
use crate::ast::write_expr::{write_idents, write_object_names};
use crate::ast::write_query::write_order_bys;
use crate::text::push_str;
use vstd::seq_lib::lemma_concat_associative;

verus! {

// ============================================================================
// Schemas
// ============================================================================

/// `CREATE SCHEMA` statement.
#[derive(Debug, PartialEq, Eq)]
pub struct CreateSchemaStmt {
    /// `IF NOT EXISTS`
    pub if_not_exists: bool,
    /// The schema name.
    pub name: Option<ObjectName>,
    /// `AUTHORIZATION <owner>`
    pub authorization: Option<Ident>,
    /// The schema elements.
    pub elements: Vec<Stmt>,
}

// ============================================================================
// Tables
// ============================================================================

/// `CREATE TABLE` statement.
#[derive(Debug, PartialEq, Eq)]
pub struct CreateTableStmt {
    /// `TEMPORARY`
    pub temporary: bool,
    /// `IF NOT EXISTS`
    pub if_not_exists: bool,
    /// The table name.
    pub name: ObjectName,
    /// The column definitions.
    pub columns: Vec<ColumnDef>,
    /// The table constraints.
    pub constraints: Vec<TableConstraintDef>,
    /// `LIKE <table> [<options>]`
    pub like: Option<LikeClause>,
    /// `AS <query>`
    pub query: Option<Box<Query>>,
}

/// A table constraint with its optional name.
#[derive(Debug, PartialEq, Eq)]
pub struct TableConstraintDef {
    /// `CONSTRAINT <name>`
    pub name: Option<Ident>,
    /// The constraint.
    pub constraint: TableConstraint,
}

/// A table constraint.
#[derive(Debug, PartialEq, Eq)]
pub enum TableConstraint {
    /// `{ PRIMARY KEY | UNIQUE } (<columns>)`
    Unique {
        /// The columns.
        columns: Vec<Ident>,
        /// Whether it is a primary key.
        is_primary: bool,
    },
    /// `FOREIGN KEY (<columns>) REFERENCES <table>[(<columns>)] ...`
    ForeignKey {
        /// The referencing columns.
        referencing_columns: Vec<Ident>,
        /// The referenced table.
        table: ObjectName,
        /// The referenced columns.
        referenced_columns: Vec<Ident>,
        /// `MATCH { FULL | PARTIAL | SIMPLE }`
        match_type: Option<ReferentialMatchType>,
        /// `ON UPDATE <action>`
        on_update: Option<ReferentialAction>,
        /// `ON DELETE <action>`
        on_delete: Option<ReferentialAction>,
    },
    /// `CHECK (<expr>)`
    Check(Box<Expr>),
}

/// A column definition.
#[derive(Debug, PartialEq, Eq)]
pub struct ColumnDef {
    /// The column name.
    pub name: Ident,
    /// The data type.
    pub data_type: DataType,
    /// The column constraints.
    pub constraints: Vec<ColumnConstraintDef>,
    /// `DEFAULT <expr>`
    pub default: Option<Expr>,
    /// `COLLATE <collation>`
    pub collation: Option<ObjectName>,
}

/// A column constraint with its optional name.
#[derive(Debug, PartialEq, Eq)]
pub struct ColumnConstraintDef {
    /// `CONSTRAINT <name>`
    pub name: Option<Ident>,
    /// The constraint.
    pub constraint: ColumnConstraint,
}

/// A column constraint.
#[derive(Debug, PartialEq, Eq)]
pub enum ColumnConstraint {
    /// `NULL`
    Null,
    /// `NOT NULL`
    NotNull,
    /// `{ PRIMARY KEY | UNIQUE }`
    Unique {
        /// Whether it is a primary key.
        is_primary: bool,
    },
    /// `REFERENCES <table>[(<columns>)] ...`
    References {
        /// The referenced table.
        table: ObjectName,
        /// The referenced columns.
        referenced_columns: Vec<Ident>,
        /// `MATCH { FULL | PARTIAL | SIMPLE }`
        match_type: Option<ReferentialMatchType>,
        /// `ON UPDATE <action>`
        on_update: Option<ReferentialAction>,
        /// `ON DELETE <action>`
        on_delete: Option<ReferentialAction>,
    },
    /// `CHECK (<expr>)`
    Check(Box<Expr>),
}

/// The match type of a referential constraint.
#[derive(Copy, Clone, Debug, PartialEq, Eq, Hash, Structural)]
pub enum ReferentialMatchType {
    /// `FULL`
    Full,
    /// `PARTIAL`
    Partial,
    /// `SIMPLE`
    Simple,
}

/// The action of a referential constraint.
#[derive(Copy, Clone, Debug, PartialEq, Eq, Hash, Structural)]
pub enum ReferentialAction {
    /// `CASCADE`
    Cascade,
    /// `RESTRICT`
    Restrict,
    /// `SET NULL`
    SetNull,
    /// `SET DEFAULT`
    SetDefault,
    /// `NO ACTION`
    NoAction,
}

/// `LIKE <table> [<options>]`
#[derive(Debug, PartialEq, Eq)]
pub struct LikeClause {
    /// The table.
    pub table: ObjectName,
    /// The options.
    pub options: Vec<LikeOption>,
}

/// An option of a `LIKE` clause.
#[derive(Copy, Clone, Debug, PartialEq, Eq, Hash, Structural)]
pub enum LikeOption {
    /// `INCLUDING IDENTITY`
    IncludingIdentity,
    /// `EXCLUDING IDENTITY`
    ExcludingIdentity,
    /// `INCLUDING DEFAULTS`
    IncludingDefaults,
    /// `EXCLUDING DEFAULTS`
    ExcludingDefaults,
    /// `INCLUDING GENERATED`
    IncludingGenerated,
    /// `EXCLUDING GENERATED`
    ExcludingGenerated,
}

/// `ALTER TABLE` statement.
#[derive(Debug, PartialEq, Eq)]
pub struct AlterTableStmt {
    /// `IF EXISTS`
    pub if_exists: bool,
    /// The table name.
    pub name: ObjectName,
    /// The action.
    pub action: AlterTableAction,
}

/// An `ALTER TABLE` action.
#[derive(Debug, PartialEq, Eq)]
pub enum AlterTableAction {
    /// `ADD COLUMN [IF NOT EXISTS] <column>`
    AddColumn {
        /// `IF NOT EXISTS`
        if_not_exists: bool,
        /// The column definition.
        column: ColumnDef,
    },
    /// `DROP COLUMN [IF EXISTS] <name> [<behavior>]`
    DropColumn {
        /// `IF EXISTS`
        if_exists: bool,
        /// The column name.
        name: Ident,
        /// `CASCADE` / `RESTRICT`
        drop_behavior: Option<DropBehavior>,
    },
    /// `ADD <table constraint>`
    AddTableConstraint {
        /// The constraint.
        constraint: TableConstraintDef,
    },
    /// `DROP CONSTRAINT [IF EXISTS] <name> [<behavior>]`
    DropTableConstraint {
        /// `IF EXISTS`
        if_exists: bool,
        /// The constraint name.
        name: ObjectName,
        /// `CASCADE` / `RESTRICT`
        drop_behavior: Option<DropBehavior>,
    },
}

// ============================================================================
// Views
// ============================================================================

/// `CREATE VIEW` statement.
#[derive(Debug, PartialEq, Eq)]
pub struct CreateViewStmt {
    /// `OR REPLACE`
    pub or_replace: bool,
    /// `IF NOT EXISTS`
    pub if_not_exists: bool,
    /// `RECURSIVE`
    pub recursive: bool,
    /// The view name.
    pub name: ObjectName,
    /// The view columns.
    pub columns: Vec<Ident>,
    /// The query.
    pub query: Box<Query>,
    /// `WITH [CASCADED | LOCAL] CHECK OPTION`
    pub check_option: Option<ViewCheckOption>,
}

/// The check option of a view.
#[derive(Copy, Clone, Debug, PartialEq, Eq, Hash, Structural)]
pub enum ViewCheckOption {
    /// `CASCADED`
    Cascaded,
    /// `LOCAL`
    Local,
}

// ============================================================================
// Domains
// ============================================================================

/// `CREATE DOMAIN` statement.
#[derive(Debug, PartialEq, Eq)]
pub struct CreateDomainStmt {
    /// The domain name.
    pub name: ObjectName,
    /// The data type.
    pub data_type: DataType,
    /// The domain constraints.
    pub constraints: Vec<DomainConstraintDef>,
    /// `DEFAULT <expr>`
    pub default: Option<Expr>,
    /// `COLLATE <collation>`
    pub collation: Option<ObjectName>,
}

/// A domain constraint with its optional name.
#[derive(Debug, PartialEq, Eq)]
pub struct DomainConstraintDef {
    /// `CONSTRAINT <name>`
    pub name: Option<Ident>,
    /// The constraint.
    pub constraint: DomainConstraint,
}

/// A domain constraint.
#[derive(Debug, PartialEq, Eq)]
pub enum DomainConstraint {
    /// `NULL`
    Null,
    /// `NOT NULL`
    NotNull,
    /// `CHECK (<expr>)`
    Check(Box<Expr>),
}

/// `ALTER DOMAIN` statement.
#[derive(Debug, PartialEq, Eq)]
pub struct AlterDomainStmt {
    /// The domain name.
    pub name: ObjectName,
    /// The action.
    pub action: AlterDomainAction,
}

/// An `ALTER DOMAIN` action.
#[derive(Debug, PartialEq, Eq)]
pub enum AlterDomainAction {
    /// `SET DEFAULT <expr>`
    SetDefault(Box<Expr>),
    /// `DROP DEFAULT`
    DropDefault,
    /// `ADD <constraint>`
    AddConstraint(DomainConstraintDef),
    /// `DROP CONSTRAINT <name>`
    DropConstraint(Ident),
}

// ============================================================================
// User-defined types
// ============================================================================

/// `CREATE TYPE` statement.
#[derive(Debug, PartialEq, Eq)]
pub struct CreateTypeStmt {
    /// The type name.
    pub name: ObjectName,
    /// `AS <definition>`
    pub definition: Option<TypeDef>,
}

/// The definition of a user-defined type.
#[derive(Debug, PartialEq, Eq)]
pub enum TypeDef {
    /// A data type.
    DataType(DataType),
    /// Attributes.
    MemberList(Vec<TypeAttributeDef>),
}

/// An attribute of a user-defined type.
#[derive(Debug, PartialEq, Eq)]
pub struct TypeAttributeDef {
    /// The attribute name.
    pub name: Ident,
    /// The data type.
    pub data_type: DataType,
    /// `DEFAULT <expr>`
    pub default: Option<Expr>,
    /// `COLLATE <collation>`
    pub collation: Option<ObjectName>,
}

/// `ALTER TYPE` statement.
#[derive(Debug, PartialEq, Eq)]
pub struct AlterTypeStmt {
    /// The type name.
    pub name: ObjectName,
    /// The action.
    pub action: AlterTypeAction,
}

/// An `ALTER TYPE` action.
#[derive(Debug, PartialEq, Eq)]
pub enum AlterTypeAction {
    /// `ADD ATTRIBUTE <attribute>`
    AddAttribute(TypeAttributeDef),
    /// `DROP ATTRIBUTE <name>`
    DropAttribute(Ident),
}

// ============================================================================
// Indexes
// ============================================================================

/// `CREATE INDEX` statement.
#[derive(Debug, PartialEq, Eq)]
pub struct CreateIndexStmt {
    /// `UNIQUE`
    pub unique: bool,
    /// `IF NOT EXISTS`
    pub if_not_exists: bool,
    /// The index name.
    pub index: ObjectName,
    /// The table name.
    pub table: ObjectName,
    /// The indexed columns.
    pub columns: Vec<OrderBy>,
}

// ============================================================================
// Dropping objects
// ============================================================================

/// `DROP` statement.
#[derive(Debug, PartialEq, Eq)]
pub struct DropStmt {
    /// `IF EXISTS`
    pub if_exists: bool,
    /// The kind of the objects.
    pub ty: ObjectType,
    /// The object names.
    pub name: Vec<ObjectName>,
    /// `CASCADE` / `RESTRICT`
    pub behavior: Option<DropBehavior>,
}

/// The kind of the objects that a `DROP` statement drops.
#[derive(Copy, Clone, Debug, PartialEq, Eq, Hash, Structural)]
pub enum ObjectType {
    /// `SCHEMA`
    Schema,
    /// `TABLE`
    Table,
    /// `VIEW`
    View,
    /// `DOMAIN`
    Domain,
    /// `TYPE`
    Type,
    /// `DATABASE`
    Database,
    /// `INDEX`
    Index,
}

/// `CASCADE` or `RESTRICT`.
#[derive(Copy, Clone, Debug, PartialEq, Eq, Hash, Structural)]
pub enum DropBehavior {
    /// `CASCADE`
    Cascade,
    /// `RESTRICT`
    Restrict,
}

// ============================================================================
// Text
// ============================================================================

/// The text of a referential match type.
pub open spec fn match_type_sql(m: ReferentialMatchType) -> Seq<char> {
    match m {
        ReferentialMatchType::Full => "FULL"@,
        ReferentialMatchType::Partial => "PARTIAL"@,
        ReferentialMatchType::Simple => "SIMPLE"@,
    }
}

/// The text of a referential action.
pub open spec fn referential_action_sql(a: ReferentialAction) -> Seq<char> {
    match a {
        ReferentialAction::Cascade => "CASCADE"@,
        ReferentialAction::Restrict => "RESTRICT"@,
        ReferentialAction::SetNull => "SET NULL"@,
        ReferentialAction::SetDefault => "SET DEFAULT"@,
        ReferentialAction::NoAction => "NO ACTION"@,
    }
}

/// `CONSTRAINT <name> ` for a named constraint.
pub open spec fn constraint_name_sql(name: Option<Ident>) -> Seq<char> {
    match name {
        Some(n) => "CONSTRAINT "@ + ident_text(n) + " "@,
        None => Seq::empty(),
    }
}

/// What follows the referenced table: `(<columns>)` when there are any, then
/// ` MATCH ..`, ` ON UPDATE ..` and ` ON DELETE ..` when present.
pub open spec fn references_tail_sql(
    columns: Seq<Ident>,
    match_type: Option<ReferentialMatchType>,
    on_update: Option<ReferentialAction>,
    on_delete: Option<ReferentialAction>,
) -> Seq<char> {
    text_if(columns.len() > 0, "("@ + idents_sql(idents_view(columns)) + ")"@) + match match_type {
        Some(m) => " MATCH "@ + match_type_sql(m),
        None => Seq::empty(),
    } + match on_update {
        Some(a) => " ON UPDATE "@ + referential_action_sql(a),
        None => Seq::empty(),
    } + match on_delete {
        Some(a) => " ON DELETE "@ + referential_action_sql(a),
        None => Seq::empty(),
    }
}

/// The text of a table constraint.
pub open spec fn table_constraint_sql(c: TableConstraint) -> Seq<char> {
    match c {
        TableConstraint::Unique { columns, is_primary } => (if is_primary {
            "PRIMARY KEY"@
        } else {
            "UNIQUE"@
        }) + " ("@ + idents_sql(idents_view(columns@)) + ")"@,
        TableConstraint::ForeignKey {
            referencing_columns,
            table,
            referenced_columns,
            match_type,
            on_update,
            on_delete,
        } => "FOREIGN KEY ("@ + idents_sql(idents_view(referencing_columns@)) + ") REFERENCES "@
            + name_text(table) + references_tail_sql(
            referenced_columns@,
            match_type,
            on_update,
            on_delete,
        ),
        TableConstraint::Check(e) => "CHECK ("@ + expr_text(*e) + ")"@,
    }
}

/// A table constraint can be written.
pub open spec fn table_constraint_ok(c: TableConstraint) -> bool {
    match c {
        TableConstraint::Unique { columns, .. } => idents_ok(idents_view(columns@)),
        TableConstraint::ForeignKey { referencing_columns, table, referenced_columns, .. } => idents_ok(
            idents_view(referencing_columns@),
        ) && name_ok(table) && idents_ok(idents_view(referenced_columns@)),
        TableConstraint::Check(e) => expr_can_write(*e),
    }
}

/// The text of a named table constraint.
pub open spec fn table_constraint_def_sql(d: TableConstraintDef) -> Seq<char> {
    constraint_name_sql(d.name) + table_constraint_sql(d.constraint)
}

/// A named table constraint can be written.
pub open spec fn table_constraint_def_ok(d: TableConstraintDef) -> bool {
    (d.name matches Some(n) ==> ident_ok(n)) && table_constraint_ok(d.constraint)
}

/// The text of a column constraint.
pub open spec fn column_constraint_sql(c: ColumnConstraint) -> Seq<char> {
    match c {
        ColumnConstraint::Null => "NULL"@,
        ColumnConstraint::NotNull => "NOT NULL"@,
        ColumnConstraint::Unique { is_primary } => if is_primary {
            "PRIMARY KEY"@
        } else {
            "UNIQUE"@
        },
        ColumnConstraint::References {
            table,
            referenced_columns,
            match_type,
            on_update,
            on_delete,
        } => "REFERENCES "@ + name_text(table) + references_tail_sql(
            referenced_columns@,
            match_type,
            on_update,
            on_delete,
        ),
        ColumnConstraint::Check(e) => "CHECK ("@ + expr_text(*e) + ")"@,
    }
}

/// A column constraint can be written.
pub open spec fn column_constraint_ok(c: ColumnConstraint) -> bool {
    match c {
        ColumnConstraint::References { table, referenced_columns, .. } => name_ok(table) && idents_ok(
            idents_view(referenced_columns@),
        ),
        ColumnConstraint::Check(e) => expr_can_write(*e),
        _ => true,
    }
}

/// The text of a named column constraint.
pub open spec fn column_constraint_def_sql(d: ColumnConstraintDef) -> Seq<char> {
    constraint_name_sql(d.name) + column_constraint_sql(d.constraint)
}

/// A named column constraint can be written.
pub open spec fn column_constraint_def_ok(d: ColumnConstraintDef) -> bool {
    (d.name matches Some(n) ==> ident_ok(n)) && column_constraint_ok(d.constraint)
}

/// The texts of named column constraints.
pub open spec fn column_constraint_texts(s: Seq<ColumnConstraintDef>) -> Seq<Seq<char>> {
    s.map_values(|d: ColumnConstraintDef| column_constraint_def_sql(d))
}

/// ` DEFAULT <expr>` and ` COLLATE <collation>` when present.
pub open spec fn default_collation_sql(default: Option<Expr>, collation: Option<ObjectName>) -> Seq<char> {
    (match default {
        Some(d) => " DEFAULT "@ + expr_text(d),
        None => Seq::empty(),
    }) + (match collation {
        Some(c) => " COLLATE "@ + name_text(c),
        None => Seq::empty(),
    })
}

/// A default and a collation can be written.
pub open spec fn default_collation_ok(default: Option<Expr>, collation: Option<ObjectName>) -> bool {
    (default matches Some(d) ==> expr_can_write(d)) && (collation matches Some(c) ==> name_ok(c))
}

/// The text of a column definition:
/// `<name> <type>[ <constraint>]..[ DEFAULT <expr>][ COLLATE <collation>]`.
pub open spec fn column_def_sql(c: ColumnDef) -> Seq<char> {
    ident_text(c.name) + " "@ + data_type_sql(c.data_type) + prefix_each(
        column_constraint_texts(c.constraints@),
        " "@,
    ) + default_collation_sql(c.default, c.collation)
}

/// A column definition can be written.
pub open spec fn column_def_ok(c: ColumnDef) -> bool {
    &&& ident_ok(c.name)
    &&& data_type_ok(c.data_type)
    &&& forall|i: int| 0 <= i < c.constraints@.len() ==> column_constraint_def_ok(#[trigger] c.constraints@[i])
    &&& default_collation_ok(c.default, c.collation)
}

/// The text of a `LIKE` option.
pub open spec fn like_option_sql(o: LikeOption) -> Seq<char> {
    match o {
        LikeOption::IncludingIdentity => "INCLUDING IDENTITY"@,
        LikeOption::ExcludingIdentity => "EXCLUDING IDENTITY"@,
        LikeOption::IncludingDefaults => "INCLUDING DEFAULTS"@,
        LikeOption::ExcludingDefaults => "EXCLUDING DEFAULTS"@,
        LikeOption::IncludingGenerated => "INCLUDING GENERATED"@,
        LikeOption::ExcludingGenerated => "EXCLUDING GENERATED"@,
    }
}

/// The text of a `LIKE` clause: `<table>[ <option>]..`.
pub open spec fn like_clause_sql(l: LikeClause) -> Seq<char> {
    name_text(l.table) + prefix_each(l.options@.map_values(|o: LikeOption| like_option_sql(o)), " "@)
}

/// The text of a `CREATE TABLE` statement (columns and constraints are not
/// part of it).
#[verifier::opaque]
pub open spec fn create_table_sql(s: CreateTableStmt) -> Seq<char> {
    table_head_sql(s) + name_text(s.name) + like_part_sql(s.like) + as_query_sql(s.query)
}

/// `CREATE [TEMPORARY ]TABLE [IF NOT EXISTS ]`.
pub open spec fn table_head_sql(s: CreateTableStmt) -> Seq<char> {
    "CREATE "@ + text_if(s.temporary, "TEMPORARY "@) + "TABLE "@ + text_if(
        s.if_not_exists,
        "IF NOT EXISTS "@,
    )
}

/// ` LIKE <clause>` when present.
pub open spec fn like_part_sql(l: Option<LikeClause>) -> Seq<char> {
    match l {
        Some(l) => " LIKE "@ + like_clause_sql(l),
        None => Seq::empty(),
    }
}

/// ` AS <query>` when present.
pub open spec fn as_query_sql(q: Option<Box<Query>>) -> Seq<char> {
    match q {
        Some(q) => " AS "@ + query_text(*q),
        None => Seq::empty(),
    }
}

/// A `CREATE TABLE` statement can be written.
pub open spec fn create_table_ok(s: CreateTableStmt) -> bool {
    &&& name_ok(s.name)
    &&& s.like matches Some(l) ==> name_ok(l.table)
    &&& s.query matches Some(q) ==> query_can_write(*q)
}

/// The text of `CASCADE` / `RESTRICT`.
pub open spec fn drop_behavior_sql(b: DropBehavior) -> Seq<char> {
    match b {
        DropBehavior::Cascade => "CASCADE"@,
        DropBehavior::Restrict => "RESTRICT"@,
    }
}

/// ` CASCADE` / ` RESTRICT` when present.
pub open spec fn opt_drop_behavior_sql(b: Option<DropBehavior>) -> Seq<char> {
    match b {
        Some(b) => " "@ + drop_behavior_sql(b),
        None => Seq::empty(),
    }
}

/// The text of an `ALTER TABLE` action.
pub open spec fn alter_table_action_sql(a: AlterTableAction) -> Seq<char> {
    match a {
        AlterTableAction::AddColumn { if_not_exists, column } => "ADD COLUMN "@ + text_if(
            if_not_exists,
            "IF NOT EXISTS "@,
        ) + column_def_sql(column),
        AlterTableAction::DropColumn { if_exists, name, drop_behavior } => "DROP COLUMN "@
            + text_if(if_exists, "IF EXISTS "@) + ident_text(name) + opt_drop_behavior_sql(
            drop_behavior,
        ),
        AlterTableAction::AddTableConstraint { constraint } => "ADD "@ + table_constraint_def_sql(
            constraint,
        ),
        AlterTableAction::DropTableConstraint { if_exists, name, drop_behavior } => "DROP CONSTRAINT "@
            + text_if(if_exists, "IF EXISTS "@) + name_text(name) + opt_drop_behavior_sql(
            drop_behavior,
        ),
    }
}

/// An `ALTER TABLE` action can be written.
pub open spec fn alter_table_action_ok(a: AlterTableAction) -> bool {
    match a {
        AlterTableAction::AddColumn { column, .. } => column_def_ok(column),
        AlterTableAction::DropColumn { name, .. } => ident_ok(name),
        AlterTableAction::AddTableConstraint { constraint } => table_constraint_def_ok(constraint),
        AlterTableAction::DropTableConstraint { name, .. } => name_ok(name),
    }
}

/// The text of an `ALTER TABLE` statement.
#[verifier::opaque]
pub open spec fn alter_table_sql(s: AlterTableStmt) -> Seq<char> {
    "ALTER TABLE "@ + text_if(s.if_exists, "IF EXISTS "@) + name_text(s.name) + " "@
        + alter_table_action_sql(s.action)
}

/// The text of a view check option.
pub open spec fn view_check_option_sql(o: ViewCheckOption) -> Seq<char> {
    match o {
        ViewCheckOption::Cascaded => "CASCADED"@,
        ViewCheckOption::Local => "LOCAL"@,
    }
}

/// The text of a `CREATE VIEW` statement:
/// `CREATE <RECURSIVE ><OR REPLACE > VIEW <IF NOT EXISTS ><name> (<columns>) AS <query>[ WITH <option> CHECK OPTION]`.
#[verifier::opaque]
pub open spec fn create_view_sql(s: CreateViewStmt) -> Seq<char> {
    view_head_sql(s) + view_name_columns_sql(s) + query_text(*s.query) + check_option_sql(
        s.check_option,
    )
}

/// `CREATE <RECURSIVE ><OR REPLACE > VIEW <IF NOT EXISTS >`.
pub open spec fn view_head_sql(s: CreateViewStmt) -> Seq<char> {
    "CREATE "@ + text_if(s.recursive, "RECURSIVE "@) + text_if(s.or_replace, "OR REPLACE "@)
        + " VIEW "@ + text_if(s.if_not_exists, "IF NOT EXISTS "@)
}

/// `<name> (<columns>) AS `.
pub open spec fn view_name_columns_sql(s: CreateViewStmt) -> Seq<char> {
    name_text(s.name) + " ("@ + idents_sql(idents_view(s.columns@)) + ") AS "@
}

/// ` WITH <option> CHECK OPTION` when present.
pub open spec fn check_option_sql(o: Option<ViewCheckOption>) -> Seq<char> {
    match o {
        Some(x) => " WITH "@ + view_check_option_sql(x) + " CHECK OPTION"@,
        None => Seq::empty(),
    }
}

/// A `CREATE VIEW` statement can be written.
pub open spec fn create_view_ok(s: CreateViewStmt) -> bool {
    name_ok(s.name) && idents_ok(idents_view(s.columns@)) && query_can_write(*s.query)
}

/// The text of a domain constraint.
pub open spec fn domain_constraint_sql(c: DomainConstraint) -> Seq<char> {
    match c {
        DomainConstraint::Null => "NULL"@,
        DomainConstraint::NotNull => "NOT NULL"@,
        DomainConstraint::Check(e) => "CHECK ("@ + expr_text(*e) + ")"@,
    }
}

/// The text of a named domain constraint.
pub open spec fn domain_constraint_def_sql(d: DomainConstraintDef) -> Seq<char> {
    constraint_name_sql(d.name) + domain_constraint_sql(d.constraint)
}

/// A named domain constraint can be written.
pub open spec fn domain_constraint_def_ok(d: DomainConstraintDef) -> bool {
    (d.name matches Some(n) ==> ident_ok(n)) && (d.constraint matches DomainConstraint::Check(e)
        ==> expr_can_write(*e))
}

/// The texts of named domain constraints.
pub open spec fn domain_constraint_texts(s: Seq<DomainConstraintDef>) -> Seq<Seq<char>> {
    s.map_values(|d: DomainConstraintDef| domain_constraint_def_sql(d))
}

/// The text of a `CREATE DOMAIN` statement.
#[verifier::opaque]
pub open spec fn create_domain_sql(s: CreateDomainStmt) -> Seq<char> {
    "CREATE DOMAIN "@ + name_text(s.name) + " AS "@ + data_type_sql(s.data_type) + text_if(
        s.constraints@.len() > 0,
        " "@ + join_with(domain_constraint_texts(s.constraints@), " "@),
    ) + default_collation_sql(s.default, s.collation)
}

/// A `CREATE DOMAIN` statement can be written.
pub open spec fn create_domain_ok(s: CreateDomainStmt) -> bool {
    &&& name_ok(s.name)
    &&& data_type_ok(s.data_type)
    &&& forall|i: int| 0 <= i < s.constraints@.len() ==> domain_constraint_def_ok(#[trigger] s.constraints@[i])
    &&& default_collation_ok(s.default, s.collation)
}

/// The text of an `ALTER DOMAIN` action.
pub open spec fn alter_domain_action_sql(a: AlterDomainAction) -> Seq<char> {
    match a {
        AlterDomainAction::SetDefault(e) => "SET DEFAULT "@ + expr_text(*e),
        AlterDomainAction::DropDefault => "DROP DEFAULT"@,
        AlterDomainAction::AddConstraint(c) => "ADD "@ + domain_constraint_def_sql(c),
        AlterDomainAction::DropConstraint(n) => "DROP CONSTRAINT "@ + ident_text(n),
    }
}

/// An `ALTER DOMAIN` action can be written.
pub open spec fn alter_domain_action_ok(a: AlterDomainAction) -> bool {
    match a {
        AlterDomainAction::SetDefault(e) => expr_can_write(*e),
        AlterDomainAction::DropDefault => true,
        AlterDomainAction::AddConstraint(c) => domain_constraint_def_ok(c),
        AlterDomainAction::DropConstraint(n) => ident_ok(n),
    }
}

/// The text of an `ALTER DOMAIN` statement.
#[verifier::opaque]
pub open spec fn alter_domain_sql(s: AlterDomainStmt) -> Seq<char> {
    "ALTER DOMAIN "@ + name_text(s.name) + " "@ + alter_domain_action_sql(s.action)
}

/// The text of a type attribute: `<name> <type>[ DEFAULT ..][ COLLATE ..]`.
pub open spec fn type_attribute_sql(a: TypeAttributeDef) -> Seq<char> {
    ident_text(a.name) + " "@ + data_type_sql(a.data_type) + default_collation_sql(
        a.default,
        a.collation,
    )
}

/// A type attribute can be written.
pub open spec fn type_attribute_ok(a: TypeAttributeDef) -> bool {
    ident_ok(a.name) && data_type_ok(a.data_type) && default_collation_ok(a.default, a.collation)
}

/// The texts of type attributes.
pub open spec fn type_attribute_texts(s: Seq<TypeAttributeDef>) -> Seq<Seq<char>> {
    s.map_values(|a: TypeAttributeDef| type_attribute_sql(a))
}

/// The text of a type definition.
pub open spec fn type_def_sql(d: TypeDef) -> Seq<char> {
    match d {
        TypeDef::DataType(t) => data_type_sql(t),
        TypeDef::MemberList(attrs) => join_with(type_attribute_texts(attrs@), ", "@),
    }
}

/// A type definition can be written.
pub open spec fn type_def_ok(d: TypeDef) -> bool {
    match d {
        TypeDef::DataType(t) => data_type_ok(t),
        TypeDef::MemberList(attrs) => forall|i: int| 0 <= i < attrs@.len() ==> type_attribute_ok(
            #[trigger] attrs@[i],
        ),
    }
}

/// The text of a `CREATE TYPE` statement.
#[verifier::opaque]
pub open spec fn create_type_sql(s: CreateTypeStmt) -> Seq<char> {
    "CREATE TYPE "@ + name_text(s.name) + match s.definition {
        Some(d) => " AS "@ + type_def_sql(d),
        None => Seq::empty(),
    }
}

/// The text of an `ALTER TYPE` action.
pub open spec fn alter_type_action_sql(a: AlterTypeAction) -> Seq<char> {
    match a {
        AlterTypeAction::AddAttribute(attr) => "ADD ATTRIBUTE "@ + type_attribute_sql(attr),
        AlterTypeAction::DropAttribute(n) => "DROP ATTRIBUTE "@ + ident_text(n),
    }
}

/// An `ALTER TYPE` action can be written.
pub open spec fn alter_type_action_ok(a: AlterTypeAction) -> bool {
    match a {
        AlterTypeAction::AddAttribute(attr) => type_attribute_ok(attr),
        AlterTypeAction::DropAttribute(n) => ident_ok(n),
    }
}

/// The text of an `ALTER TYPE` statement.
#[verifier::opaque]
pub open spec fn alter_type_sql(s: AlterTypeStmt) -> Seq<char> {
    "ALTER TYPE "@ + name_text(s.name) + " "@ + alter_type_action_sql(s.action)
}

/// The text of a `CREATE INDEX` statement.
#[verifier::opaque]
pub open spec fn create_index_sql(s: CreateIndexStmt) -> Seq<char> {
    "CREATE "@ + text_if(s.unique, "UNIQUE "@) + "INDEX "@ + text_if(
        s.if_not_exists,
        "IF NOT EXISTS "@,
    ) + name_text(s.index) + " ON "@ + name_text(s.table) + " ("@ + order_bys_sql(
        order_bys_v(s.columns@),
    ) + ")"@
}

/// A `CREATE INDEX` statement can be written.
pub open spec fn create_index_ok(s: CreateIndexStmt) -> bool {
    name_ok(s.index) && name_ok(s.table) && order_bys_ok(order_bys_v(s.columns@))
}

/// The text of an object type.
pub open spec fn object_type_sql(t: ObjectType) -> Seq<char> {
    match t {
        ObjectType::Schema => "SCHEMA"@,
        ObjectType::Table => "TABLE"@,
        ObjectType::View => "VIEW"@,
        ObjectType::Domain => "DOMAIN"@,
        ObjectType::Type => "TYPE"@,
        ObjectType::Database => "DATABASE"@,
        ObjectType::Index => "INDEX"@,
    }
}

/// The text of a `DROP` statement.
#[verifier::opaque]
pub open spec fn drop_sql(s: DropStmt) -> Seq<char> {
    "DROP "@ + object_type_sql(s.ty) + " "@ + text_if(s.if_exists, "IF EXISTS "@) + object_names_sql(
        object_names_view(s.name@),
    ) + opt_drop_behavior_sql(s.behavior)
}

// ============================================================================
// Writing
// ============================================================================

impl ReferentialMatchType {
    /// Appends `FULL`, `PARTIAL` or `SIMPLE`.
    pub fn write_sql(&self, out: &mut String)
        ensures
            final(out)@ == old(out)@ + match_type_sql(*self),
    {
        match self {
            ReferentialMatchType::Full => push_str(out, "FULL"),
            ReferentialMatchType::Partial => push_str(out, "PARTIAL"),
            ReferentialMatchType::Simple => push_str(out, "SIMPLE"),
        }
    }
}

impl ReferentialAction {
    /// Appends the action.
    pub fn write_sql(&self, out: &mut String)
        ensures
            final(out)@ == old(out)@ + referential_action_sql(*self),
    {
        match self {
            ReferentialAction::Cascade => push_str(out, "CASCADE"),
            ReferentialAction::Restrict => push_str(out, "RESTRICT"),
            ReferentialAction::SetNull => push_str(out, "SET NULL"),
            ReferentialAction::SetDefault => push_str(out, "SET DEFAULT"),
            ReferentialAction::NoAction => push_str(out, "NO ACTION"),
        }
    }
}

/// Appends `CONSTRAINT <name> ` for a named constraint.
fn write_constraint_name(name: &Option<Ident>, out: &mut String)
    requires
        *name matches Some(n) ==> ident_ok(n),
    ensures
        final(out)@ == old(out)@ + constraint_name_sql(*name),
{
    if let Some(n) = name {
        push_str(out, "CONSTRAINT ");
        n.write_sql(out);
        push_str(out, " ");
    }
    assert(out@ =~= old(out)@ + constraint_name_sql(*name));
}

/// Appends what follows a referenced table.
#[verifier::spinoff_prover]
fn write_references_tail(
    columns: &Vec<Ident>,
    match_type: &Option<ReferentialMatchType>,
    on_update: &Option<ReferentialAction>,
    on_delete: &Option<ReferentialAction>,
    out: &mut String,
)
    requires
        idents_ok(idents_view(columns@)),
    ensures
        final(out)@ == old(out)@ + references_tail_sql(columns@, *match_type, *on_update, *on_delete),
{
    let ghost o = out@;
    let ghost a = text_if(columns@.len() > 0, "("@ + idents_sql(idents_view(columns@)) + ")"@);
    let ghost b = match *match_type {
        Some(m) => " MATCH "@ + match_type_sql(m),
        None => Seq::empty(),
    };
    let ghost c = match *on_update {
        Some(x) => " ON UPDATE "@ + referential_action_sql(x),
        None => Seq::empty(),
    };
    let ghost d = match *on_delete {
        Some(x) => " ON DELETE "@ + referential_action_sql(x),
        None => Seq::empty(),
    };
    if columns.len() > 0 {
        push_str(out, "(");
        write_idents(columns, out);
        push_str(out, ")");
    }
    assert(out@ =~= o + a);
    let ghost o1 = out@;
    if let Some(m) = match_type {
        push_str(out, " MATCH ");
        m.write_sql(out);
    }
    assert(out@ =~= o1 + b);
    let ghost o2 = out@;
    if let Some(x) = on_update {
        push_str(out, " ON UPDATE ");
        x.write_sql(out);
    }
    assert(out@ =~= o2 + c);
    let ghost o3 = out@;
    if let Some(x) = on_delete {
        push_str(out, " ON DELETE ");
        x.write_sql(out);
    }
    assert(out@ =~= o3 + d);
    proof {
        lemma_concat_associative(o, a, b);
        lemma_concat_associative(o, a + b, c);
        lemma_concat_associative(o, a + b + c, d);
    }
}

impl TableConstraint {
    /// Appends the text of the constraint.
    pub fn write_sql(&self, out: &mut String)
        requires
            table_constraint_ok(*self),
        ensures
            final(out)@ == old(out)@ + table_constraint_sql(*self),
    {
        match self {
            TableConstraint::Unique { columns, is_primary } => {
                if *is_primary {
                    push_str(out, "PRIMARY KEY");
                } else {
                    push_str(out, "UNIQUE");
                }
                push_str(out, " (");
                write_idents(columns, out);
                push_str(out, ")");
            },
            TableConstraint::ForeignKey {
                referencing_columns,
                table,
                referenced_columns,
                match_type,
                on_update,
                on_delete,
            } => {
                push_str(out, "FOREIGN KEY (");
                write_idents(referencing_columns, out);
                push_str(out, ") REFERENCES ");
                table.write_sql(out);
                write_references_tail(referenced_columns, match_type, on_update, on_delete, out);
            },
            TableConstraint::Check(e) => {
                push_str(out, "CHECK (");
                write_expr(e, out);
                push_str(out, ")");
            },
        }
        assert(out@ =~= old(out)@ + table_constraint_sql(*self));
    }
}

impl TableConstraintDef {
    /// Appends `[CONSTRAINT <name> ]<constraint>`.
    pub fn write_sql(&self, out: &mut String)
        requires
            table_constraint_def_ok(*self),
        ensures
            final(out)@ == old(out)@ + table_constraint_def_sql(*self),
    {
        write_constraint_name(&self.name, out);
        self.constraint.write_sql(out);
        assert(out@ =~= old(out)@ + table_constraint_def_sql(*self));
    }
}

impl ColumnConstraint {
    /// Appends the text of the constraint.
    pub fn write_sql(&self, out: &mut String)
        requires
            column_constraint_ok(*self),
        ensures
            final(out)@ == old(out)@ + column_constraint_sql(*self),
    {
        match self {
            ColumnConstraint::Null => push_str(out, "NULL"),
            ColumnConstraint::NotNull => push_str(out, "NOT NULL"),
            ColumnConstraint::Unique { is_primary } => {
                if *is_primary {
                    push_str(out, "PRIMARY KEY");
                } else {
                    push_str(out, "UNIQUE");
                }
            },
            ColumnConstraint::References {
                table,
                referenced_columns,
                match_type,
                on_update,
                on_delete,
            } => {
                push_str(out, "REFERENCES ");
                table.write_sql(out);
                write_references_tail(referenced_columns, match_type, on_update, on_delete, out);
            },
            ColumnConstraint::Check(e) => {
                push_str(out, "CHECK (");
                write_expr(e, out);
                push_str(out, ")");
            },
        }
        assert(out@ =~= old(out)@ + column_constraint_sql(*self));
    }
}

impl ColumnConstraintDef {
    /// Appends `[CONSTRAINT <name> ]<constraint>`.
    pub fn write_sql(&self, out: &mut String)
        requires
            column_constraint_def_ok(*self),
        ensures
            final(out)@ == old(out)@ + column_constraint_def_sql(*self),
    {
        write_constraint_name(&self.name, out);
        self.constraint.write_sql(out);
        assert(out@ =~= old(out)@ + column_constraint_def_sql(*self));
    }
}

/// Appends ` DEFAULT <expr>` and ` COLLATE <collation>` when present.
fn write_default_collation(default: &Option<Expr>, collation: &Option<ObjectName>, out: &mut String)
    requires
        default_collation_ok(*default, *collation),
    ensures
        final(out)@ == old(out)@ + default_collation_sql(*default, *collation),
{
    if let Some(d) = default {
        push_str(out, " DEFAULT ");
        write_expr(d, out);
    }
    if let Some(c) = collation {
        push_str(out, " COLLATE ");
        c.write_sql(out);
    }
    assert(out@ =~= old(out)@ + default_collation_sql(*default, *collation));
}

impl ColumnDef {
    /// Appends `<name> <type>[ <constraint>]..[ DEFAULT ..][ COLLATE ..]`.
    pub fn write_sql(&self, out: &mut String)
        requires
            column_def_ok(*self),
        ensures
            final(out)@ == old(out)@ + column_def_sql(*self),
    {
        let ghost o = out@;
        self.name.write_sql(out);
        push_str(out, " ");
        self.data_type.write_sql(out);
        let ghost a = out@;
        let ghost parts = column_constraint_texts(self.constraints@);
        let mut i: usize = 0;
        assert(parts.take(0) =~= Seq::<Seq<char>>::empty());
        while i < self.constraints.len()
            invariant
                i <= self.constraints@.len(),
                parts == column_constraint_texts(self.constraints@),
                parts.len() == self.constraints@.len(),
                forall|j: int| 0 <= j < self.constraints@.len() ==> column_constraint_def_ok(
                    #[trigger] self.constraints@[j],
                ),
                out@ == a + prefix_each(parts.take(i as int), " "@),
            decreases self.constraints@.len() - i,
        {
            proof {
                lemma_prefix_each_push(parts.take(i as int), " "@, parts[i as int]);
                assert(parts.take(i + 1) =~= parts.take(i as int).push(parts[i as int]));
            }
            push_str(out, " ");
            self.constraints[i].write_sql(out);
            i += 1;
        }
        assert(parts.take(self.constraints@.len() as int) =~= parts);
        write_default_collation(&self.default, &self.collation, out);
        assert(out@ =~= old(out)@ + column_def_sql(*self));
    }
}

impl LikeOption {
    /// Appends the option.
    pub fn write_sql(&self, out: &mut String)
        ensures
            final(out)@ == old(out)@ + like_option_sql(*self),
    {
        match self {
            LikeOption::IncludingIdentity => push_str(out, "INCLUDING IDENTITY"),
            LikeOption::ExcludingIdentity => push_str(out, "EXCLUDING IDENTITY"),
            LikeOption::IncludingDefaults => push_str(out, "INCLUDING DEFAULTS"),
            LikeOption::ExcludingDefaults => push_str(out, "EXCLUDING DEFAULTS"),
            LikeOption::IncludingGenerated => push_str(out, "INCLUDING GENERATED"),
            LikeOption::ExcludingGenerated => push_str(out, "EXCLUDING GENERATED"),
        }
    }
}

impl LikeClause {
    /// Appends `<table>[ <option>]..`.
    pub fn write_sql(&self, out: &mut String)
        requires
            name_ok(self.table),
        ensures
            final(out)@ == old(out)@ + like_clause_sql(*self),
    {
        self.table.write_sql(out);
        let ghost a = out@;
        let ghost parts = self.options@.map_values(|o: LikeOption| like_option_sql(o));
        let mut i: usize = 0;
        assert(parts.take(0) =~= Seq::<Seq<char>>::empty());
        while i < self.options.len()
            invariant
                i <= self.options@.len(),
                parts == self.options@.map_values(|o: LikeOption| like_option_sql(o)),
                out@ == a + prefix_each(parts.take(i as int), " "@),
            decreases self.options@.len() - i,
        {
            proof {
                lemma_prefix_each_push(parts.take(i as int), " "@, parts[i as int]);
                assert(parts.take(i + 1) =~= parts.take(i as int).push(parts[i as int]));
            }
            push_str(out, " ");
            self.options[i].write_sql(out);
            i += 1;
        }
        assert(parts.take(self.options@.len() as int) =~= parts);
        assert(out@ =~= old(out)@ + like_clause_sql(*self));
    }
}

impl CreateTableStmt {
    /// Appends `CREATE [TEMPORARY ]TABLE [IF NOT EXISTS ]<name>[ LIKE ..][ AS <query>]`.
    #[verifier::spinoff_prover]
    pub fn write_sql(&self, out: &mut String)
        requires
            create_table_ok(*self),
        ensures
            final(out)@ == old(out)@ + create_table_sql(*self),
    {
        proof {
            reveal(create_table_sql);
        }
        let ghost o = out@;
        push_str(out, "CREATE ");
        if self.temporary {
            push_str(out, "TEMPORARY ");
        }
        push_str(out, "TABLE ");
        if self.if_not_exists {
            push_str(out, "IF NOT EXISTS ");
        }
        let ghost a = table_head_sql(*self);
        assert(out@ =~= o + a);
        self.name.write_sql(out);
        let ghost b = name_text(self.name);
        let ghost o2 = out@;
        if let Some(l) = &self.like {
            push_str(out, " LIKE ");
            l.write_sql(out);
        }
        let ghost c = like_part_sql(self.like);
        assert(out@ =~= o2 + c);
        let ghost o3 = out@;
        if let Some(q) = &self.query {
            push_str(out, " AS ");
            write_query(q, out);
        }
        let ghost d = as_query_sql(self.query);
        assert(out@ =~= o3 + d);
        proof {
            lemma_concat_associative(o, a, b);
            lemma_concat_associative(o, a + b, c);
            lemma_concat_associative(o, a + b + c, d);
        }
    }
}

impl DropBehavior {
    /// Appends `CASCADE` or `RESTRICT`.
    pub fn write_sql(&self, out: &mut String)
        ensures
            final(out)@ == old(out)@ + drop_behavior_sql(*self),
    {
        match self {
            DropBehavior::Cascade => push_str(out, "CASCADE"),
            DropBehavior::Restrict => push_str(out, "RESTRICT"),
        }
    }
}

/// Appends ` CASCADE` / ` RESTRICT` when present.
fn write_opt_drop_behavior(b: &Option<DropBehavior>, out: &mut String)
    ensures
        final(out)@ == old(out)@ + opt_drop_behavior_sql(*b),
{
    if let Some(b) = b {
        push_str(out, " ");
        b.write_sql(out);
    }
    assert(out@ =~= old(out)@ + opt_drop_behavior_sql(*b));
}

impl AlterTableAction {
    /// Appends `<keyword>[IF EXISTS ]<name>[ <behavior>]` for the dropping
    /// actions.
    fn write_drop(
        keyword: &str,
        if_exists: bool,
        name: &ObjectName,
        drop_behavior: &Option<DropBehavior>,
        out: &mut String,
    )
        requires
            name_ok(*name),
        ensures
            final(out)@ == old(out)@ + keyword@ + text_if(if_exists, "IF EXISTS "@) + name_text(
                *name,
            ) + opt_drop_behavior_sql(*drop_behavior),
    {
        push_str(out, keyword);
        if if_exists {
            push_str(out, "IF EXISTS ");
        }
        name.write_sql(out);
        write_opt_drop_behavior(drop_behavior, out);
        assert(out@ =~= old(out)@ + keyword@ + text_if(if_exists, "IF EXISTS "@) + name_text(*name)
            + opt_drop_behavior_sql(*drop_behavior));
    }

    /// Appends the text of the action.
    #[verifier::spinoff_prover]
    pub fn write_sql(&self, out: &mut String)
        requires
            alter_table_action_ok(*self),
        ensures
            final(out)@ == old(out)@ + alter_table_action_sql(*self),
    {
        match self {
            AlterTableAction::AddColumn { if_not_exists, column } => {
                push_str(out, "ADD COLUMN ");
                if *if_not_exists {
                    push_str(out, "IF NOT EXISTS ");
                }
                column.write_sql(out);
                assert(out@ =~= old(out)@ + alter_table_action_sql(*self));
            },
            AlterTableAction::DropColumn { if_exists, name, drop_behavior } => {
                push_str(out, "DROP COLUMN ");
                if *if_exists {
                    push_str(out, "IF EXISTS ");
                }
                name.write_sql(out);
                write_opt_drop_behavior(drop_behavior, out);
                assert(out@ =~= old(out)@ + alter_table_action_sql(*self));
            },
            AlterTableAction::AddTableConstraint { constraint } => {
                push_str(out, "ADD ");
                constraint.write_sql(out);
                assert(out@ =~= old(out)@ + alter_table_action_sql(*self));
            },
            AlterTableAction::DropTableConstraint { if_exists, name, drop_behavior } => {
                Self::write_drop("DROP CONSTRAINT ", *if_exists, name, drop_behavior, out);
            },
        }
    }
}

impl AlterTableStmt {
    /// Appends `ALTER TABLE [IF EXISTS ]<name> <action>`.
    pub fn write_sql(&self, out: &mut String)
        requires
            name_ok(self.name),
            alter_table_action_ok(self.action),
        ensures
            final(out)@ == old(out)@ + alter_table_sql(*self),
    {
        proof {
            reveal(alter_table_sql);
        }
        push_str(out, "ALTER TABLE ");
        if self.if_exists {
            push_str(out, "IF EXISTS ");
        }
        self.name.write_sql(out);
        push_str(out, " ");
        self.action.write_sql(out);
        assert(out@ =~= old(out)@ + alter_table_sql(*self));
    }
}

impl ViewCheckOption {
    /// Appends `CASCADED` or `LOCAL`.
    pub fn write_sql(&self, out: &mut String)
        ensures
            final(out)@ == old(out)@ + view_check_option_sql(*self),
    {
        match self {
            ViewCheckOption::Cascaded => push_str(out, "CASCADED"),
            ViewCheckOption::Local => push_str(out, "LOCAL"),
        }
    }
}

impl CreateViewStmt {
    /// Appends the text of the statement.
    #[verifier::spinoff_prover]
    pub fn write_sql(&self, out: &mut String)
        requires
            create_view_ok(*self),
        ensures
            final(out)@ == old(out)@ + create_view_sql(*self),
    {
        proof {
            reveal(create_view_sql);
        }
        let ghost o = out@;
        push_str(out, "CREATE ");
        if self.recursive {
            push_str(out, "RECURSIVE ");
        }
        if self.or_replace {
            push_str(out, "OR REPLACE ");
        }
        push_str(out, " VIEW ");
        if self.if_not_exists {
            push_str(out, "IF NOT EXISTS ");
        }
        let ghost a = view_head_sql(*self);
        assert(out@ =~= o + a);
        let ghost o1 = out@;
        self.name.write_sql(out);
        push_str(out, " (");
        write_idents(&self.columns, out);
        push_str(out, ") AS ");
        let ghost b = view_name_columns_sql(*self);
        assert(out@ =~= o1 + b);
        let ghost o2 = out@;
        write_query(&self.query, out);
        let ghost c = query_text(*self.query);
        let ghost o3 = out@;
        if let Some(opt) = &self.check_option {
            push_str(out, " WITH ");
            opt.write_sql(out);
            push_str(out, " CHECK OPTION");
        }
        let ghost d = check_option_sql(self.check_option);
        assert(out@ =~= o3 + d);
        proof {
            lemma_concat_associative(o, a, b);
            lemma_concat_associative(o, a + b, c);
            lemma_concat_associative(o, a + b + c, d);
        }
    }
}

impl DomainConstraint {
    /// Appends `NULL`, `NOT NULL` or `CHECK (<expr>)`.
    pub fn write_sql(&self, out: &mut String)
        requires
            *self matches DomainConstraint::Check(e) ==> expr_can_write(*e),
        ensures
            final(out)@ == old(out)@ + domain_constraint_sql(*self),
    {
        match self {
            DomainConstraint::Null => push_str(out, "NULL"),
            DomainConstraint::NotNull => push_str(out, "NOT NULL"),
            DomainConstraint::Check(e) => {
                push_str(out, "CHECK (");
                write_expr(e, out);
                push_str(out, ")");
                assert(out@ =~= old(out)@ + domain_constraint_sql(*self));
            },
        }
    }
}

impl DomainConstraintDef {
    /// Appends `[CONSTRAINT <name> ]<constraint>`.
    pub fn write_sql(&self, out: &mut String)
        requires
            domain_constraint_def_ok(*self),
        ensures
            final(out)@ == old(out)@ + domain_constraint_def_sql(*self),
    {
        write_constraint_name(&self.name, out);
        self.constraint.write_sql(out);
        assert(out@ =~= old(out)@ + domain_constraint_def_sql(*self));
    }
}

impl CreateDomainStmt {
    /// Appends `CREATE DOMAIN <name> AS <type>[ <constraints>][ DEFAULT ..][ COLLATE ..]`.
    pub fn write_sql(&self, out: &mut String)
        requires
            create_domain_ok(*self),
        ensures
            final(out)@ == old(out)@ + create_domain_sql(*self),
    {
        proof {
            reveal(create_domain_sql);
        }
        push_str(out, "CREATE DOMAIN ");
        self.name.write_sql(out);
        push_str(out, " AS ");
        self.data_type.write_sql(out);
        let ghost a = out@;
        let ghost parts = domain_constraint_texts(self.constraints@);
        if self.constraints.len() > 0 {
            push_str(out, " ");
        }
        let ghost b = out@;
        let mut i: usize = 0;
        assert(parts.take(0) =~= Seq::<Seq<char>>::empty());
        while i < self.constraints.len()
            invariant
                i <= self.constraints@.len(),
                parts == domain_constraint_texts(self.constraints@),
                parts.len() == self.constraints@.len(),
                forall|j: int| 0 <= j < self.constraints@.len() ==> domain_constraint_def_ok(
                    #[trigger] self.constraints@[j],
                ),
                out@ == b + join_with(parts.take(i as int), " "@),
            decreases self.constraints@.len() - i,
        {
            proof {
                lemma_join_with_push(parts.take(i as int), " "@, parts[i as int]);
                assert(parts.take(i + 1) =~= parts.take(i as int).push(parts[i as int]));
            }
            if i > 0 {
                push_str(out, " ");
            }
            self.constraints[i].write_sql(out);
            i += 1;
        }
        assert(parts.take(self.constraints@.len() as int) =~= parts);
        assert(out@ =~= a + text_if(
            self.constraints@.len() > 0,
            " "@ + join_with(domain_constraint_texts(self.constraints@), " "@),
        ));
        write_default_collation(&self.default, &self.collation, out);
        assert(out@ =~= old(out)@ + create_domain_sql(*self));
    }
}

impl AlterDomainAction {
    /// Appends the text of the action.
    pub fn write_sql(&self, out: &mut String)
        requires
            alter_domain_action_ok(*self),
        ensures
            final(out)@ == old(out)@ + alter_domain_action_sql(*self),
    {
        match self {
            AlterDomainAction::SetDefault(e) => {
                push_str(out, "SET DEFAULT ");
                write_expr(e, out);
            },
            AlterDomainAction::DropDefault => push_str(out, "DROP DEFAULT"),
            AlterDomainAction::AddConstraint(c) => {
                push_str(out, "ADD ");
                c.write_sql(out);
            },
            AlterDomainAction::DropConstraint(n) => {
                push_str(out, "DROP CONSTRAINT ");
                n.write_sql(out);
            },
        }
        assert(out@ =~= old(out)@ + alter_domain_action_sql(*self));
    }
}

impl AlterDomainStmt {
    /// Appends `ALTER DOMAIN <name> <action>`.
    pub fn write_sql(&self, out: &mut String)
        requires
            name_ok(self.name),
            alter_domain_action_ok(self.action),
        ensures
            final(out)@ == old(out)@ + alter_domain_sql(*self),
    {
        proof {
            reveal(alter_domain_sql);
        }
        push_str(out, "ALTER DOMAIN ");
        self.name.write_sql(out);
        push_str(out, " ");
        self.action.write_sql(out);
        assert(out@ =~= old(out)@ + alter_domain_sql(*self));
    }
}

impl TypeAttributeDef {
    /// Appends `<name> <type>[ DEFAULT ..][ COLLATE ..]`.
    pub fn write_sql(&self, out: &mut String)
        requires
            type_attribute_ok(*self),
        ensures
            final(out)@ == old(out)@ + type_attribute_sql(*self),
    {
        self.name.write_sql(out);
        push_str(out, " ");
        self.data_type.write_sql(out);
        write_default_collation(&self.default, &self.collation, out);
        assert(out@ =~= old(out)@ + type_attribute_sql(*self));
    }
}

impl TypeDef {
    /// Appends a data type, or attributes separated by `, `.
    pub fn write_sql(&self, out: &mut String)
        requires
            type_def_ok(*self),
        ensures
            final(out)@ == old(out)@ + type_def_sql(*self),
    {
        match self {
            TypeDef::DataType(t) => t.write_sql(out),
            TypeDef::MemberList(attrs) => {
                let ghost a = out@;
                let ghost parts = type_attribute_texts(attrs@);
                let mut i: usize = 0;
                assert(parts.take(0) =~= Seq::<Seq<char>>::empty());
                while i < attrs.len()
                    invariant
                        i <= attrs@.len(),
                        parts == type_attribute_texts(attrs@),
                        parts.len() == attrs@.len(),
                        forall|j: int| 0 <= j < attrs@.len() ==> type_attribute_ok(#[trigger] attrs@[j]),
                        out@ == a + join_with(parts.take(i as int), ", "@),
                    decreases attrs@.len() - i,
                {
                    proof {
                        lemma_join_with_push(parts.take(i as int), ", "@, parts[i as int]);
                        assert(parts.take(i + 1) =~= parts.take(i as int).push(parts[i as int]));
                    }
                    if i > 0 {
                        push_str(out, ", ");
                    }
                    attrs[i].write_sql(out);
                    i += 1;
                }
                assert(parts.take(attrs@.len() as int) =~= parts);
            },
        }
    }
}

impl CreateTypeStmt {
    /// Appends `CREATE TYPE <name>[ AS <definition>]`.
    pub fn write_sql(&self, out: &mut String)
        requires
            name_ok(self.name),
            self.definition matches Some(d) ==> type_def_ok(d),
        ensures
            final(out)@ == old(out)@ + create_type_sql(*self),
    {
        proof {
            reveal(create_type_sql);
        }
        push_str(out, "CREATE TYPE ");
        self.name.write_sql(out);
        if let Some(d) = &self.definition {
            push_str(out, " AS ");
            d.write_sql(out);
        }
        assert(out@ =~= old(out)@ + create_type_sql(*self));
    }
}

impl AlterTypeAction {
    /// Appends `ADD ATTRIBUTE <attribute>` or `DROP ATTRIBUTE <name>`.
    pub fn write_sql(&self, out: &mut String)
        requires
            alter_type_action_ok(*self),
        ensures
            final(out)@ == old(out)@ + alter_type_action_sql(*self),
    {
        match self {
            AlterTypeAction::AddAttribute(a) => {
                push_str(out, "ADD ATTRIBUTE ");
                a.write_sql(out);
            },
            AlterTypeAction::DropAttribute(n) => {
                push_str(out, "DROP ATTRIBUTE ");
                n.write_sql(out);
            },
        }
        assert(out@ =~= old(out)@ + alter_type_action_sql(*self));
    }
}

impl AlterTypeStmt {
    /// Appends `ALTER TYPE <name> <action>`.
    pub fn write_sql(&self, out: &mut String)
        requires
            name_ok(self.name),
            alter_type_action_ok(self.action),
        ensures
            final(out)@ == old(out)@ + alter_type_sql(*self),
    {
        proof {
            reveal(alter_type_sql);
        }
        push_str(out, "ALTER TYPE ");
        self.name.write_sql(out);
        push_str(out, " ");
        self.action.write_sql(out);
        assert(out@ =~= old(out)@ + alter_type_sql(*self));
    }
}

impl CreateIndexStmt {
    /// Appends `CREATE [UNIQUE ]INDEX [IF NOT EXISTS ]<index> ON <table> (<columns>)`.
    pub fn write_sql(&self, out: &mut String)
        requires
            create_index_ok(*self),
        ensures
            final(out)@ == old(out)@ + create_index_sql(*self),
    {
        proof {
            reveal(create_index_sql);
        }
        push_str(out, "CREATE ");
        if self.unique {
            push_str(out, "UNIQUE ");
        }
        push_str(out, "INDEX ");
        if self.if_not_exists {
            push_str(out, "IF NOT EXISTS ");
        }
        self.index.write_sql(out);
        push_str(out, " ON ");
        self.table.write_sql(out);
        push_str(out, " (");
        write_order_bys(&self.columns, out);
        push_str(out, ")");
        assert(out@ =~= old(out)@ + create_index_sql(*self));
    }
}

impl ObjectType {
    /// Appends the kind of object.
    pub fn write_sql(&self, out: &mut String)
        ensures
            final(out)@ == old(out)@ + object_type_sql(*self),
    {
        match self {
            ObjectType::Schema => push_str(out, "SCHEMA"),
            ObjectType::Table => push_str(out, "TABLE"),
            ObjectType::View => push_str(out, "VIEW"),
            ObjectType::Domain => push_str(out, "DOMAIN"),
            ObjectType::Type => push_str(out, "TYPE"),
            ObjectType::Database => push_str(out, "DATABASE"),
            ObjectType::Index => push_str(out, "INDEX"),
        }
    }
}

impl DropStmt {
    /// Appends `DROP <type> [IF EXISTS ]<names>[ <behavior>]`.
    pub fn write_sql(&self, out: &mut String)
        requires
            object_names_ok(object_names_view(self.name@)),
        ensures
            final(out)@ == old(out)@ + drop_sql(*self),
    {
        proof {
            reveal(drop_sql);
        }
        push_str(out, "DROP ");
        self.ty.write_sql(out);
        push_str(out, " ");
        if self.if_exists {
            push_str(out, "IF EXISTS ");
        }
        write_object_names(&self.name, out);
        write_opt_drop_behavior(&self.behavior, out);
        assert(out@ =~= old(out)@ + drop_sql(*self));
    }

    /// The text of the statement.
    pub fn to_string(&self) -> (s: String)
        requires
            object_names_ok(object_names_view(self.name@)),
        ensures
            s@ == drop_sql(*self),
    {
        let mut s = String::new();
        self.write_sql(&mut s);
        s
    }
}

} // verus!
