use usql::ast::statement::ddl::{
    AlterDomainAction, AlterDomainStmt, AlterTypeAction, DropBehavior, DropStmt, ObjectType,
    TypeDef, ViewCheckOption,
};
use usql::ast::expression::Expr;
use usql::ast::types::Literal;
use usql::ast::types::{Ident, ObjectName};
use usql::dialect::{AnsiDialect, MysqlDialect, PostgresDialect};
use usql::parser::{Parser, ParserError};

#[test]
fn drop_table_if_exists_cascade() -> Result<(), ParserError> {
    let dialect = MysqlDialect::default();
    let stmt = Parser::new_with_sql(&dialect, "DROP TABLE IF EXISTS t1, s.t2 CASCADE")?
        .parse_drop_stmt()?;
    assert_eq!(
        stmt,
        DropStmt {
            if_exists: true,
            ty: ObjectType::Table,
            name: vec![ObjectName::new(vec!["t1"]), ObjectName::new(vec!["s", "t2"])],
            behavior: Some(DropBehavior::Cascade),
        }
    );
    assert_eq!(stmt.to_string(), "DROP TABLE IF EXISTS t1, s.t2 CASCADE");
    Ok(())
}

#[test]
fn drop_view_restrict() -> Result<(), ParserError> {
    let dialect = AnsiDialect::default();
    let stmt = Parser::new_with_sql(&dialect, "DROP VIEW v RESTRICT")?.parse_drop_stmt()?;
    assert_eq!(stmt.ty, ObjectType::View);
    assert!(!stmt.if_exists);
    assert_eq!(stmt.behavior, Some(DropBehavior::Restrict));
    assert_eq!(stmt.to_string(), "DROP VIEW v RESTRICT");
    Ok(())
}

#[test]
fn drop_index_needs_a_dialect_with_index() -> Result<(), ParserError> {
    let ansi = AnsiDialect::default();
    assert!(Parser::new_with_sql(&ansi, "DROP INDEX i")?.parse_drop_stmt().is_err());
    let postgres = PostgresDialect::default();
    let stmt = Parser::new_with_sql(&postgres, "DROP INDEX i")?.parse_drop_stmt()?;
    assert_eq!(stmt.ty, ObjectType::Index);
    assert_eq!(stmt.to_string(), "DROP INDEX i");
    Ok(())
}

#[test]
fn drop_without_object_type_fails() -> Result<(), ParserError> {
    let dialect = AnsiDialect::default();
    let err = Parser::new_with_sql(&dialect, "DROP t")?.parse_drop_stmt();
    assert!(matches!(err, Err(ParserError::ParseError(_))));
    let err = Parser::new_with_sql(&dialect, "SELECT 1")?.parse_drop_stmt();
    assert!(err.is_err());
    Ok(())
}

#[test]
fn alter_domain_drop_default() -> Result<(), ParserError> {
    let dialect = AnsiDialect::default();
    let stmt = Parser::new_with_sql(&dialect, "ALTER DOMAIN d DROP DEFAULT")?
        .parse_alter_domain_stmt()?;
    assert_eq!(
        stmt,
        AlterDomainStmt {
            name: ObjectName::new(vec!["d"]),
            action: AlterDomainAction::DropDefault,
        }
    );
    let mut text = String::new();
    stmt.write_sql(&mut text);
    assert_eq!(text, "ALTER DOMAIN d DROP DEFAULT");
    Ok(())
}

#[test]
fn alter_domain_drop_constraint() -> Result<(), ParserError> {
    let dialect = AnsiDialect::default();
    let stmt = Parser::new_with_sql(&dialect, "ALTER DOMAIN d DROP CONSTRAINT chk")?
        .parse_alter_domain_stmt()?;
    assert_eq!(stmt.action, AlterDomainAction::DropConstraint(Ident::new("chk")));
    let mut text = String::new();
    stmt.write_sql(&mut text);
    assert_eq!(text, "ALTER DOMAIN d DROP CONSTRAINT chk");
    Ok(())
}

#[test]
fn alter_domain_unknown_action_fails() -> Result<(), ParserError> {
    let dialect = AnsiDialect::default();
    let r = Parser::new_with_sql(&dialect, "ALTER DOMAIN d RENAME")?.parse_alter_domain_stmt();
    assert!(r.is_err());
    Ok(())
}

#[test]
fn create_view_with_check_option() -> Result<(), ParserError> {
    let dialect = AnsiDialect::default();
    let stmt = Parser::new_with_sql(
        &dialect,
        "CREATE VIEW v AS SELECT col1 FROM tbl WITH LOCAL CHECK OPTION",
    )?
    .parse_create_view_stmt()?;
    assert!(!stmt.or_replace);
    assert!(!stmt.recursive);
    assert!(!stmt.if_not_exists);
    assert_eq!(stmt.name, ObjectName::new(vec!["v"]));
    assert_eq!(stmt.check_option, Some(ViewCheckOption::Local));
    let mut text = String::new();
    stmt.write_sql(&mut text);
    assert_eq!(text, "CREATE  VIEW v () AS SELECT col1 FROM tbl WITH LOCAL CHECK OPTION");
    Ok(())
}

#[test]
fn create_table_with_columns() -> Result<(), ParserError> {
    let dialect = AnsiDialect::default();
    let stmt = Parser::new_with_sql(
        &dialect,
        "CREATE TABLE tbl (col1 INT NOT NULL, col2 VARCHAR(10), PRIMARY KEY (col1))",
    )?
    .parse_create_table_stmt()?;
    assert!(!stmt.temporary);
    assert_eq!(stmt.name, ObjectName::new(vec!["tbl"]));
    assert_eq!(stmt.columns.len(), 2);
    assert_eq!(stmt.columns[0].name, Ident::new("col1"));
    assert_eq!(stmt.columns[0].constraints.len(), 1);
    assert_eq!(stmt.columns[1].name, Ident::new("col2"));
    assert_eq!(stmt.constraints.len(), 1);
    let mut text = String::new();
    stmt.write_sql(&mut text);
    assert_eq!(text, "CREATE TABLE tbl");
    Ok(())
}

#[test]
fn create_table_needs_create() -> Result<(), ParserError> {
    let dialect = AnsiDialect::default();
    let r = Parser::new_with_sql(&dialect, "TABLE t (a INT)")?.parse_create_table_stmt();
    assert!(r.is_err());
    Ok(())
}

#[test]
fn create_unique_index() -> Result<(), ParserError> {
    let dialect = PostgresDialect::default();
    let stmt = Parser::new_with_sql(&dialect, "CREATE UNIQUE INDEX idx ON tbl (col1 DESC, col2)")?
        .parse_create_index_stmt()?;
    assert!(stmt.unique);
    assert!(!stmt.if_not_exists);
    assert_eq!(stmt.index, ObjectName::new(vec!["idx"]));
    assert_eq!(stmt.table, ObjectName::new(vec!["tbl"]));
    assert_eq!(stmt.columns.len(), 2);
    let mut text = String::new();
    stmt.write_sql(&mut text);
    assert_eq!(text, "CREATE UNIQUE INDEX idx ON tbl (ORDER BY col1 DESC, ORDER BY col2)");
    Ok(())
}

#[test]
fn create_index_needs_columns() -> Result<(), ParserError> {
    let dialect = PostgresDialect::default();
    let r = Parser::new_with_sql(&dialect, "CREATE INDEX i ON t ()")?.parse_create_index_stmt();
    assert!(r.is_err());
    Ok(())
}

#[test]
fn create_schema_with_owner() -> Result<(), ParserError> {
    let dialect = MysqlDialect::default();
    let stmt = Parser::new_with_sql(&dialect, "CREATE SCHEMA IF NOT EXISTS s AUTHORIZATION joe")?
        .parse_create_schema_stmt()?;
    assert!(stmt.if_not_exists);
    assert_eq!(stmt.name, Some(ObjectName::new(vec!["s"])));
    assert_eq!(stmt.authorization, Some(Ident::new("joe")));
    let stmt = Parser::new_with_sql(&dialect, "CREATE SCHEMA AUTHORIZATION joe")?
        .parse_create_schema_stmt()?;
    assert!(!stmt.if_not_exists);
    assert_eq!(stmt.name, None);
    assert!(Parser::new_with_sql(&dialect, "CREATE SCHEMA s AUTHORIZATION")?
        .parse_create_schema_stmt()
        .is_err());
    Ok(())
}

#[test]
fn create_type_with_attributes() -> Result<(), ParserError> {
    let dialect = AnsiDialect::default();
    let stmt = Parser::new_with_sql(&dialect, "CREATE TYPE typ AS (col1 INT DEFAULT 1, col2 VARCHAR(5))")?
        .parse_create_type_stmt()?;
    assert_eq!(stmt.name, ObjectName::new(vec!["typ"]));
    match stmt.definition {
        Some(TypeDef::MemberList(attrs)) => {
            assert_eq!(attrs.len(), 2);
            assert_eq!(attrs[0].name, Ident::new("col1"));
            assert_eq!(attrs[0].default, Some(Expr::Literal(Literal::Number("1".into()))));
            assert_eq!(attrs[1].name, Ident::new("col2"));
            assert_eq!(attrs[1].default, None);
        },
        other => panic!("unexpected definition {:?}", other),
    }
    Ok(())
}

#[test]
fn create_type_as_data_type() -> Result<(), ParserError> {
    let dialect = AnsiDialect::default();
    let stmt = Parser::new_with_sql(&dialect, "CREATE TYPE t AS INT")?.parse_create_type_stmt()?;
    assert!(matches!(stmt.definition, Some(TypeDef::DataType(_))));
    let stmt = Parser::new_with_sql(&dialect, "CREATE TYPE t")?.parse_create_type_stmt()?;
    assert_eq!(stmt.definition, None);
    Ok(())
}

#[test]
fn alter_type_add_and_drop_attribute() -> Result<(), ParserError> {
    let dialect = AnsiDialect::default();
    let stmt = Parser::new_with_sql(&dialect, "ALTER TYPE typ DROP ATTRIBUTE col1")?
        .parse_alter_type_stmt()?;
    assert_eq!(stmt.action, AlterTypeAction::DropAttribute(Ident::new("col1")));
    let stmt = Parser::new_with_sql(&dialect, "ALTER TYPE typ ADD ATTRIBUTE col2 INT")?
        .parse_alter_type_stmt()?;
    assert!(matches!(stmt.action, AlterTypeAction::AddAttribute(_)));
    assert!(Parser::new_with_sql(&dialect, "ALTER TYPE typ RENAME col1")?
        .parse_alter_type_stmt()
        .is_err());
    Ok(())
}

#[test]
fn drop_database() -> Result<(), ParserError> {
    let dialect = PostgresDialect::default();
    let stmt = Parser::new_with_sql(&dialect, "DROP DATABASE d")?.parse_drop_stmt()?;
    assert_eq!(stmt.ty, ObjectType::Database);
    assert_eq!(stmt.to_string(), "DROP DATABASE d");
    Ok(())
}

#[test]
fn drop_type_error_lists_database() -> Result<(), ParserError> {
    let dialect = AnsiDialect::default();
    let err = Parser::new_with_sql(&dialect, "table1")?.parse_drop_type();
    assert_eq!(
        err,
        Err(ParserError::ParseError(
            "Expected: SCHEMA, TABLE, VIEW, DOMAIN, TYPE, DATABASE or INDEX after DROP, found: table1"
                .to_string()
        ))
    );
    Ok(())
}
