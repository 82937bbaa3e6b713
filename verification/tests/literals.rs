use usql::ast::types::{DateTimeField, Interval, Literal};
use usql::dialect::AnsiDialect;
use usql::parser::{Parser, ParserError};

fn literal(sql: &str) -> Result<Literal, ParserError> {
    let dialect = AnsiDialect::default();
    Parser::new_with_sql(&dialect, sql)?.parse_literal()
}

#[test]
fn interval_with_fields_and_precision() -> Result<(), ParserError> {
    assert_eq!(
        literal("INTERVAL '1:1:1.1' HOUR TO SECOND(5)")?,
        Literal::Interval(Interval {
            value: "1:1:1.1".into(),
            leading_field: Some(DateTimeField::Hour),
            leading_precision: None,
            tailing_field: Some(DateTimeField::Second),
            fractional_seconds_precision: Some(5),
        })
    );
    Ok(())
}

#[test]
fn interval_with_leading_precision_and_scale() -> Result<(), ParserError> {
    assert_eq!(
        literal("INTERVAL '1.1' SECOND(2, 2)")?,
        Literal::Interval(Interval {
            value: "1.1".into(),
            leading_field: Some(DateTimeField::Second),
            leading_precision: Some(2),
            tailing_field: None,
            fractional_seconds_precision: Some(2),
        })
    );
    Ok(())
}

#[test]
fn interval_without_fields() -> Result<(), ParserError> {
    assert_eq!(
        literal("INTERVAL '1'")?,
        Literal::Interval(Interval {
            value: "1".into(),
            leading_field: None,
            leading_precision: None,
            tailing_field: None,
            fractional_seconds_precision: None,
        })
    );
    Ok(())
}

#[test]
fn interval_needs_a_string_and_a_field_after_to() -> Result<(), ParserError> {
    assert!(literal("INTERVAL 1").is_err());
    assert!(literal("INTERVAL '1' DAY TO").is_err());
    assert!(literal("INTERVAL '1' DAY (").is_err());
    Ok(())
}

#[test]
fn date_and_boolean_literals() -> Result<(), ParserError> {
    assert_eq!(literal("TRUE")?, Literal::Boolean(true));
    assert_eq!(literal("NULL")?, Literal::Null);
    assert!(matches!(literal("DATE '2021-11-29'")?, Literal::Date(_)));
    assert!(literal("DATE 5").is_err());
    Ok(())
}
