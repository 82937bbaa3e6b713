use usql::ast::table::{WindowFrame, WindowFrameBound, WindowFrameExclusion, WindowFrameUnits};
use usql::ast::types::{Date, DateTimeField, Interval, Literal, Time, Timestamp};

#[test]
fn function_window_frame_display() {
    // With ORDER BY: the default frame includes rows from the partition start
    // through the current row, including all peers of the current row.
    let frame = WindowFrame {
        units: WindowFrameUnits::Range,
        start_bound: WindowFrameBound::Preceding(None),
        end_bound: Some(WindowFrameBound::CurrentRow),
        exclusion: Some(WindowFrameExclusion::NoOthers),
    };
    assert_eq!(
        frame.to_string(),
        "RANGE BETWEEN UNBOUNDED PRECEDING AND CURRENT ROW EXCLUDE NO OTHERS"
    );

    // Without ORDER BY: the default frame includes all partition rows.
    let frame = WindowFrame {
        units: WindowFrameUnits::Range,
        start_bound: WindowFrameBound::Preceding(None),
        end_bound: Some(WindowFrameBound::Following(None)),
        exclusion: Some(WindowFrameExclusion::NoOthers),
    };
    assert_eq!(
        frame.to_string(),
        "RANGE BETWEEN UNBOUNDED PRECEDING AND UNBOUNDED FOLLOWING EXCLUDE NO OTHERS"
    );

    let frame = WindowFrame {
        units: WindowFrameUnits::Range,
        start_bound: WindowFrameBound::Preceding(None),
        end_bound: None,
        exclusion: None,
    };
    assert_eq!(frame.to_string(), "RANGE UNBOUNDED PRECEDING");

    let frame = WindowFrame {
        units: WindowFrameUnits::Rows,
        start_bound: WindowFrameBound::Preceding(Some(5)),
        end_bound: Some(WindowFrameBound::CurrentRow),
        exclusion: None,
    };
    assert_eq!(frame.to_string(), "ROWS BETWEEN 5 PRECEDING AND CURRENT ROW");
}

#[test]
fn table_window_frame_display() {
    // With ORDER BY: the default frame includes rows from the partition start
    // through the current row, including all peers of the current row.
    let frame = WindowFrame {
        units: WindowFrameUnits::Range,
        start_bound: WindowFrameBound::Preceding(None),
        end_bound: Some(WindowFrameBound::CurrentRow),
        exclusion: Some(WindowFrameExclusion::NoOthers),
    };
    assert_eq!(
        frame.to_string(),
        "RANGE BETWEEN UNBOUNDED PRECEDING AND CURRENT ROW EXCLUDE NO OTHERS"
    );

    // Without ORDER BY: the default frame includes all partition rows.
    let frame = WindowFrame {
        units: WindowFrameUnits::Range,
        start_bound: WindowFrameBound::Preceding(None),
        end_bound: Some(WindowFrameBound::Following(None)),
        exclusion: Some(WindowFrameExclusion::NoOthers),
    };
    assert_eq!(
        frame.to_string(),
        "RANGE BETWEEN UNBOUNDED PRECEDING AND UNBOUNDED FOLLOWING EXCLUDE NO OTHERS"
    );

    let frame = WindowFrame {
        units: WindowFrameUnits::Range,
        start_bound: WindowFrameBound::Preceding(None),
        end_bound: None,
        exclusion: None,
    };
    assert_eq!(frame.to_string(), "RANGE UNBOUNDED PRECEDING");

    let frame = WindowFrame {
        units: WindowFrameUnits::Rows,
        start_bound: WindowFrameBound::Preceding(Some(5)),
        end_bound: Some(WindowFrameBound::CurrentRow),
        exclusion: None,
    };
    assert_eq!(frame.to_string(), "ROWS BETWEEN 5 PRECEDING AND CURRENT ROW");
}

#[test]
fn string_literal_display() {
    let string = Literal::String("hello".into());
    assert_eq!(string.to_string(), "'hello'");

    let national = Literal::NationalString("你好".into());
    assert_eq!(national.to_string(), "N'你好'");

    let bit = Literal::BitString("010101".into());
    assert_eq!(bit.to_string(), "B'010101'");

    let hex = Literal::HexString("1234567890abcdf".into());
    assert_eq!(hex.to_string(), "X'1234567890abcdf'");
}

#[test]
fn datetime_literal_display() {
    let date = Date { value: "2021-11-29".into() };
    assert_eq!(Literal::Date(date).to_string(), "DATE '2021-11-29'");

    let time = Time { value: "12:34:56".into() };
    assert_eq!(Literal::Time(time).to_string(), "TIME '12:34:56'");
    let time = Time { value: "12:34:56.789".into() };
    assert_eq!(Literal::Time(time).to_string(), "TIME '12:34:56.789'");
    let time = Time { value: "12:34:56.789+08:30".into() };
    assert_eq!(Literal::Time(time).to_string(), "TIME '12:34:56.789+08:30'");

    let timestamp = Timestamp { value: "2021-11-29 12:34:56.789+08:30".into() };
    assert_eq!(
        Literal::Timestamp(timestamp).to_string(),
        "TIMESTAMP '2021-11-29 12:34:56.789+08:30'"
    );
}

#[test]
fn interval_literal_display() {
    let interval = Interval {
        value: "1-1".into(),
        leading_field: Some(DateTimeField::Year),
        leading_precision: None,
        tailing_field: Some(DateTimeField::Month),
        fractional_seconds_precision: None,
    };
    assert_eq!(Literal::Interval(interval).to_string(), "INTERVAL '1-1' YEAR TO MONTH");

    let interval = Interval {
        value: "1:1:1.1".into(),
        leading_field: Some(DateTimeField::Hour),
        leading_precision: None,
        tailing_field: Some(DateTimeField::Second),
        fractional_seconds_precision: Some(5),
    };
    assert_eq!(Literal::Interval(interval).to_string(), "INTERVAL '1:1:1.1' HOUR TO SECOND(5)");

    let interval = Interval {
        value: "1".into(),
        leading_field: Some(DateTimeField::Day),
        leading_precision: None,
        tailing_field: None,
        fractional_seconds_precision: None,
    };
    assert_eq!(Literal::Interval(interval).to_string(), "INTERVAL '1' DAY");

    let interval = Interval {
        value: "1.1".into(),
        leading_field: Some(DateTimeField::Second),
        leading_precision: Some(2),
        tailing_field: None,
        fractional_seconds_precision: Some(2),
    };
    assert_eq!(Literal::Interval(interval).to_string(), "INTERVAL '1.1' SECOND(2, 2)");

    let interval = Interval {
        value: "1.1".into(),
        leading_field: Some(DateTimeField::Second),
        leading_precision: Some(2),
        tailing_field: None,
        fractional_seconds_precision: None,
    };
    assert_eq!(Literal::Interval(interval).to_string(), "INTERVAL '1.1' SECOND(2)");

    let interval = Interval {
        value: "1.1".into(),
        leading_field: Some(DateTimeField::Second),
        leading_precision: None,
        tailing_field: None,
        fractional_seconds_precision: None,
    };
    assert_eq!(Literal::Interval(interval).to_string(), "INTERVAL '1.1' SECOND");
}
