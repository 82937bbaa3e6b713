//! SQL types: identifiers, object names, literals and data types.
use vstd::prelude::*;

use crate::ast::text::{
    data_type_sql, date_time_field_sql, escape_quotes, interval_sql, literal_sql, object_name_sql,
    optional_length_sql,
};
use crate::ast::valid::{data_type_ok, idents_ok, interval_ok, literal_ok};
use crate::text::{chars_of, push_char, push_decimal, push_str};
pub use crate::token::{Ident, IdentView};
use crate::token::spec_ident_sql;

verus! {

/// A name of a table, view, custom type, etc., possibly multi-part, e.g.
/// `db.schema.obj`.
#[derive(Clone, Debug, PartialEq, Eq, Hash)]
pub struct ObjectName(pub Vec<Ident>);

/// SQL literal values such as null, boolean, number, string, datetime and
/// interval.
#[derive(Clone, Debug, PartialEq, Eq, Hash)]
pub enum Literal {
    /// `NULL` value.
    Null,
    /// Boolean literal, `TRUE` or `FALSE`.
    Boolean(bool),
    /// Numeric literal.
    Number(String),
    /// String literal (single quoted), e.g. `'string'`.
    String(String),
    /// National string literal, e.g. `N'string'`.
    NationalString(String),
    /// Hex string literal, e.g. `X'0123456789abcdef'`.
    HexString(String),
    /// Bit string literal, e.g. `B'010101'`.
    BitString(String),
    /// `DATE` literal.
    Date(Date),
    /// `TIME` literal.
    Time(Time),
    /// `TIMESTAMP` literal.
    Timestamp(Timestamp),
    /// `INTERVAL` literal.
    Interval(Interval),
}

/// Date literal, `DATE '<years>-<months>-<days>'`; the value is not
/// validated.
#[derive(Clone, Debug, PartialEq, Eq, Hash)]
pub struct Date {
    /// The raw `<value>` that was present in `DATE '<value>'`.
    pub value: String,
}

/// Time literal, `TIME '<hours>:<minutes>:<seconds>[.<fraction>][<zone>]'`;
/// the value is not validated.
#[derive(Clone, Debug, PartialEq, Eq, Hash)]
pub struct Time {
    /// The raw `<value>` that was present in `TIME '<value>'`.
    pub value: String,
}

/// Timestamp literal, `TIMESTAMP '<date> <time>'`; the value is not
/// validated.
#[derive(Clone, Debug, PartialEq, Eq, Hash)]
pub struct Timestamp {
    /// The raw `<value>` that was present in `TIMESTAMP '<value>'`.
    pub value: String,
}

/// `INTERVAL` literal, e.g. `INTERVAL '123:45.67' MINUTE(3) TO SECOND(2)`.
/// Neither the value nor the order of the fields is validated.
#[derive(Clone, Debug, PartialEq, Eq, Hash)]
pub struct Interval {
    /// The raw `<value>` that was present in `INTERVAL '<value>'`.
    pub value: String,
    /// The unit of the first field in the interval.
    pub leading_field: Option<DateTimeField>,
    /// How many digits the leading field is allowed to occupy.
    pub leading_precision: Option<u64>,
    /// The unit of the last field, if the interval has a `TO` part.
    pub tailing_field: Option<DateTimeField>,
    /// The fractional precision of the seconds, when the last (or the only)
    /// field is `SECOND`.
    pub fractional_seconds_precision: Option<u64>,
}

/// The leading or tailing field of an interval.
#[derive(Copy, Clone, Debug, PartialEq, Eq, Hash, Structural)]
pub enum DateTimeField {
    /// `YEAR`
    Year,
    /// `MONTH`
    Month,
    /// `DAY`
    Day,
    /// `HOUR`
    Hour,
    /// `MINUTE`
    Minute,
    /// `SECOND`
    Second,
}

/// SQL data types.
#[derive(Debug, PartialEq, Eq)]
pub enum DataType {
    /// `BOOLEAN`
    Boolean,
    /// Tiny integer with optional display width, e.g. `TINYINT(3)`.
    TinyInt(Option<u64>),
    /// Small integer with optional display width, e.g. `SMALLINT(5)`.
    SmallInt(Option<u64>),
    /// Integer with optional display width, e.g. `INT(10)`.
    Int(Option<u64>),
    /// Big integer with optional display width, e.g. `BIGINT(19)`.
    BigInt(Option<u64>),
    /// Numeric type with optional precision and scale, e.g. `NUMERIC(10,2)`.
    Numeric {
        /// The total count of significant digits.
        precision: Option<u64>,
        /// The count of decimal digits in the fractional part.
        scale: Option<u64>,
    },
    /// Decimal type with optional precision and scale, e.g. `DECIMAL(10,2)`.
    Decimal {
        /// The total count of significant digits.
        precision: Option<u64>,
        /// The count of decimal digits in the fractional part.
        scale: Option<u64>,
    },
    /// Floating point with optional precision, e.g. `FLOAT(8)`.
    Float(Option<u64>),
    /// `REAL`
    Real,
    /// `DOUBLE PRECISION`
    Double,
    /// Fixed-length character type, e.g. `CHAR(10)`.
    Char(Option<u64>),
    /// Variable-length character type, e.g. `VARCHAR(10)`.
    Varchar(Option<u64>),
    /// Character large object, e.g. `CLOB(1000)`.
    Clob(u64),
    /// `TEXT`
    Text,
    /// Fixed-length binary type, e.g. `BINARY(10)`.
    Binary(u64),
    /// Variable-length binary type, e.g. `VARBINARY(10)`.
    Varbinary(u64),
    /// Binary large object, e.g. `BLOB(1000)`.
    Blob(u64),
    /// `BYTEA`
    Bytea,
    /// `DATE`
    Date,
    /// `TIME`
    Time,
    /// `TIMESTAMP`
    Timestamp,
    /// `INTERVAL`
    Interval,
    /// Array of the element type, e.g. `INT[]`.
    Array(Box<DataType>),
}

/// The abstract value of an interval literal.
pub struct IntervalView {
    /// The characters of the value.
    pub value: Seq<char>,
    /// The leading field.
    pub leading_field: Option<DateTimeField>,
    /// The leading precision.
    pub leading_precision: Option<u64>,
    /// The tailing field.
    pub tailing_field: Option<DateTimeField>,
    /// The fractional seconds precision.
    pub fractional_seconds_precision: Option<u64>,
}

/// The abstract value of a literal.
pub enum LiteralView {
    /// `NULL`
    Null,
    /// `TRUE` or `FALSE`
    Boolean(bool),
    /// A number.
    Number(Seq<char>),
    /// A string.
    String(Seq<char>),
    /// A national string.
    NationalString(Seq<char>),
    /// A hex string.
    HexString(Seq<char>),
    /// A bit string.
    BitString(Seq<char>),
    /// A date.
    Date(Seq<char>),
    /// A time.
    Time(Seq<char>),
    /// A timestamp.
    Timestamp(Seq<char>),
    /// An interval.
    Interval(IntervalView),
}

impl View for Interval {
    type V = IntervalView;

    open spec fn view(&self) -> IntervalView {
        IntervalView {
            value: self.value@,
            leading_field: self.leading_field,
            leading_precision: self.leading_precision,
            tailing_field: self.tailing_field,
            fractional_seconds_precision: self.fractional_seconds_precision,
        }
    }
}

impl View for Literal {
    type V = LiteralView;

    open spec fn view(&self) -> LiteralView {
        match self {
            Literal::Null => LiteralView::Null,
            Literal::Boolean(b) => LiteralView::Boolean(*b),
            Literal::Number(s) => LiteralView::Number(s@),
            Literal::String(s) => LiteralView::String(s@),
            Literal::NationalString(s) => LiteralView::NationalString(s@),
            Literal::HexString(s) => LiteralView::HexString(s@),
            Literal::BitString(s) => LiteralView::BitString(s@),
            Literal::Date(d) => LiteralView::Date(d.value@),
            Literal::Time(t) => LiteralView::Time(t.value@),
            Literal::Timestamp(t) => LiteralView::Timestamp(t.value@),
            Literal::Interval(i) => LiteralView::Interval(i@),
        }
    }
}

/// The abstract values of a sequence of identifiers.
pub open spec fn idents_view(s: Seq<Ident>) -> Seq<IdentView> {
    s.map_values(|i: Ident| i@)
}

impl View for ObjectName {
    type V = Seq<IdentView>;

    open spec fn view(&self) -> Seq<IdentView> {
        idents_view(self.0@)
    }
}

/// The abstract values of a sequence of object names.
pub open spec fn object_names_view(s: Seq<ObjectName>) -> Seq<Seq<IdentView>> {
    s.map_values(|o: ObjectName| o@)
}

impl ObjectName {
    /// Creates an object name of unquoted parts.
    pub fn new(parts: Vec<&str>) -> (o: ObjectName)
        ensures
            o@.len() == parts@.len(),
            forall|i: int| 0 <= i < parts@.len() ==> #[trigger] o@[i] == (IdentView {
                value: parts@[i]@,
                quote: None,
            }),
    {
        let mut idents: Vec<Ident> = Vec::new();
        let mut i: usize = 0;
        while i < parts.len()
            invariant
                i <= parts@.len(),
                idents@.len() == i,
                forall|j: int| 0 <= j < i ==> #[trigger] idents@[j]@ == (IdentView {
                    value: parts@[j]@,
                    quote: None,
                }),
            decreases parts@.len() - i,
        {
            idents.push(Ident::new(parts[i]));
            i += 1;
        }
        ObjectName(idents)
    }
}


/// Appends the characters of `s` with every single quote doubled.
pub fn push_escaped(out: &mut String, s: &str)
    ensures
        final(out)@ == old(out)@ + escape_quotes(s@),
{
    let v = chars_of(s);
    let mut i: usize = 0;
    assert(v@.take(0) =~= Seq::<char>::empty());
    while i < v.len()
        invariant
            v@ == s@,
            i <= v.len(),
            out@ == old(out)@ + escape_quotes(v@.take(i as int)),
        decreases v.len() - i,
    {
        let c = v[i];
        assert(v@.take(i + 1).drop_last() =~= v@.take(i as int));
        if c == '\'' {
            push_char(out, '\'');
            push_char(out, '\'');
        } else {
            push_char(out, c);
        }
        i += 1;
        assert(out@ =~= old(out)@ + escape_quotes(v@.take(i as int)));
    }
    assert(v@.take(v.len() as int) =~= v@);
}

impl DateTimeField {
    /// Appends the text of the field.
    pub fn write_sql(&self, out: &mut String)
        ensures
            final(out)@ == old(out)@ + date_time_field_sql(*self),
    {
        match self {
            DateTimeField::Year => push_str(out, "YEAR"),
            DateTimeField::Month => push_str(out, "MONTH"),
            DateTimeField::Day => push_str(out, "DAY"),
            DateTimeField::Hour => push_str(out, "HOUR"),
            DateTimeField::Minute => push_str(out, "MINUTE"),
            DateTimeField::Second => push_str(out, "SECOND"),
        }
    }

    /// The text of the field.
    pub fn to_string(&self) -> (s: String)
        ensures
            s@ == date_time_field_sql(*self),
    {
        let mut s = String::new();
        self.write_sql(&mut s);
        s
    }
}

/// Appends `prefix` and the field, if there is one.
fn write_optional_field(out: &mut String, prefix: &str, f: Option<DateTimeField>)
    ensures
        final(out)@ == old(out)@ + match f {
            Some(f) => prefix@ + date_time_field_sql(f),
            None => Seq::empty(),
        },
{
    if let Some(f) = f {
        push_str(out, prefix);
        f.write_sql(out);
    }
    assert(out@ =~= old(out)@ + match f {
        Some(f) => prefix@ + date_time_field_sql(f),
        None => Seq::<char>::empty(),
    });
}

/// Appends the precision in parentheses, if there is one.
fn write_optional_precision(out: &mut String, p: Option<u64>)
    ensures
        final(out)@ == old(out)@ + match p {
            Some(p) => "("@ + crate::text::decimal(p as nat) + ")"@,
            None => Seq::empty(),
        },
{
    if let Some(p) = p {
        push_str(out, "(");
        push_decimal(out, p);
        push_str(out, ")");
    }
    assert(out@ =~= old(out)@ + match p {
        Some(p) => "("@ + crate::text::decimal(p as nat) + ")"@,
        None => Seq::<char>::empty(),
    });
}

/// The text of an interval in the general form: the value, then the
/// fields and precisions that are present.
pub open spec fn interval_general_sql(i: IntervalView) -> Seq<char> {
    "INTERVAL '"@ + escape_quotes(i.value) + "'"@ + match i.leading_field {
        Some(f) => " "@ + date_time_field_sql(f),
        None => Seq::empty(),
    } + match i.leading_precision {
        Some(p) => "("@ + crate::text::decimal(p as nat) + ")"@,
        None => Seq::empty(),
    } + match i.tailing_field {
        Some(f) => " TO "@ + date_time_field_sql(f),
        None => Seq::empty(),
    } + match i.fractional_seconds_precision {
        Some(p) => "("@ + crate::text::decimal(p as nat) + ")"@,
        None => Seq::empty(),
    }
}

impl Interval {
    fn write_general(&self, out: &mut String)
        ensures
            final(out)@ == old(out)@ + interval_general_sql(self@),
    {
        push_str(out, "INTERVAL '");
        push_escaped(out, self.value.as_str());
        push_str(out, "'");
        write_optional_field(out, " ", self.leading_field);
        write_optional_precision(out, self.leading_precision);
        write_optional_field(out, " TO ", self.tailing_field);
        write_optional_precision(out, self.fractional_seconds_precision);
        assert(out@ =~= old(out)@ + interval_general_sql(self@));
    }

    /// Appends the text of the interval literal.
    pub fn write_sql(&self, out: &mut String)
        requires
            interval_ok(self@),
        ensures
            final(out)@ == old(out)@ + interval_sql(self@),
    {
        let seconds = match self.leading_field {
            Some(DateTimeField::Second) => true,
            _ => false,
        };
        match (self.leading_precision, self.fractional_seconds_precision) {
            (Some(lp), Some(fsp)) if seconds => {
                push_str(out, "INTERVAL '");
                push_escaped(out, self.value.as_str());
                push_str(out, "' SECOND(");
                push_decimal(out, lp);
                push_str(out, ", ");
                push_decimal(out, fsp);
                push_str(out, ")");
                assert(out@ =~= old(out)@ + interval_sql(self@));
            },
            _ => {
                self.write_general(out);
                assert(interval_sql(self@) == interval_general_sql(self@));
            },
        }
    }

    /// The text of the interval literal.
    pub fn to_string(&self) -> (s: String)
        requires
            interval_ok(self@),
        ensures
            s@ == interval_sql(self@),
    {
        let mut s = String::new();
        self.write_sql(&mut s);
        s
    }
}

impl Date {
    /// Appends the value of the date literal.
    pub fn write_sql(&self, out: &mut String)
        ensures
            final(out)@ == old(out)@ + self.value@,
    {
        push_str(out, self.value.as_str());
    }
}

impl Time {
    /// Appends the value of the time literal.
    pub fn write_sql(&self, out: &mut String)
        ensures
            final(out)@ == old(out)@ + self.value@,
    {
        push_str(out, self.value.as_str());
    }
}

impl Timestamp {
    /// Appends the value of the timestamp literal.
    pub fn write_sql(&self, out: &mut String)
        ensures
            final(out)@ == old(out)@ + self.value@,
    {
        push_str(out, self.value.as_str());
    }
}

impl Literal {
    /// Appends the text of the literal.
    pub fn write_sql(&self, out: &mut String)
        requires
            literal_ok(self@),
        ensures
            final(out)@ == old(out)@ + literal_sql(self@),
    {
        match self {
            Literal::Null => push_str(out, "NULL"),
            Literal::Boolean(b) => if *b {
                push_str(out, "TRUE")
            } else {
                push_str(out, "FALSE")
            },
            Literal::Number(v) => push_str(out, v.as_str()),
            Literal::String(v) => {
                push_str(out, "'");
                push_escaped(out, v.as_str());
                push_str(out, "'");
            },
            Literal::NationalString(v) => {
                push_str(out, "N'");
                push_str(out, v.as_str());
                push_str(out, "'");
            },
            Literal::HexString(v) => {
                push_str(out, "X'");
                push_str(out, v.as_str());
                push_str(out, "'");
            },
            Literal::BitString(v) => {
                push_str(out, "B'");
                push_str(out, v.as_str());
                push_str(out, "'");
            },
            Literal::Date(v) => {
                push_str(out, "DATE '");
                v.write_sql(out);
                push_str(out, "'");
            },
            Literal::Time(v) => {
                push_str(out, "TIME '");
                v.write_sql(out);
                push_str(out, "'");
            },
            Literal::Timestamp(v) => {
                push_str(out, "TIMESTAMP '");
                v.write_sql(out);
                push_str(out, "'");
            },
            Literal::Interval(v) => v.write_sql(out),
        }
        assert(out@ =~= old(out)@ + literal_sql(self@));
    }

    /// The text of the literal.
    pub fn to_string(&self) -> (s: String)
        requires
            literal_ok(self@),
        ensures
            s@ == literal_sql(self@),
    {
        let mut s = String::new();
        self.write_sql(&mut s);
        s
    }
}

/// Appends a type name and, if there is one, a length in parentheses.
fn write_optional_length(out: &mut String, name: &str, len: Option<u64>)
    ensures
        final(out)@ == old(out)@ + optional_length_sql(name@, len),
{
    push_str(out, name);
    if let Some(n) = len {
        push_str(out, "(");
        push_decimal(out, n);
        push_str(out, ")");
    }
    assert(out@ =~= old(out)@ + optional_length_sql(name@, len));
}

impl DataType {
    /// Appends the text of the data type.
    pub fn write_sql(&self, out: &mut String)
        requires
            data_type_ok(*self),
        ensures
            final(out)@ == old(out)@ + data_type_sql(*self),
        decreases self,
    {
        match self {
            DataType::Boolean => push_str(out, "BOOLEAN"),
            DataType::TinyInt(n) => write_optional_length(out, "TINYINT", *n),
            DataType::SmallInt(n) => write_optional_length(out, "SMALLINT", *n),
            DataType::Int(n) => write_optional_length(out, "INT", *n),
            DataType::BigInt(n) => write_optional_length(out, "BIGINT", *n),
            DataType::Numeric { precision, scale } => match scale {
                Some(s) => {
                    push_str(out, "NUMERIC(");
                    match precision {
                        Some(p) => push_decimal(out, *p),
                        None => {},
                    }
                    push_str(out, ",");
                    push_decimal(out, *s);
                    push_str(out, ")");
                },
                None => write_optional_length(out, "NUMERIC", *precision),
            },
            DataType::Decimal { precision, scale } => match scale {
                Some(s) => {
                    push_str(out, "DECIMAL(");
                    match precision {
                        Some(p) => push_decimal(out, *p),
                        None => {},
                    }
                    push_str(out, ",");
                    push_decimal(out, *s);
                    push_str(out, ")");
                },
                None => write_optional_length(out, "DECIMAL", *precision),
            },
            DataType::Float(n) => write_optional_length(out, "FLOAT", *n),
            DataType::Real => push_str(out, "REAL"),
            DataType::Double => push_str(out, "DOUBLE PRECISION"),
            DataType::Char(n) => write_optional_length(out, "CHAR", *n),
            DataType::Varchar(n) => write_optional_length(out, "VARCHAR", *n),
            DataType::Clob(n) => {
                push_str(out, "CLOB(");
                push_decimal(out, *n);
                push_str(out, ")");
            },
            DataType::Text => push_str(out, "TEXT"),
            DataType::Binary(n) => {
                push_str(out, "BINARY(");
                push_decimal(out, *n);
                push_str(out, ")");
            },
            DataType::Varbinary(n) => {
                push_str(out, "VARBINARY(");
                push_decimal(out, *n);
                push_str(out, ")");
            },
            DataType::Blob(n) => {
                push_str(out, "BLOB(");
                push_decimal(out, *n);
                push_str(out, ")");
            },
            DataType::Bytea => push_str(out, "BYTEA"),
            DataType::Date => push_str(out, "DATE"),
            DataType::Time => push_str(out, "TIME"),
            DataType::Timestamp => push_str(out, "TIMESTAMP"),
            DataType::Interval => push_str(out, "INTERVAL"),
            DataType::Array(inner) => {
                inner.write_sql(out);
                push_str(out, "[]");
            },
        }
        assert(out@ =~= old(out)@ + data_type_sql(*self));
    }

    /// The text of the data type.
    pub fn to_string(&self) -> (s: String)
        requires
            data_type_ok(*self),
        ensures
            s@ == data_type_sql(*self),
    {
        let mut s = String::new();
        self.write_sql(&mut s);
        s
    }
}

/// Appends identifiers separated by `.`.
pub fn write_object_name(out: &mut String, parts: &Vec<Ident>)
    requires
        idents_ok(idents_view(parts@)),
    ensures
        final(out)@ == old(out)@ + object_name_sql(idents_view(parts@)),
{
    let ghost v = idents_view(parts@);
    let mut i: usize = 0;
    assert(v.take(0) =~= Seq::<IdentView>::empty());
    while i < parts.len()
        invariant
            v == idents_view(parts@),
            idents_ok(v),
            i <= parts.len(),
            out@ == old(out)@ + object_name_sql(v.take(i as int)),
        decreases parts.len() - i,
    {
        assert(v.take(i + 1).drop_last() =~= v.take(i as int));
        assert(v[i as int] == parts@[i as int]@);
        assert(crate::token::ident_quote_ok(v[i as int].quote));
        if i > 0 {
            push_str(out, ".");
        }
        parts[i].write_sql(out);
        i += 1;
        assert(out@ =~= old(out)@ + object_name_sql(v.take(i as int)));
    }
    assert(v.take(parts.len() as int) =~= v);
}

impl ObjectName {
    /// Appends the text of the name: its parts separated by `.`.
    pub fn write_sql(&self, out: &mut String)
        requires
            idents_ok(self@),
        ensures
            final(out)@ == old(out)@ + object_name_sql(self@),
    {
        write_object_name(out, &self.0);
    }

    /// The text of the name.
    pub fn to_string(&self) -> (s: String)
        requires
            idents_ok(self@),
        ensures
            s@ == object_name_sql(self@),
    {
        let mut s = String::new();
        self.write_sql(&mut s);
        s
    }
}

} // verus!
