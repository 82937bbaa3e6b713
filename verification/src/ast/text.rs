//! The SQL text of literals, data types, expressions and queries, as
//! functions of their abstract values.
use vstd::prelude::*;

use crate::ast::expression::TrimWhereField;
use crate::ast::operator::{BinaryOperator, UnaryOperator};
use crate::ast::query::{OffsetRows, QueryBodyOperator, SetQuantifier};
use crate::ast::table::{WindowFrame, WindowFrameBound, WindowFrameExclusion, WindowFrameUnits};
use crate::ast::types::{DataType, DateTimeField, IdentView, IntervalView, LiteralView};
use crate::ast::view::{
    CteV, ExprV, FunctionArgV, FunctionV, GroupingElementV, GroupingSetV, JoinOperatorV, JoinSpecV,
    JoinV, OnOverflowV, QueryBodyV, QuerySpecV, QueryV, SelectItemV, SortSpecV, TableAliasV,
    TableFactorV, TableReferenceV, WindowDefV, WindowSpecV, WithV,
};
use crate::text::decimal;
use crate::token::spec_ident_sql;

verus! {

// ============================================================================
// Building blocks
// ============================================================================

/// The text with every single quote doubled.
pub open spec fn escape_quotes(s: Seq<char>) -> Seq<char>
    decreases s.len(),
{
    if s.len() == 0 {
        Seq::empty()
    } else if s.last() == '\'' {
        escape_quotes(s.drop_last()) + seq!['\'', '\'']
    } else {
        escape_quotes(s.drop_last()).push(s.last())
    }
}

/// The parts joined with single spaces.
pub open spec fn join_space(parts: Seq<Seq<char>>) -> Seq<char>
    decreases parts.len(),
{
    if parts.len() == 0 {
        Seq::empty()
    } else if parts.len() == 1 {
        parts[0]
    } else {
        join_space(parts.drop_last()) + " "@ + parts.last()
    }
}

/// Identifiers separated by `, `.
pub open spec fn idents_sql(s: Seq<IdentView>) -> Seq<char>
    decreases s.len(),
{
    if s.len() == 0 {
        Seq::empty()
    } else if s.len() == 1 {
        spec_ident_sql(s[0])
    } else {
        idents_sql(s.drop_last()) + ", "@ + spec_ident_sql(s.last())
    }
}

/// Identifiers separated by `.`: the text of an object name.
pub open spec fn object_name_sql(s: Seq<IdentView>) -> Seq<char>
    decreases s.len(),
{
    if s.len() == 0 {
        Seq::empty()
    } else if s.len() == 1 {
        spec_ident_sql(s[0])
    } else {
        object_name_sql(s.drop_last()) + "."@ + spec_ident_sql(s.last())
    }
}

/// Object names separated by `, `.
pub open spec fn object_names_sql(s: Seq<Seq<IdentView>>) -> Seq<char>
    decreases s.len(),
{
    if s.len() == 0 {
        Seq::empty()
    } else if s.len() == 1 {
        object_name_sql(s[0])
    } else {
        object_names_sql(s.drop_last()) + ", "@ + object_name_sql(s.last())
    }
}

/// The text of a date/time field.
pub open spec fn date_time_field_sql(f: DateTimeField) -> Seq<char> {
    match f {
        DateTimeField::Year => "YEAR"@,
        DateTimeField::Month => "MONTH"@,
        DateTimeField::Day => "DAY"@,
        DateTimeField::Hour => "HOUR"@,
        DateTimeField::Minute => "MINUTE"@,
        DateTimeField::Second => "SECOND"@,
    }
}

/// The text of an interval literal.
pub open spec fn interval_sql(i: IntervalView) -> Seq<char> {
    if i.leading_field == Some(DateTimeField::Second) && i.leading_precision is Some
        && i.fractional_seconds_precision is Some {
        "INTERVAL '"@ + escape_quotes(i.value) + "' SECOND("@ + decimal(
            i.leading_precision->0 as nat,
        ) + ", "@ + decimal(i.fractional_seconds_precision->0 as nat) + ")"@
    } else {
        "INTERVAL '"@ + escape_quotes(i.value) + "'"@ + match i.leading_field {
            Some(f) => " "@ + date_time_field_sql(f),
            None => Seq::empty(),
        } + match i.leading_precision {
            Some(p) => "("@ + decimal(p as nat) + ")"@,
            None => Seq::empty(),
        } + match i.tailing_field {
            Some(f) => " TO "@ + date_time_field_sql(f),
            None => Seq::empty(),
        } + match i.fractional_seconds_precision {
            Some(p) => "("@ + decimal(p as nat) + ")"@,
            None => Seq::empty(),
        }
    }
}

/// The text of a literal.
pub open spec fn literal_sql(l: LiteralView) -> Seq<char> {
    match l {
        LiteralView::Null => "NULL"@,
        LiteralView::Boolean(b) => if b {
            "TRUE"@
        } else {
            "FALSE"@
        },
        LiteralView::Number(s) => s,
        LiteralView::String(s) => "'"@ + escape_quotes(s) + "'"@,
        LiteralView::NationalString(s) => "N'"@ + s + "'"@,
        LiteralView::HexString(s) => "X'"@ + s + "'"@,
        LiteralView::BitString(s) => "B'"@ + s + "'"@,
        LiteralView::Date(s) => "DATE '"@ + s + "'"@,
        LiteralView::Time(s) => "TIME '"@ + s + "'"@,
        LiteralView::Timestamp(s) => "TIMESTAMP '"@ + s + "'"@,
        LiteralView::Interval(i) => interval_sql(i),
    }
}

/// A type name with an optional length in parentheses.
pub open spec fn optional_length_sql(name: Seq<char>, len: Option<u64>) -> Seq<char> {
    match len {
        Some(n) => name + "("@ + decimal(n as nat) + ")"@,
        None => name,
    }
}

/// The text of a data type.
pub open spec fn data_type_sql(t: DataType) -> Seq<char>
    decreases t,
{
    match t {
        DataType::Boolean => "BOOLEAN"@,
        DataType::TinyInt(n) => optional_length_sql("TINYINT"@, n),
        DataType::SmallInt(n) => optional_length_sql("SMALLINT"@, n),
        DataType::Int(n) => optional_length_sql("INT"@, n),
        DataType::BigInt(n) => optional_length_sql("BIGINT"@, n),
        DataType::Numeric { precision, scale } => match scale {
            Some(s) => "NUMERIC("@ + decimal(precision->0 as nat) + ","@ + decimal(s as nat) + ")"@,
            None => optional_length_sql("NUMERIC"@, precision),
        },
        DataType::Decimal { precision, scale } => match scale {
            Some(s) => "DECIMAL("@ + decimal(precision->0 as nat) + ","@ + decimal(s as nat) + ")"@,
            None => optional_length_sql("DECIMAL"@, precision),
        },
        DataType::Float(n) => optional_length_sql("FLOAT"@, n),
        DataType::Real => "REAL"@,
        DataType::Double => "DOUBLE PRECISION"@,
        DataType::Char(n) => optional_length_sql("CHAR"@, n),
        DataType::Varchar(n) => optional_length_sql("VARCHAR"@, n),
        DataType::Clob(n) => "CLOB("@ + decimal(n as nat) + ")"@,
        DataType::Text => "TEXT"@,
        DataType::Binary(n) => "BINARY("@ + decimal(n as nat) + ")"@,
        DataType::Varbinary(n) => "VARBINARY("@ + decimal(n as nat) + ")"@,
        DataType::Blob(n) => "BLOB("@ + decimal(n as nat) + ")"@,
        DataType::Bytea => "BYTEA"@,
        DataType::Date => "DATE"@,
        DataType::Time => "TIME"@,
        DataType::Timestamp => "TIMESTAMP"@,
        DataType::Interval => "INTERVAL"@,
        DataType::Array(inner) => data_type_sql(*inner) + "[]"@,
    }
}

/// The text of a unary operator.
pub open spec fn unary_operator_sql(op: UnaryOperator) -> Seq<char> {
    match op {
        UnaryOperator::Plus => "+"@,
        UnaryOperator::Minus => "-"@,
        UnaryOperator::Not => "NOT"@,
    }
}

/// The text of a binary operator.
pub open spec fn binary_operator_sql(op: BinaryOperator) -> Seq<char> {
    match op {
        BinaryOperator::Plus => "+"@,
        BinaryOperator::Minus => "-"@,
        BinaryOperator::Multiply => "*"@,
        BinaryOperator::Divide => "/"@,
        BinaryOperator::Modulo => "%"@,
        BinaryOperator::Greater => ">"@,
        BinaryOperator::Less => "<"@,
        BinaryOperator::GreaterOrEqual => ">="@,
        BinaryOperator::LessOrEqual => "<="@,
        BinaryOperator::Equal => "="@,
        BinaryOperator::NotEqual => "<>"@,
        BinaryOperator::StringConcat => "||"@,
        BinaryOperator::BitwiseAnd => "&"@,
        BinaryOperator::BitwiseOr => "|"@,
        BinaryOperator::BitwiseXor => "^"@,
        BinaryOperator::BitwiseLeftShift => "<<"@,
        BinaryOperator::BitwiseRightShift => ">>"@,
        BinaryOperator::And => "AND"@,
        BinaryOperator::Or => "OR"@,
        BinaryOperator::Xor => "XOR"@,
        BinaryOperator::Like => "LIKE"@,
        BinaryOperator::ILike => "ILIKE"@,
        BinaryOperator::NotLike => "NOT LIKE"@,
        BinaryOperator::NotILike => "NOT ILIKE"@,
    }
}

/// The text of `BOTH`, `LEADING` or `TRAILING`.
pub open spec fn trim_where_sql(w: TrimWhereField) -> Seq<char> {
    match w {
        TrimWhereField::Both => "BOTH"@,
        TrimWhereField::Leading => "LEADING"@,
        TrimWhereField::Trailing => "TRAILING"@,
    }
}

/// The text of a set quantifier.
pub open spec fn set_quantifier_sql(q: SetQuantifier) -> Seq<char> {
    match q {
        SetQuantifier::All => "ALL"@,
        SetQuantifier::Distinct => "DISTINCT"@,
    }
}

/// The text of a query body operator.
pub open spec fn query_body_operator_sql(op: QueryBodyOperator) -> Seq<char> {
    match op {
        QueryBodyOperator::Union => "UNION"@,
        QueryBodyOperator::Except => "EXCEPT"@,
        QueryBodyOperator::Intersect => "INTERSECT"@,
    }
}

/// The text that follows the count of an `OFFSET` clause.
pub open spec fn offset_rows_sql(r: OffsetRows) -> Seq<char> {
    match r {
        OffsetRows::Row => " ROW"@,
        OffsetRows::Rows => " ROWS"@,
        OffsetRows::Omitted => Seq::empty(),
    }
}

/// The text of a `LIMIT` clause.
pub open spec fn limit_sql(count: LiteralView) -> Seq<char> {
    "LIMIT "@ + literal_sql(count)
}

/// The text of an `OFFSET` clause.
pub open spec fn offset_sql(count: LiteralView, rows: OffsetRows) -> Seq<char> {
    "OFFSET "@ + literal_sql(count) + offset_rows_sql(rows)
}

/// The text of a `FETCH` clause.
pub open spec fn fetch_sql(quantity: Option<LiteralView>, percent: bool, with_ties: bool) -> Seq<char> {
    let extension = if with_ties {
        "WITH TIES"@
    } else {
        "ONLY"@
    };
    match quantity {
        Some(q) => "FETCH FIRST "@ + literal_sql(q) + (if percent {
            " PERCENT"@
        } else {
            Seq::empty()
        }) + " ROWS "@ + extension,
        None => "FETCH FIRST ROWS "@ + extension,
    }
}

/// The text of window frame units.
pub open spec fn window_frame_units_sql(u: WindowFrameUnits) -> Seq<char> {
    match u {
        WindowFrameUnits::Rows => "ROWS"@,
        WindowFrameUnits::Range => "RANGE"@,
        WindowFrameUnits::Groups => "GROUPS"@,
    }
}

/// The text of a window frame bound.
pub open spec fn window_frame_bound_sql(b: WindowFrameBound) -> Seq<char> {
    match b {
        WindowFrameBound::CurrentRow => "CURRENT ROW"@,
        WindowFrameBound::Preceding(None) => "UNBOUNDED PRECEDING"@,
        WindowFrameBound::Preceding(Some(n)) => decimal(n as nat) + " PRECEDING"@,
        WindowFrameBound::Following(None) => "UNBOUNDED FOLLOWING"@,
        WindowFrameBound::Following(Some(n)) => decimal(n as nat) + " FOLLOWING"@,
    }
}

/// The text of a window frame exclusion.
pub open spec fn window_frame_exclusion_sql(e: WindowFrameExclusion) -> Seq<char> {
    match e {
        WindowFrameExclusion::CurrentRow => "CURRENT ROW"@,
        WindowFrameExclusion::Group => "GROUP"@,
        WindowFrameExclusion::Ties => "TIES"@,
        WindowFrameExclusion::NoOthers => "NO OTHERS"@,
    }
}

/// The text of a window frame.
pub open spec fn window_frame_sql(f: WindowFrame) -> Seq<char> {
    (match f.end_bound {
        Some(end) => window_frame_units_sql(f.units) + " BETWEEN "@ + window_frame_bound_sql(
            f.start_bound,
        ) + " AND "@ + window_frame_bound_sql(end),
        None => window_frame_units_sql(f.units) + " "@ + window_frame_bound_sql(f.start_bound),
    }) + match f.exclusion {
        Some(e) => " EXCLUDE "@ + window_frame_exclusion_sql(e),
        None => Seq::empty(),
    }
}

/// The text of a table alias.
pub open spec fn table_alias_sql(a: TableAliasV) -> Seq<char> {
    "AS "@ + spec_ident_sql(a.name) + match a.columns {
        Some(c) => " ("@ + idents_sql(c) + ")"@,
        None => Seq::empty(),
    }
}

/// The text of a grouping set.
pub open spec fn grouping_set_sql(g: GroupingSetV) -> Seq<char> {
    match g {
        GroupingSetV::Column(n) => object_name_sql(n),
        GroupingSetV::Columns(ns) => "("@ + object_names_sql(ns) + ")"@,
    }
}

/// Grouping sets separated by `, `.
pub open spec fn grouping_sets_sql(s: Seq<GroupingSetV>) -> Seq<char>
    decreases s.len(),
{
    if s.len() == 0 {
        Seq::empty()
    } else if s.len() == 1 {
        grouping_set_sql(s[0])
    } else {
        grouping_sets_sql(s.drop_last()) + ", "@ + grouping_set_sql(s.last())
    }
}

/// The text of a grouping element.
pub open spec fn grouping_element_sql(g: GroupingElementV) -> Seq<char>
    decreases g,
{
    match g {
        GroupingElementV::Empty => "()"@,
        GroupingElementV::OrdinarySet(s) => grouping_set_sql(s),
        GroupingElementV::Rollup(l) => "ROLLUP ("@ + grouping_sets_sql(l) + ")"@,
        GroupingElementV::Cube(l) => "CUBE ("@ + grouping_sets_sql(l) + ")"@,
        GroupingElementV::Sets(l) => " GROUPING SETS ("@ + grouping_elements_sql(l) + ")"@,
    }
}

/// Grouping elements separated by `, `.
pub open spec fn grouping_elements_sql(s: Seq<GroupingElementV>) -> Seq<char>
    decreases s,
{
    if s.len() == 0 {
        Seq::empty()
    } else if s.len() == 1 {
        grouping_element_sql(s[0])
    } else {
        grouping_elements_sql(s.drop_last()) + ", "@ + grouping_element_sql(s.last())
    }
}

/// The text of a `GROUP BY` clause.
pub open spec fn group_by_sql(quantifier: Option<SetQuantifier>, list: Seq<GroupingElementV>) -> Seq<char> {
    "GROUP BY "@ + match quantifier {
        Some(q) => set_quantifier_sql(q) + " "@,
        None => Seq::empty(),
    } + grouping_elements_sql(list)
}

/// `NOT ` if `negated`, nothing otherwise.
pub open spec fn not_sql(negated: bool) -> Seq<char> {
    if negated {
        "NOT "@
    } else {
        Seq::empty()
    }
}

// ============================================================================
// Expressions and queries
// ============================================================================

/// The text of an expression.
pub open spec fn expr_sql(e: ExprV) -> Seq<char>
    decreases e, 0nat,
{
    match e {
        ExprV::Literal(l) => literal_sql(l),
        ExprV::TypedString { data_type, value } => data_type_sql(data_type) + " '"@ + escape_quotes(
            value,
        ) + "'"@,
        ExprV::Identifier(i) => spec_ident_sql(i),
        ExprV::Wildcard => "*"@,
        ExprV::QualifiedWildcard(ids) => object_name_sql(ids) + ".*"@,
        ExprV::CompoundIdentifier(ids) => object_name_sql(ids),
        ExprV::Nested(x) => "("@ + expr_sql(*x) + ")"@,
        ExprV::Exists(q) => "EXISTS ("@ + query_sql(*q) + ")"@,
        ExprV::Subquery(q) => "("@ + query_sql(*q) + ")"@,
        ExprV::IsNull { negated, expr } => expr_sql(*expr) + " IS "@ + not_sql(negated) + "NULL"@,
        ExprV::IsDistinctFrom { negated, left, right } => expr_sql(*left) + " IS "@ + not_sql(negated)
            + "DISTINCT FROM "@ + expr_sql(*right),
        ExprV::UnaryOp { op, expr } => unary_operator_sql(op) + " "@ + expr_sql(*expr),
        ExprV::BinaryOp { op, left, right } => expr_sql(*left) + " "@ + binary_operator_sql(op) + " "@
            + expr_sql(*right),
        ExprV::InList { expr, negated, list } => expr_sql(*expr) + " "@ + not_sql(negated) + "IN ("@
            + exprs_sql(list) + ")"@,
        ExprV::InSubquery { expr, negated, subquery } => expr_sql(*expr) + " "@ + not_sql(negated)
            + "IN ("@ + query_sql(*subquery) + ")"@,
        ExprV::Between { expr, negated, low, high } => expr_sql(*expr) + " "@ + not_sql(negated)
            + "BETWEEN "@ + expr_sql(*low) + " AND "@ + expr_sql(*high),
        ExprV::Case { operand, whens, else_result } => "CASE"@ + match operand {
            Some(o) => " "@ + expr_sql(*o),
            None => Seq::empty(),
        } + whens_sql(whens) + match else_result {
            Some(o) => " ELSE "@ + expr_sql(*o),
            None => Seq::empty(),
        } + " END"@,
        ExprV::Collate { expr, collation } => expr_sql(*expr) + " COLLATE "@ + object_name_sql(
            collation,
        ),
        ExprV::Cast { try_cast, expr, data_type } => (if try_cast {
            "TRY_CAST("@
        } else {
            "CAST("@
        }) + expr_sql(*expr) + " AS "@ + data_type_sql(data_type) + ")"@,
        ExprV::Extract { field, expr } => "EXTRACT("@ + date_time_field_sql(field) + " FROM "@
            + expr_sql(*expr) + ")"@,
        ExprV::Substring { expr, substring_from, substring_for } => "SUBSTRING("@ + expr_sql(*expr)
            + match substring_from {
            Some(o) => " FROM "@ + expr_sql(*o),
            None => Seq::empty(),
        } + match substring_for {
            Some(o) => " FOR "@ + expr_sql(*o),
            None => Seq::empty(),
        } + ")"@,
        ExprV::Trim { expr, trim_where } => "TRIM("@ + match trim_where {
            Some((w, c)) => trim_where_sql(w) + " "@ + expr_sql(*c) + " FROM "@ + expr_sql(*expr),
            None => expr_sql(*expr),
        } + ")"@,
        ExprV::ListAgg { distinct, expr, separator, on_overflow, within_group } => "LISTAGG("@ + (
        if distinct {
            "DISTINCT "@
        } else {
            Seq::empty()
        }) + expr_sql(*expr) + match separator {
            Some(o) => ", "@ + expr_sql(*o),
            None => Seq::empty(),
        } + match on_overflow {
            Some(o) => on_overflow_sql(o),
            None => Seq::empty(),
        } + ")"@ + if within_group.len() == 0 {
            Seq::empty()
        } else {
            " WITHIN GROUP (ORDER BY "@ + order_bys_sql(within_group) + ")"@
        },
        ExprV::Function(f) => function_sql(f),
    }
}

/// Expressions separated by `, `.
pub open spec fn exprs_sql(s: Seq<ExprV>) -> Seq<char>
    decreases s, 0nat,
{
    if s.len() == 0 {
        Seq::empty()
    } else if s.len() == 1 {
        expr_sql(s[0])
    } else {
        exprs_sql(s.drop_last()) + ", "@ + expr_sql(s.last())
    }
}

/// The `WHEN .. THEN ..` parts of a `CASE` expression.
pub open spec fn whens_sql(w: Seq<(ExprV, ExprV)>) -> Seq<char>
    decreases w, 0nat,
{
    if w.len() == 0 {
        Seq::empty()
    } else {
        whens_sql(w.drop_last()) + " WHEN "@ + expr_sql(w.last().0) + " THEN "@ + expr_sql(
            w.last().1,
        )
    }
}

/// The text of a `LISTAGG` overflow clause.
pub open spec fn on_overflow_sql(o: OnOverflowV) -> Seq<char>
    decreases o, 0nat,
{
    " ON OVERFLOW"@ + match o {
        OnOverflowV::Error => " ERROR"@,
        OnOverflowV::Truncate { filler, with_count } => " TRUNCATE"@ + match filler {
            Some(f) => " "@ + expr_sql(*f),
            None => Seq::empty(),
        } + (if with_count {
            " WITH"@
        } else {
            " WITHOUT"@
        }) + " COUNT"@,
    }
}

/// The text of an `ORDER BY` clause with the given sort specifications.
pub open spec fn order_by_sql(s: Seq<SortSpecV>) -> Seq<char>
    decreases s, 1nat,
{
    "ORDER BY "@ + sort_specs_sql(s)
}

/// `ORDER BY` clauses separated by `, `.
pub open spec fn order_bys_sql(s: Seq<Seq<SortSpecV>>) -> Seq<char>
    decreases s, 0nat,
{
    if s.len() == 0 {
        Seq::empty()
    } else if s.len() == 1 {
        order_by_sql(s[0])
    } else {
        order_bys_sql(s.drop_last()) + ", "@ + order_by_sql(s.last())
    }
}

/// Sort specifications separated by `, `.
pub open spec fn sort_specs_sql(s: Seq<SortSpecV>) -> Seq<char>
    decreases s, 0nat,
{
    if s.len() == 0 {
        Seq::empty()
    } else if s.len() == 1 {
        sort_spec_sql(s[0])
    } else {
        sort_specs_sql(s.drop_last()) + ", "@ + sort_spec_sql(s.last())
    }
}

/// The text of a sort specification.
pub open spec fn sort_spec_sql(s: SortSpecV) -> Seq<char>
    decreases s, 0nat,
{
    expr_sql(s.expr) + match s.asc {
        Some(true) => " ASC"@,
        Some(false) => " DESC"@,
        None => Seq::empty(),
    } + match s.nulls_first {
        Some(true) => " NULLS FIRST"@,
        Some(false) => " NULLS LAST"@,
        None => Seq::empty(),
    }
}

/// The text of a function call.
pub open spec fn function_sql(f: FunctionV) -> Seq<char>
    decreases f, 0nat,
{
    object_name_sql(f.name) + "("@ + (if f.distinct {
        "DISTINCT "@
    } else {
        Seq::empty()
    }) + function_args_sql(f.args) + ")"@ + match f.over {
        Some(w) => " OVER ("@ + window_spec_sql(w) + ")"@,
        None => Seq::empty(),
    }
}

/// Function arguments separated by `, `.
pub open spec fn function_args_sql(s: Seq<FunctionArgV>) -> Seq<char>
    decreases s, 0nat,
{
    if s.len() == 0 {
        Seq::empty()
    } else if s.len() == 1 {
        function_arg_sql(s[0])
    } else {
        function_args_sql(s.drop_last()) + ", "@ + function_arg_sql(s.last())
    }
}

/// The text of a function argument.
pub open spec fn function_arg_sql(a: FunctionArgV) -> Seq<char>
    decreases a, 0nat,
{
    match a {
        FunctionArgV::Named { name, arg } => spec_ident_sql(name) + " => "@ + expr_sql(arg),
        FunctionArgV::Unnamed(arg) => expr_sql(arg),
    }
}

/// The parts of a window specification that are present, in order.
pub open spec fn window_spec_parts(w: WindowSpecV) -> Seq<Seq<char>>
    decreases w, 0nat,
{
    (match w.name {
        Some(n) => seq![spec_ident_sql(n)],
        None => Seq::empty(),
    }) + match w.partition_by {
        Some(p) => seq!["PARTITION BY "@ + object_names_sql(p)],
        None => Seq::empty(),
    } + match w.order_by {
        Some(o) => seq![order_by_sql(o)],
        None => Seq::empty(),
    } + match w.window_frame {
        Some(f) => seq![window_frame_sql(f)],
        None => Seq::empty(),
    }
}

/// The text of a window specification: its parts separated by spaces.
pub open spec fn window_spec_sql(w: WindowSpecV) -> Seq<char>
    decreases w, 1nat,
{
    join_space(window_spec_parts(w))
}

/// The text of a window definition.
pub open spec fn window_def_sql(w: WindowDefV) -> Seq<char>
    decreases w, 0nat,
{
    spec_ident_sql(w.name) + " AS ("@ + window_spec_sql(w.spec) + ")"@
}

/// Window definitions separated by `, `.
pub open spec fn window_defs_sql(s: Seq<WindowDefV>) -> Seq<char>
    decreases s, 0nat,
{
    if s.len() == 0 {
        Seq::empty()
    } else if s.len() == 1 {
        window_def_sql(s[0])
    } else {
        window_defs_sql(s.drop_last()) + ", "@ + window_def_sql(s.last())
    }
}

/// The text of a query.
pub open spec fn query_sql(q: QueryV) -> Seq<char>
    decreases q, 0nat,
{
    (match q.with {
        Some(w) => with_sql(w) + " "@,
        None => Seq::empty(),
    }) + query_body_sql(q.body) + match q.order_by {
        Some(o) => " "@ + order_by_sql(o),
        None => Seq::empty(),
    } + match q.limit {
        Some(l) => " "@ + limit_sql(l),
        None => Seq::empty(),
    } + match q.offset {
        Some((c, r)) => " "@ + offset_sql(c, r),
        None => Seq::empty(),
    } + match q.fetch {
        Some((quantity, percent, with_ties)) => " "@ + fetch_sql(quantity, percent, with_ties),
        None => Seq::empty(),
    }
}

/// The text of a `WITH` clause.
pub open spec fn with_sql(w: WithV) -> Seq<char>
    decreases w, 0nat,
{
    "WITH "@ + (if w.recursive {
        "RECURSIVE "@
    } else {
        Seq::empty()
    }) + ctes_sql(w.ctes)
}

/// Common table expressions separated by `, `.
pub open spec fn ctes_sql(s: Seq<CteV>) -> Seq<char>
    decreases s, 0nat,
{
    if s.len() == 0 {
        Seq::empty()
    } else if s.len() == 1 {
        cte_sql(s[0])
    } else {
        ctes_sql(s.drop_last()) + ", "@ + cte_sql(s.last())
    }
}

/// The text of a common table expression.
pub open spec fn cte_sql(c: CteV) -> Seq<char>
    decreases c, 0nat,
{
    spec_ident_sql(c.name) + match c.columns {
        Some(cols) => " ("@ + idents_sql(cols) + ")"@,
        None => Seq::empty(),
    } + " AS ("@ + query_sql(*c.query) + ")"@
}

/// The text of a query body.
pub open spec fn query_body_sql(b: QueryBodyV) -> Seq<char>
    decreases b, 0nat,
{
    match b {
        QueryBodyV::QuerySpec(s) => query_spec_sql(*s),
        QueryBodyV::Subquery(q) => "("@ + query_sql(*q) + ")"@,
        QueryBodyV::Values(rows) => "VALUES "@ + rows_sql(rows),
        QueryBodyV::Table(n) => object_name_sql(n),
        QueryBodyV::Operation { left, op, quantifier, right } => query_body_sql(*left) + " "@
            + query_body_operator_sql(op) + match quantifier {
            Some(q) => " "@ + set_quantifier_sql(q),
            None => Seq::empty(),
        } + " "@ + query_body_sql(*right),
    }
}

/// Parenthesized rows separated by `, `.
pub open spec fn rows_sql(s: Seq<Seq<ExprV>>) -> Seq<char>
    decreases s, 0nat,
{
    if s.len() == 0 {
        Seq::empty()
    } else if s.len() == 1 {
        "("@ + exprs_sql(s[0]) + ")"@
    } else {
        rows_sql(s.drop_last()) + ", "@ + "("@ + exprs_sql(s.last()) + ")"@
    }
}

/// ` WHERE <condition>`, if there is a condition.
pub open spec fn where_part_sql(w: Option<ExprV>) -> Seq<char>
    decreases w, 0nat,
{
    match w {
        Some(e) => " "@ + "WHERE "@ + expr_sql(e),
        None => Seq::empty(),
    }
}

/// ` HAVING <condition>`, if there is a condition.
pub open spec fn having_part_sql(h: Option<ExprV>) -> Seq<char>
    decreases h, 0nat,
{
    match h {
        Some(e) => " "@ + "HAVING "@ + expr_sql(e),
        None => Seq::empty(),
    }
}

/// ` WINDOW <definitions>`, if there are definitions.
pub open spec fn window_part_sql(w: Option<Seq<WindowDefV>>) -> Seq<char>
    decreases w, 0nat,
{
    match w {
        Some(w) => " "@ + "WINDOW "@ + window_defs_sql(w),
        None => Seq::empty(),
    }
}

/// ` GROUP BY ..`, if there is a grouping.
pub open spec fn group_by_part_sql(g: Option<(Option<SetQuantifier>, Seq<GroupingElementV>)>) -> Seq<char> {
    match g {
        Some((q, l)) => " "@ + group_by_sql(q, l),
        None => Seq::empty(),
    }
}

/// ` ALL` or ` DISTINCT`, if there is a quantifier.
pub open spec fn quantifier_part_sql(q: Option<SetQuantifier>) -> Seq<char> {
    match q {
        Some(q) => " "@ + set_quantifier_sql(q),
        None => Seq::empty(),
    }
}

/// The text of a query specification.
pub open spec fn query_spec_sql(s: QuerySpecV) -> Seq<char>
    decreases s, 1nat,
{
    "SELECT"@ + quantifier_part_sql(s.quantifier) + " "@ + select_items_sql(s.projection) + " "@
        + "FROM "@ + table_refs_sql(s.from) + where_part_sql(s.where_clause) + group_by_part_sql(
        s.group_by,
    ) + having_part_sql(s.having) + window_part_sql(s.window)
}

/// Select items separated by `, `.
pub open spec fn select_items_sql(s: Seq<SelectItemV>) -> Seq<char>
    decreases s, 0nat,
{
    if s.len() == 0 {
        Seq::empty()
    } else if s.len() == 1 {
        select_item_sql(s[0])
    } else {
        select_items_sql(s.drop_last()) + ", "@ + select_item_sql(s.last())
    }
}

/// The text of a select item.
pub open spec fn select_item_sql(i: SelectItemV) -> Seq<char>
    decreases i, 0nat,
{
    match i {
        SelectItemV::Wildcard => "*"@,
        SelectItemV::QualifiedWildcard(n) => object_name_sql(n) + ".*"@,
        SelectItemV::DerivedColumn { expr, alias } => expr_sql(*expr) + match alias {
            Some(a) => " AS "@ + spec_ident_sql(a),
            None => Seq::empty(),
        },
    }
}

/// Table references separated by `, `.
pub open spec fn table_refs_sql(s: Seq<TableReferenceV>) -> Seq<char>
    decreases s, 0nat,
{
    if s.len() == 0 {
        Seq::empty()
    } else if s.len() == 1 {
        table_ref_sql(s[0])
    } else {
        table_refs_sql(s.drop_last()) + ", "@ + table_ref_sql(s.last())
    }
}

/// The text of a table reference: the table factor and each join after a
/// space.
pub open spec fn table_ref_sql(t: TableReferenceV) -> Seq<char>
    decreases t, 0nat,
{
    table_factor_sql(t.relation) + joins_sql(t.joins)
}

/// Joins, each after a space.
pub open spec fn joins_sql(s: Seq<JoinV>) -> Seq<char>
    decreases s, 0nat,
{
    if s.len() == 0 {
        Seq::empty()
    } else {
        joins_sql(s.drop_last()) + " "@ + join_sql(s.last())
    }
}

/// The text of a table factor.
pub open spec fn table_factor_sql(t: TableFactorV) -> Seq<char>
    decreases t, 0nat,
{
    match t {
        TableFactorV::Table { name, alias } => object_name_sql(name) + match alias {
            Some(a) => " "@ + table_alias_sql(a),
            None => Seq::empty(),
        },
        TableFactorV::Derived { lateral, subquery, alias } => (if lateral {
            "LATERAL "@
        } else {
            Seq::empty()
        }) + "("@ + query_sql(*subquery) + ")"@ + match alias {
            Some(a) => " "@ + table_alias_sql(a),
            None => Seq::empty(),
        },
        TableFactorV::NestedJoin(r) => "("@ + table_ref_sql(*r) + ")"@,
    }
}

/// The text of a join.
pub open spec fn join_sql(j: JoinV) -> Seq<char>
    decreases j, 0nat,
{
    match j.join {
        JoinOperatorV::CrossJoin => "CROSS JOIN "@ + table_factor_sql(j.relation),
        JoinOperatorV::InnerJoin(c) => "INNER JOIN "@ + table_factor_sql(j.relation) + join_spec_sql(
            c,
        ),
        JoinOperatorV::LeftOuterJoin(c) => "LEFT JOIN "@ + table_factor_sql(j.relation) + " "@
            + join_spec_sql(c),
        JoinOperatorV::RightOuterJoin(c) => "RIGHT JOIN "@ + table_factor_sql(j.relation) + " "@
            + join_spec_sql(c),
        JoinOperatorV::FullOuterJoin(c) => "FULL JOIN "@ + table_factor_sql(j.relation) + " "@
            + join_spec_sql(c),
        JoinOperatorV::NaturalInnerJoin => "NATURAL INNER JOIN "@ + table_factor_sql(j.relation),
        JoinOperatorV::NaturalLeftOuterJoin => "NATURAL LEFT JOIN "@ + table_factor_sql(j.relation),
        JoinOperatorV::NaturalRightOuterJoin => "NATURAL RIGHT JOIN "@ + table_factor_sql(
            j.relation,
        ),
        JoinOperatorV::NaturalFullOuterJoin => "NATURAL FULL JOIN "@ + table_factor_sql(j.relation),
    }
}

/// The text of a join specification (with a leading space).
pub open spec fn join_spec_sql(j: JoinSpecV) -> Seq<char>
    decreases j, 0nat,
{
    match j {
        JoinSpecV::On(e) => " ON "@ + expr_sql(*e),
        JoinSpecV::Using { columns, alias } => " USING ("@ + idents_sql(columns) + ")"@ + match alias {
            Some(a) => " AS "@ + spec_ident_sql(a),
            None => Seq::empty(),
        },
    }
}

} // verus!
