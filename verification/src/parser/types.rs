//! Parsing identifiers, object names, literals and data types.
//!
//! These parsers read the tokens from the front: they reset the peeking
//! cursor first.
use vstd::prelude::*;

use crate::ast::types::{
    DataType, Date, DateTimeField, Ident, IdentView, Interval, IntervalView, Literal, LiteralView,
    ObjectName, Time, Timestamp,
};
use crate::dialect::Dialect;
use crate::keyword_table::{spec_keyword_name, Keyword};
use crate::ast::text::{data_type_sql, escape_quotes, literal_sql, optional_length_sql};
use crate::token::spec_token_sql;
use crate::text::decimal;
use crate::parser::{advanced, error_view, spec_expected_message, opt_token_view, ParserError, Parser};
use crate::peek::{spec_next, spec_next_state, spec_peek, PeekState};
use crate::text::{str_equals, chars_of, spec_to_uppercase, to_uppercase};
use crate::token::{is_keyword_token, Token, TokenView};

verus! {

/// The identifier that a word token stands for: an identifier token, or a
/// keyword token taken as an unquoted identifier.
pub open spec fn word_ident(t: TokenView) -> Option<IdentView> {
    match t {
        TokenView::Ident(i) => Some(i),
        TokenView::Keyword(_, s) => Some(IdentView { value: s, quote: None }),
        _ => None,
    }
}

/// The object name at the front of the tokens (identifiers separated by
/// periods) and the number of tokens it takes, if there is one.
pub open spec fn spec_object_name(s: Seq<Token>) -> Option<(Seq<IdentView>, nat)>
    decreases s.len(),
{
    if s.len() == 0 {
        None
    } else {
        match word_ident(s[0]@) {
            None => None,
            Some(i) => if s.len() > 1 && s[1]@ == TokenView::Period {
                match spec_object_name(s.skip(2)) {
                    Some((rest, n)) => Some((seq![i] + rest, n + 2)),
                    None => None,
                }
            } else {
                Some((seq![i], 1))
            },
        }
    }
}

/// An object name takes some of the tokens and has some parts.
pub proof fn lemma_object_name_len(s: Seq<Token>)
    ensures
        spec_object_name(s) matches Some((p, n)) ==> 1 <= n <= s.len() && p.len() > 0,
    decreases s.len(),
{
    if s.len() > 1 {
        lemma_object_name_len(s.skip(2));
    }
}

/// The value of a decimal digit character.
pub open spec fn digit_value(c: char) -> nat {
    (c as u32 - '0' as u32) as nat
}

/// The value of a non-empty string of decimal digits.
pub open spec fn spec_uint(s: Seq<char>) -> Option<nat>
    decreases s.len(),
{
    if s.len() == 0 {
        None
    } else if !('0' <= s.last() <= '9') {
        None
    } else if s.len() == 1 {
        Some(digit_value(s.last()))
    } else {
        match spec_uint(s.drop_last()) {
            Some(v) => Some(v * 10 + digit_value(s.last())),
            None => None,
        }
    }
}

/// The unsigned integer that a token stands for: a number token of decimal
/// digits whose value fits in a `u64`.
pub open spec fn token_uint(t: TokenView) -> Option<u64> {
    match t {
        TokenView::Number(d) => match spec_uint(d) {
            Some(v) => if v <= u64::MAX {
                Some(v as u64)
            } else {
                None
            },
            None => None,
        },
        _ => None,
    }
}

/// The text of a string literal token.
pub open spec fn token_string(t: TokenView) -> Option<Seq<char>> {
    match t {
        TokenView::String(s) => Some(s),
        _ => None,
    }
}

/// The date/time field that a keyword token names.
pub open spec fn token_date_time_field(t: TokenView) -> Option<DateTimeField> {
    match t {
        TokenView::Keyword(k, _) => if k == Keyword::YEAR {
            Some(DateTimeField::Year)
        } else if k == Keyword::MONTH {
            Some(DateTimeField::Month)
        } else if k == Keyword::DAY {
            Some(DateTimeField::Day)
        } else if k == Keyword::HOUR {
            Some(DateTimeField::Hour)
        } else if k == Keyword::MINUTE {
            Some(DateTimeField::Minute)
        } else if k == Keyword::SECOND {
            Some(DateTimeField::Second)
        } else {
            None
        },
        _ => None,
    }
}

/// The literal that a single token stands for: a number or string token, or
/// `NULL`, `TRUE` or `FALSE`.
pub open spec fn token_literal(t: TokenView) -> Option<LiteralView> {
    match t {
        TokenView::Number(s) => Some(LiteralView::Number(s)),
        TokenView::String(s) => Some(LiteralView::String(s)),
        TokenView::NationalString(s) => Some(LiteralView::NationalString(s)),
        TokenView::HexString(s) => Some(LiteralView::HexString(s)),
        TokenView::BitString(s) => Some(LiteralView::BitString(s)),
        TokenView::Keyword(k, _) => if k == Keyword::NULL {
            Some(LiteralView::Null)
        } else if k == Keyword::TRUE {
            Some(LiteralView::Boolean(true))
        } else if k == Keyword::FALSE {
            Some(LiteralView::Boolean(false))
        } else {
            None
        },
        _ => None,
    }
}

/// Whether the token is a string token that holds a single quotation mark.
pub open spec fn is_string_with_quote(t: TokenView) -> bool {
    t matches TokenView::String(x) && x.contains('\'')
}

proof fn lemma_escape_quotes_plain(s: Seq<char>)
    requires
        !s.contains('\''),
    ensures
        escape_quotes(s) == s,
    decreases s.len(),
{
    if s.len() > 0 {
        assert(!s.drop_last().contains('\'')) by {
            if s.drop_last().contains('\'') {
                let i = choose|i: int| 0 <= i < s.drop_last().len() && s.drop_last()[i] == '\'';
                assert(s[i] == '\'');
            }
        }
        lemma_escape_quotes_plain(s.drop_last());
        assert(s.last() != '\'') by {
            assert(s[s.len() - 1] == s.last());
        }
        assert(s.drop_last().push(s.last()) =~= s);
    }
}

/// A literal writes back as the tokens it was read from: a one-token
/// literal as its token, a `DATE`, `TIME` or `TIMESTAMP` literal as its
/// keyword and its string separated by a space (`DATETIME` is written
/// `TIMESTAMP`); a string that holds a single quotation mark is written
/// with the mark doubled, and interval literals are left out here.
pub proof fn law_literal_written_as_read(s: Seq<Token>)
    ensures
        spec_literal(s) matches Some((l, n)) ==> (n == 1 && !is_string_with_quote(s[0]@)
            && !is_keyword_token(s[0]@, Keyword::INTERVAL) ==> literal_sql(l) == spec_token_sql(
            s[0]@,
        )),
        spec_literal(s) matches Some((l, n)) ==> (n == 2 && !is_keyword_token(
            s[0]@,
            Keyword::DATETIME,
        ) && !is_keyword_token(s[0]@, Keyword::INTERVAL) && !is_string_with_quote(s[1]@) ==> literal_sql(l) == spec_token_sql(s[0]@) + " "@
            + spec_token_sql(s[1]@)),
{
    reveal_strlit("NULL");
    reveal_strlit("TRUE");
    reveal_strlit("FALSE");
    reveal_strlit("DATE");
    reveal_strlit("TIME");
    reveal_strlit("TIMESTAMP");
    reveal_strlit("DATE '");
    reveal_strlit("TIME '");
    reveal_strlit("TIMESTAMP '");
    reveal_strlit("'");
    reveal_strlit(" ");
    if s.len() > 0 {
        if let TokenView::String(x) = s[0]@ {
            if !x.contains('\'') {
                lemma_escape_quotes_plain(x);
            }
        }
        if s.len() > 1 {
            if let TokenView::String(v) = s[1]@ {
                assert("DATE '"@ + v + "'"@ =~= "DATE"@ + " "@ + ("'"@ + v + "'"@));
                assert("TIME '"@ + v + "'"@ =~= "TIME"@ + " "@ + ("'"@ + v + "'"@));
                assert("TIMESTAMP '"@ + v + "'"@ =~= "TIMESTAMP"@ + " "@ + ("'"@ + v + "'"@));
            }
        }
    }
}

/// The precision part after the leading field of an interval literal at the
/// front of the tokens: `( <p> [, <s>] )` or nothing, with the leading
/// precision, the fractional seconds precision and the number of tokens.
pub open spec fn spec_interval_leading_precision(u: Seq<Token>) -> Option<(Option<u64>, Option<u64>, nat)> {
    if u.len() > 0 && u[0]@ == TokenView::LeftParen {
        if u.len() > 1 && token_uint(u[1]@) is Some {
            let lp = token_uint(u[1]@)->0;
            if u.len() > 2 && u[2]@ == TokenView::Comma {
                if u.len() > 4 && token_uint(u[3]@) is Some && u[4]@ == TokenView::RightParen {
                    Some((Some(lp), Some(token_uint(u[3]@)->0), 5))
                } else {
                    None
                }
            } else if u.len() > 2 && u[2]@ == TokenView::RightParen {
                Some((Some(lp), None, 3))
            } else {
                None
            }
        } else {
            None
        }
    } else {
        Some((None, None, 0))
    }
}

/// The `TO <field> [( <s> )]` part of an interval literal at the front of
/// the tokens, or nothing, with the trailing field, its fractional seconds
/// precision and the number of tokens.
pub open spec fn spec_interval_tail(x: Seq<Token>) -> Option<(Option<DateTimeField>, Option<u64>, nat)> {
    if x.len() > 0 && is_keyword_token(x[0]@, Keyword::TO) {
        if x.len() > 1 && token_date_time_field(x[1]@) is Some {
            let tf = token_date_time_field(x[1]@)->0;
            if x.len() > 2 && x[2]@ == TokenView::LeftParen {
                if x.len() > 4 && token_uint(x[3]@) is Some && x[4]@ == TokenView::RightParen {
                    Some((Some(tf), Some(token_uint(x[3]@)->0), 5))
                } else {
                    None
                }
            } else {
                Some((Some(tf), None, 2))
            }
        } else {
            None
        }
    } else {
        Some((None, None, 0))
    }
}

/// The interval literal at the front of the tokens:
/// `INTERVAL '<value>' [<field> [(<p>[, <s>])] [TO <field> [(<s>)]]]`, and
/// the number of tokens it takes. A fractional seconds precision after the
/// trailing field replaces one after the leading field.
#[verifier::opaque]
pub open spec fn spec_interval(s: Seq<Token>) -> Option<(IntervalView, nat)> {
    if s.len() > 1 && is_keyword_token(s[0]@, Keyword::INTERVAL) && token_string(s[1]@) is Some {
        let value = token_string(s[1]@)->0;
        let t = s.skip(2);
        if t.len() > 0 && token_date_time_field(t[0]@) is Some {
            let lf = token_date_time_field(t[0]@)->0;
            match spec_interval_leading_precision(t.skip(1)) {
                Some((lp, fs1, a)) => match spec_interval_tail(t.skip(1 + a as int)) {
                    Some((tf, fs2, b)) => Some((
                        IntervalView {
                            value,
                            leading_field: Some(lf),
                            leading_precision: lp,
                            tailing_field: tf,
                            fractional_seconds_precision: if fs2 is Some {
                                fs2
                            } else {
                                fs1
                            },
                        },
                        3 + a + b,
                    )),
                    None => None,
                },
                None => None,
            }
        } else {
            Some((
                IntervalView {
                    value,
                    leading_field: None,
                    leading_precision: None,
                    tailing_field: None,
                    fractional_seconds_precision: None,
                },
                2,
            ))
        }
    } else {
        None
    }
}

/// The data type at the front of the tokens, with its array suffixes, and
/// the number of tokens it takes.
pub open spec fn spec_data_type(s: Seq<Token>) -> Option<(DataType, nat)> {
    match spec_base_data_type(s) {
        Some((t, n)) => match spec_array_suffixes(s.skip(n as int)) {
            Some(k) => Some((wrap_arrays(t, k), n + 2 * k)),
            None => None,
        },
        None => None,
    }
}

/// The literal at the front of the tokens and the number of tokens it
/// takes: a one-token literal, an interval literal, or `DATE`, `TIME`,
/// `TIMESTAMP` or `DATETIME` followed by a string.
pub open spec fn spec_literal(s: Seq<Token>) -> Option<(LiteralView, nat)> {
    if s.len() == 0 {
        None
    } else if token_literal(s[0]@) is Some {
        Some((token_literal(s[0]@)->0, 1))
    } else if is_keyword_token(s[0]@, Keyword::INTERVAL) {
        match spec_interval(s) {
            Some((i, n)) => Some((LiteralView::Interval(i), n)),
            None => None,
        }
    } else if s.len() > 1 && token_string(s[1]@) is Some {
        let v = token_string(s[1]@)->0;
        if is_keyword_token(s[0]@, Keyword::DATE) {
            Some((LiteralView::Date(v), 2))
        } else if is_keyword_token(s[0]@, Keyword::TIME) {
            Some((LiteralView::Time(v), 2))
        } else if is_keyword_token(s[0]@, Keyword::TIMESTAMP) || is_keyword_token(
            s[0]@,
            Keyword::DATETIME,
        ) {
            Some((LiteralView::Timestamp(v), 2))
        } else {
            None
        }
    } else {
        None
    }
}

/// An optional parenthesized precision `( <n> )` at the front of the tokens,
/// and the number of tokens it takes; `None` if a parenthesis opens but
/// no precision follows.
pub open spec fn spec_opt_precision(s: Seq<Token>) -> Option<(Option<u64>, nat)> {
    if s.len() > 0 && s[0]@ == TokenView::LeftParen {
        if s.len() > 2 && token_uint(s[1]@) is Some && s[2]@ == TokenView::RightParen {
            Some((Some(token_uint(s[1]@)->0), 3))
        } else {
            None
        }
    } else {
        Some((None, 0))
    }
}

/// A parenthesized precision `( <n> )` at the front of the tokens.
pub open spec fn spec_precision(s: Seq<Token>) -> Option<u64> {
    match spec_opt_precision(s) {
        Some((Some(n), _)) => Some(n),
        _ => None,
    }
}

/// An optional parenthesized precision and scale `( <p> [, <s>] )` at the
/// front of the tokens, and the number of tokens it takes.
pub open spec fn spec_opt_precision_scale(s: Seq<Token>) -> Option<((Option<u64>, Option<u64>), nat)> {
    if s.len() > 0 && s[0]@ == TokenView::LeftParen {
        if s.len() > 2 && token_uint(s[1]@) is Some && s[2]@ == TokenView::RightParen {
            Some(((Some(token_uint(s[1]@)->0), None), 3))
        } else if s.len() > 4 && token_uint(s[1]@) is Some && s[2]@ == TokenView::Comma
            && token_uint(s[3]@) is Some && s[4]@ == TokenView::RightParen {
            Some(((Some(token_uint(s[1]@)->0), Some(token_uint(s[3]@)->0)), 5))
        } else {
            None
        }
    } else {
        Some(((None, None), 0))
    }
}

/// Whether the token is the unquoted word `w` (in any letter case).
pub open spec fn is_word(t: TokenView, w: Seq<char>) -> bool {
    t matches TokenView::Ident(i) && i.quote is None && spec_to_uppercase(i.value) == w
}

/// The data type named by the first token, with the optional or required
/// length that follows, and the number of tokens it takes (array suffixes
/// aside).
pub open spec fn spec_base_data_type(s: Seq<Token>) -> Option<(DataType, nat)> {
    if s.len() == 0 {
        None
    } else {
        let t = s[0]@;
        let r = s.skip(1);
        let opt = |f: spec_fn(Option<u64>) -> DataType| match spec_opt_precision(r) {
            Some((p, n)) => Some((f(p), n + 1)),
            None => None,
        };
        let req = |f: spec_fn(u64) -> DataType| match spec_precision(r) {
            Some(p) => Some((f(p), 4)),
            None => None,
        };
        let ps = |dec: bool| match spec_opt_precision_scale(r) {
            Some(((p, sc), n)) => Some((
                if dec {
                    DataType::Decimal { precision: p, scale: sc }
                } else {
                    DataType::Numeric { precision: p, scale: sc }
                },
                n + 1,
            )),
            None => None,
        };
        if is_keyword_token(t, Keyword::BOOLEAN) {
            Some((DataType::Boolean, 1))
        } else if is_word(t, "TINYINT"@) {
            opt(|p| DataType::TinyInt(p))
        } else if is_keyword_token(t, Keyword::SMALLINT) {
            opt(|p| DataType::SmallInt(p))
        } else if is_keyword_token(t, Keyword::INT) || is_keyword_token(t, Keyword::INTEGER) {
            opt(|p| DataType::Int(p))
        } else if is_keyword_token(t, Keyword::BIGINT) {
            opt(|p| DataType::BigInt(p))
        } else if is_keyword_token(t, Keyword::NUMERIC) {
            ps(false)
        } else if is_keyword_token(t, Keyword::DECIMAL) || is_keyword_token(t, Keyword::DEC) {
            ps(true)
        } else if is_keyword_token(t, Keyword::FLOAT) {
            opt(|p| DataType::Float(p))
        } else if is_keyword_token(t, Keyword::REAL) {
            Some((DataType::Real, 1))
        } else if is_keyword_token(t, Keyword::DOUBLE) {
            if s.len() > 1 && is_keyword_token(s[1]@, Keyword::PRECISION) {
                Some((DataType::Double, 2))
            } else {
                Some((DataType::Double, 1))
            }
        } else if is_keyword_token(t, Keyword::CHAR) || is_keyword_token(t, Keyword::CHARACTER) {
            if s.len() > 1 && is_keyword_token(s[1]@, Keyword::VARYING) {
                match spec_opt_precision(s.skip(2)) {
                    Some((p, n)) => Some((DataType::Varchar(p), n + 2)),
                    None => None,
                }
            } else {
                opt(|p| DataType::Char(p))
            }
        } else if is_keyword_token(t, Keyword::VARCHAR) {
            opt(|p| DataType::Varchar(p))
        } else if is_keyword_token(t, Keyword::CLOB) {
            req(|p| DataType::Clob(p))
        } else if is_word(t, "TEXT"@) {
            Some((DataType::Text, 1))
        } else if is_keyword_token(t, Keyword::BINARY) {
            req(|p| DataType::Binary(p))
        } else if is_keyword_token(t, Keyword::VARBINARY) {
            req(|p| DataType::Varbinary(p))
        } else if is_keyword_token(t, Keyword::BLOB) {
            req(|p| DataType::Blob(p))
        } else if is_word(t, "BYTEA"@) {
            Some((DataType::Bytea, 1))
        } else if is_keyword_token(t, Keyword::DATE) {
            Some((DataType::Date, 1))
        } else if is_keyword_token(t, Keyword::TIME) {
            Some((DataType::Time, 1))
        } else if is_keyword_token(t, Keyword::TIMESTAMP) {
            Some((DataType::Timestamp, 1))
        } else if is_keyword_token(t, Keyword::INTERVAL) {
            Some((DataType::Interval, 1))
        } else {
            None
        }
    }
}

/// The name under which a data type is written, as read from the front of
/// the tokens: the name of the first keyword or word, save for the
/// synonyms `INTEGER` (written `INT`), `DEC` (`DECIMAL`), `CHARACTER`
/// (`CHAR`) and `CHAR VARYING` or `CHARACTER VARYING` (`VARCHAR`).
pub open spec fn data_type_name_read(s: Seq<Token>) -> Seq<char> {
    let t = s[0]@;
    if is_keyword_token(t, Keyword::INTEGER) {
        "INT"@
    } else if is_keyword_token(t, Keyword::DEC) {
        "DECIMAL"@
    } else if (is_keyword_token(t, Keyword::CHAR) || is_keyword_token(t, Keyword::CHARACTER))
        && s.len() > 1 && is_keyword_token(s[1]@, Keyword::VARYING) {
        "VARCHAR"@
    } else if is_keyword_token(t, Keyword::CHARACTER) {
        "CHAR"@
    } else {
        match t {
            TokenView::Keyword(k, _) => spec_keyword_name(k),
            TokenView::Ident(i) => spec_to_uppercase(i.value),
            _ => Seq::empty(),
        }
    }
}

/// Whether `text` is `name`, alone or followed by a parenthesis or a space.
pub open spec fn written_as(text: Seq<char>, name: Seq<char>) -> bool {
    &&& name.len() <= text.len()
    &&& text.subrange(0, name.len() as int) == name
    &&& (text.len() == name.len() || text[name.len() as int] == '(' || text[name.len() as int] == ' ')
}

proof fn lemma_written_as_itself(name: Seq<char>)
    ensures
        written_as(name, name),
{
    assert(name.subrange(0, name.len() as int) =~= name);
}

proof fn lemma_written_as_paren(name: Seq<char>, rest: Seq<char>)
    ensures
        written_as(name + "("@ + rest, name),
{
    reveal_strlit("(");
    assert((name + "("@ + rest).subrange(0, name.len() as int) =~= name);
    assert((name + "("@ + rest)[name.len() as int] == '(');
}

proof fn lemma_optional_length_written_as(name: Seq<char>, len: Option<u64>)
    ensures
        written_as(optional_length_sql(name, len), name),
{
    match len {
        Some(n) => {
            assert(optional_length_sql(name, len) =~= name + "("@ + (decimal(n as nat) + ")"@));
            lemma_written_as_paren(name, decimal(n as nat) + ")"@);
        },
        None => lemma_written_as_itself(name),
    }
}

/// A data type writes back under the name it was read by: the text of the
/// data type read from the front of the tokens starts with the type name
/// that was read (`BIGINT` is written `BIGINT`, `VARCHAR(10)` starts with
/// `VARCHAR`), synonyms being written under their usual name.
#[verifier::rlimit(100)]
#[verifier::spinoff_prover]
pub proof fn law_data_type_written_as_read(s: Seq<Token>)
    ensures
        spec_base_data_type(s) matches Some((t, _)) ==> written_as(
            data_type_sql(t),
            data_type_name_read(s),
        ),
{
    if s.len() > 0 {
        let t = s[0]@;
        let r = s.skip(1);
        let p: Option<u64> = match spec_opt_precision(r) {
            Some((x, _)) => x,
            None => None,
        };
        let pr: u64 = match spec_precision(r) {
            Some(x) => x,
            None => 0,
        };
        let (pp, sc): (Option<u64>, Option<u64>) = match spec_opt_precision_scale(r) {
            Some((x, _)) => x,
            None => (None, None),
        };
        if is_keyword_token(t, Keyword::BOOLEAN) {
            reveal_strlit("BOOLEAN");
            lemma_written_as_itself("BOOLEAN"@);
        } else if is_word(t, "TINYINT"@) {
            lemma_optional_length_written_as("TINYINT"@, p);
        } else if is_keyword_token(t, Keyword::SMALLINT) {
            reveal_strlit("SMALLINT");
            lemma_optional_length_written_as("SMALLINT"@, p);
        } else if is_keyword_token(t, Keyword::INT) || is_keyword_token(t, Keyword::INTEGER) {
            reveal_strlit("INT");
            lemma_optional_length_written_as("INT"@, p);
        } else if is_keyword_token(t, Keyword::BIGINT) {
            reveal_strlit("BIGINT");
            lemma_optional_length_written_as("BIGINT"@, p);
        } else if is_keyword_token(t, Keyword::NUMERIC) || is_keyword_token(t, Keyword::DECIMAL)
            || is_keyword_token(t, Keyword::DEC) {
            let name = if is_keyword_token(t, Keyword::NUMERIC) {
                "NUMERIC"@
            } else {
                "DECIMAL"@
            };
            reveal_strlit("NUMERIC");
            reveal_strlit("DECIMAL");
            reveal_strlit("NUMERIC(");
            reveal_strlit("DECIMAL(");
            reveal_strlit("(");
            match sc {
                Some(x) => {
                    let rest = decimal(pp->0 as nat) + ","@ + decimal(x as nat) + ")"@;
                    assert("NUMERIC("@ =~= "NUMERIC"@ + "("@);
                    assert("DECIMAL("@ =~= "DECIMAL"@ + "("@);
                    assert(("NUMERIC("@ + decimal(pp->0 as nat) + ","@ + decimal(x as nat) + ")"@)
                        =~= "NUMERIC"@ + "("@ + rest);
                    assert(("DECIMAL("@ + decimal(pp->0 as nat) + ","@ + decimal(x as nat) + ")"@)
                        =~= "DECIMAL"@ + "("@ + rest);
                    lemma_written_as_paren(name, rest);
                },
                None => lemma_optional_length_written_as(name, pp),
            }
        } else if is_keyword_token(t, Keyword::FLOAT) {
            reveal_strlit("FLOAT");
            lemma_optional_length_written_as("FLOAT"@, p);
        } else if is_keyword_token(t, Keyword::REAL) {
            reveal_strlit("REAL");
            lemma_written_as_itself("REAL"@);
        } else if is_keyword_token(t, Keyword::DOUBLE) {
            reveal_strlit("DOUBLE");
            reveal_strlit("DOUBLE PRECISION");
            assert("DOUBLE PRECISION"@.subrange(0, 6) =~= "DOUBLE"@);
        } else if is_keyword_token(t, Keyword::CHAR) || is_keyword_token(t, Keyword::CHARACTER) {
            reveal_strlit("CHAR");
            reveal_strlit("VARCHAR");
            if s.len() > 1 && is_keyword_token(s[1]@, Keyword::VARYING) {
                let v: Option<u64> = match spec_opt_precision(s.skip(2)) {
                    Some((x, _)) => x,
                    None => None,
                };
                lemma_optional_length_written_as("VARCHAR"@, v);
            } else {
                lemma_optional_length_written_as("CHAR"@, p);
            }
        } else if is_keyword_token(t, Keyword::VARCHAR) {
            reveal_strlit("VARCHAR");
            lemma_optional_length_written_as("VARCHAR"@, p);
        } else if is_keyword_token(t, Keyword::CLOB) || is_keyword_token(t, Keyword::BINARY)
            || is_keyword_token(t, Keyword::VARBINARY) || is_keyword_token(t, Keyword::BLOB) {
            reveal_strlit("CLOB");
            reveal_strlit("BINARY");
            reveal_strlit("VARBINARY");
            reveal_strlit("BLOB");
            reveal_strlit("CLOB(");
            reveal_strlit("BINARY(");
            reveal_strlit("VARBINARY(");
            reveal_strlit("BLOB(");
            reveal_strlit("(");
            let rest = decimal(pr as nat) + ")"@;
            assert(("CLOB("@ + decimal(pr as nat) + ")"@) =~= "CLOB"@ + "("@ + rest);
            assert(("BINARY("@ + decimal(pr as nat) + ")"@) =~= "BINARY"@ + "("@ + rest);
            assert(("VARBINARY("@ + decimal(pr as nat) + ")"@) =~= "VARBINARY"@ + "("@ + rest);
            assert(("BLOB("@ + decimal(pr as nat) + ")"@) =~= "BLOB"@ + "("@ + rest);
            lemma_written_as_paren("CLOB"@, rest);
            lemma_written_as_paren("BINARY"@, rest);
            lemma_written_as_paren("VARBINARY"@, rest);
            lemma_written_as_paren("BLOB"@, rest);
        } else if is_word(t, "TEXT"@) {
            lemma_written_as_itself("TEXT"@);
        } else if is_word(t, "BYTEA"@) {
            lemma_written_as_itself("BYTEA"@);
        } else {
            reveal_strlit("DATE");
            reveal_strlit("TIME");
            reveal_strlit("TIMESTAMP");
            reveal_strlit("INTERVAL");
            lemma_written_as_itself("DATE"@);
            lemma_written_as_itself("TIME"@);
            lemma_written_as_itself("TIMESTAMP"@);
            lemma_written_as_itself("INTERVAL"@);
        }
    }
}

/// The number of tokens that name a data type: two for `CHAR VARYING`,
/// `CHARACTER VARYING` and `DOUBLE PRECISION`, one otherwise.
pub open spec fn type_name_token_count(s: Seq<Token>) -> nat {
    if s.len() > 1 && ((is_keyword_token(s[0]@, Keyword::CHAR) || is_keyword_token(
        s[0]@,
        Keyword::CHARACTER,
    )) && is_keyword_token(s[1]@, Keyword::VARYING) || is_keyword_token(s[0]@, Keyword::DOUBLE)
        && is_keyword_token(s[1]@, Keyword::PRECISION)) {
        2
    } else {
        1
    }
}

/// The full name under which a data type read from the front of the tokens
/// is written: the name read, `DOUBLE` being written `DOUBLE PRECISION`.
pub open spec fn type_name_written(s: Seq<Token>) -> Seq<char> {
    if s.len() > 0 && is_keyword_token(s[0]@, Keyword::DOUBLE) {
        "DOUBLE PRECISION"@
    } else {
        data_type_name_read(s)
    }
}

/// The text of a token of a type's parameters: a number as the value read,
/// any other token as its own text.
pub open spec fn param_token_text(t: TokenView) -> Seq<char> {
    match token_uint(t) {
        Some(v) => decimal(v as nat),
        None => spec_token_sql(t),
    }
}

/// The texts of the first `k` tokens, run together.
pub open spec fn params_text(u: Seq<Token>, k: nat) -> Seq<char>
    decreases k,
{
    if k == 0 || k > u.len() {
        Seq::empty()
    } else {
        params_text(u, (k - 1) as nat) + param_token_text(u[k - 1]@)
    }
}

proof fn lemma_paren_tokens()
    ensures
        spec_token_sql(TokenView::LeftParen) == "("@,
        spec_token_sql(TokenView::RightParen) == ")"@,
        spec_token_sql(TokenView::Comma) == ","@,
        token_uint(TokenView::LeftParen) is None,
        token_uint(TokenView::RightParen) is None,
        token_uint(TokenView::Comma) is None,
{
}

proof fn lemma_opt_params(name: Seq<char>, r: Seq<Token>)
    ensures
        spec_opt_precision(r) matches Some((p, k)) ==> k <= r.len() && optional_length_sql(name, p)
            == name + params_text(r, k),
{
    reveal_with_fuel(params_text, 4);
    lemma_paren_tokens();
    if let Some((p, k)) = spec_opt_precision(r) {
        if k == 3 {
            assert(params_text(r, 3) =~= "("@ + decimal(p->0 as nat) + ")"@);
            assert(optional_length_sql(name, p) =~= name + ("("@ + decimal(p->0 as nat) + ")"@));
        } else {
            assert(name + params_text(r, 0) =~= name);
        }
    }
}

proof fn lemma_req_params(name: Seq<char>, r: Seq<Token>)
    ensures
        spec_precision(r) matches Some(p) ==> 3 <= r.len() && name + "("@ + decimal(p as nat) + ")"@
            == name + params_text(r, 3),
{
    reveal_with_fuel(params_text, 4);
    lemma_paren_tokens();
    if let Some(p) = spec_precision(r) {
        assert(params_text(r, 3) =~= "("@ + decimal(p as nat) + ")"@);
        assert(name + "("@ + decimal(p as nat) + ")"@ =~= name + ("("@ + decimal(p as nat) + ")"@));
    }
}

proof fn lemma_scale_params(name: Seq<char>, r: Seq<Token>)
    ensures
        spec_opt_precision_scale(r) matches Some(((p, sc), k)) ==> k <= r.len() && (match sc {
            Some(x) => name + "("@ + decimal(p->0 as nat) + ","@ + decimal(x as nat) + ")"@,
            None => optional_length_sql(name, p),
        }) == name + params_text(r, k),
{
    reveal_with_fuel(params_text, 6);
    lemma_paren_tokens();
    if let Some(((p, sc), k)) = spec_opt_precision_scale(r) {
        if k == 5 {
            let x = sc->0;
            assert(params_text(r, 5) =~= "("@ + decimal(p->0 as nat) + ","@ + decimal(x as nat)
                + ")"@);
            assert(name + "("@ + decimal(p->0 as nat) + ","@ + decimal(x as nat) + ")"@ =~= name
                + ("("@ + decimal(p->0 as nat) + ","@ + decimal(x as nat) + ")"@));
        } else if k == 3 {
            assert(params_text(r, 3) =~= "("@ + decimal(p->0 as nat) + ")"@);
            assert(optional_length_sql(name, p) =~= name + ("("@ + decimal(p->0 as nat) + ")"@));
        } else {
            assert(name + params_text(r, 0) =~= name);
        }
    }
}

/// A data type writes back as the tokens it was read from: its full name
/// (synonyms under their usual name, `DOUBLE` as `DOUBLE PRECISION`), then
/// the tokens of its length, precision and scale run together, each number
/// written as the value read. So `VARCHAR(10)` writes back as `VARCHAR(10)`
/// and `DECIMAL(10,2)` keeps its precision and its scale in order.
#[verifier::rlimit(100)]
#[verifier::spinoff_prover]
pub proof fn law_data_type_text_is_its_tokens(s: Seq<Token>)
    ensures
        spec_base_data_type(s) matches Some((t, n)) ==> {
            let m = type_name_token_count(s);
            &&& m <= n <= s.len()
            &&& data_type_sql(t) == type_name_written(s) + params_text(s.skip(m as int), (n - m) as nat)
        },
{
    if s.len() > 0 {
        let t = s[0]@;
        let r = s.skip(1);
        reveal_strlit("(");
        assert(params_text(r, 0) =~= Seq::<char>::empty());
        assert(params_text(s.skip(2), 0) =~= Seq::<char>::empty());
        if is_keyword_token(t, Keyword::BOOLEAN) {
            reveal_strlit("BOOLEAN");
        } else if is_word(t, "TINYINT"@) {
            lemma_opt_params("TINYINT"@, r);
        } else if is_keyword_token(t, Keyword::SMALLINT) {
            reveal_strlit("SMALLINT");
            lemma_opt_params("SMALLINT"@, r);
        } else if is_keyword_token(t, Keyword::INT) || is_keyword_token(t, Keyword::INTEGER) {
            reveal_strlit("INT");
            lemma_opt_params("INT"@, r);
        } else if is_keyword_token(t, Keyword::BIGINT) {
            reveal_strlit("BIGINT");
            lemma_opt_params("BIGINT"@, r);
        } else if is_keyword_token(t, Keyword::NUMERIC) {
            reveal_strlit("NUMERIC");
            reveal_strlit("NUMERIC(");
            assert("NUMERIC("@ =~= "NUMERIC"@ + "("@);
            lemma_scale_params("NUMERIC"@, r);
        } else if is_keyword_token(t, Keyword::DECIMAL) || is_keyword_token(t, Keyword::DEC) {
            reveal_strlit("DECIMAL");
            reveal_strlit("DECIMAL(");
            assert("DECIMAL("@ =~= "DECIMAL"@ + "("@);
            lemma_scale_params("DECIMAL"@, r);
        } else if is_keyword_token(t, Keyword::FLOAT) {
            reveal_strlit("FLOAT");
            lemma_opt_params("FLOAT"@, r);
        } else if is_keyword_token(t, Keyword::REAL) {
            reveal_strlit("REAL");
        } else if is_keyword_token(t, Keyword::DOUBLE) {
        } else if is_keyword_token(t, Keyword::CHAR) || is_keyword_token(t, Keyword::CHARACTER) {
            reveal_strlit("CHAR");
            reveal_strlit("VARCHAR");
            lemma_opt_params("VARCHAR"@, s.skip(2));
            lemma_opt_params("CHAR"@, r);
        } else if is_keyword_token(t, Keyword::VARCHAR) {
            reveal_strlit("VARCHAR");
            lemma_opt_params("VARCHAR"@, r);
        } else if is_keyword_token(t, Keyword::CLOB) {
            reveal_strlit("CLOB");
            reveal_strlit("CLOB(");
            assert("CLOB("@ =~= "CLOB"@ + "("@);
            lemma_req_params("CLOB"@, r);
        } else if is_keyword_token(t, Keyword::BINARY) {
            reveal_strlit("BINARY");
            reveal_strlit("BINARY(");
            assert("BINARY("@ =~= "BINARY"@ + "("@);
            lemma_req_params("BINARY"@, r);
        } else if is_keyword_token(t, Keyword::VARBINARY) {
            reveal_strlit("VARBINARY");
            reveal_strlit("VARBINARY(");
            assert("VARBINARY("@ =~= "VARBINARY"@ + "("@);
            lemma_req_params("VARBINARY"@, r);
        } else if is_keyword_token(t, Keyword::BLOB) {
            reveal_strlit("BLOB");
            reveal_strlit("BLOB(");
            assert("BLOB("@ =~= "BLOB"@ + "("@);
            lemma_req_params("BLOB"@, r);
        } else {
            reveal_strlit("DATE");
            reveal_strlit("TIME");
            reveal_strlit("TIMESTAMP");
            reveal_strlit("INTERVAL");
        }
    }
}

/// The number of `[]` pairs at the front of the tokens; `None` if a `[` is
/// not closed right away.
pub open spec fn spec_array_suffixes(s: Seq<Token>) -> Option<nat>
    decreases s.len(),
{
    if s.len() > 0 && s[0]@ == TokenView::LeftBracket {
        if s.len() > 1 && s[1]@ == TokenView::RightBracket {
            match spec_array_suffixes(s.skip(2)) {
                Some(k) => Some(k + 1),
                None => None,
            }
        } else {
            None
        }
    } else {
        Some(0)
    }
}

/// The type `t` wrapped in `k` array types.
pub open spec fn wrap_arrays(t: DataType, k: nat) -> DataType
    decreases k,
{
    if k == 0 {
        t
    } else {
        DataType::Array(Box::new(wrap_arrays(t, (k - 1) as nat)))
    }
}

/// The state with the first `n` tokens consumed and the cursor reset.
pub open spec fn skip_state(st: PeekState<Token>, n: nat) -> PeekState<Token> {
    PeekState { items: st.items.skip(n as int), cursor: 0 }
}

impl<'a, D: Dialect> Parser<'a, D> {
    /// Parses an identifier: an identifier token, or a keyword token taken
    /// as an unquoted identifier.
    pub fn parse_identifier(&mut self) -> (r: Result<Ident, ParserError>)
        requires
            old(self).wf(),
        ensures
            final(self).wf(),
            final(self).dialect_in_use() == old(self).dialect_in_use(),
            final(self).state() == spec_next_state(old(self).state()),
            match spec_next(old(self).state()) {
                Some(t) => match word_ident(t@) {
                    Some(i) => r matches Ok(x) && x@ == i,
                    None => r matches Err(e) && error_view(e) == (false, spec_expected_message(
                        "an identifier"@,
                        Some(t@),
                    )),
                },
                None => r matches Err(e) && error_view(e) == (false, spec_expected_message(
                    "an identifier"@,
                    None,
                )),
            },
            r is Ok ==> crate::parser::consumed(old(self).state(), final(self).state()),
    {
        proof {
            crate::parser::lemma_next_state_consumed(old(self).state());
        }
        match self.next_token() {
            Some(Token::Ident(i)) => Ok(i),
            Some(Token::Keyword(_, s)) => Ok(Ident { value: s, quote: None }),
            Some(t) => self.expected("an identifier", Some(&t)),
            None => self.expected("an identifier", None),
        }
    }

    /// Parses the identifiers of an object name.
    fn parse_name_parts(&mut self) -> (r: Result<Vec<Ident>, ParserError>)
        requires
            old(self).wf(),
        ensures
            final(self).wf(),
            final(self).dialect_in_use() == old(self).dialect_in_use(),
            match spec_object_name(old(self).state().items) {
                Some((parts, n)) => r matches Ok(v) && v@.map_values(|i: Ident| i@) == parts
                    && final(self).state() == skip_state(old(self).state(), n),
                None => r is Err,
            },
        decreases old(self).state().items.len(),
    {
        let ghost s = self.state().items;
        let first = self.parse_identifier()?;
        proof {
            assert(s.len() > 0);
            assert(self.state().items =~= s.skip(1));
        }
        if self.next_token_if_is(&Token::Period) {
            assert(self.state().items =~= s.skip(2));
            let rest = self.parse_name_parts();
            match rest {
                Ok(mut v) => {
                    let ghost tail = v@;
                    v.insert(0, first);
                    proof {
                        let (p, n) = spec_object_name(s.skip(2))->0;
                        lemma_object_name_len(s.skip(2));
                        assert(v@.map_values(|i: Ident| i@) =~= seq![first@] + tail.map_values(
                            |i: Ident| i@,
                        ));
                        assert(s.skip(2).skip(n as int) =~= s.skip((n + 2) as int));
                    }
                    Ok(v)
                },
                Err(e) => Err(e),
            }
        } else {
            let v = vec![first];
            proof {
                assert(v@.map_values(|i: Ident| i@) =~= seq![first@]);
                if s.len() > 1 {
                    assert(s[1]@ != TokenView::Period);
                }
            }
            Ok(v)
        }
    }

    /// Parses an object name: identifiers separated by periods.
    pub fn parse_object_name(&mut self) -> (r: Result<ObjectName, ParserError>)
        requires
            old(self).wf(),
        ensures
            final(self).wf(),
            final(self).dialect_in_use() == old(self).dialect_in_use(),
            match spec_object_name(old(self).state().items) {
                Some((parts, n)) => r matches Ok(o) && o@ == parts && final(self).state()
                    == skip_state(old(self).state(), n),
                None => r is Err,
            },
            r is Ok ==> crate::parser::consumed(old(self).state(), final(self).state()),
    {
        proof {
            crate::parser::types::lemma_object_name_len(old(self).state().items);
        }
        let parts = self.parse_name_parts()?;
        Ok(ObjectName(parts))
    }

    /// Parses a literal: a number or string token, `NULL`, `TRUE`, `FALSE`,
    /// a date, time or timestamp literal, or an interval literal.
    pub fn parse_literal(&mut self) -> (r: Result<Literal, ParserError>)
        requires
            old(self).wf(),
        ensures
            final(self).wf(),
            final(self).dialect_in_use() == old(self).dialect_in_use(),
            match spec_literal(old(self).state().items) {
                Some((l, n)) => r matches Ok(x) && x@ == l && final(self).state() == skip_state(
                    old(self).state(),
                    n,
                ),
                None => r is Err,
            },
            r is Ok ==> crate::parser::advanced(old(self).state(), final(self).state()),
    {
        let ghost s = self.state().items;
        self.reset_peek_cursor();
        let is_interval = match self.peek_token() {
            Some(t) => t.is_keyword(Keyword::INTERVAL),
            None => false,
        };
        if is_interval {
            let i = self.parse_literal_interval()?;
            return Ok(Literal::Interval(i));
        }
        match self.next_token() {
            Some(Token::Number(v)) => Ok(Literal::Number(v)),
            Some(Token::String(v)) => Ok(Literal::String(v)),
            Some(Token::NationalString(v)) => Ok(Literal::NationalString(v)),
            Some(Token::HexString(v)) => Ok(Literal::HexString(v)),
            Some(Token::BitString(v)) => Ok(Literal::BitString(v)),
            Some(Token::Keyword(k, w)) => {
                if k == Keyword::NULL {
                    Ok(Literal::Null)
                } else if k == Keyword::TRUE {
                    Ok(Literal::Boolean(true))
                } else if k == Keyword::FALSE {
                    Ok(Literal::Boolean(false))
                } else if k == Keyword::DATE {
                    let value = self.parse_literal_string()?;
                    assert(self.state().items =~= s.skip(2));
                    Ok(Literal::Date(Date { value }))
                } else if k == Keyword::TIME {
                    let value = self.parse_literal_string()?;
                    assert(self.state().items =~= s.skip(2));
                    Ok(Literal::Time(Time { value }))
                } else if k == Keyword::TIMESTAMP || k == Keyword::DATETIME {
                    let value = self.parse_literal_string()?;
                    assert(self.state().items =~= s.skip(2));
                    Ok(Literal::Timestamp(Timestamp { value }))
                } else {
                    let t = Token::Keyword(k, w);
                    self.expected("a literal", Some(&t))
                }
            },
            Some(t) => self.expected("a literal", Some(&t)),
            None => self.expected("a literal", None),
        }
    }

    /// Parses an unsigned integer: a number token of decimal digits whose
    /// value fits in a `u64`.
    pub fn parse_literal_uint(&mut self) -> (r: Result<u64, ParserError>)
        requires
            old(self).wf(),
        ensures
            final(self).wf(),
            final(self).dialect_in_use() == old(self).dialect_in_use(),
            final(self).state() == spec_next_state(old(self).state()),
            match spec_next(old(self).state()) {
                Some(t) => match token_uint(t@) {
                    Some(v) => r == Ok::<u64, ParserError>(v),
                    None => r matches Err(e) && error_view(e) == (false, spec_expected_message(
                        "an unsigned integer"@,
                        Some(t@),
                    )),
                },
                None => r matches Err(e) && error_view(e) == (false, spec_expected_message(
                    "an unsigned integer"@,
                    None,
                )),
            },
            r is Ok ==> crate::parser::consumed(old(self).state(), final(self).state()),
    {
        proof {
            crate::parser::lemma_next_state_consumed(old(self).state());
        }
        match self.next_token() {
            Some(t) => {
                let v = match &t {
                    Token::Number(d) => uint_value(d.as_str()),
                    _ => None,
                };
                match v {
                    Some(v) => Ok(v),
                    None => self.expected("an unsigned integer", Some(&t)),
                }
            },
            None => self.expected("an unsigned integer", None),
        }
    }

    /// Parses a string literal.
    pub fn parse_literal_string(&mut self) -> (r: Result<String, ParserError>)
        requires
            old(self).wf(),
        ensures
            final(self).wf(),
            final(self).dialect_in_use() == old(self).dialect_in_use(),
            final(self).state() == spec_next_state(old(self).state()),
            match spec_next(old(self).state()) {
                Some(t) => match token_string(t@) {
                    Some(v) => r matches Ok(x) && x@ == v,
                    None => r matches Err(e) && error_view(e) == (false, spec_expected_message(
                        "a string literal"@,
                        Some(t@),
                    )),
                },
                None => r matches Err(e) && error_view(e) == (false, spec_expected_message(
                    "a string literal"@,
                    None,
                )),
            },
            r is Ok ==> crate::parser::consumed(old(self).state(), final(self).state()),
    {
        proof {
            crate::parser::lemma_next_state_consumed(old(self).state());
        }
        match self.next_token() {
            Some(Token::String(s)) => Ok(s),
            Some(t) => self.expected("a string literal", Some(&t)),
            None => self.expected("a string literal", None),
        }
    }

    /// Parses `<keyword> '<string>'` and returns the string.
    fn parse_keyword_string(&mut self, keyword: Keyword) -> (r: Result<String, ParserError>)
        requires
            old(self).wf(),
        ensures
            final(self).wf(),
            final(self).dialect_in_use() == old(self).dialect_in_use(),
            ({
                let s = old(self).state().items;
                if s.len() > 1 && is_keyword_token(s[0]@, keyword) && token_string(s[1]@) is Some {
                    r matches Ok(x) && x@ == token_string(s[1]@)->0 && final(self).state()
                        == skip_state(old(self).state(), 2)
                } else {
                    r is Err
                }
            }),
    {
        let ghost s = self.state().items;
        self.reset_peek_cursor();
        self.expect_keyword(keyword)?;
        let v = self.parse_literal_string()?;
        assert(self.state().items =~= s.skip(2));
        Ok(v)
    }

    /// Parses a date literal: `DATE '<date>'`.
    pub fn parse_literal_date(&mut self) -> (r: Result<Date, ParserError>)
        requires
            old(self).wf(),
        ensures
            final(self).wf(),
            final(self).dialect_in_use() == old(self).dialect_in_use(),
            ({
                let s = old(self).state().items;
                if s.len() > 1 && is_keyword_token(s[0]@, Keyword::DATE) && token_string(s[1]@) is Some {
                    r matches Ok(x) && x.value@ == token_string(s[1]@)->0 && final(self).state()
                        == skip_state(old(self).state(), 2)
                } else {
                    r is Err
                }
            }),
    {
        let value = self.parse_keyword_string(Keyword::DATE)?;
        Ok(Date { value })
    }

    /// Parses a time literal: `TIME '<time>'`.
    pub fn parse_literal_time(&mut self) -> (r: Result<Time, ParserError>)
        requires
            old(self).wf(),
        ensures
            final(self).wf(),
            final(self).dialect_in_use() == old(self).dialect_in_use(),
            ({
                let s = old(self).state().items;
                if s.len() > 1 && is_keyword_token(s[0]@, Keyword::TIME) && token_string(s[1]@) is Some {
                    r matches Ok(x) && x.value@ == token_string(s[1]@)->0 && final(self).state()
                        == skip_state(old(self).state(), 2)
                } else {
                    r is Err
                }
            }),
    {
        let value = self.parse_keyword_string(Keyword::TIME)?;
        Ok(Time { value })
    }

    /// Parses a timestamp literal: `TIMESTAMP '<timestamp>'`.
    pub fn parse_literal_timestamp(&mut self) -> (r: Result<Timestamp, ParserError>)
        requires
            old(self).wf(),
        ensures
            final(self).wf(),
            final(self).dialect_in_use() == old(self).dialect_in_use(),
            ({
                let s = old(self).state().items;
                if s.len() > 1 && is_keyword_token(s[0]@, Keyword::TIMESTAMP) && token_string(s[1]@) is Some {
                    r matches Ok(x) && x.value@ == token_string(s[1]@)->0 && final(self).state()
                        == skip_state(old(self).state(), 2)
                } else {
                    r is Err
                }
            }),
    {
        let value = self.parse_keyword_string(Keyword::TIMESTAMP)?;
        Ok(Timestamp { value })
    }

    /// Parses an interval literal:
    /// `INTERVAL '<value>' [<field> [(<p>[, <s>])] [TO <field> [(<s>)]]]`.
    #[verifier::rlimit(100)]
    #[verifier::spinoff_prover]
    pub fn parse_literal_interval(&mut self) -> (r: Result<Interval, ParserError>)
        requires
            old(self).wf(),
        ensures
            final(self).wf(),
            final(self).dialect_in_use() == old(self).dialect_in_use(),
            match spec_interval(old(self).state().items) {
                Some((i, n)) => r matches Ok(x) && x@ == i && final(self).state() == skip_state(
                    old(self).state(),
                    n,
                ),
                None => r is Err,
            },
            r is Ok ==> advanced(old(self).state(), final(self).state()),
    {
        reveal(spec_interval);
        let ghost st = self.state();
        let ghost s = st.items;
        let value = self.parse_keyword_string(Keyword::INTERVAL)?;
        let ghost t = s.skip(2);
        proof {
            assert(skip_state(st, 2).items =~= st.items.skip(2));
            assert(advanced(st, self.state()));
        }
        let mut leading_precision: Option<u64> = None;
        let mut fractional_seconds_precision: Option<u64> = None;
        let mut tailing_field: Option<DateTimeField> = None;
        let leading_field = match self.peek_token() {
            Some(t) => date_time_field_of(t),
            None => None,
        };
        if leading_field.is_some() {
            let ghost z = self.state();
            self.next_token();
            proof {
                lemma_step_advanced(st, z, self.state());
                assert(self.state().items =~= t.skip(1));
            }
            let ghost u = t.skip(1);
            let ghost a = self.state();
            if self.next_token_if_is(&Token::LeftParen) {
                proof { lemma_step_advanced(st, a, self.state()); }
                let ghost b = self.state();
                leading_precision = Some(self.parse_literal_uint()?);
                proof { lemma_step_advanced(st, b, self.state()); }
                let ghost c = self.state();
                if self.next_token_if_is(&Token::Comma) {
                    proof { lemma_step_advanced(st, c, self.state()); }
                    let ghost d = self.state();
                    fractional_seconds_precision = Some(self.parse_literal_uint()?);
                    proof { lemma_step_advanced(st, d, self.state()); }
                }
                let ghost e = self.state();
                self.expect_token(&Token::RightParen)?;
                proof {
                    lemma_step_advanced(st, e, self.state());
                    assert(self.state().items =~= u.skip(u.len() - self.state().items.len()));
                }
            }
            let ghost f = self.state();
            let ghost x = f.items;
            proof {
                match spec_interval_leading_precision(u) {
                    Some((lp, fs1, k)) => {
                        assert(x =~= u.skip(k as int));
                        assert(u.skip(k as int) =~= t.skip(1 + k as int));
                        assert(leading_precision == lp);
                        assert(fractional_seconds_precision == fs1);
                    },
                    None => {},
                }
            }
            if self.parse_keyword(Keyword::TO) {
                proof { lemma_step_advanced(st, f, self.state()); }
                let ghost g = self.state();
                let tf = self.parse_date_time_field()?;
                proof { lemma_step_advanced(st, g, self.state()); }
                tailing_field = Some(tf);
                let ghost h = self.state();
                if self.next_token_if_is(&Token::LeftParen) {
                    proof { lemma_step_advanced(st, h, self.state()); }
                    let ghost i = self.state();
                    fractional_seconds_precision = Some(self.parse_literal_uint()?);
                    proof { lemma_step_advanced(st, i, self.state()); }
                    let ghost j = self.state();
                    self.expect_token(&Token::RightParen)?;
                    proof { lemma_step_advanced(st, j, self.state()); }
                }
            }
            proof {
                assert(self.state().items =~= x.skip(x.len() - self.state().items.len()));
                assert(self.state().items =~= s.skip(s.len() - self.state().items.len()));
            }
        }
        Ok(Interval {
            value,
            leading_field,
            leading_precision,
            tailing_field,
            fractional_seconds_precision,
        })
    }

    /// Parses an optional parenthesized precision `( <n> )`.
    fn parse_optional_precision(&mut self) -> (r: Result<Option<u64>, ParserError>)
        requires
            old(self).wf(),
            old(self).state().cursor == 0,
        ensures
            final(self).wf(),
            final(self).dialect_in_use() == old(self).dialect_in_use(),
            match spec_opt_precision(old(self).state().items) {
                Some((p, n)) => r == Ok::<Option<u64>, ParserError>(p) && final(self).state()
                    == skip_state(old(self).state(), n),
                None => r is Err,
            },
    {
        let ghost s = self.state().items;
        if self.next_token_if_is(&Token::LeftParen) {
            let n = self.parse_literal_uint()?;
            self.expect_token(&Token::RightParen)?;
            assert(self.state().items =~= s.skip(3));
            Ok(Some(n))
        } else {
            assert(s.skip(0) =~= s);
            Ok(None)
        }
    }

    /// Parses an optional parenthesized precision and scale
    /// `( <p> [, <s>] )`.
    fn parse_optional_precision_scale(&mut self) -> (r: Result<(Option<u64>, Option<u64>), ParserError>)
        requires
            old(self).wf(),
            old(self).state().cursor == 0,
        ensures
            final(self).wf(),
            final(self).dialect_in_use() == old(self).dialect_in_use(),
            match spec_opt_precision_scale(old(self).state().items) {
                Some((ps, n)) => r == Ok::<(Option<u64>, Option<u64>), ParserError>(ps)
                    && final(self).state() == skip_state(old(self).state(), n),
                None => r is Err,
            },
    {
        let ghost s = self.state().items;
        if self.next_token_if_is(&Token::LeftParen) {
            let p = self.parse_literal_uint()?;
            if self.next_token_if_is(&Token::Comma) {
                let sc = self.parse_literal_uint()?;
                self.expect_token(&Token::RightParen)?;
                assert(self.state().items =~= s.skip(5));
                Ok((Some(p), Some(sc)))
            } else {
                self.expect_token(&Token::RightParen)?;
                assert(self.state().items =~= s.skip(3));
                Ok((Some(p), None))
            }
        } else {
            assert(s.skip(0) =~= s);
            Ok((None, None))
        }
    }

    /// Parses a required parenthesized length `( <n> )`.
    fn parse_precision(&mut self) -> (r: Result<u64, ParserError>)
        requires
            old(self).wf(),
            old(self).state().cursor == 0,
        ensures
            final(self).wf(),
            final(self).dialect_in_use() == old(self).dialect_in_use(),
            match spec_precision(old(self).state().items) {
                Some(p) => r == Ok::<u64, ParserError>(p) && final(self).state() == skip_state(
                    old(self).state(),
                    3,
                ),
                None => r is Err,
            },
    {
        match self.parse_optional_precision()? {
            Some(n) => Ok(n),
            None => self.expected_here("a length"),
        }
    }

    /// Parses the data type named by the next token and the length that
    /// follows it.
    fn parse_base_data_type(&mut self) -> (r: Result<DataType, ParserError>)
        requires
            old(self).wf(),
            old(self).state().cursor == 0,
        ensures
            final(self).wf(),
            final(self).dialect_in_use() == old(self).dialect_in_use(),
            match spec_base_data_type(old(self).state().items) {
                Some((t, n)) => r == Ok::<DataType, ParserError>(t) && final(self).state()
                    == skip_state(old(self).state(), n),
                None => r is Err,
            },
    {
        let ghost s = self.state().items;
        let t = match self.next_token() {
            Some(t) => t,
            None => {
                return self.expected("a data type", None);
            },
        };
        proof {
            assert(self.state().items =~= s.skip(1));
        }
        let ghost r1 = s.skip(1);
        match &t {
            Token::Keyword(k, _) => {
                let k = *k;
                if k == Keyword::BOOLEAN {
                    Ok(DataType::Boolean)
                } else if k == Keyword::SMALLINT {
                    let p = self.parse_optional_precision()?;
                    proof { lemma_skip_skip(s, 1, (spec_opt_precision(r1)->0).1); }
                    Ok(DataType::SmallInt(p))
                } else if k == Keyword::INT || k == Keyword::INTEGER {
                    let p = self.parse_optional_precision()?;
                    proof { lemma_skip_skip(s, 1, (spec_opt_precision(r1)->0).1); }
                    Ok(DataType::Int(p))
                } else if k == Keyword::BIGINT {
                    let p = self.parse_optional_precision()?;
                    proof { lemma_skip_skip(s, 1, (spec_opt_precision(r1)->0).1); }
                    Ok(DataType::BigInt(p))
                } else if k == Keyword::NUMERIC {
                    let (p, sc) = self.parse_optional_precision_scale()?;
                    proof { lemma_skip_skip(s, 1, (spec_opt_precision_scale(r1)->0).1); }
                    Ok(DataType::Numeric { precision: p, scale: sc })
                } else if k == Keyword::DECIMAL || k == Keyword::DEC {
                    let (p, sc) = self.parse_optional_precision_scale()?;
                    proof { lemma_skip_skip(s, 1, (spec_opt_precision_scale(r1)->0).1); }
                    Ok(DataType::Decimal { precision: p, scale: sc })
                } else if k == Keyword::FLOAT {
                    let p = self.parse_optional_precision()?;
                    proof { lemma_skip_skip(s, 1, (spec_opt_precision(r1)->0).1); }
                    Ok(DataType::Float(p))
                } else if k == Keyword::REAL {
                    Ok(DataType::Real)
                } else if k == Keyword::DOUBLE {
                    if self.parse_keyword(Keyword::PRECISION) {
                        assert(self.state().items =~= s.skip(2));
                    }
                    Ok(DataType::Double)
                } else if k == Keyword::CHAR || k == Keyword::CHARACTER {
                    if self.parse_keyword(Keyword::VARYING) {
                        assert(self.state().items =~= s.skip(2));
                        let p = self.parse_optional_precision()?;
                        proof { lemma_skip_skip(s, 2, (spec_opt_precision(s.skip(2))->0).1); }
                        Ok(DataType::Varchar(p))
                    } else {
                        let p = self.parse_optional_precision()?;
                        proof { lemma_skip_skip(s, 1, (spec_opt_precision(r1)->0).1); }
                        Ok(DataType::Char(p))
                    }
                } else if k == Keyword::VARCHAR {
                    let p = self.parse_optional_precision()?;
                    proof { lemma_skip_skip(s, 1, (spec_opt_precision(r1)->0).1); }
                    Ok(DataType::Varchar(p))
                } else if k == Keyword::CLOB {
                    let p = self.parse_precision()?;
                    proof { lemma_skip_skip(s, 1, 3); }
                    Ok(DataType::Clob(p))
                } else if k == Keyword::BINARY {
                    let p = self.parse_precision()?;
                    proof { lemma_skip_skip(s, 1, 3); }
                    Ok(DataType::Binary(p))
                } else if k == Keyword::VARBINARY {
                    let p = self.parse_precision()?;
                    proof { lemma_skip_skip(s, 1, 3); }
                    Ok(DataType::Varbinary(p))
                } else if k == Keyword::BLOB {
                    let p = self.parse_precision()?;
                    proof { lemma_skip_skip(s, 1, 3); }
                    Ok(DataType::Blob(p))
                } else if k == Keyword::DATE {
                    Ok(DataType::Date)
                } else if k == Keyword::TIME {
                    Ok(DataType::Time)
                } else if k == Keyword::TIMESTAMP {
                    Ok(DataType::Timestamp)
                } else if k == Keyword::INTERVAL {
                    Ok(DataType::Interval)
                } else {
                    self.expected("a data type", Some(&t))
                }
            },
            Token::Ident(i) => {
                if word_is(&t, "TINYINT") {
                    let p = self.parse_optional_precision()?;
                    proof { lemma_skip_skip(s, 1, (spec_opt_precision(r1)->0).1); }
                    Ok(DataType::TinyInt(p))
                } else if word_is(&t, "TEXT") {
                    Ok(DataType::Text)
                } else if word_is(&t, "BYTEA") {
                    Ok(DataType::Bytea)
                } else {
                    self.expected("a data type", Some(&t))
                }
            },
            _ => self.expected("a data type", Some(&t)),
        }
    }

    /// Parses a data type, followed by any number of `[]` for array types.
    #[verifier::loop_isolation(false)]
    pub fn parse_data_type(&mut self) -> (r: Result<DataType, ParserError>)
        requires
            old(self).wf(),
        ensures
            final(self).wf(),
            final(self).dialect_in_use() == old(self).dialect_in_use(),
            match spec_base_data_type(old(self).state().items) {
                Some((t, n)) => match spec_array_suffixes(old(self).state().items.skip(n as int)) {
                    Some(k) => r == Ok::<DataType, ParserError>(wrap_arrays(t, k))
                        && final(self).state() == skip_state(old(self).state(), n + 2 * k),
                    None => r is Err,
                },
                None => r is Err,
            },
            r is Ok ==> crate::parser::consumed(old(self).state(), final(self).state()),
    {
        let ghost st = self.state();
        let ghost s = st.items;
        self.reset_peek_cursor();
        let mut ty = self.parse_base_data_type()?;
        let ghost n = (spec_base_data_type(s)->0).1;
        let ghost base = ty;
        let ghost mut k: nat = 0;
        proof {
            lemma_base_data_type_len(s);
            assert(s.skip(n as int).skip(0) =~= s.skip(n as int));
            assert(self.state().items =~= s.skip(n as int));
        }
        loop
            invariant
                self.wf(),
                self.dialect_in_use() == old(self).dialect_in_use(),
                n <= s.len(),
                n + 2 * k <= s.len(),
                self.state() == (PeekState { items: s.skip((n + 2 * k) as int), cursor: 0 }),
                ty == wrap_arrays(base, k),
                spec_array_suffixes(s.skip(n as int)) == match spec_array_suffixes(
                    s.skip((n + 2 * k) as int),
                ) {
                    Some(j) => Some(j + k),
                    None => None,
                },
            decreases self.state().items.len(),
        {
            let ghost x = self.state().items;
            if !self.next_token_if_is(&Token::LeftBracket) {
                break;
            }
            self.expect_token(&Token::RightBracket)?;
            proof {
                assert(x.skip(2) =~= s.skip((n + 2 * k + 2) as int));
                assert(self.state().items =~= s.skip((n + 2 * k + 2) as int));
                k = k + 1;
            }
            ty = DataType::Array(Box::new(ty));
        }
        Ok(ty)
    }

    /// Parses a date/time field keyword: `YEAR`, `MONTH`, `DAY`, `HOUR`,
    /// `MINUTE` or `SECOND`.
    pub(crate) fn parse_date_time_field(&mut self) -> (r: Result<DateTimeField, ParserError>)
        requires
            old(self).wf(),
        ensures
            final(self).wf(),
            final(self).dialect_in_use() == old(self).dialect_in_use(),
            final(self).state() == spec_next_state(old(self).state()),
            match spec_next(old(self).state()) {
                Some(t) => match token_date_time_field(t@) {
                    Some(f) => r == Ok::<DateTimeField, ParserError>(f),
                    None => r is Err,
                },
                None => r is Err,
            },
    {
        match self.next_token() {
            Some(t) => match date_time_field_of(&t) {
                Some(f) => Ok(f),
                None => self.expected("a date/time field", Some(&t)),
            },
            None => self.expected("a date/time field", None),
        }
    }
}

/// One parsing step from `prev`, which is `start` advanced, gives `start`
/// advanced again: the step leaves the state as it is or consumes the next
/// token.
pub proof fn lemma_step_advanced(start: PeekState<Token>, prev: PeekState<Token>, next: PeekState<Token>)
    requires
        advanced(start, prev),
        next == prev || next == spec_next_state(prev),
    ensures
        advanced(start, next),
{
    if next == spec_next_state(prev) && prev.items.len() > 0 {
        assert(next.items =~= start.items.skip(start.items.len() - next.items.len()));
    }
}

/// Skipping twice skips the sum.
pub proof fn lemma_skip_skip(s: Seq<Token>, a: nat, b: nat)
    requires
        0 <= a,
        0 <= b,
        a + b <= s.len(),
    ensures
        s.skip(a as int).skip(b as int) == s.skip((a + b) as int),
{
    assert(s.skip(a as int).skip(b as int) =~= s.skip((a + b) as int));
}

/// A data type takes at least one of the tokens and no more than there are.
pub proof fn lemma_base_data_type_len(s: Seq<Token>)
    ensures
        spec_base_data_type(s) matches Some((_, n)) ==> 1 <= n <= s.len(),
{
}

/// A literal takes some of the tokens.
pub proof fn lemma_literal_len(s: Seq<Token>)
    ensures
        spec_literal(s) matches Some((_, n)) ==> 1 <= n <= s.len(),
{
    reveal(spec_interval);
    if s.len() > 2 {
        let t = s.skip(2);
        if t.len() > 0 {
            let u = t.skip(1);
            if let Some((lp, fs1, a)) = spec_interval_leading_precision(u) {
                assert(a <= u.len());
                let x = t.skip(1 + a as int);
                if let Some((tf, fs2, b)) = spec_interval_tail(x) {
                    assert(b <= x.len());
                }
            }
        }
    }
}

/// Array suffixes take two tokens each.
pub proof fn lemma_array_suffixes_len(s: Seq<Token>)
    ensures
        spec_array_suffixes(s) matches Some(k) ==> 2 * k <= s.len(),
    decreases s.len(),
{
    if s.len() > 1 && s[0]@ == TokenView::LeftBracket && s[1]@ == TokenView::RightBracket {
        lemma_array_suffixes_len(s.skip(2));
    }
}

/// A data type takes some of the tokens.
pub proof fn lemma_data_type_len(s: Seq<Token>)
    ensures
        spec_data_type(s) matches Some((_, n)) ==> 1 <= n <= s.len(),
{
    lemma_base_data_type_len(s);
    if let Some((t, n)) = spec_base_data_type(s) {
        lemma_array_suffixes_len(s.skip(n as int));
    }
}

/// Whether the token is the unquoted word `w` (in any letter case).
fn word_is(t: &Token, w: &str) -> (b: bool)
    ensures
        b == is_word(t@, w@),
{
    match t {
        Token::Ident(i) => {
            if i.quote.is_some() {
                return false;
            }
            let upper = to_uppercase(i.value.as_str());
            str_equals(w, &chars_of(upper.as_str()))
        },
        _ => false,
    }
}

/// The date/time field that a keyword token names.
fn date_time_field_of(t: &Token) -> (r: Option<DateTimeField>)
    ensures
        r == token_date_time_field(t@),
{
    match t {
        Token::Keyword(k, _) => {
            if *k == Keyword::YEAR {
                Some(DateTimeField::Year)
            } else if *k == Keyword::MONTH {
                Some(DateTimeField::Month)
            } else if *k == Keyword::DAY {
                Some(DateTimeField::Day)
            } else if *k == Keyword::HOUR {
                Some(DateTimeField::Hour)
            } else if *k == Keyword::MINUTE {
                Some(DateTimeField::Minute)
            } else if *k == Keyword::SECOND {
                Some(DateTimeField::Second)
            } else {
                None
            }
        },
        _ => None,
    }
}

/// The value of a string of decimal digits, if it is one and the value fits
/// in a `u64`.
fn uint_value(d: &str) -> (r: Option<u64>)
    ensures
        r == (match spec_uint(d@) {
            Some(v) => if v <= u64::MAX {
                Some(v as u64)
            } else {
                None
            },
            None => None,
        }),
{
    let chars = chars_of(d);
    if chars.len() == 0 {
        return None;
    }
    let mut v: u64 = 0;
    let mut i: usize = 0;
    assert(chars@.take(0) =~= Seq::<char>::empty());
    while i < chars.len()
        invariant
            chars@ == d@,
            0 < chars@.len(),
            i <= chars@.len(),
            i == 0 ==> v == 0,
            i > 0 ==> spec_uint(chars@.take(i as int)) == Some(v as nat),
        decreases chars@.len() - i,
    {
        let c = chars[i];
        let ghost pre = chars@.take(i as int);
        assert(chars@.take(i + 1).drop_last() =~= pre);
        assert(chars@.take(i + 1).last() == c);
        if !('0' <= c && c <= '9') {
            proof {
                lemma_uint_prefix_none(chars@, i + 1);
            }
            return None;
        }
        let digit = (c as u32 - '0' as u32) as u64;
        match v.checked_mul(10) {
            Some(m) => match m.checked_add(digit) {
                Some(n) => {
                    v = n;
                },
                None => {
                    proof {
                        lemma_uint_prefix_big(chars@, i + 1);
                    }
                    return None;
                },
            },
            None => {
                proof {
                    lemma_uint_prefix_big(chars@, i + 1);
                }
                return None;
            },
        }
        i += 1;
    }
    assert(chars@.take(chars@.len() as int) =~= chars@);
    Some(v)
}

/// A string with a non-digit in its first `k` characters has no value.
proof fn lemma_uint_prefix_none(s: Seq<char>, k: int)
    requires
        0 < k <= s.len(),
        spec_uint(s.take(k)) is None,
    ensures
        spec_uint(s) is None,
    decreases s.len() - k,
{
    if k < s.len() {
        assert(s.take(k + 1).drop_last() =~= s.take(k));
        lemma_uint_prefix_none(s, k + 1);
    } else {
        assert(s.take(k) =~= s);
    }
}

/// The value of a string of digits is at least the value of its prefixes.
proof fn lemma_uint_prefix_big(s: Seq<char>, k: int)
    requires
        0 < k <= s.len(),
        spec_uint(s.take(k)) matches Some(v) ==> v > u64::MAX,
    ensures
        spec_uint(s) matches Some(v) ==> v > u64::MAX,
    decreases s.len() - k,
{
    if k < s.len() {
        assert(s.take(k + 1).drop_last() =~= s.take(k));
        lemma_uint_prefix_big(s, k + 1);
    } else {
        assert(s.take(k) =~= s);
    }
}

} // verus!
