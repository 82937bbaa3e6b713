//! Unary and binary operators.
use vstd::prelude::*;

use crate::ast::text::{binary_operator_sql, unary_operator_sql};
use crate::text::push_str;

verus! {

/// Unary operators.
#[derive(Copy, Clone, Debug, PartialEq, Eq, Hash, Structural)]
pub enum UnaryOperator {
    /// `+`
    Plus,
    /// `-`
    Minus,
    /// `NOT`
    Not,
}

/// Binary operators.
#[derive(Copy, Clone, Debug, PartialEq, Eq, Hash, Structural)]
pub enum BinaryOperator {
    /// `+`
    Plus,
    /// `-`
    Minus,
    /// `*`
    Multiply,
    /// `/`
    Divide,
    /// `%`
    Modulo,
    /// `>`
    Greater,
    /// `<`
    Less,
    /// `>=`
    GreaterOrEqual,
    /// `<=`
    LessOrEqual,
    /// `=`
    Equal,
    /// `<>`
    NotEqual,
    /// `||`
    StringConcat,
    /// `&`
    BitwiseAnd,
    /// `|`
    BitwiseOr,
    /// `^`
    BitwiseXor,
    /// `<<`
    BitwiseLeftShift,
    /// `>>`
    BitwiseRightShift,
    /// `AND`
    And,
    /// `OR`
    Or,
    /// `XOR`
    Xor,
    /// `LIKE`
    Like,
    /// `ILIKE`
    ILike,
    /// `NOT LIKE`
    NotLike,
    /// `NOT ILIKE`
    NotILike,
}

impl UnaryOperator {
    /// Appends the text of the operator.
    pub fn write_sql(&self, out: &mut String)
        ensures
            final(out)@ == old(out)@ + unary_operator_sql(*self),
    {
        match self {
            UnaryOperator::Plus => push_str(out, "+"),
            UnaryOperator::Minus => push_str(out, "-"),
            UnaryOperator::Not => push_str(out, "NOT"),
        }
    }
}

impl BinaryOperator {
    /// Appends the text of the operator.
    pub fn write_sql(&self, out: &mut String)
        ensures
            final(out)@ == old(out)@ + binary_operator_sql(*self),
    {
        let s = match self {
            BinaryOperator::Plus => "+",
            BinaryOperator::Minus => "-",
            BinaryOperator::Multiply => "*",
            BinaryOperator::Divide => "/",
            BinaryOperator::Modulo => "%",
            BinaryOperator::Greater => ">",
            BinaryOperator::Less => "<",
            BinaryOperator::GreaterOrEqual => ">=",
            BinaryOperator::LessOrEqual => "<=",
            BinaryOperator::Equal => "=",
            BinaryOperator::NotEqual => "<>",
            BinaryOperator::StringConcat => "||",
            BinaryOperator::BitwiseAnd => "&",
            BinaryOperator::BitwiseOr => "|",
            BinaryOperator::BitwiseXor => "^",
            BinaryOperator::BitwiseLeftShift => "<<",
            BinaryOperator::BitwiseRightShift => ">>",
            BinaryOperator::And => "AND",
            BinaryOperator::Or => "OR",
            BinaryOperator::Xor => "XOR",
            BinaryOperator::Like => "LIKE",
            BinaryOperator::ILike => "ILIKE",
            BinaryOperator::NotLike => "NOT LIKE",
            BinaryOperator::NotILike => "NOT ILIKE",
        };
        push_str(out, s);
    }
}

} // verus!
