//! Function calls.
use vstd::prelude::*;

use crate::ast::expression::Expr;
use crate::ast::table::WindowSpec;
use crate::ast::types::{Ident, ObjectName};

verus! {

/// A function call.
#[derive(Debug, PartialEq, Eq)]
pub struct Function {
    /// Whether `DISTINCT` is present, e.g. `COUNT(DISTINCT x)`.
    pub distinct: bool,
    /// The name of the function.
    pub name: ObjectName,
    /// The arguments of the function.
    pub args: Vec<FunctionArg>,
    /// The over clause.
    pub over: Option<WindowSpec>,
}

/// An argument of a function call.
#[derive(Debug, PartialEq, Eq)]
pub enum FunctionArg {
    /// Named argument, `name => arg`.
    Named {
        /// The name.
        name: Ident,
        /// The argument.
        arg: Expr,
    },
    /// Unnamed argument.
    Unnamed(Expr),
}

} // verus!
