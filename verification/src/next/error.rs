//! Errors of the span-tracking lexer and of the parser.
use vstd::prelude::*;

use crate::next::span::{spec_line_column_sql, LineColumn};
use crate::text::push_str;

verus! {

/// Lexer error.
#[derive(Clone, Debug, PartialEq, Eq)]
pub struct LexerError {
    /// The error message.
    pub message: String,
    /// The position of the error.
    pub location: LineColumn,
}

/// The text of a lexer error: `<message> at <position>`.
pub open spec fn spec_next_lexer_error_sql(message: Seq<char>, lc: LineColumn) -> Seq<char> {
    message + " at "@ + spec_line_column_sql(lc)
}

impl LexerError {
    /// Appends the text of the error.
    pub fn write_sql(&self, out: &mut String)
        ensures
            final(out)@ == old(out)@ + spec_next_lexer_error_sql(self.message@, self.location),
    {
        push_str(out, self.message.as_str());
        push_str(out, " at ");
        self.location.write_sql(out);
    }

    /// The text of the error.
    pub fn to_string(&self) -> (s: String)
        ensures
            s@ == spec_next_lexer_error_sql(self.message@, self.location),
    {
        let mut s = String::new();
        self.write_sql(&mut s);
        s
    }
}

} // verus!
