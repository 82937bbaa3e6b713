//! Lexer locations and errors.
use vstd::prelude::*;

use crate::text::{decimal, push_str, push_usize};

verus! {

/// Location info for input: 1-based line and column.
#[derive(Copy, Clone, Debug, PartialEq, Eq, Structural)]
pub struct Location {
    /// The line number, starting at 1.
    pub line: usize,
    /// The column number, starting at 1.
    pub column: usize,
}

/// The location after the character `ch`: a line break starts a new line at
/// column 1, any other character moves one column to the right.
pub open spec fn spec_advance(loc: Location, ch: char) -> Location {
    if ch == '\n' {
        Location { line: (loc.line + 1) as usize, column: 1 }
    } else {
        Location { line: loc.line, column: (loc.column + 1) as usize }
    }
}

/// The location after the characters `s[from..to]`, starting at `loc`.
pub open spec fn spec_advance_over(loc: Location, s: Seq<char>, from: int, to: int) -> Location
    decreases to - from,
{
    if to <= from {
        loc
    } else {
        spec_advance(spec_advance_over(loc, s, from, to - 1), s[to - 1])
    }
}

/// The text of a location: `Line: <line>, Column: <column>`.
pub open spec fn spec_location_sql(loc: Location) -> Seq<char> {
    "Line: "@ + decimal(loc.line as nat) + ", Column: "@ + decimal(loc.column as nat)
}

impl Location {
    /// The start of the input: line 1, column 1.
    pub fn default() -> (l: Location)
        ensures
            l == (Location { line: 1, column: 1 }),
    {
        Location { line: 1, column: 1 }
    }

    /// Moves the location over the character `ch`.
    pub fn advance(&mut self, ch: char)
        requires
            old(self).line < usize::MAX,
            old(self).column < usize::MAX,
        ensures
            *final(self) == spec_advance(*old(self), ch),
    {
        if ch == '\n' {
            self.line = self.line + 1;
            self.column = 1;
        } else {
            self.column = self.column + 1;
        }
    }

    /// Creates a lexer error with the given message at this location.
    pub fn into_error(self, message: &str) -> (e: LexerError)
        ensures
            e.message@ == message@,
            e.location == self,
    {
        LexerError { message: String::from_str(message), location: self }
    }

    /// Appends the text of the location.
    pub fn write_sql(&self, out: &mut String)
        ensures
            final(out)@ == old(out)@ + spec_location_sql(*self),
    {
        push_str(out, "Line: ");
        push_usize(out, self.line);
        push_str(out, ", Column: ");
        push_usize(out, self.column);
    }

    /// The text of the location.
    pub fn to_string(&self) -> (s: String)
        ensures
            s@ == spec_location_sql(*self),
    {
        let mut s = String::new();
        self.write_sql(&mut s);
        s
    }
}

/// Lexer error.
#[derive(Clone, Debug, PartialEq, Eq)]
pub struct LexerError {
    /// The error message.
    pub message: String,
    /// The location of the error.
    pub location: Location,
}

/// The text of a lexer error: `<message> at <location>`.
pub open spec fn spec_lexer_error_sql(message: Seq<char>, loc: Location) -> Seq<char> {
    message + " at "@ + spec_location_sql(loc)
}

impl LexerError {
    /// Appends the text of the error.
    pub fn write_sql(&self, out: &mut String)
        ensures
            final(out)@ == old(out)@ + spec_lexer_error_sql(self.message@, self.location),
    {
        push_str(out, self.message.as_str());
        push_str(out, " at ");
        self.location.write_sql(out);
    }

    /// The text of the error.
    pub fn to_string(&self) -> (s: String)
        ensures
            s@ == spec_lexer_error_sql(self.message@, self.location),
    {
        let mut s = String::new();
        self.write_sql(&mut s);
        s
    }
}

} // verus!
