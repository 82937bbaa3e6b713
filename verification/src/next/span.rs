//! Source locations and regions.
use vstd::prelude::*;

use crate::text::{push_str, push_usize, decimal};

verus! {

/// A line-column pair: the begin or the end of a `Span`.
#[derive(Copy, Clone, Debug, PartialEq, Eq, PartialOrd, Ord, Structural)]
pub struct LineColumn {
    /// The 1-indexed line in the source code.
    pub line: usize,
    /// The 0-indexed column (in characters) in the source code.
    pub column: usize,
}

/// The position after the character `ch`: a line break starts a new line at
/// column 0, any other character moves one column to the right.
pub open spec fn spec_lc_advance(lc: LineColumn, ch: char) -> LineColumn {
    if ch == '\n' {
        LineColumn { line: (lc.line + 1) as usize, column: 0 }
    } else {
        LineColumn { line: lc.line, column: (lc.column + 1) as usize }
    }
}

/// The position after the characters `s[from..to]`, starting at `lc`.
pub open spec fn spec_lc_advance_over(lc: LineColumn, s: Seq<char>, from: int, to: int) -> LineColumn
    decreases to - from,
{
    if to <= from {
        lc
    } else {
        spec_lc_advance(spec_lc_advance_over(lc, s, from, to - 1), s[to - 1])
    }
}

/// The text of a line-column pair: `Line: <line>, Column: <column>`.
pub open spec fn spec_line_column_sql(lc: LineColumn) -> Seq<char> {
    "Line: "@ + decimal(lc.line as nat) + ", Column: "@ + decimal(lc.column as nat)
}

impl LineColumn {
    /// Creates a new `LineColumn` with the given line and column.
    pub fn new(line: usize, column: usize) -> (lc: LineColumn)
        ensures
            lc == (LineColumn { line, column }),
    {
        LineColumn { line, column }
    }

    /// The start of the input: line 1, column 0.
    pub fn default() -> (lc: LineColumn)
        ensures
            lc == (LineColumn { line: 1, column: 0 }),
    {
        LineColumn { line: 1, column: 0 }
    }

    /// Moves the position over the character `ch`.
    pub fn advance(&mut self, ch: char)
        requires
            old(self).line < usize::MAX,
            old(self).column < usize::MAX,
        ensures
            *final(self) == spec_lc_advance(*old(self), ch),
    {
        if ch == '\n' {
            self.column = 0;
            self.line = self.line + 1;
        } else {
            self.column = self.column + 1;
        }
    }

    /// Appends the text of the position.
    pub fn write_sql(&self, out: &mut String)
        ensures
            final(out)@ == old(out)@ + spec_line_column_sql(*self),
    {
        push_str(out, "Line: ");
        push_usize(out, self.line);
        push_str(out, ", Column: ");
        push_usize(out, self.column);
    }

    /// The text of the position.
    pub fn to_string(&self) -> (s: String)
        ensures
            s@ == spec_line_column_sql(*self),
    {
        let mut s = String::new();
        self.write_sql(&mut s);
        s
    }
}

/// A region of source code.
#[derive(Copy, Clone, Debug, PartialEq, Eq, Structural)]
pub struct Span {
    /// Where the region starts.
    pub start: LineColumn,
    /// Where the region ends.
    pub end: LineColumn,
}

impl Span {
    /// Creates an empty span at the start of the input.
    pub fn new() -> (s: Span)
        ensures
            s == (Span { start: LineColumn { line: 1, column: 0 }, end: LineColumn { line: 1, column: 0 } }),
    {
        Span { start: LineColumn::default(), end: LineColumn::default() }
    }

    /// Creates a new `Span` with the given start and end positions.
    pub fn with(start: LineColumn, end: LineColumn) -> (s: Span)
        ensures
            s == (Span { start, end }),
    {
        Span { start, end }
    }
}

/// A syntax tree node that can provide the `Span` of its complete contents.
pub trait Spanned {
    /// Returns a `Span` covering the complete contents of this node.
    fn span(&self) -> Span;
}

} // verus!
