//! Line/column coordinates on the terminal grid.
//!
//! A grid coordinate carries a line and a column. During an active gesture the
//! line is signed: the viewport may scroll while the mouse button is held, and
//! a negative line means the point has been rotated past the edge of the
//! retained content. Resolved spans use unsigned coordinates.

use vstd::prelude::*;

verus! {

/// Which half of a cell a selection boundary falls on.
#[derive(Debug, Clone, Copy, PartialEq, Eq, Structural)]
pub enum Side {
    Left,
    Right,
}

/// A (line, column) coordinate on the grid. The line type is `usize` for
/// viewport-anchored points and `isize` for points held by a live gesture.
#[derive(Debug, Clone, Copy, PartialEq, Eq, Structural)]
pub struct Point<L> {
    pub line: L,
    pub col: usize,
}

impl<L> Point<L> {
    pub fn new(line: L, col: usize) -> (p: Self)
        ensures
            p.line == line,
            p.col == col,
    {
        Point { line, col }
    }
}

/// The signed view of an unsigned point, linewise.
pub open spec fn spec_signed(p: Point<usize>) -> Point<isize> {
    Point { line: p.line as isize, col: p.col }
}

/// The unsigned view of a signed point, linewise. A negative line has no
/// unsigned counterpart; the resolution algorithms clamp to the viewport
/// before converting, so they only ever convert non-negative lines.
pub open spec fn spec_unsigned(p: Point<isize>) -> Point<usize> {
    Point { line: p.line as usize, col: p.col }
}

/// Lexicographic order on signed points: lines first, then columns.
pub open spec fn spec_lt_signed(a: Point<isize>, b: Point<isize>) -> bool {
    a.line < b.line || (a.line == b.line && a.col < b.col)
}

/// Lexicographic order on unsigned points: lines first, then columns.
pub open spec fn spec_lt_unsigned(a: Point<usize>, b: Point<usize>) -> bool {
    a.line < b.line || (a.line == b.line && a.col < b.col)
}

impl Point<usize> {
    /// Reinterprets the point with a signed line.
    pub fn into_signed(self) -> (p: Point<isize>)
        requires
            self.line <= isize::MAX,
        ensures
            p == spec_signed(self),
    {
        Point { line: self.line as isize, col: self.col }
    }

    /// Whether `self` comes strictly before `other` in lexicographic order.
    pub fn lt(self, other: Self) -> (r: bool)
        ensures
            r == spec_lt_unsigned(self, other),
    {
        self.line < other.line || (self.line == other.line && self.col < other.col)
    }
}

impl Point<isize> {
    /// Reinterprets the point with an unsigned line.
    pub fn into_unsigned(self) -> (p: Point<usize>)
        requires
            0 <= self.line,
        ensures
            p == spec_unsigned(self),
    {
        Point { line: self.line as usize, col: self.col }
    }

    /// Whether `self` comes strictly before `other` in lexicographic order.
    pub fn lt(self, other: Self) -> (r: bool)
        ensures
            r == spec_lt_signed(self, other),
    {
        self.line < other.line || (self.line == other.line && self.col < other.col)
    }
}

} // verus!
