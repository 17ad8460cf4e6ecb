//! Ready-made geometry capabilities.
//!
//! The selection engine only ever borrows its geometry through the
//! [`Dimensions`](crate::selection::Dimensions) and
//! [`SemanticSearch`](crate::selection::SemanticSearch) capabilities, which a
//! screen buffer usually implements. The two snapshots here implement them for
//! a bare viewport without cell content: [`CellGrid`] treats every cell as its
//! own word, [`RowGrid`] treats every row as one word.

use vstd::prelude::*;

use crate::index::Point;
use crate::selection::{Dimensions, SemanticSearch};

verus! {

/// A fixed-size viewport in which every cell is its own semantic word: a word
/// boundary search stays at the queried point.
#[derive(Debug, Clone, Copy)]
pub struct CellGrid {
    lines: usize,
    cols: usize,
}

impl CellGrid {
    #[verifier::type_invariant]
    spec fn inv(self) -> bool {
        1 <= self.lines <= isize::MAX && 1 <= self.cols
    }

    /// A viewport of `lines` rows and `cols` columns.
    pub fn new(lines: usize, cols: usize) -> (g: CellGrid)
        requires
            1 <= lines <= isize::MAX,
            1 <= cols,
        ensures
            g.spec_dimensions() == (Point { line: lines, col: cols }),
    {
        CellGrid { lines, cols }
    }
}

impl Dimensions for CellGrid {
    closed spec fn spec_dimensions(&self) -> Point<usize> {
        Point { line: self.lines, col: self.cols }
    }

    fn dimensions(&self) -> (d: Point<usize>) {
        proof {
            use_type_invariant(self);
        }
        Point { line: self.lines, col: self.cols }
    }
}

impl SemanticSearch for CellGrid {
    closed spec fn spec_search_left(&self, p: Point<usize>) -> Point<usize> {
        p
    }

    closed spec fn spec_search_right(&self, p: Point<usize>) -> Point<usize> {
        p
    }

    fn semantic_search_left(&self, p: Point<usize>) -> (r: Point<usize>) {
        p
    }

    fn semantic_search_right(&self, p: Point<usize>) -> (r: Point<usize>) {
        p
    }
}

/// A fixed-size viewport in which every row is one semantic word: a word
/// boundary search snaps to the queried line's first or last column.
#[derive(Debug, Clone, Copy)]
pub struct RowGrid {
    lines: usize,
    cols: usize,
}

impl RowGrid {
    #[verifier::type_invariant]
    spec fn inv(self) -> bool {
        1 <= self.lines <= isize::MAX && 1 <= self.cols
    }

    /// A viewport of `lines` rows and `cols` columns.
    pub fn new(lines: usize, cols: usize) -> (g: RowGrid)
        requires
            1 <= lines <= isize::MAX,
            1 <= cols,
        ensures
            g.spec_dimensions() == (Point { line: lines, col: cols }),
            forall|p: Point<usize>|
                g.spec_search_left(p) == (Point { line: p.line, col: 0usize }),
            forall|p: Point<usize>|
                g.spec_search_right(p) == (Point { line: p.line, col: (cols - 1) as usize }),
    {
        RowGrid { lines, cols }
    }
}

impl Dimensions for RowGrid {
    closed spec fn spec_dimensions(&self) -> Point<usize> {
        Point { line: self.lines, col: self.cols }
    }

    fn dimensions(&self) -> (d: Point<usize>) {
        proof {
            use_type_invariant(self);
        }
        Point { line: self.lines, col: self.cols }
    }
}

impl SemanticSearch for RowGrid {
    closed spec fn spec_search_left(&self, p: Point<usize>) -> Point<usize> {
        Point { line: p.line, col: 0usize }
    }

    closed spec fn spec_search_right(&self, p: Point<usize>) -> Point<usize> {
        Point { line: p.line, col: (self.cols - 1) as usize }
    }

    fn semantic_search_left(&self, p: Point<usize>) -> (r: Point<usize>) {
        Point { line: p.line, col: 0 }
    }

    fn semantic_search_right(&self, p: Point<usize>) -> (r: Point<usize>) {
        proof {
            use_type_invariant(self);
        }
        Point { line: p.line, col: self.cols - 1 }
    }
}

} // verus!
