//! State management for a selection in the grid.
//!
//! A selection starts when the mouse is clicked and is updated on every
//! pointer move while the button is held. There are three modes, each with its
//! own constructor: [`Selection::simple`] tracks exactly which cells are
//! covered, with half-cell precision; [`Selection::semantic`] widens the
//! gesture to the nearest word boundaries; [`Selection::lines`] always covers
//! entire rows. The gesture's endpoints are kept unordered; ordering, side
//! adjustment and viewport clamping happen lazily in [`Selection::to_span`],
//! which resolves the gesture against a geometry snapshot into an inclusive
//! [`Span`] of cells, or `None` when nothing is covered.

use vstd::prelude::*;

use crate::index::{Point, Side, spec_lt_signed, spec_lt_unsigned, spec_signed, spec_unsigned};

verus! {

/// The two endpoints of a gesture: `start` is where the gesture began and
/// never moves; `end` follows the pointer. The pair is not kept ordered.
#[derive(Debug, Clone, Copy, PartialEq, Eq, Structural)]
pub struct Region<T> {
    pub start: T,
    pub end: T,
}

/// A point together with the side of the cell the boundary touches.
#[derive(Debug, Clone, Copy, PartialEq, Eq, Structural)]
pub struct Anchor {
    pub point: Point<isize>,
    pub side: Side,
}

impl Anchor {
    fn new(point: Point<isize>, side: Side) -> (a: Anchor)
        ensures
            a == (Anchor { point, side }),
    {
        Anchor { point, side }
    }
}

/// A type that can expand a given point to the nearest word boundary.
///
/// Usually implemented by the screen buffer, which knows which characters
/// break a word. What counts as a boundary is entirely the implementor's
/// policy: each executable search must only agree with the implementor's own
/// specification of it.
pub trait SemanticSearch {
    /// The word boundary at or left of `p`, as the implementor defines it.
    spec fn spec_search_left(&self, p: Point<usize>) -> Point<usize>;

    /// The word boundary at or right of `p`, as the implementor defines it.
    spec fn spec_search_right(&self, p: Point<usize>) -> Point<usize>;

    /// Find the nearest semantic boundary to the left of the provided point.
    fn semantic_search_left(&self, p: Point<usize>) -> (r: Point<usize>)
        ensures
            r == self.spec_search_left(p),
    ;

    /// Find the nearest semantic boundary to the right of the provided point.
    fn semantic_search_right(&self, p: Point<usize>) -> (r: Point<usize>)
        ensures
            r == self.spec_search_right(p),
    ;
}

/// A type that has 2-dimensional boundaries.
pub trait Dimensions {
    /// The size of the area: `line` rows and `col` columns.
    spec fn spec_dimensions(&self) -> Point<usize>;

    /// Get the size of the area. A viewport always has at least one cell, and
    /// its row count fits a signed line.
    fn dimensions(&self) -> (d: Point<usize>)
        ensures
            d == self.spec_dimensions(),
            1 <= d.line <= isize::MAX,
            1 <= d.col,
    ;
}

/// Describes a selected region of the grid.
///
/// `start` of each region is always the gesture's origin and `end` the most
/// recent pointer position; no normalization happens before resolution.
#[derive(Debug, Clone, PartialEq, Eq, Structural)]
pub enum Selection {
    Simple {
        /// The region representing start and end of the cursor movement.
        region: Region<Anchor>,
    },
    Semantic {
        /// The region representing start and end of the cursor movement.
        region: Region<Point<isize>>,
    },
    Lines {
        /// The region representing start and end of the cursor movement.
        region: Region<Point<isize>>,
        /// The line under the initial point. This is always selected
        /// regardless of which way the cursor is moved.
        initial_line: isize,
    },
}

/// Whether every line held by the selection, shifted by `offset`, still fits
/// a signed line.
pub open spec fn rotate_fits(s: Selection, offset: int) -> bool {
    match s {
        Selection::Simple { region } => {
            &&& line_shift_fits(region.start.point.line, offset)
            &&& line_shift_fits(region.end.point.line, offset)
        },
        Selection::Semantic { region } => {
            &&& line_shift_fits(region.start.line, offset)
            &&& line_shift_fits(region.end.line, offset)
        },
        Selection::Lines { region, initial_line } => {
            &&& line_shift_fits(region.start.line, offset)
            &&& line_shift_fits(region.end.line, offset)
            &&& line_shift_fits(initial_line, offset)
        },
    }
}

/// Whether `line + offset` stays within the signed line range.
pub open spec fn line_shift_fits(line: isize, offset: int) -> bool {
    isize::MIN <= line + offset <= isize::MAX
}

/// The point `p` with its line shifted by `offset`.
pub open spec fn spec_shift_point(p: Point<isize>, offset: int) -> Point<isize> {
    Point { line: (p.line + offset) as isize, col: p.col }
}

/// The anchor `a` with its line shifted by `offset`.
pub open spec fn spec_shift_anchor(a: Anchor, offset: int) -> Anchor {
    Anchor { point: spec_shift_point(a.point, offset), side: a.side }
}

/// The selection `s` with every line it holds shifted by `offset`.
pub open spec fn spec_rotate(s: Selection, offset: int) -> Selection {
    match s {
        Selection::Simple { region } => Selection::Simple {
            region: Region {
                start: spec_shift_anchor(region.start, offset),
                end: spec_shift_anchor(region.end, offset),
            },
        },
        Selection::Semantic { region } => Selection::Semantic {
            region: Region {
                start: spec_shift_point(region.start, offset),
                end: spec_shift_point(region.end, offset),
            },
        },
        Selection::Lines { region, initial_line } => Selection::Lines {
            region: Region {
                start: spec_shift_point(region.start, offset),
                end: spec_shift_point(region.end, offset),
            },
            initial_line: (initial_line + offset) as isize,
        },
    }
}

impl Selection {
    /// Starts a cell-precise selection: both endpoints equal the click point
    /// and side.
    pub fn simple(location: Point<usize>, side: Side) -> (s: Selection)
        requires
            location.line <= isize::MAX,
        ensures
            s == (Selection::Simple {
                region: Region {
                    start: Anchor { point: spec_signed(location), side },
                    end: Anchor { point: spec_signed(location), side },
                },
            }),
    {
        Selection::Simple {
            region: Region {
                start: Anchor::new(location.into_signed(), side),
                end: Anchor::new(location.into_signed(), side),
            },
        }
    }

    /// Starts a word-precise selection: both endpoints equal the click point.
    pub fn semantic(point: Point<usize>) -> (s: Selection)
        requires
            point.line <= isize::MAX,
        ensures
            s == (Selection::Semantic {
                region: Region { start: spec_signed(point), end: spec_signed(point) },
            }),
    {
        Selection::Semantic {
            region: Region { start: point.into_signed(), end: point.into_signed() },
        }
    }

    /// Starts a line-precise selection and records the initial line, which is
    /// always included in the resolved range regardless of drag direction.
    pub fn lines(point: Point<usize>) -> (s: Selection)
        requires
            point.line <= isize::MAX,
        ensures
            s == (Selection::Lines {
                region: Region { start: spec_signed(point), end: spec_signed(point) },
                initial_line: point.line as isize,
            }),
    {
        Selection::Lines {
            region: Region { start: point.into_signed(), end: point.into_signed() },
            initial_line: point.line as isize,
        }
    }

    /// Shifts every line held by the selection by `offset`, so that the
    /// gesture keeps tracking the same buffer content when the viewport
    /// scrolls.
    pub fn rotate(&mut self, offset: isize)
        requires
            rotate_fits(*old(self), offset as int),
        ensures
            *final(self) == spec_rotate(*old(self), offset as int),
    {
        match *self {
            Selection::Simple { ref mut region } => {
                region.start.point.line = region.start.point.line + offset;
                region.end.point.line = region.end.point.line + offset;
            },
            Selection::Semantic { ref mut region } => {
                region.start.line = region.start.line + offset;
                region.end.line = region.end.line + offset;
            },
            Selection::Lines { ref mut region, ref mut initial_line } => {
                region.start.line = region.start.line + offset;
                region.end.line = region.end.line + offset;
                *initial_line = *initial_line + offset;
            },
        }
    }

    /// Overwrites the `end` endpoint of the region with the latest pointer
    /// position; the `start` endpoint never moves. The `side` matters only
    /// for a cell-precise selection and is ignored by the other modes.
    pub fn update(&mut self, location: Point<usize>, side: Side)
        requires
            location.line <= isize::MAX,
        ensures
            *final(self) == spec_update(*old(self), location, side),
    {
        // Always update the `end`; normalization happens during span
        // resolution.
        match *self {
            Selection::Simple { ref mut region } => {
                region.end = Anchor::new(location.into_signed(), side);
            },
            Selection::Semantic { ref mut region } => {
                region.end = location.into_signed();
            },
            Selection::Lines { ref mut region, .. } => {
                region.end = location.into_signed();
            },
        }
    }
}

/// The selection `s` with its `end` endpoint replaced by `location` (and, for
/// a cell-precise selection, `side`).
pub open spec fn spec_update(s: Selection, location: Point<usize>, side: Side) -> Selection {
    match s {
        Selection::Simple { region } => Selection::Simple {
            region: Region {
                start: region.start,
                end: Anchor { point: spec_signed(location), side },
            },
        },
        Selection::Semantic { region } => Selection::Semantic {
            region: Region { start: region.start, end: spec_signed(location) },
        },
        Selection::Lines { region, initial_line } => Selection::Lines {
            region: Region { start: region.start, end: spec_signed(location) },
            initial_line,
        },
    }
}

/// How to interpret the endpoints of a [`Span`].
#[derive(Debug, Clone, Copy, PartialEq, Eq, Structural)]
pub enum SpanType {
    /// Includes the beginning and end locations.
    Inclusive,
    /// Excludes both the beginning and the end.
    Exclusive,
    /// Excludes the last cell of the selection.
    ExcludeTail,
    /// Excludes the first cell of the selection.
    ExcludeFront,
}

/// A resolved span of selected cells, together with the column count the
/// geometry had when the span was made.
#[derive(Debug, Clone, Copy, PartialEq, Eq, Structural)]
pub struct Span {
    pub front: Point<usize>,
    pub tail: Point<usize>,
    pub cols: usize,
    /// Says whether the two ends are included or not.
    pub ty: SpanType,
}

/// The normalized endpoints of a cell-precise region: `front` is the endpoint
/// with the smaller line (the visually lower one; on equal lines, the larger
/// column), `tail` the other, each keeping its own side.
pub open spec fn spec_order_simple(region: Region<Anchor>) -> (Point<isize>, Point<isize>, Side, Side) {
    let start = region.start.point;
    let end = region.end.point;
    if start.line > end.line || (start.line == end.line && start.col <= end.col) {
        (end, start, region.end.side, region.start.side)
    } else {
        (start, end, region.start.side, region.end.side)
    }
}

/// Whether a cell-precise region covers nothing: a zero-width click with equal
/// sides, two facing half-cells of adjacent columns, or a region that lies
/// entirely past the retained content.
pub open spec fn spec_simple_is_empty(front: Point<isize>, tail: Point<isize>, front_side: Side, tail_side: Side) -> bool {
    ||| (front == tail && front_side == tail_side)
    ||| (tail_side == Side::Right && front_side == Side::Left && front.line == tail.line
        && front.col == tail.col + 1)
    ||| tail.line < 0
}

/// The resolved span of a cell-precise region on a grid `cols` columns wide.
///
/// After ordering the anchors, a `Left` front side excludes the front cell
/// itself (the boundary starts after that half-cell), wrapping to the last
/// column of the line above when the front sits at column zero; a `Right`
/// tail side includes the tail cell by growing the tail one column. A front
/// below the retained content — on either screen — is clamped to the
/// viewport's bottom-right extent, or the whole selection resolves to `None`
/// when the tail leaves nothing visible above it.
pub open spec fn spec_span_simple(region: Region<Anchor>, cols: usize) -> Option<Span> {
    let (front0, tail0, front_side, tail_side) = spec_order_simple(region);
    if spec_simple_is_empty(front0, tail0, front_side, tail_side) {
        Option::None
    } else {
        let front1 = if front_side == Side::Left && front0 != tail0 {
            if front0.col == 0 {
                Point { line: (front0.line + 1) as isize, col: (cols - 1) as usize }
            } else {
                Point { line: front0.line, col: (front0.col - 1) as usize }
            }
        } else {
            front0
        };
        let tail1 = if tail_side == Side::Right && front1 != tail0 {
            Point { line: tail0.line, col: (tail0.col + 1) as usize }
        } else {
            tail0
        };
        if front1.line < 0 && tail1.line == 0 && tail1.col > cols - 1 {
            Option::None
        } else {
            let front2 = if front1.line < 0 {
                Point { line: 0isize, col: (cols - 1) as usize }
            } else {
                front1
            };
            Option::Some(Span {
                cols,
                front: spec_unsigned(front2),
                tail: spec_unsigned(tail1),
                ty: SpanType::Inclusive,
            })
        }
    }
}

impl Selection {
    /// Resolves a cell-precise region against the grid's width. The resolved
    /// pair is ordered: the front never lies above the tail, and on one line
    /// the tail's column never passes the front's.
    fn span_simple<G: Dimensions>(grid: &G, region: &Region<Anchor>) -> (r: Option<Span>)
        requires
            region.start.point.col < grid.spec_dimensions().col,
            region.end.point.col < grid.spec_dimensions().col,
        ensures
            r == spec_span_simple(*region, grid.spec_dimensions().col),
            r matches Some(span) ==> span.front.line <= span.tail.line
                && (span.front.line == span.tail.line ==> span.tail.col <= span.front.col),
    {
        let start = region.start.point;
        let start_side = region.start.side;
        let end = region.end.point;
        let end_side = region.end.side;
        let cols = grid.dimensions().col;

        // Make sure front is always the "bottom" and tail is always the "top".
        let (mut front, mut tail, front_side, tail_side) =
            if start.line > end.line || (start.line == end.line && start.col <= end.col) {
                // Selected upward; start/end are swapped.
                (end, start, end_side, start_side)
            } else {
                // Selected downward; no swapping.
                (start, end, start_side, end_side)
            };

        // No selection for a single cell with identical sides, or two cells
        // with right+left sides, or a region past the retained content.
        if (front == tail && front_side == tail_side)
            || (tail_side == Side::Right && front_side == Side::Left && front.line == tail.line
                && front.col == tail.col + 1)
            || tail.line < 0
        {
            return None;
        }

        // Remove the last cell if the selection ends to the left of a cell.
        if front_side == Side::Left && start != end {
            // Special case when the selection starts to the left of the first
            // cell.
            if front.col == 0 {
                front.col = cols - 1;
                front.line = front.line + 1;
            } else {
                front.col = front.col - 1;
            }
        }

        // Remove the first cell if the selection starts at the right of a
        // cell.
        if tail_side == Side::Right && front != tail {
            tail.col = tail.col + 1;
        }

        // Clamp a selection below the retained content to the visible
        // region; when the tail leaves nothing visible above the clamp
        // either, nothing is selected.
        if front.line < 0 {
            if tail.line == 0 && tail.col > cols - 1 {
                return None;
            }
            front.line = 0;
            front.col = cols - 1;
        }

        // Return the selection with all cells inclusive.
        Some(Span {
            cols,
            front: front.into_unsigned(),
            tail: tail.into_unsigned(),
            ty: SpanType::Inclusive,
        })
    }
}

/// The resolved span of a word-precise region.
///
/// The raw endpoints are put in lexicographic order and clamped to the
/// viewport: on the alternate screen a region wholly above it resolves to
/// `None` and one partly above it is clamped to the top row, and on either
/// screen a region wholly below the retained content resolves to `None` and
/// one partly below it is clamped to the bottom-right cell. The clamped pair
/// is widened to the nearest word boundaries — outward from each endpoint —
/// and ordered once more, since the boundaries come back from the grid's own
/// policy.
pub open spec fn spec_span_semantic<G: SemanticSearch>(
    grid: &G,
    region: Region<Point<isize>>,
    dim: Point<usize>,
    alt_screen: bool,
) -> Option<Span> {
    let cols = dim.col;
    let lines = dim.line as isize;
    let forward = spec_lt_signed(region.start, region.end);
    let front0 = if forward { region.start } else { region.end };
    let tail0 = if forward { region.end } else { region.start };
    // Don't show a selection above the visible region; clamp one partly
    // above it to the viewport's top row.
    let none_above = alt_screen && tail0.line >= lines && front0.line >= lines;
    let tail1 = if alt_screen && tail0.line >= lines {
        Point { line: (lines - 1) as isize, col: 0usize }
    } else {
        tail0
    };
    // Don't show a selection below the retained content; clamp one partly
    // below it to the viewport's bottom-right cell.
    let none_below = front0.line < 0 && tail1.line < 0;
    let front1 = if front0.line < 0 && tail1.line >= 0 {
        Point { line: 0isize, col: (cols - 1) as usize }
    } else {
        front0
    };
    if none_above || none_below {
        Option::None
    } else {
        let same_line_forward = spec_lt_signed(front1, tail1) && front1.line == tail1.line;
        let start = if same_line_forward {
            grid.spec_search_left(spec_unsigned(front1))
        } else {
            grid.spec_search_right(spec_unsigned(front1))
        };
        let end = if same_line_forward {
            grid.spec_search_right(spec_unsigned(tail1))
        } else {
            grid.spec_search_left(spec_unsigned(tail1))
        };
        let front2 = if spec_lt_unsigned(end, start) { end } else { start };
        let tail2 = if spec_lt_unsigned(end, start) { start } else { end };
        Option::Some(Span { cols, front: front2, tail: tail2, ty: SpanType::Inclusive })
    }
}

/// The resolved span of a full-line region: every row between the initial
/// line and both gesture endpoints, covered from column zero to the last
/// column. On the alternate screen a range wholly above the viewport resolves
/// to `None` and one partly above it is clamped to the top row; on either
/// screen a range wholly below the retained content resolves to `None` and
/// one partly below it is clamped to row zero.
pub open spec fn spec_span_lines(
    region: Region<Point<isize>>,
    initial_line: isize,
    dim: Point<usize>,
    alt_screen: bool,
) -> Option<Span> {
    let cols = dim.col;
    let lines = dim.line as isize;
    // The default single-row range over the initial line, oriented like a
    // cell-precise span: start at the rightmost column, end at column zero.
    let start0 = Point { line: initial_line, col: (cols - 1) as usize };
    let end0 = Point { line: initial_line, col: 0usize };
    // Clamp a selection below the viewport to the visible region.
    let start1 = if alt_screen && start0.line < 0 {
        Point { line: 0isize, col: (cols - 1) as usize }
    } else {
        start0
    };
    // Expand the rows to cover where the cursor started and ended.
    let start2 = if region.start.line < region.end.line {
        Point { line: spec_min_line(start1.line, region.start.line), col: start1.col }
    } else {
        Point { line: spec_min_line(start1.line, region.end.line), col: start1.col }
    };
    let end2 = if region.start.line < region.end.line {
        Point { line: spec_max_line(end0.line, region.end.line), col: end0.col }
    } else {
        Point { line: spec_max_line(end0.line, region.start.line), col: end0.col }
    };
    // Don't show a selection above the visible region; clamp one partly
    // above it to the viewport's top row.
    let none_above = alt_screen && end2.line >= lines && start2.line >= lines;
    let end3 = if alt_screen && end2.line >= lines {
        Point { line: (lines - 1) as isize, col: 0usize }
    } else {
        end2
    };
    // Don't show a selection below the retained content; clamp one partly
    // below it to the viewport's bottom row.
    let none_below = start2.line < 0 && end3.line < 0;
    let start3 = if start2.line < 0 && end3.line >= 0 {
        Point { line: 0isize, col: (cols - 1) as usize }
    } else {
        start2
    };
    if none_above || none_below {
        Option::None
    } else {
        Option::Some(Span {
            cols,
            front: spec_unsigned(start3),
            tail: spec_unsigned(end3),
            ty: SpanType::Inclusive,
        })
    }
}

/// The smaller of two signed lines.
pub open spec fn spec_min_line(a: isize, b: isize) -> isize {
    if a <= b { a } else { b }
}

/// The larger of two signed lines.
pub open spec fn spec_max_line(a: isize, b: isize) -> isize {
    if a >= b { a } else { b }
}

/// The span a selection resolves to against the given grid: the anchor of
/// [`Selection::to_span`]'s contract.
pub open spec fn spec_to_span<G: SemanticSearch + Dimensions>(
    s: Selection,
    grid: &G,
    alt_screen: bool,
) -> Option<Span> {
    match s {
        Selection::Simple { region } => spec_span_simple(
            region,
            grid.spec_dimensions().col,
        ),
        Selection::Semantic { region } => spec_span_semantic(
            grid,
            region,
            grid.spec_dimensions(),
            alt_screen,
        ),
        Selection::Lines { region, initial_line } => spec_span_lines(
            region,
            initial_line,
            grid.spec_dimensions(),
            alt_screen,
        ),
    }
}

impl Selection {
    /// The coordinate invariant of an active gesture: every stored column
    /// lies inside the given grid extent.
    pub open spec fn wf(self, dim: Point<usize>) -> bool {
        match self {
            Selection::Simple { region } => {
                region.start.point.col < dim.col && region.end.point.col < dim.col
            },
            Selection::Semantic { region } => {
                region.start.col < dim.col && region.end.col < dim.col
            },
            Selection::Lines { region, .. } => {
                region.start.col < dim.col && region.end.col < dim.col
            },
        }
    }

    /// Resolves the gesture against a geometry snapshot into a normalized,
    /// inclusive span of cells, or `None` when nothing is covered. Pure:
    /// neither the selection nor the grid is changed, and the result is a
    /// function of the two alone. A resolved pair is always ordered — the
    /// front never lies above the tail, and on one line the covered range
    /// runs from the tail's column to the front's (word-precise spans keep
    /// the opposite, lexicographic column order).
    pub fn to_span<G: SemanticSearch + Dimensions>(&self, grid: &G, alt_screen: bool) -> (r: Option<Span>)
        requires
            self.wf(grid.spec_dimensions()),
        ensures
            r == spec_to_span(*self, grid, alt_screen),
            r matches Some(span) ==> span.cols == grid.spec_dimensions().col
                && span.ty == SpanType::Inclusive,
            r matches Some(span) ==> span.front.line <= span.tail.line,
            r matches Some(span) ==> (span.front.line == span.tail.line
                ==> if self is Semantic {
                    span.front.col <= span.tail.col
                } else {
                    span.tail.col <= span.front.col
                }),
    {
        match *self {
            Selection::Simple { ref region } => {
                Selection::span_simple(grid, region)
            },
            Selection::Semantic { ref region } => {
                Selection::span_semantic(grid, region, alt_screen)
            },
            Selection::Lines { ref region, initial_line } => {
                Selection::span_lines(grid, region, initial_line, alt_screen)
            },
        }
    }

    /// Resolves a word-precise region against the grid's extent and word
    /// boundaries. The resolved pair is in lexicographic order: the front
    /// never lies above the tail, and on one line its column never passes the
    /// tail's.
    fn span_semantic<G: SemanticSearch + Dimensions>(
        grid: &G,
        region: &Region<Point<isize>>,
        alt_screen: bool,
    ) -> (r: Option<Span>)
        ensures
            r == spec_span_semantic(grid, *region, grid.spec_dimensions(), alt_screen),
            r matches Some(span) ==> span.front.line <= span.tail.line
                && (span.front.line == span.tail.line ==> span.front.col <= span.tail.col),
    {
        let cols = grid.dimensions().col;
        let lines = grid.dimensions().line as isize;

        // Normalize the ordering of the selected cells.
        let (mut front, mut tail) = if region.start.lt(region.end) {
            (region.start, region.end)
        } else {
            (region.end, region.start)
        };

        if alt_screen && tail.line >= lines {
            // Don't show a selection above the visible region.
            if front.line >= lines {
                return None;
            }

            // Clamp a selection above the viewport to the visible region.
            tail.line = lines - 1;
            tail.col = 0;
        }

        if front.line < 0 {
            // Don't show a selection below the retained content.
            if tail.line < 0 {
                return None;
            }

            // Clamp a selection below the retained content to the visible
            // region.
            front.line = 0;
            front.col = cols - 1;
        }

        let (mut start, mut end) = if front.lt(tail) && front.line == tail.line {
            (
                grid.semantic_search_left(front.into_unsigned()),
                grid.semantic_search_right(tail.into_unsigned()),
            )
        } else {
            (
                grid.semantic_search_right(front.into_unsigned()),
                grid.semantic_search_left(tail.into_unsigned()),
            )
        };

        if end.lt(start) {
            let swapped = start;
            start = end;
            end = swapped;
        }

        Some(Span { cols, front: start, tail: end, ty: SpanType::Inclusive })
    }

    /// Resolves a full-line region against the grid's extent. The resolved
    /// pair is ordered: the front never lies above the tail, and its column
    /// is the last one while the tail's is column zero.
    fn span_lines<G: Dimensions>(
        grid: &G,
        region: &Region<Point<isize>>,
        initial_line: isize,
        alt_screen: bool,
    ) -> (r: Option<Span>)
        ensures
            r == spec_span_lines(*region, initial_line, grid.spec_dimensions(), alt_screen),
            r matches Some(span) ==> span.front.line <= span.tail.line
                && span.tail.col <= span.front.col,
    {
        let cols = grid.dimensions().col;
        let lines = grid.dimensions().line as isize;

        // First, create start and end points based on the initial line and
        // the grid dimensions.
        let mut start = Point { col: cols - 1, line: initial_line };
        let mut end = Point { col: 0, line: initial_line };

        // Clamp a selection below the viewport to the visible region.
        if alt_screen && start.line < 0 {
            start.line = 0;
            start.col = cols - 1;
        }

        // Now, expand the rows based on where the cursor started and ended.
        if region.start.line < region.end.line {
            // Start is below end.
            start.line = if start.line <= region.start.line { start.line } else { region.start.line };
            end.line = if end.line >= region.end.line { end.line } else { region.end.line };
        } else {
            // Start is above end.
            start.line = if start.line <= region.end.line { start.line } else { region.end.line };
            end.line = if end.line >= region.start.line { end.line } else { region.start.line };
        }

        if alt_screen && end.line >= lines {
            // Don't show a selection above the visible region.
            if start.line >= lines {
                return None;
            }

            // Clamp a selection above the viewport to the visible region.
            end.line = lines - 1;
            end.col = 0;
        }

        if start.line < 0 {
            // Don't show a selection below the retained content.
            if end.line < 0 {
                return None;
            }

            // Clamp a selection below the retained content to the visible
            // region.
            start.line = 0;
            start.col = cols - 1;
        }

        Some(Span {
            cols,
            front: start.into_unsigned(),
            tail: end.into_unsigned(),
            ty: SpanType::Inclusive,
        })
    }
}

/// The final copy-range of a span: an inclusive `[start, end]` pair.
#[derive(Debug, Clone, Copy, PartialEq, Eq, Structural)]
pub struct Locations {
    /// Start point from the bottom of the buffer.
    pub start: Point<usize>,
    /// End point towards the top of the buffer.
    pub end: Point<usize>,
}

/// `start` advanced forward one cell: to the next line's column zero when it
/// sits on the last column, else one column right.
pub open spec fn spec_wrap_start(start: Point<usize>, cols: usize) -> Point<usize> {
    if start.col == cols - 1 {
        Point { line: (start.line + 1) as usize, col: 0usize }
    } else {
        Point { line: start.line, col: (start.col + 1) as usize }
    }
}

/// `end` retreated backward one cell: to the last column of the line above
/// when it sits on column zero of a line other than the first, else one
/// column left.
pub open spec fn spec_wrap_end(end: Point<usize>, cols: usize) -> Point<usize> {
    if end.col == 0 && end.line != 0 {
        Point { line: (end.line - 1) as usize, col: (cols - 1) as usize }
    } else {
        Point { line: end.line, col: (end.col - 1) as usize }
    }
}

/// Whether the front of the span can be advanced without leaving the unsigned
/// coordinate range.
pub open spec fn spec_can_advance_front(s: Span) -> bool {
    &&& s.cols >= 1
    &&& (s.front.col == s.cols - 1 ==> s.front.line < usize::MAX)
    &&& (s.front.col != s.cols - 1 ==> s.front.col < usize::MAX)
}

/// Whether the tail of the span can be retreated without leaving the unsigned
/// coordinate range.
pub open spec fn spec_can_retreat_tail(s: Span) -> bool {
    &&& s.cols >= 1
    &&& !(s.tail.col == 0 && s.tail.line == 0)
}

/// The inclusive `[start, end]` pair a span converts to: the endpoints as
/// they stand, with the one-cell adjustment applied to whichever ends the
/// span's type excludes.
pub open spec fn spec_to_locations(s: Span) -> Locations {
    match s.ty {
        SpanType::Inclusive => Locations { start: s.front, end: s.tail },
        SpanType::Exclusive => Locations {
            start: spec_wrap_start(s.front, s.cols),
            end: spec_wrap_end(s.tail, s.cols),
        },
        SpanType::ExcludeFront => Locations { start: spec_wrap_start(s.front, s.cols), end: s.tail },
        SpanType::ExcludeTail => Locations { start: s.front, end: spec_wrap_end(s.tail, s.cols) },
    }
}

impl Span {
    /// Converts the span's endpoint policy into a concrete inclusive
    /// `[start, end]` pair. The wrap arithmetic uses the column count captured
    /// when the span was made, not a fresh geometry query.
    pub fn to_locations(&self) -> (r: Locations)
        requires
            self.ty == SpanType::Exclusive || self.ty == SpanType::ExcludeFront
                ==> spec_can_advance_front(*self),
            self.ty == SpanType::Exclusive || self.ty == SpanType::ExcludeTail
                ==> spec_can_retreat_tail(*self),
        ensures
            r == spec_to_locations(*self),
    {
        let (start, end) = match self.ty {
            SpanType::Inclusive => (self.front, self.tail),
            SpanType::Exclusive => (
                Span::wrap_start(self.front, self.cols),
                Span::wrap_end(self.tail, self.cols),
            ),
            SpanType::ExcludeFront => (Span::wrap_start(self.front, self.cols), self.tail),
            SpanType::ExcludeTail => (self.front, Span::wrap_end(self.tail, self.cols)),
        };

        Locations { start, end }
    }

    /// Advances a start point one cell forward.
    fn wrap_start(start: Point<usize>, cols: usize) -> (r: Point<usize>)
        requires
            cols >= 1,
            start.col == cols - 1 ==> start.line < usize::MAX,
            start.col != cols - 1 ==> start.col < usize::MAX,
        ensures
            r == spec_wrap_start(start, cols),
    {
        if start.col == cols - 1 {
            Point { line: start.line + 1, col: 0 }
        } else {
            Point { line: start.line, col: start.col + 1 }
        }
    }

    /// Retreats an end point one cell backward.
    fn wrap_end(end: Point<usize>, cols: usize) -> (r: Point<usize>)
        requires
            cols >= 1,
            !(end.col == 0 && end.line == 0),
        ensures
            r == spec_wrap_end(end, cols),
    {
        if end.col == 0 && end.line != 0 {
            Point { line: end.line - 1, col: cols - 1 }
        } else {
            Point { line: end.line, col: end.col - 1 }
        }
    }
}

/// Rotating by an offset and then by its negation restores the selection
/// exactly, whenever the first rotation stays within the signed line range.
pub proof fn lemma_rotate_identity(s: Selection, offset: int)
    requires
        rotate_fits(s, offset),
    ensures
        rotate_fits(spec_rotate(s, offset), -offset),
        spec_rotate(spec_rotate(s, offset), -offset) == s,
{
}

/// A full-line selection always resolves to whole rows: whatever the drag
/// did, a resolved span has its front on the last column and its tail on
/// column zero. The rows covered moreover include the initial line whenever
/// that line is itself retained — it is not negative, and on the alternate
/// screen it lies inside the viewport — since a line that is clamped away
/// cannot be covered.
pub proof fn lemma_lines_full_rows(
    region: Region<Point<isize>>,
    initial_line: isize,
    dim: Point<usize>,
    alt_screen: bool,
)
    requires
        1 <= dim.col,
        1 <= dim.line <= isize::MAX,
    ensures
        spec_span_lines(region, initial_line, dim, alt_screen) matches Some(span)
            ==> span.front.col == dim.col - 1 && span.tail.col == 0,
        (0 <= initial_line && (alt_screen ==> initial_line < dim.line))
            ==> (spec_span_lines(region, initial_line, dim, alt_screen) matches Some(span)
            && span.front.line <= initial_line <= span.tail.line),
{
}

/// Resolution is deterministic: any two results that satisfy
/// [`Selection::to_span`]'s contract for the same selection, grid and screen
/// flag are equal, so repeated calls with unchanged inputs return equal
/// spans.
pub proof fn lemma_to_span_idempotent<G: SemanticSearch + Dimensions>(
    s: Selection,
    grid: &G,
    alt_screen: bool,
    r1: Option<Span>,
    r2: Option<Span>,
)
    requires
        r1 == spec_to_span(s, grid, alt_screen),
        r2 == spec_to_span(s, grid, alt_screen),
    ensures
        r1 == r2,
{
}

} // verus!
