//! Tests for selection resolution.
//!
//! There are comments on the geometry-heavy tests describing the selection.
//! Pictograms are used to avoid ambiguity. Grid cells are represented by a
//! [  ]. Only cells that are completely covered are counted in a selection.
//! Ends are represented by `B` and `E` for begin and end, respectively. A
//! selected cell looks like [XX], [BX] (at the start), [XB] (at the end),
//! [XE] (at the end), and [EX] (at the start), or [BE] for a single cell.
//! Partially selected cells look like [ B] and [E ].

use alacritty::grid::{CellGrid, RowGrid};
use alacritty::index::{Point, Side};
use alacritty::selection::{Locations, Selection, Span, SpanType};

/// Test case of single cell selection
///
/// 1. [  ]
/// 2. [B ]
/// 3. [BE]
#[test]
fn single_cell_left_to_right() {
    let location = Point { line: 0, col: 0 };
    let mut selection = Selection::simple(location, Side::Left);
    selection.update(location, Side::Right);

    assert_eq!(selection.to_span(&CellGrid::new(1, 1), false).unwrap(), Span {
        cols: 1,
        ty: SpanType::Inclusive,
        front: location,
        tail: location,
    });
}

/// Test case of single cell selection
///
/// 1. [  ]
/// 2. [ B]
/// 3. [EB]
#[test]
fn single_cell_right_to_left() {
    let location = Point { line: 0, col: 0 };
    let mut selection = Selection::simple(location, Side::Right);
    selection.update(location, Side::Left);

    assert_eq!(selection.to_span(&CellGrid::new(1, 1), false).unwrap(), Span {
        cols: 1,
        ty: SpanType::Inclusive,
        front: location,
        tail: location,
    });
}

/// Test adjacent cell selection from left to right
///
/// 1. [  ][  ]
/// 2. [ B][  ]
/// 3. [ B][E ]
#[test]
fn between_adjacent_cells_left_to_right() {
    let mut selection = Selection::simple(Point::new(0, 0), Side::Right);
    selection.update(Point::new(0, 1), Side::Left);

    assert_eq!(selection.to_span(&CellGrid::new(1, 2), false), None);
}

/// Test adjacent cell selection from right to left
///
/// 1. [  ][  ]
/// 2. [  ][B ]
/// 3. [ E][B ]
#[test]
fn between_adjacent_cells_right_to_left() {
    let mut selection = Selection::simple(Point::new(0, 1), Side::Left);
    selection.update(Point::new(0, 0), Side::Right);

    assert_eq!(selection.to_span(&CellGrid::new(1, 2), false), None);
}

/// Test selection across adjacent lines
///
///
/// 1.  [  ][  ][  ][  ][  ]
///     [  ][  ][  ][  ][  ]
/// 2.  [  ][ B][  ][  ][  ]
///     [  ][  ][  ][  ][  ]
/// 3.  [  ][ B][XX][XX][XX]
///     [XX][XE][  ][  ][  ]
#[test]
fn across_adjacent_lines_upward_final_cell_exclusive() {
    let mut selection = Selection::simple(Point::new(1, 1), Side::Right);
    selection.update(Point::new(0, 1), Side::Right);

    assert_eq!(selection.to_span(&CellGrid::new(2, 5), false).unwrap(), Span {
        cols: 5,
        front: Point::new(0, 1),
        tail: Point::new(1, 2),
        ty: SpanType::Inclusive,
    });
}

/// Test selection across adjacent lines
///
///
/// 1.  [  ][  ][  ][  ][  ]
///     [  ][  ][  ][  ][  ]
/// 2.  [  ][  ][  ][  ][  ]
///     [  ][ B][  ][  ][  ]
/// 3.  [  ][ E][XX][XX][XX]
///     [XX][XB][  ][  ][  ]
/// 4.  [ E][XX][XX][XX][XX]
///     [XX][XB][  ][  ][  ]
#[test]
fn selection_bigger_then_smaller() {
    let mut selection = Selection::simple(Point::new(0, 1), Side::Right);
    selection.update(Point::new(1, 1), Side::Right);
    selection.update(Point::new(1, 0), Side::Right);

    assert_eq!(selection.to_span(&CellGrid::new(2, 5), false).unwrap(), Span {
        cols: 5,
        front: Point::new(0, 1),
        tail: Point::new(1, 1),
        ty: SpanType::Inclusive,
    });
}

/// A click without a drag covers nothing.
#[test]
fn single_click_is_none() {
    let selection = Selection::simple(Point::new(0, 0), Side::Left);

    assert_eq!(selection.to_span(&CellGrid::new(1, 1), false), None);
}

/// A selection rotated entirely past the retained content covers nothing.
#[test]
fn rotated_past_content_is_none() {
    let mut selection = Selection::simple(Point::new(0, 0), Side::Left);
    selection.update(Point::new(0, 1), Side::Right);
    selection.rotate(-1);

    assert_eq!(selection.to_span(&CellGrid::new(1, 2), false), None);
}

/// With the alternate screen active, the part of a cell-precise selection
/// below the viewport is clamped to the viewport's bottom-right cell.
#[test]
fn simple_alt_screen_clamps_front() {
    let mut selection = Selection::simple(Point::new(1, 1), Side::Left);
    selection.update(Point::new(0, 0), Side::Right);
    selection.rotate(-1);

    assert_eq!(selection.to_span(&CellGrid::new(2, 2), true).unwrap(), Span {
        cols: 2,
        front: Point::new(0, 1),
        tail: Point::new(0, 1),
        ty: SpanType::Inclusive,
    });
}

/// On the primary screen too, the part of a cell-precise selection rotated
/// below the retained content is clamped to the viewport's bottom-right cell,
/// never converted to an out-of-range coordinate.
#[test]
fn simple_scrollback_clamps_front() {
    let mut selection = Selection::simple(Point::new(1, 1), Side::Left);
    selection.update(Point::new(0, 0), Side::Right);
    selection.rotate(-1);

    assert_eq!(selection.to_span(&CellGrid::new(2, 2), false).unwrap(), Span {
        cols: 2,
        front: Point::new(0, 1),
        tail: Point::new(0, 1),
        ty: SpanType::Inclusive,
    });
}

/// When clamping the front would leave the whole selection behind the grown
/// tail — a drag from below the retained content whose visible part is empty —
/// nothing is selected rather than an inverted span.
#[test]
fn simple_clamp_leaving_nothing_is_none() {
    let mut selection = Selection::simple(Point::new(0, 0), Side::Right);
    selection.update(Point::new(1, 0), Side::Right);
    selection.rotate(-1);

    assert_eq!(selection.to_span(&CellGrid::new(1, 1), true), None);
    assert_eq!(selection.to_span(&CellGrid::new(1, 1), false), None);
}

/// Rotating a selection by an offset and back restores it exactly, in every
/// mode.
#[test]
fn rotate_round_trip() {
    let mut simple = Selection::simple(Point::new(2, 1), Side::Left);
    simple.update(Point::new(4, 0), Side::Right);
    let mut semantic = Selection::semantic(Point::new(3, 2));
    semantic.update(Point::new(1, 1), Side::Left);
    let mut lines = Selection::lines(Point::new(5, 3));
    lines.update(Point::new(2, 2), Side::Right);

    for selection in [&mut simple, &mut semantic, &mut lines] {
        let before = selection.clone();
        selection.rotate(17);
        assert_ne!(*selection, before);
        selection.rotate(-17);
        assert_eq!(*selection, before);
    }
}

/// Rotation shifts the recorded initial line of a full-line selection along
/// with the region.
#[test]
fn rotate_shifts_lines_selection() {
    let mut selection = Selection::lines(Point::new(1, 0));
    selection.rotate(1);

    assert_eq!(selection.to_span(&CellGrid::new(4, 3), false).unwrap(), Span {
        cols: 3,
        front: Point::new(2, 2),
        tail: Point::new(2, 0),
        ty: SpanType::Inclusive,
    });
}

/// Resolution has no internal state: repeated calls with unchanged selection
/// and geometry return equal spans.
#[test]
fn to_span_repeats_equal() {
    let mut selection = Selection::semantic(Point::new(0, 2));
    selection.update(Point::new(1, 4), Side::Left);
    let grid = RowGrid::new(2, 6);

    let first = selection.to_span(&grid, false);
    let second = selection.to_span(&grid, false);
    assert_eq!(first, second);
    assert!(first.is_some());
}

/// A full-line selection covers its rows from the last column down to column
/// zero, and includes the initial line even though the drag moved away.
#[test]
fn lines_cover_full_rows() {
    let mut selection = Selection::lines(Point::new(1, 2));
    selection.update(Point::new(0, 3), Side::Left);

    assert_eq!(selection.to_span(&CellGrid::new(3, 4), false).unwrap(), Span {
        cols: 4,
        front: Point::new(0, 3),
        tail: Point::new(1, 0),
        ty: SpanType::Inclusive,
    });
}

/// A full-line drag downward still includes the initial line.
#[test]
fn lines_include_initial_line() {
    let mut selection = Selection::lines(Point::new(1, 2));
    selection.update(Point::new(2, 0), Side::Left);

    assert_eq!(selection.to_span(&CellGrid::new(3, 4), false).unwrap(), Span {
        cols: 4,
        front: Point::new(1, 3),
        tail: Point::new(2, 0),
        ty: SpanType::Inclusive,
    });
}

/// With the alternate screen active, full-line rows above the viewport are
/// clamped to its top row.
#[test]
fn lines_alt_screen_clamps_above() {
    let mut selection = Selection::lines(Point::new(1, 0));
    selection.update(Point::new(5, 0), Side::Left);

    assert_eq!(selection.to_span(&CellGrid::new(2, 3), true).unwrap(), Span {
        cols: 3,
        front: Point::new(1, 2),
        tail: Point::new(1, 0),
        ty: SpanType::Inclusive,
    });
}

/// A word-precise click widens to the word under it: on a grid whose rows are
/// single words, to the whole row.
#[test]
fn semantic_click_expands_word() {
    let selection = Selection::semantic(Point::new(0, 1));

    assert_eq!(selection.to_span(&RowGrid::new(1, 4), false).unwrap(), Span {
        cols: 4,
        front: Point::new(0, 0),
        tail: Point::new(0, 3),
        ty: SpanType::Inclusive,
    });
}

/// A forward drag on one line expands the front leftward and the tail
/// rightward, outward from both endpoints.
#[test]
fn semantic_forward_same_line_expands_outward() {
    let mut selection = Selection::semantic(Point::new(0, 2));
    selection.update(Point::new(0, 4), Side::Left);

    assert_eq!(selection.to_span(&RowGrid::new(1, 6), false).unwrap(), Span {
        cols: 6,
        front: Point::new(0, 0),
        tail: Point::new(0, 5),
        ty: SpanType::Inclusive,
    });
}

/// A drag spanning two lines expands the lower endpoint rightward and the
/// upper one leftward — outward from each raw endpoint, not away from the
/// drag origin. A symmetric expansion would give the mirrored span instead.
#[test]
fn semantic_multi_line_expands_outward() {
    let mut selection = Selection::semantic(Point::new(0, 2));
    selection.update(Point::new(1, 4), Side::Left);

    assert_eq!(selection.to_span(&RowGrid::new(2, 6), false).unwrap(), Span {
        cols: 6,
        front: Point::new(0, 5),
        tail: Point::new(1, 0),
        ty: SpanType::Inclusive,
    });
}

/// A reversed drag resolves exactly like the forward drag over the same
/// cells: ordering happens at resolution time.
#[test]
fn semantic_reversed_drag_matches_forward() {
    let mut selection = Selection::semantic(Point::new(1, 4));
    selection.update(Point::new(0, 2), Side::Left);

    assert_eq!(selection.to_span(&RowGrid::new(2, 6), false).unwrap(), Span {
        cols: 6,
        front: Point::new(0, 5),
        tail: Point::new(1, 0),
        ty: SpanType::Inclusive,
    });
}

/// With the alternate screen active, the part of a word-precise selection
/// above the viewport is clamped to the viewport's top row.
#[test]
fn semantic_alt_screen_clamps_above() {
    let mut selection = Selection::semantic(Point::new(0, 0));
    selection.update(Point::new(3, 1), Side::Left);

    assert_eq!(selection.to_span(&CellGrid::new(2, 4), true).unwrap(), Span {
        cols: 4,
        front: Point::new(0, 0),
        tail: Point::new(1, 0),
        ty: SpanType::Inclusive,
    });
}

/// With the alternate screen active, a word-precise selection entirely above
/// the viewport covers nothing.
#[test]
fn semantic_alt_screen_fully_above_is_none() {
    let mut selection = Selection::semantic(Point::new(2, 0));
    selection.update(Point::new(3, 0), Side::Left);

    assert_eq!(selection.to_span(&CellGrid::new(2, 4), true), None);
}

/// With the alternate screen active, a word-precise selection rotated
/// entirely below the viewport covers nothing.
#[test]
fn semantic_alt_screen_fully_below_is_none() {
    let mut selection = Selection::semantic(Point::new(0, 1));
    selection.rotate(-1);

    assert_eq!(selection.to_span(&CellGrid::new(2, 4), true), None);
}

/// With the alternate screen active, the part of a word-precise selection
/// below the viewport is clamped to the viewport's bottom-right cell.
#[test]
fn semantic_alt_screen_clamps_below() {
    let mut selection = Selection::semantic(Point::new(0, 1));
    selection.update(Point::new(1, 1), Side::Left);
    selection.rotate(-1);

    assert_eq!(selection.to_span(&CellGrid::new(2, 4), true).unwrap(), Span {
        cols: 4,
        front: Point::new(0, 1),
        tail: Point::new(0, 3),
        ty: SpanType::Inclusive,
    });
}

/// On the primary screen too, the part of a word-precise selection rotated
/// below the retained content is clamped to the viewport's bottom-right cell.
#[test]
fn semantic_scrollback_clamps_below() {
    let mut selection = Selection::semantic(Point::new(0, 1));
    selection.update(Point::new(1, 1), Side::Left);
    selection.rotate(-1);

    assert_eq!(selection.to_span(&CellGrid::new(2, 4), false).unwrap(), Span {
        cols: 4,
        front: Point::new(0, 1),
        tail: Point::new(0, 3),
        ty: SpanType::Inclusive,
    });
}

/// A full-line selection rotated entirely past the retained content covers
/// nothing, on either screen.
#[test]
fn lines_rotated_past_content_is_none() {
    let mut selection = Selection::lines(Point::new(0, 0));
    selection.rotate(-1);

    assert_eq!(selection.to_span(&CellGrid::new(2, 3), false), None);
    assert_eq!(selection.to_span(&CellGrid::new(2, 3), true), None);
}

/// On the primary screen too, full-line rows rotated below the retained
/// content are clamped to row zero.
#[test]
fn lines_scrollback_clamps_below() {
    let mut selection = Selection::lines(Point::new(0, 0));
    selection.update(Point::new(1, 0), Side::Left);
    selection.rotate(-1);

    assert_eq!(selection.to_span(&CellGrid::new(2, 3), false).unwrap(), Span {
        cols: 3,
        front: Point::new(0, 2),
        tail: Point::new(0, 0),
        ty: SpanType::Inclusive,
    });
}

/// A selection at the largest representable line still resolves.
#[test]
fn selection_at_extreme_line() {
    let top = isize::MAX as usize;
    let location = Point::new(top, 0);
    let mut selection = Selection::simple(location, Side::Left);
    selection.update(location, Side::Right);

    assert_eq!(selection.to_span(&CellGrid::new(top, 2), false).unwrap(), Span {
        cols: 2,
        front: location,
        tail: location,
        ty: SpanType::Inclusive,
    });
}

/// An inclusive span converts to its own endpoints.
#[test]
fn locations_inclusive_identity() {
    let span = Span {
        cols: 5,
        front: Point::new(0, 1),
        tail: Point::new(1, 2),
        ty: SpanType::Inclusive,
    };

    assert_eq!(span.to_locations(), Locations {
        start: Point::new(0, 1),
        end: Point::new(1, 2),
    });
}

/// An exclusive span steps both ends inward, wrapping across line boundaries:
/// the start from the last column to the next line's column zero, the end
/// from column zero to the last column of the line above.
#[test]
fn locations_exclusive_wraps_lines() {
    let span = Span {
        cols: 5,
        front: Point::new(0, 4),
        tail: Point::new(1, 0),
        ty: SpanType::Exclusive,
    };

    assert_eq!(span.to_locations(), Locations {
        start: Point::new(1, 0),
        end: Point::new(0, 4),
    });
}

/// A span excluding only its front advances the start one cell.
#[test]
fn locations_exclude_front() {
    let span = Span {
        cols: 5,
        front: Point::new(0, 2),
        tail: Point::new(0, 4),
        ty: SpanType::ExcludeFront,
    };

    assert_eq!(span.to_locations(), Locations {
        start: Point::new(0, 3),
        end: Point::new(0, 4),
    });
}

/// A span excluding only its tail retreats the end one cell.
#[test]
fn locations_exclude_tail() {
    let span = Span {
        cols: 5,
        front: Point::new(0, 2),
        tail: Point::new(0, 4),
        ty: SpanType::ExcludeTail,
    };

    assert_eq!(span.to_locations(), Locations {
        start: Point::new(0, 2),
        end: Point::new(0, 3),
    });
}
