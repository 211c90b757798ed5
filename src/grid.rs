//! Mapping of pointer positions to board cells.
use vstd::prelude::*;

verus! {

/// Number of rows of the board.
pub const ROWS: u8 = 6;

/// Number of columns of the board.
pub const COLUMNS: u8 = 7;

/// Distance in pixels from the start of one cell to the start of the next.
pub const PITCH: i64 = 55;

/// Width of the dead border between two cells.
pub const MARGIN: i64 = 5;

/// Offset of the first cell from the window's origin, on both axes.
pub const ORIGIN: i64 = 5;

/// The cell index along one axis, if `coord` hits a cell at all.
pub open spec fn axis_index(coord: int, extent: int) -> Option<int> {
    let c = coord - ORIGIN;
    let index = c / (PITCH as int);
    if c % (PITCH as int) <= PITCH - MARGIN && 0 <= index && index < extent {
        Some(index)
    } else {
        None
    }
}

/// The `(column, row)` of the cell under the pointer position `(x, y)`, or `None`
/// when either axis falls on a dead border or outside the grid.
pub open spec fn cell_at(x: int, y: int) -> Option<(int, int)> {
    match (axis_index(x, COLUMNS as int), axis_index(y, ROWS as int)) {
        (Some(column), Some(row)) => Some((column, row)),
        _ => None,
    }
}

/// Index of the cell hit along one axis.
fn hit_axis(coord: i32, extent: u8) -> (r: Option<u8>)
    requires
        extent <= COLUMNS,
    ensures
        r matches Some(i) ==> axis_index(coord as int, extent as int) == Some(i as int),
        r is None ==> axis_index(coord as int, extent as int) is None,
{
    let c: i64 = coord as i64 - ORIGIN;
    if c < 0 {
        assert((c as int) / 55 < 0) by (nonlinear_arith)
            requires c < 0;
        return None;
    }
    let index: i64 = c / PITCH;
    if c % PITCH <= PITCH - MARGIN && index < extent as i64 {
        Some(index as u8)
    } else {
        None
    }
}

/// Maps a pointer position in whole pixels to the `(column, row)` of the cell under it.
///
/// Each axis loses the origin offset first; a coordinate that then lies more than
/// `PITCH - MARGIN` past the start of its cell is on a dead border, and one whose
/// index is outside the grid misses it. Either case on either axis gives `None`.
pub fn map_to_cell(x: i32, y: i32) -> (r: Option<(u8, u8)>)
    ensures
        r is Some <==> cell_at(x as int, y as int) is Some,
        r matches Some((column, row)) ==> cell_at(x as int, y as int) == Some(
            (column as int, row as int),
        ),
{
    match (hit_axis(x, COLUMNS), hit_axis(y, ROWS)) {
        (Some(column), Some(row)) => Some((column, row)),
        _ => None,
    }
}

} // verus!
