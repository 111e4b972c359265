//! Square indexing and display rotation for an 8x8 board.
//!
//! Squares are numbered 0..64, row-major: square = col + row * 8.
//! Rotating the display mirrors both axes, which on square indices is
//! the involution i -> 63 - i.

use vstd::prelude::*;

verus! {

/// Index of the square at (row, col) in row-major order.
pub fn idx(row: usize, col: usize) -> (r: usize)
    requires
        row < 8,
        col < 8,
    ensures
        r == col + row * 8,
        r < 64,
{
    col + row * 8
}

/// Board coordinates after applying the display rotation: a rotated
/// display mirrors both axes.
pub fn rotated_coords(rotated: bool, row: usize, col: usize) -> (rc: (usize, usize))
    requires
        row < 8,
        col < 8,
    ensures
        rc == (spec_rotated_row(rotated, row as int) as usize, spec_rotated_row(
            rotated,
            col as int,
        ) as usize),
        rc.0 < 8,
        rc.1 < 8,
{
    if rotated {
        (7 - row, 7 - col)
    } else {
        (row, col)
    }
}

/// A single rotated coordinate: mirroring one axis of the display.
pub open spec fn spec_rotated_row(rotated: bool, row: int) -> int {
    if rotated {
        7 - row
    } else {
        row
    }
}

/// Display position of a logical square index under the given rotation.
pub open spec fn spec_square_pos(rotated: bool, sq: int) -> int {
    if rotated {
        63 - sq
    } else {
        sq
    }
}

/// Exec counterpart of `spec_square_pos`.
pub fn square_pos(rotated: bool, sq: u8) -> (r: u8)
    requires
        sq < 64,
    ensures
        r == spec_square_pos(rotated, sq as int),
        r < 64,
{
    if rotated {
        63 - sq
    } else {
        sq
    }
}

} // verus!
