//! Layout of the output raster and quantisation of its channels.
//!
//! The raster holds `nx * ny` pixels. It is written top row first: output
//! position `k` is column `k % nx` of row `ny - 1 - k / nx`, with row `0` at
//! the bottom of the image.

use vstd::prelude::*;

verus! {

/// The column and row shown at output position `k`.
pub open spec fn pixel_at(k: int, nx: int, ny: int) -> (int, int) {
    (k % nx, ny - 1 - k / nx)
}

/// The output position of column `i` of row `j`.
pub open spec fn position_of(i: int, j: int, nx: int, ny: int) -> int {
    (ny - 1 - j) * nx + i
}

/// A channel level brought into the 8-bit range.
pub open spec fn clamp_level(level: int) -> int {
    if level < 0 {
        0
    } else if level > 255 {
        255
    } else {
        level
    }
}

/// The pixel at output position `k` of an `nx` by `ny` raster.
pub fn pixel_of(k: usize, nx: usize, ny: usize) -> (r: (usize, usize))
    requires
        k < nx * ny,
    ensures
        (r.0 as int, r.1 as int) == pixel_at(k as int, nx as int, ny as int),
        r.0 < nx,
        r.1 < ny,
{
    assert(nx > 0) by (nonlinear_arith)
        requires
            k < nx * ny,
    ;
    let row_from_top = k / nx;
    assert(row_from_top < ny) by (nonlinear_arith)
        requires
            row_from_top == k / nx,
            k < nx * ny,
            nx > 0,
    ;
    (k % nx, ny - 1 - row_from_top)
}

/// The output position of column `i` of row `j` of an `nx` by `ny` raster.
pub fn position(i: usize, j: usize, nx: usize, ny: usize) -> (k: usize)
    requires
        i < nx,
        j < ny,
        nx * ny <= usize::MAX,
    ensures
        k == position_of(i as int, j as int, nx as int, ny as int),
        k < nx * ny,
{
    let rows_above = ny - 1 - j;
    assert(rows_above * nx + i < nx * ny) by (nonlinear_arith)
        requires
            rows_above == ny - 1 - j,
            i < nx,
            j < ny,
    ;
    rows_above * nx + i
}

/// Each output position shows one pixel, and each pixel stands at one
/// position: the two maps are inverse to each other.
pub proof fn lemma_layout_round_trip(k: int, i: int, j: int, nx: int, ny: int)
    requires
        nx > 0,
        ny > 0,
        0 <= k < nx * ny,
        0 <= i < nx,
        0 <= j < ny,
    ensures
        position_of(pixel_at(k, nx, ny).0, pixel_at(k, nx, ny).1, nx, ny) == k,
        pixel_at(position_of(i, j, nx, ny), nx, ny) == (i, j),
{
    assert(k == (k / nx) * nx + k % nx) by (nonlinear_arith)
        requires
            nx > 0,
    ;
    let p = (ny - 1 - j) * nx + i;
    assert(p / nx == ny - 1 - j && p % nx == i) by (nonlinear_arith)
        requires
            p == (ny - 1 - j) * nx + i,
            0 <= i < nx,
            0 <= ny - 1 - j,
    ;
}

/// The byte of a channel level, clamped to `[0, 255]` so that a level out
/// of range cannot wrap round.
pub fn channel_byte(level: i32) -> (b: u8)
    ensures
        b as int == clamp_level(level as int),
{
    if level < 0 {
        0
    } else if level > 255 {
        255
    } else {
        level as u8
    }
}

} // verus!
