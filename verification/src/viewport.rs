//! The viewport query: which global tile positions a camera's visible
//! world-space rectangle must consider for drawing.
//!
//! The two world-space corners arrive in pixels; dividing by the tile pixel
//! size (truncating toward zero, the way a float camera coordinate is cut
//! down to an integer) gives tile-grid corners. The query then enumerates
//! every integer position of the inclusive rectangle between them, plus a
//! fixed margin of two tiles on the right and bottom edges to avoid edge
//! popping from partial-tile scroll. The vertical axis is sign-flipped
//! relative to tile storage: world "up" is positive tile-space "down", so
//! the stored-grid rows run from the negated top corner to the negated
//! bottom corner.

use vstd::prelude::*;

verus! {

use crate::coords::GlobalTilePos;
use vstd::arithmetic::div_mod::lemma_fundamental_div_mod_converse;

/// Division truncating toward zero, as float-to-integer conversion rounds:
/// Euclidean division for a nonnegative dividend, its mirror image for a
/// negative one.
pub open spec fn spec_trunc_div(a: int, b: int) -> int {
    if a >= 0 {
        a / b
    } else {
        -((-a) / b)
    }
}

/// Divides a pixel coordinate by the tile size, truncating toward zero.
fn trunc_div(a: i32, b: u16) -> (q: i64)
    requires
        b > 0,
    ensures
        q == spec_trunc_div(a as int, b as int),
{
    if a >= 0 {
        ((a as u64) / (b as u64)) as i64
    } else {
        let mag = (-(a as i64)) as u64;
        -((mag / (b as u64)) as i64)
    }
}

/// The first (leftmost) column of the query rectangle.
pub open spec fn spec_view_x0(tl_x: int, px: int) -> int {
    spec_trunc_div(tl_x, px)
}

/// The last (rightmost) column, margin included.
pub open spec fn spec_view_x1(br_x: int, px: int) -> int {
    spec_trunc_div(br_x, px) + 2
}

/// The first (topmost) row: the sign-flipped top corner.
pub open spec fn spec_view_y0(tl_y: int, px: int) -> int {
    -spec_trunc_div(tl_y, px)
}

/// The last (bottommost) row, margin included: the sign-flipped bottom
/// corner.
pub open spec fn spec_view_y1(br_y: int, px: int) -> int {
    -spec_trunc_div(br_y, px) + 2
}

/// The width of the inclusive range from `lo` to `hi`: zero when the range
/// is inverted.
pub open spec fn spec_range_len(lo: int, hi: int) -> int {
    if hi >= lo {
        hi - lo + 1
    } else {
        0
    }
}

/// What the viewport query returns: every integer position of the
/// inclusive rectangle between the converted corners, margin included, in
/// row-major order (rows from the top, columns from the left).
pub open spec fn spec_visible_tiles(
    tl_x: int,
    tl_y: int,
    br_x: int,
    br_y: int,
    px: int,
) -> Seq<GlobalTilePos> {
    let x0 = spec_view_x0(tl_x, px);
    let y0 = spec_view_y0(tl_y, px);
    let cols = spec_range_len(x0, spec_view_x1(br_x, px));
    let rows = spec_range_len(y0, spec_view_y1(br_y, px));
    Seq::new(
        (rows * cols) as nat,
        |k: int| GlobalTilePos((x0 + k % cols) as i32, (y0 + k / cols) as i32),
    )
}

/// Enumerates the global tile positions a camera viewing the world-space
/// rectangle from `(tl_x, tl_y)` (top left) to `(br_x, br_y)` (bottom
/// right), in pixels, must consider: the inclusive tile rectangle between
/// the corners divided by the tile pixel size, with a margin of two tiles,
/// rows sign-flipped, in row-major order. Recomputed on every query; the
/// caller re-resolves each position against the world store.
pub fn visible_tiles(tl_x: i32, tl_y: i32, br_x: i32, br_y: i32, tile_px: u16) -> (r: Vec<
    GlobalTilePos,
>)
    requires
        tile_px > 0,
        spec_view_x1(br_x as int, tile_px as int) <= i32::MAX,
        spec_view_y0(tl_y as int, tile_px as int) <= i32::MAX,
        spec_view_y1(br_y as int, tile_px as int) <= i32::MAX,
    ensures
        r@ == spec_visible_tiles(tl_x as int, tl_y as int, br_x as int, br_y as int, tile_px as int),
{
    let ghost target = spec_visible_tiles(
        tl_x as int,
        tl_y as int,
        br_x as int,
        br_y as int,
        tile_px as int,
    );
    let x0: i64 = trunc_div(tl_x, tile_px);
    let x1: i64 = trunc_div(br_x, tile_px) + 2;
    let y0: i64 = -trunc_div(tl_y, tile_px);
    let y1: i64 = -trunc_div(br_y, tile_px) + 2;
    let ghost cols = spec_range_len(x0 as int, x1 as int);
    let ghost rows = spec_range_len(y0 as int, y1 as int);
    let mut out: Vec<GlobalTilePos> = Vec::new();
    let mut y: i64 = y0;
    while y <= y1
        invariant
            y0 <= y,
            y <= y1 + 1 || y == y0,
            cols == spec_range_len(x0 as int, x1 as int),
            rows == spec_range_len(y0 as int, y1 as int),
            target == spec_visible_tiles(tl_x as int, tl_y as int, br_x as int, br_y as int,
            tile_px as int),
            x0 == spec_view_x0(tl_x as int, tile_px as int),
            x1 == spec_view_x1(br_x as int, tile_px as int),
            y0 == spec_view_y0(tl_y as int, tile_px as int),
            y1 == spec_view_y1(br_y as int, tile_px as int),
            i32::MIN <= x0,
            x1 <= i32::MAX,
            i32::MIN <= y0,
            y1 <= i32::MAX,
            out@.len() == (y - y0) * cols,
            forall|k: int| 0 <= k < out@.len() ==> out@[k] == target[k],
        decreases y1 + 1 - y,
    {
        let mut x: i64 = x0;
        while x <= x1
            invariant
                x0 <= x,
                x <= x1 + 1 || x == x0,
                y0 <= y <= y1,
                cols == spec_range_len(x0 as int, x1 as int),
                rows == spec_range_len(y0 as int, y1 as int),
                target == spec_visible_tiles(tl_x as int, tl_y as int, br_x as int, br_y as int,
                tile_px as int),
                x0 == spec_view_x0(tl_x as int, tile_px as int),
                x1 == spec_view_x1(br_x as int, tile_px as int),
                y0 == spec_view_y0(tl_y as int, tile_px as int),
                y1 == spec_view_y1(br_y as int, tile_px as int),
                i32::MIN <= x0,
                x1 <= i32::MAX,
                i32::MIN <= y0,
                y1 <= i32::MAX,
                out@.len() == (y - y0) * cols + (x - x0),
                forall|k: int| 0 <= k < out@.len() ==> out@[k] == target[k],
            decreases x1 + 1 - x,
        {
            proof {
                let k = (y - y0) * cols + (x - x0);
                assert(0 <= k && k < rows * cols && k == (y - y0) * cols + (x - x0))
                    by (nonlinear_arith)
                    requires
                        y0 <= y <= y1,
                        x0 <= x <= x1,
                        cols == x1 - x0 + 1,
                        rows == y1 - y0 + 1,
                        k == (y - y0) * cols + (x - x0),
                ;
                lemma_fundamental_div_mod_converse(k, cols, y - y0, x - x0);
            }
            out.push(GlobalTilePos(x as i32, y as i32));
            x = x + 1;
        }
        proof {
            assert((y - y0) * cols + cols == (y + 1 - y0) * cols) by (nonlinear_arith);
        }
        y = y + 1;
    }
    proof {
        if y1 >= y0 {
            assert(out@.len() == rows * cols);
        } else {
            assert(out@.len() == 0 && rows == 0);
        }
        assert(out@ =~= target);
    }
    out
}

} // verus!
