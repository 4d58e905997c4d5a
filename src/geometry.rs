//! Grid geometry and the viewport computation: which tiles a scroll position
//! shows, and where each of them is placed on screen.

use vstd::arithmetic::div_mod::{lemma_fundamental_div_mod, lemma_fundamental_div_mod_converse};
use vstd::prelude::*;

verus! {

/// Width of one grid cell, in pixels.
pub const CELL_WIDTH: i32 = 320;

/// Height of one grid cell, in pixels.
pub const CELL_HEIGHT: i32 = 64;

/// Number of grid rows in one tile.
pub const ROWS_PER_TILE: i32 = 10;

/// Number of columns of the grid.
pub const NUM_COLS: i32 = 7;

/// Height of one tile, in pixels.
pub const TILE_HEIGHT: i32 = CELL_HEIGHT * ROWS_PER_TILE;

/// Intra-tile offset of a scroll position: where inside the first visible
/// tile the top edge of the viewport falls.
pub open spec fn scroll_offset_of(scroll: int) -> int {
    scroll % (TILE_HEIGHT as int)
}

/// Index of the tile that holds the top edge of the viewport.
pub open spec fn start_tile_of(scroll: int) -> int {
    scroll / (TILE_HEIGHT as int)
}

/// Smallest integer `q` with `q * b >= a`.
pub open spec fn ceil_div(a: int, b: int) -> int {
    (a + b - 1) / b
}

/// Number of tiles that a viewport of the given height needs.
pub open spec fn tiles_on_screen(scroll: int, surface_height: int) -> int {
    ceil_div(surface_height + scroll_offset_of(scroll), TILE_HEIGHT as int)
}

/// One past the index of the last visible tile.
pub open spec fn end_tile_of(scroll: int, surface_height: int) -> int {
    start_tile_of(scroll) + tiles_on_screen(scroll, surface_height)
}

/// Vertical screen position of the top of `tile` in a viewport whose first
/// tile is `start_tile` and whose intra-tile offset is `scroll_offset`.
pub open spec fn tile_y_of(start_tile: int, scroll_offset: int, tile: int) -> int {
    (TILE_HEIGHT as int) * (tile - start_tile) - scroll_offset
}

/// The range of tiles that a viewport shows, and the intra-tile offset of
/// its top edge.
#[derive(Clone, Copy, Debug, PartialEq, Eq)]
pub struct Viewport {
    pub scroll_offset: i32,
    pub start_tile: i32,
    pub end_tile: i32,
}

/// Floor of `a / b` for a positive `b`.
fn floor_div(a: i64, b: i64) -> (q: i64)
    requires
        0 < b <= 0x1_0000,
        -0x1_0000_0000_0000 <= a <= 0x1_0000_0000_0000,
    ensures
        q == a / b,
{
    if a >= 0 {
        a / b
    } else {
        let n = -a;
        let c = (n + b - 1) / b;
        let q = -c;
        proof {
            let (ai, bi, ci, ni, qi) = (a as int, b as int, c as int, n as int, q as int);
            let r = ai - qi * bi;
            assert(ci * bi <= ni + bi - 1 < ci * bi + bi) by (nonlinear_arith)
                requires
                    ci == (ni + bi - 1) / bi,
                    ni + bi - 1 >= 0,
                    bi > 0,
            ;
            assert(0 <= r < bi) by (nonlinear_arith)
                requires
                    r == ai - qi * bi,
                    qi == -ci,
                    ni == -ai,
                    ci * bi <= ni + bi - 1 < ci * bi + bi,
                    ni > 0,
            ;
            lemma_fundamental_div_mod_converse(a as int, b as int, q as int, r);
        }
        q
    }
}

impl Viewport {
    /// Computes the tiles that a viewport of height `surface_height` shows at
    /// vertical scroll position `scroll`.
    pub fn visible_tiles(scroll: i32, surface_height: i32) -> (v: Viewport)
        ensures
            v.scroll_offset == scroll_offset_of(scroll as int),
            v.start_tile == start_tile_of(scroll as int),
            v.end_tile == end_tile_of(scroll as int, surface_height as int),
    {
        let th = TILE_HEIGHT as i64;
        let start = floor_div(scroll as i64, th);
        assert(-0x100_0000 <= start <= 0x100_0000) by (nonlinear_arith)
            requires
                start == (scroll as int) / 640,
                i32::MIN <= scroll <= i32::MAX,
        ;
        let offset = scroll as i64 - start * th;
        proof {
            lemma_fundamental_div_mod(scroll as int, th as int);
            assert(offset == (scroll as int) % (th as int));
            assert(0 <= offset < th);
        }
        let count = floor_div(surface_height as i64 + offset + th - 1, th);
        assert(-0x100_0000 <= count <= 0x100_0000) by (nonlinear_arith)
            requires
                count == (surface_height + offset + 639) / 640,
                i32::MIN <= scroll <= i32::MAX,
                i32::MIN <= surface_height <= i32::MAX,
                0 <= offset < 640,
        ;
        Viewport { scroll_offset: offset as i32, start_tile: start as i32, end_tile: (start + count) as i32 }
    }

    /// Vertical screen position of the top edge of `tile` in this viewport;
    /// negative for a first tile that is partly scrolled out.
    pub fn tile_y(&self, tile: i32) -> (y: i64)
        ensures
            y == tile_y_of(self.start_tile as int, self.scroll_offset as int, tile as int),
    {
        let th = TILE_HEIGHT as i64;
        let diff = tile as i64 - self.start_tile as i64;
        assert(th == 640);
        th * diff - self.scroll_offset as i64
    }
}

/// The computed tile range covers the whole viewport: the first tile starts at
/// or above the viewport's top edge and the last one ends at or below its
/// bottom edge. It overshoots by less than one tile at each edge.
pub proof fn lemma_tile_range_covers_viewport(scroll: int, surface_height: int)
    requires
        scroll >= 0,
        surface_height > 0,
    ensures
        start_tile_of(scroll) * (TILE_HEIGHT as int) <= scroll,
        scroll < (start_tile_of(scroll) + 1) * (TILE_HEIGHT as int),
        end_tile_of(scroll, surface_height) * (TILE_HEIGHT as int) >= scroll + surface_height,
        (end_tile_of(scroll, surface_height) - 1) * (TILE_HEIGHT as int) < scroll + surface_height,
{
    let th = TILE_HEIGHT as int;
    let start = start_tile_of(scroll);
    let offset = scroll_offset_of(scroll);
    let num = surface_height + offset + th - 1;
    let count = tiles_on_screen(scroll, surface_height);
    lemma_fundamental_div_mod(scroll, th);
    lemma_fundamental_div_mod(num, th);
    assert(scroll == start * th + offset) by (nonlinear_arith)
        requires
            scroll == th * start + offset,
    ;
    assert(num == count * th + num % th) by (nonlinear_arith)
        requires
            num == th * count + num % th,
    ;
    assert((start + count) * th == start * th + count * th) by (nonlinear_arith);
    assert((start + 1) * th == start * th + th) by (nonlinear_arith);
    assert((start + count - 1) * th == start * th + count * th - th) by (nonlinear_arith);
}

} // verus!
