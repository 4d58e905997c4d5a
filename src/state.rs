//! The render state and the redraw decisions driven by scroll and resize
//! events: which tiles to show, where, and which of them must be rasterized.

use crate::cache::TileCache;
use crate::geometry::{end_tile_of, scroll_offset_of, start_tile_of, tile_y_of, Viewport};
use vstd::prelude::*;

verus! {

/// Where one tile image goes in a frame.
#[derive(Clone, Copy, Debug, PartialEq, Eq)]
pub struct TilePlacement {
    /// Index of the tile.
    pub tile: i32,
    /// Screen position of the tile's top edge.
    pub y: i64,
    /// Whether the tile was rasterized for this frame rather than taken from
    /// the cache.
    pub rasterized: bool,
}

/// Mathematical model of a [`State`].
pub ghost struct StateView<I> {
    pub width: i32,
    pub height: i32,
    pub tiles: Map<i32, I>,
}

/// The state of a surface of the given size with nothing cached.
pub open spec fn fresh_state<I>(width: i32, height: i32) -> StateView<I> {
    StateView { width, height, tiles: Map::empty() }
}

/// The size of the drawing surface and the cache of tiles rendered at its
/// width.
pub struct State<I> {
    width: i32,
    height: i32,
    tile_cache: TileCache<I>,
}

impl<I> View for State<I> {
    type V = StateView<I>;

    closed spec fn view(&self) -> StateView<I> {
        StateView { width: self.width, height: self.height, tiles: self.tile_cache@ }
    }
}

impl<I> State<I> {
    /// Width of the surface.
    pub fn width(&self) -> (w: i32)
        ensures
            w == self@.width,
    {
        self.width
    }

    /// Height of the surface.
    pub fn height(&self) -> (h: i32)
        ensures
            h == self@.height,
    {
        self.height
    }

    /// The tile cache.
    pub fn tile_cache(&self) -> (c: &TileCache<I>)
        ensures
            c@ == self@.tiles,
    {
        &self.tile_cache
    }
}

/// What a redraw at `scroll` does to the state `before`, with `rasterize`
/// producing missing tiles: the visible tiles are placed in ascending order,
/// each at its screen position; a tile is rasterized exactly when it was not
/// cached; cached images are kept as they are; the new ones come from
/// `rasterize` at the surface width; the size does not change.
pub open spec fn frame_outcome<I, F: Fn(i32, i32) -> I>(
    before: StateView<I>,
    scroll: int,
    rasterize: F,
    placements: Seq<TilePlacement>,
    after: StateView<I>,
) -> bool {
    let start = start_tile_of(scroll);
    let end = end_tile_of(scroll, before.height as int);
    let offset = scroll_offset_of(scroll);
    &&& after.width == before.width
    &&& after.height == before.height
    &&& placements.len() == if start < end { end - start } else { 0 }
    &&& forall|k: int|
        0 <= k < placements.len() ==> {
            let p = #[trigger] placements[k];
            &&& p.tile == start + k
            &&& p.y == tile_y_of(start, offset, start + k)
            &&& p.rasterized == !before.tiles.contains_key(p.tile)
        }
    &&& forall|t: i32|
        #[trigger] after.tiles.contains_key(t) <==> (before.tiles.contains_key(t) || start <= t < end)
    &&& forall|t: i32| #[trigger] before.tiles.contains_key(t) ==> after.tiles[t] == before.tiles[t]
    &&& forall|t: i32|
        #[trigger] after.tiles.contains_key(t) && !before.tiles.contains_key(t) ==> rasterize.ensures(
            (t, before.width),
            after.tiles[t],
        )
}

/// A state for a surface of `width` by `height` pixels, with an empty cache.
pub fn init<I>(width: i32, height: i32) -> (state: State<I>)
    ensures
        state@ == fresh_state::<I>(width, height),
{
    State { width, height, tile_cache: TileCache::new() }
}

/// Records the new size of the surface. Every cached image was rendered at
/// the old size, so the cache is emptied.
pub fn resize_surface<I>(state: &mut State<I>, width: i32, height: i32)
    ensures
        final(state)@ == fresh_state::<I>(width, height),
{
    state.width = width;
    state.height = height;
    state.tile_cache.invalidate_all();
}

/// Redraws the viewport at vertical scroll position `scroll`: returns where
/// each visible tile goes, after making sure that every one of them is in the
/// cache. `rasterize(index, width)` renders a tile that is not.
pub fn on_translate<I, F: Fn(i32, i32) -> I>(
    state: &mut State<I>,
    scroll: i32,
    rasterize: F,
) -> (placements: Vec<TilePlacement>)
    requires
        forall|t: i32| rasterize.requires((t, old(state)@.width)),
    ensures
        frame_outcome(old(state)@, scroll as int, rasterize, placements@, final(state)@),
{
    let ghost before = state@;
    let vp = Viewport::visible_tiles(scroll, state.height);
    let width = state.width;
    let mut placements: Vec<TilePlacement> = Vec::new();
    let mut t = vp.start_tile;
    while t < vp.end_tile
        invariant
            width == before.width,
            forall|i: i32| rasterize.requires((i, width)),
            vp.start_tile == start_tile_of(scroll as int),
            vp.end_tile == end_tile_of(scroll as int, before.height as int),
            vp.scroll_offset == scroll_offset_of(scroll as int),
            t == vp.start_tile + placements@.len(),
            vp.start_tile < vp.end_tile ==> t <= vp.end_tile,
            vp.start_tile >= vp.end_tile ==> placements@.len() == 0,
            state@.width == before.width,
            state@.height == before.height,
            forall|k: int|
                0 <= k < placements@.len() ==> {
                    let p = #[trigger] placements@[k];
                    &&& p.tile == vp.start_tile + k
                    &&& p.y == tile_y_of(vp.start_tile as int, vp.scroll_offset as int, vp.start_tile + k)
                    &&& p.rasterized == !before.tiles.contains_key(p.tile)
                },
            forall|i: i32|
                #[trigger] state@.tiles.contains_key(i) <==> (before.tiles.contains_key(i) || vp.start_tile <= i < vp.start_tile + placements@.len()),
            forall|i: i32| #[trigger] before.tiles.contains_key(i) ==> state@.tiles[i] == before.tiles[i],
            forall|i: i32|
                #[trigger] state@.tiles.contains_key(i) && !before.tiles.contains_key(i) ==> rasterize.ensures((i, width), state@.tiles[i]),
        decreases vp.end_tile - t,
    {
        let rasterized = !state.tile_cache.contains(t);
        // `t` lies past every tile placed so far, so it is cached exactly
        // when it was cached before this redraw.
        assert(state@.tiles.contains_key(t) == before.tiles.contains_key(t));
        if rasterized {
            let image = rasterize(t, width);
            state.tile_cache.set_tile(t, image);
        }
        let y = vp.tile_y(t);
        placements.push(TilePlacement { tile: t, y, rasterized });
        t = t + 1;
    }
    placements
}

/// Redraws the viewport from the top of the grid, as at scroll position 0.
pub fn on_animation_frame<I, F: Fn(i32, i32) -> I>(
    state: &mut State<I>,
    rasterize: F,
) -> (placements: Vec<TilePlacement>)
    requires
        forall|t: i32| rasterize.requires((t, old(state)@.width)),
    ensures
        frame_outcome(old(state)@, 0, rasterize, placements@, final(state)@),
{
    on_translate(state, 0, rasterize)
}

/// After a resize nothing is cached, so the next lookup of any tile, one
/// that was cached before included, is a miss: the tile is rasterized afresh
/// at the new size.
pub proof fn lemma_resize_forces_fresh_rasterization<I>(
    width: i32,
    height: i32,
    index: i32,
    image: I,
    after: Map<i32, I>,
)
    requires
        crate::cache::lookup_outcome(fresh_state::<I>(width, height).tiles, index, image, after),
    ensures
        !fresh_state::<I>(width, height).tiles.contains_key(index),
        after == fresh_state::<I>(width, height).tiles.insert(index, image),
{
}

/// Of two consecutive redraws, the second rasterizes none of the tiles that
/// the first placed: each of them keeps the image it had after the first.
pub proof fn lemma_consecutive_frames_reuse_tiles<I, F: Fn(i32, i32) -> I>(
    s0: StateView<I>,
    first_scroll: int,
    first: Seq<TilePlacement>,
    s1: StateView<I>,
    second_scroll: int,
    second: Seq<TilePlacement>,
    s2: StateView<I>,
    rasterize: F,
    k: int,
    j: int,
)
    requires
        frame_outcome(s0, first_scroll, rasterize, first, s1),
        frame_outcome(s1, second_scroll, rasterize, second, s2),
        0 <= k < first.len(),
        0 <= j < second.len(),
        second[j].tile == first[k].tile,
    ensures
        !second[j].rasterized,
        s2.tiles[second[j].tile] == s1.tiles[first[k].tile],
{
    let t = first[k].tile;
    assert(s1.tiles.contains_key(t));
}

/// A redraw right after a resize rasterizes every tile that it places.
pub proof fn lemma_frame_after_resize_rasterizes_all<I, F: Fn(i32, i32) -> I>(
    width: i32,
    height: i32,
    scroll: int,
    rasterize: F,
    placements: Seq<TilePlacement>,
    after: StateView<I>,
    k: int,
)
    requires
        frame_outcome(fresh_state::<I>(width, height), scroll, rasterize, placements, after),
        0 <= k < placements.len(),
    ensures
        placements[k].rasterized,
        rasterize.ensures((placements[k].tile, width), after.tiles[placements[k].tile]),
{
    let t = placements[k].tile;
    assert(start_tile_of(scroll) <= t < end_tile_of(scroll, height as int));
    assert(after.tiles.contains_key(t));
}

} // verus!
