//! The tile cache: one rendered image per tile index, produced on the first
//! lookup and reused until the whole cache is invalidated.

use std::collections::HashMap;
use vstd::prelude::*;

verus! {

/// What a lookup of `index` in a cache holding `before` does: a hit leaves
/// the cache as it is and yields the stored image; a miss stores the new
/// image under `index` and yields it.
pub open spec fn lookup_outcome<I>(before: Map<i32, I>, index: i32, image: I, after: Map<i32, I>) -> bool {
    if before.contains_key(index) {
        after == before && image == before[index]
    } else {
        after == before.insert(index, image)
    }
}

/// Rendered tile images keyed by tile index.
pub struct TileCache<I> {
    tiles: HashMap<i32, I>,
}

impl<I> View for TileCache<I> {
    type V = Map<i32, I>;

    closed spec fn view(&self) -> Map<i32, I> {
        self.tiles@
    }
}

impl<I> TileCache<I> {
    /// An empty cache.
    pub fn new() -> (c: TileCache<I>)
        ensures
            c@ == Map::<i32, I>::empty(),
    {
        TileCache { tiles: HashMap::new() }
    }

    /// Number of cached tiles.
    pub fn len(&self) -> (n: usize)
        ensures
            n == self@.len(),
    {
        self.tiles.len()
    }

    /// Whether tile `index` is cached.
    pub fn contains(&self, index: i32) -> (b: bool)
        ensures
            b == self@.contains_key(index),
    {
        self.tiles.contains_key(&index)
    }

    /// The cached image of tile `index`, if any.
    pub fn get(&self, index: i32) -> (r: Option<&I>)
        ensures
            match r {
                Some(image) => self@.contains_key(index) && *image == self@[index],
                None => !self@.contains_key(index),
            },
    {
        self.tiles.get(&index)
    }

    /// Stores `image` as the image of tile `index`, replacing any earlier one.
    pub fn set_tile(&mut self, index: i32, image: I)
        ensures
            final(self)@ == old(self)@.insert(index, image),
    {
        self.tiles.insert(index, image);
    }

    /// Drops every cached image.
    pub fn invalidate_all(&mut self)
        ensures
            final(self)@ == Map::<i32, I>::empty(),
    {
        self.tiles.clear();
    }

    /// The image of tile `index`: the cached one when there is one, else a
    /// new one from `rasterize`, which is stored before it is returned.
    pub fn get_or_create<F: Fn(i32) -> I>(&mut self, index: i32, rasterize: F) -> (image: &I)
        requires
            rasterize.requires((index,)),
        ensures
            lookup_outcome(old(self)@, index, *image, final(self)@),
            !old(self)@.contains_key(index) ==> rasterize.ensures((index,), *image),
    {
        if !self.tiles.contains_key(&index) {
            let image = rasterize(index);
            self.tiles.insert(index, image);
        }
        self.tiles.get(&index).unwrap()
    }
}

/// A second lookup of the same tile with no invalidation in between is a hit:
/// it yields the very image of the first lookup and leaves the cache as it
/// was, so a tile is rasterized at most once per cache lifetime.
pub proof fn lemma_second_lookup_reuses<I>(
    start: Map<i32, I>,
    index: i32,
    first: I,
    middle: Map<i32, I>,
    second: I,
    end: Map<i32, I>,
)
    requires
        lookup_outcome(start, index, first, middle),
        lookup_outcome(middle, index, second, end),
    ensures
        middle.contains_key(index),
        second == first,
        end == middle,
{
}

} // verus!
