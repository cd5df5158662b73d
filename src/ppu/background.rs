use vstd::prelude::*;
use vstd::std_specs::iter::IteratorSpec;
use super::tile::Tile;

verus! {

/// The tiles built so far for the frame being assembled, in build order.
pub struct Background {
    pub tiles: Vec<Tile>,
}

impl Background {
    /// Every tile is well formed.
    pub open spec fn wf(&self) -> bool {
        forall|i: int| 0 <= i < self.tiles@.len() ==> (#[trigger] self.tiles@[i]).wf()
    }

    pub fn new() -> (r: Background)
        ensures
            r.tiles@.len() == 0,
            r.wf(),
    {
        Background { tiles: Vec::new() }
    }

    pub fn push(&mut self, tile: Tile)
        ensures
            final(self).tiles@ == old(self).tiles@.push(tile),
            old(self).wf() && tile.wf() ==> final(self).wf(),
    {
        self.tiles.push(tile);
    }

    /// The tiles, in build order.
    pub fn iter(&self) -> (r: std::slice::Iter<'_, Tile>)
        ensures
            r.remaining() == self.tiles@.as_ref(),
    {
        self.tiles.as_slice().iter()
    }
}

} // verus!
