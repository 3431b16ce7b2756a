//! A chunk: a fixed block of 16 x 16 tiles in row-major order (`y` outer,
//! `x` inner), addressed by local coordinates.

use vstd::prelude::*;

verus! {

use crate::tiles::Tile;

/// What `Chunk::get` returns: the tile at local `(lx, ly)`, or absence when
/// either local coordinate is out of `[0, 16)`.
pub open spec fn spec_chunk_get(tiles: Seq<Tile>, lx: int, ly: int) -> Option<Tile> {
    if 0 <= lx < 16 && 0 <= ly < 16 && ly * 16 + lx < tiles.len() {
        Some(tiles[ly * 16 + lx])
    } else {
        None
    }
}

/// A fixed-length block of exactly 256 tiles, addressed by local coordinates
/// `(lx, ly)` with `0 <= lx, ly < 16` at linear index `ly * 16 + lx`.
#[derive(Debug)]
pub struct Chunk {
    tiles: Vec<Tile>,
}

impl View for Chunk {
    type V = Seq<Tile>;

    closed spec fn view(&self) -> Seq<Tile> {
        self.tiles@
    }
}

impl Chunk {
    /// A chunk always holds exactly 16 * 16 = 256 tiles; it is never
    /// resized. `use_type_invariant` recovers this fact for any chunk value.
    #[verifier::type_invariant]
    pub open spec fn inv(self) -> bool {
        self@.len() == 256
    }

    /// A chunk is only built from a complete block of 256 tiles.
    pub fn from_tiles(tiles: Vec<Tile>) -> (c: Chunk)
        requires
            tiles@.len() == 256,
        ensures
            c@ == tiles@,
    {
        Chunk { tiles }
    }

    /// The tile at local coordinates `(lx, ly)`, or `None` when `lx >= 16`
    /// or `ly >= 16`. Out-of-range coordinates are absence, never a panic.
    pub fn get(&self, lx: u8, ly: u8) -> (r: Option<Tile>)
        ensures
            r == spec_chunk_get(self@, lx as int, ly as int),
    {
        proof {
            use_type_invariant(self);
        }
        if lx < 16 && ly < 16 {
            let i: usize = ly as usize * 16 + lx as usize;
            Some(self.tiles[i])
        } else {
            None
        }
    }

    /// Replaces the tile at local coordinates `(lx, ly)`; the rest of the
    /// chunk is unchanged. Returns whether the write happened: out-of-range
    /// local coordinates are absence — the chunk is left untouched — never
    /// a panic.
    pub fn set(&mut self, lx: u8, ly: u8, tile: Tile) -> (written: bool)
        ensures
            written == (lx < 16 && ly < 16),
            written ==> final(self)@ == old(self)@.update(ly as int * 16 + lx as int, tile),
            !written ==> final(self)@ == old(self)@,
    {
        proof {
            use_type_invariant(&*self);
        }
        if lx < 16 && ly < 16 {
            let i: usize = ly as usize * 16 + lx as usize;
            self.tiles[i] = tile;
            true
        } else {
            false
        }
    }
}

} // verus!
