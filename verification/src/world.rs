//! The world store: a mapping from chunk position to chunk that owns all
//! tiles, queried and edited by global tile position.
//!
//! A chunk position present in the mapping means that chunk has been
//! generated; absence means the position is outside the generated world,
//! which is not an error. The mapping is keyed by a hash map whose key packs
//! the two 32-bit chunk coordinates into one 64-bit integer; the packing is
//! a bijection, so the store is faithfully described by a map from
//! coordinate pairs to tile sequences.

use vstd::prelude::*;

verus! {

use std::collections::HashMap;
use crate::chunk::Chunk;
use crate::chunk::spec_chunk_get;
use crate::coords::GlobalTilePos;
use crate::coords::spec_chunk_coord;
use crate::coords::spec_local_coord;
use crate::coords::to_chunk_and_local;
use crate::tiles::Tile;
use vstd::map::*;

broadcast use vstd::std_specs::hash::group_hash_axioms;

/// The 64-bit store key of chunk position `(x, y)`: the bits of `x` in the
/// high half and the bits of `y` in the low half. A bijection between
/// coordinate pairs and keys.
pub open spec fn spec_chunk_key(x: int, y: int) -> u64 {
    ((x as i32 as u32 as u64) << 32u64) | (y as i32 as u32 as u64)
}

/// Packs a chunk position into its store key.
pub(crate) fn chunk_key(x: i32, y: i32) -> (k: u64)
    ensures
        k == spec_chunk_key(x as int, y as int),
{
    ((x as u32 as u64) << 32u64) | (y as u32 as u64)
}

/// Distinct chunk positions have distinct store keys.
pub proof fn lemma_chunk_key_injective(x1: i32, y1: i32, x2: i32, y2: i32)
    requires
        spec_chunk_key(x1 as int, y1 as int) == spec_chunk_key(x2 as int, y2 as int),
    ensures
        x1 == x2 && y1 == y2,
{
    assert(((x1 as u32 as u64) << 32u64) | (y1 as u32 as u64) == ((x2 as u32 as u64) << 32u64) | (
    y2 as u32 as u64) ==> x1 == x2 && y1 == y2) by (bit_vector);
}

/// Whether both components of a coordinate pair fit 32-bit coordinates.
pub open spec fn in_coord_range(p: (int, int)) -> bool {
    i32::MIN <= p.0 <= i32::MAX && i32::MIN <= p.1 <= i32::MAX
}

/// The keyed store, read as a map from chunk coordinate pairs to the tile
/// sequences of their chunks.
pub open spec fn chunks_view(m: Map<u64, Chunk>) -> Map<(int, int), Seq<Tile>> {
    Map::new(
        |p: (int, int)| in_coord_range(p) && m.contains_key(spec_chunk_key(p.0, p.1)),
        |p: (int, int)| m[spec_chunk_key(p.0, p.1)]@,
    )
}

/// Inserting a chunk at a packed key inserts its tiles at the coordinate
/// pair in the view.
pub proof fn lemma_chunks_view_insert(m: Map<u64, Chunk>, x: i32, y: i32, c: Chunk)
    ensures
        chunks_view(m.insert(spec_chunk_key(x as int, y as int), c)) == chunks_view(m).insert(
            (x as int, y as int),
            c@,
        ),
{
    let k = spec_chunk_key(x as int, y as int);
    assert forall|p: (int, int)|
        in_coord_range(p) && p != (x as int, y as int) implies spec_chunk_key(p.0, p.1)
        != k by {
        if spec_chunk_key(p.0, p.1) == k {
            lemma_chunk_key_injective(p.0 as i32, p.1 as i32, x, y);
        }
    }
    assert(chunks_view(m.insert(k, c)) =~= chunks_view(m).insert((x as int, y as int), c@));
}

/// Removing the chunk at a packed key removes the coordinate pair from the
/// view.
pub proof fn lemma_chunks_view_remove(m: Map<u64, Chunk>, x: i32, y: i32)
    ensures
        chunks_view(m.remove(spec_chunk_key(x as int, y as int))) == chunks_view(m).remove(
            (x as int, y as int),
        ),
{
    let k = spec_chunk_key(x as int, y as int);
    assert forall|p: (int, int)|
        in_coord_range(p) && p != (x as int, y as int) implies spec_chunk_key(p.0, p.1)
        != k by {
        if spec_chunk_key(p.0, p.1) == k {
            lemma_chunk_key_injective(p.0 as i32, p.1 as i32, x, y);
        }
    }
    assert(chunks_view(m.remove(k)) =~= chunks_view(m).remove((x as int, y as int)));
}

/// Inserts `chunk` at chunk position `(cx, cy)` in a keyed store.
pub(crate) fn insert_chunk(chunks: &mut HashMap<u64, Chunk>, cx: i32, cy: i32, chunk: Chunk)
    ensures
        chunks_view(final(chunks)@) == chunks_view(old(chunks)@).insert(
            (cx as int, cy as int),
            chunk@,
        ),
{
    let ghost snap = chunks@;
    let key = chunk_key(cx, cy);
    chunks.insert(key, chunk);
    proof {
        lemma_chunks_view_insert(snap, cx, cy, chunk);
    }
}

/// What a tile query answers on a world whose chunks are `m`: the tile at
/// the resolved chunk and local position, absent when the chunk was never
/// generated (or, defensively, when the local index misses the chunk).
pub open spec fn spec_get_tile(m: Map<(int, int), Seq<Tile>>, gx: int, gy: int) -> Option<Tile> {
    let c = (spec_chunk_coord(gx), spec_chunk_coord(gy));
    if m.contains_key(c) {
        spec_chunk_get(m[c], spec_local_coord(gx), spec_local_coord(gy))
    } else {
        None
    }
}

/// Whether every chunk of a world mapping holds exactly 256 tiles — the
/// chunk invariant, read at the level of the world's view.
pub open spec fn wf_chunks(m: Map<(int, int), Seq<Tile>>) -> bool {
    forall|p: (int, int)| #[trigger] m.contains_key(p) ==> m[p].len() == 256
}

/// On a well-formed mapping, a query whose chunk is present always answers
/// a tile: the local index is always within the 256-tile chunk.
pub proof fn lemma_get_tile_present(m: Map<(int, int), Seq<Tile>>, gx: int, gy: int)
    requires
        wf_chunks(m),
        m.contains_key((spec_chunk_coord(gx), spec_chunk_coord(gy))),
    ensures
        spec_get_tile(m, gx, gy).is_some(),
{
    crate::coords::lemma_local_coord_in_range(gx);
    crate::coords::lemma_local_coord_in_range(gy);
}

/// The world: a mapping from chunk position to chunk, owning all tiles.
/// Constructed empty, populated once by a generation strategy, then mutated
/// only through single-tile edits.
pub struct World {
    chunks: HashMap<u64, Chunk>,
}

impl View for World {
    type V = Map<(int, int), Seq<Tile>>;

    closed spec fn view(&self) -> Map<(int, int), Seq<Tile>> {
        chunks_view(self.chunks@)
    }
}

impl World {
    /// A well-formed world: every generated chunk holds exactly 256 tiles.
    /// Constructors and generation establish it; edits preserve it.
    pub open spec fn wf(self) -> bool {
        wf_chunks(self@)
    }

    /// An empty world: no chunk has been generated.
    pub fn new() -> (w: World)
        ensures
            w@ == Map::<(int, int), Seq<Tile>>::empty(),
            w.wf(),
    {
        let w = World { chunks: HashMap::new() };
        proof {
            assert(w@ =~= Map::<(int, int), Seq<Tile>>::empty());
        }
        w
    }

    /// Replaces the entire chunk mapping in one step — how a generation
    /// strategy's output is installed. No partially-populated state is ever
    /// observable.
    pub fn set_chunks(&mut self, chunks: HashMap<u64, Chunk>)
        requires
            wf_chunks(chunks_view(chunks@)),
        ensures
            final(self)@ == chunks_view(chunks@),
            final(self).wf(),
    {
        self.chunks = chunks;
    }

    /// The tile at global position `pos`, or `None` when the position lies
    /// in no generated chunk.
    pub fn get_tile(&self, pos: &GlobalTilePos) -> (r: Option<Tile>)
        ensures
            r == spec_get_tile(self@, pos.0 as int, pos.1 as int),
    {
        let (chunk_pos, local) = to_chunk_and_local(*pos);
        let key = chunk_key(chunk_pos.x, chunk_pos.y);
        match self.chunks.get(&key) {
            Some(chunk) => chunk.get(local.0, local.1),
            None => None,
        }
    }

    /// Whether `pos` resolves to a generated tile.
    pub fn contains_tile(&self, pos: &GlobalTilePos) -> (r: bool)
        ensures
            r == spec_get_tile(self@, pos.0 as int, pos.1 as int).is_some(),
    {
        match self.get_tile(pos) {
            Some(_) => true,
            None => false,
        }
    }

    /// Edits the tile at global position `pos` in place. Returns whether the
    /// edit happened: `true` exactly when the position lies in a generated
    /// chunk, in which case only that one tile changes; otherwise the world
    /// is left unchanged.
    pub fn set_tile(&mut self, pos: &GlobalTilePos, tile: Tile) -> (edited: bool)
        ensures
            edited == spec_get_tile(old(self)@, pos.0 as int, pos.1 as int).is_some(),
            edited ==> {
                let c = (spec_chunk_coord(pos.0 as int), spec_chunk_coord(pos.1 as int));
                let idx = spec_local_coord(pos.1 as int) * 16 + spec_local_coord(pos.0 as int);
                &&& final(self)@ == old(self)@.insert(c, old(self)@[c].update(idx, tile))
                &&& spec_get_tile(final(self)@, pos.0 as int, pos.1 as int) == Some(tile)
            },
            !edited ==> final(self)@ == old(self)@,
            old(self).wf() ==> final(self).wf(),
    {
        let ghost snap = self.chunks@;
        let (chunk_pos, local) = to_chunk_and_local(*pos);
        let key = chunk_key(chunk_pos.x, chunk_pos.y);
        match self.chunks.remove(&key) {
            Some(mut chunk) => {
                proof {
                    use_type_invariant(&chunk);
                }
                chunk.set(local.0, local.1, tile);
                self.chunks.insert(key, chunk);
                proof {
                    let c = (chunk_pos.x as int, chunk_pos.y as int);
                    lemma_chunks_view_remove(snap, chunk_pos.x, chunk_pos.y);
                    lemma_chunks_view_insert(snap.remove(spec_chunk_key(c.0, c.1)), chunk_pos.x,
                        chunk_pos.y, chunk);
                    assert(chunks_view(snap).remove(c).insert(c, chunk@) =~= chunks_view(
                        snap,
                    ).insert(c, chunk@));
                }
                true
            },
            None => false,
        }
    }
}

} // verus!
