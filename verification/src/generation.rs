//! The generation engine: pure functions that, given a size and a seed,
//! produce a complete chunk mapping using one of four strategies.
//!
//! Every strategy iterates chunk coordinates over `[0, n) x [0, n)` (`n`
//! chunks per axis, derived from the size; the extent starts at the origin,
//! so no generated chunk has a negative coordinate), `cy` outer and `cx`
//! inner. The strategies that consume random draws consume them in exactly
//! that iteration order — and, within a chunk, in row-major tile order —
//! which is what makes a seed reproduce the same world on every run: each
//! generator's result is stated as a function of its arguments alone.

use vstd::prelude::*;

verus! {

use std::collections::HashMap;
use crate::chunk::Chunk;
use crate::chunk::spec_chunk_get;
use crate::coords::spec_chunk_coord;
use crate::coords::spec_local_coord;
use crate::noise_field::fbm_bits;
use crate::noise_field::plane_bits;
use crate::noise_field::plane_for_world;
use crate::noise_field::plane_side;
use crate::noise_field::spec_classify_bits;
use crate::noise_field::spec_noise_seed;
use crate::noise_field::tile_at_sample;
use crate::rng::TileRng;
use crate::rng::random_tile;
use crate::rng::rng_draw;
use crate::rng::seed_to_byte_array;
use crate::rng::spec_seed_bytes;
use crate::rng::tile_from_draw;
use crate::tiles::Tile;
use crate::tiles::WorldGenError;
use crate::tiles::WorldGenerationSize;
use crate::tiles::WorldGenerationType;
use crate::tiles::get_size_from_type;
use crate::tiles::spec_world_size;
use crate::world::World;
use crate::world::chunks_view;
use crate::world::wf_chunks;
use crate::world::insert_chunk;
use crate::world::spec_get_tile;
use vstd::arithmetic::div_mod::lemma_fundamental_div_mod_converse;
use vstd::map::*;

/// A chunk whose 256 tiles all are `t`.
pub open spec fn spec_uniform_chunk(t: Tile) -> Seq<Tile> {
    Seq::new(256, |i: int| t)
}

/// A chunk of 256 independent draws, starting at draw number `base` of the
/// sequence seeded with `seed_bytes`, consumed in row-major tile order.
pub open spec fn spec_random_chunk(seed_bytes: Seq<u8>, base: nat) -> Seq<Tile> {
    Seq::new(256, |i: int| tile_from_draw(rng_draw(seed_bytes, (base + i) as nat)))
}

/// The chunk at chunk position `(cx, cy)` of a classified height field:
/// tile `i` classifies the sample of its global tile position on a plane of
/// `side` samples per axis.
pub open spec fn spec_perlin_chunk(bits: Seq<u64>, side: int, cx: int, cy: int) -> Seq<Tile> {
    Seq::new(256, |i: int| spec_classify_bits(bits[(cy * 16 + i / 16) * side + cx * 16 + i % 16]))
}

/// Whether `p` is a chunk position of the generated extent: the square of
/// `n` chunks per axis starting at the origin.
pub open spec fn in_extent(p: (int, int), n: int) -> bool {
    0 <= p.0 < n && 0 <= p.1 < n
}

/// The world of the `WaterWorld` strategy: every chunk of the extent is all
/// water. The seed is ignored.
pub open spec fn spec_water_world(n: int) -> Map<(int, int), Seq<Tile>> {
    Map::new(|p: (int, int)| in_extent(p, n), |p: (int, int)| spec_uniform_chunk(Tile::Water))
}

/// The world of the `ChunkMess` strategy: one draw per chunk, consumed in
/// iteration order (`cy` outer, `cx` inner, so chunk `(cx, cy)` takes draw
/// number `cy * n + cx`), and every tile of the chunk shares it.
pub open spec fn spec_chunk_mess_world(seed: u32, n: int) -> Map<(int, int), Seq<Tile>> {
    Map::new(
        |p: (int, int)| in_extent(p, n),
        |p: (int, int)|
            spec_uniform_chunk(
                tile_from_draw(rng_draw(spec_seed_bytes(seed), (p.1 * n + p.0) as nat)),
            ),
    )
}

/// The world of the `TileMess` strategy: one draw per tile, 256 per chunk,
/// consumed in the same chunk iteration order and row-major within each
/// chunk.
pub open spec fn spec_tile_mess_world(seed: u32, n: int) -> Map<(int, int), Seq<Tile>> {
    Map::new(
        |p: (int, int)| in_extent(p, n),
        |p: (int, int)| spec_random_chunk(spec_seed_bytes(seed), ((p.1 * n + p.0) * 256) as nat),
    )
}

/// The world of the `PerlinTerrain` strategy: the classified height field
/// of the noise grid keyed by the (capped) seed, `16 * n` samples per
/// axis, sampled over the square domain scaled inversely by the island
/// size.
pub open spec fn spec_perlin_world(seed: u32, n: int, island: int) -> Map<(int, int), Seq<Tile>> {
    Map::new(
        |p: (int, int)| in_extent(p, n),
        |p: (int, int)|
            spec_perlin_chunk(
                fbm_bits(spec_noise_seed(seed), (16 * n) as nat, n, island),
                16 * n,
                p.0,
                p.1,
            ),
    )
}

/// What `generate_world` produces for each strategy.
pub open spec fn spec_generate(
    generation_type: WorldGenerationType,
    n: int,
    island: int,
    seed: u32,
) -> Map<(int, int), Seq<Tile>> {
    match generation_type {
        WorldGenerationType::WaterWorld => spec_water_world(n),
        WorldGenerationType::ChunkMess => spec_chunk_mess_world(seed, n),
        WorldGenerationType::TileMess => spec_tile_mess_world(seed, n),
        WorldGenerationType::PerlinTerrain => spec_perlin_world(seed, n, island),
    }
}

/// The part of world `w` generated before chunk `(cx, cy)` in iteration
/// order: every chunk of earlier rows, and the chunks left of `cx` in row
/// `cy`.
spec fn spec_world_prefix(w: Map<(int, int), Seq<Tile>>, n: int, cy: int, cx: int) -> Map<
    (int, int),
    Seq<Tile>,
> {
    Map::new(
        |p: (int, int)| in_extent(p, n) && (p.1 < cy || (p.1 == cy && p.0 < cx)),
        |p: (int, int)| w[p],
    )
}

/// Builds a chunk whose 256 tiles all are `t`.
fn uniform_chunk(t: Tile) -> (c: Chunk)
    ensures
        c@ == spec_uniform_chunk(t),
{
    let mut tiles: Vec<Tile> = Vec::new();
    let mut i: usize = 0;
    while i < 256
        invariant
            i <= 256,
            tiles@.len() == i,
            forall|j: int| 0 <= j < i ==> tiles@[j] == t,
        decreases 256 - i,
    {
        tiles.push(t);
        i = i + 1;
    }
    proof {
        assert(tiles@ =~= spec_uniform_chunk(t));
    }
    Chunk::from_tiles(tiles)
}

/// Builds a chunk of 256 fresh draws, consumed in row-major tile order.
fn random_chunk(rng: &mut TileRng) -> (c: Chunk)
    requires
        old(rng).wf(),
        old(rng).drawn() + 256 <= u64::MAX,
    ensures
        c@ == spec_random_chunk(old(rng).seed_bytes(), old(rng).drawn()),
        final(rng).wf(),
        final(rng).seed_bytes() == old(rng).seed_bytes(),
        final(rng).drawn() == old(rng).drawn() + 256,
{
    let ghost base = old(rng).drawn();
    let ghost bytes = old(rng).seed_bytes();
    let mut tiles: Vec<Tile> = Vec::new();
    let mut i: usize = 0;
    while i < 256
        invariant
            i <= 256,
            tiles@.len() == i,
            rng.wf(),
            rng.seed_bytes() == bytes,
            rng.drawn() == base + i,
            base + 256 <= u64::MAX,
            forall|j: int| 0 <= j < i ==> tiles@[j] == tile_from_draw(rng_draw(bytes, (base + j) as nat)),
        decreases 256 - i,
    {
        let t = random_tile(rng);
        tiles.push(t);
        i = i + 1;
    }
    proof {
        assert(tiles@ =~= spec_random_chunk(bytes, base));
    }
    Chunk::from_tiles(tiles)
}

/// Builds the chunk at chunk position `(cx, cy)` by classifying the samples
/// of its 256 global tile positions, row-major.
fn perlin_chunk(plane: &noise::utils::NoiseMap, cx: usize, cy: usize) -> (c: Chunk)
    requires
        (cx + 1) * 16 <= plane_side(*plane),
        (cy + 1) * 16 <= plane_side(*plane),
        plane_side(*plane) < 32767,
        plane_bits(*plane).len() == plane_side(*plane) * plane_side(*plane),
    ensures
        c@ == spec_perlin_chunk(
            plane_bits(*plane),
            plane_side(*plane) as int,
            cx as int,
            cy as int,
        ),
{
    let ghost target = spec_perlin_chunk(
        plane_bits(*plane),
        plane_side(*plane) as int,
        cx as int,
        cy as int,
    );
    let mut tiles: Vec<Tile> = Vec::new();
    let mut y: usize = 0;
    while y < 16
        invariant
            y <= 16,
            tiles@.len() == y * 16,
            (cx + 1) * 16 <= plane_side(*plane),
            (cy + 1) * 16 <= plane_side(*plane),
            plane_side(*plane) < 32767,
            plane_bits(*plane).len() == plane_side(*plane) * plane_side(*plane),
            target == spec_perlin_chunk(
                plane_bits(*plane),
                plane_side(*plane) as int,
                cx as int,
                cy as int,
            ),
            forall|j: int| 0 <= j < y * 16 ==> tiles@[j] == target[j],
        decreases 16 - y,
    {
        let mut x: usize = 0;
        while x < 16
            invariant
                x <= 16,
                y < 16,
                tiles@.len() == y * 16 + x,
                (cx + 1) * 16 <= plane_side(*plane),
                (cy + 1) * 16 <= plane_side(*plane),
                plane_side(*plane) < 32767,
                plane_bits(*plane).len() == plane_side(*plane) * plane_side(*plane),
                target == spec_perlin_chunk(
                    plane_bits(*plane),
                    plane_side(*plane) as int,
                    cx as int,
                    cy as int,
                ),
                forall|j: int| 0 <= j < y * 16 + x ==> tiles@[j] == target[j],
            decreases 16 - x,
        {
            let t = tile_at_sample(plane, cx * 16 + x, cy * 16 + y);
            tiles.push(t);
            proof {
                let j = y * 16 + x;
                lemma_fundamental_div_mod_converse(j as int, 16, y as int, x as int);
            }
            x = x + 1;
        }
        y = y + 1;
    }
    proof {
        assert(tiles@ =~= target);
    }
    Chunk::from_tiles(tiles)
}

// World generation strategies.
impl World {
    /// Generates the `WaterWorld` mapping: every tile of every chunk of the
    /// extent is `Water`. The seed is ignored; the result depends on the
    /// size alone.
    pub fn generate_water_world(size: WorldGenerationSize, _seed: u32) -> (chunks: HashMap<
        u64,
        Chunk,
    >)
        ensures
            chunks_view(chunks@) == spec_water_world(spec_world_size(size)),
    {
        let world_size = get_size_from_type(size);
        let ghost n = world_size as int;
        let ghost target = spec_water_world(n);
        let mut chunks: HashMap<u64, Chunk> = HashMap::new();
        proof {
            assert(chunks_view(chunks@) =~= spec_world_prefix(target, n, 0, 0));
        }
        let mut chunk_y: i32 = 0;
        while chunk_y < world_size
            invariant
                0 <= chunk_y <= world_size,
                target == spec_water_world(n),
                n == world_size as int,
                chunks_view(chunks@) == spec_world_prefix(target, n, chunk_y as int, 0),
            decreases world_size - chunk_y,
        {
            let mut chunk_x: i32 = 0;
            while chunk_x < world_size
                invariant
                    0 <= chunk_x <= world_size,
                    0 <= chunk_y < world_size,
                    target == spec_water_world(n),
                    n == world_size as int,
                    chunks_view(chunks@) == spec_world_prefix(target, n, chunk_y as int,
                    chunk_x as int),
                decreases world_size - chunk_x,
            {
                let chunk = uniform_chunk(Tile::Water);
                insert_chunk(&mut chunks, chunk_x, chunk_y, chunk);
                proof {
                    assert(chunks_view(chunks@) =~= spec_world_prefix(target, n, chunk_y as int,
                    chunk_x as int + 1));
                }
                chunk_x = chunk_x + 1;
            }
            proof {
                assert(spec_world_prefix(target, n, chunk_y as int, n) =~= spec_world_prefix(
                    target,
                    n,
                    chunk_y as int + 1,
                    0,
                ));
            }
            chunk_y = chunk_y + 1;
        }
        proof {
            assert(spec_world_prefix(target, n, n, 0) =~= target);
        }
        chunks
    }

    /// Generates the `ChunkMess` mapping: one draw per chunk, consumed in
    /// iteration order, and every tile of the chunk shares the drawn kind.
    /// The result depends on the size and the seed alone.
    pub fn generate_chunk_mess_world(size: WorldGenerationSize, seed: u32) -> (chunks: HashMap<
        u64,
        Chunk,
    >)
        ensures
            chunks_view(chunks@) == spec_chunk_mess_world(seed, spec_world_size(size)),
    {
        let world_size = get_size_from_type(size);
        let ghost n = world_size as int;
        let ghost target = spec_chunk_mess_world(seed, n);
        let mut chunks: HashMap<u64, Chunk> = HashMap::new();
        let seed_bytes = seed_to_byte_array(seed);
        let mut rng = TileRng::from_seed(seed_bytes);
        proof {
            assert(chunks_view(chunks@) =~= spec_world_prefix(target, n, 0, 0));
        }
        let mut chunk_y: i32 = 0;
        while chunk_y < world_size
            invariant
                0 <= chunk_y <= world_size,
                target == spec_chunk_mess_world(seed, n),
                n == world_size as int,
                1 <= n <= 20,
                rng.wf(),
                rng.seed_bytes() == spec_seed_bytes(seed),
                rng.drawn() == chunk_y as int * n,
                chunks_view(chunks@) == spec_world_prefix(target, n, chunk_y as int, 0),
            decreases world_size - chunk_y,
        {
            let mut chunk_x: i32 = 0;
            while chunk_x < world_size
                invariant
                    0 <= chunk_x <= world_size,
                    0 <= chunk_y < world_size,
                    target == spec_chunk_mess_world(seed, n),
                    n == world_size as int,
                    1 <= n <= 20,
                    rng.wf(),
                    rng.seed_bytes() == spec_seed_bytes(seed),
                    rng.drawn() == chunk_y as int * n + chunk_x as int,
                    chunks_view(chunks@) == spec_world_prefix(target, n, chunk_y as int,
                    chunk_x as int),
                decreases world_size - chunk_x,
            {
                proof {
                    assert(chunk_y as int * n + chunk_x as int <= 20 * 20) by (nonlinear_arith)
                        requires
                            0 <= chunk_x <= n,
                            0 <= chunk_y < n,
                            1 <= n <= 20,
                    ;
                }
                let current_chunk_tile = random_tile(&mut rng);
                let chunk = uniform_chunk(current_chunk_tile);
                insert_chunk(&mut chunks, chunk_x, chunk_y, chunk);
                proof {
                    assert(chunks_view(chunks@) =~= spec_world_prefix(target, n, chunk_y as int,
                    chunk_x as int + 1));
                }
                chunk_x = chunk_x + 1;
            }
            proof {
                assert(chunk_y as int * n + n == (chunk_y as int + 1) * n) by (nonlinear_arith);
                assert(spec_world_prefix(target, n, chunk_y as int, n) =~= spec_world_prefix(
                    target,
                    n,
                    chunk_y as int + 1,
                    0,
                ));
            }
            chunk_y = chunk_y + 1;
        }
        proof {
            assert(spec_world_prefix(target, n, n, 0) =~= target);
        }
        chunks
    }

    /// Generates the `TileMess` mapping: one independent draw per tile, 256
    /// per chunk, consumed in chunk iteration order and row-major within
    /// each chunk. The result depends on the size and the seed alone.
    pub fn generate_tile_mess_world(size: WorldGenerationSize, seed: u32) -> (chunks: HashMap<
        u64,
        Chunk,
    >)
        ensures
            chunks_view(chunks@) == spec_tile_mess_world(seed, spec_world_size(size)),
    {
        let world_size = get_size_from_type(size);
        let ghost n = world_size as int;
        let ghost target = spec_tile_mess_world(seed, n);
        let mut chunks: HashMap<u64, Chunk> = HashMap::new();
        let seed_bytes = seed_to_byte_array(seed);
        let mut rng = TileRng::from_seed(seed_bytes);
        proof {
            assert(chunks_view(chunks@) =~= spec_world_prefix(target, n, 0, 0));
        }
        let mut chunk_y: i32 = 0;
        while chunk_y < world_size
            invariant
                0 <= chunk_y <= world_size,
                target == spec_tile_mess_world(seed, n),
                n == world_size as int,
                1 <= n <= 20,
                rng.wf(),
                rng.seed_bytes() == spec_seed_bytes(seed),
                rng.drawn() == chunk_y as int * n * 256,
                chunks_view(chunks@) == spec_world_prefix(target, n, chunk_y as int, 0),
            decreases world_size - chunk_y,
        {
            let mut chunk_x: i32 = 0;
            while chunk_x < world_size
                invariant
                    0 <= chunk_x <= world_size,
                    0 <= chunk_y < world_size,
                    target == spec_tile_mess_world(seed, n),
                    n == world_size as int,
                    1 <= n <= 20,
                    rng.wf(),
                    rng.seed_bytes() == spec_seed_bytes(seed),
                    rng.drawn() == (chunk_y as int * n + chunk_x as int) * 256,
                    chunks_view(chunks@) == spec_world_prefix(target, n, chunk_y as int,
                    chunk_x as int),
                decreases world_size - chunk_x,
            {
                proof {
                    assert((chunk_y as int * n + chunk_x as int) * 256 + 256 <= 20 * 20 * 256 && (
                    chunk_y as int * n + chunk_x as int) * 256 + 256 == (chunk_y as int * n
                        + chunk_x as int + 1) * 256) by (nonlinear_arith)
                        requires
                            0 <= chunk_x < n,
                            0 <= chunk_y < n,
                            1 <= n <= 20,
                    ;
                }
                let chunk = random_chunk(&mut rng);
                insert_chunk(&mut chunks, chunk_x, chunk_y, chunk);
                proof {
                    assert(chunks_view(chunks@) =~= spec_world_prefix(target, n, chunk_y as int,
                    chunk_x as int + 1));
                }
                chunk_x = chunk_x + 1;
            }
            proof {
                assert((chunk_y as int * n + n) * 256 == (chunk_y as int + 1) * n * 256)
                    by (nonlinear_arith);
                assert(spec_world_prefix(target, n, chunk_y as int, n) =~= spec_world_prefix(
                    target,
                    n,
                    chunk_y as int + 1,
                    0,
                ));
            }
            chunk_y = chunk_y + 1;
        }
        proof {
            assert(spec_world_prefix(target, n, n, 0) =~= target);
        }
        chunks
    }

    /// Generates the `PerlinTerrain` mapping: every tile classifies its
    /// height sample from the noise grid keyed by the seed. An island size
    /// of zero would divide the sampling domain by zero, so it is refused.
    /// On success the result depends on the size, the island size and the
    /// seed alone.
    pub fn generate_perlin_noise_world(
        size: WorldGenerationSize,
        island_size: u32,
        seed: u32,
    ) -> (result: Result<HashMap<u64, Chunk>, WorldGenError>)
        ensures
            match result {
                Ok(chunks) => island_size != 0 && chunks_view(chunks@) == spec_perlin_world(
                    seed,
                    spec_world_size(size),
                    island_size as int,
                ),
                Err(e) => island_size == 0 && e == WorldGenError::InvalidIslandSize,
            },
    {
        if island_size == 0 {
            return Err(WorldGenError::InvalidIslandSize);
        }
        let world_size = get_size_from_type(size);
        let ghost n = world_size as int;
        let ghost target = spec_perlin_world(seed, n, island_size as int);
        let plane = plane_for_world(seed, world_size, island_size);
        let mut chunks: HashMap<u64, Chunk> = HashMap::new();
        proof {
            assert(chunks_view(chunks@) =~= spec_world_prefix(target, n, 0, 0));
        }
        let mut chunk_y: i32 = 0;
        while chunk_y < world_size
            invariant
                0 <= chunk_y <= world_size,
                target == spec_perlin_world(seed, n, island_size as int),
                n == world_size as int,
                1 <= n <= 20,
                plane_side(plane) == 16 * n,
                plane_bits(plane) == fbm_bits(spec_noise_seed(seed), (16 * n) as nat, n, island_size as int),
                plane_bits(plane).len() == plane_side(plane) * plane_side(plane),
                chunks_view(chunks@) == spec_world_prefix(target, n, chunk_y as int, 0),
            decreases world_size - chunk_y,
        {
            let mut chunk_x: i32 = 0;
            while chunk_x < world_size
                invariant
                    0 <= chunk_x <= world_size,
                    0 <= chunk_y < world_size,
                    target == spec_perlin_world(seed, n, island_size as int),
                    n == world_size as int,
                    1 <= n <= 20,
                    plane_side(plane) == 16 * n,
                    plane_bits(plane) == fbm_bits(spec_noise_seed(seed), (16 * n) as nat, n, island_size as int),
                    plane_bits(plane).len() == plane_side(plane) * plane_side(plane),
                    chunks_view(chunks@) == spec_world_prefix(target, n, chunk_y as int,
                    chunk_x as int),
                decreases world_size - chunk_x,
            {
                let chunk = perlin_chunk(&plane, chunk_x as usize, chunk_y as usize);
                insert_chunk(&mut chunks, chunk_x, chunk_y, chunk);
                proof {
                    assert(chunks_view(chunks@) =~= spec_world_prefix(target, n, chunk_y as int,
                    chunk_x as int + 1));
                }
                chunk_x = chunk_x + 1;
            }
            proof {
                assert(spec_world_prefix(target, n, chunk_y as int, n) =~= spec_world_prefix(
                    target,
                    n,
                    chunk_y as int + 1,
                    0,
                ));
            }
            chunk_y = chunk_y + 1;
        }
        proof {
            assert(spec_world_prefix(target, n, n, 0) =~= target);
        }
        Ok(chunks)
    }

    /// Populates a world with tiles: dispatches to the selected strategy
    /// and installs its complete mapping in one step. Fails exactly when
    /// the noise strategy is selected with an island size of zero. Given
    /// the same strategy, size, island size and seed, the generated world
    /// is the same on every run.
    pub fn generate_world(
        self,
        generation_type: WorldGenerationType,
        size: WorldGenerationSize,
        island_size: u32,
        seed: u32,
    ) -> (result: Result<World, WorldGenError>)
        ensures
            match result {
                Ok(w) => w@ == spec_generate(
                    generation_type,
                    spec_world_size(size),
                    island_size as int,
                    seed,
                ) && w.wf() && !(generation_type == WorldGenerationType::PerlinTerrain
                    && island_size == 0),
                Err(e) => generation_type == WorldGenerationType::PerlinTerrain && island_size == 0
                    && e == WorldGenError::InvalidIslandSize,
            },
    {
        let chunks = match generation_type {
            WorldGenerationType::WaterWorld => Self::generate_water_world(size, seed),
            WorldGenerationType::ChunkMess => Self::generate_chunk_mess_world(size, seed),
            WorldGenerationType::TileMess => Self::generate_tile_mess_world(size, seed),
            WorldGenerationType::PerlinTerrain => {
                match Self::generate_perlin_noise_world(size, island_size, seed) {
                    Ok(chunks) => chunks,
                    Err(e) => {
                        return Err(e);
                    },
                }
            },
        };
        proof {
            lemma_generate_wf(
                generation_type,
                spec_world_size(size),
                island_size as int,
                seed,
            );
        }
        let mut world = self;
        world.set_chunks(chunks);
        Ok(world)
    }
}

/// Every generated mapping is well-formed: whatever the strategy, each
/// chunk of the extent holds exactly 256 tiles.
pub proof fn lemma_generate_wf(
    generation_type: WorldGenerationType,
    n: int,
    island: int,
    seed: u32,
)
    ensures
        wf_chunks(spec_generate(generation_type, n, island, seed)),
{
}

/// Generation is deterministic: each strategy's contract pins its result to
/// `spec_generate`, a function of the strategy, extent, island size and
/// seed alone, so any two worlds generated from equal inputs are equal,
/// chunk for chunk and tile for tile.
pub proof fn lemma_generation_deterministic(
    w1: Map<(int, int), Seq<Tile>>,
    w2: Map<(int, int), Seq<Tile>>,
    generation_type: WorldGenerationType,
    n: int,
    island: int,
    seed: u32,
)
    requires
        w1 == spec_generate(generation_type, n, island, seed),
        w2 == spec_generate(generation_type, n, island, seed),
    ensures
        w1 == w2,
        forall|gx: int, gy: int| spec_get_tile(w1, gx, gy) == spec_get_tile(w2, gx, gy),
{
}

/// Every tile of a `WaterWorld` world that `get_tile` resolves within the
/// generated extent is `Water`.
pub proof fn lemma_water_world_all_water(n: int, gx: int, gy: int)
    requires
        0 <= gx < 16 * n,
        0 <= gy < 16 * n,
    ensures
        spec_get_tile(spec_water_world(n), gx, gy) == Some(Tile::Water),
{
    lemma_extent_chunk_coord(n, gx);
    lemma_extent_chunk_coord(n, gy);
    crate::coords::lemma_local_coord_in_range(gx);
    crate::coords::lemma_local_coord_in_range(gy);
}

/// A global coordinate within the extent resolves to a chunk coordinate
/// within the extent.
pub proof fn lemma_extent_chunk_coord(n: int, g: int)
    requires
        0 <= g < 16 * n,
    ensures
        0 <= spec_chunk_coord(g) < n,
{
    vstd::arithmetic::div_mod::lemma_fundamental_div_mod(g, 16);
    vstd::arithmetic::div_mod::lemma_mod_bound(g, 16);
}

/// In a `ChunkMess` world, every tile within a single chunk is identical
/// to every other tile of that chunk.
pub proof fn lemma_chunk_mess_uniform_within_chunk(
    seed: u32,
    n: int,
    p: (int, int),
    i: int,
    j: int,
)
    requires
        in_extent(p, n),
        0 <= i < 256,
        0 <= j < 256,
    ensures
        spec_chunk_mess_world(seed, n)[p][i] == spec_chunk_mess_world(seed, n)[p][j],
{
}

/// A position outside the generated extent resolves to no tile, whatever
/// strategy generated the world.
pub proof fn lemma_outside_extent_absent(
    generation_type: WorldGenerationType,
    n: int,
    island: int,
    seed: u32,
    gx: int,
    gy: int,
)
    requires
        !(0 <= gx < 16 * n && 0 <= gy < 16 * n),
        n >= 0,
    ensures
        spec_get_tile(spec_generate(generation_type, n, island, seed), gx, gy).is_none(),
{
    if 0 <= gx {
        lemma_chunk_coord_lower(gx);
    }
    if 0 <= gy {
        lemma_chunk_coord_lower(gy);
    }
    if gx < 0 {
        lemma_chunk_coord_negative(gx);
    }
    if gy < 0 {
        lemma_chunk_coord_negative(gy);
    }
    if gx >= 16 * n {
        lemma_chunk_coord_high(n, gx);
    }
    if gy >= 16 * n {
        lemma_chunk_coord_high(n, gy);
    }
}

/// A nonnegative global coordinate has a nonnegative chunk coordinate.
proof fn lemma_chunk_coord_lower(g: int)
    requires
        g >= 0,
    ensures
        spec_chunk_coord(g) >= 0,
{
    vstd::arithmetic::div_mod::lemma_fundamental_div_mod(g, 16);
    vstd::arithmetic::div_mod::lemma_mod_bound(g, 16);
}

/// A negative global coordinate has a negative chunk coordinate.
proof fn lemma_chunk_coord_negative(g: int)
    requires
        g < 0,
    ensures
        spec_chunk_coord(g) < 0,
{
    vstd::arithmetic::div_mod::lemma_fundamental_div_mod(g, 16);
    vstd::arithmetic::div_mod::lemma_mod_bound(g, 16);
}

/// A global coordinate at or beyond the extent's edge resolves to a chunk
/// coordinate at or beyond the extent.
proof fn lemma_chunk_coord_high(n: int, g: int)
    requires
        g >= 16 * n,
    ensures
        spec_chunk_coord(g) >= n,
{
    vstd::arithmetic::div_mod::lemma_fundamental_div_mod(g, 16);
    vstd::arithmetic::div_mod::lemma_mod_bound(g, 16);
}

} // verus!
