//! The closed set of terrain kinds and the generation configuration enums.

use vstd::prelude::*;

verus! {

/// A terrain kind. Tile values are plain data: they are copied freely and
/// never shared by reference.
#[derive(Clone, Copy, Debug, PartialEq, Eq, Structural)]
pub enum Tile {
    Grass,
    Stone,
    Sand,
    Water,
    ShallowWater,
    DeepWater,
    DarkStone,
    Snow,
}

/// Which generation strategy fills the world.
#[derive(Clone, Copy, Debug, PartialEq, Eq, Structural)]
pub enum WorldGenerationType {
    /// Every tile of every chunk is `Water`.
    WaterWorld,
    /// One uniformly random tile kind per chunk; all 256 tiles of the chunk
    /// share it.
    ChunkMess,
    /// One independent random draw per tile.
    TileMess,
    /// Height classification of multi-octave noise.
    PerlinTerrain,
}

/// The square world extent, measured in chunks per axis.
#[derive(Clone, Copy, Debug, PartialEq, Eq, Structural)]
pub enum WorldGenerationSize {
    Tiny,
    Small,
    Medium,
    Large,
}

/// Rejected generation configuration.
#[derive(Clone, Copy, Debug, PartialEq, Eq, Structural)]
pub enum WorldGenError {
    /// The noise strategy divides the sampling domain by the island size, so
    /// an island size of zero is refused instead of producing corrupt
    /// terrain.
    InvalidIslandSize,
}

/// The world side length, in chunks, that each size selects.
pub open spec fn spec_world_size(size: WorldGenerationSize) -> int {
    match size {
        WorldGenerationSize::Tiny => 1,
        WorldGenerationSize::Small => 4,
        WorldGenerationSize::Medium => 8,
        WorldGenerationSize::Large => 20,
    }
}

/// Lookup for the world side length, in chunks, used when generating.
pub fn get_size_from_type(size: WorldGenerationSize) -> (n: i32)
    ensures
        n == spec_world_size(size),
        1 <= n <= 20,
{
    match size {
        WorldGenerationSize::Tiny => 1,
        WorldGenerationSize::Small => 4,
        WorldGenerationSize::Medium => 8,
        WorldGenerationSize::Large => 20,
    }
}

} // verus!
