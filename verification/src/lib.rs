//! A chunk-based 2D tile world.
//!
//! The world stores an unbounded tile grid as fixed 16 x 16 chunks, generates
//! tile content deterministically from a 32-bit seed using one of four
//! strategies (uniform water, one random tile kind per chunk, one random draw
//! per tile, or multi-octave noise terrain classification), and answers
//! coordinate-to-tile queries for rendering and editing.

pub mod chunk;
pub mod coords;
pub mod generation;
pub mod noise_field;
pub mod rng;
pub mod tiles;
pub mod viewport;
pub mod world;

pub use chunk::Chunk;
pub use coords::ChunkPos;
pub use coords::GlobalTilePos;
pub use rng::TileRng;
pub use tiles::Tile;
pub use tiles::WorldGenError;
pub use tiles::WorldGenerationSize;
pub use tiles::WorldGenerationType;
pub use world::World;
