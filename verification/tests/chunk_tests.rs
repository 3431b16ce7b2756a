use tile_world::Chunk;
use tile_world::GlobalTilePos;
use tile_world::Tile;
use tile_world::World;
use tile_world::WorldGenerationSize;
use tile_world::WorldGenerationType;

#[test]
fn chunk_addressing_is_row_major() {
    let mut tiles = vec![Tile::Water; 256];
    tiles[3 * 16 + 2] = Tile::Stone; // local (2, 3)
    let chunk = Chunk::from_tiles(tiles);
    assert_eq!(chunk.get(2, 3), Some(Tile::Stone));
    assert_eq!(chunk.get(3, 2), Some(Tile::Water));
    assert_eq!(chunk.get(0, 0), Some(Tile::Water));
    assert_eq!(chunk.get(15, 15), Some(Tile::Water));
}

#[test]
fn chunk_out_of_range_locals_are_absent() {
    let chunk = Chunk::from_tiles(vec![Tile::Grass; 256]);
    assert_eq!(chunk.get(16, 0), None);
    assert_eq!(chunk.get(0, 16), None);
    assert_eq!(chunk.get(255, 255), None);
}

#[test]
fn chunk_set_replaces_one_tile() {
    let mut chunk = Chunk::from_tiles(vec![Tile::Sand; 256]);
    assert!(chunk.set(7, 11, Tile::Snow));
    assert_eq!(chunk.get(7, 11), Some(Tile::Snow));
    assert_eq!(chunk.get(11, 7), Some(Tile::Sand));
    assert_eq!(chunk.get(6, 11), Some(Tile::Sand));
}

#[test]
fn chunk_set_out_of_range_is_absence() {
    let mut chunk = Chunk::from_tiles(vec![Tile::Sand; 256]);
    assert!(!chunk.set(16, 1, Tile::Snow));
    assert!(!chunk.set(1, 16, Tile::Snow));
    for ly in 0..16 {
        for lx in 0..16 {
            assert_eq!(chunk.get(lx, ly), Some(Tile::Sand));
        }
    }
}

#[test]
fn set_chunks_replaces_the_whole_mapping() {
    // Start from one world, then install another strategy's output; the
    // store must answer exactly as a world generated that way directly.
    let mut world = World::new()
        .generate_world(WorldGenerationType::WaterWorld, WorldGenerationSize::Tiny, 1, 0)
        .unwrap();
    let chunks = World::generate_chunk_mess_world(WorldGenerationSize::Small, 3);
    world.set_chunks(chunks);

    let direct = World::new()
        .generate_world(WorldGenerationType::ChunkMess, WorldGenerationSize::Small, 1, 3)
        .unwrap();
    for gy in 0..64 {
        for gx in 0..64 {
            let pos = GlobalTilePos(gx, gy);
            assert_eq!(world.get_tile(&pos), direct.get_tile(&pos));
        }
    }
    assert!(world.get_tile(&GlobalTilePos(32, 32)).is_some());
}
