use tile_world::rng::random_tile;
use tile_world::rng::random_tile_water_grass;
use tile_world::rng::seed_to_byte_array;
use tile_world::GlobalTilePos;
use tile_world::Tile;
use tile_world::TileRng;
use tile_world::World;
use tile_world::WorldGenerationSize;
use tile_world::WorldGenerationType;

fn generate(
    kind: WorldGenerationType,
    size: WorldGenerationSize,
    island_size: u32,
    seed: u32,
) -> World {
    World::new().generate_world(kind, size, island_size, seed).unwrap()
}

fn extent_tiles(world: &World, tiles_per_axis: i32) -> Vec<Option<Tile>> {
    let mut tiles = Vec::new();
    for gy in 0..tiles_per_axis {
        for gx in 0..tiles_per_axis {
            tiles.push(world.get_tile(&GlobalTilePos(gx, gy)));
        }
    }
    tiles
}

#[test]
fn seed_expands_to_big_endian_low_bytes() {
    let bytes = seed_to_byte_array(0x0102_0304);
    assert_eq!(bytes[0], 1);
    assert_eq!(bytes[1], 2);
    assert_eq!(bytes[2], 3);
    assert_eq!(bytes[3], 4);
    for i in 4..32 {
        assert_eq!(bytes[i], 0);
    }
    assert_eq!(seed_to_byte_array(0), [0u8; 32]);
}

#[test]
fn same_seed_gives_same_draws() {
    let mut a = TileRng::from_seed(seed_to_byte_array(7));
    let mut b = TileRng::from_seed(seed_to_byte_array(7));
    for _ in 0..100 {
        assert_eq!(random_tile(&mut a), random_tile(&mut b));
    }
}

#[test]
fn different_seeds_give_different_draws() {
    let mut a = TileRng::from_seed(seed_to_byte_array(0));
    let mut b = TileRng::from_seed(seed_to_byte_array(1));
    let mut any_difference = false;
    for _ in 0..100 {
        if random_tile(&mut a) != random_tile(&mut b) {
            any_difference = true;
        }
    }
    assert!(any_difference);
}

#[test]
fn draws_stay_within_the_four_random_kinds() {
    let mut rng = TileRng::from_seed(seed_to_byte_array(99));
    for _ in 0..200 {
        let tile = random_tile(&mut rng);
        assert!(matches!(
            tile,
            Tile::Water | Tile::Grass | Tile::Stone | Tile::Sand
        ));
    }
}

#[test]
fn chunk_mess_is_deterministic() {
    let kind = WorldGenerationType::ChunkMess;
    let a = generate(kind, WorldGenerationSize::Small, 1, 123);
    let b = generate(kind, WorldGenerationSize::Small, 1, 123);
    assert_eq!(extent_tiles(&a, 64), extent_tiles(&b, 64));
}

#[test]
fn chunk_mess_tiles_within_a_chunk_are_identical() {
    let world = generate(WorldGenerationType::ChunkMess, WorldGenerationSize::Small, 1, 5);
    for chunk_y in 0..4 {
        for chunk_x in 0..4 {
            let first = world.get_tile(&GlobalTilePos(chunk_x * 16, chunk_y * 16));
            assert!(first.is_some());
            for ly in 0..16 {
                for lx in 0..16 {
                    let pos = GlobalTilePos(chunk_x * 16 + lx, chunk_y * 16 + ly);
                    assert_eq!(world.get_tile(&pos), first);
                }
            }
        }
    }
}

#[test]
fn chunk_mess_depends_on_the_seed() {
    let kind = WorldGenerationType::ChunkMess;
    let a = generate(kind, WorldGenerationSize::Small, 1, 0);
    let b = generate(kind, WorldGenerationSize::Small, 1, 1);
    assert_ne!(extent_tiles(&a, 64), extent_tiles(&b, 64));
}

#[test]
fn tile_mess_is_deterministic() {
    let kind = WorldGenerationType::TileMess;
    let a = generate(kind, WorldGenerationSize::Medium, 1, 42);
    let b = generate(kind, WorldGenerationSize::Medium, 1, 42);
    assert_eq!(extent_tiles(&a, 128), extent_tiles(&b, 128));
}

#[test]
fn tile_mess_depends_on_the_seed() {
    let kind = WorldGenerationType::TileMess;
    let a = generate(kind, WorldGenerationSize::Small, 1, 42);
    let b = generate(kind, WorldGenerationSize::Small, 1, 43);
    assert_ne!(extent_tiles(&a, 64), extent_tiles(&b, 64));
}

#[test]
fn tile_mess_covers_exactly_the_extent() {
    let world = generate(WorldGenerationType::TileMess, WorldGenerationSize::Tiny, 1, 9);
    for gy in 0..16 {
        for gx in 0..16 {
            assert!(world.get_tile(&GlobalTilePos(gx, gy)).is_some());
        }
    }
    assert_eq!(world.get_tile(&GlobalTilePos(16, 0)), None);
    assert_eq!(world.get_tile(&GlobalTilePos(0, 16)), None);
    assert_eq!(world.get_tile(&GlobalTilePos(-1, 0)), None);
}

#[test]
fn perlin_terrain_is_deterministic() {
    let kind = WorldGenerationType::PerlinTerrain;
    let a = generate(kind, WorldGenerationSize::Small, 3, 25);
    let b = generate(kind, WorldGenerationSize::Small, 3, 25);
    assert_eq!(extent_tiles(&a, 64), extent_tiles(&b, 64));
}

#[test]
fn perlin_terrain_depends_on_the_seed() {
    let kind = WorldGenerationType::PerlinTerrain;
    let a = generate(kind, WorldGenerationSize::Small, 3, 0);
    let b = generate(kind, WorldGenerationSize::Small, 3, 77);
    assert_ne!(extent_tiles(&a, 64), extent_tiles(&b, 64));
}

#[test]
fn perlin_terrain_depends_on_the_island_size() {
    let kind = WorldGenerationType::PerlinTerrain;
    let a = generate(kind, WorldGenerationSize::Small, 1, 25);
    let b = generate(kind, WorldGenerationSize::Small, 20, 25);
    assert_ne!(extent_tiles(&a, 64), extent_tiles(&b, 64));
}

#[test]
fn perlin_terrain_fills_the_whole_extent() {
    let world = generate(WorldGenerationType::PerlinTerrain, WorldGenerationSize::Tiny, 2, 11);
    for gy in 0..16 {
        for gx in 0..16 {
            assert!(world.get_tile(&GlobalTilePos(gx, gy)).is_some());
        }
    }
    assert_eq!(world.get_tile(&GlobalTilePos(1000, 1000)), None);
}

#[test]
fn perlin_terrain_accepts_the_highest_seeds() {
    // The noise source derives one seed per octave by adding the octave
    // index, so the library caps the seed it hands over: the five highest
    // seeds share the capped seed's height field, and none of them panics.
    let kind = WorldGenerationType::PerlinTerrain;
    let top = generate(kind, WorldGenerationSize::Tiny, 2, u32::MAX);
    let capped = generate(kind, WorldGenerationSize::Tiny, 2, u32::MAX - 5);
    assert_eq!(extent_tiles(&top, 16), extent_tiles(&capped, 16));

    let below_cap = generate(kind, WorldGenerationSize::Tiny, 2, u32::MAX - 6);
    assert_ne!(extent_tiles(&below_cap, 16), extent_tiles(&capped, 16));
}

#[test]
fn water_grass_draws_stay_within_the_two_kinds() {
    let mut rng = TileRng::from_seed(seed_to_byte_array(4));
    let mut water = 0;
    let mut grass = 0;
    for _ in 0..200 {
        match random_tile_water_grass(&mut rng) {
            Tile::Water => water += 1,
            Tile::Grass => grass += 1,
            other => panic!("unexpected kind {:?}", other),
        }
    }
    assert!(water > 0);
    assert!(grass > 0);
}
