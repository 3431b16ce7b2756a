use tile_world::coords::to_chunk_and_local;
use tile_world::coords::to_global;
use tile_world::coords::ChunkPos;
use tile_world::coords::GlobalTilePos;

#[test]
fn negative_one_maps_to_chunk_negative_one_local_fifteen() {
    let (chunk, local) = to_chunk_and_local(GlobalTilePos(-1, -1));
    assert_eq!(chunk, ChunkPos { x: -1, y: -1 });
    assert_eq!(local, (15, 15));
}

#[test]
fn negative_coordinates_use_floor_division() {
    let (chunk, local) = to_chunk_and_local(GlobalTilePos(-16, -17));
    assert_eq!(chunk, ChunkPos { x: -1, y: -2 });
    assert_eq!(local, (0, 15));

    let (chunk, local) = to_chunk_and_local(GlobalTilePos(-31, -33));
    assert_eq!(chunk, ChunkPos { x: -2, y: -3 });
    assert_eq!(local, (1, 15));
}

#[test]
fn positive_coordinates_split_as_expected() {
    let (chunk, local) = to_chunk_and_local(GlobalTilePos(0, 0));
    assert_eq!(chunk, ChunkPos { x: 0, y: 0 });
    assert_eq!(local, (0, 0));

    let (chunk, local) = to_chunk_and_local(GlobalTilePos(17, 35));
    assert_eq!(chunk, ChunkPos { x: 1, y: 2 });
    assert_eq!(local, (1, 3));
}

#[test]
fn local_coordinates_always_within_chunk() {
    let samples = [-100, -33, -17, -16, -15, -1, 0, 1, 15, 16, 17, 100, 12345, -12345];
    for &gx in samples.iter() {
        for &gy in samples.iter() {
            let (_, (lx, ly)) = to_chunk_and_local(GlobalTilePos(gx, gy));
            assert!(lx < 16);
            assert!(ly < 16);
        }
    }
}

#[test]
fn split_then_recombine_round_trips() {
    let samples = [
        -2_000_000, -257, -256, -255, -17, -16, -15, -2, -1, 0, 1, 2, 15, 16, 17, 255, 256, 257,
        2_000_000,
    ];
    for &gx in samples.iter() {
        for &gy in samples.iter() {
            let g = GlobalTilePos(gx, gy);
            let (chunk, local) = to_chunk_and_local(g);
            assert_eq!(to_global(chunk, local), g);
        }
    }
}
