use tile_world::tiles::get_size_from_type;
use tile_world::WorldGenerationSize;

#[test]
fn world_sizes_in_chunks() {
    assert_eq!(get_size_from_type(WorldGenerationSize::Tiny), 1);
    assert_eq!(get_size_from_type(WorldGenerationSize::Small), 4);
    assert_eq!(get_size_from_type(WorldGenerationSize::Medium), 8);
    assert_eq!(get_size_from_type(WorldGenerationSize::Large), 20);
}
