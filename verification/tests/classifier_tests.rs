use tile_world::noise_field::classify_bits;
use tile_world::noise_field::order_key;
use tile_world::noise_field::DARK_STONE_KEY;
use tile_world::noise_field::SNOW_KEY;
use tile_world::Tile;

#[test]
fn order_key_matches_ieee_ordering() {
    let samples = [-3.5f64, -0.7, -0.3, -0.0, 0.0, 0.3, 0.7, 1.0, 2.4, 100.0];
    for pair in samples.windows(2) {
        let (a, b) = (pair[0], pair[1]);
        if a < b {
            assert!(order_key(a.to_bits()) <= order_key(b.to_bits()));
        }
    }
    // Both zero encodings share one key.
    assert_eq!(order_key((0.0f64).to_bits()), 0);
    assert_eq!(order_key((-0.0f64).to_bits()), 0);
    assert!(order_key((-0.5f64).to_bits()) < 0);
    assert_eq!(order_key((1.0f64).to_bits()), SNOW_KEY);
}

#[test]
fn bands_from_the_top_down() {
    // Samples are pre-scale heights; the height thresholds divided by the
    // height-scale factor (nineteen tenths) bound each band.
    assert_eq!(classify_bits((2.0f64).to_bits()), Tile::Snow);
    assert_eq!(classify_bits((1.0f64).to_bits()), Tile::Snow);
    assert_eq!(classify_bits((0.9f64).to_bits()), Tile::DarkStone);
    assert_eq!(classify_bits((0.7f64).to_bits()), Tile::Stone);
    assert_eq!(classify_bits((0.5f64).to_bits()), Tile::Grass);
    assert_eq!(classify_bits((0.3f64).to_bits()), Tile::Sand);
    assert_eq!(classify_bits((0.1f64).to_bits()), Tile::ShallowWater);
    assert_eq!(classify_bits((0.0f64).to_bits()), Tile::ShallowWater);
    assert_eq!(classify_bits((-0.0f64).to_bits()), Tile::ShallowWater);
    assert_eq!(classify_bits((-0.3f64).to_bits()), Tile::Water);
    assert_eq!(classify_bits((-0.7f64).to_bits()), Tile::DeepWater);
    assert_eq!(classify_bits((-100.0f64).to_bits()), Tile::DeepWater);
}

#[test]
fn band_lower_bounds_are_inclusive() {
    let dark_stone_bound = 1.5f64 / 1.9f64;
    assert_eq!(order_key(dark_stone_bound.to_bits()), DARK_STONE_KEY);
    assert_eq!(classify_bits(dark_stone_bound.to_bits()), Tile::DarkStone);

    let stone_bound = 1.2f64 / 1.9f64;
    assert_eq!(classify_bits(stone_bound.to_bits()), Tile::Stone);

    let grass_bound = 0.69f64 / 1.9f64;
    assert_eq!(classify_bits(grass_bound.to_bits()), Tile::Grass);

    let sand_bound = 0.4f64 / 1.9f64;
    assert_eq!(classify_bits(sand_bound.to_bits()), Tile::Sand);

    let shallow_bound = -0.1f64 / 1.9f64;
    assert_eq!(classify_bits(shallow_bound.to_bits()), Tile::ShallowWater);

    let water_bound = -1.15f64 / 1.9f64;
    assert_eq!(classify_bits(water_bound.to_bits()), Tile::Water);
}

#[test]
fn samples_above_the_highest_threshold_clamp_to_snow() {
    assert_eq!(classify_bits((2.5f64).to_bits()), Tile::Snow);
    assert_eq!(classify_bits((1.0e9f64).to_bits()), Tile::Snow);
}
