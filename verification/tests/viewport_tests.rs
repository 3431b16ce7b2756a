use tile_world::viewport::visible_tiles;
use tile_world::GlobalTilePos;

#[test]
fn origin_camera_covers_a_sixteen_by_sixteen_area() {
    // A camera centered at the origin viewing a 128 x 128 pixel screen with
    // 8-pixel tiles: world-space corners (-64, 64) and (64, -64).
    let tiles = visible_tiles(-64, 64, 64, -64, 8);
    // Columns -8..=10 and rows -8..=10, margin included: 19 x 19 positions.
    assert_eq!(tiles.len(), 19 * 19);
    assert_eq!(tiles[0], GlobalTilePos(-8, -8));
    assert_eq!(tiles[tiles.len() - 1], GlobalTilePos(10, 10));
    // It covers at least the 16 x 16 tile area centered on the origin.
    for y in -8..8 {
        for x in -8..8 {
            assert!(tiles.contains(&GlobalTilePos(x, y)));
        }
    }
}

#[test]
fn enumeration_is_row_major() {
    let tiles = visible_tiles(0, 0, 8, -8, 8);
    // Columns 0..=3 and rows 0..=3.
    assert_eq!(tiles.len(), 16);
    let mut expected = Vec::new();
    for y in 0..4 {
        for x in 0..4 {
            expected.push(GlobalTilePos(x, y));
        }
    }
    assert_eq!(tiles, expected);
}

#[test]
fn corners_truncate_toward_zero() {
    // -15 / 8 truncates to -1, 15 / 8 truncates to 1.
    let tiles = visible_tiles(-15, 15, 15, -15, 8);
    assert_eq!(tiles[0], GlobalTilePos(-1, -1));
    assert_eq!(tiles[tiles.len() - 1], GlobalTilePos(3, 3));
    assert_eq!(tiles.len(), 5 * 5);
}

#[test]
fn single_pixel_view_still_has_the_margin() {
    let tiles = visible_tiles(0, 0, 0, 0, 8);
    // One column becomes 0..=2 on both axes with the two-tile margin.
    assert_eq!(tiles.len(), 9);
    assert_eq!(tiles[0], GlobalTilePos(0, 0));
    assert_eq!(tiles[8], GlobalTilePos(2, 2));
}

#[test]
fn inverted_rectangle_is_empty() {
    // A bottom-right corner far left of the top-left corner inverts the
    // column range even after the margin.
    let tiles = visible_tiles(100, 0, 0, 0, 1);
    assert!(tiles.is_empty());
}
