use thatgame::level::{map_size, spawn_point, static_cells, static_layer, Cell, PLAYER_SIZE};

#[test]
fn cells_follow_tiles() {
    let cells = static_cells(&vec![true, false, false, true]);
    assert_eq!(cells, vec![Cell::Solid, Cell::Empty, Cell::Empty, Cell::Solid]);
    assert!(static_cells(&vec![]).is_empty());
}

#[test]
fn layer_keeps_sizes_and_tag() {
    let l = static_layer(&vec![false, true, true], 16, 8, 3);
    assert_eq!(l.cells, vec![Cell::Empty, Cell::Solid, Cell::Solid]);
    assert_eq!((l.tile_width, l.tile_height, l.width, l.tag), (16, 8, 3, 1));
}

#[test]
fn map_extent_and_spawn() {
    assert_eq!(map_size(40, 30, 16, 16), (640, 480));
    assert_eq!(map_size(u32::MAX, 1, u32::MAX, 0), ((u32::MAX as u64) * (u32::MAX as u64), 0));
    assert_eq!(spawn_point(640, 480), (320_000_000, 240_000_000));
    assert_eq!(spawn_point(15, 0), (7_500_000, 0));
    assert_eq!(PLAYER_SIZE, 16);
}
