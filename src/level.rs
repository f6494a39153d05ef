use vstd::prelude::*;
use crate::movement::MICRO;

verus! {

/// Width and height of the player's collider, in map units.
pub const PLAYER_SIZE: i32 = 16;

/// Index of the player's sprite in the tile set.
pub const PLAYER_SPRITE: u32 = 40;

/// One cell of the static collision grid.
#[derive(Clone, Copy, Debug, PartialEq, Eq, Structural)]
pub enum Cell {
    Solid,
    Empty,
}

/// The cell that a map position becomes: solid exactly where a tile stands.
pub open spec fn cell_of(present: bool) -> Cell {
    if present {
        Cell::Solid
    } else {
        Cell::Empty
    }
}

/// Turns the solid layer's positions, in the map's order, into collision
/// cells: one cell per position, solid where a tile stands.
pub fn static_cells(tiles: &Vec<bool>) -> (r: Vec<Cell>)
    ensures
        r@.len() == tiles@.len(),
        forall|i: int| 0 <= i < tiles@.len() ==> r@[i] == cell_of(#[trigger] tiles@[i]),
{
    let mut r: Vec<Cell> = Vec::new();
    let mut i: usize = 0;
    while i < tiles.len()
        invariant
            i <= tiles@.len(),
            r@.len() == i,
            forall|j: int| 0 <= j < i ==> r@[j] == cell_of(#[trigger] tiles@[j]),
        decreases tiles@.len() - i,
    {
        r.push(if tiles[i] { Cell::Solid } else { Cell::Empty });
        i = i + 1;
    }
    r
}

/// Collision tag given to the static layer's cells.
pub const SOLID_TAG: u8 = 1;

/// The static collision layer handed to the physics world: its cells in
/// row-major order, the size of a tile in map units, the number of cells in
/// a row (the map's width in tiles), and the layer's collision tag.
#[derive(Debug)]
pub struct StaticLayer {
    pub cells: Vec<Cell>,
    pub tile_width: u32,
    pub tile_height: u32,
    pub width: u32,
    pub tag: u8,
}

/// Builds the static collision layer from the solid layer's positions.
pub fn static_layer(tiles: &Vec<bool>, tile_width: u32, tile_height: u32, map_width: u32) -> (r:
    StaticLayer)
    ensures
        r.cells@.len() == tiles@.len(),
        forall|i: int| 0 <= i < tiles@.len() ==> r.cells@[i] == cell_of(#[trigger] tiles@[i]),
        r.tile_width == tile_width,
        r.tile_height == tile_height,
        r.width == map_width,
        r.tag == SOLID_TAG,
{
    let cells = static_cells(tiles);
    StaticLayer { cells, tile_width, tile_height, width: map_width, tag: SOLID_TAG }
}

/// The map's extent in map units: its size in tiles times the tile size.
pub fn map_size(width: u32, height: u32, tile_width: u32, tile_height: u32) -> (r: (u64, u64))
    ensures
        r.0 == width * tile_width,
        r.1 == height * tile_height,
{
    assert(width * tile_width <= 0xffff_ffff * 0xffff_ffff) by (nonlinear_arith)
        requires
            width <= 0xffff_ffff,
            tile_width <= 0xffff_ffff,
    ;
    assert(height * tile_height <= 0xffff_ffff * 0xffff_ffff) by (nonlinear_arith)
        requires
            height <= 0xffff_ffff,
            tile_height <= 0xffff_ffff,
    ;
    ((width as u64) * (tile_width as u64), (height as u64) * (tile_height as u64))
}

/// Where the player starts, in micro-units: the center of a map of the
/// given extent in map units.
pub fn spawn_point(width: u64, height: u64) -> (r: (i128, i128))
    ensures
        2 * r.0 == width * MICRO,
        2 * r.1 == height * MICRO,
{
    let w: i128 = width as i128;
    let h: i128 = height as i128;
    assert(0 <= w * 500_000 <= 0xffff_ffff_ffff_ffff * 500_000) by (nonlinear_arith)
        requires
            0 <= w <= 0xffff_ffff_ffff_ffff,
    ;
    assert(0 <= h * 500_000 <= 0xffff_ffff_ffff_ffff * 500_000) by (nonlinear_arith)
        requires
            0 <= h <= 0xffff_ffff_ffff_ffff,
    ;
    (w * 500_000, h * 500_000)
}

} // verus!
