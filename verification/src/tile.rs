//! Tiles of the level grid.

use vstd::prelude::*;

verus! {

/// Classification of one grid cell: `Air` is passable, `Wall` is solid.
#[derive(Clone, Copy, Debug, PartialEq, Eq, Structural, Hash)]
pub enum TileType {
    Air,
    Wall,
}

/// One cell of the tile grid.  A tile that is drawn carries an index into the
/// grid's shared table of animation clips; many cells may reference the same
/// clip, which then animates them in lockstep without shared mutable state.
#[derive(Clone, Copy, Debug)]
pub struct Tile {
    pub tile_type: TileType,
    pub sprite: Option<usize>,
}

impl Tile {
    /// A blank, passable tile with nothing to draw.
    pub fn new() -> (t: Tile)
        ensures
            t.tile_type == TileType::Air,
            t.sprite is None,
    {
        Tile { tile_type: TileType::Air, sprite: None }
    }

    /// A tile of the given type drawn with the clip at `sprite` in the grid's
    /// clip table.
    pub fn from_sprite(sprite: usize, tile_type: TileType) -> (t: Tile)
        ensures
            t.tile_type == tile_type,
            t.sprite == Some(sprite),
    {
        Tile { tile_type, sprite: Some(sprite) }
    }

    pub fn sprite(&self) -> (s: Option<usize>)
        ensures
            s == self.sprite,
    {
        self.sprite
    }

    pub fn tile_type(&self) -> (tt: TileType)
        ensures
            tt == self.tile_type,
    {
        self.tile_type
    }
}

} // verus!
