//! One entry of a collision query result.

use vstd::prelude::*;

use crate::tile::TileType;

verus! {

/// A tile touched by a collision query: its grid position and its type.
#[derive(Clone, Copy, Debug)]
pub struct CollisionTile {
    pub row: i64,
    pub col: i64,
    pub tile_type: TileType,
}

impl CollisionTile {
    pub fn new(row: i64, col: i64, tile_type: TileType) -> (t: CollisionTile)
        ensures
            t.row == row,
            t.col == col,
            t.tile_type == tile_type,
    {
        CollisionTile { row, col, tile_type }
    }

    pub fn row(&self) -> (r: i64)
        ensures
            r == self.row,
    {
        self.row
    }

    pub fn col(&self) -> (c: i64)
        ensures
            c == self.col,
    {
        self.col
    }

    pub fn tile_type(&self) -> (tt: TileType)
        ensures
            tt == self.tile_type,
    {
        self.tile_type
    }
}

} // verus!
