//! Tests for the tile grid and its collision queries.

use platformer_core::collision::get_collision_info;
use platformer_core::collision_tile::CollisionTile;
use platformer_core::geometry::Rect;
use platformer_core::map::TileMap;
use platformer_core::sprite::AnimatedSprite;
use platformer_core::tile::{Tile, TileType};
use platformer_core::units::Millis;

fn open_map(rows: usize, cols: usize, walls: &[(usize, usize)]) -> TileMap {
    let mut tiles: Vec<Vec<Tile>> = Vec::new();
    for r in 0..rows {
        let mut row: Vec<Tile> = Vec::new();
        for c in 0..cols {
            if walls.contains(&(r, c)) {
                row.push(Tile::from_sprite(0, TileType::Wall));
            } else {
                row.push(Tile::new());
            }
        }
        tiles.push(row);
    }
    let mut sprites = Vec::new();
    sprites.push(AnimatedSprite::new(32, 0, 32, 32, 1, 1));
    TileMap::from_tiles(tiles, 32, sprites)
}

#[test]
fn colliding_tiles_row_major_enumeration() {
    // A rectangle spanning rows 0..1 and columns 0..2 yields the six cells
    // in row-major order, each tagged with its type.
    let map = open_map(4, 4, &[(0, 1), (1, 2)]);
    let rect = Rect::new(30, 30, 40, 10);
    let tiles = map.get_colliding_tiles(&rect);
    let expected = [
        (0, 0, TileType::Air),
        (0, 1, TileType::Wall),
        (0, 2, TileType::Air),
        (1, 0, TileType::Air),
        (1, 1, TileType::Air),
        (1, 2, TileType::Wall),
    ];
    assert_eq!(tiles.len(), expected.len());
    for (t, &(r, c, tt)) in tiles.iter().zip(expected.iter()) {
        assert_eq!(t.row(), r);
        assert_eq!(t.col(), c);
        assert_eq!(t.tile_type(), tt);
    }
}

#[test]
fn colliding_tiles_zero_area() {
    // A rectangle of zero area still reports the single cell it lies in.
    let map = open_map(4, 4, &[(1, 1)]);
    let tiles = map.get_colliding_tiles(&Rect::new(33, 40, 0, 0));
    assert_eq!(tiles.len(), 1);
    assert_eq!(tiles[0].row(), 1);
    assert_eq!(tiles[0].col(), 1);
    assert_eq!(tiles[0].tile_type(), TileType::Wall);
}

#[test]
fn colliding_tiles_boundary_exact() {
    // Queries are edge-inclusive: an edge lying exactly on a tile boundary
    // counts the tile beyond it as touched.
    let map = open_map(4, 4, &[]);
    let on_boundary = map.get_colliding_tiles(&Rect::new(0, 0, 64, 0));
    assert_eq!(on_boundary.len(), 3);
    assert_eq!(on_boundary[2].col(), 2);
    let before_boundary = map.get_colliding_tiles(&Rect::new(0, 0, 63, 0));
    assert_eq!(before_boundary.len(), 2);
}

#[test]
fn collision_info_row_major_tie_break() {
    // With several solid tiles in the query, the reported contact is the
    // first in row-major order — not the nearest.
    let map = open_map(4, 4, &[(0, 2), (1, 0)]);
    let info = get_collision_info(&map, &Rect::new(0, 0, 95, 63));
    assert!(info.collided);
    assert_eq!(info.row, 0);
    assert_eq!(info.col, 2);
}

#[test]
fn collision_info_miss() {
    let map = open_map(4, 4, &[(3, 3)]);
    let info = get_collision_info(&map, &Rect::new(0, 0, 64, 64));
    assert!(!info.collided);
    assert_eq!((info.row, info.col), (0, 0));
}

#[test]
fn tile_at_reads_the_grid() {
    let map = open_map(4, 4, &[(2, 3)]);
    assert_eq!(map.tile_at(2, 3), TileType::Wall);
    assert_eq!(map.tile_at(2, 2), TileType::Air);
}

#[test]
fn create_test_map_layout() {
    let map = TileMap::create_test_map();
    assert_eq!(map.tiles.len(), 15);
    assert_eq!(map.tiles[0].len(), 20);
    assert_eq!(map.tile_size, 32);
    // floor, side walls, staircase blocks
    for c in 0..20 {
        assert_eq!(map.tile_at(14, c), TileType::Wall);
    }
    for r in 0..15 {
        assert_eq!(map.tile_at(r, 0), TileType::Wall);
        assert_eq!(map.tile_at(r, 19), TileType::Wall);
    }
    assert_eq!(map.tile_at(13, 3), TileType::Wall);
    assert_eq!(map.tile_at(13, 5), TileType::Wall);
    assert_eq!(map.tile_at(12, 4), TileType::Wall);
    assert_eq!(map.tile_at(11, 3), TileType::Wall);
    assert_eq!(map.tile_at(10, 2), TileType::Wall);
    assert_eq!(map.tile_at(13, 4), TileType::Air);
    assert_eq!(map.tile_at(5, 7), TileType::Air);
    assert_eq!(map.sprites.len(), 1);
    let backdrop = map.backdrop.as_ref().expect("test map has a backdrop");
    assert_eq!(backdrop.surface_id, "content/bkBlue.bmp");
    // every solid tile is drawn from the shared clip
    assert_eq!(map.tiles[14][7].sprite(), Some(0));
    assert_eq!(map.tiles[5][7].sprite(), None);
}

#[test]
fn map_new_is_empty() {
    let map = TileMap::new();
    assert_eq!(map.tiles.len(), 1);
    assert_eq!(map.tiles[0].len(), 0);
    assert_eq!(map.tile_size, 32);
    assert!(map.backdrop.is_none());
}

#[test]
fn map_update_advances_shared_clips_once() {
    // The grid's clip table is advanced exactly once per frame however many
    // tiles reference a clip.
    let mut tiles: Vec<Vec<Tile>> = Vec::new();
    let mut row: Vec<Tile> = Vec::new();
    row.push(Tile::from_sprite(0, TileType::Wall));
    row.push(Tile::from_sprite(0, TileType::Wall));
    tiles.push(row);
    let mut sprites = Vec::new();
    sprites.push(AnimatedSprite::new(0, 0, 32, 32, 10, 4));
    let mut map = TileMap::from_tiles(tiles, 32, sprites);
    assert_eq!(map.sprites[0].frame_time, Millis(100));
    map.update(Millis(101));
    assert_eq!(map.sprites[0].current_frame, 1);
    assert_eq!(map.sprites[0].source_rect.x, 32);
}

#[test]
fn collision_tile_accessors() {
    let t = CollisionTile::new(7, 9, TileType::Wall);
    assert_eq!(t.row(), 7);
    assert_eq!(t.col(), 9);
    assert_eq!(t.tile_type(), TileType::Wall);
}

#[test]
fn tile_constructors() {
    let blank = Tile::new();
    assert_eq!(blank.tile_type(), TileType::Air);
    assert_eq!(blank.sprite(), None);
    let solid = Tile::from_sprite(3, TileType::Wall);
    assert_eq!(solid.tile_type(), TileType::Wall);
    assert_eq!(solid.sprite(), Some(3));
}
