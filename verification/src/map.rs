//! The tile grid: a rectangular field of tiles that answers spatial
//! collision queries for axis-aligned rectangles.
//!
//! Queries are edge-inclusive on every side: a rectangle edge lying exactly
//! on a tile boundary counts the tile beyond it as touched.  This matches
//! the floor-division convention used throughout the resolver and is what
//! lets an actor resting exactly on a floor keep reporting ground contact.

use vstd::arithmetic::div_mod::lemma_div_is_ordered;
use vstd::arithmetic::div_mod::lemma_div_pos_is_pos;
use vstd::arithmetic::div_mod::lemma_fundamental_div_mod_converse;
use vstd::arithmetic::div_mod::lemma_multiply_divide_lt;
use vstd::arithmetic::mul::lemma_mul_is_commutative;
use vstd::prelude::*;

use crate::MAX_ELAPSED_MS;
use crate::SCREEN_HEIGHT;
use crate::SCREEN_WIDTH;
use crate::TILE_SIZE;
use crate::backdrop::FixedBackdrop;
use crate::collision_tile::CollisionTile;
use crate::geometry::COORD_LIMIT;
use crate::geometry::Rect;
use crate::geometry::rect_edges;
use crate::sprite::AnimatedSprite;
use crate::sprite::anim_step;
use crate::tile::Tile;
use crate::tile::TileType;
use crate::units::Millis;

verus! {

/// Tile classification of the built-in demonstration level: a floor along
/// the bottom row, walls along the left and right columns, and a small
/// staircase of blocks.
pub open spec fn test_map_tile_type(row: int, col: int) -> TileType {
    if row == 14 || col == 0 || col == 19 || (row == 13 && (col == 3 || col == 5)) || (row == 12
        && col == 4) || (row == 11 && col == 3) || (row == 10 && col == 2) {
        TileType::Wall
    } else {
        TileType::Air
    }
}

/// The static level grid.  Rows and columns are zero-based; every row has
/// the same number of columns; each tile cell is `tile_size` pixels on a
/// side.  Tiles that are drawn reference clips in the shared `sprites`
/// table by index.
pub struct TileMap {
    pub tiles: Vec<Vec<Tile>>,
    pub tile_size: i64,
    pub sprites: Vec<AnimatedSprite>,
    pub backdrop: Option<FixedBackdrop>,
}

impl TileMap {
    pub open spec fn num_rows(self) -> int {
        self.tiles@.len() as int
    }

    pub open spec fn num_cols(self) -> int {
        if self.tiles@.len() == 0 {
            0
        } else {
            self.tiles@[0]@.len() as int
        }
    }

    pub open spec fn tile_type_at(self, row: int, col: int) -> TileType {
        self.tiles@[row]@[col].tile_type
    }

    /// The grid is rectangular, tiles are at least one pixel wide, and the
    /// whole grid fits within the coordinate limit.
    pub open spec fn grid_wf(self) -> bool {
        &&& 1 <= self.tile_size
        &&& forall|r: int|
            0 <= r < self.num_rows() ==> (#[trigger] self.tiles@[r])@.len() == self.num_cols()
        &&& self.num_rows() * self.tile_size <= COORD_LIMIT
        &&& self.num_cols() * self.tile_size <= COORD_LIMIT
    }

    /// Every clip in the table is well formed and every tile's clip
    /// reference points into the table.
    pub open spec fn sprites_wf(self) -> bool {
        &&& forall|i: int|
            0 <= i < self.sprites@.len() ==> (#[trigger] self.sprites@[i]).wf()
        &&& forall|r: int, c: int|
            0 <= r < self.num_rows() && 0 <= c < self.num_cols() ==> ((#[trigger] self.tiles@[r]@[c]).sprite
                matches Some(s) ==> s < self.sprites@.len())
    }

    pub open spec fn wf(self) -> bool {
        self.grid_wf() && self.sprites_wf()
    }

    /// The edges `(left, top, right, bottom)` of a query rectangle lie
    /// inside the grid.  Out-of-bounds queries are a caller error: callers
    /// must clip rectangles to the grid extent.
    pub open spec fn edges_in_grid(self, e: (int, int, int, int)) -> bool {
        &&& 0 <= e.0 <= e.2
        &&& 0 <= e.1 <= e.3
        &&& e.2 < self.num_cols() * self.tile_size
        &&& e.3 < self.num_rows() * self.tile_size
    }

    /// First and last tile row/column touched by a query rectangle with
    /// edges `e`, inclusive on every edge.
    pub open spec fn query_first_col(self, e: (int, int, int, int)) -> int {
        e.0 / (self.tile_size as int)
    }

    pub open spec fn query_first_row(self, e: (int, int, int, int)) -> int {
        e.1 / (self.tile_size as int)
    }

    pub open spec fn query_last_col(self, e: (int, int, int, int)) -> int {
        e.2 / (self.tile_size as int)
    }

    pub open spec fn query_last_row(self, e: (int, int, int, int)) -> int {
        e.3 / (self.tile_size as int)
    }

    /// Number of columns and rows a query touches.
    pub open spec fn query_width(self, e: (int, int, int, int)) -> int {
        self.query_last_col(e) - self.query_first_col(e) + 1
    }

    pub open spec fn query_height(self, e: (int, int, int, int)) -> int {
        self.query_last_row(e) - self.query_first_row(e) + 1
    }

    pub open spec fn query_size(self, e: (int, int, int, int)) -> int {
        self.query_height(e) * self.query_width(e)
    }

    /// Grid cell at position `i` of the row-major enumeration of a query.
    pub open spec fn query_row_of(self, e: (int, int, int, int), i: int) -> int {
        self.query_first_row(e) + i / self.query_width(e)
    }

    pub open spec fn query_col_of(self, e: (int, int, int, int), i: int) -> int {
        self.query_first_col(e) + i % self.query_width(e)
    }

    /// The row and column counts themselves fit within the coordinate
    /// limit.
    pub proof fn lemma_grid_counts_bounded(self)
        requires
            self.grid_wf(),
        ensures
            self.num_rows() <= COORD_LIMIT,
            self.num_cols() <= COORD_LIMIT,
    {
        assert(self.num_rows() <= self.num_rows() * self.tile_size) by (nonlinear_arith)
            requires
                1 <= self.tile_size,
                0 <= self.num_rows(),
        ;
        assert(self.num_cols() <= self.num_cols() * self.tile_size) by (nonlinear_arith)
            requires
                1 <= self.tile_size,
                0 <= self.num_cols(),
        ;
    }

    /// An in-grid query touches a non-empty range of rows and columns, all
    /// of them inside the grid.
    pub proof fn lemma_query_ranges(self, e: (int, int, int, int))
        requires
            self.grid_wf(),
            self.edges_in_grid(e),
        ensures
            0 <= self.query_first_col(e) <= self.query_last_col(e) < self.num_cols(),
            0 <= self.query_first_row(e) <= self.query_last_row(e) < self.num_rows(),
    {
        let ts = self.tile_size as int;
        lemma_div_pos_is_pos(e.0, ts);
        lemma_div_pos_is_pos(e.1, ts);
        lemma_div_is_ordered(e.0, e.2, ts);
        lemma_div_is_ordered(e.1, e.3, ts);
        lemma_mul_is_commutative(self.num_cols(), ts);
        lemma_mul_is_commutative(self.num_rows(), ts);
        lemma_multiply_divide_lt(e.2, ts, self.num_cols());
        lemma_multiply_divide_lt(e.3, ts, self.num_rows());
    }

    /// An empty grid of one row and no columns.
    pub fn new() -> (m: TileMap)
        ensures
            m.tiles@.len() == 1,
            m.tiles@[0]@.len() == 0,
            m.tile_size == TILE_SIZE,
            m.sprites@.len() == 0,
            m.backdrop is None,
            m.wf(),
    {
        let row: Vec<Tile> = Vec::new();
        let mut tiles: Vec<Vec<Tile>> = Vec::new();
        tiles.push(row);
        let m = TileMap { tiles, tile_size: TILE_SIZE, sprites: Vec::new(), backdrop: None };
        proof {
            assert(m.num_rows() * m.tile_size == TILE_SIZE) by (nonlinear_arith)
                requires
                    m.num_rows() == 1,
                    m.tile_size == TILE_SIZE,
            ;
            assert(m.num_cols() * m.tile_size == 0) by (nonlinear_arith)
                requires
                    m.num_cols() == 0,
            ;
        }
        m
    }

    /// A grid built from level data handed in as plain values.
    pub fn from_tiles(tiles: Vec<Vec<Tile>>, tile_size: i64, sprites: Vec<AnimatedSprite>) -> (m:
        TileMap)
        requires
            1 <= tile_size,
            forall|r: int|
                0 <= r < tiles@.len() ==> (#[trigger] tiles@[r])@.len() == tiles@[0]@.len(),
            tiles@.len() * tile_size <= COORD_LIMIT,
            tiles@.len() > 0 ==> tiles@[0]@.len() * tile_size <= COORD_LIMIT,
            forall|i: int| 0 <= i < sprites@.len() ==> (#[trigger] sprites@[i]).wf(),
            forall|r: int, c: int|
                0 <= r < tiles@.len() && 0 <= c < tiles@[0]@.len() ==> ((#[trigger] tiles@[r]@[c]).sprite
                    matches Some(s) ==> s < sprites@.len()),
        ensures
            m.tiles == tiles,
            m.tile_size == tile_size,
            m.sprites == sprites,
            m.backdrop is None,
            m.wf(),
    {
        let m = TileMap { tiles, tile_size, sprites, backdrop: None };
        proof {
            if m.tiles@.len() == 0 {
                assert(m.num_cols() * m.tile_size == 0) by (nonlinear_arith)
                    requires
                        m.num_cols() == 0,
                ;
            }
        }
        m
    }

    /// The built-in demonstration level: one screen of tiles with a floor,
    /// enclosing walls, a small staircase, and a backdrop, every solid cell
    /// drawn from one shared clip.
    #[verifier::loop_isolation(false)]
    pub fn create_test_map() -> (m: TileMap)
        ensures
            m.wf(),
            m.tile_size == TILE_SIZE,
            m.num_rows() == 15,
            m.num_cols() == 20,
            forall|r: int, c: int|
                0 <= r < 15 && 0 <= c < 20 ==> m.tile_type_at(r, c) == test_map_tile_type(r, c),
            m.backdrop matches Some(b) && b.surface_id@ == "content/bkBlue.bmp"@,
            m.sprites@.len() == 1,
    {
        let num_rows: usize = (SCREEN_HEIGHT / TILE_SIZE) as usize;
        let num_cols: usize = (SCREEN_WIDTH / TILE_SIZE) as usize;
        assert(num_rows == 15);
        assert(num_cols == 20);
        let wall_sprite = AnimatedSprite::new(TILE_SIZE, 0, TILE_SIZE, TILE_SIZE, 1, 1);
        let mut sprites: Vec<AnimatedSprite> = Vec::new();
        sprites.push(wall_sprite);
        let mut tiles: Vec<Vec<Tile>> = Vec::new();
        let mut r: usize = 0;
        while r < num_rows
            invariant
                r <= 15,
                tiles@.len() == r,
                forall|i: int| 0 <= i < r ==> (#[trigger] tiles@[i])@.len() == 20,
                forall|i: int, j: int|
                    0 <= i < r && 0 <= j < 20 ==> {
                        let t = #[trigger] tiles@[i]@[j];
                        &&& t.tile_type == test_map_tile_type(i, j)
                        &&& (t.sprite matches Some(s) ==> s == 0)
                    },
            decreases 15 - r,
        {
            let mut row: Vec<Tile> = Vec::new();
            let mut c: usize = 0;
            while c < num_cols
                invariant
                    r < 15,
                    c <= 20,
                    row@.len() == c,
                    forall|j: int|
                        0 <= j < c ==> {
                            let t = #[trigger] row@[j];
                            &&& t.tile_type == test_map_tile_type(r as int, j)
                            &&& (t.sprite matches Some(s) ==> s == 0)
                        },
                decreases 20 - c,
            {
                let solid = r == num_rows - 1 || c == 0 || c == num_cols - 1 || (r == 13 && (c == 3
                    || c == 5)) || (r == 12 && c == 4) || (r == 11 && c == 3) || (r == 10 && c
                    == 2);
                if solid {
                    row.push(Tile::from_sprite(0, TileType::Wall));
                } else {
                    row.push(Tile::new());
                }
                c = c + 1;
            }
            tiles.push(row);
            r = r + 1;
        }
        let m = TileMap {
            tiles,
            tile_size: TILE_SIZE,
            sprites,
            backdrop: Some(FixedBackdrop::new("content/bkBlue.bmp")),
        };
        proof {
            assert(m.num_rows() * m.tile_size == 480) by (nonlinear_arith)
                requires
                    m.num_rows() == 15,
                    m.tile_size == 32,
            ;
            assert(m.num_cols() * m.tile_size == 640) by (nonlinear_arith)
                requires
                    m.num_cols() == 20,
                    m.tile_size == 32,
            ;
        }
        m
    }

    /// The type of the tile at `(row, col)`.
    pub fn tile_at(&self, row: i64, col: i64) -> (tt: TileType)
        requires
            self.wf(),
            0 <= row < self.num_rows(),
            0 <= col < self.num_cols(),
        ensures
            tt == self.tile_type_at(row as int, col as int),
    {
        proof {
            self.lemma_grid_counts_bounded();
        }
        self.tiles[row as usize][col as usize].tile_type()
    }

    /// Every tile cell whose area the query rectangle touches, in row-major
    /// order, each tagged with its position and type.  A rectangle of zero
    /// area still yields the single cell it lies in.
    #[verifier::loop_isolation(false)]
    pub fn get_colliding_tiles(&self, rect: &Rect) -> (result: Vec<CollisionTile>)
        requires
            self.wf(),
            rect.wf(),
            self.edges_in_grid(rect_edges(*rect)),
        ensures
            ({
                let e = rect_edges(*rect);
                &&& result@.len() == self.query_size(e)
                &&& forall|i: int|
                    0 <= i < result@.len() ==> {
                        let t = #[trigger] result@[i];
                        &&& t.row == self.query_row_of(e, i)
                        &&& t.col == self.query_col_of(e, i)
                        &&& t.tile_type == self.tile_type_at(
                            self.query_row_of(e, i),
                            self.query_col_of(e, i),
                        )
                    }
            }),
    {
        let ghost e = rect_edges(*rect);
        let ts = self.tile_size;
        let first_row = rect.top() / ts;
        let last_row = rect.bottom() / ts;
        let first_col = rect.left() / ts;
        let last_col = rect.right() / ts;
        proof {
            self.lemma_query_ranges(e);
        }
        let width = last_col - first_col + 1;
        let mut result: Vec<CollisionTile> = Vec::new();
        let mut row = first_row;
        while row <= last_row
            invariant
                first_row <= row <= last_row + 1,
                result@.len() == (row - first_row) * width,
                forall|i: int|
                    0 <= i < result@.len() ==> {
                        let t = #[trigger] result@[i];
                        &&& t.row == self.query_row_of(e, i)
                        &&& t.col == self.query_col_of(e, i)
                        &&& t.tile_type == self.tile_type_at(
                            self.query_row_of(e, i),
                            self.query_col_of(e, i),
                        )
                    },
            decreases last_row + 1 - row,
        {
            let mut col = first_col;
            while col <= last_col
                invariant
                    first_row <= row <= last_row,
                    first_col <= col <= last_col + 1,
                    result@.len() == (row - first_row) * width + (col - first_col),
                    forall|i: int|
                        0 <= i < result@.len() ==> {
                            let t = #[trigger] result@[i];
                            &&& t.row == self.query_row_of(e, i)
                            &&& t.col == self.query_col_of(e, i)
                            &&& t.tile_type == self.tile_type_at(
                                self.query_row_of(e, i),
                                self.query_col_of(e, i),
                            )
                        },
                decreases last_col + 1 - col,
            {
                let tt = self.tiles[row as usize][col as usize].tile_type();
                result.push(CollisionTile::new(row, col, tt));
                proof {
                    let i = (row - first_row) * width + (col - first_col);
                    lemma_fundamental_div_mod_converse(i, width as int, row - first_row, col - first_col);
                }
                col = col + 1;
            }
            proof {
                assert((row - first_row) * width + width == (row + 1 - first_row) * width)
                    by (nonlinear_arith);
            }
            row = row + 1;
        }
        proof {
            assert((last_row + 1 - first_row) * width == self.query_size(e));
        }
        result
    }

    /// Advance every clip in the shared table by the elapsed time.  Each
    /// clip is stepped exactly once per frame, however many tiles reference
    /// it.
    #[verifier::loop_isolation(false)]
    pub fn update(&mut self, elapsed_time: Millis)
        requires
            old(self).wf(),
            0 <= elapsed_time.0 <= MAX_ELAPSED_MS,
        ensures
            final(self).wf(),
            final(self).tiles == old(self).tiles,
            final(self).tile_size == old(self).tile_size,
            final(self).backdrop == old(self).backdrop,
            final(self).sprites@.len() == old(self).sprites@.len(),
            forall|i: int|
                0 <= i < old(self).sprites@.len() ==> final(self).sprites@[i] == anim_step(
                    old(self).sprites@[i],
                    elapsed_time.0 as int,
                ),
    {
        let mut i: usize = 0;
        while i < self.sprites.len()
            invariant
                i <= self.sprites@.len(),
                self.sprites@.len() == old(self).sprites@.len(),
                self.tiles == old(self).tiles,
                self.tile_size == old(self).tile_size,
                self.backdrop == old(self).backdrop,
                forall|j: int|
                    0 <= j < i ==> self.sprites@[j] == anim_step(
                        old(self).sprites@[j],
                        elapsed_time.0 as int,
                    ),
                forall|j: int|
                    i <= j < self.sprites@.len() ==> self.sprites@[j] == old(self).sprites@[j],
                forall|j: int| 0 <= j < self.sprites@.len() ==> (#[trigger] self.sprites@[j]).wf(),
            decreases self.sprites@.len() - i,
        {
            let mut clip = self.sprites[i];
            clip.update(elapsed_time);
            self.sprites.set(i, clip);
            i = i + 1;
        }
    }
}

} // verus!
