//! The collision resolver: thin probe rectangles per axis, the row-major
//! first-wall query they run against the grid, and the clamping rules that
//! keep the actor out of solid tiles.
//!
//! Resolution is axis-separated.  For each axis the probe on the side of
//! motion is tested first over the whole swept span; the opposite side is
//! then re-checked at zero delta to push the actor out of a wall it already
//! overlaps.  When a probe touches several solid tiles, the contact is the
//! first solid tile of the query in row-major order — deterministic, but
//! not necessarily the nearest surface.

use vstd::prelude::*;

use crate::collision_info::CollisionInfo;
use crate::geometry::Rect;
use crate::geometry::rect_edges;
use crate::map::TileMap;
use crate::tile::TileType;

verus! {

/// Edges `(left, top, right, bottom)` of the probe for rightward motion:
/// from the actor's horizontal center to the right edge of the horizontal
/// probe box, extended by the positional delta.
pub open spec fn right_probe(x: int, y: int, cx: Rect, delta: int) -> (int, int, int, int) {
    (x + cx.x + cx.width / 2, y + cx.y, x + cx.x + cx.width + delta, y + cx.y + cx.height)
}

/// Edges of the probe for leftward motion: from the left edge of the
/// horizontal probe box, extended by the (non-positive) delta, to the
/// actor's horizontal center.
pub open spec fn left_probe(x: int, y: int, cx: Rect, delta: int) -> (int, int, int, int) {
    (x + cx.x + delta, y + cx.y, x + cx.x + cx.width / 2, y + cx.y + cx.height)
}

/// Edges of the probe for downward motion: from the actor's vertical center
/// to the bottom edge of the vertical probe box, extended by the delta.
pub open spec fn bottom_probe(x: int, y: int, cy: Rect, delta: int) -> (int, int, int, int) {
    (x + cy.x, y + cy.y + cy.height / 2, x + cy.x + cy.width, y + cy.y + cy.height + delta)
}

/// Edges of the probe for upward motion: from the top edge of the vertical
/// probe box, extended by the (non-positive) delta, to the actor's vertical
/// center.
pub open spec fn top_probe(x: int, y: int, cy: Rect, delta: int) -> (int, int, int, int) {
    (x + cy.x, y + cy.y + delta, x + cy.x + cy.width, y + cy.y + cy.height / 2)
}

/// Row-major scan of a query for its first solid tile, starting at flat
/// position `i` of the enumeration.
pub open spec fn first_wall_from(map: TileMap, e: (int, int, int, int), i: int) -> Option<
    (int, int),
>
    decreases map.query_size(e) - i,
{
    if i < 0 || i >= map.query_size(e) {
        None
    } else {
        let r = map.query_row_of(e, i);
        let c = map.query_col_of(e, i);
        if map.tile_type_at(r, c) == TileType::Wall {
            Some((r, c))
        } else {
            first_wall_from(map, e, i + 1)
        }
    }
}

/// The first solid tile, in row-major order, among the tiles touched by a
/// query rectangle with edges `e`; `None` when every touched tile is
/// passable.
pub open spec fn first_wall(map: TileMap, e: (int, int, int, int)) -> Option<(int, int)> {
    first_wall_from(map, e, 0)
}

/// Any tile the scan reports is inside the query range and really solid.
pub proof fn lemma_first_wall_from_in_range(map: TileMap, e: (int, int, int, int), i: int)
    requires
        map.grid_wf(),
        map.edges_in_grid(e),
        first_wall_from(map, e, i) is Some,
    ensures
        ({
            let (r, c) = first_wall_from(map, e, i)->Some_0;
            &&& map.query_first_row(e) <= r <= map.query_last_row(e)
            &&& map.query_first_col(e) <= c <= map.query_last_col(e)
            &&& map.tile_type_at(r, c) == TileType::Wall
        }),
    decreases map.query_size(e) - i,
{
    map.lemma_query_ranges(e);
    let w = map.query_width(e);
    let h = map.query_height(e);
    let n = map.query_size(e);
    if map.tile_type_at(map.query_row_of(e, i), map.query_col_of(e, i)) == TileType::Wall {
        assert(0 <= i / w <= h - 1 && 0 <= i % w <= w - 1) by (nonlinear_arith)
            requires
                0 < w,
                0 < h,
                n == h * w,
                0 <= i < n,
        ;
    } else {
        lemma_first_wall_from_in_range(map, e, i + 1);
    }
}

/// As `lemma_first_wall_from_in_range`, for the whole query.
pub proof fn lemma_first_wall_in_range(map: TileMap, e: (int, int, int, int))
    requires
        map.grid_wf(),
        map.edges_in_grid(e),
        first_wall(map, e) is Some,
    ensures
        ({
            let (r, c) = first_wall(map, e)->Some_0;
            &&& map.query_first_row(e) <= r <= map.query_last_row(e)
            &&& map.query_first_col(e) <= c <= map.query_last_col(e)
            &&& map.tile_type_at(r, c) == TileType::Wall
        }),
{
    lemma_first_wall_from_in_range(map, e, 0);
}

/// A scan that comes back empty has really visited everything: continuing
/// an empty scan further along stays empty.
proof fn lemma_first_wall_from_none_forward(map: TileMap, e: (int, int, int, int), i: int, j: int)
    requires
        first_wall_from(map, e, i) is None,
        0 <= i <= j,
    ensures
        first_wall_from(map, e, j) is None,
    decreases j - i,
{
    if i < j && i < map.query_size(e) {
        lemma_first_wall_from_none_forward(map, e, i + 1, j);
    }
}

/// Completeness of the query: when the scan reports no contact, every tile
/// the probe touches really is passable.  This is what rules out tunneling:
/// a probe swept over the whole travel distance cannot pass a solid tile
/// unseen.
pub proof fn lemma_first_wall_none_means_clear(
    map: TileMap,
    e: (int, int, int, int),
    r: int,
    c: int,
)
    requires
        map.grid_wf(),
        map.edges_in_grid(e),
        first_wall(map, e) is None,
        map.query_first_row(e) <= r <= map.query_last_row(e),
        map.query_first_col(e) <= c <= map.query_last_col(e),
    ensures
        map.tile_type_at(r, c) != TileType::Wall,
{
    let w = map.query_width(e);
    let h = map.query_height(e);
    let fr = map.query_first_row(e);
    let fc = map.query_first_col(e);
    let j = (r - fr) * w + (c - fc);
    map.lemma_query_ranges(e);
    vstd::arithmetic::div_mod::lemma_fundamental_div_mod_converse(j, w, r - fr, c - fc);
    assert(0 <= j < h * w) by (nonlinear_arith)
        requires
            0 < w,
            0 < h,
            0 <= r - fr <= h - 1,
            0 <= c - fc <= w - 1,
            j == (r - fr) * w + (c - fc),
    ;
    lemma_first_wall_from_none_forward(map, e, 0, j);
}

/// If some tile of the query is solid, the scan finds a contact, and the
/// contact's row-major position is no later than that tile's.
proof fn lemma_first_wall_from_finds(map: TileMap, e: (int, int, int, int), i: int, j: int)
    requires
        map.grid_wf(),
        map.edges_in_grid(e),
        0 <= i <= j < map.query_size(e),
        map.tile_type_at(map.query_row_of(e, j), map.query_col_of(e, j)) == TileType::Wall,
    ensures
        ({
            let fw = first_wall_from(map, e, i);
            &&& fw is Some
            &&& {
                let (r0, c0) = fw->Some_0;
                (r0 - map.query_first_row(e)) * map.query_width(e) + (c0 - map.query_first_col(e))
                    <= j
            }
        }),
    decreases j - i,
{
    let w = map.query_width(e);
    let fr = map.query_first_row(e);
    let fc = map.query_first_col(e);
    map.lemma_query_ranges(e);
    if map.tile_type_at(map.query_row_of(e, i), map.query_col_of(e, i)) == TileType::Wall {
        vstd::arithmetic::div_mod::lemma_fundamental_div_mod(i, w);
        assert((map.query_row_of(e, i) - fr) * w + (map.query_col_of(e, i) - fc) == i) by {
            assert(map.query_row_of(e, i) - fr == i / w && map.query_col_of(e, i) - fc == i % w);
            assert((i / w) * w + i % w == i) by (nonlinear_arith)
                requires
                    0 < w,
                    i == w * (i / w) + i % w,
            ;
        }
    } else {
        lemma_first_wall_from_finds(map, e, i + 1, j);
    }
}

/// Wall safety for rightward motion, whatever the frame granularity: when a
/// solid column `wall_col` spans every row the probe touches, the
/// directional pass never places the probe's right edge beyond that
/// column's left edge — the actor either stops short of it or is clamped
/// exactly onto it.
pub proof fn lemma_wall_never_passed_right(
    map: TileMap,
    cx: Rect,
    x: int,
    y: int,
    vx: int,
    delta: int,
    wall_col: int,
)
    requires
        map.grid_wf(),
        delta > 0,
        map.edges_in_grid(right_probe(x, y, cx, delta)),
        ({
            let e = right_probe(x, y, cx, delta);
            &&& map.query_first_col(e) <= wall_col <= map.query_last_col(e)
            &&& forall|r: int|
                map.query_first_row(e) <= r <= map.query_last_row(e)
                    ==> map.tile_type_at(r, wall_col) == TileType::Wall
        }),
    ensures
        resolve_x_first(map, cx, x, y, vx, delta).0 + (cx.x + cx.width) <= wall_col
            * map.tile_size,
{
    let e = right_probe(x, y, cx, delta);
    let w = map.query_width(e);
    let fr = map.query_first_row(e);
    let fc = map.query_first_col(e);
    map.lemma_query_ranges(e);
    let j = wall_col - fc;
    assert(0 <= j < map.query_size(e)) by (nonlinear_arith)
        requires
            0 < w,
            1 <= map.query_height(e),
            0 <= j < w,
            map.query_size(e) == map.query_height(e) * w,
    ;
    vstd::arithmetic::div_mod::lemma_fundamental_div_mod_converse(j, w, 0, j);
    assert(map.tile_type_at(map.query_row_of(e, j), map.query_col_of(e, j)) == TileType::Wall);
    lemma_first_wall_from_finds(map, e, 0, j);
    let (r0, c0) = first_wall(map, e)->Some_0;
    let i0 = (r0 - fr) * w + (c0 - fc);
    lemma_first_wall_in_range(map, e);
    assert(c0 <= wall_col) by (nonlinear_arith)
        requires
            0 < w,
            0 <= i0 <= j < w,
            0 <= r0 - fr,
            0 <= c0 - fc < w,
            i0 == (r0 - fr) * w + (c0 - fc),
            j == wall_col - fc,
    ;
    vstd::arithmetic::mul::lemma_mul_inequality(c0, wall_col, map.tile_size as int);
}

/// Floor safety for downward motion, whatever the frame granularity: when a
/// solid row `floor_row` spans every column the probe touches, the
/// directional pass never places the probe's bottom edge below that row's
/// top edge — the descent is clamped at or above the floor, never through
/// it.
pub proof fn lemma_floor_never_passed(
    map: TileMap,
    cy: Rect,
    x: int,
    y: int,
    vy: int,
    delta: int,
    floor_row: int,
)
    requires
        map.grid_wf(),
        delta > 0,
        map.edges_in_grid(bottom_probe(x, y, cy, delta)),
        ({
            let e = bottom_probe(x, y, cy, delta);
            &&& map.query_first_row(e) <= floor_row <= map.query_last_row(e)
            &&& forall|c: int|
                map.query_first_col(e) <= c <= map.query_last_col(e)
                    ==> map.tile_type_at(floor_row, c) == TileType::Wall
        }),
    ensures
        resolve_y_first(map, cy, x, y, vy, delta).0 + (cy.y + cy.height) <= floor_row
            * map.tile_size,
{
    let e = bottom_probe(x, y, cy, delta);
    let w = map.query_width(e);
    let fr = map.query_first_row(e);
    let fc = map.query_first_col(e);
    map.lemma_query_ranges(e);
    let j = (floor_row - fr) * w;
    vstd::arithmetic::div_mod::lemma_fundamental_div_mod_converse(j, w, floor_row - fr, 0);
    assert(0 <= j < map.query_size(e)) by (nonlinear_arith)
        requires
            0 < w,
            0 <= floor_row - fr <= map.query_height(e) - 1,
            j == (floor_row - fr) * w,
            map.query_size(e) == map.query_height(e) * w,
    ;
    assert(map.tile_type_at(map.query_row_of(e, j), map.query_col_of(e, j)) == TileType::Wall);
    lemma_first_wall_from_finds(map, e, 0, j);
    let (r0, c0) = first_wall(map, e)->Some_0;
    let i0 = (r0 - fr) * w + (c0 - fc);
    lemma_first_wall_in_range(map, e);
    assert(r0 <= floor_row) by (nonlinear_arith)
        requires
            0 < w,
            0 <= i0 <= j,
            0 <= c0 - fc < w,
            i0 == (r0 - fr) * w + (c0 - fc),
            j == (floor_row - fr) * w,
    ;
    vstd::arithmetic::mul::lemma_mul_inequality(r0, floor_row, map.tile_size as int);
}

/// Probe a rectangle against the grid: report whether it touches a solid
/// tile and, if so, the position of the first one in row-major order.
#[verifier::loop_isolation(false)]
pub fn get_collision_info(map: &TileMap, rect: &Rect) -> (info: CollisionInfo)
    requires
        map.wf(),
        rect.wf(),
        map.edges_in_grid(rect_edges(*rect)),
    ensures
        ({
            let fw = first_wall(*map, rect_edges(*rect));
            &&& info.collided == fw is Some
            &&& (fw matches Some((r, c)) ==> info.row == r && info.col == c)
            &&& (fw is None ==> info.row == 0 && info.col == 0)
        }),
{
    let ghost e = rect_edges(*rect);
    let tiles = map.get_colliding_tiles(rect);
    let mut i: usize = 0;
    while i < tiles.len()
        invariant
            i <= tiles@.len(),
            first_wall(*map, e) == first_wall_from(*map, e, i as int),
        decreases tiles@.len() - i,
    {
        let t = &tiles[i];
        if t.tile_type() == TileType::Wall {
            return CollisionInfo::new(true, t.row(), t.col());
        }
        i = i + 1;
    }
    CollisionInfo::new(false, 0, 0)
}

/// Resolution along the axis of motion for the horizontal pass: either the
/// actor is clamped so the probe's leading edge aligns with the colliding
/// tile (zeroing the velocity), or the full delta applies.
pub open spec fn resolve_x_first(
    map: TileMap,
    cx: Rect,
    x: int,
    y: int,
    vx: int,
    delta: int,
) -> (int, int) {
    if delta > 0 {
        match first_wall(map, right_probe(x, y, cx, delta)) {
            Some((r, c)) => (c * map.tile_size - (cx.x + cx.width), 0),
            None => (x + delta, vx),
        }
    } else {
        match first_wall(map, left_probe(x, y, cx, delta)) {
            Some((r, c)) => ((c + 1) * map.tile_size - cx.x, 0),
            None => (x + delta, vx),
        }
    }
}

/// Full horizontal resolution: the directional pass, then a zero-delta
/// re-check of the opposite side that pushes the actor out of a wall it
/// already overlaps (without touching the velocity).
pub open spec fn resolve_x_model(
    map: TileMap,
    cx: Rect,
    x: int,
    y: int,
    vx: int,
    delta: int,
) -> (int, int) {
    let (x1, vx1) = resolve_x_first(map, cx, x, y, vx, delta);
    if delta > 0 {
        match first_wall(map, left_probe(x1, y, cx, 0)) {
            Some((r, c)) => ((c + 1) * map.tile_size - cx.x, vx1),
            None => (x1, vx1),
        }
    } else {
        match first_wall(map, right_probe(x1, y, cx, 0)) {
            Some((r, c)) => (c * map.tile_size - (cx.x + cx.width), vx1),
            None => (x1, vx1),
        }
    }
}

/// Resolution along the axis of motion for the vertical pass.  The result's
/// third component is the new ground contact; when falling it is exactly
/// whether the downward probe touched a solid tile.
pub open spec fn resolve_y_first(
    map: TileMap,
    cy: Rect,
    x: int,
    y: int,
    vy: int,
    delta: int,
) -> (int, int, bool) {
    if delta > 0 {
        match first_wall(map, bottom_probe(x, y, cy, delta)) {
            Some((r, c)) => (r * map.tile_size - (cy.y + cy.height), 0, true),
            None => (y + delta, vy, false),
        }
    } else {
        match first_wall(map, top_probe(x, y, cy, delta)) {
            Some((r, c)) => ((r + 1) * map.tile_size - cy.y, 0, false),
            None => (y + delta, vy, false),
        }
    }
}

/// Full vertical resolution.  When falling, the opposite (upward) re-check
/// may push the actor down out of a ceiling; when rising or still, ground
/// contact is recomputed from a zero-delta downward probe at the resolved
/// position, which also snaps the actor onto a floor it already overlaps.
pub open spec fn resolve_y_model(
    map: TileMap,
    cy: Rect,
    x: int,
    y: int,
    vy: int,
    delta: int,
) -> (int, int, bool) {
    let (y1, vy1, ground1) = resolve_y_first(map, cy, x, y, vy, delta);
    if delta > 0 {
        match first_wall(map, top_probe(x, y1, cy, 0)) {
            Some((r, c)) => ((r + 1) * map.tile_size - cy.y, vy1, ground1),
            None => (y1, vy1, ground1),
        }
    } else {
        match first_wall(map, bottom_probe(x, y1, cy, 0)) {
            Some((r, c)) => (r * map.tile_size - (cy.y + cy.height), vy1, true),
            None => (y1, vy1, false),
        }
    }
}

/// Ground clamp: in any descent whose downward probe touches a solid tile
/// at row `r`, and with no ceiling contact at the clamped position, the
/// resolved vertical position aligns the probe's bottom edge exactly with
/// the top of that tile's row and the vertical velocity is zeroed, with
/// ground contact reported.
pub proof fn lemma_ground_clamp(
    map: TileMap,
    cy: Rect,
    x: int,
    y: int,
    vy: int,
    delta: int,
    r: int,
    c: int,
)
    requires
        delta > 0,
        first_wall(map, bottom_probe(x, y, cy, delta)) == Some((r, c)),
        first_wall(map, top_probe(x, r * map.tile_size - (cy.y + cy.height), cy, 0)) is None,
    ensures
        resolve_y_model(map, cy, x, y, vy, delta) == (
            r * map.tile_size - (cy.y + cy.height),
            0int,
            true,
        ),
{
}

/// Wall clamp, rightward half: moving right into a wall at column `c`
/// places the actor so the probe's right edge meets the tile's left edge,
/// at `c * tile_size - (cx.x + cx.width)`, and zeroes the velocity.
pub proof fn lemma_wall_clamp_right(
    map: TileMap,
    cx: Rect,
    x: int,
    y: int,
    vx: int,
    delta: int,
    r: int,
    c: int,
)
    requires
        delta > 0,
        first_wall(map, right_probe(x, y, cx, delta)) == Some((r, c)),
        first_wall(map, left_probe(c * map.tile_size - (cx.x + cx.width), y, cx, 0)) is None,
    ensures
        resolve_x_model(map, cx, x, y, vx, delta) == (c * map.tile_size - (cx.x + cx.width), 0int),
{
}

/// Wall clamp, leftward half — the exact mirror: moving left into a wall at
/// column `c` places the actor so the probe's left edge meets the tile's
/// right edge, at `(c + 1) * tile_size - cx.x`, and zeroes the velocity.
pub proof fn lemma_wall_clamp_left(
    map: TileMap,
    cx: Rect,
    x: int,
    y: int,
    vx: int,
    delta: int,
    r: int,
    c: int,
)
    requires
        delta <= 0,
        first_wall(map, left_probe(x, y, cx, delta)) == Some((r, c)),
        first_wall(map, right_probe((c + 1) * map.tile_size - cx.x, y, cx, 0)) is None,
    ensures
        resolve_x_model(map, cx, x, y, vx, delta) == ((c + 1) * map.tile_size - cx.x, 0int),
{
}

} // verus!
