//! Scenario tests for the integrator and the collision resolver.

use platformer_core::map::TileMap;
use platformer_core::motion::PhysicsConfig;
use platformer_core::player::Player;
use platformer_core::sprite_state::MotionType;
use platformer_core::tile::{Tile, TileType};
use platformer_core::units::Millis;

/// A large open grid with a floor of Wall tiles across `floor_row`, plus an
/// optional wall column.
fn build_map(rows: usize, cols: usize, floor_row: Option<usize>, wall: &[(usize, usize)]) -> TileMap {
    let mut tiles: Vec<Vec<Tile>> = Vec::new();
    for r in 0..rows {
        let mut row: Vec<Tile> = Vec::new();
        for c in 0..cols {
            let solid = floor_row == Some(r) || wall.contains(&(r, c));
            if solid {
                row.push(Tile::from_sprite(0, TileType::Wall));
            } else {
                row.push(Tile::new());
            }
        }
        tiles.push(row);
    }
    let mut sprites = Vec::new();
    sprites.push(platformer_core::sprite::AnimatedSprite::new(32, 0, 32, 32, 1, 1));
    TileMap::from_tiles(tiles, 32, sprites)
}

/// Floor of Wall tiles at row 11 (top edge at 352), nothing else.
fn floor_map() -> TileMap {
    build_map(60, 40, Some(11), &[])
}

fn resting_player() -> (Player, TileMap) {
    let map = floor_map();
    let mut p = Player::new(0, 288, PhysicsConfig::default());
    p.update(Millis(1000), &map);
    assert_eq!(p.y, 320);
    assert!(p.on_ground);
    (p, map)
}

#[test]
fn ground_clamp() {
    // Descending onto the floor at row 11 clamps y so the probe's bottom
    // edge meets the row top exactly, and zeroes the vertical velocity.
    let map = floor_map();
    let mut p = Player::new(0, 288, PhysicsConfig::default());
    assert_eq!(p.velocity_y, 0);
    p.update(Millis(1000), &map);
    // bottom offset of the vertical probe is 2 + 30 = 32
    assert_eq!(p.y, 11 * 32 - 32);
    assert_eq!(p.velocity_y, 0);
    assert!(p.on_ground);
}

#[test]
fn wall_clamp_right() {
    // Moving right into a wall at column 10 (left edge 320) clamps x to
    // 320 - right offset of the horizontal probe (26).
    let map = build_map(60, 40, Some(11), &[(9, 10), (10, 10), (11, 10)]);
    let mut p = Player::new(0, 288, PhysicsConfig::default());
    p.update(Millis(1000), &map);
    assert!(p.on_ground);
    p.velocity_x = 16240;
    p.start_moving_right();
    p.update(Millis(5000), &map);
    assert_eq!(p.x, 10 * 32 - 26);
    assert_eq!(p.velocity_x, 0);
}

#[test]
fn wall_clamp_left() {
    // The exact mirror: moving left into a wall at column 10 clamps x to
    // (10 + 1) * 32 - left offset of the horizontal probe (6).
    let map = build_map(60, 40, Some(11), &[(9, 10), (10, 10), (11, 10)]);
    let mut p = Player::new(400, 288, PhysicsConfig::default());
    p.update(Millis(1000), &map);
    assert!(p.on_ground);
    p.velocity_x = -16240;
    p.start_moving_left();
    p.update(Millis(1000), &map);
    assert_eq!(p.x, 11 * 32 - 6);
    assert_eq!(p.velocity_x, 0);
}

#[test]
fn zero_time_idempotence() {
    // update(0) leaves position, velocity and motion state unchanged.
    let (mut p, map) = resting_player();
    p.start_moving_right();
    p.stop_moving();
    let (x, y) = (p.x, p.y);
    let (vx, vy) = (p.velocity_x, p.velocity_y);
    let ground = p.on_ground;
    let state = p.get_sprite_state();
    p.update(Millis(0), &map);
    assert_eq!(p.x, x);
    assert_eq!(p.y, y);
    assert_eq!(p.velocity_x, vx);
    assert_eq!(p.velocity_y, vy);
    assert_eq!(p.on_ground, ground);
    assert_eq!(p.get_sprite_state(), state);
}

#[test]
fn negative_elapsed_time_is_zero() {
    // A degenerate negative frame time is clamped to zero elapsed time.
    let (mut p, map) = resting_player();
    let (x, y, vx, vy) = (p.x, p.y, p.velocity_x, p.velocity_y);
    p.update(Millis(-50), &map);
    assert_eq!((p.x, p.y, p.velocity_x, p.velocity_y), (x, y, vx, vy));
    assert!(p.on_ground);
}

#[test]
fn friction_monotone_decay() {
    // With no intent while grounded, |vx| decays by friction * t each step,
    // never flips sign, reaches exactly zero and stays there.
    let (mut p, map) = resting_player();
    p.stop_moving();
    p.velocity_x = 16240;
    let expected = [11140, 6040, 940, 0, 0];
    for &e in expected.iter() {
        p.update(Millis(100), &map);
        assert_eq!(p.velocity_x, e);
        assert!(p.velocity_x >= 0);
    }
}

#[test]
fn friction_monotone_decay_negative() {
    let (mut p, map) = resting_player();
    p.stop_moving();
    p.x = 600;
    p.velocity_x = -16240;
    let expected = [-11140, -6040, -940, 0, 0];
    for &e in expected.iter() {
        p.update(Millis(100), &map);
        assert_eq!(p.velocity_x, e);
        assert!(p.velocity_x <= 0);
    }
}

#[test]
fn momentum_preserved_in_air() {
    // With no intent while airborne, horizontal velocity is unchanged.
    let map = build_map(60, 40, None, &[]);
    let mut p = Player::new(100, 100, PhysicsConfig::default());
    p.velocity_x = 12345;
    p.update(Millis(50), &map);
    assert_eq!(p.velocity_x, 12345);
    assert!(!p.on_ground);
}

#[test]
fn jump_impulse_determinism() {
    // start_jump() while grounded sets vy to exactly -JUMP_SPEED, and the
    // actor leaves the ground within one update of (sufficient) positive
    // elapsed time.
    let (mut p, map) = resting_player();
    p.start_jump();
    assert_eq!(p.velocity_y, -25600);
    assert!(p.jump_active);
    assert!(p.on_ground);
    p.update(Millis(10), &map);
    assert!(!p.on_ground);
    assert_eq!(p.velocity_y, -25600 + 32 * 10);
    assert_eq!(p.y, 318);
    assert_eq!(p.get_sprite_state().motion_type(), MotionType::Jumping);
}

#[test]
fn jump_in_air_gives_no_impulse() {
    // A jump start while airborne never re-launches; it only re-arms the
    // reduced gravity.
    let map = build_map(60, 40, None, &[]);
    let mut p = Player::new(100, 100, PhysicsConfig::default());
    p.velocity_y = 1000;
    p.start_jump();
    assert_eq!(p.velocity_y, 1000);
    assert!(p.jump_active);
}

#[test]
fn held_jump_rises_higher_than_released() {
    // Variable jump height: while the jump is held and the actor ascends,
    // the reduced jump gravity applies; releasing restores full gravity.
    let (mut held, map) = resting_player();
    let (mut released, _) = resting_player();
    held.start_jump();
    released.start_jump();
    released.stop_jump();
    held.update(Millis(100), &map);
    released.update(Millis(100), &map);
    assert_eq!(held.velocity_y, -25600 + 32 * 100);
    assert_eq!(released.velocity_y, -25600 + 80 * 100);
    assert!(held.y < released.y);
}

#[test]
fn floor_rest_scenario() {
    // Actor at (0, 288) above a floor at row 11 (floor top 352): repeated
    // update(1000) calls must end resting with the probe bottom on the
    // floor and on_ground true, never tunneling through despite the large
    // per-call elapsed time.
    let map = floor_map();
    let mut p = Player::new(0, 288, PhysicsConfig::default());
    for _ in 0..10 {
        p.update(Millis(1000), &map);
        assert!(p.y + 32 <= 352);
    }
    assert_eq!(p.y + 32, 352);
    assert!(p.on_ground);
    assert_eq!(p.get_sprite_state().motion_type(), MotionType::Standing);
}

#[test]
fn wall_approach_granularity() {
    // Moving right at MAX_SPEED_X toward a wall at column 10 (left edge
    // 320): x never exceeds 320 - 26, and one large step converges to the
    // same clamp as many small steps.
    let wall = [(9, 10), (10, 10), (11, 10)];
    let map = build_map(60, 40, Some(11), &wall);

    let mut big = Player::new(0, 288, PhysicsConfig::default());
    big.update(Millis(1000), &map);
    big.velocity_x = 16240;
    big.start_moving_right();
    big.update(Millis(5000), &map);
    assert_eq!(big.x, 294);

    let mut small = Player::new(0, 288, PhysicsConfig::default());
    small.update(Millis(1000), &map);
    small.velocity_x = 16240;
    small.start_moving_right();
    for _ in 0..300 {
        small.update(Millis(20), &map);
        assert!(small.x <= 294);
    }
    assert_eq!(small.x, 294);
    assert_eq!(small.x, big.x);
}

#[test]
fn ceiling_clamp() {
    // Rising into a ceiling at row 5 snaps y so the probe's top edge meets
    // the row bottom (6 * 32 - top offset 2) and zeroes the velocity.
    let mut wall = Vec::new();
    for c in 0..40 {
        wall.push((5usize, c as usize));
    }
    let map = build_map(60, 40, Some(11), &wall);
    let mut p = Player::new(100, 200, PhysicsConfig::default());
    p.velocity_y = -25600;
    p.jump_active = true;
    p.update(Millis(100), &map);
    assert_eq!(p.y, 6 * 32 - 2);
    assert_eq!(p.velocity_y, 0);
    assert!(!p.on_ground);
}

#[test]
fn fall_speed_is_capped() {
    // Gravity never accelerates past the fall speed cap.
    let map = build_map(60, 40, None, &[]);
    let mut p = Player::new(100, 0, PhysicsConfig::default());
    p.update(Millis(1000), &map);
    assert_eq!(p.velocity_y, 30700);
    p.update(Millis(3), &map);
    assert_eq!(p.velocity_y, 30700);
}

#[test]
fn walk_accelerates_to_cap() {
    // From rest, walking accelerates by 85 subpixels/ms/ms up to the cap.
    let (mut p, map) = resting_player();
    p.start_moving_right();
    p.update(Millis(100), &map);
    assert_eq!(p.velocity_x, 8500);
    p.update(Millis(100), &map);
    assert_eq!(p.velocity_x, 16240);
}

#[test]
fn air_acceleration_is_smaller() {
    // Airborne, the same intent accelerates by only 32 subpixels/ms/ms.
    let map = build_map(60, 40, None, &[]);
    let mut p = Player::new(100, 100, PhysicsConfig::default());
    p.start_moving_right();
    p.update(Millis(100), &map);
    assert_eq!(p.velocity_x, 3200);
}
