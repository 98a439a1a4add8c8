//! Tests for animation clips, the sprite-state key, the motion-state
//! classifier and the small unit types.

use platformer_core::backdrop::FixedBackdrop;
use platformer_core::collision_info::CollisionInfo;
use platformer_core::geometry::Rect;
use platformer_core::log::Logger;
use platformer_core::map::TileMap;
use platformer_core::motion::PhysicsConfig;
use platformer_core::player::Player;
use platformer_core::sprite::{AnimatedSprite, StaticSprite};
use platformer_core::sprite_state::{
    classify, sprite_index, HorizontalFacing, MotionType, SpriteState, VerticalFacing,
    SPRITE_STATE_COUNT,
};
use platformer_core::tile::Tile;
use platformer_core::units::{AsPixel, Millis, Pixel};

fn floor_map() -> TileMap {
    let mut tiles: Vec<Vec<Tile>> = Vec::new();
    for r in 0..60 {
        let mut row: Vec<Tile> = Vec::new();
        for _ in 0..40 {
            if r == 11 {
                row.push(Tile::from_sprite(0, platformer_core::tile::TileType::Wall));
            } else {
                row.push(Tile::new());
            }
        }
        tiles.push(row);
    }
    let mut sprites = Vec::new();
    sprites.push(AnimatedSprite::new(32, 0, 32, 32, 1, 1));
    TileMap::from_tiles(tiles, 32, sprites)
}

#[test]
fn classifier_rules() {
    // interaction overrides everything; grounded walks exactly on intent;
    // airborne jumps while rising, falls otherwise.
    assert_eq!(classify(true, true, 1, -5), MotionType::Interacting);
    assert_eq!(classify(true, false, 0, 0), MotionType::Standing);
    assert_eq!(classify(true, false, -1, 0), MotionType::Walking);
    assert_eq!(classify(true, false, 1, 0), MotionType::Walking);
    assert_eq!(classify(false, false, 0, -1), MotionType::Jumping);
    assert_eq!(classify(false, false, 0, 0), MotionType::Falling);
    assert_eq!(classify(false, false, 0, 1), MotionType::Falling);
}

#[test]
fn sprite_state_ordering() {
    let a = SpriteState::new(MotionType::Standing, HorizontalFacing::Left, VerticalFacing::Up);
    let b = SpriteState::new(MotionType::Walking, HorizontalFacing::Left, VerticalFacing::Up);
    let c = SpriteState::new(MotionType::Walking, HorizontalFacing::Right, VerticalFacing::Up);
    let d = SpriteState::new(MotionType::Walking, HorizontalFacing::Right, VerticalFacing::Down);
    assert!(a.lt(&b));
    assert!(!b.lt(&a));
    assert!(b.lt(&c));
    assert!(c.lt(&d));
    assert!(!d.lt(&d));
    assert_eq!(a.motion_type(), MotionType::Standing);
    assert_eq!(c.horizontal_facing(), HorizontalFacing::Right);
    assert_eq!(d.vertical_facing(), VerticalFacing::Down);
}

#[test]
fn sprite_indices_cover_the_table() {
    // The clip-table layout is injective over all 30 combinations.
    let motions = [
        MotionType::Standing,
        MotionType::Walking,
        MotionType::Jumping,
        MotionType::Falling,
        MotionType::Interacting,
    ];
    let horizontals = [HorizontalFacing::Left, HorizontalFacing::Right];
    let verticals = [VerticalFacing::Up, VerticalFacing::Down, VerticalFacing::Horizontal];
    let mut seen = [false; SPRITE_STATE_COUNT];
    for &m in motions.iter() {
        for &h in horizontals.iter() {
            for &v in verticals.iter() {
                let idx = sprite_index(&SpriteState::new(m, h, v));
                assert!(idx < SPRITE_STATE_COUNT);
                assert!(!seen[idx]);
                seen[idx] = true;
            }
        }
    }
    assert!(seen.iter().all(|&s| s));
}

#[test]
fn animated_sprite_advances_one_frame_per_call() {
    let mut clip = AnimatedSprite::new(0, 0, 32, 32, 15, 3);
    assert_eq!(clip.frame_time, Millis(66));
    clip.update(Millis(66));
    assert_eq!(clip.current_frame, 0);
    clip.update(Millis(1));
    assert_eq!(clip.current_frame, 1);
    assert_eq!(clip.source_rect.x, 32);
    clip.update(Millis(67));
    assert_eq!(clip.current_frame, 2);
    assert_eq!(clip.source_rect.x, 64);
    // wraps back to the first frame, even after a huge frame time
    clip.update(Millis(100000));
    assert_eq!(clip.current_frame, 0);
    assert_eq!(clip.source_rect.x, 0);
}

#[test]
fn single_frame_clip_never_changes() {
    let mut clip = AnimatedSprite::new(64, 32, 32, 32, 1, 1);
    let before = clip;
    clip.update(Millis(100000));
    assert_eq!(clip, before);
}

#[test]
fn static_sprite_holds_sheet_and_rect() {
    let s = StaticSprite::new("content/PrtCave.bmp", 32, 0, 32, 32);
    assert_eq!(s.sprite_sheet_path, "content/PrtCave.bmp");
    assert_eq!(s.source_rect, Rect::new(32, 0, 32, 32));
}

#[test]
fn player_clip_table_selects_by_state() {
    // A new actor is airborne with zero vertical velocity, so it shows the
    // falling frame; after landing it stands.
    let map = floor_map();
    let mut p = Player::new(0, 288, PhysicsConfig::default());
    assert_eq!(p.get_sprite_state().motion_type(), MotionType::Falling);
    assert_eq!(p.current_sprite().source_rect().x, 2 * 32);
    assert_eq!(p.current_sprite().source_rect().y, 0);
    p.update(Millis(1000), &map);
    assert_eq!(p.get_sprite_state().motion_type(), MotionType::Standing);
    assert_eq!(p.current_sprite().source_rect().x, 0);
    // facing right selects the second sheet row
    p.start_moving_right();
    assert_eq!(p.current_sprite().source_rect().y, 32);
    // looking up offsets the frame by three columns
    p.look_up();
    p.stop_moving();
    assert_eq!(p.current_sprite().source_rect().x, 3 * 32);
}

#[test]
fn interacting_pose_shows_the_back_frame() {
    let map = floor_map();
    let mut p = Player::new(0, 288, PhysicsConfig::default());
    p.update(Millis(1000), &map);
    assert!(p.on_ground);
    p.look_down();
    assert!(p.interacting);
    assert_eq!(p.get_sprite_state().motion_type(), MotionType::Interacting);
    assert_eq!(p.current_sprite().source_rect().x, 7 * 32);
    // looking down again changes nothing
    p.look_down();
    assert!(p.interacting);
    // any movement intent clears the pose
    p.start_moving_left();
    assert!(!p.interacting);
    assert_eq!(p.get_sprite_state().motion_type(), MotionType::Walking);
}

#[test]
fn falling_while_looking_down_shows_the_down_frame() {
    let mut p = Player::new(0, 100, PhysicsConfig::default());
    p.look_down();
    assert!(!p.interacting);
    assert_eq!(p.get_sprite_state().motion_type(), MotionType::Falling);
    assert_eq!(p.current_sprite().source_rect().x, 6 * 32);
}

#[test]
fn walking_clip_animates() {
    let map = floor_map();
    let mut p = Player::new(0, 288, PhysicsConfig::default());
    p.update(Millis(1000), &map);
    p.start_moving_right();
    let first = p.current_sprite().source_rect().x;
    p.update(Millis(67), &map);
    let second = p.current_sprite().source_rect().x;
    assert_eq!(first, 0);
    assert_eq!(second, 32);
}

#[test]
fn config_default_tuning() {
    let c = PhysicsConfig::default();
    assert_eq!(c.walking_acceleration, 85);
    assert_eq!(c.air_acceleration, 32);
    assert_eq!(c.friction, 51);
    assert_eq!(c.max_speed_x, 16240);
    assert_eq!(c.gravity, 80);
    assert_eq!(c.jump_gravity, 32);
    assert_eq!(c.max_speed_y, 30700);
    assert_eq!(c.jump_speed, 25600);
}

#[test]
fn rect_edges() {
    let r = Rect::new(10, 20, 30, 40);
    assert_eq!(r.left(), 10);
    assert_eq!(r.top(), 20);
    assert_eq!(r.right(), 40);
    assert_eq!(r.bottom(), 60);
    assert_eq!(r.width(), 30);
    assert_eq!(r.height(), 40);
}

#[test]
fn unit_wrappers() {
    let p = Pixel(7);
    assert_eq!(p.to_pixel(), Pixel(7));
    assert_eq!(Millis(250), Millis(250));
    let info = CollisionInfo::new(true, 3, 4);
    assert!(info.collided);
    assert_eq!((info.row, info.col), (3, 4));
    let logger = Logger::new("physics");
    assert_eq!(logger.module, "physics");
    let backdrop = FixedBackdrop::new("content/bkBlue.bmp");
    assert_eq!(backdrop.surface_id, "content/bkBlue.bmp");
}
