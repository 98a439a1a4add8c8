//! The actor: position, velocity, intent flags, jump state and the two
//! collision probe rectangles, advanced once per frame against the tile
//! grid.
//!
//! Each frame runs the kinematic integrator and the collision resolver for
//! the horizontal axis, then for the vertical axis, and advances the
//! animation clip of the current sprite state.  Ground contact is
//! recomputed from the vertical pass alone on every frame and is never
//! sticky.

use vstd::arithmetic::div_mod::lemma_basic_div;
use vstd::prelude::*;

use crate::MAX_ELAPSED_MS;
use crate::TILE_SIZE;
use crate::collision::bottom_probe;
use crate::collision::first_wall;
use crate::collision::get_collision_info;
use crate::collision::left_probe;
use crate::collision::lemma_first_wall_in_range;
use crate::collision::resolve_x_first;
use crate::collision::resolve_x_model;
use crate::collision::resolve_y_first;
use crate::collision::resolve_y_model;
use crate::collision::right_probe;
use crate::collision::top_probe;
use crate::geometry::COORD_LIMIT;
use crate::geometry::Rect;
use crate::geometry::rect_edges;
use crate::map::TileMap;
use crate::motion::PhysicsConfig;
use crate::motion::integrate_velocity_x;
use crate::motion::integrate_velocity_y;
use crate::motion::movement_delta;
use crate::motion::next_velocity_x;
use crate::motion::next_velocity_y;
use crate::motion::pixels_of;
use crate::sprite::AnimatedSprite;
use crate::sprite::anim_step;
use crate::sprite_state::HorizontalFacing;
use crate::sprite_state::MotionType;
use crate::sprite_state::SPRITE_STATE_COUNT;
use crate::sprite_state::SpriteState;
use crate::sprite_state::VerticalFacing;
use crate::sprite_state::classify;
use crate::sprite_state::classify_spec;
use crate::sprite_state::horizontal_from_index;
use crate::sprite_state::lemma_sprite_index_bijective;
use crate::sprite_state::motion_from_index;
use crate::sprite_state::sprite_index;
use crate::sprite_state::sprite_index_of;
use crate::sprite_state::sprite_state_at;
use crate::sprite_state::vertical_from_index;
use crate::units::Millis;

verus! {

// Sprite sheet layout of the actor's clips.
pub const CHARACTER_FRAME: i64 = 0;

pub const WALK_FRAME: i64 = 0;

pub const STAND_FRAME: i64 = 0;

pub const JUMP_FRAME: i64 = 1;

pub const FALL_FRAME: i64 = 2;

pub const UP_FRAME_OFFSET: i64 = 3;

pub const DOWN_FRAME: i64 = 6;

pub const BACK_FRAME: i64 = 7;

pub const WALK_FPS: u32 = 15;

pub const NUM_WALK_FRAMES: u32 = 3;

/// Frame column of a motion type on the sprite sheet.
pub open spec fn frame_of(m: MotionType) -> int {
    match m {
        MotionType::Walking => WALK_FRAME as int,
        MotionType::Interacting => BACK_FRAME as int,
        MotionType::Standing => STAND_FRAME as int,
        MotionType::Jumping => JUMP_FRAME as int,
        MotionType::Falling => FALL_FRAME as int,
    }
}

/// Horizontal start of a sprite state's first frame on the sheet.
pub open spec fn source_x_of(s: SpriteState) -> int {
    if s.vertical_facing == VerticalFacing::Down && (s.motion_type == MotionType::Jumping
        || s.motion_type == MotionType::Falling) {
        DOWN_FRAME * TILE_SIZE
    } else {
        frame_of(s.motion_type) * TILE_SIZE + if s.vertical_facing == VerticalFacing::Up {
            UP_FRAME_OFFSET * TILE_SIZE
        } else {
            0
        }
    }
}

/// Vertical start of a sprite state's frames on the sheet: one sheet row
/// per horizontal facing.
pub open spec fn source_y_of(s: SpriteState) -> int {
    (CHARACTER_FRAME + if s.horizontal_facing == HorizontalFacing::Right {
        1int
    } else {
        0int
    }) * TILE_SIZE
}

/// The animation clip registered for a sprite state: the walking states
/// animate, every other state shows a single frame.
pub open spec fn clip_of(s: SpriteState) -> AnimatedSprite {
    if s.motion_type == MotionType::Walking {
        AnimatedSprite {
            source_rect: Rect {
                x: source_x_of(s) as i64,
                y: source_y_of(s) as i64,
                width: TILE_SIZE,
                height: TILE_SIZE,
            },
            frame_time: Millis((1000u32 / WALK_FPS) as i64),
            num_frames: NUM_WALK_FRAMES,
            current_frame: 0,
            since_last_frame_change: Millis(0),
        }
    } else {
        AnimatedSprite {
            source_rect: Rect {
                x: source_x_of(s) as i64,
                y: source_y_of(s) as i64,
                width: TILE_SIZE,
                height: TILE_SIZE,
            },
            frame_time: Millis(1000),
            num_frames: 1,
            current_frame: 0,
            since_last_frame_change: Millis(0),
        }
    }
}

/// A collision probe rectangle is small and non-negative; the bound keeps
/// probe-edge arithmetic far from the coordinate limit.
pub open spec fn probe_wf(r: Rect) -> bool {
    &&& 0 <= r.x <= 65536
    &&& 0 <= r.y <= 65536
    &&& 0 <= r.width <= 65536
    &&& 0 <= r.height <= 65536
}

/// Negative elapsed time is treated as zero elapsed time.
pub open spec fn elapsed_clamped(t: int) -> int {
    if t < 0 {
        0
    } else {
        t
    }
}

/// The player: the actor of the simulation.
pub struct Player {
    /// The clip table: one animation clip per sprite state, laid out at
    /// `sprite_index_of` positions.
    pub sprites: Vec<AnimatedSprite>,
    /// Top-left anchor in pixels.
    pub x: i64,
    pub y: i64,
    /// Horizontal movement intent: negative, zero or positive.
    pub acceleration_x: i8,
    /// Velocity in subpixels per millisecond.
    pub velocity_x: i64,
    pub velocity_y: i64,
    pub horizontal_facing: HorizontalFacing,
    pub vertical_facing: VerticalFacing,
    /// Whether a jump is being held, reducing gravity while ascending.
    pub jump_active: bool,
    /// Whether the actor is in the looking-down idle pose; set only on a
    /// look-down transition while grounded, cleared by any other intent.
    pub interacting: bool,
    /// Ground contact as reported by the most recent vertical resolution.
    pub on_ground: bool,
    /// Probe rectangle for horizontal wall contact, relative to the anchor.
    pub collision_x: Rect,
    /// Probe rectangle for floor and ceiling contact, relative to the
    /// anchor.
    pub collision_y: Rect,
    /// The immutable physics tuning.
    pub config: PhysicsConfig,
}

impl Player {
    pub open spec fn wf(self) -> bool {
        &&& self.config.wf()
        &&& -self.config.max_speed_x <= self.velocity_x <= self.config.max_speed_x
        &&& -self.config.jump_speed <= self.velocity_y <= self.config.max_speed_y
        &&& probe_wf(self.collision_x)
        &&& probe_wf(self.collision_y)
        &&& self.sprites@.len() == SPRITE_STATE_COUNT
        &&& forall|i: int|
            0 <= i < SPRITE_STATE_COUNT ==> (#[trigger] self.sprites@[i]).wf()
    }

    /// The sprite state the actor currently shows: the classified motion
    /// type plus both facings.
    pub open spec fn sprite_state_spec(self) -> SpriteState {
        SpriteState {
            motion_type: classify_spec(
                self.on_ground,
                self.interacting,
                self.acceleration_x as int,
                self.velocity_y as int,
            ),
            horizontal_facing: self.horizontal_facing,
            vertical_facing: self.vertical_facing,
        }
    }

    /// Horizontal velocity after integrating `t` milliseconds.
    pub open spec fn vx_after(self, t: int) -> int {
        next_velocity_x(
            self.config,
            self.on_ground,
            self.acceleration_x as int,
            self.velocity_x as int,
            t,
        )
    }

    /// Whole-pixel horizontal delta for one step of `t` milliseconds.
    pub open spec fn dx_after(self, t: int) -> int {
        pixels_of(self.vx_after(t) * t)
    }

    /// Vertical velocity after integrating `t` milliseconds.
    pub open spec fn vy_after(self, t: int) -> int {
        next_velocity_y(self.config, self.jump_active, self.velocity_y as int, t)
    }

    /// Whole-pixel vertical delta for one step of `t` milliseconds.
    pub open spec fn dy_after(self, t: int) -> int {
        pixels_of(self.vy_after(t) * t)
    }

    /// Position and velocity after the horizontal pass of one step.
    pub open spec fn x_resolved(self, map: TileMap, t: int) -> (int, int) {
        resolve_x_model(
            map,
            self.collision_x,
            self.x as int,
            self.y as int,
            self.vx_after(t),
            self.dx_after(t),
        )
    }

    /// Position, velocity and ground contact after the vertical pass of one
    /// step, which runs at the horizontally resolved position.
    pub open spec fn y_resolved(self, map: TileMap, t: int) -> (int, int, bool) {
        resolve_y_model(
            map,
            self.collision_y,
            self.x_resolved(map, t).0,
            self.y as int,
            self.vy_after(t),
            self.dy_after(t),
        )
    }

    /// Both probes of the horizontal pass stay inside the grid.  Callers
    /// must keep the actor where this holds: an out-of-grid probe is a
    /// caller error, exactly as an out-of-bounds tile query is.
    pub open spec fn x_ok(self, map: TileMap, t: int) -> bool {
        let delta = self.dx_after(t);
        let e1 = if delta > 0 {
            right_probe(self.x as int, self.y as int, self.collision_x, delta)
        } else {
            left_probe(self.x as int, self.y as int, self.collision_x, delta)
        };
        let x1 = resolve_x_first(
            map,
            self.collision_x,
            self.x as int,
            self.y as int,
            self.vx_after(t),
            delta,
        ).0;
        let e2 = if delta > 0 {
            left_probe(x1, self.y as int, self.collision_x, 0)
        } else {
            right_probe(x1, self.y as int, self.collision_x, 0)
        };
        map.edges_in_grid(e1) && map.edges_in_grid(e2)
    }

    /// Both probes of a vertical pass run from the current position stay
    /// inside the grid.
    pub open spec fn y_pass_ok(self, map: TileMap, t: int) -> bool {
        let delta = self.dy_after(t);
        let e1 = if delta > 0 {
            bottom_probe(self.x as int, self.y as int, self.collision_y, delta)
        } else {
            top_probe(self.x as int, self.y as int, self.collision_y, delta)
        };
        let y1 = resolve_y_first(
            map,
            self.collision_y,
            self.x as int,
            self.y as int,
            self.vy_after(t),
            delta,
        ).0;
        let e2 = if delta > 0 {
            top_probe(self.x as int, y1, self.collision_y, 0)
        } else {
            bottom_probe(self.x as int, y1, self.collision_y, 0)
        };
        map.edges_in_grid(e1) && map.edges_in_grid(e2)
    }

    /// Every probe of one full step stays inside the grid; the vertical
    /// probes are taken at the horizontally resolved position.
    pub open spec fn step_ok(self, map: TileMap, t: int) -> bool {
        let x2 = self.x_resolved(map, t).0;
        let delta = self.dy_after(t);
        let e1 = if delta > 0 {
            bottom_probe(x2, self.y as int, self.collision_y, delta)
        } else {
            top_probe(x2, self.y as int, self.collision_y, delta)
        };
        let y1 = resolve_y_first(map, self.collision_y, x2, self.y as int, self.vy_after(t), delta).0;
        let e2 = if delta > 0 {
            top_probe(x2, y1, self.collision_y, 0)
        } else {
            bottom_probe(x2, y1, self.collision_y, 0)
        };
        self.x_ok(map, t) && map.edges_in_grid(e1) && map.edges_in_grid(e2)
    }

    /// A new actor at `(x, y)` with zero velocity, no intent, facing left
    /// and level, airborne until its first vertical resolution, with the
    /// full clip table registered.
    pub fn new(x: i64, y: i64, config: PhysicsConfig) -> (p: Player)
        requires
            config.wf(),
        ensures
            p.x == x,
            p.y == y,
            p.acceleration_x == 0,
            p.velocity_x == 0,
            p.velocity_y == 0,
            p.horizontal_facing == HorizontalFacing::Left,
            p.vertical_facing == VerticalFacing::Horizontal,
            p.jump_active == false,
            p.interacting == false,
            p.on_ground == false,
            p.collision_x == (Rect { x: 6, y: 10, width: 20, height: 12 }),
            p.collision_y == (Rect { x: 10, y: 2, width: 12, height: 30 }),
            p.config == config,
            forall|i: int|
                0 <= i < SPRITE_STATE_COUNT ==> p.sprites@[i] == clip_of(sprite_state_at(i)),
            p.wf(),
    {
        Player {
            sprites: initialize_sprites(),
            x,
            y,
            acceleration_x: 0,
            velocity_x: 0,
            velocity_y: 0,
            horizontal_facing: HorizontalFacing::Left,
            vertical_facing: VerticalFacing::Horizontal,
            jump_active: false,
            interacting: false,
            on_ground: false,
            collision_x: Rect::new(6, 10, 20, 12),
            collision_y: Rect::new(10, 2, 12, 30),
            config,
        }
    }

    pub fn start_moving_left(&mut self)
        requires
            old(self).wf(),
        ensures
            *final(self) == (Player {
                acceleration_x: -1i8,
                horizontal_facing: HorizontalFacing::Left,
                interacting: false,
                ..*old(self)
            }),
            final(self).wf(),
    {
        self.acceleration_x = -1;
        self.horizontal_facing = HorizontalFacing::Left;
        self.interacting = false;
    }

    pub fn start_moving_right(&mut self)
        requires
            old(self).wf(),
        ensures
            *final(self) == (Player {
                acceleration_x: 1i8,
                horizontal_facing: HorizontalFacing::Right,
                interacting: false,
                ..*old(self)
            }),
            final(self).wf(),
    {
        self.acceleration_x = 1;
        self.horizontal_facing = HorizontalFacing::Right;
        self.interacting = false;
    }

    pub fn stop_moving(&mut self)
        requires
            old(self).wf(),
        ensures
            *final(self) == (Player { acceleration_x: 0i8, ..*old(self) }),
            final(self).wf(),
    {
        self.acceleration_x = 0;
    }

    pub fn look_up(&mut self)
        requires
            old(self).wf(),
        ensures
            *final(self) == (Player {
                vertical_facing: VerticalFacing::Up,
                interacting: false,
                ..*old(self)
            }),
            final(self).wf(),
    {
        self.vertical_facing = VerticalFacing::Up;
        self.interacting = false;
    }

    /// Look down; on the transition while grounded this also enters the
    /// interacting idle pose.  Looking down again changes nothing.
    pub fn look_down(&mut self)
        requires
            old(self).wf(),
        ensures
            old(self).vertical_facing == VerticalFacing::Down ==> *final(self) == *old(self),
            old(self).vertical_facing != VerticalFacing::Down ==> *final(self) == (Player {
                vertical_facing: VerticalFacing::Down,
                interacting: old(self).on_ground,
                ..*old(self)
            }),
            final(self).wf(),
    {
        if matches_vertical_down(self.vertical_facing) {
            return ;
        }
        self.vertical_facing = VerticalFacing::Down;
        self.interacting = self.on_ground;
    }

    pub fn look_horizontal(&mut self)
        requires
            old(self).wf(),
        ensures
            *final(self) == (Player { vertical_facing: VerticalFacing::Horizontal, ..*old(self) }),
            final(self).wf(),
    {
        self.vertical_facing = VerticalFacing::Horizontal;
    }

    /// Start a jump.  On the ground this launches with the exact jump
    /// impulse `-jump_speed`; in the air it only re-arms the reduced jump
    /// gravity, which has an effect only while still ascending.
    pub fn start_jump(&mut self)
        requires
            old(self).wf(),
        ensures
            old(self).on_ground ==> *final(self) == (Player {
                jump_active: true,
                interacting: false,
                velocity_y: (-old(self).config.jump_speed) as i64,
                ..*old(self)
            }),
            !old(self).on_ground ==> *final(self) == (Player {
                jump_active: true,
                interacting: false,
                ..*old(self)
            }),
            final(self).wf(),
    {
        self.jump_active = true;
        self.interacting = false;
        if self.on_ground {
            self.velocity_y = -self.config.jump_speed;
        }
    }

    /// Release the jump: clears the held-jump flag, which restores full
    /// gravity and thereby shortens a jump released early.
    pub fn stop_jump(&mut self)
        requires
            old(self).wf(),
        ensures
            *final(self) == (Player { jump_active: false, ..*old(self) }),
            final(self).wf(),
    {
        self.jump_active = false;
    }

    pub fn get_sprite_state(&self) -> (s: SpriteState)
        ensures
            s == self.sprite_state_spec(),
    {
        SpriteState::new(
            classify(self.on_ground, self.interacting, self.acceleration_x, self.velocity_y),
            self.horizontal_facing,
            self.vertical_facing,
        )
    }

    /// The clip the actor currently shows, for the rendering collaborator.
    pub fn current_sprite(&self) -> (clip: &AnimatedSprite)
        requires
            self.wf(),
        ensures
            *clip == self.sprites@[sprite_index_of(self.sprite_state_spec())],
    {
        let ss = self.get_sprite_state();
        let idx = sprite_index(&ss);
        &self.sprites[idx]
    }

    /// One simulation step: advance the current clip, then integrate and
    /// resolve the horizontal axis, then the vertical axis.  Negative
    /// elapsed time counts as zero.
    pub fn update(&mut self, elapsed_time: Millis, map: &TileMap)
        requires
            old(self).wf(),
            map.wf(),
            elapsed_time.0 <= MAX_ELAPSED_MS,
            old(self).step_ok(*map, elapsed_clamped(elapsed_time.0 as int)),
        ensures
            final(self).wf(),
            ({
                let t = elapsed_clamped(elapsed_time.0 as int);
                let idx = sprite_index_of(old(self).sprite_state_spec());
                &&& final(self).x == old(self).x_resolved(*map, t).0
                &&& final(self).velocity_x == old(self).x_resolved(*map, t).1
                &&& final(self).y == old(self).y_resolved(*map, t).0
                &&& final(self).velocity_y == old(self).y_resolved(*map, t).1
                &&& final(self).on_ground == old(self).y_resolved(*map, t).2
                &&& final(self).sprites@ == old(self).sprites@.update(
                    idx,
                    anim_step(old(self).sprites@[idx], t),
                )
            }),
            final(self).acceleration_x == old(self).acceleration_x,
            final(self).horizontal_facing == old(self).horizontal_facing,
            final(self).vertical_facing == old(self).vertical_facing,
            final(self).jump_active == old(self).jump_active,
            final(self).interacting == old(self).interacting,
            final(self).collision_x == old(self).collision_x,
            final(self).collision_y == old(self).collision_y,
            final(self).config == old(self).config,
    {
        let t = if elapsed_time.0 < 0 {
            0
        } else {
            elapsed_time.0
        };
        let ss = self.get_sprite_state();
        let idx = sprite_index(&ss);
        proof {
            lemma_sprite_index_bijective(old(self).sprite_state_spec());
        }
        let mut clip = self.sprites[idx];
        clip.update(Millis(t));
        self.sprites.set(idx, clip);
        self.update_x(t, map);
        self.update_y(t, map);
    }

    /// Horizontal pass: integrate the velocity, then resolve the swept
    /// probe in the direction of motion and re-check the opposite side.
    fn update_x(&mut self, elapsed_time_ms: i64, map: &TileMap)
        requires
            old(self).wf(),
            map.wf(),
            0 <= elapsed_time_ms <= MAX_ELAPSED_MS,
            old(self).x_ok(*map, elapsed_time_ms as int),
        ensures
            final(self).wf(),
            *final(self) == (Player {
                x: final(self).x,
                velocity_x: final(self).velocity_x,
                ..*old(self)
            }),
            final(self).x == old(self).x_resolved(*map, elapsed_time_ms as int).0,
            final(self).velocity_x == old(self).x_resolved(*map, elapsed_time_ms as int).1,
    {
        let ghost t = elapsed_time_ms as int;
        let vx1 = integrate_velocity_x(
            &self.config,
            self.on_ground,
            self.acceleration_x,
            self.velocity_x,
            elapsed_time_ms,
        );
        let delta = movement_delta(vx1, elapsed_time_ms);
        proof {
            assert(vx1 == old(self).vx_after(t));
            assert(delta == old(self).dx_after(t));
        }
        self.velocity_x = vx1;
        if delta > 0 {
            let probe = self.right_collision(delta);
            let info = get_collision_info(map, &probe);
            if info.collided {
                proof {
                    lemma_first_wall_in_range(*map, rect_edges(probe));
                    map.lemma_query_ranges(rect_edges(probe));
                    lemma_cell_scaled_bounds(
                        map.num_cols(),
                        map.tile_size as int,
                        info.col as int,
                    );
                }
                self.x = info.col * map.tile_size - (self.collision_x.x + self.collision_x.width);
                self.velocity_x = 0;
            } else {
                self.x = self.x + delta;
            }
            let probe2 = self.left_collision(0);
            let info2 = get_collision_info(map, &probe2);
            if info2.collided {
                proof {
                    lemma_first_wall_in_range(*map, rect_edges(probe2));
                    map.lemma_query_ranges(rect_edges(probe2));
                    lemma_cell_scaled_bounds(
                        map.num_cols(),
                        map.tile_size as int,
                        info2.col as int,
                    );
                }
                self.x = (info2.col + 1) * map.tile_size - self.collision_x.x;
            }
        } else {
            let probe = self.left_collision(delta);
            let info = get_collision_info(map, &probe);
            if info.collided {
                proof {
                    lemma_first_wall_in_range(*map, rect_edges(probe));
                    map.lemma_query_ranges(rect_edges(probe));
                    lemma_cell_scaled_bounds(
                        map.num_cols(),
                        map.tile_size as int,
                        info.col as int,
                    );
                }
                self.x = (info.col + 1) * map.tile_size - self.collision_x.x;
                self.velocity_x = 0;
            } else {
                self.x = self.x + delta;
            }
            let probe2 = self.right_collision(0);
            let info2 = get_collision_info(map, &probe2);
            if info2.collided {
                proof {
                    lemma_first_wall_in_range(*map, rect_edges(probe2));
                    map.lemma_query_ranges(rect_edges(probe2));
                    lemma_cell_scaled_bounds(
                        map.num_cols(),
                        map.tile_size as int,
                        info2.col as int,
                    );
                }
                self.x = info2.col * map.tile_size - (self.collision_x.x + self.collision_x.width);
            }
        }
    }

    /// Vertical pass: integrate gravity, resolve the swept probe in the
    /// direction of motion, re-check the opposite side, and recompute
    /// ground contact.
    #[verifier::rlimit(60)]
    fn update_y(&mut self, elapsed_time_ms: i64, map: &TileMap)
        requires
            old(self).wf(),
            map.wf(),
            0 <= elapsed_time_ms <= MAX_ELAPSED_MS,
            old(self).y_pass_ok(*map, elapsed_time_ms as int),
        ensures
            final(self).wf(),
            *final(self) == (Player {
                y: final(self).y,
                velocity_y: final(self).velocity_y,
                on_ground: final(self).on_ground,
                ..*old(self)
            }),
            ({
                let r = resolve_y_model(
                    *map,
                    old(self).collision_y,
                    old(self).x as int,
                    old(self).y as int,
                    old(self).vy_after(elapsed_time_ms as int),
                    old(self).dy_after(elapsed_time_ms as int),
                );
                &&& final(self).y == r.0
                &&& final(self).velocity_y == r.1
                &&& final(self).on_ground == r.2
            }),
    {
        let ghost t = elapsed_time_ms as int;
        let vy1 = integrate_velocity_y(
            &self.config,
            self.jump_active,
            self.velocity_y,
            elapsed_time_ms,
        );
        let delta = movement_delta(vy1, elapsed_time_ms);
        proof {
            assert(vy1 == old(self).vy_after(t));
            assert(delta == old(self).dy_after(t));
        }
        self.velocity_y = vy1;
        if delta > 0 {
            let probe = self.bottom_collision(delta);
            let info = get_collision_info(map, &probe);
            self.on_ground = info.collided;
            if info.collided {
                proof {
                    lemma_first_wall_in_range(*map, rect_edges(probe));
                    map.lemma_query_ranges(rect_edges(probe));
                    lemma_cell_scaled_bounds(
                        map.num_rows(),
                        map.tile_size as int,
                        info.row as int,
                    );
                }
                self.y = info.row * map.tile_size - (self.collision_y.y + self.collision_y.height);
                self.velocity_y = 0;
            } else {
                self.y = self.y + delta;
            }
            let probe2 = self.top_collision(0);
            let info2 = get_collision_info(map, &probe2);
            if info2.collided {
                proof {
                    lemma_first_wall_in_range(*map, rect_edges(probe2));
                    map.lemma_query_ranges(rect_edges(probe2));
                    lemma_cell_scaled_bounds(
                        map.num_rows(),
                        map.tile_size as int,
                        info2.row as int,
                    );
                }
                self.y = (info2.row + 1) * map.tile_size - self.collision_y.y;
            }
        } else {
            let probe = self.top_collision(delta);
            let info = get_collision_info(map, &probe);
            if info.collided {
                proof {
                    lemma_first_wall_in_range(*map, rect_edges(probe));
                    map.lemma_query_ranges(rect_edges(probe));
                    lemma_cell_scaled_bounds(
                        map.num_rows(),
                        map.tile_size as int,
                        info.row as int,
                    );
                }
                self.y = (info.row + 1) * map.tile_size - self.collision_y.y;
                self.velocity_y = 0;
            } else {
                self.y = self.y + delta;
                self.on_ground = false;
            }
            let probe2 = self.bottom_collision(0);
            let info2 = get_collision_info(map, &probe2);
            self.on_ground = info2.collided;
            if info2.collided {
                proof {
                    lemma_first_wall_in_range(*map, rect_edges(probe2));
                    map.lemma_query_ranges(rect_edges(probe2));
                    lemma_cell_scaled_bounds(
                        map.num_rows(),
                        map.tile_size as int,
                        info2.row as int,
                    );
                }
                self.y = info2.row * map.tile_size - (self.collision_y.y + self.collision_y.height);
            }
        }
    }

    /// The probe rectangle for rightward motion by `delta`.
    fn right_collision(&self, delta: i64) -> (r: Rect)
        requires
            delta >= 0,
            probe_wf(self.collision_x),
            ({
                let e = right_probe(self.x as int, self.y as int, self.collision_x, delta as int);
                0 <= e.0 && e.2 <= COORD_LIMIT && 0 <= e.1 && e.3 <= COORD_LIMIT
            }),
        ensures
            rect_edges(r) == right_probe(self.x as int, self.y as int, self.collision_x, delta as int),
            r.wf(),
    {
        Rect::new(
            self.x + self.collision_x.x + self.collision_x.width / 2,
            self.y + self.collision_x.y,
            self.collision_x.width - self.collision_x.width / 2 + delta,
            self.collision_x.height,
        )
    }

    /// The probe rectangle for leftward motion by `delta` (non-positive).
    fn left_collision(&self, delta: i64) -> (r: Rect)
        requires
            delta <= 0,
            probe_wf(self.collision_x),
            ({
                let e = left_probe(self.x as int, self.y as int, self.collision_x, delta as int);
                0 <= e.0 && e.2 <= COORD_LIMIT && 0 <= e.1 && e.3 <= COORD_LIMIT
            }),
        ensures
            rect_edges(r) == left_probe(self.x as int, self.y as int, self.collision_x, delta as int),
            r.wf(),
    {
        Rect::new(
            self.x + self.collision_x.x + delta,
            self.y + self.collision_x.y,
            self.collision_x.width / 2 - delta,
            self.collision_x.height,
        )
    }

    /// The probe rectangle for downward motion by `delta`.
    fn bottom_collision(&self, delta: i64) -> (r: Rect)
        requires
            delta >= 0,
            probe_wf(self.collision_y),
            ({
                let e = bottom_probe(self.x as int, self.y as int, self.collision_y, delta as int);
                0 <= e.0 && e.2 <= COORD_LIMIT && 0 <= e.1 && e.3 <= COORD_LIMIT
            }),
        ensures
            rect_edges(r) == bottom_probe(self.x as int, self.y as int, self.collision_y, delta as int),
            r.wf(),
    {
        Rect::new(
            self.x + self.collision_y.x,
            self.y + self.collision_y.y + self.collision_y.height / 2,
            self.collision_y.width,
            self.collision_y.height - self.collision_y.height / 2 + delta,
        )
    }

    /// The probe rectangle for upward motion by `delta` (non-positive).
    fn top_collision(&self, delta: i64) -> (r: Rect)
        requires
            delta <= 0,
            probe_wf(self.collision_y),
            ({
                let e = top_probe(self.x as int, self.y as int, self.collision_y, delta as int);
                0 <= e.0 && e.2 <= COORD_LIMIT && 0 <= e.1 && e.3 <= COORD_LIMIT
            }),
        ensures
            rect_edges(r) == top_probe(self.x as int, self.y as int, self.collision_y, delta as int),
            r.wf(),
    {
        Rect::new(
            self.x + self.collision_y.x,
            self.y + self.collision_y.y + delta,
            self.collision_y.width,
            self.collision_y.height / 2 - delta,
        )
    }
}

impl Player {
    /// The actor rests consistently against the grid: none of the
    /// zero-delta probes overlaps a solid tile except possibly the downward
    /// one, and ground contact agrees with the downward probe, the actor
    /// sitting exactly on the reported floor row.
    pub open spec fn settled(self, map: TileMap) -> bool {
        &&& first_wall(map, left_probe(self.x as int, self.y as int, self.collision_x, 0)) is None
        &&& first_wall(map, right_probe(self.x as int, self.y as int, self.collision_x, 0)) is None
        &&& first_wall(map, top_probe(self.x as int, self.y as int, self.collision_y, 0)) is None
        &&& match first_wall(map, bottom_probe(self.x as int, self.y as int, self.collision_y, 0)) {
            Some((r, c)) => self.on_ground && self.y == r * map.tile_size - (self.collision_y.y
                + self.collision_y.height),
            None => !self.on_ground,
        }
    }
}

/// Zero-time idempotence: a step of zero elapsed milliseconds leaves a
/// settled actor exactly as it was — position, both velocities, ground
/// contact (hence the motion state) and the clip table all unchanged.
pub proof fn lemma_zero_time_idempotent(p: Player, map: TileMap)
    requires
        p.wf(),
        map.wf(),
        p.settled(map),
    ensures
        p.vx_after(0) == p.velocity_x,
        p.vy_after(0) == p.velocity_y,
        p.x_resolved(map, 0) == (p.x as int, p.velocity_x as int),
        p.y_resolved(map, 0) == (p.y as int, p.velocity_y as int, p.on_ground),
        p.sprites@.update(
            sprite_index_of(p.sprite_state_spec()),
            anim_step(p.sprites@[sprite_index_of(p.sprite_state_spec())], 0),
        ) == p.sprites@,
{
    lemma_pixels_of_zero();
    assert(p.velocity_x as int * 0 == 0);
    assert(p.velocity_y as int * 0 == 0);
    let idx = sprite_index_of(p.sprite_state_spec());
    lemma_sprite_index_bijective(p.sprite_state_spec());
    assert(anim_step(p.sprites@[idx], 0) == p.sprites@[idx]);
    assert(p.sprites@.update(idx, p.sprites@[idx]) =~= p.sprites@);
}

/// Jump impulse determinism, the liftoff half: an actor resting on the
/// ground that has just launched a jump (`velocity_y == -jump_speed`,
/// `jump_active`), with no horizontal motion, leaves the ground in one step
/// of positive elapsed time — provided the step is long enough for the
/// rounded delta to move at least one pixel upward (for very short frames
/// the delta rounds to zero and the actor, though rising, still touches the
/// floor), and the tiles it rises through are passable.
pub proof fn lemma_jump_liftoff(p: Player, map: TileMap, t: int)
    requires
        p.wf(),
        map.wf(),
        p.settled(map),
        p.on_ground,
        p.jump_active,
        p.velocity_y == -p.config.jump_speed,
        p.acceleration_x == 0,
        p.velocity_x == 0,
        0 < t <= MAX_ELAPSED_MS,
        p.dy_after(t) <= -1,
        first_wall(map, top_probe(p.x as int, p.y as int, p.collision_y, p.dy_after(t))) is None,
        first_wall(map, bottom_probe(p.x as int, p.y + p.dy_after(t), p.collision_y, 0)) is None,
    ensures
        p.x_resolved(map, t) == (p.x as int, 0int),
        p.y_resolved(map, t).0 == p.y + p.dy_after(t),
        p.y_resolved(map, t).1 == p.vy_after(t),
        p.y_resolved(map, t).2 == false,
{
    assert(0 <= p.config.friction * t) by (nonlinear_arith)
        requires
            0 <= p.config.friction,
            0 <= t,
    ;
    assert(p.vx_after(t) == 0);
    lemma_pixels_of_zero();
    assert(0int * t == 0);
    assert(p.dx_after(t) == 0);
}

/// Rounding zero subpixels of travel gives zero pixels.
proof fn lemma_pixels_of_zero()
    ensures
        pixels_of(0) == 0,
{
    lemma_basic_div(
        crate::motion::SUBPIXELS_PER_PIXEL / 2,
        crate::motion::SUBPIXELS_PER_PIXEL as int,
    );
}

/// A cell index scaled by the tile size stays within the coordinate limit.
proof fn lemma_cell_scaled_bounds(count: int, ts: int, c: int)
    requires
        1 <= ts,
        0 <= c < count,
        count * ts <= COORD_LIMIT,
    ensures
        0 <= c * ts,
        c * ts <= COORD_LIMIT,
        (c + 1) * ts <= COORD_LIMIT,
{
    assert(0 <= c * ts && c * ts <= count * ts && (c + 1) * ts <= count * ts) by (nonlinear_arith)
        requires
            1 <= ts,
            0 <= c < count,
    ;
}

fn matches_vertical_down(f: VerticalFacing) -> (r: bool)
    ensures
        r == (f == VerticalFacing::Down),
{
    f == VerticalFacing::Down
}

/// Build the full clip table: one clip per sprite state, in table order.
#[verifier::loop_isolation(false)]
fn initialize_sprites() -> (sprites: Vec<AnimatedSprite>)
    ensures
        sprites@.len() == SPRITE_STATE_COUNT,
        forall|i: int|
            0 <= i < SPRITE_STATE_COUNT ==> #[trigger] sprites@[i] == clip_of(sprite_state_at(i))
                && sprites@[i].wf(),
{
    let mut sprites: Vec<AnimatedSprite> = Vec::new();
    let mut mi: usize = 0;
    while mi < 5
        invariant
            mi <= 5,
            sprites@.len() == mi * 6,
            forall|i: int|
                0 <= i < sprites@.len() ==> #[trigger] sprites@[i] == clip_of(sprite_state_at(i))
                    && sprites@[i].wf(),
        decreases 5 - mi,
    {
        let mut hi: usize = 0;
        while hi < 2
            invariant
                mi < 5,
                hi <= 2,
                sprites@.len() == mi * 6 + hi * 3,
                forall|i: int|
                    0 <= i < sprites@.len() ==> #[trigger] sprites@[i] == clip_of(
                        sprite_state_at(i),
                    ) && sprites@[i].wf(),
            decreases 2 - hi,
        {
            let mut vi: usize = 0;
            while vi < 3
                invariant
                    mi < 5,
                    hi < 2,
                    vi <= 3,
                    sprites@.len() == mi * 6 + hi * 3 + vi,
                    forall|i: int|
                        0 <= i < sprites@.len() ==> #[trigger] sprites@[i] == clip_of(
                            sprite_state_at(i),
                        ) && sprites@[i].wf(),
                decreases 3 - vi,
            {
                let state = SpriteState::new(
                    motion_from_index(mi),
                    horizontal_from_index(hi),
                    vertical_from_index(vi),
                );
                let clip = initialize_sprite(state);
                proof {
                    let i = mi * 6 + hi * 3 + vi;
                    assert(i / 6 == mi && (i / 3) % 2 == hi && i % 3 == vi) by (nonlinear_arith)
                        requires
                            0 <= mi < 5,
                            0 <= hi < 2,
                            0 <= vi < 3,
                            i == mi * 6 + hi * 3 + vi,
                    ;
                    assert(sprite_state_at(i as int) == state);
                }
                sprites.push(clip);
                vi = vi + 1;
            }
            hi = hi + 1;
        }
        mi = mi + 1;
    }
    sprites
}

/// Compute the clip registered for one sprite state.
fn initialize_sprite(sprite_state: SpriteState) -> (clip: AnimatedSprite)
    ensures
        clip == clip_of(sprite_state),
        clip.wf(),
{
    let tile_size = TILE_SIZE;
    let frame = match sprite_state.motion_type {
        MotionType::Walking => WALK_FRAME,
        MotionType::Interacting => BACK_FRAME,
        MotionType::Standing => STAND_FRAME,
        MotionType::Jumping => JUMP_FRAME,
        MotionType::Falling => FALL_FRAME,
    };
    let vertical_offset = match sprite_state.vertical_facing {
        VerticalFacing::Up => UP_FRAME_OFFSET * tile_size,
        _ => 0,
    };
    let source_x = frame * tile_size + vertical_offset;
    let horizontal_offset: i64 = match sprite_state.horizontal_facing {
        HorizontalFacing::Left => 0,
        HorizontalFacing::Right => 1,
    };
    let source_y = (CHARACTER_FRAME + horizontal_offset) * tile_size;
    match sprite_state.motion_type {
        MotionType::Walking => AnimatedSprite::new(
            source_x,
            source_y,
            tile_size,
            tile_size,
            WALK_FPS,
            NUM_WALK_FRAMES,
        ),
        _ => {
            let source_x = if matches_vertical_down(sprite_state.vertical_facing) {
                match sprite_state.motion_type {
                    MotionType::Jumping | MotionType::Falling => DOWN_FRAME * tile_size,
                    _ => source_x,
                }
            } else {
                source_x
            };
            AnimatedSprite::new(source_x, source_y, tile_size, tile_size, 1, 1)
        },
    }
}

} // verus!
