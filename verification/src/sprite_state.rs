//! The motion-state classifier and the sprite-state key.
//!
//! The motion state is always a pure function of the actor's physical
//! condition, never stored as independent truth.  Together with the two
//! facing directions it keys the finite table of animation clips.

use vstd::prelude::*;

verus! {

/// Discrete animation-relevant classification of the actor's condition.
#[derive(Clone, Copy, Debug, PartialEq, Eq, Structural, Hash)]
pub enum MotionType {
    Standing,
    Walking,
    Jumping,
    Falling,
    Interacting,
}

/// Which way the actor faces horizontally.
#[derive(Clone, Copy, Debug, PartialEq, Eq, Structural, Hash)]
pub enum HorizontalFacing {
    Left,
    Right,
}

/// Which way the actor looks vertically.
#[derive(Clone, Copy, Debug, PartialEq, Eq, Structural, Hash)]
pub enum VerticalFacing {
    Up,
    Down,
    Horizontal,
}

/// Number of distinct sprite states: every combination of motion type and
/// the two facings.
pub const SPRITE_STATE_COUNT: usize = 30;

/// Rank of each motion type in its declaration order.
pub open spec fn motion_rank(m: MotionType) -> int {
    match m {
        MotionType::Standing => 0,
        MotionType::Walking => 1,
        MotionType::Jumping => 2,
        MotionType::Falling => 3,
        MotionType::Interacting => 4,
    }
}

pub open spec fn horizontal_rank(f: HorizontalFacing) -> int {
    match f {
        HorizontalFacing::Left => 0,
        HorizontalFacing::Right => 1,
    }
}

pub open spec fn vertical_rank(f: VerticalFacing) -> int {
    match f {
        VerticalFacing::Up => 0,
        VerticalFacing::Down => 1,
        VerticalFacing::Horizontal => 2,
    }
}

/// The motion type of rank `i`; inverse of `motion_rank`.
pub open spec fn motion_from_rank(i: int) -> MotionType {
    if i == 0 {
        MotionType::Standing
    } else if i == 1 {
        MotionType::Walking
    } else if i == 2 {
        MotionType::Jumping
    } else if i == 3 {
        MotionType::Falling
    } else {
        MotionType::Interacting
    }
}

pub open spec fn horizontal_from_rank(i: int) -> HorizontalFacing {
    if i == 0 {
        HorizontalFacing::Left
    } else {
        HorizontalFacing::Right
    }
}

pub open spec fn vertical_from_rank(i: int) -> VerticalFacing {
    if i == 0 {
        VerticalFacing::Up
    } else if i == 1 {
        VerticalFacing::Down
    } else {
        VerticalFacing::Horizontal
    }
}

/// The motion type of rank `i`, executably.
pub fn motion_from_index(i: usize) -> (m: MotionType)
    requires
        i < 5,
    ensures
        m == motion_from_rank(i as int),
{
    if i == 0 {
        MotionType::Standing
    } else if i == 1 {
        MotionType::Walking
    } else if i == 2 {
        MotionType::Jumping
    } else if i == 3 {
        MotionType::Falling
    } else {
        MotionType::Interacting
    }
}

pub fn horizontal_from_index(i: usize) -> (f: HorizontalFacing)
    requires
        i < 2,
    ensures
        f == horizontal_from_rank(i as int),
{
    if i == 0 {
        HorizontalFacing::Left
    } else {
        HorizontalFacing::Right
    }
}

pub fn vertical_from_index(i: usize) -> (f: VerticalFacing)
    requires
        i < 3,
    ensures
        f == vertical_from_rank(i as int),
{
    if i == 0 {
        VerticalFacing::Up
    } else if i == 1 {
        VerticalFacing::Down
    } else {
        VerticalFacing::Horizontal
    }
}

/// The key of one animation clip: a motion type plus both facings.
#[derive(Clone, Copy, Debug, PartialEq, Eq, Structural, Hash)]
pub struct SpriteState {
    pub motion_type: MotionType,
    pub horizontal_facing: HorizontalFacing,
    pub vertical_facing: VerticalFacing,
}

/// Lexicographic order on sprite states: motion type first, then horizontal
/// facing, then vertical facing, each in declaration order.
pub open spec fn sprite_state_lt(a: SpriteState, b: SpriteState) -> bool {
    if a.motion_type != b.motion_type {
        motion_rank(a.motion_type) < motion_rank(b.motion_type)
    } else if a.horizontal_facing != b.horizontal_facing {
        horizontal_rank(a.horizontal_facing) < horizontal_rank(b.horizontal_facing)
    } else if a.vertical_facing != b.vertical_facing {
        vertical_rank(a.vertical_facing) < vertical_rank(b.vertical_facing)
    } else {
        false
    }
}

/// Position of a sprite state in the clip table: states are laid out in the
/// lexicographic order of `sprite_state_lt`.
pub open spec fn sprite_index_of(s: SpriteState) -> int {
    (motion_rank(s.motion_type) * 2 + horizontal_rank(s.horizontal_facing)) * 3 + vertical_rank(
        s.vertical_facing,
    )
}

/// The sprite state laid out at position `i` of the clip table; inverse of
/// `sprite_index_of`.
pub open spec fn sprite_state_at(i: int) -> SpriteState {
    SpriteState {
        motion_type: motion_from_rank(i / 6),
        horizontal_facing: horizontal_from_rank((i / 3) % 2),
        vertical_facing: vertical_from_rank(i % 3),
    }
}

/// The clip-table layout is a bijection: every sprite state sits at its own
/// index, so the table of `SPRITE_STATE_COUNT` clips covers every
/// combination exactly once.
pub proof fn lemma_sprite_index_bijective(s: SpriteState)
    ensures
        0 <= sprite_index_of(s) < SPRITE_STATE_COUNT,
        sprite_state_at(sprite_index_of(s)) == s,
{
    let m = motion_rank(s.motion_type);
    let h = horizontal_rank(s.horizontal_facing);
    let v = vertical_rank(s.vertical_facing);
    let i = (m * 2 + h) * 3 + v;
    assert(i / 6 == m && (i / 3) % 2 == h && i % 3 == v) by (nonlinear_arith)
        requires
            0 <= m <= 4,
            0 <= h <= 1,
            0 <= v <= 2,
            i == (m * 2 + h) * 3 + v,
    ;
}

impl SpriteState {
    pub fn new(
        motion_type: MotionType,
        horizontal_facing: HorizontalFacing,
        vertical_facing: VerticalFacing,
    ) -> (s: SpriteState)
        ensures
            s == (SpriteState { motion_type, horizontal_facing, vertical_facing }),
    {
        SpriteState { motion_type, horizontal_facing, vertical_facing }
    }

    pub fn motion_type(&self) -> (m: MotionType)
        ensures
            m == self.motion_type,
    {
        self.motion_type
    }

    pub fn horizontal_facing(&self) -> (f: HorizontalFacing)
        ensures
            f == self.horizontal_facing,
    {
        self.horizontal_facing
    }

    pub fn vertical_facing(&self) -> (f: VerticalFacing)
        ensures
            f == self.vertical_facing,
    {
        self.vertical_facing
    }

    /// Strict lexicographic comparison of two sprite states.
    pub fn lt(&self, rhs: &SpriteState) -> (r: bool)
        ensures
            r == sprite_state_lt(*self, *rhs),
    {
        if !matches_motion(self.motion_type, rhs.motion_type) {
            return motion_rank_exec(self.motion_type) < motion_rank_exec(rhs.motion_type);
        }
        if !matches_horizontal(self.horizontal_facing, rhs.horizontal_facing) {
            return horizontal_rank_exec(self.horizontal_facing) < horizontal_rank_exec(
                rhs.horizontal_facing,
            );
        }
        if !matches_vertical(self.vertical_facing, rhs.vertical_facing) {
            return vertical_rank_exec(self.vertical_facing) < vertical_rank_exec(
                rhs.vertical_facing,
            );
        }
        false
    }
}

fn matches_motion(a: MotionType, b: MotionType) -> (r: bool)
    ensures
        r == (a == b),
{
    a == b
}

fn matches_horizontal(a: HorizontalFacing, b: HorizontalFacing) -> (r: bool)
    ensures
        r == (a == b),
{
    a == b
}

fn matches_vertical(a: VerticalFacing, b: VerticalFacing) -> (r: bool)
    ensures
        r == (a == b),
{
    a == b
}

fn motion_rank_exec(m: MotionType) -> (r: u8)
    ensures
        r == motion_rank(m),
{
    match m {
        MotionType::Standing => 0,
        MotionType::Walking => 1,
        MotionType::Jumping => 2,
        MotionType::Falling => 3,
        MotionType::Interacting => 4,
    }
}

fn horizontal_rank_exec(f: HorizontalFacing) -> (r: u8)
    ensures
        r == horizontal_rank(f),
{
    match f {
        HorizontalFacing::Left => 0,
        HorizontalFacing::Right => 1,
    }
}

fn vertical_rank_exec(f: VerticalFacing) -> (r: u8)
    ensures
        r == vertical_rank(f),
{
    match f {
        VerticalFacing::Up => 0,
        VerticalFacing::Down => 1,
        VerticalFacing::Horizontal => 2,
    }
}

/// The motion-state classifier as a pure specification: interaction
/// overrides everything; on the ground the actor walks exactly when it has
/// horizontal intent; in the air it jumps while rising and falls otherwise.
pub open spec fn classify_spec(
    on_ground: bool,
    interacting: bool,
    accel_dir: int,
    vy: int,
) -> MotionType {
    if interacting {
        MotionType::Interacting
    } else if on_ground {
        if accel_dir == 0 {
            MotionType::Standing
        } else {
            MotionType::Walking
        }
    } else if vy < 0 {
        MotionType::Jumping
    } else {
        MotionType::Falling
    }
}

/// Executable motion-state classifier.
pub fn classify(on_ground: bool, interacting: bool, accel_dir: i8, velocity_y: i64) -> (m:
    MotionType)
    ensures
        m == classify_spec(on_ground, interacting, accel_dir as int, velocity_y as int),
{
    if interacting {
        MotionType::Interacting
    } else if on_ground {
        if accel_dir == 0 {
            MotionType::Standing
        } else {
            MotionType::Walking
        }
    } else if velocity_y < 0 {
        MotionType::Jumping
    } else {
        MotionType::Falling
    }
}

/// Executable clip-table index of a sprite state.
pub fn sprite_index(s: &SpriteState) -> (i: usize)
    ensures
        i == sprite_index_of(*s),
        i < SPRITE_STATE_COUNT,
{
    proof {
        lemma_sprite_index_bijective(*s);
    }
    ((motion_rank_exec(s.motion_type) as usize * 2 + horizontal_rank_exec(s.horizontal_facing)
        as usize) * 3 + vertical_rank_exec(s.vertical_facing) as usize)
}

} // verus!
