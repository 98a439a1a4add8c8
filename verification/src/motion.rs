//! The kinematic integrator: velocity updates per axis and the conversion
//! of velocity into a whole-pixel positional delta.
//!
//! All quantities are exact integers.  Velocities and the tuning constants
//! are measured in subpixels per millisecond (or per squared millisecond for
//! accelerations), with `SUBPIXELS_PER_PIXEL` subpixels to the pixel.  The
//! scale is chosen so that every tuning constant is an exact binary-decimal
//! fraction of a pixel, which keeps the simulation deterministic across any
//! split of frame times.

use vstd::math::abs;
use vstd::math::max;
use vstd::math::min;
use vstd::prelude::*;

use crate::MAX_ELAPSED_MS;

verus! {

/// Number of velocity subpixels in one pixel.
pub const SUBPIXELS_PER_PIXEL: i64 = 102400;

/// Upper bound on every tuning constant, in subpixels.  A machine limit
/// that keeps 64-bit integration arithmetic exact.
pub const MAX_TUNING: i64 = 10_000_000;

/// The immutable physics tuning of an actor: accelerations, speed caps,
/// friction and the jump impulse, all in subpixels.
#[derive(Clone, Copy, Debug, PartialEq, Eq, Structural)]
pub struct PhysicsConfig {
    /// Horizontal acceleration while walking on the ground, subpixels/ms^2.
    pub walking_acceleration: i64,
    /// Horizontal acceleration while airborne, subpixels/ms^2.
    pub air_acceleration: i64,
    /// Horizontal deceleration on the ground with no movement intent,
    /// subpixels/ms^2.
    pub friction: i64,
    /// Cap on horizontal speed in either direction, subpixels/ms.
    pub max_speed_x: i64,
    /// Downward acceleration while not actively jumping, subpixels/ms^2.
    pub gravity: i64,
    /// Reduced downward acceleration while a held jump is still ascending,
    /// subpixels/ms^2.
    pub jump_gravity: i64,
    /// Cap on downward speed, subpixels/ms.
    pub max_speed_y: i64,
    /// Upward launch speed of a jump from the ground, subpixels/ms.
    pub jump_speed: i64,
}

impl PhysicsConfig {
    pub open spec fn wf(self) -> bool {
        &&& 0 <= self.walking_acceleration <= MAX_TUNING
        &&& 0 <= self.air_acceleration <= MAX_TUNING
        &&& 0 <= self.friction <= MAX_TUNING
        &&& 0 <= self.max_speed_x <= MAX_TUNING
        &&& 0 <= self.gravity <= MAX_TUNING
        &&& 0 <= self.jump_gravity <= MAX_TUNING
        &&& 0 <= self.max_speed_y <= MAX_TUNING
        &&& 0 <= self.jump_speed <= MAX_TUNING
    }
}

impl Default for PhysicsConfig {
    /// The standard tuning.  Each value is an exact fraction of a pixel:
    /// for example the walking acceleration is 85/102400 px/ms^2 and the
    /// maximum walking speed 16240/102400 px/ms.
    fn default() -> (c: PhysicsConfig)
        ensures
            c == (PhysicsConfig {
                walking_acceleration: 85,
                air_acceleration: 32,
                friction: 51,
                max_speed_x: 16240,
                gravity: 80,
                jump_gravity: 32,
                max_speed_y: 30700,
                jump_speed: 25600,
            }),
            c.wf(),
    {
        PhysicsConfig {
            walking_acceleration: 85,
            air_acceleration: 32,
            friction: 51,
            max_speed_x: 16240,
            gravity: 80,
            jump_gravity: 32,
            max_speed_y: 30700,
            jump_speed: 25600,
        }
    }
}

/// Horizontal velocity after `t` milliseconds.  With movement intent the
/// velocity accelerates toward the cap for that direction; with no intent it
/// decays by friction toward zero on the ground (never crossing zero) and is
/// kept unchanged in the air.
pub open spec fn next_velocity_x(
    cfg: PhysicsConfig,
    on_ground: bool,
    accel_dir: int,
    vx: int,
    t: int,
) -> int {
    let accel = if on_ground {
        cfg.walking_acceleration as int
    } else {
        cfg.air_acceleration as int
    };
    if accel_dir < 0 {
        max(vx - accel * t, -cfg.max_speed_x as int)
    } else if accel_dir > 0 {
        min(vx + accel * t, cfg.max_speed_x as int)
    } else if on_ground {
        if vx > 0 {
            max(vx - cfg.friction * t, 0)
        } else {
            min(vx + cfg.friction * t, 0)
        }
    } else {
        vx
    }
}

/// Vertical velocity after `t` milliseconds: gravity pulls toward the fall
/// speed cap, reduced to the jump gravity while a held jump is still
/// ascending.
pub open spec fn next_velocity_y(cfg: PhysicsConfig, jump_active: bool, vy: int, t: int) -> int {
    let g = if jump_active && vy < 0 {
        cfg.jump_gravity as int
    } else {
        cfg.gravity as int
    };
    min(vy + g * t, cfg.max_speed_y as int)
}

/// Whole pixels travelled when moving at `subpixels` subpixel-milliseconds:
/// the quotient rounded to the nearest pixel, halves away from zero.
pub open spec fn pixels_of(subpixels: int) -> int {
    if subpixels >= 0 {
        (subpixels + SUBPIXELS_PER_PIXEL / 2) / (SUBPIXELS_PER_PIXEL as int)
    } else {
        -(((-subpixels) + SUBPIXELS_PER_PIXEL / 2) / (SUBPIXELS_PER_PIXEL as int))
    }
}

/// Executable horizontal integration step.
pub fn integrate_velocity_x(
    cfg: &PhysicsConfig,
    on_ground: bool,
    accel_dir: i8,
    vx: i64,
    t: i64,
) -> (v: i64)
    requires
        cfg.wf(),
        -cfg.max_speed_x <= vx <= cfg.max_speed_x,
        0 <= t <= MAX_ELAPSED_MS,
    ensures
        v == next_velocity_x(*cfg, on_ground, accel_dir as int, vx as int, t as int),
        -cfg.max_speed_x <= v <= cfg.max_speed_x,
{
    let accel = if on_ground {
        cfg.walking_acceleration
    } else {
        cfg.air_acceleration
    };
    proof {
        assert(0 <= accel * t <= MAX_TUNING * MAX_ELAPSED_MS) by (nonlinear_arith)
            requires
                0 <= accel <= MAX_TUNING,
                0 <= t <= MAX_ELAPSED_MS,
        ;
        assert(0 <= cfg.friction * t <= MAX_TUNING * MAX_ELAPSED_MS) by (nonlinear_arith)
            requires
                0 <= cfg.friction <= MAX_TUNING,
                0 <= t <= MAX_ELAPSED_MS,
        ;
    }
    if accel_dir < 0 {
        let v = vx - accel * t;
        if v < -cfg.max_speed_x {
            -cfg.max_speed_x
        } else {
            v
        }
    } else if accel_dir > 0 {
        let v = vx + accel * t;
        if v > cfg.max_speed_x {
            cfg.max_speed_x
        } else {
            v
        }
    } else if on_ground {
        if vx > 0 {
            let v = vx - cfg.friction * t;
            if v < 0 {
                0
            } else {
                v
            }
        } else {
            let v = vx + cfg.friction * t;
            if v > 0 {
                0
            } else {
                v
            }
        }
    } else {
        vx
    }
}

/// Executable vertical integration step.
pub fn integrate_velocity_y(cfg: &PhysicsConfig, jump_active: bool, vy: i64, t: i64) -> (v: i64)
    requires
        cfg.wf(),
        -cfg.jump_speed <= vy <= cfg.max_speed_y,
        0 <= t <= MAX_ELAPSED_MS,
    ensures
        v == next_velocity_y(*cfg, jump_active, vy as int, t as int),
        -cfg.jump_speed <= v <= cfg.max_speed_y,
{
    let g = if jump_active && vy < 0 {
        cfg.jump_gravity
    } else {
        cfg.gravity
    };
    proof {
        assert(0 <= g * t <= MAX_TUNING * MAX_ELAPSED_MS) by (nonlinear_arith)
            requires
                0 <= g <= MAX_TUNING,
                0 <= t <= MAX_ELAPSED_MS,
        ;
    }
    let v = vy + g * t;
    if v > cfg.max_speed_y {
        cfg.max_speed_y
    } else {
        v
    }
}

/// Executable positional delta: whole pixels travelled at velocity `v` over
/// `t` milliseconds, rounded to the nearest pixel with halves away from
/// zero.
pub fn movement_delta(v: i64, t: i64) -> (d: i64)
    requires
        -MAX_TUNING <= v <= MAX_TUNING,
        0 <= t <= MAX_ELAPSED_MS,
    ensures
        d == pixels_of(v * t),
        -0x5af3107a4000 <= d <= 0x5af3107a4000,
{
    proof {
        assert(-(MAX_TUNING * MAX_ELAPSED_MS) <= v * t <= MAX_TUNING * MAX_ELAPSED_MS)
            by (nonlinear_arith)
            requires
                -MAX_TUNING <= v <= MAX_TUNING,
                0 <= t <= MAX_ELAPSED_MS,
        ;
    }
    proof {
        assert(MAX_TUNING * MAX_ELAPSED_MS + SUBPIXELS_PER_PIXEL / 2 <= (SUBPIXELS_PER_PIXEL as int)
            * 0x5af3107a4000) by (nonlinear_arith)
            requires
                MAX_TUNING == 10_000_000,
                MAX_ELAPSED_MS == 1_000_000_000,
                SUBPIXELS_PER_PIXEL == 102400,
        ;
    }
    let product = v * t;
    if product >= 0 {
        let d = (product + SUBPIXELS_PER_PIXEL / 2) / SUBPIXELS_PER_PIXEL;
        proof {
            vstd::arithmetic::div_mod::lemma_div_pos_is_pos(
                product + SUBPIXELS_PER_PIXEL / 2,
                SUBPIXELS_PER_PIXEL as int,
            );
            vstd::arithmetic::div_mod::lemma_multiply_divide_le(
                product + SUBPIXELS_PER_PIXEL / 2,
                SUBPIXELS_PER_PIXEL as int,
                0x5af3107a4000,
            );
        }
        d
    } else {
        let d = ((-product) + SUBPIXELS_PER_PIXEL / 2) / SUBPIXELS_PER_PIXEL;
        proof {
            vstd::arithmetic::div_mod::lemma_div_pos_is_pos(
                (-product) + SUBPIXELS_PER_PIXEL / 2,
                SUBPIXELS_PER_PIXEL as int,
            );
            vstd::arithmetic::div_mod::lemma_multiply_divide_le(
                (-product) + SUBPIXELS_PER_PIXEL / 2,
                SUBPIXELS_PER_PIXEL as int,
                0x5af3107a4000,
            );
        }
        -d
    }
}

/// Friction monotonicity: with no horizontal intent while on the ground, one
/// integration step never flips the sign of the horizontal velocity and
/// shrinks its magnitude by exactly `friction * t`, stopping exactly at zero
/// and staying there.
pub proof fn lemma_friction_monotone(cfg: PhysicsConfig, vx: int, t: int)
    requires
        cfg.wf(),
        0 <= t,
    ensures
        abs(next_velocity_x(cfg, true, 0, vx, t)) == max(abs(vx) - cfg.friction * t, 0),
        vx > 0 ==> 0 <= next_velocity_x(cfg, true, 0, vx, t) <= vx,
        vx < 0 ==> vx <= next_velocity_x(cfg, true, 0, vx, t) <= 0,
        vx == 0 ==> next_velocity_x(cfg, true, 0, vx, t) == 0,
{
    assert(0 <= cfg.friction * t) by (nonlinear_arith)
        requires
            0 <= cfg.friction,
            0 <= t,
    ;
}

/// The horizontal velocity after `n` grounded integration steps of `t`
/// milliseconds each, all with no movement intent.
pub open spec fn friction_iter(cfg: PhysicsConfig, vx: int, t: int, n: nat) -> int
    decreases n,
{
    if n == 0 {
        vx
    } else {
        next_velocity_x(cfg, true, 0, friction_iter(cfg, vx, t, (n - 1) as nat), t)
    }
}

/// Friction monotonicity over repeated steps: with no horizontal intent
/// while on the ground, the velocity's sign never flips and its magnitude
/// after `n` steps is exactly `|vx| - n * friction * t`, floored at zero —
/// so it reaches exactly zero and stays there.
pub proof fn lemma_friction_iter_monotone(cfg: PhysicsConfig, vx: int, t: int, n: nat)
    requires
        cfg.wf(),
        0 <= t,
    ensures
        abs(friction_iter(cfg, vx, t, n)) == max(abs(vx) - n * (cfg.friction * t), 0),
        vx >= 0 ==> friction_iter(cfg, vx, t, n) >= 0,
        vx <= 0 ==> friction_iter(cfg, vx, t, n) <= 0,
    decreases n,
{
    assert(0 <= cfg.friction * t) by (nonlinear_arith)
        requires
            0 <= cfg.friction,
            0 <= t,
    ;
    if n == 0 {
        assert(n * (cfg.friction * t) == 0) by (nonlinear_arith)
            requires
                n == 0,
        ;
    } else {
        lemma_friction_iter_monotone(cfg, vx, t, (n - 1) as nat);
        lemma_friction_monotone(cfg, friction_iter(cfg, vx, t, (n - 1) as nat), t);
        assert(n * (cfg.friction * t) == (n - 1) * (cfg.friction * t) + cfg.friction * t)
            by (nonlinear_arith)
            requires
                n >= 1,
        ;
    }
}

} // verus!
