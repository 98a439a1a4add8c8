//! Sprite clips: a fixed sub-image of a sprite sheet, and an animated clip
//! that walks a row of equally sized frames.
//!
//! The clips hold only geometry and timing; loading sheets and blitting
//! pixels belongs to the rendering collaborator outside the library.

use vstd::prelude::*;

use crate::MAX_ELAPSED_MS;
use crate::TILE_SIZE;
use crate::geometry::COORD_LIMIT;
use crate::geometry::Rect;
use crate::units::Millis;

verus! {

/// A fixed sub-image of a sprite sheet, identified by the sheet's path.
#[derive(Debug)]
pub struct StaticSprite {
    pub sprite_sheet_path: String,
    pub source_rect: Rect,
}

impl StaticSprite {
    pub fn new(file_path: &str, source_x: i64, source_y: i64, width: i64, height: i64) -> (s:
        StaticSprite)
        requires
            0 <= source_x,
            0 <= source_y,
            0 <= width,
            0 <= height,
            source_x + width <= COORD_LIMIT,
            source_y + height <= COORD_LIMIT,
        ensures
            s.sprite_sheet_path@ == file_path@,
            s.source_rect == (Rect { x: source_x, y: source_y, width, height }),
            s.source_rect.wf(),
    {
        StaticSprite {
            sprite_sheet_path: String::from_str(file_path),
            source_rect: Rect::new(source_x, source_y, width, height),
        }
    }
}

/// An animated clip: a row of `num_frames` frames on a sprite sheet, each
/// `TILE_SIZE` pixels apart, advanced one frame at a time whenever more than
/// `frame_time` has accumulated since the last change.
#[derive(Clone, Copy, Debug, PartialEq, Eq, Structural)]
pub struct AnimatedSprite {
    pub source_rect: Rect,
    pub frame_time: Millis,
    pub num_frames: u32,
    pub current_frame: u32,
    pub since_last_frame_change: Millis,
}

/// One advance of an animated clip by `elapsed` milliseconds: at most a
/// single frame step per call, wrapping back to the first frame after the
/// last.
pub open spec fn anim_step(a: AnimatedSprite, elapsed: int) -> AnimatedSprite {
    if a.num_frames == 1 {
        a
    } else {
        let accumulated = a.since_last_frame_change.0 + elapsed;
        if accumulated > a.frame_time.0 {
            if a.current_frame + 1 < a.num_frames {
                AnimatedSprite {
                    source_rect: Rect { x: (a.source_rect.x + TILE_SIZE) as i64, ..a.source_rect },
                    current_frame: (a.current_frame + 1) as u32,
                    since_last_frame_change: Millis(0),
                    ..a
                }
            } else {
                AnimatedSprite {
                    source_rect: Rect {
                        x: (a.source_rect.x - TILE_SIZE * (a.num_frames - 1)) as i64,
                        ..a.source_rect
                    },
                    current_frame: 0,
                    since_last_frame_change: Millis(0),
                    ..a
                }
            }
        } else {
            AnimatedSprite { since_last_frame_change: Millis(accumulated as i64), ..a }
        }
    }
}

impl AnimatedSprite {
    /// The frame anchor: where the first frame of the row starts on the
    /// sheet.
    pub open spec fn base_x(self) -> int {
        self.source_rect.x - self.current_frame * TILE_SIZE
    }

    pub open spec fn wf(self) -> bool {
        &&& 1 <= self.num_frames
        &&& self.current_frame < self.num_frames
        &&& 0 <= self.frame_time.0 <= 1000
        &&& 0 <= self.since_last_frame_change.0 <= self.frame_time.0
        &&& 0 <= self.base_x()
        &&& self.base_x() + self.num_frames * TILE_SIZE <= COORD_LIMIT
        &&& 0 <= self.source_rect.y
        &&& self.source_rect.y + self.source_rect.height <= COORD_LIMIT
        &&& 0 <= self.source_rect.width <= COORD_LIMIT
        &&& 0 <= self.source_rect.height
    }

    /// A clip whose first frame starts at `(source_x, source_y)`, shown at
    /// `fps` frames per second.
    pub fn new(source_x: i64, source_y: i64, width: i64, height: i64, fps: u32, num_frames: u32) -> (a:
        AnimatedSprite)
        requires
            1 <= fps,
            1 <= num_frames,
            0 <= source_x,
            source_x + num_frames * TILE_SIZE <= COORD_LIMIT,
            0 <= source_y,
            source_y + height <= COORD_LIMIT,
            0 <= width <= COORD_LIMIT,
            0 <= height,
        ensures
            a == (AnimatedSprite {
                source_rect: Rect { x: source_x, y: source_y, width, height },
                frame_time: Millis((1000u32 / fps) as i64),
                num_frames,
                current_frame: 0,
                since_last_frame_change: Millis(0),
            }),
            a.wf(),
    {
        AnimatedSprite {
            source_rect: Rect { x: source_x, y: source_y, width, height },
            frame_time: Millis((1000 / fps) as i64),
            num_frames,
            current_frame: 0,
            since_last_frame_change: Millis(0),
        }
    }

    /// Advance the clip by `elapsed_time`.  A clip with a single frame never
    /// changes; otherwise at most one frame step happens per call.
    pub fn update(&mut self, elapsed_time: Millis)
        requires
            old(self).wf(),
            0 <= elapsed_time.0 <= MAX_ELAPSED_MS,
        ensures
            *final(self) == anim_step(*old(self), elapsed_time.0 as int),
            final(self).wf(),
    {
        if self.num_frames == 1 {
            return ;
        }
        let accumulated = self.since_last_frame_change.0 + elapsed_time.0;
        if accumulated > self.frame_time.0 {
            self.since_last_frame_change = Millis(0);
            let current_x = self.source_rect.x;
            if self.current_frame + 1 < self.num_frames {
                self.current_frame = self.current_frame + 1;
                self.source_rect.x = current_x + TILE_SIZE;
            } else {
                assert(current_x == old(self).base_x() + old(self).current_frame * TILE_SIZE);
                assert(old(self).base_x() + old(self).num_frames * TILE_SIZE <= COORD_LIMIT);
                assert(0 <= TILE_SIZE * ((self.num_frames - 1) as i64) <= COORD_LIMIT);
                self.source_rect.x = current_x - TILE_SIZE * ((self.num_frames - 1) as i64);
                self.current_frame = 0;
            }
        } else {
            self.since_last_frame_change = Millis(accumulated);
        }
    }

    /// The sub-image to draw for the current frame.
    pub fn source_rect(&self) -> (r: Rect)
        ensures
            r == self.source_rect,
    {
        self.source_rect
    }
}

} // verus!
