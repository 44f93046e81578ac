use vstd::prelude::*;

verus! {

/// Length units to one pixel.
pub const UNITS_PER_PIXEL: i64 = 1_000_000;

/// Microseconds to one second.
pub const MICROS_PER_SECOND: u64 = 1_000_000;

/// Radius shared by every ball, in length units (twenty pixels).
pub const BALL_RADIUS: i64 = 20 * UNITS_PER_PIXEL;

/// Number of balls in the animation.
pub const BALL_COUNT: usize = 120;

/// Largest speed along one axis at spawn, in units per second (500 pixels per second).
pub const MAX_SPEED: i64 = 500 * UNITS_PER_PIXEL;

/// Hue steps to one degree.
pub const HUE_STEPS_PER_DEGREE: u32 = 1_000;

/// Hues are steps in `0..HUE_LIMIT`, a full turn.
pub const HUE_LIMIT: u32 = 360 * HUE_STEPS_PER_DEGREE;

/// One ball: centre, draw order, velocity and hue.
#[derive(Clone, Copy, Debug, PartialEq, Eq, Structural)]
pub struct Ball {
    pub x: i64,
    pub y: i64,
    /// Draw order: the ball's index at spawn.
    pub z: u32,
    pub vx: i64,
    pub vy: i64,
    /// Hue in steps of `HUE_STEPS_PER_DEGREE` to the degree; saturation, lightness and alpha are fixed.
    pub hue: u32,
}

/// The region a ball's centre may occupy: `[-half_width, half_width] x [-half_height, half_height]`.
#[derive(Clone, Copy, Debug, PartialEq, Eq, Structural)]
pub struct Arena {
    pub half_width: i64,
    pub half_height: i64,
}

impl Ball {
    /// Both velocity components can be negated and the hue is in range.
    pub open spec fn wf(self) -> bool {
        self.vx > i64::MIN && self.vy > i64::MIN && self.hue < HUE_LIMIT
    }

    /// The centre lies in the arena's region.
    pub open spec fn within(self, arena: Arena) -> bool {
        -arena.half_width <= self.x <= arena.half_width
            && -arena.half_height <= self.y <= arena.half_height
    }
}

impl Arena {
    /// Both bounds can be negated.
    pub open spec fn wf(self) -> bool {
        self.half_width > i64::MIN && self.half_height > i64::MIN
    }

    /// Half of a window extent, less the ball radius: `(extent - radius) / 2`.
    pub open spec fn half_extent(pixels: nat) -> int {
        (pixels * UNITS_PER_PIXEL - BALL_RADIUS) / 2
    }

    /// The arena of a window of `width` by `height` pixels.
    pub fn new(width: u32, height: u32) -> (r: Arena)
        ensures
            r.half_width == Arena::half_extent(width as nat),
            r.half_height == Arena::half_extent(height as nat),
            r.wf(),
    {
        let half_width = width as i64 * (UNITS_PER_PIXEL / 2) - BALL_RADIUS / 2;
        let half_height = height as i64 * (UNITS_PER_PIXEL / 2) - BALL_RADIUS / 2;
        Arena { half_width, half_height }
    }
}

} // verus!
