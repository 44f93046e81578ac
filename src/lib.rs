//! A bouncing-ball animation: balls that drift inside a window, reflect off
//! its edges and take a fresh colour at each bounce.
//!
//! Lengths are fixed-point integers of `UNITS_PER_PIXEL` units to the pixel,
//! velocities are units per second and time steps are microseconds.
pub mod animation;
pub mod ball;
pub mod motion;
mod random;

pub use animation::{
    change_material, init_ball, move_ball, random_color, random_speed, spawn_ball,
    speed_from_draw,
};
pub use ball::{
    Arena, Ball, BALL_COUNT, BALL_RADIUS, HUE_LIMIT, HUE_STEPS_PER_DEGREE, MAX_SPEED, MICROS_PER_SECOND,
    UNITS_PER_PIXEL,
};
pub use motion::{settle_axis, travel};
