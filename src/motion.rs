use vstd::prelude::*;

use crate::ball::{Arena, Ball, HUE_LIMIT, MICROS_PER_SECOND};

verus! {

/// Distance covered in `dt` microseconds at `v` units per second, rounded toward zero.
pub open spec fn distance(v: int, dt: int) -> int {
    if v >= 0 {
        (v * dt) / (MICROS_PER_SECOND as int)
    } else {
        -((-v * dt) / (MICROS_PER_SECOND as int))
    }
}

/// Position, velocity and whether a bounce happened after checking `p` against
/// the lower bound `-half` and then the upper bound `half`; each crossing
/// clamps the position and negates the velocity.
pub open spec fn settle(p: int, v: int, half: int) -> (int, int, bool) {
    let (p1, v1, b1) = if p < -half { (-half, -v, true) } else { (p, v, false) };
    if p1 > half { (half, -v1, true) } else { (p1, v1, b1) }
}

/// Distance covered in `dt` microseconds at `v` units per second.
pub fn travel(v: i64, dt: u64) -> (d: i128)
    ensures
        d == distance(v as int, dt as int),
        -0x1_0000_0000_0000_0000_0000_0000_0000 < d < 0x1_0000_0000_0000_0000_0000_0000_0000,
{
    let mag: u128 = if v >= 0 { v as u128 } else { (-(v as i128)) as u128 };
    assert(mag * (dt as u128) < 0x8000_0000_0000_0000_0000_0000_0000_0000) by (nonlinear_arith)
        requires
            mag <= 0x8000_0000_0000_0000,
            dt < 0x1_0000_0000_0000_0000,
    ;
    let q: u128 = mag * (dt as u128) / (MICROS_PER_SECOND as u128);
    assert(q < 0x1_0000_0000_0000_0000_0000_0000_0000) by (nonlinear_arith)
        requires
            q == mag * (dt as u128) / 1_000_000,
            mag * (dt as u128) < 0x8000_0000_0000_0000_0000_0000_0000_0000,
    ;
    if v >= 0 {
        q as i128
    } else {
        -(q as i128)
    }
}

/// Checks the new position `p` of one axis against `[-half, half]`: the
/// position, the velocity and whether it bounced, as `settle` gives them.
pub fn settle_axis(p: i128, v: i64, half: i64) -> (r: (i64, i64, bool))
    requires
        v > i64::MIN,
        half > i64::MIN,
    ensures
        r.0 as int == settle(p as int, v as int, half as int).0,
        r.1 as int == settle(p as int, v as int, half as int).1,
        r.2 == settle(p as int, v as int, half as int).2,
{
    let mut pos: i128 = p;
    let mut vel: i64 = v;
    let mut bounced = false;
    if pos < -(half as i128) {
        pos = -(half as i128);
        vel = -vel;
        bounced = true;
    }
    if pos > half as i128 {
        pos = half as i128;
        vel = -vel;
        bounced = true;
    }
    (pos as i64, vel, bounced)
}

/// The x axis of `b` after `dt` microseconds in `arena`: position, velocity, bounce.
pub open spec fn x_axis(b: Ball, dt: nat, arena: Arena) -> (int, int, bool) {
    settle(b.x + distance(b.vx as int, dt as int), b.vx as int, arena.half_width as int)
}

/// The y axis of `b` after `dt` microseconds in `arena`: position, velocity, bounce.
pub open spec fn y_axis(b: Ball, dt: nat, arena: Arena) -> (int, int, bool) {
    settle(b.y + distance(b.vy as int, dt as int), b.vy as int, arena.half_height as int)
}

/// Whether `b` meets an edge of `arena` in the next `dt` microseconds.
pub open spec fn bounces(b: Ball, dt: nat, arena: Arena) -> bool {
    x_axis(b, dt, arena).2 || y_axis(b, dt, arena).2
}

/// `r` is `b` after `dt` microseconds in `arena`, where a bounce sets the hue to `fresh_hue`.
pub open spec fn advances(b: Ball, dt: nat, arena: Arena, fresh_hue: int, r: Ball) -> bool {
    &&& r.x == x_axis(b, dt, arena).0
    &&& r.vx == x_axis(b, dt, arena).1
    &&& r.y == y_axis(b, dt, arena).0
    &&& r.vy == y_axis(b, dt, arena).1
    &&& r.z == b.z
    &&& r.hue == if bounces(b, dt, arena) { fresh_hue } else { b.hue as int }
}

impl Ball {
    /// Moves the ball by `dt` microseconds of travel and reflects it off the
    /// edges of `arena`, x before y. The hue is left as it is; the result says
    /// whether the ball bounced.
    pub fn step(&mut self, dt: u64, arena: Arena) -> (bounced: bool)
        requires
            old(self).wf(),
            arena.wf(),
        ensures
            advances(*old(self), dt as nat, arena, old(self).hue as int, *final(self)),
            bounced == bounces(*old(self), dt as nat, arena),
            final(self).wf(),
    {
        let px = self.x as i128 + travel(self.vx, dt);
        let py = self.y as i128 + travel(self.vy, dt);
        let (x, vx, bx) = settle_axis(px, self.vx, arena.half_width);
        let (y, vy, by) = settle_axis(py, self.vy, arena.half_height);
        self.x = x;
        self.vx = vx;
        self.y = y;
        self.vy = vy;
        bx || by
    }

    /// One frame for one ball: `step`, and on a bounce the hue becomes `fresh_hue`.
    pub fn advance(&mut self, dt: u64, arena: Arena, fresh_hue: u32)
        requires
            old(self).wf(),
            arena.wf(),
            fresh_hue < HUE_LIMIT,
        ensures
            advances(*old(self), dt as nat, arena, fresh_hue as int, *final(self)),
            final(self).wf(),
    {
        if self.step(dt, arena) {
            self.hue = fresh_hue;
        }
    }
}

/// After a frame, a ball's centre lies in the arena, whatever its position
/// and velocity were, as long as the arena is not narrower than a ball.
pub proof fn lemma_contained(b: Ball, dt: nat, arena: Arena, fresh_hue: int, r: Ball)
    requires
        arena.half_width >= 0,
        arena.half_height >= 0,
        advances(b, dt, arena, fresh_hue, r),
    ensures
        r.within(arena),
{
}

/// A ball whose travel would take it past the left edge ends the frame on
/// that edge, moving with its x velocity negated.
pub proof fn lemma_reflects_left(b: Ball, dt: nat, arena: Arena, fresh_hue: int, r: Ball)
    requires
        arena.half_width >= 0,
        b.x + distance(b.vx as int, dt as int) < -arena.half_width,
        advances(b, dt, arena, fresh_hue, r),
    ensures
        r.x == -arena.half_width,
        r.vx == -b.vx,
{
}

/// A ball whose travel keeps it strictly inside the arena on both axes keeps
/// its hue.
pub proof fn lemma_no_bounce_keeps_hue(b: Ball, dt: nat, arena: Arena, fresh_hue: int, r: Ball)
    requires
        -arena.half_width < b.x + distance(b.vx as int, dt as int) < arena.half_width,
        -arena.half_height < b.y + distance(b.vy as int, dt as int) < arena.half_height,
        advances(b, dt, arena, fresh_hue, r),
    ensures
        !bounces(b, dt, arena),
        r.hue == b.hue,
{
}

/// A ball whose travel takes it past the right and the top edge at once ends
/// the frame in that corner, with both velocity components negated and the
/// one fresh hue.
pub proof fn lemma_corner(b: Ball, dt: nat, arena: Arena, fresh_hue: int, r: Ball)
    requires
        arena.half_width >= 0,
        arena.half_height >= 0,
        b.x + distance(b.vx as int, dt as int) > arena.half_width,
        b.y + distance(b.vy as int, dt as int) > arena.half_height,
        advances(b, dt, arena, fresh_hue, r),
    ensures
        r.x == arena.half_width,
        r.y == arena.half_height,
        r.vx == -b.vx,
        r.vy == -b.vy,
        r.hue == fresh_hue,
{
}

/// A frame of no time leaves a ball inside the arena exactly as it was.
pub proof fn lemma_still_frame(b: Ball, arena: Arena, fresh_hue: int, r: Ball)
    requires
        b.within(arena),
        advances(b, 0, arena, fresh_hue, r),
    ensures
        r == b,
{
    assert(distance(b.vx as int, 0) == 0);
    assert(distance(b.vy as int, 0) == 0);
}

/// A frame of no time leaves a population inside the arena exactly as it
/// was, so any number of such frames do too.
pub proof fn lemma_still_frames(before: Seq<Ball>, arena: Arena, after: Seq<Ball>)
    requires
        before.len() == after.len(),
        forall|i: int| 0 <= i < before.len() ==> (#[trigger] before[i]).within(arena),
        forall|i: int| #![trigger after[i]] 0 <= i < after.len() ==> advances(before[i], 0, arena, after[i].hue as int, after[i]),
    ensures
        after == before,
        forall|i: int| 0 <= i < after.len() ==> (#[trigger] after[i]).within(arena),
{
    assert forall|i: int| 0 <= i < after.len() implies after[i] == before[i] by {
        lemma_still_frame(before[i], arena, after[i].hue as int, after[i]);
    }
    assert(after =~= before);
}

} // verus!
