use vstd::prelude::*;

use rand::rngs::ThreadRng;

use crate::ball::{Arena, Ball, BALL_COUNT, HUE_LIMIT, MAX_SPEED};
use crate::motion::advances;
use crate::random::draw_below;

verus! {

/// A ball as spawned: at the origin, drawn in place `index`, with the given
/// velocity and hue.
pub fn spawn_ball(index: u32, vx: i64, vy: i64, hue: u32) -> (b: Ball)
    ensures
        b == (Ball { x: 0, y: 0, z: index, vx, vy, hue }),
{
    Ball { x: 0, y: 0, z: index, vx, vy, hue }
}

/// The speed that a draw in `0..=2 * MAX_SPEED` stands for: the draw less `MAX_SPEED`.
pub fn speed_from_draw(draw: u64) -> (v: i64)
    requires
        draw <= 2 * MAX_SPEED,
    ensures
        v == draw - MAX_SPEED,
        -MAX_SPEED <= v <= MAX_SPEED,
{
    draw as i64 - MAX_SPEED
}

/// A speed drawn uniformly from `-MAX_SPEED..=MAX_SPEED`.
pub fn random_speed(rng: &mut ThreadRng) -> (v: i64)
    ensures
        -MAX_SPEED <= v <= MAX_SPEED,
{
    let draw = draw_below(rng, 2 * MAX_SPEED as u64 + 1);
    speed_from_draw(draw)
}

/// A hue drawn uniformly from `0..HUE_LIMIT`.
pub fn random_color(rng: &mut ThreadRng) -> (hue: u32)
    ensures
        hue < HUE_LIMIT,
{
    draw_below(rng, HUE_LIMIT as u64) as u32
}

/// Gives `ball` a fresh random hue and leaves the rest of it as it is.
pub fn change_material(ball: &mut Ball, rng: &mut ThreadRng)
    ensures
        *final(ball) == (Ball { hue: final(ball).hue, ..*old(ball) }),
        final(ball).hue < HUE_LIMIT,
{
    ball.hue = random_color(rng);
}

/// The whole population: `BALL_COUNT` balls at the origin, ball `i` drawn in
/// place `i`, with each velocity component and the hue drawn at random.
pub fn init_ball(rng: &mut ThreadRng) -> (balls: Vec<Ball>)
    ensures
        balls@.len() == BALL_COUNT,
        forall|i: int| #![trigger balls@[i]] 0 <= i < balls@.len() ==> {
            let b = balls@[i];
            &&& b.x == 0
            &&& b.y == 0
            &&& b.z == i
            &&& -MAX_SPEED <= b.vx <= MAX_SPEED
            &&& -MAX_SPEED <= b.vy <= MAX_SPEED
            &&& b.wf()
        },
{
    let mut balls: Vec<Ball> = Vec::new();
    let mut i: usize = 0;
    while i < BALL_COUNT
        invariant
            i <= BALL_COUNT,
            balls@.len() == i,
            forall|j: int| #![trigger balls@[j]] 0 <= j < i ==> {
                let b = balls@[j];
                &&& b.x == 0
                &&& b.y == 0
                &&& b.z == j
                &&& -MAX_SPEED <= b.vx <= MAX_SPEED
                &&& -MAX_SPEED <= b.vy <= MAX_SPEED
                &&& b.wf()
            },
        decreases BALL_COUNT - i,
    {
        let hue = random_color(rng);
        let vx = random_speed(rng);
        let vy = random_speed(rng);
        balls.push(spawn_ball(i as u32, vx, vy, hue));
        i = i + 1;
    }
    balls
}

/// One frame of the animation: every ball moves by `dt` microseconds of
/// travel and reflects off the edges of `arena`; a ball that bounced takes a
/// fresh random hue, any other keeps its own.
pub fn move_ball(balls: &mut Vec<Ball>, dt: u64, arena: Arena, rng: &mut ThreadRng)
    requires
        arena.wf(),
        forall|i: int| 0 <= i < old(balls)@.len() ==> (#[trigger] old(balls)@[i]).wf(),
    ensures
        final(balls)@.len() == old(balls)@.len(),
        forall|i: int| #![trigger final(balls)@[i]] 0 <= i < final(balls)@.len() ==> {
            &&& advances(old(balls)@[i], dt as nat, arena, final(balls)@[i].hue as int, final(balls)@[i])
            &&& final(balls)@[i].wf()
            &&& arena.half_width >= 0 && arena.half_height >= 0 ==> final(balls)@[i].within(arena)
        },
{
    let n = balls.len();
    let mut i: usize = 0;
    while i < n
        invariant
            arena.wf(),
            n == old(balls)@.len(),
            i <= n,
            balls@.len() == n,
            forall|j: int| 0 <= j < n ==> (#[trigger] old(balls)@[j]).wf(),
            forall|j: int| #![trigger balls@[j]] i <= j < n ==> balls@[j] == old(balls)@[j],
            forall|j: int| #![trigger balls@[j]] 0 <= j < i ==> {
                &&& advances(old(balls)@[j], dt as nat, arena, balls@[j].hue as int, balls@[j])
                &&& balls@[j].wf()
                &&& arena.half_width >= 0 && arena.half_height >= 0 ==> balls@[j].within(arena)
            },
        decreases n - i,
    {
        let mut b = balls[i];
        let ghost before = b;
        if b.step(dt, arena) {
            change_material(&mut b, rng);
        }
        assert(advances(before, dt as nat, arena, b.hue as int, b));
        balls.set(i, b);
        i = i + 1;
    }
}

} // verus!
