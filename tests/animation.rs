use bouncing_balls::{
    change_material, init_ball, move_ball, random_color, random_speed, spawn_ball,
    speed_from_draw, Arena, Ball, BALL_COUNT, HUE_LIMIT, MAX_SPEED, UNITS_PER_PIXEL,
};

const PX: i64 = UNITS_PER_PIXEL;

#[test]
fn spawned_ball_sits_at_origin() {
    let b = spawn_ball(17, -3, 4, 5);
    assert_eq!(b, Ball { x: 0, y: 0, z: 17, vx: -3, vy: 4, hue: 5 });
}

#[test]
fn speed_from_draw_spans_the_range() {
    assert_eq!(speed_from_draw(0), -500 * PX);
    assert_eq!(speed_from_draw(500 * PX as u64), 0);
    assert_eq!(speed_from_draw(1_000 * PX as u64), 500 * PX);
}

#[test]
fn random_draws_stay_in_range() {
    let mut rng = rand::thread_rng();
    for _ in 0..2_000 {
        let hue = random_color(&mut rng);
        assert!(hue < HUE_LIMIT);
        let v = random_speed(&mut rng);
        assert!(-MAX_SPEED <= v && v <= MAX_SPEED);
    }
}

#[test]
fn change_material_only_touches_hue() {
    let mut rng = rand::thread_rng();
    let start = Ball { x: 1, y: 2, z: 3, vx: 4, vy: 5, hue: HUE_LIMIT - 1 };
    let mut b = start;
    change_material(&mut b, &mut rng);
    assert!(b.hue < HUE_LIMIT);
    assert_eq!(Ball { hue: start.hue, ..b }, start);
}

#[test]
fn init_spawns_the_whole_population() {
    let mut rng = rand::thread_rng();
    let balls = init_ball(&mut rng);
    assert_eq!(balls.len(), BALL_COUNT);
    assert_eq!(BALL_COUNT, 120);
    for (i, b) in balls.iter().enumerate() {
        assert_eq!((b.x, b.y, b.z as usize), (0, 0, i));
        assert!(-500 * PX <= b.vx && b.vx <= 500 * PX);
        assert!(-500 * PX <= b.vy && b.vy <= 500 * PX);
        assert!(b.hue < HUE_LIMIT);
    }
}

#[test]
fn frames_keep_population_and_containment() {
    let mut rng = rand::thread_rng();
    let arena = Arena::new(800, 600);
    let mut balls = init_ball(&mut rng);
    for _ in 0..600 {
        move_ball(&mut balls, 16_667, arena, &mut rng);
        assert_eq!(balls.len(), BALL_COUNT);
        for b in &balls {
            assert!(-arena.half_width <= b.x && b.x <= arena.half_width);
            assert!(-arena.half_height <= b.y && b.y <= arena.half_height);
            assert!(b.hue < HUE_LIMIT);
        }
    }
}

#[test]
fn frame_reflects_and_recolors_only_bouncers() {
    let mut rng = rand::thread_rng();
    let arena = Arena::new(800, 600);
    let mut balls = vec![
        Ball { x: 0, y: 0, z: 0, vx: 100 * PX, vy: 0, hue: HUE_LIMIT + 5 },
        Ball { x: 389 * PX, y: 0, z: 1, vx: 100 * PX, vy: 0, hue: HUE_LIMIT - 1 },
    ];
    balls[0].hue = 12;
    move_ball(&mut balls, 100_000, arena, &mut rng);
    assert_eq!(balls[0], Ball { x: 10 * PX, y: 0, z: 0, vx: 100 * PX, vy: 0, hue: 12 });
    assert_eq!((balls[1].x, balls[1].vx, balls[1].z), (390 * PX, -100 * PX, 1));
    assert!(balls[1].hue < HUE_LIMIT);
}

#[test]
fn zero_time_frames_change_nothing() {
    let mut rng = rand::thread_rng();
    let arena = Arena::new(800, 600);
    let mut balls = init_ball(&mut rng);
    balls[3].x = arena.half_width;
    balls[4].y = -arena.half_height;
    let start = balls.clone();
    for _ in 0..10 {
        move_ball(&mut balls, 0, arena, &mut rng);
    }
    assert_eq!(balls, start);
}
