use catchit::spawn::obstacle_from_draws;
use catchit::{CollisionShape, Engine, ObstacleKind, State, Vec2};

const W: i64 = 800_000;
const H: i64 = 600_000;

fn field() -> Vec2 {
    Vec2::new(W, H)
}

fn current(e: &Engine) -> State {
    e.state().clone().expect("a game in progress")
}

fn inside(pos: Vec2, hs: i64) -> bool {
    pos.x - hs >= 0 && pos.x + hs <= W && pos.y - hs >= 0 && pos.y + hs <= H
}

fn dist_sq(a: Vec2, b: Vec2) -> i128 {
    let dx = (a.x - b.x) as i128;
    let dy = (a.y - b.y) as i128;
    dx * dx + dy * dy
}

/// Moves the hunter onto the prey and ticks once with no elapsed time.
fn capture(e: &mut Engine) -> Result<(), State> {
    let prey = current(e).prey.pos;
    e.set_hunter_pos(prey);
    e.update(0)
}

#[test]
fn new_game_starts_fresh() {
    let e = Engine::from_field_seeded(field(), 7);
    let s = current(&e);
    assert_eq!(s.field, field());
    assert_eq!(s.hunter.object.half_size, 12_500);
    assert_eq!(s.hunter.object.pos, Vec2::new(-25_000, -25_000));
    assert_eq!(s.hunter.object.shape, CollisionShape::Circle);
    assert_eq!(s.hunter.force, 0);
    assert_eq!(s.prey.half_size, 12_500);
    assert_eq!(s.prey.shape, CollisionShape::Square);
    assert!(inside(s.prey.pos, s.prey.half_size));
    assert!(s.obstacles.is_empty());
    assert_eq!(s.score, 0);
    assert_eq!(s.score_coeff, 1_000_000);
    assert_eq!(s.last_dt, 1_000_000);
    assert!(s.obstacle_opacity.is_pristine());
    assert!(s.attracting_force.is_pristine());
    assert_eq!(s.obstacle_opacity.current, 1000);
    assert_eq!(s.attracting_force.to(), 125);
}

#[test]
fn new_hunter_is_outside_field_and_clear_of_prey() {
    for (w, h) in [(320_000, 320_000), (W, H), (1_920_000, 1_080_000), (5_000_000, 400_000)] {
        for seed in 0..20u64 {
            let e = Engine::from_field_seeded(Vec2::new(w, h), seed);
            let s = current(&e);
            assert!(s.hunter.object.right() < 0);
            assert!(s.hunter.object.bottom() < 0);
            assert!(!s.hunter.object.intersects(&s.prey));
        }
    }
}

#[test]
fn hunter_size_grows_with_large_fields() {
    // min side 1_000 units: margin 50 units, half-size (50 - 5) / 2
    let e = Engine::from_field_seeded(Vec2::new(2_000_000, 1_000_000), 1);
    assert_eq!(current(&e).hunter.object.half_size, 22_500);
}

#[test]
fn min_distance_is_tenth_of_diagonal() {
    assert_eq!(Engine::min_distance(&field()), 100_000);
    assert_eq!(Engine::min_distance(&Vec2::new(320_000, 320_000)), 45_254);
}

#[test]
fn same_seed_same_game() {
    let a = Engine::from_field_seeded(field(), 42);
    let b = Engine::from_field_seeded(field(), 42);
    assert_eq!(current(&a), current(&b));
}

#[test]
fn first_capture_scores_ten() {
    let mut e = Engine::from_field_seeded(field(), 3);
    assert!(capture(&mut e).is_ok());
    let s = current(&e);
    assert_eq!(s.score, 10);
    assert_eq!(s.obstacles.len(), 1);
}

#[test]
fn spawned_obstacle_is_far_and_inside() {
    for seed in 0..40u64 {
        let mut e = Engine::from_field_seeded(field(), seed);
        let before = current(&e);
        assert!(capture(&mut e).is_ok());
        let s = current(&e);
        let o = s.obstacles[0];
        assert!(inside(o.object.pos, o.object.half_size));
        assert!(dist_sq(o.object.pos, s.hunter.object.pos) >= 100_000i128 * 100_000);
        assert!(inside(s.prey.pos, s.prey.half_size));
        assert_eq!(o.object.shape, CollisionShape::Circle);
        match o.kind {
            ObstacleKind::Deadly => assert_eq!(o.object.half_size, 3_750),
            _ => assert_eq!(o.object.half_size, 7_500),
        }
        assert!(o.velocity.x >= -320_000 && o.velocity.x < 320_000);
        assert!(o.velocity.y >= -240_000 && o.velocity.y < 240_000);
        assert_eq!(s.score, before.score + 10);
    }
}

#[test]
fn zero_ticks_repeat_the_same_state() {
    let mut e = Engine::from_field_seeded(field(), 11);
    assert!(e.update(0).is_ok());
    let first = current(&e);
    assert!(e.update(0).is_ok());
    assert_eq!(current(&e), first);
}

#[test]
fn deadly_hit_ends_game_and_reset_restores() {
    let mut found = false;
    for seed in 0..50u64 {
        let mut e = Engine::from_field_seeded(field(), seed);
        assert!(capture(&mut e).is_ok());
        let o = current(&e).obstacles[0];
        if o.kind != ObstacleKind::Deadly {
            continue;
        }
        found = true;
        e.set_hunter_pos(o.object.pos);
        let last = e.update(0).expect_err("game over");
        assert!(last.score >= 10);
        assert!(e.state().is_none());
        // nothing happens without a game
        assert!(e.update(16_000).is_ok());
        e.set_hunter_pos(Vec2::new(1, 1));
        e.set_hunter_force(true);
        assert!(e.state().is_none());

        e.reset(field());
        let s = current(&e);
        assert_eq!(s.score, 0);
        assert!(s.obstacles.is_empty());
        assert!(s.obstacle_opacity.is_pristine());
        break;
    }
    assert!(found);
}

#[test]
fn hunter_force_grows_hunter() {
    let mut e = Engine::from_field_seeded(field(), 5);
    e.set_hunter_force(true);
    let s = current(&e);
    assert_eq!(s.hunter.force, 100);
    assert_eq!(s.hunter.object.half_size, 18_750);
    e.set_hunter_force(false);
    let s = current(&e);
    assert_eq!(s.hunter.force, 0);
    assert_eq!(s.hunter.object.half_size, 12_500);
}

#[test]
fn hunter_velocity_is_measured_from_last_dt() {
    let mut e = Engine::from_field_seeded(field(), 5);
    e.set_hunter_pos(Vec2::new(0, 0));
    let s = current(&e);
    assert_eq!(s.hunter.object.pos, Vec2::new(0, 0));
    assert_eq!(s.hunter.velocity, Vec2::new(25_000, 25_000));

    // a tick clears the velocity and records dt
    assert!(e.update(500_000).is_ok());
    let s = current(&e);
    assert_eq!(s.hunter.velocity, Vec2::new(0, 0));
    assert_eq!(s.last_dt, 500_000);
    e.set_hunter_pos(Vec2::new(-1_000, 2_000));
    assert_eq!(current(&e).hunter.velocity, Vec2::new(-2_000, 4_000));
}

#[test]
fn zero_last_dt_counts_as_one_microsecond() {
    let mut e = Engine::from_field_seeded(field(), 5);
    e.set_hunter_pos(Vec2::new(-25_000, -25_000));
    assert!(e.update(0).is_ok());
    e.set_hunter_pos(Vec2::new(-24_999, -25_000));
    assert_eq!(current(&e).hunter.velocity, Vec2::new(1_000_000, 0));
}

#[test]
fn moving_in_field_raises_multiplier_and_leaving_resets_it() {
    let mut e = Engine::from_field_seeded(field(), 9);
    e.set_hunter_pos(Vec2::new(400_000, 300_000));
    assert!(e.update(16_000).is_ok());
    assert_eq!(current(&e).score_coeff, 1_001_600);
    // standing still does not raise it
    assert!(e.update(16_000).is_ok());
    assert_eq!(current(&e).score_coeff, 1_001_600);
    e.set_hunter_pos(Vec2::new(-1, 300_000));
    assert_eq!(current(&e).score_coeff, 1_000_000);
}

#[test]
fn capture_points_double_per_active_effect() {
    let e = Engine::from_field_seeded(field(), 2);
    let mut s = current(&e);
    assert_eq!(Engine::capture_points(&s), 10);
    s.score_coeff = 1_050_000;
    assert_eq!(Engine::capture_points(&s), 11);
    s.score_coeff = 1_049_999;
    assert_eq!(Engine::capture_points(&s), 10);
    s.score_coeff = 1_500_000;
    s.obstacle_opacity.advance(100_000);
    assert_eq!(Engine::capture_points(&s), 30);
    s.attracting_force.advance(100_000);
    assert_eq!(Engine::capture_points(&s), 60);
    s.score_coeff = u64::MAX;
    assert_eq!(Engine::capture_points(&s), u32::MAX);
}

#[test]
fn obstacle_kind_and_size_from_draws() {
    let f = field();
    let o = obstacle_from_draws(&f, 12_500, 50, 700, 10, -20, Vec2::new(400_000, 300_000));
    assert_eq!(o.kind, ObstacleKind::InvisibiltySwitch);
    assert_eq!(o.object.half_size, 7_500);
    assert_eq!(o.velocity, Vec2::new(10, -20));
    assert_eq!(o.object.pos, Vec2::new(400_000, 300_000));
    let o = obstacle_from_draws(&f, 12_500, 99, 499, 0, 0, Vec2::new(0, 0));
    assert_eq!(o.kind, ObstacleKind::AttractiveForceSwitch);
    assert_eq!(o.object.pos, Vec2::new(7_500, 7_500));
    let o = obstacle_from_draws(&f, 18_750, 100, 999, 0, 0, Vec2::new(W, H));
    assert_eq!(o.kind, ObstacleKind::Deadly);
    assert_eq!(o.object.half_size, 5_625);
    assert_eq!(o.object.pos, Vec2::new(W - 5_625, H - 5_625));
}

#[test]
fn prey_position_depends_on_seed() {
    let positions: Vec<Vec2> = (0..10u64)
        .map(|seed| current(&Engine::from_field_seeded(field(), seed)).prey.pos)
        .collect();
    assert!(positions.iter().any(|p| *p != positions[0]));
    assert!(positions.iter().all(|p| inside(*p, 12_500)));
}

#[test]
fn special_hit_starts_its_effect() {
    let mut seen = 0;
    for seed in 0..300u64 {
        let mut e = Engine::from_field_seeded(field(), seed);
        assert!(capture(&mut e).is_ok());
        let o = current(&e).obstacles[0];
        if o.kind == ObstacleKind::Deadly {
            continue;
        }
        seen += 1;
        e.set_hunter_pos(o.object.pos);
        assert!(e.update(16_000).is_ok());
        let s = current(&e);
        match o.kind {
            ObstacleKind::InvisibiltySwitch => {
                assert!(!s.obstacle_opacity.is_pristine());
                assert_eq!(s.obstacle_opacity.current, 968);
                assert!(s.attracting_force.is_pristine());
            }
            _ => {
                assert!(!s.attracting_force.is_pristine());
                assert_eq!(s.attracting_force.current, 4);
                assert!(s.obstacle_opacity.is_pristine());
            }
        }
    }
    assert!(seen > 0);
}
