//! Tests of the arithmetic, timer and collision primitives.

use combat_core::collision::collide;
use combat_core::timer::{Timer, TimerMode};
use combat_core::units::clamp_i64;
use combat_core::vec2::{dir_toward, dist, isqrt, move_by_dir, Vec2i};

#[test]
fn clamp_within_below_above() {
    assert_eq!(clamp_i64(5, 0, 10), 5);
    assert_eq!(clamp_i64(-3, 0, 10), 0);
    assert_eq!(clamp_i64(42, 0, 10), 10);
}

#[test]
fn isqrt_exact_squares_and_between() {
    assert_eq!(isqrt(0), 0);
    assert_eq!(isqrt(1), 1);
    assert_eq!(isqrt(99), 9);
    assert_eq!(isqrt(100), 10);
    assert_eq!(isqrt(10_000_000_000), 100_000);
    assert_eq!(isqrt(10_000_000_001), 100_000);
}

#[test]
fn dist_is_euclidean_rounded_down() {
    let a = Vec2i { x: 0, y: 0 };
    let b = Vec2i { x: 3000, y: 4000 };
    assert_eq!(dist(a, b), 5000);
    let c = Vec2i { x: 1000, y: 1000 };
    assert_eq!(dist(a, c), 1414);
}

#[test]
fn dir_toward_axis_and_zero() {
    let a = Vec2i { x: 0, y: 0 };
    let b = Vec2i { x: 5000, y: 0 };
    assert_eq!(dir_toward(a, b), Vec2i { x: 1000, y: 0 });
    assert_eq!(dir_toward(b, a), Vec2i { x: -1000, y: 0 });
    assert_eq!(dir_toward(a, a), Vec2i { x: 0, y: 0 });
    let d = dir_toward(a, Vec2i { x: 3000, y: 4000 });
    assert_eq!(d, Vec2i { x: 600, y: 800 });
}

#[test]
fn move_by_dir_steps_and_clamps() {
    let p = Vec2i { x: 10_000, y: 20_000 };
    let up = Vec2i { x: 0, y: 1000 };
    assert_eq!(move_by_dir(p, up, 5000), Vec2i { x: 10_000, y: 25_000 });
    let diag = Vec2i { x: 600, y: 800 };
    assert_eq!(
        move_by_dir(p, diag, 10_000),
        Vec2i { x: 16_000, y: 28_000 }
    );
}

#[test]
fn timer_once_saturates_and_reports_completion_once() {
    let mut t = Timer::new(1000, TimerMode::Once);
    t.tick(400);
    assert!(!t.just_finished);
    assert_eq!(t.elapsed_ms, 400);
    t.tick(700);
    assert!(t.just_finished);
    assert_eq!(t.elapsed_ms, 1000);
    t.tick(100);
    assert!(!t.just_finished);
    assert_eq!(t.elapsed_ms, 1000);
    assert!(t.finished());
}

#[test]
fn timer_repeating_wraps() {
    let mut t = Timer::new(1000, TimerMode::Repeating);
    t.tick(1500);
    assert!(t.just_finished);
    assert_eq!(t.elapsed_ms, 500);
    t.tick(400);
    assert!(!t.just_finished);
    assert_eq!(t.elapsed_ms, 900);
    t.tick(100);
    assert!(t.just_finished);
    assert_eq!(t.elapsed_ms, 0);
}

#[test]
fn timer_reset_rewinds() {
    let mut t = Timer::new(1000, TimerMode::Once);
    t.tick(1000);
    assert!(t.finished());
    t.reset();
    assert_eq!(t.elapsed_ms, 0);
    assert!(!t.just_finished);
    assert!(!t.finished());
}

#[test]
fn collide_overlap_and_touching() {
    let sa = Vec2i { x: 10_000, y: 10_000 };
    let a = Vec2i { x: 0, y: 0 };
    // Centers 9 units apart, half-extents 5 + 5: overlapping.
    assert!(collide(a, sa, Vec2i { x: 9000, y: 0 }, sa));
    // Exactly touching boxes do not collide (strict overlap).
    assert!(!collide(a, sa, Vec2i { x: 10_000, y: 0 }, sa));
    assert!(!collide(a, sa, Vec2i { x: 11_000, y: 0 }, sa));
    // Overlap on one axis only is no collision.
    assert!(!collide(a, sa, Vec2i { x: 9000, y: 20_000 }, sa));
}
