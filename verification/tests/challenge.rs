//! Tests of the counter-attack minigame: trigger, token matching, the
//! countdown, and the consequences of success and failure.

use combat_core::arena::EnemyHandle;
use combat_core::collision::Collider;
use combat_core::config::Config;
use combat_core::counter::{ChallengeStatus, CounterAttackChallenge, InputToken};
use combat_core::enemy::{Enemy, EnemyState, EnemyType, FireTimer};
use combat_core::events::EnemyTakeDamageEvent;
use combat_core::player::PlayerState;
use combat_core::vec2::Vec2i;
use combat_core::world::World;

fn arena_world() -> (World, EnemyHandle) {
    let mut w = World::new(Config::standard()).unwrap();
    w.spawn_player();
    let e = Enemy {
        position: Vec2i {
            x: 200_000,
            y: 200_000,
        },
        max_hp: 10_000,
        current_hp: 3_500,
        default_speed: 100_000,
        current_speed: 100_000,
        enemy_type: EnemyType::Follower,
        depth_level: 0,
        collider: Collider {
            size: Vec2i {
                x: 23_000,
                y: 26_000,
            },
        },
        state: EnemyState::Engaging,
        direction: Vec2i { x: 0, y: 0 },
        destination: Vec2i { x: 0, y: 0 },
        destination_reached: false,
        is_green_decreasing: false,
        fire_timer: FireTimer::new(4000),
        shooter_ai: None,
    };
    let h = w.enemies.insert(e);
    w.info.enemies_num = 1;
    (w, h)
}

fn fixed_challenge(target: EnemyHandle) -> CounterAttackChallenge {
    CounterAttackChallenge::new(
        target,
        vec![
            InputToken::Primary,
            InputToken::Secondary,
            InputToken::Primary,
        ],
        3000,
    )
}

// An input sequence that repeats the generated tokens exactly always
// resolves to success.
#[test]
fn exact_inputs_always_succeed() {
    let h = EnemyHandle {
        index: 0,
        generation: 0,
    };
    let mut ch = fixed_challenge(h);
    assert_eq!(ch.feed_token(InputToken::Primary), ChallengeStatus::Pending);
    assert_eq!(
        ch.feed_token(InputToken::Secondary),
        ChallengeStatus::Pending
    );
    assert_eq!(ch.feed_token(InputToken::Primary), ChallengeStatus::Success);
}

// A single mismatched token resolves to failure at once.
#[test]
fn mismatched_input_always_fails() {
    let h = EnemyHandle {
        index: 0,
        generation: 0,
    };
    let mut ch = fixed_challenge(h);
    assert_eq!(ch.feed_token(InputToken::Primary), ChallengeStatus::Pending);
    assert_eq!(ch.feed_token(InputToken::Primary), ChallengeStatus::Failure);
}

#[test]
fn challenge_trigger_on_threshold_crossing() {
    let (mut w, h) = arena_world();
    // 30 units/s over 20 ms drains 0.6 units: 3.5 falls to 2.9, at or
    // below the follower's counter threshold of 3.
    w.apply_enemy_damage_event(EnemyTakeDamageEvent { enemy_entity: h }, 20);
    assert!(w.challenge_active());
    let ch = w.challenge.as_ref().unwrap();
    assert_eq!(ch.target, h);
    assert_eq!(ch.tokens.len(), w.config.challenge_len);
    assert_eq!(ch.next, 0);
    // A second trigger while one is active is ignored.
    w.apply_enemy_damage_event(EnemyTakeDamageEvent { enemy_entity: h }, 20);
    assert_eq!(w.challenge.as_ref().unwrap().next, 0);
}

#[test]
fn challenge_success_destroys_target_and_rewards_fuel() {
    let (mut w, h) = arena_world();
    w.player_info.current_fuel = 50_000;
    w.challenge = Some(fixed_challenge(h));
    w.resolve_challenge(10, Some(InputToken::Primary));
    w.resolve_challenge(10, Some(InputToken::Secondary));
    w.resolve_challenge(10, Some(InputToken::Primary));
    assert!(!w.challenge_active());
    assert!(w.enemies.get(h).is_none());
    assert_eq!(w.info.enemies_num, 0);
    assert_eq!(w.player_fuel(), 55_000);
}

#[test]
fn challenge_failure_wounds_player_and_heals_target() {
    let (mut w, h) = arena_world();
    w.player_state = PlayerState::CHAINSAW;
    w.player_info.current_fuel = 50_000;
    w.challenge = Some(fixed_challenge(h));
    // The wrong first token fails immediately.
    w.resolve_challenge(10, Some(InputToken::Secondary));
    assert!(!w.challenge_active());
    assert_eq!(w.player_hp(), 4);
    assert_eq!(w.player_state, PlayerState::DAMAGED);
    assert_eq!(w.player_fuel(), 25_000);
    // The target healed by two units, clamped under its maximum.
    assert_eq!(w.enemies.get(h).unwrap().current_hp, 5_500);
    assert_eq!(w.info.enemies_num, 1);
}

#[test]
fn challenge_timeout_fails() {
    let (mut w, h) = arena_world();
    w.challenge = Some(fixed_challenge(h));
    // The three-second countdown expires with tokens still required.
    w.resolve_challenge(3000, None);
    assert!(!w.challenge_active());
    assert_eq!(w.player_hp(), 4);
}

#[test]
fn challenge_pending_keeps_session_alive() {
    let (mut w, h) = arena_world();
    w.challenge = Some(fixed_challenge(h));
    w.resolve_challenge(100, None);
    assert!(w.challenge_active());
    w.resolve_challenge(100, Some(InputToken::Primary));
    assert!(w.challenge_active());
    assert_eq!(w.challenge.as_ref().unwrap().next, 1);
}

#[test]
fn tick_suspends_world_while_challenge_runs() {
    let (mut w, h) = arena_world();
    w.challenge = Some(fixed_challenge(h));
    let progress = w.player_progress();
    let input = combat_core::world::TickInput {
        cursor_position: None,
        primary_just_pressed: false,
        secondary_just_pressed: false,
    };
    w.tick(100, input);
    // Normal phases did not run: depth progress stands still.
    assert_eq!(w.player_progress(), progress);
    assert!(w.challenge_active());
}

#[test]
fn challenge_snapshot_getters() {
    let (mut w, h) = arena_world();
    assert_eq!(w.challenge_remaining_tokens(), 0);
    assert_eq!(w.challenge_remaining_ms(), 0);
    w.challenge = Some(fixed_challenge(h));
    assert_eq!(w.challenge_remaining_tokens(), 3);
    assert_eq!(w.challenge_remaining_ms(), 3000);
    w.resolve_challenge(500, Some(InputToken::Primary));
    assert_eq!(w.challenge_remaining_tokens(), 2);
    assert_eq!(w.challenge_remaining_ms(), 2500);
}
