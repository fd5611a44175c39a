//! Scenario tests of the world: spawning, damage, invulnerability, fuel,
//! pickups, projectiles, ignition and the overheat wave.

use combat_core::collision::{Collider, Pickup, PickupKind, Projectile};
use combat_core::config::Config;
use combat_core::enemy::{Enemy, EnemyState, EnemyType, FireTimer, ShooterAI};
use combat_core::events::{EnemyTakeDamageEvent, PlayerTakeDamageEvent, Signal};
use combat_core::player::PlayerState;
use combat_core::scheduler::choose_archetype;
use combat_core::timer::{Timer, TimerMode};
use combat_core::vec2::Vec2i;
use combat_core::world::{GameState, World};

fn running_world() -> World {
    let mut w = World::new(Config::standard()).unwrap();
    w.spawn_player();
    w
}

fn follower(position: Vec2i, destination: Vec2i, speed: i64, hp: i64) -> Enemy {
    Enemy {
        position,
        max_hp: 10_000,
        current_hp: hp,
        default_speed: speed,
        current_speed: speed,
        enemy_type: EnemyType::Follower,
        depth_level: 0,
        collider: Collider {
            size: Vec2i {
                x: 23_000,
                y: 26_000,
            },
        },
        state: EnemyState::Engaging,
        direction: Vec2i { x: 0, y: 0 },
        destination,
        destination_reached: false,
        is_green_decreasing: false,
        fire_timer: FireTimer::new(4000),
        shooter_ai: None,
    }
}

#[test]
fn config_standard_is_accepted() {
    assert!(World::new(Config::standard()).is_ok());
}

#[test]
fn config_negative_capacity_is_fatal() {
    let mut c = Config::standard();
    c.player_fuel_capacity = -1;
    assert!(World::new(c).is_err());
}

#[test]
fn config_zero_challenge_len_is_fatal() {
    let mut c = Config::standard();
    c.challenge_len = 0;
    assert!(World::new(c).is_err());
}

// Pursuit scenario: an engaging enemy with speed 100 units/s moves exactly
// 10 units toward its destination over a 100 ms tick.
#[test]
fn pursuit_moves_ten_units() {
    let mut e = follower(
        Vec2i { x: 0, y: 0 },
        Vec2i { x: 150_000, y: 0 },
        100_000,
        10_000,
    );
    e.step_movement(100, false);
    assert_eq!(e.position, Vec2i { x: 10_000, y: 0 });
    assert!(!e.destination_reached);
}

#[test]
fn staged_enemy_starts_engaging_on_arrival() {
    let mut e = follower(
        Vec2i { x: 50_000, y: 50_000 },
        Vec2i { x: 50_000, y: 50_500 },
        100_000,
        10_000,
    );
    e.state = EnemyState::Spawned;
    // Within the one-unit epsilon: the destination counts as reached.
    e.step_movement(100, false);
    assert!(e.destination_reached);
    assert_eq!(e.state, EnemyState::Spawned);
    // The next movement step performs the transition.
    e.step_movement(100, false);
    assert_eq!(e.state, EnemyState::Engaging);
}

#[test]
fn follower_flees_overdrive_player() {
    let mut e = follower(
        Vec2i { x: 100_000, y: 0 },
        Vec2i { x: 0, y: 0 },
        100_000,
        10_000,
    );
    // The player is in chainsaw mode: the follower's direction mirrors
    // away from its destination and it backs off.
    e.step_movement(100, true);
    assert_eq!(e.direction, Vec2i { x: 1000, y: 0 });
    assert_eq!(e.position, Vec2i { x: 110_000, y: 0 });
}

// Damage-to-death scenario: repeated damage events totaling more than the
// enemy's health destroy it exactly once; the population counter drops
// exactly once and never below zero.
#[test]
fn damage_to_death_destroys_exactly_once() {
    let mut w = running_world();
    let e = follower(
        Vec2i { x: 200_000, y: 200_000 },
        Vec2i { x: 0, y: 0 },
        100_000,
        10_000,
    );
    let h = w.enemies.insert(e);
    w.info.enemies_num = 1;
    let ev = EnemyTakeDamageEvent { enemy_entity: h };
    // 30 units/s over 200 ms drains 6 units per event.
    w.apply_enemy_damage_event(ev, 200);
    assert_eq!(w.enemies.get(h).unwrap().current_hp, 4_000);
    w.apply_enemy_damage_event(ev, 200);
    assert_eq!(w.enemies.get(h).unwrap().current_hp, 0);
    // Health is at zero: the next event destroys the enemy.
    w.apply_enemy_damage_event(ev, 200);
    assert!(w.enemies.get(h).is_none());
    assert_eq!(w.info.enemies_num, 0);
    // A further event against the stale handle has no effect.
    w.apply_enemy_damage_event(ev, 200);
    assert!(w.enemies.get(h).is_none());
    assert_eq!(w.info.enemies_num, 0);
}

// Stale-handle idempotence: a damage event against a handle that never
// named a live enemy changes nothing observable.
#[test]
fn stale_handle_damage_has_no_effect() {
    let mut w = running_world();
    let hp_before = w.player_hp();
    let ev = EnemyTakeDamageEvent {
        enemy_entity: combat_core::arena::EnemyHandle {
            index: 0,
            generation: 0,
        },
    };
    w.apply_enemy_damage_event(ev, 500);
    assert_eq!(w.info.enemies_num, 0);
    assert_eq!(w.player_hp(), hp_before);
    assert!(w.take_signals().is_empty());
}

#[test]
fn damage_slows_the_enemy_down() {
    let mut w = running_world();
    let e = follower(
        Vec2i { x: 200_000, y: 200_000 },
        Vec2i { x: 0, y: 0 },
        100_000,
        10_000,
    );
    let h = w.enemies.insert(e);
    w.info.enemies_num = 1;
    w.apply_enemy_damage_event(EnemyTakeDamageEvent { enemy_entity: h }, 500);
    // Slow-down of 2 units/s over 500 ms: one unit slower.
    assert_eq!(w.enemies.get(h).unwrap().current_speed, 99_000);
}

// Spawn cap: with the population at the configured maximum, repeated
// scheduler cycles never increase it.
#[test]
fn spawn_cap_blocks_population_growth() {
    let mut w = running_world();
    w.info.enemies_num = w.config.max_enemies;
    for _ in 0..5 {
        w.enemy_spawn_timer.timer.just_finished = true;
        let spawned = w.spawn_enemies_over_time();
        assert!(spawned.is_none());
        assert_eq!(w.info.enemies_num, w.config.max_enemies);
    }
}

// Boss exclusivity: while a boss token is pending or its boss alive, no
// further tokens are enqueued; the queue stays empty and the population
// counter stays put.
#[test]
fn boss_flag_blocks_spawning_until_boss_dies() {
    let mut w = running_world();
    w.info.is_boss_spawned = true;
    w.info.enemies_num = 1;
    for _ in 0..5 {
        w.enemy_spawn_timer.timer.just_finished = true;
        assert!(w.spawn_enemies_over_time().is_none());
        assert_eq!(w.info.enemies_num, 1);
        assert_eq!(w.info.enemies_spawn_queue.len(), 0);
    }
}

#[test]
fn boss_death_clears_flag_and_signals_world_cleared() {
    let mut w = running_world();
    let mut boss = follower(
        Vec2i { x: 260_000, y: 320_000 },
        Vec2i { x: 0, y: 0 },
        60_000,
        0,
    );
    boss.enemy_type = EnemyType::Boss;
    boss.max_hp = 50_000;
    boss.shooter_ai = Some(ShooterAI {
        max_distance_from_player: 10_000,
        reload_ms: 2_000,
        reload_timer: Timer::new(2_000, TimerMode::Once),
    });
    let h = w.enemies.insert(boss);
    w.info.enemies_num = 1;
    w.info.is_boss_spawned = true;
    w.apply_enemy_damage_event(EnemyTakeDamageEvent { enemy_entity: h }, 100);
    assert!(!w.info.is_boss_spawned);
    assert!(w.enemies.get(h).is_none());
    let signals = w.take_signals();
    assert!(signals.contains(&Signal::WorldCleared));
    assert!(signals.contains(&Signal::ActorDespawned(h)));
}

#[test]
fn spawned_enemy_is_placed_below_the_world() {
    let mut w = running_world();
    w.enemy_spawn_timer.timer.just_finished = true;
    let h = w.spawn_enemies_over_time().unwrap();
    let e = w.enemies.get(h).unwrap();
    assert_eq!(e.enemy_type, EnemyType::Follower);
    assert_eq!(e.state, EnemyState::Spawned);
    assert_eq!(e.current_hp, e.max_hp);
    assert_eq!(e.position.y, -e.collider.size.y);
    // The random horizontal position lies strictly inside its band.
    assert!(0 <= e.position.x && e.position.x < w.config.world_width - e.collider.size.x);
    assert_eq!(w.info.enemies_num, 1);
}

#[test]
fn archetype_choice_follows_depth() {
    let c = Config::standard();
    assert_eq!(choose_archetype(&c, 0, 999), EnemyType::Follower);
    assert_eq!(choose_archetype(&c, 49_999, 999), EnemyType::Follower);
    assert_eq!(choose_archetype(&c, 50_000, 400), EnemyType::Shooter);
    assert_eq!(choose_archetype(&c, 50_000, 399), EnemyType::Follower);
    assert_eq!(choose_archetype(&c, 200_000, 0), EnemyType::Boss);
}

// Invulnerability window scenario: a hit puts the player into the damaged
// state; a second hit one second in is ignored; after the full two-second
// window the player is regular again, with unchanged health.
#[test]
fn invulnerability_window_blocks_second_hit() {
    let mut w = running_world();
    assert_eq!(w.player_hp(), 5);
    w.bus.player_take_damage.push(PlayerTakeDamageEvent);
    w.handle_player_take_damage_event();
    assert_eq!(w.player_hp(), 4);
    assert_eq!(w.player_state, PlayerState::DAMAGED);
    w.bus.clear();
    // One second in: the window is still open, a new hit is ignored.
    w.tick_damage_invulnerability_timer(1000);
    w.bus.player_take_damage.push(PlayerTakeDamageEvent);
    w.handle_player_take_damage_event();
    assert_eq!(w.player_hp(), 4);
    assert_eq!(w.player_state, PlayerState::DAMAGED);
    w.bus.clear();
    // At the two-second mark the window closes.
    w.tick_damage_invulnerability_timer(1000);
    w.player_take_damage_invulnerability();
    assert_eq!(w.player_state, PlayerState::REGULAR);
    assert_eq!(w.player_hp(), 4);
}

#[test]
fn damage_at_minimum_health_is_game_over() {
    let mut w = running_world();
    w.player_info.current_hp = 1;
    w.bus.player_take_damage.push(PlayerTakeDamageEvent);
    w.handle_player_take_damage_event();
    assert_eq!(w.player_hp(), 0);
    assert_eq!(w.bus.game_over.len(), 1);
    w.handle_game_over_event();
    assert_eq!(w.game_state, GameState::Gameover);
    assert!(w.player.is_none());
    assert!(w.take_signals().contains(&Signal::GameOver));
}

// Fuel exhaustion scenario: in overdrive with one unit of fuel and a drain
// of ten units per second, fuel falls below one unit within 200 ms and the
// transition-to-regular event fires exactly once.
#[test]
fn fuel_exhaustion_fires_transition_once() {
    let mut w = running_world();
    w.player_state = PlayerState::CHAINSAW;
    w.player_info.current_fuel = 1_000;
    w.drain_fuel(200);
    assert!(w.player_fuel() < 1_000);
    assert_eq!(w.bus.transition_to_regular.len(), 1);
    w.transition_to_player_regular_state();
    assert_eq!(w.player_state, PlayerState::REGULAR);
    // Out of the chainsaw state, draining stops: no second event.
    w.drain_fuel(200);
    assert_eq!(w.bus.transition_to_regular.len(), 1);
}

#[test]
fn chainsaw_activation_needs_full_fuel_and_press() {
    let mut w = running_world();
    w.player_info.current_fuel = 99_000;
    w.transition_to_player_chainsaw_state(true);
    assert_eq!(w.player_state, PlayerState::REGULAR);
    w.player_info.current_fuel = 100_000;
    w.transition_to_player_chainsaw_state(false);
    assert_eq!(w.player_state, PlayerState::REGULAR);
    w.transition_to_player_chainsaw_state(true);
    assert_eq!(w.player_state, PlayerState::CHAINSAW);
    assert_eq!(w.player.unwrap().current_speed, 450_000);
}

#[test]
fn fuel_regenerates_only_in_regular_state() {
    let mut w = running_world();
    w.player_info.current_fuel = 0;
    w.gain_fuel_over_time(1000);
    // 0.85 units per second.
    assert_eq!(w.player_fuel(), 850);
    w.player_state = PlayerState::DAMAGED;
    w.gain_fuel_over_time(1000);
    assert_eq!(w.player_fuel(), 850);
}

#[test]
fn fuel_pickup_restores_and_disappears() {
    let mut w = running_world();
    w.player_info.current_fuel = 50_000;
    let ppos = w.player.unwrap().position;
    w.pickups.push(Pickup {
        position: ppos,
        collider: Collider {
            size: Vec2i {
                x: 64_000,
                y: 64_000,
            },
        },
        kind: PickupKind::Fuel,
        restore: 25_000,
    });
    w.check_player_pickup_collision();
    assert_eq!(w.player_fuel(), 75_000);
    assert!(w.pickups.is_empty());
}

#[test]
fn health_pickup_clamps_at_maximum() {
    let mut w = running_world();
    w.player_info.current_hp = 5;
    let ppos = w.player.unwrap().position;
    w.pickups.push(Pickup {
        position: ppos,
        collider: Collider {
            size: Vec2i {
                x: 64_000,
                y: 64_000,
            },
        },
        kind: PickupKind::Health,
        restore: 1,
    });
    w.check_player_pickup_collision();
    assert_eq!(w.player_hp(), 5);
    assert!(w.pickups.is_empty());
}

#[test]
fn projectile_flies_and_despawns_at_edge() {
    let mut w = running_world();
    w.projectiles.push(Projectile {
        position: Vec2i {
            x: 260_000,
            y: 320_000,
        },
        speed: 100_000,
        direction: Vec2i { x: 0, y: 1000 },
        collider: Collider {
            size: Vec2i {
                x: 32_000,
                y: 32_000,
            },
        },
    });
    w.handle_projectiles(100);
    assert_eq!(w.projectiles.len(), 1);
    assert_eq!(w.projectiles[0].position.y, 330_000);
    // Park it just inside the upper despawn line and push it over.
    w.projectiles[0].position.y = 607_000;
    w.handle_projectiles(100);
    assert!(w.projectiles.is_empty());
}

#[test]
fn overdrive_contact_reflects_projectiles() {
    let mut w = running_world();
    w.player_state = PlayerState::CHAINSAW;
    let ppos = w.player.unwrap().position;
    w.projectiles.push(Projectile {
        position: ppos,
        speed: 100_000,
        direction: Vec2i { x: 600, y: 800 },
        collider: Collider {
            size: Vec2i {
                x: 32_000,
                y: 32_000,
            },
        },
    });
    w.check_player_projectile_collision();
    assert_eq!(w.projectiles[0].direction, Vec2i { x: -600, y: -800 });
    assert!(w.bus.player_take_damage.is_empty());
}

#[test]
fn regular_contact_with_projectile_wounds_player() {
    let mut w = running_world();
    let ppos = w.player.unwrap().position;
    w.projectiles.push(Projectile {
        position: ppos,
        speed: 100_000,
        direction: Vec2i { x: 0, y: 1000 },
        collider: Collider {
            size: Vec2i {
                x: 32_000,
                y: 32_000,
            },
        },
    });
    w.check_player_projectile_collision();
    assert_eq!(w.bus.player_take_damage.len(), 1);
}

#[test]
fn overheat_crossing_limit_releases_one_fire_wave() {
    let mut w = running_world();
    w.player_info.chainsaw_heat = 90_000;
    let e = follower(
        Vec2i { x: 200_000, y: 200_000 },
        Vec2i { x: 0, y: 0 },
        100_000,
        10_000,
    );
    let h = w.enemies.insert(e);
    w.bus
        .enemy_take_damage
        .push(EnemyTakeDamageEvent { enemy_entity: h });
    // 25 units/s over 1000 ms: one event adds 25 units of heat.
    w.manage_chainsaw_overheat(1000);
    assert_eq!(w.player_info.chainsaw_heat, 0);
    assert_eq!(w.bus.fire_wave.len(), 1);
}

#[test]
fn fire_wave_ignites_and_expiry_reverts() {
    let mut w = running_world();
    let e = follower(
        Vec2i { x: 200_000, y: 200_000 },
        Vec2i { x: 0, y: 0 },
        100_000,
        10_000,
    );
    let h = w.enemies.insert(e);
    w.bus.fire_wave.push(combat_core::events::ChainsawFireWave);
    w.handle_fire_wave_event();
    let burning = w.enemies.get(h).unwrap();
    assert_eq!(burning.state, EnemyState::OnFire);
    assert_eq!(burning.current_speed, 150_000);
    assert!(burning.is_green_decreasing);
    // The four-second fire runs out.
    w.tick_enemy_fire_timer(4000);
    w.handle_on_fire_state();
    let cooled = w.enemies.get(h).unwrap();
    assert_eq!(cooled.state, EnemyState::Engaging);
    assert_eq!(cooled.current_speed, 100_000);
    assert!(!cooled.is_green_decreasing);
}

#[test]
fn progress_saturates_at_max_depth() {
    let mut w = running_world();
    w.info.player_progress = 204_999;
    w.update_player_progress(1000);
    // 1.5 units per second would overshoot: progress clamps at the bottom.
    assert_eq!(w.player_progress(), 205_000);
    w.update_player_progress(1000);
    assert_eq!(w.player_progress(), 205_000);
}

#[test]
fn tick_outside_running_state_is_inert() {
    let mut w = World::new(Config::standard()).unwrap();
    let input = combat_core::world::TickInput {
        cursor_position: None,
        primary_just_pressed: false,
        secondary_just_pressed: false,
    };
    w.tick(100, input);
    assert_eq!(w.game_state, GameState::MainMenu);
    assert_eq!(w.info.player_progress, 0);
    assert!(w.player.is_none());
}

#[test]
fn tick_drains_the_event_bus() {
    let mut w = running_world();
    let input = combat_core::world::TickInput {
        cursor_position: Some(Vec2i {
            x: 260_000,
            y: 320_000,
        }),
        primary_just_pressed: false,
        secondary_just_pressed: false,
    };
    w.tick(100, input);
    assert!(w.bus.player_take_damage.is_empty());
    assert!(w.bus.enemy_take_damage.is_empty());
    assert!(w.bus.fire_wave.is_empty());
    assert!(w.bus.game_over.is_empty());
    assert!(w.bus.transition_to_regular.is_empty());
    // The per-tick phases really ran: the cadences advanced, the world
    // sank 0.15 units deeper, and the pointer position was stored.
    assert_eq!(w.enemy_spawn_timer.timer.elapsed_ms, 100);
    assert_eq!(w.pickup_spawn_timer.timer.elapsed_ms, 100);
    assert_eq!(w.player_progress(), 150);
    assert_eq!(
        w.info.cursor_position,
        Vec2i {
            x: 260_000,
            y: 320_000
        }
    );
}

#[test]
fn roaming_shooter_retargets_within_its_band() {
    let mut w = running_world();
    let mut e = follower(
        Vec2i { x: 100_000, y: 200_000 },
        Vec2i { x: 100_000, y: 200_000 },
        78_000,
        7_500,
    );
    e.enemy_type = EnemyType::Shooter;
    e.collider = Collider {
        size: Vec2i {
            x: 62_000,
            y: 57_000,
        },
    };
    e.destination_reached = true;
    e.shooter_ai = Some(ShooterAI {
        max_distance_from_player: 10_000,
        reload_ms: 1_000,
        reload_timer: Timer::new(1_000, TimerMode::Once),
    });
    let h = w.enemies.insert(e);
    w.handle_shooter_ai();
    let roamed = w.enemies.get(h).unwrap();
    let d = roamed.destination;
    assert!(0 <= d.x && d.x < w.config.world_width - 62_000);
    assert!(0 <= d.y && d.y < w.config.world_height - 57_000);
    // The reload had not completed: no shot was fired.
    assert!(w.projectiles.is_empty());
}

#[test]
fn player_movement_respects_jitter_guard_and_bounds() {
    let mut w = running_world();
    // Pointer right at the player: within ten units, no motion.
    w.info.cursor_position = w.player.unwrap().position;
    let before = w.player.unwrap().position;
    w.move_player(100);
    assert_eq!(w.player.unwrap().position, before);
    // Pointer far to the right: one step of 22.5 units.
    w.info.cursor_position = Vec2i {
        x: 520_000,
        y: before.y,
    };
    w.move_player(100);
    assert_eq!(w.player.unwrap().position.x, before.x + 22_500);
    // A player parked outside the inset is clamped back.
    if let Some(p) = &mut w.player {
        p.position = Vec2i { x: 1_000, y: 1_000 };
    }
    w.limit_player_movement();
    assert_eq!(
        w.player.unwrap().position,
        Vec2i {
            x: 64_000,
            y: 64_000
        }
    );
}

#[test]
fn ignited_enemy_bounces_off_the_edge() {
    let mut w = running_world();
    let mut e = follower(
        Vec2i { x: 90_000, y: 200_000 },
        Vec2i { x: 0, y: 0 },
        100_000,
        10_000,
    );
    e.state = EnemyState::OnFire;
    e.direction = Vec2i { x: -1000, y: 0 };
    e.position = Vec2i { x: 5_000, y: 200_000 };
    let h = w.enemies.insert(e);
    // The left inset is the enemy's own collider half-width (11.5 units):
    // the enemy sits inside it, so the horizontal direction flips and the
    // position clamps onto the inset line.
    w.limit_enemy_movement();
    let bounced = w.enemies.get(h).unwrap();
    assert_eq!(bounced.direction, Vec2i { x: 1000, y: 0 });
    assert_eq!(bounced.position.x, 11_500);
}

#[test]
fn engaged_enemy_is_clamped_not_bounced() {
    let mut w = running_world();
    let e = follower(
        Vec2i { x: 10_000, y: 700_000 },
        Vec2i { x: 0, y: 0 },
        100_000,
        10_000,
    );
    let h = w.enemies.insert(e);
    w.limit_enemy_movement();
    let clamped = w.enemies.get(h).unwrap();
    assert_eq!(clamped.position, Vec2i { x: 11_500, y: 627_000 });
    assert_eq!(clamped.direction, Vec2i { x: 0, y: 0 });
}

#[test]
fn engaging_shooter_fires_at_the_player() {
    let mut w = running_world();
    let mut e = follower(
        Vec2i { x: 100_000, y: 200_000 },
        Vec2i { x: 400_000, y: 400_000 },
        78_000,
        7_500,
    );
    e.enemy_type = EnemyType::Shooter;
    e.shooter_ai = Some(ShooterAI {
        max_distance_from_player: 10_000,
        reload_ms: 1_000,
        reload_timer: Timer::new(1_000, TimerMode::Once),
    });
    let h = w.enemies.insert(e);
    // Let the reload run out, then the shooter fires toward the player
    // (up and to the right of it) and rewinds its reload.
    w.tick_shooter_reloading_timer(1000);
    w.handle_shooter_ai();
    assert_eq!(w.projectiles.len(), 1);
    let p = &w.projectiles[0];
    assert_eq!(p.position, Vec2i { x: 100_000, y: 200_000 });
    assert_eq!(p.speed, 180_000);
    assert!(p.direction.x > 0 && p.direction.y > 0);
    let sa = w.enemies.get(h).unwrap().shooter_ai.unwrap();
    assert_eq!(sa.reload_timer.elapsed_ms, 0);
    // Before the next reload completes, no further shot.
    w.handle_shooter_ai();
    assert_eq!(w.projectiles.len(), 1);
}

#[test]
fn cursor_is_clamped_into_the_world() {
    let mut w = running_world();
    w.get_cursor_world_coordinates(Some(Vec2i {
        x: -5_000,
        y: 900_000,
    }));
    assert_eq!(
        w.info.cursor_position,
        Vec2i {
            x: 0,
            y: 640_000
        }
    );
    let kept = w.info.cursor_position;
    w.get_cursor_world_coordinates(None);
    assert_eq!(w.info.cursor_position, kept);
}

#[test]
fn regular_contact_with_enemy_wounds_player_once() {
    let mut w = running_world();
    let ppos = w.player.unwrap().position;
    let e = follower(ppos, Vec2i { x: 0, y: 0 }, 100_000, 10_000);
    w.enemies.insert(e);
    let e2 = follower(ppos, Vec2i { x: 0, y: 0 }, 100_000, 10_000);
    w.enemies.insert(e2);
    w.check_player_enemy_collision();
    // Two overlapping enemies, but the regular-state sweep stops at the
    // first contact.
    assert_eq!(w.bus.player_take_damage.len(), 1);
}

#[test]
fn overdrive_contact_damages_every_overlapping_enemy() {
    let mut w = running_world();
    w.player_state = PlayerState::CHAINSAW;
    let ppos = w.player.unwrap().position;
    let h1 = w.enemies.insert(follower(ppos, Vec2i { x: 0, y: 0 }, 100_000, 10_000));
    let h2 = w.enemies.insert(follower(ppos, Vec2i { x: 0, y: 0 }, 100_000, 10_000));
    w.check_player_enemy_collision();
    assert_eq!(w.bus.enemy_take_damage.len(), 2);
    assert_eq!(w.bus.enemy_take_damage[0].enemy_entity, h1);
    assert_eq!(w.bus.enemy_take_damage[1].enemy_entity, h2);
}

#[test]
fn pickups_drift_upward() {
    let mut w = running_world();
    w.pickups.push(Pickup {
        position: Vec2i {
            x: 100_000,
            y: -64_000,
        },
        collider: Collider {
            size: Vec2i {
                x: 64_000,
                y: 64_000,
            },
        },
        kind: PickupKind::Fuel,
        restore: 25_000,
    });
    // 100 units/s over 500 ms.
    w.move_pickups_vertically(500);
    assert_eq!(w.pickups[0].position.y, -14_000);
    // Park it above the despawn line.
    w.pickups[0].position.y = 705_000;
    w.despawn_pickups();
    assert!(w.pickups.is_empty());
}

#[test]
fn pickup_spawn_cycle_produces_a_fuel_pickup() {
    let mut w = running_world();
    w.pickup_spawn_timer.timer.just_finished = true;
    w.spawn_pickups_over_time();
    assert!(!w.pickups.is_empty());
    assert_eq!(w.pickups[0].kind, PickupKind::Fuel);
    assert_eq!(w.pickups[0].restore, 25_000);
    assert!(0 <= w.pickups[0].position.x);
    assert!(w.pickups[0].position.x < w.config.world_width - w.pickups[0].collider.size.x);
}
