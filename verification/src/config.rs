//! Named numeric constants supplied at initialization: speeds, capacities,
//! durations, thresholds and spawn weights. Malformed constants are a
//! startup-time fatal condition, so `World::new` rejects a configuration
//! that fails `validate`; every per-tick function then relies on `wf`.
//!
//! Quantities are fixed-point: milli-units for lengths and resources,
//! milliseconds for durations, milli-units per second for rates, and
//! per-mille for probability thresholds and the spawn speed factor.

use vstd::prelude::*;
use crate::vec2::{Vec2i, POS_LIMIT};
use crate::timer::DURATION_LIMIT;
use crate::units::MILLI;

verus! {

/// Largest accepted speed, in milli-units per second.
pub const SPEED_LIMIT: i64 = 10_000_000;

/// Largest accepted rate of change, in milli-units per second.
pub const RATE_LIMIT: i64 = 1_000_000_000;

/// Largest accepted resource or health quantity, in milli-units.
pub const AMOUNT_LIMIT: i64 = 1_000_000_000;

#[derive(Clone, Copy, PartialEq, Eq, Structural, Debug)]
pub struct Config {
    // World extent, in milli-units. Coordinates run from zero to these.
    pub world_width: i64,
    pub world_height: i64,

    // Depth progression.
    pub max_depth: i64,
    pub player_falling_speed: i64,

    // Pickups.
    pub pickup_speed: i64,
    pub pickup_spawn_period_ms: i64,
    pub health_spawn_threshold_pm: i64,
    pub fuel_pickup_collider: Vec2i,
    pub health_pickup_collider: Vec2i,
    pub fuel_pickup_restore: i64,
    pub health_pickup_restore: usize,

    // Spawn scheduling.
    pub max_enemies: usize,
    pub enemy_spawn_period_ms: i64,
    pub enemy_speed_min_pm: i64,
    pub enemy_speed_max_pm: i64,
    pub shooter_roll_threshold_pm: i64,

    // Enemy archetypes.
    pub follower_speed: i64,
    pub follower_health: i64,
    pub follower_collider: Vec2i,
    pub follower_depth: i64,

    pub shooter_speed: i64,
    pub shooter_health: i64,
    pub shooter_collider: Vec2i,
    pub shooter_depth: i64,
    pub shooter_reload_ms: i64,
    pub shooter_distance_from_player: i64,
    pub shooter_projectile_speed: i64,
    pub shooter_projectile_collider: Vec2i,

    pub boss_speed: i64,
    pub boss_health: i64,
    pub boss_collider: Vec2i,
    pub boss_depth: i64,
    pub boss_reload_ms: i64,
    pub boss_distance_from_player: i64,
    pub boss_projectile_speed: i64,
    pub boss_projectile_collider: Vec2i,

    // Ignition.
    pub fire_duration_ms: i64,
    pub on_fire_speed_gain: i64,

    // Player.
    pub player_max_health: usize,
    pub player_fuel_capacity: i64,
    pub player_invulnerability_ms: i64,
    pub player_regular_speed: i64,
    pub player_chainsaw_speed: i64,
    pub player_regular_collider: Vec2i,
    pub player_chainsaw_collider: Vec2i,
    pub player_damage_rate: i64,
    pub chainsaw_slow_down_rate: i64,
    pub chainsaw_fuel_drain_rate: i64,
    pub passive_fuel_gain_rate: i64,
    pub chainsaw_heat_rate: i64,
    pub chainsaw_heat_limit: i64,
    pub counter_attack_fuel_loss: i64,
    pub counter_attack_fuel_gain: i64,

    // Counter-attack minigame.
    pub challenge_len: usize,
    pub challenge_duration_ms: i64,
    pub follower_counter_threshold: i64,
    pub shooter_counter_threshold: i64,
    pub boss_counter_threshold: i64,
    pub enemy_heal_on_fail: i64,
}

/// A collider size that leaves room inside the world when the position is
/// inset by the full size on each side.
pub open spec fn collider_fits(size: Vec2i, width: i64, height: i64) -> bool {
    &&& 0 <= size.x && 2 * size.x <= width
    &&& 0 <= size.y && 2 * size.y <= height
}

/// Executable counterpart of `collider_fits`.
pub fn fits_collider(size: Vec2i, w: i64, h: i64) -> (r: bool)
    requires
        0 < w <= POS_LIMIT,
        0 < h <= POS_LIMIT,
    ensures
        r == collider_fits(size, w, h),
{
    0 <= size.x && size.x <= POS_LIMIT && 2 * size.x <= w && 0 <= size.y && size.y <= POS_LIMIT
        && 2 * size.y <= h
}

impl Config {
    pub open spec fn wf(self) -> bool {
        &&& 0 < self.world_width <= POS_LIMIT
        &&& 0 < self.world_height <= POS_LIMIT
        &&& 0 < self.max_depth <= POS_LIMIT
        &&& 0 <= self.player_falling_speed <= RATE_LIMIT
        &&& 0 <= self.pickup_speed <= SPEED_LIMIT
        &&& 0 < self.pickup_spawn_period_ms <= DURATION_LIMIT
        &&& 0 <= self.health_spawn_threshold_pm <= MILLI
        &&& collider_fits(self.fuel_pickup_collider, self.world_width, self.world_height)
        &&& collider_fits(self.health_pickup_collider, self.world_width, self.world_height)
        &&& 0 <= self.fuel_pickup_restore <= AMOUNT_LIMIT
        &&& self.health_pickup_restore <= 1000
        &&& self.max_enemies <= 1_000_000
        &&& 0 < self.enemy_spawn_period_ms <= DURATION_LIMIT
        &&& 0 <= self.enemy_speed_min_pm <= self.enemy_speed_max_pm <= MILLI
        &&& 0 <= self.shooter_roll_threshold_pm <= MILLI
        &&& 0 <= self.follower_speed && self.follower_speed + self.on_fire_speed_gain <= SPEED_LIMIT
        &&& 0 < self.follower_health <= AMOUNT_LIMIT
        &&& collider_fits(self.follower_collider, self.world_width, self.world_height)
        &&& 0 <= self.shooter_speed && self.shooter_speed + self.on_fire_speed_gain <= SPEED_LIMIT
        &&& 0 < self.shooter_health <= AMOUNT_LIMIT
        &&& collider_fits(self.shooter_collider, self.world_width, self.world_height)
        &&& 0 < self.shooter_reload_ms <= DURATION_LIMIT
        &&& 0 <= self.shooter_distance_from_player <= POS_LIMIT
        &&& 0 <= self.shooter_projectile_speed <= SPEED_LIMIT
        &&& collider_fits(self.shooter_projectile_collider, self.world_width, self.world_height)
        &&& 0 <= self.boss_speed && self.boss_speed + self.on_fire_speed_gain <= SPEED_LIMIT
        &&& 0 < self.boss_health <= AMOUNT_LIMIT
        &&& collider_fits(self.boss_collider, self.world_width, self.world_height)
        &&& 0 < self.boss_reload_ms <= DURATION_LIMIT
        &&& 0 <= self.boss_distance_from_player <= POS_LIMIT
        &&& 0 <= self.boss_projectile_speed <= SPEED_LIMIT
        &&& collider_fits(self.boss_projectile_collider, self.world_width, self.world_height)
        &&& 0 <= self.follower_depth <= self.shooter_depth <= self.boss_depth <= self.max_depth
        &&& 0 < self.fire_duration_ms <= DURATION_LIMIT
        &&& 0 <= self.on_fire_speed_gain <= SPEED_LIMIT
        &&& 0 < self.player_max_health <= 1000
        &&& 0 < self.player_fuel_capacity <= AMOUNT_LIMIT
        &&& 0 < self.player_invulnerability_ms <= DURATION_LIMIT
        &&& 0 <= self.player_regular_speed <= SPEED_LIMIT
        &&& 0 <= self.player_chainsaw_speed <= SPEED_LIMIT
        &&& collider_fits(self.player_regular_collider, self.world_width, self.world_height)
        &&& collider_fits(self.player_chainsaw_collider, self.world_width, self.world_height)
        &&& 0 <= self.player_damage_rate <= RATE_LIMIT
        &&& 0 <= self.chainsaw_slow_down_rate <= RATE_LIMIT
        &&& 0 <= self.chainsaw_fuel_drain_rate <= RATE_LIMIT
        &&& 0 <= self.passive_fuel_gain_rate <= RATE_LIMIT
        &&& 0 <= self.chainsaw_heat_rate <= RATE_LIMIT
        &&& 0 < self.chainsaw_heat_limit <= AMOUNT_LIMIT
        &&& -AMOUNT_LIMIT <= self.counter_attack_fuel_loss <= 0
        &&& 0 <= self.counter_attack_fuel_gain <= AMOUNT_LIMIT
        &&& 0 < self.challenge_len <= 1000
        &&& 0 < self.challenge_duration_ms <= DURATION_LIMIT
        &&& 0 <= self.follower_counter_threshold <= self.follower_health
        &&& 0 <= self.shooter_counter_threshold <= self.shooter_health
        &&& 0 <= self.boss_counter_threshold <= self.boss_health
        &&& 0 <= self.enemy_heal_on_fail <= AMOUNT_LIMIT
    }

    /// Executable check mirroring `wf`; startup rejects a configuration
    /// for which this is false.
    pub fn validate(&self) -> (r: bool)
        ensures
            r == self.wf(),
    {
        if !(0 < self.world_width && self.world_width <= POS_LIMIT) {
            return false;
        }
        if !(0 < self.world_height && self.world_height <= POS_LIMIT) {
            return false;
        }
        if !(0 <= self.on_fire_speed_gain && self.on_fire_speed_gain <= SPEED_LIMIT) {
            return false;
        }
        let w = self.world_width;
        let h = self.world_height;
        (0 < self.max_depth && self.max_depth <= POS_LIMIT)
            && (0 <= self.player_falling_speed && self.player_falling_speed <= RATE_LIMIT)
            && (0 <= self.pickup_speed && self.pickup_speed <= SPEED_LIMIT)
            && (0 < self.pickup_spawn_period_ms && self.pickup_spawn_period_ms <= DURATION_LIMIT)
            && (0 <= self.health_spawn_threshold_pm && self.health_spawn_threshold_pm <= MILLI)
            && fits_collider(self.fuel_pickup_collider, w, h)
            && fits_collider(self.health_pickup_collider, w, h)
            && (0 <= self.fuel_pickup_restore && self.fuel_pickup_restore <= AMOUNT_LIMIT)
            && self.health_pickup_restore <= 1000
            && self.max_enemies <= 1_000_000
            && (0 < self.enemy_spawn_period_ms && self.enemy_spawn_period_ms <= DURATION_LIMIT)
            && (0 <= self.enemy_speed_min_pm && self.enemy_speed_min_pm <= self.enemy_speed_max_pm
                && self.enemy_speed_max_pm <= MILLI)
            && (0 <= self.shooter_roll_threshold_pm && self.shooter_roll_threshold_pm <= MILLI)
            && (0 <= self.follower_speed
                && self.follower_speed <= SPEED_LIMIT - self.on_fire_speed_gain)
            && (0 < self.follower_health && self.follower_health <= AMOUNT_LIMIT)
            && fits_collider(self.follower_collider, w, h)
            && (0 <= self.shooter_speed
                && self.shooter_speed <= SPEED_LIMIT - self.on_fire_speed_gain)
            && (0 < self.shooter_health && self.shooter_health <= AMOUNT_LIMIT)
            && fits_collider(self.shooter_collider, w, h)
            && (0 < self.shooter_reload_ms && self.shooter_reload_ms <= DURATION_LIMIT)
            && (0 <= self.shooter_distance_from_player
                && self.shooter_distance_from_player <= POS_LIMIT)
            && (0 <= self.shooter_projectile_speed && self.shooter_projectile_speed <= SPEED_LIMIT)
            && fits_collider(self.shooter_projectile_collider, w, h)
            && (0 <= self.boss_speed && self.boss_speed <= SPEED_LIMIT - self.on_fire_speed_gain)
            && (0 < self.boss_health && self.boss_health <= AMOUNT_LIMIT)
            && fits_collider(self.boss_collider, w, h)
            && (0 < self.boss_reload_ms && self.boss_reload_ms <= DURATION_LIMIT)
            && (0 <= self.boss_distance_from_player && self.boss_distance_from_player <= POS_LIMIT)
            && (0 <= self.boss_projectile_speed && self.boss_projectile_speed <= SPEED_LIMIT)
            && fits_collider(self.boss_projectile_collider, w, h)
            && (0 <= self.follower_depth && self.follower_depth <= self.shooter_depth
                && self.shooter_depth <= self.boss_depth && self.boss_depth <= self.max_depth)
            && (0 < self.fire_duration_ms && self.fire_duration_ms <= DURATION_LIMIT)
            && (0 < self.player_max_health && self.player_max_health <= 1000)
            && (0 < self.player_fuel_capacity && self.player_fuel_capacity <= AMOUNT_LIMIT)
            && (0 < self.player_invulnerability_ms
                && self.player_invulnerability_ms <= DURATION_LIMIT)
            && (0 <= self.player_regular_speed && self.player_regular_speed <= SPEED_LIMIT)
            && (0 <= self.player_chainsaw_speed && self.player_chainsaw_speed <= SPEED_LIMIT)
            && fits_collider(self.player_regular_collider, w, h)
            && fits_collider(self.player_chainsaw_collider, w, h)
            && (0 <= self.player_damage_rate && self.player_damage_rate <= RATE_LIMIT)
            && (0 <= self.chainsaw_slow_down_rate && self.chainsaw_slow_down_rate <= RATE_LIMIT)
            && (0 <= self.chainsaw_fuel_drain_rate && self.chainsaw_fuel_drain_rate <= RATE_LIMIT)
            && (0 <= self.passive_fuel_gain_rate && self.passive_fuel_gain_rate <= RATE_LIMIT)
            && (0 <= self.chainsaw_heat_rate && self.chainsaw_heat_rate <= RATE_LIMIT)
            && (0 < self.chainsaw_heat_limit && self.chainsaw_heat_limit <= AMOUNT_LIMIT)
            && (-AMOUNT_LIMIT <= self.counter_attack_fuel_loss && self.counter_attack_fuel_loss <= 0)
            && (0 <= self.counter_attack_fuel_gain && self.counter_attack_fuel_gain <= AMOUNT_LIMIT)
            && (0 < self.challenge_len && self.challenge_len <= 1000)
            && (0 < self.challenge_duration_ms && self.challenge_duration_ms <= DURATION_LIMIT)
            && (0 <= self.follower_counter_threshold
                && self.follower_counter_threshold <= self.follower_health)
            && (0 <= self.shooter_counter_threshold
                && self.shooter_counter_threshold <= self.shooter_health)
            && (0 <= self.boss_counter_threshold
                && self.boss_counter_threshold <= self.boss_health)
            && (0 <= self.enemy_heal_on_fail && self.enemy_heal_on_fail <= AMOUNT_LIMIT)
    }

    /// The stock tuning of the game: a 520 x 640 unit world, a five-point
    /// player, three enemy archetypes, and the counter-attack minigame over
    /// five binary tokens.
    pub fn standard() -> (r: Config)
        ensures
            r.wf(),
    {
        let c = Config {
            world_width: 520_000,
            world_height: 640_000,
            max_depth: 205_000,
            player_falling_speed: 1_500,
            pickup_speed: 100_000,
            pickup_spawn_period_ms: 5_000,
            health_spawn_threshold_pm: 400,
            fuel_pickup_collider: Vec2i { x: 64_000, y: 64_000 },
            health_pickup_collider: Vec2i { x: 64_000, y: 64_000 },
            fuel_pickup_restore: 25_000,
            health_pickup_restore: 1,
            max_enemies: 6,
            enemy_spawn_period_ms: 3_500,
            enemy_speed_min_pm: 850,
            enemy_speed_max_pm: 1_000,
            shooter_roll_threshold_pm: 400,
            follower_speed: 132_600,
            follower_health: 10_000,
            follower_collider: Vec2i { x: 23_000, y: 26_000 },
            follower_depth: 0,
            shooter_speed: 78_000,
            shooter_health: 7_500,
            shooter_collider: Vec2i { x: 62_000, y: 57_000 },
            shooter_depth: 50_000,
            shooter_reload_ms: 1_000,
            shooter_distance_from_player: 10_000,
            shooter_projectile_speed: 180_000,
            shooter_projectile_collider: Vec2i { x: 32_000, y: 32_000 },
            boss_speed: 60_000,
            boss_health: 50_000,
            boss_collider: Vec2i { x: 124_000, y: 114_000 },
            boss_depth: 200_000,
            boss_reload_ms: 2_000,
            boss_distance_from_player: 10_000,
            boss_projectile_speed: 220_000,
            boss_projectile_collider: Vec2i { x: 64_000, y: 64_000 },
            fire_duration_ms: 4_000,
            on_fire_speed_gain: 50_000,
            player_max_health: 5,
            player_fuel_capacity: 100_000,
            player_invulnerability_ms: 2_000,
            player_regular_speed: 225_000,
            player_chainsaw_speed: 450_000,
            player_regular_collider: Vec2i { x: 64_000, y: 64_000 },
            player_chainsaw_collider: Vec2i { x: 96_000, y: 96_000 },
            player_damage_rate: 30_000,
            chainsaw_slow_down_rate: 2_000,
            chainsaw_fuel_drain_rate: 10_000,
            passive_fuel_gain_rate: 850,
            chainsaw_heat_rate: 25_000,
            chainsaw_heat_limit: 100_000,
            counter_attack_fuel_loss: -25_000,
            counter_attack_fuel_gain: 5_000,
            challenge_len: 5,
            challenge_duration_ms: 3_000,
            follower_counter_threshold: 3_000,
            shooter_counter_threshold: 2_250,
            boss_counter_threshold: 15_000,
            enemy_heal_on_fail: 2_000,
        };
        c
    }
}

} // verus!
