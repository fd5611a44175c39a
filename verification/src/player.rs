//! The player actor: movement toward the pointer, the bounded fuel pool,
//! chainsaw heat, and the mode data behind the Regular / Damaged /
//! Chainsaw state machine. Mode transitions themselves are driven from the
//! world, which owns the event queues.

use vstd::prelude::*;
use crate::vec2::{Vec2i, POS_LIMIT, dir_toward, move_by_dir, spec_dir_toward, spec_move_by_dir,
    spec_dist, dist};
use crate::collision::Collider;
use crate::config::{SPEED_LIMIT, AMOUNT_LIMIT};
use crate::timer::{Timer, TimerMode, DT_LIMIT, DURATION_LIMIT};
use crate::units::{MILLI, spec_clamp, clamp_i64, lemma_mul_div_bounds};

verus! {

/// Distance, in milli-units, under which the player no longer chases the
/// pointer (the anti-jitter guard).
pub const MOVE_EPSILON: i64 = 10_000;

/// The player's three mutually exclusive modes. `CHAINSAW` is the
/// overdrive mode: melee damage, altered speed and collider, gated by a
/// full fuel pool.
#[allow(non_camel_case_types)]
#[derive(Clone, Copy, PartialEq, Eq, Structural, Debug)]
pub enum PlayerState {
    REGULAR,
    DAMAGED,
    CHAINSAW,
}

/// The live player actor. Exactly one exists while a run is underway.
#[derive(Clone, Copy, PartialEq, Eq, Structural, Debug)]
pub struct Player {
    pub position: Vec2i,
    pub current_speed: i64,
    pub collider: Collider,
}

impl Player {
    pub open spec fn wf(self) -> bool {
        &&& self.position.in_world_range()
        &&& 0 <= self.current_speed <= SPEED_LIMIT
        &&& self.collider.wf()
    }

    /// One movement step toward the pointer position: no motion within the
    /// anti-jitter guard, otherwise an advance of `speed * dt` along the
    /// straight line toward the target.
    pub open spec fn spec_move_toward(self, target: Vec2i, dt: int) -> Player {
        if spec_dist(self.position, target) > MOVE_EPSILON {
            Player {
                position: spec_move_by_dir(
                    self.position,
                    spec_dir_toward(self.position, target),
                    self.current_speed * dt / (MILLI as int),
                ),
                ..self
            }
        } else {
            self
        }
    }

    pub fn move_toward(&mut self, target: Vec2i, dt: i64)
        requires
            old(self).wf(),
            target.in_world_range(),
            0 <= dt <= DT_LIMIT,
        ensures
            *final(self) == old(self).spec_move_toward(target, dt as int),
            final(self).wf(),
    {
        proof {
            lemma_mul_div_bounds(
                self.current_speed as int,
                dt as int,
                SPEED_LIMIT as int,
                DT_LIMIT as int,
                MILLI as int,
            );
        }
        if dist(self.position, target) > MOVE_EPSILON {
            let step = self.current_speed * dt / MILLI;
            let dir = dir_toward(self.position, target);
            self.position = move_by_dir(self.position, dir, step);
        }
    }

    /// Clamps the player into the world inset by the active collider size
    /// on each side.
    pub open spec fn spec_limit_movement(self, width: i64, height: i64) -> Player {
        Player {
            position: Vec2i {
                x: spec_clamp(
                    self.position.x as int,
                    self.collider.size.x as int,
                    width - self.collider.size.x,
                ) as i64,
                y: spec_clamp(
                    self.position.y as int,
                    self.collider.size.y as int,
                    height - self.collider.size.y,
                ) as i64,
            },
            ..self
        }
    }

    pub fn limit_movement(&mut self, width: i64, height: i64)
        requires
            old(self).wf(),
            0 < width <= POS_LIMIT,
            0 < height <= POS_LIMIT,
            2 * old(self).collider.size.x <= width,
            2 * old(self).collider.size.y <= height,
        ensures
            *final(self) == old(self).spec_limit_movement(width, height),
            final(self).wf(),
    {
        self.position = Vec2i {
            x: clamp_i64(self.position.x, self.collider.size.x, width - self.collider.size.x),
            y: clamp_i64(self.position.y, self.collider.size.y, height - self.collider.size.y),
        };
    }
}

/// The player's bookkeeping that survives mode changes: health, fuel,
/// chainsaw heat, score, and the minigame's fuel stakes.
#[derive(Clone, Copy, PartialEq, Eq, Structural, Debug)]
pub struct PlayerInfo {
    pub current_fuel: i64,
    pub current_hp: usize,
    pub blood: usize,
    pub chainsaw_heat: i64,
    pub counter_attack_fuel_loss: i64,
    pub counter_attack_fuel_gain: i64,
}

impl PlayerInfo {
    pub open spec fn wf(self, fuel_capacity: i64, max_health: usize, heat_limit: i64) -> bool {
        &&& 0 <= self.current_fuel <= fuel_capacity
        &&& self.current_hp <= max_health
        &&& 0 <= self.chainsaw_heat <= heat_limit
        &&& -AMOUNT_LIMIT <= self.counter_attack_fuel_loss <= 0
        &&& 0 <= self.counter_attack_fuel_gain <= AMOUNT_LIMIT
    }
}

/// Adjusts the player's fuel by `amount` (negative to spend), clamped into
/// `[0, capacity]`.
pub fn change_player_fuel(player_info: &mut PlayerInfo, amount: i64, capacity: i64)
    requires
        -AMOUNT_LIMIT <= old(player_info).current_fuel <= AMOUNT_LIMIT,
        -1_000_000_000_000_000 <= amount <= 1_000_000_000_000_000,
        0 < capacity <= AMOUNT_LIMIT,
    ensures
        *final(player_info) == (PlayerInfo {
            current_fuel: spec_clamp(
                old(player_info).current_fuel + amount,
                0,
                capacity as int,
            ) as i64,
            ..*old(player_info)
        }),
        0 <= final(player_info).current_fuel <= capacity,
{
    player_info.current_fuel = clamp_i64(player_info.current_fuel + amount, 0, capacity);
}

/// Countdown of the post-damage invulnerability window.
#[derive(Clone, Copy, PartialEq, Eq, Structural, Debug)]
pub struct PlayerDamageInvulnerabilityTimer {
    pub timer: Timer,
}

impl PlayerDamageInvulnerabilityTimer {
    pub fn new(duration_ms: i64) -> (r: PlayerDamageInvulnerabilityTimer)
        requires
            0 < duration_ms <= DURATION_LIMIT,
        ensures
            r.timer == (Timer {
                duration_ms,
                elapsed_ms: 0,
                mode: TimerMode::Once,
                just_finished: false,
            }),
            r.timer.wf(),
    {
        PlayerDamageInvulnerabilityTimer { timer: Timer::new(duration_ms, TimerMode::Once) }
    }
}

} // verus!
