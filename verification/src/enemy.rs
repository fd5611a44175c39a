//! Enemy actors: archetype, behavioral state, health, movement and the
//! per-enemy transitions. An enemy spawns outside the lower world edge,
//! stages toward a destination just inside it, then engages; while
//! engaging it may be ignited, boosting its speed until the fire timer
//! runs out. Health and speed are clamped at every mutation.

use vstd::prelude::*;
use crate::vec2::{Vec2i, POS_LIMIT, spec_dir_toward, dir_toward, spec_move_by_dir, move_by_dir,
    spec_dist, dist};
use crate::collision::Collider;
use crate::config::{SPEED_LIMIT, RATE_LIMIT, AMOUNT_LIMIT};
use crate::timer::{Timer, TimerMode, DT_LIMIT};
use crate::units::{MILLI, spec_clamp, clamp_i64, lemma_mul_div_bounds};

verus! {

/// Distance, in milli-units, below which a destination counts as reached.
pub const DESTINATION_EPSILON: i64 = 1000;

/// Behavioral category of an enemy, fixing its base stats and AI.
#[derive(Clone, Copy, PartialEq, Eq, Structural, Debug)]
pub enum EnemyType {
    Follower,
    Shooter,
    Boss,
}

/// Behavioral state: staging toward the arena, actively engaging, or
/// ignited (an engaging sub-mode with boosted speed and edge bouncing).
#[derive(Clone, Copy, PartialEq, Eq, Structural, Debug)]
pub enum EnemyState {
    Spawned,
    Engaging,
    OnFire,
}

/// Countdown for the ignited sub-mode.
#[derive(Clone, Copy, PartialEq, Eq, Structural, Debug)]
pub struct FireTimer {
    pub timer: Timer,
}

impl FireTimer {
    pub fn new(duration_ms: i64) -> (r: FireTimer)
        requires
            0 < duration_ms <= crate::timer::DURATION_LIMIT,
        ensures
            r.timer == (Timer {
                duration_ms,
                elapsed_ms: 0,
                mode: TimerMode::Once,
                just_finished: false,
            }),
            r.timer.wf(),
    {
        FireTimer { timer: Timer::new(duration_ms, TimerMode::Once) }
    }
}

/// Ranged-archetype extras: engagement range and reload cadence.
#[derive(Clone, Copy, PartialEq, Eq, Structural, Debug)]
pub struct ShooterAI {
    pub max_distance_from_player: i64,
    pub reload_ms: i64,
    pub reload_timer: Timer,
}

impl ShooterAI {
    pub open spec fn wf(self) -> bool {
        &&& 0 <= self.max_distance_from_player <= POS_LIMIT
        &&& self.reload_timer.wf()
    }
}

#[derive(Clone, Copy, PartialEq, Eq, Structural, Debug)]
pub struct Enemy {
    pub position: Vec2i,

    pub max_hp: i64,
    pub current_hp: i64,

    pub default_speed: i64,
    pub current_speed: i64,

    pub enemy_type: EnemyType,
    pub depth_level: i64,

    pub collider: Collider,
    pub state: EnemyState,

    pub direction: Vec2i,
    pub destination: Vec2i,

    pub destination_reached: bool,

    /// Drives the ignited visual flash; presentation reads it, the core
    /// only sets it on ignition and clears it on expiry.
    pub is_green_decreasing: bool,

    pub fire_timer: FireTimer,

    /// Present exactly on the ranged archetypes (shooter and boss).
    pub shooter_ai: Option<ShooterAI>,
}

impl Enemy {
    pub open spec fn wf(self) -> bool {
        &&& self.position.in_world_range()
        &&& self.destination.in_world_range()
        &&& self.direction.is_unit_range()
        &&& 0 < self.max_hp <= AMOUNT_LIMIT
        &&& 0 <= self.current_hp <= self.max_hp
        &&& 0 <= self.default_speed <= SPEED_LIMIT
        &&& 0 <= self.current_speed <= SPEED_LIMIT
        &&& 0 <= self.depth_level <= POS_LIMIT
        &&& self.collider.wf()
        &&& self.fire_timer.timer.wf()
        &&& (self.shooter_ai is Some <==> (self.enemy_type == EnemyType::Shooter
            || self.enemy_type == EnemyType::Boss))
        &&& (self.shooter_ai is Some ==> self.shooter_ai->Some_0.wf())
    }

    /// One movement step: a staged enemy that has reached its destination
    /// starts engaging; an ignited enemy runs blindly along its stored
    /// direction; otherwise the direction is recomputed toward the
    /// destination (or away from it, for a follower fleeing an overdrive
    /// player) and the enemy advances unless it is already within the
    /// arrival epsilon.
    pub open spec fn spec_step_movement(self, dt: int, player_in_chainsaw: bool) -> Enemy {
        let s = if self.destination_reached && self.state == EnemyState::Spawned {
            Enemy { state: EnemyState::Engaging, ..self }
        } else {
            self
        };
        let step = s.current_speed * dt / (MILLI as int);
        if s.state == EnemyState::OnFire {
            Enemy {
                destination_reached: false,
                position: spec_move_by_dir(s.position, s.direction, step),
                ..s
            }
        } else {
            let dir = if s.enemy_type == EnemyType::Follower && player_in_chainsaw {
                spec_dir_toward(s.destination, s.position)
            } else {
                spec_dir_toward(s.position, s.destination)
            };
            if spec_dist(s.position, s.destination) > DESTINATION_EPSILON {
                Enemy {
                    direction: dir,
                    destination_reached: false,
                    position: spec_move_by_dir(s.position, dir, step),
                    ..s
                }
            } else {
                Enemy { direction: dir, destination_reached: true, ..s }
            }
        }
    }

    pub fn step_movement(&mut self, dt: i64, player_in_chainsaw: bool)
        requires
            old(self).wf(),
            0 <= dt <= DT_LIMIT,
        ensures
            *final(self) == old(self).spec_step_movement(dt as int, player_in_chainsaw),
            final(self).wf(),
    {
        if self.destination_reached && self.state == EnemyState::Spawned {
            self.state = EnemyState::Engaging;
        }
        proof {
            lemma_mul_div_bounds(
                self.current_speed as int,
                dt as int,
                SPEED_LIMIT as int,
                DT_LIMIT as int,
                MILLI as int,
            );
        }
        let step = self.current_speed * dt / MILLI;
        if self.state == EnemyState::OnFire {
            self.destination_reached = false;
            self.position = move_by_dir(self.position, self.direction, step);
        } else {
            let dir = if self.enemy_type == EnemyType::Follower && player_in_chainsaw {
                dir_toward(self.destination, self.position)
            } else {
                dir_toward(self.position, self.destination)
            };
            self.direction = dir;
            if dist(self.position, self.destination) > DESTINATION_EPSILON {
                self.destination_reached = false;
                self.position = move_by_dir(self.position, dir, step);
            } else {
                self.destination_reached = true;
            }
        }
    }

    /// The clamp box of an enemy: the world inset by its own collider
    /// half-size on each side, falling back to the whole world for a
    /// collider wider than the world itself.
    pub open spec fn spec_clamp_bounds(self, width: i64, height: i64) -> (int, int, int, int) {
        let half_x = self.collider.size.x as int / 2;
        let half_y = self.collider.size.y as int / 2;
        let (min_x, max_x) = if self.collider.size.x <= width {
            (half_x, width - half_x)
        } else {
            (0int, width as int)
        };
        let (min_y, max_y) = if self.collider.size.y <= height {
            (half_y, height - half_y)
        } else {
            (0int, height as int)
        };
        (min_x, max_x, min_y, max_y)
    }

    /// Edge handling after movement: a staged enemy is left alone; an
    /// ignited enemy bounces (flips the direction component pointing out
    /// of bounds); every engaged enemy is clamped into the world inset by
    /// its own collider half-size on each side.
    pub open spec fn spec_limit_movement(self, width: i64, height: i64) -> Enemy {
        if self.state == EnemyState::Spawned {
            self
        } else {
            let (min_x, max_x, min_y, max_y) = self.spec_clamp_bounds(width, height);
            let dir = if self.state == EnemyState::OnFire {
                Vec2i {
                    x: if self.position.x < min_x || self.position.x > max_x {
                        (-self.direction.x) as i64
                    } else {
                        self.direction.x
                    },
                    y: if self.position.y < min_y || self.position.y > max_y {
                        (-self.direction.y) as i64
                    } else {
                        self.direction.y
                    },
                }
            } else {
                self.direction
            };
            Enemy {
                direction: dir,
                position: Vec2i {
                    x: spec_clamp(self.position.x as int, min_x as int, max_x as int) as i64,
                    y: spec_clamp(self.position.y as int, min_y as int, max_y as int) as i64,
                },
                ..self
            }
        }
    }

    pub fn limit_movement(&mut self, width: i64, height: i64)
        requires
            old(self).wf(),
            0 < width <= POS_LIMIT,
            0 < height <= POS_LIMIT,
        ensures
            *final(self) == old(self).spec_limit_movement(width, height),
            final(self).wf(),
    {
        if self.state == EnemyState::Spawned {
            return;
        }
        let (min_x, max_x) = if self.collider.size.x <= width {
            (self.collider.size.x / 2, width - self.collider.size.x / 2)
        } else {
            (0, width)
        };
        let (min_y, max_y) = if self.collider.size.y <= height {
            (self.collider.size.y / 2, height - self.collider.size.y / 2)
        } else {
            (0, height)
        };
        if self.state == EnemyState::OnFire {
            if self.position.x < min_x || self.position.x > max_x {
                self.direction = Vec2i { x: -self.direction.x, y: self.direction.y };
            }
            if self.position.y < min_y || self.position.y > max_y {
                self.direction = Vec2i { x: self.direction.x, y: -self.direction.y };
            }
        }
        self.position = Vec2i {
            x: clamp_i64(self.position.x, min_x, max_x),
            y: clamp_i64(self.position.y, min_y, max_y),
        };
    }

    /// Sustained contact damage over `dt`: health drops by
    /// `damage_rate * dt`, speed by `slow_rate * dt`, both floored at zero.
    pub fn take_damage(&mut self, dt: i64, damage_rate: i64, slow_rate: i64)
        requires
            old(self).wf(),
            0 <= dt <= DT_LIMIT,
            0 <= damage_rate <= RATE_LIMIT,
            0 <= slow_rate <= RATE_LIMIT,
        ensures
            *final(self) == (Enemy {
                current_hp: spec_clamp(
                    old(self).current_hp - damage_rate * dt / (MILLI as int),
                    0,
                    old(self).max_hp as int,
                ) as i64,
                current_speed: spec_clamp(
                    old(self).current_speed - slow_rate * dt / (MILLI as int),
                    0,
                    SPEED_LIMIT as int,
                ) as i64,
                ..*old(self)
            }),
            final(self).wf(),
            final(self).current_hp <= old(self).current_hp,
    {
        proof {
            lemma_mul_div_bounds(
                damage_rate as int,
                dt as int,
                RATE_LIMIT as int,
                DT_LIMIT as int,
                MILLI as int,
            );
            lemma_mul_div_bounds(
                slow_rate as int,
                dt as int,
                RATE_LIMIT as int,
                DT_LIMIT as int,
                MILLI as int,
            );
        }
        let damage = damage_rate * dt / MILLI;
        let slow = slow_rate * dt / MILLI;
        self.current_hp = if self.current_hp - damage < 0 {
            0
        } else {
            self.current_hp - damage
        };
        self.current_speed = if self.current_speed - slow < 0 {
            0
        } else {
            self.current_speed - slow
        };
    }

    /// Ignition while engaging: enter the fire sub-mode, boost speed by
    /// `gain` (clamped to the speed limit), start the flash, restart the
    /// fire countdown.
    pub fn ignite(&mut self, gain: i64)
        requires
            old(self).wf(),
            old(self).state == EnemyState::Engaging,
            0 <= gain <= SPEED_LIMIT,
        ensures
            *final(self) == (Enemy {
                state: EnemyState::OnFire,
                current_speed: spec_clamp(
                    old(self).current_speed + gain,
                    0,
                    SPEED_LIMIT as int,
                ) as i64,
                is_green_decreasing: true,
                fire_timer: FireTimer {
                    timer: Timer {
                        elapsed_ms: 0,
                        just_finished: false,
                        ..old(self).fire_timer.timer
                    },
                },
                ..*old(self)
            }),
            final(self).wf(),
    {
        self.state = EnemyState::OnFire;
        self.current_speed = clamp_i64(self.current_speed + gain, 0, SPEED_LIMIT);
        self.is_green_decreasing = true;
        self.fire_timer.timer.reset();
    }

    /// Expiry of the fire sub-mode: back to engaging, the speed boost is
    /// removed (floored at zero) and the flash stops.
    pub fn extinguish(&mut self, gain: i64)
        requires
            old(self).wf(),
            old(self).state == EnemyState::OnFire,
            0 <= gain <= SPEED_LIMIT,
        ensures
            *final(self) == (Enemy {
                state: EnemyState::Engaging,
                current_speed: spec_clamp(
                    old(self).current_speed - gain,
                    0,
                    SPEED_LIMIT as int,
                ) as i64,
                is_green_decreasing: false,
                destination_reached: false,
                ..*old(self)
            }),
            final(self).wf(),
    {
        self.state = EnemyState::Engaging;
        self.current_speed = clamp_i64(self.current_speed - gain, 0, SPEED_LIMIT);
        self.is_green_decreasing = false;
        self.destination_reached = false;
    }
}

/// Adjusts an enemy's health by `amount` (negative for harm), clamped into
/// `[0, max_hp]`.
pub fn change_enemy_health(enemy: &mut Enemy, amount: i64)
    requires
        old(enemy).wf(),
        -AMOUNT_LIMIT <= amount <= AMOUNT_LIMIT,
    ensures
        *final(enemy) == (Enemy {
            current_hp: spec_clamp(
                old(enemy).current_hp + amount,
                0,
                old(enemy).max_hp as int,
            ) as i64,
            ..*old(enemy)
        }),
        final(enemy).wf(),
{
    enemy.current_hp = clamp_i64(enemy.current_hp + amount, 0, enemy.max_hp);
}

} // verus!
