//! The spawn scheduler: when the spawn timer completes, and neither the
//! population cap nor a pending boss blocks it, an archetype token is
//! chosen by world-progress depth, enqueued, and the front token of the
//! queue is instantiated just outside the lower world edge.

use vstd::prelude::*;
use crate::arena::EnemyHandle;
use crate::collision::{Collider, Pickup, PickupKind};
use crate::config::Config;
use crate::enemy::{Enemy, EnemyState, EnemyType, FireTimer, ShooterAI};
use crate::events::Signal;
use crate::rng::rand_below;
use crate::timer::{Timer, TimerMode};
use crate::units::{MILLI, lemma_mul_div_bounds};
use crate::vec2::{Vec2i, dir_toward};
use crate::world::World;

verus! {

/// The archetype the scheduler picks: below the shooter-unlock depth
/// always a pursuer; from there to the boss depth a weighted random choice
/// between pursuer and ranged; at or past the boss depth, the boss.
pub open spec fn spec_choose_archetype(c: Config, progress: i64, roll_pm: i64) -> EnemyType {
    if progress >= c.boss_depth {
        EnemyType::Boss
    } else if progress >= c.shooter_depth {
        if roll_pm >= c.shooter_roll_threshold_pm {
            EnemyType::Shooter
        } else {
            EnemyType::Follower
        }
    } else {
        EnemyType::Follower
    }
}

/// Executable counterpart of `spec_choose_archetype`.
pub fn choose_archetype(c: &Config, progress: i64, roll_pm: i64) -> (r: EnemyType)
    ensures
        r == spec_choose_archetype(*c, progress, roll_pm),
{
    if progress >= c.boss_depth {
        EnemyType::Boss
    } else if progress >= c.shooter_depth {
        if roll_pm >= c.shooter_roll_threshold_pm {
            EnemyType::Shooter
        } else {
            EnemyType::Follower
        }
    } else {
        EnemyType::Follower
    }
}

/// The full health an archetype spawns with.
pub open spec fn spec_archetype_health(c: Config, t: EnemyType) -> i64 {
    match t {
        EnemyType::Follower => c.follower_health,
        EnemyType::Shooter => c.shooter_health,
        EnemyType::Boss => c.boss_health,
    }
}

/// The collider size an archetype spawns with.
pub open spec fn spec_archetype_collider(c: Config, t: EnemyType) -> Vec2i {
    match t {
        EnemyType::Follower => c.follower_collider,
        EnemyType::Shooter => c.shooter_collider,
        EnemyType::Boss => c.boss_collider,
    }
}

/// The base movement speed of an archetype, before the random factor.
pub open spec fn spec_archetype_speed(c: Config, t: EnemyType) -> i64 {
    match t {
        EnemyType::Follower => c.follower_speed,
        EnemyType::Shooter => c.shooter_speed,
        EnemyType::Boss => c.boss_speed,
    }
}

/// A freshly instantiated enemy of archetype `t` under configuration `c`:
/// staged, at full health, its speed scaled by a factor drawn from the
/// configured per-mille band, placed just below the lower edge (the boss
/// centered, the others at a random x in their band), with a staging
/// destination just inside the edge (the boss instead stages to the arena
/// center) and the initial direction toward it.
pub open spec fn spec_spawned_enemy(c: Config, t: EnemyType, e: Enemy) -> bool {
    &&& e.enemy_type == t
    &&& e.state == EnemyState::Spawned
    &&& e.max_hp == spec_archetype_health(c, t)
    &&& e.current_hp == e.max_hp
    &&& e.collider.size == spec_archetype_collider(c, t)
    &&& e.position.y == -e.collider.size.y
    &&& !e.destination_reached
    &&& (e.shooter_ai is Some <==> t != EnemyType::Follower)
    &&& e.current_speed == e.default_speed
    &&& (exists|f: int|
        {
            &&& c.enemy_speed_min_pm <= f
            &&& (c.enemy_speed_max_pm > c.enemy_speed_min_pm ==> f < c.enemy_speed_max_pm)
            &&& (c.enemy_speed_max_pm <= c.enemy_speed_min_pm ==> f == c.enemy_speed_min_pm)
            &&& e.default_speed == #[trigger] (f * spec_archetype_speed(c, t)) / (
                crate::units::MILLI as int)
        })
    &&& e.direction == crate::vec2::spec_dir_toward(e.position, e.destination)
    &&& (t != EnemyType::Boss ==> {
        &&& 0 <= e.position.x < c.world_width - e.collider.size.x
        &&& 0 <= e.destination.x < c.world_width - e.collider.size.x
        &&& e.collider.size.y <= e.destination.y <= 2 * e.collider.size.y
    })
    &&& (t == EnemyType::Boss ==> e.position.x == c.world_width as int / 2 && e.destination
        == (Vec2i { x: (c.world_width / 2) as i64, y: (c.world_height / 2) as i64 }))
    &&& e.fire_timer.timer.elapsed_ms == 0
    &&& (e.shooter_ai is Some ==> e.shooter_ai->Some_0.reload_timer.elapsed_ms == 0)
}

impl World {
    /// Instantiates one enemy of the given archetype: full health, a
    /// randomized speed factor, a starting position just outside the lower
    /// world edge, a staging destination just inside it (the boss instead
    /// starts centered and stages to the arena center), and the initial
    /// direction toward that destination.
    fn spawn_enemy_of_type(&mut self, t: EnemyType) -> (h: EnemyHandle)
        requires
            old(self).wf(),
        ensures
            final(self).wf(),
            final(self).enemies.valid(h),
            !old(self).enemies.valid(h),
            forall|h2: EnemyHandle|
                h2 != h ==> final(self).enemies.valid(h2) == old(self).enemies.valid(h2),
            forall|h2: EnemyHandle|
                old(self).enemies.valid(h2) ==> final(self).enemies.valid(h2) && final(self).enemies.enemy_at(h2) == old(self).enemies.enemy_at(h2),
            final(self).enemies.enemy_at(h).wf(),
            spec_spawned_enemy(old(self).config, t, final(self).enemies.enemy_at(h)),
            *final(self) == (World { enemies: final(self).enemies, ..*old(self) }),
    {
        let c = self.config;
        let (base_speed, health, size, depth) = match t {
            EnemyType::Follower => (
                c.follower_speed,
                c.follower_health,
                c.follower_collider,
                c.follower_depth,
            ),
            EnemyType::Shooter => (
                c.shooter_speed,
                c.shooter_health,
                c.shooter_collider,
                c.shooter_depth,
            ),
            EnemyType::Boss => (c.boss_speed, c.boss_health, c.boss_collider, c.boss_depth),
        };
        let factor = if c.enemy_speed_max_pm > c.enemy_speed_min_pm {
            c.enemy_speed_min_pm + rand_below(c.enemy_speed_max_pm - c.enemy_speed_min_pm)
        } else {
            c.enemy_speed_min_pm
        };
        proof {
            lemma_mul_div_bounds(
                factor as int,
                base_speed as int,
                MILLI as int,
                crate::config::SPEED_LIMIT as int,
                MILLI as int,
            );
        }
        let speed = factor * base_speed / MILLI;
        let (start, destination) = match t {
            EnemyType::Boss => (
                Vec2i { x: c.world_width / 2, y: -size.y },
                Vec2i { x: c.world_width / 2, y: c.world_height / 2 },
            ),
            _ => {
                let range_x = c.world_width - size.x;
                let sx = rand_below(range_x);
                let dx = rand_below(range_x);
                let dy = size.y + rand_below(size.y + 1);
                (Vec2i { x: sx, y: -size.y }, Vec2i { x: dx, y: dy })
            },
        };
        let direction = dir_toward(start, destination);
        let shooter_ai = match t {
            EnemyType::Follower => None,
            EnemyType::Shooter => Some(
                ShooterAI {
                    max_distance_from_player: c.shooter_distance_from_player,
                    reload_ms: c.shooter_reload_ms,
                    reload_timer: Timer::new(c.shooter_reload_ms, TimerMode::Once),
                },
            ),
            EnemyType::Boss => Some(
                ShooterAI {
                    max_distance_from_player: c.boss_distance_from_player,
                    reload_ms: c.boss_reload_ms,
                    reload_timer: Timer::new(c.boss_reload_ms, TimerMode::Once),
                },
            ),
        };
        let e = Enemy {
            position: start,
            max_hp: health,
            current_hp: health,
            default_speed: speed,
            current_speed: speed,
            enemy_type: t,
            depth_level: depth,
            collider: Collider { size },
            state: EnemyState::Spawned,
            direction,
            destination,
            destination_reached: false,
            is_green_decreasing: false,
            fire_timer: FireTimer::new(c.fire_duration_ms),
            shooter_ai,
        };
        proof {
            let f: int = factor as int;
            assert(spec_archetype_speed(c, t) == base_speed);
            assert(e.default_speed == #[trigger] (f * spec_archetype_speed(c, t)) / (
                crate::units::MILLI as int));
        }
        self.enemies.insert(e)
    }

    /// One scheduler cycle, on each completion of the spawn timer. A cycle
    /// at the population cap, or with a boss pending or alive, spawns
    /// nothing and changes nothing. Otherwise the chosen token joins the
    /// queue, the front token of the queue is instantiated, the population
    /// counter grows by one, and a boss token sets the boss flag.
    pub fn spawn_enemies_over_time(&mut self) -> (r: Option<EnemyHandle>)
        requires
            old(self).wf(),
        ensures
            final(self).wf(),
            !old(self).enemy_spawn_timer.timer.just_finished ==> *final(self) == *old(self) && r
                is None,
            old(self).info.enemies_num >= old(self).config.max_enemies ==> *final(self) == *old(self) && r is None,
            old(self).info.is_boss_spawned ==> *final(self) == *old(self) && r is None,
            (old(self).enemy_spawn_timer.timer.just_finished && old(self).info.enemies_num < old(self).config.max_enemies && !old(self).info.is_boss_spawned) ==> {
                &&& r is Some
                &&& final(self).info.enemies_num == old(self).info.enemies_num + 1
                &&& exists|tok: EnemyType|
                    {
                        &&& (old(self).info.player_progress >= old(self).config.boss_depth ==> tok
                            == EnemyType::Boss)
                        &&& (old(self).info.player_progress < old(self).config.boss_depth ==> tok
                            != EnemyType::Boss)
                        &&& (old(self).info.player_progress < old(self).config.shooter_depth
                            ==> tok == EnemyType::Follower)
                        &&& final(self).info.enemies_spawn_queue@ == old(self).info.enemies_spawn_queue@.push(tok).drop_first()
                        &&& final(self).info.is_boss_spawned == (tok == EnemyType::Boss)
                        &&& final(self).enemies.valid(r->Some_0)
                        &&& !old(self).enemies.valid(r->Some_0)
                        &&& final(self).enemies.enemy_at(r->Some_0).enemy_type == old(self).info.enemies_spawn_queue@.push(tok)[0]
                        &&& spec_spawned_enemy(
                            old(self).config,
                            old(self).info.enemies_spawn_queue@.push(tok)[0],
                            final(self).enemies.enemy_at(r->Some_0),
                        )
                    }
                &&& (forall|h2: EnemyHandle|
                    h2 != r->Some_0 ==> final(self).enemies.valid(h2) == old(self).enemies.valid(
                        h2,
                    ))
                &&& (forall|h2: EnemyHandle|
                    old(self).enemies.valid(h2) ==> final(self).enemies.enemy_at(h2) == old(self).enemies.enemy_at(h2))
                &&& final(self).signals@ == old(self).signals@.push(
                    Signal::ActorSpawned(r->Some_0),
                )
                &&& final(self).info.player_progress == old(self).info.player_progress
                &&& final(self).info.cursor_position == old(self).info.cursor_position
                &&& *final(self) == (World {
                    enemies: final(self).enemies,
                    info: final(self).info,
                    signals: final(self).signals,
                    ..*old(self)
                })
            },
    {
        if !self.enemy_spawn_timer.timer.just_finished() {
            return None;
        }
        if self.info.enemies_num >= self.config.max_enemies || self.info.is_boss_spawned {
            return None;
        }
        let roll = rand_below(MILLI);
        let tok = choose_archetype(&self.config, self.info.player_progress, roll);
        self.info.enemies_num = self.info.enemies_num + 1;
        self.info.enemies_spawn_queue.push(tok);
        if matches!(tok, EnemyType::Boss) {
            self.info.is_boss_spawned = true;
        }
        let front = self.info.enemies_spawn_queue.remove(0);
        let h = self.spawn_enemy_of_type(front);
        self.signals.push(Signal::ActorSpawned(h));
        proof {
            let tok_w = tok;
            assert(old(self).info.enemies_spawn_queue@.push(tok_w).drop_first()
                =~= self.info.enemies_spawn_queue@);
        }
        Some(h)
    }

    /// Pickup scheduling: each completion of the pickup timer drops a fuel
    /// pickup at a random spot on the lower edge, and - on a weighted
    /// random roll - a health pickup beside it.
    pub fn spawn_pickups_over_time(&mut self)
        requires
            old(self).wf(),
        ensures
            final(self).wf(),
            !old(self).pickup_spawn_timer.timer.just_finished ==> *final(self) == *old(self),
            old(self).pickup_spawn_timer.timer.just_finished ==> {
                &&& old(self).pickups@.len() + 1 <= final(self).pickups@.len() <= old(self).pickups@.len() + 2
                &&& (forall|k: int|
                    0 <= k < old(self).pickups@.len() ==> final(self).pickups@[k] == old(self).pickups@[k])
                &&& ({
                    let p = final(self).pickups@[old(self).pickups@.len() as int];
                    &&& p.kind == PickupKind::Fuel
                    &&& p.restore == old(self).config.fuel_pickup_restore
                    &&& p.collider.size == old(self).config.fuel_pickup_collider
                    &&& p.position.y == -p.collider.size.y
                    &&& 0 <= p.position.x < old(self).config.world_width - p.collider.size.x
                })
                &&& (final(self).pickups@.len() == old(self).pickups@.len() + 2 ==> {
                    let p = final(self).pickups@.last();
                    &&& p.kind == PickupKind::Health
                    &&& p.restore == old(self).config.health_pickup_restore as i64
                    &&& p.collider.size == old(self).config.health_pickup_collider
                    &&& p.position.y == -p.collider.size.y
                    &&& 0 <= p.position.x < old(self).config.world_width - p.collider.size.x
                })
                &&& *final(self) == (World { pickups: final(self).pickups, ..*old(self) })
            },
    {
        if !self.pickup_spawn_timer.timer.just_finished() {
            return ;
        }
        self.spawn_fuel_bundle();
        let roll = rand_below(MILLI);
        if roll > self.config.health_spawn_threshold_pm {
            self.spawn_health_bundle();
        }
    }

    /// Drops one fuel pickup just below the lower edge, at a random spot.
    pub fn spawn_fuel_bundle(&mut self)
        requires
            old(self).wf(),
        ensures
            final(self).wf(),
            final(self).pickups@.len() == old(self).pickups@.len() + 1,
            forall|k: int|
                0 <= k < old(self).pickups@.len() ==> final(self).pickups@[k] == old(
                    self,
                ).pickups@[k],
            ({
                let p = final(self).pickups@.last();
                &&& p.kind == PickupKind::Fuel
                &&& p.restore == old(self).config.fuel_pickup_restore
                &&& p.collider.size == old(self).config.fuel_pickup_collider
                &&& p.position.y == -p.collider.size.y
                &&& 0 <= p.position.x < old(self).config.world_width - p.collider.size.x
            }),
            *final(self) == (World { pickups: final(self).pickups, ..*old(self) }),
    {
        let c = self.config;
        let fuel_range = c.world_width - c.fuel_pickup_collider.x;
        let fx = rand_below(fuel_range);
        self.pickups.push(
            Pickup {
                position: Vec2i { x: fx, y: -c.fuel_pickup_collider.y },
                collider: Collider { size: c.fuel_pickup_collider },
                kind: PickupKind::Fuel,
                restore: c.fuel_pickup_restore,
            },
        );
    }

    /// Drops one health pickup just below the lower edge, at a random
    /// spot.
    pub fn spawn_health_bundle(&mut self)
        requires
            old(self).wf(),
        ensures
            final(self).wf(),
            final(self).pickups@.len() == old(self).pickups@.len() + 1,
            forall|k: int|
                0 <= k < old(self).pickups@.len() ==> final(self).pickups@[k] == old(
                    self,
                ).pickups@[k],
            ({
                let p = final(self).pickups@.last();
                &&& p.kind == PickupKind::Health
                &&& p.restore == old(self).config.health_pickup_restore as i64
                &&& p.collider.size == old(self).config.health_pickup_collider
                &&& p.position.y == -p.collider.size.y
                &&& 0 <= p.position.x < old(self).config.world_width - p.collider.size.x
            }),
            *final(self) == (World { pickups: final(self).pickups, ..*old(self) }),
    {
        let c = self.config;
        let health_range = c.world_width - c.health_pickup_collider.x;
        let hx = rand_below(health_range);
        self.pickups.push(
            Pickup {
                position: Vec2i { x: hx, y: -c.health_pickup_collider.y },
                collider: Collider { size: c.health_pickup_collider },
                kind: PickupKind::Health,
                restore: c.health_pickup_restore as i64,
            },
        );
    }
}

} // verus!
