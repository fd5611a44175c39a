//! Collision-driven combat and the event consumers: contact tests publish
//! events, the overheat accumulator, the fire wave, and the resolution of
//! damage-dealt events against enemies (including the counter-attack
//! trigger).

use vstd::prelude::*;
use crate::arena::{EnemyHandle, EnemySlot};
use crate::collision::{Projectile, collide, spec_collide};
use crate::config::{Config, RATE_LIMIT, SPEED_LIMIT};
use crate::counter::{CounterAttackChallenge, InputToken};
use crate::enemy::{Enemy, EnemyState, EnemyType};
use crate::events::{EnemyTakeDamageEvent, PlayerTakeDamageEvent, ChainsawFireWave, Signal};
use crate::player::{PlayerInfo, PlayerState};
use crate::rng::rand_below;
use crate::timer::DT_LIMIT;
use crate::units::{MILLI, lemma_mul_div_bounds};
use crate::vec2::Vec2i;
use crate::world::World;

verus! {

/// The damage events a sweep over the enemy population publishes: one per
/// live enemy overlapping the player's box, in slot order from `from`.
pub open spec fn spec_enemy_overlap_events(
    slots: Seq<EnemySlot>,
    from: int,
    player_pos: Vec2i,
    player_size: Vec2i,
) -> Seq<EnemyTakeDamageEvent>
    decreases slots.len() - from,
{
    if from < 0 || from >= slots.len() {
        Seq::empty()
    } else {
        let rest = spec_enemy_overlap_events(slots, from + 1, player_pos, player_size);
        if slots[from].occupant is Some && spec_collide(
            player_pos,
            player_size,
            slots[from].occupant->Some_0.position,
            slots[from].occupant->Some_0.collider.size,
        ) {
            seq![
                EnemyTakeDamageEvent {
                    enemy_entity: EnemyHandle {
                        index: from as usize,
                        generation: slots[from].generation,
                    },
                },
            ] + rest
        } else {
            rest
        }
    }
}

/// Whether any live enemy overlaps the player's box.
pub open spec fn spec_any_enemy_overlap(
    slots: Seq<EnemySlot>,
    player_pos: Vec2i,
    player_size: Vec2i,
) -> bool {
    spec_enemy_overlap_events(slots, 0, player_pos, player_size).len() > 0
}

/// Whether any projectile overlaps the player's box.
pub open spec fn spec_any_projectile_overlap(
    ps: Seq<Projectile>,
    player_pos: Vec2i,
    player_size: Vec2i,
) -> bool {
    exists|i: int|
        0 <= i < ps.len() && spec_collide(
            player_pos,
            player_size,
            (#[trigger] ps[i]).position,
            ps[i].collider.size,
        )
}

/// Heat bookkeeping over `n` damage events: each event adds `inc`; the
/// event that reaches the limit releases the fire wave, resets the heat to
/// zero and stops the accumulation.
pub open spec fn spec_overheat(heat: int, n: int, inc: int, limit: int) -> (int, bool)
    decreases n,
{
    if n <= 0 {
        (heat, false)
    } else {
        if heat + inc >= limit {
            (0, true)
        } else {
            spec_overheat(heat + inc, n - 1, inc, limit)
        }
    }
}

/// The counter threshold of an archetype: a damage event that leaves the
/// target at or below it triggers the counter-attack minigame.
pub open spec fn spec_counter_threshold(c: Config, t: EnemyType) -> i64 {
    match t {
        EnemyType::Follower => c.follower_counter_threshold,
        EnemyType::Shooter => c.shooter_counter_threshold,
        EnemyType::Boss => c.boss_counter_threshold,
    }
}

/// Executable counterpart of `spec_counter_threshold`.
pub fn counter_threshold(c: &Config, t: EnemyType) -> (r: i64)
    ensures
        r == spec_counter_threshold(*c, t),
{
    match t {
        EnemyType::Follower => c.follower_counter_threshold,
        EnemyType::Shooter => c.shooter_counter_threshold,
        EnemyType::Boss => c.boss_counter_threshold,
    }
}

/// Draws a fresh random binary token sequence of the given length.
pub fn generate_tokens(len: usize) -> (r: Vec<InputToken>)
    requires
        1 <= len <= 1000,
    ensures
        r@.len() == len,
{
    let mut tokens: Vec<InputToken> = Vec::new();
    let mut i: usize = 0;
    while i < len
        invariant
            i <= len,
            tokens@.len() == i,
        decreases len - i,
    {
        let roll = rand_below(2);
        if roll == 0 {
            tokens.push(InputToken::Primary);
        } else {
            tokens.push(InputToken::Secondary);
        }
        i = i + 1;
    }
    tokens
}

impl World {
    /// Melee contact: each enemy overlapping the player produces an event.
    /// In the regular state the first contact wounds the player and ends
    /// the sweep; while damaged, contact is a no-op; in the chainsaw state
    /// every overlapping enemy takes damage instead.
    pub fn check_player_enemy_collision(&mut self)
        requires
            old(self).wf(),
        ensures
            final(self).wf(),
            old(self).player is None || old(self).player_state == PlayerState::DAMAGED ==> *final(self) == *old(self),
            old(self).player is Some && old(self).player_state == PlayerState::REGULAR ==> {
                let any = spec_any_enemy_overlap(
                    old(self).enemies.slots@,
                    old(self).player->Some_0.position,
                    old(self).player->Some_0.collider.size,
                );
                if any {
                    final(self).bus.player_take_damage@ == old(self).bus.player_take_damage@.push(
                        PlayerTakeDamageEvent,
                    ) && *final(self) == (World {
                        bus: crate::events::EventBus {
                            player_take_damage: final(self).bus.player_take_damage,
                            ..old(self).bus
                        },
                        ..*old(self)
                    })
                } else {
                    *final(self) == *old(self)
                }
            },
            old(self).player is Some && old(self).player_state == PlayerState::CHAINSAW ==> {
                &&& final(self).bus.enemy_take_damage@ == old(self).bus.enemy_take_damage@
                    + spec_enemy_overlap_events(
                    old(self).enemies.slots@,
                    0,
                    old(self).player->Some_0.position,
                    old(self).player->Some_0.collider.size,
                )
                &&& *final(self) == (World {
                    bus: crate::events::EventBus {
                        enemy_take_damage: final(self).bus.enemy_take_damage,
                        ..old(self).bus
                    },
                    ..*old(self)
                })
            },
    {
        let (ppos, psize) = match &self.player {
            Some(p) => (p.position, p.collider.size),
            None => {
                return ;
            },
        };
        if matches!(self.player_state, PlayerState::DAMAGED) {
            return ;
        }
        let regular = matches!(self.player_state, PlayerState::REGULAR);
        let n = self.enemies.slot_count();
        let mut i: usize = 0;
        while i < n
            invariant
                old(self).wf(),
                old(self).player is Some,
                ppos == old(self).player->Some_0.position,
                psize == old(self).player->Some_0.collider.size,
                old(self).player_state == PlayerState::REGULAR || old(self).player_state
                    == PlayerState::CHAINSAW,
                regular == (old(self).player_state == PlayerState::REGULAR),
                n == self.enemies.slots@.len(),
                i <= n,
                regular ==> *self == *old(self),
                regular ==> spec_enemy_overlap_events(self.enemies.slots@, 0, ppos, psize)
                    == spec_enemy_overlap_events(self.enemies.slots@, i as int, ppos, psize),
                !regular ==> *self == (World {
                    bus: crate::events::EventBus {
                        enemy_take_damage: self.bus.enemy_take_damage,
                        ..old(self).bus
                    },
                    ..*old(self)
                }),
                !regular ==> self.bus.enemy_take_damage@ + spec_enemy_overlap_events(
                    self.enemies.slots@,
                    i as int,
                    ppos,
                    psize,
                ) == old(self).bus.enemy_take_damage@ + spec_enemy_overlap_events(
                    self.enemies.slots@,
                    0,
                    ppos,
                    psize,
                ),
            decreases n - i,
        {
            match self.enemies.read_slot(i) {
                Some(e) => {
                    if collide(ppos, psize, e.position, e.collider.size) {
                        if regular {
                            proof {
                                lemma_overlap_events_prefix(
                                    self.enemies.slots@,
                                    i as int,
                                    ppos,
                                    psize,
                                );
                            }
                            self.bus.player_take_damage.push(PlayerTakeDamageEvent);
                            return ;
                        } else {
                            let generation = self.enemies.slots[i].generation;
                            let ghost pre = self.bus.enemy_take_damage@;
                            let ev = EnemyTakeDamageEvent {
                                enemy_entity: EnemyHandle { index: i, generation },
                            };
                            self.bus.enemy_take_damage.push(ev);
                            proof {
                                let rest = spec_enemy_overlap_events(
                                    self.enemies.slots@,
                                    i as int + 1,
                                    ppos,
                                    psize,
                                );
                                assert(self.bus.enemy_take_damage@ =~= pre + seq![ev]);
                                assert((pre + seq![ev]) + rest =~= pre + (seq![ev] + rest));
                            }
                        }
                    }
                },
                None => {},
            }
            i = i + 1;
        }
        proof {
            if !regular {
                assert(spec_enemy_overlap_events(self.enemies.slots@, n as int, ppos, psize)
                    =~= Seq::<EnemyTakeDamageEvent>::empty());
                assert(self.bus.enemy_take_damage@ + Seq::<EnemyTakeDamageEvent>::empty()
                    =~= self.bus.enemy_take_damage@);
                assert(old(self).bus.enemy_take_damage@ + spec_enemy_overlap_events(
                    self.enemies.slots@,
                    0,
                    ppos,
                    psize,
                ) =~= self.bus.enemy_take_damage@);
            }
        }
    }

    /// Projectile contact: in the regular state the first overlapping
    /// projectile wounds the player and ends the sweep; while damaged,
    /// contact is a no-op; in the chainsaw state every overlapping
    /// projectile is reflected (its direction is negated).
    pub fn check_player_projectile_collision(&mut self)
        requires
            old(self).wf(),
        ensures
            final(self).wf(),
            old(self).player is None || old(self).player_state == PlayerState::DAMAGED ==> *final(self) == *old(self),
            old(self).player is Some && old(self).player_state == PlayerState::REGULAR ==> {
                let any = spec_any_projectile_overlap(
                    old(self).projectiles@,
                    old(self).player->Some_0.position,
                    old(self).player->Some_0.collider.size,
                );
                if any {
                    final(self).bus.player_take_damage@ == old(self).bus.player_take_damage@.push(
                        PlayerTakeDamageEvent,
                    ) && *final(self) == (World {
                        bus: crate::events::EventBus {
                            player_take_damage: final(self).bus.player_take_damage,
                            ..old(self).bus
                        },
                        ..*old(self)
                    })
                } else {
                    *final(self) == *old(self)
                }
            },
            old(self).player is Some && old(self).player_state == PlayerState::CHAINSAW ==> {
                &&& final(self).projectiles@.len() == old(self).projectiles@.len()
                &&& (forall|k: int|
                    0 <= k < old(self).projectiles@.len() ==> final(self).projectiles@[k] == {
                        let p = #[trigger] old(self).projectiles@[k];
                        if spec_collide(
                            old(self).player->Some_0.position,
                            old(self).player->Some_0.collider.size,
                            p.position,
                            p.collider.size,
                        ) {
                            Projectile {
                                direction: Vec2i {
                                    x: (-p.direction.x) as i64,
                                    y: (-p.direction.y) as i64,
                                },
                                ..p
                            }
                        } else {
                            p
                        }
                    })
                &&& *final(self) == (World { projectiles: final(self).projectiles, ..*old(self) })
            },
    {
        let (ppos, psize) = match &self.player {
            Some(p) => (p.position, p.collider.size),
            None => {
                return ;
            },
        };
        if matches!(self.player_state, PlayerState::DAMAGED) {
            return ;
        }
        let regular = matches!(self.player_state, PlayerState::REGULAR);
        let n = self.projectiles.len();
        let mut i: usize = 0;
        while i < n
            invariant
                old(self).wf(),
                old(self).player is Some,
                ppos == old(self).player->Some_0.position,
                psize == old(self).player->Some_0.collider.size,
                old(self).player_state == PlayerState::REGULAR || old(self).player_state
                    == PlayerState::CHAINSAW,
                regular == (old(self).player_state == PlayerState::REGULAR),
                n == self.projectiles@.len(),
                n == old(self).projectiles@.len(),
                i <= n,
                regular ==> *self == *old(self),
                regular ==> forall|k: int|
                    0 <= k < i ==> !spec_collide(
                        ppos,
                        psize,
                        (#[trigger] old(self).projectiles@[k]).position,
                        old(self).projectiles@[k].collider.size,
                    ),
                !regular ==> *self == (World { projectiles: self.projectiles, ..*old(self) }),
                !regular ==> forall|k: int|
                    i <= k < n ==> self.projectiles@[k] == old(self).projectiles@[k],
                !regular ==> forall|k: int|
                    0 <= k < i ==> self.projectiles@[k] == {
                        let p = #[trigger] old(self).projectiles@[k];
                        if spec_collide(ppos, psize, p.position, p.collider.size) {
                            Projectile {
                                direction: Vec2i {
                                    x: (-p.direction.x) as i64,
                                    y: (-p.direction.y) as i64,
                                },
                                ..p
                            }
                        } else {
                            p
                        }
                    },
                forall|k: int|
                    0 <= k < self.projectiles@.len() ==> (#[trigger] self.projectiles@[k]).wf(),
            decreases n - i,
        {
            let p = self.projectiles[i];
            if collide(ppos, psize, p.position, p.collider.size) {
                if regular {
                    self.bus.player_take_damage.push(PlayerTakeDamageEvent);
                    return ;
                } else {
                    let p2 = Projectile {
                        direction: Vec2i { x: -p.direction.x, y: -p.direction.y },
                        ..p
                    };
                    self.projectiles.set(i, p2);
                }
            }
            i = i + 1;
        }
    }

    /// Overheat accumulation: each damage-dealt-to-enemy event this tick
    /// heats the chainsaw; crossing the heat ceiling releases one fire
    /// wave and resets the heat.
    pub fn manage_chainsaw_overheat(&mut self, dt: i64)
        requires
            old(self).wf(),
            0 <= dt <= DT_LIMIT,
        ensures
            final(self).wf(),
            old(self).player is None ==> *final(self) == *old(self),
            old(self).player is Some ==> {
                let (heat2, fired) = spec_overheat(
                    old(self).player_info.chainsaw_heat as int,
                    old(self).bus.enemy_take_damage@.len() as int,
                    old(self).config.chainsaw_heat_rate * dt / (MILLI as int),
                    old(self).config.chainsaw_heat_limit as int,
                );
                &&& final(self).player_info == (PlayerInfo {
                    chainsaw_heat: heat2 as i64,
                    ..old(self).player_info
                })
                &&& (fired ==> final(self).bus.fire_wave@ == old(self).bus.fire_wave@.push(
                    ChainsawFireWave,
                ))
                &&& (!fired ==> final(self).bus.fire_wave@ == old(self).bus.fire_wave@)
                &&& *final(self) == (World {
                    player_info: final(self).player_info,
                    bus: crate::events::EventBus {
                        fire_wave: final(self).bus.fire_wave,
                        ..old(self).bus
                    },
                    ..*old(self)
                })
            },
    {
        if self.player.is_none() {
            return ;
        }
        proof {
            lemma_mul_div_bounds(
                self.config.chainsaw_heat_rate as int,
                dt as int,
                RATE_LIMIT as int,
                DT_LIMIT as int,
                MILLI as int,
            );
        }
        let inc = self.config.chainsaw_heat_rate * dt / MILLI;
        let limit = self.config.chainsaw_heat_limit;
        let n = self.bus.enemy_take_damage.len();
        let mut k: usize = 0;
        while k < n
            invariant
                old(self).wf(),
                old(self).player is Some,
                inc == old(self).config.chainsaw_heat_rate * dt / (MILLI as int),
                limit == old(self).config.chainsaw_heat_limit,
                0 <= inc <= RATE_LIMIT * DT_LIMIT / (MILLI as int),
                n == old(self).bus.enemy_take_damage@.len(),
                k <= n,
                *self == (World { player_info: self.player_info, ..*old(self) }),
                self.player_info == (PlayerInfo {
                    chainsaw_heat: self.player_info.chainsaw_heat,
                    ..old(self).player_info
                }),
                0 <= self.player_info.chainsaw_heat <= limit,
                spec_overheat(
                    old(self).player_info.chainsaw_heat as int,
                    n as int,
                    inc as int,
                    limit as int,
                ) == spec_overheat(
                    self.player_info.chainsaw_heat as int,
                    (n - k) as int,
                    inc as int,
                    limit as int,
                ),
            decreases n - k,
        {
            let heat = self.player_info.chainsaw_heat;
            if heat + inc >= limit {
                self.bus.fire_wave.push(ChainsawFireWave);
                self.player_info = PlayerInfo { chainsaw_heat: 0, ..self.player_info };
                return ;
            } else {
                self.player_info = PlayerInfo { chainsaw_heat: heat + inc, ..self.player_info };
            }
            k = k + 1;
        }
    }

    /// Fire wave: one wave this tick ignites every engaging enemy,
    /// boosting its speed and starting its fire countdown; each ignition
    /// is signalled.
    pub fn handle_fire_wave_event(&mut self)
        requires
            old(self).wf(),
        ensures
            final(self).wf(),
            old(self).bus.fire_wave@.len() == 0 ==> *final(self) == *old(self),
            old(self).bus.fire_wave@.len() > 0 ==> {
                &&& final(self).enemies.slots@.len() == old(self).enemies.slots@.len()
                &&& (forall|i: int|
                    0 <= i < old(self).enemies.slots@.len() ==> {
                        let s0 = old(self).enemies.slots@[i];
                        let s1 = #[trigger] final(self).enemies.slots@[i];
                        &&& s1.generation == s0.generation
                        &&& (s0.occupant is None ==> s1.occupant is None)
                        &&& (s0.occupant is Some ==> s1.occupant == Some(
                            old(self).spec_ignited_enemy(s0.occupant->Some_0),
                        ))
                    })
                &&& (forall|h: EnemyHandle|
                    #[trigger] final(self).enemies.valid(h) == old(self).enemies.valid(h))
                &&& *final(self) == (World {
                    enemies: final(self).enemies,
                    signals: final(self).signals,
                    ..*old(self)
                })
            },
    {
        if self.bus.fire_wave.len() == 0 {
            return ;
        }
        let gain = self.config.on_fire_speed_gain;
        let n = self.enemies.slot_count();
        let mut i: usize = 0;
        while i < n
            invariant
                old(self).wf(),
                gain == old(self).config.on_fire_speed_gain,
                n == self.enemies.slots@.len(),
                n == old(self).enemies.slots@.len(),
                i <= n,
                *self == (World {
                    enemies: self.enemies,
                    signals: self.signals,
                    ..*old(self)
                }),
                self.enemies.wf(),
                forall|j: int| i <= j < n ==> self.enemies.slots@[j] == old(self).enemies.slots@[j],
                forall|j: int|
                    0 <= j < i ==> {
                        let s0 = old(self).enemies.slots@[j];
                        let s1 = #[trigger] self.enemies.slots@[j];
                        &&& s1.generation == s0.generation
                        &&& (s0.occupant is None ==> s1.occupant is None)
                        &&& (s0.occupant is Some ==> s1.occupant == Some(
                            old(self).spec_ignited_enemy(s0.occupant->Some_0),
                        ))
                    },
            decreases n - i,
        {
            match self.enemies.read_slot(i) {
                Some(e) => {
                    if matches!(e.state, EnemyState::Engaging) {
                        let mut e2 = e;
                        e2.ignite(gain);
                        self.enemies.write_slot(i, e2);
                        let generation = self.enemies.slots[i].generation;
                        self.signals.push(
                            Signal::Ignited(EnemyHandle { index: i, generation }),
                        );
                    }
                },
                None => {},
            }
            i = i + 1;
        }
    }

    /// The per-enemy transition of the fire wave.
    pub open spec fn spec_ignited_enemy(self, e: Enemy) -> Enemy {
        if e.state == EnemyState::Engaging {
            Enemy {
                state: EnemyState::OnFire,
                current_speed: crate::units::spec_clamp(
                    e.current_speed + self.config.on_fire_speed_gain,
                    0,
                    SPEED_LIMIT as int,
                ) as i64,
                is_green_decreasing: true,
                fire_timer: crate::enemy::FireTimer {
                    timer: crate::timer::Timer {
                        elapsed_ms: 0,
                        just_finished: false,
                        ..e.fire_timer.timer
                    },
                },
                ..e
            }
        } else {
            e
        }
    }
}

impl World {
    /// The enemy left behind by one damage-dealt event that does not kill:
    /// sustained contact drains health and speed over the elapsed time.
    pub open spec fn spec_damaged_enemy(self, e: Enemy, dt: int) -> Enemy {
        Enemy {
            current_hp: crate::units::spec_clamp(
                e.current_hp - self.config.player_damage_rate * dt / (MILLI as int),
                0,
                e.max_hp as int,
            ) as i64,
            current_speed: crate::units::spec_clamp(
                e.current_speed - self.config.chainsaw_slow_down_rate * dt / (MILLI as int),
                0,
                SPEED_LIMIT as int,
            ) as i64,
            ..e
        }
    }

    /// Destroys a live enemy: its slot is vacated (the handle and all its
    /// copies go stale), the population counter drops (floored at zero),
    /// and a boss death additionally clears the boss flag and signals the
    /// world cleared. The despawn is signalled either way.
    pub fn destroy_enemy(&mut self, h: EnemyHandle)
        requires
            old(self).wf(),
            old(self).enemies.valid(h),
        ensures
            final(self).wf(),
            !final(self).enemies.valid(h),
            forall|h2: EnemyHandle|
                h2 != h ==> final(self).enemies.valid(h2) == old(self).enemies.valid(h2),
            forall|h2: EnemyHandle|
                old(self).enemies.valid(h2) && h2 != h ==> final(self).enemies.enemy_at(h2) == old(self).enemies.enemy_at(h2),
            final(self).enemies.slots@.len() == old(self).enemies.slots@.len(),
            final(self).info.enemies_num == (if old(self).info.enemies_num > 0 {
                (old(self).info.enemies_num - 1) as usize
            } else {
                0usize
            }),
            ({
                let was_boss = old(self).enemies.enemy_at(h).enemy_type == EnemyType::Boss;
                &&& final(self).info.is_boss_spawned == (if was_boss {
                    false
                } else {
                    old(self).info.is_boss_spawned
                })
                &&& (was_boss ==> final(self).signals@ == old(self).signals@.push(
                    Signal::WorldCleared,
                ).push(Signal::ActorDespawned(h)))
                &&& (!was_boss ==> final(self).signals@ == old(self).signals@.push(
                    Signal::ActorDespawned(h),
                ))
            }),
            final(self).info.cursor_position == old(self).info.cursor_position,
            final(self).info.player_progress == old(self).info.player_progress,
            final(self).info.enemies_spawn_queue == old(self).info.enemies_spawn_queue,
            *final(self) == (World {
                enemies: final(self).enemies,
                info: final(self).info,
                signals: final(self).signals,
                ..*old(self)
            }),
    {
        let e = match self.enemies.get(h) {
            Some(e) => e,
            None => unreached(),
        };
        if self.info.enemies_num > 0 {
            self.info.enemies_num = self.info.enemies_num - 1;
        }
        if matches!(e.enemy_type, EnemyType::Boss) {
            self.info.is_boss_spawned = false;
            self.signals.push(Signal::WorldCleared);
        }
        self.enemies.remove(h);
        self.signals.push(Signal::ActorDespawned(h));
    }

    /// How one damage-dealt event relates the world before it to the world
    /// after it. A stale handle changes nothing. A live target at zero
    /// health is destroyed: its slot is vacated, the population counter
    /// drops (floored at zero), a boss death clears the boss flag and
    /// signals the world cleared, and the despawn is signalled. A live
    /// target above zero health takes sustained damage and slow-down; if
    /// that leaves it at or below its archetype's counter threshold while
    /// no challenge is active, a counter-attack challenge on it begins and
    /// is signalled.
    pub open spec fn spec_enemy_damage_step(
        pre: World,
        post: World,
        ev: EnemyTakeDamageEvent,
        dt: int,
    ) -> bool {
        &&& (!pre.enemies.valid(ev.enemy_entity) ==> post == pre)
        &&& (pre.enemies.valid(ev.enemy_entity) && pre.enemies.enemy_at(
            ev.enemy_entity,
        ).current_hp <= 0 ==> {
            let was_boss = pre.enemies.enemy_at(ev.enemy_entity).enemy_type == EnemyType::Boss;
            &&& !post.enemies.valid(ev.enemy_entity)
            &&& post.enemies.slots@.len() == pre.enemies.slots@.len()
            &&& post.info.enemies_num == (if pre.info.enemies_num > 0 {
                (pre.info.enemies_num - 1) as usize
            } else {
                0usize
            })
            &&& post.info.is_boss_spawned == (if was_boss {
                false
            } else {
                pre.info.is_boss_spawned
            })
            &&& (was_boss ==> post.signals@ == pre.signals@.push(Signal::WorldCleared).push(
                Signal::ActorDespawned(ev.enemy_entity),
            ))
            &&& (!was_boss ==> post.signals@ == pre.signals@.push(
                Signal::ActorDespawned(ev.enemy_entity),
            ))
            &&& (forall|h2: EnemyHandle|
                h2 != ev.enemy_entity ==> post.enemies.valid(h2) == pre.enemies.valid(h2))
            &&& (forall|h2: EnemyHandle|
                pre.enemies.valid(h2) && h2 != ev.enemy_entity ==> post.enemies.enemy_at(h2)
                    == pre.enemies.enemy_at(h2))
            &&& post.info == (crate::world::GameInfo {
                enemies_num: post.info.enemies_num,
                is_boss_spawned: post.info.is_boss_spawned,
                ..pre.info
            })
            &&& post == (World {
                enemies: post.enemies,
                info: post.info,
                signals: post.signals,
                ..pre
            })
        })
        &&& (pre.enemies.valid(ev.enemy_entity) && pre.enemies.enemy_at(
            ev.enemy_entity,
        ).current_hp > 0 ==> {
            let e2 = pre.spec_damaged_enemy(pre.enemies.enemy_at(ev.enemy_entity), dt);
            let triggers = e2.current_hp <= spec_counter_threshold(pre.config, e2.enemy_type)
                && pre.challenge is None;
            &&& post.enemies.valid(ev.enemy_entity)
            &&& post.enemies.enemy_at(ev.enemy_entity) == e2
            &&& (forall|h2: EnemyHandle| post.enemies.valid(h2) == pre.enemies.valid(h2))
            &&& (forall|h2: EnemyHandle|
                pre.enemies.valid(h2) && h2 != ev.enemy_entity ==> post.enemies.enemy_at(h2)
                    == pre.enemies.enemy_at(h2))
            &&& post.info == pre.info
            &&& (triggers ==> {
                &&& post.challenge is Some
                &&& post.challenge->Some_0.target == ev.enemy_entity
                &&& post.challenge->Some_0.tokens@.len() == pre.config.challenge_len
                &&& post.challenge->Some_0.next == 0
                &&& post.challenge->Some_0.timer == (crate::timer::Timer {
                    duration_ms: pre.config.challenge_duration_ms,
                    elapsed_ms: 0,
                    mode: crate::timer::TimerMode::Once,
                    just_finished: false,
                })
                &&& post.signals@ == pre.signals@.push(Signal::ChallengeStarted(ev.enemy_entity))
            })
            &&& (!triggers ==> post.challenge == pre.challenge && post.signals@ == pre.signals@)
            &&& post == (World {
                enemies: post.enemies,
                challenge: post.challenge,
                signals: post.signals,
                ..pre
            })
        })
    }

    /// Resolves one damage-dealt event against an enemy handle. A stale
    /// handle has no observable effect. A live enemy already at zero
    /// health is destroyed; otherwise it takes sustained damage and slow
    /// down, and - if its health fell to or below its archetype's counter
    /// threshold while no challenge is active - a counter-attack challenge
    /// on it begins.
    pub fn apply_enemy_damage_event(&mut self, ev: EnemyTakeDamageEvent, dt: i64)
        requires
            old(self).wf(),
            0 <= dt <= DT_LIMIT,
        ensures
            final(self).wf(),
            Self::spec_enemy_damage_step(*old(self), *final(self), ev, dt as int),
            !old(self).enemies.valid(ev.enemy_entity) ==> *final(self) == *old(self),
    {
        let e = match self.enemies.get(ev.enemy_entity) {
            Some(e) => e,
            None => {
                return ;
            },
        };
        if e.current_hp <= 0 {
            self.destroy_enemy(ev.enemy_entity);
        } else {
            let mut e2 = e;
            e2.take_damage(dt, self.config.player_damage_rate, self.config.chainsaw_slow_down_rate);
            self.enemies.set(ev.enemy_entity, e2);
            let threshold = counter_threshold(&self.config, e2.enemy_type);
            if e2.current_hp <= threshold && self.challenge.is_none() {
                let tokens = generate_tokens(self.config.challenge_len);
                let ch = CounterAttackChallenge::new(
                    ev.enemy_entity,
                    tokens,
                    self.config.challenge_duration_ms,
                );
                self.challenge = Some(ch);
                self.signals.push(Signal::ChallengeStarted(ev.enemy_entity));
            }
        }
    }

    /// Consumes every damage-dealt-to-enemy event of this tick, in publish
    /// order: the final world is the fold of `spec_enemy_damage_step` over
    /// the pending events, witnessed by the chain of intermediate worlds.
    /// Only the enemies, the population bookkeeping, the challenge and the
    /// signals can change; a tick whose events all name stale handles
    /// changes nothing.
    pub fn handle_enemy_take_damage_event(&mut self, dt: i64)
        requires
            old(self).wf(),
            0 <= dt <= DT_LIMIT,
        ensures
            final(self).wf(),
            final(self).bus.enemy_take_damage@ == old(self).bus.enemy_take_damage@,
            exists|trace: Seq<World>|
                {
                    let events = old(self).bus.enemy_take_damage@;
                    &&& #[trigger] trace.len() == events.len() + 1
                    &&& trace.first() == *old(self)
                    &&& trace.last() == *final(self)
                    &&& (forall|j: int|
                        0 <= j < events.len() ==> #[trigger] Self::spec_enemy_damage_step(
                            trace[j],
                            trace[j + 1],
                            events[j],
                            dt as int,
                        ))
                },
            *final(self) == (World {
                enemies: final(self).enemies,
                info: final(self).info,
                challenge: final(self).challenge,
                signals: final(self).signals,
                ..*old(self)
            }),
            final(self).info == (crate::world::GameInfo {
                enemies_num: final(self).info.enemies_num,
                is_boss_spawned: final(self).info.is_boss_spawned,
                ..old(self).info
            }),
            (forall|k: int|
                0 <= k < old(self).bus.enemy_take_damage@.len() ==> !old(self).enemies.valid(
                    (#[trigger] old(self).bus.enemy_take_damage@[k]).enemy_entity,
                )) ==> *final(self) == *old(self),
    {
        let n = self.bus.enemy_take_damage.len();
        let mut k: usize = 0;
        let ghost mut trace: Seq<World> = seq![*old(self)];
        while k < n
            invariant
                0 <= dt <= DT_LIMIT,
                self.wf(),
                n == self.bus.enemy_take_damage@.len(),
                k <= n,
                self.bus.enemy_take_damage@ == old(self).bus.enemy_take_damage@,
                trace.len() == k + 1,
                trace.first() == *old(self),
                trace.last() == *self,
                forall|j: int|
                    0 <= j < k ==> #[trigger] Self::spec_enemy_damage_step(
                        trace[j],
                        trace[j + 1],
                        old(self).bus.enemy_take_damage@[j],
                        dt as int,
                    ),
                *self == (World {
                    enemies: self.enemies,
                    info: self.info,
                    challenge: self.challenge,
                    signals: self.signals,
                    ..*old(self)
                }),
                self.info == (crate::world::GameInfo {
                    enemies_num: self.info.enemies_num,
                    is_boss_spawned: self.info.is_boss_spawned,
                    ..old(self).info
                }),
                (forall|j: int|
                    0 <= j < old(self).bus.enemy_take_damage@.len() ==> !old(self).enemies.valid(
                        (#[trigger] old(self).bus.enemy_take_damage@[j]).enemy_entity,
                    )) ==> *self == *old(self),
            decreases n - k,
        {
            let ev = self.bus.enemy_take_damage[k];
            self.apply_enemy_damage_event(ev, dt);
            proof {
                trace = trace.push(*self);
            }
            k = k + 1;
        }
        proof {
            assert(trace.len() == n + 1 && trace.first() == *old(self) && trace.last() == *self);
        }
    }
}

/// If some slot at or past `from` holds an overlapping enemy, the overlap
/// sweep publishes at least one event.
pub proof fn lemma_overlap_events_prefix(
    slots: Seq<EnemySlot>,
    i: int,
    player_pos: Vec2i,
    player_size: Vec2i,
)
    requires
        0 <= i < slots.len(),
        slots[i].occupant is Some,
        spec_collide(
            player_pos,
            player_size,
            slots[i].occupant->Some_0.position,
            slots[i].occupant->Some_0.collider.size,
        ),
    ensures
        forall|j: int|
            0 <= j <= i ==> spec_enemy_overlap_events(slots, j, player_pos, player_size).len() > 0,
    decreases slots.len(),
{
    assert forall|j: int|
        0 <= j <= i implies spec_enemy_overlap_events(slots, j, player_pos, player_size).len()
        > 0 by {
        lemma_overlap_events_from(slots, j, i, player_pos, player_size);
    }
}

/// Helper: an overlap at slot `i` makes the event sweep from any earlier
/// index non-empty.
pub proof fn lemma_overlap_events_from(
    slots: Seq<EnemySlot>,
    j: int,
    i: int,
    player_pos: Vec2i,
    player_size: Vec2i,
)
    requires
        0 <= j <= i < slots.len(),
        slots[i].occupant is Some,
        spec_collide(
            player_pos,
            player_size,
            slots[i].occupant->Some_0.position,
            slots[i].occupant->Some_0.collider.size,
        ),
    ensures
        spec_enemy_overlap_events(slots, j, player_pos, player_size).len() > 0,
    decreases i - j,
{
    if j < i {
        lemma_overlap_events_from(slots, j + 1, i, player_pos, player_size);
    }
}

} // verus!
