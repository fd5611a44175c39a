//! Per-tick sweep phases: player movement, and the whole-population
//! sweeps over the enemy arena. Each sweep rewrites every occupied slot
//! with a per-enemy transition and leaves generations, handles and
//! everything else in the world untouched.

use vstd::prelude::*;
use crate::enemy::{Enemy, EnemyState, EnemyType, FireTimer, ShooterAI};
use crate::player::{Player, PlayerState};
use crate::timer::DT_LIMIT;
use crate::units::spec_clamp;
use crate::vec2::Vec2i;
use crate::world::{World, GameInfo};

verus! {

impl World {
    /// The per-enemy transition of the movement sweep.
    pub open spec fn spec_moved_enemy(self, e: Enemy, dt: int) -> Enemy {
        e.spec_step_movement(dt, self.player_state == PlayerState::CHAINSAW)
    }

    /// The per-enemy transition of the pursuit sweep: an engaging follower
    /// retargets the player's current position.
    pub open spec fn spec_followed_enemy(self, e: Enemy) -> Enemy {
        if self.player is Some && e.enemy_type == EnemyType::Follower && e.state
            == EnemyState::Engaging {
            Enemy { destination: self.player->Some_0.position, ..e }
        } else {
            e
        }
    }

    /// The per-enemy transition of the edge sweep.
    pub open spec fn spec_limited_enemy(self, e: Enemy) -> Enemy {
        e.spec_limit_movement(self.config.world_width, self.config.world_height)
    }

    /// The per-enemy transition of the fire-timer sweep: the ignition
    /// countdown only runs while the enemy is on fire.
    pub open spec fn spec_fire_ticked_enemy(self, e: Enemy, dt: int) -> Enemy {
        if e.state == EnemyState::OnFire {
            Enemy { fire_timer: FireTimer { timer: e.fire_timer.timer.spec_tick(dt) }, ..e }
        } else {
            e
        }
    }

    /// The per-enemy transition of the reload sweep: a ranged enemy
    /// reloads only while engaging.
    pub open spec fn spec_reload_ticked_enemy(self, e: Enemy, dt: int) -> Enemy {
        if e.state == EnemyState::Engaging && e.shooter_ai is Some {
            Enemy {
                shooter_ai: Some(
                    ShooterAI {
                        reload_timer: e.shooter_ai->Some_0.reload_timer.spec_tick(dt),
                        ..e.shooter_ai->Some_0
                    },
                ),
                ..e
            }
        } else {
            e
        }
    }

    /// The per-enemy transition of the fire-expiry sweep.
    pub open spec fn spec_fire_expired_enemy(self, e: Enemy) -> Enemy {
        if e.state == EnemyState::OnFire && e.fire_timer.timer.just_finished {
            Enemy {
                state: EnemyState::Engaging,
                current_speed: spec_clamp(
                    e.current_speed - self.config.on_fire_speed_gain,
                    0,
                    crate::config::SPEED_LIMIT as int,
                ) as i64,
                is_green_decreasing: false,
                destination_reached: false,
                ..e
            }
        } else {
            e
        }
    }

    /// A sweep touched only the enemies, slot for slot, by `t`: the slot
    /// count and every generation are kept, emptiness is kept, and each
    /// occupant was rewritten by the transition.
    pub open spec fn sweep_relation(
        pre: World,
        post: World,
        t: spec_fn(Enemy) -> Enemy,
    ) -> bool {
        &&& post == (World { enemies: post.enemies, ..pre })
        &&& post.enemies.slots@.len() == pre.enemies.slots@.len()
        &&& (forall|i: int|
            0 <= i < pre.enemies.slots@.len() ==> {
                let s0 = pre.enemies.slots@[i];
                let s1 = #[trigger] post.enemies.slots@[i];
                &&& s1.generation == s0.generation
                &&& (s0.occupant is None ==> s1.occupant is None)
                &&& (s0.occupant is Some ==> s1.occupant == Some(t(s0.occupant->Some_0)))
            })
        &&& (forall|h: crate::arena::EnemyHandle|
            #[trigger] post.enemies.valid(h) == pre.enemies.valid(h))
    }

    /// Movement sweep: staged enemies advance toward their staging point
    /// and start engaging on arrival; engaging enemies chase or flee their
    /// destination; ignited enemies run blindly along their direction.
    pub fn move_enemies_to_destination(&mut self, dt: i64)
        requires
            old(self).wf(),
            0 <= dt <= DT_LIMIT,
        ensures
            final(self).wf(),
            Self::sweep_relation(
                *old(self),
                *final(self),
                |e: Enemy| old(self).spec_moved_enemy(e, dt as int),
            ),
    {
        let chainsaw = matches!(self.player_state, PlayerState::CHAINSAW);
        let n = self.enemies.slot_count();
        let mut i: usize = 0;
        while i < n
            invariant
                old(self).wf(),
                0 <= dt <= DT_LIMIT,
                chainsaw == (old(self).player_state == PlayerState::CHAINSAW),
                n == self.enemies.slots@.len(),
                n == old(self).enemies.slots@.len(),
                i <= n,
                *self == (World { enemies: self.enemies, ..*old(self) }),
                self.enemies.wf(),
                forall|j: int| i <= j < n ==> self.enemies.slots@[j] == old(self).enemies.slots@[j],
                forall|j: int|
                    0 <= j < i ==> {
                        let s0 = old(self).enemies.slots@[j];
                        let s1 = #[trigger] self.enemies.slots@[j];
                        &&& s1.generation == s0.generation
                        &&& (s0.occupant is None ==> s1.occupant is None)
                        &&& (s0.occupant is Some ==> s1.occupant == Some(
                            old(self).spec_moved_enemy(s0.occupant->Some_0, dt as int),
                        ))
                    },
            decreases n - i,
        {
            match self.enemies.read_slot(i) {
                Some(e) => {
                    let mut e2 = e;
                    e2.step_movement(dt, chainsaw);
                    self.enemies.write_slot(i, e2);
                },
                None => {},
            }
            i = i + 1;
        }
    }

    /// Pursuit sweep: every engaging follower sets its destination to the
    /// player's current position; absent a live player nothing moves.
    pub fn follow_player(&mut self)
        requires
            old(self).wf(),
        ensures
            final(self).wf(),
            Self::sweep_relation(
                *old(self),
                *final(self),
                |e: Enemy| old(self).spec_followed_enemy(e),
            ),
    {
        let target: Option<Vec2i> = match &self.player {
            Some(p) => Some(p.position),
            None => None,
        };
        let n = self.enemies.slot_count();
        let mut i: usize = 0;
        while i < n
            invariant
                old(self).wf(),
                target == (if old(self).player is Some {
                    Some(old(self).player->Some_0.position)
                } else {
                    Option::<Vec2i>::None
                }),
                n == self.enemies.slots@.len(),
                n == old(self).enemies.slots@.len(),
                i <= n,
                *self == (World { enemies: self.enemies, ..*old(self) }),
                self.enemies.wf(),
                forall|j: int| i <= j < n ==> self.enemies.slots@[j] == old(self).enemies.slots@[j],
                forall|j: int|
                    0 <= j < i ==> {
                        let s0 = old(self).enemies.slots@[j];
                        let s1 = #[trigger] self.enemies.slots@[j];
                        &&& s1.generation == s0.generation
                        &&& (s0.occupant is None ==> s1.occupant is None)
                        &&& (s0.occupant is Some ==> s1.occupant == Some(
                            old(self).spec_followed_enemy(s0.occupant->Some_0),
                        ))
                    },
            decreases n - i,
        {
            match self.enemies.read_slot(i) {
                Some(e) => {
                    if let Some(t) = target {
                        if matches!(e.enemy_type, EnemyType::Follower) && matches!(
                            e.state,
                            EnemyState::Engaging,
                        ) {
                            let e2 = Enemy { destination: t, ..e };
                            self.enemies.write_slot(i, e2);
                        }
                    }
                },
                None => {},
            }
            i = i + 1;
        }
    }

    /// Edge sweep: engaged enemies are clamped into the world, inset by
    /// their own collider half-size, and ignited ones additionally bounce
    /// off the edges they crossed.
    pub fn limit_enemy_movement(&mut self)
        requires
            old(self).wf(),
        ensures
            final(self).wf(),
            Self::sweep_relation(
                *old(self),
                *final(self),
                |e: Enemy| old(self).spec_limited_enemy(e),
            ),
    {
        let width = self.config.world_width;
        let height = self.config.world_height;
        let n = self.enemies.slot_count();
        let mut i: usize = 0;
        while i < n
            invariant
                old(self).wf(),
                width == old(self).config.world_width,
                height == old(self).config.world_height,
                n == self.enemies.slots@.len(),
                n == old(self).enemies.slots@.len(),
                i <= n,
                *self == (World { enemies: self.enemies, ..*old(self) }),
                self.enemies.wf(),
                forall|j: int| i <= j < n ==> self.enemies.slots@[j] == old(self).enemies.slots@[j],
                forall|j: int|
                    0 <= j < i ==> {
                        let s0 = old(self).enemies.slots@[j];
                        let s1 = #[trigger] self.enemies.slots@[j];
                        &&& s1.generation == s0.generation
                        &&& (s0.occupant is None ==> s1.occupant is None)
                        &&& (s0.occupant is Some ==> s1.occupant == Some(
                            old(self).spec_limited_enemy(s0.occupant->Some_0),
                        ))
                    },
            decreases n - i,
        {
            match self.enemies.read_slot(i) {
                Some(e) => {
                    let mut e2 = e;
                    e2.limit_movement(width, height);
                    self.enemies.write_slot(i, e2);
                },
                None => {},
            }
            i = i + 1;
        }
    }

    /// Fire-timer sweep: the ignition countdown of every burning enemy
    /// advances.
    pub fn tick_enemy_fire_timer(&mut self, dt: i64)
        requires
            old(self).wf(),
            0 <= dt <= DT_LIMIT,
        ensures
            final(self).wf(),
            Self::sweep_relation(
                *old(self),
                *final(self),
                |e: Enemy| old(self).spec_fire_ticked_enemy(e, dt as int),
            ),
    {
        let n = self.enemies.slot_count();
        let mut i: usize = 0;
        while i < n
            invariant
                old(self).wf(),
                0 <= dt <= DT_LIMIT,
                n == self.enemies.slots@.len(),
                n == old(self).enemies.slots@.len(),
                i <= n,
                *self == (World { enemies: self.enemies, ..*old(self) }),
                self.enemies.wf(),
                forall|j: int| i <= j < n ==> self.enemies.slots@[j] == old(self).enemies.slots@[j],
                forall|j: int|
                    0 <= j < i ==> {
                        let s0 = old(self).enemies.slots@[j];
                        let s1 = #[trigger] self.enemies.slots@[j];
                        &&& s1.generation == s0.generation
                        &&& (s0.occupant is None ==> s1.occupant is None)
                        &&& (s0.occupant is Some ==> s1.occupant == Some(
                            old(self).spec_fire_ticked_enemy(s0.occupant->Some_0, dt as int),
                        ))
                    },
            decreases n - i,
        {
            match self.enemies.read_slot(i) {
                Some(e) => {
                    if matches!(e.state, EnemyState::OnFire) {
                        let mut e2 = e;
                        e2.fire_timer.timer.tick(dt);
                        self.enemies.write_slot(i, e2);
                    }
                },
                None => {},
            }
            i = i + 1;
        }
    }

    /// Reload sweep: the reload countdown of every engaging ranged enemy
    /// advances.
    pub fn tick_shooter_reloading_timer(&mut self, dt: i64)
        requires
            old(self).wf(),
            0 <= dt <= DT_LIMIT,
        ensures
            final(self).wf(),
            Self::sweep_relation(
                *old(self),
                *final(self),
                |e: Enemy| old(self).spec_reload_ticked_enemy(e, dt as int),
            ),
    {
        let n = self.enemies.slot_count();
        let mut i: usize = 0;
        while i < n
            invariant
                old(self).wf(),
                0 <= dt <= DT_LIMIT,
                n == self.enemies.slots@.len(),
                n == old(self).enemies.slots@.len(),
                i <= n,
                *self == (World { enemies: self.enemies, ..*old(self) }),
                self.enemies.wf(),
                forall|j: int| i <= j < n ==> self.enemies.slots@[j] == old(self).enemies.slots@[j],
                forall|j: int|
                    0 <= j < i ==> {
                        let s0 = old(self).enemies.slots@[j];
                        let s1 = #[trigger] self.enemies.slots@[j];
                        &&& s1.generation == s0.generation
                        &&& (s0.occupant is None ==> s1.occupant is None)
                        &&& (s0.occupant is Some ==> s1.occupant == Some(
                            old(self).spec_reload_ticked_enemy(s0.occupant->Some_0, dt as int),
                        ))
                    },
            decreases n - i,
        {
            match self.enemies.read_slot(i) {
                Some(e) => {
                    if matches!(e.state, EnemyState::Engaging) {
                        match e.shooter_ai {
                            Some(sa) => {
                                let mut sa2 = sa;
                                sa2.reload_timer.tick(dt);
                                let e2 = Enemy { shooter_ai: Some(sa2), ..e };
                                self.enemies.write_slot(i, e2);
                            },
                            None => {},
                        }
                    }
                },
                None => {},
            }
            i = i + 1;
        }
    }

    /// Fire-expiry sweep: every burning enemy whose countdown just ran out
    /// reverts to engaging and loses the speed boost.
    pub fn handle_on_fire_state(&mut self)
        requires
            old(self).wf(),
        ensures
            final(self).wf(),
            Self::sweep_relation(
                *old(self),
                *final(self),
                |e: Enemy| old(self).spec_fire_expired_enemy(e),
            ),
    {
        let gain = self.config.on_fire_speed_gain;
        let n = self.enemies.slot_count();
        let mut i: usize = 0;
        while i < n
            invariant
                old(self).wf(),
                gain == old(self).config.on_fire_speed_gain,
                n == self.enemies.slots@.len(),
                n == old(self).enemies.slots@.len(),
                i <= n,
                *self == (World { enemies: self.enemies, ..*old(self) }),
                self.enemies.wf(),
                forall|j: int| i <= j < n ==> self.enemies.slots@[j] == old(self).enemies.slots@[j],
                forall|j: int|
                    0 <= j < i ==> {
                        let s0 = old(self).enemies.slots@[j];
                        let s1 = #[trigger] self.enemies.slots@[j];
                        &&& s1.generation == s0.generation
                        &&& (s0.occupant is None ==> s1.occupant is None)
                        &&& (s0.occupant is Some ==> s1.occupant == Some(
                            old(self).spec_fire_expired_enemy(s0.occupant->Some_0),
                        ))
                    },
            decreases n - i,
        {
            match self.enemies.read_slot(i) {
                Some(e) => {
                    if matches!(e.state, EnemyState::OnFire) && e.fire_timer.timer.just_finished() {
                        let mut e2 = e;
                        e2.extinguish(gain);
                        self.enemies.write_slot(i, e2);
                    }
                },
                None => {},
            }
            i = i + 1;
        }
    }

    /// Stores this tick's pointer position, clamped into the world.
    pub fn get_cursor_world_coordinates(&mut self, cursor: Option<Vec2i>)
        requires
            old(self).wf(),
        ensures
            final(self).wf(),
            cursor is Some ==> *final(self) == (World {
                info: GameInfo {
                    cursor_position: Vec2i {
                        x: spec_clamp(
                            cursor->Some_0.x as int,
                            0,
                            old(self).config.world_width as int,
                        ) as i64,
                        y: spec_clamp(
                            cursor->Some_0.y as int,
                            0,
                            old(self).config.world_height as int,
                        ) as i64,
                    },
                    ..old(self).info
                },
                ..*old(self)
            }),
            cursor is None ==> *final(self) == *old(self),
    {
        if let Some(c) = cursor {
            self.info.cursor_position = Vec2i {
                x: crate::units::clamp_i64(c.x, 0, self.config.world_width),
                y: crate::units::clamp_i64(c.y, 0, self.config.world_height),
            };
        }
    }

    /// Player movement: one step toward the stored pointer position,
    /// skipped within the anti-jitter guard or without a live player.
    pub fn move_player(&mut self, dt: i64)
        requires
            old(self).wf(),
            0 <= dt <= DT_LIMIT,
        ensures
            final(self).wf(),
            old(self).player is Some ==> *final(self) == (World {
                player: Some(
                    old(self).player->Some_0.spec_move_toward(
                        old(self).info.cursor_position,
                        dt as int,
                    ),
                ),
                ..*old(self)
            }),
            old(self).player is None ==> *final(self) == *old(self),
    {
        let cursor = self.info.cursor_position;
        match self.player {
            Some(p) => {
                let mut p2 = p;
                p2.move_toward(cursor, dt);
                self.player = Some(p2);
            },
            None => {},
        }
    }

    /// Clamps the player into the world inset by the active collider.
    pub fn limit_player_movement(&mut self)
        requires
            old(self).wf(),
        ensures
            final(self).wf(),
            old(self).player is Some ==> *final(self) == (World {
                player: Some(
                    old(self).player->Some_0.spec_limit_movement(
                        old(self).config.world_width,
                        old(self).config.world_height,
                    ),
                ),
                ..*old(self)
            }),
            old(self).player is None ==> *final(self) == *old(self),
    {
        let width = self.config.world_width;
        let height = self.config.world_height;
        match self.player {
            Some(p) => {
                let mut p2 = p;
                p2.limit_movement(width, height);
                self.player = Some(p2);
            },
            None => {},
        }
    }
}

} // verus!
