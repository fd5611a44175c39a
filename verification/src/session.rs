//! The ranged-enemy behavior sweep, the counter-attack session around the
//! minigame, and the per-tick orchestration of every phase.

use vstd::prelude::*;
use crate::arena::EnemyHandle;
use crate::collision::{Collider, Projectile};
use crate::counter::{CounterAttackChallenge, ChallengeStatus, InputToken};
use crate::enemy::{Enemy, EnemyState, EnemyType, ShooterAI, change_enemy_health};
use crate::events::{GameOverEvent, Signal};
use crate::player::{Player, PlayerInfo, PlayerState, change_player_fuel};
use crate::rng::rand_below;
use crate::timer::{Timer, DT_LIMIT};
use crate::units::MILLI;
use crate::vec2::{Vec2i, dir_toward};
use crate::world::{World, GameState, TickInput};

verus! {

impl World {
    /// The projectile an engaging ranged enemy fires: from its own
    /// position, aimed at the player, with its archetype's projectile
    /// profile.
    pub open spec fn spec_shot_from(e: Enemy, player_pos: Vec2i, c: crate::config::Config)
        -> Projectile {
        Projectile {
            position: e.position,
            speed: if e.enemy_type == EnemyType::Boss {
                c.boss_projectile_speed
            } else {
                c.shooter_projectile_speed
            },
            direction: crate::vec2::spec_dir_toward(e.position, player_pos),
            collider: Collider {
                size: if e.enemy_type == EnemyType::Boss {
                    c.boss_projectile_collider
                } else {
                    c.shooter_projectile_collider
                },
            },
        }
    }

    /// Whether a slot holds an enemy that fires this sweep: engaging,
    /// ranged, and its reload countdown just completed.
    pub open spec fn spec_slot_fires(s: crate::arena::EnemySlot) -> bool {
        &&& s.occupant is Some
        &&& s.occupant->Some_0.state == EnemyState::Engaging
        &&& s.occupant->Some_0.shooter_ai is Some
        &&& s.occupant->Some_0.shooter_ai->Some_0.reload_timer.just_finished
    }

    /// The projectiles one ranged sweep appends: exactly one per firing
    /// slot, in slot order from `from`.
    pub open spec fn spec_shots_fired(
        slots: Seq<crate::arena::EnemySlot>,
        from: int,
        player_pos: Vec2i,
        c: crate::config::Config,
    ) -> Seq<Projectile>
        decreases slots.len() - from,
    {
        if from < 0 || from >= slots.len() {
            Seq::empty()
        } else {
            let rest = Self::spec_shots_fired(slots, from + 1, player_pos, c);
            if Self::spec_slot_fires(slots[from]) {
                seq![Self::spec_shot_from(slots[from].occupant->Some_0, player_pos, c)] + rest
            } else {
                rest
            }
        }
    }

    /// The roaming band a re-rolled destination is drawn from: the world
    /// inset by the enemy's own collider size, falling back to the whole
    /// world for a collider wider than it.
    pub open spec fn spec_roam_band(e: Enemy, dest: Vec2i, width: i64, height: i64) -> bool {
        &&& (e.collider.size.x < width ==> 0 <= dest.x < width - e.collider.size.x)
        &&& (e.collider.size.x >= width ==> 0 <= dest.x < width)
        &&& (e.collider.size.y < height ==> 0 <= dest.y < height - e.collider.size.y)
        &&& (e.collider.size.y >= height ==> 0 <= dest.y < height)
    }

    /// Ranged behavior sweep: every engaging ranged enemy that reached its
    /// roaming destination picks a fresh random one in its band, and every
    /// one whose reload just completed fires exactly one projectile at the
    /// player's current position and rewinds its reload; nothing else about
    /// any enemy changes, and no other projectile appears. Absent a live
    /// player the sweep does nothing.
    pub fn handle_shooter_ai(&mut self)
        requires
            old(self).wf(),
        ensures
            final(self).wf(),
            old(self).player is None ==> *final(self) == *old(self),
            old(self).player is Some ==> {
                &&& final(self).enemies.slots@.len() == old(self).enemies.slots@.len()
                &&& (forall|j: int|
                    0 <= j < old(self).enemies.slots@.len() ==> {
                        let s0 = old(self).enemies.slots@[j];
                        let s1 = #[trigger] final(self).enemies.slots@[j];
                        &&& s1.generation == s0.generation
                        &&& (s0.occupant is None ==> s1.occupant is None)
                        &&& (s0.occupant is Some ==> s1.occupant is Some && {
                            let e = s0.occupant->Some_0;
                            let e2 = s1.occupant->Some_0;
                            if e.state == EnemyState::Engaging && e.shooter_ai is Some {
                                let sa = e.shooter_ai->Some_0;
                                &&& e2 == (Enemy {
                                    destination: e2.destination,
                                    shooter_ai: e2.shooter_ai,
                                    ..e
                                })
                                &&& (!e.destination_reached ==> e2.destination == e.destination)
                                &&& (e.destination_reached ==> Self::spec_roam_band(
                                    e,
                                    e2.destination,
                                    old(self).config.world_width,
                                    old(self).config.world_height,
                                ))
                                &&& e2.shooter_ai == Some(
                                    if sa.reload_timer.just_finished {
                                        ShooterAI {
                                            reload_timer: Timer {
                                                elapsed_ms: 0,
                                                just_finished: false,
                                                ..sa.reload_timer
                                            },
                                            ..sa
                                        }
                                    } else {
                                        sa
                                    },
                                )
                            } else {
                                e2 == e
                            }
                        })
                    })
                &&& (forall|h2: EnemyHandle|
                    #[trigger] final(self).enemies.valid(h2) == old(self).enemies.valid(h2))
                &&& final(self).projectiles@ == old(self).projectiles@ + Self::spec_shots_fired(
                    old(self).enemies.slots@,
                    0,
                    old(self).player->Some_0.position,
                    old(self).config,
                )
                &&& *final(self) == (World {
                    enemies: final(self).enemies,
                    projectiles: final(self).projectiles,
                    ..*old(self)
                })
            },
    {
        let target = match &self.player {
            Some(p) => p.position,
            None => {
                return ;
            },
        };
        let width = self.config.world_width;
        let height = self.config.world_height;
        let n = self.enemies.slot_count();
        let mut i: usize = 0;
        proof {
            assert(self.projectiles@ + Self::spec_shots_fired(
                self.enemies.slots@,
                0,
                target,
                self.config,
            ) =~= old(self).projectiles@ + Self::spec_shots_fired(
                old(self).enemies.slots@,
                0,
                target,
                old(self).config,
            ));
        }
        while i < n
            invariant
                old(self).wf(),
                old(self).player is Some,
                target == old(self).player->Some_0.position,
                width == old(self).config.world_width,
                height == old(self).config.world_height,
                n == self.enemies.slots@.len(),
                n == old(self).enemies.slots@.len(),
                i <= n,
                *self == (World {
                    enemies: self.enemies,
                    projectiles: self.projectiles,
                    ..*old(self)
                }),
                self.enemies.wf(),
                forall|k: int|
                    0 <= k < self.projectiles@.len() ==> (#[trigger] self.projectiles@[k]).wf(),
                self.projectiles@ + Self::spec_shots_fired(
                    old(self).enemies.slots@,
                    i as int,
                    target,
                    old(self).config,
                ) == old(self).projectiles@ + Self::spec_shots_fired(
                    old(self).enemies.slots@,
                    0,
                    target,
                    old(self).config,
                ),
                forall|j: int| i <= j < n ==> self.enemies.slots@[j] == old(self).enemies.slots@[j],
                forall|j: int|
                    0 <= j < i ==> {
                        let s0 = old(self).enemies.slots@[j];
                        let s1 = #[trigger] self.enemies.slots@[j];
                        &&& s1.generation == s0.generation
                        &&& (s0.occupant is None ==> s1.occupant is None)
                        &&& (s0.occupant is Some ==> s1.occupant is Some && {
                            let e = s0.occupant->Some_0;
                            let e2 = s1.occupant->Some_0;
                            if e.state == EnemyState::Engaging && e.shooter_ai is Some {
                                let sa = e.shooter_ai->Some_0;
                                &&& e2 == (Enemy {
                                    destination: e2.destination,
                                    shooter_ai: e2.shooter_ai,
                                    ..e
                                })
                                &&& (!e.destination_reached ==> e2.destination == e.destination)
                                &&& (e.destination_reached ==> Self::spec_roam_band(
                                    e,
                                    e2.destination,
                                    width,
                                    height,
                                ))
                                &&& e2.shooter_ai == Some(
                                    if sa.reload_timer.just_finished {
                                        ShooterAI {
                                            reload_timer: Timer {
                                                elapsed_ms: 0,
                                                just_finished: false,
                                                ..sa.reload_timer
                                            },
                                            ..sa
                                        }
                                    } else {
                                        sa
                                    },
                                )
                            } else {
                                e2 == e
                            }
                        })
                    },
            decreases n - i,
        {
            match self.enemies.read_slot(i) {
                Some(e) => {
                    if matches!(e.state, EnemyState::Engaging) && e.shooter_ai.is_some() {
                        let sa = match e.shooter_ai {
                            Some(sa) => sa,
                            None => unreached(),
                        };
                        let mut e2 = e;
                        if e.destination_reached {
                            let range_x = if e.collider.size.x < width {
                                width - e.collider.size.x
                            } else {
                                width
                            };
                            let range_y = if e.collider.size.y < height {
                                height - e.collider.size.y
                            } else {
                                height
                            };
                            let rx = rand_below(range_x);
                            let ry = rand_below(range_y);
                            e2.destination = Vec2i { x: rx, y: ry };
                        }
                        if sa.reload_timer.just_finished() {
                            let (pspeed, psize) = if matches!(e.enemy_type, EnemyType::Boss) {
                                (self.config.boss_projectile_speed, self.config.boss_projectile_collider)
                            } else {
                                (
                                    self.config.shooter_projectile_speed,
                                    self.config.shooter_projectile_collider,
                                )
                            };
                            let direction = dir_toward(e.position, target);
                            let shot = Projectile {
                                position: e.position,
                                speed: pspeed,
                                direction,
                                collider: Collider { size: psize },
                            };
                            let ghost pre = self.projectiles@;
                            self.projectiles.push(shot);
                            proof {
                                let rest = Self::spec_shots_fired(
                                    old(self).enemies.slots@,
                                    i as int + 1,
                                    target,
                                    old(self).config,
                                );
                                assert(shot == Self::spec_shot_from(e, target, old(self).config));
                                assert(self.projectiles@ =~= pre + seq![shot]);
                                assert((pre + seq![shot]) + rest =~= pre + (seq![shot] + rest));
                            }
                            e2.shooter_ai = Some(
                                ShooterAI {
                                    reload_timer: Timer {
                                        elapsed_ms: 0,
                                        just_finished: false,
                                        ..sa.reload_timer
                                    },
                                    ..sa
                                },
                            );
                        }
                        self.enemies.write_slot(i, e2);
                    }
                },
                None => {},
            }
            i = i + 1;
        }
        proof {
            assert(Self::spec_shots_fired(
                old(self).enemies.slots@,
                n as int,
                target,
                old(self).config,
            ) =~= Seq::<Projectile>::empty());
            assert(self.projectiles@ + Seq::<Projectile>::empty() =~= self.projectiles@);
        }
    }

    /// What winning the minigame does to the world: the target enemy is
    /// destroyed (population floored at zero) and the player gains the
    /// fixed fuel reward, clamped at capacity.
    pub open spec fn spec_challenge_success_outcome(
        pre: World,
        post: World,
        target: EnemyHandle,
    ) -> bool {
        &&& (pre.enemies.valid(target) ==> !post.enemies.valid(target) && post.info.enemies_num
            == (if pre.info.enemies_num > 0 {
            (pre.info.enemies_num - 1) as usize
        } else {
            0usize
        }))
        &&& (!pre.enemies.valid(target) ==> post.enemies == pre.enemies && post.info.enemies_num
            == pre.info.enemies_num)
        &&& post.player_info.current_fuel == crate::units::spec_clamp(
            pre.player_info.current_fuel + pre.player_info.counter_attack_fuel_gain,
            0,
            pre.config.player_fuel_capacity as int,
        )
        &&& post.game_state == pre.game_state
    }

    /// What losing the minigame does to the world: the player is forced
    /// out of the chainsaw profile, takes one hit (the run ends at minimum
    /// health), loses the fixed fuel stake, and the target heals by the
    /// fixed amount, clamped to its maximum.
    pub open spec fn spec_challenge_failure_outcome(
        pre: World,
        post: World,
        target: EnemyHandle,
    ) -> bool {
        &&& (pre.player_info.current_hp > 1 ==> post.player_info.current_hp
            == pre.player_info.current_hp - 1 && post.player_state == PlayerState::DAMAGED)
        &&& (pre.player_info.current_hp <= 1 ==> post.player_info.current_hp == 0
            && post.game_state == GameState::Gameover && post.player is None)
        &&& ((pre.player_state == PlayerState::CHAINSAW && pre.player is Some
            && pre.player_info.current_hp > 1) ==> post.player == Some(
            Player {
                current_speed: pre.config.player_regular_speed,
                collider: crate::collision::Collider { size: pre.config.player_regular_collider },
                ..pre.player->Some_0
            },
        ) && post.player_info.chainsaw_heat == 0)
        &&& post.player_info.current_fuel == crate::units::spec_clamp(
            pre.player_info.current_fuel + pre.player_info.counter_attack_fuel_loss,
            0,
            pre.config.player_fuel_capacity as int,
        )
        &&& (pre.enemies.valid(target) ==> post.enemies.valid(target) && post.enemies.enemy_at(
            target,
        ) == (Enemy {
            current_hp: crate::units::spec_clamp(
                pre.enemies.enemy_at(target).current_hp + pre.config.enemy_heal_on_fail,
                0,
                pre.enemies.enemy_at(target).max_hp as int,
            ) as i64,
            ..pre.enemies.enemy_at(target)
        }))
        &&& (!pre.enemies.valid(target) ==> post.enemies == pre.enemies)
    }

    /// Success of the counter-attack: the target is destroyed, the player
    /// gains the fixed fuel reward, and the resolution is signalled.
    fn resolve_challenge_success(&mut self, target: EnemyHandle)
        requires
            old(self).wf(),
        ensures
            final(self).wf(),
            final(self).challenge == old(self).challenge,
            old(self).enemies.valid(target) ==> !final(self).enemies.valid(target)
                && final(self).info.enemies_num == (if old(self).info.enemies_num > 0 {
                (old(self).info.enemies_num - 1) as usize
            } else {
                0usize
            }),
            !old(self).enemies.valid(target) ==> final(self).enemies == old(self).enemies && final(self).info.enemies_num == old(self).info.enemies_num,
            final(self).player_info.current_fuel == crate::units::spec_clamp(
                old(self).player_info.current_fuel + old(self).player_info.counter_attack_fuel_gain,
                0,
                old(self).config.player_fuel_capacity as int,
            ),
            final(self).signals@.last() == Signal::ChallengeResolved(true),
            final(self).game_state == old(self).game_state,
            Self::spec_challenge_success_outcome(*old(self), *final(self), target),
            final(self).projectiles == old(self).projectiles,
            final(self).pickups == old(self).pickups,
            final(self).info.player_progress == old(self).info.player_progress,
            final(self).info.cursor_position == old(self).info.cursor_position,
            final(self).enemy_spawn_timer == old(self).enemy_spawn_timer,
            final(self).pickup_spawn_timer == old(self).pickup_spawn_timer,
            final(self).config == old(self).config,
    {
        if self.enemies.get(target).is_some() {
            self.destroy_enemy(target);
        }
        let gain = self.player_info.counter_attack_fuel_gain;
        change_player_fuel(&mut self.player_info, gain, self.config.player_fuel_capacity);
        self.signals.push(Signal::ChallengeResolved(true));
    }

    /// Failure of the counter-attack: the player is forced out of the
    /// chainsaw (if in it), takes one hit (at minimum health the run
    /// ends), loses the fixed fuel stake, the target heals by the fixed
    /// amount, and the resolution is signalled.
    fn resolve_challenge_failure(&mut self, target: EnemyHandle)
        requires
            old(self).wf(),
        ensures
            final(self).wf(),
            final(self).challenge == old(self).challenge,
            old(self).player_info.current_hp > 1 ==> final(self).player_info.current_hp == old(self).player_info.current_hp - 1 && final(self).player_state == PlayerState::DAMAGED,
            old(self).player_info.current_hp <= 1 ==> final(self).player_info.current_hp == 0
                && final(self).game_state == GameState::Gameover && final(self).player is None,
            (old(self).player_state == PlayerState::CHAINSAW && old(self).player is Some && old(self).player_info.current_hp > 1) ==> final(self).player == Some(
                Player {
                    current_speed: old(self).config.player_regular_speed,
                    collider: crate::collision::Collider {
                        size: old(self).config.player_regular_collider,
                    },
                    ..old(self).player->Some_0
                },
            ) && final(self).player_info.chainsaw_heat == 0,
            final(self).player_info.current_fuel == crate::units::spec_clamp(
                old(self).player_info.current_fuel + old(self).player_info.counter_attack_fuel_loss,
                0,
                old(self).config.player_fuel_capacity as int,
            ),
            old(self).enemies.valid(target) ==> final(self).enemies.valid(target) && final(self).enemies.enemy_at(target) == (Enemy {
                current_hp: crate::units::spec_clamp(
                    old(self).enemies.enemy_at(target).current_hp + old(self).config.enemy_heal_on_fail,
                    0,
                    old(self).enemies.enemy_at(target).max_hp as int,
                ) as i64,
                ..old(self).enemies.enemy_at(target)
            }),
            !old(self).enemies.valid(target) ==> final(self).enemies == old(self).enemies,
            final(self).signals@.last() == Signal::ChallengeResolved(false),
            Self::spec_challenge_failure_outcome(*old(self), *final(self), target),
            final(self).projectiles == old(self).projectiles,
            final(self).pickups == old(self).pickups,
            final(self).info.player_progress == old(self).info.player_progress,
            final(self).info.cursor_position == old(self).info.cursor_position,
            final(self).enemy_spawn_timer == old(self).enemy_spawn_timer,
            final(self).pickup_spawn_timer == old(self).pickup_spawn_timer,
            final(self).config == old(self).config,
    {
        if matches!(self.player_state, PlayerState::CHAINSAW) {
            if let Some(p) = self.player {
                self.player = Some(
                    Player {
                        current_speed: self.config.player_regular_speed,
                        collider: Collider { size: self.config.player_regular_collider },
                        ..p
                    },
                );
            }
            self.player_info = PlayerInfo { chainsaw_heat: 0, ..self.player_info };
        }
        if self.player_info.current_hp <= 1 {
            self.player_info = PlayerInfo { current_hp: 0, ..self.player_info };
            self.bus.game_over.push(GameOverEvent);
            self.game_state = GameState::Gameover;
            self.player = None;
            self.signals.push(Signal::GameOver);
        } else {
            self.player_info = PlayerInfo {
                current_hp: self.player_info.current_hp - 1,
                ..self.player_info
            };
            self.player_state = PlayerState::DAMAGED;
        }
        let loss = self.player_info.counter_attack_fuel_loss;
        change_player_fuel(&mut self.player_info, loss, self.config.player_fuel_capacity);
        match self.enemies.get(target) {
            Some(e) => {
                let mut e2 = e;
                change_enemy_health(&mut e2, self.config.enemy_heal_on_fail);
                self.enemies.set(target, e2);
            },
            None => {},
        }
        self.signals.push(Signal::ChallengeResolved(false));
    }

    /// One tick of an active challenge: the countdown advances first - its
    /// completion with tokens still required fails the challenge - and
    /// then this tick's input token, if any, is matched against the next
    /// required one: a mismatch fails at once, the last correct token
    /// wins. Success and failure both end the session.
    #[verifier::rlimit(50)]
    pub fn resolve_challenge(&mut self, dt: i64, token: Option<InputToken>)
        requires
            old(self).wf(),
            0 <= dt <= DT_LIMIT,
        ensures
            final(self).wf(),
            old(self).challenge is None ==> *final(self) == *old(self),
            old(self).challenge is Some ==> ({
                let ch = old(self).challenge->Some_0;
                let ticked = ch.timer.spec_tick(dt as int);
                let timed_out = ticked.just_finished && ch.remaining().len() > 0;
                &&& (timed_out ==> final(self).challenge is None && final(self).signals@.last()
                    == Signal::ChallengeResolved(false) && Self::spec_challenge_failure_outcome(
                    *old(self),
                    *final(self),
                    ch.target,
                ))
                &&& (!timed_out && token is None ==> final(self).challenge == Some(
                    CounterAttackChallenge { timer: ticked, ..ch },
                ))
                &&& (!timed_out && token is Some && ch.remaining().len() > 0 && token->Some_0
                    != ch.remaining()[0] ==> final(self).challenge is None && final(self).signals@.last() == Signal::ChallengeResolved(false)
                    && Self::spec_challenge_failure_outcome(*old(self), *final(self), ch.target))
                &&& (!timed_out && token is Some && ch.remaining().len() > 1 && token->Some_0
                    == ch.remaining()[0] ==> final(self).challenge == Some(
                    CounterAttackChallenge { next: (ch.next + 1) as usize, timer: ticked, ..ch },
                ))
                &&& (!timed_out && token is Some && ch.remaining().len() == 1 && token->Some_0
                    == ch.remaining()[0] ==> {
                    &&& final(self).challenge is None
                    &&& final(self).signals@.last() == Signal::ChallengeResolved(true)
                    &&& Self::spec_challenge_success_outcome(*old(self), *final(self), ch.target)
                })
            }),
            final(self).projectiles == old(self).projectiles,
            final(self).pickups == old(self).pickups,
            final(self).info.player_progress == old(self).info.player_progress,
            final(self).info.cursor_position == old(self).info.cursor_position,
            final(self).enemy_spawn_timer == old(self).enemy_spawn_timer,
            final(self).pickup_spawn_timer == old(self).pickup_spawn_timer,
            final(self).config == old(self).config,
    {
        let mut taken: Option<CounterAttackChallenge> = None;
        core::mem::swap(&mut taken, &mut self.challenge);
        let mut ch = match taken {
            Some(ch) => ch,
            None => {
                return ;
            },
        };
        ch.tick_timer(dt);
        if ch.timed_out() {
            self.resolve_challenge_failure(ch.target);
            return ;
        }
        if let Some(t) = token {
            if ch.next < ch.tokens.len() {
                let status = ch.feed_token(t);
                match status {
                    ChallengeStatus::Success => {
                        self.resolve_challenge_success(ch.target);
                        return ;
                    },
                    ChallengeStatus::Failure => {
                        self.resolve_challenge_failure(ch.target);
                        return ;
                    },
                    ChallengeStatus::Pending => {},
                }
            }
        }
        self.challenge = Some(ch);
    }

    /// One simulation tick: nothing happens outside a running game; while
    /// a challenge is active only the challenge resolves; otherwise the
    /// phases run in their fixed order - timers, input, scheduling,
    /// player and enemy behavior, projectiles and pickups, collision, then
    /// the event consumers - and the event queues are drained to empty.
    #[verifier::rlimit(80)]
    pub fn tick(&mut self, dt: i64, input: TickInput)
        requires
            old(self).wf(),
            0 <= dt <= DT_LIMIT,
        ensures
            final(self).wf(),
            old(self).game_state != GameState::Running ==> *final(self) == *old(self),
            old(self).game_state == GameState::Running && old(self).challenge is None ==> {
                &&& final(self).bus.is_empty()
                &&& final(self).enemy_spawn_timer.timer == old(self).enemy_spawn_timer.timer.spec_tick(dt as int)
                &&& final(self).pickup_spawn_timer.timer == old(self).pickup_spawn_timer.timer.spec_tick(dt as int)
                &&& final(self).info.player_progress == crate::units::spec_clamp(
                    old(self).info.player_progress + old(self).config.player_falling_speed * dt / (
                    crate::units::MILLI as int),
                    0,
                    old(self).config.max_depth as int,
                )
                &&& (input.cursor_position is Some ==> final(self).info.cursor_position == (Vec2i {
                    x: crate::units::spec_clamp(
                        input.cursor_position->Some_0.x as int,
                        0,
                        old(self).config.world_width as int,
                    ) as i64,
                    y: crate::units::spec_clamp(
                        input.cursor_position->Some_0.y as int,
                        0,
                        old(self).config.world_height as int,
                    ) as i64,
                }))
                &&& (input.cursor_position is None ==> final(self).info.cursor_position == old(self).info.cursor_position)
            },
            old(self).game_state == GameState::Running && old(self).challenge is Some ==> {
                &&& final(self).projectiles == old(self).projectiles
                &&& final(self).pickups == old(self).pickups
                &&& final(self).info.player_progress == old(self).info.player_progress
                &&& final(self).enemy_spawn_timer == old(self).enemy_spawn_timer
                &&& final(self).pickup_spawn_timer == old(self).pickup_spawn_timer
            },
    {
        if !matches!(self.game_state, GameState::Running) {
            return ;
        }
        if self.challenge.is_some() {
            let token = if input.primary_just_pressed {
                Some(InputToken::Primary)
            } else if input.secondary_just_pressed {
                Some(InputToken::Secondary)
            } else {
                None
            };
            self.resolve_challenge(dt, token);
            return ;
        }
        self.tick_enemy_spawn_timer(dt);
        self.tick_pickup_spawn_timer(dt);
        self.tick_damage_invulnerability_timer(dt);
        self.tick_enemy_fire_timer(dt);
        self.tick_shooter_reloading_timer(dt);
        self.get_cursor_world_coordinates(input.cursor_position);
        self.spawn_enemies_over_time();
        self.spawn_pickups_over_time();
        self.update_player_progress(dt);
        self.transition_to_player_chainsaw_state(input.primary_just_pressed);
        self.gain_fuel_over_time(dt);
        self.drain_fuel(dt);
        self.move_player(dt);
        self.limit_player_movement();
        self.move_enemies_to_destination(dt);
        self.follow_player();
        self.handle_shooter_ai();
        self.limit_enemy_movement();
        self.handle_on_fire_state();
        self.handle_projectiles(dt);
        self.move_pickups_vertically(dt);
        self.despawn_pickups();
        self.check_player_pickup_collision();
        self.check_player_enemy_collision();
        self.check_player_projectile_collision();
        self.manage_chainsaw_overheat(dt);
        self.handle_enemy_take_damage_event(dt);
        self.handle_fire_wave_event();
        self.handle_player_take_damage_event();
        self.player_take_damage_invulnerability();
        self.transition_to_player_regular_state();
        self.handle_game_over_event();
        self.bus.clear();
    }

    /// Hands out and clears the accumulated presentation signals.
    pub fn take_signals(&mut self) -> (r: Vec<Signal>)
        ensures
            r@ == old(self).signals@,
            final(self).signals@.len() == 0,
            *final(self) == (World { signals: final(self).signals, ..*old(self) }),
    {
        let mut out: Vec<Signal> = Vec::new();
        core::mem::swap(&mut out, &mut self.signals);
        out
    }

    /// The player's current health, in whole points.
    pub fn player_hp(&self) -> (r: usize)
        ensures
            r == self.player_info.current_hp,
    {
        self.player_info.current_hp
    }

    /// The player's current fuel, in milli-units.
    pub fn player_fuel(&self) -> (r: i64)
        ensures
            r == self.player_info.current_fuel,
    {
        self.player_info.current_fuel
    }

    /// The current world-progress depth, in milli-units.
    pub fn player_progress(&self) -> (r: i64)
        ensures
            r == self.info.player_progress,
    {
        self.info.player_progress
    }

    /// The current enemy population counter.
    pub fn enemy_population(&self) -> (r: usize)
        ensures
            r == self.info.enemies_num,
    {
        self.info.enemies_num
    }

    /// Whether a counter-attack challenge is running.
    pub fn challenge_active(&self) -> (r: bool)
        ensures
            r == (self.challenge is Some),
    {
        self.challenge.is_some()
    }

    /// How many tokens the active challenge still requires; zero without
    /// an active challenge.
    pub fn challenge_remaining_tokens(&self) -> (r: usize)
        requires
            self.wf(),
        ensures
            self.challenge is Some ==> r == self.challenge->Some_0.remaining().len(),
            self.challenge is None ==> r == 0,
    {
        match &self.challenge {
            Some(ch) => ch.tokens.len() - ch.next,
            None => 0,
        }
    }

    /// How much time the active challenge has left, in milliseconds; zero
    /// without an active challenge.
    pub fn challenge_remaining_ms(&self) -> (r: i64)
        requires
            self.wf(),
        ensures
            self.challenge is Some ==> r == self.challenge->Some_0.timer.duration_ms
                - self.challenge->Some_0.timer.elapsed_ms,
            self.challenge is None ==> r == 0,
    {
        match &self.challenge {
            Some(ch) => ch.timer.duration_ms - ch.timer.elapsed_ms,
            None => 0,
        }
    }
}

} // verus!
