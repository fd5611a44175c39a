//! The simulation context: the single owner of every actor, timer, queue
//! and counter, advanced by explicit per-tick phase functions. Phases run
//! in a fixed order within `tick`; while a counter-attack challenge is
//! active the normal phases are suspended and only the challenge resolves.

use vstd::prelude::*;
use crate::arena::EnemyArena;
use crate::collision::{Collider, Pickup, Projectile};
use crate::config::{Config, RATE_LIMIT};
use crate::counter::CounterAttackChallenge;
use crate::enemy::EnemyType;
use crate::events::{EventBus, Signal, PlayerTransitionToRegularFormEvent, GameOverEvent};
use crate::player::{Player, PlayerInfo, PlayerState, PlayerDamageInvulnerabilityTimer,
    change_player_fuel};
use crate::timer::{Timer, TimerMode, DT_LIMIT};
use crate::units::{MILLI, spec_clamp, clamp_i64, lemma_mul_div_bounds};
use crate::vec2::Vec2i;

verus! {

/// Rejected startup constants: the one fatal error of the core.
#[derive(Clone, Copy, PartialEq, Eq, Structural, Debug)]
pub enum ConfigError {
    InvalidConstants,
}

/// Top-level run state.
#[derive(Clone, Copy, PartialEq, Eq, Structural, Debug)]
pub enum GameState {
    MainMenu,
    Running,
    Gameover,
}

/// World-progress bookkeeping and the spawn scheduler's state.
pub struct GameInfo {
    pub cursor_position: Vec2i,
    pub player_progress: i64,
    pub enemies_num: usize,
    pub enemies_spawn_queue: Vec<EnemyType>,
    pub is_boss_spawned: bool,
}

/// Repeating cadence of enemy spawning.
#[derive(Clone, Copy, PartialEq, Eq, Structural, Debug)]
pub struct EnemySpawnTimer {
    pub timer: Timer,
}

/// Repeating cadence of pickup spawning.
#[derive(Clone, Copy, PartialEq, Eq, Structural, Debug)]
pub struct PickupSpawnTimer {
    pub timer: Timer,
}

/// The abstracted input surface of one tick: where the pointer is, and the
/// edge-triggered state of the two discrete inputs.
#[derive(Clone, Copy, PartialEq, Eq, Structural, Debug)]
pub struct TickInput {
    /// Pointer position in world coordinates, when the pointer is over the
    /// window.
    pub cursor_position: Option<Vec2i>,
    /// The primary action was pressed this tick (chainsaw activation; the
    /// first minigame token).
    pub primary_just_pressed: bool,
    /// The secondary action was pressed this tick (the second minigame
    /// token).
    pub secondary_just_pressed: bool,
}

pub struct World {
    pub config: Config,
    pub game_state: GameState,
    pub info: GameInfo,
    pub player: Option<Player>,
    pub player_info: PlayerInfo,
    pub player_state: PlayerState,
    pub enemies: EnemyArena,
    pub projectiles: Vec<Projectile>,
    pub pickups: Vec<Pickup>,
    pub enemy_spawn_timer: EnemySpawnTimer,
    pub pickup_spawn_timer: PickupSpawnTimer,
    pub invulnerability_timer: PlayerDamageInvulnerabilityTimer,
    pub bus: EventBus,
    pub challenge: Option<CounterAttackChallenge>,
    pub signals: Vec<Signal>,
}

impl World {
    pub open spec fn wf(self) -> bool {
        &&& self.config.wf()
        &&& self.info.cursor_position.in_world_range()
        &&& 0 <= self.info.player_progress <= self.config.max_depth
        &&& self.info.enemies_num <= self.config.max_enemies
        &&& (self.player is Some ==> self.player->Some_0.wf())
        &&& (self.player is Some ==> crate::config::collider_fits(
            self.player->Some_0.collider.size,
            self.config.world_width,
            self.config.world_height,
        ))
        &&& self.player_info.wf(
            self.config.player_fuel_capacity,
            self.config.player_max_health,
            self.config.chainsaw_heat_limit,
        )
        &&& self.enemies.wf()
        &&& (forall|i: int|
            0 <= i < self.projectiles@.len() ==> (#[trigger] self.projectiles@[i]).wf())
        &&& (forall|i: int| 0 <= i < self.pickups@.len() ==> (#[trigger] self.pickups@[i]).wf())
        &&& self.enemy_spawn_timer.timer.wf()
        &&& self.pickup_spawn_timer.timer.wf()
        &&& self.invulnerability_timer.timer.wf()
        &&& (self.challenge is Some ==> self.challenge->Some_0.wf())
    }

    /// Builds a world from startup constants, rejecting malformed ones.
    /// The run starts in the main menu with no live player.
    pub fn new(config: Config) -> (r: Result<World, ConfigError>)
        ensures
            r is Ok <==> config.wf(),
            r is Ok ==> {
                let w = r->Ok_0;
                &&& w.wf()
                &&& w.config == config
                &&& w.game_state == GameState::MainMenu
                &&& w.player is None
                &&& w.info.enemies_num == 0
                &&& w.info.player_progress == 0
                &&& !w.info.is_boss_spawned
                &&& w.info.enemies_spawn_queue@.len() == 0
                &&& w.player_info == (PlayerInfo {
                    current_fuel: config.player_fuel_capacity,
                    current_hp: config.player_max_health,
                    blood: 0,
                    chainsaw_heat: 0,
                    counter_attack_fuel_loss: config.counter_attack_fuel_loss,
                    counter_attack_fuel_gain: config.counter_attack_fuel_gain,
                })
                &&& w.player_state == PlayerState::REGULAR
                &&& w.challenge is None
                &&& w.bus.is_empty()
            },
            r is Err ==> r->Err_0 == ConfigError::InvalidConstants,
    {
        if !config.validate() {
            return Err(ConfigError::InvalidConstants);
        }
        Ok(
            World {
                config,
                game_state: GameState::MainMenu,
                info: GameInfo {
                    cursor_position: Vec2i { x: 0, y: 0 },
                    player_progress: 0,
                    enemies_num: 0,
                    enemies_spawn_queue: Vec::new(),
                    is_boss_spawned: false,
                },
                player: None,
                player_info: PlayerInfo {
                    current_fuel: config.player_fuel_capacity,
                    current_hp: config.player_max_health,
                    blood: 0,
                    chainsaw_heat: 0,
                    counter_attack_fuel_loss: config.counter_attack_fuel_loss,
                    counter_attack_fuel_gain: config.counter_attack_fuel_gain,
                },
                player_state: PlayerState::REGULAR,
                enemies: EnemyArena::new(),
                projectiles: Vec::new(),
                pickups: Vec::new(),
                enemy_spawn_timer: EnemySpawnTimer {
                    timer: Timer::new(config.enemy_spawn_period_ms, TimerMode::Repeating),
                },
                pickup_spawn_timer: PickupSpawnTimer {
                    timer: Timer::new(config.pickup_spawn_period_ms, TimerMode::Repeating),
                },
                invulnerability_timer: PlayerDamageInvulnerabilityTimer::new(
                    config.player_invulnerability_ms,
                ),
                bus: EventBus::new(),
                challenge: None,
                signals: Vec::new(),
            },
        )
    }

    /// Leaves the menu: the player actor appears at the world center in
    /// the regular profile and the simulation starts running.
    pub fn spawn_player(&mut self)
        requires
            old(self).wf(),
        ensures
            final(self).wf(),
            final(self).game_state == GameState::Running,
            final(self).player == Some(
                Player {
                    position: Vec2i {
                        x: (old(self).config.world_width / 2) as i64,
                        y: (old(self).config.world_height / 2) as i64,
                    },
                    current_speed: old(self).config.player_regular_speed,
                    collider: Collider { size: old(self).config.player_regular_collider },
                },
            ),
            final(self).config == old(self).config,
            final(self).player_info == old(self).player_info,
            final(self).player_state == old(self).player_state,
    {
        self.player = Some(
            Player {
                position: Vec2i { x: self.config.world_width / 2, y: self.config.world_height / 2 },
                current_speed: self.config.player_regular_speed,
                collider: Collider { size: self.config.player_regular_collider },
            },
        );
        self.game_state = GameState::Running;
    }

    /// Advances the enemy-spawn cadence.
    pub fn tick_enemy_spawn_timer(&mut self, dt: i64)
        requires
            old(self).wf(),
            0 <= dt <= DT_LIMIT,
        ensures
            final(self).wf(),
            final(self).enemy_spawn_timer.timer == old(self).enemy_spawn_timer.timer.spec_tick(
                dt as int,
            ),
            *final(self) == (World {
                enemy_spawn_timer: final(self).enemy_spawn_timer,
                ..*old(self)
            }),
    {
        self.enemy_spawn_timer.timer.tick(dt);
    }

    /// Advances the pickup-spawn cadence.
    pub fn tick_pickup_spawn_timer(&mut self, dt: i64)
        requires
            old(self).wf(),
            0 <= dt <= DT_LIMIT,
        ensures
            final(self).wf(),
            final(self).pickup_spawn_timer.timer == old(self).pickup_spawn_timer.timer.spec_tick(
                dt as int,
            ),
            *final(self) == (World {
                pickup_spawn_timer: final(self).pickup_spawn_timer,
                ..*old(self)
            }),
    {
        self.pickup_spawn_timer.timer.tick(dt);
    }

    /// Advances the invulnerability countdown, which only runs while the
    /// player is in the damaged state.
    pub fn tick_damage_invulnerability_timer(&mut self, dt: i64)
        requires
            old(self).wf(),
            0 <= dt <= DT_LIMIT,
        ensures
            final(self).wf(),
            old(self).player_state == PlayerState::DAMAGED ==> *final(self) == (World {
                invulnerability_timer: PlayerDamageInvulnerabilityTimer {
                    timer: old(self).invulnerability_timer.timer.spec_tick(dt as int),
                },
                ..*old(self)
            }),
            old(self).player_state != PlayerState::DAMAGED ==> *final(self) == *old(self),
    {
        if matches!(self.player_state, PlayerState::DAMAGED) {
            self.invulnerability_timer.timer.tick(dt);
        }
    }

    /// Sinks the player deeper while the run lasts; progress saturates at
    /// the configured maximum depth.
    pub fn update_player_progress(&mut self, dt: i64)
        requires
            old(self).wf(),
            0 <= dt <= DT_LIMIT,
        ensures
            final(self).wf(),
            *final(self) == (World {
                info: GameInfo {
                    player_progress: spec_clamp(
                        old(self).info.player_progress + old(self).config.player_falling_speed * dt
                            / (MILLI as int),
                        0,
                        old(self).config.max_depth as int,
                    ) as i64,
                    ..old(self).info
                },
                ..*old(self)
            }),
            final(self).info.player_progress >= old(self).info.player_progress,
    {
        proof {
            lemma_mul_div_bounds(
                self.config.player_falling_speed as int,
                dt as int,
                RATE_LIMIT as int,
                DT_LIMIT as int,
                MILLI as int,
            );
        }
        let delta = self.config.player_falling_speed * dt / MILLI;
        self.info.player_progress = clamp_i64(
            self.info.player_progress + delta,
            0,
            self.config.max_depth,
        );
    }

    /// Passive fuel regeneration, which only runs in the regular state;
    /// fuel saturates at capacity.
    pub fn gain_fuel_over_time(&mut self, dt: i64)
        requires
            old(self).wf(),
            0 <= dt <= DT_LIMIT,
        ensures
            final(self).wf(),
            old(self).player_state == PlayerState::REGULAR ==> *final(self) == (World {
                player_info: PlayerInfo {
                    current_fuel: spec_clamp(
                        old(self).player_info.current_fuel + old(
                            self,
                        ).config.passive_fuel_gain_rate * dt / (MILLI as int),
                        0,
                        old(self).config.player_fuel_capacity as int,
                    ) as i64,
                    ..old(self).player_info
                },
                ..*old(self)
            }),
            old(self).player_state != PlayerState::REGULAR ==> *final(self) == *old(self),
    {
        if matches!(self.player_state, PlayerState::REGULAR) {
            proof {
                lemma_mul_div_bounds(
                    self.config.passive_fuel_gain_rate as int,
                    dt as int,
                    RATE_LIMIT as int,
                    DT_LIMIT as int,
                    MILLI as int,
                );
            }
            let gain = self.config.passive_fuel_gain_rate * dt / MILLI;
            change_player_fuel(&mut self.player_info, gain, self.config.player_fuel_capacity);
        }
    }

    /// Fuel drain while the chainsaw runs; when fuel falls below one unit
    /// a transition-to-regular event is published.
    pub fn drain_fuel(&mut self, dt: i64)
        requires
            old(self).wf(),
            0 <= dt <= DT_LIMIT,
        ensures
            final(self).wf(),
            old(self).player_state != PlayerState::CHAINSAW ==> *final(self) == *old(self),
            old(self).player_state == PlayerState::CHAINSAW ==> {
                let drained = spec_clamp(
                    old(self).player_info.current_fuel - old(self).config.chainsaw_fuel_drain_rate
                        * dt / (MILLI as int),
                    0,
                    old(self).config.player_fuel_capacity as int,
                ) as i64;
                &&& final(self).player_info == (PlayerInfo {
                    current_fuel: drained,
                    ..old(self).player_info
                })
                &&& (drained < MILLI ==> final(self).bus.transition_to_regular@ == old(
                    self,
                ).bus.transition_to_regular@.push(PlayerTransitionToRegularFormEvent))
                &&& (drained >= MILLI ==> final(self).bus.transition_to_regular@ == old(
                    self,
                ).bus.transition_to_regular@)
                &&& *final(self) == (World {
                    player_info: final(self).player_info,
                    bus: final(self).bus,
                    ..*old(self)
                })
                &&& final(self).bus == (EventBus {
                    transition_to_regular: final(self).bus.transition_to_regular,
                    ..old(self).bus
                })
            },
    {
        if matches!(self.player_state, PlayerState::CHAINSAW) {
            proof {
                lemma_mul_div_bounds(
                    self.config.chainsaw_fuel_drain_rate as int,
                    dt as int,
                    RATE_LIMIT as int,
                    DT_LIMIT as int,
                    MILLI as int,
                );
            }
            let drain = self.config.chainsaw_fuel_drain_rate * dt / MILLI;
            change_player_fuel(&mut self.player_info, -drain, self.config.player_fuel_capacity);
            if self.player_info.current_fuel < MILLI {
                self.bus.transition_to_regular.push(PlayerTransitionToRegularFormEvent);
            }
        }
    }

    /// Chainsaw activation: in the regular state, with fuel at capacity
    /// and the primary action just pressed, the player switches to the
    /// chainsaw profile.
    pub fn transition_to_player_chainsaw_state(&mut self, primary_just_pressed: bool)
        requires
            old(self).wf(),
        ensures
            final(self).wf(),
            ({
                let fires = old(self).player_state == PlayerState::REGULAR && old(self).player
                    is Some && old(self).player_info.current_fuel == old(
                    self,
                ).config.player_fuel_capacity && primary_just_pressed;
                if fires {
                    *final(self) == (World {
                        player_state: PlayerState::CHAINSAW,
                        player: Some(
                            Player {
                                current_speed: old(self).config.player_chainsaw_speed,
                                collider: Collider {
                                    size: old(self).config.player_chainsaw_collider,
                                },
                                ..old(self).player->Some_0
                            },
                        ),
                        ..*old(self)
                    })
                } else {
                    *final(self) == *old(self)
                }
            }),
    {
        if !matches!(self.player_state, PlayerState::REGULAR) {
            return;
        }
        if let Some(p) = self.player {
            if self.player_info.current_fuel == self.config.player_fuel_capacity
                && primary_just_pressed {
                self.player_state = PlayerState::CHAINSAW;
                self.player = Some(
                    Player {
                        current_speed: self.config.player_chainsaw_speed,
                        collider: Collider { size: self.config.player_chainsaw_collider },
                        ..p
                    },
                );
            }
        }
    }

    /// Consumes the transition-to-regular events: the player returns to
    /// the regular state, chainsaw heat resets and the regular speed and
    /// collider profile is restored.
    pub fn transition_to_player_regular_state(&mut self)
        requires
            old(self).wf(),
        ensures
            final(self).wf(),
            ({
                let fires = old(self).bus.transition_to_regular@.len() > 0 && old(self).player
                    is Some;
                if fires {
                    *final(self) == (World {
                        player_state: PlayerState::REGULAR,
                        player: Some(
                            Player {
                                current_speed: old(self).config.player_regular_speed,
                                collider: Collider {
                                    size: old(self).config.player_regular_collider,
                                },
                                ..old(self).player->Some_0
                            },
                        ),
                        player_info: PlayerInfo { chainsaw_heat: 0, ..old(self).player_info },
                        ..*old(self)
                    })
                } else {
                    *final(self) == *old(self)
                }
            }),
    {
        if self.bus.transition_to_regular.len() == 0 {
            return;
        }
        if let Some(p) = self.player {
            self.player_state = PlayerState::REGULAR;
            self.player = Some(
                Player {
                    current_speed: self.config.player_regular_speed,
                    collider: Collider { size: self.config.player_regular_collider },
                    ..p
                },
            );
            self.player_info = PlayerInfo { chainsaw_heat: 0, ..self.player_info };
        }
    }

    /// Consumes one damage-dealt-to-player event, in the regular state
    /// only: at minimum viable health the game ends and health floors at
    /// zero, otherwise health drops by one and the damaged state begins.
    pub fn handle_player_take_damage_event(&mut self)
        requires
            old(self).wf(),
        ensures
            final(self).wf(),
            ({
                let fires = old(self).player_state == PlayerState::REGULAR && old(
                    self,
                ).bus.player_take_damage@.len() > 0;
                if fires {
                    if old(self).player_info.current_hp <= 1 {
                        *final(self) == (World {
                            player_info: PlayerInfo { current_hp: 0, ..old(self).player_info },
                            bus: EventBus {
                                game_over: final(self).bus.game_over,
                                ..old(self).bus
                            },
                            ..*old(self)
                        }) && final(self).bus.game_over@ == old(self).bus.game_over@.push(
                            GameOverEvent,
                        )
                    } else {
                        *final(self) == (World {
                            player_state: PlayerState::DAMAGED,
                            player_info: PlayerInfo {
                                current_hp: (old(self).player_info.current_hp - 1) as usize,
                                ..old(self).player_info
                            },
                            ..*old(self)
                        })
                    }
                } else {
                    *final(self) == *old(self)
                }
            }),
    {
        if !matches!(self.player_state, PlayerState::REGULAR) {
            return;
        }
        if self.bus.player_take_damage.len() > 0 {
            if self.player_info.current_hp <= 1 {
                self.bus.game_over.push(GameOverEvent);
                self.player_info = PlayerInfo { current_hp: 0, ..self.player_info };
            } else {
                self.player_state = PlayerState::DAMAGED;
                self.player_info = PlayerInfo {
                    current_hp: self.player_info.current_hp - 1,
                    ..self.player_info
                };
            }
        }
    }

    /// While damaged, returns the player to the regular state once the
    /// invulnerability window has elapsed, rewinding the countdown.
    pub fn player_take_damage_invulnerability(&mut self)
        requires
            old(self).wf(),
        ensures
            final(self).wf(),
            ({
                let fires = old(self).player_state == PlayerState::DAMAGED && old(self).player
                    is Some && old(self).invulnerability_timer.timer.just_finished;
                if fires {
                    *final(self) == (World {
                        player_state: PlayerState::REGULAR,
                        invulnerability_timer: PlayerDamageInvulnerabilityTimer {
                            timer: Timer {
                                elapsed_ms: 0,
                                just_finished: false,
                                ..old(self).invulnerability_timer.timer
                            },
                        },
                        ..*old(self)
                    })
                } else {
                    *final(self) == *old(self)
                }
            }),
    {
        if !matches!(self.player_state, PlayerState::DAMAGED) {
            return;
        }
        if self.player.is_some() {
            if self.invulnerability_timer.timer.just_finished() {
                self.player_state = PlayerState::REGULAR;
                self.invulnerability_timer.timer.reset();
            }
        }
    }

    /// Consumes the game-over events: the player actor despawns and the
    /// run ends.
    pub fn handle_game_over_event(&mut self)
        requires
            old(self).wf(),
        ensures
            final(self).wf(),
            ({
                let fires = old(self).bus.game_over@.len() > 0 && old(self).player is Some;
                if fires {
                    *final(self) == (World {
                        player: None,
                        game_state: GameState::Gameover,
                        signals: final(self).signals,
                        ..*old(self)
                    }) && final(self).signals@ == old(self).signals@.push(Signal::GameOver)
                } else {
                    *final(self) == *old(self)
                }
            }),
    {
        if self.bus.game_over.len() > 0 && self.player.is_some() {
            self.player = None;
            self.game_state = GameState::Gameover;
            self.signals.push(Signal::GameOver);
        }
    }
}

/// Every live enemy of a well-formed world has `0 <= current_hp <= max_hp`
/// and a non-negative speed. `tick` and every phase function keep the
/// world well-formed, so this holds after every tick, whatever sequence of
/// damage and heal events was delivered.
pub proof fn lemma_enemy_bounds(w: World)
    requires
        w.wf(),
    ensures
        forall|i: int|
            0 <= i < w.enemies.slots@.len() && (#[trigger] w.enemies.slots@[i]).occupant
                is Some ==> {
                let e = w.enemies.slots@[i].occupant->Some_0;
                &&& 0 <= e.current_hp <= e.max_hp
                &&& 0 <= e.current_speed
            },
{
}

/// The player of a well-formed world has `0 <= current_fuel <= capacity`
/// and `current_hp <= max_health`. `tick` and every phase function keep
/// the world well-formed, so this holds after every tick.
pub proof fn lemma_player_bounds(w: World)
    requires
        w.wf(),
    ensures
        0 <= w.player_info.current_fuel <= w.config.player_fuel_capacity,
        w.player_info.current_hp <= w.config.player_max_health,
{
}

} // verus!
