//! The decoupled notification channel between combat phases: ordered,
//! per-kind queues that producers append to and consumers drain within the
//! same tick. Nothing is buffered across ticks; the world clears every
//! queue at the end of each tick.

use vstd::prelude::*;
use crate::arena::EnemyHandle;

verus! {

/// The player was hit this tick.
#[derive(Clone, Copy, PartialEq, Eq, Structural, Debug)]
pub struct PlayerTakeDamageEvent;

/// The player must leave chainsaw mode (fuel ran out or a counter-attack
/// failed).
#[derive(Clone, Copy, PartialEq, Eq, Structural, Debug)]
pub struct PlayerTransitionToRegularFormEvent;

/// The player ran out of health.
#[derive(Clone, Copy, PartialEq, Eq, Structural, Debug)]
pub struct GameOverEvent;

/// A particular enemy was hit this tick.
#[derive(Clone, Copy, PartialEq, Eq, Structural, Debug)]
pub struct EnemyTakeDamageEvent {
    pub enemy_entity: EnemyHandle,
}

/// The chainsaw overheated: every engaging enemy is to be ignited.
#[derive(Clone, Copy, PartialEq, Eq, Structural, Debug)]
pub struct ChainsawFireWave;

/// Per-kind, publish-ordered queues, drained to empty every tick.
pub struct EventBus {
    pub player_take_damage: Vec<PlayerTakeDamageEvent>,
    pub transition_to_regular: Vec<PlayerTransitionToRegularFormEvent>,
    pub game_over: Vec<GameOverEvent>,
    pub enemy_take_damage: Vec<EnemyTakeDamageEvent>,
    pub fire_wave: Vec<ChainsawFireWave>,
}

impl EventBus {
    pub open spec fn is_empty(self) -> bool {
        &&& self.player_take_damage@.len() == 0
        &&& self.transition_to_regular@.len() == 0
        &&& self.game_over@.len() == 0
        &&& self.enemy_take_damage@.len() == 0
        &&& self.fire_wave@.len() == 0
    }

    pub fn new() -> (r: EventBus)
        ensures
            r.is_empty(),
    {
        EventBus {
            player_take_damage: Vec::new(),
            transition_to_regular: Vec::new(),
            game_over: Vec::new(),
            enemy_take_damage: Vec::new(),
            fire_wave: Vec::new(),
        }
    }

    /// Discards whatever was not consumed this tick.
    pub fn clear(&mut self)
        ensures
            final(self).is_empty(),
    {
        self.player_take_damage = Vec::new();
        self.transition_to_regular = Vec::new();
        self.game_over = Vec::new();
        self.enemy_take_damage = Vec::new();
        self.fire_wave = Vec::new();
    }
}

/// Externally observable signals, for presentation only: no core behavior
/// depends on the response to any of them.
#[derive(Clone, Copy, PartialEq, Eq, Structural, Debug)]
pub enum Signal {
    ActorSpawned(EnemyHandle),
    ActorDespawned(EnemyHandle),
    Ignited(EnemyHandle),
    GameOver,
    WorldCleared,
    ChallengeStarted(EnemyHandle),
    ChallengeResolved(bool),
}

} // verus!
