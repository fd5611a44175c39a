//! Core of a real-time combat simulation for a top-down action game.
//!
//! The world advances in discrete ticks. Each tick the timers advance, the
//! spawn scheduler may enqueue new enemies, the actor state machines update
//! movement and behavior, the collision resolver publishes events, and the
//! event queues are drained and applied. All quantities are fixed-point
//! integers: positions, speeds, fuel and health are measured in thousandths
//! of a world unit ("milli-units"), and time in milliseconds.

pub mod arena;
pub mod collision;
pub mod combat;
pub mod config;
pub mod counter;
pub mod enemy;
pub mod events;
pub mod phases;
pub mod player;
pub mod resolve;
mod rng;
pub mod scheduler;
pub mod session;
pub mod timer;
pub mod units;
pub mod vec2;
pub mod world;
