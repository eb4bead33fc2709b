//! Core engine for a simulated population of long-lived creatures.
//!
//! The world advances one year per tick: characters age through the ordered
//! life stages of their race, die once past the final stage's age limit, and
//! pair into symmetric mate relations once they reach a reproduction-capable
//! stage. Every data type carries a mathematical view and every public
//! function a contract; the per-tick algorithms are verified against those
//! contracts.

pub mod aging;
pub mod character;
pub mod decimal;
pub mod error;
pub mod gender;
pub mod generation;
pub mod mate;
pub mod name;
pub mod probability;
pub mod race;
pub mod relation;
pub mod reproduction;
pub mod simulation;
pub mod stage;
pub mod time;
pub mod world;
