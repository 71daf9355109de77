//! A minimal real-time simulation core: a player moves on a 2D plane, spends
//! currency to spawn timed "pig" entities, and each pig expires after a fixed
//! countdown, crediting the currency back with a margin.
//!
//! Units are exact integers throughout: currency in cents, time in
//! milliseconds, positions in milliunits (a speed of `s` units per second
//! moves the player `s` milliunits per millisecond).

pub mod frame;
pub mod input;
pub mod laws;
pub mod lifetime;
pub mod movement;
pub mod notice;
pub mod spawn;
pub mod world;
