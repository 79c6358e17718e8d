//! Gameplay rules for a small character-driven game, stated over integers.
//!
//! Every quantity is a fixed-point integer, so that the rules are exact and
//! the same on every machine:
//!
//! * time is counted in microseconds (`u64`);
//! * lengths and per-tick translations are counted in pico-units (`i64`,
//!   one world unit is 10^12);
//! * fractions and stick deflections are counted in parts per million.
//!
//! The host engine owns the world, the renderer and the physics solver. It
//! feeds these rules with plain values and carries out what they decide.

pub mod player;
pub mod scene_editor;
pub mod spawning;
pub mod timer;
