//! Weapon inventory, recoil-gated firing and the plain component data of a
//! small space shooter.
//!
//! Quantities that the game engine keeps as floating point are held here in
//! fixed point (see [`units`]), and times are whole nanoseconds.

pub mod config;
pub mod controller;
pub mod cycling;
pub mod firing;
pub mod input;
pub mod ship;
pub mod units;
pub mod weapon;
