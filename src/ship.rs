//! Plain components of a ship.
use vstd::prelude::*;

use crate::units::{Fixed, FIXED_ONE};

verus! {

/// Marks the entity that the player steers.
#[derive(Clone, Copy, Debug, Default, PartialEq, Eq, Structural)]
pub struct Player {}

/// Cargo held by a ship.
#[derive(Clone, Copy, Debug, Default, PartialEq, Eq, Structural)]
pub struct Inventory {}

/// Propulsion of a ship, in fixed point.
#[derive(Clone, Copy, Debug, PartialEq, Eq, Structural)]
pub struct Engine {
    pub traction: Fixed,
    pub turn_speed: Fixed,
    pub speed_multiplier: Fixed,
}

impl Default for Engine {
    fn default() -> (r: Self)
        ensures
            r == (Engine { traction: 0, turn_speed: 0, speed_multiplier: 0 }),
    {
        Engine { traction: 0, turn_speed: 0, speed_multiplier: 0 }
    }
}

/// The body of a ship.
#[derive(Clone, Copy, Debug, PartialEq, Eq, Structural)]
pub struct Hull {
    pub weight: usize,
    /// Room for cargo.
    pub inventory_space: usize,
    /// Top speed, in fixed point.
    pub max_speed: Fixed,
}

impl Default for Hull {
    fn default() -> (r: Self)
        ensures
            r == (Hull { weight: 100, inventory_space: 100, max_speed: (6 * FIXED_ONE) as i64 }),
    {
        Hull { weight: 100, inventory_space: 100, max_speed: 6 * FIXED_ONE }
    }
}

} // verus!
