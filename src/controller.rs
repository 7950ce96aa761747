//! Movement state of a ship or a projectile.
use vstd::prelude::*;

use crate::units::{Fixed, FIXED_ONE};
use crate::weapon::Projectile;

verus! {

/// A vector of three fixed-point components.
#[derive(Clone, Copy, Debug, PartialEq, Eq, Structural)]
pub struct Vec3 {
    pub x: Fixed,
    pub y: Fixed,
    pub z: Fixed,
}

impl Vec3 {
    /// The zero vector.
    pub fn zeros() -> (r: Self)
        ensures
            r == (Vec3 { x: 0, y: 0, z: 0 }),
    {
        Vec3 { x: 0, y: 0, z: 0 }
    }
}

/// How an entity steers and how fast it may go. All quantities are fixed
/// point.
#[derive(Clone, Copy, Debug, PartialEq, Eq, Structural)]
pub struct Controller {
    /// Current velocity, kept from tick to tick.
    pub velocity: Vec3,
    /// Turning input, from `-1` to `1`.
    pub rotation_control: Fixed,
    /// Thrust input, from `-1` to `1`.
    pub thrust_control: Fixed,
    pub turn_speed: Fixed,
    pub traction: Fixed,
    pub max_speed: Fixed,
}

impl Default for Controller {
    fn default() -> (r: Self)
        ensures
            r.velocity == (Vec3 { x: 0, y: 0, z: 0 }),
            r.rotation_control == 0,
            r.thrust_control == 0,
            r.turn_speed == FIXED_ONE,
            r.traction == FIXED_ONE / 20,
            r.max_speed == 10 * FIXED_ONE,
    {
        Controller {
            velocity: Vec3::zeros(),
            rotation_control: 0,
            thrust_control: 0,
            turn_speed: FIXED_ONE,
            traction: FIXED_ONE / 20,
            max_speed: 10 * FIXED_ONE,
        }
    }
}

/// The controller of a projectile launched by an entity whose controller is
/// `c`: it keeps the velocity and turn speed, takes its speed limit and
/// traction from `p`, and drives straight ahead without turning.
pub open spec fn projectile_controller(c: Controller, p: Projectile) -> Controller {
    Controller {
        max_speed: p.max_speed,
        traction: p.traction,
        thrust_control: -FIXED_ONE as i64,
        rotation_control: 0,
        ..c
    }
}

impl Controller {
    /// The controller of a projectile fired by an entity with this
    /// controller; see [`projectile_controller`].
    pub fn set_from_projectile(self, projectile: &Projectile) -> (r: Self)
        ensures
            r == projectile_controller(self, *projectile),
    {
        Controller {
            max_speed: projectile.max_speed,
            traction: projectile.traction,
            thrust_control: -FIXED_ONE,
            rotation_control: 0,
            ..self
        }
    }
}

} // verus!
