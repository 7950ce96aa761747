//! The per-tick firing decision for the entities that carry weapons.
use vstd::prelude::*;

use crate::controller::{projectile_controller, Controller};
use crate::weapon::{fire_outcome, selection_valid, ManagerView, Projectile, WeaponManager};

verus! {

/// A projectile to create once the current pass over the entities is done:
/// what it carries and how it moves. It starts where its shooter stands.
#[derive(Clone, Copy, Debug, PartialEq, Eq, Structural)]
pub struct Launch {
    pub projectile: Projectile,
    pub controller: Controller,
}

/// The launch, if any, that a firing attempt at `now` by a manager in state
/// `m`, on an entity steered by `c`, queues.
pub open spec fn launch_of(m: ManagerView, c: Controller, now: u64) -> Option<Launch> {
    match fire_outcome(m, now).1 {
        Some(p) => Some(Launch { projectile: p, controller: projectile_controller(c, p) }),
        None => None,
    }
}

/// One tick of firing for one entity at time `now`: the manager attempts a
/// shot (see [`fire_outcome`]), and a shot appends its launch to `queue`, so
/// that no entity is created while the entities are being walked.
pub fn fire_tick(
    manager: &mut WeaponManager,
    controller: &Controller,
    now: u64,
    queue: &mut Vec<Launch>,
) -> (fired: bool)
    ensures
        final(manager)@ == fire_outcome(old(manager)@, now).0,
        fired == launch_of(old(manager)@, *controller, now) is Some,
        final(queue)@ == match launch_of(old(manager)@, *controller, now) {
            Some(l) => old(queue)@.push(l),
            None => old(queue)@,
        },
{
    match manager.fire(now) {
        Some(projectile) => {
            let launched = controller.set_from_projectile(&projectile);
            queue.push(Launch { projectile, controller: launched });
            true
        },
        None => false,
    }
}

/// A firing attempt never moves any weapon's time of latest shot back, and
/// moves that of at most the selected weapon, to exactly `now`.
pub proof fn firing_keeps_last_fired_monotonic(m: ManagerView, now: u64)
    requires
        selection_valid(m),
    ensures
        fire_outcome(m, now).0.weapons.len() == m.weapons.len(),
        forall|j: int|
            0 <= j < m.weapons.len() ==> m.weapons[j].last_fired
                <= #[trigger] fire_outcome(m, now).0.weapons[j].last_fired,
        forall|j: int|
            0 <= j < m.weapons.len() && j != m.active_index ==> #[trigger] fire_outcome(
                m,
                now,
            ).0.weapons[j] == m.weapons[j],
        fire_outcome(m, now).1 is Some ==> fire_outcome(m, now).0.weapons[m.active_index as int].last_fired
            == now,
{
}

} // verus!
