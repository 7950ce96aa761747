//! Weapons, their recoil, and the manager that selects and fires them.
use vstd::prelude::*;

pub use crate::cycling::Direction;
use crate::cycling::{step, step_index};
use crate::units::{Fixed, FIXED_ONE, NANOS_PER_MILLI};

verus! {

/// The parameters that a fired projectile carries with it.
#[derive(Clone, Copy, Debug, PartialEq, Eq, Structural)]
pub struct Projectile {
    /// Top speed, in fixed point.
    pub max_speed: Fixed,
    /// Acceleration, in fixed point.
    pub traction: Fixed,
}

impl Default for Projectile {
    fn default() -> (r: Self)
        ensures
            r.max_speed == 10 * FIXED_ONE,
            r.traction == 10 * FIXED_ONE,
    {
        Projectile { max_speed: 10 * FIXED_ONE, traction: 10 * FIXED_ONE }
    }
}

/// A named firing device: how often it may fire, when it last fired, and the
/// projectile that each shot launches.
#[derive(Debug, PartialEq, Eq)]
pub struct Weapon {
    name: String,
    /// Speed of the weapon itself, in fixed point; firing does not read it.
    speed: Fixed,
    /// Least time between two consecutive shots, in nanoseconds.
    pub recoil: u64,
    /// Absolute time of the latest shot, in nanoseconds.
    pub last_fired: u64,
    /// What each shot launches.
    pub projectile: Projectile,
}

/// What a [`Weapon`] holds, as contracts see it.
pub ghost struct WeaponView {
    pub name: Seq<char>,
    pub speed: Fixed,
    pub recoil: u64,
    pub last_fired: u64,
    pub projectile: Projectile,
}

impl View for Weapon {
    type V = WeaponView;

    closed spec fn view(&self) -> WeaponView {
        WeaponView {
            name: self.name@,
            speed: self.speed,
            recoil: self.recoil,
            last_fired: self.last_fired,
            projectile: self.projectile,
        }
    }
}

/// Whether a weapon that last fired at `last_fired` may fire at `now`: its
/// recoil has fully elapsed.
pub open spec fn may_fire(now: int, last_fired: int, recoil: int) -> bool {
    now - last_fired >= recoil
}

impl Weapon {
    /// A weapon with the given name, speed, recoil, time of latest shot and
    /// projectile.
    pub fn new(
        name: String,
        speed: Fixed,
        recoil: u64,
        last_fired: u64,
        projectile: Projectile,
    ) -> (r: Self)
        ensures
            r@ == (WeaponView { name: name@, speed, recoil, last_fired, projectile }),
    {
        Weapon { name, speed, recoil, last_fired, projectile }
    }

    /// The weapon's name.
    pub fn name(&self) -> (r: &String)
        ensures
            r@ == self@.name,
    {
        &self.name
    }

    /// The weapon's own speed, in fixed point.
    pub fn speed(&self) -> (r: Fixed)
        ensures
            r == self@.speed,
    {
        self.speed
    }

    /// The same weapon under another name.
    pub fn set_name(self, name: String) -> (r: Self)
        ensures
            r@ == (WeaponView { name: name@, ..self@ }),
    {
        Weapon { name, ..self }
    }

    /// Whether the weapon's recoil has elapsed at time `now`.
    pub fn ready(&self, now: u64) -> (r: bool)
        ensures
            r == may_fire(now as int, self@.last_fired as int, self@.recoil as int),
    {
        now >= self.last_fired && now - self.last_fired >= self.recoil
    }

    /// Fires at time `now` if the recoil has elapsed, and then records `now`
    /// as the time of the latest shot; otherwise leaves the weapon as it is.
    pub fn try_fire(&mut self, now: u64) -> (fired: bool)
        ensures
            fired == may_fire(now as int, old(self)@.last_fired as int, old(self)@.recoil as int),
            fired ==> final(self)@ == (WeaponView { last_fired: now, ..old(self)@ }),
            fired ==> old(self)@.last_fired <= now,
            !fired ==> final(self)@ == old(self)@,
    {
        if self.ready(now) {
            self.last_fired = now;
            true
        } else {
            false
        }
    }
}

impl Clone for Weapon {
    fn clone(&self) -> (r: Self)
        ensures
            r@ == self@,
    {
        Weapon {
            name: self.name.clone(),
            speed: self.speed,
            recoil: self.recoil,
            last_fired: self.last_fired,
            projectile: self.projectile,
        }
    }
}

impl Default for Weapon {
    fn default() -> (r: Self)
        ensures
            r@.name == "Weapon"@,
            r@.speed == 10 * FIXED_ONE,
            r@.recoil == 250 * NANOS_PER_MILLI,
            r@.last_fired == 0,
            r@.projectile.max_speed == 10 * FIXED_ONE,
            r@.projectile.traction == 10 * FIXED_ONE,
    {
        Weapon {
            name: String::from_str("Weapon"),
            speed: 10 * FIXED_ONE,
            recoil: 250 * NANOS_PER_MILLI,
            last_fired: 0,
            projectile: Projectile::default(),
        }
    }
}

/// A requested selection that is not a slot of the inventory.
#[derive(Clone, Copy, Debug, PartialEq, Eq, Structural)]
pub struct IndexOutOfRange {
    /// The slot that was asked for.
    pub index: usize,
    /// The number of weapons held.
    pub len: usize,
}

/// The weapons an entity holds, which one of them is selected, and whether
/// the entity means to fire this tick.
#[derive(Debug)]
pub struct WeaponManager {
    weapons: Vec<Weapon>,
    active_index: usize,
    /// Set from input on every tick; read by [`WeaponManager::fire`].
    pub wants_to_fire: bool,
}

/// What a [`WeaponManager`] holds, as contracts see it.
pub ghost struct ManagerView {
    pub weapons: Seq<WeaponView>,
    pub active_index: nat,
    pub wants_to_fire: bool,
}

/// The views of a sequence of weapons.
pub open spec fn weapon_views(ws: Seq<Weapon>) -> Seq<WeaponView> {
    ws.map_values(|w: Weapon| w@)
}

proof fn lemma_views_update(ws: Seq<Weapon>, i: int, w: Weapon)
    requires
        0 <= i < ws.len(),
    ensures
        weapon_views(ws.update(i, w)) == weapon_views(ws).update(i, w@),
{
    assert(weapon_views(ws.update(i, w)) =~= weapon_views(ws).update(i, w@));
}

impl View for WeaponManager {
    type V = ManagerView;

    closed spec fn view(&self) -> ManagerView {
        ManagerView {
            weapons: weapon_views(self.weapons@),
            active_index: self.active_index as nat,
            wants_to_fire: self.wants_to_fire,
        }
    }
}

/// Whether the selection of `m` is a slot of its inventory, as it is for every
/// manager that is not empty.
pub open spec fn selection_valid(m: ManagerView) -> bool {
    m.weapons.len() > 0 ==> m.active_index < m.weapons.len()
}

/// The outcome of a firing attempt at time `now` by a manager in state `m`:
/// the state after it, and the projectile launched, if any. A shot is fired
/// when the manager wants to fire, holds a weapon, and the selected weapon's
/// recoil has elapsed; the shot stamps that weapon with `now`.
pub open spec fn fire_outcome(m: ManagerView, now: u64) -> (ManagerView, Option<Projectile>) {
    let w = m.weapons[m.active_index as int];
    if m.wants_to_fire && m.weapons.len() > 0 && may_fire(
        now as int,
        w.last_fired as int,
        w.recoil as int,
    ) {
        (
            ManagerView {
                weapons: m.weapons.update(
                    m.active_index as int,
                    WeaponView { last_fired: now, ..w },
                ),
                ..m
            },
            Some(w.projectile),
        )
    } else {
        (m, None)
    }
}

impl WeaponManager {
    #[verifier::type_invariant]
    spec fn selection_in_range(&self) -> bool {
        self.weapons.len() > 0 ==> self.active_index < self.weapons.len()
    }

    /// A manager holding `weapons`, with the first one selected.
    pub fn new(weapons: Vec<Weapon>) -> (r: Self)
        ensures
            r@.weapons == weapon_views(weapons@),
            r@.active_index == 0,
            !r@.wants_to_fire,
    {
        WeaponManager { weapons, active_index: 0, wants_to_fire: false }
    }

    /// The weapons held, in order.
    pub fn weapons(&self) -> (r: &Vec<Weapon>)
        ensures
            weapon_views(r@) == self@.weapons,
    {
        &self.weapons
    }

    /// The selected slot.
    pub fn index(&self) -> (r: usize)
        ensures
            r == self@.active_index,
            selection_valid(self@),
    {
        proof { use_type_invariant(self); }
        self.active_index
    }

    /// The selected weapon, or `None` when no weapon is held.
    pub fn current_weapon(&self) -> (r: Option<&Weapon>)
        ensures
            self@.weapons.len() == 0 <==> r is None,
            r matches Some(w) ==> w@ == self@.weapons[self@.active_index as int],
            selection_valid(self@),
    {
        proof { use_type_invariant(self); }
        if self.weapons.len() != 0 {
            Some(&self.weapons[self.active_index])
        } else {
            None
        }
    }

    /// The selected weapon for changing, or `None` when no weapon is held.
    /// What the caller writes through it lands in the selected slot.
    pub fn current_weapon_mut(&mut self) -> (r: Option<&mut Weapon>)
        ensures
            old(self)@.weapons.len() == 0 <==> r is None,
            r is None ==> final(self)@ == old(self)@,
            r is Some ==> (*r.unwrap())@ == old(self)@.weapons[old(self)@.active_index as int]
                && final(self)@ == (ManagerView {
                weapons: old(self)@.weapons.update(
                    old(self)@.active_index as int,
                    (*final(r.unwrap()))@,
                ),
                ..old(self)@
            }),
            selection_valid(old(self)@),
    {
        proof { use_type_invariant(&*self); }
        if self.weapons.len() != 0 {
            let i = self.active_index;
            let w = &mut self.weapons[i];
            proof { lemma_views_update(old(self).weapons@, i as int, *final(w)); }
            Some(w)
        } else {
            None
        }
    }

    /// Moves the selection one slot in `direction`, wrapping at either end,
    /// and returns the newly selected weapon; with no weapon held, returns
    /// `None` and changes nothing.
    pub fn cycle(&mut self, direction: Direction) -> (r: Option<&Weapon>)
        ensures
            final(self)@.weapons == old(self)@.weapons,
            final(self)@.wants_to_fire == old(self)@.wants_to_fire,
            old(self)@.weapons.len() == 0 ==> r is None && final(self)@ == old(self)@,
            old(self)@.weapons.len() > 0 ==> final(self)@.active_index == step_index(
                old(self)@.active_index as int,
                old(self)@.weapons.len() as int,
                direction,
            ),
            old(self)@.weapons.len() > 0 ==> (r matches Some(w) && w@ == old(
                self,
            )@.weapons[final(self)@.active_index as int]),
            selection_valid(final(self)@),
    {
        proof { use_type_invariant(&*self); }
        if self.weapons.len() == 0 {
            return None;
        }
        let next = step(self.active_index, self.weapons.len(), direction);
        self.active_index = next;
        Some(&self.weapons[next])
    }

    /// Attempts a shot at time `now` with the selected weapon, if the manager
    /// wants to fire; see [`fire_outcome`]. Returns the projectile to launch.
    pub fn fire(&mut self, now: u64) -> (r: Option<Projectile>)
        ensures
            (final(self)@, r) == fire_outcome(old(self)@, now),
            selection_valid(final(self)@),
    {
        proof { use_type_invariant(&*self); }
        if !self.wants_to_fire {
            return None;
        }
        match self.current_weapon_mut() {
            Some(weapon) => {
                if weapon.try_fire(now) {
                    Some(weapon.projectile)
                } else {
                    proof {
                        let m = old(self)@;
                        assert(m.weapons.update(m.active_index as int, m.weapons[m.active_index as int])
                            =~= m.weapons);
                    }
                    None
                }
            },
            None => None,
        }
    }

    /// Selects slot `new_index`, which must be a slot of the inventory.
    pub fn set_index(&mut self, new_index: usize) -> (r: Result<(), IndexOutOfRange>)
        ensures
            r is Ok <==> new_index < old(self)@.weapons.len(),
            r is Ok ==> final(self)@ == (ManagerView { active_index: new_index as nat, ..old(self)@ }),
            r matches Err(e) ==> e == (IndexOutOfRange {
                index: new_index,
                len: old(self)@.weapons.len() as usize,
            }) && final(self)@ == old(self)@,
    {
        if new_index < self.weapons.len() {
            self.active_index = new_index;
            Ok(())
        } else {
            Err(IndexOutOfRange { index: new_index, len: self.weapons.len() })
        }
    }
}

impl Clone for WeaponManager {
    fn clone(&self) -> (r: Self)
        ensures
            r@ == self@,
    {
        proof { use_type_invariant(self); }
        let weapons = self.weapons.clone();
        proof {
            assert forall|i: int| 0 <= i < weapons@.len() implies #[trigger] weapons@[i]@
                == self.weapons@[i]@ by {
                assert(cloned(self.weapons[i], weapons[i]));
            }
            assert(weapon_views(weapons@) =~= weapon_views(self.weapons@));
        }
        WeaponManager { weapons, active_index: self.active_index, wants_to_fire: self.wants_to_fire }
    }
}

impl Default for WeaponManager {
    fn default() -> (r: Self)
        ensures
            r@.weapons.len() == 0,
            r@.active_index == 0,
            !r@.wants_to_fire,
    {
        WeaponManager { weapons: Vec::new(), active_index: 0, wants_to_fire: false }
    }
}

} // verus!
