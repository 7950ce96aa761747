//! The names under which input is bound.
use vstd::prelude::*;

verus! {

/// An input axis.
#[derive(Clone, Copy, Debug, Hash, PartialEq, Eq, Structural)]
pub enum Axis {
    Horizontal,
    Vertical,
}

/// An input action.
#[derive(Clone, Copy, Debug, Hash, PartialEq, Eq, Structural)]
pub enum Action {
    Fire,
}

/// The name of an axis, as the bindings file writes it.
pub open spec fn axis_name(a: Axis) -> Seq<char> {
    match a {
        Axis::Horizontal => "Horizontal"@,
        Axis::Vertical => "Vertical"@,
    }
}

/// The name of an action, as the bindings file writes it.
pub open spec fn action_name(a: Action) -> Seq<char> {
    match a {
        Action::Fire => "Fire"@,
    }
}

impl Axis {
    /// The axis's name.
    pub fn to_string(&self) -> (r: String)
        ensures
            r@ == axis_name(*self),
    {
        match self {
            Axis::Horizontal => String::from_str("Horizontal"),
            Axis::Vertical => String::from_str("Vertical"),
        }
    }
}

impl Action {
    /// The action's name.
    pub fn to_string(&self) -> (r: String)
        ensures
            r@ == action_name(*self),
    {
        match self {
            Action::Fire => String::from_str("Fire"),
        }
    }
}

/// The kinds of axis and action that the game binds input to: [`Axis`] and
/// [`Action`].
#[derive(Clone, Copy, Debug, Default, PartialEq, Eq, Structural)]
pub struct GameBindings {}

} // verus!
