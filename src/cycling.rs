//! Moving a selection through the slots of an inventory, with wrap-around.
use vstd::prelude::*;

verus! {

/// Which way a selection moves through the slots of an inventory.
#[derive(Clone, Copy, Debug, PartialEq, Eq, Structural)]
pub enum Direction {
    Forward,
    Backward,
}

/// The slot after `i` among `n`: the next one, or the first after the last.
pub open spec fn next_index(i: int, n: int) -> int {
    if i + 1 < n {
        i + 1
    } else {
        0
    }
}

/// The slot before `i` among `n`: the previous one, or the last before the
/// first.
pub open spec fn prev_index(i: int, n: int) -> int {
    if i == 0 {
        n - 1
    } else {
        i - 1
    }
}

/// The slot that one step in direction `d` selects, from slot `i` among `n`.
pub open spec fn step_index(i: int, n: int, d: Direction) -> int {
    match d {
        Direction::Forward => next_index(i, n),
        Direction::Backward => prev_index(i, n),
    }
}

/// The slot selected after `k` steps in direction `d`, from slot `i` among `n`.
pub open spec fn steps_index(i: int, n: int, d: Direction, k: nat) -> int
    decreases k,
{
    if k == 0 {
        i
    } else {
        step_index(steps_index(i, n, d, (k - 1) as nat), n, d)
    }
}

/// Computes [`step_index`] on machine integers.
pub fn step(i: usize, n: usize, d: Direction) -> (r: usize)
    requires
        i < n,
    ensures
        r == step_index(i as int, n as int, d),
        r < n,
{
    match d {
        Direction::Forward => {
            if i + 1 < n {
                i + 1
            } else {
                0
            }
        },
        Direction::Backward => {
            if i == 0 {
                n - 1
            } else {
                i - 1
            }
        },
    }
}

/// Up to `n` forward steps from slot `i` among `n` land on `i + k`, taken
/// modulo `n`.
proof fn lemma_forward_steps(i: int, n: int, k: nat)
    requires
        0 <= i < n,
        k <= n,
    ensures
        steps_index(i, n, Direction::Forward, k) == if i + k < n {
            i + k
        } else {
            i + k - n
        },
    decreases k,
{
    if k > 0 {
        lemma_forward_steps(i, n, (k - 1) as nat);
    }
}

/// Whether slot `j` is selected within the first `n` forward steps from slot
/// `i` among `n`.
pub open spec fn reached_forward(i: int, n: int, j: int) -> bool {
    exists|k: nat| 1 <= k <= n && #[trigger] steps_index(i, n, Direction::Forward, k) == j
}

/// From any slot of an inventory of `n` weapons, `n` forward steps come back to
/// the starting slot, and the slots selected along the way are each slot
/// exactly once.
pub proof fn forward_cycle_visits_each_slot_once(i: int, n: int)
    requires
        0 <= i < n,
    ensures
        steps_index(i, n, Direction::Forward, n as nat) == i,
        forall|j: int| 0 <= j < n ==> #[trigger] reached_forward(i, n, j),
        forall|k1: nat, k2: nat|
            1 <= k1 <= n && 1 <= k2 <= n && #[trigger] steps_index(i, n, Direction::Forward, k1)
                == #[trigger] steps_index(i, n, Direction::Forward, k2) ==> k1 == k2,
{
    lemma_forward_steps(i, n, n as nat);
    assert forall|j: int| 0 <= j < n implies #[trigger] reached_forward(i, n, j) by {
        let k: nat = if j > i {
            (j - i) as nat
        } else {
            (j - i + n) as nat
        };
        lemma_forward_steps(i, n, k);
    }
    assert forall|k1: nat, k2: nat|
        1 <= k1 <= n && 1 <= k2 <= n && #[trigger] steps_index(i, n, Direction::Forward, k1)
            == #[trigger] steps_index(i, n, Direction::Forward, k2) implies k1 == k2 by {
        lemma_forward_steps(i, n, k1);
        lemma_forward_steps(i, n, k2);
    }
}

/// A backward step undoes a forward step, and a forward step undoes a
/// backward step, from every slot of a non-empty inventory.
pub proof fn backward_step_inverts_forward_step(i: int, n: int)
    requires
        0 <= i < n,
    ensures
        step_index(step_index(i, n, Direction::Forward), n, Direction::Backward) == i,
        step_index(step_index(i, n, Direction::Backward), n, Direction::Forward) == i,
{
}

/// In an inventory of a single weapon, a step either way selects that weapon
/// again.
pub proof fn single_slot_step_stays(d: Direction)
    ensures
        step_index(0, 1, d) == 0,
{
}

} // verus!
