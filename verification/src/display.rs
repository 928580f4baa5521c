//! When the shown field follows the solver's readbacks.

use crate::scalar::Scalar;
use vstd::prelude::*;

verus! {

/// What a readback of the solver and the shown field say of themselves.
#[derive(Clone, Copy, Debug, PartialEq, Eq, Structural)]
pub struct DisplayFacts {
    /// Whether a topology is committed.
    pub active: bool,
    pub solver_generation: u64,
    pub requested_generation: u64,
    pub degrees_of_freedom: usize,
    pub primary_flux: usize,
    pub previous_primary_flux: usize,
    pub constitutive_force: usize,
    pub readbacks: u64,
    pub full_readback_at: u64,
    pub shown_generation: u64,
    pub shown_readbacks: u64,
}

/// How the shown field is brought up to date.
#[derive(Clone, Copy, Debug, PartialEq, Eq, Structural)]
pub struct DisplayUpdate {
    /// Everything shown of the generation before is dropped.
    pub reset: bool,
    /// The readback is a full one: the snapshot that estimates are taken from is
    /// replaced as well.
    pub full: bool,
    pub generation: u64,
    pub readbacks: u64,
}

impl DisplayFacts {
    /// Whether the readback is of the requested generation and of the committed
    /// operator.
    pub open spec fn whole(self) -> bool {
        &&& self.active
        &&& self.solver_generation == self.requested_generation
        &&& self.primary_flux == self.degrees_of_freedom
        &&& self.previous_primary_flux == self.degrees_of_freedom
        &&& self.constitutive_force == self.degrees_of_freedom
    }

    pub open spec fn shown_already(self) -> bool {
        self.shown_generation == self.solver_generation && self.shown_readbacks == self.readbacks
    }

    pub open spec fn update(self) -> Option<DisplayUpdate> {
        if !self.whole() || self.shown_already() {
            None
        } else {
            Some(
                DisplayUpdate {
                    reset: self.shown_generation != self.solver_generation,
                    full: self.full_readback_at == self.readbacks,
                    generation: self.solver_generation,
                    readbacks: self.readbacks,
                },
            )
        }
    }
}

/// Whether the shown field is brought up to date, and how.
pub fn refresh_canonical_wave_display(facts: DisplayFacts) -> (result: Option<DisplayUpdate>)
    ensures
        result == facts.update(),
{
    if !facts.active || facts.solver_generation != facts.requested_generation
        || facts.primary_flux != facts.degrees_of_freedom || facts.previous_primary_flux
        != facts.degrees_of_freedom || facts.constitutive_force != facts.degrees_of_freedom {
        return None;
    }
    if facts.shown_generation == facts.solver_generation && facts.shown_readbacks
        == facts.readbacks {
        return None;
    }
    Some(
        DisplayUpdate {
            reset: facts.shown_generation != facts.solver_generation,
            full: facts.full_readback_at == facts.readbacks,
            generation: facts.solver_generation,
            readbacks: facts.readbacks,
        },
    )
}

/// A readback is shown once: after an update the same readback asks for none.
pub proof fn a_readback_is_shown_once(facts: DisplayFacts)
    requires
        facts.update() is Some,
    ensures
        (DisplayFacts {
            shown_generation: facts.update()->0.generation,
            shown_readbacks: facts.update()->0.readbacks,
            ..facts
        }).update() is None,
{
}

/// Whether the auxiliary value of a node is moved back by half a step, so that
/// it is aligned with the field.
pub open spec fn moved_back(active: bool, prescribed: bool, completed_steps: u64) -> bool {
    active && !prescribed && completed_steps != 0
}

/// Which auxiliary values are moved back; none where the readback is not aligned
/// with the operator. `active` are the nodes with an auxiliary value of their
/// own, `prescribed` those whose field is prescribed.
pub fn aligned_indicator_auxiliary(
    time_step: Scalar,
    snapshot: usize,
    auxiliary: usize,
    active: &Vec<bool>,
    prescribed: &Vec<bool>,
    completed_steps: u64,
) -> (result: Option<Vec<bool>>)
    requires
        active@.len() == prescribed@.len(),
    ensures
        result is Some <==> time_step.finite() && Scalar::zero_num().lt_num(time_step) && snapshot
            == active@.len() && auxiliary == active@.len(),
        result matches Some(moved) ==> moved@.len() == active@.len() && forall|node: int|
            0 <= node < moved@.len() ==> #[trigger] moved@[node] == moved_back(
                active@[node],
                prescribed@[node],
                completed_steps,
            ),
{
    let count: usize = active.len();
    if !time_step.is_finite() || !Scalar::zero().less(time_step) || snapshot != count || auxiliary
        != count {
        return None;
    }
    let mut moved: Vec<bool> = Vec::new();
    let mut node: usize = 0;
    while node < count
        invariant
            node <= count,
            count == active@.len(),
            active@.len() == prescribed@.len(),
            moved@.len() == node,
            forall|i: int|
                0 <= i < node ==> #[trigger] moved@[i] == moved_back(
                    active@[i],
                    prescribed@[i],
                    completed_steps,
                ),
        decreases count - node,
    {
        moved.push(active[node] && !prescribed[node] && completed_steps != 0);
        node = node + 1;
    }
    Some(moved)
}

} // verus!
