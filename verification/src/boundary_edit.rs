//! Editing boundary conditions: the kinds that a picker offers, what each is
//! called under the physics at hand, and what choosing one does.

use crate::model::{
    CurveSpan, ElectromagneticPolarization, FaceBoundaryCondition, OuterBoundaryCondition,
    PhysicsModel, SpanBehavior, TimeSignal, TopologyCurve,
};
use crate::ordered_set::OrderedSet;
use crate::scalar::Scalar;
use vstd::prelude::*;

verus! {

#[derive(Clone, Copy, Debug, PartialEq, Eq, Structural)]
pub enum BoundaryKind {
    Reflecting,
    FirstOrder,
    SecondOrder,
    ElectricWall,
    MagneticWall,
    Neumann,
    Dirichlet,
}

impl BoundaryKind {
    pub open spec fn label_text(self) -> Seq<char> {
        match self {
            BoundaryKind::Reflecting => "Reflecting"@,
            BoundaryKind::FirstOrder => "First-order outgoing"@,
            BoundaryKind::SecondOrder => "Second-order outgoing"@,
            BoundaryKind::ElectricWall => "Electric wall"@,
            BoundaryKind::MagneticWall => "Magnetic wall"@,
            BoundaryKind::Neumann => "Prescribed Neumann"@,
            BoundaryKind::Dirichlet => "Prescribed Dirichlet"@,
        }
    }

    /// What a condition of this kind is called, wherever it is named.
    pub fn label(self) -> (result: &'static str)
        ensures
            result@ == self.label_text(),
    {
        match self {
            BoundaryKind::Reflecting => "Reflecting",
            BoundaryKind::FirstOrder => "First-order outgoing",
            BoundaryKind::SecondOrder => "Second-order outgoing",
            BoundaryKind::ElectricWall => "Electric wall",
            BoundaryKind::MagneticWall => "Magnetic wall",
            BoundaryKind::Neumann => "Prescribed Neumann",
            BoundaryKind::Dirichlet => "Prescribed Dirichlet",
        }
    }

    pub open spec fn offered(physics: PhysicsModel) -> Seq<BoundaryKind> {
        match physics {
            PhysicsModel::Mechanical => seq![
                BoundaryKind::Reflecting,
                BoundaryKind::FirstOrder,
                BoundaryKind::SecondOrder,
                BoundaryKind::Neumann,
                BoundaryKind::Dirichlet,
            ],
            PhysicsModel::Electromagnetic { .. } => seq![
                BoundaryKind::ElectricWall,
                BoundaryKind::MagneticWall,
                BoundaryKind::FirstOrder,
                BoundaryKind::SecondOrder,
                BoundaryKind::Neumann,
                BoundaryKind::Dirichlet,
            ],
        }
    }

    /// The kinds that a picker offers, in its order.
    pub fn choices(physics: PhysicsModel) -> (result: Vec<BoundaryKind>)
        ensures
            result@ == Self::offered(physics),
    {
        match physics {
            PhysicsModel::Mechanical => vec![
                BoundaryKind::Reflecting,
                BoundaryKind::FirstOrder,
                BoundaryKind::SecondOrder,
                BoundaryKind::Neumann,
                BoundaryKind::Dirichlet,
            ],
            PhysicsModel::Electromagnetic { .. } => vec![
                BoundaryKind::ElectricWall,
                BoundaryKind::MagneticWall,
                BoundaryKind::FirstOrder,
                BoundaryKind::SecondOrder,
                BoundaryKind::Neumann,
                BoundaryKind::Dirichlet,
            ],
        }
    }

    pub open spec fn shown(self, physics: PhysicsModel) -> BoundaryKind {
        match physics {
            PhysicsModel::Mechanical => match self {
                BoundaryKind::ElectricWall => BoundaryKind::Dirichlet,
                BoundaryKind::MagneticWall => BoundaryKind::Reflecting,
                _ => self,
            },
            PhysicsModel::Electromagnetic { polarization } => if self is Reflecting {
                match polarization {
                    ElectromagneticPolarization::Tm => BoundaryKind::MagneticWall,
                    ElectromagneticPolarization::Te => BoundaryKind::ElectricWall,
                }
            } else {
                self
            },
        }
    }

    /// Gives a stored condition the physical name of the physics at hand. The
    /// value underneath stays as it is until it is edited.
    pub fn presented(self, physics: PhysicsModel) -> (result: BoundaryKind)
        ensures
            result == self.shown(physics),
    {
        match (self, physics) {
            (BoundaryKind::ElectricWall, PhysicsModel::Mechanical) => BoundaryKind::Dirichlet,
            (BoundaryKind::MagneticWall, PhysicsModel::Mechanical) => BoundaryKind::Reflecting,
            (
                BoundaryKind::Reflecting,
                PhysicsModel::Electromagnetic { polarization: ElectromagneticPolarization::Tm },
            ) => BoundaryKind::MagneticWall,
            (
                BoundaryKind::Reflecting,
                PhysicsModel::Electromagnetic { polarization: ElectromagneticPolarization::Te },
            ) => BoundaryKind::ElectricWall,
            _ => self,
        }
    }

    pub open spec fn label_for_text(self, physics: PhysicsModel) -> Seq<char> {
        match physics {
            PhysicsModel::Mechanical => match self {
                BoundaryKind::Reflecting => "Free boundary"@,
                BoundaryKind::Neumann => "Prescribed traction"@,
                BoundaryKind::Dirichlet => "Fixed / prescribed displacement"@,
                _ => self.label_text(),
            },
            PhysicsModel::Electromagnetic { .. } => match self {
                BoundaryKind::Neumann => "Prescribed normal flux"@,
                BoundaryKind::Dirichlet => "Prescribed axial field"@,
                _ => self.label_text(),
            },
        }
    }

    pub fn label_for(self, physics: PhysicsModel) -> (result: &'static str)
        ensures
            result@ == self.label_for_text(physics),
    {
        match (self, physics) {
            (BoundaryKind::Reflecting, PhysicsModel::Mechanical) => "Free boundary",
            (BoundaryKind::Neumann, PhysicsModel::Mechanical) => "Prescribed traction",
            (BoundaryKind::Dirichlet, PhysicsModel::Mechanical) =>
                "Fixed / prescribed displacement",
            (BoundaryKind::Neumann, PhysicsModel::Electromagnetic { .. }) =>
                "Prescribed normal flux",
            (BoundaryKind::Dirichlet, PhysicsModel::Electromagnetic { .. }) =>
                "Prescribed axial field",
            _ => self.label(),
        }
    }
}

/// Whatever is stored, what is presented of it is among the choices.
pub proof fn the_picker_offers_what_is_presented(kind: BoundaryKind, physics: PhysicsModel)
    ensures
        BoundaryKind::offered(physics).contains(kind.shown(physics)),
{
    let shown = kind.shown(physics);
    let offered = BoundaryKind::offered(physics);
    match physics {
        PhysicsModel::Mechanical => {
            assert(offered[0] is Reflecting && offered[1] is FirstOrder && offered[2] is SecondOrder
                && offered[3] is Neumann && offered[4] is Dirichlet);
            assert(shown == offered[0] || shown == offered[1] || shown == offered[2] || shown
                == offered[3] || shown == offered[4]);
        },
        PhysicsModel::Electromagnetic { .. } => {
            assert(offered[0] is ElectricWall && offered[1] is MagneticWall && offered[2]
                is FirstOrder && offered[3] is SecondOrder && offered[4] is Neumann && offered[5]
                is Dirichlet);
            assert(shown == offered[0] || shown == offered[1] || shown == offered[2] || shown
                == offered[3] || shown == offered[4] || shown == offered[5]);
        },
    }
}

/// Every kind that is offered is presented as itself.
pub proof fn offered_kinds_are_presented_as_themselves(physics: PhysicsModel, index: int)
    requires
        0 <= index < BoundaryKind::offered(physics).len(),
    ensures
        BoundaryKind::offered(physics)[index].shown(physics) == BoundaryKind::offered(
            physics,
        )[index],
{
}

pub open spec fn kind_of_outer(condition: OuterBoundaryCondition) -> BoundaryKind {
    match condition {
        OuterBoundaryCondition::Reflecting => BoundaryKind::Reflecting,
        OuterBoundaryCondition::FirstOrderOutgoing => BoundaryKind::FirstOrder,
        OuterBoundaryCondition::SecondOrderOutgoing => BoundaryKind::SecondOrder,
        OuterBoundaryCondition::ElectricWall => BoundaryKind::ElectricWall,
        OuterBoundaryCondition::MagneticWall => BoundaryKind::MagneticWall,
        OuterBoundaryCondition::Neumann { .. } => BoundaryKind::Neumann,
        OuterBoundaryCondition::Dirichlet { .. } => BoundaryKind::Dirichlet,
    }
}

pub fn outer_kind(condition: OuterBoundaryCondition) -> (result: BoundaryKind)
    ensures
        result == kind_of_outer(condition),
{
    match condition {
        OuterBoundaryCondition::Reflecting => BoundaryKind::Reflecting,
        OuterBoundaryCondition::FirstOrderOutgoing => BoundaryKind::FirstOrder,
        OuterBoundaryCondition::SecondOrderOutgoing => BoundaryKind::SecondOrder,
        OuterBoundaryCondition::ElectricWall => BoundaryKind::ElectricWall,
        OuterBoundaryCondition::MagneticWall => BoundaryKind::MagneticWall,
        OuterBoundaryCondition::Neumann { .. } => BoundaryKind::Neumann,
        OuterBoundaryCondition::Dirichlet { .. } => BoundaryKind::Dirichlet,
    }
}

pub open spec fn kind_of_face(condition: FaceBoundaryCondition) -> BoundaryKind {
    match condition {
        FaceBoundaryCondition::Reflecting => BoundaryKind::Reflecting,
        FaceBoundaryCondition::Impedance { .. } => BoundaryKind::FirstOrder,
        FaceBoundaryCondition::SecondOrderOutgoing => BoundaryKind::SecondOrder,
        FaceBoundaryCondition::ElectricWall => BoundaryKind::ElectricWall,
        FaceBoundaryCondition::MagneticWall => BoundaryKind::MagneticWall,
        FaceBoundaryCondition::Neumann { .. } => BoundaryKind::Neumann,
        FaceBoundaryCondition::Dirichlet { .. } => BoundaryKind::Dirichlet,
    }
}

pub fn face_kind(condition: FaceBoundaryCondition) -> (result: BoundaryKind)
    ensures
        result == kind_of_face(condition),
{
    match condition {
        FaceBoundaryCondition::Reflecting => BoundaryKind::Reflecting,
        FaceBoundaryCondition::Impedance { .. } => BoundaryKind::FirstOrder,
        FaceBoundaryCondition::SecondOrderOutgoing => BoundaryKind::SecondOrder,
        FaceBoundaryCondition::ElectricWall => BoundaryKind::ElectricWall,
        FaceBoundaryCondition::MagneticWall => BoundaryKind::MagneticWall,
        FaceBoundaryCondition::Neumann { .. } => BoundaryKind::Neumann,
        FaceBoundaryCondition::Dirichlet { .. } => BoundaryKind::Dirichlet,
    }
}

/// The signal that a prescribed condition starts from: unit amplitude at one
/// hertz, without offset or phase.
pub open spec fn first_signal() -> TimeSignal {
    TimeSignal {
        offset: Scalar::zero_num(),
        amplitude: Scalar::one_num(),
        frequency_hz: Scalar::one_num(),
        phase_radians: Scalar::zero_num(),
    }
}

fn starting_signal() -> (result: TimeSignal)
    ensures
        result == first_signal(),
{
    TimeSignal {
        offset: Scalar::zero(),
        amplitude: Scalar::one(),
        frequency_hz: Scalar::one(),
        phase_radians: Scalar::zero(),
    }
}

/// The condition that a kind starts from on a face.
pub open spec fn first_face(kind: BoundaryKind) -> FaceBoundaryCondition {
    match kind {
        BoundaryKind::Reflecting => FaceBoundaryCondition::Reflecting,
        BoundaryKind::FirstOrder => FaceBoundaryCondition::Impedance { ratio: Scalar::one_num() },
        BoundaryKind::SecondOrder => FaceBoundaryCondition::SecondOrderOutgoing,
        BoundaryKind::ElectricWall => FaceBoundaryCondition::ElectricWall,
        BoundaryKind::MagneticWall => FaceBoundaryCondition::MagneticWall,
        BoundaryKind::Neumann => FaceBoundaryCondition::Neumann { signal: first_signal() },
        BoundaryKind::Dirichlet => FaceBoundaryCondition::Dirichlet { signal: first_signal() },
    }
}

/// The condition that a kind starts from on a side of the domain.
pub open spec fn first_outer(kind: BoundaryKind) -> OuterBoundaryCondition {
    match kind {
        BoundaryKind::Reflecting => OuterBoundaryCondition::Reflecting,
        BoundaryKind::FirstOrder => OuterBoundaryCondition::FirstOrderOutgoing,
        BoundaryKind::SecondOrder => OuterBoundaryCondition::SecondOrderOutgoing,
        BoundaryKind::ElectricWall => OuterBoundaryCondition::ElectricWall,
        BoundaryKind::MagneticWall => OuterBoundaryCondition::MagneticWall,
        BoundaryKind::Neumann => OuterBoundaryCondition::Neumann { signal: first_signal() },
        BoundaryKind::Dirichlet => OuterBoundaryCondition::Dirichlet { signal: first_signal() },
    }
}

/// Edits a face's condition by the kind that the picker holds: another kind than
/// the one presented replaces the condition, the same one leaves it alone.
pub fn edit_face_condition(
    physics: PhysicsModel,
    condition: FaceBoundaryCondition,
    kind: BoundaryKind,
) -> (result: FaceBoundaryCondition)
    ensures
        result == if kind == kind_of_face(condition).shown(physics) {
            condition
        } else {
            first_face(kind)
        },
{
    if kind == face_kind(condition).presented(physics) {
        return condition;
    }
    match kind {
        BoundaryKind::Reflecting => FaceBoundaryCondition::Reflecting,
        BoundaryKind::FirstOrder => FaceBoundaryCondition::Impedance { ratio: Scalar::one() },
        BoundaryKind::SecondOrder => FaceBoundaryCondition::SecondOrderOutgoing,
        BoundaryKind::ElectricWall => FaceBoundaryCondition::ElectricWall,
        BoundaryKind::MagneticWall => FaceBoundaryCondition::MagneticWall,
        BoundaryKind::Neumann => FaceBoundaryCondition::Neumann { signal: starting_signal() },
        BoundaryKind::Dirichlet => FaceBoundaryCondition::Dirichlet { signal: starting_signal() },
    }
}

/// Edits the condition of a side of the domain in the same way.
pub fn edit_outer_condition(
    physics: PhysicsModel,
    condition: OuterBoundaryCondition,
    kind: BoundaryKind,
) -> (result: OuterBoundaryCondition)
    ensures
        result == if kind == kind_of_outer(condition).shown(physics) {
            condition
        } else {
            first_outer(kind)
        },
{
    if kind == outer_kind(condition).presented(physics) {
        return condition;
    }
    match kind {
        BoundaryKind::Reflecting => OuterBoundaryCondition::Reflecting,
        BoundaryKind::FirstOrder => OuterBoundaryCondition::FirstOrderOutgoing,
        BoundaryKind::SecondOrder => OuterBoundaryCondition::SecondOrderOutgoing,
        BoundaryKind::ElectricWall => OuterBoundaryCondition::ElectricWall,
        BoundaryKind::MagneticWall => OuterBoundaryCondition::MagneticWall,
        BoundaryKind::Neumann => OuterBoundaryCondition::Neumann { signal: starting_signal() },
        BoundaryKind::Dirichlet => OuterBoundaryCondition::Dirichlet { signal: starting_signal() },
    }
}

/// A chosen condition is of the kind that was chosen.
pub proof fn a_chosen_condition_has_the_chosen_kind(kind: BoundaryKind)
    ensures
        kind_of_face(first_face(kind)) == kind,
        kind_of_outer(first_outer(kind)) == kind,
{
}

/// Which of the two states a span selection is in.
#[derive(Clone, Copy, Debug, PartialEq, Eq, Structural)]
pub enum SpanBehaviorState {
    Transmit,
    Boundary,
}

/// A separated span counts as a boundary whatever its two faces carry.
pub open spec fn state_of(behavior: SpanBehavior) -> SpanBehaviorState {
    match behavior {
        SpanBehavior::Transmitting => SpanBehaviorState::Transmit,
        SpanBehavior::Separated { .. } => SpanBehaviorState::Boundary,
    }
}

/// Whether the span at a place is selected.
pub open spec fn chosen(curves: Seq<TopologyCurve>, spans: Set<u64>, i: int, j: int) -> bool {
    &&& 0 <= i < curves.len()
    &&& 0 <= j < curves[i].spans@.len()
    &&& spans.contains(curves[i].spans@[j].id)
}

pub open spec fn state_at(curves: Seq<TopologyCurve>, i: int, j: int) -> SpanBehaviorState {
    state_of(curves[i].spans@[j].behavior)
}

/// What the spans before a place agree on.
spec fn agreed(
    curves: Seq<TopologyCurve>,
    spans: Set<u64>,
    upto: int,
    within: int,
    state: Option<SpanBehaviorState>,
) -> bool {
    &&& forall|i: int, j: int|
        chosen(curves, spans, i, j) && (i < upto || (i == upto && j < within)) ==> Some(
            #[trigger] state_at(curves, i, j),
        ) == state
    &&& state matches Some(value) ==> exists|i: int, j: int|
        chosen(curves, spans, i, j) && #[trigger] state_at(curves, i, j) == value
}

/// The state that every selected span shares; none where they disagree, or
/// where none is selected.
pub fn span_behavior_state(curves: &Vec<TopologyCurve>, spans: &OrderedSet<u64>) -> (result: Option<
    SpanBehaviorState,
>)
    requires
        spans.wf(),
    ensures
        match result {
            Some(state) => {
                &&& exists|i: int, j: int|
                    chosen(curves@, spans@, i, j) && #[trigger] state_at(curves@, i, j) == state
                &&& forall|i: int, j: int|
                    chosen(curves@, spans@, i, j) ==> #[trigger] state_at(curves@, i, j) == state
            },
            None => {
                ||| forall|i: int, j: int| !#[trigger] chosen(curves@, spans@, i, j)
                ||| exists|i: int, j: int, k: int, l: int| #[trigger]
                    chosen(curves@, spans@, i, j) && #[trigger] chosen(curves@, spans@, k, l)
                        && state_at(curves@, i, j) != state_at(curves@, k, l)
            },
        },
{
    let mut state: Option<SpanBehaviorState> = None;
    let mut index: usize = 0;
    while index < curves.len()
        invariant
            index <= curves@.len(),
            spans.wf(),
            agreed(curves@, spans@, index as int, 0, state),
        decreases curves@.len() - index,
    {
        let curve: &TopologyCurve = &curves[index];
        let mut place: usize = 0;
        while place < curve.spans.len()
            invariant
                index < curves@.len(),
                *curve == curves@[index as int],
                place <= curve.spans@.len(),
                spans.wf(),
                agreed(curves@, spans@, index as int, place as int, state),
            decreases curve.spans@.len() - place,
        {
            let span: CurveSpan = curve.spans[place];
            if spans.contains(&span.id) {
                let current: SpanBehaviorState = match span.behavior {
                    SpanBehavior::Transmitting => SpanBehaviorState::Transmit,
                    SpanBehavior::Separated { .. } => SpanBehaviorState::Boundary,
                };
                assert(chosen(curves@, spans@, index as int, place as int));
                assert(state_at(curves@, index as int, place as int) == current);
                if let Some(previous) = state {
                    if previous != current {
                        proof {
                            let (i, j) = choose|i: int, j: int|
                                chosen(curves@, spans@, i, j) && #[trigger] state_at(curves@, i, j)
                                    == previous;
                            assert(chosen(curves@, spans@, i, j));
                        }
                        return None;
                    }
                }
                state = Some(current);
            }
            place = place + 1;
        }
        index = index + 1;
    }
    proof {
        assert forall|i: int, j: int| chosen(curves@, spans@, i, j) implies Some(
            #[trigger] state_at(curves@, i, j),
        ) == state by {}
        if state is None {
            assert forall|i: int, j: int| !#[trigger] chosen(curves@, spans@, i, j) by {
                if chosen(curves@, spans@, i, j) {
                    assert(Some(state_at(curves@, i, j)) == state);
                }
            }
        }
    }
    state
}

} // verus!
