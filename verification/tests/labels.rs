use funfern::boundary_edit::{
    edit_face_condition, edit_outer_condition, face_kind, outer_kind, span_behavior_state,
    BoundaryKind, SpanBehaviorState,
};
use funfern::labels::{
    energy_flow_magnitude_label, law_preset_label, law_row_label, material_editor_labels,
    primary_field_label, primary_field_rate_label, total_energy_label,
    transverse_field_magnitude_label, AmrDecision, InspectorPanel, LawPresetRow,
    MarqueeContainment, MarqueeOperation,
};
use funfern::model::{
    CurveNode, CurveSpan, CurveSpline, ElectromagneticPolarization, FaceBoundaryCondition,
    InternalBoundaryCoupling, OuterBoundaryCondition, PhysicsModel, ProbeSamplingPreset,
    SpanBehavior, SplineData, TimeSignal, TopologyCurve,
};
use funfern::ordered_set::OrderedSet;
use funfern::scalar::{Point2, Scalar};

const MECHANICAL: PhysicsModel = PhysicsModel::Mechanical;
const TM: PhysicsModel =
    PhysicsModel::Electromagnetic { polarization: ElectromagneticPolarization::Tm };
const TE: PhysicsModel =
    PhysicsModel::Electromagnetic { polarization: ElectromagneticPolarization::Te };

fn n(value: f64) -> Scalar {
    Scalar { bits: value.to_bits() }
}

#[test]
fn the_fields_are_named_after_the_physics() {
    assert_eq!(primary_field_label(MECHANICAL), "Displacement u");
    assert_eq!(primary_field_label(TM), "Electric field E_z");
    assert_eq!(primary_field_label(TE), "Magnetic field H_z");
    assert_eq!(primary_field_rate_label(TM), "Electric-field rate ∂E_z/∂t");
    assert_eq!(total_energy_label(MECHANICAL), "Mechanical energy");
    assert_eq!(transverse_field_magnitude_label(TE), "Electric magnitude |E|");
    assert_eq!(energy_flow_magnitude_label(TM), "Poynting magnitude |S|");
    assert_eq!(material_editor_labels(TM).damping, "Loss rate α");
    assert_eq!(material_editor_labels(MECHANICAL).mass, "Density ρ₀");
}

#[test]
fn a_law_is_named_with_the_row_it_acts_on() {
    assert_eq!(law_row_label(MECHANICAL, LawPresetRow::Stiffness), "Reciprocal stiffness s₀");
    assert_eq!(law_row_label(TM, LawPresetRow::Mass), "Permittivity ε");
    assert_eq!(
        law_preset_label("Kerr medium", LawPresetRow::Mass, false, TM),
        "Kerr medium — Permittivity ε"
    );
    assert_eq!(
        law_preset_label("Time interface", LawPresetRow::Both, false, TM),
        "Time interface (both rows)"
    );
    assert_eq!(law_preset_label("Linear", LawPresetRow::Both, true, TM), "Linear");
}

#[test]
fn short_labels_name_their_values() {
    assert_eq!(MarqueeOperation::Subtract.label(), "Subtract");
    assert_eq!(MarqueeContainment::from_drag(n(1.0), n(2.0)), MarqueeContainment::Enclosed);
    assert_eq!(MarqueeContainment::from_drag(n(2.0), n(1.0)), MarqueeContainment::Crossing);
    assert_eq!(InspectorPanel::Materials.title(), "Materials");
    assert!(!AmrDecision::Refine.label().is_empty());
    let presets =
        [ProbeSamplingPreset::Low, ProbeSamplingPreset::Medium, ProbeSamplingPreset::High];
    let mut seen: Vec<&str> = presets.iter().map(|preset| preset.picker_label()).collect();
    seen.dedup();
    assert_eq!(seen.len(), 3);
}

#[test]
fn the_picker_offers_what_the_physics_can_show() {
    assert!(!BoundaryKind::choices(MECHANICAL).contains(&BoundaryKind::ElectricWall));
    for physics in [MECHANICAL, TM, TE] {
        for kind in BoundaryKind::choices(physics) {
            assert_eq!(kind.presented(physics), kind);
        }
    }
    assert_eq!(BoundaryKind::SecondOrder.label(), "Second-order outgoing");
    assert_eq!(outer_kind(OuterBoundaryCondition::FirstOrderOutgoing), BoundaryKind::FirstOrder);
    assert_eq!(
        face_kind(FaceBoundaryCondition::Impedance { ratio: n(0.4) }),
        BoundaryKind::FirstOrder
    );
}

#[test]
fn another_kind_replaces_a_condition_and_the_same_one_keeps_it() {
    let matched = FaceBoundaryCondition::Impedance { ratio: n(0.4) };
    assert_eq!(edit_face_condition(MECHANICAL, matched, BoundaryKind::FirstOrder), matched);
    assert_eq!(
        edit_face_condition(MECHANICAL, FaceBoundaryCondition::Reflecting, BoundaryKind::FirstOrder),
        FaceBoundaryCondition::Impedance { ratio: n(1.0) }
    );
    let unit = TimeSignal {
        offset: n(0.0),
        amplitude: n(1.0),
        frequency_hz: n(1.0),
        phase_radians: n(0.0),
    };
    assert_eq!(
        edit_outer_condition(MECHANICAL, OuterBoundaryCondition::Reflecting, BoundaryKind::Neumann),
        OuterBoundaryCondition::Neumann { signal: unit }
    );
    let driven = OuterBoundaryCondition::Neumann {
        signal: TimeSignal { amplitude: n(3.0), ..unit },
    };
    assert_eq!(edit_outer_condition(MECHANICAL, driven, BoundaryKind::Neumann), driven);
}

fn curve(id: u64, behaviors: &[SpanBehavior]) -> TopologyCurve {
    TopologyCurve {
        id,
        spline: CurveSpline::Closed(SplineData {
            controls: vec![Point2 { x: n(0.0), y: n(0.0) }; 4],
            intervals: vec![n(1.0); behaviors.len()],
            multiplicities: vec![],
            span_bounds: vec![(n(0.0), n(1.0)); behaviors.len()],
        }),
        nodes: behaviors.iter().map(|_| CurveNode { vertex: None }).collect(),
        spans: behaviors
            .iter()
            .enumerate()
            .map(|(index, behavior)| CurveSpan { id: id * 10 + index as u64, behavior: *behavior })
            .collect(),
    }
}

#[test]
fn a_selection_has_a_state_where_its_spans_agree() {
    let wall = SpanBehavior::Separated {
        left: FaceBoundaryCondition::Reflecting,
        right: FaceBoundaryCondition::SecondOrderOutgoing,
        coupling: InternalBoundaryCoupling::Independent,
    };
    let curves = vec![curve(1, &[wall, wall]), curve(2, &[SpanBehavior::Transmitting])];
    let state = |values: &[u64]| {
        let mut spans = OrderedSet::new();
        for value in values {
            spans.insert(*value);
        }
        span_behavior_state(&curves, &spans)
    };
    assert_eq!(state(&[10, 11]), Some(SpanBehaviorState::Boundary));
    assert_eq!(state(&[20]), Some(SpanBehaviorState::Transmit));
    assert_eq!(state(&[10, 20]), None);
    assert_eq!(state(&[]), None);
    assert_eq!(state(&[99]), None);
}

#[test]
fn a_condition_is_named_in_the_terms_of_the_physics() {
    assert_eq!(BoundaryKind::Reflecting.label_for(MECHANICAL), "Free boundary");
    assert_eq!(BoundaryKind::Neumann.label_for(MECHANICAL), "Prescribed traction");
    assert_eq!(BoundaryKind::Dirichlet.label_for(TM), "Prescribed axial field");
    assert_eq!(BoundaryKind::Neumann.label_for(TM), "Prescribed normal flux");
    assert_eq!(BoundaryKind::SecondOrder.label_for(TM), BoundaryKind::SecondOrder.label());
}
