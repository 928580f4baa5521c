//! What a stored document says, part by part and by name: nothing of a document is
//! written in the place of anything else.

use crate::document_codec::{
    decodes_document, reads_scene, stores_document, stores_probe, stores_scene, DocumentReading,
};
use crate::law_codec::{
    plain_coefficient_law, plain_field_law, plain_loss_channel, plain_optional_field,
    plain_optional_loss, plain_rate_law, plain_restoring_law, plain_scalar_field,
    plain_time_drive, stored_coefficient_law, stored_field_law, stored_loss_channel,
    stored_optional_field, stored_optional_loss, stored_rate_law, stored_restoring_law,
    stored_scalar_field, stored_time_drive, LawReading,
};
use crate::model::{
    AuthoredFaceAssignment, CoefficientLaw, CurveSpan, CurveSpline, CurveTraceSide, DomainRect,
    ElectromagneticPolarization, FaceAnchor, FaceBoundaryCondition, FarFieldSettings, FieldLaw,
    InternalBoundaryCoupling, LossChannel, Material, MaterialFrame, MaterialFrameAttachment,
    MaterialParameter, MaterialProperty, OuterBoundaryCondition, OuterBoundaryConditions,
    OuterSide, PhysicsModel, PointSource, PresentationSettings, ProbeSamplingPreset, RateLaw,
    Region, RestoringLaw, ScalarField, SpanBehavior, TimeDrive, TimeSignal, TopologyCurve,
    TopologyDocument, TopologyProbeDefinition, TopologyProbeTarget, TopologyScene, TopologyVertex,
    TopologyVertexLocation, VectorOverlay, VolumeSource,
};
use crate::presentation_codec::{plain_presentation, stored_presentation};
use crate::scalar::Point2;
use crate::scene_codec::{
    nodes_of, plain_parameters, reads_curve, reads_material, reads_volume_source,
    stored_parameters, stores_curve, stores_material, stores_spline, stores_volume_source,
    CurveBuild,
};
use crate::stored::{
    FileV22, StoredCoefficientLaw, StoredCoupling, StoredCurve, StoredCurveSide, StoredDomain,
    StoredFaceAnchor, StoredFaceAssignment, StoredFaceCondition, StoredFarField, StoredFieldLaw,
    StoredFrame, StoredFrameAttachment, StoredLossChannel, StoredMaterial, StoredMaterialProperty,
    StoredOuterBoundaries, StoredOuterBoundaryCondition, StoredOuterSide, StoredParameter,
    StoredPhysicsModel, StoredPoint, StoredPointSource, StoredPolarization, StoredPresentation,
    StoredProbeSamplingPreset, StoredRateLaw, StoredRegion, StoredRestoringLaw, StoredScalarField,
    StoredSpan, StoredSpanBehavior, StoredSpline, StoredTimeDrive, StoredTimeSignal,
    StoredTopologyProbe, StoredTopologyProbeTarget, StoredTopologyScene, StoredVectorOverlay,
    StoredVertex, StoredVertexLocation, StoredVolumeSource,
};
use crate::validation::DocumentLimits;
use crate::value_codec::{
    plain_anchor, plain_assignment, plain_attachment, plain_behavior, plain_coupling,
    plain_curve_side, plain_domain, plain_face_condition, plain_far_field, plain_frame,
    plain_outer_condition, plain_outer_conditions, plain_outer_side, plain_physics, plain_point,
    plain_polarization, plain_probe_preset, plain_property, plain_region, plain_signal,
    plain_source, plain_span, plain_vector_overlay, plain_vertex, stored_anchor,
    stored_assignment, stored_attachment, stored_behavior, stored_coupling, stored_curve_side,
    stored_domain, stored_face_condition, stored_far_field, stored_frame, stored_outer_condition,
    stored_outer_conditions, stored_outer_side, stored_physics, stored_point, stored_polarization,
    stored_probe_preset, stored_property, stored_region, stored_signal, stored_source,
    stored_span, stored_vector_overlay, stored_vertex,
};
use vstd::prelude::*;

verus! {

pub open spec fn says_outer_side(stored: StoredOuterSide, value: OuterSide) -> bool {
    &&& stored is Bottom <==> value is Bottom
    &&& stored is Right <==> value is Right
    &&& stored is Top <==> value is Top
    &&& stored is Left <==> value is Left
}

pub open spec fn says_curve_side(stored: StoredCurveSide, value: CurveTraceSide) -> bool {
    &&& stored is Left <==> value is Left
    &&& stored is Right <==> value is Right
}

pub open spec fn says_attachment(stored: StoredFrameAttachment, value: MaterialFrameAttachment) -> bool {
    &&& stored is World <==> value is World
    &&& stored is FollowRegion <==> value is FollowRegion
}

pub open spec fn says_polarization(stored: StoredPolarization, value: ElectromagneticPolarization) -> bool {
    &&& stored is Tm <==> value is Tm
    &&& stored is Te <==> value is Te
}

pub open spec fn says_probe_preset(stored: StoredProbeSamplingPreset, value: ProbeSamplingPreset) -> bool {
    &&& stored is Low <==> value is Low
    &&& stored is Medium <==> value is Medium
    &&& stored is High <==> value is High
}

pub open spec fn says_vector_overlay(stored: StoredVectorOverlay, value: VectorOverlay) -> bool {
    &&& stored is Off <==> value is Off
    &&& stored is ComplementaryField <==> value is ComplementaryField
    &&& stored is RelativeEnergyFlow <==> value is RelativeEnergyFlow
}

pub open spec fn says_property(stored: StoredMaterialProperty, value: MaterialProperty) -> bool {
    &&& stored is Density <==> value is Density
    &&& stored is Stiffness <==> value is Stiffness
    &&& stored is Damping <==> value is Damping
    &&& stored is WaveSpeed <==> value is WaveSpeed
    &&& stored is Impedance <==> value is Impedance
    &&& stored is Anisotropy <==> value is Anisotropy
    &&& stored is VolumeSource <==> value is VolumeSource
}

pub open spec fn says_point(stored: StoredPoint, value: Point2) -> bool {
    &&& stored.x == value.x
    &&& stored.y == value.y
}

pub open spec fn says_physics(stored: StoredPhysicsModel, value: PhysicsModel) -> bool {
    &&& stored is Mechanical <==> value is Mechanical
    &&& stored is Electromagnetic ==> says_polarization(stored->polarization, value->polarization)
}

pub open spec fn says_frame(stored: StoredFrame, value: MaterialFrame) -> bool {
    &&& says_point(stored.origin, value.origin)
    &&& stored.angle_radians == value.angle_radians
    &&& says_attachment(stored.attachment, value.attachment)
}

pub open spec fn says_region(stored: StoredRegion, value: Region) -> bool {
    &&& stored.id == value.id
    &&& stored.material == value.material
    &&& says_frame(stored.frame, value.frame)
}

pub open spec fn says_anchor(stored: StoredFaceAnchor, value: FaceAnchor) -> bool {
    match (stored, value) {
        (StoredFaceAnchor::Outer { side: stored_side, fraction: stored_fraction }, FaceAnchor::Outer { side, fraction }) => {
            &&& says_outer_side(stored_side, side)
            &&& stored_fraction == fraction
        },
        (StoredFaceAnchor::Curve { curve: stored_curve, span: stored_span, side: stored_side, parameter: stored_parameter }, FaceAnchor::Curve { curve, span, side, parameter }) => {
            &&& stored_curve == curve
            &&& stored_span == span
            &&& says_curve_side(stored_side, side)
            &&& stored_parameter == parameter
        },
        _ => false,
    }
}

pub open spec fn says_assignment(stored: StoredFaceAssignment, value: AuthoredFaceAssignment) -> bool {
    &&& says_anchor(stored.anchor, value.anchor)
    &&& stored.region == value.region
}

pub open spec fn says_signal(stored: StoredTimeSignal, value: TimeSignal) -> bool {
    &&& stored->offset == value.offset
    &&& stored->amplitude == value.amplitude
    &&& stored->frequency_hz == value.frequency_hz
    &&& stored->phase_radians == value.phase_radians
}

pub open spec fn says_outer_condition(stored: StoredOuterBoundaryCondition, value: OuterBoundaryCondition) -> bool {
    match (stored, value) {
        (StoredOuterBoundaryCondition::Reflecting, OuterBoundaryCondition::Reflecting) => true,
        (StoredOuterBoundaryCondition::FirstOrderOutgoing, OuterBoundaryCondition::FirstOrderOutgoing) => true,
        (StoredOuterBoundaryCondition::SecondOrderOutgoing, OuterBoundaryCondition::SecondOrderOutgoing) => true,
        (StoredOuterBoundaryCondition::ElectricWall, OuterBoundaryCondition::ElectricWall) => true,
        (StoredOuterBoundaryCondition::MagneticWall, OuterBoundaryCondition::MagneticWall) => true,
        (StoredOuterBoundaryCondition::Neumann { signal: stored_signal }, OuterBoundaryCondition::Neumann { signal }) => {
            &&& says_signal(stored_signal, signal)
        },
        (StoredOuterBoundaryCondition::Dirichlet { signal: stored_signal }, OuterBoundaryCondition::Dirichlet { signal }) => {
            &&& says_signal(stored_signal, signal)
        },
        _ => false,
    }
}

pub open spec fn says_face_condition(stored: StoredFaceCondition, value: FaceBoundaryCondition) -> bool {
    match (stored, value) {
        (StoredFaceCondition::Reflecting, FaceBoundaryCondition::Reflecting) => true,
        (StoredFaceCondition::Impedance { ratio: stored_ratio }, FaceBoundaryCondition::Impedance { ratio }) => {
            &&& stored_ratio == ratio
        },
        (StoredFaceCondition::SecondOrderOutgoing, FaceBoundaryCondition::SecondOrderOutgoing) => true,
        (StoredFaceCondition::ElectricWall, FaceBoundaryCondition::ElectricWall) => true,
        (StoredFaceCondition::MagneticWall, FaceBoundaryCondition::MagneticWall) => true,
        (StoredFaceCondition::Neumann { signal: stored_signal }, FaceBoundaryCondition::Neumann { signal }) => {
            &&& says_signal(stored_signal, signal)
        },
        (StoredFaceCondition::Dirichlet { signal: stored_signal }, FaceBoundaryCondition::Dirichlet { signal }) => {
            &&& says_signal(stored_signal, signal)
        },
        _ => false,
    }
}

pub open spec fn says_walls(stored: StoredOuterBoundaries, value: OuterBoundaryConditions) -> bool {
    &&& says_outer_condition(stored.bottom, value.bottom)
    &&& says_outer_condition(stored.right, value.right)
    &&& says_outer_condition(stored.top, value.top)
    &&& says_outer_condition(stored.left, value.left)
}

pub open spec fn says_coupling(stored: StoredCoupling, value: InternalBoundaryCoupling) -> bool {
    match (stored, value) {
        (StoredCoupling::Independent, InternalBoundaryCoupling::Independent) => true,
        (StoredCoupling::ThinGap { stiffness_ratio: stored_stiffness_ratio }, InternalBoundaryCoupling::ThinGap { stiffness_ratio }) => {
            &&& stored_stiffness_ratio == stiffness_ratio
        },
        _ => false,
    }
}

pub open spec fn says_behavior(stored: StoredSpanBehavior, value: SpanBehavior) -> bool {
    match (stored, value) {
        (StoredSpanBehavior::Transmitting, SpanBehavior::Transmitting) => true,
        (StoredSpanBehavior::Boundary { left: stored_left, right: stored_right, coupling: stored_coupling }, SpanBehavior::Separated { left, right, coupling }) => {
            &&& says_face_condition(stored_left, left)
            &&& says_face_condition(stored_right, right)
            &&& says_coupling(stored_coupling, coupling)
        },
        _ => false,
    }
}

pub open spec fn says_span(stored: StoredSpan, value: CurveSpan) -> bool {
    &&& stored.id == value.id
    &&& says_behavior(stored.behavior, value.behavior)
}

pub open spec fn says_location(stored: StoredVertexLocation, value: TopologyVertexLocation) -> bool {
    match (stored, value) {
        (StoredVertexLocation::Free { point }, TopologyVertexLocation::Free(place)) => says_point(point, place),
        (StoredVertexLocation::Interior { point }, TopologyVertexLocation::Interior(place)) => says_point(point, place),
        (StoredVertexLocation::Outer { side: stored_side, fraction: stored_fraction }, TopologyVertexLocation::Outer { side, fraction }) => {
            &&& says_outer_side(stored_side, side)
            &&& stored_fraction == fraction
        },
        _ => false,
    }
}

pub open spec fn says_vertex(stored: StoredVertex, value: TopologyVertex) -> bool {
    &&& stored.id == value.id
    &&& says_location(stored.location, value.location)
}

pub open spec fn says_domain(stored: StoredDomain, value: DomainRect) -> bool {
    &&& stored.min_x == value.min_x
    &&& stored.max_x == value.max_x
    &&& stored.min_y == value.min_y
    &&& stored.max_y == value.max_y
}

pub open spec fn says_source(stored: StoredPointSource, value: PointSource) -> bool {
    &&& stored.enabled == value.enabled
    &&& says_point(stored.position, value.position)
    &&& stored.width == value.width
    &&& stored.region == value.region
    &&& says_signal(stored.signal, value.signal)
}

pub open spec fn says_far_field(stored: StoredFarField, value: FarFieldSettings) -> bool {
    &&& stored.enabled == value.enabled
    &&& stored.inset == value.inset
}

pub open spec fn says_coefficient(stored: StoredScalarField, value: ScalarField) -> bool {
    match (stored, value) {
        (StoredScalarField::Constant { value: stored_value }, ScalarField::Constant(value)) => stored_value == value,
        (StoredScalarField::Formula { source: stored_source }, ScalarField::Formula(source)) => stored_source == source,
        _ => false,
    }
}

pub open spec fn says_optional(stored: Option<StoredScalarField>, value: Option<ScalarField>) -> bool {
    match (stored, value) {
        (Some(stored), Some(value)) => says_coefficient(stored, value),
        (None, None) => true,
        _ => false,
    }
}

pub open spec fn says_field_law(stored: StoredFieldLaw, value: FieldLaw) -> bool {
    match (stored, value) {
        (StoredFieldLaw::Linear, FieldLaw::Linear) => true,
        (StoredFieldLaw::Polynomial { chi1: stored_chi1, chi2: stored_chi2, amplitude_bound: stored_amplitude_bound }, FieldLaw::Polynomial { chi1, chi2, amplitude_bound }) => {
            &&& says_coefficient(stored_chi1, chi1)
            &&& says_coefficient(stored_chi2, chi2)
            &&& says_optional(stored_amplitude_bound, amplitude_bound)
        },
        (StoredFieldLaw::Saturable { chi: stored_chi, saturation: stored_saturation }, FieldLaw::Saturable { chi, saturation }) => {
            &&& says_coefficient(stored_chi, chi)
            &&& says_coefficient(stored_saturation, saturation)
        },
        _ => false,
    }
}

pub open spec fn says_drive(stored: StoredTimeDrive, value: TimeDrive) -> bool {
    match (stored, value) {
        (StoredTimeDrive::Absent, TimeDrive::Absent) => true,
        (StoredTimeDrive::ParametricPump { depth: stored_depth, frequency_hz: stored_frequency_hz, phase_radians: stored_phase_radians }, TimeDrive::ParametricPump { depth, frequency_hz, phase_radians }) => {
            &&& says_coefficient(stored_depth, depth)
            &&& says_coefficient(stored_frequency_hz, frequency_hz)
            &&& says_coefficient(stored_phase_radians, phase_radians)
        },
        (StoredTimeDrive::TimeCrystal { depth: stored_depth, frequency_hz: stored_frequency_hz, phase_radians: stored_phase_radians, sharpness: stored_sharpness }, TimeDrive::TimeCrystal { depth, frequency_hz, phase_radians, sharpness }) => {
            &&& says_coefficient(stored_depth, depth)
            &&& says_coefficient(stored_frequency_hz, frequency_hz)
            &&& says_coefficient(stored_phase_radians, phase_radians)
            &&& says_coefficient(stored_sharpness, sharpness)
        },
        (StoredTimeDrive::TravellingModulation { depth: stored_depth, frequency_hz: stored_frequency_hz, phase_radians: stored_phase_radians, wavenumber: stored_wavenumber, angle_radians: stored_angle_radians }, TimeDrive::TravellingModulation { depth, frequency_hz, phase_radians, wavenumber, angle_radians }) => {
            &&& says_coefficient(stored_depth, depth)
            &&& says_coefficient(stored_frequency_hz, frequency_hz)
            &&& says_coefficient(stored_phase_radians, phase_radians)
            &&& says_coefficient(stored_wavenumber, wavenumber)
            &&& says_coefficient(stored_angle_radians, angle_radians)
        },
        _ => false,
    }
}

pub open spec fn says_coefficient_law(stored: StoredCoefficientLaw, value: CoefficientLaw) -> bool {
    &&& says_field_law(stored.field, value.field)
    &&& says_drive(stored.drive, value.drive)
    &&& says_optional(stored.alternate, value.alternate)
    &&& stored.inverted == value.inverted
}

pub open spec fn says_rate_law(stored: StoredRateLaw, value: RateLaw) -> bool {
    match (stored, value) {
        (StoredRateLaw::Constant, RateLaw::Constant) => true,
        (StoredRateLaw::SaturableAbsorption { saturation: stored_saturation }, RateLaw::SaturableAbsorption { saturation }) => {
            &&& says_coefficient(stored_saturation, saturation)
        },
        (StoredRateLaw::Polynomial { beta1: stored_beta1, beta2: stored_beta2, amplitude_bound: stored_amplitude_bound }, RateLaw::Polynomial { beta1, beta2, amplitude_bound }) => {
            &&& says_coefficient(stored_beta1, beta1)
            &&& says_coefficient(stored_beta2, beta2)
            &&& says_optional(stored_amplitude_bound, amplitude_bound)
        },
        (StoredRateLaw::VanDerPol { threshold: stored_threshold, amplitude_bound: stored_amplitude_bound }, RateLaw::VanDerPol { threshold, amplitude_bound }) => {
            &&& says_coefficient(stored_threshold, threshold)
            &&& says_coefficient(stored_amplitude_bound, amplitude_bound)
        },
        _ => false,
    }
}

pub open spec fn says_loss(stored: StoredLossChannel, value: LossChannel) -> bool {
    &&& says_coefficient(stored.base_rate, value.base_rate)
    &&& says_rate_law(stored.law.rate, value.law.rate)
    &&& says_drive(stored.law.drive, value.law.drive)
}

pub open spec fn says_optional_loss(stored: Option<StoredLossChannel>, value: Option<LossChannel>) -> bool {
    match (stored, value) {
        (Some(stored), Some(value)) => says_loss(stored, value),
        (None, None) => true,
        _ => false,
    }
}

pub open spec fn says_restoring(stored: StoredRestoringLaw, value: RestoringLaw) -> bool {
    match (stored, value) {
        (StoredRestoringLaw::Absent, RestoringLaw::Absent) => true,
        (StoredRestoringLaw::KleinGordon { omega0: stored_omega0 }, RestoringLaw::KleinGordon { omega0 }) => {
            &&& says_coefficient(stored_omega0, omega0)
        },
        (StoredRestoringLaw::SineGordon { omega0: stored_omega0 }, RestoringLaw::SineGordon { omega0 }) => {
            &&& says_coefficient(stored_omega0, omega0)
        },
        (StoredRestoringLaw::Phi4 { lambda: stored_lambda, amplitude_bound: stored_amplitude_bound }, RestoringLaw::Phi4 { lambda, amplitude_bound }) => {
            &&& says_coefficient(stored_lambda, lambda)
            &&& says_coefficient(stored_amplitude_bound, amplitude_bound)
        },
        _ => false,
    }
}

pub open spec fn says_parameters(
    stored: Seq<StoredParameter>,
    values: Seq<MaterialParameter>,
) -> bool {
    &&& stored.len() == values.len()
    &&& forall|i: int|
        0 <= i < values.len() ==> (#[trigger] stored[i]).name == values[i].name && stored[i].value
            == values[i].value
}

/// What a file says of a material, but for its two coefficient laws: they are put
/// into a normal form when they are read.
pub open spec fn says_material(stored: StoredMaterial, value: Material) -> bool {
    &&& stored.id == value.id
    &&& stored.name == value.name
    &&& says_coefficient(stored.mass_density, value.mass_density)
    &&& says_coefficient(stored.stiffness, value.stiffness)
    &&& says_coefficient(stored.damping, value.damping)
    &&& says_coefficient(stored.axis_ratio, value.axis_ratio)
    &&& says_parameters(stored.parameters@, value.parameters@)
    &&& stored.color == value.color
    &&& says_optional_loss(stored.electric_loss, value.electric_loss)
    &&& says_optional_loss(stored.magnetic_loss, value.magnetic_loss)
    &&& says_restoring(stored.restoring, value.restoring)
    &&& stored.switch_ramp == value.switch_ramp
}

pub open spec fn says_volume_source(stored: StoredVolumeSource, value: VolumeSource) -> bool {
    &&& stored.region == value.region
    &&& stored.enabled == value.enabled
    &&& says_coefficient(stored.profile, value.profile)
    &&& says_parameters(stored.parameters@, value.parameters@)
    &&& says_signal(stored.signal, value.signal)
}

/// What a file says of a curve, but for its spline, which the engine builds.
pub open spec fn says_curve(stored: StoredCurve, value: TopologyCurve) -> bool {
    &&& stored.id == value.id
    &&& stored.spline is Closed <==> value.spline is Closed
    &&& stored.nodes@.len() == value.nodes@.len()
    &&& forall|i: int|
        0 <= i < value.nodes@.len() ==> (#[trigger] stored.nodes@[i]) == value.nodes@[i].vertex
    &&& stored.spans@.len() == value.spans@.len()
    &&& forall|i: int|
        0 <= i < value.spans@.len() ==> says_span(#[trigger] stored.spans@[i], value.spans@[i])
}

pub open spec fn says_scene(stored: StoredTopologyScene, value: TopologyScene) -> bool {
    &&& says_domain(stored.domain, value.geometry.domain)
    &&& says_physics(stored.physics, value.physics)
    &&& stored.materials@.len() == value.materials@.len()
    &&& forall|i: int|
        0 <= i < value.materials@.len() ==> says_material(
            #[trigger] stored.materials@[i],
            value.materials@[i],
        )
    &&& stored.regions@.len() == value.regions@.len()
    &&& forall|i: int|
        0 <= i < value.regions@.len() ==> says_region(
            #[trigger] stored.regions@[i],
            value.regions@[i],
        )
    &&& stored.face_assignments@.len() == value.face_assignments@.len()
    &&& forall|i: int|
        0 <= i < value.face_assignments@.len() ==> says_assignment(
            #[trigger] stored.face_assignments@[i],
            value.face_assignments@[i],
        )
    &&& stored.volume_sources@.len() == value.volume_sources@.len()
    &&& forall|i: int|
        0 <= i < value.volume_sources@.len() ==> says_volume_source(
            #[trigger] stored.volume_sources@[i],
            value.volume_sources@[i],
        )
    &&& says_walls(stored.outer_boundaries, value.outer_boundaries)
    &&& stored.curves@.len() == value.geometry.curves@.len()
    &&& forall|i: int|
        0 <= i < value.geometry.curves@.len() ==> says_curve(
            #[trigger] stored.curves@[i],
            value.geometry.curves@[i],
        )
    &&& stored.vertices@.len() == value.geometry.vertices@.len()
    &&& forall|i: int|
        0 <= i < value.geometry.vertices@.len() ==> says_vertex(
            #[trigger] stored.vertices@[i],
            value.geometry.vertices@[i],
        )
}

pub open spec fn says_target(stored: StoredTopologyProbeTarget, value: TopologyProbeTarget) -> bool {
    match (stored, value) {
        (
            StoredTopologyProbeTarget::Point { position },
            TopologyProbeTarget::Point(point),
        ) => says_point(position, point),
        (
            StoredTopologyProbeTarget::Segment {
                start: stored_start,
                end: stored_end,
                preset: stored_preset,
            },
            TopologyProbeTarget::Segment { start, end, preset },
        ) => {
            &&& says_point(stored_start, start)
            &&& says_point(stored_end, end)
            &&& says_probe_preset(stored_preset, preset)
        },
        (
            StoredTopologyProbeTarget::Boundary { curve, spans, side, reversed, preset },
            TopologyProbeTarget::Boundary(target),
        ) => {
            &&& curve == target.curve
            &&& spans@ == target.spans@
            &&& says_curve_side(side, target.side)
            &&& reversed == target.reversed
            &&& says_probe_preset(preset, target.preset)
        },
        (
            StoredTopologyProbeTarget::AreaDisk { center: stored_center, radius: stored_radius },
            TopologyProbeTarget::AreaDisk { center, radius },
        ) => {
            &&& says_point(stored_center, center)
            &&& stored_radius == radius
        },
        (
            StoredTopologyProbeTarget::AreaRegion { region },
            TopologyProbeTarget::AreaRegion(value),
        ) => region == value,
        _ => false,
    }
}

pub open spec fn says_probe(stored: StoredTopologyProbe, value: TopologyProbeDefinition) -> bool {
    &&& stored.id == value.id
    &&& stored.name == value.name
    &&& stored.color == value.color
    &&& stored.enabled == value.enabled
    &&& says_target(stored.target, value.target)
}

/// What a file says of the settings. What older files say in other words is
/// understood: the adaptation flag asks for its overlay where none is shown, and
/// the smoothing flag for the coupling where the file names none.
pub open spec fn says_presentation(stored: StoredPresentation, value: PresentationSettings) -> bool {
    &&& stored.grid == value.grid
    &&& stored.control_polygons == value.control_polygons
    &&& stored.handles == value.handles
    &&& stored.accepted_reference == value.accepted_reference
    &&& stored.boundary_conditions == value.boundary_conditions
    &&& stored.mesh == value.mesh
    &&& stored.mesh_boundaries == value.mesh_boundaries
    &&& stored.point_probes == value.point_probes
    &&& stored.line_probes == value.line_probes
    &&& stored.boundary_probes == value.boundary_probes
    &&& stored.area_probes == value.area_probes
    &&& stored.far_field_contour == value.far_field_contour
    &&& stored.probe_labels == value.probe_labels
    &&& stored.field == value.field
    &&& stored.simulation_speed == value.simulation_speed
    &&& stored.field_gain == value.field_gain
    &&& stored.field_auto_exposure == value.field_auto_exposure
    &&& stored.vector_overlay_density == value.vector_overlay_density
    &&& stored.vector_overlay_gain == value.vector_overlay_gain
    &&& stored.material_overlay_opacity == value.material_overlay_opacity
    &&& stored.material_overlay_auto_range == value.material_overlay_auto_range
    &&& stored.material_overlay_logarithmic == value.material_overlay_logarithmic
    &&& stored.material_overlay_manual_min == value.material_overlay_manual_min
    &&& stored.material_overlay_manual_max == value.material_overlay_manual_max
    &&& stored.mesh_edge == value.mesh_edge
    &&& stored.grid_scale_filter == value.grid_scale_filter
    &&& stored.advanced_materials == value.advanced_materials
    &&& says_vector_overlay(stored.vector_overlay, value.vector_overlay)
    &&& stored.vector_overlay_ac_coupled == Some(value.vector_overlay_ac_coupled) || (
    stored.vector_overlay_ac_coupled is None && stored.vector_overlay_smoothed
        == value.vector_overlay_ac_coupled)
    &&& value.material_overlay is Off <==> stored.material_overlay is Off && !stored.adaptation_target
    &&& value.material_overlay is AdaptationTarget <==> stored.material_overlay is AdaptationTarget
        || (stored.material_overlay is Off && stored.adaptation_target)
    &&& value.material_overlay is Regions <==> stored.material_overlay is Regions
    &&& value.material_overlay is Subdomains <==> stored.material_overlay is Subdomains
    &&& value.material_overlay is Property ==> says_property(
        stored.material_overlay->Property_0,
        value.material_overlay->Property_0,
    )
    &&& stored.adaptation_enabled == value.adaptation.enabled
    &&& stored.adaptation_accuracy_percent == value.adaptation.accuracy_percent
    &&& stored.adaptation_elements_per_wavelength == value.adaptation.elements_per_wavelength
    &&& stored.adaptation_minimum_edge == value.adaptation.minimum_edge
    &&& stored.adaptation_maximum_edge == value.adaptation.maximum_edge
}

/// What a file says of a document: each part of the one is told by the part of the
/// other that has its name.
pub open spec fn says_document(file: FileV22, document: TopologyDocument) -> bool {
    &&& says_scene(file.model.draft, document.model.draft)
    &&& says_scene(file.model.accepted, document.model.accepted)
    &&& file.model.probes@.len() == document.model.probes@.len()
    &&& forall|i: int|
        0 <= i < document.model.probes@.len() ==> says_probe(
            #[trigger] file.model.probes@[i],
            document.model.probes@[i],
        )
    &&& says_source(file.model.source, document.model.source)
    &&& says_far_field(file.model.far_field, document.model.far_field)
    &&& says_presentation(file.presentation, document.presentation)
}

/// The condition that a file gives for a wall is that of the same wall in the
/// opened scene, and what is saved for a wall is the condition it has: of the
/// same kind, and driven by the same signal.
pub proof fn each_wall_keeps_its_own_condition(
    stored: StoredOuterBoundaries,
    value: OuterBoundaryConditions,
)
    requires
        stored == stored_outer_conditions(value) || value == plain_outer_conditions(stored),
    ensures
        stored.bottom is Reflecting <==> value.bottom is Reflecting,
        stored.bottom is FirstOrderOutgoing <==> value.bottom is FirstOrderOutgoing,
        stored.bottom is SecondOrderOutgoing <==> value.bottom is SecondOrderOutgoing,
        stored.bottom is ElectricWall <==> value.bottom is ElectricWall,
        stored.bottom is MagneticWall <==> value.bottom is MagneticWall,
        stored.bottom is Neumann <==> value.bottom is Neumann,
        stored.bottom is Dirichlet <==> value.bottom is Dirichlet,
        value.bottom matches OuterBoundaryCondition::Neumann { signal } ==> {
            let driven = stored.bottom->Neumann_signal;
            &&& driven->offset == signal.offset
            &&& driven->amplitude == signal.amplitude
            &&& driven->frequency_hz == signal.frequency_hz
            &&& driven->phase_radians == signal.phase_radians
        },
        value.bottom matches OuterBoundaryCondition::Dirichlet { signal } ==> {
            let driven = stored.bottom->Dirichlet_signal;
            &&& driven->offset == signal.offset
            &&& driven->amplitude == signal.amplitude
            &&& driven->frequency_hz == signal.frequency_hz
            &&& driven->phase_radians == signal.phase_radians
        },
        stored.right is Reflecting <==> value.right is Reflecting,
        stored.right is FirstOrderOutgoing <==> value.right is FirstOrderOutgoing,
        stored.right is SecondOrderOutgoing <==> value.right is SecondOrderOutgoing,
        stored.right is ElectricWall <==> value.right is ElectricWall,
        stored.right is MagneticWall <==> value.right is MagneticWall,
        stored.right is Neumann <==> value.right is Neumann,
        stored.right is Dirichlet <==> value.right is Dirichlet,
        value.right matches OuterBoundaryCondition::Neumann { signal } ==> {
            let driven = stored.right->Neumann_signal;
            &&& driven->offset == signal.offset
            &&& driven->amplitude == signal.amplitude
            &&& driven->frequency_hz == signal.frequency_hz
            &&& driven->phase_radians == signal.phase_radians
        },
        value.right matches OuterBoundaryCondition::Dirichlet { signal } ==> {
            let driven = stored.right->Dirichlet_signal;
            &&& driven->offset == signal.offset
            &&& driven->amplitude == signal.amplitude
            &&& driven->frequency_hz == signal.frequency_hz
            &&& driven->phase_radians == signal.phase_radians
        },
        stored.top is Reflecting <==> value.top is Reflecting,
        stored.top is FirstOrderOutgoing <==> value.top is FirstOrderOutgoing,
        stored.top is SecondOrderOutgoing <==> value.top is SecondOrderOutgoing,
        stored.top is ElectricWall <==> value.top is ElectricWall,
        stored.top is MagneticWall <==> value.top is MagneticWall,
        stored.top is Neumann <==> value.top is Neumann,
        stored.top is Dirichlet <==> value.top is Dirichlet,
        value.top matches OuterBoundaryCondition::Neumann { signal } ==> {
            let driven = stored.top->Neumann_signal;
            &&& driven->offset == signal.offset
            &&& driven->amplitude == signal.amplitude
            &&& driven->frequency_hz == signal.frequency_hz
            &&& driven->phase_radians == signal.phase_radians
        },
        value.top matches OuterBoundaryCondition::Dirichlet { signal } ==> {
            let driven = stored.top->Dirichlet_signal;
            &&& driven->offset == signal.offset
            &&& driven->amplitude == signal.amplitude
            &&& driven->frequency_hz == signal.frequency_hz
            &&& driven->phase_radians == signal.phase_radians
        },
        stored.left is Reflecting <==> value.left is Reflecting,
        stored.left is FirstOrderOutgoing <==> value.left is FirstOrderOutgoing,
        stored.left is SecondOrderOutgoing <==> value.left is SecondOrderOutgoing,
        stored.left is ElectricWall <==> value.left is ElectricWall,
        stored.left is MagneticWall <==> value.left is MagneticWall,
        stored.left is Neumann <==> value.left is Neumann,
        stored.left is Dirichlet <==> value.left is Dirichlet,
        value.left matches OuterBoundaryCondition::Neumann { signal } ==> {
            let driven = stored.left->Neumann_signal;
            &&& driven->offset == signal.offset
            &&& driven->amplitude == signal.amplitude
            &&& driven->frequency_hz == signal.frequency_hz
            &&& driven->phase_radians == signal.phase_radians
        },
        value.left matches OuterBoundaryCondition::Dirichlet { signal } ==> {
            let driven = stored.left->Dirichlet_signal;
            &&& driven->offset == signal.offset
            &&& driven->amplitude == signal.amplitude
            &&& driven->frequency_hz == signal.frequency_hz
            &&& driven->phase_radians == signal.phase_radians
        },
{
}

/// A saved document has on each wall what its file says there, and so has an
/// opened one, in the draft and in the accepted scene alike.
pub proof fn each_wall_of_a_document_keeps_its_own_condition(
    file: FileV22,
    reading: DocumentReading,
    laws: LawReading,
    limits: DocumentLimits,
    document: TopologyDocument,
)
    requires
        stores_document(file, document) || decodes_document(
            file,
            reading,
            laws,
            limits,
            Ok(document),
        ),
    ensures
        says_outer_condition(
            file.model.draft.outer_boundaries.bottom,
            document.model.draft.outer_boundaries.bottom,
        ),
        says_outer_condition(
            file.model.draft.outer_boundaries.right,
            document.model.draft.outer_boundaries.right,
        ),
        says_outer_condition(
            file.model.draft.outer_boundaries.top,
            document.model.draft.outer_boundaries.top,
        ),
        says_outer_condition(
            file.model.draft.outer_boundaries.left,
            document.model.draft.outer_boundaries.left,
        ),
        says_outer_condition(
            file.model.accepted.outer_boundaries.bottom,
            document.model.accepted.outer_boundaries.bottom,
        ),
        says_outer_condition(
            file.model.accepted.outer_boundaries.right,
            document.model.accepted.outer_boundaries.right,
        ),
        says_outer_condition(
            file.model.accepted.outer_boundaries.top,
            document.model.accepted.outer_boundaries.top,
        ),
        says_outer_condition(
            file.model.accepted.outer_boundaries.left,
            document.model.accepted.outer_boundaries.left,
        ),
{
}

/// What is written for a plain value says that value, and what is read is what
/// was said.
pub proof fn plain_values_are_said_by_name()
    ensures
        forall|value: OuterSide| says_outer_side(#[trigger] stored_outer_side(value), value),
        forall|stored: StoredOuterSide| says_outer_side(stored, #[trigger] plain_outer_side(stored)),
        forall|value: CurveTraceSide| says_curve_side(#[trigger] stored_curve_side(value), value),
        forall|stored: StoredCurveSide| says_curve_side(stored, #[trigger] plain_curve_side(stored)),
        forall|value: MaterialFrameAttachment| says_attachment(#[trigger] stored_attachment(value), value),
        forall|stored: StoredFrameAttachment| says_attachment(stored, #[trigger] plain_attachment(stored)),
        forall|value: ElectromagneticPolarization| says_polarization(#[trigger] stored_polarization(value), value),
        forall|stored: StoredPolarization| says_polarization(stored, #[trigger] plain_polarization(stored)),
        forall|value: ProbeSamplingPreset| says_probe_preset(#[trigger] stored_probe_preset(value), value),
        forall|stored: StoredProbeSamplingPreset| says_probe_preset(stored, #[trigger] plain_probe_preset(stored)),
        forall|value: VectorOverlay| says_vector_overlay(#[trigger] stored_vector_overlay(value), value),
        forall|stored: StoredVectorOverlay| says_vector_overlay(stored, #[trigger] plain_vector_overlay(stored)),
        forall|value: MaterialProperty| says_property(#[trigger] stored_property(value), value),
        forall|stored: StoredMaterialProperty| says_property(stored, #[trigger] plain_property(stored)),
        forall|value: Point2| says_point(#[trigger] stored_point(value), value),
        forall|stored: StoredPoint| says_point(stored, #[trigger] plain_point(stored)),
        forall|value: PhysicsModel| says_physics(#[trigger] stored_physics(value), value),
        forall|stored: StoredPhysicsModel| says_physics(stored, #[trigger] plain_physics(stored)),
        forall|value: MaterialFrame| says_frame(#[trigger] stored_frame(value), value),
        forall|stored: StoredFrame| says_frame(stored, #[trigger] plain_frame(stored)),
        forall|value: Region| says_region(#[trigger] stored_region(value), value),
        forall|stored: StoredRegion| says_region(stored, #[trigger] plain_region(stored)),
        forall|value: FaceAnchor| says_anchor(#[trigger] stored_anchor(value), value),
        forall|stored: StoredFaceAnchor| says_anchor(stored, #[trigger] plain_anchor(stored)),
        forall|value: AuthoredFaceAssignment| says_assignment(#[trigger] stored_assignment(value), value),
        forall|stored: StoredFaceAssignment| says_assignment(stored, #[trigger] plain_assignment(stored)),
        forall|value: TimeSignal| says_signal(#[trigger] stored_signal(value), value),
        forall|stored: StoredTimeSignal| says_signal(stored, #[trigger] plain_signal(stored)),
        forall|value: OuterBoundaryCondition| says_outer_condition(#[trigger] stored_outer_condition(value), value),
        forall|stored: StoredOuterBoundaryCondition| says_outer_condition(stored, #[trigger] plain_outer_condition(stored)),
        forall|value: FaceBoundaryCondition| says_face_condition(#[trigger] stored_face_condition(value), value),
        forall|stored: StoredFaceCondition| says_face_condition(stored, #[trigger] plain_face_condition(stored)),
        forall|value: OuterBoundaryConditions| says_walls(#[trigger] stored_outer_conditions(value), value),
        forall|stored: StoredOuterBoundaries| says_walls(stored, #[trigger] plain_outer_conditions(stored)),
        forall|value: InternalBoundaryCoupling| says_coupling(#[trigger] stored_coupling(value), value),
        forall|stored: StoredCoupling| says_coupling(stored, #[trigger] plain_coupling(stored)),
        forall|value: SpanBehavior| says_behavior(#[trigger] stored_behavior(value), value),
        forall|stored: StoredSpanBehavior| says_behavior(stored, #[trigger] plain_behavior(stored)),
        forall|value: CurveSpan| says_span(#[trigger] stored_span(value), value),
        forall|stored: StoredSpan| says_span(stored, #[trigger] plain_span(stored)),
        forall|value: TopologyVertex| says_vertex(#[trigger] stored_vertex(value), value),
        forall|stored: StoredVertex| says_vertex(stored, #[trigger] plain_vertex(stored)),
        forall|value: DomainRect| says_domain(#[trigger] stored_domain(value), value),
        forall|stored: StoredDomain| says_domain(stored, #[trigger] plain_domain(stored)),
        forall|value: PointSource| says_source(#[trigger] stored_source(value), value),
        forall|stored: StoredPointSource| says_source(stored, #[trigger] plain_source(stored)),
        forall|value: FarFieldSettings| says_far_field(#[trigger] stored_far_field(value), value),
        forall|stored: StoredFarField| says_far_field(stored, #[trigger] plain_far_field(stored)),
{
}

/// What is written for a coefficient or a law says it, and what is read is what
/// was said.
pub proof fn laws_are_said_by_name()
    ensures
        forall|value: ScalarField| says_coefficient(#[trigger] stored_scalar_field(value), value),
        forall|stored: StoredScalarField| says_coefficient(stored, #[trigger] plain_scalar_field(stored)),
        forall|value: Option<ScalarField>| says_optional(#[trigger] stored_optional_field(value), value),
        forall|stored: Option<StoredScalarField>| says_optional(stored, #[trigger] plain_optional_field(stored)),
        forall|value: FieldLaw| says_field_law(#[trigger] stored_field_law(value), value),
        forall|stored: StoredFieldLaw| says_field_law(stored, #[trigger] plain_field_law(stored)),
        forall|value: TimeDrive| says_drive(#[trigger] stored_time_drive(value), value),
        forall|stored: StoredTimeDrive| says_drive(stored, #[trigger] plain_time_drive(stored)),
        forall|value: CoefficientLaw| says_coefficient_law(#[trigger] stored_coefficient_law(value), value),
        forall|stored: StoredCoefficientLaw| says_coefficient_law(stored, #[trigger] plain_coefficient_law(stored)),
        forall|value: RateLaw| says_rate_law(#[trigger] stored_rate_law(value), value),
        forall|stored: StoredRateLaw| says_rate_law(stored, #[trigger] plain_rate_law(stored)),
        forall|value: LossChannel| says_loss(#[trigger] stored_loss_channel(value), value),
        forall|stored: StoredLossChannel| says_loss(stored, #[trigger] plain_loss_channel(stored)),
        forall|value: Option<LossChannel>| says_optional_loss(#[trigger] stored_optional_loss(value), value),
        forall|stored: Option<StoredLossChannel>| says_optional_loss(stored, #[trigger] plain_optional_loss(stored)),
        forall|value: RestoringLaw| says_restoring(#[trigger] stored_restoring_law(value), value),
        forall|stored: StoredRestoringLaw| says_restoring(stored, #[trigger] plain_restoring_law(stored)),
{
}

/// The two coefficient laws of a material are each said by their own entry. What
/// is read is the normal form of what the file says there.
pub proof fn coefficient_laws_are_not_mixed_up(
    stored: StoredMaterial,
    laws: LawReading,
    value: Material,
)
    ensures
        stores_material(stored, value) ==> {
            &&& says_coefficient_law(stored.mass_law, value.mass_law)
            &&& says_coefficient_law(stored.stiffness_law, value.stiffness_law)
        },
        reads_material(stored, laws, value) ==> exists|mass: CoefficientLaw, stiffness: CoefficientLaw|
            {
                &&& #[trigger] says_coefficient_law(stored.mass_law, mass)
                &&& #[trigger] says_coefficient_law(stored.stiffness_law, stiffness)
                &&& value.mass_law == (laws.normal)(mass)
                &&& value.stiffness_law == (laws.normal)(stiffness)
            },
{
    laws_are_said_by_name();
    let mass = plain_coefficient_law(stored.mass_law);
    let stiffness = plain_coefficient_law(stored.stiffness_law);
    assert(says_coefficient_law(stored.mass_law, mass));
    assert(says_coefficient_law(stored.stiffness_law, stiffness));
}

/// What is written for a material says it, and what is read is what was said.
pub proof fn materials_are_said_by_name(stored: StoredMaterial, laws: LawReading, value: Material)
    requires
        stores_material(stored, value) || reads_material(stored, laws, value),
    ensures
        says_material(stored, value),
{
    laws_are_said_by_name();
    parameters_are_said_by_name(stored.parameters@, value.parameters@);
}

proof fn parameters_are_said_by_name(
    stored: Seq<StoredParameter>,
    values: Seq<MaterialParameter>,
)
    requires
        stored == stored_parameters(values) || values == plain_parameters(stored),
    ensures
        says_parameters(stored, values),
{
}

/// What is written for a volume source says it, and what is read is what was
/// said.
pub proof fn volume_sources_are_said_by_name(stored: StoredVolumeSource, value: VolumeSource)
    requires
        stores_volume_source(stored, value) || reads_volume_source(stored, value),
    ensures
        says_volume_source(stored, value),
{
    laws_are_said_by_name();
    plain_values_are_said_by_name();
    parameters_are_said_by_name(stored.parameters@, value.parameters@);
}

/// What is written for a curve says it, and what is read is what was said.
pub proof fn curves_are_said_by_name(stored: StoredCurve, build: CurveBuild, value: TopologyCurve)
    requires
        stores_curve(stored, value) || reads_curve(stored, build, value),
    ensures
        says_curve(stored, value),
{
    plain_values_are_said_by_name();
    assert forall|i: int| 0 <= i < value.spans@.len() implies says_span(
        #[trigger] stored.spans@[i],
        value.spans@[i],
    ) by {
        if stores_curve(stored, value) {
            assert(stored.spans@[i] == stored_span(value.spans@[i]));
        } else {
            assert(value.spans@[i] == plain_span(stored.spans@[i]));
        }
    }
    assert forall|i: int| 0 <= i < value.nodes@.len() implies (#[trigger] stored.nodes@[i])
        == value.nodes@[i].vertex by {
        if !stores_curve(stored, value) {
            assert(value.nodes@[i] == nodes_of(stored.nodes@)[i]);
        }
    }
}

/// A stored spline holds the controls, intervals and multiplicities of the curve,
/// in their order.
pub proof fn splines_are_said_by_name(stored: StoredSpline, value: CurveSpline)
    requires
        stores_spline(stored, value),
    ensures
        match (stored, value) {
            (
                StoredSpline::Closed { controls, intervals, multiplicities },
                CurveSpline::Closed(data),
            ) => {
                &&& controls@.len() == data.controls@.len()
                &&& forall|i: int|
                    0 <= i < controls@.len() ==> says_point(
                        #[trigger] controls@[i],
                        data.controls@[i],
                    )
                &&& intervals@ == data.intervals@
                &&& multiplicities@ == data.multiplicities@
            },
            (
                StoredSpline::Open { controls, intervals, multiplicities },
                CurveSpline::Open(data),
            ) => {
                &&& controls@.len() == data.controls@.len()
                &&& forall|i: int|
                    0 <= i < controls@.len() ==> says_point(
                        #[trigger] controls@[i],
                        data.controls@[i],
                    )
                &&& intervals@ == data.intervals@
                &&& multiplicities@ == data.multiplicities@
            },
            _ => false,
        },
{
}

/// What is written for a scene says it, and what is read is what was said.
pub proof fn scenes_are_said_by_name(
    stored: StoredTopologyScene,
    builds: Seq<CurveBuild>,
    laws: LawReading,
    value: TopologyScene,
)
    requires
        stores_scene(stored, value) || reads_scene(stored, builds, laws, value),
    ensures
        says_scene(stored, value),
{
    plain_values_are_said_by_name();
    let written = stores_scene(stored, value);
    assert forall|i: int| 0 <= i < value.materials@.len() implies says_material(
        #[trigger] stored.materials@[i],
        value.materials@[i],
    ) by {
        materials_are_said_by_name(stored.materials@[i], laws, value.materials@[i]);
    }
    assert forall|i: int| 0 <= i < value.volume_sources@.len() implies says_volume_source(
        #[trigger] stored.volume_sources@[i],
        value.volume_sources@[i],
    ) by {
        volume_sources_are_said_by_name(stored.volume_sources@[i], value.volume_sources@[i]);
    }
    assert forall|i: int| 0 <= i < value.geometry.curves@.len() implies says_curve(
        #[trigger] stored.curves@[i],
        value.geometry.curves@[i],
    ) by {
        curves_are_said_by_name(stored.curves@[i], builds[i], value.geometry.curves@[i]);
    }
    assert forall|i: int| 0 <= i < value.regions@.len() implies says_region(
        #[trigger] stored.regions@[i],
        value.regions@[i],
    ) by {
        if written {
            assert(stored.regions@[i] == stored_region(value.regions@[i]));
        } else {
            assert(value.regions@[i] == plain_region(stored.regions@[i]));
        }
    }
    assert forall|i: int| 0 <= i < value.face_assignments@.len() implies says_assignment(
        #[trigger] stored.face_assignments@[i],
        value.face_assignments@[i],
    ) by {
        if written {
            assert(stored.face_assignments@[i] == stored_assignment(value.face_assignments@[i]));
        } else {
            assert(value.face_assignments@[i] == plain_assignment(stored.face_assignments@[i]));
        }
    }
    assert forall|i: int| 0 <= i < value.geometry.vertices@.len() implies says_vertex(
        #[trigger] stored.vertices@[i],
        value.geometry.vertices@[i],
    ) by {
        if written {
            assert(stored.vertices@[i] == stored_vertex(value.geometry.vertices@[i]));
        } else {
            assert(value.geometry.vertices@[i] == plain_vertex(stored.vertices@[i]));
        }
    }
}

/// What is written for a probe says it.
pub proof fn probes_are_said_by_name(stored: StoredTopologyProbe, value: TopologyProbeDefinition)
    requires
        stores_probe(stored, value),
    ensures
        says_probe(stored, value),
{
    plain_values_are_said_by_name();
}

/// What is written for the settings says them, and what is read is what was said.
pub proof fn settings_are_said_by_name(stored: StoredPresentation, value: PresentationSettings)
    requires
        stored == stored_presentation(value) || value == plain_presentation(stored),
    ensures
        says_presentation(stored, value),
{
    plain_values_are_said_by_name();
}

/// A saved file says the document it was saved from, and an opened document is
/// what its file says, each part by its own name.
pub proof fn a_file_says_its_document(
    file: FileV22,
    reading: DocumentReading,
    laws: LawReading,
    limits: DocumentLimits,
    document: TopologyDocument,
)
    requires
        stores_document(file, document) || decodes_document(
            file,
            reading,
            laws,
            limits,
            Ok(document),
        ),
    ensures
        says_document(file, document),
        stores_document(file, document) ==> file.version == 22,
{
    plain_values_are_said_by_name();
    scenes_are_said_by_name(
        file.model.draft,
        reading.draft.builds@,
        laws,
        document.model.draft,
    );
    scenes_are_said_by_name(
        file.model.accepted,
        reading.accepted.builds@,
        laws,
        document.model.accepted,
    );
    settings_are_said_by_name(file.presentation, document.presentation);
    assert forall|i: int| 0 <= i < document.model.probes@.len() implies says_probe(
        #[trigger] file.model.probes@[i],
        document.model.probes@[i],
    ) by {
        probes_are_said_by_name(file.model.probes@[i], document.model.probes@[i]);
    }
}

} // verus!
