//! The stored form of plain values. For every kind of value there are the two
//! functions `stored_..` and `plain_..` that say what is written for a value and
//! what is read from it, and the two that do it.

use crate::model::{
    AuthoredFaceAssignment, CurveSpan, CurveTraceSide, DomainRect, ElectromagneticPolarization,
    FaceAnchor, FaceBoundaryCondition, FarFieldSettings, InternalBoundaryCoupling, MaterialFrame,
    MaterialFrameAttachment, MaterialProperty, OuterBoundaryCondition, OuterBoundaryConditions,
    OuterSide, PhysicsModel, PointSource, ProbeSamplingPreset, Region, SpanBehavior, TimeSignal,
    TopologyVertex, TopologyVertexLocation, VectorOverlay,
};
use crate::stored::{
    StoredCoupling, StoredCurveSide, StoredDomain, StoredFaceAnchor, StoredFaceAssignment,
    StoredFaceCondition, StoredFarField, StoredFrame, StoredFrameAttachment, StoredMaterialProperty,
    StoredOuterBoundaries, StoredOuterBoundaryCondition, StoredOuterSide, StoredPhysicsModel,
    StoredPoint, StoredPointSource, StoredPolarization, StoredProbeSamplingPreset, StoredRegion,
    StoredSpan, StoredSpanBehavior, StoredTimeSignal, StoredVectorOverlay, StoredVertex,
    StoredVertexLocation,
};
use crate::scalar::Point2;
use vstd::prelude::*;

verus! {

pub open spec fn stored_outer_side(value: OuterSide) -> StoredOuterSide {
    match value {
        OuterSide::Bottom => StoredOuterSide::Bottom,
        OuterSide::Right => StoredOuterSide::Right,
        OuterSide::Top => StoredOuterSide::Top,
        OuterSide::Left => StoredOuterSide::Left,
    }
}

pub open spec fn plain_outer_side(stored: StoredOuterSide) -> OuterSide {
    match stored {
        StoredOuterSide::Bottom => OuterSide::Bottom,
        StoredOuterSide::Right => OuterSide::Right,
        StoredOuterSide::Top => OuterSide::Top,
        StoredOuterSide::Left => OuterSide::Left,
    }
}

pub fn encode_outer_side(value: OuterSide) -> (result: StoredOuterSide)
    ensures
        result == stored_outer_side(value),
{
    match value {
        OuterSide::Bottom => StoredOuterSide::Bottom,
        OuterSide::Right => StoredOuterSide::Right,
        OuterSide::Top => StoredOuterSide::Top,
        OuterSide::Left => StoredOuterSide::Left,
    }
}

pub fn decode_outer_side(stored: StoredOuterSide) -> (result: OuterSide)
    ensures
        result == plain_outer_side(stored),
{
    match stored {
        StoredOuterSide::Bottom => OuterSide::Bottom,
        StoredOuterSide::Right => OuterSide::Right,
        StoredOuterSide::Top => OuterSide::Top,
        StoredOuterSide::Left => OuterSide::Left,
    }
}

pub open spec fn stored_curve_side(value: CurveTraceSide) -> StoredCurveSide {
    match value {
        CurveTraceSide::Left => StoredCurveSide::Left,
        CurveTraceSide::Right => StoredCurveSide::Right,
    }
}

pub open spec fn plain_curve_side(stored: StoredCurveSide) -> CurveTraceSide {
    match stored {
        StoredCurveSide::Left => CurveTraceSide::Left,
        StoredCurveSide::Right => CurveTraceSide::Right,
    }
}

pub fn encode_curve_side(value: CurveTraceSide) -> (result: StoredCurveSide)
    ensures
        result == stored_curve_side(value),
{
    match value {
        CurveTraceSide::Left => StoredCurveSide::Left,
        CurveTraceSide::Right => StoredCurveSide::Right,
    }
}

pub fn decode_curve_side(stored: StoredCurveSide) -> (result: CurveTraceSide)
    ensures
        result == plain_curve_side(stored),
{
    match stored {
        StoredCurveSide::Left => CurveTraceSide::Left,
        StoredCurveSide::Right => CurveTraceSide::Right,
    }
}

pub open spec fn stored_attachment(value: MaterialFrameAttachment) -> StoredFrameAttachment {
    match value {
        MaterialFrameAttachment::World => StoredFrameAttachment::World,
        MaterialFrameAttachment::FollowRegion => StoredFrameAttachment::FollowRegion,
    }
}

pub open spec fn plain_attachment(stored: StoredFrameAttachment) -> MaterialFrameAttachment {
    match stored {
        StoredFrameAttachment::World => MaterialFrameAttachment::World,
        StoredFrameAttachment::FollowRegion => MaterialFrameAttachment::FollowRegion,
    }
}

pub fn encode_attachment(value: MaterialFrameAttachment) -> (result: StoredFrameAttachment)
    ensures
        result == stored_attachment(value),
{
    match value {
        MaterialFrameAttachment::World => StoredFrameAttachment::World,
        MaterialFrameAttachment::FollowRegion => StoredFrameAttachment::FollowRegion,
    }
}

pub fn decode_attachment(stored: StoredFrameAttachment) -> (result: MaterialFrameAttachment)
    ensures
        result == plain_attachment(stored),
{
    match stored {
        StoredFrameAttachment::World => MaterialFrameAttachment::World,
        StoredFrameAttachment::FollowRegion => MaterialFrameAttachment::FollowRegion,
    }
}

pub open spec fn stored_polarization(value: ElectromagneticPolarization) -> StoredPolarization {
    match value {
        ElectromagneticPolarization::Tm => StoredPolarization::Tm,
        ElectromagneticPolarization::Te => StoredPolarization::Te,
    }
}

pub open spec fn plain_polarization(stored: StoredPolarization) -> ElectromagneticPolarization {
    match stored {
        StoredPolarization::Tm => ElectromagneticPolarization::Tm,
        StoredPolarization::Te => ElectromagneticPolarization::Te,
    }
}

pub fn encode_polarization(value: ElectromagneticPolarization) -> (result: StoredPolarization)
    ensures
        result == stored_polarization(value),
{
    match value {
        ElectromagneticPolarization::Tm => StoredPolarization::Tm,
        ElectromagneticPolarization::Te => StoredPolarization::Te,
    }
}

pub fn decode_polarization(stored: StoredPolarization) -> (result: ElectromagneticPolarization)
    ensures
        result == plain_polarization(stored),
{
    match stored {
        StoredPolarization::Tm => ElectromagneticPolarization::Tm,
        StoredPolarization::Te => ElectromagneticPolarization::Te,
    }
}

pub open spec fn stored_probe_preset(value: ProbeSamplingPreset) -> StoredProbeSamplingPreset {
    match value {
        ProbeSamplingPreset::Low => StoredProbeSamplingPreset::Low,
        ProbeSamplingPreset::Medium => StoredProbeSamplingPreset::Medium,
        ProbeSamplingPreset::High => StoredProbeSamplingPreset::High,
    }
}

pub open spec fn plain_probe_preset(stored: StoredProbeSamplingPreset) -> ProbeSamplingPreset {
    match stored {
        StoredProbeSamplingPreset::Low => ProbeSamplingPreset::Low,
        StoredProbeSamplingPreset::Medium => ProbeSamplingPreset::Medium,
        StoredProbeSamplingPreset::High => ProbeSamplingPreset::High,
    }
}

pub fn encode_probe_preset(value: ProbeSamplingPreset) -> (result: StoredProbeSamplingPreset)
    ensures
        result == stored_probe_preset(value),
{
    match value {
        ProbeSamplingPreset::Low => StoredProbeSamplingPreset::Low,
        ProbeSamplingPreset::Medium => StoredProbeSamplingPreset::Medium,
        ProbeSamplingPreset::High => StoredProbeSamplingPreset::High,
    }
}

pub fn decode_probe_preset(stored: StoredProbeSamplingPreset) -> (result: ProbeSamplingPreset)
    ensures
        result == plain_probe_preset(stored),
{
    match stored {
        StoredProbeSamplingPreset::Low => ProbeSamplingPreset::Low,
        StoredProbeSamplingPreset::Medium => ProbeSamplingPreset::Medium,
        StoredProbeSamplingPreset::High => ProbeSamplingPreset::High,
    }
}

pub open spec fn stored_vector_overlay(value: VectorOverlay) -> StoredVectorOverlay {
    match value {
        VectorOverlay::Off => StoredVectorOverlay::Off,
        VectorOverlay::ComplementaryField => StoredVectorOverlay::ComplementaryField,
        VectorOverlay::RelativeEnergyFlow => StoredVectorOverlay::RelativeEnergyFlow,
    }
}

pub open spec fn plain_vector_overlay(stored: StoredVectorOverlay) -> VectorOverlay {
    match stored {
        StoredVectorOverlay::Off => VectorOverlay::Off,
        StoredVectorOverlay::ComplementaryField => VectorOverlay::ComplementaryField,
        StoredVectorOverlay::RelativeEnergyFlow => VectorOverlay::RelativeEnergyFlow,
    }
}

pub fn encode_vector_overlay(value: VectorOverlay) -> (result: StoredVectorOverlay)
    ensures
        result == stored_vector_overlay(value),
{
    match value {
        VectorOverlay::Off => StoredVectorOverlay::Off,
        VectorOverlay::ComplementaryField => StoredVectorOverlay::ComplementaryField,
        VectorOverlay::RelativeEnergyFlow => StoredVectorOverlay::RelativeEnergyFlow,
    }
}

pub fn decode_vector_overlay(stored: StoredVectorOverlay) -> (result: VectorOverlay)
    ensures
        result == plain_vector_overlay(stored),
{
    match stored {
        StoredVectorOverlay::Off => VectorOverlay::Off,
        StoredVectorOverlay::ComplementaryField => VectorOverlay::ComplementaryField,
        StoredVectorOverlay::RelativeEnergyFlow => VectorOverlay::RelativeEnergyFlow,
    }
}

pub open spec fn stored_property(value: MaterialProperty) -> StoredMaterialProperty {
    match value {
        MaterialProperty::Density => StoredMaterialProperty::Density,
        MaterialProperty::Stiffness => StoredMaterialProperty::Stiffness,
        MaterialProperty::Damping => StoredMaterialProperty::Damping,
        MaterialProperty::WaveSpeed => StoredMaterialProperty::WaveSpeed,
        MaterialProperty::Impedance => StoredMaterialProperty::Impedance,
        MaterialProperty::Anisotropy => StoredMaterialProperty::Anisotropy,
        MaterialProperty::VolumeSource => StoredMaterialProperty::VolumeSource,
    }
}

pub open spec fn plain_property(stored: StoredMaterialProperty) -> MaterialProperty {
    match stored {
        StoredMaterialProperty::Density => MaterialProperty::Density,
        StoredMaterialProperty::Stiffness => MaterialProperty::Stiffness,
        StoredMaterialProperty::Damping => MaterialProperty::Damping,
        StoredMaterialProperty::WaveSpeed => MaterialProperty::WaveSpeed,
        StoredMaterialProperty::Impedance => MaterialProperty::Impedance,
        StoredMaterialProperty::Anisotropy => MaterialProperty::Anisotropy,
        StoredMaterialProperty::VolumeSource => MaterialProperty::VolumeSource,
    }
}

pub fn encode_property(value: MaterialProperty) -> (result: StoredMaterialProperty)
    ensures
        result == stored_property(value),
{
    match value {
        MaterialProperty::Density => StoredMaterialProperty::Density,
        MaterialProperty::Stiffness => StoredMaterialProperty::Stiffness,
        MaterialProperty::Damping => StoredMaterialProperty::Damping,
        MaterialProperty::WaveSpeed => StoredMaterialProperty::WaveSpeed,
        MaterialProperty::Impedance => StoredMaterialProperty::Impedance,
        MaterialProperty::Anisotropy => StoredMaterialProperty::Anisotropy,
        MaterialProperty::VolumeSource => StoredMaterialProperty::VolumeSource,
    }
}

pub fn decode_property(stored: StoredMaterialProperty) -> (result: MaterialProperty)
    ensures
        result == plain_property(stored),
{
    match stored {
        StoredMaterialProperty::Density => MaterialProperty::Density,
        StoredMaterialProperty::Stiffness => MaterialProperty::Stiffness,
        StoredMaterialProperty::Damping => MaterialProperty::Damping,
        StoredMaterialProperty::WaveSpeed => MaterialProperty::WaveSpeed,
        StoredMaterialProperty::Impedance => MaterialProperty::Impedance,
        StoredMaterialProperty::Anisotropy => MaterialProperty::Anisotropy,
        StoredMaterialProperty::VolumeSource => MaterialProperty::VolumeSource,
    }
}

pub open spec fn stored_point(value: Point2) -> StoredPoint {
    StoredPoint { x: value.x, y: value.y }
}

pub open spec fn plain_point(stored: StoredPoint) -> Point2 {
    Point2 { x: stored.x, y: stored.y }
}

pub fn encode_point(value: Point2) -> (result: StoredPoint)
    ensures
        result == stored_point(value),
{
    StoredPoint { x: value.x, y: value.y }
}

pub fn decode_point(stored: StoredPoint) -> (result: Point2)
    ensures
        result == plain_point(stored),
{
    Point2 { x: stored.x, y: stored.y }
}

pub open spec fn stored_physics(value: PhysicsModel) -> StoredPhysicsModel {
    match value {
        PhysicsModel::Mechanical => StoredPhysicsModel::Mechanical,
        PhysicsModel::Electromagnetic { polarization } => StoredPhysicsModel::Electromagnetic {
            polarization: stored_polarization(polarization),
        },
    }
}

pub open spec fn plain_physics(stored: StoredPhysicsModel) -> PhysicsModel {
    match stored {
        StoredPhysicsModel::Mechanical => PhysicsModel::Mechanical,
        StoredPhysicsModel::Electromagnetic { polarization } => PhysicsModel::Electromagnetic {
            polarization: plain_polarization(polarization),
        },
    }
}

pub fn encode_physics(value: PhysicsModel) -> (result: StoredPhysicsModel)
    ensures
        result == stored_physics(value),
{
    match value {
        PhysicsModel::Mechanical => StoredPhysicsModel::Mechanical,
        PhysicsModel::Electromagnetic { polarization } => StoredPhysicsModel::Electromagnetic {
            polarization: encode_polarization(polarization),
        },
    }
}

pub fn decode_physics(stored: StoredPhysicsModel) -> (result: PhysicsModel)
    ensures
        result == plain_physics(stored),
{
    match stored {
        StoredPhysicsModel::Mechanical => PhysicsModel::Mechanical,
        StoredPhysicsModel::Electromagnetic { polarization } => PhysicsModel::Electromagnetic {
            polarization: decode_polarization(polarization),
        },
    }
}

pub open spec fn stored_frame(value: MaterialFrame) -> StoredFrame {
    StoredFrame {
        origin: stored_point(value.origin),
        angle_radians: value.angle_radians,
        attachment: stored_attachment(value.attachment),
    }
}

pub open spec fn plain_frame(stored: StoredFrame) -> MaterialFrame {
    MaterialFrame {
        origin: plain_point(stored.origin),
        angle_radians: stored.angle_radians,
        attachment: plain_attachment(stored.attachment),
    }
}

pub fn encode_frame(value: MaterialFrame) -> (result: StoredFrame)
    ensures
        result == stored_frame(value),
{
    StoredFrame {
        origin: encode_point(value.origin),
        angle_radians: value.angle_radians,
        attachment: encode_attachment(value.attachment),
    }
}

pub fn decode_frame(stored: StoredFrame) -> (result: MaterialFrame)
    ensures
        result == plain_frame(stored),
{
    MaterialFrame {
        origin: decode_point(stored.origin),
        angle_radians: stored.angle_radians,
        attachment: decode_attachment(stored.attachment),
    }
}

pub open spec fn stored_region(value: Region) -> StoredRegion {
    StoredRegion {
        id: value.id,
        material: value.material,
        frame: stored_frame(value.frame),
    }
}

pub open spec fn plain_region(stored: StoredRegion) -> Region {
    Region { id: stored.id, material: stored.material, frame: plain_frame(stored.frame) }
}

pub fn encode_region(value: Region) -> (result: StoredRegion)
    ensures
        result == stored_region(value),
{
    StoredRegion {
        id: value.id,
        material: value.material,
        frame: encode_frame(value.frame),
    }
}

pub fn decode_region(stored: StoredRegion) -> (result: Region)
    ensures
        result == plain_region(stored),
{
    Region { id: stored.id, material: stored.material, frame: decode_frame(stored.frame) }
}

pub open spec fn stored_anchor(value: FaceAnchor) -> StoredFaceAnchor {
    match value {
        FaceAnchor::Outer { side, fraction } => StoredFaceAnchor::Outer {
            side: stored_outer_side(side),
            fraction,
        },
        FaceAnchor::Curve { curve, span, side, parameter } => StoredFaceAnchor::Curve {
            curve,
            span,
            side: stored_curve_side(side),
            parameter,
        },
    }
}

pub open spec fn plain_anchor(stored: StoredFaceAnchor) -> FaceAnchor {
    match stored {
        StoredFaceAnchor::Outer { side, fraction } => FaceAnchor::Outer {
            side: plain_outer_side(side),
            fraction,
        },
        StoredFaceAnchor::Curve { curve, span, side, parameter } => FaceAnchor::Curve {
            curve,
            span,
            side: plain_curve_side(side),
            parameter,
        },
    }
}

pub fn encode_anchor(value: FaceAnchor) -> (result: StoredFaceAnchor)
    ensures
        result == stored_anchor(value),
{
    match value {
        FaceAnchor::Outer { side, fraction } => StoredFaceAnchor::Outer {
            side: encode_outer_side(side),
            fraction,
        },
        FaceAnchor::Curve { curve, span, side, parameter } => StoredFaceAnchor::Curve {
            curve,
            span,
            side: encode_curve_side(side),
            parameter,
        },
    }
}

pub fn decode_anchor(stored: StoredFaceAnchor) -> (result: FaceAnchor)
    ensures
        result == plain_anchor(stored),
{
    match stored {
        StoredFaceAnchor::Outer { side, fraction } => FaceAnchor::Outer {
            side: decode_outer_side(side),
            fraction,
        },
        StoredFaceAnchor::Curve { curve, span, side, parameter } => FaceAnchor::Curve {
            curve,
            span,
            side: decode_curve_side(side),
            parameter,
        },
    }
}

pub open spec fn stored_assignment(value: AuthoredFaceAssignment) -> StoredFaceAssignment {
    StoredFaceAssignment { anchor: stored_anchor(value.anchor), region: value.region }
}

pub open spec fn plain_assignment(stored: StoredFaceAssignment) -> AuthoredFaceAssignment {
    AuthoredFaceAssignment { anchor: plain_anchor(stored.anchor), region: stored.region }
}

pub fn encode_assignment(value: AuthoredFaceAssignment) -> (result: StoredFaceAssignment)
    ensures
        result == stored_assignment(value),
{
    StoredFaceAssignment { anchor: encode_anchor(value.anchor), region: value.region }
}

pub fn decode_assignment(stored: StoredFaceAssignment) -> (result: AuthoredFaceAssignment)
    ensures
        result == plain_assignment(stored),
{
    AuthoredFaceAssignment { anchor: decode_anchor(stored.anchor), region: stored.region }
}

pub open spec fn stored_signal(value: TimeSignal) -> StoredTimeSignal {
    StoredTimeSignal::Harmonic {
        offset: value.offset,
        amplitude: value.amplitude,
        frequency_hz: value.frequency_hz,
        phase_radians: value.phase_radians,
    }
}

pub open spec fn plain_signal(stored: StoredTimeSignal) -> TimeSignal {
    match stored {
        StoredTimeSignal::Harmonic { offset, amplitude, frequency_hz, phase_radians } => TimeSignal {
            offset,
            amplitude,
            frequency_hz,
            phase_radians,
        },
    }
}

pub fn encode_signal(value: TimeSignal) -> (result: StoredTimeSignal)
    ensures
        result == stored_signal(value),
{
    StoredTimeSignal::Harmonic {
        offset: value.offset,
        amplitude: value.amplitude,
        frequency_hz: value.frequency_hz,
        phase_radians: value.phase_radians,
    }
}

pub fn decode_signal(stored: StoredTimeSignal) -> (result: TimeSignal)
    ensures
        result == plain_signal(stored),
{
    match stored {
        StoredTimeSignal::Harmonic { offset, amplitude, frequency_hz, phase_radians } => TimeSignal {
            offset,
            amplitude,
            frequency_hz,
            phase_radians,
        },
    }
}

pub open spec fn stored_outer_condition(value: OuterBoundaryCondition) -> StoredOuterBoundaryCondition {
    match value {
        OuterBoundaryCondition::Reflecting => StoredOuterBoundaryCondition::Reflecting,
        OuterBoundaryCondition::FirstOrderOutgoing => StoredOuterBoundaryCondition::FirstOrderOutgoing,
        OuterBoundaryCondition::SecondOrderOutgoing => StoredOuterBoundaryCondition::SecondOrderOutgoing,
        OuterBoundaryCondition::ElectricWall => StoredOuterBoundaryCondition::ElectricWall,
        OuterBoundaryCondition::MagneticWall => StoredOuterBoundaryCondition::MagneticWall,
        OuterBoundaryCondition::Neumann { signal } => StoredOuterBoundaryCondition::Neumann {
            signal: stored_signal(signal),
        },
        OuterBoundaryCondition::Dirichlet { signal } => StoredOuterBoundaryCondition::Dirichlet {
            signal: stored_signal(signal),
        },
    }
}

pub open spec fn plain_outer_condition(stored: StoredOuterBoundaryCondition) -> OuterBoundaryCondition {
    match stored {
        StoredOuterBoundaryCondition::Reflecting => OuterBoundaryCondition::Reflecting,
        StoredOuterBoundaryCondition::FirstOrderOutgoing => OuterBoundaryCondition::FirstOrderOutgoing,
        StoredOuterBoundaryCondition::SecondOrderOutgoing => OuterBoundaryCondition::SecondOrderOutgoing,
        StoredOuterBoundaryCondition::ElectricWall => OuterBoundaryCondition::ElectricWall,
        StoredOuterBoundaryCondition::MagneticWall => OuterBoundaryCondition::MagneticWall,
        StoredOuterBoundaryCondition::Neumann { signal } => OuterBoundaryCondition::Neumann {
            signal: plain_signal(signal),
        },
        StoredOuterBoundaryCondition::Dirichlet { signal } => OuterBoundaryCondition::Dirichlet {
            signal: plain_signal(signal),
        },
    }
}

pub fn encode_outer_condition(value: OuterBoundaryCondition) -> (result: StoredOuterBoundaryCondition)
    ensures
        result == stored_outer_condition(value),
{
    match value {
        OuterBoundaryCondition::Reflecting => StoredOuterBoundaryCondition::Reflecting,
        OuterBoundaryCondition::FirstOrderOutgoing => StoredOuterBoundaryCondition::FirstOrderOutgoing,
        OuterBoundaryCondition::SecondOrderOutgoing => StoredOuterBoundaryCondition::SecondOrderOutgoing,
        OuterBoundaryCondition::ElectricWall => StoredOuterBoundaryCondition::ElectricWall,
        OuterBoundaryCondition::MagneticWall => StoredOuterBoundaryCondition::MagneticWall,
        OuterBoundaryCondition::Neumann { signal } => StoredOuterBoundaryCondition::Neumann {
            signal: encode_signal(signal),
        },
        OuterBoundaryCondition::Dirichlet { signal } => StoredOuterBoundaryCondition::Dirichlet {
            signal: encode_signal(signal),
        },
    }
}

pub fn decode_outer_condition(stored: StoredOuterBoundaryCondition) -> (result: OuterBoundaryCondition)
    ensures
        result == plain_outer_condition(stored),
{
    match stored {
        StoredOuterBoundaryCondition::Reflecting => OuterBoundaryCondition::Reflecting,
        StoredOuterBoundaryCondition::FirstOrderOutgoing => OuterBoundaryCondition::FirstOrderOutgoing,
        StoredOuterBoundaryCondition::SecondOrderOutgoing => OuterBoundaryCondition::SecondOrderOutgoing,
        StoredOuterBoundaryCondition::ElectricWall => OuterBoundaryCondition::ElectricWall,
        StoredOuterBoundaryCondition::MagneticWall => OuterBoundaryCondition::MagneticWall,
        StoredOuterBoundaryCondition::Neumann { signal } => OuterBoundaryCondition::Neumann {
            signal: decode_signal(signal),
        },
        StoredOuterBoundaryCondition::Dirichlet { signal } => OuterBoundaryCondition::Dirichlet {
            signal: decode_signal(signal),
        },
    }
}

pub open spec fn stored_face_condition(value: FaceBoundaryCondition) -> StoredFaceCondition {
    match value {
        FaceBoundaryCondition::Reflecting => StoredFaceCondition::Reflecting,
        FaceBoundaryCondition::Impedance { ratio } => StoredFaceCondition::Impedance { ratio },
        FaceBoundaryCondition::SecondOrderOutgoing => StoredFaceCondition::SecondOrderOutgoing,
        FaceBoundaryCondition::ElectricWall => StoredFaceCondition::ElectricWall,
        FaceBoundaryCondition::MagneticWall => StoredFaceCondition::MagneticWall,
        FaceBoundaryCondition::Neumann { signal } => StoredFaceCondition::Neumann {
            signal: stored_signal(signal),
        },
        FaceBoundaryCondition::Dirichlet { signal } => StoredFaceCondition::Dirichlet {
            signal: stored_signal(signal),
        },
    }
}

pub open spec fn plain_face_condition(stored: StoredFaceCondition) -> FaceBoundaryCondition {
    match stored {
        StoredFaceCondition::Reflecting => FaceBoundaryCondition::Reflecting,
        StoredFaceCondition::Impedance { ratio } => FaceBoundaryCondition::Impedance { ratio },
        StoredFaceCondition::SecondOrderOutgoing => FaceBoundaryCondition::SecondOrderOutgoing,
        StoredFaceCondition::ElectricWall => FaceBoundaryCondition::ElectricWall,
        StoredFaceCondition::MagneticWall => FaceBoundaryCondition::MagneticWall,
        StoredFaceCondition::Neumann { signal } => FaceBoundaryCondition::Neumann {
            signal: plain_signal(signal),
        },
        StoredFaceCondition::Dirichlet { signal } => FaceBoundaryCondition::Dirichlet {
            signal: plain_signal(signal),
        },
    }
}

pub fn encode_face_condition(value: FaceBoundaryCondition) -> (result: StoredFaceCondition)
    ensures
        result == stored_face_condition(value),
{
    match value {
        FaceBoundaryCondition::Reflecting => StoredFaceCondition::Reflecting,
        FaceBoundaryCondition::Impedance { ratio } => StoredFaceCondition::Impedance { ratio },
        FaceBoundaryCondition::SecondOrderOutgoing => StoredFaceCondition::SecondOrderOutgoing,
        FaceBoundaryCondition::ElectricWall => StoredFaceCondition::ElectricWall,
        FaceBoundaryCondition::MagneticWall => StoredFaceCondition::MagneticWall,
        FaceBoundaryCondition::Neumann { signal } => StoredFaceCondition::Neumann {
            signal: encode_signal(signal),
        },
        FaceBoundaryCondition::Dirichlet { signal } => StoredFaceCondition::Dirichlet {
            signal: encode_signal(signal),
        },
    }
}

pub fn decode_face_condition(stored: StoredFaceCondition) -> (result: FaceBoundaryCondition)
    ensures
        result == plain_face_condition(stored),
{
    match stored {
        StoredFaceCondition::Reflecting => FaceBoundaryCondition::Reflecting,
        StoredFaceCondition::Impedance { ratio } => FaceBoundaryCondition::Impedance { ratio },
        StoredFaceCondition::SecondOrderOutgoing => FaceBoundaryCondition::SecondOrderOutgoing,
        StoredFaceCondition::ElectricWall => FaceBoundaryCondition::ElectricWall,
        StoredFaceCondition::MagneticWall => FaceBoundaryCondition::MagneticWall,
        StoredFaceCondition::Neumann { signal } => FaceBoundaryCondition::Neumann {
            signal: decode_signal(signal),
        },
        StoredFaceCondition::Dirichlet { signal } => FaceBoundaryCondition::Dirichlet {
            signal: decode_signal(signal),
        },
    }
}

pub open spec fn stored_outer_conditions(value: OuterBoundaryConditions) -> StoredOuterBoundaries {
    StoredOuterBoundaries {
        bottom: stored_outer_condition(value.bottom),
        right: stored_outer_condition(value.right),
        top: stored_outer_condition(value.top),
        left: stored_outer_condition(value.left),
    }
}

pub open spec fn plain_outer_conditions(stored: StoredOuterBoundaries) -> OuterBoundaryConditions {
    OuterBoundaryConditions {
        bottom: plain_outer_condition(stored.bottom),
        right: plain_outer_condition(stored.right),
        top: plain_outer_condition(stored.top),
        left: plain_outer_condition(stored.left),
    }
}

pub fn encode_outer_conditions(value: OuterBoundaryConditions) -> (result: StoredOuterBoundaries)
    ensures
        result == stored_outer_conditions(value),
{
    StoredOuterBoundaries {
        bottom: encode_outer_condition(value.bottom),
        right: encode_outer_condition(value.right),
        top: encode_outer_condition(value.top),
        left: encode_outer_condition(value.left),
    }
}

pub fn decode_outer_conditions(stored: StoredOuterBoundaries) -> (result: OuterBoundaryConditions)
    ensures
        result == plain_outer_conditions(stored),
{
    OuterBoundaryConditions {
        bottom: decode_outer_condition(stored.bottom),
        right: decode_outer_condition(stored.right),
        top: decode_outer_condition(stored.top),
        left: decode_outer_condition(stored.left),
    }
}

pub open spec fn stored_coupling(value: InternalBoundaryCoupling) -> StoredCoupling {
    match value {
        InternalBoundaryCoupling::Independent => StoredCoupling::Independent,
        InternalBoundaryCoupling::ThinGap { stiffness_ratio } => StoredCoupling::ThinGap {
            stiffness_ratio,
        },
    }
}

pub open spec fn plain_coupling(stored: StoredCoupling) -> InternalBoundaryCoupling {
    match stored {
        StoredCoupling::Independent => InternalBoundaryCoupling::Independent,
        StoredCoupling::ThinGap { stiffness_ratio } => InternalBoundaryCoupling::ThinGap {
            stiffness_ratio,
        },
    }
}

pub fn encode_coupling(value: InternalBoundaryCoupling) -> (result: StoredCoupling)
    ensures
        result == stored_coupling(value),
{
    match value {
        InternalBoundaryCoupling::Independent => StoredCoupling::Independent,
        InternalBoundaryCoupling::ThinGap { stiffness_ratio } => StoredCoupling::ThinGap {
            stiffness_ratio,
        },
    }
}

pub fn decode_coupling(stored: StoredCoupling) -> (result: InternalBoundaryCoupling)
    ensures
        result == plain_coupling(stored),
{
    match stored {
        StoredCoupling::Independent => InternalBoundaryCoupling::Independent,
        StoredCoupling::ThinGap { stiffness_ratio } => InternalBoundaryCoupling::ThinGap {
            stiffness_ratio,
        },
    }
}

pub open spec fn stored_behavior(value: SpanBehavior) -> StoredSpanBehavior {
    match value {
        SpanBehavior::Transmitting => StoredSpanBehavior::Transmitting,
        SpanBehavior::Separated { left, right, coupling } => StoredSpanBehavior::Boundary {
            left: stored_face_condition(left),
            right: stored_face_condition(right),
            coupling: stored_coupling(coupling),
        },
    }
}

pub open spec fn plain_behavior(stored: StoredSpanBehavior) -> SpanBehavior {
    match stored {
        StoredSpanBehavior::Transmitting => SpanBehavior::Transmitting,
        StoredSpanBehavior::Boundary { left, right, coupling } => SpanBehavior::Separated {
            left: plain_face_condition(left),
            right: plain_face_condition(right),
            coupling: plain_coupling(coupling),
        },
    }
}

pub fn encode_behavior(value: SpanBehavior) -> (result: StoredSpanBehavior)
    ensures
        result == stored_behavior(value),
{
    match value {
        SpanBehavior::Transmitting => StoredSpanBehavior::Transmitting,
        SpanBehavior::Separated { left, right, coupling } => StoredSpanBehavior::Boundary {
            left: encode_face_condition(left),
            right: encode_face_condition(right),
            coupling: encode_coupling(coupling),
        },
    }
}

pub fn decode_behavior(stored: StoredSpanBehavior) -> (result: SpanBehavior)
    ensures
        result == plain_behavior(stored),
{
    match stored {
        StoredSpanBehavior::Transmitting => SpanBehavior::Transmitting,
        StoredSpanBehavior::Boundary { left, right, coupling } => SpanBehavior::Separated {
            left: decode_face_condition(left),
            right: decode_face_condition(right),
            coupling: decode_coupling(coupling),
        },
    }
}

pub open spec fn stored_span(value: CurveSpan) -> StoredSpan {
    StoredSpan { id: value.id, behavior: stored_behavior(value.behavior) }
}

pub open spec fn plain_span(stored: StoredSpan) -> CurveSpan {
    CurveSpan { id: stored.id, behavior: plain_behavior(stored.behavior) }
}

pub fn encode_span(value: CurveSpan) -> (result: StoredSpan)
    ensures
        result == stored_span(value),
{
    StoredSpan { id: value.id, behavior: encode_behavior(value.behavior) }
}

pub fn decode_span(stored: StoredSpan) -> (result: CurveSpan)
    ensures
        result == plain_span(stored),
{
    CurveSpan { id: stored.id, behavior: decode_behavior(stored.behavior) }
}

pub open spec fn stored_vertex(value: TopologyVertex) -> StoredVertex {
    StoredVertex {
        id: value.id,
        location: match value.location {
            TopologyVertexLocation::Free(point) => StoredVertexLocation::Free {
                point: stored_point(point),
            },
            TopologyVertexLocation::Interior(point) => StoredVertexLocation::Interior {
                point: stored_point(point),
            },
            TopologyVertexLocation::Outer { side, fraction } => StoredVertexLocation::Outer {
                side: stored_outer_side(side),
                fraction,
            },
        },
    }
}

pub open spec fn plain_vertex(stored: StoredVertex) -> TopologyVertex {
    TopologyVertex {
        id: stored.id,
        location: match stored.location {
            StoredVertexLocation::Free { point } => TopologyVertexLocation::Free(
                plain_point(point),
            ),
            StoredVertexLocation::Interior { point } => TopologyVertexLocation::Interior(
                plain_point(point),
            ),
            StoredVertexLocation::Outer { side, fraction } => TopologyVertexLocation::Outer {
                side: plain_outer_side(side),
                fraction,
            },
        },
    }
}

pub fn encode_vertex(value: TopologyVertex) -> (result: StoredVertex)
    ensures
        result == stored_vertex(value),
{
    StoredVertex {
        id: value.id,
        location: match value.location {
            TopologyVertexLocation::Free(point) => StoredVertexLocation::Free {
                point: encode_point(point),
            },
            TopologyVertexLocation::Interior(point) => StoredVertexLocation::Interior {
                point: encode_point(point),
            },
            TopologyVertexLocation::Outer { side, fraction } => StoredVertexLocation::Outer {
                side: encode_outer_side(side),
                fraction,
            },
        },
    }
}

pub fn decode_vertex(stored: StoredVertex) -> (result: TopologyVertex)
    ensures
        result == plain_vertex(stored),
{
    TopologyVertex {
        id: stored.id,
        location: match stored.location {
            StoredVertexLocation::Free { point } => TopologyVertexLocation::Free(
                decode_point(point),
            ),
            StoredVertexLocation::Interior { point } => TopologyVertexLocation::Interior(
                decode_point(point),
            ),
            StoredVertexLocation::Outer { side, fraction } => TopologyVertexLocation::Outer {
                side: decode_outer_side(side),
                fraction,
            },
        },
    }
}

pub open spec fn stored_domain(value: DomainRect) -> StoredDomain {
    StoredDomain {
        min_x: value.min_x,
        max_x: value.max_x,
        min_y: value.min_y,
        max_y: value.max_y,
    }
}

pub open spec fn plain_domain(stored: StoredDomain) -> DomainRect {
    DomainRect {
        min_x: stored.min_x,
        max_x: stored.max_x,
        min_y: stored.min_y,
        max_y: stored.max_y,
    }
}

pub fn encode_domain(value: DomainRect) -> (result: StoredDomain)
    ensures
        result == stored_domain(value),
{
    StoredDomain {
        min_x: value.min_x,
        max_x: value.max_x,
        min_y: value.min_y,
        max_y: value.max_y,
    }
}

pub fn decode_domain(stored: StoredDomain) -> (result: DomainRect)
    ensures
        result == plain_domain(stored),
{
    DomainRect {
        min_x: stored.min_x,
        max_x: stored.max_x,
        min_y: stored.min_y,
        max_y: stored.max_y,
    }
}

pub open spec fn stored_source(value: PointSource) -> StoredPointSource {
    StoredPointSource {
        enabled: value.enabled,
        position: stored_point(value.position),
        width: value.width,
        region: value.region,
        signal: stored_signal(value.signal),
    }
}

pub open spec fn plain_source(stored: StoredPointSource) -> PointSource {
    PointSource {
        enabled: stored.enabled,
        position: plain_point(stored.position),
        width: stored.width,
        region: stored.region,
        signal: plain_signal(stored.signal),
    }
}

pub fn encode_source(value: PointSource) -> (result: StoredPointSource)
    ensures
        result == stored_source(value),
{
    StoredPointSource {
        enabled: value.enabled,
        position: encode_point(value.position),
        width: value.width,
        region: value.region,
        signal: encode_signal(value.signal),
    }
}

pub fn decode_source(stored: StoredPointSource) -> (result: PointSource)
    ensures
        result == plain_source(stored),
{
    PointSource {
        enabled: stored.enabled,
        position: decode_point(stored.position),
        width: stored.width,
        region: stored.region,
        signal: decode_signal(stored.signal),
    }
}

pub open spec fn stored_far_field(value: FarFieldSettings) -> StoredFarField {
    StoredFarField { enabled: value.enabled, inset: value.inset }
}

pub open spec fn plain_far_field(stored: StoredFarField) -> FarFieldSettings {
    FarFieldSettings { enabled: stored.enabled, inset: stored.inset }
}

pub fn encode_far_field(value: FarFieldSettings) -> (result: StoredFarField)
    ensures
        result == stored_far_field(value),
{
    StoredFarField { enabled: value.enabled, inset: value.inset }
}

pub fn decode_far_field(stored: StoredFarField) -> (result: FarFieldSettings)
    ensures
        result == plain_far_field(stored),
{
    FarFieldSettings { enabled: stored.enabled, inset: stored.inset }
}

/// The plain values that documents are made of come back from their stored form
/// as they were.
pub proof fn plain_values_survive_the_file()
    ensures
        forall|value: OuterSide| plain_outer_side(#[trigger] stored_outer_side(value)) == value,
        forall|value: CurveTraceSide| plain_curve_side(#[trigger] stored_curve_side(value)) == value,
        forall|value: MaterialFrameAttachment| plain_attachment(#[trigger] stored_attachment(value)) == value,
        forall|value: ElectromagneticPolarization| plain_polarization(#[trigger] stored_polarization(value)) == value,
        forall|value: ProbeSamplingPreset| plain_probe_preset(#[trigger] stored_probe_preset(value)) == value,
        forall|value: VectorOverlay| plain_vector_overlay(#[trigger] stored_vector_overlay(value)) == value,
        forall|value: MaterialProperty| plain_property(#[trigger] stored_property(value)) == value,
        forall|value: Point2| plain_point(#[trigger] stored_point(value)) == value,
        forall|value: PhysicsModel| plain_physics(#[trigger] stored_physics(value)) == value,
        forall|value: MaterialFrame| plain_frame(#[trigger] stored_frame(value)) == value,
        forall|value: Region| plain_region(#[trigger] stored_region(value)) == value,
        forall|value: FaceAnchor| plain_anchor(#[trigger] stored_anchor(value)) == value,
        forall|value: AuthoredFaceAssignment| plain_assignment(#[trigger] stored_assignment(value)) == value,
        forall|value: TimeSignal| plain_signal(#[trigger] stored_signal(value)) == value,
        forall|value: OuterBoundaryCondition| plain_outer_condition(#[trigger] stored_outer_condition(value)) == value,
        forall|value: FaceBoundaryCondition| plain_face_condition(#[trigger] stored_face_condition(value)) == value,
        forall|value: OuterBoundaryConditions| plain_outer_conditions(#[trigger] stored_outer_conditions(value)) == value,
        forall|value: InternalBoundaryCoupling| plain_coupling(#[trigger] stored_coupling(value)) == value,
        forall|value: SpanBehavior| plain_behavior(#[trigger] stored_behavior(value)) == value,
        forall|value: CurveSpan| plain_span(#[trigger] stored_span(value)) == value,
        forall|value: TopologyVertex| plain_vertex(#[trigger] stored_vertex(value)) == value,
        forall|value: DomainRect| plain_domain(#[trigger] stored_domain(value)) == value,
        forall|value: PointSource| plain_source(#[trigger] stored_source(value)) == value,
        forall|value: FarFieldSettings| plain_far_field(#[trigger] stored_far_field(value)) == value,
{
}

/// And the stored forms come back from the values they are read as.
pub proof fn stored_values_survive_reading()
    ensures
        forall|stored: StoredOuterSide| stored_outer_side(#[trigger] plain_outer_side(stored)) == stored,
        forall|stored: StoredCurveSide| stored_curve_side(#[trigger] plain_curve_side(stored)) == stored,
        forall|stored: StoredFrameAttachment| stored_attachment(#[trigger] plain_attachment(stored)) == stored,
        forall|stored: StoredPolarization| stored_polarization(#[trigger] plain_polarization(stored)) == stored,
        forall|stored: StoredProbeSamplingPreset| stored_probe_preset(#[trigger] plain_probe_preset(stored)) == stored,
        forall|stored: StoredVectorOverlay| stored_vector_overlay(#[trigger] plain_vector_overlay(stored)) == stored,
        forall|stored: StoredMaterialProperty| stored_property(#[trigger] plain_property(stored)) == stored,
        forall|stored: StoredPoint| stored_point(#[trigger] plain_point(stored)) == stored,
        forall|stored: StoredPhysicsModel| stored_physics(#[trigger] plain_physics(stored)) == stored,
        forall|stored: StoredFrame| stored_frame(#[trigger] plain_frame(stored)) == stored,
        forall|stored: StoredRegion| stored_region(#[trigger] plain_region(stored)) == stored,
        forall|stored: StoredFaceAnchor| stored_anchor(#[trigger] plain_anchor(stored)) == stored,
        forall|stored: StoredFaceAssignment| stored_assignment(#[trigger] plain_assignment(stored)) == stored,
        forall|stored: StoredTimeSignal| stored_signal(#[trigger] plain_signal(stored)) == stored,
        forall|stored: StoredOuterBoundaryCondition| stored_outer_condition(#[trigger] plain_outer_condition(stored)) == stored,
        forall|stored: StoredFaceCondition| stored_face_condition(#[trigger] plain_face_condition(stored)) == stored,
        forall|stored: StoredOuterBoundaries| stored_outer_conditions(#[trigger] plain_outer_conditions(stored)) == stored,
        forall|stored: StoredCoupling| stored_coupling(#[trigger] plain_coupling(stored)) == stored,
        forall|stored: StoredSpanBehavior| stored_behavior(#[trigger] plain_behavior(stored)) == stored,
        forall|stored: StoredSpan| stored_span(#[trigger] plain_span(stored)) == stored,
        forall|stored: StoredVertex| stored_vertex(#[trigger] plain_vertex(stored)) == stored,
        forall|stored: StoredDomain| stored_domain(#[trigger] plain_domain(stored)) == stored,
        forall|stored: StoredPointSource| stored_source(#[trigger] plain_source(stored)) == stored,
        forall|stored: StoredFarField| stored_far_field(#[trigger] plain_far_field(stored)) == stored,
{
}

} // verus!
