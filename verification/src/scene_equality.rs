//! Equality of authored scenes and of their parts, and what it means for
//! preparation.

use crate::alike::Alike;
use crate::model::{
    AuthoredFaceAssignment, CoefficientLaw, CurveNode, CurveSpan, CurveSpline, CurveTraceSide,
    DampingLaw, DomainRect, FaceAnchor, FaceBoundaryCondition, FieldLaw, InternalBoundaryCoupling,
    LossChannel, Material, MaterialFrame, MaterialFrameAttachment, MaterialParameter,
    OuterBoundaryCondition, OuterBoundaryConditions, OuterSide, PhysicsModel, PointSource,
    ProbeSamplingPreset, RateLaw, Region, RestoringLaw, Rgb, ScalarField, SpanBehavior, SplineData,
    TimeDrive, TimeSignal, TopologyBoundaryProbeTarget, TopologyCurve, TopologyGeometry,
    TopologyProbeDefinition, TopologyProbeTarget, TopologyScene, TopologyVertex,
    TopologyVertexLocation, VolumeSource,
};
use crate::preparation_job::SceneComparison;
use vstd::prelude::*;

verus! {

impl Alike for ScalarField {
    open spec fn alike(self, other: Self) -> bool {
        match (self, other) {
            (ScalarField::Constant(left), ScalarField::Constant(right)) => left.alike(right),
            (ScalarField::Formula(left), ScalarField::Formula(right)) => left.alike(right),
            _ => false,
        }
    }

    fn same(&self, other: &Self) -> (result: bool) {
        match (self, other) {
            (ScalarField::Constant(left), ScalarField::Constant(right)) => left.same(right),
            (ScalarField::Formula(left), ScalarField::Formula(right)) => left.same(right),
            _ => false,
        }
    }
}

impl Alike for MaterialParameter {
    open spec fn alike(self, other: Self) -> bool {
        &&& self.name.alike(other.name)
        &&& self.value.alike(other.value)
    }

    fn same(&self, other: &Self) -> (result: bool) {
        self.name.same(&other.name)
            && self.value.same(&other.value)
    }
}

impl Alike for FieldLaw {
    open spec fn alike(self, other: Self) -> bool {
        match (self, other) {
            (FieldLaw::Linear, FieldLaw::Linear) => true,
            (
                FieldLaw::Polynomial { chi1: a0, chi2: a1, amplitude_bound: a2 },
                FieldLaw::Polynomial { chi1: b0, chi2: b1, amplitude_bound: b2 },
            ) => a0.alike(b0) && a1.alike(b1) && a2.alike(b2),
            (
                FieldLaw::Saturable { chi: a0, saturation: a1 },
                FieldLaw::Saturable { chi: b0, saturation: b1 },
            ) => a0.alike(b0) && a1.alike(b1),
            _ => false,
        }
    }

    fn same(&self, other: &Self) -> (result: bool) {
        match (self, other) {
            (FieldLaw::Linear, FieldLaw::Linear) => true,
            (
                FieldLaw::Polynomial { chi1: a0, chi2: a1, amplitude_bound: a2 },
                FieldLaw::Polynomial { chi1: b0, chi2: b1, amplitude_bound: b2 },
            ) => a0.same(b0) && a1.same(b1) && a2.same(b2),
            (
                FieldLaw::Saturable { chi: a0, saturation: a1 },
                FieldLaw::Saturable { chi: b0, saturation: b1 },
            ) => a0.same(b0) && a1.same(b1),
            _ => false,
        }
    }
}

impl Alike for TimeDrive {
    open spec fn alike(self, other: Self) -> bool {
        match (self, other) {
            (TimeDrive::Absent, TimeDrive::Absent) => true,
            (
                TimeDrive::ParametricPump { depth: a0, frequency_hz: a1, phase_radians: a2 },
                TimeDrive::ParametricPump { depth: b0, frequency_hz: b1, phase_radians: b2 },
            ) => a0.alike(b0) && a1.alike(b1) && a2.alike(b2),
            (
                TimeDrive::TimeCrystal {
                    depth: a0,
                    frequency_hz: a1,
                    phase_radians: a2,
                    sharpness: a3,
                },
                TimeDrive::TimeCrystal {
                    depth: b0,
                    frequency_hz: b1,
                    phase_radians: b2,
                    sharpness: b3,
                },
            ) => a0.alike(b0) && a1.alike(b1) && a2.alike(b2) && a3.alike(b3),
            (
                TimeDrive::TravellingModulation {
                    depth: a0,
                    frequency_hz: a1,
                    phase_radians: a2,
                    wavenumber: a3,
                    angle_radians: a4,
                },
                TimeDrive::TravellingModulation {
                    depth: b0,
                    frequency_hz: b1,
                    phase_radians: b2,
                    wavenumber: b3,
                    angle_radians: b4,
                },
            ) => a0.alike(b0) && a1.alike(b1) && a2.alike(b2) && a3.alike(b3) && a4.alike(b4),
            _ => false,
        }
    }

    fn same(&self, other: &Self) -> (result: bool) {
        match (self, other) {
            (TimeDrive::Absent, TimeDrive::Absent) => true,
            (
                TimeDrive::ParametricPump { depth: a0, frequency_hz: a1, phase_radians: a2 },
                TimeDrive::ParametricPump { depth: b0, frequency_hz: b1, phase_radians: b2 },
            ) => a0.same(b0) && a1.same(b1) && a2.same(b2),
            (
                TimeDrive::TimeCrystal {
                    depth: a0,
                    frequency_hz: a1,
                    phase_radians: a2,
                    sharpness: a3,
                },
                TimeDrive::TimeCrystal {
                    depth: b0,
                    frequency_hz: b1,
                    phase_radians: b2,
                    sharpness: b3,
                },
            ) => a0.same(b0) && a1.same(b1) && a2.same(b2) && a3.same(b3),
            (
                TimeDrive::TravellingModulation {
                    depth: a0,
                    frequency_hz: a1,
                    phase_radians: a2,
                    wavenumber: a3,
                    angle_radians: a4,
                },
                TimeDrive::TravellingModulation {
                    depth: b0,
                    frequency_hz: b1,
                    phase_radians: b2,
                    wavenumber: b3,
                    angle_radians: b4,
                },
            ) => a0.same(b0) && a1.same(b1) && a2.same(b2) && a3.same(b3) && a4.same(b4),
            _ => false,
        }
    }
}

impl Alike for CoefficientLaw {
    open spec fn alike(self, other: Self) -> bool {
        &&& self.field.alike(other.field)
        &&& self.drive.alike(other.drive)
        &&& self.alternate.alike(other.alternate)
        &&& self.inverted.alike(other.inverted)
    }

    fn same(&self, other: &Self) -> (result: bool) {
        self.field.same(&other.field)
            && self.drive.same(&other.drive)
            && self.alternate.same(&other.alternate)
            && self.inverted.same(&other.inverted)
    }
}

impl Alike for RateLaw {
    open spec fn alike(self, other: Self) -> bool {
        match (self, other) {
            (RateLaw::Constant, RateLaw::Constant) => true,
            (
                RateLaw::SaturableAbsorption { saturation: a0 },
                RateLaw::SaturableAbsorption { saturation: b0 },
            ) => a0.alike(b0),
            (
                RateLaw::Polynomial { beta1: a0, beta2: a1, amplitude_bound: a2 },
                RateLaw::Polynomial { beta1: b0, beta2: b1, amplitude_bound: b2 },
            ) => a0.alike(b0) && a1.alike(b1) && a2.alike(b2),
            (
                RateLaw::VanDerPol { threshold: a0, amplitude_bound: a1 },
                RateLaw::VanDerPol { threshold: b0, amplitude_bound: b1 },
            ) => a0.alike(b0) && a1.alike(b1),
            _ => false,
        }
    }

    fn same(&self, other: &Self) -> (result: bool) {
        match (self, other) {
            (RateLaw::Constant, RateLaw::Constant) => true,
            (
                RateLaw::SaturableAbsorption { saturation: a0 },
                RateLaw::SaturableAbsorption { saturation: b0 },
            ) => a0.same(b0),
            (
                RateLaw::Polynomial { beta1: a0, beta2: a1, amplitude_bound: a2 },
                RateLaw::Polynomial { beta1: b0, beta2: b1, amplitude_bound: b2 },
            ) => a0.same(b0) && a1.same(b1) && a2.same(b2),
            (
                RateLaw::VanDerPol { threshold: a0, amplitude_bound: a1 },
                RateLaw::VanDerPol { threshold: b0, amplitude_bound: b1 },
            ) => a0.same(b0) && a1.same(b1),
            _ => false,
        }
    }
}

impl Alike for DampingLaw {
    open spec fn alike(self, other: Self) -> bool {
        &&& self.rate.alike(other.rate)
        &&& self.drive.alike(other.drive)
    }

    fn same(&self, other: &Self) -> (result: bool) {
        self.rate.same(&other.rate)
            && self.drive.same(&other.drive)
    }
}

impl Alike for LossChannel {
    open spec fn alike(self, other: Self) -> bool {
        &&& self.base_rate.alike(other.base_rate)
        &&& self.law.alike(other.law)
    }

    fn same(&self, other: &Self) -> (result: bool) {
        self.base_rate.same(&other.base_rate)
            && self.law.same(&other.law)
    }
}

impl Alike for RestoringLaw {
    open spec fn alike(self, other: Self) -> bool {
        match (self, other) {
            (RestoringLaw::Absent, RestoringLaw::Absent) => true,
            (
                RestoringLaw::KleinGordon { omega0: a0 },
                RestoringLaw::KleinGordon { omega0: b0 },
            ) => a0.alike(b0),
            (
                RestoringLaw::SineGordon { omega0: a0 },
                RestoringLaw::SineGordon { omega0: b0 },
            ) => a0.alike(b0),
            (
                RestoringLaw::Phi4 { lambda: a0, amplitude_bound: a1 },
                RestoringLaw::Phi4 { lambda: b0, amplitude_bound: b1 },
            ) => a0.alike(b0) && a1.alike(b1),
            _ => false,
        }
    }

    fn same(&self, other: &Self) -> (result: bool) {
        match (self, other) {
            (RestoringLaw::Absent, RestoringLaw::Absent) => true,
            (
                RestoringLaw::KleinGordon { omega0: a0 },
                RestoringLaw::KleinGordon { omega0: b0 },
            ) => a0.same(b0),
            (
                RestoringLaw::SineGordon { omega0: a0 },
                RestoringLaw::SineGordon { omega0: b0 },
            ) => a0.same(b0),
            (
                RestoringLaw::Phi4 { lambda: a0, amplitude_bound: a1 },
                RestoringLaw::Phi4 { lambda: b0, amplitude_bound: b1 },
            ) => a0.same(b0) && a1.same(b1),
            _ => false,
        }
    }
}

impl Alike for Material {
    open spec fn alike(self, other: Self) -> bool {
        &&& self.id.alike(other.id)
        &&& self.name.alike(other.name)
        &&& self.mass_density.alike(other.mass_density)
        &&& self.stiffness.alike(other.stiffness)
        &&& self.damping.alike(other.damping)
        &&& self.axis_ratio.alike(other.axis_ratio)
        &&& self.parameters.alike(other.parameters)
        &&& self.color.alike(other.color)
        &&& self.mass_law.alike(other.mass_law)
        &&& self.stiffness_law.alike(other.stiffness_law)
        &&& self.electric_loss.alike(other.electric_loss)
        &&& self.magnetic_loss.alike(other.magnetic_loss)
        &&& self.restoring.alike(other.restoring)
        &&& self.switch_ramp.alike(other.switch_ramp)
    }

    fn same(&self, other: &Self) -> (result: bool) {
        self.id.same(&other.id)
            && self.name.same(&other.name)
            && self.mass_density.same(&other.mass_density)
            && self.stiffness.same(&other.stiffness)
            && self.damping.same(&other.damping)
            && self.axis_ratio.same(&other.axis_ratio)
            && self.parameters.same(&other.parameters)
            && self.color.same(&other.color)
            && self.mass_law.same(&other.mass_law)
            && self.stiffness_law.same(&other.stiffness_law)
            && self.electric_loss.same(&other.electric_loss)
            && self.magnetic_loss.same(&other.magnetic_loss)
            && self.restoring.same(&other.restoring)
            && self.switch_ramp.same(&other.switch_ramp)
    }
}

impl Alike for Rgb {
    open spec fn alike(self, other: Self) -> bool {
        self == other
    }

    fn same(&self, other: &Self) -> (result: bool) {
        *self == *other
    }
}

impl Alike for PhysicsModel {
    open spec fn alike(self, other: Self) -> bool {
        self == other
    }

    fn same(&self, other: &Self) -> (result: bool) {
        *self == *other
    }
}

impl Alike for OuterSide {
    open spec fn alike(self, other: Self) -> bool {
        self == other
    }

    fn same(&self, other: &Self) -> (result: bool) {
        *self == *other
    }
}

impl Alike for CurveTraceSide {
    open spec fn alike(self, other: Self) -> bool {
        self == other
    }

    fn same(&self, other: &Self) -> (result: bool) {
        *self == *other
    }
}

impl Alike for MaterialFrameAttachment {
    open spec fn alike(self, other: Self) -> bool {
        self == other
    }

    fn same(&self, other: &Self) -> (result: bool) {
        *self == *other
    }
}

impl Alike for ProbeSamplingPreset {
    open spec fn alike(self, other: Self) -> bool {
        self == other
    }

    fn same(&self, other: &Self) -> (result: bool) {
        *self == *other
    }
}

impl Alike for CurveNode {
    open spec fn alike(self, other: Self) -> bool {
        self == other
    }

    fn same(&self, other: &Self) -> (result: bool) {
        *self == *other
    }
}

impl Alike for MaterialFrame {
    open spec fn alike(self, other: Self) -> bool {
        &&& self.origin.alike(other.origin)
        &&& self.angle_radians.alike(other.angle_radians)
        &&& self.attachment.alike(other.attachment)
    }

    fn same(&self, other: &Self) -> (result: bool) {
        self.origin.same(&other.origin)
            && self.angle_radians.same(&other.angle_radians)
            && self.attachment.same(&other.attachment)
    }
}

impl Alike for Region {
    open spec fn alike(self, other: Self) -> bool {
        &&& self.id.alike(other.id)
        &&& self.material.alike(other.material)
        &&& self.frame.alike(other.frame)
    }

    fn same(&self, other: &Self) -> (result: bool) {
        self.id.same(&other.id)
            && self.material.same(&other.material)
            && self.frame.same(&other.frame)
    }
}

impl Alike for FaceAnchor {
    open spec fn alike(self, other: Self) -> bool {
        match (self, other) {
            (
                FaceAnchor::Outer { side: a0, fraction: a1 },
                FaceAnchor::Outer { side: b0, fraction: b1 },
            ) => a0.alike(b0) && a1.alike(b1),
            (
                FaceAnchor::Curve { curve: a0, span: a1, side: a2, parameter: a3 },
                FaceAnchor::Curve { curve: b0, span: b1, side: b2, parameter: b3 },
            ) => a0.alike(b0) && a1.alike(b1) && a2.alike(b2) && a3.alike(b3),
            _ => false,
        }
    }

    fn same(&self, other: &Self) -> (result: bool) {
        match (self, other) {
            (
                FaceAnchor::Outer { side: a0, fraction: a1 },
                FaceAnchor::Outer { side: b0, fraction: b1 },
            ) => a0.same(b0) && a1.same(b1),
            (
                FaceAnchor::Curve { curve: a0, span: a1, side: a2, parameter: a3 },
                FaceAnchor::Curve { curve: b0, span: b1, side: b2, parameter: b3 },
            ) => a0.same(b0) && a1.same(b1) && a2.same(b2) && a3.same(b3),
            _ => false,
        }
    }
}

impl Alike for AuthoredFaceAssignment {
    open spec fn alike(self, other: Self) -> bool {
        &&& self.anchor.alike(other.anchor)
        &&& self.region.alike(other.region)
    }

    fn same(&self, other: &Self) -> (result: bool) {
        self.anchor.same(&other.anchor)
            && self.region.same(&other.region)
    }
}

impl Alike for TimeSignal {
    open spec fn alike(self, other: Self) -> bool {
        &&& self.offset.alike(other.offset)
        &&& self.amplitude.alike(other.amplitude)
        &&& self.frequency_hz.alike(other.frequency_hz)
        &&& self.phase_radians.alike(other.phase_radians)
    }

    fn same(&self, other: &Self) -> (result: bool) {
        self.offset.same(&other.offset)
            && self.amplitude.same(&other.amplitude)
            && self.frequency_hz.same(&other.frequency_hz)
            && self.phase_radians.same(&other.phase_radians)
    }
}

impl Alike for FaceBoundaryCondition {
    open spec fn alike(self, other: Self) -> bool {
        match (self, other) {
            (FaceBoundaryCondition::Reflecting, FaceBoundaryCondition::Reflecting) => true,
            (
                FaceBoundaryCondition::Impedance { ratio: a0 },
                FaceBoundaryCondition::Impedance { ratio: b0 },
            ) => a0.alike(b0),
            (FaceBoundaryCondition::SecondOrderOutgoing, FaceBoundaryCondition::SecondOrderOutgoing) => true,
            (FaceBoundaryCondition::ElectricWall, FaceBoundaryCondition::ElectricWall) => true,
            (FaceBoundaryCondition::MagneticWall, FaceBoundaryCondition::MagneticWall) => true,
            (
                FaceBoundaryCondition::Neumann { signal: a0 },
                FaceBoundaryCondition::Neumann { signal: b0 },
            ) => a0.alike(b0),
            (
                FaceBoundaryCondition::Dirichlet { signal: a0 },
                FaceBoundaryCondition::Dirichlet { signal: b0 },
            ) => a0.alike(b0),
            _ => false,
        }
    }

    fn same(&self, other: &Self) -> (result: bool) {
        match (self, other) {
            (FaceBoundaryCondition::Reflecting, FaceBoundaryCondition::Reflecting) => true,
            (
                FaceBoundaryCondition::Impedance { ratio: a0 },
                FaceBoundaryCondition::Impedance { ratio: b0 },
            ) => a0.same(b0),
            (FaceBoundaryCondition::SecondOrderOutgoing, FaceBoundaryCondition::SecondOrderOutgoing) => true,
            (FaceBoundaryCondition::ElectricWall, FaceBoundaryCondition::ElectricWall) => true,
            (FaceBoundaryCondition::MagneticWall, FaceBoundaryCondition::MagneticWall) => true,
            (
                FaceBoundaryCondition::Neumann { signal: a0 },
                FaceBoundaryCondition::Neumann { signal: b0 },
            ) => a0.same(b0),
            (
                FaceBoundaryCondition::Dirichlet { signal: a0 },
                FaceBoundaryCondition::Dirichlet { signal: b0 },
            ) => a0.same(b0),
            _ => false,
        }
    }
}

impl Alike for OuterBoundaryCondition {
    open spec fn alike(self, other: Self) -> bool {
        match (self, other) {
            (OuterBoundaryCondition::Reflecting, OuterBoundaryCondition::Reflecting) => true,
            (OuterBoundaryCondition::FirstOrderOutgoing, OuterBoundaryCondition::FirstOrderOutgoing) => true,
            (OuterBoundaryCondition::SecondOrderOutgoing, OuterBoundaryCondition::SecondOrderOutgoing) => true,
            (OuterBoundaryCondition::ElectricWall, OuterBoundaryCondition::ElectricWall) => true,
            (OuterBoundaryCondition::MagneticWall, OuterBoundaryCondition::MagneticWall) => true,
            (
                OuterBoundaryCondition::Neumann { signal: a0 },
                OuterBoundaryCondition::Neumann { signal: b0 },
            ) => a0.alike(b0),
            (
                OuterBoundaryCondition::Dirichlet { signal: a0 },
                OuterBoundaryCondition::Dirichlet { signal: b0 },
            ) => a0.alike(b0),
            _ => false,
        }
    }

    fn same(&self, other: &Self) -> (result: bool) {
        match (self, other) {
            (OuterBoundaryCondition::Reflecting, OuterBoundaryCondition::Reflecting) => true,
            (OuterBoundaryCondition::FirstOrderOutgoing, OuterBoundaryCondition::FirstOrderOutgoing) => true,
            (OuterBoundaryCondition::SecondOrderOutgoing, OuterBoundaryCondition::SecondOrderOutgoing) => true,
            (OuterBoundaryCondition::ElectricWall, OuterBoundaryCondition::ElectricWall) => true,
            (OuterBoundaryCondition::MagneticWall, OuterBoundaryCondition::MagneticWall) => true,
            (
                OuterBoundaryCondition::Neumann { signal: a0 },
                OuterBoundaryCondition::Neumann { signal: b0 },
            ) => a0.same(b0),
            (
                OuterBoundaryCondition::Dirichlet { signal: a0 },
                OuterBoundaryCondition::Dirichlet { signal: b0 },
            ) => a0.same(b0),
            _ => false,
        }
    }
}

impl Alike for OuterBoundaryConditions {
    open spec fn alike(self, other: Self) -> bool {
        &&& self.bottom.alike(other.bottom)
        &&& self.right.alike(other.right)
        &&& self.top.alike(other.top)
        &&& self.left.alike(other.left)
    }

    fn same(&self, other: &Self) -> (result: bool) {
        self.bottom.same(&other.bottom)
            && self.right.same(&other.right)
            && self.top.same(&other.top)
            && self.left.same(&other.left)
    }
}

impl Alike for InternalBoundaryCoupling {
    open spec fn alike(self, other: Self) -> bool {
        match (self, other) {
            (InternalBoundaryCoupling::Independent, InternalBoundaryCoupling::Independent) => true,
            (
                InternalBoundaryCoupling::ThinGap { stiffness_ratio: a0 },
                InternalBoundaryCoupling::ThinGap { stiffness_ratio: b0 },
            ) => a0.alike(b0),
            _ => false,
        }
    }

    fn same(&self, other: &Self) -> (result: bool) {
        match (self, other) {
            (InternalBoundaryCoupling::Independent, InternalBoundaryCoupling::Independent) => true,
            (
                InternalBoundaryCoupling::ThinGap { stiffness_ratio: a0 },
                InternalBoundaryCoupling::ThinGap { stiffness_ratio: b0 },
            ) => a0.same(b0),
            _ => false,
        }
    }
}

impl Alike for SpanBehavior {
    open spec fn alike(self, other: Self) -> bool {
        match (self, other) {
            (SpanBehavior::Transmitting, SpanBehavior::Transmitting) => true,
            (
                SpanBehavior::Separated { left: a0, right: a1, coupling: a2 },
                SpanBehavior::Separated { left: b0, right: b1, coupling: b2 },
            ) => a0.alike(b0) && a1.alike(b1) && a2.alike(b2),
            _ => false,
        }
    }

    fn same(&self, other: &Self) -> (result: bool) {
        match (self, other) {
            (SpanBehavior::Transmitting, SpanBehavior::Transmitting) => true,
            (
                SpanBehavior::Separated { left: a0, right: a1, coupling: a2 },
                SpanBehavior::Separated { left: b0, right: b1, coupling: b2 },
            ) => a0.same(b0) && a1.same(b1) && a2.same(b2),
            _ => false,
        }
    }
}

impl Alike for CurveSpan {
    open spec fn alike(self, other: Self) -> bool {
        &&& self.id.alike(other.id)
        &&& self.behavior.alike(other.behavior)
    }

    fn same(&self, other: &Self) -> (result: bool) {
        self.id.same(&other.id)
            && self.behavior.same(&other.behavior)
    }
}

impl Alike for SplineData {
    open spec fn alike(self, other: Self) -> bool {
        &&& self.controls.alike(other.controls)
        &&& self.intervals.alike(other.intervals)
        &&& self.multiplicities.alike(other.multiplicities)
    }

    fn same(&self, other: &Self) -> (result: bool) {
        self.controls.same(&other.controls)
            && self.intervals.same(&other.intervals)
            && self.multiplicities.same(&other.multiplicities)
    }
}

impl Alike for CurveSpline {
    open spec fn alike(self, other: Self) -> bool {
        match (self, other) {
            (CurveSpline::Closed(left), CurveSpline::Closed(right)) => left.alike(right),
            (CurveSpline::Open(left), CurveSpline::Open(right)) => left.alike(right),
            _ => false,
        }
    }

    fn same(&self, other: &Self) -> (result: bool) {
        match (self, other) {
            (CurveSpline::Closed(left), CurveSpline::Closed(right)) => left.same(right),
            (CurveSpline::Open(left), CurveSpline::Open(right)) => left.same(right),
            _ => false,
        }
    }
}

impl Alike for TopologyCurve {
    open spec fn alike(self, other: Self) -> bool {
        &&& self.id.alike(other.id)
        &&& self.spline.alike(other.spline)
        &&& self.nodes.alike(other.nodes)
        &&& self.spans.alike(other.spans)
    }

    fn same(&self, other: &Self) -> (result: bool) {
        self.id.same(&other.id)
            && self.spline.same(&other.spline)
            && self.nodes.same(&other.nodes)
            && self.spans.same(&other.spans)
    }
}

impl Alike for TopologyVertexLocation {
    open spec fn alike(self, other: Self) -> bool {
        match (self, other) {
            (TopologyVertexLocation::Free(left), TopologyVertexLocation::Free(right)) => left.alike(right),
            (TopologyVertexLocation::Interior(left), TopologyVertexLocation::Interior(right)) => left.alike(right),
            (
                TopologyVertexLocation::Outer { side: a0, fraction: a1 },
                TopologyVertexLocation::Outer { side: b0, fraction: b1 },
            ) => a0.alike(b0) && a1.alike(b1),
            _ => false,
        }
    }

    fn same(&self, other: &Self) -> (result: bool) {
        match (self, other) {
            (TopologyVertexLocation::Free(left), TopologyVertexLocation::Free(right)) => left.same(right),
            (TopologyVertexLocation::Interior(left), TopologyVertexLocation::Interior(right)) => left.same(right),
            (
                TopologyVertexLocation::Outer { side: a0, fraction: a1 },
                TopologyVertexLocation::Outer { side: b0, fraction: b1 },
            ) => a0.same(b0) && a1.same(b1),
            _ => false,
        }
    }
}

impl Alike for TopologyVertex {
    open spec fn alike(self, other: Self) -> bool {
        &&& self.id.alike(other.id)
        &&& self.location.alike(other.location)
    }

    fn same(&self, other: &Self) -> (result: bool) {
        self.id.same(&other.id)
            && self.location.same(&other.location)
    }
}

impl Alike for DomainRect {
    open spec fn alike(self, other: Self) -> bool {
        &&& self.min_x.alike(other.min_x)
        &&& self.max_x.alike(other.max_x)
        &&& self.min_y.alike(other.min_y)
        &&& self.max_y.alike(other.max_y)
    }

    fn same(&self, other: &Self) -> (result: bool) {
        self.min_x.same(&other.min_x)
            && self.max_x.same(&other.max_x)
            && self.min_y.same(&other.min_y)
            && self.max_y.same(&other.max_y)
    }
}

impl Alike for TopologyGeometry {
    open spec fn alike(self, other: Self) -> bool {
        &&& self.domain.alike(other.domain)
        &&& self.curves.alike(other.curves)
        &&& self.vertices.alike(other.vertices)
    }

    fn same(&self, other: &Self) -> (result: bool) {
        self.domain.same(&other.domain)
            && self.curves.same(&other.curves)
            && self.vertices.same(&other.vertices)
    }
}

impl Alike for TopologyScene {
    open spec fn alike(self, other: Self) -> bool {
        &&& self.geometry.alike(other.geometry)
        &&& self.physics.alike(other.physics)
        &&& self.materials.alike(other.materials)
        &&& self.regions.alike(other.regions)
        &&& self.face_assignments.alike(other.face_assignments)
        &&& self.volume_sources.alike(other.volume_sources)
        &&& self.outer_boundaries.alike(other.outer_boundaries)
    }

    fn same(&self, other: &Self) -> (result: bool) {
        self.geometry.same(&other.geometry) && self.physics.same(&other.physics)
            && self.materials.same(&other.materials) && self.regions.same(&other.regions)
            && self.face_assignments.same(&other.face_assignments) && self.volume_sources.same(
            &other.volume_sources,
        ) && self.outer_boundaries.same(&other.outer_boundaries)
    }
}

impl Alike for VolumeSource {
    open spec fn alike(self, other: Self) -> bool {
        &&& self.region.alike(other.region)
        &&& self.enabled.alike(other.enabled)
        &&& self.profile.alike(other.profile)
        &&& self.parameters.alike(other.parameters)
        &&& self.signal.alike(other.signal)
    }

    fn same(&self, other: &Self) -> (result: bool) {
        self.region.same(&other.region)
            && self.enabled.same(&other.enabled)
            && self.profile.same(&other.profile)
            && self.parameters.same(&other.parameters)
            && self.signal.same(&other.signal)
    }
}

impl Alike for PointSource {
    open spec fn alike(self, other: Self) -> bool {
        &&& self.enabled.alike(other.enabled)
        &&& self.position.alike(other.position)
        &&& self.width.alike(other.width)
        &&& self.region.alike(other.region)
        &&& self.signal.alike(other.signal)
    }

    fn same(&self, other: &Self) -> (result: bool) {
        self.enabled.same(&other.enabled)
            && self.position.same(&other.position)
            && self.width.same(&other.width)
            && self.region.same(&other.region)
            && self.signal.same(&other.signal)
    }
}

impl Alike for TopologyBoundaryProbeTarget {
    open spec fn alike(self, other: Self) -> bool {
        &&& self.curve.alike(other.curve)
        &&& self.spans.alike(other.spans)
        &&& self.side.alike(other.side)
        &&& self.reversed.alike(other.reversed)
        &&& self.preset.alike(other.preset)
    }

    fn same(&self, other: &Self) -> (result: bool) {
        self.curve.same(&other.curve)
            && self.spans.same(&other.spans)
            && self.side.same(&other.side)
            && self.reversed.same(&other.reversed)
            && self.preset.same(&other.preset)
    }
}

impl Alike for TopologyProbeTarget {
    open spec fn alike(self, other: Self) -> bool {
        match (self, other) {
            (TopologyProbeTarget::Point(left), TopologyProbeTarget::Point(right)) => left.alike(right),
            (
                TopologyProbeTarget::Segment { start: a0, end: a1, preset: a2 },
                TopologyProbeTarget::Segment { start: b0, end: b1, preset: b2 },
            ) => a0.alike(b0) && a1.alike(b1) && a2.alike(b2),
            (TopologyProbeTarget::Boundary(left), TopologyProbeTarget::Boundary(right)) => left.alike(right),
            (
                TopologyProbeTarget::AreaDisk { center: a0, radius: a1 },
                TopologyProbeTarget::AreaDisk { center: b0, radius: b1 },
            ) => a0.alike(b0) && a1.alike(b1),
            (TopologyProbeTarget::AreaRegion(left), TopologyProbeTarget::AreaRegion(right)) => left.alike(right),
            _ => false,
        }
    }

    fn same(&self, other: &Self) -> (result: bool) {
        match (self, other) {
            (TopologyProbeTarget::Point(left), TopologyProbeTarget::Point(right)) => left.same(right),
            (
                TopologyProbeTarget::Segment { start: a0, end: a1, preset: a2 },
                TopologyProbeTarget::Segment { start: b0, end: b1, preset: b2 },
            ) => a0.same(b0) && a1.same(b1) && a2.same(b2),
            (TopologyProbeTarget::Boundary(left), TopologyProbeTarget::Boundary(right)) => left.same(right),
            (
                TopologyProbeTarget::AreaDisk { center: a0, radius: a1 },
                TopologyProbeTarget::AreaDisk { center: b0, radius: b1 },
            ) => a0.same(b0) && a1.same(b1),
            (TopologyProbeTarget::AreaRegion(left), TopologyProbeTarget::AreaRegion(right)) => left.same(right),
            _ => false,
        }
    }
}

impl Alike for TopologyProbeDefinition {
    open spec fn alike(self, other: Self) -> bool {
        &&& self.id.alike(other.id)
        &&& self.name.alike(other.name)
        &&& self.color.alike(other.color)
        &&& self.enabled.alike(other.enabled)
        &&& self.target.alike(other.target)
    }

    fn same(&self, other: &Self) -> (result: bool) {
        self.id.same(&other.id)
            && self.name.same(&other.name)
            && self.color.same(&other.color)
            && self.enabled.same(&other.enabled)
            && self.target.same(&other.target)
    }
}

/// The same regions in the same order.
pub open spec fn same_region_ids(left: Seq<Region>, right: Seq<Region>) -> bool {
    &&& left.len() == right.len()
    &&& forall|i: int| 0 <= i < left.len() ==> (#[trigger] left[i]).id == right[i].id
}

/// Two volume sources that differ in their signals at most.
pub open spec fn same_volume_source_but_signal(left: VolumeSource, right: VolumeSource) -> bool {
    &&& left.region == right.region
    &&& left.enabled == right.enabled
    &&& left.profile.alike(right.profile)
    &&& left.parameters.alike(right.parameters)
}

pub open spec fn same_volume_layout(left: Seq<VolumeSource>, right: Seq<VolumeSource>) -> bool {
    &&& left.len() == right.len()
    &&& forall|i: int|
        0 <= i < left.len() ==> same_volume_source_but_signal(#[trigger] left[i], right[i])
}

fn region_ids_eq(left: &Vec<Region>, right: &Vec<Region>) -> (result: bool)
    ensures
        result == same_region_ids(left@, right@),
{
    if left.len() != right.len() {
        return false;
    }
    let mut index: usize = 0;
    while index < left.len()
        invariant
            index <= left@.len(),
            left@.len() == right@.len(),
            forall|i: int| 0 <= i < index ==> (#[trigger] left@[i]).id == right@[i].id,
        decreases left@.len() - index,
    {
        if left[index].id != right[index].id {
            assert(left@[index as int].id != right@[index as int].id);
            return false;
        }
        index = index + 1;
    }
    true
}

pub fn volume_source_layout_eq(left: &Vec<VolumeSource>, right: &Vec<VolumeSource>) -> (result:
    bool)
    ensures
        result == same_volume_layout(left@, right@),
{
    if left.len() != right.len() {
        return false;
    }
    let mut index: usize = 0;
    while index < left.len()
        invariant
            index <= left@.len(),
            left@.len() == right@.len(),
            forall|i: int|
                0 <= i < index ==> same_volume_source_but_signal(
                    #[trigger] left@[i],
                    right@[i],
                ),
        decreases left@.len() - index,
    {
        let one: &VolumeSource = &left[index];
        let other: &VolumeSource = &right[index];
        if !(one.region == other.region && one.enabled == other.enabled && one.profile.same(
            &other.profile,
        ) && one.parameters.same(&other.parameters)) {
            assert(!same_volume_source_but_signal(left@[index as int], right@[index as int]));
            return false;
        }
        index = index + 1;
    }
    true
}

/// The signals of the enabled volume sources, in order.
pub open spec fn enabled_signals_of(sources: Seq<VolumeSource>) -> Seq<TimeSignal> {
    sources.filter(|source: VolumeSource| source.enabled).map_values(
        |source: VolumeSource| source.signal,
    )
}

/// The signals that compiled volume sources run with.
pub fn enabled_signals(sources: &Vec<VolumeSource>) -> (result: Vec<TimeSignal>)
    ensures
        result@ == enabled_signals_of(sources@),
{
    let ghost enabled = |source: VolumeSource| source.enabled;
    let mut signals: Vec<TimeSignal> = Vec::new();
    let mut index: usize = 0;
    assert(sources@.take(0).filter(enabled) =~= Seq::<VolumeSource>::empty()) by {
        reveal(Seq::filter);
    }
    assert(signals@ =~= enabled_signals_of(sources@.take(0)));
    while index < sources.len()
        invariant
            index <= sources@.len(),
            signals@ == enabled_signals_of(sources@.take(index as int)),
        decreases sources@.len() - index,
    {
        proof {
            let before = sources@.take(index as int);
            let next = sources@.take(index + 1);
            assert(next =~= before.push(sources@[index as int]));
            assert(next.drop_last() =~= before);
            reveal(Seq::filter);
            assert(enabled_signals_of(next) =~= if sources@[index as int].enabled {
                enabled_signals_of(before).push(sources@[index as int].signal)
            } else {
                enabled_signals_of(before)
            });
        }
        if sources[index].enabled {
            signals.push(sources[index].signal);
        }
        index = index + 1;
    }
    assert(sources@.take(index as int) =~= sources@);
    signals
}

impl SceneComparison {
    /// Part-by-part equality of two scenes.
    pub open spec fn compares(self, left: TopologyScene, right: TopologyScene) -> bool {
        &&& self.geometry == left.geometry.alike(right.geometry)
        &&& self.physics == (left.physics == right.physics)
        &&& self.materials == left.materials.alike(right.materials)
        &&& self.regions == left.regions.alike(right.regions)
        &&& self.region_ids == same_region_ids(left.regions@, right.regions@)
        &&& self.face_assignments == left.face_assignments.alike(right.face_assignments)
        &&& self.outer_boundaries == left.outer_boundaries.alike(right.outer_boundaries)
        &&& self.volume_sources == left.volume_sources.alike(right.volume_sources)
        &&& self.volume_layout == same_volume_layout(left.volume_sources@, right.volume_sources@)
    }

    pub fn of(left: &TopologyScene, right: &TopologyScene) -> (result: Self)
        ensures
            result.compares(*left, *right),
    {
        SceneComparison {
            geometry: left.geometry.same(&right.geometry),
            physics: left.physics == right.physics,
            materials: left.materials.same(&right.materials),
            regions: left.regions.same(&right.regions),
            region_ids: region_ids_eq(&left.regions, &right.regions),
            face_assignments: left.face_assignments.same(&right.face_assignments),
            outer_boundaries: left.outer_boundaries.same(&right.outer_boundaries),
            volume_sources: left.volume_sources.same(&right.volume_sources),
            volume_layout: volume_source_layout_eq(&left.volume_sources, &right.volume_sources),
        }
    }
}

/// Equal parts imply the coarser comparisons: equal regions have equal ids, and
/// equal volume sources have the same layout.
pub proof fn equal_parts_imply_equal_layouts(
    comparison: SceneComparison,
    left: TopologyScene,
    right: TopologyScene,
)
    requires
        comparison.compares(left, right),
    ensures
        comparison.regions ==> comparison.region_ids,
        comparison.volume_sources ==> comparison.volume_layout,
        comparison.same_operator_inputs() ==> comparison.same_mesh_inputs(),
{
    if comparison.volume_sources {
        assert forall|i: int| 0 <= i < left.volume_sources@.len() implies
            same_volume_source_but_signal(
            #[trigger] left.volume_sources@[i],
            right.volume_sources@[i],
        ) by {
            assert(left.volume_sources@[i].alike(right.volume_sources@[i]));
        }
    }
    if comparison.regions {
        assert forall|i: int| 0 <= i < left.regions@.len() implies (#[trigger] left.regions@[i]).id
            == right.regions@[i].id by {
            assert(left.regions@[i].alike(right.regions@[i]));
        }
    }
}

} // verus!
