//! The authored document: scenes, probes and settings.

use crate::scalar::{Point2, Scalar};
use vstd::prelude::*;

verus! {

/// A coefficient: one number, or a formula over the plane by its source text.
#[derive(Debug)]
pub enum ScalarField {
    Constant(Scalar),
    Formula(String),
}

#[derive(Debug)]
pub struct MaterialParameter {
    pub name: String,
    pub value: Scalar,
}

#[derive(Debug)]
pub enum FieldLaw {
    Linear,
    Polynomial { chi1: ScalarField, chi2: ScalarField, amplitude_bound: Option<ScalarField> },
    Saturable { chi: ScalarField, saturation: ScalarField },
}

#[derive(Debug)]
pub enum TimeDrive {
    Absent,
    ParametricPump { depth: ScalarField, frequency_hz: ScalarField, phase_radians: ScalarField },
    TimeCrystal {
        depth: ScalarField,
        frequency_hz: ScalarField,
        phase_radians: ScalarField,
        sharpness: ScalarField,
    },
    TravellingModulation {
        depth: ScalarField,
        frequency_hz: ScalarField,
        phase_radians: ScalarField,
        wavenumber: ScalarField,
        angle_radians: ScalarField,
    },
}

#[derive(Debug)]
pub struct CoefficientLaw {
    pub field: FieldLaw,
    pub drive: TimeDrive,
    pub alternate: Option<ScalarField>,
    pub inverted: bool,
}

#[derive(Debug)]
#[allow(inconsistent_fields)]
pub enum RateLaw {
    Constant,
    SaturableAbsorption { saturation: ScalarField },
    Polynomial { beta1: ScalarField, beta2: ScalarField, amplitude_bound: Option<ScalarField> },
    VanDerPol { threshold: ScalarField, amplitude_bound: ScalarField },
}

#[derive(Debug)]
pub struct DampingLaw {
    pub rate: RateLaw,
    pub drive: TimeDrive,
}

#[derive(Debug)]
pub struct LossChannel {
    pub base_rate: ScalarField,
    pub law: DampingLaw,
}

#[derive(Debug)]
pub enum RestoringLaw {
    Absent,
    KleinGordon { omega0: ScalarField },
    SineGordon { omega0: ScalarField },
    Phi4 { lambda: ScalarField, amplitude_bound: ScalarField },
}

#[derive(Clone, Copy, Debug, PartialEq, Eq, Structural)]
pub struct Rgb {
    pub red: u8,
    pub green: u8,
    pub blue: u8,
}

#[derive(Debug)]
pub struct Material {
    pub id: u64,
    pub name: String,
    pub mass_density: ScalarField,
    pub stiffness: ScalarField,
    pub damping: ScalarField,
    pub axis_ratio: ScalarField,
    pub parameters: Vec<MaterialParameter>,
    pub color: Rgb,
    pub mass_law: CoefficientLaw,
    pub stiffness_law: CoefficientLaw,
    pub electric_loss: Option<LossChannel>,
    pub magnetic_loss: Option<LossChannel>,
    pub restoring: RestoringLaw,
    pub switch_ramp: Scalar,
}

#[derive(Clone, Copy, Debug, PartialEq, Eq, Structural)]
pub enum ElectromagneticPolarization {
    Tm,
    Te,
}

#[derive(Clone, Copy, Debug, PartialEq, Eq, Structural)]
pub enum PhysicsModel {
    Mechanical,
    Electromagnetic { polarization: ElectromagneticPolarization },
}

#[derive(Clone, Copy, Debug, PartialEq, Eq, Structural)]
pub enum OuterSide {
    Bottom,
    Right,
    Top,
    Left,
}

#[derive(Clone, Copy, Debug, PartialEq, Eq, Structural)]
pub enum CurveTraceSide {
    Left,
    Right,
}

#[derive(Clone, Copy, Debug, PartialEq, Eq, Structural)]
pub enum MaterialFrameAttachment {
    World,
    FollowRegion,
}

#[derive(Clone, Copy, Debug, PartialEq, Eq, Structural)]
pub struct MaterialFrame {
    pub origin: Point2,
    pub angle_radians: Scalar,
    pub attachment: MaterialFrameAttachment,
}

#[derive(Clone, Copy, Debug, PartialEq, Eq, Structural)]
pub struct Region {
    pub id: u64,
    pub material: u64,
    pub frame: MaterialFrame,
}

#[derive(Clone, Copy, Debug, PartialEq, Eq, Structural)]
#[allow(inconsistent_fields)]
pub enum FaceAnchor {
    Outer { side: OuterSide, fraction: Scalar },
    Curve { curve: u64, span: u64, side: CurveTraceSide, parameter: Scalar },
}

#[derive(Clone, Copy, Debug, PartialEq, Eq, Structural)]
pub struct AuthoredFaceAssignment {
    pub anchor: FaceAnchor,
    /// The region on that face; none for an excluded face.
    pub region: Option<u64>,
}

/// A harmonic signal with an offset.
#[derive(Clone, Copy, Debug, PartialEq, Eq, Structural)]
pub struct TimeSignal {
    pub offset: Scalar,
    pub amplitude: Scalar,
    pub frequency_hz: Scalar,
    pub phase_radians: Scalar,
}

#[derive(Clone, Copy, Debug, PartialEq, Eq, Structural)]
pub enum FaceBoundaryCondition {
    Reflecting,
    Impedance { ratio: Scalar },
    SecondOrderOutgoing,
    ElectricWall,
    MagneticWall,
    Neumann { signal: TimeSignal },
    Dirichlet { signal: TimeSignal },
}

#[derive(Clone, Copy, Debug, PartialEq, Eq, Structural)]
pub enum OuterBoundaryCondition {
    Reflecting,
    FirstOrderOutgoing,
    SecondOrderOutgoing,
    ElectricWall,
    MagneticWall,
    Neumann { signal: TimeSignal },
    Dirichlet { signal: TimeSignal },
}

#[derive(Clone, Copy, Debug, PartialEq, Eq, Structural)]
pub struct OuterBoundaryConditions {
    pub bottom: OuterBoundaryCondition,
    pub right: OuterBoundaryCondition,
    pub top: OuterBoundaryCondition,
    pub left: OuterBoundaryCondition,
}

#[derive(Clone, Copy, Debug, PartialEq, Eq, Structural)]
pub enum InternalBoundaryCoupling {
    Independent,
    ThinGap { stiffness_ratio: Scalar },
}

#[derive(Clone, Copy, Debug, PartialEq, Eq, Structural)]
pub enum SpanBehavior {
    Transmitting,
    Separated {
        left: FaceBoundaryCondition,
        right: FaceBoundaryCondition,
        coupling: InternalBoundaryCoupling,
    },
}

#[derive(Clone, Copy, Debug, PartialEq, Eq, Structural)]
pub struct CurveSpan {
    pub id: u64,
    pub behavior: SpanBehavior,
}

#[derive(Clone, Copy, Debug, PartialEq, Eq, Structural)]
pub struct CurveNode {
    pub vertex: Option<u64>,
}

/// A cubic spline by what it is made of, with the parameter interval of each
/// of its spans.
#[derive(Debug)]
pub struct SplineData {
    pub controls: Vec<Point2>,
    pub intervals: Vec<Scalar>,
    pub multiplicities: Vec<u8>,
    pub span_bounds: Vec<(Scalar, Scalar)>,
}

#[derive(Debug)]
pub enum CurveSpline {
    Closed(SplineData),
    Open(SplineData),
}

#[derive(Debug)]
pub struct TopologyCurve {
    pub id: u64,
    pub spline: CurveSpline,
    pub nodes: Vec<CurveNode>,
    pub spans: Vec<CurveSpan>,
}

#[derive(Clone, Copy, Debug, PartialEq, Eq, Structural)]
pub enum TopologyVertexLocation {
    Free(Point2),
    Interior(Point2),
    Outer { side: OuterSide, fraction: Scalar },
}

#[derive(Clone, Copy, Debug, PartialEq, Eq, Structural)]
pub struct TopologyVertex {
    pub id: u64,
    pub location: TopologyVertexLocation,
}

#[derive(Clone, Copy, Debug, PartialEq, Eq, Structural)]
pub struct DomainRect {
    pub min_x: Scalar,
    pub max_x: Scalar,
    pub min_y: Scalar,
    pub max_y: Scalar,
}

#[derive(Debug)]
pub struct TopologyGeometry {
    pub domain: DomainRect,
    pub curves: Vec<TopologyCurve>,
    pub vertices: Vec<TopologyVertex>,
}

#[derive(Debug)]
pub struct VolumeSource {
    pub region: u64,
    pub enabled: bool,
    pub profile: ScalarField,
    pub parameters: Vec<MaterialParameter>,
    pub signal: TimeSignal,
}

#[derive(Debug)]
pub struct TopologyScene {
    pub geometry: TopologyGeometry,
    pub physics: PhysicsModel,
    pub materials: Vec<Material>,
    pub regions: Vec<Region>,
    pub face_assignments: Vec<AuthoredFaceAssignment>,
    pub volume_sources: Vec<VolumeSource>,
    pub outer_boundaries: OuterBoundaryConditions,
}

#[derive(Clone, Copy, Debug, PartialEq, Eq, Structural)]
pub struct PointSource {
    pub enabled: bool,
    pub position: Point2,
    pub width: Scalar,
    pub region: u64,
    pub signal: TimeSignal,
}

#[derive(Clone, Copy, Debug, PartialEq, Eq, Structural)]
pub struct FarFieldSettings {
    pub enabled: bool,
    pub inset: Scalar,
}

impl FarFieldSettings {
    pub open spec fn eq_settings(self, other: Self) -> bool {
        self.enabled == other.enabled && self.inset.eq_num(other.inset)
    }

    pub fn equals(self, other: Self) -> (result: bool)
        ensures
            result == self.eq_settings(other),
    {
        self.enabled == other.enabled && self.inset.equals(other.inset)
    }
}

#[derive(Clone, Copy, Debug, PartialEq, Eq, Structural)]
pub enum ProbeSamplingPreset {
    Low,
    Medium,
    High,
}

impl ProbeSamplingPreset {
    pub open spec fn points(self) -> nat {
        match self {
            ProbeSamplingPreset::Low => 32,
            ProbeSamplingPreset::Medium => 64,
            ProbeSamplingPreset::High => 128,
        }
    }

    /// How many points a line probe samples.
    pub fn spatial_points(self) -> (result: usize)
        ensures
            result as nat == self.points(),
    {
        match self {
            ProbeSamplingPreset::Low => 32,
            ProbeSamplingPreset::Medium => 64,
            ProbeSamplingPreset::High => 128,
        }
    }
}

#[derive(Debug)]
pub struct TopologyBoundaryProbeTarget {
    pub curve: u64,
    pub spans: Vec<u64>,
    pub side: CurveTraceSide,
    pub reversed: bool,
    pub preset: ProbeSamplingPreset,
}

#[derive(Debug)]
pub enum TopologyProbeTarget {
    Point(Point2),
    Segment { start: Point2, end: Point2, preset: ProbeSamplingPreset },
    Boundary(TopologyBoundaryProbeTarget),
    AreaDisk { center: Point2, radius: Scalar },
    AreaRegion(u64),
}

#[derive(Debug)]
pub struct TopologyProbeDefinition {
    pub id: u64,
    pub name: String,
    pub color: Rgb,
    pub enabled: bool,
    pub target: TopologyProbeTarget,
}

#[derive(Clone, Copy, Debug, PartialEq, Eq, Structural)]
pub enum MaterialProperty {
    Density,
    Stiffness,
    Damping,
    WaveSpeed,
    Impedance,
    Anisotropy,
    VolumeSource,
}

#[derive(Clone, Copy, Debug, PartialEq, Eq, Structural)]
pub enum MaterialOverlay {
    Off,
    Regions,
    Subdomains,
    AdaptationTarget,
    Property(MaterialProperty),
}

#[derive(Clone, Copy, Debug, PartialEq, Eq, Structural)]
pub enum VectorOverlay {
    Off,
    ComplementaryField,
    RelativeEnergyFlow,
}

#[derive(Clone, Copy, Debug, PartialEq, Eq, Structural)]
pub struct AdaptationSettings {
    pub enabled: bool,
    pub accuracy_percent: Scalar,
    pub elements_per_wavelength: Scalar,
    pub minimum_edge: Scalar,
    pub maximum_edge: Scalar,
}

/// What is drawn and how the solver runs, as far as a document keeps it.
#[derive(Clone, Copy, Debug, PartialEq, Eq, Structural)]
pub struct PresentationSettings {
    pub grid: bool,
    pub control_polygons: bool,
    pub handles: bool,
    pub accepted_reference: bool,
    pub boundary_conditions: bool,
    pub mesh: bool,
    pub mesh_boundaries: bool,
    pub point_probes: bool,
    pub line_probes: bool,
    pub boundary_probes: bool,
    pub area_probes: bool,
    pub far_field_contour: bool,
    pub probe_labels: bool,
    pub field: bool,
    pub simulation_speed: Scalar,
    pub field_gain: Scalar,
    pub field_auto_exposure: bool,
    pub vector_overlay: VectorOverlay,
    pub vector_overlay_ac_coupled: bool,
    pub vector_overlay_density: Scalar,
    pub vector_overlay_gain: Scalar,
    pub material_overlay: MaterialOverlay,
    pub material_overlay_opacity: Scalar,
    pub material_overlay_auto_range: bool,
    pub material_overlay_logarithmic: bool,
    pub material_overlay_manual_min: Scalar,
    pub material_overlay_manual_max: Scalar,
    pub mesh_edge: Scalar,
    pub adaptation: AdaptationSettings,
    pub grid_scale_filter: bool,
    pub advanced_materials: bool,
}

#[derive(Debug)]
pub struct TopologyDocumentModel {
    pub draft: TopologyScene,
    pub accepted: TopologyScene,
    pub probes: Vec<TopologyProbeDefinition>,
    pub source: PointSource,
    pub far_field: FarFieldSettings,
}

#[derive(Debug)]
pub struct TopologyDocument {
    pub model: TopologyDocumentModel,
    pub presentation: PresentationSettings,
}

} // verus!
