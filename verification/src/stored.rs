//! The shape of a stored document. Each type here is one object of the file;
//! reading and writing the text of the file is left to the application.

use crate::model::Rgb;
use crate::scalar::Scalar;
use vstd::prelude::*;

verus! {

pub const TOPOLOGY_FILE_VERSION: u32 = 22;

pub const MAX_FILE_BYTES: usize = 2097152;

/// A pair of coordinates.
#[derive(Clone, Copy, Debug, PartialEq, Eq, Structural)]
pub struct StoredPoint {
    pub x: Scalar,
    pub y: Scalar,
}

#[derive(Debug)]
pub struct FileV22 {
    pub version: u32,
    pub model: StoredTopologyDocumentModel,
    pub presentation: StoredPresentation,
}

#[derive(Debug)]
pub struct StoredTopologyDocumentModel {
    pub draft: StoredTopologyScene,
    pub accepted: StoredTopologyScene,
    pub probes: Vec<StoredTopologyProbe>,
    pub source: StoredPointSource,
    pub far_field: StoredFarField,
}

/// The rectangle of a scene in the order left, right, bottom, top.
#[derive(Clone, Copy, Debug, PartialEq, Eq, Structural)]
pub struct StoredDomain {
    pub min_x: Scalar,
    pub max_x: Scalar,
    pub min_y: Scalar,
    pub max_y: Scalar,
}

#[derive(Debug)]
pub struct StoredTopologyScene {
    pub domain: StoredDomain,
    pub physics: StoredPhysicsModel,
    pub materials: Vec<StoredMaterial>,
    pub regions: Vec<StoredRegion>,
    pub face_assignments: Vec<StoredFaceAssignment>,
    pub volume_sources: Vec<StoredVolumeSource>,
    pub outer_boundaries: StoredOuterBoundaries,
    pub curves: Vec<StoredCurve>,
    pub vertices: Vec<StoredVertex>,
}

#[derive(Debug)]
pub struct StoredMaterial {
    pub id: u64,
    pub name: String,
    pub mass_density: StoredScalarField,
    pub stiffness: StoredScalarField,
    pub damping: StoredScalarField,
    pub axis_ratio: StoredScalarField,
    pub parameters: Vec<StoredParameter>,
    pub color: Rgb,
    pub mass_law: StoredCoefficientLaw,
    pub stiffness_law: StoredCoefficientLaw,
    pub electric_loss: Option<StoredLossChannel>,
    pub magnetic_loss: Option<StoredLossChannel>,
    pub restoring: StoredRestoringLaw,
    pub switch_ramp: Scalar,
}

#[derive(Debug)]
pub struct StoredParameter {
    pub name: String,
    pub value: Scalar,
}

#[derive(Clone, Copy, Debug, PartialEq, Eq, Structural)]
pub struct StoredRegion {
    pub id: u64,
    pub material: u64,
    pub frame: StoredFrame,
}

#[derive(Clone, Copy, Debug, PartialEq, Eq, Structural)]
pub struct StoredFrame {
    pub origin: StoredPoint,
    pub angle_radians: Scalar,
    pub attachment: StoredFrameAttachment,
}

#[derive(Clone, Copy, Debug, PartialEq, Eq, Structural)]
pub enum StoredFrameAttachment {
    World,
    FollowRegion,
}

#[derive(Debug)]
pub struct StoredVolumeSource {
    pub region: u64,
    pub enabled: bool,
    pub profile: StoredScalarField,
    pub parameters: Vec<StoredParameter>,
    pub signal: StoredTimeSignal,
}

#[derive(Debug)]
pub struct StoredCurve {
    pub id: u64,
    pub spline: StoredSpline,
    pub nodes: Vec<Option<u64>>,
    pub spans: Vec<StoredSpan>,
}

#[derive(Debug)]
pub enum StoredSpline {
    Closed { controls: Vec<StoredPoint>, intervals: Vec<Scalar>, multiplicities: Vec<u8> },
    Open { controls: Vec<StoredPoint>, intervals: Vec<Scalar>, multiplicities: Vec<u8> },
}

#[derive(Clone, Copy, Debug, PartialEq, Eq, Structural)]
pub struct StoredSpan {
    pub id: u64,
    pub behavior: StoredSpanBehavior,
}

#[derive(Clone, Copy, Debug, PartialEq, Eq, Structural)]
pub enum StoredSpanBehavior {
    Transmitting,
    Boundary { left: StoredFaceCondition, right: StoredFaceCondition, coupling: StoredCoupling },
}

#[derive(Clone, Copy, Debug, PartialEq, Eq, Structural)]
pub enum StoredCoupling {
    Independent,
    ThinGap { stiffness_ratio: Scalar },
}

#[derive(Clone, Copy, Debug, PartialEq, Eq, Structural)]
pub struct StoredVertex {
    pub id: u64,
    pub location: StoredVertexLocation,
}

#[derive(Clone, Copy, Debug, PartialEq, Eq, Structural)]
pub enum StoredVertexLocation {
    Free { point: StoredPoint },
    Interior { point: StoredPoint },
    Outer { side: StoredOuterSide, fraction: Scalar },
}

#[derive(Clone, Copy, Debug, PartialEq, Eq, Structural)]
pub enum StoredOuterSide {
    Bottom,
    Right,
    Top,
    Left,
}

#[derive(Clone, Copy, Debug, PartialEq, Eq, Structural)]
pub struct StoredFaceAssignment {
    pub anchor: StoredFaceAnchor,
    pub region: Option<u64>,
}

#[derive(Clone, Copy, Debug, PartialEq, Eq, Structural)]
#[allow(inconsistent_fields)]
pub enum StoredFaceAnchor {
    Outer { side: StoredOuterSide, fraction: Scalar },
    Curve { curve: u64, span: u64, side: StoredCurveSide, parameter: Scalar },
}

#[derive(Clone, Copy, Debug, PartialEq, Eq, Structural)]
pub enum StoredCurveSide {
    Left,
    Right,
}

#[derive(Debug)]
pub struct StoredTopologyProbe {
    pub id: u64,
    pub name: String,
    pub color: Rgb,
    pub enabled: bool,
    pub target: StoredTopologyProbeTarget,
}

#[derive(Debug)]
pub enum StoredTopologyProbeTarget {
    Point { position: StoredPoint },
    Segment { start: StoredPoint, end: StoredPoint, preset: StoredProbeSamplingPreset },
    Boundary {
        curve: u64,
        spans: Vec<u64>,
        side: StoredCurveSide,
        reversed: bool,
        preset: StoredProbeSamplingPreset,
    },
    AreaDisk { center: StoredPoint, radius: Scalar },
    AreaRegion { region: u64 },
}

#[derive(Clone, Copy, Debug, PartialEq, Eq, Structural)]
pub struct StoredPointSource {
    pub enabled: bool,
    pub position: StoredPoint,
    pub width: Scalar,
    pub region: u64,
    pub signal: StoredTimeSignal,
}

#[derive(Clone, Copy, Debug, PartialEq, Eq, Structural)]
pub struct StoredFarField {
    pub enabled: bool,
    pub inset: Scalar,
}

#[derive(Clone, Copy, Debug, PartialEq, Eq, Structural)]
pub struct StoredPresentation {
    pub grid: bool,
    pub control_polygons: bool,
    pub handles: bool,
    pub accepted_reference: bool,
    pub boundary_conditions: bool,
    pub mesh: bool,
    pub mesh_boundaries: bool,
    /// Retired: the adaptation target is a `material_overlay` choice now. It is
    /// still read, so that a scene that had it on is migrated, and still
    /// written as `false`.
    pub adaptation_target: bool,
    pub point_probes: bool,
    pub line_probes: bool,
    pub boundary_probes: bool,
    pub area_probes: bool,
    pub far_field_contour: bool,
    pub probe_labels: bool,
    pub field: bool,
    pub simulation_speed: Scalar,
    pub field_gain: Scalar,
    pub field_auto_exposure: bool,
    pub vector_overlay: StoredVectorOverlay,
    /// Retired smoothing of the arrows, written as `false`.
    pub vector_overlay_smoothed: bool,
    pub vector_overlay_ac_coupled: Option<bool>,
    pub vector_overlay_density: Scalar,
    pub vector_overlay_gain: Scalar,
    pub material_overlay: StoredMaterialOverlay,
    pub material_overlay_opacity: Scalar,
    pub material_overlay_auto_range: bool,
    pub material_overlay_logarithmic: bool,
    pub material_overlay_manual_min: Scalar,
    pub material_overlay_manual_max: Scalar,
    pub mesh_edge: Scalar,
    pub adaptation_enabled: bool,
    pub adaptation_accuracy_percent: Scalar,
    pub adaptation_elements_per_wavelength: Scalar,
    pub adaptation_minimum_edge: Scalar,
    pub adaptation_maximum_edge: Scalar,
    pub grid_scale_filter: bool,
    pub advanced_materials: bool,
}

#[derive(Clone, Copy, Debug, PartialEq, Eq, Structural)]
pub enum StoredVectorOverlay {
    Off,
    ComplementaryField,
    RelativeEnergyFlow,
}

#[derive(Clone, Copy, Debug, PartialEq, Eq, Structural)]
pub enum StoredMaterialOverlay {
    Off,
    Regions,
    Subdomains,
    AdaptationTarget,
    Property(StoredMaterialProperty),
}

#[derive(Clone, Copy, Debug, PartialEq, Eq, Structural)]
pub enum StoredMaterialProperty {
    Density,
    Stiffness,
    Damping,
    WaveSpeed,
    Impedance,
    Anisotropy,
    VolumeSource,
}

#[derive(Clone, Copy, Debug, PartialEq, Eq, Structural)]
pub enum StoredProbeSamplingPreset {
    Low,
    Medium,
    High,
}

#[derive(Clone, Copy, Debug, PartialEq, Eq, Structural)]
pub enum StoredPhysicsModel {
    Mechanical,
    Electromagnetic { polarization: StoredPolarization },
}

#[derive(Clone, Copy, Debug, PartialEq, Eq, Structural)]
pub enum StoredPolarization {
    Tm,
    Te,
}

/// A stored coefficient.
#[derive(Debug)]
pub enum StoredScalarField {
    Constant { value: Scalar },
    Formula { source: String },
}

#[derive(Debug)]
pub struct StoredCoefficientLaw {
    pub field: StoredFieldLaw,
    pub drive: StoredTimeDrive,
    pub alternate: Option<StoredScalarField>,
    pub inverted: bool,
}

#[derive(Debug)]
pub enum StoredFieldLaw {
    Linear,
    Polynomial {
        chi1: StoredScalarField,
        chi2: StoredScalarField,
        amplitude_bound: Option<StoredScalarField>,
    },
    Saturable { chi: StoredScalarField, saturation: StoredScalarField },
}

#[derive(Debug)]
pub enum StoredTimeDrive {
    Absent,
    ParametricPump {
        depth: StoredScalarField,
        frequency_hz: StoredScalarField,
        phase_radians: StoredScalarField,
    },
    TimeCrystal {
        depth: StoredScalarField,
        frequency_hz: StoredScalarField,
        phase_radians: StoredScalarField,
        sharpness: StoredScalarField,
    },
    TravellingModulation {
        depth: StoredScalarField,
        frequency_hz: StoredScalarField,
        phase_radians: StoredScalarField,
        wavenumber: StoredScalarField,
        angle_radians: StoredScalarField,
    },
}

#[derive(Debug)]
pub struct StoredDampingLaw {
    pub rate: StoredRateLaw,
    pub drive: StoredTimeDrive,
}

#[derive(Debug)]
pub struct StoredLossChannel {
    pub base_rate: StoredScalarField,
    pub law: StoredDampingLaw,
}

#[derive(Debug)]
#[allow(inconsistent_fields)]
pub enum StoredRateLaw {
    Constant,
    SaturableAbsorption { saturation: StoredScalarField },
    Polynomial {
        beta1: StoredScalarField,
        beta2: StoredScalarField,
        amplitude_bound: Option<StoredScalarField>,
    },
    VanDerPol { threshold: StoredScalarField, amplitude_bound: StoredScalarField },
}

#[derive(Debug)]
pub enum StoredRestoringLaw {
    Absent,
    KleinGordon { omega0: StoredScalarField },
    SineGordon { omega0: StoredScalarField },
    Phi4 { lambda: StoredScalarField, amplitude_bound: StoredScalarField },
}

#[derive(Clone, Copy, Debug, PartialEq, Eq, Structural)]
pub enum StoredFaceCondition {
    Reflecting,
    Impedance { ratio: Scalar },
    SecondOrderOutgoing,
    ElectricWall,
    MagneticWall,
    Neumann { signal: StoredTimeSignal },
    Dirichlet { signal: StoredTimeSignal },
}

#[derive(Clone, Copy, Debug, PartialEq, Eq, Structural)]
pub enum StoredOuterBoundaryCondition {
    Reflecting,
    FirstOrderOutgoing,
    SecondOrderOutgoing,
    ElectricWall,
    MagneticWall,
    Neumann { signal: StoredTimeSignal },
    Dirichlet { signal: StoredTimeSignal },
}

/// The conditions of the four walls, in the order of the file.
#[derive(Clone, Copy, Debug, PartialEq, Eq, Structural)]
pub struct StoredOuterBoundaries {
    pub bottom: StoredOuterBoundaryCondition,
    pub right: StoredOuterBoundaryCondition,
    pub top: StoredOuterBoundaryCondition,
    pub left: StoredOuterBoundaryCondition,
}

#[derive(Clone, Copy, Debug, PartialEq, Eq, Structural)]
pub enum StoredTimeSignal {
    Harmonic {
        offset: Scalar,
        amplitude: Scalar,
        frequency_hz: Scalar,
        phase_radians: Scalar,
    },
}

/// What a material is given for a law that its file does not mention.
pub fn stored_linear_coefficient_law() -> (result: StoredCoefficientLaw)
    ensures
        result == (StoredCoefficientLaw {
            field: StoredFieldLaw::Linear,
            drive: StoredTimeDrive::Absent,
            alternate: None,
            inverted: false,
        }),
{
    StoredCoefficientLaw {
        field: StoredFieldLaw::Linear,
        drive: StoredTimeDrive::Absent,
        alternate: None,
        inverted: false,
    }
}

/// What a material is given for a restoring law that its file does not mention.
pub fn stored_no_restoring_law() -> (result: StoredRestoringLaw)
    ensures
        result == StoredRestoringLaw::Absent,
{
    StoredRestoringLaw::Absent
}

} // verus!
