//! Preparation of one topology candidate.
//!
//! A candidate passes through meshing, operator assembly, source compilation,
//! field transfer and measurement. The engine does that work; this module
//! decides which piece of work comes next, what its outcome means, and when
//! the candidate is complete. One call of [`TopologyPreparationJob::next_work`]
//! names the work, [`TopologyPreparationJob::task`] what it is done on, and one
//! call of [`TopologyPreparationJob::accept`] takes its outcome.

use crate::model::{FarFieldSettings, PointSource};
use crate::scalar::Scalar;
use vstd::prelude::*;

verus! {

pub const FAR_FIELD_CONTOUR_POINTS: usize = 256;

/// A value that the engine built and keeps. Equal handles mean the same
/// shared value.
#[derive(Clone, Copy, Debug, PartialEq, Eq, Structural)]
pub struct Artifact {
    pub id: u64,
}

/// A wave operator together with the time step it recommends.
#[derive(Clone, Copy, Debug, PartialEq, Eq, Structural)]
pub struct StepOperator {
    pub artifact: Artifact,
    pub recommended_time_step: Scalar,
}

/// A model that the engine reads coefficients from.
#[derive(Clone, Copy, Debug, PartialEq, Eq, Structural)]
pub enum WaveModel {
    /// The scene as it was authored.
    Authored(Artifact),
    /// The authored scene with its temporal laws removed.
    Stripped(Artifact),
}

#[derive(Clone, Copy, Debug, PartialEq, Eq, Structural)]
pub struct TopologyToken {
    pub document_revision: u64,
    pub topology_revision: u64,
    /// Changes for every mesh-bearing transaction, including fixed-topology
    /// adaptation.
    pub mesh_generation: u64,
}

#[derive(Clone, Copy, Debug, PartialEq, Eq, Structural)]
pub struct AcceptedTopology {
    pub token: TopologyToken,
    pub authored: Artifact,
    pub snapshot: Artifact,
    pub plan: Artifact,
}

/// What the engine says of a compiled scene when it is held against the scene
/// it was compiled from.
#[derive(Debug)]
pub struct CompiledTopologyScene {
    pub revision: u64,
    pub snapshot: Artifact,
    pub plan_geometry_revision: u64,
    pub geometry_matches: bool,
    /// The face assignments resolved on the compiled topology: whether they
    /// are the compiled ones, or why they do not resolve.
    pub assignments: Result<bool, String>,
    /// The plan derived from those assignments: whether it is the compiled
    /// one, or why there is none.
    pub expected_plan: Result<bool, String>,
    pub domain_matches: bool,
    pub model_valid: bool,
    /// The plan with its atoms merged to the meshing tolerance.
    pub coarsened: Result<Artifact, String>,
}

pub open spec fn mismatch_text() -> Seq<char> {
    "Compiled topology does not match its authored scene"@
}

pub open spec fn mismatch_prefix() -> Seq<char> {
    "Compiled topology does not match its authored scene: "@
}

pub open spec fn coarsening_prefix() -> Seq<char> {
    "Compiled topology could not be prepared for meshing: "@
}

impl CompiledTopologyScene {
    /// Whether every part of the compiled scene is the one the authored scene
    /// leads to.
    pub open spec fn consistent(self) -> bool {
        &&& self.plan_geometry_revision == self.revision
        &&& self.geometry_matches
        &&& self.assignments == Ok::<bool, String>(true)
        &&& self.expected_plan == Ok::<bool, String>(true)
        &&& self.domain_matches
        &&& self.model_valid
    }
}

/// What is said of a compiled scene that is refused.
pub open spec fn refusal(compiled: CompiledTopologyScene) -> Seq<char> {
    if let Err(issue) = compiled.assignments {
        mismatch_prefix() + issue@
    } else if let Err(issue) = compiled.expected_plan {
        mismatch_prefix() + issue@
    } else if !compiled.consistent() {
        mismatch_text()
    } else if let Err(issue) = compiled.coarsened {
        coarsening_prefix() + issue@
    } else {
        Seq::empty()
    }
}

impl AcceptedTopology {
    pub fn new(
        document_revision: u64,
        mesh_generation: u64,
        authored: Artifact,
        compiled: &CompiledTopologyScene,
    ) -> (result: Result<Self, String>)
        ensures
            result is Ok <==> compiled.consistent() && compiled.coarsened is Ok,
            result matches Ok(accepted) ==> accepted == (AcceptedTopology {
                token: TopologyToken {
                    document_revision,
                    topology_revision: compiled.revision,
                    mesh_generation,
                },
                authored,
                snapshot: compiled.snapshot,
                plan: compiled.coarsened->Ok_0,
            }),
            result matches Err(issue) ==> issue@ == refusal(*compiled),
    {
        let assignments_match: bool = match &compiled.assignments {
            Ok(matched) => *matched,
            Err(issue) => {
                return Err(
                    crate::text::joined(
                        "Compiled topology does not match its authored scene: ",
                        issue.as_str(),
                    ),
                );
            },
        };
        let plan_matches: bool = match &compiled.expected_plan {
            Ok(matched) => *matched,
            Err(issue) => {
                return Err(
                    crate::text::joined(
                        "Compiled topology does not match its authored scene: ",
                        issue.as_str(),
                    ),
                );
            },
        };
        if compiled.plan_geometry_revision != compiled.revision || !compiled.geometry_matches
            || !assignments_match || !plan_matches || !compiled.domain_matches
            || !compiled.model_valid {
            return Err("Compiled topology does not match its authored scene".to_owned());
        }
        match &compiled.coarsened {
            Ok(plan) => Ok(
                AcceptedTopology {
                    token: TopologyToken {
                        document_revision,
                        topology_revision: compiled.revision,
                        mesh_generation,
                    },
                    authored,
                    snapshot: compiled.snapshot,
                    plan: *plan,
                },
            ),
            Err(issue) => Err(
                crate::text::joined(
                    "Compiled topology could not be prepared for meshing: ",
                    issue.as_str(),
                ),
            ),
        }
    }
}

/// Wall-clock breakdown of one candidate's preparation, in milliseconds.
#[derive(Clone, Copy, Debug, PartialEq, Eq, Structural)]
pub struct TopologyPreparationTiming {
    /// Time spent advancing the work, without the idle time between frames.
    pub work_ms: Scalar,
    pub meshing_ms: Scalar,
    pub assembly_ms: Scalar,
    pub transfer_ms: Scalar,
    pub sources_ms: Scalar,
    pub measurements_ms: Scalar,
    pub slices: u32,
    pub longest_slice_ms: Scalar,
}

impl TopologyPreparationTiming {
    pub open spec fn none() -> Self {
        TopologyPreparationTiming {
            work_ms: Scalar::zero_num(),
            meshing_ms: Scalar::zero_num(),
            assembly_ms: Scalar::zero_num(),
            transfer_ms: Scalar::zero_num(),
            sources_ms: Scalar::zero_num(),
            measurements_ms: Scalar::zero_num(),
            slices: 0,
            longest_slice_ms: Scalar::zero_num(),
        }
    }

    pub fn total_ms(self) -> (result: Scalar)
        ensures
            result == self.work_ms,
    {
        self.work_ms
    }
}

impl Default for TopologyPreparationTiming {
    fn default() -> (result: Self)
        ensures
            result == Self::none(),
    {
        TopologyPreparationTiming {
            work_ms: Scalar::zero(),
            meshing_ms: Scalar::zero(),
            assembly_ms: Scalar::zero(),
            transfer_ms: Scalar::zero(),
            sources_ms: Scalar::zero(),
            measurements_ms: Scalar::zero(),
            slices: 0,
            longest_slice_ms: Scalar::zero(),
        }
    }
}

/// How a request relates to the active topology.
#[derive(Clone, Copy, Debug, PartialEq, Eq, Structural)]
pub struct PreparationIntent {
    /// Whether the field starts from zero.
    pub fresh: bool,
    /// Whether an unchanged plan must be remeshed anyway.
    pub force_rebuild: bool,
    /// Whether a repair refills its band at the sizes adaptation requested
    /// there rather than at the meshing target.
    pub preserve_adaptation: bool,
    /// Whether the solver must be handed over even if its inputs are those of
    /// the active topology.
    pub require_solver_handoff: bool,
}

#[derive(Clone, Copy, Debug, PartialEq, Eq, Structural)]
pub struct MeshingOptions {
    pub curve_tolerance: Scalar,
    pub target_edge_length: Scalar,
    pub minimum_angle_degrees: Scalar,
    pub max_vertices: usize,
    pub max_triangles: usize,
    pub max_refinement_steps: usize,
}

impl MeshingOptions {
    pub open spec fn eq_options(self, other: Self) -> bool {
        &&& self.curve_tolerance.eq_num(other.curve_tolerance)
        &&& self.target_edge_length.eq_num(other.target_edge_length)
        &&& self.minimum_angle_degrees.eq_num(other.minimum_angle_degrees)
        &&& self.max_vertices == other.max_vertices
        &&& self.max_triangles == other.max_triangles
        &&& self.max_refinement_steps == other.max_refinement_steps
    }

    pub fn equals(self, other: Self) -> (result: bool)
        ensures
            result == self.eq_options(other),
    {
        self.curve_tolerance.equals(other.curve_tolerance) && self.target_edge_length.equals(
            other.target_edge_length,
        ) && self.minimum_angle_degrees.equals(other.minimum_angle_degrees) && self.max_vertices
            == other.max_vertices && self.max_triangles == other.max_triangles
            && self.max_refinement_steps == other.max_refinement_steps
    }
}

#[derive(Clone, Copy, Debug, PartialEq, Eq, Structural)]
pub enum TopologyFullRebuildReason {
    DomainChanged,
    MeshingOptionsChanged,
    Requested,
    TraceIdentityChanged,
    RepairFailed,
    /// A reason of the engine's own comparison of two plans.
    PlanChanged(u64),
}

#[derive(Clone, Copy, Debug, PartialEq, Eq, Structural)]
pub enum TopologyMeshUpdateAction {
    Reuse,
    /// The part of the plan to carve and refill.
    Repair(Artifact),
    FullRebuild(TopologyFullRebuildReason),
}

#[derive(Clone, Copy, Debug, PartialEq, Eq, Structural)]
pub enum PreparedSolverUpdate {
    FullHandoff,
    SourceWeightsOnly,
    SourceDrivesOnly,
    MeasurementsOnly,
}

#[derive(Clone, Copy, Debug, PartialEq, Eq, Structural)]
pub struct PreparedCanonicalTransfer {
    pub primary: Artifact,
    pub complementary: Artifact,
    pub thin_gap: Artifact,
    pub outgoing: Artifact,
}

#[derive(Clone, Copy, Debug, PartialEq, Eq, Structural)]
pub enum TopologyPreparationPhase {
    Repairing,
    Meshing,
    Assembling,
    AssemblingCanonical,
    Transferring,
    TransferringCanonical,
    CompilingSources,
    CompilingMeasurements,
    Ready,
    Failed,
}

impl TopologyPreparationPhase {
    pub open spec fn label_text(self) -> Seq<char> {
        match self {
            Self::Repairing => "Repairing the mesh"@,
            Self::Meshing => "Mesh rebuilding"@,
            Self::Assembling => "Assembling wave operator"@,
            Self::AssemblingCanonical => "Compiling canonical constitutive state"@,
            Self::Transferring => "Carrying the field across"@,
            Self::TransferringCanonical => "Preparing canonical field transfer"@,
            Self::CompilingSources => "Compiling sources"@,
            Self::CompilingMeasurements => "Compiling probes"@,
            Self::Ready => "Ready for GPU upload"@,
            Self::Failed => "Preparation failed"@,
        }
    }

    pub fn label(self) -> (result: &'static str)
        ensures
            result@ == self.label_text(),
    {
        match self {
            Self::Repairing => "Repairing the mesh",
            Self::Meshing => "Mesh rebuilding",
            Self::Assembling => "Assembling wave operator",
            Self::AssemblingCanonical => "Compiling canonical constitutive state",
            Self::Transferring => "Carrying the field across",
            Self::TransferringCanonical => "Preparing canonical field transfer",
            Self::CompilingSources => "Compiling sources",
            Self::CompilingMeasurements => "Compiling probes",
            Self::Ready => "Ready for GPU upload",
            Self::Failed => "Preparation failed",
        }
    }
}

#[derive(Debug)]
pub struct TopologyPreparationError {
    pub token: TopologyToken,
    pub phase: TopologyPreparationPhase,
    pub message: String,
}

impl Clone for TopologyPreparationError {
    fn clone(&self) -> (result: Self)
        ensures
            result == *self,
    {
        TopologyPreparationError {
            token: self.token,
            phase: self.phase,
            message: self.message.clone(),
        }
    }
}

impl TopologyPreparationError {
    /// The phase that failed, a colon, and what went wrong.
    pub fn describe(&self) -> (result: String)
        ensures
            result@ == self.phase.label_text() + ": "@ + self.message@,
    {
        let head: String = crate::text::joined(self.phase.label(), ": ");
        crate::text::joined(head.as_str(), self.message.as_str())
    }
}

/// A complete candidate.
#[derive(Debug)]
pub struct PreparedTopology {
    pub bundle: AcceptedTopology,
    pub mesh: Artifact,
    pub operator: Artifact,
    pub canonical_operator: StepOperator,
    /// The time-driven operator over the same base, when the document carries
    /// a material law.
    pub canonical_temporal_operator: Option<StepOperator>,
    /// The authored model with its temporal laws removed, on a driven
    /// generation.
    pub stripped_model: Option<Artifact>,
    pub canonical_forcing: Artifact,
    pub canonical_transfer: Option<PreparedCanonicalTransfer>,
    pub volume_sources: Artifact,
    pub probes: Artifact,
    pub far_field: Option<Result<Artifact, String>>,
    pub point_source: PointSource,
    pub probe_definitions: Artifact,
    pub far_field_settings: FarFieldSettings,
    pub transfer: Option<Artifact>,
    /// Smallest transaction that can publish this candidate.
    pub solver_update: PreparedSolverUpdate,
    pub fresh: bool,
    pub mesh_action: TopologyMeshUpdateAction,
    pub operator_reused: bool,
    pub adapted: bool,
    /// What a repair kept, removed and inserted, when the mesh was carved.
    pub carve: Option<Artifact>,
    /// Why a repair was abandoned for a full rebuild, when it was.
    pub repair_fallback: Option<String>,
    pub timing: TopologyPreparationTiming,
    /// Options the mesh was built with.
    pub meshing: MeshingOptions,
}

pub(crate) fn clone_far_field(far_field: &Option<Result<Artifact, String>>) -> (result: Option<
    Result<Artifact, String>,
>)
    ensures
        result == *far_field,
{
    match far_field {
        None => None,
        Some(Ok(stencil)) => Some(Ok(*stencil)),
        Some(Err(issue)) => Some(Err(issue.clone())),
    }
}

pub(crate) fn clone_text(text: &Option<String>) -> (result: Option<String>)
    ensures
        result == *text,
{
    match text {
        None => None,
        Some(text) => Some(text.clone()),
    }
}

impl Clone for PreparedTopology {
    fn clone(&self) -> (result: Self)
        ensures
            result == *self,
    {
        PreparedTopology {
            bundle: self.bundle,
            mesh: self.mesh,
            operator: self.operator,
            canonical_operator: self.canonical_operator,
            canonical_temporal_operator: self.canonical_temporal_operator,
            stripped_model: self.stripped_model,
            canonical_forcing: self.canonical_forcing,
            canonical_transfer: self.canonical_transfer,
            volume_sources: self.volume_sources,
            probes: self.probes,
            far_field: clone_far_field(&self.far_field),
            point_source: self.point_source,
            probe_definitions: self.probe_definitions,
            far_field_settings: self.far_field_settings,
            transfer: self.transfer,
            solver_update: self.solver_update,
            fresh: self.fresh,
            mesh_action: self.mesh_action,
            operator_reused: self.operator_reused,
            adapted: self.adapted,
            carve: self.carve,
            repair_fallback: clone_text(&self.repair_fallback),
            timing: self.timing,
            meshing: self.meshing,
        }
    }
}

impl PreparedTopology {
    /// The step this generation should run at: the temporal operator's where
    /// there is one, because it is bounded over its whole trajectory.
    pub fn recommended_time_step(&self) -> (result: Scalar)
        ensures
            result == (match self.canonical_temporal_operator {
                Some(temporal) => temporal.recommended_time_step,
                None => self.canonical_operator.recommended_time_step,
            }),
    {
        match &self.canonical_temporal_operator {
            Some(temporal) => temporal.recommended_time_step,
            None => self.canonical_operator.recommended_time_step,
        }
    }

    /// Whether this generation carries a material drive.
    pub fn driven(&self) -> (result: bool)
        ensures
            result == (self.canonical_temporal_operator is Some),
    {
        self.canonical_temporal_operator.is_some()
    }

    /// The model this generation's operator and stencils were compiled
    /// against: the authored one with its temporal laws removed.
    pub fn fixed_model(&self) -> (result: Artifact)
        ensures
            result == (match self.stripped_model {
                Some(model) => model,
                None => self.bundle.authored,
            }),
    {
        match &self.stripped_model {
            Some(model) => *model,
            None => self.bundle.authored,
        }
    }
}

} // verus!
