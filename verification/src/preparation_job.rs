//! The state machine that takes one candidate from a request to a finished
//! topology.

use crate::collect::lists;
use crate::model::{FarFieldSettings, PointSource};
use crate::preparation::{
    AcceptedTopology, Artifact, MeshingOptions, PreparedCanonicalTransfer, PreparedSolverUpdate,
    PreparedTopology, StepOperator, TopologyFullRebuildReason, TopologyMeshUpdateAction,
    TopologyPreparationError, TopologyPreparationPhase, TopologyPreparationTiming,
};
use vstd::prelude::*;

verus! {

/// Part-by-part equality of the scene being prepared with the active one.
#[derive(Clone, Copy, Debug, PartialEq, Eq, Structural)]
pub struct SceneComparison {
    pub geometry: bool,
    pub physics: bool,
    pub materials: bool,
    pub regions: bool,
    /// The same regions in the same order, whatever they are made of.
    pub region_ids: bool,
    pub face_assignments: bool,
    pub outer_boundaries: bool,
    pub volume_sources: bool,
    /// The same volume sources up to their signals.
    pub volume_layout: bool,
}

impl SceneComparison {
    pub open spec fn same_scene(self) -> bool {
        &&& self.same_operator_inputs()
        &&& self.volume_sources
    }

    pub open spec fn same_operator_inputs(self) -> bool {
        &&& self.geometry
        &&& self.physics
        &&& self.materials
        &&& self.regions
        &&& self.face_assignments
        &&& self.outer_boundaries
    }

    pub open spec fn same_mesh_inputs(self) -> bool {
        &&& self.geometry
        &&& self.face_assignments
        &&& self.region_ids
    }

    pub fn authored_scene_eq(self) -> (result: bool)
        ensures
            result == self.same_scene(),
    {
        self.operator_scene_eq() && self.volume_sources
    }

    /// Whether the wave operator would come out the same.
    pub fn operator_scene_eq(self) -> (result: bool)
        ensures
            result == self.same_operator_inputs(),
    {
        self.geometry && self.physics && self.materials && self.regions && self.face_assignments
            && self.outer_boundaries
    }

    /// Whether the mesh would come out the same.
    pub fn mesh_scene_eq(self) -> (result: bool)
        ensures
            result == self.same_mesh_inputs(),
    {
        self.geometry && self.face_assignments && self.region_ids
    }
}

/// What the engine says of the candidate's document next to the active
/// topology.
#[derive(Clone, Copy, Debug, PartialEq, Eq, Structural)]
pub struct PreviousComparison {
    pub scene: SceneComparison,
    /// Whether the point sources are equal.
    pub source: bool,
    /// Whether the point sources act at the same place.
    pub source_place: bool,
    /// How the active mesh relates to the candidate's plan.
    pub plan_change: TopologyMeshUpdateAction,
    /// The active mesh under the candidate plan's trace numbering, where the
    /// two numberings can be matched up.
    pub retraced: Option<Artifact>,
    /// The active compiled volume sources with the candidate's signals.
    pub resignalled: Artifact,
}

/// What preparation reads of a document.
#[derive(Clone, Copy, Debug, PartialEq, Eq, Structural)]
pub struct DocumentFacts {
    pub authored: Artifact,
    pub probes: Artifact,
    pub source: PointSource,
    /// Whether the engine can evaluate the source at all.
    pub source_valid: bool,
    pub far_field: FarFieldSettings,
    /// Whether some material carries a temporal law, as [`driven`] says of them.
    pub driven: bool,
}

/// Whether a document is driven. `time_invariant` is the engine's answer on each
/// of its materials.
pub fn driven(time_invariant: &Vec<bool>) -> (result: bool)
    ensures
        result <==> exists|i: int| 0 <= i < time_invariant@.len() && !#[trigger] time_invariant@[i],
{
    let mut index: usize = 0;
    while index < time_invariant.len()
        invariant
            index <= time_invariant@.len(),
            forall|i: int| 0 <= i < index ==> #[trigger] time_invariant@[i],
        decreases time_invariant@.len() - index,
    {
        if !time_invariant[index] {
            assert(!time_invariant@[index as int]);
            return true;
        }
        index = index + 1;
    }
    false
}

/// How compiled forcing relates to the active one.
#[derive(Clone, Copy, Debug, PartialEq, Eq, Structural)]
pub enum ForcingChange {
    Unchanged,
    /// Same supports and weights; the drives differ.
    Drives,
    /// Same supports; the weights differ.
    Weights,
    Layout,
}

/// What remains of the preparation of the canonical primary transfer inside
/// one slice.
#[derive(Clone, Copy, Debug, PartialEq, Eq, Structural)]
pub enum PrimaryStage {
    Idle,
    ThinGap,
    Outgoing,
}

/// What a job was asked for; it does not change while the job runs.
#[derive(Debug)]
pub struct JobRequest {
    pub bundle: AcceptedTopology,
    pub probes: Artifact,
    pub point_source: PointSource,
    pub source_valid: bool,
    pub far_field: FarFieldSettings,
    pub driven: bool,
    pub previous: Option<PreparedTopology>,
    pub comparison: PreviousComparison,
    pub fresh: bool,
    pub operator_reused: bool,
    pub require_solver_handoff: bool,
    /// Whether a carve refills at the sizes adaptation requested.
    pub preserve_adaptation: bool,
    pub adapted: bool,
    pub meshing: MeshingOptions,
    /// The revision of a mesh that is built or carved for the request.
    pub mesh_revision: u64,
}

/// The way to the candidate's mesh.
#[derive(Debug)]
pub struct MeshStage {
    pub action: TopologyMeshUpdateAction,
    /// A carve of the active mesh is running.
    pub carving: bool,
    pub carve: Option<Artifact>,
    pub repair_fallback: Option<String>,
    /// A full mesh build is running.
    pub building: bool,
    pub mesh: Option<Artifact>,
}

/// The way to the candidate's operators.
#[derive(Clone, Copy, Debug, PartialEq, Eq, Structural)]
pub struct AssemblyStage {
    pub assembling: bool,
    pub operator: Option<Artifact>,
    /// Set between the end of assembly and the point-source check that closes
    /// the same slice.
    pub just_finished: bool,
    pub source_validated: bool,
    pub source_validation_count: u32,
    pub assembling_canonical: bool,
    /// A canonical operator waiting for its temporal operator.
    pub pending_canonical: Option<StepOperator>,
    pub canonical_operator: Option<StepOperator>,
    pub temporal_operator: Option<StepOperator>,
}

/// The field transfer, the volume sources and the forcing.
#[derive(Clone, Copy, Debug, PartialEq, Eq, Structural)]
pub struct SourceStage {
    pub transferring: bool,
    pub transfer: Option<Artifact>,
    pub compiling: bool,
    pub volume_sources: Option<Artifact>,
    pub forcing: Option<Artifact>,
    pub forcing_change: ForcingChange,
}

/// The transfer of the canonical state.
#[derive(Clone, Copy, Debug, PartialEq, Eq, Structural)]
pub struct CanonicalStage {
    /// The interpolation of the running slice.
    pub interpolation: Option<Artifact>,
    pub primary_stage: PrimaryStage,
    pub primary: Option<Artifact>,
    pub transferring_vector: bool,
    pub vector: Option<Artifact>,
    pub gap: Option<Artifact>,
    pub transferring_outgoing: bool,
    pub outgoing: Option<Artifact>,
    pub joined: Option<PreparedCanonicalTransfer>,
}

#[derive(Debug)]
pub struct TopologyPreparationJob {
    pub request: JobRequest,
    pub phase: TopologyPreparationPhase,
    /// The authored model with its temporal laws removed, once it is built.
    pub stripped_model: Option<Artifact>,
    pub mesh: MeshStage,
    pub assembly: AssemblyStage,
    pub sources: SourceStage,
    pub canonical: CanonicalStage,
    pub done: bool,
    pub timing: TopologyPreparationTiming,
}

/// One piece of work that only the engine can do.
#[derive(Clone, Copy, Debug, PartialEq, Eq, Structural)]
pub enum Work {
    AdvanceCarve,
    AdvanceMesh,
    StartAssembly,
    AdvanceAssembly,
    PlacePointSource,
    StartCanonicalAssembly,
    AdvanceCanonicalAssembly,
    BuildTemporalOperator,
    BuildIdentityTransfer,
    StartTransfer,
    AdvanceTransfer,
    StartSources,
    AdvanceSources,
    CompileForcing,
    BuildIdentityInterpolation,
    PreparePrimaryTransfer,
    PrepareThinGapTransfer,
    PrepareOutgoingTransfer,
    AdvanceVectorTransfer,
    AdvanceOutgoingTransfer,
    JoinCanonicalTransfer,
    CompileMeasurements,
    /// The job is over.
    Nothing,
}

/// The bucket that a piece of work is timed in.
#[derive(Clone, Copy, Debug, PartialEq, Eq, Structural)]
pub enum TimingBucket {
    Meshing,
    Assembly,
    Transfer,
    Sources,
    Measurements,
    /// Counted in the slice only.
    Uncategorized,
}

impl Work {
    /// Whether the work reads the coefficients without their temporal laws. The
    /// fixed compilers refuse a material that carries one.
    pub open spec fn reads_stripped(self) -> bool {
        self is StartAssembly || self is PlacePointSource || self is StartCanonicalAssembly
            || self is StartSources || self is CompileMeasurements
    }

    pub fn reads_stripped_model(self) -> (result: bool)
        ensures
            result == self.reads_stripped(),
    {
        matches!(
            self,
            Work::StartAssembly | Work::PlacePointSource | Work::StartCanonicalAssembly
            | Work::StartSources | Work::CompileMeasurements
        )
    }

    pub open spec fn bucket_of(self) -> TimingBucket {
        match self {
            Work::AdvanceCarve | Work::AdvanceMesh => TimingBucket::Meshing,
            Work::AdvanceAssembly | Work::AdvanceCanonicalAssembly
            | Work::BuildTemporalOperator => TimingBucket::Assembly,
            Work::BuildIdentityTransfer | Work::AdvanceTransfer | Work::AdvanceVectorTransfer
            | Work::AdvanceOutgoingTransfer => TimingBucket::Transfer,
            Work::AdvanceSources => TimingBucket::Sources,
            Work::CompileMeasurements => TimingBucket::Measurements,
            _ => TimingBucket::Uncategorized,
        }
    }

    pub fn bucket(self) -> (result: TimingBucket)
        ensures
            result == self.bucket_of(),
    {
        match self {
            Work::AdvanceCarve | Work::AdvanceMesh => TimingBucket::Meshing,
            Work::AdvanceAssembly | Work::AdvanceCanonicalAssembly
            | Work::BuildTemporalOperator => TimingBucket::Assembly,
            Work::BuildIdentityTransfer | Work::AdvanceTransfer | Work::AdvanceVectorTransfer
            | Work::AdvanceOutgoingTransfer => TimingBucket::Transfer,
            Work::AdvanceSources => TimingBucket::Sources,
            Work::CompileMeasurements => TimingBucket::Measurements,
            _ => TimingBucket::Uncategorized,
        }
    }
}

/// Where the engine would place a point source.
#[derive(Debug)]
pub struct SourcePlacement {
    /// The regions that the plan meshes.
    pub active_regions: Vec<u64>,
    /// The region that the source position lies in.
    pub placed: Result<u64, String>,
}

/// What came of a piece of work.
#[derive(Debug)]
pub enum WorkOutcome {
    /// A cooperative job used its budget and is not finished.
    Pending,
    /// A cooperative job was set up, or a step without a value was done.
    Started,
    Built(Artifact),
    BuiltOperator(StepOperator),
    Carved { mesh: Artifact, report: Artifact },
    Forced { forcing: Artifact, change: ForcingChange },
    Placed(SourcePlacement),
    /// The compiled probes, and the far field where one was asked for.
    Measured {
        probes: Artifact,
        far_field: Option<Result<Artifact, String>>,
    },
    Failed(String),
}

/// What the caller does next.
#[derive(Debug)]
pub enum Progress {
    /// Ask for the next work of this slice.
    Again,
    /// The slice is over.
    Pause,
    Finished(Result<PreparedTopology, TopologyPreparationError>),
}

impl WorkOutcome {
    /// Whether this is an outcome that the work can have.
    pub open spec fn answers(self, work: Work) -> bool {
        match work {
            Work::AdvanceCarve => self is Pending || self is Carved || self is Failed,
            Work::AdvanceMesh | Work::AdvanceAssembly | Work::AdvanceTransfer | Work::AdvanceSources
            | Work::AdvanceVectorTransfer | Work::AdvanceOutgoingTransfer => self is Pending
                || self is Built || self is Failed,
            Work::AdvanceCanonicalAssembly => self is Pending || self is BuiltOperator
                || self is Failed,
            Work::BuildTemporalOperator => self is BuiltOperator || self is Failed,
            Work::StartAssembly | Work::StartCanonicalAssembly | Work::StartSources
            | Work::PrepareOutgoingTransfer => self is Started || self is Failed,
            Work::StartTransfer | Work::JoinCanonicalTransfer => self is Started,
            Work::PlacePointSource => self is Placed,
            Work::BuildIdentityTransfer | Work::BuildIdentityInterpolation
            | Work::PreparePrimaryTransfer | Work::PrepareThinGapTransfer => self is Built
                || self is Failed,
            Work::CompileForcing => self is Forced || self is Failed,
            Work::CompileMeasurements => self is Measured,
            Work::Nothing => false,
        }
    }

    /// Tests an outcome before it is accepted.
    pub fn fits(&self, work: Work) -> (result: bool)
        ensures
            result == self.answers(work),
    {
        match work {
            Work::AdvanceCarve => matches!(
                self,
                WorkOutcome::Pending | WorkOutcome::Carved { .. } | WorkOutcome::Failed(_)
            ),
            Work::AdvanceMesh | Work::AdvanceAssembly | Work::AdvanceTransfer | Work::AdvanceSources
            | Work::AdvanceVectorTransfer | Work::AdvanceOutgoingTransfer => matches!(
                self,
                WorkOutcome::Pending | WorkOutcome::Built(_) | WorkOutcome::Failed(_)
            ),
            Work::AdvanceCanonicalAssembly => matches!(
                self,
                WorkOutcome::Pending | WorkOutcome::BuiltOperator(_) | WorkOutcome::Failed(_)
            ),
            Work::BuildTemporalOperator => matches!(
                self,
                WorkOutcome::BuiltOperator(_) | WorkOutcome::Failed(_)
            ),
            Work::StartAssembly | Work::StartCanonicalAssembly | Work::StartSources
            | Work::PrepareOutgoingTransfer => matches!(
                self,
                WorkOutcome::Started | WorkOutcome::Failed(_)
            ),
            Work::StartTransfer | Work::JoinCanonicalTransfer => matches!(
                self,
                WorkOutcome::Started
            ),
            Work::PlacePointSource => matches!(self, WorkOutcome::Placed(_)),
            Work::BuildIdentityTransfer | Work::BuildIdentityInterpolation
            | Work::PreparePrimaryTransfer | Work::PrepareThinGapTransfer => matches!(
                self,
                WorkOutcome::Built(_) | WorkOutcome::Failed(_)
            ),
            Work::CompileForcing => matches!(
                self,
                WorkOutcome::Forced { .. } | WorkOutcome::Failed(_)
            ),
            Work::CompileMeasurements => matches!(self, WorkOutcome::Measured { .. }),
            Work::Nothing => false,
        }
    }
}

/// Why a point source cannot be used, if so.
pub open spec fn source_refusal(
    source: PointSource,
    valid: bool,
    placement: SourcePlacement,
) -> Option<Seq<char>> {
    if !valid || !placement.active_regions@.contains(source.region) {
        Some("Point source references an inactive region"@)
    } else if !source.enabled {
        None
    } else {
        match placement.placed {
            Err(issue) => Some("Point source placement is invalid: "@ + issue@),
            Ok(region) => if region == source.region {
                None
            } else {
                Some("Point source position does not lie in its assigned region"@)
            },
        }
    }
}

/// Holds a point source against the regions the plan meshes and the place the
/// engine found for it.
pub fn validate_point_source(
    source: PointSource,
    valid: bool,
    placement: &SourcePlacement,
) -> (result: Result<(), String>)
    ensures
        result is Ok <==> source_refusal(source, valid, *placement) is None,
        result matches Err(issue) ==> source_refusal(source, valid, *placement) == Some(issue@),
{
    if !valid || !lists(&placement.active_regions, source.region) {
        return Err("Point source references an inactive region".to_owned());
    }
    if !source.enabled {
        return Ok(());
    }
    match &placement.placed {
        Err(issue) => Err(
            crate::text::joined("Point source placement is invalid: ", issue.as_str()),
        ),
        Ok(region) => if *region == source.region {
            Ok(())
        } else {
            Err("Point source position does not lie in its assigned region".to_owned())
        },
    }
}

impl TopologyPreparationJob {
    /// Whether the jobs, results and flags fit together.
    pub open spec fn wf(self) -> bool {
        &&& self.request.fresh || self.request.previous is Some
        &&& self.request.operator_reused ==> self.request.previous is Some
        &&& self.request.fresh ==> self.sources.transfer is None && self.canonical.joined is None
        &&& self.request.operator_reused ==> self.sources.transfer is None
        &&& self.canonical.joined is Some ==> self.solver_update() is FullHandoff
        &&& !self.done ==> self.running_wf()
    }

    pub open spec fn running_wf(self) -> bool {
        &&& self.mesh.carving || self.mesh.building || self.mesh.mesh is Some
        &&& !(self.mesh.carving && self.mesh.building)
        &&& self.mesh.carving ==> self.request.previous is Some
        &&& self.mesh.carving || self.mesh.building ==> self.assembly.operator is None && self.mesh.mesh is None
        &&& self.assembly.operator is None ==> !self.request.operator_reused && !self.assembly.source_validated
            && !self.assembly.just_finished && self.assembly.canonical_operator is None
        &&& self.assembly.operator is Some ==> self.mesh.mesh is Some && !self.assembly.assembling
        &&& self.assembly.assembling ==> self.mesh.mesh is Some
        &&& self.assembly.just_finished ==> !self.assembly.source_validated
        &&& self.assembly.assembling_canonical ==> self.assembly.source_validated && self.assembly.canonical_operator
            is None && self.assembly.pending_canonical is None
        &&& self.assembly.pending_canonical is Some ==> self.assembly.source_validated
            && self.assembly.canonical_operator is None && self.request.driven
        &&& self.assembly.canonical_operator is None ==> !self.sources.transferring && self.sources.transfer is None
            && !self.request.operator_reused && self.sources.volume_sources is None && !self.sources.compiling
        &&& self.sources.transferring ==> self.sources.transfer is None && !self.request.fresh && !self.request.operator_reused
        &&& self.sources.compiling ==> self.sources.volume_sources is None
        &&& self.sources.forcing is Some ==> self.sources.volume_sources is Some || self.request.operator_reused
        &&& self.canonical.joined is Some ==> self.sources.forcing is Some
        &&& self.assembly.source_validation_count <= 1
        &&& !self.assembly.source_validated ==> self.assembly.source_validation_count == 0
        &&& !self.request.operator_reused && self.assembly.canonical_operator is Some ==> (
        self.request.driven <==> self.assembly.temporal_operator is Some)
        &&& self.assembly.canonical_operator is None ==> self.assembly.temporal_operator is None
        &&& self.canonical.primary is None ==> self.canonical.primary_stage is Idle
            && !self.canonical.transferring_vector && self.canonical.vector is None
            && self.canonical.gap is None && !self.canonical.transferring_outgoing
            && self.canonical.outgoing is None && self.canonical.joined is None
        &&& self.canonical.primary is Some ==> {
            &&& self.canonical.transferring_vector != (self.canonical.vector is Some)
            &&& self.canonical.gap is Some <==> !(self.canonical.primary_stage is ThinGap)
            &&& self.canonical.primary_stage is Idle ==> (self.canonical.transferring_outgoing != (
            self.canonical.outgoing is Some))
            &&& !(self.canonical.primary_stage is Idle) ==> !self.canonical.transferring_outgoing
                && self.canonical.outgoing is None && self.canonical.joined is None
        }
    }

    /// The smallest transaction that can publish the candidate.
    pub open spec fn solver_update(self) -> PreparedSolverUpdate {
        if self.request.fresh || !self.request.operator_reused || self.request.require_solver_handoff {
            PreparedSolverUpdate::FullHandoff
        } else if self.request.previous is None || self.sources.forcing is None {
            PreparedSolverUpdate::FullHandoff
        } else {
            match self.sources.forcing_change {
                ForcingChange::Unchanged => PreparedSolverUpdate::MeasurementsOnly,
                ForcingChange::Drives => PreparedSolverUpdate::SourceDrivesOnly,
                ForcingChange::Weights => PreparedSolverUpdate::SourceWeightsOnly,
                ForcingChange::Layout => PreparedSolverUpdate::FullHandoff,
            }
        }
    }

    pub fn prepared_solver_update(&self) -> (result: PreparedSolverUpdate)
        ensures
            result == self.solver_update(),
    {
        if self.request.fresh || !self.request.operator_reused || self.request.require_solver_handoff {
            return PreparedSolverUpdate::FullHandoff;
        }
        if self.request.previous.is_none() || self.sources.forcing.is_none() {
            return PreparedSolverUpdate::FullHandoff;
        }
        match self.sources.forcing_change {
            ForcingChange::Unchanged => PreparedSolverUpdate::MeasurementsOnly,
            ForcingChange::Drives => PreparedSolverUpdate::SourceDrivesOnly,
            ForcingChange::Weights => PreparedSolverUpdate::SourceWeightsOnly,
            ForcingChange::Layout => PreparedSolverUpdate::FullHandoff,
        }
    }

    /// Whether the canonical state of the active topology still has to be
    /// carried over to the candidate.
    pub open spec fn lacks_canonical_transfer(self) -> bool {
        !self.request.fresh && self.solver_update() is FullHandoff && self.canonical.joined is None
    }

    /// The next piece of work.
    #[verifier::opaque]
    pub open spec fn work(self) -> Work {
        if self.done {
            Work::Nothing
        } else if self.mesh.carving {
            Work::AdvanceCarve
        } else if self.mesh.building {
            Work::AdvanceMesh
        } else if self.assembly.operator is None {
            if self.assembly.assembling {
                Work::AdvanceAssembly
            } else {
                Work::StartAssembly
            }
        } else if !self.assembly.source_validated {
            Work::PlacePointSource
        } else if self.assembly.pending_canonical is Some {
            Work::BuildTemporalOperator
        } else if self.assembly.canonical_operator is None {
            if self.assembly.assembling_canonical {
                Work::AdvanceCanonicalAssembly
            } else {
                Work::StartCanonicalAssembly
            }
        } else if self.sources.transferring {
            Work::AdvanceTransfer
        } else if !self.request.fresh && !self.request.operator_reused && self.sources.transfer is None {
            if self.request.previous->0.mesh == self.mesh.mesh->0 {
                Work::BuildIdentityTransfer
            } else {
                Work::StartTransfer
            }
        } else if self.sources.compiling {
            Work::AdvanceSources
        } else if self.sources.volume_sources is None {
            Work::StartSources
        } else if self.sources.forcing is None {
            Work::CompileForcing
        } else if self.lacks_canonical_transfer() {
            if self.sources.transfer is None && self.canonical.interpolation is None {
                Work::BuildIdentityInterpolation
            } else if self.canonical.primary_stage is ThinGap {
                Work::PrepareThinGapTransfer
            } else if self.canonical.primary_stage is Outgoing {
                Work::PrepareOutgoingTransfer
            } else if self.canonical.primary is None {
                Work::PreparePrimaryTransfer
            } else if self.canonical.transferring_vector {
                Work::AdvanceVectorTransfer
            } else if self.canonical.transferring_outgoing {
                Work::AdvanceOutgoingTransfer
            } else {
                Work::JoinCanonicalTransfer
            }
        } else {
            Work::CompileMeasurements
        }
    }

    /// The phase that the job shows while it is at its next piece of work.
    pub open spec fn working_phase(self) -> TopologyPreparationPhase {
        match self.work() {
            Work::StartAssembly => TopologyPreparationPhase::Assembling,
            Work::StartCanonicalAssembly => TopologyPreparationPhase::AssemblingCanonical,
            Work::BuildIdentityTransfer | Work::StartTransfer =>
                TopologyPreparationPhase::Transferring,
            Work::StartSources => TopologyPreparationPhase::CompilingSources,
            Work::BuildIdentityInterpolation | Work::PreparePrimaryTransfer
            | Work::PrepareThinGapTransfer | Work::PrepareOutgoingTransfer
            | Work::AdvanceVectorTransfer | Work::AdvanceOutgoingTransfer
            | Work::JoinCanonicalTransfer => TopologyPreparationPhase::TransferringCanonical,
            Work::CompileMeasurements => TopologyPreparationPhase::CompilingMeasurements,
            _ => self.phase,
        }
    }

    pub(crate) fn decide(&self) -> (result: Work)
        requires
            self.wf(),
        ensures
            result == self.work(),
    {
        proof {
            reveal(TopologyPreparationJob::work);
        }
        if self.done {
            return Work::Nothing;
        }
        if self.mesh.carving {
            return Work::AdvanceCarve;
        }
        if self.mesh.building {
            return Work::AdvanceMesh;
        }
        if self.assembly.operator.is_none() {
            return if self.assembly.assembling {
                Work::AdvanceAssembly
            } else {
                Work::StartAssembly
            };
        }
        if !self.assembly.source_validated {
            return Work::PlacePointSource;
        }
        if self.assembly.pending_canonical.is_some() {
            return Work::BuildTemporalOperator;
        }
        if self.assembly.canonical_operator.is_none() {
            return if self.assembly.assembling_canonical {
                Work::AdvanceCanonicalAssembly
            } else {
                Work::StartCanonicalAssembly
            };
        }
        if self.sources.transferring {
            return Work::AdvanceTransfer;
        }
        if !self.request.fresh && !self.request.operator_reused && self.sources.transfer.is_none() {
            return match (&self.request.previous, &self.mesh.mesh) {
                (Some(previous), Some(mesh)) => if previous.mesh == *mesh {
                    Work::BuildIdentityTransfer
                } else {
                    Work::StartTransfer
                },
                _ => Work::StartTransfer,
            };
        }
        if self.sources.compiling {
            return Work::AdvanceSources;
        }
        if self.sources.volume_sources.is_none() {
            return Work::StartSources;
        }
        if self.sources.forcing.is_none() {
            return Work::CompileForcing;
        }
        let full: bool = matches!(self.prepared_solver_update(), PreparedSolverUpdate::FullHandoff);
        if !self.request.fresh && full && self.canonical.joined.is_none() {
            if self.sources.transfer.is_none() && self.canonical.interpolation.is_none() {
                Work::BuildIdentityInterpolation
            } else if matches!(self.canonical.primary_stage, PrimaryStage::ThinGap) {
                Work::PrepareThinGapTransfer
            } else if matches!(self.canonical.primary_stage, PrimaryStage::Outgoing) {
                Work::PrepareOutgoingTransfer
            } else if self.canonical.primary.is_none() {
                Work::PreparePrimaryTransfer
            } else if self.canonical.transferring_vector {
                Work::AdvanceVectorTransfer
            } else if self.canonical.transferring_outgoing {
                Work::AdvanceOutgoingTransfer
            } else {
                Work::JoinCanonicalTransfer
            }
        } else {
            Work::CompileMeasurements
        }
    }

    /// Names the next piece of work and moves the shown phase to it.
    pub fn next_work(&mut self) -> (result: Work)
        requires
            old(self).wf(),
        ensures
            result == old(self).work(),
            *final(self) == (TopologyPreparationJob {
                phase: old(self).working_phase(),
                ..*old(self)
            }),
            final(self).wf(),
            final(self).work() == result,
    {
        proof {
            reveal(TopologyPreparationJob::work);
        }
        let work: Work = self.decide();
        match work {
            Work::StartAssembly => {
                self.phase = TopologyPreparationPhase::Assembling;
            },
            Work::StartCanonicalAssembly => {
                self.phase = TopologyPreparationPhase::AssemblingCanonical;
            },
            Work::BuildIdentityTransfer | Work::StartTransfer => {
                self.phase = TopologyPreparationPhase::Transferring;
            },
            Work::StartSources => {
                self.phase = TopologyPreparationPhase::CompilingSources;
            },
            Work::BuildIdentityInterpolation | Work::PreparePrimaryTransfer
            | Work::PrepareThinGapTransfer | Work::PrepareOutgoingTransfer
            | Work::AdvanceVectorTransfer | Work::AdvanceOutgoingTransfer
            | Work::JoinCanonicalTransfer => {
                self.phase = TopologyPreparationPhase::TransferringCanonical;
            },
            Work::CompileMeasurements => {
                self.phase = TopologyPreparationPhase::CompilingMeasurements;
            },
            _ => {},
        }
        work
    }

    /// Whether the active far field still holds for the candidate.
    pub open spec fn reuses_far_field(self) -> bool {
        &&& self.request.previous is Some
        &&& self.request.operator_reused
        &&& self.request.previous->0.far_field_settings.eq_settings(self.request.far_field)
        &&& self.request.previous->0.point_source.enabled == self.request.point_source.enabled
        &&& self.request.comparison.source_place
        &&& self.request.comparison.scene.volume_layout
    }

    /// Whether the engine is asked for a far field.
    pub open spec fn wants_far_field(self) -> bool {
        !self.reuses_far_field() && self.request.far_field.enabled
    }

    pub fn far_field_wanted(&self) -> (result: bool)
        ensures
            result == self.wants_far_field(),
    {
        !self.far_field_kept() && self.request.far_field.enabled
    }

    fn far_field_kept(&self) -> (result: bool)
        ensures
            result == self.reuses_far_field(),
    {
        match &self.request.previous {
            Some(previous) => self.request.operator_reused && previous.far_field_settings.equals(
                self.request.far_field,
            ) && previous.point_source.enabled == self.request.point_source.enabled
                && self.request.comparison.source_place && self.request.comparison.scene.volume_layout,
            None => false,
        }
    }

    /// Whether the model that the next piece of work reads is there.
    pub open spec fn equipped(self) -> bool {
        self.work().reads_stripped() ==> self.stripped_model is Some
    }

    /// Builds the model without temporal laws, once, with `strip`, which takes
    /// the authored model.
    pub fn ensure_stripped_model<F: FnOnce(Artifact) -> Artifact>(&mut self, strip: F)
        requires
            call_requires(strip, (old(self).request.bundle.authored,)),
        ensures
            final(self).stripped_model is Some,
            *final(self) == (TopologyPreparationJob {
                stripped_model: final(self).stripped_model,
                ..*old(self)
            }),
            match old(self).stripped_model {
                Some(_) => final(self).stripped_model == old(self).stripped_model,
                None => call_ensures(
                    strip,
                    (old(self).request.bundle.authored,),
                    final(self).stripped_model->0,
                ),
            },
    {
        if self.stripped_model.is_none() {
            self.stripped_model = Some(strip(self.request.bundle.authored));
        }
    }

    /// Whether the outcome is one that the next piece of work can have.
    pub open spec fn expects(self, outcome: WorkOutcome) -> bool {
        &&& self.equipped()
        &&& outcome.answers(self.work())
        &&& self.work() is CompileMeasurements && self.wants_far_field()
            ==> outcome->far_field is Some
    }

    /// The job after a failure.
    pub open spec fn failed(self) -> Self {
        TopologyPreparationJob { done: true, phase: TopologyPreparationPhase::Failed, ..self }
    }

    /// The job at the end of a slice.
    pub open spec fn paused(self) -> Self {
        TopologyPreparationJob {
            canonical: CanonicalStage { interpolation: None, ..self.canonical },
            ..self
        }
    }

    /// The job after an outcome of its next piece of work.
    pub open spec fn accepted(self, outcome: WorkOutcome) -> Self {
        match self.work() {
            Work::AdvanceCarve => self.carve_accepted(outcome),
            Work::AdvanceMesh => self.mesh_accepted(outcome),
            Work::StartAssembly | Work::AdvanceAssembly => self.assembly_accepted(outcome),
            Work::PlacePointSource => self.placement_accepted(outcome),
            Work::StartCanonicalAssembly
            | Work::AdvanceCanonicalAssembly => self.canonical_assembly_accepted(outcome),
            Work::BuildTemporalOperator => self.temporal_accepted(outcome),
            Work::BuildIdentityTransfer | Work::StartTransfer
            | Work::AdvanceTransfer => self.transfer_accepted(outcome),
            Work::StartSources | Work::AdvanceSources
            | Work::CompileForcing => self.sources_accepted(outcome),
            Work::BuildIdentityInterpolation | Work::PreparePrimaryTransfer
            | Work::PrepareThinGapTransfer | Work::PrepareOutgoingTransfer
            | Work::AdvanceVectorTransfer | Work::AdvanceOutgoingTransfer
            | Work::JoinCanonicalTransfer => self.canonical_accepted(outcome),
            Work::CompileMeasurements => self.completed(),
            Work::Nothing => self,
        }
    }

    /// A carve that cannot finish is not an error of the request: the plan is
    /// sound, so a full rebuild takes over and the reason travels along.
    #[verifier::opaque]
    pub open spec fn carve_accepted(self, outcome: WorkOutcome) -> Self {
        match outcome {
            WorkOutcome::Carved { mesh, report } => (TopologyPreparationJob {
                mesh: MeshStage {
                    carving: false,
                    carve: Some(report),
                    mesh: Some(mesh),
                    ..self.mesh
                },
                phase: TopologyPreparationPhase::Assembling,
                ..self
            }).paused(),
            WorkOutcome::Failed(issue) => (TopologyPreparationJob {
                mesh: MeshStage {
                    carving: false,
                    repair_fallback: Some(issue),
                    action: TopologyMeshUpdateAction::FullRebuild(
                        TopologyFullRebuildReason::RepairFailed,
                    ),
                    building: true,
                    ..self.mesh
                },
                phase: TopologyPreparationPhase::Meshing,
                ..self
            }).paused(),
            _ => self.paused(),
        }
    }

    #[verifier::opaque]
    pub open spec fn mesh_accepted(self, outcome: WorkOutcome) -> Self {
        match outcome {
            WorkOutcome::Built(mesh) => (TopologyPreparationJob {
                mesh: MeshStage { building: false, mesh: Some(mesh), ..self.mesh },
                phase: TopologyPreparationPhase::Assembling,
                ..self
            }).paused(),
            WorkOutcome::Failed(_) => (TopologyPreparationJob {
                mesh: MeshStage { building: false, ..self.mesh },
                ..self
            }).failed(),
            _ => self.paused(),
        }
    }

    #[verifier::opaque]
    pub open spec fn assembly_accepted(self, outcome: WorkOutcome) -> Self {
        match outcome {
            WorkOutcome::Started => TopologyPreparationJob {
                assembly: AssemblyStage { assembling: true, ..self.assembly },
                ..self
            },
            WorkOutcome::Built(operator) => TopologyPreparationJob {
                assembly: AssemblyStage {
                    assembling: false,
                    operator: Some(operator),
                    just_finished: true,
                    ..self.assembly
                },
                ..self
            },
            WorkOutcome::Failed(_) => (TopologyPreparationJob {
                assembly: AssemblyStage { assembling: false, ..self.assembly },
                ..self
            }).failed(),
            _ => self.paused(),
        }
    }

    #[verifier::opaque]
    pub open spec fn placement_accepted(self, outcome: WorkOutcome) -> Self {
        let refused = match outcome {
            WorkOutcome::Placed(placement) => source_refusal(
                self.request.point_source,
                self.request.source_valid,
                placement,
            )
                is Some,
            _ => false,
        };
        let next = TopologyPreparationJob {
            assembly: AssemblyStage {
                source_validation_count: if self.assembly.source_validation_count < u32::MAX {
                    (self.assembly.source_validation_count + 1) as u32
                } else {
                    u32::MAX
                },
                just_finished: false,
                source_validated: !refused,
                ..self.assembly
            },
            ..self
        };
        if refused {
            next.failed()
        } else if self.assembly.just_finished {
            next.paused()
        } else {
            next
        }
    }

    #[verifier::opaque]
    pub open spec fn canonical_assembly_accepted(self, outcome: WorkOutcome) -> Self {
        match outcome {
            WorkOutcome::Started => TopologyPreparationJob {
                assembly: AssemblyStage { assembling_canonical: true, ..self.assembly },
                ..self
            },
            WorkOutcome::BuiltOperator(operator) => if self.request.driven {
                TopologyPreparationJob {
                    assembly: AssemblyStage {
                        assembling_canonical: false,
                        pending_canonical: Some(operator),
                        ..self.assembly
                    },
                    ..self
                }
            } else {
                (TopologyPreparationJob {
                    assembly: AssemblyStage {
                        assembling_canonical: false,
                        canonical_operator: Some(operator),
                        ..self.assembly
                    },
                    ..self
                }).paused()
            },
            WorkOutcome::Failed(_) => (TopologyPreparationJob {
                assembly: AssemblyStage { assembling_canonical: false, ..self.assembly },
                ..self
            }).failed(),
            _ => self.paused(),
        }
    }

    #[verifier::opaque]
    pub open spec fn temporal_accepted(self, outcome: WorkOutcome) -> Self {
        match outcome {
            WorkOutcome::BuiltOperator(temporal) => (TopologyPreparationJob {
                assembly: AssemblyStage {
                    pending_canonical: None,
                    canonical_operator: self.assembly.pending_canonical,
                    temporal_operator: Some(temporal),
                    ..self.assembly
                },
                ..self
            }).paused(),
            _ => (TopologyPreparationJob {
                assembly: AssemblyStage { pending_canonical: None, ..self.assembly },
                ..self
            }).failed(),
        }
    }

    #[verifier::opaque]
    pub open spec fn transfer_accepted(self, outcome: WorkOutcome) -> Self {
        match outcome {
            WorkOutcome::Started => TopologyPreparationJob {
                sources: SourceStage { transferring: true, ..self.sources },
                ..self
            },
            WorkOutcome::Built(transfer) => {
                let next = TopologyPreparationJob {
                    sources: SourceStage {
                        transferring: false,
                        transfer: Some(transfer),
                        ..self.sources
                    },
                    ..self
                };
                if self.work() is BuildIdentityTransfer {
                    next
                } else {
                    next.paused()
                }
            },
            WorkOutcome::Failed(_) => (TopologyPreparationJob {
                sources: SourceStage { transferring: false, ..self.sources },
                ..self
            }).failed(),
            _ => self.paused(),
        }
    }

    #[verifier::opaque]
    pub open spec fn sources_accepted(self, outcome: WorkOutcome) -> Self {
        match outcome {
            WorkOutcome::Started => TopologyPreparationJob {
                sources: SourceStage { compiling: true, ..self.sources },
                ..self
            },
            WorkOutcome::Built(sources) => (TopologyPreparationJob {
                sources: SourceStage {
                    compiling: false,
                    volume_sources: Some(sources),
                    ..self.sources
                },
                ..self
            }).paused(),
            WorkOutcome::Forced { forcing, change } => (TopologyPreparationJob {
                sources: SourceStage {
                    forcing: Some(forcing),
                    forcing_change: change,
                    ..self.sources
                },
                ..self
            }).paused(),
            WorkOutcome::Failed(_) => (TopologyPreparationJob {
                sources: SourceStage { compiling: false, ..self.sources },
                ..self
            }).failed(),
            _ => self.paused(),
        }
    }

    #[verifier::opaque]
    pub open spec fn canonical_accepted(self, outcome: WorkOutcome) -> Self {
        let stage = self.canonical;
        let next = match (self.work(), outcome) {
            (Work::BuildIdentityInterpolation, WorkOutcome::Built(map)) => CanonicalStage {
                interpolation: Some(map),
                ..stage
            },
            (Work::PreparePrimaryTransfer, WorkOutcome::Built(map)) => CanonicalStage {
                primary: Some(map),
                transferring_vector: true,
                primary_stage: PrimaryStage::ThinGap,
                ..stage
            },
            (Work::PrepareThinGapTransfer, WorkOutcome::Built(map)) => CanonicalStage {
                gap: Some(map),
                primary_stage: PrimaryStage::Outgoing,
                ..stage
            },
            (Work::PrepareOutgoingTransfer, WorkOutcome::Started) => CanonicalStage {
                transferring_outgoing: true,
                primary_stage: PrimaryStage::Idle,
                ..stage
            },
            (Work::AdvanceVectorTransfer, WorkOutcome::Built(map)) => CanonicalStage {
                transferring_vector: false,
                vector: Some(map),
                ..stage
            },
            (Work::AdvanceVectorTransfer, WorkOutcome::Failed(_)) => CanonicalStage {
                transferring_vector: false,
                ..stage
            },
            (Work::AdvanceOutgoingTransfer, WorkOutcome::Built(map)) => CanonicalStage {
                transferring_outgoing: false,
                outgoing: Some(map),
                ..stage
            },
            (Work::AdvanceOutgoingTransfer, WorkOutcome::Failed(_)) => CanonicalStage {
                transferring_outgoing: false,
                ..stage
            },
            (Work::JoinCanonicalTransfer, _) => CanonicalStage {
                joined: stage.joined_transfer(),
                ..stage
            },
            _ => stage,
        };
        let job = TopologyPreparationJob { canonical: next, ..self };
        if outcome is Failed {
            job.failed()
        } else if self.goes_on(outcome) {
            job
        } else {
            job.paused()
        }
    }

    /// The job after its candidate left it.
    #[verifier::opaque]
    pub open spec fn completed(self) -> Self {
        TopologyPreparationJob {
            mesh: MeshStage { repair_fallback: None, ..self.mesh },
            sources: SourceStage { volume_sources: None, transfer: None, ..self.sources },
            canonical: CanonicalStage { joined: None, ..self.canonical },
            done: true,
            phase: TopologyPreparationPhase::Ready,
            ..self
        }
    }

    /// Whether the slice goes on after the outcome: set-up steps and steps that
    /// do not yield are followed by more work at once.
    pub open spec fn goes_on(self, outcome: WorkOutcome) -> bool {
        match self.work() {
            Work::StartAssembly | Work::StartCanonicalAssembly | Work::StartTransfer
            | Work::StartSources | Work::BuildIdentityTransfer | Work::BuildIdentityInterpolation
            | Work::PreparePrimaryTransfer | Work::PrepareThinGapTransfer => !(outcome is Failed),
            Work::AdvanceAssembly => outcome is Built,
            Work::PlacePointSource => !self.assembly.just_finished,
            Work::AdvanceCanonicalAssembly => outcome is BuiltOperator && self.request.driven,
            _ => false,
        }
    }

    /// Whether the outcome ends the job with an error, and what the error says.
    pub open spec fn failure(self, outcome: WorkOutcome) -> Option<Seq<char>> {
        match outcome {
            WorkOutcome::Failed(issue) => if self.work() is AdvanceCarve {
                None
            } else {
                Some(issue@)
            },
            WorkOutcome::Placed(placement) => source_refusal(
                self.request.point_source,
                self.request.source_valid,
                placement,
            ),
            _ => None,
        }
    }

    /// The finished candidate.
    #[verifier::opaque]
    pub open spec fn candidate(
        self,
        probes: Artifact,
        far_field: Option<Result<Artifact, String>>,
    ) -> PreparedTopology {
        PreparedTopology {
            bundle: self.request.bundle,
            mesh: self.mesh.mesh->0,
            operator: self.assembly.operator->0,
            canonical_operator: self.assembly.canonical_operator->0,
            canonical_temporal_operator: self.assembly.temporal_operator,
            stripped_model: if self.request.driven {
                self.stripped_model
            } else {
                None
            },
            canonical_forcing: self.sources.forcing->0,
            canonical_transfer: self.canonical.joined,
            volume_sources: self.sources.volume_sources->0,
            probes,
            far_field: if self.reuses_far_field() {
                self.request.previous->0.far_field
            } else if self.request.far_field.enabled {
                far_field
            } else {
                None
            },
            point_source: self.request.point_source,
            probe_definitions: self.request.probes,
            far_field_settings: self.request.far_field,
            transfer: self.sources.transfer,
            solver_update: self.solver_update(),
            fresh: self.request.fresh,
            mesh_action: self.mesh.action,
            operator_reused: self.request.operator_reused,
            adapted: self.request.adapted,
            carve: self.mesh.carve,
            repair_fallback: self.mesh.repair_fallback,
            timing: self.timing,
            meshing: self.request.meshing,
        }
    }

    /// What the caller is told of an outcome.
    pub open spec fn reported(self, outcome: WorkOutcome, progress: Progress) -> bool {
        match self.failure(outcome) {
            Some(message) => {
                &&& progress matches Progress::Finished(Err(error))
                &&& error.token == self.request.bundle.token
                &&& error.phase == self.phase
                &&& error.message@ == message
            },
            None => if self.goes_on(outcome) {
                progress is Again
            } else if let WorkOutcome::Measured { probes, far_field } = outcome {
                progress == Progress::Finished(Ok(self.candidate(probes, far_field)))
            } else {
                progress is Pause
            },
        }
    }

    fn fail(&mut self, message: String) -> (result: Progress)
        ensures
            *final(self) == old(self).failed(),
            result == Progress::Finished(
                Err(
                    TopologyPreparationError {
                        token: old(self).request.bundle.token,
                        phase: old(self).phase,
                        message,
                    },
                ),
            ),
    {
        let phase: TopologyPreparationPhase = self.phase;
        self.done = true;
        self.phase = TopologyPreparationPhase::Failed;
        Progress::Finished(
            Err(TopologyPreparationError { token: self.request.bundle.token, phase, message }),
        )
    }

    fn pause(&mut self) -> (result: Progress)
        ensures
            *final(self) == old(self).paused(),
            result == Progress::Pause,
    {
        self.canonical.interpolation = None;
        Progress::Pause
    }

    fn accept_carve(&mut self, outcome: WorkOutcome) -> (result: Progress)
        requires
            old(self).work() is AdvanceCarve,
            outcome.answers(Work::AdvanceCarve),
        ensures
            *final(self) == old(self).carve_accepted(outcome),
            old(self).reported(outcome, result),
    {
        proof {
            reveal(TopologyPreparationJob::carve_accepted);
        }
        match outcome {
            WorkOutcome::Carved { mesh, report } => {
                self.mesh.carving = false;
                self.mesh.carve = Some(report);
                self.mesh.mesh = Some(mesh);
                self.phase = TopologyPreparationPhase::Assembling;
                self.pause()
            },
            WorkOutcome::Failed(issue) => {
                self.mesh.carving = false;
                self.mesh.repair_fallback = Some(issue);
                self.mesh.action = TopologyMeshUpdateAction::FullRebuild(
                    TopologyFullRebuildReason::RepairFailed,
                );
                self.mesh.building = true;
                self.phase = TopologyPreparationPhase::Meshing;
                self.pause()
            },
            _ => self.pause(),
        }
    }

    fn accept_mesh(&mut self, outcome: WorkOutcome) -> (result: Progress)
        requires
            old(self).work() is AdvanceMesh,
            outcome.answers(Work::AdvanceMesh),
        ensures
            *final(self) == old(self).mesh_accepted(outcome),
            old(self).reported(outcome, result),
    {
        proof {
            reveal(TopologyPreparationJob::mesh_accepted);
        }
        match outcome {
            WorkOutcome::Built(mesh) => {
                self.mesh.building = false;
                self.mesh.mesh = Some(mesh);
                self.phase = TopologyPreparationPhase::Assembling;
                self.pause()
            },
            WorkOutcome::Failed(issue) => {
                self.mesh.building = false;
                self.fail(issue)
            },
            _ => self.pause(),
        }
    }

    fn accept_assembly(&mut self, work: Work, outcome: WorkOutcome) -> (result: Progress)
        requires
            work == old(self).work(),
            work is StartAssembly || work is AdvanceAssembly,
            outcome.answers(work),
        ensures
            *final(self) == old(self).assembly_accepted(outcome),
            old(self).reported(outcome, result),
    {
        proof {
            reveal(TopologyPreparationJob::assembly_accepted);
        }
        match outcome {
            WorkOutcome::Started => {
                self.assembly.assembling = true;
                Progress::Again
            },
            WorkOutcome::Built(operator) => {
                self.assembly.assembling = false;
                self.assembly.operator = Some(operator);
                self.assembly.just_finished = true;
                Progress::Again
            },
            WorkOutcome::Failed(issue) => {
                self.assembly.assembling = false;
                self.fail(issue)
            },
            _ => self.pause(),
        }
    }

    fn accept_placement(&mut self, outcome: WorkOutcome) -> (result: Progress)
        requires
            old(self).work() is PlacePointSource,
            outcome.answers(Work::PlacePointSource),
        ensures
            *final(self) == old(self).placement_accepted(outcome),
            old(self).reported(outcome, result),
    {
        proof {
            reveal(TopologyPreparationJob::placement_accepted);
        }
        let closes_slice: bool = self.assembly.just_finished;
        self.assembly.source_validation_count =
        self.assembly.source_validation_count.saturating_add(1);
        self.assembly.just_finished = false;
        let verdict: Result<(), String> = match outcome {
            WorkOutcome::Placed(placement) => validate_point_source(
                self.request.point_source,
                self.request.source_valid,
                &placement,
            ),
            _ => Ok(()),
        };
        match verdict {
            Err(issue) => {
                self.assembly.source_validated = false;
                self.fail(issue)
            },
            Ok(()) => {
                self.assembly.source_validated = true;
                if closes_slice {
                    self.pause()
                } else {
                    Progress::Again
                }
            },
        }
    }

    fn accept_canonical_assembly(&mut self, work: Work, outcome: WorkOutcome) -> (result: Progress)
        requires
            work == old(self).work(),
            work is StartCanonicalAssembly || work is AdvanceCanonicalAssembly,
            outcome.answers(work),
        ensures
            *final(self) == old(self).canonical_assembly_accepted(outcome),
            old(self).reported(outcome, result),
    {
        proof {
            reveal(TopologyPreparationJob::canonical_assembly_accepted);
        }
        match outcome {
            WorkOutcome::Started => {
                self.assembly.assembling_canonical = true;
                Progress::Again
            },
            WorkOutcome::BuiltOperator(operator) => if self.request.driven {
                self.assembly.assembling_canonical = false;
                self.assembly.pending_canonical = Some(operator);
                Progress::Again
            } else {
                self.assembly.assembling_canonical = false;
                self.assembly.canonical_operator = Some(operator);
                self.pause()
            },
            WorkOutcome::Failed(issue) => {
                self.assembly.assembling_canonical = false;
                self.fail(issue)
            },
            _ => self.pause(),
        }
    }

    fn accept_temporal(&mut self, outcome: WorkOutcome) -> (result: Progress)
        requires
            old(self).work() is BuildTemporalOperator,
            outcome.answers(Work::BuildTemporalOperator),
        ensures
            *final(self) == old(self).temporal_accepted(outcome),
            old(self).reported(outcome, result),
    {
        proof {
            reveal(TopologyPreparationJob::temporal_accepted);
        }
        let canonical: Option<StepOperator> = self.assembly.pending_canonical;
        self.assembly.pending_canonical = None;
        match outcome {
            WorkOutcome::Failed(issue) => self.fail(issue),
            WorkOutcome::BuiltOperator(temporal) => {
                self.assembly.canonical_operator = canonical;
                self.assembly.temporal_operator = Some(temporal);
                self.pause()
            },
            _ => self.pause(),
        }
    }

    fn accept_transfer(&mut self, work: Work, outcome: WorkOutcome) -> (result: Progress)
        requires
            work == old(self).work(),
            work is BuildIdentityTransfer || work is StartTransfer || work is AdvanceTransfer,
            outcome.answers(work),
        ensures
            *final(self) == old(self).transfer_accepted(outcome),
            old(self).reported(outcome, result),
    {
        proof {
            reveal(TopologyPreparationJob::transfer_accepted);
        }
        match outcome {
            WorkOutcome::Started => {
                self.sources.transferring = true;
                Progress::Again
            },
            WorkOutcome::Built(transfer) => {
                self.sources.transferring = false;
                self.sources.transfer = Some(transfer);
                if matches!(work, Work::BuildIdentityTransfer) {
                    Progress::Again
                } else {
                    self.pause()
                }
            },
            WorkOutcome::Failed(issue) => {
                self.sources.transferring = false;
                self.fail(issue)
            },
            _ => self.pause(),
        }
    }

    fn accept_sources(&mut self, work: Work, outcome: WorkOutcome) -> (result: Progress)
        requires
            work == old(self).work(),
            work is StartSources || work is AdvanceSources || work is CompileForcing,
            outcome.answers(work),
        ensures
            *final(self) == old(self).sources_accepted(outcome),
            old(self).reported(outcome, result),
    {
        proof {
            reveal(TopologyPreparationJob::sources_accepted);
        }
        match outcome {
            WorkOutcome::Started => {
                self.sources.compiling = true;
                Progress::Again
            },
            WorkOutcome::Built(sources) => {
                self.sources.compiling = false;
                self.sources.volume_sources = Some(sources);
                self.pause()
            },
            WorkOutcome::Forced { forcing, change } => {
                self.sources.forcing = Some(forcing);
                self.sources.forcing_change = change;
                self.pause()
            },
            WorkOutcome::Failed(issue) => {
                self.sources.compiling = false;
                self.fail(issue)
            },
            _ => self.pause(),
        }
    }

    fn accept_canonical(&mut self, work: Work, outcome: WorkOutcome) -> (result: Progress)
        requires
            work == old(self).work(),
            work is BuildIdentityInterpolation || work is PreparePrimaryTransfer
                || work is PrepareThinGapTransfer || work is PrepareOutgoingTransfer
                || work is AdvanceVectorTransfer || work is AdvanceOutgoingTransfer
                || work is JoinCanonicalTransfer,
            outcome.answers(work),
        ensures
            *final(self) == old(self).canonical_accepted(outcome),
            old(self).reported(outcome, result),
    {
        proof {
            reveal(TopologyPreparationJob::canonical_accepted);
        }
        match outcome {
            WorkOutcome::Failed(issue) => {
                if matches!(work, Work::AdvanceVectorTransfer) {
                    self.canonical.transferring_vector = false;
                } else if matches!(work, Work::AdvanceOutgoingTransfer) {
                    self.canonical.transferring_outgoing = false;
                }
                self.fail(issue)
            },
            WorkOutcome::Started => if matches!(work, Work::PrepareOutgoingTransfer) {
                self.canonical.transferring_outgoing = true;
                self.canonical.primary_stage = PrimaryStage::Idle;
                self.pause()
            } else {
                self.canonical.join();
                self.pause()
            },
            WorkOutcome::Built(map) => match work {
                Work::BuildIdentityInterpolation => {
                    self.canonical.interpolation = Some(map);
                    Progress::Again
                },
                Work::PreparePrimaryTransfer => {
                    self.canonical.primary = Some(map);
                    self.canonical.transferring_vector = true;
                    self.canonical.primary_stage = PrimaryStage::ThinGap;
                    Progress::Again
                },
                Work::PrepareThinGapTransfer => {
                    self.canonical.gap = Some(map);
                    self.canonical.primary_stage = PrimaryStage::Outgoing;
                    Progress::Again
                },
                Work::AdvanceVectorTransfer => {
                    self.canonical.transferring_vector = false;
                    self.canonical.vector = Some(map);
                    self.pause()
                },
                _ => {
                    self.canonical.transferring_outgoing = false;
                    self.canonical.outgoing = Some(map);
                    self.pause()
                },
            },
            _ => self.pause(),
        }
    }

    fn complete(
        &mut self,
        probes: Artifact,
        far_field: Option<Result<Artifact, String>>,
    ) -> (result: PreparedTopology)
        requires
            old(self).wf(),
            old(self).work() is CompileMeasurements,
        ensures
            result == old(self).candidate(probes, far_field),
            *final(self) == old(self).completed(),
    {
        proof {
            reveal(TopologyPreparationJob::work);
            reveal(TopologyPreparationJob::completed);
            reveal(TopologyPreparationJob::candidate);
        }
        let solver_update: PreparedSolverUpdate = self.prepared_solver_update();
        let far_field: Option<Result<Artifact, String>> = if self.far_field_kept() {
            match &self.request.previous {
                Some(previous) => crate::preparation::clone_far_field(&previous.far_field),
                None => None,
            }
        } else if self.request.far_field.enabled {
            far_field
        } else {
            None
        };
        let repair_fallback: Option<String> = self.mesh.repair_fallback.take();
        let prepared = PreparedTopology {
            bundle: self.request.bundle,
            mesh: self.mesh.mesh.unwrap(),
            operator: self.assembly.operator.unwrap(),
            canonical_operator: self.assembly.canonical_operator.unwrap(),
            canonical_temporal_operator: self.assembly.temporal_operator,
            stripped_model: if self.request.driven {
                self.stripped_model
            } else {
                None
            },
            canonical_forcing: self.sources.forcing.unwrap(),
            canonical_transfer: self.canonical.joined,
            volume_sources: self.sources.volume_sources.unwrap(),
            probes,
            far_field,
            point_source: self.request.point_source,
            probe_definitions: self.request.probes,
            far_field_settings: self.request.far_field,
            transfer: self.sources.transfer,
            solver_update,
            fresh: self.request.fresh,
            mesh_action: self.mesh.action,
            operator_reused: self.request.operator_reused,
            adapted: self.request.adapted,
            carve: self.mesh.carve,
            repair_fallback,
            timing: self.timing,
            meshing: self.request.meshing,
        };
        self.canonical.joined = None;
        self.sources.volume_sources = None;
        self.sources.transfer = None;
        self.done = true;
        self.phase = TopologyPreparationPhase::Ready;
        prepared
    }

    /// Takes the outcome of the work that [`Self::next_work`] named.
    pub fn accept(&mut self, outcome: WorkOutcome) -> (result: Progress)
        requires
            old(self).wf(),
            old(self).expects(outcome),
        ensures
            *final(self) == old(self).accepted(outcome),
            old(self).reported(outcome, result),
            final(self).wf(),
    {
        proof {
            crate::preparation_laws::every_outcome_keeps_the_job_sound(*self, outcome);
        }
        let work: Work = self.decide();
        match work {
            Work::AdvanceCarve => self.accept_carve(outcome),
            Work::AdvanceMesh => self.accept_mesh(outcome),
            Work::StartAssembly | Work::AdvanceAssembly => self.accept_assembly(work, outcome),
            Work::PlacePointSource => self.accept_placement(outcome),
            Work::StartCanonicalAssembly
            | Work::AdvanceCanonicalAssembly => self.accept_canonical_assembly(work, outcome),
            Work::BuildTemporalOperator => self.accept_temporal(outcome),
            Work::BuildIdentityTransfer | Work::StartTransfer
            | Work::AdvanceTransfer => self.accept_transfer(work, outcome),
            Work::StartSources | Work::AdvanceSources
            | Work::CompileForcing => self.accept_sources(work, outcome),
            Work::BuildIdentityInterpolation | Work::PreparePrimaryTransfer
            | Work::PrepareThinGapTransfer | Work::PrepareOutgoingTransfer
            | Work::AdvanceVectorTransfer | Work::AdvanceOutgoingTransfer
            | Work::JoinCanonicalTransfer => self.accept_canonical(work, outcome),
            _ => match outcome {
                WorkOutcome::Measured { probes, far_field } => {
                    Progress::Finished(Ok(self.complete(probes, far_field)))
                },
                _ => Progress::Pause,
            },
        }
    }
}

impl CanonicalStage {
    pub open spec fn joined_transfer(self) -> Option<PreparedCanonicalTransfer> {
        if self.primary is Some && self.vector is Some && self.gap is Some && self.outgoing
            is Some {
            Some(
                PreparedCanonicalTransfer {
                    primary: self.primary->0,
                    complementary: self.vector->0,
                    thin_gap: self.gap->0,
                    outgoing: self.outgoing->0,
                },
            )
        } else {
            self.joined
        }
    }

    fn join(&mut self)
        ensures
            *final(self) == (CanonicalStage { joined: old(self).joined_transfer(), ..*old(self) }),
    {
        match (self.primary, self.vector) {
            (Some(primary), Some(complementary)) => match (self.gap, self.outgoing) {
                (Some(thin_gap), Some(outgoing)) => {
                    self.joined = Some(
                        PreparedCanonicalTransfer { primary, complementary, thin_gap, outgoing },
                    );
                },
                _ => {},
            },
            _ => {},
        }
    }
}

} // verus!
