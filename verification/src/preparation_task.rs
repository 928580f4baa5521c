//! What the engine is handed for a piece of work.
//!
//! [`TopologyPreparationJob::task`] names, for the next piece of work, the values
//! that it is done on. The fixed compilers read the model without temporal laws;
//! the temporal operator and the far field read the authored one, because they
//! have to see the laws.

use crate::model::PointSource;
use crate::preparation::{
    AcceptedTopology, Artifact, MeshingOptions, StepOperator, WaveModel, FAR_FIELD_CONTOUR_POINTS,
};
use crate::preparation_job::{TopologyPreparationJob, Work};
use crate::probe_sampling::StencilBase;
use crate::scalar::Scalar;
use vstd::prelude::*;

verus! {

/// A mesh and the wave operator on it.
#[derive(Clone, Copy, Debug, PartialEq, Eq, Structural)]
pub struct TransferEnd {
    pub mesh: Artifact,
    pub operator: Artifact,
}

/// A mesh and the canonical operator on it.
#[derive(Clone, Copy, Debug, PartialEq, Eq, Structural)]
pub struct CanonicalEnd {
    pub mesh: Artifact,
    pub operator: StepOperator,
}

/// The compiled probes of the active topology and what they were compiled from.
#[derive(Clone, Copy, Debug, PartialEq, Eq, Structural)]
pub struct KeptProbes {
    pub definitions: Artifact,
    pub compiled: Artifact,
}

/// What a far field is projected from.
#[derive(Clone, Copy, Debug, PartialEq, Eq, Structural)]
pub struct FarFieldTask {
    pub model: WaveModel,
    pub inset: Scalar,
    pub sample_count: usize,
    pub source: PointSource,
    /// The scene whose volume sources count.
    pub volume_sources: Artifact,
}

/// A piece of work together with what it is done on. Where a handle of the
/// authored scene stands for its volume sources, the field says so.
#[derive(Clone, Copy, Debug, PartialEq, Eq, Structural)]
pub enum Task {
    /// The carve of the active mesh goes on.
    Carve {
        mesh: Artifact,
        active_plan: Artifact,
        plan: Artifact,
        snapshot: Artifact,
        mesh_revision: u64,
        options: MeshingOptions,
        preserve_adaptation: bool,
    },
    /// The full mesh build goes on.
    Mesh { plan: Artifact, mesh_revision: u64, options: MeshingOptions },
    Assemble { mesh: Artifact, plan: Artifact, model: WaveModel },
    PlaceSource {
        mesh: Artifact,
        operator: Artifact,
        plan: Artifact,
        model: WaveModel,
        source: PointSource,
    },
    AssembleCanonical {
        mesh: Artifact,
        operator: Artifact,
        model: WaveModel,
        document_revision: u64,
        /// The active canonical operator, whose outgoing boundary is taken over
        /// where it fits.
        active_canonical: Option<StepOperator>,
    },
    BuildTemporal {
        base: StepOperator,
        mesh: Artifact,
        operator: Artifact,
        model: WaveModel,
    },
    /// The transfer between two operators on one mesh.
    TransferOnMesh { mesh: Artifact, from_operator: Artifact, to_operator: Artifact },
    Transfer { from: TransferEnd, to: TransferEnd },
    CompileSources {
        mesh: Artifact,
        operator: Artifact,
        plan: Artifact,
        model: WaveModel,
        volume_sources: Artifact,
    },
    CompileForcing {
        mesh: Artifact,
        operator: Artifact,
        canonical: StepOperator,
        compiled: Artifact,
        volume_sources: Artifact,
        source: PointSource,
        /// The active forcing that the new one is compared with.
        active_forcing: Option<Artifact>,
    },
    TransferPrimary { interpolation: Artifact, active: CanonicalEnd, candidate: CanonicalEnd },
    TransferThinGap { from_canonical: StepOperator, to_canonical: StepOperator },
    TransferOutgoing {
        interpolation: Artifact,
        from_canonical: StepOperator,
        to_canonical: StepOperator,
    },
    /// The transfer of the complementary field goes on.
    TransferVector { active: CanonicalEnd, candidate: CanonicalEnd },
    Measure {
        mesh: Artifact,
        operator: Artifact,
        bundle: AcceptedTopology,
        /// What every stencil of every probe reads.
        model: WaveModel,
        definitions: Artifact,
        kept: Option<KeptProbes>,
        far_field: Option<FarFieldTask>,
    },
    /// The job that an earlier task set up goes on.
    Continue,
    /// Nothing is asked of the engine.
    Nothing,
}

impl TopologyPreparationJob {
    /// The model without temporal laws.
    pub open spec fn stripped(self) -> WaveModel {
        WaveModel::Stripped(self.stripped_model->0)
    }

    /// The model as it was authored.
    pub open spec fn authored(self) -> WaveModel {
        WaveModel::Authored(self.request.bundle.authored)
    }

    /// The interpolation that the canonical transfers go through.
    pub open spec fn interpolation(self) -> Artifact {
        match self.sources.transfer {
            Some(transfer) => transfer,
            None => self.canonical.interpolation->0,
        }
    }

    /// A mesh is built at the revision of the request, but in place of a failed
    /// carve at that of the candidate's token.
    pub open spec fn built_revision(self) -> u64 {
        if self.mesh.repair_fallback is Some {
            self.request.bundle.token.mesh_generation
        } else {
            self.request.mesh_revision
        }
    }

    pub open spec fn active_end(self) -> CanonicalEnd {
        CanonicalEnd {
            mesh: self.request.previous->0.mesh,
            operator: self.request.previous->0.canonical_operator,
        }
    }

    pub open spec fn candidate_end(self) -> CanonicalEnd {
        CanonicalEnd {
            mesh: self.mesh.mesh->0,
            operator: self.assembly.canonical_operator->0,
        }
    }

    pub open spec fn far_field_task(self) -> Option<FarFieldTask> {
        if self.wants_far_field() {
            Some(
                FarFieldTask {
                    model: self.authored(),
                    inset: self.request.far_field.inset,
                    sample_count: FAR_FIELD_CONTOUR_POINTS,
                    source: self.request.point_source,
                    volume_sources: self.request.bundle.authored,
                },
            )
        } else {
            None
        }
    }

    pub open spec fn kept_probes(self) -> Option<KeptProbes> {
        if self.request.operator_reused && self.request.previous is Some {
            Some(
                KeptProbes {
                    definitions: self.request.previous->0.probe_definitions,
                    compiled: self.request.previous->0.probes,
                },
            )
        } else {
            None
        }
    }

    /// What the next piece of work is done on.
    pub open spec fn next_task(self) -> Task {
        let bundle = self.request.bundle;
        let mesh = self.mesh.mesh->0;
        let operator = self.assembly.operator->0;
        let previous = self.request.previous->0;
        match self.work() {
            Work::AdvanceCarve => Task::Carve {
                mesh: previous.mesh,
                active_plan: previous.bundle.plan,
                plan: bundle.plan,
                snapshot: bundle.snapshot,
                mesh_revision: self.request.mesh_revision,
                options: self.request.meshing,
                preserve_adaptation: self.request.preserve_adaptation,
            },
            Work::AdvanceMesh => Task::Mesh {
                plan: bundle.plan,
                mesh_revision: self.built_revision(),
                options: self.request.meshing,
            },
            Work::StartAssembly => Task::Assemble {
                mesh,
                plan: bundle.plan,
                model: self.stripped(),
            },
            Work::PlacePointSource => Task::PlaceSource {
                mesh,
                operator,
                plan: bundle.plan,
                model: self.stripped(),
                source: self.request.point_source,
            },
            Work::StartCanonicalAssembly => Task::AssembleCanonical {
                mesh,
                operator,
                model: self.stripped(),
                document_revision: bundle.token.document_revision,
                active_canonical: match self.request.previous {
                    Some(previous) => Some(previous.canonical_operator),
                    None => None,
                },
            },
            Work::BuildTemporalOperator => Task::BuildTemporal {
                base: self.assembly.pending_canonical->0,
                mesh,
                operator,
                model: self.authored(),
            },
            Work::BuildIdentityTransfer | Work::BuildIdentityInterpolation => Task::TransferOnMesh {
                mesh,
                from_operator: previous.operator,
                to_operator: operator,
            },
            Work::StartTransfer => Task::Transfer {
                from: TransferEnd { mesh: previous.mesh, operator: previous.operator },
                to: TransferEnd { mesh, operator },
            },
            Work::StartSources => Task::CompileSources {
                mesh,
                operator,
                plan: bundle.plan,
                model: self.stripped(),
                volume_sources: bundle.authored,
            },
            Work::CompileForcing => Task::CompileForcing {
                mesh,
                operator,
                canonical: self.assembly.canonical_operator->0,
                compiled: self.sources.volume_sources->0,
                volume_sources: bundle.authored,
                source: self.request.point_source,
                active_forcing: match self.request.previous {
                    Some(previous) => Some(previous.canonical_forcing),
                    None => None,
                },
            },
            Work::PreparePrimaryTransfer => Task::TransferPrimary {
                interpolation: self.interpolation(),
                active: self.active_end(),
                candidate: self.candidate_end(),
            },
            Work::PrepareThinGapTransfer => Task::TransferThinGap {
                from_canonical: self.active_end().operator,
                to_canonical: self.candidate_end().operator,
            },
            Work::PrepareOutgoingTransfer => Task::TransferOutgoing {
                interpolation: self.interpolation(),
                from_canonical: self.active_end().operator,
                to_canonical: self.candidate_end().operator,
            },
            Work::AdvanceVectorTransfer => Task::TransferVector {
                active: self.active_end(),
                candidate: self.candidate_end(),
            },
            Work::CompileMeasurements => Task::Measure {
                mesh,
                operator,
                bundle,
                model: self.stripped(),
                definitions: self.request.probes,
                kept: self.kept_probes(),
                far_field: self.far_field_task(),
            },
            Work::AdvanceAssembly | Work::AdvanceCanonicalAssembly | Work::AdvanceTransfer
            | Work::AdvanceSources | Work::AdvanceOutgoingTransfer => Task::Continue,
            Work::JoinCanonicalTransfer | Work::Nothing => Task::Nothing,
        }
    }

    /// What the next piece of work is done on.
    pub fn task(&self) -> (result: Task)
        requires
            self.wf(),
            self.equipped(),
        ensures
            result == self.next_task(),
    {
        proof {
            reveal(TopologyPreparationJob::work);
        }
        let work: Work = self.decide();
        let bundle: AcceptedTopology = self.request.bundle;
        match work {
            Work::AdvanceCarve => self.carve_task(),
            Work::AdvanceMesh => Task::Mesh {
                plan: bundle.plan,
                mesh_revision: if self.mesh.repair_fallback.is_some() {
                    bundle.token.mesh_generation
                } else {
                    self.request.mesh_revision
                },
                options: self.request.meshing,
            },
            Work::StartAssembly => Task::Assemble {
                mesh: self.mesh.mesh.unwrap(),
                plan: bundle.plan,
                model: WaveModel::Stripped(self.stripped_model.unwrap()),
            },
            Work::PlacePointSource => Task::PlaceSource {
                mesh: self.mesh.mesh.unwrap(),
                operator: self.assembly.operator.unwrap(),
                plan: bundle.plan,
                model: WaveModel::Stripped(self.stripped_model.unwrap()),
                source: self.request.point_source,
            },
            Work::StartCanonicalAssembly => Task::AssembleCanonical {
                mesh: self.mesh.mesh.unwrap(),
                operator: self.assembly.operator.unwrap(),
                model: WaveModel::Stripped(self.stripped_model.unwrap()),
                document_revision: bundle.token.document_revision,
                active_canonical: match &self.request.previous {
                    Some(previous) => Some(previous.canonical_operator),
                    None => None,
                },
            },
            Work::BuildTemporalOperator => Task::BuildTemporal {
                base: self.assembly.pending_canonical.unwrap(),
                mesh: self.mesh.mesh.unwrap(),
                operator: self.assembly.operator.unwrap(),
                model: WaveModel::Authored(bundle.authored),
            },
            Work::BuildIdentityTransfer | Work::BuildIdentityInterpolation
            | Work::StartTransfer => self.transfer_task(work),
            Work::StartSources => Task::CompileSources {
                mesh: self.mesh.mesh.unwrap(),
                operator: self.assembly.operator.unwrap(),
                plan: bundle.plan,
                model: WaveModel::Stripped(self.stripped_model.unwrap()),
                volume_sources: bundle.authored,
            },
            Work::CompileForcing => Task::CompileForcing {
                mesh: self.mesh.mesh.unwrap(),
                operator: self.assembly.operator.unwrap(),
                canonical: self.assembly.canonical_operator.unwrap(),
                compiled: self.sources.volume_sources.unwrap(),
                volume_sources: bundle.authored,
                source: self.request.point_source,
                active_forcing: match &self.request.previous {
                    Some(previous) => Some(previous.canonical_forcing),
                    None => None,
                },
            },
            Work::PreparePrimaryTransfer | Work::PrepareThinGapTransfer
            | Work::PrepareOutgoingTransfer | Work::AdvanceVectorTransfer => self.canonical_task(
                work,
            ),
            Work::CompileMeasurements => self.measurement_task(),
            Work::AdvanceAssembly | Work::AdvanceCanonicalAssembly | Work::AdvanceTransfer
            | Work::AdvanceSources | Work::AdvanceOutgoingTransfer => Task::Continue,
            Work::JoinCanonicalTransfer | Work::Nothing => Task::Nothing,
        }
    }

    fn carve_task(&self) -> (result: Task)
        requires
            self.wf(),
            self.work() is AdvanceCarve,
        ensures
            result == self.next_task(),
    {
        proof {
            reveal(TopologyPreparationJob::work);
        }
        match &self.request.previous {
            Some(previous) => Task::Carve {
                mesh: previous.mesh,
                active_plan: previous.bundle.plan,
                plan: self.request.bundle.plan,
                snapshot: self.request.bundle.snapshot,
                mesh_revision: self.request.mesh_revision,
                options: self.request.meshing,
                preserve_adaptation: self.request.preserve_adaptation,
            },
            None => Task::Nothing,
        }
    }

    fn transfer_task(&self, work: Work) -> (result: Task)
        requires
            self.wf(),
            work == self.work(),
            work is BuildIdentityTransfer || work is BuildIdentityInterpolation
                || work is StartTransfer,
        ensures
            result == self.next_task(),
    {
        proof {
            reveal(TopologyPreparationJob::work);
        }
        let mesh: Artifact = self.mesh.mesh.unwrap();
        let operator: Artifact = self.assembly.operator.unwrap();
        match &self.request.previous {
            Some(previous) => if matches!(work, Work::StartTransfer) {
                Task::Transfer {
                    from: TransferEnd { mesh: previous.mesh, operator: previous.operator },
                    to: TransferEnd { mesh, operator },
                }
            } else {
                Task::TransferOnMesh {
                    mesh,
                    from_operator: previous.operator,
                    to_operator: operator,
                }
            },
            None => Task::Nothing,
        }
    }

    fn canonical_task(&self, work: Work) -> (result: Task)
        requires
            self.wf(),
            work == self.work(),
            work is PreparePrimaryTransfer || work is PrepareThinGapTransfer
                || work is PrepareOutgoingTransfer || work is AdvanceVectorTransfer,
        ensures
            result == self.next_task(),
    {
        proof {
            reveal(TopologyPreparationJob::work);
        }
        let to = CanonicalEnd {
            mesh: self.mesh.mesh.unwrap(),
            operator: self.assembly.canonical_operator.unwrap(),
        };
        let from: CanonicalEnd = match &self.request.previous {
            Some(previous) => CanonicalEnd {
                mesh: previous.mesh,
                operator: previous.canonical_operator,
            },
            None => to,
        };
        let interpolation: Artifact = match self.sources.transfer {
            Some(transfer) => transfer,
            None => self.canonical.interpolation.unwrap(),
        };
        match work {
            Work::PreparePrimaryTransfer => Task::TransferPrimary {
                interpolation,
                active: from,
                candidate: to,
            },
            Work::PrepareThinGapTransfer => Task::TransferThinGap {
                from_canonical: from.operator,
                to_canonical: to.operator,
            },
            Work::PrepareOutgoingTransfer => Task::TransferOutgoing {
                interpolation,
                from_canonical: from.operator,
                to_canonical: to.operator,
            },
            _ => Task::TransferVector { active: from, candidate: to },
        }
    }

    fn measurement_task(&self) -> (result: Task)
        requires
            self.wf(),
            self.equipped(),
            self.work() is CompileMeasurements,
        ensures
            result == self.next_task(),
    {
        proof {
            reveal(TopologyPreparationJob::work);
        }
        let bundle: AcceptedTopology = self.request.bundle;
        let kept: Option<KeptProbes> = match &self.request.previous {
            Some(previous) => if self.request.operator_reused {
                Some(
                    KeptProbes {
                        definitions: previous.probe_definitions,
                        compiled: previous.probes,
                    },
                )
            } else {
                None
            },
            None => None,
        };
        let far_field: Option<FarFieldTask> = if self.far_field_wanted() {
            Some(
                FarFieldTask {
                    model: WaveModel::Authored(bundle.authored),
                    inset: self.request.far_field.inset,
                    sample_count: FAR_FIELD_CONTOUR_POINTS,
                    source: self.request.point_source,
                    volume_sources: bundle.authored,
                },
            )
        } else {
            None
        };
        Task::Measure {
            mesh: self.mesh.mesh.unwrap(),
            operator: self.assembly.operator.unwrap(),
            bundle,
            model: WaveModel::Stripped(self.stripped_model.unwrap()),
            definitions: self.request.probes,
            kept,
            far_field,
        }
    }
}

impl Task {
    /// The model that the task reads coefficients from, apart from a far field.
    pub open spec fn model_read(self) -> Option<WaveModel> {
        match self {
            Task::Assemble { model, .. } => Some(model),
            Task::PlaceSource { model, .. } => Some(model),
            Task::AssembleCanonical { model, .. } => Some(model),
            Task::BuildTemporal { model, .. } => Some(model),
            Task::CompileSources { model, .. } => Some(model),
            Task::Measure { model, .. } => Some(model),
            _ => None,
        }
    }
}

impl Task {
    /// What the stencils of every probe are built on.
    pub open spec fn base(self) -> Option<StencilBase> {
        match self {
            Task::Measure { mesh, operator, bundle, model, .. } => Some(
                StencilBase { mesh, operator, plan: bundle.plan, model },
            ),
            _ => None,
        }
    }

    /// What the stencils of every probe are built on, where the task is to
    /// measure.
    pub fn stencil_base(self) -> (result: Option<StencilBase>)
        ensures
            result == self.base(),
    {
        match self {
            Task::Measure { mesh, operator, bundle, model, .. } => Some(
                StencilBase { mesh, operator, plan: bundle.plan, model },
            ),
            _ => None,
        }
    }
}

/// The stencils of every probe, a boundary probe's like the others', are built on
/// the candidate's mesh, operator and plan, and read the model without temporal
/// laws.
pub proof fn every_probe_reads_the_stripped_model(job: TopologyPreparationJob)
    requires
        job.wf(),
        job.equipped(),
    ensures
        job.next_task().base() is Some <==> job.work() is CompileMeasurements,
        job.work() is CompileMeasurements ==> {
            &&& job.stripped_model is Some
            &&& job.mesh.mesh is Some
            &&& job.assembly.operator is Some
            &&& job.next_task().base() == Some(
                StencilBase {
                    mesh: job.mesh.mesh->0,
                    operator: job.assembly.operator->0,
                    plan: job.request.bundle.plan,
                    model: WaveModel::Stripped(job.stripped_model->0),
                },
            )
        },
{
    reveal(TopologyPreparationJob::work);
}

/// Both assemblies, the placement of the point source, the volume sources and
/// every probe read one model, the one without temporal laws; the temporal
/// operator reads the authored one.
pub proof fn the_fixed_compilers_read_the_stripped_model(job: TopologyPreparationJob)
    requires
        job.wf(),
        job.equipped(),
    ensures
        job.work().reads_stripped() <==> job.next_task().model_read() == Some(
            WaveModel::Stripped(job.stripped_model->0),
        ),
        job.work() is BuildTemporalOperator <==> job.next_task().model_read() == Some(
            WaveModel::Authored(job.request.bundle.authored),
        ),
{
}

/// A far field reads the authored model, so that it can refuse a drive outside.
pub proof fn the_far_field_reads_the_authored_model(job: TopologyPreparationJob)
    requires
        job.wf(),
        job.equipped(),
    ensures
        job.next_task() matches Task::Measure { far_field, .. } ==> {
            &&& far_field is Some <==> job.wants_far_field()
            &&& far_field is Some ==> far_field->0.model == WaveModel::Authored(
                job.request.bundle.authored,
            )
        },
{
}

/// A field is carried from the active mesh and operators to the candidate's.
pub proof fn a_transfer_goes_from_the_active_topology_to_the_candidate(
    job: TopologyPreparationJob,
)
    requires
        job.wf(),
        job.equipped(),
    ensures
        ({
            let active = job.request.previous->0;
            &&& job.next_task() matches Task::Transfer { from, to } ==> from.mesh == active.mesh
                && from.operator == active.operator && job.mesh.mesh == Some(to.mesh)
                && job.assembly.operator == Some(to.operator)
            &&& job.next_task() matches Task::TransferOnMesh { mesh, from_operator, to_operator }
                ==> from_operator == active.operator && job.mesh.mesh == Some(mesh)
                && job.assembly.operator == Some(to_operator)
            &&& job.next_task() matches Task::TransferPrimary { active: from, candidate: to, .. } ==> from.mesh
                == active.mesh && from.operator == active.canonical_operator && job.mesh.mesh
                == Some(to.mesh) && job.assembly.canonical_operator == Some(to.operator)
            &&& job.next_task() matches Task::TransferVector { active: from, candidate: to } ==> from.mesh
                == active.mesh && from.operator == active.canonical_operator && job.mesh.mesh
                == Some(to.mesh) && job.assembly.canonical_operator == Some(to.operator)
        }),
{
    reveal(TopologyPreparationJob::work);
}

/// The temporal operator is built over the canonical operator that was just
/// built, and that operator is then the candidate's.
pub proof fn the_temporal_operator_is_built_over_the_canonical_one(
    job: TopologyPreparationJob,
    temporal: StepOperator,
)
    requires
        job.wf(),
        job.work() is BuildTemporalOperator,
    ensures
        ({
            let built = job.accepted(crate::preparation_job::WorkOutcome::BuiltOperator(temporal));
            &&& job.next_task() matches Task::BuildTemporal { base, .. }
            &&& built.assembly.canonical_operator == Some(base)
            &&& built.assembly.temporal_operator == Some(temporal)
        }),
{
    reveal(TopologyPreparationJob::work);
    reveal(TopologyPreparationJob::temporal_accepted);
}

} // verus!
