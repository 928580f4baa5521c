//! How a preparation starts and how its slices are counted.

use crate::preparation::{
    AcceptedTopology, Artifact, CompiledTopologyScene, MeshingOptions, PreparationIntent,
    PreparedTopology, TopologyFullRebuildReason, TopologyMeshUpdateAction, TopologyPreparationError,
    TopologyPreparationPhase, TopologyPreparationTiming, TopologyToken,
};
use crate::preparation_job::{
    AssemblyStage, CanonicalStage, DocumentFacts, ForcingChange, JobRequest, MeshStage,
    PreviousComparison, PrimaryStage, SourceStage, TimingBucket, TopologyPreparationJob, Work,
};
use crate::scalar::Scalar;
use vstd::prelude::*;

verus! {

/// Whether the active mesh was built from the scene that is being prepared.
pub open spec fn keeps_mesh_scene(
    previous: Option<PreparedTopology>,
    comparison: PreviousComparison,
) -> bool {
    previous is Some && comparison.scene.same_mesh_inputs()
}

/// The bundle of a candidate over an unchanged mesh scene.
pub open spec fn kept_bundle(
    document_revision: u64,
    document: DocumentFacts,
    coarsened: Artifact,
    previous: PreparedTopology,
    comparison: PreviousComparison,
    mesh_revision: u64,
    options: MeshingOptions,
    intent: PreparationIntent,
) -> AcceptedTopology {
    let same_options = previous.meshing.eq_options(options);
    AcceptedTopology {
        token: TopologyToken {
            document_revision,
            topology_revision: previous.bundle.token.topology_revision,
            mesh_generation: if same_options && !intent.force_rebuild {
                previous.bundle.token.mesh_generation
            } else {
                mesh_revision
            },
        },
        authored: if comparison.scene.same_scene() {
            previous.bundle.authored
        } else {
            document.authored
        },
        snapshot: previous.bundle.snapshot,
        // The plan's atoms depend on the meshing options.
        plan: if same_options {
            previous.bundle.plan
        } else {
            coarsened
        },
    }
}

/// The bundle of a new candidate, or what is said of a compiled scene that
/// cannot be prepared.
pub open spec fn new_bundle(
    document_revision: u64,
    document: DocumentFacts,
    compiled: CompiledTopologyScene,
    previous: Option<PreparedTopology>,
    comparison: PreviousComparison,
    mesh_revision: u64,
    options: MeshingOptions,
    intent: PreparationIntent,
) -> Result<AcceptedTopology, Seq<char>> {
    if keeps_mesh_scene(previous, comparison) {
        if !previous->0.meshing.eq_options(options) && compiled.coarsened is Err {
            Err(crate::preparation::coarsening_prefix() + compiled.coarsened->Err_0@)
        } else {
            Ok(
                kept_bundle(
                    document_revision,
                    document,
                    compiled.coarsened->Ok_0,
                    previous->0,
                    comparison,
                    mesh_revision,
                    options,
                    intent,
                ),
            )
        }
    } else if compiled.consistent() && compiled.coarsened is Ok {
        Ok(
            AcceptedTopology {
                token: TopologyToken {
                    document_revision,
                    topology_revision: compiled.revision,
                    mesh_generation: mesh_revision,
                },
                authored: document.authored,
                snapshot: compiled.snapshot,
                plan: compiled.coarsened->Ok_0,
            },
        )
    } else {
        Err(crate::preparation::refusal(compiled))
    }
}

/// The mesh that can be taken over as it is, once the plans call for that.
pub open spec fn reusable_mesh(
    previous: PreparedTopology,
    comparison: PreviousComparison,
) -> Option<Artifact> {
    if comparison.scene.same_mesh_inputs() {
        Some(previous.mesh)
    } else {
        comparison.retraced
    }
}

/// What happens to the active mesh.
pub open spec fn new_action(
    previous: Option<PreparedTopology>,
    comparison: PreviousComparison,
    options: MeshingOptions,
    intent: PreparationIntent,
) -> TopologyMeshUpdateAction {
    match previous {
        None => TopologyMeshUpdateAction::FullRebuild(TopologyFullRebuildReason::DomainChanged),
        // Changed options re-derive the plan's atoms, so the plans are not
        // compared at all.
        Some(active) => if !active.meshing.eq_options(options) {
            TopologyMeshUpdateAction::FullRebuild(TopologyFullRebuildReason::MeshingOptionsChanged)
        } else if comparison.plan_change is Reuse {
            if intent.force_rebuild {
                TopologyMeshUpdateAction::FullRebuild(TopologyFullRebuildReason::Requested)
            } else if reusable_mesh(active, comparison) is None {
                TopologyMeshUpdateAction::FullRebuild(
                    TopologyFullRebuildReason::TraceIdentityChanged,
                )
            } else {
                TopologyMeshUpdateAction::Reuse
            }
        } else {
            comparison.plan_change
        },
    }
}

pub open spec fn new_mesh_stage(
    previous: Option<PreparedTopology>,
    comparison: PreviousComparison,
    action: TopologyMeshUpdateAction,
) -> MeshStage {
    MeshStage {
        action,
        carving: action is Repair,
        carve: None,
        repair_fallback: None,
        building: action is FullRebuild,
        mesh: if action is Reuse {
            reusable_mesh(previous->0, comparison)
        } else {
            None
        },
    }
}

pub open spec fn first_phase(action: TopologyMeshUpdateAction) -> TopologyPreparationPhase {
    match action {
        TopologyMeshUpdateAction::Reuse => TopologyPreparationPhase::Assembling,
        TopologyMeshUpdateAction::Repair(_) => TopologyPreparationPhase::Repairing,
        TopologyMeshUpdateAction::FullRebuild(_) => TopologyPreparationPhase::Meshing,
    }
}

/// A rebuilt mesh needs a new operator even when the scene is unchanged.
pub open spec fn reuses_operator(
    previous: Option<PreparedTopology>,
    comparison: PreviousComparison,
    action: TopologyMeshUpdateAction,
) -> bool {
    previous is Some && comparison.scene.same_operator_inputs() && action is Reuse
}

pub open spec fn new_assembly_stage(
    document: DocumentFacts,
    previous: Option<PreparedTopology>,
    comparison: PreviousComparison,
    operator_reused: bool,
) -> AssemblyStage {
    AssemblyStage {
        assembling: false,
        operator: if operator_reused {
            Some(previous->0.operator)
        } else {
            None
        },
        just_finished: false,
        source_validated: operator_reused && previous->0.point_source.enabled
            == document.source.enabled && comparison.source_place,
        source_validation_count: 0,
        assembling_canonical: false,
        pending_canonical: None,
        canonical_operator: if operator_reused {
            Some(previous->0.canonical_operator)
        } else {
            None
        },
        // The laws travel with the operator.
        temporal_operator: if operator_reused {
            previous->0.canonical_temporal_operator
        } else {
            None
        },
    }
}

pub open spec fn new_source_stage(
    previous: Option<PreparedTopology>,
    comparison: PreviousComparison,
    operator_reused: bool,
) -> SourceStage {
    let forcing_kept = operator_reused && comparison.source && comparison.scene.volume_sources;
    SourceStage {
        transferring: false,
        transfer: None,
        compiling: false,
        volume_sources: if operator_reused && comparison.scene.volume_layout {
            Some(
                if comparison.scene.volume_sources {
                    previous->0.volume_sources
                } else {
                    comparison.resignalled
                },
            )
        } else {
            None
        },
        forcing: if forcing_kept {
            Some(previous->0.canonical_forcing)
        } else {
            None
        },
        forcing_change: if forcing_kept {
            ForcingChange::Unchanged
        } else {
            ForcingChange::Layout
        },
    }
}

pub open spec fn idle_canonical_stage() -> CanonicalStage {
    CanonicalStage {
        interpolation: None,
        primary_stage: PrimaryStage::Idle,
        primary: None,
        transferring_vector: false,
        vector: None,
        gap: None,
        transferring_outgoing: false,
        outgoing: None,
        joined: None,
    }
}

fn idle_canonical() -> (result: CanonicalStage)
    ensures
        result == idle_canonical_stage(),
{
    CanonicalStage {
        interpolation: None,
        primary_stage: PrimaryStage::Idle,
        primary: None,
        transferring_vector: false,
        vector: None,
        gap: None,
        transferring_outgoing: false,
        outgoing: None,
        joined: None,
    }
}

/// The mesh that adaptation produced.
#[derive(Clone, Copy, Debug, PartialEq, Eq, Structural)]
pub struct AdaptedMesh {
    pub mesh: Artifact,
    pub geometry_revision: u64,
    pub mesh_revision: u64,
}

fn choose_bundle(
    document_revision: u64,
    document: &DocumentFacts,
    compiled: &CompiledTopologyScene,
    previous: &Option<PreparedTopology>,
    comparison: &PreviousComparison,
    mesh_revision: u64,
    options: MeshingOptions,
    intent: PreparationIntent,
) -> (result: Result<AcceptedTopology, String>)
    ensures
        match new_bundle(
            document_revision,
            *document,
            *compiled,
            *previous,
            *comparison,
            mesh_revision,
            options,
            intent,
        ) {
            Ok(bundle) => result == Ok::<AcceptedTopology, String>(bundle),
            Err(issue) => result is Err && result->Err_0@ == issue,
        },
{
    match previous {
        Some(active) if comparison.scene.mesh_scene_eq() => {
            let same_options: bool = active.meshing.equals(options);
            let plan: Artifact = if same_options {
                active.bundle.plan
            } else {
                match &compiled.coarsened {
                    Ok(plan) => *plan,
                    Err(issue) => {
                        return Err(
                            crate::text::joined(
                                "Compiled topology could not be prepared for meshing: ",
                                issue.as_str(),
                            ),
                        );
                    },
                }
            };
            Ok(
                AcceptedTopology {
                    token: TopologyToken {
                        document_revision,
                        topology_revision: active.bundle.token.topology_revision,
                        mesh_generation: if same_options && !intent.force_rebuild {
                            active.bundle.token.mesh_generation
                        } else {
                            mesh_revision
                        },
                    },
                    authored: if comparison.scene.authored_scene_eq() {
                        active.bundle.authored
                    } else {
                        document.authored
                    },
                    snapshot: active.bundle.snapshot,
                    plan,
                },
            )
        },
        _ => AcceptedTopology::new(document_revision, mesh_revision, document.authored, compiled),
    }
}

fn choose_action(
    previous: &Option<PreparedTopology>,
    comparison: &PreviousComparison,
    options: MeshingOptions,
    intent: PreparationIntent,
) -> (result: (TopologyMeshUpdateAction, Option<Artifact>))
    ensures
        result.0 == new_action(*previous, *comparison, options, intent),
        result.1 == (if result.0 is Reuse {
            reusable_mesh(previous->0, *comparison)
        } else {
            None
        }),
{
    match previous {
        None => (
            TopologyMeshUpdateAction::FullRebuild(TopologyFullRebuildReason::DomainChanged),
            None,
        ),
        Some(active) => {
            if !active.meshing.equals(options) {
                return (
                    TopologyMeshUpdateAction::FullRebuild(
                        TopologyFullRebuildReason::MeshingOptionsChanged,
                    ),
                    None,
                );
            }
            match comparison.plan_change {
                TopologyMeshUpdateAction::Reuse => {
                    if intent.force_rebuild {
                        return (
                            TopologyMeshUpdateAction::FullRebuild(
                                TopologyFullRebuildReason::Requested,
                            ),
                            None,
                        );
                    }
                    let reused: Option<Artifact> = if comparison.scene.mesh_scene_eq() {
                        Some(active.mesh)
                    } else {
                        comparison.retraced
                    };
                    if reused.is_none() {
                        (
                            TopologyMeshUpdateAction::FullRebuild(
                                TopologyFullRebuildReason::TraceIdentityChanged,
                            ),
                            None,
                        )
                    } else {
                        (TopologyMeshUpdateAction::Reuse, reused)
                    }
                },
                action => (action, None),
            }
        },
    }
}

fn first_assembly_stage(
    document: &DocumentFacts,
    previous: &Option<PreparedTopology>,
    comparison: &PreviousComparison,
    operator_reused: bool,
) -> (result: AssemblyStage)
    requires
        operator_reused ==> previous is Some,
    ensures
        result == new_assembly_stage(*document, *previous, *comparison, operator_reused),
{
    let mut stage = AssemblyStage {
        assembling: false,
        operator: None,
        just_finished: false,
        source_validated: false,
        source_validation_count: 0,
        assembling_canonical: false,
        pending_canonical: None,
        canonical_operator: None,
        temporal_operator: None,
    };
    if operator_reused {
        if let Some(active) = previous {
            stage.operator = Some(active.operator);
            stage.canonical_operator = Some(active.canonical_operator);
            stage.temporal_operator = active.canonical_temporal_operator;
            stage.source_validated = active.point_source.enabled == document.source.enabled
                && comparison.source_place;
        }
    }
    stage
}

fn first_source_stage(
    previous: &Option<PreparedTopology>,
    comparison: &PreviousComparison,
    operator_reused: bool,
) -> (result: SourceStage)
    requires
        operator_reused ==> previous is Some,
    ensures
        result == new_source_stage(*previous, *comparison, operator_reused),
{
    let mut stage = SourceStage {
        transferring: false,
        transfer: None,
        compiling: false,
        volume_sources: None,
        forcing: None,
        forcing_change: ForcingChange::Layout,
    };
    if operator_reused {
        if let Some(active) = previous {
            if comparison.source && comparison.scene.volume_sources {
                stage.forcing = Some(active.canonical_forcing);
                stage.forcing_change = ForcingChange::Unchanged;
            }
            if comparison.scene.volume_layout {
                stage.volume_sources = Some(
                    if comparison.scene.volume_sources {
                        active.volume_sources
                    } else {
                        comparison.resignalled
                    },
                );
            }
        }
    }
    stage
}

impl TopologyPreparationJob {
    /// The job that prepares a document, as it starts.
    pub open spec fn started(
        document: DocumentFacts,
        bundle: AcceptedTopology,
        previous: Option<PreparedTopology>,
        comparison: PreviousComparison,
        mesh_revision: u64,
        options: MeshingOptions,
        intent: PreparationIntent,
    ) -> Self {
        let action = new_action(previous, comparison, options, intent);
        let operator_reused = reuses_operator(previous, comparison, action);
        TopologyPreparationJob {
            request: JobRequest {
                bundle,
                probes: document.probes,
                point_source: document.source,
                source_valid: document.source_valid,
                far_field: document.far_field,
                driven: document.driven,
                previous,
                comparison,
                fresh: intent.fresh,
                operator_reused,
                require_solver_handoff: intent.require_solver_handoff,
                preserve_adaptation: intent.preserve_adaptation,
                adapted: false,
                meshing: options,
                mesh_revision,
            },
            phase: first_phase(action),
            stripped_model: None,
            mesh: new_mesh_stage(previous, comparison, action),
            assembly: new_assembly_stage(document, previous, comparison, operator_reused),
            sources: new_source_stage(previous, comparison, operator_reused),
            canonical: idle_canonical_stage(),
            done: false,
            timing: TopologyPreparationTiming::none(),
        }
    }

    /// Starts the preparation of a document. A field that is carried over needs
    /// an active topology to be carried over from.
    pub fn new(
        document_revision: u64,
        document: &DocumentFacts,
        compiled: &CompiledTopologyScene,
        previous: Option<PreparedTopology>,
        comparison: PreviousComparison,
        mesh_revision: u64,
        options: MeshingOptions,
        intent: PreparationIntent,
    ) -> (result: Result<Self, String>)
        requires
            intent.fresh || previous is Some,
        ensures
            match new_bundle(
                document_revision,
                *document,
                *compiled,
                previous,
                comparison,
                mesh_revision,
                options,
                intent,
            ) {
                Ok(bundle) => result == Ok::<Self, String>(
                    Self::started(
                        *document,
                        bundle,
                        previous,
                        comparison,
                        mesh_revision,
                        options,
                        intent,
                    ),
                ),
                Err(issue) => result is Err && result->Err_0@ == issue,
            },
            result matches Ok(job) ==> job.wf(),
    {
        let bundle: AcceptedTopology = match choose_bundle(
            document_revision,
            document,
            compiled,
            &previous,
            &comparison,
            mesh_revision,
            options,
            intent,
        ) {
            Ok(bundle) => bundle,
            Err(issue) => {
                return Err(issue);
            },
        };
        let (action, mesh) = choose_action(&previous, &comparison, options, intent);
        let reuse: bool = matches!(action, TopologyMeshUpdateAction::Reuse);
        let operator_reused: bool = previous.is_some() && comparison.scene.operator_scene_eq()
            && reuse;
        let assembly: AssemblyStage = first_assembly_stage(
            document,
            &previous,
            &comparison,
            operator_reused,
        );
        let sources: SourceStage = first_source_stage(&previous, &comparison, operator_reused);
        let phase: TopologyPreparationPhase = match action {
            TopologyMeshUpdateAction::Reuse => TopologyPreparationPhase::Assembling,
            TopologyMeshUpdateAction::Repair(_) => TopologyPreparationPhase::Repairing,
            TopologyMeshUpdateAction::FullRebuild(_) => TopologyPreparationPhase::Meshing,
        };
        Ok(
            TopologyPreparationJob {
                request: JobRequest {
                    bundle,
                    probes: document.probes,
                    point_source: document.source,
                    source_valid: document.source_valid,
                    far_field: document.far_field,
                    driven: document.driven,
                    previous,
                    comparison,
                    fresh: intent.fresh,
                    operator_reused,
                    require_solver_handoff: intent.require_solver_handoff,
                    preserve_adaptation: intent.preserve_adaptation,
                    adapted: false,
                    meshing: options,
                    mesh_revision,
                },
                phase,
                stripped_model: None,
                mesh: MeshStage {
                    action,
                    carving: matches!(action, TopologyMeshUpdateAction::Repair(_)),
                    carve: None,
                    repair_fallback: None,
                    building: matches!(action, TopologyMeshUpdateAction::FullRebuild(_)),
                    mesh,
                },
                assembly,
                sources,
                canonical: idle_canonical(),
                done: false,
                timing: TopologyPreparationTiming::default(),
            },
        )
    }

    /// Whether an adapted mesh continues the active topology.
    pub open spec fn continues(
        previous: PreparedTopology,
        comparison: PreviousComparison,
        plan_geometry_revision: u64,
        active_mesh_revision: u64,
        mesh: AdaptedMesh,
    ) -> bool {
        &&& comparison.scene.same_scene()
        &&& mesh.geometry_revision == plan_geometry_revision
        &&& mesh.mesh_revision != active_mesh_revision
    }

    /// The job that prepares an adapted mesh, as it starts.
    pub open spec fn started_adapted(
        document_revision: u64,
        document: DocumentFacts,
        previous: PreparedTopology,
        comparison: PreviousComparison,
        mesh: AdaptedMesh,
    ) -> Self {
        TopologyPreparationJob {
            request: JobRequest {
                bundle: AcceptedTopology {
                    token: TopologyToken {
                        document_revision,
                        topology_revision: previous.bundle.token.topology_revision,
                        mesh_generation: mesh.mesh_revision,
                    },
                    ..previous.bundle
                },
                probes: document.probes,
                point_source: document.source,
                source_valid: document.source_valid,
                far_field: document.far_field,
                driven: document.driven,
                previous: Some(previous),
                comparison,
                fresh: false,
                operator_reused: false,
                require_solver_handoff: true,
                preserve_adaptation: false,
                adapted: true,
                meshing: previous.meshing,
                mesh_revision: mesh.mesh_revision,
            },
            phase: TopologyPreparationPhase::Assembling,
            stripped_model: None,
            mesh: MeshStage {
                action: TopologyMeshUpdateAction::Reuse,
                carving: false,
                carve: None,
                repair_fallback: None,
                building: false,
                mesh: Some(mesh.mesh),
            },
            assembly: new_assembly_stage(document, None, comparison, false),
            sources: new_source_stage(None, comparison, false),
            canonical: idle_canonical_stage(),
            done: false,
            timing: TopologyPreparationTiming::none(),
        }
    }

    /// Starts the preparation of an adapted mesh over the active topology.
    pub fn new_adapted(
        document_revision: u64,
        document: &DocumentFacts,
        previous: PreparedTopology,
        comparison: PreviousComparison,
        plan_geometry_revision: u64,
        active_mesh_revision: u64,
        mesh: AdaptedMesh,
    ) -> (result: Result<Self, String>)
        ensures
            result is Ok <==> Self::continues(
                previous,
                comparison,
                plan_geometry_revision,
                active_mesh_revision,
                mesh,
            ),
            result matches Ok(job) ==> job == Self::started_adapted(
                document_revision,
                *document,
                previous,
                comparison,
                mesh,
            ) && job.wf(),
            result matches Err(issue) ==> issue@
                == "Adapted mesh does not match the active topology"@,
    {
        if !comparison.scene.authored_scene_eq() || mesh.geometry_revision
            != plan_geometry_revision || mesh.mesh_revision == active_mesh_revision {
            return Err("Adapted mesh does not match the active topology".to_owned());
        }
        let bundle = AcceptedTopology {
            token: TopologyToken {
                document_revision,
                topology_revision: previous.bundle.token.topology_revision,
                mesh_generation: mesh.mesh_revision,
            },
            authored: previous.bundle.authored,
            snapshot: previous.bundle.snapshot,
            plan: previous.bundle.plan,
        };
        let meshing: MeshingOptions = previous.meshing;
        let assembly: AssemblyStage = first_assembly_stage(document, &None, &comparison, false);
        let sources: SourceStage = first_source_stage(&None, &comparison, false);
        Ok(
            TopologyPreparationJob {
                request: JobRequest {
                    bundle,
                    probes: document.probes,
                    point_source: document.source,
                    source_valid: document.source_valid,
                    far_field: document.far_field,
                    driven: document.driven,
                    previous: Some(previous),
                    comparison,
                    fresh: false,
                    operator_reused: false,
                    require_solver_handoff: true,
                    preserve_adaptation: false,
                    adapted: true,
                    meshing,
                    mesh_revision: mesh.mesh_revision,
                },
                phase: TopologyPreparationPhase::Assembling,
                stripped_model: None,
                mesh: MeshStage {
                    action: TopologyMeshUpdateAction::Reuse,
                    carving: false,
                    carve: None,
                    repair_fallback: None,
                    building: false,
                    mesh: Some(mesh.mesh),
                },
                assembly,
                sources,
                canonical: idle_canonical(),
                done: false,
                timing: TopologyPreparationTiming::default(),
            },
        )
    }

    pub fn token(&self) -> (result: TopologyToken)
        ensures
            result == self.request.bundle.token,
    {
        self.request.bundle.token
    }

    pub fn phase(&self) -> (result: TopologyPreparationPhase)
        ensures
            result == self.phase,
    {
        self.phase
    }

    pub fn timing(&self) -> (result: TopologyPreparationTiming)
        ensures
            result == self.timing,
    {
        self.timing
    }

    /// The cooperative job whose own phase describes the progress best, if one
    /// is running.
    pub open spec fn running_job(self) -> Option<Work> {
        if self.mesh.carving {
            Some(Work::AdvanceCarve)
        } else if self.mesh.building {
            Some(Work::AdvanceMesh)
        } else if self.assembly.assembling {
            Some(Work::AdvanceAssembly)
        } else if self.assembly.assembling_canonical {
            Some(Work::AdvanceCanonicalAssembly)
        } else if self.sources.transferring {
            Some(Work::AdvanceTransfer)
        } else if self.canonical.transferring_vector {
            Some(Work::AdvanceVectorTransfer)
        } else if self.canonical.transferring_outgoing {
            Some(Work::AdvanceOutgoingTransfer)
        } else {
            None
        }
    }

    /// The running job to ask for a description; without one the phase label
    /// stands.
    pub fn detail(&self) -> (result: Result<Work, &'static str>)
        ensures
            match self.running_job() {
                Some(work) => result == Ok::<Work, &'static str>(work),
                None => result is Err && result->Err_0@ == self.phase.label_text(),
            },
    {
        if self.mesh.carving {
            Ok(Work::AdvanceCarve)
        } else if self.mesh.building {
            Ok(Work::AdvanceMesh)
        } else if self.assembly.assembling {
            Ok(Work::AdvanceAssembly)
        } else if self.assembly.assembling_canonical {
            Ok(Work::AdvanceCanonicalAssembly)
        } else if self.sources.transferring {
            Ok(Work::AdvanceTransfer)
        } else if self.canonical.transferring_vector {
            Ok(Work::AdvanceVectorTransfer)
        } else if self.canonical.transferring_outgoing {
            Ok(Work::AdvanceOutgoingTransfer)
        } else {
            Err(self.phase.label())
        }
    }

    /// Whether a call with this budget advances the job at all.
    pub fn advances(&self, budget: usize) -> (result: bool)
        ensures
            result == (!self.done && budget != 0),
    {
        !self.done && budget != 0
    }

    /// The job once the total of a bucket was replaced.
    pub open spec fn charged(self, bucket: TimingBucket, total: Scalar) -> Self {
        TopologyPreparationJob {
            timing: match bucket {
                TimingBucket::Meshing => TopologyPreparationTiming {
                    meshing_ms: total,
                    ..self.timing
                },
                TimingBucket::Assembly => TopologyPreparationTiming {
                    assembly_ms: total,
                    ..self.timing
                },
                TimingBucket::Transfer => TopologyPreparationTiming {
                    transfer_ms: total,
                    ..self.timing
                },
                TimingBucket::Sources => TopologyPreparationTiming {
                    sources_ms: total,
                    ..self.timing
                },
                TimingBucket::Measurements => TopologyPreparationTiming {
                    measurements_ms: total,
                    ..self.timing
                },
                TimingBucket::Uncategorized => self.timing,
            },
            ..self
        }
    }

    /// Puts the new total of a bucket in place of the old one.
    pub fn charge(&mut self, bucket: TimingBucket, total: Scalar)
        ensures
            *final(self) == old(self).charged(bucket, total),
    {
        match bucket {
            TimingBucket::Meshing => {
                self.timing.meshing_ms = total;
            },
            TimingBucket::Assembly => {
                self.timing.assembly_ms = total;
            },
            TimingBucket::Transfer => {
                self.timing.transfer_ms = total;
            },
            TimingBucket::Sources => {
                self.timing.sources_ms = total;
            },
            TimingBucket::Measurements => {
                self.timing.measurements_ms = total;
            },
            TimingBucket::Uncategorized => {},
        }
    }

    /// The timing after one more slice.
    pub open spec fn sliced_timing(self, elapsed: Scalar, work_total: Scalar)
        -> TopologyPreparationTiming {
        TopologyPreparationTiming {
            work_ms: work_total,
            slices: if self.timing.slices < u32::MAX {
                (self.timing.slices + 1) as u32
            } else {
                u32::MAX
            },
            longest_slice_ms: self.timing.longest_slice_ms.larger_num(elapsed),
            ..self.timing
        }
    }

    /// Counts a slice that took `elapsed` and brought the working time to
    /// `work_total`. A finished candidate took its timing before the slice was
    /// counted, so it is given the new one.
    pub fn finish_slice(
        &mut self,
        elapsed: Scalar,
        work_total: Scalar,
        outcome: Option<Result<PreparedTopology, TopologyPreparationError>>,
    ) -> (result: Option<Result<PreparedTopology, TopologyPreparationError>>)
        ensures
            *final(self) == (TopologyPreparationJob {
                timing: old(self).sliced_timing(elapsed, work_total),
                ..*old(self)
            }),
            result == (match outcome {
                Some(Ok(prepared)) => Some(
                    Ok::<PreparedTopology, TopologyPreparationError>(
                        PreparedTopology {
                            timing: old(self).sliced_timing(elapsed, work_total),
                            ..prepared
                        },
                    ),
                ),
                other => other,
            }),
    {
        self.timing.work_ms = work_total;
        self.timing.slices = self.timing.slices.saturating_add(1);
        self.timing.longest_slice_ms = self.timing.longest_slice_ms.larger(elapsed);
        match outcome {
            Some(Ok(prepared)) => {
                let mut prepared = prepared;
                prepared.timing = self.timing;
                Some(Ok(prepared))
            },
            other => other,
        }
    }
}

/// A mesh vertex as far as its trace goes.
pub type Trace = Option<u64>;

/// The new number of a trace.
pub open spec fn remapped(remap: Seq<(u64, u64)>, trace: u64) -> Option<u64>
    decreases remap.len(),
{
    if remap.len() == 0 {
        None
    } else if remap[0].0 == trace {
        Some(remap[0].1)
    } else {
        remapped(remap.drop_first(), trace)
    }
}

/// The traces of a mesh under a new numbering, if every one of them has a
/// number there.
pub open spec fn retraced_vertices(vertices: Seq<Trace>, remap: Seq<(u64, u64)>) -> Option<
    Seq<Trace>,
> {
    if forall|i: int|
        0 <= i < vertices.len() && (#[trigger] vertices[i]) is Some ==> remapped(
            remap,
            vertices[i]->0,
        ) is Some {
        Some(
            vertices.map_values(
                |vertex: Trace|
                    match vertex {
                        Some(trace) => remapped(remap, trace),
                        None => None,
                    },
            ),
        )
    } else {
        None
    }
}

fn lookup(remap: &Vec<(u64, u64)>, trace: u64) -> (result: Option<u64>)
    ensures
        result == remapped(remap@, trace),
{
    let mut index: usize = 0;
    assert(remap@.skip(0) =~= remap@);
    while index < remap.len()
        invariant
            index <= remap@.len(),
            remapped(remap@.skip(index as int), trace) == remapped(remap@, trace),
        decreases remap@.len() - index,
    {
        let entry: (u64, u64) = remap[index];
        assert(remap@.skip(index as int).drop_first() =~= remap@.skip(index + 1));
        if entry.0 == trace {
            return Some(entry.1);
        }
        index = index + 1;
    }
    None
}

/// Copies the traces of a mesh onto a plan with a fresh trace numbering. There
/// is no copy when some trace has no number in the new plan, which calls for a
/// rebuild.
pub fn retraced(vertices: &Vec<Trace>, remap: &Vec<(u64, u64)>) -> (result: Option<Vec<Trace>>)
    ensures
        match retraced_vertices(vertices@, remap@) {
            Some(traces) => result is Some && result->0@ == traces,
            None => result is None,
        },
{
    let mut traces: Vec<Trace> = Vec::new();
    let mut index: usize = 0;
    let ghost renumber = |vertex: Trace|
        match vertex {
            Some(trace) => remapped(remap@, trace),
            None => None,
        };
    while index < vertices.len()
        invariant
            index <= vertices@.len(),
            traces@.len() == index,
            forall|i: int|
                0 <= i < index && (#[trigger] vertices@[i]) is Some ==> remapped(
                    remap@,
                    vertices@[i]->0,
                ) is Some,
            forall|i: int|
                0 <= i < index ==> #[trigger] traces@[i] == (match vertices@[i] {
                    Some(trace) => remapped(remap@, trace),
                    None => None,
                }),
        decreases vertices@.len() - index,
    {
        match vertices[index] {
            None => {
                traces.push(None);
            },
            Some(trace) => {
                let renumbered: Option<u64> = lookup(remap, trace);
                if renumbered.is_none() {
                    assert(vertices@[index as int] is Some);
                    return None;
                }
                traces.push(renumbered);
            },
        }
        index = index + 1;
    }
    assert(traces@ =~= vertices@.map_values(renumber));
    Some(traces)
}

} // verus!
