//! What holds of every preparation and of every publication.

use crate::preparation::{
    Artifact, CompiledTopologyScene, MeshingOptions, PreparationIntent, PreparedTopology,
    TopologyFullRebuildReason, TopologyMeshUpdateAction, TopologyPreparationError, TopologyToken,
};
use crate::preparation_job::{
    DocumentFacts, PreviousComparison, TopologyPreparationJob, Work, WorkOutcome,
};
use crate::preparation_start::new_action;
use crate::runtime::{following_revision, TopologyRuntime};
use vstd::prelude::*;

verus! {

spec fn count(flag: bool) -> nat {
    if flag {
        1
    } else {
        0
    }
}

/// The steps of meshing and assembly that are left.
spec fn assembly_steps_left(job: TopologyPreparationJob) -> nat {
    2 * count(job.mesh.carving) + count(job.mesh.building) + count(job.assembly.operator is None)
        + count(job.assembly.operator is None && !job.assembly.assembling) + count(
        !job.assembly.source_validated,
    ) + count(job.assembly.canonical_operator is None) + count(
        job.assembly.canonical_operator is None && job.assembly.pending_canonical is None,
    ) + count(
        job.assembly.canonical_operator is None && job.assembly.pending_canonical is None
            && !job.assembly.assembling_canonical,
    )
}

/// The steps of field transfer and source compilation that are left.
spec fn source_steps_left(job: TopologyPreparationJob) -> nat {
    let carries = !job.request.fresh && !job.request.operator_reused && job.sources.transfer
        is None;
    count(carries) + count(carries && !job.sources.transferring) + count(
        job.sources.volume_sources is None,
    ) + count(job.sources.volume_sources is None && !job.sources.compiling) + count(
        job.sources.forcing is None,
    )
}

/// The steps of canonical transfer that are left.
spec fn canonical_steps_left(job: TopologyPreparationJob) -> nat {
    count(job.canonical.primary is None) + count(job.canonical.gap is None) + count(
        job.canonical.primary is None || !(job.canonical.primary_stage is Idle),
    ) + count(job.canonical.vector is None) + count(job.canonical.outgoing is None) + count(
        job.canonical.joined is None,
    )
}

/// An upper bound of the steps that still have to be finished.
pub closed spec fn steps_left(job: TopologyPreparationJob) -> nat {
    if job.done {
        0
    } else {
        assembly_steps_left(job) + source_steps_left(job) + canonical_steps_left(job) + 1
    }
}

/// What one step does to a sound job: it stays sound, keeps its request and is
/// not further from its end, and closer to it where a step was finished.
spec fn advances_soundly(job: TopologyPreparationJob, outcome: WorkOutcome) -> bool {
    let next = job.accepted(outcome);
    &&& next.wf()
    &&& next.request == job.request
    &&& next.stripped_model == job.stripped_model
    &&& next.timing == job.timing
    &&& job.mesh.action is FullRebuild ==> next.mesh.action is FullRebuild
    &&& next.done <==> job.failure(outcome) is Some || outcome is Measured
    &&& steps_left(next) <= steps_left(job)
    &&& !(outcome is Pending) && !(job.work() is BuildIdentityInterpolation) ==> steps_left(next)
        < steps_left(job)
}

proof fn carve_step(job: TopologyPreparationJob, outcome: WorkOutcome)
    requires
        job.wf(),
        job.expects(outcome),
        job.work() is AdvanceCarve,
    ensures
        advances_soundly(job, outcome),
{
    reveal(TopologyPreparationJob::work);
    reveal(TopologyPreparationJob::carve_accepted);
}

proof fn mesh_step(job: TopologyPreparationJob, outcome: WorkOutcome)
    requires
        job.wf(),
        job.expects(outcome),
        job.work() is AdvanceMesh,
    ensures
        advances_soundly(job, outcome),
{
    reveal(TopologyPreparationJob::work);
    reveal(TopologyPreparationJob::mesh_accepted);
}

proof fn assembly_step(job: TopologyPreparationJob, outcome: WorkOutcome)
    requires
        job.wf(),
        job.expects(outcome),
        job.work() is StartAssembly
            || job.work() is AdvanceAssembly,
    ensures
        advances_soundly(job, outcome),
{
    reveal(TopologyPreparationJob::work);
    reveal(TopologyPreparationJob::assembly_accepted);
}

proof fn placement_step(job: TopologyPreparationJob, outcome: WorkOutcome)
    requires
        job.wf(),
        job.expects(outcome),
        job.work() is PlacePointSource,
    ensures
        advances_soundly(job, outcome),
{
    reveal(TopologyPreparationJob::work);
    reveal(TopologyPreparationJob::placement_accepted);
}

proof fn canonical_assembly_step(job: TopologyPreparationJob, outcome: WorkOutcome)
    requires
        job.wf(),
        job.expects(outcome),
        job.work() is StartCanonicalAssembly
            || job.work() is AdvanceCanonicalAssembly,
    ensures
        advances_soundly(job, outcome),
{
    reveal(TopologyPreparationJob::work);
    reveal(TopologyPreparationJob::canonical_assembly_accepted);
}

proof fn temporal_step(job: TopologyPreparationJob, outcome: WorkOutcome)
    requires
        job.wf(),
        job.expects(outcome),
        job.work() is BuildTemporalOperator,
    ensures
        advances_soundly(job, outcome),
{
    reveal(TopologyPreparationJob::work);
    reveal(TopologyPreparationJob::temporal_accepted);
}

proof fn transfer_step(job: TopologyPreparationJob, outcome: WorkOutcome)
    requires
        job.wf(),
        job.expects(outcome),
        job.work() is BuildIdentityTransfer
            || job.work() is StartTransfer
            || job.work() is AdvanceTransfer,
    ensures
        advances_soundly(job, outcome),
{
    reveal(TopologyPreparationJob::work);
    reveal(TopologyPreparationJob::transfer_accepted);
}

proof fn sources_step(job: TopologyPreparationJob, outcome: WorkOutcome)
    requires
        job.wf(),
        job.expects(outcome),
        job.work() is StartSources
            || job.work() is AdvanceSources
            || job.work() is CompileForcing,
    ensures
        advances_soundly(job, outcome),
{
    reveal(TopologyPreparationJob::work);
    reveal(TopologyPreparationJob::sources_accepted);
}

proof fn canonical_start_step(job: TopologyPreparationJob, outcome: WorkOutcome)
    requires
        job.wf(),
        job.expects(outcome),
        job.work() is BuildIdentityInterpolation
            || job.work() is PreparePrimaryTransfer
            || job.work() is PrepareThinGapTransfer
            || job.work() is PrepareOutgoingTransfer,
    ensures
        advances_soundly(job, outcome),
{
    reveal(TopologyPreparationJob::work);
    reveal(TopologyPreparationJob::canonical_accepted);
}

proof fn canonical_end_step(job: TopologyPreparationJob, outcome: WorkOutcome)
    requires
        job.wf(),
        job.expects(outcome),
        job.work() is AdvanceVectorTransfer
            || job.work() is AdvanceOutgoingTransfer
            || job.work() is JoinCanonicalTransfer,
    ensures
        advances_soundly(job, outcome),
{
    reveal(TopologyPreparationJob::work);
    reveal(TopologyPreparationJob::canonical_accepted);
}

proof fn measurement_step(job: TopologyPreparationJob, outcome: WorkOutcome)
    requires
        job.wf(),
        job.expects(outcome),
        job.work() is CompileMeasurements,
    ensures
        advances_soundly(job, outcome),
{
    reveal(TopologyPreparationJob::work);
    reveal(TopologyPreparationJob::completed);
}

proof fn each_step_advances_soundly(job: TopologyPreparationJob, outcome: WorkOutcome)
    requires
        job.wf(),
        job.expects(outcome),
    ensures
        advances_soundly(job, outcome),
{
    match job.work() {
        Work::AdvanceCarve => {
            carve_step(job, outcome);
        },
        Work::AdvanceMesh => {
            mesh_step(job, outcome);
        },
        Work::StartAssembly | Work::AdvanceAssembly => {
            assembly_step(job, outcome);
        },
        Work::PlacePointSource => {
            placement_step(job, outcome);
        },
        Work::StartCanonicalAssembly | Work::AdvanceCanonicalAssembly => {
            canonical_assembly_step(job, outcome);
        },
        Work::BuildTemporalOperator => {
            temporal_step(job, outcome);
        },
        Work::BuildIdentityTransfer | Work::StartTransfer | Work::AdvanceTransfer => {
            transfer_step(job, outcome);
        },
        Work::StartSources | Work::AdvanceSources | Work::CompileForcing => {
            sources_step(job, outcome);
        },
        Work::BuildIdentityInterpolation | Work::PreparePrimaryTransfer | Work::PrepareThinGapTransfer | Work::PrepareOutgoingTransfer => {
            canonical_start_step(job, outcome);
        },
        Work::AdvanceVectorTransfer | Work::AdvanceOutgoingTransfer | Work::JoinCanonicalTransfer => {
            canonical_end_step(job, outcome);
        },
        Work::CompileMeasurements => {
            measurement_step(job, outcome);
        },
        Work::Nothing => {},
    }
}

/// Whatever comes of a piece of work, the job stays sound and goes on
/// preparing what it was asked for.
pub proof fn every_outcome_keeps_the_job_sound(job: TopologyPreparationJob, outcome: WorkOutcome)
    requires
        job.wf(),
        job.expects(outcome),
    ensures
        job.accepted(outcome).wf(),
        job.accepted(outcome).request == job.request,
{
    each_step_advances_soundly(job, outcome);
}

/// A job is over exactly when it reported a candidate or an error, and a job
/// that is over has no more work. Only the end of a slice changes its timing.
pub proof fn a_job_is_over_once_it_reported(job: TopologyPreparationJob, outcome: WorkOutcome)
    requires
        job.wf(),
        job.expects(outcome),
    ensures
        job.accepted(outcome).done <==> job.failure(outcome) is Some || outcome is Measured,
        job.accepted(outcome).done ==> job.accepted(outcome).work() is Nothing,
        job.accepted(outcome).timing == job.timing,
{
    each_step_advances_soundly(job, outcome);
    reveal(TopologyPreparationJob::work);
}

/// The model without temporal laws is built once: no step replaces it.
pub proof fn the_stripped_model_is_kept(job: TopologyPreparationJob, outcome: WorkOutcome)
    requires
        job.wf(),
        job.expects(outcome),
    ensures
        job.accepted(outcome).stripped_model == job.stripped_model,
        job.paused().stripped_model == job.stripped_model,
{
    each_step_advances_soundly(job, outcome);
}

/// Every finished step brings the candidate closer to its end, and a step that
/// is still pending takes nothing back. Only the interpolation, which belongs
/// to one slice, is repeated.
pub proof fn every_finished_step_counts(job: TopologyPreparationJob, outcome: WorkOutcome)
    requires
        job.wf(),
        job.expects(outcome),
    ensures
        steps_left(job.accepted(outcome)) <= steps_left(job),
        !(outcome is Pending) && !(job.work() is BuildIdentityInterpolation) ==> steps_left(
            job.accepted(outcome),
        ) < steps_left(job),
{
    each_step_advances_soundly(job, outcome);
}

/// A job has at most a fixed number of steps to finish, and none only when it
/// is over.
pub proof fn the_steps_left_are_bounded(job: TopologyPreparationJob)
    ensures
        steps_left(job) <= 21,
        steps_left(job) == 0 <==> job.done,
        job.done <==> job.work() is Nothing,
{
    assert(assembly_steps_left(job) <= 9);
    assert(source_steps_left(job) <= 5);
    assert(canonical_steps_left(job) <= 6);
    assert(job.done <==> job.work() is Nothing) by {
        reveal(TopologyPreparationJob::work);
    }
}

/// The interpolation of a slice is asked for once in it.
pub proof fn the_interpolation_is_built_once_per_slice(
    job: TopologyPreparationJob,
    outcome: WorkOutcome,
)
    requires
        job.wf(),
        job.expects(outcome),
        job.work() is BuildIdentityInterpolation,
        outcome is Built,
    ensures
        job.goes_on(outcome),
        job.accepted(outcome).canonical.interpolation is Some,
        !(job.accepted(outcome).work() is BuildIdentityInterpolation),
{
    reveal(TopologyPreparationJob::work);
    reveal(TopologyPreparationJob::canonical_accepted);
}

/// The placement of the point source is looked up at most once for a
/// candidate.
pub proof fn the_point_source_is_placed_at_most_once(job: TopologyPreparationJob)
    requires
        job.wf(),
        !job.done,
    ensures
        job.assembly.source_validation_count <= 1,
        job.assembly.source_validation_count == 1 ==> !(job.work() is PlacePointSource),
{
    reveal(TopologyPreparationJob::work);
}

/// A carve that fails hands the candidate to a full rebuild, and the reason
/// stays with it.
pub proof fn a_failed_carve_becomes_a_full_rebuild(job: TopologyPreparationJob, issue: String)
    requires
        job.wf(),
        job.work() is AdvanceCarve,
    ensures
        ({
            let outcome = WorkOutcome::Failed(issue);
            let next = job.accepted(outcome);
            &&& job.failure(outcome) is None
            &&& next.work() is AdvanceMesh
            &&& next.mesh.action == TopologyMeshUpdateAction::FullRebuild(
                TopologyFullRebuildReason::RepairFailed,
            )
            &&& next.mesh.repair_fallback == Some(issue)
        }),
{
    reveal(TopologyPreparationJob::work);
    reveal(TopologyPreparationJob::carve_accepted);
}

/// What a finished candidate carries. A field that starts from zero carries no
/// transfer; the canonical transfer is there exactly when a running field is
/// handed over in full; the interpolating transfer exactly when a new operator
/// takes over a running field; and a newly assembled driven document carries its
/// temporal operator. The model without temporal laws, on a driven document, is
/// the one that its operators were assembled from.
pub proof fn a_finished_candidate_is_complete(
    job: TopologyPreparationJob,
    probes: Artifact,
    far_field: Option<Result<Artifact, String>>,
)
    requires
        job.wf(),
        job.equipped(),
        job.work() is CompileMeasurements,
    ensures
        ({
            let candidate = job.candidate(probes, far_field);
            &&& candidate.bundle.token == job.request.bundle.token
            &&& candidate.fresh ==> candidate.transfer is None && candidate.canonical_transfer
                is None
            &&& candidate.canonical_transfer is Some <==> !candidate.fresh
                && candidate.solver_update is FullHandoff
            &&& candidate.transfer is Some <==> !candidate.fresh && !candidate.operator_reused
            &&& candidate.operator_reused ==> candidate.operator
                == job.assembly.operator->0
            &&& !candidate.operator_reused ==> (job.request.driven
                <==> candidate.canonical_temporal_operator is Some)
            &&& candidate.stripped_model is Some <==> job.request.driven
            &&& job.request.driven ==> candidate.stripped_model == job.stripped_model
            &&& job.assembly.source_validated
        }),
{
    reveal(TopologyPreparationJob::work);
    reveal(TopologyPreparationJob::candidate);
}

/// A request for a rebuild, changed meshing options or an unmatchable trace
/// numbering rebuild the mesh; otherwise the plans alone decide, and an unchanged
/// scene takes the active mesh over.
pub proof fn when_the_mesh_is_rebuilt(
    active: PreparedTopology,
    comparison: PreviousComparison,
    options: MeshingOptions,
    intent: PreparationIntent,
)
    ensures
        ({
            let action = new_action(Some(active), comparison, options, intent);
            let same = active.meshing.eq_options(options);
            &&& !same ==> action == TopologyMeshUpdateAction::FullRebuild(
                TopologyFullRebuildReason::MeshingOptionsChanged,
            )
            &&& same && intent.force_rebuild && comparison.plan_change is Reuse ==> action
                == TopologyMeshUpdateAction::FullRebuild(TopologyFullRebuildReason::Requested)
            &&& same && !(comparison.plan_change is Reuse) ==> action == comparison.plan_change
            &&& action is Reuse ==> same && !intent.force_rebuild
            &&& same && !intent.force_rebuild && comparison.plan_change is Reuse
                && comparison.scene.same_mesh_inputs() ==> action is Reuse
        }),
{
}

/// Only an acknowledged commit changes what is active: requests, results and
/// rejections leave it alone.
pub proof fn only_a_commit_changes_the_active_topology(
    runtime: TopologyRuntime,
    job: TopologyPreparationJob,
    adaptation: bool,
    result: Result<PreparedTopology, TopologyPreparationError>,
)
    ensures
        runtime.requesting(job, adaptation).active == runtime.active,
        runtime.settled(result).0.active == runtime.active,
{
}

/// A result whose token is not the requested one changes nothing and is not
/// reported.
pub proof fn a_stale_result_changes_nothing(
    runtime: TopologyRuntime,
    result: Result<PreparedTopology, TopologyPreparationError>,
)
    requires
        runtime.requested != Some(
            match result {
                Ok(candidate) => candidate.bundle.token,
                Err(error) => error.token,
            },
        ),
    ensures
        runtime.settled(result) == (
            runtime,
            None::<Result<TopologyToken, TopologyPreparationError>>,
        ),
{
}

/// Once a newer request is made, the result of an older one under another
/// token is stale, and nothing is ready until the newer one is.
pub proof fn a_newer_request_supersedes_an_older_one(
    runtime: TopologyRuntime,
    job: TopologyPreparationJob,
    adaptation: bool,
    result: Result<PreparedTopology, TopologyPreparationError>,
)
    requires
        job.request.bundle.token != (match result {
            Ok(candidate) => candidate.bundle.token,
            Err(error) => error.token,
        }),
    ensures
        ({
            let newer = runtime.requesting(job, adaptation);
            &&& newer.ready is None
            &&& newer.settled(result).0 == newer
            &&& newer.settled(result).1 is None
        }),
{
}

/// A failed preparation leaves the active topology and any ready candidate in
/// place and is remembered.
pub proof fn a_failed_preparation_keeps_what_runs(
    runtime: TopologyRuntime,
    error: TopologyPreparationError,
)
    requires
        runtime.requested == Some(error.token),
    ensures
        ({
            let (after, answer) = runtime.settled(Err(error));
            &&& after.active == runtime.active
            &&& after.ready == runtime.ready
            &&& after.last_error == Some(error)
            &&& answer == Some(Err::<TopologyToken, TopologyPreparationError>(error))
        }),
{
}

/// A settled candidate can be published under its own token and no other.
pub proof fn a_settled_candidate_is_published_under_its_own_token(
    runtime: TopologyRuntime,
    candidate: PreparedTopology,
    token: TopologyToken,
)
    requires
        runtime.requested == Some(candidate.bundle.token),
    ensures
        runtime.settled(Ok(candidate)).0.publishes(token) <==> token == candidate.bundle.token,
{
}

/// Mesh revisions count up from one and never become zero.
pub proof fn mesh_revisions_are_never_zero(revision: u64)
    requires
        revision >= 1,
    ensures
        following_revision(revision) >= 1,
        following_revision(revision) != revision,
        revision < u64::MAX ==> following_revision(revision) == revision + 1,
{
}

/// A full rebuild stays one, whatever comes of the work.
pub proof fn a_full_rebuild_stays_one(job: TopologyPreparationJob, outcome: WorkOutcome)
    requires
        job.wf(),
        job.expects(outcome),
        job.mesh.action is FullRebuild,
    ensures
        job.accepted(outcome).mesh.action is FullRebuild,
{
    each_step_advances_soundly(job, outcome);
}

/// A cleared runtime has nothing active, ready, preparing or failed, and the first
/// request that it accepts builds its mesh from scratch, whatever the comparison
/// says: no mesh, operator or field of the old document goes into it. Mesh
/// revisions go on as if nothing had been cleared.
pub proof fn a_cleared_runtime_starts_from_scratch(
    runtime: TopologyRuntime,
    after: TopologyRuntime,
    result: Result<TopologyToken, String>,
    document_revision: u64,
    document: DocumentFacts,
    compiled: CompiledTopologyScene,
    comparison: PreviousComparison,
    options: MeshingOptions,
    fresh: bool,
    require_solver_handoff: bool,
)
    requires
        runtime.cleared().requested_edit(
            after,
            result,
            document_revision,
            document,
            compiled,
            comparison,
            options,
            fresh,
            require_solver_handoff,
        ),
    ensures
        runtime.cleared().active is None,
        runtime.cleared().ready is None,
        runtime.cleared().preparing is None,
        runtime.cleared().last_error is None,
        !runtime.cleared().requested_adaptation,
        runtime.cleared().next_mesh_revision == runtime.next_mesh_revision,
        after.next_mesh_revision == following_revision(runtime.next_mesh_revision),
        result matches Ok(token) ==> {
            &&& token.mesh_generation == runtime.next_mesh_revision
            &&& after.preparing matches Some(job)
            &&& job.mesh.action == TopologyMeshUpdateAction::FullRebuild(
                TopologyFullRebuildReason::DomainChanged,
            )
            &&& job.mesh.building
            &&& job.mesh.mesh is None
            &&& job.assembly.operator is None
            &&& job.request.previous is None
            &&& !job.request.operator_reused
            &&& job.request.mesh_revision == runtime.next_mesh_revision
        },
{
}

} // verus!
