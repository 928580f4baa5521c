//! What a running session keeps: the work it hands out, the time that takes, the log
//! and what is removed from the document.

use crate::adaptation::MeshAdaptationReport;
use crate::alike::Alike;
use crate::collect::either_issue;
use crate::events::{line_text, EventEntry, EventSource, LogState, EVENT_LOG_ENTRIES};
use crate::model::TopologyScene;
use crate::overlay::OverlayKey;
use crate::preparation::{
    coarsening_prefix, mismatch_prefix, mismatch_text, refusal, CompiledTopologyScene,
    MeshingOptions, TopologyToken, WaveModel, FAR_FIELD_CONTOUR_POINTS,
};
use crate::preparation_job::{
    DocumentFacts, PreviousComparison, Progress, TimingBucket, TopologyPreparationJob, Work,
    WorkOutcome,
};
use crate::preparation_task::Task;
use crate::readouts::refinements;
use crate::removal::{closed_joins, curve_spans, JoinRecord};
use crate::runtime::{following_revision, TopologyRuntime};
use crate::scalar::Scalar;
use crate::selection::TopologySpanTarget;
use crate::text::decimal_digits;
use vstd::prelude::*;

verus! {

/// The mesh that a task works on is the candidate's own once there is one, and its
/// operator, plan and document are the candidate's throughout.
pub proof fn a_task_works_on_the_candidate(job: TopologyPreparationJob)
    ensures
        job.next_task() matches Task::Assemble { mesh, plan, .. } ==> mesh == job.mesh.mesh->0
            && plan == job.request.bundle.plan,
        job.next_task() matches Task::PlaceSource { mesh, operator, plan, source, .. } ==> mesh
            == job.mesh.mesh->0 && operator == job.assembly.operator->0 && plan
            == job.request.bundle.plan && source == job.request.point_source,
        job.next_task() matches Task::AssembleCanonical {
            mesh,
            operator,
            document_revision,
            active_canonical,
            ..
        } ==> mesh == job.mesh.mesh->0 && operator == job.assembly.operator->0
            && document_revision == job.request.bundle.token.document_revision
            && active_canonical is Some == job.request.previous is Some && (active_canonical
            is Some ==> active_canonical == Some(job.request.previous->0.canonical_operator)),
        job.next_task() matches Task::CompileSources {
            mesh,
            operator,
            plan,
            volume_sources,
            ..
        } ==> mesh == job.mesh.mesh->0 && operator == job.assembly.operator->0 && plan
            == job.request.bundle.plan && volume_sources == job.request.bundle.authored,
        job.next_task() matches Task::CompileForcing {
            mesh,
            operator,
            canonical,
            compiled,
            volume_sources,
            source,
            active_forcing,
        } ==> mesh == job.mesh.mesh->0 && operator == job.assembly.operator->0 && canonical
            == job.assembly.canonical_operator->0 && compiled == job.sources.volume_sources->0
            && volume_sources == job.request.bundle.authored && source == job.request.point_source
            && active_forcing is Some == job.request.previous is Some && (active_forcing is Some
            ==> active_forcing == Some(job.request.previous->0.canonical_forcing)),
        job.next_task() matches Task::TransferThinGap { from_canonical, to_canonical }
            ==> from_canonical == job.request.previous->0.canonical_operator && to_canonical
            == job.assembly.canonical_operator->0,
        job.next_task() matches Task::TransferOutgoing { from_canonical, to_canonical, .. }
            ==> from_canonical == job.request.previous->0.canonical_operator && to_canonical
            == job.assembly.canonical_operator->0,
{
}

/// A mesh is carved out of the active one, towards the candidate's plan, and built
/// from that plan where it is built anew. One that is built because a repair failed
/// bears the generation that was promised for it.
pub proof fn a_mesh_is_made_for_the_candidates_plan(job: TopologyPreparationJob)
    ensures
        job.next_task() matches Task::Carve {
            mesh,
            active_plan,
            plan,
            snapshot,
            mesh_revision,
            options,
            preserve_adaptation,
        } ==> mesh == job.request.previous->0.mesh && active_plan
            == job.request.previous->0.bundle.plan && plan == job.request.bundle.plan && snapshot
            == job.request.bundle.snapshot && mesh_revision == job.request.mesh_revision && options
            == job.request.meshing && preserve_adaptation == job.request.preserve_adaptation,
        job.next_task() matches Task::Mesh { plan, mesh_revision, options } ==> plan
            == job.request.bundle.plan && options == job.request.meshing && (
        job.mesh.repair_fallback is None ==> mesh_revision == job.request.mesh_revision) && (
        job.mesh.repair_fallback is Some ==> mesh_revision
            == job.request.bundle.token.mesh_generation),
        job.next_task() is Carve <==> job.work() is AdvanceCarve,
        job.next_task() is Mesh <==> job.work() is AdvanceMesh,
{
}

/// Measurements are compiled for the probes and the far field of the candidate's
/// document; stencils are kept only where the operator was.
pub proof fn measurements_are_made_for_the_candidates_document(job: TopologyPreparationJob)
    ensures
        job.next_task() matches Task::Measure {
            mesh,
            operator,
            bundle,
            definitions,
            kept,
            far_field,
            ..
        } ==> {
            &&& mesh == job.mesh.mesh->0
            &&& operator == job.assembly.operator->0
            &&& bundle == job.request.bundle
            &&& definitions == job.request.probes
            &&& kept is Some <==> job.request.operator_reused && job.request.previous is Some
            &&& kept is Some ==> kept->0.definitions == job.request.previous->0.probe_definitions
                && kept->0.compiled == job.request.previous->0.probes
            &&& far_field is Some ==> far_field->0.inset == job.request.far_field.inset
                && far_field->0.source == job.request.point_source && far_field->0.volume_sources
                == job.request.bundle.authored && far_field->0.sample_count
                == FAR_FIELD_CONTOUR_POINTS && far_field->0.model == WaveModel::Authored(
                job.request.bundle.authored,
            )
        },
{
}

/// Time is charged to the work that took it, and to no other; a slice is counted,
/// and the longest slice is never exceeded.
pub proof fn time_is_charged_where_it_was_spent(
    job: TopologyPreparationJob,
    bucket: TimingBucket,
    total: Scalar,
    elapsed: Scalar,
)
    ensures
        ({
            let after = job.charged(bucket, total);
            let spent = |own: TimingBucket, new: Scalar, old: Scalar|
                new == if bucket == own {
                    total
                } else {
                    old
                };
            &&& spent(TimingBucket::Meshing, after.timing.meshing_ms, job.timing.meshing_ms)
            &&& spent(TimingBucket::Assembly, after.timing.assembly_ms, job.timing.assembly_ms)
            &&& spent(TimingBucket::Transfer, after.timing.transfer_ms, job.timing.transfer_ms)
            &&& spent(TimingBucket::Sources, after.timing.sources_ms, job.timing.sources_ms)
            &&& spent(
                TimingBucket::Measurements,
                after.timing.measurements_ms,
                job.timing.measurements_ms,
            )
            &&& after.timing.slices == job.timing.slices
            &&& after.timing.work_ms == job.timing.work_ms
            &&& after.timing.longest_slice_ms == job.timing.longest_slice_ms
            &&& after.request == job.request
            &&& after.mesh == job.mesh
            &&& after.assembly == job.assembly
            &&& after.sources == job.sources
            &&& after.canonical == job.canonical
        }),
        ({
            let after = job.sliced_timing(elapsed, total);
            &&& after.work_ms == total
            &&& job.timing.slices < u32::MAX ==> after.slices == job.timing.slices + 1
            &&& !elapsed.nan() ==> elapsed.le_num(after.longest_slice_ms)
            &&& after.longest_slice_ms == elapsed || after.longest_slice_ms
                == job.timing.longest_slice_ms
            &&& !job.timing.longest_slice_ms.nan() ==> job.timing.longest_slice_ms.le_num(
                after.longest_slice_ms,
            )
            &&& after.meshing_ms == job.timing.meshing_ms
            &&& after.assembly_ms == job.timing.assembly_ms
            &&& after.transfer_ms == job.timing.transfer_ms
            &&& after.sources_ms == job.timing.sources_ms
            &&& after.measurements_ms == job.timing.measurements_ms
        }),
{
}

/// What is running is carried on before anything new is begun, in the order in which
/// a candidate is made.
pub proof fn what_runs_is_carried_on(job: TopologyPreparationJob)
    ensures
        ({
            let made = job.mesh.carving || job.mesh.building;
            let assembled = made || job.assembly.assembling || job.assembly.assembling_canonical;
            &&& job.running_job() is Some <==> assembled || job.sources.transferring
                || job.canonical.transferring_vector || job.canonical.transferring_outgoing
            &&& job.mesh.carving ==> job.running_job() == Some(Work::AdvanceCarve)
            &&& job.mesh.building && !job.mesh.carving ==> job.running_job() == Some(
                Work::AdvanceMesh,
            )
            &&& job.assembly.assembling && !made ==> job.running_job() == Some(
                Work::AdvanceAssembly,
            )
            &&& job.assembly.assembling_canonical && !job.assembly.assembling && !made
                ==> job.running_job() == Some(Work::AdvanceCanonicalAssembly)
            &&& job.sources.transferring && !assembled ==> job.running_job() == Some(
                Work::AdvanceTransfer,
            )
            &&& job.canonical.transferring_vector && !assembled && !job.sources.transferring
                ==> job.running_job() == Some(Work::AdvanceVectorTransfer)
            &&& job.canonical.transferring_outgoing && !assembled && !job.sources.transferring
                && !job.canonical.transferring_vector ==> job.running_job() == Some(
                Work::AdvanceOutgoingTransfer,
            )
        }),
{
}

/// What a source last said is remembered for that source alone.
pub proof fn what_was_said_is_remembered_by_source(
    log: LogState,
    source: EventSource,
    other: EventSource,
    value: Option<String>,
)
    requires
        source !is Repair,
    ensures
        log.with_logged(source, value).logged(source) == value,
        other != source ==> log.with_logged(source, value).logged(other) == log.logged(other),
        log.with_logged(source, value).events == log.events,
        log.with_logged(source, value).unseen_error == log.unseen_error,
        log.with_logged(source, value).repairs == log.repairs,
{
}

/// A line is logged at the end with its source, its text and its time; one that
/// repeats the last only counts up. Only a failure that is new lights the marker.
pub proof fn a_line_is_logged_as_it_was_said(
    log: LogState,
    now: Scalar,
    source: EventSource,
    text: String,
)
    requires
        log.events.len() <= EVENT_LOG_ENTRIES,
        log.has_room(source, text),
    ensures
        ({
            let after = log.push(now, source, text);
            let repeated = log.events.len() > 0 && log.events.last().source == source
                && log.events.last().text@ == text@;
            let failure = source is Preparation || source is Adaptation;
            &&& after.events.len() > 0
            &&& after.events.last().time == now
            &&& after.events.last().source == source
            &&& after.events.last().text@ == text@
            &&& after.events.last().repeats == if repeated {
                log.events.last().repeats + 1
            } else {
                1
            }
            &&& repeated ==> after.events.drop_last() == log.events.drop_last()
            &&& !repeated && log.events.len() < EVENT_LOG_ENTRIES ==> after.events.drop_last()
                == log.events
            &&& after.unseen_error <==> log.unseen_error || (failure && !repeated)
            &&& after.status == log.status
            &&& after.preparation == log.preparation
            &&& after.adaptation == log.adaptation
        }),
{
    let after = log.push(now, source, text);
    if log.events.len() > 0 && log.events.last().source == source && log.events.last().text@
        == text@ {
        assert(after.events.drop_last() =~= log.events.drop_last());
    } else if log.events.len() < EVENT_LOG_ENTRIES {
        assert(after.events.drop_last() =~= log.events);
    }
}

/// A held value is logged when it changes to another one; one that goes away is
/// forgotten without a line.
pub proof fn a_held_value_is_logged_when_it_changes(
    log: LogState,
    now: Scalar,
    source: EventSource,
    value: Option<String>,
)
    requires
        source !is Repair,
    ensures
        value.alike(log.logged(source)) ==> log.catch(now, source, value) == log,
        !value.alike(log.logged(source)) ==> log.catch(now, source, value).logged(source) == value,
        !value.alike(log.logged(source)) && value is None ==> log.catch(now, source, value).events
            == log.events,
        !value.alike(log.logged(source)) && value is Some ==> log.catch(now, source, value).events
            == log.push(now, source, value->0).events,
{
}

/// Recording takes all waiting repairs, and what it then holds is what was said this
/// time.
pub proof fn recording_takes_what_was_said(
    log: LogState,
    now: Scalar,
    message: String,
    preparation: Option<String>,
    adaptation: Option<String>,
)
    ensures
        ({
            let after = log.recorded(now, message, preparation, adaptation);
            &&& after.repairs.len() == 0
            &&& after.status.alike(
                if message@.len() == 0 {
                    None
                } else {
                    Some(message)
                },
            )
            &&& after.preparation.alike(preparation)
            &&& after.adaptation.alike(adaptation)
        }),
{
    let status = if message@.len() == 0 {
        None
    } else {
        Some(message)
    };
    let first = log.catch(now, EventSource::Status, status);
    let second = first.catch(now, EventSource::Preparation, preparation);
    let third = second.catch(now, EventSource::Adaptation, adaptation);
    repairs_leave_the_held_values(third, now, log.repairs);
}

proof fn repairs_leave_the_held_values(log: LogState, now: Scalar, repairs: Seq<String>)
    ensures
        log.push_all(now, repairs).status == log.status,
        log.push_all(now, repairs).preparation == log.preparation,
        log.push_all(now, repairs).adaptation == log.adaptation,
    decreases repairs.len(),
{
    if repairs.len() > 0 {
        repairs_leave_the_held_values(log, now, repairs.drop_last());
    }
}

/// A mesh revision is followed by another one, and never by none.
pub proof fn a_revision_is_followed_by_another(revision: u64)
    ensures
        following_revision(revision) != revision,
        following_revision(revision) != 0,
        revision < u64::MAX ==> following_revision(revision) == revision + 1,
{
}

/// An edit is prepared with what was asked of the runtime beforehand; a cleared
/// runtime prepares and publishes nothing, and goes on counting its meshes.
pub proof fn an_edit_is_prepared_as_it_was_asked_for(
    runtime: TopologyRuntime,
    fresh: bool,
    require_solver_handoff: bool,
)
    ensures
        ({
            let intent = runtime.edit_intent(fresh, require_solver_handoff);
            &&& intent.fresh == fresh
            &&& intent.require_solver_handoff == require_solver_handoff
            &&& intent.force_rebuild == runtime.force_rebuild
            &&& intent.preserve_adaptation == runtime.preserve_adaptation
        }),
        ({
            let after = runtime.cleared();
            &&& after.active is None && after.preparing is None && after.ready is None
            &&& after.requested is None && after.last_error is None
            &&& after.next_mesh_revision == runtime.next_mesh_revision
            &&& after.force_rebuild == runtime.force_rebuild
            &&& after.preserve_adaptation == runtime.preserve_adaptation
        }),
        runtime.preparing is Some ==> runtime.shown_phase() == Some(runtime.preparing->0.phase),
        runtime.preparing is None ==> (runtime.shown_phase() is Some <==> runtime.ready is Some),
{
}

/// Only the spans of curves are removed, each by its own number.
pub proof fn only_spans_of_curves_are_removed(targets: Set<TopologySpanTarget>, span: u64)
    ensures
        curve_spans(targets).contains(span) <==> targets.contains(TopologySpanTarget::Curve(span)),
{
}

/// A join that a curve makes with itself closes it; the others fuse two curves.
pub proof fn a_join_with_itself_closes_a_curve(joined: Seq<JoinRecord>)
    ensures
        closed_joins(joined) == joined.filter(
            |join: JoinRecord| join.survivor == join.absorbed,
        ).len(),
        closed_joins(joined) <= joined.len(),
    decreases joined.len(),
{
    reveal(Seq::filter);
    if joined.len() > 0 {
        a_join_with_itself_closes_a_curve(joined.drop_last());
    }
}

/// Of two issues the first is told, and an issue only where there is one.
pub proof fn the_first_issue_is_told<E>(first: Option<E>, second: Option<E>)
    ensures
        first is Some ==> either_issue(first, second) == first,
        first is None ==> either_issue(first, second) == second,
{
}

/// A compiled scene is refused for the first thing that is wrong with it, in the
/// words of who found it.
pub proof fn a_refused_scene_is_told_why(compiled: CompiledTopologyScene)
    requires
        !compiled.consistent() || compiled.coarsened is Err,
    ensures
        compiled.assignments is Err ==> refusal(compiled) == mismatch_prefix()
            + compiled.assignments->Err_0@,
        compiled.assignments is Ok && compiled.expected_plan is Err ==> refusal(compiled)
            == mismatch_prefix() + compiled.expected_plan->Err_0@,
        compiled.consistent() ==> refusal(compiled) == coarsening_prefix()
            + compiled.coarsened->Err_0@,
        compiled.assignments is Ok && compiled.expected_plan is Ok && !compiled.consistent()
            ==> refusal(compiled) == mismatch_text(),
        compiled.consistent() ==> compiled.geometry_matches && compiled.domain_matches
            && compiled.model_valid && compiled.plan_geometry_revision == compiled.revision
            && compiled.assignments == Ok::<bool, String>(true) && compiled.expected_plan == Ok::<
            bool,
            String,
        >(true),
{
}

/// The time of a piece of work counts as time of the stage that it belongs to.
pub proof fn work_is_charged_to_its_stage(work: Work)
    ensures
        work.bucket_of() is Meshing <==> work is AdvanceCarve || work is AdvanceMesh,
        work.bucket_of() is Assembly <==> work is AdvanceAssembly || work
            is AdvanceCanonicalAssembly || work is BuildTemporalOperator,
        work.bucket_of() is Transfer <==> work is BuildIdentityTransfer || work is AdvanceTransfer
            || work is AdvanceVectorTransfer || work is AdvanceOutgoingTransfer,
        work.bucket_of() is Sources <==> work is AdvanceSources,
        work.bucket_of() is Measurements <==> work is CompileMeasurements,
{
}

/// A failed job says so with its own token and the phase it was in, in the words of
/// what failed; any other outcome is no failure.
pub proof fn a_failure_is_told_where_it_happened(
    job: TopologyPreparationJob,
    issue: String,
    outcome: WorkOutcome,
    progress: Progress,
)
    ensures
        job.reported(WorkOutcome::Failed(issue), progress) && job.work() !is AdvanceCarve ==> (
        progress matches Progress::Finished(Err(error)) && error.token == job.request.bundle.token
            && error.phase == job.phase && error.message@ == issue@),
        job.reported(outcome, progress) && job.failure(outcome) is None ==> !(progress
            matches Progress::Finished(Err(_))),
        job.reported(outcome, progress) && (progress matches Progress::Finished(Ok(_)))
            ==> outcome is Measured,
{
}

/// A line that was repeated says how often; one that was not says no more than that
/// it was said.
pub proof fn a_repeated_line_says_how_often(entry: EventEntry, stamp: Seq<char>)
    ensures
        ({
            let once = line_text(EventEntry { repeats: 1, ..entry }, stamp);
            &&& entry.repeats <= 1 ==> line_text(entry, stamp) == once
            &&& entry.repeats > 1 ==> line_text(entry, stamp) == once + " ×"@ + decimal_digits(
                entry.repeats as nat,
            )
            &&& once.len() >= stamp.len() + entry.text@.len()
            &&& once.subrange(0, stamp.len() as int) == stamp
            &&& once.subrange(once.len() - entry.text@.len(), once.len() as int) == entry.text@
        }),
{
    let once = line_text(EventEntry { repeats: 1, ..entry }, stamp);
    assert(once.subrange(0, stamp.len() as int) =~= stamp);
    assert(once.subrange(once.len() - entry.text@.len(), once.len() as int) =~= entry.text@);
}

/// The refinements and the coarsenings of an adaptation make up its changes.
pub proof fn changes_are_refinements_or_coarsenings(report: MeshAdaptationReport)
    requires
        report.coarsening_changes <= report.topology_changes,
    ensures
        refinements(report) + report.coarsening_changes == report.topology_changes,
{
}

/// An overlay is used for the very mesh and the scene that it was computed for.
pub proof fn an_overlay_is_used_for_its_own_scene(
    key: OverlayKey,
    mesh_revision: u64,
    scene: TopologyScene,
)
    ensures
        key.is_for(mesh_revision, scene) <==> key.mesh_revision == mesh_revision
            && key.scene.alike(scene),
{
}

/// An edit that cannot be compiled is refused in the words of who refused it, and
/// leaves what is running as it is; one that can is asked for under its token.
pub proof fn a_refused_edit_changes_nothing_that_runs(
    runtime: TopologyRuntime,
    after: TopologyRuntime,
    result: Result<TopologyToken, String>,
    document_revision: u64,
    document: DocumentFacts,
    compiled: CompiledTopologyScene,
    comparison: PreviousComparison,
    options: MeshingOptions,
    fresh: bool,
    require_solver_handoff: bool,
)
    requires
        runtime.requested_edit(
            after,
            result,
            document_revision,
            document,
            compiled,
            comparison,
            options,
            fresh,
            require_solver_handoff,
        ),
    ensures
        after.next_mesh_revision == following_revision(runtime.next_mesh_revision),
        !after.force_rebuild,
        after.active == runtime.active,
        result is Err ==> after.preparing == runtime.preparing && after.ready == runtime.ready
            && after.requested == runtime.requested,
        result is Err && runtime.active is None ==> result->Err_0@ == refusal(compiled),
        result matches Ok(token) ==> after.requested == Some(token) && token.document_revision
            == document_revision && after.preparing is Some,
{
}

} // verus!
