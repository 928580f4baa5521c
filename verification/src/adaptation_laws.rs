//! What the adaptation of the mesh promises: when it may start, which way it
//! goes, and whose result counts.

use crate::adaptation::{
    direction, plan_for, ActiveMesh, AdaptationResult, AdaptationStep, Amr, AmrFrame,
    AmrIndicatorSource, BackgroundAmrKind, EstimatePreparation, EstimateStep, IndicatorResult,
    MeshAdaptationState, Readback, ReadinessStep, SolutionIndicatorReport,
};
use crate::adaptation_pass::{AmrAction, AmrEvent, AmrFacts};
use crate::labels::AmrDecision;
use crate::preparation::Artifact;
use crate::scalar::Scalar;
use vstd::prelude::*;

verus! {

/// The mesh is refined where enough elements break a limit, or where enough of
/// them carry too much error and the field as a whole misses its target. It is
/// coarsened only where it is not refined, enough elements can go and the field as
/// a whole stays well below its target. Otherwise it is left alone.
pub proof fn the_mesh_goes_the_way_its_errors_point(
    report: SolutionIndicatorReport,
    target_accuracy: Scalar,
    coarsen_below: Scalar,
)
    ensures
        ({
            let decision = direction(report, target_accuracy, coarsen_below);
            let refines = report.limit_refine_candidates >= 4 || (report.error_refine_candidates
                >= 4 && target_accuracy.lt_num(report.global_indicator));
            let coarsens = report.coarsen_candidates >= 4 && report.global_indicator.lt_num(
                coarsen_below,
            );
            &&& decision is Refine <==> refines
            &&& decision is Coarsen <==> coarsens && !refines
            &&& decision is Hold <==> !coarsens && !refines
        }),
{
}

/// A plan for a refinement cannot coarsen and one for a coarsening cannot refine;
/// both go on from the history they were given and by the sizes of the estimate.
pub proof fn a_plan_goes_one_way(
    decision: AmrDecision,
    state: MeshAdaptationState,
    field: Artifact,
)
    ensures
        ({
            let plan = plan_for(decision, state, field);
            &&& plan.state == state
            &&& plan.field == field
            &&& plan.max_refinement_changes > 0 <==> decision is Refine
            &&& plan.max_coarsening_changes > 0 <==> decision is Coarsen
        }),
{
}

/// A frame in which the adaptation is off drops everything; one in which the mesh
/// that an adaptation started from is gone drops that adaptation; one in which an
/// edit is under way waits. Only otherwise does the pass go on, with nothing
/// changed.
pub proof fn a_frame_begins_with_what_has_priority(amr: Amr, frame: AmrFrame)
    ensures
        ({
            let (opening, after) = amr.opened(frame);
            let busy = amr.adaptation_job is Some || amr.adaptation_completed is Some
                || frame.background == Some(BackgroundAmrKind::Adaptation);
            let replaced = busy && amr.adaptation_source is Some && (frame.active is None
                || frame.active->0.mesh_revision != amr.adaptation_source->0);
            let waits = frame.uploading || frame.preparing || frame.editing;
            &&& opening is CancelAll <==> !frame.enabled
            &&& opening is CancelAdaptation <==> frame.enabled && replaced
            &&& opening is Wait <==> frame.enabled && !replaced && waits
            &&& opening is Proceed <==> frame.enabled && !replaced && !waits
            &&& opening is Proceed ==> after == amr
            &&& opening is Wait ==> after.adaptation_job == amr.adaptation_job
                && after.adaptation_completed == amr.adaptation_completed && after.indicator_job
                == amr.indicator_job && after.indicator_completed == amr.indicator_completed
            &&& opening is CancelAdaptation ==> after.indicator_job == amr.indicator_job
                && after.indicator_completed == amr.indicator_completed && after.adaptation_job
                is None && after.adaptation_completed is None
            &&& opening is CancelAll ==> after.adaptation_job is None && after.adaptation_completed
                is None && after.indicator_job is None && after.indicator_completed is None
                && after.indicator_source is None && after.adaptation_source is None
                && after.pending_state is None && after.indicator_result is None
                && after.coarsen_streak == 0
        }),
{
}

/// A finished adaptation that changed the mesh hands that very mesh on, with the
/// history that goes with it; one that failed keeps its error; and one that was
/// not there changes nothing.
pub proof fn a_finished_adaptation_is_handed_on(
    amr: Amr,
    active: Option<ActiveMesh>,
    done: AdaptationResult,
    error: String,
)
    ensures
        amr.adaptation_completed is None ==> amr.settled(active) == (AdaptationStep::Proceed, amr),
        amr.adaptation_completed == Some(Ok::<AdaptationResult, String>(done))
            && done.report.topology_changes > 0 ==> {
            let (step, after) = amr.settled(active);
            &&& step == (AdaptationStep::Request { mesh: done.mesh })
            &&& after.pending_state == Some(done.state)
            &&& after.report == Some(done.report)
        },
        amr.adaptation_completed == Some(Err::<AdaptationResult, String>(error)) ==> {
            let (step, after) = amr.settled(active);
            &&& step is Stop
            &&& after.error == Some(error)
            &&& after.adaptation_state == amr.adaptation_state
        },
{
}

/// An estimate counts only for the topology and the generation it was taken from:
/// any other one is dropped, and neither its report nor its step is kept.
pub proof fn a_stale_estimate_is_dropped(
    amr: Amr,
    active: ActiveMesh,
    source: AmrIndicatorSource,
    generation: u64,
    target_accuracy: Scalar,
    coarsen_below: Scalar,
)
    requires
        amr.indicator_completed is Some,
        amr.indicator_source == Some(source),
        source.topology != active.token || source.gpu_generation != generation,
    ensures
        ({
            let (step, after) = amr.judged(
                Some(active),
                generation,
                target_accuracy,
                coarsen_below,
            );
            &&& step is Stop
            &&& after.indicator_result == amr.indicator_result
            &&& after.last_analyzed_step == amr.last_analyzed_step
            &&& after.coarsen_streak == amr.coarsen_streak
            &&& after.adaptation_source == amr.adaptation_source
        }),
{
}

/// A current estimate is acted on: a refinement at once, a coarsening when it is
/// asked for a second time running, and nothing where the mesh fits. The first
/// time a mesh is adapted its history is begun first.
pub proof fn a_current_estimate_is_acted_on(
    amr: Amr,
    active: ActiveMesh,
    source: AmrIndicatorSource,
    estimate: IndicatorResult,
    generation: u64,
    target_accuracy: Scalar,
    coarsen_below: Scalar,
)
    requires
        amr.indicator_completed == Some(Ok::<IndicatorResult, String>(estimate)),
        amr.indicator_source == Some(source),
        source.topology == active.token,
        source.gpu_generation == generation,
    ensures
        ({
            let (step, after) = amr.judged(
                Some(active),
                generation,
                target_accuracy,
                coarsen_below,
            );
            let decision = direction(estimate.report, target_accuracy, coarsen_below);
            let known = amr.adaptation_state is Some && amr.adaptation_state->0.mesh_revision
                == active.mesh_revision;
            let goes = decision is Refine || (decision is Coarsen && amr.coarsen_streak >= 1);
            &&& after.last_analyzed_step == Some(source.accepted_step)
            &&& after.indicator_result == Some(estimate)
            &&& step is Adapt <==> goes && known
            &&& step is Initialize <==> goes && !known
            &&& step is Stop <==> !goes
            &&& step matches EstimateStep::Adapt { plan } ==> plan == plan_for(
                decision,
                amr.adaptation_state->0,
                estimate.field,
            ) && after.adaptation_source == Some(active.mesh_revision)
            &&& after.coarsen_streak == 0 <==> !(decision is Coarsen)
            &&& decision is Coarsen && amr.coarsen_streak < 100 ==> after.coarsen_streak
                == amr.coarsen_streak + 1
        }),
{
}

/// An estimate that failed is not acted on, and says why.
pub proof fn a_failed_estimate_is_reported(
    amr: Amr,
    active: ActiveMesh,
    source: AmrIndicatorSource,
    error: String,
    generation: u64,
    target_accuracy: Scalar,
    coarsen_below: Scalar,
)
    requires
        amr.indicator_completed == Some(Err::<IndicatorResult, String>(error)),
        amr.indicator_source == Some(source),
        source.topology == active.token,
        source.gpu_generation == generation,
    ensures
        ({
            let (step, after) = amr.judged(
                Some(active),
                generation,
                target_accuracy,
                coarsen_below,
            );
            &&& step is Stop
            &&& after.error == Some(error)
            &&& after.last_analyzed_step == Some(source.accepted_step)
        }),
{
}

/// An estimate starts only from a readback that belongs to the committed operator
/// in every length and counter, between two filterings, and long enough after the
/// last one; it is then stamped with what it was taken from.
pub proof fn an_estimate_starts_from_an_aligned_readback(
    amr: Amr,
    active: Option<ActiveMesh>,
    readback: Readback,
)
    requires
        readback.filter_cadence > 0,
    ensures
        ({
            let aligned = readback.solver_ready && readback.display_generation
                == readback.generation && readback.snapshot_current == readback.degrees_of_freedom
                && readback.snapshot_auxiliary == readback.degrees_of_freedom
                && readback.previous_primary == readback.degrees_of_freedom
                && readback.previous_complementary == readback.complementary_degrees_of_freedom
                && readback.previous_auxiliary == readback.auxiliary && readback.full_readback_at
                == readback.readbacks;
            let filtered = readback.filter_running && readback.completed_steps > 0
                && readback.completed_steps % readback.filter_cadence == 0;
            let early = amr.last_analyzed_step is Some && readback.completed_steps
                < amr.last_analyzed_step->0 + 8 && readback.completed_steps < u64::MAX;
            let hasty = readback.since_last_start is Some && readback.since_last_start->0.lt_num(
                (Scalar { bits: 0x3fe8000000000000 }),
            );
            let (step, after) = amr.ready_for(active, readback);
            &&& step is Estimate <==> active is Some && aligned && !filtered && !early && !hasty
                && readback.material_runtime != Some(false)
            &&& step matches ReadinessStep::Estimate { source } ==> {
                &&& source.topology == active->0.token
                &&& source.gpu_generation == readback.generation
                &&& source.accepted_step == readback.completed_steps
                &&& after == amr
            }
            &&& after.adaptation_job == amr.adaptation_job && after.indicator_job
                == amr.indicator_job
        }),
{
}

/// A pass works on what it has before it starts anything: a running adaptation
/// first, then a finished one, then a running estimate, then a finished one, and
/// a new estimate last.
pub proof fn a_pass_finishes_what_it_began(amr: Amr, facts: AmrFacts)
    requires
        facts.frame.enabled,
        !facts.frame.uploading && !facts.frame.preparing && !facts.frame.editing,
        facts.frame.active matches Some(active) && (amr.adaptation_source matches Some(source)
            ==> source == active.mesh_revision),
    ensures
        ({
            let (action, after) = amr.begun(facts);
            &&& amr.adaptation_job matches Some(job) ==> action == (AmrAction::AdvanceAdaptation {
                job,
            }) && after == amr
            &&& amr.adaptation_job is None ==> {
                &&& amr.adaptation_completed matches Some(Ok(done)) ==> (
                done.report.topology_changes > 0 ==> action == (AmrAction::RequestAdapted {
                    mesh: done.mesh,
                }))
                &&& amr.adaptation_completed is None && facts.frame.background == Some(
                    BackgroundAmrKind::Adaptation,
                ) ==> action is Over
                &&& amr.adaptation_completed is None && facts.frame.background is None ==> {
                    &&& amr.indicator_job matches Some(job) ==> action == (
                    AmrAction::AdvanceEstimate { job })
                    &&& action is PrepareEstimate ==> amr.indicator_job is None
                        && amr.indicator_completed is None
                    &&& action is StartAdaptation ==> amr.indicator_completed is Some
                }
            }
        }),
{
}

/// What a pass is told of is what it goes on with: an answered handoff keeps or
/// drops the history that waits for it, a job that no worker took runs here, and
/// an estimate that was started belongs to the source it was started for.
pub proof fn a_pass_goes_on_with_what_came_of_its_work(
    amr: Amr,
    facts: AmrFacts,
    answer: Result<(), String>,
    job: Artifact,
    taken: bool,
    state: MeshAdaptationState,
)
    ensures
        ({
            let (action, after) = amr.resumed(facts, AmrEvent::HandoffAnswered { answer });
            &&& action is Over
            &&& answer is Ok ==> after.pending_state == amr.pending_state && after.error is None
            &&& answer matches Err(error) ==> after.pending_state is None && after.error == Some(
                error,
            )
        }),
        ({
            let (action, after) = amr.resumed(facts, AmrEvent::AdaptationStarted { job, taken });
            &&& action is Over
            &&& after.adaptation_job == if taken {
                amr.adaptation_job
            } else {
                Some(job)
            }
        }),
        ({
            let (action, after) = amr.resumed(facts, AmrEvent::Initialized { state });
            &&& action is Over
            &&& after.adaptation_state == Some(state)
        }),
{
}

/// The loudest energy of a run is remembered: no estimate lowers it, and one that
/// measures more raises it to what it measures.
pub proof fn the_loudest_energy_is_remembered(
    amr: Amr,
    active: ActiveMesh,
    source: AmrIndicatorSource,
    estimate: IndicatorResult,
    generation: u64,
    target_accuracy: Scalar,
    coarsen_below: Scalar,
)
    requires
        amr.indicator_completed == Some(Ok::<IndicatorResult, String>(estimate)),
        amr.indicator_source == Some(source),
        source.current(active.token, generation),
        !amr.energy_peak.nan(),
    ensures
        ({
            let after = amr.judged(Some(active), generation, target_accuracy, coarsen_below).1;
            let measured = estimate.report.total_energy;
            &&& amr.energy_peak.le_num(after.energy_peak)
            &&& measured.finite() ==> measured.le_num(after.energy_peak) || !Scalar::zero_num().lt_num(
                measured,
            )
            &&& after.energy_peak == amr.energy_peak || after.energy_peak == measured
        }),
{
}

/// An estimate that was started is followed: its source is noted, and the job that
/// was started for it here is the one that runs.
pub proof fn a_started_estimate_is_followed(
    amr: Amr,
    facts: AmrFacts,
    source: AmrIndicatorSource,
    local_job: Option<Artifact>,
)
    ensures
        ({
            let (action, after) = amr.resumed(
                facts,
                AmrEvent::EstimatePrepared {
                    source,
                    preparation: EstimatePreparation::Started { local_job },
                },
            );
            &&& action is NoteStart
            &&& after.indicator_source == Some(source)
            &&& local_job is Some ==> after.indicator_job == local_job
            &&& local_job is None ==> after.indicator_job == amr.indicator_job
        }),
{
}

} // verus!
