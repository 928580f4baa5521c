//! Whole runs of a preparation: the calls that advance a job one after the other,
//! and what they count.

use crate::preparation::{
    Artifact, PreparedTopology, TopologyPreparationError, TopologyPreparationTiming,
};
use crate::preparation_job::{TimingBucket, TopologyPreparationJob, WorkOutcome};
use crate::scalar::Scalar;
use vstd::prelude::*;

verus! {

/// One thing that happens to a job inside a call.
pub ghost enum Step {
    /// The next piece of work is named.
    Name,
    /// The model without temporal laws is asked for.
    Strip(Artifact),
    /// A bucket takes a new total.
    Charge(TimingBucket, Scalar),
    /// The outcome of a piece of work is taken.
    Accept(WorkOutcome),
}

impl Step {
    pub open spec fn allowed(self, job: TopologyPreparationJob) -> bool {
        self matches Step::Accept(outcome) ==> job.expects(outcome)
    }

    pub open spec fn taken(self, job: TopologyPreparationJob) -> TopologyPreparationJob {
        match self {
            Step::Name => TopologyPreparationJob { phase: job.working_phase(), ..job },
            Step::Strip(model) => TopologyPreparationJob {
                stripped_model: match job.stripped_model {
                    Some(kept) => Some(kept),
                    None => Some(model),
                },
                ..job
            },
            Step::Charge(bucket, total) => job.charged(bucket, total),
            Step::Accept(outcome) => job.accepted(outcome),
        }
    }
}

/// The job after some steps.
pub open spec fn after_steps(job: TopologyPreparationJob, steps: Seq<Step>) -> TopologyPreparationJob
    decreases steps.len(),
{
    if steps.len() == 0 {
        job
    } else {
        steps.last().taken(after_steps(job, steps.drop_last()))
    }
}

/// Whether every step can be taken where it stands.
pub open spec fn steps_allowed(job: TopologyPreparationJob, steps: Seq<Step>) -> bool
    decreases steps.len(),
{
    steps.len() > 0 ==> {
        &&& steps_allowed(job, steps.drop_last())
        &&& steps.last().allowed(after_steps(job, steps.drop_last()))
    }
}

/// A call that advances a job: its steps, and what the slice took.
pub ghost struct Call {
    pub steps: Seq<Step>,
    pub elapsed: Scalar,
    pub work_total: Scalar,
}

impl Call {
    /// The job when the call returns.
    pub open spec fn over(self, job: TopologyPreparationJob) -> TopologyPreparationJob {
        let worked = after_steps(job, self.steps);
        TopologyPreparationJob {
            timing: worked.sliced_timing(self.elapsed, self.work_total),
            ..worked
        }
    }

    /// What the call returns, where its last step came to `outcome`.
    pub open spec fn returned(
        self,
        job: TopologyPreparationJob,
        outcome: Option<Result<PreparedTopology, TopologyPreparationError>>,
    ) -> Option<Result<PreparedTopology, TopologyPreparationError>> {
        match outcome {
            Some(Ok(prepared)) => Some(
                Ok(PreparedTopology { timing: self.over(job).timing, ..prepared }),
            ),
            other => other,
        }
    }
}

/// The job after some calls.
pub open spec fn after_calls(job: TopologyPreparationJob, calls: Seq<Call>) -> TopologyPreparationJob
    decreases calls.len(),
{
    if calls.len() == 0 {
        job
    } else {
        calls.last().over(after_calls(job, calls.drop_last()))
    }
}

/// Whether every call is one that can be made: the job is not over before it,
/// and its steps can be taken.
pub open spec fn calls_allowed(job: TopologyPreparationJob, calls: Seq<Call>) -> bool
    decreases calls.len(),
{
    calls.len() > 0 ==> {
        let before = after_calls(job, calls.drop_last());
        &&& calls_allowed(job, calls.drop_last())
        &&& !before.done
        &&& steps_allowed(before, calls.last().steps)
    }
}

/// Whether a job is sound, prepares the same request and has counted as many
/// slices as another.
spec fn continues_soundly(job: TopologyPreparationJob, next: TopologyPreparationJob) -> bool {
    &&& next.wf()
    &&& next.request == job.request
    &&& next.timing.slices == job.timing.slices
}

proof fn an_outcome_keeps_the_count(job: TopologyPreparationJob, outcome: WorkOutcome)
    requires
        job.wf(),
        job.expects(outcome),
    ensures
        continues_soundly(job, job.accepted(outcome)),
{
    crate::preparation_laws::every_outcome_keeps_the_job_sound(job, outcome);
    crate::preparation_laws::a_job_is_over_once_it_reported(job, outcome);
}

proof fn a_note_keeps_the_count(
    job: TopologyPreparationJob,
    phase: crate::preparation::TopologyPreparationPhase,
    stripped_model: Option<Artifact>,
    timing: TopologyPreparationTiming,
)
    requires
        job.wf(),
        timing.slices == job.timing.slices,
    ensures
        continues_soundly(
            job,
            TopologyPreparationJob { phase, stripped_model, timing, ..job },
        ),
{
}

proof fn a_step_keeps_the_count(job: TopologyPreparationJob, step: Step)
    requires
        job.wf(),
        step.allowed(job),
    ensures
        continues_soundly(job, step.taken(job)),
{
    match step {
        Step::Name => {
            a_note_keeps_the_count(job, job.working_phase(), job.stripped_model, job.timing);
        },
        Step::Strip(_) => {
            a_note_keeps_the_count(job, job.phase, step.taken(job).stripped_model, job.timing);
        },
        Step::Charge(bucket, total) => {
            a_note_keeps_the_count(
                job,
                job.phase,
                job.stripped_model,
                job.charged(bucket, total).timing,
            );
        },
        Step::Accept(outcome) => {
            an_outcome_keeps_the_count(job, outcome);
        },
    }
}

proof fn steps_keep_the_count(job: TopologyPreparationJob, steps: Seq<Step>)
    requires
        job.wf(),
        steps_allowed(job, steps),
    ensures
        continues_soundly(job, after_steps(job, steps)),
    decreases steps.len(),
{
    if steps.len() > 0 {
        steps_keep_the_count(job, steps.drop_last());
        a_step_keeps_the_count(after_steps(job, steps.drop_last()), steps.last());
    }
}

/// Over a whole run every call counts as one slice, however many steps it takes,
/// and the job stays sound and goes on preparing what it was asked for.
pub proof fn every_call_counts_one_slice(job: TopologyPreparationJob, calls: Seq<Call>)
    requires
        job.wf(),
        calls_allowed(job, calls),
    ensures
        after_calls(job, calls).wf(),
        after_calls(job, calls).request == job.request,
        after_calls(job, calls).timing.slices == (if job.timing.slices + calls.len()
            < u32::MAX {
            job.timing.slices + calls.len()
        } else {
            u32::MAX as int
        }),
    decreases calls.len(),
{
    if calls.len() > 0 {
        let before = after_calls(job, calls.drop_last());
        every_call_counts_one_slice(job, calls.drop_last());
        steps_keep_the_count(before, calls.last().steps);
    }
}

/// A job that starts with nothing counted has counted its calls by the time it
/// hands its candidate out, and the candidate carries the same timing.
pub proof fn a_candidate_carries_the_count_of_its_calls(
    job: TopologyPreparationJob,
    calls: Seq<Call>,
    prepared: PreparedTopology,
)
    requires
        job.wf(),
        job.timing == TopologyPreparationTiming::none(),
        calls_allowed(job, calls),
        0 < calls.len() < u32::MAX,
    ensures
        ({
            let before = after_calls(job, calls.drop_last());
            let returned = calls.last().returned(before, Some(Ok(prepared)));
            &&& returned matches Some(Ok(candidate))
            &&& candidate.timing.slices == calls.len()
            &&& candidate.timing == after_calls(job, calls).timing
            &&& candidate.mesh == prepared.mesh
        }),
{
    every_call_counts_one_slice(job, calls);
}

/// Once a job is over no further call is made.
pub proof fn no_call_follows_the_last(
    job: TopologyPreparationJob,
    calls: Seq<Call>,
    further: Call,
)
    requires
        after_calls(job, calls).done,
    ensures
        !calls_allowed(job, calls.push(further)),
{
    assert(calls.push(further).drop_last() =~= calls);
}

} // verus!
