//! One pass over a frame's mesh adaptation. The pass asks for one piece of
//! outside work at a time and goes on with what came of it.

use crate::adaptation::{
    AdaptationPlan, AdaptationResult, AdaptationStep, Amr, AmrFrame, AmrIndicatorSource, AmrOpening,
    AmrStatus, BackgroundAmrKind, EstimatePreparation, EstimateStep, IndicatorResult,
    MeshAdaptationState, Readback, ReadinessStep,
};
use crate::preparation::Artifact;
use crate::scalar::Scalar;
use vstd::prelude::*;

verus! {

/// What a frame knows before its pass. Nothing of it changes while the pass
/// lasts.
#[derive(Debug)]
pub struct AmrFacts {
    pub frame: AmrFrame,
    /// What the background worker says it is at.
    pub worker_phase: Option<String>,
    /// The generation that the solver is asked for.
    pub generation: u64,
    pub target_accuracy: Scalar,
    /// The indicator under which the mesh may be coarsened.
    pub coarsen_below: Scalar,
    pub readback: Readback,
}

/// The outside work that a pass asks for.
#[derive(Clone, Copy, Debug, PartialEq, Eq, Structural)]
pub enum AmrAction {
    /// Cancel whatever the worker runs. The pass is over.
    CancelAll,
    /// Cancel the worker's adaptation. The pass is over.
    CancelAdaptation,
    /// Work on the adaptation for a slice.
    AdvanceAdaptation { job: Artifact },
    /// Ask the runtime to prepare the adapted mesh.
    RequestAdapted { mesh: Artifact },
    /// Work on the estimate for a slice.
    AdvanceEstimate { job: Artifact },
    /// Read the history of the adaptation off the active mesh.
    InitializeAdaptation,
    /// Build an adaptation and offer it to the worker.
    StartAdaptation { plan: AdaptationPlan },
    /// Take an estimate of the field as it was read back.
    PrepareEstimate { source: AmrIndicatorSource },
    /// Note the time at which the estimate was started. The pass is over.
    NoteStart,
    Over,
}

/// What came of the work.
#[derive(Debug)]
#[allow(inconsistent_fields)]
pub enum AmrEvent {
    AdaptationSlice { phase: String, finished: Option<Result<AdaptationResult, String>> },
    HandoffAnswered { answer: Result<(), String> },
    EstimateSlice { phase: String, finished: Option<Result<IndicatorResult, String>> },
    Initialized { state: MeshAdaptationState },
    AdaptationStarted { job: Artifact, taken: bool },
    EstimatePrepared { source: AmrIndicatorSource, preparation: EstimatePreparation },
}

impl AmrEvent {
    /// Whether this is what can come of an action.
    pub open spec fn answers(self, action: AmrAction) -> bool {
        match action {
            AmrAction::AdvanceAdaptation { .. } => self is AdaptationSlice,
            AmrAction::RequestAdapted { .. } => self is HandoffAnswered,
            AmrAction::AdvanceEstimate { .. } => self is EstimateSlice,
            AmrAction::InitializeAdaptation => self is Initialized,
            AmrAction::StartAdaptation { .. } => self is AdaptationStarted,
            AmrAction::PrepareEstimate { source: asked } =>
                self matches AmrEvent::EstimatePrepared { source, .. } && source == asked,
            _ => false,
        }
    }
}

impl AmrAction {
    /// Whether the pass ends with this.
    pub open spec fn ends(self) -> bool {
        self is CancelAll || self is CancelAdaptation || self is NoteStart || self is Over
    }

    /// How far a pass has got when it asks for this.
    pub open spec fn progress(self) -> int {
        match self {
            AmrAction::AdvanceAdaptation { .. } => 0,
            AmrAction::AdvanceEstimate { .. } => 1,
            AmrAction::RequestAdapted { .. } => 2,
            AmrAction::InitializeAdaptation => 2,
            AmrAction::StartAdaptation { .. } => 2,
            AmrAction::PrepareEstimate { .. } => 2,
            _ => 3,
        }
    }
}

impl Amr {
    /// What the worker at a job of a kind shows.
    pub open spec fn watching(self, kind: BackgroundAmrKind, facts: AmrFacts) -> Self {
        Amr {
            status: match (facts.worker_phase, kind) {
                (Some(text), _) => AmrStatus::Phase(text),
                (None, BackgroundAmrKind::Adaptation) => AmrStatus::BackgroundAdaptation,
                (None, BackgroundAmrKind::Indicator) => AmrStatus::BackgroundEstimate,
            },
            ..self
        }
    }

    /// The pass from its start: what a frame without priority for it ends, a
    /// local adaptation goes on first, and the rest follows.
    pub open spec fn begun(self, facts: AmrFacts) -> (AmrAction, Self) {
        let (opening, opened) = self.opened(facts.frame);
        match opening {
            AmrOpening::CancelAll => (AmrAction::CancelAll, opened),
            AmrOpening::CancelAdaptation => (AmrAction::CancelAdaptation, opened),
            AmrOpening::Wait => (AmrAction::Over, opened),
            AmrOpening::Proceed => match opened.adaptation_job {
                Some(job) => (AmrAction::AdvanceAdaptation { job }, opened),
                None => opened.from_adaptation(facts),
            },
        }
    }

    /// The pass from a finished adaptation on, if there is one.
    pub open spec fn from_adaptation(self, facts: AmrFacts) -> (AmrAction, Self) {
        let (step, settled) = self.settled(facts.frame.active);
        match step {
            AdaptationStep::Request { mesh } => (AmrAction::RequestAdapted { mesh }, settled),
            AdaptationStep::Stop => (AmrAction::Over, settled),
            AdaptationStep::Proceed => if facts.frame.background == Some(
                BackgroundAmrKind::Adaptation,
            ) {
                (AmrAction::Over, settled.watching(BackgroundAmrKind::Adaptation, facts))
            } else {
                match settled.indicator_job {
                    Some(job) => (AmrAction::AdvanceEstimate { job }, settled),
                    None => settled.from_estimate(facts),
                }
            },
        }
    }

    /// The pass from a finished estimate on, if there is one; without any job a
    /// new estimate starts where the readback allows it.
    pub open spec fn from_estimate(self, facts: AmrFacts) -> (AmrAction, Self) {
        let (step, judged) = self.judged(
            facts.frame.active,
            facts.generation,
            facts.target_accuracy,
            facts.coarsen_below,
        );
        match step {
            EstimateStep::Stop => (AmrAction::Over, judged),
            EstimateStep::Initialize => (AmrAction::InitializeAdaptation, judged),
            EstimateStep::Adapt { plan } => (AmrAction::StartAdaptation { plan }, judged),
            EstimateStep::Proceed => if facts.frame.background == Some(
                BackgroundAmrKind::Indicator,
            ) {
                (AmrAction::Over, judged.watching(BackgroundAmrKind::Indicator, facts))
            } else {
                let (readiness, checked) = judged.ready_for(facts.frame.active, facts.readback);
                match readiness {
                    ReadinessStep::Stop => (AmrAction::Over, checked),
                    ReadinessStep::Estimate { source } => (
                        AmrAction::PrepareEstimate { source },
                        checked,
                    ),
                }
            },
        }
    }

    /// The pass after an event.
    pub open spec fn resumed(self, facts: AmrFacts, event: AmrEvent) -> (AmrAction, Self) {
        match event {
            AmrEvent::AdaptationSlice { phase, finished } => {
                let shown = Amr { status: AmrStatus::Phase(phase), ..self };
                match finished {
                    Some(outcome) => (Amr {
                        adaptation_completed: Some(outcome),
                        adaptation_job: None,
                        ..shown
                    }).from_adaptation(facts),
                    None => (AmrAction::Over, shown),
                }
            },
            AmrEvent::HandoffAnswered { answer } => (
                AmrAction::Over,
                match answer {
                    Ok(_) => Amr { status: AmrStatus::PreparingHandoff, error: None, ..self },
                    Err(error) => Amr {
                        pending_state: None,
                        status: AmrStatus::AdaptationDiscarded,
                        error: Some(error),
                        ..self
                    },
                },
            ),
            AmrEvent::EstimateSlice { phase, finished } => {
                let shown = Amr { status: AmrStatus::Phase(phase), ..self };
                match finished {
                    Some(outcome) => (Amr {
                        indicator_completed: Some(outcome),
                        indicator_job: None,
                        ..shown
                    }).from_estimate(facts),
                    None => (AmrAction::Over, shown),
                }
            },
            AmrEvent::Initialized { state } => (
                AmrAction::Over,
                Amr { adaptation_state: Some(state), ..self },
            ),
            AmrEvent::AdaptationStarted { job, taken } => (
                AmrAction::Over,
                if taken {
                    self
                } else {
                    Amr { adaptation_job: Some(job), ..self }
                },
            ),
            AmrEvent::EstimatePrepared { source, preparation } => match preparation {
                EstimatePreparation::Failed(error) => (
                    AmrAction::Over,
                    Amr {
                        status: AmrStatus::CanonicalEstimateFailed,
                        error: Some(error),
                        ..self
                    },
                ),
                EstimatePreparation::Unaligned => (
                    AmrAction::Over,
                    Amr { status: AmrStatus::WaitingForReadback, ..self },
                ),
                EstimatePreparation::Started { local_job } => (
                    AmrAction::NoteStart,
                    Amr {
                        indicator_source: Some(source),
                        indicator_job: if local_job is Some {
                            local_job
                        } else {
                            self.indicator_job
                        },
                        status: AmrStatus::PreparingEstimate,
                        ..self
                    },
                ),
            },
        }
    }

    /// Begins the pass of a frame, once what the worker finished has been taken.
    pub fn begin_pass(&mut self, facts: &AmrFacts) -> (result: AmrAction)
        requires
            facts.readback.filter_cadence > 0,
        ensures
            (result, *final(self)) == old(self).begun(*facts),
    {
        match self.open_frame(facts.frame) {
            AmrOpening::CancelAll => AmrAction::CancelAll,
            AmrOpening::CancelAdaptation => AmrAction::CancelAdaptation,
            AmrOpening::Wait => AmrAction::Over,
            AmrOpening::Proceed => match self.adaptation_job {
                Some(job) => AmrAction::AdvanceAdaptation { job },
                None => self.pass_adaptation(facts),
            },
        }
    }

    fn pass_adaptation(&mut self, facts: &AmrFacts) -> (result: AmrAction)
        requires
            facts.readback.filter_cadence > 0,
        ensures
            (result, *final(self)) == old(self).from_adaptation(*facts),
    {
        match self.settle_adaptation(facts.frame.active) {
            AdaptationStep::Request { mesh } => AmrAction::RequestAdapted { mesh },
            AdaptationStep::Stop => AmrAction::Over,
            AdaptationStep::Proceed => {
                if self.watch_background(
                    BackgroundAmrKind::Adaptation,
                    facts.frame.background,
                    facts.worker_phase.clone(),
                ) {
                    return AmrAction::Over;
                }
                match self.indicator_job {
                    Some(job) => AmrAction::AdvanceEstimate { job },
                    None => self.pass_estimate(facts),
                }
            },
        }
    }

    fn pass_estimate(&mut self, facts: &AmrFacts) -> (result: AmrAction)
        requires
            facts.readback.filter_cadence > 0,
        ensures
            (result, *final(self)) == old(self).from_estimate(*facts),
    {
        match self.judge_estimate(
            facts.frame.active,
            facts.generation,
            facts.target_accuracy,
            facts.coarsen_below,
        ) {
            EstimateStep::Stop => AmrAction::Over,
            EstimateStep::Initialize => AmrAction::InitializeAdaptation,
            EstimateStep::Adapt { plan } => AmrAction::StartAdaptation { plan },
            EstimateStep::Proceed => {
                if self.watch_background(
                    BackgroundAmrKind::Indicator,
                    facts.frame.background,
                    facts.worker_phase.clone(),
                ) {
                    return AmrAction::Over;
                }
                match self.check_readiness(facts.frame.active, facts.readback) {
                    ReadinessStep::Stop => AmrAction::Over,
                    ReadinessStep::Estimate { source } => AmrAction::PrepareEstimate { source },
                }
            },
        }
    }

    /// Goes on with what came of the work that the pass asked for.
    pub fn resume_pass(&mut self, facts: &AmrFacts, event: AmrEvent) -> (result: AmrAction)
        requires
            facts.readback.filter_cadence > 0,
        ensures
            (result, *final(self)) == old(self).resumed(*facts, event),
    {
        match event {
            AmrEvent::AdaptationSlice { phase, finished } => {
                if self.adaptation_advanced(phase, finished) {
                    self.pass_adaptation(facts)
                } else {
                    AmrAction::Over
                }
            },
            AmrEvent::HandoffAnswered { answer } => {
                self.handoff_answered(answer);
                AmrAction::Over
            },
            AmrEvent::EstimateSlice { phase, finished } => {
                if self.indicator_advanced(phase, finished) {
                    self.pass_estimate(facts)
                } else {
                    AmrAction::Over
                }
            },
            AmrEvent::Initialized { state } => {
                self.initialize(state);
                AmrAction::Over
            },
            AmrEvent::AdaptationStarted { job, taken } => {
                self.start_adaptation_job(job, taken);
                AmrAction::Over
            },
            AmrEvent::EstimatePrepared { source, preparation } => {
                if self.estimate_prepared(source, preparation) {
                    AmrAction::NoteStart
                } else {
                    AmrAction::Over
                }
            },
        }
    }
}

/// A pass comes to its end: an answer always takes it further.
pub proof fn a_pass_ends(amr: Amr, facts: AmrFacts, asked: AmrAction, event: AmrEvent)
    requires
        event.answers(asked),
    ensures
        amr.resumed(facts, event).0.progress() > asked.progress(),
        amr.resumed(facts, event).0.progress() == 3 <==> amr.resumed(facts, event).0.ends(),
{
}

/// A frame that something else has priority in changes nothing but the status.
pub proof fn an_edit_has_priority(amr: Amr, facts: AmrFacts)
    requires
        facts.frame.enabled,
        !amr.overtaken(facts.frame),
        facts.frame.uploading || facts.frame.preparing || facts.frame.editing,
    ensures
        ({
            let (action, after) = amr.begun(facts);
            action is Over && after == (Amr { status: after.status, ..amr })
        }),
{
}

/// While an adaptation is in flight no other one and no estimate is started.
pub proof fn an_adaptation_in_flight_starts_nothing(amr: Amr, facts: AmrFacts)
    requires
        amr.adapting(facts.frame.background),
    ensures
        !(amr.begun(facts).0 is StartAdaptation),
        !(amr.begun(facts).0 is PrepareEstimate),
        !(amr.begun(facts).0 is AdvanceEstimate),
{
}

/// An estimate is started only while no job of either kind runs, here or on the
/// worker, and only from a readback of the active topology.
pub proof fn an_estimate_starts_alone(amr: Amr, facts: AmrFacts)
    ensures
        ({
            let (action, after) = amr.begun(facts);
            action matches AmrAction::PrepareEstimate { source } ==> {
                &&& !amr.adapting(facts.frame.background)
                &&& after.indicator_job is None
                &&& after.indicator_completed is None
                &&& facts.frame.background is None
                &&& facts.readback.aligned()
                &&& facts.frame.active matches Some(active) && source.current(
                    active.token,
                    facts.readback.generation,
                )
            }
        }),
{
    match facts.frame.background {
        None => {},
        Some(BackgroundAmrKind::Indicator) => {},
        Some(BackgroundAmrKind::Adaptation) => {},
    }
}

} // verus!
