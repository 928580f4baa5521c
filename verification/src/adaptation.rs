//! Automatic mesh adaptation: deciding each frame whether to estimate, refine
//! or coarsen, and driving the adaptation through to its handoff.
//!
//! A frame passes through the stages below, and each says whether the pass goes
//! on; [`crate::adaptation_pass`] puts them in order. The engine's jobs run
//! between the stages; their results come back as arguments.

use crate::labels::AmrDecision;
use crate::preparation::{Artifact, TopologyToken};
use crate::scalar::Scalar;
use vstd::prelude::*;

verus! {

/// A vertex changed by one adaptation must survive the generation that follows.
pub const AMR_TOPOLOGY_COOLDOWN_GENERATIONS: u64 = 2;

/// How many elements have to ask before the mesh is changed for them.
pub const AMR_CANDIDATES: usize = 4;

/// How many solver steps lie between two estimates.
pub const AMR_STEPS_BETWEEN_ESTIMATES: u64 = 8;

/// Three quarters: the seconds that lie between two estimates.
pub const AMR_SECONDS_BETWEEN_ESTIMATES_BITS: u64 = 0x3fe8000000000000;

/// What an error estimate reports.
#[derive(Clone, Copy, Debug, PartialEq, Eq, Structural)]
pub struct SolutionIndicatorReport {
    pub refine_candidates: usize,
    pub error_refine_candidates: usize,
    pub limit_refine_candidates: usize,
    pub coarsen_candidates: usize,
    pub work_units: usize,
    pub global_indicator: Scalar,
    pub total_energy: Scalar,
    pub dormant: bool,
}

/// An estimate: its report, and the sizes it asks for.
#[derive(Clone, Copy, Debug, PartialEq, Eq, Structural)]
pub struct IndicatorResult {
    pub report: SolutionIndicatorReport,
    pub field: Artifact,
}

/// What an adaptation carries from one generation to the next, and the mesh it
/// belongs to.
#[derive(Clone, Copy, Debug, PartialEq, Eq, Structural)]
pub struct MeshAdaptationState {
    pub history: Artifact,
    pub mesh_revision: u64,
}

#[derive(Clone, Copy, Debug, PartialEq, Eq, Structural)]
pub struct MeshAdaptationReport {
    pub topology_changes: usize,
    pub coarsening_changes: usize,
    pub skipped_collapses: usize,
    pub refine_passes: usize,
    pub collapse_passes: usize,
    pub work_units: usize,
    pub original_triangles: usize,
    pub preserved_triangles: usize,
    pub remaining_oversized_triangles: usize,
}

#[derive(Clone, Copy, Debug, PartialEq, Eq, Structural)]
pub struct AdaptationResult {
    pub mesh: Artifact,
    pub state: MeshAdaptationState,
    pub report: MeshAdaptationReport,
}

/// Ownership of an estimate's snapshot. Live events replace command buffers and
/// do not invalidate a snapshot already copied; a generation handoff does, and
/// is therefore part of the key.
#[derive(Clone, Copy, Debug, PartialEq, Eq, Structural)]
pub struct AmrIndicatorSource {
    pub topology: TopologyToken,
    pub gpu_generation: u64,
    pub accepted_step: u64,
}

impl AmrIndicatorSource {
    pub open spec fn current(self, topology: TopologyToken, gpu_generation: u64) -> bool {
        self.topology == topology && self.gpu_generation == gpu_generation
    }

    pub fn is_current(self, topology: TopologyToken, gpu_generation: u64) -> (result: bool)
        ensures
            result == self.current(topology, gpu_generation),
    {
        self.topology == topology && self.gpu_generation == gpu_generation
    }
}

#[derive(Clone, Copy, Debug, PartialEq, Eq, Structural)]
pub enum BackgroundAmrKind {
    Indicator,
    Adaptation,
}

/// What the background worker finished.
#[derive(Debug)]
pub enum BackgroundAmrResult {
    Indicator(Result<IndicatorResult, String>),
    Adaptation(Result<AdaptationResult, String>),
}

/// What the panel says the adaptation is doing.
#[derive(Debug)]
pub enum AmrStatus {
    Off,
    MeshReplaced,
    AdaptingMesh,
    GeometryHasPriority,
    MeshUnchanged,
    PreparingHandoff,
    AdaptationDiscarded,
    AdaptationFailed,
    StaleEstimate,
    EstimateFailed,
    MeshMatchesSolution,
    ConfirmingCoarsening,
    InitializingAdaptation,
    WaitingForSolution,
    WaitingForReadback,
    WaitingForEndpoint,
    Monitoring,
    CanonicalEstimateFailed,
    PreparingEstimate,
    /// What a running job says of itself.
    Phase(String),
    /// A background adaptation that has said nothing yet.
    BackgroundAdaptation,
    /// A background estimate that has said nothing yet.
    BackgroundEstimate,
}

impl AmrStatus {
    pub open spec fn text_of(self) -> Seq<char> {
        match self {
            AmrStatus::Off => "off"@,
            AmrStatus::MeshReplaced => "adaptation discarded: the mesh changed underneath it"@,
            AmrStatus::AdaptingMesh => "adapting mesh"@,
            AmrStatus::GeometryHasPriority => "geometry has priority"@,
            AmrStatus::MeshUnchanged => "mesh unchanged; monitoring solution"@,
            AmrStatus::PreparingHandoff => "preparing adaptive handoff"@,
            AmrStatus::AdaptationDiscarded => "adaptation discarded"@,
            AmrStatus::AdaptationFailed => "adaptation failed"@,
            AmrStatus::StaleEstimate => "discarded stale estimate"@,
            AmrStatus::EstimateFailed => "estimate failed"@,
            AmrStatus::MeshMatchesSolution => "mesh matches solution"@,
            AmrStatus::ConfirmingCoarsening => "confirming coarsening"@,
            AmrStatus::InitializingAdaptation => "initializing adaptation"@,
            AmrStatus::WaitingForSolution => "waiting for solution"@,
            AmrStatus::WaitingForReadback => "waiting for aligned readback"@,
            AmrStatus::WaitingForEndpoint => "waiting for post-filter endpoint"@,
            AmrStatus::Monitoring => "monitoring solution"@,
            AmrStatus::CanonicalEstimateFailed => "canonical estimate failed"@,
            AmrStatus::PreparingEstimate => "preparing estimate"@,
            AmrStatus::Phase(text) => text@,
            AmrStatus::BackgroundAdaptation => "Adapting mesh"@,
            AmrStatus::BackgroundEstimate => "Preparing AMR estimate"@,
        }
    }

    pub fn text(&self) -> (result: &str)
        ensures
            result@ == self.text_of(),
    {
        match self {
            AmrStatus::Off => "off",
            AmrStatus::MeshReplaced => "adaptation discarded: the mesh changed underneath it",
            AmrStatus::AdaptingMesh => "adapting mesh",
            AmrStatus::GeometryHasPriority => "geometry has priority",
            AmrStatus::MeshUnchanged => "mesh unchanged; monitoring solution",
            AmrStatus::PreparingHandoff => "preparing adaptive handoff",
            AmrStatus::AdaptationDiscarded => "adaptation discarded",
            AmrStatus::AdaptationFailed => "adaptation failed",
            AmrStatus::StaleEstimate => "discarded stale estimate",
            AmrStatus::EstimateFailed => "estimate failed",
            AmrStatus::MeshMatchesSolution => "mesh matches solution",
            AmrStatus::ConfirmingCoarsening => "confirming coarsening",
            AmrStatus::InitializingAdaptation => "initializing adaptation",
            AmrStatus::WaitingForSolution => "waiting for solution",
            AmrStatus::WaitingForReadback => "waiting for aligned readback",
            AmrStatus::WaitingForEndpoint => "waiting for post-filter endpoint",
            AmrStatus::Monitoring => "monitoring solution",
            AmrStatus::CanonicalEstimateFailed => "canonical estimate failed",
            AmrStatus::PreparingEstimate => "preparing estimate",
            AmrStatus::Phase(text) => text.as_str(),
            AmrStatus::BackgroundAdaptation => "Adapting mesh",
            AmrStatus::BackgroundEstimate => "Preparing AMR estimate",
        }
    }
}

/// What the adaptation holds from one frame to the next.
#[derive(Debug)]
pub struct Amr {
    /// A job that runs here because no background worker took it.
    pub indicator_job: Option<Artifact>,
    pub indicator_completed: Option<Result<IndicatorResult, String>>,
    pub indicator_source: Option<AmrIndicatorSource>,
    pub indicator_result: Option<IndicatorResult>,
    pub adaptation_job: Option<Artifact>,
    pub adaptation_completed: Option<Result<AdaptationResult, String>>,
    /// The mesh that the running adaptation started from.
    pub adaptation_source: Option<u64>,
    pub adaptation_state: Option<MeshAdaptationState>,
    pub pending_state: Option<MeshAdaptationState>,
    pub report: Option<MeshAdaptationReport>,
    pub coarsen_streak: u32,
    pub energy_peak: Scalar,
    pub last_analyzed_step: Option<u64>,
    pub status: AmrStatus,
    pub error: Option<String>,
}

/// The committed topology as the adaptation sees it.
#[derive(Clone, Copy, Debug, PartialEq, Eq, Structural)]
pub struct ActiveMesh {
    pub token: TopologyToken,
    pub mesh_revision: u64,
}

/// What a frame starts from.
#[derive(Clone, Copy, Debug, PartialEq, Eq, Structural)]
pub struct AmrFrame {
    pub enabled: bool,
    /// A candidate is uploading or in preparation, or the geometry is edited.
    pub uploading: bool,
    pub preparing: bool,
    pub editing: bool,
    pub active: Option<ActiveMesh>,
    /// What the background worker is busy with.
    pub background: Option<BackgroundAmrKind>,
}

/// How a frame begins.
#[derive(Clone, Copy, Debug, PartialEq, Eq, Structural)]
pub enum AmrOpening {
    /// Everything in flight is dropped, the background job too.
    CancelAll,
    /// The background adaptation is dropped.
    CancelAdaptation,
    Wait,
    /// The pass goes on.
    Proceed,
}

/// Chooses one direction for the next adaptation.
///
/// A limit is a floor: too few elements across a forced wavelength, or an
/// element larger than allowed, refines on its own account. What the error
/// estimate asks for answers to the accuracy target, for the field as a whole.
/// Coarsening begins only well below the target, so the two directions do not
/// alternate.
pub open spec fn direction(
    report: SolutionIndicatorReport,
    target_accuracy: Scalar,
    coarsen_below: Scalar,
) -> AmrDecision {
    if report.limit_refine_candidates >= AMR_CANDIDATES || (report.error_refine_candidates
        >= AMR_CANDIDATES && target_accuracy.lt_num(report.global_indicator)) {
        AmrDecision::Refine
    } else if report.coarsen_candidates >= AMR_CANDIDATES && report.global_indicator.lt_num(
        coarsen_below,
    ) {
        AmrDecision::Coarsen
    } else {
        AmrDecision::Hold
    }
}

/// `coarsen_below` is the indicator under which the mesh may be coarsened, a
/// fixed part of the target.
pub fn adaptation_decision(
    report: SolutionIndicatorReport,
    target_accuracy: Scalar,
    coarsen_below: Scalar,
) -> (result: AmrDecision)
    ensures
        result == direction(report, target_accuracy, coarsen_below),
{
    if report.limit_refine_candidates >= AMR_CANDIDATES || (report.error_refine_candidates
        >= AMR_CANDIDATES && target_accuracy.less(report.global_indicator)) {
        AmrDecision::Refine
    } else if report.coarsen_candidates >= AMR_CANDIDATES && report.global_indicator.less(
        coarsen_below,
    ) {
        AmrDecision::Coarsen
    } else {
        AmrDecision::Hold
    }
}

/// Between the threshold for coarsening and the target the error estimate moves
/// the mesh neither way.
pub proof fn the_deadband_holds(
    report: SolutionIndicatorReport,
    target_accuracy: Scalar,
    coarsen_below: Scalar,
)
    requires
        report.limit_refine_candidates < AMR_CANDIDATES,
        coarsen_below.le_num(report.global_indicator),
        report.global_indicator.le_num(target_accuracy),
    ensures
        direction(report, target_accuracy, coarsen_below) == AmrDecision::Hold,
{
}

/// A stricter target never turns a refinement into a coarsening, nor a
/// refinement into rest.
pub proof fn a_stricter_target_keeps_refining(
    report: SolutionIndicatorReport,
    target: Scalar,
    below: Scalar,
    stricter: Scalar,
    stricter_below: Scalar,
)
    requires
        stricter.le_num(target),
        direction(report, target, below) == AmrDecision::Refine,
    ensures
        direction(report, stricter, stricter_below) == AmrDecision::Refine,
{
}

/// A resident filter flips the accepted state lane without advancing physical
/// time. The other lane at this boundary is the state before the filter, not the
/// previous endpoint of the solver.
pub fn resident_filter_boundary(enabled: bool, completed_steps: u64, cadence: u64) -> (result: bool)
    requires
        cadence > 0,
    ensures
        result == (enabled && completed_steps > 0 && completed_steps % cadence == 0),
{
    enabled && completed_steps > 0 && completed_steps % cadence == 0
}

/// The lengths and counters that tell whether a readback is aligned with the
/// committed operator.
#[derive(Clone, Copy, Debug, PartialEq, Eq, Structural)]
pub struct Readback {
    pub solver_ready: bool,
    pub generation: u64,
    pub display_generation: u64,
    pub degrees_of_freedom: usize,
    pub complementary_degrees_of_freedom: usize,
    pub snapshot_current: usize,
    pub snapshot_auxiliary: usize,
    pub previous_primary: usize,
    pub previous_complementary: usize,
    pub auxiliary: usize,
    pub previous_auxiliary: usize,
    pub full_readback_at: u64,
    pub readbacks: u64,
    pub completed_steps: u64,
    pub filter_running: bool,
    pub filter_cadence: u64,
    /// The seconds since the last estimate was started.
    pub since_last_start: Option<Scalar>,
    /// On a driven medium, whether the material's runtime can be decoded from
    /// the snapshot.
    pub material_runtime: Option<bool>,
}

/// The first step that the estimate after one at `previous` may be taken from.
pub open spec fn next_step(previous: u64) -> int {
    if previous + AMR_STEPS_BETWEEN_ESTIMATES <= u64::MAX {
        previous + AMR_STEPS_BETWEEN_ESTIMATES
    } else {
        u64::MAX as int
    }
}

impl Readback {
    pub open spec fn aligned(self) -> bool {
        &&& self.solver_ready
        &&& self.display_generation == self.generation
        &&& self.snapshot_current == self.degrees_of_freedom
        &&& self.snapshot_auxiliary == self.degrees_of_freedom
        &&& self.previous_primary == self.degrees_of_freedom
        &&& self.previous_complementary == self.complementary_degrees_of_freedom
        &&& self.previous_auxiliary == self.auxiliary
        &&& self.full_readback_at == self.readbacks
    }

    /// Whether the last estimate is too recent, in steps or in seconds.
    pub open spec fn too_soon(self, last_analyzed_step: Option<u64>) -> bool {
        ||| last_analyzed_step matches Some(previous) && self.completed_steps < next_step(previous)
        ||| self.since_last_start matches Some(elapsed) && elapsed.lt_num(
            Scalar { bits: AMR_SECONDS_BETWEEN_ESTIMATES_BITS },
        )
    }

    /// Why no estimate can start from this readback.
    pub open spec fn obstacle(self, last_analyzed_step: Option<u64>) -> Option<AmrStatus> {
        if !self.aligned() {
            Some(AmrStatus::WaitingForReadback)
        } else if self.filter_running && self.completed_steps > 0 && self.completed_steps
            % self.filter_cadence == 0 {
            Some(AmrStatus::WaitingForEndpoint)
        } else if self.too_soon(last_analyzed_step) {
            Some(AmrStatus::Monitoring)
        } else if self.material_runtime == Some(false) {
            Some(AmrStatus::WaitingForReadback)
        } else {
            None
        }
    }

    fn refuses(self, last_analyzed_step: Option<u64>) -> (result: Option<AmrStatus>)
        requires
            self.filter_cadence > 0,
        ensures
            result == self.obstacle(last_analyzed_step),
    {
        if !self.solver_ready || self.display_generation != self.generation
            || self.snapshot_current != self.degrees_of_freedom || self.snapshot_auxiliary
            != self.degrees_of_freedom || self.previous_primary != self.degrees_of_freedom
            || self.previous_complementary != self.complementary_degrees_of_freedom
            || self.previous_auxiliary != self.auxiliary || self.full_readback_at
            != self.readbacks {
            return Some(AmrStatus::WaitingForReadback);
        }
        if resident_filter_boundary(self.filter_running, self.completed_steps, self.filter_cadence) {
            return Some(AmrStatus::WaitingForEndpoint);
        }
        let few_steps: bool = match last_analyzed_step {
            Some(previous) => self.completed_steps < previous.saturating_add(
                AMR_STEPS_BETWEEN_ESTIMATES,
            ),
            None => false,
        };
        let few_seconds: bool = match self.since_last_start {
            Some(elapsed) => elapsed.less(Scalar { bits: AMR_SECONDS_BETWEEN_ESTIMATES_BITS }),
            None => false,
        };
        if few_steps || few_seconds {
            return Some(AmrStatus::Monitoring);
        }
        match self.material_runtime {
            Some(false) => Some(AmrStatus::WaitingForReadback),
            _ => None,
        }
    }
}

/// How an adaptation starts: what it continues from, the sizes it goes by and
/// how much it may change.
#[derive(Clone, Copy, Debug, PartialEq, Eq, Structural)]
pub struct AdaptationPlan {
    pub state: MeshAdaptationState,
    pub field: Artifact,
    pub max_vertices: usize,
    pub max_triangles: usize,
    pub max_refinement_steps: usize,
    pub max_topology_changes: usize,
    pub max_refinement_changes: usize,
    pub max_coarsening_changes: usize,
    pub max_work_units: usize,
    pub cooldown_generations: u64,
}

/// An adaptation changes the mesh in one direction only.
pub open spec fn plan_for(
    decision: AmrDecision,
    state: MeshAdaptationState,
    field: Artifact,
) -> AdaptationPlan {
    AdaptationPlan {
        state,
        field,
        max_vertices: 50_000,
        max_triangles: 100_000,
        max_refinement_steps: 50_000,
        max_topology_changes: 512,
        max_refinement_changes: if decision is Refine {
            usize::MAX
        } else {
            0
        },
        max_coarsening_changes: if decision is Coarsen {
            256
        } else {
            0
        },
        max_work_units: 5_000_000,
        cooldown_generations: AMR_TOPOLOGY_COOLDOWN_GENERATIONS,
    }
}

fn adaptation_plan(decision: AmrDecision, state: MeshAdaptationState, field: Artifact) -> (result:
    AdaptationPlan)
    ensures
        result == plan_for(decision, state, field),
{
    AdaptationPlan {
        state,
        field,
        max_vertices: 50_000,
        max_triangles: 100_000,
        max_refinement_steps: 50_000,
        max_topology_changes: 512,
        max_refinement_changes: match decision {
            AmrDecision::Refine => usize::MAX,
            _ => 0,
        },
        max_coarsening_changes: match decision {
            AmrDecision::Coarsen => 256,
            _ => 0,
        },
        max_work_units: 5_000_000,
        cooldown_generations: AMR_TOPOLOGY_COOLDOWN_GENERATIONS,
    }
}

/// What becomes of a finished adaptation.
#[derive(Clone, Copy, Debug, PartialEq, Eq, Structural)]
pub enum AdaptationStep {
    /// There was none, and the pass goes on.
    Proceed,
    /// The pass ends.
    Stop,
    /// The adapted mesh is handed to preparation.
    Request { mesh: Artifact },
}

/// What becomes of a finished estimate.
#[derive(Clone, Copy, Debug, PartialEq, Eq, Structural)]
pub enum EstimateStep {
    Proceed,
    Stop,
    /// The history of the adaptation has to be started from the active mesh.
    Initialize,
    Adapt { plan: AdaptationPlan },
}

/// What a frame without a job does.
#[derive(Clone, Copy, Debug, PartialEq, Eq, Structural)]
pub enum ReadinessStep {
    Stop,
    Estimate { source: AmrIndicatorSource },
}

/// What came of preparing an estimate.
#[derive(Debug)]
pub enum EstimatePreparation {
    /// The rate of the field could not be had.
    Failed(String),
    /// The auxiliary field is not aligned.
    Unaligned,
    /// The job runs, here or in the background.
    Started { local_job: Option<Artifact> },
}

impl Amr {
    pub open spec fn idle(self) -> Self {
        Amr {
            indicator_job: None,
            indicator_completed: None,
            indicator_source: None,
            indicator_result: None,
            adaptation_job: None,
            adaptation_completed: None,
            adaptation_source: None,
            pending_state: None,
            coarsen_streak: 0,
            status: AmrStatus::Off,
            ..self
        }
    }

    /// Takes what the background worker finished.
    pub fn drain_background_amr(&mut self, finished: BackgroundAmrResult)
        ensures
            *final(self) == match finished {
                BackgroundAmrResult::Indicator(result) => Amr {
                    indicator_completed: Some(result),
                    ..*old(self)
                },
                BackgroundAmrResult::Adaptation(result) => Amr {
                    adaptation_completed: Some(result),
                    ..*old(self)
                },
            },
    {
        match finished {
            BackgroundAmrResult::Indicator(result) => {
                self.indicator_completed = Some(result);
            },
            BackgroundAmrResult::Adaptation(result) => {
                self.adaptation_completed = Some(result);
            },
        }
    }

    pub open spec fn adapting(self, background: Option<BackgroundAmrKind>) -> bool {
        ||| self.adaptation_job is Some
        ||| self.adaptation_completed is Some
        ||| background == Some(BackgroundAmrKind::Adaptation)
    }

    /// Whether an adaptation is computing a new mesh, here or on the worker, or
    /// holds one not yet handed to preparation.
    pub fn adaptation_in_flight(&self, background: Option<BackgroundAmrKind>) -> (result: bool)
        ensures
            result == self.adapting(background),
    {
        self.adaptation_job.is_some() || self.adaptation_completed.is_some() || matches!(
            background,
            Some(BackgroundAmrKind::Adaptation)
        )
    }

    /// Whether an error estimate is running, here or on the worker.
    pub fn estimate_in_flight(&self, background: Option<BackgroundAmrKind>) -> (result: bool)
        ensures
            result == (self.indicator_job is Some || background == Some(
                BackgroundAmrKind::Indicator,
            )),
    {
        self.indicator_job.is_some() || matches!(background, Some(BackgroundAmrKind::Indicator))
    }

    /// Whether an adaptation is in flight that started from another mesh than
    /// the active one.
    pub open spec fn overtaken(self, frame: AmrFrame) -> bool {
        &&& self.adapting(frame.background)
        &&& self.adaptation_source matches Some(source) && match frame.active {
            Some(active) => active.mesh_revision != source,
            None => true,
        }
    }

    /// How a frame begins, and what it leaves.
    pub open spec fn opened(self, frame: AmrFrame) -> (AmrOpening, Self) {
        if !frame.enabled {
            (AmrOpening::CancelAll, self.idle())
        } else if self.overtaken(frame) {
            (
                AmrOpening::CancelAdaptation,
                Amr {
                    adaptation_job: None,
                    adaptation_completed: None,
                    adaptation_source: None,
                    pending_state: None,
                    status: AmrStatus::MeshReplaced,
                    ..self
                },
            )
        } else if frame.uploading || frame.preparing || frame.editing {
            (
                AmrOpening::Wait,
                Amr {
                    status: if self.adapting(frame.background) {
                        AmrStatus::AdaptingMesh
                    } else {
                        AmrStatus::GeometryHasPriority
                    },
                    ..self
                },
            )
        } else {
            (AmrOpening::Proceed, self)
        }
    }

    /// Begins a frame. An adaptation spans many frames while the mesh may be
    /// replaced underneath it; its result means something only against the mesh
    /// it started from, so it is dropped here instead of failing at the handoff.
    pub fn open_frame(&mut self, frame: AmrFrame) -> (result: AmrOpening)
        ensures
            (result, *final(self)) == old(self).opened(frame),
    {
        if !frame.enabled {
            self.indicator_job = None;
            self.indicator_completed = None;
            self.indicator_source = None;
            self.adaptation_job = None;
            self.adaptation_completed = None;
            self.adaptation_source = None;
            self.pending_state = None;
            self.indicator_result = None;
            self.coarsen_streak = 0;
            self.status = AmrStatus::Off;
            return AmrOpening::CancelAll;
        }
        let in_flight: bool = self.adaptation_in_flight(frame.background);
        let replaced: bool = match self.adaptation_source {
            Some(source) => match frame.active {
                Some(active) => active.mesh_revision != source,
                None => true,
            },
            None => false,
        };
        if in_flight && replaced {
            self.adaptation_job = None;
            self.adaptation_completed = None;
            self.adaptation_source = None;
            self.pending_state = None;
            self.status = AmrStatus::MeshReplaced;
            return AmrOpening::CancelAdaptation;
        }
        if frame.uploading || frame.preparing || frame.editing {
            self.status = if in_flight {
                AmrStatus::AdaptingMesh
            } else {
                AmrStatus::GeometryHasPriority
            };
            return AmrOpening::Wait;
        }
        AmrOpening::Proceed
    }

    /// Takes a slice of a local adaptation: the name of its phase, and its
    /// result where it finished. Whether the pass goes on.
    pub fn adaptation_advanced(
        &mut self,
        phase: String,
        finished: Option<Result<AdaptationResult, String>>,
    ) -> (result: bool)
        ensures
            result == (finished is Some),
            *final(self) == match finished {
                Some(outcome) => Amr {
                    adaptation_completed: Some(outcome),
                    adaptation_job: None,
                    status: AmrStatus::Phase(phase),
                    ..*old(self)
                },
                None => Amr { status: AmrStatus::Phase(phase), ..*old(self) },
            },
    {
        self.status = AmrStatus::Phase(phase);
        match finished {
            Some(outcome) => {
                self.adaptation_completed = Some(outcome);
                self.adaptation_job = None;
                true
            },
            None => false,
        }
    }

    /// What becomes of a finished adaptation.
    pub open spec fn settled(self, active: Option<ActiveMesh>) -> (AdaptationStep, Self) {
        let taken = Amr { adaptation_completed: None, adaptation_source: None, ..self };
        match self.adaptation_completed {
            None => (AdaptationStep::Proceed, self),
            Some(Err(error)) => (
                AdaptationStep::Stop,
                Amr { status: AmrStatus::AdaptationFailed, error: Some(error), ..taken },
            ),
            Some(Ok(done)) => if done.report.topology_changes == 0 {
                (
                    AdaptationStep::Stop,
                    Amr {
                        adaptation_state: match active {
                            Some(active) => Some(
                                MeshAdaptationState {
                                    mesh_revision: active.mesh_revision,
                                    ..done.state
                                },
                            ),
                            None => self.adaptation_state,
                        },
                        report: Some(done.report),
                        pending_state: None,
                        coarsen_streak: 0,
                        status: AmrStatus::MeshUnchanged,
                        error: None,
                        ..taken
                    },
                )
            } else {
                (
                    AdaptationStep::Request { mesh: done.mesh },
                    Amr {
                        pending_state: Some(done.state),
                        report: Some(done.report),
                        ..taken
                    },
                )
            },
        }
    }

    /// Settles a finished adaptation. One that could apply no change makes no
    /// new mesh and asks for no handoff; its generation still advances, so that
    /// a cooldown can expire on an otherwise unchanged mesh.
    pub fn settle_adaptation(&mut self, active: Option<ActiveMesh>) -> (result: AdaptationStep)
        ensures
            (result, *final(self)) == old(self).settled(active),
    {
        match self.adaptation_completed.take() {
            None => AdaptationStep::Proceed,
            Some(outcome) => {
                self.adaptation_source = None;
                match outcome {
                    Err(error) => {
                        self.status = AmrStatus::AdaptationFailed;
                        self.error = Some(error);
                        AdaptationStep::Stop
                    },
                    Ok(done) => {
                        if done.report.topology_changes == 0 {
                            if let Some(active) = active {
                                self.adaptation_state = Some(
                                    MeshAdaptationState {
                                        history: done.state.history,
                                        mesh_revision: active.mesh_revision,
                                    },
                                );
                            }
                            self.report = Some(done.report);
                            self.pending_state = None;
                            self.coarsen_streak = 0;
                            self.status = AmrStatus::MeshUnchanged;
                            self.error = None;
                            return AdaptationStep::Stop;
                        }
                        self.pending_state = Some(done.state);
                        self.report = Some(done.report);
                        AdaptationStep::Request { mesh: done.mesh }
                    },
                }
            },
        }
    }

    /// Takes the answer to the request for the handoff.
    pub fn handoff_answered(&mut self, answer: Result<(), String>)
        ensures
            *final(self) == match answer {
                Ok(_) => Amr {
                    status: AmrStatus::PreparingHandoff,
                    error: None,
                    ..*old(self)
                },
                Err(error) => Amr {
                    pending_state: None,
                    status: AmrStatus::AdaptationDiscarded,
                    error: Some(error),
                    ..*old(self)
                },
            },
    {
        match answer {
            Ok(_) => {
                self.status = AmrStatus::PreparingHandoff;
                self.error = None;
            },
            Err(error) => {
                self.pending_state = None;
                self.status = AmrStatus::AdaptationDiscarded;
                self.error = Some(error);
            },
        }
    }

    /// Shows what the background worker is doing, if it runs a job of a kind.
    /// Whether it does.
    pub fn watch_background(
        &mut self,
        kind: BackgroundAmrKind,
        background: Option<BackgroundAmrKind>,
        phase: Option<String>,
    ) -> (result: bool)
        ensures
            result == (background == Some(kind)),
            *final(self) == if background == Some(kind) {
                Amr {
                    status: match (phase, kind) {
                        (Some(text), _) => AmrStatus::Phase(text),
                        (None, BackgroundAmrKind::Adaptation) => AmrStatus::BackgroundAdaptation,
                        (None, BackgroundAmrKind::Indicator) => AmrStatus::BackgroundEstimate,
                    },
                    ..*old(self)
                }
            } else {
                *old(self)
            },
    {
        match background {
            Some(running) => {
                if running != kind {
                    return false;
                }
            },
            None => {
                return false;
            },
        }
        self.status = match phase {
            Some(text) => AmrStatus::Phase(text),
            None => match kind {
                BackgroundAmrKind::Adaptation => AmrStatus::BackgroundAdaptation,
                BackgroundAmrKind::Indicator => AmrStatus::BackgroundEstimate,
            },
        };
        true
    }

    /// Takes a slice of a local estimate. Whether the pass goes on.
    pub fn indicator_advanced(
        &mut self,
        phase: String,
        finished: Option<Result<IndicatorResult, String>>,
    ) -> (result: bool)
        ensures
            result == (finished is Some),
            *final(self) == match finished {
                Some(outcome) => Amr {
                    indicator_completed: Some(outcome),
                    indicator_job: None,
                    status: AmrStatus::Phase(phase),
                    ..*old(self)
                },
                None => Amr { status: AmrStatus::Phase(phase), ..*old(self) },
            },
    {
        self.status = AmrStatus::Phase(phase);
        match finished {
            Some(outcome) => {
                self.indicator_completed = Some(outcome);
                self.indicator_job = None;
                true
            },
            None => false,
        }
    }

    /// The peak of the energies that estimates have reported.
    pub open spec fn peak_after(self, report: SolutionIndicatorReport) -> Scalar {
        if report.total_energy.finite() && Scalar::zero_num().lt_num(report.total_energy) {
            self.energy_peak.larger_num(report.total_energy)
        } else {
            self.energy_peak
        }
    }

    pub open spec fn streak_after(self, decision: AmrDecision) -> u32 {
        if decision is Coarsen {
            if self.coarsen_streak < u32::MAX {
                (self.coarsen_streak + 1) as u32
            } else {
                u32::MAX
            }
        } else {
            0
        }
    }

    /// What becomes of a finished estimate.
    pub open spec fn judged(
        self,
        active: Option<ActiveMesh>,
        generation: u64,
        target_accuracy: Scalar,
        coarsen_below: Scalar,
    ) -> (EstimateStep, Self) {
        let taken = Amr { indicator_completed: None, indicator_source: None, ..self };
        match self.indicator_completed {
            None => (EstimateStep::Proceed, self),
            Some(outcome) => match (self.indicator_source, active) {
                (None, _) => (
                    EstimateStep::Stop,
                    Amr { status: AmrStatus::StaleEstimate, ..taken },
                ),
                (Some(_), None) => (EstimateStep::Stop, taken),
                (Some(source), Some(active)) => if !source.current(active.token, generation) {
                    (EstimateStep::Stop, Amr { status: AmrStatus::StaleEstimate, ..taken })
                } else {
                    let analyzed = Amr {
                        last_analyzed_step: Some(source.accepted_step),
                        ..taken
                    };
                    match outcome {
                        Err(error) => (
                            EstimateStep::Stop,
                            Amr {
                                status: AmrStatus::EstimateFailed,
                                error: Some(error),
                                ..analyzed
                            },
                        ),
                        Ok(estimate) => analyzed.acted_on(
                            estimate,
                            active.mesh_revision,
                            target_accuracy,
                            coarsen_below,
                        ),
                    }
                },
            },
        }
    }

    /// What an estimate that is current leads to.
    pub open spec fn acted_on(
        self,
        estimate: IndicatorResult,
        mesh_revision: u64,
        target_accuracy: Scalar,
        coarsen_below: Scalar,
    ) -> (EstimateStep, Self) {
        let decision = direction(estimate.report, target_accuracy, coarsen_below);
        let streak = self.streak_after(decision);
        let noted = Amr {
            energy_peak: self.peak_after(estimate.report),
            coarsen_streak: streak,
            indicator_result: Some(estimate),
            ..self
        };
        if decision is Hold {
            (
                EstimateStep::Stop,
                Amr { status: AmrStatus::MeshMatchesSolution, error: None, ..noted },
            )
        } else if decision is Coarsen && streak < 2 {
            (EstimateStep::Stop, Amr { status: AmrStatus::ConfirmingCoarsening, ..noted })
        } else {
            match self.adaptation_state {
                Some(state) if state.mesh_revision == mesh_revision => (
                    EstimateStep::Adapt { plan: plan_for(decision, state, estimate.field) },
                    Amr {
                        adaptation_source: Some(mesh_revision),
                        status: AmrStatus::AdaptingMesh,
                        ..noted
                    },
                ),
                _ => (
                    EstimateStep::Initialize,
                    Amr { status: AmrStatus::InitializingAdaptation, ..noted },
                ),
            }
        }
    }

    /// Judges a finished estimate. It counts only for the topology and the
    /// generation that it was taken from; a coarsening has to be asked for twice
    /// in a row, and an adaptation continues only a history of the active mesh.
    pub fn judge_estimate(
        &mut self,
        active: Option<ActiveMesh>,
        generation: u64,
        target_accuracy: Scalar,
        coarsen_below: Scalar,
    ) -> (result: EstimateStep)
        ensures
            (result, *final(self)) == old(self).judged(
                active,
                generation,
                target_accuracy,
                coarsen_below,
            ),
    {
        let outcome: Result<IndicatorResult, String> = match self.indicator_completed.take() {
            None => {
                return EstimateStep::Proceed;
            },
            Some(outcome) => outcome,
        };
        let source: AmrIndicatorSource = match self.indicator_source.take() {
            None => {
                self.status = AmrStatus::StaleEstimate;
                return EstimateStep::Stop;
            },
            Some(source) => source,
        };
        let active: ActiveMesh = match active {
            None => {
                return EstimateStep::Stop;
            },
            Some(active) => active,
        };
        if !source.is_current(active.token, generation) {
            self.status = AmrStatus::StaleEstimate;
            return EstimateStep::Stop;
        }
        self.last_analyzed_step = Some(source.accepted_step);
        match outcome {
            Err(error) => {
                self.status = AmrStatus::EstimateFailed;
                self.error = Some(error);
                EstimateStep::Stop
            },
            Ok(estimate) => self.act_on(
                estimate,
                active.mesh_revision,
                target_accuracy,
                coarsen_below,
            ),
        }
    }

    fn act_on(
        &mut self,
        estimate: IndicatorResult,
        mesh_revision: u64,
        target_accuracy: Scalar,
        coarsen_below: Scalar,
    ) -> (result: EstimateStep)
        ensures
            (result, *final(self)) == old(self).acted_on(
                estimate,
                mesh_revision,
                target_accuracy,
                coarsen_below,
            ),
    {
        let energy: Scalar = estimate.report.total_energy;
        if energy.is_finite() && Scalar::zero().less(energy) {
            self.energy_peak = self.energy_peak.larger(energy);
        }
        let decision: AmrDecision = adaptation_decision(
            estimate.report,
            target_accuracy,
            coarsen_below,
        );
        self.coarsen_streak = match decision {
            AmrDecision::Coarsen => if self.coarsen_streak < u32::MAX {
                self.coarsen_streak + 1
            } else {
                u32::MAX
            },
            _ => 0,
        };
        self.indicator_result = Some(estimate);
        if decision == AmrDecision::Hold {
            self.status = AmrStatus::MeshMatchesSolution;
            self.error = None;
            return EstimateStep::Stop;
        }
        if decision == AmrDecision::Coarsen && self.coarsen_streak < 2 {
            self.status = AmrStatus::ConfirmingCoarsening;
            return EstimateStep::Stop;
        }
        if let Some(state) = self.adaptation_state {
            if state.mesh_revision == mesh_revision {
                self.adaptation_source = Some(mesh_revision);
                self.status = AmrStatus::AdaptingMesh;
                return EstimateStep::Adapt {
                    plan: adaptation_plan(decision, state, estimate.field),
                };
            }
        }
        self.status = AmrStatus::InitializingAdaptation;
        EstimateStep::Initialize
    }

    /// Starts the history of the adaptation from the active mesh.
    pub fn initialize(&mut self, state: MeshAdaptationState)
        ensures
            *final(self) == (Amr { adaptation_state: Some(state), ..*old(self) }),
    {
        self.adaptation_state = Some(state);
    }

    /// Keeps an adaptation that no background worker took.
    pub fn start_adaptation_job(&mut self, job: Artifact, taken: bool)
        ensures
            *final(self) == if taken {
                *old(self)
            } else {
                Amr { adaptation_job: Some(job), ..*old(self) }
            },
    {
        if !taken {
            self.adaptation_job = Some(job);
        }
    }

    /// What a frame without a job does.
    pub open spec fn ready_for(
        self,
        active: Option<ActiveMesh>,
        readback: Readback,
    ) -> (ReadinessStep, Self) {
        match active {
            None => (
                ReadinessStep::Stop,
                Amr { status: AmrStatus::WaitingForSolution, ..self },
            ),
            Some(active) => match readback.obstacle(self.last_analyzed_step) {
                Some(status) => (ReadinessStep::Stop, Amr { status, ..self }),
                None => (
                    ReadinessStep::Estimate {
                        source: AmrIndicatorSource {
                            topology: active.token,
                            gpu_generation: readback.generation,
                            accepted_step: readback.completed_steps,
                        },
                    },
                    self,
                ),
            },
        }
    }

    /// Whether a new estimate can start, and for what.
    pub fn check_readiness(&mut self, active: Option<ActiveMesh>, readback: Readback) -> (result:
        ReadinessStep)
        requires
            readback.filter_cadence > 0,
        ensures
            (result, *final(self)) == old(self).ready_for(active, readback),
    {
        let active: ActiveMesh = match active {
            None => {
                self.status = AmrStatus::WaitingForSolution;
                return ReadinessStep::Stop;
            },
            Some(active) => active,
        };
        match readback.refuses(self.last_analyzed_step) {
            Some(status) => {
                self.status = status;
                ReadinessStep::Stop
            },
            None => ReadinessStep::Estimate {
                source: AmrIndicatorSource {
                    topology: active.token,
                    gpu_generation: readback.generation,
                    accepted_step: readback.completed_steps,
                },
            },
        }
    }

    /// Takes what came of preparing an estimate. Whether its start is to be
    /// timed.
    pub fn estimate_prepared(
        &mut self,
        source: AmrIndicatorSource,
        preparation: EstimatePreparation,
    ) -> (result: bool)
        ensures
            result == (preparation is Started),
            *final(self) == match preparation {
                EstimatePreparation::Failed(error) => Amr {
                    status: AmrStatus::CanonicalEstimateFailed,
                    error: Some(error),
                    ..*old(self)
                },
                EstimatePreparation::Unaligned => Amr {
                    status: AmrStatus::WaitingForReadback,
                    ..*old(self)
                },
                EstimatePreparation::Started { local_job } => Amr {
                    indicator_source: Some(source),
                    indicator_job: if local_job is Some {
                        local_job
                    } else {
                        old(self).indicator_job
                    },
                    status: AmrStatus::PreparingEstimate,
                    ..*old(self)
                },
            },
    {
        match preparation {
            EstimatePreparation::Failed(error) => {
                self.status = AmrStatus::CanonicalEstimateFailed;
                self.error = Some(error);
                false
            },
            EstimatePreparation::Unaligned => {
                self.status = AmrStatus::WaitingForReadback;
                false
            },
            EstimatePreparation::Started { local_job } => {
                self.indicator_source = Some(source);
                if local_job.is_some() {
                    self.indicator_job = local_job;
                }
                self.status = AmrStatus::PreparingEstimate;
                true
            },
        }
    }
}

/// An adaptation of a mesh that has been replaced is dropped without an error.
pub proof fn an_adaptation_of_a_replaced_mesh_is_dropped(amr: Amr, frame: AmrFrame)
    requires
        frame.enabled,
        amr.overtaken(frame),
    ensures
        ({
            let (opening, after) = amr.opened(frame);
            &&& opening is CancelAdaptation
            &&& after.adaptation_job is None
            &&& after.adaptation_completed is None
            &&& after.adaptation_source is None
            &&& after.pending_state is None
            &&& after.error == amr.error
        }),
{
}

/// An adaptation that changed nothing asks for no handoff, and its history stays
/// with the active mesh.
pub proof fn an_unchanged_adaptation_requests_no_handoff(
    amr: Amr,
    done: AdaptationResult,
    active: ActiveMesh,
)
    requires
        amr.adaptation_completed == Some(Ok::<AdaptationResult, String>(done)),
        done.report.topology_changes == 0,
    ensures
        ({
            let (step, after) = amr.settled(Some(active));
            &&& step is Stop
            &&& after.pending_state is None
            &&& after.error is None
            &&& after.adaptation_state matches Some(state) && state.mesh_revision
                == active.mesh_revision
            &&& after.report == Some(done.report)
        }),
{
}

/// Only an estimate of the active topology and generation starts an adaptation,
/// and one that coarsens was asked for twice in a row.
pub proof fn only_a_current_estimate_adapts(
    amr: Amr,
    active: Option<ActiveMesh>,
    generation: u64,
    target_accuracy: Scalar,
    coarsen_below: Scalar,
)
    ensures
        ({
            let (step, after) = amr.judged(active, generation, target_accuracy, coarsen_below);
            step matches EstimateStep::Adapt { plan } ==> {
                &&& amr.indicator_source matches Some(source) && active matches Some(active)
                    && source.current(active.token, generation) && plan.state.mesh_revision
                    == active.mesh_revision && after.adaptation_source == Some(
                    active.mesh_revision,
                )
                &&& plan.max_refinement_changes == 0 || plan.max_coarsening_changes == 0
                &&& plan.max_coarsening_changes > 0 ==> amr.coarsen_streak >= 1
            }
        }),
{
}

/// A stage that stops leaves what finished behind: no result is judged twice.
pub proof fn a_finished_job_is_judged_once(
    amr: Amr,
    active: Option<ActiveMesh>,
    generation: u64,
    target_accuracy: Scalar,
    coarsen_below: Scalar,
)
    ensures
        amr.settled(active).1.adaptation_completed is None,
        amr.judged(active, generation, target_accuracy, coarsen_below).1.indicator_completed
            is None,
{
}

/// Switched off, the adaptation holds nothing that could later change the mesh.
pub proof fn switched_off_nothing_is_in_flight(amr: Amr, frame: AmrFrame)
    requires
        !frame.enabled,
    ensures
        ({
            let (opening, after) = amr.opened(frame);
            &&& opening is CancelAll
            &&& !after.adapting(None)
            &&& after.indicator_job is None
            &&& after.indicator_completed is None
            &&& after.pending_state is None
        }),
{
}

} // verus!
