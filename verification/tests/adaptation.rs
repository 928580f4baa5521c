use funfern::adaptation::{
    adaptation_decision, resident_filter_boundary, ActiveMesh, AdaptationResult, AdaptationStep,
    Amr, AmrFrame, AmrIndicatorSource, AmrOpening, AmrStatus, BackgroundAmrKind,
    BackgroundAmrResult, EstimatePreparation, EstimateStep, IndicatorResult, MeshAdaptationReport,
    MeshAdaptationState, Readback, ReadinessStep, SolutionIndicatorReport,
};
use funfern::adaptation_pass::{AmrAction, AmrEvent, AmrFacts};
use funfern::labels::{amr_accuracy_preset_name, AmrDecision};
use funfern::preparation::{Artifact, TopologyToken};
use funfern::scalar::Scalar;

fn n(value: f64) -> Scalar {
    Scalar { bits: value.to_bits() }
}

fn artifact(id: u64) -> Artifact {
    Artifact { id }
}

fn token() -> TopologyToken {
    TopologyToken { document_revision: 4, topology_revision: 3, mesh_generation: 2 }
}

fn active(mesh_revision: u64) -> Option<ActiveMesh> {
    Some(ActiveMesh { token: token(), mesh_revision })
}

fn amr() -> Amr {
    Amr {
        indicator_job: None,
        indicator_completed: None,
        indicator_source: None,
        indicator_result: None,
        adaptation_job: None,
        adaptation_completed: None,
        adaptation_source: None,
        adaptation_state: None,
        pending_state: None,
        report: None,
        coarsen_streak: 0,
        energy_peak: n(0.0),
        last_analyzed_step: None,
        status: AmrStatus::Off,
        error: None,
    }
}

fn frame(mesh_revision: u64) -> AmrFrame {
    AmrFrame {
        enabled: true,
        uploading: false,
        preparing: false,
        editing: false,
        active: active(mesh_revision),
        background: None,
    }
}

fn adapted(topology_changes: usize) -> AdaptationResult {
    AdaptationResult {
        mesh: artifact(50),
        state: MeshAdaptationState { history: artifact(51), mesh_revision: 9 },
        report: MeshAdaptationReport {
            topology_changes,
            coarsening_changes: 0,
            skipped_collapses: 0,
            refine_passes: 1,
            collapse_passes: 0,
            work_units: 10,
            original_triangles: 100,
            preserved_triangles: 100,
            remaining_oversized_triangles: 0,
        },
    }
}

fn report(error: usize, limit: usize, coarsen: usize, global: f64) -> SolutionIndicatorReport {
    SolutionIndicatorReport {
        refine_candidates: error + limit,
        error_refine_candidates: error,
        limit_refine_candidates: limit,
        coarsen_candidates: coarsen,
        work_units: 0,
        global_indicator: n(global),
        total_energy: n(2.0),
        dormant: false,
    }
}

fn decide(report: SolutionIndicatorReport, target: f64) -> AmrDecision {
    adaptation_decision(report, n(target), n(target * 0.5))
}

#[test]
fn an_adaptation_of_a_replaced_mesh_is_discarded_without_an_error() {
    let mut state =
        Amr { adaptation_job: Some(artifact(7)), adaptation_source: Some(1), ..amr() };
    assert_eq!(state.open_frame(frame(1)), AmrOpening::Proceed);
    assert_eq!(state.open_frame(frame(2)), AmrOpening::CancelAdaptation);
    assert!(state.adaptation_job.is_none());
    assert!(state.adaptation_source.is_none());
    assert_eq!(state.error, None);
    assert!(state.status.text().contains("discarded"), "status was {:?}", state.status.text());
}

#[test]
fn an_unchanged_adaptation_does_not_request_a_handoff() {
    let mut state =
        Amr { adaptation_job: Some(artifact(7)), adaptation_source: Some(1), ..amr() };
    assert_eq!(state.open_frame(frame(1)), AmrOpening::Proceed);
    assert!(state.adaptation_advanced("Collapsing".to_string(), Some(Ok(adapted(0)))));
    assert!(matches!(state.settle_adaptation(active(1)), AdaptationStep::Stop));
    assert!(state.adaptation_job.is_none());
    assert_eq!(state.report.as_ref().unwrap().topology_changes, 0);
    assert_eq!(state.adaptation_state.as_ref().unwrap().mesh_revision, 1);
    assert_eq!(state.adaptation_state.as_ref().unwrap().history, artifact(51));
    assert_eq!(state.error, None);
}

#[test]
fn a_changed_mesh_asks_for_a_handoff() {
    let mut state = Amr { adaptation_completed: Some(Ok(adapted(3))), ..amr() };
    match state.settle_adaptation(active(1)) {
        AdaptationStep::Request { mesh } => assert_eq!(mesh, artifact(50)),
        other => panic!("{other:?}"),
    }
    assert_eq!(state.pending_state.unwrap().mesh_revision, 9);
    state.handoff_answered(Ok(()));
    assert_eq!(state.status.text(), AmrStatus::PreparingHandoff.text());
    state.handoff_answered(Err("busy".to_string()));
    assert!(state.pending_state.is_none());
    assert_eq!(state.error, Some("busy".to_string()));
}

#[test]
fn a_failed_adaptation_says_why() {
    let mut state = amr();
    state.drain_background_amr(BackgroundAmrResult::Adaptation(Err("torn mesh".to_string())));
    assert!(state.adaptation_in_flight(None));
    assert!(matches!(state.settle_adaptation(active(1)), AdaptationStep::Stop));
    assert_eq!(state.error, Some("torn mesh".to_string()));
    assert!(matches!(state.settle_adaptation(active(1)), AdaptationStep::Proceed));
}

#[test]
fn the_accuracy_target_and_deadband_choose_one_adaptation_direction() {
    assert_eq!(decide(report(2000, 0, 0, 0.2), 0.12), AmrDecision::Refine);
    assert_eq!(decide(report(2000, 0, 0, 0.05), 0.12), AmrDecision::Hold);
    assert_eq!(decide(report(2000, 0, 0, 0.05), 0.04), AmrDecision::Refine);
    assert_eq!(decide(report(0, 2000, 2000, 0.0), 0.12), AmrDecision::Refine);
    assert_eq!(decide(report(3, 0, 0, 0.9), 0.12), AmrDecision::Hold);
    assert_eq!(decide(report(0, 0, 2000, 0.10), 0.12), AmrDecision::Hold);
    assert_eq!(decide(report(0, 0, 2000, 0.05), 0.12), AmrDecision::Coarsen);
    assert_eq!(decide(report(2000, 0, 2000, 0.2), 0.12), AmrDecision::Refine);
}

#[test]
fn a_live_gpu_event_does_not_disown_an_amr_snapshot() {
    let source =
        AmrIndicatorSource { topology: token(), gpu_generation: 7, accepted_step: 120 };
    assert!(source.is_current(token(), 7));
    assert!(!source.is_current(token(), 8));
    assert!(!source.is_current(TopologyToken { mesh_generation: 3, ..token() }, 7));
}

#[test]
fn the_accuracy_control_starts_on_the_medium_preset() {
    let name = |percent: f64| {
        let gap = |preset: f64| n((percent - preset).abs());
        amr_accuracy_preset_name(gap(24.0), gap(12.0), gap(6.0))
    };
    assert_eq!(name(12.0), "Medium");
    assert_eq!(name(24.0), "Coarse");
    assert_eq!(name(6.0), "Fine");
    assert_eq!(name(9.0), "Custom");
}

fn estimated(report: SolutionIndicatorReport, state: Option<MeshAdaptationState>) -> Amr {
    Amr {
        indicator_completed: Some(Ok(IndicatorResult { report, field: artifact(60) })),
        indicator_source: Some(AmrIndicatorSource {
            topology: token(),
            gpu_generation: 7,
            accepted_step: 120,
        }),
        adaptation_state: state,
        ..amr()
    }
}

#[test]
fn only_a_current_estimate_moves_the_mesh() {
    let history = MeshAdaptationState { history: artifact(51), mesh_revision: 1 };
    let mut current = estimated(report(2000, 0, 0, 0.2), Some(history));
    match current.judge_estimate(active(1), 7, n(0.12), n(0.06)) {
        EstimateStep::Adapt { plan } => {
            assert_eq!(plan.state, history);
            assert_eq!(plan.field, artifact(60));
            assert_eq!(plan.max_refinement_changes, usize::MAX);
            assert_eq!(plan.max_coarsening_changes, 0);
        }
        other => panic!("{other:?}"),
    }
    assert_eq!(current.last_analyzed_step, Some(120));
    assert_eq!(current.energy_peak, n(2.0));
    assert_eq!(current.adaptation_source, Some(1));

    let mut stale = estimated(report(2000, 0, 0, 0.2), Some(history));
    assert!(matches!(
        stale.judge_estimate(active(1), 8, n(0.12), n(0.06)),
        EstimateStep::Stop
    ));
    assert_eq!(stale.last_analyzed_step, None);

    let mut foreign = estimated(report(2000, 0, 0, 0.2), Some(history));
    assert!(matches!(
        foreign.judge_estimate(active(2), 7, n(0.12), n(0.06)),
        EstimateStep::Initialize
    ));
}

#[test]
fn a_coarsening_is_asked_for_twice() {
    let history = MeshAdaptationState { history: artifact(51), mesh_revision: 1 };
    let mut state = estimated(report(0, 0, 2000, 0.01), Some(history));
    assert!(matches!(
        state.judge_estimate(active(1), 7, n(0.12), n(0.06)),
        EstimateStep::Stop
    ));
    assert_eq!(state.coarsen_streak, 1);
    let mut again =
        Amr { coarsen_streak: 1, ..estimated(report(0, 0, 2000, 0.01), Some(history)) };
    match again.judge_estimate(active(1), 7, n(0.12), n(0.06)) {
        EstimateStep::Adapt { plan } => {
            assert_eq!(plan.max_refinement_changes, 0);
            assert_eq!(plan.max_coarsening_changes, 256);
        }
        other => panic!("{other:?}"),
    }
}

#[test]
fn switching_off_drops_everything_in_flight() {
    let mut state = Amr {
        indicator_job: Some(artifact(1)),
        adaptation_job: Some(artifact(2)),
        coarsen_streak: 1,
        ..amr()
    };
    assert_eq!(state.open_frame(AmrFrame { enabled: false, ..frame(1) }), AmrOpening::CancelAll);
    assert!(!state.adaptation_in_flight(None));
    assert!(!state.estimate_in_flight(None));
    assert_eq!(state.coarsen_streak, 0);
}

#[test]
fn an_edit_goes_first() {
    let mut state = amr();
    assert_eq!(state.open_frame(AmrFrame { editing: true, ..frame(1) }), AmrOpening::Wait);
    assert_eq!(state.status.text(), AmrStatus::GeometryHasPriority.text());
    let busy = AmrFrame {
        preparing: true,
        background: Some(BackgroundAmrKind::Adaptation),
        ..frame(1)
    };
    assert_eq!(state.open_frame(busy), AmrOpening::Wait);
    assert_eq!(state.status.text(), AmrStatus::AdaptingMesh.text());
}

fn readback() -> Readback {
    Readback {
        solver_ready: true,
        generation: 7,
        display_generation: 7,
        degrees_of_freedom: 40,
        complementary_degrees_of_freedom: 80,
        snapshot_current: 40,
        snapshot_auxiliary: 40,
        previous_primary: 40,
        previous_complementary: 80,
        auxiliary: 5,
        previous_auxiliary: 5,
        full_readback_at: 11,
        readbacks: 11,
        completed_steps: 130,
        filter_running: true,
        filter_cadence: 64,
        since_last_start: Some(n(1.0)),
        material_runtime: None,
    }
}

#[test]
fn an_estimate_waits_for_an_aligned_endpoint_and_its_turn() {
    let mut state = Amr { last_analyzed_step: Some(120), ..amr() };
    match state.check_readiness(active(1), readback()) {
        ReadinessStep::Estimate { source } => {
            assert_eq!(source.accepted_step, 130);
            assert_eq!(source.gpu_generation, 7);
        }
        other => panic!("{other:?}"),
    }
    let mut refused = |readback: Readback| {
        assert!(matches!(
            state.check_readiness(active(1), readback),
            ReadinessStep::Stop
        ));
        state.status.text().to_string()
    };
    let waiting = AmrStatus::WaitingForReadback.text().to_string();
    assert_eq!(refused(Readback { snapshot_current: 39, ..readback() }), waiting);
    assert_eq!(refused(Readback { readbacks: 12, ..readback() }), waiting);
    assert_eq!(refused(Readback { material_runtime: Some(false), ..readback() }), waiting);
    assert_eq!(
        refused(Readback { completed_steps: 128, ..readback() }),
        AmrStatus::WaitingForEndpoint.text()
    );
    assert_eq!(
        refused(Readback { completed_steps: 127, ..readback() }),
        AmrStatus::Monitoring.text()
    );
    assert_eq!(
        refused(Readback { since_last_start: Some(n(0.7)), ..readback() }),
        AmrStatus::Monitoring.text()
    );
    assert!(matches!(state.check_readiness(None, readback()), ReadinessStep::Stop));
    assert_eq!(state.status.text(), AmrStatus::WaitingForSolution.text());
}

#[test]
fn a_prepared_estimate_is_timed_once_it_started() {
    let source = AmrIndicatorSource { topology: token(), gpu_generation: 7, accepted_step: 1 };
    let mut state = amr();
    assert!(!state.estimate_prepared(source, EstimatePreparation::Unaligned));
    assert!(!state.estimate_prepared(source, EstimatePreparation::Failed("no rate".to_string())));
    assert_eq!(state.error, Some("no rate".to_string()));
    assert!(state.estimate_prepared(
        source,
        EstimatePreparation::Started { local_job: Some(artifact(3)) }
    ));
    assert_eq!(state.indicator_source, Some(source));
    assert!(state.estimate_in_flight(None));
    assert!(!state.indicator_advanced("Sampling".to_string(), None));
    assert_eq!(state.status.text(), "Sampling");
    let failed: Result<IndicatorResult, String> = Err("no field".to_string());
    assert!(state.indicator_advanced("Sampling".to_string(), Some(failed)));
    assert!(matches!(
        state.judge_estimate(active(1), 7, n(0.12), n(0.06)),
        EstimateStep::Stop
    ));
    assert_eq!(state.error, Some("no field".to_string()));
}

#[test]
fn a_worker_is_watched_and_a_job_it_refuses_is_kept() {
    let mut state = amr();
    assert!(!state.watch_background(BackgroundAmrKind::Adaptation, None, None));
    assert!(state.watch_background(
        BackgroundAmrKind::Indicator,
        Some(BackgroundAmrKind::Indicator),
        Some("Recovering".to_string())
    ));
    assert_eq!(state.status.text(), "Recovering");
    state.start_adaptation_job(artifact(5), true);
    assert!(state.adaptation_job.is_none());
    state.start_adaptation_job(artifact(5), false);
    assert_eq!(state.adaptation_job, Some(artifact(5)));
    state.initialize(MeshAdaptationState { history: artifact(6), mesh_revision: 1 });
    assert_eq!(state.adaptation_state.unwrap().history, artifact(6));
}

#[test]
fn a_filtered_endpoint_is_not_a_solver_endpoint() {
    assert!(resident_filter_boundary(true, 128, 64));
    assert!(!resident_filter_boundary(true, 130, 64));
    assert!(!resident_filter_boundary(true, 0, 64));
    assert!(!resident_filter_boundary(false, 128, 64));
}

fn facts() -> AmrFacts {
    AmrFacts {
        frame: frame(1),
        worker_phase: None,
        generation: 7,
        target_accuracy: n(0.12),
        coarsen_below: n(0.06),
        readback: readback(),
    }
}

#[test]
fn a_pass_asks_for_one_thing_at_a_time() {
    let mut state = amr();
    let source = match state.begin_pass(&facts()) {
        AmrAction::PrepareEstimate { source } => source,
        other => panic!("{other:?}"),
    };
    let started = EstimatePreparation::Started { local_job: Some(artifact(3)) };
    assert_eq!(
        state.resume_pass(&facts(), AmrEvent::EstimatePrepared { source, preparation: started }),
        AmrAction::NoteStart
    );
    assert_eq!(
        state.begin_pass(&facts()),
        AmrAction::AdvanceEstimate { job: artifact(3) }
    );
    let slice = AmrEvent::EstimateSlice { phase: "Sampling".to_string(), finished: None };
    assert_eq!(state.resume_pass(&facts(), slice), AmrAction::Over);
    let estimate = IndicatorResult { report: report(2000, 0, 0, 0.2), field: artifact(60) };
    let finished = AmrEvent::EstimateSlice {
        phase: "Sampling".to_string(),
        finished: Some(Ok(estimate)),
    };
    assert_eq!(state.resume_pass(&facts(), finished), AmrAction::InitializeAdaptation);
    let history = MeshAdaptationState { history: artifact(51), mesh_revision: 1 };
    assert_eq!(
        state.resume_pass(&facts(), AmrEvent::Initialized { state: history }),
        AmrAction::Over
    );
    assert_eq!(state.adaptation_state, Some(history));
}

#[test]
fn a_pass_hands_an_adapted_mesh_over() {
    let history = MeshAdaptationState { history: artifact(51), mesh_revision: 1 };
    let mut state = estimated(report(2000, 0, 0, 0.2), Some(history));
    assert!(matches!(state.begin_pass(&facts()), AmrAction::StartAdaptation { .. }));
    let kept = AmrEvent::AdaptationStarted { job: artifact(8), taken: false };
    assert_eq!(state.resume_pass(&facts(), kept), AmrAction::Over);
    assert_eq!(
        state.begin_pass(&facts()),
        AmrAction::AdvanceAdaptation { job: artifact(8) }
    );
    let done = AmrEvent::AdaptationSlice {
        phase: "Refining".to_string(),
        finished: Some(Ok(adapted(5))),
    };
    assert_eq!(
        state.resume_pass(&facts(), done),
        AmrAction::RequestAdapted { mesh: artifact(50) }
    );
    let answer = AmrEvent::HandoffAnswered { answer: Ok(()) };
    assert_eq!(state.resume_pass(&facts(), answer), AmrAction::Over);
    assert_eq!(state.status.text(), AmrStatus::PreparingHandoff.text());
}

#[test]
fn a_pass_waits_for_the_worker() {
    let mut state = amr();
    let busy = AmrFacts {
        frame: AmrFrame { background: Some(BackgroundAmrKind::Indicator), ..frame(1) },
        worker_phase: Some("Recovering".to_string()),
        ..facts()
    };
    assert_eq!(state.begin_pass(&busy), AmrAction::Over);
    assert_eq!(state.status.text(), "Recovering");
    let off = AmrFacts { frame: AmrFrame { enabled: false, ..frame(1) }, ..facts() };
    assert_eq!(state.begin_pass(&off), AmrAction::CancelAll);
}
