use funfern::alike::Alike;
use funfern::model::{
    AuthoredFaceAssignment, CoefficientLaw, DomainRect, FaceAnchor, FarFieldSettings, FieldLaw,
    Material, MaterialFrame, MaterialFrameAttachment, OuterBoundaryCondition,
    OuterBoundaryConditions, OuterSide, PhysicsModel, PointSource, Region, RestoringLaw, Rgb,
    ScalarField, TimeDrive, TimeSignal, TopologyGeometry, TopologyScene, VolumeSource,
};
use funfern::overlay::{field_law_view, RecorderSource};
use funfern::preparation::{
    AcceptedTopology, Artifact, CompiledTopologyScene, MeshingOptions, PreparedSolverUpdate,
    PreparedTopology, StepOperator, TopologyFullRebuildReason, TopologyMeshUpdateAction,
    TopologyPreparationError, TopologyPreparationPhase, TopologyToken, WaveModel,
};
use funfern::preparation_job::{
    driven, validate_point_source, DocumentFacts, ForcingChange, PreviousComparison, Progress,
    SceneComparison, SourcePlacement, TimingBucket, TopologyPreparationJob, Work, WorkOutcome,
};
use funfern::preparation_start::{retraced, AdaptedMesh};
use funfern::preparation_task::{CanonicalEnd, Task, TransferEnd};
use funfern::runtime::TopologyRuntime;
use funfern::scalar::{Point2, Scalar};
use std::collections::BTreeMap;

const BACKGROUND_REGION: u64 = 1;
const AUTHORED: u64 = 2;
const PROBES: u64 = 3;
const PLAN: u64 = 4;

fn n(value: f64) -> Scalar {
    Scalar { bits: value.to_bits() }
}

fn value(number: Scalar) -> f64 {
    f64::from_bits(number.bits)
}

fn artifact(id: u64) -> Artifact {
    Artifact { id }
}

fn options() -> MeshingOptions {
    MeshingOptions {
        curve_tolerance: n(1.0e-3),
        target_edge_length: n(0.18),
        minimum_angle_degrees: n(10.0),
        max_vertices: 20_000,
        max_triangles: 40_000,
        max_refinement_steps: 20_000,
    }
}

fn linear() -> CoefficientLaw {
    CoefficientLaw {
        field: FieldLaw::Linear,
        drive: TimeDrive::Absent,
        alternate: None,
        inverted: false,
    }
}

fn scene() -> TopologyScene {
    TopologyScene {
        geometry: TopologyGeometry {
            domain: DomainRect { min_x: n(-1.0), max_x: n(1.0), min_y: n(-1.0), max_y: n(1.0) },
            curves: vec![],
            vertices: vec![],
        },
        physics: PhysicsModel::Mechanical,
        materials: vec![Material {
            id: 1,
            name: "Background".to_string(),
            mass_density: ScalarField::Constant(n(1.0)),
            stiffness: ScalarField::Constant(n(1.0)),
            damping: ScalarField::Constant(n(0.0)),
            axis_ratio: ScalarField::Constant(n(1.0)),
            parameters: vec![],
            color: Rgb { red: 40, green: 60, blue: 80 },
            mass_law: linear(),
            stiffness_law: linear(),
            electric_loss: None,
            magnetic_loss: None,
            restoring: RestoringLaw::Absent,
            switch_ramp: n(0.0),
        }],
        regions: vec![Region {
            id: BACKGROUND_REGION,
            material: 1,
            frame: MaterialFrame {
                origin: Point2 { x: n(0.0), y: n(0.0) },
                angle_radians: n(0.0),
                attachment: MaterialFrameAttachment::World,
            },
        }],
        face_assignments: vec![AuthoredFaceAssignment {
            anchor: FaceAnchor::Outer { side: OuterSide::Bottom, fraction: n(0.5) },
            region: Some(BACKGROUND_REGION),
        }],
        volume_sources: vec![],
        outer_boundaries: OuterBoundaryConditions {
            bottom: OuterBoundaryCondition::SecondOrderOutgoing,
            right: OuterBoundaryCondition::SecondOrderOutgoing,
            top: OuterBoundaryCondition::SecondOrderOutgoing,
            left: OuterBoundaryCondition::SecondOrderOutgoing,
        },
    }
}

fn harmonic(offset: f64, amplitude: f64, frequency: f64, phase: f64) -> TimeSignal {
    TimeSignal {
        offset: n(offset),
        amplitude: n(amplitude),
        frequency_hz: n(frequency),
        phase_radians: n(phase),
    }
}

/// A document with what the engine tells of it.
struct Document {
    scene: TopologyScene,
    facts: DocumentFacts,
}

fn document() -> Document {
    Document {
        scene: scene(),
        facts: DocumentFacts {
            authored: artifact(AUTHORED),
            probes: artifact(PROBES),
            source: PointSource {
                enabled: false,
                position: Point2 { x: n(0.0), y: n(0.0) },
                width: n(0.1),
                region: BACKGROUND_REGION,
                signal: harmonic(0.0, 1.0, 3.0, 0.0),
            },
            source_valid: true,
            far_field: FarFieldSettings { enabled: false, inset: n(0.2) },
            driven: false,
        },
    }
}

fn compiled(revision: u64) -> CompiledTopologyScene {
    CompiledTopologyScene {
        revision,
        snapshot: artifact(revision + 1000),
        plan_geometry_revision: revision,
        geometry_matches: true,
        assignments: Ok(true),
        expected_plan: Ok(true),
        domain_matches: true,
        model_valid: true,
        coarsened: Ok(artifact(PLAN)),
    }
}

fn same_place(left: PointSource, right: PointSource) -> bool {
    left.position.equals(right.position) && left.width.equals(right.width)
        && left.region == right.region
}

fn comparison(previous: &Document, next: &Document) -> PreviousComparison {
    PreviousComparison {
        scene: SceneComparison::of(&previous.scene, &next.scene),
        source: previous.facts.source.same(&next.facts.source),
        source_place: same_place(previous.facts.source, next.facts.source),
        plan_change: TopologyMeshUpdateAction::Reuse,
        retraced: None,
        resignalled: artifact(77),
    }
}

fn unchanged() -> PreviousComparison {
    comparison(&document(), &document())
}

/// An engine that numbers what it builds. Every cooperative job takes three
/// slices, and a point is in the background region exactly inside the domain.
struct Engine {
    next: u64,
    waiting: u32,
    carve_failure: Option<String>,
    far_field: Result<Artifact, String>,
}

fn engine() -> Engine {
    Engine { next: 100, waiting: 2, carve_failure: None, far_field: Ok(artifact(9)) }
}

impl Engine {
    fn build(&mut self) -> Artifact {
        self.next += 1;
        artifact(self.next)
    }

    fn forcing_change(job: &TopologyPreparationJob) -> ForcingChange {
        let request = &job.request;
        match &request.previous {
            None => ForcingChange::Layout,
            Some(previous) => {
                if !request.comparison.source_place
                    || previous.point_source.enabled != request.point_source.enabled
                {
                    ForcingChange::Weights
                } else if !request.comparison.source || !request.comparison.scene.volume_sources {
                    ForcingChange::Drives
                } else {
                    ForcingChange::Unchanged
                }
            }
        }
    }

    fn perform(&mut self, work: Work, job: &TopologyPreparationJob) -> WorkOutcome {
        let cooperative = matches!(
            work,
            Work::AdvanceCarve
                | Work::AdvanceMesh
                | Work::AdvanceAssembly
                | Work::AdvanceCanonicalAssembly
                | Work::AdvanceTransfer
                | Work::AdvanceSources
                | Work::AdvanceVectorTransfer
                | Work::AdvanceOutgoingTransfer
        );
        if cooperative && self.waiting > 0 {
            self.waiting -= 1;
            return WorkOutcome::Pending;
        }
        if cooperative {
            self.waiting = 2;
        }
        match work {
            Work::AdvanceCarve => match self.carve_failure.take() {
                Some(message) => WorkOutcome::Failed(message),
                None => WorkOutcome::Carved { mesh: self.build(), report: artifact(55) },
            },
            Work::AdvanceCanonicalAssembly => WorkOutcome::BuiltOperator(StepOperator {
                artifact: self.build(),
                recommended_time_step: n(0.5),
            }),
            Work::BuildTemporalOperator => WorkOutcome::BuiltOperator(StepOperator {
                artifact: self.build(),
                recommended_time_step: n(0.25),
            }),
            Work::StartAssembly
            | Work::StartCanonicalAssembly
            | Work::StartSources
            | Work::PrepareOutgoingTransfer
            | Work::StartTransfer
            | Work::JoinCanonicalTransfer => WorkOutcome::Started,
            Work::PlacePointSource => {
                let position = job.request.point_source.position;
                let inside = value(position.x).abs() <= 1.0 && value(position.y).abs() <= 1.0;
                WorkOutcome::Placed(SourcePlacement {
                    active_regions: vec![BACKGROUND_REGION],
                    placed: if inside {
                        Ok(BACKGROUND_REGION)
                    } else {
                        Err("outside the domain".to_string())
                    },
                })
            }
            Work::CompileForcing => WorkOutcome::Forced {
                forcing: self.build(),
                change: Self::forcing_change(job),
            },
            Work::CompileMeasurements => WorkOutcome::Measured {
                probes: self.build(),
                far_field: if job.far_field_wanted() {
                    Some(self.far_field.clone())
                } else {
                    None
                },
            },
            _ => WorkOutcome::Built(self.build()),
        }
    }
}

fn strip(authored: Artifact) -> Artifact {
    artifact(authored.id + 9000)
}

type Answer = Option<Result<TopologyToken, TopologyPreparationError>>;

/// Works for so many slices and counts them as one.
fn advance_for(runtime: &mut TopologyRuntime, engine: &mut Engine, slices: u32) -> Answer {
    let mut left = slices;
    let mut outcome = None;
    loop {
        let work = runtime.next_work()?;
        if work.reads_stripped_model() {
            runtime.ensure_stripped_model(strip);
        }
        let answer = engine.perform(work, runtime.preparing.as_ref().unwrap());
        assert!(answer.fits(work));
        match runtime.accept(answer) {
            Progress::Again => {}
            Progress::Pause => {
                left -= 1;
                if left == 0 {
                    break;
                }
            }
            Progress::Finished(result) => {
                outcome = Some(result);
                break;
            }
        }
    }
    let total = value(runtime.preparing_timing().unwrap().work_ms) + 2.0;
    runtime.finish_slice(n(2.0), n(total), outcome)
}

fn advance(runtime: &mut TopologyRuntime, engine: &mut Engine) -> Answer {
    advance_for(runtime, engine, 1)
}

fn prepare(
    runtime: &mut TopologyRuntime,
    engine: &mut Engine,
) -> Result<TopologyToken, TopologyPreparationError> {
    for _ in 0..1000 {
        if let Some(result) = advance(runtime, engine) {
            return result;
        }
    }
    panic!("topology runtime did not finish");
}

fn prepare_job(
    mut job: TopologyPreparationJob,
    engine: &mut Engine,
) -> Result<PreparedTopology, TopologyPreparationError> {
    for _ in 0..1000 {
        let work = job.next_work();
        if work.reads_stripped_model() {
            job.ensure_stripped_model(strip);
        }
        let answer = engine.perform(work, &job);
        if let Progress::Finished(result) = job.accept(answer) {
            return job.finish_slice(n(1.0), n(1.0), Some(result)).unwrap();
        }
    }
    panic!("detached topology job did not finish");
}

/// Prepares and publishes the first topology of a runtime.
fn publish(
    runtime: &mut TopologyRuntime,
    engine: &mut Engine,
    document: &Document,
) -> PreparedTopology {
    let token = runtime
        .request(1, &document.facts, &compiled(1), unchanged(), options(), true)
        .unwrap();
    assert_eq!(prepare(runtime, engine).unwrap(), token);
    runtime.commit_ready(token).unwrap()
}

#[test]
fn a_document_with_a_material_drive_prepares_and_carries_its_temporal_operator() {
    let inert = publish(&mut TopologyRuntime::default(), &mut engine(), &document());
    assert!(inert.canonical_temporal_operator.is_none());
    assert!(!inert.driven());
    assert_eq!(inert.recommended_time_step(), n(0.5));

    let mut pumped = document();
    pumped.facts.driven = true;
    let driven = publish(&mut TopologyRuntime::default(), &mut engine(), &pumped);
    assert!(driven.driven());
    let temporal = driven.canonical_temporal_operator.unwrap();
    assert_ne!(temporal.artifact, driven.canonical_operator.artifact);
    assert_eq!(driven.recommended_time_step(), n(0.25));
    assert_eq!(Some(driven.fixed_model()), driven.stripped_model);
    assert_eq!(driven.fixed_model(), strip(artifact(AUTHORED)));
}

#[test]
fn recorders_are_built_from_the_generation_that_the_plan_carries() {
    let inert = publish(&mut TopologyRuntime::default(), &mut engine(), &document());
    let mut pumped = document();
    pumped.facts.driven = true;
    let driven = publish(&mut TopologyRuntime::default(), &mut engine(), &pumped);
    let tables = artifact(31);
    assert_eq!(
        RecorderSource::of(&inert, None),
        Some(RecorderSource::Fixed(inert.canonical_operator))
    );
    assert_eq!(
        RecorderSource::of(&driven, Some(tables)),
        Some(RecorderSource::Temporal(driven.canonical_temporal_operator.unwrap(), tables))
    );
    assert_eq!(RecorderSource::of(&driven, None), None);
    assert_eq!(RecorderSource::of(&inert, Some(tables)), None);

    let (authored, accepted) = (artifact(32), artifact(33));
    assert_eq!(field_law_view(&inert, true, authored, Some(accepted), Some(n(2.0))), None);
    assert_eq!(field_law_view(&driven, false, authored, Some(accepted), Some(n(2.0))), None);
    let view = field_law_view(&driven, true, authored, Some(accepted), Some(n(2.0))).unwrap();
    assert_eq!((view.runtime, view.time), (accepted, n(2.0)));
    let early = field_law_view(&driven, true, authored, None, None).unwrap();
    assert_eq!((early.runtime, early.time), (authored, n(0.0)));
}

#[test]
fn one_material_with_a_law_drives_a_document() {
    assert!(!driven(&vec![]));
    assert!(!driven(&vec![true, true]));
    assert!(driven(&vec![true, false, true]));
}

/// The tasks of a job until it is over, with its candidate.
fn tasks_of(
    mut job: TopologyPreparationJob,
    engine: &mut Engine,
) -> (Vec<Task>, PreparedTopology) {
    let mut tasks: Vec<Task> = vec![];
    for _ in 0..1000 {
        let work = job.next_work();
        if work.reads_stripped_model() {
            job.ensure_stripped_model(strip);
        }
        let task = job.task();
        if task != Task::Continue && tasks.last() != Some(&task) {
            tasks.push(task);
        }
        let answer = engine.perform(work, &job);
        if let Progress::Finished(result) = job.accept(answer) {
            return (tasks, result.unwrap());
        }
    }
    panic!("the job did not finish");
}

#[test]
fn every_piece_of_work_is_done_on_what_it_needs() {
    let editor = document();
    let mut runtime = TopologyRuntime::default();
    let mut engine = engine();
    let active = publish(&mut runtime, &mut engine, &editor);

    let mut edited = document();
    edited.scene.materials[0].damping = ScalarField::Constant(n(0.02));
    edited.facts.authored = artifact(20);
    edited.facts.driven = true;
    edited.facts.source.enabled = true;
    edited.facts.far_field.enabled = true;
    let mut against = comparison(&editor, &edited);
    against.scene.geometry = false;
    against.plan_change = TopologyMeshUpdateAction::Repair(artifact(50));
    runtime
        .request(2, &edited.facts, &compiled(7), against, options(), false)
        .unwrap();
    let job = runtime.take_preparing_job().unwrap();
    let bundle = job.request.bundle;
    let (tasks, candidate) = tasks_of(job, &mut engine);

    let stripped = WaveModel::Stripped(strip(artifact(20)));
    let authored = WaveModel::Authored(artifact(20));
    let (mesh, operator) = (candidate.mesh, candidate.operator);
    let from = CanonicalEnd { mesh: active.mesh, operator: active.canonical_operator };
    let to = CanonicalEnd { mesh, operator: candidate.canonical_operator };
    let transfer = candidate.transfer.unwrap();
    assert_eq!(
        tasks[0],
        Task::Carve {
            mesh: active.mesh,
            active_plan: active.bundle.plan,
            plan: bundle.plan,
            snapshot: artifact(1007),
            mesh_revision: bundle.token.mesh_generation,
            options: options(),
            preserve_adaptation: true,
        }
    );
    assert_eq!(tasks[1], Task::Assemble { mesh, plan: bundle.plan, model: stripped });
    assert_eq!(
        tasks[2],
        Task::PlaceSource {
            mesh,
            operator,
            plan: bundle.plan,
            model: stripped,
            source: edited.facts.source,
        }
    );
    assert_eq!(
        tasks[3],
        Task::AssembleCanonical {
            mesh,
            operator,
            model: stripped,
            document_revision: 2,
            active_canonical: Some(active.canonical_operator),
        }
    );
    assert_eq!(
        tasks[4],
        Task::BuildTemporal {
            base: candidate.canonical_operator,
            mesh,
            operator,
            model: authored,
        }
    );
    assert_eq!(
        tasks[5],
        Task::Transfer {
            from: TransferEnd { mesh: active.mesh, operator: active.operator },
            to: TransferEnd { mesh, operator },
        }
    );
    assert_eq!(
        tasks[6],
        Task::CompileSources {
            mesh,
            operator,
            plan: bundle.plan,
            model: stripped,
            volume_sources: artifact(20),
        }
    );
    assert_eq!(
        tasks[7],
        Task::CompileForcing {
            mesh,
            operator,
            canonical: candidate.canonical_operator,
            compiled: candidate.volume_sources,
            volume_sources: artifact(20),
            source: edited.facts.source,
            active_forcing: Some(active.canonical_forcing),
        }
    );
    assert_eq!(
        tasks[8],
        Task::TransferPrimary { interpolation: transfer, active: from, candidate: to }
    );
    assert_eq!(
        tasks[9],
        Task::TransferThinGap { from_canonical: from.operator, to_canonical: to.operator }
    );
    assert_eq!(
        tasks[10],
        Task::TransferOutgoing {
            interpolation: transfer,
            from_canonical: from.operator,
            to_canonical: to.operator,
        }
    );
    assert_eq!(tasks[11], Task::TransferVector { active: from, candidate: to });
    assert_eq!(tasks[12], Task::Nothing);
    match tasks[13] {
        Task::Measure { model, definitions, kept, far_field, .. } => {
            assert_eq!((model, definitions, kept), (stripped, artifact(PROBES), None));
            let base = tasks[13].stencil_base().unwrap();
            assert_eq!((base.mesh, base.operator), (mesh, operator));
            assert_eq!((base.plan, base.model), (bundle.plan, stripped));
            let far_field = far_field.unwrap();
            assert_eq!((far_field.model, far_field.sample_count), (authored, 256));
            assert_eq!((far_field.inset, far_field.source), (n(0.2), edited.facts.source));
        }
        other => panic!("{other:?}"),
    }
    assert_eq!(tasks.len(), 14);
    assert_eq!(candidate.stripped_model, Some(strip(artifact(20))));
}

#[test]
fn a_kept_operator_is_measured_with_the_probes_it_has() {
    let editor = document();
    let mut runtime = TopologyRuntime::default();
    let mut engine = engine();
    let active = publish(&mut runtime, &mut engine, &editor);
    runtime
        .request_with_handoff(1, &editor.facts, &compiled(1), unchanged(), options(), false, true)
        .unwrap();
    let (tasks, _) = tasks_of(runtime.take_preparing_job().unwrap(), &mut engine);
    assert_eq!(
        tasks[0],
        Task::TransferOnMesh {
            mesh: active.mesh,
            from_operator: active.operator,
            to_operator: active.operator,
        }
    );
    match tasks.last() {
        Some(Task::Measure { model, kept: Some(kept), far_field: None, .. }) => {
            assert_eq!(*model, WaveModel::Stripped(strip(artifact(AUTHORED))));
            assert_eq!((kept.definitions, kept.compiled), (artifact(PROBES), active.probes));
        }
        other => panic!("{other:?}"),
    }
}

#[test]
fn a_rebuild_after_a_failed_carve_takes_the_revision_of_its_token() {
    let editor = document();
    let mut runtime = TopologyRuntime::default();
    let mut engine = engine();
    publish(&mut runtime, &mut engine, &editor);
    engine.carve_failure = Some("the cavity is open".to_string());
    let mut against = unchanged();
    against.scene.geometry = false;
    against.plan_change = TopologyMeshUpdateAction::Repair(artifact(50));
    runtime
        .request(2, &editor.facts, &compiled(7), against, options(), false)
        .unwrap();
    let job = runtime.take_preparing_job().unwrap();
    let bundle = job.request.bundle;
    let (tasks, candidate) = tasks_of(job, &mut engine);
    assert_eq!(
        tasks[1],
        Task::Mesh {
            plan: bundle.plan,
            mesh_revision: bundle.token.mesh_generation,
            options: options(),
        }
    );
    assert_eq!(candidate.repair_fallback, Some("the cavity is open".to_string()));
}

#[test]
fn complete_candidate_publishes_only_after_explicit_gpu_acknowledgement() {
    let editor = document();
    let mut runtime = TopologyRuntime::default();
    let mut engine = engine();
    let token = runtime
        .request(1, &editor.facts, &compiled(1), unchanged(), options(), true)
        .unwrap();
    assert!(runtime.active().is_none());
    assert_eq!(prepare(&mut runtime, &mut engine).unwrap(), token);
    assert!(runtime.active().is_none());
    assert_eq!(runtime.ready().unwrap().bundle.token, token);
    let committed = runtime.commit_ready(token).unwrap();
    assert_eq!(committed.bundle.token, token);
    assert!(committed.transfer.is_none());
    assert_eq!(token.topology_revision, 1);
    assert_eq!(runtime.active().unwrap().bundle.token, token);
}

#[test]
fn externally_prepared_candidate_obeys_the_runtime_transaction() {
    let editor = document();
    let mut runtime = TopologyRuntime::default();
    let token = runtime
        .request(1, &editor.facts, &compiled(1), unchanged(), options(), true)
        .unwrap();
    let job = runtime.take_preparing_job().unwrap();
    assert_eq!(job.token(), token);
    assert!(runtime.phase().is_none());

    let result = prepare_job(job, &mut engine());
    assert_eq!(runtime.finish_external_preparation(result).unwrap().unwrap(), token);
    assert_eq!(runtime.ready().unwrap().bundle.token, token);
    assert_eq!(runtime.commit_ready(token).unwrap().bundle.token, token);
}

#[test]
fn externally_prepared_stale_candidate_cannot_replace_a_newer_request() {
    let editor = document();
    let mut runtime = TopologyRuntime::default();
    let stale = runtime
        .request(1, &editor.facts, &compiled(1), unchanged(), options(), true)
        .unwrap();
    let stale_job = runtime.take_preparing_job().unwrap();
    let newest = runtime
        .request(2, &editor.facts, &compiled(2), unchanged(), options(), true)
        .unwrap();
    assert_ne!(stale, newest);

    let result = prepare_job(stale_job, &mut engine());
    assert!(runtime.finish_external_preparation(result).is_none());
    assert!(runtime.ready().is_none());
    assert_eq!(runtime.take_preparing_job().unwrap().token(), newest);
}

#[test]
fn a_job_comes_back_only_while_it_is_requested() {
    let editor = document();
    let mut runtime = TopologyRuntime::default();
    runtime
        .request(1, &editor.facts, &compiled(1), unchanged(), options(), true)
        .unwrap();
    let job = runtime.take_preparing_job().unwrap();
    runtime.restore_preparing_job(job);
    assert_eq!(runtime.phase(), Some(TopologyPreparationPhase::Meshing));
    let stale = runtime.take_preparing_job().unwrap();
    runtime
        .request(2, &editor.facts, &compiled(2), unchanged(), options(), true)
        .unwrap();
    let newest = runtime.take_preparing_job().unwrap();
    runtime.restore_preparing_job(stale);
    assert!(runtime.phase().is_none());
    runtime.restore_preparing_job(newest);
    assert!(runtime.phase().is_some());
}

#[test]
fn assembly_and_transfer_yield_between_slices() {
    let editor = document();
    let mut runtime = TopologyRuntime::default();
    let mut engine = engine();
    publish(&mut runtime, &mut engine, &editor);

    runtime.request_full_rebuild();
    let token = runtime
        .request(1, &editor.facts, &compiled(1), unchanged(), options(), false)
        .unwrap();
    let mut seen = BTreeMap::<&'static str, u32>::new();
    let finished = loop {
        if let Some(phase) = runtime.phase() {
            *seen.entry(phase.label()).or_default() += 1;
        }
        if let Some(result) = advance(&mut runtime, &mut engine) {
            break result.unwrap();
        }
        assert!(seen.values().sum::<u32>() < 1000, "preparation did not finish");
    };
    assert_eq!(finished, token);
    let second = runtime.commit_ready(token).unwrap();
    assert!(seen["Assembling wave operator"] > 1, "{seen:?}");
    assert!(seen["Carrying the field across"] > 1, "{seen:?}");
    assert!(second.transfer.is_some());
}

#[test]
fn a_time_budget_finishes_a_preparation_in_one_call_without_a_deadline() {
    let editor = document();
    let request = |runtime: &mut TopologyRuntime| {
        runtime
            .request(1, &editor.facts, &compiled(1), unchanged(), options(), true)
            .unwrap()
    };

    let mut unbounded = TopologyRuntime::default();
    let token = request(&mut unbounded);
    let finished = advance_for(&mut unbounded, &mut engine(), 1000)
        .expect("one unbounded call finishes the preparation")
        .unwrap();
    assert_eq!(finished, token);
    let committed = unbounded.commit_ready(token).unwrap();
    assert_eq!(committed.timing.slices, 1);

    let mut stepped = TopologyRuntime::default();
    let token = request(&mut stepped);
    assert_eq!(prepare(&mut stepped, &mut engine()).unwrap(), token);
    let reference = stepped.commit_ready(token).unwrap();
    assert_eq!(committed.mesh, reference.mesh);

    let mut bounded = TopologyRuntime::default();
    let mut engine = engine();
    let token = request(&mut bounded);
    let mut calls = 0u32;
    let finished = loop {
        calls += 1;
        if let Some(result) = advance(&mut bounded, &mut engine) {
            break result.unwrap();
        }
        assert!(calls < 1000, "preparation did not finish");
    };
    assert_eq!(finished, token);
    assert!(calls > 1, "a zero budget still yields after one slice");
    assert_eq!(bounded.commit_ready(token).unwrap().timing.slices, calls);
}

#[test]
fn point_source_placement_is_validated_once_per_candidate() {
    let mut editor = document();
    editor.facts.source.enabled = true;
    let mut runtime = TopologyRuntime::default();
    let mut engine = engine();
    let token = runtime
        .request(1, &editor.facts, &compiled(1), unchanged(), options(), true)
        .unwrap();
    let mut observed = 0;
    let finished = loop {
        if let Some(job) = runtime.preparing.as_ref() {
            observed = observed.max(job.assembly.source_validation_count);
            assert!(
                job.assembly.source_validation_count <= 1,
                "point-source placement was revalidated during later work"
            );
        }
        if let Some(result) = advance(&mut runtime, &mut engine) {
            break result.unwrap();
        }
    };
    assert_eq!(finished, token);
    assert_eq!(observed, 1);
    assert!(value(runtime.commit_ready(token).unwrap().timing.work_ms) > 0.0);
}

#[test]
fn changing_the_meshing_options_rebuilds_the_mesh() {
    let editor = document();
    let mut runtime = TopologyRuntime::default();
    let mut engine = engine();
    let coarse = options();
    let first = publish(&mut runtime, &mut engine, &editor);
    assert_eq!(first.meshing, coarse);

    let fine = MeshingOptions { target_edge_length: n(0.09), ..coarse };
    let token = runtime
        .request(1, &editor.facts, &compiled(1), unchanged(), fine, false)
        .unwrap();
    assert_eq!(prepare(&mut runtime, &mut engine).unwrap(), token);
    let second = runtime.commit_ready(token).unwrap();
    assert_eq!(
        second.mesh_action,
        TopologyMeshUpdateAction::FullRebuild(TopologyFullRebuildReason::MeshingOptionsChanged)
    );
    assert!(!second.operator_reused);
    assert!(second.transfer.is_some());
    assert_ne!(second.mesh, first.mesh);
    assert_eq!(second.meshing, fine);

    let token = runtime
        .request(2, &editor.facts, &compiled(1), unchanged(), fine, false)
        .unwrap();
    assert_eq!(prepare(&mut runtime, &mut engine).unwrap(), token);
    let third = runtime.commit_ready(token).unwrap();
    assert_eq!(third.mesh_action, TopologyMeshUpdateAction::Reuse);
    assert!(third.operator_reused);
}

#[test]
fn a_requested_rebuild_remeshes_an_unchanged_scene_once() {
    let editor = document();
    let mut runtime = TopologyRuntime::default();
    let mut engine = engine();
    let first = publish(&mut runtime, &mut engine, &editor);

    runtime.request_full_rebuild();
    let token = runtime
        .request(1, &editor.facts, &compiled(1), unchanged(), options(), false)
        .unwrap();
    assert_eq!(prepare(&mut runtime, &mut engine).unwrap(), token);
    let second = runtime.commit_ready(token).unwrap();
    assert_eq!(
        second.mesh_action,
        TopologyMeshUpdateAction::FullRebuild(TopologyFullRebuildReason::Requested)
    );
    assert_ne!(second.bundle.token.mesh_generation, first.bundle.token.mesh_generation);
    assert!(!second.operator_reused);
    assert!(second.transfer.is_some());

    let token = runtime
        .request(2, &editor.facts, &compiled(1), unchanged(), options(), false)
        .unwrap();
    assert_eq!(prepare(&mut runtime, &mut engine).unwrap(), token);
    assert_eq!(runtime.commit_ready(token).unwrap().mesh_action, TopologyMeshUpdateAction::Reuse);
}

#[test]
fn a_finished_preparation_counts_the_slice_that_finished_it() {
    let editor = document();
    let mut runtime = TopologyRuntime::default();
    let mut engine = engine();
    let token = runtime
        .request(1, &editor.facts, &compiled(1), unchanged(), options(), true)
        .unwrap();
    let mut slices = 0u32;
    let finished = loop {
        slices += 1;
        if let Some(result) = advance(&mut runtime, &mut engine) {
            break result.unwrap();
        }
        assert!(slices < 1000, "preparation did not finish");
    };
    assert_eq!(finished, token);
    let committed = runtime.commit_ready(token).unwrap();
    assert!(slices > 1, "the preparation took more than one slice");
    assert_eq!(committed.timing.slices, slices, "the handoff dropped its own last slice");
    assert_eq!(committed.timing.longest_slice_ms, n(2.0));
    assert_eq!(committed.timing.work_ms, n(2.0 * f64::from(slices)));
    assert_eq!(committed.timing.total_ms(), committed.timing.work_ms);
}

#[test]
fn accepted_bundle_rejects_a_compiled_snapshot_from_another_scene() {
    let mut other = compiled(4);
    other.geometry_matches = false;
    other.domain_matches = false;
    let refused = AcceptedTopology::new(7, 1, artifact(AUTHORED), &other);
    assert_eq!(refused.unwrap_err(), "Compiled topology does not match its authored scene");
}

#[test]
fn each_part_of_a_compiled_scene_is_held_against_the_authored_one() {
    let refuse = |scene: CompiledTopologyScene| {
        AcceptedTopology::new(7, 1, artifact(AUTHORED), &scene).unwrap_err()
    };
    let mismatch = "Compiled topology does not match its authored scene";
    assert_eq!(refuse(CompiledTopologyScene { plan_geometry_revision: 5, ..compiled(4) }), mismatch);
    assert_eq!(refuse(CompiledTopologyScene { assignments: Ok(false), ..compiled(4) }), mismatch);
    assert_eq!(refuse(CompiledTopologyScene { expected_plan: Ok(false), ..compiled(4) }), mismatch);
    assert_eq!(refuse(CompiledTopologyScene { model_valid: false, ..compiled(4) }), mismatch);
    assert_eq!(
        refuse(CompiledTopologyScene { assignments: Err("no face".to_string()), ..compiled(4) }),
        "Compiled topology does not match its authored scene: no face"
    );
    assert_eq!(
        refuse(CompiledTopologyScene { expected_plan: Err("no plan".to_string()), ..compiled(4) }),
        "Compiled topology does not match its authored scene: no plan"
    );
    assert_eq!(
        refuse(CompiledTopologyScene { coarsened: Err("too thin".to_string()), ..compiled(4) }),
        "Compiled topology could not be prepared for meshing: too thin"
    );
    let accepted = AcceptedTopology::new(7, 1, artifact(AUTHORED), &compiled(4)).unwrap();
    assert_eq!(
        accepted.token,
        TopologyToken { document_revision: 7, topology_revision: 4, mesh_generation: 1 }
    );
    assert_eq!(accepted.plan, artifact(PLAN));
}

#[test]
fn material_only_revision_reuses_mesh_and_builds_an_exact_transfer() {
    let editor = document();
    let mut runtime = TopologyRuntime::default();
    let mut engine = engine();
    let original = publish(&mut runtime, &mut engine, &editor);

    let mut edited = document();
    edited.scene.materials[0].damping = ScalarField::Constant(n(0.02));
    edited.facts.authored = artifact(20);
    let mut against = comparison(&editor, &edited);
    assert!(against.scene.mesh_scene_eq() && !against.scene.operator_scene_eq());
    against.plan_change = TopologyMeshUpdateAction::Reuse;
    let second = runtime
        .request(2, &edited.facts, &compiled(7), against, options(), false)
        .unwrap();
    assert_eq!(prepare(&mut runtime, &mut engine).unwrap(), second);
    let candidate = runtime.ready().unwrap();
    assert_eq!(candidate.mesh_action, TopologyMeshUpdateAction::Reuse);
    assert_eq!(candidate.mesh, original.mesh);
    assert!(!candidate.operator_reused);
    assert!(candidate.transfer.is_some());
    assert!(candidate.canonical_transfer.is_some());
    assert_eq!(candidate.solver_update, PreparedSolverUpdate::FullHandoff);
    assert_eq!(candidate.bundle.authored, artifact(20));
    assert_eq!(second.topology_revision, 1);
    runtime.commit_ready(second).unwrap();
}

#[test]
fn adapted_mesh_gets_a_distinct_token_and_waits_for_gpu_acknowledgement() {
    let editor = document();
    let mut runtime = TopologyRuntime::default();
    let mut engine = engine();
    let active = publish(&mut runtime, &mut engine, &editor);
    let initial = active.bundle.token;
    let mesh_revision = runtime.reserve_mesh_revision();
    assert!(!runtime.requested_adaptation());
    let mesh = AdaptedMesh { mesh: artifact(500), geometry_revision: 1, mesh_revision };
    let adapted = runtime
        .request_adapted(1, &editor.facts, unchanged(), 1, initial.mesh_generation, mesh)
        .unwrap();
    assert!(runtime.requested_adaptation());
    assert_eq!(adapted.document_revision, initial.document_revision);
    assert_eq!(adapted.topology_revision, initial.topology_revision);
    assert_ne!(adapted.mesh_generation, initial.mesh_generation);
    assert_eq!(prepare(&mut runtime, &mut engine).unwrap(), adapted);
    assert_eq!(runtime.active().unwrap().bundle.token, initial);
    assert!(runtime.ready().unwrap().adapted);
    assert_eq!(runtime.ready().unwrap().mesh, artifact(500));
    assert_eq!(runtime.commit_ready(adapted).unwrap().bundle.token, adapted);
}

#[test]
fn an_adapted_mesh_that_does_not_continue_the_active_one_is_refused() {
    let editor = document();
    let mut runtime = TopologyRuntime::default();
    let mesh = AdaptedMesh { mesh: artifact(500), geometry_revision: 1, mesh_revision: 9 };
    assert_eq!(
        runtime.request_adapted(1, &editor.facts, unchanged(), 1, 1, mesh).unwrap_err(),
        "Cannot adapt before a topology is active"
    );
    publish(&mut runtime, &mut engine(), &editor);
    let refused = "Adapted mesh does not match the active topology";
    let same_mesh = AdaptedMesh { mesh_revision: 1, ..mesh };
    assert_eq!(
        runtime.request_adapted(1, &editor.facts, unchanged(), 1, 1, same_mesh).unwrap_err(),
        refused
    );
    assert_eq!(
        runtime.request_adapted(1, &editor.facts, unchanged(), 2, 1, mesh).unwrap_err(),
        refused
    );
    let mut other = document();
    other.scene.geometry.domain.max_x = n(1.5);
    let differs = comparison(&editor, &other);
    assert_eq!(
        runtime.request_adapted(1, &other.facts, differs, 1, 1, mesh).unwrap_err(),
        refused
    );
}

#[test]
fn a_cleared_runtime_prepares_the_next_document_from_scratch() {
    let editor = document();
    let mut runtime = TopologyRuntime::default();
    let mut engine = engine();
    publish(&mut runtime, &mut engine, &editor);
    assert!(matches!(
        publish(&mut runtime, &mut engine, &editor).mesh_action,
        TopologyMeshUpdateAction::Reuse
    ));
    runtime.clear_active();
    assert!(runtime.active().is_none() && runtime.phase().is_none());
    assert!(matches!(
        publish(&mut runtime, &mut engine, &editor).mesh_action,
        TopologyMeshUpdateAction::FullRebuild(_)
    ));
}

#[test]
fn mesh_revisions_go_on_after_a_clear() {
    let editor = document();
    let mut engine = engine();
    let mut kept = TopologyRuntime::default();
    let mut cleared = TopologyRuntime::default();
    publish(&mut kept, &mut engine, &editor);
    publish(&mut cleared, &mut engine, &editor);
    let same = comparison(&editor, &editor);
    cleared
        .request(2, &editor.facts, &compiled(1), same, options(), false)
        .unwrap();
    kept.request(2, &editor.facts, &compiled(1), comparison(&editor, &editor), options(), false)
        .unwrap();
    cleared.clear_active();
    assert!(cleared.active().is_none() && cleared.ready().is_none());
    assert!(cleared.phase().is_none() && cleared.last_error().is_none());
    assert!(!cleared.requested_adaptation());
    let next = kept.reserve_mesh_revision();
    assert_eq!(cleared.reserve_mesh_revision(), next);
    let token = cleared
        .request(3, &editor.facts, &compiled(1), comparison(&editor, &editor), options(), false)
        .unwrap();
    assert_eq!(token.mesh_generation, next + 1);
    prepare(&mut cleared, &mut engine).unwrap();
    assert_eq!(
        cleared.ready().unwrap().mesh_action,
        TopologyMeshUpdateAction::FullRebuild(TopologyFullRebuildReason::DomainChanged)
    );
}

#[test]
fn source_and_probe_only_request_keeps_topology_mesh_and_operator() {
    let editor = document();
    let mut runtime = TopologyRuntime::default();
    let mut engine = engine();
    let active = publish(&mut runtime, &mut engine, &editor);
    let first = active.bundle.token;

    let mut edited = document();
    edited.facts.source.signal = harmonic(0.0, 2.0, 3.0, 0.0);
    edited.facts.probes = artifact(30);
    let second = runtime
        .request(2, &edited.facts, &compiled(99), comparison(&editor, &edited), options(), false)
        .unwrap();
    assert_eq!(second.topology_revision, first.topology_revision);
    prepare(&mut runtime, &mut engine).unwrap();
    let candidate = runtime.ready().unwrap();
    assert!(candidate.operator_reused);
    assert_eq!(candidate.mesh, active.mesh);
    assert_eq!(candidate.operator, active.operator);
    assert!(candidate.transfer.is_none());
    assert!(candidate.canonical_transfer.is_none());
    assert_eq!(candidate.solver_update, PreparedSolverUpdate::SourceDrivesOnly);
    assert_eq!(candidate.probe_definitions, artifact(30));
}

#[test]
fn probe_only_request_never_prepares_a_solver_transfer() {
    let editor = document();
    let mut runtime = TopologyRuntime::default();
    let mut engine = engine();
    publish(&mut runtime, &mut engine, &editor);

    let mut edited = document();
    edited.facts.probes = artifact(30);
    let second = runtime
        .request(2, &edited.facts, &compiled(2), comparison(&editor, &edited), options(), false)
        .unwrap();
    assert_eq!(prepare(&mut runtime, &mut engine).unwrap(), second);
    let candidate = runtime.ready().unwrap();
    assert_eq!(candidate.solver_update, PreparedSolverUpdate::MeasurementsOnly);
    assert!(candidate.canonical_transfer.is_none());
    assert_eq!(candidate.probe_definitions, artifact(30));
}

#[test]
fn timestep_republish_keeps_the_full_identity_handoff() {
    let editor = document();
    let mut runtime = TopologyRuntime::default();
    let mut engine = engine();
    publish(&mut runtime, &mut engine, &editor);

    runtime
        .request_with_handoff(1, &editor.facts, &compiled(1), unchanged(), options(), false, true)
        .unwrap();
    prepare(&mut runtime, &mut engine).unwrap();
    let candidate = runtime.ready().unwrap();
    assert_eq!(candidate.solver_update, PreparedSolverUpdate::FullHandoff);
    assert!(candidate.canonical_transfer.is_some());
    assert!(candidate.operator_reused);
}

fn sounding(signal: TimeSignal) -> Document {
    let mut document = document();
    document.scene.volume_sources.push(VolumeSource {
        region: BACKGROUND_REGION,
        enabled: true,
        profile: ScalarField::Constant(n(1.0)),
        parameters: vec![],
        signal,
    });
    document
}

#[test]
fn volume_source_signal_edit_reuses_operator_and_spatial_weights() {
    let before = sounding(harmonic(0.0, 1.0, 2.0, 0.0));
    let mut runtime = TopologyRuntime::default();
    let mut engine = engine();
    let active = publish(&mut runtime, &mut engine, &before);

    let after = sounding(harmonic(0.0, 0.5, 4.0, 0.2));
    let against = comparison(&before, &after);
    assert!(against.scene.volume_layout && !against.scene.volume_sources);
    runtime
        .request(2, &after.facts, &compiled(2), against, options(), false)
        .unwrap();
    prepare(&mut runtime, &mut engine).unwrap();
    let candidate = runtime.ready().unwrap();
    assert!(candidate.operator_reused);
    assert_eq!(candidate.operator, active.operator);
    assert_eq!(candidate.solver_update, PreparedSolverUpdate::SourceDrivesOnly);
    assert!(candidate.canonical_transfer.is_none());
    assert_eq!(candidate.volume_sources, artifact(77));
}

fn point_source_edits_patch_the_running_generation(driven: bool) {
    let shown = |x: f64, enabled: bool| {
        let mut document = document();
        document.facts.driven = driven;
        document.facts.source.position.x = n(x);
        document.facts.source.enabled = enabled;
        document
    };
    let first = shown(0.0, true);
    let mut runtime = TopologyRuntime::default();
    let mut engine = engine();
    assert_eq!(publish(&mut runtime, &mut engine, &first).driven(), driven);

    let moved = shown(0.05, true);
    let second = runtime
        .request(2, &moved.facts, &compiled(2), comparison(&first, &moved), options(), false)
        .unwrap();
    prepare(&mut runtime, &mut engine).unwrap();
    let candidate = runtime.ready().unwrap();
    assert_eq!(candidate.solver_update, PreparedSolverUpdate::SourceWeightsOnly);
    assert!(candidate.canonical_transfer.is_none());
    runtime.commit_ready(second).unwrap();

    let silent = shown(0.05, false);
    runtime
        .request(3, &silent.facts, &compiled(3), comparison(&moved, &silent), options(), false)
        .unwrap();
    prepare(&mut runtime, &mut engine).unwrap();
    let candidate = runtime.ready().unwrap();
    assert_eq!(candidate.solver_update, PreparedSolverUpdate::SourceWeightsOnly);
    assert!(candidate.canonical_transfer.is_none());
    assert_eq!(candidate.driven(), driven);
}

#[test]
fn point_source_motion_and_toggle_keep_the_structural_weight_layout() {
    point_source_edits_patch_the_running_generation(false);
}

#[test]
fn a_driven_medium_takes_source_edits_as_patches() {
    point_source_edits_patch_the_running_generation(true);
}

/// The comparison after a curve moved: another geometry, and a band to carve.
fn moved() -> PreviousComparison {
    let mut other = document();
    other.scene.geometry.domain.max_x = n(1.5);
    PreviousComparison {
        plan_change: TopologyMeshUpdateAction::Repair(artifact(60)),
        ..comparison(&document(), &other)
    }
}

#[test]
fn a_coordinate_edit_repairs_the_mesh_by_carving() {
    let editor = document();
    let mut runtime = TopologyRuntime::default();
    let mut engine = engine();
    let before = publish(&mut runtime, &mut engine, &editor);
    let token = runtime
        .request(2, &editor.facts, &compiled(2), moved(), options(), false)
        .unwrap();
    let repair = TopologyMeshUpdateAction::Repair(artifact(60));
    assert_eq!(runtime.preparing.as_ref().unwrap().mesh.action, repair);
    assert_eq!(runtime.phase(), Some(TopologyPreparationPhase::Repairing));
    assert_eq!(prepare(&mut runtime, &mut engine).unwrap(), token);
    let repaired = runtime.commit_ready(token).unwrap();
    assert_eq!(repaired.mesh_action, repair);
    assert_eq!(repaired.carve, Some(artifact(55)));
    assert!(repaired.repair_fallback.is_none());
    assert!(!repaired.operator_reused);
    assert!(!repaired.adapted);
    assert_ne!(repaired.bundle.token.mesh_generation, before.bundle.token.mesh_generation);
    assert!(repaired.transfer.is_some(), "the field crosses over");
}

#[test]
fn a_failed_repair_falls_back_to_a_full_rebuild() {
    let editor = document();
    let mut runtime = TopologyRuntime::default();
    let mut engine = engine();
    publish(&mut runtime, &mut engine, &editor);
    engine.carve_failure = Some("mesh does not follow the topology plan".to_string());
    let token = runtime
        .request(2, &editor.facts, &compiled(2), moved(), options(), false)
        .unwrap();
    assert_eq!(prepare(&mut runtime, &mut engine).unwrap(), token);
    let rebuilt = runtime.commit_ready(token).unwrap();
    assert_eq!(
        rebuilt.mesh_action,
        TopologyMeshUpdateAction::FullRebuild(TopologyFullRebuildReason::RepairFailed)
    );
    assert!(rebuilt.carve.is_none());
    assert!(
        rebuilt.repair_fallback.as_deref().is_some_and(|message| message.contains("topology plan")),
        "{:?}",
        rebuilt.repair_fallback
    );
    assert!(rebuilt.transfer.is_some());
    assert_eq!(rebuilt.bundle.token.mesh_generation, token.mesh_generation);
}

#[test]
fn a_repair_follows_the_adaptation_switch() {
    let editor = document();
    let mut runtime = TopologyRuntime::default();
    let mut engine = engine();
    publish(&mut runtime, &mut engine, &editor);
    let preserved = |runtime: &mut TopologyRuntime| {
        runtime.request(2, &editor.facts, &compiled(2), moved(), options(), false).unwrap();
        runtime.preparing.as_ref().unwrap().request.preserve_adaptation
    };
    assert!(preserved(&mut runtime));
    runtime.set_preserve_adaptation(false);
    assert!(!preserved(&mut runtime));
}

#[test]
fn switching_a_walled_boundary_renumbers_the_reused_mesh() {
    let editor = document();
    let mut runtime = TopologyRuntime::default();
    let mut engine = engine();
    publish(&mut runtime, &mut engine, &editor);
    for pass in 0..3 {
        let switched = PreviousComparison {
            plan_change: TopologyMeshUpdateAction::Reuse,
            retraced: Some(artifact(70 + pass)),
            ..moved()
        };
        let token = runtime
            .request(2 + pass, &editor.facts, &compiled(2 + pass), switched, options(), false)
            .unwrap();
        assert_eq!(prepare(&mut runtime, &mut engine).unwrap(), token);
        let reused = runtime.commit_ready(token).unwrap();
        assert_eq!(
            reused.mesh_action,
            TopologyMeshUpdateAction::Reuse,
            "a walled span is walled either way, so nothing is remeshed"
        );
        assert_eq!(reused.mesh, artifact(70 + pass));
    }
    let unmatched = PreviousComparison {
        plan_change: TopologyMeshUpdateAction::Reuse,
        retraced: None,
        ..moved()
    };
    runtime.request(9, &editor.facts, &compiled(9), unmatched, options(), false).unwrap();
    assert_eq!(
        runtime.preparing.as_ref().unwrap().mesh.action,
        TopologyMeshUpdateAction::FullRebuild(TopologyFullRebuildReason::TraceIdentityChanged)
    );
}

#[test]
fn traces_come_over_under_their_new_numbers_or_not_at_all() {
    let remap = vec![(1, 11), (2, 12), (3, 13)];
    assert_eq!(
        retraced(&vec![Some(2), None, Some(1), Some(2)], &remap),
        Some(vec![Some(12), None, Some(11), Some(12)])
    );
    assert_eq!(retraced(&vec![Some(2), Some(4)], &remap), None);
    assert_eq!(retraced(&vec![], &vec![]), Some(vec![]));
}

#[test]
fn failed_or_superseded_candidate_never_replaces_active_state() {
    let editor = document();
    let mut runtime = TopologyRuntime::default();
    let mut engine = engine();
    let active = publish(&mut runtime, &mut engine, &editor);

    let mut bad = document();
    bad.facts.source.enabled = true;
    bad.facts.source.position = Point2 { x: n(4.0), y: n(4.0) };
    runtime
        .request(2, &bad.facts, &compiled(2), comparison(&editor, &bad), options(), false)
        .unwrap();
    let failure = prepare(&mut runtime, &mut engine).unwrap_err();
    assert_eq!(failure.message, "Point source placement is invalid: outside the domain");
    assert_eq!(runtime.last_error().unwrap().message, failure.message);
    assert_eq!(runtime.active().unwrap().bundle.token, active.bundle.token);

    runtime
        .request(3, &editor.facts, &compiled(3), unchanged(), options(), false)
        .unwrap();
    let newest = runtime
        .request(4, &editor.facts, &compiled(4), unchanged(), options(), false)
        .unwrap();
    assert_eq!(prepare(&mut runtime, &mut engine).unwrap(), newest);
    let unknown =
        TopologyToken { document_revision: 3, topology_revision: 3, mesh_generation: 3 };
    assert_eq!(
        runtime.commit_ready(unknown).unwrap_err(),
        "Candidate is stale or not ready"
    );
    assert_eq!(runtime.active().unwrap().bundle.token, active.bundle.token);
}

#[test]
fn a_rejected_upload_leaves_the_active_topology_in_place() {
    let editor = document();
    let mut runtime = TopologyRuntime::default();
    let mut engine = engine();
    let active = publish(&mut runtime, &mut engine, &editor);
    let token = runtime
        .request(2, &editor.facts, &compiled(2), moved(), options(), false)
        .unwrap();
    prepare(&mut runtime, &mut engine).unwrap();
    let other = TopologyToken { document_revision: 99, ..token };
    runtime.reject_ready(other, "not this one".to_string());
    assert_eq!(runtime.phase(), Some(TopologyPreparationPhase::Ready));
    runtime.reject_ready(token, "device lost".to_string());
    assert!(runtime.ready().is_none());
    assert_eq!(runtime.last_error().unwrap().phase, TopologyPreparationPhase::Failed);
    assert_eq!(runtime.last_error().unwrap().message, "device lost");
    assert_eq!(runtime.active().unwrap().bundle.token, active.bundle.token);
}

#[test]
fn attached_separator_probes_and_far_field_use_the_same_token() {
    let mut editor = document();
    editor.facts.far_field = FarFieldSettings { enabled: true, inset: n(0.08) };
    let mut runtime = TopologyRuntime::default();
    let mut engine = engine();
    engine.far_field = Err("the contour crosses a boundary".to_string());
    let token = runtime
        .request(1, &editor.facts, &compiled(1), unchanged(), options(), true)
        .unwrap();
    prepare(&mut runtime, &mut engine).unwrap();
    let candidate = runtime.ready().unwrap();
    assert_eq!(candidate.bundle.token, token);
    assert!(candidate.far_field.as_ref().unwrap().is_err());
}

#[test]
fn an_unchanged_far_field_is_kept() {
    let mut editor = document();
    editor.facts.far_field = FarFieldSettings { enabled: true, inset: n(0.08) };
    let mut runtime = TopologyRuntime::default();
    let mut engine = engine();
    engine.far_field = Ok(artifact(41));
    publish(&mut runtime, &mut engine, &editor);
    engine.far_field = Ok(artifact(42));
    runtime.request(2, &editor.facts, &compiled(2), unchanged(), options(), false).unwrap();
    prepare(&mut runtime, &mut engine).unwrap();
    assert_eq!(runtime.ready().unwrap().far_field, Some(Ok(artifact(41))));
    editor.facts.far_field.inset = n(0.1);
    runtime.request(3, &editor.facts, &compiled(3), unchanged(), options(), false).unwrap();
    prepare(&mut runtime, &mut engine).unwrap();
    assert_eq!(runtime.ready().unwrap().far_field, Some(Ok(artifact(42))));
}

#[test]
fn a_point_source_is_refused_with_its_reason() {
    let source = PointSource { enabled: true, ..document().facts.source };
    let at = |placed: Result<u64, String>| SourcePlacement { active_regions: vec![1, 5], placed };
    assert_eq!(validate_point_source(source, true, &at(Ok(1))), Ok(()));
    assert_eq!(
        validate_point_source(source, true, &at(Ok(5))).unwrap_err(),
        "Point source position does not lie in its assigned region"
    );
    assert_eq!(
        validate_point_source(source, true, &at(Err("on a wall".to_string()))).unwrap_err(),
        "Point source placement is invalid: on a wall"
    );
    assert_eq!(
        validate_point_source(source, false, &at(Ok(1))).unwrap_err(),
        "Point source references an inactive region"
    );
    let elsewhere = PointSource { region: 2, ..source };
    assert_eq!(
        validate_point_source(elsewhere, true, &at(Ok(2))).unwrap_err(),
        "Point source references an inactive region"
    );
    let silent = PointSource { enabled: false, ..source };
    assert_eq!(validate_point_source(silent, true, &at(Ok(5))), Ok(()));
}

#[test]
fn a_failure_is_described_by_its_phase() {
    let error = TopologyPreparationError {
        token: TopologyToken { document_revision: 1, topology_revision: 1, mesh_generation: 1 },
        phase: TopologyPreparationPhase::Assembling,
        message: "singular element".to_string(),
    };
    assert_eq!(error.describe(), "Assembling wave operator: singular element");
}

#[test]
fn working_time_is_charged_to_the_bucket_of_the_work() {
    assert_eq!(Work::AdvanceCarve.bucket(), TimingBucket::Meshing);
    assert_eq!(Work::AdvanceAssembly.bucket(), TimingBucket::Assembly);
    assert_eq!(Work::AdvanceTransfer.bucket(), TimingBucket::Transfer);
    assert_eq!(Work::AdvanceSources.bucket(), TimingBucket::Sources);
    assert_eq!(Work::CompileMeasurements.bucket(), TimingBucket::Measurements);
    let editor = document();
    let mut runtime = TopologyRuntime::default();
    runtime.request(1, &editor.facts, &compiled(1), unchanged(), options(), true).unwrap();
    let mut job = runtime.take_preparing_job().unwrap();
    job.charge(TimingBucket::Transfer, n(4.0));
    assert_eq!(job.timing().transfer_ms, n(4.0));
    assert_eq!(job.timing().meshing_ms, n(0.0));
    assert_eq!(job.detail(), Ok(Work::AdvanceMesh));
    assert!(job.advances(1) && !job.advances(0));
}

#[test]
fn mesh_revisions_skip_zero() {
    let mut runtime = TopologyRuntime::default();
    assert_eq!(runtime.reserve_mesh_revision(), 1);
    assert_eq!(runtime.reserve_mesh_revision(), 2);
    runtime.next_mesh_revision = u64::MAX;
    assert_eq!(runtime.reserve_mesh_revision(), u64::MAX);
    assert_eq!(runtime.reserve_mesh_revision(), 1);
}
