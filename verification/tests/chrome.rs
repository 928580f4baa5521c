use funfern::adaptation::{MeshAdaptationReport, SolutionIndicatorReport};
use funfern::capture::{
    dropped_frames_text, launch, Captures, Launch, LaunchSource, RecordingCommand, RecordingState,
    SnapshotState,
};
use funfern::display::{aligned_indicator_auxiliary, refresh_canonical_wave_display, DisplayFacts};
use funfern::drawing::{ClosedPurpose, OpenPurpose};
use funfern::frame_pass::{FirstTimes, FrameEnd, Recording, Session};
use funfern::gesture::DrawTool;
use funfern::interaction::Interaction;
use funfern::labels::InspectorPanel;
use funfern::model::{
    CurveSpan, CurveSpline, ElectromagneticPolarization, OuterSide, PhysicsModel, ScalarField,
    SpanBehavior, SplineData, TopologyCurve,
};
use funfern::panels::{
    curve_selected, folds_panels, outer_boundary_selected, palette_shown, run_label,
    select_outer_boundary, selected_material_name, side_panel, toggle_panel, FieldEditor,
    NamedMaterial, SidePanel,
};
use funfern::preparation::{
    Artifact, TopologyFullRebuildReason, TopologyMeshUpdateAction, TopologyToken,
};
use funfern::preview::{
    crossing_edges, face_order, face_spans, next_preview, random_example_index, LineSpan,
};
use funfern::readouts::{
    adaptation_text, candidates_text, document_text, handoff_action, handoff_field, handoff_status,
    mesh_text, scheduling_text, status_text, summary_line, time_step_bound_line, token_text,
    CarveReport, HandoffProgress, HandoffRecord, MeshCounts, StepCeiling, TopologyAcceptance,
};
use funfern::scalar::{Point2, Scalar};
use funfern::selection::{SpanSet, TopologySelection, TopologySpanTarget};
use funfern::top_bar::{BarAction, BarButton, TopBar};
use std::collections::BTreeSet;

fn n(value: f64) -> Scalar {
    Scalar { bits: value.to_bits() }
}

fn value(number: Scalar) -> f64 {
    f64::from_bits(number.bits)
}

fn p(x: f64, y: f64) -> Point2 {
    Point2 { x: n(x), y: n(y) }
}

/// Where a line crosses the edges that it crosses.
fn spans(cycles: &[Vec<Point2>], y: f64) -> Vec<(f64, f64)> {
    let crossings = crossing_edges(&cycles.to_vec(), n(y))
        .iter()
        .map(|edge| {
            let (a, b) = (edge.start, edge.end);
            let along = (y - value(a.y)) / (value(b.y) - value(a.y));
            n(value(a.x) + (value(b.x) - value(a.x)) * along)
        })
        .collect();
    face_spans(&crossings).iter().map(|span| (value(span.start), value(span.end))).collect()
}

#[test]
fn scanline_spans_skip_the_holes_in_a_face() {
    let outer = vec![p(-1.0, -1.0), p(1.0, -1.0), p(1.0, 1.0), p(-1.0, 1.0)];
    let hole = vec![p(-0.5, -0.5), p(-0.5, 0.5), p(0.5, 0.5), p(0.5, -0.5)];
    assert_eq!(spans(&[outer.clone()], 0.0), vec![(-1.0, 1.0)]);
    assert_eq!(spans(&[outer.clone(), hole], 0.0), vec![(-1.0, -0.5), (0.5, 1.0)]);
    assert!(spans(&[outer], 2.0).is_empty());
}

#[test]
fn the_order_of_the_cycles_leaves_the_spans_alone() {
    let outer = vec![p(-1.0, -1.0), p(1.0, -1.0), p(1.0, 1.0), p(-1.0, 1.0)];
    let left = vec![p(-0.75, -0.5), p(-0.75, 0.5), p(-0.5, 0.5), p(-0.5, -0.5)];
    let right = vec![p(0.25, -0.5), p(0.25, 0.5), p(0.5, 0.5), p(0.5, -0.5)];
    let expected = vec![(-1.0, -0.75), (-0.5, 0.25), (0.5, 1.0)];
    assert_eq!(spans(&[outer.clone(), left.clone(), right.clone()], 0.0), expected);
    assert_eq!(spans(&[right.clone(), outer.clone(), left.clone()], 0.0), expected);
    assert!(spans(&[left, outer, right], -2.0).is_empty(), "the line misses every cycle");
}

#[test]
fn crossings_pair_in_ascending_order() {
    let pairs = face_spans(&vec![n(3.0), n(-1.0), n(2.0), n(0.0), n(9.0)]);
    assert_eq!(
        pairs,
        vec![
            LineSpan { start: n(-1.0), end: n(0.0) },
            LineSpan { start: n(2.0), end: n(3.0) }
        ]
    );
    assert_eq!(face_order(&vec![n(1.0), n(5.0), n(1.0), n(7.0)]), vec![3, 1, 0, 2]);
}

#[test]
fn every_example_previews_and_the_cache_fills_one_per_frame() {
    let total = 12;
    let mut built = vec![false; total];
    for filled in 1..=total {
        let index = next_preview(&built).expect("an unbuilt preview");
        assert_eq!(index, filled - 1);
        built[index] = true;
        assert_eq!(built.iter().filter(|done| **done).count(), filled);
    }
    assert_eq!(next_preview(&built), None);
}

#[test]
fn the_random_start_stays_inside_the_catalog() {
    let total = 12;
    let mut seen = BTreeSet::new();
    for step in 0..=1000 {
        let scaled = (f64::from(step) / 1000.0 * total as f64) as usize;
        let index = random_example_index(scaled, total);
        assert!(index < total, "{step} lands past the catalog");
        seen.insert(index);
    }
    assert_eq!(seen.len(), total, "some example can never open at startup");
    assert_eq!(random_example_index(0, 0), 0);
}

#[test]
fn the_step_ceiling_line_names_the_row_that_lowers_it() {
    let physics =
        PhysicsModel::Electromagnetic { polarization: ElectromagneticPolarization::Tm };
    let line = |fixed: f64, trajectory: f64, primary: f64, complementary: f64| {
        let bound = StepCeiling {
            primary_floor: n(primary),
            complementary_floor: n(complementary),
            primary_text: format!("{primary:.2}"),
            complementary_text: format!("{complementary:.2}"),
            ceiling_text: format!("{trajectory:.3e}"),
            ratio_text: format!("{:.2}", trajectory / fixed),
        };
        time_step_bound_line(&bound, physics)
    };
    assert_eq!(
        line(2.0e-3, 2.0e-3 * 0.8_f64.sqrt(), 0.8, 1.0),
        "Step ceiling 1.789e-3 s, 0.89× the fixed medium's: Permittivity ε falls to \
         0.80× at its lowest"
    );
    assert_eq!(
        line(2.0e-3, 2.0e-3, 1.0, 1.0),
        "Step ceiling 2.000e-3 s, the fixed medium's: no law here lowers it"
    );
    assert_eq!(
        line(2.0e-3, 1.0e-3, 0.5, 0.5),
        "Step ceiling 1.000e-3 s, 0.50× the fixed medium's: Permittivity ε falls to 0.50×, \
         Permeability μ falls to 0.50× at its lowest"
    );
}

#[test]
fn the_status_bar_sums_up_the_run() {
    let counts = MeshCounts { degrees_of_freedom: 400, triangles: 120 };
    assert_eq!(
        summary_line("60", "1200", Some(counts), "1.0e-3"),
        "60 fps · 1200 steps/s · 400 dofs · 120 elements · dt 1.0e-3"
    );
    assert_eq!(
        summary_line("60", "0", None, ""),
        "60 fps · 0 steps/s · 0 dofs · 0 elements · dt —"
    );
    assert_eq!(
        status_text(&TopologyAcceptance::Invalid("curves cross".to_string()), None, None),
        "Geometry invalid: curves cross"
    );
    assert_eq!(
        status_text(&TopologyAcceptance::Pending, Some("Meshing"), None),
        "Topology rebuilding: tracing faces"
    );
    assert_eq!(status_text(&TopologyAcceptance::Valid, None, None), "Simulation ready");
    assert_eq!(status_text(&TopologyAcceptance::Valid, Some("Meshing"), None), "Meshing");
    assert_eq!(
        status_text(&TopologyAcceptance::Valid, Some("Meshing"), Some("Refining · 40%")),
        "Refining · 40%"
    );
}

#[test]
fn a_handoff_is_reported_as_it_goes() {
    let idle = HandoffProgress {
        uploading: false,
        committing_source: false,
        packing: None,
        ready: false,
        preparing: false,
        backlog: 12,
    };
    assert_eq!(handoff_status(idle), "Idle");
    assert_eq!(
        handoff_status(HandoffProgress { ready: true, preparing: true, ..idle }),
        "Candidate ready · draining 12 requested steps"
    );
    assert_eq!(
        handoff_status(HandoffProgress { packing: Some(true), ready: true, ..idle }),
        "GPU buffers ready · draining 12 requested steps"
    );
    assert_eq!(
        handoff_status(HandoffProgress { packing: Some(false), ..idle }),
        "Packing candidate GPU buffers in the background"
    );
    assert_eq!(
        handoff_status(HandoffProgress { committing_source: true, ..idle }),
        "Applying source parameters at a solver boundary"
    );
    assert_eq!(
        handoff_status(HandoffProgress { uploading: true, committing_source: true, ..idle }),
        "Uploading the candidate to the GPU"
    );
    assert_eq!(
        handoff_status(HandoffProgress { preparing: true, ..idle }),
        "Preparing a candidate on the CPU"
    );
    assert_eq!(scheduling_text(true, false, true), "withheld for a pending handoff");
    assert_eq!(scheduling_text(false, false, true), "running");
    assert_eq!(scheduling_text(false, false, false), "paused");
}

fn record() -> HandoffRecord {
    HandoffRecord {
        action: TopologyMeshUpdateAction::Reuse,
        reason: "curve moved".to_string(),
        operator_reused: false,
        adapted: false,
        transferred: true,
        exact_nodes: 30,
        fresh: false,
        degrees_of_freedom: 40,
        triangles: 18,
        carve: None,
        repair_fallback: None,
    }
}

#[test]
fn a_finished_handoff_says_what_it_did() {
    assert_eq!(handoff_action(&record()), "Reused the committed mesh · operator reassembled");
    assert_eq!(
        handoff_action(&HandoffRecord { adapted: true, ..record() }),
        "Adapted mesh · operator reassembled"
    );
    let carve =
        CarveReport { kept_triangles: 15, removed_triangles: 4, inserted_triangles: 3 };
    assert_eq!(
        handoff_action(&HandoffRecord {
            action: TopologyMeshUpdateAction::Repair(Artifact { id: 1 }),
            carve: Some(carve),
            ..record()
        }),
        "Mesh repaired: curve moved · kept 15 · removed 4 · inserted 3"
    );
    assert_eq!(
        handoff_action(&HandoffRecord {
            action: TopologyMeshUpdateAction::FullRebuild(
                TopologyFullRebuildReason::RepairFailed
            ),
            repair_fallback: Some("band too thin".to_string()),
            ..record()
        }),
        "Full rebuild: curve moved (band too thin)"
    );
    assert_eq!(
        handoff_field(&record()),
        "Field transferred · 30 of 40 nodes copied exactly · 40 dofs · 18 triangles"
    );
    assert_eq!(
        handoff_field(&HandoffRecord { fresh: true, ..record() }),
        "Fresh field · 40 dofs · 18 triangles"
    );
    assert_eq!(
        handoff_field(&HandoffRecord { transferred: false, ..record() }),
        "Field preserved in place · 40 dofs · 18 triangles"
    );
}

#[test]
fn the_diagnostics_count_what_there_is() {
    let token =
        TopologyToken { document_revision: 4, topology_revision: 3, mesh_generation: 2 };
    assert_eq!(
        token_text(Some(token)),
        "Committed token: document 4 · topology 3 · mesh generation 2"
    );
    assert_eq!(token_text(None), "No committed topology");
    assert_eq!(document_text(9, 2, 3), "Document revision 9 · 2 curves · 3 authored regions");
    assert_eq!(mesh_text(50, 80, 2), "50 vertices · 80 triangles · 2 active regions");
    let report = SolutionIndicatorReport {
        refine_candidates: 7,
        error_refine_candidates: 4,
        limit_refine_candidates: 3,
        coarsen_candidates: 2,
        work_units: 100,
        global_indicator: n(0.1),
        total_energy: n(1.0),
        dormant: false,
    };
    assert_eq!(
        candidates_text(report),
        "Refine candidates 7 (4 error, 3 limit) · coarsen candidates 2 · 100 work units"
    );
    let report = MeshAdaptationReport {
        topology_changes: 9,
        coarsening_changes: 4,
        skipped_collapses: 1,
        refine_passes: 1,
        collapse_passes: 1,
        work_units: 10,
        original_triangles: 100,
        preserved_triangles: 80,
        remaining_oversized_triangles: 0,
    };
    assert_eq!(
        adaptation_text(report),
        "Last adaptation: 5 refinements · 4 coarsenings · 1 rejected collapses"
    );
}

#[test]
fn one_capture_runs_at_a_time() {
    let idle = Captures { snapshot: SnapshotState::Idle, recording: RecordingState::Idle };
    assert!(idle.capture_ready());
    assert_eq!(idle.recording_command(), Some(RecordingCommand::Start));
    assert_eq!(idle.status("0:01"), None);
    let armed = Captures { snapshot: SnapshotState::Armed, ..idle };
    assert_eq!(armed.recording_command(), None);
    assert_eq!(armed.status(""), Some("Capturing snapshot…".to_string()));
    let (taken, after) = armed.take_snapshot();
    assert!(taken && after.snapshot == SnapshotState::Capturing);
    assert!(!after.take_snapshot().0);
    let preparing = Captures { recording: RecordingState::Preparing, ..idle };
    assert!(preparing.starts_recorder());
    assert_eq!(preparing.recording_label(), "Preparing recording…");
    assert_eq!(preparing.recorder_started(false), idle);
    let starting = preparing.recorder_started(true);
    assert_eq!(starting.recording, RecordingState::Starting);
    assert!(starting.follows_viewport());
    let rolling = Captures { recording: RecordingState::Recording, ..idle };
    assert_eq!(rolling.recording_command(), Some(RecordingCommand::Stop));
    assert_eq!(rolling.status("0:07"), Some("● REC 0:07".to_string()));
    assert!(rolling.records_frame(Some(4), Some(3), 1, 3, true));
    assert!(!rolling.records_frame(Some(4), Some(4), 1, 3, true));
    assert!(!rolling.records_frame(Some(4), None, 3, 3, true));
    assert!(!rolling.records_frame(None, None, 0, 3, true));
    assert_eq!(dropped_frames_text(0), None);
    assert_eq!(dropped_frames_text(3), Some("3 dropped".to_string()));
}

#[test]
fn a_link_wins_over_what_was_saved() {
    assert!(matches!(launch(LaunchSource::Link(Ok(5))), Launch::Load(5)));
    match launch::<u8>(LaunchSource::Link(Err("bad link".to_string()))) {
        Launch::Report(error) => assert_eq!(error, "bad link"),
        other => panic!("{other:?}"),
    }
    assert!(matches!(launch(LaunchSource::Recovered(Some(6))), Launch::Load(6)));
    assert!(matches!(launch::<u8>(LaunchSource::Recovered(None)), Launch::RandomExample));
}

#[test]
fn the_inspector_floats_on_a_narrow_layout() {
    assert!(folds_panels(n(1079.0)) && !folds_panels(n(1080.0)));
    let view = Some(InspectorPanel::View);
    assert_eq!(toggle_panel(view, InspectorPanel::View), None);
    assert_eq!(toggle_panel(view, InspectorPanel::Edit), Some(InspectorPanel::Edit));
    assert_eq!(side_panel(None, n(900.0), false), SidePanel::Hidden);
    assert_eq!(side_panel(view, n(900.0), true), SidePanel::Docked(InspectorPanel::View));
    assert_eq!(side_panel(view, n(600.0), false), SidePanel::Floating(InspectorPanel::View));
    assert_eq!(side_panel(view, n(600.0), true), SidePanel::Hidden);
    assert!(palette_shown(true, false) && !palette_shown(true, true));
    assert_eq!(run_label(true), "Pause");
    let named = vec![NamedMaterial { id: 3, name: "Glass".to_string() }];
    assert_eq!(selected_material_name(&named, 3), "Glass");
    assert_eq!(selected_material_name(&named, 4), "Missing");
}

#[test]
fn the_outer_boundary_is_a_selection_of_its_own() {
    let outer = select_outer_boundary();
    assert!(outer_boundary_selected(&outer));
    assert_eq!(outer.spans().unwrap().len(), 4);
    let curve = TopologyCurve {
        id: 1,
        spline: CurveSpline::Closed(SplineData {
            controls: vec![p(0.0, 0.0)],
            intervals: vec![],
            multiplicities: vec![],
            span_bounds: vec![],
        }),
        nodes: vec![],
        spans: vec![
            CurveSpan { id: 10, behavior: SpanBehavior::Transmitting },
            CurveSpan { id: 11, behavior: SpanBehavior::Transmitting },
        ],
    };
    assert!(!curve_selected(&outer, &curve));
    let mut spans = SpanSet::new();
    spans.insert(TopologySpanTarget::Curve(10));
    spans.insert(TopologySpanTarget::Outer(OuterSide::Top));
    let mut selection = TopologySelection::Spans(spans);
    assert!(!outer_boundary_selected(&selection));
    assert!(!curve_selected(&selection, &curve));
    if let TopologySelection::Spans(spans) = &mut selection {
        spans.insert(TopologySpanTarget::Curve(11));
    }
    assert!(curve_selected(&selection, &curve));
}

#[test]
fn a_coefficient_is_edited_as_a_constant_or_a_formula() {
    let mut editor =
        FieldEditor { field: ScalarField::Constant(n(2.0)), edit: None, error: None };
    editor.switch_to_formula("2".to_string());
    assert!(matches!(&editor.field, ScalarField::Formula(source) if source == "2"));
    editor.commit_formula("x - 5".to_string(), Ok(n(-5.0)), n(0.0), "Too small".to_string());
    assert_eq!(editor.error, Some("Too small".to_string()));
    assert!(matches!(&editor.field, ScalarField::Formula(source) if source == "2"));
    editor.commit_formula("x +".to_string(), Err("unexpected end".to_string()), n(0.0), String::new());
    assert_eq!(editor.error, Some("unexpected end".to_string()));
    editor.commit_formula("1 + x".to_string(), Ok(n(1.0)), n(0.0), String::new());
    assert_eq!(editor.error, None);
    editor.switch_to_constant(Ok(n(-1.0)), n(0.0), "0");
    assert_eq!(editor.error, Some("Value must be at least 0".to_string()));
    editor.switch_to_constant(Ok(n(1.0)), n(0.0), "0");
    assert!(matches!(editor.field, ScalarField::Constant(found) if found == n(1.0)));
    assert!(editor.edit.is_none() && editor.error.is_none());
}

#[test]
fn a_readback_is_shown_once_and_only_whole() {
    let facts = DisplayFacts {
        active: true,
        solver_generation: 5,
        requested_generation: 5,
        degrees_of_freedom: 40,
        primary_flux: 40,
        previous_primary_flux: 40,
        constitutive_force: 40,
        readbacks: 9,
        full_readback_at: 9,
        shown_generation: 4,
        shown_readbacks: 9,
    };
    let update = refresh_canonical_wave_display(facts).unwrap();
    assert!(update.reset && update.full);
    assert_eq!((update.generation, update.readbacks), (5, 9));
    let shown = DisplayFacts { shown_generation: 5, ..facts };
    assert!(refresh_canonical_wave_display(shown).is_none());
    let next = DisplayFacts { readbacks: 10, ..shown };
    let update = refresh_canonical_wave_display(next).unwrap();
    assert!(!update.reset && !update.full);
    assert!(refresh_canonical_wave_display(DisplayFacts { primary_flux: 39, ..facts }).is_none());
    assert!(refresh_canonical_wave_display(DisplayFacts { active: false, ..facts }).is_none());
    assert!(
        refresh_canonical_wave_display(DisplayFacts { requested_generation: 6, ..facts }).is_none()
    );
}

#[test]
fn auxiliary_values_are_aligned_with_the_field() {
    let active = vec![true, true, false];
    let prescribed = vec![false, true, false];
    assert_eq!(
        aligned_indicator_auxiliary(n(0.1), 3, 3, &active, &prescribed, 4),
        Some(vec![true, false, false])
    );
    assert_eq!(
        aligned_indicator_auxiliary(n(0.1), 3, 3, &active, &prescribed, 0),
        Some(vec![false, false, false])
    );
    assert_eq!(aligned_indicator_auxiliary(n(0.0), 3, 3, &active, &prescribed, 4), None);
    assert_eq!(aligned_indicator_auxiliary(n(0.1), 2, 3, &active, &prescribed, 4), None);
}

fn bar() -> TopBar {
    TopBar {
        inspector: None,
        examples_open: false,
        file_busy: false,
        fit: false,
        draw_open: false,
        reset_requested: false,
        wave_step: false,
        wave_running: false,
        closed_purpose: ClosedPurpose::Subdomain,
        open_purpose: OpenPurpose::Separator,
        material_selection: 1,
    }
}

fn idle() -> Captures {
    Captures { snapshot: SnapshotState::Idle, recording: RecordingState::Idle }
}

#[test]
fn a_press_on_the_bar_does_what_its_button_says() {
    let mut bar = bar();
    for (button, action) in [
        (BarButton::Undo, BarAction::Undo),
        (BarButton::Redo, BarAction::Redo),
        (BarButton::NewScene, BarAction::NewScene),
        (BarButton::Save, BarAction::Save),
        (BarButton::CopyLink, BarAction::CopyLink),
        (BarButton::ExportPicture, BarAction::ExportPicture),
    ] {
        let before = bar;
        assert_eq!(bar.press(button, idle()), action);
        assert_eq!(bar, before);
    }
    assert_eq!(bar.press(BarButton::Open, idle()), BarAction::Load);
    assert!(bar.file_busy);
    for button in [BarButton::Examples, BarButton::FitView, BarButton::Reset, BarButton::Step] {
        assert_eq!(bar.press(button, idle()), BarAction::Nothing);
    }
    assert!(bar.examples_open && bar.fit && bar.reset_requested && bar.wave_step);
    bar.press(BarButton::Run, idle());
    assert!(bar.wave_running);
    bar.press(BarButton::Run, idle());
    assert!(!bar.wave_running);
    bar.press(BarButton::Panel(InspectorPanel::View), idle());
    assert_eq!(bar.inspector, Some(InspectorPanel::View));
    bar.press(BarButton::Panel(InspectorPanel::Edit), idle());
    assert_eq!(bar.inspector, Some(InspectorPanel::Edit));
    bar.press(BarButton::Panel(InspectorPanel::Edit), idle());
    assert_eq!(bar.inspector, None);
}

fn interaction() -> Interaction {
    Interaction {
        selection: TopologySelection::Nothing,
        selected_probe: None,
        drag: None,
        gizmo_pivot: None,
        sampled_revision: 3,
        message: String::new(),
    }
}

#[test]
fn the_draw_palette_outlives_the_gesture_it_starts() {
    let captures = idle();
    let mut bar = TopBar { draw_open: true, ..bar() };
    let mut draw = None;
    if let BarAction::BeginDraw(tool) = bar.press(BarButton::Tool(DrawTool::Circle), captures) {
        draw = Some(interaction().begin_draw(tool));
    }
    assert!(draw.is_some_and(|draw| draw.tool == DrawTool::Circle && draw.points.is_empty()));
    assert!(bar.draw_open, "the palette closes only when it is closed");
    let action = bar.press(BarButton::Tool(DrawTool::Polyline), captures);
    assert_eq!(action, BarAction::BeginDraw(DrawTool::Polyline));
    assert!(bar.draw_open && palette_shown(bar.draw_open, false));
}

#[test]
fn the_palette_offers_a_material_to_subdomains_alone() {
    let mut bar = bar();
    let material = BarButton::Material(4);
    assert!(!bar.offers(material, idle(), false));
    bar.press(BarButton::Draw, idle());
    assert!(bar.offers(material, idle(), false) && !bar.offers(material, idle(), true));
    bar.press(material, idle());
    assert_eq!(bar.material_selection, 4);
    bar.press(BarButton::Closed(ClosedPurpose::Hole), idle());
    assert!(!bar.offers(material, idle(), false));
    bar.press(BarButton::Opened(OpenPurpose::Baffle), idle());
    assert_eq!((bar.closed_purpose, bar.open_purpose), (ClosedPurpose::Hole, OpenPurpose::Baffle));
    bar.press(BarButton::ClosePalette, idle());
    assert!(!bar.draw_open);
}

#[test]
fn the_recording_button_follows_the_captures() {
    let mut bar = bar();
    assert!(bar.offers(BarButton::Recording, idle(), false));
    assert_eq!(bar.press(BarButton::Recording, idle()), BarAction::StartRecording);
    let rolling = Captures { recording: RecordingState::Recording, ..idle() };
    assert!(bar.offers(BarButton::Recording, rolling, false));
    assert!(!bar.offers(BarButton::ExportPicture, rolling, false));
    assert_eq!(bar.press(BarButton::Recording, rolling), BarAction::StopRecording);
    let preparing = Captures { recording: RecordingState::Preparing, ..idle() };
    assert!(!bar.offers(BarButton::Recording, preparing, false));
    let picturing = Captures { snapshot: SnapshotState::Armed, ..idle() };
    assert!(!bar.offers(BarButton::Recording, picturing, false));
}

#[test]
fn the_first_frame_alone_styles_and_launches() {
    let mut session = Session {
        ready: false,
        startup_done: false,
        load: None,
        file_busy: false,
        message: String::new(),
    };
    assert_eq!(session.begin_frame(), FirstTimes { style: true, startup: true });
    assert_eq!(session.begin_frame(), FirstTimes { style: false, startup: false });
    assert!(session.launch(LaunchSource::Recovered(None)));
    assert!(session.load.is_none() && !session.file_busy);
    assert!(!session.launch(LaunchSource::Link(Err("broken link".to_string()))));
    assert_eq!(session.message, "broken link");
    assert!(!session.launch(LaunchSource::Recovered(Some(5))));
    assert_eq!(session.load, Some(5));
    assert!(session.file_busy);
}

#[test]
fn a_frame_ends_with_its_captures() {
    let mut recording = Recording {
        captures: Captures {
            snapshot: SnapshotState::Armed,
            recording: RecordingState::Preparing,
        },
        last_slot: None,
        in_flight: 0,
    };
    let end = recording.end_frame(true, None, 2, true);
    assert_eq!(end, FrameEnd { takes_picture: true, moves_recorder: true, records: false });
    assert_eq!(recording.captures.snapshot, SnapshotState::Capturing);
    assert_eq!(recording.captures.recording, RecordingState::Starting);
    recording.captures.recording = RecordingState::Recording;
    assert!(recording.end_frame(true, Some(7), 2, true).records);
    assert!(!recording.end_frame(true, Some(7), 2, true).records);
    assert!(!recording.end_frame(true, Some(8), 2, false).records);
    assert!(recording.end_frame(true, Some(8), 2, true).records);
    assert!(!recording.end_frame(true, Some(9), 2, true).records);
    recording.frame_arrived();
    assert!(recording.end_frame(true, Some(9), 2, true).records);
    recording.captures.recording = RecordingState::Preparing;
    let end = recording.end_frame(false, None, 2, true);
    assert!(!end.moves_recorder);
    assert_eq!(recording.captures.recording, RecordingState::Idle);
}
