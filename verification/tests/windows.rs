use funfern::adaptation::{AmrStatus, MeshAdaptationReport, SolutionIndicatorReport};
use funfern::capture::{Captures, RecordingState, SnapshotState};
use funfern::events::{EventLog, EventSource};
use funfern::model::PhysicsModel;
use funfern::preparation::{TopologyMeshUpdateAction, TopologyToken};
use funfern::readouts::{HandoffProgress, HandoffRecord, StepCeiling, TopologyAcceptance};
use funfern::scalar::Scalar;
use funfern::sections::{
    handoff_section, log_section, mesh_section, solver_section, status_bar, topology_section,
    AdaptationText, CommittedMesh, EstimateText, LastHandoff, Line, MeshSection, PreparingText,
    RunningSolver, SolverSection, StatusBar, Tone, TopologySection,
};
use funfern::windows::{Diagnostics, Gallery, FRAME_HISTORY};

fn n(value: f64) -> Scalar {
    Scalar { bits: value.to_bits() }
}

fn text(text: &str) -> String {
    text.to_string()
}

fn read(lines: Vec<Line>) -> Vec<(String, Tone)> {
    lines.into_iter().map(|line| (line.text, line.tone)).collect()
}

fn said(lines: &[(&str, Tone)]) -> Vec<(String, Tone)> {
    lines.iter().map(|(line, tone)| (text(line), *tone)).collect()
}

fn topology() -> TopologySection {
    TopologySection {
        acceptance: TopologyAcceptance::Valid,
        structure: text(""),
        revision: 9,
        curves: 2,
        regions: 3,
        committed: None,
        preparing: None,
        error: None,
    }
}

#[test]
fn the_topology_section_names_what_is_prepared() {
    assert_eq!(
        read(topology_section(&topology())),
        said(&[
            ("Draft accepted", Tone::Plain),
            ("Document revision 9 · 2 curves · 3 authored regions", Tone::Small),
            ("No committed topology", Tone::Small),
            ("No candidate in preparation", Tone::Small),
        ])
    );
    let preparing = TopologySection {
        acceptance: TopologyAcceptance::Invalid(text("curves cross")),
        structure: text("Crossing { span: 4 }"),
        committed: Some(TopologyToken {
            document_revision: 4,
            topology_revision: 3,
            mesh_generation: 2,
        }),
        preparing: Some(PreparingText {
            phase: text("Meshing"),
            detail: Some(text("refining")),
            timing: Some(text("CPU work 3.0 ms")),
        }),
        error: Some(text("mesh failed")),
        ..topology()
    };
    assert_eq!(
        read(topology_section(&preparing)),
        said(&[
            ("Draft invalid: Crossing { span: 4 }", Tone::Red),
            ("Document revision 9 · 2 curves · 3 authored regions", Tone::Small),
            ("Committed token: document 4 · topology 3 · mesh generation 2", Tone::Small),
            ("Preparing: refining", Tone::Small),
            ("CPU work 3.0 ms", Tone::Small),
            ("mesh failed", Tone::Red),
        ])
    );
    let candidate = TopologySection {
        acceptance: TopologyAcceptance::Pending,
        preparing: Some(PreparingText { phase: text("Ready"), detail: None, timing: None }),
        ..topology()
    };
    let lines = read(topology_section(&candidate));
    assert_eq!(lines[0], (text("Draft compiling"), Tone::Plain));
    assert_eq!(lines[3], (text("Candidate: Ready"), Tone::Small));
}

fn estimate(dormant: bool, wavelength: f64) -> EstimateText {
    EstimateText {
        report: SolutionIndicatorReport {
            refine_candidates: 70,
            error_refine_candidates: 40,
            limit_refine_candidates: 0,
            coarsen_candidates: 0,
            work_units: 100,
            global_indicator: n(0.5),
            total_energy: n(1.0),
            dormant,
        },
        minimum_indicator: text("1e-3"),
        maximum_indicator: text("2e-1"),
        minimum_target: text("0.010"),
        maximum_target: text("0.200"),
        whole_field: text("50.00"),
        accuracy: text("12"),
        primary: text("a"),
        complementary: text("b"),
        cell: text("c"),
        jump: text("d"),
        boundary: text("e"),
        wavelength: n(wavelength),
        wavelength_text: text("0.0500"),
    }
}

#[test]
fn the_mesh_section_follows_the_adaptation() {
    let bare = MeshSection {
        mesh: None,
        status: AmrStatus::Off,
        target_accuracy: n(0.12),
        coarsen_below: n(0.06),
        estimate: None,
        adaptation: None,
        error: None,
    };
    assert_eq!(
        read(mesh_section(&bare)),
        said(&[("No committed mesh", Tone::Plain), ("Adaptation: off", Tone::Small)])
    );
    let full = MeshSection {
        mesh: Some(CommittedMesh {
            vertices: 50,
            triangles: 80,
            regions: 2,
            minimum_angle: text("30.1"),
            maximum_edge: text("0.200"),
            target_edge: text("0.150"),
        }),
        estimate: Some(estimate(false, 0.05)),
        adaptation: Some(AdaptationText {
            report: MeshAdaptationReport {
                topology_changes: 9,
                coarsening_changes: 4,
                skipped_collapses: 1,
                refine_passes: 2,
                collapse_passes: 3,
                work_units: 10,
                original_triangles: 100,
                preserved_triangles: 80,
                remaining_oversized_triangles: 6,
            },
            survived: text("80"),
        }),
        error: Some(text("estimate failed")),
        ..bare
    };
    assert_eq!(
        read(mesh_section(&full)),
        said(&[
            ("50 vertices · 80 triangles · 2 active regions", Tone::Plain),
            ("Minimum angle 30.1° · maximum edge 0.200 · target 0.150", Tone::Small),
            ("Adaptation: off", Tone::Small),
            ("Indicator 1e-3–2e-1 · target 0.010–0.200", Tone::Small),
            ("Whole field 50.00% · target 12% · refining", Tone::Small),
            (
                "Refine candidates 70 (40 error, 0 limit) · coarsen candidates 0 · 100 work units",
                Tone::Small
            ),
            (
                "Residual: primary a + complementary b recovery · cell c · jump d · boundary e",
                Tone::Small
            ),
            ("Forced wavelength wants 0.0500", Tone::Small),
            ("Last adaptation: 5 refinements · 4 coarsenings · 1 rejected collapses", Tone::Small),
            ("2 refine passes · 3 coarsen passes · 10 work units", Tone::Small),
            ("80% of the source triangles survived · 6 still oversized", Tone::Small),
            ("estimate failed", Tone::Red),
        ])
    );
    let quiet = MeshSection { estimate: Some(estimate(true, f64::INFINITY)), ..full };
    let lines = read(mesh_section(&quiet));
    assert_eq!(
        lines[4],
        (text("Whole field dormant · relative error suppressed"), Tone::Small)
    );
    assert!(lines.iter().all(|(line, _)| !line.starts_with("Forced wavelength")));
}

#[test]
fn the_handoff_section_keeps_the_last_one() {
    let idle = HandoffProgress {
        uploading: false,
        committing_source: false,
        packing: None,
        ready: false,
        preparing: false,
        backlog: 0,
    };
    let running = "The committed field keeps running until a candidate is acknowledged.";
    assert_eq!(
        read(handoff_section(idle, &None)),
        said(&[
            ("Idle", Tone::Plain),
            (running, Tone::Small),
            ("No handoff has completed yet.", Tone::Small),
        ])
    );
    let last = LastHandoff {
        record: HandoffRecord {
            action: TopologyMeshUpdateAction::Reuse,
            reason: text(""),
            operator_reused: true,
            adapted: false,
            transferred: false,
            exact_nodes: 0,
            fresh: true,
            degrees_of_freedom: 40,
            triangles: 18,
            carve: None,
            repair_fallback: None,
        },
        prepare: text("1.0"),
        pack: text("2.0"),
        drain: text("3.0"),
        upload: text("4.0"),
        timing: text("CPU work 1.0 ms"),
    };
    assert_eq!(
        read(handoff_section(idle, &Some(last)))[2..],
        said(&[
            (
                "Last handoff: prepare 1.0 ms · pack 2.0 ms · drain 3.0 ms · upload 4.0 ms",
                Tone::Small
            ),
            ("CPU work 1.0 ms", Tone::Small),
            ("Reused the committed mesh · operator reused", Tone::Small),
            ("Fresh field · 40 dofs · 18 triangles", Tone::Small),
        ])[..]
    );
}

#[test]
fn the_solver_section_says_what_runs() {
    let waiting = SolverSection {
        gpu_status: text("ready"),
        dispatches: 7,
        running_solver: None,
        physics: PhysicsModel::Mechanical,
        backlog: 5,
        steps_per_frame: 64,
        ready: false,
        uploading: true,
        running: true,
        energy: None,
    };
    assert_eq!(
        read(solver_section(&waiting)),
        said(&[
            ("GPU ready · 7 dispatches", Tone::Plain),
            ("Waiting for an accepted mesh and wave operator.", Tone::Small),
            (
                "Backlog 5 steps · 64 per frame ceiling · scheduling withheld for a pending handoff",
                Tone::Small
            ),
        ])
    );
    let driven = SolverSection {
        running_solver: Some(RunningSolver {
            degrees_of_freedom: 40,
            storage: text("1.25"),
            time_step: text("1.000e-3"),
            step_rate: text("600"),
            speed: text("0.60"),
            simulated_time: text("2.5000"),
            completed_steps: 2500,
            ceiling: Some(StepCeiling {
                primary_floor: n(1.0),
                complementary_floor: n(1.0),
                primary_text: text("1.00"),
                complementary_text: text("1.00"),
                ceiling_text: text("1.000e-3"),
                ratio_text: text("1.00"),
            }),
        }),
        uploading: false,
        energy: Some(text("3.000000e0")),
        ..waiting
    };
    assert_eq!(
        read(solver_section(&driven))[1..],
        said(&[
            ("40 dofs · 1.25 MiB canonical solver storage", Tone::Small),
            ("dt 1.000e-3 · 600 steps/s · 0.60 simulated s per wall s", Tone::Small),
            ("Simulated time 2.5000 s · 2500 completed steps", Tone::Small),
            (
                "Step ceiling 1.000e-3 s, the fixed medium's: no law here lowers it",
                Tone::Small
            ),
            ("Backlog 5 steps · 64 per frame ceiling · scheduling running", Tone::Small),
            (
                "Canonical discrete energy 3.000000e0 · bulk + gaps + outgoing memory",
                Tone::Small
            ),
        ])[..]
    );
}

#[test]
fn the_log_section_lists_the_newest_first() {
    let mut log = EventLog::new();
    assert_eq!(
        read(log_section(&log, &vec![])),
        said(&[("0 of 200", Tone::Weak), ("Nothing recorded yet", Tone::Weak)])
    );
    log.push_event(n(1.0), EventSource::Status, text("opened"));
    log.push_event(n(2.0), EventSource::Preparation, text("mesh failed"));
    log.push_event(n(3.0), EventSource::Repair, text("band too thin"));
    let stamps = vec![text("0:01"), text("0:02"), text("0:03")];
    let lines = read(log_section(&log, &stamps));
    assert_eq!(lines[0], (text("3 of 200"), Tone::Weak));
    let tones: Vec<Tone> = lines[1..].iter().map(|(_, tone)| *tone).collect();
    assert_eq!(tones, vec![Tone::Gold, Tone::Red, Tone::Small]);
    assert!(lines[1].0.starts_with("0:03") && lines[1].0.ends_with("band too thin"));
    assert!(lines[3].0.starts_with("0:01") && lines[3].0.ends_with("opened"));
}

#[test]
fn the_status_bar_reads_from_left_to_right() {
    let quiet = StatusBar {
        acceptance: TopologyAcceptance::Valid,
        phase: None,
        detail: None,
        captures: Captures { snapshot: SnapshotState::Idle, recording: RecordingState::Idle },
        elapsed: text("00:00"),
        dropped: 0,
        message: text(""),
        warning: false,
        summary: text("60 fps"),
    };
    assert_eq!(
        read(status_bar(&quiet)),
        said(&[("Simulation ready", Tone::Plain), ("60 fps", Tone::Plain)])
    );
    let busy = StatusBar {
        phase: Some(text("Meshing")),
        detail: Some(text("refining")),
        captures: Captures {
            snapshot: SnapshotState::Idle,
            recording: RecordingState::Recording,
        },
        elapsed: text("01:02"),
        dropped: 3,
        message: text("Opened"),
        warning: true,
        ..quiet
    };
    assert_eq!(
        read(status_bar(&busy)),
        said(&[
            ("refining", Tone::Plain),
            ("● REC 01:02", Tone::Red),
            ("3 dropped", Tone::Gold),
            ("Opened", Tone::Plain),
            ("60 fps", Tone::Plain),
            ("⚠", Tone::Gold),
        ])
    );
    let picture = StatusBar {
        captures: Captures { snapshot: SnapshotState::Saving, recording: RecordingState::Idle },
        ..busy
    };
    assert_eq!(
        read(status_bar(&picture))[1..3],
        said(&[("Capturing snapshot…", Tone::Gold), ("Opened", Tone::Plain)])[..]
    );
}

#[test]
fn the_diagnostics_remember_frames_and_see_errors() {
    let mut window =
        Diagnostics { open: false, log: EventLog::new(), history: std::collections::VecDeque::new() };
    let failed = Some(text("mesh failed"));
    assert!(!window.frame(n(0.0), n(16.0), &text(""), &failed, &None));
    assert!(window.log.unseen_error, "a closed window has seen nothing");
    window.toggle();
    assert!(window.frame(n(1.0), n(f64::NAN), &text(""), &failed, &None));
    assert!(!window.log.unseen_error);
    assert_eq!(window.history, vec![n(16.0)]);
    for frame in 0..FRAME_HISTORY {
        window.frame(n(2.0), n(1.0 + frame as f64), &text(""), &failed, &None);
    }
    assert_eq!(window.history.len(), FRAME_HISTORY);
    assert_eq!(window.history[0], n(1.0));
    assert_eq!(window.peak(), n(120.0));
    assert_eq!(window.percentile(113), n(114.0));
    assert_eq!(window.percentile(500), n(0.0));
}

#[test]
fn opening_an_example_leaves_the_gallery_open_and_marks_the_row() {
    let catalog = ["Empty room", "Double slit", "Luneburg lens"];
    let mut gallery = Gallery { open: true, opened: None };
    let index = catalog.iter().position(|name| *name == "Double slit").unwrap();
    let mut document = None;
    let mut set_document = |scene: Option<usize>| -> Result<(), String> {
        document = scene;
        Ok(())
    };
    let notice = gallery.open_example(index, catalog[index], set_document(Some(index)));
    assert_eq!(notice, "Opened Double slit");
    assert!(gallery.open, "the gallery closed on a pick");
    assert_eq!(gallery.opened, Some(index));
    assert!(gallery.marks(index) && !gallery.marks(index + 1));
    assert_eq!(document.map(|scene| catalog[scene]), Some("Double slit"));
    assert_eq!(gallery.new_scene(Ok(())), "New scene");
    assert_eq!(gallery.opened, None, "the marker outlived its scene");
}

#[test]
fn a_refused_document_leaves_the_marker() {
    let mut gallery = Gallery { open: true, opened: Some(4) };
    assert_eq!(gallery.open_example(1, "Lens", Err(text("too large"))), "too large");
    assert_eq!(gallery.new_scene(Err(text("too large"))), "too large");
    assert_eq!(gallery.open_random_example(2, Err(text("too large"))), Some(text("too large")));
    assert_eq!(gallery, Gallery { open: true, opened: Some(4) });
    assert_eq!(gallery.open_random_example(2, Ok(())), None);
    assert_eq!(gallery.opened, Some(2));
    gallery.close();
    assert!(!gallery.open);
}
