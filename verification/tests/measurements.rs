use funfern::model::{
    CurveNode, CurveSpan, CurveSpline, CurveTraceSide, DomainRect, FaceBoundaryCondition,
    InternalBoundaryCoupling, MaterialOverlay, MaterialProperty, OuterBoundaryCondition,
    OuterBoundaryConditions, PhysicsModel, PointSource, PresentationSettings,
    ProbeSamplingPreset, Rgb, ScalarField, SpanBehavior, SplineData, TimeSignal,
    TopologyBoundaryProbeTarget, TopologyCurve, TopologyGeometry, TopologyProbeDefinition,
    TopologyProbeTarget, TopologyScene, VectorOverlay, VolumeSource, AdaptationSettings,
    CoefficientLaw, FieldLaw, Material, MaterialFrame, MaterialFrameAttachment, Region,
    RestoringLaw, TimeDrive,
};
use funfern::gesture::selected_material_frame;
use funfern::labels::InspectorPanel;
use funfern::overlay::{
    first_reaching, forcing_signals, highest_forcing_frequency, lay_out_arrows,
    material_overlay_range, probes_need_upload, recorder_pairing, starts_from_zero,
    vector_overlay_lattice, vector_overlay_layout, vector_overlay_revision_owned, with_apron,
    VectorLattice, ArrowCandidate, CellKey,
    OverlayFrame, OverlayKey, OverlayRange, OverlayState, OverlayStep, ProbeUpload,
    VectorOverlayLayout, VisibleBins,
};
use funfern::attachment::{faces_of_region, FaceAssignment};
use funfern::preparation::{Artifact, TopologyToken, WaveModel};
use funfern::preview::{
    build_example_preview, crossing_edges, face_paint, face_spans, CellColor, MeasuredCell,
    PreviewFace, ShadedFace,
};
use funfern::preparation_job::{ForcingChange, SceneComparison};
use funfern::probe_sampling::{
    compile_boundary_probe, compile_probe, PathMeasure, StencilBase, StencilSite,
    TopologyProbeStencil,
};
use funfern::probes::{
    boundary_probe_path, check_path, compile_probes_reusing, forcing_change,
    sampled_piece, source_membership, ActiveProbes, CompiledTopologyProbe, ForcingSource,
    PlannedBoundary, PlannedBoundarySource, TopologyProbeCompilation,
};
use funfern::scalar::{Point2, Scalar};
use funfern::scene_equality::{enabled_signals, volume_source_layout_eq};
use std::collections::BTreeSet;

fn n(value: f64) -> Scalar {
    Scalar { bits: value.to_bits() }
}

fn p(x: f64, y: f64) -> Point2 {
    Point2 { x: n(x), y: n(y) }
}

fn artifact(id: u64) -> Artifact {
    Artifact { id }
}

fn probe(id: u64, x: f64, enabled: bool) -> TopologyProbeDefinition {
    TopologyProbeDefinition {
        id,
        name: format!("probe {id}"),
        color: Rgb { red: 1, green: 2, blue: 3 },
        enabled,
        target: TopologyProbeTarget::Point(p(x, 0.0)),
    }
}

#[test]
fn an_unchanged_probe_keeps_its_compiled_form() {
    let active = Some(ActiveProbes {
        definitions: vec![probe(1, 0.1, true), probe(2, 0.2, true)],
        compiled: vec![
            CompiledTopologyProbe { id: 1, result: TopologyProbeCompilation::Ready(artifact(91)) },
            CompiledTopologyProbe { id: 2, result: TopologyProbeCompilation::Ready(artifact(92)) },
        ],
    });
    let build = |probe: &TopologyProbeDefinition| {
        if probe.id == 4 {
            Err("outside the mesh".to_string())
        } else {
            Ok(artifact(probe.id))
        }
    };
    let probes = vec![
        probe(1, 0.1, true),
        probe(2, 0.25, true),
        probe(3, 0.3, false),
        probe(4, 9.0, true),
    ];
    let compiled = compile_probes_reusing(&probes, &active, build);
    assert!(matches!(compiled[0].result, TopologyProbeCompilation::Ready(kept) if kept.id == 91));
    assert!(matches!(compiled[1].result, TopologyProbeCompilation::Ready(new) if new.id == 2));
    assert!(matches!(compiled[2].result, TopologyProbeCompilation::Disabled));
    match &compiled[3].result {
        TopologyProbeCompilation::Failed(issue) => assert_eq!(issue, "outside the mesh"),
        other => panic!("{other:?}"),
    }
    let fresh = compile_probes_reusing(&probes, &None, build);
    assert!(matches!(fresh[0].result, TopologyProbeCompilation::Ready(new) if new.id == 1));
}

/// Measures a path at evenly spread samples.
fn measure(path: &Vec<PlannedBoundary>, samples: usize) -> PathMeasure {
    let f = |number: Scalar| f64::from_bits(number.bits);
    let lengths: Vec<f64> = path
        .iter()
        .map(|piece| (f(piece.to.x) - f(piece.from.x)).hypot(f(piece.to.y) - f(piece.from.y)))
        .collect();
    let total: f64 = lengths.iter().sum();
    let remaining = (0..samples)
        .map(|sample| {
            let mut left = total * sample as f64 / (samples - 1) as f64;
            lengths
                .iter()
                .map(|length| {
                    let here = left;
                    left -= length;
                    n(here)
                })
                .collect()
        })
        .collect();
    PathMeasure { lengths: lengths.into_iter().map(n).collect(), total: n(total), remaining }
}

fn base() -> StencilBase {
    StencilBase {
        mesh: artifact(201),
        operator: artifact(202),
        plan: artifact(203),
        model: WaveModel::Stripped(artifact(204)),
    }
}

fn segment(preset: ProbeSamplingPreset) -> TopologyProbeTarget {
    TopologyProbeTarget::Segment { start: p(0.0, 0.0), end: p(1.0, 0.0), preset }
}

#[test]
fn a_line_fails_with_its_first_point_that_does() {
    let build = |_: StencilBase, site: StencilSite| match site {
        StencilSite::Along { step, .. } if step >= 5 => Err(format!("step {step}")),
        StencilSite::Along { step, .. } => Ok(artifact(step as u64)),
        other => panic!("{other:?}"),
    };
    let target = segment(ProbeSamplingPreset::Low);
    let compiled = compile_probe(&target, &vec![], &vec![], &measure, base(), &build);
    assert_eq!(compiled.unwrap_err(), "step 5");
}

#[test]
fn a_segment_is_sampled_from_its_start_to_its_end() {
    let build = |_: StencilBase, site: StencilSite| match site {
        StencilSite::Along { start, end, step, steps } => {
            assert_eq!((start, end, steps), (p(0.0, 0.0), p(1.0, 0.0), 63));
            Ok(artifact(step as u64))
        }
        other => panic!("{other:?}"),
    };
    let target = segment(ProbeSamplingPreset::Medium);
    match compile_probe(&target, &vec![], &vec![], &measure, base(), &build).unwrap() {
        TopologyProbeStencil::Segment(points) => {
            assert_eq!(points.len(), 64);
            assert_eq!((points[0].id, points[63].id), (0, 63));
        }
        other => panic!("{other:?}"),
    }
}

#[test]
fn a_probe_of_one_stencil_is_built_where_it_stands() {
    let build = |_: StencilBase, site: StencilSite| match site {
        StencilSite::Point(point) => Ok(artifact(u64::from(point == p(0.5, 0.5)))),
        StencilSite::Disk { radius, .. } if radius == n(0.25) => Ok(artifact(2)),
        StencilSite::Region(region) => Err(format!("region {region} is gone")),
        other => panic!("{other:?}"),
    };
    let compile = |target| compile_probe(&target, &vec![], &vec![], &measure, base(), &build);
    assert!(matches!(
        compile(TopologyProbeTarget::Point(p(0.5, 0.5))),
        Ok(TopologyProbeStencil::Point(stencil)) if stencil.id == 1
    ));
    assert!(matches!(
        compile(TopologyProbeTarget::AreaDisk { center: p(0.0, 0.0), radius: n(0.25) }),
        Ok(TopologyProbeStencil::Area(stencil)) if stencil.id == 2
    ));
    let refused = compile(TopologyProbeTarget::AreaRegion(4));
    assert_eq!(refused.unwrap_err(), "region 4 is gone");
}

#[test]
fn a_boundary_probe_reads_along_its_path_in_its_direction() {
    let boundaries = vec![
        piece(72, 1.0, CurveTraceSide::Left),
        piece(71, 0.0, CurveTraceSide::Left),
        piece(71, 0.5, CurveTraceSide::Left),
    ];
    let curves = vec![curve(7, &[71, 72])];
    let compile = |reversed: bool, first: Scalar, last: Scalar| {
        let target = TopologyBoundaryProbeTarget {
            curve: 7,
            spans: vec![71, 72],
            side: CurveTraceSide::Left,
            reversed,
            preset: ProbeSamplingPreset::Low,
        };
        let build = |_: StencilBase, site: StencilSite| match site {
            StencilSite::Boundary(sample) => {
                assert_eq!((sample.curve, sample.side), (7, CurveTraceSide::Left));
                assert_eq!((sample.length, sample.period), (n(0.5), n(1.0)));
                let forward = f64::from_bits(sample.from.bits) < f64::from_bits(sample.to.bits);
                assert_eq!(forward, !reversed);
                if sample.distance == n(0.0) && sample.from == first {
                    return Ok(artifact(1));
                }
                Ok(artifact(if sample.to == last { sample.span } else { 0 }))
            }
            other => panic!("{other:?}"),
        };
        compile_boundary_probe(&target, &curves, &boundaries, &measure, base(), &build).unwrap()
    };
    let forward = compile(false, n(0.0), n(1.5));
    assert_eq!((forward.len(), forward[0].id, forward[31].id), (32, 1, 72));
    let backward = compile(true, n(1.5), n(0.0));
    assert_eq!((backward.len(), backward[0].id, backward[31].id), (32, 1, 71));
}

#[test]
fn every_kind_of_probe_is_built_on_one_base() {
    let boundaries = vec![piece(71, 0.0, CurveTraceSide::Left)];
    let curves = vec![curve(7, &[71])];
    let build = |given: StencilBase, _: StencilSite| {
        assert_eq!(given, base());
        Ok(artifact(1))
    };
    let targets = vec![
        TopologyProbeTarget::Point(p(0.5, 0.5)),
        segment(ProbeSamplingPreset::Low),
        TopologyProbeTarget::AreaRegion(4),
        TopologyProbeTarget::Boundary(TopologyBoundaryProbeTarget {
            curve: 7,
            spans: vec![71],
            side: CurveTraceSide::Left,
            reversed: false,
            preset: ProbeSamplingPreset::Low,
        }),
    ];
    for target in targets {
        compile_probe(&target, &curves, &boundaries, &measure, base(), &build).unwrap();
    }
}

#[test]
fn a_boundary_probe_without_spans_is_degenerate() {
    let target = TopologyBoundaryProbeTarget {
        curve: 7,
        spans: vec![],
        side: CurveTraceSide::Left,
        reversed: false,
        preset: ProbeSamplingPreset::Low,
    };
    let build = |_: StencilBase, _: StencilSite| Ok(artifact(1));
    let curves = vec![curve(7, &[71])];
    assert_eq!(
        compile_boundary_probe(&target, &curves, &vec![], &measure, base(), &build).unwrap_err(),
        "Boundary probe path is degenerate"
    );
}

fn curve(id: u64, spans: &[u64]) -> TopologyCurve {
    TopologyCurve {
        id,
        spline: CurveSpline::Open(SplineData {
            controls: vec![p(0.0, 0.0); 4],
            intervals: vec![n(1.0); spans.len()],
            multiplicities: vec![],
            span_bounds: vec![(n(0.0), n(1.0)); spans.len()],
        }),
        nodes: vec![CurveNode { vertex: None }],
        spans: spans
            .iter()
            .map(|id| CurveSpan { id: *id, behavior: SpanBehavior::Transmitting })
            .collect(),
    }
}

fn piece(span: u64, start: f64, side: CurveTraceSide) -> PlannedBoundary {
    PlannedBoundary {
        source: PlannedBoundarySource::Curve { curve: 7, span, side },
        start: n(start),
        end: n(start + 0.5),
        from: p(start, 0.0),
        to: p(start + 0.5, 0.0),
        separated: false,
        region: 1,
    }
}

#[test]
fn a_boundary_probe_follows_its_spans_on_its_side() {
    let boundaries = vec![
        piece(71, 0.5, CurveTraceSide::Left),
        piece(71, 0.0, CurveTraceSide::Left),
        piece(71, 0.0, CurveTraceSide::Right),
        piece(72, 1.0, CurveTraceSide::Left),
    ];
    let target = |spans: Vec<u64>, reversed: bool, curve: u64| TopologyBoundaryProbeTarget {
        curve,
        spans,
        side: CurveTraceSide::Left,
        reversed,
        preset: ProbeSamplingPreset::Low,
    };
    let curves = vec![curve(7, &[71, 72])];
    let starts = |path: Vec<PlannedBoundary>| -> Vec<f64> {
        path.iter().map(|piece| f64::from_bits(piece.start.bits)).collect()
    };
    let path = boundary_probe_path(&target(vec![71, 72], false, 7), &curves, &boundaries).unwrap();
    assert_eq!(starts(path), vec![0.0, 0.5, 1.0]);
    let path = boundary_probe_path(&target(vec![71, 72], true, 7), &curves, &boundaries).unwrap();
    assert_eq!(starts(path), vec![1.0, 0.5, 0.0]);
    assert_eq!(
        boundary_probe_path(&target(vec![73], false, 7), &curves, &boundaries).unwrap_err(),
        "Boundary probe span has no active trace"
    );
    assert_eq!(
        boundary_probe_path(&target(vec![71], false, 8), &curves, &boundaries).unwrap_err(),
        "Boundary probe curve is missing"
    );
}

#[test]
fn a_path_needs_a_length_and_a_period() {
    assert_eq!(check_path(n(2.0), Some(n(4.0))), Ok(n(4.0)));
    assert_eq!(
        check_path(n(0.0), Some(n(4.0))).unwrap_err(),
        "Boundary probe path is degenerate"
    );
    for period in [None, Some(n(0.0)), Some(n(f64::INFINITY))] {
        assert_eq!(
            check_path(n(2.0), period).unwrap_err(),
            "Boundary probe curve has an invalid period"
        );
    }
    let lengths = vec![n(1.0), n(1.0), n(1.0)];
    assert_eq!(sampled_piece(&vec![n(0.5), n(-0.5), n(-1.5)], &lengths), 0);
    assert_eq!(sampled_piece(&vec![n(2.5), n(1.5), n(0.5)], &lengths), 2);
    assert_eq!(sampled_piece(&vec![n(9.0), n(8.0), n(7.0)], &lengths), 2);
}

fn forcing(support: &[u64], weights: &[f64]) -> ForcingSource {
    ForcingSource {
        support: support.to_vec(),
        weights: weights.iter().map(|weight| n(*weight)).collect(),
    }
}

#[test]
fn a_forcing_is_patched_by_as_little_as_changed() {
    let active = vec![forcing(&[1, 2], &[0.5, 0.5])];
    let same = vec![forcing(&[1, 2], &[0.5, 0.5])];
    let moved = vec![forcing(&[1, 2], &[0.25, 0.75])];
    let elsewhere = vec![forcing(&[1, 3], &[0.5, 0.5])];
    assert_eq!(forcing_change(true, true, &elsewhere, &active), ForcingChange::Unchanged);
    assert_eq!(forcing_change(false, true, &same, &active), ForcingChange::Drives);
    assert_eq!(forcing_change(false, true, &moved, &active), ForcingChange::Weights);
    assert_eq!(forcing_change(false, true, &elsewhere, &active), ForcingChange::Layout);
    assert_eq!(forcing_change(false, false, &same, &active), ForcingChange::Layout);
    assert_eq!(forcing_change(false, true, &vec![], &active), ForcingChange::Layout);
    assert_eq!(
        source_membership(4, &vec![1, 2], &vec![vec![0, 1], vec![1, 3]], 2),
        vec![false, true, false, true]
    );
}

fn settings() -> PresentationSettings {
    PresentationSettings {
        grid: true,
        control_polygons: true,
        handles: true,
        accepted_reference: false,
        boundary_conditions: true,
        mesh: false,
        mesh_boundaries: false,
        point_probes: true,
        line_probes: true,
        boundary_probes: true,
        area_probes: true,
        far_field_contour: true,
        probe_labels: true,
        field: true,
        simulation_speed: n(1.0),
        field_gain: n(2.0),
        field_auto_exposure: true,
        vector_overlay: VectorOverlay::Off,
        vector_overlay_ac_coupled: true,
        vector_overlay_density: n(54.0),
        vector_overlay_gain: n(1.0),
        material_overlay: MaterialOverlay::Off,
        material_overlay_opacity: n(0.5),
        material_overlay_auto_range: true,
        material_overlay_logarithmic: false,
        material_overlay_manual_min: n(0.0),
        material_overlay_manual_max: n(1.0),
        mesh_edge: n(0.09),
        adaptation: AdaptationSettings {
            enabled: true,
            accuracy_percent: n(12.0),
            elements_per_wavelength: n(6.0),
            minimum_edge: n(0.02),
            maximum_edge: n(0.25),
        },
        grid_scale_filter: true,
        advanced_materials: false,
    }
}

#[test]
fn an_overlay_is_computed_only_while_it_is_out_of_date() {
    let shown = OverlayFrame {
        overlay: MaterialOverlay::Property(MaterialProperty::Density),
        active: true,
        snapshot_current: false,
        job_current: false,
    };
    let mut state = OverlayState { job: None, snapshot: None, error: None };
    assert_eq!(state.refresh_material_overlay(shown), OverlayStep::Start);
    assert!(!state.job_started(Err("no material".to_string())));
    assert_eq!(state.error, Some("no material".to_string()));
    assert!(state.job_started(Ok(artifact(1))));
    let running = OverlayFrame { job_current: true, ..shown };
    assert_eq!(state.refresh_material_overlay(running), OverlayStep::Advance);
    state.job_advanced(None, true);
    assert_eq!(state.job, Some(artifact(1)));
    state.job_advanced(Some(artifact(2)), true);
    assert_eq!((state.job, state.snapshot), (None, Some(artifact(2))));
    let current = OverlayFrame { snapshot_current: true, ..shown };
    assert_eq!(state.refresh_material_overlay(current), OverlayStep::Done);
    state.job = Some(artifact(3));
    let off = OverlayFrame { overlay: MaterialOverlay::Regions, ..running };
    assert_eq!(state.refresh_material_overlay(off), OverlayStep::Done);
    assert_eq!(state.job, None);
    state.job = Some(artifact(4));
    state.job_advanced(Some(artifact(5)), false);
    assert_eq!(state.snapshot, Some(artifact(2)), "a stale overlay is not shown");
}

#[test]
fn a_range_is_measured_or_set_by_hand() {
    let measured = Some(OverlayRange { minimum: n(0.5), maximum: n(3.0) });
    assert_eq!(material_overlay_range(&settings(), measured), measured);
    let manual = PresentationSettings { material_overlay_auto_range: false, ..settings() };
    assert_eq!(
        material_overlay_range(&manual, measured),
        Some(OverlayRange { minimum: n(0.0), maximum: n(1.0) })
    );
    let empty = PresentationSettings { material_overlay_manual_max: n(0.0), ..manual };
    assert_eq!(material_overlay_range(&empty, measured), None);
}

#[test]
fn buffers_belong_to_one_generation_and_revision() {
    assert!(vector_overlay_revision_owned(2, 3, 2, 3, true));
    assert!(!vector_overlay_revision_owned(2, 3, 2, 4, true));
    assert!(!vector_overlay_revision_owned(2, 3, 2, 3, false));
    let layout = VectorOverlayLayout { generation: 2, revision: 3, points: 40 };
    assert!(layout.matches(2, 3, 40) && !layout.matches(2, 3, 41));
    let token = TopologyToken { document_revision: 1, topology_revision: 1, mesh_generation: 1 };
    assert!(probes_need_upload(None, token, 4));
    let upload = Some(ProbeUpload { token, generation: 4 });
    assert!(!probes_need_upload(upload, token, 4));
    assert!(probes_need_upload(upload, token, 5));
    assert!(probes_need_upload(upload, TopologyToken { mesh_generation: 2, ..token }, 4));
    assert_eq!(recorder_pairing(Some(1), Some("plan")), Some(Some((1, "plan"))));
    assert_eq!(recorder_pairing::<u8, u8>(None, None), Some(None));
    assert_eq!(recorder_pairing::<u8, u8>(Some(1), None), None);
    assert!(starts_from_zero(false, false, false));
    assert!(!starts_from_zero(true, false, false));
    assert!(starts_from_zero(true, false, true));
}

fn arrow(x: i64, y: i64, element: usize, distance: f64) -> ArrowCandidate {
    ArrowCandidate { key: CellKey { x, y }, element, centroid: p(0.0, 0.0), distance: n(distance) }
}

#[test]
fn a_cell_shows_the_element_nearest_to_its_middle() {
    let bins = VisibleBins { min_x: 0, max_x: 1, min_y: 0, max_y: 1 };
    let candidates = vec![
        arrow(1, 0, 0, 0.4),
        arrow(0, 1, 1, 0.3),
        arrow(1, 0, 2, 0.2),
        arrow(0, 1, 3, 0.3),
        arrow(5, 0, 4, 0.1),
        arrow(0, 0, 5, 0.9),
    ];
    let elements = |arrows: Vec<ArrowCandidate>| -> Vec<usize> {
        arrows.iter().map(|arrow| arrow.element).collect()
    };
    assert_eq!(elements(lay_out_arrows(&candidates, bins)), vec![5, 1, 2]);
    let known = vec![true; 6];
    let layout = |material: &Vec<bool>, nodes: usize, spacing: f64| {
        elements(vector_overlay_layout(material, nodes, n(spacing), &candidates, bins))
    };
    assert_eq!(layout(&known, 6, 0.1), vec![5, 1, 2]);
    assert!(layout(&known, 5, 0.1).is_empty());
    assert!(layout(&known, 6, 0.0).is_empty());
    let mut missing = known;
    missing[1] = false;
    assert_eq!(layout(&missing, 6, 0.1), vec![5, 2]);
    assert_eq!(
        with_apron(bins),
        VisibleBins { min_x: -1, max_x: 2, min_y: -1, max_y: 2 }
    );
    let edge = VisibleBins { min_x: i64::MIN, max_x: i64::MAX, ..bins };
    assert_eq!((with_apron(edge).min_x, with_apron(edge).max_x), (i64::MIN, i64::MAX));
    let lattice = |scale: f64, wanted: f64| {
        let spacings = vec![n(0.1), n(0.2), n(0.5), n(1.0)];
        let at = |_: Scalar| bins;
        vector_overlay_lattice(n(scale), n(20.0), p(0.0, 0.0), true, n(wanted), &spacings, at)
    };
    assert_eq!(
        lattice(100.0, 0.2),
        Some(VectorLattice { spacing: n(0.2), bins: with_apron(bins) })
    );
    assert_eq!(lattice(100.0, 1.5), None);
    assert_eq!(lattice(0.0, 0.2), None);
    assert_eq!(first_reaching(&vec![n(0.1), n(0.2), n(0.5)], n(0.2)), Some(1));
    assert_eq!(first_reaching(&vec![n(0.1)], n(0.2)), None);
}

fn signal(frequency: f64) -> TimeSignal {
    TimeSignal {
        offset: n(0.0),
        amplitude: n(1.0),
        frequency_hz: n(frequency),
        phase_radians: n(0.0),
    }
}

fn forced() -> TopologyScene {
    let mut wall = curve(7, &[71, 72]);
    wall.spans[1].behavior = SpanBehavior::Separated {
        left: FaceBoundaryCondition::Reflecting,
        right: FaceBoundaryCondition::Dirichlet { signal: signal(3.0) },
        coupling: InternalBoundaryCoupling::Independent,
    };
    let source = |frequency: f64, enabled: bool| VolumeSource {
        region: 1,
        enabled,
        profile: ScalarField::Constant(n(1.0)),
        parameters: vec![],
        signal: signal(frequency),
    };
    TopologyScene {
        geometry: TopologyGeometry {
            domain: DomainRect { min_x: n(-1.0), max_x: n(1.0), min_y: n(-1.0), max_y: n(1.0) },
            curves: vec![wall],
            vertices: vec![],
        },
        physics: PhysicsModel::Mechanical,
        materials: vec![],
        regions: vec![],
        face_assignments: vec![],
        volume_sources: vec![source(9.0, false), source(5.0, true)],
        outer_boundaries: OuterBoundaryConditions {
            bottom: OuterBoundaryCondition::Reflecting,
            right: OuterBoundaryCondition::Neumann { signal: signal(2.0) },
            top: OuterBoundaryCondition::Reflecting,
            left: OuterBoundaryCondition::Reflecting,
        },
    }
}

#[test]
fn the_mesh_resolves_the_highest_frequency_that_forces_it() {
    let found: Vec<f64> = forcing_signals(&forced())
        .iter()
        .map(|signal| f64::from_bits(signal.frequency_hz.bits))
        .collect();
    assert_eq!(found, vec![2.0, 3.0, 5.0]);
    let source = PointSource {
        enabled: true,
        position: p(0.0, 0.0),
        width: n(0.1),
        region: 1,
        signal: signal(8.0),
    };
    let ceilings = vec![n(2.0), n(3.0), n(5.0)];
    assert_eq!(highest_forcing_frequency(source, n(8.0), &ceilings), n(8.0));
    let silent = PointSource { enabled: false, ..source };
    assert_eq!(highest_forcing_frequency(silent, n(8.0), &ceilings), n(5.0));
    assert_eq!(highest_forcing_frequency(silent, n(8.0), &vec![]), n(0.0));
}

#[test]
fn an_overlay_belongs_to_a_mesh_and_a_scene() {
    let key = OverlayKey { mesh_revision: 4, scene: forced() };
    assert!(key.matches_scene(4, &forced()));
    assert!(!key.matches_scene(5, &forced()));
    let mut other = forced();
    other.volume_sources[0].enabled = true;
    assert!(!key.matches_scene(4, &other));
}

fn colored(id: u64, red: u8) -> Material {
    let linear = || CoefficientLaw {
        field: FieldLaw::Linear,
        drive: TimeDrive::Absent,
        alternate: None,
        inverted: false,
    };
    Material {
        id,
        name: format!("material {id}"),
        mass_density: ScalarField::Constant(n(1.0)),
        stiffness: ScalarField::Constant(n(1.0)),
        damping: ScalarField::Constant(n(0.0)),
        axis_ratio: ScalarField::Constant(n(1.0)),
        parameters: vec![],
        color: Rgb { red, green: 0, blue: 0 },
        mass_law: linear(),
        stiffness_law: linear(),
        electric_loss: None,
        magnetic_loss: None,
        restoring: RestoringLaw::Absent,
        switch_ramp: n(0.0),
    }
}

#[test]
fn a_face_is_painted_with_its_material() {
    let mut scene = forced();
    scene.materials = vec![colored(4, 200)];
    scene.regions = vec![Region {
        id: 9,
        material: 4,
        frame: MaterialFrame {
            origin: p(0.0, 0.0),
            angle_radians: n(0.0),
            attachment: MaterialFrameAttachment::World,
        },
    }];
    let assignments = vec![
        FaceAssignment { face: 1, region: Some(9) },
        FaceAssignment { face: 2, region: None },
    ];
    let shown = MaterialOverlay::Property(MaterialProperty::WaveSpeed);
    let filled = face_paint(&scene, &assignments, 1, n(2.0), shown);
    assert_eq!(filled.flat, Rgb { red: 200, green: 0, blue: 0 });
    assert_eq!(
        filled.shaded,
        Some(ShadedFace { property: MaterialProperty::WaveSpeed, region: 9 })
    );
    assert_eq!(face_paint(&scene, &assignments, 1, n(0.0), shown).shaded, None);
    assert_eq!(face_paint(&scene, &assignments, 1, n(2.0), MaterialOverlay::Off).shaded, None);
    let hole = face_paint(&scene, &assignments, 2, n(2.0), shown);
    assert_eq!(hole.flat, Rgb { red: 16, green: 23, blue: 31 });
    assert_eq!(hole.shaded, None);
}

#[test]
fn a_region_covers_the_faces_assigned_to_it() {
    let assignments = vec![
        FaceAssignment { face: 3, region: Some(9) },
        FaceAssignment { face: 1, region: None },
        FaceAssignment { face: 2, region: Some(4) },
        FaceAssignment { face: 5, region: Some(9) },
    ];
    assert_eq!(faces_of_region(&assignments, 9), vec![3, 5]);
    assert!(faces_of_region(&assignments, 8).is_empty());
}

const PREVIEW_ROWS: usize = 48;

/// A square domain with a square obstacle in its middle.
fn previewed() -> (TopologyScene, Vec<FaceAssignment>, Vec<PreviewFace>) {
    let frame = MaterialFrame {
        origin: p(0.0, 0.0),
        angle_radians: n(0.0),
        attachment: MaterialFrameAttachment::World,
    };
    let mut scene = forced();
    scene.materials = vec![colored(4, 200), colored(5, 90)];
    scene.regions =
        vec![Region { id: 9, material: 4, frame }, Region { id: 10, material: 5, frame }];
    let assignments = vec![
        FaceAssignment { face: 1, region: Some(9) },
        FaceAssignment { face: 2, region: Some(10) },
    ];
    let outer = vec![p(-1.0, -1.0), p(1.0, -1.0), p(1.0, 1.0), p(-1.0, 1.0)];
    let inner = vec![p(-0.5, -0.5), p(0.5, -0.5), p(0.5, 0.5), p(-0.5, 0.5)];
    let faces = vec![
        PreviewFace { id: 2, area: n(1.0), cycles: vec![inner.clone()] },
        PreviewFace { id: 1, area: n(3.0), cycles: vec![outer, inner, vec![p(0.0, 0.0)]] },
    ];
    (scene, assignments, faces)
}

/// Lays out the cells of a face: whole lines, or squares with a sampled value.
fn lay_out(face: &PreviewFace, sample: Option<fn(f64, f64) -> f64>) -> Vec<MeasuredCell> {
    let f = |number: Scalar| f64::from_bits(number.bits);
    let height = 2.0 / PREVIEW_ROWS as f64;
    let mut cells = Vec::new();
    for row in 0..PREVIEW_ROWS {
        let low_y = -1.0 + height * row as f64;
        let y = low_y + height * 0.5;
        let crossings = crossing_edges(&face.cycles, n(y))
            .iter()
            .map(|edge| {
                let along = (y - f(edge.start.y)) / (f(edge.end.y) - f(edge.start.y));
                n(f(edge.start.x) + along * (f(edge.end.x) - f(edge.start.x)))
            })
            .collect();
        for span in face_spans(&crossings) {
            let (start, end) = (f(span.start), f(span.end));
            let steps = match sample {
                Some(_) => (((end - start) / height).ceil() as usize).max(1),
                None => 1,
            };
            let step = (end - start) / steps as f64;
            for index in 0..steps {
                let low_x = start + step * index as f64;
                cells.push(MeasuredCell {
                    low: p(low_x, low_y),
                    high: p(low_x + step, low_y + height),
                    value: sample.map(|sample| n(sample(low_x + step * 0.5, y))),
                });
            }
        }
    }
    cells
}

#[test]
fn a_thumbnail_fills_the_faces_of_the_scene_it_previews() {
    let (scene, assignments, faces) = previewed();
    let cells = faces.iter().map(|face| lay_out(face, None)).collect();
    let preview =
        build_example_preview(&scene, &assignments, MaterialOverlay::Off, &faces, &cells);
    let f = |number: Scalar| f64::from_bits(number.bits);
    assert!(preview.quads.len() > PREVIEW_ROWS, "a face was not filled");
    assert_eq!(preview.strokes.len(), 3, "a point is no outline");
    for quad in &preview.quads {
        assert!(f(quad.low.x) < f(quad.high.x) && f(quad.low.y) < f(quad.high.y));
        assert!(
            f(quad.low.x) >= -1.0 - 1e-9
                && f(quad.high.x) <= 1.0 + 1e-9
                && f(quad.low.y) >= -1.0 - 1e-9
                && f(quad.high.y) <= 1.0 + 1e-9,
            "a quad left the domain"
        );
    }
    let colors: BTreeSet<u8> = preview
        .quads
        .iter()
        .map(|quad| match quad.color {
            CellColor::Flat(color) => color.red,
            CellColor::Shaded { .. } => panic!("nothing is shaded"),
        })
        .collect();
    assert!(
        colors.len() > 1,
        "the obstacle is the same colour as the background it sits in"
    );
    assert_eq!(
        preview.quads[0].color,
        CellColor::Flat(Rgb { red: 200, green: 0, blue: 0 }),
        "the larger face is painted first"
    );
    assert_eq!((preview.minimum, preview.maximum), (n(f64::INFINITY), n(f64::NEG_INFINITY)));
}

#[test]
fn a_radial_material_profile_reaches_the_thumbnail() {
    let (scene, assignments, faces) = previewed();
    let profile = |x: f64, y: f64| 2.0 - (x * x + y * y);
    let cells = vec![lay_out(&faces[0], Some(profile)), lay_out(&faces[1], None)];
    let overlay = MaterialOverlay::Property(MaterialProperty::WaveSpeed);
    let preview = build_example_preview(&scene, &assignments, overlay, &faces, &cells);
    let f = |number: Scalar| f64::from_bits(number.bits);
    let (minimum, maximum) = (f(preview.minimum), f(preview.maximum));
    assert!(1.4 < minimum && minimum < 1.6 && 1.9 < maximum && maximum < 2.0);
    let shades: BTreeSet<u8> = preview
        .quads
        .iter()
        .filter_map(|quad| match quad.color {
            CellColor::Shaded { property: MaterialProperty::WaveSpeed, value } => {
                Some(((f(value) - minimum) / (maximum - minimum) * 255.0) as u8)
            }
            _ => None,
        })
        .collect();
    assert!(
        shades.len() > 8,
        "the lens reads as {} colour(s), not a profile",
        shades.len()
    );
}

#[test]
fn numbers_compare_as_their_bit_patterns_say() {
    let nan = n(f64::NAN);
    assert!(nan.is_nan() && !nan.is_finite() && !nan.equals(nan));
    assert!(!nan.less(n(1.0)) && !n(1.0).at_most(nan));
    assert!(n(-0.0).equals(n(0.0)) && !n(-0.0).less(n(0.0)) && n(-0.0).at_most(n(0.0)));
    assert!(n(-0.0).ranks_below(n(0.0)) && n(-2.0).ranks_below(n(-1.0)));
    assert!(n(f64::NEG_INFINITY).less(n(f64::MIN)) && !n(f64::INFINITY).is_finite());
    assert_eq!(n(3.0).larger(n(-4.0)), n(3.0));
    assert_eq!(n(3.0).smaller(n(-4.0)), n(-4.0));
    assert_eq!(nan.smaller(n(2.0)), n(2.0));
    assert_eq!(n(2.0).larger(nan), n(2.0));
}

#[test]
fn volume_sources_are_compared_up_to_their_signals() {
    let base = forced();
    let mut louder = forced();
    louder.volume_sources[1].signal = signal(7.0);
    assert!(volume_source_layout_eq(&base.volume_sources, &louder.volume_sources));
    let mut other = forced();
    other.volume_sources[1].enabled = false;
    assert!(!volume_source_layout_eq(&base.volume_sources, &other.volume_sources));
    assert_eq!(enabled_signals(&louder.volume_sources), vec![signal(7.0)]);
    let comparison = SceneComparison::of(&base, &louder);
    assert!(comparison.volume_layout && !comparison.volume_sources);
    assert!(comparison.operator_scene_eq() && !comparison.authored_scene_eq());
    assert!(SceneComparison::of(&base, &forced()).authored_scene_eq());
}

#[test]
fn a_frame_is_shown_where_something_is_written_in_it() {
    let (scene, _, _) = previewed();
    let shown = |panel, region, material, varying: &Vec<bool>| {
        selected_material_frame(panel, &scene, region, material, varying)
            .map(|selected| selected.region)
    };
    let materials = Some(InspectorPanel::Materials);
    let none = vec![false, false];
    assert_eq!(shown(materials, 9, true, &none), Some(9));
    assert_eq!(shown(materials, 9, false, &none), None);
    assert_eq!(shown(Some(InspectorPanel::Edit), 9, true, &none), None);
    assert_eq!(shown(materials, 77, true, &none), None);
    let mut sourced = scene;
    sourced.volume_sources[1].region = 9;
    let varying = vec![true, true];
    let found = selected_material_frame(materials, &sourced, 9, false, &varying);
    assert_eq!(found.map(|selected| selected.region), Some(9));
    sourced.volume_sources[1].enabled = false;
    assert!(selected_material_frame(materials, &sourced, 9, false, &varying).is_none());
}
