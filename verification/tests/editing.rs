use funfern::attachment::{AttachmentHit, TopologyAttachment};
use funfern::drawing::{
    create_closed, create_open, draw_click, finish_draw, place_point, region_at,
    select_curve, ClosedCurvePurpose, ClosedPurpose, DrawStep, DrawnCurve, DrawnPoint,
    OpenCurvePurpose, OpenPurpose, PendingPulse, PlanDomain,
};
use funfern::gesture::{
    domain_corner_cursor, domain_handles_shown, drag_cursor, gizmo_radius, hit_domain_corner,
    hit_material_frame_gizmo, hit_transform_gizmo, hover_cursor, modal_cursor, outer_side_cursor,
    resize_domain, scale_axis_cursor, transform_gizmo_allowed, viewport_cursor, CursorIcon,
    DomainDrag, DragGesture, DrawTool, GizmoDistances, GizmoPivot, GizmoScaleAxis, HoverHits,
    MaterialFrameGizmoHit, MergeAction, PendingMerge, ProbeHit, TransformGizmoHit, ViewportModes,
};
use funfern::interaction::{
    click_route, click_subdomain, clicks_geometry, closest_curve_parameter, deletes, double_click,
    drag_edit, drag_stages, far_field_contour_hit, grab, open_pass, route, switches_material,
    undo_draw_point, ClickRoute, CurveCandidate, DoubleClick, DragEdit, DragTargets, FrameInput,
    Grab, Interaction, Opening, PressHits, PressMeasures, Release, Route, SegmentPlace,
    SubdomainListing, TouchState,
};
use funfern::labels::MarqueeOperation;
use funfern::model::{
    CurveNode, CurveSpan, CurveSpline, DomainRect, FaceAnchor, MaterialFrame,
    MaterialFrameAttachment, OuterSide, SpanBehavior, SplineData, TopologyCurve, TopologyGeometry,
};
use funfern::ordered_set::OrderedSet;
use funfern::removal::{
    deletion, plan_removal, report_removal, Deletion, JoinRecord, RemovalStep, RemovalSummary,
};
use funfern::sampling::{SampledTopologyGeometry, SampledTopologySpan};
use funfern::scalar::{Point2, Scalar};
use funfern::selection::{
    SpanSet, TopologyHandle, TopologyHit, TopologySelection, TopologySpanTarget,
};

use funfern::viewport_pass::{next_stage, PassStage};

fn n(value: f64) -> Scalar {
    Scalar { bits: value.to_bits() }
}

fn p(x: f64, y: f64) -> Point2 {
    Point2 { x: n(x), y: n(y) }
}

fn rect(min_x: f64, max_x: f64, min_y: f64, max_y: f64) -> DomainRect {
    DomainRect { min_x: n(min_x), max_x: n(max_x), min_y: n(min_y), max_y: n(max_y) }
}

fn spans(targets: &[TopologySpanTarget]) -> SpanSet {
    let mut set = SpanSet::new();
    for target in targets {
        set.insert(*target);
    }
    set
}

fn ids(values: &[u64]) -> OrderedSet<u64> {
    let mut set = OrderedSet::new();
    for value in values {
        set.insert(*value);
    }
    set
}

fn curve(id: u64, span_ids: &[u64]) -> TopologyCurve {
    TopologyCurve {
        id,
        spline: CurveSpline::Closed(SplineData {
            controls: vec![p(0.0, 0.0); 4],
            intervals: vec![n(1.0); span_ids.len()],
            multiplicities: vec![],
            span_bounds: vec![(n(0.0), n(1.0)); span_ids.len()],
        }),
        nodes: span_ids.iter().map(|_| CurveNode { vertex: None }).collect(),
        spans: span_ids
            .iter()
            .map(|id| CurveSpan { id: *id, behavior: SpanBehavior::Transmitting })
            .collect(),
    }
}

fn geometry() -> TopologyGeometry {
    TopologyGeometry {
        domain: rect(-1.0, 1.0, -1.0, 1.0),
        curves: vec![curve(4, &[40, 41])],
        vertices: vec![],
    }
}

fn interaction() -> Interaction {
    Interaction {
        selection: TopologySelection::Nothing,
        selected_probe: None,
        drag: None,
        gizmo_pivot: None,
        sampled_revision: 3,
        message: String::new(),
    }
}

fn modes() -> ViewportModes {
    ViewportModes { merging: false, drawing: false, pulse: false, placing_probe: false }
}

fn input() -> FrameInput {
    FrameInput {
        typing: false,
        typed_before: false,
        switch_key: false,
        escape: false,
        enter: false,
        backspace: false,
        delete: false,
        pointer: true,
        press: true,
        clicked: false,
        primary_clicked: false,
        double_clicked: false,
        drag_started: false,
        dragged: false,
        drag_stopped: false,
        shift: false,
        command: false,
    }
}

fn no_hits() -> PressHits {
    PressHits {
        material_frame: None,
        frame: None,
        gizmo: None,
        source: false,
        probe: None,
        probe_known: false,
        corner: None,
        geometry: None,
        inside_selection: false,
        loose_end: None,
    }
}

fn measures() -> PressMeasures {
    PressMeasures {
        screen: p(10.0, 20.0),
        world: p(0.1, 0.2),
        frame_angle: n(0.5),
        gizmo_pivot: p(0.0, 0.0),
        pivot_angle: n(0.25),
        scale_distance: n(2.0),
        pivot_offset: p(0.05, 0.0),
        operation: MarqueeOperation::Add,
    }
}

fn targets() -> DragTargets {
    DragTargets {
        free: p(0.117, -0.233),
        snapped: p(0.10, -0.25),
        free_angle: n(0.11),
        snapped_angle: n(0.0),
        free_factor: n(1.3),
        snapped_factor: n(1.5),
        region: Some(2),
    }
}

#[test]
fn domain_drags_move_one_side_or_one_corner() {
    let start = rect(-1.0, 1.0, -1.0, 1.0);
    for (side, expected) in [
        (OuterSide::Left, rect(-0.5, 1.0, -1.0, 1.0)),
        (OuterSide::Right, rect(-1.0, -0.5, -1.0, 1.0)),
        (OuterSide::Bottom, rect(-1.0, 1.0, -0.5, 1.0)),
        (OuterSide::Top, rect(-1.0, 1.0, -1.0, -0.5)),
    ] {
        assert_eq!(
            resize_domain(start, DomainDrag::Side { side, start }, p(-0.5, -0.5)),
            expected,
            "{side:?} moved the wrong edge"
        );
    }
    for (index, expected) in [
        (0usize, rect(0.5, 1.0, 0.25, 1.0)),
        (1, rect(-1.0, 0.5, 0.25, 1.0)),
        (2, rect(-1.0, 0.5, -1.0, 0.25)),
        (3, rect(0.5, 1.0, -1.0, 0.25)),
    ] {
        assert_eq!(
            resize_domain(start, DomainDrag::Corner { index, start }, p(0.5, 0.25)),
            expected,
            "corner {index} moved the wrong pair"
        );
    }
}

#[test]
fn domain_corners_are_grabbable_and_cursored() {
    let reach = n(13.0);
    for index in 0..4 {
        let mut near = vec![n(800.0); 4];
        near[index] = n(0.0);
        assert_eq!(
            hit_domain_corner(&near, reach),
            Some(index),
            "corner {index} is not grabbable at its own centre"
        );
        let mut far = vec![n(800.0); 4];
        far[index] = n(60.0_f64.hypot(60.0));
        assert_eq!(hit_domain_corner(&far, reach), None, "corner {index} grabs far too wide");
    }
    assert_eq!(domain_corner_cursor(0), CursorIcon::ResizeNeSw);
    assert_eq!(domain_corner_cursor(1), CursorIcon::ResizeNwSe);
}

#[test]
fn the_gizmo_offers_its_pivot_before_its_grips_and_its_ring() {
    let far = GizmoDistances {
        center: n(50.0),
        uniform_grip: n(50.0),
        x_grip: n(50.0),
        y_grip: n(50.0),
        ring: n(50.0),
    };
    assert_eq!(hit_transform_gizmo(far), None);
    let near = n(5.0);
    assert_eq!(
        hit_transform_gizmo(GizmoDistances { ring: near, ..far }),
        Some(TransformGizmoHit::Rotate)
    );
    assert_eq!(
        hit_transform_gizmo(GizmoDistances { ring: near, y_grip: near, ..far }),
        Some(TransformGizmoHit::Scale(GizmoScaleAxis::Y))
    );
    assert_eq!(
        hit_transform_gizmo(GizmoDistances { y_grip: near, x_grip: near, ..far }),
        Some(TransformGizmoHit::Scale(GizmoScaleAxis::X))
    );
    assert_eq!(
        hit_transform_gizmo(GizmoDistances { x_grip: near, uniform_grip: near, ..far }),
        Some(TransformGizmoHit::Scale(GizmoScaleAxis::Uniform))
    );
    assert_eq!(
        hit_transform_gizmo(GizmoDistances { center: n(12.0), uniform_grip: near, ..far }),
        Some(TransformGizmoHit::Pivot)
    );
    assert_eq!(hit_transform_gizmo(GizmoDistances { ring: n(7.5), ..far }), None);
    assert_eq!(gizmo_radius(&vec![n(3.0), n(10.0)]), n(22.0));
    assert_eq!(gizmo_radius(&vec![n(30.0), n(10.0)]), n(30.0));
}

#[test]
fn the_gizmo_belongs_to_selected_curve_spans_alone() {
    let curves = TopologySelection::Spans(spans(&[TopologySpanTarget::Curve(40)]));
    assert!(transform_gizmo_allowed(modes(), &curves));
    assert!(!transform_gizmo_allowed(ViewportModes { drawing: true, ..modes() }, &curves));
    let mixed = TopologySelection::Spans(spans(&[
        TopologySpanTarget::Curve(40),
        TopologySpanTarget::Outer(OuterSide::Top),
    ]));
    assert!(!transform_gizmo_allowed(modes(), &mixed));
    assert!(!transform_gizmo_allowed(modes(), &TopologySelection::Nothing));
}

#[test]
fn a_cursor_announces_what_a_press_would_take() {
    assert_eq!(scale_axis_cursor(GizmoScaleAxis::X), CursorIcon::ResizeHorizontal);
    assert_eq!(scale_axis_cursor(GizmoScaleAxis::Y), CursorIcon::ResizeVertical);
    assert_eq!(outer_side_cursor(OuterSide::Left), CursorIcon::ResizeHorizontal);
    assert_eq!(outer_side_cursor(OuterSide::Top), CursorIcon::ResizeVertical);
    let nothing = HoverHits {
        material_frame: None,
        gizmo: None,
        probe: None,
        corner: None,
        geometry: None,
        gizmo_shown: false,
    };
    let selection = TopologySelection::Spans(spans(&[TopologySpanTarget::Curve(40)]));
    assert_eq!(hover_cursor(nothing, &selection), None);
    let span = TopologyHit::Span { target: TopologySpanTarget::Curve(40), distance: n(1.0) };
    let over_span = HoverHits { geometry: Some(span), ..nothing };
    assert_eq!(hover_cursor(over_span, &selection), None);
    let movable = HoverHits { gizmo_shown: true, ..over_span };
    assert_eq!(hover_cursor(movable, &selection), Some(CursorIcon::Move));
    assert_eq!(hover_cursor(movable, &TopologySelection::Nothing), None);
    let corner = HoverHits { corner: Some(0), ..movable };
    assert_eq!(hover_cursor(corner, &selection), Some(CursorIcon::ResizeNeSw));
    let disk = HoverHits { probe: Some(ProbeHit::AreaDiskRadius(1)), ..corner };
    assert_eq!(hover_cursor(disk, &selection), Some(CursorIcon::ResizeHorizontal));
    let ring = HoverHits { gizmo: Some(TransformGizmoHit::Rotate), ..disk };
    assert_eq!(hover_cursor(ring, &selection), Some(CursorIcon::Grab));
    let frame = HoverHits { material_frame: Some(MaterialFrameGizmoHit::Origin), ..ring };
    assert_eq!(hover_cursor(frame, &selection), Some(CursorIcon::Move));

    let rotating = DragGesture::Rotate { pivot: p(0.0, 0.0), start_angle: n(0.0) };
    assert_eq!(drag_cursor(&Some(rotating)), Some(CursorIcon::Grabbing));
    assert_eq!(drag_cursor(&Some(DragGesture::Source)), None);
    assert_eq!(
        viewport_cursor(None, Some(CursorIcon::Grabbing), Some(CursorIcon::Grab)),
        Some(CursorIcon::Grabbing)
    );
    let tool = modal_cursor(&None, ViewportModes { pulse: true, ..modes() }, None);
    assert_eq!(viewport_cursor(tool, Some(CursorIcon::Grab), None), Some(CursorIcon::Crosshair));
    let asked = Some(PendingMerge { action: MergeAction::Delete(ids(&[1])), choices: vec![2, 3] });
    assert_eq!(modal_cursor(&asked, modes(), Some(3)), Some(CursorIcon::PointingHand));
    assert_eq!(modal_cursor(&asked, modes(), Some(4)), None);
}

#[test]
fn the_corner_grips_hide_while_something_else_goes_on() {
    assert!(domain_handles_shown(false, modes(), &None));
    assert!(!domain_handles_shown(true, modes(), &None));
    assert!(!domain_handles_shown(false, ViewportModes { merging: true, ..modes() }, &None));
    let rotating = DragGesture::Rotate { pivot: p(0.0, 0.0), start_angle: n(0.0) };
    assert!(!domain_handles_shown(false, modes(), &Some(rotating)));
    assert!(domain_handles_shown(false, modes(), &Some(DragGesture::Source)));
}

#[test]
fn a_material_frame_is_taken_by_its_origin_before_its_ring() {
    let hit = |distance: f64, from_ring: f64| {
        hit_material_frame_gizmo(n(distance), n(from_ring), n(12.0), n(8.0))
    };
    assert_eq!(hit(3.0, 1.0), Some(MaterialFrameGizmoHit::Origin));
    assert_eq!(hit(30.0, 1.0), Some(MaterialFrameGizmoHit::Rotate));
    assert_eq!(hit(30.0, 20.0), None);
}

#[test]
fn two_fingers_navigate_and_never_click() {
    let rest = TouchState { active: false, navigation: false, suppress_click: false };
    let (opening, one) = open_pass(rest, true, None);
    assert_eq!(opening, Opening::Proceed);
    let (opening, two) = open_pass(one, true, Some(true));
    assert_eq!(opening, Opening::Navigate { cancel: true });
    let (opening, two) = open_pass(two, true, Some(false));
    assert_eq!(opening, Opening::Navigate { cancel: false });
    let (opening, lifted) = open_pass(two, false, None);
    assert_eq!(opening, Opening::Ignore);
    let (opening, after) = open_pass(lifted, false, None);
    assert_eq!(opening, Opening::Ignore);
    let (opening, _) = open_pass(after, false, None);
    assert_eq!(opening, Opening::Proceed);
}

#[test]
fn a_frame_is_routed_by_what_owns_the_viewport() {
    assert_eq!(route(modes(), FrameInput { escape: true, ..input() }), Route::Cancel);
    let leaving = FrameInput { escape: true, typed_before: true, ..input() };
    assert_eq!(route(modes(), leaving), Route::Proceed);
    let merging = ViewportModes { merging: true, ..modes() };
    let click = FrameInput { clicked: true, primary_clicked: true, ..input() };
    assert_eq!(route(merging, click), Route::PickSurvivor);
    assert_eq!(route(merging, input()), Route::Wait);
    let twice = FrameInput { double_clicked: true, ..click };
    assert_eq!(route(modes(), twice), Route::DoubleClick);
    let drawing = ViewportModes { drawing: true, pulse: true, ..modes() };
    assert_eq!(
        click_route(drawing, FrameInput { backspace: true, ..click }),
        ClickRoute::Draw { place: true, undo: true, finish: false }
    );
    let pulse = ViewportModes { pulse: true, ..modes() };
    assert_eq!(click_route(pulse, click), ClickRoute::PlacePulse);
    assert_eq!(click_route(pulse, FrameInput { pointer: false, ..click }), ClickRoute::Ignore);
    let probe = ViewportModes { placing_probe: true, ..modes() };
    assert_eq!(click_route(probe, click), ClickRoute::PlaceProbe);
    assert_eq!(click_route(probe, input()), ClickRoute::Manipulate);
    assert!(switches_material(FrameInput { switch_key: true, ..input() }));
    assert!(!switches_material(FrameInput { switch_key: true, typing: true, ..input() }));
    assert!(deletes(FrameInput { delete: true, ..input() }));
    assert!(!deletes(FrameInput { delete: true, typing: true, ..input() }));
    assert!(clicks_geometry(click, false) && !clicks_geometry(click, true));
    let stages = drag_stages(FrameInput { drag_started: true, dragged: true, ..input() });
    assert!(stages.press && stages.drag && !stages.release);
}

#[test]
fn a_double_click_opens_what_it_meets_first() {
    let span = |target, curve| SampledTopologySpan { target, curve, samples: Vec::new() };
    let sampled = SampledTopologyGeometry {
        spans: vec![
            span(TopologySpanTarget::Outer(OuterSide::Bottom), None),
            span(TopologySpanTarget::Curve(10), Some(1)),
            span(TopologySpanTarget::Curve(20), Some(2)),
            span(TopologySpanTarget::Curve(30), Some(3)),
        ],
        handles: Vec::new(),
    };
    let place = |distance| SegmentPlace { parameter: n(0.5), distance: n(distance) };
    let places =
        vec![vec![place(1.0)], vec![place(9.0)], vec![place(7.0), place(4.0)], vec![place(4.0)]];
    let found = closest_curve_parameter(&sampled, &places, n(8.0)).unwrap();
    assert_eq!(found, CurveCandidate { curve: 2, parameter: n(0.5), distance: n(4.0) });
    assert!(closest_curve_parameter(&sampled, &places, n(3.0)).is_none());
    assert_eq!(
        double_click(Some(ProbeHit::Point(7)), true, Some(found)),
        DoubleClick::OpenProbe(7)
    );
    assert_eq!(double_click(None, true, Some(found)), DoubleClick::OpenFarField);
    assert_eq!(
        double_click(None, false, Some(found)),
        DoubleClick::InsertControl { curve: 2, parameter: n(0.5) }
    );
    assert_eq!(double_click(None, false, None), DoubleClick::Nothing);
    assert!(far_field_contour_hit(true, true, n(40.0), n(9.0), n(30.0), n(50.0)));
    assert!(!far_field_contour_hit(true, true, n(40.0), n(9.5), n(30.0), n(50.0)));
    assert!(!far_field_contour_hit(false, true, n(1.0), n(9.0), n(30.0), n(50.0)));
}

#[test]
fn a_press_takes_grips_before_probes_and_corners_before_sides() {
    let side = TopologyHit::Span {
        target: TopologySpanTarget::Outer(OuterSide::Bottom),
        distance: n(0.0),
    };
    let hits = PressHits { geometry: Some(side), ..no_hits() };
    assert_eq!(grab(no_hits()), Grab::Marquee);
    assert_eq!(grab(hits), Grab::Geometry(side));
    let hits = PressHits { corner: Some(1), ..hits };
    assert_eq!(grab(hits), Grab::Corner(1));
    let hits = PressHits { probe: Some(ProbeHit::Point(3)), ..hits };
    assert_eq!(grab(hits), Grab::Probe(ProbeHit::Point(3)));
    let hits = PressHits { source: true, ..hits };
    assert_eq!(grab(hits), Grab::Source);
    let hits = PressHits { gizmo: Some(TransformGizmoHit::Rotate), ..hits };
    assert_eq!(grab(hits), Grab::Gizmo(TransformGizmoHit::Rotate));
}

#[test]
fn pressing_a_corner_selects_its_sides_and_resizes() {
    let mut state = interaction();
    let hits = PressHits { corner: Some(2), ..no_hits() };
    let outcome = state.press(&geometry(), hits, measures(), input());
    assert!(outcome.begins_edit && outcome.over);
    assert_eq!(
        state.selection.spans().unwrap().values,
        vec![
            TopologySpanTarget::Outer(OuterSide::Right),
            TopologySpanTarget::Outer(OuterSide::Top)
        ]
    );
    let edit = drag_edit(state.drag.as_ref().unwrap(), targets(), true);
    assert_eq!(edit, DragEdit::Resize { domain: rect(-1.0, 0.10, -1.0, -0.25) });
    assert!(matches!(state.release(), Release::Commit));
    assert!(state.drag.is_none());
}

#[test]
fn pressing_a_span_selects_it_and_moves_the_selection() {
    let mut state = interaction();
    let span = TopologyHit::Span { target: TopologySpanTarget::Curve(40), distance: n(1.0) };
    let hits = PressHits { geometry: Some(span), ..no_hits() };
    let outcome = state.press(&geometry(), hits, measures(), FrameInput { command: true, ..input() });
    assert!(outcome.begins_edit && outcome.needs_pivot && !outcome.over);
    assert_eq!(state.selection.spans().unwrap().len(), 2, "command takes the whole curve");
    state.gizmo_pivot = Some(GizmoPivot {
        selection: spans(&[TopologySpanTarget::Curve(40), TopologySpanTarget::Curve(41)]),
        point: p(0.5, 0.5),
    });
    state.begin_span_drag(p(0.1, 0.2), p(0.5, 0.5));
    let edit = drag_edit(state.drag.as_ref().unwrap(), targets(), false);
    assert_eq!(edit, DragEdit::Translate { pivot: p(0.5, 0.5), target: p(0.117, -0.233) });
    state.drag_done(Ok(()), p(0.117, -0.233), None);
    assert_eq!(state.gizmo_pivot.as_ref().unwrap().point, p(0.117, -0.233));
    assert_eq!(state.sampled_revision, u64::MAX);
    let cancelled = state.cancel_interaction(&mut modes(), true);
    assert!(cancelled.selected.is_none() && cancelled.edit);
    assert_eq!(state.gizmo_pivot.as_ref().unwrap().point, p(0.5, 0.5), "cancelling puts it back");
}

#[test]
fn a_refused_frame_of_a_drag_leaves_the_pivot_and_says_why() {
    let mut state = interaction();
    state.selection = TopologySelection::Spans(spans(&[TopologySpanTarget::Curve(40)]));
    state.begin_span_drag(p(0.1, 0.2), p(0.0, 0.0));
    state.drag_done(Err("Outside the domain".to_string()), p(3.0, 3.0), None);
    assert!(state.gizmo_pivot.is_none());
    assert_eq!(state.message, "Outside the domain");
}

#[test]
fn a_loose_end_moves_by_itself_and_is_welded_on_release() {
    let mut state = interaction();
    let handle = TopologyHandle::Control { curve: 4, control: 0 };
    let hits = PressHits {
        geometry: Some(TopologyHit::Handle { handle, distance: n(0.0) }),
        loose_end: Some(0),
        ..no_hits()
    };
    state.press(&geometry(), hits, measures(), input());
    let edit = drag_edit(state.drag.as_ref().unwrap(), targets(), false);
    assert_eq!(edit, DragEdit::MoveEnd { curve: 4, node: 0, point: p(0.117, -0.233) });
    let snap = AttachmentHit {
        attachment: TopologyAttachment::Junction { vertex: 1, face: 1 },
        point: p(0.0, 0.0),
        distance: n(2.0),
    };
    state.drag_done(Ok(()), p(0.0, 0.0), Some(snap));
    assert!(matches!(state.drag, Some(DragGesture::Endpoint { snap: Some(_), .. })));
    assert!(matches!(state.release(), Release::FinishEnd { curve: 4, node: 0 }));
}

#[test]
fn a_marquee_keeps_what_was_selected_until_it_is_let_go() {
    let mut state = interaction();
    state.selection = TopologySelection::Spans(spans(&[TopologySpanTarget::Curve(40)]));
    let outcome = state.press(&geometry(), no_hits(), measures(), input());
    assert!(!outcome.begins_edit);
    let taken = TopologySelection::Spans(spans(&[TopologySpanTarget::Curve(41)]));
    state.marquee_moved(p(30.0, 40.0), MarqueeOperation::Replace, taken);
    assert_eq!(state.selection.spans().unwrap().values, vec![TopologySpanTarget::Curve(41)]);
    let mut tools =
        ViewportModes { merging: true, drawing: true, pulse: true, placing_probe: true };
    let base = state.cancel_interaction(&mut tools, false).selected.unwrap();
    assert_eq!(tools, modes(), "no tool outlives what was cancelled");
    assert_eq!(base.values, vec![TopologySpanTarget::Curve(40)]);

    state.press(&geometry(), no_hits(), measures(), input());
    match state.release() {
        Release::Marquee { start, current, .. } => assert_eq!(start, current),
        other => panic!("{other:?}"),
    }
}

#[test]
fn a_gesture_edits_along_its_own_axis() {
    let scale = |axis| DragGesture::Scale { axis, pivot: p(0.0, 0.0), start_distance: n(2.0) };
    assert_eq!(
        drag_edit(&scale(GizmoScaleAxis::X), targets(), false),
        DragEdit::Scale { pivot: p(0.0, 0.0), x_factor: n(1.3), y_factor: n(1.0) }
    );
    assert_eq!(
        drag_edit(&scale(GizmoScaleAxis::Uniform), targets(), true),
        DragEdit::Scale { pivot: p(0.0, 0.0), x_factor: n(1.5), y_factor: n(1.5) }
    );
    assert_eq!(
        drag_edit(&DragGesture::Source, targets(), true),
        DragEdit::MoveSource { position: p(0.117, -0.233), region: Some(2) }
    );
    let start = MaterialFrame {
        origin: p(0.0, 0.0),
        angle_radians: n(0.3),
        attachment: MaterialFrameAttachment::World,
    };
    let turning = DragGesture::MaterialFrame {
        region: 5,
        start,
        hit: MaterialFrameGizmoHit::Rotate,
        grab: n(0.0),
    };
    assert_eq!(
        drag_edit(&turning, targets(), false),
        DragEdit::SetFrame {
            region: 5,
            frame: MaterialFrame { angle_radians: n(0.11), ..start }
        }
    );
}

#[test]
fn a_pressed_probe_is_selected_and_moves_where_it_can() {
    let mut state = interaction();
    let hits = PressHits {
        probe: Some(ProbeHit::SegmentBody(8)),
        probe_known: true,
        ..no_hits()
    };
    assert!(state.press(&geometry(), hits, measures(), input()).begins_edit);
    assert_eq!(state.selected_probe, Some(8));
    assert!(matches!(state.drag, Some(DragGesture::Probe { .. })));
    let mut state = interaction();
    let hits = PressHits { probe: Some(ProbeHit::AreaRegion(9)), ..hits };
    assert!(!state.press(&geometry(), hits, measures(), input()).begins_edit);
    assert_eq!(state.selected_probe, Some(9));
    assert!(state.drag.is_none());
    assert!(!ProbeHit::Boundary(2).draggable());
}

#[test]
fn a_click_on_nothing_clears_the_selection() {
    let mut state = interaction();
    state.selection = TopologySelection::Spans(spans(&[TopologySpanTarget::Curve(40)]));
    state.selected_probe = Some(3);
    assert!(state.click(&geometry(), None, None, input()));
    assert!(matches!(state.selection, TopologySelection::Nothing));
    assert_eq!(state.selected_probe, None);
    assert!(!state.click(&geometry(), Some(ProbeHit::Point(6)), None, input()));
    assert_eq!(state.selected_probe, Some(6));
    let choice = click_subdomain(SubdomainListing::Faces, Some(1), &vec![None, Some(4)], Some(9));
    assert_eq!((choice.face, choice.region), (Some(1), Some(4)));
    let choice = click_subdomain(SubdomainListing::Regions, Some(1), &vec![None, Some(4)], Some(9));
    assert_eq!((choice.face, choice.region), (None, Some(9)));
}

fn placed(point: Point2) -> DrawnPoint {
    DrawnPoint { point, attachment: None }
}

#[test]
fn shift_places_a_drawn_point_on_the_grid() {
    let mut draw = interaction().begin_draw(DrawTool::Polyline);
    let first = place_point(draw.tool, None, p(0.117, -0.233), p(0.10, -0.25), true);
    let second = place_point(draw.tool, None, p(-0.481, 0.062), p(-0.5, 0.05), false);
    draw_click(&mut draw, first, false);
    draw_click(&mut draw, second, false);
    assert_eq!(draw.points[0], p(0.10, -0.25));
    assert_eq!(
        draw.points[1],
        p(-0.481, 0.062),
        "without shift the point stays where it was put"
    );

    let mut draw = interaction().begin_draw(DrawTool::Rectangle);
    let corner = place_point(draw.tool, None, p(0.537, 0.562), p(0.55, 0.55), true);
    assert_eq!(draw_click(&mut draw, corner, false), DrawStep::Continue);
    let corner = place_point(draw.tool, None, p(0.873, 0.818), p(0.85, 0.80), true);
    assert_eq!(draw_click(&mut draw, corner, false), DrawStep::Finish);
    match finish_draw(&draw).unwrap() {
        DrawnCurve::Polygon(corners) => assert_eq!(
            corners,
            vec![p(0.55, 0.55), p(0.85, 0.55), p(0.85, 0.80), p(0.55, 0.80)]
        ),
        other => panic!("{other:?}"),
    }
}

#[test]
fn an_attachment_outranks_the_grid_for_an_open_curve() {
    let hit = AttachmentHit {
        attachment: TopologyAttachment::Boundary(FaceAnchor::Outer {
            side: OuterSide::Top,
            fraction: n(0.5),
        }),
        point: p(0.0, 1.0),
        distance: n(3.0),
    };
    let open = place_point(DrawTool::OpenSpline, Some(hit), p(0.01, 0.98), p(0.0, 0.95), true);
    assert_eq!(open, DrawnPoint { point: p(0.0, 1.0), attachment: Some(hit.attachment) });
    let closed = place_point(DrawTool::Polygon, Some(hit), p(0.01, 0.98), p(0.0, 0.95), true);
    assert_eq!(closed, placed(p(0.0, 0.95)));

    let mut draw = interaction().begin_draw(DrawTool::Polyline);
    draw_click(&mut draw, open, false);
    draw_click(&mut draw, placed(p(0.0, 0.0)), false);
    let plan = create_open(OpenPurpose::Separator, Some(2), &draw);
    assert_eq!(plan.purpose, OpenCurvePurpose::SubdomainSeparator { material: Some(2) });
    assert_eq!(plan.start, Some(hit.attachment));
    assert_eq!(plan.end, None);
    assert_eq!(
        create_open(OpenPurpose::Baffle, None, &draw).purpose,
        OpenCurvePurpose::BoundaryBaffle
    );
    assert_eq!(
        create_closed(ClosedPurpose::Subdomain, 6),
        ClosedCurvePurpose::Subdomain { material: 6 }
    );
    assert_eq!(create_closed(ClosedPurpose::Hole, 6), ClosedCurvePurpose::Hole);
}

#[test]
fn a_closed_curve_closes_on_its_first_point() {
    let mut draw = interaction().begin_draw(DrawTool::Polygon);
    for (x, y) in [(0.0, 0.0), (1.0, 0.0)] {
        assert_eq!(draw_click(&mut draw, placed(p(x, y)), true), DrawStep::Continue);
    }
    assert_eq!(
        finish_draw(&draw).unwrap_err(),
        "Add enough points to finish this curve"
    );
    draw_click(&mut draw, placed(p(0.0, 1.0)), false);
    assert_eq!(draw_click(&mut draw, placed(p(0.01, 0.0)), true), DrawStep::Finish);
    assert_eq!(draw.points.len(), 3);
    assert!(matches!(finish_draw(&draw), Ok(DrawnCurve::Polygon(_))));
    undo_draw_point(&mut draw);
    assert_eq!((draw.points.len(), draw.attachments.len()), (2, 2));

    let mut open = interaction().begin_draw(DrawTool::OpenSpline);
    for x in 0..4 {
        assert_eq!(draw_click(&mut open, placed(p(f64::from(x), 0.0)), true), DrawStep::Continue);
    }
    assert!(matches!(finish_draw(&open), Ok(DrawnCurve::OpenSpline(_))));
    undo_draw_point(&mut open);
    assert!(finish_draw(&open).is_err(), "three points make no spline");
    undo_draw_point(&mut open);
    assert!(matches!(finish_draw(&open), Ok(DrawnCurve::Polyline(_))));
    let mut circle = interaction().begin_draw(DrawTool::Circle);
    assert_eq!(
        draw_click(&mut circle, placed(p(0.2, 0.3)), false),
        DrawStep::Circle { center: p(0.2, 0.3) }
    );
}

#[test]
fn a_pulse_needs_an_active_subdomain() {
    let domains =
        Some(vec![PlanDomain { face: 1, region: 5 }, PlanDomain { face: 3, region: 6 }]);
    assert_eq!(region_at(&domains, Some(3)), Some(6));
    assert_eq!(region_at(&domains, None), None);
    let mut state = interaction();
    let queued = state.place_pulse(&domains, Some(1), p(0.5, 0.5));
    assert_eq!(queued, Some(PendingPulse { point: p(0.5, 0.5), region: 5 }));
    assert_eq!(state.message, "Pulse queued in region 5");
    assert_eq!(state.place_pulse(&domains, Some(2), p(0.5, 0.5)), None);
    assert_eq!(state.message, "Pulse must be inside an active subdomain");
}

#[test]
fn a_pulse_without_a_committed_topology_says_nothing() {
    let mut state = interaction();
    state.notify("Curve added".to_string());
    assert_eq!(region_at(&None, Some(1)), None);
    assert_eq!(state.place_pulse(&None, Some(1), p(0.5, 0.5)), None);
    assert_eq!(state.message, "Curve added");
}

#[test]
fn beginning_to_draw_clears_the_selection() {
    let mut state = interaction();
    state.selection = TopologySelection::Handle(TopologyHandle::Control { curve: 4, control: 1 });
    state.notify("kept".to_string());
    let draw = state.begin_draw(DrawTool::Polygon);
    assert_eq!(draw.tool, DrawTool::Polygon);
    assert!(draw.points.is_empty() && draw.attachments.is_empty());
    assert!(matches!(state.selection, TopologySelection::Nothing));
    assert_eq!((state.message.as_str(), state.sampled_revision), ("kept", 3));
}

#[test]
fn samples_are_taken_again_when_the_geometry_or_the_scale_changes() {
    let mut state = interaction();
    assert!(!state.needs_samples(3, n(100.0), n(100.0)));
    assert!(!state.needs_samples(3, n(0.0), n(-0.0)), "equal numbers are equal scales");
    assert!(state.needs_samples(4, n(100.0), n(100.0)));
    assert!(state.needs_samples(3, n(100.0), n(120.0)));
    state.samples_taken(4, false);
    assert!(state.needs_samples(4, n(100.0), n(100.0)));
    state.samples_taken(4, true);
    assert!(!state.needs_samples(4, n(100.0), n(100.0)));
    state.invalidate_samples();
    assert!(state.needs_samples(4, n(100.0), n(100.0)));
}

#[test]
fn a_new_curve_is_selected_whole() {
    let curves = vec![curve(4, &[40, 41]), curve(7, &[70])];
    match select_curve(&curves, 4).unwrap() {
        TopologySelection::Spans(spans) => assert_eq!(
            spans.values,
            vec![TopologySpanTarget::Curve(40), TopologySpanTarget::Curve(41)]
        ),
        other => panic!("{other:?}"),
    }
    assert!(select_curve(&curves, 9).is_none());
    let mut state = interaction();
    assert!(state.curve_created(Ok(select_curve(&curves, 7))));
    assert_eq!(state.message, "Curve added");
    assert_eq!(state.selection.spans().unwrap().values, vec![TopologySpanTarget::Curve(70)]);
    assert!(!state.curve_created(Err("Curves cross".to_string())));
    assert_eq!(state.message, "Curves cross");
    state.circle_created(Ok(None));
    assert_eq!(state.message, "Closed curve added");
    state.control_inserted(4, Ok(3));
    assert!(matches!(
        state.selection,
        TopologySelection::Handle(TopologyHandle::Control { curve: 4, control: 3 })
    ));
}

fn summary() -> RemovalSummary {
    RemovalSummary {
        whole_curves: 2,
        pieces: 0,
        promoted: 0,
        joined: vec![],
        removed_probes: 0,
        removed_regions: 0,
    }
}

#[test]
fn a_multi_curve_deletion_asks_once_and_takes_everything() {
    let selection = TopologySelection::Spans(spans(&[
        TopologySpanTarget::Curve(40),
        TopologySpanTarget::Curve(41),
        TopologySpanTarget::Curve(70),
        TopologySpanTarget::Outer(OuterSide::Top),
    ]));
    let whole = match deletion(None, &selection) {
        Deletion::Spans(spans) => spans,
        other => panic!("{other:?}"),
    };
    assert_eq!(whole.values, vec![40, 41, 70]);
    let pending = match plan_removal(whole, Ok(vec![1, 2, 3])) {
        RemovalStep::Ask(pending) => pending,
        other => panic!("{other:?}"),
    };
    assert_eq!(
        pending.choices.len(),
        3,
        "both subdomains and the background meet in one face: {:?}",
        pending.choices
    );
    match pending.action {
        MergeAction::Delete(spans) => assert_eq!(
            spans.values,
            vec![40, 41, 70],
            "the whole selection goes, not the curve the question was about"
        ),
        other => panic!("{other:?}"),
    }
    let mut state = interaction();
    assert!(state.spans_removed(Ok(summary())));
    assert!(matches!(state.selection, TopologySelection::Nothing));
}

#[test]
fn a_deletion_of_one_whole_curve_and_part_of_another_takes_both() {
    let selection = TopologySelection::Spans(spans(&[
        TopologySpanTarget::Curve(40),
        TopologySpanTarget::Curve(41),
        TopologySpanTarget::Curve(70),
        TopologySpanTarget::Curve(71),
    ]));
    let chosen = match deletion(None, &selection) {
        Deletion::Spans(spans) => spans,
        other => panic!("{other:?}"),
    };
    assert_eq!(chosen.values, vec![40, 41, 70, 71], "the run goes with the whole curve");
    assert!(matches!(
        plan_removal(chosen, Ok(vec![])),
        RemovalStep::Remove { survivor: None }
    ));
}

#[test]
fn a_deletion_is_of_one_thing_at_a_time() {
    let handle =
        TopologySelection::Handle(TopologyHandle::Control { curve: 4, control: 2 });
    assert!(matches!(deletion(Some(9), &handle), Deletion::Probe(9)));
    assert!(matches!(deletion(None, &handle), Deletion::Control { curve: 4, control: 2 }));
    let sides = TopologySelection::Spans(spans(&[TopologySpanTarget::Outer(OuterSide::Top)]));
    assert!(matches!(deletion(None, &sides), Deletion::Nothing));
    let junction = TopologySelection::Handle(TopologyHandle::Junction(1));
    assert!(matches!(deletion(None, &junction), Deletion::Nothing));
    match plan_removal(ids(&[1]), Err("locked".to_string())) {
        RemovalStep::Refused(reason) => assert_eq!(reason, "locked"),
        other => panic!("{other:?}"),
    }
    assert!(matches!(
        plan_removal(ids(&[1]), Ok(vec![8])),
        RemovalStep::Remove { survivor: Some(8) }
    ));
}

#[test]
fn a_deletion_reports_what_it_did_beyond_the_selection() {
    let mut state = interaction();
    assert!(state.spans_removed(Ok(summary())));
    assert_eq!(state.message, report_removal(&summary()));
    let more = RemovalSummary {
        promoted: 1,
        joined: vec![
            JoinRecord { survivor: 1, absorbed: 1 },
            JoinRecord { survivor: 1, absorbed: 2 },
        ],
        removed_probes: 3,
        removed_regions: 1,
        ..summary()
    };
    let text = report_removal(&more);
    assert!(text.starts_with(&report_removal(&summary())), "{text}");
    for part in [
        "1 attached curve promoted to baffles",
        "1 pair of loose ends welded into one curve",
        "1 curve closed into a loop",
        "3 probe(s) removed",
        "1 subdomain(s) merged",
    ] {
        assert!(text.contains(part), "{text}");
    }
    assert!(!state.spans_removed(Err("refused".to_string())));
    assert_eq!(state.message, "refused");
}

#[test]
fn a_deleted_probe_takes_its_window_along() {
    let mut state = interaction();
    state.selected_probe = Some(5);
    let mut windows = ids(&[4, 5]);
    state.probe_deleted(5, Err("busy".to_string()), &mut windows);
    assert_eq!(windows.values, vec![4, 5]);
    assert_eq!(state.message, "busy");
    state.probe_deleted(5, Ok(()), &mut windows);
    assert_eq!(windows.values, vec![4]);
    assert_eq!(state.selected_probe, None);
    state.control_removed(Err("last one".to_string()));
    assert_eq!(state.message, "last one");
    state.control_removed(Ok(()));
    assert_eq!(state.sampled_revision, u64::MAX);
}

#[test]
fn a_pass_works_through_its_stages_in_order() {
    let frame = FrameInput {
        drag_started: true,
        dragged: true,
        drag_stopped: true,
        clicked: true,
        delete: true,
        ..input()
    };
    let next = |at, ended, dragging| next_stage(at, ended, modes(), frame, dragging);
    assert_eq!(next(PassStage::Start, false, false), PassStage::Press);
    assert_eq!(next(PassStage::Press, true, true), PassStage::Over);
    assert_eq!(next(PassStage::Press, false, true), PassStage::Drag);
    assert_eq!(next(PassStage::Drag, false, true), PassStage::Release);
    assert_eq!(next(PassStage::Release, false, false), PassStage::Click);
    assert_eq!(next(PassStage::Click, true, false), PassStage::Over);
    assert_eq!(next(PassStage::Click, false, false), PassStage::Delete);
    assert_eq!(next(PassStage::Delete, false, false), PassStage::Over);
}

#[test]
fn a_pass_goes_to_what_owns_the_viewport() {
    let click = FrameInput { clicked: true, primary_clicked: true, ..input() };
    let merging = ViewportModes { merging: true, ..modes() };
    assert_eq!(
        next_stage(PassStage::Start, false, merging, click, false),
        PassStage::PickSurvivor
    );
    assert_eq!(next_stage(PassStage::Start, false, merging, input(), false), PassStage::Over);
    let drawing = ViewportModes { drawing: true, ..modes() };
    let twice = FrameInput { double_clicked: true, ..click };
    assert_eq!(next_stage(PassStage::Start, false, drawing, twice, false), PassStage::DoubleClick);
    assert_eq!(
        next_stage(PassStage::DoubleClick, false, drawing, twice, false),
        PassStage::Draw { place: true, undo: false, finish: false }
    );
    assert_eq!(next_stage(PassStage::DoubleClick, true, drawing, twice, false), PassStage::Over);
    let escape = FrameInput { escape: true, ..input() };
    assert_eq!(next_stage(PassStage::Start, false, drawing, escape, false), PassStage::Cancel);
    let typing = FrameInput { typing: true, delete: true, ..escape };
    assert_eq!(next_stage(PassStage::Start, false, modes(), typing, false), PassStage::Over);
}
