use funfern::attachment::{
    hit_attachment, span_context, CompiledEdgeSource, EdgeFaces, FaceAssignment, MeasuredEdge,
    MeasuredVertex, TopologyAttachment,
};
use funfern::hits::{
    segments_intersect, ScreenLine, ScreenRect, SideTurns, Turns, ViewportTransform,
};
use funfern::model::{
    CurveNode, CurveSpan, CurveSpline, CurveTraceSide, DomainRect, FaceAnchor,
    FaceBoundaryCondition, InternalBoundaryCoupling, OuterSide, SpanBehavior, SplineData,
    TopologyCurve, TopologyGeometry, TopologyVertex, TopologyVertexLocation,
};
use funfern::sampling::{
    CurveSampling, Sample, SampledTopologyGeometry, SamplingError, SpanEnds,
};
use funfern::scalar::{Point2, Scalar};
use funfern::selection::{
    incident_spans, SpanSet, TopologyHandle, TopologyHit, TopologySelection, TopologySpanTarget,
};
use funfern::transform::{
    plan_handle_drag, CurveShape, RigidTransform, TopologyTransformIssue, TopologyTransformUpdate,
};
use funfern::transform_plan::{plan_axis_scale, plan_rigid_transform, selection_is_c0_isolated};

const BACKGROUND_FACE: u64 = 1;
const EXTERIOR_FACE: u64 = 0;

fn n(value: f64) -> Scalar {
    Scalar { bits: value.to_bits() }
}

fn value(number: Scalar) -> f64 {
    f64::from_bits(number.bits)
}

fn p(x: f64, y: f64) -> Point2 {
    Point2 { x: n(x), y: n(y) }
}

fn view() -> ViewportTransform {
    ViewportTransform {
        screen_center: p(100.0, 100.0),
        world_center: p(0.0, 0.0),
        pixels_per_world: n(100.0),
    }
}

fn screen(point: Point2) -> (f64, f64) {
    (100.0 + value(point.x) * 100.0, 100.0 - value(point.y) * 100.0)
}

const REFLECTING: SpanBehavior = SpanBehavior::Separated {
    left: FaceBoundaryCondition::Reflecting,
    right: FaceBoundaryCondition::Reflecting,
    coupling: InternalBoundaryCoupling::Independent,
};

/// A polyline as a cubic spline: three control points to a segment and a corner
/// at every point.
fn open_curve(id: u64, span: u64, points: &[(f64, f64)]) -> TopologyCurve {
    let mut controls = vec![p(points[0].0, points[0].1)];
    for pair in points.windows(2) {
        let (from, to) = (pair[0], pair[1]);
        for step in [1.0 / 3.0, 2.0 / 3.0] {
            controls.push(p(from.0 + (to.0 - from.0) * step, from.1 + (to.1 - from.1) * step));
        }
        controls.push(p(to.0, to.1));
    }
    let count = points.len() - 1;
    TopologyCurve {
        id,
        spline: CurveSpline::Open(SplineData {
            controls,
            intervals: vec![n(1.0); count],
            multiplicities: vec![3; count - 1],
            span_bounds: (0..count).map(|i| (n(i as f64), n(i as f64 + 1.0))).collect(),
        }),
        nodes: (0..points.len()).map(|_| CurveNode { vertex: None }).collect(),
        spans: (0..count)
            .map(|offset| CurveSpan { id: span + offset as u64, behavior: REFLECTING })
            .collect(),
    }
}

fn shape(curve: &TopologyCurve) -> CurveShape {
    let count = curve.spans.len();
    CurveShape {
        span_controls: (0..count).map(|i| Some(vec![3 * i, 3 * i + 1, 3 * i + 2, 3 * i + 3])).collect(),
        continuity: vec![Some(0); count],
    }
}

/// The samples of a polyline at its corners.
fn sampling(points: &[(f64, f64)]) -> CurveSampling {
    CurveSampling {
        samples: Ok(points
            .iter()
            .enumerate()
            .map(|(index, point)| Sample { t: n(index as f64), point: p(point.0, point.1) })
            .collect()),
        ends: points
            .windows(2)
            .map(|pair| SpanEnds {
                start: p(pair[0].0, pair[0].1),
                end: p(pair[1].0, pair[1].1),
            })
            .collect(),
    }
}

fn unit() -> DomainRect {
    DomainRect { min_x: n(-1.0), max_x: n(1.0), min_y: n(-1.0), max_y: n(1.0) }
}

fn curves(curves: Vec<TopologyCurve>) -> TopologyGeometry {
    TopologyGeometry { domain: unit(), curves, vertices: vec![] }
}

fn set(targets: &[TopologySpanTarget]) -> SpanSet {
    let mut set = SpanSet::new();
    for target in targets {
        set.insert(*target);
    }
    set
}

fn distance(a: (f64, f64), b: (f64, f64)) -> f64 {
    (a.0 - b.0).hypot(a.1 - b.1)
}

fn segment_distance(point: (f64, f64), a: (f64, f64), b: (f64, f64)) -> f64 {
    let edge = (b.0 - a.0, b.1 - a.1);
    let length = edge.0 * edge.0 + edge.1 * edge.1;
    let along = ((point.0 - a.0) * edge.0 + (point.1 - a.1) * edge.1) / length;
    let along = along.clamp(0.0, 1.0);
    distance(point, (a.0 + edge.0 * along, a.1 + edge.1 * along))
}

fn hit(sampled: &SampledTopologyGeometry, pointer: (f64, f64), radius: f64) -> Option<TopologyHit> {
    let handles =
        sampled.handles.iter().map(|handle| n(distance(pointer, screen(handle.point)))).collect();
    let segments = sampled
        .spans
        .iter()
        .map(|span| {
            span.samples
                .windows(2)
                .map(|pair| {
                    n(segment_distance(pointer, screen(pair[0].point), screen(pair[1].point)))
                })
                .collect()
        })
        .collect();
    sampled.hit_test(&handles, &segments, n(radius), n(radius))
}

fn turn(a: (f64, f64), b: (f64, f64), c: (f64, f64)) -> f64 {
    (b.0 - a.0) * (c.1 - a.1) - (b.1 - a.1) * (c.0 - a.0)
}

fn turns(a: (f64, f64), b: (f64, f64), c: (f64, f64), d: (f64, f64)) -> Turns {
    Turns {
        of_first: n(turn(a, b, c) * turn(a, b, d)),
        of_second: n(turn(c, d, a) * turn(c, d, b)),
    }
}

fn marquee(sampled: &SampledTopologyGeometry, start: (f64, f64), end: (f64, f64)) -> SpanSet {
    let min = (start.0.min(end.0), start.1.min(end.1));
    let max = (start.0.max(end.0), start.1.max(end.1));
    let corners = [min, (max.0, min.1), max, (min.0, max.1)];
    let lines = sampled
        .spans
        .iter()
        .map(|span| {
            let points: Vec<(f64, f64)> =
                span.samples.iter().map(|sample| screen(sample.point)).collect();
            ScreenLine {
                turns: points
                    .windows(2)
                    .map(|pair| SideTurns {
                        bottom: turns(pair[0], pair[1], corners[0], corners[1]),
                        right: turns(pair[0], pair[1], corners[1], corners[2]),
                        top: turns(pair[0], pair[1], corners[2], corners[3]),
                        left: turns(pair[0], pair[1], corners[3], corners[0]),
                    })
                    .collect(),
                samples: points.iter().map(|point| p(point.0, point.1)).collect(),
            }
        })
        .collect();
    sampled.marquee_hits(p(start.0, start.1), p(end.0, end.1), &lines)
}

#[test]
fn junction_handle_wins_over_curve_and_control() {
    let line = [(-0.5, 0.0), (0.0, 0.0)];
    let mut curve = open_curve(1, 1, &line);
    curve.nodes[1].vertex = Some(1);
    let geometry = TopologyGeometry {
        domain: unit(),
        curves: vec![curve],
        vertices: vec![TopologyVertex {
            id: 1,
            location: TopologyVertexLocation::Interior(p(0.0, 0.0)),
        }],
    };
    let sampled = SampledTopologyGeometry::new(
        &geometry,
        view(),
        n(0.25),
        &vec![sampling(&line)],
        &vec![Some(p(0.0, 0.0))],
    )
    .unwrap();
    assert_eq!(sampled.handles.len(), 5);
    assert_eq!(
        hit(&sampled, (100.0, 100.0), 8.0),
        Some(TopologyHit::Handle { handle: TopologyHandle::Junction(1), distance: n(0.0) })
    );
    assert_eq!(
        hit(&sampled, (75.0, 103.0), 8.0),
        Some(TopologyHit::Span { target: TopologySpanTarget::Curve(1), distance: n(3.0) })
    );
    assert_eq!(
        hit(&sampled, (100.0, 2.0), 8.0),
        Some(TopologyHit::Span {
            target: TopologySpanTarget::Outer(OuterSide::Top),
            distance: n(2.0)
        })
    );
    assert_eq!(hit(&sampled, (100.0, 40.0), 8.0), None);
}

#[test]
fn sampling_covers_sides_spans_and_handles_or_says_why_not() {
    let line = [(-0.8, 0.0), (0.0, 0.0), (0.8, 0.0)];
    let geometry = curves(vec![open_curve(1, 10, &line)]);
    let sampled =
        SampledTopologyGeometry::new(&geometry, view(), n(0.25), &vec![sampling(&line)], &vec![])
            .unwrap();
    assert_eq!(sampled.spans.len(), 6);
    assert_eq!(sampled.spans[0].target, TopologySpanTarget::Outer(OuterSide::Bottom));
    assert_eq!(sampled.spans[0].samples[0].point, p(-1.0, -1.0));
    assert_eq!(sampled.spans[0].samples[1].point, p(1.0, -1.0));
    assert_eq!(sampled.spans[5].target, TopologySpanTarget::Curve(11));
    assert_eq!(sampled.spans[5].curve, Some(1));
    assert_eq!(
        sampled.spans[5].samples,
        vec![Sample { t: n(1.0), point: p(0.0, 0.0) }, Sample { t: n(2.0), point: p(0.8, 0.0) }]
    );
    assert_eq!(sampled.handles[3].handle, TopologyHandle::Control { curve: 1, control: 3 });

    let broken = ViewportTransform { pixels_per_world: n(0.0), ..view() };
    assert_eq!(
        SampledTopologyGeometry::new(&geometry, broken, n(0.25), &vec![sampling(&line)], &vec![])
            .unwrap_err(),
        SamplingError::NonFinite
    );
    let refused = CurveSampling { samples: Err(SamplingError::Engine(3)), ..sampling(&line) };
    assert_eq!(
        SampledTopologyGeometry::new(&geometry, view(), n(0.25), &vec![refused], &vec![])
            .unwrap_err(),
        SamplingError::Engine(3)
    );
}

#[test]
fn a_span_between_samples_is_closed_at_its_ends() {
    let line = [(-0.8, 0.0), (0.0, 0.0), (0.8, 0.0)];
    let geometry = curves(vec![open_curve(1, 10, &line)]);
    let sparse = CurveSampling {
        samples: Ok(vec![
            Sample { t: n(0.5), point: p(-0.4, 0.0) },
            Sample { t: n(1.5), point: p(0.4, 0.0) },
        ]),
        ..sampling(&line)
    };
    let sampled =
        SampledTopologyGeometry::new(&geometry, view(), n(0.25), &vec![sparse], &vec![]).unwrap();
    let ts: Vec<f64> = sampled.spans[4].samples.iter().map(|sample| value(sample.t)).collect();
    assert_eq!(ts, vec![0.0, 0.5, 1.0]);
}

#[test]
fn span_click_supports_toggle_and_whole_curve() {
    let geometry = curves(vec![open_curve(1, 10, &[(-0.8, 0.0), (0.0, 0.0), (0.8, 0.0)])]);
    let mut selection = TopologySelection::Nothing;
    selection.select_span(&geometry, TopologySpanTarget::Curve(10), false, true);
    assert_eq!(selection.spans().unwrap().len(), 2);
    selection.select_span(&geometry, TopologySpanTarget::Curve(10), true, false);
    assert_eq!(selection.spans().unwrap().values, vec![TopologySpanTarget::Curve(11)]);
    selection.select_span(&geometry, TopologySpanTarget::Curve(11), true, false);
    assert!(matches!(selection, TopologySelection::Nothing));
}

#[test]
fn a_click_on_a_handle_replaces_the_selected_spans() {
    let geometry = curves(vec![open_curve(1, 10, &[(-0.8, 0.0), (0.8, 0.0)])]);
    let mut selection = TopologySelection::Nothing;
    let span = TopologySpanTarget::Outer(OuterSide::Left);
    let side = TopologyHit::Span { target: span, distance: n(1.0) };
    selection.apply_hit(&geometry, side, false, false);
    assert_eq!(selection.spans().unwrap().values, vec![span]);
    selection.apply_hit(&geometry, side, false, true);
    assert_eq!(selection.spans().unwrap().len(), 4, "all of the outer boundary");
    let handle = TopologyHandle::Control { curve: 1, control: 2 };
    selection.apply_hit(&geometry, TopologyHit::Handle { handle, distance: n(0.0) }, true, false);
    assert!(selection.spans().is_none());
    assert!(matches!(selection, TopologySelection::Handle(selected) if selected == handle));
}

#[test]
fn marquee_direction_switches_enclosure_and_crossing() {
    let line = [(-0.8, 0.0), (0.8, 0.0)];
    let geometry = curves(vec![open_curve(1, 10, &line)]);
    let sampled =
        SampledTopologyGeometry::new(&geometry, view(), n(0.25), &vec![sampling(&line)], &vec![])
            .unwrap();
    let left_to_right = marquee(&sampled, (90.0, 90.0), (110.0, 110.0));
    let right_to_left = marquee(&sampled, (110.0, 90.0), (90.0, 110.0));
    assert!(!left_to_right.contains(&TopologySpanTarget::Curve(10)));
    assert!(right_to_left.contains(&TopologySpanTarget::Curve(10)));
    let around = marquee(&sampled, (10.0, 90.0), (190.0, 110.0));
    assert_eq!(around.values, vec![TopologySpanTarget::Curve(10)]);
    assert!(marquee(&sampled, (110.0, 20.0), (90.0, 40.0)).is_empty());
}

#[test]
fn what_a_marquee_encloses_is_taken_both_ways() {
    let inner = [(-0.2, 0.0), (0.2, 0.0)];
    let outer = [(-0.8, 0.1), (0.8, 0.1)];
    let geometry = curves(vec![open_curve(1, 10, &inner), open_curve(2, 20, &outer)]);
    let samplings = vec![sampling(&inner), sampling(&outer)];
    let sampled =
        SampledTopologyGeometry::new(&geometry, view(), n(0.25), &samplings, &vec![]).unwrap();
    let (inner, outer) = (TopologySpanTarget::Curve(10), TopologySpanTarget::Curve(20));
    for (low, high) in [(60.0, 140.0), (140.0, 60.0)] {
        let rightwards = marquee(&sampled, (60.0, low), (140.0, high));
        let leftwards = marquee(&sampled, (140.0, low), (60.0, high));
        assert!(rightwards.contains(&inner) && !rightwards.contains(&outer));
        assert!(leftwards.contains(&inner) && leftwards.contains(&outer));
    }
}

#[test]
fn segments_meet_only_where_they_cross() {
    let cross = |a: (f64, f64), b: (f64, f64), c: (f64, f64), d: (f64, f64)| {
        segments_intersect(
            p(a.0, a.1),
            p(b.0, b.1),
            p(c.0, c.1),
            p(d.0, d.1),
            turns(a, b, c, d),
        )
    };
    assert!(cross((0.0, 0.0), (2.0, 2.0), (0.0, 2.0), (2.0, 0.0)));
    assert!(!cross((0.0, 0.0), (1.0, 1.0), (0.0, 3.0), (3.0, 1.5)));
    assert!(!cross((0.0, 0.0), (1.0, 0.0), (2.0, 0.0), (3.0, 0.0)));
    let rect = ScreenRect::from_points(p(4.0, 1.0), p(0.0, 3.0));
    assert_eq!(rect, ScreenRect { min: p(0.0, 1.0), max: p(4.0, 3.0) });
    assert!(rect.contains(p(4.0, 3.0)) && !rect.contains(p(4.0, 3.5)));
}

fn joined() -> TopologyGeometry {
    let mut left = open_curve(1, 10, &[(-0.8, 0.0), (0.0, 0.0)]);
    left.nodes[1].vertex = Some(1);
    let mut right = open_curve(2, 20, &[(0.0, 0.0), (0.8, 0.0)]);
    right.nodes[0].vertex = Some(1);
    TopologyGeometry {
        domain: unit(),
        curves: vec![left, right],
        vertices: vec![TopologyVertex {
            id: 1,
            location: TopologyVertexLocation::Interior(p(0.0, 0.0)),
        }],
    }
}

#[test]
fn the_nodes_of_a_closed_curve_go_round() {
    let behavior = joined().curves[0].spans[0].behavior;
    let incident = |node: usize| {
        let mut geometry = TopologyGeometry {
            domain: unit(),
            curves: vec![TopologyCurve {
                id: 1,
                spline: CurveSpline::Closed(SplineData {
                    controls: vec![],
                    intervals: vec![],
                    multiplicities: vec![],
                    span_bounds: vec![],
                }),
                nodes: vec![CurveNode { vertex: None }; 5],
                spans: [10, 11, 12].map(|id| CurveSpan { id, behavior }).to_vec(),
            }],
            vertices: vec![],
        };
        geometry.curves[0].nodes[node].vertex = Some(7);
        incident_spans(&geometry, 7).values
    };
    assert_eq!(incident(0), vec![10, 12]);
    assert_eq!(incident(1), vec![10, 11]);
    assert_eq!(incident(2), vec![11, 12]);
    assert_eq!(incident(3), vec![10, 12], "more nodes than spans count from the start");
    assert_eq!(incident(4), vec![10, 11]);
}

fn lift() -> RigidTransform {
    RigidTransform {
        pivot: p(0.0, 0.0),
        translation: p(0.0, 0.2),
        rotation_radians: n(0.0),
        scale: n(1.0),
    }
}

fn raise(point: Point2) -> Point2 {
    p(value(point.x), value(point.y) + 0.2)
}

#[test]
fn partial_junction_blocks_rigid_transform_and_can_expand_selection() {
    let geometry = joined();
    let shapes: Vec<CurveShape> = geometry.curves.iter().map(shape).collect();
    let points = vec![p(0.0, 0.0)];
    let selected = set(&[TopologySpanTarget::Curve(10)]);
    match plan_rigid_transform(&geometry, &shapes, &points, &selected, lift(), raise) {
        Err(TopologyTransformIssue::PartialJunction { vertex, missing }) => {
            assert_eq!(vertex, 1);
            assert_eq!(missing.values, vec![20]);
        }
        other => panic!("{other:?}"),
    }
    assert_eq!(incident_spans(&geometry, 1).values, vec![10, 20]);
    let mut selection = TopologySelection::Spans(selected);
    selection.select_incident_spans(&geometry, 1);
    let updates = plan_rigid_transform(
        &geometry,
        &shapes,
        &points,
        selection.spans().unwrap(),
        lift(),
        raise,
    )
    .unwrap();
    assert_eq!(
        updates
            .iter()
            .filter(|update| matches!(update, TopologyTransformUpdate::Vertex { .. }))
            .count(),
        1
    );
    assert!(updates
        .iter()
        .any(|update| *update == TopologyTransformUpdate::Vertex { vertex: 1, point: p(0.0, 0.2) }));
}

#[test]
fn axis_scale_uses_the_rigid_selection_contract() {
    let geometry = curves(vec![open_curve(1, 10, &[(-0.5, -0.25), (0.5, 0.25)])]);
    let shapes = vec![shape(&geometry.curves[0])];
    let selected = set(&[TopologySpanTarget::Curve(10)]);
    let updates = plan_axis_scale(
        &geometry,
        &shapes,
        &vec![],
        &selected,
        p(0.0, 0.0),
        n(2.0),
        n(0.5),
        |point: Point2| p(value(point.x) * 2.0, value(point.y) * 0.5),
    )
    .unwrap();
    let points = updates
        .iter()
        .filter_map(|update| match update {
            TopologyTransformUpdate::Control { point, .. } => Some(*point),
            _ => None,
        })
        .collect::<Vec<_>>();
    assert_eq!(points.first().copied(), Some(p(-1.0, -0.125)));
    assert_eq!(points.last().copied(), Some(p(1.0, 0.125)));
}

#[test]
fn a_transform_is_refused_with_its_reason() {
    let geometry = curves(vec![open_curve(1, 10, &[(-0.8, 0.0), (0.0, 0.0), (0.8, 0.0)])]);
    let corners = vec![shape(&geometry.curves[0])];
    let plan = |shapes: &Vec<CurveShape>, targets: &[TopologySpanTarget], transform| {
        plan_rigid_transform(&geometry, shapes, &vec![], &set(targets), transform, raise)
    };
    let first = [TopologySpanTarget::Curve(10)];
    assert!(matches!(
        plan(&corners, &[], lift()),
        Err(TopologyTransformIssue::EmptySelection)
    ));
    let with_side = [TopologySpanTarget::Curve(10), TopologySpanTarget::Outer(OuterSide::Top)];
    assert!(matches!(
        plan(&corners, &with_side, lift()),
        Err(TopologyTransformIssue::OuterBoundarySelected)
    ));
    let flat = RigidTransform { scale: n(0.0), ..lift() };
    assert!(matches!(
        plan(&corners, &first, flat),
        Err(TopologyTransformIssue::InvalidTransform)
    ));
    assert!(plan(&corners, &first, lift()).is_ok());
    let smooth = vec![CurveShape { continuity: vec![Some(0), Some(2)], ..shape(&geometry.curves[0]) }];
    let refused = plan(&smooth, &first, lift()).unwrap_err();
    assert!(matches!(refused, TopologyTransformIssue::NonC0Selection));
    assert_eq!(
        refused.message(),
        "Selected span section must end at a corner or include the whole curve"
    );
    let both = [TopologySpanTarget::Curve(10), TopologySpanTarget::Curve(11)];
    assert!(plan(&smooth, &both, lift()).is_ok());
}

#[test]
fn a_section_is_isolated_where_it_ends_at_corners() {
    let smooth = Some(2);
    let corner = Some(0);
    let middle = vec![false, true, false];
    assert!(selection_is_c0_isolated(true, &middle, &vec![corner, corner, corner]));
    assert!(!selection_is_c0_isolated(true, &middle, &vec![corner, corner, smooth]));
    assert!(!selection_is_c0_isolated(true, &middle, &vec![corner, smooth, corner]));
    let whole = vec![true, true, true];
    assert!(selection_is_c0_isolated(false, &whole, &vec![smooth, smooth, smooth]));
    let ends = vec![true, false, true];
    assert!(selection_is_c0_isolated(false, &ends, &vec![smooth, corner, corner]));
    assert!(!selection_is_c0_isolated(false, &vec![true, false, false], &vec![smooth, corner, corner]));
}

#[test]
fn a_dragged_handle_moves_to_the_pointer() {
    let geometry = joined();
    let control = TopologyHandle::Control { curve: 2, control: 3 };
    assert_eq!(
        plan_handle_drag(&geometry, control, p(0.5, 0.5)).unwrap(),
        TopologyTransformUpdate::Control { curve: 2, control: 3, point: p(0.5, 0.5) }
    );
    assert_eq!(
        plan_handle_drag(&geometry, TopologyHandle::Junction(1), p(0.1, 0.0)).unwrap(),
        TopologyTransformUpdate::Vertex { vertex: 1, point: p(0.1, 0.0) }
    );
    assert!(matches!(
        plan_handle_drag(&geometry, TopologyHandle::Junction(2), p(0.1, 0.0)),
        Err(TopologyTransformIssue::EmptySelection)
    ));
    assert!(matches!(
        plan_handle_drag(&geometry, control, p(f64::INFINITY, 0.0)),
        Err(TopologyTransformIssue::InvalidTransform)
    ));
    let missing = TopologyHandle::Control { curve: 2, control: 4 };
    assert!(matches!(
        plan_handle_drag(&geometry, missing, p(0.0, 0.0)),
        Err(TopologyTransformIssue::EmptySelection)
    ));
}

/// The edges of a unit square with the background inside.
fn side_edge(side: OuterSide, distance: f64, parameter: f64) -> MeasuredEdge {
    MeasuredEdge {
        source: CompiledEdgeSource::Outer(side),
        curve: None,
        left: BACKGROUND_FACE,
        right: EXTERIOR_FACE,
        parameter: n(parameter),
        point: p(0.0, -1.0),
        distance: n(distance),
        turn: n(0.0),
        left_anchor: Some(BACKGROUND_FACE),
        right_anchor: None,
    }
}

#[test]
fn attachment_hit_respects_requested_face_side() {
    let assignments = vec![FaceAssignment { face: BACKGROUND_FACE, region: Some(1) }];
    let edges = vec![
        side_edge(OuterSide::Bottom, 0.0, 0.5),
        side_edge(OuterSide::Right, 100.0, 0.0),
        side_edge(OuterSide::Top, 200.0, 0.5),
        side_edge(OuterSide::Left, 100.0, 1.0),
    ];
    let hit =
        hit_attachment(&vec![], &edges, &assignments, n(5.0), Some(BACKGROUND_FACE)).unwrap();
    assert!(matches!(
        hit.attachment,
        TopologyAttachment::Boundary(FaceAnchor::Outer { side: OuterSide::Bottom, fraction })
            if (value(fraction) - 0.5).abs() < 1.0e-12
    ));
    assert!(
        hit_attachment(&vec![], &edges, &assignments, n(5.0), Some(EXTERIOR_FACE)).is_none()
    );
}

fn hole_edge(distance: f64, turn: f64) -> MeasuredEdge {
    MeasuredEdge {
        source: CompiledEdgeSource::Curve(41),
        curve: Some(4),
        left: 2,
        right: BACKGROUND_FACE,
        parameter: n(0.25),
        point: p(0.25, 0.0),
        distance: n(distance),
        turn: n(turn),
        left_anchor: Some(2),
        right_anchor: Some(BACKGROUND_FACE),
    }
}

#[test]
fn attachment_hit_finds_an_inner_curve_on_its_active_face() {
    let assignments = vec![
        FaceAssignment { face: BACKGROUND_FACE, region: Some(1) },
        FaceAssignment { face: 2, region: None },
    ];
    let on_it = vec![hole_edge(0.0, 0.0)];
    let hit =
        hit_attachment(&vec![], &on_it, &assignments, n(5.0), Some(BACKGROUND_FACE)).unwrap();
    assert!(matches!(
        hit.attachment,
        TopologyAttachment::Boundary(FaceAnchor::Curve { curve: 4, side: CurveTraceSide::Right, .. })
    ));
    for (turn, side) in [(6.0, CurveTraceSide::Right), (-6.0, CurveTraceSide::Left)] {
        let beside = vec![hole_edge(3.0, turn)];
        let hit = hit_attachment(&vec![], &beside, &assignments, n(5.0), None).unwrap();
        assert!(matches!(
            hit.attachment,
            TopologyAttachment::Boundary(FaceAnchor::Curve { side: found, .. }) if found == side
        ));
        assert_eq!(hit.distance, n(3.0));
    }
}

#[test]
fn a_junction_outranks_the_edges_that_meet_at_it() {
    let assignments = vec![FaceAssignment { face: BACKGROUND_FACE, region: Some(1) }];
    let vertices = vec![MeasuredVertex {
        authored: Some(8),
        point: p(0.3, 0.0),
        faces: vec![2, BACKGROUND_FACE],
        distance: n(4.0),
    }];
    let hit =
        hit_attachment(&vertices, &vec![hole_edge(0.5, 1.0)], &assignments, n(5.0), None).unwrap();
    assert_eq!(
        hit.attachment,
        TopologyAttachment::Junction { vertex: 8, face: BACKGROUND_FACE }
    );
    let far = hit_attachment(&vertices, &vec![hole_edge(0.5, 1.0)], &assignments, n(3.0), None);
    assert!(matches!(far.unwrap().attachment, TopologyAttachment::Boundary(_)));
}

#[test]
fn span_context_keeps_parameter_relative_sides_and_active_faces() {
    let curve = open_curve(4, 41, &[(-0.8, 0.0), (0.8, 0.0)]);
    let assignments = vec![
        FaceAssignment { face: BACKGROUND_FACE, region: Some(1) },
        FaceAssignment { face: 2, region: None },
    ];
    let edges = vec![EdgeFaces { left: 2, right: BACKGROUND_FACE }];
    let context =
        span_context(&vec![curve], &assignments, &edges, 41, p(0.0, 0.0), p(1.0, 0.0)).unwrap();
    assert_eq!(context.curve, 4);
    assert_eq!(context.behavior, REFLECTING);
    assert_ne!(context.left.active, context.right.active);
    assert_eq!(context.right.regions.values, vec![1]);
    assert!((value(context.direction.x).hypot(value(context.direction.y)) - 1.0).abs() < 1.0e-12);
    assert!(span_context(&vec![], &assignments, &edges, 41, p(0.0, 0.0), p(1.0, 0.0)).is_none());
}
