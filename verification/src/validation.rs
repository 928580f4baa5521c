//! What a document must satisfy before it is stored or opened.
//!
//! Some of it only the engine can say: whether a scene is structurally sound,
//! whether its vertices can be placed, whether it compiles. Those verdicts come
//! in as arguments; the rest is checked here.

use crate::collect::{find, first_place, first_value, lists};
use crate::model::{
    AuthoredFaceAssignment, CurveNode, CurveSpan, CurveSpline, FaceAnchor, Region, TopologyCurve,
    TopologyScene, TopologyVertex,
};
use crate::scalar::Scalar;
use vstd::prelude::*;

verus! {

/// How large a document may be.
#[derive(Clone, Copy, Debug, PartialEq, Eq, Structural)]
pub struct DocumentLimits {
    pub max_curves: usize,
    pub max_vertices: usize,
    pub max_probes: usize,
    /// The sampling points of all line probes together.
    pub max_segment_probe_points: usize,
}

/// What the engine says of a scene.
#[derive(Debug)]
pub struct SceneVerdict {
    /// What is structurally wrong with the scene.
    pub structure: Option<String>,
    /// For each vertex whether its location gives a point of the domain.
    pub vertex_placed: Vec<bool>,
}

/// Ids that are all different and none of them zero.
pub open spec fn valid_ids(ids: Seq<u64>) -> bool {
    &&& forall|i: int| 0 <= i < ids.len() ==> #[trigger] ids[i] != 0
    &&& ids.no_duplicates()
}

pub open spec fn curve_ids(curves: Seq<TopologyCurve>) -> Seq<u64> {
    curves.map_values(|curve: TopologyCurve| curve.id)
}

pub open spec fn ids_of_spans(spans: Seq<CurveSpan>) -> Seq<u64> {
    spans.map_values(|span: CurveSpan| span.id)
}

/// The ids of all spans, curve by curve.
pub open spec fn span_ids(curves: Seq<TopologyCurve>) -> Seq<u64>
    decreases curves.len(),
{
    if curves.len() == 0 {
        Seq::empty()
    } else {
        span_ids(curves.drop_last()) + ids_of_spans(curves.last().spans@)
    }
}

pub open spec fn vertex_ids(vertices: Seq<TopologyVertex>) -> Seq<u64> {
    vertices.map_values(|vertex: TopologyVertex| vertex.id)
}

pub open spec fn region_ids(regions: Seq<Region>) -> Seq<u64> {
    regions.map_values(|region: Region| region.id)
}

/// Every vertex that a curve passes through exists.
pub open spec fn nodes_have_vertices(curves: Seq<TopologyCurve>, vertices: Seq<u64>) -> bool {
    forall|i: int|
        0 <= i < curves.len() ==> #[trigger] curve_has_vertices(curves[i].nodes@, vertices)
}

pub open spec fn curve_has_vertices(nodes: Seq<CurveNode>, vertices: Seq<u64>) -> bool {
    forall|j: int|
        0 <= j < nodes.len() && (#[trigger] nodes[j]).vertex is Some ==> vertices.contains(
            nodes[j].vertex->0,
        )
}

pub open spec fn curve_named(curves: Seq<TopologyCurve>, id: u64) -> Option<TopologyCurve> {
    first_value(curves, |curve: TopologyCurve| curve.id == id)
}

pub open spec fn span_place(spans: Seq<CurveSpan>, id: u64) -> Option<int> {
    first_place(spans, |span: CurveSpan| span.id == id)
}

/// An anchor on an outer wall lies on the wall; one on a curve names a span and
/// a parameter inside the span's interval.
pub open spec fn anchor_valid(anchor: FaceAnchor, curves: Seq<TopologyCurve>) -> bool {
    match anchor {
        FaceAnchor::Outer { fraction, .. } => {
            &&& fraction.finite()
            &&& Scalar::zero_num().le_num(fraction)
            &&& fraction.le_num(Scalar::one_num())
        },
        FaceAnchor::Curve { curve, span, parameter, .. } => match curve_named(curves, curve) {
            None => false,
            Some(found) => match span_place(found.spans@, span) {
                None => false,
                Some(place) => place < found.spline.bounds().len() && {
                    let (a, b) = found.spline.bounds()[place];
                    &&& parameter.finite()
                    &&& a.smaller_num(b).le_num(parameter)
                    &&& parameter.le_num(a.larger_num(b))
                },
            },
        },
    }
}

pub open spec fn assignment_valid(
    assignment: AuthoredFaceAssignment,
    scene: TopologyScene,
) -> bool {
    &&& assignment.region matches Some(region) ==> region_ids(scene.regions@).contains(region)
    &&& anchor_valid(assignment.anchor, scene.geometry.curves@)
}

pub open spec fn vertices_valid(vertices: Seq<TopologyVertex>, placed: Seq<bool>) -> bool {
    &&& valid_ids(vertex_ids(vertices))
    &&& forall|i: int| 0 <= i < vertices.len() ==> #[trigger] placed[i]
}

/// What is wrong with the structure of a scene, if anything.
pub open spec fn structure_issue(
    scene: TopologyScene,
    verdict: SceneVerdict,
    limits: DocumentLimits,
) -> Option<Seq<char>> {
    let curves = scene.geometry.curves@;
    let vertices = scene.geometry.vertices@;
    if verdict.structure is Some {
        Some(verdict.structure->0@)
    } else if curves.len() > limits.max_curves || vertices.len() > limits.max_vertices {
        Some("Scene exceeds topology object limits"@)
    } else if !valid_ids(curve_ids(curves)) || !valid_ids(span_ids(curves)) {
        Some("Scene contains duplicate or invalid curve IDs"@)
    } else if !vertices_valid(vertices, verdict.vertex_placed@) {
        Some("Scene contains duplicate or invalid topology vertices"@)
    } else if !nodes_have_vertices(curves, vertex_ids(vertices)) {
        Some("Curve references a missing topology vertex"@)
    } else if exists|i: int|
        0 <= i < scene.face_assignments@.len() && !assignment_valid(
            #[trigger] scene.face_assignments@[i],
            scene,
        ) {
        Some("Scene contains a malformed face assignment"@)
    } else {
        None
    }
}

/// Adds an id to those seen. It is refused when it is zero or was seen before.
fn note_id(seen: &mut Vec<u64>, id: u64) -> (result: bool)
    requires
        valid_ids(old(seen)@),
    ensures
        final(seen)@ == old(seen)@.push(id),
        result == valid_ids(final(seen)@),
{
    let fresh: bool = id != 0 && !lists(seen, id);
    let ghost before = seen@;
    seen.push(id);
    proof {
        let after = seen@;
        if fresh {
            assert(after.no_duplicates());
            assert forall|i: int| 0 <= i < after.len() implies #[trigger] after[i] != 0 by {
                if i < before.len() {
                    assert(before[i] != 0);
                }
            }
        } else if id == 0 {
            assert(after[before.len() as int] == 0);
        } else {
            let i = before.index_of(id);
            assert(after[i] == after[before.len() as int]);
        }
    }
    fresh
}

/// An invalid beginning cannot become valid.
proof fn invalid_ids_stay_invalid(prefix: Seq<u64>, ids: Seq<u64>)
    requires
        prefix.len() <= ids.len(),
        prefix =~= ids.take(prefix.len() as int),
    ensures
        valid_ids(ids) ==> valid_ids(prefix),
{
    if valid_ids(ids) {
        assert forall|i: int| 0 <= i < prefix.len() implies #[trigger] prefix[i] != 0 by {
            assert(prefix[i] == ids[i]);
        }
        assert(prefix.no_duplicates());
    }
}

fn check_curve_ids(curves: &Vec<TopologyCurve>) -> (result: bool)
    ensures
        result == (valid_ids(curve_ids(curves@)) && valid_ids(span_ids(curves@))),
{
    let mut curve_seen: Vec<u64> = Vec::new();
    let mut span_seen: Vec<u64> = Vec::new();
    let mut index: usize = 0;
    while index < curves.len()
        invariant
            index <= curves@.len(),
            curve_seen@ =~= curve_ids(curves@.take(index as int)),
            span_seen@ =~= span_ids(curves@.take(index as int)),
            valid_ids(curve_seen@),
            valid_ids(span_seen@),
        decreases curves@.len() - index,
    {
        proof {
            assert(curves@.take(index + 1).drop_last() =~= curves@.take(index as int));
            assert(curves@.take(index + 1).last() == curves@[index as int]);
            span_ids_of_prefix(curves@, index + 1);
        }
        let curve: &TopologyCurve = &curves[index];
        let ghost spans_before = span_seen@;
        if !note_id(&mut curve_seen, curve.id) {
            proof {
                invalid_ids_stay_invalid(curve_seen@, curve_ids(curves@));
            }
            return false;
        }
        let mut place: usize = 0;
        while place < curve.spans.len()
            invariant
                place <= curve.spans@.len(),
                span_seen@ =~= spans_before + ids_of_spans(curve.spans@).take(place as int),
                valid_ids(span_seen@),
                index < curves@.len(),
                *curve == curves@[index as int],
                spans_before =~= span_ids(curves@.take(index as int)),
                span_ids(curves@.take(index + 1)) =~= spans_before + ids_of_spans(curve.spans@),
                span_ids(curves@.take(index + 1)) =~= span_ids(curves@).take(
                    span_ids(curves@.take(index + 1)).len() as int,
                ),
                span_ids(curves@.take(index + 1)).len() <= span_ids(curves@).len(),
            decreases curve.spans@.len() - place,
        {
            let id: u64 = curve.spans[place].id;
            if !note_id(&mut span_seen, id) {
                proof {
                    let whole = span_ids(curves@.take(index + 1));
                    assert(span_seen@ =~= whole.take(span_seen@.len() as int));
                    assert(span_seen@ =~= span_ids(curves@).take(span_seen@.len() as int));
                    invalid_ids_stay_invalid(span_seen@, span_ids(curves@));
                }
                return false;
            }
            place = place + 1;
        }
        assert(ids_of_spans(curve.spans@).take(place as int) =~= ids_of_spans(curve.spans@));
        index = index + 1;
    }
    assert(curves@.take(index as int) =~= curves@);
    true
}

proof fn span_ids_of_prefix(curves: Seq<TopologyCurve>, count: int)
    requires
        0 <= count <= curves.len(),
    ensures
        span_ids(curves.take(count)).len() <= span_ids(curves).len(),
        span_ids(curves.take(count)) =~= span_ids(curves).take(
            span_ids(curves.take(count)).len() as int,
        ),
    decreases curves.len(),
{
    if count == curves.len() {
        assert(curves.take(count) =~= curves);
    } else {
        assert(curves.drop_last().take(count) =~= curves.take(count));
        span_ids_of_prefix(curves.drop_last(), count);
    }
}

fn check_vertices(vertices: &Vec<TopologyVertex>, placed: &Vec<bool>) -> (result: bool)
    requires
        placed@.len() == vertices@.len(),
    ensures
        result == vertices_valid(vertices@, placed@),
{
    let mut seen: Vec<u64> = Vec::new();
    let mut index: usize = 0;
    while index < vertices.len()
        invariant
            index <= vertices@.len(),
            placed@.len() == vertices@.len(),
            seen@ =~= vertex_ids(vertices@).take(index as int),
            valid_ids(seen@),
            forall|i: int| 0 <= i < index ==> #[trigger] placed@[i],
        decreases vertices@.len() - index,
    {
        if !note_id(&mut seen, vertices[index].id) {
            proof {
                invalid_ids_stay_invalid(seen@, vertex_ids(vertices@));
            }
            return false;
        }
        if !placed[index] {
            return false;
        }
        index = index + 1;
    }
    assert(seen@ =~= vertex_ids(vertices@));
    true
}

fn ids_of_vertices(vertices: &Vec<TopologyVertex>) -> (result: Vec<u64>)
    ensures
        result@ == vertex_ids(vertices@),
{
    let mut ids: Vec<u64> = Vec::new();
    let mut index: usize = 0;
    while index < vertices.len()
        invariant
            index <= vertices@.len(),
            ids@ =~= vertex_ids(vertices@).take(index as int),
        decreases vertices@.len() - index,
    {
        ids.push(vertices[index].id);
        index = index + 1;
    }
    assert(ids@ =~= vertex_ids(vertices@));
    ids
}

fn ids_of_regions(regions: &Vec<Region>) -> (result: Vec<u64>)
    ensures
        result@ == region_ids(regions@),
{
    let mut ids: Vec<u64> = Vec::new();
    let mut index: usize = 0;
    while index < regions.len()
        invariant
            index <= regions@.len(),
            ids@ =~= region_ids(regions@).take(index as int),
        decreases regions@.len() - index,
    {
        ids.push(regions[index].id);
        index = index + 1;
    }
    assert(ids@ =~= region_ids(regions@));
    ids
}

fn check_nodes(curves: &Vec<TopologyCurve>, vertices: &Vec<u64>) -> (result: bool)
    ensures
        result == nodes_have_vertices(curves@, vertices@),
{
    let mut index: usize = 0;
    while index < curves.len()
        invariant
            index <= curves@.len(),
            forall|i: int|
                0 <= i < index ==> #[trigger] curve_has_vertices(curves@[i].nodes@, vertices@),
        decreases curves@.len() - index,
    {
        let nodes: &Vec<CurveNode> = &curves[index].nodes;
        let mut place: usize = 0;
        while place < nodes.len()
            invariant
                place <= nodes@.len(),
                index < curves@.len(),
                *nodes == curves@[index as int].nodes,
                forall|j: int|
                    0 <= j < place && (#[trigger] nodes@[j]).vertex is Some
                        ==> vertices@.contains(nodes@[j].vertex->0),
            decreases nodes@.len() - place,
        {
            if let Some(vertex) = nodes[place].vertex {
                if !lists(vertices, vertex) {
                    assert(nodes@[place as int].vertex == Some(vertex));
                    assert(!curve_has_vertices(curves@[index as int].nodes@, vertices@));
                    return false;
                }
            }
            place = place + 1;
        }
        assert(curve_has_vertices(curves@[index as int].nodes@, vertices@));
        index = index + 1;
    }
    true
}

pub(crate) fn find_curve(curves: &Vec<TopologyCurve>, id: u64) -> (result: Option<usize>)
    ensures
        match result {
            Some(place) => place < curves@.len() && curve_named(curves@, id) == Some(
                curves@[place as int],
            ),
            None => curve_named(curves@, id) is None,
        },
{
    let named = |curve: &TopologyCurve| -> (passes: bool)
        ensures
            passes == (curve.id == id),
        { curve.id == id };
    find(curves, named, Ghost(|curve: TopologyCurve| curve.id == id))
}

pub(crate) fn find_span(spans: &Vec<CurveSpan>, id: u64) -> (result: Option<usize>)
    ensures
        match result {
            Some(place) => place < spans@.len() && span_place(spans@, id) == Some(place as int),
            None => span_place(spans@, id) is None,
        },
{
    let named = |span: &CurveSpan| -> (passes: bool)
        ensures
            passes == (span.id == id),
        { span.id == id };
    find(spans, named, Ghost(|span: CurveSpan| span.id == id))
}

/// Whether an anchor names a place that exists.
pub fn anchor_structure_valid(anchor: FaceAnchor, curves: &Vec<TopologyCurve>) -> (result: bool)
    ensures
        result == anchor_valid(anchor, curves@),
{
    match anchor {
        FaceAnchor::Outer { fraction, .. } => fraction.is_finite() && Scalar::zero().at_most(
            fraction,
        ) && fraction.at_most(Scalar::one()),
        FaceAnchor::Curve { curve, span, parameter, .. } => {
            let found: &TopologyCurve = match find_curve(curves, curve) {
                Some(place) => &curves[place],
                None => {
                    return false;
                },
            };
            let bounds: &Vec<(Scalar, Scalar)> = match &found.spline {
                CurveSpline::Closed(data) => &data.span_bounds,
                CurveSpline::Open(data) => &data.span_bounds,
            };
            match find_span(&found.spans, span) {
                None => false,
                Some(place) => {
                    if place >= bounds.len() {
                        return false;
                    }
                    let (a, b) = bounds[place];
                    parameter.is_finite() && a.smaller(b).at_most(parameter) && parameter.at_most(
                        a.larger(b),
                    )
                },
            }
        },
    }
}

fn check_assignments(scene: &TopologyScene) -> (result: bool)
    ensures
        result == forall|i: int|
            0 <= i < scene.face_assignments@.len() ==> assignment_valid(
                #[trigger] scene.face_assignments@[i],
                *scene,
            ),
{
    let regions: Vec<u64> = ids_of_regions(&scene.regions);
    let mut index: usize = 0;
    while index < scene.face_assignments.len()
        invariant
            index <= scene.face_assignments@.len(),
            regions@ == region_ids(scene.regions@),
            forall|i: int|
                0 <= i < index ==> assignment_valid(
                    #[trigger] scene.face_assignments@[i],
                    *scene,
                ),
        decreases scene.face_assignments@.len() - index,
    {
        let assignment: AuthoredFaceAssignment = scene.face_assignments[index];
        let region_known: bool = match assignment.region {
            Some(region) => lists(&regions, region),
            None => true,
        };
        if !region_known || !anchor_structure_valid(assignment.anchor, &scene.geometry.curves) {
            assert(!assignment_valid(scene.face_assignments@[index as int], *scene));
            return false;
        }
        index = index + 1;
    }
    true
}

/// Holds a scene against the limits and its own references.
pub fn validate_scene_structure(
    scene: &TopologyScene,
    verdict: &SceneVerdict,
    limits: DocumentLimits,
) -> (result: Result<(), String>)
    requires
        verdict.vertex_placed@.len() == scene.geometry.vertices@.len(),
    ensures
        match structure_issue(*scene, *verdict, limits) {
            Some(issue) => result is Err && result->Err_0@ == issue,
            None => result is Ok,
        },
{
    if let Some(issue) = &verdict.structure {
        return Err(issue.clone());
    }
    if scene.geometry.curves.len() > limits.max_curves || scene.geometry.vertices.len()
        > limits.max_vertices {
        return Err("Scene exceeds topology object limits".to_owned());
    }
    if !check_curve_ids(&scene.geometry.curves) {
        return Err("Scene contains duplicate or invalid curve IDs".to_owned());
    }
    if !check_vertices(&scene.geometry.vertices, &verdict.vertex_placed) {
        return Err("Scene contains duplicate or invalid topology vertices".to_owned());
    }
    let vertices: Vec<u64> = ids_of_vertices(&scene.geometry.vertices);
    if !check_nodes(&scene.geometry.curves, &vertices) {
        return Err("Curve references a missing topology vertex".to_owned());
    }
    if !check_assignments(scene) {
        return Err("Scene contains a malformed face assignment".to_owned());
    }
    Ok(())
}

/// Whether one span follows another along a curve.
pub open spec fn follows(closed: bool, count: nat, place: int, next: int) -> bool {
    next == place + 1 || (closed && place + 1 == count && next == 0)
}

/// Where the curve has one of the listed spans.
pub open spec fn listed_place(curve: TopologyCurve, spans: Seq<u64>, i: int) -> Option<int> {
    span_place(curve.spans@, spans[i])
}

/// Whether the spans exist on the curve, occur once each and run on from one to
/// the next.
pub open spec fn contiguous(curve: TopologyCurve, spans: Seq<u64>) -> bool {
    &&& forall|i: int| 0 <= i < spans.len() ==> #[trigger] listed_place(curve, spans, i) is Some
    &&& forall|i: int, j: int|
        0 <= i < j < spans.len() ==> #[trigger] listed_place(curve, spans, i) != #[trigger] listed_place(curve, spans, j)
    &&& forall|i: int, j: int|
        0 <= i && j == i + 1 && j < spans.len() ==> follows(
            curve.spline is Closed,
            curve.spans@.len(),
            (#[trigger] listed_place(curve, spans, i))->0,
            (#[trigger] listed_place(curve, spans, j))->0,
        )
}

pub fn contiguous_span_path(curve: &TopologyCurve, spans: &Vec<u64>) -> (result: bool)
    ensures
        result == contiguous(*curve, spans@),
{
    let mut places: Vec<usize> = Vec::new();
    let mut index: usize = 0;
    while index < spans.len()
        invariant
            index <= spans@.len(),
            places@.len() == index,
            forall|i: int|
                0 <= i < index ==> #[trigger] listed_place(*curve, spans@, i) == Some(places@[i] as int)
                    && places@[i] < curve.spans@.len(),
        decreases spans@.len() - index,
    {
        match find_span(&curve.spans, spans[index]) {
            Some(place) => {
                places.push(place);
                assert(listed_place(*curve, spans@, index as int) == Some(place as int));
            },
            None => {
                assert(listed_place(*curve, spans@, index as int) is None);
                return false;
            },
        }
        index = index + 1;
    }
    let closed: bool = matches!(curve.spline, CurveSpline::Closed(_));
    let mut later: usize = 0;
    while later < places.len()
        invariant
            later <= places@.len(),
            places@.len() == spans@.len(),
            closed == (curve.spline is Closed),
            forall|i: int|
                0 <= i < spans@.len() ==> #[trigger] listed_place(*curve, spans@, i) == Some(places@[i] as int)
                    && places@[i] < curve.spans@.len(),
            forall|i: int, j: int|
                0 <= i < j < later ==> #[trigger] listed_place(*curve, spans@, i) != #[trigger] listed_place(*curve, spans@, j),
            forall|i: int, j: int|
                0 <= i && j == i + 1 && j < later ==> follows(
                    closed,
                    curve.spans@.len(),
                    (#[trigger] listed_place(*curve, spans@, i))->0,
                    (#[trigger] listed_place(*curve, spans@, j))->0,
                ),
        decreases places@.len() - later,
    {
        let mut earlier: usize = 0;
        while earlier < later
            invariant
                earlier <= later,
                later < places@.len(),
                places@.len() == spans@.len(),
                forall|i: int|
                    0 <= i < spans@.len() ==> #[trigger] listed_place(*curve, spans@, i) == Some(places@[i] as int)
                        && places@[i] < curve.spans@.len(),
                forall|i: int| 0 <= i < earlier ==> #[trigger] listed_place(*curve, spans@, i) != listed_place(*curve, spans@, later as int),
            decreases later - earlier,
        {
            if places[earlier] == places[later] {
                assert(listed_place(*curve, spans@, earlier as int) == listed_place(*curve, spans@, later as int));
                return false;
            }
            assert(listed_place(*curve, spans@, earlier as int) != listed_place(*curve, spans@, later as int));
            earlier = earlier + 1;
        }
        if later > 0 {
            let place: usize = places[later - 1];
            let next: usize = places[later];
            assert(listed_place(*curve, spans@, later - 1) == Some(place as int));
            assert(listed_place(*curve, spans@, later as int) == Some(next as int));
            if !(next > place && next - place == 1) && !(closed && curve.spans.len() - place == 1
                && next == 0) {
                assert(!follows(closed, curve.spans@.len(), place as int, next as int));
                return false;
            }
        }
        later = later + 1;
    }
    true
}

} // verus!
