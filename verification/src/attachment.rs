//! Where a new curve can attach, and what lies on the two sides of a span.
//! Distances, projections and the resolution of anchors come from the engine's
//! compiled topology; the choice among them is made here.

use crate::collect::{find, first_place, first_place_is_least, first_value, lists};
use crate::hits::{find_nearest, nearest, nearest_is_smallest};
use crate::model::{CurveSpan, CurveTraceSide, FaceAnchor, OuterSide, SpanBehavior, TopologyCurve};
use crate::ordered_set::OrderedSet;
use crate::scalar::{Point2, Scalar};
use crate::selection::{curve_of_span, find_curve_of_span, has_span};
use vstd::prelude::*;

verus! {

/// A place where a curve can attach.
#[derive(Clone, Copy, Debug, PartialEq, Eq, Structural)]
pub enum TopologyAttachment {
    Junction { vertex: u64, face: u64 },
    Boundary(FaceAnchor),
}

#[derive(Clone, Copy, Debug, PartialEq, Eq, Structural)]
pub struct AttachmentHit {
    pub attachment: TopologyAttachment,
    pub point: Point2,
    pub distance: Scalar,
}

/// A compiled face and its region; none for an excluded face.
#[derive(Clone, Copy, Debug, PartialEq, Eq, Structural)]
pub struct FaceAssignment {
    pub face: u64,
    pub region: Option<u64>,
}

/// A compiled vertex: the authored junction behind it, the faces around it and
/// its distance from the pointer.
#[derive(Debug)]
pub struct MeasuredVertex {
    pub authored: Option<u64>,
    pub point: Point2,
    pub faces: Vec<u64>,
    pub distance: Scalar,
}

#[derive(Clone, Copy, Debug, PartialEq, Eq, Structural)]
pub enum CompiledEdgeSource {
    Outer(OuterSide),
    Curve(u64),
}

/// A compiled edge with the pointer projected onto it: where it comes from, the
/// faces on its sides, the projected point with its parameter and distance, how
/// far the pointer turns off it on the screen, and the faces that anchors on its
/// two sides resolve to.
#[derive(Clone, Copy, Debug, PartialEq, Eq, Structural)]
pub struct MeasuredEdge {
    pub source: CompiledEdgeSource,
    pub curve: Option<u64>,
    pub left: u64,
    pub right: u64,
    pub parameter: Scalar,
    pub point: Point2,
    pub distance: Scalar,
    pub turn: Scalar,
    pub left_anchor: Option<u64>,
    pub right_anchor: Option<u64>,
}

/// Whether a face holds a region.
pub open spec fn occupied(assignments: Seq<FaceAssignment>, face: u64) -> bool {
    exists|i: int|
        0 <= i < assignments.len() && (#[trigger] assignments[i]).face == face
            && assignments[i].region is Some
}

/// The face that a junction is attached to: the one asked for, or else the first
/// around it that holds a region, or else the first.
pub open spec fn junction_face(
    faces: Seq<u64>,
    assignments: Seq<FaceAssignment>,
    face: Option<u64>,
) -> Option<u64> {
    match face {
        Some(_) => face,
        None => match first_value(faces, |face: u64| occupied(assignments, face)) {
            Some(found) => Some(found),
            None => if faces.len() > 0 {
                Some(faces[0])
            } else {
                None
            },
        },
    }
}

pub open spec fn junction_hit(
    vertex: MeasuredVertex,
    assignments: Seq<FaceAssignment>,
    radius: Scalar,
    face: Option<u64>,
) -> Option<AttachmentHit> {
    if vertex.authored is None || radius.lt_num(vertex.distance) {
        None
    } else {
        match junction_face(vertex.faces@, assignments, face) {
            Some(target) if vertex.faces@.contains(target) => Some(
                AttachmentHit {
                    attachment: TopologyAttachment::Junction {
                        vertex: vertex.authored->0,
                        face: target,
                    },
                    point: vertex.point,
                    distance: vertex.distance,
                },
            ),
            _ => None,
        }
    }
}

/// The side of a curve that a hit lies on: that of the face asked for, or else
/// the side of the pointer.
pub open spec fn edge_side(edge: MeasuredEdge, face: Option<u64>) -> Option<CurveTraceSide> {
    match face {
        Some(face) => if face == edge.right {
            Some(CurveTraceSide::Right)
        } else if face == edge.left {
            Some(CurveTraceSide::Left)
        } else {
            None
        },
        None => if edge.turn.le_num(Scalar::zero_num()) {
            Some(CurveTraceSide::Left)
        } else {
            Some(CurveTraceSide::Right)
        },
    }
}

/// Whether an anchor on a side of an edge resolves to the face on that side.
pub open spec fn anchored(edge: MeasuredEdge, side: CurveTraceSide) -> bool {
    match side {
        CurveTraceSide::Left => edge.left_anchor == Some(edge.left),
        CurveTraceSide::Right => edge.right_anchor == Some(edge.right),
    }
}

pub open spec fn edge_hit(edge: MeasuredEdge, radius: Scalar, face: Option<u64>) -> Option<
    AttachmentHit,
> {
    if radius.lt_num(edge.distance) {
        None
    } else {
        match edge.source {
            CompiledEdgeSource::Outer(side) => if face is Some && face != Some(edge.left) {
                None
            } else {
                Some(
                    AttachmentHit {
                        attachment: TopologyAttachment::Boundary(
                            FaceAnchor::Outer { side, fraction: edge.parameter },
                        ),
                        point: edge.point,
                        distance: edge.distance,
                    },
                )
            },
            CompiledEdgeSource::Curve(span) => match (edge.curve, edge_side(edge, face)) {
                (Some(curve), Some(side)) if anchored(edge, side) => Some(
                    AttachmentHit {
                        attachment: TopologyAttachment::Boundary(
                            FaceAnchor::Curve { curve, span, side, parameter: edge.parameter },
                        ),
                        point: edge.point,
                        distance: edge.distance,
                    },
                ),
                _ => None,
            },
        }
    }
}

pub open spec fn hit_distances(hits: Seq<Option<AttachmentHit>>) -> Seq<Option<Scalar>> {
    hits.map_values(
        |hit: Option<AttachmentHit>|
            match hit {
                Some(hit) => Some(hit.distance),
                None => None,
            },
    )
}

/// The nearest of some hits, of equal ones the first.
pub open spec fn nearest_hit(hits: Seq<Option<AttachmentHit>>) -> Option<AttachmentHit> {
    match nearest(hit_distances(hits), false) {
        Some(place) => hits[place],
        None => None,
    }
}

pub open spec fn junction_hits(
    vertices: Seq<MeasuredVertex>,
    assignments: Seq<FaceAssignment>,
    radius: Scalar,
    face: Option<u64>,
) -> Seq<Option<AttachmentHit>> {
    vertices.map_values(
        |vertex: MeasuredVertex| junction_hit(vertex, assignments, radius, face),
    )
}

pub open spec fn edge_hits(edges: Seq<MeasuredEdge>, radius: Scalar, face: Option<u64>) -> Seq<
    Option<AttachmentHit>,
> {
    edges.map_values(|edge: MeasuredEdge| edge_hit(edge, radius, face))
}

/// The nearest junction in reach, or else the nearest edge.
pub open spec fn attachment_at(
    vertices: Seq<MeasuredVertex>,
    edges: Seq<MeasuredEdge>,
    assignments: Seq<FaceAssignment>,
    radius: Scalar,
    face: Option<u64>,
) -> Option<AttachmentHit> {
    match nearest_hit(junction_hits(vertices, assignments, radius, face)) {
        Some(hit) => Some(hit),
        None => nearest_hit(edge_hits(edges, radius, face)),
    }
}

fn is_occupied(assignments: &Vec<FaceAssignment>, face: u64) -> (result: bool)
    ensures
        result == occupied(assignments@, face),
{
    let mut index: usize = 0;
    while index < assignments.len()
        invariant
            index <= assignments@.len(),
            forall|i: int|
                0 <= i < index ==> (#[trigger] assignments@[i]).face != face
                    || assignments@[i].region is None,
        decreases assignments@.len() - index,
    {
        if assignments[index].face == face && assignments[index].region.is_some() {
            assert(assignments@[index as int].face == face);
            return true;
        }
        index = index + 1;
    }
    false
}

fn choose_face(
    faces: &Vec<u64>,
    assignments: &Vec<FaceAssignment>,
    face: Option<u64>,
) -> (result: Option<u64>)
    ensures
        result == junction_face(faces@, assignments@, face),
{
    if face.is_some() {
        return face;
    }
    let test = |face: &u64| -> (passes: bool)
        ensures
            passes == occupied(assignments@, *face),
        { is_occupied(assignments, *face) };
    match find(
        faces,
        test,
        Ghost(|face: u64| occupied(assignments@, face)),
    ) {
        Some(place) => Some(faces[place]),
        None => if faces.len() > 0 {
            Some(faces[0])
        } else {
            None
        },
    }
}

fn test_vertex(
    vertex: &MeasuredVertex,
    assignments: &Vec<FaceAssignment>,
    radius: Scalar,
    face: Option<u64>,
) -> (result: Option<AttachmentHit>)
    ensures
        result == junction_hit(*vertex, assignments@, radius, face),
{
    match vertex.authored {
        None => None,
        Some(authored) => {
            if radius.less(vertex.distance) {
                return None;
            }
            match choose_face(&vertex.faces, assignments, face) {
                None => None,
                Some(target) => if lists(&vertex.faces, target) {
                    Some(
                        AttachmentHit {
                            attachment: TopologyAttachment::Junction {
                                vertex: authored,
                                face: target,
                            },
                            point: vertex.point,
                            distance: vertex.distance,
                        },
                    )
                } else {
                    None
                },
            }
        },
    }
}

fn same_face(anchor: Option<u64>, face: u64) -> (result: bool)
    ensures
        result == (anchor == Some(face)),
{
    match anchor {
        Some(found) => found == face,
        None => false,
    }
}

fn choose_side(edge: MeasuredEdge, face: Option<u64>) -> (result: Option<CurveTraceSide>)
    ensures
        result == edge_side(edge, face),
{
    match face {
        Some(face) => if face == edge.right {
            Some(CurveTraceSide::Right)
        } else if face == edge.left {
            Some(CurveTraceSide::Left)
        } else {
            None
        },
        None => if edge.turn.at_most(Scalar::zero()) {
            Some(CurveTraceSide::Left)
        } else {
            Some(CurveTraceSide::Right)
        },
    }
}

fn test_edge(edge: MeasuredEdge, radius: Scalar, face: Option<u64>) -> (result: Option<
    AttachmentHit,
>)
    ensures
        result == edge_hit(edge, radius, face),
{
    if radius.less(edge.distance) {
        return None;
    }
    match edge.source {
        CompiledEdgeSource::Outer(side) => {
            if face.is_some() && !same_face(face, edge.left) {
                return None;
            }
            let anchor = FaceAnchor::Outer { side, fraction: edge.parameter };
            Some(
                AttachmentHit {
                    attachment: TopologyAttachment::Boundary(anchor),
                    point: edge.point,
                    distance: edge.distance,
                },
            )
        },
        CompiledEdgeSource::Curve(span) => {
            match (edge.curve, choose_side(edge, face)) {
                (Some(curve), Some(side)) => {
                    let fits: bool = match side {
                        CurveTraceSide::Left => same_face(edge.left_anchor, edge.left),
                        CurveTraceSide::Right => same_face(edge.right_anchor, edge.right),
                    };
                    if !fits {
                        return None;
                    }
                    let anchor = FaceAnchor::Curve { curve, span, side, parameter: edge.parameter };
                    Some(
                        AttachmentHit {
                            attachment: TopologyAttachment::Boundary(anchor),
                            point: edge.point,
                            distance: edge.distance,
                        },
                    )
                },
                _ => None,
            }
        },
    }
}

fn pick_nearest(hits: &Vec<Option<AttachmentHit>>) -> (result: Option<AttachmentHit>)
    ensures
        result == nearest_hit(hits@),
{
    let mut distances: Vec<Option<Scalar>> = Vec::new();
    let mut index: usize = 0;
    while index < hits.len()
        invariant
            index <= hits@.len(),
            distances@ =~= hit_distances(hits@).take(index as int),
        decreases hits@.len() - index,
    {
        let distance: Option<Scalar> = match hits[index] {
            Some(hit) => Some(hit.distance),
            None => None,
        };
        distances.push(distance);
        index = index + 1;
    }
    assert(distances@ =~= hit_distances(hits@));
    match find_nearest(&distances, false) {
        Some(place) => hits[place],
        None => None,
    }
}

/// Finds an authored junction or boundary point under the pointer. Junctions win
/// over the edges under them, and `face` restricts the hit to one face.
pub fn hit_attachment(
    vertices: &Vec<MeasuredVertex>,
    edges: &Vec<MeasuredEdge>,
    assignments: &Vec<FaceAssignment>,
    radius: Scalar,
    face: Option<u64>,
) -> (result: Option<AttachmentHit>)
    ensures
        result == attachment_at(vertices@, edges@, assignments@, radius, face),
{
    let mut found: Vec<Option<AttachmentHit>> = Vec::new();
    let mut index: usize = 0;
    while index < vertices.len()
        invariant
            index <= vertices@.len(),
            found@ =~= junction_hits(vertices@, assignments@, radius, face).take(index as int),
        decreases vertices@.len() - index,
    {
        found.push(test_vertex(&vertices[index], assignments, radius, face));
        index = index + 1;
    }
    assert(found@ =~= junction_hits(vertices@, assignments@, radius, face));
    if let Some(hit) = pick_nearest(&found) {
        return Some(hit);
    }
    let mut crossed: Vec<Option<AttachmentHit>> = Vec::new();
    let mut next: usize = 0;
    while next < edges.len()
        invariant
            next <= edges@.len(),
            crossed@ =~= edge_hits(edges@, radius, face).take(next as int),
        decreases edges@.len() - next,
    {
        crossed.push(test_edge(edges[next], radius, face));
        next = next + 1;
    }
    assert(crossed@ =~= edge_hits(edges@, radius, face));
    pick_nearest(&crossed)
}

/// A hit lies within reach and, where a face was asked for, on that face.
pub proof fn a_hit_is_in_reach_on_the_face_asked_for(
    vertices: Seq<MeasuredVertex>,
    edges: Seq<MeasuredEdge>,
    assignments: Seq<FaceAssignment>,
    radius: Scalar,
    face: Option<u64>,
)
    ensures
        attachment_at(vertices, edges, assignments, radius, face) matches Some(hit) ==> {
            &&& !radius.lt_num(hit.distance)
            &&& face is Some ==> match hit.attachment {
                TopologyAttachment::Junction { face: found, .. } => Some(found) == face,
                TopologyAttachment::Boundary(FaceAnchor::Outer { side, .. }) => exists|i: int|
                    0 <= i < edges.len() && (#[trigger] edges[i]).source
                        == CompiledEdgeSource::Outer(side) && face == Some(edges[i].left),
                TopologyAttachment::Boundary(FaceAnchor::Curve { span, side, .. }) => exists|i: int|
                    0 <= i < edges.len() && (#[trigger] edges[i]).source
                        == CompiledEdgeSource::Curve(span) && face == Some(
                        match side {
                            CurveTraceSide::Left => edges[i].left,
                            CurveTraceSide::Right => edges[i].right,
                        },
                    ),
            }
        },
{
    let junctions = junction_hits(vertices, assignments, radius, face);
    let crossed = edge_hits(edges, radius, face);
    nearest_is_smallest(hit_distances(junctions), false);
    nearest_is_smallest(hit_distances(crossed), false);
    match nearest(hit_distances(junctions), false) {
        Some(place) => {
            assert(junctions[place] == junction_hit(vertices[place], assignments, radius, face));
        },
        None => match nearest(hit_distances(crossed), false) {
            Some(place) => {
                assert(crossed[place] == edge_hit(edges[place], radius, face));
            },
            None => {},
        },
    }
}

#[derive(Debug)]
pub struct TopologyTraceContext {
    pub regions: OrderedSet<u64>,
    pub active: bool,
}

#[derive(Debug)]
pub struct TopologySpanContext {
    pub curve: u64,
    pub span: u64,
    pub behavior: SpanBehavior,
    pub left: TopologyTraceContext,
    pub right: TopologyTraceContext,
    pub direction_origin: Point2,
    pub direction: Point2,
}

/// The faces on the sides of a compiled edge.
#[derive(Clone, Copy, Debug, PartialEq, Eq, Structural)]
pub struct EdgeFaces {
    pub left: u64,
    pub right: u64,
}

/// The region of a face; where it is listed more than once, the last counts.
pub open spec fn region_of(assignments: Seq<FaceAssignment>, face: u64) -> Option<u64>
    decreases assignments.len(),
{
    if assignments.len() == 0 {
        None
    } else if assignments.last().face == face {
        assignments.last().region
    } else {
        region_of(assignments.drop_last(), face)
    }
}

fn find_region(assignments: &Vec<FaceAssignment>, face: u64) -> (result: Option<u64>)
    ensures
        result == region_of(assignments@, face),
{
    let mut left: usize = assignments.len();
    assert(assignments@.take(left as int) =~= assignments@);
    while left > 0
        invariant
            left <= assignments@.len(),
            region_of(assignments@, face) == region_of(assignments@.take(left as int), face),
        decreases left,
    {
        assert(assignments@.take(left as int).drop_last() =~= assignments@.take(left - 1));
        if assignments[left - 1].face == face {
            return assignments[left - 1].region;
        }
        left = left - 1;
    }
    None
}

pub open spec fn side_face(edge: EdgeFaces, side: CurveTraceSide) -> u64 {
    match side {
        CurveTraceSide::Left => edge.left,
        CurveTraceSide::Right => edge.right,
    }
}

/// Whether a region lies on a side of one of the first edges, as many as `count`.
pub open spec fn borders(
    edges: Seq<EdgeFaces>,
    assignments: Seq<FaceAssignment>,
    side: CurveTraceSide,
    count: int,
    region: u64,
) -> bool {
    exists|i: int|
        0 <= i < count && region_of(assignments, side_face(#[trigger] edges[i], side)) == Some(
            region,
        )
}

/// The regions on a side of some edges.
pub open spec fn side_regions(
    edges: Seq<EdgeFaces>,
    assignments: Seq<FaceAssignment>,
    side: CurveTraceSide,
) -> Set<u64> {
    Set::new(|region: u64| borders(edges, assignments, side, edges.len() as int, region))
}

fn trace_context(
    edges: &Vec<EdgeFaces>,
    assignments: &Vec<FaceAssignment>,
    side: CurveTraceSide,
) -> (result: TopologyTraceContext)
    ensures
        result.regions.wf(),
        result.regions@ == side_regions(edges@, assignments@, side),
        result.active == (exists|region: u64| #[trigger] result.regions@.contains(region)),
{
    let mut regions: OrderedSet<u64> = OrderedSet::new();
    let mut index: usize = 0;
    while index < edges.len()
        invariant
            index <= edges@.len(),
            regions.wf(),
            forall|region: u64| #[trigger]
                regions@.contains(region) == borders(
                    edges@,
                    assignments@,
                    side,
                    index as int,
                    region,
                ),
        decreases edges@.len() - index,
    {
        let ghost before = regions@;
        let face: u64 = match side {
            CurveTraceSide::Left => edges[index].left,
            CurveTraceSide::Right => edges[index].right,
        };
        if let Some(region) = find_region(assignments, face) {
            regions.insert(region);
        }
        proof {
            assert forall|region: u64| #[trigger]
                regions@.contains(region) == borders(
                    edges@,
                    assignments@,
                    side,
                    index + 1,
                    region,
                ) by {
                assert(before.contains(region) == borders(
                    edges@,
                    assignments@,
                    side,
                    index as int,
                    region,
                ));
                assert(side_face(edges@[index as int], side) == face);
            }
        }
        index = index + 1;
    }
    assert(regions@ =~= side_regions(edges@, assignments@, side));
    let active: bool = !regions.is_empty();
    proof {
        if active {
            let region = choose|region: u64| #[trigger] regions@.contains(region);
            assert(regions@ =~= Set::empty() || regions@.contains(region));
        }
    }
    TopologyTraceContext { active, regions }
}

/// What lies about a span: the regions on its two sides. Left and right follow
/// increasing parameter along the curve. `edges` are the compiled edges of the
/// span; `direction_origin` and `direction` are the curve's point and unit
/// tangent in the middle of the span.
pub fn span_context(
    curves: &Vec<TopologyCurve>,
    assignments: &Vec<FaceAssignment>,
    edges: &Vec<EdgeFaces>,
    span: u64,
    direction_origin: Point2,
    direction: Point2,
) -> (result: Option<TopologySpanContext>)
    ensures
        match result {
            None => match curve_of_span(curves@, span) {
                None => true,
                Some(curve) => first_place(
                    curve.spans@,
                    |candidate: CurveSpan| candidate.id == span,
                )->0 >= curve.spline.bounds().len(),
            },
            Some(context) => {
                &&& curve_of_span(curves@, span) matches Some(curve) && {
                    let place = first_place(
                        curve.spans@,
                        |candidate: CurveSpan| candidate.id == span,
                    )->0;
                    &&& place < curve.spline.bounds().len()
                    &&& context.curve == curve.id
                    &&& context.behavior == curve.spans@[place].behavior
                }
                &&& context.span == span
                &&& context.left.regions@ == side_regions(
                    edges@,
                    assignments@,
                    CurveTraceSide::Left,
                )
                &&& context.right.regions@ == side_regions(
                    edges@,
                    assignments@,
                    CurveTraceSide::Right,
                )
                &&& context.left.active == (exists|region: u64| #[trigger]
                    context.left.regions@.contains(region))
                &&& context.right.active == (exists|region: u64| #[trigger]
                    context.right.regions@.contains(region))
                &&& context.direction_origin == direction_origin
                &&& context.direction == direction
            },
        },
{
    let curve: &TopologyCurve = match find_curve_of_span(curves, span) {
        None => {
            return None;
        },
        Some(index) => &curves[index],
    };
    let named = |candidate: &CurveSpan| -> (passes: bool)
        ensures
            passes == (candidate.id == span),
        { candidate.id == span };
    let place: usize = match find(
        &curve.spans,
        named,
        Ghost(|candidate: CurveSpan| candidate.id == span),
    ) {
        None => {
            proof {
                let of_span = |curve: TopologyCurve| has_span(curve, span);
                let test = |candidate: CurveSpan| candidate.id == span;
                first_place_is_least(curves@, of_span);
                first_place_is_least(curve.spans@, test);
                assert(of_span(*curve));
                let place = choose|i: int|
                    0 <= i < curve.spans@.len() && (#[trigger] curve.spans@[i]).id == span;
                assert(test(curve.spans@[place]));
            }
            return None;
        },
        Some(place) => place,
    };
    if curve.spline.span_bounds(place).is_none() {
        return None;
    }
    Some(
        TopologySpanContext {
            curve: curve.id,
            span,
            behavior: curve.spans[place].behavior,
            left: trace_context(edges, assignments, CurveTraceSide::Left),
            right: trace_context(edges, assignments, CurveTraceSide::Right),
            direction_origin,
            direction,
        },
    )
}

/// The faces that a region covers, in the order of their assignments.
pub open spec fn region_faces(assignments: Seq<FaceAssignment>, region: u64) -> Seq<u64>
    decreases assignments.len(),
{
    if assignments.len() == 0 {
        Seq::empty()
    } else {
        let earlier = region_faces(assignments.drop_last(), region);
        if assignments.last().region == Some(region) {
            earlier.push(assignments.last().face)
        } else {
            earlier
        }
    }
}

/// Lists the faces that a region covers.
pub fn faces_of_region(assignments: &Vec<FaceAssignment>, region: u64) -> (result: Vec<u64>)
    ensures
        result@ == region_faces(assignments@, region),
{
    let mut faces: Vec<u64> = Vec::new();
    let mut index: usize = 0;
    while index < assignments.len()
        invariant
            index <= assignments@.len(),
            faces@ == region_faces(assignments@.take(index as int), region),
        decreases assignments@.len() - index,
    {
        assert(assignments@.take(index + 1).drop_last() =~= assignments@.take(index as int));
        if let Some(covering) = assignments[index].region {
            if covering == region {
                faces.push(assignments[index].face);
            }
        }
        index = index + 1;
    }
    assert(assignments@.take(index as int) =~= assignments@);
    faces
}

} // verus!
