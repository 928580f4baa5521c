//! What attaching and drawing promise: where a point lands, and when a curve is
//! done.

use crate::attachment::{
    attachment_at, edge_hit, edge_hits, hit_distances, junction_hit, junction_hits, occupied,
    region_of, side_regions, AttachmentHit, CompiledEdgeSource, EdgeFaces, FaceAssignment,
    MeasuredEdge, MeasuredVertex, TopologyAttachment,
};
use crate::collect::first_place_is_least;
use crate::drawing::{closes, complete, point_placed, rectangle, region_on, PlanDomain};
use crate::gesture::{DrawGesture, DrawTool};
use crate::hits::{nearest, nearest_is_smallest};
use crate::model::{CurveTraceSide, FaceAnchor};
use crate::scalar::{Point2, Scalar};
use vstd::prelude::*;

verus! {

/// The attachment that is found is the nearest there is: a junction, if any is in
/// reach, and none in reach is nearer; otherwise an edge, and none in reach is
/// nearer. Nothing is found only where nothing can be attached to.
pub proof fn the_nearest_attachment_is_found(
    vertices: Seq<MeasuredVertex>,
    edges: Seq<MeasuredEdge>,
    assignments: Seq<FaceAssignment>,
    radius: Scalar,
    face: Option<u64>,
)
    ensures
        match attachment_at(vertices, edges, assignments, radius, face) {
            Some(hit) => {
                &&& hit.attachment is Junction <==> exists|i: int|
                    0 <= i < vertices.len() && junction_hit(
                        #[trigger] vertices[i],
                        assignments,
                        radius,
                        face,
                    ) is Some
                &&& hit.attachment is Junction ==> {
                    &&& exists|i: int|
                        0 <= i < vertices.len() && junction_hit(
                            #[trigger] vertices[i],
                            assignments,
                            radius,
                            face,
                        ) == Some(hit)
                    &&& forall|i: int|
                        0 <= i < vertices.len() && junction_hit(
                            #[trigger] vertices[i],
                            assignments,
                            radius,
                            face,
                        ) is Some ==> !vertices[i].distance.lt_num(hit.distance)
                }
                &&& hit.attachment is Boundary ==> {
                    &&& exists|i: int|
                        0 <= i < edges.len() && edge_hit(#[trigger] edges[i], radius, face) == Some(
                            hit,
                        )
                    &&& forall|i: int|
                        0 <= i < edges.len() && edge_hit(#[trigger] edges[i], radius, face) is Some
                            ==> !edges[i].distance.lt_num(hit.distance)
                }
            },
            None => {
                &&& forall|i: int|
                    0 <= i < vertices.len() ==> junction_hit(
                        #[trigger] vertices[i],
                        assignments,
                        radius,
                        face,
                    ) is None
                &&& forall|i: int|
                    0 <= i < edges.len() ==> edge_hit(#[trigger] edges[i], radius, face) is None
            },
        },
{
    let junctions = junction_hits(vertices, assignments, radius, face);
    let crossed = edge_hits(edges, radius, face);
    let near = hit_distances(junctions);
    let far = hit_distances(crossed);
    nearest_is_smallest(near, false);
    nearest_is_smallest(far, false);
    assert forall|i: int| 0 <= i < vertices.len() implies (near[i] is Some <==> junction_hit(
        #[trigger] vertices[i],
        assignments,
        radius,
        face,
    ) is Some) by {
        assert(junctions[i] == junction_hit(vertices[i], assignments, radius, face));
    }
    assert forall|i: int| 0 <= i < edges.len() implies (far[i] is Some <==> edge_hit(
        #[trigger] edges[i],
        radius,
        face,
    ) is Some) by {
        assert(crossed[i] == edge_hit(edges[i], radius, face));
    }
    match nearest(near, false) {
        Some(place) => {
            assert(junctions[place] == junction_hit(vertices[place], assignments, radius, face));
            assert forall|i: int|
                0 <= i < vertices.len() && junction_hit(
                    #[trigger] vertices[i],
                    assignments,
                    radius,
                    face,
                ) is Some implies !vertices[i].distance.lt_num(vertices[place].distance) by {
                assert(near[i] == Some(vertices[i].distance));
                assert(near[place] == Some(vertices[place].distance));
            }
        },
        None => match nearest(far, false) {
            Some(place) => {
                assert(crossed[place] == edge_hit(edges[place], radius, face));
                assert forall|i: int|
                    0 <= i < edges.len() && edge_hit(#[trigger] edges[i], radius, face)
                        is Some implies !edges[i].distance.lt_num(edges[place].distance) by {
                    assert(far[i] == Some(edges[i].distance));
                    assert(far[place] == Some(edges[place].distance));
                }
            },
            None => {},
        },
    }
}

/// A junction can be attached to where it is authored, in reach and on the face
/// asked for, and the attachment is the junction itself, at its own point. Where no
/// face is asked for it is on a face around it, one with a region if there is one.
pub proof fn a_junction_is_attached_to_where_it_is(
    vertex: MeasuredVertex,
    assignments: Seq<FaceAssignment>,
    radius: Scalar,
    face: Option<u64>,
)
    ensures
        junction_hit(vertex, assignments, radius, face) matches Some(hit) ==> {
            &&& hit.point == vertex.point
            &&& hit.distance == vertex.distance
            &&& !radius.lt_num(vertex.distance)
            &&& hit.attachment matches TopologyAttachment::Junction { vertex: named, face: on } && {
                &&& Some(named) == vertex.authored
                &&& vertex.faces@.contains(on)
                &&& face matches Some(asked) ==> on == asked
                &&& face is None && (exists|i: int|
                    0 <= i < vertex.faces@.len() && occupied(
                        assignments,
                        #[trigger] vertex.faces@[i],
                    )) ==> occupied(assignments, on)
            }
        },
        junction_hit(vertex, assignments, radius, face) is None ==> {
            ||| vertex.authored is None
            ||| radius.lt_num(vertex.distance)
            ||| face is None && vertex.faces@.len() == 0
            ||| face is Some && !vertex.faces@.contains(face->0)
        },
{
    let test = |face: u64| occupied(assignments, face);
    first_place_is_least(vertex.faces@, test);
    if face is None {
        match crate::collect::first_place(vertex.faces@, test) {
            Some(place) => {
                assert(vertex.faces@.contains(vertex.faces@[place]));
            },
            None => {
                if vertex.faces@.len() > 0 {
                    assert(vertex.faces@.contains(vertex.faces@[0]));
                }
            },
        }
    }
}

/// An edge is attached to where the pointer projects onto it, on the side of the
/// face asked for, or else on the side where the pointer is.
pub proof fn an_edge_is_attached_to_on_the_side_asked_for(
    edge: MeasuredEdge,
    radius: Scalar,
    face: Option<u64>,
)
    ensures
        edge_hit(edge, radius, face) matches Some(hit) ==> {
            &&& hit.point == edge.point
            &&& hit.distance == edge.distance
            &&& !radius.lt_num(edge.distance)
            &&& match (edge.source, hit.attachment) {
                (
                    CompiledEdgeSource::Outer(side),
                    TopologyAttachment::Boundary(FaceAnchor::Outer { side: on, fraction }),
                ) => {
                    &&& on == side
                    &&& fraction == edge.parameter
                    &&& face is None || face == Some(edge.left)
                },
                (
                    CompiledEdgeSource::Curve(span),
                    TopologyAttachment::Boundary(
                        FaceAnchor::Curve { curve, span: on, side, parameter },
                    ),
                ) => {
                    &&& on == span
                    &&& Some(curve) == edge.curve
                    &&& parameter == edge.parameter
                    &&& side is Left ==> edge.left_anchor == Some(edge.left)
                    &&& side is Right ==> edge.right_anchor == Some(edge.right)
                    &&& face matches Some(asked) ==> asked == if side is Left {
                        edge.left
                    } else {
                        edge.right
                    }
                    &&& face is None ==> (side is Left <==> edge.turn.le_num(
                        (Scalar { bits: 0 }),
                    ))
                },
                _ => false,
            }
        },
        edge_hit(edge, radius, face) is None ==> {
            ||| radius.lt_num(edge.distance)
            ||| match edge.source {
                CompiledEdgeSource::Outer(_) => face is Some && face != Some(edge.left),
                CompiledEdgeSource::Curve(_) => {
                    ||| edge.curve is None
                    ||| edge.left_anchor != Some(edge.left)
                    ||| edge.right_anchor != Some(edge.right)
                    ||| face is Some && face != Some(edge.left) && face != Some(edge.right)
                },
            }
        },
{
}

/// The regions beside a span are those of the faces on that side of its edges; the
/// two sides are not mixed up.
pub proof fn the_regions_beside_a_span_are_on_their_side(
    edges: Seq<EdgeFaces>,
    assignments: Seq<FaceAssignment>,
    region: u64,
)
    ensures
        side_regions(edges, assignments, CurveTraceSide::Left).contains(region) <==> exists|i: int|
            0 <= i < edges.len() && region_of(assignments, (#[trigger] edges[i]).left) == Some(
                region,
            ),
        side_regions(edges, assignments, CurveTraceSide::Right).contains(region) <==> exists|i: int|
            0 <= i < edges.len() && region_of(assignments, (#[trigger] edges[i]).right) == Some(
                region,
            ),
{
}

/// The region of a face is the one it was last given, and none where it was given
/// none.
pub proof fn the_region_of_a_face_is_the_last_given(
    assignments: Seq<FaceAssignment>,
    next: FaceAssignment,
    face: u64,
)
    ensures
        region_of(Seq::empty(), face) is None,
        next.face == face ==> region_of(assignments.push(next), face) == next.region,
        next.face != face ==> region_of(assignments.push(next), face) == region_of(
            assignments,
            face,
        ),
{
    assert(assignments.push(next).drop_last() =~= assignments);
}

/// A point of an open curve lands on what it attaches to, wherever the grid is; any
/// other point lands on the grid where that is asked for, and under the pointer
/// otherwise, attached to nothing.
pub proof fn a_drawn_point_lands_where_it_should(
    tool: DrawTool,
    hit: Option<AttachmentHit>,
    free: Point2,
    snapped: Point2,
    snap_to_grid: bool,
)
    ensures
        ({
            let placed = point_placed(tool, hit, free, snapped, snap_to_grid);
            let open = tool is Polyline || tool is OpenSpline;
            &&& open && hit is Some ==> placed.point == hit->0.point && placed.attachment == Some(
                hit->0.attachment,
            )
            &&& !open || hit is None ==> placed.attachment is None && placed.point == if snap_to_grid {
                snapped
            } else {
                free
            }
        }),
{
}

/// A curve closes on its first point only where it is to be closed and has at least
/// three points; and it is complete once it has the points its tool needs, to which
/// more can always be put, but for a rectangle.
pub proof fn a_curve_is_complete_once_it_has_its_points(draw: DrawGesture, near_first: bool)
    ensures
        closes(draw, near_first) <==> near_first && draw.points@.len() >= 3 && !(draw.tool
            is Polyline) && !(draw.tool is OpenSpline),
        draw.tool is Circle ==> !complete(draw),
        draw.tool is Rectangle ==> (complete(draw) <==> draw.points@.len() == 2),
        draw.tool is Polygon ==> (complete(draw) <==> draw.points@.len() >= 3),
        draw.tool is ClosedSpline ==> (complete(draw) <==> draw.points@.len() >= 4),
        draw.tool is Polyline ==> (complete(draw) <==> draw.points@.len() >= 2),
        draw.tool is OpenSpline ==> (complete(draw) <==> draw.points@.len() >= 2
            && draw.points@.len() != 3),
{
}

/// A drawn rectangle has its two clicked corners opposite each other and its sides
/// along the axes: each corner shares a coordinate with the next one.
pub proof fn a_rectangle_lies_between_its_corners(a: Point2, b: Point2)
    ensures
        ({
            let corners = rectangle(a, b);
            &&& corners.len() == 4
            &&& corners[0] == a
            &&& corners[2] == b
            &&& corners[0].y == corners[1].y && corners[1].x == corners[2].x
            &&& corners[2].y == corners[3].y && corners[3].x == corners[0].x
        }),
{
}

/// The region on a committed face is that of the face's own entry.
pub proof fn the_region_on_a_face_is_its_own(domains: Seq<PlanDomain>, face: u64)
    ensures
        region_on(domains, None) is None,
        match region_on(domains, Some(face)) {
            Some(region) => exists|i: int|
                0 <= i < domains.len() && (#[trigger] domains[i]).face == face && domains[i].region
                    == region,
            None => forall|i: int| 0 <= i < domains.len() ==> (#[trigger] domains[i]).face != face,
        },
{
    let test = |domain: PlanDomain| domain.face == face;
    first_place_is_least(domains, test);
    if let Some(place) = crate::collect::first_place(domains, test) {
        assert(domains[place].face == face);
    }
}

} // verus!
