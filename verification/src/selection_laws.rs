//! What a click selects, and what moves with a selection.

use crate::collect::first_place_is_least;
use crate::interaction::hit_applied;
use crate::model::{CurveSpline, OuterSide, TopologyCurve, TopologyGeometry};
use crate::ordered_set::ascending;
use crate::scalar::Point2;
use crate::scene_codec::spline_data;
use crate::selection::{
    clicked_targets, has_span, incident, is_incident, node_ends_span, span_at_vertex, spans_of,
    toggled_all, TopologyHandle, TopologyHit, TopologySelection, TopologySpanTarget,
};
use crate::transform::{
    control_update, curve_moves, dragged, ends_at_corners, first_partial, moved_controls, moves,
    partial_junction, plans, selected_ids, some_outer, span_chosen, vertex_updates, ControlKey,
    CurveShape, TopologyTransformIssue, TopologyTransformUpdate,
};
use vstd::prelude::*;

verus! {

/// A plain click selects what was hit and nothing else, and a click with Shift
/// puts the hit span in or takes it out and leaves all others alone.
pub proof fn a_click_selects_what_it_hits(
    before: TopologySelection,
    after: TopologySelection,
    geometry: TopologyGeometry,
    hit: TopologyHit,
    shift: bool,
)
    requires
        hit_applied(before, after, geometry, hit, shift, false),
    ensures
        hit matches TopologyHit::Handle { handle, .. } ==> after == TopologySelection::Handle(
            handle,
        ),
        hit matches TopologyHit::Span { target, .. } ==> forall|other: TopologySpanTarget|
            #[trigger] after.span_set().contains(other) <==> if other != target {
                shift && before.span_set().contains(other)
            } else {
                !(shift && before.span_set().contains(target))
            },
{
    if let TopologyHit::Span { target, .. } = hit {
        let clicked = clicked_targets(geometry.curves@, target, false);
        assert(clicked =~= seq![target]);
        assert(clicked.drop_last() =~= Seq::empty());
        reveal_with_fuel(toggled_all, 2);
        assert forall|other: TopologySpanTarget| clicked.to_set().contains(other) == (other
            == target) by {
            assert(clicked[0] == target);
        }
    }
}

/// A click on the whole of something selects all of the boundary of the domain, or
/// every span of the curve that the hit span belongs to, and nothing else.
pub proof fn a_click_on_the_whole_selects_all_of_it(
    before: TopologySelection,
    after: TopologySelection,
    geometry: TopologyGeometry,
    hit: TopologyHit,
    place: int,
)
    requires
        hit_applied(before, after, geometry, hit, false, true),
    ensures
        hit matches TopologyHit::Span { target: TopologySpanTarget::Outer(_), .. } ==> forall|
            other: TopologySpanTarget,
        | #[trigger]
            after.span_set().contains(other) <==> other is Outer,
        hit matches TopologyHit::Span { target: TopologySpanTarget::Curve(span), .. } ==> {
            &&& 0 <= place < geometry.curves@.len() && has_span(geometry.curves@[place], span)
                && (forall|i: int|
                0 <= i < place ==> !has_span(#[trigger] geometry.curves@[i], span)) ==> forall|
                other: TopologySpanTarget,
            | #[trigger]
                after.span_set().contains(other) <==> (other matches TopologySpanTarget::Curve(id)
                    && has_span(geometry.curves@[place], id))
        },
{
    if let TopologyHit::Span { target, .. } = hit {
        let clicked = clicked_targets(geometry.curves@, target, true);
        match target {
            TopologySpanTarget::Outer(_) => {
                assert forall|other: TopologySpanTarget| clicked.to_set().contains(other) == (other
                    is Outer) by {
                    assert(clicked[0] == TopologySpanTarget::Outer(OuterSide::Bottom));
                    assert(clicked[1] == TopologySpanTarget::Outer(OuterSide::Right));
                    assert(clicked[2] == TopologySpanTarget::Outer(OuterSide::Top));
                    assert(clicked[3] == TopologySpanTarget::Outer(OuterSide::Left));
                    if let TopologySpanTarget::Outer(side) = other {
                        match side {
                            OuterSide::Bottom => {},
                            OuterSide::Right => {},
                            OuterSide::Top => {},
                            OuterSide::Left => {},
                        }
                    }
                }
            },
            TopologySpanTarget::Curve(span) => {
                let test = |curve: TopologyCurve| has_span(curve, span);
                first_place_is_least(geometry.curves@, test);
                if 0 <= place < geometry.curves@.len() && has_span(geometry.curves@[place], span)
                    && (forall|i: int|
                    0 <= i < place ==> !has_span(#[trigger] geometry.curves@[i], span)) {
                    assert(test(geometry.curves@[place]));
                    crate::collect::first_place_found(geometry.curves@, test, place);
                    let curve = geometry.curves@[place];
                    assert(clicked == spans_of(curve));
                    assert forall|other: TopologySpanTarget| clicked.to_set().contains(other) == (
                    other matches TopologySpanTarget::Curve(id) && has_span(curve, id)) by {
                        if clicked.contains(other) {
                            let i = clicked.index_of(other);
                            assert(curve.spans@[i].id == other->Curve_0);
                        }
                        if let TopologySpanTarget::Curve(id) = other {
                            if has_span(curve, id) {
                                let i = choose|i: int|
                                    0 <= i < curve.spans@.len() && (#[trigger] curve.spans@[i]).id
                                        == id;
                                assert(clicked[i] == other);
                            }
                        }
                    }
                }
            },
        }
    }
}

spec fn odd(targets: Seq<TopologySpanTarget>, target: TopologySpanTarget) -> bool
    decreases targets.len(),
{
    if targets.len() == 0 {
        false
    } else {
        odd(targets.drop_last(), target) != (targets.last() == target)
    }
}

proof fn toggling_flips_the_odd_ones(
    set: Set<TopologySpanTarget>,
    targets: Seq<TopologySpanTarget>,
    target: TopologySpanTarget,
)
    ensures
        toggled_all(set, targets).contains(target) == (set.contains(target) != odd(
            targets,
            target,
        )),
        !targets.contains(target) ==> !odd(targets, target),
    decreases targets.len(),
{
    if targets.len() > 0 {
        toggling_flips_the_odd_ones(set, targets.drop_last(), target);
        if !targets.contains(target) {
            assert(targets.last() == targets[targets.len() - 1]);
            assert forall|i: int| 0 <= i < targets.drop_last().len() implies #[trigger]
                targets.drop_last()[i] != target by {
                assert(targets[i] != target);
            }
        }
    }
}

/// A second click with Shift takes back what the first one did, and neither
/// touches what was not clicked.
pub proof fn a_second_click_undoes_the_first(
    first: TopologySelection,
    second: TopologySelection,
    third: TopologySelection,
    geometry: TopologyGeometry,
    hit: TopologyHit,
    command: bool,
)
    requires
        hit is Span,
        hit_applied(first, second, geometry, hit, true, command),
        hit_applied(second, third, geometry, hit, true, command),
    ensures
        third.span_set() =~= first.span_set(),
        forall|other: TopologySpanTarget|
            !clicked_targets(geometry.curves@, hit->target, command).contains(other)
                ==> #[trigger] second.span_set().contains(other) == first.span_set().contains(
                other,
            ),
{
    let clicked = clicked_targets(geometry.curves@, hit->target, command);
    assert(second.span_set() == toggled_all(first.span_set(), clicked));
    assert(third.span_set() == toggled_all(second.span_set(), clicked));
    assert forall|other: TopologySpanTarget| third.span_set().contains(other)
        == first.span_set().contains(other) by {
        toggling_flips_the_odd_ones(first.span_set(), clicked, other);
        toggling_flips_the_odd_ones(second.span_set(), clicked, other);
    }
    assert forall|other: TopologySpanTarget| !clicked.contains(other) implies #[trigger]
        second.span_set().contains(other) == first.span_set().contains(other) by {
        toggling_flips_the_odd_ones(first.span_set(), clicked, other);
    }
}

/// Whether the node table of a curve is regular: one node at each end of a span,
/// the ends of a closed curve falling together.
pub open spec fn regular(curve: TopologyCurve) -> bool {
    match curve.spline {
        CurveSpline::Open(_) => curve.nodes@.len() == curve.spans@.len() + 1,
        CurveSpline::Closed(_) => curve.nodes@.len() == curve.spans@.len(),
    }
}

/// The spans that meet at a junction are those with an end there: the node a span
/// starts at, or the next one, which on a closed curve follows the last one at
/// the start.
pub proof fn the_spans_at_a_junction_end_there(
    curves: Seq<TopologyCurve>,
    vertex: u64,
    id: u64,
)
    requires
        forall|i: int| 0 <= i < curves.len() ==> #[trigger] regular(curves[i]),
    ensures
        incident(curves, vertex).contains(id) <==> exists|i: int, span: int|
            {
                &&& 0 <= i < curves.len()
                &&& 0 <= span < curves[i].spans@.len()
                &&& (#[trigger] curves[i].spans@[span]).id == id
                &&& {
                    let next = if curves[i].spline is Closed && span + 1 == curves[i].spans@.len() {
                        0
                    } else {
                        span + 1
                    };
                    curves[i].nodes@[span].vertex == Some(vertex) || curves[i].nodes@[next].vertex
                        == Some(vertex)
                }
            },
{
    if is_incident(curves, vertex, id) {
        let (i, span) = choose|i: int, span: int|
            0 <= i < curves.len() && #[trigger] span_at_vertex(curves[i], vertex, span)
                && curves[i].spans@[span].id == id;
        let curve = curves[i];
        assert(regular(curve));
        let node = choose|node: int|
            0 <= node < curve.nodes@.len() && (#[trigger] curve.nodes@[node]).vertex == Some(vertex)
                && node_ends_span(curve, node, span);
        let count = curve.spans@.len() as int;
        if curve.spline is Closed {
            vstd::arithmetic::div_mod::lemma_small_mod(node as nat, count as nat);
            if node == 0 {
                vstd::arithmetic::div_mod::lemma_small_mod((count - 1) as nat, count as nat);
            } else {
                vstd::arithmetic::div_mod::lemma_mod_add_multiples_vanish(node - 1, count);
                vstd::arithmetic::div_mod::lemma_small_mod((node - 1) as nat, count as nat);
                assert((node + count - 1) % count == (node - 1) % count) by {
                    assert(node + count - 1 == count + (node - 1));
                }
            }
        }
        assert(curve.spans@[span].id == id);
    }
    if exists|i: int, span: int|
        {
            &&& 0 <= i < curves.len()
            &&& 0 <= span < curves[i].spans@.len()
            &&& (#[trigger] curves[i].spans@[span]).id == id
            &&& {
                let next = if curves[i].spline is Closed && span + 1 == curves[i].spans@.len() {
                    0
                } else {
                    span + 1
                };
                curves[i].nodes@[span].vertex == Some(vertex) || curves[i].nodes@[next].vertex
                    == Some(vertex)
            }
        } {
        let (i, span) = choose|i: int, span: int|
            {
                &&& 0 <= i < curves.len()
                &&& 0 <= span < curves[i].spans@.len()
                &&& (#[trigger] curves[i].spans@[span]).id == id
                &&& {
                    let next = if curves[i].spline is Closed && span + 1 == curves[i].spans@.len() {
                        0
                    } else {
                        span + 1
                    };
                    curves[i].nodes@[span].vertex == Some(vertex) || curves[i].nodes@[next].vertex
                        == Some(vertex)
                }
            };
        let curve = curves[i];
        let count = curve.spans@.len() as int;
        assert(regular(curve));
        let next = if curve.spline is Closed && span + 1 == count {
            0
        } else {
            span + 1
        };
        let node = if curve.nodes@[span].vertex == Some(vertex) {
            span
        } else {
            next
        };
        if curve.spline is Closed {
            vstd::arithmetic::div_mod::lemma_small_mod(span as nat, count as nat);
            if next == 0 {
                vstd::arithmetic::div_mod::lemma_small_mod((count - 1) as nat, count as nat);
            } else {
                vstd::arithmetic::div_mod::lemma_mod_add_multiples_vanish(span, count);
                assert((next + count - 1) % count == span % count) by {
                    assert(next + count - 1 == count + span);
                }
            }
        }
        assert(node_ends_span(curve, node, span));
        assert(curve.nodes@[node].vertex == Some(vertex));
        assert(span_at_vertex(curve, vertex, span));
    }
}

/// A dragged handle moves to the given point, itself and nothing else, and a drag
/// is refused only for a point that is none or a handle that is not there.
pub proof fn a_dragged_handle_moves_to_the_point(
    geometry: TopologyGeometry,
    handle: TopologyHandle,
    point: Point2,
)
    ensures
        dragged(geometry, handle, point) matches Ok(update) ==> match handle {
            TopologyHandle::Control { curve, control } => update == (
            TopologyTransformUpdate::Control { curve, control, point }),
            TopologyHandle::Junction(vertex) => update == (TopologyTransformUpdate::Vertex {
                vertex,
                point,
            }),
        },
        dragged(geometry, handle, point) is Ok ==> point.x.finite() && point.y.finite(),
        dragged(geometry, handle, point) matches Err(issue) ==> (issue is InvalidTransform
            <==> !(point.x.finite() && point.y.finite())),
        point.x.finite() && point.y.finite() ==> (handle matches TopologyHandle::Junction(vertex)
            ==> (dragged(geometry, handle, point) is Ok <==> exists|i: int|
            0 <= i < geometry.vertices@.len() && (#[trigger] geometry.vertices@[i]).id == vertex)),
        point.x.finite() && point.y.finite() ==> (handle matches TopologyHandle::Control {
            curve,
            control,
        } ==> (dragged(geometry, handle, point) is Ok ==> exists|i: int|
            0 <= i < geometry.curves@.len() && (#[trigger] geometry.curves@[i]).id == curve
                && control < spline_data(geometry.curves@[i].spline).controls@.len())),
{
    if let TopologyHandle::Control { curve, control } = handle {
        let test = |found: TopologyCurve| found.id == curve;
        first_place_is_least(geometry.curves@, test);
        if dragged(geometry, handle, point) is Ok {
            let place = crate::collect::first_place(geometry.curves@, test)->0;
            assert(geometry.curves@[place].id == curve);
        }
    }
}

/// What moves with a selection are the control points of its spans, each of them
/// once and from where it stands, and the junctions that it holds all spans of.
/// Nothing else moves.
pub proof fn a_selection_moves_its_own_points(
    geometry: TopologyGeometry,
    shapes: Seq<CurveShape>,
    points: Seq<Point2>,
    selected: Set<TopologySpanTarget>,
    updates: Vec<TopologyTransformUpdate>,
)
    requires
        plans(geometry, shapes, points, selected, Ok(updates)),
        points.len() == geometry.vertices@.len(),
    ensures
        forall|i: int|
            0 <= i < updates@.len() ==> match #[trigger] updates@[i] {
                TopologyTransformUpdate::Control { curve, control, point } => exists|
                    c: int,
                    span: int,
                |
                    {
                        &&& 0 <= c < geometry.curves@.len()
                        &&& geometry.curves@[c].id == curve
                        &&& 0 <= span < geometry.curves@[c].spans@.len()
                        &&& selected.contains(
                            TopologySpanTarget::Curve(
                                (#[trigger] geometry.curves@[c].spans@[span]).id,
                            ),
                        )
                        &&& shapes[c].span_controls@[span] is Some
                        &&& shapes[c].span_controls@[span]->0@.contains(control)
                    },
                TopologyTransformUpdate::Vertex { vertex, point } => exists|v: int|
                    {
                        &&& 0 <= v < geometry.vertices@.len()
                        &&& (#[trigger] geometry.vertices@[v]).id == vertex
                        &&& point == points[v]
                        &&& forall|id: u64| #[trigger]
                            incident(geometry.curves@, vertex).contains(id) ==> selected.contains(
                                TopologySpanTarget::Curve(id),
                            )
                    },
            },
        forall|c: int, span: int, control: usize|
            0 <= c < geometry.curves@.len() && 0 <= span < geometry.curves@[c].spans@.len()
                && selected.contains(
                TopologySpanTarget::Curve((#[trigger] geometry.curves@[c].spans@[span]).id),
            ) && shapes[c].span_controls@[span] is Some && #[trigger]
            shapes[c].span_controls@[span]->0@.contains(control) ==> exists|i: int|
                0 <= i < updates@.len() && ((#[trigger] updates@[i]) matches
                    TopologyTransformUpdate::Control { curve: moved, control: at, .. } && moved
                    == geometry.curves@[c].id && at == control),
{
    let ids = selected_ids(selected);
    let curves = geometry.curves@;
    let keys = choose|keys: Seq<ControlKey>|
        {
            &&& #[trigger] ascending(keys)
            &&& keys.to_set() == moved_controls(curves, shapes, ids)
            &&& updates@ == keys.map_values(|key: ControlKey| control_update(curves, key))
                + vertex_updates(curves, ids, geometry.vertices@, points)
        };
    let controls = keys.map_values(|key: ControlKey| control_update(curves, key));
    let vertices = vertex_updates(curves, ids, geometry.vertices@, points);
    junctions_come_from_vertices(curves, ids, geometry.vertices@, points);
    assert forall|i: int| 0 <= i < updates@.len() implies match #[trigger] updates@[i] {
        TopologyTransformUpdate::Control { curve, control, point } => exists|c: int, span: int|
            {
                &&& 0 <= c < curves.len()
                &&& curves[c].id == curve
                &&& 0 <= span < curves[c].spans@.len()
                &&& selected.contains(
                    TopologySpanTarget::Curve((#[trigger] curves[c].spans@[span]).id),
                )
                &&& shapes[c].span_controls@[span] is Some
                &&& shapes[c].span_controls@[span]->0@.contains(control)
            },
        TopologyTransformUpdate::Vertex { vertex, point } => exists|v: int|
            {
                &&& 0 <= v < geometry.vertices@.len()
                &&& (#[trigger] geometry.vertices@[v]).id == vertex
                &&& point == points[v]
                &&& forall|id: u64| #[trigger]
                    incident(curves, vertex).contains(id) ==> selected.contains(
                        TopologySpanTarget::Curve(id),
                    )
            },
    } by {
        if i < controls.len() {
            assert(updates@[i] == controls[i]);
            let key = keys[i];
            assert(keys.contains(key));
            assert(keys.to_set().contains(key));
            assert(moves(curves, shapes, ids, key));
            let c = choose|c: int|
                0 <= c < curves.len() && (#[trigger] curves[c]).id == key.curve && curve_moves(
                    curves[c],
                    shapes[c],
                    ids,
                    key.control,
                );
            let span = choose|span: int|
                0 <= span < curves[c].spans@.len() && #[trigger] span_chosen(curves[c], ids, span)
                    && shapes[c].span_controls@[span] is Some
                    && shapes[c].span_controls@[span]->0@.contains(key.control);
            assert(selected.contains(TopologySpanTarget::Curve(curves[c].spans@[span].id)));
        } else {
            let j = i - controls.len();
            assert(updates@[i] == vertices[j]);
            let v = choose|v: int|
                0 <= v < geometry.vertices@.len() && vertices[j] == (
                TopologyTransformUpdate::Vertex {
                    vertex: (#[trigger] geometry.vertices@[v]).id,
                    point: points[v],
                }) && incident(curves, geometry.vertices@[v].id).subset_of(ids);
            let vertex = geometry.vertices@[v].id;
            assert forall|id: u64| #[trigger]
                incident(curves, vertex).contains(id) implies selected.contains(
                TopologySpanTarget::Curve(id),
            ) by {
                assert(ids.contains(id));
            }
        }
    }
    assert forall|c: int, span: int, control: usize|
        0 <= c < curves.len() && 0 <= span < curves[c].spans@.len() && selected.contains(
            TopologySpanTarget::Curve((#[trigger] curves[c].spans@[span]).id),
        ) && shapes[c].span_controls@[span] is Some && #[trigger]
        shapes[c].span_controls@[span]->0@.contains(control) implies exists|i: int|
        0 <= i < updates@.len() && ((#[trigger] updates@[i]) matches
            TopologyTransformUpdate::Control { curve: moved, control: at, .. } && moved
            == curves[c].id && at == control) by {
        let key = ControlKey { curve: curves[c].id, control };
        assert(span_chosen(curves[c], ids, span));
        assert(curve_moves(curves[c], shapes[c], ids, control));
        assert(moves(curves, shapes, ids, key));
        assert(moved_controls(curves, shapes, ids).contains(key));
        assert(keys.to_set().contains(key));
        let i = keys.index_of(key);
        assert(updates@[i] == controls[i]);
    }
}

proof fn junctions_come_from_vertices(
    curves: Seq<TopologyCurve>,
    ids: Set<u64>,
    vertices: Seq<crate::model::TopologyVertex>,
    points: Seq<Point2>,
)
    requires
        points.len() == vertices.len(),
    ensures
        forall|j: int|
            0 <= j < vertex_updates(curves, ids, vertices, points).len() ==> exists|v: int|
                0 <= v < vertices.len() && (#[trigger] vertex_updates(
                    curves,
                    ids,
                    vertices,
                    points,
                )[j]) == (TopologyTransformUpdate::Vertex {
                    vertex: (#[trigger] vertices[v]).id,
                    point: points[v],
                }) && incident(curves, vertices[v].id).subset_of(ids),
    decreases vertices.len(),
{
    if vertices.len() > 0 {
        let front = vertices.drop_last();
        let earlier = vertex_updates(curves, ids, front, points.drop_last());
        junctions_come_from_vertices(curves, ids, front, points.drop_last());
        let all = vertex_updates(curves, ids, vertices, points);
        assert forall|j: int| 0 <= j < all.len() implies exists|v: int|
            0 <= v < vertices.len() && (#[trigger] all[j]) == (TopologyTransformUpdate::Vertex {
                vertex: (#[trigger] vertices[v]).id,
                point: points[v],
            }) && incident(curves, vertices[v].id).subset_of(ids) by {
            if j < earlier.len() {
                assert(all[j] == earlier[j]);
                let v = choose|v: int|
                    0 <= v < front.len() && earlier[j] == (TopologyTransformUpdate::Vertex {
                        vertex: (#[trigger] front[v]).id,
                        point: points.drop_last()[v],
                    }) && incident(curves, front[v].id).subset_of(ids);
                assert(vertices[v] == front[v]);
            } else {
                assert(vertices[vertices.len() - 1] == vertices.last());
            }
        }
    }
}

/// A selection that moves can be moved: there is something in it, no side of the
/// domain, no junction that it holds only some spans of, and wherever it ends
/// within a curve there is a corner. It is refused for the first of these that
/// does not hold.
pub proof fn a_selection_moves_only_whole(
    geometry: TopologyGeometry,
    shapes: Seq<CurveShape>,
    points: Seq<Point2>,
    selected: Set<TopologySpanTarget>,
    result: Result<Vec<TopologyTransformUpdate>, TopologyTransformIssue>,
)
    requires
        plans(geometry, shapes, points, selected, result),
    ensures
        result is Ok ==> {
            &&& exists|target: TopologySpanTarget| #[trigger] selected.contains(target)
            &&& forall|side: OuterSide| !#[trigger] selected.contains(
                TopologySpanTarget::Outer(side),
            )
            &&& forall|v: int, one: u64, other: u64|
                0 <= v < geometry.vertices@.len() && #[trigger] incident(
                    geometry.curves@,
                    geometry.vertices@[v].id,
                ).contains(one) && #[trigger] incident(
                    geometry.curves@,
                    geometry.vertices@[v].id,
                ).contains(other) ==> (selected.contains(TopologySpanTarget::Curve(one))
                    <==> selected.contains(TopologySpanTarget::Curve(other)))
        },
        result matches Err(TopologyTransformIssue::EmptySelection) ==> selected
            =~= Set::<TopologySpanTarget>::empty(),
        result matches Err(TopologyTransformIssue::OuterBoundarySelected) ==> exists|
            side: OuterSide,
        | #[trigger]
            selected.contains(TopologySpanTarget::Outer(side)),
        result matches Err(TopologyTransformIssue::PartialJunction { vertex, missing }) ==> {
            forall|id: u64| #[trigger]
                missing@.contains(id) <==> incident(geometry.curves@, vertex).contains(id)
                    && !selected.contains(TopologySpanTarget::Curve(id))
        },
        !(result matches Err(TopologyTransformIssue::InvalidTransform)),
{
    let ids = selected_ids(selected);
    let test = |vertex: crate::model::TopologyVertex|
        partial_junction(geometry.curves@, ids, vertex.id);
    first_place_is_least(geometry.vertices@, test);
    if result is Ok {
        assert(first_partial(geometry, ids) is None);
        assert(exists|target: TopologySpanTarget| #[trigger] selected.contains(target)) by {
            if forall|target: TopologySpanTarget| !#[trigger] selected.contains(target) {
                assert(selected =~= Set::empty());
            }
        }
        assert(!some_outer(selected));
        assert forall|v: int, one: u64, other: u64|
            0 <= v < geometry.vertices@.len() && #[trigger] incident(
                geometry.curves@,
                geometry.vertices@[v].id,
            ).contains(one) && #[trigger] incident(
                geometry.curves@,
                geometry.vertices@[v].id,
            ).contains(other) implies (selected.contains(TopologySpanTarget::Curve(one))
            <==> selected.contains(TopologySpanTarget::Curve(other))) by {
            assert(!test(geometry.vertices@[v]));
            assert(ids.contains(one) <==> selected.contains(TopologySpanTarget::Curve(one)));
            assert(ids.contains(other) <==> selected.contains(TopologySpanTarget::Curve(other)));
        }
    }
    if let Err(TopologyTransformIssue::OuterBoundarySelected) = result {
        let target = choose|target: TopologySpanTarget| selected.contains(target) && target is Outer;
        assert(selected.contains(TopologySpanTarget::Outer(target->Outer_0)));
    }
}

/// The selection of a curve ends at corners exactly where each span that is
/// selected beside one that is not starts, or is followed, at a corner. On an
/// open curve its two ends are free.
pub proof fn a_section_ends_at_corners(
    open: bool,
    chosen: Seq<bool>,
    continuity: Seq<Option<u8>>,
)
    requires
        chosen.len() == continuity.len(),
    ensures
        ends_at_corners(open, chosen, continuity) <==> {
            &&& forall|i: int|
                0 < i < chosen.len() && chosen[i - 1] != chosen[i] ==> (#[trigger] continuity[i])
                    == Some(0u8)
            &&& !open && chosen.len() > 0 && chosen[chosen.len() - 1] != chosen[0]
                ==> continuity[0] == Some(0u8)
        },
{
    if ends_at_corners(open, chosen, continuity) && chosen.len() > 0 {
        assert(continuity[0] == continuity[0]);
    }
}

} // verus!
