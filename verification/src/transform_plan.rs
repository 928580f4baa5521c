//! Planning transforms of the selection.

use crate::collect::{first_place_found, first_place_is_least};
use crate::model::{CurveSpline, TopologyCurve, TopologyGeometry, TopologyVertex};
use crate::ordered_set::{ascending, OrderedSet};
use crate::scalar::{Point2, Scalar};
use crate::scene_codec::spline_data;
use crate::selection::{
    incident, incident_spans, joints_sound, SpanSet, TopologySelection, TopologySpanTarget,
};
use crate::transform::{
    chosen_spans, control_at, control_update, curve_movable, curve_moves, ends_at_corners,
    first_partial, junction_moves, lists_moves, moved_controls, moves, partial_junction, plans,
    selected_ids, selection_ends, shape_fits, shapes_fit, some_outer, span_chosen, vertex_updates,
    ControlKey, CurveShape, RigidTransform, TopologyTransformIssue, TopologyTransformUpdate,
};
use crate::validation::{curve_named, find_curve};
use vstd::prelude::*;

verus! {

fn ids_of_selection(selected: &SpanSet) -> (result: OrderedSet<u64>)
    requires
        selected.wf(),
    ensures
        result.wf(),
        result@ == selected_ids(selected@),
{
    let mut ids: OrderedSet<u64> = OrderedSet::new();
    let mut index: usize = 0;
    while index < selected.values.len()
        invariant
            index <= selected.values@.len(),
            ids.wf(),
            forall|id: u64|
                #[trigger] ids@.contains(id) == selected.values@.take(index as int).contains(
                    TopologySpanTarget::Curve(id),
                ),
        decreases selected.values@.len() - index,
    {
        let target: TopologySpanTarget = selected.values[index];
        let ghost before = ids@;
        if let TopologySpanTarget::Curve(id) = target {
            ids.insert(id);
        }
        proof {
            let shorter = selected.values@.take(index as int);
            let longer = selected.values@.take(index + 1);
            assert(longer =~= shorter.push(target));
            assert forall|id: u64| #[trigger] ids@.contains(id) == longer.contains(
                TopologySpanTarget::Curve(id),
            ) by {
                let wanted = TopologySpanTarget::Curve(id);
                assert(before.contains(id) == shorter.contains(wanted));
                if shorter.contains(wanted) {
                    let i = shorter.index_of(wanted);
                    assert(longer[i] == wanted);
                }
                if longer.contains(wanted) && !shorter.contains(wanted) {
                    let i = longer.index_of(wanted);
                    if i < index {
                        assert(shorter[i] == wanted);
                    }
                }
                if target == wanted {
                    assert(longer[index as int] == wanted);
                }
            }
        }
        index = index + 1;
    }
    proof {
        assert(selected.values@.take(index as int) =~= selected.values@);
        assert(ids@ =~= selected_ids(selected@));
    }
    ids
}

fn has_outer(selected: &SpanSet) -> (result: bool)
    ensures
        result == some_outer(selected@),
{
    let mut index: usize = 0;
    while index < selected.values.len()
        invariant
            index <= selected.values@.len(),
            forall|i: int| 0 <= i < index ==> !(#[trigger] selected.values@[i] is Outer),
        decreases selected.values@.len() - index,
    {
        if matches!(selected.values[index], TopologySpanTarget::Outer(_)) {
            assert(selected@.contains(selected.values@[index as int]));
            return true;
        }
        index = index + 1;
    }
    proof {
        if some_outer(selected@) {
            let target = choose|target: TopologySpanTarget|
                selected@.contains(target) && target is Outer;
            let i = selected.values@.index_of(target);
            assert(selected.values@[i] is Outer);
        }
    }
    false
}

/// The unselected spans at a junction that also has selected ones.
fn missing_at(geometry: &TopologyGeometry, ids: &OrderedSet<u64>, vertex: u64) -> (result: Option<
    OrderedSet<u64>,
>)
    requires
        ids.wf(),
        joints_sound(geometry.curves@),
    ensures
        result is Some <==> partial_junction(geometry.curves@, ids@, vertex),
        result matches Some(missing) ==> missing.wf() && missing@ == incident(
            geometry.curves@,
            vertex,
        ).difference(ids@),
{
    let spans: OrderedSet<u64> = incident_spans(geometry, vertex);
    let mut missing: OrderedSet<u64> = OrderedSet::new();
    let mut touched: bool = false;
    let mut index: usize = 0;
    while index < spans.values.len()
        invariant
            index <= spans.values@.len(),
            missing.wf(),
            ids.wf(),
            touched == exists|i: int|
                0 <= i < index && ids@.contains(#[trigger] spans.values@[i]),
            forall|id: u64|
                #[trigger] missing@.contains(id) == (spans.values@.take(index as int).contains(id)
                    && !ids@.contains(id)),
        decreases spans.values@.len() - index,
    {
        let span: u64 = spans.values[index];
        let ghost before = missing@;
        let ghost was_touched = touched;
        if ids.contains(&span) {
            touched = true;
        } else {
            missing.insert(span);
        }
        proof {
            let shorter = spans.values@.take(index as int);
            let longer = spans.values@.take(index + 1);
            assert(longer =~= shorter.push(span));
            assert forall|id: u64| #[trigger] missing@.contains(id) == (longer.contains(id)
                && !ids@.contains(id)) by {
                assert(before.contains(id) == (shorter.contains(id) && !ids@.contains(id)));
                if shorter.contains(id) {
                    let i = shorter.index_of(id);
                    assert(longer[i] == id);
                }
                if longer.contains(id) && !shorter.contains(id) {
                    let i = longer.index_of(id);
                    if i < index {
                        assert(shorter[i] == id);
                    }
                }
                if id == span {
                    assert(longer[index as int] == id);
                }
            }
            if ids@.contains(span) {
                assert(ids@.contains(spans.values@[index as int]));
            }
            if was_touched {
                let i = choose|i: int|
                    0 <= i < index && ids@.contains(#[trigger] spans.values@[i]);
                assert(ids@.contains(spans.values@[i]));
            }
        }
        index = index + 1;
    }
    proof {
        let at = incident(geometry.curves@, vertex);
        assert(spans.values@.take(index as int) =~= spans.values@);
        assert(missing@ =~= at.difference(ids@));
        if touched {
            let i = choose|i: int|
                0 <= i < spans.values@.len() && ids@.contains(#[trigger] spans.values@[i]);
            assert(spans@.contains(spans.values@[i]));
            assert(at.contains(spans.values@[i]));
        }
        if missing.values@.len() > 0 {
            assert(missing@.contains(missing.values@[0]));
            assert(at.contains(missing.values@[0]));
        }
        if partial_junction(geometry.curves@, ids@, vertex) {
            let id = choose|id: u64| #[trigger] at.contains(id) && ids@.contains(id);
            let i = spans.values@.index_of(id);
            assert(ids@.contains(spans.values@[i]));
            let other = choose|id: u64| #[trigger] at.contains(id) && !ids@.contains(id);
            assert(missing@.contains(other));
        }
    }
    if touched && missing.values.len() > 0 {
        Some(missing)
    } else {
        None
    }
}

fn chosen_of(curve: &TopologyCurve, ids: &OrderedSet<u64>) -> (result: Vec<bool>)
    requires
        ids.wf(),
    ensures
        result@ == chosen_spans(*curve, ids@),
{
    let mut chosen: Vec<bool> = Vec::new();
    let mut index: usize = 0;
    while index < curve.spans.len()
        invariant
            index <= curve.spans@.len(),
            ids.wf(),
            chosen@ =~= chosen_spans(*curve, ids@).take(index as int),
        decreases curve.spans@.len() - index,
    {
        let next: bool = ids.contains(&curve.spans[index].id);
        chosen.push(next);
        index = index + 1;
    }
    assert(chosen@ =~= chosen_spans(*curve, ids@));
    chosen
}

/// Whether a part of a curve ends at corners only.
pub fn selection_is_c0_isolated(
    open: bool,
    selected: &Vec<bool>,
    continuity: &Vec<Option<u8>>,
) -> (result: bool)
    requires
        continuity@.len() == selected@.len(),
    ensures
        result == ends_at_corners(open, selected@, continuity@),
{
    let count: usize = selected.len();
    let mut index: usize = 0;
    while index < count
        invariant
            index <= count,
            count == selected@.len(),
            continuity@.len() == selected@.len(),
            forall|i: int|
                0 <= i < index && selection_ends(open, selected@, i)
                    ==> #[trigger] continuity@[i] == Some(0u8),
        decreases count - index,
    {
        let ends: bool = if index > 0 {
            selected[index - 1] != selected[index]
        } else {
            !open && selected[count - 1] != selected[0]
        };
        let corner: bool = match continuity[index] {
            Some(order) => order == 0,
            None => false,
        };
        if ends && !corner {
            assert(selection_ends(open, selected@, index as int));
            assert(continuity@[index as int] != Some(0u8));
            return false;
        }
        index = index + 1;
    }
    true
}

fn check_curve(curve: &TopologyCurve, shape: &CurveShape, ids: &OrderedSet<u64>) -> (result: bool)
    requires
        ids.wf(),
        shape_fits(*curve, *shape),
    ensures
        result == curve_movable(*curve, *shape, ids@),
{
    let chosen: Vec<bool> = chosen_of(curve, ids);
    let mut any: bool = false;
    let mut all: bool = true;
    let mut shaped: bool = true;
    let mut index: usize = 0;
    while index < chosen.len()
        invariant
            index <= chosen@.len(),
            chosen@ == chosen_spans(*curve, ids@),
            shape.span_controls@.len() == curve.spans@.len(),
            any == exists|i: int| 0 <= i < index && #[trigger] span_chosen(*curve, ids@, i),
            all == forall|i: int| 0 <= i < index ==> #[trigger] span_chosen(*curve, ids@, i),
            shaped == forall|i: int|
                0 <= i < index && #[trigger] span_chosen(*curve, ids@, i)
                    ==> shape.span_controls@[i] is Some,
        decreases chosen@.len() - index,
    {
        assert(chosen@[index as int] == span_chosen(*curve, ids@, index as int));
        if chosen[index] {
            any = true;
            if shape.span_controls[index].is_none() {
                shaped = false;
            }
        } else {
            all = false;
        }
        index = index + 1;
    }
    if !any {
        return true;
    }
    let open: bool = matches!(curve.spline, CurveSpline::Open(_));
    (all || selection_is_c0_isolated(open, &chosen, &shape.continuity)) && shaped
}

/// The controls of the first `count` curves that move.
spec fn moves_so_far(
    curves: Seq<TopologyCurve>,
    shapes: Seq<CurveShape>,
    selected: Set<u64>,
    count: int,
    key: ControlKey,
) -> bool {
    exists|i: int|
        0 <= i < count && (#[trigger] curves[i]).id == key.curve && curve_moves(
            curves[i],
            shapes[i],
            selected,
            key.control,
        )
}

spec fn span_moves(shape: CurveShape, span: int, control: usize) -> bool {
    shape.span_controls@[span] is Some && shape.span_controls@[span]->0@.contains(control)
}

fn add_span(keys: &mut OrderedSet<ControlKey>, curve: u64, controls: &Vec<usize>)
    requires
        old(keys).wf(),
    ensures
        final(keys).wf(),
        forall|key: ControlKey|
            #[trigger] final(keys)@.contains(key) == (old(keys)@.contains(key) || (key.curve
                == curve && controls@.contains(key.control))),
{
    let ghost before = keys@;
    let mut index: usize = 0;
    while index < controls.len()
        invariant
            index <= controls@.len(),
            keys.wf(),
            forall|key: ControlKey|
                #[trigger] keys@.contains(key) == (before.contains(key) || (key.curve == curve
                    && controls@.take(index as int).contains(key.control))),
        decreases controls@.len() - index,
    {
        let control: usize = controls[index];
        let ghost prior = keys@;
        keys.insert(ControlKey { curve, control });
        proof {
            let shorter = controls@.take(index as int);
            let longer = controls@.take(index + 1);
            assert(longer =~= shorter.push(control));
            assert forall|key: ControlKey| #[trigger] keys@.contains(key) == (before.contains(key)
                || (key.curve == curve && longer.contains(key.control))) by {
                assert(prior.contains(key) == (before.contains(key) || (key.curve == curve
                    && shorter.contains(key.control))));
                if shorter.contains(key.control) {
                    let i = shorter.index_of(key.control);
                    assert(longer[i] == key.control);
                }
                if longer.contains(key.control) && !shorter.contains(key.control) {
                    let i = longer.index_of(key.control);
                    if i < index {
                        assert(shorter[i] == key.control);
                    }
                }
                if key.control == control {
                    assert(longer[index as int] == key.control);
                }
            }
        }
        index = index + 1;
    }
    assert(controls@.take(index as int) =~= controls@);
}

fn gather_controls(
    curves: &Vec<TopologyCurve>,
    shapes: &Vec<CurveShape>,
    ids: &OrderedSet<u64>,
) -> (result: OrderedSet<ControlKey>)
    requires
        ids.wf(),
        shapes_fit(curves@, shapes@),
    ensures
        result.wf(),
        result@ == moved_controls(curves@, shapes@, ids@),
{
    let mut keys: OrderedSet<ControlKey> = OrderedSet::new();
    let mut index: usize = 0;
    while index < curves.len()
        invariant
            index <= curves@.len(),
            ids.wf(),
            keys.wf(),
            shapes_fit(curves@, shapes@),
            forall|key: ControlKey|
                #[trigger] keys@.contains(key) == moves_so_far(
                    curves@,
                    shapes@,
                    ids@,
                    index as int,
                    key,
                ),
        decreases curves@.len() - index,
    {
        let curve: &TopologyCurve = &curves[index];
        let shape: &CurveShape = &shapes[index];
        assert(shape_fits(curves@[index as int], shapes@[index as int]));
        let ghost before = keys@;
        let mut span: usize = 0;
        while span < curve.spans.len()
            invariant
                span <= curve.spans@.len(),
                ids.wf(),
                keys.wf(),
                shape.span_controls@.len() == curve.spans@.len(),
                forall|key: ControlKey|
                    #[trigger] keys@.contains(key) == (before.contains(key) || (key.curve
                        == curve.id && exists|i: int|
                        0 <= i < span && #[trigger] span_chosen(*curve, ids@, i) && span_moves(
                            *shape,
                            i,
                            key.control,
                        ))),
            decreases curve.spans@.len() - span,
        {
            let ghost prior = keys@;
            let chosen: bool = ids.contains(&curve.spans[span].id);
            assert(chosen == span_chosen(*curve, ids@, span as int));
            if chosen {
                if let Some(controls) = &shape.span_controls[span] {
                    add_span(&mut keys, curve.id, controls);
                }
            }
            proof {
                assert forall|key: ControlKey| #[trigger] keys@.contains(key) == (before.contains(
                    key,
                ) || (key.curve == curve.id && exists|i: int|
                    0 <= i < span + 1 && #[trigger] span_chosen(*curve, ids@, i) && span_moves(
                        *shape,
                        i,
                        key.control,
                    ))) by {
                    assert(prior.contains(key) == (before.contains(key) || (key.curve == curve.id
                        && exists|i: int|
                        0 <= i < span && #[trigger] span_chosen(*curve, ids@, i) && span_moves(
                            *shape,
                            i,
                            key.control,
                        ))));
                    if chosen && span_moves(*shape, span as int, key.control) {
                        assert(span_chosen(*curve, ids@, span as int));
                    }
                    if exists|i: int|
                        0 <= i < span && #[trigger] span_chosen(*curve, ids@, i) && span_moves(
                            *shape,
                            i,
                            key.control,
                        ) {
                        let i = choose|i: int|
                            0 <= i < span && #[trigger] span_chosen(*curve, ids@, i) && span_moves(
                                *shape,
                                i,
                                key.control,
                            );
                        assert(span_chosen(*curve, ids@, i));
                    }
                }
            }
            span = span + 1;
        }
        proof {
            assert forall|key: ControlKey| #[trigger] keys@.contains(key) == moves_so_far(
                curves@,
                shapes@,
                ids@,
                index + 1,
                key,
            ) by {
                assert(before.contains(key) == moves_so_far(
                    curves@,
                    shapes@,
                    ids@,
                    index as int,
                    key,
                ));
                let here = key.curve == curve.id && curve_moves(
                    *curve,
                    *shape,
                    ids@,
                    key.control,
                );
                assert(here == (key.curve == curve.id && exists|i: int|
                    0 <= i < span && #[trigger] span_chosen(*curve, ids@, i) && span_moves(
                        *shape,
                        i,
                        key.control,
                    ))) by {
                    if here {
                        let i = choose|i: int|
                            0 <= i < curve.spans@.len() && #[trigger] span_chosen(*curve, ids@, i)
                                && shape.span_controls@[i] is Some
                                && shape.span_controls@[i]->0@.contains(key.control);
                        assert(span_moves(*shape, i, key.control));
                    }
                    if exists|i: int|
                        0 <= i < span && #[trigger] span_chosen(*curve, ids@, i) && span_moves(
                            *shape,
                            i,
                            key.control,
                        ) {
                        let i = choose|i: int|
                            0 <= i < span && #[trigger] span_chosen(*curve, ids@, i) && span_moves(
                                *shape,
                                i,
                                key.control,
                            );
                        assert(span_chosen(*curve, ids@, i));
                    }
                }
                if here {
                    assert(curves@[index as int].id == key.curve);
                }
            }
        }
        index = index + 1;
    }
    assert(keys@ =~= moved_controls(curves@, shapes@, ids@)) by {
        assert forall|key: ControlKey| keys@.contains(key) == moves(
            curves@,
            shapes@,
            ids@,
            key,
        ) by {
            assert(keys@.contains(key) == moves_so_far(
                curves@,
                shapes@,
                ids@,
                index as int,
                key,
            ));
        }
    }
    keys
}

fn junction_moves_along(geometry: &TopologyGeometry, ids: &OrderedSet<u64>, vertex: u64) -> (result:
    bool)
    requires
        ids.wf(),
        joints_sound(geometry.curves@),
    ensures
        result == junction_moves(geometry.curves@, ids@, vertex),
{
    let spans: OrderedSet<u64> = incident_spans(geometry, vertex);
    if spans.is_empty() {
        return false;
    }
    let mut index: usize = 0;
    while index < spans.values.len()
        invariant
            index <= spans.values@.len(),
            ids.wf(),
            spans@ == incident(geometry.curves@, vertex),
            forall|i: int| 0 <= i < index ==> ids@.contains(#[trigger] spans.values@[i]),
        decreases spans.values@.len() - index,
    {
        if !ids.contains(&spans.values[index]) {
            assert(spans@.contains(spans.values@[index as int]));
            assert(!spans@.subset_of(ids@));
            return false;
        }
        index = index + 1;
    }
    assert forall|id: u64| spans@.contains(id) implies ids@.contains(id) by {
        let i = spans.values@.index_of(id);
        assert(ids@.contains(spans.values@[i]));
    }
    true
}

proof fn moved_controls_exist(
    curves: Seq<TopologyCurve>,
    shapes: Seq<CurveShape>,
    selected: Set<u64>,
    key: ControlKey,
)
    requires
        shapes_fit(curves, shapes),
        moved_controls(curves, shapes, selected).contains(key),
    ensures
        curve_named(curves, key.curve) is Some,
        key.control < spline_data(curve_named(curves, key.curve)->0.spline).controls@.len(),
{
    let i = choose|i: int|
        0 <= i < curves.len() && (#[trigger] curves[i]).id == key.curve && curve_moves(
            curves[i],
            shapes[i],
            selected,
            key.control,
        );
    let test = |curve: TopologyCurve| curve.id == key.curve;
    assert forall|k: int| 0 <= k < i implies !test(#[trigger] curves[k]) by {}
    first_place_found(curves, test, i);
    assert(shape_fits(curves[i], shapes[i]));
    let span = choose|s: int|
        0 <= s < curves[i].spans@.len() && #[trigger] span_chosen(curves[i], selected, s)
            && shapes[i].span_controls@[s] is Some && shapes[i].span_controls@[s]->0@.contains(
            key.control,
        );
    let controls = shapes[i].span_controls@[span]->0@;
    let k = controls.index_of(key.control);
    assert(controls[k] < spline_data(curves[i].spline).controls@.len());
}

/// Lists what a selection moves, each point where it stands. `points` are the
/// places of the vertices.
#[verifier::rlimit(30)]
pub fn plan_moves(
    geometry: &TopologyGeometry,
    shapes: &Vec<CurveShape>,
    points: &Vec<Point2>,
    selected: &SpanSet,
) -> (result: Result<Vec<TopologyTransformUpdate>, TopologyTransformIssue>)
    requires
        selected.wf(),
        joints_sound(geometry.curves@),
        shapes_fit(geometry.curves@, shapes@),
        points@.len() == geometry.vertices@.len(),
    ensures
        plans(*geometry, shapes@, points@, selected@, result),
{
    if selected.is_empty() {
        return Err(TopologyTransformIssue::EmptySelection);
    }
    if has_outer(selected) {
        return Err(TopologyTransformIssue::OuterBoundarySelected);
    }
    let ids: OrderedSet<u64> = ids_of_selection(selected);
    if let Some((vertex, missing)) = find_partial(geometry, &ids) {
        return Err(TopologyTransformIssue::PartialJunction { vertex, missing });
    }
    if !check_curves(geometry, shapes, &ids) {
        return Err(TopologyTransformIssue::NonC0Selection);
    }
    let keys: OrderedSet<ControlKey> = gather_controls(&geometry.curves, shapes, &ids);
    let mut updates: Vec<TopologyTransformUpdate> = control_updates(
        geometry,
        shapes,
        &ids,
        &keys,
    );
    let mut junctions: Vec<TopologyTransformUpdate> = junction_updates(geometry, points, &ids);
    updates.append(&mut junctions);
    assert(lists_moves(*geometry, shapes@, points@, ids@, updates@)) by {
        assert(ascending(keys.values@));
    }
    Ok(updates)
}

fn find_partial(geometry: &TopologyGeometry, ids: &OrderedSet<u64>) -> (result: Option<
    (u64, OrderedSet<u64>),
>)
    requires
        ids.wf(),
        joints_sound(geometry.curves@),
    ensures
        match first_partial(*geometry, ids@) {
            Some(vertex) => {
                &&& result matches Some((id, missing))
                &&& id == vertex.id
                &&& missing.wf()
                &&& missing@ == incident(geometry.curves@, vertex.id).difference(ids@)
            },
            None => result is None,
        },
{
    let ghost test = |vertex: TopologyVertex|
        partial_junction(geometry.curves@, ids@, vertex.id);
    let mut index: usize = 0;
    while index < geometry.vertices.len()
        invariant
            index <= geometry.vertices@.len(),
            ids.wf(),
            joints_sound(geometry.curves@),
            test == (|vertex: TopologyVertex|
                partial_junction(geometry.curves@, ids@, vertex.id)),
            forall|i: int| 0 <= i < index ==> !test(#[trigger] geometry.vertices@[i]),
        decreases geometry.vertices@.len() - index,
    {
        let vertex: u64 = geometry.vertices[index].id;
        if let Some(missing) = missing_at(geometry, ids, vertex) {
            proof {
                first_place_found(geometry.vertices@, test, index as int);
            }
            return Some((vertex, missing));
        }
        assert(!test(geometry.vertices@[index as int]));
        index = index + 1;
    }
    proof {
        first_place_is_least(geometry.vertices@, test);
    }
    None
}

fn check_curves(geometry: &TopologyGeometry, shapes: &Vec<CurveShape>, ids: &OrderedSet<u64>) -> (result:
    bool)
    requires
        ids.wf(),
        shapes_fit(geometry.curves@, shapes@),
    ensures
        result == forall|i: int|
            0 <= i < geometry.curves@.len() ==> curve_movable(
                #[trigger] geometry.curves@[i],
                shapes@[i],
                ids@,
            ),
{
    let mut index: usize = 0;
    while index < geometry.curves.len()
        invariant
            index <= geometry.curves@.len(),
            ids.wf(),
            shapes_fit(geometry.curves@, shapes@),
            forall|i: int|
                0 <= i < index ==> curve_movable(
                    #[trigger] geometry.curves@[i],
                    shapes@[i],
                    ids@,
                ),
        decreases geometry.curves@.len() - index,
    {
        assert(shape_fits(geometry.curves@[index as int], shapes@[index as int]));
        if !check_curve(&geometry.curves[index], &shapes[index], ids) {
            assert(!curve_movable(geometry.curves@[index as int], shapes@[index as int], ids@));
            return false;
        }
        index = index + 1;
    }
    true
}

fn control_updates(
    geometry: &TopologyGeometry,
    shapes: &Vec<CurveShape>,
    ids: &OrderedSet<u64>,
    keys: &OrderedSet<ControlKey>,
) -> (result: Vec<TopologyTransformUpdate>)
    requires
        shapes_fit(geometry.curves@, shapes@),
        keys@ == moved_controls(geometry.curves@, shapes@, ids@),
    ensures
        result@ == keys.values@.map_values(
            |key: ControlKey| control_update(geometry.curves@, key),
        ),
{
    let ghost update_of = |key: ControlKey| control_update(geometry.curves@, key);
    let mut updates: Vec<TopologyTransformUpdate> = Vec::new();
    let mut index: usize = 0;
    while index < keys.values.len()
        invariant
            index <= keys.values@.len(),
            shapes_fit(geometry.curves@, shapes@),
            keys@ == moved_controls(geometry.curves@, shapes@, ids@),
            updates@.len() == index,
            forall|i: int|
                0 <= i < index ==> #[trigger] updates@[i] == control_update(
                    geometry.curves@,
                    keys.values@[i],
                ),
        decreases keys.values@.len() - index,
    {
        let key: ControlKey = keys.values[index];
        proof {
            assert(keys@.contains(keys.values@[index as int]));
            moved_controls_exist(geometry.curves@, shapes@, ids@, key);
        }
        if let Some(place) = find_curve(&geometry.curves, key.curve) {
            let point: Point2 = control_at(&geometry.curves[place], key.control);
            updates.push(
                TopologyTransformUpdate::Control {
                    curve: key.curve,
                    control: key.control,
                    point,
                },
            );
        }
        index = index + 1;
    }
    assert(updates@ =~= keys.values@.map_values(update_of));
    updates
}

fn junction_updates(geometry: &TopologyGeometry, points: &Vec<Point2>, ids: &OrderedSet<u64>) -> (result:
    Vec<TopologyTransformUpdate>)
    requires
        ids.wf(),
        joints_sound(geometry.curves@),
        points@.len() == geometry.vertices@.len(),
    ensures
        result@ == vertex_updates(geometry.curves@, ids@, geometry.vertices@, points@),
{
    let mut updates: Vec<TopologyTransformUpdate> = Vec::new();
    let mut index: usize = 0;
    while index < geometry.vertices.len()
        invariant
            index <= geometry.vertices@.len(),
            ids.wf(),
            joints_sound(geometry.curves@),
            points@.len() == geometry.vertices@.len(),
            updates@ == vertex_updates(
                geometry.curves@,
                ids@,
                geometry.vertices@.take(index as int),
                points@.take(index as int),
            ),
        decreases geometry.vertices@.len() - index,
    {
        proof {
            assert(geometry.vertices@.take(index + 1).drop_last() =~= geometry.vertices@.take(
                index as int,
            ));
            assert(points@.take(index + 1).drop_last() =~= points@.take(index as int));
        }
        let vertex: u64 = geometry.vertices[index].id;
        if junction_moves_along(geometry, ids, vertex) {
            updates.push(TopologyTransformUpdate::Vertex { vertex, point: points[index] });
        }
        index = index + 1;
    }
    assert(geometry.vertices@.take(index as int) =~= geometry.vertices@);
    assert(points@.take(index as int) =~= points@);
    updates
}

/// Whether updates are others with every point moved by a map of the plane.
pub open spec fn moved_by<F: Fn(Point2) -> Point2>(
    apply: F,
    before: Seq<TopologyTransformUpdate>,
    after: Seq<TopologyTransformUpdate>,
) -> bool {
    &&& after.len() == before.len()
    &&& forall|i: int|
        0 <= i < before.len() ==> call_ensures(
            apply,
            (before[i].place(),),
            (#[trigger] after[i]).place(),
        ) && after[i] == before[i].moved_to(after[i].place())
}

fn moved<F: Fn(Point2) -> Point2>(updates: &Vec<TopologyTransformUpdate>, apply: &F) -> (result: Vec<
    TopologyTransformUpdate,
>)
    requires
        forall|point: Point2| call_requires(apply, (point,)),
    ensures
        moved_by(*apply, updates@, result@),
{
    let mut after: Vec<TopologyTransformUpdate> = Vec::new();
    let mut index: usize = 0;
    while index < updates.len()
        invariant
            index <= updates@.len(),
            after@.len() == index,
            forall|point: Point2| call_requires(apply, (point,)),
            forall|i: int|
                0 <= i < index ==> call_ensures(
                    apply,
                    (updates@[i].place(),),
                    (#[trigger] after@[i]).place(),
                ) && after@[i] == updates@[i].moved_to(after@[i].place()),
        decreases updates@.len() - index,
    {
        let next: TopologyTransformUpdate = match updates[index] {
            TopologyTransformUpdate::Control { curve, control, point } =>
                TopologyTransformUpdate::Control { curve, control, point: apply(point) },
            TopologyTransformUpdate::Vertex { vertex, point } => TopologyTransformUpdate::Vertex {
                vertex,
                point: apply(point),
            },
        };
        after.push(next);
        index = index + 1;
    }
    after
}

/// Whether this is the plan of a transform that moves points by `apply`.
pub open spec fn plans_transform<F: Fn(Point2) -> Point2>(
    geometry: TopologyGeometry,
    shapes: Seq<CurveShape>,
    points: Seq<Point2>,
    selected: Set<TopologySpanTarget>,
    apply: F,
    result: Result<Vec<TopologyTransformUpdate>, TopologyTransformIssue>,
) -> bool {
    match result {
        Ok(updates) => exists|still: Vec<TopologyTransformUpdate>| #[trigger]
            plans(geometry, shapes, points, selected, Ok(still)) && moved_by(
                apply,
                still@,
                updates@,
            ),
        Err(issue) => plans(geometry, shapes, points, selected, Err(issue)),
    }
}

/// Plans a rigid or uniform transform of the selected spans. `apply` moves a
/// point by it.
pub fn plan_rigid_transform<F: Fn(Point2) -> Point2>(
    geometry: &TopologyGeometry,
    shapes: &Vec<CurveShape>,
    points: &Vec<Point2>,
    selected: &SpanSet,
    transform: RigidTransform,
    apply: F,
) -> (result: Result<Vec<TopologyTransformUpdate>, TopologyTransformIssue>)
    requires
        selected.wf(),
        joints_sound(geometry.curves@),
        shapes_fit(geometry.curves@, shapes@),
        points@.len() == geometry.vertices@.len(),
        forall|point: Point2| call_requires(apply, (point,)),
    ensures
        if !transform.usable() {
            result is Err && result->Err_0 is InvalidTransform
        } else {
            plans_transform(*geometry, shapes@, points@, selected@, apply, result)
        },
{
    if !transform.valid() {
        return Err(TopologyTransformIssue::InvalidTransform);
    }
    match plan_moves(geometry, shapes, points, selected) {
        Err(issue) => Err(issue),
        Ok(still) => {
            let updates: Vec<TopologyTransformUpdate> = moved(&still, &apply);
            assert(plans(*geometry, shapes@, points@, selected@, Ok(still)));
            Ok(updates)
        },
    }
}

pub open spec fn usable_axis_scale(pivot: Point2, scale_x: Scalar, scale_y: Scalar) -> bool {
    &&& pivot.finite_point()
    &&& scale_x.finite()
    &&& scale_y.finite()
    &&& Scalar::zero_num().lt_num(scale_x)
    &&& Scalar::zero_num().lt_num(scale_y)
}

/// Plans independent scaling along the two axes around a pivot, under the rules
/// of rigid transforms.
pub fn plan_axis_scale<F: Fn(Point2) -> Point2>(
    geometry: &TopologyGeometry,
    shapes: &Vec<CurveShape>,
    points: &Vec<Point2>,
    selected: &SpanSet,
    pivot: Point2,
    scale_x: Scalar,
    scale_y: Scalar,
    apply: F,
) -> (result: Result<Vec<TopologyTransformUpdate>, TopologyTransformIssue>)
    requires
        selected.wf(),
        joints_sound(geometry.curves@),
        shapes_fit(geometry.curves@, shapes@),
        points@.len() == geometry.vertices@.len(),
        forall|point: Point2| call_requires(apply, (point,)),
    ensures
        if !usable_axis_scale(pivot, scale_x, scale_y) {
            result is Err && result->Err_0 is InvalidTransform
        } else {
            plans_transform(*geometry, shapes@, points@, selected@, apply, result)
        },
{
    if !pivot.finite() || !scale_x.is_finite() || !scale_y.is_finite() || !Scalar::zero().less(
        scale_x,
    ) || !Scalar::zero().less(scale_y) {
        return Err(TopologyTransformIssue::InvalidTransform);
    }
    match plan_moves(geometry, shapes, points, selected) {
        Err(issue) => Err(issue),
        Ok(still) => {
            let updates: Vec<TopologyTransformUpdate> = moved(&still, &apply);
            assert(plans(*geometry, shapes@, points@, selected@, Ok(still)));
            Ok(updates)
        },
    }
}

/// Once the spans that meet at a junction are all selected, the junction is no
/// longer in the way of a transform, and it moves along.
pub proof fn selecting_incident_spans_completes_the_junction(
    geometry: TopologyGeometry,
    before: TopologySelection,
    after: TopologySelection,
    vertex: u64,
)
    requires
        after.selects(
            before.span_set().union(
                incident(geometry.curves@, vertex).map(
                    |span: u64| TopologySpanTarget::Curve(span),
                ),
            ),
        ),
    ensures
        !partial_junction(geometry.curves@, selected_ids(after.span_set()), vertex),
        incident(geometry.curves@, vertex) != Set::<u64>::empty() ==> junction_moves(
            geometry.curves@,
            selected_ids(after.span_set()),
            vertex,
        ),
{
    let at = incident(geometry.curves@, vertex);
    let as_target = |span: u64| TopologySpanTarget::Curve(span);
    let union = before.span_set().union(at.map(as_target));
    assert forall|id: u64| #[trigger] at.contains(id) implies selected_ids(
        after.span_set(),
    ).contains(id) by {
        assert(as_target(id) == TopologySpanTarget::Curve(id));
        assert(at.map(as_target).contains(TopologySpanTarget::Curve(id)));
        assert(union.contains(TopologySpanTarget::Curve(id)));
    }
}

} // verus!
