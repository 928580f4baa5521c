//! What the viewport shows of a geometry, and what a frame of input means.

use crate::gesture::ViewportModes;
use crate::interaction::{
    click_routed, curve_candidates, opened, routed, span_candidates, ClickRoute, CurveCandidate,
    FrameInput, Opening, SegmentPlace, TouchState,
};
use crate::model::{DomainRect, OuterSide, TopologyCurve, TopologyVertex};
use crate::sampling::{
    all_curve_handles, all_curve_shapes, curve_handles, curve_shapes, junction_handles,
    samples_between, side_shapes, span_samples, CurveSampling, Sample, SampledTopologyHandle,
    SampledTopologySpan, SpanEnds,
};
use crate::scalar::{Point2, Scalar};
use crate::selection::{TopologyHandle, TopologySpanTarget};
use vstd::prelude::*;

verus! {

/// Each side of the domain is shown as the line between its own two corners, and
/// going round, each begins where the one before it ended.
pub proof fn the_sides_of_a_domain_are_shown_round_it(domain: DomainRect)
    ensures
        ({
            let sides = side_shapes(domain);
            let line = |i: int| (sides[i].samples[0].point, sides[i].samples[1].point);
            &&& sides.len() == 4
            &&& forall|i: int|
                0 <= i < 4 ==> (#[trigger] sides[i]).samples.len() == 2 && sides[i].curve is None
            &&& sides[0].target == TopologySpanTarget::Outer(OuterSide::Bottom)
            &&& sides[1].target == TopologySpanTarget::Outer(OuterSide::Right)
            &&& sides[2].target == TopologySpanTarget::Outer(OuterSide::Top)
            &&& sides[3].target == TopologySpanTarget::Outer(OuterSide::Left)
            &&& line(0).0.y == domain.min_y && line(0).1.y == domain.min_y
            &&& line(1).0.x == domain.max_x && line(1).1.x == domain.max_x
            &&& line(2).0.y == domain.max_y && line(2).1.y == domain.max_y
            &&& line(3).0.x == domain.min_x && line(3).1.x == domain.min_x
            &&& line(0).1 == line(1).0 && line(1).1 == line(2).0
            &&& line(2).1 == line(3).0 && line(3).1 == line(0).0
        }),
{
}

/// The samples of a span are all those of its curve from its start to its end, and
/// besides them at most its own two ends.
pub proof fn a_span_shows_all_samples_within_it(
    samples: Seq<Sample>,
    start: Scalar,
    end: Scalar,
    ends: SpanEnds,
    sample: Sample,
)
    requires
        start.le_num(end),
    ensures
        samples.contains(sample) && start.le_num(sample.t) && sample.t.le_num(end)
            ==> span_samples(samples, start, end, ends).contains(sample),
        span_samples(samples, start, end, ends).contains(sample) ==> {
            ||| samples.contains(sample) && start.le_num(sample.t) && sample.t.le_num(end)
            ||| sample == (Sample { t: start, point: ends.start })
            ||| sample == (Sample { t: end, point: ends.end })
        },
{
    samples_within_are_kept(samples, start, end, sample);
    let inside = samples_between(samples, start, end);
    let begun = crate::sampling::with_start(inside, start, ends.start);
    let all = span_samples(samples, start, end, ends);
    if inside.contains(sample) {
        let i = inside.index_of(sample);
        if begun.len() > inside.len() {
            assert(begun[i + 1] == sample);
        } else {
            assert(begun[i] == sample);
        }
        assert(begun.contains(sample));
        let j = begun.index_of(sample);
        assert(all[j] == sample);
    }
    if all.contains(sample) {
        let j = all.index_of(sample);
        if j < begun.len() {
            assert(begun[j] == sample);
            if begun.len() > inside.len() {
                if j > 0 {
                    assert(inside[j - 1] == sample);
                }
            } else {
                assert(inside[j] == sample);
            }
        }
    }
}

proof fn samples_within_are_kept(
    samples: Seq<Sample>,
    start: Scalar,
    end: Scalar,
    sample: Sample,
)
    ensures
        samples_between(samples, start, end).contains(sample) <==> samples.contains(sample)
            && start.le_num(sample.t) && sample.t.le_num(end),
    decreases samples.len(),
{
    if samples.len() > 0 {
        let front = samples.drop_last();
        let last = samples.last();
        samples_within_are_kept(front, start, end, sample);
        let kept = samples_between(front, start, end);
        let all = samples_between(samples, start, end);
        if samples.contains(sample) {
            let i = samples.index_of(sample);
            if i < front.len() {
                assert(front[i] == sample);
            }
        }
        if front.contains(sample) {
            let i = front.index_of(sample);
            assert(samples[i] == sample);
        }
        assert(samples[samples.len() - 1] == last);
        if kept.contains(sample) {
            let i = kept.index_of(sample);
            assert(all[i] == sample);
        }
        if all.contains(sample) {
            let i = all.index_of(sample);
            if i < kept.len() {
                assert(kept[i] == sample);
            }
        }
        if all.len() > kept.len() {
            assert(all[kept.len() as int] == last);
        }
    }
}

/// Each span of each curve is shown as itself, over its own interval.
pub proof fn every_span_is_shown_as_itself(
    curves: Seq<TopologyCurve>,
    samplings: Seq<CurveSampling>,
    count: nat,
    c: int,
    s: int,
) -> (i: int)
    requires
        0 <= c < count <= curves.len(),
        0 <= s < curves[c].spans@.len(),
    ensures
        0 <= i < all_curve_shapes(curves, samplings, count).len(),
        ({
            let shown = all_curve_shapes(curves, samplings, count)[i];
            &&& shown.target == TopologySpanTarget::Curve(curves[c].spans@[s].id)
            &&& shown.curve == Some(curves[c].id)
            &&& shown.samples == span_samples(
                samplings[c].samples->Ok_0@,
                curves[c].spline.bounds()[s].0,
                curves[c].spline.bounds()[s].1,
                samplings[c].ends@[s],
            )
        }),
    decreases count,
{
    let earlier = all_curve_shapes(curves, samplings, (count - 1) as nat);
    if c < count - 1 {
        let i = every_span_is_shown_as_itself(curves, samplings, (count - 1) as nat, c, s);
        assert(all_curve_shapes(curves, samplings, count)[i] == earlier[i]);
        i
    } else {
        let last = curve_shapes(
            curves[c],
            samplings[c].samples->Ok_0@,
            samplings[c].ends@,
            curves[c].spans@.len(),
        );
        assert(all_curve_shapes(curves, samplings, count)[earlier.len() + s] == last[s]);
        earlier.len() + s
    }
}

/// Each control point has a handle, at the point itself and under its own name.
pub proof fn every_control_has_a_handle(curves: Seq<TopologyCurve>, c: int, control: int)
    requires
        0 <= c < curves.len(),
        0 <= control < curves[c].spline.control_points().len(),
    ensures
        all_curve_handles(curves, curves.len()).contains(
            SampledTopologyHandle {
                handle: TopologyHandle::Control {
                    curve: curves[c].id,
                    control: control as usize,
                },
                point: curves[c].spline.control_points()[control],
            },
        ),
{
    a_control_is_listed(curves, curves.len(), c, control);
}

proof fn a_control_is_listed(curves: Seq<TopologyCurve>, count: nat, c: int, control: int)
    requires
        0 <= c < count <= curves.len(),
        0 <= control < curves[c].spline.control_points().len(),
    ensures
        all_curve_handles(curves, count).contains(curve_handles(curves[c])[control]),
    decreases count,
{
    let earlier = all_curve_handles(curves, (count - 1) as nat);
    let wanted = curve_handles(curves[c])[control];
    if c < count - 1 {
        a_control_is_listed(curves, (count - 1) as nat, c, control);
        let i = earlier.index_of(wanted);
        assert(all_curve_handles(curves, count)[i] == wanted);
    } else {
        assert(all_curve_handles(curves, count)[earlier.len() + control] == wanted);
    }
}

/// Each junction that has a place has a handle there, and only those have.
pub proof fn every_placed_junction_has_a_handle(
    vertices: Seq<TopologyVertex>,
    points: Seq<Option<Point2>>,
    count: nat,
    v: int,
)
    requires
        vertices.len() == points.len(),
        0 <= v < count <= vertices.len(),
    ensures
        points[v] matches Some(point) ==> junction_handles(vertices, points, count).contains(
            SampledTopologyHandle { handle: TopologyHandle::Junction(vertices[v].id), point },
        ),
        forall|i: int|
            0 <= i < junction_handles(vertices, points, count).len() ==> (
            #[trigger] junction_handles(vertices, points, count)[i]).handle is Junction,
    decreases count,
{
    let earlier = junction_handles(vertices, points, (count - 1) as nat);
    let all = junction_handles(vertices, points, count);
    if count > 1 {
        every_placed_junction_has_a_handle(
            vertices,
            points,
            (count - 1) as nat,
            if v < count - 1 {
                v
            } else {
                0
            },
        );
    }
    assert forall|i: int| 0 <= i < all.len() implies (#[trigger] all[i]).handle is Junction by {
        if i < earlier.len() {
            assert(all[i] == earlier[i]);
        }
    }
    if let Some(point) = points[v] {
        let wanted = SampledTopologyHandle {
            handle: TopologyHandle::Junction(vertices[v].id),
            point,
        };
        if v < count - 1 {
            let i = earlier.index_of(wanted);
            assert(all[i] == wanted);
        } else {
            assert(all[earlier.len() as int] == wanted);
        }
    }
}

/// A place on a curve that a double click finds is a place of that very curve, and
/// every place of a curve is a candidate; the sides of the domain are none.
pub proof fn candidates_are_places_on_curves(
    spans: Seq<SampledTopologySpan>,
    places: Seq<Vec<SegmentPlace>>,
    candidate: CurveCandidate,
)
    requires
        spans.len() == places.len(),
    ensures
        curve_candidates(spans, places).contains(candidate) <==> exists|i: int, k: int|
            {
                &&& 0 <= i < spans.len()
                &&& 0 <= k < places[i]@.len()
                &&& spans[i].curve == Some(candidate.curve)
                &&& (#[trigger] places[i]@[k]).parameter == candidate.parameter
                &&& places[i]@[k].distance == candidate.distance
            },
    decreases spans.len(),
{
    if spans.len() > 0 {
        let front = spans.drop_last();
        let early = places.drop_last();
        candidates_are_places_on_curves(front, early, candidate);
        let head = curve_candidates(front, early);
        let tail = span_candidates(spans.last().curve, places.last()@);
        let all = curve_candidates(spans, places);
        if all.contains(candidate) {
            let n = all.index_of(candidate);
            if n < head.len() {
                assert(head[n] == candidate);
                assert(head.contains(candidate));
                let (i, k) = choose|i: int, k: int|
                    {
                        &&& 0 <= i < front.len()
                        &&& 0 <= k < early[i]@.len()
                        &&& front[i].curve == Some(candidate.curve)
                        &&& (#[trigger] early[i]@[k]).parameter == candidate.parameter
                        &&& early[i]@[k].distance == candidate.distance
                    };
                assert(places[i]@[k].parameter == candidate.parameter);
            } else {
                let k = n - head.len();
                assert(tail[k] == candidate);
                assert(places[places.len() - 1]@[k].parameter == candidate.parameter);
            }
        }
        if exists|i: int, k: int|
            {
                &&& 0 <= i < spans.len()
                &&& 0 <= k < places[i]@.len()
                &&& spans[i].curve == Some(candidate.curve)
                &&& (#[trigger] places[i]@[k]).parameter == candidate.parameter
                &&& places[i]@[k].distance == candidate.distance
            } {
            let (i, k) = choose|i: int, k: int|
                {
                    &&& 0 <= i < spans.len()
                    &&& 0 <= k < places[i]@.len()
                    &&& spans[i].curve == Some(candidate.curve)
                    &&& (#[trigger] places[i]@[k]).parameter == candidate.parameter
                    &&& places[i]@[k].distance == candidate.distance
                };
            if i < front.len() {
                assert(early[i]@[k].parameter == candidate.parameter);
                assert(front[i].curve == Some(candidate.curve));
                assert(head.contains(candidate));
                let n = head.index_of(candidate);
                assert(all[n] == candidate);
            } else {
                assert(tail[k] == candidate);
                assert(all[head.len() + k] == candidate);
            }
        }
    }
}

/// Two fingers in the viewport navigate, and go on doing so wherever they are; a
/// gesture that they take over is cancelled once. What a finger leaves behind is
/// ignored until it is lifted, and only then is input taken again.
pub proof fn fingers_navigate_or_touch(
    touch: TouchState,
    touching: bool,
    gesture: Option<bool>,
)
    ensures
        ({
            let (opening, after) = opened(touch, touching, gesture);
            let navigates = gesture is Some && (touch.navigation || gesture->0);
            &&& opening is Navigate <==> navigates
            &&& opening matches Opening::Navigate { cancel } ==> cancel == !touch.navigation
            &&& opening is Proceed <==> !navigates && !touch.navigation && !touch.suppress_click
            &&& after.active == touching
            &&& navigates ==> after.navigation
            &&& !navigates && touch.navigation ==> after.navigation == touching
            &&& !navigates && !touch.navigation ==> !after.navigation
            &&& opening is Ignore && !touch.navigation ==> after.suppress_click == touching
            &&& opening is Proceed ==> !after.suppress_click
        }),
{
}

/// Escape cancels unless it is typed, or was typed a frame ago; a question of which
/// region survives takes everything else, and only a click answers it.
pub proof fn escape_cancels_and_questions_wait(modes: ViewportModes, input: FrameInput)
    ensures
        ({
            let route = routed(modes, input);
            let escapes = input.escape && !input.typing && !input.typed_before;
            &&& route is Cancel <==> escapes
            &&& route is PickSurvivor <==> !escapes && modes.merging && input.primary_clicked
                && input.pointer
            &&& route is Wait <==> !escapes && modes.merging && !(input.primary_clicked
                && input.pointer)
            &&& route is DoubleClick <==> !escapes && !modes.merging && input.double_clicked
                && input.pointer
        }),
{
}

/// A click goes to the tool at hand: to the curve being drawn first, then to a
/// pulse, then to a probe, and to the geometry only without a tool. Typing neither
/// takes points back nor finishes a curve.
pub proof fn a_click_goes_to_the_tool_at_hand(modes: ViewportModes, input: FrameInput)
    ensures
        ({
            let route = click_routed(modes, input);
            let pulse = !modes.drawing && modes.pulse && input.clicked;
            let probe = !modes.drawing && !pulse && modes.placing_probe && input.clicked;
            &&& route is Draw <==> modes.drawing
            &&& route matches ClickRoute::Draw { place, undo, finish } ==> {
                &&& place <==> input.primary_clicked && input.pointer
                &&& undo <==> input.backspace && !input.typing
                &&& finish <==> input.enter && !input.typing
            }
            &&& route is PlacePulse <==> pulse && input.pointer
            &&& route is PlaceProbe <==> probe && input.pointer
            &&& route is Ignore <==> (pulse || probe) && !input.pointer
            &&& route is Manipulate <==> !modes.drawing && !pulse && !probe
        }),
{
}

} // verus!
