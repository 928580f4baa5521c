//! What it means to hit something with the pointer and to take it with a
//! marquee, said of the measured distances and of the points themselves.

use crate::gesture::corner_distances;
use crate::hits::{
    crosses, enclosed, handle_distances, marquee_set, nearest, nearest_is_smallest, span_distance,
    span_distances, taken, touched, within, ScreenLine, ScreenPoint, ScreenRect, SideTurns, Turns,
    ViewportTransform,
};
use crate::sampling::{can_sample, SampledTopologyGeometry, SampledTopologySpan};
use crate::scalar::{Point2, Scalar};
use crate::selection::{TopologyHit, TopologySpanTarget};
use vstd::prelude::*;

verus! {

/// The distance of a span is one of its segments' distances, and where all of
/// them are numbers none is smaller.
proof fn a_span_is_as_near_as_its_nearest_segment(segments: Seq<Scalar>)
    ensures
        segments.len() == 0 <==> span_distance(segments) is None,
        span_distance(segments) matches Some(distance) ==> {
            &&& segments.contains(distance)
            &&& forall|k: int|
                0 <= k < segments.len() ==> distance.rank() <= (#[trigger] segments[k]).rank()
        },
{
    let distances = segments.map_values(|distance: Scalar| Some(distance));
    nearest_is_smallest(distances, false);
    if segments.len() > 0 {
        assert(distances[0] is Some);
        let place = nearest(distances, false)->0;
        assert(distances[place] == Some(segments[place]));
        assert forall|k: int| 0 <= k < segments.len() implies segments[place].rank() <= (
        #[trigger] segments[k]).rank() by {
            assert(distances[k] == Some(segments[k]));
        }
    }
}

/// Where handles are in reach, the hit is one of them: it is in reach itself, no
/// handle is nearer, and of handles at the very same distance it is the last
/// listed. The distance that is reported is that handle's own.
pub proof fn the_hit_handle_is_the_nearest(
    geometry: SampledTopologyGeometry,
    handles: Seq<Scalar>,
    segments: Seq<Vec<Scalar>>,
    handle_radius: Scalar,
    span_radius: Scalar,
)
    requires
        handles.len() == geometry.handles@.len(),
        exists|i: int| 0 <= i < handles.len() && (#[trigger] handles[i]).le_num(handle_radius),
    ensures
        exists|place: int|
            {
                &&& 0 <= place < handles.len()
                &&& (#[trigger] handles[place]).le_num(handle_radius)
                &&& forall|i: int|
                    0 <= i < handles.len() ==> !(#[trigger] handles[i]).lt_num(handles[place])
                &&& forall|i: int|
                    place < i < handles.len() ==> (#[trigger] handles[i]) != handles[place]
                &&& geometry.hit(handles, segments, handle_radius, span_radius) == Some(
                    TopologyHit::Handle {
                        handle: geometry.handles@[place].handle,
                        distance: handles[place],
                    },
                )
            },
{
    let distances = handle_distances(handles, handle_radius);
    nearest_is_smallest(distances, true);
    let some = choose|i: int|
        0 <= i < handles.len() && (#[trigger] handles[i]).le_num(handle_radius);
    assert(distances[some] == within(handles[some], handle_radius));
    let place = nearest(distances, true)->0;
    assert(distances[place] == within(handles[place], handle_radius));
    assert forall|i: int| 0 <= i < handles.len() implies !(#[trigger] handles[i]).lt_num(
        handles[place],
    ) by {
        assert(distances[i] == within(handles[i], handle_radius));
    }
    assert forall|i: int| place < i < handles.len() implies (#[trigger] handles[i])
        != handles[place] by {
        assert(distances[i] == within(handles[i], handle_radius));
    }
}

/// Where no handle is in reach, the hit is the nearest span in reach: its
/// distance is that of one of its segments and within the radius, no segment of
/// any span is nearer, and of spans at the very same distance it is the first
/// listed. Spans with a distance that is no number are left out of account.
pub proof fn the_hit_span_is_the_nearest(
    geometry: SampledTopologyGeometry,
    handles: Seq<Scalar>,
    segments: Seq<Vec<Scalar>>,
    handle_radius: Scalar,
    span_radius: Scalar,
)
    requires
        handles.len() == geometry.handles@.len(),
        segments.len() == geometry.spans@.len(),
        forall|i: int| 0 <= i < handles.len() ==> !(#[trigger] handles[i]).le_num(handle_radius),
        forall|i: int, k: int|
            0 <= i < segments.len() && 0 <= k < segments[i]@.len()
                ==> !(#[trigger] segments[i]@[k]).nan(),
    ensures
        match geometry.hit(handles, segments, handle_radius, span_radius) {
            Some(TopologyHit::Span { target, distance }) => exists|place: int|
                {
                    &&& 0 <= place < segments.len()
                    &&& (#[trigger] segments[place])@.contains(distance)
                    &&& geometry.spans@[place].target == target
                    &&& distance.le_num(span_radius)
                    &&& forall|i: int, k: int|
                        0 <= i < segments.len() && 0 <= k < segments[i]@.len() ==> {
                            &&& !(#[trigger] segments[i]@[k]).lt_num(distance)
                            &&& i < place ==> segments[i]@[k] != distance
                        }
                },
            Some(TopologyHit::Handle { .. }) => false,
            None => forall|i: int, k: int|
                0 <= i < segments.len() && 0 <= k < segments[i]@.len()
                    ==> !(#[trigger] segments[i]@[k]).le_num(span_radius),
        },
{
    let none = handle_distances(handles, handle_radius);
    nearest_is_smallest(none, true);
    assert forall|i: int| 0 <= i < none.len() implies #[trigger] none[i] is None by {
        assert(!handles[i].le_num(handle_radius));
    }
    let distances = span_distances(segments, span_radius);
    nearest_is_smallest(distances, false);
    assert forall|i: int, k: int| 0 <= i < segments.len() && 0 <= k < segments[i]@.len() implies {
        let nearest = span_distance(segments[i]@);
        &&& nearest is Some
        &&& !(#[trigger] segments[i]@[k]).lt_num(nearest->0)
        &&& nearest->0.rank() <= segments[i]@[k].rank()
        &&& !nearest->0.nan()
        &&& distances[i] == within(nearest->0, span_radius)
    } by {
        a_span_is_as_near_as_its_nearest_segment(segments[i]@);
        let at = choose|at: int|
            0 <= at < segments[i]@.len() && segments[i]@[at] == span_distance(segments[i]@)->0;
        assert(!segments[i]@[at].nan());
    }
    match nearest(distances, false) {
        Some(place) => {
            a_span_is_as_near_as_its_nearest_segment(segments[place]@);
            let distance = span_distance(segments[place]@)->0;
            assert(distances[place] == within(distance, span_radius));
            assert forall|i: int, k: int|
                0 <= i < segments.len() && 0 <= k < segments[i]@.len() implies {
                &&& !(#[trigger] segments[i]@[k]).lt_num(distance)
                &&& i < place ==> segments[i]@[k] != distance
            } by {
                let other = span_distance(segments[i]@)->0;
                assert(distances[i] == within(other, span_radius));
            }
            assert(segments[place]@.contains(distance));
        },
        None => {
            assert forall|i: int, k: int|
                0 <= i < segments.len() && 0 <= k < segments[i]@.len() implies !(
            #[trigger] segments[i]@[k]).le_num(span_radius) by {
                assert(distances[i] is None);
            }
        },
    }
}

/// Twice the signed area of a triangle.
pub open spec fn turn(ax: int, ay: int, bx: int, by: int, cx: int, cy: int) -> int {
    (bx - ax) * (cy - ay) - (by - ay) * (cx - ax)
}

/// Coordinates measured in some unit: a whole number for each, in their order.
pub open spec fn measures(at: spec_fn(Scalar) -> int) -> bool {
    forall|p: Scalar, q: Scalar|
        !p.nan() && !q.nan() ==> (#[trigger] p.le_num(q) <==> at(p) <= at(q))
}

/// A point by its measured coordinates.
pub open spec fn measured(at: spec_fn(Scalar) -> int, point: ScreenPoint) -> (int, int) {
    (at(point.x), at(point.y))
}

/// Whether the products of turns of two segments, one from `a` to `b` and one
/// from `c` to `d`, have the signs that the coordinates give.
pub open spec fn tells_turns(
    a: (int, int),
    b: (int, int),
    c: (int, int),
    d: (int, int),
    turns: Turns,
) -> bool {
    &&& turns.of_first.le_num(Scalar::zero_num()) <==> turn(a.0, a.1, b.0, b.1, c.0, c.1) * turn(
        a.0,
        a.1,
        b.0,
        b.1,
        d.0,
        d.1,
    ) <= 0
    &&& turns.of_second.le_num(Scalar::zero_num()) <==> turn(c.0, c.1, d.0, d.1, a.0, a.1) * turn(
        c.0,
        c.1,
        d.0,
        d.1,
        b.0,
        b.1,
    ) <= 0
}

/// Whether the turns of a segment about the sides of a box are those that the
/// coordinates give.
pub open spec fn tells_sides(
    a: (int, int),
    b: (int, int),
    low: (int, int),
    high: (int, int),
    turns: SideTurns,
) -> bool {
    &&& tells_turns(a, b, low, (high.0, low.1), turns.bottom)
    &&& tells_turns(a, b, (high.0, low.1), high, turns.right)
    &&& tells_turns(a, b, high, (low.0, high.1), turns.top)
    &&& tells_turns(a, b, (low.0, high.1), low, turns.left)
}

/// Whether a point of a segment, `step` of `steps` on the way from its first end
/// to its second, lies in a box.
pub open spec fn reaches_in(
    from: (int, int),
    to: (int, int),
    low: (int, int),
    high: (int, int),
    step: int,
    steps: int,
) -> bool {
    &&& 0 <= step <= steps
    &&& 0 < steps
    &&& low.0 * steps <= from.0 * steps + (to.0 - from.0) * step <= high.0 * steps
    &&& low.1 * steps <= from.1 * steps + (to.1 - from.1) * step <= high.1 * steps
}

/// Whether some point of a segment lies in a box.
pub open spec fn has_point_in(
    from: (int, int),
    to: (int, int),
    low: (int, int),
    high: (int, int),
) -> bool {
    exists|step: int, steps: int| reaches_in(from, to, low, high, step, steps)
}

/// A segment that rises to the right and starts outside a box, but reaches it,
/// enters through the left or the lower side.
proof fn a_rising_segment_enters(
    ax: int,
    ay: int,
    bx: int,
    by: int,
    x0: int,
    x1: int,
    y0: int,
    y1: int,
    step: int,
    steps: int,
)
    requires
        ax <= bx,
        ay <= by,
        reaches_in((ax, ay), (bx, by), (x0, y0), (x1, y1), step, steps),
        !(x0 <= ax <= x1 && y0 <= ay <= y1),
    ensures
        ({
            ||| ax < x0 <= bx && turn(ax, ay, bx, by, x0, y0) <= 0 <= turn(ax, ay, bx, by, x0, y1)
            ||| ay < y0 <= by && turn(ax, ay, bx, by, x1, y0) <= 0 <= turn(ax, ay, bx, by, x0, y0)
        }),
{
    let dx = bx - ax;
    let dy = by - ay;
    assert(0 <= dx * step <= dx * steps) by (nonlinear_arith)
        requires
            0 <= dx,
            0 <= step <= steps,
    ;
    assert(0 <= dy * step <= dy * steps) by (nonlinear_arith)
        requires
            0 <= dy,
            0 <= step <= steps,
    ;
    assert(ax <= x1 && x0 <= bx) by (nonlinear_arith)
        requires
            0 < steps,
            0 <= dx * step <= dx * steps,
            dx == bx - ax,
            x0 * steps <= ax * steps + dx * step <= x1 * steps,
    ;
    assert(ay <= y1 && y0 <= by) by (nonlinear_arith)
        requires
            0 < steps,
            0 <= dy * step <= dy * steps,
            dy == by - ay,
            y0 * steps <= ay * steps + dy * step <= y1 * steps,
    ;
    let f = dx * (y0 - ay) - dy * (x0 - ax);
    assert(dx * (y1 - ay) - dy * (x0 - ax) >= 0) by (nonlinear_arith)
        requires
            0 < steps,
            0 <= dx,
            0 <= dy,
            x0 * steps <= ax * steps + dx * step,
            ay * steps + dy * step <= y1 * steps,
    {
        assert(dx * ((y1 - ay) * steps) >= dx * (dy * step)) by (nonlinear_arith)
            requires
                0 <= dx,
                ay * steps + dy * step <= y1 * steps,
        ;
        assert(dy * ((x0 - ax) * steps) <= dy * (dx * step)) by (nonlinear_arith)
            requires
                0 <= dy,
                x0 * steps <= ax * steps + dx * step,
        ;
        assert((dx * (y1 - ay) - dy * (x0 - ax)) * steps >= 0) by (nonlinear_arith)
            requires
                dx * ((y1 - ay) * steps) >= dx * (dy * step),
                dy * ((x0 - ax) * steps) <= dy * (dx * step),
        ;
    }
    assert(dx * (y0 - ay) - dy * (x1 - ax) <= 0) by (nonlinear_arith)
        requires
            0 < steps,
            0 <= dx,
            0 <= dy,
            y0 * steps <= ay * steps + dy * step,
            ax * steps + dx * step <= x1 * steps,
    {
        assert(dy * ((x1 - ax) * steps) >= dy * (dx * step)) by (nonlinear_arith)
            requires
                0 <= dy,
                ax * steps + dx * step <= x1 * steps,
        ;
        assert(dx * ((y0 - ay) * steps) <= dx * (dy * step)) by (nonlinear_arith)
            requires
                0 <= dx,
                y0 * steps <= ay * steps + dy * step,
        ;
        assert((dx * (y0 - ay) - dy * (x1 - ax)) * steps <= 0) by (nonlinear_arith)
            requires
                dy * ((x1 - ax) * steps) >= dy * (dx * step),
                dx * ((y0 - ay) * steps) <= dx * (dy * step),
        ;
    }
    if ay >= y0 {
        assert(f <= 0) by (nonlinear_arith)
            requires
                f == dx * (y0 - ay) - dy * (x0 - ax),
                0 <= dx,
                0 <= dy,
                ay >= y0,
                ax < x0,
        ;
    }
    if ax >= x0 {
        assert(f >= 0) by (nonlinear_arith)
            requires
                f == dx * (y0 - ay) - dy * (x0 - ax),
                0 <= dx,
                0 <= dy,
                ax >= x0,
                ay < y0,
        ;
    }
}

spec fn least(p: int, q: int) -> int {
    if p <= q {
        p
    } else {
        q
    }
}

spec fn most(p: int, q: int) -> int {
    if p <= q {
        q
    } else {
        p
    }
}

/// The crossing test on measured coordinates.
spec fn meeting(
    ax: int,
    ay: int,
    bx: int,
    by: int,
    cx: int,
    cy: int,
    dx: int,
    dy: int,
) -> bool {
    &&& least(ax, bx) <= most(cx, dx)
    &&& least(cx, dx) <= most(ax, bx)
    &&& least(ay, by) <= most(cy, dy)
    &&& least(cy, dy) <= most(ay, by)
    &&& turn(ax, ay, bx, by, cx, cy) * turn(ax, ay, bx, by, dx, dy) <= 0
    &&& turn(cx, cy, dx, dy, ax, ay) * turn(cx, cy, dx, dy, bx, by) <= 0
}

proof fn turns_flip(ax: int, ay: int, bx: int, by: int, cx: int, cy: int)
    ensures
        turn(-ax, ay, -bx, by, -cx, cy) == -turn(ax, ay, bx, by, cx, cy),
        turn(ax, -ay, bx, -by, cx, -cy) == -turn(ax, ay, bx, by, cx, cy),
        turn(-ax, -ay, -bx, -by, -cx, -cy) == turn(ax, ay, bx, by, cx, cy),
        turn(ay, ax, by, bx, cy, cx) == -turn(ax, ay, bx, by, cx, cy),
{
    let (dx, dy, ex, ey) = (bx - ax, by - ay, cx - ax, cy - ay);
    assert((-dx) * ey - dy * (-ex) == -(dx * ey - dy * ex)) by (nonlinear_arith);
    assert(dx * (-ey) - (-dy) * ex == -(dx * ey - dy * ex)) by (nonlinear_arith);
    assert((-dx) * (-ey) - (-dy) * (-ex) == dx * ey - dy * ex) by (nonlinear_arith);
    assert(dy * ex - dx * ey == -(dx * ey - dy * ex)) by (nonlinear_arith);
}

proof fn opposite_signs(p: int, q: int)
    ensures
        p <= 0 <= q || q <= 0 <= p <==> p * q <= 0,
        (-p) * (-q) == p * q,
{
    assert((p <= 0 <= q || q <= 0 <= p) == (p * q <= 0)) by (nonlinear_arith);
    assert((-p) * (-q) == p * q) by (nonlinear_arith);
}

/// Seen with the axes exchanged, segments meet as before.
proof fn meeting_is_the_same_across(
    ax: int,
    ay: int,
    bx: int,
    by: int,
    cx: int,
    cy: int,
    dx: int,
    dy: int,
)
    ensures
        meeting(ay, ax, by, bx, cy, cx, dy, dx) == meeting(ax, ay, bx, by, cx, cy, dx, dy),
        meeting(ax, ay, bx, by, dx, dy, cx, cy) == meeting(ax, ay, bx, by, cx, cy, dx, dy),
{
    turns_flip(ax, ay, bx, by, cx, cy);
    turns_flip(ax, ay, bx, by, dx, dy);
    turns_flip(cx, cy, dx, dy, ax, ay);
    turns_flip(cx, cy, dx, dy, bx, by);
    opposite_signs(turn(ax, ay, bx, by, cx, cy), turn(ax, ay, bx, by, dx, dy));
    opposite_signs(turn(cx, cy, dx, dy, ax, ay), turn(cx, cy, dx, dy, bx, by));
    opposite_signs(turn(ax, ay, bx, by, dx, dy), turn(ax, ay, bx, by, cx, cy));
    opposite_signs(turn(dx, dy, cx, cy, ax, ay), turn(dx, dy, cx, cy, bx, by));
    let (ex, ey) = (dx - cx, dy - cy);
    assert forall|x: int, y: int| #[trigger] turn(dx, dy, cx, cy, x, y) == -turn(
        cx,
        cy,
        dx,
        dy,
        x,
        y,
    ) by {
        assert((-ex) * ((y - cy) - ey) - (-ey) * ((x - cx) - ex) == -(ex * (y - cy) - ey * (x - cx)))
            by (nonlinear_arith);
    }
}

/// A segment from one side of an upright one to the other, between its ends,
/// meets it.
proof fn meets_upright(ax: int, ay: int, bx: int, by: int, x: int, cy: int, dy: int)
    requires
        ax <= x <= bx || bx <= x <= ax,
        least(ay, by) <= most(cy, dy),
        least(cy, dy) <= most(ay, by),
        turn(ax, ay, bx, by, x, cy) <= 0 <= turn(ax, ay, bx, by, x, dy) || turn(
            ax,
            ay,
            bx,
            by,
            x,
            dy,
        ) <= 0 <= turn(ax, ay, bx, by, x, cy),
    ensures
        meeting(ax, ay, bx, by, x, cy, x, dy),
{
    opposite_signs(turn(ax, ay, bx, by, x, cy), turn(ax, ay, bx, by, x, dy));
    let h = dy - cy;
    let (p, q) = (ax - x, bx - x);
    assert(turn(x, cy, x, dy, ax, ay) == -(h * p));
    assert(turn(x, cy, x, dy, bx, by) == -(h * q));
    opposite_signs(p, q);
    assert((-(h * p)) * (-(h * q)) <= 0) by (nonlinear_arith)
        requires
            p * q <= 0,
    {
        assert((-(h * p)) * (-(h * q)) == (h * h) * (p * q)) by (nonlinear_arith);
        assert(h * h >= 0) by (nonlinear_arith);
    }
}

/// A segment that reaches a box overlaps it on an axis.
proof fn reaching_overlaps(a: int, b: int, low: int, high: int, step: int, steps: int)
    requires
        0 <= step <= steps,
        0 < steps,
        low * steps <= a * steps + (b - a) * step <= high * steps,
    ensures
        low <= high,
        least(a, b) <= high,
        low <= most(a, b),
{
    let d = b - a;
    assert(low <= high) by (nonlinear_arith)
        requires
            low * steps <= high * steps,
            0 < steps,
    ;
    if d >= 0 {
        assert(a <= high && low <= b) by (nonlinear_arith)
            requires
                0 <= step <= steps,
                0 < steps,
                d == b - a,
                d >= 0,
                low * steps <= a * steps + d * step <= high * steps,
        {
            assert(0 <= d * step <= d * steps) by (nonlinear_arith)
                requires
                    d >= 0,
                    0 <= step <= steps,
            ;
        }
    } else {
        assert(b <= high && low <= a) by (nonlinear_arith)
            requires
                0 <= step <= steps,
                0 < steps,
                d == b - a,
                d < 0,
                low * steps <= a * steps + d * step <= high * steps,
        {
            assert(d * steps <= d * step <= 0) by (nonlinear_arith)
                requires
                    d < 0,
                    0 <= step <= steps,
            ;
        }
    }
}

proof fn reaching_flips(
    ax: int,
    ay: int,
    bx: int,
    by: int,
    x0: int,
    x1: int,
    y0: int,
    y1: int,
    step: int,
    steps: int,
)
    requires
        reaches_in((ax, ay), (bx, by), (x0, y0), (x1, y1), step, steps),
    ensures
        reaches_in((-ax, ay), (-bx, by), (-x1, y0), (-x0, y1), step, steps),
        reaches_in((ax, -ay), (bx, -by), (x0, -y1), (x1, -y0), step, steps),
        reaches_in((-ax, -ay), (-bx, -by), (-x1, -y1), (-x0, -y0), step, steps),
{
    assert((-x1) * steps <= (-ax) * steps + (ax - bx) * step <= (-x0) * steps)
        by (nonlinear_arith)
        requires
            x0 * steps <= ax * steps + (bx - ax) * step <= x1 * steps,
    ;
    assert((-y1) * steps <= (-ay) * steps + (ay - by) * step <= (-y0) * steps)
        by (nonlinear_arith)
        requires
            y0 * steps <= ay * steps + (by - ay) * step <= y1 * steps,
    ;
}

/// The sides of a box, one of which a segment meets.
spec fn meets_a_side(
    ax: int,
    ay: int,
    bx: int,
    by: int,
    x0: int,
    x1: int,
    y0: int,
    y1: int,
) -> bool {
    ||| meeting(ax, ay, bx, by, x0, y0, x1, y0)
    ||| meeting(ax, ay, bx, by, x1, y0, x1, y1)
    ||| meeting(ax, ay, bx, by, x1, y1, x0, y1)
    ||| meeting(ax, ay, bx, by, x0, y1, x0, y0)
}

/// A segment that starts outside a box and reaches it meets one of its sides.
proof fn reaching_meets_a_side(
    ax: int,
    ay: int,
    bx: int,
    by: int,
    x0: int,
    x1: int,
    y0: int,
    y1: int,
    step: int,
    steps: int,
)
    requires
        reaches_in((ax, ay), (bx, by), (x0, y0), (x1, y1), step, steps),
        !(x0 <= ax <= x1 && y0 <= ay <= y1),
    ensures
        meets_a_side(ax, ay, bx, by, x0, x1, y0, y1),
{
    reaching_overlaps(ax, bx, x0, x1, step, steps);
    reaching_overlaps(ay, by, y0, y1, step, steps);
    reaching_flips(ax, ay, bx, by, x0, x1, y0, y1, step, steps);
    turns_flip(ax, ay, bx, by, x0, y0);
    turns_flip(ax, ay, bx, by, x0, y1);
    turns_flip(ax, ay, bx, by, x1, y0);
    turns_flip(ax, ay, bx, by, x1, y1);
    meeting_is_the_same_across(ax, ay, bx, by, x0, y0, x1, y0);
    meeting_is_the_same_across(ax, ay, bx, by, x1, y1, x0, y1);
    if ax <= bx && ay <= by {
        a_rising_segment_enters(ax, ay, bx, by, x0, x1, y0, y1, step, steps);
        if ax < x0 <= bx && turn(ax, ay, bx, by, x0, y0) <= 0 <= turn(ax, ay, bx, by, x0, y1) {
            meets_upright(ax, ay, bx, by, x0, y1, y0);
        } else {
            meets_upright(ay, ax, by, bx, y0, x0, x1);
        }
    } else if ay <= by {
        a_rising_segment_enters(-ax, ay, -bx, by, -x1, -x0, y0, y1, step, steps);
        if bx <= x1 < ax && turn(ax, ay, bx, by, x1, y1) <= 0 <= turn(ax, ay, bx, by, x1, y0) {
            meets_upright(ax, ay, bx, by, x1, y0, y1);
        } else {
            meets_upright(ay, ax, by, bx, y0, x0, x1);
        }
    } else if ax <= bx {
        a_rising_segment_enters(ax, -ay, bx, -by, x0, x1, -y1, -y0, step, steps);
        if ax < x0 <= bx && turn(ax, ay, bx, by, x0, y0) <= 0 <= turn(ax, ay, bx, by, x0, y1) {
            meets_upright(ax, ay, bx, by, x0, y1, y0);
        } else {
            meets_upright(ay, ax, by, bx, y1, x1, x0);
        }
    } else {
        a_rising_segment_enters(-ax, -ay, -bx, -by, -x1, -x0, -y1, -y0, step, steps);
        if bx <= x1 < ax && turn(ax, ay, bx, by, x1, y1) <= 0 <= turn(ax, ay, bx, by, x1, y0) {
            meets_upright(ax, ay, bx, by, x1, y0, y1);
        } else {
            meets_upright(ay, ax, by, bx, y1, x1, x0);
        }
    }
}

/// A segment that meets an upright side of a box has a point in the box.
proof fn meeting_upright_reaches(
    ax: int,
    ay: int,
    bx: int,
    by: int,
    x: int,
    x0: int,
    x1: int,
    y0: int,
    y1: int,
) -> (found: (int, int))
    requires
        x0 <= x <= x1,
        y0 <= y1,
        meeting(ax, ay, bx, by, x, y0, x, y1),
    ensures
        reaches_in((ax, ay), (bx, by), (x0, y0), (x1, y1), found.0, found.1),
{
    let (dx, dy) = (bx - ax, by - ay);
    opposite_signs(turn(ax, ay, bx, by, x, y0), turn(ax, ay, bx, by, x, y1));
    if dx > 0 {
        let step = x - ax;
        assert(dx * (y0 - ay) - dy * step <= 0 <= dx * (y1 - ay) - dy * step)
            by (nonlinear_arith)
            requires
                dx > 0,
                y0 <= y1,
                (dx * (y0 - ay) - dy * step <= 0 <= dx * (y1 - ay) - dy * step) || (dx * (y1 - ay)
                    - dy * step <= 0 <= dx * (y0 - ay) - dy * step),
        {
            assert(dx * (y0 - ay) <= dx * (y1 - ay)) by (nonlinear_arith)
                requires
                    dx > 0,
                    y0 <= y1,
            ;
        }
        assert(ax * dx + dx * step == x * dx) by (nonlinear_arith)
            requires
                step == x - ax,
        ;
        assert(x0 * dx <= x * dx <= x1 * dx) by (nonlinear_arith)
            requires
                x0 <= x <= x1,
                dx > 0,
        ;
        assert(y0 * dx <= ay * dx + dy * step <= y1 * dx) by (nonlinear_arith)
            requires
                dx * (y0 - ay) - dy * step <= 0 <= dx * (y1 - ay) - dy * step,
        ;
        (step, dx)
    } else if dx < 0 {
        let steps = -dx;
        let step = ax - x;
        assert(steps * (y0 - ay) - dy * step <= 0 <= steps * (y1 - ay) - dy * step)
            by (nonlinear_arith)
            requires
                steps == -dx,
                steps > 0,
                y0 <= y1,
                (dx * (y0 - ay) - dy * (-step) <= 0 <= dx * (y1 - ay) - dy * (-step)) || (dx * (y1
                    - ay) - dy * (-step) <= 0 <= dx * (y0 - ay) - dy * (-step)),
        {
            assert(steps * (y0 - ay) <= steps * (y1 - ay)) by (nonlinear_arith)
                requires
                    steps > 0,
                    y0 <= y1,
            ;
            assert(dx * (y0 - ay) - dy * (-step) == -(steps * (y0 - ay) - dy * step))
                by (nonlinear_arith)
                requires
                    steps == -dx,
            ;
            assert(dx * (y1 - ay) - dy * (-step) == -(steps * (y1 - ay) - dy * step))
                by (nonlinear_arith)
                requires
                    steps == -dx,
            ;
        }
        assert(ax * steps + dx * step == x * steps) by (nonlinear_arith)
            requires
                step == ax - x,
                steps == -dx,
        ;
        assert(x0 * steps <= x * steps <= x1 * steps) by (nonlinear_arith)
            requires
                x0 <= x <= x1,
                steps > 0,
        ;
        assert(y0 * steps <= ay * steps + dy * step <= y1 * steps) by (nonlinear_arith)
            requires
                steps * (y0 - ay) - dy * step <= 0 <= steps * (y1 - ay) - dy * step,
        ;
        (step, steps)
    } else if y0 <= ay <= y1 {
        (0, 1)
    } else if y0 <= by <= y1 {
        (1, 1)
    } else if dy > 0 {
        let step = y0 - ay;
        assert(ay * dy + dy * step == y0 * dy) by (nonlinear_arith)
            requires
                step == y0 - ay,
        ;
        assert(y0 * dy <= y1 * dy && x0 * dy <= ax * dy + 0 * step <= x1 * dy) by (nonlinear_arith)
            requires
                y0 <= y1,
                x0 <= ax <= x1,
                dy > 0,
        ;
        (step, dy)
    } else {
        let steps = -dy;
        let step = ay - y1;
        assert(ay * steps + dy * step == y1 * steps) by (nonlinear_arith)
            requires
                step == ay - y1,
                steps == -dy,
        ;
        assert(y0 * steps <= y1 * steps && x0 * steps <= ax * steps + 0 * step <= x1 * steps)
            by (nonlinear_arith)
            requires
                y0 <= y1,
                x0 <= ax <= x1,
                steps > 0,
        ;
        (step, steps)
    }
}

/// A segment that meets a side of a box has a point in the box.
proof fn meeting_a_side_reaches(
    ax: int,
    ay: int,
    bx: int,
    by: int,
    x0: int,
    x1: int,
    y0: int,
    y1: int,
) -> (found: (int, int))
    requires
        x0 <= x1,
        y0 <= y1,
        meets_a_side(ax, ay, bx, by, x0, x1, y0, y1),
    ensures
        reaches_in((ax, ay), (bx, by), (x0, y0), (x1, y1), found.0, found.1),
{
    meeting_is_the_same_across(ax, ay, bx, by, x0, y0, x1, y0);
    meeting_is_the_same_across(ax, ay, bx, by, x1, y1, x0, y1);
    meeting_is_the_same_across(ax, ay, bx, by, x0, y1, x1, y1);
    meeting_is_the_same_across(ax, ay, bx, by, x0, y1, x0, y0);
    if meeting(ax, ay, bx, by, x1, y0, x1, y1) {
        meeting_upright_reaches(ax, ay, bx, by, x1, x0, x1, y0, y1)
    } else if meeting(ax, ay, bx, by, x0, y1, x0, y0) {
        meeting_upright_reaches(ax, ay, bx, by, x0, x0, x1, y0, y1)
    } else if meeting(ax, ay, bx, by, x0, y0, x1, y0) {
        meeting_upright_reaches(ay, ax, by, bx, y0, y0, y1, x0, x1)
    } else {
        meeting_upright_reaches(ay, ax, by, bx, y1, y0, y1, x0, x1)
    }
}

/// Whether no coordinate of a point is a NaN.
pub open spec fn placed(point: ScreenPoint) -> bool {
    !point.x.nan() && !point.y.nan()
}

proof fn crossing_is_meeting(
    at: spec_fn(Scalar) -> int,
    a: ScreenPoint,
    b: ScreenPoint,
    c: ScreenPoint,
    d: ScreenPoint,
    turns: Turns,
)
    requires
        measures(at),
        placed(a),
        placed(b),
        placed(c),
        placed(d),
        tells_turns(measured(at, a), measured(at, b), measured(at, c), measured(at, d), turns),
    ensures
        crosses(a, b, c, d, turns) == meeting(
            at(a.x),
            at(a.y),
            at(b.x),
            at(b.y),
            at(c.x),
            at(c.y),
            at(d.x),
            at(d.y),
        ),
{
    assert forall|p: Scalar, q: Scalar| !p.nan() && !q.nan() implies {
        &&& !(#[trigger] p.smaller_num(q)).nan()
        &&& at(p.smaller_num(q)) == least(at(p), at(q))
    } by {
        assert(p.le_num(q) <==> at(p) <= at(q));
        assert(q.le_num(p) <==> at(q) <= at(p));
    }
    assert forall|p: Scalar, q: Scalar| !p.nan() && !q.nan() implies {
        &&& !(#[trigger] p.larger_num(q)).nan()
        &&& at(p.larger_num(q)) == most(at(p), at(q))
    } by {
        assert(p.le_num(q) <==> at(p) <= at(q));
        assert(q.le_num(p) <==> at(q) <= at(p));
    }
}

/// A segment meets a rectangle exactly where it has a point in it, whichever
/// sides it passes through. Coordinates are measured in any unit that keeps
/// their order, and the turns are those of the measured coordinates.
pub proof fn a_segment_meets_a_rectangle_that_holds_a_point_of_it(
    at: spec_fn(Scalar) -> int,
    rect: ScreenRect,
    a: ScreenPoint,
    b: ScreenPoint,
    turns: SideTurns,
)
    requires
        measures(at),
        placed(a),
        placed(b),
        placed(rect.min),
        placed(rect.max),
        rect.min.x.le_num(rect.max.x),
        rect.min.y.le_num(rect.max.y),
        tells_sides(
            measured(at, a),
            measured(at, b),
            measured(at, rect.min),
            measured(at, rect.max),
            turns,
        ),
    ensures
        rect.meets(a, b, turns) <==> has_point_in(
            measured(at, a),
            measured(at, b),
            measured(at, rect.min),
            measured(at, rect.max),
        ),
{
    let (x0, y0) = measured(at, rect.min);
    let (x1, y1) = measured(at, rect.max);
    let (ax, ay) = measured(at, a);
    let (bx, by) = measured(at, b);
    let (c0, c1, c2, c3) = (rect.corner(0), rect.corner(1), rect.corner(2), rect.corner(3));
    crossing_is_meeting(at, a, b, c0, c1, turns.bottom);
    crossing_is_meeting(at, a, b, c1, c2, turns.right);
    crossing_is_meeting(at, a, b, c2, c3, turns.top);
    crossing_is_meeting(at, a, b, c3, c0, turns.left);
    assert(rect.holds(a) <==> x0 <= ax <= x1 && y0 <= ay <= y1);
    assert(rect.holds(b) <==> x0 <= bx <= x1 && y0 <= by <= y1);
    if rect.meets(a, b, turns) {
        if rect.holds(a) {
            assert(reaches_in((ax, ay), (bx, by), (x0, y0), (x1, y1), 0, 1));
        } else if rect.holds(b) {
            assert(reaches_in((ax, ay), (bx, by), (x0, y0), (x1, y1), 1, 1));
        } else {
            let found = meeting_a_side_reaches(ax, ay, bx, by, x0, x1, y0, y1);
            assert(reaches_in((ax, ay), (bx, by), (x0, y0), (x1, y1), found.0, found.1));
        }
    }
    if has_point_in((ax, ay), (bx, by), (x0, y0), (x1, y1)) {
        let (step, steps) = choose|step: int, steps: int|
            reaches_in((ax, ay), (bx, by), (x0, y0), (x1, y1), step, steps);
        if !rect.holds(a) {
            reaching_meets_a_side(ax, ay, bx, by, x0, x1, y0, y1, step, steps);
        }
    }
}

/// The corner of a marquee with the smaller coordinates.
pub open spec fn low_corner(
    at: spec_fn(Scalar) -> int,
    start: ScreenPoint,
    end: ScreenPoint,
) -> (int, int) {
    let (p, q) = (measured(at, start), measured(at, end));
    (if p.0 <= q.0 { p.0 } else { q.0 }, if p.1 <= q.1 { p.1 } else { q.1 })
}

/// The corner of a marquee with the larger coordinates.
pub open spec fn high_corner(
    at: spec_fn(Scalar) -> int,
    start: ScreenPoint,
    end: ScreenPoint,
) -> (int, int) {
    let (p, q) = (measured(at, start), measured(at, end));
    (if p.0 <= q.0 { q.0 } else { p.0 }, if p.1 <= q.1 { q.1 } else { p.1 })
}

/// Whether a line can be measured against a marquee: its points are numbers, and
/// its turns about the sides of the marquee are those of its points.
pub open spec fn measured_line(
    at: spec_fn(Scalar) -> int,
    start: ScreenPoint,
    end: ScreenPoint,
    line: ScreenLine,
) -> bool {
    &&& forall|k: int| 0 <= k < line.samples@.len() ==> placed(#[trigger] line.samples@[k])
    &&& forall|k: int|
        0 <= k < line.samples@.len() - 1 ==> tells_sides(
            measured(at, line.samples@[k]),
            measured(at, line.samples@[k + 1]),
            low_corner(at, start, end),
            high_corner(at, start, end),
            #[trigger] line.turns@[k],
        )
}

/// What a marquee takes of the things on the screen. Drawn to the right it takes
/// the lines all of whose points lie between its corners; drawn to the left those
/// with a segment that has some point there.
pub proof fn a_marquee_takes_what_lies_in_it(
    at: spec_fn(Scalar) -> int,
    start: ScreenPoint,
    end: ScreenPoint,
    line: ScreenLine,
)
    requires
        measures(at),
        placed(start),
        placed(end),
        measured_line(at, start, end, line),
    ensures
        at(start.x) <= at(end.x) ==> (taken(start, end, line) <==> forall|k: int|
            0 <= k < line.samples@.len() ==> {
                let point = measured(at, #[trigger] line.samples@[k]);
                &&& low_corner(at, start, end).0 <= point.0 <= high_corner(at, start, end).0
                &&& low_corner(at, start, end).1 <= point.1 <= high_corner(at, start, end).1
            }),
        at(end.x) < at(start.x) ==> (taken(start, end, line) <==> exists|k: int|
            0 <= k < line.samples@.len() - 1 && has_point_in(
                measured(at, #[trigger] line.samples@[k]),
                measured(at, line.samples@[k + 1]),
                low_corner(at, start, end),
                high_corner(at, start, end),
            )),
{
    let rect = ScreenRect::spanned(start, end);
    let low = low_corner(at, start, end);
    let high = high_corner(at, start, end);
    assert(start.x.le_num(end.x) <==> at(start.x) <= at(end.x));
    assert(end.x.le_num(start.x) <==> at(end.x) <= at(start.x));
    assert(start.y.le_num(end.y) <==> at(start.y) <= at(end.y));
    assert(end.y.le_num(start.y) <==> at(end.y) <= at(start.y));
    assert(measured(at, rect.min) == low && measured(at, rect.max) == high);
    if at(start.x) <= at(end.x) {
        assert forall|k: int| 0 <= k < line.samples@.len() implies (rect.holds(
            #[trigger] line.samples@[k],
        ) <==> {
            let point = measured(at, line.samples@[k]);
            &&& low.0 <= point.0 <= high.0
            &&& low.1 <= point.1 <= high.1
        }) by {
            assert(placed(line.samples@[k]));
        }
        if enclosed(rect, line) {
            assert forall|k: int| 0 <= k < line.samples@.len() implies ({
                let point = measured(at, #[trigger] line.samples@[k]);
                &&& low.0 <= point.0 <= high.0
                &&& low.1 <= point.1 <= high.1
            }) by {
                assert(rect.holds(line.samples@[k]));
            }
        }
    } else {
        assert forall|k: int| 0 <= k < line.samples@.len() - 1 implies (rect.meets(
            line.samples@[k],
            line.samples@[k + 1],
            #[trigger] line.turns@[k],
        ) <==> has_point_in(
            measured(at, line.samples@[k]),
            measured(at, line.samples@[k + 1]),
            low,
            high,
        )) by {
            assert(placed(line.samples@[k]) && placed(line.samples@[k + 1]));
            a_segment_meets_a_rectangle_that_holds_a_point_of_it(
                at,
                rect,
                line.samples@[k],
                line.samples@[k + 1],
                line.turns@[k],
            );
        }
        if touched(rect, line) {
            let k = choose|k: int|
                0 <= k < line.samples@.len() - 1 && rect.meets(
                    line.samples@[k],
                    line.samples@[k + 1],
                    #[trigger] line.turns@[k],
                );
            assert(has_point_in(
                measured(at, line.samples@[k]),
                measured(at, line.samples@[k + 1]),
                low,
                high,
            ));
        }
        if exists|k: int|
            0 <= k < line.samples@.len() - 1 && has_point_in(
                measured(at, #[trigger] line.samples@[k]),
                measured(at, line.samples@[k + 1]),
                low,
                high,
            ) {
            let k = choose|k: int|
                0 <= k < line.samples@.len() - 1 && has_point_in(
                    measured(at, #[trigger] line.samples@[k]),
                    measured(at, line.samples@[k + 1]),
                    low,
                    high,
                );
            assert(rect.meets(line.samples@[k], line.samples@[k + 1], line.turns@[k]));
        }
    }
}

/// The targets that a marquee takes are those of the lines that it takes, and no
/// others.
pub proof fn a_marquee_takes_the_targets_of_its_lines(
    start: ScreenPoint,
    end: ScreenPoint,
    spans: Seq<SampledTopologySpan>,
    lines: Seq<ScreenLine>,
    target: TopologySpanTarget,
)
    ensures
        marquee_set(start, end, spans, lines).contains(target) <==> exists|i: int|
            0 <= i < lines.len() && spans[i].target == target && taken(
                start,
                end,
                #[trigger] lines[i],
            ),
{
}

/// A point with its axes exchanged.
pub open spec fn across(point: ScreenPoint) -> ScreenPoint {
    Point2 { x: point.y, y: point.x }
}

/// Exchanging the two axes of a rectangle and of a segment changes nothing about
/// whether they meet: what were the lower and the upper side become the left and
/// the right one.
pub proof fn the_axes_of_a_rectangle_are_alike(
    rect: ScreenRect,
    a: ScreenPoint,
    b: ScreenPoint,
    turns: SideTurns,
)
    ensures
        (ScreenRect { min: across(rect.min), max: across(rect.max) }).meets(
            across(a),
            across(b),
            SideTurns {
                bottom: turns.left,
                right: turns.top,
                top: turns.right,
                left: turns.bottom,
            },
        ) == rect.meets(a, b, turns),
{
}

/// The corner that is hit is in reach, and none is nearer; of corners at the very
/// same distance it is the first. Where none is in reach, none is hit.
pub proof fn the_hit_corner_is_the_nearest(distances: Seq<Scalar>, reach: Scalar, i: int)
    requires
        0 <= i < distances.len(),
    ensures
        match nearest(corner_distances(distances, reach), false) {
            Some(place) => {
                &&& 0 <= place < distances.len()
                &&& distances[place].le_num(reach)
                &&& !distances[i].lt_num(distances[place])
                &&& i < place ==> distances[i] != distances[place]
            },
            None => !distances[i].le_num(reach),
        },
{
    let kept = corner_distances(distances, reach);
    nearest_is_smallest(kept, false);
    assert(kept[i] == within(distances[i], reach));
    if let Some(place) = nearest(kept, false) {
        assert(kept[place] == within(distances[place], reach));
    }
}

/// A view maps the screen to the world while both of its centres are finite and a
/// unit of the world has a size.
pub proof fn a_view_needs_a_centre_and_a_size(transform: ViewportTransform, tolerance: Scalar)
    ensures
        transform.usable() <==> transform.screen_center.x.finite()
            && transform.screen_center.y.finite() && transform.world_center.x.finite()
            && transform.world_center.y.finite() && transform.pixels_per_world.finite()
            && transform.pixels_per_world.place() > 0,
        can_sample(transform, tolerance) <==> transform.usable() && tolerance.finite()
            && tolerance.place() > 0,
{
}

} // verus!
