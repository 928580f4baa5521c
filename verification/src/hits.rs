//! What the pointer meets in the viewport. Distances on the screen are measured
//! by the application; which of the measured things is hit is decided here.

use crate::ordered_set::OrderedSet;
use crate::sampling::{SampledTopologyGeometry, SampledTopologySpan};
use crate::scalar::{Point2, Scalar};
use crate::selection::{SpanSet, TopologyHit, TopologySpanTarget};
use vstd::prelude::*;

verus! {

/// A point of the screen.
pub type ScreenPoint = Point2;

#[derive(Clone, Copy, Debug, PartialEq, Eq, Structural)]
pub struct ViewportTransform {
    pub screen_center: ScreenPoint,
    pub world_center: Point2,
    pub pixels_per_world: Scalar,
}

impl ViewportTransform {
    pub open spec fn usable(self) -> bool {
        &&& self.screen_center.finite_point()
        &&& self.world_center.finite_point()
        &&& self.pixels_per_world.finite()
        &&& Scalar::zero_num().lt_num(self.pixels_per_world)
    }

    pub fn valid(self) -> (result: bool)
        ensures
            result == self.usable(),
    {
        self.screen_center.finite() && self.world_center.finite()
            && self.pixels_per_world.is_finite() && Scalar::zero().less(self.pixels_per_world)
    }
}

/// The place of the smallest distance. Of equal ones the first counts, or the
/// last where `later` says so.
pub open spec fn nearest(distances: Seq<Option<Scalar>>, later: bool) -> Option<int>
    decreases distances.len(),
{
    if distances.len() == 0 {
        None
    } else {
        let best = nearest(distances.drop_last(), later);
        match distances.last() {
            None => best,
            Some(distance) => match best {
                None => Some(distances.len() - 1),
                Some(place) => {
                    let held = distances[place]->0.rank();
                    if distance.rank() < held || (later && distance.rank() == held) {
                        Some(distances.len() - 1)
                    } else {
                        Some(place)
                    }
                },
            },
        }
    }
}

/// Nothing is nearer than the nearest, there is one as soon as there is any
/// distance, and ties go to the first, or to the last where asked for.
pub proof fn nearest_is_smallest(distances: Seq<Option<Scalar>>, later: bool)
    ensures
        match nearest(distances, later) {
            None => forall|i: int| 0 <= i < distances.len() ==> #[trigger] distances[i] is None,
            Some(place) => {
                &&& 0 <= place < distances.len()
                &&& distances[place] is Some
                &&& forall|i: int|
                    0 <= i < distances.len() && (#[trigger] distances[i]) is Some ==> {
                        let found = distances[place]->0.rank();
                        let other = distances[i]->0.rank();
                        found < other || (found == other && if later {
                            i <= place
                        } else {
                            place <= i
                        })
                    }
            },
        },
    decreases distances.len(),
{
    if distances.len() > 0 {
        let front = distances.drop_last();
        nearest_is_smallest(front, later);
        assert forall|i: int| 0 <= i < front.len() implies #[trigger] distances[i]
            == front[i] by {}
    }
}

pub fn find_nearest(distances: &Vec<Option<Scalar>>, later: bool) -> (result: Option<usize>)
    ensures
        match result {
            Some(place) => place < distances@.len() && nearest(distances@, later) == Some(
                place as int,
            ),
            None => nearest(distances@, later) is None,
        },
{
    let mut best: Option<usize> = None;
    let mut index: usize = 0;
    while index < distances.len()
        invariant
            index <= distances@.len(),
            match best {
                Some(place) => place < index && distances@[place as int] is Some && nearest(
                    distances@.take(index as int),
                    later,
                ) == Some(place as int),
                None => nearest(distances@.take(index as int), later) is None,
            },
        decreases distances@.len() - index,
    {
        assert(distances@.take(index + 1).drop_last() =~= distances@.take(index as int));
        if let Some(distance) = distances[index] {
            let closer: bool = match best {
                None => true,
                Some(place) => match distances[place] {
                    Some(held) => distance.ranks_below(held) || (later && !held.ranks_below(
                        distance,
                    )),
                    None => true,
                },
            };
            if closer {
                best = Some(index);
            }
        }
        index = index + 1;
    }
    assert(distances@.take(index as int) =~= distances@);
    best
}

/// A distance, if it is within a radius.
pub open spec fn within(distance: Scalar, radius: Scalar) -> Option<Scalar> {
    if distance.le_num(radius) {
        Some(distance)
    } else {
        None
    }
}

fn keep_within(distance: Scalar, radius: Scalar) -> (result: Option<Scalar>)
    ensures
        result == within(distance, radius),
{
    if distance.at_most(radius) {
        Some(distance)
    } else {
        None
    }
}

/// The smallest of the distances to the segments of a span.
pub open spec fn span_distance(segments: Seq<Scalar>) -> Option<Scalar> {
    match nearest(segments.map_values(|distance: Scalar| Some(distance)), false) {
        Some(place) => Some(segments[place]),
        None => None,
    }
}

fn smallest_segment(segments: &Vec<Scalar>) -> (result: Option<Scalar>)
    ensures
        result == span_distance(segments@),
{
    let mut distances: Vec<Option<Scalar>> = Vec::new();
    let mut index: usize = 0;
    while index < segments.len()
        invariant
            index <= segments@.len(),
            distances@ =~= segments@.map_values(|distance: Scalar| Some(distance)).take(
                index as int,
            ),
        decreases segments@.len() - index,
    {
        distances.push(Some(segments[index]));
        index = index + 1;
    }
    assert(distances@ =~= segments@.map_values(|distance: Scalar| Some(distance)));
    match find_nearest(&distances, false) {
        Some(place) => Some(segments[place]),
        None => None,
    }
}

pub open spec fn handle_distances(distances: Seq<Scalar>, radius: Scalar) -> Seq<Option<Scalar>> {
    distances.map_values(|distance: Scalar| within(distance, radius))
}

pub open spec fn span_distances(segments: Seq<Vec<Scalar>>, radius: Scalar) -> Seq<
    Option<Scalar>,
> {
    segments.map_values(
        |distances: Vec<Scalar>|
            match span_distance(distances@) {
                Some(distance) => within(distance, radius),
                None => None,
            },
    )
}

fn handles_within(distances: &Vec<Scalar>, radius: Scalar) -> (result: Vec<Option<Scalar>>)
    ensures
        result@ == handle_distances(distances@, radius),
{
    let mut kept: Vec<Option<Scalar>> = Vec::new();
    let mut index: usize = 0;
    while index < distances.len()
        invariant
            index <= distances@.len(),
            kept@ =~= handle_distances(distances@, radius).take(index as int),
        decreases distances@.len() - index,
    {
        kept.push(keep_within(distances[index], radius));
        index = index + 1;
    }
    assert(kept@ =~= handle_distances(distances@, radius));
    kept
}

fn spans_within(segments: &Vec<Vec<Scalar>>, radius: Scalar) -> (result: Vec<Option<Scalar>>)
    ensures
        result@ == span_distances(segments@, radius),
{
    let mut kept: Vec<Option<Scalar>> = Vec::new();
    let mut index: usize = 0;
    while index < segments.len()
        invariant
            index <= segments@.len(),
            kept@ =~= span_distances(segments@, radius).take(index as int),
        decreases segments@.len() - index,
    {
        let length: Option<Scalar> = match smallest_segment(&segments[index]) {
            Some(distance) => keep_within(distance, radius),
            None => None,
        };
        kept.push(length);
        index = index + 1;
    }
    assert(kept@ =~= span_distances(segments@, radius));
    kept
}

impl SampledTopologyGeometry {
    /// What is hit: the nearest handle in reach, of equal ones the last listed,
    /// or else the nearest span in reach, of equal ones the first.
    pub open spec fn hit(
        self,
        handles: Seq<Scalar>,
        segments: Seq<Vec<Scalar>>,
        handle_radius: Scalar,
        span_radius: Scalar,
    ) -> Option<TopologyHit> {
        match nearest(handle_distances(handles, handle_radius), true) {
            Some(place) => Some(
                TopologyHit::Handle {
                    handle: self.handles@[place].handle,
                    distance: handles[place],
                },
            ),
            None => match nearest(span_distances(segments, span_radius), false) {
                Some(place) => Some(
                    TopologyHit::Span {
                        target: self.spans@[place].target,
                        distance: span_distance(segments[place]@)->0,
                    },
                ),
                None => None,
            },
        }
    }

    /// The hit under the pointer. `handles` are the distances on the screen from
    /// the pointer to each handle, and `segments` those to the segments of each
    /// span.
    pub fn hit_test(
        &self,
        handles: &Vec<Scalar>,
        segments: &Vec<Vec<Scalar>>,
        handle_radius: Scalar,
        span_radius: Scalar,
    ) -> (result: Option<TopologyHit>)
        requires
            handles@.len() == self.handles@.len(),
            segments@.len() == self.spans@.len(),
        ensures
            result == self.hit(handles@, segments@, handle_radius, span_radius),
    {
        let distances: Vec<Option<Scalar>> = handles_within(handles, handle_radius);
        if let Some(place) = find_nearest(&distances, true) {
            return Some(
                TopologyHit::Handle {
                    handle: self.handles[place].handle,
                    distance: handles[place],
                },
            );
        }
        let lengths: Vec<Option<Scalar>> = spans_within(segments, span_radius);
        match find_nearest(&lengths, false) {
            Some(place) => {
                proof {
                    nearest_is_smallest(lengths@, false);
                    assert(lengths@[place as int] is Some);
                }
                match smallest_segment(&segments[place]) {
                    Some(distance) => Some(
                        TopologyHit::Span { target: self.spans[place].target, distance },
                    ),
                    None => None,
                }
            },
            None => None,
        }
    }

    /// The spans that a marquee takes, drawn from `start` to `end`. `lines` are
    /// the spans on the screen.
    pub fn marquee_hits(
        &self,
        start: ScreenPoint,
        end: ScreenPoint,
        lines: &Vec<ScreenLine>,
    ) -> (result: SpanSet)
        requires
            lines@.len() == self.spans@.len(),
            forall|i: int| 0 <= i < lines@.len() ==> (#[trigger] lines@[i]).complete(),
        ensures
            result.wf(),
            result@ == marquee_set(start, end, self.spans@, lines@),
    {
        let mut found: SpanSet = OrderedSet::new();
        let mut index: usize = 0;
        while index < lines.len()
            invariant
                index <= lines@.len(),
                lines@.len() == self.spans@.len(),
                found.wf(),
                forall|i: int| 0 <= i < lines@.len() ==> (#[trigger] lines@[i]).complete(),
                forall|target: TopologySpanTarget| #[trigger]
                    found@.contains(target) == takes_target(
                        start,
                        end,
                        self.spans@,
                        lines@,
                        index as int,
                        target,
                    ),
            decreases lines@.len() - index,
        {
            let ghost before = found@;
            if takes(start, end, &lines[index]) {
                found.insert(self.spans[index].target);
            }
            proof {
                let spans = self.spans@;
                assert forall|target: TopologySpanTarget| #[trigger]
                    found@.contains(target) == takes_target(
                        start,
                        end,
                        spans,
                        lines@,
                        index + 1,
                        target,
                    ) by {
                    assert(before.contains(target) == takes_target(
                        start,
                        end,
                        spans,
                        lines@,
                        index as int,
                        target,
                    ));
                    assert(lines@[index as int] == lines@[index as int]);
                }
            }
            index = index + 1;
        }
        assert(found@ =~= marquee_set(start, end, self.spans@, lines@));
        found
    }
}

/// A handle in reach wins over every span.
pub proof fn a_handle_wins_over_spans(
    geometry: SampledTopologyGeometry,
    handles: Seq<Scalar>,
    segments: Seq<Vec<Scalar>>,
    handle_radius: Scalar,
    span_radius: Scalar,
    place: int,
)
    requires
        0 <= place < handles.len(),
        handles[place].le_num(handle_radius),
    ensures
        geometry.hit(handles, segments, handle_radius, span_radius) matches Some(
            TopologyHit::Handle { distance, .. },
        ) && distance.rank() <= handles[place].rank(),
{
    nearest_is_smallest(handle_distances(handles, handle_radius), true);
    assert(handle_distances(handles, handle_radius)[place] is Some);
}

/// Where a junction is as near as everything else, it is hit: junctions are
/// listed after the control points, and the last of equals wins.
pub proof fn a_junction_wins_over_the_control_under_it(
    geometry: SampledTopologyGeometry,
    handles: Seq<Scalar>,
    segments: Seq<Vec<Scalar>>,
    handle_radius: Scalar,
    span_radius: Scalar,
    junction: int,
)
    requires
        handles.len() == geometry.handles@.len(),
        0 <= junction < handles.len(),
        geometry.handles@[junction].handle is Junction,
        forall|i: int|
            junction <= i < handles.len() ==> (#[trigger] geometry.handles@[i]).handle is Junction,
        handles[junction].le_num(handle_radius),
        forall|i: int|
            0 <= i < handles.len() && (#[trigger] handles[i]).le_num(handle_radius)
                ==> handles[junction].rank() <= handles[i].rank(),
    ensures
        geometry.hit(handles, segments, handle_radius, span_radius) matches Some(
            TopologyHit::Handle { handle, .. },
        ) && handle is Junction,
{
    let distances = handle_distances(handles, handle_radius);
    nearest_is_smallest(distances, true);
    assert(distances[junction] is Some);
    let place = nearest(distances, true)->0;
    assert(distances[place] == within(handles[place], handle_radius));
    assert(handles[junction].rank() <= handles[place].rank());
    assert(geometry.handles@[place].handle is Junction);
}

/// A rectangle of the screen.
#[derive(Clone, Copy, Debug, PartialEq, Eq, Structural)]
pub struct ScreenRect {
    pub min: ScreenPoint,
    pub max: ScreenPoint,
}

impl ScreenRect {
    pub open spec fn spanned(a: ScreenPoint, b: ScreenPoint) -> Self {
        ScreenRect {
            min: Point2 { x: a.x.smaller_num(b.x), y: a.y.smaller_num(b.y) },
            max: Point2 { x: a.x.larger_num(b.x), y: a.y.larger_num(b.y) },
        }
    }

    pub open spec fn holds(self, point: ScreenPoint) -> bool {
        &&& self.min.x.le_num(point.x)
        &&& point.x.le_num(self.max.x)
        &&& self.min.y.le_num(point.y)
        &&& point.y.le_num(self.max.y)
    }

    pub fn from_points(a: ScreenPoint, b: ScreenPoint) -> (result: Self)
        ensures
            result == Self::spanned(a, b),
    {
        ScreenRect {
            min: Point2 { x: a.x.smaller(b.x), y: a.y.smaller(b.y) },
            max: Point2 { x: a.x.larger(b.x), y: a.y.larger(b.y) },
        }
    }

    pub fn contains(self, point: ScreenPoint) -> (result: bool)
        ensures
            result == self.holds(point),
    {
        self.min.x.at_most(point.x) && point.x.at_most(self.max.x) && self.min.y.at_most(point.y)
            && point.y.at_most(self.max.y)
    }

    /// The corners, going round.
    pub open spec fn corner(self, index: int) -> ScreenPoint {
        if index == 0 {
            self.min
        } else if index == 1 {
            Point2 { x: self.max.x, y: self.min.y }
        } else if index == 2 {
            self.max
        } else {
            Point2 { x: self.min.x, y: self.max.y }
        }
    }

    /// Whether a segment meets the rectangle. `turns` are the products of the
    /// turns at the two segments, for each side of the rectangle.
    pub open spec fn meets(self, a: ScreenPoint, b: ScreenPoint, turns: SideTurns) -> bool {
        ||| self.holds(a)
        ||| self.holds(b)
        ||| crosses(a, b, self.corner(0), self.corner(1), turns.bottom)
        ||| crosses(a, b, self.corner(1), self.corner(2), turns.right)
        ||| crosses(a, b, self.corner(2), self.corner(3), turns.top)
        ||| crosses(a, b, self.corner(3), self.corner(0), turns.left)
    }

    pub fn intersects_segment(self, a: ScreenPoint, b: ScreenPoint, turns: SideTurns) -> (result:
        bool)
        ensures
            result == self.meets(a, b, turns),
    {
        if self.contains(a) || self.contains(b) {
            return true;
        }
        let first: ScreenPoint = self.min;
        let second = Point2 { x: self.max.x, y: self.min.y };
        let third: ScreenPoint = self.max;
        let fourth = Point2 { x: self.min.x, y: self.max.y };
        segments_intersect(a, b, first, second, turns.bottom) || segments_intersect(
            a,
            b,
            second,
            third,
            turns.right,
        ) || segments_intersect(a, b, third, fourth, turns.top) || segments_intersect(
            a,
            b,
            fourth,
            first,
            turns.left,
        )
    }
}

/// How two segments turn about each other: the product of the turns from the
/// first to the ends of the second, and the other way round.
#[derive(Clone, Copy, Debug, PartialEq, Eq, Structural)]
pub struct Turns {
    pub of_first: Scalar,
    pub of_second: Scalar,
}

/// The turns of a segment with each side of a rectangle.
#[derive(Clone, Copy, Debug, PartialEq, Eq, Structural)]
pub struct SideTurns {
    pub bottom: Turns,
    pub right: Turns,
    pub top: Turns,
    pub left: Turns,
}

pub open spec fn extents_overlap(a: Scalar, b: Scalar, c: Scalar, d: Scalar) -> bool {
    &&& a.smaller_num(b).le_num(c.larger_num(d))
    &&& c.smaller_num(d).le_num(a.larger_num(b))
}

/// Whether two segments cross: their boxes overlap and neither lies on one side
/// of the other.
pub open spec fn crosses(
    a: ScreenPoint,
    b: ScreenPoint,
    c: ScreenPoint,
    d: ScreenPoint,
    turns: Turns,
) -> bool {
    &&& extents_overlap(a.x, b.x, c.x, d.x)
    &&& extents_overlap(a.y, b.y, c.y, d.y)
    &&& turns.of_first.le_num(Scalar::zero_num())
    &&& turns.of_second.le_num(Scalar::zero_num())
}

fn overlap(a: Scalar, b: Scalar, c: Scalar, d: Scalar) -> (result: bool)
    ensures
        result == extents_overlap(a, b, c, d),
{
    a.smaller(b).at_most(c.larger(d)) && c.smaller(d).at_most(a.larger(b))
}

pub fn segments_intersect(
    a: ScreenPoint,
    b: ScreenPoint,
    c: ScreenPoint,
    d: ScreenPoint,
    turns: Turns,
) -> (result: bool)
    ensures
        result == crosses(a, b, c, d, turns),
{
    overlap(a.x, b.x, c.x, d.x) && overlap(a.y, b.y, c.y, d.y) && turns.of_first.at_most(
        Scalar::zero(),
    ) && turns.of_second.at_most(Scalar::zero())
}

/// A span on the screen: its samples and, for each segment between two of them,
/// how it turns about the sides of the marquee.
#[derive(Debug)]
pub struct ScreenLine {
    pub samples: Vec<ScreenPoint>,
    pub turns: Vec<SideTurns>,
}

impl ScreenLine {
    pub open spec fn complete(self) -> bool {
        self.samples@.len() <= self.turns@.len() + 1
    }
}

pub open spec fn enclosed(rect: ScreenRect, span: ScreenLine) -> bool {
    forall|i: int| 0 <= i < span.samples@.len() ==> rect.holds(#[trigger] span.samples@[i])
}

pub open spec fn touched(rect: ScreenRect, span: ScreenLine) -> bool {
    exists|i: int|
        0 <= i < span.samples@.len() - 1 && rect.meets(
            span.samples@[i],
            span.samples@[i + 1],
            #[trigger] span.turns@[i],
        )
}

/// Whether a marquee takes a span: drawn to the right it takes what it encloses,
/// drawn to the left what it touches.
pub open spec fn taken(start: ScreenPoint, end: ScreenPoint, span: ScreenLine) -> bool {
    let rect = ScreenRect::spanned(start, end);
    if start.x.le_num(end.x) {
        enclosed(rect, span)
    } else {
        touched(rect, span)
    }
}

fn encloses(rect: ScreenRect, span: &ScreenLine) -> (result: bool)
    ensures
        result == enclosed(rect, *span),
{
    let mut index: usize = 0;
    while index < span.samples.len()
        invariant
            index <= span.samples@.len(),
            forall|i: int| 0 <= i < index ==> rect.holds(#[trigger] span.samples@[i]),
        decreases span.samples@.len() - index,
    {
        if !rect.contains(span.samples[index]) {
            assert(!rect.holds(span.samples@[index as int]));
            return false;
        }
        index = index + 1;
    }
    true
}

fn touches(rect: ScreenRect, span: &ScreenLine) -> (result: bool)
    requires
        span.complete(),
    ensures
        result == touched(rect, *span),
{
    let count: usize = span.samples.len();
    if count == 0 {
        return false;
    }
    let mut index: usize = 0;
    while index < count - 1
        invariant
            index < count,
            count == span.samples@.len(),
            span.samples@.len() <= span.turns@.len() + 1,
            forall|i: int|
                0 <= i < index ==> !rect.meets(
                    span.samples@[i],
                    span.samples@[i + 1],
                    #[trigger] span.turns@[i],
                ),
        decreases count - index,
    {
        if rect.intersects_segment(
            span.samples[index],
            span.samples[index + 1],
            span.turns[index],
        ) {
            assert(rect.meets(
                span.samples@[index as int],
                span.samples@[index + 1],
                span.turns@[index as int],
            ));
            return true;
        }
        index = index + 1;
    }
    false
}

fn takes(start: ScreenPoint, end: ScreenPoint, span: &ScreenLine) -> (result: bool)
    requires
        span.complete(),
    ensures
        result == taken(start, end, *span),
{
    let rect: ScreenRect = ScreenRect::from_points(start, end);
    if start.x.at_most(end.x) {
        encloses(rect, span)
    } else {
        touches(rect, span)
    }
}

/// The targets of the spans that a marquee takes.
pub open spec fn marquee_set(
    start: ScreenPoint,
    end: ScreenPoint,
    spans: Seq<SampledTopologySpan>,
    lines: Seq<ScreenLine>,
) -> Set<TopologySpanTarget> {
    Set::new(
        |target: TopologySpanTarget|
            takes_target(start, end, spans, lines, lines.len() as int, target),
    )
}

/// Whether one of the first spans, as many as `count`, with this target is taken.
pub open spec fn takes_target(
    start: ScreenPoint,
    end: ScreenPoint,
    spans: Seq<SampledTopologySpan>,
    lines: Seq<ScreenLine>,
    count: int,
    target: TopologySpanTarget,
) -> bool {
    exists|i: int|
        0 <= i < count && spans[i].target == target && taken(start, end, #[trigger] lines[i])
}

/// A marquee over the same rectangle, drawn the other way up.
pub open spec fn upended(start: ScreenPoint, end: ScreenPoint) -> (ScreenPoint, ScreenPoint) {
    (Point2 { x: start.x, y: end.y }, Point2 { x: end.x, y: start.y })
}

/// What a marquee drawn to the right takes, one drawn back over the same
/// rectangle takes too, for spans of at least two samples: what is enclosed is
/// touched. `back` are the same spans, however they turn about the sides.
pub proof fn what_is_enclosed_is_touched(
    start: ScreenPoint,
    end: ScreenPoint,
    spans: Seq<SampledTopologySpan>,
    lines: Seq<ScreenLine>,
    back: Seq<ScreenLine>,
)
    requires
        start.x.le_num(end.x),
        lines.len() == back.len(),
        forall|i: int|
            0 <= i < lines.len() ==> (#[trigger] lines[i]).samples@ == back[i].samples@
                && lines[i].samples@.len() >= 2,
    ensures
        marquee_set(start, end, spans, lines).subset_of(marquee_set(end, start, spans, back)),
{
    let rect = ScreenRect::spanned(start, end);
    let reverse = ScreenRect::spanned(end, start);
    assert forall|target: TopologySpanTarget|
        marquee_set(start, end, spans, lines).contains(
            target,
        ) implies #[trigger] marquee_set(end, start, spans, back).contains(target) by {
        let i = choose|i: int|
            0 <= i < lines.len() && spans[i].target == target && taken(
                start,
                end,
                #[trigger] lines[i],
            );
        let samples = lines[i].samples@;
        assert(samples == back[i].samples@);
        assert forall|k: int| 0 <= k < samples.len() implies reverse.holds(
            #[trigger] back[i].samples@[k],
        ) by {
            assert(rect.holds(lines[i].samples@[k]));
        }
        assert(reverse.meets(back[i].samples@[0], back[i].samples@[1], back[i].turns@[0]));
        assert(taken(end, start, back[i]));
    }
}

/// Whether a marquee is drawn upwards or downwards makes no difference: swapping
/// the heights of its ends takes the same spans.
pub proof fn the_heights_of_a_marquee_can_be_swapped(
    start: ScreenPoint,
    end: ScreenPoint,
    spans: Seq<SampledTopologySpan>,
    lines: Seq<ScreenLine>,
)
    ensures
        marquee_set(upended(start, end).0, upended(start, end).1, spans, lines) == marquee_set(
            start,
            end,
            spans,
            lines,
        ),
{
    let (from, to) = upended(start, end);
    let rect = ScreenRect::spanned(start, end);
    let other = ScreenRect::spanned(from, to);
    assert forall|point: ScreenPoint| #[trigger] rect.holds(point) == other.holds(point) by {}
    assert forall|line: ScreenLine| #[trigger] taken(start, end, line) == taken(from, to, line) by {
        if start.x.le_num(end.x) {
            if enclosed(rect, line) {
                assert forall|i: int| 0 <= i < line.samples@.len() implies other.holds(
                    #[trigger] line.samples@[i],
                ) by {
                    assert(rect.holds(line.samples@[i]));
                }
            }
            if enclosed(other, line) {
                assert forall|i: int| 0 <= i < line.samples@.len() implies rect.holds(
                    #[trigger] line.samples@[i],
                ) by {
                    assert(other.holds(line.samples@[i]));
                }
            }
        } else {
            assert forall|i: int| 0 <= i < line.samples@.len() - 1 implies rect.meets(
                line.samples@[i],
                line.samples@[i + 1],
                #[trigger] line.turns@[i],
            ) == other.meets(line.samples@[i], line.samples@[i + 1], line.turns@[i]) by {
                assert(rect.holds(line.samples@[i]) == other.holds(line.samples@[i]));
                assert(rect.holds(line.samples@[i + 1]) == other.holds(line.samples@[i + 1]));
            }
        }
    }
    assert forall|target: TopologySpanTarget| #[trigger]
        marquee_set(from, to, spans, lines).contains(target) == marquee_set(
            start,
            end,
            spans,
            lines,
        ).contains(target) by {
        if takes_target(start, end, spans, lines, lines.len() as int, target) {
            let i = choose|i: int|
                0 <= i < lines.len() && spans[i].target == target && taken(
                    start,
                    end,
                    #[trigger] lines[i],
                );
            assert(taken(from, to, lines[i]));
        }
        if takes_target(from, to, spans, lines, lines.len() as int, target) {
            let i = choose|i: int|
                0 <= i < lines.len() && spans[i].target == target && taken(
                    from,
                    to,
                    #[trigger] lines[i],
                );
            assert(taken(start, end, lines[i]));
        }
    }
    assert(marquee_set(from, to, spans, lines) =~= marquee_set(start, end, spans, lines));
}

} // verus!
