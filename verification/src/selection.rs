//! What is selected in the viewport, and how clicks change it.

use crate::collect::{find, first_value};
use crate::model::{CurveSpan, CurveSpline, OuterSide, TopologyCurve, TopologyGeometry};
use crate::ordered_set::{Ordered, OrderedSet};
use crate::scalar::Scalar;
use vstd::prelude::*;

verus! {

/// A side of the domain or a span of a curve.
#[derive(Clone, Copy, Debug, PartialEq, Eq, Structural)]
pub enum TopologySpanTarget {
    Outer(OuterSide),
    Curve(u64),
}

impl OuterSide {
    pub open spec fn place(self) -> int {
        match self {
            OuterSide::Bottom => 0,
            OuterSide::Right => 1,
            OuterSide::Top => 2,
            OuterSide::Left => 3,
        }
    }

    fn index(self) -> (result: u64)
        ensures
            result == self.place(),
    {
        match self {
            OuterSide::Bottom => 0,
            OuterSide::Right => 1,
            OuterSide::Top => 2,
            OuterSide::Left => 3,
        }
    }
}

impl Ordered for TopologySpanTarget {
    /// Sides come before spans, sides go round from the bottom, spans by id.
    open spec fn before(self, other: Self) -> bool {
        match (self, other) {
            (TopologySpanTarget::Outer(a), TopologySpanTarget::Outer(b)) => a.place() < b.place(),
            (TopologySpanTarget::Outer(_), TopologySpanTarget::Curve(_)) => true,
            (TopologySpanTarget::Curve(_), TopologySpanTarget::Outer(_)) => false,
            (TopologySpanTarget::Curve(a), TopologySpanTarget::Curve(b)) => a < b,
        }
    }

    proof fn irreflexive(value: Self) {
    }

    proof fn transitive(first: Self, second: Self, third: Self) {
    }

    proof fn total(first: Self, second: Self) {
    }

    fn is_before(&self, other: &Self) -> (result: bool) {
        match (self, other) {
            (TopologySpanTarget::Outer(a), TopologySpanTarget::Outer(b)) => a.index() < b.index(),
            (TopologySpanTarget::Outer(_), TopologySpanTarget::Curve(_)) => true,
            (TopologySpanTarget::Curve(_), TopologySpanTarget::Outer(_)) => false,
            (TopologySpanTarget::Curve(a), TopologySpanTarget::Curve(b)) => *a < *b,
        }
    }
}

pub type SpanSet = OrderedSet<TopologySpanTarget>;

#[derive(Clone, Copy, Debug, PartialEq, Eq, Structural)]
pub enum TopologyHandle {
    Control { curve: u64, control: usize },
    Junction(u64),
}

#[derive(Debug)]
pub enum TopologySelection {
    Nothing,
    Handle(TopologyHandle),
    Spans(SpanSet),
}

#[derive(Clone, Copy, Debug, PartialEq, Eq, Structural)]
pub enum TopologyHit {
    Handle { handle: TopologyHandle, distance: Scalar },
    Span { target: TopologySpanTarget, distance: Scalar },
}

pub open spec fn has_span(curve: TopologyCurve, span: u64) -> bool {
    exists|i: int| 0 <= i < curve.spans@.len() && (#[trigger] curve.spans@[i]).id == span
}

/// The curve that a span belongs to.
pub open spec fn curve_of_span(curves: Seq<TopologyCurve>, span: u64) -> Option<TopologyCurve> {
    first_value(curves, |curve: TopologyCurve| has_span(curve, span))
}

pub open spec fn spans_of(curve: TopologyCurve) -> Seq<TopologySpanTarget> {
    curve.spans@.map_values(|span: CurveSpan| TopologySpanTarget::Curve(span.id))
}

pub open spec fn all_sides() -> Seq<TopologySpanTarget> {
    seq![
        TopologySpanTarget::Outer(OuterSide::Bottom),
        TopologySpanTarget::Outer(OuterSide::Right),
        TopologySpanTarget::Outer(OuterSide::Top),
        TopologySpanTarget::Outer(OuterSide::Left),
    ]
}

/// What a click on a span is about: the span alone, or all of its curve or of
/// the boundary of the domain.
pub open spec fn clicked_targets(
    curves: Seq<TopologyCurve>,
    target: TopologySpanTarget,
    whole_curve: bool,
) -> Seq<TopologySpanTarget> {
    if !whole_curve {
        seq![target]
    } else {
        match target {
            TopologySpanTarget::Outer(_) => all_sides(),
            TopologySpanTarget::Curve(span) => match curve_of_span(curves, span) {
                Some(curve) => spans_of(curve),
                None => Seq::empty(),
            },
        }
    }
}

pub open spec fn toggled(set: Set<TopologySpanTarget>, target: TopologySpanTarget) -> Set<
    TopologySpanTarget,
> {
    if set.contains(target) {
        set.remove(target)
    } else {
        set.insert(target)
    }
}

/// The set after the targets were toggled one after the other.
pub open spec fn toggled_all(set: Set<TopologySpanTarget>, targets: Seq<TopologySpanTarget>) -> Set<
    TopologySpanTarget,
>
    decreases targets.len(),
{
    if targets.len() == 0 {
        set
    } else {
        toggled(toggled_all(set, targets.drop_last()), targets.last())
    }
}

impl TopologySelection {
    pub open spec fn wf(self) -> bool {
        self matches TopologySelection::Spans(spans) ==> spans.wf()
    }

    /// The selected spans; none when a handle or nothing is selected.
    pub open spec fn span_set(self) -> Set<TopologySpanTarget> {
        match self {
            TopologySelection::Spans(spans) => spans@,
            _ => Set::empty(),
        }
    }

    /// Whether this is how a set of spans is selected: an empty one is no
    /// selection.
    pub open spec fn selects(self, spans: Set<TopologySpanTarget>) -> bool {
        if spans == Set::<TopologySpanTarget>::empty() {
            self is Nothing
        } else {
            self is Spans && self.span_set() == spans
        }
    }

    pub fn spans(&self) -> (result: Option<&SpanSet>)
        ensures
            match *self {
                TopologySelection::Spans(spans) => result == Some(&spans),
                _ => result is None,
            },
    {
        match self {
            TopologySelection::Spans(spans) => Some(spans),
            _ => None,
        }
    }

    pub fn select_handle(&mut self, handle: TopologyHandle)
        ensures
            *final(self) == TopologySelection::Handle(handle),
    {
        *self = TopologySelection::Handle(handle);
    }

    fn selected(&self) -> (result: SpanSet)
        requires
            self.wf(),
        ensures
            result.wf(),
            result@ == self.span_set(),
    {
        match self {
            TopologySelection::Spans(spans) => spans.copy(),
            _ => OrderedSet::new(),
        }
    }

    fn select(&mut self, spans: SpanSet)
        requires
            spans.wf(),
        ensures
            final(self).wf(),
            final(self).selects(spans@),
    {
        if spans.is_empty() {
            *self = TopologySelection::Nothing;
        } else {
            *self = TopologySelection::Spans(spans);
        }
    }

    /// A click on a span. Without shift it selects the clicked spans; with shift
    /// it toggles each of them.
    pub fn select_span(
        &mut self,
        geometry: &TopologyGeometry,
        target: TopologySpanTarget,
        shift: bool,
        whole_curve: bool,
    )
        requires
            old(self).wf(),
        ensures
            final(self).wf(),
            final(self).selects(
                if shift {
                    toggled_all(
                        old(self).span_set(),
                        clicked_targets(geometry.curves@, target, whole_curve),
                    )
                } else {
                    clicked_targets(geometry.curves@, target, whole_curve).to_set()
                },
            ),
    {
        let targets: Vec<TopologySpanTarget> = targets_of_click(
            &geometry.curves,
            target,
            whole_curve,
        );
        let mut selected: SpanSet = if shift {
            self.selected()
        } else {
            OrderedSet::new()
        };
        let ghost start = selected@;
        let mut index: usize = 0;
        assert(targets@.take(0).to_set() =~= Set::<TopologySpanTarget>::empty());
        while index < targets.len()
            invariant
                index <= targets@.len(),
                selected.wf(),
                shift ==> selected@ == toggled_all(start, targets@.take(index as int)),
                !shift ==> selected@ == targets@.take(index as int).to_set(),
            decreases targets@.len() - index,
        {
            let next: TopologySpanTarget = targets[index];
            proof {
                let shorter = targets@.take(index as int);
                let longer = targets@.take(index + 1);
                assert(longer.drop_last() =~= shorter);
                assert(longer =~= shorter.push(next));
                assert(longer.to_set() =~= shorter.to_set().insert(next)) by {
                    assert forall|x: TopologySpanTarget| longer.contains(x) == (shorter.contains(x)
                        || x == next) by {
                        if shorter.contains(x) {
                            let i = shorter.index_of(x);
                            assert(longer[i] == x);
                        }
                        assert(longer[index as int] == next);
                        if longer.contains(x) {
                            let i = longer.index_of(x);
                            if i < index {
                                assert(shorter[i] == x);
                            }
                        }
                    }
                }
            }
            let fresh: bool = selected.insert(next);
            if shift && !fresh {
                selected.remove(&next);
                proof {
                    let before = toggled_all(start, targets@.take(index as int));
                    assert(before.insert(next).remove(next) =~= before.remove(next));
                }
            }
            index = index + 1;
        }
        assert(targets@.take(index as int) =~= targets@);
        self.select(selected);
    }

    /// Adds the spans that meet at a junction to the selection.
    pub fn select_incident_spans(&mut self, geometry: &TopologyGeometry, vertex: u64)
        requires
            old(self).wf(),
            joints_sound(geometry.curves@),
        ensures
            final(self).wf(),
            final(self).selects(
                old(self).span_set().union(
                    incident(geometry.curves@, vertex).map(
                        |span: u64| TopologySpanTarget::Curve(span),
                    ),
                ),
            ),
    {
        let spans: OrderedSet<u64> = incident_spans(geometry, vertex);
        let mut selected: SpanSet = self.selected();
        let ghost start = selected@;
        let ghost as_target = |span: u64| TopologySpanTarget::Curve(span);
        let mut index: usize = 0;
        assert(selected@ =~= start.union(spans.values@.take(0).to_set().map(as_target)));
        while index < spans.values.len()
            invariant
                index <= spans.values@.len(),
                selected.wf(),
                as_target == (|span: u64| TopologySpanTarget::Curve(span)),
                selected@ == start.union(
                    spans.values@.take(index as int).to_set().map(as_target),
                ),
            decreases spans.values@.len() - index,
        {
            let span: u64 = spans.values[index];
            selected.insert(TopologySpanTarget::Curve(span));
            proof {
                let shorter = spans.values@.take(index as int);
                let longer = spans.values@.take(index + 1);
                let added = TopologySpanTarget::Curve(span);
                assert(start.union(shorter.to_set().map(as_target)).insert(added) =~= start.union(
                    longer.to_set().map(as_target),
                )) by {
                    assert forall|x: TopologySpanTarget| (#[trigger] longer.to_set().map(
                        as_target,
                    ).contains(x)) == (shorter.to_set().map(as_target).contains(x) || x
                        == added) by {
                        if shorter.to_set().map(as_target).contains(x) {
                            let id = choose|id: u64|
                                shorter.to_set().contains(id) && #[trigger] as_target(id) == x;
                            let i = shorter.index_of(id);
                            assert(longer[i] == id);
                            assert(longer.to_set().contains(id));
                            assert(as_target(id) == x);
                        }
                        if x == added {
                            assert(longer[index as int] == span);
                            assert(longer.to_set().contains(span));
                            assert(as_target(span) == x);
                        }
                        if longer.to_set().map(as_target).contains(x) {
                            let id = choose|id: u64|
                                longer.to_set().contains(id) && #[trigger] as_target(id) == x;
                            let i = longer.index_of(id);
                            if i < index {
                                assert(shorter[i] == id);
                                assert(shorter.to_set().contains(id));
                            }
                        }
                    }
                }
            }
            index = index + 1;
        }
        assert(spans.values@.take(index as int) =~= spans.values@);
        self.select(selected);
    }

    /// What a click on something does to the selection.
    pub fn apply_hit(
        &mut self,
        geometry: &TopologyGeometry,
        hit: TopologyHit,
        shift: bool,
        whole_curve: bool,
    )
        requires
            old(self).wf(),
        ensures
            final(self).wf(),
            match hit {
                TopologyHit::Handle { handle, .. } => *final(self) == TopologySelection::Handle(
                    handle,
                ),
                TopologyHit::Span { target, .. } => final(self).selects(
                    if shift {
                        toggled_all(
                            old(self).span_set(),
                            clicked_targets(geometry.curves@, target, whole_curve),
                        )
                    } else {
                        clicked_targets(geometry.curves@, target, whole_curve).to_set()
                    },
                ),
            },
    {
        match hit {
            TopologyHit::Handle { handle, .. } => self.select_handle(handle),
            TopologyHit::Span { target, .. } => self.select_span(
                geometry,
                target,
                shift,
                whole_curve,
            ),
        }
    }
}

fn holds_span(curve: &TopologyCurve, span: u64) -> (result: bool)
    ensures
        result == has_span(*curve, span),
{
    let mut index: usize = 0;
    while index < curve.spans.len()
        invariant
            index <= curve.spans@.len(),
            forall|i: int| 0 <= i < index ==> (#[trigger] curve.spans@[i]).id != span,
        decreases curve.spans@.len() - index,
    {
        if curve.spans[index].id == span {
            assert(curve.spans@[index as int].id == span);
            return true;
        }
        index = index + 1;
    }
    false
}

pub(crate) fn find_curve_of_span(curves: &Vec<TopologyCurve>, span: u64) -> (result: Option<usize>)
    ensures
        match result {
            Some(place) => place < curves@.len() && curve_of_span(curves@, span) == Some(
                curves@[place as int],
            ),
            None => curve_of_span(curves@, span) is None,
        },
{
    let holds = |curve: &TopologyCurve| -> (passes: bool)
        ensures
            passes == has_span(*curve, span),
        { holds_span(curve, span) };
    find(curves, holds, Ghost(|curve: TopologyCurve| has_span(curve, span)))
}

fn targets_of_click(
    curves: &Vec<TopologyCurve>,
    target: TopologySpanTarget,
    whole_curve: bool,
) -> (result: Vec<TopologySpanTarget>)
    ensures
        result@ == clicked_targets(curves@, target, whole_curve),
{
    let mut targets: Vec<TopologySpanTarget> = Vec::new();
    if !whole_curve {
        targets.push(target);
        assert(targets@ =~= seq![target]);
        return targets;
    }
    match target {
        TopologySpanTarget::Outer(_) => {
            targets.push(TopologySpanTarget::Outer(OuterSide::Bottom));
            targets.push(TopologySpanTarget::Outer(OuterSide::Right));
            targets.push(TopologySpanTarget::Outer(OuterSide::Top));
            targets.push(TopologySpanTarget::Outer(OuterSide::Left));
            assert(targets@ =~= all_sides());
        },
        TopologySpanTarget::Curve(span) => {
            if let Some(place) = find_curve_of_span(curves, span) {
                let curve: &TopologyCurve = &curves[place];
                let mut index: usize = 0;
                while index < curve.spans.len()
                    invariant
                        index <= curve.spans@.len(),
                        targets@ =~= spans_of(*curve).take(index as int),
                    decreases curve.spans@.len() - index,
                {
                    targets.push(TopologySpanTarget::Curve(curve.spans[index].id));
                    index = index + 1;
                }
                assert(targets@ =~= spans_of(*curve));
            }
        },
    }
    targets
}

/// Whether every node of a curve that has a vertex lies at the end of a span.
pub open spec fn joints_sound(curves: Seq<TopologyCurve>) -> bool {
    forall|i: int| 0 <= i < curves.len() ==> #[trigger] curve_joints_sound(curves[i])
}

pub open spec fn curve_joints_sound(curve: TopologyCurve) -> bool {
    forall|node: int|
        0 <= node < curve.nodes@.len() && (#[trigger] curve.nodes@[node]).vertex is Some
            ==> match curve.spline {
            CurveSpline::Open(_) => node <= curve.spans@.len(),
            CurveSpline::Closed(_) => curve.spans@.len() > 0,
        }
}

/// Whether a node is an end of a span. A closed curve goes round: there the first
/// node also ends the last span, and nodes beyond the spans count from the start
/// again.
pub open spec fn node_ends_span(curve: TopologyCurve, node: int, span: int) -> bool {
    let count = curve.spans@.len() as int;
    match curve.spline {
        CurveSpline::Open(_) => span == node || span == node - 1,
        CurveSpline::Closed(_) => span == node % count || span == (node + count - 1) % count,
    }
}

/// Whether a span of a curve has an end at a vertex.
pub open spec fn span_at_vertex(curve: TopologyCurve, vertex: u64, span: int) -> bool {
    &&& 0 <= span < curve.spans@.len()
    &&& exists|node: int|
        0 <= node < curve.nodes@.len() && (#[trigger] curve.nodes@[node]).vertex == Some(vertex)
            && node_ends_span(curve, node, span)
}

/// The spans that have an end at a vertex.
pub open spec fn incident(curves: Seq<TopologyCurve>, vertex: u64) -> Set<u64> {
    Set::new(|id: u64| is_incident(curves, vertex, id))
}

pub open spec fn is_incident(curves: Seq<TopologyCurve>, vertex: u64, id: u64) -> bool {
    exists|curve: int, span: int|
        0 <= curve < curves.len() && #[trigger] span_at_vertex(curves[curve], vertex, span)
            && curves[curve].spans@[span].id == id
}

/// Whether a span counts when only the first curves, and of the next one only
/// the first nodes, are looked at.
spec fn incident_so_far(
    curves: Seq<TopologyCurve>,
    vertex: u64,
    done: int,
    nodes: int,
    id: u64,
) -> bool {
    exists|curve: int, node: int, span: int|
        0 <= curve <= done && curve < curves.len() && 0 <= node < curves[curve].nodes@.len() && (
        curve < done || node < nodes) && (#[trigger] curves[curve].nodes@[node]).vertex == Some(
            vertex,
        ) && 0 <= span < curves[curve].spans@.len() && #[trigger] node_ends_span(
            curves[curve],
            node,
            span,
        ) && curves[curve].spans@[span].id == id
}

/// The place before another one on a closed curve.
proof fn previous_in_turn(place: int, count: int)
    requires
        0 <= place,
        0 < count,
    ensures
        0 <= place % count < count,
        (place + count - 1) % count == (if place % count > 0 {
            place % count - 1
        } else {
            count - 1
        }),
{
    let turns = place / count;
    let next = place % count;
    vstd::arithmetic::div_mod::lemma_fundamental_div_mod(place, count);
    vstd::arithmetic::div_mod::lemma_mod_bound(place, count);
    if next > 0 {
        assert(place + count - 1 == (turns + 1) * count + (next - 1)) by (nonlinear_arith)
            requires
                place == count * turns + next,
        ;
        vstd::arithmetic::div_mod::lemma_fundamental_div_mod_converse(
            place + count - 1,
            count,
            turns + 1,
            next - 1,
        );
    } else {
        assert(place + count - 1 == turns * count + (count - 1)) by (nonlinear_arith)
            requires
                place == count * turns + next,
                next == 0,
        ;
        vstd::arithmetic::div_mod::lemma_fundamental_div_mod_converse(
            place + count - 1,
            count,
            turns,
            count - 1,
        );
    }
}

pub fn incident_spans(geometry: &TopologyGeometry, vertex: u64) -> (result: OrderedSet<u64>)
    requires
        joints_sound(geometry.curves@),
    ensures
        result.wf(),
        result@ == incident(geometry.curves@, vertex),
{
    let curves: &Vec<TopologyCurve> = &geometry.curves;
    let mut found: OrderedSet<u64> = OrderedSet::new();
    let mut index: usize = 0;
    while index < curves.len()
        invariant
            index <= curves@.len(),
            joints_sound(curves@),
            found.wf(),
            forall|id: u64|
                found@.contains(id) == #[trigger] incident_so_far(
                    curves@,
                    vertex,
                    index as int,
                    0,
                    id,
                ),
        decreases curves@.len() - index,
    {
        let curve: &TopologyCurve = &curves[index];
        let open: bool = matches!(curve.spline, CurveSpline::Open(_));
        let count: usize = curve.spans.len();
        let mut node: usize = 0;
        while node < curve.nodes.len()
            invariant
                node <= curve.nodes@.len(),
                index < curves@.len(),
                *curve == curves@[index as int],
                open == (curve.spline is Open),
                count == curve.spans@.len(),
                joints_sound(curves@),
                found.wf(),
                forall|id: u64|
                    found@.contains(id) == #[trigger] incident_so_far(
                        curves@,
                        vertex,
                        index as int,
                        node as int,
                        id,
                    ),
            decreases curve.nodes@.len() - node,
        {
            assert(curve_joints_sound(curves@[index as int]));
            let ghost before = found@;
            let here: bool = match curve.nodes[node].vertex {
                Some(candidate) => candidate == vertex,
                None => false,
            };
            if here {
                if open {
                    if node > 0 {
                        found.insert(curve.spans[node - 1].id);
                    }
                    if node < count {
                        found.insert(curve.spans[node].id);
                    }
                } else {
                    let next: usize = node % count;
                    let last: usize = if next > 0 {
                        next - 1
                    } else {
                        count - 1
                    };
                    proof {
                        previous_in_turn(node as int, count as int);
                    }
                    found.insert(curve.spans[last].id);
                    found.insert(curve.spans[next].id);
                }
            }
            proof {
                if here && !open {
                    previous_in_turn(node as int, count as int);
                }
                assert forall|id: u64| found@.contains(id) == #[trigger] incident_so_far(
                    curves@,
                    vertex,
                    index as int,
                    node + 1,
                    id,
                ) by {
                    let earlier = incident_so_far(
                        curves@,
                        vertex,
                        index as int,
                        node as int,
                        id,
                    );
                    assert(before.contains(id) == earlier);
                    if found@.contains(id) && !before.contains(id) {
                        let span: int = if open {
                            if node < count && curve.spans@[node as int].id == id {
                                node as int
                            } else {
                                node - 1
                            }
                        } else if curve.spans@[node as int % count as int].id == id {
                            node as int % count as int
                        } else {
                            (node + count - 1) % (count as int)
                        };
                        assert(node_ends_span(curves@[index as int], node as int, span));
                        assert(curves@[index as int].nodes@[node as int].vertex == Some(vertex));
                    }
                    if incident_so_far(curves@, vertex, index as int, node + 1, id) && !earlier {
                        let (c, n, s) = choose|c: int, n: int, s: int|
                            0 <= c <= index && c < curves@.len() && 0 <= n
                                < curves@[c].nodes@.len() && (c < index || n < node + 1) && (
                            #[trigger] curves@[c].nodes@[n]).vertex == Some(vertex) && 0 <= s
                                < curves@[c].spans@.len() && #[trigger] node_ends_span(
                                curves@[c],
                                n,
                                s,
                            ) && curves@[c].spans@[s].id == id;
                        assert(c == index && n == node);
                        assert(here);
                    }
                }
            }
            node = node + 1;
        }
        proof {
            assert forall|id: u64| found@.contains(id) == #[trigger] incident_so_far(
                curves@,
                vertex,
                index + 1,
                0,
                id,
            ) by {
                assert(found@.contains(id) == incident_so_far(
                    curves@,
                    vertex,
                    index as int,
                    node as int,
                    id,
                ));
            }
        }
        index = index + 1;
    }
    proof {
        assert forall|id: u64| found@.contains(id) == #[trigger] is_incident(
            curves@,
            vertex,
            id,
        ) by {
            assert(found@.contains(id) == incident_so_far(curves@, vertex, index as int, 0, id));
            if is_incident(curves@, vertex, id) {
                let (c, s) = choose|c: int, s: int|
                    0 <= c < curves@.len() && #[trigger] span_at_vertex(curves@[c], vertex, s)
                        && curves@[c].spans@[s].id == id;
                let n = choose|n: int|
                    0 <= n < curves@[c].nodes@.len() && (#[trigger] curves@[c].nodes@[n]).vertex
                        == Some(vertex) && node_ends_span(curves@[c], n, s);
                assert(node_ends_span(curves@[c], n, s));
            }
            if incident_so_far(curves@, vertex, index as int, 0, id) {
                let (c, n, s) = choose|c: int, n: int, s: int|
                    0 <= c <= index && c < curves@.len() && 0 <= n < curves@[c].nodes@.len() && (c
                        < index || n < 0) && (#[trigger] curves@[c].nodes@[n]).vertex == Some(
                        vertex,
                    ) && 0 <= s < curves@[c].spans@.len() && #[trigger] node_ends_span(
                        curves@[c],
                        n,
                        s,
                    ) && curves@[c].spans@[s].id == id;
                assert(span_at_vertex(curves@[c], vertex, s));
            }
        }
        assert(found@ =~= incident(curves@, vertex));
    }
    found
}

/// Toggling a span twice leaves the selection as it was.
pub proof fn toggling_twice_changes_nothing(
    set: Set<TopologySpanTarget>,
    target: TopologySpanTarget,
)
    ensures
        toggled(toggled(set, target), target) == set,
{
    assert(toggled(toggled(set, target), target) =~= set);
}

/// Toggling targets that are all different swaps which of them are selected and
/// leaves the others alone.
pub proof fn toggling_swaps_the_targets(
    set: Set<TopologySpanTarget>,
    targets: Seq<TopologySpanTarget>,
    other: TopologySpanTarget,
)
    requires
        targets.no_duplicates(),
    ensures
        toggled_all(set, targets).contains(other) == (set.contains(other) != targets.contains(
            other,
        )),
    decreases targets.len(),
{
    if targets.len() > 0 {
        let front = targets.drop_last();
        assert(front.no_duplicates());
        toggling_swaps_the_targets(set, front, other);
        if targets.contains(other) {
            let i = targets.index_of(other);
            if i < front.len() {
                assert(front[i] == other);
                assert(other != targets.last());
            } else if front.contains(other) {
                let k = front.index_of(other);
                assert(targets[k] == targets[i]);
            }
        } else if front.contains(other) {
            let k = front.index_of(other);
            assert(targets[k] == other);
        }
        if other == targets.last() {
            assert(targets[targets.len() - 1] == other);
        }
    }
}

} // verus!
