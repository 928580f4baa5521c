//! Viewport pointer and keyboard handling: what one pass over a frame's input
//! does with the gesture in progress.
//!
//! A pass goes through the stages below in order. What the pointer lies on is
//! looked up by the application between the stages, on the view as the stage
//! before left it.

use crate::attachment::AttachmentHit;
use crate::gesture::{
    resize_domain, resized, DomainDrag, DragGesture, DrawGesture, GizmoPivot, GizmoScaleAxis,
    MaterialFrameGizmoHit, ProbeHit, SelectedFrame, TransformGizmoHit, ViewportModes,
};
use crate::hits::ScreenPoint;
use crate::labels::MarqueeOperation;
use crate::model::{DomainRect, MaterialFrame, OuterSide, TopologyGeometry};
use crate::ordered_set::OrderedSet;
use crate::sampling::{SampledTopologyGeometry, SampledTopologySpan};
use crate::scalar::{Point2, Scalar, INFINITE};
use crate::selection::{
    clicked_targets, toggled_all, SpanSet, TopologyHandle, TopologyHit, TopologySelection,
    TopologySpanTarget,
};
use vstd::prelude::*;

verus! {

/// Touch input: whether fingers are down, whether two of them navigate, and
/// whether what is left of such a gesture is still to be ignored.
#[derive(Clone, Copy, Debug, PartialEq, Eq, Structural)]
pub struct TouchState {
    pub active: bool,
    pub navigation: bool,
    pub suppress_click: bool,
}

/// How a pass begins.
#[derive(Clone, Copy, Debug, PartialEq, Eq, Structural)]
pub enum Opening {
    /// Two fingers pan and zoom, and nothing else happens. Where they only now
    /// took over, what was going on is cancelled first.
    Navigate { cancel: bool },
    Ignore,
    Proceed,
}

/// `gesture` is there while several fingers are down, and says whether their
/// middle lies in the viewport.
pub open spec fn opened(
    touch: TouchState,
    touching: bool,
    gesture: Option<bool>,
) -> (Opening, TouchState) {
    let seen = TouchState { active: touching, ..touch };
    if gesture matches Some(inside) && (touch.navigation || inside) {
        (
            Opening::Navigate { cancel: !touch.navigation },
            TouchState {
                navigation: true,
                suppress_click: touch.suppress_click || !touch.navigation,
                ..seen
            },
        )
    } else if touch.navigation {
        (Opening::Ignore, TouchState { navigation: touching, ..seen })
    } else if touch.suppress_click {
        (Opening::Ignore, TouchState { suppress_click: touching, ..seen })
    } else {
        (Opening::Proceed, seen)
    }
}

pub fn open_pass(touch: TouchState, touching: bool, gesture: Option<bool>) -> (result: (
    Opening,
    TouchState,
))
    ensures
        result == opened(touch, touching, gesture),
{
    let mut after: TouchState = touch;
    after.active = touching;
    if let Some(inside) = gesture {
        if touch.navigation || inside {
            if !touch.navigation {
                after.navigation = true;
                after.suppress_click = true;
            }
            return (Opening::Navigate { cancel: !touch.navigation }, after);
        }
    }
    if touch.navigation {
        if !touching {
            after.navigation = false;
        }
        return (Opening::Ignore, after);
    }
    if touch.suppress_click {
        if !touching {
            after.suppress_click = false;
        }
        return (Opening::Ignore, after);
    }
    (Opening::Proceed, after)
}

/// Nothing of a two-finger gesture becomes a click: once two fingers navigate,
/// passes are ignored until every finger has been lifted, and one more after
/// that.
pub proof fn navigation_never_becomes_a_click(
    touch: TouchState,
    touching: bool,
    gesture: Option<bool>,
)
    ensures
        opened(touch, touching, gesture).0 is Proceed ==> !touch.navigation
            && !touch.suppress_click,
        opened(touch, touching, gesture).0 is Navigate && !touch.navigation ==> opened(
            touch,
            touching,
            gesture,
        ).1.suppress_click,
        touch.suppress_click && (touching || touch.navigation) ==> opened(
            touch,
            touching,
            gesture,
        ).1.suppress_click,
{
}

/// The keys and buttons of a frame.
#[derive(Clone, Copy, Debug, PartialEq, Eq, Structural)]
pub struct FrameInput {
    /// A text field takes the keyboard, and did so in the frame before.
    pub typing: bool,
    pub typed_before: bool,
    /// `S` without modifiers.
    pub switch_key: bool,
    pub escape: bool,
    pub enter: bool,
    pub backspace: bool,
    pub delete: bool,
    /// The pointer has a place, and the press did.
    pub pointer: bool,
    pub press: bool,
    pub clicked: bool,
    pub primary_clicked: bool,
    pub double_clicked: bool,
    pub drag_started: bool,
    pub dragged: bool,
    pub drag_stopped: bool,
    pub shift: bool,
    pub command: bool,
}

/// Whether the frame asks for the material switch.
pub fn switches_material(input: FrameInput) -> (result: bool)
    ensures
        result == (!input.typing && input.switch_key),
{
    !input.typing && input.switch_key
}

/// Where a pass goes once the view has been moved.
#[derive(Clone, Copy, Debug, PartialEq, Eq, Structural)]
pub enum Route {
    /// Everything going on is cancelled.
    Cancel,
    /// The survivor question owns the viewport: a click picks.
    PickSurvivor,
    /// The survivor question owns the viewport, and this frame is not a pick.
    Wait,
    /// A double click, which goes on as `ClickRoute` where it meets nothing.
    DoubleClick,
    /// On to `ClickRoute`.
    Proceed,
}

pub open spec fn routed(modes: ViewportModes, input: FrameInput) -> Route {
    if !input.typing && !input.typed_before && input.escape {
        Route::Cancel
    } else if modes.merging {
        if input.primary_clicked && input.pointer {
            Route::PickSurvivor
        } else {
            Route::Wait
        }
    } else if input.double_clicked && input.pointer {
        Route::DoubleClick
    } else {
        Route::Proceed
    }
}

/// The first Escape leaves a text field; only a second one reaches the viewport.
pub fn route(modes: ViewportModes, input: FrameInput) -> (result: Route)
    ensures
        result == routed(modes, input),
{
    if !input.typing && !input.typed_before && input.escape {
        return Route::Cancel;
    }
    if modes.merging {
        if input.primary_clicked && input.pointer {
            return Route::PickSurvivor;
        }
        return Route::Wait;
    }
    if input.double_clicked && input.pointer {
        Route::DoubleClick
    } else {
        Route::Proceed
    }
}

/// What a double click does.
#[derive(Clone, Copy, Debug, PartialEq, Eq, Structural)]
pub enum DoubleClick {
    OpenProbe(u64),
    OpenFarField,
    InsertControl { curve: u64, parameter: Scalar },
    Nothing,
}

/// A place on a curve near the pointer.
#[derive(Clone, Copy, Debug, PartialEq, Eq, Structural)]
pub struct CurveCandidate {
    pub curve: u64,
    pub parameter: Scalar,
    pub distance: Scalar,
}

/// The nearest candidate in reach; a later one has to be strictly nearer.
pub open spec fn closest(candidates: Seq<CurveCandidate>, tolerance: Scalar) -> Option<
    CurveCandidate,
>
    decreases candidates.len(),
{
    if candidates.len() == 0 {
        None
    } else {
        let best = closest(candidates.drop_last(), tolerance);
        let next = candidates.last();
        if next.distance.le_num(tolerance) && (best matches Some(best) ==> next.distance.lt_num(
            best.distance,
        )) {
            Some(next)
        } else {
            best
        }
    }
}

/// The nearest point of a segment of a span: its parameter and how far off it
/// is.
#[derive(Clone, Copy, Debug, PartialEq, Eq, Structural)]
pub struct SegmentPlace {
    pub parameter: Scalar,
    pub distance: Scalar,
}

/// The candidates of one span. A side of the domain belongs to no curve and has
/// none.
pub open spec fn span_candidates(curve: Option<u64>, places: Seq<SegmentPlace>) -> Seq<
    CurveCandidate,
> {
    match curve {
        Some(curve) => places.map_values(
            |place: SegmentPlace|
                CurveCandidate { curve, parameter: place.parameter, distance: place.distance },
        ),
        None => Seq::empty(),
    }
}

/// The candidates of all spans, in the order in which they were sampled.
pub open spec fn curve_candidates(
    spans: Seq<SampledTopologySpan>,
    places: Seq<Vec<SegmentPlace>>,
) -> Seq<CurveCandidate>
    decreases spans.len(),
{
    if spans.len() == 0 {
        Seq::empty()
    } else {
        curve_candidates(spans.drop_last(), places.drop_last()) + span_candidates(
            spans.last().curve,
            places.last()@,
        )
    }
}

fn list_candidates(spans: &Vec<SampledTopologySpan>, places: &Vec<Vec<SegmentPlace>>) -> (result:
    Vec<CurveCandidate>)
    requires
        places@.len() == spans@.len(),
    ensures
        result@ == curve_candidates(spans@, places@),
{
    let mut candidates: Vec<CurveCandidate> = Vec::new();
    let mut index: usize = 0;
    while index < spans.len()
        invariant
            index <= spans@.len(),
            places@.len() == spans@.len(),
            candidates@ == curve_candidates(
                spans@.take(index as int),
                places@.take(index as int),
            ),
        decreases spans@.len() - index,
    {
        let ghost before = candidates@;
        if let Some(curve) = spans[index].curve {
            let of_span: &Vec<SegmentPlace> = &places[index];
            let mut segment: usize = 0;
            while segment < of_span.len()
                invariant
                    segment <= of_span@.len(),
                    candidates@ =~= before + span_candidates(Some(curve), of_span@).take(
                        segment as int,
                    ),
                decreases of_span@.len() - segment,
            {
                let place: SegmentPlace = of_span[segment];
                candidates.push(
                    CurveCandidate { curve, parameter: place.parameter, distance: place.distance },
                );
                segment = segment + 1;
            }
        }
        proof {
            assert(spans@.take(index + 1).drop_last() =~= spans@.take(index as int));
            assert(places@.take(index + 1).drop_last() =~= places@.take(index as int));
            assert(candidates@ =~= before + span_candidates(
                spans@[index as int].curve,
                places@[index as int]@,
            ));
        }
        index = index + 1;
    }
    assert(spans@.take(index as int) =~= spans@);
    assert(places@.take(index as int) =~= places@);
    candidates
}

/// The curve and the parameter under the pointer. `places` are the points of the
/// segments of each span that are nearest to it.
pub fn closest_curve_parameter(
    sampled: &SampledTopologyGeometry,
    places: &Vec<Vec<SegmentPlace>>,
    tolerance: Scalar,
) -> (result: Option<CurveCandidate>)
    requires
        places@.len() == sampled.spans@.len(),
    ensures
        result == closest(curve_candidates(sampled.spans@, places@), tolerance),
{
    closest_candidate(&list_candidates(&sampled.spans, places), tolerance)
}

fn closest_candidate(candidates: &Vec<CurveCandidate>, tolerance: Scalar) -> (result: Option<
    CurveCandidate,
>)
    ensures
        result == closest(candidates@, tolerance),
{
    let mut best: Option<CurveCandidate> = None;
    let mut index: usize = 0;
    while index < candidates.len()
        invariant
            index <= candidates@.len(),
            best == closest(candidates@.take(index as int), tolerance),
        decreases candidates@.len() - index,
    {
        let next: CurveCandidate = candidates[index];
        assert(candidates@.take(index + 1).drop_last() =~= candidates@.take(index as int));
        if next.distance.at_most(tolerance) {
            let nearer: bool = match best {
                Some(held) => next.distance.less(held.distance),
                None => true,
            };
            if nearer {
                best = Some(next);
            }
        }
        index = index + 1;
    }
    assert(candidates@.take(index as int) =~= candidates@);
    best
}

/// What is found is in reach, and nothing listed is nearer.
pub proof fn the_closest_is_in_reach(candidates: Seq<CurveCandidate>, tolerance: Scalar)
    ensures
        match closest(candidates, tolerance) {
            Some(found) => {
                &&& candidates.contains(found)
                &&& found.distance.le_num(tolerance)
                &&& forall|i: int|
                    0 <= i < candidates.len() ==> !(#[trigger] candidates[i]).distance.lt_num(
                        found.distance,
                    )
            },
            None => forall|i: int|
                0 <= i < candidates.len() ==> !(#[trigger] candidates[i]).distance.le_num(
                    tolerance,
                ),
        },
    decreases candidates.len(),
{
    if candidates.len() > 0 {
        let front = candidates.drop_last();
        the_closest_is_in_reach(front, tolerance);
        assert forall|i: int| 0 <= i < front.len() implies #[trigger] candidates[i] == front[i] by {}
        assert(candidates[candidates.len() - 1] == candidates.last());
        if let Some(found) = closest(front, tolerance) {
            let i = front.index_of(found);
            assert(candidates[i] == found);
        }
    }
}

/// Nine: how near the contour of the far field a double click opens it.
pub const CONTOUR_REACH_BITS: u64 = 0x4022000000000000;

/// Whether a double click meets the contour of the far field. `near` says that
/// it lies within the widened contour; the distances are those to its sides.
pub fn far_field_contour_hit(
    enabled: bool,
    near: bool,
    left: Scalar,
    right: Scalar,
    top: Scalar,
    bottom: Scalar,
) -> (result: bool)
    ensures
        result == (enabled && near && (Scalar { bits: INFINITE }).smaller_num(left).smaller_num(right).smaller_num(
            top,
        ).smaller_num(bottom).le_num(Scalar { bits: CONTOUR_REACH_BITS })),
{
    let nearest: Scalar = Scalar { bits: INFINITE }.smaller(left).smaller(right).smaller(
        top,
    ).smaller(bottom);
    enabled && near && nearest.at_most(Scalar { bits: CONTOUR_REACH_BITS })
}

/// What a double click meets, the first of: a probe, the far field's contour, a
/// curve.
pub fn double_click(
    probe: Option<ProbeHit>,
    far_field: bool,
    curve: Option<CurveCandidate>,
) -> (result: DoubleClick)
    ensures
        result == match (probe, curve) {
            (Some(hit), _) => DoubleClick::OpenProbe(hit.probe()),
            (None, found) => if far_field {
                DoubleClick::OpenFarField
            } else {
                match found {
                    Some(candidate) => DoubleClick::InsertControl {
                        curve: candidate.curve,
                        parameter: candidate.parameter,
                    },
                    None => DoubleClick::Nothing,
                }
            },
        },
{
    match probe {
        Some(hit) => DoubleClick::OpenProbe(hit.id()),
        None => if far_field {
            DoubleClick::OpenFarField
        } else {
            match curve {
                Some(candidate) => DoubleClick::InsertControl {
                    curve: candidate.curve,
                    parameter: candidate.parameter,
                },
                None => DoubleClick::Nothing,
            }
        },
    }
}

/// What a frame does with the tool at hand.
#[derive(Clone, Copy, Debug, PartialEq, Eq, Structural)]
pub enum ClickRoute {
    /// The curve being drawn takes a point, gives one up, is finished.
    Draw { place: bool, undo: bool, finish: bool },
    PlacePulse,
    PlaceProbe,
    Ignore,
    /// No tool: the geometry itself is worked on.
    Manipulate,
}

pub open spec fn click_routed(modes: ViewportModes, input: FrameInput) -> ClickRoute {
    if modes.drawing {
        ClickRoute::Draw {
            place: input.primary_clicked && input.pointer,
            undo: !input.typing && input.backspace,
            finish: !input.typing && input.enter,
        }
    } else if modes.pulse && input.clicked {
        if input.pointer {
            ClickRoute::PlacePulse
        } else {
            ClickRoute::Ignore
        }
    } else if modes.placing_probe && input.clicked {
        if input.pointer {
            ClickRoute::PlaceProbe
        } else {
            ClickRoute::Ignore
        }
    } else {
        ClickRoute::Manipulate
    }
}

pub fn click_route(modes: ViewportModes, input: FrameInput) -> (result: ClickRoute)
    ensures
        result == click_routed(modes, input),
{
    if modes.drawing {
        return ClickRoute::Draw {
            place: input.primary_clicked && input.pointer,
            undo: !input.typing && input.backspace,
            finish: !input.typing && input.enter,
        };
    }
    if modes.pulse && input.clicked {
        return if input.pointer {
            ClickRoute::PlacePulse
        } else {
            ClickRoute::Ignore
        };
    }
    if modes.placing_probe && input.clicked {
        return if input.pointer {
            ClickRoute::PlaceProbe
        } else {
            ClickRoute::Ignore
        };
    }
    ClickRoute::Manipulate
}

/// Gives up the last point of the curve being drawn.
pub fn undo_draw_point(draw: &mut DrawGesture)
    ensures
        final(draw).tool == old(draw).tool,
        final(draw).points@ == if old(draw).points@.len() == 0 {
            old(draw).points@
        } else {
            old(draw).points@.drop_last()
        },
        final(draw).attachments@ == if old(draw).attachments@.len() == 0 {
            old(draw).attachments@
        } else {
            old(draw).attachments@.drop_last()
        },
{
    let _ = draw.points.pop();
    let _ = draw.attachments.pop();
}

/// The selection and the gesture that works on it.
#[derive(Debug)]
pub struct Interaction {
    pub selection: TopologySelection,
    pub selected_probe: Option<u64>,
    pub drag: Option<DragGesture>,
    pub gizmo_pivot: Option<GizmoPivot>,
    /// The revision that the shown samples were taken at.
    pub sampled_revision: u64,
    pub message: String,
}

/// What is left to do when everything going on was cancelled.
#[derive(Debug)]
pub struct Cancelled {
    /// The spans to select again.
    pub selected: Option<SpanSet>,
    /// Whether the open edit is cancelled too.
    pub edit: bool,
}

/// What a press landed on. A press is resolved in the order of the fields.
#[derive(Clone, Copy, Debug, PartialEq, Eq, Structural)]
pub struct PressHits {
    pub material_frame: Option<MaterialFrameGizmoHit>,
    pub frame: Option<SelectedFrame>,
    pub gizmo: Option<TransformGizmoHit>,
    /// The enabled point source.
    pub source: bool,
    pub probe: Option<ProbeHit>,
    /// Whether the document still has that probe.
    pub probe_known: bool,
    pub corner: Option<usize>,
    pub geometry: Option<TopologyHit>,
    /// Whether the hit drags the selection it lies in.
    pub inside_selection: bool,
    /// The loose end of an open curve that a hit control is.
    pub loose_end: Option<usize>,
}

/// What is measured at a press.
#[derive(Clone, Copy, Debug, PartialEq, Eq, Structural)]
pub struct PressMeasures {
    pub screen: ScreenPoint,
    pub world: Point2,
    /// The angle of the press about the origin of the material frame.
    pub frame_angle: Scalar,
    pub gizmo_pivot: Point2,
    /// The angle of the pointer about the pivot, its distance along each axis of
    /// the gizmo, and the pivot as seen from it.
    pub pivot_angle: Scalar,
    pub scale_distance: Scalar,
    pub pivot_offset: Point2,
    pub operation: MarqueeOperation,
}

/// What a press starts.
#[derive(Clone, Copy, Debug, PartialEq, Eq, Structural)]
pub struct PressOutcome {
    /// The document enters an edit.
    pub begins_edit: bool,
    /// The pass is over.
    pub over: bool,
    /// The drag of a span selection is to be begun with its pivot.
    pub needs_pivot: bool,
}

/// The two sides of the domain that meet at a corner.
pub open spec fn corner_sides(index: usize) -> Set<TopologySpanTarget> {
    let first = if index == 0 {
        OuterSide::Bottom
    } else if index == 1 {
        OuterSide::Right
    } else if index == 2 {
        OuterSide::Top
    } else {
        OuterSide::Left
    };
    let second = if index == 0 {
        OuterSide::Left
    } else if index == 1 {
        OuterSide::Bottom
    } else if index == 2 {
        OuterSide::Right
    } else {
        OuterSide::Top
    };
    Set::empty().insert(TopologySpanTarget::Outer(first)).insert(TopologySpanTarget::Outer(second))
}

fn sides_at_corner(index: usize) -> (result: SpanSet)
    ensures
        result.wf(),
        result@ == corner_sides(index),
{
    let first: OuterSide = if index == 0 {
        OuterSide::Bottom
    } else if index == 1 {
        OuterSide::Right
    } else if index == 2 {
        OuterSide::Top
    } else {
        OuterSide::Left
    };
    let second: OuterSide = if index == 0 {
        OuterSide::Left
    } else if index == 1 {
        OuterSide::Bottom
    } else if index == 2 {
        OuterSide::Right
    } else {
        OuterSide::Top
    };
    let mut sides: SpanSet = OrderedSet::new();
    sides.insert(TopologySpanTarget::Outer(first));
    sides.insert(TopologySpanTarget::Outer(second));
    sides
}

/// What a press resolves to.
#[derive(Clone, Copy, Debug, PartialEq, Eq, Structural)]
pub enum Grab {
    MaterialFrame { hit: MaterialFrameGizmoHit, frame: SelectedFrame },
    Gizmo(TransformGizmoHit),
    Source,
    Probe(ProbeHit),
    Corner(usize),
    Geometry(TopologyHit),
    Marquee,
}

/// The order in which what lies under a press is tried. A corner of the domain
/// outranks the two sides that meet there.
pub open spec fn grabbed(hits: PressHits) -> Grab {
    if hits.material_frame is Some && hits.frame is Some {
        Grab::MaterialFrame { hit: hits.material_frame->0, frame: hits.frame->0 }
    } else if hits.gizmo is Some {
        Grab::Gizmo(hits.gizmo->0)
    } else if hits.source {
        Grab::Source
    } else if hits.probe is Some {
        Grab::Probe(hits.probe->0)
    } else if hits.corner is Some {
        Grab::Corner(hits.corner->0)
    } else if hits.geometry is Some {
        Grab::Geometry(hits.geometry->0)
    } else {
        Grab::Marquee
    }
}

pub fn grab(hits: PressHits) -> (result: Grab)
    ensures
        result == grabbed(hits),
{
    if let (Some(hit), Some(frame)) = (hits.material_frame, hits.frame) {
        return Grab::MaterialFrame { hit, frame };
    }
    if let Some(hit) = hits.gizmo {
        return Grab::Gizmo(hit);
    }
    if hits.source {
        return Grab::Source;
    }
    if let Some(hit) = hits.probe {
        return Grab::Probe(hit);
    }
    if let Some(index) = hits.corner {
        return Grab::Corner(index);
    }
    match hits.geometry {
        Some(hit) => Grab::Geometry(hit),
        None => Grab::Marquee,
    }
}

/// The side of the domain that a plain drag resizes by.
pub open spec fn resized_side(hit: TopologyHit, shift: bool, command: bool) -> Option<OuterSide> {
    match hit {
        TopologyHit::Span { target: TopologySpanTarget::Outer(side), .. } if !shift
            && !command => Some(side),
        _ => None,
    }
}

/// Whether two pivots are the same.
pub open spec fn same_pivot(left: Option<GizmoPivot>, right: Option<GizmoPivot>) -> bool {
    match (left, right) {
        (Some(left), Some(right)) => left.point == right.point && left.selection.values@
            == right.selection.values@,
        (None, None) => true,
        _ => false,
    }
}

pub open spec fn pivot_wf(pivot: Option<GizmoPivot>) -> bool {
    pivot matches Some(pivot) ==> pivot.selection.wf()
}

fn copy_pivot(pivot: &Option<GizmoPivot>) -> (result: Option<GizmoPivot>)
    ensures
        same_pivot(result, *pivot),
        pivot_wf(*pivot) ==> pivot_wf(result),
{
    match pivot {
        Some(pivot) => Some(
            GizmoPivot { selection: pivot.selection.copy(), point: pivot.point },
        ),
        None => None,
    }
}

fn same_spans(left: &SpanSet, right: &SpanSet) -> (result: bool)
    requires
        left.wf(),
        right.wf(),
    ensures
        result == (left@ == right@),
{
    let mut index: usize = 0;
    if left.values.len() != right.values.len() {
        proof {
            if left@ == right@ {
                crate::ordered_set::equal_sets_have_equal_values(left.values@, right.values@);
            }
        }
        return false;
    }
    while index < left.values.len()
        invariant
            left.wf(),
            right.wf(),
            index <= left.values@.len(),
            left.values@.len() == right.values@.len(),
            forall|i: int| 0 <= i < index ==> left.values@[i] == right.values@[i],
        decreases left.values@.len() - index,
    {
        if left.values[index] != right.values[index] {
            proof {
                if left@ == right@ {
                    crate::ordered_set::equal_sets_have_equal_values(left.values@, right.values@);
                }
            }
            return false;
        }
        index = index + 1;
    }
    assert(left.values@ =~= right.values@);
    true
}

/// The selection after a hit was applied to it.
pub open spec fn hit_applied(
    before: TopologySelection,
    after: TopologySelection,
    geometry: TopologyGeometry,
    hit: TopologyHit,
    shift: bool,
    command: bool,
) -> bool {
    match hit {
        TopologyHit::Handle { handle, .. } => after == TopologySelection::Handle(handle),
        TopologyHit::Span { target, .. } => after.selects(
            if shift {
                toggled_all(
                    before.span_set(),
                    clicked_targets(geometry.curves@, target, command),
                )
            } else {
                clicked_targets(geometry.curves@, target, command).to_set()
            },
        ),
    }
}

impl Interaction {
    pub open spec fn wf(self) -> bool {
        &&& self.selection.wf()
        &&& pivot_wf(self.gizmo_pivot)
        &&& match self.drag {
            Some(DragGesture::Marquee { base, .. }) => base.wf(),
            Some(DragGesture::Spans { gizmo_before, .. }) => pivot_wf(gizmo_before),
            Some(DragGesture::Pivot { previous, .. }) => pivot_wf(previous),
            _ => true,
        }
    }

    pub fn invalidate_samples(&mut self)
        ensures
            *final(self) == (Interaction { sampled_revision: u64::MAX, ..*old(self) }),
    {
        self.sampled_revision = u64::MAX;
    }

    /// Whether the geometry has to be sampled again: it changed since it was
    /// sampled, or the scale did.
    pub fn needs_samples(&self, revision: u64, sampled_scale: Scalar, scale: Scalar) -> (result: bool)
        ensures
            result == !(self.sampled_revision == revision && sampled_scale.eq_num(scale)),
    {
        !(self.sampled_revision == revision && sampled_scale.equals(scale))
    }

    /// Notes the revision that was sampled. Geometry that could not be sampled is
    /// tried again.
    pub fn samples_taken(&mut self, revision: u64, taken: bool)
        ensures
            *final(self) == (Interaction {
                sampled_revision: if taken {
                    revision
                } else {
                    old(self).sampled_revision
                },
                ..*old(self)
            }),
    {
        if taken {
            self.sampled_revision = revision;
        }
    }

    pub fn notify(&mut self, message: String)
        ensures
            *final(self) == (Interaction { message, ..*old(self) }),
    {
        self.message = message;
    }

    /// Ends the gesture without keeping what it did: a moved pivot goes back,
    /// and a marquee gives back the selection it started from, which is
    /// returned. The modes that own the viewport end with it, and so does an edit
    /// that is open.
    pub fn cancel_interaction(&mut self, modes: &mut ViewportModes, editing: bool) -> (result:
        Cancelled)
        requires
            old(self).wf(),
        ensures
            final(self).wf(),
            final(self).drag is None,
            final(self).sampled_revision == u64::MAX,
            final(self).selection == old(self).selection,
            final(self).selected_probe == old(self).selected_probe,
            final(self).message == old(self).message,
            *final(modes) == (ViewportModes {
                merging: false,
                drawing: false,
                pulse: false,
                placing_probe: false,
            }),
            result.edit == editing,
            match old(self).drag {
                Some(DragGesture::Pivot { previous, .. }) => final(self).gizmo_pivot == previous
                    && result.selected is None,
                Some(DragGesture::Spans { gizmo_before, .. }) => final(self).gizmo_pivot
                    == gizmo_before && result.selected is None,
                Some(DragGesture::Marquee { base, .. }) => {
                    &&& final(self).gizmo_pivot == old(self).gizmo_pivot
                    &&& result.selected == Some(base)
                },
                _ => {
                    &&& final(self).gizmo_pivot == old(self).gizmo_pivot
                    &&& result.selected is None
                },
            },
    {
        self.sampled_revision = u64::MAX;
        *modes = ViewportModes {
            merging: false,
            drawing: false,
            pulse: false,
            placing_probe: false,
        };
        let selected: Option<SpanSet> = match self.drag.take() {
            Some(DragGesture::Pivot { previous, .. }) => {
                self.gizmo_pivot = previous;
                None
            },
            Some(DragGesture::Spans { gizmo_before, .. }) => {
                self.gizmo_pivot = gizmo_before;
                None
            },
            Some(DragGesture::Marquee { base, .. }) => Some(base),
            _ => None,
        };
        Cancelled { selected, edit: editing }
    }

    /// Whether this is what a press makes of what was there before.
    pub open spec fn pressed(
        self,
        before: Self,
        geometry: TopologyGeometry,
        hits: PressHits,
        measures: PressMeasures,
        input: FrameInput,
        outcome: PressOutcome,
    ) -> bool {
        let kept = PressOutcome { begins_edit: true, over: true, needs_pivot: false };
        let same_choice = self.selection == before.selection && self.selected_probe
            == before.selected_probe;
        match grabbed(hits) {
            Grab::MaterialFrame { hit, frame } => {
                &&& outcome == kept
                &&& same_choice
                &&& self.drag == Some(
                    DragGesture::MaterialFrame {
                        region: frame.region,
                        start: frame.frame,
                        hit,
                        grab: match hit {
                            MaterialFrameGizmoHit::Origin => Scalar::zero_num(),
                            MaterialFrameGizmoHit::Rotate => measures.frame_angle,
                        },
                    },
                )
            },
            Grab::Gizmo(TransformGizmoHit::Pivot) => {
                &&& outcome == (PressOutcome { begins_edit: false, ..kept })
                &&& same_choice
                &&& self.drag matches Some(DragGesture::Pivot { previous, offset }) && same_pivot(
                    previous,
                    before.gizmo_pivot,
                ) && offset == measures.pivot_offset
            },
            Grab::Gizmo(TransformGizmoHit::Rotate) => {
                &&& outcome == kept
                &&& same_choice
                &&& self.drag == Some(
                    DragGesture::Rotate {
                        pivot: measures.gizmo_pivot,
                        start_angle: measures.pivot_angle,
                    },
                )
            },
            Grab::Gizmo(TransformGizmoHit::Scale(axis)) => {
                &&& outcome == kept
                &&& same_choice
                &&& self.drag == Some(
                    DragGesture::Scale {
                        axis,
                        pivot: measures.gizmo_pivot,
                        start_distance: measures.scale_distance,
                    },
                )
            },
            Grab::Source => {
                &&& outcome == kept
                &&& same_choice
                &&& self.drag == Some(DragGesture::Source)
            },
            Grab::Probe(hit) => {
                let drags = hit.can_drag() && hits.probe_known;
                &&& outcome == (PressOutcome { begins_edit: drags, ..kept })
                &&& self.selected_probe == Some(hit.probe())
                &&& self.selection is Nothing
                &&& self.drag == if drags {
                    Some(DragGesture::Probe { hit, grab: measures.world })
                } else {
                    before.drag
                }
            },
            Grab::Corner(index) => {
                &&& outcome == kept
                &&& self.selected_probe is None
                &&& self.selection is Spans && self.selection.span_set() == corner_sides(index)
                &&& self.drag == Some(
                    DragGesture::Domain {
                        drag: DomainDrag::Corner { index, start: geometry.domain },
                    },
                )
            },
            Grab::Geometry(hit) => {
                &&& self.selected_probe is None
                &&& if hits.inside_selection {
                    self.selection == before.selection
                } else {
                    hit_applied(
                        before.selection,
                        self.selection,
                        geometry,
                        hit,
                        input.shift,
                        input.command,
                    )
                }
                &&& self.dragged_hit(before, geometry, hit, hits.loose_end, input, outcome)
            },
            Grab::Marquee => {
                &&& outcome == (PressOutcome {
                    begins_edit: false,
                    over: false,
                    needs_pivot: false,
                })
                &&& same_choice
                &&& self.drag matches Some(
                    DragGesture::Marquee { start, current, base, operation },
                ) && start == measures.screen && current == measures.screen && base@
                    == before.selection.span_set() && operation == measures.operation
            },
        }
    }

    /// The gesture that a hit on the geometry starts: a plain drag of a side
    /// resizes the domain, a loose end moves by itself, a handle moves, and a
    /// span moves the selection.
    pub open spec fn dragged_hit(
        self,
        before: Self,
        geometry: TopologyGeometry,
        hit: TopologyHit,
        loose_end: Option<usize>,
        input: FrameInput,
        outcome: PressOutcome,
    ) -> bool {
        let begun = PressOutcome { begins_edit: true, over: false, needs_pivot: false };
        match (resized_side(hit, input.shift, input.command), hit) {
            (Some(side), _) => {
                &&& outcome == begun
                &&& self.drag == Some(
                    DragGesture::Domain { drag: DomainDrag::Side { side, start: geometry.domain } },
                )
            },
            (None, TopologyHit::Handle { handle, .. }) => {
                &&& outcome == begun
                &&& self.drag == match (handle, loose_end) {
                    (TopologyHandle::Control { curve, .. }, Some(node)) => Some(
                        DragGesture::Endpoint { curve, node, snap: None },
                    ),
                    _ => Some(DragGesture::Handle { handle }),
                }
            },
            (None, TopologyHit::Span { .. }) => {
                &&& outcome == (PressOutcome { needs_pivot: true, ..begun })
                &&& self.drag == before.drag
            },
        }
    }

    /// Starts what a press starts.
    pub fn press(
        &mut self,
        geometry: &TopologyGeometry,
        hits: PressHits,
        measures: PressMeasures,
        input: FrameInput,
    ) -> (result: PressOutcome)
        requires
            old(self).wf(),
        ensures
            final(self).wf(),
            final(self).pressed(*old(self), *geometry, hits, measures, input, result),
            final(self).gizmo_pivot == old(self).gizmo_pivot,
            final(self).sampled_revision == old(self).sampled_revision,
            final(self).message == old(self).message,
    {
        match grab(hits) {
            Grab::MaterialFrame { hit, frame } => {
                let angle: Scalar = match hit {
                    MaterialFrameGizmoHit::Origin => Scalar::zero(),
                    MaterialFrameGizmoHit::Rotate => measures.frame_angle,
                };
                self.drag = Some(
                    DragGesture::MaterialFrame {
                        region: frame.region,
                        start: frame.frame,
                        hit,
                        grab: angle,
                    },
                );
                PressOutcome { begins_edit: true, over: true, needs_pivot: false }
            },
            Grab::Gizmo(TransformGizmoHit::Pivot) => {
                let previous: Option<GizmoPivot> = copy_pivot(&self.gizmo_pivot);
                self.drag = Some(DragGesture::Pivot { previous, offset: measures.pivot_offset });
                PressOutcome { begins_edit: false, over: true, needs_pivot: false }
            },
            Grab::Gizmo(TransformGizmoHit::Rotate) => {
                self.drag = Some(
                    DragGesture::Rotate {
                        pivot: measures.gizmo_pivot,
                        start_angle: measures.pivot_angle,
                    },
                );
                PressOutcome { begins_edit: true, over: true, needs_pivot: false }
            },
            Grab::Gizmo(TransformGizmoHit::Scale(axis)) => {
                self.drag = Some(
                    DragGesture::Scale {
                        axis,
                        pivot: measures.gizmo_pivot,
                        start_distance: measures.scale_distance,
                    },
                );
                PressOutcome { begins_edit: true, over: true, needs_pivot: false }
            },
            Grab::Source => {
                self.drag = Some(DragGesture::Source);
                PressOutcome { begins_edit: true, over: true, needs_pivot: false }
            },
            Grab::Probe(hit) => {
                self.selected_probe = Some(hit.id());
                self.selection = TopologySelection::Nothing;
                let drags: bool = hit.draggable() && hits.probe_known;
                if drags {
                    self.drag = Some(DragGesture::Probe { hit, grab: measures.world });
                }
                PressOutcome { begins_edit: drags, over: true, needs_pivot: false }
            },
            Grab::Corner(index) => {
                self.selected_probe = None;
                self.selection = TopologySelection::Spans(sides_at_corner(index));
                self.drag = Some(
                    DragGesture::Domain {
                        drag: DomainDrag::Corner { index, start: geometry.domain },
                    },
                );
                PressOutcome { begins_edit: true, over: true, needs_pivot: false }
            },
            Grab::Geometry(hit) => {
                self.selected_probe = None;
                if !hits.inside_selection {
                    self.selection.apply_hit(geometry, hit, input.shift, input.command);
                }
                self.drag_hit(geometry, hit, hits.loose_end, input)
            },
            Grab::Marquee => {
                let base: SpanSet = match self.selection.spans() {
                    Some(spans) => spans.copy(),
                    None => OrderedSet::new(),
                };
                self.drag = Some(
                    DragGesture::Marquee {
                        start: measures.screen,
                        current: measures.screen,
                        base,
                        operation: measures.operation,
                    },
                );
                PressOutcome { begins_edit: false, over: false, needs_pivot: false }
            },
        }
    }

    fn drag_hit(
        &mut self,
        geometry: &TopologyGeometry,
        hit: TopologyHit,
        loose_end: Option<usize>,
        input: FrameInput,
    ) -> (result: PressOutcome)
        requires
            old(self).wf(),
        ensures
            final(self).wf(),
            final(self).dragged_hit(*old(self), *geometry, hit, loose_end, input, result),
            final(self).selection == old(self).selection,
            final(self).selected_probe == old(self).selected_probe,
            final(self).gizmo_pivot == old(self).gizmo_pivot,
            final(self).sampled_revision == old(self).sampled_revision,
            final(self).message == old(self).message,
    {
        let begun = PressOutcome { begins_edit: true, over: false, needs_pivot: false };
        match hit {
            TopologyHit::Span { target, .. } => {
                if let TopologySpanTarget::Outer(side) = target {
                    if !input.shift && !input.command {
                        self.drag = Some(
                            DragGesture::Domain {
                                drag: DomainDrag::Side { side, start: geometry.domain },
                            },
                        );
                        return begun;
                    }
                }
                PressOutcome { begins_edit: true, over: false, needs_pivot: true }
            },
            TopologyHit::Handle { handle, .. } => {
                match (handle, loose_end) {
                    (TopologyHandle::Control { curve, .. }, Some(node)) => {
                        self.drag = Some(DragGesture::Endpoint { curve, node, snap: None });
                    },
                    _ => {
                        self.drag = Some(DragGesture::Handle { handle });
                    },
                }
                begun
            },
        }
    }

    /// Begins the drag of the selected spans about a pivot. A pivot that was
    /// placed for this very selection goes with it.
    pub fn begin_span_drag(&mut self, start: Point2, pivot: Point2)
        requires
            old(self).wf(),
        ensures
            final(self).wf(),
            final(self).drag matches Some(
                DragGesture::Spans { start: from, pivot: about, custom_pivot, gizmo_before },
            ) && from == start && about == pivot && custom_pivot == (
            old(self).gizmo_pivot matches Some(placed) && placed.selection@ == old(
                self,
            ).selection.span_set()) && same_pivot(gizmo_before, old(self).gizmo_pivot),
            *final(self) == (Interaction { drag: final(self).drag, ..*old(self) }),
    {
        let custom_pivot: bool = match &self.gizmo_pivot {
            Some(placed) => match self.selection.spans() {
                Some(spans) => same_spans(&placed.selection, spans),
                None => placed.selection.is_empty(),
            },
            None => false,
        };
        let gizmo_before: Option<GizmoPivot> = copy_pivot(&self.gizmo_pivot);
        self.drag = Some(DragGesture::Spans { start, pivot, custom_pivot, gizmo_before });
    }
}

/// Where the pointer has taken a gesture, off the grid and on it.
#[derive(Clone, Copy, Debug, PartialEq, Eq, Structural)]
pub struct DragTargets {
    /// Where what the gesture moves would land.
    pub free: Point2,
    pub snapped: Point2,
    pub free_angle: Scalar,
    pub snapped_angle: Scalar,
    pub free_factor: Scalar,
    pub snapped_factor: Scalar,
    /// The active region under a moved source.
    pub region: Option<u64>,
}

impl DragTargets {
    pub open spec fn point(self, shift: bool) -> Point2 {
        if shift {
            self.snapped
        } else {
            self.free
        }
    }

    pub open spec fn angle(self, shift: bool) -> Scalar {
        if shift {
            self.snapped_angle
        } else {
            self.free_angle
        }
    }

    pub open spec fn factor(self, shift: bool) -> Scalar {
        if shift {
            self.snapped_factor
        } else {
            self.free_factor
        }
    }
}

/// What a gesture does to the document in one frame.
#[derive(Clone, Copy, Debug, PartialEq, Eq, Structural)]
#[allow(inconsistent_fields)]
pub enum DragEdit {
    MoveHandle { handle: TopologyHandle, point: Point2 },
    MoveEnd { curve: u64, node: usize, point: Point2 },
    Resize { domain: DomainRect },
    /// The selection moves so that the pivot lands on `target`.
    Translate { pivot: Point2, target: Point2 },
    Rotate { pivot: Point2, angle: Scalar },
    Scale { pivot: Point2, x_factor: Scalar, y_factor: Scalar },
    MovePivot { target: Point2 },
    Marquee { start: ScreenPoint },
    SetFrame { region: u64, frame: MaterialFrame },
    /// The source keeps its region where it is dragged off every active one.
    MoveSource { position: Point2, region: Option<u64> },
    MoveProbe { hit: ProbeHit, grab: Point2, snap: bool },
}

/// What a gesture does where the pointer is. A held Shift snaps.
pub open spec fn edit_of(drag: DragGesture, targets: DragTargets, shift: bool) -> DragEdit {
    match drag {
        DragGesture::Handle { handle } => DragEdit::MoveHandle {
            handle,
            point: targets.point(shift),
        },
        DragGesture::Endpoint { curve, node, .. } => DragEdit::MoveEnd {
            curve,
            node,
            point: targets.point(shift),
        },
        DragGesture::Domain { drag } => DragEdit::Resize {
            domain: resized(
                match drag {
                    DomainDrag::Side { start, .. } => start,
                    DomainDrag::Corner { start, .. } => start,
                },
                drag,
                targets.point(shift),
            ),
        },
        DragGesture::Spans { pivot, .. } => DragEdit::Translate {
            pivot,
            target: targets.point(shift),
        },
        DragGesture::Rotate { pivot, .. } => DragEdit::Rotate {
            pivot,
            angle: targets.angle(shift),
        },
        DragGesture::Scale { axis, pivot, .. } => DragEdit::Scale {
            pivot,
            x_factor: if axis is Y {
                Scalar::one_num()
            } else {
                targets.factor(shift)
            },
            y_factor: if axis is X {
                Scalar::one_num()
            } else {
                targets.factor(shift)
            },
        },
        DragGesture::Pivot { .. } => DragEdit::MovePivot { target: targets.point(shift) },
        DragGesture::Marquee { start, .. } => DragEdit::Marquee { start },
        DragGesture::Source => DragEdit::MoveSource {
            position: targets.free,
            region: targets.region,
        },
        DragGesture::MaterialFrame { region, start, hit, .. } => DragEdit::SetFrame {
            region,
            frame: match hit {
                MaterialFrameGizmoHit::Origin => MaterialFrame {
                    origin: targets.point(shift),
                    ..start
                },
                MaterialFrameGizmoHit::Rotate => MaterialFrame {
                    angle_radians: targets.angle(shift),
                    ..start
                },
            },
        },
        DragGesture::Probe { hit, grab } => DragEdit::MoveProbe { hit, grab, snap: shift },
    }
}

/// Picks what a gesture does where the pointer is.
pub fn drag_edit(drag: &DragGesture, targets: DragTargets, shift: bool) -> (result: DragEdit)
    ensures
        result == edit_of(*drag, targets, shift),
{
    let point: Point2 = if shift {
        targets.snapped
    } else {
        targets.free
    };
    let angle: Scalar = if shift {
        targets.snapped_angle
    } else {
        targets.free_angle
    };
    let factor: Scalar = if shift {
        targets.snapped_factor
    } else {
        targets.free_factor
    };
    match drag {
        DragGesture::Handle { handle } => DragEdit::MoveHandle { handle: *handle, point },
        DragGesture::Endpoint { curve, node, .. } => DragEdit::MoveEnd {
            curve: *curve,
            node: *node,
            point,
        },
        DragGesture::Domain { drag } => {
            let start: DomainRect = match drag {
                DomainDrag::Side { start, .. } => *start,
                DomainDrag::Corner { start, .. } => *start,
            };
            DragEdit::Resize { domain: resize_domain(start, *drag, point) }
        },
        DragGesture::Spans { pivot, .. } => DragEdit::Translate { pivot: *pivot, target: point },
        DragGesture::Rotate { pivot, .. } => DragEdit::Rotate { pivot: *pivot, angle },
        DragGesture::Scale { axis, pivot, .. } => DragEdit::Scale {
            pivot: *pivot,
            x_factor: if *axis == GizmoScaleAxis::Y {
                Scalar::one()
            } else {
                factor
            },
            y_factor: if *axis == GizmoScaleAxis::X {
                Scalar::one()
            } else {
                factor
            },
        },
        DragGesture::Pivot { .. } => DragEdit::MovePivot { target: point },
        DragGesture::Marquee { start, .. } => DragEdit::Marquee { start: *start },
        DragGesture::Source => DragEdit::MoveSource {
            position: targets.free,
            region: targets.region,
        },
        DragGesture::MaterialFrame { region, start, hit, .. } => {
            let mut frame: MaterialFrame = *start;
            match hit {
                MaterialFrameGizmoHit::Origin => {
                    frame.origin = point;
                },
                MaterialFrameGizmoHit::Rotate => {
                    frame.angle_radians = angle;
                },
            }
            DragEdit::SetFrame { region: *region, frame }
        },
        DragGesture::Probe { hit, grab } => DragEdit::MoveProbe {
            hit: *hit,
            grab: *grab,
            snap: shift,
        },
    }
}

impl Interaction {
    /// The selected spans with a pivot of their own.
    fn pivot_at(&self, point: Point2) -> (result: GizmoPivot)
        requires
            self.wf(),
        ensures
            result.point == point,
            result.selection.wf(),
            result.selection@ == self.selection.span_set(),
    {
        let selection: SpanSet = match self.selection.spans() {
            Some(spans) => spans.copy(),
            None => OrderedSet::new(),
        };
        GizmoPivot { selection, point }
    }

    /// Takes what came of a frame of the gesture: `result` is the editor's
    /// answer, `target` where a moved pivot landed, `snap` what a moved end would
    /// weld onto.
    pub fn drag_done(
        &mut self,
        result: Result<(), String>,
        target: Point2,
        snap: Option<AttachmentHit>,
    )
        requires
            old(self).wf(),
            old(self).drag is Some,
        ensures
            final(self).wf(),
            final(self).selection == old(self).selection,
            final(self).selected_probe == old(self).selected_probe,
            final(self).drag == match old(self).drag->0 {
                DragGesture::Endpoint { curve, node, .. } => Some(
                    DragGesture::Endpoint { curve, node, snap },
                ),
                _ => old(self).drag,
            },
            final(self).message == match result {
                Err(error) => error,
                Ok(_) => old(self).message,
            },
            final(self).sampled_revision == if old(self).drag->0.edits() {
                u64::MAX
            } else {
                old(self).sampled_revision
            },
            match old(self).drag->0 {
                DragGesture::Pivot { .. } => final(self).moved_pivot(*old(self), target),
                DragGesture::Spans { custom_pivot, .. } => if custom_pivot && result is Ok {
                    final(self).moved_pivot(*old(self), target)
                } else {
                    final(self).gizmo_pivot == old(self).gizmo_pivot
                },
                _ => final(self).gizmo_pivot == old(self).gizmo_pivot,
            },
    {
        let mut moves_pivot: bool = false;
        let mut invalidates: bool = true;
        let mut end: Option<(u64, usize)> = None;
        match &self.drag {
            Some(DragGesture::Pivot { .. }) => {
                moves_pivot = true;
                invalidates = false;
            },
            Some(DragGesture::Marquee { .. }) => {
                invalidates = false;
            },
            Some(DragGesture::Spans { custom_pivot, .. }) => {
                moves_pivot = *custom_pivot && result.is_ok();
            },
            Some(DragGesture::Endpoint { curve, node, .. }) => {
                end = Some((*curve, *node));
            },
            _ => {},
        }
        if moves_pivot {
            self.gizmo_pivot = Some(self.pivot_at(target));
        }
        if let Some((curve, node)) = end {
            self.drag = Some(DragGesture::Endpoint { curve, node, snap });
        }
        if let Err(error) = result {
            self.message = error;
        }
        if invalidates {
            self.sampled_revision = u64::MAX;
        }
    }

    pub open spec fn moved_pivot(self, before: Self, target: Point2) -> bool {
        self.gizmo_pivot matches Some(placed) && placed.point == target && placed.selection@
            == before.selection.span_set()
    }

    /// Takes a frame of a marquee: where it has got to, what it does, and the
    /// selection it makes of what it takes.
    pub fn marquee_moved(
        &mut self,
        current: ScreenPoint,
        operation: MarqueeOperation,
        selection: TopologySelection,
    )
        requires
            old(self).wf(),
            selection.wf(),
            old(self).drag matches Some(DragGesture::Marquee { .. }),
        ensures
            final(self).wf(),
            final(self).drag == match old(self).drag {
                Some(DragGesture::Marquee { start, base, .. }) => Some(
                    DragGesture::Marquee { start, current, base, operation },
                ),
                other => other,
            },
            *final(self) == (Interaction {
                selection,
                drag: final(self).drag,
                ..*old(self)
            }),
    {
        self.selection = selection;
        let drag: Option<DragGesture> = self.drag.take();
        self.drag = match drag {
            Some(DragGesture::Marquee { start, base, .. }) => Some(
                DragGesture::Marquee { start, current, base, operation },
            ),
            other => other,
        };
    }
}

/// What the end of a gesture leads to.
#[derive(Debug)]
pub enum Release {
    Nothing,
    /// The marquee's last selection is still to be made.
    Marquee { start: ScreenPoint, current: ScreenPoint, base: SpanSet },
    /// The end is welded or left, and the edit is committed.
    FinishEnd { curve: u64, node: usize },
    Commit,
}

impl Release {
    /// Whether the edit that the gesture began is committed.
    pub open spec fn commits(self) -> bool {
        self is Commit || self is FinishEnd
    }
}

pub open spec fn released(drag: Option<DragGesture>) -> Release {
    match drag {
        None => Release::Nothing,
        Some(DragGesture::Marquee { start, current, base, .. }) => Release::Marquee {
            start,
            current,
            base,
        },
        Some(DragGesture::Pivot { .. }) => Release::Nothing,
        Some(DragGesture::Endpoint { curve, node, .. }) => Release::FinishEnd { curve, node },
        Some(_) => Release::Commit,
    }
}

impl Interaction {
    /// Ends the gesture.
    pub fn release(&mut self) -> (result: Release)
        ensures
            result == released(old(self).drag),
            *final(self) == (Interaction { drag: None, ..*old(self) }),
    {
        match self.drag.take() {
            None => Release::Nothing,
            Some(DragGesture::Marquee { start, current, base, .. }) => Release::Marquee {
                start,
                current,
                base,
            },
            Some(DragGesture::Pivot { .. }) => Release::Nothing,
            Some(DragGesture::Endpoint { curve, node, .. }) => Release::FinishEnd { curve, node },
            Some(_) => Release::Commit,
        }
    }

    /// A click with no gesture in progress. Whether it met nothing, so that the
    /// subdomain under it is selected instead.
    pub fn click(
        &mut self,
        geometry: &TopologyGeometry,
        probe: Option<ProbeHit>,
        hit: Option<TopologyHit>,
        input: FrameInput,
    ) -> (result: bool)
        requires
            old(self).wf(),
        ensures
            final(self).wf(),
            result == (probe is None && hit is None),
            final(self).selected_probe == match probe {
                Some(hit) => Some(hit.probe()),
                None => None,
            },
            match (probe, hit) {
                (None, Some(hit)) => hit_applied(
                    old(self).selection,
                    final(self).selection,
                    *geometry,
                    hit,
                    input.shift,
                    input.command,
                ),
                _ => final(self).selection is Nothing,
            },
            *final(self) == (Interaction {
                selection: final(self).selection,
                selected_probe: final(self).selected_probe,
                ..*old(self)
            }),
    {
        if let Some(hit) = probe {
            self.selected_probe = Some(hit.id());
            self.selection = TopologySelection::Nothing;
            return false;
        }
        self.selected_probe = None;
        match hit {
            Some(hit) => {
                self.selection.apply_hit(geometry, hit, input.shift, input.command);
                false
            },
            None => {
                self.selection = TopologySelection::Nothing;
                true
            },
        }
    }
}

/// What the Materials panel lists, and what a click selects with it.
#[derive(Clone, Copy, Debug, PartialEq, Eq, Structural)]
pub enum SubdomainListing {
    Faces,
    Regions,
}

/// What a click on a subdomain selects.
#[derive(Clone, Copy, Debug, PartialEq, Eq, Structural)]
pub struct SubdomainChoice {
    pub face: Option<usize>,
    pub region: Option<u64>,
}

/// Selects a face and its region while faces are listed, and the region under
/// the pointer otherwise. `face` is the drafted face under the pointer, `regions`
/// the regions of the drafted faces and `region` the active region under it.
pub fn click_subdomain(
    listing: SubdomainListing,
    face: Option<usize>,
    regions: &Vec<Option<u64>>,
    region: Option<u64>,
) -> (result: SubdomainChoice)
    requires
        face matches Some(index) ==> index < regions@.len(),
    ensures
        result == match listing {
            SubdomainListing::Faces => SubdomainChoice {
                face,
                region: match face {
                    Some(index) => regions@[index as int],
                    None => None,
                },
            },
            SubdomainListing::Regions => SubdomainChoice { face: None, region },
        },
{
    match listing {
        SubdomainListing::Faces => match face {
            Some(index) => SubdomainChoice { face: Some(index), region: regions[index] },
            None => SubdomainChoice { face: None, region: None },
        },
        SubdomainListing::Regions => SubdomainChoice { face: None, region },
    }
}

/// Which stages of a pass work on the geometry.
#[derive(Clone, Copy, Debug, PartialEq, Eq, Structural)]
pub struct Stages {
    pub press: bool,
    pub drag: bool,
    pub release: bool,
}

pub fn drag_stages(input: FrameInput) -> (result: Stages)
    ensures
        result == (Stages {
            press: input.drag_started && input.pointer && input.press,
            drag: input.dragged && input.pointer,
            release: input.drag_stopped,
        }),
{
    Stages {
        press: input.drag_started && input.pointer && input.press,
        drag: input.dragged && input.pointer,
        release: input.drag_stopped,
    }
}

/// Whether the pass ends with a click on the geometry.
pub fn clicks_geometry(input: FrameInput, dragging: bool) -> (result: bool)
    ensures
        result == (input.clicked && !dragging && input.pointer),
{
    input.clicked && !dragging && input.pointer
}

/// Whether the pass ends with deleting what is selected.
pub fn deletes(input: FrameInput) -> (result: bool)
    ensures
        result == (!input.typing && (input.delete || input.backspace)),
{
    !input.typing && (input.delete || input.backspace)
}

/// An edit that a gesture begins is ended by it: a gesture commits when it is
/// released exactly if it is one that edits, and a press begins an edit exactly
/// for those.
pub proof fn a_gesture_ends_the_edit_it_begins(
    before: Interaction,
    after: Interaction,
    geometry: TopologyGeometry,
    hits: PressHits,
    measures: PressMeasures,
    input: FrameInput,
    outcome: PressOutcome,
)
    requires
        after.pressed(before, geometry, hits, measures, input, outcome),
        before.drag is None,
        !outcome.needs_pivot,
    ensures
        outcome.begins_edit == released(after.drag).commits(),
        after.drag matches Some(drag) ==> drag.edits() == released(after.drag).commits(),
{
}

/// A gizmo, a source or a material frame is worked without touching the
/// selection.
pub proof fn grips_leave_the_selection_alone(
    before: Interaction,
    after: Interaction,
    geometry: TopologyGeometry,
    hits: PressHits,
    measures: PressMeasures,
    input: FrameInput,
    outcome: PressOutcome,
)
    requires
        after.pressed(before, geometry, hits, measures, input, outcome),
        grabbed(hits) is MaterialFrame || grabbed(hits) is Gizmo || grabbed(hits) is Source,
    ensures
        after.selection == before.selection,
        after.selected_probe == before.selected_probe,
        outcome.over,
{
}

/// A scale along one axis leaves the other alone.
pub proof fn an_axis_scale_keeps_the_other_axis(
    pivot: Point2,
    start_distance: Scalar,
    targets: DragTargets,
    shift: bool,
)
    ensures
        edit_of(
            DragGesture::Scale { axis: GizmoScaleAxis::X, pivot, start_distance },
            targets,
            shift,
        )->y_factor == Scalar::one_num(),
        edit_of(
            DragGesture::Scale { axis: GizmoScaleAxis::Y, pivot, start_distance },
            targets,
            shift,
        )->x_factor == Scalar::one_num(),
{
}

} // verus!
