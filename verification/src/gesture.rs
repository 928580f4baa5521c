//! What a pointer gesture is doing and what it landed on: draw and drag state,
//! the grips of the gizmos and of the domain, and the cursors that announce
//! them. Distances on the screen are measured by the application.

use crate::attachment::{AttachmentHit, TopologyAttachment};
use crate::hits::{find_nearest, nearest, within, ScreenPoint};
use crate::labels::{InspectorPanel, MarqueeOperation};
use crate::model::{DomainRect, MaterialFrame, OuterSide, Region, TopologyScene, VolumeSource};
use crate::ordered_set::OrderedSet;
use crate::scalar::{Point2, Scalar};
use crate::selection::{SpanSet, TopologyHandle, TopologyHit, TopologySelection, TopologySpanTarget};
use vstd::prelude::*;

verus! {

#[derive(Clone, Copy, Debug, PartialEq, Eq, Structural)]
pub enum DrawTool {
    Circle,
    Rectangle,
    Polygon,
    ClosedSpline,
    Polyline,
    OpenSpline,
}

/// Where a probe being placed has got to.
#[derive(Clone, Copy, Debug, PartialEq, Eq, Structural)]
pub enum ProbePlacement {
    Point,
    Segment { start: Option<Point2> },
    Disk { center: Option<Point2> },
    Region,
}

/// Which part of the outer rectangle a resize has hold of.
#[derive(Clone, Copy, Debug, PartialEq, Eq, Structural)]
pub enum DomainDrag {
    Side { side: OuterSide, start: DomainRect },
    Corner { index: usize, start: DomainRect },
}

/// The two grips of a region's frame: its origin and the ring that turns it.
#[derive(Clone, Copy, Debug, PartialEq, Eq, Structural)]
pub enum MaterialFrameGizmoHit {
    Origin,
    Rotate,
}

/// What a pointer landed on within a probe.
#[derive(Clone, Copy, Debug, PartialEq, Eq, Structural)]
pub enum ProbeHit {
    Point(u64),
    SegmentEndpoint(u64, bool),
    SegmentBody(u64),
    Boundary(u64),
    AreaDiskBody(u64),
    AreaDiskRadius(u64),
    AreaRegion(u64),
}

impl ProbeHit {
    pub open spec fn probe(self) -> u64 {
        match self {
            ProbeHit::Point(id) => id,
            ProbeHit::SegmentEndpoint(id, _) => id,
            ProbeHit::SegmentBody(id) => id,
            ProbeHit::Boundary(id) => id,
            ProbeHit::AreaDiskBody(id) => id,
            ProbeHit::AreaDiskRadius(id) => id,
            ProbeHit::AreaRegion(id) => id,
        }
    }

    pub fn id(self) -> (result: u64)
        ensures
            result == self.probe(),
    {
        match self {
            ProbeHit::Point(id) => id,
            ProbeHit::SegmentEndpoint(id, _) => id,
            ProbeHit::SegmentBody(id) => id,
            ProbeHit::Boundary(id) => id,
            ProbeHit::AreaDiskBody(id) => id,
            ProbeHit::AreaDiskRadius(id) => id,
            ProbeHit::AreaRegion(id) => id,
        }
    }

    pub open spec fn can_drag(self) -> bool {
        self !is Boundary && self !is AreaRegion
    }

    pub fn draggable(self) -> (result: bool)
        ensures
            result == self.can_drag(),
    {
        !matches!(self, ProbeHit::Boundary(_) | ProbeHit::AreaRegion(_))
    }
}

#[derive(Clone, Copy, Debug, PartialEq, Eq, Structural)]
pub enum GizmoScaleAxis {
    Uniform,
    X,
    Y,
}

#[derive(Clone, Copy, Debug, PartialEq, Eq, Structural)]
pub enum TransformGizmoHit {
    Pivot,
    Rotate,
    Scale(GizmoScaleAxis),
}

/// A pivot that was placed by hand, and the selection it belongs to.
#[derive(Debug)]
pub struct GizmoPivot {
    pub selection: SpanSet,
    pub point: Point2,
}

/// A gesture in progress. The geometry that a rigid drag started from and the
/// target of a dragged probe stay with the application.
#[derive(Debug)]
#[allow(inconsistent_fields)]
pub enum DragGesture {
    Handle { handle: TopologyHandle },
    /// The outer rectangle being resized by one of its sides or corners.
    Domain { drag: DomainDrag },
    /// A loose end of an open curve on the move. `snap` is what it would weld
    /// onto if released now, for the preview ring only.
    Endpoint { curve: u64, node: usize, snap: Option<AttachmentHit> },
    Spans {
        start: Point2,
        pivot: Point2,
        custom_pivot: bool,
        gizmo_before: Option<GizmoPivot>,
    },
    Rotate { pivot: Point2, start_angle: Scalar },
    Scale { axis: GizmoScaleAxis, pivot: Point2, start_distance: Scalar },
    Pivot { previous: Option<GizmoPivot>, offset: Point2 },
    Marquee {
        start: ScreenPoint,
        current: ScreenPoint,
        base: SpanSet,
        operation: MarqueeOperation,
    },
    Source,
    MaterialFrame {
        region: u64,
        start: MaterialFrame,
        hit: MaterialFrameGizmoHit,
        grab: Scalar,
    },
    Probe { hit: ProbeHit, grab: Point2 },
}

impl DragGesture {
    /// Whether the gesture edits the document while it lasts. A marquee and a
    /// moving pivot do not.
    pub open spec fn edits(self) -> bool {
        self !is Marquee && self !is Pivot
    }
}

/// A curve being drawn: its points and, at each, what it attaches to.
#[derive(Debug)]
pub struct DrawGesture {
    pub tool: DrawTool,
    pub points: Vec<Point2>,
    pub attachments: Vec<Option<TopologyAttachment>>,
}

/// What will be done once the survivor of a merge is chosen.
#[derive(Debug)]
pub enum MergeAction {
    /// The spans that the deletion named.
    Delete(OrderedSet<u64>),
    Weld { curve: u64, node: usize, endpoint: usize, target: TopologyAttachment },
}

/// A change worked out as far as the survivor question, waiting for the click
/// that answers it.
#[derive(Debug)]
pub struct PendingMerge {
    pub action: MergeAction,
    pub choices: Vec<u64>,
}

/// Where the dragged side or corner lands, the rest of the rectangle staying
/// where it was.
pub open spec fn resized(start: DomainRect, drag: DomainDrag, point: Point2) -> DomainRect {
    match drag {
        DomainDrag::Side { side, .. } => match side {
            OuterSide::Bottom => DomainRect { min_y: point.y, ..start },
            OuterSide::Right => DomainRect { max_x: point.x, ..start },
            OuterSide::Top => DomainRect { max_y: point.y, ..start },
            OuterSide::Left => DomainRect { min_x: point.x, ..start },
        },
        DomainDrag::Corner { index, .. } => if index == 0 {
            DomainRect { min_x: point.x, min_y: point.y, ..start }
        } else if index == 1 {
            DomainRect { max_x: point.x, min_y: point.y, ..start }
        } else if index == 2 {
            DomainRect { max_x: point.x, max_y: point.y, ..start }
        } else {
            DomainRect { min_x: point.x, max_y: point.y, ..start }
        },
    }
}

pub fn resize_domain(start: DomainRect, drag: DomainDrag, point: Point2) -> (result: DomainRect)
    ensures
        result == resized(start, drag, point),
{
    let mut domain: DomainRect = start;
    match drag {
        DomainDrag::Side { side, .. } => match side {
            OuterSide::Bottom => {
                domain.min_y = point.y;
            },
            OuterSide::Right => {
                domain.max_x = point.x;
            },
            OuterSide::Top => {
                domain.max_y = point.y;
            },
            OuterSide::Left => {
                domain.min_x = point.x;
            },
        },
        DomainDrag::Corner { index, .. } => {
            if index == 0 {
                domain.min_x = point.x;
                domain.min_y = point.y;
            } else if index == 1 {
                domain.max_x = point.x;
                domain.min_y = point.y;
            } else if index == 2 {
                domain.max_x = point.x;
                domain.max_y = point.y;
            } else {
                domain.min_x = point.x;
                domain.max_y = point.y;
            }
        },
    }
    domain
}

/// A resize depends only on where it began and where it is: what lay between
/// leaves no trace.
pub proof fn a_resize_leaves_no_trace(
    start: DomainRect,
    drag: DomainDrag,
    between: Point2,
    last: Point2,
)
    ensures
        resized(resized(start, drag, between), drag, last) == resized(start, drag, last),
{
}

pub open spec fn corner_distances(distances: Seq<Scalar>, reach: Scalar) -> Seq<Option<Scalar>> {
    distances.map_values(|distance: Scalar| within(distance, reach))
}

/// The corner of the outer rectangle under the pointer: the nearest in reach, of
/// equal ones the first.
pub fn hit_domain_corner(distances: &Vec<Scalar>, reach: Scalar) -> (result: Option<usize>)
    ensures
        match result {
            Some(index) => nearest(corner_distances(distances@, reach), false) == Some(
                index as int,
            ),
            None => nearest(corner_distances(distances@, reach), false) is None,
        },
        result matches Some(index) ==> index < distances@.len(),
{
    let mut kept: Vec<Option<Scalar>> = Vec::new();
    let mut index: usize = 0;
    while index < distances.len()
        invariant
            index <= distances@.len(),
            kept@ =~= corner_distances(distances@, reach).take(index as int),
        decreases distances@.len() - index,
    {
        let distance: Option<Scalar> = if distances[index].at_most(reach) {
            Some(distances[index])
        } else {
            None
        };
        kept.push(distance);
        index = index + 1;
    }
    assert(kept@ =~= corner_distances(distances@, reach));
    find_nearest(&kept, false)
}

/// Twelve: how near the middle of the gizmo a press takes the pivot.
pub const PIVOT_REACH_BITS: u64 = 0x4028000000000000;

/// Ten: how near a grip a press takes it.
pub const GRIP_REACH_BITS: u64 = 0x4024000000000000;

/// Seven: how near the ring a press takes it.
pub const RING_REACH_BITS: u64 = 0x401c000000000000;

/// How far a press is from the parts of the gizmo.
#[derive(Clone, Copy, Debug, PartialEq, Eq, Structural)]
pub struct GizmoDistances {
    pub center: Scalar,
    pub uniform_grip: Scalar,
    pub x_grip: Scalar,
    pub y_grip: Scalar,
    pub ring: Scalar,
}

pub open spec fn gizmo_hit(distances: GizmoDistances) -> Option<TransformGizmoHit> {
    let grip = Scalar { bits: GRIP_REACH_BITS };
    if distances.center.le_num(Scalar { bits: PIVOT_REACH_BITS }) {
        Some(TransformGizmoHit::Pivot)
    } else if distances.uniform_grip.le_num(grip) {
        Some(TransformGizmoHit::Scale(GizmoScaleAxis::Uniform))
    } else if distances.x_grip.le_num(grip) {
        Some(TransformGizmoHit::Scale(GizmoScaleAxis::X))
    } else if distances.y_grip.le_num(grip) {
        Some(TransformGizmoHit::Scale(GizmoScaleAxis::Y))
    } else if distances.ring.le_num(Scalar { bits: RING_REACH_BITS }) {
        Some(TransformGizmoHit::Rotate)
    } else {
        None
    }
}

/// What a press on the transform gizmo takes: the pivot, a grip or the ring, in
/// this order.
pub fn hit_transform_gizmo(distances: GizmoDistances) -> (result: Option<TransformGizmoHit>)
    ensures
        result == gizmo_hit(distances),
{
    let grip = Scalar { bits: GRIP_REACH_BITS };
    if distances.center.at_most(Scalar { bits: PIVOT_REACH_BITS }) {
        Some(TransformGizmoHit::Pivot)
    } else if distances.uniform_grip.at_most(grip) {
        Some(TransformGizmoHit::Scale(GizmoScaleAxis::Uniform))
    } else if distances.x_grip.at_most(grip) {
        Some(TransformGizmoHit::Scale(GizmoScaleAxis::X))
    } else if distances.y_grip.at_most(grip) {
        Some(TransformGizmoHit::Scale(GizmoScaleAxis::Y))
    } else if distances.ring.at_most(Scalar { bits: RING_REACH_BITS }) {
        Some(TransformGizmoHit::Rotate)
    } else {
        None
    }
}

/// Twenty-two: the least radius of the gizmo, before its padding.
pub const GIZMO_LEAST_RADIUS_BITS: u64 = 0x4036000000000000;

/// The largest of some distances, but no less than a floor.
pub open spec fn reach_of(distances: Seq<Scalar>, floor: Scalar) -> Scalar
    decreases distances.len(),
{
    if distances.len() == 0 {
        floor
    } else {
        reach_of(distances.drop_last(), floor).larger_num(distances.last())
    }
}

/// The radius of the gizmo about the moved points, before its padding.
pub fn gizmo_radius(distances: &Vec<Scalar>) -> (result: Scalar)
    ensures
        result == reach_of(distances@, Scalar { bits: GIZMO_LEAST_RADIUS_BITS }),
{
    let mut largest = Scalar { bits: GIZMO_LEAST_RADIUS_BITS };
    let mut index: usize = 0;
    while index < distances.len()
        invariant
            index <= distances@.len(),
            largest == reach_of(
                distances@.take(index as int),
                Scalar { bits: GIZMO_LEAST_RADIUS_BITS },
            ),
        decreases distances@.len() - index,
    {
        assert(distances@.take(index + 1).drop_last() =~= distances@.take(index as int));
        largest = largest.larger(distances[index]);
        index = index + 1;
    }
    assert(distances@.take(index as int) =~= distances@);
    largest
}

/// The modes that own the viewport.
#[derive(Clone, Copy, Debug, PartialEq, Eq, Structural)]
pub struct ViewportModes {
    pub merging: bool,
    pub drawing: bool,
    pub pulse: bool,
    pub placing_probe: bool,
}

impl ViewportModes {
    /// Whether a tool waits for a click.
    pub open spec fn tooled(self) -> bool {
        self.drawing || self.pulse || self.placing_probe
    }
}

/// Whether a selection can carry the transform gizmo: some spans, none of them a
/// side of the domain, and no tool in the way.
pub open spec fn gizmo_allowed(modes: ViewportModes, selection: TopologySelection) -> bool {
    &&& !modes.tooled()
    &&& selection is Spans
    &&& selection.span_set() != Set::<TopologySpanTarget>::empty()
    &&& forall|target: TopologySpanTarget| #[trigger]
        selection.span_set().contains(target) ==> target is Curve
}

pub fn transform_gizmo_allowed(modes: ViewportModes, selection: &TopologySelection) -> (result: bool)
    requires
        selection.wf(),
    ensures
        result == gizmo_allowed(modes, *selection),
{
    if modes.drawing || modes.pulse || modes.placing_probe {
        return false;
    }
    match selection {
        TopologySelection::Spans(spans) => {
            if spans.is_empty() {
                return false;
            }
            let mut index: usize = 0;
            while index < spans.values.len()
                invariant
                    index <= spans.values@.len(),
                    *selection == TopologySelection::Spans(*spans),
                    forall|i: int|
                        0 <= i < index ==> (#[trigger] spans.values@[i]) is Curve,
                decreases spans.values@.len() - index,
            {
                if let TopologySpanTarget::Outer(_) = spans.values[index] {
                    proof {
                        let found = spans.values@[index as int];
                        assert(spans@.contains(found));
                        assert(selection.span_set().contains(found));
                    }
                    return false;
                }
                index = index + 1;
            }
            proof {
                assert forall|target: TopologySpanTarget| #[trigger]
                    selection.span_set().contains(target) implies target is Curve by {
                    assert(spans.values@.contains(target));
                    let i = spans.values@.index_of(target);
                    assert(spans.values@[i] is Curve);
                }
            }
            true
        },
        _ => false,
    }
}

/// The cursors that an affordance announces itself with.
#[derive(Clone, Copy, Debug, PartialEq, Eq, Structural)]
pub enum CursorIcon {
    Crosshair,
    Grab,
    Grabbing,
    Move,
    PointingHand,
    ResizeHorizontal,
    ResizeVertical,
    ResizeNeSw,
    ResizeNwSe,
}

pub open spec fn axis_cursor(axis: GizmoScaleAxis) -> CursorIcon {
    match axis {
        GizmoScaleAxis::Uniform => CursorIcon::ResizeNwSe,
        GizmoScaleAxis::X => CursorIcon::ResizeHorizontal,
        GizmoScaleAxis::Y => CursorIcon::ResizeVertical,
    }
}

pub fn scale_axis_cursor(axis: GizmoScaleAxis) -> (result: CursorIcon)
    ensures
        result == axis_cursor(axis),
{
    match axis {
        GizmoScaleAxis::Uniform => CursorIcon::ResizeNwSe,
        GizmoScaleAxis::X => CursorIcon::ResizeHorizontal,
        GizmoScaleAxis::Y => CursorIcon::ResizeVertical,
    }
}

pub open spec fn side_cursor(side: OuterSide) -> CursorIcon {
    match side {
        OuterSide::Left => CursorIcon::ResizeHorizontal,
        OuterSide::Right => CursorIcon::ResizeHorizontal,
        OuterSide::Bottom => CursorIcon::ResizeVertical,
        OuterSide::Top => CursorIcon::ResizeVertical,
    }
}

pub fn outer_side_cursor(side: OuterSide) -> (result: CursorIcon)
    ensures
        result == side_cursor(side),
{
    match side {
        OuterSide::Left | OuterSide::Right => CursorIcon::ResizeHorizontal,
        OuterSide::Bottom | OuterSide::Top => CursorIcon::ResizeVertical,
    }
}

pub open spec fn corner_cursor(index: usize) -> CursorIcon {
    if index == 0 || index == 2 {
        CursorIcon::ResizeNeSw
    } else {
        CursorIcon::ResizeNwSe
    }
}

pub fn domain_corner_cursor(index: usize) -> (result: CursorIcon)
    ensures
        result == corner_cursor(index),
{
    if index == 0 || index == 2 {
        CursorIcon::ResizeNeSw
    } else {
        CursorIcon::ResizeNwSe
    }
}

/// The cursor of a mode that owns the whole viewport. While a survivor is asked
/// for, only the regions that can answer are clickable; `region` is the one
/// under the pointer.
pub fn modal_cursor(
    pending: &Option<PendingMerge>,
    modes: ViewportModes,
    region: Option<u64>,
) -> (result: Option<CursorIcon>)
    ensures
        result == match *pending {
            Some(pending) => if region matches Some(region) && pending.choices@.contains(region) {
                Some(CursorIcon::PointingHand)
            } else {
                None
            },
            None => if modes.tooled() {
                Some(CursorIcon::Crosshair)
            } else {
                None
            },
        },
{
    match pending {
        Some(pending) => match region {
            Some(region) => if crate::collect::lists(&pending.choices, region) {
                Some(CursorIcon::PointingHand)
            } else {
                None
            },
            None => None,
        },
        None => if modes.drawing || modes.pulse || modes.placing_probe {
            Some(CursorIcon::Crosshair)
        } else {
            None
        },
    }
}

pub open spec fn probe_cursor(hit: ProbeHit) -> Option<CursorIcon> {
    match hit {
        ProbeHit::AreaDiskRadius(_) => Some(CursorIcon::ResizeHorizontal),
        ProbeHit::AreaDiskBody(_) => Some(CursorIcon::Move),
        ProbeHit::SegmentBody(_) => Some(CursorIcon::Move),
        _ => None,
    }
}

fn cursor_of_probe(hit: ProbeHit) -> (result: Option<CursorIcon>)
    ensures
        result == probe_cursor(hit),
{
    match hit {
        ProbeHit::AreaDiskRadius(_) => Some(CursorIcon::ResizeHorizontal),
        ProbeHit::AreaDiskBody(_) | ProbeHit::SegmentBody(_) => Some(CursorIcon::Move),
        _ => None,
    }
}

pub open spec fn cursor_of_drag(drag: DragGesture) -> Option<CursorIcon> {
    match drag {
        DragGesture::Pivot { .. } => Some(CursorIcon::Move),
        DragGesture::Spans { .. } => Some(CursorIcon::Move),
        DragGesture::Rotate { .. } => Some(CursorIcon::Grabbing),
        DragGesture::Scale { axis, .. } => Some(axis_cursor(axis)),
        DragGesture::Domain { drag: DomainDrag::Corner { index, .. } } => Some(
            corner_cursor(index),
        ),
        DragGesture::Domain { drag: DomainDrag::Side { side, .. } } => Some(side_cursor(side)),
        DragGesture::MaterialFrame { hit, .. } => match hit {
            MaterialFrameGizmoHit::Origin => Some(CursorIcon::Move),
            MaterialFrameGizmoHit::Rotate => Some(CursorIcon::Grabbing),
        },
        DragGesture::Probe { hit, .. } => probe_cursor(hit),
        _ => None,
    }
}

/// The cursor that a live gesture holds on to.
pub fn drag_cursor(drag: &Option<DragGesture>) -> (result: Option<CursorIcon>)
    ensures
        result == match *drag {
            Some(drag) => cursor_of_drag(drag),
            None => None,
        },
{
    match drag {
        None => None,
        Some(drag) => match drag {
            DragGesture::Pivot { .. } | DragGesture::Spans { .. } => Some(CursorIcon::Move),
            DragGesture::Rotate { .. } => Some(CursorIcon::Grabbing),
            DragGesture::Scale { axis, .. } => Some(scale_axis_cursor(*axis)),
            DragGesture::Domain { drag: DomainDrag::Corner { index, .. } } => Some(
                domain_corner_cursor(*index),
            ),
            DragGesture::Domain { drag: DomainDrag::Side { side, .. } } => Some(
                outer_side_cursor(*side),
            ),
            DragGesture::MaterialFrame { hit, .. } => match hit {
                MaterialFrameGizmoHit::Origin => Some(CursorIcon::Move),
                MaterialFrameGizmoHit::Rotate => Some(CursorIcon::Grabbing),
            },
            DragGesture::Probe { hit, .. } => cursor_of_probe(*hit),
            _ => None,
        },
    }
}

/// What lies under the pointer while nothing is dragged.
#[derive(Clone, Copy, Debug, PartialEq, Eq, Structural)]
pub struct HoverHits {
    /// The grip of the shown material frame, if there is one.
    pub material_frame: Option<MaterialFrameGizmoHit>,
    pub gizmo: Option<TransformGizmoHit>,
    pub probe: Option<ProbeHit>,
    pub corner: Option<usize>,
    pub geometry: Option<TopologyHit>,
    /// Whether the transform gizmo is shown at all.
    pub gizmo_shown: bool,
}

/// The cursor over what is hovered, in the order in which a press resolves it.
/// A span of the selection announces a move only where the gizmo says that the
/// selection can move.
pub open spec fn cursor_over(hits: HoverHits, selection: TopologySelection) -> Option<CursorIcon> {
    match (hits.material_frame, hits.gizmo, hits.probe, hits.corner, hits.geometry) {
        (Some(hit), _, _, _, _) => match hit {
            MaterialFrameGizmoHit::Origin => Some(CursorIcon::Move),
            MaterialFrameGizmoHit::Rotate => Some(CursorIcon::Grab),
        },
        (None, Some(hit), _, _, _) => match hit {
            TransformGizmoHit::Pivot => Some(CursorIcon::Move),
            TransformGizmoHit::Rotate => Some(CursorIcon::Grab),
            TransformGizmoHit::Scale(axis) => Some(axis_cursor(axis)),
        },
        (None, None, Some(hit), _, _) => probe_cursor(hit),
        (None, None, None, Some(index), _) => Some(corner_cursor(index)),
        (None, None, None, None, Some(TopologyHit::Span { target, .. })) => match target {
            TopologySpanTarget::Outer(side) => Some(side_cursor(side)),
            TopologySpanTarget::Curve(_) => if selection.span_set().contains(target)
                && hits.gizmo_shown {
                Some(CursorIcon::Move)
            } else {
                None
            },
        },
        _ => None,
    }
}

pub fn hover_cursor(hits: HoverHits, selection: &TopologySelection) -> (result: Option<CursorIcon>)
    requires
        selection.wf(),
    ensures
        result == cursor_over(hits, *selection),
{
    if let Some(hit) = hits.material_frame {
        return match hit {
            MaterialFrameGizmoHit::Origin => Some(CursorIcon::Move),
            MaterialFrameGizmoHit::Rotate => Some(CursorIcon::Grab),
        };
    }
    if let Some(hit) = hits.gizmo {
        return match hit {
            TransformGizmoHit::Pivot => Some(CursorIcon::Move),
            TransformGizmoHit::Rotate => Some(CursorIcon::Grab),
            TransformGizmoHit::Scale(axis) => Some(scale_axis_cursor(axis)),
        };
    }
    if let Some(hit) = hits.probe {
        return cursor_of_probe(hit);
    }
    if let Some(index) = hits.corner {
        return Some(domain_corner_cursor(index));
    }
    match hits.geometry {
        Some(TopologyHit::Span { target, .. }) => match target {
            TopologySpanTarget::Outer(side) => Some(outer_side_cursor(side)),
            TopologySpanTarget::Curve(_) => {
                let selected: bool = match selection.spans() {
                    Some(spans) => spans.contains(&target),
                    None => false,
                };
                if selected && hits.gizmo_shown {
                    Some(CursorIcon::Move)
                } else {
                    None
                }
            },
        },
        _ => None,
    }
}

/// The cursor of the viewport: that of a mode first, then that of a gesture,
/// then that of what is hovered.
pub fn viewport_cursor(
    modal: Option<CursorIcon>,
    dragged: Option<CursorIcon>,
    hovered: Option<CursorIcon>,
) -> (result: Option<CursorIcon>)
    ensures
        result == if modal is Some {
            modal
        } else if dragged is Some {
            dragged
        } else {
            hovered
        },
{
    if modal.is_some() {
        modal
    } else if dragged.is_some() {
        dragged
    } else {
        hovered
    }
}

/// Which grip of a material frame a press takes. `distance` is that from the
/// origin, `from_ring` that from the ring.
pub fn hit_material_frame_gizmo(
    distance: Scalar,
    from_ring: Scalar,
    origin_reach: Scalar,
    ring_reach: Scalar,
) -> (result: Option<MaterialFrameGizmoHit>)
    ensures
        result == if distance.le_num(origin_reach) {
            Some(MaterialFrameGizmoHit::Origin)
        } else if from_ring.le_num(ring_reach) {
            Some(MaterialFrameGizmoHit::Rotate)
        } else {
            None
        },
{
    if distance.at_most(origin_reach) {
        Some(MaterialFrameGizmoHit::Origin)
    } else if from_ring.at_most(ring_reach) {
        Some(MaterialFrameGizmoHit::Rotate)
    } else {
        None
    }
}

/// A region and its frame.
#[derive(Clone, Copy, Debug, PartialEq, Eq, Structural)]
pub struct SelectedFrame {
    pub region: u64,
    pub frame: MaterialFrame,
}

/// Whether an enabled source of a region varies over it.
pub open spec fn source_varies(sources: Seq<VolumeSource>, varying: Seq<bool>, region: u64) -> bool {
    exists|i: int|
        0 <= i < sources.len() && (#[trigger] sources[i]).region == region && sources[i].enabled
            && varying[i]
}

/// The frame that a region's profile or source is written in, shown only while
/// Materials is open and something uses it. `material_uses` says whether the
/// material of the region does, `varying` which volume sources vary.
pub open spec fn shown_frame(
    panel: Option<InspectorPanel>,
    scene: TopologyScene,
    selected: u64,
    material_uses: bool,
    varying: Seq<bool>,
) -> Option<SelectedFrame> {
    if panel != Some(InspectorPanel::Materials) {
        None
    } else {
        match crate::collect::first_value(
            scene.regions@,
            |region: Region| region.id == selected,
        ) {
            Some(region) if material_uses || source_varies(
                scene.volume_sources@,
                varying,
                region.id,
            ) => Some(SelectedFrame { region: region.id, frame: region.frame }),
            _ => None,
        }
    }
}

pub fn selected_material_frame(
    panel: Option<InspectorPanel>,
    scene: &TopologyScene,
    selected: u64,
    material_uses: bool,
    varying: &Vec<bool>,
) -> (result: Option<SelectedFrame>)
    requires
        varying@.len() == scene.volume_sources@.len(),
    ensures
        result == shown_frame(panel, *scene, selected, material_uses, varying@),
{
    match panel {
        Some(InspectorPanel::Materials) => {},
        _ => {
            return None;
        },
    }
    let named = |region: &Region| -> (passes: bool)
        ensures
            passes == (region.id == selected),
        { region.id == selected };
    let place: usize = match crate::collect::find(
        &scene.regions,
        named,
        Ghost(|region: Region| region.id == selected),
    ) {
        None => {
            return None;
        },
        Some(place) => place,
    };
    let region: &Region = &scene.regions[place];
    let mut varies: bool = false;
    let mut index: usize = 0;
    while index < scene.volume_sources.len()
        invariant
            index <= scene.volume_sources@.len(),
            varying@.len() == scene.volume_sources@.len(),
            varies == source_varies(
                scene.volume_sources@.take(index as int),
                varying@,
                region.id,
            ),
        decreases scene.volume_sources@.len() - index,
    {
        let source: &VolumeSource = &scene.volume_sources[index];
        let ghost shorter = scene.volume_sources@.take(index as int);
        let ghost longer = scene.volume_sources@.take(index + 1);
        if source.region == region.id && source.enabled && varying[index] {
            assert(longer[index as int].region == region.id);
            varies = true;
        }
        proof {
            if source_varies(shorter, varying@, region.id) {
                let i = choose|i: int|
                    0 <= i < shorter.len() && (#[trigger] shorter[i]).region == region.id
                        && shorter[i].enabled && varying@[i];
                assert(longer[i].region == region.id);
            }
            if source_varies(longer, varying@, region.id) {
                let i = choose|i: int|
                    0 <= i < longer.len() && (#[trigger] longer[i]).region == region.id
                        && longer[i].enabled && varying@[i];
                if i < index {
                    assert(shorter[i].region == region.id);
                }
            }
        }
        index = index + 1;
    }
    assert(scene.volume_sources@.take(index as int) =~= scene.volume_sources@);
    if material_uses || varies {
        Some(SelectedFrame { region: region.id, frame: region.frame })
    } else {
        None
    }
}

/// Whether the corner grips of the domain are drawn: not while something that
/// has nothing to do with the domain is going on.
pub fn domain_handles_shown(
    capturing: bool,
    modes: ViewportModes,
    drag: &Option<DragGesture>,
) -> (result: bool)
    ensures
        result == (!capturing && !modes.drawing && !modes.merging && !(*drag matches Some(
            DragGesture::Marquee { .. },
        )) && !(*drag matches Some(DragGesture::Spans { .. })) && !(*drag matches Some(
            DragGesture::Rotate { .. },
        )) && !(*drag matches Some(DragGesture::Scale { .. }))),
{
    if capturing || modes.drawing || modes.merging {
        return false;
    }
    match drag {
        Some(DragGesture::Marquee { .. }) => false,
        Some(DragGesture::Spans { .. }) => false,
        Some(DragGesture::Rotate { .. }) => false,
        Some(DragGesture::Scale { .. }) => false,
        _ => true,
    }
}

} // verus!
