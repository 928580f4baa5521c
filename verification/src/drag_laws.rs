//! What the gestures of the viewport are for: how what is dragged follows the
//! pointer, and what stays where it was.

use crate::attachment::AttachmentHit;
use crate::gesture::{
    gizmo_hit, DomainDrag, DragGesture, GizmoDistances, GizmoPivot, GizmoScaleAxis,
    MaterialFrameGizmoHit, ProbeHit, SelectedFrame, TransformGizmoHit,
};
use crate::interaction::{
    corner_sides, edit_of, grabbed, released, DragEdit, DragTargets, FrameInput, Interaction,
    PressHits, PressMeasures, PressOutcome, Release,
};
use crate::model::{DomainRect, MaterialFrame, OuterSide, TopologyGeometry};
use crate::scalar::{Point2, Scalar};
use crate::selection::{TopologyHandle, TopologyHit, TopologySpanTarget};
use vstd::prelude::*;

verus! {

/// A rotation turns the selection about its pivot by what the pointer has turned
/// since the ring was grabbed: on the grid of angles while Shift is held, freely
/// otherwise. Where the ring was grabbed makes no difference, and two pointers
/// that turned by different angles turn the selection differently.
pub proof fn a_rotation_follows_the_pointer(
    pivot: Point2,
    start_angle: Scalar,
    other_angle: Scalar,
    targets: DragTargets,
    moved: DragTargets,
    shift: bool,
)
    ensures
        edit_of(DragGesture::Rotate { pivot, start_angle }, targets, shift) matches DragEdit::Rotate {
            pivot: about,
            angle,
        } && about == pivot && (shift ==> angle == targets.snapped_angle) && (!shift ==> angle
            == targets.free_angle),
        edit_of(DragGesture::Rotate { pivot, start_angle }, targets, shift) == edit_of(
            DragGesture::Rotate { pivot, start_angle: other_angle },
            targets,
            shift,
        ),
        edit_of(DragGesture::Rotate { pivot, start_angle }, targets, shift) == edit_of(
            DragGesture::Rotate { pivot, start_angle },
            moved,
            shift,
        ) <==> if shift {
            targets.snapped_angle == moved.snapped_angle
        } else {
            targets.free_angle == moved.free_angle
        },
{
}

/// A scale grows the selection about its pivot by the factor that the pointer
/// gives, along the axes of its grip: both for the uniform grip, and one, with
/// the other left alone, for the grip of an axis. Where the grip was grabbed
/// makes no difference.
pub proof fn a_scale_follows_the_pointer(
    pivot: Point2,
    start_distance: Scalar,
    other_distance: Scalar,
    axis: GizmoScaleAxis,
    targets: DragTargets,
    shift: bool,
)
    ensures
        edit_of(DragGesture::Scale { axis, pivot, start_distance }, targets, shift)
            matches DragEdit::Scale { pivot: about, x_factor, y_factor } && about == pivot && {
            let factor = if shift {
                targets.snapped_factor
            } else {
                targets.free_factor
            };
            &&& axis is Uniform ==> x_factor == factor && y_factor == factor
            &&& axis is X ==> x_factor == factor && y_factor == Scalar::one_num()
            &&& axis is Y ==> x_factor == Scalar::one_num() && y_factor == factor
        },
        edit_of(DragGesture::Scale { axis, pivot, start_distance }, targets, shift) == edit_of(
            DragGesture::Scale { axis, pivot, start_distance: other_distance },
            targets,
            shift,
        ),
{
}

/// What is dragged by itself lands where the pointer takes it: on the grid while
/// Shift is held, and exactly under the pointer otherwise. It is the handle, the
/// end, the selection or the pivot that was grabbed, and nothing else moves.
pub proof fn what_is_dragged_lands_under_the_pointer(
    handle: TopologyHandle,
    curve: u64,
    node: usize,
    snap: Option<AttachmentHit>,
    start: Point2,
    pivot: Point2,
    custom_pivot: bool,
    gizmo_before: Option<GizmoPivot>,
    offset: Point2,
    targets: DragTargets,
    shift: bool,
    target: Point2,
)
    requires
        shift ==> target == targets.snapped,
        !shift ==> target == targets.free,
    ensures
        edit_of(DragGesture::Handle { handle }, targets, shift) == (DragEdit::MoveHandle {
            handle,
            point: target,
        }),
        edit_of(DragGesture::Endpoint { curve, node, snap }, targets, shift)
            == (DragEdit::MoveEnd { curve, node, point: target }),
        edit_of(
            DragGesture::Spans { start, pivot, custom_pivot, gizmo_before },
            targets,
            shift,
        ) == (DragEdit::Translate { pivot, target }),
        edit_of(DragGesture::Pivot { previous: gizmo_before, offset }, targets, shift)
            == (DragEdit::MovePivot { target }),
{
}

/// The source goes wherever the pointer goes, on the grid or not, and is of the
/// region it is dragged over. A probe is moved by what was grabbed of it.
pub proof fn sources_and_probes_follow_the_pointer(
    hit: ProbeHit,
    grab: Point2,
    targets: DragTargets,
    shift: bool,
)
    ensures
        edit_of(DragGesture::Source, targets, shift) == (DragEdit::MoveSource {
            position: targets.free,
            region: targets.region,
        }),
        edit_of(DragGesture::Probe { hit, grab }, targets, shift) == (DragEdit::MoveProbe {
            hit,
            grab,
            snap: shift,
        }),
{
}

/// The origin grip of a material frame moves its origin and nothing else, and
/// the ring turns it and does nothing else. What a frame is attached to stays.
pub proof fn a_frame_grip_changes_one_thing(
    region: u64,
    start: MaterialFrame,
    hit: MaterialFrameGizmoHit,
    grab: Scalar,
    targets: DragTargets,
    shift: bool,
)
    ensures
        edit_of(DragGesture::MaterialFrame { region, start, hit, grab }, targets, shift)
            matches DragEdit::SetFrame { region: edited, frame } && {
            &&& edited == region
            &&& frame.attachment == start.attachment
            &&& hit is Origin ==> frame.angle_radians == start.angle_radians
            &&& hit is Origin && shift ==> frame.origin == targets.snapped
            &&& hit is Origin && !shift ==> frame.origin == targets.free
            &&& hit is Rotate ==> frame.origin == start.origin
            &&& hit is Rotate && shift ==> frame.angle_radians == targets.snapped_angle
            &&& hit is Rotate && !shift ==> frame.angle_radians == targets.free_angle
        },
{
}

/// A side of the domain that is dragged takes the pointer's coordinate across it,
/// and the other three sides stay where they were.
pub proof fn a_dragged_side_moves_alone(
    side: OuterSide,
    start: DomainRect,
    targets: DragTargets,
    shift: bool,
    target: Point2,
)
    requires
        shift ==> target == targets.snapped,
        !shift ==> target == targets.free,
    ensures
        edit_of(DragGesture::Domain { drag: DomainDrag::Side { side, start } }, targets, shift)
            matches DragEdit::Resize { domain } && {
            &&& domain.min_x == if side is Left { target.x } else { start.min_x }
            &&& domain.max_x == if side is Right { target.x } else { start.max_x }
            &&& domain.min_y == if side is Bottom { target.y } else { start.min_y }
            &&& domain.max_y == if side is Top { target.y } else { start.max_y }
        },
{
}

/// A corner of the domain that is dragged takes the two sides along that meet
/// there, and the opposite corner stays. Going round, the corners are the lower
/// left, the lower right, the upper right and the upper left one, and the sides
/// that are selected with a corner are the ones it moves.
pub proof fn a_dragged_corner_moves_the_sides_that_meet_there(
    index: usize,
    start: DomainRect,
    targets: DragTargets,
    shift: bool,
    target: Point2,
)
    requires
        index < 4,
        shift ==> target == targets.snapped,
        !shift ==> target == targets.free,
    ensures
        edit_of(DragGesture::Domain { drag: DomainDrag::Corner { index, start } }, targets, shift)
            matches DragEdit::Resize { domain } && {
            let left = index == 0 || index == 3;
            let lower = index == 0 || index == 1;
            &&& domain.min_x == if left { target.x } else { start.min_x }
            &&& domain.max_x == if left { start.max_x } else { target.x }
            &&& domain.min_y == if lower { target.y } else { start.min_y }
            &&& domain.max_y == if lower { start.max_y } else { target.y }
            &&& corner_sides(index).contains(TopologySpanTarget::Outer(OuterSide::Left)) == left
            &&& corner_sides(index).contains(TopologySpanTarget::Outer(OuterSide::Right)) == !left
            &&& corner_sides(index).contains(TopologySpanTarget::Outer(OuterSide::Bottom)) == lower
            &&& corner_sides(index).contains(TopologySpanTarget::Outer(OuterSide::Top)) == !lower
            &&& forall|curve: u64|
                !#[trigger] corner_sides(index).contains(TopologySpanTarget::Curve(curve))
        },
{
}

/// The part of the gizmo that is taken is one within reach of the pointer, and
/// nothing is taken only where nothing is in reach. The pivot goes before the
/// grips, and the grips before the ring.
pub proof fn a_gizmo_part_in_reach_is_taken(distances: GizmoDistances)
    ensures
        ({
            let pivot = distances.center.le_num(Scalar { bits: 0x4028000000000000 });
            let uniform = distances.uniform_grip.le_num(Scalar { bits: 0x4024000000000000 });
            let x = distances.x_grip.le_num(Scalar { bits: 0x4024000000000000 });
            let y = distances.y_grip.le_num(Scalar { bits: 0x4024000000000000 });
            let ring = distances.ring.le_num(Scalar { bits: 0x401c000000000000 });
            let taken = gizmo_hit(distances);
            &&& taken is None <==> !pivot && !uniform && !x && !y && !ring
            &&& taken == Some(TransformGizmoHit::Pivot) <==> pivot
            &&& taken == Some(TransformGizmoHit::Rotate) <==> ring && !pivot && !uniform && !x && !y
            &&& taken == Some(TransformGizmoHit::Scale(GizmoScaleAxis::Uniform)) <==> uniform
                && !pivot
            &&& taken == Some(TransformGizmoHit::Scale(GizmoScaleAxis::X)) <==> x && !uniform
                && !pivot
            &&& taken == Some(TransformGizmoHit::Scale(GizmoScaleAxis::Y)) <==> y && !x && !uniform
                && !pivot
        }),
{
}

/// A press takes what lies on top of everything else under it: the shown material
/// frame, the gizmo, the source, a probe, a corner of the domain and the
/// geometry, in this order. Only where none of them is hit does it draw a marquee.
pub proof fn a_press_takes_what_lies_on_top(hits: PressHits)
    ensures
        ({
            let frame = hits.material_frame is Some && hits.frame is Some;
            let gizmo = !frame && hits.gizmo is Some;
            let source = !frame && hits.gizmo is None && hits.source;
            let probe = !frame && hits.gizmo is None && !hits.source && hits.probe is Some;
            let bare = !frame && hits.gizmo is None && !hits.source && hits.probe is None;
            let corner = bare && hits.corner is Some;
            let geometry = bare && hits.corner is None && hits.geometry is Some;
            let taken = grabbed(hits);
            &&& frame <==> taken is MaterialFrame
            &&& frame ==> Some(taken->MaterialFrame_hit) == hits.material_frame
            &&& frame ==> Some(taken->MaterialFrame_frame) == hits.frame
            &&& gizmo <==> taken is Gizmo
            &&& gizmo ==> Some(taken->Gizmo_0) == hits.gizmo
            &&& source <==> taken is Source
            &&& probe <==> taken is Probe
            &&& probe ==> Some(taken->Probe_0) == hits.probe
            &&& corner <==> taken is Corner
            &&& corner ==> Some(taken->Corner_0) == hits.corner
            &&& geometry <==> taken is Geometry
            &&& geometry ==> Some(taken->Geometry_0) == hits.geometry
            &&& taken is Marquee <==> bare && hits.corner is None && hits.geometry is None
        }),
{
}

/// The gesture that a press starts works on what was pressed: a grip of the gizmo
/// about the pivot where the gizmo is and from where the pointer is, a corner or
/// a side on the domain as it stands, and a marquee from the pointer with the
/// spans that were selected.
pub proof fn a_press_starts_the_gesture_of_what_it_takes(
    before: Interaction,
    after: Interaction,
    geometry: TopologyGeometry,
    hits: PressHits,
    measures: PressMeasures,
    input: FrameInput,
    outcome: PressOutcome,
)
    requires
        after.pressed(before, geometry, hits, measures, input, outcome),
        hits.material_frame is None,
    ensures
        hits.gizmo == Some(TransformGizmoHit::Rotate) ==> after.drag == Some(
            DragGesture::Rotate {
                pivot: measures.gizmo_pivot,
                start_angle: measures.pivot_angle,
            },
        ),
        hits.gizmo matches Some(TransformGizmoHit::Scale(axis)) ==> after.drag == Some(
            DragGesture::Scale {
                axis,
                pivot: measures.gizmo_pivot,
                start_distance: measures.scale_distance,
            },
        ),
        hits.gizmo == Some(TransformGizmoHit::Pivot) ==> {
            &&& !outcome.begins_edit
            &&& after.drag matches Some(DragGesture::Pivot { offset, .. }) && offset
                == measures.pivot_offset
        },
        hits.gizmo is None && hits.source ==> after.drag == Some(DragGesture::Source),
        hits.gizmo is None && !hits.source ==> (hits.probe matches Some(hit) ==> {
            &&& after.selected_probe == Some(hit.probe())
            &&& outcome.begins_edit <==> hits.probe_known && !(hit is Boundary)
                && !(hit is AreaRegion)
            &&& outcome.begins_edit ==> after.drag == Some(
                DragGesture::Probe { hit, grab: measures.world },
            )
        }),
        hits.gizmo is None && !hits.source && hits.probe is None ==> (hits.corner matches Some(
            index,
        ) ==> after.drag == Some(
            DragGesture::Domain { drag: DomainDrag::Corner { index, start: geometry.domain } },
        )),
        hits.gizmo is None && !hits.source && hits.probe is None && hits.corner is None ==> (
        match hits.geometry {
            Some(TopologyHit::Span { target: TopologySpanTarget::Outer(side), .. }) => !input.shift
                && !input.command ==> after.drag == Some(
                DragGesture::Domain { drag: DomainDrag::Side { side, start: geometry.domain } },
            ),
            Some(TopologyHit::Span { target: TopologySpanTarget::Curve(_), .. }) => {
                outcome.needs_pivot && outcome.begins_edit
            },
            Some(TopologyHit::Handle { handle, .. }) => match (handle, hits.loose_end) {
                (TopologyHandle::Control { curve, .. }, Some(node)) => after.drag == Some(
                    DragGesture::Endpoint { curve, node, snap: None },
                ),
                _ => after.drag == Some(DragGesture::Handle { handle }),
            },
            None => {
                &&& !outcome.begins_edit
                &&& after.drag matches Some(
                    DragGesture::Marquee { start, current, base, operation },
                ) && start == measures.screen && current == measures.screen && base@
                    == before.selection.span_set() && operation == measures.operation
            },
        }),
{
}

/// The frame grips start from the frame as it stands, and the ring remembers
/// where it was grabbed.
pub proof fn a_press_on_a_frame_starts_from_it(
    before: Interaction,
    after: Interaction,
    geometry: TopologyGeometry,
    hits: PressHits,
    measures: PressMeasures,
    input: FrameInput,
    outcome: PressOutcome,
    hit: MaterialFrameGizmoHit,
    shown: SelectedFrame,
)
    requires
        after.pressed(before, geometry, hits, measures, input, outcome),
        hits.material_frame == Some(hit),
        hits.frame == Some(shown),
    ensures
        outcome.begins_edit,
        after.drag matches Some(DragGesture::MaterialFrame { region, start, hit: grip, grab }) && {
            &&& region == shown.region
            &&& start == shown.frame
            &&& grip == hit
            &&& hit is Rotate ==> grab == measures.frame_angle
        },
{
}

/// What a gesture did is kept when it is released, a marquee selects from where
/// it was started to where it got, and a moved end is the one that is welded.
pub proof fn a_release_keeps_what_the_gesture_did(drag: DragGesture)
    ensures
        drag is Handle || drag is Domain || drag is Spans || drag is Rotate || drag is Scale
            || drag is Source || drag is MaterialFrame || drag is Probe <==> released(Some(drag))
            is Commit,
        released(Some(drag)) is FinishEnd <==> drag is Endpoint,
        drag matches DragGesture::Endpoint { curve, node, .. } ==> released(Some(drag)) == (
        Release::FinishEnd { curve, node }),
        released(Some(drag)) is Marquee <==> drag is Marquee,
        drag matches DragGesture::Marquee { start, current, base, .. } ==> released(Some(drag)) == (
        Release::Marquee { start, current, base }),
        released(Some(drag)) is Nothing <==> drag is Pivot,
        released(None) is Nothing,
{
}

/// A pivot that is moved lies where it was moved to, and belongs to the spans that
/// were selected then.
pub proof fn a_moved_pivot_belongs_to_the_selection(
    before: Interaction,
    after: Interaction,
    target: Point2,
)
    requires
        after.moved_pivot(before, target),
    ensures
        after.gizmo_pivot is Some,
        after.gizmo_pivot->0.point == target,
        forall|span: TopologySpanTarget| #[trigger]
            after.gizmo_pivot->0.selection@.contains(span) <==> before.selection.span_set().contains(
                span,
            ),
{
}

} // verus!
