//! What the pointer shows, and which grips are there to be taken.

use crate::collect::{first_place_found, first_place_is_least};
use crate::gesture::{
    axis_cursor, corner_cursor, cursor_of_drag, cursor_over, gizmo_allowed, probe_cursor,
    reach_of, resized, shown_frame, side_cursor, CursorIcon, DomainDrag, DragGesture,
    GizmoScaleAxis, HoverHits, MaterialFrameGizmoHit, ProbeHit, TransformGizmoHit, ViewportModes,
};
use crate::labels::InspectorPanel;
use crate::model::{DomainRect, OuterSide, Region, TopologyGeometry, TopologyScene};
use crate::sampling::domain_corner;
use crate::scalar::{Point2, Scalar};
use crate::selection::{TopologyHit, TopologySelection, TopologySpanTarget};
use crate::transform::{plans, CurveShape, RigidTransform, TopologyTransformUpdate};
use crate::transform_plan::{plans_transform, usable_axis_scale};
use vstd::prelude::*;

verus! {

/// Whether a pointer promises to move along the horizontal, along the vertical or
/// along both.
pub open spec fn promises(icon: CursorIcon) -> (bool, bool) {
    match icon {
        CursorIcon::ResizeHorizontal => (true, false),
        CursorIcon::ResizeVertical => (false, true),
        CursorIcon::ResizeNeSw | CursorIcon::ResizeNwSe => (true, true),
        _ => (false, false),
    }
}

/// Over a side or a corner the pointer promises just what dragging it changes: the
/// extents of the domain along the horizontal, along the vertical, or along both.
pub proof fn a_domain_pointer_promises_what_the_drag_changes(
    start: DomainRect,
    drag: DomainDrag,
    point: Point2,
)
    requires
        point.x != start.min_x,
        point.x != start.max_x,
        point.y != start.min_y,
        point.y != start.max_y,
    ensures
        ({
            let after = resized(start, drag, point);
            let icon = match drag {
                DomainDrag::Side { side, .. } => side_cursor(side),
                DomainDrag::Corner { index, .. } => corner_cursor(index),
            };
            &&& promises(icon).0 <==> after.min_x != start.min_x || after.max_x != start.max_x
            &&& promises(icon).1 <==> after.min_y != start.min_y || after.max_y != start.max_y
        }),
{
}

/// A corner at the low ends of both axes, or at the high ends, is dragged along the
/// rising diagonal, the other two along the falling one.
pub proof fn a_corner_pointer_lies_along_its_diagonal(domain: DomainRect, index: usize)
    requires
        index < 4,
        domain.min_x != domain.max_x,
        domain.min_y != domain.max_y,
    ensures
        ({
            let corner = domain_corner(domain, index as int);
            let equal_ends = (corner.x == domain.min_x) == (corner.y == domain.min_y);
            &&& corner_cursor(index) is ResizeNeSw <==> equal_ends
            &&& corner_cursor(index) is ResizeNwSe <==> !equal_ends
        }),
{
}

/// Two corners at the ends of a side differ in their pointer, two across the domain
/// do not.
pub proof fn opposite_corners_share_a_pointer(index: usize, side: OuterSide)
    requires
        index < 4,
    ensures
        corner_cursor(index) == corner_cursor(((index + 2) % 4) as usize),
        corner_cursor(index) != corner_cursor(((index + 1) % 4) as usize),
        side_cursor(side) is ResizeHorizontal <==> side is Left || side is Right,
        side_cursor(side) is ResizeVertical <==> side is Bottom || side is Top,
{
}

/// A scale pointer promises the axes that are scaled.
pub proof fn a_scale_pointer_promises_its_axes(axis: GizmoScaleAxis)
    ensures
        promises(axis_cursor(axis)).0 <==> axis !is Y,
        promises(axis_cursor(axis)).1 <==> axis !is X,
{
}

/// While a grip is dragged the pointer is the one that was shown over it, but that a
/// hand which could grab now does.
pub proof fn a_dragged_grip_keeps_its_pointer(
    drag: DragGesture,
    hits: HoverHits,
    selection: TopologySelection,
)
    ensures
        ({
            let over = cursor_over(hits, selection);
            &&& drag matches DragGesture::MaterialFrame { hit, .. } ==> (hits.material_frame
                == Some(hit) ==> match hit {
                MaterialFrameGizmoHit::Origin => over == Some(CursorIcon::Move)
                    && cursor_of_drag(drag) == over,
                MaterialFrameGizmoHit::Rotate => over == Some(CursorIcon::Grab) && cursor_of_drag(
                    drag,
                ) == Some(CursorIcon::Grabbing),
            })
            &&& drag is Rotate && hits.material_frame is None && hits.gizmo == Some(
                TransformGizmoHit::Rotate,
            ) ==> over == Some(CursorIcon::Grab) && cursor_of_drag(drag) == Some(
                CursorIcon::Grabbing,
            )
            &&& drag matches DragGesture::Scale { axis, .. } ==> (hits.material_frame is None
                && hits.gizmo == Some(TransformGizmoHit::Scale(axis)) ==> cursor_of_drag(drag)
                == over && over == Some(axis_cursor(axis)))
            &&& drag is Pivot && hits.material_frame is None && hits.gizmo == Some(
                TransformGizmoHit::Pivot,
            ) ==> cursor_of_drag(drag) == over && over == Some(CursorIcon::Move)
            &&& drag matches DragGesture::Probe { hit, .. } ==> (hits.material_frame is None
                && hits.gizmo is None && hits.probe == Some(hit) ==> cursor_of_drag(drag) == over)
            &&& drag matches DragGesture::Domain {
                drag: DomainDrag::Corner { index, .. },
            } ==> (hits.material_frame is None && hits.gizmo is None && hits.probe is None
                && hits.corner == Some(index) ==> cursor_of_drag(drag) == over && over == Some(
                corner_cursor(index),
            ))
            &&& drag matches DragGesture::Domain { drag: DomainDrag::Side { side, .. } } ==> (
            hits.material_frame is None && hits.gizmo is None && hits.probe is None
                && hits.corner is None && (hits.geometry matches Some(TopologyHit::Span {
                target,
                ..
            }) && target == TopologySpanTarget::Outer(side)) ==> cursor_of_drag(drag) == over
                && over == Some(side_cursor(side)))
        }),
{
}

/// Over a curve the pointer offers to move it only where it is selected and can be
/// moved; over nothing and over a handle it stays as it is.
pub proof fn a_curve_pointer_offers_a_move_only_to_the_selected(
    hits: HoverHits,
    selection: TopologySelection,
    span: u64,
)
    requires
        hits.material_frame is None,
        hits.gizmo is None,
        hits.probe is None,
        hits.corner is None,
    ensures
        hits.geometry is None ==> cursor_over(hits, selection) is None,
        hits.geometry matches Some(TopologyHit::Handle { .. }) ==> cursor_over(
            hits,
            selection,
        ) is None,
        hits.geometry matches Some(TopologyHit::Span { target, .. }) ==> (target
            == TopologySpanTarget::Curve(span) ==> cursor_over(hits, selection) == if hits.gizmo_shown
            && selection.span_set().contains(target) {
            Some(CursorIcon::Move)
        } else {
            None
        }),
{
}

/// Of the parts of a probe, its bodies are moved and the radius of its disk is
/// drawn out; no other part changes the pointer.
pub proof fn a_probe_pointer_tells_bodies_from_radii(hit: ProbeHit)
    ensures
        probe_cursor(hit) == Some(CursorIcon::Move) <==> hit is AreaDiskBody || hit is SegmentBody,
        probe_cursor(hit) == Some(CursorIcon::ResizeHorizontal) <==> hit is AreaDiskRadius,
        probe_cursor(hit) is None <==> hit is Point || hit is SegmentEndpoint || hit is Boundary
            || hit is AreaRegion,
{
}

/// The gizmo is there for a selection of curve spans only, and for none while a tool
/// is at hand.
pub proof fn the_gizmo_is_there_for_curve_spans(
    modes: ViewportModes,
    selection: TopologySelection,
    target: TopologySpanTarget,
)
    requires
        gizmo_allowed(modes, selection),
    ensures
        !modes.drawing,
        !modes.pulse,
        !modes.placing_probe,
        selection is Spans,
        exists|span: u64| selection.span_set().contains(TopologySpanTarget::Curve(span)),
        target is Outer ==> !selection.span_set().contains(target),
{
    let some = choose|some: TopologySpanTarget| selection.span_set().contains(some);
    if forall|some: TopologySpanTarget| !selection.span_set().contains(some) {
        assert(selection.span_set() =~= Set::<TopologySpanTarget>::empty());
    }
    assert(some is Curve);
    assert(selection.span_set().contains(TopologySpanTarget::Curve(some->Curve_0)));
}

/// Without a tool, a selection of spans of curves alone has the gizmo.
pub proof fn curve_spans_have_the_gizmo(
    modes: ViewportModes,
    selection: TopologySelection,
    span: u64,
)
    requires
        !modes.drawing,
        !modes.pulse,
        !modes.placing_probe,
        selection is Spans,
        selection.span_set().contains(TopologySpanTarget::Curve(span)),
        forall|side: OuterSide|
            !#[trigger] selection.span_set().contains(TopologySpanTarget::Outer(side)),
    ensures
        gizmo_allowed(modes, selection),
{
    assert forall|target: TopologySpanTarget| #[trigger]
        selection.span_set().contains(target) implies target is Curve by {
        if let TopologySpanTarget::Outer(side) = target {
            assert(!selection.span_set().contains(TopologySpanTarget::Outer(side)));
        }
    }
}

/// The gizmo reaches every point that it moves.
pub proof fn the_gizmo_reaches_every_point(distances: Seq<Scalar>, floor: Scalar, i: int)
    requires
        !floor.nan(),
        0 <= i < distances.len(),
    ensures
        floor.le_num(reach_of(distances, floor)),
        !distances[i].nan() ==> distances[i].le_num(reach_of(distances, floor)),
        reach_of(distances, floor) == floor || distances.contains(reach_of(distances, floor)),
    decreases distances.len(),
{
    let front = distances.drop_last();
    let before = reach_of(front, floor);
    assert(distances[distances.len() - 1] == distances.last());
    if front.len() > 0 {
        the_gizmo_reaches_every_point(
            front,
            floor,
            if i < front.len() {
                i
            } else {
                0
            },
        );
        if front.contains(before) {
            assert(distances[front.index_of(before)] == before);
        }
    }
}

/// The frame of the selected region is shown with the materials, where its material
/// or a source that acts in it varies; it is that region's own frame.
pub proof fn the_frame_of_the_selected_region_is_shown(
    panel: Option<InspectorPanel>,
    scene: TopologyScene,
    selected: u64,
    material_uses: bool,
    varying: Seq<bool>,
    r: int,
)
    requires
        0 <= r < scene.regions@.len(),
        scene.regions@[r].id == selected,
        forall|i: int| 0 <= i < r ==> (#[trigger] scene.regions@[i]).id != selected,
    ensures
        shown_frame(panel, scene, selected, material_uses, varying) matches Some(shown)
            ==> shown.region == selected && shown.frame == scene.regions@[r].frame,
        shown_frame(panel, scene, selected, material_uses, varying) is Some <==> panel == Some(
            InspectorPanel::Materials,
        ) && (material_uses || exists|i: int|
            0 <= i < scene.volume_sources@.len() && (#[trigger] scene.volume_sources@[i]).region
                == selected && scene.volume_sources@[i].enabled && varying[i]),
{
    first_place_found(scene.regions@, |region: Region| region.id == selected, r);
}

/// No frame is shown of a region that is not there.
pub proof fn no_frame_of_a_missing_region_is_shown(
    panel: Option<InspectorPanel>,
    scene: TopologyScene,
    selected: u64,
    material_uses: bool,
    varying: Seq<bool>,
)
    requires
        forall|i: int|
            0 <= i < scene.regions@.len() ==> (#[trigger] scene.regions@[i]).id != selected,
    ensures
        shown_frame(panel, scene, selected, material_uses, varying) is None,
{
    first_place_is_least(scene.regions@, |region: Region| region.id == selected);
}

/// A moved update moves the same point, and to where it is moved.
pub proof fn a_moved_update_moves_the_same_point(update: TopologyTransformUpdate, point: Point2)
    ensures
        update.moved_to(point).place() == point,
        update.moved_to(update.place()) == update,
        update matches TopologyTransformUpdate::Control { curve, control, .. } ==> update.moved_to(
            point,
        ) == (TopologyTransformUpdate::Control { curve, control, point }),
        update matches TopologyTransformUpdate::Vertex { vertex, .. } ==> update.moved_to(point)
            == (TopologyTransformUpdate::Vertex { vertex, point }),
{
}

/// A transform is usable if all of it is finite and it scales by more than nothing,
/// along each axis.
pub proof fn a_usable_transform_is_finite_throughout(
    transform: RigidTransform,
    pivot: Point2,
    scale_x: Scalar,
    scale_y: Scalar,
)
    ensures
        transform.usable() <==> transform.pivot.x.finite() && transform.pivot.y.finite()
            && transform.translation.x.finite() && transform.translation.y.finite()
            && transform.rotation_radians.finite() && transform.scale.finite()
            && transform.scale.place() > 0,
        usable_axis_scale(pivot, scale_x, scale_y) <==> pivot.x.finite() && pivot.y.finite()
            && scale_x.finite() && scale_y.finite() && scale_x.place() > 0 && scale_y.place() > 0,
{
}

/// A transform moves what the selection moves, each point by itself and to where the
/// transform puts it, and it names the same points.
pub proof fn a_transform_moves_each_point_by_itself<F: Fn(Point2) -> Point2>(
    geometry: TopologyGeometry,
    shapes: Seq<CurveShape>,
    points: Seq<Point2>,
    selected: Set<TopologySpanTarget>,
    apply: F,
    updates: Vec<TopologyTransformUpdate>,
)
    requires
        plans_transform(geometry, shapes, points, selected, apply, Ok(updates)),
    ensures
        exists|still: Vec<TopologyTransformUpdate>|
            {
                &&& #[trigger] plans(geometry, shapes, points, selected, Ok(still))
                &&& still@.len() == updates@.len()
                &&& forall|i: int|
                    0 <= i < still@.len() ==> {
                        &&& call_ensures(
                            apply,
                            (still@[i].place(),),
                            (#[trigger] updates@[i]).place(),
                        )
                        &&& still@[i] matches TopologyTransformUpdate::Control {
                            curve,
                            control,
                            ..
                        } ==> updates@[i] == (TopologyTransformUpdate::Control {
                            curve,
                            control,
                            point: updates@[i].place(),
                        })
                        &&& still@[i] matches TopologyTransformUpdate::Vertex {
                            vertex,
                            ..
                        } ==> updates@[i] == (TopologyTransformUpdate::Vertex {
                            vertex,
                            point: updates@[i].place(),
                        })
                    }
            },
{
}

} // verus!
