//! Which points a transform of the selection moves, and when there is no such
//! transform.

use crate::collect::first_value;
use crate::model::{CurveSpline, TopologyCurve, TopologyGeometry, TopologyVertex};
use crate::ordered_set::{ascending, Ordered, OrderedSet};
use crate::scalar::{Point2, Scalar};
use crate::scene_codec::spline_data;
use crate::selection::{incident, TopologyHandle, TopologySpanTarget};
use crate::validation::{curve_named, find_curve};
use vstd::prelude::*;

verus! {

#[derive(Clone, Copy, Debug, PartialEq, Eq, Structural)]
pub struct RigidTransform {
    pub pivot: Point2,
    pub translation: Point2,
    pub rotation_radians: Scalar,
    pub scale: Scalar,
}

impl RigidTransform {
    pub open spec fn usable(self) -> bool {
        &&& self.pivot.finite_point()
        &&& self.translation.finite_point()
        &&& self.rotation_radians.finite()
        &&& self.scale.finite()
        &&& Scalar::zero_num().lt_num(self.scale)
    }

    pub fn valid(self) -> (result: bool)
        ensures
            result == self.usable(),
    {
        self.pivot.finite() && self.translation.finite() && self.rotation_radians.is_finite()
            && self.scale.is_finite() && Scalar::zero().less(self.scale)
    }
}

#[derive(Clone, Copy, Debug, PartialEq, Eq, Structural)]
pub enum TopologyTransformUpdate {
    Control { curve: u64, control: usize, point: Point2 },
    Vertex { vertex: u64, point: Point2 },
}

impl TopologyTransformUpdate {
    pub open spec fn place(self) -> Point2 {
        match self {
            TopologyTransformUpdate::Control { point, .. } => point,
            TopologyTransformUpdate::Vertex { point, .. } => point,
        }
    }

    /// The same update to another point.
    pub open spec fn moved_to(self, point: Point2) -> Self {
        match self {
            TopologyTransformUpdate::Control { curve, control, .. } =>
                TopologyTransformUpdate::Control { curve, control, point },
            TopologyTransformUpdate::Vertex { vertex, .. } => TopologyTransformUpdate::Vertex {
                vertex,
                point,
            },
        }
    }
}

#[derive(Debug)]
pub enum TopologyTransformIssue {
    EmptySelection,
    OuterBoundarySelected,
    NonC0Selection,
    PartialJunction { vertex: u64, missing: OrderedSet<u64> },
    InvalidTransform,
}

impl TopologyTransformIssue {
    pub open spec fn text(self) -> Seq<char> {
        match self {
            TopologyTransformIssue::PartialJunction { .. } =>
                "Junction also belongs to unselected spans"@,
            TopologyTransformIssue::EmptySelection => "Select one or more curve spans"@,
            TopologyTransformIssue::OuterBoundarySelected =>
                "Outer boundary extents use their contextual controls"@,
            TopologyTransformIssue::NonC0Selection =>
                "Selected span section must end at a corner or include the whole curve"@,
            TopologyTransformIssue::InvalidTransform => "Transform values are invalid"@,
        }
    }

    pub fn message(&self) -> (result: &'static str)
        ensures
            result@ == self.text(),
    {
        match self {
            TopologyTransformIssue::PartialJunction { .. } =>
                "Junction also belongs to unselected spans",
            TopologyTransformIssue::EmptySelection => "Select one or more curve spans",
            TopologyTransformIssue::OuterBoundarySelected =>
                "Outer boundary extents use their contextual controls",
            TopologyTransformIssue::NonC0Selection =>
                "Selected span section must end at a corner or include the whole curve",
            TopologyTransformIssue::InvalidTransform => "Transform values are invalid",
        }
    }
}

/// What the engine says of the shape of a curve.
#[derive(Debug)]
pub struct CurveShape {
    /// The control points that shape each span.
    pub span_controls: Vec<Option<Vec<usize>>>,
    /// The order of continuity where each span starts; zero is a corner.
    pub continuity: Vec<Option<u8>>,
}

/// Whether the shapes describe the curves, and the curves can be told apart.
pub open spec fn shapes_fit(curves: Seq<TopologyCurve>, shapes: Seq<CurveShape>) -> bool {
    &&& shapes.len() == curves.len()
    &&& forall|i: int| 0 <= i < curves.len() ==> #[trigger] shape_fits(curves[i], shapes[i])
    &&& forall|i: int, j: int|
        0 <= i < j < curves.len() ==> (#[trigger] curves[i]).id != (#[trigger] curves[j]).id
}

pub open spec fn shape_fits(curve: TopologyCurve, shape: CurveShape) -> bool {
    &&& shape.span_controls@.len() == curve.spans@.len()
    &&& shape.continuity@.len() == curve.spans@.len()
    &&& forall|i: int|
        0 <= i < curve.spans@.len() && (#[trigger] shape.span_controls@[i]) is Some
            ==> controls_exist(curve, shape.span_controls@[i]->0@)
}

pub open spec fn controls_exist(curve: TopologyCurve, controls: Seq<usize>) -> bool {
    forall|k: int|
        0 <= k < controls.len() ==> (#[trigger] controls[k]) < spline_data(
            curve.spline,
        ).controls@.len()
}

/// Drags one handle.
pub open spec fn dragged(
    geometry: TopologyGeometry,
    handle: TopologyHandle,
    point: Point2,
) -> Result<TopologyTransformUpdate, TopologyTransformIssue> {
    if !point.finite_point() {
        Err(TopologyTransformIssue::InvalidTransform)
    } else {
        match handle {
            TopologyHandle::Control { curve, control } => match curve_named(
                geometry.curves@,
                curve,
            ) {
                Some(found) => if control < spline_data(found.spline).controls@.len() {
                    Ok(TopologyTransformUpdate::Control { curve, control, point })
                } else {
                    Err(TopologyTransformIssue::EmptySelection)
                },
                None => Err(TopologyTransformIssue::EmptySelection),
            },
            TopologyHandle::Junction(vertex) => if has_vertex(geometry.vertices@, vertex) {
                Ok(TopologyTransformUpdate::Vertex { vertex, point })
            } else {
                Err(TopologyTransformIssue::EmptySelection)
            },
        }
    }
}

pub open spec fn has_vertex(vertices: Seq<TopologyVertex>, id: u64) -> bool {
    exists|i: int| 0 <= i < vertices.len() && (#[trigger] vertices[i]).id == id
}

fn control_count(curve: &TopologyCurve) -> (result: usize)
    ensures
        result == spline_data(curve.spline).controls@.len(),
{
    match &curve.spline {
        CurveSpline::Closed(data) => data.controls.len(),
        CurveSpline::Open(data) => data.controls.len(),
    }
}

pub(crate) fn control_at(curve: &TopologyCurve, control: usize) -> (result: Point2)
    requires
        control < spline_data(curve.spline).controls@.len(),
    ensures
        result == spline_data(curve.spline).controls@[control as int],
{
    match &curve.spline {
        CurveSpline::Closed(data) => data.controls[control],
        CurveSpline::Open(data) => data.controls[control],
    }
}

fn vertex_exists(vertices: &Vec<TopologyVertex>, id: u64) -> (result: bool)
    ensures
        result == has_vertex(vertices@, id),
{
    let mut index: usize = 0;
    while index < vertices.len()
        invariant
            index <= vertices@.len(),
            forall|i: int| 0 <= i < index ==> (#[trigger] vertices@[i]).id != id,
        decreases vertices@.len() - index,
    {
        if vertices[index].id == id {
            assert(vertices@[index as int].id == id);
            return true;
        }
        index = index + 1;
    }
    false
}

pub fn plan_handle_drag(
    geometry: &TopologyGeometry,
    handle: TopologyHandle,
    point: Point2,
) -> (result: Result<TopologyTransformUpdate, TopologyTransformIssue>)
    ensures
        result == dragged(*geometry, handle, point),
{
    if !point.finite() {
        return Err(TopologyTransformIssue::InvalidTransform);
    }
    match handle {
        TopologyHandle::Control { curve, control } => match find_curve(&geometry.curves, curve) {
            Some(place) => if control < control_count(&geometry.curves[place]) {
                Ok(TopologyTransformUpdate::Control { curve, control, point })
            } else {
                Err(TopologyTransformIssue::EmptySelection)
            },
            None => Err(TopologyTransformIssue::EmptySelection),
        },
        TopologyHandle::Junction(vertex) => if vertex_exists(&geometry.vertices, vertex) {
            Ok(TopologyTransformUpdate::Vertex { vertex, point })
        } else {
            Err(TopologyTransformIssue::EmptySelection)
        },
    }
}

/// The ids of the selected curve spans.
pub open spec fn selected_ids(selected: Set<TopologySpanTarget>) -> Set<u64> {
    Set::new(|id: u64| selected.contains(TopologySpanTarget::Curve(id)))
}

pub open spec fn some_outer(selected: Set<TopologySpanTarget>) -> bool {
    exists|target: TopologySpanTarget| selected.contains(target) && target is Outer
}

/// Whether a junction joins selected spans with others.
pub open spec fn partial_junction(
    curves: Seq<TopologyCurve>,
    selected: Set<u64>,
    vertex: u64,
) -> bool {
    let spans = incident(curves, vertex);
    &&& exists|id: u64| #[trigger] spans.contains(id) && selected.contains(id)
    &&& exists|id: u64| #[trigger] spans.contains(id) && !selected.contains(id)
}

pub open spec fn first_partial(
    geometry: TopologyGeometry,
    selected: Set<u64>,
) -> Option<TopologyVertex> {
    first_value(
        geometry.vertices@,
        |vertex: TopologyVertex| partial_junction(geometry.curves@, selected, vertex.id),
    )
}

pub open spec fn span_chosen(curve: TopologyCurve, selected: Set<u64>, span: int) -> bool {
    selected.contains(curve.spans@[span].id)
}

pub open spec fn any_chosen(curve: TopologyCurve, selected: Set<u64>) -> bool {
    exists|i: int| 0 <= i < curve.spans@.len() && #[trigger] span_chosen(curve, selected, i)
}

pub open spec fn all_chosen(curve: TopologyCurve, selected: Set<u64>) -> bool {
    forall|i: int| 0 <= i < curve.spans@.len() ==> #[trigger] span_chosen(curve, selected, i)
}

/// Whether the selection ends at a corner wherever it ends on a curve.
pub open spec fn ends_at_corners(
    open: bool,
    chosen: Seq<bool>,
    continuity: Seq<Option<u8>>,
) -> bool {
    forall|i: int|
        0 <= i < chosen.len() && selection_ends(open, chosen, i) ==> #[trigger] continuity[i]
            == Some(0u8)
}

/// Whether the selection begins or stops where a span starts.
pub open spec fn selection_ends(open: bool, chosen: Seq<bool>, span: int) -> bool {
    if span > 0 {
        chosen[span - 1] != chosen[span]
    } else {
        !open && chosen[chosen.len() - 1] != chosen[0]
    }
}

pub open spec fn chosen_spans(curve: TopologyCurve, selected: Set<u64>) -> Seq<bool> {
    Seq::new(curve.spans@.len(), |i: int| span_chosen(curve, selected, i))
}

/// Whether the selected part of a curve can be moved.
pub open spec fn curve_movable(
    curve: TopologyCurve,
    shape: CurveShape,
    selected: Set<u64>,
) -> bool {
    any_chosen(curve, selected) ==> {
        &&& all_chosen(curve, selected) || ends_at_corners(
            curve.spline is Open,
            chosen_spans(curve, selected),
            shape.continuity@,
        )
        &&& forall|i: int|
            0 <= i < curve.spans@.len() && #[trigger] span_chosen(curve, selected, i)
                ==> shape.span_controls@[i] is Some
    }
}

#[derive(Clone, Copy, Debug, PartialEq, Eq, Structural)]
pub struct ControlKey {
    pub curve: u64,
    pub control: usize,
}

impl Ordered for ControlKey {
    open spec fn before(self, other: Self) -> bool {
        self.curve < other.curve || (self.curve == other.curve && self.control < other.control)
    }

    proof fn irreflexive(value: Self) {
    }

    proof fn transitive(first: Self, second: Self, third: Self) {
    }

    proof fn total(first: Self, second: Self) {
    }

    fn is_before(&self, other: &Self) -> (result: bool) {
        self.curve < other.curve || (self.curve == other.curve && self.control < other.control)
    }
}

/// Whether a control point shapes a selected span of a curve.
pub open spec fn curve_moves(
    curve: TopologyCurve,
    shape: CurveShape,
    selected: Set<u64>,
    control: usize,
) -> bool {
    exists|i: int|
        0 <= i < curve.spans@.len() && #[trigger] span_chosen(curve, selected, i)
            && shape.span_controls@[i] is Some && shape.span_controls@[i]->0@.contains(control)
}

/// The control points that move with the selection.
pub open spec fn moved_controls(
    curves: Seq<TopologyCurve>,
    shapes: Seq<CurveShape>,
    selected: Set<u64>,
) -> Set<ControlKey> {
    Set::new(|key: ControlKey| moves(curves, shapes, selected, key))
}

pub open spec fn moves(
    curves: Seq<TopologyCurve>,
    shapes: Seq<CurveShape>,
    selected: Set<u64>,
    key: ControlKey,
) -> bool {
    exists|i: int|
        0 <= i < curves.len() && (#[trigger] curves[i]).id == key.curve && curve_moves(
            curves[i],
            shapes[i],
            selected,
            key.control,
        )
}

/// Where a control point stands.
pub open spec fn control_update(curves: Seq<TopologyCurve>, key: ControlKey)
    -> TopologyTransformUpdate {
    TopologyTransformUpdate::Control {
        curve: key.curve,
        control: key.control,
        point: spline_data(curve_named(curves, key.curve)->0.spline).controls@[key.control as int],
    }
}

/// Whether a junction moves with the selection: it has spans, and all of them
/// are selected.
pub open spec fn junction_moves(
    curves: Seq<TopologyCurve>,
    selected: Set<u64>,
    vertex: u64,
) -> bool {
    &&& incident(curves, vertex) != Set::<u64>::empty()
    &&& incident(curves, vertex).subset_of(selected)
}

/// The junctions that move with the selection, where they stand.
pub open spec fn vertex_updates(
    curves: Seq<TopologyCurve>,
    selected: Set<u64>,
    vertices: Seq<TopologyVertex>,
    points: Seq<Point2>,
) -> Seq<TopologyTransformUpdate>
    decreases vertices.len(),
{
    if vertices.len() == 0 {
        Seq::empty()
    } else {
        let earlier = vertex_updates(
            curves,
            selected,
            vertices.drop_last(),
            points.drop_last(),
        );
        if junction_moves(curves, selected, vertices.last().id) {
            earlier.push(
                TopologyTransformUpdate::Vertex {
                    vertex: vertices.last().id,
                    point: points.last(),
                },
            )
        } else {
            earlier
        }
    }
}

/// Whether these are the updates of a selection that moves: its control points
/// in ascending order, then its junctions.
pub open spec fn lists_moves(
    geometry: TopologyGeometry,
    shapes: Seq<CurveShape>,
    points: Seq<Point2>,
    selected: Set<u64>,
    updates: Seq<TopologyTransformUpdate>,
) -> bool {
    exists|keys: Seq<ControlKey>|
        {
            &&& #[trigger] ascending(keys)
            &&& keys.to_set() == moved_controls(geometry.curves@, shapes, selected)
            &&& updates == keys.map_values(
                |key: ControlKey| control_update(geometry.curves@, key),
            ) + vertex_updates(geometry.curves@, selected, geometry.vertices@, points)
        }
}

/// Whether this is the answer to the question what a selection moves.
pub open spec fn plans(
    geometry: TopologyGeometry,
    shapes: Seq<CurveShape>,
    points: Seq<Point2>,
    selected: Set<TopologySpanTarget>,
    result: Result<Vec<TopologyTransformUpdate>, TopologyTransformIssue>,
) -> bool {
    let ids = selected_ids(selected);
    if selected == Set::<TopologySpanTarget>::empty() {
        result is Err && result->Err_0 is EmptySelection
    } else if some_outer(selected) {
        result is Err && result->Err_0 is OuterBoundarySelected
    } else if let Some(vertex) = first_partial(geometry, ids) {
        &&& result is Err
        &&& result->Err_0 matches TopologyTransformIssue::PartialJunction {
            vertex: named,
            missing,
        }
        &&& named == vertex.id
        &&& missing.wf()
        &&& missing@ == incident(geometry.curves@, vertex.id).difference(ids)
    } else if exists|i: int|
        0 <= i < geometry.curves@.len() && !curve_movable(
            #[trigger] geometry.curves@[i],
            shapes[i],
            ids,
        ) {
        result is Err && result->Err_0 is NonC0Selection
    } else {
        result is Ok && lists_moves(geometry, shapes, points, ids, result->Ok_0@)
    }
}

} // verus!
