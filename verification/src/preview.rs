//! Thumbnails of scenes: which faces are painted first, what they are painted
//! with, and where a line enters and leaves a face.

use crate::attachment::FaceAssignment;
use crate::collect::{find, first_value};
use crate::model::{Material, MaterialOverlay, MaterialProperty, Region, Rgb, TopologyScene};
use crate::scalar::{rank_is_injective, Point2, Scalar, INFINITE};
use crate::shuffle::{gathered, the_order_gathers_the_same};
use vstd::multiset::Multiset;
use vstd::prelude::*;

verus! {

/// Numbers in ascending order, by their total order.
pub open spec fn ranked(values: Seq<Scalar>) -> bool {
    forall|i: int, j: int|
        0 <= i <= j < values.len() ==> (#[trigger] values[i]).rank() <= (
        #[trigger] values[j]).rank()
}

/// Sorts numbers by their total order.
pub fn sorted(values: &Vec<Scalar>) -> (result: Vec<Scalar>)
    ensures
        ranked(result@),
        result@.to_multiset() == values@.to_multiset(),
{
    let mut ordered: Vec<Scalar> = Vec::new();
    let mut index: usize = 0;
    assert(values@.take(0) =~= ordered@);
    while index < values.len()
        invariant
            index <= values@.len(),
            ranked(ordered@),
            ordered@.to_multiset() == values@.take(index as int).to_multiset(),
        decreases values@.len() - index,
    {
        let next: Scalar = values[index];
        let mut place: usize = ordered.len();
        while place > 0 && next.ranks_below(ordered[place - 1])
            invariant
                place <= ordered@.len(),
                forall|i: int|
                    place <= i < ordered@.len() ==> next.rank() < (#[trigger] ordered@[i]).rank(),
            decreases place,
        {
            place = place - 1;
        }
        let ghost before = ordered@;
        ordered.insert(place, next);
        proof {
            assert(values@.take(index + 1) =~= values@.take(index as int).push(next));
            assert(ordered@.to_multiset() =~= before.to_multiset().insert(next)) by {
                vstd::seq_lib::to_multiset_insert(before, place as int, next);
            }
            vstd::seq_lib::to_multiset_build(values@.take(index as int), next);
            assert forall|i: int, j: int| 0 <= i <= j < ordered@.len() implies (
            #[trigger] ordered@[i]).rank() <= (#[trigger] ordered@[j]).rank() by {
                if i < place && j == place {
                    assert(ordered@[i] == before[i]);
                    assert(before[place - 1].rank() <= next.rank());
                    assert(before[i].rank() <= before[place - 1].rank());
                } else if i == place && j > place {
                    assert(ordered@[j] == before[j - 1]);
                } else {
                    let old_i = if i < place {
                        i
                    } else {
                        i - 1
                    };
                    let old_j = if j < place {
                        j
                    } else {
                        j - 1
                    };
                    if i != place && j != place {
                        assert(ordered@[i] == before[old_i]);
                        assert(ordered@[j] == before[old_j]);
                    }
                }
            }
        }
        index = index + 1;
    }
    assert(values@.take(index as int) =~= values@);
    ordered
}

/// A stretch of a line inside a face.
#[derive(Clone, Copy, Debug, PartialEq, Eq, Structural)]
pub struct LineSpan {
    pub start: Scalar,
    pub end: Scalar,
}

/// The stretches between the first crossings, taken in pairs. A pair that meets
/// in a point is none.
pub open spec fn paired(crossings: Seq<Scalar>, pairs: nat) -> Seq<LineSpan>
    decreases pairs,
{
    if pairs == 0 {
        Seq::empty()
    } else {
        let start = crossings[2 * (pairs - 1)];
        let end = crossings[2 * (pairs - 1) + 1];
        let earlier = paired(crossings, (pairs - 1) as nat);
        if start.lt_num(end) {
            earlier.push(LineSpan { start, end })
        } else {
            earlier
        }
    }
}

/// Whether an edge crosses a height.
pub open spec fn edge_crosses(a: Point2, b: Point2, y: Scalar) -> bool {
    y.lt_num(a.y) != y.lt_num(b.y)
}

pub fn crosses_height(a: Point2, b: Point2, y: Scalar) -> (result: bool)
    ensures
        result == edge_crosses(a, b, y),
{
    y.less(a.y) != y.less(b.y)
}

/// An edge of a face.
#[derive(Clone, Copy, Debug, PartialEq, Eq, Structural)]
pub struct FaceEdge {
    pub start: Point2,
    pub end: Point2,
}

/// The first edges of a closed cycle that cross a height, as many edges as
/// `count`.
pub open spec fn cycle_crossings(cycle: Seq<Point2>, y: Scalar, count: nat) -> Seq<FaceEdge>
    decreases count,
{
    if count == 0 {
        Seq::empty()
    } else {
        let start = cycle[count - 1];
        let end = cycle[count as int % cycle.len() as int];
        let earlier = cycle_crossings(cycle, y, (count - 1) as nat);
        if edge_crosses(start, end, y) {
            earlier.push(FaceEdge { start, end })
        } else {
            earlier
        }
    }
}

/// The edges of some cycles that cross a height.
pub open spec fn all_crossings(cycles: Seq<Vec<Point2>>, y: Scalar) -> Seq<FaceEdge>
    decreases cycles.len(),
{
    if cycles.len() == 0 {
        Seq::empty()
    } else {
        all_crossings(cycles.drop_last(), y) + cycle_crossings(
            cycles.last()@,
            y,
            cycles.last()@.len(),
        )
    }
}

/// Lists the edges of a face that cross a height. Every cycle is closed, and all
/// of them are taken together.
pub fn crossing_edges(cycles: &Vec<Vec<Point2>>, y: Scalar) -> (result: Vec<FaceEdge>)
    ensures
        result@ == all_crossings(cycles@, y),
{
    let mut edges: Vec<FaceEdge> = Vec::new();
    let mut index: usize = 0;
    while index < cycles.len()
        invariant
            index <= cycles@.len(),
            edges@ == all_crossings(cycles@.take(index as int), y),
        decreases cycles@.len() - index,
    {
        let cycle: &Vec<Point2> = &cycles[index];
        let count: usize = cycle.len();
        let ghost before = edges@;
        let mut place: usize = 0;
        while place < count
            invariant
                place <= count,
                count == cycle@.len(),
                edges@ =~= before + cycle_crossings(cycle@, y, place as nat),
            decreases count - place,
        {
            let start: Point2 = cycle[place];
            let following: usize = if place + 1 < count {
                place + 1
            } else {
                0
            };
            proof {
                if place + 1 < count {
                    vstd::arithmetic::div_mod::lemma_small_mod((place + 1) as nat, count as nat);
                } else {
                    vstd::arithmetic::div_mod::lemma_mod_self_0(count as int);
                }
            }
            let end: Point2 = cycle[following];
            if crosses_height(start, end, y) {
                edges.push(FaceEdge { start, end });
            }
            place = place + 1;
        }
        assert(cycles@.take(index + 1).drop_last() =~= cycles@.take(index as int));
        index = index + 1;
    }
    assert(cycles@.take(index as int) =~= cycles@);
    edges
}

/// Where a horizontal line is inside a face. `crossings` are where it crosses the
/// edges of all the cycles of the face, so that pairing them leaves out the
/// holes.
pub fn face_spans(crossings: &Vec<Scalar>) -> (result: Vec<LineSpan>)
    ensures
        exists|ordered: Seq<Scalar>| #[trigger]
            ranked(ordered) && ordered.to_multiset() == crossings@.to_multiset() && result@
                == paired(ordered, ordered.len() / 2),
{
    let ordered: Vec<Scalar> = sorted(crossings);
    let mut spans: Vec<LineSpan> = Vec::new();
    let mut pair: usize = 0;
    let total: usize = ordered.len();
    let pairs: usize = total / 2;
    while pair < pairs
        invariant
            pair <= pairs,
            total == ordered@.len(),
            pairs == total / 2,
            spans@ == paired(ordered@, pair as nat),
        decreases pairs - pair,
    {
        let start: Scalar = ordered[2 * pair];
        let end: Scalar = ordered[2 * pair + 1];
        if start.less(end) {
            spans.push(LineSpan { start, end });
        }
        pair = pair + 1;
    }
    assert(ranked(ordered@));
    spans
}

/// The stretches follow one another: each begins where it can and ends before
/// the next begins.
pub proof fn spans_follow_one_another(ordered: Seq<Scalar>, pairs: nat, i: int, j: int)
    requires
        ranked(ordered),
        2 * pairs <= ordered.len(),
        0 <= i < j < paired(ordered, pairs).len(),
    ensures
        paired(ordered, pairs)[i].start.lt_num(paired(ordered, pairs)[i].end),
        paired(ordered, pairs)[i].end.rank() <= paired(ordered, pairs)[j].start.rank(),
    decreases pairs,
{
    if pairs > 0 {
        let earlier = paired(ordered, (pairs - 1) as nat);
        if j < earlier.len() {
            spans_follow_one_another(ordered, (pairs - 1) as nat, i, j);
        } else {
            spans_come_from_the_crossings(ordered, (pairs - 1) as nat, i);
            let end = choose|k: int|
                0 <= k < 2 * (pairs - 1) && #[trigger] ordered[k] == earlier[i].end;
            assert(ordered[end].rank() <= ordered[2 * (pairs - 1)].rank());
        }
    }
}

/// Numbers have one ascending order.
proof fn one_order_is_ascending(one: Seq<Scalar>, other: Seq<Scalar>)
    requires
        ranked(one),
        ranked(other),
        one.to_multiset() == other.to_multiset(),
    ensures
        one == other,
    decreases one.len(),
{
    broadcast use vstd::seq_lib::group_to_multiset_ensures;

    assert(one.len() == one.to_multiset().len());
    assert(other.len() == other.to_multiset().len());
    if one.len() > 0 {
        let a = one.last();
        let b = other.last();
        assert(one.contains(a) && other.contains(b));
        assert(other.to_multiset().count(a) > 0 && one.to_multiset().count(b) > 0);
        let i = one.index_of(b);
        let j = other.index_of(a);
        assert(one[i] == b && other[j] == a);
        assert(one[i].rank() <= one[one.len() - 1].rank());
        assert(other[j].rank() <= other[other.len() - 1].rank());
        rank_is_injective(a, b);
        let front = one.drop_last();
        let rest = other.drop_last();
        assert(one =~= front.push(a));
        assert(other =~= rest.push(a));
        assert(one.to_multiset() =~= front.to_multiset().insert(a));
        assert(other.to_multiset() =~= rest.to_multiset().insert(a));
        assert(front.to_multiset() =~= one.to_multiset().remove(a));
        assert(rest.to_multiset() =~= other.to_multiset().remove(a));
        one_order_is_ascending(front, rest);
        assert(one =~= other);
    } else {
        assert(one =~= other);
    }
}

/// Where a line crosses the edges of some cycles; `at` is where it crosses one.
pub open spec fn crossing_places(
    cycles: Seq<Vec<Point2>>,
    y: Scalar,
    at: spec_fn(FaceEdge) -> Scalar,
) -> Seq<Scalar> {
    all_crossings(cycles, y).map_values(at)
}

spec fn cycle_part(y: Scalar, at: spec_fn(FaceEdge) -> Scalar) -> spec_fn(Vec<Point2>) -> Multiset<
    Scalar,
> {
    |cycle: Vec<Point2>| cycle_crossings(cycle@, y, cycle@.len()).map_values(at).to_multiset()
}

proof fn crossings_gather_those_of_the_cycles(
    cycles: Seq<Vec<Point2>>,
    y: Scalar,
    at: spec_fn(FaceEdge) -> Scalar,
)
    ensures
        crossing_places(cycles, y, at).to_multiset() == gathered(cycles, cycle_part(y, at)),
    decreases cycles.len(),
{
    broadcast use vstd::seq_lib::group_to_multiset_ensures;

    if cycles.len() == 0 {
        assert(crossing_places(cycles, y, at).to_multiset() =~= Multiset::empty());
    } else {
        let earlier = crossing_places(cycles.drop_last(), y, at);
        let last = cycle_crossings(cycles.last()@, y, cycles.last()@.len()).map_values(at);
        crossings_gather_those_of_the_cycles(cycles.drop_last(), y, at);
        assert(crossing_places(cycles, y, at) =~= earlier + last);
        vstd::seq_lib::lemma_multiset_commutative(earlier, last);
    }
}

/// The spans of a face do not depend on the order of its cycles. `at` is where
/// the line crosses an edge; `ordered` and `other` are the crossings of the cycles
/// and of the shuffled cycles in ascending order.
pub proof fn the_order_of_the_cycles_does_not_matter(
    cycles: Seq<Vec<Point2>>,
    shuffled: Seq<Vec<Point2>>,
    y: Scalar,
    at: spec_fn(FaceEdge) -> Scalar,
    ordered: Seq<Scalar>,
    other: Seq<Scalar>,
)
    requires
        cycles.to_multiset() == shuffled.to_multiset(),
        ranked(ordered),
        ranked(other),
        ordered.to_multiset() == crossing_places(cycles, y, at).to_multiset(),
        other.to_multiset() == crossing_places(shuffled, y, at).to_multiset(),
    ensures
        paired(ordered, ordered.len() / 2) == paired(other, other.len() / 2),
{
    crossings_gather_those_of_the_cycles(cycles, y, at);
    crossings_gather_those_of_the_cycles(shuffled, y, at);
    the_order_gathers_the_same(cycles, shuffled, cycle_part(y, at));
    one_order_is_ascending(ordered, other);
}

/// Whether a line misses a cycle: all of its points are above the line, or none
/// is.
pub open spec fn misses(cycle: Seq<Point2>, y: Scalar) -> bool {
    ||| forall|i: int| 0 <= i < cycle.len() ==> y.lt_num((#[trigger] cycle[i]).y)
    ||| forall|i: int| 0 <= i < cycle.len() ==> !y.lt_num((#[trigger] cycle[i]).y)
}

proof fn a_missed_cycle_is_not_crossed(cycle: Seq<Point2>, y: Scalar, count: nat)
    requires
        misses(cycle, y),
        count <= cycle.len(),
    ensures
        cycle_crossings(cycle, y, count).len() == 0,
    decreases count,
{
    if count > 0 {
        a_missed_cycle_is_not_crossed(cycle, y, (count - 1) as nat);
        let following = count as int % cycle.len() as int;
        vstd::arithmetic::div_mod::lemma_mod_bound(count as int, cycle.len() as int);
        assert(y.lt_num(cycle[count - 1].y) == y.lt_num(cycle[following].y));
    }
}

/// A line that misses every cycle of a face crosses no edge and has no span in it.
pub proof fn a_line_that_misses_every_cycle_has_no_span(
    cycles: Seq<Vec<Point2>>,
    y: Scalar,
    ordered: Seq<Scalar>,
)
    requires
        forall|i: int| 0 <= i < cycles.len() ==> misses((#[trigger] cycles[i])@, y),
        ordered.len() == all_crossings(cycles, y).len(),
    ensures
        all_crossings(cycles, y).len() == 0,
        paired(ordered, ordered.len() / 2).len() == 0,
    decreases cycles.len(),
{
    if cycles.len() > 0 {
        let front = cycles.drop_last();
        assert forall|i: int| 0 <= i < front.len() implies misses((#[trigger] front[i])@, y) by {
            assert(front[i] == cycles[i]);
        }
        a_line_that_misses_every_cycle_has_no_span(
            front,
            y,
            Seq::new(all_crossings(front, y).len(), |i: int| ordered[i]),
        );
        assert(misses(cycles[cycles.len() - 1]@, y));
        a_missed_cycle_is_not_crossed(cycles.last()@, y, cycles.last()@.len());
    }
}

proof fn spans_come_from_the_crossings(ordered: Seq<Scalar>, pairs: nat, i: int)
    requires
        0 <= i < paired(ordered, pairs).len(),
    ensures
        paired(ordered, pairs)[i].start.lt_num(paired(ordered, pairs)[i].end),
        exists|k: int|
            0 <= k < 2 * pairs && #[trigger] ordered[k] == paired(ordered, pairs)[i].end,
    decreases pairs,
{
    if pairs > 0 {
        let earlier = paired(ordered, (pairs - 1) as nat);
        if i < earlier.len() {
            spans_come_from_the_crossings(ordered, (pairs - 1) as nat, i);
            let k = choose|k: int|
                0 <= k < 2 * (pairs - 1) && #[trigger] ordered[k] == earlier[i].end;
            assert(ordered[k] == paired(ordered, pairs)[i].end);
        } else {
            assert(ordered[2 * (pairs - 1) + 1] == paired(ordered, pairs)[i].end);
        }
    }
}

/// Places in descending order of area, equal ones as they were listed.
pub open spec fn painted_in_order(places: Seq<usize>, areas: Seq<Scalar>) -> bool {
    forall|i: int, j: int|
        0 <= i < j < places.len() ==> {
            let before = areas[#[trigger] places[i] as int].rank();
            let after = areas[#[trigger] places[j] as int].rank();
            before > after || (before == after && places[i] < places[j])
        }
}

/// The order in which the faces of a scene are painted: the largest first, so
/// that those inside it are painted over it.
pub fn face_order(areas: &Vec<Scalar>) -> (result: Vec<usize>)
    ensures
        result@.len() == areas@.len(),
        painted_in_order(result@, areas@),
        forall|i: int| 0 <= i < result@.len() ==> (#[trigger] result@[i]) < areas@.len(),
{
    let mut places: Vec<usize> = Vec::new();
    let mut index: usize = 0;
    while index < areas.len()
        invariant
            index <= areas@.len(),
            places@.len() == index,
            painted_in_order(places@, areas@),
            forall|i: int| 0 <= i < places@.len() ==> (#[trigger] places@[i]) < index,
        decreases areas@.len() - index,
    {
        let mut place: usize = places.len();
        while place > 0 && areas[places[place - 1]].ranks_below(areas[index])
            invariant
                index < areas@.len(),
                place <= places@.len(),
                places@.len() == index,
                forall|i: int| 0 <= i < places@.len() ==> (#[trigger] places@[i]) < index,
                forall|i: int|
                    place <= i < places@.len() ==> areas@[#[trigger] places@[i] as int].rank()
                        < areas@[index as int].rank(),
            decreases place,
        {
            place = place - 1;
        }
        let ghost before = places@;
        places.insert(place, index);
        proof {
            assert forall|i: int, j: int| 0 <= i < j < places@.len() implies ({
                let larger = areas@[#[trigger] places@[i] as int].rank();
                let smaller = areas@[#[trigger] places@[j] as int].rank();
                larger > smaller || (larger == smaller && places@[i] < places@[j])
            }) by {
                if j == place {
                    assert(places@[i] == before[i]);
                    assert(areas@[before[place - 1] as int].rank() >= areas@[index as int].rank());
                    if i < place - 1 {
                        assert(before[i] < index && before[place - 1] < index);
                    }
                } else if i == place {
                    assert(places@[j] == before[j - 1]);
                } else {
                    let old_i = if i < place {
                        i
                    } else {
                        i - 1
                    };
                    let old_j = if j < place {
                        j
                    } else {
                        j - 1
                    };
                    assert(places@[i] == before[old_i]);
                    assert(places@[j] == before[old_j]);
                }
            }
        }
        index = index + 1;
    }
    places
}

/// What a face is painted with: its colour, and the property and region that it
/// is shaded by where it is.
#[derive(Clone, Copy, Debug, PartialEq, Eq, Structural)]
pub struct FacePaint {
    pub flat: Rgb,
    pub shaded: Option<ShadedFace>,
}

#[derive(Clone, Copy, Debug, PartialEq, Eq, Structural)]
pub struct ShadedFace {
    pub property: MaterialProperty,
    pub region: u64,
}

/// The region of a face, if it has one.
pub open spec fn region_of_face(assignments: Seq<FaceAssignment>, face: u64) -> Option<u64> {
    match first_value(assignments, |assignment: FaceAssignment| assignment.face == face) {
        Some(assignment) => assignment.region,
        None => None,
    }
}

/// The colour of the material of a region.
pub open spec fn region_color(scene: TopologyScene, region: Option<u64>) -> Option<Rgb> {
    match region {
        None => None,
        Some(id) => match first_value(scene.regions@, |region: Region| region.id == id) {
            None => None,
            Some(region) => match first_value(
                scene.materials@,
                |material: Material| material.id == region.material,
            ) {
                None => None,
                Some(material) => Some(material.color),
            },
        },
    }
}

/// A face outside the simulation is a hole, and reads as one.
pub open spec fn hole_color() -> Rgb {
    Rgb { red: 16, green: 23, blue: 31 }
}

pub open spec fn painted(
    scene: TopologyScene,
    assignments: Seq<FaceAssignment>,
    face: u64,
    area: Scalar,
    overlay: MaterialOverlay,
) -> FacePaint {
    let region = region_of_face(assignments, face);
    FacePaint {
        flat: match region_color(scene, region) {
            Some(color) => color,
            None => hole_color(),
        },
        shaded: match (overlay, region) {
            (MaterialOverlay::Property(property), Some(region)) if Scalar::zero_num().lt_num(
                area,
            ) => Some(ShadedFace { property, region }),
            _ => None,
        },
    }
}

fn find_region_of_face(assignments: &Vec<FaceAssignment>, face: u64) -> (result: Option<u64>)
    ensures
        result == region_of_face(assignments@, face),
{
    let named = |assignment: &FaceAssignment| -> (passes: bool)
        ensures
            passes == (assignment.face == face),
        { assignment.face == face };
    match find(
        assignments,
        named,
        Ghost(|assignment: FaceAssignment| assignment.face == face),
    ) {
        Some(place) => assignments[place].region,
        None => None,
    }
}

fn find_color(scene: &TopologyScene, region: u64) -> (result: Option<Rgb>)
    ensures
        result == region_color(*scene, Some(region)),
{
    let named = |candidate: &Region| -> (passes: bool)
        ensures
            passes == (candidate.id == region),
        { candidate.id == region };
    let wanted: u64 = match find(
        &scene.regions,
        named,
        Ghost(|candidate: Region| candidate.id == region),
    ) {
        None => {
            return None;
        },
        Some(place) => scene.regions[place].material,
    };
    let held = |material: &Material| -> (passes: bool)
        ensures
            passes == (material.id == wanted),
        { material.id == wanted };
    match find(
        &scene.materials,
        held,
        Ghost(|material: Material| material.id == wanted),
    ) {
        Some(place) => Some(scene.materials[place].color),
        None => None,
    }
}

/// Picks what a face is painted with: the colour of its material, shaded by the
/// property that the scene shows.
pub fn face_paint(
    scene: &TopologyScene,
    assignments: &Vec<FaceAssignment>,
    face: u64,
    area: Scalar,
    overlay: MaterialOverlay,
) -> (result: FacePaint)
    ensures
        result == painted(*scene, assignments@, face, area, overlay),
{
    let region: Option<u64> = find_region_of_face(assignments, face);
    let color: Option<Rgb> = match region {
        Some(region) => find_color(scene, region),
        None => None,
    };
    let flat: Rgb = match color {
        Some(color) => color,
        None => Rgb { red: 16, green: 23, blue: 31 },
    };
    let shaded: Option<ShadedFace> = match (overlay, region) {
        (MaterialOverlay::Property(property), Some(region)) => if Scalar::zero().less(area) {
            Some(ShadedFace { property, region })
        } else {
            None
        },
        _ => None,
    };
    FacePaint { flat, shaded }
}

/// A face of the compiled scene.
#[derive(Debug)]
pub struct PreviewFace {
    pub id: u64,
    pub area: Scalar,
    pub cycles: Vec<Vec<Point2>>,
}

/// A cell of a face as it is laid out, and what the shown property comes to in
/// its middle, where it is sampled at all.
#[derive(Clone, Copy, Debug, PartialEq, Eq, Structural)]
pub struct MeasuredCell {
    pub low: Point2,
    pub high: Point2,
    pub value: Option<Scalar>,
}

#[derive(Clone, Copy, Debug, PartialEq, Eq, Structural)]
pub enum CellColor {
    Flat(Rgb),
    /// The colour of a value between the least and the largest of the preview.
    Shaded { property: MaterialProperty, value: Scalar },
}

#[derive(Clone, Copy, Debug, PartialEq, Eq, Structural)]
pub struct PreviewQuad {
    pub low: Point2,
    pub high: Point2,
    pub color: CellColor,
}

/// The picture of an example: its cells in the order in which they are painted,
/// the range of the values among them, and the outlines over them.
#[derive(Debug)]
pub struct ExamplePreview {
    pub quads: Vec<PreviewQuad>,
    pub minimum: Scalar,
    pub maximum: Scalar,
    pub strokes: Vec<Vec<Point2>>,
}

pub open spec fn cell_quad(cell: MeasuredCell, overlay: MaterialOverlay, flat: Rgb) -> PreviewQuad {
    PreviewQuad {
        low: cell.low,
        high: cell.high,
        color: match (cell.value, overlay) {
            (Some(value), MaterialOverlay::Property(property)) => CellColor::Shaded {
                property,
                value,
            },
            _ => CellColor::Flat(flat),
        },
    }
}

/// The cells of the faces at these places, one face after the other.
pub open spec fn all_quads(
    scene: TopologyScene,
    assignments: Seq<FaceAssignment>,
    overlay: MaterialOverlay,
    faces: Seq<PreviewFace>,
    cells: Seq<Vec<MeasuredCell>>,
    places: Seq<usize>,
) -> Seq<PreviewQuad>
    decreases places.len(),
{
    if places.len() == 0 {
        Seq::empty()
    } else {
        let face = faces[places.last() as int];
        let paint = painted(scene, assignments, face.id, face.area, overlay);
        all_quads(scene, assignments, overlay, faces, cells, places.drop_last())
            + cells[places.last() as int]@.map_values(
            |cell: MeasuredCell| cell_quad(cell, overlay, paint.flat),
        )
    }
}

/// The outlines of the faces at these places. One point is no outline.
pub open spec fn all_strokes(faces: Seq<PreviewFace>, places: Seq<usize>) -> Seq<Seq<Point2>>
    decreases places.len(),
{
    if places.len() == 0 {
        Seq::empty()
    } else {
        all_strokes(faces, places.drop_last()) + outlines(faces[places.last() as int].cycles@)
    }
}

pub open spec fn outlines(cycles: Seq<Vec<Point2>>) -> Seq<Seq<Point2>>
    decreases cycles.len(),
{
    if cycles.len() == 0 {
        Seq::empty()
    } else if cycles.last()@.len() >= 2 {
        outlines(cycles.drop_last()).push(cycles.last()@)
    } else {
        outlines(cycles.drop_last())
    }
}

pub open spec fn outline_views(strokes: Seq<Vec<Point2>>) -> Seq<Seq<Point2>> {
    strokes.map_values(|stroke: Vec<Point2>| stroke@)
}

/// The least of the values among some cells.
pub open spec fn least_value(quads: Seq<PreviewQuad>) -> Scalar
    decreases quads.len(),
{
    if quads.len() == 0 {
        Scalar { bits: INFINITE }
    } else {
        match quads.last().color {
            CellColor::Shaded { value, .. } => least_value(quads.drop_last()).smaller_num(value),
            CellColor::Flat(_) => least_value(quads.drop_last()),
        }
    }
}

/// The bits of negative infinity.
pub const NEGATIVE_INFINITY_BITS: u64 = 0xfff0000000000000;

/// The largest of the values among some cells.
pub open spec fn largest_value(quads: Seq<PreviewQuad>) -> Scalar
    decreases quads.len(),
{
    if quads.len() == 0 {
        Scalar { bits: NEGATIVE_INFINITY_BITS }
    } else {
        match quads.last().color {
            CellColor::Shaded { value, .. } => largest_value(quads.drop_last()).larger_num(value),
            CellColor::Flat(_) => largest_value(quads.drop_last()),
        }
    }
}

impl ExamplePreview {
    /// Whether this is the picture of the faces, painted in this order.
    pub open spec fn shows(
        self,
        scene: TopologyScene,
        assignments: Seq<FaceAssignment>,
        overlay: MaterialOverlay,
        faces: Seq<PreviewFace>,
        cells: Seq<Vec<MeasuredCell>>,
        places: Seq<usize>,
    ) -> bool {
        &&& self.quads@ == all_quads(scene, assignments, overlay, faces, cells, places)
        &&& outline_views(self.strokes@) == all_strokes(faces, places)
        &&& self.minimum == least_value(self.quads@)
        &&& self.maximum == largest_value(self.quads@)
    }

    fn push_quad(&mut self, quad: PreviewQuad)
        ensures
            final(self).quads@ == old(self).quads@.push(quad),
            final(self).strokes == old(self).strokes,
            old(self).minimum == least_value(old(self).quads@) ==> final(self).minimum
                == least_value(final(self).quads@),
            old(self).maximum == largest_value(old(self).quads@) ==> final(self).maximum
                == largest_value(final(self).quads@),
    {
        if let CellColor::Shaded { value, .. } = quad.color {
            self.minimum = self.minimum.smaller(value);
            self.maximum = self.maximum.larger(value);
        }
        self.quads.push(quad);
        assert(self.quads@.drop_last() =~= old(self).quads@);
    }
}

fn copy_points(points: &Vec<Point2>) -> (result: Vec<Point2>)
    ensures
        result@ == points@,
{
    let mut copied: Vec<Point2> = Vec::new();
    let mut index: usize = 0;
    while index < points.len()
        invariant
            index <= points@.len(),
            copied@ =~= points@.take(index as int),
        decreases points@.len() - index,
    {
        copied.push(points[index]);
        index = index + 1;
    }
    assert(copied@ =~= points@);
    copied
}

fn push_outlines(strokes: &mut Vec<Vec<Point2>>, cycles: &Vec<Vec<Point2>>)
    ensures
        outline_views(final(strokes)@) == outline_views(old(strokes)@) + outlines(cycles@),
{
    let ghost before = outline_views(strokes@);
    let mut index: usize = 0;
    while index < cycles.len()
        invariant
            index <= cycles@.len(),
            outline_views(strokes@) =~= before + outlines(cycles@.take(index as int)),
        decreases cycles@.len() - index,
    {
        assert(cycles@.take(index + 1).drop_last() =~= cycles@.take(index as int));
        if cycles[index].len() >= 2 {
            let ghost shown = strokes@;
            let stroke: Vec<Point2> = copy_points(&cycles[index]);
            strokes.push(stroke);
            assert(outline_views(strokes@) =~= outline_views(shown).push(cycles@[index as int]@));
        }
        index = index + 1;
    }
    assert(cycles@.take(index as int) =~= cycles@);
}

/// Builds the picture of an example from its faces. `cells` are the cells that
/// the application lays out for each of them; where the scene does not compile
/// there are no faces, and the picture is empty.
pub fn build_example_preview(
    scene: &TopologyScene,
    assignments: &Vec<FaceAssignment>,
    overlay: MaterialOverlay,
    faces: &Vec<PreviewFace>,
    cells: &Vec<Vec<MeasuredCell>>,
) -> (result: ExamplePreview)
    requires
        cells@.len() == faces@.len(),
    ensures
        exists|places: Seq<usize>|
            painted_in_order(
                places,
                faces@.map_values(|face: PreviewFace| face.area),
            ) && places.len() == faces@.len() && (forall|i: int|
                0 <= i < places.len() ==> (#[trigger] places[i]) < faces@.len())
                && #[trigger] result.shows(
                *scene,
                assignments@,
                overlay,
                faces@,
                cells@,
                places,
            ),
{
    let mut areas: Vec<Scalar> = Vec::new();
    let mut face: usize = 0;
    while face < faces.len()
        invariant
            face <= faces@.len(),
            areas@ =~= faces@.map_values(|face: PreviewFace| face.area).take(face as int),
        decreases faces@.len() - face,
    {
        areas.push(faces[face].area);
        face = face + 1;
    }
    assert(areas@ =~= faces@.map_values(|face: PreviewFace| face.area));
    let places: Vec<usize> = face_order(&areas);
    let mut preview = ExamplePreview {
        quads: Vec::new(),
        minimum: Scalar { bits: INFINITE },
        maximum: Scalar { bits: NEGATIVE_INFINITY_BITS },
        strokes: Vec::new(),
    };
    assert(outline_views(preview.strokes@) =~= all_strokes(faces@, places@.take(0)));
    let mut index: usize = 0;
    while index < places.len()
        invariant
            index <= places@.len(),
            places@.len() == faces@.len(),
            cells@.len() == faces@.len(),
            forall|i: int| 0 <= i < places@.len() ==> (#[trigger] places@[i]) < faces@.len(),
            preview.shows(
                *scene,
                assignments@,
                overlay,
                faces@,
                cells@,
                places@.take(index as int),
            ),
        decreases places@.len() - index,
    {
        assert(places@.take(index + 1).drop_last() =~= places@.take(index as int));
        let place: usize = places[index];
        let paint: FacePaint = face_paint(
            scene,
            assignments,
            faces[place].id,
            faces[place].area,
            overlay,
        );
        let of_face: &Vec<MeasuredCell> = &cells[place];
        let ghost before = preview.quads@;
        let ghost mapped = of_face@.map_values(
            |cell: MeasuredCell| cell_quad(cell, overlay, paint.flat),
        );
        let mut cell: usize = 0;
        while cell < of_face.len()
            invariant
                cell <= of_face@.len(),
                mapped == of_face@.map_values(
                    |cell: MeasuredCell| cell_quad(cell, overlay, paint.flat),
                ),
                preview.quads@ =~= before + mapped.take(cell as int),
                preview.minimum == least_value(preview.quads@),
                preview.maximum == largest_value(preview.quads@),
                outline_views(preview.strokes@) == all_strokes(
                    faces@,
                    places@.take(index as int),
                ),
            decreases of_face@.len() - cell,
        {
            let laid: MeasuredCell = of_face[cell];
            let color: CellColor = match (laid.value, overlay) {
                (Some(value), MaterialOverlay::Property(property)) => CellColor::Shaded {
                    property,
                    value,
                },
                _ => CellColor::Flat(paint.flat),
            };
            preview.push_quad(PreviewQuad { low: laid.low, high: laid.high, color });
            cell = cell + 1;
        }
        assert(mapped.take(cell as int) =~= mapped);
        push_outlines(&mut preview.strokes, &faces[place].cycles);
        index = index + 1;
    }
    assert(places@.take(index as int) =~= places@);
    preview
}

/// The preview that is built next: the first that is not there. One is built to
/// a frame.
pub fn next_preview(built: &Vec<bool>) -> (result: Option<usize>)
    ensures
        match result {
            Some(index) => index < built@.len() && !built@[index as int] && forall|i: int|
                0 <= i < index ==> #[trigger] built@[i],
            None => forall|i: int| 0 <= i < built@.len() ==> #[trigger] built@[i],
        },
{
    let mut index: usize = 0;
    while index < built.len()
        invariant
            index <= built@.len(),
            forall|i: int| 0 <= i < index ==> #[trigger] built@[i],
        decreases built@.len() - index,
    {
        if !built[index] {
            return Some(index);
        }
        index = index + 1;
    }
    None
}

/// The catalog entry that a random place picks. `scaled` is a fraction of the
/// catalog, which may come out one too high.
pub fn random_example_index(scaled: usize, total: usize) -> (result: usize)
    ensures
        result == if total == 0 {
            0
        } else if scaled < total {
            scaled as int
        } else {
            total - 1
        },
        total > 0 ==> result < total,
{
    if total == 0 {
        0
    } else if scaled < total {
        scaled
    } else {
        total - 1
    }
}

} // verus!
