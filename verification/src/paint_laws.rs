//! What a preview paints: which lines cross a face, and what each face looks like.

use crate::attachment::FaceAssignment;
use crate::collect::{first_place_found, first_place_is_least};
use crate::model::{Material, MaterialOverlay, Region, Rgb, TopologyScene};
use crate::preview::{
    all_crossings, all_quads, all_strokes, cell_quad, cycle_crossings, hole_color, largest_value,
    least_value, outlines, painted, painted_in_order, paired, CellColor, FaceEdge, LineSpan,
    MeasuredCell, PreviewFace, PreviewQuad,
};
use crate::scalar::{Point2, Scalar};
use vstd::prelude::*;

verus! {

/// The crossings of a line with a cycle are those of its edges, the closing one
/// among them, that have the line between their ends.
pub proof fn a_line_crosses_the_edges_that_straddle_it(
    cycle: Seq<Point2>,
    y: Scalar,
    count: nat,
    edge: FaceEdge,
)
    requires
        count <= cycle.len(),
    ensures
        cycle_crossings(cycle, y, count).contains(edge) <==> exists|i: int|
            {
                &&& 0 <= i < count
                &&& #[trigger] cycle[i] == edge.start
                &&& edge.end == (if i + 1 < cycle.len() {
                    cycle[i + 1]
                } else {
                    cycle[0]
                })
                &&& (y.lt_num(edge.start.y) && !y.lt_num(edge.end.y)) || (!y.lt_num(edge.start.y)
                    && y.lt_num(edge.end.y))
            },
    decreases count,
{
    if count > 0 {
        let earlier = cycle_crossings(cycle, y, (count - 1) as nat);
        let all = cycle_crossings(cycle, y, count);
        a_line_crosses_the_edges_that_straddle_it(cycle, y, (count - 1) as nat, edge);
        after_the_last_comes_the_first(count as int, cycle.len() as int);
        if earlier.contains(edge) {
            assert(all[earlier.index_of(edge)] == edge);
        }
        if all.contains(edge) {
            let i = all.index_of(edge);
            if i < earlier.len() {
                assert(earlier[i] == edge);
            } else {
                assert(cycle[count - 1] == edge.start);
            }
        }
        if all.len() > earlier.len() {
            assert(all[earlier.len() as int] == all.last());
        }
    }
}

proof fn after_the_last_comes_the_first(place: int, length: int)
    requires
        0 < place <= length,
    ensures
        place < length ==> place % length == place,
        place == length ==> place % length == 0,
{
    if place < length {
        vstd::arithmetic::div_mod::lemma_small_mod(place as nat, length as nat);
    } else {
        vstd::arithmetic::div_mod::lemma_mod_self_0(length);
    }
}

proof fn crossings_change_the_side(cycle: Seq<Point2>, y: Scalar, count: nat)
    requires
        0 < cycle.len(),
        count <= cycle.len(),
    ensures
        count < cycle.len() ==> (cycle_crossings(cycle, y, count).len() % 2 == 1) == (y.lt_num(
            cycle[0].y,
        ) != y.lt_num(cycle[count as int].y)),
        count == cycle.len() ==> cycle_crossings(cycle, y, count).len() % 2 == 0,
    decreases count,
{
    if count > 0 {
        crossings_change_the_side(cycle, y, (count - 1) as nat);
        after_the_last_comes_the_first(count as int, cycle.len() as int);
    }
}

/// A line leaves a face as often as it enters it.
pub proof fn a_line_leaves_as_often_as_it_enters(cycles: Seq<Vec<Point2>>, y: Scalar)
    ensures
        all_crossings(cycles, y).len() % 2 == 0,
    decreases cycles.len(),
{
    if cycles.len() > 0 {
        a_line_leaves_as_often_as_it_enters(cycles.drop_last(), y);
        if cycles.last()@.len() > 0 {
            crossings_change_the_side(cycles.last()@, y, cycles.last()@.len());
        }
    }
}

/// Every crossing of every cycle counts, and none else.
pub proof fn the_crossings_of_all_cycles_count(
    cycles: Seq<Vec<Point2>>,
    y: Scalar,
    edge: FaceEdge,
)
    ensures
        all_crossings(cycles, y).contains(edge) <==> exists|c: int|
            0 <= c < cycles.len() && cycle_crossings(
                (#[trigger] cycles[c])@,
                y,
                cycles[c]@.len(),
            ).contains(edge),
    decreases cycles.len(),
{
    if cycles.len() > 0 {
        let front = cycles.drop_last();
        let earlier = all_crossings(front, y);
        let last = cycle_crossings(cycles.last()@, y, cycles.last()@.len());
        let all = all_crossings(cycles, y);
        the_crossings_of_all_cycles_count(front, y, edge);
        assert(forall|c: int| 0 <= c < front.len() ==> front[c] == cycles[c]);
        assert(cycles[cycles.len() - 1] == cycles.last());
        if earlier.contains(edge) {
            assert(all[earlier.index_of(edge)] == edge);
            let c = choose|c: int|
                0 <= c < front.len() && cycle_crossings(
                    (#[trigger] front[c])@,
                    y,
                    front[c]@.len(),
                ).contains(edge);
            assert(cycles[c] == front[c]);
        }
        if last.contains(edge) {
            assert(all[earlier.len() + last.index_of(edge)] == edge);
        }
        if all.contains(edge) {
            let i = all.index_of(edge);
            if i < earlier.len() {
                assert(earlier[i] == edge);
            } else {
                assert(last[i - earlier.len()] == edge);
            }
        }
        if exists|c: int|
            0 <= c < cycles.len() && cycle_crossings(
                (#[trigger] cycles[c])@,
                y,
                cycles[c]@.len(),
            ).contains(edge) {
            let c = choose|c: int|
                0 <= c < cycles.len() && cycle_crossings(
                    (#[trigger] cycles[c])@,
                    y,
                    cycles[c]@.len(),
                ).contains(edge);
            if c < front.len() {
                assert(front[c] == cycles[c]);
            }
        }
    }
}

/// A line is inside from each odd crossing to the next, wherever that is further.
pub proof fn a_line_is_inside_between_paired_crossings(
    crossings: Seq<Scalar>,
    pairs: nat,
    span: LineSpan,
)
    requires
        2 * pairs <= crossings.len(),
    ensures
        paired(crossings, pairs).contains(span) <==> span.start.lt_num(span.end) && exists|k: int|
            0 <= k < pairs && #[trigger] starts_at(crossings, k, span),
    decreases pairs,
{
    if pairs > 0 {
        let earlier = paired(crossings, (pairs - 1) as nat);
        let all = paired(crossings, pairs);
        a_line_is_inside_between_paired_crossings(crossings, (pairs - 1) as nat, span);
        if earlier.contains(span) {
            assert(all[earlier.index_of(span)] == span);
        }
        if all.contains(span) {
            let i = all.index_of(span);
            if i < earlier.len() {
                assert(earlier[i] == span);
            } else {
                assert(starts_at(crossings, pairs - 1, span));
            }
        }
        if starts_at(crossings, pairs - 1, span) && span.start.lt_num(span.end) {
            assert(all[earlier.len() as int] == span);
        }
    }
}

/// Whether a span runs between the two crossings of a pair.
pub open spec fn starts_at(crossings: Seq<Scalar>, pair: int, span: LineSpan) -> bool {
    crossings[2 * pair] == span.start && crossings[2 * pair + 1] == span.end
}

/// A face is painted in the colour of the material of its region.
pub proof fn a_face_has_the_colour_of_its_material(
    scene: TopologyScene,
    assignments: Seq<FaceAssignment>,
    face: u64,
    area: Scalar,
    overlay: MaterialOverlay,
    a: int,
    r: int,
    m: int,
)
    requires
        0 <= a < assignments.len(),
        assignments[a].face == face,
        forall|i: int| 0 <= i < a ==> (#[trigger] assignments[i]).face != face,
        0 <= r < scene.regions@.len(),
        assignments[a].region == Some(scene.regions@[r].id),
        forall|i: int| 0 <= i < r ==> (#[trigger] scene.regions@[i]).id != scene.regions@[r].id,
        0 <= m < scene.materials@.len(),
        scene.regions@[r].material == scene.materials@[m].id,
        forall|i: int|
            0 <= i < m ==> (#[trigger] scene.materials@[i]).id != scene.materials@[m].id,
    ensures
        painted(scene, assignments, face, area, overlay).flat == scene.materials@[m].color,
        painted(scene, assignments, face, area, overlay).shaded is Some <==> overlay is Property
            && Scalar::zero_num().lt_num(area),
        painted(scene, assignments, face, area, overlay).shaded matches Some(shaded) ==> overlay
            == MaterialOverlay::Property(shaded.property) && shaded.region == scene.regions@[r].id,
{
    let id = scene.regions@[r].id;
    let region = scene.regions@[r];
    first_place_found(assignments, |assignment: FaceAssignment| assignment.face == face, a);
    first_place_found(scene.regions@, |region: Region| region.id == id, r);
    first_place_found(
        scene.materials@,
        |material: Material| material.id == region.material,
        m,
    );
}

/// A face without a region is a hole and is never shaded.
pub proof fn a_face_without_a_region_is_a_hole(
    scene: TopologyScene,
    assignments: Seq<FaceAssignment>,
    face: u64,
    area: Scalar,
    overlay: MaterialOverlay,
)
    requires
        forall|i: int|
            0 <= i < assignments.len() && (#[trigger] assignments[i]).face == face
                ==> assignments[i].region is None,
    ensures
        painted(scene, assignments, face, area, overlay).flat == hole_color(),
        painted(scene, assignments, face, area, overlay).shaded is None,
{
    first_place_is_least(assignments, |assignment: FaceAssignment| assignment.face == face);
}

/// A larger face is painted before a smaller one, which is then seen on it.
pub proof fn smaller_faces_are_painted_on_top(
    places: Seq<usize>,
    areas: Seq<Scalar>,
    under: int,
    over: int,
)
    requires
        painted_in_order(places, areas),
        0 <= under < places.len(),
        0 <= over < places.len(),
        areas[places[over] as int].lt_num(areas[places[under] as int]),
    ensures
        under < over,
{
    crate::scalar::rank_refines_numeric_order(
        areas[places[over] as int],
        areas[places[under] as int],
    );
    if over < under {
        assert(areas[places[over] as int].rank() >= areas[places[under] as int].rank());
    }
}

/// A cell is painted where it lies: shaded by its own value where there is one and
/// a property is shown, and in the flat colour otherwise.
pub proof fn a_cell_is_painted_by_its_own_value(
    cell: MeasuredCell,
    overlay: MaterialOverlay,
    flat: Rgb,
)
    ensures
        ({
            let quad = cell_quad(cell, overlay, flat);
            &&& quad.low == cell.low
            &&& quad.high == cell.high
            &&& quad.color is Shaded <==> cell.value is Some && overlay is Property
            &&& quad.color matches CellColor::Shaded { property, value } ==> cell.value == Some(
                value,
            ) && overlay == MaterialOverlay::Property(property)
            &&& quad.color matches CellColor::Flat(color) ==> color == flat
        }),
{
}

/// Every cell of every painted face is among the quads, in the paint of its face.
pub proof fn every_cell_is_painted(
    scene: TopologyScene,
    assignments: Seq<FaceAssignment>,
    overlay: MaterialOverlay,
    faces: Seq<PreviewFace>,
    cells: Seq<Vec<MeasuredCell>>,
    places: Seq<usize>,
    p: int,
    k: int,
)
    requires
        0 <= p < places.len(),
        0 <= k < cells[places[p] as int]@.len(),
    ensures
        all_quads(scene, assignments, overlay, faces, cells, places).contains(
            cell_quad(
                cells[places[p] as int]@[k],
                overlay,
                painted(
                    scene,
                    assignments,
                    faces[places[p] as int].id,
                    faces[places[p] as int].area,
                    overlay,
                ).flat,
            ),
        ),
    decreases places.len(),
{
    let front = places.drop_last();
    let earlier = all_quads(scene, assignments, overlay, faces, cells, front);
    let all = all_quads(scene, assignments, overlay, faces, cells, places);
    let face = faces[places[p] as int];
    let paint = painted(scene, assignments, face.id, face.area, overlay);
    let quad = cell_quad(cells[places[p] as int]@[k], overlay, paint.flat);
    if p < front.len() {
        assert(front[p] == places[p]);
        every_cell_is_painted(scene, assignments, overlay, faces, cells, front, p, k);
        assert(all[earlier.index_of(quad)] == quad);
    } else {
        assert(all[earlier.len() + k] == quad);
    }
}

/// Every cycle of every painted face is drawn, unless it is a single point.
pub proof fn every_cycle_is_drawn(
    faces: Seq<PreviewFace>,
    places: Seq<usize>,
    p: int,
    c: int,
)
    requires
        0 <= p < places.len(),
        0 <= c < faces[places[p] as int].cycles@.len(),
        faces[places[p] as int].cycles@[c]@.len() >= 2,
    ensures
        all_strokes(faces, places).contains(faces[places[p] as int].cycles@[c]@),
    decreases places.len(),
{
    let front = places.drop_last();
    let earlier = all_strokes(faces, front);
    let all = all_strokes(faces, places);
    let stroke = faces[places[p] as int].cycles@[c]@;
    if p < front.len() {
        assert(front[p] == places[p]);
        every_cycle_is_drawn(faces, front, p, c);
        assert(all[earlier.index_of(stroke)] == stroke);
    } else {
        let own = outlines(faces[places[p] as int].cycles@);
        a_cycle_has_an_outline(faces[places[p] as int].cycles@, c);
        assert(all[earlier.len() + own.index_of(stroke)] == stroke);
    }
}

proof fn a_cycle_has_an_outline(cycles: Seq<Vec<Point2>>, c: int)
    requires
        0 <= c < cycles.len(),
        cycles[c]@.len() >= 2,
    ensures
        outlines(cycles).contains(cycles[c]@),
    decreases cycles.len(),
{
    let front = cycles.drop_last();
    let earlier = outlines(front);
    let all = outlines(cycles);
    if c < front.len() {
        assert(front[c] == cycles[c]);
        a_cycle_has_an_outline(front, c);
        assert(all[earlier.index_of(cycles[c]@)] == cycles[c]@);
    } else {
        assert(all[earlier.len() as int] == cycles[c]@);
    }
}

/// The range of a preview encloses the value of every shaded quad.
pub proof fn the_range_encloses_every_shaded_value(quads: Seq<PreviewQuad>, i: int)
    requires
        0 <= i < quads.len(),
    ensures
        quads[i].color matches CellColor::Shaded { value, .. } ==> (!value.nan() ==> least_value(
            quads,
        ).le_num(value) && value.le_num(largest_value(quads))),
        !least_value(quads).nan(),
        !largest_value(quads).nan(),
    decreases quads.len(),
{
    let front = quads.drop_last();
    assert(quads[quads.len() - 1] == quads.last());
    if front.len() > 0 {
        the_range_encloses_every_shaded_value(
            front,
            if i < front.len() {
                i
            } else {
                0
            },
        );
    } else {
        assert(!least_value(front).nan());
        assert(!largest_value(front).nan());
    }
}

} // verus!
