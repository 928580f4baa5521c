//! Which documents may be stored and opened, said of their parts.

use crate::collect::{first_place, first_place_is_least};
use crate::document_validation::{
    document_issue, first_probe_issue, id_taken, probe_issue, probes_issue, sampling_points,
    target_issue, DocumentVerdict,
};
use crate::model::{
    CurveSpan, FaceAnchor, ProbeSamplingPreset, TopologyCurve, TopologyDocument,
    TopologyProbeDefinition, TopologyProbeTarget, TopologyScene,
};
use crate::persistence::{same_document, version_issue};
use crate::scalar::Scalar;
use crate::scene_codec::spline_data;
use crate::text::is_blank;
use crate::validation::{
    anchor_valid, assignment_valid, contiguous, curve_has_vertices, curve_ids, ids_of_spans,
    listed_place, nodes_have_vertices, region_ids, span_ids, span_place, structure_issue,
    valid_ids, vertex_ids, vertices_valid, DocumentLimits, SceneVerdict,
};
use vstd::prelude::*;

verus! {

proof fn the_spans_are_listed(curves: Seq<TopologyCurve>)
    ensures
        forall|c: int, s: int|
            0 <= c < curves.len() && 0 <= s < curves[c].spans@.len() ==> span_ids(curves).contains(
                (#[trigger] curves[c].spans@[s]).id,
            ),
        forall|id: u64| #[trigger]
            span_ids(curves).contains(id) ==> exists|c: int, s: int|
                0 <= c < curves.len() && 0 <= s < curves[c].spans@.len() && (
                #[trigger] curves[c].spans@[s]).id == id,
    decreases curves.len(),
{
    if curves.len() > 0 {
        let front = curves.drop_last();
        the_spans_are_listed(front);
        let last = curves.last();
        let tail = ids_of_spans(last.spans@);
        let all = span_ids(curves);
        assert forall|c: int, s: int|
            0 <= c < curves.len() && 0 <= s < curves[c].spans@.len() implies all.contains(
            (#[trigger] curves[c].spans@[s]).id,
        ) by {
            if c < front.len() {
                assert(front[c].spans@[s].id == curves[c].spans@[s].id);
                let i = span_ids(front).index_of(curves[c].spans@[s].id);
                assert(all[i] == curves[c].spans@[s].id);
            } else {
                assert(all[span_ids(front).len() + s] == tail[s]);
            }
        }
        assert forall|id: u64| #[trigger] all.contains(id) implies exists|c: int, s: int|
            0 <= c < curves.len() && 0 <= s < curves[c].spans@.len() && (
            #[trigger] curves[c].spans@[s]).id == id by {
            let i = all.index_of(id);
            if i < span_ids(front).len() {
                assert(span_ids(front)[i] == id);
                assert(span_ids(front).contains(id));
                let (c, s) = choose|c: int, s: int|
                    0 <= c < front.len() && 0 <= s < front[c].spans@.len() && (
                    #[trigger] front[c].spans@[s]).id == id;
                assert(curves[c].spans@[s].id == id);
            } else {
                let s = i - span_ids(front).len();
                assert(tail[s] == id);
                assert(curves[curves.len() - 1].spans@[s].id == id);
            }
        }
    }
}

/// Whether two different spans of a scene share an id.
pub open spec fn shares_span_id(curves: Seq<TopologyCurve>, c: int, s: int, d: int, t: int) -> bool {
    &&& 0 <= c < curves.len()
    &&& 0 <= s < curves[c].spans@.len()
    &&& 0 <= d < curves.len()
    &&& 0 <= t < curves[d].spans@.len()
    &&& !(c == d && s == t)
    &&& curves[c].spans@[s].id == curves[d].spans@[t].id
}

proof fn the_spans_are_listed_once(curves: Seq<TopologyCurve>)
    ensures
        valid_ids(span_ids(curves)) ==> forall|c: int, s: int, d: int, t: int|
            !#[trigger] shares_span_id(curves, c, s, d, t),
        valid_ids(span_ids(curves)) ==> forall|c: int, s: int|
            0 <= c < curves.len() && 0 <= s < curves[c].spans@.len() ==> (
            #[trigger] curves[c].spans@[s]).id != 0,
    decreases curves.len(),
{
    if curves.len() > 0 && valid_ids(span_ids(curves)) {
        let front = curves.drop_last();
        let head = span_ids(front);
        let tail = ids_of_spans(curves.last().spans@);
        let all = span_ids(curves);
        assert forall|i: int| 0 <= i < head.len() implies #[trigger] head[i] != 0 by {
            assert(all[i] == head[i]);
        }
        assert(head.no_duplicates()) by {
            assert forall|i: int, j: int|
                0 <= i < head.len() && 0 <= j < head.len() && i != j implies head[i] != head[j] by {
                assert(all[i] == head[i] && all[j] == head[j]);
            }
        }
        the_spans_are_listed_once(front);
        the_spans_are_listed(front);
        assert forall|c: int, s: int, d: int, t: int| !#[trigger]
            shares_span_id(curves, c, s, d, t) by {
            if shares_span_id(curves, c, s, d, t) {
                let last = curves.len() - 1;
                if c < last && d < last {
                    assert(front[c] == curves[c] && front[d] == curves[d]);
                    assert(shares_span_id(front, c, s, d, t));
                } else if c == last && d == last {
                    assert(all[head.len() + s] == tail[s]);
                    assert(all[head.len() + t] == tail[t]);
                } else {
                    let (e, u, v) = if c == last {
                        (d, t, s)
                    } else {
                        (c, s, t)
                    };
                    assert(front[e].spans@[u].id == curves[e].spans@[u].id);
                    assert(head.contains(front[e].spans@[u].id));
                    let i = head.index_of(front[e].spans@[u].id);
                    assert(all[i] == head[i]);
                    assert(all[head.len() + v] == tail[v]);
                }
            }
        }
        assert forall|c: int, s: int|
            0 <= c < curves.len() && 0 <= s < curves[c].spans@.len() implies (
        #[trigger] curves[c].spans@[s]).id != 0 by {
            the_spans_are_listed(curves);
            let i = all.index_of(curves[c].spans@[s].id);
            assert(all[i] != 0);
        }
    }
}

/// A scene whose structure is accepted is within the limits, its curves, spans and
/// vertices each have an id of their own, its curves pass only through vertices
/// that it has, and its faces name regions that it has.
pub proof fn an_accepted_structure_is_sound(
    scene: TopologyScene,
    verdict: SceneVerdict,
    limits: DocumentLimits,
)
    requires
        structure_issue(scene, verdict, limits) is None,
    ensures
        verdict.structure is None,
        scene.geometry.curves@.len() <= limits.max_curves,
        scene.geometry.vertices@.len() <= limits.max_vertices,
        forall|i: int|
            0 <= i < scene.geometry.curves@.len() ==> (#[trigger] scene.geometry.curves@[i]).id != 0,
        forall|i: int, j: int|
            0 <= i < j < scene.geometry.curves@.len() ==> (#[trigger] scene.geometry.curves@[i]).id
                != (#[trigger] scene.geometry.curves@[j]).id,
        forall|c: int, s: int|
            0 <= c < scene.geometry.curves@.len() && 0 <= s
                < scene.geometry.curves@[c].spans@.len() ==> (
            #[trigger] scene.geometry.curves@[c].spans@[s]).id != 0,
        forall|c: int, s: int, d: int, t: int|
            !#[trigger] shares_span_id(scene.geometry.curves@, c, s, d, t),
        forall|i: int|
            0 <= i < scene.geometry.vertices@.len() ==> (#[trigger] scene.geometry.vertices@[i]).id
                != 0 && verdict.vertex_placed@[i],
        forall|i: int, j: int|
            0 <= i < j < scene.geometry.vertices@.len() ==> (
            #[trigger] scene.geometry.vertices@[i]).id != (#[trigger] scene.geometry.vertices@[j]).id,
        forall|c: int, n: int|
            0 <= c < scene.geometry.curves@.len() && 0 <= n < scene.geometry.curves@[c].nodes@.len()
                && (#[trigger] scene.geometry.curves@[c].nodes@[n]).vertex is Some ==> exists|
                v: int,
            |
                0 <= v < scene.geometry.vertices@.len() && Some(
                    (#[trigger] scene.geometry.vertices@[v]).id,
                ) == scene.geometry.curves@[c].nodes@[n].vertex,
        forall|a: int|
            0 <= a < scene.face_assignments@.len() && (#[trigger] scene.face_assignments@[a]).region
                is Some ==> exists|r: int|
                0 <= r < scene.regions@.len() && Some((#[trigger] scene.regions@[r]).id)
                    == scene.face_assignments@[a].region,
{
    let curves = scene.geometry.curves@;
    let vertices = scene.geometry.vertices@;
    the_spans_are_listed_once(curves);
    let ids = curve_ids(curves);
    assert forall|i: int| 0 <= i < curves.len() implies (#[trigger] curves[i]).id != 0 by {
        assert(ids[i] == curves[i].id);
    }
    assert forall|i: int, j: int| 0 <= i < j < curves.len() implies (#[trigger] curves[i]).id != (
    #[trigger] curves[j]).id by {
        assert(ids[i] == curves[i].id && ids[j] == curves[j].id);
    }
    let known = vertex_ids(vertices);
    assert forall|i: int| 0 <= i < vertices.len() implies (#[trigger] vertices[i]).id != 0
        && verdict.vertex_placed@[i] by {
        assert(known[i] == vertices[i].id);
    }
    assert forall|i: int, j: int| 0 <= i < j < vertices.len() implies (#[trigger] vertices[i]).id
        != (#[trigger] vertices[j]).id by {
        assert(known[i] == vertices[i].id && known[j] == vertices[j].id);
    }
    assert forall|c: int, n: int|
        0 <= c < curves.len() && 0 <= n < curves[c].nodes@.len() && (
        #[trigger] curves[c].nodes@[n]).vertex is Some implies exists|v: int|
        0 <= v < vertices.len() && Some((#[trigger] vertices[v]).id)
            == curves[c].nodes@[n].vertex by {
        assert(curve_has_vertices(curves[c].nodes@, known));
        let v = known.index_of(curves[c].nodes@[n].vertex->0);
        assert(vertices[v].id == known[v]);
    }
    assert forall|a: int|
        0 <= a < scene.face_assignments@.len() && (#[trigger] scene.face_assignments@[a]).region
            is Some implies exists|r: int|
        0 <= r < scene.regions@.len() && Some((#[trigger] scene.regions@[r]).id)
            == scene.face_assignments@[a].region by {
        assert(assignment_valid(scene.face_assignments@[a], scene));
        let names = region_ids(scene.regions@);
        let r = names.index_of(scene.face_assignments@[a].region->0);
        assert(scene.regions@[r].id == names[r]);
    }
}

/// An anchor that is accepted lies where it says: on a wall between its ends, or
/// within the span that it names.
pub proof fn an_accepted_anchor_lies_where_it_says(
    anchor: FaceAnchor,
    curves: Seq<TopologyCurve>,
)
    requires
        anchor_valid(anchor, curves),
    ensures
        anchor matches FaceAnchor::Outer { fraction, .. } ==> (Scalar { bits: 0 }).le_num(fraction)
            && fraction.le_num((Scalar { bits: 0x3ff0_0000_0000_0000 })),
        anchor matches FaceAnchor::Curve { curve, span, parameter, .. } ==> exists|c: int, s: int|
            {
                &&& 0 <= c < curves.len()
                &&& 0 <= s < curves[c].spans@.len()
                &&& curves[c].id == curve
                &&& (#[trigger] curves[c].spans@[s]).id == span
                &&& {
                    let (a, b) = curves[c].spline.bounds()[s];
                    &&& a.le_num(parameter) || b.le_num(parameter)
                    &&& parameter.le_num(a) || parameter.le_num(b)
                }
            },
{
    if let FaceAnchor::Curve { curve, span, parameter, .. } = anchor {
        let named = |found: TopologyCurve| found.id == curve;
        first_place_is_least(curves, named);
        let c = first_place(curves, named)->0;
        let listed = |found: CurveSpan| found.id == span;
        first_place_is_least(curves[c].spans@, listed);
        let s = span_place(curves[c].spans@, span)->0;
        assert(curves[c].spans@[s].id == span);
    }
}

/// The probes of an accepted document are within their number, each has an id of
/// its own and a name that is not blank, and measures at a place there is.
pub proof fn accepted_probes_measure_something(
    probes: Seq<TopologyProbeDefinition>,
    scene: TopologyScene,
    limits: DocumentLimits,
    place: int,
    other: int,
)
    requires
        probes_issue(probes, scene, limits) is None,
        0 <= place < probes.len(),
        0 <= other < place,
    ensures
        probes.len() <= limits.max_probes,
        probes[place].id != 0,
        probes[other].id != 0,
        probes[place].id != probes[other].id,
        probes[place].name@.len() > 0 && !is_blank(probes[place].name@),
        match probes[place].target {
            TopologyProbeTarget::Point(point) => point.x.finite() && point.y.finite(),
            TopologyProbeTarget::Segment { start, end, .. } => {
                &&& start.x.finite() && start.y.finite() && end.x.finite() && end.y.finite()
                &&& !(start.x.eq_num(end.x) && start.y.eq_num(end.y))
            },
            TopologyProbeTarget::Boundary(target) => target.spans@.len() > 0 && exists|c: int|
                0 <= c < scene.geometry.curves@.len() && (#[trigger] scene.geometry.curves@[c]).id
                    == target.curve && contiguous(scene.geometry.curves@[c], target.spans@),
            TopologyProbeTarget::AreaDisk { center, radius } => {
                &&& center.x.finite() && center.y.finite() && radius.finite()
                &&& (Scalar { bits: 0 }).lt_num(radius)
            },
            TopologyProbeTarget::AreaRegion(region) => exists|r: int|
                0 <= r < scene.regions@.len() && (#[trigger] scene.regions@[r]).id == region,
        },
{
    no_probe_has_an_issue(probes, probes.len() as int, scene, place);
    no_probe_has_an_issue(probes, probes.len() as int, scene, other);
    match probes[place].target {
        TopologyProbeTarget::Boundary(target) => {
            let named = |found: TopologyCurve| found.id == target.curve;
            first_place_is_least(scene.geometry.curves@, named);
            let c = first_place(scene.geometry.curves@, named)->0;
            assert(scene.geometry.curves@[c].id == target.curve);
        },
        TopologyProbeTarget::AreaRegion(region) => {
            let names = region_ids(scene.regions@);
            let r = names.index_of(region);
            assert(scene.regions@[r].id == names[r]);
        },
        _ => {},
    }
}

proof fn no_probe_has_an_issue(
    probes: Seq<TopologyProbeDefinition>,
    count: int,
    scene: TopologyScene,
    place: int,
)
    requires
        first_probe_issue(probes, count, scene) is None,
        0 <= place < count,
    ensures
        probe_issue(probes, place, scene) is None,
    decreases count,
{
    if place < count - 1 {
        no_probe_has_an_issue(probes, count - 1, scene, place);
    }
}

/// The spans of a boundary probe follow one another along their curve: each next
/// one comes right after the one before it, the first one of a closed curve after
/// its last, and none comes twice.
pub proof fn a_probed_path_runs_along_its_curve(curve: TopologyCurve, spans: Seq<u64>, i: int)
    requires
        contiguous(curve, spans),
        0 <= i < spans.len(),
    ensures
        exists|s: int|
            0 <= s < curve.spans@.len() && (#[trigger] curve.spans@[s]).id == spans[i] && (i + 1
                < spans.len() ==> ({
                ||| s + 1 < curve.spans@.len() && curve.spans@[s + 1].id == spans[i + 1]
                ||| curve.spline is Closed && s + 1 == curve.spans@.len() && curve.spans@[0].id
                    == spans[i + 1]
            })),
        forall|j: int| 0 <= j < spans.len() && j != i ==> #[trigger] spans[j] != spans[i],
{
    let test = |id: u64| (|found: CurveSpan| found.id == id);
    first_place_is_least(curve.spans@, test(spans[i]));
    assert(listed_place(curve, spans, i) is Some);
    let s = listed_place(curve, spans, i)->0;
    assert(curve.spans@[s].id == spans[i]);
    if i + 1 < spans.len() {
        first_place_is_least(curve.spans@, test(spans[i + 1]));
        assert(listed_place(curve, spans, i + 1) is Some);
        let t = listed_place(curve, spans, i + 1)->0;
        assert(curve.spans@[t].id == spans[i + 1]);
    }
    assert forall|j: int| 0 <= j < spans.len() && j != i implies #[trigger] spans[j]
        != spans[i] by {
        if spans[j] == spans[i] {
            assert(listed_place(curve, spans, i) == listed_place(curve, spans, j));
        }
    }
}

/// How many points the line probes of a document sample together counts every line
/// probe once, by its preset, and no other probe.
pub proof fn the_sampling_budget_counts_line_probes(
    probes: Seq<TopologyProbeDefinition>,
    next: TopologyProbeDefinition,
)
    ensures
        sampling_points(Seq::empty()) == 0,
        sampling_points(probes.push(next)) == sampling_points(probes) + match next.target {
            TopologyProbeTarget::Segment { preset, .. } => preset.points(),
            TopologyProbeTarget::Boundary(target) => target.preset.points(),
            _ => 0,
        },
        ProbeSamplingPreset::Low.points() == 32,
        ProbeSamplingPreset::Medium.points() == 2 * ProbeSamplingPreset::Low.points(),
        ProbeSamplingPreset::High.points() == 2 * ProbeSamplingPreset::Medium.points(),
{
    assert(probes.push(next).drop_last() =~= probes);
}

/// A document is accepted only as a whole: its draft is sound, its accepted scene
/// compiles, its source lies in a region of that scene, its settings can be used
/// and its probes measure on the draft.
pub proof fn a_document_is_accepted_as_a_whole(
    document: TopologyDocument,
    verdict: DocumentVerdict,
    limits: DocumentLimits,
)
    ensures
        document_issue(document, verdict, limits) is None <==> {
            &&& structure_issue(document.model.draft, verdict.draft, limits) is None
            &&& verdict.accepted is None
            &&& verdict.source_valid
            &&& exists|r: int|
                0 <= r < document.model.accepted.regions@.len() && (
                #[trigger] document.model.accepted.regions@[r]).id == document.model.source.region
            &&& verdict.far_field_valid
            &&& verdict.presentation_valid
            &&& probes_issue(document.model.probes@, document.model.draft, limits) is None
        },
{
    let regions = document.model.accepted.regions@;
    let names = region_ids(regions);
    if names.contains(document.model.source.region) {
        let r = names.index_of(document.model.source.region);
        assert(regions[r].id == names[r]);
    }
    if exists|r: int|
        0 <= r < regions.len() && (#[trigger] regions[r]).id == document.model.source.region {
        let r = choose|r: int|
            0 <= r < regions.len() && (#[trigger] regions[r]).id == document.model.source.region;
        assert(names[r] == document.model.source.region);
    }
}

/// What is said of a document that is refused names what is wrong with it.
pub proof fn a_refusal_names_its_reason(
    document: TopologyDocument,
    verdict: DocumentVerdict,
    limits: DocumentLimits,
)
    ensures
        verdict.draft.structure matches Some(issue) ==> document_issue(document, verdict, limits)
            == Some(issue@),
        structure_issue(document.model.draft, verdict.draft, limits) is None ==> {
            &&& verdict.accepted matches Some(issue) ==> document_issue(document, verdict, limits)
                == Some("Accepted topology is invalid: "@ + issue@)
            &&& verdict.accepted is None && !verdict.source_valid ==> document_issue(
                document,
                verdict,
                limits,
            ) == Some("Scene contains an invalid point source"@)
            &&& verdict.accepted is None && verdict.source_valid && document.model.accepted.regions@.len()
                == 0 ==> document_issue(document, verdict, limits) == Some(
                "Scene contains an invalid point source"@,
            )
        },
        verdict.draft.structure is None && document.model.draft.geometry.curves@.len()
            > limits.max_curves ==> document_issue(document, verdict, limits) == Some(
            "Scene exceeds topology object limits"@,
        ),
        verdict.draft.structure is None && document.model.draft.geometry.vertices@.len()
            > limits.max_vertices ==> document_issue(document, verdict, limits) == Some(
            "Scene exceeds topology object limits"@,
        ),
{
}

/// Documents that count as the same have the same scenes, probes, source, far field
/// and settings: nothing of a document may be lost and still count as kept.
pub proof fn the_same_document_is_the_same_in_every_part(
    left: TopologyDocument,
    right: TopologyDocument,
)
    requires
        same_document(left, right),
    ensures
        left.model.source == right.model.source,
        left.model.far_field == right.model.far_field,
        left.presentation == right.presentation,
        left.model.probes@.len() == right.model.probes@.len(),
        forall|i: int|
            0 <= i < right.model.probes@.len() ==> {
                let (a, b) = (#[trigger] left.model.probes@[i], right.model.probes@[i]);
                &&& a.id == b.id && a.name == b.name && a.color == b.color && a.enabled == b.enabled
                &&& !(b.target is Boundary) ==> a.target == b.target
            },
        the_same_parts(left.model.draft, right.model.draft),
        the_same_parts(left.model.accepted, right.model.accepted),
{
    assert forall|i: int| 0 <= i < right.model.probes@.len() implies ({
        let (a, b) = (#[trigger] left.model.probes@[i], right.model.probes@[i]);
        &&& a.id == b.id && a.name == b.name && a.color == b.color && a.enabled == b.enabled
        &&& !(b.target is Boundary) ==> a.target == b.target
    }) by {
        assert(crate::document_codec::same_probe(left.model.probes@[i], right.model.probes@[i]));
    }
    same_scenes_have_the_same_parts(left.model.draft, right.model.draft);
    same_scenes_have_the_same_parts(left.model.accepted, right.model.accepted);
}

/// Scenes that agree in everything but the memory of their lists.
pub open spec fn the_same_parts(left: TopologyScene, right: TopologyScene) -> bool {
    &&& left.geometry.domain == right.geometry.domain
    &&& left.geometry.vertices@ == right.geometry.vertices@
    &&& left.geometry.curves@.len() == right.geometry.curves@.len()
    &&& forall|i: int|
        0 <= i < right.geometry.curves@.len() ==> {
            let (a, b) = (#[trigger] left.geometry.curves@[i], right.geometry.curves@[i]);
            &&& a.id == b.id && a.nodes@ == b.nodes@ && a.spans@ == b.spans@
            &&& a.spline is Closed <==> b.spline is Closed
            &&& spline_data(a.spline).controls@ == spline_data(b.spline).controls@
            &&& spline_data(a.spline).intervals@ == spline_data(b.spline).intervals@
            &&& spline_data(a.spline).multiplicities@ == spline_data(b.spline).multiplicities@
            &&& spline_data(a.spline).span_bounds@ == spline_data(b.spline).span_bounds@
        }
    &&& left.physics == right.physics
    &&& left.regions@ == right.regions@
    &&& left.face_assignments@ == right.face_assignments@
    &&& left.outer_boundaries == right.outer_boundaries
    &&& left.materials@.len() == right.materials@.len()
    &&& forall|i: int|
        0 <= i < right.materials@.len() ==> {
            let (a, b) = (#[trigger] left.materials@[i], right.materials@[i]);
            &&& a.id == b.id && a.name == b.name && a.color == b.color
            &&& a.mass_density == b.mass_density && a.stiffness == b.stiffness
            &&& a.damping == b.damping && a.axis_ratio == b.axis_ratio
            &&& a.parameters@ == b.parameters@
            &&& a.mass_law == b.mass_law && a.stiffness_law == b.stiffness_law
            &&& a.electric_loss == b.electric_loss && a.magnetic_loss == b.magnetic_loss
            &&& a.restoring == b.restoring && a.switch_ramp == b.switch_ramp
        }
    &&& left.volume_sources@.len() == right.volume_sources@.len()
    &&& forall|i: int|
        0 <= i < right.volume_sources@.len() ==> {
            let (a, b) = (#[trigger] left.volume_sources@[i], right.volume_sources@[i]);
            &&& a.region == b.region && a.enabled == b.enabled && a.profile == b.profile
            &&& a.parameters@ == b.parameters@ && a.signal == b.signal
        }
}

proof fn same_scenes_have_the_same_parts(left: TopologyScene, right: TopologyScene)
    requires
        crate::persistence::same_scene(left, right),
    ensures
        the_same_parts(left, right),
{
}

/// A file that is too long or of another version is told so, with the version.
pub proof fn a_refused_file_is_told_why(version: u32)
    ensures
        version_issue(version) == "Unsupported scene version "@ + crate::text::decimal_digits(
            version as nat,
        ) + "; Funfern now requires version "@ + crate::text::decimal_digits(22),
        crate::stored::MAX_FILE_BYTES == 2 * 1024 * 1024,
{
}

proof fn spans_with_ids_of_their_own_are_valid(curves: Seq<TopologyCurve>)
    requires
        forall|c: int, s: int, d: int, t: int| !#[trigger] shares_span_id(curves, c, s, d, t),
        forall|c: int, s: int|
            0 <= c < curves.len() && 0 <= s < curves[c].spans@.len() ==> (
            #[trigger] curves[c].spans@[s]).id != 0,
    ensures
        valid_ids(span_ids(curves)),
    decreases curves.len(),
{
    if curves.len() > 0 {
        let front = curves.drop_last();
        let last = curves.len() - 1;
        let head = span_ids(front);
        let tail = ids_of_spans(curves.last().spans@);
        let all = span_ids(curves);
        assert forall|c: int, s: int, d: int, t: int| !#[trigger]
            shares_span_id(front, c, s, d, t) by {
            if shares_span_id(front, c, s, d, t) {
                assert(shares_span_id(curves, c, s, d, t));
            }
        }
        assert forall|c: int, s: int|
            0 <= c < front.len() && 0 <= s < front[c].spans@.len() implies (
        #[trigger] front[c].spans@[s]).id != 0 by {
            assert(curves[c].spans@[s].id != 0);
        }
        spans_with_ids_of_their_own_are_valid(front);
        the_spans_are_listed(front);
        assert forall|i: int| 0 <= i < all.len() implies #[trigger] all[i] != 0 by {
            if i < head.len() {
                assert(all[i] == head[i]);
            } else {
                assert(all[i] == tail[i - head.len()]);
                assert(curves[last].spans@[i - head.len()].id != 0);
            }
        }
        assert forall|i: int, j: int|
            0 <= i < all.len() && 0 <= j < all.len() && i != j implies all[i] != all[j] by {
            let n = head.len() as int;
            if i < n && j < n {
                assert(all[i] == head[i] && all[j] == head[j]);
            } else if i >= n && j >= n {
                assert(all[i] == tail[i - n] && all[j] == tail[j - n]);
                assert(!shares_span_id(curves, last, i - n, last, j - n));
            } else {
                let (early, late) = if i < n {
                    (i, j - n)
                } else {
                    (j, i - n)
                };
                assert(all[early] == head[early]);
                assert(all[n + late] == tail[late]);
                assert(head.contains(head[early]));
                let (c, s) = choose|c: int, s: int|
                    0 <= c < front.len() && 0 <= s < front[c].spans@.len() && (
                    #[trigger] front[c].spans@[s]).id == head[early];
                assert(!shares_span_id(curves, c, s, last, late));
            }
        }
    }
}

/// A scene that is sound is accepted: nothing else is held against it.
pub proof fn a_sound_structure_is_accepted(
    scene: TopologyScene,
    verdict: SceneVerdict,
    limits: DocumentLimits,
)
    requires
        verdict.structure is None,
        scene.geometry.curves@.len() <= limits.max_curves,
        scene.geometry.vertices@.len() <= limits.max_vertices,
        forall|i: int|
            0 <= i < scene.geometry.curves@.len() ==> (#[trigger] scene.geometry.curves@[i]).id != 0,
        forall|i: int, j: int|
            0 <= i < j < scene.geometry.curves@.len() ==> (#[trigger] scene.geometry.curves@[i]).id
                != (#[trigger] scene.geometry.curves@[j]).id,
        forall|c: int, s: int|
            0 <= c < scene.geometry.curves@.len() && 0 <= s
                < scene.geometry.curves@[c].spans@.len() ==> (
            #[trigger] scene.geometry.curves@[c].spans@[s]).id != 0,
        forall|c: int, s: int, d: int, t: int|
            !#[trigger] shares_span_id(scene.geometry.curves@, c, s, d, t),
        forall|i: int|
            0 <= i < scene.geometry.vertices@.len() ==> (#[trigger] scene.geometry.vertices@[i]).id
                != 0 && verdict.vertex_placed@[i],
        forall|i: int, j: int|
            0 <= i < j < scene.geometry.vertices@.len() ==> (
            #[trigger] scene.geometry.vertices@[i]).id != (#[trigger] scene.geometry.vertices@[j]).id,
        forall|c: int, n: int|
            0 <= c < scene.geometry.curves@.len() && 0 <= n < scene.geometry.curves@[c].nodes@.len()
                && (#[trigger] scene.geometry.curves@[c].nodes@[n]).vertex is Some ==> exists|
                v: int,
            |
                0 <= v < scene.geometry.vertices@.len() && Some(
                    (#[trigger] scene.geometry.vertices@[v]).id,
                ) == scene.geometry.curves@[c].nodes@[n].vertex,
        forall|a: int|
            0 <= a < scene.face_assignments@.len() && (#[trigger] scene.face_assignments@[a]).region
                is Some ==> exists|r: int|
                0 <= r < scene.regions@.len() && Some((#[trigger] scene.regions@[r]).id)
                    == scene.face_assignments@[a].region,
        forall|a: int|
            0 <= a < scene.face_assignments@.len() ==> anchor_valid(
                (#[trigger] scene.face_assignments@[a]).anchor,
                scene.geometry.curves@,
            ),
    ensures
        structure_issue(scene, verdict, limits) is None,
{
    let curves = scene.geometry.curves@;
    let vertices = scene.geometry.vertices@;
    spans_with_ids_of_their_own_are_valid(curves);
    let ids = curve_ids(curves);
    let known = vertex_ids(vertices);
    assert(valid_ids(ids)) by {
        assert forall|i: int, j: int|
            0 <= i < ids.len() && 0 <= j < ids.len() && i != j implies ids[i] != ids[j] by {
            assert(ids[i] == curves[i].id && ids[j] == curves[j].id);
        }
    }
    assert(valid_ids(known)) by {
        assert forall|i: int, j: int|
            0 <= i < known.len() && 0 <= j < known.len() && i != j implies known[i] != known[j] by {
            assert(known[i] == vertices[i].id && known[j] == vertices[j].id);
        }
    }
    assert(vertices_valid(vertices, verdict.vertex_placed@)) by {
        assert forall|i: int| 0 <= i < vertices.len() implies #[trigger]
            verdict.vertex_placed@[i] by {
            assert(vertices[i].id != 0);
        }
    }
    assert(nodes_have_vertices(curves, known)) by {
        assert forall|c: int| 0 <= c < curves.len() implies #[trigger] curve_has_vertices(
            curves[c].nodes@,
            known,
        ) by {
            assert forall|n: int|
                0 <= n < curves[c].nodes@.len() && (#[trigger] curves[c].nodes@[n]).vertex
                    is Some implies known.contains(curves[c].nodes@[n].vertex->0) by {
                let v = choose|v: int|
                    0 <= v < vertices.len() && Some((#[trigger] vertices[v]).id)
                        == curves[c].nodes@[n].vertex;
                assert(known[v] == vertices[v].id);
            }
        }
    }
    assert forall|a: int| 0 <= a < scene.face_assignments@.len() implies assignment_valid(
        #[trigger] scene.face_assignments@[a],
        scene,
    ) by {
        if scene.face_assignments@[a].region is Some {
            let r = choose|r: int|
                0 <= r < scene.regions@.len() && Some((#[trigger] scene.regions@[r]).id)
                    == scene.face_assignments@[a].region;
            assert(region_ids(scene.regions@)[r] == scene.regions@[r].id);
        }
    }
}

/// An anchor that lies where it says is accepted.
pub proof fn an_anchor_that_lies_where_it_says_is_accepted(
    anchor: FaceAnchor,
    curves: Seq<TopologyCurve>,
    c: int,
    s: int,
)
    requires
        forall|i: int, j: int|
            0 <= i < j < curves.len() ==> (#[trigger] curves[i]).id != (#[trigger] curves[j]).id,
        forall|c: int, s: int, d: int, t: int| !#[trigger] shares_span_id(curves, c, s, d, t),
        match anchor {
            FaceAnchor::Outer { fraction, .. } => (Scalar { bits: 0 }).le_num(fraction)
                && fraction.le_num((Scalar { bits: 0x3ff0_0000_0000_0000 })),
            FaceAnchor::Curve { curve, span, parameter, .. } => {
                &&& 0 <= c < curves.len() && curves[c].id == curve
                &&& 0 <= s < curves[c].spans@.len() && curves[c].spans@[s].id == span
                &&& s < curves[c].spline.bounds().len()
                &&& parameter.finite()
                &&& curves[c].spline.bounds()[s].0.le_num(parameter)
                &&& parameter.le_num(curves[c].spline.bounds()[s].1)
            },
        },
    ensures
        anchor_valid(anchor, curves),
{
    if let FaceAnchor::Curve { curve, span, parameter, .. } = anchor {
        let named = |found: TopologyCurve| found.id == curve;
        crate::collect::first_place_found(curves, named, c);
        let listed = |found: CurveSpan| found.id == span;
        assert forall|i: int| 0 <= i < s implies !listed(#[trigger] curves[c].spans@[i]) by {
            assert(!shares_span_id(curves, c, i, c, s));
        }
        crate::collect::first_place_found(curves[c].spans@, listed, s);
    }
}

/// Probes that each have an id of their own, a short name and a place to measure
/// at are accepted, as long as they are not too many.
pub proof fn sound_probes_are_accepted(
    probes: Seq<TopologyProbeDefinition>,
    scene: TopologyScene,
    limits: DocumentLimits,
)
    requires
        probes.len() <= limits.max_probes,
        sampling_points(probes) <= limits.max_segment_probe_points,
        forall|i: int|
            0 <= i < probes.len() ==> {
                &&& (#[trigger] probes[i]).id != 0
                &&& probes[i].name@.len() > 0 && !is_blank(probes[i].name@)
                &&& vstd::utf8::encode_utf8(probes[i].name@).len() <= 64
                &&& target_issue(probes[i].target, scene) is None
            },
        forall|i: int, j: int|
            0 <= i < j < probes.len() ==> (#[trigger] probes[i]).id != (#[trigger] probes[j]).id,
    ensures
        probes_issue(probes, scene, limits) is None,
{
    no_issue_of_sound_probes(probes, probes.len() as int, scene);
}

proof fn no_issue_of_sound_probes(
    probes: Seq<TopologyProbeDefinition>,
    count: int,
    scene: TopologyScene,
)
    requires
        0 <= count <= probes.len(),
        forall|i: int|
            0 <= i < probes.len() ==> {
                &&& (#[trigger] probes[i]).id != 0
                &&& probes[i].name@.len() > 0 && !is_blank(probes[i].name@)
                &&& vstd::utf8::encode_utf8(probes[i].name@).len() <= 64
                &&& target_issue(probes[i].target, scene) is None
            },
        forall|i: int, j: int|
            0 <= i < j < probes.len() ==> (#[trigger] probes[i]).id != (#[trigger] probes[j]).id,
    ensures
        first_probe_issue(probes, count, scene) is None,
    decreases count,
{
    if count > 0 {
        no_issue_of_sound_probes(probes, count - 1, scene);
        assert(probes[count - 1].id != 0);
        assert(!id_taken(probes, count - 1));
    }
}

/// A probe may measure at any finite point, along any segment between two, on any
/// disk with an extent and over any region there is.
pub proof fn a_probe_may_measure_anywhere(
    scene: TopologyScene,
    start: crate::scalar::Point2,
    end: crate::scalar::Point2,
    preset: ProbeSamplingPreset,
    radius: Scalar,
    region: u64,
    r: int,
)
    requires
        start.x.finite() && start.y.finite() && end.x.finite() && end.y.finite(),
        !(start.x.eq_num(end.x) && start.y.eq_num(end.y)),
        radius.finite() && (Scalar { bits: 0 }).lt_num(radius),
        0 <= r < scene.regions@.len() && scene.regions@[r].id == region,
    ensures
        target_issue(TopologyProbeTarget::Point(start), scene) is None,
        target_issue(TopologyProbeTarget::Segment { start, end, preset }, scene) is None,
        target_issue(TopologyProbeTarget::AreaDisk { center: start, radius }, scene) is None,
        target_issue(TopologyProbeTarget::AreaRegion(region), scene) is None,
{
    assert(region_ids(scene.regions@)[r] == region);
}

} // verus!
