//! What probes measure: which stencils they are made of, and where those lie.

use crate::alike::{alike_seq, Alike};
use crate::model::{
    CurveTraceSide, TopologyBoundaryProbeTarget, TopologyCurve, TopologyProbeDefinition,
    TopologyProbeTarget,
};
use crate::preparation::Artifact;
use crate::probe_sampling::{
    builds_line, compiles_probe, curve_period, sample_at, sample_on, segment_sites, PathMeasure,
    StencilBase, StencilSite, TopologyProbeStencil,
};
use crate::probes::{
    compilation, compiles_to, holds_node, insert_piece, kept_probe, line_stencils, node_in_region,
    path_along, path_issue, probe_path, same_support, same_support_and_weights, span_pieces,
    stop_from, ActiveProbes, CompiledTopologyProbe, ForcingSource, PlannedBoundary,
    PlannedBoundarySource, TopologyProbeCompilation,
};
use crate::scalar::{Point2, Scalar};
use vstd::prelude::*;

verus! {

/// A probe keeps its stencil only where the active definitions hold one that is
/// alike; what it keeps was compiled under its own number.
pub proof fn a_probe_keeps_only_its_own_stencil(
    active: Option<ActiveProbes>,
    probe: TopologyProbeDefinition,
    i: int,
)
    ensures
        kept_probe(active, probe) matches Some(kept) ==> {
            &&& active is Some
            &&& kept.id == probe.id
            &&& active->0.compiled@.contains(kept)
            &&& exists|k: int|
                0 <= k < active->0.definitions@.len() && (
                #[trigger] active->0.definitions@[k]).alike(probe)
        },
        active is Some && 0 <= i < active->0.definitions@.len()
            && active->0.definitions@[i].alike(probe) && (exists|k: int|
            0 <= k < active->0.compiled@.len() && (#[trigger] active->0.compiled@[k]).id
                == probe.id) ==> kept_probe(active, probe) is Some,
{
    if let Some(active) = active {
        crate::collect::first_place_is_least(
            active.compiled@,
            |entry: CompiledTopologyProbe| entry.id == probe.id,
        );
    }
}

/// A probe is compiled under its own number: it measures if it is on and was built,
/// and says why where it was not.
pub proof fn a_compiled_probe_says_what_came_of_it(
    probe: TopologyProbeDefinition,
    built: Result<Artifact, String>,
)
    ensures
        compilation(probe, built).id == probe.id,
        compilation(probe, built).result is Disabled <==> !probe.enabled,
        compilation(probe, built).result is Ready <==> probe.enabled && built is Ok,
        compilation(probe, built).result matches TopologyProbeCompilation::Ready(stencil) ==> built
            == Ok::<Artifact, String>(stencil),
        compilation(probe, built).result matches TopologyProbeCompilation::Failed(issue) ==> built
            == Err::<Artifact, String>(issue),
{
}

/// A line has all its stencils in their order, or the first reason why one of them
/// could not be built.
pub proof fn a_line_has_all_its_stencils(built: Seq<Result<Artifact, String>>, i: int)
    requires
        0 <= i < built.len(),
    ensures
        line_stencils(built) matches Ok(stencils) ==> stencils.len() == built.len() && built[i]
            == Ok::<Artifact, String>(stencils[i]),
        built[i] is Err && (forall|j: int| 0 <= j < i ==> (#[trigger] built[j]) is Ok)
            ==> line_stencils(built) == Err::<Seq<Artifact>, String>(built[i]->Err_0),
        (forall|j: int| 0 <= j < built.len() ==> (#[trigger] built[j]) is Ok) ==> line_stencils(
            built,
        ) is Ok,
    decreases built.len(),
{
    let front = built.drop_last();
    assert(forall|j: int| 0 <= j < front.len() ==> front[j] == built[j]);
    assert(built[built.len() - 1] == built.last());
    if front.len() > 0 {
        a_line_has_all_its_stencils(
            front,
            if i < front.len() {
                i
            } else {
                0
            },
        );
    }
}

proof fn an_inserted_piece_is_there(
    pieces: Seq<PlannedBoundary>,
    piece: PlannedBoundary,
    other: PlannedBoundary,
)
    ensures
        insert_piece(pieces, piece).contains(other) <==> pieces.contains(other) || other == piece,
    decreases pieces.len(),
{
    let after = insert_piece(pieces, piece);
    if pieces.len() == 0 {
        assert(after[0] == piece);
    } else if piece.start.rank() < pieces.last().start.rank() {
        let front = pieces.drop_last();
        let inner = insert_piece(front, piece);
        an_inserted_piece_is_there(front, piece, other);
        assert(after[inner.len() as int] == pieces.last());
        assert(pieces[pieces.len() - 1] == pieces.last());
        if inner.contains(other) {
            assert(after[inner.index_of(other)] == other);
        }
        if after.contains(other) {
            let i = after.index_of(other);
            if i < inner.len() {
                assert(inner[i] == other);
            }
        }
        if front.contains(other) {
            assert(pieces[front.index_of(other)] == other);
        }
        if pieces.contains(other) {
            let i = pieces.index_of(other);
            if i < front.len() {
                assert(front[i] == other);
            }
        }
    } else {
        assert(after[pieces.len() as int] == piece);
        if pieces.contains(other) {
            assert(after[pieces.index_of(other)] == other);
        }
        if after.contains(other) {
            let i = after.index_of(other);
            if i < pieces.len() {
                assert(pieces[i] == other);
            }
        }
    }
}

/// The pieces of a span are all those that lie on it, on the side asked for.
pub proof fn every_piece_of_a_span_belongs_to_it(
    boundaries: Seq<PlannedBoundary>,
    curve: u64,
    span: u64,
    side: CurveTraceSide,
    piece: PlannedBoundary,
)
    ensures
        span_pieces(boundaries, curve, span, side).contains(piece) <==> boundaries.contains(piece)
            && piece.source == (PlannedBoundarySource::Curve { curve, span, side }),
    decreases boundaries.len(),
{
    if boundaries.len() > 0 {
        let front = boundaries.drop_last();
        let last = boundaries.last();
        every_piece_of_a_span_belongs_to_it(front, curve, span, side, piece);
        an_inserted_piece_is_there(span_pieces(front, curve, span, side), last, piece);
        assert(boundaries[boundaries.len() - 1] == last);
        if front.contains(piece) {
            assert(boundaries[front.index_of(piece)] == piece);
        }
        if boundaries.contains(piece) {
            let i = boundaries.index_of(piece);
            if i < front.len() {
                assert(front[i] == piece);
            }
        }
    }
}

/// A path over some spans and then others is the one path and then the other, and a
/// span without a piece leaves none.
pub proof fn a_path_goes_span_by_span(
    boundaries: Seq<PlannedBoundary>,
    curve: u64,
    side: CurveTraceSide,
    first: Seq<u64>,
    then: Seq<u64>,
)
    ensures
        match (
            path_along(boundaries, curve, side, first),
            path_along(boundaries, curve, side, then),
        ) {
            (Some(before), Some(after)) => path_along(boundaries, curve, side, first + then)
                == Some(before + after),
            _ => path_along(boundaries, curve, side, first + then) is None,
        },
        first.len() == 1 ==> (path_along(boundaries, curve, side, first) is None <==> span_pieces(
            boundaries,
            curve,
            first[0],
            side,
        ).len() == 0),
        first.len() == 1 && path_along(boundaries, curve, side, first) is Some ==> path_along(
            boundaries,
            curve,
            side,
            first,
        ) == Some(span_pieces(boundaries, curve, first[0], side)),
    decreases then.len(),
{
    if first.len() == 1 {
        assert(first.drop_last() =~= Seq::<u64>::empty());
        assert(path_along(boundaries, curve, side, first.drop_last()) == Some(
            Seq::<PlannedBoundary>::empty(),
        ));
        assert(Seq::<PlannedBoundary>::empty() + span_pieces(boundaries, curve, first[0], side)
            =~= span_pieces(boundaries, curve, first[0], side));
    }
    if then.len() == 0 {
        assert(first + then =~= first);
        if let Some(before) = path_along(boundaries, curve, side, first) {
            assert(before + Seq::<PlannedBoundary>::empty() =~= before);
        }
    } else {
        let front = then.drop_last();
        a_path_goes_span_by_span(boundaries, curve, side, first, front);
        assert((first + then).drop_last() =~= first + front);
        assert((first + then).last() == then.last());
        if let (Some(before), Some(after)) = (
            path_along(boundaries, curve, side, first),
            path_along(boundaries, curve, side, front),
        ) {
            let pieces = span_pieces(boundaries, curve, then.last(), side);
            assert(before + (after + pieces) =~= (before + after) + pieces);
        }
    }
}

/// A reversed probe walks the same pieces the other way, and each of them from its
/// other end.
pub proof fn a_reversed_probe_walks_back(
    target: TopologyBoundaryProbeTarget,
    turned: TopologyBoundaryProbeTarget,
    curves: Seq<TopologyCurve>,
    boundaries: Seq<PlannedBoundary>,
    piece: PlannedBoundary,
    distance: Scalar,
    length: Scalar,
    period: Scalar,
)
    requires
        turned.curve == target.curve,
        turned.side == target.side,
        turned.spans@ == target.spans@,
        turned.reversed == !target.reversed,
    ensures
        match probe_path(target, curves, boundaries) {
            Ok(path) => probe_path(turned, curves, boundaries) == Ok::<
                Seq<PlannedBoundary>,
                Seq<char>,
            >(path.reverse()),
            Err(issue) => probe_path(turned, curves, boundaries) == Err::<
                Seq<PlannedBoundary>,
                Seq<char>,
            >(issue),
        },
        !target.reversed && probe_path(target, curves, boundaries) is Ok ==> path_along(
            boundaries,
            target.curve,
            target.side,
            target.spans@,
        ) == Some(probe_path(target, curves, boundaries)->Ok_0),
        ({
            let forth = sample_on(target, piece, distance, length, period);
            let back = sample_on(turned, piece, distance, length, period);
            &&& back == (crate::probe_sampling::BoundarySample {
                from: forth.to,
                to: forth.from,
                ..forth
            })
            &&& !target.reversed ==> forth.from == piece.start && forth.to == piece.end
            &&& forth.curve == target.curve && forth.side == target.side
            &&& piece.source matches PlannedBoundarySource::Curve { span, .. } ==> forth.span == span
            &&& forth.separated == piece.separated && forth.region == piece.region
            &&& forth.distance == distance && forth.length == length && forth.period == period
        }),
{
    if let Some(path) = path_along(boundaries, target.curve, target.side, target.spans@) {
        assert(path.reverse().reverse() =~= path);
    }
}

/// A sample lies on the first piece that is long enough for what is left of the
/// way, and on the last one where none is.
pub proof fn a_sample_stops_where_the_way_ends(
    remaining: Seq<Scalar>,
    lengths: Seq<Scalar>,
    from: int,
    earlier: int,
)
    requires
        0 <= from < lengths.len(),
    ensures
        from <= stop_from(remaining, lengths, from) < lengths.len(),
        from <= earlier < stop_from(remaining, lengths, from) ==> !remaining[earlier].le_num(
            lengths[earlier],
        ),
        ({
            let place = stop_from(remaining, lengths, from);
            remaining[place].le_num(lengths[place]) || place == lengths.len() - 1
        }),
    decreases lengths.len() - from,
{
    if from + 1 < lengths.len() && !remaining[from].le_num(lengths[from]) {
        a_sample_stops_where_the_way_ends(remaining, lengths, from + 1, earlier);
    }
}

/// Each sample of a path is measured by what is left of its own way, on the piece
/// on which it stops.
pub proof fn each_sample_is_measured_by_its_own_way(
    target: TopologyBoundaryProbeTarget,
    path: Seq<PlannedBoundary>,
    measure: PathMeasure,
    period: Scalar,
    sample: int,
)
    requires
        measure.measures(path.len(), target.preset.points()),
        path.len() > 0,
        0 <= sample < target.preset.points(),
    ensures
        exists|place: int|
            {
                &&& 0 <= place < path.len()
                &&& #[trigger] measure.lengths@[place] == sample_at(
                    target,
                    path,
                    measure,
                    period,
                    sample,
                ).length
                &&& sample_at(target, path, measure, period, sample) == sample_on(
                    target,
                    path[place],
                    measure.remaining@[sample]@[place],
                    measure.lengths@[place],
                    period,
                )
            },
{
    let remaining = measure.remaining@[sample]@;
    a_sample_stops_where_the_way_ends(remaining, measure.lengths@, 0, 0);
    let place = stop_from(remaining, measure.lengths@, 0);
    assert(measure.lengths@[place] == sample_at(target, path, measure, period, sample).length);
}

/// A path is sampled only where it has a length and its curve a period, which is
/// the end of its last span.
pub proof fn a_path_is_sampled_where_it_has_a_length(
    total: Scalar,
    period: Option<Scalar>,
    curve: TopologyCurve,
)
    ensures
        path_issue(total, period) is None <==> total.finite() && Scalar::zero_num().lt_num(total)
            && period is Some && period->0.finite() && Scalar::zero_num().lt_num(period->0),
        curve.spans@.len() > 0 && curve.spline.bounds().len() == curve.spans@.len() ==> curve_period(
            curve,
        ) == Some(curve.spline.bounds().last().1),
{
}

/// The samples of a segment run from its start to its end, one step after the
/// other.
pub proof fn a_segment_is_sampled_from_end_to_end(start: Point2, end: Point2, points: nat, i: int)
    requires
        2 <= points <= usize::MAX,
        0 <= i < points,
    ensures
        segment_sites(start, end, points).len() == points,
        segment_sites(start, end, points)[i] matches StencilSite::Along {
            start: first,
            end: last,
            step,
            steps,
        } && first == start && last == end && step == i && steps == points - 1,
{
}

/// A compiled probe has the shape of what it measures.
pub proof fn a_stencil_has_the_shape_of_its_target<
    M: Fn(&Vec<PlannedBoundary>, usize) -> PathMeasure,
    B: Fn(StencilBase, StencilSite) -> Result<Artifact, String>,
>(
    target: TopologyProbeTarget,
    curves: Seq<TopologyCurve>,
    boundaries: Seq<PlannedBoundary>,
    measure: M,
    base: StencilBase,
    build: B,
    stencil: TopologyProbeStencil,
)
    requires
        compiles_probe(target, curves, boundaries, measure, base, build, Ok(stencil)),
    ensures
        stencil is Point <==> target is Point,
        stencil is Segment <==> target is Segment,
        stencil is Boundary <==> target is Boundary,
        stencil is Area <==> target is AreaDisk || target is AreaRegion,
        target matches TopologyProbeTarget::Point(point) ==> (stencil
            matches TopologyProbeStencil::Point(built) && call_ensures(
            build,
            (base, StencilSite::Point(point)),
            Ok::<Artifact, String>(built),
        )),
        target matches TopologyProbeTarget::AreaDisk { center, radius } ==> (stencil
            matches TopologyProbeStencil::Area(built) && call_ensures(
            build,
            (base, StencilSite::Disk { center, radius }),
            Ok::<Artifact, String>(built),
        )),
        target matches TopologyProbeTarget::AreaRegion(region) ==> (stencil
            matches TopologyProbeStencil::Area(built) && call_ensures(
            build,
            (base, StencilSite::Region(region)),
            Ok::<Artifact, String>(built),
        )),
        target matches TopologyProbeTarget::Segment { start, end, preset } ==> (stencil
            matches TopologyProbeStencil::Segment(points) && points@.len() == preset.points()),
{
    if let TopologyProbeTarget::Segment { start, end, preset } = target {
        if let TopologyProbeStencil::Segment(points) = stencil {
            let sites = segment_sites(start, end, preset.points());
            a_built_line_has_every_site(base, build, sites, points);
        }
    }
}

proof fn a_built_line_has_every_site<B: Fn(StencilBase, StencilSite) -> Result<Artifact, String>>(
    base: StencilBase,
    build: B,
    sites: Seq<StencilSite>,
    points: Vec<Artifact>,
)
    requires
        builds_line(base, build, sites, Ok(points)),
    ensures
        points@.len() == sites.len(),
{
    let built = choose|built: Seq<Result<Artifact, String>>| #[trigger]
        crate::probe_sampling::answered(base, build, sites, built) && match line_stencils(built) {
            Ok(stencils) => points@ == stencils,
            Err(_) => false,
        };
    if built.len() > 0 {
        a_line_has_all_its_stencils(built, built.len() - 1);
    }
}

/// A node lies in a region if an element of that region holds it.
pub proof fn a_node_lies_in_the_regions_of_its_elements(
    regions: Seq<u64>,
    elements: Seq<Vec<u64>>,
    region: u64,
    node: int,
    i: int,
    k: int,
)
    requires
        0 <= i < regions.len(),
        i < elements.len(),
        0 <= k < elements[i]@.len(),
    ensures
        regions[i] == region && elements[i]@[k] == node ==> node_in_region(
            regions,
            elements,
            region,
            node,
        ),
        (forall|e: int, n: int|
            0 <= e < regions.len() && e < elements.len() && 0 <= n < elements[e]@.len()
                && regions[e] == region ==> #[trigger] elements[e]@[n] != node) ==> !node_in_region(
            regions,
            elements,
            region,
            node,
        ),
{
    if regions[i] == region && elements[i]@[k] == node {
        assert(holds_node(elements[i]@, node));
    }
}

/// A probe is compiled under its own number; it is built anew where nothing is kept
/// of it, for itself, and not at all where it is off.
pub proof fn a_probe_is_compiled_for_itself<
    F: Fn(&TopologyProbeDefinition) -> Result<Artifact, String>,
>(
    active: Option<ActiveProbes>,
    probe: TopologyProbeDefinition,
    build: F,
    compiled: CompiledTopologyProbe,
)
    requires
        compiles_to(active, probe, build, compiled),
    ensures
        compiled.id == probe.id,
        kept_probe(active, probe) is None && !probe.enabled ==> compiled.result is Disabled,
        kept_probe(active, probe) is None && probe.enabled ==> compiled.result !is Disabled,
        kept_probe(active, probe) is None ==> (compiled.result
            matches TopologyProbeCompilation::Ready(stencil) ==> call_ensures(
            build,
            (&probe,),
            Ok::<Artifact, String>(stencil),
        )),
        kept_probe(active, probe) is Some ==> kept_probe(active, probe) == Some(compiled),
{
    a_probe_keeps_only_its_own_stencil(active, probe, 0);
}

/// Forcing lies alike if each source acts on the same nodes, and with the same
/// weights where those are asked for.
pub proof fn forcing_lies_alike_source_by_source(
    left: Seq<ForcingSource>,
    right: Seq<ForcingSource>,
    i: int,
    k: int,
)
    requires
        0 <= i < left.len(),
        0 <= k < left[i].support@.len(),
    ensures
        same_support_and_weights(left, right) ==> same_support(left, right),
        same_support(left, right) ==> left.len() == right.len() && left[i].support@.len()
            == right[i].support@.len() && left[i].support@[k] == right[i].support@[k],
        same_support_and_weights(left, right) ==> left[i].weights@.len() == right[i].weights@.len()
            && (k < left[i].weights@.len() ==> left[i].weights@[k].eq_num(right[i].weights@[k])),
        left.len() == right.len() && (forall|j: int|
            0 <= j < left.len() ==> (#[trigger] left[j]).support@ == right[j].support@)
            ==> same_support(left, right),
{
    if same_support_and_weights(left, right) {
        assert(alike_seq(left[i].weights@, right[i].weights@));
        if k < left[i].weights@.len() {
            assert(left[i].weights@[k].alike(right[i].weights@[k]));
        }
    }
    if same_support(left, right) {
        assert(alike_seq(left[i].support@, right[i].support@));
        assert(left[i].support@[k].alike(right[i].support@[k]));
    }
}

} // verus!
