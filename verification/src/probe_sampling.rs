//! Compiling one probe: which stencils it is made of, and where each of them
//! reads.
//!
//! The engine builds the stencils, and the application measures along a path;
//! both come in as functions.

use crate::model::{
    CurveTraceSide, TopologyBoundaryProbeTarget, TopologyCurve,
    TopologyProbeTarget,
};
use crate::preparation::{Artifact, WaveModel};
use crate::probes::{
    boundary_probe_path, check_path, line_stencils, path_along, path_issue, probe_path,
    sampled_piece, span_pieces, span_pieces_are_ordered, stop_from, PlannedBoundary,
    PlannedBoundarySource,
};
use crate::scalar::{Point2, Scalar};
use crate::validation::{curve_named, find_curve};
use vstd::prelude::*;

verus! {

/// Where one sample of a boundary probe reads: on a piece of the boundary, a
/// part of the way from one parameter to another.
#[derive(Clone, Copy, Debug, PartialEq, Eq, Structural)]
pub struct BoundarySample {
    pub curve: u64,
    pub span: u64,
    pub side: CurveTraceSide,
    pub separated: bool,
    pub region: u64,
    /// The parameters at the ends of the piece, in the direction of the probe.
    pub from: Scalar,
    pub to: Scalar,
    /// How far along the piece the sample lies, of its whole length.
    pub distance: Scalar,
    pub length: Scalar,
    pub period: Scalar,
}

/// What every stencil of a candidate is built on.
#[derive(Clone, Copy, Debug, PartialEq, Eq, Structural)]
pub struct StencilBase {
    pub mesh: Artifact,
    pub operator: Artifact,
    pub plan: Artifact,
    pub model: WaveModel,
}

/// A stencil that only the engine can build.
#[derive(Clone, Copy, Debug, PartialEq, Eq, Structural)]
#[allow(inconsistent_fields)]
pub enum StencilSite {
    Point(Point2),
    /// A point of a segment: so many of the steps from its start to its end.
    Along { start: Point2, end: Point2, step: usize, steps: usize },
    Boundary(BoundarySample),
    Disk { center: Point2, radius: Scalar },
    Region(u64),
}

#[derive(Debug)]
pub enum TopologyProbeStencil {
    Point(Artifact),
    Segment(Vec<Artifact>),
    Boundary(Vec<Artifact>),
    Area(Artifact),
}

/// A path as it is measured.
#[derive(Debug)]
pub struct PathMeasure {
    /// The lengths of the pieces.
    pub lengths: Vec<Scalar>,
    pub total: Scalar,
    /// For each sample, what is left of its distance before each piece.
    pub remaining: Vec<Vec<Scalar>>,
}

impl PathMeasure {
    /// Whether the measure is one of so many pieces at so many samples. Nothing
    /// has no length.
    pub open spec fn measures(self, pieces: nat, samples: nat) -> bool {
        &&& self.lengths@.len() == pieces
        &&& self.remaining@.len() == samples
        &&& forall|k: int|
            0 <= k < samples ==> (#[trigger] self.remaining@[k])@.len() == pieces
        &&& pieces == 0 ==> !Scalar::zero_num().lt_num(self.total)
    }
}

/// The span that a piece of a curve lies on.
pub open spec fn piece_span(piece: PlannedBoundary) -> u64 {
    match piece.source {
        PlannedBoundarySource::Curve { span, .. } => span,
        PlannedBoundarySource::Outer => 0,
    }
}

/// The sample that stops at a place of the path.
pub open spec fn sample_on(
    target: TopologyBoundaryProbeTarget,
    piece: PlannedBoundary,
    distance: Scalar,
    length: Scalar,
    period: Scalar,
) -> BoundarySample {
    BoundarySample {
        curve: target.curve,
        span: piece_span(piece),
        side: target.side,
        separated: piece.separated,
        region: piece.region,
        from: if target.reversed {
            piece.end
        } else {
            piece.start
        },
        to: if target.reversed {
            piece.start
        } else {
            piece.end
        },
        distance,
        length,
        period,
    }
}

/// One sample along a path.
pub open spec fn sample_at(
    target: TopologyBoundaryProbeTarget,
    path: Seq<PlannedBoundary>,
    measure: PathMeasure,
    period: Scalar,
    sample: int,
) -> BoundarySample {
    let remaining = measure.remaining@[sample]@;
    let place = stop_from(remaining, measure.lengths@, 0);
    sample_on(target, path[place], remaining[place], measure.lengths@[place], period)
}

/// Where the last span of a curve ends.
pub open spec fn curve_period(curve: TopologyCurve) -> Option<Scalar> {
    let last = if curve.spans@.len() == 0 {
        0
    } else {
        curve.spans@.len() - 1
    };
    if last < curve.spline.bounds().len() {
        Some(curve.spline.bounds()[last].1)
    } else {
        None
    }
}

/// Whether these are the engine's answers at the first sites of a list: up to the
/// first refusal, and at all of them where there is none.
pub open spec fn answered<B: Fn(StencilBase, StencilSite) -> Result<Artifact, String>>(
    base: StencilBase,
    build: B,
    sites: Seq<StencilSite>,
    built: Seq<Result<Artifact, String>>,
) -> bool {
    &&& built.len() <= sites.len()
    &&& forall|i: int| 0 <= i < built.len() ==> call_ensures(build, (base, sites[i]), #[trigger] built[i])
    &&& forall|i: int| 0 <= i < built.len() - 1 ==> (#[trigger] built[i]) is Ok
    &&& built.len() < sites.len() ==> built.len() > 0 && built.last() is Err
}

/// Whether stencils at a list of sites come to this.
pub open spec fn builds_line<B: Fn(StencilBase, StencilSite) -> Result<Artifact, String>>(
    base: StencilBase,
    build: B,
    sites: Seq<StencilSite>,
    result: Result<Vec<Artifact>, String>,
) -> bool {
    exists|built: Seq<Result<Artifact, String>>| #[trigger] answered(base, build, sites, built)
        && match line_stencils(built) {
        Ok(stencils) => result is Ok && result->Ok_0@ == stencils,
        Err(issue) => result == Err::<Vec<Artifact>, String>(issue),
    }
}

/// Builds the stencils of a line, one after the other, until one is refused.
fn build_line<B: Fn(StencilBase, StencilSite) -> Result<Artifact, String>>(
    sites: &Vec<StencilSite>,
    base: StencilBase,
    build: &B,
) -> (result: Result<Vec<Artifact>, String>)
    requires
        forall|site: StencilSite| call_requires(build, (base, site)),
    ensures
        builds_line(base, *build, sites@, result),
{
    let mut stencils: Vec<Artifact> = Vec::new();
    let ghost mut built: Seq<Result<Artifact, String>> = Seq::empty();
    let mut index: usize = 0;
    while index < sites.len()
        invariant
            index <= sites@.len(),
            built.len() == index,
            forall|site: StencilSite| call_requires(build, (base, site)),
            forall|i: int|
                0 <= i < built.len() ==> call_ensures(build, (base, sites@[i]), #[trigger] built[i]),
            forall|i: int| 0 <= i < built.len() ==> (#[trigger] built[i]) is Ok,
            line_stencils(built) == Ok::<Seq<Artifact>, String>(stencils@),
        decreases sites@.len() - index,
    {
        let answer: Result<Artifact, String> = build(base, sites[index]);
        proof {
            let longer = built.push(answer);
            assert(longer.drop_last() =~= built);
            built = longer;
        }
        match answer {
            Ok(stencil) => {
                stencils.push(stencil);
            },
            Err(issue) => {
                assert(answered(base, *build, sites@, built));
                return Err(issue);
            },
        }
        index = index + 1;
    }
    assert(answered(base, *build, sites@, built));
    Ok(stencils)
}

/// The sites of the samples along a path.
pub open spec fn path_sites(
    target: TopologyBoundaryProbeTarget,
    path: Seq<PlannedBoundary>,
    measure: PathMeasure,
    period: Scalar,
    samples: nat,
) -> Seq<StencilSite> {
    Seq::new(
        samples,
        |sample: int| StencilSite::Boundary(sample_at(target, path, measure, period, sample)),
    )
}

/// Whether sampling a path that was measured so comes to this: a path without a
/// length and a curve without a period are refused.
pub open spec fn samples_path<B: Fn(StencilBase, StencilSite) -> Result<Artifact, String>>(
    target: TopologyBoundaryProbeTarget,
    curve: TopologyCurve,
    path: Seq<PlannedBoundary>,
    measure: PathMeasure,
    base: StencilBase,
    build: B,
    result: Result<Vec<Artifact>, String>,
) -> bool {
    match path_issue(measure.total, curve_period(curve)) {
        Some(issue) => result is Err && result->Err_0@ == issue,
        None => builds_line(
            base,
            build,
            path_sites(
                target,
                path,
                measure,
                curve_period(curve)->0,
                target.preset.points(),
            ),
            result,
        ),
    }
}

/// Whether compiling a boundary probe comes to this.
pub open spec fn compiles_boundary<
    M: Fn(&Vec<PlannedBoundary>, usize) -> PathMeasure,
    B: Fn(StencilBase, StencilSite) -> Result<Artifact, String>,
>(
    target: TopologyBoundaryProbeTarget,
    curves: Seq<TopologyCurve>,
    boundaries: Seq<PlannedBoundary>,
    measure: M,
    base: StencilBase,
    build: B,
    result: Result<Vec<Artifact>, String>,
) -> bool {
    match probe_path(target, curves, boundaries) {
        Err(issue) => result is Err && result->Err_0@ == issue,
        Ok(path) => exists|pieces: Vec<PlannedBoundary>, measured: PathMeasure| #[trigger]
            call_ensures(measure, (&pieces, target.preset.points() as usize), measured) && pieces@ == path
                && samples_path(
                target,
                curve_named(curves, target.curve)->0,
                path,
                measured,
                base,
                build,
                result,
            ),
    }
}

/// Compiles a boundary probe. `measure` measures a path at so many samples,
/// evenly spread over its length; `build` is the engine's, and builds on `base`.
pub fn compile_boundary_probe<
    M: Fn(&Vec<PlannedBoundary>, usize) -> PathMeasure,
    B: Fn(StencilBase, StencilSite) -> Result<Artifact, String>,
>(
    target: &TopologyBoundaryProbeTarget,
    curves: &Vec<TopologyCurve>,
    boundaries: &Vec<PlannedBoundary>,
    measure: &M,
    base: StencilBase,
    build: &B,
) -> (result: Result<Vec<Artifact>, String>)
    requires
        forall|path: &Vec<PlannedBoundary>, samples: usize|
            call_requires(measure, (path, samples)),
        forall|path: &Vec<PlannedBoundary>, samples: usize, measured: PathMeasure|
            call_ensures(measure, (path, samples), measured) ==> measured.measures(
                path@.len(),
                samples as nat,
            ),
        forall|site: StencilSite| call_requires(build, (base, site)),
    ensures
        compiles_boundary(*target, curves@, boundaries@, *measure, base, *build, result),
{
    let path: Vec<PlannedBoundary> = match boundary_probe_path(target, curves, boundaries) {
        Ok(path) => path,
        Err(issue) => {
            return Err(issue);
        },
    };
    let samples: usize = target.preset.spatial_points();
    let measured: PathMeasure = measure(&path, samples);
    let ghost whole = measured;
    assert(samples == target.preset.points() as usize);
    assert(call_ensures(*measure, (&path, target.preset.points() as usize), whole));
    let period: Option<Scalar> = match find_curve(curves, target.curve) {
        Some(place) => {
            let curve: &TopologyCurve = &curves[place];
            let last: usize = if curve.spans.len() == 0 {
                0
            } else {
                curve.spans.len() - 1
            };
            match curve.spline.span_bounds(last) {
                Some((_, end)) => Some(end),
                None => None,
            }
        },
        None => None,
    };
    let ghost curve = curve_named(curves@, target.curve)->0;
    assert(period == curve_period(curve));
    let period: Scalar = match check_path(measured.total, period) {
        Ok(period) => period,
        Err(issue) => {
            assert(samples_path(*target, curve, path@, whole, base, *build, Err(issue)));
            return Err(issue);
        },
    };
    assert(measured.measures(path@.len(), samples as nat));
    assert(path_issue(measured.total, curve_period(curve)) is None);
    let ghost sites_asked = path_sites(*target, path@, whole, period, samples as nat);
    let mut sites: Vec<StencilSite> = Vec::new();
    let mut sample: usize = 0;
    while sample < samples
        invariant
            sample <= samples,
            measured.measures(path@.len(), samples as nat),
            path@.len() > 0,
            sites_asked == path_sites(*target, path@, measured, period, samples as nat),
            sites@ =~= sites_asked.take(sample as int),
        decreases samples - sample,
    {
        let remaining: &Vec<Scalar> = &measured.remaining[sample];
        let place: usize = sampled_piece(remaining, &measured.lengths);
        let piece: PlannedBoundary = path[place];
        let span: u64 = match piece.source {
            PlannedBoundarySource::Curve { span, .. } => span,
            PlannedBoundarySource::Outer => 0,
        };
        let (from, to): (Scalar, Scalar) = if target.reversed {
            (piece.end, piece.start)
        } else {
            (piece.start, piece.end)
        };
        let read = BoundarySample {
            curve: target.curve,
            span,
            side: target.side,
            separated: piece.separated,
            region: piece.region,
            from,
            to,
            distance: remaining[place],
            length: measured.lengths[place],
            period,
        };
        assert(read == sample_at(*target, path@, measured, period, sample as int));
        sites.push(StencilSite::Boundary(read));
        sample = sample + 1;
    }
    assert(sites@ =~= sites_asked);
    let compiled: Result<Vec<Artifact>, String> = build_line(&sites, base, build);
    assert(samples_path(*target, curve, path@, whole, base, *build, compiled));
    compiled
}

/// The sites of a segment probe: evenly spread from its start to its end.
pub open spec fn segment_sites(start: Point2, end: Point2, points: nat) -> Seq<StencilSite> {
    Seq::new(
        points,
        |step: int|
            StencilSite::Along {
                start,
                end,
                step: step as usize,
                steps: (points - 1) as usize,
            },
    )
}

/// Whether one stencil comes to this probe.
pub open spec fn builds_one<B: Fn(StencilBase, StencilSite) -> Result<Artifact, String>>(
    base: StencilBase,
    build: B,
    site: StencilSite,
    area: bool,
    result: Result<TopologyProbeStencil, String>,
) -> bool {
    exists|built: Result<Artifact, String>| #[trigger] call_ensures(build, (base, site), built)
        && match built {
        Ok(stencil) => result == Ok::<TopologyProbeStencil, String>(
            if area {
                TopologyProbeStencil::Area(stencil)
            } else {
                TopologyProbeStencil::Point(stencil)
            },
        ),
        Err(issue) => result == Err::<TopologyProbeStencil, String>(issue),
    }
}

fn build_one<B: Fn(StencilBase, StencilSite) -> Result<Artifact, String>>(
    base: StencilBase,
    build: &B,
    site: StencilSite,
    area: bool,
) -> (result: Result<TopologyProbeStencil, String>)
    requires
        call_requires(build, (base, site)),
    ensures
        builds_one(base, *build, site, area, result),
{
    let built: Result<Artifact, String> = build(base, site);
    let ghost answer = built;
    assert(call_ensures(build, (base, site), answer));
    match built {
        Ok(stencil) => Ok(
            if area {
                TopologyProbeStencil::Area(stencil)
            } else {
                TopologyProbeStencil::Point(stencil)
            },
        ),
        Err(issue) => Err(issue),
    }
}

/// Whether compiling a probe comes to this.
pub open spec fn compiles_probe<
    M: Fn(&Vec<PlannedBoundary>, usize) -> PathMeasure,
    B: Fn(StencilBase, StencilSite) -> Result<Artifact, String>,
>(
    target: TopologyProbeTarget,
    curves: Seq<TopologyCurve>,
    boundaries: Seq<PlannedBoundary>,
    measure: M,
    base: StencilBase,
    build: B,
    result: Result<TopologyProbeStencil, String>,
) -> bool {
    match target {
        TopologyProbeTarget::Point(point) => builds_one(
            base,
            build,
            StencilSite::Point(point),
            false,
            result,
        ),
        TopologyProbeTarget::Segment { start, end, preset } => match result {
            Ok(stencil) => stencil matches TopologyProbeStencil::Segment(points) && builds_line(
                base,
                build,
                segment_sites(start, end, preset.points()),
                Ok(points),
            ),
            Err(issue) => builds_line(
                base,
                build,
                segment_sites(start, end, preset.points()),
                Err(issue),
            ),
        },
        TopologyProbeTarget::Boundary(target) => match result {
            Ok(stencil) => stencil matches TopologyProbeStencil::Boundary(points)
                && compiles_boundary(target, curves, boundaries, measure, base, build, Ok(points)),
            Err(issue) => compiles_boundary(
                target,
                curves,
                boundaries,
                measure,
                base,
                build,
                Err(issue),
            ),
        },
        TopologyProbeTarget::AreaDisk { center, radius } => builds_one(
            base,
            build,
            StencilSite::Disk { center, radius },
            true,
            result,
        ),
        TopologyProbeTarget::AreaRegion(region) => builds_one(
            base,
            build,
            StencilSite::Region(region),
            true,
            result,
        ),
    }
}

/// Compiles one probe against a candidate. The stencils of every kind of probe
/// are built on the same base.
pub fn compile_probe<
    M: Fn(&Vec<PlannedBoundary>, usize) -> PathMeasure,
    B: Fn(StencilBase, StencilSite) -> Result<Artifact, String>,
>(
    target: &TopologyProbeTarget,
    curves: &Vec<TopologyCurve>,
    boundaries: &Vec<PlannedBoundary>,
    measure: &M,
    base: StencilBase,
    build: &B,
) -> (result: Result<TopologyProbeStencil, String>)
    requires
        forall|path: &Vec<PlannedBoundary>, samples: usize|
            call_requires(measure, (path, samples)),
        forall|path: &Vec<PlannedBoundary>, samples: usize, measured: PathMeasure|
            call_ensures(measure, (path, samples), measured) ==> measured.measures(
                path@.len(),
                samples as nat,
            ),
        forall|site: StencilSite| call_requires(build, (base, site)),
    ensures
        compiles_probe(*target, curves@, boundaries@, *measure, base, *build, result),
{
    match target {
        TopologyProbeTarget::Point(point) => build_one(
            base,
            build,
            StencilSite::Point(*point),
            false,
        ),
        TopologyProbeTarget::Segment { start, end, preset } => {
            let points: usize = preset.spatial_points();
            let ghost asked = segment_sites(*start, *end, points as nat);
            let mut sites: Vec<StencilSite> = Vec::new();
            let mut step: usize = 0;
            while step < points
                invariant
                    step <= points,
                    asked == segment_sites(*start, *end, points as nat),
                    sites@ =~= asked.take(step as int),
                decreases points - step,
            {
                sites.push(
                    StencilSite::Along { start: *start, end: *end, step, steps: points - 1 },
                );
                step = step + 1;
            }
            assert(sites@ =~= asked);
            match build_line(&sites, base, build) {
                Ok(points) => Ok(TopologyProbeStencil::Segment(points)),
                Err(issue) => Err(issue),
            }
        },
        TopologyProbeTarget::Boundary(target) => match compile_boundary_probe(
            target,
            curves,
            boundaries,
            measure,
            base,
            build,
        ) {
            Ok(points) => Ok(TopologyProbeStencil::Boundary(points)),
            Err(issue) => Err(issue),
        },
        TopologyProbeTarget::AreaDisk { center, radius } => build_one(
            base,
            build,
            StencilSite::Disk { center: *center, radius: *radius },
            true,
        ),
        TopologyProbeTarget::AreaRegion(region) => build_one(
            base,
            build,
            StencilSite::Region(*region),
            true,
        ),
    }
}

proof fn pieces_of_a_span_lie_on_it(
    boundaries: Seq<PlannedBoundary>,
    curve: u64,
    span: u64,
    side: CurveTraceSide,
)
    ensures
        forall|i: int|
            0 <= i < span_pieces(boundaries, curve, span, side).len() ==> (#[trigger] span_pieces(
                boundaries,
                curve,
                span,
                side,
            )[i]).source == (PlannedBoundarySource::Curve { curve, span, side }),
{
    broadcast use vstd::seq_lib::group_to_multiset_ensures;

    let pieces = span_pieces(boundaries, curve, span, side);
    let on_span = |piece: PlannedBoundary| crate::probes::lies_on(piece, curve, span, side);
    span_pieces_are_ordered(boundaries, curve, span, side);
    assert forall|i: int| 0 <= i < pieces.len() implies (#[trigger] pieces[i]).source == (
    PlannedBoundarySource::Curve { curve, span, side }) by {
        assert(pieces.contains(pieces[i]));
        assert(pieces.to_multiset().contains(pieces[i]));
        assert(boundaries.filter(on_span).contains(pieces[i]));
        boundaries.lemma_filter_contains_rev(on_span, pieces[i]);
    }
}

/// Every piece of a boundary probe's path lies on its side of one of its spans.
pub proof fn a_path_stays_on_its_spans(
    boundaries: Seq<PlannedBoundary>,
    curve: u64,
    side: CurveTraceSide,
    spans: Seq<u64>,
)
    requires
        path_along(boundaries, curve, side, spans) is Some,
    ensures
        forall|i: int|
            0 <= i < path_along(boundaries, curve, side, spans)->0.len() ==> {
                let piece = #[trigger] path_along(boundaries, curve, side, spans)->0[i];
                &&& piece.source == (PlannedBoundarySource::Curve {
                    curve,
                    span: piece_span(piece),
                    side,
                })
                &&& spans.contains(piece_span(piece))
            },
    decreases spans.len(),
{
    if spans.len() > 0 {
        let front = spans.drop_last();
        let earlier = path_along(boundaries, curve, side, front)->0;
        let pieces = span_pieces(boundaries, curve, spans.last(), side);
        a_path_stays_on_its_spans(boundaries, curve, side, front);
        pieces_of_a_span_lie_on_it(boundaries, curve, spans.last(), side);
        let whole = path_along(boundaries, curve, side, spans)->0;
        assert(whole == earlier + pieces);
        assert forall|i: int| 0 <= i < whole.len() implies {
            let piece = #[trigger] whole[i];
            &&& piece.source == (PlannedBoundarySource::Curve {
                curve,
                span: piece_span(piece),
                side,
            })
            &&& spans.contains(piece_span(piece))
        } by {
            if i < earlier.len() {
                assert(whole[i] == earlier[i]);
                let k = front.index_of(piece_span(earlier[i]));
                assert(spans[k] == piece_span(earlier[i]));
            } else {
                assert(whole[i] == pieces[i - earlier.len()]);
                assert(spans[spans.len() - 1] == piece_span(whole[i]));
            }
        }
    }
}

proof fn a_line_without_a_refusal_has_every_stencil(built: Seq<Result<Artifact, String>>)
    requires
        line_stencils(built) is Ok,
    ensures
        line_stencils(built)->Ok_0.len() == built.len(),
        forall|i: int|
            0 <= i < built.len() ==> built[i] == Ok::<Artifact, String>(
                #[trigger] line_stencils(built)->Ok_0[i],
            ),
    decreases built.len(),
{
    if built.len() > 0 {
        a_line_without_a_refusal_has_every_stencil(built.drop_last());
    }
}

/// Whether the engine builds a stencil on the base for some sample of a boundary.
pub open spec fn samples_boundary<B: Fn(StencilBase, StencilSite) -> Result<Artifact, String>>(
    base: StencilBase,
    build: B,
    stencil: Artifact,
) -> bool {
    exists|sample: BoundarySample| #[trigger]
        call_ensures(
            build,
            (base, StencilSite::Boundary(sample)),
            Ok::<Artifact, String>(stencil),
        )
}

/// A compiled boundary probe has as many stencils as its preset asks for, and
/// each is what the engine built on the base for a sample of the boundary.
pub proof fn a_boundary_probe_has_every_sample<
    M: Fn(&Vec<PlannedBoundary>, usize) -> PathMeasure,
    B: Fn(StencilBase, StencilSite) -> Result<Artifact, String>,
>(
    target: TopologyBoundaryProbeTarget,
    curves: Seq<TopologyCurve>,
    boundaries: Seq<PlannedBoundary>,
    measure: M,
    base: StencilBase,
    build: B,
    stencils: Vec<Artifact>,
)
    requires
        compiles_boundary(target, curves, boundaries, measure, base, build, Ok(stencils)),
    ensures
        stencils@.len() == target.preset.points(),
        forall|i: int|
            0 <= i < stencils@.len() ==> samples_boundary(base, build, #[trigger] stencils@[i]),
{
    let path = probe_path(target, curves, boundaries)->Ok_0;
    let curve = curve_named(curves, target.curve)->0;
    let (pieces, measured) = choose|pieces: Vec<PlannedBoundary>, measured: PathMeasure| #[trigger]
        call_ensures(measure, (&pieces, target.preset.points() as usize), measured) && pieces@
            == path && samples_path(target, curve, path, measured, base, build, Ok(stencils));
    let period = curve_period(curve)->0;
    let sites = path_sites(target, path, measured, period, target.preset.points());
    let built = choose|built: Seq<Result<Artifact, String>>| #[trigger]
        answered(base, build, sites, built) && match line_stencils(built) {
            Ok(line) => stencils@ == line,
            Err(_) => false,
        };
    a_line_without_a_refusal_has_every_stencil(built);
    if built.len() < sites.len() {
        assert(built[built.len() - 1] is Err);
        assert(built[built.len() - 1] == Ok::<Artifact, String>(
            line_stencils(built)->Ok_0[built.len() - 1],
        ));
    }
    assert forall|i: int| 0 <= i < stencils@.len() implies samples_boundary(
        base,
        build,
        #[trigger] stencils@[i],
    ) by {
        assert(built[i] == Ok::<Artifact, String>(line_stencils(built)->Ok_0[i]));
        let sample = sample_at(target, path, measured, period, i);
        assert(sites[i] == StencilSite::Boundary(sample));
        assert(call_ensures(build, (base, StencilSite::Boundary(sample)), built[i]));
    }
}

} // verus!
