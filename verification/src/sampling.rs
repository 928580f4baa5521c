//! The geometry as the viewport shows it: polylines for the sides of the domain
//! and for the spans of the curves, and the handles that can be dragged. The
//! engine samples the curves; how its samples are cut into spans is decided here.

use crate::hits::ViewportTransform;
use crate::model::{
    CurveSpan, CurveSpline, DomainRect, OuterSide, TopologyCurve, TopologyGeometry, TopologyVertex,
};
use crate::scalar::{Point2, Scalar};
use crate::selection::{TopologyHandle, TopologySpanTarget};
use vstd::prelude::*;

verus! {

/// A point of a curve and its parameter.
#[derive(Clone, Copy, Debug, PartialEq, Eq, Structural)]
pub struct Sample {
    pub t: Scalar,
    pub point: Point2,
}

#[derive(Debug)]
pub struct SampledTopologySpan {
    pub target: TopologySpanTarget,
    pub curve: Option<u64>,
    pub samples: Vec<Sample>,
}

#[derive(Clone, Copy, Debug, PartialEq, Eq, Structural)]
pub struct SampledTopologyHandle {
    pub handle: TopologyHandle,
    pub point: Point2,
}

#[derive(Debug)]
pub struct SampledTopologyGeometry {
    pub spans: Vec<SampledTopologySpan>,
    pub handles: Vec<SampledTopologyHandle>,
}

#[derive(Clone, Copy, Debug, PartialEq, Eq, Structural)]
pub enum SamplingError {
    NonFinite,
    /// Any other refusal of the engine, by its number there.
    Engine(u64),
}

/// The points of a curve at the ends of a span.
#[derive(Clone, Copy, Debug, PartialEq, Eq, Structural)]
pub struct SpanEnds {
    pub start: Point2,
    pub end: Point2,
}

/// What the engine answers for a curve: its samples, and its points at the
/// ends of each span.
#[derive(Debug)]
pub struct CurveSampling {
    pub samples: Result<Vec<Sample>, SamplingError>,
    pub ends: Vec<SpanEnds>,
}

/// A sampled span without its storage.
pub ghost struct SpanShape {
    pub target: TopologySpanTarget,
    pub curve: Option<u64>,
    pub samples: Seq<Sample>,
}

impl SampledTopologySpan {
    pub open spec fn shape(self) -> SpanShape {
        SpanShape { target: self.target, curve: self.curve, samples: self.samples@ }
    }
}

pub open spec fn shapes(spans: Seq<SampledTopologySpan>) -> Seq<SpanShape> {
    spans.map_values(|span: SampledTopologySpan| span.shape())
}

/// The samples from one parameter to another, both included.
pub open spec fn samples_between(samples: Seq<Sample>, start: Scalar, end: Scalar) -> Seq<Sample>
    decreases samples.len(),
{
    if samples.len() == 0 {
        Seq::empty()
    } else {
        let kept = samples_between(samples.drop_last(), start, end);
        let sample = samples.last();
        if start.le_num(sample.t) && sample.t.le_num(end) {
            kept.push(sample)
        } else {
            kept
        }
    }
}

pub open spec fn with_start(samples: Seq<Sample>, start: Scalar, point: Point2) -> Seq<Sample> {
    if samples.len() == 0 || start.lt_num(samples[0].t) {
        samples.insert(0, Sample { t: start, point })
    } else {
        samples
    }
}

pub open spec fn with_end(samples: Seq<Sample>, end: Scalar, point: Point2) -> Seq<Sample> {
    if samples.len() == 0 || samples.last().t.lt_num(end) {
        samples.push(Sample { t: end, point })
    } else {
        samples
    }
}

/// The samples of one span: those of the curve inside it, and its two ends where
/// the curve has no sample there.
pub open spec fn span_samples(
    samples: Seq<Sample>,
    start: Scalar,
    end: Scalar,
    ends: SpanEnds,
) -> Seq<Sample> {
    with_end(with_start(samples_between(samples, start, end), start, ends.start), end, ends.end)
}

proof fn samples_between_are_inside(samples: Seq<Sample>, start: Scalar, end: Scalar)
    ensures
        forall|i: int|
            0 <= i < samples_between(samples, start, end).len() ==> {
                let t = (#[trigger] samples_between(samples, start, end)[i]).t;
                start.le_num(t) && t.le_num(end)
            },
    decreases samples.len(),
{
    if samples.len() > 0 {
        samples_between_are_inside(samples.drop_last(), start, end);
        let kept = samples_between(samples.drop_last(), start, end);
        let all = samples_between(samples, start, end);
        assert forall|i: int| 0 <= i < all.len() implies {
            let t = (#[trigger] all[i]).t;
            start.le_num(t) && t.le_num(end)
        } by {
            if i < kept.len() {
                assert(all[i] == kept[i]);
            }
        }
    }
}

/// A sampled span begins at its start, ends at its end and stays between them.
pub proof fn span_samples_reach_both_ends(
    samples: Seq<Sample>,
    start: Scalar,
    end: Scalar,
    ends: SpanEnds,
)
    requires
        start.le_num(end),
    ensures
        span_samples(samples, start, end, ends).len() >= 1,
        span_samples(samples, start, end, ends)[0].t.eq_num(start),
        span_samples(samples, start, end, ends).last().t.eq_num(end),
        forall|i: int|
            0 <= i < span_samples(samples, start, end, ends).len() ==> {
                let t = (#[trigger] span_samples(samples, start, end, ends)[i]).t;
                start.le_num(t) && t.le_num(end)
            },
{
    samples_between_are_inside(samples, start, end);
    let inside = samples_between(samples, start, end);
    let begun = with_start(inside, start, ends.start);
    assert(forall|i: int|
        0 <= i < begun.len() ==> start.le_num((#[trigger] begun[i]).t) && begun[i].t.le_num(end));
}

fn between(samples: &Vec<Sample>, start: Scalar, end: Scalar) -> (result: Vec<Sample>)
    ensures
        result@ == samples_between(samples@, start, end),
{
    let mut kept: Vec<Sample> = Vec::new();
    let mut index: usize = 0;
    while index < samples.len()
        invariant
            index <= samples@.len(),
            kept@ == samples_between(samples@.take(index as int), start, end),
        decreases samples@.len() - index,
    {
        let sample: Sample = samples[index];
        assert(samples@.take(index + 1).drop_last() =~= samples@.take(index as int));
        if start.at_most(sample.t) && sample.t.at_most(end) {
            kept.push(sample);
        }
        index = index + 1;
    }
    assert(samples@.take(index as int) =~= samples@);
    kept
}

fn sample_span(samples: &Vec<Sample>, start: Scalar, end: Scalar, ends: SpanEnds) -> (result: Vec<
    Sample,
>)
    ensures
        result@ == span_samples(samples@, start, end, ends),
{
    let mut kept: Vec<Sample> = between(samples, start, end);
    if kept.len() == 0 || start.less(kept[0].t) {
        kept.insert(0, Sample { t: start, point: ends.start });
    }
    if kept.len() == 0 || kept[kept.len() - 1].t.less(end) {
        kept.push(Sample { t: end, point: ends.end });
    }
    kept
}

pub open spec fn domain_corner(domain: DomainRect, index: int) -> Point2 {
    if index == 0 {
        Point2 { x: domain.min_x, y: domain.min_y }
    } else if index == 1 {
        Point2 { x: domain.max_x, y: domain.min_y }
    } else if index == 2 {
        Point2 { x: domain.max_x, y: domain.max_y }
    } else {
        Point2 { x: domain.min_x, y: domain.max_y }
    }
}

/// A side of the domain, from one corner to the next, going round.
pub open spec fn side_shape(domain: DomainRect, side: OuterSide) -> SpanShape {
    SpanShape {
        target: TopologySpanTarget::Outer(side),
        curve: None,
        samples: seq![
            Sample { t: Scalar::zero_num(), point: domain_corner(domain, side.place()) },
            Sample { t: Scalar::one_num(), point: domain_corner(domain, (side.place() + 1) % 4) },
        ],
    }
}

pub open spec fn side_shapes(domain: DomainRect) -> Seq<SpanShape> {
    seq![
        side_shape(domain, OuterSide::Bottom),
        side_shape(domain, OuterSide::Right),
        side_shape(domain, OuterSide::Top),
        side_shape(domain, OuterSide::Left),
    ]
}

fn sampled_side(side: OuterSide, from: Point2, to: Point2) -> (result: SampledTopologySpan)
    ensures
        result.target == TopologySpanTarget::Outer(side),
        result.curve is None,
        result.samples@ == seq![
            Sample { t: Scalar::zero_num(), point: from },
            Sample { t: Scalar::one_num(), point: to },
        ],
{
    let mut samples: Vec<Sample> = Vec::new();
    samples.push(Sample { t: Scalar::zero(), point: from });
    samples.push(Sample { t: Scalar::one(), point: to });
    SampledTopologySpan { target: TopologySpanTarget::Outer(side), curve: None, samples }
}

fn sampled_sides(domain: DomainRect) -> (result: Vec<SampledTopologySpan>)
    ensures
        shapes(result@) == side_shapes(domain),
{
    let first = Point2 { x: domain.min_x, y: domain.min_y };
    let second = Point2 { x: domain.max_x, y: domain.min_y };
    let third = Point2 { x: domain.max_x, y: domain.max_y };
    let fourth = Point2 { x: domain.min_x, y: domain.max_y };
    let mut spans: Vec<SampledTopologySpan> = Vec::new();
    spans.push(sampled_side(OuterSide::Bottom, first, second));
    spans.push(sampled_side(OuterSide::Right, second, third));
    spans.push(sampled_side(OuterSide::Top, third, fourth));
    spans.push(sampled_side(OuterSide::Left, fourth, first));
    proof {
        assert(spans@[0].shape() == side_shape(domain, OuterSide::Bottom));
        assert(spans@[1].shape() == side_shape(domain, OuterSide::Right));
        assert(spans@[2].shape() == side_shape(domain, OuterSide::Top));
        assert(spans@[3].shape() == side_shape(domain, OuterSide::Left));
        assert(shapes(spans@) =~= side_shapes(domain));
    }
    spans
}

impl CurveSpline {
    pub open spec fn bounds(self) -> Seq<(Scalar, Scalar)> {
        match self {
            CurveSpline::Closed(data) => data.span_bounds@,
            CurveSpline::Open(data) => data.span_bounds@,
        }
    }

    pub open spec fn control_points(self) -> Seq<Point2> {
        match self {
            CurveSpline::Closed(data) => data.controls@,
            CurveSpline::Open(data) => data.controls@,
        }
    }

    pub fn span_bounds(&self, span: usize) -> (result: Option<(Scalar, Scalar)>)
        ensures
            result == if span < self.bounds().len() {
                Some(self.bounds()[span as int])
            } else {
                None
            },
    {
        let bounds: &Vec<(Scalar, Scalar)> = match self {
            CurveSpline::Closed(data) => &data.span_bounds,
            CurveSpline::Open(data) => &data.span_bounds,
        };
        if span < bounds.len() {
            Some(bounds[span])
        } else {
            None
        }
    }

    pub fn controls(&self) -> (result: &Vec<Point2>)
        ensures
            result@ == self.control_points(),
    {
        match self {
            CurveSpline::Closed(data) => &data.controls,
            CurveSpline::Open(data) => &data.controls,
        }
    }
}

/// One span of a curve.
pub open spec fn span_shape(
    curve: TopologyCurve,
    samples: Seq<Sample>,
    ends: Seq<SpanEnds>,
    span: int,
) -> SpanShape {
    let bounds = curve.spline.bounds()[span];
    SpanShape {
        target: TopologySpanTarget::Curve(curve.spans@[span].id),
        curve: Some(curve.id),
        samples: span_samples(samples, bounds.0, bounds.1, ends[span]),
    }
}

/// The first spans of a curve, as many as `count`.
pub open spec fn curve_shapes(
    curve: TopologyCurve,
    samples: Seq<Sample>,
    ends: Seq<SpanEnds>,
    count: nat,
) -> Seq<SpanShape> {
    Seq::new(count, |span: int| span_shape(curve, samples, ends, span))
}

pub open spec fn curve_handles(curve: TopologyCurve) -> Seq<SampledTopologyHandle> {
    Seq::new(
        curve.spline.control_points().len(),
        |control: int|
            SampledTopologyHandle {
                handle: TopologyHandle::Control { curve: curve.id, control: control as usize },
                point: curve.spline.control_points()[control],
            },
    )
}

/// The spans of the first curves, as many as `count`, one curve after the other.
pub open spec fn all_curve_shapes(
    curves: Seq<TopologyCurve>,
    samplings: Seq<CurveSampling>,
    count: nat,
) -> Seq<SpanShape>
    decreases count,
{
    if count == 0 {
        Seq::empty()
    } else {
        let last = count - 1;
        all_curve_shapes(curves, samplings, (count - 1) as nat) + curve_shapes(
            curves[last],
            samplings[last].samples->Ok_0@,
            samplings[last].ends@,
            curves[last].spans@.len(),
        )
    }
}

/// The control points of the first curves, as many as `count`.
pub open spec fn all_curve_handles(curves: Seq<TopologyCurve>, count: nat) -> Seq<
    SampledTopologyHandle,
>
    decreases count,
{
    if count == 0 {
        Seq::empty()
    } else {
        all_curve_handles(curves, (count - 1) as nat) + curve_handles(curves[count - 1])
    }
}

/// The first junctions, as many as `count`, that have a place in the domain.
pub open spec fn junction_handles(
    vertices: Seq<TopologyVertex>,
    points: Seq<Option<Point2>>,
    count: nat,
) -> Seq<SampledTopologyHandle>
    decreases count,
{
    if count == 0 {
        Seq::empty()
    } else {
        let earlier = junction_handles(vertices, points, (count - 1) as nat);
        match points[count - 1] {
            Some(point) => earlier.push(
                SampledTopologyHandle {
                    handle: TopologyHandle::Junction(vertices[count - 1].id),
                    point,
                },
            ),
            None => earlier,
        }
    }
}

/// Whether the engine sampled the first curves, as many as `count`.
pub open spec fn all_sampled(samplings: Seq<CurveSampling>, count: int) -> bool {
    forall|i: int| 0 <= i < count ==> (#[trigger] samplings[i]).samples is Ok
}

pub open spec fn can_sample(transform: ViewportTransform, pixel_tolerance: Scalar) -> bool {
    &&& transform.usable()
    &&& pixel_tolerance.finite()
    &&& Scalar::zero_num().lt_num(pixel_tolerance)
}

/// The engine answered for every curve, and every span of a curve has its ends.
pub open spec fn answers_fit(
    geometry: TopologyGeometry,
    samplings: Seq<CurveSampling>,
    junctions: Seq<Option<Point2>>,
) -> bool {
    &&& samplings.len() == geometry.curves@.len()
    &&& junctions.len() == geometry.vertices@.len()
    &&& forall|i: int|
        0 <= i < samplings.len() ==> {
            &&& (#[trigger] samplings[i]).ends@.len() == geometry.curves@[i].spans@.len()
            &&& geometry.curves@[i].spline.bounds().len() >= geometry.curves@[i].spans@.len()
        }
}

impl SampledTopologyGeometry {
    /// `self` shows all of the geometry, the control points before the
    /// junctions.
    pub open spec fn shows(
        self,
        geometry: TopologyGeometry,
        samplings: Seq<CurveSampling>,
        junctions: Seq<Option<Point2>>,
    ) -> bool {
        &&& shapes(self.spans@) == side_shapes(geometry.domain) + all_curve_shapes(
            geometry.curves@,
            samplings,
            geometry.curves@.len(),
        )
        &&& self.handles@ == all_curve_handles(geometry.curves@, geometry.curves@.len())
            + junction_handles(geometry.vertices@, junctions, geometry.vertices@.len())
    }

    /// The sampled geometry. `samplings` are the engine's answers for the
    /// curves, sampled to the tolerance on the screen; `junctions` are the
    /// places of the vertices in the domain.
    pub fn new(
        geometry: &TopologyGeometry,
        transform: ViewportTransform,
        pixel_tolerance: Scalar,
        samplings: &Vec<CurveSampling>,
        junctions: &Vec<Option<Point2>>,
    ) -> (result: Result<Self, SamplingError>)
        requires
            can_sample(transform, pixel_tolerance) ==> answers_fit(
                *geometry,
                samplings@,
                junctions@,
            ),
        ensures
            match result {
                Ok(sampled) => {
                    &&& can_sample(transform, pixel_tolerance)
                    &&& all_sampled(samplings@, samplings@.len() as int)
                    &&& sampled.shows(*geometry, samplings@, junctions@)
                },
                Err(error) => {
                    ||| !can_sample(transform, pixel_tolerance) && error == SamplingError::NonFinite
                    ||| can_sample(transform, pixel_tolerance) && exists|i: int|
                        0 <= i < samplings@.len() && all_sampled(samplings@, i) && (
                        #[trigger] samplings@[i]).samples == Err::<Vec<Sample>, SamplingError>(
                            error,
                        )
                },
            },
    {
        if !transform.valid() || !pixel_tolerance.is_finite() || !Scalar::zero().less(
            pixel_tolerance,
        ) {
            return Err(SamplingError::NonFinite);
        }
        let mut spans: Vec<SampledTopologySpan> = sampled_sides(geometry.domain);
        let mut handles: Vec<SampledTopologyHandle> = Vec::new();
        let mut index: usize = 0;
        while index < geometry.curves.len()
            invariant
                index <= geometry.curves@.len(),
                can_sample(transform, pixel_tolerance),
                answers_fit(*geometry, samplings@, junctions@),
                all_sampled(samplings@, index as int),
                shapes(spans@) == side_shapes(geometry.domain) + all_curve_shapes(
                    geometry.curves@,
                    samplings@,
                    index as nat,
                ),
                handles@ == all_curve_handles(geometry.curves@, index as nat),
            decreases geometry.curves@.len() - index,
        {
            let curve: &TopologyCurve = &geometry.curves[index];
            match &samplings[index].samples {
                Err(error) => {
                    assert(samplings@[index as int].samples == Err::<Vec<Sample>, SamplingError>(
                        *error,
                    ));
                    return Err(*error);
                },
                Ok(samples) => {
                    add_curve_spans(curve, samples, &samplings[index].ends, &mut spans);
                    add_controls(curve, &mut handles);
                    proof {
                        assert(shapes(spans@) =~= side_shapes(geometry.domain) + all_curve_shapes(
                            geometry.curves@,
                            samplings@,
                            (index + 1) as nat,
                        ));
                    }
                },
            }
            index = index + 1;
        }
        add_junctions(&geometry.vertices, junctions, &mut handles);
        Ok(SampledTopologyGeometry { spans, handles })
    }
}

fn add_curve_spans(
    curve: &TopologyCurve,
    samples: &Vec<Sample>,
    ends: &Vec<SpanEnds>,
    spans: &mut Vec<SampledTopologySpan>,
)
    requires
        ends@.len() == curve.spans@.len(),
        curve.spline.bounds().len() >= curve.spans@.len(),
    ensures
        shapes(final(spans)@) == shapes(old(spans)@) + curve_shapes(
            *curve,
            samples@,
            ends@,
            curve.spans@.len(),
        ),
{
    let mut index: usize = 0;
    proof {
        assert(shapes(spans@) =~= shapes(old(spans)@) + curve_shapes(*curve, samples@, ends@, 0));
    }
    while index < curve.spans.len()
        invariant
            index <= curve.spans@.len(),
            ends@.len() == curve.spans@.len(),
            curve.spline.bounds().len() >= curve.spans@.len(),
            shapes(spans@) == shapes(old(spans)@) + curve_shapes(
                *curve,
                samples@,
                ends@,
                index as nat,
            ),
        decreases curve.spans@.len() - index,
    {
        let ghost before = spans@;
        if let Some((start, end)) = curve.spline.span_bounds(index) {
            let span: CurveSpan = curve.spans[index];
            spans.push(
                SampledTopologySpan {
                    target: TopologySpanTarget::Curve(span.id),
                    curve: Some(curve.id),
                    samples: sample_span(samples, start, end, ends[index]),
                },
            );
        }
        proof {
            assert(spans@ == before.push(spans@.last()));
            assert(spans@.last().shape() == span_shape(*curve, samples@, ends@, index as int));
            assert(shapes(spans@) =~= shapes(before).push(spans@.last().shape()));
            assert(shapes(spans@) =~= shapes(old(spans)@) + curve_shapes(
                *curve,
                samples@,
                ends@,
                (index + 1) as nat,
            ));
        }
        index = index + 1;
    }
}

fn add_controls(curve: &TopologyCurve, handles: &mut Vec<SampledTopologyHandle>)
    ensures
        final(handles)@ == old(handles)@ + curve_handles(*curve),
{
    let controls: &Vec<Point2> = curve.spline.controls();
    let mut control: usize = 0;
    while control < controls.len()
        invariant
            controls@ == curve.spline.control_points(),
            control <= controls@.len(),
            handles@ =~= old(handles)@ + curve_handles(*curve).take(control as int),
        decreases controls@.len() - control,
    {
        handles.push(
            SampledTopologyHandle {
                handle: TopologyHandle::Control { curve: curve.id, control },
                point: controls[control],
            },
        );
        control = control + 1;
    }
    assert(curve_handles(*curve).take(control as int) =~= curve_handles(*curve));
}

fn add_junctions(
    vertices: &Vec<TopologyVertex>,
    points: &Vec<Option<Point2>>,
    handles: &mut Vec<SampledTopologyHandle>,
)
    requires
        points@.len() == vertices@.len(),
    ensures
        final(handles)@ == old(handles)@ + junction_handles(
            vertices@,
            points@,
            vertices@.len(),
        ),
{
    let mut index: usize = 0;
    while index < vertices.len()
        invariant
            index <= vertices@.len(),
            points@.len() == vertices@.len(),
            handles@ =~= old(handles)@ + junction_handles(vertices@, points@, index as nat),
        decreases vertices@.len() - index,
    {
        if let Some(point) = points[index] {
            handles.push(
                SampledTopologyHandle {
                    handle: TopologyHandle::Junction(vertices[index].id),
                    point,
                },
            );
        }
        index = index + 1;
    }
}

} // verus!
