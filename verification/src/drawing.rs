//! The drawing tools: placing points, finishing a curve, and what it is made
//! into. The engine builds the splines.

use crate::attachment::{AttachmentHit, TopologyAttachment};
use crate::collect::{copied, find, first_value};
use crate::gesture::{DrawGesture, DrawTool};
use crate::interaction::Interaction;
use crate::model::TopologyCurve;
use crate::ordered_set::OrderedSet;
use crate::selection::{spans_of, SpanSet, TopologySelection, TopologySpanTarget};
use crate::text::{decimal, decimal_digits, joined};
use crate::scalar::Point2;
use vstd::prelude::*;

verus! {

#[derive(Clone, Copy, Debug, PartialEq, Eq, Structural)]
pub enum ClosedPurpose {
    Subdomain,
    Hole,
}

#[derive(Clone, Copy, Debug, PartialEq, Eq, Structural)]
pub enum OpenPurpose {
    Separator,
    Baffle,
}

/// What a closed curve is for.
#[derive(Clone, Copy, Debug, PartialEq, Eq, Structural)]
pub enum ClosedCurvePurpose {
    Subdomain { material: u64 },
    Hole,
}

/// What an open curve is for. A separator may leave the material to the side it
/// splits off.
#[derive(Clone, Copy, Debug, PartialEq, Eq, Structural)]
pub enum OpenCurvePurpose {
    SubdomainSeparator { material: Option<u64> },
    BoundaryBaffle,
}

impl DrawTool {
    pub open spec fn opens(self) -> bool {
        self is Polyline || self is OpenSpline
    }

    /// Whether the tool draws an open curve.
    pub fn draws_open(self) -> (result: bool)
        ensures
            result == self.opens(),
    {
        matches!(self, DrawTool::Polyline | DrawTool::OpenSpline)
    }
}

impl Interaction {
    /// Starts a curve with a tool. What was selected no longer is.
    pub fn begin_draw(&mut self, tool: DrawTool) -> (result: DrawGesture)
        ensures
            result.tool == tool,
            result.points@ == Seq::<Point2>::empty(),
            result.attachments@ == Seq::<Option<TopologyAttachment>>::empty(),
            *final(self) == (Interaction {
                selection: TopologySelection::Nothing,
                ..*old(self)
            }),
            old(self).wf() ==> final(self).wf(),
    {
        self.selection = TopologySelection::Nothing;
        DrawGesture { tool, points: Vec::new(), attachments: Vec::new() }
    }
}

/// A point of a curve being drawn, and what it attaches to.
#[derive(Clone, Copy, Debug, PartialEq, Eq, Structural)]
pub struct DrawnPoint {
    pub point: Point2,
    pub attachment: Option<TopologyAttachment>,
}

pub open spec fn point_placed(
    tool: DrawTool,
    hit: Option<AttachmentHit>,
    free: Point2,
    snapped: Point2,
    snap_to_grid: bool,
) -> DrawnPoint {
    if tool.opens() && hit is Some {
        DrawnPoint { point: hit->0.point, attachment: Some(hit->0.attachment) }
    } else if snap_to_grid {
        DrawnPoint { point: snapped, attachment: None }
    } else {
        DrawnPoint { point: free, attachment: None }
    }
}

/// Where a click puts a point. An attachment is a snap of its own and outranks
/// the grid: the point being welded to is where an open curve has to land.
pub fn place_point(
    tool: DrawTool,
    hit: Option<AttachmentHit>,
    free: Point2,
    snapped: Point2,
    snap_to_grid: bool,
) -> (result: DrawnPoint)
    ensures
        result == point_placed(tool, hit, free, snapped, snap_to_grid),
{
    if tool.draws_open() {
        if let Some(hit) = hit {
            return DrawnPoint { point: hit.point, attachment: Some(hit.attachment) };
        }
    }
    if snap_to_grid {
        DrawnPoint { point: snapped, attachment: None }
    } else {
        DrawnPoint { point: free, attachment: None }
    }
}

/// What a click of a drawing tool leads to.
#[derive(Clone, Copy, Debug, PartialEq, Eq, Structural)]
pub enum DrawStep {
    /// A circle is made about the point and the drawing is over.
    Circle { center: Point2 },
    /// The curve is finished.
    Finish,
    /// The curve goes on.
    Continue,
}

pub open spec fn closes(draw: DrawGesture, near_first: bool) -> bool {
    draw.points@.len() >= 3 && near_first && !draw.tool.opens()
}

/// Takes a point. `near_first` says that it lies by the first point, which
/// closes a closed curve of three points or more.
pub fn draw_click(draw: &mut DrawGesture, placed: DrawnPoint, near_first: bool) -> (result: DrawStep)
    ensures
        final(draw).tool == old(draw).tool,
        if old(draw).tool is Circle {
            &&& result == (DrawStep::Circle { center: placed.point })
            &&& final(draw).points@ == old(draw).points@
            &&& final(draw).attachments@ == old(draw).attachments@
        } else if closes(*old(draw), near_first) {
            &&& result is Finish
            &&& final(draw).points@ == old(draw).points@
            &&& final(draw).attachments@ == old(draw).attachments@
        } else {
            &&& final(draw).points@ == old(draw).points@.push(placed.point)
            &&& final(draw).attachments@ == old(draw).attachments@.push(placed.attachment)
            &&& result == if old(draw).tool is Rectangle && old(draw).points@.len() == 1 {
                DrawStep::Finish
            } else {
                DrawStep::Continue
            }
        },
{
    if draw.tool == DrawTool::Circle {
        return DrawStep::Circle { center: placed.point };
    }
    if draw.points.len() >= 3 && near_first && !draw.tool.draws_open() {
        return DrawStep::Finish;
    }
    draw.points.push(placed.point);
    draw.attachments.push(placed.attachment);
    if draw.tool == DrawTool::Rectangle && draw.points.len() == 2 {
        DrawStep::Finish
    } else {
        DrawStep::Continue
    }
}

/// The spline that a finished curve is built as, through its points.
#[derive(Debug)]
pub enum DrawnCurve {
    Polygon(Vec<Point2>),
    ClosedSpline(Vec<Point2>),
    Polyline(Vec<Point2>),
    OpenSpline(Vec<Point2>),
}

impl DrawnCurve {
    pub open spec fn points(self) -> Seq<Point2> {
        match self {
            DrawnCurve::Polygon(points) => points@,
            DrawnCurve::ClosedSpline(points) => points@,
            DrawnCurve::Polyline(points) => points@,
            DrawnCurve::OpenSpline(points) => points@,
        }
    }
}

/// The rectangle between two opposite corners.
pub open spec fn rectangle(a: Point2, b: Point2) -> Seq<Point2> {
    seq![
        Point2 { x: a.x, y: a.y },
        Point2 { x: b.x, y: a.y },
        Point2 { x: b.x, y: b.y },
        Point2 { x: a.x, y: b.y },
    ]
}

/// Whether a curve has the points that its tool asks for.
pub open spec fn complete(draw: DrawGesture) -> bool {
    let count = draw.points@.len();
    match draw.tool {
        DrawTool::Circle => false,
        DrawTool::Rectangle => count == 2,
        DrawTool::Polygon => count >= 3,
        DrawTool::ClosedSpline => count >= 4,
        DrawTool::Polyline => count >= 2,
        DrawTool::OpenSpline => count == 2 || count >= 4,
    }
}

pub open spec fn too_few_points() -> Seq<char> {
    "Add enough points to finish this curve"@
}

/// What a drawn curve becomes, or why it is not finished yet. An open spline
/// through two points is straight.
pub fn finish_draw(draw: &DrawGesture) -> (result: Result<DrawnCurve, String>)
    ensures
        result is Ok <==> complete(*draw),
        match result {
            Err(message) => message@ == too_few_points(),
            Ok(curve) => match draw.tool {
                DrawTool::Rectangle => curve is Polygon && curve.points() == rectangle(
                    draw.points@[0],
                    draw.points@[1],
                ),
                DrawTool::Polygon => curve is Polygon && curve.points() == draw.points@,
                DrawTool::ClosedSpline => curve is ClosedSpline && curve.points() == draw.points@,
                DrawTool::Polyline => curve is Polyline && curve.points() == draw.points@,
                DrawTool::OpenSpline => (if draw.points@.len() == 2 {
                    curve is Polyline
                } else {
                    curve is OpenSpline
                }) && curve.points() == draw.points@,
                DrawTool::Circle => false,
            },
        },
{
    let count: usize = draw.points.len();
    match draw.tool {
        DrawTool::Rectangle => {
            if count == 2 {
                let a: Point2 = draw.points[0];
                let b: Point2 = draw.points[1];
                let corners: Vec<Point2> = vec![
                    Point2 { x: a.x, y: a.y },
                    Point2 { x: b.x, y: a.y },
                    Point2 { x: b.x, y: b.y },
                    Point2 { x: a.x, y: b.y },
                ];
                return Ok(DrawnCurve::Polygon(corners));
            }
        },
        DrawTool::Polygon => {
            if count >= 3 {
                return Ok(DrawnCurve::Polygon(copied(&draw.points)));
            }
        },
        DrawTool::ClosedSpline => {
            if count >= 4 {
                return Ok(DrawnCurve::ClosedSpline(copied(&draw.points)));
            }
        },
        DrawTool::Polyline => {
            if count >= 2 {
                return Ok(DrawnCurve::Polyline(copied(&draw.points)));
            }
        },
        DrawTool::OpenSpline => {
            if count == 2 {
                return Ok(DrawnCurve::Polyline(copied(&draw.points)));
            }
            if count >= 4 {
                return Ok(DrawnCurve::OpenSpline(copied(&draw.points)));
            }
        },
        DrawTool::Circle => {},
    }
    Err("Add enough points to finish this curve".to_owned())
}

/// What a closed curve is made for; a subdomain takes the material at hand.
pub fn create_closed(purpose: ClosedPurpose, material: u64) -> (result: ClosedCurvePurpose)
    ensures
        result == match purpose {
            ClosedPurpose::Subdomain => ClosedCurvePurpose::Subdomain { material },
            ClosedPurpose::Hole => ClosedCurvePurpose::Hole,
        },
{
    match purpose {
        ClosedPurpose::Subdomain => ClosedCurvePurpose::Subdomain { material },
        ClosedPurpose::Hole => ClosedCurvePurpose::Hole,
    }
}

/// How an open curve is made: what for, and what its two ends attach to.
#[derive(Clone, Copy, Debug, PartialEq, Eq, Structural)]
pub struct OpenCurvePlan {
    pub purpose: OpenCurvePurpose,
    pub start: Option<TopologyAttachment>,
    pub end: Option<TopologyAttachment>,
}

pub fn create_open(purpose: OpenPurpose, material: Option<u64>, draw: &DrawGesture) -> (result:
    OpenCurvePlan)
    ensures
        result.purpose == match purpose {
            OpenPurpose::Separator => OpenCurvePurpose::SubdomainSeparator { material },
            OpenPurpose::Baffle => OpenCurvePurpose::BoundaryBaffle,
        },
        result.start == if draw.attachments@.len() > 0 {
            draw.attachments@.first()
        } else {
            None
        },
        result.end == if draw.attachments@.len() > 0 {
            draw.attachments@.last()
        } else {
            None
        },
{
    let made: OpenCurvePurpose = match purpose {
        OpenPurpose::Separator => OpenCurvePurpose::SubdomainSeparator { material },
        OpenPurpose::Baffle => OpenCurvePurpose::BoundaryBaffle,
    };
    let count: usize = draw.attachments.len();
    if count == 0 {
        return OpenCurvePlan { purpose: made, start: None, end: None };
    }
    OpenCurvePlan {
        purpose: made,
        start: draw.attachments[0],
        end: draw.attachments[count - 1],
    }
}

/// The spans of a curve, to be selected.
pub fn select_curve(curves: &Vec<TopologyCurve>, id: u64) -> (result: Option<TopologySelection>)
    ensures
        match first_value(curves@, |curve: TopologyCurve| curve.id == id) {
            None => result is None,
            Some(curve) => result matches Some(TopologySelection::Spans(spans)) && spans.wf()
                && spans@ == spans_of(curve).to_set(),
        },
{
    let named = |curve: &TopologyCurve| -> (passes: bool)
        ensures
            passes == (curve.id == id),
        { curve.id == id };
    let place: usize = match find(
        curves,
        named,
        Ghost(|curve: TopologyCurve| curve.id == id),
    ) {
        None => {
            return None;
        },
        Some(place) => place,
    };
    let curve: &TopologyCurve = &curves[place];
    let mut spans: SpanSet = OrderedSet::new();
    let mut index: usize = 0;
    assert(spans_of(*curve).take(0).to_set() =~= Set::<TopologySpanTarget>::empty());
    while index < curve.spans.len()
        invariant
            index <= curve.spans@.len(),
            spans.wf(),
            spans@ == spans_of(*curve).take(index as int).to_set(),
        decreases curve.spans@.len() - index,
    {
        let next = TopologySpanTarget::Curve(curve.spans[index].id);
        spans.insert(next);
        proof {
            let shorter = spans_of(*curve).take(index as int);
            let longer = spans_of(*curve).take(index + 1);
            assert(longer =~= shorter.push(next));
            assert(longer.to_set() =~= shorter.to_set().insert(next)) by {
                assert forall|x: TopologySpanTarget| longer.contains(x) == (shorter.contains(x)
                    || x == next) by {
                    if shorter.contains(x) {
                        let i = shorter.index_of(x);
                        assert(longer[i] == x);
                    }
                    assert(longer[index as int] == next);
                    if longer.contains(x) {
                        let i = longer.index_of(x);
                        if i < index {
                            assert(shorter[i] == x);
                        }
                    }
                }
            }
        }
        index = index + 1;
    }
    assert(spans_of(*curve).take(index as int) =~= spans_of(*curve));
    Some(TopologySelection::Spans(spans))
}

/// A face of the committed plan and the region on it.
#[derive(Clone, Copy, Debug, PartialEq, Eq, Structural)]
pub struct PlanDomain {
    pub face: u64,
    pub region: u64,
}

/// The region on a face of the committed plan.
pub open spec fn region_on(domains: Seq<PlanDomain>, face: Option<u64>) -> Option<u64> {
    match face {
        None => None,
        Some(face) => match first_value(domains, |domain: PlanDomain| domain.face == face) {
            Some(domain) => Some(domain.region),
            None => None,
        },
    }
}

/// The region owning the committed face under a point. `domains` are those of the
/// committed plan, where there is one.
pub fn region_at(domains: &Option<Vec<PlanDomain>>, face: Option<u64>) -> (result: Option<u64>)
    ensures
        result == (match *domains {
            None => None,
            Some(domains) => region_on(domains@, face),
        }),
{
    match (domains, face) {
        (Some(domains), Some(face)) => {
            let named = |domain: &PlanDomain| -> (passes: bool)
                ensures
                    passes == (domain.face == face),
                { domain.face == face };
            match find(domains, named, Ghost(|domain: PlanDomain| domain.face == face)) {
                Some(place) => Some(domains[place].region),
                None => None,
            }
        },
        _ => None,
    }
}

/// A pulse that waits for the solver.
#[derive(Clone, Copy, Debug, PartialEq, Eq, Structural)]
pub struct PendingPulse {
    pub point: Point2,
    pub region: u64,
}

impl Interaction {
    /// Places a pulse in the active region under a point, which is returned where
    /// there is one; `face` is the committed face there. Without a committed plan
    /// nothing happens and nothing is said.
    pub fn place_pulse(
        &mut self,
        domains: &Option<Vec<PlanDomain>>,
        face: Option<u64>,
        point: Point2,
    ) -> (result: Option<PendingPulse>)
        ensures
            *final(self) == (Interaction { message: final(self).message, ..*old(self) }),
            match *domains {
                None => result is None && *final(self) == *old(self),
                Some(domains) => match region_on(domains@, face) {
                    None => result is None && final(self).message@
                        == "Pulse must be inside an active subdomain"@,
                    Some(region) => {
                        &&& result == Some(PendingPulse { point, region })
                        &&& final(self).message@ == "Pulse queued in region "@ + decimal_digits(
                            region as nat,
                        )
                    },
                },
            },
    {
        if domains.is_none() {
            return None;
        }
        match region_at(domains, face) {
            None => {
                self.message = "Pulse must be inside an active subdomain".to_owned();
                None
            },
            Some(region) => {
                self.message = joined("Pulse queued in region ", decimal(region).as_str());
                Some(PendingPulse { point, region })
            },
        }
    }
}

} // verus!
