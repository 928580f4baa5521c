//! What is shown over the geometry: the material overlay and its range, the
//! lattice of field arrows, and which recorders belong to the running field.

use crate::alike::Alike;
use crate::model::{
    FaceBoundaryCondition, MaterialOverlay, OuterBoundaryCondition, PointSource,
    PresentationSettings, SpanBehavior, TimeSignal, TopologyCurve, TopologyScene, VolumeSource,
};
use crate::preparation::{Artifact, PreparedTopology, StepOperator, TopologyToken};
use crate::scalar::{Point2, Scalar};
use vstd::prelude::*;

verus! {

/// What an overlay was computed for.
#[derive(Debug)]
pub struct OverlayKey {
    pub mesh_revision: u64,
    pub scene: TopologyScene,
}

impl OverlayKey {
    pub open spec fn is_for(self, mesh_revision: u64, scene: TopologyScene) -> bool {
        self.mesh_revision == mesh_revision && self.scene.alike(scene)
    }

    pub fn matches_scene(&self, mesh_revision: u64, scene: &TopologyScene) -> (result: bool)
        ensures
            result == self.is_for(mesh_revision, *scene),
    {
        self.mesh_revision == mesh_revision && self.scene.same(scene)
    }
}

/// The material overlay: a job that computes one, the one that is shown, and
/// why there is none.
#[derive(Debug)]
pub struct OverlayState {
    pub job: Option<Artifact>,
    pub snapshot: Option<Artifact>,
    pub error: Option<String>,
}

/// What a frame knows of the overlay.
#[derive(Clone, Copy, Debug, PartialEq, Eq, Structural)]
pub struct OverlayFrame {
    pub overlay: MaterialOverlay,
    pub active: bool,
    /// Whether the shown overlay, and the job, are for the active mesh and
    /// scene.
    pub snapshot_current: bool,
    pub job_current: bool,
}

/// What a frame does for the overlay.
#[derive(Clone, Copy, Debug, PartialEq, Eq, Structural)]
pub enum OverlayStep {
    Done,
    Start,
    Advance,
}

impl OverlayState {
    pub open spec fn refreshed(self, frame: OverlayFrame) -> (OverlayStep, Self) {
        if frame.overlay !is Property {
            (OverlayStep::Done, OverlayState { job: None, ..self })
        } else if !frame.active {
            (OverlayStep::Done, self)
        } else if frame.snapshot_current {
            (OverlayStep::Done, OverlayState { job: None, ..self })
        } else if !frame.job_current {
            (OverlayStep::Start, self)
        } else {
            (OverlayStep::Advance, self)
        }
    }

    /// A job runs only while a property is shown and what is shown is not for
    /// the active mesh and scene.
    pub fn refresh_material_overlay(&mut self, frame: OverlayFrame) -> (result: OverlayStep)
        ensures
            (result, *final(self)) == old(self).refreshed(frame),
    {
        match frame.overlay {
            MaterialOverlay::Property(_) => {},
            _ => {
                self.job = None;
                return OverlayStep::Done;
            },
        }
        if !frame.active {
            return OverlayStep::Done;
        }
        if frame.snapshot_current {
            self.job = None;
            return OverlayStep::Done;
        }
        if !frame.job_current {
            OverlayStep::Start
        } else {
            OverlayStep::Advance
        }
    }

    /// Takes a new job, or why there is none. Whether it is advanced at once.
    pub fn job_started(&mut self, started: Result<Artifact, String>) -> (result: bool)
        ensures
            result == (started is Ok),
            *final(self) == match started {
                Ok(job) => OverlayState { job: Some(job), error: None, ..*old(self) },
                Err(error) => OverlayState { job: None, error: Some(error), ..*old(self) },
            },
    {
        match started {
            Ok(job) => {
                self.job = Some(job);
                self.error = None;
                true
            },
            Err(error) => {
                self.job = None;
                self.error = Some(error);
                false
            },
        }
    }

    /// Takes a slice of the job: the overlay where it finished, shown only if it
    /// is for the active mesh and scene.
    pub fn job_advanced(&mut self, finished: Option<Artifact>, current: bool)
        ensures
            *final(self) == match finished {
                None => *old(self),
                Some(snapshot) => if current {
                    OverlayState { job: None, snapshot: Some(snapshot), error: None }
                } else {
                    OverlayState { job: None, ..*old(self) }
                },
            },
    {
        if let Some(snapshot) = finished {
            if current {
                self.snapshot = Some(snapshot);
                self.error = None;
            }
            self.job = None;
        }
    }
}

#[derive(Clone, Copy, Debug, PartialEq, Eq, Structural)]
pub struct OverlayRange {
    pub minimum: Scalar,
    pub maximum: Scalar,
}

/// The range of an overlay: the measured one, or the one set by hand where it is
/// a range.
pub fn material_overlay_range(settings: &PresentationSettings, measured: Option<OverlayRange>) -> (result:
    Option<OverlayRange>)
    ensures
        result == if settings.material_overlay_auto_range {
            measured
        } else if settings.material_overlay_manual_min.finite()
            && settings.material_overlay_manual_max.finite()
            && settings.material_overlay_manual_min.lt_num(settings.material_overlay_manual_max) {
            Some(
                OverlayRange {
                    minimum: settings.material_overlay_manual_min,
                    maximum: settings.material_overlay_manual_max,
                },
            )
        } else {
            None
        },
{
    if settings.material_overlay_auto_range {
        return measured;
    }
    let minimum: Scalar = settings.material_overlay_manual_min;
    let maximum: Scalar = settings.material_overlay_manual_max;
    if minimum.is_finite() && maximum.is_finite() && minimum.less(maximum) {
        Some(OverlayRange { minimum, maximum })
    } else {
        None
    }
}

/// Whether a revision of the arrow samples is the one that the recorder holds.
pub fn vector_overlay_revision_owned(
    generation: u64,
    revision: u64,
    recorder_generation: u64,
    recorder_revision: u64,
    has_buffers: bool,
) -> (result: bool)
    ensures
        result == (generation == recorder_generation && revision == recorder_revision
            && has_buffers),
{
    generation == recorder_generation && revision == recorder_revision && has_buffers
}

/// A layout of arrows: the generation and revision it was sampled for, and how
/// many arrows it has.
#[derive(Clone, Copy, Debug, PartialEq, Eq, Structural)]
pub struct VectorOverlayLayout {
    pub generation: u64,
    pub revision: u64,
    pub points: usize,
}

impl VectorOverlayLayout {
    /// Whether a readback belongs to this layout.
    pub fn matches(&self, generation: u64, revision: u64, samples: usize) -> (result: bool)
        ensures
            result == (self.generation == generation && self.revision == revision && self.points
                == samples),
    {
        self.generation == generation && self.revision == revision && self.points == samples
    }
}

/// What the probe buffers were last built for.
#[derive(Clone, Copy, Debug, PartialEq, Eq, Structural)]
pub struct ProbeUpload {
    pub token: TopologyToken,
    pub generation: u64,
}

/// The probes are built again for another topology and for another generation:
/// every path that replaces the wave buffers drops the probes with them.
pub fn probes_need_upload(upload: Option<ProbeUpload>, token: TopologyToken, generation: u64) -> (result:
    bool)
    ensures
        result == match upload {
            None => true,
            Some(upload) => upload.token != token || upload.generation != generation,
        },
{
    match upload {
        None => true,
        Some(upload) => upload.token != token || upload.generation != generation,
    }
}

/// A driven generation pairs with a plan that carries law tables, an inert one
/// with a plan that does not, and anything else is a handoff in between.
pub fn recorder_pairing<T, M>(temporal: Option<T>, installed: Option<M>) -> (result: Option<
    Option<(T, M)>,
>)
    ensures
        result == match (temporal, installed) {
            (Some(operator), Some(manifest)) => Some(Some((operator, manifest))),
            (None, None) => Some(None),
            _ => None,
        },
{
    match (temporal, installed) {
        (Some(operator), Some(manifest)) => Some(Some((operator, manifest))),
        (None, None) => Some(None),
        _ => None,
    }
}

/// What every recorder over a generation is built from. A driven plan rejects a
/// stencil that does not address its law tables.
#[derive(Clone, Copy, Debug, PartialEq, Eq, Structural)]
pub enum RecorderSource {
    Fixed(StepOperator),
    /// The temporal operator and the law tables of the installed plan.
    Temporal(StepOperator, Artifact),
}

impl RecorderSource {
    /// The source of a generation next to the law tables of the installed plan,
    /// where it has them. There is none while the two disagree about whether the
    /// medium is driven, which a handoff can leave for a frame.
    pub fn of(active: &PreparedTopology, installed: Option<Artifact>) -> (result: Option<Self>)
        ensures
            result == (match (active.canonical_temporal_operator, installed) {
                (Some(operator), Some(tables)) => Some(RecorderSource::Temporal(operator, tables)),
                (None, None) => Some(RecorderSource::Fixed(active.canonical_operator)),
                _ => None,
            }),
    {
        match recorder_pairing(active.canonical_temporal_operator, installed) {
            None => None,
            Some(Some((operator, tables))) => Some(RecorderSource::Temporal(operator, tables)),
            Some(None) => Some(RecorderSource::Fixed(active.canonical_operator)),
        }
    }
}

/// What the readbacks of a field-dependent generation are read through.
#[derive(Clone, Copy, Debug, PartialEq, Eq, Structural)]
pub struct FieldLawView {
    pub operator: StepOperator,
    /// The runtime the solver stepped with.
    pub runtime: Artifact,
    pub time: Scalar,
}

/// The maps of a generation whose laws depend on the field: its operator, the
/// runtime the solver stepped with, which is the authored one until a snapshot
/// and a clock agree, and the time of the readback. There are none where the maps
/// are linear.
pub fn field_law_view(
    active: &PreparedTopology,
    has_field_laws: bool,
    authored: Artifact,
    accepted: Option<Artifact>,
    clock: Option<Scalar>,
) -> (result: Option<FieldLawView>)
    ensures
        result == (match active.canonical_temporal_operator {
            Some(operator) if has_field_laws => Some(
                FieldLawView {
                    operator,
                    runtime: match accepted {
                        Some(runtime) => runtime,
                        None => authored,
                    },
                    time: match clock {
                        Some(time) => time,
                        None => Scalar::zero_num(),
                    },
                },
            ),
            _ => None,
        }),
{
    match active.canonical_temporal_operator {
        Some(operator) if has_field_laws => Some(
            FieldLawView {
                operator,
                runtime: match accepted {
                    Some(runtime) => runtime,
                    None => authored,
                },
                time: match clock {
                    Some(time) => time,
                    None => Scalar::zero(),
                },
            },
        ),
        _ => None,
    }
}

/// Whether the next preparation starts the field at zero instead of carrying the
/// running one into it. The reset flag is spent earlier in the frame, so a
/// document load raises a flag of its own.
pub fn starts_from_zero(active: bool, reset_requested: bool, fresh_requested: bool) -> (result: bool)
    ensures
        result == (!active || reset_requested || fresh_requested),
{
    !active || reset_requested || fresh_requested
}

/// A cell of the lattice of arrows.
#[derive(Clone, Copy, Debug, PartialEq, Eq, Structural)]
pub struct CellKey {
    pub x: i64,
    pub y: i64,
}

impl CellKey {
    /// Cells are walked column by column, upwards.
    pub open spec fn before(self, other: CellKey) -> bool {
        self.x < other.x || (self.x == other.x && self.y < other.y)
    }

    fn is_before(self, other: CellKey) -> (result: bool)
        ensures
            result == self.before(other),
    {
        self.x < other.x || (self.x == other.x && self.y < other.y)
    }
}

/// The cells in view, both bounds included.
#[derive(Clone, Copy, Debug, PartialEq, Eq, Structural)]
pub struct VisibleBins {
    pub min_x: i64,
    pub max_x: i64,
    pub min_y: i64,
    pub max_y: i64,
}

impl VisibleBins {
    pub open spec fn shows(self, key: CellKey) -> bool {
        &&& self.min_x <= key.x <= self.max_x
        &&& self.min_y <= key.y <= self.max_y
    }
}

/// One further down, where there is one.
pub open spec fn one_less(bin: i64) -> i64 {
    if bin > i64::MIN {
        (bin - 1) as i64
    } else {
        i64::MIN
    }
}

/// One further up, where there is one.
pub open spec fn one_more(bin: i64) -> i64 {
    if bin < i64::MAX {
        (bin + 1) as i64
    } else {
        i64::MAX
    }
}

pub open spec fn widened(bins: VisibleBins) -> VisibleBins {
    VisibleBins {
        min_x: one_less(bins.min_x),
        max_x: one_more(bins.max_x),
        min_y: one_less(bins.min_y),
        max_y: one_more(bins.max_y),
    }
}

/// One cell further out on every side, so that panning inside the outermost
/// cells needs no new samples.
pub fn with_apron(bins: VisibleBins) -> (result: VisibleBins)
    ensures
        result == widened(bins),
{
    VisibleBins {
        min_x: if bins.min_x > i64::MIN {
            bins.min_x - 1
        } else {
            i64::MIN
        },
        max_x: if bins.max_x < i64::MAX {
            bins.max_x + 1
        } else {
            i64::MAX
        },
        min_y: if bins.min_y > i64::MIN {
            bins.min_y - 1
        } else {
            i64::MIN
        },
        max_y: if bins.max_y < i64::MAX {
            bins.max_y + 1
        } else {
            i64::MAX
        },
    }
}

/// What is in view stays in view with the apron round it.
pub proof fn an_apron_hides_nothing(bins: VisibleBins, key: CellKey)
    requires
        bins.shows(key),
    ensures
        widened(bins).shows(key),
{
}

/// An element of the mesh as a place for an arrow: the cell of its centroid and
/// how far that is from the middle of the cell.
#[derive(Clone, Copy, Debug, PartialEq, Eq, Structural)]
pub struct ArrowCandidate {
    pub key: CellKey,
    pub element: usize,
    pub centroid: Point2,
    pub distance: Scalar,
}

/// The element that stands for a cell: the nearest to its middle, the first of
/// equals.
pub open spec fn arrow_of(candidates: Seq<ArrowCandidate>, key: CellKey) -> Option<ArrowCandidate>
    decreases candidates.len(),
{
    if candidates.len() == 0 {
        None
    } else {
        let earlier = arrow_of(candidates.drop_last(), key);
        let next = candidates.last();
        if next.key == key && (earlier matches Some(held) ==> next.distance.lt_num(
            held.distance,
        )) {
            Some(next)
        } else {
            earlier
        }
    }
}

/// Arrows in the order of their cells, at most one to a cell.
pub open spec fn in_cell_order(arrows: Seq<ArrowCandidate>) -> bool {
    forall|i: int, j: int|
        0 <= i < j < arrows.len() ==> (#[trigger] arrows[i]).key.before((#[trigger] arrows[j]).key)
}

/// The arrows of the visible cells.
pub open spec fn lays_out(
    arrows: Seq<ArrowCandidate>,
    candidates: Seq<ArrowCandidate>,
    bins: VisibleBins,
) -> bool {
    &&& in_cell_order(arrows)
    &&& forall|i: int|
        0 <= i < arrows.len() ==> bins.shows((#[trigger] arrows[i]).key) && arrow_of(
            candidates,
            arrows[i].key,
        ) == Some(arrows[i])
    &&& forall|key: CellKey| #[trigger]
        bins.shows(key) && arrow_of(candidates, key) is Some ==> exists|i: int|
            0 <= i < arrows.len() && (#[trigger] arrows[i]).key == key
}

proof fn arrow_is_of_its_cell(candidates: Seq<ArrowCandidate>, key: CellKey)
    ensures
        arrow_of(candidates, key) matches Some(arrow) ==> arrow.key == key,
    decreases candidates.len(),
{
    if candidates.len() > 0 {
        arrow_is_of_its_cell(candidates.drop_last(), key);
    }
}

/// The place of the first arrow whose cell does not come before a key.
fn cell_place(arrows: &Vec<ArrowCandidate>, key: CellKey) -> (result: usize)
    requires
        in_cell_order(arrows@),
    ensures
        result <= arrows@.len(),
        forall|i: int| 0 <= i < result ==> (#[trigger] arrows@[i]).key.before(key),
        forall|i: int| result <= i < arrows@.len() ==> !(#[trigger] arrows@[i]).key.before(key),
{
    let mut low: usize = 0;
    let mut high: usize = arrows.len();
    while low < high
        invariant
            low <= high <= arrows@.len(),
            in_cell_order(arrows@),
            forall|i: int| 0 <= i < low ==> (#[trigger] arrows@[i]).key.before(key),
            forall|i: int| high <= i < arrows@.len() ==> !(#[trigger] arrows@[i]).key.before(key),
        decreases high - low,
    {
        let middle: usize = low + (high - low) / 2;
        let ghost seen = arrows@[middle as int];
        if arrows[middle].key.is_before(key) {
            low = middle + 1;
        } else {
            high = middle;
        }
    }
    low
}

/// Lays the arrows out: in each visible cell the element nearest to its middle.
pub fn lay_out_arrows(candidates: &Vec<ArrowCandidate>, bins: VisibleBins) -> (result: Vec<
    ArrowCandidate,
>)
    ensures
        lays_out(result@, candidates@, bins),
{
    let mut arrows: Vec<ArrowCandidate> = Vec::new();
    let mut index: usize = 0;
    while index < candidates.len()
        invariant
            index <= candidates@.len(),
            lays_out(arrows@, candidates@.take(index as int), bins),
        decreases candidates@.len() - index,
    {
        let next: ArrowCandidate = candidates[index];
        let ghost before = arrows@;
        let ghost shorter = candidates@.take(index as int);
        let ghost longer = candidates@.take(index + 1);
        assert(longer.drop_last() =~= shorter);
        let key: CellKey = next.key;
        if key.x < bins.min_x || key.x > bins.max_x || key.y < bins.min_y || key.y > bins.max_y {
            assert(lays_out(arrows@, longer, bins)) by {
                assert forall|other: CellKey| bins.shows(other) implies arrow_of(longer, other)
                    == arrow_of(shorter, other) by {}
                assert forall|other: CellKey| #[trigger]
                    bins.shows(other) && arrow_of(longer, other) is Some implies exists|i: int|
                    0 <= i < arrows@.len() && (#[trigger] arrows@[i]).key == other by {
                    assert(arrow_of(shorter, other) is Some);
                }
            }
        } else {
            let place: usize = cell_place(&arrows, key);
            let held: bool = place < arrows.len() && arrows[place].key == key;
            if !held {
                arrows.insert(place, next);
                proof {
                    a_new_cell_is_laid_out(before, arrows@, shorter, longer, bins, next, place as int);
                }
            } else if next.distance.less(arrows[place].distance) {
                arrows.set(place, next);
                proof {
                    a_nearer_arrow_is_laid_out(
                        before,
                        arrows@,
                        shorter,
                        longer,
                        bins,
                        next,
                        place as int,
                    );
                }
            } else {
                proof {
                    a_farther_arrow_changes_nothing(
                        before,
                        shorter,
                        longer,
                        bins,
                        next,
                        place as int,
                    );
                }
            }
        }
        index = index + 1;
    }
    assert(candidates@.take(index as int) =~= candidates@);
    arrows
}

proof fn a_new_cell_is_laid_out(
    before: Seq<ArrowCandidate>,
    after: Seq<ArrowCandidate>,
    shorter: Seq<ArrowCandidate>,
    longer: Seq<ArrowCandidate>,
    bins: VisibleBins,
    next: ArrowCandidate,
    place: int,
)
    requires
        lays_out(before, shorter, bins),
        longer.len() > 0,
        longer.drop_last() == shorter,
        longer.last() == next,
        bins.shows(next.key),
        0 <= place <= before.len(),
        after == before.insert(place, next),
        forall|i: int| 0 <= i < place ==> (#[trigger] before[i]).key.before(next.key),
        forall|i: int| place <= i < before.len() ==> !(#[trigger] before[i]).key.before(next.key),
        place < before.len() ==> before[place].key != next.key,
    ensures
        lays_out(after, longer, bins),
{
    let key = next.key;
    assert forall|i: int| 0 <= i < before.len() implies (#[trigger] before[i]).key != key by {
        if i > place {
            assert(before[place].key.before(before[i].key));
        }
    }
    assert(arrow_of(shorter, key) is None) by {
        if arrow_of(shorter, key) is Some {
            let i = choose|i: int| 0 <= i < before.len() && (#[trigger] before[i]).key == key;
            assert(before[i].key != key);
        }
    }
    assert(arrow_of(longer, key) == Some(next));
    assert forall|i: int, j: int| 0 <= i < j < after.len() implies (
    #[trigger] after[i]).key.before((#[trigger] after[j]).key) by {
        let old_i = if i < place {
            i
        } else {
            i - 1
        };
        let old_j = if j < place {
            j
        } else {
            j - 1
        };
        if i == place {
            assert(after[j] == before[j - 1]);
            assert(!before[j - 1].key.before(key));
            assert(before[j - 1].key != key);
        } else if j == place {
            assert(after[i] == before[i]);
        } else {
            assert(after[i] == before[old_i]);
            assert(after[j] == before[old_j]);
        }
    }
    assert forall|i: int| 0 <= i < after.len() implies bins.shows((#[trigger] after[i]).key)
        && arrow_of(longer, after[i].key) == Some(after[i]) by {
        if i != place {
            let old_i = if i < place {
                i
            } else {
                i - 1
            };
            assert(after[i] == before[old_i]);
            assert(before[old_i].key != key);
        }
    }
    assert forall|other: CellKey| #[trigger]
        bins.shows(other) && arrow_of(longer, other) is Some implies exists|i: int|
        0 <= i < after.len() && (#[trigger] after[i]).key == other by {
        if other == key {
            assert(after[place].key == other);
        } else {
            assert(arrow_of(shorter, other) is Some);
            let i = choose|i: int| 0 <= i < before.len() && (#[trigger] before[i]).key == other;
            if i < place {
                assert(after[i].key == other);
            } else {
                assert(after[i + 1].key == other);
            }
        }
    }
}

proof fn a_nearer_arrow_is_laid_out(
    before: Seq<ArrowCandidate>,
    after: Seq<ArrowCandidate>,
    shorter: Seq<ArrowCandidate>,
    longer: Seq<ArrowCandidate>,
    bins: VisibleBins,
    next: ArrowCandidate,
    place: int,
)
    requires
        lays_out(before, shorter, bins),
        longer.len() > 0,
        longer.drop_last() == shorter,
        longer.last() == next,
        0 <= place < before.len(),
        before[place].key == next.key,
        next.distance.lt_num(before[place].distance),
        after == before.update(place, next),
    ensures
        lays_out(after, longer, bins),
{
    let key = next.key;
    assert(arrow_of(shorter, key) == Some(before[place]));
    assert(arrow_of(longer, key) == Some(next));
    assert forall|i: int, j: int| 0 <= i < j < after.len() implies (
    #[trigger] after[i]).key.before((#[trigger] after[j]).key) by {
        assert(after[i].key == before[i].key);
        assert(after[j].key == before[j].key);
    }
    assert forall|i: int| 0 <= i < after.len() implies bins.shows((#[trigger] after[i]).key)
        && arrow_of(longer, after[i].key) == Some(after[i]) by {
        assert(bins.shows(before[i].key));
        if i != place {
            if i < place {
                assert(before[i].key.before(before[place].key));
            } else {
                assert(before[place].key.before(before[i].key));
            }
        }
    }
    assert forall|other: CellKey| #[trigger]
        bins.shows(other) && arrow_of(longer, other) is Some implies exists|i: int|
        0 <= i < after.len() && (#[trigger] after[i]).key == other by {
        assert(arrow_of(shorter, other) is Some);
        let i = choose|i: int| 0 <= i < before.len() && (#[trigger] before[i]).key == other;
        assert(after[i].key == other);
    }
}

proof fn a_farther_arrow_changes_nothing(
    arrows: Seq<ArrowCandidate>,
    shorter: Seq<ArrowCandidate>,
    longer: Seq<ArrowCandidate>,
    bins: VisibleBins,
    next: ArrowCandidate,
    place: int,
)
    requires
        lays_out(arrows, shorter, bins),
        longer.len() > 0,
        longer.drop_last() == shorter,
        longer.last() == next,
        0 <= place < arrows.len(),
        arrows[place].key == next.key,
        !next.distance.lt_num(arrows[place].distance),
    ensures
        lays_out(arrows, longer, bins),
{
    assert(arrow_of(shorter, next.key) == Some(arrows[place]));
    assert forall|key: CellKey| arrow_of(longer, key) == arrow_of(shorter, key) by {}
    assert forall|i: int| 0 <= i < arrows.len() implies bins.shows((#[trigger] arrows[i]).key)
        && arrow_of(longer, arrows[i].key) == Some(arrows[i]) by {}
    assert forall|other: CellKey| #[trigger]
        bins.shows(other) && arrow_of(longer, other) is Some implies exists|i: int|
        0 <= i < arrows.len() && (#[trigger] arrows[i]).key == other by {
        assert(arrow_of(shorter, other) is Some);
    }
}

/// Whether a lattice can be laid over the mesh at all.
pub open spec fn layout_possible(triangles: usize, element_nodes: usize, world_spacing: Scalar) -> bool {
    &&& triangles == element_nodes
    &&& world_spacing.finite()
    &&& Scalar::zero_num().lt_num(world_spacing)
}

/// The arrows whose element has a material.
pub open spec fn with_material(arrows: Seq<ArrowCandidate>, material: Seq<bool>) -> Seq<
    ArrowCandidate,
> {
    arrows.filter(|arrow: ArrowCandidate| material[arrow.element as int])
}

/// The arrows over a mesh; none where the operator is not that of the mesh, or
/// where the spacing is not one. `material` says for each element whether the
/// model has a material at its centroid.
pub fn vector_overlay_layout(
    material: &Vec<bool>,
    element_nodes: usize,
    world_spacing: Scalar,
    candidates: &Vec<ArrowCandidate>,
    bins: VisibleBins,
) -> (result: Vec<ArrowCandidate>)
    requires
        forall|i: int|
            0 <= i < candidates@.len() ==> (#[trigger] candidates@[i]).element < material@.len(),
    ensures
        if layout_possible(material@.len() as usize, element_nodes, world_spacing) {
            exists|laid: Seq<ArrowCandidate>| #[trigger]
                lays_out(laid, candidates@, bins) && result@ == with_material(laid, material@)
        } else {
            result@.len() == 0
        },
{
    if material.len() != element_nodes || !world_spacing.is_finite() || !Scalar::zero().less(
        world_spacing,
    ) {
        return Vec::new();
    }
    let laid: Vec<ArrowCandidate> = lay_out_arrows(candidates, bins);
    let mut kept: Vec<ArrowCandidate> = Vec::new();
    let ghost has_material = |arrow: ArrowCandidate| material@[arrow.element as int];
    proof {
        reveal(Seq::filter);
        assert(laid@.take(0).filter(has_material) =~= Seq::empty());
    }
    let mut index: usize = 0;
    while index < laid.len()
        invariant
            index <= laid@.len(),
            lays_out(laid@, candidates@, bins),
            forall|i: int|
                0 <= i < candidates@.len() ==> (#[trigger] candidates@[i]).element
                    < material@.len(),
            has_material == (|arrow: ArrowCandidate| material@[arrow.element as int]),
            kept@ == laid@.take(index as int).filter(has_material),
        decreases laid@.len() - index,
    {
        let arrow: ArrowCandidate = laid[index];
        proof {
            arrows_are_candidates(candidates@, arrow.key);
            assert(candidates@.contains(arrow));
            let longer = laid@.take(index + 1);
            reveal(Seq::filter);
            assert(longer.drop_last() =~= laid@.take(index as int));
            assert(longer.last() == arrow);
        }
        if material[arrow.element] {
            kept.push(arrow);
        }
        index = index + 1;
    }
    assert(laid@.take(index as int) =~= laid@);
    assert(lays_out(laid@, candidates@, bins) && kept@ == with_material(laid@, material@));
    kept
}

proof fn arrows_are_candidates(candidates: Seq<ArrowCandidate>, key: CellKey)
    ensures
        arrow_of(candidates, key) matches Some(arrow) ==> candidates.contains(arrow),
    decreases candidates.len(),
{
    if candidates.len() > 0 {
        arrows_are_candidates(candidates.drop_last(), key);
        if let Some(arrow) = arrow_of(candidates, key) {
            if arrow_of(candidates.drop_last(), key) == Some(arrow) {
                let i = candidates.drop_last().index_of(arrow);
                assert(candidates[i] == arrow);
            } else {
                assert(candidates[candidates.len() - 1] == arrow);
            }
        }
    }
}

/// Whether a view can carry a lattice: a positive scale and spacing, a centre
/// and an area.
pub open spec fn carries_lattice(
    scale: Scalar,
    pixel_spacing: Scalar,
    center: Point2,
    has_area: bool,
) -> bool {
    &&& scale.finite()
    &&& Scalar::zero_num().lt_num(scale)
    &&& pixel_spacing.finite()
    &&& Scalar::zero_num().lt_num(pixel_spacing)
    &&& center.finite_point()
    &&& has_area
}

/// A lattice over the view: its spacing in the world, and its cells in view.
#[derive(Clone, Copy, Debug, PartialEq, Eq, Structural)]
pub struct VectorLattice {
    pub spacing: Scalar,
    pub bins: VisibleBins,
}

/// Lays a lattice over the view: the first of the `spacings` that reaches the
/// `wanted` one, with an apron of one cell round what is in view. `bins_at` finds
/// the cells in view at a spacing.
pub fn vector_overlay_lattice<F: Fn(Scalar) -> VisibleBins>(
    scale: Scalar,
    pixel_spacing: Scalar,
    center: Point2,
    has_area: bool,
    wanted: Scalar,
    spacings: &Vec<Scalar>,
    bins_at: F,
) -> (result: Option<VectorLattice>)
    requires
        forall|spacing: Scalar| call_requires(bins_at, (spacing,)),
    ensures
        match result {
            None => carries_lattice(scale, pixel_spacing, center, has_area) ==> forall|i: int|
                0 <= i < spacings@.len() ==> !wanted.le_num(#[trigger] spacings@[i]),
            Some(lattice) => {
                &&& carries_lattice(scale, pixel_spacing, center, has_area)
                &&& wanted.le_num(lattice.spacing)
                &&& exists|place: int|
                    0 <= place < spacings@.len() && #[trigger] spacings@[place] == lattice.spacing
                        && forall|i: int| 0 <= i < place ==> !wanted.le_num(#[trigger] spacings@[i])
                &&& exists|bins: VisibleBins| #[trigger]
                    call_ensures(bins_at, (lattice.spacing,), bins) && lattice.bins == widened(
                        bins,
                    )
            },
        },
{
    let possible: bool = scale.is_finite() && Scalar::zero().less(scale)
        && pixel_spacing.is_finite() && Scalar::zero().less(pixel_spacing) && center.finite()
        && has_area;
    if !possible {
        return None;
    }
    match first_reaching(spacings, wanted) {
        None => None,
        Some(place) => {
            let spacing: Scalar = spacings[place];
            let bins: VisibleBins = bins_at(spacing);
            Some(VectorLattice { spacing, bins: with_apron(bins) })
        },
    }
}

/// Every visible cell with an element in it has one arrow.
pub proof fn every_occupied_cell_has_an_arrow(
    arrows: Seq<ArrowCandidate>,
    candidates: Seq<ArrowCandidate>,
    bins: VisibleBins,
    place: int,
)
    requires
        lays_out(arrows, candidates, bins),
        0 <= place < candidates.len(),
        bins.shows(candidates[place].key),
    ensures
        exists|i: int| 0 <= i < arrows.len() && (#[trigger] arrows[i]).key == candidates[place].key,
{
    occupied_cells_have_arrows(candidates, place);
}

proof fn occupied_cells_have_arrows(candidates: Seq<ArrowCandidate>, place: int)
    requires
        0 <= place < candidates.len(),
    ensures
        arrow_of(candidates, candidates[place].key) is Some,
    decreases candidates.len(),
{
    if place < candidates.len() - 1 {
        occupied_cells_have_arrows(candidates.drop_last(), place);
    }
}

/// The first of some spacings that reaches a length.
pub fn first_reaching(spacings: &Vec<Scalar>, length: Scalar) -> (result: Option<usize>)
    ensures
        match result {
            Some(place) => {
                &&& place < spacings@.len()
                &&& length.le_num(spacings@[place as int])
                &&& forall|i: int| 0 <= i < place ==> !length.le_num(#[trigger] spacings@[i])
            },
            None => forall|i: int|
                0 <= i < spacings@.len() ==> !length.le_num(#[trigger] spacings@[i]),
        },
{
    let mut index: usize = 0;
    while index < spacings.len()
        invariant
            index <= spacings@.len(),
            forall|i: int| 0 <= i < index ==> !length.le_num(#[trigger] spacings@[i]),
        decreases spacings@.len() - index,
    {
        if length.at_most(spacings[index]) {
            return Some(index);
        }
        index = index + 1;
    }
    None
}

/// The signals that force the field, in the order in which a scene lists them:
/// the sides, the faces of the spans, the enabled volume sources.
pub open spec fn forcing_of(scene: TopologyScene) -> Seq<TimeSignal> {
    let sides = scene.outer_boundaries;
    outer_signal(sides.bottom) + outer_signal(sides.right) + outer_signal(sides.top)
        + outer_signal(sides.left) + curve_signals(scene.geometry.curves@) + source_signals(
        scene.volume_sources@,
    )
}

pub open spec fn outer_signal(condition: OuterBoundaryCondition) -> Seq<TimeSignal> {
    match condition {
        OuterBoundaryCondition::Neumann { signal } => seq![signal],
        OuterBoundaryCondition::Dirichlet { signal } => seq![signal],
        _ => Seq::empty(),
    }
}

pub open spec fn face_signal(condition: FaceBoundaryCondition) -> Seq<TimeSignal> {
    match condition {
        FaceBoundaryCondition::Neumann { signal } => seq![signal],
        FaceBoundaryCondition::Dirichlet { signal } => seq![signal],
        _ => Seq::empty(),
    }
}

pub open spec fn behavior_signals(behavior: SpanBehavior) -> Seq<TimeSignal> {
    match behavior {
        SpanBehavior::Transmitting => Seq::empty(),
        SpanBehavior::Separated { left, right, .. } => face_signal(left) + face_signal(right),
    }
}

/// The signals of the first spans of a curve, as many as `count`.
pub open spec fn span_signals(curve: TopologyCurve, count: nat) -> Seq<TimeSignal>
    decreases count,
{
    if count == 0 {
        Seq::empty()
    } else {
        span_signals(curve, (count - 1) as nat) + behavior_signals(
            curve.spans@[count - 1].behavior,
        )
    }
}

pub open spec fn curve_signals(curves: Seq<TopologyCurve>) -> Seq<TimeSignal>
    decreases curves.len(),
{
    if curves.len() == 0 {
        Seq::empty()
    } else {
        curve_signals(curves.drop_last()) + span_signals(
            curves.last(),
            curves.last().spans@.len(),
        )
    }
}

pub open spec fn source_signals(sources: Seq<VolumeSource>) -> Seq<TimeSignal>
    decreases sources.len(),
{
    if sources.len() == 0 {
        Seq::empty()
    } else {
        source_signals(sources.drop_last()) + if sources.last().enabled {
            seq![sources.last().signal]
        } else {
            Seq::empty()
        }
    }
}

fn add_outer(signals: &mut Vec<TimeSignal>, condition: OuterBoundaryCondition)
    ensures
        final(signals)@ == old(signals)@ + outer_signal(condition),
{
    match condition {
        OuterBoundaryCondition::Neumann { signal } => signals.push(signal),
        OuterBoundaryCondition::Dirichlet { signal } => signals.push(signal),
        _ => {},
    }
    assert(signals@ =~= old(signals)@ + outer_signal(condition));
}

fn add_face(signals: &mut Vec<TimeSignal>, condition: FaceBoundaryCondition)
    ensures
        final(signals)@ == old(signals)@ + face_signal(condition),
{
    match condition {
        FaceBoundaryCondition::Neumann { signal } => signals.push(signal),
        FaceBoundaryCondition::Dirichlet { signal } => signals.push(signal),
        _ => {},
    }
    assert(signals@ =~= old(signals)@ + face_signal(condition));
}

fn add_curve(signals: &mut Vec<TimeSignal>, curve: &TopologyCurve)
    ensures
        final(signals)@ == old(signals)@ + span_signals(*curve, curve.spans@.len()),
{
    let mut index: usize = 0;
    while index < curve.spans.len()
        invariant
            index <= curve.spans@.len(),
            signals@ =~= old(signals)@ + span_signals(*curve, index as nat),
        decreases curve.spans@.len() - index,
    {
        let ghost before = signals@;
        if let SpanBehavior::Separated { left, right, .. } = curve.spans[index].behavior {
            add_face(signals, left);
            add_face(signals, right);
            assert(signals@ =~= before + (face_signal(left) + face_signal(right)));
        }
        index = index + 1;
    }
}

/// Lists the signals that force the field.
pub fn forcing_signals(scene: &TopologyScene) -> (result: Vec<TimeSignal>)
    ensures
        result@ == forcing_of(*scene),
{
    let mut signals: Vec<TimeSignal> = Vec::new();
    add_outer(&mut signals, scene.outer_boundaries.bottom);
    add_outer(&mut signals, scene.outer_boundaries.right);
    add_outer(&mut signals, scene.outer_boundaries.top);
    add_outer(&mut signals, scene.outer_boundaries.left);
    let ghost sides = signals@;
    let curves: &Vec<TopologyCurve> = &scene.geometry.curves;
    let mut index: usize = 0;
    while index < curves.len()
        invariant
            index <= curves@.len(),
            signals@ =~= sides + curve_signals(curves@.take(index as int)),
        decreases curves@.len() - index,
    {
        assert(curves@.take(index + 1).drop_last() =~= curves@.take(index as int));
        add_curve(&mut signals, &curves[index]);
        index = index + 1;
    }
    assert(curves@.take(index as int) =~= curves@);
    let ghost boundaries = signals@;
    let sources: &Vec<VolumeSource> = &scene.volume_sources;
    let mut next: usize = 0;
    while next < sources.len()
        invariant
            next <= sources@.len(),
            signals@ =~= boundaries + source_signals(sources@.take(next as int)),
        decreases sources@.len() - next,
    {
        assert(sources@.take(next + 1).drop_last() =~= sources@.take(next as int));
        if sources[next].enabled {
            signals.push(sources[next].signal);
        }
        next = next + 1;
    }
    assert(sources@.take(next as int) =~= sources@);
    proof {
        let outer = scene.outer_boundaries;
        assert(sides =~= outer_signal(outer.bottom) + outer_signal(outer.right) + outer_signal(
            outer.top,
        ) + outer_signal(outer.left));
    }
    signals
}

/// The highest of some frequencies, no less than a first one.
pub open spec fn highest(first: Scalar, ceilings: Seq<Scalar>) -> Scalar
    decreases ceilings.len(),
{
    if ceilings.len() == 0 {
        first
    } else {
        highest(first, ceilings.drop_last()).larger_num(ceilings.last())
    }
}

/// What the mesh must resolve: the highest frequency of the point source, if it
/// is on, and of the signals that force the field. The engine says how high each
/// reaches.
pub fn highest_forcing_frequency(
    source: PointSource,
    source_ceiling: Scalar,
    ceilings: &Vec<Scalar>,
) -> (result: Scalar)
    ensures
        result == highest(
            if source.enabled {
                source_ceiling
            } else {
                Scalar::zero_num()
            },
            ceilings@,
        ),
{
    let first: Scalar = if source.enabled {
        source_ceiling
    } else {
        Scalar::zero()
    };
    let mut frequency: Scalar = first;
    let mut index: usize = 0;
    while index < ceilings.len()
        invariant
            index <= ceilings@.len(),
            frequency == highest(first, ceilings@.take(index as int)),
        decreases ceilings@.len() - index,
    {
        assert(ceilings@.take(index + 1).drop_last() =~= ceilings@.take(index as int));
        frequency = frequency.larger(ceilings[index]);
        index = index + 1;
    }
    assert(ceilings@.take(index as int) =~= ceilings@);
    frequency
}

/// A disabled source and disabled volume sources ask nothing of the mesh.
pub proof fn disabled_sources_force_nothing(sources: Seq<VolumeSource>)
    requires
        forall|i: int| 0 <= i < sources.len() ==> !(#[trigger] sources[i]).enabled,
    ensures
        source_signals(sources) == Seq::<TimeSignal>::empty(),
    decreases sources.len(),
{
    if sources.len() > 0 {
        disabled_sources_force_nothing(sources.drop_last());
    }
}

} // verus!
