//! Compilation of probes and of forcing against a candidate: what is compiled
//! anew, what is taken over, and along which pieces of the boundary a boundary
//! probe runs.

use crate::alike::{alike_seq, Alike};
use crate::collect::{find, first_value};
use crate::model::{
    CurveTraceSide, TopologyBoundaryProbeTarget, TopologyCurve, TopologyProbeDefinition,
};
use crate::preparation::Artifact;
use crate::preparation_job::ForcingChange;
use crate::scalar::{Point2, Scalar};
use crate::validation::{curve_named, find_curve};
use vstd::prelude::*;

verus! {

#[derive(Debug)]
pub enum TopologyProbeCompilation {
    Disabled,
    Ready(Artifact),
    Failed(String),
}

impl Clone for TopologyProbeCompilation {
    fn clone(&self) -> (result: Self)
        ensures
            result == *self,
    {
        match self {
            TopologyProbeCompilation::Disabled => TopologyProbeCompilation::Disabled,
            TopologyProbeCompilation::Ready(stencil) => TopologyProbeCompilation::Ready(*stencil),
            TopologyProbeCompilation::Failed(issue) => TopologyProbeCompilation::Failed(
                issue.clone(),
            ),
        }
    }
}

#[derive(Debug)]
pub struct CompiledTopologyProbe {
    pub id: u64,
    pub result: TopologyProbeCompilation,
}

impl Clone for CompiledTopologyProbe {
    fn clone(&self) -> (result: Self)
        ensures
            result == *self,
    {
        CompiledTopologyProbe { id: self.id, result: self.result.clone() }
    }
}

/// The probes of the active topology, as they were defined and compiled.
#[derive(Debug)]
pub struct ActiveProbes {
    pub definitions: Vec<TopologyProbeDefinition>,
    pub compiled: Vec<CompiledTopologyProbe>,
}

/// Whether a probe is defined just so in the active topology.
pub open spec fn unchanged_probe(
    definitions: Seq<TopologyProbeDefinition>,
    probe: TopologyProbeDefinition,
) -> bool {
    exists|i: int| 0 <= i < definitions.len() && (#[trigger] definitions[i]).alike(probe)
}

pub open spec fn compiled_with_id(compiled: Seq<CompiledTopologyProbe>, id: u64) -> Option<
    CompiledTopologyProbe,
> {
    first_value(compiled, |entry: CompiledTopologyProbe| entry.id == id)
}

/// The compiled form that a probe keeps, if it keeps one: its definition is
/// unchanged and it was compiled before.
pub open spec fn kept_probe(active: Option<ActiveProbes>, probe: TopologyProbeDefinition) -> Option<
    CompiledTopologyProbe,
> {
    match active {
        Some(active) => if unchanged_probe(active.definitions@, probe) {
            compiled_with_id(active.compiled@, probe.id)
        } else {
            None
        },
        None => None,
    }
}

/// What a newly compiled probe becomes.
pub open spec fn compilation(
    probe: TopologyProbeDefinition,
    built: Result<Artifact, String>,
) -> CompiledTopologyProbe {
    CompiledTopologyProbe {
        id: probe.id,
        result: if !probe.enabled {
            TopologyProbeCompilation::Disabled
        } else {
            match built {
                Ok(stencil) => TopologyProbeCompilation::Ready(stencil),
                Err(issue) => TopologyProbeCompilation::Failed(issue),
            }
        },
    }
}

fn is_unchanged(definitions: &Vec<TopologyProbeDefinition>, probe: &TopologyProbeDefinition) -> (result:
    bool)
    ensures
        result == unchanged_probe(definitions@, *probe),
{
    let mut index: usize = 0;
    while index < definitions.len()
        invariant
            index <= definitions@.len(),
            forall|i: int| 0 <= i < index ==> !(#[trigger] definitions@[i]).alike(*probe),
        decreases definitions@.len() - index,
    {
        if definitions[index].same(probe) {
            assert(definitions@[index as int].alike(*probe));
            return true;
        }
        index = index + 1;
    }
    false
}

/// Compiles a probe, unless it is disabled.
pub fn compile_one<F: Fn(&TopologyProbeDefinition) -> Result<Artifact, String>>(
    probe: &TopologyProbeDefinition,
    build: &F,
) -> (result: CompiledTopologyProbe)
    requires
        call_requires(build, (probe,)),
    ensures
        if probe.enabled {
            exists|built: Result<Artifact, String>| #[trigger]
                call_ensures(build, (probe,), built) && result == compilation(*probe, built)
        } else {
            result == (CompiledTopologyProbe {
                id: probe.id,
                result: TopologyProbeCompilation::Disabled,
            })
        },
{
    if !probe.enabled {
        return CompiledTopologyProbe {
            id: probe.id,
            result: TopologyProbeCompilation::Disabled,
        };
    }
    let built: Result<Artifact, String> = build(probe);
    let ghost outcome = built;
    assert(call_ensures(build, (probe,), outcome));
    let compiled = CompiledTopologyProbe {
        id: probe.id,
        result: match built {
            Ok(stencil) => TopologyProbeCompilation::Ready(stencil),
            Err(issue) => TopologyProbeCompilation::Failed(issue),
        },
    };
    assert(compiled == compilation(*probe, outcome));
    compiled
}

/// What comes of one probe: what it keeps, or what it is compiled to.
pub open spec fn compiles_to<F: Fn(&TopologyProbeDefinition) -> Result<Artifact, String>>(
    active: Option<ActiveProbes>,
    probe: TopologyProbeDefinition,
    build: F,
    compiled: CompiledTopologyProbe,
) -> bool {
    match kept_probe(active, probe) {
        Some(kept) => compiled == kept,
        None => if probe.enabled {
            exists|built: Result<Artifact, String>| #[trigger]
                call_ensures(build, (&probe,), built) && compiled == compilation(probe, built)
        } else {
            compiled == (CompiledTopologyProbe {
                id: probe.id,
                result: TopologyProbeCompilation::Disabled,
            })
        },
    }
}

/// Compiles the probes of a candidate. With an active topology whose operator
/// is taken over, the probes that did not change keep their compiled form.
pub fn compile_probes_reusing<F: Fn(&TopologyProbeDefinition) -> Result<Artifact, String>>(
    probes: &Vec<TopologyProbeDefinition>,
    active: &Option<ActiveProbes>,
    build: F,
) -> (result: Vec<CompiledTopologyProbe>)
    requires
        forall|probe: &TopologyProbeDefinition| call_requires(build, (probe,)),
    ensures
        result@.len() == probes@.len(),
        forall|i: int|
            0 <= i < probes@.len() ==> compiles_to(
                *active,
                probes@[i],
                build,
                #[trigger] result@[i],
            ),
{
    let mut compiled: Vec<CompiledTopologyProbe> = Vec::new();
    let mut index: usize = 0;
    while index < probes.len()
        invariant
            index <= probes@.len(),
            compiled@.len() == index,
            forall|probe: &TopologyProbeDefinition| call_requires(build, (probe,)),
            forall|i: int|
                0 <= i < index ==> compiles_to(
                    *active,
                    probes@[i],
                    build,
                    #[trigger] compiled@[i],
                ),
        decreases probes@.len() - index,
    {
        let probe: &TopologyProbeDefinition = &probes[index];
        let mut kept: Option<CompiledTopologyProbe> = None;
        if let Some(active) = active {
            if is_unchanged(&active.definitions, probe) {
                let id: u64 = probe.id;
                let with_id = |entry: &CompiledTopologyProbe| -> (passes: bool)
                    ensures
                        passes == (entry.id == id),
                    { entry.id == id };
                if let Some(place) = find(
                    &active.compiled,
                    with_id,
                    Ghost(|entry: CompiledTopologyProbe| entry.id == id),
                ) {
                    kept = Some(active.compiled[place].clone());
                }
            }
        }
        let next: CompiledTopologyProbe = match kept {
            Some(kept) => kept,
            None => compile_one(probe, &build),
        };
        assert(compiles_to(*active, probes@[index as int], build, next));
        compiled.push(next);
        index = index + 1;
    }
    compiled
}

/// The stencils of the points along a line, or the first one that could not be
/// built.
pub open spec fn line_stencils(built: Seq<Result<Artifact, String>>) -> Result<
    Seq<Artifact>,
    String,
>
    decreases built.len(),
{
    if built.len() == 0 {
        Ok(Seq::empty())
    } else {
        match line_stencils(built.drop_last()) {
            Err(issue) => Err(issue),
            Ok(stencils) => match built.last() {
                Err(issue) => Err(issue),
                Ok(stencil) => Ok(stencils.push(stencil)),
            },
        }
    }
}

/// A piece of the planned boundary.
#[derive(Clone, Copy, Debug, PartialEq, Eq, Structural)]
pub struct PlannedBoundary {
    pub source: PlannedBoundarySource,
    /// The parameters of the curve at the two ends.
    pub start: Scalar,
    pub end: Scalar,
    pub from: Point2,
    pub to: Point2,
    pub separated: bool,
    pub region: u64,
}

#[derive(Clone, Copy, Debug, PartialEq, Eq, Structural)]
pub enum PlannedBoundarySource {
    Outer,
    Curve { curve: u64, span: u64, side: CurveTraceSide },
}

/// Whether a piece belongs to one side of one span.
pub open spec fn lies_on(piece: PlannedBoundary, curve: u64, span: u64, side: CurveTraceSide)
    -> bool {
    piece.source == (PlannedBoundarySource::Curve { curve, span, side })
}

pub open spec fn span_pieces(
    boundaries: Seq<PlannedBoundary>,
    curve: u64,
    span: u64,
    side: CurveTraceSide,
) -> Seq<PlannedBoundary>
    decreases boundaries.len(),
{
    if boundaries.len() == 0 {
        Seq::empty()
    } else {
        let earlier = span_pieces(boundaries.drop_last(), curve, span, side);
        if lies_on(boundaries.last(), curve, span, side) {
            insert_piece(earlier, boundaries.last())
        } else {
            earlier
        }
    }
}

/// Puts a piece into a list ordered by its start, behind the pieces that start
/// at the same parameter.
pub open spec fn insert_piece(
    pieces: Seq<PlannedBoundary>,
    piece: PlannedBoundary,
) -> Seq<PlannedBoundary>
    decreases pieces.len(),
{
    if pieces.len() == 0 {
        seq![piece]
    } else if piece.start.rank() < pieces.last().start.rank() {
        insert_piece(pieces.drop_last(), piece).push(pieces.last())
    } else {
        pieces.push(piece)
    }
}

/// Whether pieces are ordered by where they start.
pub open spec fn ordered_pieces(pieces: Seq<PlannedBoundary>) -> bool {
    forall|i: int, j: int|
        0 <= i <= j < pieces.len() ==> (#[trigger] pieces[i]).start.rank() <= (
        #[trigger] pieces[j]).start.rank()
}

proof fn inserting_adds_the_piece(pieces: Seq<PlannedBoundary>, piece: PlannedBoundary)
    requires
        ordered_pieces(pieces),
    ensures
        ordered_pieces(insert_piece(pieces, piece)),
        insert_piece(pieces, piece).to_multiset() == pieces.to_multiset().insert(piece),
        insert_piece(pieces, piece).len() == pieces.len() + 1,
        forall|i: int|
            0 <= i < insert_piece(pieces, piece).len() ==> (#[trigger] insert_piece(
                pieces,
                piece,
            )[i]) == piece || pieces.contains(insert_piece(pieces, piece)[i]),
    decreases pieces.len(),
{
    broadcast use vstd::seq_lib::group_to_multiset_ensures;

    if pieces.len() == 0 {
        assert(seq![piece] =~= Seq::<PlannedBoundary>::empty().push(piece));
        assert(pieces =~= Seq::empty());
    } else if piece.start.rank() < pieces.last().start.rank() {
        let front = pieces.drop_last();
        let last = pieces.last();
        assert(pieces =~= front.push(last));
        inserting_adds_the_piece(front, piece);
        let inner = insert_piece(front, piece);
        let whole = insert_piece(pieces, piece);
        assert(whole == inner.push(last));
        assert forall|i: int, j: int| 0 <= i <= j < whole.len() implies (
        #[trigger] whole[i]).start.rank() <= (#[trigger] whole[j]).start.rank() by {
            if j == whole.len() - 1 && i < j {
                assert(whole[i] == inner[i]);
                if inner[i] != piece {
                    assert(front.contains(inner[i]));
                    let k = front.index_of(inner[i]);
                    assert(pieces[k].start.rank() <= pieces[pieces.len() - 1].start.rank());
                }
            } else if j < whole.len() - 1 {
                assert(whole[i] == inner[i] && whole[j] == inner[j]);
            }
        }
        assert forall|i: int| 0 <= i < whole.len() implies (#[trigger] whole[i]) == piece
            || pieces.contains(whole[i]) by {
            if i < whole.len() - 1 {
                assert(whole[i] == inner[i]);
                if inner[i] != piece {
                    let k = front.index_of(inner[i]);
                    assert(pieces[k] == whole[i]);
                }
            } else {
                assert(whole[i] == pieces[pieces.len() - 1]);
            }
        }
        assert(pieces.to_multiset() =~= front.to_multiset().insert(last));
        assert(whole.to_multiset() =~= pieces.to_multiset().insert(piece));
    } else {
        let whole = pieces.push(piece);
        assert forall|i: int, j: int| 0 <= i <= j < whole.len() implies (
        #[trigger] whole[i]).start.rank() <= (#[trigger] whole[j]).start.rank() by {
            if j == whole.len() - 1 && i < j {
                assert(pieces[i].start.rank() <= pieces[pieces.len() - 1].start.rank());
            }
        }
        assert forall|i: int| 0 <= i < whole.len() implies (#[trigger] whole[i]) == piece
            || pieces.contains(whole[i]) by {
            if i < pieces.len() {
                assert(whole[i] == pieces[i]);
            }
        }
    }
}

/// The pieces of a span are those of the plan that lie on it, ordered by where
/// they start.
pub proof fn span_pieces_are_ordered(
    boundaries: Seq<PlannedBoundary>,
    curve: u64,
    span: u64,
    side: CurveTraceSide,
)
    ensures
        ordered_pieces(span_pieces(boundaries, curve, span, side)),
        span_pieces(boundaries, curve, span, side).to_multiset() == boundaries.filter(
            |piece: PlannedBoundary| lies_on(piece, curve, span, side),
        ).to_multiset(),
    decreases boundaries.len(),
{
    broadcast use vstd::seq_lib::group_to_multiset_ensures;

    reveal(Seq::filter);
    let on_span = |piece: PlannedBoundary| lies_on(piece, curve, span, side);
    if boundaries.len() > 0 {
        let front = boundaries.drop_last();
        span_pieces_are_ordered(front, curve, span, side);
        if lies_on(boundaries.last(), curve, span, side) {
            inserting_adds_the_piece(
                span_pieces(front, curve, span, side),
                boundaries.last(),
            );
            assert(boundaries.filter(on_span) =~= front.filter(on_span).push(boundaries.last()));
        } else {
            assert(boundaries.filter(on_span) =~= front.filter(on_span));
        }
    } else {
        assert(boundaries.filter(on_span) =~= Seq::empty());
    }
}

fn insert_in_order(pieces: &mut Vec<PlannedBoundary>, piece: PlannedBoundary)
    ensures
        final(pieces)@ == insert_piece(old(pieces)@, piece),
{
    let ghost before = pieces@;
    let mut place: usize = pieces.len();
    proof {
        assert(before.take(place as int) =~= before);
        assert(before.skip(place as int) =~= Seq::empty());
        assert(insert_piece(before, piece) =~= insert_piece(before.take(place as int), piece)
            + before.skip(place as int));
    }
    while place > 0 && piece.start.ranks_below(pieces[place - 1].start)
        invariant
            place <= before.len(),
            pieces@ == before,
            insert_piece(before, piece) =~= insert_piece(before.take(place as int), piece)
                + before.skip(place as int),
        decreases place,
    {
        proof {
            let shorter = before.take(place as int);
            assert(shorter.drop_last() =~= before.take(place - 1));
            assert(shorter.last() == before[place - 1]);
            assert(before.skip(place - 1) =~= seq![before[place - 1]] + before.skip(
                place as int,
            ));
            assert(insert_piece(shorter, piece) =~= insert_piece(
                before.take(place - 1),
                piece,
            ).push(before[place - 1]));
        }
        place = place - 1;
    }
    proof {
        let shorter = before.take(place as int);
        if place > 0 {
            assert(shorter.last() == before[place - 1]);
        }
        assert(insert_piece(shorter, piece) =~= shorter.push(piece));
        assert(before.insert(place as int, piece) =~= shorter.push(piece) + before.skip(
            place as int,
        ));
    }
    pieces.insert(place, piece);
}

fn pieces_on_span(
    boundaries: &Vec<PlannedBoundary>,
    curve: u64,
    span: u64,
    side: CurveTraceSide,
) -> (result: Vec<PlannedBoundary>)
    ensures
        result@ == span_pieces(boundaries@, curve, span, side),
{
    let mut pieces: Vec<PlannedBoundary> = Vec::new();
    let mut index: usize = 0;
    while index < boundaries.len()
        invariant
            index <= boundaries@.len(),
            pieces@ == span_pieces(boundaries@.take(index as int), curve, span, side),
        decreases boundaries@.len() - index,
    {
        let piece: PlannedBoundary = boundaries[index];
        assert(boundaries@.take(index + 1).drop_last() =~= boundaries@.take(index as int));
        if piece.source == (PlannedBoundarySource::Curve { curve, span, side }) {
            insert_in_order(&mut pieces, piece);
        }
        index = index + 1;
    }
    assert(boundaries@.take(index as int) =~= boundaries@);
    pieces
}

/// The pieces along the first `count` spans of a probe, or nothing where a span
/// has no piece.
pub open spec fn path_along(
    boundaries: Seq<PlannedBoundary>,
    curve: u64,
    side: CurveTraceSide,
    spans: Seq<u64>,
) -> Option<Seq<PlannedBoundary>>
    decreases spans.len(),
{
    if spans.len() == 0 {
        Some(Seq::empty())
    } else {
        let pieces = span_pieces(boundaries, curve, spans.last(), side);
        match path_along(boundaries, curve, side, spans.drop_last()) {
            Some(earlier) => if pieces.len() == 0 {
                None
            } else {
                Some(earlier + pieces)
            },
            None => None,
        }
    }
}

/// The pieces that a boundary probe runs along, in its direction, or why there
/// are none.
pub open spec fn probe_path(
    target: TopologyBoundaryProbeTarget,
    curves: Seq<TopologyCurve>,
    boundaries: Seq<PlannedBoundary>,
) -> Result<Seq<PlannedBoundary>, Seq<char>> {
    if curve_named(curves, target.curve) is None {
        Err("Boundary probe curve is missing"@)
    } else {
        match path_along(boundaries, target.curve, target.side, target.spans@) {
            None => Err("Boundary probe span has no active trace"@),
            Some(path) => Ok(
                if target.reversed {
                    path.reverse()
                } else {
                    path
                },
            ),
        }
    }
}

proof fn a_missing_span_breaks_the_path(
    boundaries: Seq<PlannedBoundary>,
    curve: u64,
    side: CurveTraceSide,
    spans: Seq<u64>,
    count: int,
)
    requires
        0 <= count <= spans.len(),
        path_along(boundaries, curve, side, spans.take(count)) is None,
    ensures
        path_along(boundaries, curve, side, spans) is None,
    decreases spans.len(),
{
    if count == spans.len() {
        assert(spans.take(count) =~= spans);
    } else {
        assert(spans.drop_last().take(count) =~= spans.take(count));
        a_missing_span_breaks_the_path(boundaries, curve, side, spans.drop_last(), count);
    }
}

/// Finds the pieces that a boundary probe runs along.
pub fn boundary_probe_path(
    target: &TopologyBoundaryProbeTarget,
    curves: &Vec<TopologyCurve>,
    boundaries: &Vec<PlannedBoundary>,
) -> (result: Result<Vec<PlannedBoundary>, String>)
    ensures
        match probe_path(*target, curves@, boundaries@) {
            Ok(path) => result is Ok && result->Ok_0@ == path,
            Err(issue) => result is Err && result->Err_0@ == issue,
        },
{
    if find_curve(curves, target.curve).is_none() {
        return Err("Boundary probe curve is missing".to_owned());
    }
    let mut path: Vec<PlannedBoundary> = Vec::new();
    let mut index: usize = 0;
    while index < target.spans.len()
        invariant
            index <= target.spans@.len(),
            path_along(
                boundaries@,
                target.curve,
                target.side,
                target.spans@.take(index as int),
            ) == Some(path@),
            curve_named(curves@, target.curve) is Some,
        decreases target.spans@.len() - index,
    {
        assert(target.spans@.take(index + 1).drop_last() =~= target.spans@.take(index as int));
        let mut pieces: Vec<PlannedBoundary> = pieces_on_span(
            boundaries,
            target.curve,
            target.spans[index],
            target.side,
        );
        if pieces.len() == 0 {
            proof {
                a_missing_span_breaks_the_path(
                    boundaries@,
                    target.curve,
                    target.side,
                    target.spans@,
                    index + 1,
                );
            }
            return Err("Boundary probe span has no active trace".to_owned());
        }
        path.append(&mut pieces);
        index = index + 1;
    }
    assert(target.spans@.take(index as int) =~= target.spans@);
    if target.reversed {
        let mut reversed: Vec<PlannedBoundary> = Vec::new();
        let mut left: usize = path.len();
        while left > 0
            invariant
                left <= path@.len(),
                reversed@.len() == path@.len() - left,
                forall|i: int|
                    0 <= i < reversed@.len() ==> #[trigger] reversed@[i] == path@[path@.len() - 1
                        - i],
            decreases left,
        {
            left = left - 1;
            reversed.push(path[left]);
        }
        assert(reversed@ =~= path@.reverse());
        return Ok(reversed);
    }
    Ok(path)
}

/// Whether the length of a path and the period of its curve can be sampled.
pub open spec fn path_issue(total: Scalar, period: Option<Scalar>) -> Option<Seq<char>> {
    if !total.finite() || !Scalar::zero_num().lt_num(total) {
        Some("Boundary probe path is degenerate"@)
    } else {
        match period {
            Some(period) => if period.finite() && Scalar::zero_num().lt_num(period) {
                None
            } else {
                Some("Boundary probe curve has an invalid period"@)
            },
            None => Some("Boundary probe curve has an invalid period"@),
        }
    }
}

/// Refuses a path that cannot be sampled. `period` is where the last span of
/// the curve ends.
pub fn check_path(total: Scalar, period: Option<Scalar>) -> (result: Result<Scalar, String>)
    ensures
        match path_issue(total, period) {
            Some(issue) => result is Err && result->Err_0@ == issue,
            None => result == Ok::<Scalar, String>(period->0),
        },
{
    if !total.is_finite() || !Scalar::zero().less(total) {
        return Err("Boundary probe path is degenerate".to_owned());
    }
    match period {
        Some(period) => if period.is_finite() && Scalar::zero().less(period) {
            Ok(period)
        } else {
            Err("Boundary probe curve has an invalid period".to_owned())
        },
        None => Err("Boundary probe curve has an invalid period".to_owned()),
    }
}

/// Whether a sample falls on this piece: what is left of its distance does not
/// reach past the piece, or there is no further piece.
pub open spec fn sample_stops(remaining: Seq<Scalar>, lengths: Seq<Scalar>, place: int) -> bool {
    remaining[place].le_num(lengths[place]) || place + 1 == lengths.len()
}

/// The first piece from a place on that a sample stops at.
pub open spec fn stop_from(remaining: Seq<Scalar>, lengths: Seq<Scalar>, place: int) -> int
    decreases lengths.len() - place,
{
    if place + 1 >= lengths.len() || remaining[place].le_num(lengths[place]) {
        place
    } else {
        stop_from(remaining, lengths, place + 1)
    }
}

/// The piece that a sample falls on. `remaining` holds what is left of the
/// sample's distance before each piece.
pub fn sampled_piece(remaining: &Vec<Scalar>, lengths: &Vec<Scalar>) -> (result: usize)
    requires
        lengths@.len() > 0,
        remaining@.len() == lengths@.len(),
    ensures
        result < lengths@.len(),
        result as int == stop_from(remaining@, lengths@, 0),
        sample_stops(remaining@, lengths@, result as int),
        forall|i: int| 0 <= i < result ==> !#[trigger] sample_stops(remaining@, lengths@, i),
{
    let mut index: usize = 0;
    while index < lengths.len() - 1
        invariant
            index < lengths@.len(),
            remaining@.len() == lengths@.len(),
            stop_from(remaining@, lengths@, 0) == stop_from(remaining@, lengths@, index as int),
            forall|i: int| 0 <= i < index ==> !#[trigger] sample_stops(remaining@, lengths@, i),
        decreases lengths@.len() - index,
    {
        if remaining[index].at_most(lengths[index]) {
            assert(sample_stops(remaining@, lengths@, index as int));
            return index;
        }
        assert(!sample_stops(remaining@, lengths@, index as int));
        index = index + 1;
    }
    assert(sample_stops(remaining@, lengths@, index as int));
    index
}

/// One source of compiled forcing: the nodes it acts on, how strongly, and what
/// drives it.
#[derive(Debug)]
pub struct ForcingSource {
    pub support: Vec<u64>,
    pub weights: Vec<Scalar>,
}

pub open spec fn same_support(left: Seq<ForcingSource>, right: Seq<ForcingSource>) -> bool {
    &&& left.len() == right.len()
    &&& forall|i: int|
        0 <= i < left.len() ==> alike_seq((#[trigger] left[i]).support@, right[i].support@)
}

pub open spec fn same_support_and_weights(
    left: Seq<ForcingSource>,
    right: Seq<ForcingSource>,
) -> bool {
    &&& left.len() == right.len()
    &&& forall|i: int|
        0 <= i < left.len() ==> alike_seq((#[trigger] left[i]).support@, right[i].support@)
            && alike_seq(left[i].weights@, right[i].weights@)
}

/// Whether two forcings differ in their drives at most.
pub fn forcing_layout_eq(
    same_prescribed: bool,
    left: &Vec<ForcingSource>,
    right: &Vec<ForcingSource>,
) -> (result: bool)
    ensures
        result == (same_prescribed && same_support_and_weights(left@, right@)),
{
    if !same_prescribed || left.len() != right.len() {
        return false;
    }
    let mut index: usize = 0;
    while index < left.len()
        invariant
            index <= left@.len(),
            left@.len() == right@.len(),
            forall|i: int|
                0 <= i < index ==> alike_seq((#[trigger] left@[i]).support@, right@[i].support@)
                    && alike_seq(left@[i].weights@, right@[i].weights@),
        decreases left@.len() - index,
    {
        if !left[index].support.same(&right[index].support) || !left[index].weights.same(
            &right[index].weights,
        ) {
            assert(!(alike_seq(left@[index as int].support@, right@[index as int].support@)
                && alike_seq(left@[index as int].weights@, right@[index as int].weights@)));
            return false;
        }
        index = index + 1;
    }
    true
}

/// Whether two forcings act on the same nodes.
pub fn forcing_sparse_layout_eq(
    same_prescribed: bool,
    left: &Vec<ForcingSource>,
    right: &Vec<ForcingSource>,
) -> (result: bool)
    ensures
        result == (same_prescribed && same_support(left@, right@)),
{
    if !same_prescribed || left.len() != right.len() {
        return false;
    }
    let mut index: usize = 0;
    while index < left.len()
        invariant
            index <= left@.len(),
            left@.len() == right@.len(),
            forall|i: int|
                0 <= i < index ==> alike_seq((#[trigger] left@[i]).support@, right@[i].support@),
        decreases left@.len() - index,
    {
        if !left[index].support.same(&right[index].support) {
            assert(!alike_seq(left@[index as int].support@, right@[index as int].support@));
            return false;
        }
        index = index + 1;
    }
    true
}

/// How a forcing relates to the active one. `equal` says whether the engine
/// finds the two equal, `same_prescribed` whether they prescribe the same
/// boundary values.
pub fn forcing_change(
    equal: bool,
    same_prescribed: bool,
    next: &Vec<ForcingSource>,
    active: &Vec<ForcingSource>,
) -> (result: ForcingChange)
    ensures
        result == (if equal {
            ForcingChange::Unchanged
        } else if same_prescribed && same_support_and_weights(next@, active@) {
            ForcingChange::Drives
        } else if same_prescribed && same_support(next@, active@) {
            ForcingChange::Weights
        } else {
            ForcingChange::Layout
        }),
{
    if equal {
        ForcingChange::Unchanged
    } else if forcing_layout_eq(same_prescribed, next, active) {
        ForcingChange::Drives
    } else if forcing_sparse_layout_eq(same_prescribed, next, active) {
        ForcingChange::Weights
    } else {
        ForcingChange::Layout
    }
}

pub open spec fn holds_node(element: Seq<u64>, node: int) -> bool {
    exists|k: int| 0 <= k < element.len() && #[trigger] element[k] == node
}

/// Whether a node belongs to an element of the region.
pub open spec fn node_in_region(
    regions: Seq<u64>,
    elements: Seq<Vec<u64>>,
    region: u64,
    node: int,
) -> bool {
    exists|i: int|
        0 <= i < regions.len() && i < elements.len() && (#[trigger] regions[i]) == region
            && holds_node(elements[i]@, node)
}

/// The nodes that a point source of a region may act on.
pub fn source_membership(
    nodes: usize,
    regions: &Vec<u64>,
    elements: &Vec<Vec<u64>>,
    region: u64,
) -> (result: Vec<bool>)
    requires
        forall|i: int, k: int|
            0 <= i < elements@.len() && 0 <= k < elements@[i]@.len() ==> (
            #[trigger] elements@[i]@[k]) < nodes,
    ensures
        result@.len() == nodes,
        forall|node: int|
            0 <= node < nodes ==> #[trigger] result@[node] == node_in_region(
                regions@,
                elements@,
                region,
                node,
            ),
{
    let mut membership: Vec<bool> = Vec::new();
    let mut filled: usize = 0;
    while filled < nodes
        invariant
            filled <= nodes,
            membership@.len() == filled,
            forall|node: int| 0 <= node < filled ==> !#[trigger] membership@[node],
        decreases nodes - filled,
    {
        membership.push(false);
        filled = filled + 1;
    }
    let count: usize = if regions.len() < elements.len() {
        regions.len()
    } else {
        elements.len()
    };
    let mut index: usize = 0;
    assert(forall|node: int|
        0 <= node < nodes ==> #[trigger] membership@[node] == node_in_region(
            regions@.take(0),
            elements@,
            region,
            node,
        ));
    while index < count
        invariant
            index <= count,
            count <= regions@.len(),
            count <= elements@.len(),
            membership@.len() == nodes,
            forall|i: int, k: int|
                0 <= i < elements@.len() && 0 <= k < elements@[i]@.len() ==> (
                #[trigger] elements@[i]@[k]) < nodes,
            forall|node: int|
                0 <= node < nodes ==> #[trigger] membership@[node] == node_in_region(
                    regions@.take(index as int),
                    elements@,
                    region,
                    node,
                ),
        decreases count - index,
    {
        let ghost before = membership@;
        let element: &Vec<u64> = &elements[index];
        if regions[index] == region {
            let mut corner: usize = 0;
            while corner < element.len()
                invariant
                    corner <= element@.len(),
                    index < elements@.len(),
                    *element == elements@[index as int],
                    membership@.len() == nodes,
                    before.len() == nodes,
                    forall|i: int, k: int|
                        0 <= i < elements@.len() && 0 <= k < elements@[i]@.len() ==> (
                        #[trigger] elements@[i]@[k]) < nodes,
                    forall|node: int|
                        0 <= node < nodes ==> #[trigger] membership@[node] == (before[node]
                            || holds_node(element@.take(corner as int), node)),
                decreases element@.len() - corner,
            {
                let node: u64 = element[corner];
                assert(elements@[index as int]@[corner as int] < nodes);
                proof {
                    let shorter = element@.take(corner as int);
                    let longer = element@.take(corner + 1);
                    assert(longer =~= shorter.push(node));
                    assert forall|other: int| 0 <= other < nodes implies (#[trigger] holds_node(
                        longer,
                        other,
                    )) == (holds_node(shorter, other) || other == node) by {
                        if holds_node(shorter, other) {
                            let k = choose|k: int|
                                0 <= k < shorter.len() && #[trigger] shorter[k] == other;
                            assert(longer[k] == other);
                        }
                        if other == node {
                            assert(longer[corner as int] == other);
                        }
                        if holds_node(longer, other) {
                            let k = choose|k: int|
                                0 <= k < longer.len() && #[trigger] longer[k] == other;
                            if k < corner {
                                assert(shorter[k] == other);
                            }
                        }
                    }
                }
                membership.set(node as usize, true);
                corner = corner + 1;
            }
            assert(element@.take(corner as int) =~= element@);
        }
        proof {
            let shorter = regions@.take(index as int);
            let longer = regions@.take(index + 1);
            assert forall|node: int| 0 <= node < nodes implies #[trigger] membership@[node]
                == node_in_region(longer, elements@, region, node) by {
                if node_in_region(shorter, elements@, region, node) {
                    let i = choose|i: int|
                        0 <= i < shorter.len() && i < elements@.len() && (#[trigger] shorter[i])
                            == region && holds_node(elements@[i]@, node);
                    assert(longer[i] == region);
                }
                if node_in_region(longer, elements@, region, node) {
                    let i = choose|i: int|
                        0 <= i < longer.len() && i < elements@.len() && (#[trigger] longer[i])
                            == region && holds_node(elements@[i]@, node);
                    if i < index {
                        assert(shorter[i] == region);
                    }
                }
                if regions@[index as int] == region && holds_node(element@, node) {
                    assert(longer[index as int] == region);
                }
            }
        }
        index = index + 1;
    }
    proof {
        assert forall|node: int| 0 <= node < nodes implies #[trigger] membership@[node]
            == node_in_region(regions@, elements@, region, node) by {
            let taken = regions@.take(index as int);
            if node_in_region(taken, elements@, region, node) {
                let i = choose|i: int|
                    0 <= i < taken.len() && i < elements@.len() && (#[trigger] taken[i]) == region
                        && holds_node(elements@[i]@, node);
                assert(regions@[i] == region);
            }
            if node_in_region(regions@, elements@, region, node) {
                let i = choose|i: int|
                    0 <= i < regions@.len() && i < elements@.len() && (#[trigger] regions@[i])
                        == region && holds_node(elements@[i]@, node);
                assert(taken[i] == region);
            }
        }
    }
    membership
}

} // verus!
