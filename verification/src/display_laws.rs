//! What numbers, scales, boundary pickers and the vector overlay show.

use crate::boundary_edit::{
    first_face, first_outer, first_signal, kind_of_face, kind_of_outer, state_of, BoundaryKind,
};
use crate::exposure::{
    absolute, count_at_most, measured, stands_at, stride_of, AutoExposure, DisplayScales,
};
use crate::model::{
    ElectromagneticPolarization, FaceBoundaryCondition, OuterBoundaryCondition, PhysicsModel,
    SpanBehavior, TimeSignal, TopologyCurve, TopologyScene, VolumeSource,
};
use crate::overlay::{
    arrow_of, behavior_signals, carries_lattice, curve_signals, face_signal, forcing_of, highest,
    layout_possible, outer_signal, source_signals, span_signals, with_material, ArrowCandidate,
    CellKey, OverlayFrame, OverlayState,
};
use crate::scalar::{Point2, Scalar};
use crate::windows::{largest, remembered, FRAME_HISTORY};
use vstd::prelude::*;

verus! {

/// The same number with the other sign.
pub open spec fn opposite(value: Scalar) -> Scalar {
    if value.bits < 0x8000_0000_0000_0000 {
        Scalar { bits: (value.bits + 0x8000_0000_0000_0000) as u64 }
    } else {
        Scalar { bits: (value.bits - 0x8000_0000_0000_0000) as u64 }
    }
}

/// Numbers without a sign are ordered as their bit patterns are, up to the
/// infinity; above it nothing is a number.
pub proof fn patterns_without_a_sign_are_ordered(a: Scalar, b: Scalar)
    requires
        a.bits < 0x8000_0000_0000_0000,
        b.bits < 0x8000_0000_0000_0000,
    ensures
        a.nan() <==> a.bits > 0x7ff0_0000_0000_0000,
        a.finite() <==> a.bits < 0x7ff0_0000_0000_0000,
        a.lt_num(b) <==> a.bits < b.bits <= 0x7ff0_0000_0000_0000,
        a.eq_num(b) <==> a.bits == b.bits && b.bits <= 0x7ff0_0000_0000_0000,
        a.le_num(b) <==> a.bits <= b.bits <= 0x7ff0_0000_0000_0000,
        a.rank() < b.rank() <==> a.bits < b.bits,
        opposite(a).rank() < b.rank(),
        opposite(a).lt_num(b) <==> !a.nan() && !b.nan() && (a.bits > 0 || b.bits > 0),
{
}

/// Turning the signs turns the order round, and changes neither what is finite nor
/// what is a number.
pub proof fn opposite_numbers_are_ordered_the_other_way(a: Scalar, b: Scalar)
    ensures
        opposite(opposite(a)) == a,
        opposite(a).nan() == a.nan(),
        opposite(a).finite() == a.finite(),
        a.lt_num(b) <==> opposite(b).lt_num(opposite(a)),
        a.le_num(b) <==> opposite(b).le_num(opposite(a)),
        a.eq_num(b) <==> opposite(a).eq_num(opposite(b)),
        a.rank() < b.rank() <==> opposite(b).rank() < opposite(a).rank(),
        a.le_num(b) <==> a.lt_num(b) || a.eq_num(b),
        absolute(opposite(a)) == absolute(a),
        absolute(a) == a || absolute(a) == opposite(a),
        !a.nan() ==> Scalar::zero_num().le_num(absolute(a)),
{
}

/// The larger and the smaller of two numbers are among them, and nothing of them
/// lies beyond; what is not a number is left aside for what is.
pub proof fn the_larger_and_the_smaller_enclose_both(a: Scalar, b: Scalar)
    ensures
        a.larger_num(b) == a || a.larger_num(b) == b,
        a.smaller_num(b) == a || a.smaller_num(b) == b,
        !a.nan() ==> a.le_num(a.larger_num(b)) && a.smaller_num(b).le_num(a),
        !b.nan() ==> b.le_num(a.larger_num(b)) && b.le_num(b) && a.smaller_num(b).le_num(b),
{
}

/// A point is finite and equal to another in both coordinates or not at all.
pub proof fn points_agree_in_both_coordinates(a: Point2, b: Point2)
    ensures
        a.finite_point() <==> a.x.finite() && a.y.finite(),
        a.eq_point(b) <==> a.x.eq_num(b.x) && a.y.eq_num(b.y),
        ({
            let turned = Point2 { x: a.y, y: a.x };
            let other = Point2 { x: b.y, y: b.x };
            turned.eq_point(other) == a.eq_point(b) && turned.finite_point() == a.finite_point()
        }),
{
}

/// The stride is the least that leaves no more samples than there is room for.
pub proof fn the_stride_is_no_longer_than_needed(count: nat)
    ensures
        stride_of(count) >= 1,
        stride_of(count) * 4096 >= count,
        count > 0 ==> (stride_of(count) - 1) * 4096 < count,
{
}

/// What is measured of a field are the absolute values at every stride, those that
/// are finite, and nothing else.
pub proof fn every_stride_is_measured(
    values: Seq<Scalar>,
    stride: nat,
    upto: nat,
    sample: Scalar,
)
    requires
        stride >= 1,
        upto <= values.len(),
    ensures
        measured(values, stride, upto).contains(sample) <==> exists|i: int|
            0 <= i < upto && i % (stride as int) == 0 && sample.finite() && sample
                == #[trigger] absolute(values[i]),
    decreases upto,
{
    if upto > 0 {
        let last = upto - 1;
        every_stride_is_measured(values, stride, last as nat, sample);
        let earlier = measured(values, stride, last as nat);
        let all = measured(values, stride, upto);
        if earlier.contains(sample) {
            let i = earlier.index_of(sample);
            assert(all[i] == sample);
        }
        if all.contains(sample) {
            let i = all.index_of(sample);
            if i < earlier.len() {
                assert(earlier[i] == sample);
            } else {
                assert(sample == absolute(values[last]));
            }
        }
        if last % (stride as int) == 0 && sample.finite() && sample == absolute(values[last]) {
            assert(all[earlier.len() as int] == sample);
        }
    }
}

/// The value at a later place is no smaller, and the first and the last place hold
/// the smallest and the largest sample.
pub proof fn later_places_hold_larger_samples(
    samples: Seq<Scalar>,
    low: Scalar,
    high: Scalar,
    earlier: int,
    later: int,
    i: int,
)
    requires
        stands_at(samples, low, earlier),
        stands_at(samples, high, later),
        earlier <= later,
        0 <= i < samples.len(),
    ensures
        samples.contains(low),
        low.bits <= high.bits,
        earlier == 0 ==> low.bits <= samples[i].bits,
        later == samples.len() - 1 ==> samples[i].bits <= high.bits,
{
    if high.bits < low.bits {
        fewer_lie_under_less(samples, high.bits as int, low.bits - 1);
    }
    a_sample_counts_itself(samples, low.bits - 1, i);
    a_sample_counts_itself(samples, high.bits as int, i);
}

proof fn fewer_lie_under_less(samples: Seq<Scalar>, low: int, high: int)
    requires
        low <= high,
    ensures
        count_at_most(samples, low) <= count_at_most(samples, high),
    decreases samples.len(),
{
    if samples.len() > 0 {
        fewer_lie_under_less(samples.drop_last(), low, high);
    }
}

proof fn a_sample_counts_itself(samples: Seq<Scalar>, bound: int, i: int)
    requires
        0 <= i < samples.len(),
    ensures
        samples[i].bits <= bound ==> count_at_most(samples, bound) >= 1,
        samples[i].bits > bound ==> count_at_most(samples, bound) < samples.len(),
        count_at_most(samples, bound) <= samples.len(),
    decreases samples.len(),
{
    no_more_than_all(samples.drop_last(), bound);
    if i < samples.len() - 1 {
        assert(samples.drop_last()[i] == samples[i]);
        a_sample_counts_itself(samples.drop_last(), bound, i);
    }
}

proof fn no_more_than_all(samples: Seq<Scalar>, bound: int)
    ensures
        count_at_most(samples, bound) <= samples.len(),
    decreases samples.len(),
{
    if samples.len() > 0 {
        no_more_than_all(samples.drop_last(), bound);
    }
}

/// A measured level is never brighter than the scale allows: the scale rises to it
/// at once, falls no lower than the floor of the run, and the peak of the run never
/// falls.
pub proof fn a_scale_rises_at_once(
    scale: AutoExposure,
    level: Scalar,
    released: Scalar,
    floor: Scalar,
)
    requires
        AutoExposure::counts(level),
    ensures
        level.finite(),
        Scalar::zero_num().lt_num(level),
        ({
            let after = scale.updated(level, released, floor);
            &&& level.le_num(after.reference)
            &&& !released.nan() ==> released.le_num(after.reference)
            &&& !floor.nan() ==> floor.le_num(after.reference)
            &&& after.reference == level || after.reference == released || after.reference == floor
            &&& level.le_num(after.peak)
            &&& !scale.peak.nan() ==> scale.peak.le_num(after.peak)
            &&& after.peak == level || after.peak == scale.peak
            &&& after.level() == Some(after.reference)
        }),
        scale.level() is Some ==> scale.level() == Some(scale.reference) && Scalar::zero_num().lt_num(
            scale.reference,
        ),
        AutoExposure::none().level() is None,
{
}

/// A handoff of the same field keeps the scales; one that starts from zeros keeps
/// only how loud the run has been. Showing the other quantity starts the field's
/// scale again and leaves that of the arrows alone.
pub proof fn scales_outlive_a_handoff(
    scales: DisplayScales,
    zeroed: bool,
    after: DisplayScales,
    integrated: bool,
)
    requires
        scales.hands_off(zeroed, after),
    ensures
        after.field.peak == scales.field.peak,
        after.arrows.peak == scales.arrows.peak,
        after.integrated == scales.integrated,
        !zeroed ==> after == scales,
        zeroed ==> after.field.level() is None && after.arrows.level() is None
            && after.history.owner is None,
        scales.following(integrated).integrated == integrated,
        scales.following(integrated).arrows == scales.arrows,
        scales.following(integrated).history == scales.history,
        scales.integrated == integrated ==> scales.following(integrated).field == scales.field,
        scales.integrated != integrated ==> scales.following(integrated).field.level() is None
            && scales.following(integrated).field.peak == Scalar::zero_num(),
{
}

/// Whatever a condition is, the picker offers the name it is shown under, once; and
/// what it offers is shown under its own name.
pub proof fn a_picker_offers_what_it_shows(kind: BoundaryKind, physics: PhysicsModel)
    ensures
        BoundaryKind::offered(physics).contains(kind.shown(physics)),
        BoundaryKind::offered(physics).no_duplicates(),
        BoundaryKind::offered(physics).contains(kind) <==> kind.shown(physics) == kind,
        physics is Mechanical ==> (BoundaryKind::offered(physics).contains(kind) <==> kind
            !is ElectricWall && kind !is MagneticWall),
        physics is Electromagnetic ==> (BoundaryKind::offered(physics).contains(kind) <==> kind
            !is Reflecting),
{
    let offered = BoundaryKind::offered(physics);
    if physics is Mechanical {
        assert(offered[0] is Reflecting && offered[1] is FirstOrder && offered[2] is SecondOrder
            && offered[3] is Neumann && offered[4] is Dirichlet);
    } else {
        assert(offered[0] is ElectricWall && offered[1] is MagneticWall && offered[2] is FirstOrder
            && offered[3] is SecondOrder && offered[4] is Neumann && offered[5] is Dirichlet);
    }
}

/// The wall at which the axial field is free is the magnetic one where that field
/// is the electric one, and the electric one where it is the magnetic one; what is
/// no wall keeps its name.
pub proof fn a_free_boundary_is_the_wall_of_the_other_field(
    kind: BoundaryKind,
    polarization: ElectromagneticPolarization,
)
    ensures
        ({
            let shown = kind.shown(PhysicsModel::Electromagnetic { polarization });
            &&& kind is Reflecting && polarization is Tm ==> shown is MagneticWall
            &&& kind is Reflecting && polarization is Te ==> shown is ElectricWall
            &&& kind !is Reflecting ==> shown == kind
        }),
        ({
            let shown = kind.shown(PhysicsModel::Mechanical);
            &&& kind is ElectricWall ==> shown is Dirichlet
            &&& kind is MagneticWall ==> shown is Reflecting
            &&& kind !is ElectricWall && kind !is MagneticWall ==> shown == kind
        }),
{
}

/// A condition is of the kind that it is called by, on a face as on a side.
pub proof fn a_condition_is_of_its_own_kind(
    face: FaceBoundaryCondition,
    outer: OuterBoundaryCondition,
)
    ensures
        kind_of_face(face) is Reflecting <==> face is Reflecting,
        kind_of_face(face) is FirstOrder <==> face is Impedance,
        kind_of_face(face) is SecondOrder <==> face is SecondOrderOutgoing,
        kind_of_face(face) is ElectricWall <==> face is ElectricWall,
        kind_of_face(face) is MagneticWall <==> face is MagneticWall,
        kind_of_face(face) is Neumann <==> face is Neumann,
        kind_of_face(face) is Dirichlet <==> face is Dirichlet,
        kind_of_outer(outer) is Reflecting <==> outer is Reflecting,
        kind_of_outer(outer) is FirstOrder <==> outer is FirstOrderOutgoing,
        kind_of_outer(outer) is SecondOrder <==> outer is SecondOrderOutgoing,
        kind_of_outer(outer) is ElectricWall <==> outer is ElectricWall,
        kind_of_outer(outer) is MagneticWall <==> outer is MagneticWall,
        kind_of_outer(outer) is Neumann <==> outer is Neumann,
        kind_of_outer(outer) is Dirichlet <==> outer is Dirichlet,
{
}

/// A condition that is newly chosen matches the medium, and a newly prescribed one
/// swings about zero with a unit amplitude once a second, from zero.
pub proof fn a_chosen_condition_starts_plainly(kind: BoundaryKind)
    ensures
        first_face(kind) matches FaceBoundaryCondition::Impedance { ratio } ==> ratio.bits
            == 0x3ff0_0000_0000_0000,
        first_face(kind) matches FaceBoundaryCondition::Neumann { signal } ==> signal
            == first_signal(),
        first_face(kind) matches FaceBoundaryCondition::Dirichlet { signal } ==> signal
            == first_signal(),
        first_outer(kind) matches OuterBoundaryCondition::Neumann { signal } ==> signal
            == first_signal(),
        first_outer(kind) matches OuterBoundaryCondition::Dirichlet { signal } ==> signal
            == first_signal(),
        first_signal().offset.bits == 0,
        first_signal().phase_radians.bits == 0,
        first_signal().amplitude.bits == 0x3ff0_0000_0000_0000,
        first_signal().frequency_hz.bits == 0x3ff0_0000_0000_0000,
{
}

/// A signal forces the field exactly where it is prescribed: on one of the four
/// sides, on a face of a separated span, or by a volume source that is on.
pub proof fn every_prescribed_signal_forces(scene: TopologyScene, signal: TimeSignal)
    ensures
        forcing_of(scene).contains(signal) <==> {
            ||| prescribes(scene.outer_boundaries.bottom, signal)
            ||| prescribes(scene.outer_boundaries.right, signal)
            ||| prescribes(scene.outer_boundaries.top, signal)
            ||| prescribes(scene.outer_boundaries.left, signal)
            ||| exists|c: int, s: int|
                0 <= c < scene.geometry.curves@.len() && 0 <= s
                    < scene.geometry.curves@[c].spans@.len() && separates_with(
                    #[trigger] scene.geometry.curves@[c].spans@[s].behavior,
                    signal,
                )
            ||| exists|i: int|
                0 <= i < scene.volume_sources@.len() && (#[trigger] scene.volume_sources@[i]).enabled
                    && scene.volume_sources@[i].signal == signal
        },
{
    let sides = scene.outer_boundaries;
    a_side_forces(sides.bottom, signal);
    a_side_forces(sides.right, signal);
    a_side_forces(sides.top, signal);
    a_side_forces(sides.left, signal);
    curves_force(scene.geometry.curves@, signal);
    sources_force(scene.volume_sources@, signal);
    let one = outer_signal(sides.bottom) + outer_signal(sides.right);
    let two = one + outer_signal(sides.top);
    let three = two + outer_signal(sides.left);
    let four = three + curve_signals(scene.geometry.curves@);
    in_one_of_two(outer_signal(sides.bottom), outer_signal(sides.right), signal);
    in_one_of_two(one, outer_signal(sides.top), signal);
    in_one_of_two(two, outer_signal(sides.left), signal);
    in_one_of_two(three, curve_signals(scene.geometry.curves@), signal);
    in_one_of_two(four, source_signals(scene.volume_sources@), signal);
}

/// Whether a side prescribes a signal.
pub open spec fn prescribes(condition: OuterBoundaryCondition, signal: TimeSignal) -> bool {
    condition == (OuterBoundaryCondition::Neumann { signal }) || condition == (
    OuterBoundaryCondition::Dirichlet { signal })
}

/// Whether a span is separated and prescribes a signal on one of its faces.
pub open spec fn separates_with(behavior: SpanBehavior, signal: TimeSignal) -> bool {
    let neumann = FaceBoundaryCondition::Neumann { signal };
    let dirichlet = FaceBoundaryCondition::Dirichlet { signal };
    match behavior {
        SpanBehavior::Transmitting => false,
        SpanBehavior::Separated { left, right, .. } => left == neumann || left == dirichlet
            || right == neumann || right == dirichlet,
    }
}

proof fn in_one_of_two<A>(left: Seq<A>, right: Seq<A>, item: A)
    ensures
        (left + right).contains(item) <==> left.contains(item) || right.contains(item),
{
    let all = left + right;
    if left.contains(item) {
        assert(all[left.index_of(item)] == item);
    }
    if right.contains(item) {
        assert(all[left.len() + right.index_of(item)] == item);
    }
    if all.contains(item) {
        let i = all.index_of(item);
        if i < left.len() {
            assert(left[i] == item);
        } else {
            assert(right[i - left.len()] == item);
        }
    }
}

proof fn a_side_forces(condition: OuterBoundaryCondition, signal: TimeSignal)
    ensures
        outer_signal(condition).contains(signal) <==> prescribes(condition, signal),
{
    if prescribes(condition, signal) {
        assert(outer_signal(condition)[0] == signal);
    }
}

proof fn a_face_forces(condition: FaceBoundaryCondition, signal: TimeSignal)
    ensures
        face_signal(condition).contains(signal) <==> condition == (FaceBoundaryCondition::Neumann {
            signal,
        }) || condition == (FaceBoundaryCondition::Dirichlet { signal }),
{
    if condition == (FaceBoundaryCondition::Neumann { signal }) || condition == (
    FaceBoundaryCondition::Dirichlet { signal }) {
        assert(face_signal(condition)[0] == signal);
    }
}

proof fn spans_force(curve: TopologyCurve, count: nat, signal: TimeSignal)
    requires
        count <= curve.spans@.len(),
    ensures
        span_signals(curve, count).contains(signal) <==> exists|s: int|
            0 <= s < count && separates_with(#[trigger] curve.spans@[s].behavior, signal),
    decreases count,
{
    if count > 0 {
        let behavior = curve.spans@[count - 1].behavior;
        spans_force(curve, (count - 1) as nat, signal);
        in_one_of_two(
            span_signals(curve, (count - 1) as nat),
            behavior_signals(behavior),
            signal,
        );
        if let SpanBehavior::Separated { left, right, .. } = behavior {
            a_face_forces(left, signal);
            a_face_forces(right, signal);
            in_one_of_two(face_signal(left), face_signal(right), signal);
        }
        assert(behavior_signals(behavior).contains(signal) <==> separates_with(behavior, signal));
    }
}

proof fn curves_force(curves: Seq<TopologyCurve>, signal: TimeSignal)
    ensures
        curve_signals(curves).contains(signal) <==> exists|c: int, s: int|
            0 <= c < curves.len() && 0 <= s < curves[c].spans@.len() && separates_with(
                #[trigger] curves[c].spans@[s].behavior,
                signal,
            ),
    decreases curves.len(),
{
    if curves.len() > 0 {
        let front = curves.drop_last();
        let last = curves.last();
        curves_force(front, signal);
        spans_force(last, last.spans@.len(), signal);
        in_one_of_two(curve_signals(front), span_signals(last, last.spans@.len()), signal);
        if curve_signals(front).contains(signal) {
            let (c, s) = choose|c: int, s: int|
                0 <= c < front.len() && 0 <= s < front[c].spans@.len() && separates_with(
                    #[trigger] front[c].spans@[s].behavior,
                    signal,
                );
            assert(separates_with(curves[c].spans@[s].behavior, signal));
        }
        if span_signals(last, last.spans@.len()).contains(signal) {
            let s = choose|s: int|
                0 <= s < last.spans@.len() && separates_with(
                    #[trigger] last.spans@[s].behavior,
                    signal,
                );
            assert(separates_with(curves[curves.len() - 1].spans@[s].behavior, signal));
        }
        if exists|c: int, s: int|
            0 <= c < curves.len() && 0 <= s < curves[c].spans@.len() && separates_with(
                #[trigger] curves[c].spans@[s].behavior,
                signal,
            ) {
            let (c, s) = choose|c: int, s: int|
                0 <= c < curves.len() && 0 <= s < curves[c].spans@.len() && separates_with(
                    #[trigger] curves[c].spans@[s].behavior,
                    signal,
                );
            if c < front.len() {
                assert(separates_with(front[c].spans@[s].behavior, signal));
            } else {
                assert(separates_with(last.spans@[s].behavior, signal));
            }
        }
    }
}

proof fn sources_force(sources: Seq<VolumeSource>, signal: TimeSignal)
    ensures
        source_signals(sources).contains(signal) <==> exists|i: int|
            0 <= i < sources.len() && (#[trigger] sources[i]).enabled && sources[i].signal
                == signal,
    decreases sources.len(),
{
    if sources.len() > 0 {
        let front = sources.drop_last();
        let own = if sources.last().enabled {
            seq![sources.last().signal]
        } else {
            Seq::empty()
        };
        sources_force(front, signal);
        in_one_of_two(source_signals(front), own, signal);
        if sources.last().enabled {
            assert(own[0] == sources.last().signal);
            assert(sources[sources.len() - 1].enabled);
        }
        if source_signals(front).contains(signal) {
            let i = choose|i: int|
                0 <= i < front.len() && (#[trigger] front[i]).enabled && front[i].signal == signal;
            assert(sources[i].enabled);
        }
        if exists|i: int|
            0 <= i < sources.len() && (#[trigger] sources[i]).enabled && sources[i].signal
                == signal {
            let i = choose|i: int|
                0 <= i < sources.len() && (#[trigger] sources[i]).enabled && sources[i].signal
                    == signal;
            if i < front.len() {
                assert(front[i].enabled);
            }
        }
    }
}

/// The highest of some frequencies is one of them, and none is higher.
pub proof fn the_highest_frequency_is_not_passed(first: Scalar, ceilings: Seq<Scalar>, i: int)
    requires
        !first.nan(),
        0 <= i < ceilings.len(),
    ensures
        first.le_num(highest(first, ceilings)),
        !ceilings[i].nan() ==> ceilings[i].le_num(highest(first, ceilings)),
        highest(first, ceilings) == first || ceilings.contains(highest(first, ceilings)),
    decreases ceilings.len(),
{
    let front = ceilings.drop_last();
    let before = highest(first, front);
    if front.len() > 0 {
        the_highest_frequency_is_not_passed(
            first,
            front,
            if i < front.len() {
                i
            } else {
                0
            },
        );
        if front.contains(before) {
            assert(ceilings[front.index_of(before)] == before);
        }
    }
    assert(ceilings[ceilings.len() - 1] == ceilings.last());
}

/// The arrow of a cell is a candidate of that cell, and none of them is nearer to
/// its middle; a cell with a candidate has an arrow.
pub proof fn the_arrow_of_a_cell_is_its_nearest(
    candidates: Seq<ArrowCandidate>,
    key: CellKey,
    i: int,
)
    requires
        0 <= i < candidates.len(),
        forall|j: int| 0 <= j < candidates.len() ==> !(#[trigger] candidates[j]).distance.nan(),
    ensures
        arrow_of(candidates, key) matches Some(arrow) ==> arrow.key == key && candidates.contains(
            arrow,
        ) && (candidates[i].key == key ==> arrow.distance.le_num(candidates[i].distance)),
        candidates[i].key == key ==> arrow_of(candidates, key) is Some,
    decreases candidates.len(),
{
    let front = candidates.drop_last();
    let last = candidates.last();
    assert(candidates[candidates.len() - 1] == last);
    if front.len() > 0 {
        assert(forall|j: int| 0 <= j < front.len() ==> front[j] == candidates[j]);
        the_arrow_of_a_cell_is_its_nearest(
            front,
            key,
            if i < front.len() {
                i
            } else {
                0
            },
        );
        if let Some(arrow) = arrow_of(front, key) {
            assert(candidates[front.index_of(arrow)] == arrow);
        }
    }
}

/// A layout is prepared only while a property is overlaid on an active field; a
/// current one is used as it is, and work for an older one is never advanced.
pub proof fn an_overlay_works_only_on_what_is_shown(state: OverlayState, frame: OverlayFrame)
    ensures
        ({
            let (step, after) = state.refreshed(frame);
            let due = frame.overlay is Property && frame.active && !frame.snapshot_current;
            &&& step is Start <==> due && !frame.job_current
            &&& step is Advance <==> due && frame.job_current
            &&& step is Done <==> !due
            &&& due ==> after == state
            &&& frame.overlay !is Property ==> after.job is None
            &&& frame.overlay is Property && frame.active && frame.snapshot_current
                ==> after.job is None
            &&& after.snapshot == state.snapshot
        }),
{
}

/// The diagnostics remember the last frames, in their order, and the largest of
/// them is one that no other exceeds.
pub proof fn the_last_frames_are_remembered(history: Seq<Scalar>, frame_ms: Scalar, i: int)
    requires
        history.len() <= FRAME_HISTORY,
    ensures
        ({
            let after = remembered(history, frame_ms);
            let taken = frame_ms.finite() && Scalar::zero_num().lt_num(frame_ms);
            &&& after.len() <= FRAME_HISTORY
            &&& !taken ==> after == history
            &&& taken ==> after.last() == frame_ms && after.drop_last() == history.skip(
                history.len() + 1 - after.len(),
            )
            &&& taken && history.len() < FRAME_HISTORY ==> after.len() == history.len() + 1
        }),
        0 <= i < history.len() && !history[i].nan() ==> history[i].le_num(largest(history)),
        Scalar::zero_num().le_num(largest(history)),
        largest(history) == Scalar::zero_num() || history.contains(largest(history)),
    decreases history.len(),
{
    if history.len() > 0 {
        let front = history.drop_last();
        the_last_frames_are_remembered(front, frame_ms, i);
        if front.contains(largest(front)) {
            assert(history[front.index_of(largest(front))] == largest(front));
        }
        assert(history[history.len() - 1] == history.last());
    }
    let after = remembered(history, frame_ms);
    if crate::windows::counts(frame_ms) {
        if history.len() == FRAME_HISTORY {
            assert(after.drop_last() =~= history.skip(1));
        } else {
            assert(after.drop_last() =~= history.skip(0));
        }
    }
}

/// A layout is possible for a mesh that is whole and a spacing that is there, and a
/// lattice is carried where the view has a size, a place and a spacing.
pub proof fn arrows_need_a_spacing(
    triangles: usize,
    element_nodes: usize,
    world_spacing: Scalar,
    scale: Scalar,
    pixel_spacing: Scalar,
    center: Point2,
    has_area: bool,
)
    ensures
        layout_possible(triangles, element_nodes, world_spacing) <==> triangles == element_nodes
            && world_spacing.finite() && world_spacing.place() > 0,
        carries_lattice(scale, pixel_spacing, center, has_area) <==> has_area && scale.finite()
            && scale.place() > 0 && pixel_spacing.finite() && pixel_spacing.place() > 0
            && center.x.finite() && center.y.finite(),
{
}

/// Arrows are drawn where there is material, and nowhere else.
pub proof fn arrows_lie_in_material(
    arrows: Seq<ArrowCandidate>,
    material: Seq<bool>,
    arrow: ArrowCandidate,
)
    ensures
        with_material(arrows, material).contains(arrow) <==> arrows.contains(arrow)
            && material[arrow.element as int],
{
    a_filter_keeps_what_passes(
        arrows,
        |arrow: ArrowCandidate| material[arrow.element as int],
        arrow,
    );
}

/// A filter keeps what passes it, and nothing else.
pub proof fn a_filter_keeps_what_passes<A>(items: Seq<A>, passes: spec_fn(A) -> bool, item: A)
    ensures
        items.filter(passes).contains(item) <==> items.contains(item) && passes(item),
    decreases items.len(),
{
    reveal(Seq::filter);
    if items.len() > 0 {
        let front = items.drop_last();
        let earlier = front.filter(passes);
        let all = items.filter(passes);
        a_filter_keeps_what_passes(front, passes, item);
        assert(items[items.len() - 1] == items.last());
        if items.contains(item) {
            let i = items.index_of(item);
            if i < front.len() {
                assert(front[i] == item);
            }
        }
        if front.contains(item) {
            assert(items[front.index_of(item)] == item);
        }
        if earlier.contains(item) {
            assert(all[earlier.index_of(item)] == item);
        }
        if all.contains(item) {
            let i = all.index_of(item);
            if i < earlier.len() {
                assert(earlier[i] == item);
            }
        }
        if passes(items.last()) {
            assert(all[earlier.len() as int] == items.last());
        }
    }
}

/// A span that transmits is no boundary, whatever is set on a separated one.
pub proof fn a_separated_span_is_a_boundary(behavior: SpanBehavior)
    ensures
        state_of(behavior) is Transmit <==> behavior is Transmitting,
        state_of(behavior) is Boundary <==> behavior is Separated,
{
}

} // verus!
