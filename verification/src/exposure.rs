//! Automatic field exposure: the level the colours are relative to, how it rises
//! and releases, and the floor below which a decayed field fades. The products
//! of levels and rates are taken by the application.

use crate::hits::ScreenPoint;
use crate::model::PhysicsModel;
use crate::scalar::{Point2, Scalar};
use crate::shuffle::{gathered, the_order_gathers_the_same};
use std::collections::BTreeMap;
use vstd::multiset::Multiset;
use vstd::prelude::*;

verus! {

/// How many values a level is measured from.
pub const EXPOSURE_SAMPLES: usize = 4096;

/// The bits of the sign of a number.
pub const SIGN_BIT: u64 = 0x8000000000000000;

/// A number without its sign.
pub open spec fn absolute(value: Scalar) -> Scalar {
    Scalar { bits: value.magnitude() as u64 }
}

fn without_sign(value: Scalar) -> (result: Scalar)
    ensures
        result == absolute(value),
{
    if value.bits >= SIGN_BIT {
        Scalar { bits: value.bits - SIGN_BIT }
    } else {
        value
    }
}

/// How far apart the values lie that are measured.
pub open spec fn stride_of(count: nat) -> nat {
    let stride = (count + EXPOSURE_SAMPLES - 1) / EXPOSURE_SAMPLES as int;
    if stride < 1 {
        1
    } else {
        stride as nat
    }
}

/// The magnitudes of the finite ones among the values at multiples of a stride,
/// up to a place.
pub open spec fn measured(values: Seq<Scalar>, stride: nat, upto: nat) -> Seq<Scalar>
    decreases upto,
{
    if upto == 0 {
        Seq::empty()
    } else {
        let last = (upto - 1) as int;
        let earlier = measured(values, stride, (upto - 1) as nat);
        if last % (stride as int) == 0 && absolute(values[last]).finite() {
            earlier.push(absolute(values[last]))
        } else {
            earlier
        }
    }
}

/// The values that a level is measured from: a strided sample of the field,
/// without signs.
pub fn exposure_samples(values: &Vec<Scalar>) -> (result: Vec<Scalar>)
    requires
        values@.len() + EXPOSURE_SAMPLES <= usize::MAX,
    ensures
        result@ == measured(values@, stride_of(values@.len()), values@.len()),
        forall|i: int|
            0 <= i < result@.len() ==> (#[trigger] result@[i]).finite() && result@[i].bits
                < SIGN_BIT,
{
    let rounded: usize = (values.len() + EXPOSURE_SAMPLES - 1) / EXPOSURE_SAMPLES;
    let stride: usize = if rounded < 1 {
        1
    } else {
        rounded
    };
    let mut samples: Vec<Scalar> = Vec::new();
    let mut index: usize = 0;
    while index < values.len()
        invariant
            index <= values@.len(),
            stride == stride_of(values@.len()),
            stride >= 1,
            samples@ == measured(values@, stride as nat, index as nat),
            forall|i: int|
                0 <= i < samples@.len() ==> (#[trigger] samples@[i]).finite() && samples@[i].bits
                    < SIGN_BIT,
        decreases values@.len() - index,
    {
        if index % stride == 0 {
            let value: Scalar = without_sign(values[index]);
            if value.is_finite() {
                samples.push(value);
            }
        }
        index = index + 1;
    }
    samples
}

/// How many of some values are at most a bound, by their bits.
pub open spec fn count_at_most(samples: Seq<Scalar>, bound: int) -> nat
    decreases samples.len(),
{
    if samples.len() == 0 {
        0
    } else {
        count_at_most(samples.drop_last(), bound) + if samples.last().bits <= bound {
            1nat
        } else {
            0nat
        }
    }
}

fn counted(samples: &Vec<Scalar>, bound: u64) -> (result: usize)
    ensures
        result == count_at_most(samples@, bound as int),
{
    let mut count: usize = 0;
    let mut index: usize = 0;
    while index < samples.len()
        invariant
            index <= samples@.len(),
            count <= index,
            count == count_at_most(samples@.take(index as int), bound as int),
        decreases samples@.len() - index,
    {
        assert(samples@.take(index + 1).drop_last() =~= samples@.take(index as int));
        if samples[index].bits <= bound {
            count = count + 1;
        }
        index = index + 1;
    }
    assert(samples@.take(index as int) =~= samples@);
    count
}

proof fn counts_grow(samples: Seq<Scalar>, low: int, high: int)
    requires
        low <= high,
    ensures
        count_at_most(samples, low) <= count_at_most(samples, high),
        count_at_most(samples, high) <= samples.len(),
    decreases samples.len(),
{
    if samples.len() > 0 {
        counts_grow(samples.drop_last(), low, high);
    }
}

proof fn nothing_is_below_zero(samples: Seq<Scalar>)
    ensures
        count_at_most(samples, -1) == 0,
    decreases samples.len(),
{
    if samples.len() > 0 {
        nothing_is_below_zero(samples.drop_last());
    }
}

proof fn everything_is_below_the_sign(samples: Seq<Scalar>)
    requires
        forall|i: int| 0 <= i < samples.len() ==> (#[trigger] samples[i]).bits < SIGN_BIT,
    ensures
        count_at_most(samples, SIGN_BIT as int) == samples.len(),
    decreases samples.len(),
{
    if samples.len() > 0 {
        let front = samples.drop_last();
        assert forall|i: int| 0 <= i < front.len() implies (#[trigger] front[i]).bits
            < SIGN_BIT by {
            assert(front[i] == samples[i]);
        }
        everything_is_below_the_sign(front);
    }
}

proof fn a_new_count_is_a_sample(samples: Seq<Scalar>, bound: int)
    requires
        count_at_most(samples, bound - 1) < count_at_most(samples, bound),
    ensures
        exists|i: int| 0 <= i < samples.len() && (#[trigger] samples[i]).bits == bound,
    decreases samples.len(),
{
    if samples.len() > 0 {
        let front = samples.drop_last();
        if samples.last().bits == bound {
            assert(samples[samples.len() - 1].bits == bound);
        } else {
            a_new_count_is_a_sample(front, bound);
            let i = choose|i: int| 0 <= i < front.len() && (#[trigger] front[i]).bits == bound;
            assert(samples[i].bits == bound);
        }
    }
}

/// Whether a value stands at a place of the samples in ascending order: no more
/// samples than the place are smaller, and more than the place are at most it.
pub open spec fn stands_at(samples: Seq<Scalar>, value: Scalar, place: int) -> bool {
    &&& exists|i: int| 0 <= i < samples.len() && #[trigger] samples[i] == value
    &&& count_at_most(samples, value.bits - 1) <= place < count_at_most(samples, value.bits as int)
}

/// The sample at a place in ascending order.
pub fn nth_sample(samples: &Vec<Scalar>, place: usize) -> (result: Scalar)
    requires
        place < samples@.len(),
        forall|i: int| 0 <= i < samples@.len() ==> (#[trigger] samples@[i]).bits < SIGN_BIT,
    ensures
        stands_at(samples@, result, place as int),
{
    let mut low: u64 = 0;
    let mut high: u64 = SIGN_BIT;
    proof {
        nothing_is_below_zero(samples@);
        everything_is_below_the_sign(samples@);
    }
    while low < high
        invariant
            low <= high <= SIGN_BIT,
            count_at_most(samples@, low - 1) <= place,
            place < count_at_most(samples@, high as int),
        decreases high - low,
    {
        let middle: u64 = low + (high - low) / 2;
        if counted(samples, middle) > place {
            high = middle;
        } else {
            low = middle + 1;
        }
    }
    proof {
        a_new_count_is_a_sample(samples@, low as int);
        let i = choose|i: int| 0 <= i < samples@.len() && (#[trigger] samples@[i]).bits == low;
        assert(samples@[i] == (Scalar { bits: low }));
    }
    Scalar { bits: low }
}

/// The level of a field: the sample at the quantile's place, zero where there is
/// no sample. `place` is where the quantile lies among so many samples.
pub fn exposure_level(samples: &Vec<Scalar>, place: usize) -> (result: Scalar)
    requires
        samples@.len() > 0 ==> place < samples@.len(),
        forall|i: int| 0 <= i < samples@.len() ==> (#[trigger] samples@[i]).bits < SIGN_BIT,
    ensures
        if samples@.len() == 0 {
            result == Scalar::zero_num()
        } else {
            stands_at(samples@, result, place as int)
        },
{
    if samples.len() == 0 {
        return Scalar::zero();
    }
    nth_sample(samples, place)
}

/// One value stands at a place.
pub proof fn one_value_stands_at_a_place(samples: Seq<Scalar>, a: Scalar, b: Scalar, place: int)
    requires
        stands_at(samples, a, place),
        stands_at(samples, b, place),
    ensures
        a == b,
{
    if a.bits < b.bits {
        counts_grow(samples, a.bits as int, b.bits - 1);
    }
    if b.bits < a.bits {
        counts_grow(samples, b.bits as int, a.bits - 1);
    }
}

/// The samples up to a bound, as what they come to together.
proof fn a_count_gathers_its_samples(samples: Seq<Scalar>, bound: int)
    ensures
        count_at_most(samples, bound) == gathered(samples, part_at_most(bound)).len(),
    decreases samples.len(),
{
    if samples.len() > 0 {
        a_count_gathers_its_samples(samples.drop_last(), bound);
    }
}

spec fn part_at_most(bound: int) -> spec_fn(Scalar) -> Multiset<Scalar> {
    |sample: Scalar|
        if sample.bits <= bound {
            Multiset::singleton(sample)
        } else {
            Multiset::empty()
        }
}

spec fn measured_part() -> spec_fn(Scalar) -> Multiset<Scalar> {
    |value: Scalar|
        if absolute(value).finite() {
            Multiset::singleton(absolute(value))
        } else {
            Multiset::empty()
        }
}

proof fn a_measure_gathers_its_values(values: Seq<Scalar>, upto: nat)
    requires
        upto <= values.len(),
    ensures
        measured(values, 1, upto).to_multiset() == gathered(
            values.take(upto as int),
            measured_part(),
        ),
    decreases upto,
{
    broadcast use vstd::seq_lib::group_to_multiset_ensures;

    let part = measured_part();
    if upto == 0 {
        assert(measured(values, 1, upto).to_multiset() =~= Multiset::empty());
    } else {
        let last = upto - 1;
        let earlier = measured(values, 1, last as nat);
        a_measure_gathers_its_values(values, last as nat);
        assert(values.take(upto as int).drop_last() =~= values.take(last));
        assert(values.take(upto as int).last() == values[last]);
        assert(last % 1 == 0);
        if absolute(values[last]).finite() {
            assert(measured(values, 1, upto) == earlier.push(absolute(values[last])));
            assert(measured(values, 1, upto).to_multiset() =~= earlier.to_multiset().insert(
                absolute(values[last]),
            ));
            assert(earlier.to_multiset().insert(absolute(values[last])) =~= gathered(
                values.take(last),
                part,
            ).add(part(values[last])));
        } else {
            assert(gathered(values.take(last), part).add(part(values[last])) =~= gathered(
                values.take(last),
                part,
            ));
        }
    }
}

/// The level of a field of at most so many values that all of them are measured
/// does not depend on their order: as many of them count, and one value stands at
/// a place.
pub proof fn the_order_of_the_values_does_not_matter(
    values: Seq<Scalar>,
    shuffled: Seq<Scalar>,
    level: Scalar,
    other: Scalar,
    place: int,
)
    requires
        values.len() <= EXPOSURE_SAMPLES,
        values.to_multiset() == shuffled.to_multiset(),
    ensures
        ({
            let samples = measured(values, stride_of(values.len()), values.len());
            let reordered = measured(shuffled, stride_of(shuffled.len()), shuffled.len());
            &&& samples.len() == reordered.len()
            &&& stands_at(samples, level, place) && stands_at(reordered, other, place) ==> level
                == other
        }),
{
    broadcast use vstd::seq_lib::group_to_multiset_ensures;

    assert(values.len() == values.to_multiset().len());
    assert(shuffled.len() == shuffled.to_multiset().len());
    assert(stride_of(values.len()) == 1);
    let samples = measured(values, 1, values.len());
    let reordered = measured(shuffled, 1, shuffled.len());
    assert(values.take(values.len() as int) =~= values);
    assert(shuffled.take(shuffled.len() as int) =~= shuffled);
    a_measure_gathers_its_values(values, values.len());
    a_measure_gathers_its_values(shuffled, shuffled.len());
    the_order_gathers_the_same(values, shuffled, measured_part());
    assert(samples.to_multiset() == reordered.to_multiset());
    assert(samples.len() == samples.to_multiset().len());
    assert(reordered.len() == reordered.to_multiset().len());
    assert forall|bound: int| #[trigger]
        count_at_most(samples, bound) == count_at_most(reordered, bound) by {
        a_count_gathers_its_samples(samples, bound);
        a_count_gathers_its_samples(reordered, bound);
        the_order_gathers_the_same(samples, reordered, part_at_most(bound));
    }
    if stands_at(samples, level, place) && stands_at(reordered, other, place) {
        assert(samples.contains(level));
        assert(reordered.to_multiset().count(level) > 0);
        assert(reordered.contains(level));
        let found = reordered.index_of(level);
        assert(reordered[found] == level);
        assert(count_at_most(reordered, level.bits - 1) == count_at_most(samples, level.bits - 1));
        assert(count_at_most(reordered, level.bits as int) == count_at_most(
            samples,
            level.bits as int,
        ));
        assert(stands_at(reordered, level, place));
        one_value_stands_at_a_place(reordered, level, other, place);
    }
}

/// A display reference level for one measured quantity.
///
/// It rises the instant the field does, so a transient is never clipped, and
/// falls back slowly, but never below a small part of the loudest level seen.
#[derive(Clone, Copy, Debug, PartialEq, Eq, Structural)]
pub struct AutoExposure {
    pub reference: Scalar,
    pub peak: Scalar,
}

impl AutoExposure {
    pub open spec fn none() -> Self {
        AutoExposure { reference: Scalar::zero_num(), peak: Scalar::zero_num() }
    }

    /// Starts the scale again for a field of the same scene that has been
    /// replaced with zeros. How loud the run has been is kept, so that the first
    /// dust of the new field is not painted at full colour.
    pub fn restart(&mut self)
        ensures
            *final(self) == (AutoExposure { reference: Scalar::zero_num(), ..*old(self) }),
    {
        self.reference = Scalar::zero();
    }

    /// Starts a different quantity, or another scene's field.
    pub fn clear(&mut self)
        ensures
            *final(self) == Self::none(),
    {
        self.reference = Scalar::zero();
        self.peak = Scalar::zero();
    }

    pub open spec fn level(self) -> Option<Scalar> {
        if Scalar::zero_num().lt_num(self.reference) {
            Some(self.reference)
        } else {
            None
        }
    }

    pub fn reference(self) -> (result: Option<Scalar>)
        ensures
            result == self.level(),
    {
        if Scalar::zero().less(self.reference) {
            Some(self.reference)
        } else {
            None
        }
    }

    /// Whether a level counts as a measurement.
    pub open spec fn counts(level: Scalar) -> bool {
        level.finite() && Scalar::zero_num().lt_num(level)
    }

    /// The scale after a measured level: `released` is the reference as the time
    /// since the last frame has let it fall, `floor` the least one that the peak
    /// allows.
    pub open spec fn updated(self, level: Scalar, released: Scalar, floor: Scalar) -> Self {
        AutoExposure {
            peak: self.peak.larger_num(level),
            reference: level.larger_num(released).larger_num(floor),
        }
    }

    /// Takes this frame's measured level and answers with the level to divide by.
    /// `release` lets a reference fall by the time since the last frame, `floor`
    /// is the least reference that a peak allows.
    pub fn update<R: Fn(Scalar) -> Scalar, F: Fn(Scalar) -> Scalar>(
        &mut self,
        level: Scalar,
        release: R,
        floor: F,
    ) -> (result: Option<Scalar>)
        requires
            forall|value: Scalar| call_requires(release, (value,)),
            forall|value: Scalar| call_requires(floor, (value,)),
        ensures
            result == final(self).level(),
            if Self::counts(level) {
                exists|released: Scalar, least: Scalar|
                    call_ensures(release, (old(self).reference,), released) && call_ensures(
                        floor,
                        (old(self).peak.larger_num(level),),
                        least,
                    ) && *final(self) == #[trigger] old(self).updated(level, released, least)
            } else {
                *final(self) == *old(self)
            },
    {
        if level.is_finite() && Scalar::zero().less(level) {
            self.peak = self.peak.larger(level);
            let released: Scalar = release(self.reference);
            let least: Scalar = floor(self.peak);
            self.reference = level.larger(released).larger(least);
            assert(*self == old(self).updated(level, released, least));
        }
        self.reference()
    }

    /// Whether anything of a level is shown at all; how much, the quiet floor of
    /// the run decides.
    pub fn visible(self, level: Scalar) -> (result: bool)
        ensures
            result == (Self::counts(level) && Scalar::zero_num().lt_num(self.peak)),
    {
        level.is_finite() && Scalar::zero().less(level) && Scalar::zero().less(self.peak)
    }
}

/// A field is never clipped: the reference is at least the level it was measured
/// at, and at least what the floor asks for.
pub proof fn a_field_is_never_clipped(
    exposure: AutoExposure,
    level: Scalar,
    released: Scalar,
    floor: Scalar,
)
    requires
        AutoExposure::counts(level),
    ensures
        level.le_num(exposure.updated(level, released, floor).reference),
        !floor.nan() ==> floor.le_num(exposure.updated(level, released, floor).reference),
        !released.nan() ==> released.le_num(exposure.updated(level, released, floor).reference),
        exposure.updated(level, released, floor).level() is Some,
{
}

/// The peak only rises.
pub proof fn the_peak_only_rises(
    exposure: AutoExposure,
    level: Scalar,
    released: Scalar,
    floor: Scalar,
)
    requires
        AutoExposure::counts(level),
        !exposure.peak.nan(),
    ensures
        exposure.peak.le_num(exposure.updated(level, released, floor).peak),
        level.le_num(exposure.updated(level, released, floor).peak),
{
}

/// The factor that a value is multiplied by before it becomes colour: the plain
/// gain without automatic exposure, nothing while nothing has been measured, and
/// otherwise the gain relative to the reference, which `relative` is.
pub fn field_scale(gain: Scalar, automatic: bool, relative: Option<Scalar>) -> (result: Scalar)
    ensures
        result == if !automatic {
            gain
        } else {
            match relative {
                Some(scale) => scale,
                None => Scalar::zero_num(),
            }
        },
{
    if !automatic {
        return gain;
    }
    match relative {
        Some(scale) => scale,
        None => Scalar::zero(),
    }
}

/// What the coupling of one arrow remembers of it: what it was shown for, what
/// came of that, and when and where.
#[derive(Clone, Copy, Debug, PartialEq, Eq, Structural)]
pub struct VectorAcState {
    pub input: Point2,
    pub output: Point2,
    pub step: u64,
    pub time: Scalar,
    pub origin: ScreenPoint,
}

/// The field whose arrows are remembered.
#[derive(Clone, Copy, Debug, PartialEq, Eq, Structural)]
pub struct VectorOverlayAcOwner {
    pub mesh_revision: u64,
    pub physics: PhysicsModel,
}

/// What the coupling of the arrows remembers, by arrow, and of which field.
#[derive(Debug)]
pub struct ArrowHistory {
    pub states: BTreeMap<u64, VectorAcState>,
    pub owner: Option<VectorOverlayAcOwner>,
}

impl ArrowHistory {
    pub fn new() -> (result: Self)
        ensures
            result.states@ == Map::<u64, VectorAcState>::empty(),
            result.owner is None,
    {
        ArrowHistory { states: BTreeMap::new(), owner: None }
    }

    /// Remembers an arrow of a field.
    pub fn remember(&mut self, owner: VectorOverlayAcOwner, arrow: u64, state: VectorAcState)
        ensures
            final(self).states@ == old(self).states@.insert(arrow, state),
            final(self).owner == Some(owner),
    {
        self.states.insert(arrow, state);
        self.owner = Some(owner);
    }

    pub fn clear(&mut self)
        ensures
            final(self).states@ == Map::<u64, VectorAcState>::empty(),
            final(self).owner is None,
    {
        self.states.clear();
        self.owner = None;
    }
}

/// The scales of what is shown: of the field, or of its integral, and of the
/// arrows over it, with what their coupling remembers.
#[derive(Debug)]
pub struct DisplayScales {
    pub field: AutoExposure,
    pub arrows: AutoExposure,
    /// Whether the shown field is the integrated one.
    pub integrated: bool,
    pub history: ArrowHistory,
}

impl DisplayScales {
    /// Whether a handoff leads from these scales to others: one that replaced the
    /// field with zeros starts both again and forgets the arrows, any other
    /// changes nothing.
    pub open spec fn hands_off(self, zeroed: bool, after: Self) -> bool {
        if zeroed {
            &&& after.field == (AutoExposure { reference: Scalar::zero_num(), ..self.field })
            &&& after.arrows == (AutoExposure { reference: Scalar::zero_num(), ..self.arrows })
            &&& after.integrated == self.integrated
            &&& after.history.states@ == Map::<u64, VectorAcState>::empty()
            &&& after.history.owner is None
        } else {
            after == self
        }
    }

    /// A handoff brings the same field on a new mesh, and its scales with it. Only
    /// a field that was replaced with zeros starts them again.
    pub fn restart_exposures_after_handoff(&mut self, zeroed: bool)
        ensures
            old(self).hands_off(zeroed, *final(self)),
    {
        if zeroed {
            self.field.restart();
            self.arrows.restart();
            self.history.clear();
        }
    }

    pub open spec fn following(self, integrated: bool) -> Self {
        if self.integrated == integrated {
            self
        } else {
            DisplayScales { field: AutoExposure::none(), integrated, ..self }
        }
    }

    /// The integrated field and the field are measured apart: showing one after
    /// the other starts the scale of the field again.
    pub fn follow_field_quantity(&mut self, integrated: bool)
        ensures
            *final(self) == old(self).following(integrated),
    {
        if self.integrated != integrated {
            self.field.clear();
            self.integrated = integrated;
        }
    }
}

/// Asking for the quantity that is shown already, as every frame does, keeps its
/// scale; a handoff that zeroes nothing keeps everything, and no handoff forgets
/// how loud the run has been.
pub proof fn scales_carry_over(
    scales: DisplayScales,
    integrated: bool,
    zeroed: bool,
    after: DisplayScales,
)
    requires
        scales.hands_off(zeroed, after),
    ensures
        !zeroed ==> after == scales,
        after.field.peak == scales.field.peak,
        after.arrows.peak == scales.arrows.peak,
        scales.following(integrated).following(integrated) == scales.following(integrated),
{
}

} // verus!
