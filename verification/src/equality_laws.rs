//! When two values of the document agree: in every part of them.

use crate::alike::Alike;
use crate::display_laws::a_filter_keeps_what_passes;
use crate::model::{
    AuthoredFaceAssignment, CoefficientLaw, CurveSpan, CurveSpline, DampingLaw, DomainRect,
    FaceAnchor, FaceBoundaryCondition, FieldLaw, InternalBoundaryCoupling, LossChannel, Material,
    MaterialFrame, MaterialParameter, OuterBoundaryCondition, OuterBoundaryConditions,
    PointSource, RateLaw, Region, RestoringLaw, Rgb, ScalarField, SpanBehavior, SplineData,
    TimeDrive, TimeSignal, TopologyBoundaryProbeTarget, TopologyCurve, TopologyGeometry,
    TopologyProbeDefinition, TopologyProbeTarget, TopologyScene, TopologyVertex,
    TopologyVertexLocation, VolumeSource,
};
use crate::scene_equality::{enabled_signals_of, same_volume_layout, same_volume_source_but_signal};
use vstd::prelude::*;

verus! {

/// Lists agree item by item, and values that may be missing are missing together.
pub proof fn lists_agree_item_by_item<T: Alike>(
    list: Vec<T>,
    other_list: Vec<T>,
    item: Option<T>,
    other_item: Option<T>,
)
    ensures
        list.alike(other_list) <==> list@.len() == other_list@.len() && forall|i: int|
            0 <= i < list@.len() ==> (#[trigger] list@[i]).alike(other_list@[i]),
        item.alike(other_item) <==> {
            ||| item is None && other_item is None
            ||| item is Some && other_item is Some && item->0.alike(other_item->0)
        },
{
}

/// Two fields agree if they are the same constant, or written the same.
pub proof fn scalar_fields_agree_in_every_part(a: ScalarField, b: ScalarField)
    ensures
        a.alike(b) <==> {
            ||| {
                &&& a is Constant
                &&& b is Constant
                &&& a->Constant_0.eq_num(b->Constant_0)
            }
            ||| {
                &&& a is Formula
                &&& b is Formula
                &&& a->Formula_0@ == b->Formula_0@
            }
        },
{
}

/// Two parameters agree in their name and their value.
pub proof fn material_parameters_agree_in_every_part(a: MaterialParameter, b: MaterialParameter)
    ensures
        a.alike(b) <==> {
            &&& a.name@ == b.name@
            &&& a.value.eq_num(b.value)
        },
{
}

/// Two field laws agree in their shape and in every coefficient of it.
pub proof fn field_laws_agree_in_every_part(a: FieldLaw, b: FieldLaw)
    ensures
        a.alike(b) <==> {
            ||| {
                &&& a is Linear
                &&& b is Linear
            }
            ||| {
                &&& a is Polynomial
                &&& b is Polynomial
                &&& a->Polynomial_chi1.alike(b->Polynomial_chi1)
                &&& a->Polynomial_chi2.alike(b->Polynomial_chi2)
                &&& a->Polynomial_amplitude_bound.alike(b->Polynomial_amplitude_bound)
            }
            ||| {
                &&& a is Saturable
                &&& b is Saturable
                &&& a->Saturable_chi.alike(b->Saturable_chi)
                &&& a->Saturable_saturation.alike(b->Saturable_saturation)
            }
        },
{
}

/// Two drives agree in their shape and in every number of it.
pub proof fn time_drives_agree_in_every_part(a: TimeDrive, b: TimeDrive)
    ensures
        a.alike(b) <==> {
            ||| {
                &&& a is Absent
                &&& b is Absent
            }
            ||| {
                &&& a is ParametricPump
                &&& b is ParametricPump
                &&& a->ParametricPump_depth.alike(b->ParametricPump_depth)
                &&& a->ParametricPump_frequency_hz.alike(b->ParametricPump_frequency_hz)
                &&& a->ParametricPump_phase_radians.alike(b->ParametricPump_phase_radians)
            }
            ||| {
                &&& a is TimeCrystal
                &&& b is TimeCrystal
                &&& a->TimeCrystal_depth.alike(b->TimeCrystal_depth)
                &&& a->TimeCrystal_frequency_hz.alike(b->TimeCrystal_frequency_hz)
                &&& a->TimeCrystal_phase_radians.alike(b->TimeCrystal_phase_radians)
                &&& a->TimeCrystal_sharpness.alike(b->TimeCrystal_sharpness)
            }
            ||| {
                &&& a is TravellingModulation
                &&& b is TravellingModulation
                &&& a->TravellingModulation_depth.alike(b->TravellingModulation_depth)
                &&& a->TravellingModulation_frequency_hz.alike(b->TravellingModulation_frequency_hz)
                &&& a->TravellingModulation_phase_radians.alike(
                    b->TravellingModulation_phase_radians,
                )
                &&& a->TravellingModulation_wavenumber.alike(b->TravellingModulation_wavenumber)
                &&& a->TravellingModulation_angle_radians.alike(
                    b->TravellingModulation_angle_radians,
                )
            }
        },
{
}

/// Two coefficient laws agree in how they depend on the field, how they are
/// driven, what they switch to and which way they act.
pub proof fn coefficient_laws_agree_in_every_part(a: CoefficientLaw, b: CoefficientLaw)
    ensures
        a.alike(b) <==> {
            &&& a.field.alike(b.field)
            &&& a.drive.alike(b.drive)
            &&& a.alternate.alike(b.alternate)
            &&& a.inverted == b.inverted
        },
{
}

/// Two rate laws agree in their shape and in every coefficient of it.
pub proof fn rate_laws_agree_in_every_part(a: RateLaw, b: RateLaw)
    ensures
        a.alike(b) <==> {
            ||| {
                &&& a is Constant
                &&& b is Constant
            }
            ||| {
                &&& a is SaturableAbsorption
                &&& b is SaturableAbsorption
                &&& a->SaturableAbsorption_saturation.alike(b->SaturableAbsorption_saturation)
            }
            ||| {
                &&& a is Polynomial
                &&& b is Polynomial
                &&& a->Polynomial_beta1.alike(b->Polynomial_beta1)
                &&& a->Polynomial_beta2.alike(b->Polynomial_beta2)
                &&& a->Polynomial_amplitude_bound.alike(b->Polynomial_amplitude_bound)
            }
            ||| {
                &&& a is VanDerPol
                &&& b is VanDerPol
                &&& a->VanDerPol_threshold.alike(b->VanDerPol_threshold)
                &&& a->VanDerPol_amplitude_bound.alike(b->VanDerPol_amplitude_bound)
            }
        },
{
}

/// Two damping laws agree in their rate and their drive.
pub proof fn damping_laws_agree_in_every_part(a: DampingLaw, b: DampingLaw)
    ensures
        a.alike(b) <==> {
            &&& a.rate.alike(b.rate)
            &&& a.drive.alike(b.drive)
        },
{
}

/// Two loss channels agree in their base rate and their law.
pub proof fn loss_channels_agree_in_every_part(a: LossChannel, b: LossChannel)
    ensures
        a.alike(b) <==> {
            &&& a.base_rate.alike(b.base_rate)
            &&& a.law.alike(b.law)
        },
{
}

/// Two restoring laws agree in their shape and in every coefficient of it.
pub proof fn restoring_laws_agree_in_every_part(a: RestoringLaw, b: RestoringLaw)
    ensures
        a.alike(b) <==> {
            ||| {
                &&& a is Absent
                &&& b is Absent
            }
            ||| {
                &&& a is KleinGordon
                &&& b is KleinGordon
                &&& a->KleinGordon_omega0.alike(b->KleinGordon_omega0)
            }
            ||| {
                &&& a is SineGordon
                &&& b is SineGordon
                &&& a->SineGordon_omega0.alike(b->SineGordon_omega0)
            }
            ||| {
                &&& a is Phi4
                &&& b is Phi4
                &&& a->Phi4_lambda.alike(b->Phi4_lambda)
                &&& a->Phi4_amplitude_bound.alike(b->Phi4_amplitude_bound)
            }
        },
{
}

/// Two materials agree in everything that is written of them.
pub proof fn materials_agree_in_every_part(a: Material, b: Material)
    ensures
        a.alike(b) <==> {
            &&& a.id == b.id
            &&& a.name@ == b.name@
            &&& a.mass_density.alike(b.mass_density)
            &&& a.stiffness.alike(b.stiffness)
            &&& a.damping.alike(b.damping)
            &&& a.axis_ratio.alike(b.axis_ratio)
            &&& a.parameters.alike(b.parameters)
            &&& a.color.alike(b.color)
            &&& a.mass_law.alike(b.mass_law)
            &&& a.stiffness_law.alike(b.stiffness_law)
            &&& a.electric_loss.alike(b.electric_loss)
            &&& a.magnetic_loss.alike(b.magnetic_loss)
            &&& a.restoring.alike(b.restoring)
            &&& a.switch_ramp.eq_num(b.switch_ramp)
        },
{
}

/// Two colours agree in each of their parts.
pub proof fn colours_agree_in_every_part(a: Rgb, b: Rgb)
    ensures
        a.alike(b) <==> {
            &&& a.red == b.red
            &&& a.green == b.green
            &&& a.blue == b.blue
        },
{
}

/// Two frames agree in where they stand, how they are turned and what they are
/// attached to.
pub proof fn material_frames_agree_in_every_part(a: MaterialFrame, b: MaterialFrame)
    ensures
        a.alike(b) <==> {
            &&& a.origin.x.eq_num(b.origin.x)
            &&& a.origin.y.eq_num(b.origin.y)
            &&& a.angle_radians.eq_num(b.angle_radians)
            &&& a.attachment == b.attachment
        },
{
}

/// Two regions agree in their number, their material and their frame.
pub proof fn regions_agree_in_every_part(a: Region, b: Region)
    ensures
        a.alike(b) <==> {
            &&& a.id == b.id
            &&& a.material == b.material
            &&& a.frame.alike(b.frame)
        },
{
}

/// Two anchors agree in what they lie on, on which side and where.
pub proof fn face_anchors_agree_in_every_part(a: FaceAnchor, b: FaceAnchor)
    ensures
        a.alike(b) <==> {
            ||| {
                &&& a is Outer
                &&& b is Outer
                &&& a->Outer_side == b->Outer_side
                &&& a->Outer_fraction.eq_num(b->Outer_fraction)
            }
            ||| {
                &&& a is Curve
                &&& b is Curve
                &&& a->Curve_curve == b->Curve_curve
                &&& a->Curve_span == b->Curve_span
                &&& a->Curve_side == b->Curve_side
                &&& a->Curve_parameter.eq_num(b->Curve_parameter)
            }
        },
{
}

/// Two assignments agree in their anchor and their region.
pub proof fn face_assignments_agree_in_every_part(
    a: AuthoredFaceAssignment,
    b: AuthoredFaceAssignment,
)
    ensures
        a.alike(b) <==> {
            &&& a.anchor.alike(b.anchor)
            &&& a.region.alike(b.region)
        },
{
}

/// Two signals agree in each of their numbers.
pub proof fn time_signals_agree_in_every_part(a: TimeSignal, b: TimeSignal)
    ensures
        a.alike(b) <==> {
            &&& a.offset.eq_num(b.offset)
            &&& a.amplitude.eq_num(b.amplitude)
            &&& a.frequency_hz.eq_num(b.frequency_hz)
            &&& a.phase_radians.eq_num(b.phase_radians)
        },
{
}

/// Two conditions of a face agree in their kind and in what it prescribes.
pub proof fn face_conditions_agree_in_every_part(a: FaceBoundaryCondition, b: FaceBoundaryCondition)
    ensures
        a.alike(b) <==> {
            ||| {
                &&& a is Reflecting
                &&& b is Reflecting
            }
            ||| {
                &&& a is Impedance
                &&& b is Impedance
                &&& a->Impedance_ratio.eq_num(b->Impedance_ratio)
            }
            ||| {
                &&& a is SecondOrderOutgoing
                &&& b is SecondOrderOutgoing
            }
            ||| {
                &&& a is ElectricWall
                &&& b is ElectricWall
            }
            ||| {
                &&& a is MagneticWall
                &&& b is MagneticWall
            }
            ||| {
                &&& a is Neumann
                &&& b is Neumann
                &&& a->Neumann_signal.alike(b->Neumann_signal)
            }
            ||| {
                &&& a is Dirichlet
                &&& b is Dirichlet
                &&& a->Dirichlet_signal.alike(b->Dirichlet_signal)
            }
        },
{
}

/// Two conditions of a wall agree in their kind and in what it prescribes.
pub proof fn outer_conditions_agree_in_every_part(
    a: OuterBoundaryCondition,
    b: OuterBoundaryCondition,
)
    ensures
        a.alike(b) <==> {
            ||| {
                &&& a is Reflecting
                &&& b is Reflecting
            }
            ||| {
                &&& a is FirstOrderOutgoing
                &&& b is FirstOrderOutgoing
            }
            ||| {
                &&& a is SecondOrderOutgoing
                &&& b is SecondOrderOutgoing
            }
            ||| {
                &&& a is ElectricWall
                &&& b is ElectricWall
            }
            ||| {
                &&& a is MagneticWall
                &&& b is MagneticWall
            }
            ||| {
                &&& a is Neumann
                &&& b is Neumann
                &&& a->Neumann_signal.alike(b->Neumann_signal)
            }
            ||| {
                &&& a is Dirichlet
                &&& b is Dirichlet
                &&& a->Dirichlet_signal.alike(b->Dirichlet_signal)
            }
        },
{
}

/// The walls of two domains agree side by side.
pub proof fn outer_walls_agree_in_every_part(a: OuterBoundaryConditions, b: OuterBoundaryConditions)
    ensures
        a.alike(b) <==> {
            &&& a.bottom.alike(b.bottom)
            &&& a.right.alike(b.right)
            &&& a.top.alike(b.top)
            &&& a.left.alike(b.left)
        },
{
}

/// Two couplings agree in their kind and in its stiffness.
pub proof fn couplings_agree_in_every_part(a: InternalBoundaryCoupling, b: InternalBoundaryCoupling)
    ensures
        a.alike(b) <==> {
            ||| {
                &&& a is Independent
                &&& b is Independent
            }
            ||| {
                &&& a is ThinGap
                &&& b is ThinGap
                &&& a->ThinGap_stiffness_ratio.eq_num(b->ThinGap_stiffness_ratio)
            }
        },
{
}

/// Two spans behave alike if both transmit, or both are separated with the same
/// condition on each face and the same coupling.
pub proof fn span_behaviors_agree_in_every_part(a: SpanBehavior, b: SpanBehavior)
    ensures
        a.alike(b) <==> {
            ||| {
                &&& a is Transmitting
                &&& b is Transmitting
            }
            ||| {
                &&& a is Separated
                &&& b is Separated
                &&& a->Separated_left.alike(b->Separated_left)
                &&& a->Separated_right.alike(b->Separated_right)
                &&& a->Separated_coupling.alike(b->Separated_coupling)
            }
        },
{
}

/// Two spans agree in their number and their behaviour.
pub proof fn curve_spans_agree_in_every_part(a: CurveSpan, b: CurveSpan)
    ensures
        a.alike(b) <==> {
            &&& a.id == b.id
            &&& a.behavior.alike(b.behavior)
        },
{
}

/// Two splines agree in their controls, their intervals and their multiplicities.
pub proof fn splines_agree_in_every_part(a: SplineData, b: SplineData)
    ensures
        a.alike(b) <==> {
            &&& a.controls.alike(b.controls)
            &&& a.intervals.alike(b.intervals)
            &&& a.multiplicities.alike(b.multiplicities)
        },
{
}

/// Two curves run alike if both are closed or both are open, over the same
/// spline.
pub proof fn curve_splines_agree_in_every_part(a: CurveSpline, b: CurveSpline)
    ensures
        a.alike(b) <==> {
            ||| {
                &&& a is Closed
                &&& b is Closed
                &&& a->Closed_0.alike(b->Closed_0)
            }
            ||| {
                &&& a is Open
                &&& b is Open
                &&& a->Open_0.alike(b->Open_0)
            }
        },
{
}

/// Two curves agree in their number, their spline, their nodes and their spans.
pub proof fn curves_agree_in_every_part(a: TopologyCurve, b: TopologyCurve)
    ensures
        a.alike(b) <==> {
            &&& a.id == b.id
            &&& a.spline.alike(b.spline)
            &&& a.nodes.alike(b.nodes)
            &&& a.spans.alike(b.spans)
        },
{
}

/// Two junctions lie alike if both are free, inside or on a side, at the same
/// place.
pub proof fn junction_places_agree_in_every_part(
    a: TopologyVertexLocation,
    b: TopologyVertexLocation,
)
    ensures
        a.alike(b) <==> {
            ||| {
                &&& a is Free
                &&& b is Free
                &&& a->Free_0.x.eq_num(b->Free_0.x)
                &&& a->Free_0.y.eq_num(b->Free_0.y)
            }
            ||| {
                &&& a is Interior
                &&& b is Interior
                &&& a->Interior_0.x.eq_num(b->Interior_0.x)
                &&& a->Interior_0.y.eq_num(b->Interior_0.y)
            }
            ||| {
                &&& a is Outer
                &&& b is Outer
                &&& a->Outer_side == b->Outer_side
                &&& a->Outer_fraction.eq_num(b->Outer_fraction)
            }
        },
{
}

/// Two junctions agree in their number and in where they lie.
pub proof fn junctions_agree_in_every_part(a: TopologyVertex, b: TopologyVertex)
    ensures
        a.alike(b) <==> {
            &&& a.id == b.id
            &&& a.location.alike(b.location)
        },
{
}

/// Two domains agree in each of their extents.
pub proof fn domains_agree_in_every_part(a: DomainRect, b: DomainRect)
    ensures
        a.alike(b) <==> {
            &&& a.min_x.eq_num(b.min_x)
            &&& a.max_x.eq_num(b.max_x)
            &&& a.min_y.eq_num(b.min_y)
            &&& a.max_y.eq_num(b.max_y)
        },
{
}

/// Two geometries agree in their domain, their curves and their junctions.
pub proof fn geometries_agree_in_every_part(a: TopologyGeometry, b: TopologyGeometry)
    ensures
        a.alike(b) <==> {
            &&& a.domain.alike(b.domain)
            &&& a.curves.alike(b.curves)
            &&& a.vertices.alike(b.vertices)
        },
{
}

/// Two volume sources agree in everything that is written of them.
pub proof fn volume_sources_agree_in_every_part(a: VolumeSource, b: VolumeSource)
    ensures
        a.alike(b) <==> {
            &&& a.region == b.region
            &&& a.enabled == b.enabled
            &&& a.profile.alike(b.profile)
            &&& a.parameters.alike(b.parameters)
            &&& a.signal.alike(b.signal)
        },
{
}

/// Two point sources agree in everything that is written of them.
pub proof fn point_sources_agree_in_every_part(a: PointSource, b: PointSource)
    ensures
        a.alike(b) <==> {
            &&& a.enabled == b.enabled
            &&& a.position.x.eq_num(b.position.x)
            &&& a.position.y.eq_num(b.position.y)
            &&& a.width.eq_num(b.width)
            &&& a.region == b.region
            &&& a.signal.alike(b.signal)
        },
{
}

/// Two scenes agree in every part.
pub proof fn scenes_agree_in_every_part(a: TopologyScene, b: TopologyScene)
    ensures
        a.alike(b) <==> {
            &&& a.geometry.alike(b.geometry)
            &&& a.physics == b.physics
            &&& a.materials.alike(b.materials)
            &&& a.regions.alike(b.regions)
            &&& a.face_assignments.alike(b.face_assignments)
            &&& a.volume_sources.alike(b.volume_sources)
            &&& a.outer_boundaries.alike(b.outer_boundaries)
        },
{
}

/// Two boundary probes agree in the spans they run along, on which side, which
/// way and how finely.
pub proof fn boundary_probe_targets_agree_in_every_part(
    a: TopologyBoundaryProbeTarget,
    b: TopologyBoundaryProbeTarget,
)
    ensures
        a.alike(b) <==> {
            &&& a.curve == b.curve
            &&& a.spans.alike(b.spans)
            &&& a.side == b.side
            &&& a.reversed == b.reversed
            &&& a.preset == b.preset
        },
{
}

/// Two probes agree in what they measure and where.
pub proof fn probe_targets_agree_in_every_part(a: TopologyProbeTarget, b: TopologyProbeTarget)
    ensures
        a.alike(b) <==> {
            ||| {
                &&& a is Point
                &&& b is Point
                &&& a->Point_0.x.eq_num(b->Point_0.x)
                &&& a->Point_0.y.eq_num(b->Point_0.y)
            }
            ||| {
                &&& a is Segment
                &&& b is Segment
                &&& a->Segment_start.x.eq_num(b->Segment_start.x)
                &&& a->Segment_start.y.eq_num(b->Segment_start.y)
                &&& a->Segment_end.x.eq_num(b->Segment_end.x)
                &&& a->Segment_end.y.eq_num(b->Segment_end.y)
                &&& a->Segment_preset == b->Segment_preset
            }
            ||| {
                &&& a is Boundary
                &&& b is Boundary
                &&& a->Boundary_0.alike(b->Boundary_0)
            }
            ||| {
                &&& a is AreaDisk
                &&& b is AreaDisk
                &&& a->AreaDisk_center.x.eq_num(b->AreaDisk_center.x)
                &&& a->AreaDisk_center.y.eq_num(b->AreaDisk_center.y)
                &&& a->AreaDisk_radius.eq_num(b->AreaDisk_radius)
            }
            ||| {
                &&& a is AreaRegion
                &&& b is AreaRegion
                &&& a->AreaRegion_0 == b->AreaRegion_0
            }
        },
{
}

/// Two probes agree in everything that is written of them.
pub proof fn probes_agree_in_every_part(a: TopologyProbeDefinition, b: TopologyProbeDefinition)
    ensures
        a.alike(b) <==> {
            &&& a.id == b.id
            &&& a.name@ == b.name@
            &&& a.color.alike(b.color)
            &&& a.enabled == b.enabled
            &&& a.target.alike(b.target)
        },
{
}

/// Volume sources lie alike if they act in the same regions, over the same profiles,
/// and are on together; only their signals may differ.
pub proof fn sources_that_lie_alike_differ_in_their_signals(
    left: Seq<VolumeSource>,
    right: Seq<VolumeSource>,
)
    ensures
        same_volume_layout(left, right) <==> left.len() == right.len() && forall|i: int|
            0 <= i < left.len() ==> {
                let (a, b) = (#[trigger] left[i], right[i]);
                &&& a.region == b.region
                &&& a.enabled == b.enabled
                &&& a.profile.alike(b.profile)
                &&& a.parameters.alike(b.parameters)
            },
        left.len() == right.len() && (forall|i: int|
            0 <= i < left.len() ==> (#[trigger] left[i]).alike(right[i])) ==> same_volume_layout(
            left,
            right,
        ),
{
    if left.len() == right.len() && (forall|i: int|
        0 <= i < left.len() ==> {
            let (a, b) = (#[trigger] left[i], right[i]);
            &&& a.region == b.region
            &&& a.enabled == b.enabled
            &&& a.profile.alike(b.profile)
            &&& a.parameters.alike(b.parameters)
        }) {
        assert(same_volume_layout(left, right));
    }
    if same_volume_layout(left, right) {
        assert forall|i: int| 0 <= i < left.len() implies ({
            let (a, b) = (#[trigger] left[i], right[i]);
            &&& a.region == b.region
            &&& a.enabled == b.enabled
            &&& a.profile.alike(b.profile)
            &&& a.parameters.alike(b.parameters)
        }) by {
            assert(same_volume_source_but_signal(left[i], right[i]));
        }
    }
}

/// A signal runs if and only if a source with it is on.
pub proof fn a_signal_runs_while_its_source_is_on(sources: Seq<VolumeSource>, signal: TimeSignal)
    ensures
        enabled_signals_of(sources).contains(signal) <==> exists|i: int|
            0 <= i < sources.len() && (#[trigger] sources[i]).enabled && sources[i].signal
                == signal,
{
    let on = |source: VolumeSource| source.enabled;
    let kept = sources.filter(on);
    let signals = enabled_signals_of(sources);
    if signals.contains(signal) {
        let i = signals.index_of(signal);
        assert(kept.contains(kept[i]));
        a_filter_keeps_what_passes(sources, on, kept[i]);
        let j = sources.index_of(kept[i]);
        assert(sources[j].enabled);
    }
    if exists|i: int|
        0 <= i < sources.len() && (#[trigger] sources[i]).enabled && sources[i].signal == signal {
        let i = choose|i: int|
            0 <= i < sources.len() && (#[trigger] sources[i]).enabled && sources[i].signal
                == signal;
        a_filter_keeps_what_passes(sources, on, sources[i]);
        let j = kept.index_of(sources[i]);
        assert(signals[j] == signal);
    }
}

} // verus!
