//! The stored form of scenes.
//!
//! A scene is made of lists, so its stored form is described by relations:
//! `stores_..` says that a stored value is what is written for a value, and
//! `reads_..` that a value is what is read from a stored one.

use crate::collect::{copied, either_issue, mapped};
use crate::law_codec::{
    coefficient_law_issue, decode_coefficient_law, decode_optional_loss, decode_restoring_law,
    decode_scalar_field, encode_coefficient_law, encode_optional_loss, encode_restoring_law,
    encode_scalar_field, optional_loss_issue, plain_optional_loss, plain_restoring_law,
    plain_scalar_field, read_coefficient_law, restoring_law_issue, scalar_field_issue,
    stored_coefficient_law, stored_optional_loss, stored_restoring_law, stored_scalar_field,
    LawReader, LawReading,
};
use crate::model::{
    CoefficientLaw, CurveNode, CurveSpan, CurveSpline, Material, MaterialParameter, SplineData, TopologyCurve,
    VolumeSource,
};
use crate::scalar::{Point2, Scalar};
use crate::stored::{
    StoredCurve, StoredMaterial, StoredParameter, StoredPoint, StoredSpan, StoredSpline,
    StoredVolumeSource,
};
use crate::value_codec::{
    decode_point, decode_signal, decode_span, encode_point, encode_signal, encode_span, plain_point,
    plain_signal, plain_span, stored_point, stored_signal, stored_span,
};
use vstd::prelude::*;

verus! {

pub open spec fn stored_parameter(value: MaterialParameter) -> StoredParameter {
    StoredParameter { name: value.name, value: value.value }
}

pub open spec fn plain_parameter(stored: StoredParameter) -> MaterialParameter {
    MaterialParameter { name: stored.name, value: stored.value }
}

pub open spec fn stored_parameters(values: Seq<MaterialParameter>) -> Seq<StoredParameter> {
    values.map_values(|value: MaterialParameter| stored_parameter(value))
}

pub open spec fn plain_parameters(stored: Seq<StoredParameter>) -> Seq<MaterialParameter> {
    stored.map_values(|stored: StoredParameter| plain_parameter(stored))
}

fn encode_parameter(value: &MaterialParameter) -> (result: StoredParameter)
    ensures
        result == stored_parameter(*value),
{
    StoredParameter { name: value.name.clone(), value: value.value }
}

fn decode_parameter(stored: &StoredParameter) -> (result: MaterialParameter)
    ensures
        result == plain_parameter(*stored),
{
    MaterialParameter { name: stored.name.clone(), value: stored.value }
}

pub fn encode_parameters(parameters: &Vec<MaterialParameter>) -> (result: Vec<StoredParameter>)
    ensures
        result@ == stored_parameters(parameters@),
{
    let encoded: Vec<StoredParameter> = mapped(parameters, encode_parameter);
    assert(encoded@ =~= stored_parameters(parameters@));
    encoded
}

pub fn decode_parameters(parameters: &Vec<StoredParameter>) -> (result: Vec<MaterialParameter>)
    ensures
        result@ == plain_parameters(parameters@),
{
    let decoded: Vec<MaterialParameter> = mapped(parameters, decode_parameter);
    assert(decoded@ =~= plain_parameters(parameters@));
    decoded
}

pub open spec fn stores_material(stored: StoredMaterial, value: Material) -> bool {
    &&& stored.id == value.id
    &&& stored.name == value.name
    &&& stored.mass_density == stored_scalar_field(value.mass_density)
    &&& stored.stiffness == stored_scalar_field(value.stiffness)
    &&& stored.damping == stored_scalar_field(value.damping)
    &&& stored.axis_ratio == stored_scalar_field(value.axis_ratio)
    &&& stored.parameters@ == stored_parameters(value.parameters@)
    &&& stored.color == value.color
    &&& stored.mass_law == stored_coefficient_law(value.mass_law)
    &&& stored.stiffness_law == stored_coefficient_law(value.stiffness_law)
    &&& stored.electric_loss == stored_optional_loss(value.electric_loss)
    &&& stored.magnetic_loss == stored_optional_loss(value.magnetic_loss)
    &&& stored.restoring == stored_restoring_law(value.restoring)
    &&& stored.switch_ramp == value.switch_ramp
}

pub open spec fn reads_material(
    stored: StoredMaterial,
    laws: LawReading,
    value: Material,
) -> bool {
    &&& value.id == stored.id
    &&& value.name == stored.name
    &&& value.mass_density == plain_scalar_field(stored.mass_density)
    &&& value.stiffness == plain_scalar_field(stored.stiffness)
    &&& value.damping == plain_scalar_field(stored.damping)
    &&& value.axis_ratio == plain_scalar_field(stored.axis_ratio)
    &&& value.parameters@ == plain_parameters(stored.parameters@)
    &&& value.color == stored.color
    &&& value.mass_law == read_coefficient_law(stored.mass_law, laws)
    &&& value.stiffness_law == read_coefficient_law(stored.stiffness_law, laws)
    &&& value.electric_loss == plain_optional_loss(stored.electric_loss)
    &&& value.magnetic_loss == plain_optional_loss(stored.magnetic_loss)
    &&& value.restoring == plain_restoring_law(stored.restoring)
    &&& value.switch_ramp == stored.switch_ramp
}

/// The first formula of a material that is refused.
pub open spec fn material_issue(stored: StoredMaterial, laws: LawReading) -> Option<String> {
    either_issue(
        scalar_field_issue(stored.mass_density, laws),
        either_issue(
            scalar_field_issue(stored.stiffness, laws),
            either_issue(
                scalar_field_issue(stored.damping, laws),
                either_issue(
                    scalar_field_issue(stored.axis_ratio, laws),
                    either_issue(
                        coefficient_law_issue(stored.mass_law, laws),
                        either_issue(
                            coefficient_law_issue(stored.stiffness_law, laws),
                            either_issue(
                                optional_loss_issue(stored.electric_loss, laws),
                                either_issue(
                                    optional_loss_issue(stored.magnetic_loss, laws),
                                    restoring_law_issue(stored.restoring, laws),
                                ),
                            ),
                        ),
                    ),
                ),
            ),
        ),
    )
}

/// Equal materials, whatever memory their lists are in.
pub open spec fn same_material(left: Material, right: Material) -> bool {
    &&& left.id == right.id
    &&& left.name == right.name
    &&& left.mass_density == right.mass_density
    &&& left.stiffness == right.stiffness
    &&& left.damping == right.damping
    &&& left.axis_ratio == right.axis_ratio
    &&& left.parameters@ == right.parameters@
    &&& left.color == right.color
    &&& left.mass_law == right.mass_law
    &&& left.stiffness_law == right.stiffness_law
    &&& left.electric_loss == right.electric_loss
    &&& left.magnetic_loss == right.magnetic_loss
    &&& left.restoring == right.restoring
    &&& left.switch_ramp == right.switch_ramp
}

pub fn encode_material(material: &Material) -> (result: StoredMaterial)
    ensures
        stores_material(result, *material),
{
    StoredMaterial {
        id: material.id,
        name: material.name.clone(),
        mass_density: encode_scalar_field(&material.mass_density),
        stiffness: encode_scalar_field(&material.stiffness),
        damping: encode_scalar_field(&material.damping),
        axis_ratio: encode_scalar_field(&material.axis_ratio),
        parameters: encode_parameters(&material.parameters),
        color: material.color,
        mass_law: encode_coefficient_law(&material.mass_law),
        stiffness_law: encode_coefficient_law(&material.stiffness_law),
        electric_loss: encode_optional_loss(&material.electric_loss),
        magnetic_loss: encode_optional_loss(&material.magnetic_loss),
        restoring: encode_restoring_law(&material.restoring),
        switch_ramp: material.switch_ramp,
    }
}

pub fn decode_material<C, N>(stored: &StoredMaterial, reader: &LawReader<C, N>) -> (result: Result<
    Material,
    String,
>) where
    C: Fn(&String) -> Option<String>,
    N: Fn(CoefficientLaw) -> CoefficientLaw,

    requires
        reader.wf(),
    ensures
        match material_issue(*stored, reader.reading()) {
            Some(issue) => result == Err::<Material, String>(issue),
            None => result is Ok && reads_material(*stored, reader.reading(), result->Ok_0),
        },
{
    let mass_density = match decode_scalar_field(&stored.mass_density, reader) {
        Ok(value) => value,
        Err(issue) => {
            return Err(issue);
        },
    };
    let stiffness = match decode_scalar_field(&stored.stiffness, reader) {
        Ok(value) => value,
        Err(issue) => {
            return Err(issue);
        },
    };
    let damping = match decode_scalar_field(&stored.damping, reader) {
        Ok(value) => value,
        Err(issue) => {
            return Err(issue);
        },
    };
    let axis_ratio = match decode_scalar_field(&stored.axis_ratio, reader) {
        Ok(value) => value,
        Err(issue) => {
            return Err(issue);
        },
    };
    let mass_law = match decode_coefficient_law(&stored.mass_law, reader) {
        Ok(value) => value,
        Err(issue) => {
            return Err(issue);
        },
    };
    let stiffness_law = match decode_coefficient_law(&stored.stiffness_law, reader) {
        Ok(value) => value,
        Err(issue) => {
            return Err(issue);
        },
    };
    let electric_loss = match decode_optional_loss(&stored.electric_loss, reader) {
        Ok(value) => value,
        Err(issue) => {
            return Err(issue);
        },
    };
    let magnetic_loss = match decode_optional_loss(&stored.magnetic_loss, reader) {
        Ok(value) => value,
        Err(issue) => {
            return Err(issue);
        },
    };
    let restoring = match decode_restoring_law(&stored.restoring, reader) {
        Ok(value) => value,
        Err(issue) => {
            return Err(issue);
        },
    };
    Ok(
        Material {
            id: stored.id,
            name: stored.name.clone(),
            mass_density,
            stiffness,
            damping,
            axis_ratio,
            parameters: decode_parameters(&stored.parameters),
            color: stored.color,
            mass_law,
            stiffness_law,
            electric_loss,
            magnetic_loss,
            restoring,
            switch_ramp: stored.switch_ramp,
        },
    )
}

/// Whether every formula of a material is one that the engine reads, and its
/// laws are in their normal forms.
pub open spec fn readable_material(value: Material, laws: LawReading) -> bool {
    &&& scalar_field_issue(stored_scalar_field(value.mass_density), laws) is None
    &&& scalar_field_issue(stored_scalar_field(value.stiffness), laws) is None
    &&& scalar_field_issue(stored_scalar_field(value.damping), laws) is None
    &&& scalar_field_issue(stored_scalar_field(value.axis_ratio), laws) is None
    &&& coefficient_law_issue(stored_coefficient_law(value.mass_law), laws) is None
    &&& coefficient_law_issue(stored_coefficient_law(value.stiffness_law), laws) is None
    &&& optional_loss_issue(stored_optional_loss(value.electric_loss), laws) is None
    &&& optional_loss_issue(stored_optional_loss(value.magnetic_loss), laws) is None
    &&& restoring_law_issue(stored_restoring_law(value.restoring), laws) is None
    &&& (laws.normal)(value.mass_law) == value.mass_law
    &&& (laws.normal)(value.stiffness_law) == value.stiffness_law
}

/// A material comes back from the file as it was.
pub proof fn material_survives_the_file(
    stored: StoredMaterial,
    laws: LawReading,
    value: Material,
    read: Material,
)
    requires
        stores_material(stored, value),
        readable_material(value, laws),
        reads_material(stored, laws, read),
    ensures
        material_issue(stored, laws) is None,
        same_material(read, value),
{
    crate::law_codec::scalar_field_survives_the_file(value.mass_density, laws);
    crate::law_codec::scalar_field_survives_the_file(value.stiffness, laws);
    crate::law_codec::scalar_field_survives_the_file(value.damping, laws);
    crate::law_codec::scalar_field_survives_the_file(value.axis_ratio, laws);
    crate::law_codec::coefficient_law_survives_the_file(value.mass_law, laws);
    crate::law_codec::coefficient_law_survives_the_file(value.stiffness_law, laws);
    crate::law_codec::optional_loss_survives_the_file(value.electric_loss);
    crate::law_codec::optional_loss_survives_the_file(value.magnetic_loss);
    crate::law_codec::restoring_law_survives_the_file(value.restoring);
    assert(plain_parameters(stored_parameters(value.parameters@)) =~= value.parameters@);
}

pub open spec fn stores_volume_source(stored: StoredVolumeSource, value: VolumeSource) -> bool {
    &&& stored.region == value.region
    &&& stored.enabled == value.enabled
    &&& stored.profile == stored_scalar_field(value.profile)
    &&& stored.parameters@ == stored_parameters(value.parameters@)
    &&& stored.signal == stored_signal(value.signal)
}

pub open spec fn reads_volume_source(stored: StoredVolumeSource, value: VolumeSource) -> bool {
    &&& value.region == stored.region
    &&& value.enabled == stored.enabled
    &&& value.profile == plain_scalar_field(stored.profile)
    &&& value.parameters@ == plain_parameters(stored.parameters@)
    &&& value.signal == plain_signal(stored.signal)
}

pub open spec fn same_volume_source(left: VolumeSource, right: VolumeSource) -> bool {
    &&& left.region == right.region
    &&& left.enabled == right.enabled
    &&& left.profile == right.profile
    &&& left.parameters@ == right.parameters@
    &&& left.signal == right.signal
}

pub fn encode_volume_source(source: &VolumeSource) -> (result: StoredVolumeSource)
    ensures
        stores_volume_source(result, *source),
{
    StoredVolumeSource {
        region: source.region,
        enabled: source.enabled,
        profile: encode_scalar_field(&source.profile),
        parameters: encode_parameters(&source.parameters),
        signal: encode_signal(source.signal),
    }
}

pub fn decode_volume_source<C, N>(
    stored: &StoredVolumeSource,
    reader: &LawReader<C, N>,
) -> (result: Result<VolumeSource, String>) where
    C: Fn(&String) -> Option<String>,
    N: Fn(CoefficientLaw) -> CoefficientLaw,

    requires
        reader.wf(),
    ensures
        match scalar_field_issue(stored.profile, reader.reading()) {
            Some(issue) => result == Err::<VolumeSource, String>(issue),
            None => result is Ok && reads_volume_source(*stored, result->Ok_0),
        },
{
    let profile = match decode_scalar_field(&stored.profile, reader) {
        Ok(value) => value,
        Err(issue) => {
            return Err(issue);
        },
    };
    Ok(
        VolumeSource {
            region: stored.region,
            enabled: stored.enabled,
            profile,
            parameters: decode_parameters(&stored.parameters),
            signal: decode_signal(stored.signal),
        },
    )
}

/// What a spline is built from. With multiplicities it is built by the
/// constructor that takes them, without by the plain one.
#[derive(Debug)]
pub struct SplineRequest {
    pub open: bool,
    pub controls: Vec<Point2>,
    pub intervals: Vec<Scalar>,
    pub multiplicities: Option<Vec<u8>>,
}

/// What the engine makes of a stored curve.
#[derive(Debug)]
pub struct CurveBuild {
    /// The spline built from the [`SplineRequest`] of the stored one.
    pub spline: Result<SplineData, String>,
    /// How many nodes a curve with that spline and the stored spans has.
    pub nodes: Result<usize, String>,
}

pub open spec fn stored_points(points: Seq<Point2>) -> Seq<StoredPoint> {
    points.map_values(|point: Point2| stored_point(point))
}

pub open spec fn stores_data(
    controls: Seq<StoredPoint>,
    intervals: Seq<Scalar>,
    multiplicities: Seq<u8>,
    data: SplineData,
) -> bool {
    &&& controls == stored_points(data.controls@)
    &&& intervals == data.intervals@
    &&& multiplicities == data.multiplicities@
}

pub open spec fn stores_spline(stored: StoredSpline, spline: CurveSpline) -> bool {
    match (stored, spline) {
        (
            StoredSpline::Closed { controls, intervals, multiplicities },
            CurveSpline::Closed(data),
        ) => stores_data(controls@, intervals@, multiplicities@, data),
        (
            StoredSpline::Open { controls, intervals, multiplicities },
            CurveSpline::Open(data),
        ) => stores_data(controls@, intervals@, multiplicities@, data),
        _ => false,
    }
}

pub open spec fn same_data(left: SplineData, right: SplineData) -> bool {
    &&& left.controls@ == right.controls@
    &&& left.intervals@ == right.intervals@
    &&& left.multiplicities@ == right.multiplicities@
    &&& left.span_bounds@ == right.span_bounds@
}

pub open spec fn same_spline(left: CurveSpline, right: CurveSpline) -> bool {
    match (left, right) {
        (CurveSpline::Closed(left), CurveSpline::Closed(right)) => same_data(left, right),
        (CurveSpline::Open(left), CurveSpline::Open(right)) => same_data(left, right),
        _ => false,
    }
}

pub open spec fn spline_data(spline: CurveSpline) -> SplineData {
    match spline {
        CurveSpline::Closed(data) => data,
        CurveSpline::Open(data) => data,
    }
}

pub open spec fn stored_controls(spline: StoredSpline) -> Seq<StoredPoint> {
    match spline {
        StoredSpline::Closed { controls, .. } => controls@,
        StoredSpline::Open { controls, .. } => controls@,
    }
}

pub open spec fn controls_finite(controls: Seq<StoredPoint>) -> bool {
    forall|i: int|
        0 <= i < controls.len() ==> (#[trigger] controls[i]).x.finite() && controls[i].y.finite()
}

pub open spec fn vertices_of(nodes: Seq<CurveNode>) -> Seq<Option<u64>> {
    nodes.map_values(|node: CurveNode| node.vertex)
}

pub open spec fn nodes_of(vertices: Seq<Option<u64>>) -> Seq<CurveNode> {
    vertices.map_values(|vertex: Option<u64>| CurveNode { vertex })
}

pub open spec fn stored_spans(spans: Seq<CurveSpan>) -> Seq<StoredSpan> {
    spans.map_values(|span: CurveSpan| stored_span(span))
}

pub open spec fn plain_spans(spans: Seq<StoredSpan>) -> Seq<CurveSpan> {
    spans.map_values(|span: StoredSpan| plain_span(span))
}

pub open spec fn stores_curve(stored: StoredCurve, curve: TopologyCurve) -> bool {
    &&& stored.id == curve.id
    &&& stores_spline(stored.spline, curve.spline)
    &&& stored.nodes@ == vertices_of(curve.nodes@)
    &&& stored.spans@ == stored_spans(curve.spans@)
}

/// The curve that is read: the engine's spline under the stored kind, and the
/// stored nodes and spans.
pub open spec fn reads_curve(
    stored: StoredCurve,
    build: CurveBuild,
    curve: TopologyCurve,
) -> bool {
    &&& curve.id == stored.id
    &&& curve.spline is Closed <==> stored.spline is Closed
    &&& same_data(spline_data(curve.spline), build.spline->Ok_0)
    &&& curve.nodes@ == nodes_of(stored.nodes@)
    &&& curve.spans@ == plain_spans(stored.spans@)
}

/// Why a stored curve is not read, if so.
pub open spec fn curve_issue(stored: StoredCurve, build: CurveBuild) -> Option<Seq<char>> {
    if !controls_finite(stored_controls(stored.spline)) {
        Some("Coordinates must be finite"@)
    } else if build.spline is Err {
        Some(build.spline->Err_0@)
    } else if build.nodes is Err {
        Some(build.nodes->Err_0@)
    } else if stored.nodes@.len() != build.nodes->Ok_0 {
        Some("Scene contains a malformed curve-node table"@)
    } else {
        None
    }
}

pub open spec fn same_curve(left: TopologyCurve, right: TopologyCurve) -> bool {
    &&& left.id == right.id
    &&& same_spline(left.spline, right.spline)
    &&& left.nodes@ == right.nodes@
    &&& left.spans@ == right.spans@
}

fn encode_point_ref(point: &Point2) -> (result: StoredPoint)
    ensures
        result == stored_point(*point),
{
    encode_point(*point)
}

pub fn encode_points(points: &Vec<Point2>) -> (result: Vec<StoredPoint>)
    ensures
        result@ == stored_points(points@),
{
    let encoded: Vec<StoredPoint> = mapped(points, encode_point_ref);
    assert(encoded@ =~= stored_points(points@));
    encoded
}

fn encode_span_ref(span: &CurveSpan) -> (result: StoredSpan)
    ensures
        result == stored_span(*span),
{
    encode_span(*span)
}

fn decode_span_ref(span: &StoredSpan) -> (result: CurveSpan)
    ensures
        result == plain_span(*span),
{
    decode_span(*span)
}

fn node_vertex(node: &CurveNode) -> (result: Option<u64>)
    ensures
        result == node.vertex,
{
    node.vertex
}

fn vertex_node(vertex: &Option<u64>) -> (result: CurveNode)
    ensures
        result == (CurveNode { vertex: *vertex }),
{
    CurveNode { vertex: *vertex }
}

pub fn encode_curve(curve: &TopologyCurve) -> (result: StoredCurve)
    ensures
        stores_curve(result, *curve),
{
    let spline: StoredSpline = match &curve.spline {
        CurveSpline::Closed(data) => StoredSpline::Closed {
            controls: encode_points(&data.controls),
            intervals: copied(&data.intervals),
            multiplicities: copied(&data.multiplicities),
        },
        CurveSpline::Open(data) => StoredSpline::Open {
            controls: encode_points(&data.controls),
            intervals: copied(&data.intervals),
            multiplicities: copied(&data.multiplicities),
        },
    };
    let nodes: Vec<Option<u64>> = mapped(&curve.nodes, node_vertex);
    let spans: Vec<StoredSpan> = mapped(&curve.spans, encode_span_ref);
    assert(nodes@ =~= vertices_of(curve.nodes@));
    assert(spans@ =~= stored_spans(curve.spans@));
    StoredCurve { id: curve.id, spline, nodes, spans }
}

/// Whether the engine may be handed the controls of a stored spline.
pub fn finite_controls(controls: &Vec<StoredPoint>) -> (result: bool)
    ensures
        result == controls_finite(controls@),
{
    let mut index: usize = 0;
    while index < controls.len()
        invariant
            index <= controls@.len(),
            forall|i: int|
                0 <= i < index ==> (#[trigger] controls@[i]).x.finite() && controls@[i].y.finite(),
        decreases controls@.len() - index,
    {
        let point: StoredPoint = controls[index];
        if !point.x.is_finite() || !point.y.is_finite() {
            assert(!(controls@[index as int].x.finite() && controls@[index as int].y.finite()));
            return false;
        }
        index = index + 1;
    }
    true
}

pub open spec fn plain_points(points: Seq<StoredPoint>) -> Seq<Point2> {
    points.map_values(|point: StoredPoint| plain_point(point))
}

pub open spec fn stored_intervals(spline: StoredSpline) -> Seq<Scalar> {
    match spline {
        StoredSpline::Closed { intervals, .. } => intervals@,
        StoredSpline::Open { intervals, .. } => intervals@,
    }
}

pub open spec fn stored_multiplicities(spline: StoredSpline) -> Seq<u8> {
    match spline {
        StoredSpline::Closed { multiplicities, .. } => multiplicities@,
        StoredSpline::Open { multiplicities, .. } => multiplicities@,
    }
}

/// Whether this is what a stored spline is built from: its own values, and the
/// plain constructor exactly where no multiplicities are stored.
pub open spec fn requests_spline(stored: StoredSpline, request: SplineRequest) -> bool {
    &&& request.open <==> stored is Open
    &&& request.controls@ == plain_points(stored_controls(stored))
    &&& request.intervals@ == stored_intervals(stored)
    &&& match request.multiplicities {
        None => stored_multiplicities(stored).len() == 0,
        Some(multiplicities) => stored_multiplicities(stored).len() > 0 && multiplicities@
            == stored_multiplicities(stored),
    }
}

fn decode_point_ref(point: &StoredPoint) -> (result: Point2)
    ensures
        result == plain_point(*point),
{
    decode_point(*point)
}

/// What a stored spline is built from; refused for controls that are not finite.
pub fn spline_request(stored: &StoredSpline) -> (result: Result<SplineRequest, String>)
    ensures
        match result {
            Ok(request) => controls_finite(stored_controls(*stored)) && requests_spline(
                *stored,
                request,
            ),
            Err(issue) => !controls_finite(stored_controls(*stored)) && issue@
                == "Coordinates must be finite"@,
        },
{
    let (open, controls, intervals, multiplicities) = match stored {
        StoredSpline::Closed { controls, intervals, multiplicities } => (
            false,
            controls,
            intervals,
            multiplicities,
        ),
        StoredSpline::Open { controls, intervals, multiplicities } => (
            true,
            controls,
            intervals,
            multiplicities,
        ),
    };
    if !finite_controls(controls) {
        return Err("Coordinates must be finite".to_owned());
    }
    let points: Vec<Point2> = mapped(controls, decode_point_ref);
    assert(points@ =~= plain_points(controls@));
    Ok(
        SplineRequest {
            open,
            controls: points,
            intervals: copied(intervals),
            multiplicities: if multiplicities.len() == 0 {
                None
            } else {
                Some(copied(multiplicities))
            },
        },
    )
}

fn copy_data(data: &SplineData) -> (result: SplineData)
    ensures
        same_data(result, *data),
{
    SplineData {
        controls: copied(&data.controls),
        intervals: copied(&data.intervals),
        multiplicities: copied(&data.multiplicities),
        span_bounds: copied(&data.span_bounds),
    }
}

/// The spline of a stored curve: refused for controls that are not finite, and
/// otherwise what the engine makes of it.
pub fn decode_spline(controls: &Vec<StoredPoint>, built: &Result<SplineData, String>) -> (result:
    Result<SplineData, String>)
    ensures
        match result {
            Ok(data) => controls_finite(controls@) && *built is Ok && same_data(
                data,
                built->Ok_0,
            ),
            Err(issue) => if controls_finite(controls@) {
                *built is Err && issue@ == built->Err_0@
            } else {
                issue@ == "Coordinates must be finite"@
            },
        },
{
    if !finite_controls(controls) {
        return Err("Coordinates must be finite".to_owned());
    }
    match built {
        Ok(data) => Ok(copy_data(data)),
        Err(issue) => Err(issue.clone()),
    }
}

pub fn decode_curve(stored: &StoredCurve, build: &CurveBuild) -> (result: Result<
    TopologyCurve,
    String,
>)
    ensures
        match curve_issue(*stored, *build) {
            Some(issue) => result is Err && result->Err_0@ == issue,
            None => result is Ok && reads_curve(*stored, *build, result->Ok_0),
        },
{
    let spline: CurveSpline = match &stored.spline {
        StoredSpline::Closed { controls, .. } => match decode_spline(controls, &build.spline) {
            Ok(data) => CurveSpline::Closed(data),
            Err(issue) => {
                return Err(issue);
            },
        },
        StoredSpline::Open { controls, .. } => match decode_spline(controls, &build.spline) {
            Ok(data) => CurveSpline::Open(data),
            Err(issue) => {
                return Err(issue);
            },
        },
    };
    let count: usize = match &build.nodes {
        Ok(count) => *count,
        Err(issue) => {
            return Err(issue.clone());
        },
    };
    if stored.nodes.len() != count {
        return Err("Scene contains a malformed curve-node table".to_owned());
    }
    let nodes: Vec<CurveNode> = mapped(&stored.nodes, vertex_node);
    let spans: Vec<CurveSpan> = mapped(&stored.spans, decode_span_ref);
    assert(nodes@ =~= nodes_of(stored.nodes@));
    assert(spans@ =~= plain_spans(stored.spans@));
    Ok(TopologyCurve { id: stored.id, spline, nodes, spans })
}

/// Whether the engine rebuilds a curve's spline from what is stored of it.
pub open spec fn rebuilds(build: CurveBuild, curve: TopologyCurve) -> bool {
    &&& build.spline is Ok
    &&& same_data(build.spline->Ok_0, spline_data(curve.spline))
    &&& build.nodes == Ok::<usize, String>(curve.nodes@.len() as usize)
}

pub open spec fn points_finite(points: Seq<Point2>) -> bool {
    forall|i: int| 0 <= i < points.len() ==> (#[trigger] points[i]).finite_point()
}

/// A stored spline is built again from the values it was stored with.
pub proof fn a_stored_spline_is_built_from_its_own_values(
    stored: StoredSpline,
    spline: CurveSpline,
    request: SplineRequest,
)
    requires
        stores_spline(stored, spline),
        requests_spline(stored, request),
    ensures
        request.open <==> spline is Open,
        request.controls@ == spline_data(spline).controls@,
        request.intervals@ == spline_data(spline).intervals@,
        match request.multiplicities {
            None => spline_data(spline).multiplicities@.len() == 0,
            Some(multiplicities) => multiplicities@ == spline_data(spline).multiplicities@,
        },
{
    crate::value_codec::plain_values_survive_the_file();
    let controls = spline_data(spline).controls@;
    assert(plain_points(stored_points(controls)) =~= controls) by {
        assert forall|i: int| 0 <= i < controls.len() implies #[trigger] plain_points(
            stored_points(controls),
        )[i] == controls[i] by {
            assert(plain_point(stored_point(controls[i])) == controls[i]);
        }
    }
}

/// A curve with finite controls comes back from the file as it was, given that
/// the engine rebuilds its spline.
pub proof fn curve_survives_the_file(
    stored: StoredCurve,
    build: CurveBuild,
    curve: TopologyCurve,
    read: TopologyCurve,
)
    requires
        stores_curve(stored, curve),
        rebuilds(build, curve),
        points_finite(spline_data(curve.spline).controls@),
        curve.nodes@.len() <= usize::MAX,
        reads_curve(stored, build, read),
    ensures
        curve_issue(stored, build) is None,
        same_curve(read, curve),
{
    crate::value_codec::plain_values_survive_the_file();
    let controls = spline_data(curve.spline).controls@;
    assert forall|i: int| 0 <= i < stored_points(controls).len() implies (
    #[trigger] stored_points(controls)[i]).x.finite() && stored_points(controls)[i].y.finite() by {
        assert(controls[i].finite_point());
    }
    assert(nodes_of(vertices_of(curve.nodes@)) =~= curve.nodes@);
    assert(plain_spans(stored_spans(curve.spans@)) =~= curve.spans@) by {
        assert forall|i: int| 0 <= i < curve.spans@.len() implies #[trigger] plain_spans(
            stored_spans(curve.spans@),
        )[i] == curve.spans@[i] by {
            assert(plain_span(stored_span(curve.spans@[i])) == curve.spans@[i]);
        }
    }
}

} // verus!
