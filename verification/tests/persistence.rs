use funfern::document_codec::{decode_scene, encode_document, DocumentReading, SceneReading};
use funfern::document_validation::DocumentVerdict;
use funfern::law_codec::{decode_coefficient_law, decode_scalar_field, LawReader};
use funfern::model::{
    AdaptationSettings, AuthoredFaceAssignment, CoefficientLaw, CurveNode, CurveSpan, CurveSpline,
    CurveTraceSide, DampingLaw, DomainRect, ElectromagneticPolarization, FaceAnchor,
    FaceBoundaryCondition, FarFieldSettings, FieldLaw, InternalBoundaryCoupling, LossChannel,
    Material, MaterialFrame, MaterialFrameAttachment, MaterialOverlay, MaterialParameter,
    MaterialProperty, OuterBoundaryCondition, OuterBoundaryConditions, OuterSide, PhysicsModel,
    PointSource, PresentationSettings, ProbeSamplingPreset, RateLaw, Region, RestoringLaw, Rgb,
    ScalarField, SpanBehavior, SplineData, TimeDrive, TimeSignal, TopologyBoundaryProbeTarget,
    TopologyCurve, TopologyDocument, TopologyDocumentModel, TopologyGeometry,
    TopologyProbeDefinition, TopologyProbeTarget, TopologyScene, TopologyVertex,
    TopologyVertexLocation, VectorOverlay, VolumeSource,
};
use funfern::persistence::{candidate, check_size, parse, parse_document, save};
use funfern::presentation_codec::{decode_presentation, encode_presentation};
use funfern::scalar::{Point2, Scalar};
use funfern::scene_codec::{decode_curve, decode_spline, spline_request, CurveBuild};
use funfern::stored::{
    stored_linear_coefficient_law, stored_no_restoring_law, FileV22, StoredCoefficientLaw,
    StoredCurve, StoredFieldLaw, StoredMaterialOverlay, StoredPoint, StoredScalarField, StoredSpline, StoredTopologyScene,
    MAX_FILE_BYTES, TOPOLOGY_FILE_VERSION,
};
use funfern::validation::{DocumentLimits, SceneVerdict};
use funfern::windows::{new_scene_document, Gallery};

const BACKGROUND_REGION: u64 = 1;
const DEFAULT_MATERIAL: u64 = 1;

fn n(value: f64) -> Scalar {
    Scalar { bits: value.to_bits() }
}

fn p(x: f64, y: f64) -> Point2 {
    Point2 { x: n(x), y: n(y) }
}

fn constant(value: f64) -> ScalarField {
    ScalarField::Constant(n(value))
}

fn formula(source: &str) -> ScalarField {
    ScalarField::Formula(source.to_string())
}

fn harmonic(offset: f64, amplitude: f64, frequency: f64, phase: f64) -> TimeSignal {
    TimeSignal {
        offset: n(offset),
        amplitude: n(amplitude),
        frequency_hz: n(frequency),
        phase_radians: n(phase),
    }
}

fn linear() -> CoefficientLaw {
    CoefficientLaw {
        field: FieldLaw::Linear,
        drive: TimeDrive::Absent,
        alternate: None,
        inverted: false,
    }
}

fn material() -> Material {
    Material {
        id: DEFAULT_MATERIAL,
        name: "Background".to_string(),
        mass_density: constant(1.0),
        stiffness: constant(1.0),
        damping: constant(0.0),
        axis_ratio: constant(1.0),
        parameters: vec![],
        color: Rgb { red: 40, green: 60, blue: 80 },
        mass_law: linear(),
        stiffness_law: linear(),
        electric_loss: None,
        magnetic_loss: None,
        restoring: RestoringLaw::Absent,
        switch_ramp: n(0.0),
    }
}

fn scene() -> TopologyScene {
    TopologyScene {
        geometry: TopologyGeometry {
            domain: DomainRect { min_x: n(-1.0), max_x: n(1.0), min_y: n(-1.0), max_y: n(1.0) },
            curves: vec![],
            vertices: vec![],
        },
        physics: PhysicsModel::Mechanical,
        materials: vec![material()],
        regions: vec![Region {
            id: BACKGROUND_REGION,
            material: DEFAULT_MATERIAL,
            frame: MaterialFrame {
                origin: p(0.0, 0.0),
                angle_radians: n(0.0),
                attachment: MaterialFrameAttachment::World,
            },
        }],
        face_assignments: vec![AuthoredFaceAssignment {
            anchor: FaceAnchor::Outer { side: OuterSide::Bottom, fraction: n(0.5) },
            region: Some(BACKGROUND_REGION),
        }],
        volume_sources: vec![],
        outer_boundaries: OuterBoundaryConditions {
            bottom: OuterBoundaryCondition::SecondOrderOutgoing,
            right: OuterBoundaryCondition::SecondOrderOutgoing,
            top: OuterBoundaryCondition::SecondOrderOutgoing,
            left: OuterBoundaryCondition::SecondOrderOutgoing,
        },
    }
}

fn settings() -> PresentationSettings {
    PresentationSettings {
        grid: true,
        control_polygons: true,
        handles: true,
        accepted_reference: false,
        boundary_conditions: true,
        mesh: false,
        mesh_boundaries: false,
        point_probes: true,
        line_probes: true,
        boundary_probes: true,
        area_probes: true,
        far_field_contour: true,
        probe_labels: true,
        field: true,
        simulation_speed: n(1.0),
        field_gain: n(2.0),
        field_auto_exposure: true,
        vector_overlay: VectorOverlay::Off,
        vector_overlay_ac_coupled: true,
        vector_overlay_density: n(54.0),
        vector_overlay_gain: n(1.0),
        material_overlay: MaterialOverlay::Off,
        material_overlay_opacity: n(0.5),
        material_overlay_auto_range: true,
        material_overlay_logarithmic: false,
        material_overlay_manual_min: n(0.0),
        material_overlay_manual_max: n(1.0),
        mesh_edge: n(0.09),
        adaptation: AdaptationSettings {
            enabled: true,
            accuracy_percent: n(12.0),
            elements_per_wavelength: n(6.0),
            minimum_edge: n(0.02),
            maximum_edge: n(0.25),
        },
        grid_scale_filter: true,
        advanced_materials: false,
    }
}

fn document() -> TopologyDocument {
    TopologyDocument {
        model: TopologyDocumentModel {
            draft: scene(),
            accepted: scene(),
            probes: vec![],
            source: PointSource {
                enabled: false,
                position: p(0.0, 0.0),
                width: n(0.1),
                region: BACKGROUND_REGION,
                signal: harmonic(0.0, 1.0, 3.0, 0.0),
            },
            far_field: FarFieldSettings { enabled: false, inset: n(0.2) },
        },
        presentation: settings(),
    }
}

/// A separator from the middle of the bottom wall to the middle of the top one.
fn divider() -> TopologyCurve {
    TopologyCurve {
        id: 7,
        spline: CurveSpline::Open(SplineData {
            controls: vec![p(0.0, -1.0), p(0.0, -0.8), p(0.0, 0.0), p(0.0, 0.8), p(0.0, 1.0)],
            intervals: vec![n(1.0), n(1.0)],
            multiplicities: vec![3],
            span_bounds: vec![(n(0.0), n(1.0)), (n(1.0), n(2.0))],
        }),
        nodes: vec![
            CurveNode { vertex: Some(1) },
            CurveNode { vertex: None },
            CurveNode { vertex: Some(2) },
        ],
        spans: vec![
            CurveSpan { id: 11, behavior: SpanBehavior::Transmitting },
            CurveSpan { id: 12, behavior: SpanBehavior::Transmitting },
        ],
    }
}

fn divider_vertices() -> Vec<TopologyVertex> {
    vec![
        TopologyVertex {
            id: 1,
            location: TopologyVertexLocation::Outer { side: OuterSide::Bottom, fraction: n(0.5) },
        },
        TopologyVertex {
            id: 2,
            location: TopologyVertexLocation::Outer { side: OuterSide::Top, fraction: n(0.5) },
        },
    ]
}

fn divider_document() -> TopologyDocument {
    let mut document = document();
    for scene in [&mut document.model.draft, &mut document.model.accepted] {
        scene.geometry.curves.push(divider());
        scene.geometry.vertices = divider_vertices();
        scene.face_assignments.push(AuthoredFaceAssignment {
            anchor: FaceAnchor::Curve {
                curve: 7,
                span: 11,
                side: CurveTraceSide::Left,
                parameter: n(0.5),
            },
            region: None,
        });
    }
    document
}

fn limits() -> DocumentLimits {
    DocumentLimits {
        max_curves: 128,
        max_vertices: 512,
        max_probes: 32,
        max_segment_probe_points: 2048,
    }
}

fn sound(vertices: usize) -> SceneVerdict {
    SceneVerdict { structure: None, vertex_placed: vec![true; vertices] }
}

fn verdict(document: &TopologyDocument) -> DocumentVerdict {
    DocumentVerdict {
        draft: sound(document.model.draft.geometry.vertices.len()),
        accepted: None,
        source_valid: true,
        far_field_valid: true,
        presentation_valid: true,
    }
}

fn plain(points: &Vec<StoredPoint>) -> Vec<Point2> {
    points.iter().map(|point| Point2 { x: point.x, y: point.y }).collect()
}

/// Splines with one span to an interval and a node at each end of a span.
fn build(curve: &StoredCurve) -> CurveBuild {
    let (controls, intervals, multiplicities, open) = match &curve.spline {
        StoredSpline::Closed { controls, intervals, multiplicities } => {
            (controls, intervals, multiplicities, false)
        }
        StoredSpline::Open { controls, intervals, multiplicities } => {
            (controls, intervals, multiplicities, true)
        }
    };
    let span_bounds = (0..intervals.len())
        .map(|index| (n(index as f64), n(index as f64 + 1.0)))
        .collect();
    CurveBuild {
        spline: Ok(SplineData {
            controls: plain(controls),
            intervals: intervals.clone(),
            multiplicities: multiplicities.clone(),
            span_bounds,
        }),
        nodes: Ok(curve.spans.len() + usize::from(open)),
    }
}

fn scene_reading(scene: &StoredTopologyScene) -> SceneReading {
    let value = |number: Scalar| f64::from_bits(number.bits);
    SceneReading {
        domain_valid: value(scene.domain.min_x) < value(scene.domain.max_x)
            && value(scene.domain.min_y) < value(scene.domain.max_y),
        builds: scene.curves.iter().map(build).collect(),
        verdict: sound(scene.vertices.len()),
    }
}

fn reading(file: &FileV22) -> DocumentReading {
    DocumentReading {
        draft: scene_reading(&file.model.draft),
        accepted: scene_reading(&file.model.accepted),
        presentation_valid: true,
    }
}

fn formula_issue(source: &String) -> Option<String> {
    source.ends_with('+').then(|| "unexpected token at the end".to_string())
}

/// A polynomial whose coefficients are zero is linear.
fn normal_form(law: CoefficientLaw) -> CoefficientLaw {
    let zero = |field: &ScalarField| matches!(field, ScalarField::Constant(value) if *value == n(0.0));
    match &law.field {
        FieldLaw::Polynomial { chi1, chi2, .. } if zero(chi1) && zero(chi2) => {
            CoefficientLaw { field: FieldLaw::Linear, ..law }
        }
        _ => law,
    }
}

type Reader = LawReader<fn(&String) -> Option<String>, fn(CoefficientLaw) -> CoefficientLaw>;

fn reader() -> Reader {
    LawReader { check: formula_issue, normalize: normal_form }
}

fn open(file: FileV22) -> Result<TopologyDocument, String> {
    let version = file.version;
    parse_document(1000, Ok(version), Ok(file), reading, verdict, &reader(), limits())
}

fn stored(document: &TopologyDocument) -> FileV22 {
    save(document, &verdict(document), limits()).unwrap()
}

fn assert_survives(document: &TopologyDocument) {
    let opened = open(stored(document)).unwrap();
    assert_eq!(format!("{:?}", opened), format!("{:?}", document));
}

#[test]
fn version_22_default_document_round_trips_exactly() {
    let document = document();
    let file = stored(&document);
    assert_eq!(file.version, 22);
    assert_survives(&document);
}

#[test]
fn authored_material_laws_round_trip_without_enabling_solver_behavior() {
    let mut document = document();
    for scene in [&mut document.model.draft, &mut document.model.accepted] {
        let material = &mut scene.materials[0];
        material.mass_law = CoefficientLaw {
            field: FieldLaw::Polynomial {
                chi1: constant(0.1),
                chi2: constant(0.2),
                amplitude_bound: Some(constant(0.5)),
            },
            drive: TimeDrive::TravellingModulation {
                depth: constant(0.2),
                frequency_hz: constant(3.0),
                phase_radians: constant(0.4),
                wavenumber: constant(2.0),
                angle_radians: constant(0.3),
            },
            alternate: Some(constant(1.4)),
            inverted: true,
        };
        material.stiffness_law = CoefficientLaw {
            field: FieldLaw::Saturable { chi: constant(0.25), saturation: constant(1.5) },
            drive: TimeDrive::TimeCrystal {
                depth: constant(0.1),
                frequency_hz: constant(2.0),
                phase_radians: constant(0.2),
                sharpness: constant(4.0),
            },
            alternate: None,
            inverted: false,
        };
        material.electric_loss = Some(LossChannel {
            base_rate: formula("0.02 + 0*x"),
            law: DampingLaw {
                rate: RateLaw::Polynomial {
                    beta1: constant(0.1),
                    beta2: constant(0.2),
                    amplitude_bound: None,
                },
                drive: TimeDrive::ParametricPump {
                    depth: constant(0.1),
                    frequency_hz: constant(1.0),
                    phase_radians: constant(0.0),
                },
            },
        });
        material.magnetic_loss = Some(LossChannel {
            base_rate: constant(0.03),
            law: DampingLaw {
                rate: RateLaw::SaturableAbsorption { saturation: constant(1.2) },
                drive: TimeDrive::Absent,
            },
        });
        material.restoring =
            RestoringLaw::Phi4 { lambda: constant(0.5), amplitude_bound: constant(2.0) };
        material.switch_ramp = n(0.25);
    }
    assert_survives(&document);
}

#[test]
fn the_other_material_laws_survive_the_file() {
    let mut document = document();
    let material = &mut document.model.draft.materials[0];
    material.restoring = RestoringLaw::KleinGordon { omega0: constant(1.5) };
    material.electric_loss = Some(LossChannel {
        base_rate: constant(0.01),
        law: DampingLaw {
            rate: RateLaw::VanDerPol { threshold: constant(0.4), amplitude_bound: constant(3.0) },
            drive: TimeDrive::Absent,
        },
    });
    document.model.accepted.materials[0].restoring =
        RestoringLaw::SineGordon { omega0: formula("1 + r") };
    document.model.accepted.materials[0].magnetic_loss = Some(LossChannel {
        base_rate: constant(0.02),
        law: DampingLaw { rate: RateLaw::Constant, drive: TimeDrive::Absent },
    });
    assert_survives(&document);
}

#[test]
fn earlier_version_22_materials_receive_inert_law_defaults() {
    let document = document();
    let mut file = stored(&document);
    for scene in [&mut file.model.draft, &mut file.model.accepted] {
        for material in &mut scene.materials {
            material.mass_law = stored_linear_coefficient_law();
            material.stiffness_law = stored_linear_coefficient_law();
            material.electric_loss = None;
            material.magnetic_loss = None;
            material.restoring = stored_no_restoring_law();
            material.switch_ramp = n(0.0);
        }
    }
    let opened = open(file).unwrap();
    assert_eq!(format!("{:?}", opened), format!("{:?}", document));
}

#[test]
fn attached_topology_materials_probes_and_presentation_round_trip() {
    let mut document = divider_document();
    for scene in [&mut document.model.draft, &mut document.model.accepted] {
        scene.materials[0].mass_density = formula("1 + a*x*x");
        scene.materials[0].parameters =
            vec![MaterialParameter { name: "a".to_string(), value: n(0.25) }];
        scene.volume_sources.push(VolumeSource {
            region: BACKGROUND_REGION,
            enabled: true,
            profile: formula("exp(-r*r/w)"),
            parameters: vec![MaterialParameter { name: "w".to_string(), value: n(0.2) }],
            signal: harmonic(0.1, 2.0, 1.5, 0.3),
        });
        scene.outer_boundaries.bottom =
            OuterBoundaryCondition::Neumann { signal: harmonic(0.0, 1.0, 2.0, 0.0) };
    }
    document.model.probes = vec![
        TopologyProbeDefinition {
            id: 1,
            name: "point".to_string(),
            color: Rgb { red: 91, green: 220, blue: 194 },
            enabled: true,
            target: TopologyProbeTarget::Point(p(-0.5, 0.0)),
        },
        TopologyProbeDefinition {
            id: 2,
            name: "line".to_string(),
            color: Rgb { red: 248, green: 196, blue: 112 },
            enabled: false,
            target: TopologyProbeTarget::Segment {
                start: p(-0.8, -0.2),
                end: p(-0.2, 0.3),
                preset: ProbeSamplingPreset::Low,
            },
        },
        TopologyProbeDefinition {
            id: 3,
            name: "divider".to_string(),
            color: Rgb { red: 72, green: 166, blue: 255 },
            enabled: true,
            target: TopologyProbeTarget::Boundary(TopologyBoundaryProbeTarget {
                curve: 7,
                spans: vec![11],
                side: CurveTraceSide::Left,
                reversed: true,
                preset: ProbeSamplingPreset::Medium,
            }),
        },
        TopologyProbeDefinition {
            id: 4,
            name: "disk".to_string(),
            color: Rgb { red: 255, green: 106, blue: 123 },
            enabled: true,
            target: TopologyProbeTarget::AreaDisk { center: p(0.4, 0.0), radius: n(0.15) },
        },
        TopologyProbeDefinition {
            id: 5,
            name: "region".to_string(),
            color: Rgb { red: 180, green: 140, blue: 255 },
            enabled: true,
            target: TopologyProbeTarget::AreaRegion(BACKGROUND_REGION),
        },
    ];
    document.model.source.signal = harmonic(0.2, 4.0, 3.0, 0.4);
    document.model.far_field = FarFieldSettings { enabled: true, inset: n(0.18) };
    document.presentation.grid = false;
    document.presentation.field_gain = n(3.25);
    document.presentation.simulation_speed = n(0.35);
    document.presentation.field_auto_exposure = false;
    assert_survives(&document);
}

#[test]
fn invalid_detached_separator_draft_round_trips_with_valid_accepted_scene() {
    let mut document = divider_document();
    document.model.draft.geometry.curves[0].nodes[0].vertex = None;
    document.model.draft.geometry.vertices.remove(0);
    assert_survives(&document);
    let mut uncompiled = verdict(&document);
    uncompiled.accepted = Some("open face".to_string());
    assert_eq!(
        save(&document, &uncompiled, limits()).unwrap_err(),
        "Accepted topology is invalid: open face"
    );
}

#[test]
fn obsolete_unknown_and_malformed_files_fail_without_legacy_fallback() {
    let document = document();
    let mut file = stored(&document);
    file.version = 21;
    let issue = open(file).unwrap_err();
    assert!(issue.contains("requires version 22"));
    assert_eq!(issue, "Unsupported scene version 21; Funfern now requires version 22");

    let unknown = "unknown field `unexpected`".to_string();
    let refused = parse_document(
        1000,
        Ok(TOPOLOGY_FILE_VERSION),
        Err(unknown.clone()),
        reading,
        verdict,
        &reader(),
        limits(),
    );
    assert_eq!(refused.unwrap_err(), unknown);

    let mut file = stored(&document);
    file.model.accepted.domain.min_x = n(1.0);
    file.model.accepted.domain.max_x = n(-1.0);
    assert_eq!(open(file).unwrap_err(), "Scene contains an invalid domain");
}

#[test]
fn a_file_without_a_header_or_too_large_is_refused_before_its_contents() {
    let unreadable = "expected value".to_string();
    let refused = parse_document(
        10,
        Err(unreadable.clone()),
        Ok(stored(&document())),
        reading,
        verdict,
        &reader(),
        limits(),
    );
    assert_eq!(refused.unwrap_err(), unreadable);
    assert_eq!(check_size(MAX_FILE_BYTES), Ok(()));
    assert_eq!(
        check_size(MAX_FILE_BYTES + 1).unwrap_err(),
        "Scene file exceeds 2097152 bytes"
    );
    let refused = parse_document(
        MAX_FILE_BYTES + 1,
        Ok(22),
        Ok(stored(&document())),
        reading,
        verdict,
        &reader(),
        limits(),
    );
    assert_eq!(refused.unwrap_err(), "Scene file exceeds 2097152 bytes");
}

#[test]
fn every_physics_model_and_polarization_round_trips() {
    for physics in [
        PhysicsModel::Mechanical,
        PhysicsModel::Electromagnetic { polarization: ElectromagneticPolarization::Tm },
        PhysicsModel::Electromagnetic { polarization: ElectromagneticPolarization::Te },
    ] {
        let mut document = document();
        document.model.draft.physics = physics;
        document.model.accepted.physics = physics;
        assert_survives(&document);
    }
}

#[test]
fn every_boundary_condition_round_trips_with_its_signal() {
    let signal = harmonic(0.25, 1.5, 3.0, 0.75);
    let faces = [
        FaceBoundaryCondition::Reflecting,
        FaceBoundaryCondition::Impedance { ratio: n(0.4) },
        FaceBoundaryCondition::SecondOrderOutgoing,
        FaceBoundaryCondition::ElectricWall,
        FaceBoundaryCondition::MagneticWall,
        FaceBoundaryCondition::Neumann { signal },
        FaceBoundaryCondition::Dirichlet { signal },
    ];
    let outers = [
        OuterBoundaryCondition::Reflecting,
        OuterBoundaryCondition::FirstOrderOutgoing,
        OuterBoundaryCondition::SecondOrderOutgoing,
        OuterBoundaryCondition::ElectricWall,
        OuterBoundaryCondition::MagneticWall,
        OuterBoundaryCondition::Neumann { signal },
        OuterBoundaryCondition::Dirichlet { signal },
    ];
    for pass in 0..faces.len() {
        let mut document = divider_document();
        let curve = &mut document.model.draft.geometry.curves[0];
        curve.spans[0].behavior = SpanBehavior::Separated {
            left: faces[pass],
            right: faces[(pass + 1) % faces.len()],
            coupling: InternalBoundaryCoupling::Independent,
        };
        curve.spans[1].behavior = SpanBehavior::Separated {
            left: FaceBoundaryCondition::Reflecting,
            right: FaceBoundaryCondition::Reflecting,
            coupling: InternalBoundaryCoupling::ThinGap { stiffness_ratio: n(0.3) },
        };
        for scene in [&mut document.model.draft, &mut document.model.accepted] {
            scene.outer_boundaries = OuterBoundaryConditions {
                bottom: outers[pass],
                right: outers[pass],
                top: outers[pass],
                left: outers[pass],
            };
        }
        assert_survives(&document);
    }

    let mut document = divider_document();
    for scene in [&mut document.model.draft, &mut document.model.accepted] {
        scene.outer_boundaries = OuterBoundaryConditions {
            bottom: OuterBoundaryCondition::Reflecting,
            right: OuterBoundaryCondition::FirstOrderOutgoing,
            top: OuterBoundaryCondition::SecondOrderOutgoing,
            left: OuterBoundaryCondition::Neumann { signal },
        };
    }
    assert_survives(&document);
}

#[test]
fn every_overlay_and_sampling_preset_round_trips() {
    let overlays = [
        MaterialOverlay::Off,
        MaterialOverlay::Regions,
        MaterialOverlay::Subdomains,
        MaterialOverlay::AdaptationTarget,
        MaterialOverlay::Property(MaterialProperty::Density),
        MaterialOverlay::Property(MaterialProperty::Stiffness),
        MaterialOverlay::Property(MaterialProperty::Damping),
        MaterialOverlay::Property(MaterialProperty::WaveSpeed),
        MaterialOverlay::Property(MaterialProperty::Impedance),
        MaterialOverlay::Property(MaterialProperty::Anisotropy),
        MaterialOverlay::Property(MaterialProperty::VolumeSource),
    ];
    let vectors = [
        VectorOverlay::Off,
        VectorOverlay::ComplementaryField,
        VectorOverlay::RelativeEnergyFlow,
    ];
    let presets =
        [ProbeSamplingPreset::Low, ProbeSamplingPreset::Medium, ProbeSamplingPreset::High];
    for (index, overlay) in overlays.into_iter().enumerate() {
        let mut document = document();
        let flag = index % 2 == 0;
        document.presentation = PresentationSettings {
            grid: flag,
            control_polygons: !flag,
            handles: flag,
            accepted_reference: !flag,
            boundary_conditions: flag,
            mesh: !flag,
            mesh_boundaries: flag,
            point_probes: !flag,
            line_probes: flag,
            boundary_probes: !flag,
            area_probes: flag,
            far_field_contour: !flag,
            probe_labels: flag,
            field: !flag,
            field_gain: n(3.25),
            simulation_speed: n(0.35),
            field_auto_exposure: !flag,
            vector_overlay: vectors[index % vectors.len()],
            vector_overlay_ac_coupled: flag,
            vector_overlay_density: n(71.5),
            vector_overlay_gain: n(2.5),
            material_overlay: overlay,
            material_overlay_opacity: n(0.75),
            material_overlay_auto_range: flag,
            material_overlay_logarithmic: !flag,
            material_overlay_manual_min: n(-2.5),
            material_overlay_manual_max: n(4.5),
            mesh_edge: n(if flag { 0.07 } else { 0.11 }),
            adaptation: AdaptationSettings {
                enabled: !flag,
                accuracy_percent: n(if flag { 0.5 } else { 2.0 }),
                elements_per_wavelength: n(if flag { 5.0 } else { 9.0 }),
                minimum_edge: n(if flag { 0.015 } else { 0.03 }),
                maximum_edge: n(if flag { 0.2 } else { 0.35 }),
            },
            grid_scale_filter: flag,
            advanced_materials: flag,
        };
        document.model.probes = vec![TopologyProbeDefinition {
            id: 1,
            name: "line".to_string(),
            color: Rgb { red: 10, green: 20, blue: 30 },
            enabled: true,
            target: TopologyProbeTarget::Segment {
                start: p(-0.4, -0.2),
                end: p(0.4, 0.2),
                preset: presets[index % presets.len()],
            },
        }];
        assert_survives(&document);
    }
}

#[test]
fn a_version_22_file_from_an_earlier_build_takes_the_presentation_defaults() {
    let mut file = stored(&document());
    file.presentation.adaptation_target = false;
    file.presentation.vector_overlay_smoothed = true;
    file.presentation.vector_overlay_ac_coupled = None;
    let opened = open(file).unwrap();
    assert_eq!(opened.presentation, settings());

    let mut file = stored(&document());
    file.presentation.adaptation_target = true;
    file.presentation.material_overlay = StoredMaterialOverlay::Off;
    let migrated = open(file).unwrap();
    assert_eq!(migrated.presentation.material_overlay, MaterialOverlay::AdaptationTarget);
}

#[test]
fn a_chosen_overlay_outranks_the_retired_flag() {
    let mut file = stored(&document());
    file.presentation.adaptation_target = true;
    file.presentation.material_overlay = StoredMaterialOverlay::Regions;
    assert_eq!(open(file).unwrap().presentation.material_overlay, MaterialOverlay::Regions);
}

#[test]
fn the_solver_settings_survive_a_round_trip() {
    let mut document = document();
    document.presentation.mesh_edge = n(0.045);
    document.presentation.grid_scale_filter = false;
    document.presentation.adaptation = AdaptationSettings {
        enabled: false,
        accuracy_percent: n(6.0),
        elements_per_wavelength: n(9.0),
        minimum_edge: n(0.011),
        maximum_edge: n(0.29),
    };
    let decoded = open(stored(&document)).unwrap();
    assert_eq!(decoded.presentation, document.presentation);
    assert!(
        !decoded.presentation.adaptation.enabled,
        "a session left with adaptation off must open with it off"
    );
}

#[test]
fn the_retired_smoothing_choice_migrates_to_arrow_ac_coupling() {
    for old_value in [false, true] {
        let mut file = stored(&document());
        assert!(file.presentation.vector_overlay_ac_coupled.is_some());
        file.presentation.vector_overlay_ac_coupled = None;
        file.presentation.vector_overlay_smoothed = old_value;
        let migrated = open(file).unwrap();
        assert_eq!(migrated.presentation.vector_overlay_ac_coupled, old_value);
    }
}

#[test]
fn malformed_values_are_rejected() {
    let mut file = stored(&document());
    file.model.draft.materials[0].damping = StoredScalarField::Formula {
        source: "1 +".to_string(),
    };
    let issue = open(file).unwrap_err();
    assert!(issue.contains("unexpected token"), "{issue}");

    for coordinate in [f64::INFINITY, f64::NEG_INFINITY, f64::NAN] {
        let controls = vec![
            StoredPoint { x: n(coordinate), y: n(0.0) },
            StoredPoint { x: n(0.0), y: n(0.0) },
            StoredPoint { x: n(1.0), y: n(0.0) },
            StoredPoint { x: n(1.0), y: n(1.0) },
        ];
        let built = Ok(SplineData {
            controls: plain(&controls),
            intervals: vec![n(1.0)],
            multiplicities: vec![],
            span_bounds: vec![(n(0.0), n(1.0))],
        });
        assert_eq!(decode_spline(&controls, &built).unwrap_err(), "Coordinates must be finite");
        let mut file = stored(&divider_document());
        file.model.draft.curves[0].spline = StoredSpline::Closed {
            controls,
            intervals: vec![n(1.0), n(1.0)],
            multiplicities: vec![],
        };
        assert_eq!(open(file).unwrap_err(), "Coordinates must be finite");
    }
}

#[test]
fn a_formula_that_reads_is_kept_by_its_source() {
    let stored = StoredScalarField::Formula { source: "x + y".to_string() };
    match decode_scalar_field(&stored, &reader()).unwrap() {
        ScalarField::Formula(source) => assert_eq!(source, "x + y"),
        ScalarField::Constant(_) => panic!("a formula became a constant"),
    }
    let broken = StoredScalarField::Formula { source: "x +".to_string() };
    assert_eq!(
        decode_scalar_field(&broken, &reader()).unwrap_err(),
        "unexpected token at the end"
    );
}

fn stored_polynomial(chi1: f64, bound: &str) -> StoredCoefficientLaw {
    StoredCoefficientLaw {
        field: StoredFieldLaw::Polynomial {
            chi1: StoredScalarField::Constant { value: n(chi1) },
            chi2: StoredScalarField::Constant { value: n(0.0) },
            amplitude_bound: Some(StoredScalarField::Formula { source: bound.to_string() }),
        },
        ..stored_linear_coefficient_law()
    }
}

#[test]
fn a_law_is_read_in_its_normal_form() {
    let law = decode_coefficient_law(&stored_polynomial(0.0, "1 + x"), &reader()).unwrap();
    assert!(matches!(law.field, FieldLaw::Linear));
    let law = decode_coefficient_law(&stored_polynomial(0.5, "1 + x"), &reader()).unwrap();
    assert!(matches!(law.field, FieldLaw::Polynomial { .. }));

    let mut file = stored(&document());
    file.model.draft.materials[0].mass_law = stored_polynomial(0.0, "1 + x");
    let opened = open(file).unwrap();
    assert!(matches!(opened.model.draft.materials[0].mass_law.field, FieldLaw::Linear));
}

#[test]
fn a_formula_that_the_normal_form_drops_is_still_checked() {
    assert_eq!(
        decode_coefficient_law(&stored_polynomial(0.0, "1 +"), &reader()).unwrap_err(),
        "unexpected token at the end"
    );
    let mut file = stored(&document());
    file.model.accepted.materials[0].stiffness_law = stored_polynomial(0.0, "1 +");
    assert_eq!(open(file).unwrap_err(), "unexpected token at the end");
}

#[test]
fn the_stored_multiplicities_choose_the_spline_constructor() {
    let controls = vec![StoredPoint { x: n(0.0), y: n(0.5) }, StoredPoint { x: n(1.0), y: n(2.0) }];
    let closed = StoredSpline::Closed {
        controls: controls.clone(),
        intervals: vec![n(1.0), n(2.0)],
        multiplicities: vec![],
    };
    let request = spline_request(&closed).unwrap();
    assert!(!request.open);
    assert_eq!(request.controls, vec![p(0.0, 0.5), p(1.0, 2.0)]);
    assert_eq!(request.intervals, vec![n(1.0), n(2.0)]);
    assert_eq!(request.multiplicities, None);
    let open = StoredSpline::Open {
        controls,
        intervals: vec![n(1.0)],
        multiplicities: vec![4, 4],
    };
    let request = spline_request(&open).unwrap();
    assert!(request.open);
    assert_eq!(request.multiplicities, Some(vec![4, 4]));
    let endless = StoredSpline::Open {
        controls: vec![StoredPoint { x: n(f64::INFINITY), y: n(0.0) }],
        intervals: vec![],
        multiplicities: vec![],
    };
    assert_eq!(spline_request(&endless).unwrap_err(), "Coordinates must be finite");
}

#[test]
fn an_opened_document_is_saved_again() {
    let mut file = stored(&divider_document());
    file.model.draft.materials[0].mass_law = stored_polynomial(0.0, "1 + x");
    let opened = open(file).unwrap();
    assert_survives(&opened);
}

#[test]
fn a_curve_with_a_malformed_node_table_is_refused() {
    let file = stored(&divider_document());
    let curve = &file.model.draft.curves[0];
    let mut built = build(curve);
    built.nodes = Ok(5);
    assert_eq!(
        decode_curve(curve, &built).unwrap_err(),
        "Scene contains a malformed curve-node table"
    );
    built.nodes = Err("too few spans".to_string());
    assert_eq!(decode_curve(curve, &built).unwrap_err(), "too few spans");
    built.spline = Err("bad knots".to_string());
    assert_eq!(decode_curve(curve, &built).unwrap_err(), "bad knots");
}

#[test]
fn a_scene_that_is_not_sound_is_refused_with_the_reason() {
    let file = stored(&document());
    let mut reading = scene_reading(&file.model.draft);
    reading.verdict.structure = Some("faces overlap".to_string());
    let issue = decode_scene(&file.model.draft, &reading, &reader(), limits()).unwrap_err();
    assert!(issue.contains("faces overlap"), "{issue}");
}

#[test]
fn invalid_settings_are_refused() {
    let stored = encode_presentation(settings());
    assert_eq!(
        decode_presentation(stored, false).unwrap_err(),
        "Scene contains invalid presentation settings"
    );
    assert_eq!(decode_presentation(stored, true).unwrap(), settings());
    let document = document();
    let mut refused = verdict(&document);
    refused.presentation_valid = false;
    assert_eq!(
        save(&document, &refused, limits()).unwrap_err(),
        "Scene contains invalid presentation settings"
    );
}

#[test]
fn a_source_in_a_missing_region_is_refused() {
    let mut document = document();
    document.model.source.region = 99;
    assert_eq!(
        save(&document, &verdict(&document), limits()).unwrap_err(),
        "Scene contains an invalid point source"
    );
}

fn with_probe(target: TopologyProbeTarget) -> TopologyDocument {
    let mut document = divider_document();
    document.model.probes = vec![TopologyProbeDefinition {
        id: 1,
        name: "probe".to_string(),
        color: Rgb { red: 1, green: 2, blue: 3 },
        enabled: true,
        target,
    }];
    document
}

fn refusal(document: &TopologyDocument) -> String {
    save(document, &verdict(document), limits()).unwrap_err()
}

#[test]
fn every_kind_of_probe_is_checked() {
    assert_eq!(
        refusal(&with_probe(TopologyProbeTarget::Point(p(f64::NAN, 0.0)))),
        "Point probe is not finite"
    );
    let same = TopologyProbeTarget::Segment {
        start: p(0.1, 0.2),
        end: p(0.1, 0.2),
        preset: ProbeSamplingPreset::Low,
    };
    assert_eq!(refusal(&with_probe(same)), "Scene contains an invalid segment probe");
    let boundary = |curve: u64, spans: Vec<u64>| {
        TopologyProbeTarget::Boundary(TopologyBoundaryProbeTarget {
            curve,
            spans,
            side: CurveTraceSide::Right,
            reversed: false,
            preset: ProbeSamplingPreset::High,
        })
    };
    assert_eq!(
        refusal(&with_probe(boundary(99, vec![11]))),
        "Boundary probe references a missing curve"
    );
    assert_eq!(
        refusal(&with_probe(boundary(7, vec![]))),
        "Scene contains an invalid boundary probe"
    );
    assert_eq!(
        refusal(&with_probe(boundary(7, vec![12, 11]))),
        "Scene contains an invalid boundary probe"
    );
    assert!(save(
        &with_probe(boundary(7, vec![11, 12])),
        &verdict(&with_probe(boundary(7, vec![11, 12]))),
        limits()
    )
    .is_ok());
    let disk = TopologyProbeTarget::AreaDisk { center: p(0.0, 0.0), radius: n(0.0) };
    assert_eq!(refusal(&with_probe(disk)), "Scene contains an invalid disk probe");
    assert_eq!(
        refusal(&with_probe(TopologyProbeTarget::AreaRegion(9))),
        "Area probe references a missing region"
    );
    let mut unnamed = with_probe(TopologyProbeTarget::Point(p(0.0, 0.0)));
    unnamed.model.probes[0].name = " \t".to_string();
    assert_eq!(refusal(&unnamed), "Scene contains an invalid probe");
    let mut long = with_probe(TopologyProbeTarget::Point(p(0.0, 0.0)));
    long.model.probes[0].name = "x".repeat(65);
    assert_eq!(refusal(&long), "Scene contains an invalid probe");
}

#[test]
fn too_many_probes_or_sampling_points_are_refused() {
    let mut document = document();
    for id in 1..=33 {
        document.model.probes.push(TopologyProbeDefinition {
            id,
            name: format!("probe {id}"),
            color: Rgb { red: 0, green: 0, blue: 0 },
            enabled: true,
            target: TopologyProbeTarget::Point(p(0.0, 0.0)),
        });
    }
    assert_eq!(refusal(&document), "Scene contains more than 32 probes");
    document.model.probes.clear();
    for id in 1..=17 {
        document.model.probes.push(TopologyProbeDefinition {
            id,
            name: format!("probe {id}"),
            color: Rgb { red: 0, green: 0, blue: 0 },
            enabled: true,
            target: TopologyProbeTarget::Segment {
                start: p(0.0, 0.0),
                end: p(0.5, 0.0),
                preset: ProbeSamplingPreset::High,
            },
        });
    }
    assert_eq!(refusal(&document), "Line probes exceed the 2048-point sampling budget");
}

#[test]
fn a_new_scene_is_empty_outgoing_and_driven() {
    let blank = document();
    let source = blank.model.source;
    let created = new_scene_document(blank);
    let scene = &created.model.accepted;
    assert!(scene.geometry.curves.is_empty());
    assert_eq!(scene.regions.len(), 1);
    let walls = scene.outer_boundaries;
    for wall in [walls.bottom, walls.right, walls.top, walls.left] {
        assert_eq!(wall, OuterBoundaryCondition::SecondOrderOutgoing);
    }
    assert!(created.model.source.enabled);
    assert_eq!(PointSource { enabled: source.enabled, ..created.model.source }, source);
    let mut gallery = Gallery { open: true, opened: Some(2) };
    assert_eq!(gallery.new_scene(Ok(())), "New scene");
    assert_eq!(gallery.opened, None, "a new scene is not an example");
}

#[test]
fn a_loaded_document_is_handed_out_once() {
    let mut loaded = candidate(document());
    assert!(loaded.advance(1).unwrap().is_ok());
    assert!(loaded.advance(1).is_none());
    let mut parsed = parse(open(encode_document(&document()))).unwrap();
    assert!(parsed.advance(1).is_some());
    assert_eq!(parse(Err("broken".to_string())).unwrap_err(), "broken");
}
