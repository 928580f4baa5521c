//! The stored form of whole documents, and what it takes to open one.

use crate::collect::{first_issue, issue_of_prefix, mapped};
use crate::law_codec::{scalar_field_issue, LawReader, LawReading};
use crate::model::{
    AuthoredFaceAssignment, CoefficientLaw, Material, Region, TopologyBoundaryProbeTarget, TopologyCurve,
    TopologyDocument, TopologyDocumentModel, TopologyGeometry, TopologyProbeDefinition,
    TopologyProbeTarget, TopologyScene, TopologyVertex, VolumeSource,
};
use crate::presentation_codec::{
    decode_presentation, encode_presentation, plain_presentation, stored_presentation,
};
use crate::scene_codec::{
    curve_issue, decode_curve, decode_material, decode_volume_source, encode_curve, encode_material,
    encode_volume_source, material_issue, reads_curve, reads_material, reads_volume_source,
    stores_curve, stores_material, stores_volume_source, CurveBuild,
};
use crate::stored::{
    FileV22, StoredCurve, StoredFaceAssignment, StoredMaterial, StoredRegion,
    StoredTopologyDocumentModel, StoredTopologyProbe, StoredTopologyProbeTarget,
    StoredTopologyScene, StoredVertex, StoredVolumeSource, TOPOLOGY_FILE_VERSION,
};
use crate::validation::{structure_issue, validate_scene_structure, DocumentLimits, SceneVerdict};
use crate::value_codec::{
    decode_assignment, decode_curve_side, decode_domain, decode_far_field, decode_outer_conditions,
    decode_physics, decode_point, decode_probe_preset, decode_region, decode_source, decode_vertex,
    encode_assignment, encode_curve_side, encode_domain, encode_far_field, encode_outer_conditions,
    encode_physics, encode_point, encode_probe_preset, encode_region, encode_source, encode_vertex,
    plain_assignment, plain_curve_side, plain_domain, plain_far_field, plain_outer_conditions,
    plain_physics, plain_point, plain_probe_preset, plain_region, plain_source,
    plain_values_survive_the_file, plain_vertex, stored_assignment, stored_curve_side,
    stored_domain, stored_far_field, stored_outer_conditions, stored_physics, stored_point,
    stored_probe_preset, stored_region, stored_source, stored_vertex,
};
use vstd::prelude::*;

verus! {

pub open spec fn stored_regions(regions: Seq<Region>) -> Seq<StoredRegion> {
    regions.map_values(|region: Region| stored_region(region))
}

pub open spec fn plain_regions(regions: Seq<StoredRegion>) -> Seq<Region> {
    regions.map_values(|region: StoredRegion| plain_region(region))
}

pub open spec fn stored_assignments(assignments: Seq<AuthoredFaceAssignment>) -> Seq<
    StoredFaceAssignment,
> {
    assignments.map_values(|assignment: AuthoredFaceAssignment| stored_assignment(assignment))
}

pub open spec fn plain_assignments(assignments: Seq<StoredFaceAssignment>) -> Seq<
    AuthoredFaceAssignment,
> {
    assignments.map_values(|assignment: StoredFaceAssignment| plain_assignment(assignment))
}

pub open spec fn stored_vertices(vertices: Seq<TopologyVertex>) -> Seq<StoredVertex> {
    vertices.map_values(|vertex: TopologyVertex| stored_vertex(vertex))
}

pub open spec fn plain_vertices(vertices: Seq<StoredVertex>) -> Seq<TopologyVertex> {
    vertices.map_values(|vertex: StoredVertex| plain_vertex(vertex))
}

/// What is written for a scene.
pub open spec fn stores_scene(stored: StoredTopologyScene, scene: TopologyScene) -> bool {
    &&& stored.domain == stored_domain(scene.geometry.domain)
    &&& stored.physics == stored_physics(scene.physics)
    &&& stored.materials@.len() == scene.materials@.len()
    &&& forall|i: int|
        0 <= i < scene.materials@.len() ==> stores_material(
            stored.materials@[i],
            #[trigger] scene.materials@[i],
        )
    &&& stored.regions@ == stored_regions(scene.regions@)
    &&& stored.face_assignments@ == stored_assignments(scene.face_assignments@)
    &&& stored.volume_sources@.len() == scene.volume_sources@.len()
    &&& forall|i: int|
        0 <= i < scene.volume_sources@.len() ==> stores_volume_source(
            stored.volume_sources@[i],
            #[trigger] scene.volume_sources@[i],
        )
    &&& stored.outer_boundaries == stored_outer_conditions(scene.outer_boundaries)
    &&& stored.curves@.len() == scene.geometry.curves@.len()
    &&& forall|i: int|
        0 <= i < scene.geometry.curves@.len() ==> stores_curve(
            stored.curves@[i],
            #[trigger] scene.geometry.curves@[i],
        )
    &&& stored.vertices@ == stored_vertices(scene.geometry.vertices@)
}

/// What is read from a stored scene.
pub open spec fn reads_scene(
    stored: StoredTopologyScene,
    builds: Seq<CurveBuild>,
    laws: LawReading,
    scene: TopologyScene,
) -> bool {
    &&& scene.geometry.domain == plain_domain(stored.domain)
    &&& scene.physics == plain_physics(stored.physics)
    &&& scene.materials@.len() == stored.materials@.len()
    &&& forall|i: int|
        0 <= i < stored.materials@.len() ==> reads_material(
            stored.materials@[i],
            laws,
            #[trigger] scene.materials@[i],
        )
    &&& scene.regions@ == plain_regions(stored.regions@)
    &&& scene.face_assignments@ == plain_assignments(stored.face_assignments@)
    &&& scene.volume_sources@.len() == stored.volume_sources@.len()
    &&& forall|i: int|
        0 <= i < stored.volume_sources@.len() ==> reads_volume_source(
            stored.volume_sources@[i],
            #[trigger] scene.volume_sources@[i],
        )
    &&& scene.outer_boundaries == plain_outer_conditions(stored.outer_boundaries)
    &&& scene.geometry.curves@.len() == stored.curves@.len()
    &&& forall|i: int|
        0 <= i < stored.curves@.len() ==> reads_curve(
            stored.curves@[i],
            builds[i],
            #[trigger] scene.geometry.curves@[i],
        )
    &&& scene.geometry.vertices@ == plain_vertices(stored.vertices@)
}

/// What the engine says of a stored scene.
#[derive(Debug)]
pub struct SceneReading {
    pub domain_valid: bool,
    /// What it makes of each stored curve.
    pub builds: Vec<CurveBuild>,
    /// What it says of the scene once it is read.
    pub verdict: SceneVerdict,
}

/// The issue of the first curve that has one, among the first `count`.
pub open spec fn first_curve_issue(
    curves: Seq<StoredCurve>,
    builds: Seq<CurveBuild>,
    count: int,
) -> Option<Seq<char>>
    decreases count,
{
    if count <= 0 {
        None
    } else {
        let earlier = first_curve_issue(curves, builds, count - 1);
        if earlier is Some {
            earlier
        } else {
            curve_issue(curves[count - 1], builds[count - 1])
        }
    }
}

pub open spec fn first_material_issue(
    materials: Seq<StoredMaterial>,
    laws: LawReading,
) -> Option<String> {
    first_issue(materials, |material: StoredMaterial| material_issue(material, laws))
}

pub open spec fn first_volume_issue(
    sources: Seq<StoredVolumeSource>,
    laws: LawReading,
) -> Option<String> {
    first_issue(sources, |source: StoredVolumeSource| scalar_field_issue(source.profile, laws))
}

/// Why a stored scene is not read at all, if so.
pub open spec fn scene_read_issue(
    stored: StoredTopologyScene,
    reading: SceneReading,
    laws: LawReading,
) -> Option<Seq<char>> {
    let curves = first_curve_issue(stored.curves@, reading.builds@, stored.curves@.len() as int);
    if !reading.domain_valid {
        Some("Scene contains an invalid domain"@)
    } else if curves is Some {
        curves
    } else if first_material_issue(stored.materials@, laws) is Some {
        Some(first_material_issue(stored.materials@, laws)->0@)
    } else if first_volume_issue(stored.volume_sources@, laws) is Some {
        Some(first_volume_issue(stored.volume_sources@, laws)->0@)
    } else {
        None
    }
}

/// Whether this is what reading a stored scene comes to: the first thing that
/// keeps it from being read, or the scene, unless its structure is refused.
pub open spec fn decodes_scene(
    stored: StoredTopologyScene,
    reading: SceneReading,
    laws: LawReading,
    limits: DocumentLimits,
    result: Result<TopologyScene, String>,
) -> bool {
    match scene_read_issue(stored, reading, laws) {
        Some(issue) => result is Err && result->Err_0@ == issue,
        None => match result {
            Ok(scene) => reads_scene(stored, reading.builds@, laws, scene) && structure_issue(
                scene,
                reading.verdict,
                limits,
            ) is None,
            Err(issue) => exists|scene: TopologyScene| #[trigger]
                reads_scene(stored, reading.builds@, laws, scene) && structure_issue(
                    scene,
                    reading.verdict,
                    limits,
                ) == Some(issue@),
        },
    }
}

fn encode_region_ref(region: &Region) -> (result: StoredRegion)
    ensures
        result == stored_region(*region),
{
    encode_region(*region)
}

fn decode_region_ref(region: &StoredRegion) -> (result: Region)
    ensures
        result == plain_region(*region),
{
    decode_region(*region)
}

fn encode_assignment_ref(assignment: &AuthoredFaceAssignment) -> (result: StoredFaceAssignment)
    ensures
        result == stored_assignment(*assignment),
{
    encode_assignment(*assignment)
}

fn decode_assignment_ref(assignment: &StoredFaceAssignment) -> (result: AuthoredFaceAssignment)
    ensures
        result == plain_assignment(*assignment),
{
    decode_assignment(*assignment)
}

fn encode_vertex_ref(vertex: &TopologyVertex) -> (result: StoredVertex)
    ensures
        result == stored_vertex(*vertex),
{
    encode_vertex(*vertex)
}

fn decode_vertex_ref(vertex: &StoredVertex) -> (result: TopologyVertex)
    ensures
        result == plain_vertex(*vertex),
{
    decode_vertex(*vertex)
}

pub fn encode_scene(scene: &TopologyScene) -> (result: StoredTopologyScene)
    ensures
        stores_scene(result, *scene),
{
    let materials: Vec<StoredMaterial> = mapped(&scene.materials, encode_material);
    let regions: Vec<StoredRegion> = mapped(&scene.regions, encode_region_ref);
    let face_assignments: Vec<StoredFaceAssignment> = mapped(
        &scene.face_assignments,
        encode_assignment_ref,
    );
    let volume_sources: Vec<StoredVolumeSource> = mapped(
        &scene.volume_sources,
        encode_volume_source,
    );
    let curves: Vec<StoredCurve> = mapped(&scene.geometry.curves, encode_curve);
    let vertices: Vec<StoredVertex> = mapped(&scene.geometry.vertices, encode_vertex_ref);
    assert(regions@ =~= stored_regions(scene.regions@));
    assert(face_assignments@ =~= stored_assignments(scene.face_assignments@));
    assert(vertices@ =~= stored_vertices(scene.geometry.vertices@));
    assert forall|i: int| 0 <= i < scene.materials@.len() implies stores_material(
        materials@[i],
        #[trigger] scene.materials@[i],
    ) by {
        assert(call_ensures(encode_material, (&scene.materials@[i],), materials@[i]));
    }
    assert forall|i: int| 0 <= i < scene.volume_sources@.len() implies stores_volume_source(
        volume_sources@[i],
        #[trigger] scene.volume_sources@[i],
    ) by {
        assert(call_ensures(
            encode_volume_source,
            (&scene.volume_sources@[i],),
            volume_sources@[i],
        ));
    }
    assert forall|i: int| 0 <= i < scene.geometry.curves@.len() implies stores_curve(
        curves@[i],
        #[trigger] scene.geometry.curves@[i],
    ) by {
        assert(call_ensures(encode_curve, (&scene.geometry.curves@[i],), curves@[i]));
    }
    StoredTopologyScene {
        domain: encode_domain(scene.geometry.domain),
        physics: encode_physics(scene.physics),
        materials,
        regions,
        face_assignments,
        volume_sources,
        outer_boundaries: encode_outer_conditions(scene.outer_boundaries),
        curves,
        vertices,
    }
}

proof fn an_early_curve_issue_stays(
    curves: Seq<StoredCurve>,
    builds: Seq<CurveBuild>,
    count: int,
    total: int,
)
    requires
        0 <= count <= total,
        first_curve_issue(curves, builds, count) is Some,
    ensures
        first_curve_issue(curves, builds, total) == first_curve_issue(curves, builds, count),
    decreases total,
{
    if count < total {
        an_early_curve_issue_stays(curves, builds, count, total - 1);
    }
}

fn decode_curves(stored: &Vec<StoredCurve>, builds: &Vec<CurveBuild>) -> (result: Result<
    Vec<TopologyCurve>,
    String,
>)
    requires
        builds@.len() == stored@.len(),
    ensures
        match first_curve_issue(stored@, builds@, stored@.len() as int) {
            Some(issue) => result is Err && result->Err_0@ == issue,
            None => {
                &&& result is Ok
                &&& result->Ok_0@.len() == stored@.len()
                &&& forall|i: int|
                    0 <= i < stored@.len() ==> reads_curve(
                        stored@[i],
                        builds@[i],
                        #[trigger] result->Ok_0@[i],
                    )
            },
        },
{
    let mut curves: Vec<TopologyCurve> = Vec::new();
    let mut index: usize = 0;
    while index < stored.len()
        invariant
            index <= stored@.len(),
            builds@.len() == stored@.len(),
            curves@.len() == index,
            first_curve_issue(stored@, builds@, index as int) is None,
            forall|i: int|
                0 <= i < index ==> reads_curve(stored@[i], builds@[i], #[trigger] curves@[i]),
        decreases stored@.len() - index,
    {
        match decode_curve(&stored[index], &builds[index]) {
            Ok(curve) => {
                curves.push(curve);
            },
            Err(issue) => {
                proof {
                    an_early_curve_issue_stays(
                        stored@,
                        builds@,
                        index + 1,
                        stored@.len() as int,
                    );
                }
                return Err(issue);
            },
        }
        index = index + 1;
    }
    Ok(curves)
}

fn decode_materials<C, N>(stored: &Vec<StoredMaterial>, reader: &LawReader<C, N>) -> (result: Result<
    Vec<Material>,
    String,
>) where
    C: Fn(&String) -> Option<String>,
    N: Fn(CoefficientLaw) -> CoefficientLaw,

    requires
        reader.wf(),
    ensures
        match first_material_issue(stored@, reader.reading()) {
            Some(issue) => result == Err::<Vec<Material>, String>(issue),
            None => {
                &&& result is Ok
                &&& result->Ok_0@.len() == stored@.len()
                &&& forall|i: int|
                    0 <= i < stored@.len() ==> reads_material(
                        stored@[i],
                        reader.reading(),
                        #[trigger] result->Ok_0@[i],
                    )
            },
        },
{
    let ghost laws = reader.reading();
    let ghost issue_of = |material: StoredMaterial| material_issue(material, laws);
    let mut materials: Vec<Material> = Vec::new();
    let mut index: usize = 0;
    while index < stored.len()
        invariant
            index <= stored@.len(),
            materials@.len() == index,
            reader.wf(),
            laws == reader.reading(),
            issue_of == (|material: StoredMaterial| material_issue(material, laws)),
            first_issue(stored@.take(index as int), issue_of) is None,
            forall|i: int|
                0 <= i < index ==> reads_material(stored@[i], laws, #[trigger] materials@[i]),
        decreases stored@.len() - index,
    {
        proof {
            issue_of_prefix(stored@, index as int, issue_of);
        }
        match decode_material(&stored[index], reader) {
            Ok(material) => {
                materials.push(material);
            },
            Err(issue) => {
                return Err(issue);
            },
        }
        index = index + 1;
    }
    assert(stored@.take(index as int) =~= stored@);
    Ok(materials)
}

fn decode_volume_sources<C, N>(
    stored: &Vec<StoredVolumeSource>,
    reader: &LawReader<C, N>,
) -> (result: Result<Vec<VolumeSource>, String>) where
    C: Fn(&String) -> Option<String>,
    N: Fn(CoefficientLaw) -> CoefficientLaw,

    requires
        reader.wf(),
    ensures
        match first_volume_issue(stored@, reader.reading()) {
            Some(issue) => result == Err::<Vec<VolumeSource>, String>(issue),
            None => {
                &&& result is Ok
                &&& result->Ok_0@.len() == stored@.len()
                &&& forall|i: int|
                    0 <= i < stored@.len() ==> reads_volume_source(
                        stored@[i],
                        #[trigger] result->Ok_0@[i],
                    )
            },
        },
{
    let ghost laws = reader.reading();
    let ghost issue_of = |source: StoredVolumeSource| scalar_field_issue(source.profile, laws);
    let mut sources: Vec<VolumeSource> = Vec::new();
    let mut index: usize = 0;
    while index < stored.len()
        invariant
            index <= stored@.len(),
            sources@.len() == index,
            reader.wf(),
            laws == reader.reading(),
            issue_of == (|source: StoredVolumeSource| scalar_field_issue(source.profile, laws)),
            first_issue(stored@.take(index as int), issue_of) is None,
            forall|i: int|
                0 <= i < index ==> reads_volume_source(stored@[i], #[trigger] sources@[i]),
        decreases stored@.len() - index,
    {
        proof {
            issue_of_prefix(stored@, index as int, issue_of);
        }
        match decode_volume_source(&stored[index], reader) {
            Ok(source) => {
                sources.push(source);
            },
            Err(issue) => {
                return Err(issue);
            },
        }
        index = index + 1;
    }
    assert(stored@.take(index as int) =~= stored@);
    Ok(sources)
}

pub fn decode_scene<C, N>(
    stored: &StoredTopologyScene,
    reading: &SceneReading,
    reader: &LawReader<C, N>,
    limits: DocumentLimits,
) -> (result: Result<TopologyScene, String>) where
    C: Fn(&String) -> Option<String>,
    N: Fn(CoefficientLaw) -> CoefficientLaw,

    requires
        reader.wf(),
        reading.builds@.len() == stored.curves@.len(),
        reading.verdict.vertex_placed@.len() == stored.vertices@.len(),
    ensures
        decodes_scene(*stored, *reading, reader.reading(), limits, result),
{
    if !reading.domain_valid {
        return Err("Scene contains an invalid domain".to_owned());
    }
    let curves: Vec<TopologyCurve> = match decode_curves(&stored.curves, &reading.builds) {
        Ok(curves) => curves,
        Err(issue) => {
            return Err(issue);
        },
    };
    let vertices: Vec<TopologyVertex> = mapped(&stored.vertices, decode_vertex_ref);
    let materials: Vec<Material> = match decode_materials(&stored.materials, reader) {
        Ok(materials) => materials,
        Err(issue) => {
            return Err(issue);
        },
    };
    let regions: Vec<Region> = mapped(&stored.regions, decode_region_ref);
    let face_assignments: Vec<AuthoredFaceAssignment> = mapped(
        &stored.face_assignments,
        decode_assignment_ref,
    );
    let volume_sources: Vec<VolumeSource> = match decode_volume_sources(
        &stored.volume_sources,
        reader,
    ) {
        Ok(sources) => sources,
        Err(issue) => {
            return Err(issue);
        },
    };
    assert(vertices@ =~= plain_vertices(stored.vertices@));
    assert(regions@ =~= plain_regions(stored.regions@));
    assert(face_assignments@ =~= plain_assignments(stored.face_assignments@));
    let scene = TopologyScene {
        geometry: TopologyGeometry { domain: decode_domain(stored.domain), curves, vertices },
        physics: decode_physics(stored.physics),
        materials,
        regions,
        face_assignments,
        volume_sources,
        outer_boundaries: decode_outer_conditions(stored.outer_boundaries),
    };
    assert(reads_scene(*stored, reading.builds@, reader.reading(), scene));
    match validate_scene_structure(&scene, &reading.verdict, limits) {
        Ok(()) => Ok(scene),
        Err(issue) => Err(issue),
    }
}

pub open spec fn stores_target(
    stored: StoredTopologyProbeTarget,
    target: TopologyProbeTarget,
) -> bool {
    match target {
        TopologyProbeTarget::Point(point) => stored == StoredTopologyProbeTarget::Point {
            position: stored_point(point),
        },
        TopologyProbeTarget::Segment { start, end, preset } => stored
            == StoredTopologyProbeTarget::Segment {
            start: stored_point(start),
            end: stored_point(end),
            preset: stored_probe_preset(preset),
        },
        TopologyProbeTarget::Boundary(target) => stored matches StoredTopologyProbeTarget::Boundary {
            curve,
            spans,
            side,
            reversed,
            preset,
        } && curve == target.curve && spans@ == target.spans@ && side == stored_curve_side(
            target.side,
        ) && reversed == target.reversed && preset == stored_probe_preset(target.preset),
        TopologyProbeTarget::AreaDisk { center, radius } => stored
            == StoredTopologyProbeTarget::AreaDisk { center: stored_point(center), radius },
        TopologyProbeTarget::AreaRegion(region) => stored == StoredTopologyProbeTarget::AreaRegion {
            region,
        },
    }
}

pub open spec fn same_target(left: TopologyProbeTarget, right: TopologyProbeTarget) -> bool {
    match (left, right) {
        (TopologyProbeTarget::Boundary(left), TopologyProbeTarget::Boundary(right)) => {
            &&& left.curve == right.curve
            &&& left.spans@ == right.spans@
            &&& left.side == right.side
            &&& left.reversed == right.reversed
            &&& left.preset == right.preset
        },
        _ => left == right,
    }
}

pub open spec fn stores_probe(
    stored: StoredTopologyProbe,
    probe: TopologyProbeDefinition,
) -> bool {
    &&& stored.id == probe.id
    &&& stored.name == probe.name
    &&& stored.color == probe.color
    &&& stored.enabled == probe.enabled
    &&& stores_target(stored.target, probe.target)
}

pub open spec fn same_probe(
    left: TopologyProbeDefinition,
    right: TopologyProbeDefinition,
) -> bool {
    &&& left.id == right.id
    &&& left.name == right.name
    &&& left.color == right.color
    &&& left.enabled == right.enabled
    &&& same_target(left.target, right.target)
}

pub fn encode_probe(probe: &TopologyProbeDefinition) -> (result: StoredTopologyProbe)
    ensures
        stores_probe(result, *probe),
{
    let target: StoredTopologyProbeTarget = match &probe.target {
        TopologyProbeTarget::Point(point) => StoredTopologyProbeTarget::Point {
            position: encode_point(*point),
        },
        TopologyProbeTarget::Segment { start, end, preset } => StoredTopologyProbeTarget::Segment {
            start: encode_point(*start),
            end: encode_point(*end),
            preset: encode_probe_preset(*preset),
        },
        TopologyProbeTarget::Boundary(target) => StoredTopologyProbeTarget::Boundary {
            curve: target.curve,
            spans: crate::collect::copied(&target.spans),
            side: encode_curve_side(target.side),
            reversed: target.reversed,
            preset: encode_probe_preset(target.preset),
        },
        TopologyProbeTarget::AreaDisk { center, radius } => StoredTopologyProbeTarget::AreaDisk {
            center: encode_point(*center),
            radius: *radius,
        },
        TopologyProbeTarget::AreaRegion(region) => StoredTopologyProbeTarget::AreaRegion {
            region: *region,
        },
    };
    StoredTopologyProbe {
        id: probe.id,
        name: probe.name.clone(),
        color: probe.color,
        enabled: probe.enabled,
        target,
    }
}

/// Reads a probe: it is the one that would be written this way.
pub fn decode_probe(stored: &StoredTopologyProbe) -> (result: TopologyProbeDefinition)
    ensures
        stores_probe(*stored, result),
{
    let target: TopologyProbeTarget = match &stored.target {
        StoredTopologyProbeTarget::Point { position } => TopologyProbeTarget::Point(
            decode_point(*position),
        ),
        StoredTopologyProbeTarget::Segment { start, end, preset } => TopologyProbeTarget::Segment {
            start: decode_point(*start),
            end: decode_point(*end),
            preset: decode_probe_preset(*preset),
        },
        StoredTopologyProbeTarget::Boundary { curve, spans, side, reversed, preset } =>
            TopologyProbeTarget::Boundary(
            TopologyBoundaryProbeTarget {
                curve: *curve,
                spans: crate::collect::copied(spans),
                side: decode_curve_side(*side),
                reversed: *reversed,
                preset: decode_probe_preset(*preset),
            },
        ),
        StoredTopologyProbeTarget::AreaDisk { center, radius } => TopologyProbeTarget::AreaDisk {
            center: decode_point(*center),
            radius: *radius,
        },
        StoredTopologyProbeTarget::AreaRegion { region } => TopologyProbeTarget::AreaRegion(
            *region,
        ),
    };
    TopologyProbeDefinition {
        id: stored.id,
        name: stored.name.clone(),
        color: stored.color,
        enabled: stored.enabled,
        target,
    }
}

/// A stored probe is written for one probe only.
pub proof fn probe_survives_the_file(
    stored: StoredTopologyProbe,
    probe: TopologyProbeDefinition,
    read: TopologyProbeDefinition,
)
    requires
        stores_probe(stored, probe),
        stores_probe(stored, read),
    ensures
        same_probe(read, probe),
{
    plain_values_survive_the_file();
    match (probe.target, read.target) {
        (TopologyProbeTarget::Point(a), TopologyProbeTarget::Point(b)) => {
            assert(plain_point(stored_point(a)) == a);
            assert(plain_point(stored_point(b)) == b);
        },
        (
            TopologyProbeTarget::Segment { start: a, end: c, preset: p },
            TopologyProbeTarget::Segment { start: b, end: d, preset: q },
        ) => {
            assert(plain_point(stored_point(a)) == a);
            assert(plain_point(stored_point(b)) == b);
            assert(plain_point(stored_point(c)) == c);
            assert(plain_point(stored_point(d)) == d);
            assert(plain_probe_preset(stored_probe_preset(p)) == p);
            assert(plain_probe_preset(stored_probe_preset(q)) == q);
        },
        (
            TopologyProbeTarget::AreaDisk { center: a, .. },
            TopologyProbeTarget::AreaDisk { center: b, .. },
        ) => {
            assert(plain_point(stored_point(a)) == a);
            assert(plain_point(stored_point(b)) == b);
        },
        (TopologyProbeTarget::Boundary(a), TopologyProbeTarget::Boundary(b)) => {
            assert(plain_curve_side(stored_curve_side(a.side)) == a.side);
            assert(plain_curve_side(stored_curve_side(b.side)) == b.side);
            assert(plain_probe_preset(stored_probe_preset(a.preset)) == a.preset);
            assert(plain_probe_preset(stored_probe_preset(b.preset)) == b.preset);
        },
        _ => {},
    }
}

pub open spec fn stores_probes(
    stored: Seq<StoredTopologyProbe>,
    probes: Seq<TopologyProbeDefinition>,
) -> bool {
    &&& stored.len() == probes.len()
    &&& forall|i: int| 0 <= i < probes.len() ==> stores_probe(stored[i], #[trigger] probes[i])
}

/// What is written for a document.
pub open spec fn stores_document(file: FileV22, document: TopologyDocument) -> bool {
    &&& file.version == TOPOLOGY_FILE_VERSION
    &&& stores_scene(file.model.draft, document.model.draft)
    &&& stores_scene(file.model.accepted, document.model.accepted)
    &&& stores_probes(file.model.probes@, document.model.probes@)
    &&& file.model.source == stored_source(document.model.source)
    &&& file.model.far_field == stored_far_field(document.model.far_field)
    &&& file.presentation == stored_presentation(document.presentation)
}

pub fn encode_document(document: &TopologyDocument) -> (result: FileV22)
    ensures
        stores_document(result, *document),
{
    let probes: Vec<StoredTopologyProbe> = mapped(&document.model.probes, encode_probe);
    assert forall|i: int| 0 <= i < document.model.probes@.len() implies stores_probe(
        probes@[i],
        #[trigger] document.model.probes@[i],
    ) by {
        assert(call_ensures(encode_probe, (&document.model.probes@[i],), probes@[i]));
    }
    FileV22 {
        version: TOPOLOGY_FILE_VERSION,
        model: StoredTopologyDocumentModel {
            draft: encode_scene(&document.model.draft),
            accepted: encode_scene(&document.model.accepted),
            probes,
            source: encode_source(document.model.source),
            far_field: encode_far_field(document.model.far_field),
        },
        presentation: encode_presentation(document.presentation),
    }
}

/// What the engine says of a stored document.
#[derive(Debug)]
pub struct DocumentReading {
    pub draft: SceneReading,
    pub accepted: SceneReading,
    pub presentation_valid: bool,
}

impl DocumentReading {
    /// Whether the reading answers for every curve and vertex of the file.
    pub open spec fn covers(self, file: FileV22) -> bool {
        &&& self.draft.builds@.len() == file.model.draft.curves@.len()
        &&& self.draft.verdict.vertex_placed@.len() == file.model.draft.vertices@.len()
        &&& self.accepted.builds@.len() == file.model.accepted.curves@.len()
        &&& self.accepted.verdict.vertex_placed@.len() == file.model.accepted.vertices@.len()
    }
}

/// Whether this is what reading a stored document comes to. The draft is read
/// first, then the accepted scene, then the presentation.
pub open spec fn decodes_document(
    file: FileV22,
    reading: DocumentReading,
    laws: LawReading,
    limits: DocumentLimits,
    result: Result<TopologyDocument, String>,
) -> bool {
    match result {
        Ok(document) => {
            &&& decodes_scene(file.model.draft, reading.draft, laws, limits, Ok(document.model.draft))
            &&& decodes_scene(
                file.model.accepted,
                reading.accepted,
                laws,
                limits,
                Ok(document.model.accepted),
            )
            &&& stores_probes(file.model.probes@, document.model.probes@)
            &&& document.model.source == plain_source(file.model.source)
            &&& document.model.far_field == plain_far_field(file.model.far_field)
            &&& reading.presentation_valid
            &&& document.presentation == plain_presentation(file.presentation)
        },
        Err(issue) => {
            ||| decodes_scene(file.model.draft, reading.draft, laws, limits, Err(issue))
            ||| exists|draft: TopologyScene| #[trigger]
                decodes_scene(file.model.draft, reading.draft, laws, limits, Ok(draft)) && decodes_scene(
                    file.model.accepted,
                    reading.accepted,
                    laws,
                    limits,
                    Err(issue),
                )
            ||| exists|draft: TopologyScene, accepted: TopologyScene|
                (#[trigger] decodes_scene(file.model.draft, reading.draft, laws, limits, Ok(draft))) && (
                #[trigger] decodes_scene(
                    file.model.accepted,
                    reading.accepted,
                    laws,
                    limits,
                    Ok(accepted),
                )) && !reading.presentation_valid && issue@
                    == "Scene contains invalid presentation settings"@
        },
    }
}

pub fn decode_document<C, N>(
    file: &FileV22,
    reading: &DocumentReading,
    reader: &LawReader<C, N>,
    limits: DocumentLimits,
) -> (result: Result<TopologyDocument, String>) where
    C: Fn(&String) -> Option<String>,
    N: Fn(CoefficientLaw) -> CoefficientLaw,

    requires
        reading.covers(*file),
        reader.wf(),
    ensures
        decodes_document(*file, *reading, reader.reading(), limits, result),
{
    let ghost laws = reader.reading();
    let draft: TopologyScene = match decode_scene(
        &file.model.draft,
        &reading.draft,
        reader,
        limits,
    ) {
        Ok(scene) => scene,
        Err(issue) => {
            return Err(issue);
        },
    };
    let accepted: TopologyScene = match decode_scene(
        &file.model.accepted,
        &reading.accepted,
        reader,
        limits,
    ) {
        Ok(scene) => scene,
        Err(issue) => {
            assert(decodes_scene(file.model.draft, reading.draft, laws, limits, Ok(draft)));
            return Err(issue);
        },
    };
    let probes: Vec<TopologyProbeDefinition> = mapped(&file.model.probes, decode_probe);
    assert forall|i: int| 0 <= i < probes@.len() implies stores_probe(
        file.model.probes@[i],
        #[trigger] probes@[i],
    ) by {
        assert(call_ensures(decode_probe, (&file.model.probes@[i],), probes@[i]));
    }
    proof {
        crate::value_codec::stored_values_survive_reading();
    }
    match decode_presentation(file.presentation, reading.presentation_valid) {
        Ok(presentation) => Ok(
            TopologyDocument {
                model: TopologyDocumentModel {
                    draft,
                    accepted,
                    probes,
                    source: decode_source(file.model.source),
                    far_field: decode_far_field(file.model.far_field),
                },
                presentation,
            },
        ),
        Err(issue) => {
            assert(decodes_scene(file.model.draft, reading.draft, laws, limits, Ok(draft)));
            assert(decodes_scene(
                file.model.accepted,
                reading.accepted,
                laws,
                limits,
                Ok(accepted),
            ));
            Err(issue)
        },
    }
}

} // verus!
