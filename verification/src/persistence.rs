//! Saving and opening documents, and what a document keeps through it.

use crate::collect::{first_place, first_place_is_least, no_issue};
use crate::document_codec::{
    decode_document, decodes_document, decodes_scene, encode_document, first_curve_issue,
    plain_assignments, plain_regions, plain_vertices, probe_survives_the_file, reads_scene,
    same_probe, same_target, scene_read_issue, stored_assignments, stored_regions, stored_vertices,
    stores_document, stores_scene, DocumentReading, SceneReading,
};
use crate::document_validation::{
    document_issue, first_probe_issue, id_taken, line_points, sampling_points, spans_on_curve,
    target_issue, validate_document, DocumentVerdict,
};
use crate::law_codec::{
    scalar_field_issue, scalar_field_survives_the_file, stored_scalar_field, LawReader, LawReading,
};
use crate::model::{
    CoefficientLaw, FaceAnchor, TopologyCurve, TopologyDocument, TopologyProbeDefinition, TopologyProbeTarget,
    TopologyScene,
};
use crate::presentation_codec::presentation_survives_the_file;
use crate::scene_codec::{
    curve_survives_the_file, material_issue, material_survives_the_file, plain_parameters,
    points_finite, readable_material, rebuilds, same_curve, same_material, same_volume_source, spline_data,
    stored_parameters, stores_curve, stores_material, stores_volume_source, CurveBuild,
};
use crate::stored::{
    FileV22, MAX_FILE_BYTES, StoredCurve, StoredMaterial, StoredTopologyScene, StoredVolumeSource,
    TOPOLOGY_FILE_VERSION,
};
use crate::text::{decimal, decimal_digits, joined};
use crate::validation::{
    assignment_valid, contiguous, curve_has_vertices, curve_ids, curve_named, follows,
    listed_place, nodes_have_vertices, span_ids, structure_issue, vertex_ids, DocumentLimits, SceneVerdict,
};
use crate::value_codec::plain_values_survive_the_file;
use vstd::prelude::*;

verus! {

pub open spec fn size_issue() -> Seq<char> {
    "Scene file exceeds "@ + decimal_digits(MAX_FILE_BYTES as nat) + " bytes"@
}

/// Refuses a file that is too large before anything of it is read.
pub fn check_size(length: usize) -> (result: Result<(), String>)
    ensures
        result is Ok <==> length <= MAX_FILE_BYTES,
        result matches Err(issue) ==> issue@ == size_issue(),
{
    if length > MAX_FILE_BYTES {
        let head: String = joined(
            "Scene file exceeds ",
            decimal(MAX_FILE_BYTES as u64).as_str(),
        );
        return Err(joined(head.as_str(), " bytes"));
    }
    Ok(())
}

pub open spec fn version_issue(version: u32) -> Seq<char> {
    "Unsupported scene version "@ + decimal_digits(version as nat)
        + "; Funfern now requires version "@ + decimal_digits(TOPOLOGY_FILE_VERSION as nat)
}

/// Refuses a file of another version.
pub fn check_version(version: u32) -> (result: Result<(), String>)
    ensures
        result is Ok <==> version == TOPOLOGY_FILE_VERSION,
        result matches Err(issue) ==> issue@ == version_issue(version),
{
    if version != TOPOLOGY_FILE_VERSION {
        let found: String = joined("Unsupported scene version ", decimal(version as u64).as_str());
        let head: String = joined(found.as_str(), "; Funfern now requires version ");
        return Err(joined(head.as_str(), decimal(TOPOLOGY_FILE_VERSION as u64).as_str()));
    }
    Ok(())
}

/// The file of a document that may be stored.
pub fn save(
    document: &TopologyDocument,
    verdict: &DocumentVerdict,
    limits: DocumentLimits,
) -> (result: Result<FileV22, String>)
    requires
        verdict.draft.vertex_placed@.len() == document.model.draft.geometry.vertices@.len(),
    ensures
        match document_issue(*document, *verdict, limits) {
            Some(issue) => result is Err && result->Err_0@ == issue,
            None => result is Ok && stores_document(result->Ok_0, *document),
        },
{
    match validate_document(document, verdict, limits) {
        Ok(()) => Ok(encode_document(document)),
        Err(issue) => Err(issue),
    }
}

/// Whether this is what becomes of a document that was read, once the engine
/// gave this verdict on it.
pub open spec fn admits(
    document: TopologyDocument,
    verdict: DocumentVerdict,
    limits: DocumentLimits,
    result: Result<TopologyDocument, String>,
) -> bool {
    match document_issue(document, verdict, limits) {
        Some(issue) => result is Err && result->Err_0@ == issue,
        None => result == Ok::<TopologyDocument, String>(document),
    }
}

/// Whether opening a file comes to this: it is refused for its length, its text,
/// its version, its contents or the document in it, in that order, and is the
/// document otherwise.
pub open spec fn opens<R, J>(
    length: usize,
    header: Result<u32, String>,
    file: Result<FileV22, String>,
    read: R,
    judge: J,
    laws: LawReading,
    limits: DocumentLimits,
    result: Result<TopologyDocument, String>,
) -> bool where
    R: Fn(&FileV22) -> DocumentReading,
    J: Fn(&TopologyDocument) -> DocumentVerdict,
 {
    if length > MAX_FILE_BYTES {
        result is Err && result->Err_0@ == size_issue()
    } else if header is Err {
        result is Err && result->Err_0 == header->Err_0
    } else if header->Ok_0 != TOPOLOGY_FILE_VERSION {
        result is Err && result->Err_0@ == version_issue(header->Ok_0)
    } else if file is Err {
        result is Err && result->Err_0 == file->Err_0
    } else {
        exists|reading: DocumentReading, decoded: Result<TopologyDocument, String>| #[trigger]
            call_ensures(read, (&file->Ok_0,), reading) && (#[trigger] decodes_document(
                file->Ok_0,
                reading,
                laws,
                limits,
                decoded,
            )) && match decoded {
                Err(issue) => result is Err && result->Err_0 == issue,
                Ok(document) => exists|verdict: DocumentVerdict| #[trigger]
                    call_ensures(judge, (&document,), verdict) && admits(
                        document,
                        verdict,
                        limits,
                        result,
                    ),
            }
    }
}

/// Opens a file of the given length. `header` is the version the file states
/// and `file` its contents, as far as its text could be read; `read` and
/// `judge` are the engine's answers on the contents and on the document, and
/// `reader` what it makes of formulas and laws.
pub fn parse_document<R, J, C, N>(
    length: usize,
    header: Result<u32, String>,
    file: Result<FileV22, String>,
    read: R,
    judge: J,
    reader: &LawReader<C, N>,
    limits: DocumentLimits,
) -> (result: Result<TopologyDocument, String>) where
    R: Fn(&FileV22) -> DocumentReading,
    J: Fn(&TopologyDocument) -> DocumentVerdict,
    C: Fn(&String) -> Option<String>,
    N: Fn(CoefficientLaw) -> CoefficientLaw,

    requires
        reader.wf(),
        forall|file: &FileV22| call_requires(read, (file,)),
        forall|file: &FileV22, reading: DocumentReading|
            call_ensures(read, (file,), reading) ==> reading.covers(*file),
        forall|document: &TopologyDocument| call_requires(judge, (document,)),
        forall|document: &TopologyDocument, verdict: DocumentVerdict|
            call_ensures(judge, (document,), verdict) ==> verdict.draft.vertex_placed@.len()
                == document.model.draft.geometry.vertices@.len(),
    ensures
        opens(length, header, file, read, judge, reader.reading(), limits, result),
{
    match check_size(length) {
        Ok(()) => {},
        Err(issue) => {
            return Err(issue);
        },
    }
    let version: u32 = match header {
        Ok(version) => version,
        Err(issue) => {
            return Err(issue);
        },
    };
    match check_version(version) {
        Ok(()) => {},
        Err(issue) => {
            return Err(issue);
        },
    }
    let contents: FileV22 = match file {
        Ok(contents) => contents,
        Err(issue) => {
            return Err(issue);
        },
    };
    let reading: DocumentReading = read(&contents);
    match decode_document(&contents, &reading, reader, limits) {
        Err(issue) => {
            assert(decodes_document(contents, reading, reader.reading(), limits, Err(issue)));
            Err(issue)
        },
        Ok(document) => {
            assert(decodes_document(contents, reading, reader.reading(), limits, Ok(document)));
            let verdict: DocumentVerdict = judge(&document);
            match validate_document(&document, &verdict, limits) {
                Ok(()) => {
                    assert(admits(document, verdict, limits, Ok(document)));
                    Ok(document)
                },
                Err(issue) => {
                    assert(admits(document, verdict, limits, Err(issue)));
                    Err(issue)
                },
            }
        },
    }
}

/// A document that was read and waits to be opened.
#[derive(Debug)]
pub struct TopologyLoadCandidate {
    pub document: Option<TopologyDocument>,
}

impl TopologyLoadCandidate {
    /// Hands the document out, once.
    pub fn advance(&mut self, _budget: usize) -> (result: Option<
        Result<TopologyDocument, String>,
    >)
        ensures
            final(self).document is None,
            result == (match old(self).document {
                Some(document) => Some(Ok::<TopologyDocument, String>(document)),
                None => None,
            }),
    {
        match self.document.take() {
            Some(document) => Some(Ok(document)),
            None => None,
        }
    }
}

pub fn candidate(document: TopologyDocument) -> (result: TopologyLoadCandidate)
    ensures
        result.document == Some(document),
{
    TopologyLoadCandidate { document: Some(document) }
}

/// Wraps what opening a file came to.
pub fn parse(opened: Result<TopologyDocument, String>) -> (result: Result<
    TopologyLoadCandidate,
    String,
>)
    ensures
        match opened {
            Ok(document) => result is Ok && result->Ok_0.document == Some(document),
            Err(issue) => result == Err::<TopologyLoadCandidate, String>(issue),
        },
{
    match opened {
        Ok(document) => Ok(candidate(document)),
        Err(issue) => Err(issue),
    }
}

/// Equal scenes, whatever memory their lists are in.
pub open spec fn same_scene(left: TopologyScene, right: TopologyScene) -> bool {
    &&& left.geometry.domain == right.geometry.domain
    &&& left.physics == right.physics
    &&& left.materials@.len() == right.materials@.len()
    &&& forall|i: int|
        0 <= i < right.materials@.len() ==> same_material(
            #[trigger] left.materials@[i],
            right.materials@[i],
        )
    &&& left.regions@ == right.regions@
    &&& left.face_assignments@ == right.face_assignments@
    &&& left.volume_sources@.len() == right.volume_sources@.len()
    &&& forall|i: int|
        0 <= i < right.volume_sources@.len() ==> same_volume_source(
            #[trigger] left.volume_sources@[i],
            right.volume_sources@[i],
        )
    &&& left.outer_boundaries == right.outer_boundaries
    &&& same_curves(left.geometry.curves@, right.geometry.curves@)
    &&& left.geometry.vertices@ == right.geometry.vertices@
}

pub open spec fn same_curves(left: Seq<TopologyCurve>, right: Seq<TopologyCurve>) -> bool {
    &&& left.len() == right.len()
    &&& forall|i: int| 0 <= i < right.len() ==> same_curve(#[trigger] left[i], right[i])
}

pub open spec fn same_document(left: TopologyDocument, right: TopologyDocument) -> bool {
    &&& same_scene(left.model.draft, right.model.draft)
    &&& same_scene(left.model.accepted, right.model.accepted)
    &&& left.model.probes@.len() == right.model.probes@.len()
    &&& forall|i: int|
        0 <= i < right.model.probes@.len() ==> same_probe(
            #[trigger] left.model.probes@[i],
            right.model.probes@[i],
        )
    &&& left.model.source == right.model.source
    &&& left.model.far_field == right.model.far_field
    &&& left.presentation == right.presentation
}

proof fn same_span_ids(left: Seq<TopologyCurve>, right: Seq<TopologyCurve>)
    requires
        same_curves(left, right),
    ensures
        span_ids(left) == span_ids(right),
    decreases left.len(),
{
    if left.len() > 0 {
        let a = left.drop_last();
        let b = right.drop_last();
        assert forall|i: int| 0 <= i < b.len() implies same_curve(#[trigger] a[i], b[i]) by {
            assert(same_curve(left[i], right[i]));
        }
        same_span_ids(a, b);
        assert(same_curve(left[left.len() - 1], right[left.len() - 1]));
    }
}

proof fn same_curve_named(left: Seq<TopologyCurve>, right: Seq<TopologyCurve>, id: u64)
    requires
        same_curves(left, right),
    ensures
        match (curve_named(left, id), curve_named(right, id)) {
            (Some(a), Some(b)) => same_curve(a, b),
            (None, None) => true,
            _ => false,
        },
{
    let test = |curve: TopologyCurve| curve.id == id;
    first_place_is_least(left, test);
    first_place_is_least(right, test);
    assert forall|i: int| 0 <= i < left.len() implies (#[trigger] left[i]).id == right[i].id by {
        assert(same_curve(left[i], right[i]));
    }
    match (first_place(left, test), first_place(right, test)) {
        (Some(a), Some(b)) => {
            assert(same_curve(left[a], right[a]));
            if a < b {
                assert(!test(right[a]));
            } else if b < a {
                assert(left[b].id == right[b].id);
                assert(!test(left[b]));
            }
        },
        (Some(a), None) => {
            assert(same_curve(left[a], right[a]));
            assert(!test(right[a]));
        },
        (None, Some(b)) => {
            assert(left[b].id == right[b].id);
            assert(!test(left[b]));
        },
        (None, None) => {},
    }
}

/// Equal scenes have the same structural issues.
pub proof fn equal_scenes_have_equal_issues(
    left: TopologyScene,
    right: TopologyScene,
    verdict: SceneVerdict,
    limits: DocumentLimits,
)
    requires
        same_scene(left, right),
    ensures
        structure_issue(left, verdict, limits) == structure_issue(right, verdict, limits),
{
    let a = left.geometry.curves@;
    let b = right.geometry.curves@;
    same_span_ids(a, b);
    assert(curve_ids(a) =~= curve_ids(b)) by {
        assert forall|i: int| 0 <= i < a.len() implies #[trigger] curve_ids(a)[i] == curve_ids(
            b,
        )[i] by {
            assert(same_curve(a[i], b[i]));
        }
    }
    let vertices = vertex_ids(left.geometry.vertices@);
    assert(nodes_have_vertices(a, vertices) == nodes_have_vertices(b, vertices)) by {
        assert forall|i: int| 0 <= i < a.len() implies (#[trigger] curve_has_vertices(
            a[i].nodes@,
            vertices,
        )) == curve_has_vertices(b[i].nodes@, vertices) by {
            assert(same_curve(a[i], b[i]));
        }
        if nodes_have_vertices(a, vertices) {
            assert forall|i: int| 0 <= i < b.len() implies #[trigger] curve_has_vertices(
                b[i].nodes@,
                vertices,
            ) by {
                assert(curve_has_vertices(a[i].nodes@, vertices));
            }
        }
    }
    assert forall|i: int| 0 <= i < left.face_assignments@.len() implies assignment_valid(
        #[trigger] left.face_assignments@[i],
        left,
    ) == assignment_valid(right.face_assignments@[i], right) by {
        match left.face_assignments@[i].anchor {
            FaceAnchor::Curve { curve, .. } => {
                same_curve_named(a, b, curve);
            },
            FaceAnchor::Outer { .. } => {},
        }
    }
    if exists|i: int|
        0 <= i < left.face_assignments@.len() && !assignment_valid(
            #[trigger] left.face_assignments@[i],
            left,
        ) {
        let i = choose|i: int|
            0 <= i < left.face_assignments@.len() && !assignment_valid(
                #[trigger] left.face_assignments@[i],
                left,
            );
        assert(!assignment_valid(right.face_assignments@[i], right));
    }
    if exists|i: int|
        0 <= i < right.face_assignments@.len() && !assignment_valid(
            #[trigger] right.face_assignments@[i],
            right,
        ) {
        let i = choose|i: int|
            0 <= i < right.face_assignments@.len() && !assignment_valid(
                #[trigger] right.face_assignments@[i],
                right,
            );
        assert(!assignment_valid(left.face_assignments@[i], left));
    }
}

/// Whether the engine reads a stored scene as the scene it was written for: it
/// accepts the domain and the structure and rebuilds every spline.
pub open spec fn reads_faithfully(
    reading: SceneReading,
    scene: TopologyScene,
    limits: DocumentLimits,
) -> bool {
    &&& reading.domain_valid
    &&& reading.builds@.len() == scene.geometry.curves@.len()
    &&& forall|i: int|
        0 <= i < scene.geometry.curves@.len() ==> rebuilds(
            reading.builds@[i],
            #[trigger] scene.geometry.curves@[i],
        )
    &&& structure_issue(scene, reading.verdict, limits) is None
}

/// Whether all control points of a scene are finite.
pub open spec fn finite_scene(scene: TopologyScene) -> bool {
    forall|i: int|
        0 <= i < scene.geometry.curves@.len() ==> points_finite(
            spline_data((#[trigger] scene.geometry.curves@[i]).spline).controls@,
        )
}

proof fn curves_raise_no_issue(
    stored: Seq<StoredCurve>,
    builds: Seq<CurveBuild>,
    curves: Seq<TopologyCurve>,
    count: int,
)
    requires
        0 <= count <= curves.len(),
        stored.len() == curves.len(),
        builds.len() == curves.len(),
        forall|i: int|
            0 <= i < curves.len() ==> stores_curve(stored[i], #[trigger] curves[i]) && rebuilds(
                builds[i],
                curves[i],
            ) && points_finite(spline_data(curves[i].spline).controls@),
    ensures
        first_curve_issue(stored, builds, count) is None,
    decreases count,
{
    if count > 0 {
        curves_raise_no_issue(stored, builds, curves, count - 1);
        let i = count - 1;
        assert(stores_curve(stored[i], curves[i]));
        assert(curves[i].nodes@.len() == curves[i].nodes.len());
        let controls = spline_data(curves[i].spline).controls@;
        let points = crate::scene_codec::stored_points(controls);
        assert forall|k: int| 0 <= k < points.len() implies (#[trigger] points[k]).x.finite()
            && points[k].y.finite() by {
            assert(controls[k].finite_point());
        }
    }
}

/// Whether every formula of a scene is one that the engine reads, and every law
/// in it is in its normal form.
pub open spec fn readable_scene(scene: TopologyScene, laws: LawReading) -> bool {
    &&& forall|i: int|
        0 <= i < scene.materials@.len() ==> readable_material(
            #[trigger] scene.materials@[i],
            laws,
        )
    &&& forall|i: int|
        0 <= i < scene.volume_sources@.len() ==> scalar_field_issue(
            stored_scalar_field((#[trigger] scene.volume_sources@[i]).profile),
            laws,
        ) is None
}

/// A scene with finite controls is read from its stored form without an issue,
/// and as it was.
pub proof fn scene_survives_the_file(
    stored: StoredTopologyScene,
    reading: SceneReading,
    laws: LawReading,
    scene: TopologyScene,
    limits: DocumentLimits,
    result: Result<TopologyScene, String>,
)
    requires
        stores_scene(stored, scene),
        finite_scene(scene),
        readable_scene(scene, laws),
        reads_faithfully(reading, scene, limits),
        decodes_scene(stored, reading, laws, limits, result),
    ensures
        result is Ok,
        same_scene(result->Ok_0, scene),
{
    plain_values_survive_the_file();
    assert(scene_read_issue(stored, reading, laws) is None) by {
        assert forall|i: int| 0 <= i < scene.geometry.curves@.len() implies stores_curve(
            stored.curves@[i],
            #[trigger] scene.geometry.curves@[i],
        ) && rebuilds(reading.builds@[i], scene.geometry.curves@[i]) && points_finite(
            spline_data(scene.geometry.curves@[i].spline).controls@,
        ) by {}
        curves_raise_no_issue(
            stored.curves@,
            reading.builds@,
            scene.geometry.curves@,
            scene.geometry.curves@.len() as int,
        );
        let of_material = |material: StoredMaterial| material_issue(material, laws);
        no_issue(stored.materials@, of_material);
        assert forall|i: int| 0 <= i < stored.materials@.len() implies of_material(
            #[trigger] stored.materials@[i],
        ) is None by {
            let value = scene.materials@[i];
            assert(stores_material(stored.materials@[i], value));
            assert(readable_material(value, laws));
        }
        let of_source = |source: StoredVolumeSource| scalar_field_issue(source.profile, laws);
        no_issue(stored.volume_sources@, of_source);
        assert forall|i: int| 0 <= i < stored.volume_sources@.len() implies of_source(
            #[trigger] stored.volume_sources@[i],
        ) is None by {
            let value = scene.volume_sources@[i];
            assert(stores_volume_source(stored.volume_sources@[i], value));
            scalar_field_survives_the_file(value.profile, laws);
        }
    }
    let read = match result {
        Ok(read) => read,
        Err(issue) => choose|read: TopologyScene| #[trigger]
            reads_scene(stored, reading.builds@, laws, read) && structure_issue(
                read,
                reading.verdict,
                limits,
            ) == Some(issue@),
    };
    assert(reads_scene(stored, reading.builds@, laws, read));
    read_scene_is_the_stored_one(stored, reading.builds@, laws, scene, read);
    equal_scenes_have_equal_issues(read, scene, reading.verdict, limits);
}

proof fn read_scene_is_the_stored_one(
    stored: StoredTopologyScene,
    builds: Seq<CurveBuild>,
    laws: LawReading,
    scene: TopologyScene,
    read: TopologyScene,
)
    requires
        stores_scene(stored, scene),
        finite_scene(scene),
        readable_scene(scene, laws),
        builds.len() == scene.geometry.curves@.len(),
        forall|i: int|
            0 <= i < scene.geometry.curves@.len() ==> rebuilds(
                builds[i],
                #[trigger] scene.geometry.curves@[i],
            ),
        reads_scene(stored, builds, laws, read),
    ensures
        same_scene(read, scene),
{
    plain_values_survive_the_file();
    assert forall|i: int| 0 <= i < scene.materials@.len() implies same_material(
        #[trigger] read.materials@[i],
        scene.materials@[i],
    ) by {
        assert(stores_material(stored.materials@[i], scene.materials@[i]));
        assert(readable_material(scene.materials@[i], laws));
        material_survives_the_file(
            stored.materials@[i],
            laws,
            scene.materials@[i],
            read.materials@[i],
        );
    }
    assert forall|i: int| 0 <= i < scene.volume_sources@.len() implies same_volume_source(
        #[trigger] read.volume_sources@[i],
        scene.volume_sources@[i],
    ) by {
        let value = scene.volume_sources@[i];
        assert(stores_volume_source(stored.volume_sources@[i], value));
        scalar_field_survives_the_file(value.profile, laws);
        assert(plain_parameters(stored_parameters(value.parameters@)) =~= value.parameters@);
        assert(crate::value_codec::plain_signal(crate::value_codec::stored_signal(value.signal))
            == value.signal);
    }
    assert forall|i: int| 0 <= i < scene.geometry.curves@.len() implies same_curve(
        #[trigger] read.geometry.curves@[i],
        scene.geometry.curves@[i],
    ) by {
        let curve = scene.geometry.curves@[i];
        assert(stores_curve(stored.curves@[i], curve));
        assert(curve.nodes@.len() == curve.nodes.len());
        curve_survives_the_file(stored.curves@[i], builds[i], curve, read.geometry.curves@[i]);
    }
    assert(plain_regions(stored_regions(scene.regions@)) =~= scene.regions@) by {
        assert forall|i: int| 0 <= i < scene.regions@.len() implies #[trigger] plain_regions(
            stored_regions(scene.regions@),
        )[i] == scene.regions@[i] by {
            let value = scene.regions@[i];
            assert(crate::value_codec::plain_region(crate::value_codec::stored_region(value))
                == value);
        }
    }
    assert(plain_assignments(stored_assignments(scene.face_assignments@))
        =~= scene.face_assignments@) by {
        assert forall|i: int|
            0 <= i < scene.face_assignments@.len() implies #[trigger] plain_assignments(
            stored_assignments(scene.face_assignments@),
        )[i] == scene.face_assignments@[i] by {
            let value = scene.face_assignments@[i];
            assert(crate::value_codec::plain_assignment(
                crate::value_codec::stored_assignment(value),
            ) == value);
        }
    }
    assert(plain_vertices(stored_vertices(scene.geometry.vertices@))
        =~= scene.geometry.vertices@) by {
        assert forall|i: int|
            0 <= i < scene.geometry.vertices@.len() implies #[trigger] plain_vertices(
            stored_vertices(scene.geometry.vertices@),
        )[i] == scene.geometry.vertices@[i] by {
            let value = scene.geometry.vertices@[i];
            assert(crate::value_codec::plain_vertex(crate::value_codec::stored_vertex(value))
                == value);
        }
    }
    assert(crate::value_codec::plain_domain(
        crate::value_codec::stored_domain(scene.geometry.domain),
    ) == scene.geometry.domain);
    assert(crate::value_codec::plain_physics(crate::value_codec::stored_physics(scene.physics))
        == scene.physics);
    assert(crate::value_codec::plain_outer_conditions(
        crate::value_codec::stored_outer_conditions(scene.outer_boundaries),
    ) == scene.outer_boundaries);
}

/// A document with finite controls that was stored is read as it was: nothing
/// of it is refused and everything of it comes back.
pub proof fn document_survives_the_file(
    file: FileV22,
    reading: DocumentReading,
    laws: LawReading,
    document: TopologyDocument,
    limits: DocumentLimits,
    result: Result<TopologyDocument, String>,
)
    requires
        stores_document(file, document),
        finite_scene(document.model.draft),
        finite_scene(document.model.accepted),
        readable_scene(document.model.draft, laws),
        readable_scene(document.model.accepted, laws),
        reads_faithfully(reading.draft, document.model.draft, limits),
        reads_faithfully(reading.accepted, document.model.accepted, limits),
        reading.presentation_valid,
        decodes_document(file, reading, laws, limits, result),
    ensures
        result is Ok,
        same_document(result->Ok_0, document),
{
    match result {
        Err(issue) => {
            if decodes_scene(file.model.draft, reading.draft, laws, limits, Err(issue)) {
                scene_survives_the_file(
                    file.model.draft,
                    reading.draft,
                    laws,
                    document.model.draft,
                    limits,
                    Err(issue),
                );
            }
            if decodes_scene(file.model.accepted, reading.accepted, laws, limits, Err(issue)) {
                scene_survives_the_file(
                    file.model.accepted,
                    reading.accepted,
                    laws,
                    document.model.accepted,
                    limits,
                    Err(issue),
                );
            }
        },
        Ok(read) => {
            scene_survives_the_file(
                file.model.draft,
                reading.draft,
                laws,
                document.model.draft,
                limits,
                Ok(read.model.draft),
            );
            scene_survives_the_file(
                file.model.accepted,
                reading.accepted,
                laws,
                document.model.accepted,
                limits,
                Ok(read.model.accepted),
            );
            assert forall|i: int| 0 <= i < document.model.probes@.len() implies same_probe(
                #[trigger] read.model.probes@[i],
                document.model.probes@[i],
            ) by {
                probe_survives_the_file(
                    file.model.probes@[i],
                    document.model.probes@[i],
                    read.model.probes@[i],
                );
            }
            presentation_survives_the_file(document.presentation);
            plain_values_survive_the_file();
            assert(crate::value_codec::plain_source(
                crate::value_codec::stored_source(document.model.source),
            ) == document.model.source);
            assert(crate::value_codec::plain_far_field(
                crate::value_codec::stored_far_field(document.model.far_field),
            ) == document.model.far_field);
        },
    }
}

proof fn equal_targets_have_equal_issues(
    left: TopologyProbeTarget,
    right: TopologyProbeTarget,
    left_scene: TopologyScene,
    right_scene: TopologyScene,
)
    requires
        same_target(left, right),
        same_scene(left_scene, right_scene),
    ensures
        target_issue(left, left_scene) == target_issue(right, right_scene),
        line_points(left) == line_points(right),
{
    match (left, right) {
        (TopologyProbeTarget::Boundary(a), TopologyProbeTarget::Boundary(b)) => {
            let id = a.curve;
            same_curve_named(left_scene.geometry.curves@, right_scene.geometry.curves@, id);
            match (
                curve_named(left_scene.geometry.curves@, id),
                curve_named(right_scene.geometry.curves@, id),
            ) {
                (Some(x), Some(y)) => {
                    assert(spans_on_curve(x, a.spans@) == spans_on_curve(y, b.spans@));
                    assert forall|k: int| #[trigger]
                        listed_place(x, a.spans@, k) == listed_place(y, b.spans@, k) by {}
                    assert((x.spline is Closed) == (y.spline is Closed));
                    one_way_contiguous(x, y, a.spans@);
                    one_way_contiguous(y, x, a.spans@);
                },
                _ => {},
            }
        },
        _ => {},
    }
}

proof fn one_way_contiguous(left: TopologyCurve, right: TopologyCurve, spans: Seq<u64>)
    requires
        same_curve(left, right) || same_curve(right, left),
    ensures
        contiguous(left, spans) ==> contiguous(right, spans),
{
    if contiguous(left, spans) {
        assert forall|i: int| 0 <= i < spans.len() implies #[trigger] listed_place(
            right,
            spans,
            i,
        ) is Some by {
            assert(listed_place(left, spans, i) is Some);
        }
        assert forall|i: int, j: int| 0 <= i < j < spans.len() implies #[trigger] listed_place(
            right,
            spans,
            i,
        ) != #[trigger] listed_place(right, spans, j) by {
            assert(listed_place(left, spans, i) != listed_place(left, spans, j));
        }
        assert forall|i: int, j: int|
            0 <= i && j == i + 1 && j < spans.len() implies follows(
            right.spline is Closed,
            right.spans@.len(),
            (#[trigger] listed_place(right, spans, i))->0,
            (#[trigger] listed_place(right, spans, j))->0,
        ) by {
            assert(follows(
                left.spline is Closed,
                left.spans@.len(),
                listed_place(left, spans, i)->0,
                listed_place(left, spans, j)->0,
            ));
        }
    }
}

proof fn equal_probes_have_equal_issues(
    left: Seq<TopologyProbeDefinition>,
    right: Seq<TopologyProbeDefinition>,
    left_scene: TopologyScene,
    right_scene: TopologyScene,
    count: int,
)
    requires
        left.len() == right.len(),
        forall|i: int| 0 <= i < right.len() ==> same_probe(#[trigger] left[i], right[i]),
        same_scene(left_scene, right_scene),
        0 <= count <= left.len(),
    ensures
        first_probe_issue(left, count, left_scene) == first_probe_issue(right, count, right_scene),
        sampling_points(left.take(count)) == sampling_points(right.take(count)),
    decreases count,
{
    if count > 0 {
        let place = count - 1;
        equal_probes_have_equal_issues(left, right, left_scene, right_scene, place);
        assert(same_probe(left[place], right[place]));
        equal_targets_have_equal_issues(
            left[place].target,
            right[place].target,
            left_scene,
            right_scene,
        );
        assert(id_taken(left, place) == id_taken(right, place)) by {
            if id_taken(left, place) {
                let i = choose|i: int| 0 <= i < place && (#[trigger] left[i]).id == left[place].id;
                assert(same_probe(left[i], right[i]));
                assert(right[i].id == right[place].id);
            }
            if id_taken(right, place) {
                let i = choose|i: int|
                    0 <= i < place && (#[trigger] right[i]).id == right[place].id;
                assert(same_probe(left[i], right[i]));
                assert(left[i].id == left[place].id);
            }
        }
        assert(left.take(count).drop_last() =~= left.take(place));
        assert(right.take(count).drop_last() =~= right.take(place));
        assert(left.take(count).last() == left[place]);
        assert(right.take(count).last() == right[place]);
    }
}

/// Equal documents are refused for the same reason, or not at all.
pub proof fn equal_documents_have_equal_issues(
    left: TopologyDocument,
    right: TopologyDocument,
    verdict: DocumentVerdict,
    limits: DocumentLimits,
)
    requires
        same_document(left, right),
    ensures
        document_issue(left, verdict, limits) == document_issue(right, verdict, limits),
{
    equal_scenes_have_equal_issues(
        left.model.draft,
        right.model.draft,
        verdict.draft,
        limits,
    );
    let a = left.model.probes@;
    let b = right.model.probes@;
    equal_probes_have_equal_issues(
        a,
        b,
        left.model.draft,
        right.model.draft,
        a.len() as int,
    );
    assert(a.take(a.len() as int) =~= a);
    assert(b.take(b.len() as int) =~= b);
}

/// A document that could be saved can be opened again, and comes back as it was:
/// `file` is its file, `decoded` what is read from it and `opened` what opening it
/// comes to, where the engine says of what was read what it said of the document.
pub proof fn a_saved_document_opens_as_it_was(
    document: TopologyDocument,
    verdict: DocumentVerdict,
    limits: DocumentLimits,
    file: FileV22,
    reading: DocumentReading,
    laws: LawReading,
    decoded: Result<TopologyDocument, String>,
    opened: Result<TopologyDocument, String>,
)
    requires
        document_issue(document, verdict, limits) is None,
        stores_document(file, document),
        finite_scene(document.model.draft),
        finite_scene(document.model.accepted),
        readable_scene(document.model.draft, laws),
        readable_scene(document.model.accepted, laws),
        reads_faithfully(reading.draft, document.model.draft, limits),
        reads_faithfully(reading.accepted, document.model.accepted, limits),
        reading.presentation_valid,
        decodes_document(file, reading, laws, limits, decoded),
        decoded matches Ok(read) ==> admits(read, verdict, limits, opened),
        decoded matches Err(issue) ==> opened == Err::<TopologyDocument, String>(issue),
    ensures
        file.version == TOPOLOGY_FILE_VERSION,
        opened is Ok,
        same_document(opened->Ok_0, document),
{
    document_survives_the_file(file, reading, laws, document, limits, decoded);
    equal_documents_have_equal_issues(decoded->Ok_0, document, verdict, limits);
}

/// Parsing what was saved gives the document back, where the text of its file reads
/// back as the file: `read` and `judge` answer faithfully on it.
pub proof fn a_parsed_file_is_the_saved_document<R, J>(
    document: TopologyDocument,
    limits: DocumentLimits,
    file: FileV22,
    length: usize,
    read: R,
    judge: J,
    laws: LawReading,
    result: Result<TopologyDocument, String>,
) where R: Fn(&FileV22) -> DocumentReading, J: Fn(&TopologyDocument) -> DocumentVerdict
    requires
        stores_document(file, document),
        length <= MAX_FILE_BYTES,
        finite_scene(document.model.draft),
        finite_scene(document.model.accepted),
        readable_scene(document.model.draft, laws),
        readable_scene(document.model.accepted, laws),
        forall|reading: DocumentReading| #[trigger]
            call_ensures(read, (&file,), reading) ==> reading.presentation_valid
                && reads_faithfully(reading.draft, document.model.draft, limits)
                && reads_faithfully(reading.accepted, document.model.accepted, limits),
        forall|opened: TopologyDocument, verdict: DocumentVerdict|
            same_document(opened, document) && #[trigger] call_ensures(
                judge,
                (&opened,),
                verdict,
            ) ==> document_issue(document, verdict, limits) is None,
        opens(length, Ok(file.version), Ok(file), read, judge, laws, limits, result),
    ensures
        result is Ok,
        same_document(result->Ok_0, document),
{
    let (reading, decoded) = choose|
        reading: DocumentReading,
        decoded: Result<TopologyDocument, String>,
    | #[trigger]
        call_ensures(read, (&file,), reading) && (#[trigger] decodes_document(
            file,
            reading,
            laws,
            limits,
            decoded,
        )) && match decoded {
            Err(issue) => result is Err && result->Err_0 == issue,
            Ok(document) => exists|verdict: DocumentVerdict| #[trigger]
                call_ensures(judge, (&document,), verdict) && admits(
                    document,
                    verdict,
                    limits,
                    result,
                ),
        };
    document_survives_the_file(file, reading, laws, document, limits, decoded);
    let opened = decoded->Ok_0;
    let verdict = choose|verdict: DocumentVerdict| #[trigger]
        call_ensures(judge, (&opened,), verdict) && admits(opened, verdict, limits, result);
    equal_documents_have_equal_issues(opened, document, verdict, limits);
}

/// A document that was opened can be saved: what opening it came to is refused
/// for nothing, on the same verdict.
pub proof fn an_opened_document_can_be_saved(
    document: TopologyDocument,
    verdict: DocumentVerdict,
    limits: DocumentLimits,
    opened: Result<TopologyDocument, String>,
)
    requires
        admits(document, verdict, limits, opened),
        opened is Ok,
    ensures
        opened->Ok_0 == document,
        document_issue(opened->Ok_0, verdict, limits) is None,
{
}

} // verus!
