//! What the probes and the document as a whole must satisfy.

use crate::collect::lists;
use crate::model::{
    Region, TopologyCurve, TopologyDocument, TopologyProbeDefinition, TopologyProbeTarget,
    TopologyScene,
};
use crate::scalar::Scalar;
use crate::text::{blank, decimal, decimal_digits, is_blank, joined};
use crate::validation::{
    contiguous, contiguous_span_path, curve_named, find_curve, find_span, region_ids, span_place,
    structure_issue, validate_scene_structure, DocumentLimits, SceneVerdict,
};
use vstd::prelude::*;

verus! {

/// The name of a probe: some text, not all of it blank, of at most 64 bytes.
pub open spec fn probe_name_valid(name: Seq<char>) -> bool {
    &&& name.len() > 0
    &&& vstd::utf8::encode_utf8(name).len() <= 64
    &&& !is_blank(name)
}

/// Whether an earlier probe has the same id.
pub open spec fn id_taken(probes: Seq<TopologyProbeDefinition>, place: int) -> bool {
    exists|i: int| 0 <= i < place && (#[trigger] probes[i]).id == probes[place].id
}

pub open spec fn spans_on_curve(curve: TopologyCurve, spans: Seq<u64>) -> bool {
    forall|i: int|
        0 <= i < spans.len() ==> span_place(curve.spans@, #[trigger] spans[i]) is Some
}

/// What is wrong with where a probe measures, if anything.
pub open spec fn target_issue(target: TopologyProbeTarget, scene: TopologyScene) -> Option<
    Seq<char>,
> {
    match target {
        TopologyProbeTarget::Point(point) => if point.finite_point() {
            None
        } else {
            Some("Point probe is not finite"@)
        },
        TopologyProbeTarget::Segment { start, end, .. } => if start.finite_point()
            && end.finite_point() && !start.eq_point(end) {
            None
        } else {
            Some("Scene contains an invalid segment probe"@)
        },
        TopologyProbeTarget::Boundary(target) => match curve_named(
            scene.geometry.curves@,
            target.curve,
        ) {
            None => Some("Boundary probe references a missing curve"@),
            Some(curve) => if target.spans@.len() > 0 && spans_on_curve(curve, target.spans@)
                && contiguous(curve, target.spans@) {
                None
            } else {
                Some("Scene contains an invalid boundary probe"@)
            },
        },
        TopologyProbeTarget::AreaDisk { center, radius } => if center.finite_point()
            && radius.finite() && Scalar::zero_num().lt_num(radius) {
            None
        } else {
            Some("Scene contains an invalid disk probe"@)
        },
        TopologyProbeTarget::AreaRegion(region) => if region_ids(scene.regions@).contains(region) {
            None
        } else {
            Some("Area probe references a missing region"@)
        },
    }
}

/// What is wrong with one probe of a list, if anything.
pub open spec fn probe_issue(
    probes: Seq<TopologyProbeDefinition>,
    place: int,
    scene: TopologyScene,
) -> Option<Seq<char>> {
    let probe = probes[place];
    if probe.id == 0 || id_taken(probes, place) || !probe_name_valid(probe.name@) {
        Some("Scene contains an invalid probe"@)
    } else {
        target_issue(probe.target, scene)
    }
}

/// The issue of the first probe that has one, among the first `count`.
pub open spec fn first_probe_issue(
    probes: Seq<TopologyProbeDefinition>,
    count: int,
    scene: TopologyScene,
) -> Option<Seq<char>>
    decreases count,
{
    if count <= 0 {
        None
    } else {
        let earlier = first_probe_issue(probes, count - 1, scene);
        if earlier is Some {
            earlier
        } else {
            probe_issue(probes, count - 1, scene)
        }
    }
}

/// How many points a probe samples along a line.
pub open spec fn line_points(target: TopologyProbeTarget) -> nat {
    match target {
        TopologyProbeTarget::Segment { preset, .. } => preset.points(),
        TopologyProbeTarget::Boundary(target) => target.preset.points(),
        _ => 0,
    }
}

pub open spec fn sampling_points(probes: Seq<TopologyProbeDefinition>) -> nat
    decreases probes.len(),
{
    if probes.len() == 0 {
        0
    } else {
        sampling_points(probes.drop_last()) + line_points(probes.last().target)
    }
}

/// What is wrong with the probes of a scene, if anything.
pub open spec fn probes_issue(
    probes: Seq<TopologyProbeDefinition>,
    scene: TopologyScene,
    limits: DocumentLimits,
) -> Option<Seq<char>> {
    if probes.len() > limits.max_probes {
        Some("Scene contains more than "@ + decimal_digits(limits.max_probes as nat) + " probes"@)
    } else if first_probe_issue(probes, probes.len() as int, scene) is Some {
        first_probe_issue(probes, probes.len() as int, scene)
    } else if sampling_points(probes) > limits.max_segment_probe_points {
        Some(
            "Line probes exceed the "@ + decimal_digits(limits.max_segment_probe_points as nat)
                + "-point sampling budget"@,
        )
    } else {
        None
    }
}

proof fn an_early_issue_stays(
    probes: Seq<TopologyProbeDefinition>,
    count: int,
    total: int,
    scene: TopologyScene,
)
    requires
        0 <= count <= total,
        first_probe_issue(probes, count, scene) is Some,
    ensures
        first_probe_issue(probes, total, scene) == first_probe_issue(probes, count, scene),
    decreases total,
{
    if count < total {
        an_early_issue_stays(probes, count, total - 1, scene);
    }
}

fn check_name(name: &String) -> (result: bool)
    ensures
        result == probe_name_valid(name@),
{
    let text: &str = name.as_str();
    !text.is_empty() && text.as_bytes().len() <= 64 && !blank(text)
}

fn check_target(target: &TopologyProbeTarget, scene: &TopologyScene) -> (result: Option<
    &'static str,
>)
    ensures
        match target_issue(*target, *scene) {
            Some(issue) => result is Some && result->0@ == issue,
            None => result is None,
        },
{
    match target {
        TopologyProbeTarget::Point(point) => if point.finite() {
            None
        } else {
            Some("Point probe is not finite")
        },
        TopologyProbeTarget::Segment { start, end, .. } => if start.finite() && end.finite()
            && !start.equals(*end) {
            None
        } else {
            Some("Scene contains an invalid segment probe")
        },
        TopologyProbeTarget::Boundary(target) => match find_curve(
            &scene.geometry.curves,
            target.curve,
        ) {
            None => Some("Boundary probe references a missing curve"),
            Some(place) => {
                let curve: &TopologyCurve = &scene.geometry.curves[place];
                if target.spans.len() > 0 && check_spans(curve, &target.spans)
                    && contiguous_span_path(curve, &target.spans) {
                    None
                } else {
                    Some("Scene contains an invalid boundary probe")
                }
            },
        },
        TopologyProbeTarget::AreaDisk { center, radius } => if center.finite() && radius.is_finite()
            && Scalar::zero().less(*radius) {
            None
        } else {
            Some("Scene contains an invalid disk probe")
        },
        TopologyProbeTarget::AreaRegion(region) => if has_region(&scene.regions, *region) {
            None
        } else {
            Some("Area probe references a missing region")
        },
    }
}

fn check_spans(curve: &TopologyCurve, spans: &Vec<u64>) -> (result: bool)
    ensures
        result == spans_on_curve(*curve, spans@),
{
    let mut index: usize = 0;
    while index < spans.len()
        invariant
            index <= spans@.len(),
            forall|i: int|
                0 <= i < index ==> span_place(curve.spans@, #[trigger] spans@[i]) is Some,
        decreases spans@.len() - index,
    {
        if find_span(&curve.spans, spans[index]).is_none() {
            assert(span_place(curve.spans@, spans@[index as int]) is None);
            return false;
        }
        index = index + 1;
    }
    true
}

fn has_region(regions: &Vec<Region>, region: u64) -> (result: bool)
    ensures
        result == region_ids(regions@).contains(region),
{
    let mut index: usize = 0;
    while index < regions.len()
        invariant
            index <= regions@.len(),
            forall|i: int| 0 <= i < index ==> (#[trigger] regions@[i]).id != region,
        decreases regions@.len() - index,
    {
        if regions[index].id == region {
            assert(region_ids(regions@)[index as int] == region);
            return true;
        }
        index = index + 1;
    }
    assert forall|i: int| 0 <= i < regions@.len() implies #[trigger] region_ids(regions@)[i]
        != region by {
        assert(regions@[i].id != region);
    }
    false
}

fn line_points_of(target: &TopologyProbeTarget) -> (result: usize)
    ensures
        result as nat == line_points(*target),
        result <= 128,
{
    match target {
        TopologyProbeTarget::Segment { preset, .. } => preset.spatial_points(),
        TopologyProbeTarget::Boundary(target) => target.preset.spatial_points(),
        _ => 0,
    }
}

pub fn validate_probes(
    probes: &Vec<TopologyProbeDefinition>,
    scene: &TopologyScene,
    limits: DocumentLimits,
) -> (result: Result<(), String>)
    ensures
        match probes_issue(probes@, *scene, limits) {
            Some(issue) => result is Err && result->Err_0@ == issue,
            None => result is Ok,
        },
{
    if probes.len() > limits.max_probes {
        let head: String = joined(
            "Scene contains more than ",
            decimal(limits.max_probes as u64).as_str(),
        );
        return Err(joined(head.as_str(), " probes"));
    }
    let mut ids: Vec<u64> = Vec::new();
    let mut points: u128 = 0;
    let mut index: usize = 0;
    assert(probes@.take(0) =~= Seq::<TopologyProbeDefinition>::empty());
    while index < probes.len()
        invariant
            index <= probes@.len(),
            ids@.len() == index,
            forall|i: int| 0 <= i < index ==> #[trigger] ids@[i] == probes@[i].id,
            first_probe_issue(probes@, index as int, *scene) is None,
            points as nat == sampling_points(probes@.take(index as int)),
            points <= 128 * index,
            probes@.len() <= limits.max_probes,
        decreases probes@.len() - index,
    {
        let probe: &TopologyProbeDefinition = &probes[index];
        let taken: bool = lists(&ids, probe.id);
        proof {
            if taken {
                let i = ids@.index_of(probe.id);
                assert(probes@[i].id == probe.id);
            } else {
                assert forall|i: int| 0 <= i < index implies (#[trigger] probes@[i]).id
                    != probe.id by {
                    assert(ids@[i] == probes@[i].id);
                }
            }
            assert(taken == id_taken(probes@, index as int));
            assert(probes@.take(index + 1).drop_last() =~= probes@.take(index as int));
        }
        if probe.id == 0 || taken || !check_name(&probe.name) {
            proof {
                an_early_issue_stays(probes@, index + 1, probes@.len() as int, *scene);
            }
            return Err("Scene contains an invalid probe".to_owned());
        }
        if let Some(issue) = check_target(&probe.target, scene) {
            proof {
                an_early_issue_stays(probes@, index + 1, probes@.len() as int, *scene);
            }
            return Err(issue.to_owned());
        }
        ids.push(probe.id);
        points = points + line_points_of(&probe.target) as u128;
        index = index + 1;
    }
    assert(probes@.take(index as int) =~= probes@);
    if points > limits.max_segment_probe_points as u128 {
        let head: String = joined(
            "Line probes exceed the ",
            decimal(limits.max_segment_probe_points as u64).as_str(),
        );
        return Err(joined(head.as_str(), "-point sampling budget"));
    }
    Ok(())
}

/// What the engine says of a document.
#[derive(Debug)]
pub struct DocumentVerdict {
    pub draft: SceneVerdict,
    /// Why the accepted scene does not compile.
    pub accepted: Option<String>,
    pub source_valid: bool,
    pub far_field_valid: bool,
    pub presentation_valid: bool,
}

/// What keeps a document from being stored or opened, if anything.
pub open spec fn document_issue(
    document: TopologyDocument,
    verdict: DocumentVerdict,
    limits: DocumentLimits,
) -> Option<Seq<char>> {
    if structure_issue(document.model.draft, verdict.draft, limits) is Some {
        structure_issue(document.model.draft, verdict.draft, limits)
    } else if verdict.accepted is Some {
        Some("Accepted topology is invalid: "@ + verdict.accepted->0@)
    } else if !verdict.source_valid || !region_ids(document.model.accepted.regions@).contains(
        document.model.source.region,
    ) {
        Some("Scene contains an invalid point source"@)
    } else if !verdict.far_field_valid || !verdict.presentation_valid {
        Some("Scene contains invalid presentation settings"@)
    } else {
        probes_issue(document.model.probes@, document.model.draft, limits)
    }
}

pub fn validate_document(
    document: &TopologyDocument,
    verdict: &DocumentVerdict,
    limits: DocumentLimits,
) -> (result: Result<(), String>)
    requires
        verdict.draft.vertex_placed@.len() == document.model.draft.geometry.vertices@.len(),
    ensures
        match document_issue(*document, *verdict, limits) {
            Some(issue) => result is Err && result->Err_0@ == issue,
            None => result is Ok,
        },
{
    match validate_scene_structure(&document.model.draft, &verdict.draft, limits) {
        Err(issue) => {
            return Err(issue);
        },
        Ok(()) => {},
    }
    if let Some(issue) = &verdict.accepted {
        return Err(joined("Accepted topology is invalid: ", issue.as_str()));
    }
    if !verdict.source_valid || !has_region(
        &document.model.accepted.regions,
        document.model.source.region,
    ) {
        return Err("Scene contains an invalid point source".to_owned());
    }
    if !verdict.far_field_valid || !verdict.presentation_valid {
        return Err("Scene contains invalid presentation settings".to_owned());
    }
    validate_probes(&document.model.probes, &document.model.draft, limits)
}

} // verus!
