//! What the status bar and the diagnostics say. Measured numbers arrive as
//! text; counts are written here.

use crate::adaptation::{MeshAdaptationReport, SolutionIndicatorReport};
use crate::labels::{law_row_label, law_row_text, LawPresetRow};
use crate::model::PhysicsModel;
use crate::preparation::{TopologyMeshUpdateAction, TopologyToken};
use crate::scalar::Scalar;
use crate::text::{decimal, decimal_digits, joined};
use vstd::prelude::*;

verus! {

pub open spec fn number(count: u64) -> Seq<char> {
    decimal_digits(count as nat)
}

pub(crate) fn add_number(text: &mut String, count: u64, unit: &str)
    ensures
        final(text)@ == old(text)@ + number(count) + unit@,
{
    text.append(decimal(count).as_str());
    text.append(unit);
}

/// What a committed topology is made of.
#[derive(Clone, Copy, Debug, PartialEq, Eq, Structural)]
pub struct MeshCounts {
    pub degrees_of_freedom: u64,
    pub triangles: u64,
}

pub open spec fn summary_text(
    frame_rate: Seq<char>,
    step_rate: Seq<char>,
    active: Option<MeshCounts>,
    time_step: Seq<char>,
) -> Seq<char> {
    let counts = match active {
        Some(counts) => counts,
        None => MeshCounts { degrees_of_freedom: 0, triangles: 0 },
    };
    frame_rate + " fps · "@ + step_rate + " steps/s · "@ + number(counts.degrees_of_freedom)
        + " dofs · "@ + number(counts.triangles) + " elements · dt "@ + if active is Some {
        time_step
    } else {
        "—"@
    }
}

/// The line of the status bar. The rates and the time step arrive as text.
pub fn summary_line(
    frame_rate: &str,
    step_rate: &str,
    active: Option<MeshCounts>,
    time_step: &str,
) -> (result: String)
    ensures
        result@ == summary_text(frame_rate@, step_rate@, active, time_step@),
{
    let counts: MeshCounts = match active {
        Some(counts) => counts,
        None => MeshCounts { degrees_of_freedom: 0, triangles: 0 },
    };
    let mut text: String = joined(frame_rate, " fps · ");
    text.append(step_rate);
    text.append(" steps/s · ");
    add_number(&mut text, counts.degrees_of_freedom, " dofs · ");
    add_number(&mut text, counts.triangles, " elements · dt ");
    if active.is_some() {
        text.append(time_step);
    } else {
        text.append("—");
    }
    text
}

/// What sets the step ceiling of a driven medium: how low each row falls, in
/// parts of its fixed value, and as text.
#[derive(Debug)]
pub struct StepCeiling {
    pub primary_floor: Scalar,
    pub complementary_floor: Scalar,
    pub primary_text: String,
    pub complementary_text: String,
    pub ceiling_text: String,
    pub ratio_text: String,
}

pub open spec fn falls_text(physics: PhysicsModel, row: LawPresetRow, floor: Seq<char>) -> Seq<char> {
    law_row_text(physics, row) + " falls to "@ + floor + "×"@
}

pub open spec fn lowers(floor: Scalar) -> bool {
    floor.lt_num(Scalar::one_num())
}

pub open spec fn ceiling_line(bound: StepCeiling, physics: PhysicsModel) -> Seq<char> {
    let head = "Step ceiling "@ + bound.ceiling_text@ + " s, "@;
    let first = falls_text(physics, LawPresetRow::Mass, bound.primary_text@);
    let second = falls_text(physics, LawPresetRow::Stiffness, bound.complementary_text@);
    if !lowers(bound.primary_floor) && !lowers(bound.complementary_floor) {
        head + "the fixed medium's: no law here lowers it"@
    } else {
        head + bound.ratio_text@ + "× the fixed medium's: "@ + (if lowers(bound.primary_floor)
            && lowers(bound.complementary_floor) {
            first + ", "@ + second
        } else if lowers(bound.primary_floor) {
            first
        } else {
            second
        }) + " at its lowest"@
    }
}

fn falls(physics: PhysicsModel, row: LawPresetRow, floor: &str) -> (result: String)
    ensures
        result@ == falls_text(physics, row, floor@),
{
    let mut text: String = joined(law_row_label(physics, row), " falls to ");
    text.append(floor);
    text.append("×");
    text
}

/// What sets the step ceiling of a driven medium, in the names of the physics.
pub fn time_step_bound_line(bound: &StepCeiling, physics: PhysicsModel) -> (result: String)
    ensures
        result@ == ceiling_line(*bound, physics),
{
    let mut text: String = joined("Step ceiling ", bound.ceiling_text.as_str());
    text.append(" s, ");
    let primary: bool = bound.primary_floor.less(Scalar::one());
    let complementary: bool = bound.complementary_floor.less(Scalar::one());
    if !primary && !complementary {
        text.append("the fixed medium's: no law here lowers it");
        return text;
    }
    text.append(bound.ratio_text.as_str());
    text.append("× the fixed medium's: ");
    let mut lowered: String = String::new();
    if primary {
        let first: String = falls(physics, LawPresetRow::Mass, bound.primary_text.as_str());
        lowered.append(first.as_str());
        if complementary {
            lowered.append(", ");
        }
    }
    if complementary {
        let second: String = falls(
            physics,
            LawPresetRow::Stiffness,
            bound.complementary_text.as_str(),
        );
        lowered.append(second.as_str());
    }
    proof {
        let first = falls_text(physics, LawPresetRow::Mass, bound.primary_text@);
        let second = falls_text(physics, LawPresetRow::Stiffness, bound.complementary_text@);
        if primary && complementary {
            assert(lowered@ =~= first + ", "@ + second);
        } else if primary {
            assert(lowered@ =~= first);
        } else {
            assert(lowered@ =~= second);
        }
    }
    text.append(lowered.as_str());
    text.append(" at its lowest");
    text
}

/// How far a handoff has got.
#[derive(Clone, Copy, Debug, PartialEq, Eq, Structural)]
pub struct HandoffProgress {
    pub uploading: bool,
    pub committing_source: bool,
    /// The candidate's buffers are being packed, and whether they are.
    pub packing: Option<bool>,
    pub ready: bool,
    pub preparing: bool,
    pub backlog: u64,
}

pub open spec fn handoff_text(progress: HandoffProgress) -> Seq<char> {
    if progress.uploading {
        "Uploading the candidate to the GPU"@
    } else if progress.committing_source {
        "Applying source parameters at a solver boundary"@
    } else if progress.packing == Some(false) {
        "Packing candidate GPU buffers in the background"@
    } else if progress.packing == Some(true) {
        "GPU buffers ready · draining "@ + number(progress.backlog) + " requested steps"@
    } else if progress.ready {
        "Candidate ready · draining "@ + number(progress.backlog) + " requested steps"@
    } else if progress.preparing {
        "Preparing a candidate on the CPU"@
    } else {
        "Idle"@
    }
}

pub fn handoff_status(progress: HandoffProgress) -> (result: String)
    ensures
        result@ == handoff_text(progress),
{
    if progress.uploading {
        return "Uploading the candidate to the GPU".to_owned();
    }
    if progress.committing_source {
        return "Applying source parameters at a solver boundary".to_owned();
    }
    match progress.packing {
        Some(false) => {
            return "Packing candidate GPU buffers in the background".to_owned();
        },
        Some(true) => {
            let mut text: String = "GPU buffers ready · draining ".to_owned();
            add_number(&mut text, progress.backlog, " requested steps");
            return text;
        },
        None => {},
    }
    if progress.ready {
        let mut text: String = "Candidate ready · draining ".to_owned();
        add_number(&mut text, progress.backlog, " requested steps");
        return text;
    }
    if progress.preparing {
        "Preparing a candidate on the CPU".to_owned()
    } else {
        "Idle".to_owned()
    }
}

/// What a repair kept, removed and inserted.
#[derive(Clone, Copy, Debug, PartialEq, Eq, Structural)]
pub struct CarveReport {
    pub kept_triangles: u64,
    pub removed_triangles: u64,
    pub inserted_triangles: u64,
}

/// One completed transaction, as far as its words go. `reason` is what the
/// engine calls the reason of a repair or a rebuild.
#[derive(Debug)]
pub struct HandoffRecord {
    pub action: TopologyMeshUpdateAction,
    pub reason: String,
    pub operator_reused: bool,
    pub adapted: bool,
    pub transferred: bool,
    pub exact_nodes: u64,
    pub fresh: bool,
    pub degrees_of_freedom: u64,
    pub triangles: u64,
    pub carve: Option<CarveReport>,
    pub repair_fallback: Option<String>,
}

pub open spec fn action_text(record: HandoffRecord) -> Seq<char> {
    match record.action {
        TopologyMeshUpdateAction::Reuse => if record.adapted {
            "Adapted mesh · operator reassembled"@
        } else if record.operator_reused {
            "Reused the committed mesh · operator reused"@
        } else {
            "Reused the committed mesh · operator reassembled"@
        },
        TopologyMeshUpdateAction::Repair { .. } => match record.carve {
            Some(carve) => "Mesh repaired: "@ + record.reason@ + " · kept "@ + number(
                carve.kept_triangles,
            ) + " · removed "@ + number(carve.removed_triangles) + " · inserted "@ + number(
                carve.inserted_triangles,
            ),
            None => "Mesh repaired: "@ + record.reason@,
        },
        TopologyMeshUpdateAction::FullRebuild(_) => match record.repair_fallback {
            Some(message) => "Full rebuild: "@ + record.reason@ + " ("@ + message@ + ")"@,
            None => "Full rebuild: "@ + record.reason@,
        },
    }
}

/// What the last transaction did to the mesh.
pub fn handoff_action(record: &HandoffRecord) -> (result: String)
    ensures
        result@ == action_text(*record),
{
    match &record.action {
        TopologyMeshUpdateAction::Reuse => if record.adapted {
            "Adapted mesh · operator reassembled".to_owned()
        } else if record.operator_reused {
            "Reused the committed mesh · operator reused".to_owned()
        } else {
            "Reused the committed mesh · operator reassembled".to_owned()
        },
        TopologyMeshUpdateAction::Repair { .. } => {
            let mut text: String = joined("Mesh repaired: ", record.reason.as_str());
            if let Some(carve) = record.carve {
                text.append(" · kept ");
                add_number(&mut text, carve.kept_triangles, " · removed ");
                add_number(&mut text, carve.removed_triangles, " · inserted ");
                text.append(decimal(carve.inserted_triangles).as_str());
            }
            text
        },
        TopologyMeshUpdateAction::FullRebuild(_) => {
            let mut text: String = joined("Full rebuild: ", record.reason.as_str());
            if let Some(message) = &record.repair_fallback {
                text.append(" (");
                text.append(message.as_str());
                text.append(")");
            }
            text
        },
    }
}

pub open spec fn field_text(record: HandoffRecord) -> Seq<char> {
    (if record.fresh {
        "Fresh field"@
    } else if record.transferred {
        "Field transferred · "@ + number(record.exact_nodes) + " of "@ + number(
            record.degrees_of_freedom,
        ) + " nodes copied exactly"@
    } else {
        "Field preserved in place"@
    }) + " · "@ + number(record.degrees_of_freedom) + " dofs · "@ + number(record.triangles)
        + " triangles"@
}

/// What the last transaction did to the field.
pub fn handoff_field(record: &HandoffRecord) -> (result: String)
    ensures
        result@ == field_text(*record),
{
    let mut text: String = if record.fresh {
        "Fresh field".to_owned()
    } else if record.transferred {
        let mut carried: String = "Field transferred · ".to_owned();
        add_number(&mut carried, record.exact_nodes, " of ");
        add_number(&mut carried, record.degrees_of_freedom, " nodes copied exactly");
        carried
    } else {
        "Field preserved in place".to_owned()
    };
    text.append(" · ");
    add_number(&mut text, record.degrees_of_freedom, " dofs · ");
    add_number(&mut text, record.triangles, " triangles");
    text
}

/// Where the validation of the draft stands. An invalid draft says why.
#[derive(Debug)]
pub enum TopologyAcceptance {
    Valid,
    Pending,
    Invalid(String),
}

pub open spec fn acceptance_text(
    acceptance: TopologyAcceptance,
    phase: Option<Seq<char>>,
    detail: Option<Seq<char>>,
) -> Seq<char> {
    match acceptance {
        TopologyAcceptance::Invalid(issue) => "Geometry invalid: "@ + issue@,
        TopologyAcceptance::Pending => "Topology rebuilding: tracing faces"@,
        TopologyAcceptance::Valid => match (phase, detail) {
            (None, _) => "Simulation ready"@,
            (Some(_), Some(detail)) => detail,
            (Some(label), None) => label,
        },
    }
}

pub open spec fn view_of(text: Option<&str>) -> Option<Seq<char>> {
    match text {
        Some(text) => Some(text@),
        None => None,
    }
}

/// What the status bar says of the geometry and the preparation: `phase` names
/// the phase of a preparation that is going on, and `detail` what it is at.
pub fn status_text(acceptance: &TopologyAcceptance, phase: Option<&str>, detail: Option<&str>) -> (result:
    String)
    ensures
        result@ == acceptance_text(*acceptance, view_of(phase), view_of(detail)),
{
    match acceptance {
        TopologyAcceptance::Invalid(issue) => joined("Geometry invalid: ", issue.as_str()),
        TopologyAcceptance::Pending => "Topology rebuilding: tracing faces".to_owned(),
        TopologyAcceptance::Valid => match phase {
            None => "Simulation ready".to_owned(),
            Some(label) => match detail {
                Some(detail) => detail.to_owned(),
                None => label.to_owned(),
            },
        },
    }
}

pub open spec fn token_line(token: Option<TopologyToken>) -> Seq<char> {
    match token {
        Some(token) => "Committed token: document "@ + number(token.document_revision)
            + " · topology "@ + number(token.topology_revision) + " · mesh generation "@ + number(
            token.mesh_generation,
        ),
        None => "No committed topology"@,
    }
}

/// What the diagnostics say of the committed topology.
pub fn token_text(token: Option<TopologyToken>) -> (result: String)
    ensures
        result@ == token_line(token),
{
    match token {
        Some(token) => {
            let mut text: String = "Committed token: document ".to_owned();
            add_number(&mut text, token.document_revision, " · topology ");
            add_number(&mut text, token.topology_revision, " · mesh generation ");
            text.append(decimal(token.mesh_generation).as_str());
            text
        },
        None => "No committed topology".to_owned(),
    }
}

pub open spec fn document_line(revision: u64, curves: u64, regions: u64) -> Seq<char> {
    "Document revision "@ + number(revision) + " · "@ + number(curves) + " curves · "@ + number(
        regions,
    ) + " authored regions"@
}

/// How the diagnostics sum up the authored document.
pub fn document_text(revision: u64, curves: u64, regions: u64) -> (result: String)
    ensures
        result@ == document_line(revision, curves, regions),
{
    let mut text: String = "Document revision ".to_owned();
    add_number(&mut text, revision, " · ");
    add_number(&mut text, curves, " curves · ");
    add_number(&mut text, regions, " authored regions");
    text
}

pub open spec fn mesh_line(vertices: u64, triangles: u64, regions: u64) -> Seq<char> {
    number(vertices) + " vertices · "@ + number(triangles) + " triangles · "@ + number(regions)
        + " active regions"@
}

/// How the diagnostics sum up the committed mesh.
pub fn mesh_text(vertices: u64, triangles: u64, regions: u64) -> (result: String)
    ensures
        result@ == mesh_line(vertices, triangles, regions),
{
    let mut text: String = decimal(vertices);
    text.append(" vertices · ");
    add_number(&mut text, triangles, " triangles · ");
    add_number(&mut text, regions, " active regions");
    text
}

pub open spec fn candidates_line(report: SolutionIndicatorReport) -> Seq<char> {
    "Refine candidates "@ + number(report.refine_candidates as u64) + " ("@ + number(
        report.error_refine_candidates as u64,
    ) + " error, "@ + number(report.limit_refine_candidates as u64)
        + " limit) · coarsen candidates "@ + number(report.coarsen_candidates as u64) + " · "@
        + number(report.work_units as u64) + " work units"@
}

/// What an estimate asks of the mesh.
pub fn candidates_text(report: SolutionIndicatorReport) -> (result: String)
    ensures
        result@ == candidates_line(report),
{
    let mut text: String = "Refine candidates ".to_owned();
    add_number(&mut text, report.refine_candidates as u64, " (");
    add_number(&mut text, report.error_refine_candidates as u64, " error, ");
    add_number(
        &mut text,
        report.limit_refine_candidates as u64,
        " limit) · coarsen candidates ",
    );
    add_number(&mut text, report.coarsen_candidates as u64, " · ");
    add_number(&mut text, report.work_units as u64, " work units");
    text
}

/// How many of its changes an adaptation refined by.
pub open spec fn refinements(report: MeshAdaptationReport) -> u64 {
    if report.topology_changes >= report.coarsening_changes {
        (report.topology_changes - report.coarsening_changes) as u64
    } else {
        0
    }
}

pub open spec fn adaptation_line(report: MeshAdaptationReport) -> Seq<char> {
    "Last adaptation: "@ + number(refinements(report)) + " refinements · "@ + number(
        report.coarsening_changes as u64,
    ) + " coarsenings · "@ + number(report.skipped_collapses as u64) + " rejected collapses"@
}

/// What the last adaptation did.
pub fn adaptation_text(report: MeshAdaptationReport) -> (result: String)
    ensures
        result@ == adaptation_line(report),
{
    let refined: usize = if report.topology_changes >= report.coarsening_changes {
        report.topology_changes - report.coarsening_changes
    } else {
        0
    };
    let mut text: String = "Last adaptation: ".to_owned();
    add_number(&mut text, refined as u64, " refinements · ");
    add_number(&mut text, report.coarsening_changes as u64, " coarsenings · ");
    add_number(&mut text, report.skipped_collapses as u64, " rejected collapses");
    text
}

pub open spec fn scheduling_word(ready: bool, uploading: bool, running: bool) -> Seq<char> {
    if ready || uploading {
        "withheld for a pending handoff"@
    } else if running {
        "running"@
    } else {
        "paused"@
    }
}

/// Whether the solver is scheduled, and why not.
pub fn scheduling_text(ready: bool, uploading: bool, running: bool) -> (result: &'static str)
    ensures
        result@ == scheduling_word(ready, uploading, running),
{
    if ready || uploading {
        "withheld for a pending handoff"
    } else if running {
        "running"
    } else {
        "paused"
    }
}

} // verus!
