//! The sections of the diagnostics and the status bar, line by line. Measured
//! numbers arrive as text.

use crate::adaptation::{
    adaptation_decision, direction, AmrStatus, MeshAdaptationReport, SolutionIndicatorReport,
};
use crate::capture::{dropped_frames_text, Captures, RecordingState};
use crate::events::{event_line, line_text, EventEntry, EventLog, EventSource, EVENT_LOG_ENTRIES};
use crate::model::PhysicsModel;
use crate::preparation::TopologyToken;
use crate::readouts::{
    acceptance_text, action_text, adaptation_line, adaptation_text, add_number, candidates_line,
    candidates_text, ceiling_line, document_line, document_text, field_text, handoff_action,
    handoff_field, handoff_status, handoff_text, mesh_line, mesh_text, number, scheduling_text,
    scheduling_word, status_text, time_step_bound_line, token_line, token_text, view_of,
    HandoffProgress, HandoffRecord, StepCeiling, TopologyAcceptance,
};
use crate::scalar::Scalar;
use crate::text::joined;
use vstd::prelude::*;

verus! {

/// How a line is shown.
#[derive(Clone, Copy, Debug, PartialEq, Eq, Structural)]
pub enum Tone {
    Plain,
    Small,
    Weak,
    Red,
    Gold,
}

#[derive(Debug)]
pub struct Line {
    pub text: String,
    pub tone: Tone,
}

/// A line without its storage.
pub type Shown = (Seq<char>, Tone);

pub open spec fn shown(lines: Seq<Line>) -> Seq<Shown> {
    lines.map_values(|line: Line| (line.text@, line.tone))
}

fn say(lines: &mut Vec<Line>, tone: Tone, text: String)
    ensures
        shown(final(lines)@) == shown(old(lines)@).push((text@, tone)),
{
    lines.push(Line { text, tone });
    assert(shown(lines@) =~= shown(old(lines)@).push((text@, tone)));
}

/// A line that is there or not.
pub open spec fn perhaps(text: Option<String>, tone: Tone) -> Seq<Shown> {
    match text {
        Some(text) => seq![(text@, tone)],
        None => Seq::empty(),
    }
}

fn say_perhaps(lines: &mut Vec<Line>, tone: Tone, text: &Option<String>)
    ensures
        shown(final(lines)@) == shown(old(lines)@) + perhaps(*text, tone),
{
    if let Some(text) = text {
        let said: String = text.clone();
        say(lines, tone, said);
        assert(shown(lines@) =~= shown(old(lines)@) + perhaps(Some(*text), tone));
    } else {
        assert(shown(lines@) =~= shown(old(lines)@) + perhaps(None, tone));
    }
}

fn none() -> (result: Vec<Line>)
    ensures
        shown(result@) == Seq::<Shown>::empty(),
{
    let lines: Vec<Line> = Vec::new();
    assert(shown(lines@) =~= Seq::empty());
    lines
}

/// A preparation that is going on: its phase, what it is at, and its timing once
/// there is one.
#[derive(Debug)]
pub struct PreparingText {
    pub phase: String,
    pub detail: Option<String>,
    pub timing: Option<String>,
}

/// What the section on the topology is made of. `structure` is what is wrong with
/// an invalid draft, in full.
#[derive(Debug)]
pub struct TopologySection {
    pub acceptance: TopologyAcceptance,
    pub structure: String,
    pub revision: u64,
    pub curves: u64,
    pub regions: u64,
    pub committed: Option<TopologyToken>,
    pub preparing: Option<PreparingText>,
    pub error: Option<String>,
}

pub open spec fn detail_of(preparing: PreparingText) -> Seq<char> {
    match preparing.detail {
        Some(detail) => detail@,
        None => preparing.phase@,
    }
}

pub open spec fn draft_line(section: TopologySection) -> Shown {
    match section.acceptance {
        TopologyAcceptance::Valid => ("Draft accepted"@, Tone::Plain),
        TopologyAcceptance::Pending => ("Draft compiling"@, Tone::Plain),
        TopologyAcceptance::Invalid(_) => ("Draft invalid: "@ + section.structure@, Tone::Red),
    }
}

pub open spec fn preparing_lines(preparing: Option<PreparingText>) -> Seq<Shown> {
    match preparing {
        None => seq![("No candidate in preparation"@, Tone::Small)],
        Some(preparing) => match preparing.timing {
            Some(timing) => seq![
                ("Preparing: "@ + detail_of(preparing), Tone::Small),
                (timing@, Tone::Small),
            ],
            None => seq![("Candidate: "@ + preparing.phase@, Tone::Small)],
        },
    }
}

pub open spec fn topology_lines(section: TopologySection) -> Seq<Shown> {
    seq![
        draft_line(section),
        (document_line(section.revision, section.curves, section.regions), Tone::Small),
        (token_line(section.committed), Tone::Small),
    ] + preparing_lines(section.preparing) + perhaps(section.error, Tone::Red)
}

/// The section on the topology: the draft, the document, what is committed and
/// what is being prepared.
pub fn topology_section(section: &TopologySection) -> (result: Vec<Line>)
    ensures
        shown(result@) == topology_lines(*section),
{
    let mut lines: Vec<Line> = none();
    match &section.acceptance {
        TopologyAcceptance::Valid => {
            say(&mut lines, Tone::Plain, "Draft accepted".to_owned());
        },
        TopologyAcceptance::Pending => {
            say(&mut lines, Tone::Plain, "Draft compiling".to_owned());
        },
        TopologyAcceptance::Invalid(_) => {
            say(&mut lines, Tone::Red, joined("Draft invalid: ", section.structure.as_str()));
        },
    }
    say(
        &mut lines,
        Tone::Small,
        document_text(section.revision, section.curves, section.regions),
    );
    say(&mut lines, Tone::Small, token_text(section.committed));
    match &section.preparing {
        None => {
            say(&mut lines, Tone::Small, "No candidate in preparation".to_owned());
        },
        Some(preparing) => match &preparing.timing {
            Some(timing) => {
                let detail: &str = match &preparing.detail {
                    Some(detail) => detail.as_str(),
                    None => preparing.phase.as_str(),
                };
                say(&mut lines, Tone::Small, joined("Preparing: ", detail));
                let measured: String = timing.clone();
                say(&mut lines, Tone::Small, measured);
            },
            None => {
                say(&mut lines, Tone::Small, joined("Candidate: ", preparing.phase.as_str()));
            },
        },
    }
    say_perhaps(&mut lines, Tone::Red, &section.error);
    assert(shown(lines@) =~= topology_lines(*section));
    lines
}

/// The committed mesh, and its quality as text.
#[derive(Debug)]
pub struct CommittedMesh {
    pub vertices: u64,
    pub triangles: u64,
    pub regions: u64,
    pub minimum_angle: String,
    pub maximum_edge: String,
    pub target_edge: String,
}

/// The last estimate, and its numbers as text.
#[derive(Debug)]
pub struct EstimateText {
    pub report: SolutionIndicatorReport,
    pub minimum_indicator: String,
    pub maximum_indicator: String,
    pub minimum_target: String,
    pub maximum_target: String,
    pub whole_field: String,
    pub accuracy: String,
    pub primary: String,
    pub complementary: String,
    pub cell: String,
    pub jump: String,
    pub boundary: String,
    /// The element size that the forced wavelength wants, and the same as text.
    pub wavelength: Scalar,
    pub wavelength_text: String,
}

/// The last adaptation, and how much of the mesh it left as text.
#[derive(Debug)]
pub struct AdaptationText {
    pub report: MeshAdaptationReport,
    pub survived: String,
}

#[derive(Debug)]
pub struct MeshSection {
    pub mesh: Option<CommittedMesh>,
    pub status: AmrStatus,
    pub target_accuracy: Scalar,
    pub coarsen_below: Scalar,
    pub estimate: Option<EstimateText>,
    pub adaptation: Option<AdaptationText>,
    pub error: Option<String>,
}

pub open spec fn committed_lines(mesh: Option<CommittedMesh>) -> Seq<Shown> {
    match mesh {
        None => seq![("No committed mesh"@, Tone::Plain)],
        Some(mesh) => seq![
            (mesh_line(mesh.vertices, mesh.triangles, mesh.regions), Tone::Plain),
            (
                "Minimum angle "@ + mesh.minimum_angle@ + "° · maximum edge "@
                    + mesh.maximum_edge@ + " · target "@ + mesh.target_edge@,
                Tone::Small,
            ),
        ],
    }
}

pub open spec fn accuracy_line(estimate: EstimateText, section: MeshSection) -> Seq<char> {
    if estimate.report.dormant {
        "Whole field dormant · relative error suppressed"@
    } else {
        "Whole field "@ + estimate.whole_field@ + "% · target "@ + estimate.accuracy@ + "% · "@
            + direction(
            estimate.report,
            section.target_accuracy,
            section.coarsen_below,
        ).label_text()
    }
}

pub open spec fn residual_line(estimate: EstimateText) -> Seq<char> {
    "Residual: primary "@ + estimate.primary@ + " + complementary "@ + estimate.complementary@
        + " recovery · cell "@ + estimate.cell@ + " · jump "@ + estimate.jump@ + " · boundary "@
        + estimate.boundary@
}

pub open spec fn estimate_lines(section: MeshSection) -> Seq<Shown> {
    match section.estimate {
        None => Seq::empty(),
        Some(estimate) => seq![
            (
                "Indicator "@ + estimate.minimum_indicator@ + "–"@ + estimate.maximum_indicator@
                    + " · target "@ + estimate.minimum_target@ + "–"@ + estimate.maximum_target@,
                Tone::Small,
            ),
            (accuracy_line(estimate, section), Tone::Small),
            (candidates_line(estimate.report), Tone::Small),
            (residual_line(estimate), Tone::Small),
        ] + if estimate.wavelength.finite() {
            seq![("Forced wavelength wants "@ + estimate.wavelength_text@, Tone::Small)]
        } else {
            Seq::empty()
        },
    }
}

pub open spec fn adaptation_lines(adaptation: Option<AdaptationText>) -> Seq<Shown> {
    match adaptation {
        None => Seq::empty(),
        Some(adaptation) => seq![
            (adaptation_line(adaptation.report), Tone::Small),
            (
                number(adaptation.report.refine_passes as u64) + " refine passes · "@ + number(
                    adaptation.report.collapse_passes as u64,
                ) + " coarsen passes · "@ + number(adaptation.report.work_units as u64)
                    + " work units"@,
                Tone::Small,
            ),
            (
                adaptation.survived@ + "% of the source triangles survived · "@ + number(
                    adaptation.report.remaining_oversized_triangles as u64,
                ) + " still oversized"@,
                Tone::Small,
            ),
        ],
    }
}

pub open spec fn mesh_lines(section: MeshSection) -> Seq<Shown> {
    committed_lines(section.mesh) + seq![
        ("Adaptation: "@ + section.status.text_of(), Tone::Small),
    ] + estimate_lines(section) + adaptation_lines(section.adaptation) + perhaps(
        section.error,
        Tone::Red,
    )
}

fn say_committed(lines: &mut Vec<Line>, mesh: &Option<CommittedMesh>)
    ensures
        shown(final(lines)@) == shown(old(lines)@) + committed_lines(*mesh),
{
    match mesh {
        None => {
            say(lines, Tone::Plain, "No committed mesh".to_owned());
        },
        Some(mesh) => {
            say(lines, Tone::Plain, mesh_text(mesh.vertices, mesh.triangles, mesh.regions));
            let mut quality: String = joined("Minimum angle ", mesh.minimum_angle.as_str());
            quality.append("° · maximum edge ");
            quality.append(mesh.maximum_edge.as_str());
            quality.append(" · target ");
            quality.append(mesh.target_edge.as_str());
            say(lines, Tone::Small, quality);
        },
    }
    assert(shown(lines@) =~= shown(old(lines)@) + committed_lines(*mesh));
}

fn say_accuracy(lines: &mut Vec<Line>, estimate: &EstimateText, section: &MeshSection)
    ensures
        shown(final(lines)@) == shown(old(lines)@).push(
            (accuracy_line(*estimate, *section), Tone::Small),
        ),
{
    if estimate.report.dormant {
        say(lines, Tone::Small, "Whole field dormant · relative error suppressed".to_owned());
    } else {
        let mut accuracy: String = joined("Whole field ", estimate.whole_field.as_str());
        accuracy.append("% · target ");
        accuracy.append(estimate.accuracy.as_str());
        accuracy.append("% · ");
        accuracy.append(
            adaptation_decision(
                estimate.report,
                section.target_accuracy,
                section.coarsen_below,
            ).label(),
        );
        say(lines, Tone::Small, accuracy);
    }
}

fn say_estimate(lines: &mut Vec<Line>, section: &MeshSection)
    ensures
        shown(final(lines)@) == shown(old(lines)@) + estimate_lines(*section),
{
    if let Some(estimate) = &section.estimate {
        let mut range: String = joined("Indicator ", estimate.minimum_indicator.as_str());
        range.append("–");
        range.append(estimate.maximum_indicator.as_str());
        range.append(" · target ");
        range.append(estimate.minimum_target.as_str());
        range.append("–");
        range.append(estimate.maximum_target.as_str());
        say(lines, Tone::Small, range);
        say_accuracy(lines, estimate, section);
        say(lines, Tone::Small, candidates_text(estimate.report));
        let mut residual: String = joined("Residual: primary ", estimate.primary.as_str());
        residual.append(" + complementary ");
        residual.append(estimate.complementary.as_str());
        residual.append(" recovery · cell ");
        residual.append(estimate.cell.as_str());
        residual.append(" · jump ");
        residual.append(estimate.jump.as_str());
        residual.append(" · boundary ");
        residual.append(estimate.boundary.as_str());
        say(lines, Tone::Small, residual);
        if estimate.wavelength.is_finite() {
            say(
                lines,
                Tone::Small,
                joined("Forced wavelength wants ", estimate.wavelength_text.as_str()),
            );
        }
    }
    assert(shown(lines@) =~= shown(old(lines)@) + estimate_lines(*section));
}

fn say_adaptation(lines: &mut Vec<Line>, adaptation: &Option<AdaptationText>)
    ensures
        shown(final(lines)@) == shown(old(lines)@) + adaptation_lines(*adaptation),
{
    if let Some(adaptation) = adaptation {
        say(lines, Tone::Small, adaptation_text(adaptation.report));
        let mut passes: String = String::new();
        add_number(&mut passes, adaptation.report.refine_passes as u64, " refine passes · ");
        add_number(&mut passes, adaptation.report.collapse_passes as u64, " coarsen passes · ");
        add_number(&mut passes, adaptation.report.work_units as u64, " work units");
        assert(passes@ =~= number(adaptation.report.refine_passes as u64) + " refine passes · "@
            + number(adaptation.report.collapse_passes as u64) + " coarsen passes · "@ + number(
            adaptation.report.work_units as u64,
        ) + " work units"@);
        say(lines, Tone::Small, passes);
        let mut left: String = joined(
            adaptation.survived.as_str(),
            "% of the source triangles survived · ",
        );
        add_number(
            &mut left,
            adaptation.report.remaining_oversized_triangles as u64,
            " still oversized",
        );
        say(lines, Tone::Small, left);
    }
    assert(shown(lines@) =~= shown(old(lines)@) + adaptation_lines(*adaptation));
}

/// The section on the mesh: what is committed, what the last estimate asked for
/// and what the last adaptation did.
pub fn mesh_section(section: &MeshSection) -> (result: Vec<Line>)
    ensures
        shown(result@) == mesh_lines(*section),
{
    let mut lines: Vec<Line> = none();
    say_committed(&mut lines, &section.mesh);
    say(&mut lines, Tone::Small, joined("Adaptation: ", section.status.text()));
    say_estimate(&mut lines, section);
    say_adaptation(&mut lines, &section.adaptation);
    say_perhaps(&mut lines, Tone::Red, &section.error);
    assert(shown(lines@) =~= mesh_lines(*section));
    lines
}

/// The last handoff, and its waits as text.
#[derive(Debug)]
pub struct LastHandoff {
    pub record: HandoffRecord,
    pub prepare: String,
    pub pack: String,
    pub drain: String,
    pub upload: String,
    pub timing: String,
}

pub open spec fn last_handoff_lines(last: Option<LastHandoff>) -> Seq<Shown> {
    match last {
        None => seq![("No handoff has completed yet."@, Tone::Small)],
        Some(last) => seq![
            (
                "Last handoff: prepare "@ + last.prepare@ + " ms · pack "@ + last.pack@
                    + " ms · drain "@ + last.drain@ + " ms · upload "@ + last.upload@ + " ms"@,
                Tone::Small,
            ),
            (last.timing@, Tone::Small),
            (action_text(last.record), Tone::Small),
            (field_text(last.record), Tone::Small),
        ],
    }
}

pub open spec fn handoff_lines(progress: HandoffProgress, last: Option<LastHandoff>) -> Seq<Shown> {
    seq![
        (handoff_text(progress), Tone::Plain),
        ("The committed field keeps running until a candidate is acknowledged."@, Tone::Small),
    ] + last_handoff_lines(last)
}

/// The section on the handoff: how far one is, and what the last one did.
pub fn handoff_section(progress: HandoffProgress, last: &Option<LastHandoff>) -> (result: Vec<Line>)
    ensures
        shown(result@) == handoff_lines(progress, *last),
{
    let mut lines: Vec<Line> = none();
    say(&mut lines, Tone::Plain, handoff_status(progress));
    say(
        &mut lines,
        Tone::Small,
        "The committed field keeps running until a candidate is acknowledged.".to_owned(),
    );
    match last {
        None => {
            say(&mut lines, Tone::Small, "No handoff has completed yet.".to_owned());
        },
        Some(last) => {
            let mut waits: String = joined("Last handoff: prepare ", last.prepare.as_str());
            waits.append(" ms · pack ");
            waits.append(last.pack.as_str());
            waits.append(" ms · drain ");
            waits.append(last.drain.as_str());
            waits.append(" ms · upload ");
            waits.append(last.upload.as_str());
            waits.append(" ms");
            say(&mut lines, Tone::Small, waits);
            let timing: String = last.timing.clone();
            say(&mut lines, Tone::Small, timing);
            say(&mut lines, Tone::Small, handoff_action(&last.record));
            say(&mut lines, Tone::Small, handoff_field(&last.record));
        },
    }
    assert(shown(lines@) =~= handoff_lines(progress, *last));
    lines
}

/// The committed generation as the solver runs it, and its numbers as text.
#[derive(Debug)]
pub struct RunningSolver {
    pub degrees_of_freedom: u64,
    pub storage: String,
    pub time_step: String,
    pub step_rate: String,
    pub speed: String,
    pub simulated_time: String,
    pub completed_steps: u64,
    /// What sets the step ceiling of a driven medium.
    pub ceiling: Option<StepCeiling>,
}

#[derive(Debug)]
pub struct SolverSection {
    pub gpu_status: String,
    pub dispatches: u64,
    pub running_solver: Option<RunningSolver>,
    pub physics: PhysicsModel,
    pub backlog: u64,
    pub steps_per_frame: u64,
    pub ready: bool,
    pub uploading: bool,
    pub running: bool,
    pub energy: Option<String>,
}

pub open spec fn ceiling_lines(ceiling: Option<StepCeiling>, physics: PhysicsModel) -> Seq<Shown> {
    match ceiling {
        Some(ceiling) => seq![(ceiling_line(ceiling, physics), Tone::Small)],
        None => Seq::empty(),
    }
}

pub open spec fn running_lines(section: SolverSection) -> Seq<Shown> {
    match section.running_solver {
        None => seq![("Waiting for an accepted mesh and wave operator."@, Tone::Small)],
        Some(solver) => seq![
            (
                number(solver.degrees_of_freedom) + " dofs · "@ + solver.storage@
                    + " MiB canonical solver storage"@,
                Tone::Small,
            ),
            (
                "dt "@ + solver.time_step@ + " · "@ + solver.step_rate@ + " steps/s · "@
                    + solver.speed@ + " simulated s per wall s"@,
                Tone::Small,
            ),
            (
                "Simulated time "@ + solver.simulated_time@ + " s · "@ + number(
                    solver.completed_steps,
                ) + " completed steps"@,
                Tone::Small,
            ),
        ] + ceiling_lines(solver.ceiling, section.physics),
    }
}

pub open spec fn backlog_line(section: SolverSection) -> Seq<char> {
    "Backlog "@ + number(section.backlog) + " steps · "@ + number(section.steps_per_frame)
        + " per frame ceiling · scheduling "@ + scheduling_word(
        section.ready,
        section.uploading,
        section.running,
    )
}

pub open spec fn energy_lines(energy: Option<String>) -> Seq<Shown> {
    match energy {
        Some(energy) => seq![
            (
                "Canonical discrete energy "@ + energy@ + " · bulk + gaps + outgoing memory"@,
                Tone::Small,
            ),
        ],
        None => Seq::empty(),
    }
}

pub open spec fn solver_lines(section: SolverSection) -> Seq<Shown> {
    seq![
        (
            "GPU "@ + section.gpu_status@ + " · "@ + number(section.dispatches) + " dispatches"@,
            Tone::Plain,
        ),
    ] + running_lines(section) + seq![(backlog_line(section), Tone::Small)] + energy_lines(
        section.energy,
    )
}

fn say_running(lines: &mut Vec<Line>, section: &SolverSection)
    ensures
        shown(final(lines)@) == shown(old(lines)@) + running_lines(*section),
{
    match &section.running_solver {
        None => {
            say(
                lines,
                Tone::Small,
                "Waiting for an accepted mesh and wave operator.".to_owned(),
            );
        },
        Some(solver) => {
            let mut storage: String = String::new();
            add_number(&mut storage, solver.degrees_of_freedom, " dofs · ");
            storage.append(solver.storage.as_str());
            storage.append(" MiB canonical solver storage");
            assert(storage@ =~= number(solver.degrees_of_freedom) + " dofs · "@ + solver.storage@
                + " MiB canonical solver storage"@);
            say(lines, Tone::Small, storage);
            let mut speed: String = joined("dt ", solver.time_step.as_str());
            speed.append(" · ");
            speed.append(solver.step_rate.as_str());
            speed.append(" steps/s · ");
            speed.append(solver.speed.as_str());
            speed.append(" simulated s per wall s");
            say(lines, Tone::Small, speed);
            let mut simulated: String = joined("Simulated time ", solver.simulated_time.as_str());
            simulated.append(" s · ");
            add_number(&mut simulated, solver.completed_steps, " completed steps");
            say(lines, Tone::Small, simulated);
            if let Some(ceiling) = &solver.ceiling {
                say(lines, Tone::Small, time_step_bound_line(ceiling, section.physics));
            }
        },
    }
    assert(shown(lines@) =~= shown(old(lines)@) + running_lines(*section));
}

/// The section on the solver: what runs, how fast, and whether it is scheduled.
pub fn solver_section(section: &SolverSection) -> (result: Vec<Line>)
    ensures
        shown(result@) == solver_lines(*section),
{
    let mut lines: Vec<Line> = none();
    let mut gpu: String = joined("GPU ", section.gpu_status.as_str());
    gpu.append(" · ");
    add_number(&mut gpu, section.dispatches, " dispatches");
    say(&mut lines, Tone::Plain, gpu);
    say_running(&mut lines, section);
    let mut backlog: String = "Backlog ".to_owned();
    add_number(&mut backlog, section.backlog, " steps · ");
    add_number(&mut backlog, section.steps_per_frame, " per frame ceiling · scheduling ");
    backlog.append(scheduling_text(section.ready, section.uploading, section.running));
    say(&mut lines, Tone::Small, backlog);
    if let Some(energy) = &section.energy {
        let mut text: String = joined("Canonical discrete energy ", energy.as_str());
        text.append(" · bulk + gaps + outgoing memory");
        say(&mut lines, Tone::Small, text);
    }
    assert(shown(lines@) =~= solver_lines(*section));
    lines
}

pub open spec fn event_tone(source: EventSource) -> Tone {
    match source {
        EventSource::Preparation | EventSource::Adaptation => Tone::Red,
        EventSource::Repair => Tone::Gold,
        EventSource::Status => Tone::Small,
    }
}

/// The entries from the last one back to a place.
pub open spec fn entries_from(events: Seq<EventEntry>, stamps: Seq<String>, place: int) -> Seq<Shown>
    decreases events.len() - place,
{
    if place >= events.len() {
        Seq::empty()
    } else {
        entries_from(events, stamps, place + 1).push(
            (line_text(events[place], stamps[place]@), event_tone(events[place].source)),
        )
    }
}

pub open spec fn log_lines(events: Seq<EventEntry>, stamps: Seq<String>) -> Seq<Shown> {
    seq![
        (
            number(events.len() as u64) + " of "@ + number(EVENT_LOG_ENTRIES as u64),
            Tone::Weak,
        ),
    ] + if events.len() == 0 {
        seq![("Nothing recorded yet"@, Tone::Weak)]
    } else {
        entries_from(events, stamps, 0)
    }
}

/// The section on the log: how full it is, and its entries, the newest first.
/// `stamps` are the times of the entries.
pub fn log_section(log: &EventLog, stamps: &Vec<String>) -> (result: Vec<Line>)
    requires
        stamps@.len() == log.events@.len(),
    ensures
        shown(result@) == log_lines(log.events@, stamps@),
{
    let mut lines: Vec<Line> = none();
    let mut count: String = String::new();
    add_number(&mut count, log.events.len() as u64, " of ");
    add_number(&mut count, EVENT_LOG_ENTRIES as u64, "");
    proof {
        reveal_strlit("");
        assert(count@ =~= number(log.events@.len() as u64) + " of "@ + number(
            EVENT_LOG_ENTRIES as u64,
        ));
    }
    say(&mut lines, Tone::Weak, count);
    if log.events.len() == 0 {
        say(&mut lines, Tone::Weak, "Nothing recorded yet".to_owned());
        assert(shown(lines@) =~= log_lines(log.events@, stamps@));
        return lines;
    }
    let ghost head = shown(lines@);
    let mut place: usize = log.events.len();
    assert(shown(lines@) =~= head + entries_from(log.events@, stamps@, place as int));
    while place > 0
        invariant
            place <= log.events@.len(),
            stamps@.len() == log.events@.len(),
            shown(lines@) == head + entries_from(log.events@, stamps@, place as int),
        decreases place,
    {
        place = place - 1;
        let entry: &EventEntry = &log.events[place];
        let tone: Tone = match entry.source {
            EventSource::Preparation | EventSource::Adaptation => Tone::Red,
            EventSource::Repair => Tone::Gold,
            EventSource::Status => Tone::Small,
        };
        say(&mut lines, tone, event_line(entry, stamps[place].as_str()));
        assert(shown(lines@) =~= head + entries_from(log.events@, stamps@, place as int));
    }
    assert(shown(lines@) =~= log_lines(log.events@, stamps@));
    lines
}

/// What the status bar is made of. `elapsed` is how long a recording has been
/// rolling, `summary` the line that opens the diagnostics.
#[derive(Debug)]
pub struct StatusBar {
    pub acceptance: TopologyAcceptance,
    pub phase: Option<String>,
    pub detail: Option<String>,
    pub captures: Captures,
    pub elapsed: String,
    pub dropped: u64,
    pub message: String,
    pub warning: bool,
    pub summary: String,
}

pub open spec fn text_of(text: Option<String>) -> Option<Seq<char>> {
    match text {
        Some(text) => Some(text@),
        None => None,
    }
}

pub open spec fn capture_lines(bar: StatusBar) -> Seq<Shown> {
    match bar.captures.status_text(bar.elapsed@) {
        None => Seq::empty(),
        Some(text) => if bar.captures.recording is Recording {
            seq![(text, Tone::Red)] + if bar.dropped > 0 {
                seq![(number(bar.dropped) + " dropped"@, Tone::Gold)]
            } else {
                Seq::empty()
            }
        } else {
            seq![(text, Tone::Gold)]
        },
    }
}

pub open spec fn status_lines(bar: StatusBar) -> Seq<Shown> {
    seq![
        (
            acceptance_text(bar.acceptance, text_of(bar.phase), text_of(bar.detail)),
            Tone::Plain,
        ),
    ] + capture_lines(bar) + (if bar.message@.len() > 0 {
        seq![(bar.message@, Tone::Plain)]
    } else {
        Seq::empty()
    }) + seq![(bar.summary@, Tone::Plain)] + if bar.warning {
        seq![("⚠"@, Tone::Gold)]
    } else {
        Seq::empty()
    }
}

fn borrowed(text: &Option<String>) -> (result: Option<&str>)
    ensures
        view_of(result) == text_of(*text),
{
    match text {
        Some(text) => Some(text.as_str()),
        None => None,
    }
}

fn say_captures(lines: &mut Vec<Line>, bar: &StatusBar)
    ensures
        shown(final(lines)@) == shown(old(lines)@) + capture_lines(*bar),
{
    if let Some(text) = bar.captures.status(bar.elapsed.as_str()) {
        if bar.captures.recording == RecordingState::Recording {
            say(lines, Tone::Red, text);
            if let Some(lost) = dropped_frames_text(bar.dropped) {
                say(lines, Tone::Gold, lost);
            }
        } else {
            say(lines, Tone::Gold, text);
        }
    }
    assert(shown(lines@) =~= shown(old(lines)@) + capture_lines(*bar));
}

/// The status bar, from the left to the right: the geometry and the preparation,
/// the captures, the last message, the summary and the marker of an error.
pub fn status_bar(bar: &StatusBar) -> (result: Vec<Line>)
    ensures
        shown(result@) == status_lines(*bar),
{
    let mut lines: Vec<Line> = none();
    say(
        &mut lines,
        Tone::Plain,
        status_text(&bar.acceptance, borrowed(&bar.phase), borrowed(&bar.detail)),
    );
    say_captures(&mut lines, bar);
    if bar.message.as_str().unicode_len() > 0 {
        let message: String = bar.message.clone();
        say(&mut lines, Tone::Plain, message);
    }
    let summary: String = bar.summary.clone();
    say(&mut lines, Tone::Plain, summary);
    if bar.warning {
        say(&mut lines, Tone::Gold, "⚠".to_owned());
    }
    assert(shown(lines@) =~= status_lines(*bar));
    lines
}

/// An error that lights the marker of the status bar stays in the log: whatever
/// the log holds is in its section.
pub proof fn the_log_shows_every_entry(
    events: Seq<EventEntry>,
    stamps: Seq<String>,
    place: int,
)
    requires
        0 <= place < events.len(),
    ensures
        log_lines(events, stamps).contains(
            (line_text(events[place], stamps[place]@), event_tone(events[place].source)),
        ),
        log_lines(events, stamps).len() == events.len() + 1,
{
    every_later_entry_is_listed(events, stamps, 0, place);
    let entries = entries_from(events, stamps, 0);
    let line = (line_text(events[place], stamps[place]@), event_tone(events[place].source));
    let i = entries.index_of(line);
    assert(log_lines(events, stamps)[i + 1] == line);
}

proof fn every_later_entry_is_listed(
    events: Seq<EventEntry>,
    stamps: Seq<String>,
    from: int,
    place: int,
)
    requires
        0 <= from <= place < events.len(),
    ensures
        entries_from(events, stamps, from).contains(
            (line_text(events[place], stamps[place]@), event_tone(events[place].source)),
        ),
        entries_from(events, stamps, from).len() == events.len() - from,
    decreases events.len() - from,
{
    let entries = entries_from(events, stamps, from);
    let line = (line_text(events[place], stamps[place]@), event_tone(events[place].source));
    if from + 1 < events.len() {
        let later = entries_from(events, stamps, from + 1);
        every_later_entry_is_listed(
            events,
            stamps,
            from + 1,
            if place > from {
                place
            } else {
                from + 1
            },
        );
        if place > from {
            let i = later.index_of(line);
            assert(entries[i] == line);
        }
    } else {
        assert(entries_from(events, stamps, from + 1).len() == 0);
    }
    if place == from {
        assert(entries[entries.len() - 1] == line);
    }
}

} // verus!
