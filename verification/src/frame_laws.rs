//! What one frame does: how its input is worked off, what it shows and records, and
//! what the buttons of the bar do.

use crate::attachment::{region_faces, FaceAssignment};
use crate::capture::{Captures, LaunchSource, RecordingState, SnapshotState};
use crate::display::{moved_back, DisplayFacts};
use crate::frame_pass::{Recording, Session};
use crate::gesture::ViewportModes;
use crate::interaction::FrameInput;
use crate::model::TopologyCurve;
use crate::panels::{covers_curve, of_sides};
use crate::selection::{TopologySelection, TopologySpanTarget};
use crate::top_bar::{BarAction, BarButton, TopBar};
use crate::viewport_pass::{stage_after, PassStage};
use vstd::prelude::*;

verus! {

/// Every kind of input is worked off in its turn: a press, then a drag, its release,
/// a click and a deletion, each exactly where its input is there.
pub proof fn every_input_gets_its_turn(
    ended: bool,
    modes: ViewportModes,
    input: FrameInput,
    dragging: bool,
)
    ensures
        ({
            let drags = input.dragged && input.pointer && dragging;
            let lets_go = input.drag_stopped && dragging;
            let clicks = input.clicked && input.pointer && !dragging;
            let deletes = !input.typing && (input.delete || input.backspace);
            let after_press = stage_after(PassStage::Press, false, modes, input, dragging);
            let after_drag = stage_after(PassStage::Drag, ended, modes, input, dragging);
            let after_release = stage_after(PassStage::Release, ended, modes, input, dragging);
            let after_click = stage_after(PassStage::Click, false, modes, input, dragging);
            &&& after_press is Drag <==> drags
            &&& after_press is Release <==> !drags && lets_go
            &&& after_drag is Release <==> lets_go
            &&& after_drag is Click <==> !lets_go && clicks
            &&& after_release is Click <==> clicks
            &&& after_release is Delete <==> !clicks && deletes
            &&& after_click is Delete <==> deletes
            &&& after_click is Over <==> !deletes
            &&& stage_after(PassStage::Delete, ended, modes, input, dragging) is Over
        }),
        stage_after(PassStage::Press, true, modes, input, dragging) is Over,
        stage_after(PassStage::Click, true, modes, input, dragging) is Over,
        stage_after(PassStage::DoubleClick, true, modes, input, dragging) is Over,
{
}

/// Where neither a key nor a tool nor a question takes the frame, a press is taken
/// first, and everything else goes on as after one.
pub proof fn without_a_tool_a_press_comes_first(
    modes: ViewportModes,
    input: FrameInput,
    dragging: bool,
)
    requires
        !modes.merging,
        !modes.drawing,
        !modes.pulse,
        !modes.placing_probe,
        !input.escape,
        !input.double_clicked,
    ensures
        ({
            let presses = input.drag_started && input.pointer && input.press;
            let first = stage_after(PassStage::Start, false, modes, input, dragging);
            &&& first is Press <==> presses
            &&& !presses ==> first == stage_after(PassStage::Press, false, modes, input, dragging)
        }),
{
}

/// A readback is shown if it is whole, of the field that was asked for and not yet
/// shown; the display starts again exactly when the field is another one.
pub proof fn a_whole_readback_is_shown(facts: DisplayFacts)
    ensures
        ({
            let whole = facts.active && facts.solver_generation == facts.requested_generation
                && facts.primary_flux == facts.degrees_of_freedom && facts.previous_primary_flux
                == facts.degrees_of_freedom && facts.constitutive_force
                == facts.degrees_of_freedom;
            let news = facts.shown_generation != facts.solver_generation || facts.shown_readbacks
                != facts.readbacks;
            &&& facts.update() is Some <==> whole && news
            &&& facts.update() matches Some(update) ==> {
                &&& update.reset <==> facts.shown_generation != facts.solver_generation
                &&& update.full <==> facts.full_readback_at == facts.readbacks
                &&& update.generation == facts.solver_generation
                &&& update.readbacks == facts.readbacks
            }
        }),
{
}

/// A node is moved back by a step only if there was one, and never where its value
/// is prescribed.
pub proof fn only_free_nodes_are_moved_back(active: bool, prescribed: bool, completed_steps: u64)
    ensures
        moved_back(active, prescribed, completed_steps) ==> completed_steps > 0 && !prescribed
            && active,
        active && !prescribed && completed_steps > 0 ==> moved_back(
            active,
            prescribed,
            completed_steps,
        ),
{
}

/// A launch loads what it was given, and says why it could not; without anything to
/// recover nothing happens.
pub proof fn a_launch_loads_what_it_was_given<C>(session: Session<C>, source: LaunchSource<C>)
    ensures
        ({
            let after = session.launched(source);
            &&& source matches LaunchSource::Link(Ok(candidate)) ==> after.load == Some(candidate)
                && after.file_busy && after.message == session.message
            &&& source matches LaunchSource::Recovered(Some(candidate)) ==> after.load == Some(
                candidate,
            ) && after.file_busy && after.message == session.message
            &&& source matches LaunchSource::Link(Err(error)) ==> after.message == error
                && after.load == session.load && after.file_busy == session.file_busy
            &&& source matches LaunchSource::Recovered(None) ==> after == session
            &&& after.ready == session.ready && after.startup_done == session.startup_done
        }),
        session.first_times().style <==> !session.ready,
        session.first_times().startup <==> !session.startup_done,
{
}

/// A frame is recorded if a recording runs, its slot is new, there is room for it and
/// something to record; a picture is taken once it was asked for.
pub proof fn a_new_slot_is_recorded_while_there_is_room(
    recording: Recording,
    started: bool,
    slot: Option<u64>,
    most_in_flight: usize,
    has_target: bool,
)
    ensures
        ({
            let end = recording.end(started, slot, most_in_flight, has_target);
            let after = recording.ended(started, slot, most_in_flight, has_target);
            let runs = recording.captures.recording is Recording;
            &&& end.records <==> runs && slot is Some && slot != recording.last_slot
                && recording.in_flight < most_in_flight && has_target
            &&& end.takes_picture <==> recording.captures.snapshot is Armed
            &&& end.takes_picture ==> after.captures.snapshot is Capturing
            &&& !end.takes_picture ==> after.captures.snapshot == recording.captures.snapshot
            &&& end.records ==> after.last_slot == slot
            &&& end.records && recording.in_flight < usize::MAX ==> after.in_flight
                == recording.in_flight + 1
            &&& !end.records ==> after.last_slot == recording.last_slot && after.in_flight
                == recording.in_flight
            &&& recording.captures.recording !is Preparing ==> after.captures.recording
                == recording.captures.recording
            &&& recording.captures.recording is Preparing && started ==> after.captures.recording
                is Starting
            &&& end.moves_recorder <==> after.captures.recording is Starting
                || after.captures.recording is Recording
        }),
{
}

/// Captures are idle if neither a picture nor a recording is under way, and roll
/// while frames are taken; never both.
pub proof fn captures_idle_or_roll(captures: Captures)
    ensures
        captures.idle() <==> captures.snapshot == SnapshotState::Idle && captures.recording
            == RecordingState::Idle,
        captures.rolling() <==> captures.recording == RecordingState::Starting
            || captures.recording == RecordingState::Recording,
        !(captures.idle() && captures.rolling()),
{
}

/// A panel of the sides is shown for sides alone, and one of a whole curve for all
/// of its spans.
pub proof fn panels_fit_the_selection(
    selection: TopologySelection,
    curve: TopologyCurve,
    span: u64,
    i: int,
)
    ensures
        of_sides(selection) ==> selection is Spans && !selection.span_set().contains(
            TopologySpanTarget::Curve(span),
        ),
        covers_curve(selection, curve) && 0 <= i < curve.spans@.len()
            ==> selection.span_set().contains(TopologySpanTarget::Curve(curve.spans@[i].id)),
        0 <= i < curve.spans@.len() && !selection.span_set().contains(
            TopologySpanTarget::Curve(curve.spans@[i].id),
        ) ==> !covers_curve(selection, curve),
{
}

/// The faces of a region are those that are assigned to it.
pub proof fn the_faces_of_a_region_are_assigned_to_it(
    assignments: Seq<FaceAssignment>,
    region: u64,
    face: u64,
)
    ensures
        region_faces(assignments, region).contains(face) <==> exists|i: int|
            0 <= i < assignments.len() && (#[trigger] assignments[i]).face == face
                && assignments[i].region == Some(region),
    decreases assignments.len(),
{
    if assignments.len() > 0 {
        let front = assignments.drop_last();
        let earlier = region_faces(front, region);
        let all = region_faces(assignments, region);
        the_faces_of_a_region_are_assigned_to_it(front, region, face);
        assert(forall|i: int| 0 <= i < front.len() ==> front[i] == assignments[i]);
        assert(assignments[assignments.len() - 1] == assignments.last());
        if earlier.contains(face) {
            assert(all[earlier.index_of(face)] == face);
            let i = choose|i: int|
                0 <= i < front.len() && (#[trigger] front[i]).face == face && front[i].region
                    == Some(region);
            assert(assignments[i].face == face);
        }
        if all.contains(face) {
            let i = all.index_of(face);
            if i < earlier.len() {
                assert(earlier[i] == face);
            }
        }
        if all.len() > earlier.len() {
            assert(all[earlier.len() as int] == assignments.last().face);
        }
        if exists|i: int|
            0 <= i < assignments.len() && (#[trigger] assignments[i]).face == face
                && assignments[i].region == Some(region) {
            let i = choose|i: int|
                0 <= i < assignments.len() && (#[trigger] assignments[i]).face == face
                    && assignments[i].region == Some(region);
            if i < front.len() {
                assert(front[i].face == face);
            }
        }
    }
}

/// A button of the bar asks for what it says and changes its own switch alone; a
/// switch that is pressed twice is where it was.
pub proof fn a_button_changes_its_own_switch(bar: TopBar, button: BarButton, captures: Captures)
    ensures
        ({
            let (action, after) = bar.pressed(button, captures);
            let (_, again) = after.pressed(button, captures);
            &&& action is Undo <==> button is Undo
            &&& action is Redo <==> button is Redo
            &&& action is NewScene <==> button is NewScene
            &&& action is Load <==> button is Open
            &&& action is Save <==> button is Save
            &&& action is CopyLink <==> button is CopyLink
            &&& action is ExportPicture <==> button is ExportPicture
            &&& action is StartRecording || action is StopRecording <==> button is Recording
            &&& action is BeginDraw <==> button is Tool
            &&& button matches BarButton::Tool(tool) ==> action == BarAction::BeginDraw(tool)
            &&& after.wave_running != bar.wave_running <==> button is Run
            &&& button is Run ==> again == bar
            &&& after.draw_open == if button is Draw {
                !bar.draw_open
            } else if button is ClosePalette {
                false
            } else {
                bar.draw_open
            }
            &&& button is Draw ==> again == bar
            &&& button !is Panel ==> after.inspector == bar.inspector
            &&& after.wave_step == (bar.wave_step || button is Step)
            &&& after.reset_requested == (bar.reset_requested || button is Reset)
            &&& after.fit == (bar.fit || button is FitView)
            &&& after.examples_open == (bar.examples_open || button is Examples)
            &&& after.file_busy == (bar.file_busy || button is Open)
            &&& button matches BarButton::Closed(purpose) ==> after.closed_purpose == purpose
            &&& button !is Closed ==> after.closed_purpose == bar.closed_purpose
            &&& button matches BarButton::Opened(purpose) ==> after.open_purpose == purpose
            &&& button !is Opened ==> after.open_purpose == bar.open_purpose
            &&& button matches BarButton::Material(material) ==> after.material_selection
                == material
            &&& button !is Material ==> after.material_selection == bar.material_selection
        }),
{
}

/// The palette offers its buttons only while it is open and nothing is captured, and
/// a material only for a subdomain.
pub proof fn the_palette_offers_its_buttons_while_it_is_open(
    bar: TopBar,
    button: BarButton,
    captures: Captures,
    capturing: bool,
)
    ensures
        ({
            let of_palette = button is Closed || button is Opened || button is Tool
                || button is ClosePalette || button is Material;
            let of_captures = button is ExportPicture || button is Recording;
            let offered = bar.offered(button, captures, capturing);
            &&& of_palette && offered ==> bar.draw_open && !capturing
            &&& of_palette && button !is Material && bar.draw_open && !capturing ==> offered
            &&& button is Material && bar.draw_open && !capturing ==> (offered
                <==> bar.closed_purpose is Subdomain)
            &&& button is ExportPicture ==> (offered <==> captures.idle())
            &&& button is Recording ==> (offered <==> captures.idle() || captures.rolling())
            &&& !of_palette && !of_captures ==> offered
        }),
{
}

/// At the start of a frame escape cancels, a question is answered by a click and
/// waits otherwise, and a double click is looked at before anything else.
pub proof fn a_frame_starts_with_what_takes_it_whole(
    modes: ViewportModes,
    input: FrameInput,
    dragging: bool,
)
    ensures
        ({
            let first = stage_after(PassStage::Start, false, modes, input, dragging);
            let cancels = input.escape && !input.typing && !input.typed_before;
            let answers = input.primary_clicked && input.pointer;
            &&& first is Cancel <==> cancels
            &&& first is PickSurvivor <==> !cancels && modes.merging && answers
            &&& !cancels && modes.merging && !answers ==> first is Over
            &&& first is DoubleClick <==> !cancels && !modes.merging && input.double_clicked
                && input.pointer
            &&& !cancels && !modes.merging && first !is DoubleClick ==> first == stage_after(
                PassStage::DoubleClick,
                false,
                modes,
                input,
                dragging,
            )
            &&& first is PlacePulse ==> modes.pulse && !modes.drawing && input.clicked
                && input.pointer
            &&& first is PlaceProbe ==> modes.placing_probe && !modes.drawing && input.clicked
                && input.pointer
            &&& first is Draw ==> modes.drawing
        }),
{
}

/// Something is said of the captures exactly while one of them is under way.
pub proof fn a_capture_under_way_is_shown(captures: Captures, elapsed: Seq<char>)
    ensures
        captures.status_text(elapsed) is None <==> captures.snapshot == SnapshotState::Idle
            && captures.recording == RecordingState::Idle,
{
}

} // verus!
