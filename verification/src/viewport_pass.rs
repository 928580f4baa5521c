//! The order of a pass over a frame's input in the viewport: which stage works
//! on it next.

use crate::gesture::ViewportModes;
use crate::interaction::{
    click_route, clicks_geometry, deletes, drag_stages, route, ClickRoute, FrameInput, Route,
};
use vstd::prelude::*;

verus! {

/// A stage of a pass, once the view has been moved.
#[derive(Clone, Copy, Debug, PartialEq, Eq, Structural)]
pub enum PassStage {
    Start,
    /// Everything going on is cancelled.
    Cancel,
    /// A click picks the subdomain that survives.
    PickSurvivor,
    /// What lies under a double click is looked up. The stage ends the pass
    /// where it met anything.
    DoubleClick,
    /// The curve being drawn takes a point, gives one up, is finished.
    Draw { place: bool, undo: bool, finish: bool },
    PlacePulse,
    PlaceProbe,
    /// A drag starts. The stage ends the pass where it took a grip, the source,
    /// a probe or a corner.
    Press,
    /// The gesture in progress follows the pointer.
    Drag,
    Release,
    /// A click selects. The stage ends the pass where it met a probe.
    Click,
    Delete,
    Over,
}

impl PassStage {
    /// How far a pass has got.
    pub open spec fn place(self) -> int {
        match self {
            PassStage::Start => 0,
            PassStage::DoubleClick => 1,
            PassStage::Press => 2,
            PassStage::Drag => 3,
            PassStage::Release => 4,
            PassStage::Click => 5,
            PassStage::Over => 7,
            _ => 6,
        }
    }

    /// Whether the stage works on the geometry of the scene.
    pub open spec fn manipulates(self) -> bool {
        self is Press || self is Drag || self is Release || self is Click || self is Delete
    }
}

pub open spec fn delete_or_over(input: FrameInput) -> PassStage {
    if !input.typing && (input.delete || input.backspace) {
        PassStage::Delete
    } else {
        PassStage::Over
    }
}

pub open spec fn click_or_later(input: FrameInput, dragging: bool) -> PassStage {
    if input.clicked && !dragging && input.pointer {
        PassStage::Click
    } else {
        delete_or_over(input)
    }
}

pub open spec fn release_or_later(input: FrameInput, dragging: bool) -> PassStage {
    if input.drag_stopped && dragging {
        PassStage::Release
    } else {
        click_or_later(input, dragging)
    }
}

pub open spec fn drag_or_later(input: FrameInput, dragging: bool) -> PassStage {
    if input.dragged && input.pointer && dragging {
        PassStage::Drag
    } else {
        release_or_later(input, dragging)
    }
}

/// The tool at hand, or else the geometry itself.
pub open spec fn tool_or_later(modes: ViewportModes, input: FrameInput, dragging: bool) -> PassStage {
    match crate::interaction::click_routed(modes, input) {
        ClickRoute::Draw { place, undo, finish } => PassStage::Draw { place, undo, finish },
        ClickRoute::PlacePulse => PassStage::PlacePulse,
        ClickRoute::PlaceProbe => PassStage::PlaceProbe,
        ClickRoute::Ignore => PassStage::Over,
        ClickRoute::Manipulate => if input.drag_started && input.pointer && input.press {
            PassStage::Press
        } else {
            drag_or_later(input, dragging)
        },
    }
}

/// The stage after one: `ended` says that this one ends the pass, `dragging`
/// that a gesture is in progress.
pub open spec fn stage_after(
    at: PassStage,
    ended: bool,
    modes: ViewportModes,
    input: FrameInput,
    dragging: bool,
) -> PassStage {
    match at {
        PassStage::Start => match crate::interaction::routed(modes, input) {
            Route::Cancel => PassStage::Cancel,
            Route::PickSurvivor => PassStage::PickSurvivor,
            Route::Wait => PassStage::Over,
            Route::DoubleClick => PassStage::DoubleClick,
            Route::Proceed => tool_or_later(modes, input, dragging),
        },
        PassStage::DoubleClick => if ended {
            PassStage::Over
        } else {
            tool_or_later(modes, input, dragging)
        },
        PassStage::Press => if ended {
            PassStage::Over
        } else {
            drag_or_later(input, dragging)
        },
        PassStage::Drag => release_or_later(input, dragging),
        PassStage::Release => click_or_later(input, dragging),
        PassStage::Click => if ended {
            PassStage::Over
        } else {
            delete_or_over(input)
        },
        _ => PassStage::Over,
    }
}

fn deleting(input: FrameInput) -> (result: PassStage)
    ensures
        result == delete_or_over(input),
{
    if deletes(input) {
        PassStage::Delete
    } else {
        PassStage::Over
    }
}

fn clicking(input: FrameInput, dragging: bool) -> (result: PassStage)
    ensures
        result == click_or_later(input, dragging),
{
    if clicks_geometry(input, dragging) {
        PassStage::Click
    } else {
        deleting(input)
    }
}

fn releasing(input: FrameInput, dragging: bool) -> (result: PassStage)
    ensures
        result == release_or_later(input, dragging),
{
    if drag_stages(input).release && dragging {
        PassStage::Release
    } else {
        clicking(input, dragging)
    }
}

fn following(input: FrameInput, dragging: bool) -> (result: PassStage)
    ensures
        result == drag_or_later(input, dragging),
{
    if drag_stages(input).drag && dragging {
        PassStage::Drag
    } else {
        releasing(input, dragging)
    }
}

fn using_tool(modes: ViewportModes, input: FrameInput, dragging: bool) -> (result: PassStage)
    ensures
        result == tool_or_later(modes, input, dragging),
{
    match click_route(modes, input) {
        ClickRoute::Draw { place, undo, finish } => PassStage::Draw { place, undo, finish },
        ClickRoute::PlacePulse => PassStage::PlacePulse,
        ClickRoute::PlaceProbe => PassStage::PlaceProbe,
        ClickRoute::Ignore => PassStage::Over,
        ClickRoute::Manipulate => if drag_stages(input).press {
            PassStage::Press
        } else {
            following(input, dragging)
        },
    }
}

/// Picks the stage after one.
pub fn next_stage(
    at: PassStage,
    ended: bool,
    modes: ViewportModes,
    input: FrameInput,
    dragging: bool,
) -> (result: PassStage)
    ensures
        result == stage_after(at, ended, modes, input, dragging),
{
    match at {
        PassStage::Start => match route(modes, input) {
            Route::Cancel => PassStage::Cancel,
            Route::PickSurvivor => PassStage::PickSurvivor,
            Route::Wait => PassStage::Over,
            Route::DoubleClick => PassStage::DoubleClick,
            Route::Proceed => using_tool(modes, input, dragging),
        },
        PassStage::DoubleClick => if ended {
            PassStage::Over
        } else {
            using_tool(modes, input, dragging)
        },
        PassStage::Press => if ended {
            PassStage::Over
        } else {
            following(input, dragging)
        },
        PassStage::Drag => releasing(input, dragging),
        PassStage::Release => clicking(input, dragging),
        PassStage::Click => if ended {
            PassStage::Over
        } else {
            deleting(input)
        },
        _ => PassStage::Over,
    }
}

/// A pass only goes forward, so it comes to its end.
pub proof fn a_pass_goes_forward(
    at: PassStage,
    ended: bool,
    modes: ViewportModes,
    input: FrameInput,
    dragging: bool,
)
    requires
        at !is Over,
    ensures
        stage_after(at, ended, modes, input, dragging).place() > at.place(),
{
}

/// While it is asked which subdomain survives, a frame answers, cancels or does
/// nothing.
pub proof fn a_question_owns_the_viewport(modes: ViewportModes, input: FrameInput, dragging: bool)
    requires
        modes.merging,
    ensures
        ({
            let stage = stage_after(PassStage::Start, false, modes, input, dragging);
            stage is Cancel || stage is PickSurvivor || stage is Over
        }),
{
}

/// While a curve is drawn, no stage that the frame starts with works on the
/// geometry.
pub proof fn drawing_leaves_the_geometry_alone(
    modes: ViewportModes,
    input: FrameInput,
    ended: bool,
    dragging: bool,
)
    requires
        modes.drawing,
    ensures
        !stage_after(PassStage::Start, ended, modes, input, dragging).manipulates(),
        !stage_after(PassStage::DoubleClick, ended, modes, input, dragging).manipulates(),
{
}

/// Keys that are typed into a field never reach the viewport.
pub proof fn typed_keys_stay_in_their_field(
    at: PassStage,
    ended: bool,
    modes: ViewportModes,
    input: FrameInput,
    dragging: bool,
)
    requires
        input.typing,
    ensures
        ({
            let stage = stage_after(at, ended, modes, input, dragging);
            &&& stage !is Cancel
            &&& stage !is Delete
            &&& stage matches PassStage::Draw { undo, finish, .. } ==> !undo && !finish
        }),
{
}

/// A gesture that the frame lets go of is released in it, at the latest after it
/// has followed the pointer once more.
pub proof fn a_gesture_let_go_is_released(
    at: PassStage,
    ended: bool,
    modes: ViewportModes,
    input: FrameInput,
)
    requires
        at is Press && !ended || at is Drag,
        input.drag_stopped,
    ensures
        ({
            let stage = stage_after(at, ended, modes, input, true);
            stage is Release || (at is Press && stage is Drag)
        }),
{
}

} // verus!
