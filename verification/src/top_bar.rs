//! The bar above the viewport and the draw palette: what a press on one of
//! their buttons does.

use crate::capture::Captures;
use crate::drawing::{ClosedPurpose, OpenPurpose};
use crate::gesture::DrawTool;
use crate::labels::InspectorPanel;
use crate::panels::{palette_shown, toggle_panel};
use vstd::prelude::*;

verus! {

/// A button of the bar or of the palette.
#[derive(Clone, Copy, Debug, PartialEq, Eq, Structural)]
pub enum BarButton {
    Undo,
    Redo,
    NewScene,
    Examples,
    Open,
    Save,
    CopyLink,
    ExportPicture,
    Recording,
    FitView,
    Panel(InspectorPanel),
    Draw,
    Reset,
    Step,
    Run,
    Closed(ClosedPurpose),
    Material(u64),
    Opened(OpenPurpose),
    Tool(DrawTool),
    ClosePalette,
}

/// What is left to do outside once a button was pressed.
#[derive(Clone, Copy, Debug, PartialEq, Eq, Structural)]
pub enum BarAction {
    Nothing,
    Undo,
    Redo,
    NewScene,
    /// A file is asked for.
    Load,
    Save,
    CopyLink,
    ExportPicture,
    StartRecording,
    StopRecording,
    BeginDraw(DrawTool),
}

/// What the bar shows and asks the next frame for.
#[derive(Clone, Copy, Debug, PartialEq, Eq, Structural)]
pub struct TopBar {
    pub inspector: Option<InspectorPanel>,
    pub examples_open: bool,
    pub file_busy: bool,
    /// The view is to be fitted to the domain.
    pub fit: bool,
    pub draw_open: bool,
    pub reset_requested: bool,
    pub wave_step: bool,
    pub wave_running: bool,
    pub closed_purpose: ClosedPurpose,
    pub open_purpose: OpenPurpose,
    /// The material of a subdomain drawn next.
    pub material_selection: u64,
}

impl TopBar {
    /// Whether a button is there to be pressed: the captures exclude one another,
    /// the palette is up or not, and only a subdomain has a material.
    pub open spec fn offered(self, button: BarButton, captures: Captures, capturing: bool) -> bool {
        match button {
            BarButton::ExportPicture => captures.idle(),
            BarButton::Recording => captures.idle() || captures.rolling(),
            BarButton::Closed(_) | BarButton::Opened(_) | BarButton::Tool(_)
            | BarButton::ClosePalette => self.draw_open && !capturing,
            BarButton::Material(_) => self.draw_open && !capturing
                && self.closed_purpose is Subdomain,
            _ => true,
        }
    }

    pub fn offers(&self, button: BarButton, captures: Captures, capturing: bool) -> (result: bool)
        ensures
            result == self.offered(button, captures, capturing),
    {
        match button {
            BarButton::ExportPicture => captures.capture_ready(),
            BarButton::Recording => captures.recording_command().is_some(),
            BarButton::Closed(_) | BarButton::Opened(_) | BarButton::Tool(_)
            | BarButton::ClosePalette => palette_shown(self.draw_open, capturing),
            BarButton::Material(_) => palette_shown(self.draw_open, capturing)
                && self.closed_purpose == ClosedPurpose::Subdomain,
            _ => true,
        }
    }

    /// What a press does to the bar, and what is left to do outside.
    pub open spec fn pressed(self, button: BarButton, captures: Captures) -> (BarAction, Self) {
        match button {
            BarButton::Undo => (BarAction::Undo, self),
            BarButton::Redo => (BarAction::Redo, self),
            BarButton::NewScene => (BarAction::NewScene, self),
            BarButton::Examples => (
                BarAction::Nothing,
                TopBar { examples_open: true, ..self },
            ),
            BarButton::Open => (BarAction::Load, TopBar { file_busy: true, ..self }),
            BarButton::Save => (BarAction::Save, self),
            BarButton::CopyLink => (BarAction::CopyLink, self),
            BarButton::ExportPicture => (BarAction::ExportPicture, self),
            BarButton::Recording => (
                if captures.recording is Idle {
                    BarAction::StartRecording
                } else {
                    BarAction::StopRecording
                },
                self,
            ),
            BarButton::FitView => (BarAction::Nothing, TopBar { fit: true, ..self }),
            BarButton::Panel(panel) => (
                BarAction::Nothing,
                TopBar {
                    inspector: if self.inspector == Some(panel) {
                        None
                    } else {
                        Some(panel)
                    },
                    ..self
                },
            ),
            BarButton::Draw => (
                BarAction::Nothing,
                TopBar { draw_open: !self.draw_open, ..self },
            ),
            BarButton::Reset => (BarAction::Nothing, TopBar { reset_requested: true, ..self }),
            BarButton::Step => (BarAction::Nothing, TopBar { wave_step: true, ..self }),
            BarButton::Run => (
                BarAction::Nothing,
                TopBar { wave_running: !self.wave_running, ..self },
            ),
            BarButton::Closed(purpose) => (
                BarAction::Nothing,
                TopBar { closed_purpose: purpose, ..self },
            ),
            BarButton::Material(material) => (
                BarAction::Nothing,
                TopBar { material_selection: material, ..self },
            ),
            BarButton::Opened(purpose) => (
                BarAction::Nothing,
                TopBar { open_purpose: purpose, ..self },
            ),
            BarButton::Tool(tool) => (BarAction::BeginDraw(tool), self),
            BarButton::ClosePalette => (BarAction::Nothing, TopBar { draw_open: false, ..self }),
        }
    }

    /// Presses a button that is offered.
    pub fn press(&mut self, button: BarButton, captures: Captures) -> (result: BarAction)
        ensures
            (result, *final(self)) == old(self).pressed(button, captures),
    {
        match button {
            BarButton::Undo => BarAction::Undo,
            BarButton::Redo => BarAction::Redo,
            BarButton::NewScene => BarAction::NewScene,
            BarButton::Examples => {
                self.examples_open = true;
                BarAction::Nothing
            },
            BarButton::Open => {
                self.file_busy = true;
                BarAction::Load
            },
            BarButton::Save => BarAction::Save,
            BarButton::CopyLink => BarAction::CopyLink,
            BarButton::ExportPicture => BarAction::ExportPicture,
            BarButton::Recording => if captures.starts_afresh() {
                BarAction::StartRecording
            } else {
                BarAction::StopRecording
            },
            BarButton::FitView => {
                self.fit = true;
                BarAction::Nothing
            },
            BarButton::Panel(panel) => {
                self.inspector = toggle_panel(self.inspector, panel);
                BarAction::Nothing
            },
            BarButton::Draw => {
                self.draw_open = !self.draw_open;
                BarAction::Nothing
            },
            BarButton::Reset => {
                self.reset_requested = true;
                BarAction::Nothing
            },
            BarButton::Step => {
                self.wave_step = true;
                BarAction::Nothing
            },
            BarButton::Run => {
                self.wave_running = !self.wave_running;
                BarAction::Nothing
            },
            BarButton::Closed(purpose) => {
                self.closed_purpose = purpose;
                BarAction::Nothing
            },
            BarButton::Material(material) => {
                self.material_selection = material;
                BarAction::Nothing
            },
            BarButton::Opened(purpose) => {
                self.open_purpose = purpose;
                BarAction::Nothing
            },
            BarButton::Tool(tool) => BarAction::BeginDraw(tool),
            BarButton::ClosePalette => {
                self.draw_open = false;
                BarAction::Nothing
            },
        }
    }
}

/// The palette stays up across draws: only its own button and that of the bar
/// close it.
pub proof fn only_its_buttons_close_the_palette(
    bar: TopBar,
    button: BarButton,
    captures: Captures,
)
    requires
        bar.draw_open,
        !bar.pressed(button, captures).1.draw_open,
    ensures
        button == BarButton::Draw || button == BarButton::ClosePalette,
{
}

/// A button that is offered starts or stops a recording as the captures allow:
/// one is started only while nothing is captured, and stopped only while it
/// rolls.
pub proof fn an_offered_recording_does_what_it_says(
    bar: TopBar,
    captures: Captures,
    capturing: bool,
)
    requires
        bar.offered(BarButton::Recording, captures, capturing),
    ensures
        bar.pressed(BarButton::Recording, captures).0 == if captures.rolling() {
            BarAction::StopRecording
        } else {
            BarAction::StartRecording
        },
        bar.pressed(BarButton::Recording, captures).0 is StartRecording ==> captures.idle(),
{
}

/// A panel that was not open is closed again by a second press.
pub proof fn a_second_press_closes_a_panel(
    bar: TopBar,
    panel: InspectorPanel,
    captures: Captures,
)
    requires
        bar.inspector != Some(panel),
    ensures
        bar.pressed(BarButton::Panel(panel), captures).1.inspector == Some(panel),
        bar.pressed(BarButton::Panel(panel), captures).1.pressed(
            BarButton::Panel(panel),
            captures,
        ).1 == (TopBar { inspector: None, ..bar }),
{
}

} // verus!
