//! Exporting pictures and recording video of the viewport, and what a launch
//! opens.

use crate::text::{decimal, decimal_digits, joined};
use vstd::prelude::*;

verus! {

#[derive(Clone, Copy, Debug, PartialEq, Eq, Structural)]
pub enum SnapshotState {
    Idle,
    Requested,
    Armed,
    Capturing,
    Saving,
}

#[derive(Clone, Copy, Debug, PartialEq, Eq, Structural)]
pub enum RecordingState {
    Idle,
    SelectingDestination,
    Requested,
    Preparing,
    Starting,
    Recording,
    Finalizing,
}

/// The captures that are going on.
#[derive(Clone, Copy, Debug, PartialEq, Eq, Structural)]
pub struct Captures {
    pub snapshot: SnapshotState,
    pub recording: RecordingState,
}

/// What the recording entry of the menu does.
#[derive(Clone, Copy, Debug, PartialEq, Eq, Structural)]
pub enum RecordingCommand {
    Start,
    Stop,
}

impl Captures {
    pub open spec fn idle(self) -> bool {
        self.snapshot is Idle && self.recording is Idle
    }

    pub open spec fn rolling(self) -> bool {
        self.recording is Starting || self.recording is Recording
    }

    /// Whether a picture can be exported.
    pub fn capture_ready(self) -> (result: bool)
        ensures
            result == self.idle(),
    {
        self.snapshot == SnapshotState::Idle && self.recording == RecordingState::Idle
    }

    pub fn recording_label(self) -> (result: &'static str)
        ensures
            result@ == if self.rolling() {
                "Stop recording"@
            } else if self.recording !is Idle {
                "Preparing recording…"@
            } else {
                "Record viewport"@
            },
    {
        match self.recording {
            RecordingState::Starting | RecordingState::Recording => "Stop recording",
            RecordingState::Idle => "Record viewport",
            _ => "Preparing recording…",
        }
    }

    /// What the recording entry does, where it can be used at all: a recording
    /// is started when nothing is captured, and stopped while it rolls.
    pub fn recording_command(self) -> (result: Option<RecordingCommand>)
        ensures
            result == if self.rolling() {
                Some(RecordingCommand::Stop)
            } else if self.idle() {
                Some(RecordingCommand::Start)
            } else {
                None
            },
    {
        match self.recording {
            RecordingState::Starting | RecordingState::Recording => Some(RecordingCommand::Stop),
            RecordingState::Idle => if self.snapshot == SnapshotState::Idle {
                Some(RecordingCommand::Start)
            } else {
                None
            },
            _ => None,
        }
    }

    /// Whether no recording has been asked for.
    pub fn starts_afresh(self) -> (result: bool)
        ensures
            result == (self.recording is Idle),
    {
        self.recording == RecordingState::Idle
    }

    /// Whether the frame takes the picture that was armed, and what follows.
    pub fn take_snapshot(self) -> (result: (bool, Captures))
        ensures
            result.0 == (self.snapshot is Armed),
            result.1 == if self.snapshot is Armed {
                Captures { snapshot: SnapshotState::Capturing, ..self }
            } else {
                self
            },
    {
        if self.snapshot == SnapshotState::Armed {
            (true, Captures { snapshot: SnapshotState::Capturing, recording: self.recording })
        } else {
            (false, self)
        }
    }

    /// Whether the recorder is to be started.
    pub fn starts_recorder(self) -> (result: bool)
        ensures
            result == (self.recording is Preparing),
    {
        self.recording == RecordingState::Preparing
    }

    /// What follows the start of the recorder; a refused one ends the recording.
    pub fn recorder_started(self, started: bool) -> (result: Captures)
        requires
            self.recording is Preparing,
        ensures
            result == (Captures {
                recording: if started {
                    RecordingState::Starting
                } else {
                    RecordingState::Idle
                },
                ..self
            }),
    {
        Captures {
            snapshot: self.snapshot,
            recording: if started {
                RecordingState::Starting
            } else {
                RecordingState::Idle
            },
        }
    }

    /// Whether the recorder follows the viewport.
    pub fn follows_viewport(self) -> (result: bool)
        ensures
            result == self.rolling(),
    {
        matches!(self.recording, RecordingState::Starting | RecordingState::Recording)
    }

    /// Whether this frame is recorded: one frame to a slot of the video's rate,
    /// and no more readbacks in flight than allowed. `slot` is there once the
    /// recording has started.
    pub fn records_frame(
        self,
        slot: Option<u64>,
        last_slot: Option<u64>,
        in_flight: usize,
        most_in_flight: usize,
        has_target: bool,
    ) -> (result: bool)
        ensures
            result == (self.recording is Recording && slot is Some && last_slot != slot
                && in_flight < most_in_flight && has_target),
    {
        let slot: u64 = match slot {
            None => {
                return false;
            },
            Some(slot) => slot,
        };
        let fresh: bool = match last_slot {
            Some(last) => last != slot,
            None => true,
        };
        self.recording == RecordingState::Recording && fresh && in_flight < most_in_flight
            && has_target
    }

    pub open spec fn status_text(self, elapsed: Seq<char>) -> Option<Seq<char>> {
        match self.recording {
            RecordingState::SelectingDestination => Some("Choosing recording destination…"@),
            RecordingState::Requested => Some("Preparing recording…"@),
            RecordingState::Preparing => Some("Preparing recording…"@),
            RecordingState::Starting => Some("Preparing recording…"@),
            RecordingState::Recording => Some("● REC "@ + elapsed),
            RecordingState::Finalizing => Some("Finalizing recording…"@),
            RecordingState::Idle => if self.snapshot is Idle {
                None
            } else {
                Some("Capturing snapshot…"@)
            },
        }
    }

    /// What the status bar says of the captures. `elapsed` is how long the
    /// recording has been rolling.
    pub fn status(self, elapsed: &str) -> (result: Option<String>)
        ensures
            match (result, self.status_text(elapsed@)) {
                (Some(text), Some(expected)) => text@ == expected,
                (None, None) => true,
                _ => false,
            },
    {
        match self.recording {
            RecordingState::SelectingDestination => Some(
                "Choosing recording destination…".to_owned(),
            ),
            RecordingState::Requested | RecordingState::Preparing | RecordingState::Starting => Some(
                "Preparing recording…".to_owned(),
            ),
            RecordingState::Recording => Some(joined("● REC ", elapsed)),
            RecordingState::Finalizing => Some("Finalizing recording…".to_owned()),
            RecordingState::Idle => if self.snapshot == SnapshotState::Idle {
                None
            } else {
                Some("Capturing snapshot…".to_owned())
            },
        }
    }
}

/// How many frames a recording lost, where it lost any.
pub fn dropped_frames_text(dropped: u64) -> (result: Option<String>)
    ensures
        match result {
            None => dropped == 0,
            Some(text) => dropped > 0 && text@ == decimal_digits(dropped as nat) + " dropped"@,
        },
{
    if dropped == 0 {
        return None;
    }
    Some(joined(decimal(dropped).as_str(), " dropped"))
}

/// What was found at launch. A link that was followed and what was saved last
/// are read already.
#[derive(Debug)]
pub enum LaunchSource<C> {
    /// A link, and the scene in it or why there is none.
    Link(Result<C, String>),
    /// No link; what was saved last, if it can still be read.
    Recovered(Option<C>),
}

/// What a launch opens.
#[derive(Debug)]
pub enum Launch<C> {
    Load(C),
    Report(String),
    /// A random example, so that the start is something worth looking at.
    RandomExample,
}

/// A link wins over what was saved; one that cannot be read is reported, while a
/// lost save just starts on an example.
pub fn launch<C>(source: LaunchSource<C>) -> (result: Launch<C>)
    ensures
        result == match source {
            LaunchSource::Link(Ok(candidate)) => Launch::Load(candidate),
            LaunchSource::Link(Err(error)) => Launch::Report(error),
            LaunchSource::Recovered(Some(candidate)) => Launch::Load(candidate),
            LaunchSource::Recovered(None) => Launch::RandomExample,
        },
{
    match source {
        LaunchSource::Link(Ok(candidate)) => Launch::Load(candidate),
        LaunchSource::Link(Err(error)) => Launch::Report(error),
        LaunchSource::Recovered(Some(candidate)) => Launch::Load(candidate),
        LaunchSource::Recovered(None) => Launch::RandomExample,
    }
}

} // verus!
