//! What a frame does around the simulation: what it does once, what it opens at
//! launch, and the captures it ends with.

use crate::capture::{launch, Captures, Launch, LaunchSource, RecordingState, SnapshotState};
use vstd::prelude::*;

verus! {

/// What the first frame does and no other.
#[derive(Clone, Copy, Debug, PartialEq, Eq, Structural)]
pub struct FirstTimes {
    /// The window is given its style.
    pub style: bool,
    /// What a launch opens is looked for.
    pub startup: bool,
}

/// The run of the application from frame to frame. `C` is a scene that waits to
/// be opened.
#[derive(Debug)]
pub struct Session<C> {
    pub ready: bool,
    pub startup_done: bool,
    pub load: Option<C>,
    pub file_busy: bool,
    pub message: String,
}

impl<C> Session<C> {
    pub open spec fn first_times(self) -> FirstTimes {
        FirstTimes { style: !self.ready, startup: !self.startup_done }
    }

    /// The session once a frame has begun.
    pub open spec fn begun(self) -> Self {
        Session { ready: true, startup_done: true, ..self }
    }

    /// Begins a frame.
    pub fn begin_frame(&mut self) -> (result: FirstTimes)
        ensures
            result == old(self).first_times(),
            *final(self) == old(self).begun(),
    {
        let first = FirstTimes { style: !self.ready, startup: !self.startup_done };
        self.ready = true;
        self.startup_done = true;
        first
    }

    /// The session after what was found at launch: a scene waits to be opened, or
    /// an unreadable link is reported.
    pub open spec fn launched(self, source: LaunchSource<C>) -> Self {
        match source {
            LaunchSource::Link(Ok(candidate)) => Session {
                load: Some(candidate),
                file_busy: true,
                ..self
            },
            LaunchSource::Link(Err(error)) => Session { message: error, ..self },
            LaunchSource::Recovered(Some(candidate)) => Session {
                load: Some(candidate),
                file_busy: true,
                ..self
            },
            LaunchSource::Recovered(None) => self,
        }
    }

    /// Takes what was found at launch, and says whether a random example is to be
    /// opened instead.
    pub fn launch(&mut self, source: LaunchSource<C>) -> (result: bool)
        ensures
            *final(self) == old(self).launched(source),
            result == (source matches LaunchSource::Recovered(None)),
    {
        match launch(source) {
            Launch::Load(candidate) => {
                self.load = Some(candidate);
                self.file_busy = true;
                false
            },
            Launch::Report(error) => {
                self.message = error;
                false
            },
            Launch::RandomExample => true,
        }
    }
}

/// The style and the launch belong to the first frame alone.
pub proof fn a_launch_happens_once<C>(session: Session<C>)
    ensures
        !session.begun().first_times().style,
        !session.begun().first_times().startup,
        session.begun().begun() == session.begun(),
{
}

/// The captures that are going on and, of a recording, the last slot of its rate
/// that a frame was asked for and how many frames are under way.
#[derive(Clone, Copy, Debug, PartialEq, Eq, Structural)]
pub struct Recording {
    pub captures: Captures,
    pub last_slot: Option<u64>,
    pub in_flight: usize,
}

/// What a frame ends with.
#[derive(Clone, Copy, Debug, PartialEq, Eq, Structural)]
pub struct FrameEnd {
    /// The picture is taken.
    pub takes_picture: bool,
    /// The recorder is told where the viewport is.
    pub moves_recorder: bool,
    /// A frame of the recording is asked for.
    pub records: bool,
}

impl Recording {
    /// Whether the recorder has to be started before the frame can end.
    pub open spec fn waits_for_recorder(self) -> bool {
        self.captures.recording is Preparing
    }

    /// The captures once the recorder was asked to start, where it had to be.
    pub open spec fn settled(self, started: bool) -> Captures {
        Captures {
            snapshot: if self.captures.snapshot is Armed {
                SnapshotState::Capturing
            } else {
                self.captures.snapshot
            },
            recording: if !self.waits_for_recorder() {
                self.captures.recording
            } else if started {
                RecordingState::Starting
            } else {
                RecordingState::Idle
            },
        }
    }

    pub open spec fn end(
        self,
        started: bool,
        slot: Option<u64>,
        most_in_flight: usize,
        has_target: bool,
    ) -> FrameEnd {
        let captures = self.settled(started);
        FrameEnd {
            takes_picture: self.captures.snapshot is Armed,
            moves_recorder: captures.rolling(),
            records: captures.recording is Recording && slot is Some && self.last_slot != slot
                && self.in_flight < most_in_flight && has_target,
        }
    }

    /// The recording once a frame has ended.
    pub open spec fn ended(
        self,
        started: bool,
        slot: Option<u64>,
        most_in_flight: usize,
        has_target: bool,
    ) -> Self {
        let records = self.end(started, slot, most_in_flight, has_target).records;
        Recording {
            captures: self.settled(started),
            last_slot: if records {
                slot
            } else {
                self.last_slot
            },
            in_flight: if records {
                (self.in_flight + 1) as usize
            } else {
                self.in_flight
            },
        }
    }

    /// Ends a frame. `started` is whether the recorder started, where it had to;
    /// `slot` is the slot of the video that the frame falls in, once the recording
    /// rolls.
    pub fn end_frame(
        &mut self,
        started: bool,
        slot: Option<u64>,
        most_in_flight: usize,
        has_target: bool,
    ) -> (result: FrameEnd)
        ensures
            result == old(self).end(started, slot, most_in_flight, has_target),
            *final(self) == old(self).ended(started, slot, most_in_flight, has_target),
    {
        let (takes_picture, taken) = self.captures.take_snapshot();
        let mut captures: Captures = taken;
        if captures.starts_recorder() {
            captures = captures.recorder_started(started);
        }
        let records: bool = captures.records_frame(
            slot,
            self.last_slot,
            self.in_flight,
            most_in_flight,
            has_target,
        );
        self.captures = captures;
        if records {
            self.last_slot = slot;
            self.in_flight = self.in_flight + 1;
        }
        FrameEnd { takes_picture, moves_recorder: captures.follows_viewport(), records }
    }

    /// Takes back a frame of the recording that arrived.
    pub fn frame_arrived(&mut self)
        requires
            old(self).in_flight > 0,
        ensures
            *final(self) == (Recording { in_flight: (old(self).in_flight - 1) as usize, ..*old(
                self,
            ) }),
    {
        self.in_flight = self.in_flight - 1;
    }
}

/// A recording takes one frame to a slot of its rate and never more frames at a
/// time than allowed.
pub proof fn a_slot_is_recorded_once(
    recording: Recording,
    started: bool,
    slot: Option<u64>,
    most_in_flight: usize,
    has_target: bool,
)
    requires
        recording.end(started, slot, most_in_flight, has_target).records,
    ensures
        recording.ended(started, slot, most_in_flight, has_target).in_flight <= most_in_flight,
        forall|again: bool, most: usize, target: bool|
            !(#[trigger] recording.ended(started, slot, most_in_flight, has_target).end(
                again,
                slot,
                most,
                target,
            )).records,
{
}

/// A recorder that starts in a frame follows the viewport from that frame on; one
/// that does not leaves no recording behind.
pub proof fn a_started_recorder_follows_at_once(
    recording: Recording,
    slot: Option<u64>,
    most_in_flight: usize,
    has_target: bool,
)
    requires
        recording.waits_for_recorder(),
    ensures
        recording.end(true, slot, most_in_flight, has_target).moves_recorder,
        !recording.end(false, slot, most_in_flight, has_target).moves_recorder,
        recording.settled(false).recording is Idle,
{
}

} // verus!
