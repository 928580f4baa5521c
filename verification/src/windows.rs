//! The windows over the viewport: the diagnostics with their frame times, and
//! the gallery of examples.

use crate::events::{EventLog, LogState};
use crate::model::{PointSource, TopologyDocument, TopologyDocumentModel};
use crate::preview::{ranked, sorted};
use crate::scalar::Scalar;
use crate::text::joined;
use std::collections::VecDeque;
use vstd::prelude::*;

verus! {

/// How many frame times are kept.
pub const FRAME_HISTORY: usize = 120;

/// Whether a frame time counts.
pub open spec fn counts(frame_ms: Scalar) -> bool {
    frame_ms.finite() && Scalar::zero_num().lt_num(frame_ms)
}

/// The frame times after one more; a full history gives up its oldest.
pub open spec fn remembered(history: Seq<Scalar>, frame_ms: Scalar) -> Seq<Scalar> {
    if !counts(frame_ms) {
        history
    } else if history.len() == FRAME_HISTORY {
        history.drop_first().push(frame_ms)
    } else {
        history.push(frame_ms)
    }
}

/// The largest of some frame times, and zero where there is none.
pub open spec fn largest(history: Seq<Scalar>) -> Scalar
    decreases history.len(),
{
    if history.len() == 0 {
        Scalar::zero_num()
    } else {
        largest(history.drop_last()).larger_num(history.last())
    }
}

/// The diagnostics window: whether it is open, the log behind it and the frame
/// times.
#[derive(Debug)]
pub struct Diagnostics {
    pub open: bool,
    pub log: EventLog,
    pub history: VecDeque<Scalar>,
}

impl Diagnostics {
    pub open spec fn wf(self) -> bool {
        self.log.wf() && self.history@.len() <= FRAME_HISTORY
    }

    /// One frame: the log catches what the channels say, the frame time is
    /// remembered, and an open window has seen what lit the marker. Whether the
    /// window is shown.
    pub fn frame(
        &mut self,
        now: Scalar,
        frame_ms: Scalar,
        message: &String,
        preparation: &Option<String>,
        adaptation: &Option<String>,
    ) -> (result: bool)
        requires
            old(self).wf(),
            old(self).log.state().record_room(now, *message, *preparation, *adaptation),
        ensures
            final(self).wf(),
            result == old(self).open,
            final(self).open == old(self).open,
            final(self).history@ == remembered(old(self).history@, frame_ms),
            final(self).log.state() == ({
                let recorded = old(self).log.state().recorded(
                    now,
                    *message,
                    *preparation,
                    *adaptation,
                );
                if old(self).open {
                    LogState { unseen_error: false, ..recorded }
                } else {
                    recorded
                }
            }),
    {
        self.log.record_events(now, message, preparation, adaptation);
        if frame_ms.is_finite() && Scalar::zero().less(frame_ms) {
            if self.history.len() == FRAME_HISTORY {
                self.history.pop_front();
                assert(self.history@ =~= old(self).history@.drop_first());
            }
            self.history.push_back(frame_ms);
        }
        if self.open {
            self.log.see();
        }
        self.open
    }

    /// The summary in the status bar opens the window and closes it.
    pub fn toggle(&mut self)
        ensures
            *final(self) == (Diagnostics { open: !old(self).open, ..*old(self) }),
    {
        self.open = !self.open;
    }

    /// The longest frame that is remembered.
    pub fn peak(&self) -> (result: Scalar)
        ensures
            result == largest(self.history@),
    {
        let mut peak: Scalar = Scalar::zero();
        let mut index: usize = 0;
        while index < self.history.len()
            invariant
                index <= self.history@.len(),
                peak == largest(self.history@.take(index as int)),
            decreases self.history@.len() - index,
        {
            assert(self.history@.take(index + 1).drop_last() =~= self.history@.take(
                index as int,
            ));
            peak = peak.larger(self.history[index]);
            index = index + 1;
        }
        assert(self.history@.take(index as int) =~= self.history@);
        peak
    }

    /// The frame time at a place of the ascending order, zero where there is
    /// none. `place` is where the wanted share of so many samples ends.
    pub fn percentile(&self, place: usize) -> (result: Scalar)
        ensures
            exists|ordered: Seq<Scalar>| #[trigger]
                ranked(ordered) && ordered.to_multiset() == self.history@.to_multiset() && result
                    == if place < ordered.len() {
                    ordered[place as int]
                } else {
                    Scalar::zero_num()
                },
    {
        let mut times: Vec<Scalar> = Vec::new();
        let mut index: usize = 0;
        while index < self.history.len()
            invariant
                index <= self.history@.len(),
                times@ == self.history@.take(index as int),
            decreases self.history@.len() - index,
        {
            times.push(self.history[index]);
            index = index + 1;
            assert(times@ =~= self.history@.take(index as int));
        }
        assert(times@ =~= self.history@);
        let ordered: Vec<Scalar> = sorted(&times);
        assert(ranked(ordered@));
        if place < ordered.len() {
            ordered[place]
        } else {
            Scalar::zero()
        }
    }
}

/// The history never grows past its bound, and the newest frame is in it.
pub proof fn the_history_is_bounded(history: Seq<Scalar>, frame_ms: Scalar)
    requires
        history.len() <= FRAME_HISTORY,
    ensures
        remembered(history, frame_ms).len() <= FRAME_HISTORY,
        counts(frame_ms) ==> remembered(history, frame_ms).last() == frame_ms,
{
}

/// A scene to start from: the default document with its point source switched on,
/// because an empty scene that makes no wave is a still picture.
pub fn new_scene_document(blank: TopologyDocument) -> (result: TopologyDocument)
    ensures
        result == (TopologyDocument {
            model: TopologyDocumentModel {
                source: PointSource { enabled: true, ..blank.model.source },
                ..blank.model
            },
            ..blank
        }),
{
    let mut document: TopologyDocument = blank;
    document.model.source.enabled = true;
    document
}

/// The gallery of examples: whether it is open, and which example the document
/// was opened from.
#[derive(Clone, Copy, Debug, PartialEq, Eq, Structural)]
pub struct Gallery {
    pub open: bool,
    pub opened: Option<usize>,
}

impl Gallery {
    /// The gallery after a pick whose document was taken or refused. It stays
    /// open, so that several scenes can be tried one after another.
    pub open spec fn picked(self, index: usize, taken: bool) -> Self {
        if taken {
            Gallery { opened: Some(index), ..self }
        } else {
            self
        }
    }

    /// Marks the example that a pick opened. `answer` is whether the document was
    /// taken, or why not; the result is what is said of it.
    pub fn open_example(&mut self, index: usize, name: &str, answer: Result<(), String>) -> (result:
        String)
        ensures
            *final(self) == old(self).picked(index, answer is Ok),
            result@ == match answer {
                Ok(_) => "Opened "@ + name@,
                Err(error) => error@,
            },
    {
        match answer {
            Ok(()) => {
                self.opened = Some(index);
                joined("Opened ", name)
            },
            Err(error) => error,
        }
    }

    /// Marks the example that a launch opened; only a refusal is spoken of.
    pub fn open_random_example(&mut self, index: usize, answer: Result<(), String>) -> (result:
        Option<String>)
        ensures
            *final(self) == old(self).picked(index, answer is Ok),
            result == (match answer {
                Ok(_) => None,
                Err(error) => Some(error),
            }),
    {
        match answer {
            Ok(()) => {
                self.opened = Some(index);
                None
            },
            Err(error) => Some(error),
        }
    }

    /// Forgets which example the document came from: a new scene is none. `answer`
    /// is whether its document was taken, or why not.
    pub fn new_scene(&mut self, answer: Result<(), String>) -> (result: String)
        ensures
            *final(self) == (if answer is Ok {
                Gallery { opened: None, ..*old(self) }
            } else {
                *old(self)
            }),
            result@ == match answer {
                Ok(_) => "New scene"@,
                Err(error) => error@,
            },
    {
        match answer {
            Ok(()) => {
                self.opened = None;
                "New scene".to_owned()
            },
            Err(error) => error,
        }
    }

    /// Closes the gallery from its own button.
    pub fn close(&mut self)
        ensures
            *final(self) == (Gallery { open: false, ..*old(self) }),
    {
        self.open = false;
    }

    /// Whether a row is marked as the one that is open.
    pub fn marks(self, index: usize) -> (result: bool)
        ensures
            result == (self.opened == Some(index)),
    {
        match self.opened {
            Some(opened) => opened == index,
            None => false,
        }
    }
}

/// A pick leaves the gallery open and marks its own row and no other.
pub proof fn a_pick_marks_its_row(gallery: Gallery, index: usize, other: usize)
    requires
        gallery.open,
        other != index,
    ensures
        gallery.picked(index, true).open,
        gallery.picked(index, true).opened == Some(index),
        gallery.picked(index, true).opened != Some(other),
        gallery.picked(index, false) == gallery,
{
}

} // verus!
