//! The diagnostics log: what the transient status channels said before they
//! were overwritten.

use crate::alike::Alike;
use crate::scalar::Scalar;
use crate::text::{decimal, decimal_digits, joined};
use std::collections::VecDeque;
use vstd::prelude::*;

verus! {

/// How many entries the ring keeps.
pub const EVENT_LOG_ENTRIES: usize = 200;

/// Which transient channel a log entry was caught from, which is also how much
/// it matters.
#[derive(Clone, Copy, Debug, PartialEq, Eq, Structural)]
pub enum EventSource {
    Status,
    Repair,
    Preparation,
    Adaptation,
}

impl EventSource {
    pub open spec fn tag_text(self) -> Seq<char> {
        match self {
            EventSource::Status => "status"@,
            EventSource::Repair => "repair"@,
            EventSource::Preparation => "preparation"@,
            EventSource::Adaptation => "adaptation"@,
        }
    }

    pub fn tag(self) -> (result: &'static str)
        ensures
            result@ == self.tag_text(),
    {
        match self {
            EventSource::Status => "status",
            EventSource::Repair => "repair",
            EventSource::Preparation => "preparation",
            EventSource::Adaptation => "adaptation",
        }
    }

    pub open spec fn is_error(self) -> bool {
        self is Preparation || self is Adaptation
    }

    /// Whether an entry from here lights the status marker until the
    /// diagnostics are opened. A repair fallback explains a rebuild that
    /// succeeded, so it is worth keeping but not worth interrupting for.
    pub fn error(self) -> (result: bool)
        ensures
            result == self.is_error(),
    {
        matches!(self, EventSource::Preparation | EventSource::Adaptation)
    }
}

#[derive(Debug)]
pub struct EventEntry {
    /// Seconds since the window system started.
    pub time: Scalar,
    pub source: EventSource,
    pub text: String,
    /// How many times in a row this same line arrived, so that a channel that
    /// clears and returns every frame cannot flood the ring.
    pub repeats: usize,
}

/// The log, and what each channel said last.
#[derive(Debug)]
pub struct EventLog {
    pub events: VecDeque<EventEntry>,
    pub unseen_error: bool,
    pub logged_status: Option<String>,
    pub logged_preparation: Option<String>,
    pub logged_adaptation: Option<String>,
    /// Repair fallbacks reported since the last frame.
    pub pending_repairs: Vec<String>,
}

/// The log without its storage.
#[verifier::ext_equal]
pub ghost struct LogState {
    pub events: Seq<EventEntry>,
    pub unseen_error: bool,
    pub status: Option<String>,
    pub preparation: Option<String>,
    pub adaptation: Option<String>,
    pub repairs: Seq<String>,
}

/// Whether a line repeats the newest entry.
pub open spec fn repeats_last(events: Seq<EventEntry>, source: EventSource, text: String) -> bool {
    events.len() > 0 && events.last().source == source && events.last().text@ == text@
}

/// The entries after a line: a repeat is counted, and a new line drops the
/// oldest entry of a full ring.
pub open spec fn pushed(
    events: Seq<EventEntry>,
    now: Scalar,
    source: EventSource,
    text: String,
) -> Seq<EventEntry> {
    if repeats_last(events, source, text) {
        events.update(
            events.len() - 1,
            EventEntry {
                time: now,
                repeats: (events.last().repeats + 1) as usize,
                ..events.last()
            },
        )
    } else {
        let kept = if events.len() == EVENT_LOG_ENTRIES {
            events.drop_first()
        } else {
            events
        };
        kept.push(EventEntry { time: now, source, text, repeats: 1 })
    }
}

/// Whether two entries are the same line.
pub open spec fn same_line(one: EventEntry, other: EventEntry) -> bool {
    one.source == other.source && one.text@ == other.text@
}

impl LogState {
    pub open spec fn bounded(self) -> bool {
        self.events.len() <= EVENT_LOG_ENTRIES
    }

    /// Whether every entry counts something and no entry repeats the one before
    /// it.
    pub open spec fn sound(self) -> bool {
        &&& forall|i: int| 0 <= i < self.events.len() ==> (#[trigger] self.events[i]).repeats >= 1
        &&& forall|i: int, j: int|
            0 <= i && j == i + 1 && j < self.events.len() ==> !same_line(
                #[trigger] self.events[i],
                #[trigger] self.events[j],
            )
    }

    /// Whether a line can be counted: a repeat needs room in the newest entry.
    pub open spec fn has_room(self, source: EventSource, text: String) -> bool {
        repeats_last(self.events, source, text) ==> self.events.last().repeats < usize::MAX
    }

    /// Whether what a channel says can be caught.
    pub open spec fn catch_room(self, source: EventSource, value: Option<String>) -> bool {
        value is Some && !value.alike(self.logged(source)) ==> self.has_room(source, value->0)
    }

    /// Whether all of some repairs can be logged.
    pub open spec fn all_room(self, now: Scalar, repairs: Seq<String>) -> bool
        decreases repairs.len(),
    {
        repairs.len() > 0 ==> {
            &&& self.all_room(now, repairs.drop_last())
            &&& self.push_all(now, repairs.drop_last()).has_room(
                EventSource::Repair,
                repairs.last(),
            )
        }
    }

    /// Whether everything that is recorded at once can be counted.
    pub open spec fn record_room(
        self,
        now: Scalar,
        message: String,
        preparation: Option<String>,
        adaptation: Option<String>,
    ) -> bool {
        let status = if message@.len() == 0 {
            None
        } else {
            Some(message)
        };
        let first = self.catch(now, EventSource::Status, status);
        let second = first.catch(now, EventSource::Preparation, preparation);
        let third = second.catch(now, EventSource::Adaptation, adaptation);
        &&& self.catch_room(EventSource::Status, status)
        &&& first.catch_room(EventSource::Preparation, preparation)
        &&& second.catch_room(EventSource::Adaptation, adaptation)
        &&& third.all_room(now, self.repairs)
    }

    pub open spec fn push(self, now: Scalar, source: EventSource, text: String) -> Self {
        LogState {
            events: pushed(self.events, now, source, text),
            unseen_error: self.unseen_error || (source.is_error() && !repeats_last(
                self.events,
                source,
                text,
            )),
            ..self
        }
    }

    pub open spec fn logged(self, source: EventSource) -> Option<String> {
        match source {
            EventSource::Status => self.status,
            EventSource::Preparation => self.preparation,
            EventSource::Adaptation => self.adaptation,
            EventSource::Repair => None,
        }
    }

    pub open spec fn with_logged(self, source: EventSource, value: Option<String>) -> Self {
        match source {
            EventSource::Status => LogState { status: value, ..self },
            EventSource::Preparation => LogState { preparation: value, ..self },
            EventSource::Adaptation => LogState { adaptation: value, ..self },
            EventSource::Repair => self,
        }
    }

    /// What a channel says is caught the moment it changes.
    pub open spec fn catch(self, now: Scalar, source: EventSource, value: Option<String>) -> Self {
        if value.alike(self.logged(source)) {
            self
        } else {
            let noted = self.with_logged(source, value);
            match value {
                Some(text) => noted.push(now, source, text),
                None => noted,
            }
        }
    }

    pub open spec fn push_all(self, now: Scalar, repairs: Seq<String>) -> Self
        decreases repairs.len(),
    {
        if repairs.len() == 0 {
            self
        } else {
            self.push_all(now, repairs.drop_last()).push(now, EventSource::Repair, repairs.last())
        }
    }

    pub open spec fn recorded(
        self,
        now: Scalar,
        message: String,
        preparation: Option<String>,
        adaptation: Option<String>,
    ) -> Self {
        let status = if message@.len() == 0 {
            None
        } else {
            Some(message)
        };
        let caught = self.catch(now, EventSource::Status, status).catch(
            now,
            EventSource::Preparation,
            preparation,
        ).catch(now, EventSource::Adaptation, adaptation);
        LogState { repairs: Seq::empty(), ..caught.push_all(now, self.repairs) }
    }
}

impl EventLog {
    pub open spec fn state(self) -> LogState {
        LogState {
            events: self.events@,
            unseen_error: self.unseen_error,
            status: self.logged_status,
            preparation: self.logged_preparation,
            adaptation: self.logged_adaptation,
            repairs: self.pending_repairs@,
        }
    }

    pub open spec fn wf(self) -> bool {
        self.state().bounded()
    }

    pub fn new() -> (result: Self)
        ensures
            result.wf(),
            result.state().sound(),
            result.state() == (LogState {
                events: Seq::empty(),
                unseen_error: false,
                status: None,
                preparation: None,
                adaptation: None,
                repairs: Seq::empty(),
            }),
    {
        EventLog {
            events: VecDeque::new(),
            unseen_error: false,
            logged_status: None,
            logged_preparation: None,
            logged_adaptation: None,
            pending_repairs: Vec::new(),
        }
    }

    pub fn push_event(&mut self, now: Scalar, source: EventSource, text: String)
        requires
            old(self).wf(),
            old(self).state().has_room(source, text),
        ensures
            final(self).wf(),
            final(self).state() == old(self).state().push(now, source, text),
            old(self).state().sound() ==> final(self).state().sound(),
    {
        proof {
            if self.state().sound() {
                a_line_keeps_the_log_sound(self.state(), now, source, text);
            }
        }
        let count: usize = self.events.len();
        if count > 0 && self.events[count - 1].source == source && self.events[count
            - 1].text.same(&text) {
            let mut last: EventEntry = match self.events.pop_back() {
                Some(last) => last,
                None => {
                    return;
                },
            };
            last.repeats = last.repeats + 1;
            last.time = now;
            self.events.push_back(last);
            proof {
                assert(self.state() =~= old(self).state().push(now, source, text));
            }
            return;
        }
        if count == EVENT_LOG_ENTRIES {
            self.events.pop_front();
            assert(self.events@ =~= old(self).events@.drop_first());
        }
        self.events.push_back(EventEntry { time: now, source, text, repeats: 1 });
        if source.error() {
            self.unseen_error = true;
        }
        proof {
            assert(self.state() =~= old(self).state().push(now, source, text));
        }
    }

    /// Appends what each transient channel says, the moment it changes. Every
    /// one of them is overwritten by whatever happens next, so a change is the
    /// only moment the value can be caught.
    pub fn record_events(
        &mut self,
        now: Scalar,
        message: &String,
        preparation: &Option<String>,
        adaptation: &Option<String>,
    )
        requires
            old(self).wf(),
            old(self).state().record_room(now, *message, *preparation, *adaptation),
        ensures
            final(self).wf(),
            final(self).state() == old(self).state().recorded(
                now,
                *message,
                *preparation,
                *adaptation,
            ),
            old(self).state().sound() ==> final(self).state().sound(),
    {
        let ghost start = self.state();
        let mut repairs: Vec<String> = Vec::new();
        std::mem::swap(&mut repairs, &mut self.pending_repairs);
        let status: Option<String> = if message.as_str().unicode_len() == 0 {
            None
        } else {
            Some(message.clone())
        };
        let ghost said = status;
        if !status.same(&self.logged_status) {
            self.logged_status = copied_text(&status);
            if let Some(text) = status {
                self.push_event(now, EventSource::Status, text);
            }
        }
        let ghost first = start.catch(now, EventSource::Status, said);
        assert(self.state() =~= LogState { repairs: Seq::empty(), ..first });
        if !preparation.same(&self.logged_preparation) {
            self.logged_preparation = copied_text(preparation);
            if let Some(text) = preparation {
                self.push_event(now, EventSource::Preparation, text.clone());
            }
        }
        let ghost second = first.catch(now, EventSource::Preparation, *preparation);
        assert(self.state() =~= LogState { repairs: Seq::empty(), ..second });
        if !adaptation.same(&self.logged_adaptation) {
            self.logged_adaptation = copied_text(adaptation);
            if let Some(text) = adaptation {
                self.push_event(now, EventSource::Adaptation, text.clone());
            }
        }
        let ghost third = second.catch(now, EventSource::Adaptation, *adaptation);
        assert(self.state() =~= LogState { repairs: Seq::empty(), ..third });
        let ghost caught = self.state();
        proof {
            push_all_keeps_repairs(third, caught, now, repairs@);
            room_does_not_depend_on_repairs(third, caught, now, repairs@);
        }
        let mut index: usize = 0;
        while index < repairs.len()
            invariant
                index <= repairs@.len(),
                self.wf(),
                caught.all_room(now, repairs@),
                self.state() == caught.push_all(now, repairs@.take(index as int)),
                caught.sound() ==> self.state().sound(),
            decreases repairs@.len() - index,
        {
            proof {
                assert(repairs@.take(index + 1).drop_last() =~= repairs@.take(index as int));
                room_for_all_is_room_for_some(caught, now, repairs@, index + 1);
            }
            self.push_event(now, EventSource::Repair, repairs[index].clone());
            index = index + 1;
        }
        proof {
            assert(repairs@.take(index as int) =~= repairs@);
            assert(self.state() =~= start.recorded(now, *message, *preparation, *adaptation));
        }
    }

    /// Opening the diagnostics is seeing what lit the marker.
    pub fn see(&mut self)
        ensures
            final(self).state() == (LogState { unseen_error: false, ..old(self).state() }),
    {
        self.unseen_error = false;
    }

    pub fn clear(&mut self)
        ensures
            final(self).wf(),
            final(self).state() == (LogState { events: Seq::empty(), ..old(self).state() }),
    {
        self.events.clear();
    }

    /// Whether the status marker is lit.
    pub fn diagnostics_warning(&self, preparation_failed: bool, adaptation_failed: bool) -> (result:
        bool)
        ensures
            result == (preparation_failed || adaptation_failed || self.unseen_error),
    {
        preparation_failed || adaptation_failed || self.unseen_error
    }
}

/// What is pushed does not depend on the repairs that wait.
proof fn push_all_keeps_repairs(one: LogState, other: LogState, now: Scalar, repairs: Seq<String>)
    requires
        other == (LogState { repairs: other.repairs, ..one }),
    ensures
        other.push_all(now, repairs) == (LogState {
            repairs: other.repairs,
            ..one.push_all(now, repairs)
        }),
        one.push_all(now, repairs).repairs == one.repairs,
    decreases repairs.len(),
{
    if repairs.len() > 0 {
        push_all_keeps_repairs(one, other, now, repairs.drop_last());
    }
}

proof fn room_does_not_depend_on_repairs(
    one: LogState,
    other: LogState,
    now: Scalar,
    repairs: Seq<String>,
)
    requires
        other == (LogState { repairs: other.repairs, ..one }),
    ensures
        one.all_room(now, repairs) == other.all_room(now, repairs),
    decreases repairs.len(),
{
    if repairs.len() > 0 {
        push_all_keeps_repairs(one, other, now, repairs.drop_last());
        room_does_not_depend_on_repairs(one, other, now, repairs.drop_last());
    }
}

proof fn room_for_all_is_room_for_some(
    log: LogState,
    now: Scalar,
    repairs: Seq<String>,
    count: int,
)
    requires
        log.all_room(now, repairs),
        0 <= count <= repairs.len(),
    ensures
        log.all_room(now, repairs.take(count)),
    decreases repairs.len(),
{
    if count == repairs.len() {
        assert(repairs.take(count) =~= repairs);
    } else {
        assert(repairs.drop_last().take(count) =~= repairs.take(count));
        room_for_all_is_room_for_some(log, now, repairs.drop_last(), count);
    }
}

fn copied_text(text: &Option<String>) -> (result: Option<String>)
    ensures
        result == *text,
{
    match text {
        Some(text) => Some(text.clone()),
        None => None,
    }
}

pub open spec fn line_text(entry: EventEntry, stamp: Seq<char>) -> Seq<char> {
    let head = stamp + " · "@ + entry.source.tag_text() + " · "@ + entry.text@;
    if entry.repeats > 1 {
        head + " ×"@ + decimal_digits(entry.repeats as nat)
    } else {
        head
    }
}

/// An entry as the log shows it. `stamp` is its time, in minutes and seconds.
pub fn event_line(entry: &EventEntry, stamp: &str) -> (result: String)
    ensures
        result@ == line_text(*entry, stamp@),
{
    let mut line: String = joined(stamp, " · ");
    line.append(entry.source.tag());
    line.append(" · ");
    line.append(entry.text.as_str());
    if entry.repeats > 1 {
        line.append(" ×");
        line.append(decimal(entry.repeats as u64).as_str());
    }
    line
}

/// The lines of the log, oldest first.
pub open spec fn log_text(events: Seq<EventEntry>, stamps: Seq<String>) -> Seq<char>
    decreases events.len(),
{
    if events.len() == 0 {
        Seq::empty()
    } else {
        let line = line_text(events.last(), stamps[events.len() - 1]@);
        if events.len() == 1 {
            line
        } else {
            log_text(events.drop_last(), stamps) + "\n"@ + line
        }
    }
}

/// The whole log as one text. `stamps` are the times of the entries.
pub fn copied_log(log: &EventLog, stamps: &Vec<String>) -> (result: String)
    requires
        stamps@.len() == log.events@.len(),
    ensures
        result@ == log_text(log.events@, stamps@),
{
    let mut text: String = String::new();
    let mut index: usize = 0;
    while index < log.events.len()
        invariant
            index <= log.events@.len(),
            stamps@.len() == log.events@.len(),
            text@ == log_text(log.events@.take(index as int), stamps@),
        decreases log.events@.len() - index,
    {
        proof {
            let longer = log.events@.take(index + 1);
            assert(longer.drop_last() =~= log.events@.take(index as int));
        }
        if index > 0 {
            text.append("\n");
        }
        let line: String = event_line(&log.events[index], stamps[index].as_str());
        text.append(line.as_str());
        index = index + 1;
    }
    assert(log.events@.take(index as int) =~= log.events@);
    text
}

/// The log never grows past its bound.
pub proof fn the_log_is_bounded(log: LogState, now: Scalar, source: EventSource, text: String)
    requires
        log.bounded(),
    ensures
        log.push(now, source, text).bounded(),
{
}

/// A line keeps the log sound: every entry counts at least once, and neighbours
/// differ in their source or their text.
pub proof fn a_line_keeps_the_log_sound(
    log: LogState,
    now: Scalar,
    source: EventSource,
    text: String,
)
    requires
        log.sound(),
        log.has_room(source, text),
    ensures
        log.push(now, source, text).sound(),
{
    let after = log.push(now, source, text).events;
    let before = log.events;
    if repeats_last(before, source, text) {
        assert forall|i: int, j: int|
            0 <= i && j == i + 1 && j < after.len() implies !same_line(
            #[trigger] after[i],
            #[trigger] after[j],
        ) by {
            assert(!same_line(before[i], before[j]));
        }
    } else {
        let skipped: int = if before.len() == EVENT_LOG_ENTRIES {
            1
        } else {
            0
        };
        assert forall|i: int| 0 <= i < after.len() implies (#[trigger] after[i]).repeats >= 1 by {
            if i < after.len() - 1 {
                assert(after[i] == before[i + skipped]);
            }
        }
        assert forall|i: int, j: int|
            0 <= i && j == i + 1 && j < after.len() implies !same_line(
            #[trigger] after[i],
            #[trigger] after[j],
        ) by {
            assert(after[i] == before[i + skipped]);
            if j < after.len() - 1 {
                assert(after[j] == before[j + skipped]);
                assert(!same_line(before[i + skipped], before[j + skipped]));
            } else {
                assert(after[i] == before.last());
            }
        }
    }
}

/// A line that arrives at some time.
pub ghost struct LoggedLine {
    pub time: Scalar,
    pub source: EventSource,
    pub text: String,
}

/// An empty log after some lines.
pub open spec fn log_of(lines: Seq<LoggedLine>) -> LogState
    decreases lines.len(),
{
    if lines.len() == 0 {
        LogState {
            events: Seq::empty(),
            unseen_error: false,
            status: None,
            preparation: None,
            adaptation: None,
            repairs: Seq::empty(),
        }
    } else {
        let line = lines.last();
        log_of(lines.drop_last()).push(line.time, line.source, line.text)
    }
}

/// Whatever lines an empty log is given, it stays within its bound, every entry
/// counts at least one of them, and neighbours differ in their source or their
/// text.
pub proof fn every_log_is_sound(lines: Seq<LoggedLine>)
    requires
        lines.len() <= usize::MAX,
    ensures
        log_of(lines).bounded(),
        log_of(lines).sound(),
        forall|i: int|
            0 <= i < log_of(lines).events.len() ==> (#[trigger] log_of(lines).events[i]).repeats
                <= lines.len(),
    decreases lines.len(),
{
    if lines.len() > 0 {
        let before = log_of(lines.drop_last());
        let line = lines.last();
        every_log_is_sound(lines.drop_last());
        the_log_is_bounded(before, line.time, line.source, line.text);
        a_line_keeps_the_log_sound(before, line.time, line.source, line.text);
        let after = log_of(lines).events;
        assert forall|i: int| 0 <= i < after.len() implies (#[trigger] after[i]).repeats
            <= lines.len() by {
            if !repeats_last(before.events, line.source, line.text) && i < after.len() - 1 {
                let skipped: int = if before.events.len() == EVENT_LOG_ENTRIES {
                    1
                } else {
                    0
                };
                assert(after[i] == before.events[i + skipped]);
            }
        }
    }
}

/// A line that is not a repeat becomes the newest entry, and what a full ring
/// gives up for it is its oldest.
pub proof fn a_new_line_drops_the_oldest(
    log: LogState,
    now: Scalar,
    source: EventSource,
    text: String,
)
    requires
        log.events.len() == EVENT_LOG_ENTRIES,
        !repeats_last(log.events, source, text),
    ensures
        log.push(now, source, text).events == log.events.drop_first().push(
            EventEntry { time: now, source, text, repeats: 1 },
        ),
{
}

/// A channel that holds its value is logged once: recording the same values
/// again, with no repair waiting, changes nothing.
pub proof fn a_held_value_is_logged_once(
    log: LogState,
    now: Scalar,
    later: Scalar,
    message: String,
    preparation: Option<String>,
    adaptation: Option<String>,
)
    ensures
        log.recorded(now, message, preparation, adaptation).recorded(
            later,
            message,
            preparation,
            adaptation,
        ) == log.recorded(now, message, preparation, adaptation),
{
    let status = if message@.len() == 0 {
        None
    } else {
        Some(message)
    };
    let once = log.recorded(now, message, preparation, adaptation);
    let caught = log.catch(now, EventSource::Status, status).catch(
        now,
        EventSource::Preparation,
        preparation,
    ).catch(now, EventSource::Adaptation, adaptation);
    push_all_keeps_channels(caught, now, log.repairs);
    assert(status.alike(caught.status));
    assert(preparation.alike(caught.preparation));
    assert(adaptation.alike(caught.adaptation));
    assert(once.catch(later, EventSource::Status, status) == once);
    assert(once.catch(later, EventSource::Preparation, preparation) == once);
    assert(once.catch(later, EventSource::Adaptation, adaptation) == once);
    assert(once.push_all(later, once.repairs) == once);
    assert(LogState { repairs: Seq::empty(), ..once } =~= once);
}

proof fn push_all_keeps_channels(log: LogState, now: Scalar, repairs: Seq<String>)
    ensures
        log.push_all(now, repairs).status == log.status,
        log.push_all(now, repairs).preparation == log.preparation,
        log.push_all(now, repairs).adaptation == log.adaptation,
    decreases repairs.len(),
{
    if repairs.len() > 0 {
        push_all_keeps_channels(log, now, repairs.drop_last());
    }
}

/// A channel that clears and returns with the same text, with nothing logged in
/// between, counts a repeat and takes no new entry.
pub proof fn a_returning_line_counts_a_repeat(
    log: LogState,
    cleared: Scalar,
    returned: Scalar,
    source: EventSource,
    text: String,
)
    requires
        source !is Repair,
        repeats_last(log.events, source, text),
        log.logged(source) is Some,
        log.events.last().repeats < usize::MAX,
    ensures
        ({
            let after = log.catch(cleared, source, None).catch(returned, source, Some(text));
            &&& after.events.len() == log.events.len()
            &&& after.events.last().repeats == log.events.last().repeats + 1
            &&& after.events.last().time == returned
            &&& after.events.drop_last() == log.events.drop_last()
            &&& after.unseen_error == log.unseen_error
        }),
{
    let after = log.catch(cleared, source, None).catch(returned, source, Some(text));
    assert(after.events.drop_last() =~= log.events.drop_last());
}

/// A caught error lights the marker, and only looking puts it out: nothing that
/// is recorded afterwards does.
pub proof fn recording_never_puts_the_marker_out(
    log: LogState,
    now: Scalar,
    message: String,
    preparation: Option<String>,
    adaptation: Option<String>,
)
    requires
        log.unseen_error,
    ensures
        log.recorded(now, message, preparation, adaptation).unseen_error,
{
    let status = if message@.len() == 0 {
        None
    } else {
        Some(message)
    };
    let caught = log.catch(now, EventSource::Status, status).catch(
        now,
        EventSource::Preparation,
        preparation,
    ).catch(now, EventSource::Adaptation, adaptation);
    push_all_keeps_the_marker(caught, now, log.repairs);
}

proof fn push_all_keeps_the_marker(log: LogState, now: Scalar, repairs: Seq<String>)
    ensures
        log.push_all(now, repairs).unseen_error == log.unseen_error,
    decreases repairs.len(),
{
    if repairs.len() > 0 {
        push_all_keeps_the_marker(log, now, repairs.drop_last());
    }
}

} // verus!
