use funfern::events::{copied_log, event_line, EventLog, EventSource, EVENT_LOG_ENTRIES};
use funfern::scalar::Scalar;

fn at(seconds: f64) -> Scalar {
    Scalar { bits: seconds.to_bits() }
}

fn record(log: &mut EventLog, now: f64, message: &str, adaptation: Option<&str>) {
    log.record_events(
        at(now),
        &message.to_string(),
        &None,
        &adaptation.map(|text| text.to_string()),
    );
}

fn stamp(seconds: f64) -> String {
    let minutes = (seconds / 60.0).floor().max(0.0);
    format!("{:.0}:{:04.1}", minutes, seconds - minutes * 60.0)
}

#[test]
fn the_log_is_bounded() {
    let mut log = EventLog::new();
    for index in 0..EVENT_LOG_ENTRIES + 20 {
        record(&mut log, index as f64, &format!("message {index}"), None);
    }
    assert_eq!(log.events.len(), EVENT_LOG_ENTRIES);
    assert_eq!(log.events[0].text, format!("message {}", 20));
    assert_eq!(
        log.events[EVENT_LOG_ENTRIES - 1].text,
        format!("message {}", EVENT_LOG_ENTRIES + 19)
    );
}

#[test]
fn the_log_keeps_one_entry_per_change_of_a_transient_channel() {
    let mut log = EventLog::new();
    record(&mut log, 1.0, "", None);
    assert!(log.events.is_empty());
    assert!(!log.diagnostics_warning(false, false));

    let queued = "Pulse queued in region 1";
    record(&mut log, 2.0, queued, None);
    record(&mut log, 3.0, queued, None);
    assert_eq!(log.events.len(), 1, "a held value is logged once");
    assert_eq!(log.events[0].source, EventSource::Status);
    assert_eq!(log.events[0].repeats, 1);
    assert!(!log.diagnostics_warning(false, false), "a status line is not an error");

    let failure = "Invalid adaptation source";
    record(&mut log, 4.0, queued, Some(failure));
    assert_eq!(log.events.len(), 2);
    assert_eq!(log.events[1].source, EventSource::Adaptation);
    assert!(log.unseen_error);

    for time in [5.0, 6.0, 7.0, 8.0] {
        let failed = (time as u64) % 2 == 0;
        record(&mut log, time, queued, if failed { Some(failure) } else { None });
    }
    assert_eq!(log.events.len(), 2);
    assert_eq!(log.events[1].repeats, 3);

    record(&mut log, 9.0, "Simulation topology committed", None);
    assert_eq!(log.events.len(), 3);
    assert_eq!(log.events[2].source, EventSource::Status);
    assert!(
        log.diagnostics_warning(false, false),
        "the marker stays lit for an error that has not been looked at"
    );

    log.see();
    assert!(!log.diagnostics_warning(false, false));
    assert_eq!(
        event_line(&log.events[1], &stamp(8.0)),
        "0:08.0 · adaptation · Invalid adaptation source ×3"
    );

    log.pending_repairs = vec!["mesh repair failed".to_string(), "mesh repair failed".to_string()];
    record(&mut log, 10.0, "Simulation topology committed", None);
    assert!(log.pending_repairs.is_empty());
    assert_eq!(log.events.len(), 4);
    assert_eq!(log.events[3].source, EventSource::Repair);
    assert_eq!(log.events[3].repeats, 2);
    assert!(
        !log.diagnostics_warning(false, false),
        "a rebuild that carried the edit through is not an error"
    );
}

#[test]
fn a_preparation_error_lights_the_marker_and_is_tagged() {
    let mut log = EventLog::new();
    log.record_events(at(1.5), &String::new(), &Some("no mesh".to_string()), &None);
    assert_eq!(log.events[0].source, EventSource::Preparation);
    assert!(log.unseen_error);
    assert_eq!(event_line(&log.events[0], &stamp(75.5)), "1:15.5 · preparation · no mesh");
    assert!(log.diagnostics_warning(true, false));
    assert!(log.diagnostics_warning(false, true));
}

#[test]
fn tags_and_errors_of_every_source() {
    assert_eq!(EventSource::Status.tag(), "status");
    assert_eq!(EventSource::Repair.tag(), "repair");
    assert_eq!(EventSource::Preparation.tag(), "preparation");
    assert_eq!(EventSource::Adaptation.tag(), "adaptation");
    assert!(!EventSource::Status.error());
    assert!(!EventSource::Repair.error());
    assert!(EventSource::Preparation.error());
    assert!(EventSource::Adaptation.error());
}

#[test]
fn the_whole_log_is_copied_oldest_first() {
    let mut log = EventLog::new();
    record(&mut log, 1.0, "one", None);
    record(&mut log, 2.0, "two", None);
    let stamps = vec![stamp(1.0), stamp(2.0)];
    assert_eq!(copied_log(&log, &stamps), "0:01.0 · status · one\n0:02.0 · status · two");
    log.clear();
    assert!(log.events.is_empty());
    assert_eq!(copied_log(&log, &vec![]), "");
}

#[test]
fn a_new_line_in_a_full_log_drops_the_oldest_only() {
    let mut log = EventLog::new();
    for index in 0..EVENT_LOG_ENTRIES {
        record(&mut log, index as f64, &format!("line {index}"), None);
    }
    record(&mut log, 500.0, "last", None);
    assert_eq!(log.events.len(), EVENT_LOG_ENTRIES);
    assert_eq!(log.events[0].text, "line 1");
    assert_eq!(log.events[EVENT_LOG_ENTRIES - 1].text, "last");
}

#[test]
fn every_entry_counts_and_neighbours_differ() {
    let mut log = EventLog::new();
    for index in 0..600 {
        let text = format!("line {}", (index / 3) % 5);
        let source = if index % 7 < 4 { EventSource::Status } else { EventSource::Repair };
        log.push_event(at(index as f64), source, text);
        assert!(log.events.len() <= EVENT_LOG_ENTRIES);
    }
    assert!(log.events.iter().all(|entry| entry.repeats >= 1));
    for (one, other) in log.events.iter().zip(log.events.iter().skip(1)) {
        assert!(one.source != other.source || one.text != other.text);
    }
}

#[test]
fn a_full_count_takes_a_new_line() {
    let mut log = EventLog::new();
    log.push_event(at(0.0), EventSource::Status, "held".to_string());
    log.events[0].repeats = usize::MAX;
    log.push_event(at(1.0), EventSource::Status, "new".to_string());
    assert_eq!(log.events.len(), 2);
    assert_eq!(log.events[1].repeats, 1);
}
