use dockwatch::formatter::format_log_line;
use dockwatch::pump::{
    display_name, pump_start, pump_step, reader_step, PumpAction, PumpEvent, PumpState,
    ReaderAction, ReaderEvent,
};
use std::sync::mpsc::channel;

#[test]
fn resolved_name_labels_every_line() {
    let name = display_name("3f2a9c", true, Some("web".to_string()));
    assert_eq!(name, "web");
    for raw in ["starting", "", "listening on :80"] {
        let line = format_log_line(false, "2024-05-06T07:08:09", &name, raw);
        assert_eq!(line, format!("[2024-05-06T07:08:09 | web] {}", raw));
        assert!(line.contains("web"));
        assert!(!line.contains("3f2a9c"));
    }
}

#[test]
fn unresolved_name_falls_back_to_the_identifier() {
    let name = display_name("3f2a9c", true, None);
    assert_eq!(name, "3f2a9c");
    let line = format_log_line(true, "t", &name, "x");
    assert_eq!(line, "[\x1b[1;36mt\x1b[0m | \x1b[1;32m3f2a9c\x1b[0m] x");
    assert_eq!(
        pump_step(pump_start(true).0, PumpEvent::NameUnresolved),
        Some((PumpState::Launching, PumpAction::Launch))
    );
}

#[test]
fn a_name_is_never_looked_up_for_a_container_given_by_name() {
    assert_eq!(pump_start(false), (PumpState::Launching, PumpAction::Launch));
    assert_eq!(pump_start(true), (PumpState::Resolving, PumpAction::LookupName));
    assert_eq!(display_name("web", false, None), "web");
    assert_eq!(display_name("web", false, Some("other".to_string())), "web");
}

#[test]
fn an_empty_name_from_the_lookup_falls_back_to_the_identifier() {
    assert_eq!(display_name("3f2a9c", true, Some(String::new())), "3f2a9c");
    let name = display_name("3f2a9c", true, Some(String::new()));
    assert_eq!(format_log_line(false, "t", &name, "x"), "[t | 3f2a9c] x");
}

#[test]
fn pump_with_two_streams_runs_to_its_end() {
    let (state, action) = pump_start(true);
    assert_eq!(action, PumpAction::LookupName);
    let (state, action) = pump_step(state, PumpEvent::NameResolved).unwrap();
    assert_eq!((state, action), (PumpState::Launching, PumpAction::Launch));
    let (state, action) =
        pump_step(state, PumpEvent::Launched { stdout: true, stderr: true }).unwrap();
    assert_eq!(state, PumpState::Streaming { readers: 2 });
    assert_eq!(action, PumpAction::StartReaders { stdout: true, stderr: true });
    let (state, action) = pump_step(state, PumpEvent::ReaderFinished).unwrap();
    assert_eq!((state, action), (PumpState::Streaming { readers: 1 }, PumpAction::AwaitReader));
    let (state, action) = pump_step(state, PumpEvent::ReaderFinished).unwrap();
    assert_eq!((state, action), (PumpState::Reaping, PumpAction::TerminateAndWait));
    let (state, action) = pump_step(state, PumpEvent::Reaped).unwrap();
    assert_eq!((state, action), (PumpState::Finished, PumpAction::Exit));
    assert_eq!(pump_step(state, PumpEvent::Reaped), None);
}

#[test]
fn pump_with_one_stream_waits_for_one_reader() {
    for (stdout, stderr) in [(true, false), (false, true)] {
        let started = pump_step(PumpState::Launching, PumpEvent::Launched { stdout, stderr });
        assert_eq!(
            started,
            Some((PumpState::Streaming { readers: 1 }, PumpAction::StartReaders { stdout, stderr }))
        );
    }
}

#[test]
fn pump_without_streams_reaps_at_once() {
    assert_eq!(
        pump_step(PumpState::Launching, PumpEvent::Launched { stdout: false, stderr: false }),
        Some((PumpState::Reaping, PumpAction::TerminateAndWait))
    );
}

#[test]
fn failed_launch_is_reported_and_ends_the_pump() {
    assert_eq!(
        pump_step(PumpState::Launching, PumpEvent::LaunchFailed),
        Some((PumpState::Finished, PumpAction::ReportFailure))
    );
}

#[test]
fn events_out_of_place_are_refused() {
    let events = [
        PumpEvent::NameResolved,
        PumpEvent::NameUnresolved,
        PumpEvent::Launched { stdout: true, stderr: true },
        PumpEvent::LaunchFailed,
        PumpEvent::ReaderFinished,
        PumpEvent::Reaped,
    ];
    for event in events {
        assert_eq!(pump_step(PumpState::Finished, event), None);
        if event != PumpEvent::ReaderFinished {
            assert_eq!(pump_step(PumpState::Streaming { readers: 2 }, event), None);
        }
        if event != PumpEvent::Reaped {
            assert_eq!(pump_step(PumpState::Reaping, event), None);
        }
    }
    assert_eq!(pump_step(PumpState::Resolving, PumpEvent::Reaped), None);
    assert_eq!(pump_step(PumpState::Launching, PumpEvent::NameResolved), None);
    assert_eq!(pump_step(PumpState::Streaming { readers: 0 }, PumpEvent::ReaderFinished), None);
}

#[test]
fn no_state_with_a_process_finishes_without_reaping() {
    let events = [
        PumpEvent::NameResolved,
        PumpEvent::NameUnresolved,
        PumpEvent::Launched { stdout: true, stderr: false },
        PumpEvent::LaunchFailed,
        PumpEvent::ReaderFinished,
        PumpEvent::Reaped,
    ];
    let states = [
        PumpState::Streaming { readers: 1 },
        PumpState::Streaming { readers: 2 },
        PumpState::Reaping,
    ];
    for state in states {
        for event in events {
            if let Some((after, action)) = pump_step(state, event) {
                if after == PumpState::Finished {
                    assert_eq!(state, PumpState::Reaping);
                    assert_eq!(event, PumpEvent::Reaped);
                    assert_eq!(action, PumpAction::Exit);
                }
            }
        }
    }
}

#[test]
fn reader_stops_when_the_receiver_is_closed() {
    assert_eq!(reader_step(ReaderEvent::ReceiverClosed), ReaderAction::Stop);
    assert_eq!(reader_step(ReaderEvent::EndOfStream), ReaderAction::Stop);
    assert_eq!(reader_step(ReaderEvent::Undecodable), ReaderAction::Stop);
    assert_eq!(reader_step(ReaderEvent::Line), ReaderAction::Forward);
    assert_eq!(reader_step(ReaderEvent::Delivered), ReaderAction::ReadNext);
}

fn forward(
    tx: &std::sync::mpsc::Sender<String>,
    name: &str,
    raw: &str,
) -> ReaderAction {
    assert_eq!(reader_step(ReaderEvent::Line), ReaderAction::Forward);
    let line = format_log_line(false, "t", name, raw);
    let event = if tx.send(line).is_ok() {
        ReaderEvent::Delivered
    } else {
        ReaderEvent::ReceiverClosed
    };
    reader_step(event)
}

#[test]
fn two_readers_of_one_pump_lose_no_line() {
    let (tx, rx) = channel::<String>();
    let stdout = tx.clone();
    let stderr = tx.clone();
    drop(tx);
    let mut sent = Vec::new();
    for i in 0..10 {
        let out = format!("out {}", i);
        let err = format!("err {}", i);
        assert_eq!(forward(&stdout, "web", &out), ReaderAction::ReadNext);
        assert_eq!(forward(&stderr, "web", &err), ReaderAction::ReadNext);
        sent.push(format!("[t | web] {}", out));
        sent.push(format!("[t | web] {}", err));
    }
    drop(stdout);
    drop(stderr);
    let drained: Vec<String> = rx.iter().collect();
    assert_eq!(drained, sent);
}

#[test]
fn readers_stop_at_the_first_send_after_the_receiver_is_gone() {
    let (tx, rx) = channel::<String>();
    assert_eq!(forward(&tx, "web", "first"), ReaderAction::ReadNext);
    assert_eq!(rx.recv().unwrap(), "[t | web] first");
    drop(rx);
    assert_eq!(forward(&tx, "web", "second"), ReaderAction::Stop);
}
