use mandygif::session::{
    classify, handle_line, Line, Phase, Session, SessionInput, SessionOutput,
    FINALIZE_TIMEOUT_MS,
};
use mandygif::{CaptureRegion, DecodeError, ErrorKind, RecorderCommand, RecorderEvent};

fn start(width: u32, height: u32) -> SessionInput {
    SessionInput::Start {
        region: CaptureRegion { x: 128, y: 96, width, height },
        fps: 30,
        cursor: false,
        out: "/tmp/clip.mp4".to_string(),
    }
}

fn event(e: RecorderEvent) -> SessionInput {
    SessionInput::Output(Line::Event(e))
}

fn quiet(finished: bool) -> SessionOutput {
    SessionOutput {
        spawn: false,
        send: None,
        forward: None,
        provisional: false,
        kill: false,
        finished,
    }
}

fn lost() -> RecorderEvent {
    RecorderEvent::Error {
        kind: ErrorKind::IoError,
        hint: "Recorder process died unexpectedly. Check logs.".to_string(),
    }
}

fn terminal_events(session: &mut Session, inputs: Vec<(SessionInput, u64)>) -> usize {
    let mut count = 0;
    for (input, now) in inputs {
        let out = session.step(input, now);
        if let Some(e) = &out.forward {
            if e.is_terminal() {
                count += 1;
            }
        }
        assert_eq!(out.finished, session.phase().is_terminal());
    }
    count
}

#[test]
fn lines_are_sorted() {
    assert_eq!(handle_line("recorder starting"), Line::Chatter);
    assert_eq!(handle_line(""), Line::Chatter);
    assert_eq!(handle_line(" {\"event\":\"started\",\"pts_ms\":0}"), Line::Chatter);
    assert_eq!(handle_line("{\"event\":\"started\""), Line::Malformed);
    assert_eq!(handle_line("{\"event\":\"paused\"}"), Line::Malformed);
    assert_eq!(
        handle_line("{\"event\":\"started\",\"pts_ms\":0}"),
        Line::Event(RecorderEvent::Started { pts_ms: 0 })
    );
    assert_eq!(
        handle_line("{\"event\":\"stopped\",\"duration_ms\":10333,\"path\":\"/tmp/clip.mp4\"}\n"),
        Line::Event(RecorderEvent::Stopped {
            duration_ms: 10333,
            path: "/tmp/clip.mp4".to_string()
        })
    );
    assert_eq!(classify(Err(DecodeError::Syntax)), Line::Malformed);
    assert_eq!(
        classify(Ok(RecorderEvent::Progress { pts_ms: 5 })),
        Line::Event(RecorderEvent::Progress { pts_ms: 5 })
    );
}

#[test]
fn a_recording_runs_from_start_to_stopped() {
    let mut s = Session::new();
    assert_eq!(s.phase(), Phase::Idle);
    assert_eq!(
        s.step(start(640, 360), 1000),
        SessionOutput {
            spawn: true,
            send: Some(RecorderCommand::Start {
                region: CaptureRegion { x: 128, y: 96, width: 640, height: 360 },
                fps: 30,
                cursor: false,
                out: "/tmp/clip.mp4".to_string(),
            }),
            ..quiet(false)
        }
    );
    assert_eq!(s.phase(), Phase::Starting);
    assert_eq!(s.step(SessionInput::Output(Line::Chatter), 1001), quiet(false));
    assert_eq!(s.step(SessionInput::Output(Line::Malformed), 1002), quiet(false));
    assert_eq!(s.step(event(RecorderEvent::Progress { pts_ms: 1 }), 1003), quiet(false));
    assert_eq!(
        s.step(event(RecorderEvent::Started { pts_ms: 0 }), 1100),
        SessionOutput { forward: Some(RecorderEvent::Started { pts_ms: 0 }), ..quiet(false) }
    );
    assert_eq!(s.phase(), Phase::Recording);
    assert_eq!(s.step(event(RecorderEvent::Started { pts_ms: 0 }), 1101), quiet(false));
    assert_eq!(s.step(start(1, 1), 1102), quiet(false));
    assert_eq!(
        s.step(event(RecorderEvent::Progress { pts_ms: 500 }), 1600),
        SessionOutput { forward: Some(RecorderEvent::Progress { pts_ms: 500 }), ..quiet(false) }
    );
    assert_eq!(s.step(SessionInput::Tick, 99_000), quiet(false));
    assert_eq!(
        s.step(SessionInput::Stop, 3000),
        SessionOutput { send: Some(RecorderCommand::Stop), ..quiet(false) }
    );
    assert_eq!(s.phase(), Phase::Stopping);
    let stopped = RecorderEvent::Stopped { duration_ms: 1900, path: "/tmp/clip.mp4".to_string() };
    assert_eq!(
        s.step(event(stopped.clone()), 3100),
        SessionOutput { forward: Some(stopped), ..quiet(true) }
    );
    assert_eq!(s.phase(), Phase::Stopped);
    assert_eq!(s.step(SessionInput::OutputClosed, 3200), quiet(true));
    assert_eq!(s.step(start(640, 360), 3300), quiet(true));
}

#[test]
fn an_empty_region_is_refused() {
    for (w, h) in [(0, 360), (640, 0), (0, 0)] {
        let mut s = Session::new();
        assert_eq!(
            s.step(start(w, h), 0),
            SessionOutput {
                forward: Some(RecorderEvent::Error {
                    kind: ErrorKind::InvalidInput,
                    hint: "Invalid dimensions".to_string(),
                }),
                ..quiet(true)
            }
        );
        assert_eq!(s.phase(), Phase::Failed);
    }
    let mut s = Session::new();
    let beyond = SessionInput::Start {
        region: CaptureRegion { x: i32::MAX, y: 0, width: 2, height: 1 },
        fps: 1,
        cursor: true,
        out: "o".to_string(),
    };
    assert_eq!(s.step(beyond, 0).forward.map(|e| e.is_terminal()), Some(true));
    let mut s = Session::new();
    let edge = SessionInput::Start {
        region: CaptureRegion { x: i32::MAX, y: -5, width: 1, height: 1 },
        fps: 1,
        cursor: true,
        out: "o".to_string(),
    };
    assert!(s.step(edge, 0).spawn);
}

#[test]
fn a_failed_spawn_is_an_io_error() {
    let mut s = Session::new();
    s.step(start(1, 1), 0);
    assert_eq!(
        s.step(SessionInput::SpawnFailed, 1),
        SessionOutput {
            forward: Some(RecorderEvent::Error {
                kind: ErrorKind::IoError,
                hint: "Failed to spawn recorder process".to_string(),
            }),
            ..quiet(true)
        }
    );
    assert_eq!(s.phase(), Phase::Failed);
}

#[test]
fn a_recorder_that_goes_away_is_an_error() {
    for gone in [SessionInput::OutputClosed, SessionInput::ReadFailed, SessionInput::WriteFailed] {
        let mut s = Session::new();
        s.step(start(1, 1), 0);
        s.step(event(RecorderEvent::Started { pts_ms: 0 }), 1);
        assert_eq!(s.step(gone, 2), SessionOutput { forward: Some(lost()), ..quiet(true) });
        assert_eq!(s.phase(), Phase::Failed);
    }
}

#[test]
fn start_then_immediate_stop_yields_one_terminal_event() {
    let endings: Vec<Vec<(SessionInput, u64)>> = vec![
        vec![(SessionInput::OutputClosed, 3)],
        vec![(SessionInput::ReadFailed, 3)],
        vec![(SessionInput::Tick, 2 + FINALIZE_TIMEOUT_MS)],
        vec![
            (event(RecorderEvent::Started { pts_ms: 0 }), 3),
            (event(RecorderEvent::Stopped { duration_ms: 1, path: "p".to_string() }), 4),
            (event(RecorderEvent::Stopped { duration_ms: 1, path: "p".to_string() }), 5),
            (SessionInput::OutputClosed, 6),
        ],
        vec![
            (
                event(RecorderEvent::Error { kind: ErrorKind::IoError, hint: "x".to_string() }),
                3,
            ),
            (SessionInput::OutputClosed, 4),
            (SessionInput::Tick, 99_999),
        ],
        vec![(SessionInput::SpawnFailed, 3), (SessionInput::WriteFailed, 4)],
    ];
    for ending in endings {
        for (w, h) in [(640, 360), (0, 0)] {
            let mut s = Session::new();
            let mut inputs = vec![(start(w, h), 1), (SessionInput::Stop, 2)];
            inputs.extend(ending.iter().map(|(i, t)| {
                (
                    match i {
                        SessionInput::Output(Line::Event(e)) => event(e.clone()),
                        SessionInput::OutputClosed => SessionInput::OutputClosed,
                        SessionInput::ReadFailed => SessionInput::ReadFailed,
                        SessionInput::WriteFailed => SessionInput::WriteFailed,
                        SessionInput::SpawnFailed => SessionInput::SpawnFailed,
                        _ => SessionInput::Tick,
                    },
                    *t,
                )
            }));
            assert_eq!(terminal_events(&mut s, inputs), 1);
            assert!(s.phase().is_terminal());
        }
    }
}

#[test]
fn two_stops_are_one() {
    let mut s = Session::new();
    s.step(start(640, 360), 0);
    s.step(event(RecorderEvent::Started { pts_ms: 0 }), 10);
    let first = s.step(SessionInput::Stop, 20);
    assert_eq!(first.send, Some(RecorderCommand::Stop));
    assert_eq!(s.step(SessionInput::Stop, 30), quiet(false));
    assert_eq!(s.step(SessionInput::ControlClosed, 31), quiet(false));
    assert_eq!(s.phase(), Phase::Stopping);
    let stopped = RecorderEvent::Stopped { duration_ms: 10, path: "/tmp/clip.mp4".to_string() };
    let mut forwarded = vec![];
    for (input, now) in [
        (event(stopped.clone()), 40),
        (SessionInput::Stop, 41),
        (event(stopped.clone()), 42),
        (SessionInput::OutputClosed, 43),
    ] {
        if let Some(e) = s.step(input, now).forward {
            forwarded.push(e);
        }
    }
    assert_eq!(forwarded, vec![stopped]);
}

#[test]
fn a_caller_that_goes_away_stops_the_recording() {
    let mut s = Session::new();
    s.step(start(640, 360), 0);
    assert_eq!(
        s.step(SessionInput::ControlClosed, 5),
        SessionOutput { send: Some(RecorderCommand::Stop), ..quiet(false) }
    );
    assert_eq!(s.phase(), Phase::Stopping);
}

#[test]
fn a_silent_recorder_is_ended_after_the_bound() {
    let mut s = Session::new();
    s.step(start(640, 360), 1_000);
    s.step(event(RecorderEvent::Started { pts_ms: 0 }), 1_200);
    s.step(SessionInput::Stop, 4_200);
    assert_eq!(s.step(SessionInput::Tick, 4_200 + FINALIZE_TIMEOUT_MS - 1), quiet(false));
    assert_eq!(s.step(SessionInput::Tick, 0), quiet(false));
    assert_eq!(
        s.step(SessionInput::Tick, 4_200 + FINALIZE_TIMEOUT_MS),
        SessionOutput {
            forward: Some(RecorderEvent::Stopped {
                duration_ms: 3_000,
                path: "/tmp/clip.mp4".to_string(),
            }),
            provisional: true,
            kill: true,
            ..quiet(true)
        }
    );
    assert_eq!(s.phase(), Phase::Stopped);
    assert_eq!(FINALIZE_TIMEOUT_MS, 5000);
}

#[test]
fn nothing_happens_before_a_start() {
    let mut s = Session::new();
    for input in [
        SessionInput::Stop,
        SessionInput::ControlClosed,
        SessionInput::SpawnFailed,
        SessionInput::OutputClosed,
        SessionInput::ReadFailed,
        SessionInput::WriteFailed,
        SessionInput::Tick,
        SessionInput::Output(Line::Chatter),
        event(RecorderEvent::Started { pts_ms: 0 }),
    ] {
        assert_eq!(s.step(input, 1), quiet(false));
        assert_eq!(s.phase(), Phase::Idle);
    }
}

#[test]
fn started_comes_before_progress_even_after_an_early_stop() {
    let mut s = Session::new();
    s.step(start(640, 360), 0);
    s.step(SessionInput::Stop, 1);
    assert_eq!(s.phase(), Phase::Stopping);
    assert_eq!(s.step(event(RecorderEvent::Progress { pts_ms: 1 }), 2), quiet(false));
    assert_eq!(
        s.step(event(RecorderEvent::Started { pts_ms: 0 }), 3),
        SessionOutput { forward: Some(RecorderEvent::Started { pts_ms: 0 }), ..quiet(false) }
    );
    assert_eq!(s.phase(), Phase::Stopping);
    assert_eq!(
        s.step(event(RecorderEvent::Progress { pts_ms: 2 }), 4),
        SessionOutput { forward: Some(RecorderEvent::Progress { pts_ms: 2 }), ..quiet(false) }
    );
    assert_eq!(s.step(event(RecorderEvent::Started { pts_ms: 0 }), 5), quiet(false));
    assert_eq!(
        s.step(SessionInput::Tick, 1 + FINALIZE_TIMEOUT_MS),
        SessionOutput {
            forward: Some(RecorderEvent::Stopped {
                duration_ms: 0,
                path: "/tmp/clip.mp4".to_string()
            }),
            provisional: true,
            kill: true,
            ..quiet(true)
        }
    );
}
