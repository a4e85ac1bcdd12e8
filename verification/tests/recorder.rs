use mandygif::controller::{clock, use_recorder, window_region, AppMode, AppState};
use mandygif::recorder::{
    answer_unsupported, finalized, handle_cmd, launched, on_command, pipeline_description,
    report_progress, stop_pipeline, FinalizeOutcome, Recorder, RecorderAction, RecorderFault,
    RecorderState, StopReport, FINALIZE_WAIT_MS, REPORT_INTERVAL_MS, REPORT_LIMIT,
};
use mandygif::{
    CaptureRegion, DecodeError, EncoderCommand, ErrorKind, LoopMode, RecorderCommand,
    RecorderEvent, TrimRange, PROTOCOL_VERSION,
};

const START: &str = "{\"cmd\":\"start\",\"region\":{\"x\":128,\"y\":96,\"width\":640,\"height\":360},\"fps\":30,\"cursor\":true,\"out\":\"/tmp/clip.mp4\"}";

const PIPELINE: &str = "ximagesrc startx=128 starty=96 endx=767 endy=455 use-damage=false show-pointer=true ! video/x-raw,framerate=30/1 ! videoconvert ! video/x-raw,format=I420 ! x264enc speed-preset=ultrafast tune=zerolatency ! h264parse ! qtmux name=mux ! filesink location=/tmp/clip.mp4 sync=false";

fn error(kind: ErrorKind, hint: &str) -> RecorderAction {
    RecorderAction::Emit(RecorderEvent::Error { kind, hint: hint.to_string() })
}

#[test]
fn the_protocol_has_a_version() {
    assert_eq!(PROTOCOL_VERSION, 1);
}

#[test]
fn the_pipeline_is_cut_to_the_region() {
    let region = CaptureRegion { x: 128, y: 96, width: 640, height: 360 };
    assert_eq!(pipeline_description(&region, 30, true, "/tmp/clip.mp4"), PIPELINE);
    let left = CaptureRegion { x: -1920, y: -10, width: 1, height: 1 };
    assert!(pipeline_description(&left, 60, false, "o")
        .starts_with("ximagesrc startx=-1920 starty=-10 endx=-1920 endy=-10 use-damage=false show-pointer=false ! video/x-raw,framerate=60/1 !"));
    assert!(region.is_valid());
    assert!(!CaptureRegion { x: 0, y: 0, width: 0, height: 1 }.is_valid());
    assert!(!CaptureRegion { x: 0, y: 0, width: 1, height: 0 }.is_valid());
    assert!(!CaptureRegion { x: 1, y: 0, width: i32::MAX as u32 + 1, height: 1 }.is_valid());
    assert!(CaptureRegion { x: 0, y: 0, width: i32::MAX as u32 + 1, height: 1 }.is_valid());
}

#[test]
fn the_state_keeps_one_recording() {
    let mut state = RecorderState::new();
    assert_eq!(state, RecorderState { running: false, output_path: None, start_time: None });
    assert_eq!(state.elapsed_ms(5), 0);
    assert_eq!(state.stop(5), Err(RecorderFault::NoActivePath));
    state.set_running("/tmp/a.mp4".to_string(), 1_000);
    assert_eq!(
        state,
        RecorderState {
            running: true,
            output_path: Some("/tmp/a.mp4".to_string()),
            start_time: Some(1_000),
        }
    );
    assert_eq!(state.elapsed_ms(1_250), 250);
    assert_eq!(state.elapsed_ms(999), 0);
    assert_eq!(state.stop(4_000), Ok((3_000, "/tmp/a.mp4".to_string())));
    assert_eq!(state, RecorderState { running: false, output_path: None, start_time: None });
    assert_eq!(state.stop(4_001), Err(RecorderFault::NoActivePath));
    let mut odd = RecorderState { running: true, output_path: None, start_time: Some(7) };
    assert_eq!(odd.stop(9), Err(RecorderFault::NoActivePath));
    assert_eq!(odd, RecorderState { running: true, output_path: None, start_time: Some(7) });
}

#[test]
fn stopping_ends_the_bookkeeping() {
    let mut state = RecorderState::new();
    assert_eq!(stop_pipeline(&mut state, 1), Err(RecorderFault::NoActiveRecording));
    state.set_running("/tmp/a.mp4".to_string(), 10);
    assert_eq!(stop_pipeline(&mut state, 25), Ok((15, "/tmp/a.mp4".to_string())));
    assert_eq!(state, RecorderState::new());
    assert_eq!(stop_pipeline(&mut state, 30), Err(RecorderFault::NoActiveRecording));
    let mut odd = RecorderState { running: true, output_path: None, start_time: Some(1) };
    assert_eq!(stop_pipeline(&mut odd, 30), Err(RecorderFault::NoActivePath));
    assert!(!odd.running);
    assert_eq!(RecorderFault::NoActiveRecording.message(), "No active recording");
    assert_eq!(RecorderFault::NoActivePath.message(), "No active path");
    assert_eq!(RecorderFault::InvalidDimensions.message(), "Invalid dimensions");
}

#[test]
fn commands_become_actions() {
    let mut state = RecorderState::new();
    assert_eq!(
        handle_cmd(START, &mut state, 0),
        RecorderAction::Launch {
            description: PIPELINE.to_string(),
            path: "/tmp/clip.mp4".to_string()
        }
    );
    assert_eq!(state, RecorderState::new());
    assert_eq!(
        launched(&mut state, "/tmp/clip.mp4".to_string(), None, 100),
        RecorderEvent::Started { pts_ms: 0 }
    );
    assert!(state.running);
    assert_eq!(handle_cmd(START, &mut state, 150), RecorderAction::Nothing);
    assert_eq!(
        handle_cmd("{\"cmd\":\"stop\"}", &mut state, 2_100),
        RecorderAction::Finalize { duration_ms: 2_000, path: "/tmp/clip.mp4".to_string() }
    );
    assert_eq!(state, RecorderState::new());
    assert_eq!(handle_cmd("{\"cmd\":\"stop\"}", &mut state, 2_200), RecorderAction::Nothing);
    assert_eq!(handle_cmd("{\"cmd\":\"stop\"}", &mut state, 2_300), RecorderAction::Nothing);
    assert_eq!(state, RecorderState::new());
}

#[test]
fn a_stop_before_any_start_does_nothing() {
    let mut state = RecorderState::new();
    assert_eq!(handle_cmd("{\"cmd\":\"stop\"}", &mut state, 5), RecorderAction::Nothing);
    assert_eq!(state, RecorderState::new());
}

#[test]
fn a_recording_without_a_path_ends_with_one_error() {
    let mut odd = RecorderState { running: true, output_path: None, start_time: Some(1) };
    assert_eq!(
        on_command(Ok(RecorderCommand::Stop), &mut odd, 30),
        error(ErrorKind::IoError, "No active path")
    );
    assert!(!odd.running);
    assert_eq!(on_command(Ok(RecorderCommand::Stop), &mut odd, 31), RecorderAction::Nothing);
}

#[test]
fn bad_commands_become_errors() {
    let mut state = RecorderState::new();
    let empty = "{\"cmd\":\"start\",\"region\":{\"x\":0,\"y\":0,\"width\":0,\"height\":360},\"fps\":30,\"out\":\"o\"}";
    assert_eq!(handle_cmd(empty, &mut state, 0), error(ErrorKind::InvalidInput, "Bad dimensions"));
    assert_eq!(
        handle_cmd("hello", &mut state, 0),
        error(ErrorKind::InvalidInput, "line is not JSON")
    );
    assert_eq!(
        handle_cmd("{\"cmd\":\"pause\"}", &mut state, 0),
        error(ErrorKind::InvalidInput, "unknown message variant")
    );
    assert_eq!(
        on_command(Err(DecodeError::Schema), &mut state, 0),
        error(ErrorKind::InvalidInput, "message does not match its schema")
    );
    state.set_running("p".to_string(), 0);
    assert_eq!(
        handle_cmd("hello", &mut state, 1),
        error(ErrorKind::InvalidInput, "line is not JSON")
    );
    assert!(state.running);
    stop_pipeline(&mut state, 2).unwrap();
    assert_eq!(state, RecorderState::new());
}

#[test]
fn a_failed_launch_is_reported() {
    let mut state = RecorderState::new();
    assert_eq!(
        launched(&mut state, "o".to_string(), Some("no element ximagesrc".to_string()), 5),
        RecorderEvent::Error { kind: ErrorKind::IoError, hint: "no element ximagesrc".to_string() }
    );
    assert_eq!(state, RecorderState::new());
}

#[test]
fn a_stop_is_provisional_unless_the_file_was_finished() {
    let stopped = RecorderEvent::Stopped { duration_ms: 7, path: "p".to_string() };
    assert_eq!(
        finalized(7, "p".to_string(), FinalizeOutcome::Finalized, None),
        StopReport { event: stopped.clone(), provisional: false }
    );
    for outcome in
        [FinalizeOutcome::TimedOut, FinalizeOutcome::PipelineError, FinalizeOutcome::NoBus]
    {
        assert_eq!(
            finalized(7, "p".to_string(), outcome, None),
            StopReport { event: stopped.clone(), provisional: true }
        );
    }
    assert_eq!(
        finalized(7, "p".to_string(), FinalizeOutcome::Finalized, Some("busy".to_string())),
        StopReport {
            event: RecorderEvent::Error { kind: ErrorKind::IoError, hint: "busy".to_string() },
            provisional: true,
        }
    );
    assert_eq!(FINALIZE_WAIT_MS, 5000);
}

#[test]
fn progress_is_reported_while_recording_and_not_for_ever() {
    let mut state = RecorderState::new();
    assert_eq!(report_progress(&state, 1, 500), None);
    state.set_running("p".to_string(), 1_000);
    assert_eq!(report_progress(&state, 0, 1_500), None);
    assert_eq!(report_progress(&state, 1, 1_500), Some(RecorderEvent::Progress { pts_ms: 500 }));
    assert_eq!(
        report_progress(&state, REPORT_LIMIT, 3_601_000),
        Some(RecorderEvent::Progress { pts_ms: 3_600_000 })
    );
    assert_eq!(report_progress(&state, REPORT_LIMIT + 1, 3_601_500), None);
    assert_eq!(report_progress(&state, u32::MAX, 3_601_500), None);
    assert_eq!((REPORT_INTERVAL_MS, REPORT_LIMIT), (500, 7200));
    stop_pipeline(&mut state, 2_000).unwrap();
    assert_eq!(report_progress(&state, 2, 2_000), None);
}

#[test]
fn a_recording_knows_its_duration() {
    let region = CaptureRegion { x: 128, y: 96, width: 640, height: 360 };
    let (recorder, description) = Recorder::start(&region, 30, true, "/tmp/clip.mp4", 50).unwrap();
    assert_eq!(description, PIPELINE);
    assert_eq!(recorder.duration_ms(50), 0);
    assert_eq!(recorder.duration_ms(1_050), 1_000);
    assert_eq!(recorder.duration_ms(49), 0);
    assert_eq!(recorder.stop(10_383, FinalizeOutcome::Finalized), (10_333, false));
    let (recorder, _) = Recorder::start(&region, 30, true, "o", 50).unwrap();
    assert_eq!(recorder.stop(60, FinalizeOutcome::TimedOut), (10, true));
    let empty = CaptureRegion { x: 0, y: 0, width: 640, height: 0 };
    assert_eq!(
        Recorder::start(&empty, 30, true, "o", 0),
        Err(RecorderFault::InvalidDimensions)
    );
}

#[test]
fn a_platform_without_capture_says_so() {
    let start = RecorderCommand::Start {
        region: CaptureRegion { x: 0, y: 0, width: 1, height: 1 },
        fps: 1,
        cursor: false,
        out: "o".to_string(),
    };
    assert_eq!(
        answer_unsupported(Ok(start), "macOS recorder not yet implemented"),
        Some(RecorderEvent::Error {
            kind: ErrorKind::UnsupportedPlatform,
            hint: "macOS recorder not yet implemented".to_string(),
        })
    );
    assert_eq!(answer_unsupported(Ok(RecorderCommand::Stop), "x"), None);
    assert_eq!(answer_unsupported(Err(DecodeError::Syntax), "x"), None);
}

#[test]
fn the_controls_follow_the_recording() {
    let state = AppState::new();
    assert_eq!(
        state,
        AppState {
            mode: AppMode::Idle,
            region: CaptureRegion { x: 100, y: 100, width: 800, height: 600 },
            duration_ms: 0,
            rec_path: None,
            stop_armed: false,
            export_format: "gif".to_string(),
            export_fps: 15,
            export_scale: 480,
        }
    );
    let mut controls = use_recorder(state);
    assert!(!controls.stop());
    assert_eq!(controls.export(), None);
    assert_eq!(
        controls.start(10, 20, 802, 602),
        Some(CaptureRegion { x: 11, y: 21, width: 800, height: 600 })
    );
    assert_eq!(controls.state.mode, AppMode::Recording);
    assert_eq!(controls.start(10, 20, 802, 602), None);
    controls.on_event(RecorderEvent::Started { pts_ms: 0 });
    controls.on_event(RecorderEvent::Progress { pts_ms: 500 });
    assert_eq!(controls.state.duration_ms, 500);
    assert!(controls.stop());
    assert!(!controls.stop());
    controls.on_event(RecorderEvent::Stopped { duration_ms: 10_333, path: "/tmp/r.mp4".to_string() });
    assert_eq!(controls.state.mode, AppMode::Review);
    assert_eq!(controls.state.rec_path, Some("/tmp/r.mp4".to_string()));
    assert_eq!(
        controls.export(),
        Some(EncoderCommand::Gif {
            input: "/tmp/r.mp4".to_string(),
            trim: TrimRange { start_ms: 0, end_ms: 10_333 },
            fps: 15,
            scale_px: Some(480),
            loop_mode: LoopMode::Normal,
            captions: vec![],
            out: "/tmp/export.gif".to_string(),
        })
    );
    assert_eq!(controls.state.mode, AppMode::Exporting);
    controls.export_ended();
    assert_eq!(controls.state.mode, AppMode::Idle);
    controls.start(0, 0, 100, 100);
    controls.on_event(RecorderEvent::Error { kind: ErrorKind::IoError, hint: "x".to_string() });
    assert_eq!(controls.state.mode, AppMode::Idle);
    assert!(!controls.stop());
}

#[test]
fn the_window_frame_is_left_out() {
    assert_eq!(window_region(-5, 7, 10, 2), CaptureRegion { x: -4, y: 8, width: 8, height: 0 });
    assert_eq!(window_region(0, 0, 1, 0), CaptureRegion { x: 1, y: 1, width: 0, height: 0 });
    assert_eq!(
        window_region(i32::MAX, i32::MIN, u32::MAX, 3),
        CaptureRegion { x: i32::MAX, y: i32::MIN + 1, width: u32::MAX - 2, height: 1 }
    );
}

#[test]
fn durations_are_shown_as_a_clock() {
    assert_eq!(clock(0), "00:00");
    assert_eq!(clock(999), "00:00");
    assert_eq!(clock(61_000), "01:01");
    assert_eq!(clock(599_999), "09:59");
    assert_eq!(clock(3_600_000), "60:00");
    assert_eq!(clock(6_000_000), "100:00");
}
