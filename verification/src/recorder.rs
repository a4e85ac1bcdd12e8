//! The recorder's side of a capture session: what it keeps of a running
//! recording, what it answers to each command, and what it reports while it
//! records.
//!
//! The capture pipeline itself belongs to the program around this library.
//! It is told here what to launch and when to finish, and tells back how that
//! went.

use vstd::prelude::*;
use crate::messages::{
    decode_text, line_read, parse_recorder_command, recorder_command_of, DecodeError,
};
use crate::numeral::{signed_literal, write_signed};
use crate::text::{decimal, owned, push_decimal};
use crate::types::{
    CaptureRegion, ErrorKind, RecorderCommand, RecorderCommandView, RecorderEvent,
    RecorderEventView,
};

verus! {

/// How long the reporter sleeps between two progress events, in milliseconds.
pub const REPORT_INTERVAL_MS: u64 = 500;

/// After how many progress events the reporter gives up, so that a recording
/// whose end was never signalled does not report for ever: one hour's worth.
pub const REPORT_LIMIT: u32 = 7200;

/// How long the recorder waits for its pipeline to finish the file, in
/// milliseconds.
pub const FINALIZE_WAIT_MS: u64 = 5000;

/// Why the recorder could not do what it was asked.
#[derive(Clone, Copy, Debug, PartialEq, Eq, Structural)]
pub enum RecorderFault {
    /// A stop was asked while nothing records.
    NoActiveRecording,
    /// The running recording has no output path.
    NoActivePath,
    /// The region to capture is empty or reaches beyond the addressable screen.
    InvalidDimensions,
}

/// The words that describe a fault.
pub open spec fn fault_text(fault: RecorderFault) -> Seq<char> {
    match fault {
        RecorderFault::NoActiveRecording => "No active recording"@,
        RecorderFault::NoActivePath => "No active path"@,
        RecorderFault::InvalidDimensions => "Invalid dimensions"@,
    }
}

impl RecorderFault {
    /// The words that describe the error.
    pub fn message(&self) -> (s: String)
        ensures
            s@ == fault_text(*self),
    {
        match self {
            RecorderFault::NoActiveRecording => owned("No active recording"),
            RecorderFault::NoActivePath => owned("No active path"),
            RecorderFault::InvalidDimensions => owned("Invalid dimensions"),
        }
    }
}

/// The time from `start` to `now`, in milliseconds: zero where nothing has
/// started, and zero where the clock reads less than at the start.
pub open spec fn elapsed(start: Option<u64>, now: u64) -> u64 {
    match start {
        Some(t) => if now >= t {
            (now - t) as u64
        } else {
            0
        },
        None => 0,
    }
}

/// What the recorder keeps of its recording.
#[derive(Debug, PartialEq, Eq)]
pub struct RecorderState {
    /// Whether a pipeline runs.
    pub running: bool,
    pub output_path: Option<String>,
    /// When the recording started, in milliseconds.
    pub start_time: Option<u64>,
}

/// The view of `RecorderState`: its path as a sequence of characters.
pub struct RecorderStateView {
    pub running: bool,
    pub output_path: Option<Seq<char>>,
    pub start_time: Option<u64>,
}

impl View for RecorderState {
    type V = RecorderStateView;

    open spec fn view(&self) -> RecorderStateView {
        RecorderStateView {
            running: self.running,
            output_path: match self.output_path {
                Some(p) => Some(p@),
                None => None,
            },
            start_time: self.start_time,
        }
    }
}

/// The state of a recorder that does not record.
pub open spec fn at_rest() -> RecorderStateView {
    RecorderStateView { running: false, output_path: None, start_time: None }
}

/// What `RecorderState::stop` returns and leaves behind: the pipeline, the
/// path and the start time are let go together, and the duration and the path
/// are handed back. Without a path nothing is let go.
pub open spec fn state_stopped(s: RecorderStateView, now: u64) -> (
    RecorderStateView,
    Result<(u64, Seq<char>), RecorderFault>,
) {
    match s.output_path {
        Some(path) => (at_rest(), Ok((elapsed(s.start_time, now), path))),
        None => (s, Err(RecorderFault::NoActivePath)),
    }
}

/// What `stop_pipeline` returns and leaves behind.
pub open spec fn pipeline_stopped(s: RecorderStateView, now: u64) -> (
    RecorderStateView,
    Result<(u64, Seq<char>), RecorderFault>,
) {
    if s.running {
        state_stopped(RecorderStateView { running: false, ..s }, now)
    } else {
        (s, Err(RecorderFault::NoActiveRecording))
    }
}

/// Whether a duration and a path, or the fault in their place, are the
/// expected ones.
pub open spec fn stopped_is(
    r: Result<(u64, String), RecorderFault>,
    expected: Result<(u64, Seq<char>), RecorderFault>,
) -> bool {
    match expected {
        Ok((ms, path)) => r matches Ok(found) && found.0 == ms && found.1@ == path,
        Err(fault) => r == Err::<(u64, String), RecorderFault>(fault),
    }
}

impl RecorderState {
    /// The state of a recorder that does not record.
    pub fn new() -> (s: RecorderState)
        ensures
            s@ == at_rest(),
    {
        RecorderState { running: false, output_path: None, start_time: None }
    }

    /// Notes that a pipeline runs since `now_ms` and writes to `path`.
    pub fn set_running(&mut self, path: String, now_ms: u64)
        ensures
            final(self)@ == (RecorderStateView {
                running: true,
                output_path: Some(path@),
                start_time: Some(now_ms),
            }),
    {
        self.running = true;
        self.output_path = Some(path);
        self.start_time = Some(now_ms);
    }

    /// How long the recording has run at the time `now_ms`.
    pub fn elapsed_ms(&self, now_ms: u64) -> (ms: u64)
        ensures
            ms == elapsed(self@.start_time, now_ms),
    {
        match self.start_time {
            Some(t) => if now_ms >= t {
                now_ms - t
            } else {
                0
            },
            None => 0,
        }
    }

    /// Forgets the recording, its pipeline, its path and its start time
    /// together, and hands back how long it ran and where it was written.
    /// Without an output path nothing is forgotten.
    pub fn stop(&mut self, now_ms: u64) -> (r: Result<(u64, String), RecorderFault>)
        ensures
            final(self)@ == state_stopped(old(self)@, now_ms).0,
            stopped_is(r, state_stopped(old(self)@, now_ms).1),
    {
        let duration = self.elapsed_ms(now_ms);
        let path = match self.output_path.take() {
            Some(p) => p,
            None => {
                return Err(RecorderFault::NoActivePath);
            },
        };
        self.running = false;
        self.start_time = None;
        Ok((duration, path))
    }
}

/// Ends the bookkeeping of a running recording: the pipeline is no longer
/// held, and the duration and the path are handed back.
pub fn stop_pipeline(state: &mut RecorderState, now_ms: u64) -> (r: Result<
    (u64, String),
    RecorderFault,
>)
    ensures
        final(state)@ == pipeline_stopped(old(state)@, now_ms).0,
        stopped_is(r, pipeline_stopped(old(state)@, now_ms).1),
{
    if !state.running {
        return Err(RecorderFault::NoActiveRecording);
    }
    state.running = false;
    state.stop(now_ms)
}

/// A second stop finds nothing to stop: one recording is stopped once.
pub proof fn stopped_once(s: RecorderStateView, first: u64, second: u64)
    ensures
        pipeline_stopped(pipeline_stopped(s, first).0, second) == (
            pipeline_stopped(s, first).0,
            Err::<(u64, Seq<char>), RecorderFault>(RecorderFault::NoActiveRecording),
        ),
{
}

/// How a truth value is written in a pipeline description.
pub open spec fn truth_text(b: bool) -> Seq<char> {
    if b {
        "true"@
    } else {
        "false"@
    }
}

/// The launch description of the capture pipeline: the screen source cut to
/// the region, the frame rate, the video encoder, the container and the file.
pub open spec fn pipeline_text(region: CaptureRegion, fps: u32, cursor: bool, out: Seq<char>) -> Seq<
    char,
> {
    "ximagesrc startx="@ + signed_literal(region.x as int) + " starty="@ + signed_literal(
        region.y as int,
    ) + " endx="@ + signed_literal(region.last_x()) + " endy="@ + signed_literal(region.last_y())
        + " use-damage=false show-pointer="@ + truth_text(cursor) + " ! video/x-raw,framerate="@
        + decimal(fps as nat)
        + "/1 ! videoconvert ! video/x-raw,format=I420 ! x264enc speed-preset=ultrafast tune=zerolatency ! h264parse ! qtmux name=mux ! filesink location="@
        + out + " sync=false"@
}

/// Writes the launch description of the capture pipeline.
pub fn pipeline_description(region: &CaptureRegion, fps: u32, cursor: bool, out: &str) -> (s:
    String)
    ensures
        s@ == pipeline_text(*region, fps, cursor, out@),
{
    let mut s = owned("ximagesrc startx=");
    s.append(write_signed(region.x as i64).as_str());
    s.append(" starty=");
    s.append(write_signed(region.y as i64).as_str());
    s.append(" endx=");
    s.append(write_signed(region.x as i64 + region.width as i64 - 1).as_str());
    s.append(" endy=");
    s.append(write_signed(region.y as i64 + region.height as i64 - 1).as_str());
    s.append(" use-damage=false show-pointer=");
    if cursor {
        s.append("true");
    } else {
        s.append("false");
    }
    s.append(" ! video/x-raw,framerate=");
    push_decimal(&mut s, fps as u64);
    s.append(
        "/1 ! videoconvert ! video/x-raw,format=I420 ! x264enc speed-preset=ultrafast tune=zerolatency ! h264parse ! qtmux name=mux ! filesink location=",
    );
    s.append(out);
    s.append(" sync=false");
    s
}

/// What the recorder is to do about a command.
#[derive(Debug, PartialEq, Eq)]
pub enum RecorderAction {
    /// Nothing: a start while a recording runs and a stop while nothing
    /// records are acknowledged in silence.
    Nothing,
    /// Write the event.
    Emit(RecorderEvent),
    /// Launch the pipeline so described, which writes to `path`, then tell
    /// `launched` how it went.
    Launch { description: String, path: String },
    /// Finish the file, then tell `finalized` how it went.
    Finalize { duration_ms: u64, path: String },
}

/// The view of `RecorderAction`: its strings as sequences of characters.
pub enum RecorderActionView {
    Nothing,
    Emit(RecorderEventView),
    Launch { description: Seq<char>, path: Seq<char> },
    Finalize { duration_ms: u64, path: Seq<char> },
}

impl View for RecorderAction {
    type V = RecorderActionView;

    open spec fn view(&self) -> RecorderActionView {
        match *self {
            RecorderAction::Nothing => RecorderActionView::Nothing,
            RecorderAction::Emit(e) => RecorderActionView::Emit(e@),
            RecorderAction::Launch { description, path } => RecorderActionView::Launch {
                description: description@,
                path: path@,
            },
            RecorderAction::Finalize { duration_ms, path } => RecorderActionView::Finalize {
                duration_ms,
                path: path@,
            },
        }
    }
}

/// The event that reports a failure.
pub open spec fn failure(kind: ErrorKind, hint: Seq<char>) -> RecorderActionView {
    RecorderActionView::Emit(RecorderEventView::Error { kind, hint })
}

/// What a command does: the state it leaves and the action it asks for.
///
/// A line that is no command is refused as invalid input. A start with an
/// invalid region is refused; a start while a recording runs changes nothing;
/// any other start asks for the pipeline to be launched. A stop while a
/// recording runs ends the bookkeeping and asks for the file to be finished;
/// a stop while nothing records changes nothing and asks for nothing, so that
/// of two stops only the first has an effect.
pub open spec fn command_handled(
    s: RecorderStateView,
    command: Result<RecorderCommandView, DecodeError>,
    now: u64,
) -> (RecorderStateView, RecorderActionView) {
    match command {
        Err(e) => (s, failure(ErrorKind::InvalidInput, decode_text(e))),
        Ok(RecorderCommandView::Start { region, fps, cursor, out }) => if !region.valid() {
            (s, failure(ErrorKind::InvalidInput, "Bad dimensions"@))
        } else if s.running {
            (s, RecorderActionView::Nothing)
        } else {
            (
                s,
                RecorderActionView::Launch {
                    description: pipeline_text(region, fps, cursor, out),
                    path: out,
                },
            )
        },
        Ok(RecorderCommandView::Stop) => if !s.running {
            (s, RecorderActionView::Nothing)
        } else {
            match pipeline_stopped(s, now).1 {
                Ok((duration_ms, path)) => (
                    pipeline_stopped(s, now).0,
                    RecorderActionView::Finalize { duration_ms, path },
                ),
                Err(fault) => (
                    pipeline_stopped(s, now).0,
                    failure(ErrorKind::IoError, fault_text(fault)),
                ),
            }
        },
    }
}

/// Decides what to do about a command that was read, or about the failure to
/// read one.
pub fn on_command(
    command: Result<RecorderCommand, DecodeError>,
    state: &mut RecorderState,
    now_ms: u64,
) -> (action: RecorderAction)
    ensures
        (final(state)@, action@) == command_handled(
            old(state)@,
            match command {
                Ok(c) => Ok(c@),
                Err(e) => Err(e),
            },
            now_ms,
        ),
{
    match command {
        Err(e) => RecorderAction::Emit(
            RecorderEvent::Error { kind: ErrorKind::InvalidInput, hint: e.message() },
        ),
        Ok(RecorderCommand::Start { region, fps, cursor, out }) => {
            if !region.is_valid() {
                RecorderAction::Emit(
                    RecorderEvent::Error {
                        kind: ErrorKind::InvalidInput,
                        hint: owned("Bad dimensions"),
                    },
                )
            } else if state.running {
                RecorderAction::Nothing
            } else {
                let description = pipeline_description(&region, fps, cursor, out.as_str());
                RecorderAction::Launch { description, path: out }
            }
        },
        Ok(RecorderCommand::Stop) => {
            if !state.running {
                RecorderAction::Nothing
            } else {
                match stop_pipeline(state, now_ms) {
                    Ok((duration_ms, path)) => RecorderAction::Finalize { duration_ms, path },
                    Err(fault) => RecorderAction::Emit(
                        RecorderEvent::Error { kind: ErrorKind::IoError, hint: fault.message() },
                    ),
                }
            }
        },
    }
}

/// Of two stops only the first has an effect: whatever the state and the
/// times, a stop that follows a stop leaves the state as it is and asks for
/// nothing, so no second terminal event is written.
pub proof fn second_stop_does_nothing(s: RecorderStateView, first: u64, second: u64)
    ensures
        ({
            let after = command_handled(s, Ok(RecorderCommandView::Stop), first).0;
            command_handled(after, Ok(RecorderCommandView::Stop), second) == (
                after,
                RecorderActionView::Nothing,
            )
        }),
{
}

/// After a stop nothing records, whatever recorded before: the pipeline and
/// the start time are let go together.
pub proof fn stop_lets_go(s: RecorderStateView, now: u64)
    ensures
        !command_handled(s, Ok(RecorderCommandView::Stop), now).0.running,
        s.running && s.output_path is Some ==> command_handled(
            s,
            Ok(RecorderCommandView::Stop),
            now,
        ).0 == at_rest(),
{
}

/// Decides what to do about one line of the recorder's input.
pub fn handle_cmd(line: &str, state: &mut RecorderState, now_ms: u64) -> (action: RecorderAction)
    ensures
        (final(state)@, action@) == command_handled(
            old(state)@,
            line_read(line@, |t: crate::json::JsonView| recorder_command_of(t)),
            now_ms,
        ),
{
    let command = parse_recorder_command(line);
    on_command(command, state, now_ms)
}

/// What follows the launch of a pipeline: on success the recording is noted
/// as running since `now` and `Started` is reported; on failure the state
/// stays and the error is reported with the words of the failure.
pub open spec fn launch_reported(
    s: RecorderStateView,
    path: Seq<char>,
    failure: Option<Seq<char>>,
    now: u64,
) -> (RecorderStateView, RecorderEventView) {
    match failure {
        None => (
            RecorderStateView { running: true, output_path: Some(path), start_time: Some(now) },
            RecorderEventView::Started { pts_ms: 0 },
        ),
        Some(hint) => (s, RecorderEventView::Error { kind: ErrorKind::IoError, hint }),
    }
}

/// Takes note of how the launch of a pipeline went, and says what to report.
pub fn launched(state: &mut RecorderState, path: String, failure: Option<String>, now_ms: u64) -> (e:
    RecorderEvent)
    ensures
        (final(state)@, e@) == launch_reported(
            old(state)@,
            path@,
            match failure {
                Some(hint) => Some(hint@),
                None => None,
            },
            now_ms,
        ),
{
    match failure {
        None => {
            state.set_running(path, now_ms);
            RecorderEvent::Started { pts_ms: 0 }
        },
        Some(hint) => RecorderEvent::Error { kind: ErrorKind::IoError, hint },
    }
}

/// How the wait for the end of the file went.
#[derive(Clone, Copy, Debug, PartialEq, Eq, Structural)]
pub enum FinalizeOutcome {
    /// The pipeline reported the end of the stream: the file is complete.
    Finalized,
    /// The pipeline reported an error instead.
    PipelineError,
    /// Nothing was reported in time.
    TimedOut,
    /// The pipeline could not be listened to.
    NoBus,
}

/// What the recorder reports once it has stopped.
#[derive(Debug, PartialEq, Eq)]
pub struct StopReport {
    pub event: RecorderEvent,
    /// The file was not seen to be complete: the report is not to be taken
    /// for a full success, and the reason is to be logged.
    pub provisional: bool,
}

/// The report of a stop. Where the pipeline could not be shut down, the
/// report is an error with the words of that failure. Otherwise it is
/// `Stopped` with the duration and the path, provisional unless the file was
/// seen to be complete.
pub open spec fn stop_reported(
    duration_ms: u64,
    path: Seq<char>,
    outcome: FinalizeOutcome,
    shutdown_failure: Option<Seq<char>>,
) -> (RecorderEventView, bool) {
    match shutdown_failure {
        Some(hint) => (RecorderEventView::Error { kind: ErrorKind::IoError, hint }, true),
        None => (
            RecorderEventView::Stopped { duration_ms, path },
            outcome != FinalizeOutcome::Finalized,
        ),
    }
}

/// Says what to report after the file was finished, or was not.
pub fn finalized(
    duration_ms: u64,
    path: String,
    outcome: FinalizeOutcome,
    shutdown_failure: Option<String>,
) -> (r: StopReport)
    ensures
        (r.event@, r.provisional) == stop_reported(
            duration_ms,
            path@,
            outcome,
            match shutdown_failure {
                Some(hint) => Some(hint@),
                None => None,
            },
        ),
{
    match shutdown_failure {
        Some(hint) => StopReport {
            event: RecorderEvent::Error { kind: ErrorKind::IoError, hint },
            provisional: true,
        },
        None => {
            let complete = match outcome {
                FinalizeOutcome::Finalized => true,
                _ => false,
            };
            StopReport { event: RecorderEvent::Stopped { duration_ms, path }, provisional: !complete }
        },
    }
}

/// What the reporter emits at its `tick`-th waking, counted from one: the
/// progress of the recording while one runs and the limit is not passed,
/// else nothing, and the reporter ends.
pub open spec fn progress_at(s: RecorderStateView, tick: u32, now: u64) -> Option<
    RecorderEventView,
> {
    if 1 <= tick <= REPORT_LIMIT && s.running {
        Some(RecorderEventView::Progress { pts_ms: elapsed(s.start_time, now) })
    } else {
        None
    }
}

/// The progress event of the reporter's `tick`-th waking, or nothing where
/// the reporter is to end.
pub fn report_progress(state: &RecorderState, tick: u32, now_ms: u64) -> (r: Option<RecorderEvent>)
    ensures
        match progress_at(state@, tick, now_ms) {
            Some(e) => r is Some && r->0@ == e,
            None => r is None,
        },
{
    if tick >= 1 && tick <= REPORT_LIMIT && state.running {
        Some(RecorderEvent::Progress { pts_ms: state.elapsed_ms(now_ms) })
    } else {
        None
    }
}

/// The reporter never emits more than `REPORT_LIMIT` events.
pub proof fn reporter_is_bounded(s: RecorderStateView, tick: u32, now: u64)
    requires
        tick > REPORT_LIMIT,
    ensures
        progress_at(s, tick, now) is None,
{
}

/// One recording, from its start to its stop.
#[derive(Debug, PartialEq, Eq)]
pub struct Recorder {
    start_time: u64,
}

impl Recorder {
    /// When the recording started, in milliseconds.
    pub closed spec fn started_at(&self) -> u64 {
        self.start_time
    }

    /// Starts a recording of `region` at the time `now_ms`: hands back the
    /// recording and the description of the pipeline to launch for it. An
    /// invalid region is refused.
    pub fn start(region: &CaptureRegion, fps: u32, cursor: bool, out: &str, now_ms: u64) -> (r:
        Result<(Recorder, String), RecorderFault>)
        ensures
            region.valid() ==> (r matches Ok(started) && started.0.started_at() == now_ms
                && started.1@ == pipeline_text(*region, fps, cursor, out@)),
            !region.valid() ==> r == Err::<(Recorder, String), RecorderFault>(
                RecorderFault::InvalidDimensions,
            ),
    {
        if !region.is_valid() {
            return Err(RecorderFault::InvalidDimensions);
        }
        Ok((Recorder { start_time: now_ms }, pipeline_description(region, fps, cursor, out)))
    }

    /// How long the recording has run at the time `now_ms`.
    pub fn duration_ms(&self, now_ms: u64) -> (ms: u64)
        ensures
            ms == elapsed(Some(self.started_at()), now_ms),
    {
        if now_ms >= self.start_time {
            now_ms - self.start_time
        } else {
            0
        }
    }

    /// Ends the recording at the time `now_ms`, after the wait for the end of
    /// the file went as `outcome` says: hands back the duration, and whether
    /// it is provisional because the file was not seen to be complete.
    pub fn stop(self, now_ms: u64, outcome: FinalizeOutcome) -> (r: (u64, bool))
        ensures
            r.0 == elapsed(Some(self.started_at()), now_ms),
            r.1 == (outcome != FinalizeOutcome::Finalized),
    {
        let complete = match outcome {
            FinalizeOutcome::Finalized => true,
            _ => false,
        };
        (self.duration_ms(now_ms), !complete)
    }
}

/// What a recorder for a platform without capture answers: a start is
/// answered with an error that names the platform's lack, anything else with
/// silence.
pub open spec fn unsupported_answer(
    command: Result<RecorderCommandView, DecodeError>,
    hint: Seq<char>,
) -> Option<RecorderEventView> {
    match command {
        Ok(RecorderCommandView::Start { .. }) => Some(
            RecorderEventView::Error { kind: ErrorKind::UnsupportedPlatform, hint },
        ),
        _ => None,
    }
}

/// The answer of a recorder for a platform without capture.
pub fn answer_unsupported(command: Result<RecorderCommand, DecodeError>, hint: &str) -> (r: Option<
    RecorderEvent,
>)
    ensures
        match unsupported_answer(
            match command {
                Ok(c) => Ok(c@),
                Err(e) => Err(e),
            },
            hint@,
        ) {
            Some(e) => r is Some && r->0@ == e,
            None => r is None,
        },
{
    match command {
        Ok(RecorderCommand::Start { .. }) => Some(
            RecorderEvent::Error { kind: ErrorKind::UnsupportedPlatform, hint: owned(hint) },
        ),
        _ => None,
    }
}

} // verus!
