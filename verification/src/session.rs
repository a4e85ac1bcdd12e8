//! The life of one capture session, as seen by the process that supervises
//! the recorder: a state machine from what happens to what is to be done.
//!
//! The supervisor performs the actions that a step returns: it spawns the
//! recorder, writes a command to it, hands an event to the caller, ends the
//! child. It reports back what happened next: a line of output, a request of
//! the caller, the end of the stream, the tick of a timer.

use vstd::prelude::*;
use crate::messages::{line_read, parse_recorder_event, recorder_event_of, DecodeError};
use crate::text::{chars_of, owned};
use crate::types::{
    CaptureRegion, ErrorKind, RecorderCommand, RecorderCommandView, RecorderEvent,
    RecorderEventView,
};

verus! {

/// How long a stopped recorder may take to finish its file before it is ended
/// by force, in milliseconds.
pub const FINALIZE_TIMEOUT_MS: u64 = 5000;

/// Where a session stands.
#[derive(Clone, Copy, Debug, PartialEq, Eq, Structural)]
pub enum Phase {
    /// Nothing was asked yet.
    Idle,
    /// The recorder was asked to start and has not answered.
    Starting,
    /// The recorder reported that it records.
    Recording,
    /// The recorder was asked to stop and has not answered.
    Stopping,
    /// The session ended with a recording.
    Stopped,
    /// The session ended with an error.
    Failed,
}

impl Phase {
    /// A session in a terminal phase is over: no step changes it further.
    pub open spec fn terminal(self) -> bool {
        self == Phase::Stopped || self == Phase::Failed
    }

    /// A session is live while its recorder runs.
    pub open spec fn live(self) -> bool {
        self == Phase::Starting || self == Phase::Recording || self == Phase::Stopping
    }

    /// Whether the session is over.
    pub fn is_terminal(&self) -> (r: bool)
        ensures
            r == self.terminal(),
    {
        match self {
            Phase::Stopped => true,
            Phase::Failed => true,
            _ => false,
        }
    }
}

/// What one line of the recorder's output is.
#[derive(Debug, PartialEq, Eq)]
pub enum Line {
    /// Text that does not even start like a message: diagnostics of the child.
    Chatter,
    /// Text that starts like a message and is none.
    Malformed,
    /// A message.
    Event(RecorderEvent),
}

/// The view of `Line`.
pub enum LineView {
    Chatter,
    Malformed,
    Event(RecorderEventView),
}

impl View for Line {
    type V = LineView;

    open spec fn view(&self) -> LineView {
        match *self {
            Line::Chatter => LineView::Chatter,
            Line::Malformed => LineView::Malformed,
            Line::Event(e) => LineView::Event(e@),
        }
    }
}

/// What a line is, given what the JSON reader makes of it.
pub open spec fn classified(line: Seq<char>, read: Result<RecorderEventView, DecodeError>) -> LineView {
    if line.len() == 0 || line[0] != '{' {
        LineView::Chatter
    } else {
        match read {
            Ok(e) => LineView::Event(e),
            Err(_) => LineView::Malformed,
        }
    }
}

/// Sorts a line that starts like a message by what reading it gave.
pub fn classify(read: Result<RecorderEvent, DecodeError>) -> (r: Line)
    ensures
        r@ == match read {
            Ok(e) => LineView::Event(e@),
            Err(_) => LineView::Malformed,
        },
{
    match read {
        Ok(e) => Line::Event(e),
        Err(_) => Line::Malformed,
    }
}

/// Sorts one line of the recorder's output. Only a line that starts with an
/// opening brace is read as a message; a line that is no message never ends
/// the session.
pub fn handle_line(line: &str) -> (r: Line)
    ensures
        r@ == classified(line@, line_read(line@, |t: crate::json::JsonView| recorder_event_of(t))),
{
    let first = chars_of(line);
    if first.len() == 0 || first[0] != '{' {
        return Line::Chatter;
    }
    let read = parse_recorder_event(line);
    classify(read)
}

/// What happens to a session.
#[derive(Debug, PartialEq, Eq)]
pub enum SessionInput {
    /// The caller asks for a recording.
    Start { region: CaptureRegion, fps: u32, cursor: bool, out: String },
    /// The recorder process could not be created.
    SpawnFailed,
    /// The caller asks for the end of the recording.
    Stop,
    /// The caller went away without asking for the end.
    ControlClosed,
    /// The recorder wrote a line.
    Output(Line),
    /// The recorder's output ended.
    OutputClosed,
    /// The recorder's output could not be read.
    ReadFailed,
    /// A command could not be written to the recorder.
    WriteFailed,
    /// Time has passed.
    Tick,
}

/// The view of `SessionInput`: its strings as sequences of characters.
pub enum SessionInputView {
    Start { region: CaptureRegion, fps: u32, cursor: bool, out: Seq<char> },
    SpawnFailed,
    Stop,
    ControlClosed,
    Output(LineView),
    OutputClosed,
    ReadFailed,
    WriteFailed,
    Tick,
}

impl View for SessionInput {
    type V = SessionInputView;

    open spec fn view(&self) -> SessionInputView {
        match *self {
            SessionInput::Start { region, fps, cursor, out } => SessionInputView::Start {
                region,
                fps,
                cursor,
                out: out@,
            },
            SessionInput::SpawnFailed => SessionInputView::SpawnFailed,
            SessionInput::Stop => SessionInputView::Stop,
            SessionInput::ControlClosed => SessionInputView::ControlClosed,
            SessionInput::Output(line) => SessionInputView::Output(line@),
            SessionInput::OutputClosed => SessionInputView::OutputClosed,
            SessionInput::ReadFailed => SessionInputView::ReadFailed,
            SessionInput::WriteFailed => SessionInputView::WriteFailed,
            SessionInput::Tick => SessionInputView::Tick,
        }
    }
}

/// What the supervisor is to do after a step.
#[derive(Debug, PartialEq, Eq)]
pub struct SessionOutput {
    /// Create the recorder process.
    pub spawn: bool,
    /// Write this command to the recorder, and flush.
    pub send: Option<RecorderCommand>,
    /// Hand this event to the caller.
    pub forward: Option<RecorderEvent>,
    /// The event handed on reports a recording that was not seen to finish.
    pub provisional: bool,
    /// End the recorder by force.
    pub kill: bool,
    /// The session is over: close the recorder's input and wait for it.
    pub finished: bool,
}

/// The view of `SessionOutput`.
pub struct SessionOutputView {
    pub spawn: bool,
    pub send: Option<RecorderCommandView>,
    pub forward: Option<RecorderEventView>,
    pub provisional: bool,
    pub kill: bool,
    pub finished: bool,
}

impl View for SessionOutput {
    type V = SessionOutputView;

    open spec fn view(&self) -> SessionOutputView {
        SessionOutputView {
            spawn: self.spawn,
            send: match self.send {
                Some(c) => Some(c@),
                None => None,
            },
            forward: match self.forward {
                Some(e) => Some(e@),
                None => None,
            },
            provisional: self.provisional,
            kill: self.kill,
            finished: self.finished,
        }
    }
}

/// One capture session.
#[derive(Debug)]
pub struct Session {
    phase: Phase,
    out: String,
    started: bool,
    started_at: u64,
    stop_at: u64,
}

/// The view of `Session`: what it remembers.
pub struct SessionView {
    pub phase: Phase,
    /// The file that the recording goes to.
    pub out: Seq<char>,
    /// Whether the recorder has reported that it records.
    pub started: bool,
    /// When the recording started, in milliseconds.
    pub started_at: u64,
    /// When the recorder was asked to stop, in milliseconds.
    pub stop_at: u64,
}

impl View for Session {
    type V = SessionView;

    closed spec fn view(&self) -> SessionView {
        SessionView {
            phase: self.phase,
            out: self.out@,
            started: self.started,
            started_at: self.started_at,
            stop_at: self.stop_at,
        }
    }
}

/// A step that changes nothing and asks for nothing.
pub open spec fn nothing(finished: bool) -> SessionOutputView {
    SessionOutputView {
        spawn: false,
        send: None,
        forward: None,
        provisional: false,
        kill: false,
        finished,
    }
}

/// The session stays as it is and asks for nothing.
pub open spec fn quiet(s: SessionView) -> (SessionView, SessionOutputView) {
    (s, nothing(s.phase.terminal()))
}

/// The session ends with an error event for the caller.
pub open spec fn failing(s: SessionView, kind: ErrorKind, hint: Seq<char>) -> (
    SessionView,
    SessionOutputView,
) {
    (
        SessionView { phase: Phase::Failed, ..s },
        SessionOutputView {
            forward: Some(RecorderEventView::Error { kind, hint }),
            ..nothing(true)
        },
    )
}

/// An event of the recorder is handed on to the caller.
pub open spec fn forwarding(s: SessionView, e: RecorderEventView) -> (
    SessionView,
    SessionOutputView,
) {
    (s, SessionOutputView { forward: Some(e), ..nothing(s.phase.terminal()) })
}

/// The time from the start of the recording to the request to stop it.
pub open spec fn recorded_ms(s: SessionView) -> u64 {
    if s.stop_at >= s.started_at {
        (s.stop_at - s.started_at) as u64
    } else {
        0
    }
}

/// Whether the recorder has had its time to finish the file.
pub open spec fn overdue(s: SessionView, now: u64) -> bool {
    now >= s.stop_at && now - s.stop_at >= FINALIZE_TIMEOUT_MS
}

/// What an event of the recorder does to a live session. A second `Started`
/// and a `Progress` before the first are dropped, so that the caller sees
/// `Started` before any `Progress` and both before the terminal event.
pub open spec fn on_event(s: SessionView, e: RecorderEventView, now: u64) -> (
    SessionView,
    SessionOutputView,
)
    recommends
        s.phase.live(),
{
    match e {
        RecorderEventView::Started { .. } => if s.started {
            quiet(s)
        } else {
            forwarding(
                SessionView {
                    phase: if s.phase == Phase::Starting {
                        Phase::Recording
                    } else {
                        s.phase
                    },
                    started: true,
                    started_at: now,
                    ..s
                },
                e,
            )
        },
        RecorderEventView::Progress { .. } => if s.started {
            forwarding(s, e)
        } else {
            quiet(s)
        },
        RecorderEventView::Stopped { .. } => forwarding(
            SessionView { phase: Phase::Stopped, ..s },
            e,
        ),
        RecorderEventView::Error { .. } => forwarding(SessionView { phase: Phase::Failed, ..s }, e),
    }
}

/// What a request to stop does to a live session: the first one is passed on
/// to the recorder, a later one changes nothing.
pub open spec fn on_stop(s: SessionView, now: u64) -> (SessionView, SessionOutputView)
    recommends
        s.phase.live(),
{
    if s.phase == Phase::Stopping {
        quiet(s)
    } else {
        (
            SessionView { phase: Phase::Stopping, stop_at: now, ..s },
            SessionOutputView { send: Some(RecorderCommandView::Stop), ..nothing(false) },
        )
    }
}

/// What the passing of time does: once a stopped recorder is overdue, it is
/// ended by force and the recording is reported as provisional.
pub open spec fn on_tick(s: SessionView, now: u64) -> (SessionView, SessionOutputView) {
    if s.phase == Phase::Stopping && overdue(s, now) {
        (
            SessionView { phase: Phase::Stopped, ..s },
            SessionOutputView {
                forward: Some(
                    RecorderEventView::Stopped { duration_ms: recorded_ms(s), path: s.out },
                ),
                provisional: true,
                kill: true,
                ..nothing(true)
            },
        )
    } else {
        quiet(s)
    }
}

/// The hint of the error that stands for a recorder that went away.
pub open spec fn lost_hint() -> Seq<char> {
    "Recorder process died unexpectedly. Check logs."@
}

/// One step of a session: the state after `input` at the time `now`, and what
/// the supervisor is to do.
pub open spec fn step(s: SessionView, input: SessionInputView, now: u64) -> (
    SessionView,
    SessionOutputView,
) {
    if s.phase.terminal() {
        quiet(s)
    } else if s.phase == Phase::Idle {
        match input {
            SessionInputView::Start { region, fps, cursor, out } => if region.valid() {
                (
                    SessionView {
                        phase: Phase::Starting,
                        out,
                        started: false,
                        started_at: now,
                        stop_at: now,
                    },
                    SessionOutputView {
                        spawn: true,
                        send: Some(RecorderCommandView::Start { region, fps, cursor, out }),
                        ..nothing(false)
                    },
                )
            } else {
                failing(s, ErrorKind::InvalidInput, "Invalid dimensions"@)
            },
            _ => quiet(s),
        }
    } else {
        match input {
            SessionInputView::Start { .. } => quiet(s),
            SessionInputView::SpawnFailed => if s.phase == Phase::Starting {
                failing(s, ErrorKind::IoError, "Failed to spawn recorder process"@)
            } else {
                quiet(s)
            },
            SessionInputView::Stop => on_stop(s, now),
            SessionInputView::ControlClosed => on_stop(s, now),
            SessionInputView::Output(LineView::Event(e)) => on_event(s, e, now),
            SessionInputView::Output(_) => quiet(s),
            SessionInputView::OutputClosed => failing(s, ErrorKind::IoError, lost_hint()),
            SessionInputView::ReadFailed => failing(s, ErrorKind::IoError, lost_hint()),
            SessionInputView::WriteFailed => failing(s, ErrorKind::IoError, lost_hint()),
            SessionInputView::Tick => on_tick(s, now),
        }
    }
}

fn silent(finished: bool) -> (o: SessionOutput)
    ensures
        o@ == nothing(finished),
{
    SessionOutput {
        spawn: false,
        send: None,
        forward: None,
        provisional: false,
        kill: false,
        finished,
    }
}

fn handing(e: RecorderEvent, finished: bool) -> (o: SessionOutput)
    ensures
        o@ == (SessionOutputView { forward: Some(e@), ..nothing(finished) }),
{
    SessionOutput {
        spawn: false,
        send: None,
        forward: Some(e),
        provisional: false,
        kill: false,
        finished,
    }
}

impl Session {
    /// A session of which nothing was asked yet.
    pub fn new() -> (s: Session)
        ensures
            s@.phase == Phase::Idle,
            s@ == Session::fresh(),
    {
        Session {
            phase: Phase::Idle,
            out: String::new(),
            started: false,
            started_at: 0,
            stop_at: 0,
        }
    }

    /// The state of a new session.
    pub open spec fn fresh() -> SessionView {
        SessionView {
            phase: Phase::Idle,
            out: Seq::empty(),
            started: false,
            started_at: 0,
            stop_at: 0,
        }
    }

    /// Where the session stands.
    pub fn phase(&self) -> (p: Phase)
        ensures
            p == self@.phase,
    {
        self.phase
    }

    fn fail(&mut self, kind: ErrorKind, hint: &str) -> (o: SessionOutput)
        ensures
            (final(self)@, o@) == failing(old(self)@, kind, hint@),
    {
        self.phase = Phase::Failed;
        handing(RecorderEvent::Error { kind, hint: owned(hint) }, true)
    }

    fn stop_requested(&mut self, now_ms: u64) -> (o: SessionOutput)
        requires
            old(self)@.phase.live(),
        ensures
            (final(self)@, o@) == on_stop(old(self)@, now_ms),
    {
        match self.phase {
            Phase::Stopping => silent(false),
            _ => {
                self.phase = Phase::Stopping;
                self.stop_at = now_ms;
                SessionOutput {
                    spawn: false,
                    send: Some(RecorderCommand::Stop),
                    forward: None,
                    provisional: false,
                    kill: false,
                    finished: false,
                }
            },
        }
    }

    fn event_arrived(&mut self, e: RecorderEvent, now_ms: u64) -> (o: SessionOutput)
        requires
            old(self)@.phase.live(),
        ensures
            (final(self)@, o@) == on_event(old(self)@, e@, now_ms),
    {
        match e {
            RecorderEvent::Started { pts_ms } => {
                if self.started {
                    silent(false)
                } else {
                    match self.phase {
                        Phase::Starting => {
                            self.phase = Phase::Recording;
                        },
                        _ => {},
                    }
                    self.started = true;
                    self.started_at = now_ms;
                    handing(RecorderEvent::Started { pts_ms }, false)
                }
            },
            RecorderEvent::Progress { pts_ms } => {
                if self.started {
                    handing(RecorderEvent::Progress { pts_ms }, false)
                } else {
                    silent(false)
                }
            },
            RecorderEvent::Stopped { duration_ms, path } => {
                self.phase = Phase::Stopped;
                handing(RecorderEvent::Stopped { duration_ms, path }, true)
            },
            RecorderEvent::Error { kind, hint } => {
                self.phase = Phase::Failed;
                handing(RecorderEvent::Error { kind, hint }, true)
            },
        }
    }

    fn time_passed(&mut self, now_ms: u64) -> (o: SessionOutput)
        ensures
            (final(self)@, o@) == on_tick(old(self)@, now_ms),
    {
        let waiting = match self.phase {
            Phase::Stopping => true,
            _ => false,
        };
        if waiting && now_ms >= self.stop_at && now_ms - self.stop_at >= FINALIZE_TIMEOUT_MS {
            let duration_ms = if self.stop_at >= self.started_at {
                self.stop_at - self.started_at
            } else {
                0
            };
            self.phase = Phase::Stopped;
            SessionOutput {
                spawn: false,
                send: None,
                forward: Some(RecorderEvent::Stopped { duration_ms, path: self.out.clone() }),
                provisional: true,
                kill: true,
                finished: true,
            }
        } else {
            silent(self.phase.is_terminal())
        }
    }

    /// Takes one step: `input` happened at the time `now_ms`, in milliseconds
    /// of a clock that does not run backwards.
    pub fn step(&mut self, input: SessionInput, now_ms: u64) -> (o: SessionOutput)
        ensures
            (final(self)@, o@) == step(old(self)@, input@, now_ms),
    {
        match self.phase {
            Phase::Stopped => silent(true),
            Phase::Failed => silent(true),
            Phase::Idle => match input {
                SessionInput::Start { region, fps, cursor, out } => {
                    if region.is_valid() {
                        self.phase = Phase::Starting;
                        self.out = out.clone();
                        self.started = false;
                        self.started_at = now_ms;
                        self.stop_at = now_ms;
                        SessionOutput {
                            spawn: true,
                            send: Some(RecorderCommand::Start { region, fps, cursor, out }),
                            forward: None,
                            provisional: false,
                            kill: false,
                            finished: false,
                        }
                    } else {
                        self.fail(ErrorKind::InvalidInput, "Invalid dimensions")
                    }
                },
                _ => silent(false),
            },
            _ => match input {
                SessionInput::Start { .. } => silent(false),
                SessionInput::SpawnFailed => match self.phase {
                    Phase::Starting => self.fail(
                        ErrorKind::IoError,
                        "Failed to spawn recorder process",
                    ),
                    _ => silent(false),
                },
                SessionInput::Stop => self.stop_requested(now_ms),
                SessionInput::ControlClosed => self.stop_requested(now_ms),
                SessionInput::Output(Line::Event(e)) => self.event_arrived(e, now_ms),
                SessionInput::Output(_) => silent(false),
                SessionInput::OutputClosed => self.fail(
                    ErrorKind::IoError,
                    "Recorder process died unexpectedly. Check logs.",
                ),
                SessionInput::ReadFailed => self.fail(
                    ErrorKind::IoError,
                    "Recorder process died unexpectedly. Check logs.",
                ),
                SessionInput::WriteFailed => self.fail(
                    ErrorKind::IoError,
                    "Recorder process died unexpectedly. Check logs.",
                ),
                SessionInput::Tick => self.time_passed(now_ms),
            },
        }
    }
}

/// Something that happens to a session, and when.
pub struct Happening {
    pub input: SessionInputView,
    pub now: u64,
}

/// The state of a session after all that happened, in order.
pub open spec fn run(s: SessionView, trace: Seq<Happening>) -> SessionView
    decreases trace.len(),
{
    if trace.len() == 0 {
        s
    } else {
        run(step(s, trace[0].input, trace[0].now).0, trace.skip(1))
    }
}

/// Whether a step hands a terminal event to the caller.
pub open spec fn ends_for_caller(o: SessionOutputView) -> bool {
    o.forward is Some && o.forward->0.is_terminal()
}

/// How many terminal events the caller is handed while all of `trace` happens.
pub open spec fn terminal_events(s: SessionView, trace: Seq<Happening>) -> nat
    decreases trace.len(),
{
    if trace.len() == 0 {
        0
    } else {
        let (next, o) = step(s, trace[0].input, trace[0].now);
        (if ends_for_caller(o) {
            1nat
        } else {
            0nat
        }) + terminal_events(next, trace.skip(1))
    }
}

/// How many times the recorder is asked to stop while all of `trace` happens.
pub open spec fn stops_sent(s: SessionView, trace: Seq<Happening>) -> nat
    decreases trace.len(),
{
    if trace.len() == 0 {
        0
    } else {
        let (next, o) = step(s, trace[0].input, trace[0].now);
        (if o.send == Some(RecorderCommandView::Stop) {
            1nat
        } else {
            0nat
        }) + stops_sent(next, trace.skip(1))
    }
}

/// A step hands the caller a terminal event exactly when it ends the session,
/// and a session that is over stays as it is.
pub proof fn step_ends_once(s: SessionView, input: SessionInputView, now: u64)
    ensures
        ends_for_caller(step(s, input, now).1) == (!s.phase.terminal() && step(
            s,
            input,
            now,
        ).0.phase.terminal()),
        s.phase.terminal() ==> step(s, input, now) == quiet(s),
        step(s, input, now).1.finished == step(s, input, now).0.phase.terminal(),
        s.phase != Phase::Idle ==> step(s, input, now).0.phase != Phase::Idle,
{
}

/// Whatever happens, in whatever order, the caller is handed exactly one
/// terminal event by the time the session is over, and none before: never
/// two, and never a session that ended without one.
pub proof fn one_terminal_event(s: SessionView, trace: Seq<Happening>)
    requires
        !s.phase.terminal(),
    ensures
        terminal_events(s, trace) == if run(s, trace).phase.terminal() {
            1nat
        } else {
            0nat
        },
    decreases trace.len(),
{
    if trace.len() > 0 {
        let (next, o) = step(s, trace[0].input, trace[0].now);
        step_ends_once(s, trace[0].input, trace[0].now);
        if next.phase.terminal() {
            over_stays_over(next, trace.skip(1));
        } else {
            one_terminal_event(next, trace.skip(1));
        }
    }
}

/// Nothing that happens to a session that is over changes it, reaches the
/// caller or reaches the recorder.
pub proof fn over_stays_over(s: SessionView, trace: Seq<Happening>)
    requires
        s.phase.terminal(),
    ensures
        run(s, trace) == s,
        terminal_events(s, trace) == 0,
        stops_sent(s, trace) == 0,
    decreases trace.len(),
{
    if trace.len() > 0 {
        over_stays_over(s, trace.skip(1));
    }
}

/// However often the caller asks, the recorder is asked to stop at most once,
/// and not at all once a request is under way.
pub proof fn stop_sent_once(s: SessionView, trace: Seq<Happening>)
    ensures
        stops_sent(s, trace) <= 1,
        s.phase == Phase::Stopping ==> stops_sent(s, trace) == 0,
    decreases trace.len(),
{
    if trace.len() > 0 {
        let (next, o) = step(s, trace[0].input, trace[0].now);
        stop_sent_once(next, trace.skip(1));
        if next.phase.terminal() {
            over_stays_over(next, trace.skip(1));
        }
    }
}

/// A second request to stop, whenever it comes, changes nothing and asks for
/// nothing.
pub proof fn second_stop_is_idle(s: SessionView, first: u64, second: u64)
    ensures
        ({
            let after = step(s, SessionInputView::Stop, first).0;
            step(after, SessionInputView::Stop, second) == quiet(after)
        }),
{
}

/// What happened in two parts happened as a whole.
pub proof fn run_in_parts(s: SessionView, first: Seq<Happening>, second: Seq<Happening>)
    ensures
        run(s, first + second) == run(run(s, first), second),
        terminal_events(s, first + second) == terminal_events(s, first) + terminal_events(
            run(s, first),
            second,
        ),
    decreases first.len(),
{
    if first.len() == 0 {
        assert(first + second == second);
    } else {
        let next = step(s, first[0].input, first[0].now).0;
        assert((first + second)[0] == first[0]);
        assert((first + second).skip(1) == first.skip(1) + second);
        run_in_parts(next, first.skip(1), second);
    }
}

/// A session that has left its idle phase never returns to it.
pub proof fn never_idle_again(s: SessionView, trace: Seq<Happening>)
    requires
        s.phase != Phase::Idle,
    ensures
        run(s, trace).phase != Phase::Idle,
    decreases trace.len(),
{
    if trace.len() > 0 {
        step_ends_once(s, trace[0].input, trace[0].now);
        never_idle_again(step(s, trace[0].input, trace[0].now).0, trace.skip(1));
    }
}

/// A request to start followed at once by a request to stop, then anything
/// at all, then the end of the recorder's output: the session is over, and
/// the caller was handed exactly one terminal event.
pub proof fn start_then_stop_ends_once(
    start: SessionInputView,
    started: u64,
    stopped: u64,
    rest: Seq<Happening>,
    closed: u64,
)
    requires
        start is Start,
    ensures
        ({
            let trace = seq![
                Happening { input: start, now: started },
                Happening { input: SessionInputView::Stop, now: stopped },
            ] + rest + seq![Happening { input: SessionInputView::OutputClosed, now: closed }];
            run(Session::fresh(), trace).phase.terminal() && terminal_events(
                Session::fresh(),
                trace,
            ) == 1
        }),
{
    let head = seq![
        Happening { input: start, now: started },
        Happening { input: SessionInputView::Stop, now: stopped },
    ];
    let tail = seq![Happening { input: SessionInputView::OutputClosed, now: closed }];
    let trace = head + rest + tail;
    let fresh = Session::fresh();
    let one = step(fresh, start, started).0;
    let two = step(one, SessionInputView::Stop, stopped).0;
    assert(head.skip(1) == seq![Happening { input: SessionInputView::Stop, now: stopped }]);
    assert(head.skip(1).skip(1) == Seq::<Happening>::empty());
    assert(run(one, head.skip(1)) == two) by {
        assert(run(two, head.skip(1).skip(1)) == two);
    }
    assert(run(fresh, head) == two);
    assert(two.phase != Phase::Idle);
    run_in_parts(fresh, head, rest);
    let three = run(fresh, head + rest);
    never_idle_again(two, rest);
    run_in_parts(fresh, head + rest, tail);
    assert(tail.skip(1) == Seq::<Happening>::empty());
    let four = step(three, SessionInputView::OutputClosed, closed).0;
    assert(run(three, tail) == four) by {
        assert(run(four, tail.skip(1)) == four);
    }
    assert(four.phase.terminal());
    one_terminal_event(fresh, trace);
}

/// A recorder that was asked to stop and stays silent is ended by the first
/// tick after its time is up, with a provisional report of the recording.
pub proof fn overdue_stop_is_forced(s: SessionView, now: u64)
    requires
        s.phase == Phase::Stopping,
        overdue(s, now),
    ensures
        ({
            let (next, o) = step(s, SessionInputView::Tick, now);
            next.phase == Phase::Stopped && o.kill && o.provisional && o.finished && o.forward
                == Some(RecorderEventView::Stopped { duration_ms: recorded_ms(s), path: s.out })
        }),
{
}

/// The events that the caller is handed while all of `trace` happens, in
/// order.
pub open spec fn forwarded(s: SessionView, trace: Seq<Happening>) -> Seq<RecorderEventView>
    decreases trace.len(),
{
    if trace.len() == 0 {
        Seq::empty()
    } else {
        let (next, o) = step(s, trace[0].input, trace[0].now);
        (match o.forward {
            Some(e) => seq![e],
            None => Seq::empty(),
        }) + forwarded(next, trace.skip(1))
    }
}

/// Events in the order that a session promises: `Started` only first,
/// `Progress` only after it, a terminal event only last. Where `started` is
/// set, `Started` was handed on before and does not come again.
pub open spec fn in_order(events: Seq<RecorderEventView>, started: bool) -> bool {
    forall|i: int|
        0 <= i < events.len() ==> {
            &&& (#[trigger] events[i]) is Started ==> i == 0 && !started
            &&& events[i] is Progress ==> started || (i > 0 && events[0] is Started)
            &&& events[i].is_terminal() ==> i == events.len() - 1
        }
}

/// Whatever happens, the caller is handed `Started` before any `Progress`,
/// and both before the one terminal event, after which nothing follows.
pub proof fn forwarded_in_order(s: SessionView, trace: Seq<Happening>)
    requires
        s.phase == Phase::Idle ==> !s.started,
    ensures
        in_order(forwarded(s, trace), s.started),
        s.phase.terminal() ==> forwarded(s, trace).len() == 0,
    decreases trace.len(),
{
    if trace.len() > 0 {
        let (next, o) = step(s, trace[0].input, trace[0].now);
        let rest = forwarded(next, trace.skip(1));
        forwarded_in_order(next, trace.skip(1));
        let all = forwarded(s, trace);
        match o.forward {
            Some(e) => {
                assert(all == seq![e] + rest);
                assert forall|i: int| 0 <= i < all.len() implies {
                    &&& (#[trigger] all[i]) is Started ==> i == 0 && !s.started
                    &&& all[i] is Progress ==> s.started || (i > 0 && all[0] is Started)
                    &&& all[i].is_terminal() ==> i == all.len() - 1
                } by {
                    if i > 0 {
                        assert(all[i] == rest[i - 1]);
                    }
                }
            },
            None => {
                assert(all == rest);
            },
        }
    }
}

} // verus!
