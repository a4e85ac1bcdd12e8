//! The controls of the application: what a press of record, stop or export
//! does, and what each event of the recorder shows.

use vstd::prelude::*;
use crate::export::{build_encode_cmd, encode_command};
use crate::text::{decimal, owned, padded, push_char, push_decimal, push_padded};
use crate::types::{
    CaptureRegion, EncoderCommand, EncoderCommandView, RecorderEvent, RecorderEventView,
};

verus! {

/// What the application is busy with.
#[derive(Clone, Copy, Debug, PartialEq, Eq, Structural)]
pub enum AppMode {
    Idle,
    Recording,
    /// A recording is made and waits to be exported.
    Review,
    Exporting,
}

/// What the application shows and remembers.
#[derive(Debug, PartialEq, Eq)]
pub struct AppState {
    pub mode: AppMode,
    pub region: CaptureRegion,
    pub duration_ms: u64,
    /// The file of the last recording.
    pub rec_path: Option<String>,
    /// Whether a recording runs that was not yet asked to stop.
    pub stop_armed: bool,
    pub export_format: String,
    pub export_fps: u32,
    pub export_scale: u32,
}

/// The view of `AppState`: its strings as sequences of characters.
pub struct AppStateView {
    pub mode: AppMode,
    pub region: CaptureRegion,
    pub duration_ms: u64,
    pub rec_path: Option<Seq<char>>,
    pub stop_armed: bool,
    pub export_format: Seq<char>,
    pub export_fps: u32,
    pub export_scale: u32,
}

impl View for AppState {
    type V = AppStateView;

    open spec fn view(&self) -> AppStateView {
        AppStateView {
            mode: self.mode,
            region: self.region,
            duration_ms: self.duration_ms,
            rec_path: match self.rec_path {
                Some(p) => Some(p@),
                None => None,
            },
            stop_armed: self.stop_armed,
            export_format: self.export_format@,
            export_fps: self.export_fps,
            export_scale: self.export_scale,
        }
    }
}

/// The state in which the application starts.
pub open spec fn initial_state() -> AppStateView {
    AppStateView {
        mode: AppMode::Idle,
        region: CaptureRegion { x: 100, y: 100, width: 800, height: 600 },
        duration_ms: 0,
        rec_path: None,
        stop_armed: false,
        export_format: "gif"@,
        export_fps: 15,
        export_scale: 480,
    }
}

impl AppState {
    /// The state in which the application starts.
    pub fn new() -> (s: AppState)
        ensures
            s@ == initial_state(),
    {
        AppState {
            mode: AppMode::Idle,
            region: CaptureRegion { x: 100, y: 100, width: 800, height: 600 },
            duration_ms: 0,
            rec_path: None,
            stop_armed: false,
            export_format: owned("gif"),
            export_fps: 15,
            export_scale: 480,
        }
    }
}

/// The part of the screen that lies inside the frame of a window at `x`, `y`
/// of `width` by `height` pixels: one pixel in from each edge. A window too
/// small to have an inside gives an empty region.
pub open spec fn inside_of(x: i32, y: i32, width: u32, height: u32) -> CaptureRegion {
    CaptureRegion {
        x: if x < i32::MAX {
            (x + 1) as i32
        } else {
            x
        },
        y: if y < i32::MAX {
            (y + 1) as i32
        } else {
            y
        },
        width: if width >= 2 {
            (width - 2) as u32
        } else {
            0
        },
        height: if height >= 2 {
            (height - 2) as u32
        } else {
            0
        },
    }
}

/// The part of the screen inside the frame of a window.
pub fn window_region(x: i32, y: i32, width: u32, height: u32) -> (r: CaptureRegion)
    ensures
        r == inside_of(x, y, width, height),
{
    CaptureRegion {
        x: if x < i32::MAX {
            x + 1
        } else {
            x
        },
        y: if y < i32::MAX {
            y + 1
        } else {
            y
        },
        width: if width >= 2 {
            width - 2
        } else {
            0
        },
        height: if height >= 2 {
            height - 2
        } else {
            0
        },
    }
}

/// What a press of record does. While a recording runs it does nothing;
/// otherwise the application records the inside of its window.
pub open spec fn start_pressed(s: AppStateView, x: i32, y: i32, width: u32, height: u32) -> (
    AppStateView,
    Option<CaptureRegion>,
) {
    if s.mode == AppMode::Recording {
        (s, None)
    } else {
        (
            AppStateView { mode: AppMode::Recording, duration_ms: 0, stop_armed: true, ..s },
            Some(inside_of(x, y, width, height)),
        )
    }
}

/// What a press of stop does: the first one after a start asks the session
/// to stop, any other does nothing.
pub open spec fn stop_pressed(s: AppStateView) -> (AppStateView, bool) {
    (AppStateView { stop_armed: false, ..s }, s.stop_armed)
}

/// What an event of the recorder shows.
pub open spec fn event_shown(s: AppStateView, e: RecorderEventView) -> AppStateView {
    match e {
        RecorderEventView::Started { .. } => s,
        RecorderEventView::Progress { pts_ms } => AppStateView { duration_ms: pts_ms, ..s },
        RecorderEventView::Stopped { duration_ms, path } => AppStateView {
            mode: AppMode::Review,
            duration_ms,
            rec_path: Some(path),
            stop_armed: false,
            ..s
        },
        RecorderEventView::Error { .. } => AppStateView {
            mode: AppMode::Idle,
            stop_armed: false,
            ..s
        },
    }
}

/// What a press of export does. Without a recording it does nothing;
/// otherwise the whole recording is exported in the chosen format.
pub open spec fn export_pressed(s: AppStateView) -> (AppStateView, Option<EncoderCommandView>) {
    match s.rec_path {
        None => (s, None),
        Some(path) => (
            AppStateView { mode: AppMode::Exporting, ..s },
            Some(
                encode_command(
                    path,
                    s.export_format,
                    s.export_fps,
                    (0, s.duration_ms),
                    s.export_scale,
                ),
            ),
        ),
    }
}

/// The controls of a recording, over the state of the application.
#[derive(Debug, PartialEq, Eq)]
pub struct RecorderController {
    pub state: AppState,
}

/// The controls over a state of the application.
pub fn use_recorder(state: AppState) -> (c: RecorderController)
    ensures
        c.state == state,
{
    RecorderController { state }
}

impl RecorderController {
    /// Record was pressed, with the window at `x`, `y` and of `width` by
    /// `height` pixels. Hands back the region to record, or nothing where a
    /// recording already runs.
    pub fn start(&mut self, x: i32, y: i32, width: u32, height: u32) -> (r: Option<CaptureRegion>)
        ensures
            (final(self).state@, r) == start_pressed(old(self).state@, x, y, width, height),
    {
        match self.state.mode {
            AppMode::Recording => None,
            _ => {
                self.state.mode = AppMode::Recording;
                self.state.duration_ms = 0;
                self.state.stop_armed = true;
                Some(window_region(x, y, width, height))
            },
        }
    }

    /// Stop was pressed. Says whether the session is to be asked to stop.
    pub fn stop(&mut self) -> (r: bool)
        ensures
            (final(self).state@, r) == stop_pressed(old(self).state@),
    {
        let armed = self.state.stop_armed;
        self.state.stop_armed = false;
        armed
    }

    /// An event of the recorder arrived.
    pub fn on_event(&mut self, event: RecorderEvent)
        ensures
            final(self).state@ == event_shown(old(self).state@, event@),
    {
        match event {
            RecorderEvent::Started { .. } => {},
            RecorderEvent::Progress { pts_ms } => {
                self.state.duration_ms = pts_ms;
            },
            RecorderEvent::Stopped { duration_ms, path } => {
                self.state.mode = AppMode::Review;
                self.state.duration_ms = duration_ms;
                self.state.rec_path = Some(path);
                self.state.stop_armed = false;
            },
            RecorderEvent::Error { .. } => {
                self.state.mode = AppMode::Idle;
                self.state.stop_armed = false;
            },
        }
    }

    /// Export was pressed. Hands back the command for the encoder, or
    /// nothing where there is no recording.
    pub fn export(&mut self) -> (r: Option<EncoderCommand>)
        ensures
            final(self).state@ == export_pressed(old(self).state@).0,
            match export_pressed(old(self).state@).1 {
                Some(cmd) => r is Some && r->0@ == cmd,
                None => r is None,
            },
    {
        let path = match &self.state.rec_path {
            Some(p) => p.clone(),
            None => {
                return None;
            },
        };
        self.state.mode = AppMode::Exporting;
        Some(
            build_encode_cmd(
                path,
                self.state.export_format.as_str(),
                self.state.export_fps,
                (0, self.state.duration_ms),
                self.state.export_scale,
            ),
        )
    }

    /// The export ended, well or not.
    pub fn export_ended(&mut self)
        ensures
            final(self).state@ == (AppStateView { mode: AppMode::Idle, ..old(self).state@ }),
    {
        self.state.mode = AppMode::Idle;
    }
}

/// Two presses of stop ask the session to stop at most once.
pub proof fn stop_asks_once(s: AppStateView)
    ensures
        !stop_pressed(stop_pressed(s).0).1,
{
}

/// A press of record while a recording runs changes nothing.
pub proof fn start_is_idempotent(s: AppStateView, x: i32, y: i32, width: u32, height: u32)
    ensures
        ({
            let once = start_pressed(s, x, y, width, height).0;
            start_pressed(once, x, y, width, height) == (once, None::<CaptureRegion>)
        }),
{
}

/// A duration as minutes and seconds, each with at least two digits.
pub open spec fn clock_text(duration_ms: u64) -> Seq<char> {
    let seconds = duration_ms as nat / 1000;
    let minutes = seconds / 60;
    (if minutes < 100 {
        padded(minutes, 2)
    } else {
        decimal(minutes)
    }).push(':') + padded(seconds % 60, 2)
}

/// Writes a duration as minutes and seconds.
pub fn clock(duration_ms: u64) -> (s: String)
    ensures
        s@ == clock_text(duration_ms),
{
    let seconds = duration_ms / 1000;
    let minutes = seconds / 60;
    let mut s = String::new();
    if minutes < 100 {
        push_padded(&mut s, minutes, 2);
    } else {
        push_decimal(&mut s, minutes);
    }
    push_char(&mut s, ':');
    push_padded(&mut s, seconds % 60, 2);
    assert(s@ =~= clock_text(duration_ms));
    s
}

} // verus!
