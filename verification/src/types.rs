//! The data model of the wire protocol: regions, trim ranges, captions, and the
//! commands and events exchanged with the recorder and the encoder.

use vstd::prelude::*;
use crate::fraction::Fraction;

verus! {

/// Version of the wire protocol. It changes whenever a field is added, removed
/// or renamed.
pub const PROTOCOL_VERSION: u32 = 1;

/// A rectangle of the screen, in device pixels. The origin may be negative on
/// multi-monitor layouts.
#[derive(Clone, Copy, Debug, PartialEq, Eq, Structural)]
pub struct CaptureRegion {
    pub x: i32,
    pub y: i32,
    pub width: u32,
    pub height: u32,
}

impl CaptureRegion {
    /// A region is valid when it is not empty and its far corner can still be
    /// addressed with signed 32-bit coordinates.
    pub open spec fn valid(self) -> bool {
        &&& self.width > 0
        &&& self.height > 0
        &&& self.x + self.width - 1 <= i32::MAX
        &&& self.y + self.height - 1 <= i32::MAX
    }

    /// The column of the last pixel inside the region.
    pub open spec fn last_x(self) -> int {
        self.x + self.width - 1
    }

    /// The row of the last pixel inside the region.
    pub open spec fn last_y(self) -> int {
        self.y + self.height - 1
    }

    /// Whether the value is valid.
    pub fn is_valid(&self) -> (r: bool)
        ensures
            r == self.valid(),
    {
        self.width > 0 && self.height > 0
            && self.x as i64 + self.width as i64 - 1 <= i32::MAX as i64
            && self.y as i64 + self.height as i64 - 1 <= i32::MAX as i64
    }
}

/// The part of a recording to export, in milliseconds from its start.
#[derive(Clone, Copy, Debug, PartialEq, Eq, Structural)]
pub struct TrimRange {
    pub start_ms: u64,
    pub end_ms: u64,
}

impl TrimRange {
    /// A range is valid when it does not end before it starts.
    pub open spec fn valid(self) -> bool {
        self.end_ms >= self.start_ms
    }

    /// The length of the range; zero when the end lies before the start.
    pub open spec fn duration(self) -> nat {
        if self.end_ms >= self.start_ms {
            (self.end_ms - self.start_ms) as nat
        } else {
            0
        }
    }

    /// Whether the value is valid.
    pub fn is_valid(&self) -> (r: bool)
        ensures
            r == self.valid(),
    {
        self.end_ms >= self.start_ms
    }

    /// The length of the range in milliseconds. It never wraps around.
    pub fn duration_ms(&self) -> (d: u64)
        ensures
            d == self.duration(),
            d <= self.end_ms,
            self.end_ms < self.start_ms ==> d == 0,
    {
        if self.end_ms >= self.start_ms {
            self.end_ms - self.start_ms
        } else {
            0
        }
    }
}

/// How an exported animation repeats.
#[derive(Clone, Copy, Debug, PartialEq, Eq, Structural)]
pub enum LoopMode {
    Normal,
    Pingpong,
    Once,
}

/// How a caption enters and leaves the picture.
#[derive(Clone, Copy, Debug, PartialEq, Eq, Structural)]
pub enum CaptionAnimation {
    /// No animation; written `none` on the wire.
    Still,
    Fade,
}

impl Default for CaptionAnimation {
    fn default() -> (r: CaptionAnimation)
        ensures
            r == CaptionAnimation::Still,
    {
        CaptionAnimation::Still
    }
}

/// The machine-readable class of a failure.
#[derive(Clone, Copy, Debug, PartialEq, Eq, Structural)]
pub enum ErrorKind {
    PermissionDenied,
    InvalidInput,
    EncodingFailed,
    IoError,
    UnsupportedPlatform,
}

/// Colours and size of a caption's text.
#[derive(Clone, Debug, PartialEq, Eq)]
pub struct CaptionStyle {
    pub color: String,
    pub stroke: String,
    pub size: u32,
}

/// The view of `CaptionStyle`: its strings as sequences of characters.
pub struct CaptionStyleView {
    pub color: Seq<char>,
    pub stroke: Seq<char>,
    pub size: u32,
}

impl View for CaptionStyle {
    type V = CaptionStyleView;

    open spec fn view(&self) -> CaptionStyleView {
        CaptionStyleView { color: self.color@, stroke: self.stroke@, size: self.size }
    }
}

/// Where a caption stands, as proportions of the frame.
#[derive(Clone, Copy, Debug, PartialEq, Eq, Structural)]
pub struct CaptionRect {
    pub x: Fraction,
    pub y: Fraction,
    pub w: Fraction,
    pub h: Fraction,
}

impl CaptionRect {
    /// Whether each side is a valid proportion.
    pub open spec fn valid(self) -> bool {
        self.x.valid() && self.y.valid() && self.w.valid() && self.h.valid()
    }
}

/// A piece of text shown over the picture during a window of time.
#[derive(Clone, Debug, PartialEq, Eq)]
pub struct Caption {
    pub text: String,
    pub font: String,
    pub style: CaptionStyle,
    pub rect: CaptionRect,
    pub start_ms: u64,
    pub end_ms: u64,
    pub animation: CaptionAnimation,
}

/// The view of `Caption`: its strings as sequences of characters.
pub struct CaptionView {
    pub text: Seq<char>,
    pub font: Seq<char>,
    pub style: CaptionStyleView,
    pub rect: CaptionRect,
    pub start_ms: u64,
    pub end_ms: u64,
    pub animation: CaptionAnimation,
}

impl View for Caption {
    type V = CaptionView;

    open spec fn view(&self) -> CaptionView {
        CaptionView {
            text: self.text@,
            font: self.font@,
            style: self.style@,
            rect: self.rect,
            start_ms: self.start_ms,
            end_ms: self.end_ms,
            animation: self.animation,
        }
    }
}

/// The views of a list of captions, in order.
pub open spec fn caption_views(captions: Seq<Caption>) -> Seq<CaptionView> {
    captions.map_values(|c: Caption| c@)
}

/// What the supervisor asks of the recorder.
#[derive(Clone, Debug, PartialEq, Eq)]
pub enum RecorderCommand {
    Start { region: CaptureRegion, fps: u32, cursor: bool, out: String },
    Stop,
}

/// The view of `RecorderCommand`: its strings as sequences of characters.
pub enum RecorderCommandView {
    Start { region: CaptureRegion, fps: u32, cursor: bool, out: Seq<char> },
    Stop,
}

impl View for RecorderCommand {
    type V = RecorderCommandView;

    open spec fn view(&self) -> RecorderCommandView {
        match *self {
            RecorderCommand::Start { region, fps, cursor, out } => RecorderCommandView::Start {
                region,
                fps,
                cursor,
                out: out@,
            },
            RecorderCommand::Stop => RecorderCommandView::Stop,
        }
    }
}

/// What the recorder reports.
#[derive(Clone, Debug, PartialEq, Eq)]
pub enum RecorderEvent {
    Started { pts_ms: u64 },
    Progress { pts_ms: u64 },
    Stopped { duration_ms: u64, path: String },
    Error { kind: ErrorKind, hint: String },
}

/// The view of `RecorderEvent`: its strings as sequences of characters.
pub enum RecorderEventView {
    Started { pts_ms: u64 },
    Progress { pts_ms: u64 },
    Stopped { duration_ms: u64, path: Seq<char> },
    Error { kind: ErrorKind, hint: Seq<char> },
}

impl View for RecorderEvent {
    type V = RecorderEventView;

    open spec fn view(&self) -> RecorderEventView {
        match *self {
            RecorderEvent::Started { pts_ms } => RecorderEventView::Started { pts_ms },
            RecorderEvent::Progress { pts_ms } => RecorderEventView::Progress { pts_ms },
            RecorderEvent::Stopped { duration_ms, path } => RecorderEventView::Stopped {
                duration_ms,
                path: path@,
            },
            RecorderEvent::Error { kind, hint } => RecorderEventView::Error { kind, hint: hint@ },
        }
    }
}

impl RecorderEventView {
    /// A terminal event ends a session: nothing follows it.
    pub open spec fn is_terminal(self) -> bool {
        self is Stopped || self is Error
    }
}

impl RecorderEvent {
    /// Whether the event ends its session.
    pub fn is_terminal(&self) -> (r: bool)
        ensures
            r == self@.is_terminal(),
    {
        match self {
            RecorderEvent::Stopped { .. } => true,
            RecorderEvent::Error { .. } => true,
            _ => false,
        }
    }
}

/// What the supervisor asks of the encoder.
#[derive(Clone, Debug, PartialEq, Eq)]
pub enum EncoderCommand {
    Gif {
        input: String,
        trim: TrimRange,
        fps: u32,
        scale_px: Option<u32>,
        loop_mode: LoopMode,
        captions: Vec<Caption>,
        out: String,
    },
    Mp4 {
        input: String,
        trim: TrimRange,
        fps: u32,
        scale_px: Option<u32>,
        quality: Fraction,
        captions: Vec<Caption>,
        out: String,
    },
    Webp {
        input: String,
        trim: TrimRange,
        fps: u32,
        scale_px: Option<u32>,
        quality: Fraction,
        lossless: bool,
        captions: Vec<Caption>,
        out: String,
    },
}

/// The view of `EncoderCommand`: its strings as sequences of characters, its
/// captions as a sequence of views.
pub enum EncoderCommandView {
    Gif {
        input: Seq<char>,
        trim: TrimRange,
        fps: u32,
        scale_px: Option<u32>,
        loop_mode: LoopMode,
        captions: Seq<CaptionView>,
        out: Seq<char>,
    },
    Mp4 {
        input: Seq<char>,
        trim: TrimRange,
        fps: u32,
        scale_px: Option<u32>,
        quality: Fraction,
        captions: Seq<CaptionView>,
        out: Seq<char>,
    },
    Webp {
        input: Seq<char>,
        trim: TrimRange,
        fps: u32,
        scale_px: Option<u32>,
        quality: Fraction,
        lossless: bool,
        captions: Seq<CaptionView>,
        out: Seq<char>,
    },
}

impl View for EncoderCommand {
    type V = EncoderCommandView;

    open spec fn view(&self) -> EncoderCommandView {
        match *self {
            EncoderCommand::Gif {
                input,
                trim,
                fps,
                scale_px,
                loop_mode,
                captions,
                out,
            } => EncoderCommandView::Gif {
                input: input@,
                trim,
                fps,
                scale_px,
                loop_mode,
                captions: caption_views(captions@),
                out: out@,
            },
            EncoderCommand::Mp4 {
                input,
                trim,
                fps,
                scale_px,
                quality,
                captions,
                out,
            } => EncoderCommandView::Mp4 {
                input: input@,
                trim,
                fps,
                scale_px,
                quality,
                captions: caption_views(captions@),
                out: out@,
            },
            EncoderCommand::Webp {
                input,
                trim,
                fps,
                scale_px,
                quality,
                lossless,
                captions,
                out,
            } => EncoderCommandView::Webp {
                input: input@,
                trim,
                fps,
                scale_px,
                quality,
                lossless,
                captions: caption_views(captions@),
                out: out@,
            },
        }
    }
}

/// What the encoder reports.
#[derive(Clone, Debug, PartialEq, Eq)]
pub enum EncoderEvent {
    Progress { percent: u32 },
    Done { path: String },
    Error { kind: ErrorKind, hint: String },
}

/// The view of `EncoderEvent`: its strings as sequences of characters.
pub enum EncoderEventView {
    Progress { percent: u32 },
    Done { path: Seq<char> },
    Error { kind: ErrorKind, hint: Seq<char> },
}

impl View for EncoderEvent {
    type V = EncoderEventView;

    open spec fn view(&self) -> EncoderEventView {
        match *self {
            EncoderEvent::Progress { percent } => EncoderEventView::Progress { percent },
            EncoderEvent::Done { path } => EncoderEventView::Done { path: path@ },
            EncoderEvent::Error { kind, hint } => EncoderEventView::Error { kind, hint: hint@ },
        }
    }
}

} // verus!
