//! Coordination of screen recording and media export.
//!
//! A supervisor, a recorder and an encoder run as separate processes and talk
//! in lines of JSON. This library holds what they decide and compute; spawning
//! processes, capturing the screen and running the media encoder belong to the
//! programs around it.
//!
//! - [`types`]: the data model of the wire protocol.
//! - [`messages`], [`codec`], [`fields`], [`names`]: one message per line, and
//!   each message as a tree of JSON values.
//! - [`json`], [`numeral`]: JSON trees, their text, and number literals.
//! - [`session`]: the life of one capture session, for the supervisor.
//! - [`recorder`]: the same session, for the recorder.
//! - [`controller`]: the controls of the application.
//! - [`color`], [`captions`], [`ffmpeg`]: the filter graph of an export.
//! - [`export`], [`encoder`]: the encoder runs that make an export.
//! - [`fraction`], [`text`]: proportions, and the writing of numbers and lists.

pub mod captions;
pub mod codec;
pub mod color;
pub mod controller;
pub mod encoder;
pub mod export;
pub mod ffmpeg;
pub mod fields;
pub mod fraction;
pub mod json;
pub mod messages;
pub mod names;
pub mod numeral;
pub mod recorder;
pub mod session;
pub mod text;
pub mod types;

pub use fraction::Fraction;
pub use messages::{
    parse_encoder_command, parse_encoder_event, parse_recorder_command, parse_recorder_event,
    to_jsonl, DecodeError, EncodeError, Message,
};
pub use types::{
    Caption, CaptionAnimation, CaptionRect, CaptionStyle, CaptureRegion, EncoderCommand,
    EncoderEvent, ErrorKind, LoopMode, RecorderCommand, RecorderEvent, TrimRange,
    PROTOCOL_VERSION,
};
