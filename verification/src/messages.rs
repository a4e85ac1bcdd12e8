//! The four families of messages on the wire, each message one JSON object on
//! a line of its own. Commands carry their variant under `cmd`, events under
//! `event`.

use vstd::prelude::*;
use crate::codec::{
    captions_are_writable, region_is_written_plainly, trim_is_written_plainly,
    captions_from, captions_json, captions_of, captions_round_trip, captions_tree, captions_valid,
    kind_from, kind_json, kind_name, kind_of, loop_from, loop_json, loop_name, loop_of,
    names_round_trip, region_from, region_json, region_of, region_round_trip, region_tree,
    trim_from, trim_json, trim_of, trim_round_trip, trim_tree,
};
use crate::fields::{
    natural_is_written_plainly, object_is_writable, plain_is_writable, proportions_are_writable,
    order_is_free, same_members,
    bool_of, bool_or, fraction_from, member, members_found, names_of, natural, natural_json,
    numbers_read_back, opt_is, optional_natural, optional_natural_json, optional_u32_of, proportion,
    proportion_json, read_bool, read_bool_or, read_optional_u32, read_proportion, read_text,
    read_u32, read_u64, text_json, text_of, u32_of, u64_of,
};
use crate::fraction::Fraction;
use crate::json::{
    printed_json, writable, written_plainly,
    distinct_names,
    get, has_only_keys, key_views, lookup, member_views, object, only_keys, parse_json, parsed_json,
    put, render_json, rendered_json, text, view_of_object, Json, JsonView, Member, MemberView,
};
use crate::names::names_differ;
use crate::text::{owned, push_char, same_text};
use crate::types::{
    caption_views, CaptionView, EncoderCommand, EncoderCommandView, EncoderEvent, EncoderEventView,
    ErrorKind, LoopMode, RecorderCommand, RecorderCommandView, RecorderEvent, RecorderEventView,
    TrimRange,
};

verus! {

/// Why a line was not read as a message.
#[derive(Clone, Copy, Debug, PartialEq, Eq, Structural)]
pub enum DecodeError {
    /// The line is not JSON.
    Syntax,
    /// The discriminator names no variant of the family.
    UnknownVariant,
    /// The value is not an object, has no discriminator, lacks a member of
    /// its variant, holds a member that the variant does not have, or holds a
    /// value of the wrong kind or out of range.
    Schema,
}

/// The words that describe why a line was not read.
pub open spec fn decode_text(e: DecodeError) -> Seq<char> {
    match e {
        DecodeError::Syntax => "line is not JSON"@,
        DecodeError::UnknownVariant => "unknown message variant"@,
        DecodeError::Schema => "message does not match its schema"@,
    }
}

impl DecodeError {
    /// The words that describe the error.
    pub fn message(&self) -> (s: String)
        ensures
            s@ == decode_text(*self),
    {
        match self {
            DecodeError::Syntax => owned("line is not JSON"),
            DecodeError::UnknownVariant => owned("unknown message variant"),
            DecodeError::Schema => owned("message does not match its schema"),
        }
    }
}

/// Why a message was not written.
#[derive(Clone, Copy, Debug, PartialEq, Eq, Structural)]
pub enum EncodeError {
    /// The JSON writer refused the value.
    Unwritable,
}

/// What is read where a variant's members do not fit.
pub open spec fn or_schema<T>(o: Option<T>) -> Result<T, DecodeError> {
    match o {
        Some(v) => Ok(v),
        None => Err(DecodeError::Schema),
    }
}

/// Whether a decoded message, or the error in its place, is the expected one.
pub open spec fn decoded_is<T: View>(
    r: Result<T, DecodeError>,
    expected: Result<T::V, DecodeError>,
) -> bool {
    match expected {
        Ok(v) => r is Ok && r->Ok_0@ == v,
        Err(e) => r is Err && r->Err_0 == e,
    }
}

/// The object of a variant without members: its discriminator alone.
pub open spec fn bare(key: Seq<char>, tag: Seq<char>) -> JsonView {
    JsonView::Object(seq![member(key, JsonView::Text(tag))])
}

// Recorder commands

/// The tree that writes a recorder command.
pub open spec fn recorder_command_tree(m: RecorderCommandView) -> JsonView {
    match m {
        RecorderCommandView::Start { region, fps, cursor, out } => JsonView::Object(
            seq![
                member("cmd"@, JsonView::Text("start"@)),
                member("region"@, region_tree(region)),
                member("fps"@, natural(fps as nat)),
                member("cursor"@, JsonView::Bool(cursor)),
                member("out"@, JsonView::Text(out)),
            ],
        ),
        RecorderCommandView::Stop => bare("cmd"@, "stop"@),
    }
}

/// The members of a start command. `cursor` may be left out: it is then off.
pub open spec fn start_of(ms: Seq<MemberView>) -> Option<RecorderCommandView> {
    let region = match lookup(ms, "region"@) {
        Some(t) => region_of(t),
        None => None,
    };
    let fps = u32_of(lookup(ms, "fps"@));
    let cursor = bool_or(lookup(ms, "cursor"@), false);
    let out = text_of(lookup(ms, "out"@));
    if only_keys(ms, seq!["cmd"@, "region"@, "fps"@, "cursor"@, "out"@]) && region is Some
        && fps is Some && cursor is Some && out is Some {
        Some(
            RecorderCommandView::Start {
                region: region->0,
                fps: fps->0,
                cursor: cursor->0,
                out: out->0,
            },
        )
    } else {
        None
    }
}

/// The recorder command that a tree writes, or why it writes none.
pub open spec fn recorder_command_of(t: JsonView) -> Result<RecorderCommandView, DecodeError> {
    match t {
        JsonView::Object(ms) => match text_of(lookup(ms, "cmd"@)) {
            Some(tag) => if tag == "start"@ {
                or_schema(start_of(ms))
            } else if tag == "stop"@ {
                if only_keys(ms, seq!["cmd"@]) {
                    Ok(RecorderCommandView::Stop)
                } else {
                    Err(DecodeError::Schema)
                }
            } else {
                Err(DecodeError::UnknownVariant)
            },
            None => Err(DecodeError::Schema),
        },
        _ => Err(DecodeError::Schema),
    }
}

fn start_from(ms: &Vec<Member>) -> (r: Option<RecorderCommand>)
    ensures
        opt_is(r, start_of(member_views(ms@))),
{
    let keys = ["cmd", "region", "fps", "cursor", "out"];
    assert(key_views(keys@) =~= seq!["cmd"@, "region"@, "fps"@, "cursor"@, "out"@]);
    if !has_only_keys(ms, keys.as_slice()) {
        return None;
    }
    let region = match get(ms, "region") {
        Some(j) => region_from(j),
        None => None,
    };
    let fps = read_u32(get(ms, "fps"));
    let cursor = read_bool_or(get(ms, "cursor"), false);
    let out = read_text(get(ms, "out"));
    match (region, fps, cursor, out) {
        (Some(region), Some(fps), Some(cursor), Some(out)) => Some(
            RecorderCommand::Start { region, fps, cursor, out },
        ),
        _ => None,
    }
}

/// Whether the object holds its discriminator and nothing else.
fn is_bare(ms: &Vec<Member>, key: &str) -> (r: bool)
    ensures
        r == only_keys(member_views(ms@), seq![key@]),
{
    let keys = [key];
    assert(key_views(keys@) =~= seq![key@]);
    has_only_keys(ms, keys.as_slice())
}

/// Reads a recorder command from a tree.
pub fn recorder_command_from(j: &Json) -> (r: Result<RecorderCommand, DecodeError>)
    ensures
        decoded_is(r, recorder_command_of(j@)),
{
    let ms = match j {
        Json::Object(ms) => ms,
        _ => {
            return Err(DecodeError::Schema);
        },
    };
    proof {
        view_of_object(*ms);
    }
    let tag = match read_text(get(ms, "cmd")) {
        Some(tag) => tag,
        None => {
            return Err(DecodeError::Schema);
        },
    };
    if same_text(tag.as_str(), "start") {
        match start_from(ms) {
            Some(c) => Ok(c),
            None => Err(DecodeError::Schema),
        }
    } else if same_text(tag.as_str(), "stop") {
        if is_bare(ms, "cmd") {
            Ok(RecorderCommand::Stop)
        } else {
            Err(DecodeError::Schema)
        }
    } else {
        Err(DecodeError::UnknownVariant)
    }
}

/// Writes a recorder command as a tree.
pub fn recorder_command_json(m: &RecorderCommand) -> (j: Json)
    ensures
        j@ == recorder_command_tree(m@),
{
    let mut ms: Vec<Member> = Vec::new();
    match m {
        RecorderCommand::Start { region, fps, cursor, out } => {
            put(&mut ms, "cmd", text("start"));
            put(&mut ms, "region", region_json(region));
            put(&mut ms, "fps", natural_json(*fps as u64));
            put(&mut ms, "cursor", Json::Bool(*cursor));
            put(&mut ms, "out", text_json(out));
        },
        RecorderCommand::Stop => {
            put(&mut ms, "cmd", text("stop"));
        },
    }
    let j = object(ms);
    assert(j@->Object_0 =~= recorder_command_tree(m@)->Object_0);
    j
}

/// A variant without members is read back from its discriminator.
proof fn bare_found(key: Seq<char>, tag: Seq<char>)
    ensures
        lookup(bare(key, tag)->Object_0, key) == Some(JsonView::Text(tag)),
        only_keys(bare(key, tag)->Object_0, seq![key]),
{
    let ms = bare(key, tag)->Object_0;
    assert(seq![key][0] == ms[0].name);
}

/// A recorder command that is written is read back.
pub proof fn recorder_command_round_trip(m: RecorderCommandView)
    ensures
        recorder_command_of(recorder_command_tree(m)) == Ok::<RecorderCommandView, DecodeError>(m),
{
    names_differ();
    match m {
        RecorderCommandView::Start { region, fps, cursor, out } => {
            let ms = recorder_command_tree(m)->Object_0;
            assert(names_of(ms) =~= seq!["cmd"@, "region"@, "fps"@, "cursor"@, "out"@]);
            members_found(ms);
            assert(ms[0].name == "cmd"@ && ms[1].name == "region"@ && ms[2].name == "fps"@
                && ms[3].name == "cursor"@ && ms[4].name == "out"@);
            region_round_trip(region);
            Fraction::with_value_is(0);
            numbers_read_back(fps, 0, 0, Fraction::with_value(0));
        },
        RecorderCommandView::Stop => {
            bare_found("cmd"@, "stop"@);
        },
    }
}

// Recorder events

/// The tree that writes a recorder event.
pub open spec fn recorder_event_tree(m: RecorderEventView) -> JsonView {
    match m {
        RecorderEventView::Started { pts_ms } => JsonView::Object(
            seq![
                member("event"@, JsonView::Text("started"@)),
                member("pts_ms"@, natural(pts_ms as nat)),
            ],
        ),
        RecorderEventView::Progress { pts_ms } => JsonView::Object(
            seq![
                member("event"@, JsonView::Text("progress"@)),
                member("pts_ms"@, natural(pts_ms as nat)),
            ],
        ),
        RecorderEventView::Stopped { duration_ms, path } => JsonView::Object(
            seq![
                member("event"@, JsonView::Text("stopped"@)),
                member("duration_ms"@, natural(duration_ms as nat)),
                member("path"@, JsonView::Text(path)),
            ],
        ),
        RecorderEventView::Error { kind, hint } => JsonView::Object(
            seq![
                member("event"@, JsonView::Text("error"@)),
                member("kind"@, JsonView::Text(kind_name(kind))),
                member("hint"@, JsonView::Text(hint)),
            ],
        ),
    }
}

/// The time stamp of a started or progress event.
pub open spec fn pts_of(ms: Seq<MemberView>) -> Option<u64> {
    if only_keys(ms, seq!["event"@, "pts_ms"@]) {
        u64_of(lookup(ms, "pts_ms"@))
    } else {
        None
    }
}

/// The members of a stopped event.
pub open spec fn stopped_of(ms: Seq<MemberView>) -> Option<RecorderEventView> {
    let duration_ms = u64_of(lookup(ms, "duration_ms"@));
    let path = text_of(lookup(ms, "path"@));
    if only_keys(ms, seq!["event"@, "duration_ms"@, "path"@]) && duration_ms is Some
        && path is Some {
        Some(RecorderEventView::Stopped { duration_ms: duration_ms->0, path: path->0 })
    } else {
        None
    }
}

/// The kind and the hint of an error event, of either family of events.
pub open spec fn failure_of(ms: Seq<MemberView>) -> Option<(ErrorKind, Seq<char>)> {
    let kind = kind_of(lookup(ms, "kind"@));
    let hint = text_of(lookup(ms, "hint"@));
    if only_keys(ms, seq!["event"@, "kind"@, "hint"@]) && kind is Some && hint is Some {
        Some((kind->0, hint->0))
    } else {
        None
    }
}

/// The recorder event that a tree writes, or why it writes none.
pub open spec fn recorder_event_of(t: JsonView) -> Result<RecorderEventView, DecodeError> {
    match t {
        JsonView::Object(ms) => match text_of(lookup(ms, "event"@)) {
            Some(tag) => if tag == "started"@ {
                match pts_of(ms) {
                    Some(pts_ms) => Ok(RecorderEventView::Started { pts_ms }),
                    None => Err(DecodeError::Schema),
                }
            } else if tag == "progress"@ {
                match pts_of(ms) {
                    Some(pts_ms) => Ok(RecorderEventView::Progress { pts_ms }),
                    None => Err(DecodeError::Schema),
                }
            } else if tag == "stopped"@ {
                or_schema(stopped_of(ms))
            } else if tag == "error"@ {
                match failure_of(ms) {
                    Some((kind, hint)) => Ok(RecorderEventView::Error { kind, hint }),
                    None => Err(DecodeError::Schema),
                }
            } else {
                Err(DecodeError::UnknownVariant)
            },
            None => Err(DecodeError::Schema),
        },
        _ => Err(DecodeError::Schema),
    }
}

fn pts_from(ms: &Vec<Member>) -> (r: Option<u64>)
    ensures
        r == pts_of(member_views(ms@)),
{
    let keys = ["event", "pts_ms"];
    assert(key_views(keys@) =~= seq!["event"@, "pts_ms"@]);
    if !has_only_keys(ms, keys.as_slice()) {
        return None;
    }
    read_u64(get(ms, "pts_ms"))
}

fn stopped_from(ms: &Vec<Member>) -> (r: Option<RecorderEvent>)
    ensures
        opt_is(r, stopped_of(member_views(ms@))),
{
    let keys = ["event", "duration_ms", "path"];
    assert(key_views(keys@) =~= seq!["event"@, "duration_ms"@, "path"@]);
    if !has_only_keys(ms, keys.as_slice()) {
        return None;
    }
    let duration_ms = read_u64(get(ms, "duration_ms"));
    let path = read_text(get(ms, "path"));
    match (duration_ms, path) {
        (Some(duration_ms), Some(path)) => Some(RecorderEvent::Stopped { duration_ms, path }),
        _ => None,
    }
}

fn failure_from(ms: &Vec<Member>) -> (r: Option<(ErrorKind, String)>)
    ensures
        match failure_of(member_views(ms@)) {
            Some((kind, hint)) => r matches Some(found) && found.0 == kind && found.1@ == hint,
            None => r is None,
        },
{
    let keys = ["event", "kind", "hint"];
    assert(key_views(keys@) =~= seq!["event"@, "kind"@, "hint"@]);
    if !has_only_keys(ms, keys.as_slice()) {
        return None;
    }
    let kind = kind_from(get(ms, "kind"));
    let hint = read_text(get(ms, "hint"));
    match (kind, hint) {
        (Some(kind), Some(hint)) => Some((kind, hint)),
        _ => None,
    }
}

/// Reads a recorder event from a tree.
pub fn recorder_event_from(j: &Json) -> (r: Result<RecorderEvent, DecodeError>)
    ensures
        decoded_is(r, recorder_event_of(j@)),
{
    let ms = match j {
        Json::Object(ms) => ms,
        _ => {
            return Err(DecodeError::Schema);
        },
    };
    proof {
        view_of_object(*ms);
    }
    let tag = match read_text(get(ms, "event")) {
        Some(tag) => tag,
        None => {
            return Err(DecodeError::Schema);
        },
    };
    if same_text(tag.as_str(), "started") {
        match pts_from(ms) {
            Some(pts_ms) => Ok(RecorderEvent::Started { pts_ms }),
            None => Err(DecodeError::Schema),
        }
    } else if same_text(tag.as_str(), "progress") {
        match pts_from(ms) {
            Some(pts_ms) => Ok(RecorderEvent::Progress { pts_ms }),
            None => Err(DecodeError::Schema),
        }
    } else if same_text(tag.as_str(), "stopped") {
        match stopped_from(ms) {
            Some(e) => Ok(e),
            None => Err(DecodeError::Schema),
        }
    } else if same_text(tag.as_str(), "error") {
        match failure_from(ms) {
            Some((kind, hint)) => Ok(RecorderEvent::Error { kind, hint }),
            None => Err(DecodeError::Schema),
        }
    } else {
        Err(DecodeError::UnknownVariant)
    }
}

/// Writes a recorder event as a tree.
pub fn recorder_event_json(m: &RecorderEvent) -> (j: Json)
    ensures
        j@ == recorder_event_tree(m@),
{
    let mut ms: Vec<Member> = Vec::new();
    match m {
        RecorderEvent::Started { pts_ms } => {
            put(&mut ms, "event", text("started"));
            put(&mut ms, "pts_ms", natural_json(*pts_ms));
        },
        RecorderEvent::Progress { pts_ms } => {
            put(&mut ms, "event", text("progress"));
            put(&mut ms, "pts_ms", natural_json(*pts_ms));
        },
        RecorderEvent::Stopped { duration_ms, path } => {
            put(&mut ms, "event", text("stopped"));
            put(&mut ms, "duration_ms", natural_json(*duration_ms));
            put(&mut ms, "path", text_json(path));
        },
        RecorderEvent::Error { kind, hint } => {
            put(&mut ms, "event", text("error"));
            put(&mut ms, "kind", kind_json(*kind));
            put(&mut ms, "hint", text_json(hint));
        },
    }
    let j = object(ms);
    assert(j@->Object_0 =~= recorder_event_tree(m@)->Object_0);
    j
}

/// A recorder event that is written is read back.
pub proof fn recorder_event_round_trip(m: RecorderEventView)
    ensures
        recorder_event_of(recorder_event_tree(m)) == Ok::<RecorderEventView, DecodeError>(m),
{
    names_differ();
    Fraction::with_value_is(0);
    let ms = recorder_event_tree(m)->Object_0;
    match m {
        RecorderEventView::Started { pts_ms } => {
            assert(names_of(ms) =~= seq!["event"@, "pts_ms"@]);
            members_found(ms);
            assert(ms[0].name == "event"@ && ms[1].name == "pts_ms"@);
            numbers_read_back(0, pts_ms, 0, Fraction::with_value(0));
        },
        RecorderEventView::Progress { pts_ms } => {
            assert(names_of(ms) =~= seq!["event"@, "pts_ms"@]);
            members_found(ms);
            assert(ms[0].name == "event"@ && ms[1].name == "pts_ms"@);
            numbers_read_back(0, pts_ms, 0, Fraction::with_value(0));
        },
        RecorderEventView::Stopped { duration_ms, path } => {
            assert(names_of(ms) =~= seq!["event"@, "duration_ms"@, "path"@]);
            members_found(ms);
            assert(ms[0].name == "event"@ && ms[1].name == "duration_ms"@ && ms[2].name
                == "path"@);
            numbers_read_back(0, duration_ms, 0, Fraction::with_value(0));
        },
        RecorderEventView::Error { kind, hint } => {
            assert(names_of(ms) =~= seq!["event"@, "kind"@, "hint"@]);
            members_found(ms);
            assert(ms[0].name == "event"@ && ms[1].name == "kind"@ && ms[2].name == "hint"@);
            names_round_trip(LoopMode::Normal, crate::types::CaptionAnimation::Still, kind);
        },
    }
}

// Encoder commands

/// The members that every encoder command has: its input, its trim range,
/// its frame rate and its optional target width.
pub open spec fn source_members(
    tag: Seq<char>,
    input: Seq<char>,
    trim: TrimRange,
    fps: u32,
    scale_px: Option<u32>,
) -> Seq<MemberView> {
    seq![
        member("cmd"@, JsonView::Text(tag)),
        member("in"@, JsonView::Text(input)),
        member("trim"@, trim_tree(trim)),
        member("fps"@, natural(fps as nat)),
        member("scale_px"@, optional_natural(scale_px)),
    ]
}

/// The tree that writes an encoder command.
pub open spec fn encoder_command_tree(m: EncoderCommandView) -> JsonView {
    match m {
        EncoderCommandView::Gif { input, trim, fps, scale_px, loop_mode, captions, out } => {
            JsonView::Object(
                source_members("gif"@, input, trim, fps, scale_px) + seq![
                    member("loop"@, JsonView::Text(loop_name(loop_mode))),
                    member("captions"@, captions_tree(captions)),
                    member("out"@, JsonView::Text(out)),
                ],
            )
        },
        EncoderCommandView::Mp4 { input, trim, fps, scale_px, quality, captions, out } => {
            JsonView::Object(
                source_members("mp4"@, input, trim, fps, scale_px) + seq![
                    member("quality"@, proportion(quality)),
                    member("captions"@, captions_tree(captions)),
                    member("out"@, JsonView::Text(out)),
                ],
            )
        },
        EncoderCommandView::Webp {
            input,
            trim,
            fps,
            scale_px,
            quality,
            lossless,
            captions,
            out,
        } => {
            JsonView::Object(
                source_members("webp"@, input, trim, fps, scale_px) + seq![
                    member("quality"@, proportion(quality)),
                    member("lossless"@, JsonView::Bool(lossless)),
                    member("captions"@, captions_tree(captions)),
                    member("out"@, JsonView::Text(out)),
                ],
            )
        },
    }
}

/// What every encoder command carries, as it is read.
pub struct ExportSource {
    pub input: Seq<char>,
    pub trim: TrimRange,
    pub fps: u32,
    pub scale_px: Option<u32>,
    pub captions: Seq<CaptionView>,
    pub out: Seq<char>,
}

/// The members common to the encoder commands. `scale_px` may be left out or
/// be `null`: the export then keeps the width of its source.
pub open spec fn source_of(ms: Seq<MemberView>) -> Option<ExportSource> {
    let input = text_of(lookup(ms, "in"@));
    let trim = match lookup(ms, "trim"@) {
        Some(t) => trim_of(t),
        None => None,
    };
    let fps = u32_of(lookup(ms, "fps"@));
    let scale_px = optional_u32_of(lookup(ms, "scale_px"@));
    let captions = captions_of(lookup(ms, "captions"@));
    let out = text_of(lookup(ms, "out"@));
    if input is Some && trim is Some && fps is Some && scale_px is Some && captions is Some
        && out is Some {
        Some(
            ExportSource {
                input: input->0,
                trim: trim->0,
                fps: fps->0,
                scale_px: scale_px->0,
                captions: captions->0,
                out: out->0,
            },
        )
    } else {
        None
    }
}

/// The members of a GIF command.
pub open spec fn gif_of(ms: Seq<MemberView>) -> Option<EncoderCommandView> {
    let source = source_of(ms);
    let loop_mode = loop_of(lookup(ms, "loop"@));
    if only_keys(
        ms,
        seq!["cmd"@, "in"@, "trim"@, "fps"@, "scale_px"@, "loop"@, "captions"@, "out"@],
    ) && source is Some && loop_mode is Some {
        Some(
            EncoderCommandView::Gif {
                input: source->0.input,
                trim: source->0.trim,
                fps: source->0.fps,
                scale_px: source->0.scale_px,
                loop_mode: loop_mode->0,
                captions: source->0.captions,
                out: source->0.out,
            },
        )
    } else {
        None
    }
}

/// The members of an MP4 command.
pub open spec fn mp4_of(ms: Seq<MemberView>) -> Option<EncoderCommandView> {
    let source = source_of(ms);
    let quality = fraction_from(lookup(ms, "quality"@));
    if only_keys(
        ms,
        seq!["cmd"@, "in"@, "trim"@, "fps"@, "scale_px"@, "quality"@, "captions"@, "out"@],
    ) && source is Some && quality is Some {
        Some(
            EncoderCommandView::Mp4 {
                input: source->0.input,
                trim: source->0.trim,
                fps: source->0.fps,
                scale_px: source->0.scale_px,
                quality: quality->0,
                captions: source->0.captions,
                out: source->0.out,
            },
        )
    } else {
        None
    }
}

/// The members of a WebP command.
pub open spec fn webp_of(ms: Seq<MemberView>) -> Option<EncoderCommandView> {
    let source = source_of(ms);
    let quality = fraction_from(lookup(ms, "quality"@));
    let lossless = bool_of(lookup(ms, "lossless"@));
    if only_keys(
        ms,
        seq![
            "cmd"@,
            "in"@,
            "trim"@,
            "fps"@,
            "scale_px"@,
            "quality"@,
            "lossless"@,
            "captions"@,
            "out"@,
        ],
    ) && source is Some && quality is Some && lossless is Some {
        Some(
            EncoderCommandView::Webp {
                input: source->0.input,
                trim: source->0.trim,
                fps: source->0.fps,
                scale_px: source->0.scale_px,
                quality: quality->0,
                lossless: lossless->0,
                captions: source->0.captions,
                out: source->0.out,
            },
        )
    } else {
        None
    }
}

/// The encoder command that a tree writes, or why it writes none.
pub open spec fn encoder_command_of(t: JsonView) -> Result<EncoderCommandView, DecodeError> {
    match t {
        JsonView::Object(ms) => match text_of(lookup(ms, "cmd"@)) {
            Some(tag) => if tag == "gif"@ {
                or_schema(gif_of(ms))
            } else if tag == "mp4"@ {
                or_schema(mp4_of(ms))
            } else if tag == "webp"@ {
                or_schema(webp_of(ms))
            } else {
                Err(DecodeError::UnknownVariant)
            },
            None => Err(DecodeError::Schema),
        },
        _ => Err(DecodeError::Schema),
    }
}

/// What every encoder command carries, as it is read.
struct Source {
    input: String,
    trim: TrimRange,
    fps: u32,
    scale_px: Option<u32>,
    captions: Vec<crate::types::Caption>,
    out: String,
}

impl View for Source {
    type V = ExportSource;

    closed spec fn view(&self) -> ExportSource {
        ExportSource {
            input: self.input@,
            trim: self.trim,
            fps: self.fps,
            scale_px: self.scale_px,
            captions: caption_views(self.captions@),
            out: self.out@,
        }
    }
}

fn source_from(ms: &Vec<Member>) -> (r: Option<Source>)
    ensures
        opt_is(r, source_of(member_views(ms@))),
{
    let input = read_text(get(ms, "in"));
    let trim = match get(ms, "trim") {
        Some(j) => trim_from(j),
        None => None,
    };
    let fps = read_u32(get(ms, "fps"));
    let scale_px = read_optional_u32(get(ms, "scale_px"));
    let captions = captions_from(get(ms, "captions"));
    let out = read_text(get(ms, "out"));
    match (input, trim, fps, scale_px, captions, out) {
        (Some(input), Some(trim), Some(fps), Some(scale_px), Some(captions), Some(out)) => Some(
            Source { input, trim, fps, scale_px, captions, out },
        ),
        _ => None,
    }
}

fn gif_from(ms: &Vec<Member>) -> (r: Option<EncoderCommand>)
    ensures
        opt_is(r, gif_of(member_views(ms@))),
{
    let keys = ["cmd", "in", "trim", "fps", "scale_px", "loop", "captions", "out"];
    assert(key_views(keys@) =~= seq![
        "cmd"@,
        "in"@,
        "trim"@,
        "fps"@,
        "scale_px"@,
        "loop"@,
        "captions"@,
        "out"@,
    ]);
    if !has_only_keys(ms, keys.as_slice()) {
        return None;
    }
    let source = source_from(ms);
    let loop_mode = loop_from(get(ms, "loop"));
    match (source, loop_mode) {
        (Some(s), Some(loop_mode)) => Some(
            EncoderCommand::Gif {
                input: s.input,
                trim: s.trim,
                fps: s.fps,
                scale_px: s.scale_px,
                loop_mode,
                captions: s.captions,
                out: s.out,
            },
        ),
        _ => None,
    }
}

fn mp4_from(ms: &Vec<Member>) -> (r: Option<EncoderCommand>)
    ensures
        opt_is(r, mp4_of(member_views(ms@))),
{
    let keys = ["cmd", "in", "trim", "fps", "scale_px", "quality", "captions", "out"];
    assert(key_views(keys@) =~= seq![
        "cmd"@,
        "in"@,
        "trim"@,
        "fps"@,
        "scale_px"@,
        "quality"@,
        "captions"@,
        "out"@,
    ]);
    if !has_only_keys(ms, keys.as_slice()) {
        return None;
    }
    let source = source_from(ms);
    let quality = read_proportion(get(ms, "quality"));
    match (source, quality) {
        (Some(s), Some(quality)) => Some(
            EncoderCommand::Mp4 {
                input: s.input,
                trim: s.trim,
                fps: s.fps,
                scale_px: s.scale_px,
                quality,
                captions: s.captions,
                out: s.out,
            },
        ),
        _ => None,
    }
}

fn webp_from(ms: &Vec<Member>) -> (r: Option<EncoderCommand>)
    ensures
        opt_is(r, webp_of(member_views(ms@))),
{
    let keys = ["cmd", "in", "trim", "fps", "scale_px", "quality", "lossless", "captions", "out"];
    assert(key_views(keys@) =~= seq![
        "cmd"@,
        "in"@,
        "trim"@,
        "fps"@,
        "scale_px"@,
        "quality"@,
        "lossless"@,
        "captions"@,
        "out"@,
    ]);
    if !has_only_keys(ms, keys.as_slice()) {
        return None;
    }
    let source = source_from(ms);
    let quality = read_proportion(get(ms, "quality"));
    let lossless = read_bool(get(ms, "lossless"));
    match (source, quality, lossless) {
        (Some(s), Some(quality), Some(lossless)) => Some(
            EncoderCommand::Webp {
                input: s.input,
                trim: s.trim,
                fps: s.fps,
                scale_px: s.scale_px,
                quality,
                lossless,
                captions: s.captions,
                out: s.out,
            },
        ),
        _ => None,
    }
}

/// Reads an encoder command from a tree.
pub fn encoder_command_from(j: &Json) -> (r: Result<EncoderCommand, DecodeError>)
    ensures
        decoded_is(r, encoder_command_of(j@)),
{
    let ms = match j {
        Json::Object(ms) => ms,
        _ => {
            return Err(DecodeError::Schema);
        },
    };
    proof {
        view_of_object(*ms);
    }
    let tag = match read_text(get(ms, "cmd")) {
        Some(tag) => tag,
        None => {
            return Err(DecodeError::Schema);
        },
    };
    let found = if same_text(tag.as_str(), "gif") {
        gif_from(ms)
    } else if same_text(tag.as_str(), "mp4") {
        mp4_from(ms)
    } else if same_text(tag.as_str(), "webp") {
        webp_from(ms)
    } else {
        return Err(DecodeError::UnknownVariant);
    };
    match found {
        Some(c) => Ok(c),
        None => Err(DecodeError::Schema),
    }
}

fn put_source(
    ms: &mut Vec<Member>,
    tag: &str,
    input: &String,
    trim: &TrimRange,
    fps: u32,
    scale_px: Option<u32>,
)
    requires
        old(ms)@.len() == 0,
    ensures
        member_views(final(ms)@) == source_members(tag@, input@, *trim, fps, scale_px),
{
    put(ms, "cmd", text(tag));
    put(ms, "in", text_json(input));
    put(ms, "trim", trim_json(trim));
    put(ms, "fps", natural_json(fps as u64));
    put(ms, "scale_px", optional_natural_json(scale_px));
    assert(member_views(ms@) =~= source_members(tag@, input@, *trim, fps, scale_px));
}

/// Writes an encoder command as a tree.
pub fn encoder_command_json(m: &EncoderCommand) -> (j: Json)
    ensures
        j@ == encoder_command_tree(m@),
{
    let mut ms: Vec<Member> = Vec::new();
    match m {
        EncoderCommand::Gif { input, trim, fps, scale_px, loop_mode, captions, out } => {
            put_source(&mut ms, "gif", input, trim, *fps, *scale_px);
            put(&mut ms, "loop", loop_json(*loop_mode));
            put(&mut ms, "captions", captions_json(captions));
            put(&mut ms, "out", text_json(out));
        },
        EncoderCommand::Mp4 { input, trim, fps, scale_px, quality, captions, out } => {
            put_source(&mut ms, "mp4", input, trim, *fps, *scale_px);
            put(&mut ms, "quality", proportion_json(*quality));
            put(&mut ms, "captions", captions_json(captions));
            put(&mut ms, "out", text_json(out));
        },
        EncoderCommand::Webp { input, trim, fps, scale_px, quality, lossless, captions, out } => {
            put_source(&mut ms, "webp", input, trim, *fps, *scale_px);
            put(&mut ms, "quality", proportion_json(*quality));
            put(&mut ms, "lossless", Json::Bool(*lossless));
            put(&mut ms, "captions", captions_json(captions));
            put(&mut ms, "out", text_json(out));
        },
    }
    let j = object(ms);
    assert(j@->Object_0 =~= encoder_command_tree(m@)->Object_0);
    j
}

/// Whether the proportions inside an encoder command are valid ones.
pub open spec fn encoder_command_valid(m: EncoderCommandView) -> bool {
    match m {
        EncoderCommandView::Gif { captions, .. } => captions_valid(captions),
        EncoderCommandView::Mp4 { quality, captions, .. } => quality.valid() && captions_valid(
            captions,
        ),
        EncoderCommandView::Webp { quality, captions, .. } => quality.valid() && captions_valid(
            captions,
        ),
    }
}

/// An encoder command that is written is read back.
pub proof fn encoder_command_round_trip(m: EncoderCommandView)
    requires
        encoder_command_valid(m),
    ensures
        encoder_command_of(encoder_command_tree(m)) == Ok::<EncoderCommandView, DecodeError>(m),
{
    names_differ();
    Fraction::with_value_is(0);
    let ms = encoder_command_tree(m)->Object_0;
    match m {
        EncoderCommandView::Gif { input, trim, fps, scale_px, loop_mode, captions, out } => {
            assert(names_of(ms) =~= seq![
                "cmd"@,
                "in"@,
                "trim"@,
                "fps"@,
                "scale_px"@,
                "loop"@,
                "captions"@,
                "out"@,
            ]);
            members_found(ms);
            assert(ms[0].name == "cmd"@ && ms[1].name == "in"@ && ms[2].name == "trim"@
                && ms[3].name == "fps"@ && ms[4].name == "scale_px"@ && ms[5].name == "loop"@
                && ms[6].name == "captions"@ && ms[7].name == "out"@);
            trim_round_trip(trim);
            numbers_read_back(fps, 0, 0, Fraction::with_value(0));
            if scale_px is Some {
                numbers_read_back(scale_px->0, 0, 0, Fraction::with_value(0));
            }
            names_round_trip(loop_mode, crate::types::CaptionAnimation::Still, ErrorKind::IoError);
            captions_round_trip(captions);
            assert(source_of(ms) == Some(
                ExportSource { input, trim, fps, scale_px, captions, out },
            ));
        },
        EncoderCommandView::Mp4 { input, trim, fps, scale_px, quality, captions, out } => {
            assert(names_of(ms) =~= seq![
                "cmd"@,
                "in"@,
                "trim"@,
                "fps"@,
                "scale_px"@,
                "quality"@,
                "captions"@,
                "out"@,
            ]);
            members_found(ms);
            assert(ms[0].name == "cmd"@ && ms[1].name == "in"@ && ms[2].name == "trim"@
                && ms[3].name == "fps"@ && ms[4].name == "scale_px"@ && ms[5].name == "quality"@
                && ms[6].name == "captions"@ && ms[7].name == "out"@);
            trim_round_trip(trim);
            numbers_read_back(fps, 0, 0, quality);
            if scale_px is Some {
                numbers_read_back(scale_px->0, 0, 0, Fraction::with_value(0));
            }
            captions_round_trip(captions);
            assert(source_of(ms) == Some(
                ExportSource { input, trim, fps, scale_px, captions, out },
            ));
        },
        EncoderCommandView::Webp {
            input,
            trim,
            fps,
            scale_px,
            quality,
            lossless,
            captions,
            out,
        } => {
            assert(names_of(ms) =~= seq![
                "cmd"@,
                "in"@,
                "trim"@,
                "fps"@,
                "scale_px"@,
                "quality"@,
                "lossless"@,
                "captions"@,
                "out"@,
            ]);
            members_found(ms);
            assert(ms[0].name == "cmd"@ && ms[1].name == "in"@ && ms[2].name == "trim"@
                && ms[3].name == "fps"@ && ms[4].name == "scale_px"@ && ms[5].name == "quality"@
                && ms[6].name == "lossless"@ && ms[7].name == "captions"@ && ms[8].name
                == "out"@);
            trim_round_trip(trim);
            numbers_read_back(fps, 0, 0, quality);
            if scale_px is Some {
                numbers_read_back(scale_px->0, 0, 0, Fraction::with_value(0));
            }
            captions_round_trip(captions);
            assert(source_of(ms) == Some(
                ExportSource { input, trim, fps, scale_px, captions, out },
            ));
        },
    }
}

// Encoder events

/// The tree that writes an encoder event.
pub open spec fn encoder_event_tree(m: EncoderEventView) -> JsonView {
    match m {
        EncoderEventView::Progress { percent } => JsonView::Object(
            seq![
                member("event"@, JsonView::Text("progress"@)),
                member("percent"@, natural(percent as nat)),
            ],
        ),
        EncoderEventView::Done { path } => JsonView::Object(
            seq![member("event"@, JsonView::Text("done"@)), member("path"@, JsonView::Text(path))],
        ),
        EncoderEventView::Error { kind, hint } => JsonView::Object(
            seq![
                member("event"@, JsonView::Text("error"@)),
                member("kind"@, JsonView::Text(kind_name(kind))),
                member("hint"@, JsonView::Text(hint)),
            ],
        ),
    }
}

/// The percentage of a progress event.
pub open spec fn progress_of(ms: Seq<MemberView>) -> Option<u32> {
    if only_keys(ms, seq!["event"@, "percent"@]) {
        u32_of(lookup(ms, "percent"@))
    } else {
        None
    }
}

/// The path of a done event.
pub open spec fn done_of(ms: Seq<MemberView>) -> Option<Seq<char>> {
    if only_keys(ms, seq!["event"@, "path"@]) {
        text_of(lookup(ms, "path"@))
    } else {
        None
    }
}

/// The encoder event that a tree writes, or why it writes none.
pub open spec fn encoder_event_of(t: JsonView) -> Result<EncoderEventView, DecodeError> {
    match t {
        JsonView::Object(ms) => match text_of(lookup(ms, "event"@)) {
            Some(tag) => if tag == "progress"@ {
                match progress_of(ms) {
                    Some(percent) => Ok(EncoderEventView::Progress { percent }),
                    None => Err(DecodeError::Schema),
                }
            } else if tag == "done"@ {
                match done_of(ms) {
                    Some(path) => Ok(EncoderEventView::Done { path }),
                    None => Err(DecodeError::Schema),
                }
            } else if tag == "error"@ {
                match failure_of(ms) {
                    Some((kind, hint)) => Ok(EncoderEventView::Error { kind, hint }),
                    None => Err(DecodeError::Schema),
                }
            } else {
                Err(DecodeError::UnknownVariant)
            },
            None => Err(DecodeError::Schema),
        },
        _ => Err(DecodeError::Schema),
    }
}

fn percent_from(ms: &Vec<Member>) -> (r: Option<u32>)
    ensures
        r == progress_of(member_views(ms@)),
{
    let keys = ["event", "percent"];
    assert(key_views(keys@) =~= seq!["event"@, "percent"@]);
    if !has_only_keys(ms, keys.as_slice()) {
        return None;
    }
    read_u32(get(ms, "percent"))
}

fn done_from(ms: &Vec<Member>) -> (r: Option<String>)
    ensures
        match done_of(member_views(ms@)) {
            Some(path) => r is Some && r->0@ == path,
            None => r is None,
        },
{
    let keys = ["event", "path"];
    assert(key_views(keys@) =~= seq!["event"@, "path"@]);
    if !has_only_keys(ms, keys.as_slice()) {
        return None;
    }
    read_text(get(ms, "path"))
}

/// Reads an encoder event from a tree.
pub fn encoder_event_from(j: &Json) -> (r: Result<EncoderEvent, DecodeError>)
    ensures
        decoded_is(r, encoder_event_of(j@)),
{
    let ms = match j {
        Json::Object(ms) => ms,
        _ => {
            return Err(DecodeError::Schema);
        },
    };
    proof {
        view_of_object(*ms);
    }
    let tag = match read_text(get(ms, "event")) {
        Some(tag) => tag,
        None => {
            return Err(DecodeError::Schema);
        },
    };
    if same_text(tag.as_str(), "progress") {
        match percent_from(ms) {
            Some(percent) => Ok(EncoderEvent::Progress { percent }),
            None => Err(DecodeError::Schema),
        }
    } else if same_text(tag.as_str(), "done") {
        match done_from(ms) {
            Some(path) => Ok(EncoderEvent::Done { path }),
            None => Err(DecodeError::Schema),
        }
    } else if same_text(tag.as_str(), "error") {
        match failure_from(ms) {
            Some((kind, hint)) => Ok(EncoderEvent::Error { kind, hint }),
            None => Err(DecodeError::Schema),
        }
    } else {
        Err(DecodeError::UnknownVariant)
    }
}

/// Writes an encoder event as a tree.
pub fn encoder_event_json(m: &EncoderEvent) -> (j: Json)
    ensures
        j@ == encoder_event_tree(m@),
{
    let mut ms: Vec<Member> = Vec::new();
    match m {
        EncoderEvent::Progress { percent } => {
            put(&mut ms, "event", text("progress"));
            put(&mut ms, "percent", natural_json(*percent as u64));
        },
        EncoderEvent::Done { path } => {
            put(&mut ms, "event", text("done"));
            put(&mut ms, "path", text_json(path));
        },
        EncoderEvent::Error { kind, hint } => {
            put(&mut ms, "event", text("error"));
            put(&mut ms, "kind", kind_json(*kind));
            put(&mut ms, "hint", text_json(hint));
        },
    }
    let j = object(ms);
    assert(j@->Object_0 =~= encoder_event_tree(m@)->Object_0);
    j
}

/// An encoder event that is written is read back.
pub proof fn encoder_event_round_trip(m: EncoderEventView)
    ensures
        encoder_event_of(encoder_event_tree(m)) == Ok::<EncoderEventView, DecodeError>(m),
{
    names_differ();
    Fraction::with_value_is(0);
    let ms = encoder_event_tree(m)->Object_0;
    match m {
        EncoderEventView::Progress { percent } => {
            assert(names_of(ms) =~= seq!["event"@, "percent"@]);
            members_found(ms);
            assert(ms[0].name == "event"@ && ms[1].name == "percent"@);
            numbers_read_back(percent, 0, 0, Fraction::with_value(0));
        },
        EncoderEventView::Done { path } => {
            assert(names_of(ms) =~= seq!["event"@, "path"@]);
            members_found(ms);
            assert(ms[0].name == "event"@ && ms[1].name == "path"@);
        },
        EncoderEventView::Error { kind, hint } => {
            assert(names_of(ms) =~= seq!["event"@, "kind"@, "hint"@]);
            members_found(ms);
            assert(ms[0].name == "event"@ && ms[1].name == "kind"@ && ms[2].name == "hint"@);
            names_round_trip(LoopMode::Normal, crate::types::CaptionAnimation::Still, kind);
        },
    }
}

// Lines

/// A message of the wire protocol: a value with a tree of its own.
pub trait Message {
    /// The tree that writes the message.
    spec fn tree(&self) -> JsonView;

    /// Writes the message as a tree.
    fn to_json(&self) -> (j: Json)
        ensures
            j@ == self.tree(),
    ;
}

impl Message for RecorderCommand {
    open spec fn tree(&self) -> JsonView {
        recorder_command_tree(self@)
    }

    fn to_json(&self) -> (j: Json) {
        recorder_command_json(self)
    }
}

impl Message for RecorderEvent {
    open spec fn tree(&self) -> JsonView {
        recorder_event_tree(self@)
    }

    fn to_json(&self) -> (j: Json) {
        recorder_event_json(self)
    }
}

impl Message for EncoderCommand {
    open spec fn tree(&self) -> JsonView {
        encoder_command_tree(self@)
    }

    fn to_json(&self) -> (j: Json) {
        encoder_command_json(self)
    }
}

impl Message for EncoderEvent {
    open spec fn tree(&self) -> JsonView {
        encoder_event_tree(self@)
    }

    fn to_json(&self) -> (j: Json) {
        encoder_event_json(self)
    }
}

/// The line that carries a tree: its compact text and one line feed.
pub open spec fn line_of(tree: JsonView) -> Option<Seq<char>> {
    match rendered_json(tree) {
        Some(text) => Some(text.push('\n')),
        None => None,
    }
}

/// Ends a text with a line feed.
pub fn terminate_line(text: String) -> (line: String)
    ensures
        line@ == text@.push('\n'),
{
    let mut line = text;
    push_char(&mut line, '\n');
    line
}

/// Writes a message as one line: its JSON text without any line feed inside,
/// then a single line feed.
///
/// A message whose tree is writable is always written; every message of the
/// four families is such a one. A message whose tree is written plainly, as
/// every message without a proportion is, is written as the JSON writer
/// prints that very tree.
pub fn to_jsonl<T: Message>(msg: &T) -> (r: Result<String, EncodeError>)
    ensures
        match line_of(msg.tree()) {
            Some(line) => r is Ok && r->Ok_0@ == line,
            None => r is Err,
        },
        r matches Ok(line) ==> line@.len() > 0 && line@.last() == '\n' && !line@.drop_last().contains(
            '\n',
        ),
        writable(msg.tree()) ==> r is Ok,
        written_plainly(msg.tree()) ==> r is Ok && printed_json(msg.tree()) == Some(
            r->Ok_0@.drop_last(),
        ),
{
    let j = msg.to_json();
    match render_json(&j) {
        Some(text) => {
            let ghost body = text@;
            let line = terminate_line(text);
            assert(line@.drop_last() == body);
            Ok(line)
        },
        None => Err(EncodeError::Unwritable),
    }
}

/// What a line is read as, given the reading of a tree.
pub open spec fn line_read<V>(
    line: Seq<char>,
    of_tree: spec_fn(JsonView) -> Result<V, DecodeError>,
) -> Result<V, DecodeError> {
    match parsed_json(line) {
        Some(tree) => of_tree(tree),
        None => Err(DecodeError::Syntax),
    }
}

/// Reads a line as a recorder command.
pub fn parse_recorder_command(line: &str) -> (r: Result<RecorderCommand, DecodeError>)
    ensures
        decoded_is(r, line_read(line@, |t: JsonView| recorder_command_of(t))),
{
    match parse_json(line) {
        Some(j) => recorder_command_from(&j),
        None => Err(DecodeError::Syntax),
    }
}

/// Reads a line as a recorder event.
pub fn parse_recorder_event(line: &str) -> (r: Result<RecorderEvent, DecodeError>)
    ensures
        decoded_is(r, line_read(line@, |t: JsonView| recorder_event_of(t))),
{
    match parse_json(line) {
        Some(j) => recorder_event_from(&j),
        None => Err(DecodeError::Syntax),
    }
}

/// Reads a line as an encoder command.
pub fn parse_encoder_command(line: &str) -> (r: Result<EncoderCommand, DecodeError>)
    ensures
        decoded_is(r, line_read(line@, |t: JsonView| encoder_command_of(t))),
{
    match parse_json(line) {
        Some(j) => encoder_command_from(&j),
        None => Err(DecodeError::Syntax),
    }
}

/// Reads a line as an encoder event.
pub fn parse_encoder_event(line: &str) -> (r: Result<EncoderEvent, DecodeError>)
    ensures
        decoded_is(r, line_read(line@, |t: JsonView| encoder_event_of(t))),
{
    match parse_json(line) {
        Some(j) => encoder_event_from(&j),
        None => Err(DecodeError::Syntax),
    }
}

// Order

/// The members of a message may come in any order: two objects with the same
/// members, none named twice, are read as the same message of each family,
/// or are refused for the same reason.
pub proof fn member_order_is_free(a: Seq<MemberView>, b: Seq<MemberView>)
    requires
        distinct_names(a),
        distinct_names(b),
        same_members(a, b),
    ensures
        recorder_command_of(JsonView::Object(a)) == recorder_command_of(JsonView::Object(b)),
        recorder_event_of(JsonView::Object(a)) == recorder_event_of(JsonView::Object(b)),
        encoder_command_of(JsonView::Object(a)) == encoder_command_of(JsonView::Object(b)),
        encoder_event_of(JsonView::Object(a)) == encoder_event_of(JsonView::Object(b)),
{
    order_is_free(a, b);
    assert(recorder_command_of(JsonView::Object(a)) == recorder_command_of(JsonView::Object(b)))
        by {
        assert(start_of(a) == start_of(b));
    }
    assert(recorder_event_of(JsonView::Object(a)) == recorder_event_of(JsonView::Object(b))) by {
        assert(pts_of(a) == pts_of(b));
        assert(stopped_of(a) == stopped_of(b));
        assert(failure_of(a) == failure_of(b));
    }
    assert(encoder_command_of(JsonView::Object(a)) == encoder_command_of(JsonView::Object(b)))
        by {
        assert(source_of(a) == source_of(b));
        assert(gif_of(a) == gif_of(b));
        assert(mp4_of(a) == mp4_of(b));
        assert(webp_of(a) == webp_of(b));
    }
    assert(encoder_event_of(JsonView::Object(a)) == encoder_event_of(JsonView::Object(b))) by {
        assert(progress_of(a) == progress_of(b));
        assert(done_of(a) == done_of(b));
        assert(failure_of(a) == failure_of(b));
    }
}

/// A list of names that holds every name of another keeps to what the other
/// keeps to.
proof fn keys_within(members: Seq<MemberView>, fewer: Seq<Seq<char>>, more: Seq<Seq<char>>)
    requires
        only_keys(members, fewer),
        forall|i: int| 0 <= i < fewer.len() ==> more.contains(#[trigger] fewer[i]),
    ensures
        only_keys(members, more),
{
    assert forall|i: int| 0 <= i < members.len() implies more.contains(
        #[trigger] members[i].name,
    ) by {
        let k = choose|k: int| 0 <= k < fewer.len() && fewer[k] == members[i].name;
        assert(more.contains(fewer[k]));
    }
}

/// Reading is strict: an object that is read as a message holds no member
/// but those of its family.
pub proof fn unknown_members_are_refused(members: Seq<MemberView>)
    ensures
        recorder_command_of(JsonView::Object(members)) is Ok ==> only_keys(
            members,
            seq!["cmd"@, "region"@, "fps"@, "cursor"@, "out"@],
        ),
        recorder_event_of(JsonView::Object(members)) is Ok ==> only_keys(
            members,
            seq!["event"@, "pts_ms"@, "duration_ms"@, "path"@, "kind"@, "hint"@],
        ),
        encoder_command_of(JsonView::Object(members)) is Ok ==> only_keys(
            members,
            seq![
                "cmd"@,
                "in"@,
                "trim"@,
                "fps"@,
                "scale_px"@,
                "loop"@,
                "quality"@,
                "lossless"@,
                "captions"@,
                "out"@,
            ],
        ),
        encoder_event_of(JsonView::Object(members)) is Ok ==> only_keys(
            members,
            seq!["event"@, "percent"@, "path"@, "kind"@, "hint"@],
        ),
{
    let rc = seq!["cmd"@, "region"@, "fps"@, "cursor"@, "out"@];
    if recorder_command_of(JsonView::Object(members)) is Ok {
        if only_keys(members, seq!["cmd"@]) {
            assert(rc[0] == "cmd"@);
            keys_within(members, seq!["cmd"@], rc);
        }
    }
    let re = seq!["event"@, "pts_ms"@, "duration_ms"@, "path"@, "kind"@, "hint"@];
    if recorder_event_of(JsonView::Object(members)) is Ok {
        assert(re[0] == "event"@ && re[1] == "pts_ms"@ && re[2] == "duration_ms"@ && re[3]
            == "path"@ && re[4] == "kind"@ && re[5] == "hint"@);
        if only_keys(members, seq!["event"@, "pts_ms"@]) {
            keys_within(members, seq!["event"@, "pts_ms"@], re);
        }
        if only_keys(members, seq!["event"@, "duration_ms"@, "path"@]) {
            keys_within(members, seq!["event"@, "duration_ms"@, "path"@], re);
        }
        if only_keys(members, seq!["event"@, "kind"@, "hint"@]) {
            keys_within(members, seq!["event"@, "kind"@, "hint"@], re);
        }
    }
    let ec = seq![
        "cmd"@,
        "in"@,
        "trim"@,
        "fps"@,
        "scale_px"@,
        "loop"@,
        "quality"@,
        "lossless"@,
        "captions"@,
        "out"@,
    ];
    if encoder_command_of(JsonView::Object(members)) is Ok {
        assert(ec[0] == "cmd"@ && ec[1] == "in"@ && ec[2] == "trim"@ && ec[3] == "fps"@ && ec[4]
            == "scale_px"@ && ec[5] == "loop"@ && ec[6] == "quality"@ && ec[7] == "lossless"@
            && ec[8] == "captions"@ && ec[9] == "out"@);
        let gif = seq!["cmd"@, "in"@, "trim"@, "fps"@, "scale_px"@, "loop"@, "captions"@, "out"@];
        let mp4 = seq![
            "cmd"@,
            "in"@,
            "trim"@,
            "fps"@,
            "scale_px"@,
            "quality"@,
            "captions"@,
            "out"@,
        ];
        let webp = seq![
            "cmd"@,
            "in"@,
            "trim"@,
            "fps"@,
            "scale_px"@,
            "quality"@,
            "lossless"@,
            "captions"@,
            "out"@,
        ];
        if only_keys(members, gif) {
            keys_within(members, gif, ec);
        }
        if only_keys(members, mp4) {
            keys_within(members, mp4, ec);
        }
        if only_keys(members, webp) {
            keys_within(members, webp, ec);
        }
    }
    let ee = seq!["event"@, "percent"@, "path"@, "kind"@, "hint"@];
    if encoder_event_of(JsonView::Object(members)) is Ok {
        assert(ee[0] == "event"@ && ee[1] == "percent"@ && ee[2] == "path"@ && ee[3] == "kind"@
            && ee[4] == "hint"@);
        if only_keys(members, seq!["event"@, "percent"@]) {
            keys_within(members, seq!["event"@, "percent"@], ee);
        }
        if only_keys(members, seq!["event"@, "path"@]) {
            keys_within(members, seq!["event"@, "path"@], ee);
        }
        if only_keys(members, seq!["event"@, "kind"@, "hint"@]) {
            keys_within(members, seq!["event"@, "kind"@, "hint"@], ee);
        }
    }
}

// Writing

/// Recorder commands, recorder events and encoder events are written as the
/// JSON writer prints their trees: `to_jsonl` never fails on them.
pub proof fn messages_are_written_plainly(
    command: RecorderCommandView,
    event: RecorderEventView,
    news: EncoderEventView,
)
    ensures
        written_plainly(recorder_command_tree(command)),
        written_plainly(recorder_event_tree(event)),
        written_plainly(encoder_event_tree(news)),
{
    names_differ();
    match command {
        RecorderCommandView::Start { region, fps, cursor, out } => {
            region_is_written_plainly(region);
            natural_is_written_plainly(fps as u64);
        },
        RecorderCommandView::Stop => {},
    }
    object_is_writable(recorder_command_tree(command)->Object_0);
    match event {
        RecorderEventView::Started { pts_ms } => {
            natural_is_written_plainly(pts_ms);
        },
        RecorderEventView::Progress { pts_ms } => {
            natural_is_written_plainly(pts_ms);
        },
        RecorderEventView::Stopped { duration_ms, path } => {
            natural_is_written_plainly(duration_ms);
        },
        RecorderEventView::Error { kind, hint } => {},
    }
    object_is_writable(recorder_event_tree(event)->Object_0);
    match news {
        EncoderEventView::Progress { percent } => {
            natural_is_written_plainly(percent as u64);
        },
        _ => {},
    }
    object_is_writable(encoder_event_tree(news)->Object_0);
}

/// The trim range, the frame rate and the target width of an encoder command
/// are writable.
proof fn source_is_writable(trim: TrimRange, fps: u32, scale_px: Option<u32>)
    ensures
        writable(trim_tree(trim)),
        writable(natural(fps as nat)),
        writable(optional_natural(scale_px)),
{
    trim_is_written_plainly(trim);
    plain_is_writable(trim_tree(trim));
    natural_is_written_plainly(fps as u64);
    plain_is_writable(natural(fps as nat));
    match scale_px {
        Some(w) => {
            natural_is_written_plainly(w as u64);
        },
        None => {
            natural_is_written_plainly(0);
        },
    }
    plain_is_writable(optional_natural(scale_px));
}

/// An encoder command with valid proportions is written so that the JSON
/// writer takes it: `to_jsonl` never fails on it.
pub proof fn encoder_commands_are_writable(m: EncoderCommandView)
    requires
        encoder_command_valid(m),
    ensures
        writable(encoder_command_tree(m)),
{
    names_differ();
    let ms = encoder_command_tree(m)->Object_0;
    match m {
        EncoderCommandView::Gif { input, trim, fps, scale_px, loop_mode, captions, out } => {
            source_is_writable(trim, fps, scale_px);
            captions_are_writable(captions);
            object_is_writable(ms);
        },
        EncoderCommandView::Mp4 { input, trim, fps, scale_px, quality, captions, out } => {
            source_is_writable(trim, fps, scale_px);
            captions_are_writable(captions);
            proportions_are_writable(quality);
            object_is_writable(ms);
        },
        EncoderCommandView::Webp {
            input,
            trim,
            fps,
            scale_px,
            quality,
            lossless,
            captions,
            out,
        } => {
            source_is_writable(trim, fps, scale_px);
            captions_are_writable(captions);
            proportions_are_writable(quality);
            object_is_writable(ms);
        },
    }
}

} // verus!
