use mandygif::{
    parse_encoder_command, parse_encoder_event, parse_recorder_command, parse_recorder_event,
    to_jsonl, Caption, CaptionAnimation, CaptionRect, CaptionStyle, CaptureRegion, DecodeError,
    EncoderCommand, EncoderEvent, ErrorKind, Fraction, LoopMode, RecorderCommand, RecorderEvent,
    TrimRange,
};

fn part(millionths: u32) -> Fraction {
    Fraction::from_millionths(millionths).expect("a proportion")
}

fn caption(text: &str, start_ms: u64, end_ms: u64) -> Caption {
    Caption {
        text: text.to_string(),
        font: "DejaVu Sans".to_string(),
        style: CaptionStyle { color: "#fff".to_string(), stroke: "#0008".to_string(), size: 24 },
        rect: CaptionRect { x: part(100_000), y: part(800_000), w: part(333_333), h: part(1) },
        start_ms,
        end_ms,
        animation: CaptionAnimation::Fade,
    }
}

#[test]
fn test_start_roundtrip() {
    let cmd = RecorderCommand::Start {
        region: CaptureRegion { x: 128, y: 96, width: 640, height: 360 },
        fps: 30,
        cursor: true,
        out: "/tmp/clip.mp4".to_string(),
    };

    let jsonl = to_jsonl(&cmd).expect("serialization failed");
    let parsed = parse_recorder_command(&jsonl).expect("parse failed");
    assert_eq!(cmd, parsed);
}

#[test]
fn test_gif_roundtrip() {
    let cmd = EncoderCommand::Gif {
        input: "/tmp/clip.mp4".to_string(),
        trim: TrimRange { start_ms: 200, end_ms: 5200 },
        fps: 15,
        scale_px: Some(480),
        loop_mode: LoopMode::Pingpong,
        captions: vec![],
        out: "/tmp/out.gif".to_string(),
    };

    let jsonl = to_jsonl(&cmd).expect("serialization failed");
    let parsed = parse_encoder_command(&jsonl).expect("parse failed");
    assert_eq!(cmd, parsed);
}

#[test]
fn test_recorder_command() {
    let cmd = RecorderCommand::Start {
        region: CaptureRegion { x: 10, y: 20, width: 800, height: 600 },
        fps: 60,
        cursor: true,
        out: "/tmp/test.mp4".to_string(),
    };

    let json = to_jsonl(&cmd).expect("serialization failed");
    let parsed = parse_recorder_command(&json).expect("parse failed");

    assert_eq!(cmd, parsed);
}

#[test]
fn test_encoder_command() {
    let cmd = EncoderCommand::Gif {
        input: "in.mp4".to_string(),
        trim: TrimRange { start_ms: 0, end_ms: 1000 },
        fps: 15,
        scale_px: Some(320),
        loop_mode: LoopMode::Normal,
        captions: vec![],
        out: "out.gif".to_string(),
    };

    let json = to_jsonl(&cmd).expect("serialization failed");
    let parsed = parse_encoder_command(&json).expect("parse failed");

    if let EncoderCommand::Gif { input, trim: _, fps, scale_px, loop_mode: _, captions: _, out } =
        parsed
    {
        assert_eq!(input, "in.mp4".to_string());
        assert_eq!(fps, 15);
        assert_eq!(scale_px, Some(320));
        assert_eq!(out, "out.gif".to_string());
    } else {
        panic!("Wrong variant parsed");
    }
}

#[test]
fn test_recorder_event_roundtrip() {
    let evt = RecorderEvent::Started { pts_ms: 1234 };
    let json = to_jsonl(&evt).expect("serialization failed");
    let parsed = parse_recorder_event(&json).expect("parse failed");

    if let RecorderEvent::Started { pts_ms } = parsed {
        assert_eq!(pts_ms, 1234);
    } else {
        panic!("Wrong variant");
    }
}

#[test]
fn start_has_the_documented_shape() {
    let cmd = RecorderCommand::Start {
        region: CaptureRegion { x: 128, y: 96, width: 640, height: 360 },
        fps: 30,
        cursor: true,
        out: "/tmp/clip.mp4".to_string(),
    };
    assert_eq!(
        to_jsonl(&cmd).unwrap(),
        "{\"cmd\":\"start\",\"region\":{\"x\":128,\"y\":96,\"width\":640,\"height\":360},\"fps\":30,\"cursor\":true,\"out\":\"/tmp/clip.mp4\"}\n"
    );
    assert_eq!(to_jsonl(&RecorderCommand::Stop).unwrap(), "{\"cmd\":\"stop\"}\n");
}

#[test]
fn stopped_has_the_documented_shape() {
    let evt = RecorderEvent::Stopped { duration_ms: 10333, path: "/tmp/clip.mp4".to_string() };
    assert_eq!(
        to_jsonl(&evt).unwrap(),
        "{\"event\":\"stopped\",\"duration_ms\":10333,\"path\":\"/tmp/clip.mp4\"}\n"
    );
}

#[test]
fn gif_export_has_the_documented_shape() {
    let cmd = EncoderCommand::Gif {
        input: "/tmp/clip.mp4".to_string(),
        trim: TrimRange { start_ms: 200, end_ms: 5200 },
        fps: 15,
        scale_px: Some(480),
        loop_mode: LoopMode::Pingpong,
        captions: vec![],
        out: "/tmp/out.gif".to_string(),
    };
    assert_eq!(
        to_jsonl(&cmd).unwrap(),
        "{\"cmd\":\"gif\",\"in\":\"/tmp/clip.mp4\",\"trim\":{\"start_ms\":200,\"end_ms\":5200},\"fps\":15,\"scale_px\":480,\"loop\":\"pingpong\",\"captions\":[],\"out\":\"/tmp/out.gif\"}\n"
    );
}

#[test]
fn every_recorder_event_comes_back() {
    let events = vec![
        RecorderEvent::Started { pts_ms: 0 },
        RecorderEvent::Progress { pts_ms: u64::MAX },
        RecorderEvent::Stopped { duration_ms: 10333, path: "/tmp/a \"b\"\n.mp4".to_string() },
        RecorderEvent::Error { kind: ErrorKind::PermissionDenied, hint: "no".to_string() },
        RecorderEvent::Error { kind: ErrorKind::InvalidInput, hint: "".to_string() },
        RecorderEvent::Error { kind: ErrorKind::EncodingFailed, hint: "é".to_string() },
        RecorderEvent::Error { kind: ErrorKind::IoError, hint: "\\".to_string() },
        RecorderEvent::Error { kind: ErrorKind::UnsupportedPlatform, hint: "x".to_string() },
    ];
    for evt in events {
        let line = to_jsonl(&evt).unwrap();
        assert_eq!(line.matches('\n').count(), 1);
        assert!(line.ends_with('\n'));
        assert_eq!(parse_recorder_event(&line), Ok(evt));
    }
}

#[test]
fn every_encoder_event_comes_back() {
    let events = vec![
        EncoderEvent::Progress { percent: 42 },
        EncoderEvent::Done { path: "/tmp/out.gif".to_string() },
        EncoderEvent::Error { kind: ErrorKind::EncodingFailed, hint: "ffmpeg failed".to_string() },
    ];
    for evt in events {
        let line = to_jsonl(&evt).unwrap();
        assert_eq!(parse_encoder_event(&line), Ok(evt));
    }
}

#[test]
fn every_encoder_command_comes_back() {
    let captions = vec![caption("it's", 0, 1000), caption("B", 500, 1500)];
    let commands = vec![
        EncoderCommand::Gif {
            input: "in.mp4".to_string(),
            trim: TrimRange { start_ms: 0, end_ms: 1000 },
            fps: 15,
            scale_px: None,
            loop_mode: LoopMode::Once,
            captions: captions.clone(),
            out: "out.gif".to_string(),
        },
        EncoderCommand::Mp4 {
            input: "in.mp4".to_string(),
            trim: TrimRange { start_ms: 5, end_ms: 6 },
            fps: 30,
            scale_px: Some(u32::MAX),
            quality: part(800_000),
            captions: captions.clone(),
            out: "out.mp4".to_string(),
        },
        EncoderCommand::Webp {
            input: "in.mp4".to_string(),
            trim: TrimRange { start_ms: 5, end_ms: 6 },
            fps: 30,
            scale_px: Some(0),
            quality: part(1),
            lossless: true,
            captions: vec![],
            out: "out.webp".to_string(),
        },
    ];
    for cmd in commands {
        let line = to_jsonl(&cmd).unwrap();
        assert_eq!(parse_encoder_command(&line), Ok(cmd));
    }
}

#[test]
fn every_proportion_comes_back() {
    let mut m: u32 = 0;
    while m <= 1_000_000 {
        let cmd = EncoderCommand::Mp4 {
            input: "i".to_string(),
            trim: TrimRange { start_ms: 0, end_ms: 0 },
            fps: 1,
            scale_px: None,
            quality: part(m),
            captions: vec![],
            out: "o".to_string(),
        };
        let line = to_jsonl(&cmd).unwrap();
        assert_eq!(parse_encoder_command(&line), Ok(cmd), "at {} millionths", m);
        m += if m < 2_000 || m > 998_000 { 1 } else { 997 };
    }
}

#[test]
fn members_may_come_in_any_order() {
    let line = "{\"out\":\"/tmp/c.mp4\",\"fps\":30,\"region\":{\"height\":360,\"width\":640,\"y\":-96,\"x\":-128},\"cmd\":\"start\"}";
    assert_eq!(
        parse_recorder_command(line),
        Ok(RecorderCommand::Start {
            region: CaptureRegion { x: -128, y: -96, width: 640, height: 360 },
            fps: 30,
            cursor: false,
            out: "/tmp/c.mp4".to_string(),
        })
    );
}

#[test]
fn what_is_not_a_message_is_refused() {
    assert_eq!(parse_recorder_event("recorder starting"), Err(DecodeError::Syntax));
    assert_eq!(parse_recorder_event("{\"event\":\"paused\"}"), Err(DecodeError::UnknownVariant));
    assert_eq!(parse_recorder_command("{\"cmd\":\"stop\",\"now\":true}"), Err(DecodeError::Schema));
    assert_eq!(parse_recorder_command("[]"), Err(DecodeError::Schema));
    assert_eq!(parse_recorder_command("{\"cmd\":7}"), Err(DecodeError::Schema));
    assert_eq!(parse_recorder_command("{}"), Err(DecodeError::Schema));
    assert_eq!(
        parse_recorder_event("{\"event\":\"started\",\"pts_ms\":1.5}"),
        Err(DecodeError::Schema)
    );
    assert_eq!(
        parse_recorder_event("{\"event\":\"started\",\"pts_ms\":-1}"),
        Err(DecodeError::Schema)
    );
    assert_eq!(
        parse_recorder_event("{\"event\":\"started\",\"pts_ms\":18446744073709551616}"),
        Err(DecodeError::Schema)
    );
    assert_eq!(
        parse_encoder_event("{\"event\":\"progress\",\"percent\":4294967296}"),
        Err(DecodeError::Schema)
    );
    assert_eq!(
        parse_encoder_event("{\"event\":\"error\",\"kind\":\"IoError\",\"hint\":\"\"}"),
        Err(DecodeError::Schema)
    );
    assert_eq!(
        parse_encoder_command(
            "{\"cmd\":\"mp4\",\"in\":\"i\",\"trim\":{\"start_ms\":0,\"end_ms\":1},\"fps\":1,\"quality\":1.5,\"captions\":[],\"out\":\"o\"}"
        ),
        Err(DecodeError::Schema)
    );
}

#[test]
fn a_quality_is_read_to_the_nearest_millionth() {
    let with = |q: &str| {
        parse_encoder_command(&format!(
            "{{\"cmd\":\"mp4\",\"in\":\"i\",\"trim\":{{\"start_ms\":0,\"end_ms\":1}},\"fps\":1,\"quality\":{},\"captions\":[],\"out\":\"o\"}}",
            q
        ))
    };
    let quality = |q: &str| match with(q) {
        Ok(EncoderCommand::Mp4 { quality, .. }) => Some(quality.millionths()),
        _ => None,
    };
    assert_eq!(quality("0.8"), Some(800_000));
    assert_eq!(quality("0"), Some(0));
    assert_eq!(quality("1"), Some(1_000_000));
    assert_eq!(quality("1.0"), Some(1_000_000));
    assert_eq!(quality("0.33333334"), Some(333_333));
    assert_eq!(quality("0.6666667"), Some(666_667));
    assert_eq!(quality("0.0000005"), Some(1));
    assert_eq!(quality("0.00000049"), Some(0));
    assert_eq!(quality("1e-3"), Some(1_000));
    assert_eq!(quality("2.5E-1"), Some(250_000));
    assert_eq!(quality("1e-400"), Some(0));
    assert_eq!(quality("1.0000004"), Some(1_000_000));
    assert_eq!(quality("1.0000005"), None);
    assert_eq!(quality("-0.5"), None);
    assert_eq!(quality("2"), None);
    assert_eq!(quality("1e30"), None);
    assert_eq!(quality("\"0.8\""), None);
}

struct Unwritable;

impl mandygif::Message for Unwritable {
    fn tree(&self) -> mandygif::json::JsonView {
        mandygif::json::JsonView::Null
    }

    fn to_json(&self) -> mandygif::json::Json {
        mandygif::json::Json::List(vec![mandygif::json::Json::Number("1.".to_string())])
    }
}

#[test]
fn a_tree_that_cannot_be_written_is_an_error() {
    assert_eq!(to_jsonl(&Unwritable), Err(mandygif::EncodeError::Unwritable));
}
