use mandygif::color::ColorError;
use mandygif::encoder::{
    after_step, export_outcome, handle_command, on_command, plan_command, send_done, send_error,
    step_failed, watch_line, ExportFormat, ExportNews,
};
use mandygif::export::{
    build_encode_cmd, crf_for_quality, encode_gif, encode_mp4, encode_webp, quality_percent,
    ExportWarning,
};
use mandygif::{
    Caption, CaptionAnimation, CaptionRect, CaptionStyle, EncoderCommand, EncoderEvent,
    ErrorKind, Fraction, LoopMode, TrimRange,
};

fn level(millionths: u32) -> Fraction {
    Fraction::from_millionths(millionths).expect("a proportion")
}

fn strings(args: &[&str]) -> Vec<String> {
    args.iter().map(|s| s.to_string()).collect()
}

fn bad_caption() -> Caption {
    Caption {
        text: "x".to_string(),
        font: "f".to_string(),
        style: CaptionStyle { color: "#12".to_string(), stroke: "#000".to_string(), size: 1 },
        rect: CaptionRect { x: level(0), y: level(0), w: level(0), h: level(0) },
        start_ms: 0,
        end_ms: 1,
        animation: CaptionAnimation::Still,
    }
}

#[test]
fn full_quality_is_crf_18_and_none_is_crf_51() {
    assert_eq!(crf_for_quality(Fraction::one()), 18);
    assert_eq!(crf_for_quality(Fraction::zero()), 51);
    assert_eq!(crf_for_quality(level(500_000)), 35);
    assert_eq!(crf_for_quality(level(800_000)), 25);
    assert_eq!(crf_for_quality(level(984_848)), 19);
    assert_eq!(crf_for_quality(level(984_849)), 18);
}

#[test]
fn crf_never_rises_with_quality() {
    let mut last = crf_for_quality(Fraction::zero());
    let mut m: u32 = 0;
    while m <= 1_000_000 {
        let crf = crf_for_quality(level(m));
        assert!(crf <= last);
        assert!((18..=51).contains(&crf));
        assert_eq!(crf as f64, (51.0 - (m as f64 / 1e6) * 33.0).round());
        last = crf;
        m += 50;
    }
}

#[test]
fn lossy_quality_is_a_rounded_percentage() {
    assert_eq!(quality_percent(Fraction::zero()), 0);
    assert_eq!(quality_percent(Fraction::one()), 100);
    assert_eq!(quality_percent(level(800_000)), 80);
    assert_eq!(quality_percent(level(4_999)), 0);
    assert_eq!(quality_percent(level(5_000)), 1);
    assert_eq!(quality_percent(level(994_999)), 99);
    assert_eq!(quality_percent(level(995_000)), 100);
}

#[test]
fn a_trim_that_ends_before_it_starts_has_no_length() {
    assert_eq!(TrimRange { start_ms: 5200, end_ms: 200 }.duration_ms(), 0);
    assert_eq!(TrimRange { start_ms: u64::MAX, end_ms: 0 }.duration_ms(), 0);
    assert_eq!(TrimRange { start_ms: 200, end_ms: 5200 }.duration_ms(), 5000);
    assert_eq!(TrimRange { start_ms: 7, end_ms: 7 }.duration_ms(), 0);
    assert_eq!(TrimRange { start_ms: 0, end_ms: u64::MAX }.duration_ms(), u64::MAX);
    assert!(!TrimRange { start_ms: 2, end_ms: 1 }.is_valid());
    assert!(TrimRange { start_ms: 1, end_ms: 1 }.is_valid());
}

#[test]
fn a_gif_is_made_in_two_runs() {
    let trim = TrimRange { start_ms: 200, end_ms: 5200 };
    let plan = encode_gif(
        "/tmp/clip.mp4",
        &trim,
        15,
        Some(480),
        &LoopMode::Normal,
        &[],
        "/tmp/t/palette.png",
        "/tmp/out.gif",
    )
    .unwrap();
    assert_eq!(plan.warning, None);
    assert_eq!(
        plan.steps,
        vec![
            strings(&[
                "-ss",
                "0.200",
                "-t",
                "5.000",
                "-i",
                "/tmp/clip.mp4",
                "-vf",
                "fps=15,scale=480:-2:flags=lanczos,palettegen",
                "-y",
                "/tmp/t/palette.png",
            ]),
            strings(&[
                "-ss",
                "0.200",
                "-t",
                "5.000",
                "-i",
                "/tmp/clip.mp4",
                "-i",
                "/tmp/t/palette.png",
                "-lavfi",
                "fps=15,scale=480:-2:flags=lanczos [x]; [x][1:v] paletteuse",
                "-loop",
                "0",
                "-y",
                "/tmp/out.gif",
            ]),
        ]
    );
}

#[test]
fn loop_modes_become_loop_options() {
    let trim = TrimRange { start_ms: 0, end_ms: 1 };
    let plan_for = |mode: LoopMode| encode_gif("i", &trim, 1, None, &mode, &[], "p", "o").unwrap();
    let once = plan_for(LoopMode::Once);
    assert_eq!(once.steps[1][11], "-1");
    assert_eq!(once.warning, None);
    let normal = plan_for(LoopMode::Normal);
    assert_eq!(normal.steps[1][11], "0");
    assert_eq!(normal.warning, None);
    let pingpong = plan_for(LoopMode::Pingpong);
    assert_eq!(pingpong.steps, normal.steps);
    assert_eq!(pingpong.warning, Some(ExportWarning::PingpongNotImplemented));
}

#[test]
fn an_mp4_is_made_in_one_run() {
    let trim = TrimRange { start_ms: 1000, end_ms: 500 };
    let plan = encode_mp4("in.mp4", &trim, 30, None, level(800_000), &[], "out.mp4").unwrap();
    assert_eq!(plan.warning, None);
    assert_eq!(
        plan.steps,
        vec![strings(&[
            "-ss",
            "1.000",
            "-t",
            "0.000",
            "-i",
            "in.mp4",
            "-vf",
            "fps=30,scale=trunc(iw/2)*2:trunc(ih/2)*2",
            "-c:v",
            "libx264",
            "-preset",
            "medium",
            "-crf",
            "25",
            "-pix_fmt",
            "yuv420p",
            "-movflags",
            "+faststart",
            "-y",
            "out.mp4",
        ])]
    );
}

#[test]
fn a_webp_is_lossless_or_has_a_quality() {
    let trim = TrimRange { start_ms: 0, end_ms: 2500 };
    let lossy = encode_webp("in.mp4", &trim, 10, Some(320), level(800_000), false, &[], "o.webp")
        .unwrap();
    assert_eq!(
        lossy.steps,
        vec![strings(&[
            "-ss",
            "0.000",
            "-t",
            "2.500",
            "-i",
            "in.mp4",
            "-vf",
            "fps=10,scale=320:-2:flags=lanczos",
            "-quality",
            "80",
            "-loop",
            "0",
            "-y",
            "o.webp",
        ])]
    );
    let lossless =
        encode_webp("in.mp4", &trim, 10, Some(320), level(123_456), true, &[], "o.webp").unwrap();
    let other =
        encode_webp("in.mp4", &trim, 10, Some(320), level(999_999), true, &[], "o.webp").unwrap();
    assert_eq!(lossless, other);
    assert_eq!(lossless.steps[0][8..10], strings(&["-lossless", "1"])[..]);
}

#[test]
fn a_refused_colour_refuses_the_plan() {
    let trim = TrimRange { start_ms: 0, end_ms: 1 };
    let caps = [bad_caption()];
    assert_eq!(
        encode_gif("i", &trim, 1, None, &LoopMode::Once, &caps, "p", "o"),
        Err(ColorError::Length)
    );
    assert_eq!(encode_mp4("i", &trim, 1, None, level(1), &caps, "o"), Err(ColorError::Length));
    assert_eq!(
        encode_webp("i", &trim, 1, None, level(1), true, &caps, "o"),
        Err(ColorError::Length)
    );
}

#[test]
fn the_format_chooses_the_command() {
    assert_eq!(
        build_encode_cmd("/tmp/r.mp4".to_string(), "gif", 15, (0, 9000), 480),
        EncoderCommand::Gif {
            input: "/tmp/r.mp4".to_string(),
            trim: TrimRange { start_ms: 0, end_ms: 9000 },
            fps: 15,
            scale_px: Some(480),
            loop_mode: LoopMode::Normal,
            captions: vec![],
            out: "/tmp/export.gif".to_string(),
        }
    );
    assert_eq!(
        build_encode_cmd("/tmp/r.mp4".to_string(), "webp", 15, (1, 2), 480),
        EncoderCommand::Webp {
            input: "/tmp/r.mp4".to_string(),
            trim: TrimRange { start_ms: 1, end_ms: 2 },
            fps: 15,
            scale_px: Some(480),
            quality: level(800_000),
            lossless: false,
            captions: vec![],
            out: "/tmp/export.webp".to_string(),
        }
    );
    for fmt in ["mp4", "mov", ""] {
        assert_eq!(
            build_encode_cmd("/tmp/r.mp4".to_string(), fmt, 24, (0, 1), 2),
            EncoderCommand::Mp4 {
                input: "/tmp/r.mp4".to_string(),
                trim: TrimRange { start_ms: 0, end_ms: 1 },
                fps: 24,
                scale_px: Some(2),
                quality: level(800_000),
                captions: vec![],
                out: format!("/tmp/export.{}", fmt),
            }
        );
    }
}

#[test]
fn a_command_line_becomes_a_job() {
    let line = "{\"cmd\":\"gif\",\"in\":\"/tmp/clip.mp4\",\"trim\":{\"start_ms\":200,\"end_ms\":5200},\"fps\":15,\"scale_px\":480,\"loop\":\"pingpong\",\"captions\":[],\"out\":\"/tmp/out.gif\"}";
    let job = handle_command(line, "/tmp/p.png").unwrap();
    assert_eq!(job.format, ExportFormat::Gif);
    assert_eq!(job.out, "/tmp/out.gif");
    assert_eq!(job.plan.warning, Some(ExportWarning::PingpongNotImplemented));
    assert_eq!(job.plan.steps.len(), 2);
    assert_eq!(job.plan.steps[0].last().unwrap(), "/tmp/p.png");
    assert_eq!(job.plan.steps[1].last().unwrap(), "/tmp/out.gif");

    let mp4 = plan_command(build_encode_cmd("a".to_string(), "mp4", 1, (0, 1), 2), "p").unwrap();
    assert_eq!(mp4.format, ExportFormat::Mp4);
    assert_eq!(mp4.plan.steps.len(), 1);
    let webp = plan_command(build_encode_cmd("a".to_string(), "webp", 1, (0, 1), 2), "p").unwrap();
    assert_eq!(webp.format, ExportFormat::Webp);
    assert_eq!(webp.out, "/tmp/export.webp");
}

#[test]
fn a_bad_command_line_becomes_an_error_event() {
    assert_eq!(
        handle_command("not json", "p"),
        Err(EncoderEvent::Error {
            kind: ErrorKind::InvalidInput,
            hint: "line is not JSON".to_string(),
        })
    );
    assert_eq!(
        handle_command("{\"cmd\":\"avi\"}", "p"),
        Err(EncoderEvent::Error {
            kind: ErrorKind::InvalidInput,
            hint: "unknown message variant".to_string(),
        })
    );
    assert_eq!(
        handle_command("{\"cmd\":\"gif\"}", "p"),
        Err(EncoderEvent::Error {
            kind: ErrorKind::InvalidInput,
            hint: "message does not match its schema".to_string(),
        })
    );
    let cmd = EncoderCommand::Mp4 {
        input: "i".to_string(),
        trim: TrimRange { start_ms: 0, end_ms: 1 },
        fps: 1,
        scale_px: None,
        quality: level(1),
        captions: vec![bad_caption()],
        out: "o".to_string(),
    };
    assert_eq!(
        on_command(Ok(cmd.clone()), "p"),
        Err(EncoderEvent::Error {
            kind: ErrorKind::InvalidInput,
            hint: "Invalid hex color format".to_string(),
        })
    );
    assert_eq!(plan_command(cmd, "p"), Err(ColorError::Length));
    assert_eq!(ColorError::Digit.message(), "invalid digit found in string");
    assert_eq!(ColorError::Length.message(), "Invalid hex color format");
}

fn failure(kind: ErrorKind, hint: &str) -> EncoderEvent {
    EncoderEvent::Error { kind, hint: hint.to_string() }
}

#[test]
fn failed_runs_are_reported_in_words() {
    let failed = ErrorKind::EncodingFailed;
    let system = ErrorKind::IoError;
    assert_eq!(
        step_failed(ExportFormat::Gif, 0, Some("boom")),
        failure(failed, "ffmpeg palette generation failed")
    );
    assert_eq!(
        step_failed(ExportFormat::Gif, 1, Some("boom")),
        failure(failed, "ffmpeg GIF encoding failed: boom")
    );
    assert_eq!(
        step_failed(ExportFormat::Mp4, 0, Some("boom")),
        failure(failed, "ffmpeg MP4 encoding failed: boom")
    );
    assert_eq!(
        step_failed(ExportFormat::Webp, 0, Some("")),
        failure(failed, "ffmpeg WebP encoding failed: ")
    );
    assert_eq!(step_failed(ExportFormat::Gif, 0, None), failure(system, "Palette generation failed"));
    assert_eq!(step_failed(ExportFormat::Gif, 1, None), failure(system, "GIF encoding failed"));
    assert_eq!(step_failed(ExportFormat::Mp4, 0, None), failure(system, "Failed to execute ffmpeg"));
    assert_eq!(step_failed(ExportFormat::Webp, 0, None), failure(system, "Failed to execute ffmpeg"));
}

#[test]
fn a_failed_run_ends_the_plan() {
    assert_eq!(
        after_step(ExportFormat::Gif, 0, 2, false, Some("no palette")),
        Err(failure(ErrorKind::EncodingFailed, "ffmpeg palette generation failed"))
    );
    assert_eq!(
        after_step(ExportFormat::Gif, 0, 2, false, None),
        Err(failure(ErrorKind::IoError, "Palette generation failed"))
    );
    assert_eq!(
        after_step(ExportFormat::Gif, 1, 2, false, Some("x")),
        Err(failure(ErrorKind::EncodingFailed, "ffmpeg GIF encoding failed: x"))
    );
    assert_eq!(
        after_step(ExportFormat::Mp4, 0, 1, false, Some("x")),
        Err(failure(ErrorKind::EncodingFailed, "ffmpeg MP4 encoding failed: x"))
    );
}

#[test]
fn a_run_that_went_well_is_followed_by_the_next() {
    assert_eq!(after_step(ExportFormat::Gif, 0, 2, true, Some("frame=1")), Ok(true));
    assert_eq!(after_step(ExportFormat::Gif, 1, 2, true, Some("")), Ok(false));
    assert_eq!(after_step(ExportFormat::Mp4, 0, 1, true, None), Ok(false));
    assert_eq!(after_step(ExportFormat::Webp, 0, 0, true, None), Ok(false));
    assert_eq!(after_step(ExportFormat::Webp, 5, 2, true, None), Ok(false));
    assert_eq!(after_step(ExportFormat::Webp, usize::MAX, usize::MAX, true, None), Ok(false));
    assert_eq!(after_step(ExportFormat::Webp, usize::MAX - 2, usize::MAX, true, None), Ok(true));
}

#[test]
fn only_a_finished_export_of_a_process_that_ended_well_is_a_success() {
    let done = || ExportNews::Done("/tmp/o.gif".to_string());
    assert_eq!(export_outcome(done(), true), Ok("/tmp/o.gif".to_string()));
    assert_eq!(
        export_outcome(done(), false),
        Err(failure(ErrorKind::EncodingFailed, "Encoder exited with an error"))
    );
    for exit_ok in [true, false] {
        assert_eq!(
            export_outcome(ExportNews::Failed(ErrorKind::InvalidInput, "bad".to_string()), exit_ok),
            Err(failure(ErrorKind::InvalidInput, "bad"))
        );
    }
    assert_eq!(
        export_outcome(ExportNews::Pending, true),
        Err(failure(ErrorKind::EncodingFailed, "Encoder ended without a result"))
    );
    assert_eq!(
        export_outcome(ExportNews::Pending, false),
        Err(failure(ErrorKind::EncodingFailed, "Encoder exited with an error"))
    );
}

#[test]
fn outcomes_are_written_as_lines() {
    assert_eq!(
        send_done("/tmp/out.gif".to_string()).unwrap(),
        "{\"event\":\"done\",\"path\":\"/tmp/out.gif\"}\n"
    );
    assert_eq!(
        send_error(ErrorKind::EncodingFailed, "a\nb".to_string()).unwrap(),
        "{\"event\":\"error\",\"kind\":\"encoding_failed\",\"hint\":\"a\\nb\"}\n"
    );
}

#[test]
fn the_supervisor_learns_the_end_of_an_export() {
    assert_eq!(watch_line("{\"event\":\"progress\",\"percent\":10}"), ExportNews::Pending);
    assert_eq!(watch_line("Using ffmpeg version 6"), ExportNews::Pending);
    assert_eq!(watch_line("{\"event\":\"bogus\"}"), ExportNews::Pending);
    assert_eq!(
        watch_line("{\"event\":\"done\",\"path\":\"/tmp/o.gif\"}"),
        ExportNews::Done("/tmp/o.gif".to_string())
    );
    assert_eq!(
        watch_line("{\"event\":\"error\",\"kind\":\"encoding_failed\",\"hint\":\"bad\"}"),
        ExportNews::Failed(ErrorKind::EncodingFailed, "bad".to_string())
    );
}
