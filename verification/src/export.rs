//! Planning of exports: from a trim range, a quality and a list of captions
//! to the argument lists with which the encoder is run.

use vstd::prelude::*;
use crate::color::ColorError;
use crate::ffmpeg::{build_filter, filter_graph};
use crate::fraction::{round_div, Fraction};
use crate::text::{
    decimal, owned, push_decimal, push_seconds, push_string, push_text, same_text, seconds_text,
};
use crate::types::{
    caption_views, Caption, CaptionView, EncoderCommand, EncoderCommandView, LoopMode, TrimRange,
};

verus! {

/// Something a plan could not honour without failing for it.
#[derive(Clone, Copy, Debug, PartialEq, Eq, Structural)]
pub enum ExportWarning {
    /// The back-and-forth loop is not produced: the animation loops forward.
    PingpongNotImplemented,
}

/// The encoder runs to make for one export, in order, each as its list of
/// arguments.
#[derive(Debug, PartialEq, Eq)]
pub struct ExportPlan {
    pub steps: Vec<Vec<String>>,
    pub warning: Option<ExportWarning>,
}

/// The view of `ExportPlan`: its arguments as sequences of characters.
pub struct ExportPlanView {
    pub steps: Seq<Seq<Seq<char>>>,
    pub warning: Option<ExportWarning>,
}

impl View for ExportPlan {
    type V = ExportPlanView;

    open spec fn view(&self) -> ExportPlanView {
        ExportPlanView { steps: self.steps.deep_view(), warning: self.warning }
    }
}

/// The rate-control value of the video codec for a quality in millionths:
/// `51 - 33 * quality`, rounded. A lower value is a higher quality.
pub open spec fn crf_of(quality: nat) -> nat
    recommends
        quality <= 1_000_000,
{
    round_div((51_000_000 - 33 * quality) as nat, 1_000_000)
}

/// The lossy quality in percent for a quality in millionths: `100 * quality`,
/// rounded.
pub open spec fn percent_of(quality: nat) -> nat {
    round_div(100 * quality, 1_000_000)
}

/// The value of the encoder's `-loop` option for an animated image.
pub open spec fn loop_value(mode: LoopMode) -> Seq<char> {
    if mode == LoopMode::Once {
        "-1"@
    } else {
        "0"@
    }
}

/// What a loop mode asks for that the plan leaves out.
pub open spec fn loop_warning(mode: LoopMode) -> Option<ExportWarning> {
    if mode == LoopMode::Pingpong {
        Some(ExportWarning::PingpongNotImplemented)
    } else {
        None
    }
}

/// The arguments that select the trimmed part of the input.
pub open spec fn source_args(input: Seq<char>, trim: TrimRange) -> Seq<Seq<char>> {
    seq![
        "-ss"@,
        seconds_text(trim.start_ms as nat),
        "-t"@,
        seconds_text(trim.duration()),
        "-i"@,
        input,
    ]
}

/// The arguments of the run that derives the colour palette of a GIF.
pub open spec fn palette_args(
    input: Seq<char>,
    trim: TrimRange,
    graph: Seq<char>,
    palette: Seq<char>,
) -> Seq<Seq<char>> {
    source_args(input, trim) + seq!["-vf"@, graph + ",palettegen"@, "-y"@, palette]
}

/// The arguments of the run that encodes a GIF with its palette.
pub open spec fn gif_args(
    input: Seq<char>,
    trim: TrimRange,
    graph: Seq<char>,
    palette: Seq<char>,
    mode: LoopMode,
    out: Seq<char>,
) -> Seq<Seq<char>> {
    source_args(input, trim) + seq![
        "-i"@,
        palette,
        "-lavfi"@,
        graph + " [x]; [x][1:v] paletteuse"@,
        "-loop"@,
        loop_value(mode),
        "-y"@,
        out,
    ]
}

/// The arguments of the run that encodes an MP4 video.
pub open spec fn mp4_args(
    input: Seq<char>,
    trim: TrimRange,
    graph: Seq<char>,
    quality: nat,
    out: Seq<char>,
) -> Seq<Seq<char>> {
    source_args(input, trim) + seq![
        "-vf"@,
        graph,
        "-c:v"@,
        "libx264"@,
        "-preset"@,
        "medium"@,
        "-crf"@,
        decimal(crf_of(quality)),
        "-pix_fmt"@,
        "yuv420p"@,
        "-movflags"@,
        "+faststart"@,
        "-y"@,
        out,
    ]
}

/// In lossless mode the quality plays no part.
pub open spec fn webp_args(
    input: Seq<char>,
    trim: TrimRange,
    graph: Seq<char>,
    quality: nat,
    lossless: bool,
    out: Seq<char>,
) -> Seq<Seq<char>> {
    source_args(input, trim) + seq!["-vf"@, graph] + (if lossless {
        seq!["-lossless"@, "1"@]
    } else {
        seq!["-quality"@, decimal(percent_of(quality))]
    }) + seq!["-loop"@, "0"@, "-y"@, out]
}

/// Whether a plan, or the error in its place, is the expected one.
pub open spec fn plan_is(
    res: Result<ExportPlan, ColorError>,
    expected: Result<ExportPlanView, ColorError>,
) -> bool {
    match expected {
        Ok(plan) => res is Ok && res->Ok_0@ == plan,
        Err(e) => res is Err && res->Err_0 == e,
    }
}

/// The plan of a GIF export, or the first colour error among its captions.
pub open spec fn gif_plan(
    input: Seq<char>,
    trim: TrimRange,
    fps: u32,
    scale: Option<u32>,
    mode: LoopMode,
    captions: Seq<CaptionView>,
    palette: Seq<char>,
    out: Seq<char>,
) -> Result<ExportPlanView, ColorError> {
    match filter_graph(fps, scale, captions) {
        Err(e) => Err(e),
        Ok(graph) => Ok(
            ExportPlanView {
                steps: seq![
                    palette_args(input, trim, graph, palette),
                    gif_args(input, trim, graph, palette, mode, out),
                ],
                warning: loop_warning(mode),
            },
        ),
    }
}

/// The plan of an MP4 export, or the first colour error among its captions.
pub open spec fn mp4_plan(
    input: Seq<char>,
    trim: TrimRange,
    fps: u32,
    scale: Option<u32>,
    quality: nat,
    captions: Seq<CaptionView>,
    out: Seq<char>,
) -> Result<ExportPlanView, ColorError> {
    match filter_graph(fps, scale, captions) {
        Err(e) => Err(e),
        Ok(graph) => Ok(
            ExportPlanView {
                steps: seq![mp4_args(input, trim, graph, quality, out)],
                warning: None,
            },
        ),
    }
}

/// The plan of a WebP export, or the first colour error among its captions.
pub open spec fn webp_plan(
    input: Seq<char>,
    trim: TrimRange,
    fps: u32,
    scale: Option<u32>,
    quality: nat,
    lossless: bool,
    captions: Seq<CaptionView>,
    out: Seq<char>,
) -> Result<ExportPlanView, ColorError> {
    match filter_graph(fps, scale, captions) {
        Err(e) => Err(e),
        Ok(graph) => Ok(
            ExportPlanView {
                steps: seq![webp_args(input, trim, graph, quality, lossless, out)],
                warning: None,
            },
        ),
    }
}

/// The rate-control value for a quality: 18 at full quality, 51 at none.
pub fn crf_for_quality(quality: Fraction) -> (crf: u32)
    ensures
        crf == crf_of(quality.value()),
        18 <= crf <= 51,
{
    let q: u64 = quality.millionths() as u64;
    ((2 * (51_000_000 - 33 * q) + 1_000_000) / 2_000_000) as u32
}

/// The lossy quality in percent for a quality.
pub fn quality_percent(quality: Fraction) -> (percent: u32)
    ensures
        percent == percent_of(quality.value()),
        percent <= 100,
{
    let q: u64 = quality.millionths() as u64;
    ((2 * (100 * q) + 1_000_000) / 2_000_000) as u32
}

/// A better quality never gives a higher rate-control value.
pub proof fn crf_never_rises(lower: Fraction, higher: Fraction)
    requires
        lower.valid(),
        higher.valid(),
        lower.value() <= higher.value(),
    ensures
        crf_of(higher.value()) <= crf_of(lower.value()),
        crf_of(0) == 51,
        crf_of(1_000_000) == 18,
{
    let a = (51_000_000 - 33 * higher.value()) as nat;
    let b = (51_000_000 - 33 * lower.value()) as nat;
    assert(a <= b);
    vstd::arithmetic::div_mod::lemma_div_is_ordered(
        (2 * a + 1_000_000) as int,
        (2 * b + 1_000_000) as int,
        2_000_000,
    );
    assert(crf_of(0) == 51) by {
        assert(round_div(51_000_000, 1_000_000) == 103_000_000nat / 2_000_000);
    }
    assert(crf_of(1_000_000) == 18) by {
        assert(round_div(18_000_000, 1_000_000) == 37_000_000nat / 2_000_000);
    }
}

fn source_arguments(input: &str, trim: &TrimRange) -> (args: Vec<String>)
    ensures
        args.deep_view() == source_args(input@, *trim),
{
    let mut args: Vec<String> = Vec::new();
    assert(args.deep_view() =~= Seq::<Seq<char>>::empty());
    push_text(&mut args, "-ss");
    let mut start = String::new();
    push_seconds(&mut start, trim.start_ms);
    assert(Seq::<char>::empty() + seconds_text(trim.start_ms as nat) == seconds_text(
        trim.start_ms as nat,
    ));
    push_string(&mut args, start);
    push_text(&mut args, "-t");
    let mut length = String::new();
    push_seconds(&mut length, trim.duration_ms());
    assert(Seq::<char>::empty() + seconds_text(trim.duration()) == seconds_text(trim.duration()));
    push_string(&mut args, length);
    push_text(&mut args, "-i");
    push_text(&mut args, input);
    assert(args.deep_view() =~= source_args(input@, *trim));
    args
}

/// Plans the export of an animated GIF: a first run that derives a colour
/// palette into the file `palette`, and a second that encodes with it.
pub fn encode_gif(
    input: &str,
    trim: &TrimRange,
    fps: u32,
    scale: Option<u32>,
    loop_mode: &LoopMode,
    caps: &[Caption],
    palette: &str,
    out: &str,
) -> (res: Result<ExportPlan, ColorError>)
    ensures
        plan_is(
            res,
            gif_plan(input@, *trim, fps, scale, *loop_mode, caption_views(caps@), palette@, out@),
        ),
{
    let graph = match build_filter(fps, scale, caps) {
        Ok(g) => g,
        Err(e) => {
            return Err(e);
        },
    };
    let mut first = source_arguments(input, trim);
    push_text(&mut first, "-vf");
    let mut with_palette = owned(graph.as_str());
    with_palette.append(",palettegen");
    push_string(&mut first, with_palette);
    push_text(&mut first, "-y");
    push_text(&mut first, palette);
    assert(first.deep_view() =~= palette_args(input@, *trim, graph@, palette@));

    let mut second = source_arguments(input, trim);
    push_text(&mut second, "-i");
    push_text(&mut second, palette);
    push_text(&mut second, "-lavfi");
    let mut with_use = graph;
    with_use.append(" [x]; [x][1:v] paletteuse");
    push_string(&mut second, with_use);
    push_text(&mut second, "-loop");
    match loop_mode {
        LoopMode::Once => {
            push_text(&mut second, "-1");
        },
        _ => {
            push_text(&mut second, "0");
        },
    }
    push_text(&mut second, "-y");
    push_text(&mut second, out);
    assert(second.deep_view() =~= gif_args(input@, *trim, graph@, palette@, *loop_mode, out@));

    let warning = match loop_mode {
        LoopMode::Pingpong => Some(ExportWarning::PingpongNotImplemented),
        _ => None,
    };
    let mut steps: Vec<Vec<String>> = Vec::new();
    steps.push(first);
    steps.push(second);
    let plan = ExportPlan { steps, warning };
    assert(plan@.steps =~= seq![
        palette_args(input@, *trim, graph@, palette@),
        gif_args(input@, *trim, graph@, palette@, *loop_mode, out@),
    ]);
    Ok(plan)
}

/// Plans the export of an MP4 video.
pub fn encode_mp4(
    input: &str,
    trim: &TrimRange,
    fps: u32,
    scale: Option<u32>,
    qual: Fraction,
    caps: &[Caption],
    out: &str,
) -> (res: Result<ExportPlan, ColorError>)
    ensures
        plan_is(res, mp4_plan(input@, *trim, fps, scale, qual.value(), caption_views(caps@), out@)),
{
    let crf = crf_for_quality(qual);
    let graph = match build_filter(fps, scale, caps) {
        Ok(g) => g,
        Err(e) => {
            return Err(e);
        },
    };
    let ghost graph_text = graph@;
    let mut args = source_arguments(input, trim);
    push_text(&mut args, "-vf");
    push_string(&mut args, graph);
    push_text(&mut args, "-c:v");
    push_text(&mut args, "libx264");
    push_text(&mut args, "-preset");
    push_text(&mut args, "medium");
    push_text(&mut args, "-crf");
    let mut value = String::new();
    push_decimal(&mut value, crf as u64);
    assert(Seq::<char>::empty() + decimal(crf as nat) == decimal(crf as nat));
    push_string(&mut args, value);
    push_text(&mut args, "-pix_fmt");
    push_text(&mut args, "yuv420p");
    push_text(&mut args, "-movflags");
    push_text(&mut args, "+faststart");
    push_text(&mut args, "-y");
    push_text(&mut args, out);
    assert(args.deep_view() =~= mp4_args(input@, *trim, graph_text, qual.value(), out@));
    let mut steps: Vec<Vec<String>> = Vec::new();
    steps.push(args);
    let plan = ExportPlan { steps, warning: None };
    assert(plan@.steps =~= seq![mp4_args(input@, *trim, graph_text, qual.value(), out@)]);
    Ok(plan)
}

/// Plans the export of an animated WebP image.
pub fn encode_webp(
    input: &str,
    trim: &TrimRange,
    fps: u32,
    scale: Option<u32>,
    qual: Fraction,
    lossless: bool,
    caps: &[Caption],
    out: &str,
) -> (res: Result<ExportPlan, ColorError>)
    ensures
        plan_is(
            res,
            webp_plan(
                input@,
                *trim,
                fps,
                scale,
                qual.value(),
                lossless,
                caption_views(caps@),
                out@,
            ),
        ),
{
    let graph = match build_filter(fps, scale, caps) {
        Ok(g) => g,
        Err(e) => {
            return Err(e);
        },
    };
    let ghost graph_text = graph@;
    let mut args = source_arguments(input, trim);
    push_text(&mut args, "-vf");
    push_string(&mut args, graph);
    if lossless {
        push_text(&mut args, "-lossless");
        push_text(&mut args, "1");
    } else {
        push_text(&mut args, "-quality");
        let percent = quality_percent(qual);
        let mut value = String::new();
        push_decimal(&mut value, percent as u64);
        assert(Seq::<char>::empty() + decimal(percent as nat) == decimal(percent as nat));
        push_string(&mut args, value);
    }
    push_text(&mut args, "-loop");
    push_text(&mut args, "0");
    push_text(&mut args, "-y");
    push_text(&mut args, out);
    assert(args.deep_view() =~= webp_args(
        input@,
        *trim,
        graph_text,
        qual.value(),
        lossless,
        out@,
    ));
    let mut steps: Vec<Vec<String>> = Vec::new();
    steps.push(args);
    let plan = ExportPlan { steps, warning: None };
    assert(plan@.steps =~= seq![
        webp_args(input@, *trim, graph_text, qual.value(), lossless, out@),
    ]);
    Ok(plan)
}

/// The quality of an export for which none was chosen: eight tenths.
pub open spec fn default_quality() -> Fraction {
    Fraction::with_value(800_000)
}

/// The command for an export in the format named `fmt`: `gif`, `webp`, or
/// anything else for MP4. The output goes to `/tmp/export.` followed by `fmt`.
pub open spec fn encode_command(
    input: Seq<char>,
    fmt: Seq<char>,
    fps: u32,
    trim: (u64, u64),
    scale: u32,
) -> EncoderCommandView {
    let range = TrimRange { start_ms: trim.0, end_ms: trim.1 };
    let out = "/tmp/export."@ + fmt;
    if fmt == "gif"@ {
        EncoderCommandView::Gif {
            input,
            trim: range,
            fps,
            scale_px: Some(scale),
            loop_mode: LoopMode::Normal,
            captions: Seq::empty(),
            out,
        }
    } else if fmt == "webp"@ {
        EncoderCommandView::Webp {
            input,
            trim: range,
            fps,
            scale_px: Some(scale),
            quality: default_quality(),
            lossless: false,
            captions: Seq::empty(),
            out,
        }
    } else {
        EncoderCommandView::Mp4 {
            input,
            trim: range,
            fps,
            scale_px: Some(scale),
            quality: default_quality(),
            captions: Seq::empty(),
            out,
        }
    }
}

/// Builds the command that asks the encoder for an export of a recording.
pub fn build_encode_cmd(input: String, fmt: &str, fps: u32, trim: (u64, u64), scale: u32) -> (cmd:
    EncoderCommand)
    ensures
        cmd@ == encode_command(input@, fmt@, fps, trim, scale),
{
    let range = TrimRange { start_ms: trim.0, end_ms: trim.1 };
    let mut out = owned("/tmp/export.");
    out.append(fmt);
    let quality = Fraction::from_millionths(800_000).unwrap();
    let captions: Vec<Caption> = Vec::new();
    assert(caption_views(captions@) =~= Seq::<CaptionView>::empty());
    if same_text(fmt, "gif") {
        EncoderCommand::Gif {
            input,
            trim: range,
            fps,
            scale_px: Some(scale),
            loop_mode: LoopMode::Normal,
            captions,
            out,
        }
    } else if same_text(fmt, "webp") {
        EncoderCommand::Webp {
            input,
            trim: range,
            fps,
            scale_px: Some(scale),
            quality,
            lossless: false,
            captions,
            out,
        }
    } else {
        EncoderCommand::Mp4 {
            input,
            trim: range,
            fps,
            scale_px: Some(scale),
            quality,
            captions,
            out,
        }
    }
}

} // verus!
