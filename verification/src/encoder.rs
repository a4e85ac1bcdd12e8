//! The encoder's side of an export: from a command line to the runs of the
//! media encoder, and from their outcome to the event that reports it.

use vstd::prelude::*;
use crate::color::{refusal_text, ColorError};
use crate::export::{
    encode_gif, encode_mp4, encode_webp, gif_plan, mp4_plan, webp_plan, ExportPlan, ExportPlanView,
};
use crate::messages::{
    decode_text,
    encoder_command_of, encoder_event_of, line_read, parse_encoder_command, parse_encoder_event,
    to_jsonl, DecodeError, EncodeError,
};
use crate::text::owned;
use crate::types::{EncoderCommand, EncoderCommandView, EncoderEvent, EncoderEventView, ErrorKind};

verus! {

/// The kinds of file that an export can make.
#[derive(Clone, Copy, Debug, PartialEq, Eq, Structural)]
pub enum ExportFormat {
    Gif,
    Mp4,
    Webp,
}

/// An export that was asked for and planned.
#[derive(Debug, PartialEq, Eq)]
pub struct ExportJob {
    pub format: ExportFormat,
    pub plan: ExportPlan,
    /// The file that the export makes.
    pub out: String,
}

/// The view of `ExportJob`: its strings as sequences of characters.
pub struct ExportJobView {
    pub format: ExportFormat,
    pub plan: ExportPlanView,
    pub out: Seq<char>,
}

impl View for ExportJob {
    type V = ExportJobView;

    open spec fn view(&self) -> ExportJobView {
        ExportJobView { format: self.format, plan: self.plan@, out: self.out@ }
    }
}

/// The plan of a command, with the file `palette` for the colours of a GIF.
pub open spec fn job_of(cmd: EncoderCommandView, palette: Seq<char>) -> Result<
    ExportJobView,
    ColorError,
> {
    match cmd {
        EncoderCommandView::Gif { input, trim, fps, scale_px, loop_mode, captions, out } => {
            match gif_plan(input, trim, fps, scale_px, loop_mode, captions, palette, out) {
                Ok(plan) => Ok(ExportJobView { format: ExportFormat::Gif, plan, out }),
                Err(e) => Err(e),
            }
        },
        EncoderCommandView::Mp4 { input, trim, fps, scale_px, quality, captions, out } => {
            match mp4_plan(input, trim, fps, scale_px, quality.value(), captions, out) {
                Ok(plan) => Ok(ExportJobView { format: ExportFormat::Mp4, plan, out }),
                Err(e) => Err(e),
            }
        },
        EncoderCommandView::Webp {
            input,
            trim,
            fps,
            scale_px,
            quality,
            lossless,
            captions,
            out,
        } => {
            match webp_plan(input, trim, fps, scale_px, quality.value(), lossless, captions, out) {
                Ok(plan) => Ok(ExportJobView { format: ExportFormat::Webp, plan, out }),
                Err(e) => Err(e),
            }
        },
    }
}

/// Plans the export that a command asks for.
pub fn plan_command(cmd: EncoderCommand, palette: &str) -> (r: Result<ExportJob, ColorError>)
    ensures
        match job_of(cmd@, palette@) {
            Ok(job) => r is Ok && r->Ok_0@ == job,
            Err(e) => r is Err && r->Err_0 == e,
        },
{
    match cmd {
        EncoderCommand::Gif { input, trim, fps, scale_px, loop_mode, captions, out } => {
            match encode_gif(
                input.as_str(),
                &trim,
                fps,
                scale_px,
                &loop_mode,
                captions.as_slice(),
                palette,
                out.as_str(),
            ) {
                Ok(plan) => Ok(ExportJob { format: ExportFormat::Gif, plan, out }),
                Err(e) => Err(e),
            }
        },
        EncoderCommand::Mp4 { input, trim, fps, scale_px, quality, captions, out } => {
            match encode_mp4(
                input.as_str(),
                &trim,
                fps,
                scale_px,
                quality,
                captions.as_slice(),
                out.as_str(),
            ) {
                Ok(plan) => Ok(ExportJob { format: ExportFormat::Mp4, plan, out }),
                Err(e) => Err(e),
            }
        },
        EncoderCommand::Webp { input, trim, fps, scale_px, quality, lossless, captions, out } => {
            match encode_webp(
                input.as_str(),
                &trim,
                fps,
                scale_px,
                quality,
                lossless,
                captions.as_slice(),
                out.as_str(),
            ) {
                Ok(plan) => Ok(ExportJob { format: ExportFormat::Webp, plan, out }),
                Err(e) => Err(e),
            }
        },
    }
}

/// The event that reports a failed export: the media encoder, or the encoder
/// process, reported a failure or ended with one.
pub open spec fn export_failed(hint: Seq<char>) -> EncoderEventView {
    EncoderEventView::Error { kind: ErrorKind::EncodingFailed, hint }
}

/// The event that refuses what was asked as invalid input.
pub open spec fn export_refused(hint: Seq<char>) -> EncoderEventView {
    EncoderEventView::Error { kind: ErrorKind::InvalidInput, hint }
}

/// What a command line leads to: the job to run, or the event that reports
/// why there is none. A line that is no command and a caption with a refused
/// colour are both refused as invalid input.
pub open spec fn command_handled(
    command: Result<EncoderCommandView, DecodeError>,
    palette: Seq<char>,
) -> Result<ExportJobView, EncoderEventView> {
    match command {
        Err(e) => Err(export_refused(decode_text(e))),
        Ok(cmd) => match job_of(cmd, palette) {
            Ok(job) => Ok(job),
            Err(e) => Err(export_refused(refusal_text(e))),
        },
    }
}

/// Whether a job, or the event in its place, is the expected one.
pub open spec fn job_is(
    r: Result<ExportJob, EncoderEvent>,
    expected: Result<ExportJobView, EncoderEventView>,
) -> bool {
    match expected {
        Ok(job) => r is Ok && r->Ok_0@ == job,
        Err(e) => r is Err && r->Err_0@ == e,
    }
}

/// Decides what to do about a command that was read, or about the failure to
/// read one.
pub fn on_command(command: Result<EncoderCommand, DecodeError>, palette: &str) -> (r: Result<
    ExportJob,
    EncoderEvent,
>)
    ensures
        job_is(
            r,
            command_handled(
                match command {
                    Ok(c) => Ok(c@),
                    Err(e) => Err(e),
                },
                palette@,
            ),
        ),
{
    match command {
        Err(e) => Err(EncoderEvent::Error { kind: ErrorKind::InvalidInput, hint: e.message() }),
        Ok(cmd) => match plan_command(cmd, palette) {
            Ok(job) => Ok(job),
            Err(e) => Err(
                EncoderEvent::Error { kind: ErrorKind::InvalidInput, hint: e.message() },
            ),
        },
    }
}

/// Decides what to do about one line of the encoder's input.
pub fn handle_command(line: &str, palette: &str) -> (r: Result<ExportJob, EncoderEvent>)
    ensures
        job_is(
            r,
            command_handled(
                line_read(line@, |t: crate::json::JsonView| encoder_command_of(t)),
                palette@,
            ),
        ),
{
    let command = parse_encoder_command(line);
    on_command(command, palette)
}

/// The words that report a run of the media encoder that failed.
///
/// `step` counts the runs of a plan from zero. `stderr` is what the run wrote
/// to its error stream, or nothing where it could not be run at all.
pub open spec fn failure_hint(format: ExportFormat, step: nat, stderr: Option<Seq<char>>) -> Seq<
    char,
> {
    match stderr {
        None => match format {
            ExportFormat::Gif => if step == 0 {
                "Palette generation failed"@
            } else {
                "GIF encoding failed"@
            },
            _ => "Failed to execute ffmpeg"@,
        },
        Some(text) => match format {
            ExportFormat::Gif => if step == 0 {
                "ffmpeg palette generation failed"@
            } else {
                "ffmpeg GIF encoding failed: "@ + text
            },
            ExportFormat::Mp4 => "ffmpeg MP4 encoding failed: "@ + text,
            ExportFormat::Webp => "ffmpeg WebP encoding failed: "@ + text,
        },
    }
}

/// The kind of a run of the media encoder that failed: a run that could not
/// be made at all is a failure of the system, a run that was made and ended
/// badly is a failure of the encoding.
pub open spec fn failure_kind(stderr: Option<Seq<char>>) -> ErrorKind {
    match stderr {
        None => ErrorKind::IoError,
        Some(_) => ErrorKind::EncodingFailed,
    }
}

/// The event that reports a run of the media encoder that failed.
pub open spec fn step_failure(
    format: ExportFormat,
    step: nat,
    stderr: Option<Seq<char>>,
) -> EncoderEventView {
    EncoderEventView::Error {
        kind: failure_kind(stderr),
        hint: failure_hint(format, step, stderr),
    }
}

/// The event that reports a run of the media encoder that failed.
pub fn step_failed(format: ExportFormat, step: usize, stderr: Option<&str>) -> (e: EncoderEvent)
    ensures
        e@ == step_failure(
            format,
            step as nat,
            match stderr {
                Some(text) => Some(text@),
                None => None,
            },
        ),
{
    let kind = match stderr {
        None => ErrorKind::IoError,
        Some(_) => ErrorKind::EncodingFailed,
    };
    let hint = match stderr {
        None => match format {
            ExportFormat::Gif => if step == 0 {
                owned("Palette generation failed")
            } else {
                owned("GIF encoding failed")
            },
            _ => owned("Failed to execute ffmpeg"),
        },
        Some(text) => match format {
            ExportFormat::Gif => if step == 0 {
                owned("ffmpeg palette generation failed")
            } else {
                let mut s = owned("ffmpeg GIF encoding failed: ");
                s.append(text);
                s
            },
            ExportFormat::Mp4 => {
                let mut s = owned("ffmpeg MP4 encoding failed: ");
                s.append(text);
                s
            },
            ExportFormat::Webp => {
                let mut s = owned("ffmpeg WebP encoding failed: ");
                s.append(text);
                s
            },
        },
    };
    EncoderEvent::Error { kind, hint }
}

/// What follows one run of a plan of `steps` runs, the run counted `step`
/// from zero. A run that failed ends the export with the event that reports
/// it, and no later run is made. A run that went well is followed by the next
/// run, if there is one; after the last the export is done.
pub open spec fn step_followed(
    format: ExportFormat,
    step: nat,
    steps: nat,
    ran: bool,
    stderr: Option<Seq<char>>,
) -> Result<bool, EncoderEventView> {
    if ran {
        Ok(step + 1 < steps)
    } else {
        Err(step_failure(format, step, stderr))
    }
}

/// Decides what follows one run of the media encoder. `ran` says whether the
/// run was made and ended well; `stderr` is what it wrote to its error
/// stream, or nothing where it could not be made at all. The result says
/// whether another run is to be made, or holds the event that ends the export.
pub fn after_step(
    format: ExportFormat,
    step: usize,
    steps: usize,
    ran: bool,
    stderr: Option<&str>,
) -> (next: Result<bool, EncoderEvent>)
    ensures
        match step_followed(
            format,
            step as nat,
            steps as nat,
            ran,
            match stderr {
                Some(text) => Some(text@),
                None => None,
            },
        ) {
            Ok(more) => next == Ok::<bool, EncoderEvent>(more),
            Err(e) => next is Err && next->Err_0@ == e,
        },
{
    if ran {
        Ok(step < steps && steps - step > 1)
    } else {
        Err(step_failed(format, step, stderr))
    }
}

/// The line that reports a finished export. It is always written, as the
/// JSON writer prints the tree of the event.
pub fn send_done(path: String) -> (r: Result<String, EncodeError>)
    ensures
        r is Ok,
        Some(r->Ok_0@) == crate::messages::line_of(
            crate::messages::encoder_event_tree(EncoderEventView::Done { path: path@ }),
        ),
        crate::json::printed_json(
            crate::messages::encoder_event_tree(EncoderEventView::Done { path: path@ }),
        ) == Some(r->Ok_0@.drop_last()),
{
    let event = EncoderEvent::Done { path };
    proof {
        crate::messages::messages_are_written_plainly(
            crate::types::RecorderCommandView::Stop,
            crate::types::RecorderEventView::Started { pts_ms: 0 },
            event@,
        );
    }
    to_jsonl(&event)
}

/// The line that reports a failure. It is always written, as the JSON writer
/// prints the tree of the event.
pub fn send_error(kind: ErrorKind, hint: String) -> (r: Result<String, EncodeError>)
    ensures
        r is Ok,
        Some(r->Ok_0@) == crate::messages::line_of(
            crate::messages::encoder_event_tree(EncoderEventView::Error { kind, hint: hint@ }),
        ),
        crate::json::printed_json(
            crate::messages::encoder_event_tree(EncoderEventView::Error { kind, hint: hint@ }),
        ) == Some(r->Ok_0@.drop_last()),
{
    let event = EncoderEvent::Error { kind, hint };
    proof {
        crate::messages::messages_are_written_plainly(
            crate::types::RecorderCommandView::Stop,
            crate::types::RecorderEventView::Started { pts_ms: 0 },
            event@,
        );
    }
    to_jsonl(&event)
}

/// What the supervisor of an export learns from one line of the encoder.
#[derive(Debug, PartialEq, Eq)]
pub enum ExportNews {
    /// Nothing that ends the export: progress, or a line that is no event.
    Pending,
    /// The export is done and lies at this path.
    Done(String),
    /// The export failed, with this kind of failure and for this reason.
    Failed(ErrorKind, String),
}

/// The view of `ExportNews`: its strings as sequences of characters.
pub enum ExportNewsView {
    Pending,
    Done(Seq<char>),
    Failed(ErrorKind, Seq<char>),
}

impl View for ExportNews {
    type V = ExportNewsView;

    open spec fn view(&self) -> ExportNewsView {
        match *self {
            ExportNews::Pending => ExportNewsView::Pending,
            ExportNews::Done(path) => ExportNewsView::Done(path@),
            ExportNews::Failed(kind, hint) => ExportNewsView::Failed(kind, hint@),
        }
    }
}

/// What the reading of a line tells: the end of the export, well or not, or
/// nothing yet.
pub open spec fn news_of(read: Result<EncoderEventView, DecodeError>) -> ExportNewsView {
    match read {
        Ok(EncoderEventView::Done { path }) => ExportNewsView::Done(path),
        Ok(EncoderEventView::Error { kind, hint }) => ExportNewsView::Failed(kind, hint),
        _ => ExportNewsView::Pending,
    }
}

/// What the reading of a line of the encoder tells the supervisor.
pub fn on_event(read: Result<EncoderEvent, DecodeError>) -> (r: ExportNews)
    ensures
        r@ == news_of(
            match read {
                Ok(e) => Ok(e@),
                Err(e) => Err(e),
            },
        ),
{
    match read {
        Ok(EncoderEvent::Done { path }) => ExportNews::Done(path),
        Ok(EncoderEvent::Error { kind, hint }) => ExportNews::Failed(kind, hint),
        _ => ExportNews::Pending,
    }
}

/// What one line of the encoder's output tells the supervisor.
pub fn watch_line(line: &str) -> (r: ExportNews)
    ensures
        r@ == news_of(line_read(line@, |t: crate::json::JsonView| encoder_event_of(t))),
{
    on_event(parse_encoder_event(line))
}

/// What a run of the encoder process comes to, given the last news of its
/// output and whether the process ended well. Only an export that was
/// reported done by a process that ended well is a success, with the path of
/// the file. A reported failure is handed on as it was reported. A process
/// that ended badly, or whose output ended without saying how the export
/// went, is a failed export.
pub open spec fn outcome_of(last: ExportNewsView, exit_ok: bool) -> Result<
    Seq<char>,
    EncoderEventView,
> {
    match last {
        ExportNewsView::Failed(kind, hint) => Err(EncoderEventView::Error { kind, hint }),
        ExportNewsView::Done(path) => if exit_ok {
            Ok(path)
        } else {
            Err(export_failed("Encoder exited with an error"@))
        },
        ExportNewsView::Pending => if exit_ok {
            Err(export_failed("Encoder ended without a result"@))
        } else {
            Err(export_failed("Encoder exited with an error"@))
        },
    }
}

/// Decides what a run of the encoder process returns to its caller: the path
/// of the export, or the event that reports why there is none. No failure is
/// passed over.
pub fn export_outcome(last: ExportNews, exit_ok: bool) -> (r: Result<String, EncoderEvent>)
    ensures
        match outcome_of(last@, exit_ok) {
            Ok(path) => r is Ok && r->Ok_0@ == path,
            Err(e) => r is Err && r->Err_0@ == e,
        },
{
    match last {
        ExportNews::Failed(kind, hint) => Err(EncoderEvent::Error { kind, hint }),
        ExportNews::Done(path) => {
            if exit_ok {
                Ok(path)
            } else {
                Err(
                    EncoderEvent::Error {
                        kind: ErrorKind::EncodingFailed,
                        hint: owned("Encoder exited with an error"),
                    },
                )
            }
        },
        ExportNews::Pending => {
            if exit_ok {
                Err(
                    EncoderEvent::Error {
                        kind: ErrorKind::EncodingFailed,
                        hint: owned("Encoder ended without a result"),
                    },
                )
            } else {
                Err(
                    EncoderEvent::Error {
                        kind: ErrorKind::EncodingFailed,
                        hint: owned("Encoder exited with an error"),
                    },
                )
            }
        },
    }
}

/// A run of the encoder process is a success only where the export was
/// reported done and the process ended well: a reported failure, a bad end of
/// the process and an output without a result all come back as an error.
pub proof fn no_failure_is_passed_over(last: ExportNewsView, exit_ok: bool)
    ensures
        outcome_of(last, exit_ok) is Ok <==> last is Done && exit_ok,
        outcome_of(last, exit_ok) is Err ==> outcome_of(last, exit_ok)->Err_0 is Error,
{
}

/// Once a run of a plan has failed, the export ends with an error and no
/// further run is asked for; the run after the last is never asked for.
pub proof fn failed_run_ends_the_plan(
    format: ExportFormat,
    step: nat,
    steps: nat,
    ran: bool,
    stderr: Option<Seq<char>>,
)
    ensures
        !ran ==> step_followed(format, step, steps, ran, stderr) is Err,
        step_followed(format, step, steps, ran, stderr) == Ok::<bool, EncoderEventView>(true)
            ==> ran && step + 1 < steps,
{
}

} // verus!
