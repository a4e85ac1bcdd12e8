//! Caption overlays: one text-drawing stage of the filter graph per caption.

use vstd::prelude::*;
use crate::color::{ff_color, normalized_color, text_is, ColorError};
use crate::fraction::{floor_of, six_decimals, Fraction};
use crate::text::{
    chars_of, decimal, joined, joined_push, padded, push_char, push_decimal, push_padded,
    push_seconds, seconds_text,
};
use crate::types::{caption_views, Caption, CaptionView};

verus! {

/// `text` with a backslash put before each single quote, the delimiter of
/// strings inside the filter graph.
pub open spec fn escape_quotes(text: Seq<char>) -> Seq<char>
    decreases text.len(),
{
    if text.len() == 0 {
        Seq::<char>::empty()
    } else if text.last() == '\'' {
        escape_quotes(text.drop_last()).push('\\').push('\'')
    } else {
        escape_quotes(text.drop_last()).push(text.last())
    }
}

/// A time in milliseconds written in seconds with as few decimals as it
/// needs, at most three.
pub open spec fn short_seconds(ms: nat) -> Seq<char> {
    let whole = decimal(ms / 1000);
    let part = ms % 1000;
    if part == 0 {
        whole
    } else if part % 100 == 0 {
        whole.push('.') + padded(part / 100, 1)
    } else if part % 10 == 0 {
        whole.push('.') + padded(part / 10, 2)
    } else {
        whole.push('.') + padded(part, 3)
    }
}

/// The two colours of a caption in the encoder's notation, or the error of
/// the first that is refused: the text colour is looked at before the stroke.
pub open spec fn caption_colors(c: CaptionView) -> Result<(Seq<char>, Seq<char>), ColorError> {
    match normalized_color(c.style.color, 1_000_000) {
        Err(e) => Err(e),
        Ok(fill) => match normalized_color(c.style.stroke, 1_000_000) {
            Err(e) => Err(e),
            Ok(stroke) => Ok((fill, stroke)),
        },
    }
}

/// The part of a drawing stage that does not depend on how it is placed.
pub open spec fn drawtext_head(c: CaptionView, fill: Seq<char>, stroke: Seq<char>) -> Seq<char> {
    "drawtext=text='"@ + escape_quotes(c.text)
        + "':fontfile=/usr/share/fonts/truetype/dejavu/DejaVuSans.ttf:fontsize="@ + decimal(
        c.style.size as nat,
    ) + ":fontcolor="@ + fill + ":borderw=2:bordercolor="@ + stroke
}

/// The option that shows a stage only while `start <= t < end`, for times
/// written in seconds: the start belongs to the window, the end does not.
pub open spec fn time_gate(start: Seq<char>, end: Seq<char>) -> Seq<char> {
    ":enable='gte(t,"@ + start + ")*lt(t,"@ + end + ")'"@
}

/// The drawing stage of a caption placed by expressions over the dimensions of
/// the frame that reaches the stage, and shown from its start up to its end,
/// the end itself left out.
#[verifier::opaque]
pub open spec fn overlay_expr_text(c: CaptionView, fill: Seq<char>, stroke: Seq<char>) -> Seq<
    char,
> {
    drawtext_head(c, fill, stroke) + ":x=(main_w*"@ + six_decimals(c.rect.x.value())
        + "):y=(main_h*"@ + six_decimals(c.rect.y.value()) + ")"@ + time_gate(
        seconds_text(c.start_ms as nat),
        seconds_text(c.end_ms as nat),
    )
}

/// The drawing stage of a caption placed at fixed pixels of a `w` by `h` frame,
/// and shown from its start up to its end, the end itself left out.
#[verifier::opaque]
pub open spec fn overlay_pixel_text(
    c: CaptionView,
    w: u32,
    h: u32,
    fill: Seq<char>,
    stroke: Seq<char>,
) -> Seq<char> {
    drawtext_head(c, fill, stroke) + ":x="@ + decimal(floor_of(c.rect.x.value(), w as nat))
        + ":y="@ + decimal(floor_of(c.rect.y.value(), h as nat)) + time_gate(
        short_seconds(c.start_ms as nat),
        short_seconds(c.end_ms as nat),
    )
}

/// The expression-placed drawing stage of a caption, or the error of its
/// first refused colour.
pub open spec fn overlay_expr(c: CaptionView) -> Result<Seq<char>, ColorError> {
    match caption_colors(c) {
        Err(e) => Err(e),
        Ok((fill, stroke)) => Ok(overlay_expr_text(c, fill, stroke)),
    }
}

/// The pixel-placed drawing stage of a caption, or the error of its first
/// refused colour.
pub open spec fn overlay_pixel(c: CaptionView, w: u32, h: u32) -> Result<Seq<char>, ColorError> {
    match caption_colors(c) {
        Err(e) => Err(e),
        Ok((fill, stroke)) => Ok(overlay_pixel_text(c, w, h, fill, stroke)),
    }
}

/// The error of the first caption whose colours are refused, if there is one.
pub open spec fn first_color_error(captions: Seq<CaptionView>) -> Option<ColorError>
    decreases captions.len(),
{
    if captions.len() == 0 {
        None
    } else {
        match first_color_error(captions.drop_last()) {
            Some(e) => Some(e),
            None => match caption_colors(captions.last()) {
                Err(e) => Some(e),
                Ok(_) => None,
            },
        }
    }
}

/// The expression-placed stages of the captions, in the order of the captions.
pub open spec fn overlay_expr_stages(captions: Seq<CaptionView>) -> Seq<Seq<char>> {
    captions.map_values(|c: CaptionView| overlay_expr(c).unwrap())
}

/// The pixel-placed stages of the captions, in the order of the captions.
pub open spec fn overlay_pixel_stages(captions: Seq<CaptionView>, w: u32, h: u32) -> Seq<
    Seq<char>,
> {
    captions.map_values(|c: CaptionView| overlay_pixel(c, w, h).unwrap())
}

/// The stages of all captions joined by commas, in the order of the captions,
/// or the first colour error.
pub open spec fn overlay_expr_chain(captions: Seq<CaptionView>) -> Result<Seq<char>, ColorError> {
    match first_color_error(captions) {
        Some(e) => Err(e),
        None => Ok(joined(overlay_expr_stages(captions), ',')),
    }
}

/// The pixel-placed stages of all captions joined by commas, in the order of
/// the captions, or the first colour error.
pub open spec fn overlay_pixel_chain(captions: Seq<CaptionView>, w: u32, h: u32) -> Result<
    Seq<char>,
    ColorError,
> {
    match first_color_error(captions) {
        Some(e) => Err(e),
        None => Ok(joined(overlay_pixel_stages(captions, w, h), ',')),
    }
}

fn push_escaped(out: &mut String, text: &str)
    ensures
        final(out)@ == old(out)@ + escape_quotes(text@),
{
    let v = chars_of(text);
    let mut i: usize = 0;
    assert(v@.take(0) == Seq::<char>::empty());
    assert(old(out)@ + Seq::<char>::empty() == old(out)@);
    while i < v.len()
        invariant
            i <= v.len(),
            out@ == old(out)@ + escape_quotes(v@.take(i as int)),
        decreases v.len() - i,
    {
        let c = v[i];
        let ghost before = v@.take(i as int);
        let ghost after = v@.take(i + 1);
        assert(after.drop_last() == before);
        assert(after.last() == c);
        if c == '\'' {
            push_char(out, '\\');
            push_char(out, '\'');
            assert(out@ == old(out)@ + escape_quotes(before).push('\\').push('\''));
        } else {
            push_char(out, c);
            assert(out@ == old(out)@ + escape_quotes(before).push(c));
        }
        i += 1;
    }
    assert(v@.take(v@.len() as int) == v@);
}

fn push_short_seconds(out: &mut String, ms: u64)
    ensures
        final(out)@ == old(out)@ + short_seconds(ms as nat),
{
    push_decimal(out, ms / 1000);
    let part = ms % 1000;
    if part != 0 {
        push_char(out, '.');
        if part % 100 == 0 {
            push_padded(out, part / 100, 1);
        } else if part % 10 == 0 {
            push_padded(out, part / 10, 2);
        } else {
            push_padded(out, part, 3);
        }
    }
}

fn push_head(out: &mut String, caption: &Caption, fill: &String, stroke: &String)
    ensures
        final(out)@ == old(out)@ + drawtext_head(caption@, fill@, stroke@),
{
    out.append("drawtext=text='");
    push_escaped(out, caption.text.as_str());
    out.append("':fontfile=/usr/share/fonts/truetype/dejavu/DejaVuSans.ttf:fontsize=");
    push_decimal(out, caption.style.size as u64);
    out.append(":fontcolor=");
    out.append(fill.as_str());
    out.append(":borderw=2:bordercolor=");
    out.append(stroke.as_str());
}

/// The two colours of a caption, normalised.
fn colors_of(caption: &Caption) -> (r: Result<(String, String), ColorError>)
    ensures
        match caption_colors(caption@) {
            Ok((fill, stroke)) => r is Ok && r->Ok_0.0@ == fill && r->Ok_0.1@ == stroke,
            Err(e) => r == Err::<(String, String), ColorError>(e),
        },
{
    let fill = match ff_color(caption.style.color.as_str(), Fraction::one()) {
        Ok(s) => s,
        Err(e) => {
            return Err(e);
        },
    };
    let stroke = match ff_color(caption.style.stroke.as_str(), Fraction::one()) {
        Ok(s) => s,
        Err(e) => {
            return Err(e);
        },
    };
    Ok((fill, stroke))
}

/// The drawing stage of one caption, placed at fixed pixels of a frame of
/// `w` by `h` pixels. Such a stage is right only where no scaling follows.
pub fn ffmpeg_text(caption: &Caption, w: u32, h: u32) -> (res: Result<String, ColorError>)
    ensures
        text_is(res, overlay_pixel(caption@, w, h)),
{
    let (fill, stroke) = match colors_of(caption) {
        Ok(p) => p,
        Err(e) => {
            return Err(e);
        },
    };
    let mut out = String::new();
    push_head(&mut out, caption, &fill, &stroke);
    out.append(":x=");
    push_decimal(&mut out, caption.rect.x.scale_floor(w) as u64);
    out.append(":y=");
    push_decimal(&mut out, caption.rect.y.scale_floor(h) as u64);
    out.append(":enable='gte(t,");
    push_short_seconds(&mut out, caption.start_ms);
    out.append(")*lt(t,");
    push_short_seconds(&mut out, caption.end_ms);
    out.append(")'");
    assert(out@ == overlay_pixel_text(caption@, w, h, fill@, stroke@)) by {
        reveal(overlay_pixel_text);
    }
    Ok(out)
}

/// The drawing stage of one caption, placed by expressions over the
/// dimensions of the frame as it reaches the stage.
pub fn ffmpeg_text_expr(caption: &Caption) -> (res: Result<String, ColorError>)
    ensures
        text_is(res, overlay_expr(caption@)),
{
    let (fill, stroke) = match colors_of(caption) {
        Ok(p) => p,
        Err(e) => {
            return Err(e);
        },
    };
    let mut out = String::new();
    push_head(&mut out, caption, &fill, &stroke);
    out.append(":x=(main_w*");
    caption.rect.x.push_six_decimals(&mut out);
    out.append("):y=(main_h*");
    caption.rect.y.push_six_decimals(&mut out);
    out.append(")");
    out.append(":enable='gte(t,");
    push_seconds(&mut out, caption.start_ms);
    out.append(")*lt(t,");
    push_seconds(&mut out, caption.end_ms);
    out.append(")'");
    assert(out@ == overlay_expr_text(caption@, fill@, stroke@)) by {
        reveal(overlay_expr_text);
    }
    Ok(out)
}

/// An error found among the first `k` captions is the error of the whole list.
proof fn first_color_error_stays(captions: Seq<CaptionView>, k: int)
    requires
        0 <= k <= captions.len(),
        first_color_error(captions.take(k)) is Some,
    ensures
        first_color_error(captions) == first_color_error(captions.take(k)),
    decreases captions.len() - k,
{
    if k == captions.len() {
        assert(captions.take(k) == captions);
    } else {
        let next = captions.take(k + 1);
        assert(next.drop_last() == captions.take(k));
        first_color_error_stays(captions, k + 1);
    }
}

/// What one more caption adds to the expression-placed stages.
proof fn expr_stages_step(captions: Seq<CaptionView>, i: int)
    requires
        0 <= i < captions.len(),
    ensures
        captions.take(i + 1).drop_last() == captions.take(i),
        captions.take(i + 1).last() == captions[i],
        overlay_expr_stages(captions.take(i + 1)) == overlay_expr_stages(captions.take(i)).push(
            overlay_expr(captions[i]).unwrap(),
        ),
{
    assert(captions.take(i + 1).drop_last() == captions.take(i));
    assert(overlay_expr_stages(captions.take(i + 1)) =~= overlay_expr_stages(
        captions.take(i),
    ).push(overlay_expr(captions[i]).unwrap()));
}

/// What one more caption adds to the pixel-placed stages.
proof fn pixel_stages_step(captions: Seq<CaptionView>, i: int, w: u32, h: u32)
    requires
        0 <= i < captions.len(),
    ensures
        captions.take(i + 1).drop_last() == captions.take(i),
        captions.take(i + 1).last() == captions[i],
        overlay_pixel_stages(captions.take(i + 1), w, h) == overlay_pixel_stages(
            captions.take(i),
            w,
            h,
        ).push(overlay_pixel(captions[i], w, h).unwrap()),
{
    assert(captions.take(i + 1).drop_last() == captions.take(i));
    assert(overlay_pixel_stages(captions.take(i + 1), w, h) =~= overlay_pixel_stages(
        captions.take(i),
        w,
        h,
    ).push(overlay_pixel(captions[i], w, h).unwrap()));
}

/// The drawing stages of all captions, placed at fixed pixels, joined by
/// commas in the order of the captions. The first refused colour ends the
/// work with its error.
pub fn chain_filters(captions: &[Caption], w: u32, h: u32) -> (res: Result<String, ColorError>)
    ensures
        text_is(res, overlay_pixel_chain(caption_views(captions@), w, h)),
{
    let ghost views = caption_views(captions@);
    let mut out = String::new();
    let mut i: usize = 0;
    assert(views.take(0) == Seq::<CaptionView>::empty());
    while i < captions.len()
        invariant
            i <= captions.len(),
            views == caption_views(captions@),
            first_color_error(views.take(i as int)) is None,
            out@ == joined(overlay_pixel_stages(views.take(i as int), w, h), ','),
        decreases captions.len() - i,
    {
        proof {
            pixel_stages_step(views, i as int, w, h);
            joined_push(
                overlay_pixel_stages(views.take(i as int), w, h),
                overlay_pixel(views[i as int], w, h).unwrap(),
                ',',
            );
        }
        match ffmpeg_text(&captions[i], w, h) {
            Ok(stage) => {
                if i > 0 {
                    push_char(&mut out, ',');
                }
                out.append(stage.as_str());
            },
            Err(e) => {
                proof {
                    first_color_error_stays(views, i + 1);
                }
                return Err(e);
            },
        }
        i += 1;
    }
    assert(views.take(views.len() as int) == views);
    Ok(out)
}

/// The drawing stages of all captions, placed by expressions, joined by
/// commas in the order of the captions: a later caption is drawn over an
/// earlier one. The first refused colour ends the work with its error.
pub fn chain_filters_expr(captions: &[Caption]) -> (res: Result<String, ColorError>)
    ensures
        text_is(res, overlay_expr_chain(caption_views(captions@))),
{
    let ghost views = caption_views(captions@);
    let mut out = String::new();
    let mut i: usize = 0;
    assert(views.take(0) == Seq::<CaptionView>::empty());
    while i < captions.len()
        invariant
            i <= captions.len(),
            views == caption_views(captions@),
            first_color_error(views.take(i as int)) is None,
            out@ == joined(overlay_expr_stages(views.take(i as int)), ','),
        decreases captions.len() - i,
    {
        proof {
            expr_stages_step(views, i as int);
            joined_push(
                overlay_expr_stages(views.take(i as int)),
                overlay_expr(views[i as int]).unwrap(),
                ',',
            );
        }
        match ffmpeg_text_expr(&captions[i]) {
            Ok(stage) => {
                if i > 0 {
                    push_char(&mut out, ',');
                }
                out.append(stage.as_str());
            },
            Err(e) => {
                proof {
                    first_color_error_stays(views, i + 1);
                }
                return Err(e);
            },
        }
        i += 1;
    }
    assert(views.take(views.len() as int) == views);
    Ok(out)
}

} // verus!
