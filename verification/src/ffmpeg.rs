//! The video filter graph handed to the encoder, and the way times are written
//! on its command line.

use vstd::prelude::*;
use crate::captions::{chain_filters_expr, first_color_error, overlay_expr_stages};
use crate::color::{text_is, ColorError};
use crate::text::{
    decimal, joined, joined_concat, push_char, push_decimal, push_seconds, seconds_text,
};
use crate::types::{caption_views, Caption, CaptionView};

verus! {

/// The stage that limits the frame rate.
pub open spec fn rate_stage(fps: u32) -> Seq<char> {
    "fps="@ + decimal(fps as nat)
}

/// The stage that fixes the dimensions. With a target width the height follows
/// the aspect ratio and is brought to an even number by the encoder; without
/// one, both source dimensions are cut down to the even number at or below
/// them.
pub open spec fn scale_stage(scale: Option<u32>) -> Seq<char> {
    match scale {
        Some(width) => "scale="@ + decimal(width as nat) + ":-2:flags=lanczos"@,
        None => "scale=trunc(iw/2)*2:trunc(ih/2)*2"@,
    }
}

/// The stages of a filter graph in the order in which they run: rate, scale,
/// then one overlay per caption in the order of the captions.
pub open spec fn graph_stages(fps: u32, scale: Option<u32>, captions: Seq<CaptionView>) -> Seq<
    Seq<char>,
> {
    seq![rate_stage(fps), scale_stage(scale)] + overlay_expr_stages(captions)
}

/// The filter graph: its stages joined by commas, or the first colour error
/// among the captions.
pub open spec fn filter_graph(fps: u32, scale: Option<u32>, captions: Seq<CaptionView>) -> Result<
    Seq<char>,
    ColorError,
> {
    match first_color_error(captions) {
        Some(e) => Err(e),
        None => Ok(joined(graph_stages(fps, scale, captions), ',')),
    }
}

/// The stages keep the order of what they were made from: the rate stage comes
/// first, the scale stage second, and the overlay of each caption stands as
/// many places after them as the caption stands in its list. A later caption
/// is therefore drawn over an earlier one.
pub proof fn stages_in_order(fps: u32, scale: Option<u32>, captions: Seq<CaptionView>, i: int)
    requires
        0 <= i < captions.len(),
    ensures
        graph_stages(fps, scale, captions).len() == captions.len() + 2,
        graph_stages(fps, scale, captions)[0] == rate_stage(fps),
        graph_stages(fps, scale, captions)[1] == scale_stage(scale),
        graph_stages(fps, scale, captions)[i + 2] == crate::captions::overlay_expr(
            captions[i],
        ).unwrap(),
{
}

/// Builds the filter graph for a frame rate, an optional target width and
/// the captions to draw.
pub fn build_filter(fps: u32, scale: Option<u32>, caps: &[Caption]) -> (res: Result<
    String,
    ColorError,
>)
    ensures
        text_is(res, filter_graph(fps, scale, caption_views(caps@))),
{
    let ghost views = caption_views(caps@);
    let ghost head = seq![rate_stage(fps), scale_stage(scale)];
    let mut out = String::new();
    out.append("fps=");
    push_decimal(&mut out, fps as u64);
    push_char(&mut out, ',');
    match scale {
        Some(width) => {
            out.append("scale=");
            push_decimal(&mut out, width as u64);
            out.append(":-2:flags=lanczos");
        },
        None => {
            out.append("scale=trunc(iw/2)*2:trunc(ih/2)*2");
        },
    }
    proof {
        let first = seq![rate_stage(fps)];
        assert(head == first.push(scale_stage(scale)));
        assert(joined(first, ',') == rate_stage(fps));
        crate::text::joined_push(first, scale_stage(scale), ',');
        assert(out@ == joined(head, ','));
    }
    if caps.len() > 0 {
        let chain = match chain_filters_expr(caps) {
            Ok(chain) => chain,
            Err(e) => {
                return Err(e);
            },
        };
        push_char(&mut out, ',');
        out.append(chain.as_str());
        proof {
            joined_concat(head, overlay_expr_stages(views), ',');
        }
    } else {
        assert(overlay_expr_stages(views) == Seq::<Seq<char>>::empty());
        assert(head + Seq::<Seq<char>>::empty() == head);
    }
    Ok(out)
}

/// Writes a time in milliseconds as seconds with three decimals. The
/// conversion is exact: no digit is lost or rounded.
pub fn ms_to_sec(ms: u64) -> (s: String)
    ensures
        s@ == seconds_text(ms as nat),
{
    let mut s = String::new();
    push_seconds(&mut s, ms);
    assert(Seq::<char>::empty() + seconds_text(ms as nat) == seconds_text(ms as nat));
    s
}

} // verus!
