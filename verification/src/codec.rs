//! The message codec: each message of the wire protocol as a JSON object, and
//! one message per line of text.
//!
//! Reading is strict: an object with a member that its message does not have
//! is refused, and so is a discriminator that names no variant. The members
//! may come in any order.

use vstd::prelude::*;
use crate::fields::{
    integer_is_written_plainly, list_is_writable, natural_is_written_plainly,
    object_is_writable, plain_is_writable, proportions_are_writable,
    fraction_from, i32_of, integer, integer_json, member, members_found, names_of, natural,
    natural_json, numbers_read_back, opt_is, proportion, proportion_json, read_int, read_proportion,
    read_text, read_u32, read_u64, text_json, text_of, u32_of, u64_of,
};
use crate::fraction::Fraction;
use crate::names::names_differ;
use crate::text::same_text;
use crate::json::{
    writable, written_plainly,
    get, has_only_keys, key_views, lookup, object, only_keys, put, text, view_of_list,
    view_of_object, Json, JsonView, Member,
};
use crate::types::{
    caption_views, Caption, CaptionAnimation, CaptionRect, CaptionStyle, CaptionStyleView,
    CaptionView, CaptureRegion, ErrorKind, LoopMode, TrimRange,
};

verus! {

/// A capture region as an object with the members `x`, `y`, `width`, `height`.
pub open spec fn region_tree(r: CaptureRegion) -> JsonView {
    JsonView::Object(
        seq![
            member("x"@, integer(r.x as int)),
            member("y"@, integer(r.y as int)),
            member("width"@, natural(r.width as nat)),
            member("height"@, natural(r.height as nat)),
        ],
    )
}

/// The capture region that a tree writes: an object with exactly the members
/// of a region, each an integer of its range.
pub open spec fn region_of(t: JsonView) -> Option<CaptureRegion> {
    match t {
        JsonView::Object(ms) => {
            let x = i32_of(lookup(ms, "x"@));
            let y = i32_of(lookup(ms, "y"@));
            let width = u32_of(lookup(ms, "width"@));
            let height = u32_of(lookup(ms, "height"@));
            if only_keys(ms, seq!["x"@, "y"@, "width"@, "height"@]) && x is Some && y is Some
                && width is Some && height is Some {
                Some(CaptureRegion { x: x->0, y: y->0, width: width->0, height: height->0 })
            } else {
                None
            }
        },
        _ => None,
    }
}

/// Writes a capture region as a tree.
pub fn region_json(r: &CaptureRegion) -> (j: Json)
    ensures
        j@ == region_tree(*r),
{
    let mut ms: Vec<Member> = Vec::new();
    put(&mut ms, "x", integer_json(r.x));
    put(&mut ms, "y", integer_json(r.y));
    put(&mut ms, "width", natural_json(r.width as u64));
    put(&mut ms, "height", natural_json(r.height as u64));
    let j = object(ms);
    assert(j@->Object_0 =~= region_tree(*r)->Object_0);
    j
}

/// Reads a capture region from a tree.
pub fn region_from(j: &Json) -> (r: Option<CaptureRegion>)
    ensures
        r == region_of(j@),
{
    match j {
        Json::Object(ms) => {
            proof {
                view_of_object(*ms);
            }
            let keys = ["x", "y", "width", "height"];
            assert(key_views(keys@) =~= seq!["x"@, "y"@, "width"@, "height"@]);
            if !has_only_keys(ms, keys.as_slice()) {
                return None;
            }
            let x = read_int(get(ms, "x"));
            let y = read_int(get(ms, "y"));
            let width = read_u32(get(ms, "width"));
            let height = read_u32(get(ms, "height"));
            match (x, y, width, height) {
                (Some(x), Some(y), Some(width), Some(height)) => Some(
                    CaptureRegion { x, y, width, height },
                ),
                _ => None,
            }
        },
        _ => None,
    }
}

/// A region that is written is read back.
pub proof fn region_round_trip(r: CaptureRegion)
    ensures
        region_of(region_tree(r)) == Some(r),
{
    let ms = region_tree(r)->Object_0;
    names_differ();
    assert(names_of(ms) =~= seq!["x"@, "y"@, "width"@, "height"@]);
    members_found(ms);
    assert(ms[0].name == "x"@ && ms[1].name == "y"@ && ms[2].name == "width"@ && ms[3].name
        == "height"@);
    Fraction::with_value_is(0);
    numbers_read_back(r.width, 0, r.x, Fraction::with_value(0));
    numbers_read_back(r.height, 0, r.y, Fraction::with_value(0));
}

/// A trim range as an object with the members `start_ms` and `end_ms`.
pub open spec fn trim_tree(t: TrimRange) -> JsonView {
    JsonView::Object(
        seq![
            member("start_ms"@, natural(t.start_ms as nat)),
            member("end_ms"@, natural(t.end_ms as nat)),
        ],
    )
}

/// The trim range that a tree writes.
pub open spec fn trim_of(t: JsonView) -> Option<TrimRange> {
    match t {
        JsonView::Object(ms) => {
            let start_ms = u64_of(lookup(ms, "start_ms"@));
            let end_ms = u64_of(lookup(ms, "end_ms"@));
            if only_keys(ms, seq!["start_ms"@, "end_ms"@]) && start_ms is Some && end_ms is Some {
                Some(TrimRange { start_ms: start_ms->0, end_ms: end_ms->0 })
            } else {
                None
            }
        },
        _ => None,
    }
}

/// Writes a trim range as a tree.
pub fn trim_json(t: &TrimRange) -> (j: Json)
    ensures
        j@ == trim_tree(*t),
{
    let mut ms: Vec<Member> = Vec::new();
    put(&mut ms, "start_ms", natural_json(t.start_ms));
    put(&mut ms, "end_ms", natural_json(t.end_ms));
    let j = object(ms);
    assert(j@->Object_0 =~= trim_tree(*t)->Object_0);
    j
}

/// Reads a trim range from a tree.
pub fn trim_from(j: &Json) -> (r: Option<TrimRange>)
    ensures
        r == trim_of(j@),
{
    match j {
        Json::Object(ms) => {
            proof {
                view_of_object(*ms);
            }
            let keys = ["start_ms", "end_ms"];
            assert(key_views(keys@) =~= seq!["start_ms"@, "end_ms"@]);
            if !has_only_keys(ms, keys.as_slice()) {
                return None;
            }
            let start_ms = read_u64(get(ms, "start_ms"));
            let end_ms = read_u64(get(ms, "end_ms"));
            match (start_ms, end_ms) {
                (Some(start_ms), Some(end_ms)) => Some(TrimRange { start_ms, end_ms }),
                _ => None,
            }
        },
        _ => None,
    }
}

/// A trim range that is written is read back.
pub proof fn trim_round_trip(t: TrimRange)
    ensures
        trim_of(trim_tree(t)) == Some(t),
{
    let ms = trim_tree(t)->Object_0;
    names_differ();
    assert(names_of(ms) =~= seq!["start_ms"@, "end_ms"@]);
    members_found(ms);
    assert(ms[0].name == "start_ms"@ && ms[1].name == "end_ms"@);
    Fraction::with_value_is(0);
    numbers_read_back(0, t.start_ms, 0, Fraction::with_value(0));
    numbers_read_back(0, t.end_ms, 0, Fraction::with_value(0));
}

/// The name of a loop mode on the wire.
pub open spec fn loop_name(mode: LoopMode) -> Seq<char> {
    match mode {
        LoopMode::Normal => "normal"@,
        LoopMode::Pingpong => "pingpong"@,
        LoopMode::Once => "once"@,
    }
}

/// The loop mode that a member names, if it names one.
pub open spec fn loop_of(t: Option<JsonView>) -> Option<LoopMode> {
    match t {
        Some(JsonView::Text(name)) => if name == "normal"@ {
            Some(LoopMode::Normal)
        } else if name == "pingpong"@ {
            Some(LoopMode::Pingpong)
        } else if name == "once"@ {
            Some(LoopMode::Once)
        } else {
            None
        },
        _ => None,
    }
}

/// Writes a loop mode as its name.
pub fn loop_json(mode: LoopMode) -> (j: Json)
    ensures
        j@ == JsonView::Text(loop_name(mode)),
{
    match mode {
        LoopMode::Normal => text("normal"),
        LoopMode::Pingpong => text("pingpong"),
        LoopMode::Once => text("once"),
    }
}

/// Reads a loop mode from its name.
pub fn loop_from(j: Option<&Json>) -> (r: Option<LoopMode>)
    ensures
        r == loop_of(
            match j {
                Some(j) => Some(j@),
                None => None,
            },
        ),
{
    match j {
        Some(Json::Text(name)) => {
            if same_text(name.as_str(), "normal") {
                Some(LoopMode::Normal)
            } else if same_text(name.as_str(), "pingpong") {
                Some(LoopMode::Pingpong)
            } else if same_text(name.as_str(), "once") {
                Some(LoopMode::Once)
            } else {
                None
            }
        },
        _ => None,
    }
}

/// The name of an animation on the wire.
pub open spec fn animation_name(a: CaptionAnimation) -> Seq<char> {
    match a {
        CaptionAnimation::Still => "none"@,
        CaptionAnimation::Fade => "fade"@,
    }
}

/// The animation under a member that may be left out: a caption without one
/// stands still.
pub open spec fn animation_of(t: Option<JsonView>) -> Option<CaptionAnimation> {
    match t {
        None => Some(CaptionAnimation::Still),
        Some(JsonView::Text(name)) => if name == "none"@ {
            Some(CaptionAnimation::Still)
        } else if name == "fade"@ {
            Some(CaptionAnimation::Fade)
        } else {
            None
        },
        _ => None,
    }
}

/// Writes an animation as its name.
pub fn animation_json(a: CaptionAnimation) -> (j: Json)
    ensures
        j@ == JsonView::Text(animation_name(a)),
{
    match a {
        CaptionAnimation::Still => text("none"),
        CaptionAnimation::Fade => text("fade"),
    }
}

/// Reads an animation from its name, or from the lack of the member.
pub fn animation_from(j: Option<&Json>) -> (r: Option<CaptionAnimation>)
    ensures
        r == animation_of(
            match j {
                Some(j) => Some(j@),
                None => None,
            },
        ),
{
    match j {
        None => Some(CaptionAnimation::Still),
        Some(Json::Text(name)) => {
            if same_text(name.as_str(), "none") {
                Some(CaptionAnimation::Still)
            } else if same_text(name.as_str(), "fade") {
                Some(CaptionAnimation::Fade)
            } else {
                None
            }
        },
        _ => None,
    }
}

/// The name of an error kind on the wire.
pub open spec fn kind_name(kind: ErrorKind) -> Seq<char> {
    match kind {
        ErrorKind::PermissionDenied => "permission_denied"@,
        ErrorKind::InvalidInput => "invalid_input"@,
        ErrorKind::EncodingFailed => "encoding_failed"@,
        ErrorKind::IoError => "io_error"@,
        ErrorKind::UnsupportedPlatform => "unsupported_platform"@,
    }
}

/// The error kind that a member names, if it names one.
pub open spec fn kind_of(t: Option<JsonView>) -> Option<ErrorKind> {
    match t {
        Some(JsonView::Text(name)) => if name == "permission_denied"@ {
            Some(ErrorKind::PermissionDenied)
        } else if name == "invalid_input"@ {
            Some(ErrorKind::InvalidInput)
        } else if name == "encoding_failed"@ {
            Some(ErrorKind::EncodingFailed)
        } else if name == "io_error"@ {
            Some(ErrorKind::IoError)
        } else if name == "unsupported_platform"@ {
            Some(ErrorKind::UnsupportedPlatform)
        } else {
            None
        },
        _ => None,
    }
}

/// Writes an error kind as its name.
pub fn kind_json(kind: ErrorKind) -> (j: Json)
    ensures
        j@ == JsonView::Text(kind_name(kind)),
{
    match kind {
        ErrorKind::PermissionDenied => text("permission_denied"),
        ErrorKind::InvalidInput => text("invalid_input"),
        ErrorKind::EncodingFailed => text("encoding_failed"),
        ErrorKind::IoError => text("io_error"),
        ErrorKind::UnsupportedPlatform => text("unsupported_platform"),
    }
}

/// Reads an error kind from its name.
pub fn kind_from(j: Option<&Json>) -> (r: Option<ErrorKind>)
    ensures
        r == kind_of(
            match j {
                Some(j) => Some(j@),
                None => None,
            },
        ),
{
    match j {
        Some(Json::Text(name)) => {
            if same_text(name.as_str(), "permission_denied") {
                Some(ErrorKind::PermissionDenied)
            } else if same_text(name.as_str(), "invalid_input") {
                Some(ErrorKind::InvalidInput)
            } else if same_text(name.as_str(), "encoding_failed") {
                Some(ErrorKind::EncodingFailed)
            } else if same_text(name.as_str(), "io_error") {
                Some(ErrorKind::IoError)
            } else if same_text(name.as_str(), "unsupported_platform") {
                Some(ErrorKind::UnsupportedPlatform)
            } else {
                None
            }
        },
        _ => None,
    }
}

/// The names of loop modes, animations and error kinds are read back as
/// what they name.
pub proof fn names_round_trip(mode: LoopMode, a: CaptionAnimation, kind: ErrorKind)
    ensures
        loop_of(Some(JsonView::Text(loop_name(mode)))) == Some(mode),
        animation_of(Some(JsonView::Text(animation_name(a)))) == Some(a),
        kind_of(Some(JsonView::Text(kind_name(kind)))) == Some(kind),
{
    names_differ();
}

/// A caption's style as an object with the members `color`, `stroke`, `size`.
pub open spec fn style_tree(s: CaptionStyleView) -> JsonView {
    JsonView::Object(
        seq![
            member("color"@, JsonView::Text(s.color)),
            member("stroke"@, JsonView::Text(s.stroke)),
            member("size"@, natural(s.size as nat)),
        ],
    )
}

/// The style that a member writes.
pub open spec fn style_of(t: Option<JsonView>) -> Option<CaptionStyleView> {
    match t {
        Some(JsonView::Object(ms)) => {
            let color = text_of(lookup(ms, "color"@));
            let stroke = text_of(lookup(ms, "stroke"@));
            let size = u32_of(lookup(ms, "size"@));
            if only_keys(ms, seq!["color"@, "stroke"@, "size"@]) && color is Some && stroke is Some
                && size is Some {
                Some(CaptionStyleView { color: color->0, stroke: stroke->0, size: size->0 })
            } else {
                None
            }
        },
        _ => None,
    }
}

/// Writes a caption's style as a tree.
pub fn style_json(s: &CaptionStyle) -> (j: Json)
    ensures
        j@ == style_tree(s@),
{
    let mut ms: Vec<Member> = Vec::new();
    put(&mut ms, "color", text_json(&s.color));
    put(&mut ms, "stroke", text_json(&s.stroke));
    put(&mut ms, "size", natural_json(s.size as u64));
    let j = object(ms);
    assert(j@->Object_0 =~= style_tree(s@)->Object_0);
    j
}

/// Reads a caption's style from a member.
pub fn style_from(j: Option<&Json>) -> (r: Option<CaptionStyle>)
    ensures
        opt_is(
            r,
            style_of(
                match j {
                    Some(j) => Some(j@),
                    None => None,
                },
            ),
        ),
{
    match j {
        Some(Json::Object(ms)) => {
            proof {
                view_of_object(*ms);
            }
            let keys = ["color", "stroke", "size"];
            assert(key_views(keys@) =~= seq!["color"@, "stroke"@, "size"@]);
            if !has_only_keys(ms, keys.as_slice()) {
                return None;
            }
            let color = read_text(get(ms, "color"));
            let stroke = read_text(get(ms, "stroke"));
            let size = read_u32(get(ms, "size"));
            match (color, stroke, size) {
                (Some(color), Some(stroke), Some(size)) => Some(
                    CaptionStyle { color, stroke, size },
                ),
                _ => None,
            }
        },
        _ => None,
    }
}

/// A style that is written is read back.
pub proof fn style_round_trip(s: CaptionStyleView)
    ensures
        style_of(Some(style_tree(s))) == Some(s),
{
    let ms = style_tree(s)->Object_0;
    names_differ();
    assert(names_of(ms) =~= seq!["color"@, "stroke"@, "size"@]);
    members_found(ms);
    assert(ms[0].name == "color"@ && ms[1].name == "stroke"@ && ms[2].name == "size"@);
    Fraction::with_value_is(0);
    numbers_read_back(s.size, 0, 0, Fraction::with_value(0));
}

/// A caption's rectangle as an object with the members `x`, `y`, `w`, `h`.
pub open spec fn rect_tree(r: CaptionRect) -> JsonView {
    JsonView::Object(
        seq![
            member("x"@, proportion(r.x)),
            member("y"@, proportion(r.y)),
            member("w"@, proportion(r.w)),
            member("h"@, proportion(r.h)),
        ],
    )
}

/// The rectangle that a member writes: each side a proportion.
pub open spec fn rect_of(t: Option<JsonView>) -> Option<CaptionRect> {
    match t {
        Some(JsonView::Object(ms)) => {
            let x = fraction_from(lookup(ms, "x"@));
            let y = fraction_from(lookup(ms, "y"@));
            let w = fraction_from(lookup(ms, "w"@));
            let h = fraction_from(lookup(ms, "h"@));
            if only_keys(ms, seq!["x"@, "y"@, "w"@, "h"@]) && x is Some && y is Some && w is Some
                && h is Some {
                Some(CaptionRect { x: x->0, y: y->0, w: w->0, h: h->0 })
            } else {
                None
            }
        },
        _ => None,
    }
}

/// Writes a caption's rectangle as a tree.
pub fn rect_json(r: &CaptionRect) -> (j: Json)
    ensures
        j@ == rect_tree(*r),
{
    let mut ms: Vec<Member> = Vec::new();
    put(&mut ms, "x", proportion_json(r.x));
    put(&mut ms, "y", proportion_json(r.y));
    put(&mut ms, "w", proportion_json(r.w));
    put(&mut ms, "h", proportion_json(r.h));
    let j = object(ms);
    assert(j@->Object_0 =~= rect_tree(*r)->Object_0);
    j
}

/// Reads a caption's rectangle from a member.
pub fn rect_from(j: Option<&Json>) -> (r: Option<CaptionRect>)
    ensures
        r == rect_of(
            match j {
                Some(j) => Some(j@),
                None => None,
            },
        ),
{
    match j {
        Some(Json::Object(ms)) => {
            proof {
                view_of_object(*ms);
            }
            let keys = ["x", "y", "w", "h"];
            assert(key_views(keys@) =~= seq!["x"@, "y"@, "w"@, "h"@]);
            if !has_only_keys(ms, keys.as_slice()) {
                return None;
            }
            let x = read_proportion(get(ms, "x"));
            let y = read_proportion(get(ms, "y"));
            let w = read_proportion(get(ms, "w"));
            let h = read_proportion(get(ms, "h"));
            match (x, y, w, h) {
                (Some(x), Some(y), Some(w), Some(h)) => Some(CaptionRect { x, y, w, h }),
                _ => None,
            }
        },
        _ => None,
    }
}

/// A rectangle that is written is read back.
pub proof fn rect_round_trip(r: CaptionRect)
    requires
        r.valid(),
    ensures
        rect_of(Some(rect_tree(r))) == Some(r),
{
    let ms = rect_tree(r)->Object_0;
    names_differ();
    assert(names_of(ms) =~= seq!["x"@, "y"@, "w"@, "h"@]);
    members_found(ms);
    assert(ms[0].name == "x"@ && ms[1].name == "y"@ && ms[2].name == "w"@ && ms[3].name == "h"@);
    numbers_read_back(0, 0, 0, r.x);
    numbers_read_back(0, 0, 0, r.y);
    numbers_read_back(0, 0, 0, r.w);
    numbers_read_back(0, 0, 0, r.h);
}

/// A caption as an object with the members `text`, `font`, `style`, `rect`,
/// `start_ms`, `end_ms` and `animation`.
pub open spec fn caption_tree(c: CaptionView) -> JsonView {
    JsonView::Object(
        seq![
            member("text"@, JsonView::Text(c.text)),
            member("font"@, JsonView::Text(c.font)),
            member("style"@, style_tree(c.style)),
            member("rect"@, rect_tree(c.rect)),
            member("start_ms"@, natural(c.start_ms as nat)),
            member("end_ms"@, natural(c.end_ms as nat)),
            member("animation"@, JsonView::Text(animation_name(c.animation))),
        ],
    )
}

/// The caption that a tree writes. `animation` may be left out: the caption
/// then stands still.
pub open spec fn caption_of(t: JsonView) -> Option<CaptionView> {
    match t {
        JsonView::Object(ms) => {
            let text = text_of(lookup(ms, "text"@));
            let font = text_of(lookup(ms, "font"@));
            let style = style_of(lookup(ms, "style"@));
            let rect = rect_of(lookup(ms, "rect"@));
            let start_ms = u64_of(lookup(ms, "start_ms"@));
            let end_ms = u64_of(lookup(ms, "end_ms"@));
            let animation = animation_of(lookup(ms, "animation"@));
            if only_keys(
                ms,
                seq!["text"@, "font"@, "style"@, "rect"@, "start_ms"@, "end_ms"@, "animation"@],
            ) && text is Some && font is Some && style is Some && rect is Some && start_ms is Some
                && end_ms is Some && animation is Some {
                Some(
                    CaptionView {
                        text: text->0,
                        font: font->0,
                        style: style->0,
                        rect: rect->0,
                        start_ms: start_ms->0,
                        end_ms: end_ms->0,
                        animation: animation->0,
                    },
                )
            } else {
                None
            }
        },
        _ => None,
    }
}

/// Writes a caption as a tree.
pub fn caption_json(c: &Caption) -> (j: Json)
    ensures
        j@ == caption_tree(c@),
{
    let mut ms: Vec<Member> = Vec::new();
    put(&mut ms, "text", text_json(&c.text));
    put(&mut ms, "font", text_json(&c.font));
    put(&mut ms, "style", style_json(&c.style));
    put(&mut ms, "rect", rect_json(&c.rect));
    put(&mut ms, "start_ms", natural_json(c.start_ms));
    put(&mut ms, "end_ms", natural_json(c.end_ms));
    put(&mut ms, "animation", animation_json(c.animation));
    let j = object(ms);
    assert(j@->Object_0 =~= caption_tree(c@)->Object_0);
    j
}

/// Reads a caption from a tree.
pub fn caption_from(j: &Json) -> (r: Option<Caption>)
    ensures
        opt_is(r, caption_of(j@)),
{
    match j {
        Json::Object(ms) => {
            proof {
                view_of_object(*ms);
            }
            let keys = ["text", "font", "style", "rect", "start_ms", "end_ms", "animation"];
            assert(key_views(keys@) =~= seq![
                "text"@,
                "font"@,
                "style"@,
                "rect"@,
                "start_ms"@,
                "end_ms"@,
                "animation"@,
            ]);
            if !has_only_keys(ms, keys.as_slice()) {
                return None;
            }
            let text = read_text(get(ms, "text"));
            let font = read_text(get(ms, "font"));
            let style = style_from(get(ms, "style"));
            let rect = rect_from(get(ms, "rect"));
            let start_ms = read_u64(get(ms, "start_ms"));
            let end_ms = read_u64(get(ms, "end_ms"));
            let animation = animation_from(get(ms, "animation"));
            match (text, font, style, rect, start_ms, end_ms, animation) {
                (
                    Some(text),
                    Some(font),
                    Some(style),
                    Some(rect),
                    Some(start_ms),
                    Some(end_ms),
                    Some(animation),
                ) => Some(Caption { text, font, style, rect, start_ms, end_ms, animation }),
                _ => None,
            }
        },
        _ => None,
    }
}

/// A caption that is written is read back.
pub proof fn caption_round_trip(c: CaptionView)
    requires
        c.rect.valid(),
    ensures
        caption_of(caption_tree(c)) == Some(c),
{
    let ms = caption_tree(c)->Object_0;
    names_differ();
    assert(names_of(ms) =~= seq![
        "text"@,
        "font"@,
        "style"@,
        "rect"@,
        "start_ms"@,
        "end_ms"@,
        "animation"@,
    ]);
    members_found(ms);
    assert(ms[0].name == "text"@ && ms[1].name == "font"@ && ms[2].name == "style"@ && ms[3].name
        == "rect"@ && ms[4].name == "start_ms"@ && ms[5].name == "end_ms"@ && ms[6].name
        == "animation"@);
    style_round_trip(c.style);
    rect_round_trip(c.rect);
    Fraction::with_value_is(0);
    numbers_read_back(0, c.start_ms, 0, Fraction::with_value(0));
    numbers_read_back(0, c.end_ms, 0, Fraction::with_value(0));
    names_round_trip(LoopMode::Normal, c.animation, ErrorKind::IoError);
}

/// A list of captions as a list of their objects, in order.
pub open spec fn captions_tree(captions: Seq<CaptionView>) -> JsonView {
    JsonView::List(captions.map_values(|c: CaptionView| caption_tree(c)))
}

/// The captions of a list, if each of its items is a caption.
pub open spec fn captions_of(t: Option<JsonView>) -> Option<Seq<CaptionView>> {
    match t {
        Some(JsonView::List(items)) => if forall|i: int|
            0 <= i < items.len() ==> (#[trigger] caption_of(items[i])) is Some {
            Some(items.map_values(|item: JsonView| caption_of(item)->0))
        } else {
            None
        },
        _ => None,
    }
}

/// Whether every caption of a list has a rectangle of valid proportions.
pub open spec fn captions_valid(captions: Seq<CaptionView>) -> bool {
    forall|i: int| 0 <= i < captions.len() ==> (#[trigger] captions[i]).rect.valid()
}

/// Writes a list of captions as a tree.
pub fn captions_json(captions: &Vec<Caption>) -> (j: Json)
    ensures
        j@ == captions_tree(caption_views(captions@)),
{
    let mut items: Vec<Json> = Vec::new();
    let mut i: usize = 0;
    while i < captions.len()
        invariant
            i <= captions.len(),
            items.len() == i,
            forall|k: int| 0 <= k < i ==> (#[trigger] items[k])@ == caption_tree(captions[k]@),
        decreases captions.len() - i,
    {
        items.push(caption_json(&captions[i]));
        i += 1;
    }
    proof {
        view_of_list(items);
        assert(crate::json::item_views(items@) =~= caption_views(captions@).map_values(
            |c: CaptionView| caption_tree(c),
        ));
    }
    Json::List(items)
}

/// Reads a list of captions from a member.
pub fn captions_from(j: Option<&Json>) -> (r: Option<Vec<Caption>>)
    ensures
        match captions_of(
            match j {
                Some(j) => Some(j@),
                None => None,
            },
        ) {
            Some(views) => r is Some && caption_views(r->0@) == views,
            None => r is None,
        },
{
    match j {
        Some(Json::List(items)) => {
            proof {
                view_of_list(*items);
            }
            let ghost trees = crate::json::item_views(items@);
            let ghost whole = captions_of(Some(JsonView::List(trees)));
            let mut captions: Vec<Caption> = Vec::new();
            let mut i: usize = 0;
            while i < items.len()
                invariant
                    i <= items.len(),
                    captions.len() == i,
                    trees == crate::json::item_views(items@),
                    j is Some && j->0@ == JsonView::List(trees),
                    whole == captions_of(Some(JsonView::List(trees))),
                    forall|k: int| 0 <= k < i ==> (#[trigger] caption_of(trees[k])) is Some,
                    forall|k: int|
                        0 <= k < i ==> (#[trigger] captions[k])@ == caption_of(trees[k])->0,
                decreases items.len() - i,
            {
                assert(trees[i as int] == items[i as int]@);
                match caption_from(&items[i]) {
                    Some(c) => {
                        captions.push(c);
                    },
                    None => {
                        assert(whole is None);
                        return None;
                    },
                }
                i += 1;
            }
            assert(caption_views(captions@) =~= trees.map_values(
                |item: JsonView| caption_of(item)->0,
            ));
            Some(captions)
        },
        _ => None,
    }
}

/// A list of captions that is written is read back.
pub proof fn captions_round_trip(captions: Seq<CaptionView>)
    requires
        captions_valid(captions),
    ensures
        captions_of(Some(captions_tree(captions))) == Some(captions),
{
    let items = captions.map_values(|c: CaptionView| caption_tree(c));
    assert forall|i: int| 0 <= i < items.len() implies (#[trigger] caption_of(items[i])) == Some(
        captions[i],
    ) by {
        assert(captions[i].rect.valid());
        caption_round_trip(captions[i]);
    }
    assert(items.map_values(|item: JsonView| caption_of(item)->0) =~= captions);
}

/// A region is written as the JSON writer prints it.
pub proof fn region_is_written_plainly(r: CaptureRegion)
    ensures
        written_plainly(region_tree(r)),
{
    names_differ();
    integer_is_written_plainly(r.x);
    integer_is_written_plainly(r.y);
    natural_is_written_plainly(r.width as u64);
    natural_is_written_plainly(r.height as u64);
    object_is_writable(region_tree(r)->Object_0);
}

/// A trim range is written as the JSON writer prints it.
pub proof fn trim_is_written_plainly(t: TrimRange)
    ensures
        written_plainly(trim_tree(t)),
{
    names_differ();
    natural_is_written_plainly(t.start_ms);
    natural_is_written_plainly(t.end_ms);
    object_is_writable(trim_tree(t)->Object_0);
}

/// A style is written as the JSON writer prints it.
pub proof fn style_is_written_plainly(s: CaptionStyleView)
    ensures
        written_plainly(style_tree(s)),
{
    names_differ();
    natural_is_written_plainly(s.size as u64);
    object_is_writable(style_tree(s)->Object_0);
}

/// A caption with a rectangle of valid proportions is written so that the
/// JSON writer takes it.
pub proof fn caption_is_writable(c: CaptionView)
    requires
        c.rect.valid(),
    ensures
        writable(rect_tree(c.rect)),
        writable(caption_tree(c)),
{
    names_differ();
    proportions_are_writable(c.rect.x);
    proportions_are_writable(c.rect.y);
    proportions_are_writable(c.rect.w);
    proportions_are_writable(c.rect.h);
    object_is_writable(rect_tree(c.rect)->Object_0);
    style_is_written_plainly(c.style);
    plain_is_writable(style_tree(c.style));
    natural_is_written_plainly(c.start_ms);
    natural_is_written_plainly(c.end_ms);
    plain_is_writable(natural(c.start_ms as nat));
    plain_is_writable(natural(c.end_ms as nat));
    object_is_writable(caption_tree(c)->Object_0);
}

/// A list of captions with rectangles of valid proportions is written so
/// that the JSON writer takes it.
pub proof fn captions_are_writable(captions: Seq<CaptionView>)
    requires
        captions_valid(captions),
    ensures
        writable(captions_tree(captions)),
{
    let items = captions.map_values(|c: CaptionView| caption_tree(c));
    assert forall|i: int| 0 <= i < items.len() implies writable(#[trigger] items[i]) by {
        assert(captions[i].rect.valid());
        caption_is_writable(captions[i]);
    }
    list_is_writable(items);
}

} // verus!
