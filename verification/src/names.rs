//! The names that the wire protocol gives to members and variants.

use vstd::prelude::*;

verus! {

/// The names of the wire protocol that stand side by side, as members of one
/// object or as the values of one discriminator, differ from each other.
pub proof fn names_differ()
    ensures
        "x"@ != "y"@,
        "x"@ != "width"@,
        "x"@ != "height"@,
        "y"@ != "width"@,
        "y"@ != "height"@,
        "width"@ != "height"@,
        "start_ms"@ != "end_ms"@,
        "color"@ != "stroke"@,
        "color"@ != "size"@,
        "stroke"@ != "size"@,
        "x"@ != "w"@,
        "x"@ != "h"@,
        "y"@ != "w"@,
        "y"@ != "h"@,
        "w"@ != "h"@,
        "text"@ != "font"@,
        "text"@ != "style"@,
        "text"@ != "rect"@,
        "text"@ != "start_ms"@,
        "text"@ != "end_ms"@,
        "text"@ != "animation"@,
        "font"@ != "style"@,
        "font"@ != "rect"@,
        "font"@ != "start_ms"@,
        "font"@ != "end_ms"@,
        "font"@ != "animation"@,
        "style"@ != "rect"@,
        "style"@ != "start_ms"@,
        "style"@ != "end_ms"@,
        "style"@ != "animation"@,
        "rect"@ != "start_ms"@,
        "rect"@ != "end_ms"@,
        "rect"@ != "animation"@,
        "start_ms"@ != "animation"@,
        "end_ms"@ != "animation"@,
        "cmd"@ != "region"@,
        "cmd"@ != "fps"@,
        "cmd"@ != "cursor"@,
        "cmd"@ != "out"@,
        "region"@ != "fps"@,
        "region"@ != "cursor"@,
        "region"@ != "out"@,
        "fps"@ != "cursor"@,
        "fps"@ != "out"@,
        "cursor"@ != "out"@,
        "start"@ != "stop"@,
        "event"@ != "pts_ms"@,
        "event"@ != "duration_ms"@,
        "event"@ != "path"@,
        "duration_ms"@ != "path"@,
        "event"@ != "kind"@,
        "event"@ != "hint"@,
        "kind"@ != "hint"@,
        "started"@ != "progress"@,
        "started"@ != "stopped"@,
        "started"@ != "error"@,
        "progress"@ != "stopped"@,
        "progress"@ != "error"@,
        "stopped"@ != "error"@,
        "cmd"@ != "in"@,
        "cmd"@ != "trim"@,
        "cmd"@ != "scale_px"@,
        "cmd"@ != "loop"@,
        "cmd"@ != "captions"@,
        "in"@ != "trim"@,
        "in"@ != "fps"@,
        "in"@ != "scale_px"@,
        "in"@ != "loop"@,
        "in"@ != "captions"@,
        "in"@ != "out"@,
        "trim"@ != "fps"@,
        "trim"@ != "scale_px"@,
        "trim"@ != "loop"@,
        "trim"@ != "captions"@,
        "trim"@ != "out"@,
        "fps"@ != "scale_px"@,
        "fps"@ != "loop"@,
        "fps"@ != "captions"@,
        "scale_px"@ != "loop"@,
        "scale_px"@ != "captions"@,
        "scale_px"@ != "out"@,
        "loop"@ != "captions"@,
        "loop"@ != "out"@,
        "captions"@ != "out"@,
        "cmd"@ != "quality"@,
        "in"@ != "quality"@,
        "trim"@ != "quality"@,
        "fps"@ != "quality"@,
        "scale_px"@ != "quality"@,
        "quality"@ != "captions"@,
        "quality"@ != "out"@,
        "cmd"@ != "lossless"@,
        "in"@ != "lossless"@,
        "trim"@ != "lossless"@,
        "fps"@ != "lossless"@,
        "scale_px"@ != "lossless"@,
        "quality"@ != "lossless"@,
        "lossless"@ != "captions"@,
        "lossless"@ != "out"@,
        "gif"@ != "mp4"@,
        "gif"@ != "webp"@,
        "mp4"@ != "webp"@,
        "event"@ != "percent"@,
        "progress"@ != "done"@,
        "done"@ != "error"@,
        "normal"@ != "pingpong"@,
        "normal"@ != "once"@,
        "pingpong"@ != "once"@,
        "none"@ != "fade"@,
        "permission_denied"@ != "invalid_input"@,
        "permission_denied"@ != "encoding_failed"@,
        "permission_denied"@ != "io_error"@,
        "permission_denied"@ != "unsupported_platform"@,
        "invalid_input"@ != "encoding_failed"@,
        "invalid_input"@ != "io_error"@,
        "invalid_input"@ != "unsupported_platform"@,
        "encoding_failed"@ != "io_error"@,
        "encoding_failed"@ != "unsupported_platform"@,
        "io_error"@ != "unsupported_platform"@,
{
    reveal_strlit("x");
    reveal_strlit("y");
    reveal_strlit("width");
    reveal_strlit("height");
    reveal_strlit("start_ms");
    reveal_strlit("end_ms");
    reveal_strlit("color");
    reveal_strlit("stroke");
    reveal_strlit("size");
    reveal_strlit("w");
    reveal_strlit("h");
    reveal_strlit("text");
    reveal_strlit("font");
    reveal_strlit("style");
    reveal_strlit("rect");
    reveal_strlit("animation");
    reveal_strlit("cmd");
    reveal_strlit("region");
    reveal_strlit("fps");
    reveal_strlit("cursor");
    reveal_strlit("out");
    reveal_strlit("start");
    reveal_strlit("stop");
    reveal_strlit("event");
    reveal_strlit("pts_ms");
    reveal_strlit("duration_ms");
    reveal_strlit("path");
    reveal_strlit("kind");
    reveal_strlit("hint");
    reveal_strlit("started");
    reveal_strlit("progress");
    reveal_strlit("stopped");
    reveal_strlit("error");
    reveal_strlit("in");
    reveal_strlit("trim");
    reveal_strlit("scale_px");
    reveal_strlit("loop");
    reveal_strlit("captions");
    reveal_strlit("quality");
    reveal_strlit("lossless");
    reveal_strlit("gif");
    reveal_strlit("mp4");
    reveal_strlit("webp");
    reveal_strlit("percent");
    reveal_strlit("done");
    reveal_strlit("normal");
    reveal_strlit("pingpong");
    reveal_strlit("once");
    reveal_strlit("none");
    reveal_strlit("fade");
    reveal_strlit("permission_denied");
    reveal_strlit("invalid_input");
    reveal_strlit("encoding_failed");
    reveal_strlit("io_error");
    reveal_strlit("unsupported_platform");
    assert("x"@.len() == 1);
    assert("y"@.len() == 1);
    assert("width"@.len() == 5);
    assert("height"@.len() == 6);
    assert("start_ms"@.len() == 8);
    assert("end_ms"@.len() == 6);
    assert("color"@.len() == 5);
    assert("stroke"@.len() == 6);
    assert("size"@.len() == 4);
    assert("w"@.len() == 1);
    assert("h"@.len() == 1);
    assert("text"@.len() == 4);
    assert("font"@.len() == 4);
    assert("style"@.len() == 5);
    assert("rect"@.len() == 4);
    assert("animation"@.len() == 9);
    assert("cmd"@.len() == 3);
    assert("region"@.len() == 6);
    assert("fps"@.len() == 3);
    assert("cursor"@.len() == 6);
    assert("out"@.len() == 3);
    assert("start"@.len() == 5);
    assert("stop"@.len() == 4);
    assert("event"@.len() == 5);
    assert("pts_ms"@.len() == 6);
    assert("duration_ms"@.len() == 11);
    assert("path"@.len() == 4);
    assert("kind"@.len() == 4);
    assert("hint"@.len() == 4);
    assert("started"@.len() == 7);
    assert("progress"@.len() == 8);
    assert("stopped"@.len() == 7);
    assert("error"@.len() == 5);
    assert("in"@.len() == 2);
    assert("trim"@.len() == 4);
    assert("scale_px"@.len() == 8);
    assert("loop"@.len() == 4);
    assert("captions"@.len() == 8);
    assert("quality"@.len() == 7);
    assert("lossless"@.len() == 8);
    assert("gif"@.len() == 3);
    assert("mp4"@.len() == 3);
    assert("webp"@.len() == 4);
    assert("percent"@.len() == 7);
    assert("done"@.len() == 4);
    assert("normal"@.len() == 6);
    assert("pingpong"@.len() == 8);
    assert("once"@.len() == 4);
    assert("none"@.len() == 4);
    assert("fade"@.len() == 4);
    assert("permission_denied"@.len() == 17);
    assert("invalid_input"@.len() == 13);
    assert("encoding_failed"@.len() == 15);
    assert("io_error"@.len() == 8);
    assert("unsupported_platform"@.len() == 20);
    assert("captions"@[0] == 'c');
    assert("cmd"@[0] == 'c');
    assert("cursor"@[0] == 'c');
    assert("fade"@[0] == 'f');
    assert("font"@[0] == 'f');
    assert("fps"@[0] == 'f');
    assert("gif"@[0] == 'g');
    assert("h"@[0] == 'h');
    assert("hint"@[0] == 'h');
    assert("kind"@[0] == 'k');
    assert("loop"@[0] == 'l');
    assert("lossless"@[0] == 'l');
    assert("mp4"@[0] == 'm');
    assert("none"@[0] == 'n');
    assert("out"@[0] == 'o');
    assert("rect"@[0] == 'r');
    assert("region"@[0] == 'r');
    assert("scale_px"@[0] == 's');
    assert("started"@[2] == 'a');
    assert("stopped"@[2] == 'o');
    assert("text"@[0] == 't');
    assert("trim"@[0] == 't');
    assert("w"@[0] == 'w');
    assert("x"@[0] == 'x');
    assert("y"@[0] == 'y');
}

} // verus!
