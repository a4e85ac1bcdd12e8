use mandygif::captions::{chain_filters, chain_filters_expr, ffmpeg_text, ffmpeg_text_expr};
use mandygif::color::ColorError;
use mandygif::ffmpeg::{build_filter, ms_to_sec};
use mandygif::{Caption, CaptionAnimation, CaptionRect, CaptionStyle, Fraction};

fn share(millionths: u32) -> Fraction {
    Fraction::from_millionths(millionths).expect("a proportion")
}

fn shown(text: &str, start_ms: u64, end_ms: u64) -> Caption {
    Caption {
        text: text.to_string(),
        font: "DejaVu Sans".to_string(),
        style: CaptionStyle { color: "#fff".to_string(), stroke: "#0008".to_string(), size: 24 },
        rect: CaptionRect {
            x: share(100_000),
            y: share(800_000),
            w: share(500_000),
            h: share(100_000),
        },
        start_ms,
        end_ms,
        animation: CaptionAnimation::Still,
    }
}

const HEAD: &str = ":fontfile=/usr/share/fonts/truetype/dejavu/DejaVuSans.ttf:fontsize=24:fontcolor=0xFFFFFF:borderw=2:bordercolor=0x000000@0.533";

#[test]
fn seconds_have_three_decimals() {
    assert_eq!(ms_to_sec(0), "0.000");
    assert_eq!(ms_to_sec(1), "0.001");
    assert_eq!(ms_to_sec(500), "0.500");
    assert_eq!(ms_to_sec(999), "0.999");
    assert_eq!(ms_to_sec(1000), "1.000");
    assert_eq!(ms_to_sec(1500), "1.500");
    assert_eq!(ms_to_sec(10333), "10.333");
    assert_eq!(ms_to_sec(u64::MAX), "18446744073709551.615");
}

#[test]
fn seconds_match_floating_point_for_ordinary_times() {
    let mut ms: u64 = 0;
    while ms < 10_000_000 {
        assert_eq!(ms_to_sec(ms), format!("{:.3}", ms as f64 / 1000.0));
        ms += 7919;
    }
}

#[test]
fn an_overlay_is_placed_by_expressions() {
    assert_eq!(
        ffmpeg_text_expr(&shown("A", 0, 1000)),
        Ok(format!(
            "drawtext=text='A'{}:x=(main_w*0.100000):y=(main_h*0.800000):enable='gte(t,0.000)*lt(t,1.000)'",
            HEAD
        ))
    );
}

#[test]
fn an_overlay_can_be_placed_at_pixels() {
    assert_eq!(
        ffmpeg_text(&shown("A", 0, 1500), 640, 360),
        Ok(format!("drawtext=text='A'{}:x=64:y=288:enable='gte(t,0)*lt(t,1.5)'", HEAD))
    );
    assert_eq!(
        ffmpeg_text(&shown("A", 1, 1230), 639, 1),
        Ok(format!("drawtext=text='A'{}:x=63:y=0:enable='gte(t,0.001)*lt(t,1.23)'", HEAD))
    );
}

#[test]
fn single_quotes_in_the_text_are_escaped() {
    let stage = ffmpeg_text_expr(&shown("it's 'x'", 0, 1)).unwrap();
    assert!(stage.starts_with("drawtext=text='it\\'s \\'x\\'':fontfile="));
}

#[test]
fn a_refused_colour_refuses_the_overlay() {
    let mut bad_fill = shown("A", 0, 1);
    bad_fill.style.color = "#ff".to_string();
    bad_fill.style.stroke = "#zzz".to_string();
    assert_eq!(ffmpeg_text_expr(&bad_fill), Err(ColorError::Length));
    assert_eq!(ffmpeg_text(&bad_fill, 1, 1), Err(ColorError::Length));
    let mut bad_stroke = shown("A", 0, 1);
    bad_stroke.style.stroke = "#zzz".to_string();
    assert_eq!(ffmpeg_text_expr(&bad_stroke), Err(ColorError::Digit));
    assert_eq!(
        chain_filters_expr(&[shown("A", 0, 1), bad_stroke.clone(), bad_fill.clone()]),
        Err(ColorError::Digit)
    );
    assert_eq!(chain_filters(&[bad_fill, bad_stroke], 10, 10), Err(ColorError::Length));
}

#[test]
fn overlays_are_chained_in_the_order_given() {
    let a = shown("A", 0, 1000);
    let b = shown("B", 500, 1500);
    let one = ffmpeg_text_expr(&a).unwrap();
    let two = ffmpeg_text_expr(&b).unwrap();
    assert_eq!(chain_filters_expr(&[]), Ok(String::new()));
    assert_eq!(chain_filters_expr(&[a.clone()]), Ok(one.clone()));
    assert_eq!(chain_filters_expr(&[a.clone(), b.clone()]), Ok(format!("{},{}", one, two)));
    assert_eq!(chain_filters_expr(&[b.clone(), a.clone()]), Ok(format!("{},{}", two, one)));
    let p = ffmpeg_text(&a, 100, 100).unwrap();
    let q = ffmpeg_text(&b, 100, 100).unwrap();
    assert_eq!(chain_filters(&[a, b], 100, 100), Ok(format!("{},{}", p, q)));
}

#[test]
fn the_graph_lists_rate_then_scale_then_overlays() {
    let a = shown("A", 0, 1000);
    let b = shown("B", 500, 1500);
    let graph = build_filter(15, Some(480), &[a, b]).unwrap();
    assert_eq!(
        graph,
        format!(
            "fps=15,scale=480:-2:flags=lanczos,drawtext=text='A'{h}:x=(main_w*0.100000):y=(main_h*0.800000):enable='gte(t,0.000)*lt(t,1.000)',drawtext=text='B'{h}:x=(main_w*0.100000):y=(main_h*0.800000):enable='gte(t,0.500)*lt(t,1.500)'",
            h = HEAD
        )
    );
    let rate = graph.find("fps=15").unwrap();
    let scale = graph.find("scale=480").unwrap();
    let first = graph.find("text='A'").unwrap();
    let second = graph.find("text='B'").unwrap();
    assert!(rate < scale && scale < first && first < second);
    assert!(graph.ends_with("enable='gte(t,0.500)*lt(t,1.500)'"));
}

#[test]
fn dimensions_are_made_even_with_and_without_a_target_width() {
    assert_eq!(build_filter(30, Some(481), &[]), Ok("fps=30,scale=481:-2:flags=lanczos".to_string()));
    assert_eq!(
        build_filter(30, None, &[]),
        Ok("fps=30,scale=trunc(iw/2)*2:trunc(ih/2)*2".to_string())
    );
    let with_caption = build_filter(1, None, &[shown("A", 0, 1)]).unwrap();
    assert!(with_caption.starts_with("fps=1,scale=trunc(iw/2)*2:trunc(ih/2)*2,drawtext="));
}

#[test]
fn a_refused_colour_refuses_the_graph() {
    let mut bad = shown("A", 0, 1);
    bad.style.color = "nope".to_string();
    assert_eq!(build_filter(15, None, &[shown("B", 0, 1), bad]), Err(ColorError::Digit));
}

#[test]
fn pixel_overlays_write_times_as_floating_point_would() {
    let mut ms: u64 = 0;
    while ms < 3_000_000 {
        let stage = ffmpeg_text(&shown("A", ms, ms + 1), 10, 10).unwrap();
        let want = format!(
            ":enable='gte(t,{})*lt(t,{})'",
            ms as f64 / 1000.0,
            (ms + 1) as f64 / 1000.0
        );
        assert!(stage.ends_with(&want), "{} does not end with {}", stage, want);
        ms += 331;
    }
}

#[test]
fn expression_overlays_write_proportions_with_six_decimals() {
    let mut c = shown("A", 0, 1);
    for m in [0u32, 1, 123_456, 333_333, 999_999, 1_000_000] {
        c.rect.x = share(m);
        c.rect.y = share(1_000_000 - m);
        let stage = ffmpeg_text_expr(&c).unwrap();
        let want = format!(
            ":x=(main_w*{:.6}):y=(main_h*{:.6}):enable",
            m as f64 / 1e6,
            (1_000_000 - m) as f64 / 1e6
        );
        assert!(stage.contains(&want), "{} does not hold {}", stage, want);
    }
}

#[test]
fn a_caption_is_shown_from_its_start_up_to_its_end() {
    let stage = ffmpeg_text_expr(&shown("A", 500, 1500)).unwrap();
    assert!(stage.ends_with(":enable='gte(t,0.500)*lt(t,1.500)'"));
    assert!(!stage.contains("between"));
    let at_pixels = ffmpeg_text(&shown("A", 500, 1500), 10, 10).unwrap();
    assert!(at_pixels.ends_with(":enable='gte(t,0.5)*lt(t,1.5)'"));
    let empty = ffmpeg_text_expr(&shown("A", 700, 700)).unwrap();
    assert!(empty.ends_with(":enable='gte(t,0.700)*lt(t,0.700)'"));
}
