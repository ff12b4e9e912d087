use cptv_frames::bounds::{clip_context, NormalizationContext};
use cptv_frames::frame::{Frame, RangeSelection};
use cptv_frames::render::{colorize, normalize, pack_rgba, render, render_colorized, render_gray16, to_gray16, Intensity, Raster, RenderMode};

fn ctx(min: u16, max: u16) -> NormalizationContext {
    NormalizationContext { min, max }
}

fn frame(samples: Vec<u16>) -> Frame {
    Frame {
        samples,
        time_on: 0,
        last_ffc_time: 0,
        last_ffc_temp_bits: 0,
        frame_temp_bits: 0,
        is_background_frame: false,
    }
}

#[test]
fn example_clip_gray16_first_frame() {
    let clip = vec![frame(vec![10, 20]), frame(vec![0, 30]), frame(vec![15, 15])];
    let c = clip_context(&clip, &RangeSelection { start: None, end: None });
    assert_eq!(c, ctx(0, 30));
    assert_eq!(render_gray16(&clip[0].samples, c), vec![21845, 43690]);
}

#[test]
fn normalize_formula_and_clamping() {
    let c = ctx(100, 300);
    assert_eq!(normalize(150, c), Intensity { num: 50, den: 200 });
    assert_eq!(normalize(50, c), Intensity { num: 0, den: 200 });
    assert_eq!(normalize(400, c), Intensity { num: 200, den: 200 });
}

#[test]
fn gray16_rounds_half_up() {
    assert_eq!(to_gray16(Intensity { num: 1, den: 2 }), 32768);
    assert_eq!(to_gray16(Intensity { num: 0, den: 7 }), 0);
    assert_eq!(to_gray16(Intensity { num: 7, den: 7 }), 65535);
    assert_eq!(to_gray16(Intensity { num: 1, den: 3 }), 21845);
}

#[test]
fn normalize_is_monotonic() {
    let c = ctx(1000, 1234);
    let mut prev = 0u16;
    for s in (900u16..1300).step_by(3) {
        let g = to_gray16(normalize(s, c));
        assert!(g >= prev);
        prev = g;
    }
}

#[test]
fn degenerate_context_maps_to_zero() {
    let c = ctx(500, 500);
    for s in [0u16, 499, 500, 501, 65535] {
        assert_eq!(normalize(s, c), Intensity { num: 0, den: 1 });
    }
    assert_eq!(render_gray16(&vec![0, 500, 65535], c), vec![0, 0, 0]);
}

#[test]
fn colorize_lower_endpoint() {
    let low = colorize(Intensity { num: 0, den: 1 });
    assert_eq!(low, (0x44, 0x01, 0x54));
    assert_eq!(colorize(Intensity { num: 0, den: 30 }), low);
    assert_eq!(colorize(Intensity { num: 0, den: 1 }), low);
}

#[test]
fn colorize_upper_endpoint() {
    let high = colorize(Intensity { num: 1, den: 1 });
    let c = colorous::VIRIDIS.eval_continuous(1.0);
    assert_eq!(high, (c.r, c.g, c.b));
    assert_eq!(colorize(Intensity { num: 30, den: 30 }), high);
    assert_ne!(high, colorize(Intensity { num: 0, den: 1 }));
}

#[test]
fn colorize_midpoint_follows_gradient() {
    let c = colorous::VIRIDIS.eval_rational(1, 3);
    assert_eq!(colorize(Intensity { num: 1, den: 2 }), (c.r, c.g, c.b));
}

#[test]
fn colorized_pixels_are_rgba_with_full_alpha() {
    let px = render_colorized(&vec![0, 10], ctx(0, 10));
    assert_eq!(px.len(), 8);
    assert_eq!(&px[0..4], &[0x44, 0x01, 0x54, 0xff]);
    let high = colorize(Intensity { num: 1, den: 1 });
    assert_eq!(&px[4..8], &[high.0, high.1, high.2, 0xff]);
}

#[test]
fn render_dispatches_on_mode() {
    match render(&vec![0, 10], ctx(0, 10), RenderMode::Grayscale16) {
        Raster::Gray16(px) => assert_eq!(px, vec![0, 65535]),
        Raster::Rgba8(_) => panic!("expected gray pixels"),
    }
    match render(&vec![0], ctx(0, 10), RenderMode::Colorized) {
        Raster::Rgba8(px) => assert_eq!(px, vec![0x44, 0x01, 0x54, 0xff]),
        Raster::Gray16(_) => panic!("expected colored pixels"),
    }
}

#[test]
fn packed_pixel_bytes_are_rgba_little_endian() {
    let p = pack_rgba(1, 2, 3, 255);
    assert_eq!(p, 0xff03_0201);
    assert_eq!(p.to_le_bytes(), [1, 2, 3, 255]);
}
