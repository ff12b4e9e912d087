use vstd::prelude::*;
use crate::bounds::{NormalizationContext, is_clip_context, lemma_clip_context_deterministic};
use crate::frame::RangeSelection;

verus! {

/// A normalized intensity: the fraction `num / den`, in `[0, 1]`.
#[derive(Debug, Clone, Copy, PartialEq, Eq, Structural)]
pub struct Intensity {
    pub num: u32,
    pub den: u32,
}

impl Intensity {
    pub open spec fn wf(&self) -> bool {
        1 <= self.den <= 0xffff && self.num <= self.den
    }
}

/// How a frame is turned into pixels.
#[derive(Debug, Clone, Copy, PartialEq, Eq, Structural)]
pub enum RenderMode {
    /// One 16-bit gray value per sample.
    Grayscale16,
    /// Four bytes per sample, R, G, B, A, from the Viridis gradient.
    Colorized,
}

/// The pixels of one rendered frame, in the samples' row-major order.
pub enum Raster {
    Gray16(Vec<u16>),
    Rgba8(Vec<u8>),
}

/// `(sample - min) / max(max - min, 1)`, clamped to `[0, 1]`; a context with
/// `max <= min` maps every sample to 0.
pub open spec fn intensity_of(sample: u16, c: NormalizationContext) -> Intensity {
    if c.max <= c.min {
        Intensity { num: 0, den: 1 }
    } else {
        let den = c.max - c.min;
        let num = if sample <= c.min {
            0
        } else if sample >= c.max {
            den
        } else {
            sample - c.min
        };
        Intensity { num: num as u32, den: den as u32 }
    }
}

/// `t * 65535` rounded to the nearest integer, halves rounded up.
pub open spec fn gray16_of(t: Intensity) -> int {
    (2 * t.num * 0xffff + t.den) / (2 * t.den)
}

/// The Viridis color sampled at position `i / (n - 1)`.
pub uninterp spec fn viridis_at(i: int, n: int) -> (u8, u8, u8);

/// The color at the lower end of the Viridis gradient.
pub open spec fn viridis_low() -> (u8, u8, u8) {
    viridis_at(0, 2)
}

/// The color at the upper end of the Viridis gradient.
pub open spec fn viridis_high() -> (u8, u8, u8) {
    viridis_at(1, 2)
}

/// The Viridis color of a normalized intensity.
pub open spec fn color_of(t: Intensity) -> (u8, u8, u8) {
    viridis_at(t.num as int, t.den + 1)
}

/// Relies on colorous::Gradient::eval_rational applied to colorous::VIRIDIS: for
/// `n >= 2` it samples the gradient at `min(i, n - 1) / (n - 1)`, so `i == 0`
/// samples position 0 and `i >= n - 1` samples position 1; `n == 1` samples
/// position 1; `n == 0` panics.
#[verifier::external_body]
fn viridis_rational(i: usize, n: usize) -> (r: (u8, u8, u8))
    requires
        n >= 1,
    ensures
        r == viridis_at(i as int, n as int),
        n >= 2 && i == 0 ==> r == viridis_at(0, 2),
        i + 1 >= n ==> r == viridis_at(1, 2),
{
    let c = colorous::VIRIDIS.eval_rational(i, n);
    (c.r, c.g, c.b)
}

/// Normalizes a raw sample against a context.
pub fn normalize(sample: u16, c: NormalizationContext) -> (r: Intensity)
    ensures
        r == intensity_of(sample, c),
        r.wf(),
{
    if c.max <= c.min {
        Intensity { num: 0, den: 1 }
    } else {
        let den = c.max - c.min;
        let num = if sample <= c.min {
            0
        } else if sample >= c.max {
            den
        } else {
            sample - c.min
        };
        Intensity { num: num as u32, den: den as u32 }
    }
}

/// Quantizes an intensity to the full 16-bit range.
pub fn to_gray16(t: Intensity) -> (r: u16)
    requires
        t.wf(),
    ensures
        r == gray16_of(t),
{
    let num = t.num as u64;
    let den = t.den as u64;
    proof {
        assert(2 * num * 0xffff + den <= 2 * den * 0xffff + den) by (nonlinear_arith)
            requires
                num <= den,
        ;
        assert((2 * num * 0xffff + den) / (2 * den) <= 0xffff) by (nonlinear_arith)
            requires
                num <= den,
                den >= 1,
        ;
    }
    ((2 * num * 0xffff + den) / (2 * den)) as u16
}

/// The Viridis color of an intensity: the lower endpoint color at 0 and the
/// upper endpoint color at 1, whatever the fraction's denominator.
pub fn colorize(t: Intensity) -> (r: (u8, u8, u8))
    requires
        t.wf(),
    ensures
        r == color_of(t),
        t.num == 0 ==> r == viridis_low(),
        t.num == t.den ==> r == viridis_high(),
{
    viridis_rational(t.num as usize, t.den as usize + 1)
}

/// A pixel packed into 32 bits so that its little-endian bytes are R, G, B, A.
pub fn pack_rgba(r: u8, g: u8, b: u8, a: u8) -> (p: u32)
    ensures
        p == r + 0x100 * g + 0x10000 * b + 0x1000000 * a,
{
    (r as u32) + 0x100 * (b as u32 * 0x100 + g as u32) + 0x1000000 * (a as u32)
}

/// Each sample of `s`, normalized against `c` and quantized to 16 bits.
pub fn render_gray16(s: &Vec<u16>, c: NormalizationContext) -> (r: Vec<u16>)
    ensures
        r@.len() == s@.len(),
        forall|j: int| 0 <= j < s@.len() ==> r@[j] == gray16_of(intensity_of(#[trigger] s@[j], c)),
{
    let mut r: Vec<u16> = Vec::with_capacity(s.len());
    let mut i: usize = 0;
    while i < s.len()
        invariant
            i <= s@.len(),
            r@.len() == i,
            forall|j: int| 0 <= j < i ==> r@[j] == gray16_of(intensity_of(#[trigger] s@[j], c)),
        decreases s@.len() - i,
    {
        r.push(to_gray16(normalize(s[i], c)));
        i = i + 1;
    }
    r
}

/// Each sample of `s`, normalized against `c`, colored through Viridis and laid
/// out as four bytes R, G, B, A with full opacity.
pub fn render_colorized(s: &Vec<u16>, c: NormalizationContext) -> (r: Vec<u8>)
    requires
        s@.len() * 4 <= usize::MAX,
    ensures
        r@.len() == 4 * s@.len(),
        forall|j: int|
            0 <= j < s@.len() ==> {
                let rgb = color_of(intensity_of(#[trigger] s@[j], c));
                &&& r@[4 * j] == rgb.0
                &&& r@[4 * j + 1] == rgb.1
                &&& r@[4 * j + 2] == rgb.2
                &&& r@[4 * j + 3] == 0xff
            },
{
    let mut r: Vec<u8> = Vec::with_capacity(s.len() * 4);
    let mut i: usize = 0;
    while i < s.len()
        invariant
            i <= s@.len(),
            r@.len() == 4 * i,
            forall|j: int|
                0 <= j < i ==> {
                    let rgb = color_of(intensity_of(#[trigger] s@[j], c));
                    &&& r@[4 * j] == rgb.0
                    &&& r@[4 * j + 1] == rgb.1
                    &&& r@[4 * j + 2] == rgb.2
                    &&& r@[4 * j + 3] == 0xff
                },
        decreases s@.len() - i,
    {
        let rgb = colorize(normalize(s[i], c));
        r.push(rgb.0);
        r.push(rgb.1);
        r.push(rgb.2);
        r.push(0xff);
        i = i + 1;
    }
    r
}

/// Renders the samples of one frame in the given mode.
pub fn render(s: &Vec<u16>, c: NormalizationContext, mode: RenderMode) -> (r: Raster)
    requires
        s@.len() * 4 <= usize::MAX,
    ensures
        match mode {
            RenderMode::Grayscale16 => r matches Raster::Gray16(px) && px@.len() == s@.len()
                && forall|j: int|
                0 <= j < s@.len() ==> px@[j] == gray16_of(intensity_of(#[trigger] s@[j], c)),
            RenderMode::Colorized => r matches Raster::Rgba8(px) && px@.len() == 4 * s@.len()
                && forall|j: int|
                0 <= j < s@.len() ==> {
                    let rgb = color_of(intensity_of(#[trigger] s@[j], c));
                    &&& px@[4 * j] == rgb.0
                    &&& px@[4 * j + 1] == rgb.1
                    &&& px@[4 * j + 2] == rgb.2
                    &&& px@[4 * j + 3] == 0xff
                },
        },
{
    match mode {
        RenderMode::Grayscale16 => Raster::Gray16(render_gray16(s, c)),
        RenderMode::Colorized => Raster::Rgba8(render_colorized(s, c)),
    }
}

/// Normalization is monotonic: within one context a smaller sample never gets a
/// larger intensity, nor a larger gray value.
pub proof fn lemma_normalize_monotonic(c: NormalizationContext, a: u16, b: u16)
    requires
        a <= b,
    ensures
        intensity_of(a, c).den == intensity_of(b, c).den,
        intensity_of(a, c).num <= intensity_of(b, c).num,
        gray16_of(intensity_of(a, c)) <= gray16_of(intensity_of(b, c)),
{
    let ta = intensity_of(a, c);
    let tb = intensity_of(b, c);
    let d = 2 * ta.den;
    assert(2 * ta.num * 0xffff + ta.den <= 2 * tb.num * 0xffff + tb.den) by (nonlinear_arith)
        requires
            ta.num <= tb.num,
            ta.den == tb.den,
    ;
    vstd::arithmetic::div_mod::lemma_div_is_ordered(
        2 * ta.num * 0xffff + ta.den,
        2 * tb.num * 0xffff + tb.den,
        d,
    );
}

/// A degenerate context (`max == min`) maps every sample to intensity 0: gray
/// value 0 and the gradient's lower endpoint color.
pub proof fn lemma_degenerate_context_is_zero(c: NormalizationContext, sample: u16)
    requires
        c.max == c.min,
    ensures
        intensity_of(sample, c) == (Intensity { num: 0, den: 1 }),
        intensity_of(sample, c).wf(),
        gray16_of(intensity_of(sample, c)) == 0,
        color_of(intensity_of(sample, c)) == viridis_at(0, 2),
{
    assert(1int / 2int == 0) by (nonlinear_arith);
}

/// Two bounds passes over the same frames and selection give the same context,
/// hence the same gray and colored output for any frame.
pub proof fn lemma_clip_render_deterministic(
    fs: Seq<Seq<u16>>,
    sel: RangeSelection,
    c1: NormalizationContext,
    c2: NormalizationContext,
    s: Seq<u16>,
)
    requires
        is_clip_context(fs, sel, c1),
        is_clip_context(fs, sel, c2),
    ensures
        c1 == c2,
        forall|j: int|
            0 <= j < s.len() ==> gray16_of(intensity_of(#[trigger] s[j], c1)) == gray16_of(
                intensity_of(s[j], c2),
            ) && color_of(intensity_of(s[j], c1)) == color_of(intensity_of(s[j], c2)),
{
    lemma_clip_context_deterministic(fs, sel, c1, c2);
}

} // verus!
