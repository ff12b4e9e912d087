use vstd::prelude::*;
use crate::frame::{Frame, RangeSelection, clip_samples};

verus! {

/// The (min, max) sample pair that intensities are normalized against.
#[derive(Debug, Clone, Copy, PartialEq, Eq, Structural)]
pub struct NormalizationContext {
    pub min: u16,
    pub max: u16,
}

/// The context used when there are no samples to take bounds from: the whole
/// 16-bit range.
pub open spec fn full_range() -> NormalizationContext {
    NormalizationContext { min: 0, max: 0xffff }
}

/// `lo` and `hi` are the least and the greatest of the samples `s`.
pub open spec fn are_extrema(s: Seq<u16>, lo: u16, hi: u16) -> bool {
    &&& forall|j: int| 0 <= j < s.len() ==> lo <= #[trigger] s[j] <= hi
    &&& exists|j: int| 0 <= j < s.len() && s[j] == lo
    &&& exists|j: int| 0 <= j < s.len() && s[j] == hi
}

/// `c` is the per-frame context of a frame with samples `s`: their extrema, or
/// the full range for a frame without samples.
pub open spec fn is_frame_context(s: Seq<u16>, c: NormalizationContext) -> bool {
    if s.len() == 0 {
        c == full_range()
    } else {
        are_extrema(s, c.min, c.max)
    }
}

/// Some selected frame of the clip has a sample.
pub open spec fn clip_has_samples(fs: Seq<Seq<u16>>, sel: RangeSelection) -> bool {
    exists|i: int| 0 <= i < fs.len() && #[trigger] sel.selects(i) && fs[i].len() > 0
}

/// `lo` and `hi` are the least and greatest samples over the selected frames.
pub open spec fn are_clip_extrema(
    fs: Seq<Seq<u16>>,
    sel: RangeSelection,
    lo: u16,
    hi: u16,
) -> bool {
    &&& forall|i: int, j: int|
        0 <= i < fs.len() && sel.selects(i) && 0 <= j < fs[i].len() ==> lo <= #[trigger] fs[i][j]
            <= hi
    &&& exists|i: int, j: int|
        0 <= i < fs.len() && sel.selects(i) && 0 <= j < fs[i].len() && fs[i][j] == lo
    &&& exists|i: int, j: int|
        0 <= i < fs.len() && sel.selects(i) && 0 <= j < fs[i].len() && fs[i][j] == hi
}

/// `c` is the per-clip context: the extrema over every sample of every selected
/// frame, or the full range when the selection holds no sample.
pub open spec fn is_clip_context(
    fs: Seq<Seq<u16>>,
    sel: RangeSelection,
    c: NormalizationContext,
) -> bool {
    if !clip_has_samples(fs, sel) {
        c == full_range()
    } else {
        are_clip_extrema(fs, sel, c.min, c.max)
    }
}

/// Folds the samples `s` into running bounds `acc` (absent while no sample has
/// been seen).
pub fn merge_bounds(s: &Vec<u16>, acc: Option<(u16, u16)>) -> (r: Option<(u16, u16)>)
    ensures
        r is None <==> (acc is None && s@.len() == 0),
        r matches Some((lo, hi)) ==> {
            &&& forall|j: int| 0 <= j < s@.len() ==> lo <= #[trigger] s@[j] <= hi
            &&& acc matches Some((a, b)) ==> lo <= a && b <= hi
            &&& (exists|j: int| 0 <= j < s@.len() && s@[j] == lo) || (acc matches Some((a, b))
                && a == lo)
            &&& (exists|j: int| 0 <= j < s@.len() && s@[j] == hi) || (acc matches Some((a, b))
                && b == hi)
        },
{
    let mut r = acc;
    let mut i: usize = 0;
    while i < s.len()
        invariant
            i <= s@.len(),
            r is None <==> (acc is None && i == 0),
            r matches Some((lo, hi)) ==> {
                &&& forall|j: int| 0 <= j < i ==> lo <= #[trigger] s@[j] <= hi
                &&& acc matches Some((a, b)) ==> lo <= a && b <= hi
                &&& (exists|j: int| 0 <= j < i && s@[j] == lo) || (acc matches Some((a, b)) && a
                    == lo)
                &&& (exists|j: int| 0 <= j < i && s@[j] == hi) || (acc matches Some((a, b)) && b
                    == hi)
            },
        decreases s@.len() - i,
    {
        let v = s[i];
        r = match r {
            None => Some((v, v)),
            Some((lo, hi)) => Some((if v < lo { v } else { lo }, if v > hi { v } else { hi })),
        };
        i = i + 1;
    }
    r
}

/// The context for running bounds: the bounds themselves, or the full range
/// when no sample was seen.
pub fn context_of(acc: Option<(u16, u16)>) -> (r: NormalizationContext)
    ensures
        r == (match acc {
            Some((lo, hi)) => NormalizationContext { min: lo, max: hi },
            None => full_range(),
        }),
{
    match acc {
        Some((lo, hi)) => NormalizationContext { min: lo, max: hi },
        None => NormalizationContext { min: 0, max: 0xffff },
    }
}

/// The per-frame context of a frame with samples `s`.
pub fn frame_context(s: &Vec<u16>) -> (r: NormalizationContext)
    ensures
        is_frame_context(s@, r),
{
    context_of(merge_bounds(s, None))
}

/// The per-clip context over the frames that `sel` selects.
pub fn clip_context(frames: &Vec<Frame>, sel: &RangeSelection) -> (r: NormalizationContext)
    ensures
        is_clip_context(clip_samples(frames@), *sel, r),
{
    let ghost fs = clip_samples(frames@);
    let mut acc: Option<(u16, u16)> = None;
    let mut k: usize = 0;
    while k < frames.len()
        invariant
            fs == clip_samples(frames@),
            k <= frames@.len(),
            acc is None <==> !(exists|i: int|
                0 <= i < k && #[trigger] sel.selects(i) && fs[i].len() > 0),
            acc matches Some((lo, hi)) ==> {
                &&& forall|i: int, j: int|
                    0 <= i < k && sel.selects(i) && 0 <= j < fs[i].len() ==> lo
                        <= #[trigger] fs[i][j] <= hi
                &&& exists|i: int, j: int|
                    0 <= i < k && sel.selects(i) && 0 <= j < fs[i].len() && fs[i][j] == lo
                &&& exists|i: int, j: int|
                    0 <= i < k && sel.selects(i) && 0 <= j < fs[i].len() && fs[i][j] == hi
            },
        decreases frames@.len() - k,
    {
        if sel.contains(k) {
            let prev = acc;
            acc = merge_bounds(&frames[k].samples, acc);
            assert(fs[k as int] == frames@[k as int].samples@);
            proof {
                if let Some((lo, hi)) = acc {
                    assert forall|i: int, j: int|
                        0 <= i < k + 1 && sel.selects(i) && 0 <= j < fs[i].len() implies lo
                            <= #[trigger] fs[i][j] <= hi by {
                        if i == k {
                            assert(fs[i][j] == frames@[k as int].samples@[j]);
                        }
                    }
                    if exists|j: int|
                        0 <= j < frames@[k as int].samples@.len() && frames@[k as int].samples@[j]
                            == lo {
                        let j = choose|j: int|
                            0 <= j < frames@[k as int].samples@.len()
                                && frames@[k as int].samples@[j] == lo;
                        assert(0 <= k < k + 1 && sel.selects(k as int) && 0 <= j < fs[k as int].len()
                            && fs[k as int][j] == lo);
                    }
                    if exists|j: int|
                        0 <= j < frames@[k as int].samples@.len() && frames@[k as int].samples@[j]
                            == hi {
                        let j = choose|j: int|
                            0 <= j < frames@[k as int].samples@.len()
                                && frames@[k as int].samples@[j] == hi;
                        assert(0 <= k < k + 1 && sel.selects(k as int) && 0 <= j < fs[k as int].len()
                            && fs[k as int][j] == hi);
                    }
                } else {
                    assert(frames@[k as int].samples@.len() == 0);
                }
                if prev is None && acc is Some {
                    assert(0 <= k < k + 1 && sel.selects(k as int) && fs[k as int].len() > 0);
                }
            }
        }
        k = k + 1;
    }
    context_of(acc)
}

/// Whether the rendering pass needs a bounds pass first: per-clip
/// normalization was asked for and the header does not give both bounds.
pub fn needs_clip_pass(per_clip: bool, header_min: Option<u16>, header_max: Option<u16>) -> (r:
    bool)
    ensures
        r == (per_clip && (header_min is None || header_max is None)),
{
    per_clip && (header_min.is_none() || header_max.is_none())
}

/// The per-clip context that the header gives, when it gives both bounds.
pub fn header_context(header_min: Option<u16>, header_max: Option<u16>) -> (r: Option<
    NormalizationContext,
>)
    ensures
        r == (match (header_min, header_max) {
            (Some(lo), Some(hi)) => Some(NormalizationContext { min: lo, max: hi }),
            _ => None::<NormalizationContext>,
        }),
{
    match (header_min, header_max) {
        (Some(lo), Some(hi)) => Some(NormalizationContext { min: lo, max: hi }),
        _ => None,
    }
}

/// The context a frame is rendered with: the clip's, under per-clip
/// normalization, else the frame's own.
pub fn context_for_frame(per_clip: bool, clip: NormalizationContext, s: &Vec<u16>) -> (r:
    NormalizationContext)
    ensures
        per_clip ==> r == clip,
        !per_clip ==> is_frame_context(s@, r),
{
    if per_clip {
        clip
    } else {
        frame_context(s)
    }
}

/// The bounds pass is deterministic: two runs over the same frames and the same
/// selection give the same context.
pub proof fn lemma_clip_context_deterministic(
    fs: Seq<Seq<u16>>,
    sel: RangeSelection,
    c1: NormalizationContext,
    c2: NormalizationContext,
)
    requires
        is_clip_context(fs, sel, c1),
        is_clip_context(fs, sel, c2),
    ensures
        c1 == c2,
{
    if clip_has_samples(fs, sel) {
        let (i1, j1) = choose|i: int, j: int|
            0 <= i < fs.len() && sel.selects(i) && 0 <= j < fs[i].len() && fs[i][j] == c1.min;
        let (i2, j2) = choose|i: int, j: int|
            0 <= i < fs.len() && sel.selects(i) && 0 <= j < fs[i].len() && fs[i][j] == c2.min;
        assert(c2.min <= fs[i1][j1]);
        assert(c1.min <= fs[i2][j2]);
        let (i3, j3) = choose|i: int, j: int|
            0 <= i < fs.len() && sel.selects(i) && 0 <= j < fs[i].len() && fs[i][j] == c1.max;
        let (i4, j4) = choose|i: int, j: int|
            0 <= i < fs.len() && sel.selects(i) && 0 <= j < fs[i].len() && fs[i][j] == c2.max;
        assert(fs[i3][j3] <= c2.max);
        assert(fs[i4][j4] <= c1.max);
    }
}

/// When every selected frame has the same extrema, per-frame and per-clip
/// normalization use the same context, so they render identically.
pub proof fn lemma_shared_extrema_same_context(
    fs: Seq<Seq<u16>>,
    sel: RangeSelection,
    c: NormalizationContext,
    clip: NormalizationContext,
)
    requires
        exists|i: int| 0 <= i < fs.len() && #[trigger] sel.selects(i),
        forall|i: int| 0 <= i < fs.len() && #[trigger] sel.selects(i) ==> is_frame_context(fs[i], c),
        is_clip_context(fs, sel, clip),
    ensures
        clip == c,
{
    if clip_has_samples(fs, sel) {
        let i0 = choose|i: int| 0 <= i < fs.len() && #[trigger] sel.selects(i) && fs[i].len() > 0;
        assert(is_frame_context(fs[i0], c));
        let jl = choose|j: int| 0 <= j < fs[i0].len() && fs[i0][j] == c.min;
        let jh = choose|j: int| 0 <= j < fs[i0].len() && fs[i0][j] == c.max;
        assert forall|i: int, j: int|
            0 <= i < fs.len() && sel.selects(i) && 0 <= j < fs[i].len() implies c.min
                <= #[trigger] fs[i][j] <= c.max by {
            assert(is_frame_context(fs[i], c));
        }
        assert(0 <= i0 < fs.len() && sel.selects(i0) && 0 <= jl < fs[i0].len() && fs[i0][jl]
            == c.min);
        assert(0 <= i0 < fs.len() && sel.selects(i0) && 0 <= jh < fs[i0].len() && fs[i0][jh]
            == c.max);
        assert(is_clip_context(fs, sel, c));
        lemma_clip_context_deterministic(fs, sel, c, clip);
    } else {
        let i0 = choose|i: int| 0 <= i < fs.len() && #[trigger] sel.selects(i);
        assert(is_frame_context(fs[i0], c));
    }
}

} // verus!
