use vstd::prelude::*;

verus! {

/// One decoded thermal frame: row-major raw samples and their metadata.
///
/// The two temperatures are carried as the bit patterns of their `f32` values
/// in degrees Celsius; this library never computes with them.
pub struct Frame {
    pub samples: Vec<u16>,
    pub time_on: u32,
    pub last_ffc_time: u32,
    pub last_ffc_temp_bits: u32,
    pub frame_temp_bits: u32,
    pub is_background_frame: bool,
}

impl Frame {
    /// An independent copy of the frame, samples included.
    pub fn copy(&self) -> (r: Frame)
        ensures
            r.samples@ == self.samples@,
            r.time_on == self.time_on,
            r.last_ffc_time == self.last_ffc_time,
            r.last_ffc_temp_bits == self.last_ffc_temp_bits,
            r.frame_temp_bits == self.frame_temp_bits,
            r.is_background_frame == self.is_background_frame,
    {
        let mut samples: Vec<u16> = Vec::with_capacity(self.samples.len());
        let mut i: usize = 0;
        while i < self.samples.len()
            invariant
                i <= self.samples@.len(),
                samples@ == self.samples@.take(i as int),
            decreases self.samples@.len() - i,
        {
            samples.push(self.samples[i]);
            i = i + 1;
            assert(samples@ =~= self.samples@.take(i as int));
        }
        assert(samples@ =~= self.samples@);
        Frame {
            samples,
            time_on: self.time_on,
            last_ffc_time: self.last_ffc_time,
            last_ffc_temp_bits: self.last_ffc_temp_bits,
            frame_temp_bits: self.frame_temp_bits,
            is_background_frame: self.is_background_frame,
        }
    }
}

/// The samples of each frame of a clip, in clip order.
pub open spec fn clip_samples(frames: Seq<Frame>) -> Seq<Seq<u16>> {
    frames.map_values(|f: Frame| f.samples@)
}

/// A 1-based, inclusive window of frames. An absent start means the first
/// frame, an absent end means no upper limit; a start after the end selects
/// nothing.
#[derive(Debug, Clone, Copy, PartialEq, Eq, Structural)]
pub struct RangeSelection {
    pub start: Option<u32>,
    pub end: Option<u32>,
}

impl RangeSelection {
    /// The first selected 1-based position.
    pub open spec fn first(&self) -> int {
        match self.start {
            Some(s) => if s >= 1 { s as int } else { 1 },
            None => 1,
        }
    }

    /// The last selected 1-based position.
    pub open spec fn last(&self) -> int {
        match self.end {
            Some(e) => e as int,
            None => u32::MAX as int,
        }
    }

    /// Whether the frame at 0-based clip position `i` is selected.
    pub open spec fn selects(&self, i: int) -> bool {
        self.first() <= i + 1 <= self.last()
    }

    /// How many frames of the clip come before the window.
    pub fn skip_count(&self) -> (r: u32)
        ensures
            r == self.first() - 1,
    {
        match self.start {
            Some(s) => if s >= 1 { s - 1 } else { 0 },
            None => 0,
        }
    }

    /// How many frames the window takes after skipping, at most.
    pub fn take_count(&self) -> (r: u32)
        ensures
            r == (if self.last() - (self.first() - 1) > 0 {
                self.last() - (self.first() - 1)
            } else {
                0
            }),
    {
        let skip = self.skip_count();
        let last: u32 = match self.end {
            Some(e) => e,
            None => u32::MAX,
        };
        if last > skip {
            last - skip
        } else {
            0
        }
    }

    /// Whether the frame at 0-based clip position `index` is selected.
    pub fn contains(&self, index: usize) -> (r: bool)
        ensures
            r == self.selects(index as int),
    {
        let skip = self.skip_count() as usize;
        let take = self.take_count() as usize;
        index >= skip && index - skip < take
    }

    /// The 0-based clip positions selected in a clip of `total` frames, in
    /// clip order.
    pub fn positions(&self, total: usize) -> (r: Vec<usize>)
        ensures
            forall|k: int| 0 <= k < r@.len() ==> r@[k] < total && self.selects(r@[k] as int),
            forall|k: int, l: int| 0 <= k < l < r@.len() ==> r@[k] < r@[l],
            forall|i: int| 0 <= i < total && self.selects(i) ==> r@.contains(i as usize),
    {
        let mut r: Vec<usize> = Vec::new();
        let mut i: usize = 0;
        while i < total
            invariant
                i <= total,
                forall|k: int| 0 <= k < r@.len() ==> r@[k] < i && self.selects(r@[k] as int),
                forall|k: int, l: int| 0 <= k < l < r@.len() ==> r@[k] < r@[l],
                forall|j: int| 0 <= j < i && self.selects(j) ==> r@.contains(j as usize),
            decreases total - i,
        {
            if self.contains(i) {
                let ghost prev = r@;
                r.push(i);
                assert(r@ == prev.push(i));
                assert forall|j: int| 0 <= j < i + 1 && self.selects(j) implies r@.contains(
                    j as usize,
                ) by {
                    if j < i {
                        assert(prev.contains(j as usize));
                        let k = choose|k: int| 0 <= k < prev.len() && prev[k] == j as usize;
                        assert(r@[k] == j as usize);
                    } else {
                        assert(r@[r@.len() - 1] == j as usize);
                    }
                }
            }
            i = i + 1;
        }
        r
    }
}

/// Selecting from frame 1 through the clip's last frame selects the same frames
/// as selecting with no limits.
pub proof fn lemma_full_range_is_unfiltered(total: u32)
    ensures
        forall|i: int|
            0 <= i < total ==> (RangeSelection { start: Some(1), end: Some(total) }).selects(i)
                == (RangeSelection { start: None, end: None }).selects(i),
{
}

} // verus!
