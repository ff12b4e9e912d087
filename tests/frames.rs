use cptv_frames::bounds::{clip_context, context_for_frame, frame_context, header_context, merge_bounds, needs_clip_pass, NormalizationContext};
use cptv_frames::frame::{Frame, RangeSelection};

fn frame(samples: Vec<u16>) -> Frame {
    Frame {
        samples,
        time_on: 0,
        last_ffc_time: 0,
        last_ffc_temp_bits: 0,
        frame_temp_bits: 0,
        is_background_frame: false,
    }
}

fn ctx(min: u16, max: u16) -> NormalizationContext {
    NormalizationContext { min, max }
}

fn example_clip() -> Vec<Frame> {
    vec![frame(vec![10, 20]), frame(vec![0, 30]), frame(vec![15, 15])]
}

#[test]
fn range_defaults_select_everything() {
    let all = RangeSelection { start: None, end: None };
    assert_eq!(all.skip_count(), 0);
    assert_eq!(all.take_count(), u32::MAX);
    assert_eq!(all.positions(4), vec![0, 1, 2, 3]);
}

#[test]
fn range_is_one_based_and_inclusive() {
    let sel = RangeSelection { start: Some(2), end: Some(3) };
    assert_eq!(sel.skip_count(), 1);
    assert_eq!(sel.take_count(), 2);
    assert!(!sel.contains(0));
    assert!(sel.contains(1));
    assert!(sel.contains(2));
    assert!(!sel.contains(3));
    assert_eq!(sel.positions(10), vec![1, 2]);
}

#[test]
fn range_start_zero_counts_as_one() {
    let sel = RangeSelection { start: Some(0), end: Some(2) };
    assert_eq!(sel.positions(5), vec![0, 1]);
}

#[test]
fn range_start_after_end_is_empty() {
    let sel = RangeSelection { start: Some(5), end: Some(3) };
    assert_eq!(sel.take_count(), 0);
    assert_eq!(sel.positions(10), Vec::<usize>::new());
}

#[test]
fn full_range_matches_unfiltered() {
    let total: u32 = 7;
    let full = RangeSelection { start: Some(1), end: Some(total) };
    let none = RangeSelection { start: None, end: None };
    assert_eq!(full.positions(total as usize), none.positions(total as usize));
}

#[test]
fn frame_context_is_extrema() {
    assert_eq!(frame_context(&vec![5, 3, 9, 4]), ctx(3, 9));
    assert_eq!(frame_context(&vec![]), ctx(0, 65535));
}

#[test]
fn merge_bounds_extends_running_bounds() {
    assert_eq!(merge_bounds(&vec![], None), None);
    assert_eq!(merge_bounds(&vec![4, 2], None), Some((2, 4)));
    assert_eq!(merge_bounds(&vec![4, 2], Some((3, 10))), Some((2, 10)));
    assert_eq!(merge_bounds(&vec![], Some((3, 10))), Some((3, 10)));
}

#[test]
fn clip_context_of_example() {
    let all = RangeSelection { start: None, end: None };
    assert_eq!(clip_context(&example_clip(), &all), ctx(0, 30));
    let last = RangeSelection { start: Some(3), end: None };
    assert_eq!(clip_context(&example_clip(), &last), ctx(15, 15));
}

#[test]
fn clip_context_of_empty_selection_is_full_range() {
    let none = RangeSelection { start: Some(4), end: None };
    assert_eq!(clip_context(&example_clip(), &none), ctx(0, 65535));
}

#[test]
fn clip_context_twice_is_identical() {
    let sel = RangeSelection { start: Some(1), end: Some(2) };
    let a = clip_context(&example_clip(), &sel);
    let b = clip_context(&example_clip(), &sel);
    assert_eq!(a, b);
    assert_eq!(a, ctx(0, 30));
}

#[test]
fn shared_extrema_per_frame_equals_per_clip() {
    let clip = vec![frame(vec![2, 8, 5]), frame(vec![8, 2]), frame(vec![3, 2, 8])];
    let all = RangeSelection { start: None, end: None };
    let clip_ctx = clip_context(&clip, &all);
    for f in &clip {
        assert_eq!(context_for_frame(false, clip_ctx, &f.samples), clip_ctx);
    }
}

#[test]
fn clip_pass_only_when_header_lacks_bounds() {
    assert!(needs_clip_pass(true, None, None));
    assert!(needs_clip_pass(true, Some(1), None));
    assert!(!needs_clip_pass(true, Some(1), Some(9)));
    assert!(!needs_clip_pass(false, None, None));
    assert_eq!(header_context(Some(1), Some(9)), Some(ctx(1, 9)));
    assert_eq!(header_context(None, Some(9)), None);
}

#[test]
fn frame_copy_is_independent() {
    let f = frame(vec![1, 2, 3]);
    let mut g = f.copy();
    g.samples[0] = 7;
    assert_eq!(f.samples, vec![1, 2, 3]);
    assert_eq!(g.samples, vec![7, 2, 3]);
}
