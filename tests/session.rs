use cptv_frames::frame::Frame;
use cptv_frames::session::{CptvDecoderContext, SessionError, SessionState, PREFETCH_THRESHOLD};
use cptv_frames::source::FetchStep;

fn frame(samples: Vec<u16>, time_on: u32) -> Frame {
    Frame {
        samples,
        time_on,
        last_ffc_time: 5,
        last_ffc_temp_bits: 0x41c8_0000,
        frame_temp_bits: 0x41f0_0000,
        is_background_frame: true,
    }
}

#[test]
fn prefetch_pumps_until_threshold_or_end() {
    let mut ctx = CptvDecoderContext::new_with_readable_stream();
    assert_eq!(ctx.state(), SessionState::Idle);
    assert_eq!(ctx.prefetch(), FetchStep::Pump);
    assert_eq!(ctx.state(), SessionState::AwaitingHeader);
    ctx.apply_chunk(false, Some(vec![0; PREFETCH_THRESHOLD - 1]));
    assert_eq!(ctx.prefetch(), FetchStep::Pump);
    ctx.apply_chunk(false, Some(vec![0; 1]));
    assert_eq!(ctx.prefetch(), FetchStep::Ready);

    let mut short = CptvDecoderContext::new_with_readable_stream();
    short.apply_chunk(true, Some(vec![1, 2, 3]));
    assert_eq!(short.prefetch(), FetchStep::Ready);
    assert_eq!(short.read(2), Ok(vec![1, 2]));
}

#[test]
fn header_passes_through_or_is_malformed() {
    let mut ctx = CptvDecoderContext::new_with_readable_stream();
    ctx.apply_chunk(true, Some(vec![1]));
    assert_eq!(ctx.get_header::<u32>(Err(())), Err(SessionError::MalformedHeader));
    assert_eq!(ctx.get_header(Ok(42u32)), Ok(42));
    assert_eq!(ctx.state(), SessionState::Streaming);
}

#[test]
fn stream_failure_is_reported() {
    let mut ctx = CptvDecoderContext::new_with_readable_stream();
    ctx.apply_failure();
    assert_eq!(ctx.prefetch(), FetchStep::Failed);
    assert_eq!(ctx.get_header(Ok(1u8)), Err(SessionError::SourceFailure));
    assert!(matches!(ctx.next_frame(Some(frame(vec![1], 0))), Err(SessionError::SourceFailure)));
    assert!(matches!(ctx.next_frame_owned(None), Err(SessionError::SourceFailure)));
}

#[test]
fn frames_are_lent_or_copied() {
    let mut ctx = CptvDecoderContext::new_with_readable_stream();
    ctx.apply_chunk(true, None);
    assert_eq!(ctx.get_header(Ok(())), Ok(()));
    {
        let view = ctx.next_frame(Some(frame(vec![3, 4], 100))).unwrap().unwrap();
        assert_eq!(view.samples, vec![3, 4]);
        assert_eq!(view.time_on, 100);
        assert_eq!(view.last_ffc_time, 5);
        assert_eq!(f32::from_bits(view.last_ffc_temp_bits), 25.0);
        assert_eq!(f32::from_bits(view.frame_temp_bits), 30.0);
        assert!(view.is_background_frame);
    }
    let owned = ctx.next_frame_owned(Some(frame(vec![5, 6], 200))).unwrap().unwrap();
    assert_eq!(ctx.next_frame(None).unwrap().is_none(), true);
    assert_eq!(owned.samples, vec![5, 6]);
    assert_eq!(owned.time_on, 200);
    assert_eq!(ctx.state(), SessionState::Finished);
    assert!(ctx.next_frame_owned(Some(frame(vec![7], 300))).unwrap().is_none());
}
