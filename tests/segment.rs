use rtrb::RingBuffer;
use voice_memo::channel::write_samples;
use voice_memo::segment::{
    calibration_len, calibration_samples, plan_step, Plan, SegmentLoop, Step, CALIBRATION_FRAME_SIZE,
    FRAME_COUNT,
};
use voice_memo::vad::{VadState, SILENCE_THRESHOLD};

#[test]
fn new_loop_is_empty_and_silent() {
    let l = SegmentLoop::new(320);
    assert!(l.segment().is_empty());
    assert_eq!(l.vad(), VadState::Silence(0));
    assert_eq!(l.frame_size(), 320);
}

#[test]
fn waits_when_less_than_a_frame() {
    let (mut p, mut c) = RingBuffer::<u32>::new(64);
    let mut l = SegmentLoop::new(4);
    assert_eq!(write_samples(&mut p, &[1, 2, 3]), Ok(()));
    assert_eq!(l.step(&mut c, false), Step::Wait);
    assert!(l.segment().is_empty());
    assert_eq!(c.slots(), 3);
}

#[test]
fn reads_one_frame_at_a_time() {
    let (mut p, mut c) = RingBuffer::<u32>::new(64);
    let mut l = SegmentLoop::new(2);
    assert_eq!(write_samples(&mut p, &[1, 2, 3, 4, 5]), Ok(()));
    assert_eq!(l.step(&mut c, false), Step::Frame);
    assert_eq!(l.segment(), &vec![1, 2]);
    assert_eq!(l.step(&mut c, false), Step::Frame);
    assert_eq!(l.segment(), &vec![1, 2, 3, 4]);
    assert_eq!(l.step(&mut c, false), Step::Wait);
    assert_eq!(c.slots(), 1);
}

#[test]
fn flush_request_drains_everything_and_asks_to_submit() {
    let (mut p, mut c) = RingBuffer::<u32>::new(64);
    let mut l = SegmentLoop::new(4);
    assert_eq!(write_samples(&mut p, &[1, 2, 3, 4, 5, 6]), Ok(()));
    assert_eq!(l.step(&mut c, false), Step::Frame);
    // a stop arrives while samples are still in flight
    assert_eq!(l.step(&mut c, true), Step::Flushed { submit: true });
    assert_eq!(l.segment(), &vec![1, 2, 3, 4, 5, 6]);
    assert_eq!(c.slots(), 0);
    l.finish_submit();
    assert!(l.segment().is_empty());
}

#[test]
fn flush_request_with_nothing_pending_submits_nothing() {
    let (_p, mut c) = RingBuffer::<u32>::new(8);
    let mut l = SegmentLoop::new(4);
    assert_eq!(l.step(&mut c, true), Step::Flushed { submit: false });
    assert!(l.segment().is_empty());
}

#[test]
fn flush_request_wins_over_frame_processing() {
    let (mut p, mut c) = RingBuffer::<u32>::new(64);
    let mut l = SegmentLoop::new(2);
    assert_eq!(write_samples(&mut p, &[1, 2, 3, 4, 5, 6, 7]), Ok(()));
    assert_eq!(l.step(&mut c, true), Step::Flushed { submit: true });
    assert_eq!(l.segment().len(), 7);
    assert_eq!(l.vad(), VadState::Silence(0));
}

fn fill_frames(l: &mut SegmentLoop, frames: usize) {
    let (mut p, mut c) = RingBuffer::<u32>::new(frames * l.frame_size() + 1);
    let data: Vec<u32> = vec![0; frames * l.frame_size()];
    assert_eq!(write_samples(&mut p, &data), Ok(()));
    for _ in 0..frames {
        assert_eq!(l.step(&mut c, false), Step::Frame);
    }
}

#[test]
fn short_segment_is_kept_on_flush_signal() {
    let mut l = SegmentLoop::new(1);
    fill_frames(&mut l, 5);
    assert!(!l.classify(false));
    for _ in 1..SILENCE_THRESHOLD {
        assert!(!l.classify(true));
    }
    assert!(!l.classify(true));
    assert_eq!(l.vad(), VadState::MaybeSilence(1));
    assert_eq!(l.segment().len(), 5);
}

#[test]
fn long_segment_is_submitted_after_pause() {
    let mut l = SegmentLoop::new(1);
    fill_frames(&mut l, FRAME_COUNT + 1);
    assert!(!l.classify(false));
    for _ in 1..SILENCE_THRESHOLD {
        assert!(!l.classify(true));
    }
    assert!(l.classify(true));
    assert_eq!(l.vad(), VadState::Silence(1));
    l.finish_submit();
    assert!(l.segment().is_empty());
    assert_eq!(l.vad(), VadState::Silence(1));
}

#[test]
fn segment_of_exactly_frame_count_frames_is_kept() {
    let mut l = SegmentLoop::new(2);
    fill_frames(&mut l, FRAME_COUNT);
    assert!(!l.classify(false));
    for _ in 1..SILENCE_THRESHOLD {
        assert!(!l.classify(true));
    }
    assert!(!l.classify(true));
    assert_eq!(l.vad(), VadState::MaybeSilence(1));
}

#[test]
fn calibration_reads_what_is_available() {
    let (mut p, mut c) = RingBuffer::<u32>::new(100);
    assert_eq!(write_samples(&mut p, &[3, 1, 4]), Ok(()));
    assert_eq!(calibration_samples(&mut c), vec![3, 1, 4]);
    assert_eq!(c.slots(), 0);
}

#[test]
fn calibration_reads_at_most_its_window() {
    let (mut p, mut c) = RingBuffer::<u32>::new(20000);
    let data: Vec<u32> = (0..15000).collect();
    assert_eq!(write_samples(&mut p, &data), Ok(()));
    let got = calibration_samples(&mut c);
    assert_eq!(got.len(), CALIBRATION_FRAME_SIZE);
    assert_eq!(got[0], 0);
    assert_eq!(got[CALIBRATION_FRAME_SIZE - 1], (CALIBRATION_FRAME_SIZE - 1) as u32);
    assert_eq!(c.slots(), 15000 - CALIBRATION_FRAME_SIZE);
}

#[test]
fn calibration_with_nothing_available_is_empty() {
    let (_p, mut c) = RingBuffer::<u32>::new(100);
    assert!(calibration_samples(&mut c).is_empty());
}

#[test]
fn calibration_len_is_capped() {
    assert_eq!(calibration_len(0), 0);
    assert_eq!(calibration_len(100), 100);
    assert_eq!(calibration_len(CALIBRATION_FRAME_SIZE), CALIBRATION_FRAME_SIZE);
    assert_eq!(calibration_len(CALIBRATION_FRAME_SIZE + 1), CALIBRATION_FRAME_SIZE);
}

#[test]
fn plan_prefers_flush_request() {
    assert_eq!(plan_step(true, 7, 10, 320), Plan::Drain(7));
    assert_eq!(plan_step(true, 0, 10, 320), Plan::Drain(0));
    assert_eq!(plan_step(true, 1000, 1000, 320), Plan::Drain(1000));
}

#[test]
fn plan_drain_is_bounded_by_segment_room() {
    assert_eq!(plan_step(true, 50, usize::MAX - 20, 320), Plan::Drain(20));
}

#[test]
fn plan_waits_for_a_whole_frame() {
    assert_eq!(plan_step(false, 319, 0, 320), Plan::Wait);
    assert_eq!(plan_step(false, 320, 0, 320), Plan::ReadFrame);
    assert_eq!(plan_step(false, 5000, 640, 320), Plan::ReadFrame);
}

#[test]
fn plan_waits_when_segment_cannot_grow() {
    assert_eq!(plan_step(false, 5000, usize::MAX - 319, 320), Plan::Wait);
    assert_eq!(plan_step(false, 5000, usize::MAX - 320, 320), Plan::ReadFrame);
}
