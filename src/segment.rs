//! The consumer side of the pipeline: the segment accumulator and the flush
//! coordinator. The task that owns a `SegmentLoop` runs it one step at a time,
//! performs what the step asks for (sleep, classify a frame, transcribe the
//! segment, acknowledge a flush request) and reports back.
use vstd::prelude::*;
use crate::channel::{available, extends, read_rb, readable};
use crate::vad::{silence_next, speech_next, VadState};
use rtrb::Consumer;

verus! {

/// Duration of a frame, in milliseconds.
pub const FRAME_MS: u32 = 20;

/// A segment is worth transcribing on a detector flush only when it holds more
/// than this many frames.
pub const FRAME_COUNT: usize = 100;

/// The most samples that calibration reads: 300 ms at 48 kHz.
pub const CALIBRATION_FRAME_SIZE: usize = 14400;

/// Initial capacity of the segment buffer, and the ring buffer's capacity.
pub const MIN_BUFSIZE: usize = 4 * 1024 * 1024;

/// What the owner of the loop has to do after a step.
#[derive(Debug, Clone, Copy, PartialEq, Eq, Structural)]
pub enum Step {
    /// A flush request was served: every sample that was available has been
    /// drained into the segment. When `submit` holds, the segment is to be
    /// transcribed and then cleared with `finish_submit`; either way the
    /// request is acknowledged afterwards.
    Flushed { submit: bool },
    /// Less than a frame is available: wait one polling interval.
    Wait,
    /// One frame was appended to the segment: classify its last frame and
    /// report with `classify`.
    Frame,
}

/// What a step reads, decided from the number of available samples.
#[derive(Debug, Clone, Copy, PartialEq, Eq, Structural)]
pub enum Plan {
    /// Drain this many samples: all that are available, as far as the
    /// segment's length can grow.
    Drain(usize),
    /// Read nothing and wait.
    Wait,
    /// Read one frame.
    ReadFrame,
}

/// A flush request wins; otherwise a frame is read when a whole frame is
/// available and fits in the segment, and the loop waits when not.
pub open spec fn plan_of(flush_requested: bool, available: nat, segment_len: nat, frame_size: nat) -> Plan {
    let room = usize::MAX - segment_len;
    if flush_requested {
        Plan::Drain(
            if available < room {
                available as usize
            } else {
                room as usize
            },
        )
    } else if available < frame_size || room < frame_size {
        Plan::Wait
    } else {
        Plan::ReadFrame
    }
}

pub fn plan_step(flush_requested: bool, available: usize, segment_len: usize, frame_size: usize) -> (r: Plan)
    ensures
        r == plan_of(flush_requested, available as nat, segment_len as nat, frame_size as nat),
{
    let room = usize::MAX - segment_len;
    if flush_requested {
        Plan::Drain(
            if available < room {
                available
            } else {
                room
            },
        )
    } else if available < frame_size || room < frame_size {
        Plan::Wait
    } else {
        Plan::ReadFrame
    }
}

/// A step that found `fresh` readable carried out the plan for its length:
/// `result` is the step reported, `segment` and `left` the segment and the
/// readable samples afterwards.
pub open spec fn step_outcome(
    flush_requested: bool,
    fresh: Seq<u32>,
    old_segment: Seq<u32>,
    frame_size: nat,
    result: Step,
    segment: Seq<u32>,
    left: Seq<u32>,
) -> bool {
    match plan_of(flush_requested, fresh.len(), old_segment.len(), frame_size) {
        Plan::Drain(n) => result == (Step::Flushed { submit: segment.len() > 0 }) && segment
            == old_segment + fresh.subrange(0, n as int) && left == fresh.subrange(
            n as int,
            fresh.len() as int,
        ),
        Plan::Wait => result == Step::Wait && segment == old_segment && left == fresh,
        Plan::ReadFrame => result == Step::Frame && segment == old_segment + fresh.subrange(
            0,
            frame_size as int,
        ) && left == fresh.subrange(frame_size as int, fresh.len() as int),
    }
}

/// The number of samples that calibration reads out of `available`.
pub open spec fn calibration_count(available: nat) -> nat {
    if available < CALIBRATION_FRAME_SIZE {
        available
    } else {
        CALIBRATION_FRAME_SIZE as nat
    }
}

pub fn calibration_len(available: usize) -> (n: usize)
    ensures
        n == calibration_count(available as nat),
{
    if available < CALIBRATION_FRAME_SIZE {
        available
    } else {
        CALIBRATION_FRAME_SIZE
    }
}

/// The detector's state and the flush decision after a classified frame,
/// given the segment length: a flush signal is taken only when the segment
/// holds more than `FRAME_COUNT` frames, and kept accumulating otherwise.
pub open spec fn classify_next(vad: VadState, segment_len: nat, frame_size: nat, silent: bool) -> (
    VadState,
    bool,
) {
    let (next, flag) = if silent {
        silence_next(vad)
    } else {
        speech_next(vad)
    };
    if flag && segment_len > frame_size * FRAME_COUNT {
        (VadState::Silence(1), true)
    } else if flag {
        (VadState::MaybeSilence(1), false)
    } else {
        (next, false)
    }
}

/// State owned by the consumer task: the pending segment and the detector.
pub struct SegmentLoop {
    segment: Vec<u32>,
    vad: VadState,
    frame_size: usize,
}

impl SegmentLoop {
    /// Samples accumulated since the last flush, in capture order.
    pub closed spec fn segment_view(&self) -> Seq<u32> {
        self.segment@
    }

    pub closed spec fn vad_view(&self) -> VadState {
        self.vad
    }

    pub closed spec fn frame_size_view(&self) -> nat {
        self.frame_size as nat
    }

    /// Between steps the detector never waits for a flush decision.
    pub closed spec fn wf(&self) -> bool {
        &&& self.vad.accepts_frames()
        &&& self.frame_size * FRAME_COUNT <= usize::MAX
    }

    /// A loop with an empty segment, in silence, reading frames of
    /// `frame_size` samples.
    pub fn new(frame_size: usize) -> (r: SegmentLoop)
        requires
            frame_size * FRAME_COUNT <= usize::MAX,
        ensures
            r.wf(),
            r.segment_view() == Seq::<u32>::empty(),
            r.vad_view() == VadState::Silence(0),
            r.frame_size_view() == frame_size,
    {
        SegmentLoop { segment: Vec::with_capacity(MIN_BUFSIZE), vad: VadState::Silence(0), frame_size }
    }

    pub fn segment(&self) -> (r: &Vec<u32>)
        ensures
            r@ == self.segment_view(),
    {
        &self.segment
    }

    pub fn vad(&self) -> (r: VadState)
        ensures
            r == self.vad_view(),
    {
        self.vad
    }

    pub fn frame_size(&self) -> (r: usize)
        ensures
            r == self.frame_size_view(),
    {
        self.frame_size
    }

    /// One iteration of the consumer loop: refreshes the count of available
    /// samples and carries out `plan_step` for it. `fresh` is what the
    /// consumer then found readable, an extension of what it knew before.
    pub fn step(&mut self, consumer: &mut Consumer<u32>, flush_requested: bool) -> (r: Step)
        requires
            old(self).wf(),
        ensures
            final(self).wf(),
            final(self).vad_view() == old(self).vad_view(),
            final(self).frame_size_view() == old(self).frame_size_view(),
            exists|fresh: Seq<u32>|
                extends(fresh, readable(*old(consumer))) && #[trigger] step_outcome(
                    flush_requested,
                    fresh,
                    old(self).segment_view(),
                    old(self).frame_size_view(),
                    r,
                    final(self).segment_view(),
                    readable(*final(consumer)),
                ),
            flush_requested <==> r is Flushed,
            !flush_requested && old(self).segment_view().len() + old(self).frame_size_view()
                > usize::MAX ==> r is Wait,
            !flush_requested && old(self).frame_size_view() <= readable(*old(consumer)).len()
                && old(self).segment_view().len() + old(self).frame_size_view() <= usize::MAX
                ==> r is Frame,
    {
        let slots = available(consumer);
        let ghost fresh = readable(*consumer);
        let r = match plan_step(flush_requested, slots, self.segment.len(), self.frame_size) {
            Plan::Drain(n) => {
                let read = read_rb(&mut self.segment, consumer, n);
                assert(read is Ok);
                Step::Flushed { submit: self.segment.len() > 0 }
            },
            Plan::Wait => Step::Wait,
            Plan::ReadFrame => {
                let read = read_rb(&mut self.segment, consumer, self.frame_size);
                assert(read is Ok);
                Step::Frame
            },
        };
        assert(step_outcome(
            flush_requested,
            fresh,
            old(self).segment_view(),
            old(self).frame_size_view(),
            r,
            self.segment_view(),
            readable(*consumer),
        ));
        r
    }

    /// Reports the class of the frame that the last step read and drives the
    /// detector. Returns true when the segment is to be transcribed now (then
    /// `finish_submit` clears it); a flush signal on a segment of at most
    /// `FRAME_COUNT` frames keeps it accumulating instead.
    pub fn classify(&mut self, silent: bool) -> (submit: bool)
        requires
            old(self).wf(),
        ensures
            final(self).wf(),
            (final(self).vad_view(), submit) == classify_next(
                old(self).vad_view(),
                old(self).segment_view().len(),
                old(self).frame_size_view(),
                silent,
            ),
            final(self).segment_view() == old(self).segment_view(),
            final(self).frame_size_view() == old(self).frame_size_view(),
    {
        let flush = if silent {
            self.vad.silence()
        } else {
            self.vad.speech()
        };
        if flush && self.segment.len() > self.frame_size * FRAME_COUNT {
            self.vad.flush();
            true
        } else if flush {
            self.vad.no_flush();
            false
        } else {
            false
        }
    }

    /// Empties the segment once it has been handed to transcription; the
    /// buffer keeps its allocation.
    pub fn finish_submit(&mut self)
        requires
            old(self).wf(),
        ensures
            final(self).wf(),
            final(self).segment_view() == Seq::<u32>::empty(),
            final(self).vad_view() == old(self).vad_view(),
            final(self).frame_size_view() == old(self).frame_size_view(),
    {
        self.segment.clear();
    }
}

/// Reads the ambient-noise capture for calibration: every sample that is
/// available, in capture order, but no more than `CALIBRATION_FRAME_SIZE`.
/// `fresh` is what the consumer found readable, an extension of what it knew.
pub fn calibration_samples(consumer: &mut Consumer<u32>) -> (v: Vec<u32>)
    ensures
        exists|fresh: Seq<u32>|
            extends(fresh, readable(*old(consumer))) && #[trigger] fresh.subrange(
                0,
                calibration_count(fresh.len()) as int,
            ) == v@ && readable(*final(consumer)) == fresh.subrange(
                calibration_count(fresh.len()) as int,
                fresh.len() as int,
            ),
{
    let slots = available(consumer);
    let ghost fresh = readable(*consumer);
    let n = calibration_len(slots);
    let mut buffer: Vec<u32> = Vec::with_capacity(n);
    let read = read_rb(&mut buffer, consumer, n);
    assert(read is Ok);
    assert(buffer@ =~= fresh.subrange(0, n as int));
    buffer
}

} // verus!
