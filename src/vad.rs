//! Voice-activity detection: a run-length state machine over frames that were
//! classified as speech or silence.
use vstd::prelude::*;

verus! {

/// Consecutive silence frames after speech that confirm the end of an utterance.
pub const SILENCE_THRESHOLD: usize = 10;

/// Longest run of same-class frames before a segment is bounded.
pub const FLUSH_THRESHOLD: usize = 250;

/// Detector state; each counter is the length of the current run of frames.
#[derive(Debug, Clone, Copy, PartialEq, Eq, Structural)]
pub enum VadState {
    Silence(usize),
    Speech(usize),
    MaybeSilence(usize),
    MaybeFlush,
}

/// The state after a silence frame, and whether a flush should be considered.
pub open spec fn silence_next(s: VadState) -> (VadState, bool) {
    match s {
        VadState::Silence(n) => if n >= FLUSH_THRESHOLD {
            (VadState::Silence(1), false)
        } else {
            (VadState::Silence((n + 1) as usize), false)
        },
        VadState::Speech(_) => (VadState::MaybeSilence(1), false),
        VadState::MaybeSilence(n) => if n + 1 < SILENCE_THRESHOLD {
            (VadState::MaybeSilence((n + 1) as usize), false)
        } else {
            (VadState::MaybeFlush, true)
        },
        VadState::MaybeFlush => (VadState::MaybeFlush, false),
    }
}

/// The state after a speech frame, and whether a flush should be considered.
pub open spec fn speech_next(s: VadState) -> (VadState, bool) {
    match s {
        VadState::Silence(_) => (VadState::Speech(1), false),
        VadState::Speech(n) => if n >= FLUSH_THRESHOLD {
            (VadState::MaybeFlush, true)
        } else {
            (VadState::Speech((n + 1) as usize), false)
        },
        VadState::MaybeSilence(_) => (VadState::Speech(1), false),
        VadState::MaybeFlush => (VadState::MaybeFlush, false),
    }
}

/// The state after `k` silence frames; a `MaybeFlush` stays put.
pub open spec fn silence_run(s: VadState, k: nat) -> VadState
    decreases k,
{
    if k == 0 {
        s
    } else {
        silence_next(silence_run(s, (k - 1) as nat)).0
    }
}

/// The state after `k` speech frames; a `MaybeFlush` stays put.
pub open spec fn speech_run(s: VadState, k: nat) -> VadState
    decreases k,
{
    if k == 0 {
        s
    } else {
        speech_next(speech_run(s, (k - 1) as nat)).0
    }
}

proof fn lemma_pause_run(n: usize, k: nat)
    requires
        1 <= k < SILENCE_THRESHOLD,
    ensures
        silence_run(VadState::Speech(n), k) == VadState::MaybeSilence(k as usize),
    decreases k,
{
    reveal_with_fuel(silence_run, 2);
    if k > 1 {
        lemma_pause_run(n, (k - 1) as nat);
    }
}

/// A pause after speech: the first silence frame makes the state tentative
/// (`MaybeSilence`), each further one extends that run without a flush signal,
/// and the silence frame that completes `SILENCE_THRESHOLD` of them reaches
/// `MaybeFlush` and signals it.
pub proof fn lemma_pause_after_speech_flushes(n: usize)
    ensures
        forall|k: nat|
            1 <= k < SILENCE_THRESHOLD ==> #[trigger] silence_run(VadState::Speech(n), k)
                == VadState::MaybeSilence(k as usize) && !silence_next(
                silence_run(VadState::Speech(n), (k - 1) as nat),
            ).1,
        silence_next(silence_run(VadState::Speech(n), (SILENCE_THRESHOLD - 1) as nat)).1,
        silence_run(VadState::Speech(n), SILENCE_THRESHOLD as nat) == VadState::MaybeFlush,
{
    assert forall|k: nat| 1 <= k < SILENCE_THRESHOLD implies #[trigger] silence_run(
        VadState::Speech(n),
        k,
    ) == VadState::MaybeSilence(k as usize) && !silence_next(
        silence_run(VadState::Speech(n), (k - 1) as nat),
    ).1 by {
        lemma_pause_run(n, k);
        if k > 1 {
            lemma_pause_run(n, (k - 1) as nat);
        }
    }
    lemma_pause_run(n, (SILENCE_THRESHOLD - 1) as nat);
}

proof fn lemma_speech_run_from(n: usize, k: nat)
    requires
        n <= FLUSH_THRESHOLD,
    ensures
        speech_run(VadState::Speech(n), k) == if n + k <= FLUSH_THRESHOLD {
            VadState::Speech((n + k) as usize)
        } else {
            VadState::MaybeFlush
        },
    decreases k,
{
    if k > 0 {
        lemma_speech_run_from(n, (k - 1) as nat);
    }
}

proof fn lemma_speech_run_shift(s: VadState, k: nat)
    requires
        k >= 1,
    ensures
        speech_run(s, k) == speech_run(speech_next(s).0, (k - 1) as nat),
    decreases k,
{
    reveal_with_fuel(speech_run, 2);
    if k > 1 {
        lemma_speech_run_shift(s, (k - 1) as nat);
    }
}

/// Continuous speech is bounded: from any state that accepts frames, a run of
/// `FLUSH_THRESHOLD + 1` speech frames with no silence in between reaches
/// `MaybeFlush`. Starting outside speech, the run counts up through
/// `Speech(1)` .. `Speech(FLUSH_THRESHOLD)` and the next speech frame signals
/// the flush.
pub proof fn lemma_long_speech_forces_flush(s: VadState)
    requires
        s.accepts_frames(),
    ensures
        speech_run(s, (FLUSH_THRESHOLD + 1) as nat) == VadState::MaybeFlush,
        !(s is Speech) ==> forall|k: nat|
            1 <= k <= FLUSH_THRESHOLD ==> #[trigger] speech_run(s, k) == VadState::Speech(
                k as usize,
            ),
        !(s is Speech) ==> speech_next(speech_run(s, FLUSH_THRESHOLD as nat)).1,
{
    lemma_speech_run_shift(s, (FLUSH_THRESHOLD + 1) as nat);
    match s {
        VadState::Speech(n) => {
            if n <= FLUSH_THRESHOLD {
                lemma_speech_run_from(n, (FLUSH_THRESHOLD + 1) as nat);
            } else {
                lemma_speech_run_from(FLUSH_THRESHOLD, 0);
                lemma_maybe_flush_stays(FLUSH_THRESHOLD as nat);
            }
        },
        _ => {
            lemma_speech_run_from(1, FLUSH_THRESHOLD as nat);
            assert forall|k: nat| 1 <= k <= FLUSH_THRESHOLD implies #[trigger] speech_run(s, k)
                == VadState::Speech(k as usize) by {
                lemma_speech_run_shift(s, k);
                lemma_speech_run_from(1, (k - 1) as nat);
            }
            lemma_speech_run_from(1, (FLUSH_THRESHOLD - 1) as nat);
        },
    }
}

proof fn lemma_maybe_flush_stays(k: nat)
    ensures
        speech_run(VadState::MaybeFlush, k) == VadState::MaybeFlush,
    decreases k,
{
    if k > 0 {
        lemma_maybe_flush_stays((k - 1) as nat);
    }
}

impl VadState {
    /// A state that accepts frame classifications (every state but `MaybeFlush`).
    pub open spec fn accepts_frames(self) -> bool {
        !(self is MaybeFlush)
    }

    /// Whether the state awaits a flush decision.
    pub fn is_maybe_flush(&self) -> (r: bool)
        ensures
            r == (*self is MaybeFlush),
    {
        matches!(*self, VadState::MaybeFlush)
    }

    /// Records a silence frame; returns true when the state became `MaybeFlush`.
    pub fn silence(&mut self) -> (flush: bool)
        requires
            old(self).accepts_frames(),
        ensures
            (*final(self), flush) == silence_next(*old(self)),
            flush == (*final(self) is MaybeFlush),
    {
        match *self {
            VadState::Silence(count) => {
                if count >= FLUSH_THRESHOLD {
                    // too much silence: restart the run so that it stays bounded
                    *self = VadState::Silence(1);
                } else {
                    *self = VadState::Silence(count + 1);
                }
                false
            },
            VadState::Speech(_) => {
                *self = VadState::MaybeSilence(1);
                false
            },
            VadState::MaybeSilence(count) => {
                if count < SILENCE_THRESHOLD - 1 {
                    *self = VadState::MaybeSilence(count + 1);
                    false
                } else {
                    *self = VadState::MaybeFlush;
                    true
                }
            },
            VadState::MaybeFlush => false,
        }
    }

    /// Records a speech frame; returns true when the state became `MaybeFlush`.
    pub fn speech(&mut self) -> (flush: bool)
        requires
            old(self).accepts_frames(),
        ensures
            (*final(self), flush) == speech_next(*old(self)),
            flush == (*final(self) is MaybeFlush),
    {
        match *self {
            VadState::Silence(_) => {
                *self = VadState::Speech(1);
                false
            },
            VadState::Speech(count) => {
                if count >= FLUSH_THRESHOLD {
                    // the utterance is long enough to be flushed without a pause
                    *self = VadState::MaybeFlush;
                    true
                } else {
                    *self = VadState::Speech(count + 1);
                    false
                }
            },
            VadState::MaybeSilence(_) => {
                *self = VadState::Speech(1);
                false
            },
            VadState::MaybeFlush => false,
        }
    }

    /// Resolves a `MaybeFlush`: the segment was emitted.
    pub fn flush(&mut self)
        requires
            *old(self) is MaybeFlush,
        ensures
            *final(self) == VadState::Silence(1),
    {
        *self = VadState::Silence(1);
    }

    /// Resolves a `MaybeFlush`: the segment is kept and accumulation goes on.
    pub fn no_flush(&mut self)
        requires
            *old(self) is MaybeFlush,
        ensures
            *final(self) == VadState::MaybeSilence(1),
    {
        *self = VadState::MaybeSilence(1);
    }
}

} // verus!
