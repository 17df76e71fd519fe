//! Streaming transcription decisions: when a tick transcribes, which tail
//! window it takes, how a new hypothesis is reconciled against the text
//! already typed, and what the finisher still has to deliver after the
//! final transcript arrives.
//!
//! The host loop does the sleeping, snapshotting and transcribing; every
//! choice it makes is taken here, on plain values.

use vstd::prelude::*;

use crate::text::{is_prefix, starts_with_chars, str_to_chars, chars_to_string, subrange_chars};

verus! {

/// Samples in one streaming chunk: two and a half seconds at the engine's
/// 16 kHz.
pub const STREAMING_CHUNK_SAMPLES: usize = 16000 * 5 / 2;

/// Shortest capture worth transcribing on push-to-talk release, in
/// milliseconds.
pub const MIN_DICTATION_MS: u32 = 300;

/// Shortest capture worth acting on for a voice action or a one-shot
/// recording, in milliseconds.
pub const MIN_COMMAND_MS: u32 = 500;

/// What one streaming tick does with a snapshot.
#[derive(Debug, Clone, Copy, PartialEq, Eq, Structural)]
pub enum TickAction {
    /// Not enough new audio: only report progress.
    Wait,
    /// Transcribe the tail window beginning at this sample.
    Transcribe { chunk_start: usize },
}

/// Decide what a streaming tick does: transcribe only when a full chunk of
/// new samples has arrived, and then only the last chunk-sized tail window
/// of the buffer, which bounds transcription latency.
pub fn streaming_tick(buffered: usize, last_processed: usize, chunk_samples: usize)
    -> (r: TickAction)
    ensures
        r == ({
            let fresh: int = if buffered >= last_processed {
                buffered - last_processed
            } else {
                0
            };
            if buffered >= chunk_samples && fresh >= chunk_samples {
                TickAction::Transcribe { chunk_start: (buffered - chunk_samples) as usize }
            } else {
                TickAction::Wait
            }
        }),
{
    let fresh = if buffered >= last_processed {
        buffered - last_processed
    } else {
        0
    };
    if buffered >= chunk_samples && fresh >= chunk_samples {
        TickAction::Transcribe { chunk_start: buffered - chunk_samples }
    } else {
        TickAction::Wait
    }
}

/// Verdict on a finished capture, before transcription.
#[derive(Debug, Clone, Copy, PartialEq, Eq, Structural)]
pub enum StopVerdict {
    /// Nothing was captured: abort the cycle quietly.
    Empty,
    /// Shorter than the floor: discard with a warning, do not transcribe.
    TooShort,
    /// Long enough to hand to the engine.
    Transcribe,
}

/// Classify a finished capture against a minimum duration:
/// `samples / rate < min_ms / 1000`, compared exactly in integers. The
/// sample count is bounded by the capture buffer's cap, which every
/// stopped capture satisfies.
pub fn stop_decision(samples: usize, rate: u32, min_duration_ms: u32) -> (v: StopVerdict)
    requires
        rate >= 1,
        samples <= crate::buffer::MAX_BUFFER_SAMPLES,
    ensures
        v == if samples == 0 {
            StopVerdict::Empty
        } else if samples * 1000 < rate * min_duration_ms {
            StopVerdict::TooShort
        } else {
            StopVerdict::Transcribe
        },
{
    if samples == 0 {
        StopVerdict::Empty
    } else {
        proof {
            assert((rate as int) * (min_duration_ms as int) < 0x10000000000000000)
                by (nonlinear_arith)
                requires
                    (rate as int) < 0x100000000,
                    (min_duration_ms as int) < 0x100000000,
            ;
        }
        if (samples as u64) * 1000 < (rate as u64) * (min_duration_ms as u64) {
            StopVerdict::TooShort
        } else {
            StopVerdict::Transcribe
        }
    }
}

/// The longest text already typed out during this session's streaming.
/// Reset empty at session start, cleared at session end, and compared
/// against each new hypothesis to compute the unsent delta.
pub struct StreamingTextState {
    emitted: String,
}

impl View for StreamingTextState {
    type V = Seq<char>;

    closed spec fn view(&self) -> Seq<char> {
        self.emitted@
    }
}

impl StreamingTextState {
    /// A fresh session: nothing typed yet.
    pub fn new() -> (s: StreamingTextState)
        ensures
            s@ == Seq::<char>::empty(),
    {
        StreamingTextState { emitted: String::new() }
    }

    /// Forget everything typed: used at session start and session end.
    pub fn reset(&mut self)
        ensures
            final(self)@ == Seq::<char>::empty(),
    {
        self.emitted = String::new();
    }

    /// A copy of the longest text typed so far, for the finisher's
    /// reconciliation.
    pub fn current(&self) -> (r: String)
        ensures
            r@ == self@,
    {
        self.emitted.clone()
    }

    /// Reconcile a new hypothesis against what is already typed. When the
    /// new text extends the old, only the unsent suffix is returned for
    /// incremental typing; when the engine revised its hypothesis, the new
    /// text becomes authoritative and nothing is typed. Either way the
    /// state now holds the new text.
    pub fn reconcile(&mut self, current: &str) -> (delta: Option<String>)
        ensures
            final(self)@ == current@,
            match delta {
                Some(d) => is_prefix(old(self)@, current@)
                    && d@ == current@.skip(old(self)@.len() as int),
                None => !is_prefix(old(self)@, current@),
            },
    {
        let cur = str_to_chars(current);
        let prev = str_to_chars(self.emitted.as_str());
        if starts_with_chars(cur.as_slice(), prev.as_slice()) {
            let suffix = subrange_chars(cur.as_slice(), prev.len(), cur.len());
            proof {
                assert(cur@.subrange(prev@.len() as int, cur@.len() as int)
                    =~= cur@.skip(prev@.len() as int));
            }
            self.emitted = chars_to_string(cur.as_slice());
            Some(chars_to_string(suffix.as_slice()))
        } else {
            self.emitted = chars_to_string(cur.as_slice());
            None
        }
    }
}

/// What the finisher still delivers once the final transcript is in.
#[derive(Debug, Clone, PartialEq)]
pub enum FinalDelivery {
    /// Streaming typed nothing: paste the whole final text at once.
    PasteAll,
    /// Streaming typed a proper prefix: type only this remaining suffix.
    TypeDelta(String),
    /// Everything was already typed, or the final transcript does not
    /// extend what was typed: deliver nothing more.
    Nothing,
}

/// Mathematical image of a [`FinalDelivery`].
pub enum FinalDeliveryV {
    PasteAll,
    TypeDelta(Seq<char>),
    Nothing,
}

impl View for FinalDelivery {
    type V = FinalDeliveryV;

    open spec fn view(&self) -> FinalDeliveryV {
        match self {
            FinalDelivery::PasteAll => FinalDeliveryV::PasteAll,
            FinalDelivery::TypeDelta(d) => FinalDeliveryV::TypeDelta(d@),
            FinalDelivery::Nothing => FinalDeliveryV::Nothing,
        }
    }
}

/// What the finisher delivers, given the streamed prefix and the final
/// transcript.
pub open spec fn finisher_delta_spec(streamed: Seq<char>, full: Seq<char>) -> FinalDeliveryV {
    if streamed.len() == 0 {
        FinalDeliveryV::PasteAll
    } else if is_prefix(streamed, full) && full.len() > streamed.len() {
        FinalDeliveryV::TypeDelta(full.skip(streamed.len() as int))
    } else {
        FinalDeliveryV::Nothing
    }
}

/// Decide what remains to be delivered after the final transcription:
/// everything when streaming typed nothing, exactly the unsent suffix when
/// the final transcript extends the streamed prefix, and nothing
/// otherwise.
pub fn finisher_delta(streamed: &str, full: &str) -> (r: FinalDelivery)
    ensures
        r@ == finisher_delta_spec(streamed@, full@),
{
    let st = str_to_chars(streamed);
    let fu = str_to_chars(full);
    if st.len() == 0 {
        FinalDelivery::PasteAll
    } else if starts_with_chars(fu.as_slice(), st.as_slice()) && fu.len() > st.len() {
        let suffix = subrange_chars(fu.as_slice(), st.len(), fu.len());
        proof {
            assert(fu@.subrange(st@.len() as int, fu@.len() as int)
                =~= fu@.skip(st@.len() as int));
        }
        FinalDelivery::TypeDelta(chars_to_string(suffix.as_slice()))
    } else {
        FinalDelivery::Nothing
    }
}

/// Law: when streaming already typed a non-empty prefix and the final
/// transcript is that prefix followed by a non-empty suffix, the finisher
/// delivers exactly the suffix.
pub proof fn lemma_streaming_reconciliation(prefix: Seq<char>, suffix: Seq<char>)
    requires
        prefix.len() > 0,
        suffix.len() > 0,
    ensures
        finisher_delta_spec(prefix, prefix + suffix) == FinalDeliveryV::TypeDelta(suffix),
{
    assert((prefix + suffix).subrange(0, prefix.len() as int) =~= prefix);
    assert((prefix + suffix).skip(prefix.len() as int) =~= suffix);
}

} // verus!
