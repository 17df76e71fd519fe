//! The capture-thread command protocol: one service owns the (single,
//! non-shareable) microphone session and is driven over an ordered command
//! queue. Starting opens a session at the stream's negotiated rate and
//! channel count and clears stale state; incoming callback frames are
//! downmixed and appended under the buffer cap; a snapshot copies the
//! buffer without touching capture; stopping hands the whole buffer back
//! and clears the session. A stop or snapshot against no session yields an
//! empty buffer at the default rate rather than an error, so callers never
//! block on a missing session.
//!
//! The host thread owns the device handle and the queue; this module holds
//! every decision about the session's state and contents.

use vstd::prelude::*;

use crate::buffer::{
    append_spec, downmix_spec, frame_mix, sample_sum, MAX_BUFFER_SAMPLES, SampleBuffer,
};

verus! {

/// Rate reported when no session exists, and the rate the recognition
/// engine expects.
pub const DEFAULT_SAMPLE_RATE: u32 = 16000;

/// A command for the capture thread, delivered over its ordered queue.
#[derive(Debug)]
pub enum Command {
    /// Open a session on the named device, or the system default.
    Start { device_id: Option<String> },
    /// Close the session and hand the full buffer back.
    Stop,
    /// Copy the buffer without interrupting capture.
    GetSnapshot,
}

/// A message from the capture thread, on the result channel.
#[derive(Debug)]
pub enum CaptureResult {
    /// The full recording, on stop.
    AudioComplete { samples: Vec<i32>, rate: u32 },
    /// A copy of the in-progress buffer.
    AudioSnapshot { samples: Vec<i32>, rate: u32 },
}

/// The capture service: at most one live session, exclusively owned.
pub struct CaptureService {
    session: Option<CaptureSession>,
}

/// One live session: the negotiated stream format and the samples
/// captured so far.
struct CaptureSession {
    buffer: SampleBuffer,
    rate: u32,
    channels: u16,
}

/// What starting a session leaves behind: an empty buffer at the
/// negotiated format.
pub open spec fn start_model(rate: u32, channels: u16) -> Option<(Seq<i32>, u32, u16)> {
    Some((Seq::<i32>::empty(), rate, channels))
}

/// What a callback's frames leave behind: the downmixed samples appended
/// under the cap; with no session the frames are discarded.
pub open spec fn feed_model(
    s: Option<(Seq<i32>, u32, u16)>,
    data: Seq<i32>,
) -> Option<(Seq<i32>, u32, u16)> {
    match s {
        None => None,
        Some((buf, rate, ch)) => Some((append_spec(buf, downmix_spec(data, ch as int)), rate, ch)),
    }
}

/// What a stop or snapshot hands out: the buffer at the session's rate, or
/// an empty buffer at the default rate when no session exists.
pub open spec fn output_model(s: Option<(Seq<i32>, u32, u16)>) -> (Seq<i32>, u32) {
    match s {
        None => (Seq::<i32>::empty(), DEFAULT_SAMPLE_RATE),
        Some((buf, rate, ch)) => (buf, rate),
    }
}

impl View for CaptureService {
    type V = Option<(Seq<i32>, u32, u16)>;

    closed spec fn view(&self) -> Option<(Seq<i32>, u32, u16)> {
        match self.session {
            Option::None => None,
            Option::Some(ref s) => Some((s.buffer@, s.rate, s.channels)),
        }
    }
}

impl CaptureService {
    /// The buffer never exceeds its cap and a session never has zero
    /// channels.
    pub open spec fn wf(&self) -> bool {
        match self@ {
            None => true,
            Some((buf, rate, ch)) => buf.len() <= MAX_BUFFER_SAMPLES && ch >= 1,
        }
    }

    /// A fresh service with no session.
    pub fn new() -> (s: CaptureService)
        ensures
            s@ is None,
            s.wf(),
    {
        CaptureService { session: None }
    }

    /// Is a session live?
    pub fn is_recording(&self) -> (r: bool)
        ensures
            r == (self@ is Some),
    {
        self.session.is_some()
    }

    /// A stream was opened at the given format: any stale session is
    /// dropped and a fresh, empty one begins.
    pub fn on_stream_opened(&mut self, rate: u32, channels: u16)
        requires
            channels >= 1,
        ensures
            final(self)@ == start_model(rate, channels),
            final(self).wf(),
    {
        self.session = Some(CaptureSession { buffer: SampleBuffer::new(), rate, channels });
    }

    /// Opening the device or stream failed: no session remains, so later
    /// commands degrade to empty results instead of blocking.
    pub fn on_start_failed(&mut self)
        ensures
            final(self)@ is None,
            final(self).wf(),
    {
        self.session = None;
    }

    /// A callback delivered interleaved frames: downmix and append them,
    /// silently dropping what exceeds the cap. Frames arriving with no
    /// session are discarded.
    pub fn on_frames(&mut self, data: &[i32])
        requires
            old(self).wf(),
        ensures
            final(self)@ == feed_model(old(self)@, data@),
            final(self).wf(),
    {
        match self.session {
            Option::None => {},
            Option::Some(ref mut s) => {
                s.buffer.append_frames(data, s.channels);
            },
        }
    }

    /// Service a stop: hand back the whole buffer at the session's rate
    /// and clear the session; with no session, an empty buffer at the
    /// default rate.
    pub fn handle_stop(&mut self) -> (r: (Vec<i32>, u32))
        ensures
            final(self)@ is None,
            final(self).wf(),
            r.0@ == output_model(old(self)@).0,
            r.1 == output_model(old(self)@).1,
    {
        match self.session.take() {
            Option::None => (Vec::new(), DEFAULT_SAMPLE_RATE),
            Option::Some(mut s) => {
                let samples = s.buffer.take_all();
                (samples, s.rate)
            },
        }
    }

    /// Service a snapshot: a copy of the buffer at the session's rate,
    /// capture untouched; with no session, an empty buffer at the default
    /// rate.
    pub fn handle_snapshot(&self) -> (r: (Vec<i32>, u32))
        ensures
            r.0@ == output_model(self@).0,
            r.1 == output_model(self@).1,
    {
        match self.session {
            Option::None => (Vec::new(), DEFAULT_SAMPLE_RATE),
            Option::Some(ref s) => (s.buffer.snapshot(), s.rate),
        }
    }
}

/// A mono stream passes through the downmix unchanged.
proof fn lemma_downmix_mono_identity(data: Seq<i32>)
    ensures
        downmix_spec(data, 1) == data,
    decreases data.len(),
{
    if data.len() == 0 {
        assert(downmix_spec(data, 1) =~= data);
    } else if data.len() == 1 {
        assert(sample_sum(data.drop_first()) == 0);
        assert(sample_sum(data) == data[0]);
        assert(frame_mix(data, 1) == data[0]);
        assert(downmix_spec(data, 1) =~= data);
    } else {
        let head = data.take(1);
        assert(head.drop_first() =~= Seq::<i32>::empty());
        assert(sample_sum(head.drop_first()) == 0);
        assert(head[0] == data[0]);
        assert(sample_sum(head) == data[0]);
        assert(frame_mix(head, 1) == data[0]);
        lemma_downmix_mono_identity(data.skip(1));
        assert(downmix_spec(data, 1) =~= data);
    }
}

/// Law: a session started at some rate, fed a run of mono samples and
/// then stopped hands back exactly those samples — truncated at the
/// buffer cap — at the rate fixed at start.
pub proof fn lemma_capture_round_trip(rate: u32, data: Seq<i32>)
    ensures
        output_model(feed_model(start_model(rate, 1), data)).1 == rate,
        data.len() <= MAX_BUFFER_SAMPLES
            ==> output_model(feed_model(start_model(rate, 1), data)).0 == data,
        data.len() > MAX_BUFFER_SAMPLES
            ==> output_model(feed_model(start_model(rate, 1), data)).0
                == data.take(MAX_BUFFER_SAMPLES as int),
{
    lemma_downmix_mono_identity(data);
    if data.len() <= MAX_BUFFER_SAMPLES {
        assert(append_spec(Seq::<i32>::empty(), data) =~= data);
    } else {
        assert(append_spec(Seq::<i32>::empty(), data)
            =~= data.take(MAX_BUFFER_SAMPLES as int));
    }
}

} // verus!
