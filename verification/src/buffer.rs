//! Append-only capture buffer with a hard cap, and mono downmix of
//! interleaved multi-channel frames.
//!
//! Samples are stored as signed 32-bit integers. A frame of `channels`
//! interleaved samples is reduced to one mono sample, the arithmetic mean of
//! the frame (rounded toward negative infinity). Once the buffer holds
//! `MAX_BUFFER_SAMPLES` samples, further appends are dropped silently:
//! capture goes on, memory stays bounded.

use vstd::prelude::*;
use vstd::arithmetic::div_mod::{
    lemma_div_by_multiple, lemma_div_is_ordered, lemma_hoist_over_denominator,
};
use vstd::arithmetic::mul::lemma_mul_inequality;

verus! {

/// Hard cap on the capture buffer: ten minutes of mono audio at 48 kHz.
pub const MAX_BUFFER_SAMPLES: usize = 48000 * 60 * 10;

/// Bias that shifts the `i32` sample range onto `[0, 2^32)`, so that frame
/// sums can be accumulated in an unsigned word.
pub const SAMPLE_BIAS: u64 = 0x8000_0000;

/// Sum of a sequence of samples, as an unbounded integer.
pub open spec fn sample_sum(frame: Seq<i32>) -> int
    decreases frame.len(),
{
    if frame.len() == 0 {
        0
    } else {
        frame[0] + sample_sum(frame.drop_first())
    }
}

/// Mono value of one interleaved frame: the mean of its samples over the
/// channel count, rounded toward negative infinity. A trailing frame shorter
/// than `channels` is still divided by `channels`, so a truncated tail
/// contributes a proportionally quieter sample rather than a louder one.
pub open spec fn frame_mix(frame: Seq<i32>, channels: int) -> int {
    (sample_sum(frame) + channels * (SAMPLE_BIAS as int)) / channels - SAMPLE_BIAS as int
}

/// Downmix of an interleaved stream: one mono sample per `channels`-sized
/// chunk, in order, the last chunk possibly shorter.
pub open spec fn downmix_spec(data: Seq<i32>, channels: int) -> Seq<i32>
    decreases data.len(),
{
    if channels <= 0 || data.len() == 0 {
        Seq::empty()
    } else if data.len() <= channels {
        seq![frame_mix(data, channels) as i32]
    } else {
        seq![frame_mix(data.take(channels), channels) as i32]
            + downmix_spec(data.skip(channels), channels)
    }
}

/// What an append leaves in a capped buffer: the old content, extended by as
/// much of `data` as still fits under `MAX_BUFFER_SAMPLES`.
pub open spec fn append_spec(buf: Seq<i32>, data: Seq<i32>) -> Seq<i32> {
    if buf.len() >= MAX_BUFFER_SAMPLES {
        buf
    } else if buf.len() + data.len() <= MAX_BUFFER_SAMPLES {
        buf + data
    } else {
        buf + data.take(MAX_BUFFER_SAMPLES - buf.len())
    }
}

proof fn lemma_sample_sum_push(s: Seq<i32>, x: i32)
    ensures
        sample_sum(s.push(x)) == sample_sum(s) + x,
    decreases s.len(),
{
    if s.len() == 0 {
        assert(s.push(x).drop_first() =~= Seq::<i32>::empty());
        assert(s.push(x)[0] == x);
        assert(sample_sum(Seq::<i32>::empty()) == 0);
        assert(sample_sum(s.push(x)) == x + sample_sum(Seq::<i32>::empty()));
    } else {
        assert(s.push(x).drop_first() =~= s.drop_first().push(x));
        assert(s.push(x)[0] == s[0]);
        lemma_sample_sum_push(s.drop_first(), x);
    }
}

proof fn lemma_sample_sum_bounds(s: Seq<i32>)
    ensures
        (s.len() as int) * (-0x8000_0000) <= sample_sum(s)
            <= (s.len() as int) * 0x7FFF_FFFF,
    decreases s.len(),
{
    if s.len() == 0 {
    } else {
        lemma_sample_sum_bounds(s.drop_first());
        let n = s.len() as int;
        assert(n * (-0x8000_0000) == (n - 1) * (-0x8000_0000) + (-0x8000_0000))
            by (nonlinear_arith);
        assert(n * 0x7FFF_FFFF == (n - 1) * 0x7FFF_FFFF + 0x7FFF_FFFF)
            by (nonlinear_arith);
    }
}

/// The mono value of a frame always fits an `i32`.
proof fn lemma_frame_mix_in_range(frame: Seq<i32>, channels: int)
    requires
        0 < channels,
        frame.len() <= channels,
    ensures
        -0x8000_0000 <= frame_mix(frame, channels) <= 0x7FFF_FFFF,
{
    let bias = SAMPLE_BIAS as int;
    let s = sample_sum(frame);
    lemma_sample_sum_bounds(frame);
    assert((frame.len() as int) * 0x7FFF_FFFF <= channels * 0x7FFF_FFFF) by {
        lemma_mul_inequality(frame.len() as int, channels, 0x7FFF_FFFF);
    }
    assert((frame.len() as int) * (-0x8000_0000) >= channels * (-0x8000_0000)) by {
        lemma_mul_inequality(frame.len() as int, channels, 0x8000_0000);
        assert((frame.len() as int) * (-0x8000_0000) == -((frame.len() as int) * 0x8000_0000))
            by (nonlinear_arith);
        assert(channels * (-0x8000_0000) == -(channels * 0x8000_0000))
            by (nonlinear_arith);
    }
    assert(channels * (-0x8000_0000) + channels * 0x8000_0000 == 0) by (nonlinear_arith);
    assert(channels * 0x7FFF_FFFF + channels * 0x8000_0000 == channels * 0xFFFF_FFFF)
        by (nonlinear_arith);
    assert(0 <= s + channels * bias <= channels * 0xFFFF_FFFF);
    lemma_div_is_ordered(0, s + channels * bias, channels);
    lemma_div_is_ordered(s + channels * bias, channels * 0xFFFF_FFFF, channels);
    assert((channels * 0xFFFF_FFFF) / channels == 0xFFFF_FFFF) by {
        lemma_div_by_multiple(0xFFFF_FFFF, channels);
    }
}

/// Splitting an interleaved stream after a whole number of frames splits its
/// downmix at the same point.
proof fn lemma_downmix_concat(s: Seq<i32>, t: Seq<i32>, channels: int)
    requires
        0 < channels,
        (s.len() as int) % channels == 0,
    ensures
        downmix_spec(s + t, channels) == downmix_spec(s, channels) + downmix_spec(t, channels),
    decreases s.len(),
{
    if s.len() == 0 {
        assert(s + t =~= t);
        assert(downmix_spec(s, channels) + downmix_spec(t, channels)
            =~= downmix_spec(t, channels));
    } else {
        assert(s.len() >= channels) by {
            if s.len() < channels {
                vstd::arithmetic::div_mod::lemma_small_mod(s.len(), channels as nat);
            }
        }
        if t.len() == 0 {
            assert(s + t =~= s);
            assert(downmix_spec(s, channels) + downmix_spec(t, channels)
                =~= downmix_spec(s, channels));
        } else if s.len() == channels {
            assert((s + t).len() > channels);
            assert((s + t).take(channels) =~= s);
            assert((s + t).skip(channels) =~= t);
            assert(downmix_spec(s, channels) == seq![frame_mix(s, channels) as i32]);
            assert(downmix_spec(s + t, channels)
                =~= downmix_spec(s, channels) + downmix_spec(t, channels));
        } else {
            assert((s + t).take(channels) =~= s.take(channels));
            assert((s + t).skip(channels) =~= s.skip(channels) + t);
            assert((s.len() - channels) % channels == 0) by {
                vstd::arithmetic::div_mod::lemma_mod_multiples_vanish(
                    1, s.len() - channels, channels);
            }
            lemma_downmix_concat(s.skip(channels), t, channels);
            assert(seq![frame_mix(s.take(channels), channels) as i32]
                + (downmix_spec(s.skip(channels), channels) + downmix_spec(t, channels))
                =~= (seq![frame_mix(s.take(channels), channels) as i32]
                    + downmix_spec(s.skip(channels), channels)) + downmix_spec(t, channels));
        }
    }
}

/// Mono value of the frame of `data` that starts at `start`: up to `channels`
/// samples, fewer at the very end of the stream.
fn mix_frame(data: &[i32], start: usize, channels: u16) -> (r: i32)
    requires
        channels >= 1,
        start < data@.len(),
    ensures
        r == frame_mix(
            data@.subrange(
                start as int,
                if start + channels <= data@.len() {
                    start + channels
                } else {
                    data@.len() as int
                },
            ),
            channels as int,
        ) as i32,
{
    let len = data.len();
    let end: usize = if len - start >= channels as usize {
        start + channels as usize
    } else {
        len
    };
    let ghost chunk = data@.subrange(start as int, end as int);
    let mut acc: u64 = 0;
    let mut j: usize = start;
    proof {
        assert(data@.subrange(start as int, start as int) =~= Seq::<i32>::empty());
    }
    while j < end
        invariant
            start <= j <= end,
            end <= data@.len(),
            end - start <= channels,
            channels >= 1,
            chunk == data@.subrange(start as int, end as int),
            acc == sample_sum(data@.subrange(start as int, j as int))
                + (j - start) * (SAMPLE_BIAS as int),
            acc <= (j - start) * 0xFFFF_FFFF,
        decreases end - j,
    {
        let s = data[j];
        let b: u64 = ((s as i64) + 0x8000_0000i64) as u64;
        proof {
            let k = j - start;
            assert(k * 0xFFFF_FFFF <= 0xFFFE * 0xFFFF_FFFF) by {
                lemma_mul_inequality(k, 0xFFFE, 0xFFFF_FFFF);
            }
            assert(data@.subrange(start as int, j + 1)
                =~= data@.subrange(start as int, j as int).push(data@[j as int]));
            lemma_sample_sum_push(data@.subrange(start as int, j as int), s);
            assert((k + 1) * (SAMPLE_BIAS as int) == k * (SAMPLE_BIAS as int)
                + SAMPLE_BIAS) by (nonlinear_arith);
            assert((k + 1) * 0xFFFF_FFFF == k * 0xFFFF_FFFF + 0xFFFF_FFFF)
                by (nonlinear_arith);
        }
        acc = acc + b;
        j = j + 1;
    }
    proof {
        let k = end - start;
        assert(acc <= k * 0xFFFF_FFFF);
        assert(k * 0xFFFF_FFFF <= 0xFFFF * 0xFFFF_FFFF) by {
            lemma_mul_inequality(k, 0xFFFF, 0xFFFF_FFFF);
        }
        assert((channels - k) * (SAMPLE_BIAS as int) <= 0xFFFF * (SAMPLE_BIAS as int)) by {
            lemma_mul_inequality(channels - k, 0xFFFF, SAMPLE_BIAS as int);
        }
        assert((channels - k) * (SAMPLE_BIAS as int) + k * (SAMPLE_BIAS as int)
            == channels * (SAMPLE_BIAS as int)) by (nonlinear_arith);
    }
    let pad: u64 = (channels as u64 - (end - start) as u64) * SAMPLE_BIAS;
    acc = acc + pad;
    let q: u64 = acc / (channels as u64);
    proof {
        lemma_frame_mix_in_range(chunk, channels as int);
        assert(acc == sample_sum(chunk) + (channels as int) * (SAMPLE_BIAS as int));
        assert(q == (sample_sum(chunk) + (channels as int) * (SAMPLE_BIAS as int))
            / (channels as int));
    }
    ((q as i64) - 0x8000_0000i64) as i32
}

/// Downmix a whole interleaved stream to mono, one sample per frame.
pub fn downmix(data: &[i32], channels: u16) -> (out: Vec<i32>)
    requires
        channels >= 1,
    ensures
        out@ == downmix_spec(data@, channels as int),
{
    let ghost ch = channels as int;
    let mut out: Vec<i32> = Vec::new();
    let mut i: usize = 0;
    while i < data.len()
        invariant
            channels >= 1,
            i <= data@.len(),
            i as int % ch == 0 || i == data@.len(),
            ch == channels as int,
            out@ == downmix_spec(data@.take(i as int), ch),
        decreases data@.len() - i,
    {
        let m = mix_frame(data, i, channels);
        let next: usize = if data.len() - i >= channels as usize {
            i + channels as usize
        } else {
            data.len()
        };
        proof {
            let chunk = data@.subrange(i as int, next as int);
            assert(data@.take(next as int) =~= data@.take(i as int) + chunk);
            lemma_downmix_concat(data@.take(i as int), chunk, ch);
            assert(downmix_spec(chunk, ch) =~= seq![frame_mix(chunk, ch) as i32]);
            assert(downmix_spec(data@.take(i as int), ch).push(m)
                =~= downmix_spec(data@.take(i as int), ch) + downmix_spec(chunk, ch));
            if next < data@.len() {
                assert(next == i + channels);
                vstd::arithmetic::div_mod::lemma_mod_multiples_vanish(1, i as int, ch);
            }
        }
        out.push(m);
        i = next;
    }
    proof {
        assert(data@.take(data@.len() as int) =~= data@);
    }
    out
}

/// An append-only buffer of mono samples, capped at `MAX_BUFFER_SAMPLES`.
pub struct SampleBuffer {
    samples: Vec<i32>,
}

impl View for SampleBuffer {
    type V = Seq<i32>;

    closed spec fn view(&self) -> Seq<i32> {
        self.samples@
    }
}

impl SampleBuffer {
    /// The buffer never holds more than the cap.
    pub open spec fn wf(&self) -> bool {
        self@.len() <= MAX_BUFFER_SAMPLES
    }

    pub fn new() -> (buf: SampleBuffer)
        ensures
            buf@ == Seq::<i32>::empty(),
            buf.wf(),
    {
        SampleBuffer { samples: Vec::new() }
    }

    pub fn len(&self) -> (n: usize)
        ensures
            n == self@.len(),
    {
        self.samples.len()
    }

    /// Append one mono sample; a full buffer drops it silently.
    pub fn push(&mut self, s: i32)
        requires
            old(self).wf(),
        ensures
            final(self).wf(),
            final(self)@ == append_spec(old(self)@, seq![s]),
    {
        if self.samples.len() < MAX_BUFFER_SAMPLES {
            self.samples.push(s);
            assert(final(self)@ =~= append_spec(old(self)@, seq![s]));
        } else {
            assert(final(self)@ =~= append_spec(old(self)@, seq![s]));
        }
    }

    /// Append a run of mono samples; whatever exceeds the cap is dropped,
    /// and what was already stored is never disturbed.
    pub fn append_mono(&mut self, data: &[i32])
        requires
            old(self).wf(),
        ensures
            final(self).wf(),
            final(self)@ == append_spec(old(self)@, data@),
    {
        let ghost orig = self@;
        let mut i: usize = 0;
        while i < data.len()
            invariant
                i <= data@.len(),
                orig.len() <= MAX_BUFFER_SAMPLES,
                self@ == append_spec(orig, data@.take(i as int)),
                self.wf(),
            decreases data@.len() - i,
        {
            let ghost before = self@;
            self.push(data[i]);
            proof {
                lemma_append_step(orig, data@, i as int);
                assert(data@.take(i as int).push(data@[i as int])
                    =~= data@.take(i + 1));
            }
            i = i + 1;
        }
        proof {
            assert(data@.take(data@.len() as int) =~= data@);
        }
    }

    /// Append a callback's worth of interleaved frames: downmix to mono,
    /// then store, dropping whatever exceeds the cap.
    pub fn append_frames(&mut self, data: &[i32], channels: u16)
        requires
            channels >= 1,
            old(self).wf(),
        ensures
            final(self).wf(),
            final(self)@ == append_spec(old(self)@, downmix_spec(data@, channels as int)),
    {
        let mixed = downmix(data, channels);
        self.append_mono(mixed.as_slice());
    }

    /// A copy of the stored samples, capture left untouched.
    pub fn snapshot(&self) -> (out: Vec<i32>)
        ensures
            out@ == self@,
    {
        let mut out: Vec<i32> = Vec::new();
        let mut i: usize = 0;
        while i < self.samples.len()
            invariant
                i <= self@.len(),
                out@ == self@.take(i as int),
            decreases self@.len() - i,
        {
            out.push(self.samples[i]);
            proof {
                assert(self@.take(i as int).push(self@[i as int])
                    =~= self@.take(i + 1));
            }
            i = i + 1;
        }
        proof {
            assert(self@.take(self@.len() as int) =~= self@);
        }
        out
    }

    /// Hand the whole content out and leave the buffer empty.
    pub fn take_all(&mut self) -> (out: Vec<i32>)
        ensures
            out@ == old(self)@,
            final(self)@ == Seq::<i32>::empty(),
            final(self).wf(),
    {
        let mut swapped: Vec<i32> = Vec::new();
        core::mem::swap(&mut self.samples, &mut swapped);
        swapped
    }

    /// Drop everything stored so far.
    pub fn clear(&mut self)
        ensures
            final(self)@ == Seq::<i32>::empty(),
            final(self).wf(),
    {
        self.samples.clear();
    }
}

/// Appending one more element to the pending data extends the saturated
/// append by exactly that element, or by nothing once the cap is reached.
proof fn lemma_append_step(buf: Seq<i32>, data: Seq<i32>, i: int)
    requires
        buf.len() <= MAX_BUFFER_SAMPLES,
        0 <= i < data.len(),
    ensures
        append_spec(buf, data.take(i + 1))
            == append_spec(append_spec(buf, data.take(i)), seq![data[i]]),
{
    let l = append_spec(buf, data.take(i + 1));
    let r = append_spec(append_spec(buf, data.take(i)), seq![data[i]]);
    assert(l =~= r);
}

/// Law: appends never truncate what a buffer under the cap already holds;
/// at the cap every further append is a no-op, and the length saturates at
/// `MAX_BUFFER_SAMPLES`.
pub proof fn lemma_append_never_truncates(buf: Seq<i32>, data: Seq<i32>)
    requires
        buf.len() <= MAX_BUFFER_SAMPLES,
    ensures
        append_spec(buf, data).take(buf.len() as int) == buf,
        buf.len() == MAX_BUFFER_SAMPLES ==> append_spec(buf, data) == buf,
        append_spec(buf, data).len()
            == if buf.len() + data.len() <= MAX_BUFFER_SAMPLES {
                (buf.len() + data.len()) as int
            } else {
                MAX_BUFFER_SAMPLES as int
            },
{
    assert(append_spec(buf, data).take(buf.len() as int) =~= buf);
}

/// Law: the downmix of a single two-channel frame `[a, b]` is exactly
/// `(a + b) / 2`.
pub proof fn lemma_downmix_stereo_mean(a: i32, b: i32)
    ensures
        frame_mix(seq![a, b], 2) == (a + b) / 2,
        downmix_spec(seq![a, b], 2) == seq![((a + b) / 2) as i32],
{
    let s = seq![a, b];
    assert(s.drop_first() =~= seq![b]);
    assert(sample_sum(Seq::<i32>::empty()) == 0);
    assert(seq![b].drop_first() =~= Seq::<i32>::empty());
    assert(sample_sum(seq![b]) == b);
    assert(sample_sum(s) == a + b);
    let bias = SAMPLE_BIAS as int;
    assert((a + b) / 2 + bias == (a + b + bias * 2) / 2) by {
        lemma_hoist_over_denominator(a + b, bias, 2);
    }
    assert(frame_mix(s, 2) == (a + b) / 2);
    lemma_frame_mix_in_range(s, 2);
    assert(downmix_spec(s, 2) =~= seq![((a + b) / 2) as i32]);
}

} // verus!
