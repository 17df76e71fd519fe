//! Pure sample-rate conversion by linear interpolation, used for the
//! low-latency streaming chunks. Converting is a no-op when the rates are
//! equal or the input is empty (or a rate is zero, which names no real
//! stream); otherwise each output sample is interpolated between the two
//! source samples around its scaled position, and the output holds
//! `ceil(len * to / from)` samples. Interpolation stays within the range
//! spanned by its two endpoints, so no value beyond the source range
//! appears.

use vstd::prelude::*;

use vstd::arithmetic::div_mod::{
    lemma_div_by_multiple, lemma_div_is_ordered, lemma_fundamental_div_mod,
    lemma_fundamental_div_mod_converse,
};
use vstd::arithmetic::mul::lemma_mul_inequality;

use crate::buffer::{MAX_BUFFER_SAMPLES, SAMPLE_BIAS};

verus! {

/// Linear interpolation between `a` and `b` at fraction `frac / to`,
/// rounded toward negative infinity, computed over bias-shifted values.
pub open spec fn lerp(a: int, b: int, frac: int, to: int) -> int {
    let bias = SAMPLE_BIAS as int;
    ((a + bias) * (to - frac) + (b + bias) * frac) / to - bias
}

/// The output sample at position `i`: its scaled position in the source
/// falls between `idx` and `idx + 1`, and the sample is interpolated
/// between those two source samples (the last one carried past the end).
pub open spec fn resample_at(input: Seq<i32>, from: int, to: int, i: int) -> int {
    let num = i * from;
    let idx = num / to;
    let frac = num % to;
    let a = input[idx] as int;
    let b = if idx + 1 < input.len() {
        input[idx + 1] as int
    } else {
        a
    };
    lerp(a, b, frac, to)
}

/// The resampled stream: the identity when the rates are equal, the input
/// is empty or a rate is zero; otherwise `ceil(len * to / from)`
/// interpolated samples.
pub open spec fn resample_spec(input: Seq<i32>, from: int, to: int) -> Seq<i32> {
    if from == to || input.len() == 0 || from <= 0 || to <= 0 {
        input
    } else {
        Seq::new(
            (((input.len() * to + from - 1) / from) as nat),
            |i: int| resample_at(input, from, to, i) as i32,
        )
    }
}

/// Law: resampling between equal rates is the exact identity, whatever
/// the input, and an empty input resamples to an empty output at any pair
/// of rates.
pub proof fn lemma_resample_identity(input: Seq<i32>, from: u32, to: u32)
    ensures
        resample_spec(input, from as int, from as int) == input,
        resample_spec(Seq::<i32>::empty(), from as int, to as int) == Seq::<i32>::empty(),
{
}

/// An output position of the interpolation grid scales to a source
/// position strictly inside the input.
proof fn lemma_source_index_in_range(len: int, from: int, to: int, i: int)
    requires
        1 <= from,
        1 <= to,
        1 <= len,
        0 <= i < (len * to + from - 1) / from,
    ensures
        0 <= i * from,
        (i * from) / to < len,
        i * from <= len * to - 1,
{
    let q = (len * to + from - 1) / from;
    assert(0 <= i * from) by (nonlinear_arith)
        requires 0 <= i, 1 <= from;
    assert((i + 1) * from <= q * from) by {
        lemma_mul_inequality(i + 1, q, from);
    }
    assert(q * from <= len * to + from - 1) by {
        lemma_fundamental_div_mod(len * to + from - 1, from);
        assert(len * to + from - 1 == from * q + (len * to + from - 1) % from);
        assert(q * from == from * q) by (nonlinear_arith);
    }
    assert((i + 1) * from == i * from + from) by (nonlinear_arith);
    assert(i * from <= len * to - 1);
    assert((len * to - 1) / to == len - 1) by {
        assert((len - 1) * to + (to - 1) == len * to - 1) by (nonlinear_arith);
        lemma_fundamental_div_mod_converse(len * to - 1, to, len - 1, to - 1);
    }
    lemma_div_is_ordered(i * from, len * to - 1, to);
}

/// Convert a stream between sample rates: a copy when the rates are equal
/// or the input is empty or a rate is zero, linear interpolation
/// otherwise. The bound on the input length is the capture buffer's cap;
/// the product bound keeps the output length addressable.
pub fn resample_audio(input: &[i32], from_rate: u32, to_rate: u32) -> (out: Vec<i32>)
    requires
        input@.len() <= MAX_BUFFER_SAMPLES,
        input@.len() * to_rate + from_rate <= usize::MAX,
    ensures
        out@ == resample_spec(input@, from_rate as int, to_rate as int),
{
    let n = input.len();
    if from_rate == to_rate || n == 0 || from_rate == 0 || to_rate == 0 {
        let mut out: Vec<i32> = Vec::new();
        let mut i: usize = 0;
        while i < n
            invariant
                n == input@.len(),
                i <= n,
                out@ == input@.take(i as int),
            decreases n - i,
        {
            out.push(input[i]);
            proof {
                assert(input@.take(i as int).push(input@[i as int])
                    =~= input@.take(i + 1));
            }
            i = i + 1;
        }
        proof {
            assert(input@.take(n as int) =~= input@);
        }
        return out;
    }
    let to64 = to_rate as u64;
    let from64 = from_rate as u64;
    let out_len: usize = (n * (to_rate as usize) + (from_rate as usize) - 1)
        / (from_rate as usize);
    let ghost target = resample_spec(input@, from_rate as int, to_rate as int);
    proof {
        assert(target.len() == out_len);
    }
    let mut out: Vec<i32> = Vec::new();
    let mut i: usize = 0;
    while i < out_len
        invariant
            n == input@.len(),
            1 <= n <= MAX_BUFFER_SAMPLES,
            1 <= from_rate,
            1 <= to_rate,
            from_rate != to_rate,
            to64 == to_rate as u64,
            from64 == from_rate as u64,
            i <= out_len,
            out_len == (n * to_rate + from_rate - 1) / (from_rate as int),
            target == resample_spec(input@, from_rate as int, to_rate as int),
            target.len() == out_len,
            out@ == target.take(i as int),
        decreases out_len - i,
    {
        proof {
            lemma_source_index_in_range(n as int, from_rate as int, to_rate as int, i as int);
            assert((i as int) * (from_rate as int) <= (n as int) * (to_rate as int) - 1);
            assert((n as int) * (to_rate as int) <= MAX_BUFFER_SAMPLES * 0x1_0000_0000)
                by (nonlinear_arith)
                requires
                    (n as int) <= MAX_BUFFER_SAMPLES as int,
                    (to_rate as int) < 0x1_0000_0000,
                    1 <= (n as int),
            ;
        }
        let num: u64 = (i as u64) * from64;
        let idx64: u64 = num / to64;
        let frac: u64 = num % to64;
        let idx: usize = idx64 as usize;
        let a = input[idx];
        let b = if idx + 1 < n {
            input[idx + 1]
        } else {
            a
        };
        let ap: u64 = ((a as i64) + 0x8000_0000i64) as u64;
        let bp: u64 = ((b as i64) + 0x8000_0000i64) as u64;
        proof {
            assert(frac < to64);
            assert(ap * ((to64 - frac) as int) + bp * (frac as int)
                <= 0xFFFF_FFFF * (to64 as int)) by (nonlinear_arith)
                requires
                    (ap as int) <= 0xFFFF_FFFF,
                    (bp as int) <= 0xFFFF_FFFF,
                    0 <= (frac as int),
                    (frac as int) <= (to64 as int),
            ;
            assert(0xFFFF_FFFF * (to64 as int) < 0x1_0000_0000_0000_0000)
                by (nonlinear_arith)
                requires (to64 as int) < 0x1_0000_0000;
        }
        let weighted: u64 = ap * (to64 - frac) + bp * frac;
        let val: u64 = weighted / to64;
        proof {
            lemma_div_is_ordered(weighted as int, 0xFFFF_FFFF * (to64 as int), to64 as int);
            assert((0xFFFF_FFFF * (to64 as int)) / (to64 as int) == 0xFFFF_FFFF) by {
                lemma_div_by_multiple(0xFFFF_FFFF, to64 as int);
            }
            assert(val <= 0xFFFF_FFFF);
            let bias = SAMPLE_BIAS as int;
            assert(ap == a + bias && bp == b + bias);
            assert(val == lerp(a as int, b as int, frac as int, to64 as int) + bias);
            assert(resample_at(input@, from_rate as int, to_rate as int, i as int)
                == lerp(a as int, b as int, frac as int, to64 as int));
        }
        let sample: i32 = ((val as i64) - 0x8000_0000i64) as i32;
        out.push(sample);
        proof {
            assert(target[i as int] == sample);
            assert(target.take(i as int).push(target[i as int]) =~= target.take(i + 1));
        }
        i = i + 1;
    }
    proof {
        assert(target.take(target.len() as int) =~= target);
    }
    out
}

} // verus!
