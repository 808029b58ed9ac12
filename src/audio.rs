//! Audio frame pipeline: raw device samples in, 16 kHz mono PCM frames out.
//!
//! The device delivers interleaved samples at its native rate and channel
//! count. They are cut into 20 ms frames, mixed down to mono, measured for
//! the volume meter, resampled to 16 kHz by nearest index, and serialised as
//! little-endian 16-bit PCM for the frame codec.

use vstd::prelude::*;

verus! {

/// Sample rate that the frame codec expects.
pub const TARGET_SAMPLE_RATE: u32 = 16000;

/// Duration of one frame.
pub const FRAME_DURATION_MS: u32 = 20;

/// Mono samples in one frame at the target rate.
pub const TARGET_FRAME_SAMPLES: usize = 320;

/// Highest volume level.
pub const MAX_VOLUME: u32 = 100;

/// Longest frame, in samples, that the pipeline accepts.
pub const MAX_FRAME_SAMPLES: usize = 0x1000_0000;

/// Samples per channel in one frame at `rate`.
pub open spec fn frame_samples_per_channel(rate: int) -> int {
    rate * FRAME_DURATION_MS as int / 1000
}

/// The device's native stream format.
#[derive(Clone, Copy, PartialEq, Eq, Debug)]
pub struct CaptureFormat {
    pub sample_rate: u32,
    pub channels: u16,
}

impl CaptureFormat {
    /// A format whose frames hold at least one sample per channel.
    pub open spec fn valid(&self) -> bool {
        &&& self.channels >= 1
        &&& frame_samples_per_channel(self.sample_rate as int) >= 1
        &&& self.native_frame_len() <= MAX_FRAME_SAMPLES
    }

    /// Interleaved samples in one native frame.
    pub open spec fn native_frame_len(&self) -> int {
        frame_samples_per_channel(self.sample_rate as int) * self.channels as int
    }

    /// Interleaved samples in one native frame.
    pub fn samples_per_native_frame(&self) -> (r: usize)
        requires
            self.valid(),
        ensures
            r == self.native_frame_len(),
    {
        let per_channel = (self.sample_rate as u64) * (FRAME_DURATION_MS as u64) / 1000;
        proof {
            assert(per_channel <= 0x1_0000_0000) by (nonlinear_arith)
                requires
                    per_channel == (self.sample_rate as u64) * 20 / 1000,
                    self.sample_rate <= 0xffff_ffff,
            ;
            assert(per_channel * (self.channels as u64) <= 0x1_0000_0000 * 0x1_0000) by (
            nonlinear_arith)
                requires
                    per_channel <= 0x1_0000_0000,
                    self.channels <= 0xffff,
            ;
        }
        (per_channel * (self.channels as u64)) as usize
    }
}

/// Sum of the samples of `s`.
pub open spec fn sum_of(s: Seq<i16>) -> int
    decreases s.len(),
{
    if s.len() == 0 {
        0
    } else {
        sum_of(s.drop_last()) + s.last() as int
    }
}

/// Sum of the squares of the samples of `s`.
pub open spec fn sum_of_squares(s: Seq<i16>) -> int
    decreases s.len(),
{
    if s.len() == 0 {
        0
    } else {
        sum_of_squares(s.drop_last()) + s.last() as int * s.last() as int
    }
}

/// Integer division rounding toward zero, as Rust's `/` does.
pub open spec fn trunc_div(a: int, d: int) -> int {
    if a >= 0 {
        a / d
    } else {
        -((-a) / d)
    }
}

/// Number of mono samples that `n` interleaved samples of `c` channels give;
/// a trailing partial group counts as one.
pub open spec fn mono_len(n: int, c: int) -> int {
    (n + c - 1) / c
}

/// The `i`-th group of `c` interleaved samples (shorter at the end).
pub open spec fn channel_group(s: Seq<i16>, c: int, i: int) -> Seq<i16> {
    let hi = if (i + 1) * c <= s.len() {
        (i + 1) * c
    } else {
        s.len() as int
    };
    s.subrange(i * c, hi)
}

/// Mono mix of interleaved `s`: each group of `c` samples averaged, rounding
/// toward zero. A single channel is kept as it is.
pub open spec fn downmixed(s: Seq<i16>, c: int) -> Seq<i16> {
    if c <= 1 {
        s
    } else {
        Seq::new(
            mono_len(s.len() as int, c) as nat,
            |i: int| trunc_div(sum_of(channel_group(s, c, i)), c) as i16,
        )
    }
}

/// Mean of the squared samples, rounded down; 0 for no samples.
pub open spec fn mean_square(s: Seq<i16>) -> int {
    if s.len() == 0 {
        0
    } else {
        sum_of_squares(s) / s.len() as int
    }
}

/// Smallest level from `v` up whose next step would exceed `ms`, capped at
/// the maximum.
pub open spec fn level_from(ms: int, v: int) -> int
    decreases 100 - v,
{
    if v >= 100 || ms < (100 * (v + 1)) * (100 * (v + 1)) {
        v
    } else {
        level_from(ms, v + 1)
    }
}

/// Volume level of a mean square: the root mean square divided by 100,
/// rounded down and capped at 100.
pub open spec fn volume_for(ms: int) -> int {
    level_from(ms, 0)
}

/// Volume level of a mono frame.
pub open spec fn volume_of(s: Seq<i16>) -> int {
    volume_for(mean_square(s))
}

/// Nearest-index resampling of `s` to `target` samples: output `i` takes
/// input `i * len / target`. A frame already of that length is kept.
pub open spec fn resampled(s: Seq<i16>, target: int) -> Seq<i16> {
    if s.len() == target {
        s
    } else {
        Seq::new(target as nat, |i: int| s[i * s.len() / target])
    }
}

/// The 16-bit two's-complement pattern of `x`.
pub open spec fn bits_of(x: i16) -> int {
    if x < 0 {
        x + 0x10000
    } else {
        x as int
    }
}

/// Little-endian bytes of the samples of `s`.
pub open spec fn le_bytes(s: Seq<i16>) -> Seq<u8> {
    Seq::new(
        (2 * s.len()) as nat,
        |j: int|
            if j % 2 == 0 {
                (bits_of(s[j / 2]) % 256) as u8
            } else {
                (bits_of(s[j / 2]) / 256) as u8
            },
    )
}

proof fn lemma_level_from(ms: int, v: int)
    requires
        0 <= v <= 100,
        ms >= (100 * v) * (100 * v),
    ensures
        v <= level_from(ms, v) <= 100,
        ms >= (100 * level_from(ms, v)) * (100 * level_from(ms, v)),
        level_from(ms, v) == 100 || ms < (100 * (level_from(ms, v) + 1)) * (100 * (
        level_from(ms, v) + 1)),
    decreases 100 - v,
{
    if !(v >= 100 || ms < (100 * (v + 1)) * (100 * (v + 1))) {
        lemma_level_from(ms, v + 1);
    }
}

/// The volume level is the largest `v` in `0..=100` with `(100 v)^2 <= ms`.
pub proof fn lemma_volume_for(ms: int)
    requires
        ms >= 0,
    ensures
        0 <= volume_for(ms) <= 100,
        (100 * volume_for(ms)) * (100 * volume_for(ms)) <= ms,
        volume_for(ms) == 100 || ms < (100 * (volume_for(ms) + 1)) * (100 * (volume_for(ms)
            + 1)),
{
    lemma_level_from(ms, 0);
}

proof fn lemma_sum_of_squares_bounds(s: Seq<i16>)
    ensures
        0 <= sum_of_squares(s) <= s.len() * 0x4000_0000,
    decreases s.len(),
{
    if s.len() > 0 {
        lemma_sum_of_squares_bounds(s.drop_last());
        let x = s.last() as int;
        assert(0 <= x * x <= 0x4000_0000) by (nonlinear_arith)
            requires
                -0x8000 <= x <= 0x7fff,
        ;
    }
}

proof fn lemma_sum_of_bounds(s: Seq<i16>)
    ensures
        -0x8000 * s.len() <= sum_of(s) <= 0x7fff * s.len(),
    decreases s.len(),
{
    if s.len() > 0 {
        lemma_sum_of_bounds(s.drop_last());
    }
}

/// Sum of the squares of `s`, with its bound.
fn sum_squares(s: &[i16]) -> (r: u64)
    requires
        s@.len() <= MAX_FRAME_SAMPLES,
    ensures
        r == sum_of_squares(s@),
{
    let mut acc: u64 = 0;
    let mut i: usize = 0;
    while i < s.len()
        invariant
            i <= s@.len() <= MAX_FRAME_SAMPLES,
            acc == sum_of_squares(s@.take(i as int)),
            acc <= i * 0x4000_0000,
        decreases s@.len() - i,
    {
        let x = s[i] as i64;
        proof {
            assert(s@.take(i + 1).drop_last() =~= s@.take(i as int));
            assert(0 <= x * x <= 0x4000_0000) by (nonlinear_arith)
                requires
                    -0x8000 <= x <= 0x7fff,
            ;
        }
        acc = acc + (x * x) as u64;
        i += 1;
    }
    assert(s@.take(i as int) =~= s@);
    acc
}

/// Volume level, 0 to 100, of a mono frame: root mean square over 100,
/// rounded down and capped.
pub fn volume_level(mono: &[i16]) -> (r: u32)
    requires
        mono@.len() <= MAX_FRAME_SAMPLES,
    ensures
        r == volume_of(mono@),
        r <= MAX_VOLUME,
{
    let ms: u64 = if mono.len() == 0 {
        0
    } else {
        sum_squares(mono) / (mono.len() as u64)
    };
    proof {
        lemma_sum_of_squares_bounds(mono@);
        lemma_volume_for(ms as int);
    }
    let mut v: u64 = 0;
    let mut found = false;
    while !found && v < 100
        invariant
            v <= 100,
            level_from(ms as int, v as int) == volume_for(ms as int),
            found ==> level_from(ms as int, v as int) == v,
        decreases 100 - v + (if found { 0int } else { 1int }),
    {
        let step: u64 = 100 * (v + 1);
        assert(step * step <= 10100 * 10100) by (nonlinear_arith)
            requires
                step <= 10100,
        ;
        if ms < step * step {
            found = true;
        } else {
            v += 1;
        }
    }
    v as u32
}

proof fn lemma_trunc_div_bounds(a: int, d: int, k: int)
    requires
        1 <= k <= d,
        -0x8000 * k <= a <= 0x7fff * k,
    ensures
        -0x8000 <= trunc_div(a, d) <= 0x7fff,
{
    if a >= 0 {
        assert(a / d <= 0x7fff) by (nonlinear_arith)
            requires
                0 <= a <= 0x7fff * k,
                1 <= k <= d,
        ;
        assert(a / d >= 0) by (nonlinear_arith)
            requires
                0 <= a,
                1 <= d,
        ;
    } else {
        assert((-a) / d <= 0x8000) by (nonlinear_arith)
            requires
                0 <= -a <= 0x8000 * k,
                1 <= k <= d,
        ;
        assert((-a) / d >= 0) by (nonlinear_arith)
            requires
                0 <= -a,
                1 <= d,
        ;
    }
}

/// Mixes interleaved samples of `channels` channels down to mono by averaging
/// each group of samples, rounding toward zero.
pub fn downmix(frame: &[i16], channels: u16) -> (r: Vec<i16>)
    requires
        channels >= 1,
        frame@.len() <= MAX_FRAME_SAMPLES,
    ensures
        r@ == downmixed(frame@, channels as int),
{
    if channels <= 1 {
        return vstd::slice::slice_to_vec(frame);
    }
    let c = channels as usize;
    let n = frame.len();
    let m = (n + c - 1) / c;
    let mut out: Vec<i16> = Vec::new();
    let mut i: usize = 0;
    while i < m
        invariant
            2 <= c <= 0xffff,
            c == channels,
            n == frame@.len() <= MAX_FRAME_SAMPLES,
            m == mono_len(n as int, c as int),
            i <= m,
            out@.len() == i,
            forall|k: int|
                0 <= k < i ==> out@[k] == trunc_div(sum_of(channel_group(frame@, c as int, k)), c as int) as i16,
        decreases m - i,
    {
        proof {
            assert(i * c < n) by (nonlinear_arith)
                requires
                    i < m,
                    m == (n + c - 1) as int / c as int,
                    c >= 2,
            ;
            assert((i + 1) * c == i * c + c) by (nonlinear_arith);
        }
        let lo = i * c;
        let hi = if lo + c <= n { lo + c } else { n };
        let ghost group = channel_group(frame@, c as int, i as int);
        let mut sum: i32 = 0;
        let mut j: usize = lo;
        while j < hi
            invariant
                lo <= j <= hi <= n,
                hi - lo <= c <= 0xffff,
                n == frame@.len(),
                sum == sum_of(frame@.subrange(lo as int, j as int)),
                -0x8000 * (j - lo) <= sum <= 0x7fff * (j - lo),
            decreases hi - j,
        {
            proof {
                assert(frame@.subrange(lo as int, j + 1).drop_last() =~= frame@.subrange(lo as int, j as int));
                assert(0x7fff * (j + 1 - lo) <= 0x7fff * 0xffff) by (nonlinear_arith)
                    requires
                        j + 1 - lo <= 0xffff,
                ;
            }
            sum = sum + frame[j] as i32;
            j += 1;
        }
        proof {
            assert(group == frame@.subrange(lo as int, hi as int));
            lemma_trunc_div_bounds(sum as int, c as int, (hi - lo) as int);
        }
        let avg: i32 = if sum >= 0 {
            sum / (c as i32)
        } else {
            -((-sum) / (c as i32))
        };
        out.push(avg as i16);
        i += 1;
    }
    assert(out@ =~= downmixed(frame@, channels as int));
    out
}

/// Resamples a mono frame to `target` samples by nearest index.
pub fn resample_nearest(mono: &[i16], target: usize) -> (r: Vec<i16>)
    requires
        mono@.len() >= 1,
        mono@.len() <= MAX_FRAME_SAMPLES,
        target <= MAX_FRAME_SAMPLES,
    ensures
        r@ == resampled(mono@, target as int),
{
    let len = mono.len();
    if len == target {
        return vstd::slice::slice_to_vec(mono);
    }
    let mut out: Vec<i16> = Vec::new();
    let mut i: usize = 0;
    while i < target
        invariant
            i <= target <= MAX_FRAME_SAMPLES,
            1 <= len <= MAX_FRAME_SAMPLES,
            len == mono@.len(),
            out@.len() == i,
            forall|k: int| 0 <= k < i ==> out@[k] == mono@[k * len as int / target as int],
        decreases target - i,
    {
        proof {
            assert((i as u64) * (len as u64) <= MAX_FRAME_SAMPLES * MAX_FRAME_SAMPLES) by (nonlinear_arith)
                requires
                    i <= MAX_FRAME_SAMPLES,
                    len <= MAX_FRAME_SAMPLES,
            ;
            assert((i * len) as int / (target as int) < len) by (nonlinear_arith)
                requires
                    i < target,
                    len >= 1,
            ;
        }
        let src = ((i as u64) * (len as u64) / (target as u64)) as usize;
        out.push(mono[src]);
        i += 1;
    }
    assert(out@ =~= resampled(mono@, target as int));
    out
}

/// Little-endian 16-bit PCM bytes of `samples`.
pub fn pcm_le_bytes(samples: &[i16]) -> (r: Vec<u8>)
    requires
        samples@.len() <= MAX_FRAME_SAMPLES,
    ensures
        r@ == le_bytes(samples@),
{
    let mut out: Vec<u8> = Vec::new();
    let mut i: usize = 0;
    while i < samples.len()
        invariant
            i <= samples@.len() <= MAX_FRAME_SAMPLES,
            out@.len() == 2 * i,
            forall|j: int| 0 <= j < 2 * i ==> out@[j] == le_bytes(samples@)[j],
        decreases samples@.len() - i,
    {
        let x = samples[i];
        let bits: u32 = if x < 0 {
            (x as i32 + 0x10000) as u32
        } else {
            x as u32
        };
        out.push((bits % 256) as u8);
        out.push((bits / 256) as u8);
        proof {
            assert forall|j: int| 0 <= j < 2 * (i + 1) implies out@[j] == le_bytes(samples@)[j] by {
                if j >= 2 * i {
                    assert(j / 2 == i);
                }
            }
        }
        i += 1;
    }
    assert(out@ =~= le_bytes(samples@));
    out
}

/// One native frame after the pipeline.
pub struct ProcessedFrame {
    /// Volume level of the mono mix, 0 to 100.
    pub volume: u32,
    /// 16 kHz mono PCM, little-endian, ready for the frame codec.
    pub pcm: Vec<u8>,
}

/// Runs one full native frame through the pipeline: mono mix, volume level,
/// nearest-index resampling to the target rate, little-endian bytes.
pub fn process_frame(format: &CaptureFormat, frame: &[i16]) -> (r: ProcessedFrame)
    requires
        format.valid(),
        frame@.len() == format.native_frame_len(),
        frame@.len() <= MAX_FRAME_SAMPLES,
    ensures
        r.volume == volume_of(downmixed(frame@, format.channels as int)),
        r.volume <= MAX_VOLUME,
        r.pcm@ == le_bytes(resampled(downmixed(frame@, format.channels as int), TARGET_FRAME_SAMPLES as int)),
{
    let mono = downmix(frame, format.channels);
    proof {
        let c = format.channels as int;
        let per = frame_samples_per_channel(format.sample_rate as int);
        if c > 1 {
            assert(mono_len(per * c, c) == per) by (nonlinear_arith)
                requires
                    c >= 2,
                    per >= 1,
            ;
        }
        assert(1 <= per <= per * c) by (nonlinear_arith)
            requires
                c >= 1,
                per >= 1,
        ;
    }
    let volume = volume_level(mono.as_slice());
    let resampled = resample_nearest(mono.as_slice(), TARGET_FRAME_SAMPLES);
    let pcm = pcm_le_bytes(resampled.as_slice());
    ProcessedFrame { volume, pcm }
}

} // verus!

verus! {

proof fn lemma_sum_of_squares_zero(s: Seq<i16>)
    requires
        forall|i: int| 0 <= i < s.len() ==> s[i] == 0,
    ensures
        sum_of_squares(s) == 0,
    decreases s.len(),
{
    if s.len() > 0 {
        lemma_sum_of_squares_zero(s.drop_last());
    }
}

proof fn lemma_sum_of_squares_loud(s: Seq<i16>)
    requires
        forall|i: int| 0 <= i < s.len() ==> s[i] >= 10000 || s[i] <= -10000,
    ensures
        sum_of_squares(s) >= s.len() * 100_000_000,
    decreases s.len(),
{
    if s.len() > 0 {
        lemma_sum_of_squares_loud(s.drop_last());
        let x = s.last() as int;
        assert(x * x >= 100_000_000) by (nonlinear_arith)
            requires
                x >= 10000 || x <= -10000,
        ;
    }
}

/// The volume level is always between 0 and 100; silence gives 0, and a
/// frame whose every sample is at least 10000 in magnitude (full-scale input
/// included) gives 100.
pub proof fn law_volume_range(s: Seq<i16>)
    ensures
        0 <= volume_of(s) <= 100,
        (forall|i: int| 0 <= i < s.len() ==> s[i] == 0) ==> volume_of(s) == 0,
        (s.len() > 0 && forall|i: int| 0 <= i < s.len() ==> s[i] >= 10000 || s[i] <= -10000)
            ==> volume_of(s) == 100,
{
    lemma_sum_of_squares_bounds(s);
    let ms = mean_square(s);
    assert(ms >= 0) by {
        if s.len() > 0 {
            assert(sum_of_squares(s) / (s.len() as int) >= 0) by (nonlinear_arith)
                requires
                    sum_of_squares(s) >= 0,
                    s.len() > 0,
            ;
        }
    }
    lemma_volume_for(ms);
    if forall|i: int| 0 <= i < s.len() ==> s[i] == 0 {
        lemma_sum_of_squares_zero(s);
        let v = volume_of(s);
        assert(v == 0) by (nonlinear_arith)
            requires
                0 <= v,
                (100 * v) * (100 * v) <= 0,
        ;
    }
    if s.len() > 0 && forall|i: int| 0 <= i < s.len() ==> s[i] >= 10000 || s[i] <= -10000 {
        lemma_sum_of_squares_loud(s);
        let n = s.len() as int;
        assert(ms >= 100_000_000) by (nonlinear_arith)
            requires
                ms == sum_of_squares(s) / n,
                sum_of_squares(s) >= n * 100_000_000,
                n > 0,
        ;
        let v = volume_of(s);
        if v < 100 {
            assert(ms < (100 * (v + 1)) * (100 * (v + 1)));
            assert((100 * (v + 1)) * (100 * (v + 1)) <= 100_000_000) by (nonlinear_arith)
                requires
                    0 <= v < 100,
            ;
        }
    }
}

} // verus!
