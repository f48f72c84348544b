//! The spectrum engine's state: the queue of not-yet-analyzed mono
//! samples and the rolling result of the analysis passes. The FFT
//! itself runs outside on floating-point samples; its magnitudes come
//! back as fixed-point values (`MAG_SCALE` units per 1.0) and are
//! smoothed here, where the smoothing and pacing rules are proved.
use std::collections::VecDeque;
use vstd::prelude::*;

verus! {

/// How many queued samples one analysis pass consumes.
pub const FFT_WINDOW_SIZE: usize = 2048;

/// How many smoothed magnitude bins the engine keeps.
pub const RESULT_BINS: usize = 2048;

/// The queue keeps at most this many samples after an analysis pass,
/// bounding memory growth during pauses.
pub const RETAINED_SAMPLES: usize = 8192;

/// Fixed-point scale of magnitude values: this many units stand for
/// an amplitude of 1.0.
pub const MAG_SCALE: u64 = 16777216;

/// Largest magnitude value the engine accepts; keeps the smoothing
/// sum far from overflow.
pub const MAG_LIMIT: u64 = 0x4000_0000_0000_0000;

/// Exponential smoothing of one result bin: the mean of the previous
/// value and the new magnitude, rounded down.
pub open spec fn spec_smooth(v: int, m: int) -> int {
    (v + m) / 2
}

/// Accumulates mono analysis samples and smooths successive FFT
/// magnitude frames into a rolling result buffer.
pub struct SpectrumState<S> {
    pcm_queue: VecDeque<S>,
    result_buf: Vec<u64>,
    freq_start_mhz: u32,
    freq_end_mhz: u32,
}

impl<S: Copy> SpectrumState<S> {
    /// The samples waiting to be analyzed, oldest first.
    pub closed spec fn queue(self) -> Seq<S> {
        self.pcm_queue@
    }

    /// The smoothed magnitude bins.
    pub closed spec fn results(self) -> Seq<u64> {
        self.result_buf@
    }

    /// Lower bound of the analyzed band, in millihertz.
    pub closed spec fn freq_start_mhz(self) -> u32 {
        self.freq_start_mhz
    }

    /// Upper bound of the analyzed band, in millihertz.
    pub closed spec fn freq_end_mhz(self) -> u32 {
        self.freq_end_mhz
    }

    /// The result buffer always holds `RESULT_BINS` bounded values.
    pub open spec fn wf(self) -> bool {
        &&& self.results().len() == RESULT_BINS
        &&& forall|i: int| 0 <= i < RESULT_BINS ==> #[trigger] self.results()[i] <= MAG_LIMIT
    }

    /// A fresh engine: empty queue, all bins zero, default band of
    /// 80 Hz to 2000 Hz.
    pub fn new() -> (s: Self)
        ensures
            s.wf(),
            s.queue() == Seq::<S>::empty(),
            s.results() == Seq::new(RESULT_BINS as nat, |i: int| 0u64),
            s.freq_start_mhz() == 80_000,
            s.freq_end_mhz() == 2_000_000,
    {
        let result_buf: Vec<u64> = vec![0u64; RESULT_BINS];
        proof {
            assert(result_buf@ =~= Seq::new(RESULT_BINS as nat, |i: int| 0u64));
        }
        SpectrumState {
            pcm_queue: VecDeque::new(),
            result_buf,
            freq_start_mhz: 80_000,
            freq_end_mhz: 2_000_000,
        }
    }

    /// How many samples are queued.
    pub fn queue_len(&self) -> (n: usize)
        ensures
            n == self.queue().len(),
    {
        self.pcm_queue.len()
    }

    /// One smoothed magnitude bin.
    pub fn result_bin(&self, i: usize) -> (r: u64)
        requires
            i < self.results().len(),
        ensures
            r == self.results()[i as int],
    {
        self.result_buf[i]
    }

    /// Whether any samples are queued.
    pub fn has_data(&self) -> (b: bool)
        ensures
            b == (self.queue().len() > 0),
    {
        self.pcm_queue.len() > 0
    }

    /// Drops every queued sample; the result bins keep their values.
    pub fn clear(&mut self)
        ensures
            final(self).queue() == Seq::<S>::empty(),
            final(self).results() == old(self).results(),
            final(self).freq_start_mhz() == old(self).freq_start_mhz(),
            final(self).freq_end_mhz() == old(self).freq_end_mhz(),
    {
        self.pcm_queue.clear();
    }

    /// Narrows or widens the analyzed band.
    pub fn set_freq_range(&mut self, start_mhz: u32, end_mhz: u32)
        ensures
            final(self).freq_start_mhz() == start_mhz,
            final(self).freq_end_mhz() == end_mhz,
            final(self).queue() == old(self).queue(),
            final(self).results() == old(self).results(),
    {
        self.freq_start_mhz = start_mhz;
        self.freq_end_mhz = end_mhz;
    }

    /// Appends freshly decoded analysis samples; never blocks and
    /// never drops.
    pub fn push_samples(&mut self, samples: &[S])
        ensures
            final(self).queue() == old(self).queue() + samples@,
            final(self).results() == old(self).results(),
            final(self).freq_start_mhz() == old(self).freq_start_mhz(),
            final(self).freq_end_mhz() == old(self).freq_end_mhz(),
    {
        let mut i: usize = 0;
        while i < samples.len()
            invariant
                i <= samples@.len(),
                self.pcm_queue@ == old(self).pcm_queue@ + samples@.take(i as int),
                self.result_buf == old(self).result_buf,
                self.freq_start_mhz == old(self).freq_start_mhz,
                self.freq_end_mhz == old(self).freq_end_mhz,
            decreases samples@.len() - i,
        {
            self.pcm_queue.push_back(samples[i]);
            proof {
                assert(self.pcm_queue@ =~= old(self).pcm_queue@ + samples@.take(i + 1));
            }
            i += 1;
        }
        proof {
            assert(samples@.take(samples@.len() as int) =~= samples@);
        }
    }

    /// The window an analysis pass runs on: a copy of the oldest
    /// `FFT_WINDOW_SIZE` queued samples, or nothing (and no state
    /// change) while fewer are buffered.
    pub fn analysis_window(&self) -> (r: Option<Vec<S>>)
        ensures
            self.queue().len() < FFT_WINDOW_SIZE ==> r is None,
            self.queue().len() >= FFT_WINDOW_SIZE ==> r is Some && r->0@ == self.queue().take(
                FFT_WINDOW_SIZE as int,
            ),
    {
        if self.pcm_queue.len() < FFT_WINDOW_SIZE {
            return None;
        }
        let mut window: Vec<S> = Vec::new();
        let mut i: usize = 0;
        while i < FFT_WINDOW_SIZE
            invariant
                i <= FFT_WINDOW_SIZE,
                self.pcm_queue@.len() >= FFT_WINDOW_SIZE,
                window@ == self.pcm_queue@.take(i as int),
            decreases FFT_WINDOW_SIZE - i,
        {
            window.push(self.pcm_queue[i]);
            proof {
                assert(window@ =~= self.pcm_queue@.take(i + 1));
            }
            i += 1;
        }
        Some(window)
    }

    /// Folds one frame of FFT magnitudes into the result bins:
    /// every bin becomes the mean of its previous value and the new
    /// magnitude, which smooths jitter and converges toward a steady
    /// input.
    pub fn apply_magnitudes(&mut self, mags: &Vec<u64>)
        requires
            old(self).wf(),
            mags@.len() == RESULT_BINS,
            forall|i: int| 0 <= i < RESULT_BINS ==> #[trigger] mags@[i] <= MAG_LIMIT,
        ensures
            final(self).wf(),
            final(self).results().len() == RESULT_BINS,
            forall|i: int|
                0 <= i < RESULT_BINS ==> #[trigger] final(self).results()[i] == spec_smooth(
                    old(self).results()[i] as int,
                    mags@[i] as int,
                ),
            final(self).queue() == old(self).queue(),
            final(self).freq_start_mhz() == old(self).freq_start_mhz(),
            final(self).freq_end_mhz() == old(self).freq_end_mhz(),
    {
        let mut i: usize = 0;
        while i < RESULT_BINS
            invariant
                i <= RESULT_BINS,
                self.pcm_queue == old(self).pcm_queue,
                self.freq_start_mhz == old(self).freq_start_mhz,
                self.freq_end_mhz == old(self).freq_end_mhz,
                mags@.len() == RESULT_BINS,
                forall|k: int| 0 <= k < RESULT_BINS ==> #[trigger] mags@[k] <= MAG_LIMIT,
                self.result_buf@.len() == RESULT_BINS,
                forall|k: int|
                    0 <= k < RESULT_BINS ==> #[trigger] old(self).result_buf@[k] <= MAG_LIMIT,
                forall|k: int|
                    i <= k < RESULT_BINS ==> #[trigger] self.result_buf@[k] == old(
                        self,
                    ).result_buf@[k],
                forall|k: int|
                    0 <= k < i ==> #[trigger] self.result_buf@[k] == spec_smooth(
                        old(self).result_buf@[k] as int,
                        mags@[k] as int,
                    ),
            decreases RESULT_BINS - i,
        {
            let v = self.result_buf[i];
            let m = mags[i];
            self.result_buf.set(i, (v + m) / 2);
            i += 1;
        }
    }

    /// The pacing rule after a successful analysis pass: discard the
    /// samples the speaker has played meanwhile (the elapsed wall
    /// time times the analysis rate), then keep at most
    /// `RETAINED_SAMPLES` so the queue cannot grow without bound.
    pub fn discard_consumed(&mut self, elapsed_us: u64)
        ensures
            final(self).queue() == spec_after_discard(old(self).queue(), elapsed_us),
            final(self).results() == old(self).results(),
            final(self).freq_start_mhz() == old(self).freq_start_mhz(),
            final(self).freq_end_mhz() == old(self).freq_end_mhz(),
    {
        let wide: u128 = (elapsed_us as u128) * 44100u128 / 1_000_000u128;
        let len = self.pcm_queue.len();
        let cut: usize = if wide >= (len as u128) {
            len
        } else {
            wide as usize
        };
        let mut k: usize = 0;
        while k < cut
            invariant
                k <= cut,
                cut <= old(self).pcm_queue@.len(),
                self.pcm_queue@ == old(self).pcm_queue@.skip(k as int),
                self.result_buf == old(self).result_buf,
                self.freq_start_mhz == old(self).freq_start_mhz,
                self.freq_end_mhz == old(self).freq_end_mhz,
            decreases cut - k,
        {
            let popped = self.pcm_queue.pop_front();
            proof {
                assert(self.pcm_queue@ =~= old(self).pcm_queue@.skip(k + 1));
            }
            k += 1;
        }
        self.pcm_queue.truncate(RETAINED_SAMPLES);
        proof {
            assert(final(self).queue() =~= spec_after_discard(old(self).queue(), elapsed_us));
        }
    }
}


/// Fixed-point one in the interpolation arithmetic: fractional
/// positions carry 32 fraction bits.
pub const INTERP_ONE: u64 = 0x1_0000_0000;

/// The fixed-point step between two output positions when `src_len`
/// input bins are spread over `dst_len` output slots.
pub open spec fn spec_interp_step(src_len: int, dst_len: int) -> u64
    recommends
        0 < src_len < 0x1_0000_0000,
        0 < dst_len,
{
    (((src_len as u64) << 32u64) / (dst_len as u64)) as u64
}

/// Output slot `j` of the variable-to-fixed-length resample of
/// `src`: the two neighbouring input bins under the slot's
/// fractional position, blended by the fractional weights; plain
/// scaling by the left weight where no right neighbour exists.
pub open spec fn spec_interp_at(src: Seq<u64>, dst_len: int, j: int) -> u64
    recommends
        0 < src.len() < 0x1_0000_0000,
        0 < dst_len,
        0 <= j < dst_len,
{
    let src_len = src.len() as int;
    let step = spec_interp_step(src_len, dst_len);
    let pos = (((j as u128) * (step as u128)) as u128);
    let idx_wide = pos >> 32u128;
    let frac = ((pos & 0xffff_ffffu128) as u64);
    let npos = (((pos + (step as u128)) as int) as u128);
    let nidx_wide = npos >> 32u128;
    let nfrac = ((npos & 0xffff_ffffu128) as u64);
    let idx = if idx_wide >= (src_len as u128) {
        src_len - 1
    } else {
        idx_wide as int
    };
    if nidx_wide < (src_len as u128) {
        let a = (((src[idx] as u128) * (((INTERP_ONE - frac)) as u128) * (((INTERP_ONE - nfrac))
            as u128)) as u128);
        let b = (((src[nidx_wide as int] as u128) * (frac as u128) * (((INTERP_ONE - nfrac))
            as u128)) as u128);
        ((((a + b) as u128) >> 64u128) as u64)
    } else {
        (((((src[idx] as u128) * (((INTERP_ONE - frac)) as u128)) as u128) >> 32u128) as u64)
    }
}

/// Resamples the smoothed result bins into a caller-sized output
/// buffer, as the broadcast step does before handing spectrum frames
/// out: empty input yields silence, matching lengths copy, and any
/// other pair of lengths is linearly interpolated in fixed point.
pub fn vec_interp(src: &Vec<u64>, dst_len: usize) -> (dst: Vec<u64>)
    requires
        src@.len() < 0x1_0000_0000,
        forall|i: int| 0 <= i < src@.len() ==> #[trigger] src@[i] <= MAG_LIMIT,
    ensures
        dst@.len() == dst_len,
        src@.len() == 0 ==> forall|j: int| 0 <= j < dst_len ==> #[trigger] dst@[j] == 0u64,
        src@.len() == dst_len ==> dst@ == src@,
        src@.len() != 0 && src@.len() != dst_len ==> forall|j: int|
            0 <= j < dst_len ==> #[trigger] dst@[j] == spec_interp_at(src@, dst_len as int, j),
{
    let mut dst: Vec<u64> = Vec::new();
    if src.len() == 0 {
        let mut j: usize = 0;
        while j < dst_len
            invariant
                j <= dst_len,
                dst@.len() == j,
                forall|k: int| 0 <= k < j ==> #[trigger] dst@[k] == 0u64,
            decreases dst_len - j,
        {
            dst.push(0);
            j += 1;
        }
        return dst;
    }
    if dst_len == 0 {
        return dst;
    }
    if src.len() == dst_len {
        let mut j: usize = 0;
        while j < dst_len
            invariant
                j <= dst_len,
                dst_len == src@.len(),
                dst@ == src@.take(j as int),
            decreases dst_len - j,
        {
            dst.push(src[j]);
            proof {
                assert(dst@ =~= src@.take(j + 1));
            }
            j += 1;
        }
        proof {
            assert(src@.take(src@.len() as int) =~= src@);
        }
        return dst;
    }

    let step: u64 = ((src.len() as u64) << 32u64) / (dst_len as u64);
    let mut j: usize = 0;
    while j < dst_len
        invariant
            j <= dst_len,
            0 < src@.len() < 0x1_0000_0000,
            0 < dst_len,
            forall|i: int| 0 <= i < src@.len() ==> #[trigger] src@[i] <= MAG_LIMIT,
            step == spec_interp_step(src@.len() as int, dst_len as int),
            dst@.len() == j,
            forall|k: int|
                0 <= k < j ==> #[trigger] dst@[k] == spec_interp_at(src@, dst_len as int, k),
        decreases dst_len - j,
    {
        proof {
            assert((j as int) * (step as int) < 0x10000000000000000_0000000000000000) by (nonlinear_arith)
                requires
                    0 <= j < 0x1_0000_0000_0000_0000,
                    0 <= step < 0x1_0000_0000_0000_0000,
            ;
        }
        let pos: u128 = (j as u128) * (step as u128);
        let idx_wide: u128 = pos >> 32u128;
        proof {
            assert(pos & 0xffff_ffffu128 < 0x1_0000_0000) by (bit_vector);
        }
        let frac: u64 = (pos & 0xffff_ffffu128) as u64;
        proof {
            assert((j as int) * (step as int) + (step as int)
                < 0x10000000000000000_0000000000000000) by (nonlinear_arith)
                requires
                    0 <= j < 0x1_0000_0000_0000_0000,
                    0 <= step < 0x1_0000_0000_0000_0000,
            ;
        }
        let npos: u128 = pos + (step as u128);
        let nidx_wide: u128 = npos >> 32u128;
        proof {
            assert(npos & 0xffff_ffffu128 < 0x1_0000_0000) by (bit_vector);
        }
        let nfrac: u64 = (npos & 0xffff_ffffu128) as u64;
        let idx: usize = if idx_wide >= (src.len() as u128) {
            src.len() - 1
        } else {
            idx_wide as usize
        };
        let v: u64 = if nidx_wide < (src.len() as u128) {
            let s0 = src[idx];
            let s1 = src[nidx_wide as usize];
            let w0 = INTERP_ONE - frac;
            let w1 = INTERP_ONE - nfrac;
            proof {
                lemma_interp_product_bounds(s0 as int, w0 as int, w1 as int);
                lemma_interp_product_bounds(s1 as int, frac as int, w1 as int);
            }
            let a: u128 = (s0 as u128) * (w0 as u128) * (w1 as u128);
            let b: u128 = (s1 as u128) * (frac as u128) * (w1 as u128);
            ((a + b) >> 64u128) as u64
        } else {
            let s0 = src[idx];
            let w0 = INTERP_ONE - frac;
            proof {
                lemma_interp_product_bounds(s0 as int, w0 as int, 1);
            }
            (((s0 as u128) * (w0 as u128)) >> 32u128) as u64
        };
        dst.push(v);
        proof {
            assert(dst@[j as int] == spec_interp_at(src@, dst_len as int, j as int));
        }
        j += 1;
    }
    dst
}

/// The blended products of the interpolation stay far below the wide
/// word's range.
proof fn lemma_interp_product_bounds(s: int, w0: int, w1: int)
    requires
        0 <= s <= MAG_LIMIT,
        0 <= w0 <= INTERP_ONE,
        0 <= w1 <= INTERP_ONE,
    ensures
        s * w0 <= 0x4000000000000000_00000000,
        s * w0 * w1 <= 0x40000000000000000000000_000000000,
{
    assert(s * w0 <= 0x4000_0000_0000_0000 * 0x1_0000_0000) by (nonlinear_arith)
        requires
            0 <= s <= 0x4000_0000_0000_0000,
            0 <= w0 <= 0x1_0000_0000,
    ;
    assert(s * w0 * w1 <= 0x4000_0000_0000_0000 * 0x1_0000_0000 * 0x1_0000_0000)
        by (nonlinear_arith)
        requires
            0 <= s <= 0x4000_0000_0000_0000,
            0 <= w0 <= 0x1_0000_0000,
            0 <= w1 <= 0x1_0000_0000,
    ;
}

/// The queue after the pacing step: the front `elapsed_us * 44100 /
/// 1_000_000` samples (at most all of them) dropped, and the rest
/// truncated to `RETAINED_SAMPLES`.
pub open spec fn spec_after_discard<S>(q: Seq<S>, elapsed_us: u64) -> Seq<S> {
    let cut_raw = (elapsed_us * 44100) / 1_000_000;
    let cut = if cut_raw >= q.len() {
        q.len() as int
    } else {
        cut_raw as int
    };
    let rest = q.skip(cut);
    if rest.len() <= RETAINED_SAMPLES {
        rest
    } else {
        rest.take(RETAINED_SAMPLES as int)
    }
}

/// Smoothing law: feeding a constant magnitude moves every bin
/// monotonically toward that magnitude. The distance to the target
/// never grows, and shrinks strictly while it is at least 2 units
/// (at distance 1, integer rounding can hold the bin one unit below
/// the target).
pub proof fn lemma_smoothing_converges(v: int, m: int)
    requires
        0 <= v,
        0 <= m,
    ensures
        vstd::math::abs(spec_smooth(v, m) - m) <= vstd::math::abs(v - m),
        vstd::math::abs(v - m) >= 2 ==> vstd::math::abs(spec_smooth(v, m) - m) < vstd::math::abs(
            v - m,
        ),
        v == m ==> spec_smooth(v, m) == m,
{
}

/// A smoothed bin stays within the bounds of its inputs, so bins
/// never leave the accepted magnitude range.
pub proof fn lemma_smooth_bounded(v: int, m: int)
    requires
        0 <= v,
        0 <= m,
    ensures
        0 <= spec_smooth(v, m),
        spec_smooth(v, m) <= vstd::math::max(v, m),
{
}

} // verus!
