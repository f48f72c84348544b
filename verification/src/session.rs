//! The decoder worker's decision logic: which resamplers a session
//! needs, how decoded planes are interleaved into a chunk, and what
//! each main-loop iteration does to the shared state for each decode
//! outcome. The container and codec calls themselves run outside the
//! worker model and feed it plain values.
use crate::control::ControlMessage;
use crate::control::FFmpegDecoderHandle;
use crate::meta::SampleFormatKind;
use crate::meta::SampleSpec;
use crate::shared::AudioChunk;
use crate::shared::SharedPipelineState;
use vstd::prelude::*;

verus! {

/// Fixed sample rate of the mono analysis stream, in Hz.
pub const FFT_TARGET_RATE: u32 = 44100;

/// The resampler plan of one decoding session: for each of the two
/// output paths, the target description if a resampler must be built,
/// or nothing when the source already matches the target exactly
/// (identity passthrough, preserved as the dominant-cost
/// optimization).
pub struct SessionPlan {
    pub player_resampler: Option<SampleSpec>,
    pub fft_resampler: Option<SampleSpec>,
}

/// The playback-path target description for a session.
pub open spec fn spec_player_target(target_channels: u16, target_sample_rate: u32) -> SampleSpec {
    SampleSpec {
        kind: SampleFormatKind::F32,
        planar: true,
        channels: target_channels,
        rate: target_sample_rate,
    }
}

/// The analysis-path target description: planar mono at the fixed
/// analysis rate.
pub open spec fn spec_fft_target() -> SampleSpec {
    SampleSpec { kind: SampleFormatKind::F32, planar: true, channels: 1, rate: FFT_TARGET_RATE }
}

/// Whether a conversion from `source` to `target` needs a resampler:
/// exactly when the two descriptions differ in any component.
pub fn needs_resampler(source: SampleSpec, target: SampleSpec) -> (r: bool)
    ensures
        r == (source != target),
{
    source.kind != target.kind || source.planar != target.planar || source.channels
        != target.channels || source.rate != target.rate
}

/// Plans a session's resamplers from the source description and the
/// playback target parameters: each path gets a resampler exactly
/// when the source differs from that path's target.
pub fn plan_session(source: SampleSpec, target_channels: u16, target_sample_rate: u32) -> (plan:
    SessionPlan)
    ensures
        source == spec_player_target(target_channels, target_sample_rate) <==> plan.player_resampler
            is None,
        plan.player_resampler is Some ==> plan.player_resampler->0 == spec_player_target(
            target_channels,
            target_sample_rate,
        ),
        source == spec_fft_target() <==> plan.fft_resampler is None,
        plan.fft_resampler is Some ==> plan.fft_resampler->0 == spec_fft_target(),
{
    let player_target = SampleSpec {
        kind: SampleFormatKind::F32,
        planar: true,
        channels: target_channels,
        rate: target_sample_rate,
    };
    let fft_target = SampleSpec {
        kind: SampleFormatKind::F32,
        planar: true,
        channels: 1,
        rate: FFT_TARGET_RATE,
    };
    let player_resampler = if needs_resampler(source, player_target) {
        Some(player_target)
    } else {
        None
    };
    let fft_resampler = if needs_resampler(source, fft_target) {
        Some(fft_target)
    } else {
        None
    };
    SessionPlan { player_resampler, fft_resampler }
}

/// How many output samples a resampler pass may produce for
/// `samples` input samples: the input count scaled by the rate ratio,
/// rounded up.
pub fn resample_output_len(samples: usize, src_rate: u32, dst_rate: u32) -> (r: usize)
    requires
        src_rate > 0,
        samples * dst_rate + src_rate <= usize::MAX,
    ensures
        r == (samples * dst_rate + src_rate - 1) / (src_rate as int),
{
    (samples * (dst_rate as usize) + (src_rate as usize) - 1) / (src_rate as usize)
}

/// The interleaving of the first `n` samples of two planes:
/// element `2*i` comes from the left plane, element `2*i + 1` from
/// the right.
pub open spec fn spec_interleave<S>(left: Seq<S>, right: Seq<S>, n: nat) -> Seq<S>
    recommends
        n <= left.len(),
        n <= right.len(),
{
    Seq::new(2 * n, |i: int| if i % 2 == 0 { left[i / 2] } else { right[i / 2] })
}

/// Extends `out` with the playback samples of one decoded frame: for
/// two or more channels the first two planes interleaved, otherwise
/// the first plane passed through unchanged (so a passthrough frame's
/// samples are copied exactly).
pub fn interleave_planar_frame<S: Copy>(
    out: &mut Vec<S>,
    plane0: &Vec<S>,
    plane1: &Vec<S>,
    channels: u16,
    samples_written: usize,
)
    requires
        samples_written <= plane0@.len(),
        channels >= 2 ==> samples_written <= plane1@.len(),
    ensures
        channels >= 2 ==> final(out)@ == old(out)@ + spec_interleave(
            plane0@,
            plane1@,
            samples_written as nat,
        ),
        channels < 2 ==> final(out)@ == old(out)@ + plane0@.take(samples_written as int),
{
    if samples_written == 0 {
        proof {
            assert(spec_interleave(plane0@, plane1@, 0) =~= Seq::<S>::empty());
            assert(old(out)@ + Seq::<S>::empty() =~= old(out)@);
            assert(plane0@.take(0) =~= Seq::<S>::empty());
        }
        return ;
    }
    if channels >= 2 {
        let mut i: usize = 0;
        while i < samples_written
            invariant
                i <= samples_written,
                samples_written <= plane0@.len(),
                samples_written <= plane1@.len(),
                out@ == old(out)@ + spec_interleave(plane0@, plane1@, i as nat),
            decreases samples_written - i,
        {
            out.push(plane0[i]);
            out.push(plane1[i]);
            proof {
                assert(out@ =~= old(out)@ + spec_interleave(plane0@, plane1@, (i + 1) as nat));
            }
            i += 1;
        }
    } else {
        let mut i: usize = 0;
        while i < samples_written
            invariant
                i <= samples_written,
                samples_written <= plane0@.len(),
                out@ == old(out)@ + plane0@.take(i as int),
            decreases samples_written - i,
        {
            out.push(plane0[i]);
            proof {
                assert(out@ =~= old(out)@ + plane0@.take(i + 1));
            }
            i += 1;
        }
    }
}

/// The per-path retry rule: a failed resampler run is retried once
/// after the context was rebuilt in place, and only then given up,
/// so a transient failure costs at most this frame's contribution on
/// this one path.
pub fn resolve_resample_retry<S>(first: Option<Vec<S>>, retry: Option<Vec<S>>) -> (r: Option<
    Vec<S>,
>)
    ensures
        first is Some ==> r == first,
        first is None ==> r == retry,
{
    match first {
        Some(v) => Some(v),
        None => retry,
    }
}

/// Builds one chunk from the two resampling paths' results. The
/// paths fail independently: a path that produced nothing (after its
/// rebuild-and-retry) contributes an empty sample vector, and the
/// other path's samples are kept unchanged.
pub fn build_chunk<S>(player: Option<Vec<S>>, fft: Option<Vec<S>>) -> (c: AudioChunk<S>)
    ensures
        player is Some ==> c.player_samples == player->0,
        player is None ==> c.player_samples@ == Seq::<S>::empty(),
        fft is Some ==> c.fft_samples == fft->0,
        fft is None ==> c.fft_samples@ == Seq::<S>::empty(),
{
    let player_samples = match player {
        Some(v) => v,
        None => Vec::new(),
    };
    let fft_samples = match fft {
        Some(v) => v,
        None => Vec::new(),
    };
    AudioChunk { player_samples, fft_samples }
}

/// What the worker does after inspecting the shared state at the top
/// of an iteration: push the next chunk, wait for the consumer to
/// drain, or exit because tear-down was requested.
pub enum BackpressureDecision {
    Proceed,
    Wait,
    Stop,
}

/// The backpressure rule of the worker's main loop: stop when
/// tear-down was requested; otherwise wait exactly while the queue is
/// at capacity.
pub fn backpressure_decision<S>(shared: &SharedPipelineState<S>) -> (r: BackpressureDecision)
    ensures
        shared.stopping() ==> r is Stop,
        !shared.stopping() && shared.chunks().len() >= shared.capacity() ==> r is Wait,
        !shared.stopping() && shared.chunks().len() < shared.capacity() ==> r is Proceed,
{
    if shared.stopping_flag() {
        BackpressureDecision::Stop
    } else if shared.is_full() {
        BackpressureDecision::Wait
    } else {
        BackpressureDecision::Proceed
    }
}

/// What one iteration of the worker's main loop does next, decided
/// at the top of the loop: perform the oldest pending seek, wait for
/// the consumer to drain the full queue, exit on tear-down, or
/// decode the next frame.
pub enum WorkerPhase {
    PerformSeek(core::time::Duration),
    Wait,
    Exit,
    Decode,
}

/// The head of the worker's main loop: the control channel is
/// polled first (one message per iteration, so queued seeks are
/// performed in order and the newest one's effect survives); with no
/// pending command the backpressure rule decides between waiting,
/// exiting and decoding.
pub fn worker_loop_head<S>(
    shared: &SharedPipelineState<S>,
    control: &mut FFmpegDecoderHandle,
) -> (r: WorkerPhase)
    ensures
        final(control).closed() == old(control).closed(),
        old(control).pending().len() > 0 ==> final(control).pending() == old(
            control,
        ).pending().drop_first() && r == WorkerPhase::PerformSeek(old(control).pending()[0]->0),
        old(control).pending().len() == 0 ==> final(control).pending() == old(control).pending()
            && (shared.stopping() ==> r is Exit) && (!shared.stopping() && shared.chunks().len()
            >= shared.capacity() ==> r is Wait) && (!shared.stopping() && shared.chunks().len()
            < shared.capacity() ==> r is Decode),
{
    match control.poll() {
        Some(ControlMessage::Seek(pos)) => WorkerPhase::PerformSeek(pos),
        None => {
            match backpressure_decision(shared) {
                BackpressureDecision::Stop => WorkerPhase::Exit,
                BackpressureDecision::Wait => WorkerPhase::Wait,
                BackpressureDecision::Proceed => WorkerPhase::Decode,
            }
        },
    }
}

/// One decode attempt's outcome, as handed to the worker: a finished
/// chunk, a request for more compressed input, the end of the stream,
/// or a fatal decode error.
pub enum DecodeOutcome<S> {
    Frame(AudioChunk<S>),
    NeedsPacket,
    EndOfStream,
    Fatal,
}

/// Whether the worker's main loop continues after an iteration.
#[derive(PartialEq, Eq, Structural, Debug, Clone, Copy)]
pub enum WorkerStep {
    Continue,
    Exit,
}

/// Applies one decode outcome to the shared state, as the worker's
/// main loop does: a finished chunk is queued; a request for more
/// input changes nothing (the caller feeds the next packet); end of
/// stream and fatal errors set the end-of-stream flag and end the
/// loop, so the consumer drains what is queued and then stops.
pub fn worker_handle_outcome<S>(
    shared: &mut SharedPipelineState<S>,
    outcome: DecodeOutcome<S>,
) -> (r: WorkerStep)
    requires
        old(shared).wf(),
        outcome is Frame ==> old(shared).chunks().len() < old(shared).capacity(),
    ensures
        final(shared).wf(),
        final(shared).capacity() == old(shared).capacity(),
        final(shared).stopping() == old(shared).stopping(),
        match outcome {
            DecodeOutcome::Frame(chunk) => final(shared).chunks() == old(shared).chunks().push(
                chunk,
            ) && final(shared).eof() == old(shared).eof() && r == WorkerStep::Continue,
            DecodeOutcome::NeedsPacket => final(shared).chunks() == old(shared).chunks() && final(shared).eof() == old(shared).eof() && r == WorkerStep::Continue,
            DecodeOutcome::EndOfStream => final(shared).chunks() == old(shared).chunks() && final(shared).eof() && r == WorkerStep::Exit,
            DecodeOutcome::Fatal => final(shared).chunks() == old(shared).chunks() && final(shared).eof() && r == WorkerStep::Exit,
        },
{
    match outcome {
        DecodeOutcome::Frame(chunk) => {
            shared.push_chunk(chunk);
            WorkerStep::Continue
        },
        DecodeOutcome::NeedsPacket => WorkerStep::Continue,
        DecodeOutcome::EndOfStream => {
            shared.set_eof();
            WorkerStep::Exit
        },
        DecodeOutcome::Fatal => {
            shared.set_eof();
            WorkerStep::Exit
        },
    }
}

/// Applies the result of a container seek to the shared state: on
/// success the stale queue is dropped and the end-of-stream flag
/// reset within the same iteration; a failed seek changes nothing and
/// playback continues from the current position.
pub fn worker_apply_seek<S>(shared: &mut SharedPipelineState<S>, seek_ok: bool)
    requires
        old(shared).wf(),
    ensures
        final(shared).wf(),
        final(shared).capacity() == old(shared).capacity(),
        final(shared).stopping() == old(shared).stopping(),
        seek_ok ==> final(shared).chunks() == Seq::<AudioChunk<S>>::empty() && !final(shared).eof(),
        !seek_ok ==> final(shared).chunks() == old(shared).chunks() && final(shared).eof() == old(shared).eof(),
{
    if seek_ok {
        shared.clear_for_seek();
    }
}

/// The raw container duration, as the open step reports it: known
/// exactly when the container reports a positive microsecond count.
pub fn total_duration_us(raw_us: i64) -> (r: Option<u64>)
    ensures
        raw_us > 0 ==> r == Some(raw_us as u64),
        raw_us <= 0 ==> r is None,
{
    if raw_us > 0 {
        Some(raw_us as u64)
    } else {
        None
    }
}

/// A stream duration in microseconds from a tick count and a time
/// base: `ticks * num / den` seconds. Computed exactly in wide
/// arithmetic; `None` when the stream does not report a positive
/// duration.
pub fn stream_duration_us(duration_ticks: i64, tb_num: u32, tb_den: u32) -> (r: Option<u64>)
    requires
        tb_den > 0,
        duration_ticks * tb_num * 1_000_000 / (tb_den as int) <= u64::MAX,
    ensures
        duration_ticks > 0 ==> r == Some(
            (duration_ticks * tb_num * 1_000_000 / (tb_den as int)) as u64,
        ),
        duration_ticks <= 0 ==> r is None,
{
    if duration_ticks > 0 {
        let t = duration_ticks as u128;
        let n = tb_num as u128;
        proof {
            assert(t * n * 1_000_000 < 0x1_0000_0000_0000_0000_0000_0000_0000_0000) by (nonlinear_arith)
                requires
                    t <= 0x7fff_ffff_ffff_ffff,
                    n <= 0xffff_ffff,
            ;
        }
        let wide: u128 = t * n * 1_000_000u128;
        let us = wide / (tb_den as u128);
        Some(us as u64)
    } else {
        None
    }
}

} // verus!
