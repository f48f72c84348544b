//! The streaming source adapter: the pull side of the pipeline. The
//! audio backend asks it for one sample at a time; it drains the
//! shared queue chunk by chunk, keeps a small local sample buffer,
//! hands analysis samples to the spectrum engine opportunistically,
//! and forwards seek requests through the control channel. In the
//! running system the shared state sits behind the pipeline mutex
//! and is borrowed here per call.
use core::time::Duration;
use crate::control::FFmpegDecoderHandle;
use crate::control::SeekSendError;
use crate::meta::AudioInfo;
use crate::meta::AudioQuality;
use crate::shared::AudioChunk;
use crate::shared::SharedPipelineState;
use crate::spectrum::SpectrumState;
use std::collections::VecDeque;
use vstd::prelude::*;

verus! {

/// Why opening a decoding session failed. These end the worker
/// before it ever becomes live and are reported once, through the
/// synchronous open handshake.
#[derive(Debug, Clone, Copy, PartialEq, Eq, Structural)]
pub enum SessionError {
    OpenFailed,
    NoAudioStream,
    DecoderBuildFailed,
    WorkerVanished,
}

/// What the worker reports back through the open handshake when its
/// setup succeeded.
pub struct SessionMetadata {
    pub total_duration_us: Option<u64>,
    pub audio_info: AudioInfo,
    pub audio_quality: AudioQuality,
}

/// What one pull from the adapter produced: a sample, a request to
/// wait and pull again (the producer is still running but nothing is
/// buffered right now), or the definitive end of the stream.
pub enum PullOutcome<S> {
    Sample(S),
    Waiting,
    Exhausted,
}

/// The pull-side adapter. Metadata is fixed at construction; only
/// the local sample buffer changes afterwards.
pub struct StreamSourceAdapter<S> {
    local_buffer: VecDeque<S>,
    channels: u16,
    sample_rate: u32,
    total_duration_us: Option<u64>,
    audio_info: AudioInfo,
    audio_quality: AudioQuality,
}

impl<S: Copy> StreamSourceAdapter<S> {
    /// The locally buffered playback samples, next to play first.
    pub closed spec fn local(self) -> Seq<S> {
        self.local_buffer@
    }

    /// The channel count of the playback stream.
    pub closed spec fn spec_channels(self) -> u16 {
        self.channels
    }

    /// The sample rate of the playback stream.
    pub closed spec fn spec_sample_rate(self) -> u32 {
        self.sample_rate
    }

    /// The total stream duration in microseconds, where known.
    pub closed spec fn spec_total_duration_us(self) -> Option<u64> {
        self.total_duration_us
    }

    /// The metadata snapshot captured at open time.
    pub closed spec fn spec_audio_info(self) -> AudioInfo {
        self.audio_info
    }

    /// The quality snapshot captured at open time.
    pub closed spec fn spec_audio_quality(self) -> AudioQuality {
        self.audio_quality
    }

    /// A fresh adapter around the metadata the open handshake
    /// reported; its local buffer starts empty.
    pub fn new(
        channels: u16,
        sample_rate: u32,
        total_duration_us: Option<u64>,
        audio_info: AudioInfo,
        audio_quality: AudioQuality,
    ) -> (a: Self)
        ensures
            a.local() == Seq::<S>::empty(),
            a.spec_channels() == channels,
            a.spec_sample_rate() == sample_rate,
            a.spec_total_duration_us() == total_duration_us,
            a.spec_audio_info() == audio_info,
            a.spec_audio_quality() == audio_quality,
    {
        StreamSourceAdapter {
            local_buffer: VecDeque::new(),
            channels,
            sample_rate,
            total_duration_us,
            audio_info,
            audio_quality,
        }
    }

    /// Pulls the next playback sample.
    ///
    /// With local samples buffered, the oldest is returned and
    /// nothing else changes. Otherwise one chunk is popped from the
    /// shared queue, its analysis samples go to the spectrum engine
    /// exactly when `spectrum_free` holds (the try-lock model: a
    /// contended engine skips this chunk's contribution rather than
    /// stall playback), and its playback samples refill the local
    /// buffer. The stream is exhausted exactly when nothing is
    /// buffered locally, the shared queue is empty, and the producer
    /// has set end-of-stream or tear-down — never while a queued
    /// chunk remains.
    pub fn next_sample(
        &mut self,
        shared: &mut SharedPipelineState<S>,
        spectrum: &mut SpectrumState<S>,
        spectrum_free: bool,
    ) -> (r: PullOutcome<S>)
        requires
            old(shared).wf(),
        ensures
            final(shared).wf(),
            final(shared).capacity() == old(shared).capacity(),
            final(shared).eof() == old(shared).eof(),
            final(shared).stopping() == old(shared).stopping(),
            final(self).spec_channels() == old(self).spec_channels(),
            final(self).spec_sample_rate() == old(self).spec_sample_rate(),
            final(self).spec_total_duration_us() == old(self).spec_total_duration_us(),
            final(self).spec_audio_info() == old(self).spec_audio_info(),
            final(self).spec_audio_quality() == old(self).spec_audio_quality(),
            (r is Exhausted) <==> (old(self).local().len() == 0 && old(shared).chunks().len() == 0
                && (old(shared).eof() || old(shared).stopping())),
            old(self).local().len() > 0 ==> r == PullOutcome::Sample(old(self).local()[0])
                && final(self).local() == old(self).local().drop_first()
                && final(shared).chunks() == old(shared).chunks()
                && *final(spectrum) == *old(spectrum),
            old(self).local().len() == 0 && old(shared).chunks().len() > 0 ==> {
                let chunk = old(shared).chunks()[0];
                &&& final(shared).chunks() == old(shared).chunks().drop_first()
                &&& (spectrum_free && chunk.fft_samples@.len() > 0 ==> final(spectrum).queue()
                    == old(spectrum).queue() + chunk.fft_samples@)
                &&& (!(spectrum_free && chunk.fft_samples@.len() > 0) ==> *final(spectrum) == *old(spectrum))
                &&& (chunk.player_samples@.len() > 0 ==> r == PullOutcome::Sample(
                    chunk.player_samples@[0],
                ) && final(self).local() == chunk.player_samples@.drop_first())
                &&& (chunk.player_samples@.len() == 0 ==> r is Waiting && final(self).local()
                    == Seq::<S>::empty())
            },
            old(self).local().len() == 0 && old(shared).chunks().len() == 0 ==> final(self).local()
                == old(self).local() && final(shared).chunks() == old(shared).chunks() && *final(spectrum) == *old(spectrum) && (!(old(shared).eof() || old(shared).stopping())
                ==> r is Waiting),
    {
        if let Some(sample) = self.local_buffer.pop_front() {
            return PullOutcome::Sample(sample);
        }

        let chunk = match shared.pop_chunk() {
            Some(chunk) => chunk,
            None => {
                if shared.eof_flag() || shared.stopping_flag() {
                    return PullOutcome::Exhausted;
                }
                return PullOutcome::Waiting;
            },
        };

        if spectrum_free && chunk.fft_samples.len() > 0 {
            spectrum.push_samples(chunk.fft_samples.as_slice());
        }

        let mut i: usize = 0;
        let player = chunk.player_samples;
        while i < player.len()
            invariant
                i <= player@.len(),
                self.local_buffer@ == player@.take(i as int),
                self.channels == old(self).channels,
                self.sample_rate == old(self).sample_rate,
                self.total_duration_us == old(self).total_duration_us,
                self.audio_info == old(self).audio_info,
                self.audio_quality == old(self).audio_quality,
            decreases player@.len() - i,
        {
            self.local_buffer.push_back(player[i]);
            i += 1;
        }
        proof {
            assert(player@.take(player@.len() as int) =~= player@);
        }

        match self.local_buffer.pop_front() {
            Some(sample) => PullOutcome::Sample(sample),
            None => PullOutcome::Waiting,
        }
    }

    /// Requests an asynchronous seek and clears the local buffer in
    /// the same call, so no sample buffered before the request can be
    /// played after it returns — even though the decoder completes
    /// the seek later. Fails, changing nothing locally, exactly when
    /// the decoder worker is gone.
    pub fn request_seek(&mut self, handle: &mut FFmpegDecoderHandle, pos: Duration) -> (r: Result<
        (),
        SeekSendError,
    >)
        ensures
            final(self).spec_channels() == old(self).spec_channels(),
            final(self).spec_sample_rate() == old(self).spec_sample_rate(),
            final(self).spec_total_duration_us() == old(self).spec_total_duration_us(),
            final(self).spec_audio_info() == old(self).spec_audio_info(),
            final(self).spec_audio_quality() == old(self).spec_audio_quality(),
            old(handle).closed() ==> r is Err && *final(handle) == *old(handle) && final(self).local() == old(self).local(),
            !old(handle).closed() ==> r is Ok && final(self).local() == Seq::<S>::empty() && final(handle).pending() == old(handle).pending().push(
                crate::control::ControlMessage::Seek(pos),
            ),
    {
        let sent = handle.seek(pos);
        if sent.is_err() {
            return Err(SeekSendError);
        }
        self.local_buffer.clear();
        Ok(())
    }

    /// Drops every locally buffered sample.
    pub fn clear_local(&mut self)
        ensures
            final(self).local() == Seq::<S>::empty(),
            final(self).spec_channels() == old(self).spec_channels(),
            final(self).spec_sample_rate() == old(self).spec_sample_rate(),
            final(self).spec_total_duration_us() == old(self).spec_total_duration_us(),
            final(self).spec_audio_info() == old(self).spec_audio_info(),
            final(self).spec_audio_quality() == old(self).spec_audio_quality(),
    {
        self.local_buffer.clear();
    }

    /// The channel count of the playback stream.
    pub fn channels(&self) -> (r: u16)
        ensures
            r == self.spec_channels(),
    {
        self.channels
    }

    /// The sample rate of the playback stream.
    pub fn sample_rate(&self) -> (r: u32)
        ensures
            r == self.spec_sample_rate(),
    {
        self.sample_rate
    }

    /// The total duration in microseconds, where the container
    /// reported one.
    pub fn total_duration_us(&self) -> (r: Option<u64>)
        ensures
            r == self.spec_total_duration_us(),
    {
        self.total_duration_us
    }

    /// The metadata snapshot captured at open time.
    pub fn audio_info(&self) -> (r: &AudioInfo)
        ensures
            r == self.spec_audio_info(),
    {
        &self.audio_info
    }

    /// The quality snapshot captured at open time.
    pub fn audio_quality(&self) -> (r: &AudioQuality)
        ensures
            r == self.spec_audio_quality(),
    {
        &self.audio_quality
    }
}

/// The synchronous open handshake, from the caller's side: the
/// worker thread has reported its setup result, and a successful
/// setup yields the pull source built around the reported metadata
/// together with a fresh control handle; a failed setup yields the
/// worker's error unchanged.
pub fn open_session<S: Copy>(
    init: Result<SessionMetadata, SessionError>,
    target_channels: u16,
    target_sample_rate: u32,
) -> (r: Result<(StreamSourceAdapter<S>, FFmpegDecoderHandle), SessionError>)
    ensures
        init is Err ==> r is Err && r->Err_0 == init->Err_0,
        init is Ok ==> r is Ok && {
            let adapter = r->Ok_0.0;
            let handle = r->Ok_0.1;
            &&& adapter.local() == Seq::<S>::empty()
            &&& adapter.spec_channels() == target_channels
            &&& adapter.spec_sample_rate() == target_sample_rate
            &&& adapter.spec_total_duration_us() == init->Ok_0.total_duration_us
            &&& adapter.spec_audio_info() == init->Ok_0.audio_info
            &&& adapter.spec_audio_quality() == init->Ok_0.audio_quality
            &&& handle.pending() == Seq::<crate::control::ControlMessage>::empty()
            &&& !handle.closed()
        },
{
    match init {
        Ok(metadata) => {
            let adapter = StreamSourceAdapter::new(
                target_channels,
                target_sample_rate,
                metadata.total_duration_us,
                metadata.audio_info,
                metadata.audio_quality,
            );
            Ok((adapter, FFmpegDecoderHandle::new()))
        },
        Err(e) => Err(e),
    }
}

/// The playback samples a chunk queue still holds, in play order.
pub open spec fn spec_flatten_player<S>(chunks: Seq<AudioChunk<S>>) -> Seq<S>
    decreases chunks.len(),
{
    if chunks.len() == 0 {
        Seq::<S>::empty()
    } else {
        chunks[0].player_samples@ + spec_flatten_player(chunks.drop_first())
    }
}

/// The stream the consumer has yet to play: the local buffer first,
/// then the queued chunks' playback samples in queue order.
pub open spec fn spec_remaining_stream<S>(local: Seq<S>, chunks: Seq<AudioChunk<S>>) -> Seq<S> {
    local + spec_flatten_player(chunks)
}

/// Sample-order law of the pull side: each of the three state
/// transitions `next_sample` performs (play from the local buffer,
/// refill from the next chunk and play, or skip an empty chunk)
/// returns exactly the head of the remaining stream and leaves
/// exactly its tail — so the adapter plays every queued sample, in
/// order, and never repeats one.
pub proof fn lemma_pull_preserves_stream_order<S>(local: Seq<S>, chunks: Seq<AudioChunk<S>>)
    ensures
        local.len() > 0 ==> spec_remaining_stream(local, chunks)[0] == local[0]
            && spec_remaining_stream(local.drop_first(), chunks) == spec_remaining_stream(
            local,
            chunks,
        ).drop_first(),
        local.len() == 0 && chunks.len() > 0 && chunks[0].player_samples@.len() > 0 ==> {
            &&& spec_remaining_stream(local, chunks)[0] == chunks[0].player_samples@[0]
            &&& spec_remaining_stream(
                chunks[0].player_samples@.drop_first(),
                chunks.drop_first(),
            ) == spec_remaining_stream(local, chunks).drop_first()
        },
        local.len() == 0 && chunks.len() > 0 && chunks[0].player_samples@.len() == 0
            ==> spec_remaining_stream(Seq::<S>::empty(), chunks.drop_first())
            == spec_remaining_stream(local, chunks),
{
    if local.len() > 0 {
        assert(spec_remaining_stream(local.drop_first(), chunks) =~= spec_remaining_stream(
            local,
            chunks,
        ).drop_first());
    } else if chunks.len() > 0 {
        let head = chunks[0].player_samples@;
        assert(spec_remaining_stream(local, chunks) =~= head + spec_flatten_player(
            chunks.drop_first(),
        ));
        if head.len() > 0 {
            assert(spec_remaining_stream(head.drop_first(), chunks.drop_first())
                =~= spec_remaining_stream(local, chunks).drop_first());
        } else {
            assert(spec_remaining_stream(Seq::<S>::empty(), chunks.drop_first())
                =~= spec_remaining_stream(local, chunks));
        }
    }
}

} // verus!
