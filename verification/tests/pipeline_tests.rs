use core::time::Duration;
use player_core::adapter::{PullOutcome, StreamSourceAdapter};
use player_core::control::{ControlMessage, FFmpegDecoderHandle};
use player_core::meta::{AudioInfo, AudioQuality, SampleFormatKind, SampleSpec};
use player_core::adapter::{open_session, SessionError, SessionMetadata};
use player_core::session::{
    backpressure_decision, build_chunk, interleave_planar_frame, needs_resampler, plan_session,
    resample_output_len, resolve_resample_retry, stream_duration_us, total_duration_us,
    worker_apply_seek, worker_handle_outcome, worker_loop_head, BackpressureDecision,
    DecodeOutcome, WorkerPhase, WorkerStep, FFT_TARGET_RATE,
};
use player_core::shared::{AudioChunk, SharedPipelineState};
use player_core::spectrum::SpectrumState;

fn chunk(player: Vec<i64>, fft: Vec<i64>) -> AudioChunk<i64> {
    AudioChunk {
        player_samples: player,
        fft_samples: fft,
    }
}

fn fresh_adapter() -> StreamSourceAdapter<i64> {
    StreamSourceAdapter::new(
        2,
        44100,
        Some(180_000_000),
        AudioInfo::new_empty(),
        AudioQuality::new_empty(),
    )
}

#[test]
fn chunks_come_back_in_push_order() {
    let mut shared: SharedPipelineState<i64> = SharedPipelineState::new(64);
    for i in 0..10i64 {
        shared.push_chunk(chunk(vec![i], vec![]));
    }
    for i in 0..10i64 {
        let c = shared.pop_chunk().expect("a queued chunk");
        assert_eq!(c.player_samples, vec![i]);
    }
    assert!(shared.pop_chunk().is_none());
}

#[test]
fn queue_length_never_exceeds_capacity() {
    let mut shared: SharedPipelineState<i64> = SharedPipelineState::new(3);
    while !shared.is_full() {
        shared.push_chunk(chunk(vec![0], vec![]));
    }
    assert_eq!(shared.len(), 3);
    assert!(matches!(
        backpressure_decision(&shared),
        BackpressureDecision::Wait
    ));
    shared.set_stopping();
    assert!(matches!(
        backpressure_decision(&shared),
        BackpressureDecision::Stop
    ));
}

#[test]
fn backpressure_proceeds_with_room() {
    let mut shared: SharedPipelineState<i64> = SharedPipelineState::new(2);
    assert!(matches!(
        backpressure_decision(&shared),
        BackpressureDecision::Proceed
    ));
    shared.push_chunk(chunk(vec![1], vec![]));
    assert!(matches!(
        backpressure_decision(&shared),
        BackpressureDecision::Proceed
    ));
}

#[test]
fn seek_request_clears_local_buffer() {
    let mut shared: SharedPipelineState<i64> = SharedPipelineState::new(64);
    let mut spectrum: SpectrumState<i64> = SpectrumState::new();
    let mut handle = FFmpegDecoderHandle::new();
    let mut adapter = fresh_adapter();

    shared.push_chunk(chunk(vec![10, 11, 12], vec![]));
    // The first pull loads the chunk locally and plays its first sample.
    assert!(matches!(
        adapter.next_sample(&mut shared, &mut spectrum, true),
        PullOutcome::Sample(10)
    ));

    // The seek request must drop the two still-buffered pre-seek samples.
    adapter
        .request_seek(&mut handle, Duration::from_secs(30))
        .expect("worker is live");

    // Queue empty, end-of-stream not set: the adapter reports nothing to
    // play rather than any stale pre-seek sample.
    assert!(matches!(
        adapter.next_sample(&mut shared, &mut spectrum, true),
        PullOutcome::Waiting
    ));
    assert!(matches!(
        handle.poll(),
        Some(ControlMessage::Seek(d)) if d == Duration::from_secs(30)
    ));
}

#[test]
fn seek_fails_once_worker_is_gone() {
    let mut handle = FFmpegDecoderHandle::new();
    let mut adapter = fresh_adapter();
    handle.mark_closed();
    assert!(adapter
        .request_seek(&mut handle, Duration::from_secs(1))
        .is_err());
}

#[test]
fn seek_clears_queue_and_eof_within_one_iteration() {
    let mut shared: SharedPipelineState<i64> = SharedPipelineState::new(64);
    let mut spectrum: SpectrumState<i64> = SpectrumState::new();
    let mut handle = FFmpegDecoderHandle::new();
    let mut adapter = fresh_adapter();

    // A chunk decoded before the seek, and a stale end-of-stream flag.
    shared.push_chunk(chunk(vec![1, 2], vec![]));
    shared.set_eof();

    // Seek requested right after construction.
    adapter
        .request_seek(&mut handle, Duration::from_secs(30))
        .expect("worker is live");

    // The worker's next iteration polls the control channel and applies
    // the container seek.
    assert!(matches!(handle.poll(), Some(ControlMessage::Seek(_))));
    worker_apply_seek(&mut shared, true);
    assert_eq!(shared.len(), 0);
    assert!(!shared.eof_flag());

    // Everything pulled afterwards is post-seek output.
    shared.push_chunk(chunk(vec![77, 78], vec![]));
    assert!(matches!(
        adapter.next_sample(&mut shared, &mut spectrum, true),
        PullOutcome::Sample(77)
    ));
}

#[test]
fn failed_seek_changes_nothing() {
    let mut shared: SharedPipelineState<i64> = SharedPipelineState::new(64);
    shared.push_chunk(chunk(vec![5], vec![]));
    shared.set_eof();
    worker_apply_seek(&mut shared, false);
    assert_eq!(shared.len(), 1);
    assert!(shared.eof_flag());
}

#[test]
fn adapter_drains_queue_before_reporting_exhaustion() {
    let mut shared: SharedPipelineState<i64> = SharedPipelineState::new(64);
    let mut spectrum: SpectrumState<i64> = SpectrumState::new();
    let mut adapter = fresh_adapter();

    shared.push_chunk(chunk(vec![1, 2], vec![]));
    shared.push_chunk(chunk(vec![3], vec![]));
    // Decoder reached end of stream with a non-empty queue.
    let step = worker_handle_outcome(&mut shared, DecodeOutcome::<i64>::EndOfStream);
    assert_eq!(step, WorkerStep::Exit);
    assert!(shared.eof_flag());

    let mut played = Vec::new();
    let exhausted = loop {
        match adapter.next_sample(&mut shared, &mut spectrum, true) {
            PullOutcome::Sample(s) => played.push(s),
            PullOutcome::Waiting => continue,
            PullOutcome::Exhausted => break true,
        }
    };
    assert!(exhausted);
    // Every queued sample was played before exhaustion was reported.
    assert_eq!(played, vec![1, 2, 3]);
}

#[test]
fn adapter_reports_exhaustion_only_with_eof_or_stop() {
    let mut shared: SharedPipelineState<i64> = SharedPipelineState::new(64);
    let mut spectrum: SpectrumState<i64> = SpectrumState::new();
    let mut adapter = fresh_adapter();

    // Starved but not exhausted: the producer is still running.
    assert!(matches!(
        adapter.next_sample(&mut shared, &mut spectrum, true),
        PullOutcome::Waiting
    ));
    shared.set_eof();
    assert!(matches!(
        adapter.next_sample(&mut shared, &mut spectrum, true),
        PullOutcome::Exhausted
    ));
}

#[test]
fn adapter_feeds_spectrum_when_uncontended() {
    let mut shared: SharedPipelineState<i64> = SharedPipelineState::new(64);
    let mut spectrum: SpectrumState<i64> = SpectrumState::new();
    let mut adapter = fresh_adapter();

    shared.push_chunk(chunk(vec![1], vec![40, 41, 42]));
    adapter.next_sample(&mut shared, &mut spectrum, true);
    assert_eq!(spectrum.queue_len(), 3);

    // A contended engine skips the contribution instead of stalling.
    shared.push_chunk(chunk(vec![2], vec![43, 44]));
    adapter.next_sample(&mut shared, &mut spectrum, false);
    assert_eq!(spectrum.queue_len(), 3);
}

#[test]
fn passthrough_session_builds_no_resampler() {
    let source = SampleSpec {
        kind: SampleFormatKind::F32,
        planar: true,
        channels: 1,
        rate: FFT_TARGET_RATE,
    };
    let plan = plan_session(source, 1, FFT_TARGET_RATE);
    assert!(plan.player_resampler.is_none());
    assert!(plan.fft_resampler.is_none());
    assert!(!needs_resampler(source, source));
}

#[test]
fn passthrough_copies_samples_bit_identically() {
    // Mono passthrough: the plane is handed through unchanged. The
    // samples carry raw float bit patterns, so equality here is
    // bit-identity of the floats.
    let plane: Vec<u32> = [0.25f32, -1.5, 3.1415927, 0.0, -0.0]
        .iter()
        .map(|x| x.to_bits())
        .collect();
    let empty: Vec<u32> = Vec::new();
    let mut out: Vec<u32> = Vec::new();
    interleave_planar_frame(&mut out, &plane, &empty, 1, plane.len());
    assert_eq!(out, plane);
}

#[test]
fn stereo_interleave_alternates_planes() {
    let left = vec![1i64, 2, 3];
    let right = vec![4i64, 5, 6];
    let mut out = Vec::new();
    interleave_planar_frame(&mut out, &left, &right, 2, 3);
    assert_eq!(out, vec![1, 4, 2, 5, 3, 6]);
}

#[test]
fn session_with_rate_change_builds_player_resampler() {
    // A 2-channel 48 kHz planar-float source opened with target (2, 44100):
    // the playback path needs exactly one resampler, to the playback
    // target; the analysis path gets its own fixed mono converter.
    let source = SampleSpec {
        kind: SampleFormatKind::F32,
        planar: true,
        channels: 2,
        rate: 48000,
    };
    let plan = plan_session(source, 2, 44100);
    let target = plan.player_resampler.expect("rate differs");
    assert_eq!(target.channels, 2);
    assert_eq!(target.rate, 44100);
    assert!(matches!(target.kind, SampleFormatKind::F32));

    // The reported duration of the opened stream is non-zero.
    let duration = stream_duration_us(1_323_000, 1, 44100).expect("positive tick count");
    assert_eq!(duration, 30_000_000);

    // One decoded frame interleaves to an even sample count.
    let left = vec![10i64, 20, 30, 40];
    let right = vec![11i64, 21, 31, 41];
    let mut player = Vec::new();
    interleave_planar_frame(&mut player, &left, &right, 2, 4);
    let first = build_chunk(Some(player), Some(vec![0i64; 4]));
    assert_eq!(first.player_samples.len() % 2, 0);
    assert_eq!(first.player_samples.len(), 8);
}

#[test]
fn resample_output_len_rounds_up() {
    assert_eq!(resample_output_len(1024, 48000, 44100), 941);
    assert_eq!(resample_output_len(441, 44100, 48000), 480);
    assert_eq!(resample_output_len(0, 48000, 44100), 0);
    assert_eq!(resample_output_len(1, 48000, 96000), 2);
}

#[test]
fn failed_paths_contribute_empty_vectors() {
    let c = build_chunk::<i64>(None, Some(vec![7, 8]));
    assert!(c.player_samples.is_empty());
    assert_eq!(c.fft_samples, vec![7, 8]);
    let c2 = build_chunk::<i64>(Some(vec![1]), None);
    assert_eq!(c2.player_samples, vec![1]);
    assert!(c2.fft_samples.is_empty());
}

#[test]
fn worker_outcomes_drive_the_loop() {
    let mut shared: SharedPipelineState<i64> = SharedPipelineState::new(4);
    assert_eq!(
        worker_handle_outcome(&mut shared, DecodeOutcome::Frame(chunk(vec![1], vec![]))),
        WorkerStep::Continue
    );
    assert_eq!(shared.len(), 1);
    assert_eq!(
        worker_handle_outcome(&mut shared, DecodeOutcome::<i64>::NeedsPacket),
        WorkerStep::Continue
    );
    assert_eq!(shared.len(), 1);
    assert!(!shared.eof_flag());
    assert_eq!(
        worker_handle_outcome(&mut shared, DecodeOutcome::<i64>::Fatal),
        WorkerStep::Exit
    );
    assert!(shared.eof_flag());
}

#[test]
fn container_durations_are_reported_when_positive() {
    assert_eq!(total_duration_us(5_000_000), Some(5_000_000));
    assert_eq!(total_duration_us(0), None);
    assert_eq!(total_duration_us(-3), None);
    assert_eq!(stream_duration_us(0, 1, 44100), None);
    assert_eq!(stream_duration_us(100, 1, 10), Some(10_000_000));
}

#[test]
fn adapter_exposes_open_metadata() {
    let adapter = fresh_adapter();
    assert_eq!(adapter.channels(), 2);
    assert_eq!(adapter.sample_rate(), 44100);
    assert_eq!(adapter.total_duration_us(), Some(180_000_000));
    assert_eq!(adapter.audio_info().duration_us, 0);
    assert!(adapter.audio_quality().sample_rate.is_none());
}

#[test]
fn quality_snapshot_reflects_the_stream() {
    let q = AudioQuality::from_stream_params(SampleFormatKind::I16, 44100, 2, "flac".to_string());
    assert_eq!(q.sample_rate, Some(44100));
    assert_eq!(q.bits_per_sample, Some(16));
    assert_eq!(q.channels, Some(2));
    assert_eq!(q.sample_format, "i16");
    assert_eq!(q.codec, "flac");
    assert_eq!(q.bits_per_coded_sample, None);
    let q2 = AudioQuality::from_stream_params(SampleFormatKind::Unknown, 8000, 1, String::new());
    assert_eq!(q2.bits_per_sample, None);
    assert_eq!(q2.sample_format, "unknown");
    let copy = q.snapshot();
    assert_eq!(copy.sample_format, "i16");
}

#[test]
fn info_snapshot_copies_every_field() {
    let mut info = AudioInfo::new_empty();
    info.name = "Song".to_string();
    info.cover = Some(vec![1u8, 2, 3]);
    info.duration_us = 123;
    let copy = info.snapshot();
    assert_eq!(copy.name, "Song");
    assert_eq!(copy.cover, Some(vec![1u8, 2, 3]));
    assert_eq!(copy.duration_us, 123);
}

#[test]
fn loop_head_serves_seeks_before_decoding() {
    let mut shared: SharedPipelineState<i64> = SharedPipelineState::new(2);
    let mut handle = FFmpegDecoderHandle::new();
    handle.seek(Duration::from_secs(7)).unwrap();
    handle.seek(Duration::from_secs(9)).unwrap();

    // Queued seeks are performed oldest first, one per iteration, so
    // the newest one's effect is what survives.
    assert!(matches!(
        worker_loop_head(&shared, &mut handle),
        WorkerPhase::PerformSeek(d) if d == Duration::from_secs(7)
    ));
    assert!(matches!(
        worker_loop_head(&shared, &mut handle),
        WorkerPhase::PerformSeek(d) if d == Duration::from_secs(9)
    ));
    assert!(matches!(
        worker_loop_head(&shared, &mut handle),
        WorkerPhase::Decode
    ));

    shared.push_chunk(chunk(vec![1], vec![]));
    shared.push_chunk(chunk(vec![2], vec![]));
    assert!(matches!(
        worker_loop_head(&shared, &mut handle),
        WorkerPhase::Wait
    ));
    shared.set_stopping();
    assert!(matches!(
        worker_loop_head(&shared, &mut handle),
        WorkerPhase::Exit
    ));
}

#[test]
fn open_reports_metadata_or_the_setup_error() {
    let mut info = AudioInfo::new_empty();
    info.duration_us = 42;
    let metadata = SessionMetadata {
        total_duration_us: Some(42),
        audio_info: info,
        audio_quality: AudioQuality::new_empty(),
    };
    let (adapter, handle) = open_session::<i64>(Ok(metadata), 2, 48000).expect("setup succeeded");
    assert_eq!(adapter.channels(), 2);
    assert_eq!(adapter.sample_rate(), 48000);
    assert_eq!(adapter.total_duration_us(), Some(42));
    assert_eq!(adapter.audio_info().duration_us, 42);
    assert!(!handle.closed_flag());

    let failed = open_session::<i64>(Err(SessionError::NoAudioStream), 2, 48000);
    assert_eq!(failed.err(), Some(SessionError::NoAudioStream));
}

#[test]
fn resample_retry_prefers_the_first_success() {
    assert_eq!(
        resolve_resample_retry(Some(vec![1i64]), Some(vec![2i64])),
        Some(vec![1i64])
    );
    assert_eq!(
        resolve_resample_retry(None, Some(vec![2i64])),
        Some(vec![2i64])
    );
    assert_eq!(resolve_resample_retry::<i64>(None, None), None);
}

#[test]
fn tags_fill_the_info_snapshot() {
    let info = AudioInfo::from_tags(
        Some("Title".to_string()),
        None,
        Some("Album".to_string()),
        None,
        None,
        Some(vec![9u8]),
        "image/png".to_string(),
        7_000_000,
    );
    assert_eq!(info.name, "Title");
    assert_eq!(info.artist, "");
    assert_eq!(info.album, "Album");
    assert_eq!(info.cover, Some(vec![9u8]));
    assert_eq!(info.cover_media_type, "image/png");
    assert_eq!(info.duration_us, 7_000_000);
    assert_eq!(info.position_us, 0);
}

#[test]
fn fast_producer_never_overfills_the_queue() {
    // A producer that always has a frame ready against a consumer that
    // takes one chunk out for every four the producer offers.
    let mut shared: SharedPipelineState<i64> = SharedPipelineState::new(8);
    let mut produced: i64 = 0;
    for _ in 0..200 {
        for _ in 0..4 {
            match backpressure_decision(&shared) {
                BackpressureDecision::Proceed => {
                    shared.push_chunk(chunk(vec![produced], vec![]));
                    produced += 1;
                }
                BackpressureDecision::Wait => {}
                BackpressureDecision::Stop => unreachable!(),
            }
            assert!(shared.len() <= 8);
        }
        shared.pop_chunk();
        assert!(shared.len() <= 8);
    }
}
