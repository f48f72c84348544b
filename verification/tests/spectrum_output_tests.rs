use player_core::output::{
    clamp_volume, config_score, get_sample_format_quality_level, pick_sample_rate, plan_gains,
    ring_buffer_len, select_output_config, should_replace_resampler, AudioOutputMessage,
    GainPlan, OutputConfigRange, OutputSampleFormat, OutputThreadAction, OutputThreadState,
    SignalSpecModel, VOLUME_SCALE,
};
use player_core::spectrum::vec_interp;
use player_core::spectrum::{SpectrumState, FFT_WINDOW_SIZE, MAG_SCALE, RESULT_BINS};
use spectrum_analyzer::scaling::divide_by_N_sqrt;
use spectrum_analyzer::windows::hamming_window;
use spectrum_analyzer::{samples_fft_to_spectrum, FrequencyLimit};

#[test]
fn smoothing_converges_monotonically_to_constant_tone() {
    let mut engine: SpectrumState<f32> = SpectrumState::new();
    let target: u64 = 5 * MAG_SCALE;
    let mags = vec![target; RESULT_BINS];

    let mut prev_distance = target; // bins start at zero
    for _ in 0..40 {
        engine.apply_magnitudes(&mags);
        let v = engine.result_bin(17);
        let distance = if v > target { v - target } else { target - v };
        if prev_distance >= 2 {
            assert!(distance < prev_distance);
        } else {
            assert!(distance <= prev_distance);
        }
        prev_distance = distance;
    }
    assert!(prev_distance <= 1);
}

#[test]
fn analysis_needs_a_full_window() {
    let mut engine: SpectrumState<f32> = SpectrumState::new();
    engine.push_samples(&vec![0.5f32; FFT_WINDOW_SIZE - 1]);
    assert!(engine.analysis_window().is_none());
    engine.push_samples(&[0.5f32]);
    let window = engine.analysis_window().expect("a full window");
    assert_eq!(window.len(), FFT_WINDOW_SIZE);
    // Taking the window does not consume the queue.
    assert_eq!(engine.queue_len(), FFT_WINDOW_SIZE);
}

#[test]
fn real_fft_finds_the_tone_in_the_window() {
    let mut engine: SpectrumState<f32> = SpectrumState::new();
    let tone_hz = 441.0f32;
    let samples: Vec<f32> = (0..FFT_WINDOW_SIZE)
        .map(|n| (2.0 * std::f32::consts::PI * tone_hz * n as f32 / 44100.0).sin())
        .collect();
    engine.push_samples(&samples);

    let window = engine.analysis_window().expect("a full window");
    let windowed = hamming_window(&window);
    let spectrum = samples_fft_to_spectrum(
        &windowed,
        44100,
        FrequencyLimit::Range(80.0.into(), 2000.0.into()),
        Some(&divide_by_N_sqrt),
    )
    .expect("the analysis succeeds");
    let peak = spectrum.max().0.val();
    assert!((peak - tone_hz).abs() < 25.0, "peak at {peak} Hz");
}

#[test]
fn pacing_discards_played_samples_and_caps_the_queue() {
    let mut engine: SpectrumState<i64> = SpectrumState::new();
    engine.push_samples(&vec![1i64; 5000]);
    // 100 ms of wall time at 44100 Hz discards 4410 samples.
    engine.discard_consumed(100_000);
    assert_eq!(engine.queue_len(), 590);

    let mut engine2: SpectrumState<i64> = SpectrumState::new();
    engine2.push_samples(&vec![2i64; 20000]);
    engine2.discard_consumed(0);
    assert_eq!(engine2.queue_len(), 8192);
}

#[test]
fn clear_empties_only_the_queue() {
    let mut engine: SpectrumState<i64> = SpectrumState::new();
    engine.push_samples(&[1i64, 2, 3]);
    let mags = vec![4 * MAG_SCALE; RESULT_BINS];
    engine.apply_magnitudes(&mags);
    engine.clear();
    assert!(!engine.has_data());
    assert_eq!(engine.result_bin(0), 2 * MAG_SCALE);
}

#[test]
fn volume_clamps_into_range() {
    assert_eq!(clamp_volume(-5), 0);
    assert_eq!(clamp_volume(0), 0);
    assert_eq!(clamp_volume(123_456), 123_456);
    assert_eq!(clamp_volume(VOLUME_SCALE), VOLUME_SCALE);
    assert_eq!(clamp_volume(VOLUME_SCALE + 1), VOLUME_SCALE);
}

#[test]
fn fade_is_linear_between_the_two_volumes() {
    // Volume change 0.3 -> 0.8 across one callback of 256 stereo samples.
    let from = 300_000i64;
    let to = 800_000i64;
    let read_len = 256usize;
    let channels = 2usize;
    let frames = read_len / channels;

    let gains = match plan_gains(from, to, read_len, channels) {
        GainPlan::Fade(gains) => gains,
        _ => panic!("a changed volume fades"),
    };
    assert_eq!(gains.len(), frames);

    for (i, g) in gains.iter().enumerate() {
        let expected = 0.3f64 + 0.5 * (i + 1) as f64 / frames as f64;
        let got = *g as f64 / VOLUME_SCALE as f64;
        assert!((got - expected).abs() < 1e-6, "frame {i}: {got} vs {expected}");
    }
    // First frame closest to the old volume, last exactly the new one.
    assert_eq!(gains[frames - 1], to);
    for w in gains.windows(2) {
        assert!(w[0] <= w[1]);
    }
    assert!(gains[0] - from <= (to - from) / frames as i64 + 1);
}

#[test]
fn fade_descends_for_a_lower_target() {
    let gains = match plan_gains(800_000, 300_000, 64, 2) {
        GainPlan::Fade(gains) => gains,
        _ => panic!("a changed volume fades"),
    };
    assert_eq!(*gains.last().unwrap(), 300_000);
    for w in gains.windows(2) {
        assert!(w[0] >= w[1]);
    }
}

#[test]
fn unchanged_volume_needs_no_fade() {
    assert!(matches!(
        plan_gains(VOLUME_SCALE, VOLUME_SCALE, 128, 2),
        GainPlan::Unchanged
    ));
    assert!(matches!(
        plan_gains(500_000, 500_000, 128, 2),
        GainPlan::Constant(500_000)
    ));
}

#[test]
fn format_quality_levels_rank_wider_formats_higher() {
    assert_eq!(get_sample_format_quality_level(OutputSampleFormat::U8), 0);
    assert_eq!(get_sample_format_quality_level(OutputSampleFormat::I16), 1);
    assert_eq!(get_sample_format_quality_level(OutputSampleFormat::U32), 2);
    assert_eq!(get_sample_format_quality_level(OutputSampleFormat::I64), 3);
    assert_eq!(get_sample_format_quality_level(OutputSampleFormat::F32), 4);
    assert_eq!(get_sample_format_quality_level(OutputSampleFormat::F64), 5);
}

fn range(channels: u16, min: u32, max: u32, fmt: OutputSampleFormat) -> OutputConfigRange {
    OutputConfigRange {
        channels,
        min_sample_rate: min,
        max_sample_rate: max,
        sample_format: fmt,
    }
}

#[test]
fn preferred_rates_win_within_a_range() {
    assert_eq!(
        pick_sample_rate(&range(2, 8000, 96000, OutputSampleFormat::F32)),
        48000
    );
    assert_eq!(
        pick_sample_rate(&range(2, 8000, 44100, OutputSampleFormat::F32)),
        44100
    );
    assert_eq!(
        pick_sample_rate(&range(2, 8000, 22050, OutputSampleFormat::F32)),
        22050
    );
}

#[test]
fn config_selection_prefers_stereo_float_at_48k() {
    let configs = vec![
        range(8, 8000, 96000, OutputSampleFormat::F32), // too many channels
        range(1, 8000, 96000, OutputSampleFormat::F32),
        range(2, 8000, 96000, OutputSampleFormat::I16),
        range(2, 8000, 96000, OutputSampleFormat::F32),
        range(2, 8000, 16000, OutputSampleFormat::F64), // rate too low
    ];
    let best = select_output_config(&configs).expect("an eligible range");
    assert_eq!(best, 3);
    assert!(config_score(&configs[3]) > config_score(&configs[2]));
}

#[test]
fn config_selection_fails_without_eligible_ranges() {
    let configs = vec![
        range(8, 8000, 96000, OutputSampleFormat::F32),
        range(2, 8000, 16000, OutputSampleFormat::F64),
    ];
    assert!(select_output_config(&configs).is_none());
}

#[test]
fn later_equal_scores_win_the_selection() {
    let configs = vec![
        range(2, 8000, 96000, OutputSampleFormat::F32),
        range(2, 8000, 96000, OutputSampleFormat::F32),
    ];
    assert_eq!(select_output_config(&configs), Some(1));
}

#[test]
fn resampler_is_rebuilt_when_the_signal_changes() {
    let spec = SignalSpecModel {
        rate: 44100,
        channels: 2,
    };
    assert!(should_replace_resampler(false, 1024, 1024, spec, spec, 2, 2));
    assert!(!should_replace_resampler(true, 1024, 1024, spec, spec, 2, 2));
    assert!(should_replace_resampler(true, 512, 1024, spec, spec, 2, 2));
    let other = SignalSpecModel {
        rate: 48000,
        channels: 2,
    };
    assert!(should_replace_resampler(true, 1024, 1024, spec, other, 2, 2));
    assert!(should_replace_resampler(true, 1024, 1024, spec, spec, 1, 2));
}

#[test]
fn interp_empty_input_yields_silence() {
    let src: Vec<u64> = Vec::new();
    assert_eq!(vec_interp(&src, 4), vec![0u64, 0, 0, 0]);
}

#[test]
fn interp_matching_lengths_copy() {
    let src = vec![3u64, 1, 4, 1, 5];
    assert_eq!(vec_interp(&src, 5), src);
    assert_eq!(vec_interp(&src, 0), Vec::<u64>::new());
}

#[test]
fn interp_upsample_blends_neighbours() {
    let src = vec![100u64, 200];
    assert_eq!(vec_interp(&src, 4), vec![50, 150, 100, 100]);
}

#[test]
fn interp_downsample_keeps_the_first_bin() {
    let src = vec![100u64, 200];
    assert_eq!(vec_interp(&src, 1), vec![100]);
}

#[test]
fn ring_buffer_covers_the_requested_time() {
    assert_eq!(ring_buffer_len(100, 44100, 2), 8820);
    assert_eq!(ring_buffer_len(0, 44100, 2), 0);
    assert_eq!(ring_buffer_len(100, 48000, 1), 4800);
}

#[test]
fn output_thread_applies_messages() {
    let mut state = OutputThreadState::new();
    assert!(matches!(
        state.handle_message(AudioOutputMessage::ClearBuffer),
        OutputThreadAction::DrainPendingAudio
    ));
    assert!(matches!(
        state.handle_message(AudioOutputMessage::SetVolume(700_000)),
        OutputThreadAction::ApplyVolume { volume: 700_000 }
    ));
    let action = state.handle_message(AudioOutputMessage::ChangeOutput("card".to_string()));
    assert!(matches!(
        action,
        OutputThreadAction::RecreateOutput { ref device_name, ring_buf_size_ms: None }
            if device_name == "card"
    ));
    state.recreate_result("card".to_string(), None, true);

    let action = state.handle_message(AudioOutputMessage::ChangeRingBufSize(250));
    assert!(matches!(
        action,
        OutputThreadAction::RecreateOutput { ref device_name, ring_buf_size_ms: Some(250) }
            if device_name == "card"
    ));
    state.recreate_result("card".to_string(), Some(250), false);

    // A dead device falls back to the system default.
    let action = state.on_device_dead();
    assert!(matches!(
        action,
        OutputThreadAction::RecreateOutput { ref device_name, ring_buf_size_ms: None }
            if device_name.is_empty()
    ));
}
