//! Decisions of the audio output stage: which device configuration
//! to open, when the output-side resampler must be rebuilt, and the
//! per-frame gain schedule the realtime callback applies. Volumes
//! are fixed-point values with `VOLUME_SCALE` units per 1.0, fine
//! enough to resolve one millionth.
use vstd::arithmetic::div_mod::lemma_div_is_ordered;
use vstd::arithmetic::div_mod::lemma_div_multiples_vanish;
use vstd::arithmetic::mul::lemma_mul_inequality;
use vstd::prelude::*;

verus! {

/// Fixed-point scale of volume values: this many units stand for a
/// gain of 1.0.
pub const VOLUME_SCALE: i64 = 1_000_000;

/// Largest callback buffer the gain planner accepts; keeps the fade
/// arithmetic far from overflow.
pub const MAX_CALLBACK_LEN: usize = 100_000_000;

/// A requested volume clamped into the valid range.
pub open spec fn spec_clamp_volume(v: int) -> int {
    if v < 0 {
        0
    } else if v > VOLUME_SCALE {
        VOLUME_SCALE as int
    } else {
        v
    }
}

/// Clamps a requested volume into the valid range, as the set-volume
/// command does.
pub fn clamp_volume(v: i64) -> (r: i64)
    ensures
        r == spec_clamp_volume(v as int),
{
    if v < 0 {
        0
    } else if v > VOLUME_SCALE {
        VOLUME_SCALE
    } else {
        v
    }
}

/// The gain applied to frame `i` of a fade from `current` to
/// `target` across `n` frames: the straight line between the two,
/// sampled after each per-frame increment, rounded toward `current`.
pub open spec fn spec_fade_gain(current: int, target: int, n: int, i: int) -> int
    recommends
        0 < n,
        0 <= i < n,
{
    if target >= current {
        current + ((target - current) * (i + 1)) / n
    } else {
        current - ((current - target) * (i + 1)) / n
    }
}

/// What the realtime callback does about volume for one buffer:
/// leave the samples untouched (gain is exactly 1.0), scale them all
/// by one constant gain, or fade linearly across the buffer's
/// frames.
pub enum GainPlan {
    Unchanged,
    Constant(i64),
    Fade(Vec<i64>),
}

/// Plans the gains for one callback buffer of `read_len` samples in
/// frames of `channels` samples. An unchanged volume is applied as a
/// constant (or skipped entirely at gain 1.0); a changed volume
/// fades linearly from the current gain, frame by frame, reaching
/// the target exactly at the last frame.
pub fn plan_gains(current: i64, target: i64, read_len: usize, channels: usize) -> (plan: GainPlan)
    requires
        0 <= current <= VOLUME_SCALE,
        0 <= target <= VOLUME_SCALE,
        0 < channels,
        read_len <= MAX_CALLBACK_LEN,
    ensures
        current == target && target == VOLUME_SCALE ==> plan is Unchanged,
        current == target && target != VOLUME_SCALE ==> plan == GainPlan::Constant(target),
        current != target ==> plan is Fade && {
            let gains = plan->Fade_0;
            &&& gains@.len() == read_len / channels
            &&& forall|i: int|
                0 <= i < gains@.len() ==> #[trigger] gains@[i] == spec_fade_gain(
                    current as int,
                    target as int,
                    (read_len / channels) as int,
                    i,
                )
        },
{
    if current == target {
        if target == VOLUME_SCALE {
            return GainPlan::Unchanged;
        }
        return GainPlan::Constant(target);
    }
    let frame_count = read_len / channels;
    let mut gains: Vec<i64> = Vec::new();
    let n = frame_count as i64;
    let mut i: usize = 0;
    while i < frame_count
        invariant
            i <= frame_count,
            frame_count <= MAX_CALLBACK_LEN,
            n == frame_count as i64,
            0 < n || i == frame_count,
            0 <= current <= VOLUME_SCALE,
            0 <= target <= VOLUME_SCALE,
            current != target,
            gains@.len() == i,
            forall|k: int|
                0 <= k < i ==> #[trigger] gains@[k] == spec_fade_gain(
                    current as int,
                    target as int,
                    frame_count as int,
                    k,
                ),
        decreases frame_count - i,
    {
        let step = (i + 1) as i64;
        let g = if target >= current {
            proof {
                lemma_fade_term_bounds((target - current) as int, step as int, n as int);
            }
            current + ((target - current) * step) / n
        } else {
            proof {
                lemma_fade_term_bounds((current - target) as int, step as int, n as int);
            }
            current - ((current - target) * step) / n
        };
        gains.push(g);
        i += 1;
    }
    GainPlan::Fade(gains)
}

/// The scaled difference of one fade step stays within the overall
/// difference, so the fade arithmetic neither overflows nor leaves
/// the volume range.
proof fn lemma_fade_term_bounds(diff: int, step: int, n: int)
    requires
        0 <= diff <= VOLUME_SCALE,
        1 <= step <= n,
        n <= MAX_CALLBACK_LEN,
    ensures
        0 <= (diff * step) / n <= diff,
        diff * step <= VOLUME_SCALE * MAX_CALLBACK_LEN,
{
    lemma_mul_inequality(step, n, diff);
    assert(step * diff == diff * step) by (nonlinear_arith);
    assert(n * diff == diff * n) by (nonlinear_arith);
    lemma_div_is_ordered(0, diff * step, n);
    lemma_div_is_ordered(diff * step, diff * n, n);
    lemma_div_multiples_vanish(diff, n);
    lemma_mul_inequality(diff, VOLUME_SCALE as int, step);
    lemma_mul_inequality(step, MAX_CALLBACK_LEN as int, VOLUME_SCALE as int);
    assert(diff * step <= VOLUME_SCALE * step) by (nonlinear_arith)
        requires
            0 <= step && diff <= VOLUME_SCALE,
    ;
    assert(VOLUME_SCALE * step <= VOLUME_SCALE * MAX_CALLBACK_LEN) by (nonlinear_arith)
        requires
            step <= MAX_CALLBACK_LEN,
    ;
}

/// Fade law: across one callback buffer the planned gains move
/// monotonically from next to the starting volume to exactly the
/// target volume — the first frame lies closest to the old volume,
/// the last frame is the new volume, and no frame leaves the range
/// between the two.
pub proof fn lemma_fade_linear(current: int, target: int, n: int, i: int, j: int)
    requires
        0 <= current <= VOLUME_SCALE,
        0 <= target <= VOLUME_SCALE,
        0 < n <= MAX_CALLBACK_LEN,
        0 <= i <= j < n,
    ensures
        current <= target ==> current <= spec_fade_gain(current, target, n, i) <= spec_fade_gain(
            current,
            target,
            n,
            j,
        ) <= target,
        current >= target ==> current >= spec_fade_gain(current, target, n, i) >= spec_fade_gain(
            current,
            target,
            n,
            j,
        ) >= target,
        spec_fade_gain(current, target, n, n - 1) == target,
{
    let diff = if target >= current {
        target - current
    } else {
        current - target
    };
    lemma_fade_term_bounds(diff, i + 1, n);
    lemma_fade_term_bounds(diff, j + 1, n);
    lemma_fade_term_bounds(diff, n, n);
    lemma_mul_inequality(i + 1, j + 1, diff);
    assert((i + 1) * diff == diff * (i + 1)) by (nonlinear_arith);
    assert((j + 1) * diff == diff * (j + 1)) by (nonlinear_arith);
    lemma_div_is_ordered(diff * (i + 1), diff * (j + 1), n);
    lemma_div_multiples_vanish(diff, n);
    assert(n * diff == diff * n) by (nonlinear_arith);
}

/// The sample format an output device stream can be opened with.
#[derive(Clone, Copy, PartialEq, Eq, Structural, Debug)]
pub enum OutputSampleFormat {
    I8,
    I16,
    I32,
    I64,
    U8,
    U16,
    U32,
    U64,
    F32,
    F64,
}

/// One supported output configuration range, as the device reports
/// it: a channel count, a sample-rate range and a sample format.
#[derive(Clone, Copy, PartialEq, Eq, Structural, Debug)]
pub struct OutputConfigRange {
    pub channels: u16,
    pub min_sample_rate: u32,
    pub max_sample_rate: u32,
    pub sample_format: OutputSampleFormat,
}

/// The quality rank of an output sample format: wider and floating
/// formats rank higher.
pub open spec fn spec_format_quality_level(f: OutputSampleFormat) -> u8 {
    match f {
        OutputSampleFormat::I8 | OutputSampleFormat::U8 => 0u8,
        OutputSampleFormat::I16 | OutputSampleFormat::U16 => 1u8,
        OutputSampleFormat::I32 | OutputSampleFormat::U32 => 2u8,
        OutputSampleFormat::I64 | OutputSampleFormat::U64 => 3u8,
        OutputSampleFormat::F32 => 4u8,
        OutputSampleFormat::F64 => 5u8,
    }
}

/// The quality rank of an output sample format.
pub fn get_sample_format_quality_level(sample_format: OutputSampleFormat) -> (r: u8)
    ensures
        r == spec_format_quality_level(sample_format),
{
    match sample_format {
        OutputSampleFormat::I8 | OutputSampleFormat::U8 => 0,
        OutputSampleFormat::I16 | OutputSampleFormat::U16 => 1,
        OutputSampleFormat::I32 | OutputSampleFormat::U32 => 2,
        OutputSampleFormat::I64 | OutputSampleFormat::U64 => 3,
        OutputSampleFormat::F32 => 4,
        OutputSampleFormat::F64 => 5,
    }
}

/// The sample rate a configuration range is opened at: 48 kHz when
/// the range allows it, else 44.1 kHz when the range allows that,
/// else the range's maximum.
pub open spec fn spec_pick_sample_rate(c: OutputConfigRange) -> u32 {
    if c.min_sample_rate <= 48000 <= c.max_sample_rate {
        48000u32
    } else if c.min_sample_rate <= 44100 <= c.max_sample_rate {
        44100u32
    } else {
        c.max_sample_rate
    }
}

/// The sample rate a configuration range is opened at.
pub fn pick_sample_rate(c: &OutputConfigRange) -> (r: u32)
    ensures
        r == spec_pick_sample_rate(*c),
{
    if c.min_sample_rate <= 48000 && 48000 <= c.max_sample_rate {
        48000
    } else if c.min_sample_rate <= 44100 && 44100 <= c.max_sample_rate {
        44100
    } else {
        c.max_sample_rate
    }
}

/// Whether a configuration range may be opened at all: mono or
/// stereo, and a usable sample rate.
pub open spec fn spec_config_eligible(c: OutputConfigRange) -> bool {
    1 <= c.channels <= 2 && c.max_sample_rate >= 22050
}

/// The preference score of an eligible configuration: the standard
/// rates first, then stereo over mono, then the format rank.
pub open spec fn spec_config_score(c: OutputConfigRange) -> int {
    let rate = spec_pick_sample_rate(c);
    let rate_score: int = if rate == 48000 {
        100
    } else if rate == 44100 {
        90
    } else {
        0
    };
    let channel_score: int = if c.channels == 2 {
        20
    } else {
        10
    };
    rate_score + channel_score + spec_format_quality_level(c.sample_format) * 5
}

/// The preference score of a configuration.
pub fn config_score(c: &OutputConfigRange) -> (r: i32)
    ensures
        r == spec_config_score(*c),
{
    let rate = pick_sample_rate(c);
    let rate_score: i32 = if rate == 48000 {
        100
    } else if rate == 44100 {
        90
    } else {
        0
    };
    let channel_score: i32 = if c.channels == 2 {
        20
    } else {
        10
    };
    rate_score + channel_score + (get_sample_format_quality_level(c.sample_format) as i32) * 5
}

/// Picks the configuration to open the output stream with: among the
/// eligible ranges, one of maximal score, the last such in device
/// order; nothing when no range is eligible.
pub fn select_output_config(configs: &Vec<OutputConfigRange>) -> (r: Option<usize>)
    ensures
        r is None ==> forall|j: int|
            0 <= j < configs@.len() ==> !spec_config_eligible(#[trigger] configs@[j]),
        r is Some ==> {
            let i = r->0 as int;
            &&& 0 <= i < configs@.len()
            &&& spec_config_eligible(configs@[i])
            &&& forall|j: int|
                0 <= j < configs@.len() && spec_config_eligible(#[trigger] configs@[j])
                    ==> spec_config_score(configs@[j]) <= spec_config_score(configs@[i])
            &&& forall|j: int|
                i < j < configs@.len() && spec_config_eligible(#[trigger] configs@[j])
                    ==> spec_config_score(configs@[j]) < spec_config_score(configs@[i])
        },
{
    let mut best: Option<usize> = None;
    let mut best_score: i32 = 0;
    let mut j: usize = 0;
    while j < configs.len()
        invariant
            j <= configs@.len(),
            best is None ==> forall|k: int|
                0 <= k < j ==> !spec_config_eligible(#[trigger] configs@[k]),
            best is Some ==> {
                let i = best->0 as int;
                &&& 0 <= i < j
                &&& spec_config_eligible(configs@[i])
                &&& best_score == spec_config_score(configs@[i])
                &&& forall|k: int|
                    0 <= k < j && spec_config_eligible(#[trigger] configs@[k])
                        ==> spec_config_score(configs@[k]) <= spec_config_score(configs@[i])
                &&& forall|k: int|
                    i < k < j && spec_config_eligible(#[trigger] configs@[k])
                        ==> spec_config_score(configs@[k]) < spec_config_score(configs@[i])
            },
        decreases configs@.len() - j,
    {
        let c = configs[j];
        let eligible = 1 <= c.channels && c.channels <= 2 && c.max_sample_rate >= 22050;
        if eligible {
            let score = config_score(&c);
            match best {
                None => {
                    best = Some(j);
                    best_score = score;
                },
                Some(_) => {
                    if score >= best_score {
                        best = Some(j);
                        best_score = score;
                    }
                },
            }
        }
        j += 1;
    }
    best
}


/// The ring buffer length of an output stream: the requested
/// milliseconds of buffering at the stream's rate, in samples across
/// all channels.
pub fn ring_buffer_len(ring_buf_size_ms: usize, sample_rate: u32, channels: usize) -> (r: usize)
    requires
        ring_buf_size_ms * sample_rate <= usize::MAX,
        ring_buf_size_ms * sample_rate / 1000 * channels <= usize::MAX,
    ensures
        r == ring_buf_size_ms * sample_rate / 1000 * channels,
{
    ring_buf_size_ms * (sample_rate as usize) / 1000 * channels
}

/// A message for the output thread.
pub enum AudioOutputMessage {
    ClearBuffer,
    ChangeOutput(String),
    ChangeRingBufSize(usize),
    SetVolume(i64),
}

/// What the output thread must do after one message was handled.
pub enum OutputThreadAction {
    DrainPendingAudio,
    RecreateOutput { device_name: String, ring_buf_size_ms: Option<usize> },
    ApplyVolume { volume: i64 },
}

/// The output thread's own state: which device it drives, the
/// requested buffering, the volume to restore after a device change,
/// and whether a stream is currently open.
pub struct OutputThreadState {
    device_name: String,
    ring_buf_size_ms: Option<usize>,
    volume: i64,
    has_output: bool,
}

impl OutputThreadState {
    /// The name of the device the thread drives; empty for the
    /// system default.
    pub closed spec fn spec_device_name(self) -> String {
        self.device_name
    }

    /// The requested ring buffer size, where one was set.
    pub closed spec fn spec_ring_buf_size_ms(self) -> Option<usize> {
        self.ring_buf_size_ms
    }

    /// The volume every newly created stream is set to.
    pub closed spec fn spec_volume(self) -> i64 {
        self.volume
    }

    /// Whether an output stream is currently open.
    pub closed spec fn spec_has_output(self) -> bool {
        self.has_output
    }

    /// A fresh output thread: default device, default buffering,
    /// half volume, and the initial stream-open attempt still
    /// outstanding.
    pub fn new() -> (s: Self)
        ensures
            s.spec_device_name()@ == Seq::<char>::empty(),
            s.spec_ring_buf_size_ms() is None,
            s.spec_volume() == VOLUME_SCALE / 2,
            !s.spec_has_output(),
    {
        OutputThreadState {
            device_name: String::new(),
            ring_buf_size_ms: None,
            volume: VOLUME_SCALE / 2,
            has_output: false,
        }
    }

    /// Handles one message: a volume change is remembered and
    /// applied to the open stream; a buffer clear drains the queued
    /// audio; a device or buffer-size change asks the runtime to
    /// recreate the stream (the state changes only once the runtime
    /// reports the result).
    pub fn handle_message(&mut self, msg: AudioOutputMessage) -> (r: OutputThreadAction)
        ensures
            match msg {
                AudioOutputMessage::ClearBuffer => r is DrainPendingAudio && *final(self) == *old(self),
                AudioOutputMessage::ChangeOutput(name) => *final(self) == *old(self) && r
                    == (OutputThreadAction::RecreateOutput {
                    device_name: name,
                    ring_buf_size_ms: old(self).spec_ring_buf_size_ms(),
                }),
                AudioOutputMessage::ChangeRingBufSize(size) => *final(self) == *old(self) && r
                    == (OutputThreadAction::RecreateOutput {
                    device_name: old(self).spec_device_name(),
                    ring_buf_size_ms: Some(size),
                }),
                AudioOutputMessage::SetVolume(volume) => final(self).spec_volume() == volume
                    && final(self).spec_device_name() == old(self).spec_device_name() && final(self).spec_ring_buf_size_ms() == old(self).spec_ring_buf_size_ms()
                    && final(self).spec_has_output() == old(self).spec_has_output() && r
                    == (OutputThreadAction::ApplyVolume { volume: volume }),
            },
    {
        match msg {
            AudioOutputMessage::ClearBuffer => OutputThreadAction::DrainPendingAudio,
            AudioOutputMessage::ChangeOutput(name) => OutputThreadAction::RecreateOutput {
                device_name: name,
                ring_buf_size_ms: self.ring_buf_size_ms,
            },
            AudioOutputMessage::ChangeRingBufSize(size) => OutputThreadAction::RecreateOutput {
                device_name: self.device_name.clone(),
                ring_buf_size_ms: Some(size),
            },
            AudioOutputMessage::SetVolume(volume) => {
                self.volume = volume;
                OutputThreadAction::ApplyVolume { volume }
            },
        }
    }

    /// The runtime reports how recreating the stream went: on
    /// success the new device name and buffering are committed and
    /// the stream is open (at the remembered volume); on failure no
    /// stream is open until the next attempt.
    pub fn recreate_result(
        &mut self,
        device_name: String,
        ring_buf_size_ms: Option<usize>,
        ok: bool,
    )
        ensures
            final(self).spec_volume() == old(self).spec_volume(),
            final(self).spec_has_output() == ok,
            ok ==> final(self).spec_device_name() == device_name && final(self).spec_ring_buf_size_ms() == ring_buf_size_ms,
            !ok ==> final(self).spec_device_name() == old(self).spec_device_name() && final(self).spec_ring_buf_size_ms() == old(self).spec_ring_buf_size_ms(),
    {
        if ok {
            self.device_name = device_name;
            self.ring_buf_size_ms = ring_buf_size_ms;
            self.has_output = true;
        } else {
            self.has_output = false;
        }
    }

    /// The open stream reported a dead device: the thread falls back
    /// to the system default and asks for a fresh stream.
    pub fn on_device_dead(&mut self) -> (r: OutputThreadAction)
        ensures
            final(self).spec_device_name()@ == Seq::<char>::empty(),
            !final(self).spec_has_output(),
            final(self).spec_volume() == old(self).spec_volume(),
            final(self).spec_ring_buf_size_ms() == old(self).spec_ring_buf_size_ms(),
            r == (OutputThreadAction::RecreateOutput {
                device_name: final(self).spec_device_name(),
                ring_buf_size_ms: None,
            }),
    {
        self.device_name = String::new();
        self.has_output = false;
        OutputThreadAction::RecreateOutput {
            device_name: self.device_name.clone(),
            ring_buf_size_ms: None,
        }
    }
}

/// The signal description the output resampler was built for.
#[derive(Clone, Copy, PartialEq, Eq, Structural, Debug)]
pub struct SignalSpecModel {
    pub rate: u32,
    pub channels: u16,
}

/// Whether the output stage must rebuild its resampler before
/// writing one decoded buffer: when none exists yet, or the buffer's
/// capacity or signal description or the output channel count no
/// longer match what the resampler was built for.
pub fn should_replace_resampler(
    have_resampler: bool,
    resampler_duration: usize,
    decoded_capacity: usize,
    resampler_spec: SignalSpecModel,
    decoded_spec: SignalSpecModel,
    resampler_target_channels: usize,
    output_channels: u16,
) -> (r: bool)
    ensures
        r == (!have_resampler || resampler_duration != decoded_capacity || resampler_spec
            != decoded_spec || resampler_target_channels != output_channels as usize),
{
    !have_resampler || resampler_duration != decoded_capacity || resampler_spec.rate
        != decoded_spec.rate || resampler_spec.channels != decoded_spec.channels
        || resampler_target_channels != (output_channels as usize)
}

} // verus!
