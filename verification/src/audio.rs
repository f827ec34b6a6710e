//! Audio codec configuration and sample sources for the CoreS3.
//!
//! The CoreS3 has an ES7210 microphone ADC and an AW88298 speaker amplifier.
//! This module plans their register configuration, describes the expected I2S
//! format, and provides small sample sources for raw PCM, tones and simple
//! text prompts. I2S clocks and DMA stay with the HAL and the application.

use vstd::prelude::*;
use vstd::string::StringSliceAdditionalSpecFns;

use crate::bus::RegisterStep;
use crate::devices;

verus! {

/// 64-entry Q15 sine table, one full period.
pub open spec fn spec_sine_table() -> Seq<int> {
    seq![
        0int, 3212, 6393, 9512, 12539, 15446, 18205, 20787, 23170, 25329, 27245, 28898, 30273,
        31357, 32138, 32610, 32767, 32610, 32138, 31357, 30273, 28898, 27245, 25329, 23170, 20787,
        18205, 15446, 12539, 9512, 6393, 3212, 0, -3212, -6393, -9512, -12539, -15446, -18205,
        -20787, -23170, -25329, -27245, -28898, -30273, -31357, -32138, -32610, -32767, -32610,
        -32138, -31357, -30273, -28898, -27245, -25329, -23170, -20787, -18205, -15446, -12539,
        -9512, -6393, -3212,
    ]
}

fn sine_q15(index: usize) -> (r: i16)
    requires
        index < 64,
    ensures
        r == spec_sine_table()[index as int],
        -32767 <= r <= 32767,
{
    let table: [i16; 64] = [
        0, 3212, 6393, 9512, 12539, 15446, 18205, 20787, 23170, 25329, 27245, 28898, 30273, 31357,
        32138, 32610, 32767, 32610, 32138, 31357, 30273, 28898, 27245, 25329, 23170, 20787, 18205,
        15446, 12539, 9512, 6393, 3212, 0, -3212, -6393, -9512, -12539, -15446, -18205, -20787,
        -23170, -25329, -27245, -28898, -30273, -31357, -32138, -32610, -32767, -32610, -32138,
        -31357, -30273, -28898, -27245, -25329, -23170, -20787, -18205, -15446, -12539, -9512,
        -6393, -3212,
    ];
    assert(table@.map_values(|x: i16| x as int) =~= spec_sine_table());
    assert(table@.map_values(|x: i16| x as int)[index as int] == table@[index as int] as int);
    table[index]
}

/// Common sample rates of the audio helpers.
#[derive(Clone, Copy, Debug, PartialEq, Eq, Structural)]
pub enum SampleRate {
    /// 8 kHz, for very small voice prompts.
    Rate8K,
    /// 16 kHz, the default low-bandwidth voice and microphone rate.
    Rate16K,
    /// 24 kHz.
    Rate24K,
    /// 32 kHz.
    Rate32K,
    /// 44.1 kHz.
    Rate44K1,
    /// 48 kHz.
    Rate48K,
}

/// I2S sample width.
#[derive(Clone, Copy, Debug, PartialEq, Eq, Structural)]
pub enum SampleWidth {
    Bits16,
    Bits24,
    Bits32,
}

/// I2S frame alignment.
#[derive(Clone, Copy, Debug, PartialEq, Eq, Structural)]
pub enum I2sMode {
    /// Standard Philips I2S timing.
    Standard,
    /// Left-justified timing.
    LeftJustified,
}

/// Board-level I2S format of the ES7210/AW88298 path.
#[derive(Clone, Copy, Debug, PartialEq, Eq, Structural)]
pub struct I2sAudioFormat {
    pub sample_rate: SampleRate,
    pub sample_width: SampleWidth,
    pub mode: I2sMode,
    /// Microphone slots expected from the ES7210.
    pub microphone_channels: u8,
    /// Speaker slots expected by the playback path.
    pub speaker_channels: u8,
}

/// 16 kHz, 16-bit standard I2S, two microphone slots, one speaker slot.
pub open spec fn spec_default_format() -> I2sAudioFormat {
    I2sAudioFormat {
        sample_rate: SampleRate::Rate16K,
        sample_width: SampleWidth::Bits16,
        mode: I2sMode::Standard,
        microphone_channels: 2,
        speaker_channels: 1,
    }
}

impl Default for I2sAudioFormat {
    fn default() -> (r: Self)
        ensures
            r == spec_default_format(),
    {
        I2sAudioFormat {
            sample_rate: SampleRate::Rate16K,
            sample_width: SampleWidth::Bits16,
            mode: I2sMode::Standard,
            microphone_channels: 2,
            speaker_channels: 1,
        }
    }
}

pub open spec fn spec_sample_rate_hz(rate: SampleRate) -> u32 {
    match rate {
        SampleRate::Rate8K => 8_000,
        SampleRate::Rate16K => 16_000,
        SampleRate::Rate24K => 24_000,
        SampleRate::Rate32K => 32_000,
        SampleRate::Rate44K1 => 44_100,
        SampleRate::Rate48K => 48_000,
    }
}

impl I2sAudioFormat {
    /// The sample rate in hertz.
    pub fn sample_rate_hz(self) -> (r: u32)
        ensures
            r == spec_sample_rate_hz(self.sample_rate),
    {
        match self.sample_rate {
            SampleRate::Rate8K => 8_000,
            SampleRate::Rate16K => 16_000,
            SampleRate::Rate24K => 24_000,
            SampleRate::Rate32K => 32_000,
            SampleRate::Rate44K1 => 44_100,
            SampleRate::Rate48K => 48_000,
        }
    }
}

/// ES7210 microphone ADC configuration.
#[derive(Clone, Copy, Debug, PartialEq, Eq, Structural)]
pub struct MicrophoneConfig {
    pub format: I2sAudioFormat,
    /// Requested gain in dB; values above 37 are limited to 37.
    pub gain_db: u8,
}

impl Default for MicrophoneConfig {
    fn default() -> (r: Self)
        ensures
            r == (MicrophoneConfig { format: spec_default_format(), gain_db: 24 }),
    {
        MicrophoneConfig { format: I2sAudioFormat::default(), gain_db: 24 }
    }
}

/// AW88298 speaker amplifier configuration.
#[derive(Clone, Copy, Debug, PartialEq, Eq, Structural)]
pub struct SpeakerConfig {
    pub format: I2sAudioFormat,
    /// Whether the amplifier is enabled at initialization.
    pub enabled: bool,
    /// Volume; values above 100 are limited to 100.
    pub volume: u8,
}

pub open spec fn spec_default_speaker() -> SpeakerConfig {
    SpeakerConfig { format: spec_default_format(), enabled: true, volume: 100 }
}

impl Default for SpeakerConfig {
    fn default() -> (r: Self)
        ensures
            r == spec_default_speaker(),
    {
        SpeakerConfig { format: I2sAudioFormat::default(), enabled: true, volume: 100 }
    }
}

/// Pull-based mono source of signed 16-bit PCM samples.
pub trait AudioSource {
    /// The next sample, or `None` once a finite source is exhausted.
    fn next_sample(&mut self) -> Option<i16>;
}

/// Raw PCM source over a borrowed slice of samples.
pub struct RawPcm<'a> {
    samples: &'a [i16],
    position: usize,
    repeat: bool,
}

impl<'a> RawPcm<'a> {
    pub closed spec fn spec_samples(&self) -> Seq<i16> {
        self.samples@
    }

    pub closed spec fn spec_position(&self) -> usize {
        self.position
    }

    pub closed spec fn spec_repeat(&self) -> bool {
        self.repeat
    }

    /// A finite source that emits each sample once.
    pub fn once(samples: &'a [i16]) -> (r: Self)
        ensures
            r.spec_samples() == samples@,
            r.spec_position() == 0,
            !r.spec_repeat(),
    {
        RawPcm { samples, position: 0, repeat: false }
    }

    /// A source that loops over `samples` forever; an empty slice still
    /// gives `None`.
    pub fn repeating(samples: &'a [i16]) -> (r: Self)
        ensures
            r.spec_samples() == samples@,
            r.spec_position() == 0,
            r.spec_repeat(),
    {
        RawPcm { samples, position: 0, repeat: true }
    }
}

/// One `next_sample` call of a PCM source: the sample returned and the
/// position afterwards.
pub open spec fn pcm_step(samples: Seq<i16>, pos: int, repeat: bool) -> (Option<i16>, int) {
    if samples.len() == 0 {
        (None, pos)
    } else if pos < samples.len() {
        (Some(samples[pos]), pos + 1)
    } else if repeat {
        (Some(samples[0]), 1)
    } else {
        (None, pos)
    }
}

/// What `count` calls of `next_sample` return, starting at position `pos`.
pub open spec fn pcm_outputs(samples: Seq<i16>, pos: int, repeat: bool, count: nat) -> Seq<
    Option<i16>,
>
    decreases count,
{
    if count == 0 {
        Seq::empty()
    } else {
        let (r, next) = pcm_step(samples, pos, repeat);
        seq![r] + pcm_outputs(samples, next, repeat, (count - 1) as nat)
    }
}

proof fn lemma_outputs_len(samples: Seq<i16>, pos: int, repeat: bool, count: nat)
    ensures
        pcm_outputs(samples, pos, repeat, count).len() == count,
    decreases count,
{
    if count > 0 {
        let (r, next) = pcm_step(samples, pos, repeat);
        lemma_outputs_len(samples, next, repeat, (count - 1) as nat);
    }
}

/// The first output is the first step's sample; the rest are the outputs
/// from the position after it.
proof fn lemma_outputs_index(samples: Seq<i16>, pos: int, repeat: bool, count: nat, m: int)
    requires
        0 <= m < count,
    ensures
        m == 0 ==> pcm_outputs(samples, pos, repeat, count)[m] == pcm_step(samples, pos, repeat).0,
        m > 0 ==> pcm_outputs(samples, pos, repeat, count)[m] == pcm_outputs(
            samples,
            pcm_step(samples, pos, repeat).1,
            repeat,
            (count - 1) as nat,
        )[m - 1],
{
    let (r, next) = pcm_step(samples, pos, repeat);
    lemma_outputs_len(samples, next, repeat, (count - 1) as nat);
}

proof fn lemma_once_from(samples: Seq<i16>, pos: int, count: nat, m: int)
    requires
        0 <= pos,
        0 <= m < count,
    ensures
        pcm_outputs(samples, pos, false, count)[m] == (if pos + m < samples.len() {
            Some(samples[pos + m])
        } else {
            None::<i16>
        }),
    decreases count,
{
    let (r, next) = pcm_step(samples, pos, false);
    lemma_outputs_index(samples, pos, false, count, m);
    if m > 0 {
        lemma_once_from(samples, next, (count - 1) as nat, m - 1);
    }
}

/// A source made by `once` over `n` samples returns them in order on its
/// first `n` calls and `None` on every later call.
pub proof fn lemma_once_run(samples: Seq<i16>, count: nat)
    ensures
        forall|m: int|
            0 <= m < count ==> #[trigger] pcm_outputs(samples, 0, false, count)[m] == (if m
                < samples.len() {
                Some(samples[m])
            } else {
                None::<i16>
            }),
{
    assert forall|m: int| 0 <= m < count implies #[trigger] pcm_outputs(samples, 0, false, count)[m]
        == (if m < samples.len() { Some(samples[m]) } else { None::<i16> }) by {
        lemma_once_from(samples, 0, count, m);
    }
}

proof fn lemma_repeating_from(samples: Seq<i16>, pos: int, count: nat, m: int)
    requires
        samples.len() > 0,
        0 <= pos <= samples.len(),
        0 <= m < count,
    ensures
        pcm_outputs(samples, pos, true, count)[m] == Some(samples[(pos + m) % samples.len() as int]),
    decreases count,
{
    let n = samples.len() as int;
    let (r, next) = pcm_step(samples, pos, true);
    lemma_outputs_index(samples, pos, true, count, m);
    if m == 0 {
        if pos == n {
            vstd::arithmetic::div_mod::lemma_mod_self_0(n);
        } else {
            vstd::arithmetic::div_mod::lemma_small_mod(pos as nat, n as nat);
        }
    } else {
        lemma_repeating_from(samples, next, (count - 1) as nat, m - 1);
        if pos == n {
            assert((n + m) % n == (1 + (m - 1)) % n) by {
                vstd::arithmetic::div_mod::lemma_mod_add_multiples_vanish(m, n);
            }
        }
    }
}

/// A source made by `repeating` over a non-empty slice returns sample
/// `k mod n` on its `k`-th call and never `None`; over an empty slice it
/// returns `None` on every call.
pub proof fn lemma_repeating_run(samples: Seq<i16>, count: nat)
    ensures
        samples.len() > 0 ==> forall|m: int|
            0 <= m < count ==> #[trigger] pcm_outputs(samples, 0, true, count)[m] == Some(
                samples[m % samples.len() as int],
            ),
        samples.len() == 0 ==> forall|m: int|
            0 <= m < count ==> #[trigger] pcm_outputs(samples, 0, true, count)[m] == None::<i16>,
{
    assert forall|m: int| 0 <= m < count implies #[trigger] pcm_outputs(samples, 0, true, count)[m]
        == (if samples.len() > 0 { Some(samples[m % samples.len() as int]) } else { None::<i16> }) by {
        if samples.len() > 0 {
            lemma_repeating_from(samples, 0, count, m);
        } else {
            lemma_empty_run(samples, 0, count, m);
        }
    }
}

proof fn lemma_empty_run(samples: Seq<i16>, pos: int, count: nat, m: int)
    requires
        samples.len() == 0,
        0 <= m < count,
    ensures
        pcm_outputs(samples, pos, true, count)[m] == None::<i16>,
    decreases count,
{
    lemma_outputs_index(samples, pos, true, count, m);
    if m > 0 {
        lemma_empty_run(samples, pos, (count - 1) as nat, m - 1);
    }
}

impl<'a> AudioSource for RawPcm<'a> {
    /// The sample at the current position; past the end, a repeating source
    /// starts over and a finite one gives `None`.
    fn next_sample(&mut self) -> (r: Option<i16>)
        ensures
            final(self).spec_samples() == old(self).spec_samples(),
            final(self).spec_repeat() == old(self).spec_repeat(),
            (r, final(self).spec_position() as int) == pcm_step(
                old(self).spec_samples(),
                old(self).spec_position() as int,
                old(self).spec_repeat(),
            ),
            ({
                let samples = old(self).spec_samples();
                let pos = old(self).spec_position();
                if samples.len() == 0 {
                    r is None && final(self).spec_position() == pos
                } else if pos < samples.len() {
                    r == Some(samples[pos as int]) && final(self).spec_position() == pos + 1
                } else if old(self).spec_repeat() {
                    r == Some(samples[0]) && final(self).spec_position() == 1
                } else {
                    r is None && final(self).spec_position() == pos
                }
            }),
    {
        if self.samples.len() == 0 {
            return None;
        }
        if self.position >= self.samples.len() {
            if self.repeat {
                self.position = 0;
            } else {
                return None;
            }
        }
        let sample = self.samples[self.position];
        self.position = self.position + 1;
        Some(sample)
    }
}

/// The sample a tone emits at `phase` (16.16 fixed point, in table steps):
/// the table entry at the phase's integer part, scaled by the amplitude.
pub open spec fn spec_tone_sample(phase: int, amplitude: i16) -> i16 {
    trunc_div(spec_sine_table()[(phase / 1024) % 64] * amplitude, 32767) as i16
}

/// Division rounded toward zero, for a positive divisor.
pub open spec fn trunc_div(a: int, b: int) -> int {
    if a >= 0 {
        a / b
    } else {
        -((-a) / b)
    }
}

/// The samples of a tone that starts at `phase` and advances by `step`
/// (modulo 2^32) per sample, for `remaining` samples.
pub open spec fn tone_stream(phase: u32, step: u32, remaining: u32, amplitude: i16) -> Seq<i16> {
    Seq::new(
        remaining as nat,
        |k: int| spec_tone_sample((phase + k * step) % 0x1_0000_0000, amplitude),
    )
}

/// The per-sample phase step of a tone: the frequency in 16.16 fixed point
/// divided by the sample rate (0 for a zero sample rate).
pub open spec fn tone_step(frequency_hz: u16, sample_rate_hz: u32) -> int {
    if sample_rate_hz == 0 {
        0
    } else {
        frequency_hz * 65536 / sample_rate_hz as int
    }
}

/// The number of samples of a tone: whole samples per millisecond times the
/// duration (none for a zero sample rate).
pub open spec fn tone_length(duration_ms: u16, sample_rate_hz: u32) -> int {
    if sample_rate_hz == 0 {
        0
    } else {
        (sample_rate_hz / 1000) as int * duration_ms
    }
}

/// Small sine-wave tone source for beeps and smoke tests.
#[derive(Clone, Copy, Debug)]
pub struct Tone {
    phase: u32,
    phase_step: u32,
    remaining_samples: u32,
    amplitude: i16,
}

impl Tone {
    pub closed spec fn spec_phase(&self) -> u32 {
        self.phase
    }

    pub closed spec fn spec_phase_step(&self) -> u32 {
        self.phase_step
    }

    pub closed spec fn spec_remaining(&self) -> u32 {
        self.remaining_samples
    }

    pub closed spec fn spec_amplitude(&self) -> i16 {
        self.amplitude
    }

    /// The samples this tone still emits.
    pub open spec fn spec_stream(&self) -> Seq<i16> {
        tone_stream(self.spec_phase(), self.spec_phase_step(), self.spec_remaining(), self.spec_amplitude())
    }

    /// A finite sine tone of peak `amplitude`; a zero sample rate gives an
    /// exhausted source.
    pub fn new(frequency_hz: u16, duration_ms: u16, sample_rate_hz: u32, amplitude: i16) -> (r: Self)
        requires
            tone_length(duration_ms, sample_rate_hz) <= u32::MAX,
        ensures
            r.spec_phase() == 0,
            r.spec_phase_step() == tone_step(frequency_hz, sample_rate_hz),
            r.spec_remaining() == tone_length(duration_ms, sample_rate_hz),
            r.spec_amplitude() == amplitude,
            r.spec_stream() == tone_stream(
                0,
                tone_step(frequency_hz, sample_rate_hz) as u32,
                tone_length(duration_ms, sample_rate_hz) as u32,
                amplitude,
            ),
    {
        let f: u32 = frequency_hz as u32;
        assert(f << 16u32 == f * 65536) by (bit_vector)
            requires
                f < 65536,
        ;
        let phase_step: u32 = if sample_rate_hz == 0 {
            0
        } else {
            (f << 16u32) / sample_rate_hz
        };
        let remaining_samples: u32 = if sample_rate_hz == 0 {
            0
        } else {
            (sample_rate_hz / 1000) * duration_ms as u32
        };
        Tone { phase: 0, phase_step, remaining_samples, amplitude }
    }
}

/// Every entry of the sine table lies in `-32767..=32767`.
pub proof fn lemma_sine_bounded()
    ensures
        forall|i: int| 0 <= i < 64 ==> -32767 <= #[trigger] spec_sine_table()[i] <= 32767,
{
    assert forall|i: int| 0 <= i < 64 implies -32767 <= #[trigger] spec_sine_table()[i] <= 32767 by {
    }
}

proof fn lemma_scaled_bounded(x: int, a: int)
    requires
        -32767 <= x <= 32767,
        -32767 <= a <= 32767,
    ensures
        -(if a < 0 { -a } else { a }) <= trunc_div(x * a, 32767) <= (if a < 0 { -a } else { a }),
{
    let b = if a < 0 { -a } else { a };
    let v = x * a;
    assert(-(32767 * b) <= v <= 32767 * b) by (nonlinear_arith)
        requires
            -32767 <= x <= 32767,
            b == (if a < 0 { -a } else { a }),
            v == x * a,
    ;
    if v >= 0 {
        assert(v / 32767 <= b) by (nonlinear_arith)
            requires
                0 <= v <= 32767 * b,
        ;
        assert(v / 32767 >= 0) by (nonlinear_arith)
            requires
                0 <= v,
        ;
    } else {
        assert((-v) / 32767 <= b) by (nonlinear_arith)
            requires
                0 < -v <= 32767 * b,
        ;
        assert((-v) / 32767 >= 0) by (nonlinear_arith)
            requires
                0 < -v,
        ;
    }
}

/// No sample of a tone is larger in magnitude than its amplitude (for any
/// amplitude but `i16::MIN`).
pub proof fn lemma_tone_bounded(phase: u32, step: u32, remaining: u32, amplitude: i16)
    requires
        amplitude > i16::MIN,
    ensures
        forall|k: int|
            0 <= k < tone_stream(phase, step, remaining, amplitude).len() ==> {
                let v = #[trigger] tone_stream(phase, step, remaining, amplitude)[k];
                -(if amplitude < 0 { -amplitude } else { amplitude as int }) <= v <= (if amplitude
                    < 0 {
                    -amplitude
                } else {
                    amplitude as int
                })
            },
{
    lemma_sine_bounded();
    assert forall|k: int| 0 <= k < tone_stream(phase, step, remaining, amplitude).len() implies {
        let v = #[trigger] tone_stream(phase, step, remaining, amplitude)[k];
        -(if amplitude < 0 { -amplitude } else { amplitude as int }) <= v <= (if amplitude < 0 {
            -amplitude
        } else {
            amplitude as int
        })
    } by {
        let p = (phase + k * step) % 0x1_0000_0000;
        let idx = (p / 1024) % 64;
        assert(0 <= idx < 64);
        let x = spec_sine_table()[idx];
        lemma_scaled_bounded(x, amplitude as int);
    }
}

/// Advancing a tone by one sample drops the first sample of its stream.
proof fn lemma_tone_advance(phase: u32, step: u32, remaining: u32, amplitude: i16)
    requires
        remaining > 0,
    ensures
        tone_stream(
            ((phase + step) % 0x1_0000_0000) as u32,
            step,
            (remaining - 1) as u32,
            amplitude,
        ) == tone_stream(phase, step, remaining, amplitude).drop_first(),
{
    let m: int = 0x1_0000_0000;
    let p2 = ((phase + step) % m) as u32;
    let a = tone_stream(p2, step, (remaining - 1) as u32, amplitude);
    let b = tone_stream(phase, step, remaining, amplitude).drop_first();
    assert forall|k: int| 0 <= k < a.len() implies a[k] == b[k] by {
        let x = phase + step;
        let y = k * step;
        vstd::arithmetic::div_mod::lemma_add_mod_noop(x, y, m);
        vstd::arithmetic::div_mod::lemma_add_mod_noop(x % m, y, m);
        vstd::arithmetic::div_mod::lemma_mod_twice(x, m);
        assert((k + 1) * step == step + k * step) by (nonlinear_arith);
    }
    assert(a =~= b);
}

impl AudioSource for Tone {
    /// The first sample of the stream, which is then dropped.
    fn next_sample(&mut self) -> (r: Option<i16>)
        ensures
            old(self).spec_stream().len() == 0 ==> r is None && final(self).spec_stream().len() == 0,
            old(self).spec_stream().len() > 0 ==> r == Some(old(self).spec_stream()[0])
                && final(self).spec_stream() == old(self).spec_stream().drop_first(),
            final(self).spec_phase_step() == old(self).spec_phase_step(),
            final(self).spec_amplitude() == old(self).spec_amplitude(),
    {
        if self.remaining_samples == 0 {
            return None;
        }
        proof {
            lemma_tone_advance(self.phase, self.phase_step, self.remaining_samples, self.amplitude);
        }
        self.remaining_samples = self.remaining_samples - 1;
        let p: u32 = self.phase;
        let index: u32 = (p >> 10u32) & 0x3Fu32;
        assert((p >> 10u32) & 0x3Fu32 == (p / 1024) % 64) by (bit_vector);
        self.phase = self.phase.wrapping_add(self.phase_step);
        let s: i32 = sine_q15(index as usize) as i32;
        let a: i32 = self.amplitude as i32;
        assert(-32767 * 32768 <= s * a <= 32767 * 32768) by (nonlinear_arith)
            requires
                -32767 <= s <= 32767,
                -32768 <= a <= 32767,
        ;
        let product: i32 = s * a;
        Some((product / 32767) as i16)
    }
}

/// Voice profile for the prompt generator.
#[derive(Clone, Copy, Debug, PartialEq, Eq, Structural)]
pub enum Voice {
    /// Mid-range, unobtrusive prompt voice.
    Neutral,
    /// Lower-pitched prompt voice.
    Low,
    /// Higher-pitched prompt voice.
    High,
    /// Wider pitch steps for a more synthetic prompt.
    Robot,
}

/// Base pitch, pitch step per character class and amplitude of a voice.
#[derive(Clone, Copy, Debug, PartialEq, Eq, Structural)]
pub struct VoiceProfile {
    pub base_hz: u16,
    pub step_hz: u16,
    pub amplitude: i16,
}

pub open spec fn spec_profile(voice: Voice) -> VoiceProfile {
    match voice {
        Voice::Neutral => VoiceProfile { base_hz: 420, step_hz: 18, amplitude: 6_000 },
        Voice::Low => VoiceProfile { base_hz: 260, step_hz: 12, amplitude: 7_000 },
        Voice::High => VoiceProfile { base_hz: 620, step_hz: 24, amplitude: 5_000 },
        Voice::Robot => VoiceProfile { base_hz: 360, step_hz: 48, amplitude: 8_000 },
    }
}

/// Whether every pitch of a profile fits in a `u16`.
pub open spec fn profile_fits(p: VoiceProfile) -> bool {
    p.base_hz + 15 * p.step_hz <= u16::MAX
}

impl Voice {
    pub fn profile(self) -> (r: VoiceProfile)
        ensures
            r == spec_profile(self),
            profile_fits(r),
    {
        match self {
            Voice::Neutral => VoiceProfile { base_hz: 420, step_hz: 18, amplitude: 6_000 },
            Voice::Low => VoiceProfile { base_hz: 260, step_hz: 12, amplitude: 7_000 },
            Voice::High => VoiceProfile { base_hz: 620, step_hz: 24, amplitude: 5_000 },
            Voice::Robot => VoiceProfile { base_hz: 360, step_hz: 48, amplitude: 8_000 },
        }
    }
}

/// The character class of a byte: letters `0..26` (either case), digits
/// `26..36`, anything else 36.
pub open spec fn char_bucket(byte: u8) -> int {
    let lower = if 65 <= byte <= 90 {
        byte + 32
    } else {
        byte as int
    };
    if 97 <= lower <= 122 {
        lower - 97
    } else if 48 <= lower <= 57 {
        lower - 48 + 26
    } else {
        36
    }
}

/// The pitch of a byte: 1 Hz (silence) for a space, else the base pitch
/// plus a step per character class (classes wrap every 16).
pub open spec fn spec_char_frequency(byte: u8, voice: VoiceProfile) -> int {
    if byte == 32 {
        1
    } else {
        voice.base_hz + (char_bucket(byte) % 16) * voice.step_hz
    }
}

fn char_frequency(byte: u8, voice: VoiceProfile) -> (r: u16)
    requires
        profile_fits(voice),
    ensures
        r == spec_char_frequency(byte, voice),
{
    if byte == 32 {
        return 1;
    }
    let normalized: u8 = if 65 <= byte && byte <= 90 {
        byte + 32
    } else {
        byte
    };
    let bucket: u8 = if 97 <= normalized && normalized <= 122 {
        normalized - 97
    } else if 48 <= normalized && normalized <= 57 {
        normalized - 48 + 26
    } else {
        36
    };
    let b: u16 = (bucket % 16) as u16;
    assert(b * voice.step_hz <= 15 * voice.step_hz) by (nonlinear_arith)
        requires
            b <= 15,
    ;
    voice.base_hz + b * voice.step_hz
}

/// Tone length of a byte: 90 ms for a space, 70 ms otherwise.
pub open spec fn byte_duration(byte: u8) -> u16 {
    if byte == 32 {
        90
    } else {
        70
    }
}

/// Amplitude of a byte: silent for a space, the voice's amplitude otherwise.
pub open spec fn byte_amplitude(byte: u8, voice: VoiceProfile) -> i16 {
    if byte == 32 {
        0
    } else {
        voice.amplitude
    }
}

/// The samples of the tone for one byte of a prompt.
pub open spec fn byte_stream(byte: u8, voice: VoiceProfile, sample_rate_hz: u32) -> Seq<i16> {
    tone_stream(
        0,
        tone_step(spec_char_frequency(byte, voice) as u16, sample_rate_hz) as u32,
        tone_length(byte_duration(byte), sample_rate_hz) as u32,
        byte_amplitude(byte, voice),
    )
}

/// The samples of a whole prompt: the tones of its bytes, one after another.
pub open spec fn text_stream(text: Seq<u8>, voice: VoiceProfile, sample_rate_hz: u32) -> Seq<i16>
    decreases text.len(),
{
    if text.len() == 0 {
        Seq::empty()
    } else {
        byte_stream(text[0], voice, sample_rate_hz) + text_stream(
            text.drop_first(),
            voice,
            sample_rate_hz,
        )
    }
}

/// The number of samples of a prompt: the tone length of each byte.
pub open spec fn prompt_length(text: Seq<u8>, sample_rate_hz: u32) -> int
    decreases text.len(),
{
    if text.len() == 0 {
        0
    } else {
        tone_length(byte_duration(text[0]), sample_rate_hz) + prompt_length(
            text.drop_first(),
            sample_rate_hz,
        )
    }
}

/// A prompt has exactly as many samples as its bytes' tones together: 90 ms
/// per space and 70 ms per other byte, at whole samples per millisecond.
pub proof fn lemma_prompt_length(text: Seq<u8>, voice: VoiceProfile, sample_rate_hz: u32)
    requires
        profile_fits(voice),
    ensures
        text_stream(text, voice, sample_rate_hz).len() == prompt_length(text, sample_rate_hz),
    decreases text.len(),
{
    if text.len() > 0 {
        lemma_prompt_length(text.drop_first(), voice, sample_rate_hz);
        assert(tone_length(byte_duration(text[0]), sample_rate_hz) <= u32::MAX) by (nonlinear_arith)
            requires
                byte_duration(text[0]) <= 90,
                sample_rate_hz / 1000 <= 4294967,
                tone_length(byte_duration(text[0]), sample_rate_hz) == (if sample_rate_hz == 0 { 0 } else { (sample_rate_hz / 1000) as int * byte_duration(text[0]) }),
        ;
    }
}

/// A space is silent: every sample of its tone is zero.
pub proof fn lemma_space_is_silent(voice: VoiceProfile, sample_rate_hz: u32)
    ensures
        forall|k: int|
            0 <= k < byte_stream(32u8, voice, sample_rate_hz).len() ==> #[trigger] byte_stream(
                32u8,
                voice,
                sample_rate_hz,
            )[k] == 0,
{
    assert forall|k: int|
        0 <= k < byte_stream(32u8, voice, sample_rate_hz).len() implies #[trigger] byte_stream(
            32u8,
            voice,
            sample_rate_hz,
        )[k] == 0 by {
        let step = tone_step(1u16, sample_rate_hz) as u32;
        let phase = (0 + k * step) % 0x1_0000_0000;
        let idx = (phase / 1024) % 64;
        assert(spec_sine_table()[idx] * 0 == 0);
    }
}

/// A prompt's samples are those of the bytes before `b`, then the tone of
/// byte `b`, then those of the bytes after it.
pub proof fn lemma_text_stream_split(text: Seq<u8>, voice: VoiceProfile, sample_rate_hz: u32, b: int)
    requires
        0 <= b < text.len(),
    ensures
        text_stream(text, voice, sample_rate_hz) == text_stream(text.take(b), voice, sample_rate_hz)
            + byte_stream(text[b], voice, sample_rate_hz) + text_stream(
            text.skip(b + 1),
            voice,
            sample_rate_hz,
        ),
    decreases b,
{
    let df = text.drop_first();
    if b == 0 {
        assert(text.take(0) =~= Seq::<u8>::empty());
        assert(df =~= text.skip(1));
        assert(text_stream(Seq::<u8>::empty(), voice, sample_rate_hz) =~= Seq::<i16>::empty());
        assert(text_stream(text, voice, sample_rate_hz) =~= Seq::<i16>::empty() + byte_stream(
            text[0],
            voice,
            sample_rate_hz,
        ) + text_stream(df, voice, sample_rate_hz));
    } else {
        lemma_text_stream_split(df, voice, sample_rate_hz, b - 1);
        assert(text.take(b).drop_first() =~= df.take(b - 1));
        assert(text.take(b)[0] == text[0]);
        assert(df[b - 1] == text[b]);
        assert(df.skip(b) =~= text.skip(b + 1));
        let a0 = byte_stream(text[0], voice, sample_rate_hz);
        let x = text_stream(df.take(b - 1), voice, sample_rate_hz);
        let y = byte_stream(text[b], voice, sample_rate_hz);
        let z = text_stream(text.skip(b + 1), voice, sample_rate_hz);
        assert(a0 + (x + y + z) =~= (a0 + x) + y + z);
    }
}

/// A prompt at a sample rate below 1 kHz has no samples.
pub proof fn lemma_prompt_below_one_khz(text: Seq<u8>, voice: VoiceProfile, sample_rate_hz: u32)
    requires
        sample_rate_hz < 1000,
    ensures
        text_stream(text, voice, sample_rate_hz).len() == 0,
    decreases text.len(),
{
    if text.len() > 0 {
        lemma_prompt_below_one_khz(text.drop_first(), voice, sample_rate_hz);
    }
}

/// Wherever a prompt has a space, its samples are silent: the samples from
/// the end of the bytes before the space, for the length of the space's
/// tone, are all zero.
pub proof fn lemma_prompt_spaces_silent(
    text: Seq<u8>,
    voice: VoiceProfile,
    sample_rate_hz: u32,
    b: int,
)
    requires
        profile_fits(voice),
        0 <= b < text.len(),
        text[b] == 32,
    ensures
        forall|k: int|
            0 <= k < tone_length(90, sample_rate_hz) ==> #[trigger] text_stream(
                text,
                voice,
                sample_rate_hz,
            )[prompt_length(text.take(b), sample_rate_hz) + k] == 0,
{
    lemma_text_stream_split(text, voice, sample_rate_hz, b);
    lemma_prompt_length(text.take(b), voice, sample_rate_hz);
    lemma_space_is_silent(voice, sample_rate_hz);
    let pre = text_stream(text.take(b), voice, sample_rate_hz);
    let sp = byte_stream(32u8, voice, sample_rate_hz);
    assert(tone_length(90, sample_rate_hz) <= u32::MAX) by (nonlinear_arith)
        requires
            sample_rate_hz / 1000 <= 4294967,
            tone_length(90, sample_rate_hz) == (if sample_rate_hz == 0 { 0 } else { (sample_rate_hz / 1000) as int * 90 }),
    ;
    assert(sp.len() == tone_length(90, sample_rate_hz));
    assert forall|k: int| 0 <= k < tone_length(90, sample_rate_hz) implies #[trigger] text_stream(
        text,
        voice,
        sample_rate_hz,
    )[prompt_length(text.take(b), sample_rate_hz) + k] == 0 by {
        assert(sp[k] == 0);
    }
}

/// Tiny text-to-audio prompt source.
///
/// This is not natural speech: it maps text to short voice-dependent pitched
/// tones, so firmware can give audible prompts without a speech engine.
pub struct TextToAudio<'a> {
    text: &'a [u8],
    position: usize,
    current: Option<Tone>,
    voice: VoiceProfile,
    sample_rate_hz: u32,
}

impl<'a> TextToAudio<'a> {
    #[verifier::type_invariant]
    spec fn inv(&self) -> bool {
        &&& self.position <= self.text@.len()
        &&& profile_fits(self.voice)
    }

    pub closed spec fn spec_text(&self) -> Seq<u8> {
        self.text@
    }

    pub closed spec fn spec_position(&self) -> usize {
        self.position
    }

    pub closed spec fn spec_current(&self) -> Option<Tone> {
        self.current
    }

    pub closed spec fn spec_voice(&self) -> VoiceProfile {
        self.voice
    }

    pub closed spec fn spec_sample_rate(&self) -> u32 {
        self.sample_rate_hz
    }

    /// The samples this source still emits: the rest of the current tone,
    /// then the tones of the bytes not yet started.
    pub open spec fn spec_stream(&self) -> Seq<i16> {
        let current = match self.spec_current() {
            Some(t) => t.spec_stream(),
            None => Seq::empty(),
        };
        current + text_stream(
            self.spec_text().subrange(self.spec_position() as int, self.spec_text().len() as int),
            self.spec_voice(),
            self.spec_sample_rate(),
        )
    }

    /// A prompt source for the bytes of `text`.
    pub fn new(text: &'a str, voice: Voice, sample_rate_hz: u32) -> (r: Self)
        ensures
            r.spec_stream() == text_stream(text.spec_bytes(), spec_profile(voice), sample_rate_hz),
            r.spec_text() == text.spec_bytes(),
            r.spec_voice() == spec_profile(voice),
            r.spec_sample_rate() == sample_rate_hz,
    {
        let bytes = text.as_bytes();
        let r = TextToAudio {
            text: bytes,
            position: 0,
            current: None,
            voice: voice.profile(),
            sample_rate_hz,
        };
        assert(bytes@.subrange(0, bytes@.len() as int) =~= bytes@);
        assert(r.spec_stream() =~= text_stream(bytes@, spec_profile(voice), sample_rate_hz));
        r
    }
}

impl<'a> AudioSource for TextToAudio<'a> {
    /// The first sample of the remaining prompt, which is then dropped.
    fn next_sample(&mut self) -> (r: Option<i16>)
        ensures
            old(self).spec_stream().len() == 0 ==> r is None && final(self).spec_stream().len() == 0,
            old(self).spec_stream().len() > 0 ==> r == Some(old(self).spec_stream()[0])
                && final(self).spec_stream() == old(self).spec_stream().drop_first(),
            final(self).spec_text() == old(self).spec_text(),
            final(self).spec_voice() == old(self).spec_voice(),
            final(self).spec_sample_rate() == old(self).spec_sample_rate(),
    {
        proof {
            use_type_invariant(&*self);
        }
        let ghost start = self.spec_stream();
        loop
            invariant
                self.spec_stream() == start,
                self.spec_text() == old(self).spec_text(),
                self.spec_voice() == old(self).spec_voice(),
                self.spec_sample_rate() == old(self).spec_sample_rate(),
                start == old(self).spec_stream(),
            decreases self.spec_text().len() - self.spec_position(),
        {
            proof {
                use_type_invariant(&*self);
            }
            let rest = Ghost(
                text_stream(
                    self.spec_text().subrange(self.spec_position() as int, self.spec_text().len() as int),
                    self.spec_voice(),
                    self.spec_sample_rate(),
                ),
            );
            match self.current {
                Some(tone) => {
                    let mut t = tone;
                    let s = t.next_sample();
                    match s {
                        Some(v) => {
                            self.current = Some(t);
                            assert(self.spec_stream() =~= start.drop_first());
                            return Some(v);
                        },
                        None => {},
                    }
                },
                None => {},
            }
            self.current = None;
            assert(self.spec_stream() =~= start);
            if self.position >= self.text.len() {
                assert(self.spec_text().subrange(self.spec_position() as int, self.spec_text().len() as int) =~= Seq::<u8>::empty());
                return None;
            }
            let byte: u8 = self.text[self.position];
            proof {
                let tail = self.spec_text().subrange(self.spec_position() as int, self.spec_text().len() as int);
                assert(tail[0] == byte);
                assert(tail.drop_first() =~= self.spec_text().subrange(self.spec_position() + 1, self.spec_text().len() as int));
            }
            self.position = self.position + 1;
            let duration: u16 = if byte == 32 {
                90
            } else {
                70
            };
            let frequency = char_frequency(byte, self.voice);
            let amplitude: i16 = if byte == 32 {
                0
            } else {
                self.voice.amplitude
            };
            assert((self.sample_rate_hz / 1000) as int * duration <= u32::MAX) by (nonlinear_arith)
                requires
                    duration <= 90,
                    self.sample_rate_hz / 1000 <= 4294967,
            ;
            self.current = Some(Tone::new(frequency, duration, self.sample_rate_hz, amplitude));
            assert(self.spec_stream() =~= start);
        }
    }
}

/// The ES7210 data-format code of a sample width.
pub open spec fn spec_sample_width_code(width: SampleWidth) -> u8 {
    match width {
        SampleWidth::Bits16 => 0x60,
        SampleWidth::Bits24 => 0x00,
        SampleWidth::Bits32 => 0x10,
    }
}

fn sample_width_code(width: SampleWidth) -> (r: u8)
    ensures
        r == spec_sample_width_code(width),
{
    match width {
        SampleWidth::Bits16 => 0x60,
        SampleWidth::Bits24 => 0x00,
        SampleWidth::Bits32 => 0x10,
    }
}

/// The AW88298 sample-rate bucket of a rate given in multiples of 2205 Hz
/// (rounded): 8, 11.025, 12, 16, 22.05, 24, 32, 44.1, 48 and 96 kHz.
pub open spec fn spec_aw88298_rate_code(rate: int) -> u8 {
    if rate <= 4 {
        0
    } else if rate <= 5 {
        1
    } else if rate <= 6 {
        2
    } else if rate <= 8 {
        3
    } else if rate <= 10 {
        4
    } else if rate <= 11 {
        5
    } else if rate <= 15 {
        6
    } else if rate <= 20 {
        7
    } else if rate <= 22 {
        8
    } else {
        9
    }
}

/// The AW88298 sample-rate code of a sample rate in hertz.
pub fn aw88298_sample_rate_code(sample_rate_hz: u32) -> (r: u8)
    requires
        sample_rate_hz + 1_102 <= u32::MAX,
    ensures
        r == spec_aw88298_rate_code((sample_rate_hz + 1_102) / 2_205),
{
    let rate: u32 = (sample_rate_hz + 1_102) / 2_205;
    if rate <= 4 {
        0
    } else if rate <= 5 {
        1
    } else if rate <= 6 {
        2
    } else if rate <= 8 {
        3
    } else if rate <= 10 {
        4
    } else if rate <= 11 {
        5
    } else if rate <= 15 {
        6
    } else if rate <= 20 {
        7
    } else if rate <= 22 {
        8
    } else {
        9
    }
}

/// The smaller of a value and a limit.
pub open spec fn spec_min_u8(v: u8, limit: u8) -> u8 {
    if v < limit {
        v
    } else {
        limit
    }
}

fn min_u8(v: u8, limit: u8) -> (r: u8)
    ensures
        r == spec_min_u8(v, limit),
{
    if v < limit {
        v
    } else {
        limit
    }
}

/// ES7210 driver state: the I2C bus it owns and the device address.
pub struct Es7210<I2C> {
    i2c: I2C,
    address: u8,
}

impl<I2C> Es7210<I2C> {
    pub closed spec fn spec_bus(&self) -> I2C {
        self.i2c
    }

    pub closed spec fn spec_address(&self) -> u8 {
        self.address
    }

    /// A driver at the CoreS3 ES7210 address.
    pub fn new(i2c: I2C) -> (r: Self)
        ensures
            r.spec_bus() == i2c,
            r.spec_address() == devices::i2c::ES7210_ADC,
    {
        Es7210 { i2c, address: devices::i2c::ES7210_ADC }
    }

    pub fn release(self) -> (r: I2C)
        ensures
            r == self.spec_bus(),
    {
        self.i2c
    }

    /// The bus, for performing the transfers this driver plans.
    pub fn bus_mut(&mut self) -> (r: &mut I2C)
        ensures
            *r == old(self).spec_bus(),
            final(self).spec_bus() == *final(r),
            final(self).spec_address() == old(self).spec_address(),
    {
        &mut self.i2c
    }

    pub fn address(&self) -> (r: u8)
        ensures
            r == self.spec_address(),
    {
        self.address
    }

    /// The step that writes `value` to `register`.
    pub fn write_register(&self, register: u8, value: u8) -> (r: Vec<RegisterStep>)
        ensures
            r@ == seq![RegisterStep::Write { register, value }],
    {
        let mut v: Vec<RegisterStep> = Vec::new();
        v.push(RegisterStep::Write { register, value });
        v
    }

    /// A conservative ES7210 set-up for I2S slave mode: reset, clocking,
    /// the data format of the sample width, and the gain (at most 37 dB).
    pub fn init(&self, config: MicrophoneConfig) -> (r: Vec<RegisterStep>)
        ensures
            r@ == seq![
                RegisterStep::Write { register: 0x00, value: 0xFF },
                RegisterStep::Write { register: 0x00, value: 0x32 },
                RegisterStep::Write { register: 0x01, value: 0x30 },
                RegisterStep::Write { register: 0x02, value: 0x10 },
                RegisterStep::Write { register: 0x03, value: 0x20 },
                RegisterStep::Write {
                    register: 0x04,
                    value: spec_sample_width_code(config.format.sample_width),
                },
                RegisterStep::Write { register: 0x22, value: spec_min_u8(config.gain_db, 37) },
            ],
    {
        let mut v: Vec<RegisterStep> = Vec::new();
        v.push(RegisterStep::Write { register: 0x00, value: 0xFF });
        v.push(RegisterStep::Write { register: 0x00, value: 0x32 });
        v.push(RegisterStep::Write { register: 0x01, value: 0x30 });
        v.push(RegisterStep::Write { register: 0x02, value: 0x10 });
        v.push(RegisterStep::Write { register: 0x03, value: 0x20 });
        v.push(RegisterStep::Write { register: 0x04, value: sample_width_code(config.format.sample_width) });
        v.push(RegisterStep::Write { register: 0x22, value: min_u8(config.gain_db, 37) });
        v
    }

    /// The write that sets the microphone gain, at most 37 dB.
    pub fn set_gain(&self, gain_db: u8) -> (r: Vec<RegisterStep>)
        ensures
            r@ == seq![RegisterStep::Write { register: 0x22, value: spec_min_u8(gain_db, 37) }],
    {
        let mut v: Vec<RegisterStep> = Vec::new();
        v.push(RegisterStep::Write { register: 0x22, value: min_u8(gain_db, 37) });
        v
    }
}

/// The AW88298 writes that enable the CoreS3 speaker path: clocking from
/// BCK/WS, I2S input on, unmuted, boost off, the rate bucket of the format,
/// then the volume (at most 100).
pub open spec fn spec_enable_steps(config: SpeakerConfig) -> Seq<RegisterStep> {
    seq![
        RegisterStep::Write16 { register: 0x61, value: 0x0673 },
        RegisterStep::Write16 { register: 0x04, value: 0x4040 },
        RegisterStep::Write16 { register: 0x05, value: 0x0008 },
        RegisterStep::Write16 {
            register: 0x06,
            value: 0x14C0u16 | (spec_aw88298_rate_code(
                (spec_sample_rate_hz(config.format.sample_rate) + 1_102) / 2_205,
            ) as u16),
        },
        RegisterStep::Write16 { register: 0x0C, value: spec_min_u8(config.volume, 100) as u16 },
    ]
}

/// AW88298 driver state: the I2C bus it owns and the device address.
pub struct Aw88298<I2C> {
    i2c: I2C,
    address: u8,
}

impl<I2C> Aw88298<I2C> {
    pub closed spec fn spec_bus(&self) -> I2C {
        self.i2c
    }

    pub closed spec fn spec_address(&self) -> u8 {
        self.address
    }

    /// A driver at the CoreS3 AW88298 address.
    pub fn new(i2c: I2C) -> (r: Self)
        ensures
            r.spec_bus() == i2c,
            r.spec_address() == devices::i2c::AW88298_AMPLIFIER,
    {
        Aw88298 { i2c, address: devices::i2c::AW88298_AMPLIFIER }
    }

    pub fn release(self) -> (r: I2C)
        ensures
            r == self.spec_bus(),
    {
        self.i2c
    }

    /// The bus, for performing the transfers this driver plans.
    pub fn bus_mut(&mut self) -> (r: &mut I2C)
        ensures
            *r == old(self).spec_bus(),
            final(self).spec_bus() == *final(r),
            final(self).spec_address() == old(self).spec_address(),
    {
        &mut self.i2c
    }

    pub fn address(&self) -> (r: u8)
        ensures
            r == self.spec_address(),
    {
        self.address
    }

    /// The 16-bit value held in a register, read high byte first.
    pub fn read_register16(&self, data: [u8; 2]) -> (r: u16)
        ensures
            r == data@[0] as int * 256 + data@[1] as int,
    {
        data[0] as u16 * 256 + data[1] as u16
    }

    /// The step that writes the 16-bit `value` to `register`.
    pub fn write_register16(&self, register: u8, value: u16) -> (r: Vec<RegisterStep>)
        ensures
            r@ == seq![RegisterStep::Write16 { register, value }],
    {
        let mut v: Vec<RegisterStep> = Vec::new();
        v.push(RegisterStep::Write16 { register, value });
        v
    }

    /// Start-up: the enabling sequence for `config` when it is enabled,
    /// else the write that disables the output.
    pub fn init(&self, config: SpeakerConfig) -> (r: Vec<RegisterStep>)
        ensures
            config.enabled ==> r@ == spec_enable_steps(config),
            !config.enabled ==> r@ == seq![RegisterStep::Write16 { register: 0x04, value: 0x4000 }],
    {
        if config.enabled {
            self.enable_core_s3(config)
        } else {
            self.set_enabled(false)
        }
    }

    /// Enables the output with the default speaker configuration, or disables it.
    pub fn set_enabled(&self, enabled: bool) -> (r: Vec<RegisterStep>)
        ensures
            enabled ==> r@ == spec_enable_steps(spec_default_speaker()),
            !enabled ==> r@ == seq![RegisterStep::Write16 { register: 0x04, value: 0x4000 }],
    {
        if enabled {
            self.enable_core_s3(SpeakerConfig::default())
        } else {
            let mut v: Vec<RegisterStep> = Vec::new();
            v.push(RegisterStep::Write16 { register: 0x04, value: 0x4000 });
            v
        }
    }

    /// The write that sets the volume, at most 100.
    pub fn set_volume(&self, volume: u8) -> (r: Vec<RegisterStep>)
        ensures
            r@ == seq![RegisterStep::Write16 { register: 0x0C, value: spec_min_u8(volume, 100) as u16 }],
    {
        let mut v: Vec<RegisterStep> = Vec::new();
        v.push(RegisterStep::Write16 { register: 0x0C, value: min_u8(volume, 100) as u16 });
        v
    }

    fn enable_core_s3(&self, config: SpeakerConfig) -> (r: Vec<RegisterStep>)
        ensures
            r@ == spec_enable_steps(config),
    {
        let code = aw88298_sample_rate_code(config.format.sample_rate_hz());
        let mut v: Vec<RegisterStep> = Vec::new();
        v.push(RegisterStep::Write16 { register: 0x61, value: 0x0673 });
        v.push(RegisterStep::Write16 { register: 0x04, value: 0x4040 });
        v.push(RegisterStep::Write16 { register: 0x05, value: 0x0008 });
        v.push(RegisterStep::Write16 { register: 0x06, value: 0x14C0u16 | code as u16 });
        v.push(RegisterStep::Write16 { register: 0x0C, value: min_u8(config.volume, 100) as u16 });
        v
    }
}

/// The AW88298 rate code never decreases as the sample rate grows, and it
/// is one of the codec's ten buckets `0..=9`.
pub proof fn lemma_aw88298_code_ordered(low_hz: u32, high_hz: u32)
    requires
        low_hz <= high_hz,
        high_hz + 1_102 <= u32::MAX,
    ensures
        spec_aw88298_rate_code((low_hz + 1_102) / 2_205) <= spec_aw88298_rate_code(
            (high_hz + 1_102) / 2_205,
        ),
        spec_aw88298_rate_code((high_hz + 1_102) / 2_205) <= 9,
{
    assert((low_hz + 1_102) / 2_205 <= (high_hz + 1_102) / 2_205) by (nonlinear_arith)
        requires
            low_hz <= high_hz,
    ;
}

/// Every sample rate of [`SampleRate`] selects its own AW88298 bucket, in
/// the order of the rates: 8 kHz bucket 0, 16 kHz 3, 24 kHz 5, 32 kHz 6,
/// 44.1 kHz 7 and 48 kHz 8; so a faster rate always has a larger code.
pub proof fn lemma_aw88298_sample_rate_buckets(slower: SampleRate, faster: SampleRate)
    ensures
        spec_sample_rate_hz(slower) < spec_sample_rate_hz(faster) ==> spec_aw88298_rate_code(
            (spec_sample_rate_hz(slower) + 1_102) / 2_205,
        ) < spec_aw88298_rate_code((spec_sample_rate_hz(faster) + 1_102) / 2_205),
        spec_aw88298_rate_code((spec_sample_rate_hz(slower) + 1_102) / 2_205) == match slower {
            SampleRate::Rate8K => 0u8,
            SampleRate::Rate16K => 3u8,
            SampleRate::Rate24K => 5u8,
            SampleRate::Rate32K => 6u8,
            SampleRate::Rate44K1 => 7u8,
            SampleRate::Rate48K => 8u8,
        },
{
}

/// The codec's other standard rates land in their own buckets too:
/// 11.025 kHz in bucket 1, 22.05 kHz in 4 and 96 kHz in 9.
pub proof fn lemma_aw88298_other_rates()
    ensures
        spec_aw88298_rate_code((11_025int + 1_102) / 2_205) == 1,
        spec_aw88298_rate_code((22_050int + 1_102) / 2_205) == 4,
        spec_aw88298_rate_code((96_000int + 1_102) / 2_205) == 9,
{
}

} // verus!
