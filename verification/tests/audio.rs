use core_s3::audio::{
    aw88298_sample_rate_code, AudioSource, Aw88298, Es7210, I2sAudioFormat, MicrophoneConfig,
    RawPcm, SampleRate, SampleWidth, SpeakerConfig, TextToAudio, Tone, Voice,
};
use core_s3::bus::RegisterStep;

#[test]
fn raw_pcm_once_stops_after_slice() {
    let mut pcm = RawPcm::once(&[10, -20]);

    assert_eq!(pcm.next_sample(), Some(10));
    assert_eq!(pcm.next_sample(), Some(-20));
    assert_eq!(pcm.next_sample(), None);
    assert_eq!(pcm.next_sample(), None);
}

#[test]
fn raw_pcm_repeating_loops() {
    let mut pcm = RawPcm::repeating(&[1, 2, 3]);

    assert_eq!(pcm.next_sample(), Some(1));
    assert_eq!(pcm.next_sample(), Some(2));
    assert_eq!(pcm.next_sample(), Some(3));
    assert_eq!(pcm.next_sample(), Some(1));
}

#[test]
fn empty_repeating_pcm_stops() {
    let mut pcm = RawPcm::repeating(&[]);

    assert_eq!(pcm.next_sample(), None);
}

#[test]
fn tone_yields_finite_nonzero_samples() {
    let mut tone = Tone::new(440, 10, 16_000, 8_000);
    let mut nonzero = false;
    let mut count = 0;

    while let Some(sample) = tone.next_sample() {
        nonzero |= sample != 0;
        count += 1;
    }

    assert!(nonzero);
    assert_eq!(count, 160);
    assert_eq!(tone.next_sample(), None);
}

#[test]
fn tone_with_zero_sample_rate_is_exhausted() {
    let mut tone = Tone::new(440, 100, 0, 8_000);

    assert_eq!(tone.next_sample(), None);
}

#[test]
fn text_to_audio_emits_for_each_voice() {
    for voice in [Voice::Neutral, Voice::Low, Voice::High, Voice::Robot] {
        let mut prompt = TextToAudio::new("ok", voice, 8_000);
        let mut count = 0;
        let mut nonzero = false;

        while let Some(sample) = prompt.next_sample() {
            count += 1;
            nonzero |= sample != 0;
        }

        assert_eq!(count, 1_120);
        assert!(nonzero);
    }
}

#[test]
fn text_to_audio_spaces_are_silent() {
    let mut prompt = TextToAudio::new(" ", Voice::Neutral, 8_000);
    let mut count = 0;

    while let Some(sample) = prompt.next_sample() {
        count += 1;
        assert_eq!(sample, 0);
    }

    assert_eq!(count, 720);
}

#[test]
fn aw88298_sample_rate_code_matches_m5_rate_buckets() {
    assert_eq!(aw88298_sample_rate_code(8_000), 0);
    assert_eq!(aw88298_sample_rate_code(16_000), 3);
    assert_eq!(aw88298_sample_rate_code(44_100), 7);
    assert_eq!(aw88298_sample_rate_code(48_000), 8);
}

#[test]
fn tone_first_samples_follow_sine_table() {
    // 1000 Hz at 8 kHz: phase step 8192, one table step (1024) is skipped per 8 samples.
    let mut tone = Tone::new(1000, 1, 8_000, 32_767);
    assert_eq!(tone.next_sample(), Some(0));
    assert_eq!(tone.next_sample(), Some(23_170));
    assert_eq!(tone.next_sample(), Some(32_767));
    assert_eq!(tone.next_sample(), Some(23_170));
    assert_eq!(tone.next_sample(), Some(0));
    assert_eq!(tone.next_sample(), Some(-23_170));
}

#[test]
fn text_to_audio_below_one_khz_is_silent_and_finite() {
    let mut prompt = TextToAudio::new("abc", Voice::High, 999);
    assert_eq!(prompt.next_sample(), None);
    assert_eq!(prompt.next_sample(), None);
}

#[test]
fn sample_rates_in_hertz() {
    let mut format = I2sAudioFormat::default();
    assert_eq!(format.sample_rate_hz(), 16_000);
    format.sample_rate = SampleRate::Rate44K1;
    assert_eq!(format.sample_rate_hz(), 44_100);
    format.sample_rate = SampleRate::Rate8K;
    assert_eq!(format.sample_rate_hz(), 8_000);
    assert_eq!(aw88298_sample_rate_code(96_000), 9);
    assert_eq!(aw88298_sample_rate_code(11_025), 1);
}

#[test]
fn es7210_plans_gain_and_format() {
    let adc = Es7210::new(());
    assert_eq!(adc.address(), 0x40);
    assert_eq!(adc.set_gain(60), vec![RegisterStep::Write { register: 0x22, value: 37 }]);
    let mut config = MicrophoneConfig::default();
    config.format.sample_width = SampleWidth::Bits32;
    let steps = adc.init(config);
    assert_eq!(steps.len(), 7);
    assert_eq!(steps[5], RegisterStep::Write { register: 0x04, value: 0x10 });
    assert_eq!(steps[6], RegisterStep::Write { register: 0x22, value: 24 });
}

#[test]
fn aw88298_plans_enable_and_volume() {
    let amp = Aw88298::new(());
    assert_eq!(amp.address(), 0x36);
    assert_eq!(amp.set_volume(200), vec![RegisterStep::Write16 { register: 0x0C, value: 100 }]);
    assert_eq!(amp.set_enabled(false), vec![RegisterStep::Write16 { register: 0x04, value: 0x4000 }]);
    let steps = amp.init(SpeakerConfig::default());
    assert_eq!(steps.len(), 5);
    assert_eq!(steps[3], RegisterStep::Write16 { register: 0x06, value: 0x14C3 });
    let mut off = SpeakerConfig::default();
    off.enabled = false;
    assert_eq!(amp.init(off), vec![RegisterStep::Write16 { register: 0x04, value: 0x4000 }]);
}
