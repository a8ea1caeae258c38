use audiocaptor::audio::capture::{decode_samples, packet_bytes, ring_buffer_capacity, DecodedSamples};
use audiocaptor::audio::layout::{
    channel_conversion, deinterleave, interleave, mix_frames, mono_to_stereo, ChannelConversion,
};
use audiocaptor::audio::mixer::{
    chunk_frames, loopback_is_quiet, needs_resampling, plan_drain, DrainPlan, MixerControl,
    MixerStep, StagedSource,
};
use audiocaptor::audio::types::{AudioCommand, OutputMode};

const MS: u64 = 1_000_000;

fn mix_with_gains(mic: &[f32], lp: &[f32], mic_vol: f32, loop_vol: f32, channels: usize) -> Vec<f32> {
    mix_frames(mic, lp, channels, 0.0, |m: f32, l: f32| (m * mic_vol + l * loop_vol).clamp(-1.0, 1.0))
}

#[test]
fn mono_to_stereo_duplicates_samples() {
    let mono = vec![0.5, -0.3, 1.0];
    let stereo = mono_to_stereo(&mono);
    assert_eq!(stereo, vec![0.5, 0.5, -0.3, -0.3, 1.0, 1.0]);
}

#[test]
fn mono_to_stereo_empty() {
    assert_eq!(mono_to_stereo::<f32>(&[]), Vec::<f32>::new());
}

#[test]
fn deinterleave_splits_channels() {
    let interleaved = vec![1.0, 2.0, 3.0, 4.0, 5.0, 6.0];
    let channels = deinterleave(&interleaved, 2);
    assert_eq!(channels.len(), 2);
    assert_eq!(channels[0], vec![1.0, 3.0, 5.0]);
    assert_eq!(channels[1], vec![2.0, 4.0, 6.0]);
}

#[test]
fn interleave_merges_channels() {
    let channels = vec![vec![1.0, 3.0, 5.0], vec![2.0, 4.0, 6.0]];
    let result = interleave(&channels);
    assert_eq!(result, vec![1.0, 2.0, 3.0, 4.0, 5.0, 6.0]);
}

#[test]
fn interleave_deinterleave_roundtrip() {
    let original = vec![1.0, 2.0, 3.0, 4.0, 5.0, 6.0];
    let deint = deinterleave(&original, 2);
    let reint = interleave(&deint);
    assert_eq!(original, reint);
}

#[test]
fn interleave_empty() {
    assert_eq!(interleave::<f32>(&[]), Vec::<f32>::new());
}

#[test]
fn deinterleave_uneven_tail() {
    let channels = deinterleave(&[1, 2, 3, 4, 5], 3);
    assert_eq!(channels, vec![vec![1, 4], vec![2, 5], vec![3]]);
    let even = deinterleave(&[1, 2, 3, 4, 5, 6], 3);
    assert_eq!(interleave(&even), vec![1, 2, 3, 4, 5, 6]);
}

#[test]
fn mix_samples_combines_with_volume() {
    let mic = vec![0.5, 0.5];
    let loopback = vec![0.3, 0.3];
    let result = mix_with_gains(&mic, &loopback, 1.0, 1.0, 2);
    assert_eq!(result.len(), 2);
    assert!((result[0] - 0.8).abs() < 0.001);
    assert!((result[1] - 0.8).abs() < 0.001);
}

#[test]
fn mix_samples_clamps_output() {
    let mic = vec![0.9];
    let loopback = vec![0.9];
    let result = mix_with_gains(&mic, &loopback, 1.0, 1.0, 1);
    assert_eq!(result.len(), 1);
    assert_eq!(result[0], 1.0);
}

#[test]
fn mix_samples_handles_unequal_lengths() {
    let mic = vec![0.5, 0.5, 0.5, 0.5];
    let loopback = vec![0.3, 0.3];
    let result = mix_with_gains(&mic, &loopback, 1.0, 1.0, 2);
    assert_eq!(result.len(), 4);
    assert!((result[2] - 0.5).abs() < 0.001);
}

#[test]
fn mix_frames_drops_partial_frames() {
    let result = mix_frames(&[1, 2, 3], &[10], 2, 0, |a: i32, b: i32| a + b);
    assert_eq!(result, vec![11, 2]);
}

#[test]
fn channel_conversion_choices() {
    assert_eq!(channel_conversion(2, 2), ChannelConversion::Passthrough);
    assert_eq!(channel_conversion(1, 2), ChannelConversion::MonoToStereo);
    assert_eq!(channel_conversion(2, 1), ChannelConversion::StereoToMono);
    assert_eq!(channel_conversion(3, 5), ChannelConversion::Unsupported);
}

#[test]
fn chunk_and_buffer_sizes() {
    assert_eq!(chunk_frames(48000, 44100), 480);
    assert_eq!(chunk_frames(16000, 44100), 441);
    assert!(needs_resampling(44100, 48000));
    assert!(!needs_resampling(48000, 48000));
    assert_eq!(ring_buffer_capacity(48000, 2), 19200);
    assert_eq!(packet_bytes(4096, 8), 32768);
}

fn src(staged: usize, channels: usize, resampled: bool) -> StagedSource {
    StagedSource { staged, channels, resampled }
}

#[test]
fn plan_drain_mix_takes_common_frames() {
    let plan = plan_drain(OutputMode::Mix, src(10, 2, false), src(7, 1, false), 480);
    assert_eq!(plan, Some(DrainPlan { mic_samples: 10, loopback_samples: 5 }));
}

#[test]
fn plan_drain_separate_files_keeps_sources_in_step() {
    let plan = plan_drain(OutputMode::SeparateFiles, src(12, 2, false), src(20, 2, false), 480);
    assert_eq!(plan, Some(DrainPlan { mic_samples: 12, loopback_samples: 12 }));
    assert_eq!(plan_drain(OutputMode::SeparateFiles, src(12, 2, false), src(0, 2, false), 480), None);
}

#[test]
fn plan_drain_mix_waits_for_both_sources() {
    assert_eq!(plan_drain(OutputMode::Mix, src(10, 2, false), src(0, 2, false), 480), None);
    assert_eq!(
        plan_drain(OutputMode::MixPlusMicrophone, src(959, 2, true), src(2000, 2, false), 480),
        None
    );
}

#[test]
fn plan_drain_mix_resampled_whole_chunks() {
    let plan = plan_drain(OutputMode::MixPlusLoopback, src(2000, 2, true), src(3000, 2, false), 480);
    assert_eq!(plan, Some(DrainPlan { mic_samples: 1920, loopback_samples: 2000 }));
}

#[test]
fn plan_drain_single_source_takes_whole_frames() {
    let plan = plan_drain(OutputMode::Microphone, src(7, 2, false), src(0, 2, false), 480);
    assert_eq!(plan, Some(DrainPlan { mic_samples: 6, loopback_samples: 0 }));
    let plan = plan_drain(OutputMode::Loopback, src(0, 2, false), src(2000, 2, true), 480);
    assert_eq!(plan, Some(DrainPlan { mic_samples: 0, loopback_samples: 1920 }));
}

#[test]
fn mixer_warmup_then_records() {
    let c = MixerControl::new(1_000 * MS, 300, 1.0f32.to_bits(), 0.5f32.to_bits());
    assert_eq!(c.step(1_100 * MS, 5, 5), MixerStep::Discard);
    assert_eq!(c.step(1_300 * MS, 5, 5), MixerStep::Process);
    assert_eq!(c.step(1_300 * MS, 0, 0), MixerStep::Wait);
}

#[test]
fn mixer_resume_waits_for_quiet_loopback() {
    let mut c = MixerControl::new(0, 0, 0, 0);
    c.pause();
    assert_eq!(c.step(10 * MS, 1, 1), MixerStep::Discard);
    c.resume(100 * MS);
    assert!(!c.observe_loopback(true, 100 * MS));
    assert!(!c.observe_loopback(true, 110 * MS));
    assert!(!c.observe_loopback(false, 115 * MS));
    assert!(!c.observe_loopback(true, 120 * MS));
    assert!(!c.observe_loopback(true, 139 * MS));
    assert!(c.observe_loopback(true, 140 * MS));
    assert_eq!(c.step(141 * MS, 1, 0), MixerStep::Process);
}

#[test]
fn mixer_pause_cancels_pending_resume() {
    let mut c = MixerControl::new(0, 0, 0, 0);
    c.apply_command(AudioCommand::Resume, 0);
    c.apply_command(AudioCommand::Pause, MS);
    assert!(!c.pending_resume);
    assert!(!c.observe_loopback(true, 600 * MS));
    assert!(!c.observe_loopback(false, 900 * MS));
    assert_eq!(c.step(900 * MS, 1, 1), MixerStep::Discard);
    c.apply_command(AudioCommand::Resume, 1_000 * MS);
    assert!(c.observe_loopback(false, 1_500 * MS));
    assert_eq!(c.step(1_500 * MS, 1, 1), MixerStep::Process);
}

#[test]
fn mixer_pause_holds_over_many_passes() {
    let mut c = MixerControl::new(0, 0, 0, 0);
    c.apply_command(AudioCommand::Resume, 0);
    c.apply_command(AudioCommand::Pause, MS);
    for pass in 1..2_000u64 {
        let now = pass * MS;
        if pass % 7 == 0 {
            c.apply_command(AudioCommand::SetMicVolume(0.5f32.to_bits()), now);
        }
        assert!(!c.observe_loopback(pass % 3 == 0, now));
        assert_eq!(c.step(now, 1, 1), MixerStep::Discard);
    }
    assert!(c.paused);
}

#[test]
fn mixer_resume_times_out() {
    let mut c = MixerControl::new(0, 0, 0, 0);
    c.pause();
    c.resume(0);
    assert!(!c.observe_loopback(false, 499 * MS));
    assert!(c.observe_loopback(false, 500 * MS));
    assert!(!c.paused);
    c.stop();
    assert!(!c.running);
}

#[test]
fn mixer_commands_update_control() {
    let mut c = MixerControl::new(0, 0, 1.0f32.to_bits(), 0.5f32.to_bits());
    c.apply_command(AudioCommand::SetMicVolume(2.0f32.to_bits()), 0);
    assert_eq!(f32::from_bits(c.mic_volume), 2.0);
    c.apply_command(AudioCommand::SetLoopbackVolume(0.0f32.to_bits()), 0);
    assert_eq!(f32::from_bits(c.loopback_volume), 0.0);
    c.apply_command(AudioCommand::Pause, 0);
    assert_eq!(c.step(MS, 1, 1), MixerStep::Discard);
    c.apply_command(AudioCommand::Resume, 10 * MS);
    assert_eq!(c.resume_deadline, Some(510 * MS));
    c.apply_command(AudioCommand::Stop, 20 * MS);
    assert!(!c.running);
    assert!(c.pending_resume);
}

#[test]
fn loopback_quiet_rules() {
    assert!(loopback_is_quiet(None, 3));
    assert!(loopback_is_quiet(Some(0), 0));
    assert!(!loopback_is_quiet(Some(1), 0));
    assert!(!loopback_is_quiet(Some(0), 2));
}

#[test]
fn decode_16_bit_little_endian() {
    match decode_samples(&[0x01, 0x00, 0xff, 0x7f, 0x00, 0x80, 0xff, 0xff, 0x42], 16) {
        DecodedSamples::Pcm16(v) => assert_eq!(v, vec![1, i16::MAX, i16::MIN, -1]),
        other => panic!("unexpected {:?}", other),
    }
}

#[test]
fn decode_24_bit_sign_extends() {
    match decode_samples(&[0x11, 0x22, 0x33, 0xff, 0xff, 0xff, 0x00, 0x00, 0x80, 0x01], 24) {
        DecodedSamples::Pcm24(v) => assert_eq!(v, vec![0x332211, -1, -0x80_0000]),
        other => panic!("unexpected {:?}", other),
    }
}

#[test]
fn decode_32_bit_float_patterns() {
    let bytes = 0.25f32.to_le_bytes();
    match decode_samples(&[bytes[0], bytes[1], bytes[2], bytes[3], 9, 9], 32) {
        DecodedSamples::Float32(v) => {
            assert_eq!(v.len(), 1);
            assert_eq!(f32::from_bits(v[0]), 0.25);
        }
        other => panic!("unexpected {:?}", other),
    }
    assert!(matches!(decode_samples(&[1, 2, 3], 8), DecodedSamples::Unsupported));
}
