use audiocaptor::audio::types::{OutputMode, RecordingState};
use audiocaptor::hotkey::{hotkey_action, HotkeyAction, PressTracker};
use audiocaptor::profiles::RecordingProfile;
use audiocaptor::recording::{
    capture_plan, devices_present, output_files, output_streams, source_format, stream_file_name, CapturePlan,
    StreamKind,
};
use audiocaptor::settings::Settings;
use audiocaptor::sounds::SoundKind;
use audiocaptor::state::AppState;
use audiocaptor::{play_sound, play_sound_blocking};

const MS: u64 = 1_000_000;

fn some(s: &str) -> Option<String> {
    Some(s.to_string())
}

#[test]
fn start_requires_idle_and_devices() {
    let s = AppState::default();
    assert_eq!(
        s.check_start(&None, &some("out"), OutputMode::Mix),
        Err("DEVICE_NOT_FOUND: Microphone device required for this mode".to_string())
    );
    assert_eq!(
        s.check_start(&some("mic"), &None, OutputMode::MixPlusMicrophone),
        Err("DEVICE_NOT_FOUND: Loopback device required for this mode".to_string())
    );
    assert_eq!(s.check_start(&None, &some("out"), OutputMode::Loopback), Ok(()));
    assert_eq!(
        s.check_start(&some("mic"), &None, OutputMode::SeparateFiles),
        Err("DEVICE_NOT_FOUND: Loopback device required for this mode".to_string())
    );
    assert_eq!(s.check_start(&some("mic"), &None, OutputMode::Microphone), Ok(()));
    let mut r = AppState::default();
    r.apply_start(0, OutputMode::Mix, &some("mic"), &some("out"));
    assert_eq!(
        r.check_start(&some("mic"), &some("out"), OutputMode::Mix),
        Err("Already recording".to_string())
    );
}

#[test]
fn pause_resume_stop_cycle_and_duration() {
    let mut s = AppState::default();
    assert_eq!(s.check_pause(), Err("Not recording".to_string()));
    assert_eq!(s.check_resume(), Err("Not paused".to_string()));
    assert_eq!(s.check_stop(), Err("Not recording".to_string()));
    assert_eq!(s.duration_ms(5_000 * MS), 0);

    s.apply_start(1_000 * MS, OutputMode::Mix, &some("mic"), &some("out"));
    assert_eq!(s.recording_state, RecordingState::Recording);
    assert_eq!(s.duration_ms(3_500 * MS), 2_500);
    assert!(s.duration_ms(3_600 * MS) >= s.duration_ms(3_500 * MS));
    assert_eq!(s.check_resume(), Err("Not paused".to_string()));

    assert_eq!(s.check_pause(), Ok(()));
    s.apply_pause(4_000 * MS);
    assert_eq!(s.duration_ms(4_000 * MS), 3_000);
    assert_eq!(s.duration_ms(9_000 * MS), 3_000);

    assert_eq!(s.check_resume(), Ok(()));
    s.apply_resume(10_000 * MS);
    assert_eq!(s.paused_duration, 6_000 * MS);
    assert_eq!(s.duration_ms(10_000 * MS), 3_000);
    assert_eq!(s.duration_ms(11_999 * MS), 4_999);

    assert!(s.is_recording_device("out"));
    assert!(!s.is_recording_device("other"));
    assert_eq!(s.check_stop(), Ok(()));
    s.apply_stop();
    assert_eq!(s.recording_state, RecordingState::Idle);
    assert_eq!(s.duration_ms(20_000 * MS), 0);
    assert!(!s.is_recording_device("out"));
}

#[test]
fn duration_before_start_reading_is_zero() {
    let mut s = AppState::default();
    s.apply_start(5_000 * MS, OutputMode::Microphone, &some("mic"), &None);
    assert_eq!(s.duration_ms(4_000 * MS), 0);
}

#[test]
fn sounds_follow_switch_and_engine() {
    let mut s = AppState::default();
    assert_eq!(play_sound(&s, SoundKind::Start), None);
    s.has_sound_engine = true;
    assert_eq!(play_sound(&s, SoundKind::Pause), Some(SoundKind::Pause));
    assert_eq!(play_sound_blocking(&s, SoundKind::Start), Some(SoundKind::Start));
    s.sounds_enabled = false;
    assert_eq!(play_sound_blocking(&s, SoundKind::Stop), None);
}

#[test]
fn state_takes_profile_and_settings() {
    let mut settings = Settings::default();
    let mut custom = RecordingProfile::default();
    custom.id = "custom".to_string();
    custom.mic_volume = 2.0f32.to_bits();
    settings.profiles.push(custom);
    settings.active_profile_id = "custom".to_string();
    settings.sound_enabled = false;
    let mut s = AppState::default();
    s.apply_settings(&settings);
    assert_eq!(f32::from_bits(s.mic_volume), 2.0);
    assert_eq!(s.active_profile_id, "custom");
    assert!(!s.sounds_enabled);
    s.apply_profile(&RecordingProfile::default());
    assert_eq!(f32::from_bits(s.mic_volume), 1.0);
    assert_eq!(s.active_profile_id, "default");
}

#[test]
fn hotkey_short_and_long_presses() {
    assert_eq!(hotkey_action(RecordingState::Idle, 900), HotkeyAction::Start);
    assert_eq!(hotkey_action(RecordingState::Recording, 499), HotkeyAction::Pause);
    assert_eq!(hotkey_action(RecordingState::Recording, 500), HotkeyAction::Stop);
    assert_eq!(hotkey_action(RecordingState::Paused, 10), HotkeyAction::Resume);
    assert_eq!(hotkey_action(RecordingState::Paused, 600), HotkeyAction::Stop);
}

#[test]
fn press_tracker_measures_hold() {
    let mut t = PressTracker::new();
    assert_eq!(t.release(5 * MS), 0);
    t.press(10 * MS);
    assert_eq!(t.release(10 * MS + 749_999_999), 749);
    assert_eq!(t.release(2_000 * MS), 0);
}

#[test]
fn output_files_follow_mode() {
    let mut p = RecordingProfile::default();
    p.mic_filename = "voice".to_string();
    let ts = "2026-03-31_14-30-00";
    let f = output_files(OutputMode::Mix, &p, ts);
    assert_eq!(f.primary, "mix_2026-03-31_14-30-00.wav");
    assert_eq!(f.secondary, None);
    let f = output_files(OutputMode::MixPlusMicrophone, &p, ts);
    assert_eq!(f.primary, "mix_2026-03-31_14-30-00.wav");
    assert_eq!(f.secondary, Some("voice_2026-03-31_14-30-00.wav".to_string()));
    let f = output_files(OutputMode::MixPlusLoopback, &p, ts);
    assert_eq!(f.secondary, Some("loopback_2026-03-31_14-30-00.wav".to_string()));
    let f = output_files(OutputMode::SeparateFiles, &p, ts);
    assert_eq!(f.primary, "voice_2026-03-31_14-30-00.wav");
    assert_eq!(f.secondary, Some("loopback_2026-03-31_14-30-00.wav".to_string()));
    assert_eq!(
        output_streams(OutputMode::SeparateFiles),
        (StreamKind::Microphone, Some(StreamKind::Loopback))
    );
    let f = output_files(OutputMode::Loopback, &p, ts);
    assert_eq!(f.primary, "loopback_2026-03-31_14-30-00.wav");
    assert_eq!(stream_file_name(StreamKind::Microphone, &p, "x"), "voice_x.wav");
    assert_eq!(output_streams(OutputMode::Microphone), (StreamKind::Microphone, None));
}

#[test]
fn capture_plan_and_formats() {
    assert_eq!(
        capture_plan(OutputMode::Microphone, &some("mic"), &some("out")),
        CapturePlan { microphone: true, loopback: false }
    );
    assert_eq!(
        capture_plan(OutputMode::Mix, &some("mic"), &some("out")),
        CapturePlan { microphone: true, loopback: true }
    );
    assert_eq!(
        capture_plan(OutputMode::SeparateFiles, &some("mic"), &some("out")),
        CapturePlan { microphone: true, loopback: true }
    );
    assert!(devices_present(OutputMode::Loopback, &None, &some("out")));
    assert!(!devices_present(OutputMode::SeparateFiles, &some("mic"), &None));
    assert!(!devices_present(OutputMode::Microphone, &None, &some("out")));
    assert_eq!(source_format(Some((44100, 1)), 48000), (44100, 1));
    assert_eq!(source_format(None, 48000), (48000, 2));
}
