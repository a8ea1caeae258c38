use audiocaptor::audio::types::OutputMode;
use audiocaptor::profiles::RecordingProfile;
use audiocaptor::settings::{default_sample_rate, first_run_settings, migrate_settings, Settings};

#[test]
fn migrate_settings_upgrades_v0_to_v2() {
    let mut settings = Settings::default();
    settings.version = 0;
    let migrated = migrate_settings(settings);
    assert_eq!(migrated.version, 3);
    assert_eq!(migrated.profiles.len(), 1);
}

#[test]
fn migrate_settings_upgrades_v1_to_v2() {
    let mut settings = Settings::default();
    settings.version = 1;
    let migrated = migrate_settings(settings);
    assert_eq!(migrated.version, 3);
    assert_eq!(migrated.profiles.len(), 1);
    assert_eq!(migrated.active_profile_id, "default");
}

#[test]
fn settings_v2_has_profiles_and_active_id() {
    let settings = Settings::default();
    assert_eq!(settings.version, 3);
    assert_eq!(settings.profiles.len(), 1);
    assert_eq!(settings.active_profile_id, "default");
    assert_eq!(settings.profiles[0].name, "Default");
}

/// The settings a version 1 file holds: its flat fields over the defaults.
fn flat_v1_settings() -> Settings {
    let mut s = Settings::default();
    s.version = 1;
    s.selected_mic = Some("mic-123".to_string());
    s.selected_loopback = Some("loop-456".to_string());
    s.mic_volume = 0.8f32.to_bits();
    s.loopback_volume = 0.3f32.to_bits();
    s.output_mode = OutputMode::Loopback;
    s.sample_rate = 44100;
    s.hotkey = "F9".to_string();
    s.sound_enabled = false;
    s
}

#[test]
fn migrate_v1_to_v2_creates_default_profile_from_flat_fields() {
    let settings = flat_v1_settings();
    let migrated = migrate_settings(settings);
    assert_eq!(migrated.version, 3);
    assert_eq!(migrated.profiles.len(), 1);
    let p = &migrated.profiles[0];
    assert_eq!(p.id, "default");
    assert_eq!(f32::from_bits(p.mic_volume), 0.8);
    assert_eq!(f32::from_bits(p.loopback_volume), 0.3);
    assert_eq!(p.output_mode, OutputMode::Loopback);
    assert_eq!(p.sample_rate, 44100);
    assert_eq!(migrated.active_profile_id, "default");
    assert_eq!(migrated.selected_mic, Some("mic-123".into()));
    assert_eq!(migrated.hotkey, "F9");
    assert!(!migrated.sound_enabled);
}

#[test]
fn migrate_v0_to_v2_goes_through_both_steps() {
    // A file without a version field reads as the default version.
    let mut settings = Settings::default();
    settings.selected_mic = None;
    settings.selected_loopback = None;
    settings.mic_volume = 1.0f32.to_bits();
    settings.loopback_volume = 0.5f32.to_bits();
    settings.output_mode = OutputMode::Mix;
    settings.sample_rate = 48000;
    settings.hotkey = "Pause".to_string();
    settings.sound_enabled = true;
    let migrated = migrate_settings(settings);
    assert_eq!(migrated.version, 3);
    assert_eq!(migrated.profiles.len(), 1);
}

#[test]
fn migrate_v2_to_v3_adds_language_and_confirm_exit() {
    let mut settings = Settings::default();
    settings.version = 2;
    settings.selected_mic = None;
    settings.selected_loopback = None;
    settings.hotkey = "Pause".to_string();
    settings.sound_enabled = true;
    settings.profiles = vec![];
    settings.active_profile_id = "default".to_string();
    let migrated = migrate_settings(settings);
    assert_eq!(migrated.version, 3);
    assert_eq!(migrated.language, "en");
    assert!(migrated.confirm_exit_during_recording);
}

#[test]
fn settings_default_has_version_3() {
    let s = Settings::default();
    assert_eq!(s.version, 3);
    assert_eq!(s.language, "en");
    assert!(s.confirm_exit_during_recording);
}

#[test]
fn migrate_v2_with_empty_profiles_gets_default_profile() {
    let mut settings = Settings::default();
    settings.version = 2;
    settings.profiles = vec![];
    settings.active_profile_id = "gone".to_string();
    let migrated = migrate_settings(settings);
    assert_eq!(migrated.profiles.len(), 1);
    assert_eq!(migrated.profiles[0].id, "default");
    assert_eq!(migrated.active_profile_id, "default");
}

#[test]
fn migrate_v2_keeps_existing_profiles() {
    let mut settings = Settings::default();
    settings.version = 2;
    let mut custom = RecordingProfile::default();
    custom.id = "custom".to_string();
    custom.name = "Podcast".to_string();
    settings.profiles = vec![RecordingProfile::default(), custom];
    settings.active_profile_id = "custom".to_string();
    let migrated = migrate_settings(settings);
    assert_eq!(migrated.version, 3);
    assert_eq!(migrated.profiles.len(), 2);
    assert_eq!(migrated.profiles[1].name, "Podcast");
    assert_eq!(migrated.active_profile_id, "custom");
}

#[test]
fn migrate_leaves_unknown_and_current_versions_alone() {
    let mut settings = Settings::default();
    settings.version = 7;
    settings.profiles = vec![];
    let migrated = migrate_settings(settings);
    assert_eq!(migrated.version, 7);
    assert!(migrated.profiles.is_empty());

    let mut current = Settings::default();
    current.profiles = vec![];
    let migrated = migrate_settings(current);
    assert_eq!(migrated.version, 3);
    assert!(migrated.profiles.is_empty());
}

#[test]
fn migrate_twice_is_migrate_once() {
    let once = migrate_settings(flat_v1_settings());
    let twice = migrate_settings(migrate_settings(flat_v1_settings()));
    assert_eq!(once.version, twice.version);
    assert_eq!(once.profiles.len(), twice.profiles.len());
    assert_eq!(once.profiles[0].sample_rate, twice.profiles[0].sample_rate);
    assert_eq!(once.profiles[0].output_mode, twice.profiles[0].output_mode);
    assert_eq!(once.active_profile_id, twice.active_profile_id);
}

#[test]
fn first_run_settings_use_detected_language() {
    let s = first_run_settings("uk");
    assert_eq!(s.language, "uk");
    assert_eq!(s.version, 3);
    assert_eq!(s.profiles.len(), 1);
    assert_eq!(default_sample_rate(), 48000);
}

#[test]
fn select_profile_switches_or_reports_missing() {
    let mut settings = Settings::default();
    let mut custom = RecordingProfile::default();
    custom.id = "custom".to_string();
    custom.mic_volume = 0.25f32.to_bits();
    settings.profiles.push(custom);
    assert_eq!(settings.select_profile("custom"), Ok(1));
    assert_eq!(settings.active_profile_id, "custom");
    assert_eq!(f32::from_bits(settings.active_profile().unwrap().mic_volume), 0.25);
    assert_eq!(
        settings.select_profile("nope"),
        Err("Profile not found: nope".to_string())
    );
    assert_eq!(settings.active_profile_id, "custom");
    settings.active_profile_id = "gone".to_string();
    assert_eq!(
        settings.active_profile().unwrap_err(),
        "Active profile not found"
    );
}

#[test]
fn deleting_active_profile_falls_back_to_first() {
    let mut settings = Settings::default();
    settings.active_profile_id = "gone".to_string();
    assert_eq!(settings.reselect_after_delete("gone"), "default");
    assert_eq!(settings.active_profile_id, "default");
    let mut other = RecordingProfile::default();
    other.id = "custom".to_string();
    settings.profiles.push(other);
    settings.active_profile_id = "custom".to_string();
    assert_eq!(settings.reselect_after_delete("something-else"), "custom");
}
