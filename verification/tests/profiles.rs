use audiocaptor::profiles::{
    find_profile, profile_or_default, validate_filename, validate_profile_name, RecordingProfile,
};

#[test]
fn default_profile_has_expected_values() {
    let p = RecordingProfile::default();
    assert_eq!(p.id, "default");
    assert_eq!(p.name, "Default");
    assert_eq!(p.output_mode, audiocaptor::audio::types::OutputMode::Mix);
    assert_eq!(p.sample_rate, 48000);
    assert_eq!(f32::from_bits(p.mic_volume), 1.0);
    assert_eq!(f32::from_bits(p.loopback_volume), 0.5);
    assert_eq!(p.mic_filename, "mic");
    assert_eq!(p.loopback_filename, "loopback");
    assert_eq!(p.mix_filename, "mix");
}

#[test]
fn validate_filename_rejects_forbidden_chars() {
    assert!(validate_filename("good_name").is_ok());
    assert!(validate_filename("my-recording").is_ok());
    assert!(validate_filename("test 123").is_ok());
    assert!(validate_filename("bad<name").is_err());
    assert!(validate_filename("bad>name").is_err());
    assert!(validate_filename("bad:name").is_err());
    assert!(validate_filename("bad\"name").is_err());
    assert!(validate_filename("bad/name").is_err());
    assert!(validate_filename("bad\\name").is_err());
    assert!(validate_filename("bad|name").is_err());
    assert!(validate_filename("bad?name").is_err());
    assert!(validate_filename("bad*name").is_err());
}

#[test]
fn validate_filename_rejects_empty() {
    assert!(validate_filename("").is_err());
}

#[test]
fn validate_profile_name_rejects_empty() {
    assert!(validate_profile_name("").is_err());
}

#[test]
fn validate_profile_name_accepts_valid() {
    assert!(validate_profile_name("My Profile").is_ok());
    assert!(validate_profile_name("Podcast Recording").is_ok());
}

#[test]
fn validate_filename_error_messages() {
    assert_eq!(validate_filename("").unwrap_err(), "Filename cannot be empty");
    assert_eq!(
        validate_filename("a?b*c").unwrap_err(),
        "Filename contains forbidden character: '?'"
    );
    assert_eq!(
        validate_filename("ключ:1").unwrap_err(),
        "Filename contains forbidden character: ':'"
    );
    assert!(validate_filename("запис").is_ok());
}

#[test]
fn validate_profile_name_rejects_white_space_only() {
    assert_eq!(
        validate_profile_name(" \t\n\u{3000}").unwrap_err(),
        "Profile name cannot be empty"
    );
    assert!(validate_profile_name("  x  ").is_ok());
    assert!(validate_profile_name("\u{200B}").is_ok());
}

#[test]
fn find_profile_returns_first_match() {
    let mut other = RecordingProfile::default();
    other.id = "custom".to_string();
    other.name = "Podcast".to_string();
    let mut dup = RecordingProfile::default();
    dup.id = "custom".to_string();
    dup.name = "Second".to_string();
    let profiles = vec![RecordingProfile::default(), other, dup];
    assert_eq!(find_profile(&profiles, "custom"), Some(1));
    assert_eq!(find_profile(&profiles, "default"), Some(0));
    assert_eq!(find_profile(&profiles, "missing"), None);
    assert_eq!(profile_or_default(&profiles, "custom").name, "Podcast");
    assert_eq!(profile_or_default(&profiles, "missing").id, "default");
}
