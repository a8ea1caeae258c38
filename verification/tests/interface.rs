use audiocaptor::audio::types::RecordingState;
use audiocaptor::portable::{data_dir_name, language_for_locale};
use audiocaptor::text::text_eq;
use audiocaptor::tray::{tray_action, tray_controls, tray_menu_labels, TrayAction};

#[test]
fn tray_labels_by_language() {
    let en = tray_menu_labels("en");
    assert_eq!(en.show_hide, "Show / Hide Window");
    assert_eq!(en.open_recordings, "Open Recordings Folder");
    assert_eq!(en.quit, "Quit");
    let uk = tray_menu_labels("uk");
    assert_eq!(uk.toggle, "Старт");
    assert_eq!(uk.about, "Про програму");
    assert_eq!(tray_menu_labels("de").stop, "Stop");
}

#[test]
fn tray_controls_follow_state() {
    let c = tray_controls(RecordingState::Idle, "en");
    assert_eq!(c.toggle_text, "Start");
    assert!(c.toggle_enabled);
    assert!(!c.stop_enabled);
    let c = tray_controls(RecordingState::Recording, "uk");
    assert_eq!(c.toggle_text, "Пауза");
    assert!(c.stop_enabled);
    let c = tray_controls(RecordingState::Paused, "en");
    assert_eq!(c.toggle_text, "Resume");
    assert!(c.stop_enabled);
}

#[test]
fn tray_menu_actions() {
    assert_eq!(tray_action("show-hide", RecordingState::Idle), TrayAction::ToggleWindow);
    assert_eq!(tray_action("toggle-recording", RecordingState::Idle), TrayAction::StartRecording);
    assert_eq!(tray_action("toggle-recording", RecordingState::Recording), TrayAction::PauseRecording);
    assert_eq!(tray_action("toggle-recording", RecordingState::Paused), TrayAction::ResumeRecording);
    assert_eq!(tray_action("stop-recording", RecordingState::Idle), TrayAction::StopRecording);
    assert_eq!(tray_action("open-recordings", RecordingState::Idle), TrayAction::OpenRecordingsFolder);
    assert_eq!(tray_action("about", RecordingState::Paused), TrayAction::ShowAbout);
    assert_eq!(tray_action("quit", RecordingState::Recording), TrayAction::ConfirmQuit);
    assert_eq!(tray_action("quit", RecordingState::Idle), TrayAction::Exit);
    assert_eq!(tray_action("unknown", RecordingState::Idle), TrayAction::Ignore);
}

#[test]
fn locale_to_language() {
    assert_eq!(language_for_locale("uk-UA"), "uk");
    assert_eq!(language_for_locale("uk"), "uk");
    assert_eq!(language_for_locale("ukx-UA"), "en");
    assert_eq!(language_for_locale("ru-RU"), "uk");
    assert_eq!(language_for_locale("ru"), "uk");
    assert_eq!(language_for_locale("rue-UA"), "en");
    assert_eq!(data_dir_name(), "AudioCaptor-data");
    assert_eq!(language_for_locale("en-US"), "en");
    assert_eq!(language_for_locale(""), "en");
}

#[test]
fn text_equality() {
    assert!(text_eq("abc", "abc"));
    assert!(!text_eq("abc", "abd"));
    assert!(!text_eq("ab", "abc"));
    assert_eq!(RecordingState::Paused.name(), "Paused");
}
