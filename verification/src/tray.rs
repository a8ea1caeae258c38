//! The system tray menu: its labels in English and Ukrainian, what each
//! item does, and how the recording controls follow the recording state.
use vstd::prelude::*;
use crate::audio::types::RecordingState;
use crate::text::text_eq;

verus! {

/// The tray speaks Ukrainian for the language code "uk" and English otherwise.
pub open spec fn is_ukrainian(language: Seq<char>) -> bool {
    language == "uk"@
}

fn ukrainian(language: &str) -> (r: bool)
    ensures
        r == is_ukrainian(language@),
{
    text_eq(language, "uk")
}

/// Texts of the tray menu items, fixed when the tray is built.
#[derive(Debug)]
pub struct TrayMenuLabels {
    pub show_hide: String,
    pub toggle: String,
    pub stop: String,
    pub open_recordings: String,
    pub about: String,
    pub quit: String,
}

/// The labels of the tray menu in `language`.
pub fn tray_menu_labels(language: &str) -> (r: TrayMenuLabels)
    ensures
        is_ukrainian(language@) ==> {
            &&& r.show_hide@ == "Показати / Сховати вікно"@
            &&& r.toggle@ == "Старт"@
            &&& r.stop@ == "Зупинити"@
            &&& r.open_recordings@ == "Відкрити папку записів"@
            &&& r.about@ == "Про програму"@
            &&& r.quit@ == "Вийти"@
        },
        !is_ukrainian(language@) ==> {
            &&& r.show_hide@ == "Show / Hide Window"@
            &&& r.toggle@ == "Start"@
            &&& r.stop@ == "Stop"@
            &&& r.open_recordings@ == "Open Recordings Folder"@
            &&& r.about@ == "About"@
            &&& r.quit@ == "Quit"@
        },
{
    if ukrainian(language) {
        TrayMenuLabels {
            show_hide: String::from_str("Показати / Сховати вікно"),
            toggle: String::from_str("Старт"),
            stop: String::from_str("Зупинити"),
            open_recordings: String::from_str("Відкрити папку записів"),
            about: String::from_str("Про програму"),
            quit: String::from_str("Вийти"),
        }
    } else {
        TrayMenuLabels {
            show_hide: String::from_str("Show / Hide Window"),
            toggle: String::from_str("Start"),
            stop: String::from_str("Stop"),
            open_recordings: String::from_str("Open Recordings Folder"),
            about: String::from_str("About"),
            quit: String::from_str("Quit"),
        }
    }
}

/// Text and enabled flags of the two recording controls.
#[derive(Debug)]
pub struct TrayControls {
    pub toggle_text: String,
    pub toggle_enabled: bool,
    pub stop_enabled: bool,
}

/// The English text of the toggle item in `state`.
pub open spec fn toggle_text_en(state: RecordingState) -> Seq<char> {
    match state {
        RecordingState::Idle => "Start"@,
        RecordingState::Recording => "Pause"@,
        RecordingState::Paused => "Resume"@,
    }
}

/// The Ukrainian text of the toggle item in `state`.
pub open spec fn toggle_text_uk(state: RecordingState) -> Seq<char> {
    match state {
        RecordingState::Idle => "Старт"@,
        RecordingState::Recording => "Пауза"@,
        RecordingState::Paused => "Продовжити"@,
    }
}

/// How the recording controls look in `state`: the toggle names the next
/// step and is always enabled; Stop is enabled unless idle.
pub fn tray_controls(state: RecordingState, language: &str) -> (r: TrayControls)
    ensures
        r.toggle_text@ == if is_ukrainian(language@) {
            toggle_text_uk(state)
        } else {
            toggle_text_en(state)
        },
        r.toggle_enabled,
        r.stop_enabled == (state != RecordingState::Idle),
{
    let uk = ukrainian(language);
    let text = match state {
        RecordingState::Idle => if uk {
            String::from_str("Старт")
        } else {
            String::from_str("Start")
        },
        RecordingState::Recording => if uk {
            String::from_str("Пауза")
        } else {
            String::from_str("Pause")
        },
        RecordingState::Paused => if uk {
            String::from_str("Продовжити")
        } else {
            String::from_str("Resume")
        },
    };
    let stop_enabled = match state {
        RecordingState::Idle => false,
        _ => true,
    };
    TrayControls { toggle_text: text, toggle_enabled: true, stop_enabled }
}

/// What a click on a tray menu item asks for.
#[derive(Debug, Clone, Copy, PartialEq, Eq, Structural)]
pub enum TrayAction {
    ToggleWindow,
    StartRecording,
    PauseRecording,
    ResumeRecording,
    StopRecording,
    OpenRecordingsFolder,
    ShowAbout,
    /// Show the window and ask the user to confirm quitting while recording.
    ConfirmQuit,
    Exit,
    Ignore,
}

/// The action for the menu item `id` clicked in `state`.
pub open spec fn tray_action_for(id: Seq<char>, state: RecordingState) -> TrayAction {
    if id == "show-hide"@ {
        TrayAction::ToggleWindow
    } else if id == "toggle-recording"@ {
        match state {
            RecordingState::Idle => TrayAction::StartRecording,
            RecordingState::Recording => TrayAction::PauseRecording,
            RecordingState::Paused => TrayAction::ResumeRecording,
        }
    } else if id == "stop-recording"@ {
        TrayAction::StopRecording
    } else if id == "open-recordings"@ {
        TrayAction::OpenRecordingsFolder
    } else if id == "about"@ {
        TrayAction::ShowAbout
    } else if id == "quit"@ {
        if state != RecordingState::Idle {
            TrayAction::ConfirmQuit
        } else {
            TrayAction::Exit
        }
    } else {
        TrayAction::Ignore
    }
}

/// Decides what a tray menu click does.
pub fn tray_action(id: &str, state: RecordingState) -> (r: TrayAction)
    ensures
        r == tray_action_for(id@, state),
{
    if text_eq(id, "show-hide") {
        TrayAction::ToggleWindow
    } else if text_eq(id, "toggle-recording") {
        match state {
            RecordingState::Idle => TrayAction::StartRecording,
            RecordingState::Recording => TrayAction::PauseRecording,
            RecordingState::Paused => TrayAction::ResumeRecording,
        }
    } else if text_eq(id, "stop-recording") {
        TrayAction::StopRecording
    } else if text_eq(id, "open-recordings") {
        TrayAction::OpenRecordingsFolder
    } else if text_eq(id, "about") {
        TrayAction::ShowAbout
    } else if text_eq(id, "quit") {
        if state != RecordingState::Idle {
            TrayAction::ConfirmQuit
        } else {
            TrayAction::Exit
        }
    } else {
        TrayAction::Ignore
    }
}

/// The toggle item offers exactly the step its label names, and Stop is
/// offered exactly when there is a recording to stop.
pub proof fn lemma_toggle_label_matches_action(state: RecordingState)
    ensures
        (tray_action_for("toggle-recording"@, state) == TrayAction::StartRecording)
            <==> toggle_text_en(state) == "Start"@,
        (tray_action_for("toggle-recording"@, state) == TrayAction::PauseRecording)
            <==> toggle_text_en(state) == "Pause"@,
        (tray_action_for("toggle-recording"@, state) == TrayAction::ResumeRecording)
            <==> toggle_text_en(state) == "Resume"@,
{
    reveal_strlit("Start");
    reveal_strlit("Pause");
    reveal_strlit("Resume");
    reveal_strlit("show-hide");
    reveal_strlit("toggle-recording");
    assert("toggle-recording"@[0] != "show-hide"@[0]);
    assert("Start"@[0] != "Pause"@[0]);
    assert("Start"@[0] != "Resume"@[0]);
    assert("Pause"@[0] != "Resume"@[0]);
}

/// In Ukrainian too the toggle item offers exactly the step its label
/// names: "Старт" starts, "Пауза" pauses, "Продовжити" resumes.
pub proof fn lemma_toggle_label_matches_action_uk(state: RecordingState)
    ensures
        (tray_action_for("toggle-recording"@, state) == TrayAction::StartRecording)
            <==> toggle_text_uk(state) == "Старт"@,
        (tray_action_for("toggle-recording"@, state) == TrayAction::PauseRecording)
            <==> toggle_text_uk(state) == "Пауза"@,
        (tray_action_for("toggle-recording"@, state) == TrayAction::ResumeRecording)
            <==> toggle_text_uk(state) == "Продовжити"@,
{
    reveal_strlit("Старт");
    reveal_strlit("Пауза");
    reveal_strlit("Продовжити");
    reveal_strlit("show-hide");
    reveal_strlit("toggle-recording");
    assert("toggle-recording"@[0] != "show-hide"@[0]);
    assert("Старт"@[0] != "Пауза"@[0]);
    assert("Старт"@[0] != "Продовжити"@[0]);
    assert("Пауза"@[1] != "Продовжити"@[1]);
}

/// The toggle item only asks for a step that the recorder's state allows.
pub proof fn lemma_toggle_asks_allowed_steps(state: RecordingState)
    ensures
        tray_action_for("toggle-recording"@, state) == TrayAction::StartRecording ==> state
            == RecordingState::Idle,
        tray_action_for("toggle-recording"@, state) == TrayAction::PauseRecording ==> state
            == RecordingState::Recording,
        tray_action_for("toggle-recording"@, state) == TrayAction::ResumeRecording ==> state
            == RecordingState::Paused,
{
    reveal_strlit("show-hide");
    reveal_strlit("toggle-recording");
    assert("toggle-recording"@[0] != "show-hide"@[0]);
}

/// What each tray item does in each state: "quit" exits at once only when
/// the recorder is idle, and otherwise asks for confirmation, paused or
/// recording alike; "stop-recording", "show-hide", "open-recordings" and
/// "about" act the same in every state.
pub proof fn lemma_tray_items(state: RecordingState)
    ensures
        (tray_action_for("quit"@, state) == TrayAction::Exit) <==> state == RecordingState::Idle,
        state == RecordingState::Recording ==> tray_action_for("quit"@, state)
            == TrayAction::ConfirmQuit,
        state == RecordingState::Paused ==> tray_action_for("quit"@, state)
            == TrayAction::ConfirmQuit,
        tray_action_for("stop-recording"@, state) == TrayAction::StopRecording,
        tray_action_for("show-hide"@, state) == TrayAction::ToggleWindow,
        tray_action_for("open-recordings"@, state) == TrayAction::OpenRecordingsFolder,
        tray_action_for("about"@, state) == TrayAction::ShowAbout,
        tray_action_for(""@, state) == TrayAction::Ignore,
{
    reveal_strlit("quit");
    reveal_strlit("show-hide");
    reveal_strlit("toggle-recording");
    reveal_strlit("stop-recording");
    reveal_strlit("open-recordings");
    reveal_strlit("about");
    reveal_strlit("");
    assert("quit"@[0] != "show-hide"@[0]);
    assert("quit"@[0] != "toggle-recording"@[0]);
    assert("quit"@[0] != "stop-recording"@[0]);
    assert("quit"@[0] != "open-recordings"@[0]);
    assert("quit"@[0] != "about"@[0]);
    assert("stop-recording"@[1] != "show-hide"@[1]);
    assert("stop-recording"@[0] != "toggle-recording"@[0]);
    assert("open-recordings"@[0] != "show-hide"@[0]);
    assert("open-recordings"@[0] != "toggle-recording"@[0]);
    assert("open-recordings"@[0] != "stop-recording"@[0]);
    assert("about"@[0] != "show-hide"@[0]);
    assert("about"@[0] != "toggle-recording"@[0]);
    assert("about"@[0] != "stop-recording"@[0]);
    assert("about"@[0] != "open-recordings"@[0]);
    assert("show-hide"@[0] == 's');
    assert(""@.len() != "show-hide"@.len());
    assert(""@.len() != "toggle-recording"@.len());
    assert(""@.len() != "stop-recording"@.len());
    assert(""@.len() != "open-recordings"@.len());
    assert(""@.len() != "about"@.len());
    assert(""@.len() != "quit"@.len());
}

} // verus!
