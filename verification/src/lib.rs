//! Verified core of a portable system-audio recorder: recording profiles and
//! settings migration, the recording session state machine, the hotkey and
//! tray decisions, and the sample bookkeeping of the real-time mixer.
pub mod audio;
pub mod hotkey;
pub mod portable;
pub mod profiles;
pub mod recording;
pub mod settings;
pub mod sounds;
pub mod state;
pub mod text;
pub mod tray;

use vstd::prelude::*;
use crate::sounds::SoundKind;
use crate::state::{is_initial_state, AppState};

verus! {

/// A notification sound is played when sounds are switched on and a player
/// is running.
pub open spec fn plays_sounds(state: AppState) -> bool {
    state.sounds_enabled && state.has_sound_engine
}

/// Switching sounds off silences them, and so does a missing player: the
/// state the application starts in, before its player runs, plays none.
pub proof fn lemma_sound_needs_switch_and_player(s: AppState)
    ensures
        !s.sounds_enabled ==> !plays_sounds(s),
        !s.has_sound_engine ==> !plays_sounds(s),
        s.sounds_enabled && s.has_sound_engine ==> plays_sounds(s),
        is_initial_state(s) ==> !plays_sounds(s),
{
}

/// The sound to queue on the player for `kind`, if any; the caller queues it
/// without waiting.
pub fn play_sound(state: &AppState, kind: SoundKind) -> (r: Option<SoundKind>)
    ensures
        plays_sounds(*state) ==> r == Some(kind),
        !plays_sounds(*state) ==> r is None,
{
    if state.sounds_enabled && state.has_sound_engine {
        Some(kind)
    } else {
        None
    }
}

/// The sound to play for `kind` before going on, if any; the caller plays
/// it and waits for it to end.
pub fn play_sound_blocking(state: &AppState, kind: SoundKind) -> (r: Option<SoundKind>)
    ensures
        plays_sounds(*state) ==> r == Some(kind),
        !plays_sounds(*state) ==> r is None,
{
    if state.sounds_enabled && state.has_sound_engine {
        Some(kind)
    } else {
        None
    }
}

} // verus!
