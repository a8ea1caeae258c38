//! The global hotkey: a short press starts, pauses or resumes; a long press
//! (500 ms or more) stops and saves.
use vstd::prelude::*;
use crate::audio::types::RecordingState;

verus! {

/// Presses at least this long (in milliseconds) are long presses.
pub const LONG_PRESS_MS: u128 = 500;

/// What a completed hotkey press asks the recorder to do.
#[derive(Debug, Clone, Copy, PartialEq, Eq, Structural)]
pub enum HotkeyAction {
    Start,
    Pause,
    Resume,
    Stop,
}

/// The action for a press of `press_ms` milliseconds in `state`.
pub open spec fn action_for(state: RecordingState, press_ms: u128) -> HotkeyAction {
    match state {
        RecordingState::Idle => HotkeyAction::Start,
        RecordingState::Recording => if press_ms < LONG_PRESS_MS {
            HotkeyAction::Pause
        } else {
            HotkeyAction::Stop
        },
        RecordingState::Paused => if press_ms < LONG_PRESS_MS {
            HotkeyAction::Resume
        } else {
            HotkeyAction::Stop
        },
    }
}

/// Decides what a released hotkey does.
pub fn hotkey_action(state: RecordingState, press_ms: u128) -> (r: HotkeyAction)
    ensures
        r == action_for(state, press_ms),
{
    match state {
        RecordingState::Idle => HotkeyAction::Start,
        RecordingState::Recording => {
            if press_ms < LONG_PRESS_MS {
                HotkeyAction::Pause
            } else {
                HotkeyAction::Stop
            }
        },
        RecordingState::Paused => {
            if press_ms < LONG_PRESS_MS {
                HotkeyAction::Resume
            } else {
                HotkeyAction::Stop
            }
        },
    }
}

/// How long, in whole milliseconds, a key pressed at `pressed_at`
/// (nanoseconds) was held when released at `now`; 0 without a press or when
/// the clock reads earlier than the press.
pub open spec fn held_ms(pressed_at: Option<u64>, now: u64) -> u128 {
    match pressed_at {
        Some(t) => if now >= t {
            ((now - t) / 1_000_000) as u128
        } else {
            0
        },
        None => 0,
    }
}

/// Remembers when the hotkey went down. Clock readings are nanoseconds on
/// one monotonic clock.
#[derive(Debug)]
pub struct PressTracker {
    pub pressed_at: Option<u64>,
}

impl PressTracker {
    pub fn new() -> (r: Self)
        ensures
            r.pressed_at is None,
    {
        PressTracker { pressed_at: None }
    }

    /// The key went down at `now`.
    pub fn press(&mut self, now: u64)
        ensures
            final(self).pressed_at == Some(now),
    {
        self.pressed_at = Some(now);
    }

    /// The key came up at `now`: returns how long it was held, in whole
    /// milliseconds (0 when no press was seen), and forgets the press.
    pub fn release(&mut self, now: u64) -> (ms: u128)
        ensures
            final(self).pressed_at is None,
            ms == held_ms(old(self).pressed_at, now),
    {
        let ms: u128 = match self.pressed_at {
            Some(t) => (now.saturating_sub(t) / 1_000_000) as u128,
            None => 0,
        };
        self.pressed_at = None;
        ms
    }
}

/// A short press never stops a recording, and a long press never pauses or
/// resumes one.
pub proof fn lemma_press_length_decides(state: RecordingState, press_ms: u128)
    ensures
        press_ms < LONG_PRESS_MS ==> action_for(state, press_ms) != HotkeyAction::Stop,
        press_ms >= LONG_PRESS_MS && state != RecordingState::Idle ==> action_for(state, press_ms)
            == HotkeyAction::Stop,
        state == RecordingState::Idle ==> action_for(state, press_ms) == HotkeyAction::Start,
{
}

/// The hotkey only asks for a step that the recorder's state allows: start
/// when idle, pause while recording, resume while paused, stop while either.
pub proof fn lemma_hotkey_asks_allowed_steps(state: RecordingState, press_ms: u128)
    ensures
        action_for(state, press_ms) == HotkeyAction::Start ==> state == RecordingState::Idle,
        action_for(state, press_ms) == HotkeyAction::Pause ==> state == RecordingState::Recording,
        action_for(state, press_ms) == HotkeyAction::Resume ==> state == RecordingState::Paused,
        action_for(state, press_ms) == HotkeyAction::Stop ==> state != RecordingState::Idle,
{
}

/// The threshold is half a second: below 500 ms a press pauses a recording
/// or resumes a paused one; from 500 ms on it stops either.
pub proof fn lemma_half_second_threshold(state: RecordingState, press_ms: u128)
    ensures
        press_ms < 500 && state == RecordingState::Recording ==> action_for(state, press_ms)
            == HotkeyAction::Pause,
        press_ms < 500 && state == RecordingState::Paused ==> action_for(state, press_ms)
            == HotkeyAction::Resume,
        press_ms >= 500 && state != RecordingState::Idle ==> action_for(state, press_ms)
            == HotkeyAction::Stop,
{
}

/// The held time counts whole milliseconds of the nanoseconds between press
/// and release: `ms` milliseconds means at least `ms * 1_000_000` and fewer
/// than `(ms + 1) * 1_000_000` nanoseconds passed.
pub proof fn lemma_held_time_in_whole_ms(t: u64, now: u64)
    requires
        now >= t,
    ensures
        held_ms(Some(t), now) * 1_000_000 <= now - t,
        now - t < (held_ms(Some(t), now) + 1) * 1_000_000,
        held_ms(None, now) == 0,
{
    let d: int = now - t;
    assert(d / 1_000_000 * 1_000_000 <= d && d < (d / 1_000_000 + 1) * 1_000_000)
        by (nonlinear_arith)
        requires
            d >= 0,
    ;
    assert(d / 1_000_000 < 0x1_0000_0000_0000_0000_0000_0000_0000_0000) by (nonlinear_arith)
        requires
            0 <= d < 0x1_0000_0000_0000_0000,
    ;
}

} // verus!
