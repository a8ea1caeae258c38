//! The recording session: which state the recorder is in, what it records
//! from, and how long it has recorded, with pauses left out.
//!
//! Clock readings are nanoseconds on one monotonic clock, read by the caller.
use vstd::prelude::*;
use crate::audio::types::{OutputMode, RecordingState};
use crate::profiles::{find_profile, first_with_id, has_profile, RecordingProfile, HALF_GAIN_BITS, UNITY_GAIN_BITS};
use crate::recording::has_devices_for;
use crate::settings::Settings;
use crate::text::text_eq;

verus! {

pub const NANOS_PER_MILLI: u64 = 1_000_000;

/// Shared state of the recorder. Gains are `f32` bit patterns.
#[derive(Debug)]
pub struct AppState {
    pub recording_state: RecordingState,
    pub selected_mic: Option<String>,
    pub selected_loopback: Option<String>,
    pub mic_volume: u32,
    pub loopback_volume: u32,
    pub output_mode: OutputMode,
    /// Clock reading at which the current recording started.
    pub recording_start_time: Option<u64>,
    /// Nanoseconds spent paused in pauses that have ended.
    pub paused_duration: u64,
    /// Clock reading at which the current pause started.
    pub pause_start_time: Option<u64>,
    /// A notification sound player is running.
    pub has_sound_engine: bool,
    pub sounds_enabled: bool,
    pub active_profile_id: String,
    pub recording_mic_id: Option<String>,
    pub recording_loopback_id: Option<String>,
}

/// `later - earlier`, or zero when `later` comes first (as `Instant::elapsed`).
pub open spec fn elapsed(earlier: u64, later: u64) -> int {
    if later >= earlier {
        later - earlier
    } else {
        0
    }
}

fn elapsed_exec(earlier: u64, later: u64) -> (r: u64)
    ensures
        r == elapsed(earlier, later),
{
    later.saturating_sub(earlier)
}

impl AppState {
    /// The timing fields agree with the recording state.
    pub open spec fn wf(&self) -> bool {
        match self.recording_state {
            RecordingState::Idle => self.recording_start_time is None && self.pause_start_time
                is None,
            RecordingState::Recording => self.recording_start_time is Some
                && self.pause_start_time is None,
            RecordingState::Paused => self.recording_start_time is Some
                && self.pause_start_time is Some,
        }
    }

    /// Nanoseconds spent paused up to `now`, the running pause included.
    pub open spec fn paused_ns(&self, now: u64) -> int {
        self.paused_duration + match self.pause_start_time {
            Some(p) => elapsed(p, now),
            None => 0,
        }
    }

    /// The paused total up to `now` fits the clock's range.
    pub open spec fn paused_fits(&self, now: u64) -> bool {
        self.paused_ns(now) <= u64::MAX
    }

    /// Milliseconds recorded up to `now`, pauses left out; 0 when idle.
    pub open spec fn recorded_ms(&self, now: u64) -> int {
        match self.recording_start_time {
            Some(start) => {
                let e = elapsed(start, now);
                let p = self.paused_ns(now);
                (if e >= p {
                    e - p
                } else {
                    0
                }) / (NANOS_PER_MILLI as int)
            },
            None => 0,
        }
    }

    /// The current recording duration in milliseconds, accounting for pauses.
    pub fn duration_ms(&self, now: u64) -> (r: u64)
        requires
            self.paused_fits(now),
        ensures
            r == self.recorded_ms(now),
    {
        match self.recording_start_time {
            Some(start) => {
                let e = elapsed_exec(start, now);
                let running = match self.pause_start_time {
                    Some(p) => elapsed_exec(p, now),
                    None => 0,
                };
                let paused = self.paused_duration + running;
                e.saturating_sub(paused) / NANOS_PER_MILLI
            },
            None => 0,
        }
    }

    /// Whether a recording may start: the recorder is idle and each source
    /// that `mode` records has a device.
    pub fn check_start(
        &self,
        mic_id: &Option<String>,
        loopback_id: &Option<String>,
        mode: OutputMode,
    ) -> (r: Result<(), String>)
        ensures
            self.recording_state != RecordingState::Idle ==> (r matches Err(e) && e@
                == "Already recording"@),
            self.recording_state == RecordingState::Idle && mode.uses_microphone()
                && mic_id is None ==> (r matches Err(e) && e@
                == "DEVICE_NOT_FOUND: Microphone device required for this mode"@),
            self.recording_state == RecordingState::Idle && !(mode.uses_microphone()
                && mic_id is None) && mode.uses_loopback() && loopback_id is None ==> (r matches Err(
                e,
            ) && e@ == "DEVICE_NOT_FOUND: Loopback device required for this mode"@),
            r is Ok <==> self.recording_state == RecordingState::Idle && has_devices_for(
                mode,
                mic_id is Some,
                loopback_id is Some,
            ),
    {
        if self.recording_state != RecordingState::Idle {
            return Err(String::from_str("Already recording"));
        }
        if mode.needs_microphone() && mic_id.is_none() {
            return Err(String::from_str("DEVICE_NOT_FOUND: Microphone device required for this mode"));
        }
        if mode.needs_loopback() && loopback_id.is_none() {
            return Err(String::from_str("DEVICE_NOT_FOUND: Loopback device required for this mode"));
        }
        Ok(())
    }

    /// Enters the recording state at `now`, once the capture and mixer run.
    pub fn apply_start(
        &mut self,
        now: u64,
        mode: OutputMode,
        mic_id: &Option<String>,
        loopback_id: &Option<String>,
    )
        requires
            old(self).recording_state == RecordingState::Idle,
        ensures
            final(self).recording_state == RecordingState::Recording,
            final(self).recording_start_time == Some(now),
            final(self).paused_duration == 0,
            final(self).pause_start_time is None,
            final(self).output_mode == mode,
            final(self).recording_mic_id == *mic_id,
            final(self).recording_loopback_id == *loopback_id,
            final(self).keeps_preferences(*old(self)),
            final(self).wf(),
    {
        self.recording_state = RecordingState::Recording;
        self.recording_start_time = Some(now);
        self.paused_duration = 0;
        self.pause_start_time = None;
        self.output_mode = mode;
        self.recording_mic_id = mic_id.clone();
        self.recording_loopback_id = loopback_id.clone();
    }

    /// The fields that the recording transitions leave alone.
    pub open spec fn keeps_preferences(self, other: AppState) -> bool {
        &&& self.selected_mic == other.selected_mic
        &&& self.selected_loopback == other.selected_loopback
        &&& self.mic_volume == other.mic_volume
        &&& self.loopback_volume == other.loopback_volume
        &&& self.has_sound_engine == other.has_sound_engine
        &&& self.sounds_enabled == other.sounds_enabled
        &&& self.active_profile_id == other.active_profile_id
    }

    /// A pause is possible only while recording.
    pub fn check_pause(&self) -> (r: Result<(), String>)
        ensures
            r is Ok <==> self.recording_state == RecordingState::Recording,
            r matches Err(e) ==> e@ == "Not recording"@,
    {
        if self.recording_state != RecordingState::Recording {
            return Err(String::from_str("Not recording"));
        }
        Ok(())
    }

    /// Enters the paused state at `now`.
    pub fn apply_pause(&mut self, now: u64)
        requires
            old(self).recording_state == RecordingState::Recording,
        ensures
            final(self).recording_state == RecordingState::Paused,
            final(self).pause_start_time == Some(now),
            final(self).recording_start_time == old(self).recording_start_time,
            final(self).paused_duration == old(self).paused_duration,
            final(self).output_mode == old(self).output_mode,
            final(self).recording_mic_id == old(self).recording_mic_id,
            final(self).recording_loopback_id == old(self).recording_loopback_id,
            final(self).keeps_preferences(*old(self)),
            old(self).wf() ==> final(self).wf(),
    {
        self.recording_state = RecordingState::Paused;
        self.pause_start_time = Some(now);
    }

    /// A resume is possible only while paused.
    pub fn check_resume(&self) -> (r: Result<(), String>)
        ensures
            r is Ok <==> self.recording_state == RecordingState::Paused,
            r matches Err(e) ==> e@ == "Not paused"@,
    {
        if self.recording_state != RecordingState::Paused {
            return Err(String::from_str("Not paused"));
        }
        Ok(())
    }

    /// Leaves the paused state at `now`, adding the pause to the paused total.
    pub fn apply_resume(&mut self, now: u64)
        requires
            old(self).recording_state == RecordingState::Paused,
            old(self).paused_fits(now),
        ensures
            final(self).recording_state == RecordingState::Recording,
            final(self).pause_start_time is None,
            final(self).paused_duration == old(self).paused_ns(now),
            final(self).recording_start_time == old(self).recording_start_time,
            final(self).output_mode == old(self).output_mode,
            final(self).recording_mic_id == old(self).recording_mic_id,
            final(self).recording_loopback_id == old(self).recording_loopback_id,
            final(self).keeps_preferences(*old(self)),
            old(self).wf() ==> final(self).wf(),
    {
        match self.pause_start_time {
            Some(p) => {
                self.paused_duration = self.paused_duration + elapsed_exec(p, now);
            },
            None => {},
        }
        self.pause_start_time = None;
        self.recording_state = RecordingState::Recording;
    }

    /// A stop is possible while recording or paused.
    pub fn check_stop(&self) -> (r: Result<(), String>)
        ensures
            r is Ok <==> self.recording_state != RecordingState::Idle,
            r matches Err(e) ==> e@ == "Not recording"@,
    {
        if self.recording_state == RecordingState::Idle {
            return Err(String::from_str("Not recording"));
        }
        Ok(())
    }

    /// Returns to the idle state, forgetting the recording's timing and devices.
    pub fn apply_stop(&mut self)
        requires
            old(self).recording_state != RecordingState::Idle,
        ensures
            final(self).recording_state == RecordingState::Idle,
            final(self).recording_start_time is None,
            final(self).paused_duration == 0,
            final(self).pause_start_time is None,
            final(self).recording_mic_id is None,
            final(self).recording_loopback_id is None,
            final(self).output_mode == old(self).output_mode,
            final(self).keeps_preferences(*old(self)),
            final(self).wf(),
    {
        self.recording_state = RecordingState::Idle;
        self.recording_start_time = None;
        self.paused_duration = 0;
        self.pause_start_time = None;
        self.recording_mic_id = None;
        self.recording_loopback_id = None;
    }

    /// Takes the gains and id of the selected profile.
    pub fn apply_profile(&mut self, profile: &RecordingProfile)
        ensures
            final(self).mic_volume == profile.mic_volume,
            final(self).loopback_volume == profile.loopback_volume,
            final(self).active_profile_id == profile.id,
            final(self).recording_state == old(self).recording_state,
            final(self).recording_start_time == old(self).recording_start_time,
            final(self).paused_duration == old(self).paused_duration,
            final(self).pause_start_time == old(self).pause_start_time,
            final(self).recording_mic_id == old(self).recording_mic_id,
            final(self).recording_loopback_id == old(self).recording_loopback_id,
            final(self).sounds_enabled == old(self).sounds_enabled,
            final(self).has_sound_engine == old(self).has_sound_engine,
            final(self).output_mode == old(self).output_mode,
            final(self).selected_mic == old(self).selected_mic,
            final(self).selected_loopback == old(self).selected_loopback,
    {
        self.mic_volume = profile.mic_volume;
        self.loopback_volume = profile.loopback_volume;
        self.active_profile_id = profile.id.clone();
    }

    /// Takes the sound switch, the active profile id and, when that profile
    /// exists, its gains from the settings read at start-up.
    pub fn apply_settings(&mut self, settings: &Settings)
        ensures
            final(self).sounds_enabled == settings.sound_enabled,
            final(self).active_profile_id == settings.active_profile_id,
            has_profile(settings.profiles@, settings.active_profile_id@) ==> exists|i: int|
                first_with_id(settings.profiles@, settings.active_profile_id@, i)
                    && final(self).mic_volume == (#[trigger] settings.profiles@[i]).mic_volume
                    && final(self).loopback_volume == settings.profiles@[i].loopback_volume,
            !has_profile(settings.profiles@, settings.active_profile_id@) ==> final(self).mic_volume
                == old(self).mic_volume && final(self).loopback_volume == old(self).loopback_volume,
            final(self).recording_state == old(self).recording_state,
            final(self).recording_start_time == old(self).recording_start_time,
            final(self).paused_duration == old(self).paused_duration,
            final(self).pause_start_time == old(self).pause_start_time,
            final(self).has_sound_engine == old(self).has_sound_engine,
            final(self).output_mode == old(self).output_mode,
            final(self).selected_mic == old(self).selected_mic,
            final(self).selected_loopback == old(self).selected_loopback,
            final(self).recording_mic_id == old(self).recording_mic_id,
            final(self).recording_loopback_id == old(self).recording_loopback_id,
    {
        self.sounds_enabled = settings.sound_enabled;
        match find_profile(&settings.profiles, settings.active_profile_id.as_str()) {
            Some(i) => {
                self.mic_volume = settings.profiles[i].mic_volume;
                self.loopback_volume = settings.profiles[i].loopback_volume;
            },
            None => {},
        }
        self.active_profile_id = settings.active_profile_id.clone();
    }

    /// The device with id `id` is one that the running recording captures from.
    pub open spec fn records_from(&self, id: Seq<char>) -> bool {
        &&& self.recording_state != RecordingState::Idle
        &&& ((self.recording_mic_id matches Some(m) && m@ == id) || (
        self.recording_loopback_id matches Some(l) && l@ == id))
    }

    /// Whether the removal of device `id` interrupts the running recording.
    pub fn is_recording_device(&self, id: &str) -> (r: bool)
        ensures
            r == self.records_from(id@),
    {
        if self.recording_state == RecordingState::Idle {
            return false;
        }
        let mic = match &self.recording_mic_id {
            Some(m) => text_eq(m.as_str(), id),
            None => false,
        };
        let lp = match &self.recording_loopback_id {
            Some(l) => text_eq(l.as_str(), id),
            None => false,
        };
        mic || lp
    }
}

/// The state the application starts in.
pub open spec fn is_initial_state(s: AppState) -> bool {
    &&& s.recording_state == RecordingState::Idle
    &&& s.selected_mic is None
    &&& s.selected_loopback is None
    &&& s.mic_volume == UNITY_GAIN_BITS
    &&& s.loopback_volume == HALF_GAIN_BITS
    &&& s.output_mode == OutputMode::Mix
    &&& s.recording_start_time is None
    &&& s.paused_duration == 0
    &&& s.pause_start_time is None
    &&& !s.has_sound_engine
    &&& s.sounds_enabled
    &&& s.active_profile_id@ == "default"@
    &&& s.recording_mic_id is None
    &&& s.recording_loopback_id is None
}

impl Default for AppState {
    fn default() -> (r: Self)
        ensures
            is_initial_state(r),
            r.wf(),
    {
        AppState {
            recording_state: RecordingState::Idle,
            selected_mic: None,
            selected_loopback: None,
            mic_volume: UNITY_GAIN_BITS,
            loopback_volume: HALF_GAIN_BITS,
            output_mode: OutputMode::Mix,
            recording_start_time: None,
            paused_duration: 0,
            pause_start_time: None,
            has_sound_engine: false,
            sounds_enabled: true,
            active_profile_id: String::from_str("default"),
            recording_mic_id: None,
            recording_loopback_id: None,
        }
    }
}

/// While paused, the recorded duration stands still.
pub proof fn lemma_duration_frozen_while_paused(s: AppState, t1: u64, t2: u64)
    requires
        s.wf(),
        s.recording_state == RecordingState::Paused,
        s.pause_start_time->0 <= t1 <= t2,
    ensures
        s.recorded_ms(t1) == s.recorded_ms(t2),
{
}

/// Pausing at `t1` and resuming at `t2` leaves the duration where it was
/// at the pause: paused time is not counted.
pub proof fn lemma_pause_time_not_counted(before: AppState, paused: AppState, resumed: AppState, t1: u64, t2: u64)
    requires
        before.wf(),
        before.recording_state == RecordingState::Recording,
        t1 <= t2,
        paused.recording_state == RecordingState::Paused,
        paused.pause_start_time == Some(t1),
        paused.recording_start_time == before.recording_start_time,
        paused.paused_duration == before.paused_duration,
        resumed.recording_state == RecordingState::Recording,
        resumed.pause_start_time is None,
        resumed.paused_duration == paused.paused_ns(t2),
        resumed.recording_start_time == paused.recording_start_time,
    ensures
        resumed.recorded_ms(t2) == before.recorded_ms(t1),
{
}

/// While recording, the recorded duration never falls as time goes on.
pub proof fn lemma_duration_grows_while_recording(s: AppState, t1: u64, t2: u64)
    requires
        s.wf(),
        s.recording_state == RecordingState::Recording,
        t1 <= t2,
    ensures
        s.recorded_ms(t1) <= s.recorded_ms(t2),
{
    let start = s.recording_start_time->0;
    let p = s.paused_duration as int;
    let e1 = elapsed(start, t1);
    let e2 = elapsed(start, t2);
    let d1 = if e1 >= p {
        e1 - p
    } else {
        0
    };
    let d2 = if e2 >= p {
        e2 - p
    } else {
        0
    };
    assert(d1 <= d2);
    vstd::arithmetic::div_mod::lemma_div_is_ordered(d1, d2, NANOS_PER_MILLI as int);
}

/// Without pauses, the recorded duration is the whole milliseconds since the
/// start: the nanoseconds elapsed divided by one million.
pub proof fn lemma_unpaused_duration_in_ms(s: AppState, now: u64)
    requires
        s.recording_start_time is Some,
        s.recording_start_time->0 <= now,
        s.paused_duration == 0,
        s.pause_start_time is None,
    ensures
        s.recorded_ms(now) == (now - s.recording_start_time->0) / 1_000_000,
        s.recorded_ms(now) * 1_000_000 <= now - s.recording_start_time->0 < (s.recorded_ms(now)
            + 1) * 1_000_000,
{
    let d: int = now - s.recording_start_time->0;
    assert(d / 1_000_000 * 1_000_000 <= d && d < (d / 1_000_000 + 1) * 1_000_000)
        by (nonlinear_arith)
        requires
            d >= 0,
    ;
}

/// Once stopped, the recorder reports no duration.
pub proof fn lemma_stopped_duration_zero(s: AppState, now: u64)
    requires
        s.wf(),
        s.recording_state == RecordingState::Idle,
    ensures
        s.recorded_ms(now) == 0,
{
}

/// The recorded duration never exceeds the time since the recording started.
pub proof fn lemma_duration_within_elapsed(s: AppState, now: u64)
    requires
        s.recording_start_time is Some,
    ensures
        s.recorded_ms(now) <= elapsed(s.recording_start_time->0, now) / (NANOS_PER_MILLI as int),
{
    let e = elapsed(s.recording_start_time->0, now);
    let p = s.paused_ns(now);
    let d = if e >= p {
        e - p
    } else {
        0
    };
    vstd::arithmetic::div_mod::lemma_div_is_ordered(d, e, NANOS_PER_MILLI as int);
}

/// Removing a device interrupts the recording exactly when the recorder is
/// not idle and the device is the recorded microphone or the recorded
/// system-output device.
pub proof fn lemma_device_loss_detection(s: AppState, id: Seq<char>)
    ensures
        s.recording_state != RecordingState::Idle && s.recording_mic_id is Some
            && s.recording_mic_id->0@ == id ==> s.records_from(id),
        s.recording_state != RecordingState::Idle && s.recording_loopback_id is Some
            && s.recording_loopback_id->0@ == id ==> s.records_from(id),
        s.recording_state == RecordingState::Idle ==> !s.records_from(id),
        s.records_from(id) ==> (s.recording_mic_id is Some && s.recording_mic_id->0@ == id) || (
        s.recording_loopback_id is Some && s.recording_loopback_id->0@ == id),
{
}

} // verus!
