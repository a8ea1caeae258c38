//! Plain audio types shared by the recorder: output modes, devices and the
//! recording state.
use vstd::prelude::*;

verus! {

/// Which sources are recorded, and into how many files.
#[derive(Debug, Clone, Copy, PartialEq, Eq, Structural)]
pub enum OutputMode {
    Microphone,
    Loopback,
    Mix,
    MixPlusMicrophone,
    MixPlusLoopback,
    /// Microphone and system output, each into a file of its own.
    SeparateFiles,
}

impl OutputMode {
    /// The microphone is captured in this mode.
    pub open spec fn uses_microphone(self) -> bool {
        !(self is Loopback)
    }

    /// The system output (loopback) is captured in this mode.
    pub open spec fn uses_loopback(self) -> bool {
        !(self is Microphone)
    }

    /// Both sources are mixed into one stream in this mode.
    pub open spec fn is_mix(self) -> bool {
        self is Mix || self is MixPlusMicrophone || self is MixPlusLoopback
    }

    /// Both sources are recorded, and consumed in step.
    pub open spec fn syncs_sources(self) -> bool {
        self.is_mix() || self is SeparateFiles
    }

    pub fn needs_microphone(&self) -> (r: bool)
        ensures
            r == self.uses_microphone(),
    {
        match self {
            OutputMode::Loopback => false,
            _ => true,
        }
    }

    pub fn needs_loopback(&self) -> (r: bool)
        ensures
            r == self.uses_loopback(),
    {
        match self {
            OutputMode::Microphone => false,
            _ => true,
        }
    }

    pub fn drains_in_step(&self) -> (r: bool)
        ensures
            r == self.syncs_sources(),
    {
        match self {
            OutputMode::Microphone | OutputMode::Loopback => false,
            _ => true,
        }
    }
}

impl Default for OutputMode {
    fn default() -> (r: Self)
        ensures
            r == OutputMode::Mix,
    {
        OutputMode::Mix
    }
}

/// An audio endpoint that can be recorded from.
#[derive(Debug, Clone)]
pub struct AudioDevice {
    pub id: String,
    pub name: String,
    /// `true` for a microphone, `false` for an output device captured in loopback.
    pub is_input: bool,
}

/// Where the recorder stands.
#[derive(Debug, Clone, Copy, PartialEq, Eq, Structural)]
pub enum RecordingState {
    Idle,
    Recording,
    Paused,
}

/// A command for the mixer thread. Gains are `f32` bit patterns.
#[derive(Debug, Clone, Copy, PartialEq, Eq, Structural)]
pub enum AudioCommand {
    Pause,
    Resume,
    Stop,
    SetMicVolume(u32),
    SetLoopbackVolume(u32),
}

impl RecordingState {
    /// The state's name, as shown to the user interface.
    pub fn name(&self) -> (r: &'static str)
        ensures
            r@ == match *self {
                RecordingState::Idle => "Idle"@,
                RecordingState::Recording => "Recording"@,
                RecordingState::Paused => "Paused"@,
            },
    {
        match self {
            RecordingState::Idle => "Idle",
            RecordingState::Recording => "Recording",
            RecordingState::Paused => "Paused",
        }
    }
}

} // verus!
