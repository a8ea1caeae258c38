//! Notification sounds.
use vstd::prelude::*;

verus! {

/// The notification sounds the recorder plays.
#[derive(Debug, Clone, Copy, PartialEq, Eq, Structural)]
pub enum SoundKind {
    Start,
    Pause,
    Stop,
    /// A request could not be carried out.
    Warning,
}

} // verus!
