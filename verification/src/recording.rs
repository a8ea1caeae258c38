//! What a new recording consists of: which sources are captured, which
//! streams the mixer produces, and the files they are written to.
use vstd::prelude::*;
use crate::audio::types::OutputMode;
use crate::profiles::RecordingProfile;

verus! {

/// Output files are always written in stereo.
pub const OUTPUT_CHANNELS: u16 = 2;

/// Milliseconds of audio the mixer discards when it starts, so that the
/// start notification sound is not recorded.
pub const WARMUP_DISCARD_MS: u64 = 300;

/// A stream that the mixer writes to a file.
#[derive(Debug, Clone, Copy, PartialEq, Eq, Structural)]
pub enum StreamKind {
    /// The microphone alone, at its gain.
    Microphone,
    /// The system output alone, at its gain.
    Loopback,
    /// Both sources at their gains, summed.
    Mix,
}

/// The primary stream of `mode`, and the second stream written beside it.
pub open spec fn streams_of(mode: OutputMode) -> (StreamKind, Option<StreamKind>) {
    match mode {
        OutputMode::Microphone => (StreamKind::Microphone, None),
        OutputMode::Loopback => (StreamKind::Loopback, None),
        OutputMode::Mix => (StreamKind::Mix, None),
        OutputMode::MixPlusMicrophone => (StreamKind::Mix, Some(StreamKind::Microphone)),
        OutputMode::MixPlusLoopback => (StreamKind::Mix, Some(StreamKind::Loopback)),
        OutputMode::SeparateFiles => (StreamKind::Microphone, Some(StreamKind::Loopback)),
    }
}

/// The streams the mixer produces in `mode`.
pub fn output_streams(mode: OutputMode) -> (r: (StreamKind, Option<StreamKind>))
    ensures
        r == streams_of(mode),
{
    match mode {
        OutputMode::Microphone => (StreamKind::Microphone, None),
        OutputMode::Loopback => (StreamKind::Loopback, None),
        OutputMode::Mix => (StreamKind::Mix, None),
        OutputMode::MixPlusMicrophone => (StreamKind::Mix, Some(StreamKind::Microphone)),
        OutputMode::MixPlusLoopback => (StreamKind::Mix, Some(StreamKind::Loopback)),
        OutputMode::SeparateFiles => (StreamKind::Microphone, Some(StreamKind::Loopback)),
    }
}

/// The file name prefix that `profile` gives to `kind`.
pub open spec fn prefix_of(kind: StreamKind, profile: RecordingProfile) -> Seq<char> {
    match kind {
        StreamKind::Microphone => profile.mic_filename@,
        StreamKind::Loopback => profile.loopback_filename@,
        StreamKind::Mix => profile.mix_filename@,
    }
}

/// The file name of a `kind` recording made at `timestamp`:
/// `<prefix>_<timestamp>.wav`.
pub open spec fn file_name_of(kind: StreamKind, profile: RecordingProfile, timestamp: Seq<char>) -> Seq<char> {
    prefix_of(kind, profile) + "_"@ + timestamp + ".wav"@
}

/// Names the file of a `kind` stream.
pub fn stream_file_name(kind: StreamKind, profile: &RecordingProfile, timestamp: &str) -> (r: String)
    ensures
        r@ == file_name_of(kind, *profile, timestamp@),
{
    let mut name = match kind {
        StreamKind::Microphone => profile.mic_filename.clone(),
        StreamKind::Loopback => profile.loopback_filename.clone(),
        StreamKind::Mix => profile.mix_filename.clone(),
    };
    name.append("_");
    name.append(timestamp);
    name.append(".wav");
    name
}

/// The files of one recording: the primary file and, in the parallel modes,
/// the second one.
#[derive(Debug)]
pub struct OutputFiles {
    pub primary: String,
    pub secondary: Option<String>,
}

/// Names the files that a recording in `mode` writes, each after the stream
/// it holds.
pub fn output_files(mode: OutputMode, profile: &RecordingProfile, timestamp: &str) -> (r: OutputFiles)
    ensures
        r.primary@ == file_name_of(streams_of(mode).0, *profile, timestamp@),
        match streams_of(mode).1 {
            Some(k) => r.secondary matches Some(f) && f@ == file_name_of(k, *profile, timestamp@),
            None => r.secondary is None,
        },
{
    let (primary, secondary) = output_streams(mode);
    let primary_name = stream_file_name(primary, profile, timestamp);
    let secondary_name = match secondary {
        Some(k) => Some(stream_file_name(k, profile, timestamp)),
        None => None,
    };
    OutputFiles { primary: primary_name, secondary: secondary_name }
}

/// Each source that `mode` records has a device.
pub open spec fn has_devices_for(mode: OutputMode, mic_present: bool, loopback_present: bool) -> bool {
    (mode.uses_microphone() ==> mic_present) && (mode.uses_loopback() ==> loopback_present)
}

/// Whether the devices that `mode` needs are selected.
pub fn devices_present(mode: OutputMode, mic_id: &Option<String>, loopback_id: &Option<String>) -> (r:
    bool)
    ensures
        r == has_devices_for(mode, mic_id is Some, loopback_id is Some),
{
    (!mode.needs_microphone() || mic_id.is_some()) && (!mode.needs_loopback()
        || loopback_id.is_some())
}

/// Which capture threads a recording starts.
#[derive(Debug, Clone, Copy, PartialEq, Eq, Structural)]
pub struct CapturePlan {
    pub microphone: bool,
    pub loopback: bool,
}

/// A source is captured when a device is given for it and `mode` records it.
pub fn capture_plan(mode: OutputMode, mic_id: &Option<String>, loopback_id: &Option<String>) -> (r:
    CapturePlan)
    ensures
        r.microphone == (mic_id is Some && mode.uses_microphone()),
        r.loopback == (loopback_id is Some && mode.uses_loopback()),
{
    CapturePlan {
        microphone: mic_id.is_some() && mode.needs_microphone(),
        loopback: loopback_id.is_some() && mode.needs_loopback(),
    }
}

/// Format the mixer assumes for a source: the captured device's, or for a
/// source that is not captured the target rate in stereo.
pub fn source_format(captured: Option<(u32, u16)>, target_rate: u32) -> (r: (u32, u16))
    ensures
        r == match captured {
            Some(f) => f,
            None => (target_rate, OUTPUT_CHANNELS),
        },
{
    match captured {
        Some(f) => f,
        None => (target_rate, OUTPUT_CHANNELS),
    }
}

/// Every stream the mixer writes comes from a source that is captured:
/// when the device checks have passed, the sources of each stream of the
/// mode are in the capture plan.
pub proof fn lemma_streams_are_captured(mode: OutputMode, mic_present: bool, loopback_present: bool)
    requires
        has_devices_for(mode, mic_present, loopback_present),
    ensures
        ({
            let (p, s) = streams_of(mode);
            &&& (p == StreamKind::Microphone || p == StreamKind::Mix || s == Some(
                StreamKind::Microphone,
            )) ==> mic_present && mode.uses_microphone()
            &&& (p == StreamKind::Loopback || p == StreamKind::Mix || s == Some(
                StreamKind::Loopback,
            )) ==> loopback_present && mode.uses_loopback()
        }),
{
}

/// The two files of a parallel recording differ whenever the profile gives
/// their streams different prefixes.
pub proof fn lemma_parallel_files_distinct(mode: OutputMode, profile: RecordingProfile, timestamp: Seq<char>)
    requires
        streams_of(mode).1 matches Some(k) && prefix_of(k, profile) != prefix_of(
            streams_of(mode).0,
            profile,
        ),
    ensures
        streams_of(mode).1 matches Some(k) && file_name_of(k, profile, timestamp) != file_name_of(
            streams_of(mode).0,
            profile,
            timestamp,
        ),
{
    let k = streams_of(mode).1->0;
    let p = streams_of(mode).0;
    let a = file_name_of(k, profile, timestamp);
    let b = file_name_of(p, profile, timestamp);
    let tail = "_"@ + timestamp + ".wav"@;
    assert(a =~= prefix_of(k, profile) + tail);
    assert(b =~= prefix_of(p, profile) + tail);
    if a == b {
        assert(prefix_of(k, profile).len() == prefix_of(p, profile).len());
        assert(a.take(prefix_of(k, profile).len() as int) =~= prefix_of(k, profile));
        assert(b.take(prefix_of(p, profile).len() as int) =~= prefix_of(p, profile));
    }
}

/// Whether a stream carries the microphone.
pub open spec fn carries_microphone(k: StreamKind) -> bool {
    k == StreamKind::Microphone || k == StreamKind::Mix
}

/// Whether a stream carries the system output.
pub open spec fn carries_loopback(k: StreamKind) -> bool {
    k == StreamKind::Loopback || k == StreamKind::Mix
}

/// What each mode writes:
/// - the three mix modes write the mix as their primary stream, and only they do;
/// - a second file is written exactly in the two "mix plus" modes and in
///   separate files, and it holds a single source: the one the mode names
///   (the loopback for separate files, whose primary is the microphone);
/// - the two files of a recording never hold the same stream;
/// - the written streams carry the microphone exactly when the mode records
///   it, and the system output exactly when the mode records it.
pub proof fn lemma_streams_follow_mode(mode: OutputMode)
    ensures
        (streams_of(mode).0 == StreamKind::Mix) <==> (mode == OutputMode::Mix || mode
            == OutputMode::MixPlusMicrophone || mode == OutputMode::MixPlusLoopback),
        (streams_of(mode).1 is Some) <==> (mode == OutputMode::MixPlusMicrophone || mode
            == OutputMode::MixPlusLoopback || mode == OutputMode::SeparateFiles),
        mode == OutputMode::MixPlusMicrophone ==> streams_of(mode).1 == Some(StreamKind::Microphone),
        mode == OutputMode::MixPlusLoopback ==> streams_of(mode).1 == Some(StreamKind::Loopback),
        mode == OutputMode::SeparateFiles ==> streams_of(mode).0 == StreamKind::Microphone
            && streams_of(mode).1 == Some(StreamKind::Loopback),
        mode == OutputMode::Microphone ==> streams_of(mode).0 == StreamKind::Microphone,
        mode == OutputMode::Loopback ==> streams_of(mode).0 == StreamKind::Loopback,
        streams_of(mode).1 matches Some(k) ==> k != streams_of(mode).0 && k != StreamKind::Mix,
        (carries_microphone(streams_of(mode).0) || (streams_of(mode).1 matches Some(k)
            && carries_microphone(k))) <==> mode != OutputMode::Loopback,
        (carries_loopback(streams_of(mode).0) || (streams_of(mode).1 matches Some(k)
            && carries_loopback(k))) <==> mode != OutputMode::Microphone,
{
}

/// Each file is named with the profile's prefix for the stream it holds:
/// in a mix mode the primary file carries the mix prefix, and the second
/// file the prefix of the single source it holds.
pub proof fn lemma_file_names_follow_streams(mode: OutputMode, profile: RecordingProfile, ts: Seq<char>)
    ensures
        (mode == OutputMode::Mix || mode == OutputMode::MixPlusMicrophone || mode
            == OutputMode::MixPlusLoopback) ==> file_name_of(streams_of(mode).0, profile, ts)
            == profile.mix_filename@ + "_"@ + ts + ".wav"@,
        (mode == OutputMode::Microphone || mode == OutputMode::SeparateFiles) ==> file_name_of(
            streams_of(mode).0,
            profile,
            ts,
        ) == profile.mic_filename@ + "_"@ + ts + ".wav"@,
        mode == OutputMode::Loopback ==> file_name_of(streams_of(mode).0, profile, ts)
            == profile.loopback_filename@ + "_"@ + ts + ".wav"@,
        (mode == OutputMode::MixPlusLoopback || mode == OutputMode::SeparateFiles) ==> file_name_of(
            streams_of(mode).1->0,
            profile,
            ts,
        ) == profile.loopback_filename@ + "_"@ + ts + ".wav"@,
        mode == OutputMode::MixPlusMicrophone ==> file_name_of(streams_of(mode).1->0, profile, ts)
            == profile.mic_filename@ + "_"@ + ts + ".wav"@,
{
}

/// A recording captures the microphone exactly when a microphone is given
/// and the mode is not loopback-only, and the system output exactly when an
/// output device is given and the mode is not microphone-only; its device
/// check passes exactly when every source it needs has a device.
pub proof fn lemma_capture_follows_mode(mode: OutputMode, mic_present: bool, loopback_present: bool)
    ensures
        (mic_present && mode.uses_microphone()) <==> (mic_present && mode != OutputMode::Loopback),
        (loopback_present && mode.uses_loopback()) <==> (loopback_present && mode
            != OutputMode::Microphone),
        has_devices_for(mode, mic_present, loopback_present) <==> ((mode == OutputMode::Loopback
            || mic_present) && (mode == OutputMode::Microphone || loopback_present)),
{
}

} // verus!
