//! Decisions of the real-time mixer: when audio is written or discarded
//! (start-up warm-up, pause, and the drain wait after a resume), and how
//! many staged samples of each source one pass consumes.
//!
//! Clock readings are nanoseconds on one monotonic clock, read by the caller.
use vstd::prelude::*;
use vstd::arithmetic::div_mod::lemma_fundamental_div_mod;
use vstd::arithmetic::mul::lemma_mul_inequality;
use crate::audio::types::{AudioCommand, OutputMode};
use crate::state::NANOS_PER_MILLI;

verus! {

/// After a resume, the loopback source must stay quiet this long (in
/// milliseconds) before writing starts again.
pub const RESUME_QUIET_MS: u64 = 20;

/// After a resume, writing starts again at the latest this many
/// milliseconds later.
pub const RESUME_TIMEOUT_MS: u64 = 500;

/// Frames in one processing chunk: 10 ms at the higher source rate.
pub fn chunk_frames(mic_sample_rate: u32, loopback_sample_rate: u32) -> (r: usize)
    ensures
        r == (if mic_sample_rate >= loopback_sample_rate {
            mic_sample_rate
        } else {
            loopback_sample_rate
        }) / 100,
{
    let max_sr = if mic_sample_rate >= loopback_sample_rate {
        mic_sample_rate
    } else {
        loopback_sample_rate
    };
    (max_sr / 100) as usize
}

/// Whether a source is resampled: its rate differs from the target rate.
pub fn needs_resampling(source_rate: u32, target_rate: u32) -> (r: bool)
    ensures
        r == (source_rate != target_rate),
{
    source_rate != target_rate
}

/// The loopback source counts as quiet when nothing was read from it and
/// nothing is waiting in its ring buffer; with no loopback source at all it
/// is always quiet. `buffered` is the ring buffer's fill, if there is one.
pub fn loopback_is_quiet(buffered: Option<usize>, read: usize) -> (r: bool)
    ensures
        r == match buffered {
            Some(b) => b == 0 && read == 0,
            None => true,
        },
{
    match buffered {
        Some(b) => b == 0 && read == 0,
        None => true,
    }
}

/// What one pass of the mixer does with the samples it read.
#[derive(Debug, Clone, Copy, PartialEq, Eq, Structural)]
pub enum MixerStep {
    /// Nothing was read: wait a moment.
    Wait,
    /// Samples were read but are not recorded: drop everything staged.
    Discard,
    /// Samples were read and are recorded.
    Process,
}

/// The mixer's pause, resume and warm-up state.
#[derive(Debug)]
pub struct MixerControl {
    pub running: bool,
    pub paused: bool,
    /// A resume was asked for; writing waits for the loopback to drain.
    pub pending_resume: bool,
    /// Since when the loopback has been quiet while a resume is pending.
    pub resume_quiet_since: Option<u64>,
    /// When a pending resume completes regardless of the loopback.
    pub resume_deadline: Option<u64>,
    /// Audio before this clock reading is discarded.
    pub warmup_end: u64,
    /// Current microphone gain (`f32` bit pattern).
    pub mic_volume: u32,
    /// Current loopback gain (`f32` bit pattern).
    pub loopback_volume: u32,
}

impl MixerControl {
    /// A resume is pending exactly when it has a deadline.
    pub open spec fn wf(&self) -> bool {
        &&& self.pending_resume <==> self.resume_deadline is Some
        &&& !self.pending_resume ==> self.resume_quiet_since is None
    }

    /// Whether audio read at `now` is recorded.
    pub open spec fn records_at(&self, now: u64) -> bool {
        !self.paused && now >= self.warmup_end && !self.pending_resume
    }

    /// A running mixer that discards the first `warmup_ms` milliseconds after
    /// `now`, starting at the given gains.
    pub fn new(now: u64, warmup_ms: u64, mic_volume: u32, loopback_volume: u32) -> (r: Self)
        requires
            now + warmup_ms * NANOS_PER_MILLI <= u64::MAX,
        ensures
            r.running,
            !r.paused,
            !r.pending_resume,
            r.resume_quiet_since is None,
            r.resume_deadline is None,
            r.warmup_end == now + warmup_ms * NANOS_PER_MILLI,
            r.mic_volume == mic_volume,
            r.loopback_volume == loopback_volume,
            r.wf(),
    {
        MixerControl {
            running: true,
            paused: false,
            pending_resume: false,
            resume_quiet_since: None,
            resume_deadline: None,
            warmup_end: now + warmup_ms * NANOS_PER_MILLI,
            mic_volume,
            loopback_volume,
        }
    }

    /// The control after `cmd` arrives at `now`.
    pub open spec fn after_command(self, cmd: AudioCommand, now: u64) -> MixerControl {
        match cmd {
            AudioCommand::Pause => MixerControl {
                paused: true,
                pending_resume: false,
                resume_quiet_since: None,
                resume_deadline: None,
                ..self
            },
            AudioCommand::Resume => MixerControl {
                pending_resume: true,
                resume_quiet_since: None,
                resume_deadline: Some((now + RESUME_TIMEOUT_MS * NANOS_PER_MILLI) as u64),
                ..self
            },
            AudioCommand::Stop => MixerControl { running: false, ..self },
            AudioCommand::SetMicVolume(v) => MixerControl { mic_volume: v, ..self },
            AudioCommand::SetLoopbackVolume(v) => MixerControl { loopback_volume: v, ..self },
        }
    }

    /// Handles a command that arrived at `now`.
    pub fn apply_command(&mut self, cmd: AudioCommand, now: u64)
        requires
            now + RESUME_TIMEOUT_MS * NANOS_PER_MILLI <= u64::MAX,
        ensures
            *final(self) == old(self).after_command(cmd, now),
            old(self).wf() ==> final(self).wf(),
    {
        match cmd {
            AudioCommand::Pause => self.pause(),
            AudioCommand::Resume => self.resume(now),
            AudioCommand::Stop => self.stop(),
            AudioCommand::SetMicVolume(v) => {
                self.mic_volume = v;
            },
            AudioCommand::SetLoopbackVolume(v) => {
                self.loopback_volume = v;
            },
        }
    }

    /// Stops writing until a resume asked for after this pause completes; a
    /// resume still pending from before is cancelled.
    pub fn pause(&mut self)
        ensures
            final(self).paused,
            !final(self).pending_resume,
            final(self).resume_quiet_since is None,
            final(self).resume_deadline is None,
            final(self).running == old(self).running,
            final(self).warmup_end == old(self).warmup_end,
            final(self).mic_volume == old(self).mic_volume,
            final(self).loopback_volume == old(self).loopback_volume,
            final(self).wf(),
    {
        self.paused = true;
        self.pending_resume = false;
        self.resume_quiet_since = None;
        self.resume_deadline = None;
    }

    /// Asks, at `now`, for writing to start again once the loopback has
    /// drained, or at the latest 500 ms later.
    pub fn resume(&mut self, now: u64)
        requires
            now + RESUME_TIMEOUT_MS * NANOS_PER_MILLI <= u64::MAX,
        ensures
            final(self).pending_resume,
            final(self).resume_quiet_since is None,
            final(self).resume_deadline == Some((now + RESUME_TIMEOUT_MS * NANOS_PER_MILLI) as u64),
            final(self).paused == old(self).paused,
            final(self).running == old(self).running,
            final(self).warmup_end == old(self).warmup_end,
            final(self).mic_volume == old(self).mic_volume,
            final(self).loopback_volume == old(self).loopback_volume,
            final(self).wf(),
    {
        self.pending_resume = true;
        self.resume_quiet_since = None;
        self.resume_deadline = Some(now + RESUME_TIMEOUT_MS * NANOS_PER_MILLI);
    }

    /// Ends the mixer loop.
    pub fn stop(&mut self)
        ensures
            !final(self).running,
            final(self).paused == old(self).paused,
            final(self).pending_resume == old(self).pending_resume,
            final(self).resume_quiet_since == old(self).resume_quiet_since,
            final(self).resume_deadline == old(self).resume_deadline,
            final(self).warmup_end == old(self).warmup_end,
            final(self).mic_volume == old(self).mic_volume,
            final(self).loopback_volume == old(self).loopback_volume,
    {
        self.running = false;
    }

    /// The quiet-since reading after observing the loopback at `now`.
    pub open spec fn quiet_since_after(&self, quiet: bool, now: u64) -> Option<u64> {
        if quiet {
            match self.resume_quiet_since {
                Some(t) => Some(t),
                None => Some(now),
            }
        } else {
            None
        }
    }

    /// A pending resume completes at `now`: the loopback has been quiet for
    /// 20 ms, or the deadline has come.
    pub open spec fn resume_completes(&self, quiet: bool, now: u64) -> bool {
        &&& self.pending_resume
        &&& {
            ||| (self.quiet_since_after(quiet, now) matches Some(t) && now >= t && now - t
                >= RESUME_QUIET_MS * NANOS_PER_MILLI)
            ||| (self.resume_deadline matches Some(d) && now >= d)
        }
    }

    /// The control after observing the loopback at `now`.
    pub open spec fn after_observe(self, quiet: bool, now: u64) -> MixerControl {
        if !self.pending_resume {
            self
        } else if self.resume_completes(quiet, now) {
            MixerControl {
                paused: false,
                pending_resume: false,
                resume_quiet_since: None,
                resume_deadline: None,
                ..self
            }
        } else {
            MixerControl { resume_quiet_since: self.quiet_since_after(quiet, now), ..self }
        }
    }

    /// Observes the loopback at `now` while a resume may be pending. Returns
    /// `true` when the resume completes now; the caller then drops the
    /// staged samples and writing starts again.
    pub fn observe_loopback(&mut self, quiet: bool, now: u64) -> (resumed: bool)
        requires
            old(self).wf(),
        ensures
            resumed == old(self).resume_completes(quiet, now),
            *final(self) == old(self).after_observe(quiet, now),
            resumed ==> {
                &&& !final(self).paused
                &&& !final(self).pending_resume
                &&& final(self).resume_quiet_since is None
                &&& final(self).resume_deadline is None
            },
            !resumed && old(self).pending_resume ==> {
                &&& final(self).paused == old(self).paused
                &&& final(self).pending_resume
                &&& final(self).resume_quiet_since == old(self).quiet_since_after(quiet, now)
                &&& final(self).resume_deadline == old(self).resume_deadline
            },
            !old(self).pending_resume ==> *final(self) == *old(self),
            final(self).running == old(self).running,
            final(self).warmup_end == old(self).warmup_end,
            final(self).mic_volume == old(self).mic_volume,
            final(self).loopback_volume == old(self).loopback_volume,
            final(self).wf(),
    {
        if !self.pending_resume {
            return false;
        }
        if quiet {
            if self.resume_quiet_since.is_none() {
                self.resume_quiet_since = Some(now);
            }
        } else {
            self.resume_quiet_since = None;
        }
        let drained = match self.resume_quiet_since {
            Some(t) => now >= t && now - t >= RESUME_QUIET_MS * NANOS_PER_MILLI,
            None => false,
        };
        let timed_out = match self.resume_deadline {
            Some(d) => now >= d,
            None => false,
        };
        if drained || timed_out {
            self.pending_resume = false;
            self.paused = false;
            self.resume_quiet_since = None;
            self.resume_deadline = None;
            true
        } else {
            false
        }
    }

    /// Whether audio read at `now` is recorded.
    pub fn records(&self, now: u64) -> (r: bool)
        ensures
            r == self.records_at(now),
    {
        !self.paused && now >= self.warmup_end && !self.pending_resume
    }

    /// What this pass does with `mic_read` and `loopback_read` new samples.
    pub fn step(&self, now: u64, mic_read: usize, loopback_read: usize) -> (r: MixerStep)
        ensures
            mic_read == 0 && loopback_read == 0 ==> r == MixerStep::Wait,
            !(mic_read == 0 && loopback_read == 0) && !self.records_at(now) ==> r
                == MixerStep::Discard,
            !(mic_read == 0 && loopback_read == 0) && self.records_at(now) ==> r
                == MixerStep::Process,
    {
        if mic_read == 0 && loopback_read == 0 {
            MixerStep::Wait
        } else if !self.records(now) {
            MixerStep::Discard
        } else {
            MixerStep::Process
        }
    }
}

/// A pending resume completes at its deadline whatever the loopback does.
pub proof fn lemma_resume_completes_by_deadline(c: MixerControl, quiet: bool, now: u64)
    requires
        c.wf(),
        c.pending_resume,
        now >= c.resume_deadline->0,
    ensures
        c.resume_completes(quiet, now),
{
}

/// Nothing is recorded between a pause and the completion of a resume:
/// a paused mixer records nothing, and neither does one waiting for a resume.
pub proof fn lemma_no_audio_while_paused_or_pending(c: MixerControl, now: u64)
    requires
        c.paused || c.pending_resume,
    ensures
        !c.records_at(now),
{
}

/// A pause holds until a resume asked for after it: while paused with no
/// resume pending, no observation completes a resume and nothing is recorded.
pub proof fn lemma_pause_holds_without_resume(c: MixerControl, quiet: bool, now: u64)
    requires
        c.paused,
        !c.pending_resume,
    ensures
        !c.resume_completes(quiet, now),
        !c.records_at(now),
{
}

/// Every command but a resume leaves a paused mixer paused with no resume
/// pending; a pause leaves any mixer so.
pub proof fn lemma_only_resume_ends_pause(c: MixerControl, cmd: AudioCommand, now: u64)
    requires
        (c.paused && !c.pending_resume) || cmd == AudioCommand::Pause,
        cmd != AudioCommand::Resume,
    ensures
        c.after_command(cmd, now).paused,
        !c.after_command(cmd, now).pending_resume,
{
}

/// Each command changes only what it names: a microphone gain command sets
/// the microphone gain alone, a loopback gain command the loopback gain
/// alone, and neither touches pause, resume, warm-up or running; a stop ends
/// the loop and changes nothing else.
pub proof fn lemma_commands_change_what_they_name(c: MixerControl, v: u32, now: u64)
    ensures
        c.after_command(AudioCommand::SetMicVolume(v), now) == (MixerControl {
            mic_volume: v,
            ..c
        }),
        c.after_command(AudioCommand::SetLoopbackVolume(v), now) == (MixerControl {
            loopback_volume: v,
            ..c
        }),
        c.after_command(AudioCommand::Stop, now) == (MixerControl { running: false, ..c }),
        c.after_command(AudioCommand::Pause, now).mic_volume == c.mic_volume,
        c.after_command(AudioCommand::Pause, now).loopback_volume == c.loopback_volume,
        c.after_command(AudioCommand::Resume, now).mic_volume == c.mic_volume,
        c.after_command(AudioCommand::Resume, now).loopback_volume == c.loopback_volume,
        c.after_command(AudioCommand::Resume, now).running == c.running,
        c.after_command(AudioCommand::Pause, now).running == c.running,
{
}

/// One thing that happens to the mixer's control in a pass of its loop:
/// a command arrives, or the loopback is observed.
#[derive(Debug, Clone, Copy, PartialEq, Eq, Structural)]
pub enum ControlEvent {
    Command(AudioCommand, u64),
    Observe(bool, u64),
}

/// The control after `e`.
pub open spec fn after_event(c: MixerControl, e: ControlEvent) -> MixerControl {
    match e {
        ControlEvent::Command(cmd, now) => c.after_command(cmd, now),
        ControlEvent::Observe(quiet, now) => c.after_observe(quiet, now),
    }
}

/// The control after the events of a run of passes, in order.
pub open spec fn after_events(c: MixerControl, events: Seq<ControlEvent>) -> MixerControl
    decreases events.len(),
{
    if events.len() == 0 {
        c
    } else {
        after_event(after_events(c, events.drop_last()), events.last())
    }
}

/// Event `e` is a resume command.
pub open spec fn is_resume(e: ControlEvent) -> bool {
    e matches ControlEvent::Command(AudioCommand::Resume, _)
}

/// Over any run of passes that brings no resume, a paused mixer with no
/// resume pending stays so, and records nothing at any time: everything read
/// meanwhile is discarded.
pub proof fn lemma_pause_holds_over_run(c: MixerControl, events: Seq<ControlEvent>, now: u64)
    requires
        c.paused,
        !c.pending_resume,
        forall|i: int| 0 <= i < events.len() ==> !is_resume(#[trigger] events[i]),
    ensures
        after_events(c, events).paused,
        !after_events(c, events).pending_resume,
        !after_events(c, events).records_at(now),
    decreases events.len(),
{
    if events.len() > 0 {
        let prefix = events.drop_last();
        assert forall|i: int| 0 <= i < prefix.len() implies !is_resume(#[trigger] prefix[i]) by {
            assert(prefix[i] == events[i]);
        }
        lemma_pause_holds_over_run(c, prefix, now);
        assert(!is_resume(events[events.len() - 1]));
    }
}

/// A pause followed by a run of passes that brings no resume records
/// nothing, whatever was pending before the pause.
pub proof fn lemma_no_audio_after_pause_until_resume(
    c: MixerControl,
    t: u64,
    events: Seq<ControlEvent>,
    now: u64,
)
    requires
        forall|i: int| 0 <= i < events.len() ==> !is_resume(#[trigger] events[i]),
    ensures
        !after_events(c.after_command(AudioCommand::Pause, t), events).records_at(now),
{
    lemma_pause_holds_over_run(c.after_command(AudioCommand::Pause, t), events, now);
}

/// A loopback that stays quiet from `t` on lets a pending resume complete
/// 20 ms later.
pub proof fn lemma_resume_completes_when_drained(c: MixerControl, t: u64, now: u64)
    requires
        c.wf(),
        c.pending_resume,
        c.resume_quiet_since == Some(t),
        now >= t + RESUME_QUIET_MS * NANOS_PER_MILLI,
    ensures
        c.resume_completes(true, now),
{
}

/// Frames a pass consumes in units of `unit` frames: the whole units in `frames`.
pub open spec fn whole_units(frames: int, unit: int) -> int {
    (frames / unit) * unit
}

/// Frames a resampled source is consumed in: whole chunks; otherwise any
/// number of frames.
pub open spec fn unit_of(resampled: bool, chunk: usize) -> int {
    if resampled {
        chunk as int
    } else {
        1
    }
}

/// One source as the mixer sees it in a pass.
#[derive(Debug, Clone, Copy, PartialEq, Eq, Structural)]
pub struct StagedSource {
    /// Samples waiting in the staging buffer.
    pub staged: usize,
    /// Channels of the source.
    pub channels: usize,
    /// The source goes through the resampler, one chunk at a time.
    pub resampled: bool,
}

/// How many staged samples of each source a pass consumes.
#[derive(Debug, Clone, Copy, PartialEq, Eq, Structural)]
pub struct DrainPlan {
    pub mic_samples: usize,
    pub loopback_samples: usize,
}

/// The sources can be planned for: channel counts are positive, and chunks
/// are non-empty and fit the address space.
pub open spec fn plannable(mic: StagedSource, lp: StagedSource, chunk: usize) -> bool {
    &&& mic.channels > 0
    &&& lp.channels > 0
    &&& chunk > 0
    &&& chunk * mic.channels <= usize::MAX
    &&& chunk * lp.channels <= usize::MAX
}

/// Frames consumed from `src` when at most `limit` frames may be taken.
pub open spec fn frames_taken(src: StagedSource, limit: int, chunk: usize) -> int {
    whole_units(limit, unit_of(src.resampled, chunk))
}

/// The frames available in both sources.
pub open spec fn common_frames(mic: StagedSource, lp: StagedSource) -> int {
    let a = mic.staged as int / mic.channels as int;
    let b = lp.staged as int / lp.channels as int;
    if a <= b {
        a
    } else {
        b
    }
}

/// A two-source pass waits until each source has at least one unit of frames.
pub open spec fn mix_ready(mic: StagedSource, lp: StagedSource, chunk: usize) -> bool {
    &&& mic.staged >= unit_of(mic.resampled, chunk) * mic.channels
    &&& lp.staged >= unit_of(lp.resampled, chunk) * lp.channels
}

/// The pass's plan: when the mode records both sources (the mix modes and
/// separate files) both give the same number of frames (whole chunks for a
/// resampled source); in a single-source mode each source gives all its whole
/// frames (whole chunks when resampled). A two-source pass with too little
/// staged gives no plan and waits.
pub open spec fn drain_plan_of(mode: OutputMode, mic: StagedSource, lp: StagedSource, chunk: usize) -> Option<
    (int, int),
> {
    if mode.syncs_sources() {
        if mix_ready(mic, lp, chunk) {
            let f = common_frames(mic, lp);
            Some(
                (
                    frames_taken(mic, f, chunk) * mic.channels,
                    frames_taken(lp, f, chunk) * lp.channels,
                ),
            )
        } else {
            None
        }
    } else {
        Some(
            (
                frames_taken(mic, mic.staged as int / mic.channels as int, chunk) * mic.channels,
                frames_taken(lp, lp.staged as int / lp.channels as int, chunk) * lp.channels,
            ),
        )
    }
}

/// `(limit / unit) * unit * channels` samples, which is at most `staged`
/// when `limit <= staged / channels`.
fn take_samples(src: StagedSource, limit: usize, chunk: usize) -> (r: usize)
    requires
        src.channels > 0,
        chunk > 0,
        limit <= src.staged / src.channels,
    ensures
        r == frames_taken(src, limit as int, chunk) * src.channels,
        r <= src.staged,
{
    let unit: usize = if src.resampled {
        chunk
    } else {
        1
    };
    proof {
        lemma_fundamental_div_mod(limit as int, unit as int);
        lemma_fundamental_div_mod(src.staged as int, src.channels as int);
        assert((limit / unit) * unit <= limit) by (nonlinear_arith)
            requires
                limit == unit * (limit / unit) + limit % unit,
                limit % unit >= 0,
        ;
    }
    let frames = (limit / unit) * unit;
    proof {
        lemma_mul_inequality(frames as int, (src.staged / src.channels) as int, src.channels as int);
        assert((src.staged / src.channels) * src.channels <= src.staged) by (nonlinear_arith)
            requires
                src.staged == src.channels * (src.staged / src.channels) + src.staged
                    % src.channels,
                src.staged % src.channels >= 0,
        ;
    }
    frames * src.channels
}

/// Plans one pass of the mixer over the staged samples of both sources.
pub fn plan_drain(mode: OutputMode, mic: StagedSource, loopback: StagedSource, chunk: usize) -> (r:
    Option<DrainPlan>)
    requires
        plannable(mic, loopback, chunk),
    ensures
        match drain_plan_of(mode, mic, loopback, chunk) {
            Some((m, l)) => r == Some(DrainPlan { mic_samples: m as usize, loopback_samples: l as usize }),
            None => r is None,
        },
        r matches Some(p) ==> p.mic_samples <= mic.staged && p.loopback_samples <= loopback.staged,
{
    if mode.drains_in_step() {
        let mic_min = if mic.resampled {
            chunk * mic.channels
        } else {
            mic.channels
        };
        let loop_min = if loopback.resampled {
            chunk * loopback.channels
        } else {
            loopback.channels
        };
        assert(unit_of(mic.resampled, chunk) * mic.channels == mic_min);
        assert(unit_of(loopback.resampled, chunk) * loopback.channels == loop_min);
        if mic.staged < mic_min || loopback.staged < loop_min {
            return None;
        }
        let mic_avail = mic.staged / mic.channels;
        let loop_avail = loopback.staged / loopback.channels;
        let common = if mic_avail <= loop_avail {
            mic_avail
        } else {
            loop_avail
        };
        let m = take_samples(mic, common, chunk);
        let l = take_samples(loopback, common, chunk);
        Some(DrainPlan { mic_samples: m, loopback_samples: l })
    } else {
        let m = take_samples(mic, mic.staged / mic.channels, chunk);
        let l = take_samples(loopback, loopback.staged / loopback.channels, chunk);
        Some(DrainPlan { mic_samples: m, loopback_samples: l })
    }
}

/// When both sources are recorded, they give the same number of frames
/// when they are resampled alike, so they stay in step.
pub proof fn lemma_sources_drain_in_step(mode: OutputMode, mic: StagedSource, lp: StagedSource, chunk: usize)
    requires
        plannable(mic, lp, chunk),
        mode.syncs_sources(),
        mic.resampled == lp.resampled,
        drain_plan_of(mode, mic, lp, chunk) is Some,
    ensures
        ({
            let (m, l) = drain_plan_of(mode, mic, lp, chunk)->0;
            m / (mic.channels as int) == l / (lp.channels as int)
        }),
{
    let f = common_frames(mic, lp);
    let t = frames_taken(mic, f, chunk);
    assert(frames_taken(lp, f, chunk) == t);
    vstd::arithmetic::div_mod::lemma_div_multiples_vanish(t, mic.channels as int);
    vstd::arithmetic::div_mod::lemma_div_multiples_vanish(t, lp.channels as int);
    vstd::arithmetic::mul::lemma_mul_is_commutative(t, mic.channels as int);
    vstd::arithmetic::mul::lemma_mul_is_commutative(t, lp.channels as int);
}

/// A resampled source is only ever consumed in whole chunks.
pub proof fn lemma_resampled_whole_chunks(mode: OutputMode, mic: StagedSource, lp: StagedSource, chunk: usize)
    requires
        plannable(mic, lp, chunk),
        mic.resampled,
        drain_plan_of(mode, mic, lp, chunk) is Some,
    ensures
        ({
            let (m, _l) = drain_plan_of(mode, mic, lp, chunk)->0;
            m % ((chunk * mic.channels) as int) == 0
        }),
{
    let limit = if mode.syncs_sources() {
        common_frames(mic, lp)
    } else {
        mic.staged as int / mic.channels as int
    };
    let q = limit / (chunk as int);
    assert((q * chunk) * mic.channels == q * (chunk * mic.channels)) by (nonlinear_arith);
    assert(chunk * mic.channels > 0) by (nonlinear_arith)
        requires
            chunk > 0,
            mic.channels > 0,
    ;
    vstd::arithmetic::div_mod::lemma_mod_multiples_basic(q, (chunk * mic.channels) as int);
    vstd::arithmetic::mul::lemma_mul_is_commutative(q, (chunk * mic.channels) as int);
}

/// The modes that record both sources, named one by one.
pub open spec fn records_both(mode: OutputMode) -> bool {
    mode == OutputMode::Mix || mode == OutputMode::MixPlusMicrophone || mode
        == OutputMode::MixPlusLoopback || mode == OutputMode::SeparateFiles
}

/// Smallest staged amount, in samples, that lets a source take part in a
/// two-source pass: one frame, or one whole chunk of frames when resampled.
pub open spec fn least_staged(src: StagedSource, chunk: usize) -> int {
    if src.resampled {
        chunk * src.channels
    } else {
        src.channels as int
    }
}

/// When both sources are recorded, a pass happens exactly when each source
/// holds at least one frame, or one whole chunk when it is resampled; and
/// neither source gives more frames than the other one holds, so neither runs
/// ahead of the other.
pub proof fn lemma_two_source_pass_waits_for_both(
    mode: OutputMode,
    mic: StagedSource,
    lp: StagedSource,
    chunk: usize,
)
    requires
        plannable(mic, lp, chunk),
        records_both(mode),
    ensures
        drain_plan_of(mode, mic, lp, chunk) is Some <==> (mic.staged >= least_staged(mic, chunk)
            && lp.staged >= least_staged(lp, chunk)),
        drain_plan_of(mode, mic, lp, chunk) matches Some((m, l)) ==> {
            &&& 0 <= m <= mic.staged
            &&& 0 <= l <= lp.staged
            &&& m % (mic.channels as int) == 0
            &&& l % (lp.channels as int) == 0
            &&& m / (mic.channels as int) <= lp.staged as int / (lp.channels as int)
            &&& l / (lp.channels as int) <= mic.staged as int / (mic.channels as int)
        },
{
    assert(mode.syncs_sources());
    if mic.resampled {
        assert(unit_of(mic.resampled, chunk) == chunk as int);
    } else {
        assert(unit_of(mic.resampled, chunk) * mic.channels == mic.channels) by (nonlinear_arith)
            requires
                unit_of(mic.resampled, chunk) == 1,
        ;
    }
    if lp.resampled {
        assert(unit_of(lp.resampled, chunk) == chunk as int);
    } else {
        assert(unit_of(lp.resampled, chunk) * lp.channels == lp.channels) by (nonlinear_arith)
            requires
                unit_of(lp.resampled, chunk) == 1,
        ;
    }
    assert(unit_of(mic.resampled, chunk) * mic.channels == least_staged(mic, chunk));
    assert(unit_of(lp.resampled, chunk) * lp.channels == least_staged(lp, chunk));
    if let Some((m, l)) = drain_plan_of(mode, mic, lp, chunk) {
        let f = common_frames(mic, lp);
        let um = unit_of(mic.resampled, chunk);
        let ul = unit_of(lp.resampled, chunk);
        let tm = frames_taken(mic, f, chunk);
        let tl = frames_taken(lp, f, chunk);
        let a = mic.staged as int / mic.channels as int;
        let b = lp.staged as int / lp.channels as int;
        lemma_fundamental_div_mod(f, um);
        lemma_fundamental_div_mod(f, ul);
        lemma_fundamental_div_mod(mic.staged as int, mic.channels as int);
        lemma_fundamental_div_mod(lp.staged as int, lp.channels as int);
        assert(0 <= tm <= f) by (nonlinear_arith)
            requires
                tm == (f / um) * um,
                f == um * (f / um) + f % um,
                0 <= f % um,
                f >= 0,
                um > 0,
        ;
        assert(0 <= tl <= f) by (nonlinear_arith)
            requires
                tl == (f / ul) * ul,
                f == ul * (f / ul) + f % ul,
                0 <= f % ul,
                f >= 0,
                ul > 0,
        ;
        assert(tm * mic.channels <= mic.staged) by (nonlinear_arith)
            requires
                0 <= tm <= f,
                f <= a,
                mic.staged == mic.channels * a + (mic.staged as int) % (mic.channels as int),
                (mic.staged as int) % (mic.channels as int) >= 0,
                mic.channels > 0,
        ;
        assert(tl * lp.channels <= lp.staged) by (nonlinear_arith)
            requires
                0 <= tl <= f,
                f <= b,
                lp.staged == lp.channels * b + (lp.staged as int) % (lp.channels as int),
                (lp.staged as int) % (lp.channels as int) >= 0,
                lp.channels > 0,
        ;
        vstd::arithmetic::div_mod::lemma_mod_multiples_basic(tm, mic.channels as int);
        vstd::arithmetic::div_mod::lemma_mod_multiples_basic(tl, lp.channels as int);
        vstd::arithmetic::div_mod::lemma_div_multiples_vanish(tm, mic.channels as int);
        vstd::arithmetic::div_mod::lemma_div_multiples_vanish(tl, lp.channels as int);
        vstd::arithmetic::mul::lemma_mul_is_commutative(tm, mic.channels as int);
        vstd::arithmetic::mul::lemma_mul_is_commutative(tl, lp.channels as int);
    }
}

/// In a single-source mode every pass takes place, and each source gives
/// all its whole frames, or all its whole chunks when it is resampled.
pub proof fn lemma_single_source_pass_takes_all(
    mode: OutputMode,
    mic: StagedSource,
    lp: StagedSource,
    chunk: usize,
)
    requires
        plannable(mic, lp, chunk),
        mode == OutputMode::Microphone || mode == OutputMode::Loopback,
    ensures
        drain_plan_of(mode, mic, lp, chunk) matches Some((m, l)) && {
            &&& !mic.resampled ==> m == (mic.staged as int / mic.channels as int) * mic.channels
            &&& !lp.resampled ==> l == (lp.staged as int / lp.channels as int) * lp.channels
            &&& mic.resampled ==> m == (mic.staged as int / (chunk * mic.channels) as int) * (chunk
                * mic.channels)
            &&& lp.resampled ==> l == (lp.staged as int / (chunk * lp.channels) as int) * (chunk
                * lp.channels)
        },
{
    let a = mic.staged as int / mic.channels as int;
    let b = lp.staged as int / lp.channels as int;
    if mic.resampled {
        vstd::arithmetic::div_mod::lemma_div_denominator(mic.staged as int, mic.channels as int, chunk as int);
        vstd::arithmetic::mul::lemma_mul_is_commutative(mic.channels as int, chunk as int);
        assert((a / chunk as int) * chunk as int * mic.channels == (a / chunk as int) * (chunk
            * mic.channels)) by (nonlinear_arith);
    }
    if lp.resampled {
        vstd::arithmetic::div_mod::lemma_div_denominator(lp.staged as int, lp.channels as int, chunk as int);
        vstd::arithmetic::mul::lemma_mul_is_commutative(lp.channels as int, chunk as int);
        assert((b / chunk as int) * chunk as int * lp.channels == (b / chunk as int) * (chunk
            * lp.channels)) by (nonlinear_arith);
    }
}

/// A resume asked for at `now` waits at most 500 ms, and 20 ms of quiet
/// loopback end the wait earlier; until then, with the loopback not yet
/// quiet for 20 ms, it keeps waiting.
pub proof fn lemma_resume_timing(c: MixerControl, now: u64, t: u64, later: u64)
    requires
        now + 500_000_000 <= u64::MAX,
        t >= now,
    ensures
        c.after_command(AudioCommand::Resume, now).pending_resume,
        c.after_command(AudioCommand::Resume, now).resume_deadline == Some((now + 500_000_000) as u64),
        later >= now + 500_000_000 ==> c.after_command(AudioCommand::Resume, now).resume_completes(
            false,
            later,
        ),
        ({
            let w = MixerControl { resume_quiet_since: Some(t), ..c.after_command(AudioCommand::Resume, now) };
            &&& later >= t + 20_000_000 ==> w.resume_completes(true, later)
            &&& later < t + 20_000_000 && later < now + 500_000_000 ==> !w.resume_completes(
                true,
                later,
            )
            &&& later < now + 500_000_000 ==> !w.resume_completes(false, later)
        }),
{
}

/// A new mixer records nothing before `warmup_ms` milliseconds have passed,
/// and records from then on.
pub proof fn lemma_warmup_discards(now: u64, warmup_ms: u64, c: MixerControl, t: u64)
    requires
        now + warmup_ms * 1_000_000 <= u64::MAX,
        !c.paused,
        !c.pending_resume,
        c.warmup_end == now + warmup_ms * 1_000_000,
    ensures
        t < now + warmup_ms * 1_000_000 ==> !c.records_at(t),
        t >= now + warmup_ms * 1_000_000 ==> c.records_at(t),
{
}

} // verus!
