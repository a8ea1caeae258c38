//! Persisted settings and their migration between format versions.
use vstd::prelude::*;
use crate::audio::types::OutputMode;
use crate::text::text_eq;
use crate::profiles::{
    find_profile, first_with_id, has_profile, has_standard_names, is_default_profile,
    RecordingProfile, HALF_GAIN_BITS, UNITY_GAIN_BITS,
};

verus! {

/// The settings format version this library writes.
pub const CURRENT_SETTINGS_VERSION: u32 = 3;

/// Application settings. The last four fields are the flat fields of the
/// first format version; they are read only when migrating from it.
#[derive(Debug)]
pub struct Settings {
    pub version: u32,
    pub selected_mic: Option<String>,
    pub selected_loopback: Option<String>,
    pub hotkey: String,
    pub sound_enabled: bool,
    pub profiles: Vec<RecordingProfile>,
    pub active_profile_id: String,
    pub language: String,
    pub confirm_exit_during_recording: bool,
    /// Legacy microphone gain (bit pattern of an `f32`).
    pub mic_volume: u32,
    /// Legacy loopback gain (bit pattern of an `f32`).
    pub loopback_volume: u32,
    /// Legacy output mode.
    pub output_mode: OutputMode,
    /// Legacy sample rate.
    pub sample_rate: u32,
}

/// Sample rate assumed for a legacy settings file that names none.
pub fn default_sample_rate() -> (r: u32)
    ensures
        r == 48000,
{
    48000
}

/// The default settings.
pub open spec fn is_default_settings(s: Settings) -> bool {
    default_settings_in(s, "en"@)
}

/// The default settings, with the user interface in `language`.
pub open spec fn default_settings_in(s: Settings, language: Seq<char>) -> bool {
    &&& s.version == CURRENT_SETTINGS_VERSION
    &&& s.selected_mic is None
    &&& s.selected_loopback is None
    &&& s.hotkey@ == "Pause"@
    &&& s.sound_enabled
    &&& s.profiles@.len() == 1
    &&& is_default_profile(s.profiles@[0])
    &&& s.active_profile_id@ == "default"@
    &&& s.language@ == language
    &&& s.confirm_exit_during_recording
    &&& s.mic_volume == UNITY_GAIN_BITS
    &&& s.loopback_volume == HALF_GAIN_BITS
    &&& s.output_mode == OutputMode::Mix
    &&& s.sample_rate == 48000
}

impl Default for Settings {
    fn default() -> (r: Self)
        ensures
            is_default_settings(r),
    {
        let mut profiles: Vec<RecordingProfile> = Vec::new();
        profiles.push(RecordingProfile::default());
        Settings {
            version: CURRENT_SETTINGS_VERSION,
            selected_mic: None,
            selected_loopback: None,
            hotkey: String::from_str("Pause"),
            sound_enabled: true,
            profiles,
            active_profile_id: String::from_str("default"),
            language: String::from_str("en"),
            confirm_exit_during_recording: true,
            mic_volume: UNITY_GAIN_BITS,
            loopback_volume: HALF_GAIN_BITS,
            output_mode: OutputMode::Mix,
            sample_rate: default_sample_rate(),
        }
    }
}

/// The profile that the second format version builds out of the flat
/// fields of the first.
pub open spec fn is_profile_from_flat_fields(p: RecordingProfile, s: Settings) -> bool {
    &&& p.id@ == "default"@
    &&& p.name@ == "Default"@
    &&& has_standard_names(p)
    &&& p.output_mode == s.output_mode
    &&& p.sample_rate == s.sample_rate
    &&& p.mic_volume == s.mic_volume
    &&& p.loopback_volume == s.loopback_volume
}

/// Fields that no migration step touches.
pub open spec fn keeps_untouched_fields(old: Settings, new: Settings) -> bool {
    &&& new.selected_mic == old.selected_mic
    &&& new.selected_loopback == old.selected_loopback
    &&& new.hotkey == old.hotkey
    &&& new.sound_enabled == old.sound_enabled
    &&& new.language == old.language
    &&& new.confirm_exit_during_recording == old.confirm_exit_during_recording
    &&& new.mic_volume == old.mic_volume
    &&& new.loopback_volume == old.loopback_volume
    &&& new.output_mode == old.output_mode
    &&& new.sample_rate == old.sample_rate
}

/// `new` is what migrating `old` to the current format gives:
/// - versions 0 and 1 get one profile built from the flat fields, made active;
/// - version 2 keeps its profiles, or gets the default profile when it has none;
/// - every version up to 2 ends at version 3;
/// - version 3 and unknown later versions are left as they are.
pub open spec fn migration_of(old: Settings, new: Settings) -> bool {
    if old.version <= 2 {
        &&& new.version == CURRENT_SETTINGS_VERSION
        &&& keeps_untouched_fields(old, new)
        &&& if old.version <= 1 {
            &&& new.profiles@.len() == 1
            &&& is_profile_from_flat_fields(new.profiles@[0], old)
            &&& new.active_profile_id@ == "default"@
        } else if old.profiles@.len() == 0 {
            &&& new.profiles@.len() == 1
            &&& is_default_profile(new.profiles@[0])
            &&& new.active_profile_id@ == "default"@
        } else {
            &&& new.profiles@ == old.profiles@
            &&& new.active_profile_id == old.active_profile_id
        }
    } else {
        new == old
    }
}

/// Brings settings read from disk up to the current format, one version
/// step at a time.
pub fn migrate_settings(settings: Settings) -> (r: Settings)
    ensures
        migration_of(settings, r),
{
    let ghost old = settings;
    let mut settings = settings;
    if settings.version == 0 {
        settings.version = 1;
    }
    if settings.version == 1 {
        let profile = RecordingProfile {
            id: String::from_str("default"),
            name: String::from_str("Default"),
            description: String::new(),
            output_folder: String::from_str("Recordings"),
            output_mode: settings.output_mode,
            sample_rate: settings.sample_rate,
            mic_volume: settings.mic_volume,
            loopback_volume: settings.loopback_volume,
            mic_filename: String::from_str("mic"),
            loopback_filename: String::from_str("loopback"),
            mix_filename: String::from_str("mix"),
        };
        let mut profiles: Vec<RecordingProfile> = Vec::new();
        profiles.push(profile);
        settings.profiles = profiles;
        settings.active_profile_id = String::from_str("default");
        settings.version = 2;
    } else if settings.version == 2 {
        if settings.profiles.len() == 0 {
            let mut profiles: Vec<RecordingProfile> = Vec::new();
            profiles.push(RecordingProfile::default());
            settings.profiles = profiles;
            settings.active_profile_id = String::from_str("default");
        }
    }
    if settings.version == 2 {
        settings.version = CURRENT_SETTINGS_VERSION;
    }
    settings
}

/// Migration reaches the current version from every known version.
pub proof fn lemma_migration_reaches_current_version(old: Settings, new: Settings)
    requires
        migration_of(old, new),
        old.version <= CURRENT_SETTINGS_VERSION,
    ensures
        new.version == CURRENT_SETTINGS_VERSION,
{
}

/// Migration from an older version always leaves at least one profile.
pub proof fn lemma_migration_keeps_a_profile(old: Settings, new: Settings)
    requires
        migration_of(old, new),
        old.version < CURRENT_SETTINGS_VERSION,
    ensures
        new.profiles@.len() >= 1,
{
}

/// Migrating twice is migrating once.
pub proof fn lemma_migration_idempotent(s: Settings, once: Settings, twice: Settings)
    requires
        migration_of(s, once),
        migration_of(once, twice),
    ensures
        twice == once,
{
}

/// Migration never changes the selected devices, hotkey, sound switch,
/// language or exit confirmation.
pub proof fn lemma_migration_keeps_preferences(old: Settings, new: Settings)
    requires
        migration_of(old, new),
    ensures
        keeps_untouched_fields(old, new),
{
}

/// A settings file of the first format (version 0 or 1) ends at version 3
/// with one active profile, "default" / "Default", that carries the file's
/// own output mode, sample rate, microphone gain and loopback gain, writes to
/// "Recordings" and names its files "mic", "loopback" and "mix". A file of
/// version 3 or later is left exactly as it was read.
pub proof fn lemma_legacy_fields_become_profile(old: Settings, new: Settings)
    requires
        migration_of(old, new),
    ensures
        old.version <= 1 ==> {
            &&& new.version == 3
            &&& new.profiles@.len() == 1
            &&& new.active_profile_id@ == "default"@
            &&& new.profiles@[0].id@ == "default"@
            &&& new.profiles@[0].name@ == "Default"@
            &&& new.profiles@[0].output_mode == old.output_mode
            &&& new.profiles@[0].sample_rate == old.sample_rate
            &&& new.profiles@[0].mic_volume == old.mic_volume
            &&& new.profiles@[0].loopback_volume == old.loopback_volume
            &&& new.profiles@[0].output_folder@ == "Recordings"@
            &&& new.profiles@[0].mic_filename@ == "mic"@
            &&& new.profiles@[0].loopback_filename@ == "loopback"@
            &&& new.profiles@[0].mix_filename@ == "mix"@
        },
        old.version == 2 ==> new.version == 3,
        old.version >= 3 ==> new == old,
{
}

/// The settings written on first run: the defaults, migrated, in `language`.
pub fn first_run_settings(language: &str) -> (r: Settings)
    ensures
        default_settings_in(r, language@),
{
    let mut s = migrate_settings(Settings::default());
    s.language = String::from_str(language);
    s
}

impl Settings {
    /// Makes the profile `id` the active one. Fails, changing nothing, when
    /// there is no such profile; otherwise returns its position.
    pub fn select_profile(&mut self, id: &str) -> (r: Result<usize, String>)
        ensures
            !has_profile(old(self).profiles@, id@) ==> (r matches Err(e) && e@
                == "Profile not found: "@ + id@) && *final(self) == *old(self),
            has_profile(old(self).profiles@, id@) ==> (r matches Ok(i) && first_with_id(
                old(self).profiles@,
                id@,
                i as int,
            )),
            r is Ok ==> final(self).active_profile_id@ == id@ && *final(self) == (Settings {
                active_profile_id: final(self).active_profile_id,
                ..*old(self)
            }),
    {
        match find_profile(&self.profiles, id) {
            Some(i) => {
                self.active_profile_id = String::from_str(id);
                Ok(i)
            },
            None => {
                let mut msg = String::from_str("Profile not found: ");
                msg.append(id);
                Err(msg)
            },
        }
    }

    /// After the profile `deleted_id` has been removed from the list: when it
    /// was the active one, the first remaining profile becomes active.
    /// Returns the id that is active afterwards.
    pub fn reselect_after_delete(&mut self, deleted_id: &str) -> (r: String)
        requires
            old(self).active_profile_id@ == deleted_id@ ==> old(self).profiles@.len() > 0,
        ensures
            old(self).active_profile_id@ == deleted_id@ ==> final(self).active_profile_id
                == old(self).profiles@[0].id,
            old(self).active_profile_id@ != deleted_id@ ==> final(self).active_profile_id
                == old(self).active_profile_id,
            r == final(self).active_profile_id,
            *final(self) == (Settings { active_profile_id: final(self).active_profile_id, ..*old(self) }),
    {
        if text_eq(self.active_profile_id.as_str(), deleted_id) {
            self.active_profile_id = self.profiles[0].id.clone();
        }
        self.active_profile_id.clone()
    }

    /// The active profile, or an error when no profile has the active id.
    pub fn active_profile(&self) -> (r: Result<RecordingProfile, String>)
        ensures
            has_profile(self.profiles@, self.active_profile_id@) ==> exists|i: int|
                first_with_id(self.profiles@, self.active_profile_id@, i) && r == Ok::<
                    RecordingProfile,
                    String,
                >(#[trigger] self.profiles@[i]),
            !has_profile(self.profiles@, self.active_profile_id@) ==> (r matches Err(e) && e@
                == "Active profile not found"@),
    {
        match find_profile(&self.profiles, self.active_profile_id.as_str()) {
            Some(i) => Ok(self.profiles[i].clone()),
            None => Err(String::from_str("Active profile not found")),
        }
    }
}

} // verus!
