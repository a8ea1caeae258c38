//! Recording profiles: named sets of output folder, mode, sample rate,
//! volumes and file name prefixes, with the validation of user-entered names.
use vstd::prelude::*;
use crate::audio::types::OutputMode;
use crate::text::{char_is_white_space, chars_of, is_white_space, push_char, text_eq};

verus! {

/// Bit pattern of the `f32` gain 1.0 (unity).
pub const UNITY_GAIN_BITS: u32 = 0x3F80_0000;

/// Bit pattern of the `f32` gain 0.5 (half).
pub const HALF_GAIN_BITS: u32 = 0x3F00_0000;

/// A recording profile. Gains are kept as the IEEE-754 bit patterns of their
/// `f32` values, so they pass through the library exactly.
#[derive(Debug)]
pub struct RecordingProfile {
    pub id: String,
    pub name: String,
    pub description: String,
    /// Output folder, relative to the application directory unless absolute.
    pub output_folder: String,
    pub output_mode: OutputMode,
    pub sample_rate: u32,
    /// Bit pattern of the microphone gain (`f32::to_bits`).
    pub mic_volume: u32,
    /// Bit pattern of the loopback gain (`f32::to_bits`).
    pub loopback_volume: u32,
    pub mic_filename: String,
    pub loopback_filename: String,
    pub mix_filename: String,
}

impl Clone for RecordingProfile {
    fn clone(&self) -> (r: Self)
        ensures
            r == *self,
    {
        RecordingProfile {
            id: self.id.clone(),
            name: self.name.clone(),
            description: self.description.clone(),
            output_folder: self.output_folder.clone(),
            output_mode: self.output_mode,
            sample_rate: self.sample_rate,
            mic_volume: self.mic_volume,
            loopback_volume: self.loopback_volume,
            mic_filename: self.mic_filename.clone(),
            loopback_filename: self.loopback_filename.clone(),
            mix_filename: self.mix_filename.clone(),
        }
    }
}

/// The file name prefixes and folder every built-in profile starts with.
pub open spec fn has_standard_names(p: RecordingProfile) -> bool {
    &&& p.description@ == Seq::<char>::empty()
    &&& p.output_folder@ == "Recordings"@
    &&& p.mic_filename@ == "mic"@
    &&& p.loopback_filename@ == "loopback"@
    &&& p.mix_filename@ == "mix"@
}

/// The built-in default profile.
pub open spec fn is_default_profile(p: RecordingProfile) -> bool {
    &&& p.id@ == "default"@
    &&& p.name@ == "Default"@
    &&& has_standard_names(p)
    &&& p.output_mode == OutputMode::Mix
    &&& p.sample_rate == 48000
    &&& p.mic_volume == UNITY_GAIN_BITS
    &&& p.loopback_volume == HALF_GAIN_BITS
}

impl Default for RecordingProfile {
    fn default() -> (r: Self)
        ensures
            is_default_profile(r),
    {
        RecordingProfile {
            id: String::from_str("default"),
            name: String::from_str("Default"),
            description: String::new(),
            output_folder: String::from_str("Recordings"),
            output_mode: OutputMode::Mix,
            sample_rate: 48000,
            mic_volume: UNITY_GAIN_BITS,
            loopback_volume: HALF_GAIN_BITS,
            mic_filename: String::from_str("mic"),
            loopback_filename: String::from_str("loopback"),
            mix_filename: String::from_str("mix"),
        }
    }
}

/// Characters that may not appear in a file name prefix.
pub open spec fn is_forbidden_filename_char(c: char) -> bool {
    c == '<' || c == '>' || c == ':' || c == '"' || c == '/' || c == '\\' || c == '|' || c
        == '?' || c == '*'
}

fn forbidden_filename_char(c: char) -> (r: bool)
    ensures
        r == is_forbidden_filename_char(c),
{
    c == '<' || c == '>' || c == ':' || c == '"' || c == '/' || c == '\\' || c == '|' || c
        == '?' || c == '*'
}

/// `i` is the position of the first forbidden character of `s`.
pub open spec fn first_forbidden_at(s: Seq<char>, i: int) -> bool {
    &&& 0 <= i < s.len()
    &&& is_forbidden_filename_char(s[i])
    &&& forall|j: int| 0 <= j < i ==> !is_forbidden_filename_char(#[trigger] s[j])
}

pub open spec fn has_forbidden_char(s: Seq<char>) -> bool {
    exists|i: int| 0 <= i < s.len() && is_forbidden_filename_char(#[trigger] s[i])
}

/// The message for a file name that holds the forbidden character `c`.
pub open spec fn forbidden_char_message(c: char) -> Seq<char> {
    "Filename contains forbidden character: '"@.push(c) + "'"@
}

/// Checks a file name prefix: it must be non-empty and hold none of
/// `< > : " / \ | ? *`. The error names the first forbidden character.
pub fn validate_filename(name: &str) -> (r: Result<(), String>)
    ensures
        name@.len() == 0 ==> (r matches Err(e) && e@ == "Filename cannot be empty"@),
        name@.len() > 0 && !has_forbidden_char(name@) ==> r is Ok,
        name@.len() > 0 && has_forbidden_char(name@) ==> exists|i: int|
            first_forbidden_at(name@, i) && (r matches Err(e) && e@ == forbidden_char_message(
                #[trigger] name@[i],
            )),
{
    let chars = chars_of(name);
    if chars.len() == 0 {
        return Err(String::from_str("Filename cannot be empty"));
    }
    let n = chars.len();
    let mut i: usize = 0;
    while i < n
        invariant
            chars@ == name@,
            n == chars@.len(),
            i <= n,
            forall|j: int| 0 <= j < i ==> !is_forbidden_filename_char(#[trigger] chars@[j]),
        decreases n - i,
    {
        let c = chars[i];
        if forbidden_filename_char(c) {
            let mut msg = String::from_str("Filename contains forbidden character: '");
            push_char(&mut msg, c);
            msg.append("'");
            assert(first_forbidden_at(name@, i as int));
            return Err(msg);
        }
        i = i + 1;
    }
    Ok(())
}

/// The name has a character outside the Unicode white-space class, so it is
/// not empty once trimmed.
pub open spec fn has_visible_char(s: Seq<char>) -> bool {
    exists|i: int| 0 <= i < s.len() && !is_white_space(#[trigger] s[i])
}

/// Checks a profile name: it must not be empty once leading and trailing
/// white space is trimmed.
pub fn validate_profile_name(name: &str) -> (r: Result<(), String>)
    ensures
        has_visible_char(name@) ==> r is Ok,
        !has_visible_char(name@) ==> (r matches Err(e) && e@ == "Profile name cannot be empty"@),
{
    let chars = chars_of(name);
    let n = chars.len();
    let mut i: usize = 0;
    while i < n
        invariant
            chars@ == name@,
            n == chars@.len(),
            i <= n,
            forall|j: int| 0 <= j < i ==> is_white_space(#[trigger] chars@[j]),
        decreases n - i,
    {
        if !char_is_white_space(chars[i]) {
            assert(!is_white_space(name@[i as int]));
            return Ok(());
        }
        i = i + 1;
    }
    Err(String::from_str("Profile name cannot be empty"))
}

/// The position of the first profile whose id is `id`.
pub open spec fn first_with_id(profiles: Seq<RecordingProfile>, id: Seq<char>, i: int) -> bool {
    &&& 0 <= i < profiles.len()
    &&& profiles[i].id@ == id
    &&& forall|j: int| 0 <= j < i ==> (#[trigger] profiles[j]).id@ != id
}

pub open spec fn has_profile(profiles: Seq<RecordingProfile>, id: Seq<char>) -> bool {
    exists|i: int| 0 <= i < profiles.len() && (#[trigger] profiles[i]).id@ == id
}

/// Finds the first profile with the given id.
pub fn find_profile(profiles: &Vec<RecordingProfile>, id: &str) -> (r: Option<usize>)
    ensures
        r matches Some(i) ==> first_with_id(profiles@, id@, i as int),
        r is None <==> !has_profile(profiles@, id@),
{
    let n = profiles.len();
    let mut i: usize = 0;
    while i < n
        invariant
            n == profiles@.len(),
            i <= n,
            forall|j: int| 0 <= j < i ==> (#[trigger] profiles@[j]).id@ != id@,
        decreases n - i,
    {
        if text_eq(profiles[i].id.as_str(), id) {
            return Some(i);
        }
        i = i + 1;
    }
    None
}

/// The profile with the given id, or the default profile when there is none.
pub fn profile_or_default(profiles: &Vec<RecordingProfile>, id: &str) -> (r: RecordingProfile)
    ensures
        has_profile(profiles@, id@) ==> exists|i: int|
            first_with_id(profiles@, id@, i) && r == #[trigger] profiles@[i],
        !has_profile(profiles@, id@) ==> is_default_profile(r),
{
    match find_profile(profiles, id) {
        Some(i) => profiles[i].clone(),
        None => RecordingProfile::default(),
    }
}

/// The built-in profile records the mix at 48 kHz into "Recordings", with
/// the microphone at full gain (the `f32` 1.0, bits 0x3F80_0000) and the
/// system output at half gain (the `f32` 0.5, bits 0x3F00_0000), and names
/// its files "mic", "loopback" and "mix".
pub proof fn lemma_default_profile_values(p: RecordingProfile)
    requires
        is_default_profile(p),
    ensures
        p.id@ == "default"@,
        p.name@ == "Default"@,
        p.output_mode == OutputMode::Mix,
        p.sample_rate == 48000,
        p.mic_volume == 0x3F80_0000,
        p.loopback_volume == 0x3F00_0000,
        p.output_folder@ == "Recordings"@,
        p.mic_filename@ == "mic"@,
        p.loopback_filename@ == "loopback"@,
        p.mix_filename@ == "mix"@,
        p.description@.len() == 0,
{
}

/// The position found for an id holds a profile with that id, and every
/// other profile with that id stands after it.
pub proof fn lemma_lookup_by_id(profiles: Seq<RecordingProfile>, id: Seq<char>, i: int, k: int)
    requires
        first_with_id(profiles, id, i),
        0 <= k < profiles.len(),
        profiles[k].id@ == id,
    ensures
        profiles[i].id@ == id,
        i <= k,
        has_profile(profiles, id),
{
}

/// The nine characters that file name prefixes may not hold, one by one.
pub open spec fn is_one_of_nine(c: char) -> bool {
    ||| c == '<'
    ||| c == '>'
    ||| c == ':'
    ||| c == '"'
    ||| c == '/'
    ||| c == '\\'
    ||| c == '|'
    ||| c == '?'
    ||| c == '*'
}

/// A non-empty file name prefix is refused exactly when it holds one of
/// `< > : " / \ | ? *`; any other character, a dot or a space among them,
/// is allowed. The error names the first such character.
pub proof fn lemma_filename_rule(name: Seq<char>)
    ensures
        has_forbidden_char(name) <==> exists|i: int| 0 <= i < name.len() && is_one_of_nine(
            #[trigger] name[i],
        ),
        forall|i: int| first_forbidden_at(name, i) ==> is_one_of_nine(name[i]) && forall|j: int|
            0 <= j < i ==> !is_one_of_nine(#[trigger] name[j]),
        !is_forbidden_filename_char('.') && !is_forbidden_filename_char(' ')
            && !is_forbidden_filename_char('-') && !is_forbidden_filename_char('_'),
{
    assert forall|c: char| is_forbidden_filename_char(c) <==> is_one_of_nine(c) by {}
}

} // verus!
