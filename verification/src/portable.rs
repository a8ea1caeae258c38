//! Portable mode: the data folder beside the executable and the language
//! chosen on first run.
use vstd::prelude::*;

verus! {

/// Name of the portable data folder, created beside the executable.
pub fn data_dir_name() -> (r: &'static str)
    ensures
        r@ == "AudioCaptor-data"@,
{
    "AudioCaptor-data"
}

/// The locale's primary language subtag (the part before the first '-')
/// is the two letters `a`, `b`.
pub open spec fn has_primary_subtag(locale: Seq<char>, a: char, b: char) -> bool {
    &&& locale.len() >= 2
    &&& locale[0] == a
    &&& locale[1] == b
    &&& (locale.len() == 2 || locale[2] == '-')
}

/// The locale is Ukrainian, or Russian, which has no interface of its own
/// and falls back to Ukrainian.
pub open spec fn is_ukrainian_locale(locale: Seq<char>) -> bool {
    has_primary_subtag(locale, 'u', 'k') || has_primary_subtag(locale, 'r', 'u')
}

/// The supported application language for a system locale name such as
/// "uk-UA": "uk" for Ukrainian and Russian locales, "en" for everything else.
pub fn language_for_locale(locale: &str) -> (r: &'static str)
    ensures
        is_ukrainian_locale(locale@) ==> r@ == "uk"@,
        !is_ukrainian_locale(locale@) ==> r@ == "en"@,
{
    let chars = crate::text::chars_of(locale);
    if chars.len() >= 2 && (chars.len() == 2 || chars[2] == '-') && ((chars[0] == 'u' && chars[1]
        == 'k') || (chars[0] == 'r' && chars[1] == 'u')) {
        "uk"
    } else {
        "en"
    }
}

/// Ukrainian is chosen exactly for locales whose primary subtag is "uk" or
/// "ru" (the whole name, or followed by '-'), such as "uk", "uk-UA" or
/// "ru-RU"; "ukx", "en-UA" or "be-BY" get English.
pub proof fn lemma_ukrainian_locales(locale: Seq<char>)
    ensures
        is_ukrainian_locale(locale) <==> (locale.len() >= 2 && (locale.len() == 2 || locale[2]
            == '-') && ((locale[0] == 'u' && locale[1] == 'k') || (locale[0] == 'r' && locale[1]
            == 'u'))),
        locale.len() >= 1 && locale[0] != 'u' && locale[0] != 'r' ==> !is_ukrainian_locale(locale),
        locale.len() > 2 && locale[2] != '-' ==> !is_ukrainian_locale(locale),
{
}

} // verus!
