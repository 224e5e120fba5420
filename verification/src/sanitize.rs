//! Profile identities. A profile's on-disk identity keeps only ASCII
//! alphanumerics, `-` and `_`; every other character becomes `_`. A name with
//! no acceptable character at all collapses to the fixed default identity.
//! The same identity feeds the configuration, log and launcher file names, so
//! the three always agree for a given profile.
use vstd::prelude::*;
use vstd::string::*;

verus! {

/// A character that survives sanitization unchanged.
pub open spec fn is_profile_char(c: char) -> bool {
    (48 <= c as u32 && c as u32 <= 57)  // '0'..='9'
     || (65 <= c as u32 && c as u32 <= 90)  // 'A'..='Z'
     || (97 <= c as u32 && c as u32 <= 122)  // 'a'..='z'
     || c == '-' || c == '_'
}

/// How one character of a profile name is rewritten.
pub open spec fn sanitize_char(c: char) -> char {
    if is_profile_char(c) {
        c
    } else {
        '_'
    }
}

/// Whether any character of the name survives sanitization.
pub open spec fn has_profile_char(s: Seq<char>) -> bool {
    exists|i: int| 0 <= i < s.len() && is_profile_char(s[i])
}

/// The sanitized identity of a profile name: each character rewritten, or the
/// fixed default identity when nothing would survive.
pub open spec fn sanitize_spec(s: Seq<char>) -> Seq<char> {
    if has_profile_char(s) {
        Seq::new(s.len(), |i: int| sanitize_char(s[i]))
    } else {
        "default"@
    }
}

fn profile_char(c: char) -> (r: bool)
    ensures
        r == is_profile_char(c),
{
    let u = c as u32;
    (48 <= u && u <= 57) || (65 <= u && u <= 90) || (97 <= u && u <= 122) || c == '-' || c == '_'
}

/// Sanitizes a profile name into its identity.
pub fn sanitize_profile_name(profile: &str) -> (r: String)
    ensures
        r@ == sanitize_spec(profile@),
{
    let n = profile.unicode_len();
    let mut out = String::new();
    let mut any: bool = false;
    let mut i: usize = 0;
    while i < n
        invariant
            n == profile@.len(),
            0 <= i <= n,
            out@ =~= Seq::new(i as nat, |j: int| sanitize_char(profile@[j])),
            any == exists|j: int| 0 <= j < i && is_profile_char(profile@[j]),
        decreases n - i,
    {
        let c = profile.get_char(i);
        if profile_char(c) {
            crate::text::push_char(&mut out, c);
            any = true;
        } else {
            crate::text::push_char(&mut out, '_');
        }
        i += 1;
    }
    if any {
        assert(out@ =~= sanitize_spec(profile@));
        out
    } else {
        let d: String = "default".to_owned();
        assert(d@ == sanitize_spec(profile@));
        d
    }
}

/// The configuration file name for a profile: its identity plus `.toml`.
pub fn config_file_name(profile: &str) -> (r: String)
    ensures
        r@ == sanitize_spec(profile@) + ".toml"@,
{
    let mut name = sanitize_profile_name(profile);
    name.append(".toml");
    name
}

/// The default log file name for a profile: its identity plus `.log`.
pub fn log_file_name(profile: &str) -> (r: String)
    ensures
        r@ == sanitize_spec(profile@) + ".log"@,
{
    let mut name = sanitize_profile_name(profile);
    name.append(".log");
    name
}

/// The launcher file name for a profile: the application name, the identity
/// and `.desktop`.
pub fn desktop_file_name(profile: &str) -> (r: String)
    ensures
        r@ == "givetray_"@ + sanitize_spec(profile@) + ".desktop"@,
{
    let mut name: String = "givetray_".to_owned();
    let id = sanitize_profile_name(profile);
    name.append(id.as_str());
    name.append(".desktop");
    assert(name@ =~= "givetray_"@ + sanitize_spec(profile@) + ".desktop"@);
    name
}

} // verus!
