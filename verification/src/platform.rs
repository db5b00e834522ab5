//! The few places where the library leans on code it does not verify: clock
//! readings, a filesystem probe, character classes from std, JSON acceptance
//! from serde_json, and single-character string growth.

use vstd::prelude::*;

verus! {

/// Whether serde_json accepts the text as a JSON document.  The result is
/// decided by the characters alone; nothing further is assumed about it.
pub uninterp spec fn json_accepts(s: Seq<char>) -> bool;

/// Relies on serde_json::from_str::<serde_json::Value>, which accepts or
/// rejects a text on its characters alone.
#[verifier::external_body]
pub(crate) fn json_is_valid(s: &str) -> (r: bool)
    ensures
        r == json_accepts(s@),
{
    serde_json::from_str::<serde_json::Value>(s).is_ok()
}

/// Whether std places the character in the Unicode White_Space class.
pub uninterp spec fn char_space(c: char) -> bool;

/// Relies on char::is_whitespace: a property of the character alone.  Its
/// documentation fixes the ASCII members of the class: the space and the
/// controls 0x09 through 0x0D, and no other character below 0x80.
#[verifier::external_body]
pub(crate) fn is_space_char(c: char) -> (r: bool)
    ensures
        r == char_space(c),
        c == ' ' || (0x09 <= (c as u32) && (c as u32) <= 0x0D) ==> r,
        (c as u32) < 0x80 && !(c == ' ' || (0x09 <= (c as u32) && (c as u32) <= 0x0D)) ==> !r,
{
    c.is_whitespace()
}

/// Whether std counts the character as alphanumeric.
pub uninterp spec fn char_alnum(c: char) -> bool;

/// Relies on char::is_alphanumeric: a property of the character alone.  Its
/// documentation fixes the ASCII members: the digits and the letters of both
/// cases, and no other character below 0x80.
#[verifier::external_body]
pub(crate) fn is_alnum_char(c: char) -> (r: bool)
    ensures
        r == char_alnum(c),
        (('0' as u32) <= (c as u32) && (c as u32) <= ('9' as u32)) || (('a' as u32) <= (c as u32) && (c as u32) <= ('z' as u32)) || (('A' as u32) <= (c as u32) && (c as u32) <= ('Z' as u32)) ==> r,
        (c as u32) < 0x80 && !((('0' as u32) <= (c as u32) && (c as u32) <= ('9' as u32)) || (('a' as u32) <= (c as u32) && (c as u32) <= ('z' as u32)) || (('A' as u32) <= (c as u32) && (c as u32) <= ('Z' as u32))) ==> !r,
{
    c.is_alphanumeric()
}

/// Relies on String::push: appends one character at the end.
pub assume_specification[ String::push ](s: &mut String, ch: char)
    ensures
        final(s)@ == old(s)@.push(ch),
;

/// Relies on chrono::Utc::now().timestamp(): seconds since the Unix epoch
/// as read from the system clock.  The wrapped call does not return on a
/// clock set before 1970, so the reading is never negative in practice.
#[verifier::external_body]
pub(crate) fn now_epoch_secs() -> i64 {
    chrono::Utc::now().timestamp()
}

/// Relies on chrono::Utc::now().timestamp_subsec_nanos(): the subsecond part
/// of the same clock reading, in nanoseconds.
#[verifier::external_body]
pub(crate) fn now_subsec_nanos() -> u32 {
    chrono::Utc::now().timestamp_subsec_nanos()
}

/// Seconds since the Unix epoch.  The wrapped clock reading never returns
/// a pre-epoch value; the clamp only guards the conversion to an unsigned
/// count.
pub fn get_unix_timestamp() -> u64 {
    let t = now_epoch_secs();
    if t < 0 {
        0
    } else {
        t as u64
    }
}

/// Relies on chrono::Local::now() and its format method: the wall-clock time
/// in the machine's time zone, rendered as "YYYY-MM-DD HH:MM:SS".
#[verifier::external_body]
pub fn get_current_time() -> String {
    chrono::Local::now().format("%Y-%m-%d %H:%M:%S").to_string()
}

/// Relies on std::path::Path::exists: whether the path names anything on disk
/// at the moment of the call.
#[verifier::external_body]
pub fn file_exists(path: &str) -> bool {
    std::path::Path::new(path).exists()
}

} // verus!
