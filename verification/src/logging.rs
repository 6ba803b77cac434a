//! Log level selection from a command line argument.

use vstd::prelude::*;
use vstd::string::StrSliceExecFns;

verus! {

/// The log levels the process distinguishes.
#[derive(Debug, Clone, Copy, PartialEq, Eq, Structural)]
pub enum LogLevel {
    /// Errors only.
    Error,
    /// Warnings and errors.
    Warn,
    /// The default level.
    Info,
    /// Debugging output.
    Debug,
    /// The most verbose level.
    Trace,
}

/// `c` matches `w`, a lower-case ASCII letter, ignoring case.
pub open spec fn char_matches_ci(c: char, w: char) -> bool {
    c == w || (c as u32) + 32 == (w as u32)
}

/// `s` spells `w`, a lower-case ASCII word, ignoring case.
pub open spec fn spells_ci(s: Seq<char>, w: Seq<char>) -> bool {
    s.len() == w.len() && forall|i: int| 0 <= i < s.len() ==> char_matches_ci(s[i], #[trigger] w[i])
}

/// The level a command line argument selects; anything unrecognized
/// selects the default.
pub open spec fn spec_log_level(s: Seq<char>) -> LogLevel {
    if spells_ci(s, "error"@) {
        LogLevel::Error
    } else if spells_ci(s, "warn"@) || spells_ci(s, "warning"@) {
        LogLevel::Warn
    } else if spells_ci(s, "debug"@) {
        LogLevel::Debug
    } else if spells_ci(s, "trace"@) {
        LogLevel::Trace
    } else {
        LogLevel::Info
    }
}

/// `s` spells `w` ignoring ASCII case; `w` is all lower-case letters.
fn str_spells_ci(s: &str, w: &str) -> (r: bool)
    ensures
        r == spells_ci(s@, w@),
{
    let n = s.unicode_len();
    let m = w.unicode_len();
    if n != m {
        return false;
    }
    let mut i: usize = 0;
    while i < n
        invariant
            0 <= i <= n,
            n == s@.len(),
            m == w@.len(),
            n == m,
            forall|k: int| 0 <= k < i ==> char_matches_ci(s@[k], #[trigger] w@[k]),
        decreases n - i,
    {
        let c = s.get_char(i);
        let wc = w.get_char(i);
        let matched: bool = c == wc || (c as u32) + 32 == (wc as u32);
        if !matched {
            proof {
                assert(!char_matches_ci(s@[i as int], w@[i as int]));
            }
            return false;
        }
        i += 1;
    }
    true
}

/// Converts a command line log level argument to the level it selects.
/// The match ignores ASCII case; an unrecognized word selects `Info`.
pub fn convert_log_level(level_str: &str) -> (r: LogLevel)
    ensures
        r == spec_log_level(level_str@),
{
    if str_spells_ci(level_str, "error") {
        LogLevel::Error
    } else if str_spells_ci(level_str, "warn") {
        LogLevel::Warn
    } else if str_spells_ci(level_str, "warning") {
        LogLevel::Warn
    } else if str_spells_ci(level_str, "debug") {
        LogLevel::Debug
    } else if str_spells_ci(level_str, "trace") {
        LogLevel::Trace
    } else {
        LogLevel::Info
    }
}

} // verus!
