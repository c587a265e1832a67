//! Configuration data the relays read: the broker endpoint and the log
//! level. Loading these from files or the environment is left to the
//! process around the library.

use vstd::prelude::*;
use vstd::string::StrSliceExecFns;

verus! {

/// How to reach the message broker.
pub struct BrokerSettings {
    /// broker username
    pub username: String,
    /// broker password
    pub password: String,
    /// broker port
    pub port: u16,
    /// broker hostname
    pub host: String,
}

/// Verbosity of the whole application.
#[derive(Clone, Copy, Debug, PartialEq, Eq, Structural)]
pub enum LogLevel {
    Trace,
    Debug,
    Info,
    Warning,
    Error,
}

/// ASCII lower-casing of one code point.
pub open spec fn lower_u32(u: u32) -> u32 {
    if 65 <= u <= 90 {
        (u + 32) as u32
    } else {
        u
    }
}

/// Whether `s` equals `kw` up to ASCII case.
pub open spec fn matches_keyword(s: Seq<char>, kw: Seq<char>) -> bool {
    s.len() == kw.len() && forall|i: int|
        0 <= i < s.len() ==> lower_u32(#[trigger] s[i] as u32) == kw[i] as u32
}

/// The level a string names: the known level keywords, case-insensitively,
/// with everything else defaulting to `Info`.
pub open spec fn spec_log_level(s: Seq<char>) -> LogLevel {
    if matches_keyword(s, "trace"@) {
        LogLevel::Trace
    } else if matches_keyword(s, "debug"@) {
        LogLevel::Debug
    } else if matches_keyword(s, "warning"@) || matches_keyword(s, "warn"@) {
        LogLevel::Warning
    } else if matches_keyword(s, "error"@) {
        LogLevel::Error
    } else {
        LogLevel::Info
    }
}

/// The lower-case name of each level.
pub open spec fn spec_log_level_name(l: LogLevel) -> Seq<char> {
    match l {
        LogLevel::Trace => "trace"@,
        LogLevel::Debug => "debug"@,
        LogLevel::Info => "info"@,
        LogLevel::Warning => "warning"@,
        LogLevel::Error => "error"@,
    }
}

/// Compare two strings for equality up to ASCII case.
fn eq_ignore_ascii_case(s: &str, kw: &str) -> (r: bool)
    ensures
        r == matches_keyword(s@, kw@),
{
    let n = s.unicode_len();
    if n != kw.unicode_len() {
        return false;
    }
    let mut i: usize = 0;
    while i < n
        invariant
            n == s@.len(),
            n == kw@.len(),
            i <= n,
            forall|j: int| 0 <= j < i ==> lower_u32(#[trigger] s@[j] as u32) == kw@[j] as u32,
        decreases n - i,
    {
        let a = s.get_char(i) as u32;
        let a = if 65 <= a && a <= 90 {
            a + 32
        } else {
            a
        };
        if a != kw.get_char(i) as u32 {
            return false;
        }
        i = i + 1;
    }
    true
}

impl LogLevel {
    /// Read a level from its name, case-insensitively; `warn` is accepted
    /// for `Warning`, and anything unrecognized defaults to `Info`.
    pub fn from_str(s: &str) -> (l: LogLevel)
        ensures
            l == spec_log_level(s@),
    {
        if eq_ignore_ascii_case(s, "trace") {
            LogLevel::Trace
        } else if eq_ignore_ascii_case(s, "debug") {
            LogLevel::Debug
        } else if eq_ignore_ascii_case(s, "warning") || eq_ignore_ascii_case(s, "warn") {
            LogLevel::Warning
        } else if eq_ignore_ascii_case(s, "error") {
            LogLevel::Error
        } else {
            LogLevel::Info
        }
    }

    /// The level's lower-case name.
    pub fn as_str(&self) -> (r: &'static str)
        ensures
            r@ == spec_log_level_name(*self),
    {
        match self {
            LogLevel::Trace => "trace",
            LogLevel::Debug => "debug",
            LogLevel::Info => "info",
            LogLevel::Warning => "warning",
            LogLevel::Error => "error",
        }
    }
}

} // verus!
