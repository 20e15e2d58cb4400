use vstd::prelude::*;
use vstd::string::StrSliceExecFns;

verus! {

/// Target prefix of this program's own log records.
pub const APP_TARGET: &'static str = "text_vc_error_bomber";

/// Verbosity of a log record, from the most to the least severe.
#[derive(Clone, Copy, Debug, PartialEq, Eq, Structural)]
pub enum LogLevel {
    Error,
    Warn,
    Info,
    Debug,
    Trace,
}

impl LogLevel {
    /// Rank of the level: the more verbose, the higher.
    pub open spec fn rank(self) -> nat {
        match self {
            LogLevel::Error => 1,
            LogLevel::Warn => 2,
            LogLevel::Info => 3,
            LogLevel::Debug => 4,
            LogLevel::Trace => 5,
        }
    }
}

/// The program's logger: writes records as lines tagged with their syslog severity.
pub struct AppLogger;

impl AppLogger {
    /// The RFC 5424 severity of a level.
    pub fn level_to_severity_rfc5424(level: LogLevel) -> (r: usize)
        ensures
            r == match level {
                LogLevel::Trace => 7usize,
                LogLevel::Debug => 7,
                LogLevel::Info => 6,
                LogLevel::Warn => 4,
                LogLevel::Error => 3,
            },
    {
        match level {
            LogLevel::Trace => 7,
            LogLevel::Debug => 7,
            LogLevel::Info => 6,
            LogLevel::Warn => 4,
            LogLevel::Error => 3,
        }
    }

    /// Whether a record of `level` from `target` is written: the program's own
    /// records down to informational ones, and warnings and errors of any target.
    pub fn enabled(&self, target: &str, level: LogLevel) -> (r: bool)
        ensures
            r == ((APP_TARGET@.is_prefix_of(target@) && level.rank() <= LogLevel::Info.rank())
                || level.rank() <= LogLevel::Warn.rank()),
    {
        let own = starts_with(target, APP_TARGET);
        let rank: u8 = match level {
            LogLevel::Error => 1,
            LogLevel::Warn => 2,
            LogLevel::Info => 3,
            LogLevel::Debug => 4,
            LogLevel::Trace => 5,
        };
        (own && rank <= 3) || rank <= 2
    }
}

fn starts_with(s: &str, prefix: &str) -> (r: bool)
    ensures
        r == prefix@.is_prefix_of(s@),
{
    let n = prefix.unicode_len();
    if s.unicode_len() < n {
        return false;
    }
    let mut i: usize = 0;
    while i < n
        invariant
            n == prefix@.len(),
            n <= s@.len(),
            i <= n,
            forall|j: int| 0 <= j < i ==> prefix@[j] == s@[j],
        decreases n - i,
    {
        if prefix.get_char(i) != s.get_char(i) {
            return false;
        }
        i = i + 1;
    }
    assert(prefix@ =~= s@.subrange(0, n as int));
    true
}

} // verus!
