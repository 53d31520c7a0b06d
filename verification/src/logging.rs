use vstd::prelude::*;

verus! {

/// The verbosity that `wardrobe.json` selects for `wardrobe.log`.
#[derive(Clone, Copy, Debug, PartialEq, Eq, Structural)]
pub enum LogLevel {
    Error,
    Warn,
    Info,
    Debug,
    Trace,
}

/// The configuration spelling of each level.
pub open spec fn level_name(level: LogLevel) -> Seq<char> {
    match level {
        LogLevel::Error => "error"@,
        LogLevel::Warn => "warn"@,
        LogLevel::Info => "info"@,
        LogLevel::Debug => "debug"@,
        LogLevel::Trace => "trace"@,
    }
}

impl LogLevel {
    pub fn name(self) -> (name: &'static str)
        ensures
            name@ == level_name(self),
    {
        match self {
            LogLevel::Error => "error",
            LogLevel::Warn => "warn",
            LogLevel::Info => "info",
            LogLevel::Debug => "debug",
            LogLevel::Trace => "trace",
        }
    }
}

/// Sets the `log` crate's process-wide maximum level through
/// `log::set_max_level`, passing the filter of the same name as `level`.
/// Nothing is claimed of the call: it only changes which later records
/// the logger receives.
#[verifier::external_body]
fn set_max_level(level: LogLevel) {
    log::set_max_level(match level {
        LogLevel::Error => log::LevelFilter::Error,
        LogLevel::Warn => log::LevelFilter::Warn,
        LogLevel::Info => log::LevelFilter::Info,
        LogLevel::Debug => log::LevelFilter::Debug,
        LogLevel::Trace => log::LevelFilter::Trace,
    })
}

/// Changes the process-wide filter to the configured level; the file
/// logger itself stays trace-capable.
pub fn set_level(level: LogLevel) {
    set_max_level(level)
}

impl Default for LogLevel {
    /// A configuration without `log_level` logs at `info`.
    fn default() -> (level: Self)
        ensures
            level == LogLevel::Info,
    {
        LogLevel::Info
    }
}

} // verus!
