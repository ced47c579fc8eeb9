//! Command-line configuration and one-time process setup.
//!
//! The core parsers are free of process-wide state; everything of that kind
//! lives here, to be run exactly once before any parsing begins.

use vstd::prelude::*;

verus! {

/// Log verbosity, mirroring the standard level filters.
#[derive(Debug, Clone, Copy, PartialEq, Eq, Structural)]
pub enum LogLevel {
    /// Log nothing.
    Off,
    /// Log errors only.
    Error,
    /// Log warnings and errors.
    Warn,
    /// Log informational messages and above.
    Info,
    /// Log debug messages and above.
    Debug,
    /// Log everything.
    Trace,
}

impl Default for LogLevel {
    /// The default level shows errors only.
    fn default() -> (r: Self)
        ensures
            r == LogLevel::Error,
    {
        LogLevel::Error
    }
}

/// The command-line configuration of the interpreter.
pub struct Cli {
    /// The program to run.
    pub input: String,
    /// Sets the log level.
    pub log_level: LogLevel,
}

impl Cli {
    /// Performs any initial setup that is independent of the compilation
    /// process.
    pub fn preinit_all(&self) {
        self.preinit_logger();
    }

    /// Sets up the process-wide logger using the log level.
    fn preinit_logger(&self) {
        init_logger(self.log_level);
    }
}

/// Relies on `env_logger::Builder`: `parse_default_env` takes filters from
/// the standard logging environment variables, `filter_level` then sets the
/// global filter to the given level, and `try_init` installs the built
/// logger process-wide, failing if one is already installed (the failure is
/// discarded here, so no second initialization can panic). Side effect
/// only; nothing is promised of a result.
#[verifier::external_body]
fn init_logger(level: LogLevel) {
    let filter = match level {
        LogLevel::Off => log::LevelFilter::Off,
        LogLevel::Error => log::LevelFilter::Error,
        LogLevel::Warn => log::LevelFilter::Warn,
        LogLevel::Info => log::LevelFilter::Info,
        LogLevel::Debug => log::LevelFilter::Debug,
        LogLevel::Trace => log::LevelFilter::Trace,
    };
    let _ = env_logger::builder().parse_default_env().filter_level(filter).try_init();
}

} // verus!
