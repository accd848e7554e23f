//! Operating profiles and the severity of log messages.

use vstd::prelude::*;
use vstd::string::*;
use crate::text::TAB_IN_SPACES;

verus! {

/// The operating profile of a run. Exactly one is active; it decides how much
/// is logged and whether the driver's validation is switched on.
#[derive(Clone, Copy, Debug, PartialEq, Eq, Structural)]
pub enum LogLevel {
    Dev,
    Editor,
    Shipping,
}

/// The severity of a log message, from the most to the least severe.
#[derive(Clone, Copy, Debug, PartialEq, Eq, Structural)]
pub enum Level {
    Error,
    Warn,
    Info,
    Debug,
    Trace,
}

impl Default for LogLevel {
    fn default() -> (level: LogLevel)
        ensures
            level == LogLevel::Dev,
    {
        LogLevel::Dev
    }
}

impl LogLevel {
    /// The profile that a set of switches selects: the one that is on, where
    /// exactly one is.
    pub open spec fn selected(dev: bool, editor: bool, shipping: bool) -> Option<LogLevel> {
        if dev && !editor && !shipping {
            Some(LogLevel::Dev)
        } else if !dev && editor && !shipping {
            Some(LogLevel::Editor)
        } else if !dev && !editor && shipping {
            Some(LogLevel::Shipping)
        } else {
            None
        }
    }

    /// Picks the profile from the three switches. No switch, or more than one,
    /// is a configuration error and gives nothing.
    pub fn select(dev: bool, editor: bool, shipping: bool) -> (profile: Option<LogLevel>)
        ensures
            profile == Self::selected(dev, editor, shipping),
    {
        if dev && !editor && !shipping {
            Some(LogLevel::Dev)
        } else if !dev && editor && !shipping {
            Some(LogLevel::Editor)
        } else if !dev && !editor && shipping {
            Some(LogLevel::Shipping)
        } else {
            None
        }
    }

    /// Whether the driver's validation layer is required under this profile.
    pub open spec fn validates(self) -> bool {
        self == LogLevel::Dev
    }

    /// Whether the driver's validation layer is required, and its messages are
    /// collected, under this profile.
    pub fn uses_validation(self) -> (on: bool)
        ensures
            on == self.validates(),
    {
        match self {
            LogLevel::Dev => true,
            _ => false,
        }
    }

    /// The least severe level that is still emitted under this profile.
    pub open spec fn threshold(self) -> Level {
        match self {
            LogLevel::Dev => Level::Debug,
            LogLevel::Editor => Level::Info,
            LogLevel::Shipping => Level::Error,
        }
    }
}

impl Level {
    /// The position of the level, counted from the most severe.
    pub open spec fn verbosity(self) -> nat {
        match self {
            Level::Error => 0,
            Level::Warn => 1,
            Level::Info => 2,
            Level::Debug => 3,
            Level::Trace => 4,
        }
    }

    fn rank(self) -> (r: u8)
        ensures
            r == self.verbosity(),
    {
        match self {
            Level::Error => 0,
            Level::Warn => 1,
            Level::Info => 2,
            Level::Debug => 3,
            Level::Trace => 4,
        }
    }

    /// Whether a message of this level is emitted where `threshold` is the
    /// least severe level let through.
    pub fn is_emitted_at(self, threshold: Level) -> (emitted: bool)
        ensures
            emitted == (self.verbosity() <= threshold.verbosity()),
    {
        self.rank() <= threshold.rank()
    }
}

impl From<LogLevel> for Level {
    fn from(value: LogLevel) -> (level: Level) {
        match value {
            LogLevel::Dev => Level::Debug,
            LogLevel::Editor => Level::Info,
            LogLevel::Shipping => Level::Error,
        }
    }
}

impl vstd::std_specs::convert::FromSpecImpl<LogLevel> for Level {
    open spec fn obeys_from_spec() -> bool {
        true
    }

    open spec fn from_spec(value: LogLevel) -> Level {
        value.threshold()
    }
}

/// What one log record reads: the layer and the profile it comes from in
/// brackets, then the message, each on an indented line of its own.
pub open spec fn log_record(layer: Seq<char>, profile: Seq<char>, message: Seq<char>) -> Seq<
    char,
> {
    "\n"@ + TAB_IN_SPACES@ + "["@ + layer + "]["@ + profile + "]\n"@ + TAB_IN_SPACES@ + message
}

/// Lays out one log record.
pub fn log_msg(layer: &str, profile: &str, message: &str) -> (record: String)
    ensures
        record@ == log_record(layer@, profile@, message@),
{
    let mut out = String::from_str("\n");
    out.append(TAB_IN_SPACES);
    out.append("[");
    out.append(layer);
    out.append("][");
    out.append(profile);
    out.append("]\n");
    out.append(TAB_IN_SPACES);
    out.append(message);
    out
}

/// The path of the log file `file_name` in `directory`.
pub fn log_file_path(directory: &str, file_name: &str) -> (path: String)
    ensures
        path@ == directory@ + "/"@ + file_name@,
{
    let mut out = String::from_str(directory);
    out.append("/");
    out.append(file_name);
    out
}

} // verus!
