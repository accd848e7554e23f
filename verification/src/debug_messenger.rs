//! The messenger through which the driver reports on how it is used, and how
//! its reports find their way into the log.

use vstd::prelude::*;
use vstd::string::*;
use crate::error::{ApiResult, EngineError};
use crate::logging::Level;
use crate::text::TAB_IN_SPACES;

verus! {

/// How grave the driver takes one of its reports to be.
#[derive(Clone, Copy, Debug, PartialEq, Eq, Structural)]
pub enum MessageSeverity {
    Verbose,
    Info,
    Warning,
    Error,
    /// No single one of the above, by the driver's number.
    Other(u32),
}

/// Which reports the messenger subscribes to.
#[derive(Clone, Copy, Debug, PartialEq, Eq, Structural)]
pub struct MessengerConfig {
    pub verbose: bool,
    pub info: bool,
    pub warning: bool,
    pub error: bool,
    pub general: bool,
    pub validation: bool,
    pub performance: bool,
}

/// The debug messenger of a context, by its handle.
#[derive(Clone, Copy, Debug, PartialEq, Eq, Structural)]
pub struct DebugMessengerManager {
    pub debug_utils: u64,
}

/// The level at which a report of `severity` is logged. Reports that are
/// neither information, warning nor error are not logged at all.
pub open spec fn level_of(severity: MessageSeverity) -> Option<Level> {
    match severity {
        MessageSeverity::Info => Some(Level::Info),
        MessageSeverity::Warning => Some(Level::Warn),
        MessageSeverity::Error => Some(Level::Error),
        _ => None,
    }
}

/// What the log entry of a report reads: on a line of its own, indented, the
/// categories in brackets and then the message.
pub open spec fn report_text(message_type: Seq<char>, message: Seq<char>) -> Seq<char> {
    "\n"@ + TAB_IN_SPACES@ + "["@ + message_type + "] "@ + message
}

/// Turns a report of the driver into a log entry: the level to log it at and
/// the text to log. Nothing is logged for a report that is neither
/// information, warning nor error.
pub fn debug_callback(severity: MessageSeverity, message_type: &str, message: &str) -> (entry:
    Option<(Level, String)>)
    ensures
        match level_of(severity) {
            Some(level) => entry matches Some((logged, text)) && logged == level && text@
                == report_text(message_type@, message@),
            None => entry is None,
        },
{
    let level = match severity {
        MessageSeverity::Info => Level::Info,
        MessageSeverity::Warning => Level::Warn,
        MessageSeverity::Error => Level::Error,
        _ => {
            return None;
        },
    };
    let mut text = String::from_str("\n");
    text.append(TAB_IN_SPACES);
    text.append("[");
    text.append(message_type);
    text.append("] ");
    text.append(message);
    Some((level, text))
}

impl DebugMessengerManager {
    /// What the messenger subscribes to: information, warnings and errors,
    /// of every category.
    pub fn config() -> (config: MessengerConfig)
        ensures
            config == (MessengerConfig {
                verbose: false,
                info: true,
                warning: true,
                error: true,
                general: true,
                validation: true,
                performance: true,
            }),
    {
        MessengerConfig {
            verbose: false,
            info: true,
            warning: true,
            error: true,
            general: true,
            validation: true,
            performance: true,
        }
    }

    /// Takes over the messenger that was registered with the driver, or
    /// passes on why it was not.
    pub fn new(created: Result<u64, ApiResult>) -> (outcome: Result<
        DebugMessengerManager,
        EngineError,
    >)
        ensures
            outcome == match created {
                Ok(debug_utils) => Ok::<_, EngineError>(DebugMessengerManager { debug_utils }),
                Err(result) => Err(EngineError::VulkanApiError(result)),
            },
    {
        match created {
            Ok(debug_utils) => Ok(DebugMessengerManager { debug_utils }),
            Err(result) => Err(EngineError::VulkanApiError(result)),
        }
    }
}

} // verus!
