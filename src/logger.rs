use vstd::prelude::*;

verus! {

/// Severity of a console message.
#[derive(Clone, Copy, Debug, PartialEq, Eq, Structural)]
pub enum LogLevel {
    Info,
    Error,
    Debug,
}

/// Whether a message of `level` is shown under the verbosity setting `verbose`.
pub open spec fn shown(level: LogLevel, verbose: Option<bool>) -> bool {
    level != LogLevel::Debug || verbose == Some(true)
}

/// Decides whether a message reaches the console: information and errors
/// always do, debug messages only when verbosity is switched on.
pub fn is_shown(level: LogLevel, verbose: Option<bool>) -> (r: bool)
    ensures
        r == shown(level, verbose),
{
    match verbose {
        Some(true) => true,
        _ => match level {
            LogLevel::Info | LogLevel::Error => true,
            LogLevel::Debug => false,
        },
    }
}

} // verus!
