use vstd::prelude::*;

verus! {

/// Severity bit of a verbose driver message.
pub const SEVERITY_VERBOSE: u32 = 0x1;

/// Severity bit of an informational driver message.
pub const SEVERITY_INFO: u32 = 0x10;

/// Severity bit of a warning driver message.
pub const SEVERITY_WARNING: u32 = 0x100;

/// Severity bit of an error driver message.
pub const SEVERITY_ERROR: u32 = 0x1000;

/// Log level a driver message is emitted at.
#[derive(Clone, Copy, Debug, PartialEq, Eq, Structural)]
pub enum LogLevel {
    Error,
    Warn,
    Info,
    Trace,
}

/// Maps the severity of a driver message to a log level: at least error is
/// logged as an error, at least warning as a warning, at least info as
/// info, anything lower as trace.
pub fn log_level_for(severity: u32) -> (r: LogLevel)
    ensures
        severity >= SEVERITY_ERROR ==> r == LogLevel::Error,
        SEVERITY_WARNING <= severity < SEVERITY_ERROR ==> r == LogLevel::Warn,
        SEVERITY_INFO <= severity < SEVERITY_WARNING ==> r == LogLevel::Info,
        severity < SEVERITY_INFO ==> r == LogLevel::Trace,
{
    if severity >= SEVERITY_ERROR {
        LogLevel::Error
    } else if severity >= SEVERITY_WARNING {
        LogLevel::Warn
    } else if severity >= SEVERITY_INFO {
        LogLevel::Info
    } else {
        LogLevel::Trace
    }
}

} // verus!
