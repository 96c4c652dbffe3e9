//! Routing of the diagnostic messages that the validation layer reports.
//!
//! The decision is made here from plain values. Writing to a log, or ending
//! the process, is left to the caller that registered the callback.

use crate::vk::{
    error_severity, error_threshold, info_severity, info_threshold, vk_false, warning_severity,
    warning_threshold,
};
use vstd::prelude::*;

verus! {

/// How grave a diagnostic message is, least first.
#[derive(Clone, Copy, Debug, PartialEq, Eq, Structural)]
pub enum Severity {
    Verbose,
    Info,
    Warning,
    Error,
}

/// Where a diagnostic message goes.
#[derive(Clone, Copy, Debug, PartialEq, Eq, Structural)]
pub enum Sink {
    /// Printed as it is.
    Trace,
    /// Written as a debug-level trace entry.
    Debug,
    /// Written as a warning-level log entry.
    Warning,
    /// Fatal: the process ends at once, with the message as the reason.
    Abort,
}

/// One invocation of the diagnostics callback.
#[derive(Debug, PartialEq, Eq)]
pub struct DiagnosticEvent {
    /// The severity mask, as Vulkan hands it over.
    pub severity: u32,
    /// The mask of message types.
    pub message_type: u32,
    pub message: String,
}

/// What is to be done about one diagnostic event.
#[derive(Debug, PartialEq, Eq)]
pub struct Dispatch {
    pub sink: Sink,
    /// The event, as it came in.
    pub event: DiagnosticEvent,
    /// What the callback returns to Vulkan; nothing where the process ends
    /// instead.
    pub signal: Option<u32>,
}

impl Severity {
    /// The place of a severity in the order verbose, info, warning, error.
    pub open spec fn rank(self) -> nat {
        match self {
            Severity::Verbose => 0,
            Severity::Info => 1,
            Severity::Warning => 2,
            Severity::Error => 3,
        }
    }

    /// The severity that a mask stands for: the gravest threshold that the
    /// mask, read as a number, reaches.
    pub open spec fn of(mask: u32) -> Severity {
        if mask >= error_threshold() {
            Severity::Error
        } else if mask >= warning_threshold() {
            Severity::Warning
        } else if mask >= info_threshold() {
            Severity::Info
        } else {
            Severity::Verbose
        }
    }

    /// Where messages of this severity go.
    pub open spec fn sink(self) -> Sink {
        match self {
            Severity::Error => Sink::Abort,
            Severity::Warning => Sink::Warning,
            Severity::Info => Sink::Debug,
            Severity::Verbose => Sink::Trace,
        }
    }

    /// Reads the severity off a mask.
    pub fn from_mask(mask: u32) -> (severity: Severity)
        ensures
            severity == Severity::of(mask),
    {
        if mask >= error_severity() {
            Severity::Error
        } else if mask >= warning_severity() {
            Severity::Warning
        } else if mask >= info_severity() {
            Severity::Info
        } else {
            Severity::Verbose
        }
    }

    /// The sink for messages of this severity.
    pub fn route(&self) -> (sink: Sink)
        ensures
            sink == self.sink(),
    {
        match self {
            Severity::Error => Sink::Abort,
            Severity::Warning => Sink::Warning,
            Severity::Info => Sink::Debug,
            Severity::Verbose => Sink::Trace,
        }
    }
}

/// The value that tells Vulkan not to suppress the call that caused a message.
pub open spec fn do_not_suppress() -> u32 {
    0
}

/// Decides what happens to a diagnostic event. An error ends the process;
/// every other event is logged at the level of its severity, and the callback
/// answers that the call which caused it is not to be suppressed. The event
/// itself is handed on untouched.
pub fn debug_callback(event: DiagnosticEvent) -> (dispatch: Dispatch)
    ensures
        dispatch.sink == Severity::of(event.severity).sink(),
        dispatch.event == event,
        dispatch.signal == if dispatch.sink == Sink::Abort {
            None
        } else {
            Some(do_not_suppress())
        },
{
    let sink = Severity::from_mask(event.severity).route();
    let signal = match sink {
        Sink::Abort => None,
        _ => Some(vk_false()),
    };
    Dispatch { sink, event, signal }
}

} // verus!
