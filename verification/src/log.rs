//! The settings of the host-side logger.

use vstd::prelude::*;
use vstd::string::*;

verus! {

/// The severity from which records are kept.
#[derive(Debug, Clone, Copy, PartialEq, Eq, Structural)]
pub enum LogLevel {
    Trace,
    Debug,
    Info,
    Warn,
    Error,
}

/// How the logger is set up.
#[derive(Debug, Clone, PartialEq, Eq)]
pub struct LoggerSetup {
    /// The tag under which the host files the records.
    pub tag: String,
    /// Whether the close of a span is recorded.
    pub span_close_events: bool,
    /// Whether a record names its thread.
    pub thread_names: bool,
    pub max_level: LogLevel,
}

/// The mathematical value of a [`LoggerSetup`].
pub struct LoggerSetupView {
    pub tag: Seq<char>,
    pub span_close_events: bool,
    pub thread_names: bool,
    pub max_level: LogLevel,
}

impl View for LoggerSetup {
    type V = LoggerSetupView;

    open spec fn view(&self) -> LoggerSetupView {
        LoggerSetupView {
            tag: self.tag@,
            span_close_events: self.span_close_events,
            thread_names: self.thread_names,
            max_level: self.max_level,
        }
    }
}

/// The bridge's logger: records from `Debug` up under the tag `clash-rs`,
/// with span closes and thread names.
pub open spec fn bridge_logger() -> LoggerSetupView {
    LoggerSetupView {
        tag: "clash-rs"@,
        span_close_events: true,
        thread_names: true,
        max_level: LogLevel::Debug,
    }
}

/// The settings with which the host-side logger is installed.
pub fn init_logger() -> (setup: LoggerSetup)
    ensures
        setup@ == bridge_logger(),
{
    LoggerSetup {
        tag: String::from_str("clash-rs"),
        span_close_events: true,
        thread_names: true,
        max_level: LogLevel::Debug,
    }
}

} // verus!
