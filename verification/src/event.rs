//! Captured log events, and the discrete interaction events that drive the
//! viewer state machine.
use vstd::prelude::*;

use crate::levels::DebugLogLevel;
use crate::levels::LevelFilterChip;
use crate::timestamp::Timestamp;

verus! {

/// Abstract value of a captured log event.
pub ghost struct LogEventView {
    /// The event's message text.
    pub message: Seq<char>,
    /// The event's severity level.
    pub level: DebugLogLevel,
    /// The originating module or component name.
    pub target: Seq<char>,
    /// The capture-time timestamp, or `None` when the clock reported an
    /// unrepresentable date.
    pub timestamp: Option<Timestamp>,
}

/// A single structured log emission, captured at the source. Immutable
/// after creation; destroyed after being rendered into a log line.
#[derive(Clone, Debug)]
pub struct LogEvent {
    /// The event's message text.
    pub message: String,
    /// The event's severity level.
    pub level: DebugLogLevel,
    /// The originating module or component name.
    pub target: String,
    /// The capture-time timestamp, or `None` when the clock reported an
    /// unrepresentable date.
    pub timestamp: Option<Timestamp>,
}

impl View for LogEvent {
    type V = LogEventView;

    open spec fn view(&self) -> LogEventView {
        LogEventView {
            message: self.message@,
            level: self.level,
            target: self.target@,
            timestamp: self.timestamp,
        }
    }
}

impl DeepView for LogEvent {
    type V = LogEventView;

    open spec fn deep_view(&self) -> LogEventView {
        self.view()
    }
}

impl LogEvent {
    /// A captured timestamp, if present, is well formed.
    pub open spec fn wf(self) -> bool {
        self@.timestamp matches Some(t) ==> t.wf()
    }

    /// Capture a log emission: record its message, level and target
    /// together with the current time.
    pub fn capture(message: String, level: DebugLogLevel, target: String) -> (r: LogEvent)
        ensures
            r@.message == message@,
            r@.level == level,
            r@.target == target@,
            r.wf(),
    {
        let timestamp = Timestamp::now();
        LogEvent { message, level, target, timestamp }
    }
}

/// Command that shows, hides or toggles the overlay.
#[derive(Clone, Copy, Debug, PartialEq, Eq, Structural)]
pub enum LogViewerVisibility {
    Show,
    Hide,
    Toggle,
}

/// Command that sets the overlay to fullscreen height, to the default
/// height, or toggles between exactly those two.
#[derive(Clone, Copy, Debug, PartialEq, Eq, Structural)]
pub enum LogViewerSize {
    Big,
    Small,
    Toggle,
}

/// Command that removes every rendered log line.
#[derive(Clone, Copy, Debug, PartialEq, Eq, Structural)]
pub struct ClearLogs;

/// Command that negates the auto-open flag; only issued while the auto-open
/// threshold is concrete.
#[derive(Clone, Copy, Debug, PartialEq, Eq, Structural)]
pub struct AutoOpenToggle;

/// Command that toggles the filter chip bound to one severity level.
#[derive(Clone, Copy, Debug, PartialEq, Eq, Structural)]
pub struct ChipToggle(pub LevelFilterChip);

/// A discrete state-machine event, processed by the viewer's central
/// reducer.
#[derive(Clone, Copy, Debug, PartialEq, Eq, Structural)]
pub enum ViewerCommand {
    Visibility(LogViewerVisibility),
    Size(LogViewerSize),
    Clear(ClearLogs),
    AutoOpen(AutoOpenToggle),
    Chip(ChipToggle),
}

} // verus!
