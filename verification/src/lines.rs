//! Rendered log lines: the persistent representation of a captured event in
//! the viewer's list, tagged with exactly one severity marker, and the
//! per-level counting that feeds the filter chip badges.
use vstd::prelude::*;
use vstd::string::StringExecFns;

use crate::levels::DebugLogLevel;
use crate::levels::spec_upper_case;
use crate::event::LogEvent;
use crate::event::LogEventView;
use crate::timestamp::Timestamp;

verus! {

/// Abstract value of a rendered log line.
pub ghost struct LogLineView {
    /// The one severity marker of the line.
    pub level: DebugLogLevel,
    /// Whether the line is currently displayed.
    pub visible: bool,
    /// Text of the timestamp segment.
    pub timestamp_text: Seq<char>,
    /// Text of the level badge segment, the level name between spaces.
    pub level_text: Seq<char>,
    /// Text of the target segment, the target followed by a colon.
    pub target_text: Seq<char>,
    /// Text of the message segment.
    pub message: Seq<char>,
}

/// A rendered log line. Created by the intake for each drained event,
/// appended to the ordered list, and destroyed only by an explicit clear.
#[derive(Clone, Debug)]
pub struct LogLine {
    /// The one severity marker of the line.
    pub level: DebugLogLevel,
    /// Whether the line is currently displayed; kept equal to the filter
    /// flag of the line's level.
    pub visible: bool,
    /// Text of the timestamp segment.
    pub timestamp_text: String,
    /// Text of the level badge segment.
    pub level_text: String,
    /// Text of the target segment.
    pub target_text: String,
    /// Text of the message segment.
    pub message: String,
}

impl View for LogLine {
    type V = LogLineView;

    open spec fn view(&self) -> LogLineView {
        LogLineView {
            level: self.level,
            visible: self.visible,
            timestamp_text: self.timestamp_text@,
            level_text: self.level_text@,
            target_text: self.target_text@,
            message: self.message@,
        }
    }
}

impl DeepView for LogLine {
    type V = LogLineView;

    open spec fn deep_view(&self) -> LogLineView {
        self.view()
    }
}

/// Text of the timestamp segment: the ISO-8601 rendering of the capture
/// time, or a fixed note when no representable capture time is carried.
pub open spec fn spec_timestamp_text(timestamp: Option<Timestamp>) -> Seq<char> {
    match timestamp {
        Some(t) => if t.wf() {
            t.spec_iso8601()
        } else {
            "timestamp error"@
        },
        None => "timestamp error"@,
    }
}

/// The line an event is rendered to, given the display flag the line
/// starts with: the severity marker of the event's level, and the four
/// formatted text segments.
pub open spec fn spec_rendered(e: LogEventView, visible: bool) -> LogLineView {
    LogLineView {
        level: e.level,
        visible,
        timestamp_text: spec_timestamp_text(e.timestamp),
        level_text: seq![' '] + spec_upper_case(e.level) + seq![' '],
        target_text: e.target + ": "@,
        message: e.message,
    }
}

impl LogLine {
    /// Render a captured event into a line, with the given initial display
    /// flag.
    pub fn render(event: &LogEvent, visible: bool) -> (r: LogLine)
        ensures
            r@ == spec_rendered(event@, visible),
    {
        let timestamp_text = match &event.timestamp {
            Some(t) => if t.is_wf() {
                t.iso8601_text()
            } else {
                "timestamp error".to_owned()
            },
            None => "timestamp error".to_owned(),
        };
        let mut level_text = " ".to_owned();
        level_text.append(event.level.upper_case().as_str());
        level_text.append(" ");
        let mut target_text = event.target.clone();
        target_text.append(": ");
        proof {
            reveal_strlit(" ");
            assert(level_text@ =~= seq![' '] + spec_upper_case(event.level) + seq![' ']);
        }
        LogLine {
            level: event.level,
            visible,
            timestamp_text,
            level_text,
            target_text,
            message: event.message.clone(),
        }
    }
}

/// Whether a line carries the marker of the given severity level. A line
/// carries the marker of its own level and of no other.
pub open spec fn spec_has_marker(l: LogLineView, level: DebugLogLevel) -> bool {
    l.level == level
}

/// A batch visibility update: every line tagged with exactly `level` gets
/// `flag` as its display state, every other line is untouched.
pub open spec fn spec_set_lines_visibility(
    s: Seq<LogLineView>,
    level: DebugLogLevel,
    flag: bool,
) -> Seq<LogLineView> {
    s.map(|i: int, l: LogLineView| crate::viewer::spec_set_line_visibility(l, level, flag))
}

/// How many lines of a sequence carry exactly the given severity marker,
/// whatever their display state.
pub open spec fn spec_count_level(s: Seq<LogLineView>, level: DebugLogLevel) -> nat
    decreases s.len(),
{
    if s.len() == 0 {
        0
    } else {
        spec_count_level(s.drop_last(), level) + if s.last().level == level {
            1nat
        } else {
            0nat
        }
    }
}

/// Count the lines tagged with exactly the given level. The count is
/// independent of the lines' display state.
pub fn count_level(lines: &Vec<LogLine>, level: DebugLogLevel) -> (r: usize)
    ensures
        r as nat == spec_count_level(lines.deep_view(), level),
{
    let mut count: usize = 0;
    let mut i: usize = 0;
    while i < lines.len()
        invariant
            i <= lines.len(),
            count <= i,
            count as nat == spec_count_level(lines.deep_view().take(i as int), level),
        decreases lines.len() - i,
    {
        let ghost prefix = lines.deep_view().take(i as int);
        if lines[i].level == level {
            count = count + 1;
        }
        i = i + 1;
        proof {
            let taken = lines.deep_view().take(i as int);
            assert(taken.drop_last() =~= prefix);
            assert(taken.last() == lines.deep_view()[i - 1]);
        }
    }
    proof {
        assert(lines.deep_view().take(lines.len() as int) =~= lines.deep_view());
    }
    count
}

} // verus!
