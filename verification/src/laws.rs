//! The library's stated laws: properties that relate several operations of
//! the viewer, proved once and for all inputs.
use vstd::prelude::*;

use crate::levels::DebugLogLevel;
use crate::levels::LevelFilterChip;
use crate::levels::spec_chip_level;
use crate::lines::LogLineView;
use crate::lines::spec_count_level;
use crate::lines::spec_has_marker;
use crate::lines::spec_set_lines_visibility;
use crate::state::LogViewerState;
use crate::event::LogViewerSize;
use crate::viewer::spec_set_line_visibility;
use crate::viewer::spec_size_after;

verus! {

/// Exclusivity: every rendered line carries exactly one severity marker —
/// the marker of its own level, and no other.
pub proof fn lemma_marker_exclusive(line: LogLineView)
    ensures
        spec_has_marker(line, line.level),
        forall|l1: DebugLogLevel, l2: DebugLogLevel|
            spec_has_marker(line, l1) && spec_has_marker(line, l2) ==> l1 == l2,
{
}

/// Filter idempotence: toggling one level's filter chip twice returns the
/// level's filter flag, and the display state of every line, to their
/// original values, provided each line's display agreed with the filter
/// state to begin with (the viewer's invariant).
pub proof fn lemma_chip_toggle_twice(s: LogViewerState, line: LogLineView, chip: LevelFilterChip)
    requires
        line.visible == s.spec_level_visible(line.level),
    ensures
        ({
            let level = spec_chip_level(chip);
            let s1 = s.spec_with_level_visible(level, !s.spec_level_visible(level));
            let s2 = s1.spec_with_level_visible(level, !s1.spec_level_visible(level));
            let l1 = spec_set_line_visibility(line, level, !s.spec_level_visible(level));
            let l2 = spec_set_line_visibility(l1, level, !s1.spec_level_visible(level));
            s2 == s && l2 == line
        }),
{
}

/// Clear completeness: a list with no lines has a count of zero for every
/// level, whatever the filter state was before.
pub proof fn lemma_counts_empty(s: Seq<LogLineView>)
    requires
        s.len() == 0,
    ensures
        forall|level: DebugLogLevel| #[trigger] spec_count_level(s, level) == 0,
{
}

/// Size toggle: toggling the panel size twice returns a well-formed state
/// to its original value; in particular the default height toggles to
/// fullscreen and back to exactly the default height.
pub proof fn lemma_size_toggle_twice(s: LogViewerState)
    requires
        s.wf(),
    ensures
        spec_size_after(LogViewerSize::Toggle, spec_size_after(LogViewerSize::Toggle, s)) == s,
{
}

/// Count accuracy: the per-level counts are unaffected by display changes.
/// Toggling any chip rewrites only the display flags of lines, so every
/// level's count is the same before and after.
pub proof fn lemma_count_ignores_display(
    s: Seq<LogLineView>,
    chip_level: DebugLogLevel,
    flag: bool,
    level: DebugLogLevel,
)
    ensures
        spec_count_level(spec_set_lines_visibility(s, chip_level, flag), level)
            == spec_count_level(s, level),
    decreases s.len(),
{
    let mapped = spec_set_lines_visibility(s, chip_level, flag);
    if s.len() == 0 {
        assert(mapped.len() == 0);
    } else {
        lemma_count_ignores_display(s.drop_last(), chip_level, flag, level);
        assert(mapped.drop_last() =~= spec_set_lines_visibility(s.drop_last(), chip_level, flag));
        assert(mapped.last() == spec_set_line_visibility(s.last(), chip_level, flag));
        assert(mapped.last().level == s.last().level);
    }
}

} // verus!
