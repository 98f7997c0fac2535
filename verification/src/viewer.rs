//! The viewer aggregate: the state machine, the ordered list of rendered
//! lines, and the scroll model, with one handler per discrete interaction
//! event and the per-tick intake of captured events.
use vstd::prelude::*;

use crate::levels::DebugLogLevel;
use crate::levels::LevelFilter;
use crate::levels::spec_chip_level;
use crate::levels::spec_filter_level;
use crate::levels::spec_passes_filter;
use crate::event::ChipToggle;
use crate::event::LogEvent;
use crate::event::LogEventView;
use crate::event::LogViewerSize;
use crate::event::LogViewerVisibility;
use crate::event::ViewerCommand;
use crate::lines::LogLine;
use crate::lines::LogLineView;
use crate::lines::count_level;
use crate::lines::spec_count_level;
use crate::lines::spec_rendered;
use crate::scroll::MouseScrollUnit;
use crate::scroll::ScrollRegion;
use crate::scroll::saturating_sub_i64;
use crate::scroll::spec_clamp_i64;
use crate::scroll::wheel_deltas;
use crate::state::FULL_HEIGHT_PERCENT;
use crate::state::LogViewerState;
use crate::state::SMALL_HEIGHT_PERCENT;
use crate::state::ScrollState;

verus! {

/// What one tick's batch of drained events asks of the surrounding frame:
/// reveal the hidden overlay, and snap the list to its bottom. Both are
/// coalesced over the batch.
#[derive(Clone, Copy, Debug, PartialEq, Eq, Structural)]
pub struct IntakeActions {
    /// An event at or above the auto-open threshold arrived while the
    /// overlay was hidden and auto-open was on.
    pub show_overlay: bool,
    /// The list should track its bottom: auto-scroll was in effect and at
    /// least one line arrived.
    pub scroll_to_bottom: bool,
}

/// Number of lines tagged with each level, shown on the filter chips.
#[derive(Clone, Copy, Debug, PartialEq, Eq, Structural)]
pub struct LogCounts {
    pub error: usize,
    pub warn: usize,
    pub info: usize,
    pub debug: usize,
    pub trace: usize,
}

impl LogCounts {
    /// The count belonging to one level.
    pub open spec fn spec_of_level(self, level: DebugLogLevel) -> usize {
        match level {
            DebugLogLevel::Error => self.error,
            DebugLogLevel::Warn => self.warn,
            DebugLogLevel::Info => self.info,
            DebugLogLevel::Debug => self.debug,
            DebugLogLevel::Trace => self.trace,
        }
    }

    /// The badge text of one level's filter chip: its count in decimal.
    pub fn badge_text(&self, level: DebugLogLevel) -> (r: String)
        ensures
            r@ == crate::textfmt::spec_decimal(self.spec_of_level(level) as nat),
    {
        let count = match level {
            DebugLogLevel::Error => self.error,
            DebugLogLevel::Warn => self.warn,
            DebugLogLevel::Info => self.info,
            DebugLogLevel::Debug => self.debug,
            DebugLogLevel::Trace => self.trace,
        };
        crate::textfmt::decimal_string(count)
    }
}

/// The overlay's whole mutable model: viewer state, the ordered list of
/// rendered lines, and the scroll state of the list view.
#[derive(Debug)]
pub struct LogViewer {
    /// Visibility, size, auto-open, filter flags and scroll mode.
    pub state: LogViewerState,
    /// The ordered list of rendered lines, oldest first.
    pub lines: Vec<LogLine>,
    /// Scroll offsets and anchoring of the list view.
    pub scroll: ScrollRegion,
}

/// The visibility flag after a visibility command.
pub open spec fn spec_visible_after(cmd: LogViewerVisibility, visible: bool) -> bool {
    match cmd {
        LogViewerVisibility::Show => true,
        LogViewerVisibility::Hide => false,
        LogViewerVisibility::Toggle => !visible,
    }
}

/// The state after a size command: `Big` and `Small` set the two recognized
/// heights; `Toggle` flips between exactly those two, treating any height
/// other than fullscreen as small.
pub open spec fn spec_size_after(cmd: LogViewerSize, s: LogViewerState) -> LogViewerState {
    match cmd {
        LogViewerSize::Big => LogViewerState {
            fullscreen: true,
            height_percent: FULL_HEIGHT_PERCENT,
            ..s
        },
        LogViewerSize::Small => LogViewerState {
            fullscreen: false,
            height_percent: SMALL_HEIGHT_PERCENT,
            ..s
        },
        LogViewerSize::Toggle => if s.height_percent == FULL_HEIGHT_PERCENT {
            LogViewerState { fullscreen: false, height_percent: SMALL_HEIGHT_PERCENT, ..s }
        } else {
            LogViewerState { fullscreen: true, height_percent: FULL_HEIGHT_PERCENT, ..s }
        },
    }
}

/// Whether an event of the given severity reveals the hidden overlay: the
/// feature is on, the overlay is hidden, and the severity passes the
/// threshold.
pub open spec fn spec_auto_open(s: LogViewerState, level: DebugLogLevel) -> bool {
    s.auto_open_enabled && !s.visible && spec_passes_filter(level, s.auto_open_threshold)
}

/// The line an event is rendered to under a given filter state: its initial
/// display flag is the filter flag of the event's level.
pub open spec fn spec_line_of(s: LogViewerState, e: LogEventView) -> LogLineView {
    spec_rendered(e, s.spec_level_visible(e.level))
}

/// Whether any event of a batch triggers auto-open under the given state.
pub open spec fn spec_show_any(s: LogViewerState, events: Seq<LogEventView>) -> bool {
    exists|i: int| 0 <= i < events.len() && spec_auto_open(s, events[i].level)
}

/// A line with its display flag replaced when it is tagged with exactly the
/// given level, and untouched otherwise.
pub open spec fn spec_set_line_visibility(
    l: LogLineView,
    level: DebugLogLevel,
    flag: bool,
) -> LogLineView {
    if l.level == level {
        LogLineView { visible: flag, ..l }
    } else {
        l
    }
}

impl LogViewer {
    /// Well-formedness: the state is well formed, and every line's display
    /// flag agrees with the filter flag of the line's level.
    pub open spec fn wf(self) -> bool {
        &&& self.state.wf()
        &&& forall|i: int|
            0 <= i < self.lines@.len() ==> (#[trigger] self.lines@[i])@.visible
                == self.state.spec_level_visible(self.lines@[i]@.level)
    }

    /// A fresh overlay with the given auto-open threshold: hidden, small,
    /// no lines, every level shown, auto-scroll; auto-open starts on
    /// exactly when a concrete threshold is configured.
    pub fn new(auto_open_threshold: LevelFilter) -> (r: LogViewer)
        ensures
            r.state == (LogViewerState {
                auto_open_threshold,
                auto_open_enabled: spec_filter_level(auto_open_threshold) is Some,
                ..LogViewerState::spec_default()
            }),
            r.lines@.len() == 0,
            r.scroll == ScrollRegion::spec_default(),
            r.wf(),
    {
        let enabled = match auto_open_threshold {
            LevelFilter::Off => false,
            _ => true,
        };
        LogViewer {
            state: LogViewerState {
                auto_open_threshold,
                auto_open_enabled: enabled,
                ..Default::default()
            },
            lines: Vec::new(),
            scroll: Default::default(),
        }
    }

    /// Show, hide or toggle the overlay. Only the visibility flag changes;
    /// the root display of the overlay follows it.
    pub fn handle_visibility(&mut self, cmd: LogViewerVisibility)
        requires
            old(self).wf(),
        ensures
            final(self).wf(),
            final(self).state == (LogViewerState {
                visible: spec_visible_after(cmd, old(self).state.visible),
                ..old(self).state
            }),
            final(self).lines == old(self).lines,
            final(self).scroll == old(self).scroll,
    {
        let visible = match cmd {
            LogViewerVisibility::Show => true,
            LogViewerVisibility::Hide => false,
            LogViewerVisibility::Toggle => !self.state.visible,
        };
        self.state.visible = visible;
    }

    /// Set the overlay to fullscreen height, to the default height, or
    /// toggle between exactly those two.
    pub fn handle_size(&mut self, cmd: LogViewerSize)
        requires
            old(self).wf(),
        ensures
            final(self).wf(),
            final(self).state == spec_size_after(cmd, old(self).state),
            final(self).lines == old(self).lines,
            final(self).scroll == old(self).scroll,
    {
        match cmd {
            LogViewerSize::Big => {
                self.state.fullscreen = true;
                self.state.height_percent = FULL_HEIGHT_PERCENT;
            },
            LogViewerSize::Small => {
                self.state.fullscreen = false;
                self.state.height_percent = SMALL_HEIGHT_PERCENT;
            },
            LogViewerSize::Toggle => {
                if self.state.height_percent == FULL_HEIGHT_PERCENT {
                    self.state.fullscreen = false;
                    self.state.height_percent = SMALL_HEIGHT_PERCENT;
                } else {
                    self.state.fullscreen = true;
                    self.state.height_percent = FULL_HEIGHT_PERCENT;
                }
            },
        }
    }

    /// Remove every rendered line. Filter, visibility and scroll state are
    /// untouched.
    pub fn handle_clear(&mut self)
        requires
            old(self).wf(),
        ensures
            final(self).wf(),
            final(self).lines@.len() == 0,
            final(self).state == old(self).state,
            final(self).scroll == old(self).scroll,
    {
        self.lines.clear();
    }

    /// Negate the auto-open flag. Only issued while a concrete threshold is
    /// configured; the checkbox that issues it only exists then.
    pub fn handle_auto_open_toggle(&mut self)
        requires
            old(self).wf(),
            spec_filter_level(old(self).state.auto_open_threshold) is Some,
        ensures
            final(self).wf(),
            final(self).state == (LogViewerState {
                auto_open_enabled: !old(self).state.auto_open_enabled,
                ..old(self).state
            }),
            final(self).lines == old(self).lines,
            final(self).scroll == old(self).scroll,
    {
        self.state.auto_open_enabled = !self.state.auto_open_enabled;
    }

    /// Toggle the filter chip of one level: negate the level's filter flag
    /// and give every line tagged with exactly that level the new flag as
    /// its display state. Lines of other levels are untouched.
    pub fn handle_chip_toggle(&mut self, cmd: ChipToggle)
        requires
            old(self).wf(),
        ensures
            final(self).wf(),
            final(self).state == old(self).state.spec_with_level_visible(
                spec_chip_level(cmd.0),
                !old(self).state.spec_level_visible(spec_chip_level(cmd.0)),
            ),
            final(self).scroll == old(self).scroll,
            final(self).lines@.len() == old(self).lines@.len(),
            forall|i: int|
                0 <= i < old(self).lines@.len() ==> (#[trigger] final(self).lines@[i])@
                    == spec_set_line_visibility(
                    old(self).lines@[i]@,
                    spec_chip_level(cmd.0),
                    !old(self).state.spec_level_visible(spec_chip_level(cmd.0)),
                ),
    {
        let level = cmd.0.level();
        let flag = !self.state.level_visible(level);
        self.state.set_level_visible(level, flag);
        let ghost state1 = self.state;
        let ghost scroll0 = self.scroll;
        let ghost lines0 = self.lines@;
        let mut i: usize = 0;
        while i < self.lines.len()
            invariant
                i <= lines0.len(),
                self.state == state1,
                self.scroll == scroll0,
                self.lines@.len() == lines0.len(),
                forall|j: int|
                    0 <= j < i ==> (#[trigger] self.lines@[j])@ == spec_set_line_visibility(
                        lines0[j]@,
                        level,
                        flag,
                    ),
                forall|j: int| i <= j < lines0.len() ==> #[trigger] self.lines@[j] == lines0[j],
            decreases lines0.len() - i,
        {
            if self.lines[i].level == level {
                self.lines[i].visible = flag;
            }
            i = i + 1;
        }
        proof {
            assert forall|k: int| 0 <= k < self.lines@.len() implies (#[trigger] self.lines@[k])@
                .visible == self.state.spec_level_visible(self.lines@[k]@.level) by {
                assert(old(self).lines@[k]@.visible == old(self).state.spec_level_visible(
                    old(self).lines@[k]@.level,
                ));
            }
        }
    }

    /// The central reducer: process one discrete state-machine event.
    pub fn apply(&mut self, cmd: ViewerCommand)
        requires
            old(self).wf(),
            cmd is AutoOpen ==> spec_filter_level(old(self).state.auto_open_threshold) is Some,
        ensures
            final(self).wf(),
            final(self).scroll == old(self).scroll,
            cmd matches ViewerCommand::Visibility(v) ==> final(self).state == (LogViewerState {
                visible: spec_visible_after(v, old(self).state.visible),
                ..old(self).state
            }) && final(self).lines == old(self).lines,
            cmd matches ViewerCommand::Size(s) ==> final(self).state == spec_size_after(
                s,
                old(self).state,
            ) && final(self).lines == old(self).lines,
            cmd is Clear ==> final(self).state == old(self).state && final(self).lines@.len()
                == 0,
            cmd is AutoOpen ==> final(self).state == (LogViewerState {
                auto_open_enabled: !old(self).state.auto_open_enabled,
                ..old(self).state
            }) && final(self).lines == old(self).lines,
            cmd matches ViewerCommand::Chip(c) ==> final(self).state == old(
                self,
            ).state.spec_with_level_visible(
                spec_chip_level(c.0),
                !old(self).state.spec_level_visible(spec_chip_level(c.0)),
            ) && final(self).lines@.len() == old(self).lines@.len() && (forall|i: int|
                0 <= i < old(self).lines@.len() ==> (#[trigger] final(self).lines@[i])@
                    == spec_set_line_visibility(
                    old(self).lines@[i]@,
                    spec_chip_level(c.0),
                    !old(self).state.spec_level_visible(spec_chip_level(c.0)),
                )),
    {
        match cmd {
            ViewerCommand::Visibility(v) => self.handle_visibility(v),
            ViewerCommand::Size(s) => self.handle_size(s),
            ViewerCommand::Clear(_) => self.handle_clear(),
            ViewerCommand::AutoOpen(_) => self.handle_auto_open_toggle(),
            ViewerCommand::Chip(c) => self.handle_chip_toggle(c),
        }
    }

    /// Drain one batch of captured events into the list: render each event
    /// in arrival order, give it the display flag of its level, and decide
    /// the coalesced auto-open and auto-scroll requests against the filter
    /// state as it stood at the start of the batch.
    pub fn process_events(&mut self, events: &Vec<LogEvent>) -> (actions: IntakeActions)
        requires
            old(self).wf(),
        ensures
            final(self).wf(),
            final(self).state == old(self).state,
            final(self).scroll == old(self).scroll,
            final(self).lines@.len() == old(self).lines@.len() + events@.len(),
            forall|i: int|
                0 <= i < old(self).lines@.len() ==> #[trigger] final(self).lines@[i] == old(
                    self,
                ).lines@[i],
            forall|i: int|
                0 <= i < events@.len() ==> (#[trigger] final(self).lines@[old(self).lines@.len()
                    + i])@ == spec_line_of(old(self).state, events@[i]@),
            actions.show_overlay == spec_show_any(old(self).state, events.deep_view()),
            actions.scroll_to_bottom == (old(self).state.scroll_state is Auto && events@.len()
                > 0),
    {
        let ghost s0 = self.state;
        let ghost scroll0 = self.scroll;
        let ghost lines0 = self.lines@;
        let mut show = false;
        let mut i: usize = 0;
        while i < events.len()
            invariant
                i <= events@.len(),
                self.state == s0,
                self.scroll == scroll0,
                self.lines@.len() == lines0.len() + i,
                forall|j: int| 0 <= j < lines0.len() ==> #[trigger] self.lines@[j] == lines0[j],
                forall|j: int|
                    0 <= j < i ==> (#[trigger] self.lines@[lines0.len() + j])@ == spec_line_of(
                        s0,
                        events@[j]@,
                    ),
                show == spec_show_any(s0, events.deep_view().take(i as int)),
            decreases events@.len() - i,
        {
            let event = &events[i];
            let visible = self.state.level_visible(event.level);
            let line = LogLine::render(event, visible);
            self.lines.push(line);
            let opens = self.state.auto_open_enabled && !self.state.visible
                && event.level.passes_filter(self.state.auto_open_threshold);
            proof {
                let pre = events.deep_view().take(i as int);
                let post = events.deep_view().take(i as int + 1);
                assert(post.drop_last() =~= pre);
                assert(post.last() == events.deep_view()[i as int]);
                if opens {
                    assert(spec_auto_open(s0, post[i as int].level));
                    assert(spec_show_any(s0, post));
                } else if show {
                    let w = choose|k: int| 0 <= k < pre.len() && spec_auto_open(s0, pre[k].level);
                    assert(spec_auto_open(s0, post[w].level));
                    assert(spec_show_any(s0, post));
                } else {
                    assert forall|k: int| 0 <= k < post.len() implies !spec_auto_open(
                        s0,
                        post[k].level,
                    ) by {
                        if k < i as int {
                            assert(!spec_auto_open(s0, pre[k].level));
                        }
                    }
                }
            }
            show = show || opens;
            i = i + 1;
        }
        proof {
            assert(events.deep_view().take(events@.len() as int) =~= events.deep_view());
            assert forall|k: int| 0 <= k < self.lines@.len() implies (#[trigger] self.lines@[k])@
                .visible == self.state.spec_level_visible(self.lines@[k]@.level) by {
                if k < lines0.len() {
                    assert(old(self).lines@[k]@.visible == old(self).state.spec_level_visible(
                        old(self).lines@[k]@.level,
                    ));
                } else {
                    let j = k - lines0.len();
                    assert(self.lines@[lines0.len() + j]@ == spec_line_of(s0, events@[j]@));
                }
            }
        }
        let scroll_to_bottom = self.state.scroll_state == ScrollState::Auto && events.len() > 0;
        IntakeActions { show_overlay: show, scroll_to_bottom }
    }

    /// One update tick of the intake: drain the events buffered in the
    /// channel right now, render them into lines in arrival order against
    /// the filter state at the start of the tick, and return the drained
    /// batch with its coalesced auto-open and auto-scroll requests.
    pub fn tick(
        &mut self,
        receiver: &std::sync::mpsc::Receiver<LogEvent>,
        max_events: usize,
    ) -> (r: (Vec<LogEvent>, IntakeActions))
        requires
            old(self).wf(),
        ensures
            final(self).wf(),
            r.0@.len() <= max_events,
            final(self).state == old(self).state,
            final(self).scroll == old(self).scroll,
            final(self).lines@.len() == old(self).lines@.len() + r.0@.len(),
            forall|i: int|
                0 <= i < old(self).lines@.len() ==> #[trigger] final(self).lines@[i] == old(
                    self,
                ).lines@[i],
            forall|i: int|
                0 <= i < r.0@.len() ==> (#[trigger] final(self).lines@[old(self).lines@.len()
                    + i])@ == spec_line_of(old(self).state, r.0@[i]@),
            r.1.show_overlay == spec_show_any(old(self).state, r.0.deep_view()),
            r.1.scroll_to_bottom == (old(self).state.scroll_state is Auto && r.0@.len() > 0),
    {
        let events = crate::channel::drain_events(receiver, max_events);
        let actions = self.process_events(&events);
        (events, actions)
    }

    /// Carry out what one tick's intake asked for, against the freshly
    /// measured heights: reveal the overlay if an event asked to, anchor or
    /// release the short list, and snap to the bottom when auto-scroll or a
    /// fresh overflow requests it.
    pub fn apply_intake_actions(
        &mut self,
        actions: IntakeActions,
        viewport_height: i64,
        content_height: i64,
    )
        requires
            old(self).wf(),
        ensures
            final(self).wf(),
            final(self).lines == old(self).lines,
            ({
                let snapped = (viewport_height < content_height && old(self).scroll.align_end)
                    || actions.scroll_to_bottom;
                &&& final(self).state == (LogViewerState {
                    visible: old(self).state.visible || actions.show_overlay,
                    scroll_state: if snapped {
                        ScrollState::Auto
                    } else {
                        old(self).state.scroll_state
                    },
                    ..old(self).state
                })
                &&& final(self).scroll.align_end == !(viewport_height < content_height)
                &&& final(self).scroll.offset_y == if snapped {
                    content_height
                } else {
                    old(self).scroll.offset_y
                }
                &&& final(self).scroll.offset_x == old(self).scroll.offset_x
            }),
    {
        if actions.show_overlay {
            self.handle_visibility(LogViewerVisibility::Show);
        }
        let overflow_snap = self.handle_overflow(viewport_height, content_height);
        if overflow_snap || actions.scroll_to_bottom {
            self.scroll_to_bottom(content_height);
        }
    }

    /// The number of lines tagged with each level, independent of their
    /// display state.
    pub fn counts(&self) -> (r: LogCounts)
        ensures
            r.error as nat == spec_count_level(self.lines.deep_view(), DebugLogLevel::Error),
            r.warn as nat == spec_count_level(self.lines.deep_view(), DebugLogLevel::Warn),
            r.info as nat == spec_count_level(self.lines.deep_view(), DebugLogLevel::Info),
            r.debug as nat == spec_count_level(self.lines.deep_view(), DebugLogLevel::Debug),
            r.trace as nat == spec_count_level(self.lines.deep_view(), DebugLogLevel::Trace),
    {
        LogCounts {
            error: count_level(&self.lines, DebugLogLevel::Error),
            warn: count_level(&self.lines, DebugLogLevel::Warn),
            info: count_level(&self.lines, DebugLogLevel::Info),
            debug: count_level(&self.lines, DebugLogLevel::Debug),
            trace: count_level(&self.lines, DebugLogLevel::Trace),
        }
    }

    /// Snap the list view to its bottom: the vertical offset becomes the
    /// content height and auto-scroll resumes.
    pub fn scroll_to_bottom(&mut self, content_height: i64)
        requires
            old(self).wf(),
        ensures
            final(self).wf(),
            final(self).state == (LogViewerState {
                scroll_state: ScrollState::Auto,
                ..old(self).state
            }),
            final(self).scroll == (ScrollRegion {
                offset_y: content_height,
                ..old(self).scroll
            }),
            final(self).lines == old(self).lines,
    {
        self.scroll.offset_y = content_height;
        self.state.scroll_state = ScrollState::Auto;
    }

    /// A manual drag on the list: the vertical offset moves against the
    /// drag delta and the viewer enters manual scrolling, which no
    /// auto-scroll trigger overrides.
    pub fn drag_scroll(&mut self, delta_y: i64)
        requires
            old(self).wf(),
        ensures
            final(self).wf(),
            final(self).state == (LogViewerState {
                scroll_state: ScrollState::Manual,
                ..old(self).state
            }),
            final(self).scroll == (ScrollRegion {
                offset_y: spec_clamp_i64(old(self).scroll.offset_y - delta_y) as i64,
                ..old(self).scroll
            }),
            final(self).lines == old(self).lines,
    {
        self.scroll.offset_y = saturating_sub_i64(self.scroll.offset_y, delta_y);
        self.state.scroll_state = ScrollState::Manual;
    }

    /// A mouse-wheel movement over the list: both offsets move against the
    /// wheel deltas, scaled by the line font size when the deltas are in
    /// lines, and the viewer enters manual scrolling.
    pub fn wheel_scroll(&mut self, unit: MouseScrollUnit, x: i64, y: i64)
        requires
            old(self).wf(),
        ensures
            final(self).wf(),
            final(self).state == (LogViewerState {
                scroll_state: ScrollState::Manual,
                ..old(self).state
            }),
            final(self).scroll.align_end == old(self).scroll.align_end,
            final(self).lines == old(self).lines,
            unit is Pixel ==> final(self).scroll.offset_x as int == spec_clamp_i64(
                old(self).scroll.offset_x - x,
            ) && final(self).scroll.offset_y as int == spec_clamp_i64(
                old(self).scroll.offset_y - y,
            ),
            unit is Line ==> final(self).scroll.offset_x as int == spec_clamp_i64(
                old(self).scroll.offset_x - spec_clamp_i64(x * crate::scroll::LOG_LINE_FONT_SIZE),
            ) && final(self).scroll.offset_y as int == spec_clamp_i64(
                old(self).scroll.offset_y - spec_clamp_i64(y * crate::scroll::LOG_LINE_FONT_SIZE),
            ),
    {
        let (dx, dy) = wheel_deltas(unit, x, y);
        self.scroll.offset_x = saturating_sub_i64(self.scroll.offset_x, dx);
        self.scroll.offset_y = saturating_sub_i64(self.scroll.offset_y, dy);
        self.state.scroll_state = ScrollState::Manual;
    }

    /// React to the measured heights of the list and its viewport: while
    /// the content is short the list is anchored to the bottom edge; when
    /// it first overflows, the anchor is released and one snap to the
    /// bottom is requested.
    pub fn handle_overflow(&mut self, viewport_height: i64, content_height: i64) -> (scroll_req:
        bool)
        requires
            old(self).wf(),
        ensures
            final(self).wf(),
            final(self).state == old(self).state,
            final(self).lines == old(self).lines,
            final(self).scroll.offset_x == old(self).scroll.offset_x,
            final(self).scroll.offset_y == old(self).scroll.offset_y,
            final(self).scroll.align_end == if viewport_height < content_height {
                false
            } else {
                true
            },
            scroll_req == (viewport_height < content_height && old(self).scroll.align_end),
    {
        let overflown = viewport_height < content_height;
        if !overflown {
            self.scroll.align_end = true;
            false
        } else if self.scroll.align_end {
            self.scroll.align_end = false;
            true
        } else {
            false
        }
    }

    /// Whether the scroll-to-bottom affordance is shown: only while the
    /// user scrolls manually and the content overflows the viewport.
    pub fn show_scroll_affordance(&self, viewport_height: i64, content_height: i64) -> (r: bool)
        ensures
            r == (self.state.scroll_state is Manual && viewport_height < content_height),
    {
        self.state.scroll_state == ScrollState::Manual && viewport_height < content_height
    }
}

} // verus!
