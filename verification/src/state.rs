//! The viewer's mutable state: visibility, size, auto-open configuration,
//! per-level filter flags, and scroll mode, together with the pure functions
//! that derive every visual attribute from that state.
use vstd::prelude::*;

use crate::levels::DebugLogLevel;
use crate::levels::LevelFilter;
use crate::levels::spec_filter_level;

verus! {

/// Whether the list view tracks newly arriving lines (`Auto`) or holds a
/// user-chosen scroll position (`Manual`).
#[derive(Clone, Copy, Debug, PartialEq, Eq, Structural)]
pub enum ScrollState {
    Auto,
    Manual,
}

/// Percent height of the overlay panel when it is not fullscreen.
pub const SMALL_HEIGHT_PERCENT: u8 = 40;

/// Percent height of the overlay panel when it is fullscreen.
pub const FULL_HEIGHT_PERCENT: u8 = 100;

/// The viewer's state, mutated only by discrete interaction events and by
/// the intake's auto-open trigger.
#[derive(Clone, Copy, Debug, PartialEq, Eq, Structural)]
pub struct LogViewerState {
    /// Whether the overlay is shown at all.
    pub visible: bool,
    /// Whether the overlay covers the full height of the screen.
    pub fullscreen: bool,
    /// Current percent height of the overlay panel.
    pub height_percent: u8,
    /// Severity threshold at or above which a new event reveals the hidden
    /// overlay; `Off` disables the feature entirely.
    pub auto_open_threshold: LevelFilter,
    /// Whether auto-open is currently switched on. Only meaningful when the
    /// threshold is not `Off`.
    pub auto_open_enabled: bool,
    /// Whether lines tagged `Error` are shown.
    pub error_visible: bool,
    /// Whether lines tagged `Warn` are shown.
    pub warn_visible: bool,
    /// Whether lines tagged `Info` are shown.
    pub info_visible: bool,
    /// Whether lines tagged `Debug` are shown.
    pub debug_visible: bool,
    /// Whether lines tagged `Trace` are shown.
    pub trace_visible: bool,
    /// Current scroll mode of the list view.
    pub scroll_state: ScrollState,
}

impl LogViewerState {
    /// Well-formedness: the panel height is one of the two recognized
    /// heights and agrees with the fullscreen flag, and auto-open can only
    /// be switched on while a concrete threshold is configured.
    pub open spec fn wf(self) -> bool {
        &&& self.height_percent == if self.fullscreen {
            FULL_HEIGHT_PERCENT as int
        } else {
            SMALL_HEIGHT_PERCENT as int
        }
        &&& self.auto_open_enabled ==> spec_filter_level(self.auto_open_threshold) is Some
    }

    /// The filter flag of a given level.
    pub open spec fn spec_level_visible(self, level: DebugLogLevel) -> bool {
        match level {
            DebugLogLevel::Error => self.error_visible,
            DebugLogLevel::Warn => self.warn_visible,
            DebugLogLevel::Info => self.info_visible,
            DebugLogLevel::Debug => self.debug_visible,
            DebugLogLevel::Trace => self.trace_visible,
        }
    }

    /// Read the filter flag of a given level.
    pub fn level_visible(&self, level: DebugLogLevel) -> (r: bool)
        ensures
            r == self.spec_level_visible(level),
    {
        match level {
            DebugLogLevel::Error => self.error_visible,
            DebugLogLevel::Warn => self.warn_visible,
            DebugLogLevel::Info => self.info_visible,
            DebugLogLevel::Debug => self.debug_visible,
            DebugLogLevel::Trace => self.trace_visible,
        }
    }

    /// The state with the filter flag of `level` replaced by `value` and
    /// every other field unchanged.
    pub open spec fn spec_with_level_visible(self, level: DebugLogLevel, value: bool) -> LogViewerState {
        match level {
            DebugLogLevel::Error => LogViewerState { error_visible: value, ..self },
            DebugLogLevel::Warn => LogViewerState { warn_visible: value, ..self },
            DebugLogLevel::Info => LogViewerState { info_visible: value, ..self },
            DebugLogLevel::Debug => LogViewerState { debug_visible: value, ..self },
            DebugLogLevel::Trace => LogViewerState { trace_visible: value, ..self },
        }
    }

    /// Write the filter flag of a given level.
    pub fn set_level_visible(&mut self, level: DebugLogLevel, value: bool)
        ensures
            *final(self) == old(self).spec_with_level_visible(level, value),
    {
        match level {
            DebugLogLevel::Error => self.error_visible = value,
            DebugLogLevel::Warn => self.warn_visible = value,
            DebugLogLevel::Info => self.info_visible = value,
            DebugLogLevel::Debug => self.debug_visible = value,
            DebugLogLevel::Trace => self.trace_visible = value,
        }
    }

    /// The state a freshly constructed overlay starts in: hidden, small,
    /// auto-open off, every level shown, auto-scroll.
    pub open spec fn spec_default() -> LogViewerState {
        LogViewerState {
            visible: false,
            fullscreen: false,
            height_percent: SMALL_HEIGHT_PERCENT,
            auto_open_threshold: LevelFilter::Off,
            auto_open_enabled: false,
            error_visible: true,
            warn_visible: true,
            info_visible: true,
            debug_visible: true,
            trace_visible: true,
            scroll_state: ScrollState::Auto,
        }
    }
}

impl Default for LogViewerState {
    /// The initial state: hidden, small, auto-open off, every level shown,
    /// auto-scroll.
    fn default() -> (r: LogViewerState)
        ensures
            r == LogViewerState::spec_default(),
            r.wf(),
    {
        LogViewerState {
            visible: false,
            fullscreen: false,
            height_percent: SMALL_HEIGHT_PERCENT,
            auto_open_threshold: LevelFilter::Off,
            auto_open_enabled: false,
            error_visible: true,
            warn_visible: true,
            info_visible: true,
            debug_visible: true,
            trace_visible: true,
            scroll_state: ScrollState::Auto,
        }
    }
}

/// Background alpha of a filter chip, in percent, as a pure function of the
/// chip's filter flag: translucent while selected, fully transparent while
/// deselected.
pub open spec fn spec_chip_bg_alpha_percent(flag: bool) -> int {
    if flag {
        25
    } else {
        0
    }
}

/// Whether the chip border shows the level color (selected) or white
/// (deselected), as a pure function of the chip's filter flag.
pub open spec fn spec_chip_border_level_colored(flag: bool) -> bool {
    flag
}

/// Background alpha of a filter chip, in percent.
pub fn chip_bg_alpha_percent(flag: bool) -> (r: u8)
    ensures
        r as int == spec_chip_bg_alpha_percent(flag),
{
    if flag {
        25
    } else {
        0
    }
}

/// Whether the chip border shows the level color rather than white.
pub fn chip_border_level_colored(flag: bool) -> (r: bool)
    ensures
        r == spec_chip_border_level_colored(flag),
{
    flag
}

/// Whether the auto-open checkbox icon is drawn, as a pure function of the
/// auto-open flag.
pub fn checkbox_icon_shown(auto_open_enabled: bool) -> (r: bool)
    ensures
        r == auto_open_enabled,
{
    auto_open_enabled
}

} // verus!
