//! Construction-time configuration of the overlay: the auto-open threshold
//! and the anti-aliasing setting handed through to the toolkit, with the
//! initial viewer they give rise to.
use vstd::prelude::*;
use vstd::string::StringExecFns;

use crate::levels::DebugLogLevel;
use crate::levels::LevelFilter;
use crate::levels::spec_filter_level;
use crate::levels::spec_title_case;
use crate::viewer::LogViewer;

verus! {

/// Multisample anti-aliasing setting of the overlay's own camera; passed
/// through to the toolkit untouched.
#[derive(Clone, Copy, Debug, PartialEq, Eq, Structural)]
pub enum Msaa {
    Off,
    Sample2,
    Sample4,
    Sample8,
}

impl Default for Msaa {
    /// Four samples, the toolkit's own default.
    fn default() -> (r: Msaa)
        ensures
            r == Msaa::Sample4,
    {
        Msaa::Sample4
    }
}

/// Configuration the host application builds the overlay with.
#[derive(Clone, Copy, Debug, PartialEq, Eq, Structural)]
pub struct LogViewerPlugin {
    /// Severity threshold at or above which an event reveals the hidden
    /// overlay; `Off` disables auto-open.
    pub auto_open_threshold: LevelFilter,
    /// Anti-aliasing setting for the overlay's camera.
    pub msaa: Msaa,
}

impl Default for LogViewerPlugin {
    /// Auto-open on errors, default anti-aliasing.
    fn default() -> (r: LogViewerPlugin)
        ensures
            r == (LogViewerPlugin { auto_open_threshold: LevelFilter::Error, msaa: Msaa::Sample4 }),
    {
        LogViewerPlugin { auto_open_threshold: LevelFilter::Error, msaa: Msaa::Sample4 }
    }
}

impl LogViewerPlugin {
    /// Replace the auto-open threshold.
    pub fn auto_open_threshold(self, level_filter: LevelFilter) -> (r: LogViewerPlugin)
        ensures
            r == (LogViewerPlugin { auto_open_threshold: level_filter, ..self }),
    {
        LogViewerPlugin { auto_open_threshold: level_filter, ..self }
    }

    /// Replace the anti-aliasing setting.
    pub fn msaa(self, msaa: Msaa) -> (r: LogViewerPlugin)
        ensures
            r == (LogViewerPlugin { msaa, ..self }),
    {
        LogViewerPlugin { msaa, ..self }
    }

    /// The viewer this configuration starts with: auto-open is switched on
    /// exactly when the configured threshold is concrete.
    pub fn initial_viewer(&self) -> (r: LogViewer)
        ensures
            r.wf(),
            r.state.auto_open_threshold == self.auto_open_threshold,
            r.state.auto_open_enabled == (spec_filter_level(self.auto_open_threshold) is Some),
            !r.state.visible,
            !r.state.fullscreen,
            r.state.error_visible && r.state.warn_visible && r.state.info_visible
                && r.state.debug_visible && r.state.trace_visible,
            r.state.scroll_state is Auto,
            r.lines@.len() == 0,
    {
        LogViewer::new(self.auto_open_threshold)
    }

    /// Whether the auto-open checkbox exists at all: it is only built while
    /// a concrete threshold is configured, so a control bound to a level
    /// can never face `Off`.
    pub fn has_auto_open_control(&self) -> (r: bool)
        ensures
            r == (spec_filter_level(self.auto_open_threshold) is Some),
    {
        match self.auto_open_threshold {
            LevelFilter::Off => false,
            _ => true,
        }
    }
}

/// Label of the auto-open checkbox for a given threshold level.
pub fn auto_open_label(level: DebugLogLevel) -> (r: String)
    ensures
        r@ == "Auto-open on "@ + spec_title_case(level),
{
    let mut label = "Auto-open on ".to_owned();
    label.append(level.title_case().as_str());
    label
}

} // verus!
