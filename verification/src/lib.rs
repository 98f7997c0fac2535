//! Core of an in-game log viewer overlay: a verified model of the
//! capture-to-render pipeline. Structured log events are funneled through a
//! channel into a per-tick intake, rendered as an ordered list of tagged
//! lines, and reconciled against mutable viewer state (visibility, size,
//! per-level filters, auto-open threshold, auto-scroll versus manual scroll).
pub mod levels;
pub mod state;
pub mod textfmt;
pub mod timestamp;
pub mod event;
pub mod lines;
pub mod channel;
pub mod dispatch;
pub mod laws;
pub mod plugin;
pub mod scroll;
pub mod viewer;

pub use timestamp::Timestamp;
pub use event::AutoOpenToggle;
pub use event::ChipToggle;
pub use event::ClearLogs;
pub use event::LogEvent;
pub use event::LogViewerSize;
pub use event::LogViewerVisibility;
pub use event::ViewerCommand;
pub use dispatch::Interaction;
pub use dispatch::TrafficLightButton;
pub use dispatch::keyboard_visibility_toggle;
pub use dispatch::on_auto_open_check;
pub use dispatch::on_level_filter_chip;
pub use dispatch::on_traffic_light_button;
pub use plugin::LogViewerPlugin;
pub use plugin::Msaa;
pub use plugin::auto_open_label;
pub use channel::capture_and_send;
pub use channel::drain_events;
pub use channel::log_channel;
pub use lines::LogLine;
pub use scroll::MouseScrollUnit;
pub use scroll::ScrollRegion;
pub use viewer::IntakeActions;
pub use viewer::LogCounts;
pub use viewer::LogViewer;

pub use state::LogViewerState;
pub use state::ScrollState;
pub use levels::DebugLogLevel;
pub use levels::LevelFilter;
pub use levels::LevelFilterChip;
pub use levels::Rgb;
