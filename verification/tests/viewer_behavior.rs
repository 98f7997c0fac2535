use log_viewer::DebugLogLevel;
use log_viewer::ChipToggle;
use log_viewer::LevelFilter;
use log_viewer::LevelFilterChip;
use log_viewer::LogEvent;
use log_viewer::LogViewer;
use log_viewer::LogViewerSize;
use log_viewer::LogViewerState;
use log_viewer::LogViewerVisibility;
use log_viewer::ScrollState;
use log_viewer::ViewerCommand;

fn event(message: &str, level: DebugLogLevel) -> LogEvent {
    LogEvent {
        message: message.to_owned(),
        level,
        target: "app::demo".to_owned(),
        timestamp: None,
    }
}

#[test]
fn default_state() {
    let state = LogViewerState::default();
    assert!(!state.visible);
    assert!(!state.fullscreen);
    assert_eq!(state.height_percent, 40);
    assert_eq!(state.auto_open_threshold, LevelFilter::Off);
    assert!(!state.auto_open_enabled);
    assert!(state.error_visible);
    assert!(state.warn_visible);
    assert!(state.info_visible);
    assert!(state.debug_visible);
    assert!(state.trace_visible);
    assert_eq!(state.scroll_state, ScrollState::Auto);
}

#[test]
fn intake_preserves_order() {
    let mut viewer = LogViewer::new(LevelFilter::Off);
    let batch = vec![
        event("first", DebugLogLevel::Info),
        event("second", DebugLogLevel::Error),
        event("third", DebugLogLevel::Trace),
        event("fourth", DebugLogLevel::Info),
    ];
    viewer.process_events(&batch);
    assert_eq!(viewer.lines.len(), 4);
    assert_eq!(viewer.lines[0].message.as_str(), "first");
    assert_eq!(viewer.lines[1].message.as_str(), "second");
    assert_eq!(viewer.lines[2].message.as_str(), "third");
    assert_eq!(viewer.lines[3].message.as_str(), "fourth");
    let more = vec![event("fifth", DebugLogLevel::Warn)];
    viewer.process_events(&more);
    assert_eq!(viewer.lines.len(), 5);
    assert_eq!(viewer.lines[4].message.as_str(), "fifth");
}

#[test]
fn line_has_exactly_its_level_marker() {
    let mut viewer = LogViewer::new(LevelFilter::Off);
    viewer.process_events(&vec![event("only warn", DebugLogLevel::Warn)]);
    assert_eq!(viewer.lines[0].level, DebugLogLevel::Warn);
    let counts = viewer.counts();
    assert_eq!(counts.warn, 1);
    assert_eq!(counts.error, 0);
    assert_eq!(counts.info, 0);
    assert_eq!(counts.debug, 0);
    assert_eq!(counts.trace, 0);
}

#[test]
fn chip_toggle_twice_restores_state() {
    let mut viewer = LogViewer::new(LevelFilter::Off);
    viewer.process_events(&vec![
        event("a warn", DebugLogLevel::Warn),
        event("an info", DebugLogLevel::Info),
    ]);
    assert!(viewer.state.warn_visible);
    assert!(viewer.lines[0].visible);
    viewer.handle_chip_toggle(ChipToggle(LevelFilterChip::Warn));
    assert!(!viewer.state.warn_visible);
    assert!(!viewer.lines[0].visible);
    assert!(viewer.lines[1].visible);
    viewer.handle_chip_toggle(ChipToggle(LevelFilterChip::Warn));
    assert!(viewer.state.warn_visible);
    assert!(viewer.lines[0].visible);
    assert!(viewer.lines[1].visible);
}

#[test]
fn lines_created_while_filtered_start_hidden() {
    let mut viewer = LogViewer::new(LevelFilter::Off);
    viewer.handle_chip_toggle(ChipToggle(LevelFilterChip::Debug));
    viewer.process_events(&vec![event("quiet", DebugLogLevel::Debug)]);
    assert!(!viewer.lines[0].visible);
    viewer.handle_chip_toggle(ChipToggle(LevelFilterChip::Debug));
    assert!(viewer.lines[0].visible);
}

#[test]
fn auto_open_triggers_on_threshold() {
    let mut viewer = LogViewer::new(LevelFilter::Warn);
    assert!(viewer.state.auto_open_enabled);
    assert!(!viewer.state.visible);
    let actions = viewer.process_events(&vec![event("just info", DebugLogLevel::Info)]);
    assert!(!actions.show_overlay);
    let actions = viewer.process_events(&vec![event("bad", DebugLogLevel::Error)]);
    assert!(actions.show_overlay);
    // The request is coalesced: one batch with several qualifying events
    // still asks for a single reveal.
    let actions = viewer.process_events(&vec![
        event("bad", DebugLogLevel::Error),
        event("worse", DebugLogLevel::Error),
    ]);
    assert!(actions.show_overlay);
    viewer.handle_visibility(LogViewerVisibility::Show);
    // A visible overlay is never asked to reveal itself again.
    let actions = viewer.process_events(&vec![event("bad again", DebugLogLevel::Error)]);
    assert!(!actions.show_overlay);
}

#[test]
fn auto_open_respects_toggle_and_off() {
    let mut viewer = LogViewer::new(LevelFilter::Warn);
    viewer.handle_auto_open_toggle();
    assert!(!viewer.state.auto_open_enabled);
    let actions = viewer.process_events(&vec![event("bad", DebugLogLevel::Error)]);
    assert!(!actions.show_overlay);
    let mut off_viewer = LogViewer::new(LevelFilter::Off);
    assert!(!off_viewer.state.auto_open_enabled);
    let actions = off_viewer.process_events(&vec![event("bad", DebugLogLevel::Error)]);
    assert!(!actions.show_overlay);
}

#[test]
fn clear_removes_all_lines_and_counts() {
    let mut viewer = LogViewer::new(LevelFilter::Off);
    viewer.process_events(&vec![
        event("one", DebugLogLevel::Error),
        event("two", DebugLogLevel::Trace),
        event("three", DebugLogLevel::Info),
    ]);
    viewer.handle_chip_toggle(ChipToggle(LevelFilterChip::Trace));
    let state_before = viewer.state;
    viewer.handle_clear();
    assert_eq!(viewer.lines.len(), 0);
    let counts = viewer.counts();
    assert_eq!(counts.error, 0);
    assert_eq!(counts.warn, 0);
    assert_eq!(counts.info, 0);
    assert_eq!(counts.debug, 0);
    assert_eq!(counts.trace, 0);
    // Clearing touches neither filter nor visibility state.
    assert_eq!(viewer.state, state_before);
}

#[test]
fn scroll_mode_transitions() {
    let mut viewer = LogViewer::new(LevelFilter::Off);
    assert_eq!(viewer.state.scroll_state, ScrollState::Auto);
    viewer.drag_scroll(12);
    assert_eq!(viewer.state.scroll_state, ScrollState::Manual);
    assert_eq!(viewer.scroll.offset_y, -12);
    viewer.scroll_to_bottom(400);
    assert_eq!(viewer.state.scroll_state, ScrollState::Auto);
    assert_eq!(viewer.scroll.offset_y, 400);
    // While auto-scrolling, every tick with new lines asks to track the
    // bottom; with no new lines it does not.
    let actions = viewer.process_events(&vec![event("new line", DebugLogLevel::Info)]);
    assert!(actions.scroll_to_bottom);
    let actions = viewer.process_events(&vec![]);
    assert!(!actions.scroll_to_bottom);
    // While manual, arriving lines do not ask to move the view.
    viewer.drag_scroll(5);
    let actions = viewer.process_events(&vec![event("another", DebugLogLevel::Info)]);
    assert!(!actions.scroll_to_bottom);
}

#[test]
fn size_toggle_alternates_heights() {
    let mut viewer = LogViewer::new(LevelFilter::Off);
    assert_eq!(viewer.state.height_percent, 40);
    viewer.handle_size(LogViewerSize::Toggle);
    assert_eq!(viewer.state.height_percent, 100);
    assert!(viewer.state.fullscreen);
    viewer.handle_size(LogViewerSize::Toggle);
    assert_eq!(viewer.state.height_percent, 40);
    assert!(!viewer.state.fullscreen);
    viewer.handle_size(LogViewerSize::Big);
    assert_eq!(viewer.state.height_percent, 100);
    viewer.handle_size(LogViewerSize::Small);
    assert_eq!(viewer.state.height_percent, 40);
}

#[test]
fn counts_ignore_visibility() {
    let mut viewer = LogViewer::new(LevelFilter::Off);
    viewer.process_events(&vec![
        event("e1", DebugLogLevel::Error),
        event("w1", DebugLogLevel::Warn),
        event("e2", DebugLogLevel::Error),
        event("i1", DebugLogLevel::Info),
        event("w2", DebugLogLevel::Warn),
        event("e3", DebugLogLevel::Error),
    ]);
    viewer.handle_chip_toggle(ChipToggle(LevelFilterChip::Warn));
    assert!(!viewer.state.warn_visible);
    let counts = viewer.counts();
    assert_eq!(counts.error, 3);
    assert_eq!(counts.warn, 2);
    assert_eq!(counts.info, 1);
}

#[test]
fn visibility_commands() {
    let mut viewer = LogViewer::new(LevelFilter::Off);
    viewer.handle_visibility(LogViewerVisibility::Show);
    assert!(viewer.state.visible);
    viewer.handle_visibility(LogViewerVisibility::Show);
    assert!(viewer.state.visible);
    viewer.handle_visibility(LogViewerVisibility::Toggle);
    assert!(!viewer.state.visible);
    viewer.handle_visibility(LogViewerVisibility::Toggle);
    assert!(viewer.state.visible);
    viewer.handle_visibility(LogViewerVisibility::Hide);
    assert!(!viewer.state.visible);
}

#[test]
fn overflow_anchors_and_requests_one_snap() {
    let mut viewer = LogViewer::new(LevelFilter::Off);
    // Short content: the list is anchored to the bottom edge.
    assert!(!viewer.handle_overflow(300, 120));
    assert!(viewer.scroll.align_end);
    // First overflow: the anchor is released and one snap is requested.
    assert!(viewer.handle_overflow(300, 360));
    assert!(!viewer.scroll.align_end);
    // Staying overflown requests nothing further.
    assert!(!viewer.handle_overflow(300, 400));
    assert!(!viewer.scroll.align_end);
}

#[test]
fn scroll_affordance_needs_manual_and_overflow() {
    let mut viewer = LogViewer::new(LevelFilter::Off);
    assert!(!viewer.show_scroll_affordance(300, 400));
    viewer.drag_scroll(3);
    assert!(viewer.show_scroll_affordance(300, 400));
    assert!(!viewer.show_scroll_affordance(300, 200));
    viewer.scroll_to_bottom(400);
    assert!(!viewer.show_scroll_affordance(300, 400));
}

#[test]
fn intake_actions_drive_reveal_and_snap() {
    let mut viewer = LogViewer::new(LevelFilter::Warn);
    // While auto-scrolling, a tick with new lines snaps the view to the
    // bottom of the measured content.
    let actions = viewer.process_events(&vec![event("boom", DebugLogLevel::Error)]);
    viewer.apply_intake_actions(actions, 300, 500);
    assert!(viewer.state.visible);
    assert_eq!(viewer.scroll.offset_y, 500);
    assert_eq!(viewer.state.scroll_state, ScrollState::Auto);
    // While manual, a tick with new lines leaves the user's position.
    viewer.drag_scroll(40);
    let offset = viewer.scroll.offset_y;
    let actions = viewer.process_events(&vec![event("more", DebugLogLevel::Info)]);
    viewer.apply_intake_actions(actions, 300, 600);
    assert_eq!(viewer.scroll.offset_y, offset);
    assert_eq!(viewer.state.scroll_state, ScrollState::Manual);
}

#[test]
fn chip_badge_text() {
    let mut viewer = LogViewer::new(LevelFilter::Off);
    for _ in 0..12 {
        viewer.process_events(&vec![event("w", DebugLogLevel::Warn)]);
    }
    let counts = viewer.counts();
    assert_eq!(counts.badge_text(DebugLogLevel::Warn).as_str(), "12");
    assert_eq!(counts.badge_text(DebugLogLevel::Error).as_str(), "0");
}

#[test]
fn reducer_dispatches_commands() {
    let mut viewer = LogViewer::new(LevelFilter::Error);
    viewer.apply(ViewerCommand::Visibility(LogViewerVisibility::Show));
    assert!(viewer.state.visible);
    viewer.apply(ViewerCommand::Size(LogViewerSize::Toggle));
    assert!(viewer.state.fullscreen);
    viewer.process_events(&vec![event("x", DebugLogLevel::Info)]);
    viewer.apply(ViewerCommand::Clear(log_viewer::ClearLogs));
    assert_eq!(viewer.lines.len(), 0);
    viewer.apply(ViewerCommand::AutoOpen(log_viewer::AutoOpenToggle));
    assert!(!viewer.state.auto_open_enabled);
    viewer.apply(ViewerCommand::Chip(ChipToggle(LevelFilterChip::Info)));
    assert!(!viewer.state.info_visible);
}
