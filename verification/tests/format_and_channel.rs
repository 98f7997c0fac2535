use log_viewer::DebugLogLevel;
use log_viewer::Interaction;
use log_viewer::LevelFilter;
use log_viewer::LevelFilterChip;
use log_viewer::LogEvent;
use log_viewer::LogViewer;
use log_viewer::LogViewerPlugin;
use log_viewer::LogViewerSize;
use log_viewer::LogViewerVisibility;
use log_viewer::MouseScrollUnit;
use log_viewer::Msaa;
use log_viewer::Timestamp;
use log_viewer::TrafficLightButton;
use log_viewer::ViewerCommand;
use log_viewer::auto_open_label;
use log_viewer::capture_and_send;
use log_viewer::drain_events;
use log_viewer::keyboard_visibility_toggle;
use log_viewer::log_channel;
use log_viewer::on_auto_open_check;
use log_viewer::on_level_filter_chip;
use log_viewer::on_traffic_light_button;
use log_viewer::textfmt::decimal_string;

#[test]
fn iso8601_text_exact() {
    let t = Timestamp {
        year: 2024,
        month: 3,
        day: 5,
        hour: 7,
        minute: 8,
        second: 9,
        nanosecond: 123_456_789,
    };
    assert_eq!(t.iso8601_text().as_str(), "2024-03-05T07:08:09.12Z");
    let t = Timestamp {
        year: 999,
        month: 12,
        day: 31,
        hour: 23,
        minute: 59,
        second: 58,
        nanosecond: 0,
    };
    assert_eq!(t.iso8601_text().as_str(), "0999-12-31T23:59:58.00Z");
}

#[test]
fn timestamp_from_parts_validates() {
    assert!(Timestamp::from_parts(2024, 2, 29, 12, 0, 0, 0).is_some());
    assert!(Timestamp::from_parts(-5, 2, 28, 12, 0, 0, 0).is_none());
    assert!(Timestamp::from_parts(2024, 13, 1, 12, 0, 0, 0).is_none());
    assert!(Timestamp::from_parts(2024, 0, 1, 12, 0, 0, 0).is_none());
    assert!(Timestamp::from_parts(2024, 2, 32, 12, 0, 0, 0).is_none());
    assert!(Timestamp::from_parts(2024, 2, 28, 24, 0, 0, 0).is_none());
    assert!(Timestamp::from_parts(2024, 2, 28, 12, 60, 0, 0).is_none());
    assert!(Timestamp::from_parts(2024, 2, 28, 12, 0, 60, 0).is_none());
    assert!(Timestamp::from_parts(2024, 2, 28, 12, 0, 0, 1_000_000_000).is_none());
}

#[test]
fn captured_now_renders_plausibly() {
    let event = LogEvent::capture(
        "hello".to_owned(),
        DebugLogLevel::Info,
        "app".to_owned(),
    );
    let t = event.timestamp.expect("the platform clock is in range");
    assert!(t.year >= 2024);
    let text = t.iso8601_text();
    assert_eq!(text.len(), 23);
    assert!(text.ends_with('Z'));
    assert_eq!(&text[4..5], "-");
    assert_eq!(&text[10..11], "T");
}

#[test]
fn rendered_line_segments() {
    let mut viewer = LogViewer::new(LevelFilter::Off);
    let batch = vec![LogEvent {
        message: "it broke".to_owned(),
        level: DebugLogLevel::Error,
        target: "core::engine".to_owned(),
        timestamp: Some(Timestamp {
            year: 2024,
            month: 3,
            day: 5,
            hour: 7,
            minute: 8,
            second: 9,
            nanosecond: 990_000_000,
        }),
    }];
    viewer.process_events(&batch);
    let line = &viewer.lines[0];
    assert_eq!(line.timestamp_text.as_str(), "2024-03-05T07:08:09.99Z");
    assert_eq!(line.level_text.as_str(), " ERROR ");
    assert_eq!(line.target_text.as_str(), "core::engine: ");
    assert_eq!(line.message.as_str(), "it broke");
    assert!(line.visible);
}

#[test]
fn missing_timestamp_renders_error_note() {
    let mut viewer = LogViewer::new(LevelFilter::Off);
    viewer.process_events(&vec![LogEvent {
        message: "m".to_owned(),
        level: DebugLogLevel::Trace,
        target: "t".to_owned(),
        timestamp: None,
    }]);
    assert_eq!(viewer.lines[0].timestamp_text.as_str(), "timestamp error");
}

#[test]
fn level_labels_and_colors() {
    assert_eq!(DebugLogLevel::Trace.title_case().as_str(), "Trace");
    assert_eq!(DebugLogLevel::Debug.title_case().as_str(), "Debug");
    assert_eq!(DebugLogLevel::Info.title_case().as_str(), "Info");
    assert_eq!(DebugLogLevel::Warn.title_case().as_str(), "Warn");
    assert_eq!(DebugLogLevel::Error.title_case().as_str(), "Error");
    assert_eq!(DebugLogLevel::Error.upper_case().as_str(), "ERROR");
    assert_eq!(DebugLogLevel::Warn.letter().as_str(), "W");
    let red = DebugLogLevel::Error.color();
    assert_eq!((red.red, red.green, red.blue), (255, 0, 0));
    let orchid = DebugLogLevel::Trace.color();
    assert_eq!((orchid.red, orchid.green, orchid.blue), (186, 85, 211));
    let sky = DebugLogLevel::Debug.color();
    assert_eq!((sky.red, sky.green, sky.blue), (0, 191, 255));
    let lime = DebugLogLevel::Info.color();
    assert_eq!((lime.red, lime.green, lime.blue), (0, 255, 0));
    let yellow = DebugLogLevel::Warn.color();
    assert_eq!((yellow.red, yellow.green, yellow.blue), (255, 255, 0));
}

#[test]
fn level_order_and_filters() {
    assert!(DebugLogLevel::Error.at_least_as_severe(DebugLogLevel::Warn));
    assert!(!DebugLogLevel::Trace.at_least_as_severe(DebugLogLevel::Debug));
    assert!(DebugLogLevel::Info.at_least_as_severe(DebugLogLevel::Info));
    assert!(DebugLogLevel::Error.passes_filter(LevelFilter::Warn));
    assert!(!DebugLogLevel::Info.passes_filter(LevelFilter::Warn));
    assert!(!DebugLogLevel::Error.passes_filter(LevelFilter::Off));
    assert_eq!(
        DebugLogLevel::try_from_filter(LevelFilter::Warn),
        Some(DebugLogLevel::Warn)
    );
    assert_eq!(DebugLogLevel::try_from_filter(LevelFilter::Off), None);
    assert_eq!(LevelFilterChip::Debug.level(), DebugLogLevel::Debug);
    assert_eq!(
        LevelFilterChip::of_level(DebugLogLevel::Error),
        LevelFilterChip::Error
    );
}

#[test]
fn decimal_strings() {
    assert_eq!(decimal_string(0).as_str(), "0");
    assert_eq!(decimal_string(7).as_str(), "7");
    assert_eq!(decimal_string(42).as_str(), "42");
    assert_eq!(decimal_string(1234).as_str(), "1234");
    assert_eq!(decimal_string(1000).as_str(), "1000");
}

#[test]
fn auto_open_label_text() {
    assert_eq!(
        auto_open_label(DebugLogLevel::Warn).as_str(),
        "Auto-open on Warn"
    );
}

#[test]
fn plugin_configuration() {
    let plugin = LogViewerPlugin::default();
    assert_eq!(plugin.auto_open_threshold, LevelFilter::Error);
    assert_eq!(plugin.msaa, Msaa::Sample4);
    let plugin = plugin
        .auto_open_threshold(LevelFilter::Warn)
        .msaa(Msaa::Off);
    assert_eq!(plugin.auto_open_threshold, LevelFilter::Warn);
    assert_eq!(plugin.msaa, Msaa::Off);
    assert!(plugin.has_auto_open_control());
    let viewer = plugin.initial_viewer();
    assert!(viewer.state.auto_open_enabled);
    assert_eq!(viewer.state.auto_open_threshold, LevelFilter::Warn);
    let off = LogViewerPlugin::default().auto_open_threshold(LevelFilter::Off);
    assert!(!off.has_auto_open_control());
    assert!(!off.initial_viewer().state.auto_open_enabled);
}

#[test]
fn channel_carries_events_in_order() {
    let (sender, receiver) = log_channel();
    capture_and_send(
        &sender,
        "one".to_owned(),
        DebugLogLevel::Info,
        "t".to_owned(),
    );
    capture_and_send(
        &sender,
        "two".to_owned(),
        DebugLogLevel::Error,
        "t".to_owned(),
    );
    capture_and_send(
        &sender,
        "three".to_owned(),
        DebugLogLevel::Warn,
        "t".to_owned(),
    );
    let events = drain_events(&receiver, 100);
    assert_eq!(events.len(), 3);
    assert_eq!(events[0].message.as_str(), "one");
    assert_eq!(events[1].message.as_str(), "two");
    assert_eq!(events[2].message.as_str(), "three");
    assert_eq!(events[1].level, DebugLogLevel::Error);
    // The channel is empty now; a drain returns at once with nothing.
    assert_eq!(drain_events(&receiver, 100).len(), 0);
}

#[test]
fn drain_respects_cap() {
    let (sender, receiver) = log_channel();
    for i in 0..5 {
        capture_and_send(
            &sender,
            format!("m{i}"),
            DebugLogLevel::Debug,
            "t".to_owned(),
        );
    }
    let events = drain_events(&receiver, 2);
    assert_eq!(events.len(), 2);
    assert_eq!(events[0].message.as_str(), "m0");
    let rest = drain_events(&receiver, 100);
    assert_eq!(rest.len(), 3);
    assert_eq!(rest[0].message.as_str(), "m2");
}

#[test]
fn send_without_receiver_is_swallowed() {
    let (sender, receiver) = log_channel();
    drop(receiver);
    // Logging must never fail because the overlay is gone.
    capture_and_send(
        &sender,
        "nobody listens".to_owned(),
        DebugLogLevel::Info,
        "t".to_owned(),
    );
}

#[test]
fn tick_drains_into_lines() {
    let (sender, receiver) = log_channel();
    let mut viewer = LogViewer::new(LevelFilter::Error);
    capture_and_send(
        &sender,
        "routine".to_owned(),
        DebugLogLevel::Info,
        "t".to_owned(),
    );
    capture_and_send(
        &sender,
        "blew up".to_owned(),
        DebugLogLevel::Error,
        "t".to_owned(),
    );
    let (events, actions) = viewer.tick(&receiver, 1000);
    assert_eq!(events.len(), 2);
    assert_eq!(viewer.lines.len(), 2);
    assert_eq!(viewer.lines[0].message.as_str(), "routine");
    assert_eq!(viewer.lines[1].message.as_str(), "blew up");
    assert!(actions.show_overlay);
    assert!(actions.scroll_to_bottom);
    let counts = viewer.counts();
    assert_eq!(counts.info, 1);
    assert_eq!(counts.error, 1);
}

#[test]
fn wheel_and_drag_scrolling() {
    let mut viewer = LogViewer::new(LevelFilter::Off);
    viewer.wheel_scroll(MouseScrollUnit::Line, 0, 2);
    assert_eq!(viewer.scroll.offset_y, -16);
    assert_eq!(viewer.scroll.offset_x, 0);
    assert_eq!(
        viewer.state.scroll_state,
        log_viewer::ScrollState::Manual
    );
    viewer.wheel_scroll(MouseScrollUnit::Pixel, 3, -10);
    assert_eq!(viewer.scroll.offset_y, -6);
    assert_eq!(viewer.scroll.offset_x, -3);
    // Saturating arithmetic: a huge delta clamps instead of wrapping.
    viewer.drag_scroll(i64::MIN);
    assert_eq!(viewer.scroll.offset_y, i64::MAX - 5);
    viewer.drag_scroll(i64::MIN);
    assert_eq!(viewer.scroll.offset_y, i64::MAX);
    viewer.drag_scroll(i64::MAX);
    viewer.drag_scroll(i64::MAX);
    viewer.drag_scroll(i64::MAX);
    assert_eq!(viewer.scroll.offset_y, i64::MIN);
}

#[test]
fn interaction_dispatch() {
    assert_eq!(
        on_traffic_light_button(TrafficLightButton::Red, Interaction::Pressed),
        Some(ViewerCommand::Visibility(LogViewerVisibility::Hide))
    );
    assert_eq!(
        on_traffic_light_button(TrafficLightButton::Yellow, Interaction::Pressed),
        Some(ViewerCommand::Clear(log_viewer::ClearLogs))
    );
    assert_eq!(
        on_traffic_light_button(TrafficLightButton::Green, Interaction::Pressed),
        Some(ViewerCommand::Size(LogViewerSize::Toggle))
    );
    assert_eq!(
        on_traffic_light_button(TrafficLightButton::Red, Interaction::Hovered),
        None
    );
    assert_eq!(
        on_auto_open_check(Interaction::Pressed),
        Some(ViewerCommand::AutoOpen(log_viewer::AutoOpenToggle))
    );
    assert_eq!(on_auto_open_check(Interaction::Idle), None);
    assert_eq!(
        on_level_filter_chip(LevelFilterChip::Warn, Interaction::Pressed),
        Some(ViewerCommand::Chip(log_viewer::ChipToggle(
            LevelFilterChip::Warn
        )))
    );
    assert_eq!(
        on_level_filter_chip(LevelFilterChip::Warn, Interaction::Hovered),
        None
    );
    assert_eq!(
        keyboard_visibility_toggle(),
        ViewerCommand::Visibility(LogViewerVisibility::Toggle)
    );
}

#[test]
fn chip_visuals_follow_flag() {
    assert_eq!(log_viewer::state::chip_bg_alpha_percent(true), 25);
    assert_eq!(log_viewer::state::chip_bg_alpha_percent(false), 0);
    assert!(log_viewer::state::chip_border_level_colored(true));
    assert!(!log_viewer::state::chip_border_level_colored(false));
    assert!(log_viewer::state::checkbox_icon_shown(true));
    assert!(!log_viewer::state::checkbox_icon_shown(false));
}
