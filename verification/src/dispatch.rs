//! Interaction dispatch: the translation of raw pointer and keyboard
//! signals on tagged controls into the discrete state-machine events.
use vstd::prelude::*;

use crate::levels::LevelFilterChip;
use crate::event::AutoOpenToggle;
use crate::event::ChipToggle;
use crate::event::ClearLogs;
use crate::event::LogViewerSize;
use crate::event::LogViewerVisibility;
use crate::event::ViewerCommand;

verus! {

/// The three window-control buttons in the title bar.
#[derive(Clone, Copy, Debug, PartialEq, Eq, Structural)]
pub enum TrafficLightButton {
    Red,
    Yellow,
    Green,
}

/// State of a pointer interaction with a control, as the toolkit reports
/// it.
#[derive(Clone, Copy, Debug, PartialEq, Eq, Structural)]
pub enum Interaction {
    Pressed,
    Hovered,
    Idle,
}

/// The command a press on a traffic-light button issues: red hides the
/// overlay, yellow clears the logs, green toggles the size. Anything but a
/// press issues nothing.
pub fn on_traffic_light_button(button: TrafficLightButton, interaction: Interaction) -> (r: Option<
    ViewerCommand,
>)
    ensures
        interaction is Pressed ==> r == Some(
            match button {
                TrafficLightButton::Red => ViewerCommand::Visibility(LogViewerVisibility::Hide),
                TrafficLightButton::Yellow => ViewerCommand::Clear(ClearLogs),
                TrafficLightButton::Green => ViewerCommand::Size(LogViewerSize::Toggle),
            },
        ),
        !(interaction is Pressed) ==> r is None,
{
    match interaction {
        Interaction::Pressed => Some(
            match button {
                TrafficLightButton::Red => ViewerCommand::Visibility(LogViewerVisibility::Hide),
                TrafficLightButton::Yellow => ViewerCommand::Clear(ClearLogs),
                TrafficLightButton::Green => ViewerCommand::Size(LogViewerSize::Toggle),
            },
        ),
        _ => None,
    }
}

/// The command a press on the auto-open checkbox issues.
pub fn on_auto_open_check(interaction: Interaction) -> (r: Option<ViewerCommand>)
    ensures
        interaction is Pressed ==> r == Some(ViewerCommand::AutoOpen(AutoOpenToggle)),
        !(interaction is Pressed) ==> r is None,
{
    match interaction {
        Interaction::Pressed => Some(ViewerCommand::AutoOpen(AutoOpenToggle)),
        _ => None,
    }
}

/// The command a press on a level's filter chip issues.
pub fn on_level_filter_chip(chip: LevelFilterChip, interaction: Interaction) -> (r: Option<
    ViewerCommand,
>)
    ensures
        interaction is Pressed ==> r == Some(ViewerCommand::Chip(ChipToggle(chip))),
        !(interaction is Pressed) ==> r is None,
{
    match interaction {
        Interaction::Pressed => Some(ViewerCommand::Chip(ChipToggle(chip))),
        _ => None,
    }
}

/// The command the application-defined keyboard shortcut issues: toggle
/// the overlay's visibility.
pub fn keyboard_visibility_toggle() -> (r: ViewerCommand)
    ensures
        r == ViewerCommand::Visibility(LogViewerVisibility::Toggle),
{
    ViewerCommand::Visibility(LogViewerVisibility::Toggle)
}

} // verus!
