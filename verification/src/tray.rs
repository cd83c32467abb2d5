use vstd::prelude::*;

use crate::constants::menu_item_text::{DISABLE_STARTUP, ENABLE_STARTUP};
use crate::constants::set_icon_on_theme_change::RETRY_COUNT;

verus! {

/// The tray menu entries.
#[derive(Debug, Clone, Copy, PartialEq, Eq, Structural)]
pub enum MenuItemKind {
    Startup,
    Settings,
    Logs,
    Quit,
    /// A click that matches no entry.
    Other,
}

/// What the application does when a menu entry is clicked.
#[derive(Debug, Clone, Copy, PartialEq, Eq, Structural)]
pub enum TrayAction {
    /// Toggle start at log-on and relabel the entry.
    ToggleStartup,
    /// Open the configuration file.
    OpenConfiguration,
    /// Open the logs directory.
    OpenLogs,
    /// Remove the tray icon, release the devices and leave the event loop.
    Exit,
    /// Do nothing.
    Nothing,
}

/// The action for a click on a menu entry.
pub fn menu_action(item: MenuItemKind) -> (result: TrayAction)
    ensures
        item == MenuItemKind::Startup ==> result == TrayAction::ToggleStartup,
        item == MenuItemKind::Settings ==> result == TrayAction::OpenConfiguration,
        item == MenuItemKind::Logs ==> result == TrayAction::OpenLogs,
        item == MenuItemKind::Quit ==> result == TrayAction::Exit,
        item == MenuItemKind::Other ==> result == TrayAction::Nothing,
{
    match item {
        MenuItemKind::Startup => TrayAction::ToggleStartup,
        MenuItemKind::Settings => TrayAction::OpenConfiguration,
        MenuItemKind::Logs => TrayAction::OpenLogs,
        MenuItemKind::Quit => TrayAction::Exit,
        MenuItemKind::Other => TrayAction::Nothing,
    }
}

/// The label of the start-up entry: it offers to disable start at log-on
/// while that is enabled, and to enable it otherwise.
pub fn startup_menu_text(enabled: bool) -> (result: &'static str)
    ensures
        enabled ==> result@ == DISABLE_STARTUP@,
        !enabled ==> result@ == ENABLE_STARTUP@,
{
    if enabled {
        DISABLE_STARTUP
    } else {
        ENABLE_STARTUP
    }
}

/// How the configuration file changed on disk.
#[derive(Debug, Clone, Copy, PartialEq, Eq, Structural)]
pub enum FileChange {
    /// Its content or metadata changed.
    Modified,
    /// It was created, removed, accessed, or changed in another way.
    Other,
}

/// The configuration is read again only when its file was modified.
pub fn reloads_configuration(change: FileChange) -> (result: bool)
    ensures
        result == (change == FileChange::Modified),
{
    match change {
        FileChange::Modified => true,
        FileChange::Other => false,
    }
}

/// Whether the tray icon is set once more after the theme changed, given how
/// many attempts were made and whether the last one succeeded: attempts go on
/// until one succeeds or `RETRY_COUNT` were made.
pub fn retries_icon(attempts_made: u8, last_succeeded: bool) -> (result: bool)
    ensures
        result == (!last_succeeded && attempts_made < RETRY_COUNT),
{
    !last_succeeded && attempts_made < RETRY_COUNT
}

} // verus!
