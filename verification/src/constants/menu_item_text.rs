use vstd::prelude::*;

verus! {

/// Opens the configuration file.
pub const SETTINGS: &'static str = "Settings";
/// Registers the application to start at log-on.
pub const ENABLE_STARTUP: &'static str = "Enable AutoStart";
/// Stops the application from starting at log-on.
pub const DISABLE_STARTUP: &'static str = "Disable AutoStart";
/// Opens the logs directory.
pub const LOGS: &'static str = "Logs";
/// Quits the application.
pub const QUIT: &'static str = "Quit";

} // verus!
