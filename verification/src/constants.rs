use vstd::prelude::*;

pub mod menu_item_text;
pub mod set_icon_on_theme_change;

verus! {

/// Name under which a release build runs, registers itself and stores its files.
pub const APPLICATION_NAME: &'static str = "AudioLocker";

/// Name under which a build with debug assertions runs, registers itself and
/// stores its files, so that it does not clash with a release build.
pub const APPLICATION_NAME_DEBUG: &'static str = "AudioLocker-Debug";

/// The name the application goes by: the debug name in a build with debug
/// assertions, the release name otherwise.
pub fn application_name(debug_build: bool) -> (result: &'static str)
    ensures
        debug_build ==> result@ == APPLICATION_NAME_DEBUG@,
        !debug_build ==> result@ == APPLICATION_NAME@,
{
    if debug_build {
        APPLICATION_NAME_DEBUG
    } else {
        APPLICATION_NAME
    }
}

/// File name of the configuration file.
pub const CONFIGURATION_FILENAME: &'static str = "settings.json";

/// Volume level, in percent, given to a session the first time it is seen.
pub const DEFAULT_VOLUME_LEVEL: u8 = 10;

/// Registry key, below the current user, that lists the programs started at log-on.
pub const WINDOWS_REGISTRY_AUTO_RUN_PATH: &'static str = "SOFTWARE\\Microsoft\\Windows\\CurrentVersion\\Run";

} // verus!
