use vstd::prelude::*;

verus! {

/// Theme of the desktop the tray icon is shown on.
#[derive(Debug, Clone, Copy, PartialEq, Eq, Structural)]
pub enum Theme {
    Light,
    Dark,
    /// A theme this application does not know.
    Unknown,
}

/// The two tray icons the application ships.
#[derive(Debug, Clone, Copy, PartialEq, Eq, Structural)]
pub enum IconKind {
    Light,
    Dark,
}

/// The icon shown for a theme: the light icon on a light theme and on a theme
/// that is not known, the dark icon on a dark theme.
pub fn get_icon_for_theme(theme: Theme) -> (result: IconKind)
    ensures
        result == (if theme == Theme::Dark {
            IconKind::Dark
        } else {
            IconKind::Light
        }),
{
    match theme {
        Theme::Light => IconKind::Light,
        Theme::Dark => IconKind::Dark,
        Theme::Unknown => IconKind::Light,
    }
}

/// Where the configuration file is looked for; `P` is a path.
pub enum ConfigurationLocation<P> {
    /// The file next to the executable, which exists, at this canonical path.
    NearExecutable(P),
    /// The file in the application's folder below this roaming application
    /// data directory.
    AppData(P),
    /// The file next to the executable, which does not exist yet.
    NearExecutableMissing,
}

/// Picks where the configuration file is: next to the executable when it
/// exists there (`near_exe_canonical` is its canonical path), otherwise in the
/// application's folder when the roaming application data directory is known,
/// otherwise next to the executable.
pub fn configuration_file_location<P>(near_exe_canonical: Option<P>, appdata: Option<P>) -> (result:
    ConfigurationLocation<P>)
    ensures
        result == (match near_exe_canonical {
            Some(p) => ConfigurationLocation::NearExecutable(p),
            None => match appdata {
                Some(a) => ConfigurationLocation::AppData(a),
                None => ConfigurationLocation::NearExecutableMissing,
            },
        }),
{
    match near_exe_canonical {
        Some(p) => ConfigurationLocation::NearExecutable(p),
        None => match appdata {
            Some(a) => ConfigurationLocation::AppData(a),
            None => ConfigurationLocation::NearExecutableMissing,
        },
    }
}

} // verus!
