use audio_locker::constants::application_name;
use audio_locker::constants::menu_item_text::{DISABLE_STARTUP, ENABLE_STARTUP};
use audio_locker::logging::get_logging_directory;
use audio_locker::registry::{enabled_after, startup_change, StartupChange};
use audio_locker::tray::{
    menu_action, reloads_configuration, retries_icon, startup_menu_text, FileChange, MenuItemKind, TrayAction,
};
use audio_locker::utils::{configuration_file_location, get_icon_for_theme, ConfigurationLocation, IconKind, Theme};

#[test]
fn logging_directory_below_appdata() {
    assert_eq!(
        get_logging_directory("C:\\Users\\me\\AppData\\Roaming", "AudioLocker"),
        "C:\\Users\\me\\AppData\\Roaming/AudioLocker/logs"
    );
}

#[test]
fn icon_for_theme() {
    assert_eq!(get_icon_for_theme(Theme::Light), IconKind::Light);
    assert_eq!(get_icon_for_theme(Theme::Dark), IconKind::Dark);
    assert_eq!(get_icon_for_theme(Theme::Unknown), IconKind::Light);
}

#[test]
fn configuration_location_order() {
    assert!(matches!(
        configuration_file_location(Some("C:\\app\\settings.json".to_string()), Some("C:\\AppData".to_string())),
        ConfigurationLocation::NearExecutable(p) if p == "C:\\app\\settings.json"
    ));
    assert!(matches!(
        configuration_file_location(None, Some("C:\\AppData".to_string())),
        ConfigurationLocation::AppData(a) if a == "C:\\AppData"
    ));
    assert!(matches!(configuration_file_location::<String>(None, None), ConfigurationLocation::NearExecutableMissing));
}

#[test]
fn startup_toggle() {
    assert_eq!(startup_change(true), StartupChange::RemoveEntry);
    assert_eq!(startup_change(false), StartupChange::AddEntry);
    assert!(!enabled_after(startup_change(true)));
    assert!(enabled_after(startup_change(false)));
    assert_eq!(startup_menu_text(true), DISABLE_STARTUP);
    assert_eq!(startup_menu_text(false), ENABLE_STARTUP);
    assert_eq!(startup_menu_text(enabled_after(startup_change(false))), "Disable AutoStart");
}

#[test]
fn tray_decisions() {
    assert_eq!(menu_action(MenuItemKind::Quit), TrayAction::Exit);
    assert_eq!(menu_action(MenuItemKind::Settings), TrayAction::OpenConfiguration);
    assert_eq!(menu_action(MenuItemKind::Startup), TrayAction::ToggleStartup);
    assert_eq!(menu_action(MenuItemKind::Logs), TrayAction::OpenLogs);
    assert_eq!(menu_action(MenuItemKind::Other), TrayAction::Nothing);
    assert!(reloads_configuration(FileChange::Modified));
    assert!(!reloads_configuration(FileChange::Other));
    assert!(retries_icon(0, false));
    assert!(retries_icon(2, false));
    assert!(!retries_icon(3, false));
    assert!(!retries_icon(1, true));
}

#[test]
fn two_toggles_restore_start_up() {
    for present in [true, false] {
        let first = enabled_after(startup_change(present));
        let second = enabled_after(startup_change(first));
        assert_eq!(first, !present);
        assert_eq!(second, present);
    }
}

#[test]
fn application_name_per_build() {
    assert_eq!(application_name(false), "AudioLocker");
    assert_eq!(application_name(true), "AudioLocker-Debug");
    assert_eq!(get_logging_directory("C:\\AppData", application_name(true)), "C:\\AppData/AudioLocker-Debug/logs");
}
