use audio_locker::configuration::{
    choose_process_name, creates_missing_file, process_name_from, ProcessNames, strip_exe_suffix, AudioConfiguration, AudioSessionConfiguration,
    Configuration, DeviceConfiguration, ReadFailure,
};
use audio_locker::constants::DEFAULT_VOLUME_LEVEL;

fn fresh(level: u8) -> AudioSessionConfiguration {
    AudioSessionConfiguration { volume_level: level, is_manual: false }
}

#[test]
fn new_default_has_default_level_and_no_devices() {
    let config = AudioConfiguration::new_default();
    assert_eq!(config.default_volume_level(), DEFAULT_VOLUME_LEVEL);
    assert_eq!(config.default_volume_level(), 10);
    assert!(config.device_names().is_empty());
}

#[test]
fn register_session_gives_default_settings() {
    let mut config = Configuration::new(AudioConfiguration::new(25), "settings.json".to_string());
    assert_eq!(config.get_session_config("Speakers", "Firefox"), None);
    config.register_session("Speakers".to_string(), "Firefox".to_string());
    assert_eq!(config.get_session_config("Speakers", "Firefox"), Some(fresh(25)));
    assert_eq!(config.get_session_config("Speakers", "Discord"), None);
    assert_eq!(config.get_session_config("Headphones", "Firefox"), None);
}

#[test]
fn register_session_keeps_existing_settings() {
    let mut data = AudioConfiguration::new(10);
    let mut device = DeviceConfiguration::new();
    let manual = AudioSessionConfiguration { volume_level: 70, is_manual: true };
    device.set_session("Spotify".to_string(), manual);
    data.set_device("Speakers".to_string(), device);
    let mut config = Configuration::new(data, "c.json".to_string());
    config.register_session("Speakers".to_string(), "Spotify".to_string());
    assert_eq!(config.get_session_config("Speakers", "Spotify"), Some(manual));
    config.register_session("Speakers".to_string(), "Teams".to_string());
    assert_eq!(config.get_session_config("Speakers", "Spotify"), Some(manual));
    assert_eq!(config.get_session_config("Speakers", "Teams"), Some(fresh(10)));
    let mut names = config.data().device("Speakers").unwrap().session_names();
    names.sort();
    assert_eq!(names, vec!["Spotify".to_string(), "Teams".to_string()]);
}

#[test]
fn register_session_twice_changes_nothing() {
    let mut config = Configuration::new(AudioConfiguration::new(40), "c.json".to_string());
    config.register_session("D".to_string(), "S".to_string());
    config.register_session("D".to_string(), "S".to_string());
    assert_eq!(config.data().device_names(), vec!["D".to_string()]);
    assert_eq!(config.data().device("D").unwrap().session_names(), vec!["S".to_string()]);
    assert_eq!(config.get_session_config("D", "S"), Some(fresh(40)));
}

#[test]
fn replace_data_keeps_path() {
    let mut config = Configuration::new(AudioConfiguration::new(10), "some/path.json".to_string());
    config.register_session("D".to_string(), "S".to_string());
    config.replace_data(AudioConfiguration::new(55));
    assert_eq!(config.get_file_path(), "some/path.json");
    assert_eq!(config.get_session_config("D", "S"), None);
    assert_eq!(config.data().default_volume_level(), 55);
}

#[test]
fn strip_exe_suffix_removes_one_suffix() {
    assert_eq!(strip_exe_suffix("firefox.exe"), "firefox");
    assert_eq!(strip_exe_suffix("firefox"), "firefox");
    assert_eq!(strip_exe_suffix("a.exe.exe"), "a.exe");
    assert_eq!(strip_exe_suffix(".exe"), "");
    assert_eq!(strip_exe_suffix("exe"), "exe");
    assert_eq!(strip_exe_suffix("firefox.EXE"), "firefox.EXE");
    assert_eq!(strip_exe_suffix("ünï.exe"), "ünï");
}

#[test]
fn process_name_prefers_product_name() {
    assert_eq!(
        choose_process_name(Some("Mozilla Firefox".to_string()), Some("firefox.exe".to_string())),
        Some("Mozilla Firefox".to_string())
    );
    assert_eq!(choose_process_name(None, Some("firefox.exe".to_string())), Some("firefox".to_string()));
    assert_eq!(choose_process_name(None, None), None);
    assert_eq!(choose_process_name(Some("X".to_string()), None), Some("X".to_string()));
}

#[test]
fn missing_file_is_created_only_when_asked() {
    assert!(creates_missing_file(ReadFailure::NotFound, true));
    assert!(!creates_missing_file(ReadFailure::NotFound, false));
    assert!(!creates_missing_file(ReadFailure::Other, true));
    assert!(!creates_missing_file(ReadFailure::Other, false));
}

#[test]
fn process_name_of_running_process() {
    let mut config = Configuration::new(AudioConfiguration::new_default(), "c.json".to_string());
    let own = sysinfo::get_current_pid().expect("own pid").as_u32();
    let name = config.get_process_name(own, |_| None);
    let name = name.expect("the running test process is in the process table");
    assert!(!name.is_empty());
    assert!(!name.ends_with(".exe"));
    let product = config.get_process_name(own, |_| Some("Product".to_string()));
    assert_eq!(product, Some("Product".to_string()));
}

#[test]
fn process_name_of_missing_process() {
    let mut config = Configuration::new(AudioConfiguration::new_default(), "c.json".to_string());
    assert_eq!(config.get_process_name(u32::MAX - 7, |_| Some("never".to_string())), None);
}

#[test]
fn process_name_from_table_entry() {
    let entry = |exe: Option<&str>, name: Option<&str>| {
        Some(ProcessNames { exe_path: exe.map(|e| e.to_string()), name: name.map(|n| n.to_string()) })
    };
    assert_eq!(process_name_from(None, |_| Some("X".to_string())), None);
    assert_eq!(
        process_name_from(entry(Some("C:\\a\\game.exe"), Some("game.exe")), |p| Some(format!("product of {p}"))),
        Some("product of C:\\a\\game.exe".to_string())
    );
    assert_eq!(process_name_from(entry(Some("C:\\a\\game.exe"), Some("game.exe")), |_| None), Some("game".to_string()));
    assert_eq!(process_name_from(entry(None, Some("game.exe")), |_| Some("never".to_string())), Some("game".to_string()));
    assert_eq!(process_name_from(entry(None, None), |_| None), None);
}
