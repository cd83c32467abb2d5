use audio_locker::configuration::{AudioConfiguration, AudioSessionConfiguration, Configuration, DeviceConfiguration};
use audio_locker::wrappers::audio_session::{
    needs_process_name, session_name, system_sounds_name, EventHandlerSlot,
};
use audio_locker::wrappers::audio_session_events_handler::{
    session_disconnected_event, session_state_event, AUDIO_SESSION_STATE_ACTIVE, AUDIO_SESSION_STATE_EXPIRED,
    AUDIO_SESSION_STATE_INACTIVE,
};
use audio_locker::wrappers::audio_session_manager::{
    volume_correction, AudioSessionEvents, SessionAction, SessionRegistry,
};

fn config_with(session: &str, level: u8, manual: bool) -> Configuration {
    let mut data = AudioConfiguration::new(10);
    let mut device = DeviceConfiguration::new();
    device.set_session(session.to_string(), AudioSessionConfiguration { volume_level: level, is_manual: manual });
    data.set_device("Speakers".to_string(), device);
    Configuration::new(data, "c.json".to_string())
}

#[test]
fn volume_correction_values() {
    let auto = AudioSessionConfiguration { volume_level: 30, is_manual: false };
    let manual = AudioSessionConfiguration { volume_level: 30, is_manual: true };
    assert_eq!(volume_correction(Some(auto), 80), Some(30));
    assert_eq!(volume_correction(Some(auto), 30), None);
    assert_eq!(volume_correction(Some(manual), 80), None);
    assert_eq!(volume_correction(None, 80), None);
}

#[test]
fn volume_changed_of_held_session_is_corrected() {
    let config = config_with("Game", 20, false);
    let mut registry: SessionRegistry<u8> = SessionRegistry::new("Speakers".to_string());
    assert_eq!(registry.accept("Game".to_string(), 7), None);
    match registry.handle_event(&config, AudioSessionEvents::VolumeChanged("Game".to_string(), 90)) {
        SessionAction::SetVolume(name, level) => {
            assert_eq!(name, "Game");
            assert_eq!(level, 20);
        }
        _ => panic!("expected a volume correction"),
    }
    assert!(matches!(
        registry.handle_event(&config, AudioSessionEvents::VolumeChanged("Game".to_string(), 20)),
        SessionAction::Nothing
    ));
}

#[test]
fn manual_and_unknown_sessions_are_left_alone() {
    let config = config_with("Music", 20, true);
    let mut registry: SessionRegistry<u8> = SessionRegistry::new("Speakers".to_string());
    registry.accept("Music".to_string(), 1);
    assert!(matches!(
        registry.handle_event(&config, AudioSessionEvents::VolumeChanged("Music".to_string(), 99)),
        SessionAction::Nothing
    ));
    assert!(matches!(
        registry.handle_event(&config, AudioSessionEvents::VolumeChanged("Other".to_string(), 99)),
        SessionAction::Nothing
    ));
    assert!(matches!(
        registry.handle_event(&config, AudioSessionEvents::MuteStateChanged("Music".to_string(), true)),
        SessionAction::Nothing
    ));
}

#[test]
fn closed_session_is_released() {
    let config = config_with("Game", 20, false);
    let mut registry: SessionRegistry<u8> = SessionRegistry::new("Speakers".to_string());
    registry.accept("Game".to_string(), 5);
    assert_eq!(registry.accept("Game".to_string(), 6), Some(6));
    assert_eq!(registry.session("Game"), Some(&5));
    match registry.handle_event(&config, AudioSessionEvents::SessionClosed("Game".to_string())) {
        SessionAction::Released(Some(s)) => assert_eq!(s, 5),
        _ => panic!("expected the session back"),
    }
    assert!(registry.is_vacant("Game"));
    assert!(matches!(
        registry.handle_event(&config, AudioSessionEvents::SessionClosed("Game".to_string())),
        SessionAction::Released(None)
    ));
    assert!(matches!(
        registry.handle_event(&config, AudioSessionEvents::VolumeChanged("Game".to_string(), 90)),
        SessionAction::Nothing
    ));
}

#[test]
fn new_session_and_exit() {
    let config = config_with("Game", 20, false);
    let mut registry: SessionRegistry<u8> = SessionRegistry::new("Speakers".to_string());
    assert_eq!(registry.device_name(), "Speakers");
    assert!(matches!(registry.handle_event(&config, AudioSessionEvents::NewSession(3)), SessionAction::Initialize(3)));
    assert!(matches!(registry.handle_event(&config, AudioSessionEvents::Exit), SessionAction::Stop));
    assert!(registry.session_names().is_empty());
}

#[test]
fn session_names() {
    assert_eq!(system_sounds_name(), "System Sounds");
    assert!(needs_process_name(""));
    assert!(!needs_process_name("Chrome"));
    assert_eq!(session_name("Chrome".to_string(), Some("chrome".to_string())), "Chrome");
    assert_eq!(session_name(String::new(), Some("Firefox".to_string())), "Firefox");
    assert_eq!(session_name(String::new(), None), "");
}

#[test]
fn session_state_changes() {
    assert!(matches!(
        session_state_event::<u8>("A".to_string(), AUDIO_SESSION_STATE_EXPIRED),
        Some(AudioSessionEvents::SessionClosed(n)) if n == "A"
    ));
    assert!(session_state_event::<u8>("A".to_string(), AUDIO_SESSION_STATE_ACTIVE).is_none());
    assert!(session_state_event::<u8>("A".to_string(), AUDIO_SESSION_STATE_INACTIVE).is_none());
    assert!(matches!(
        session_disconnected_event::<u8>("B".to_string()),
        AudioSessionEvents::SessionClosed(n) if n == "B"
    ));
}

#[test]
fn handler_slot() {
    let mut slot: EventHandlerSlot<u8> = EventHandlerSlot::new();
    assert!(slot.needs_registration());
    assert_eq!(slot.registered(), None);
    slot.store(4);
    assert!(!slot.needs_registration());
    assert_eq!(slot.registered(), Some(&4));
    assert_eq!(slot.take(), Some(4));
    assert_eq!(slot.take(), None);
}

#[test]
fn register_and_accept_configures_the_session() {
    let mut config = Configuration::new(AudioConfiguration::new(15), "c.json".to_string());
    let mut registry: SessionRegistry<u8> = SessionRegistry::new("Speakers".to_string());
    assert_eq!(registry.register_and_accept(&mut config, "Game".to_string(), 1), None);
    assert_eq!(
        config.get_session_config("Speakers", "Game"),
        Some(AudioSessionConfiguration { volume_level: 15, is_manual: false })
    );
    assert_eq!(registry.session("Game"), Some(&1));
    assert_eq!(registry.register_and_accept(&mut config, "Game".to_string(), 2), Some(2));
    assert_eq!(registry.session("Game"), Some(&1));
}

#[test]
fn register_and_accept_keeps_manual_settings() {
    let mut config = config_with("Music", 70, true);
    let mut registry: SessionRegistry<u8> = SessionRegistry::new("Speakers".to_string());
    assert_eq!(registry.register_and_accept(&mut config, "Music".to_string(), 1), None);
    assert_eq!(
        config.get_session_config("Speakers", "Music"),
        Some(AudioSessionConfiguration { volume_level: 70, is_manual: true })
    );
}
