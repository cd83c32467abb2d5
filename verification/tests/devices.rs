use audio_locker::wrappers::device_enumerator::device_id_buffer;
use audio_locker::wrappers::device_manager::{accepts_device, DataFlow, DeviceRegistry, MMEvent};
use audio_locker::wrappers::mmnotification_client::{
    device_added_event, device_removed_event, device_state_event, DEVICE_STATE_ACTIVE, DEVICE_STATE_DISABLED,
    DEVICE_STATE_NOTPRESENT, DEVICE_STATE_UNPLUGGED,
};
use audio_locker::wrappers::{
    AudioSessionCollection, DeviceCollection, DeviceSlim, SimpleAudioVolume,
};

fn wide(s: &str) -> Vec<u16> {
    s.encode_utf16().chain([0]).collect()
}

#[test]
fn device_id_buffer_matches_utf16() {
    let id = "{0.0.0.00000000}.{5a3c2b1e-9f0d-4e7a-8b6c-1d2e3f4a5b6c}";
    assert_eq!(device_id_buffer(id), wide(id));
    assert_eq!(device_id_buffer(""), vec![0]);
    assert_eq!(device_id_buffer("A"), vec![65, 0]);
    assert_eq!(device_id_buffer("é€"), vec![0xE9, 0x20AC, 0]);
    assert_eq!(device_id_buffer("😀"), vec![0xD83D, 0xDE00, 0]);
    assert_eq!(device_id_buffer("x😀y"), wide("x😀y"));
}

#[test]
fn only_render_devices_are_accepted() {
    assert!(accepts_device(DataFlow::Render));
    assert!(!accepts_device(DataFlow::Capture));
    assert!(!accepts_device(DataFlow::All));
}

#[test]
fn device_registry_replaces_and_removes() {
    let mut devices: DeviceRegistry<u8> = DeviceRegistry::new();
    assert_eq!(devices.insert("Speakers".to_string(), 1), None);
    assert_eq!(devices.insert("Speakers".to_string(), 2), Some(1));
    assert_eq!(devices.get("Speakers"), Some(&2));
    assert_eq!(devices.names(), vec!["Speakers".to_string()]);
    assert_eq!(devices.remove("Speakers"), Some(2));
    assert_eq!(devices.remove("Speakers"), None);
    assert!(devices.names().is_empty());
}

#[test]
fn notifications_route_states() {
    assert!(matches!(device_added_event(true, "x".to_string()), Some(MMEvent::DeviceAdded(id)) if id == "x"));
    assert!(device_added_event(false, "x".to_string()).is_none());
    assert!(matches!(device_removed_event(true, "x".to_string()), Some(MMEvent::DeviceRemoved(id)) if id == "x"));
    assert!(device_removed_event(false, "x".to_string()).is_none());
    assert!(matches!(
        device_state_event(true, "x".to_string(), DEVICE_STATE_UNPLUGGED),
        Some(MMEvent::DeviceRemoved(_))
    ));
    assert!(matches!(
        device_state_event(true, "x".to_string(), DEVICE_STATE_NOTPRESENT),
        Some(MMEvent::DeviceRemoved(_))
    ));
    assert!(matches!(device_state_event(true, "x".to_string(), DEVICE_STATE_ACTIVE), Some(MMEvent::DeviceAdded(_))));
    assert!(device_state_event(true, "x".to_string(), DEVICE_STATE_DISABLED).is_none());
    assert!(device_state_event(false, "x".to_string(), DEVICE_STATE_ACTIVE).is_none());
}

#[test]
fn session_collection_walks_positions() {
    let collection = AudioSessionCollection::new("enumerator");
    assert_eq!(*collection.enumerator(), "enumerator");
    let mut it = collection.iter();
    assert_eq!(it.index(), 0);
    assert_eq!(it.next_index(None), None);
    assert_eq!(it.next_index(Some(2)), Some(0));
    assert_eq!(it.next_index(Some(2)), Some(1));
    assert_eq!(it.next_index(Some(2)), None);
    assert_eq!(it.index(), 2);
    assert_eq!(*it.collection().enumerator(), "enumerator");
}

#[test]
fn device_collection_walks_positions() {
    let collection = DeviceCollection::new(7u8, "config");
    assert_eq!(*collection.collection(), 7);
    assert_eq!(*collection.config(), "config");
    let mut it = collection.iter();
    assert_eq!(it.next_index(Some(0)), None);
    assert_eq!(it.next_index(Some(1)), Some(0));
    assert_eq!(it.next_index(Some(1)), None);
    assert_eq!(*it.owner().collection(), 7);
}

#[test]
fn holders_keep_their_parts() {
    let volume = SimpleAudioVolume::new(42u32);
    assert_eq!(*volume.audio_volume(), 42);
    let slim = DeviceSlim::from_parts("device", "store");
    assert_eq!(*slim.device(), "device");
    assert_eq!(*slim.property_store(), "store");
}

#[test]
fn device_id_buffer_has_a_single_terminator() {
    let buffer = device_id_buffer("SWD\\MMDEVAPI\\{0.0.0.00000000}.{é😀}");
    assert_eq!(buffer.last(), Some(&0));
    assert_eq!(buffer.iter().filter(|u| **u == 0).count(), 1);
}

use audio_locker::wrappers::device_manager::{
    addition_step, device_event_step, AdditionReport, AdditionStep, DeviceAction,
};
use audio_locker::wrappers::mmnotification_client::NotificationGate;

#[test]
fn device_event_steps() {
    assert!(matches!(device_event_step(MMEvent::DeviceAdded("a".to_string())), DeviceAction::OpenDevice(i) if i == "a"));
    assert!(matches!(device_event_step(MMEvent::DeviceRemoved("b".to_string())), DeviceAction::ForgetDevice(i) if i == "b"));
    assert!(matches!(device_event_step(MMEvent::Exit), DeviceAction::Stop));
}

fn addition(flow: DataFlow, sessions_ok: bool, written: bool) -> AdditionStep {
    let mut step = addition_step(AdditionReport::DataFlowRead(flow));
    if step == AdditionStep::InitializeSessions {
        step = addition_step(AdditionReport::SessionsInitialized(sessions_ok));
    }
    if step == AdditionStep::WriteConfiguration {
        step = addition_step(AdditionReport::ConfigurationWritten(written));
    }
    step
}

#[test]
fn device_is_held_only_when_every_step_succeeds() {
    assert_eq!(addition(DataFlow::Render, true, true), AdditionStep::Insert);
    assert_eq!(addition(DataFlow::Render, true, false), AdditionStep::Abandon);
    assert_eq!(addition(DataFlow::Render, false, true), AdditionStep::Abandon);
    assert_eq!(addition(DataFlow::Capture, true, true), AdditionStep::Abandon);
    assert_eq!(addition(DataFlow::All, true, true), AdditionStep::Abandon);
}

#[test]
fn gate_silences_until_enabled() {
    let mut gate = NotificationGate::new(true);
    assert!(gate.device_added("x".to_string()).is_some());
    gate.disable();
    assert!(gate.device_added("x".to_string()).is_none());
    assert!(gate.device_removed("x".to_string()).is_none());
    assert!(gate.device_state_changed("x".to_string(), DEVICE_STATE_ACTIVE).is_none());
    assert!(!gate.is_enabled());
    gate.enable();
    assert!(matches!(gate.device_added("x".to_string()), Some(MMEvent::DeviceAdded(id)) if id == "x"));
    assert!(matches!(gate.device_state_changed("y".to_string(), DEVICE_STATE_UNPLUGGED), Some(MMEvent::DeviceRemoved(id)) if id == "y"));
}

#[test]
fn walking_reads_each_position_once_in_order() {
    let collection = AudioSessionCollection::new(());
    let mut it = collection.iter();
    let mut read = Vec::new();
    for _ in 0..6 {
        if let Some(i) = it.next_index(Some(4)) {
            read.push(i);
        }
    }
    assert_eq!(read, vec![0, 1, 2, 3]);
    assert_eq!(it.index(), 4);
}
