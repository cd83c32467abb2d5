pub mod audio_session;
pub mod audio_session_collection;
pub mod audio_session_events_handler;
pub mod audio_session_manager;
pub mod device;
pub mod device_collection;
pub mod device_enumerator;
pub mod device_manager;
pub mod mmnotification_client;
pub mod simple_audio_volume;

pub use audio_session_collection::{AudioSessionCollection, AudioSessionCollectionIterator};
pub use device::DeviceSlim;
pub use device_collection::{DeviceCollection, DeviceCollectionIterator};
pub use simple_audio_volume::SimpleAudioVolume;
