use vstd::prelude::*;

use crate::wrappers::audio_session_manager::AudioSessionEvents;

verus! {

/// The session is inactive.
pub const AUDIO_SESSION_STATE_INACTIVE: i32 = 0;
/// The session is active.
pub const AUDIO_SESSION_STATE_ACTIVE: i32 = 1;
/// The session has expired.
pub const AUDIO_SESSION_STATE_EXPIRED: i32 = 2;

/// The event forwarded when the session `name` changes state: only an expired
/// session is reported, as closed.
pub fn session_state_event<S>(name: String, new_state: i32) -> (result: Option<AudioSessionEvents<S>>)
    ensures
        new_state == AUDIO_SESSION_STATE_EXPIRED ==> (result matches Some(
            AudioSessionEvents::SessionClosed(n),
        ) && n@ == name@),
        new_state != AUDIO_SESSION_STATE_EXPIRED ==> result is None,
{
    if new_state == AUDIO_SESSION_STATE_EXPIRED {
        Some(AudioSessionEvents::SessionClosed(name))
    } else {
        None
    }
}

/// The event forwarded when the session `name` is disconnected, whatever the
/// reason: the session is reported as closed.
pub fn session_disconnected_event<S>(name: String) -> (result: AudioSessionEvents<S>)
    ensures
        result matches AudioSessionEvents::SessionClosed(n) && n@ == name@,
{
    AudioSessionEvents::SessionClosed(name)
}

} // verus!
