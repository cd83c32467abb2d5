use vstd::prelude::*;

use crate::configuration::{
    session_lookup, with_session_registered, AudioSessionConfiguration, Configuration,
};
use crate::named_map::NamedMap;

verus! {

/// What happens to the audio sessions of one device, as the session manager of
/// that device receives it.  `S` is the handle of a live session.
pub enum AudioSessionEvents<S> {
    /// A session appeared.
    NewSession(S),
    /// The named session now plays at this volume level, in percent.
    VolumeChanged(String, u8),
    /// The named session was muted (`true`) or unmuted.
    MuteStateChanged(String, bool),
    /// The named session ended.
    SessionClosed(String),
    /// The manager shuts down.
    Exit,
}

/// What the session manager does in answer to an event.
pub enum SessionAction<S> {
    /// Name the new session and accept it.
    Initialize(S),
    /// Set the volume of the named session to this level, in percent.
    SetVolume(String, u8),
    /// The session was taken out of the manager; here is its handle, if it was there.
    Released(Option<S>),
    /// Nothing to do.
    Nothing,
    /// Stop handling events.
    Stop,
}

/// The volume level a session is set back to after it reported `reported`:
/// the configured level, unless the session is manual, has no settings, or
/// already plays at that level.
pub open spec fn corrected_volume(settings: Option<AudioSessionConfiguration>, reported: u8) -> Option<u8> {
    match settings {
        Some(c) => if !c.is_manual && c.volume_level != reported {
            Some(c.volume_level)
        } else {
            None
        },
        None => None,
    }
}

/// Computes the volume level a session is set back to after it reported `reported`.
pub fn volume_correction(settings: Option<AudioSessionConfiguration>, reported: u8) -> (result: Option<u8>)
    ensures
        result == corrected_volume(settings, reported),
{
    match settings {
        Some(c) => if !c.is_manual && c.volume_level != reported {
            Some(c.volume_level)
        } else {
            None
        },
        None => None,
    }
}

/// The sessions of one device that the manager keeps at their configured volume.
pub struct SessionRegistry<S> {
    device_name: String,
    sessions: NamedMap<S>,
}

/// The mathematical model of a `SessionRegistry`.
pub struct SessionRegistryView<S> {
    pub device_name: Seq<char>,
    pub sessions: Map<Seq<char>, S>,
}

impl<S> View for SessionRegistry<S> {
    type V = SessionRegistryView<S>;

    closed spec fn view(&self) -> SessionRegistryView<S> {
        SessionRegistryView { device_name: self.device_name@, sessions: self.sessions@ }
    }
}

/// Every session held by `sessions` has settings in `devices` under `device`.
pub open spec fn sessions_configured<S>(
    sessions: Map<Seq<char>, S>,
    devices: Map<Seq<char>, Map<Seq<char>, AudioSessionConfiguration>>,
    device: Seq<char>,
) -> bool {
    forall|name: Seq<char>| #[trigger]
        sessions.dom().contains(name) ==> session_lookup(devices, device, name) is Some
}

impl<S> SessionRegistry<S> {
    /// A manager for `device_name` that holds no session yet.
    pub fn new(device_name: String) -> (result: Self)
        ensures
            result@.device_name == device_name@,
            result@.sessions == Map::<Seq<char>, S>::empty(),
    {
        SessionRegistry { device_name, sessions: NamedMap::new() }
    }

    /// Name of the device whose sessions are managed.
    pub fn device_name(&self) -> (result: &str)
        ensures
            result@ == self@.device_name,
    {
        self.device_name.as_str()
    }

    /// Names of the sessions held, each once.
    pub fn session_names(&self) -> (result: Vec<String>)
        ensures
            forall|i: int, j: int|
                0 <= i < result@.len() && 0 <= j < result@.len() && i != j ==> #[trigger] result@[i]@
                    != #[trigger] result@[j]@,
            forall|k: Seq<char>|
                self@.sessions.dom().contains(k) <==> exists|i: int|
                    0 <= i < result@.len() && #[trigger] result@[i]@ == k,
    {
        self.sessions.names()
    }

    /// The session named `name`, if it is held.
    pub fn session(&self, name: &str) -> (result: Option<&S>)
        ensures
            match result {
                Some(s) => self@.sessions.dom().contains(name@) && *s == self@.sessions[name@],
                None => !self@.sessions.dom().contains(name@),
            },
    {
        self.sessions.get(name)
    }

    /// Whether no session named `name` is held yet, so that one by that name
    /// is to be initialized.
    pub fn is_vacant(&self, name: &str) -> (result: bool)
        ensures
            result == !self@.sessions.dom().contains(name@),
    {
        !self.sessions.contains(name)
    }

    /// Holds `session` under `name` when no session has that name yet;
    /// otherwise leaves the manager as it is and hands `session` back.
    pub fn accept(&mut self, name: String, session: S) -> (result: Option<S>)
        ensures
            final(self)@.device_name == old(self)@.device_name,
            old(self)@.sessions.dom().contains(name@) ==> final(self)@.sessions == old(self)@.sessions
                && result == Some(session),
            !old(self)@.sessions.dom().contains(name@) ==> final(self)@.sessions == old(
                self,
            )@.sessions.insert(name@, session) && result is None,
    {
        self.sessions.insert_vacant(name, session)
    }

    /// Registers the session `name` under this device in the configuration and
    /// holds `session` under that name, when no session has that name yet;
    /// otherwise changes nothing and hands `session` back.  Every held session
    /// keeps settings in the configuration.
    pub fn register_and_accept(&mut self, config: &mut Configuration, name: String, session: S) -> (result:
        Option<S>)
        ensures
            final(self)@.device_name == old(self)@.device_name,
            old(self)@.sessions.dom().contains(name@) ==> final(self)@.sessions == old(self)@.sessions
                && final(config)@ == old(config)@ && result == Some(session),
            !old(self)@.sessions.dom().contains(name@) ==> {
                &&& final(self)@.sessions == old(self)@.sessions.insert(name@, session)
                &&& final(config)@.path == old(config)@.path
                &&& final(config)@.data.default_volume_level == old(config)@.data.default_volume_level
                &&& final(config)@.data.devices == with_session_registered(
                    old(config)@.data.devices,
                    old(self)@.device_name,
                    name@,
                    old(config)@.data.default_volume_level,
                )
                &&& result is None
            },
            sessions_configured(old(self)@.sessions, old(config)@.data.devices, old(self)@.device_name)
                ==> sessions_configured(final(self)@.sessions, final(config)@.data.devices, final(self)@.device_name),
    {
        if self.sessions.contains(name.as_str()) {
            return Some(session);
        }
        let device_name = self.device_name.clone();
        config.register_session(device_name, name.clone());
        proof {
            if sessions_configured(old(self)@.sessions, old(config)@.data.devices, old(self)@.device_name) {
                law_accepted_sessions_configured(
                old(self)@.sessions,
                old(config)@.data.devices,
                old(self)@.device_name,
                name@,
                session,
                old(config)@.data.default_volume_level,
                );
            }
        }
        self.sessions.insert_vacant(name, session)
    }

    /// Handles one event: a new session is passed on to be initialized; a
    /// reported volume of a held session is answered with the configured level
    /// when they differ and the session is not manual; a closed session is
    /// taken out; mute changes are ignored; `Exit` stops the manager.
    pub fn handle_event(&mut self, config: &Configuration, event: AudioSessionEvents<S>) -> (result:
        SessionAction<S>)
        ensures
            final(self)@.device_name == old(self)@.device_name,
            sessions_configured(old(self)@.sessions, config@.data.devices, old(self)@.device_name)
                ==> sessions_configured(final(self)@.sessions, config@.data.devices, final(self)@.device_name),
            match event {
                AudioSessionEvents::NewSession(s) => final(self)@.sessions == old(self)@.sessions
                    && result == SessionAction::Initialize(s),
                AudioSessionEvents::VolumeChanged(name, reported) => {
                    &&& final(self)@.sessions == old(self)@.sessions
                    &&& match (if old(self)@.sessions.dom().contains(name@) {
                        corrected_volume(
                            session_lookup(config@.data.devices, old(self)@.device_name, name@),
                            reported,
                        )
                    } else {
                        None
                    }) {
                        Some(level) => result matches SessionAction::SetVolume(n, l) && n@ == name@
                            && l == level,
                        None => result is Nothing,
                    }
                },
                AudioSessionEvents::MuteStateChanged(_, _) => final(self)@.sessions == old(
                    self,
                )@.sessions && result is Nothing,
                AudioSessionEvents::SessionClosed(name) => {
                    &&& final(self)@.sessions == old(self)@.sessions.remove(name@)
                    &&& match result {
                        SessionAction::Released(Some(s)) => old(self)@.sessions.dom().contains(name@)
                            && s == old(self)@.sessions[name@],
                        SessionAction::Released(None) => !old(self)@.sessions.dom().contains(name@),
                        _ => false,
                    }
                },
                AudioSessionEvents::Exit => final(self)@.sessions == old(self)@.sessions
                    && result is Stop,
            },
    {
        match event {
            AudioSessionEvents::NewSession(s) => SessionAction::Initialize(s),
            AudioSessionEvents::VolumeChanged(name, reported) => {
                if self.sessions.contains(name.as_str()) {
                    let settings = config.get_session_config(self.device_name.as_str(), name.as_str());
                    match volume_correction(settings, reported) {
                        Some(level) => SessionAction::SetVolume(name, level),
                        None => SessionAction::Nothing,
                    }
                } else {
                    SessionAction::Nothing
                }
            },
            AudioSessionEvents::MuteStateChanged(_, _) => SessionAction::Nothing,
            AudioSessionEvents::SessionClosed(name) => {
                let released = self.sessions.take(name.as_str());
                proof {
                    if sessions_configured(old(self)@.sessions, config@.data.devices, old(self)@.device_name) {
                        law_closing_keeps_sessions_configured(
                            old(self)@.sessions,
                            config@.data.devices,
                            old(self)@.device_name,
                            name@,
                        );
                    }
                }
                SessionAction::Released(released)
            },
            AudioSessionEvents::Exit => SessionAction::Stop,
        }
    }
}

/// A correction never has to be corrected again: once a session plays at the
/// level it was set back to, the volume report that follows asks for nothing.
pub proof fn law_correction_settles(settings: Option<AudioSessionConfiguration>, reported: u8)
    ensures
        corrected_volume(settings, reported) matches Some(level) ==> corrected_volume(settings, level)
            is None,
{
}

/// A session marked manual is never set to another volume, whatever it reports.
pub proof fn law_manual_sessions_untouched(settings: AudioSessionConfiguration, reported: u8)
    requires
        settings.is_manual,
    ensures
        corrected_volume(Some(settings), reported) is None,
{
}

/// A session that is not manual is always brought to its configured level: a
/// report at any other level is answered with exactly that level.
pub proof fn law_automatic_sessions_enforced(settings: AudioSessionConfiguration, reported: u8)
    requires
        !settings.is_manual,
    ensures
        reported != settings.volume_level ==> corrected_volume(Some(settings), reported) == Some(
            settings.volume_level,
        ),
        reported == settings.volume_level ==> corrected_volume(Some(settings), reported) is None,
{
}

/// Registering a session in the configuration and then accepting it keeps
/// every held session configured: the registration keeps the settings that
/// were there and gives the new session settings of its own.
pub proof fn law_accepted_sessions_configured<S>(
    sessions: Map<Seq<char>, S>,
    devices: Map<Seq<char>, Map<Seq<char>, AudioSessionConfiguration>>,
    device: Seq<char>,
    name: Seq<char>,
    session: S,
    default_volume_level: u8,
)
    requires
        sessions_configured(sessions, devices, device),
    ensures
        sessions_configured(
            sessions.insert(name, session),
            with_session_registered(devices, device, name, default_volume_level),
            device,
        ),
{
    let after = with_session_registered(devices, device, name, default_volume_level);
    assert forall|n: Seq<char>| #[trigger] sessions.insert(name, session).dom().contains(n) implies session_lookup(
        after,
        device,
        n,
    ) is Some by {
        if n != name {
            assert(sessions.dom().contains(n));
            assert(session_lookup(devices, device, n) is Some);
        }
    }
}

/// Closing a session keeps every remaining session configured.
pub proof fn law_closing_keeps_sessions_configured<S>(
    sessions: Map<Seq<char>, S>,
    devices: Map<Seq<char>, Map<Seq<char>, AudioSessionConfiguration>>,
    device: Seq<char>,
    name: Seq<char>,
)
    requires
        sessions_configured(sessions, devices, device),
    ensures
        sessions_configured(sessions.remove(name), devices, device),
{
    assert forall|n: Seq<char>| #[trigger] sessions.remove(name).dom().contains(n) implies session_lookup(
        devices,
        device,
        n,
    ) is Some by {
        assert(sessions.dom().contains(n));
    }
}

} // verus!
