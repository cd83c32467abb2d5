use vstd::prelude::*;

use crate::constants::DEFAULT_VOLUME_LEVEL;
use crate::named_map::NamedMap;
use sysinfo::{Pid, ProcessRefreshKind, ProcessesToUpdate, RefreshKind, System, UpdateKind};

verus! {

/// What the configuration file holds for one audio session.
#[derive(Debug, Clone, Copy, PartialEq, Eq, Structural)]
pub struct AudioSessionConfiguration {
    /// Volume level, in percent, that the session is kept at.
    pub volume_level: u8,
    /// When set, the session is left alone and its volume is never corrected.
    pub is_manual: bool,
}

/// Sessions of one device, by session name.
pub struct DeviceConfiguration(NamedMap<AudioSessionConfiguration>);

/// Everything the configuration file holds.
pub struct AudioConfiguration {
    default_volume_level: u8,
    config: NamedMap<DeviceConfiguration>,
}

/// The mathematical model of an `AudioConfiguration`.
pub struct AudioConfigurationView {
    pub default_volume_level: u8,
    /// For each device name, the sessions of that device by session name.
    pub devices: Map<Seq<char>, Map<Seq<char>, AudioSessionConfiguration>>,
}

impl View for DeviceConfiguration {
    type V = Map<Seq<char>, AudioSessionConfiguration>;

    closed spec fn view(&self) -> Map<Seq<char>, AudioSessionConfiguration> {
        self.0@
    }
}

impl View for AudioConfiguration {
    type V = AudioConfigurationView;

    closed spec fn view(&self) -> AudioConfigurationView {
        AudioConfigurationView {
            default_volume_level: self.default_volume_level,
            devices: self.config@.map_values(|d: DeviceConfiguration| d@),
        }
    }
}

/// The settings a session gets when it is seen for the first time.
pub open spec fn fresh_session(default_volume_level: u8) -> AudioSessionConfiguration {
    AudioSessionConfiguration { volume_level: default_volume_level, is_manual: false }
}

/// The sessions stored for `device`, none when the device is unknown.
pub open spec fn sessions_of(
    devices: Map<Seq<char>, Map<Seq<char>, AudioSessionConfiguration>>,
    device: Seq<char>,
) -> Map<Seq<char>, AudioSessionConfiguration> {
    if devices.dom().contains(device) {
        devices[device]
    } else {
        Map::empty()
    }
}

/// The settings stored for `session` of `device`, if any.
pub open spec fn session_lookup(
    devices: Map<Seq<char>, Map<Seq<char>, AudioSessionConfiguration>>,
    device: Seq<char>,
    session: Seq<char>,
) -> Option<AudioSessionConfiguration> {
    if devices.dom().contains(device) && devices[device].dom().contains(session) {
        Some(devices[device][session])
    } else {
        None
    }
}

/// The device map after `session` of `device` has been registered: the device
/// entry exists afterwards, and the session gets the default settings unless it
/// already had settings, which are kept.
pub open spec fn with_session_registered(
    devices: Map<Seq<char>, Map<Seq<char>, AudioSessionConfiguration>>,
    device: Seq<char>,
    session: Seq<char>,
    default_volume_level: u8,
) -> Map<Seq<char>, Map<Seq<char>, AudioSessionConfiguration>> {
    let sessions = sessions_of(devices, device);
    if sessions.dom().contains(session) {
        devices.insert(device, sessions)
    } else {
        devices.insert(device, sessions.insert(session, fresh_session(default_volume_level)))
    }
}

impl DeviceConfiguration {
    /// A device with no sessions.
    pub fn new() -> (result: Self)
        ensures
            result@ == Map::<Seq<char>, AudioSessionConfiguration>::empty(),
    {
        DeviceConfiguration(NamedMap::new())
    }

    /// The settings of `session`, if the device has any for it.
    pub fn session(&self, session: &str) -> (result: Option<AudioSessionConfiguration>)
        ensures
            result == (if self@.dom().contains(session@) {
                Some(self@[session@])
            } else {
                None
            }),
    {
        match self.0.get(session) {
            Some(c) => Some(*c),
            None => None,
        }
    }

    /// Stores `settings` for `session`, replacing what was stored for it.
    pub fn set_session(&mut self, session: String, settings: AudioSessionConfiguration)
        ensures
            final(self)@ == old(self)@.insert(session@, settings),
    {
        let _ = self.0.insert(session, settings);
    }

    /// Names of the sessions of this device, each once.
    pub fn session_names(&self) -> (result: Vec<String>)
        ensures
            forall|i: int, j: int|
                0 <= i < result@.len() && 0 <= j < result@.len() && i != j ==> #[trigger] result@[i]@
                    != #[trigger] result@[j]@,
            forall|k: Seq<char>|
                self@.dom().contains(k) <==> exists|i: int| 0 <= i < result@.len() && #[trigger] result@[i]@ == k,
    {
        self.0.names()
    }
}

impl AudioConfiguration {
    /// A configuration with no devices, whose new sessions get `default_volume_level`.
    pub fn new(default_volume_level: u8) -> (result: Self)
        ensures
            result@.default_volume_level == default_volume_level,
            result@.devices == Map::<Seq<char>, Map<Seq<char>, AudioSessionConfiguration>>::empty(),
    {
        let result = AudioConfiguration { default_volume_level, config: NamedMap::new() };
        assert(result@.devices =~= Map::<Seq<char>, Map<Seq<char>, AudioSessionConfiguration>>::empty());
        result
    }

    /// The configuration written when no configuration file exists yet.
    pub fn new_default() -> (result: Self)
        ensures
            result@.default_volume_level == DEFAULT_VOLUME_LEVEL,
            result@.devices == Map::<Seq<char>, Map<Seq<char>, AudioSessionConfiguration>>::empty(),
    {
        Self::new(DEFAULT_VOLUME_LEVEL)
    }

    /// Volume level given to sessions seen for the first time.
    pub fn default_volume_level(&self) -> (result: u8)
        ensures
            result == self@.default_volume_level,
    {
        self.default_volume_level
    }

    /// Names of the devices, each once.
    pub fn device_names(&self) -> (result: Vec<String>)
        ensures
            forall|i: int, j: int|
                0 <= i < result@.len() && 0 <= j < result@.len() && i != j ==> #[trigger] result@[i]@
                    != #[trigger] result@[j]@,
            forall|k: Seq<char>|
                self@.devices.dom().contains(k) <==> exists|i: int|
                    0 <= i < result@.len() && #[trigger] result@[i]@ == k,
    {
        self.config.names()
    }

    /// The sessions stored for `device`, if the device is known.
    pub fn device(&self, device: &str) -> (result: Option<&DeviceConfiguration>)
        ensures
            match result {
                Some(d) => self@.devices.dom().contains(device@) && d@ == self@.devices[device@],
                None => !self@.devices.dom().contains(device@),
            },
    {
        self.config.get(device)
    }

    /// Stores `sessions` for `device`, replacing what was stored for it.
    pub fn set_device(&mut self, device: String, sessions: DeviceConfiguration)
        ensures
            final(self)@.default_volume_level == old(self)@.default_volume_level,
            final(self)@.devices == old(self)@.devices.insert(device@, sessions@),
    {
        let ghost s = sessions@;
        let _ = self.config.insert(device, sessions);
        assert(self@.devices =~= old(self)@.devices.insert(device@, s));
    }

    /// The settings of `session` of `device`, if the configuration holds any.
    pub fn session_config(&self, device: &str, session: &str) -> (result: Option<AudioSessionConfiguration>)
        ensures
            result == session_lookup(self@.devices, device@, session@),
    {
        match self.config.get(device) {
            Some(d) => d.session(session),
            None => None,
        }
    }

    /// Makes sure `session` of `device` has settings: a session seen for the
    /// first time gets the default volume level and is not manual; settings
    /// that are already there are kept.
    pub fn register_session(&mut self, device: String, session: String)
        ensures
            final(self)@.default_volume_level == old(self)@.default_volume_level,
            final(self)@.devices == with_session_registered(
                old(self)@.devices,
                device@,
                session@,
                old(self)@.default_volume_level,
            ),
            session_lookup(old(self)@.devices, device@, session@) is None ==> session_lookup(
                final(self)@.devices,
                device@,
                session@,
            ) == Some(
                AudioSessionConfiguration {
                    volume_level: old(self)@.default_volume_level,
                    is_manual: false,
                },
            ),
            session_lookup(old(self)@.devices, device@, session@) is Some ==> session_lookup(
                final(self)@.devices,
                device@,
                session@,
            ) == session_lookup(old(self)@.devices, device@, session@),
    {
        let default_volume_level: u8 = self.default_volume_level;
        let mut sessions = match self.config.take(device.as_str()) {
            Some(d) => d,
            None => DeviceConfiguration::new(),
        };
        let ghost before = sessions@;
        assert(before == sessions_of(old(self)@.devices, device@));
        let _ = sessions.0.insert_vacant(
            session,
            AudioSessionConfiguration { volume_level: default_volume_level, is_manual: false },
        );
        let _ = self.config.insert_vacant(device, sessions);
        assert(self@.devices =~= with_session_registered(
            old(self)@.devices,
            device@,
            session@,
            default_volume_level,
        ));
    }
}

/// Registering a session makes its settings present: it keeps the settings the
/// session had, and gives a session seen for the first time the default
/// volume level, not manual.
pub proof fn law_registration_makes_present(
    devices: Map<Seq<char>, Map<Seq<char>, AudioSessionConfiguration>>,
    device: Seq<char>,
    session: Seq<char>,
    default_volume_level: u8,
)
    ensures
        session_lookup(with_session_registered(devices, device, session, default_volume_level), device, session)
            == (match session_lookup(devices, device, session) {
            Some(c) => Some(c),
            None => Some(fresh_session(default_volume_level)),
        }),
{
}

/// A session seen for the first time gets exactly the default volume level of
/// the configuration, whatever that level is, and is not manual.
pub proof fn law_fresh_session_defaults(default_volume_level: u8)
    ensures
        fresh_session(default_volume_level).volume_level == default_volume_level,
        !fresh_session(default_volume_level).is_manual,
{
}

/// Registering a session changes the settings of no other session of any device.
pub proof fn law_registration_leaves_others(
    devices: Map<Seq<char>, Map<Seq<char>, AudioSessionConfiguration>>,
    device: Seq<char>,
    session: Seq<char>,
    default_volume_level: u8,
    other_device: Seq<char>,
    other_session: Seq<char>,
)
    requires
        other_device != device || other_session != session,
    ensures
        session_lookup(
            with_session_registered(devices, device, session, default_volume_level),
            other_device,
            other_session,
        ) == session_lookup(devices, other_device, other_session),
{
}

/// Registering a session a second time changes nothing.
pub proof fn law_registration_idempotent(
    devices: Map<Seq<char>, Map<Seq<char>, AudioSessionConfiguration>>,
    device: Seq<char>,
    session: Seq<char>,
    default_volume_level: u8,
)
    ensures
        with_session_registered(
            with_session_registered(devices, device, session, default_volume_level),
            device,
            session,
            default_volume_level,
        ) == with_session_registered(devices, device, session, default_volume_level),
{
    let once = with_session_registered(devices, device, session, default_volume_level);
    let twice = with_session_registered(once, device, session, default_volume_level);
    assert(sessions_of(once, device).dom().contains(session));
    assert(twice =~= once);
}

/// The process table of the machine, as `sysinfo` keeps it.
#[verifier::external_type_specification]
#[verifier::external_body]
pub struct ExSystem(System);

/// What the process table tells of one process.
pub struct ProcessNames {
    /// Path of the executable, when known and valid UTF-8.
    pub exe_path: Option<String>,
    /// Name of the process, when valid UTF-8.
    pub name: Option<String>,
}

/// What a process table holds: for each process identifier in it, the path of
/// the executable and the name of the process, each as text when it is known
/// and valid UTF-8.
pub uninterp spec fn process_table(system: System) -> Map<u32, (Option<Seq<char>>, Option<Seq<char>>)>;

/// Creates a process table through `sysinfo::System::new_with_specifics`,
/// asking for processes and none of their details.  Nothing is claimed of the
/// table: it reflects the machine.
#[verifier::external_body]
fn new_process_table() -> System {
    System::new_with_specifics(RefreshKind::nothing().with_processes(ProcessRefreshKind::nothing()))
}

/// Refreshes every process of the table through
/// `sysinfo::System::refresh_processes_specifics`, dropping dead processes and
/// reading executables not known yet.  Nothing is claimed of the refreshed
/// table: it reflects the machine.
#[verifier::external_body]
fn refresh_process_executables(system: &mut System) {
    system.refresh_processes_specifics(
        ProcessesToUpdate::All,
        true,
        ProcessRefreshKind::nothing().with_exe(UpdateKind::OnlyIfNotSet),
    );
}

/// Looks the process up through `sysinfo::System::process` and hands out its
/// executable path (`Process::exe`) and name (`Process::name`) as strings,
/// each dropped when it is not valid UTF-8.  Claimed: the lookup finds the
/// process exactly when the table holds its identifier, and hands out what the
/// table holds for it.
#[verifier::external_body]
fn process_names(system: &System, process_id: u32) -> (result: Option<ProcessNames>)
    ensures
        result is Some <==> process_table(*system).dom().contains(process_id),
        result matches Some(n) ==> (text_option(n.exe_path), text_option(n.name)) == process_table(
            *system,
        )[process_id],
{
    let process = system.process(Pid::from_u32(process_id))?;
    Some(
        ProcessNames {
            exe_path: process.exe().and_then(std::path::Path::to_str).map(str::to_owned),
            name: process.name().to_str().map(str::to_owned),
        },
    )
}

/// The characters of ".exe".
pub open spec fn exe_suffix() -> Seq<char> {
    seq!['.', 'e', 'x', 'e']
}

/// `s` without a trailing ".exe"; `s` itself when it does not end so.
pub open spec fn without_exe_suffix(s: Seq<char>) -> Seq<char> {
    if s.len() >= 4 && s.subrange(s.len() - 4, s.len() as int) == exe_suffix() {
        s.subrange(0, s.len() - 4)
    } else {
        s
    }
}

/// Removes one trailing ".exe" from a process name.
pub fn strip_exe_suffix(name: &str) -> (result: String)
    ensures
        result@ == without_exe_suffix(name@),
        name@.len() >= 4 && name@.subrange(name@.len() - 4, name@.len() as int) == seq!['.', 'e', 'x', 'e']
            ==> result@ + seq!['.', 'e', 'x', 'e'] == name@,
        !(name@.len() >= 4 && name@.subrange(name@.len() - 4, name@.len() as int) == seq![
            '.',
            'e',
            'x',
            'e',
        ]) ==> result@ == name@,
{
    let n: usize = name.unicode_len();
    if n >= 4 && name.get_char(n - 4) == '.' && name.get_char(n - 3) == 'e' && name.get_char(n - 2)
        == 'x' && name.get_char(n - 1) == 'e' {
        assert(name@.subrange(n - 4, n as int) =~= exe_suffix());
        name.substring_char(0, n - 4).to_owned()
    } else {
        assert(n >= 4 ==> name@.subrange(n - 4, n as int)[0] == name@[n - 4]);
        assert(n >= 4 ==> name@.subrange(n - 4, n as int)[1] == name@[n - 3]);
        assert(n >= 4 ==> name@.subrange(n - 4, n as int)[2] == name@[n - 2]);
        assert(n >= 4 ==> name@.subrange(n - 4, n as int)[3] == name@[n - 1]);
        name.to_owned()
    }
}

/// The characters of an optional string.
pub open spec fn text_option(o: Option<String>) -> Option<Seq<char>> {
    match o {
        Some(s) => Some(s@),
        None => None,
    }
}

/// Any name followed by ".exe" loses exactly that suffix, however long it is;
/// a name that does not end in ".exe" is kept as it is.
pub proof fn law_exe_suffix_removed(s: Seq<char>)
    ensures
        without_exe_suffix(s + seq!['.', 'e', 'x', 'e']) == s,
        !(s.len() >= 4 && s.subrange(s.len() - 4, s.len() as int) == seq!['.', 'e', 'x', 'e'])
            ==> without_exe_suffix(s) == s,
        s.len() >= 4 && s.subrange(s.len() - 4, s.len() as int) == seq!['.', 'e', 'x', 'e']
            ==> without_exe_suffix(s) + seq!['.', 'e', 'x', 'e'] == s,
{
    let t = s + seq!['.', 'e', 'x', 'e'];
    assert(t.subrange(t.len() - 4, t.len() as int) =~= seq!['.', 'e', 'x', 'e']);
    assert(t.subrange(0, t.len() - 4) =~= s);
    if s.len() >= 4 && s.subrange(s.len() - 4, s.len() as int) == seq!['.', 'e', 'x', 'e'] {
        assert(s.subrange(0, s.len() - 4) + seq!['.', 'e', 'x', 'e'] =~= s);
    }
}

/// The name shown for a process: the product name from its executable's file
/// information when there is one, otherwise its process name without ".exe".
pub open spec fn process_name_choice(product_name: Option<Seq<char>>, name: Option<Seq<char>>) -> Option<
    Seq<char>,
> {
    match product_name {
        Some(p) => Some(p),
        None => match name {
            Some(n) => Some(without_exe_suffix(n)),
            None => None,
        },
    }
}

/// Picks the name shown for a process from the product name of its executable
/// and its process name.
pub fn choose_process_name(product_name: Option<String>, name: Option<String>) -> (result: Option<String>)
    ensures
        text_option(result) == process_name_choice(text_option(product_name), text_option(name)),
        product_name is Some ==> text_option(result) == text_option(product_name),
        product_name is None && name is None ==> result is None,
        product_name is None && name is Some ==> ({
            let n = name->0@;
            &&& result is Some
            &&& (n.len() >= 4 && n.subrange(n.len() - 4, n.len() as int) == seq!['.', 'e', 'x', 'e'])
                ==> result->0@ + seq!['.', 'e', 'x', 'e'] == n
            &&& !(n.len() >= 4 && n.subrange(n.len() - 4, n.len() as int) == seq!['.', 'e', 'x', 'e'])
                ==> result->0@ == n
        }),
{
    match product_name {
        Some(p) => Some(p),
        None => match name {
            Some(n) => Some(strip_exe_suffix(n.as_str())),
            None => None,
        },
    }
}

/// Why reading the configuration file failed.
pub enum ReadFailure {
    /// The file does not exist.
    NotFound,
    /// Any other failure.
    Other,
}

/// Whether a failed read of the configuration file is answered by creating a
/// new file: only when the file is missing and creating it was asked for.
pub fn creates_missing_file(failure: ReadFailure, create: bool) -> (result: bool)
    ensures
        result == (failure is NotFound && create),
{
    match failure {
        ReadFailure::NotFound => create,
        ReadFailure::Other => false,
    }
}

/// The name shown for a process, given what the process table tells of it
/// (`None` when the process is not there): the product name that
/// `product_name_of` reads from its executable path, when there is a path and
/// the lookup finds one, or else its process name without ".exe".
pub fn process_name_from<F: Fn(&str) -> Option<String>>(names: Option<ProcessNames>, product_name_of: F) -> (result:
    Option<String>)
    requires
        forall|path: &str| #[trigger] product_name_of.requires((path,)),
    ensures
        match names {
            None => result is None,
            Some(n) => match n.exe_path {
                None => text_option(result) == process_name_choice(None, text_option(n.name)),
                Some(p) => exists|path: &str, product: Option<String>|
                    path@ == p@ && #[trigger] product_name_of.ensures((path,), product) && text_option(result)
                        == process_name_choice(text_option(product), text_option(n.name)),
            },
        },
{
    match names {
        None => None,
        Some(names) => match names.exe_path {
            Some(path) => {
                let product_name = product_name_of(path.as_str());
                choose_process_name(product_name, names.name)
            },
            None => choose_process_name(None, names.name),
        },
    }
}

/// The configuration in use, the path of its file, and the process table used
/// to name sessions.
pub struct Configuration {
    data: AudioConfiguration,
    config_path: String,
    system_information: System,
}

/// The mathematical model of a `Configuration`.
pub struct ConfigurationView {
    pub data: AudioConfigurationView,
    pub path: Seq<char>,
}

impl View for Configuration {
    type V = ConfigurationView;

    closed spec fn view(&self) -> ConfigurationView {
        ConfigurationView { data: self.data@, path: self.config_path@ }
    }
}

impl Configuration {
    /// What the process table used to name sessions holds.
    pub closed spec fn processes(&self) -> Map<u32, (Option<Seq<char>>, Option<Seq<char>>)> {
        process_table(self.system_information)
    }

    /// A configuration holding `data`, stored at `config_path`.
    pub fn new(data: AudioConfiguration, config_path: String) -> (result: Self)
        ensures
            result@.data == data@,
            result@.path == config_path@,
    {
        Configuration { data, config_path, system_information: new_process_table() }
    }

    /// Path of the configuration file.
    pub fn get_file_path(&self) -> (result: &str)
        ensures
            result@ == self@.path,
    {
        self.config_path.as_str()
    }

    /// The configuration data.
    pub fn data(&self) -> (result: &AudioConfiguration)
        ensures
            result@ == self@.data,
    {
        &self.data
    }

    /// Replaces the configuration data, as when the file was read again.
    pub fn replace_data(&mut self, data: AudioConfiguration)
        ensures
            final(self)@.data == data@,
            final(self)@.path == old(self)@.path,
    {
        self.data = data;
    }

    /// The settings of `session_id` on `device_id`, if the configuration holds any.
    pub fn get_session_config(&self, device_id: &str, session_id: &str) -> (result: Option<
        AudioSessionConfiguration,
    >)
        ensures
            result == session_lookup(self@.data.devices, device_id@, session_id@),
    {
        self.data.session_config(device_id, session_id)
    }

    /// Makes sure `session_id` of `device_id` has settings, keeping settings
    /// that are already there.
    pub fn register_session(&mut self, device_id: String, session_id: String)
        ensures
            final(self)@.path == old(self)@.path,
            final(self)@.data.default_volume_level == old(self)@.data.default_volume_level,
            final(self)@.data.devices == with_session_registered(
                old(self)@.data.devices,
                device_id@,
                session_id@,
                old(self)@.data.default_volume_level,
            ),
            session_lookup(old(self)@.data.devices, device_id@, session_id@) is None ==> session_lookup(
                final(self)@.data.devices,
                device_id@,
                session_id@,
            ) == Some(
                AudioSessionConfiguration {
                    volume_level: old(self)@.data.default_volume_level,
                    is_manual: false,
                },
            ),
            session_lookup(old(self)@.data.devices, device_id@, session_id@) is Some ==> session_lookup(
                final(self)@.data.devices,
                device_id@,
                session_id@,
            ) == session_lookup(old(self)@.data.devices, device_id@, session_id@),
    {
        self.data.register_session(device_id, session_id)
    }

    /// The name shown for process `process_id`: the product name that
    /// `product_name_of` reads from its executable, or else its process name
    /// without ".exe"; `None` when the process is not in the refreshed process
    /// table or has no readable name.
    pub fn get_process_name<F: Fn(&str) -> Option<String>>(
        &mut self,
        process_id: u32,
        product_name_of: F,
    ) -> (result: Option<String>)
        requires
            forall|path: &str| #[trigger] product_name_of.requires((path,)),
        ensures
            final(self)@ == old(self)@,
            !final(self).processes().dom().contains(process_id) ==> result is None,
            final(self).processes().dom().contains(process_id) ==> ({
                let (exe_path, name) = final(self).processes()[process_id];
                match exe_path {
                    None => text_option(result) == process_name_choice(None, name),
                    Some(p) => exists|path: &str, product: Option<String>|
                        path@ == p && #[trigger] product_name_of.ensures((path,), product) && text_option(
                            result,
                        ) == process_name_choice(text_option(product), name),
                }
            }),
    {
        refresh_process_executables(&mut self.system_information);
        let names = process_names(&self.system_information, process_id);
        process_name_from(names, product_name_of)
    }
}

} // verus!
