use vstd::prelude::*;

use crate::named_map::NamedMap;

verus! {

/// What the device manager learns about audio endpoints.
pub enum MMEvent {
    /// The endpoint with this identifier became available.
    DeviceAdded(String),
    /// The endpoint with this identifier went away.
    DeviceRemoved(String),
    /// The manager shuts down.
    Exit,
}

/// Direction of an audio endpoint.
#[derive(Debug, Clone, Copy, PartialEq, Eq, Structural)]
pub enum DataFlow {
    /// Plays sound.
    Render,
    /// Records sound.
    Capture,
    /// Both directions.
    All,
}

/// Only endpoints that play sound have their sessions managed.
pub fn accepts_device(data_flow: DataFlow) -> (result: bool)
    ensures
        result == (data_flow == DataFlow::Render),
{
    match data_flow {
        DataFlow::Render => true,
        _ => false,
    }
}

/// What the device manager does first in answer to an event.
pub enum DeviceAction {
    /// Open the endpoint with this identifier and try to add it.
    OpenDevice(String),
    /// Find the name of the endpoint with this identifier and remove the device of that name.
    ForgetDevice(String),
    /// Stop handling events.
    Stop,
}

/// The first step for an event: an added endpoint is opened, a removed one is
/// looked up by name to be forgotten, and `Exit` stops the manager.
pub fn device_event_step(event: MMEvent) -> (result: DeviceAction)
    ensures
        match event {
            MMEvent::DeviceAdded(id) => (result matches DeviceAction::OpenDevice(i) && i@ == id@),
            MMEvent::DeviceRemoved(id) => (result matches DeviceAction::ForgetDevice(i) && i@ == id@),
            MMEvent::Exit => result is Stop,
        },
{
    match event {
        MMEvent::DeviceAdded(id) => DeviceAction::OpenDevice(id),
        MMEvent::DeviceRemoved(id) => DeviceAction::ForgetDevice(id),
        MMEvent::Exit => DeviceAction::Stop,
    }
}

/// What the last step of adding an opened device reported.
#[derive(Debug, Clone, Copy, PartialEq, Eq, Structural)]
pub enum AdditionReport {
    /// The direction of the endpoint was read.
    DataFlowRead(DataFlow),
    /// Its sessions were initialized (`true`) or that failed.
    SessionsInitialized(bool),
    /// The configuration was written to disk (`true`) or that failed.
    ConfigurationWritten(bool),
}

/// The next step of adding an opened device.
#[derive(Debug, Clone, Copy, PartialEq, Eq, Structural)]
pub enum AdditionStep {
    /// Name the device and initialize its sessions.
    InitializeSessions,
    /// Write the configuration, which now holds its sessions, to disk.
    WriteConfiguration,
    /// Hold the device under its name.
    Insert,
    /// Drop the device.
    Abandon,
}

/// The step that follows a report: a playback endpoint has its sessions
/// initialized, then the configuration is written, then the device is held;
/// any other endpoint, and any failure, drops the device.
pub open spec fn addition_step_spec(report: AdditionReport) -> AdditionStep {
    match report {
        AdditionReport::DataFlowRead(flow) => if flow == DataFlow::Render {
            AdditionStep::InitializeSessions
        } else {
            AdditionStep::Abandon
        },
        AdditionReport::SessionsInitialized(ok) => if ok {
            AdditionStep::WriteConfiguration
        } else {
            AdditionStep::Abandon
        },
        AdditionReport::ConfigurationWritten(ok) => if ok {
            AdditionStep::Insert
        } else {
            AdditionStep::Abandon
        },
    }
}

/// Decides the next step of adding an opened device from what the last step reported.
#[verifier::when_used_as_spec(addition_step_spec)]
pub fn addition_step(report: AdditionReport) -> (result: AdditionStep)
    ensures
        result == addition_step_spec(report),
{
    match report {
        AdditionReport::DataFlowRead(flow) => if accepts_device(flow) {
            AdditionStep::InitializeSessions
        } else {
            AdditionStep::Abandon
        },
        AdditionReport::SessionsInitialized(ok) => if ok {
            AdditionStep::WriteConfiguration
        } else {
            AdditionStep::Abandon
        },
        AdditionReport::ConfigurationWritten(ok) => if ok {
            AdditionStep::Insert
        } else {
            AdditionStep::Abandon
        },
    }
}

/// Where adding a device ends when its direction is `flow`, initializing its
/// sessions succeeds when `sessions_ok`, and writing the configuration
/// succeeds when `written`: the steps are taken in order and each failure ends
/// the addition.
pub open spec fn addition_outcome(flow: DataFlow, sessions_ok: bool, written: bool) -> AdditionStep {
    let first = addition_step(AdditionReport::DataFlowRead(flow));
    if first != AdditionStep::InitializeSessions {
        first
    } else {
        let second = addition_step(AdditionReport::SessionsInitialized(sessions_ok));
        if second != AdditionStep::WriteConfiguration {
            second
        } else {
            addition_step(AdditionReport::ConfigurationWritten(written))
        }
    }
}

/// A device is held only when it is a playback endpoint, its sessions were
/// initialized and the configuration was written; otherwise it is dropped.
pub proof fn law_device_held_only_when_ready(flow: DataFlow, sessions_ok: bool, written: bool)
    ensures
        addition_outcome(flow, sessions_ok, written) == AdditionStep::Insert <==> (flow == DataFlow::Render
            && sessions_ok && written),
        addition_outcome(flow, sessions_ok, written) == AdditionStep::Insert || addition_outcome(
            flow,
            sessions_ok,
            written,
        ) == AdditionStep::Abandon,
{
}

/// The devices whose sessions are managed, by device name.  `D` is the handle
/// of a live device.
pub struct DeviceRegistry<D> {
    devices: NamedMap<D>,
}

impl<D> View for DeviceRegistry<D> {
    type V = Map<Seq<char>, D>;

    closed spec fn view(&self) -> Map<Seq<char>, D> {
        self.devices@
    }
}

impl<D> DeviceRegistry<D> {
    /// A registry with no devices.
    pub fn new() -> (result: Self)
        ensures
            result@ == Map::<Seq<char>, D>::empty(),
    {
        DeviceRegistry { devices: NamedMap::new() }
    }

    /// Holds `device` under `name`, and hands back the device it replaces, if any.
    pub fn insert(&mut self, name: String, device: D) -> (result: Option<D>)
        ensures
            final(self)@ == old(self)@.insert(name@, device),
            match result {
                Some(d) => old(self)@.dom().contains(name@) && d == old(self)@[name@],
                None => !old(self)@.dom().contains(name@),
            },
    {
        self.devices.insert(name, device)
    }

    /// Takes the device named `name` out of the registry.
    pub fn remove(&mut self, name: &str) -> (result: Option<D>)
        ensures
            final(self)@ == old(self)@.remove(name@),
            match result {
                Some(d) => old(self)@.dom().contains(name@) && d == old(self)@[name@],
                None => !old(self)@.dom().contains(name@),
            },
    {
        self.devices.take(name)
    }

    /// The device named `name`, if it is held.
    pub fn get(&self, name: &str) -> (result: Option<&D>)
        ensures
            match result {
                Some(d) => self@.dom().contains(name@) && *d == self@[name@],
                None => !self@.dom().contains(name@),
            },
    {
        self.devices.get(name)
    }

    /// Names of the devices held, each once.
    pub fn names(&self) -> (result: Vec<String>)
        ensures
            forall|i: int, j: int|
                0 <= i < result@.len() && 0 <= j < result@.len() && i != j ==> #[trigger] result@[i]@
                    != #[trigger] result@[j]@,
            forall|k: Seq<char>|
                self@.dom().contains(k) <==> exists|i: int| 0 <= i < result@.len() && #[trigger] result@[i]@ == k,
    {
        self.devices.names()
    }
}

/// A device that is added and then removed under the same name leaves the
/// registry as it was before, when it held no device of that name.
pub proof fn law_add_then_remove<D>(devices: Map<Seq<char>, D>, name: Seq<char>, device: D)
    requires
        !devices.dom().contains(name),
    ensures
        devices.insert(name, device).remove(name) == devices,
{
    assert(devices.insert(name, device).remove(name) =~= devices);
}

} // verus!
