use vstd::prelude::*;

use crate::wrappers::device_manager::MMEvent;

verus! {

/// The endpoint is active.
pub const DEVICE_STATE_ACTIVE: u32 = 0x1;
/// The endpoint is disabled.
pub const DEVICE_STATE_DISABLED: u32 = 0x2;
/// The endpoint is not present.
pub const DEVICE_STATE_NOTPRESENT: u32 = 0x4;
/// The endpoint is unplugged.
pub const DEVICE_STATE_UNPLUGGED: u32 = 0x8;

/// The event forwarded when an endpoint is added: none while notifications
/// are disabled.
pub fn device_added_event(enabled: bool, device_id: String) -> (result: Option<MMEvent>)
    ensures
        enabled ==> (result matches Some(MMEvent::DeviceAdded(id)) && id@ == device_id@),
        !enabled ==> result is None,
{
    if enabled {
        Some(MMEvent::DeviceAdded(device_id))
    } else {
        None
    }
}

/// The event forwarded when an endpoint is removed: none while notifications
/// are disabled.
pub fn device_removed_event(enabled: bool, device_id: String) -> (result: Option<MMEvent>)
    ensures
        enabled ==> (result matches Some(MMEvent::DeviceRemoved(id)) && id@ == device_id@),
        !enabled ==> result is None,
{
    if enabled {
        Some(MMEvent::DeviceRemoved(device_id))
    } else {
        None
    }
}

/// The event forwarded when an endpoint changes state: an unplugged or absent
/// endpoint counts as removed, an active one as added, and any other state
/// (disabled) is not forwarded; nothing is forwarded while notifications are
/// disabled.
pub fn device_state_event(enabled: bool, device_id: String, new_state: u32) -> (result: Option<MMEvent>)
    ensures
        !enabled ==> result is None,
        enabled && (new_state == DEVICE_STATE_UNPLUGGED || new_state == DEVICE_STATE_NOTPRESENT)
            ==> (result matches Some(MMEvent::DeviceRemoved(id)) && id@ == device_id@),
        enabled && new_state == DEVICE_STATE_ACTIVE ==> (result matches Some(MMEvent::DeviceAdded(id))
            && id@ == device_id@),
        new_state != DEVICE_STATE_UNPLUGGED && new_state != DEVICE_STATE_NOTPRESENT && new_state
            != DEVICE_STATE_ACTIVE ==> result is None,
{
    if !enabled {
        return None;
    }
    if new_state == DEVICE_STATE_UNPLUGGED || new_state == DEVICE_STATE_NOTPRESENT {
        device_removed_event(enabled, device_id)
    } else if new_state == DEVICE_STATE_ACTIVE {
        device_added_event(enabled, device_id)
    } else {
        None
    }
}

/// Whether device notifications are forwarded; turned off while the device
/// manager shuts down.
pub struct NotificationGate {
    enabled: bool,
}

impl View for NotificationGate {
    type V = bool;

    closed spec fn view(&self) -> bool {
        self.enabled
    }
}

impl NotificationGate {
    /// A gate that forwards notifications when `enabled`.
    pub fn new(enabled: bool) -> (result: Self)
        ensures
            result@ == enabled,
    {
        NotificationGate { enabled }
    }

    /// Forwards notifications from now on.
    pub fn enable(&mut self)
        ensures
            final(self)@ == gate_after(old(self)@, seq![GateOp::Enable]),
    {
        self.enabled = true;
    }

    /// Forwards no notification from now on.
    pub fn disable(&mut self)
        ensures
            final(self)@ == gate_after(old(self)@, seq![GateOp::Disable]),
    {
        self.enabled = false;
    }

    /// Whether notifications are forwarded.
    pub fn is_enabled(&self) -> (result: bool)
        ensures
            result == self@,
    {
        self.enabled
    }

    /// The event forwarded when an endpoint is added.
    pub fn device_added(&self, device_id: String) -> (result: Option<MMEvent>)
        ensures
            self@ ==> (result matches Some(MMEvent::DeviceAdded(id)) && id@ == device_id@),
            !self@ ==> result is None,
    {
        device_added_event(self.enabled, device_id)
    }

    /// The event forwarded when an endpoint is removed.
    pub fn device_removed(&self, device_id: String) -> (result: Option<MMEvent>)
        ensures
            self@ ==> (result matches Some(MMEvent::DeviceRemoved(id)) && id@ == device_id@),
            !self@ ==> result is None,
    {
        device_removed_event(self.enabled, device_id)
    }

    /// The event forwarded when an endpoint changes state.
    pub fn device_state_changed(&self, device_id: String, new_state: u32) -> (result: Option<MMEvent>)
        ensures
            !self@ ==> result is None,
            self@ && (new_state == DEVICE_STATE_UNPLUGGED || new_state == DEVICE_STATE_NOTPRESENT) ==> (
            result matches Some(MMEvent::DeviceRemoved(id)) && id@ == device_id@),
            self@ && new_state == DEVICE_STATE_ACTIVE ==> (result matches Some(MMEvent::DeviceAdded(id))
                && id@ == device_id@),
            new_state != DEVICE_STATE_UNPLUGGED && new_state != DEVICE_STATE_NOTPRESENT && new_state
                != DEVICE_STATE_ACTIVE ==> result is None,
    {
        device_state_event(self.enabled, device_id, new_state)
    }
}

/// An operation on a notification gate: forwarding leaves it as it is.
pub enum GateOp {
    Enable,
    Disable,
    Forward,
}

/// Whether a gate that started as `enabled` forwards after `ops`.
pub open spec fn gate_after(enabled: bool, ops: Seq<GateOp>) -> bool
    decreases ops.len(),
{
    if ops.len() == 0 {
        enabled
    } else {
        match ops.last() {
            GateOp::Enable => true,
            GateOp::Disable => false,
            GateOp::Forward => gate_after(enabled, ops.drop_last()),
        }
    }
}

/// Once a gate is disabled, it forwards nothing until it is enabled again,
/// however many notifications arrive in between.
pub proof fn law_disabled_until_enabled(enabled: bool, ops: Seq<GateOp>, i: int)
    requires
        0 <= i < ops.len(),
        ops[i] is Disable,
        forall|j: int| i < j < ops.len() ==> !(#[trigger] ops[j] is Enable),
    ensures
        !gate_after(enabled, ops),
    decreases ops.len(),
{
    if ops.len() - 1 != i {
        let rest = ops.drop_last();
        assert forall|j: int| i < j < rest.len() implies !(#[trigger] rest[j] is Enable) by {
            assert(rest[j] == ops[j]);
        }
        assert(rest[i] == ops[i]);
        law_disabled_until_enabled(enabled, rest, i);
    }
}

/// Once a gate is enabled, it forwards until it is disabled again.
pub proof fn law_enabled_until_disabled(enabled: bool, ops: Seq<GateOp>, i: int)
    requires
        0 <= i < ops.len(),
        ops[i] is Enable,
        forall|j: int| i < j < ops.len() ==> !(#[trigger] ops[j] is Disable),
    ensures
        gate_after(enabled, ops),
    decreases ops.len(),
{
    if ops.len() - 1 != i {
        let rest = ops.drop_last();
        assert forall|j: int| i < j < rest.len() implies !(#[trigger] rest[j] is Disable) by {
            assert(rest[j] == ops[j]);
        }
        assert(rest[i] == ops[i]);
        law_enabled_until_disabled(enabled, rest, i);
    }
}

} // verus!
