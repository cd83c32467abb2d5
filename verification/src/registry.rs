use vstd::prelude::*;

verus! {

/// The change made to the start-up entry of the application.
#[derive(Debug, Clone, Copy, PartialEq, Eq, Structural)]
pub enum StartupChange {
    /// The entry is removed: the application no longer starts at log-on.
    RemoveEntry,
    /// The entry is written with the path of the executable.
    AddEntry,
}

/// Toggling start at log-on removes the entry when it is there and adds it
/// when it is not.
pub open spec fn startup_change_spec(entry_present: bool) -> StartupChange {
    if entry_present {
        StartupChange::RemoveEntry
    } else {
        StartupChange::AddEntry
    }
}

/// Decides how toggling start at log-on changes the start-up entry.
#[verifier::when_used_as_spec(startup_change_spec)]
pub fn startup_change(entry_present: bool) -> (result: StartupChange)
    ensures
        result == startup_change_spec(entry_present),
{
    if entry_present {
        StartupChange::RemoveEntry
    } else {
        StartupChange::AddEntry
    }
}

/// Whether the application starts at log-on once `change` is committed: the
/// entry is there exactly when it was added.
pub open spec fn enabled_after_spec(change: StartupChange) -> bool {
    change == StartupChange::AddEntry
}

/// Whether the application starts at log-on once `change` is committed.
#[verifier::when_used_as_spec(enabled_after_spec)]
pub fn enabled_after(change: StartupChange) -> (result: bool)
    ensures
        result == enabled_after_spec(change),
{
    match change {
        StartupChange::RemoveEntry => false,
        StartupChange::AddEntry => true,
    }
}

/// Toggling start at log-on flips it.
pub proof fn law_toggle_flips(entry_present: bool)
    ensures
        enabled_after(startup_change(entry_present)) == !entry_present,
{
}

/// Two toggles in a row, with the entry left as the first toggle committed it,
/// report opposite states, and the second restores the state before the first.
pub proof fn law_second_toggle_undoes_first(entry_present: bool)
    ensures
        ({
            let first = enabled_after(startup_change(entry_present));
            let second = enabled_after(startup_change(first));
            &&& second == !first
            &&& second == entry_present
        }),
{
}

} // verus!
