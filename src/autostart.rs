use vstd::prelude::*;

verus! {

/// The change that a toggle makes to launch-at-login registration.
#[derive(PartialEq, Eq, Structural, Debug, Clone, Copy)]
pub enum AutostartChange {
    Enable,
    Disable,
}

/// The change that a toggle makes from the current registration state.
pub open spec fn toggle_change_of(is_enabled: bool) -> AutostartChange {
    if is_enabled {
        AutostartChange::Disable
    } else {
        AutostartChange::Enable
    }
}

/// Whether launch-at-login is on once a change has been made.
pub open spec fn enabled_after_change(c: AutostartChange) -> bool {
    c == AutostartChange::Enable
}

/// The change that toggling makes: disable where registration is on,
/// enable where it is off.
pub fn toggle_change(is_enabled: bool) -> (r: AutostartChange)
    ensures
        r == toggle_change_of(is_enabled),
{
    if is_enabled {
        AutostartChange::Disable
    } else {
        AutostartChange::Enable
    }
}

impl AutostartChange {
    /// Whether launch-at-login is on once this change has been made.
    pub fn enabled_after(&self) -> (r: bool)
        ensures
            r == enabled_after_change(*self),
    {
        match self {
            AutostartChange::Enable => true,
            AutostartChange::Disable => false,
        }
    }
}

/// A toggle flips the state, and two toggles restore it.
pub proof fn lemma_toggle_flips(is_enabled: bool)
    ensures
        enabled_after_change(toggle_change_of(is_enabled)) == !is_enabled,
        enabled_after_change(toggle_change_of(enabled_after_change(toggle_change_of(is_enabled))))
            == is_enabled,
{
}

} // verus!
