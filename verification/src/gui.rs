//! The window of the plug-in, as far as the main thread keeps track of it.

use vstd::prelude::*;
use crate::shared::ColdShared;

verus! {

/// Life of the window.
#[derive(Clone, Copy, Debug, PartialEq, Eq, Structural)]
pub enum GuiLifecycle {
    Hidden,
    ShowRequested,
    Active,
    HideRequested,
    Destroyed,
}

/// A window that is ready becomes active where the host has asked for it.
pub fn promote_window_ready(lifecycle: GuiLifecycle) -> (next: GuiLifecycle)
    ensures
        next == (if lifecycle == GuiLifecycle::ShowRequested {
            GuiLifecycle::Active
        } else {
            lifecycle
        }),
{
    match lifecycle {
        GuiLifecycle::ShowRequested => GuiLifecycle::Active,
        other => other,
    }
}

/// Takes the news that the user has closed the window. Returns whether there was any.
pub fn reconcile_pending_gui_close(cold: &mut ColdShared) -> (closed: bool)
    ensures
        closed == old(cold).gui_user_closed,
        *final(cold) == (ColdShared { gui_user_closed: false, ..*old(cold) }),
{
    let closed: bool = cold.gui_user_closed;
    cold.gui_user_closed = false;
    closed
}

/// Drops the news that the user has closed the window.
pub fn discard_pending_gui_close(cold: &mut ColdShared)
    ensures
        *final(cold) == (ColdShared { gui_user_closed: false, ..*old(cold) }),
{
    cold.gui_user_closed = false;
}

/// What the main thread does when the host calls it.
#[derive(Clone, Copy, Debug, PartialEq, Eq, Structural)]
pub enum MainThreadDuty {
    /// The instance is going away: only disposal is left.
    FinalDrain,
    /// Housekeeping, and then the messages.
    Housekeeping,
}

pub fn main_thread_duty(cold: &ColdShared) -> (duty: MainThreadDuty)
    ensures
        duty == (if cold.alive_fence {
            MainThreadDuty::Housekeeping
        } else {
            MainThreadDuty::FinalDrain
        }),
{
    if cold.alive_fence {
        MainThreadDuty::Housekeeping
    } else {
        MainThreadDuty::FinalDrain
    }
}

} // verus!
