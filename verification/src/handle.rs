//! The application-facing accessor for one window.

use vstd::prelude::*;

use crate::registry::Registry;
use crate::registry::RegistryError;
use crate::registry::WindowId;
use crate::registry::read_spec;
use crate::state::WindowState;

verus! {

/// An accessor bound to one window identifier. It owns no state: reads go
/// through the registry and return independent snapshots, so application
/// code never observes a half-applied update.
#[derive(Clone, Copy, Debug, PartialEq, Eq, Structural)]
pub struct WindowHandle {
    pub id: WindowId,
}

impl WindowHandle {
    /// Binds a handle to a window identifier.
    pub fn new(id: WindowId) -> (h: WindowHandle)
        ensures
            h.id == id,
    {
        WindowHandle { id }
    }

    /// A snapshot of the window's current state, or `NotFound` when the
    /// handle is stale or the window is not registered yet.
    pub fn state(&self, reg: &Registry) -> (r: Result<WindowState, RegistryError>)
        ensures
            r == read_spec(reg.states(), self.id),
    {
        reg.read(self.id)
    }
}

} // verus!
