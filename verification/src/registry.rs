//! The device registry: the set of controllers discovered at boot.
//!
//! The registry is filled once, when PCI enumeration finishes, and is
//! never torn down: the kernel does not hot-unplug controllers.  The
//! embedding runtime keeps the one instance behind its mutual-
//! exclusion lock and checks the initialization-once precondition
//! before calling in, treating a second initialization as fatal.

use vstd::prelude::*;

use crate::hba::AhciDevice2;

verus! {

/// The set of discovered controllers.
pub struct DeviceRegistry {
    /// The controllers, in discovery order.
    pub devices: Vec<AhciDevice2>,
}

impl DeviceRegistry {
    /// An empty, not yet initialized registry.
    pub fn new() -> (r: Self)
        ensures
            r.devices@.len() == 0,
    {
        Self { devices: Vec::new() }
    }

    /// Whether the registry has been initialized.
    pub fn is_initialized(&self) -> (r: bool)
        ensures
            r == (self.devices@.len() != 0),
    {
        self.devices.len() != 0
    }

    /// Records the discovered controllers.  Initialization happens
    /// once: re-initialization is a fatal error, which the runtime
    /// reports before calling.
    pub fn init(&mut self, devices: Vec<AhciDevice2>)
        requires
            old(self).devices@.len() == 0,
        ensures
            final(self).devices@ == devices@,
    {
        self.devices = devices;
    }

    /// How many controllers were discovered.
    pub fn len(&self) -> (r: usize)
        ensures
            r == self.devices@.len(),
    {
        self.devices.len()
    }

    /// The controller at `idx`, for iteration by diagnostics and the
    /// interrupt dispatch front-end.
    pub fn device_at(&self, idx: usize) -> (r: &AhciDevice2)
        requires
            idx < self.devices@.len(),
        ensures
            r == &self.devices@[idx as int],
    {
        &self.devices[idx]
    }
}

} // verus!
