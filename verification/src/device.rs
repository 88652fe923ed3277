//! The kernel's view of devices and drivers.
use vstd::prelude::*;

verus! {

/// A device.
pub struct Device {}

/// A driver, known by its name.
pub struct Driver {
    name: &'static str,
}

impl Driver {
    /// The driver's name.
    pub closed spec fn name(&self) -> &'static str {
        self.name
    }

    /// A driver named `name`.
    pub fn new(name: &'static str) -> (r: Driver)
        ensures
            r.name() == name,
    {
        Driver { name }
    }
}

/// The allocator for most kernel structures.
#[non_exhaustive]
pub struct KernelAlloc;

} // verus!
