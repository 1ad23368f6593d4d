//! Instance extension choice.
//!
//! Creating the graphics instance needs the platform surface extensions
//! plus two capability-query extensions, and additionally wants the
//! surface-maintenance extension whenever the loaded library supports it.
//! Wanted extensions are intersected with what the library offers; needed
//! ones are requested unconditionally.

use vstd::prelude::*;

verus! {

/// Which optional instance extensions creation asks for, beyond the
/// platform's own surface extensions.
#[derive(Debug, Clone, Copy, PartialEq, Eq, Structural)]
pub struct InstanceExtensionChoice {
    /// Wanted: enabled exactly when the library supports it.
    pub surface_maintenance1: bool,
    /// Needed for querying surface capabilities; always requested.
    pub get_surface_capabilities2: bool,
    /// Needed for querying device properties; always requested.
    pub get_physical_device_properties2: bool,
}

/// Decides the optional instance extensions from what the loaded library
/// supports.
pub fn plan_instance_extensions(surface_maintenance1_supported: bool) -> (c:
    InstanceExtensionChoice)
    ensures
        c.surface_maintenance1 == surface_maintenance1_supported,
        c.get_surface_capabilities2,
        c.get_physical_device_properties2,
{
    InstanceExtensionChoice {
        surface_maintenance1: surface_maintenance1_supported,
        get_surface_capabilities2: true,
        get_physical_device_properties2: true,
    }
}

} // verus!
