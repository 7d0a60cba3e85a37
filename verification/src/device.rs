//! The compute-device decision.

use vstd::prelude::*;

verus! {

/// The compute backend a model is bound to.
#[derive(Clone, Copy, Debug, PartialEq, Eq, Structural)]
pub enum Device {
    /// Dedicated accelerated hardware.
    Accelerator,
    /// General-purpose fallback computation.
    Cpu,
}

/// Turns the result of a capability probe into the device decision.
///
/// The probe itself (asking the driver whether accelerated hardware is
/// present) is the caller's outside work; this decision never fails —
/// a missing accelerator only degrades to the fallback.
pub fn select_device(accelerator_available: bool) -> (d: Device)
    ensures
        d == (if accelerator_available {
            Device::Accelerator
        } else {
            Device::Cpu
        }),
{
    if accelerator_available {
        Device::Accelerator
    } else {
        Device::Cpu
    }
}

} // verus!
