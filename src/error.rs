//! The renderer's error taxonomy.
use vstd::prelude::*;

verus! {

/// Why a renderer operation failed.
#[derive(Clone, Copy, PartialEq, Eq, Structural, Debug)]
pub enum VulkanError {
    /// The window has no native handles yet.
    WindowNotInitialized,
    /// Validation was asked for but the host has no validation layer.
    ValidationNotPresent,
    /// No physical device has a queue family for both graphics and presentation.
    NoSuitableDevice,
    /// The device refused to create a resource.
    ResourceCreationFailed,
    /// The device failed in steady state (lost, out of memory, or an unexpected result).
    FatalDeviceError,
}

} // verus!
