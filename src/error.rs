use vstd::prelude::*;

verus! {

/// Why a bootstrap stage failed. Each variant names the stage that stopped
/// the sequence.
#[derive(Debug, Clone, Copy, PartialEq, Eq, Structural)]
pub enum VulkanError {
    /// A requested validation layer is not installed on the host.
    ValidationLayersUnavailable,
    /// The platform refused to create the instance.
    InstanceCreationFailed,
    /// The instance enumerated no physical device at all.
    NoCompatibleDevice,
    /// Devices were enumerated, but none passed the suitability test.
    NoSuitableDevice,
    /// The device exposes no queue family with graphics support.
    NoQueueFamilyIndices,
    /// The platform refused to create the logical device.
    LogicalDeviceCreationFailed,
}

/// Failure reported by the windowing collaborator.
#[derive(Debug, Clone, Copy, PartialEq, Eq, Structural)]
pub enum GlfwError {
    WindowCreationFailed,
}

} // verus!
