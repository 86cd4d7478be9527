use vstd::prelude::*;

verus! {

/// The platform's result code for success.
pub const VK_SUCCESS: i32 = 0;

/// The platform's top-level connection object. Only its identity is kept;
/// it is never dereferenced here.
#[derive(Debug, Clone, Copy, PartialEq, Eq, Structural)]
pub struct InstanceHandle {
    pub raw: u64,
}

/// Reference to one GPU as enumerated by the platform. The platform owns
/// what it refers to; it stays valid while its instance is alive.
#[derive(Debug, Clone, Copy, PartialEq, Eq, Structural)]
pub struct PhysicalDeviceHandle {
    pub raw: u64,
}

/// The application's connection to a chosen GPU.
#[derive(Debug, Clone, Copy, PartialEq, Eq, Structural)]
pub struct DeviceHandle {
    pub raw: u64,
}

/// A queue retrieved from a logical device; it lives as long as the device.
#[derive(Debug, Clone, Copy, PartialEq, Eq, Structural)]
pub struct QueueHandle {
    pub raw: u64,
}

} // verus!
