use vstd::prelude::*;

use crate::device::{
    has_graphics_family, is_first_graphics_family, resolved_queue_family, vk_find_queue_families,
    PhysicalDevice, PhysicalDeviceFeatures,
};
use crate::error::VulkanError;
use crate::instance::copy_names;

verus! {

/// A request for queues from one queue family. Every queue is requested at
/// the highest priority.
#[derive(Debug, Clone, Copy, PartialEq, Eq, Structural)]
pub struct DeviceQueueCreateInfo {
    pub queue_family_index: u32,
    pub queue_count: u32,
}

/// Everything the platform's logical device creation call is handed.
#[derive(Debug)]
pub struct DeviceCreateInfo {
    pub queue_create_infos: Vec<DeviceQueueCreateInfo>,
    pub enabled_layer_names: Vec<String>,
    pub enabled_extension_names: Vec<String>,
    pub enabled_features: PhysicalDeviceFeatures,
}

/// Which queue to retrieve from a newly created logical device.
#[derive(Debug, Clone, Copy, PartialEq, Eq, Structural)]
pub struct DeviceQueueRequest {
    pub queue_family_index: u32,
    pub queue_index: u32,
}

/// `info` asks for exactly one queue from family `family`, enables the given
/// layers, no extensions and no optional feature.
pub open spec fn is_device_request(info: DeviceCreateInfo, family: u32, layers: Seq<String>) -> bool {
    &&& info.queue_create_infos@ == seq![
        DeviceQueueCreateInfo { queue_family_index: family, queue_count: 1 },
    ]
    &&& info.enabled_layer_names@ == layers
    &&& info.enabled_extension_names@.len() == 0
    &&& info.enabled_features == (PhysicalDeviceFeatures { geometry_shader: false })
}

/// Builds the logical device request for a resolved queue family.
pub fn device_create_info(queue_family_index: u32, validation_layers: &Vec<String>) -> (r:
    DeviceCreateInfo)
    ensures
        is_device_request(r, queue_family_index, validation_layers@),
{
    let mut queue_create_infos: Vec<DeviceQueueCreateInfo> = Vec::new();
    queue_create_infos.push(DeviceQueueCreateInfo { queue_family_index, queue_count: 1 });
    proof {
        assert(queue_create_infos@ =~= seq![
            DeviceQueueCreateInfo { queue_family_index: queue_family_index, queue_count: 1 },
        ]);
    }
    DeviceCreateInfo {
        queue_create_infos,
        enabled_layer_names: copy_names(validation_layers),
        enabled_extension_names: Vec::new(),
        enabled_features: PhysicalDeviceFeatures { geometry_shader: false },
    }
}

/// Resolves the graphics queue family of `device` and builds the logical
/// device request for it; `NoQueueFamilyIndices` when the device has none.
pub fn vk_create_logical_device(device: &PhysicalDevice, validation_layers: &Vec<String>) -> (r:
    Result<DeviceCreateInfo, VulkanError>)
    requires
        device.wf(),
    ensures
        r is Ok <==> has_graphics_family(device.queue_families@),
        r is Err ==> r == Err::<DeviceCreateInfo, VulkanError>(VulkanError::NoQueueFamilyIndices),
        r matches Ok(info) ==> resolved_queue_family(device.queue_families@) matches Ok(family)
            && is_device_request(info, family, validation_layers@),
{
    match vk_find_queue_families(&device.queue_families) {
        Ok(family) => Ok(device_create_info(family, validation_layers)),
        Err(e) => Err(e),
    }
}

/// The queue to retrieve once the logical device exists: queue 0 of the
/// device's graphics queue family.
pub fn vk_get_device_queue(device: &PhysicalDevice) -> (r: Result<DeviceQueueRequest, VulkanError>)
    requires
        device.wf(),
    ensures
        r is Ok <==> has_graphics_family(device.queue_families@),
        r is Err ==> r == Err::<DeviceQueueRequest, VulkanError>(
            VulkanError::NoQueueFamilyIndices,
        ),
        r matches Ok(q) ==> {
            &&& q.queue_index == 0
            &&& is_first_graphics_family(device.queue_families@, q.queue_family_index as int)
        },
{
    match vk_find_queue_families(&device.queue_families) {
        Ok(family) => Ok(DeviceQueueRequest { queue_family_index: family, queue_index: 0 }),
        Err(e) => Err(e),
    }
}

} // verus!
