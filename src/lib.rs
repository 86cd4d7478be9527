//! Bootstrap logic for a native GPU rendering context: checking requested
//! validation layers, planning instance creation, scoring and selecting a
//! physical device, resolving a graphics queue family and planning logical
//! device creation, all driven by a strictly forward state machine whose
//! teardown releases handles in reverse creation order.
//!
//! Every platform call is made by the caller; this crate decides what to ask
//! for and what to make of the answers.
mod bootstrap;
mod device;
mod error;
mod handle;
mod instance;
mod layers;
mod logical;
mod version;

pub use bootstrap::{
    lemma_teardown_at_instance_ready, lemma_teardown_by_stage, release_order, stage_rank,
    vk_destroy_instance, Bootstrap, BootstrapStage, Release,
};
pub use device::{
    all_wf, blank_device_info, candidate_score, candidate_scores, device_score, device_suitable,
    device_type_of, has_candidate, has_graphics_family, is_device_suitable, is_first_best,
    is_first_graphics_family, lemma_queue_family_idempotent, lemma_selection_deterministic, prefer_candidate, preferred,
    rate_device_suitability, resolved_queue_family, score_devices, select_best_candidate,
    supports_graphics, vk_find_queue_families, vk_get_physical_device, DeviceInfo,
    PhysicalDevice, PhysicalDeviceFeatures, PhysicalDeviceProperties, PhysicalDeviceType,
    QueueFamilyProperties, SuitabilityPolicy, DISCRETE_GPU_BONUS, QUEUE_COMPUTE_BIT,
    QUEUE_GRAPHICS_BIT, QUEUE_TRANSFER_BIT,
};
pub use error::{GlfwError, VulkanError};
pub use handle::{DeviceHandle, InstanceHandle, PhysicalDeviceHandle, QueueHandle, VK_SUCCESS};
pub use instance::{
    instance_create_info, is_instance_request, vk_create_instance, ApplicationInfo,
    InstanceCreateInfo, API_VERSION, APPLICATION_VERSION, ENGINE_NAME,
};
pub use layers::{
    available_layer_set, buffer_holds_name, layer_name_bytes, name_bytes, requested_layer_set,
    vk_check_validation_layer_support, LayerProperties, LAYER_NAME_SIZE,
};
pub use logical::{
    device_create_info, is_device_request, vk_create_logical_device, vk_get_device_queue,
    DeviceCreateInfo, DeviceQueueCreateInfo, DeviceQueueRequest,
};
pub use version::{vk_make_api_version, vk_make_version};
