use vk_bootstrap::{
    is_device_suitable, prefer_candidate, rate_device_suitability, score_devices,
    select_best_candidate, vk_find_queue_families, vk_get_physical_device, DeviceInfo,
    PhysicalDevice, PhysicalDeviceFeatures, PhysicalDeviceHandle, PhysicalDeviceProperties,
    PhysicalDeviceType, QueueFamilyProperties, SuitabilityPolicy, VulkanError, QUEUE_COMPUTE_BIT,
    QUEUE_GRAPHICS_BIT, QUEUE_TRANSFER_BIT,
};

fn family(queue_flags: u32) -> QueueFamilyProperties {
    QueueFamilyProperties { queue_flags, queue_count: 1 }
}

fn device(
    raw: u64,
    device_type: PhysicalDeviceType,
    max_image_dimension_2d: u32,
    geometry_shader: bool,
    families: Vec<QueueFamilyProperties>,
) -> PhysicalDevice {
    PhysicalDevice {
        handle: PhysicalDeviceHandle { raw },
        info: DeviceInfo {
            properties: PhysicalDeviceProperties { device_type, max_image_dimension_2d },
            features: PhysicalDeviceFeatures { geometry_shader },
        },
        queue_families: families,
    }
}

fn graphics() -> Vec<QueueFamilyProperties> {
    vec![family(QUEUE_GRAPHICS_BIT | QUEUE_COMPUTE_BIT)]
}

#[test]
fn resolver_skips_compute_only_family() {
    let families = vec![
        family(QUEUE_COMPUTE_BIT),
        family(QUEUE_GRAPHICS_BIT | QUEUE_COMPUTE_BIT),
    ];
    assert_eq!(vk_find_queue_families(&families), Ok(1));
}

#[test]
fn resolver_without_graphics_family_fails() {
    let families = vec![family(QUEUE_COMPUTE_BIT), family(QUEUE_TRANSFER_BIT)];
    assert_eq!(vk_find_queue_families(&families), Err(VulkanError::NoQueueFamilyIndices));
    assert_eq!(vk_find_queue_families(&Vec::new()), Err(VulkanError::NoQueueFamilyIndices));
}

#[test]
fn resolver_takes_first_graphics_family() {
    let families = vec![
        family(QUEUE_TRANSFER_BIT),
        family(QUEUE_GRAPHICS_BIT),
        family(QUEUE_GRAPHICS_BIT | QUEUE_COMPUTE_BIT),
    ];
    assert_eq!(vk_find_queue_families(&families), Ok(1));
}

#[test]
fn resolver_twice_gives_same_index() {
    let families = vec![family(QUEUE_COMPUTE_BIT), family(QUEUE_GRAPHICS_BIT)];
    let first = vk_find_queue_families(&families);
    let second = vk_find_queue_families(&families);
    assert_eq!(first, second);
    assert_eq!(first, Ok(1));
}

#[test]
fn discrete_gpu_gets_bonus() {
    let discrete =
        PhysicalDeviceProperties { device_type: PhysicalDeviceType::DiscreteGpu, max_image_dimension_2d: 16384 };
    assert_eq!(rate_device_suitability(&discrete), 17384);
    let integrated =
        PhysicalDeviceProperties { device_type: PhysicalDeviceType::IntegratedGpu, max_image_dimension_2d: 4096 };
    assert_eq!(rate_device_suitability(&integrated), 4096);
    let largest =
        PhysicalDeviceProperties { device_type: PhysicalDeviceType::DiscreteGpu, max_image_dimension_2d: u32::MAX };
    assert_eq!(rate_device_suitability(&largest), u32::MAX as u64 + 1000);
}

#[test]
fn device_type_codes() {
    assert_eq!(PhysicalDeviceType::from_raw(0), PhysicalDeviceType::Other);
    assert_eq!(PhysicalDeviceType::from_raw(1), PhysicalDeviceType::IntegratedGpu);
    assert_eq!(PhysicalDeviceType::from_raw(2), PhysicalDeviceType::DiscreteGpu);
    assert_eq!(PhysicalDeviceType::from_raw(3), PhysicalDeviceType::VirtualGpu);
    assert_eq!(PhysicalDeviceType::from_raw(4), PhysicalDeviceType::Cpu);
    assert_eq!(PhysicalDeviceType::from_raw(77), PhysicalDeviceType::Other);
}

#[test]
fn blank_snapshot_is_zeroed() {
    let blank = DeviceInfo::blank();
    assert_eq!(blank.properties.device_type, PhysicalDeviceType::Other);
    assert_eq!(blank.properties.max_image_dimension_2d, 0);
    assert!(!blank.features.geometry_shader);
    assert_eq!(DeviceInfo::default(), blank);
    assert_eq!(rate_device_suitability(&blank.properties), 0);
}

#[test]
fn suitability_policies() {
    let integrated = device(1, PhysicalDeviceType::IntegratedGpu, 8192, true, graphics());
    let discrete_no_gs = device(2, PhysicalDeviceType::DiscreteGpu, 8192, false, graphics());
    let discrete_gs = device(3, PhysicalDeviceType::DiscreteGpu, 8192, true, graphics());
    let no_queue = device(4, PhysicalDeviceType::DiscreteGpu, 8192, true, vec![family(QUEUE_COMPUTE_BIT)]);
    let relaxed = SuitabilityPolicy::GraphicsQueue;
    let strict = SuitabilityPolicy::DiscreteWithGeometryShader;
    assert!(is_device_suitable(&integrated, relaxed));
    assert!(!is_device_suitable(&integrated, strict));
    assert!(is_device_suitable(&discrete_no_gs, relaxed));
    assert!(!is_device_suitable(&discrete_no_gs, strict));
    assert!(is_device_suitable(&discrete_gs, strict));
    assert!(!is_device_suitable(&no_queue, relaxed));
    assert!(!is_device_suitable(&no_queue, strict));
}

#[test]
fn first_of_tied_best_scores_wins() {
    let scores = vec![Some(500), Some(1200), Some(1200)];
    assert_eq!(select_best_candidate(&scores), Some(1));
}

#[test]
fn selection_skips_unsuitable_devices() {
    assert_eq!(select_best_candidate(&vec![None, Some(3), None, Some(7), Some(7)]), Some(3));
    assert_eq!(select_best_candidate(&vec![None, None]), None);
    assert_eq!(select_best_candidate(&Vec::new()), None);
    assert_eq!(select_best_candidate(&vec![None, Some(0)]), Some(1));
}

#[test]
fn tie_break_keeps_first_seen() {
    assert_eq!(prefer_candidate(Some((1, 1200)), 2, Some(1200)), Some((1, 1200)));
    assert_eq!(prefer_candidate(Some((1, 1200)), 2, Some(1201)), Some((2, 1201)));
    assert_eq!(prefer_candidate(Some((1, 1200)), 2, None), Some((1, 1200)));
    assert_eq!(prefer_candidate(None, 4, Some(0)), Some((4, 0)));
    assert_eq!(prefer_candidate(None, 4, None), None);
}

#[test]
fn selector_picks_first_device_with_max_score() {
    let devices = vec![
        device(10, PhysicalDeviceType::IntegratedGpu, 500, false, graphics()),
        device(11, PhysicalDeviceType::DiscreteGpu, 200, false, graphics()),
        device(12, PhysicalDeviceType::IntegratedGpu, 1200, false, graphics()),
    ];
    assert_eq!(
        score_devices(&devices, SuitabilityPolicy::GraphicsQueue),
        vec![Some(500), Some(1200), Some(1200)]
    );
    assert_eq!(vk_get_physical_device(&devices, SuitabilityPolicy::GraphicsQueue), Ok(1));
    assert_eq!(vk_get_physical_device(&devices, SuitabilityPolicy::GraphicsQueue), Ok(1));
}

#[test]
fn selector_without_devices_fails() {
    assert_eq!(
        vk_get_physical_device(&Vec::new(), SuitabilityPolicy::GraphicsQueue),
        Err(VulkanError::NoCompatibleDevice)
    );
    assert_eq!(
        vk_get_physical_device(&Vec::new(), SuitabilityPolicy::DiscreteWithGeometryShader),
        Err(VulkanError::NoCompatibleDevice)
    );
}

#[test]
fn selector_without_suitable_device_fails() {
    let devices = vec![
        device(1, PhysicalDeviceType::DiscreteGpu, 16384, true, vec![family(QUEUE_COMPUTE_BIT)]),
        device(2, PhysicalDeviceType::IntegratedGpu, 4096, false, Vec::new()),
    ];
    assert_eq!(
        vk_get_physical_device(&devices, SuitabilityPolicy::GraphicsQueue),
        Err(VulkanError::NoSuitableDevice)
    );
}

#[test]
fn strict_policy_changes_selection() {
    let devices = vec![
        device(1, PhysicalDeviceType::IntegratedGpu, 32768, true, graphics()),
        device(2, PhysicalDeviceType::DiscreteGpu, 4096, true, graphics()),
    ];
    assert_eq!(vk_get_physical_device(&devices, SuitabilityPolicy::GraphicsQueue), Ok(0));
    assert_eq!(vk_get_physical_device(&devices, SuitabilityPolicy::DiscreteWithGeometryShader), Ok(1));
    let integrated_only = vec![device(1, PhysicalDeviceType::IntegratedGpu, 32768, true, graphics())];
    assert_eq!(
        vk_get_physical_device(&integrated_only, SuitabilityPolicy::DiscreteWithGeometryShader),
        Err(VulkanError::NoSuitableDevice)
    );
}
