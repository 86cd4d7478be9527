use vstd::prelude::*;

use crate::device::{
    all_wf, candidate_scores, device_score, has_candidate, has_graphics_family, is_first_best,
    is_first_graphics_family, rate_device_suitability, resolved_queue_family,
    vk_find_queue_families, vk_get_physical_device, PhysicalDevice, SuitabilityPolicy,
};
use crate::error::VulkanError;
use crate::handle::{DeviceHandle, InstanceHandle, QueueHandle, VK_SUCCESS};
use crate::instance::{instance_create_info, is_instance_request, InstanceCreateInfo};
use crate::layers::{
    available_layer_set, requested_layer_set, vk_check_validation_layer_support,
    LayerProperties,
};
use crate::logical::{device_create_info, is_device_request, DeviceCreateInfo, DeviceQueueRequest};

verus! {

/// How far the bootstrap has come. Stages are passed strictly in this order.
#[derive(Debug, Clone, Copy, PartialEq, Eq, Structural)]
pub enum BootstrapStage {
    Uninitialized,
    LayersChecked,
    InstanceReady,
    DeviceSelected,
    QueueFamilyResolved,
    DeviceReady,
}

/// The position of a stage in the bootstrap order.
pub open spec fn stage_rank(stage: BootstrapStage) -> nat {
    match stage {
        BootstrapStage::Uninitialized => 0,
        BootstrapStage::LayersChecked => 1,
        BootstrapStage::InstanceReady => 2,
        BootstrapStage::DeviceSelected => 3,
        BootstrapStage::QueueFamilyResolved => 4,
        BootstrapStage::DeviceReady => 5,
    }
}

/// A handle to release at teardown.
#[derive(Debug, Clone, Copy, PartialEq, Eq, Structural)]
pub enum Release {
    DestroyDevice(DeviceHandle),
    DestroyInstance(InstanceHandle),
}

/// The releases owed for the handles held, in reverse order of creation:
/// the logical device before the instance, and nothing for a handle that was
/// never acquired.
pub open spec fn release_order(instance: Option<InstanceHandle>, device: Option<DeviceHandle>) -> Seq<
    Release,
> {
    let device_part = match device {
        Some(d) => seq![Release::DestroyDevice(d)],
        None => Seq::empty(),
    };
    let instance_part = match instance {
        Some(i) => seq![Release::DestroyInstance(i)],
        None => Seq::empty(),
    };
    device_part + instance_part
}

/// Lists the releases owed for the handles held, in the order in which they
/// must be made.
pub fn vk_destroy_instance(instance: Option<InstanceHandle>, device: Option<DeviceHandle>) -> (r: Vec<
    Release,
>)
    ensures
        r@ == release_order(instance, device),
{
    let mut releases: Vec<Release> = Vec::new();
    if let Some(d) = device {
        releases.push(Release::DestroyDevice(d));
    }
    if let Some(i) = instance {
        releases.push(Release::DestroyInstance(i));
    }
    proof {
        assert(releases@ =~= release_order(instance, device));
    }
    releases
}

/// The bootstrap sequence: each stage consumes what the previous one
/// produced. The caller makes the platform calls and hands their results to
/// the matching method; a failed stage leaves the state as it was, and the
/// caller then tears down.
#[derive(Debug)]
pub struct Bootstrap {
    pub stage: BootstrapStage,
    /// The validated layers, enabled on the instance and on the device.
    pub validation_layers: Vec<String>,
    pub instance: Option<InstanceHandle>,
    /// The selected device, with what the platform reported of it.
    pub physical_device: Option<PhysicalDevice>,
    /// The score by which the device was selected.
    pub device_score: Option<u64>,
    /// The graphics queue family of the selected device.
    pub queue_family_index: Option<u32>,
    pub device: Option<DeviceHandle>,
    pub queue: Option<QueueHandle>,
}

impl Bootstrap {
    /// Each stage holds exactly the handles of the stages passed, the queue
    /// family belongs to the selected device, and the queue comes only after
    /// the logical device.
    pub open spec fn wf(&self) -> bool {
        let rank = stage_rank(self.stage);
        &&& self.instance is Some <==> rank >= 2
        &&& self.physical_device is Some <==> rank >= 3
        &&& self.device_score is Some <==> rank >= 3
        &&& self.queue_family_index is Some <==> rank >= 4
        &&& self.device is Some <==> rank >= 5
        &&& self.queue is Some ==> rank >= 5
        &&& self.physical_device matches Some(pd) ==> {
            &&& pd.wf()
            &&& has_graphics_family(pd.queue_families@)
            &&& self.device_score == Some(device_score(pd.info.properties))
        }
        &&& self.queue_family_index matches Some(family) ==> self.physical_device matches Some(pd)
            && resolved_queue_family(pd.queue_families@) == Ok::<u32, VulkanError>(family)
    }

    /// The state before any stage: nothing held.
    pub open spec fn is_initial(&self) -> bool {
        &&& self.stage == BootstrapStage::Uninitialized
        &&& self.validation_layers@.len() == 0
        &&& self.instance is None
        &&& self.physical_device is None
        &&& self.device_score is None
        &&& self.queue_family_index is None
        &&& self.device is None
        &&& self.queue is None
    }

    pub fn new() -> (r: Bootstrap)
        ensures
            r.wf(),
            r.is_initial(),
    {
        Bootstrap {
            stage: BootstrapStage::Uninitialized,
            validation_layers: Vec::new(),
            instance: None,
            physical_device: None,
            device_score: None,
            queue_family_index: None,
            device: None,
            queue: None,
        }
    }

    /// Checks the requested layers against those installed on the host and
    /// keeps them. Fails with `ValidationLayersUnavailable`, changing
    /// nothing, when one of them is missing.
    pub fn check_layers(&mut self, requested: Vec<String>, available: &Vec<LayerProperties>) -> (r:
        Result<(), VulkanError>)
        requires
            old(self).wf(),
            old(self).stage == BootstrapStage::Uninitialized,
        ensures
            final(self).wf(),
            r is Ok <==> requested_layer_set(requested@).subset_of(
                available_layer_set(available@),
            ),
            r is Ok ==> final(self).stage == BootstrapStage::LayersChecked
                && final(self).validation_layers@ == requested@,
            r is Err ==> r == Err::<(), VulkanError>(VulkanError::ValidationLayersUnavailable)
                && *final(self) == *old(self),
    {
        match vk_check_validation_layer_support(&requested, available) {
            Ok(()) => {
                self.validation_layers = requested;
                self.stage = BootstrapStage::LayersChecked;
                Ok(())
            },
            Err(e) => Err(e),
        }
    }

    /// The instance request for `app_name` and the extensions that the
    /// windowing collaborator requires, with the validated layers.
    pub fn instance_request(&self, app_name: &str, extensions: Vec<String>) -> (r:
        InstanceCreateInfo)
        requires
            self.wf(),
            self.stage == BootstrapStage::LayersChecked,
        ensures
            is_instance_request(r, app_name@, extensions@, self.validation_layers@),
    {
        instance_create_info(app_name, extensions, &self.validation_layers)
    }

    /// Takes the platform's answer to the instance request: the instance is
    /// ready when `result` is `VK_SUCCESS`; otherwise `InstanceCreationFailed`
    /// and nothing changes.
    pub fn instance_created(&mut self, result: i32, instance: InstanceHandle) -> (r: Result<
        (),
        VulkanError,
    >)
        requires
            old(self).wf(),
            old(self).stage == BootstrapStage::LayersChecked,
        ensures
            final(self).wf(),
            r is Ok <==> result == VK_SUCCESS,
            r is Ok ==> final(self).stage == BootstrapStage::InstanceReady
                && final(self).instance == Some(instance)
                && final(self).validation_layers == old(self).validation_layers,
            r is Err ==> r == Err::<(), VulkanError>(VulkanError::InstanceCreationFailed)
                && *final(self) == *old(self),
    {
        if result == VK_SUCCESS {
            self.instance = Some(instance);
            self.stage = BootstrapStage::InstanceReady;
            Ok(())
        } else {
            Err(VulkanError::InstanceCreationFailed)
        }
    }

    /// Selects among the devices that the instance enumerated, in
    /// enumeration order, the first suitable one with the highest score, and
    /// keeps it with its score. Fails, changing nothing, with
    /// `NoCompatibleDevice` when `devices` is empty and with
    /// `NoSuitableDevice` when none is suitable.
    pub fn select_device(&mut self, devices: Vec<PhysicalDevice>, policy: SuitabilityPolicy) -> (r:
        Result<(), VulkanError>)
        requires
            old(self).wf(),
            old(self).stage == BootstrapStage::InstanceReady,
            all_wf(devices@),
        ensures
            final(self).wf(),
            r == Err::<(), VulkanError>(VulkanError::NoCompatibleDevice) <==> devices@.len() == 0,
            r == Err::<(), VulkanError>(VulkanError::NoSuitableDevice) <==> devices@.len() > 0
                && !has_candidate(candidate_scores(devices@, policy)),
            r is Ok <==> has_candidate(candidate_scores(devices@, policy)),
            r is Err ==> *final(self) == *old(self),
            r is Ok ==> final(self).stage == BootstrapStage::DeviceSelected
                && final(self).instance == old(self).instance
                && final(self).validation_layers == old(self).validation_layers
                && exists|k: int|
                is_first_best(candidate_scores(devices@, policy), k)
                    && final(self).physical_device == Some(devices@[k])
                    && final(self).device_score == candidate_scores(devices@, policy)[k],
    {
        match vk_get_physical_device(&devices, policy) {
            Ok(k) => {
                let ghost scores = candidate_scores(devices@, policy);
                let ghost chosen = devices@[k as int];
                let mut devices = devices;
                let device = devices.swap_remove(k);
                let score = rate_device_suitability(&device.info.properties);
                proof {
                    assert(scores[k as int] is Some);
                    assert(device == chosen);
                }
                self.physical_device = Some(device);
                self.device_score = Some(score);
                self.stage = BootstrapStage::DeviceSelected;
                Ok(())
            },
            Err(e) => Err(e),
        }
    }

    /// Resolves the graphics queue family of the selected device and keeps
    /// it. A selected device always has one, so this succeeds.
    pub fn resolve_queue_family(&mut self) -> (r: Result<(), VulkanError>)
        requires
            old(self).wf(),
            old(self).stage == BootstrapStage::DeviceSelected,
        ensures
            final(self).wf(),
            r is Ok,
            final(self).stage == BootstrapStage::QueueFamilyResolved,
            final(self).queue_family_index matches Some(family) && is_first_graphics_family(
                old(self).physical_device->0.queue_families@,
                family as int,
            ),
            final(self).instance == old(self).instance,
            final(self).physical_device == old(self).physical_device,
            final(self).device_score == old(self).device_score,
            final(self).validation_layers == old(self).validation_layers,
    {
        let device = self.physical_device.as_ref().unwrap();
        match vk_find_queue_families(&device.queue_families) {
            Ok(family) => {
                self.queue_family_index = Some(family);
                self.stage = BootstrapStage::QueueFamilyResolved;
                Ok(())
            },
            Err(e) => Err(e),
        }
    }

    /// The logical device request: one queue from the resolved family, the
    /// validated layers, no extensions and no optional feature.
    pub fn device_request(&self) -> (r: DeviceCreateInfo)
        requires
            self.wf(),
            self.stage == BootstrapStage::QueueFamilyResolved,
        ensures
            is_device_request(r, self.queue_family_index->0, self.validation_layers@),
    {
        device_create_info(self.queue_family_index.unwrap(), &self.validation_layers)
    }

    /// Takes the platform's answer to the device request: the device is
    /// ready when `result` is `VK_SUCCESS`; otherwise
    /// `LogicalDeviceCreationFailed` and nothing changes.
    pub fn device_created(&mut self, result: i32, device: DeviceHandle) -> (r: Result<
        (),
        VulkanError,
    >)
        requires
            old(self).wf(),
            old(self).stage == BootstrapStage::QueueFamilyResolved,
        ensures
            final(self).wf(),
            r is Ok <==> result == VK_SUCCESS,
            r is Ok ==> final(self).stage == BootstrapStage::DeviceReady
                && final(self).device == Some(device)
                && final(self).instance == old(self).instance
                && final(self).physical_device == old(self).physical_device
                && final(self).device_score == old(self).device_score
                && final(self).queue_family_index == old(self).queue_family_index
                && final(self).queue is None,
            r is Err ==> r == Err::<(), VulkanError>(VulkanError::LogicalDeviceCreationFailed)
                && *final(self) == *old(self),
    {
        if result == VK_SUCCESS {
            self.device = Some(device);
            self.stage = BootstrapStage::DeviceReady;
            Ok(())
        } else {
            Err(VulkanError::LogicalDeviceCreationFailed)
        }
    }

    /// The queue to retrieve from the new device: queue 0 of the resolved
    /// family.
    pub fn queue_request(&self) -> (r: DeviceQueueRequest)
        requires
            self.wf(),
            self.stage == BootstrapStage::DeviceReady,
        ensures
            r == (DeviceQueueRequest {
                queue_family_index: self.queue_family_index->0,
                queue_index: 0,
            }),
    {
        DeviceQueueRequest { queue_family_index: self.queue_family_index.unwrap(), queue_index: 0 }
    }

    /// Keeps the queue retrieved from the new device.
    pub fn queue_retrieved(&mut self, queue: QueueHandle)
        requires
            old(self).wf(),
            old(self).stage == BootstrapStage::DeviceReady,
        ensures
            final(self).wf(),
            final(self).queue == Some(queue),
            final(self).stage == old(self).stage,
            final(self).instance == old(self).instance,
            final(self).physical_device == old(self).physical_device,
            final(self).device_score == old(self).device_score,
            final(self).queue_family_index == old(self).queue_family_index,
            final(self).device == old(self).device,
    {
        self.queue = Some(queue);
    }

    /// Whether every handle is held: the context can be used.
    pub fn is_ready(&self) -> (r: bool)
        ensures
            r == (self.stage == BootstrapStage::DeviceReady && self.queue is Some),
    {
        self.stage == BootstrapStage::DeviceReady && self.queue.is_some()
    }

    /// Gives up every handle held and returns the releases owed, logical
    /// device first, then instance; a handle never acquired is skipped. The
    /// bootstrap is back at its initial state.
    pub fn teardown(&mut self) -> (r: Vec<Release>)
        requires
            old(self).wf(),
        ensures
            r@ == release_order(old(self).instance, old(self).device),
            final(self).wf(),
            final(self).is_initial(),
    {
        let releases = vk_destroy_instance(self.instance, self.device);
        *self = Bootstrap::new();
        releases
    }
}

/// Tearing down a bootstrap that reached `InstanceReady` and no further
/// releases the instance alone: there is no logical device to release.
pub proof fn lemma_teardown_at_instance_ready(b: Bootstrap)
    requires
        b.wf(),
        b.stage == BootstrapStage::InstanceReady,
    ensures
        release_order(b.instance, b.device) == seq![Release::DestroyInstance(b.instance->0)],
{
    assert(release_order(b.instance, b.device) =~= seq![Release::DestroyInstance(b.instance->0)]);
}

/// What teardown releases at each stage: nothing before `InstanceReady`;
/// the instance alone until the logical device exists; after that the
/// logical device, then the instance.
pub proof fn lemma_teardown_by_stage(b: Bootstrap)
    requires
        b.wf(),
    ensures
        stage_rank(b.stage) < 2 ==> release_order(b.instance, b.device).len() == 0,
        2 <= stage_rank(b.stage) < 5 ==> release_order(b.instance, b.device) == seq![
            Release::DestroyInstance(b.instance->0),
        ],
        stage_rank(b.stage) == 5 ==> release_order(b.instance, b.device) == seq![
            Release::DestroyDevice(b.device->0),
            Release::DestroyInstance(b.instance->0),
        ],
{
    let r = release_order(b.instance, b.device);
    if stage_rank(b.stage) < 2 {
        assert(r =~= Seq::<Release>::empty());
    } else if stage_rank(b.stage) < 5 {
        assert(r =~= seq![Release::DestroyInstance(b.instance->0)]);
    } else {
        assert(r =~= seq![
            Release::DestroyDevice(b.device->0),
            Release::DestroyInstance(b.instance->0),
        ]);
    }
}

} // verus!
