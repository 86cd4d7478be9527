use vstd::prelude::*;

use crate::error::VulkanError;
use crate::handle::PhysicalDeviceHandle;

verus! {

/// Queue family capability bit: the family accepts graphics commands.
pub const QUEUE_GRAPHICS_BIT: u32 = 0x1;

/// Queue family capability bit: the family accepts compute commands.
pub const QUEUE_COMPUTE_BIT: u32 = 0x2;

/// Queue family capability bit: the family accepts transfer commands.
pub const QUEUE_TRANSFER_BIT: u32 = 0x4;

/// Score bonus for a device classified as a discrete GPU.
pub const DISCRETE_GPU_BONUS: u64 = 1000;

/// The platform's classification of a physical device.
#[derive(Debug, Clone, Copy, PartialEq, Eq, Structural)]
pub enum PhysicalDeviceType {
    Other,
    IntegratedGpu,
    DiscreteGpu,
    VirtualGpu,
    Cpu,
}

impl PhysicalDeviceType {
    /// Decodes the platform's numeric classification; a code this crate does
    /// not know is `Other`, as is the zero of a blank snapshot.
    pub fn from_raw(code: u32) -> (r: PhysicalDeviceType)
        ensures
            r == device_type_of(code),
    {
        match code {
            1 => PhysicalDeviceType::IntegratedGpu,
            2 => PhysicalDeviceType::DiscreteGpu,
            3 => PhysicalDeviceType::VirtualGpu,
            4 => PhysicalDeviceType::Cpu,
            _ => PhysicalDeviceType::Other,
        }
    }
}

/// The platform's numbering of device classifications.
pub open spec fn device_type_of(code: u32) -> PhysicalDeviceType {
    if code == 1 {
        PhysicalDeviceType::IntegratedGpu
    } else if code == 2 {
        PhysicalDeviceType::DiscreteGpu
    } else if code == 3 {
        PhysicalDeviceType::VirtualGpu
    } else if code == 4 {
        PhysicalDeviceType::Cpu
    } else {
        PhysicalDeviceType::Other
    }
}

/// The properties of a device that selection reads.
#[derive(Debug, Clone, Copy, PartialEq, Eq, Structural)]
pub struct PhysicalDeviceProperties {
    pub device_type: PhysicalDeviceType,
    /// Largest supported width or height of a 2D image.
    pub max_image_dimension_2d: u32,
}

/// The optional features of a device that selection reads.
#[derive(Debug, Clone, Copy, PartialEq, Eq, Structural)]
pub struct PhysicalDeviceFeatures {
    pub geometry_shader: bool,
}

/// A device capability snapshot: properties and features of one device.
#[derive(Debug, Clone, Copy, PartialEq, Eq, Structural)]
pub struct DeviceInfo {
    pub properties: PhysicalDeviceProperties,
    pub features: PhysicalDeviceFeatures,
}

/// The snapshot before the platform has filled anything in: every field at
/// its zero value.
pub open spec fn blank_device_info() -> DeviceInfo {
    DeviceInfo {
        properties: PhysicalDeviceProperties {
            device_type: PhysicalDeviceType::Other,
            max_image_dimension_2d: 0,
        },
        features: PhysicalDeviceFeatures { geometry_shader: false },
    }
}

impl DeviceInfo {
    /// A fully zeroed snapshot, to be filled by a capability query. Fields
    /// the query does not know stay at their zero value, never undefined.
    pub fn blank() -> (r: DeviceInfo)
        ensures
            r == blank_device_info(),
    {
        DeviceInfo {
            properties: PhysicalDeviceProperties {
                device_type: PhysicalDeviceType::Other,
                max_image_dimension_2d: 0,
            },
            features: PhysicalDeviceFeatures { geometry_shader: false },
        }
    }
}

impl Default for DeviceInfo {
    fn default() -> (r: DeviceInfo)
        ensures
            r == blank_device_info(),
    {
        DeviceInfo::blank()
    }
}

/// One queue family of a device.
#[derive(Debug, Clone, Copy, PartialEq, Eq, Structural)]
pub struct QueueFamilyProperties {
    /// Capability bits (`QUEUE_GRAPHICS_BIT`, ...).
    pub queue_flags: u32,
    pub queue_count: u32,
}

/// One enumerated device, with what the platform reported of it.
#[derive(Debug, PartialEq, Eq)]
pub struct PhysicalDevice {
    pub handle: PhysicalDeviceHandle,
    pub info: DeviceInfo,
    pub queue_families: Vec<QueueFamilyProperties>,
}

/// Which devices count as suitable.
#[derive(Debug, Clone, Copy, PartialEq, Eq, Structural)]
pub enum SuitabilityPolicy {
    /// A device is suitable when it has a graphics-capable queue family.
    /// This is the default policy.
    GraphicsQueue,
    /// Additionally, the device must be a discrete GPU with geometry shader
    /// support.
    DiscreteWithGeometryShader,
}

pub open spec fn supports_graphics(family: QueueFamilyProperties) -> bool {
    family.queue_flags & QUEUE_GRAPHICS_BIT != 0
}

/// `i` is the first graphics-capable family in `families`.
pub open spec fn is_first_graphics_family(families: Seq<QueueFamilyProperties>, i: int) -> bool {
    &&& 0 <= i < families.len()
    &&& supports_graphics(families[i])
    &&& forall|j: int| 0 <= j < i ==> !supports_graphics(#[trigger] families[j])
}

pub open spec fn has_graphics_family(families: Seq<QueueFamilyProperties>) -> bool {
    exists|i: int| 0 <= i < families.len() && supports_graphics(#[trigger] families[i])
}

/// What the queue family resolver answers for a device with these families.
pub open spec fn resolved_queue_family(families: Seq<QueueFamilyProperties>) -> Result<
    u32,
    VulkanError,
> {
    if has_graphics_family(families) {
        Ok(choose|i: u32| is_first_graphics_family(families, i as int))
    } else {
        Err(VulkanError::NoQueueFamilyIndices)
    }
}

/// Returns the index of the first queue family that supports graphics
/// commands, or `NoQueueFamilyIndices` when there is none.
pub fn vk_find_queue_families(families: &Vec<QueueFamilyProperties>) -> (r: Result<
    u32,
    VulkanError,
>)
    requires
        families@.len() <= u32::MAX,
    ensures
        r == resolved_queue_family(families@),
        r is Ok <==> has_graphics_family(families@),
        r matches Ok(i) ==> is_first_graphics_family(families@, i as int),
{
    let mut i: usize = 0;
    while i < families.len()
        invariant
            i <= families@.len() <= u32::MAX,
            forall|j: int| 0 <= j < i ==> !supports_graphics(#[trigger] families@[j]),
        decreases families@.len() - i,
    {
        if families[i].queue_flags & QUEUE_GRAPHICS_BIT != 0 {
            let index = i as u32;
            proof {
                lemma_first_graphics_family_unique(families@, index as int);
            }
            return Ok(index);
        }
        i += 1;
    }
    Err(VulkanError::NoQueueFamilyIndices)
}

/// The first graphics-capable family is the one the resolver names.
proof fn lemma_first_graphics_family_unique(families: Seq<QueueFamilyProperties>, i: int)
    requires
        is_first_graphics_family(families, i),
        i <= u32::MAX,
    ensures
        has_graphics_family(families),
        resolved_queue_family(families) == Ok::<u32, VulkanError>(i as u32),
{
    let k = choose|k: u32| is_first_graphics_family(families, k as int);
    assert(is_first_graphics_family(families, (i as u32) as int));
    if (k as int) < i {
        assert(!supports_graphics(families[k as int]));
    } else if (k as int) > i {
        assert(!supports_graphics(families[i]));
    }
}

/// Resolving the queue family of one device twice gives the same answer:
/// any two results that meet the resolver's characterization, the index of
/// the first graphics-capable family or `NoQueueFamilyIndices` when there is
/// none, are equal.
pub proof fn lemma_queue_family_idempotent(
    families: Seq<QueueFamilyProperties>,
    first: Result<u32, VulkanError>,
    second: Result<u32, VulkanError>,
)
    requires
        first is Ok <==> has_graphics_family(families),
        first is Err ==> first == Err::<u32, VulkanError>(VulkanError::NoQueueFamilyIndices),
        first matches Ok(i) ==> is_first_graphics_family(families, i as int),
        second is Ok <==> has_graphics_family(families),
        second is Err ==> second == Err::<u32, VulkanError>(VulkanError::NoQueueFamilyIndices),
        second matches Ok(i) ==> is_first_graphics_family(families, i as int),
    ensures
        first == second,
{
    if let (Ok(a), Ok(b)) = (first, second) {
        if a < b {
            assert(!supports_graphics(families[a as int]));
        } else if b < a {
            assert(!supports_graphics(families[b as int]));
        }
    }
}

/// A device's score: the discrete-GPU bonus, if it is one, plus its largest
/// 2D image dimension.
pub open spec fn device_score(properties: PhysicalDeviceProperties) -> u64 {
    let bonus: u64 = if properties.device_type == PhysicalDeviceType::DiscreteGpu {
        DISCRETE_GPU_BONUS
    } else {
        0
    };
    (bonus + properties.max_image_dimension_2d) as u64
}

/// Scores a device by its properties; higher is better.
pub fn rate_device_suitability(properties: &PhysicalDeviceProperties) -> (r: u64)
    ensures
        r == device_score(*properties),
        r as int == (if properties.device_type == PhysicalDeviceType::DiscreteGpu {
            1000int
        } else {
            0int
        }) + properties.max_image_dimension_2d,
{
    let mut score: u64 = 0;
    if properties.device_type == PhysicalDeviceType::DiscreteGpu {
        score += DISCRETE_GPU_BONUS;
    }
    score += properties.max_image_dimension_2d as u64;
    score
}

impl PhysicalDevice {
    /// The platform numbers queue families with 32-bit indices.
    pub open spec fn wf(&self) -> bool {
        self.queue_families@.len() <= u32::MAX
    }
}

/// Whether `device` is suitable under `policy`.
pub open spec fn device_suitable(device: PhysicalDevice, policy: SuitabilityPolicy) -> bool {
    &&& has_graphics_family(device.queue_families@)
    &&& policy == SuitabilityPolicy::DiscreteWithGeometryShader ==> {
        &&& device.info.properties.device_type == PhysicalDeviceType::DiscreteGpu
        &&& device.info.features.geometry_shader
    }
}

/// Tests whether a device can serve the bootstrap under `policy`.
pub fn is_device_suitable(device: &PhysicalDevice, policy: SuitabilityPolicy) -> (r: bool)
    requires
        device.wf(),
    ensures
        r == device_suitable(*device, policy),
{
    match vk_find_queue_families(&device.queue_families) {
        Ok(_) => match policy {
            SuitabilityPolicy::GraphicsQueue => true,
            SuitabilityPolicy::DiscreteWithGeometryShader => {
                device.info.properties.device_type == PhysicalDeviceType::DiscreteGpu
                    && device.info.features.geometry_shader
            },
        },
        Err(_) => false,
    }
}

/// The candidate score of a device: its score when it is suitable, nothing
/// otherwise.
pub open spec fn candidate_score(device: PhysicalDevice, policy: SuitabilityPolicy) -> Option<u64> {
    if device_suitable(device, policy) {
        Some(device_score(device.info.properties))
    } else {
        None
    }
}

pub open spec fn candidate_scores(devices: Seq<PhysicalDevice>, policy: SuitabilityPolicy) -> Seq<
    Option<u64>,
> {
    devices.map_values(|d: PhysicalDevice| candidate_score(d, policy))
}

pub open spec fn all_wf(devices: Seq<PhysicalDevice>) -> bool {
    forall|i: int| 0 <= i < devices.len() ==> (#[trigger] devices[i]).wf()
}

/// Computes the candidate score of each device, in enumeration order.
pub fn score_devices(devices: &Vec<PhysicalDevice>, policy: SuitabilityPolicy) -> (r: Vec<
    Option<u64>,
>)
    requires
        all_wf(devices@),
    ensures
        r@ == candidate_scores(devices@, policy),
{
    let mut scores: Vec<Option<u64>> = Vec::new();
    let mut i: usize = 0;
    while i < devices.len()
        invariant
            i <= devices@.len(),
            all_wf(devices@),
            scores@ == candidate_scores(devices@.take(i as int), policy),
        decreases devices@.len() - i,
    {
        let device = &devices[i];
        let score = if is_device_suitable(device, policy) {
            Some(rate_device_suitability(&device.info.properties))
        } else {
            None
        };
        scores.push(score);
        proof {
            assert(devices@.take(i + 1) =~= devices@.take(i as int).push(devices@[i as int]));
        }
        i += 1;
    }
    proof {
        assert(devices@.take(i as int) =~= devices@);
    }
    scores
}

/// Some entry of `scores` is a suitable candidate.
pub open spec fn has_candidate(scores: Seq<Option<u64>>) -> bool {
    exists|j: int| 0 <= j < scores.len() && (#[trigger] scores[j]) is Some
}

/// `k` is the first index that reaches the highest score among the
/// candidates of `scores`.
pub open spec fn is_first_best(scores: Seq<Option<u64>>, k: int) -> bool {
    &&& 0 <= k < scores.len()
    &&& scores[k] is Some
    &&& forall|j: int|
        0 <= j < scores.len() && (#[trigger] scores[j]) is Some ==> scores[j]->0 <= scores[k]->0
    &&& forall|j: int| 0 <= j < k && (#[trigger] scores[j]) is Some ==> scores[j]->0 < scores[k]->0
}

/// One step of the selection fold: the best `(index, score)` so far against
/// the candidate at `index`. A later candidate replaces the best only with a
/// strictly higher score, so the first one seen wins a tie.
pub open spec fn preferred(best: Option<(usize, u64)>, index: usize, score: Option<u64>) -> Option<
    (usize, u64),
> {
    match score {
        None => best,
        Some(s) => match best {
            None => Some((index, s)),
            Some((_, bs)) => if s > bs {
                Some((index, s))
            } else {
                best
            },
        },
    }
}

/// Combines the best candidate so far with the candidate at `index`.
pub fn prefer_candidate(best: Option<(usize, u64)>, index: usize, score: Option<u64>) -> (r: Option<
    (usize, u64),
>)
    ensures
        r == preferred(best, index, score),
{
    match score {
        None => best,
        Some(s) => match best {
            None => Some((index, s)),
            Some((bi, bs)) => if s > bs {
                Some((index, s))
            } else {
                Some((bi, bs))
            },
        },
    }
}

/// Folds `prefer_candidate` over `scores` and returns the index of the first
/// candidate with the highest score, or `None` when nothing is a candidate.
pub fn select_best_candidate(scores: &Vec<Option<u64>>) -> (r: Option<usize>)
    ensures
        r is None <==> !has_candidate(scores@),
        r matches Some(k) ==> is_first_best(scores@, k as int),
{
    let mut best: Option<(usize, u64)> = None;
    let mut i: usize = 0;
    while i < scores.len()
        invariant
            i <= scores@.len(),
            best is None ==> forall|j: int| 0 <= j < i ==> (#[trigger] scores@[j]) is None,
            best matches Some((k, s)) ==> {
                &&& is_first_best(scores@.take(i as int), k as int)
                &&& scores@[k as int] == Some(s)
            },
        decreases scores@.len() - i,
    {
        best = prefer_candidate(best, i, scores[i]);
        proof {
            let t = scores@.take(i + 1);
            assert(forall|j: int| 0 <= j < i ==> t[j] == scores@.take(i as int)[j]);
        }
        i += 1;
    }
    proof {
        assert(scores@.take(i as int) =~= scores@);
    }
    match best {
        None => None,
        Some((k, _)) => Some(k),
    }
}

/// The first index with the highest score is unique: selection depends on
/// the scores alone, in enumeration order.
pub proof fn lemma_selection_deterministic(scores: Seq<Option<u64>>, a: int, b: int)
    requires
        is_first_best(scores, a),
        is_first_best(scores, b),
    ensures
        a == b,
{
}

/// Selects the physical device to use: `NoCompatibleDevice` when nothing was
/// enumerated, `NoSuitableDevice` when no device is suitable under `policy`,
/// and otherwise the index of the first suitable device with the highest
/// score.
pub fn vk_get_physical_device(devices: &Vec<PhysicalDevice>, policy: SuitabilityPolicy) -> (r: Result<
    usize,
    VulkanError,
>)
    requires
        all_wf(devices@),
    ensures
        r == Err::<usize, VulkanError>(VulkanError::NoCompatibleDevice) <==> devices@.len() == 0,
        r == Err::<usize, VulkanError>(VulkanError::NoSuitableDevice) <==> devices@.len() > 0
            && !has_candidate(candidate_scores(devices@, policy)),
        r is Ok <==> has_candidate(candidate_scores(devices@, policy)),
        r matches Ok(k) ==> is_first_best(candidate_scores(devices@, policy), k as int),
{
    if devices.len() == 0 {
        return Err(VulkanError::NoCompatibleDevice);
    }
    let scores = score_devices(devices, policy);
    match select_best_candidate(&scores) {
        Some(k) => Ok(k),
        None => Err(VulkanError::NoSuitableDevice),
    }
}

} // verus!
