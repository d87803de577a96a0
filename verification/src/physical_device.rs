use crate::constants::PHYSICAL_DEVICE_TYPE_CPU;
use crate::constants::PHYSICAL_DEVICE_TYPE_DISCRETE_GPU;
use crate::constants::PHYSICAL_DEVICE_TYPE_INTEGRATED_GPU;
use crate::instance::find_queue_families;
use crate::instance::QueueFamilyProperties;
use crate::instance::Version;
use vstd::prelude::*;

verus! {

/// The device extension that a renderer cannot do without.
pub const SWAPCHAIN_EXTENSION: &'static str = "VK_KHR_swapchain";

/// The optional features that the renderer needs of a device.
#[derive(Clone, Copy, Debug, PartialEq, Eq, Structural)]
pub struct SupportedFeatures {
    pub buffer_device_address: bool,
    pub descriptor_indexing: bool,
    pub dynamic_rendering: bool,
    pub synchronization2: bool,
}

/// What device selection reads of one physical device, for one surface.
#[derive(Debug)]
pub struct PhysicalDeviceInfo {
    pub handle: u64,
    pub api_version: u32,
    pub device_type: i32,
    pub queue_families: Vec<QueueFamilyProperties>,
    pub extensions: Vec<String>,
    pub surface_format_count: usize,
    pub present_mode_count: usize,
    pub features: SupportedFeatures,
}

/// Chooses the physical device to render with.
#[derive(Clone, Copy, Debug)]
pub struct PhysicalDeviceSelector {
    minimum_vulkan_version: Version,
}

/// How many of the names `supported` occur among the names `required`.
pub open spec fn count_required(supported: Seq<Seq<char>>, required: Seq<Seq<char>>) -> nat
    decreases supported.len(),
{
    if supported.len() == 0 {
        0
    } else {
        count_required(supported.drop_last(), required) + if required.contains(supported.last()) {
            1nat
        } else {
            0nat
        }
    }
}

/// Whether as many of the device's extensions are required ones as there
/// are required ones.
pub open spec fn extensions_supported(supported: Seq<Seq<char>>, required: Seq<Seq<char>>) -> bool {
    count_required(supported, required) == required.len()
}

/// The names of the device extensions that the renderer needs: the
/// swapchain extension alone.
pub open spec fn required_extension_names() -> Seq<Seq<char>> {
    seq![SWAPCHAIN_EXTENSION@]
}

pub fn required_device_extensions() -> (names: Vec<String>)
    ensures
        names.deep_view() == required_extension_names(),
{
    let mut names: Vec<String> = Vec::new();
    names.push(SWAPCHAIN_EXTENSION.to_owned());
    assert(names.deep_view() =~= required_extension_names());
    names
}

pub open spec fn features_supported(features: SupportedFeatures) -> bool {
    &&& features.buffer_device_address
    &&& features.descriptor_indexing
    &&& features.dynamic_rendering
    &&& features.synchronization2
}

/// The rank of a device type: discrete before integrated before CPU before
/// the rest.
pub open spec fn suitability_score(device_type: i32) -> u64 {
    if device_type == PHYSICAL_DEVICE_TYPE_DISCRETE_GPU {
        1000
    } else if device_type == PHYSICAL_DEVICE_TYPE_INTEGRATED_GPU {
        100
    } else if device_type == PHYSICAL_DEVICE_TYPE_CPU {
        10
    } else {
        0
    }
}

/// Whether some family of the device takes graphics work and some family
/// can present.
pub open spec fn queue_families_complete(families: Seq<QueueFamilyProperties>) -> bool {
    &&& exists|i: int| 0 <= i < families.len() && (#[trigger] families[i]).has_graphics()
    &&& exists|i: int| 0 <= i < families.len() && (#[trigger] families[i]).present_support
}

impl PhysicalDeviceInfo {
    /// A device is suitable when its API version is at least the minimum,
    /// its queue families are complete, it has the swapchain extension, the
    /// surface offers a format and a present mode, and it has the features.
    pub open spec fn suitable(&self, minimum_api_version: u32) -> bool {
        &&& minimum_api_version <= self.api_version
        &&& queue_families_complete(self.queue_families@)
        &&& extensions_supported(self.extensions.deep_view(), required_extension_names())
        &&& self.surface_format_count > 0
        &&& self.present_mode_count > 0
        &&& features_supported(self.features)
    }
}

/// Whether `chosen` is the first of the suitable devices of the highest
/// score, or `None` where no device is suitable.
pub open spec fn is_best_device(
    devices: Seq<PhysicalDeviceInfo>,
    minimum_api_version: u32,
    chosen: Option<usize>,
) -> bool {
    match chosen {
        Some(best) => {
            &&& best < devices.len()
            &&& devices[best as int].suitable(minimum_api_version)
            &&& forall|j: int|
                0 <= j < devices.len() && (#[trigger] devices[j]).suitable(minimum_api_version)
                    ==> suitability_score(devices[j].device_type) <= suitability_score(
                    devices[best as int].device_type,
                )
            &&& forall|j: int|
                0 <= j < best && (#[trigger] devices[j]).suitable(minimum_api_version)
                    ==> suitability_score(devices[j].device_type) < suitability_score(
                    devices[best as int].device_type,
                )
        },
        None => forall|j: int|
            0 <= j < devices.len() ==> !(#[trigger] devices[j]).suitable(minimum_api_version),
    }
}

fn contains_name(names: &Vec<String>, name: &String) -> (found: bool)
    ensures
        found == names.deep_view().contains(name@),
{
    let mut j: usize = 0;
    while j < names.len()
        invariant
            j <= names.len(),
            forall|k: int| 0 <= k < j ==> names.deep_view()[k] != name@,
        decreases names.len() - j,
    {
        assert(names.deep_view()[j as int] == names[j as int]@);
        if names[j] == *name {
            return true;
        }
        j += 1;
    }
    false
}

impl PhysicalDeviceSelector {
    pub closed spec fn minimum_version(self) -> Version {
        self.minimum_vulkan_version
    }

    pub fn new(minimum_vulkan_version: Version) -> (selector: Self)
        ensures
            selector.minimum_version() == minimum_vulkan_version,
    {
        PhysicalDeviceSelector { minimum_vulkan_version }
    }

    /// The index of the device to use: the first suitable one of the
    /// highest score. `None` where no device is suitable.
    pub fn select(&self, devices: &Vec<PhysicalDeviceInfo>) -> (chosen: Option<usize>)
        requires
            forall|i: int|
                0 <= i < devices.len() ==> (#[trigger] devices[i]).queue_families.len() <= u32::MAX,
        ensures
            is_best_device(devices@, self.minimum_version().api_version(), chosen),
    {
        let minimum: u32 = self.minimum_vulkan_version.to_api_version();
        let mut chosen: Option<usize> = None;
        let mut best_score: u64 = 0;
        let mut i: usize = 0;
        while i < devices.len()
            invariant
                i <= devices.len(),
                minimum == self.minimum_version().api_version(),
                forall|k: int|
                    0 <= k < devices.len() ==> (#[trigger] devices[k]).queue_families.len()
                        <= u32::MAX,
                is_best_device(devices@.take(i as int), minimum, chosen),
                chosen matches Some(best) ==> best_score == suitability_score(
                    devices[best as int].device_type,
                ),
            decreases devices.len() - i,
        {
            let device = &devices[i];
            let suitable = Self::is_device_suitable(device, minimum);
            let score = Self::get_device_suitability_score(device.device_type);
            let ghost before = devices@.take(i as int);
            let ghost now = devices@.take(i + 1);
            proof {
                assert forall|j: int| 0 <= j < before.len() implies before[j] == now[j] by {}
                assert(now[i as int] == devices[i as int]);
            }
            if suitable {
                let better = match chosen {
                    Some(_) => score > best_score,
                    None => true,
                };
                if better {
                    chosen = Some(i);
                    best_score = score;
                }
            }
            i += 1;
        }
        assert(devices@.take(i as int) == devices@);
        chosen
    }

    pub fn is_device_suitable(device: &PhysicalDeviceInfo, minimum_api_version: u32) -> (suitable:
        bool)
        requires
            device.queue_families.len() <= u32::MAX,
        ensures
            suitable == device.suitable(minimum_api_version),
    {
        if minimum_api_version > device.api_version {
            return false;
        }
        let indices = find_queue_families(&device.queue_families);
        let queue_families_supported = indices.is_complete();
        let required = required_device_extensions();
        let extensions_supported = Self::check_device_extension_support(
            &device.extensions,
            &required,
        );
        let mut swapchain_adequate = false;
        if extensions_supported {
            swapchain_adequate = device.surface_format_count > 0 && device.present_mode_count > 0;
        }
        let features_supported = Self::check_feature_support(&device.features);
        queue_families_supported && extensions_supported && swapchain_adequate
            && features_supported
    }

    /// Whether as many of the supported extensions are required ones as
    /// there are required ones.
    pub fn check_device_extension_support(supported: &Vec<String>, required: &Vec<String>) -> (all:
        bool)
        ensures
            all == extensions_supported(supported.deep_view(), required.deep_view()),
    {
        let mut matching: usize = 0;
        let mut i: usize = 0;
        while i < supported.len()
            invariant
                i <= supported.len(),
                matching <= i,
                matching == count_required(
                    supported.deep_view().take(i as int),
                    required.deep_view(),
                ),
            decreases supported.len() - i,
        {
            proof {
                let names = supported.deep_view();
                assert(names.take(i + 1).drop_last() == names.take(i as int));
                assert(names.take(i + 1).last() == supported[i as int]@);
            }
            if contains_name(required, &supported[i]) {
                matching += 1;
            }
            i += 1;
        }
        assert(supported.deep_view().take(i as int) == supported.deep_view());
        matching == required.len()
    }

    pub fn check_feature_support(features: &SupportedFeatures) -> (supported: bool)
        ensures
            supported == features_supported(*features),
    {
        features.buffer_device_address && features.descriptor_indexing
            && features.dynamic_rendering && features.synchronization2
    }

    pub fn get_device_suitability_score(device_type: i32) -> (score: u64)
        ensures
            score == suitability_score(device_type),
    {
        if device_type == PHYSICAL_DEVICE_TYPE_DISCRETE_GPU {
            1000
        } else if device_type == PHYSICAL_DEVICE_TYPE_INTEGRATED_GPU {
            100
        } else if device_type == PHYSICAL_DEVICE_TYPE_CPU {
            10
        } else {
            0
        }
    }
}

} // verus!
