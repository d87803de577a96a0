use crate::constants::QUEUE_GRAPHICS;
use crate::debug::DebugMessengerCreateInfo;
use crate::window::DisplayKind;
use vstd::prelude::*;

verus! {

/// A semantic version triple.
#[derive(Clone, Copy, Debug, PartialEq, Eq, Structural)]
pub struct Version {
    pub major: u32,
    pub minor: u32,
    pub patch: u32,
}

/// The packed form of an API version: variant in the top three bits, then
/// ten bits of major, ten bits of minor and twelve bits of patch. Fields
/// wider than their slot spill into the slots above them.
pub open spec fn packed_api_version(variant: u32, major: u32, minor: u32, patch: u32) -> u32 {
    (variant << 29) | (major << 22) | (minor << 12) | patch
}

/// `ash::vk::make_api_version`: shifts the four fields into place and ors
/// them together, exactly as `packed_api_version` states.
#[verifier::external_body]
fn make_api_version(variant: u32, major: u32, minor: u32, patch: u32) -> (packed: u32)
    ensures
        packed == packed_api_version(variant, major, minor, patch),
{
    ash::vk::make_api_version(variant, major, minor, patch)
}

impl Version {
    pub open spec fn api_version(self) -> u32 {
        packed_api_version(0, self.major, self.minor, self.patch)
    }

    /// The version packed for the graphics API, with variant 0.
    pub fn to_api_version(self) -> (packed: u32)
        ensures
            packed == self.api_version(),
    {
        make_api_version(0, self.major, self.minor, self.patch)
    }
}

/// Whether each field of the version fits its slot in the packed form:
/// seven bits of major, ten of minor, twelve of patch.
pub open spec fn fits_packed(version: Version) -> bool {
    version.major < 0x80 && version.minor < 0x400 && version.patch < 0x1000
}

/// Whether `first` comes before `second` or is the same version.
pub open spec fn version_at_most(first: Version, second: Version) -> bool {
    first.major < second.major || (first.major == second.major && (first.minor < second.minor
        || (first.minor == second.minor && first.patch <= second.patch)))
}

/// Packed versions compare as the versions do, as long as every field fits
/// its slot; and packing loses nothing of such a version.
pub proof fn lemma_api_version_order(first: Version, second: Version)
    requires
        fits_packed(first),
        fits_packed(second),
    ensures
        first.api_version() <= second.api_version() <==> version_at_most(first, second),
        first.api_version() == second.api_version() <==> first == second,
{
    let (a, b, c) = (first.major, first.minor, first.patch);
    let (x, y, z) = (second.major, second.minor, second.patch);
    assert(packed_api_version(0, a, b, c) == a * 0x40_0000 + b * 0x1000 + c) by (bit_vector)
        requires
            a < 0x80,
            b < 0x400,
            c < 0x1000,
    ;
    assert(packed_api_version(0, x, y, z) == x * 0x40_0000 + y * 0x1000 + z) by (bit_vector)
        requires
            x < 0x80,
            y < 0x400,
            z < 0x1000,
    ;
}

/// Name and version of the application.
#[derive(Debug)]
pub struct AppInfo {
    pub name: String,
    pub version: Version,
}

/// Name and version of the engine, and the API version it needs.
#[derive(Debug)]
pub struct EngineInfo {
    pub name: String,
    pub version: Version,
    pub vulkan_version: Version,
}

/// What device selection reads of one queue family: its capability bits,
/// and whether it can present to the surface in question.
#[derive(Clone, Copy, Debug, PartialEq, Eq, Structural)]
pub struct QueueFamilyProperties {
    pub queue_flags: u32,
    pub present_support: bool,
}

impl QueueFamilyProperties {
    pub open spec fn has_graphics(self) -> bool {
        self.queue_flags & QUEUE_GRAPHICS == QUEUE_GRAPHICS
    }

    pub fn supports_graphics(&self) -> (graphics: bool)
        ensures
            graphics == self.has_graphics(),
    {
        self.queue_flags & QUEUE_GRAPHICS == QUEUE_GRAPHICS
    }
}

/// The queue families chosen for graphics work and for presentation.
#[derive(Clone, Copy, Debug, PartialEq, Eq, Structural)]
pub struct QueueFamilyIndices {
    pub graphics_family: Option<u32>,
    pub presentation_family: Option<u32>,
}

impl QueueFamilyIndices {
    pub fn new() -> (indices: Self)
        ensures
            indices.graphics_family is None,
            indices.presentation_family is None,
    {
        QueueFamilyIndices { graphics_family: None, presentation_family: None }
    }

    /// Whether both a graphics and a presentation family were found.
    pub fn is_complete(&self) -> (complete: bool)
        ensures
            complete == (self.graphics_family is Some && self.presentation_family is Some),
    {
        self.graphics_family.is_some() && self.presentation_family.is_some()
    }
}

/// Whether `chosen` is the last family that takes graphics work, or `None`
/// where no family does.
pub open spec fn is_last_graphics_family(
    families: Seq<QueueFamilyProperties>,
    chosen: Option<u32>,
) -> bool {
    match chosen {
        Some(index) => {
            &&& index < families.len()
            &&& families[index as int].has_graphics()
            &&& forall|j: int| index < j < families.len() ==> !(#[trigger] families[j]).has_graphics()
        },
        None => forall|j: int| 0 <= j < families.len() ==> !(#[trigger] families[j]).has_graphics(),
    }
}

/// Whether `chosen` is the last family that can present, or `None` where no
/// family can.
pub open spec fn is_last_present_family(
    families: Seq<QueueFamilyProperties>,
    chosen: Option<u32>,
) -> bool {
    match chosen {
        Some(index) => {
            &&& index < families.len()
            &&& families[index as int].present_support
            &&& forall|j: int| index < j < families.len() ==> !(#[trigger] families[j]).present_support
        },
        None => forall|j: int| 0 <= j < families.len() ==> !(#[trigger] families[j]).present_support,
    }
}

/// Picks, among the queue families of a device, the last one that takes
/// graphics work and the last one that can present.
pub fn find_queue_families(families: &Vec<QueueFamilyProperties>) -> (indices: QueueFamilyIndices)
    requires
        families.len() <= u32::MAX,
    ensures
        is_last_graphics_family(families@, indices.graphics_family),
        is_last_present_family(families@, indices.presentation_family),
{
    let mut indices = QueueFamilyIndices::new();
    let mut idx: usize = 0;
    while idx < families.len()
        invariant
            idx <= families.len(),
            families.len() <= u32::MAX,
            is_last_graphics_family(families@.take(idx as int), indices.graphics_family),
            is_last_present_family(families@.take(idx as int), indices.presentation_family),
        decreases families.len() - idx,
    {
        let family = families[idx];
        if family.supports_graphics() {
            indices.graphics_family = Some(idx as u32);
        }
        if family.present_support {
            indices.presentation_family = Some(idx as u32);
        }
        idx += 1;
        proof {
            let before = families@.take(idx - 1);
            let now = families@.take(idx as int);
            assert forall|j: int| 0 <= j < before.len() implies before[j] == now[j] by {}
            assert(now[idx - 1] == family);
        }
    }
    assert(families@.take(idx as int) == families@);
    indices
}

/// Whether every required layer is among the available ones.
pub open spec fn layers_supported(available: Seq<Seq<char>>, required: Seq<Seq<char>>) -> bool {
    forall|i: int| 0 <= i < required.len() ==> available.contains(#[trigger] required[i])
}

fn contains_layer(names: &Vec<String>, name: &String) -> (found: bool)
    ensures
        found == names.deep_view().contains(name@),
{
    let mut j: usize = 0;
    while j < names.len()
        invariant
            j <= names.len(),
            forall|k: int| 0 <= k < j ==> names.deep_view()[k] != name@,
        decreases names.len() - j,
    {
        assert(names.deep_view()[j as int] == names[j as int]@);
        if names[j] == *name {
            return true;
        }
        j += 1;
    }
    false
}

/// Whether the instance offers every layer that is required.
pub fn check_instance_layer_support(available: &Vec<String>, required: &Vec<String>) -> (supported:
    bool)
    ensures
        supported == layers_supported(available.deep_view(), required.deep_view()),
{
    let mut i: usize = 0;
    while i < required.len()
        invariant
            i <= required.len(),
            forall|k: int|
                0 <= k < i ==> available.deep_view().contains(#[trigger] required.deep_view()[k]),
        decreases required.len() - i,
    {
        assert(required.deep_view()[i as int] == required[i as int]@);
        if !contains_layer(available, &required[i]) {
            return false;
        }
        i += 1;
    }
    true
}

/// What an instance of the graphics API is created with.
#[derive(Debug)]
pub struct InstanceCreateInfo {
    pub application_name: String,
    pub application_version: u32,
    pub engine_name: String,
    pub engine_version: u32,
    pub api_version: u32,
    pub enabled_layers: Vec<String>,
    pub enabled_extensions: Vec<String>,
    pub debug_messenger: Option<DebugMessengerCreateInfo>,
}

/// The kinds of window that a surface can be made on.
#[derive(Clone, Copy, Debug, PartialEq, Eq, Structural)]
pub enum WindowKind {
    Win32,
    Wayland,
    Xlib,
    Xcb,
    AndroidNdk,
    /// A kind of window on which no surface can be made.
    Unsupported,
}

/// The ways in which a surface is made.
#[derive(Clone, Copy, Debug, PartialEq, Eq, Structural)]
pub enum SurfaceKind {
    Win32,
    Wayland,
    Xlib,
    Xcb,
    Android,
}

/// The way to make a surface for a window on a display: the one of the
/// windowing system, where display and window are of the same one.
pub open spec fn surface_kind(display: DisplayKind, window: WindowKind) -> Option<SurfaceKind> {
    match (display, window) {
        (DisplayKind::Windows, WindowKind::Win32) => Some(SurfaceKind::Win32),
        (DisplayKind::Wayland, WindowKind::Wayland) => Some(SurfaceKind::Wayland),
        (DisplayKind::Xlib, WindowKind::Xlib) => Some(SurfaceKind::Xlib),
        (DisplayKind::Xcb, WindowKind::Xcb) => Some(SurfaceKind::Xcb),
        (DisplayKind::Android, WindowKind::AndroidNdk) => Some(SurfaceKind::Android),
        _ => None,
    }
}

/// The entry to the graphics API.
#[derive(Clone, Copy, Debug, PartialEq, Eq, Structural)]
pub struct Instance {
    handle: u64,
}

impl Instance {
    pub closed spec fn spec_handle(&self) -> u64 {
        self.handle
    }

    /// Describes the instance for an application and an engine. `None`
    /// where a required layer is not available.
    pub fn create_info(
        app_info: AppInfo,
        engine_info: EngineInfo,
        available_layers: &Vec<String>,
        required_layers: Vec<String>,
        required_extensions: Vec<String>,
        debug_messenger: Option<DebugMessengerCreateInfo>,
    ) -> (info: Option<InstanceCreateInfo>)
        ensures
            info is Some <==> layers_supported(
                available_layers.deep_view(),
                required_layers.deep_view(),
            ),
            info matches Some(described) ==> {
                &&& described.application_name@ == app_info.name@
                &&& described.application_version == app_info.version.api_version()
                &&& described.engine_name@ == engine_info.name@
                &&& described.engine_version == engine_info.version.api_version()
                &&& described.api_version == engine_info.vulkan_version.api_version()
                &&& described.enabled_layers@ == required_layers@
                &&& described.enabled_extensions@ == required_extensions@
                &&& described.debug_messenger == debug_messenger
            },
    {
        if !check_instance_layer_support(available_layers, &required_layers) {
            return None;
        }
        Some(
            InstanceCreateInfo {
                application_name: app_info.name,
                application_version: app_info.version.to_api_version(),
                engine_name: engine_info.name,
                engine_version: engine_info.version.to_api_version(),
                api_version: engine_info.vulkan_version.to_api_version(),
                enabled_layers: required_layers,
                enabled_extensions: required_extensions,
                debug_messenger,
            },
        )
    }

    pub fn new(handle: u64) -> (instance: Self)
        ensures
            instance.spec_handle() == handle,
    {
        Instance { handle }
    }

    #[verifier::when_used_as_spec(spec_handle)]
    pub fn handle(&self) -> (handle: u64)
        ensures
            handle == self.spec_handle(),
    {
        self.handle
    }

    /// The way to make a surface for `window` on `display`; `None` where
    /// there is none.
    pub fn create_surface(display: DisplayKind, window: WindowKind) -> (kind: Option<SurfaceKind>)
        ensures
            kind == surface_kind(display, window),
    {
        match (display, window) {
            (DisplayKind::Windows, WindowKind::Win32) => Some(SurfaceKind::Win32),
            (DisplayKind::Wayland, WindowKind::Wayland) => Some(SurfaceKind::Wayland),
            (DisplayKind::Xlib, WindowKind::Xlib) => Some(SurfaceKind::Xlib),
            (DisplayKind::Xcb, WindowKind::Xcb) => Some(SurfaceKind::Xcb),
            (DisplayKind::Android, WindowKind::AndroidNdk) => Some(SurfaceKind::Android),
            _ => None,
        }
    }

    /// The queue families of a device for graphics work and presentation.
    pub fn find_queue_families(families: &Vec<QueueFamilyProperties>) -> (indices:
        QueueFamilyIndices)
        requires
            families.len() <= u32::MAX,
        ensures
            is_last_graphics_family(families@, indices.graphics_family),
            is_last_present_family(families@, indices.presentation_family),
    {
        find_queue_families(families)
    }
}

} // verus!
