use crate::constants::COLOR_SPACE_SRGB_NONLINEAR;
use crate::constants::COMPOSITE_ALPHA_OPAQUE;
use crate::constants::FORMAT_B8G8R8_SRGB;
use crate::constants::IMAGE_USAGE_COLOR_ATTACHMENT;
use crate::constants::IMAGE_USAGE_TRANSFER_DST;
use crate::constants::PRESENT_MODE_FIFO;
use crate::constants::PRESENT_MODE_MAILBOX;
use crate::constants::SHARING_MODE_CONCURRENT;
use crate::constants::SHARING_MODE_EXCLUSIVE;
use crate::device::Device;
use crate::device::Extent2D;
use vstd::prelude::*;

verus! {

pub const SURFACE_EXTENSION: &'static str = "VK_KHR_surface";

pub const WIN32_SURFACE_EXTENSION: &'static str = "VK_KHR_win32_surface";

pub const WAYLAND_SURFACE_EXTENSION: &'static str = "VK_KHR_wayland_surface";

pub const XLIB_SURFACE_EXTENSION: &'static str = "VK_KHR_xlib_surface";

pub const XCB_SURFACE_EXTENSION: &'static str = "VK_KHR_xcb_surface";

pub const ANDROID_SURFACE_EXTENSION: &'static str = "VK_KHR_android_surface";

pub const METAL_SURFACE_EXTENSION: &'static str = "VK_EXT_metal_surface";

/// The windowing systems that a surface can be made for.
#[derive(Clone, Copy, Debug, PartialEq, Eq, Structural)]
pub enum DisplayKind {
    Windows,
    Wayland,
    Xlib,
    Xcb,
    Android,
    AppKit,
    UiKit,
    /// A windowing system for which no surface can be made.
    Unsupported,
}

/// The name of the surface extension of a windowing system.
pub open spec fn platform_surface_extension(display: DisplayKind) -> Option<Seq<char>> {
    match display {
        DisplayKind::Windows => Some(WIN32_SURFACE_EXTENSION@),
        DisplayKind::Wayland => Some(WAYLAND_SURFACE_EXTENSION@),
        DisplayKind::Xlib => Some(XLIB_SURFACE_EXTENSION@),
        DisplayKind::Xcb => Some(XCB_SURFACE_EXTENSION@),
        DisplayKind::Android => Some(ANDROID_SURFACE_EXTENSION@),
        DisplayKind::AppKit => Some(METAL_SURFACE_EXTENSION@),
        DisplayKind::UiKit => Some(METAL_SURFACE_EXTENSION@),
        DisplayKind::Unsupported => None,
    }
}

/// The instance extensions that presenting to a window needs: the surface
/// extension of the windowing system, then the general surface extension.
/// `None` for a windowing system without support.
pub fn get_required_instance_extensions(display: DisplayKind) -> (extensions: Option<Vec<String>>)
    ensures
        extensions is Some <==> platform_surface_extension(display) is Some,
        extensions matches Some(names) ==> names.deep_view() == seq![
            platform_surface_extension(display)->0,
            SURFACE_EXTENSION@,
        ],
{
    let platform: &'static str = match display {
        DisplayKind::Windows => WIN32_SURFACE_EXTENSION,
        DisplayKind::Wayland => WAYLAND_SURFACE_EXTENSION,
        DisplayKind::Xlib => XLIB_SURFACE_EXTENSION,
        DisplayKind::Xcb => XCB_SURFACE_EXTENSION,
        DisplayKind::Android => ANDROID_SURFACE_EXTENSION,
        DisplayKind::AppKit => METAL_SURFACE_EXTENSION,
        DisplayKind::UiKit => METAL_SURFACE_EXTENSION,
        DisplayKind::Unsupported => {
            return None;
        },
    };
    let mut names: Vec<String> = Vec::new();
    names.push(platform.to_owned());
    names.push(SURFACE_EXTENSION.to_owned());
    assert(names.deep_view() =~= seq![
        platform_surface_extension(display)->0,
        SURFACE_EXTENSION@,
    ]);
    Some(names)
}

/// The size of a window in logical pixels.
#[derive(Clone, Copy, Debug, PartialEq, Eq, Structural)]
pub struct LogicalSize {
    pub width: u32,
    pub height: u32,
}

#[derive(Clone, Copy, Debug, PartialEq, Eq, Structural)]
pub struct SurfaceFormat {
    pub format: i32,
    pub color_space: i32,
}

/// What a surface can do on a device.
#[derive(Clone, Copy, Debug, PartialEq, Eq, Structural)]
pub struct SurfaceCapabilities {
    pub min_image_count: u32,
    /// Zero where the number of images has no upper limit.
    pub max_image_count: u32,
    /// A width of `u32::MAX` where the surface takes the size of the
    /// swapchain.
    pub current_extent: Extent2D,
    pub min_image_extent: Extent2D,
    pub max_image_extent: Extent2D,
    pub current_transform: u32,
}

/// What a device offers for swapchains on a surface.
#[derive(Debug)]
pub struct SwapChainSupportDetails {
    pub capabilities: SurfaceCapabilities,
    pub surface_formats: Vec<SurfaceFormat>,
    pub present_modes: Vec<i32>,
}

/// What a swapchain is created with.
#[derive(Debug)]
pub struct SwapchainCreateInfo {
    pub surface: u64,
    pub min_image_count: u32,
    pub image_format: i32,
    pub image_color_space: i32,
    pub image_extent: Extent2D,
    pub image_array_layers: u32,
    pub image_usage: u32,
    pub image_sharing_mode: i32,
    pub queue_family_indices: Vec<u32>,
    pub pre_transform: u32,
    pub composite_alpha: u32,
    pub present_mode: i32,
    pub clipped: bool,
    pub old_swapchain: u64,
}

/// The request for the next presentable image.
#[derive(Clone, Copy, Debug, PartialEq, Eq, Structural)]
pub struct AcquireInfo {
    pub swapchain: u64,
    pub timeout: u64,
    pub semaphore: u64,
    pub fence: u64,
}

/// The request to show one swapchain image once a semaphore is signaled.
#[derive(Clone, Copy, Debug, PartialEq, Eq, Structural)]
pub struct PresentInfo {
    pub queue: u64,
    pub swapchain: u64,
    pub wait_semaphore: u64,
    pub image_index: u32,
}

/// Whether a format is the one wished for: eight-bit BGR in non-linear
/// sRGB.
pub open spec fn is_desired_format(format: SurfaceFormat) -> bool {
    format.format == FORMAT_B8G8R8_SRGB && format.color_space == COLOR_SPACE_SRGB_NONLINEAR
}

/// The format to use: the first one wished for, else the first one offered;
/// `None` where none is offered.
pub open spec fn chosen_surface_format(formats: Seq<SurfaceFormat>) -> Option<SurfaceFormat> {
    if formats.len() == 0 {
        None
    } else if exists|i: int| 0 <= i < formats.len() && is_desired_format(#[trigger] formats[i]) {
        Some(
            SurfaceFormat { format: FORMAT_B8G8R8_SRGB, color_space: COLOR_SPACE_SRGB_NONLINEAR },
        )
    } else {
        Some(formats[0])
    }
}

/// The present mode to use: mailbox where it is offered, else
/// first-in-first-out, which every device offers.
pub open spec fn chosen_present_mode(modes: Seq<i32>) -> i32 {
    if modes.contains(PRESENT_MODE_MAILBOX) {
        PRESENT_MODE_MAILBOX
    } else {
        PRESENT_MODE_FIFO
    }
}

/// `value`, raised to `low` where it is below and lowered to `high` where
/// it is above.
pub open spec fn clamped(value: u32, low: u32, high: u32) -> u32 {
    if value < low {
        low
    } else if value > high {
        high
    } else {
        value
    }
}

/// The extent of the swapchain images: the surface's current extent where
/// it has one, else the window size held within the surface's limits.
pub open spec fn chosen_extent(capabilities: SurfaceCapabilities, window_size: LogicalSize)
    -> Extent2D {
    if capabilities.current_extent.width != u32::MAX {
        capabilities.current_extent
    } else {
        Extent2D {
            width: clamped(
                window_size.width,
                capabilities.min_image_extent.width,
                capabilities.max_image_extent.width,
            ),
            height: clamped(
                window_size.height,
                capabilities.min_image_extent.height,
                capabilities.max_image_extent.height,
            ),
        }
    }
}

/// The number of images to ask for: one more than the minimum, but no more
/// than the maximum where there is one.
pub open spec fn chosen_image_count(capabilities: SurfaceCapabilities) -> int {
    let wished = capabilities.min_image_count + 1;
    if capabilities.max_image_count > 0 && wished > capabilities.max_image_count {
        capabilities.max_image_count as int
    } else {
        wished
    }
}

/// The queue families that share the swapchain images: both where graphics
/// and presentation are different families, none where they are one.
pub open spec fn sharing_families(graphics: u32, presentation: u32) -> Seq<u32> {
    if graphics != presentation {
        seq![graphics, presentation]
    } else {
        Seq::empty()
    }
}

pub fn clamp(value: u32, low: u32, high: u32) -> (held: u32)
    ensures
        held == clamped(value, low, high),
{
    if value < low {
        low
    } else if value > high {
        high
    } else {
        value
    }
}

/// A presentable surface of a window.
#[derive(Clone, Copy, Debug, PartialEq, Eq, Structural)]
pub struct Surface {
    handle: u64,
}

impl Surface {
    pub closed spec fn spec_handle(&self) -> u64 {
        self.handle
    }

    pub fn new(handle: u64) -> (surface: Self)
        ensures
            surface.spec_handle() == handle,
    {
        Surface { handle }
    }

    #[verifier::when_used_as_spec(spec_handle)]
    pub fn handle(&self) -> (handle: u64)
        ensures
            handle == self.spec_handle(),
    {
        self.handle
    }

    pub fn choose_swap_surface_format(available_formats: &Vec<SurfaceFormat>) -> (chosen: Option<
        SurfaceFormat,
    >)
        ensures
            chosen == chosen_surface_format(available_formats@),
    {
        let mut i: usize = 0;
        while i < available_formats.len()
            invariant
                i <= available_formats.len(),
                forall|k: int| 0 <= k < i ==> !is_desired_format(#[trigger] available_formats@[k]),
            decreases available_formats.len() - i,
        {
            let format = available_formats[i];
            if format.format == FORMAT_B8G8R8_SRGB && format.color_space
                == COLOR_SPACE_SRGB_NONLINEAR {
                return Some(format);
            }
            i += 1;
        }
        if available_formats.len() == 0 {
            None
        } else {
            Some(available_formats[0])
        }
    }

    pub fn choose_swap_present_mode(available_present_modes: &Vec<i32>) -> (chosen: i32)
        ensures
            chosen == chosen_present_mode(available_present_modes@),
    {
        let mut i: usize = 0;
        while i < available_present_modes.len()
            invariant
                i <= available_present_modes.len(),
                forall|k: int| 0 <= k < i ==> available_present_modes@[k] != PRESENT_MODE_MAILBOX,
            decreases available_present_modes.len() - i,
        {
            if available_present_modes[i] == PRESENT_MODE_MAILBOX {
                return PRESENT_MODE_MAILBOX;
            }
            i += 1;
        }
        PRESENT_MODE_FIFO
    }

    pub fn choose_swap_extent(capabilities: &SurfaceCapabilities, window_size: LogicalSize) -> (extent:
        Extent2D)
        ensures
            extent == chosen_extent(*capabilities, window_size),
    {
        if capabilities.current_extent.width != u32::MAX {
            capabilities.current_extent
        } else {
            Extent2D {
                width: clamp(
                    window_size.width,
                    capabilities.min_image_extent.width,
                    capabilities.max_image_extent.width,
                ),
                height: clamp(
                    window_size.height,
                    capabilities.min_image_extent.height,
                    capabilities.max_image_extent.height,
                ),
            }
        }
    }

    /// Describes the swapchain for this surface: format, present mode,
    /// extent and image count chosen from what the device offers, images
    /// that can be rendered and copied to, shared between the queue
    /// families where they differ. `None` where no format is offered or the
    /// image count is beyond `u32`.
    pub fn create_swapchain(
        &self,
        support_details: &SwapChainSupportDetails,
        device: &Device,
        window_size: LogicalSize,
    ) -> (info: Option<SwapchainCreateInfo>)
        ensures
            info is Some <==> support_details.surface_formats@.len() > 0 && chosen_image_count(
                support_details.capabilities,
            ) <= u32::MAX,
            info matches Some(described) ==> {
                &&& described.surface == self.spec_handle()
                &&& described.min_image_count == chosen_image_count(support_details.capabilities)
                &&& Some(
                    SurfaceFormat {
                        format: described.image_format,
                        color_space: described.image_color_space,
                    },
                ) == chosen_surface_format(support_details.surface_formats@)
                &&& described.image_extent == chosen_extent(
                    support_details.capabilities,
                    window_size,
                )
                &&& described.image_array_layers == 1
                &&& described.image_usage == IMAGE_USAGE_COLOR_ATTACHMENT
                    | IMAGE_USAGE_TRANSFER_DST
                &&& described.image_sharing_mode == if device.graphics_family()
                    != device.presentation_family() {
                    SHARING_MODE_CONCURRENT
                } else {
                    SHARING_MODE_EXCLUSIVE
                }
                &&& described.queue_family_indices@ == sharing_families(
                    device.graphics_family(),
                    device.presentation_family(),
                )
                &&& described.pre_transform == support_details.capabilities.current_transform
                &&& described.composite_alpha == COMPOSITE_ALPHA_OPAQUE
                &&& described.present_mode == chosen_present_mode(support_details.present_modes@)
                &&& described.clipped
                &&& described.old_swapchain == 0
            },
    {
        let surface_format = match Self::choose_swap_surface_format(
            &support_details.surface_formats,
        ) {
            Some(format) => format,
            None => {
                return None;
            },
        };
        let present_mode = Self::choose_swap_present_mode(&support_details.present_modes);
        let extent = Self::choose_swap_extent(&support_details.capabilities, window_size);
        let capabilities = support_details.capabilities;
        let mut image_count: u32 = match capabilities.min_image_count.checked_add(1) {
            Some(count) => count,
            None => {
                if capabilities.max_image_count > 0 {
                    capabilities.max_image_count
                } else {
                    return None;
                }
            },
        };
        if capabilities.max_image_count > 0 && image_count > capabilities.max_image_count {
            image_count = capabilities.max_image_count;
        }
        let graphics = device.get_graphics_queue_idx();
        let presentation = device.get_presentation_queue_idx();
        let mut queue_family_indices: Vec<u32> = Vec::new();
        let image_sharing_mode = if graphics != presentation {
            queue_family_indices.push(graphics);
            queue_family_indices.push(presentation);
            SHARING_MODE_CONCURRENT
        } else {
            SHARING_MODE_EXCLUSIVE
        };
        assert(queue_family_indices@ =~= sharing_families(graphics, presentation));
        Some(
            SwapchainCreateInfo {
                surface: self.handle,
                min_image_count: image_count,
                image_format: surface_format.format,
                image_color_space: surface_format.color_space,
                image_extent: extent,
                image_array_layers: 1,
                image_usage: IMAGE_USAGE_COLOR_ATTACHMENT | IMAGE_USAGE_TRANSFER_DST,
                image_sharing_mode,
                queue_family_indices,
                pre_transform: capabilities.current_transform,
                composite_alpha: COMPOSITE_ALPHA_OPAQUE,
                present_mode,
                clipped: true,
                old_swapchain: 0,
            },
        )
    }
}

/// The ring of presentable images of a surface.
#[derive(Debug)]
pub struct Swapchain {
    swapchain: u64,
    images: Vec<u64>,
    image_views: Vec<u64>,
    extent: Extent2D,
    format: i32,
    presentation_queue: u64,
}

/// The mathematical content of a `Swapchain`.
pub struct SwapchainState {
    pub swapchain: u64,
    pub images: Seq<u64>,
    pub image_views: Seq<u64>,
    pub extent: Extent2D,
    pub format: i32,
    pub presentation_queue: u64,
}

impl View for Swapchain {
    type V = SwapchainState;

    closed spec fn view(&self) -> SwapchainState {
        SwapchainState {
            swapchain: self.swapchain,
            images: self.images@,
            image_views: self.image_views@,
            extent: self.extent,
            format: self.format,
            presentation_queue: self.presentation_queue,
        }
    }
}

impl Swapchain {
    /// The swapchain created from `info`, with the images it holds and the
    /// views made of them, presenting on the device's presentation queue.
    pub fn new(
        swapchain: u64,
        images: Vec<u64>,
        image_views: Vec<u64>,
        info: &SwapchainCreateInfo,
        device: &Device,
    ) -> (created: Self)
        ensures
            created@ == (SwapchainState {
                swapchain,
                images: images@,
                image_views: image_views@,
                extent: info.image_extent,
                format: info.image_format,
                presentation_queue: device.presentation_queue_handle(),
            }),
    {
        Swapchain {
            swapchain,
            images,
            image_views,
            extent: info.image_extent,
            format: info.image_format,
            presentation_queue: device.get_presentation_queue(),
        }
    }

    /// The request for the next image, which signals `semaphore` and no
    /// fence.
    pub fn acquire_next_image(&self, semaphore: u64, timeout: u64) -> (request: AcquireInfo)
        ensures
            request == (AcquireInfo { swapchain: self@.swapchain, timeout, semaphore, fence: 0 }),
    {
        AcquireInfo { swapchain: self.swapchain, timeout, semaphore, fence: 0 }
    }

    /// The image that the device named by `image_index`; `None` where the
    /// swapchain has no such image.
    pub fn image(&self, image_index: u32) -> (image: Option<u64>)
        ensures
            image == if image_index < self@.images.len() {
                Some(self@.images[image_index as int])
            } else {
                None
            },
    {
        if (image_index as usize) < self.images.len() {
            Some(self.images[image_index as usize])
        } else {
            None
        }
    }

    pub fn present_image(&self, wait_semaphore: u64, image_index: u32) -> (request: PresentInfo)
        ensures
            request == (PresentInfo {
                queue: self@.presentation_queue,
                swapchain: self@.swapchain,
                wait_semaphore,
                image_index,
            }),
    {
        PresentInfo {
            queue: self.presentation_queue,
            swapchain: self.swapchain,
            wait_semaphore,
            image_index,
        }
    }

    pub fn extent(&self) -> (extent: Extent2D)
        ensures
            extent == self@.extent,
    {
        self.extent
    }

    pub fn format(&self) -> (format: i32)
        ensures
            format == self@.format,
    {
        self.format
    }

    pub fn images(&self) -> (images: &Vec<u64>)
        ensures
            images@ == self@.images,
    {
        &self.images
    }

    /// Gives the swapchain up and names what the caller destroys: each
    /// image view in order, then the swapchain.
    pub fn release(self) -> (teardown: (Vec<u64>, u64))
        ensures
            teardown.0@ == self@.image_views,
            teardown.1 == self@.swapchain,
    {
        (self.image_views, self.swapchain)
    }
}

} // verus!
