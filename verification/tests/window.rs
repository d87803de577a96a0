use ash::vk;
use game_engine::constants;
use game_engine::device::Device;
use game_engine::device::Extent2D;
use game_engine::instance::QueueFamilyIndices;
use game_engine::window::clamp;
use game_engine::window::get_required_instance_extensions;
use game_engine::window::DisplayKind;
use game_engine::window::LogicalSize;
use game_engine::window::Surface;
use game_engine::window::SurfaceCapabilities;
use game_engine::window::SurfaceFormat;
use game_engine::window::SwapChainSupportDetails;
use game_engine::window::Swapchain;

fn device(graphics: u32, presentation: u32) -> Device {
    let indices =
        QueueFamilyIndices { graphics_family: Some(graphics), presentation_family: Some(presentation) };
    Device::new(1, &indices, 10, 11).expect("both families are there")
}

fn capabilities() -> SurfaceCapabilities {
    SurfaceCapabilities {
        min_image_count: 2,
        max_image_count: 0,
        current_extent: Extent2D { width: u32::MAX, height: u32::MAX },
        min_image_extent: Extent2D { width: 100, height: 50 },
        max_image_extent: Extent2D { width: 2000, height: 1500 },
        current_transform: 1,
    }
}

fn wished() -> SurfaceFormat {
    SurfaceFormat {
        format: vk::Format::B8G8R8_SRGB.as_raw(),
        color_space: vk::ColorSpaceKHR::SRGB_NONLINEAR.as_raw(),
    }
}

fn other(format: vk::Format) -> SurfaceFormat {
    SurfaceFormat { format: format.as_raw(), color_space: vk::ColorSpaceKHR::SRGB_NONLINEAR.as_raw() }
}

#[test]
fn instance_extensions_are_those_of_the_windowing_system() {
    let surface = ash::khr::surface::NAME.to_str().unwrap().to_string();
    let cases = [
        (DisplayKind::Windows, ash::khr::win32_surface::NAME.to_str().unwrap().to_string()),
        (DisplayKind::Wayland, ash::khr::wayland_surface::NAME.to_str().unwrap().to_string()),
        (DisplayKind::Xlib, ash::khr::xlib_surface::NAME.to_str().unwrap().to_string()),
        (DisplayKind::Xcb, ash::khr::xcb_surface::NAME.to_str().unwrap().to_string()),
        (DisplayKind::Android, ash::khr::android_surface::NAME.to_str().unwrap().to_string()),
        (DisplayKind::AppKit, ash::ext::metal_surface::NAME.to_str().unwrap().to_string()),
        (DisplayKind::UiKit, ash::ext::metal_surface::NAME.to_str().unwrap().to_string()),
    ];
    for (display, platform) in cases {
        assert_eq!(get_required_instance_extensions(display), Some(vec![platform, surface.clone()]));
    }
    assert_eq!(get_required_instance_extensions(DisplayKind::Unsupported), None);
}

#[test]
fn wished_format_is_chosen_where_it_is_offered() {
    let formats = vec![other(vk::Format::R8G8B8A8_UNORM), wished(), other(vk::Format::B8G8R8A8_SRGB)];
    assert_eq!(Surface::choose_swap_surface_format(&formats), Some(wished()));
    let formats = vec![other(vk::Format::R8G8B8A8_UNORM), other(vk::Format::B8G8R8A8_SRGB)];
    assert_eq!(Surface::choose_swap_surface_format(&formats), Some(other(vk::Format::R8G8B8A8_UNORM)));
    // The format alone is not enough: the color space counts too.
    let formats = vec![
        other(vk::Format::B8G8R8A8_UNORM),
        SurfaceFormat {
            format: vk::Format::B8G8R8_SRGB.as_raw(),
            color_space: vk::ColorSpaceKHR::DISPLAY_P3_NONLINEAR_EXT.as_raw(),
        },
    ];
    assert_eq!(Surface::choose_swap_surface_format(&formats), Some(other(vk::Format::B8G8R8A8_UNORM)));
    assert_eq!(Surface::choose_swap_surface_format(&Vec::new()), None);
}

#[test]
fn mailbox_is_chosen_where_it_is_offered() {
    let fifo = vk::PresentModeKHR::FIFO.as_raw();
    let mailbox = vk::PresentModeKHR::MAILBOX.as_raw();
    let immediate = vk::PresentModeKHR::IMMEDIATE.as_raw();
    assert_eq!(Surface::choose_swap_present_mode(&vec![fifo, mailbox, immediate]), mailbox);
    assert_eq!(Surface::choose_swap_present_mode(&vec![mailbox]), mailbox);
    assert_eq!(Surface::choose_swap_present_mode(&vec![immediate, fifo]), fifo);
    assert_eq!(Surface::choose_swap_present_mode(&vec![immediate]), fifo);
    assert_eq!(Surface::choose_swap_present_mode(&Vec::new()), fifo);
}

#[test]
fn extent_is_the_surfaces_or_the_windows_within_limits() {
    let mut fixed = capabilities();
    fixed.current_extent = Extent2D { width: 640, height: 480 };
    assert_eq!(
        Surface::choose_swap_extent(&fixed, LogicalSize { width: 1800, height: 1000 }),
        Extent2D { width: 640, height: 480 }
    );
    let free = capabilities();
    assert_eq!(
        Surface::choose_swap_extent(&free, LogicalSize { width: 1800, height: 1000 }),
        Extent2D { width: 1800, height: 1000 }
    );
    assert_eq!(
        Surface::choose_swap_extent(&free, LogicalSize { width: 3000, height: 10 }),
        Extent2D { width: 2000, height: 50 }
    );
    assert_eq!(
        Surface::choose_swap_extent(&free, LogicalSize { width: 0, height: 5000 }),
        Extent2D { width: 100, height: 1500 }
    );
    // Only the width tells whether the surface has an extent of its own.
    let mut odd = capabilities();
    odd.current_extent = Extent2D { width: 7, height: u32::MAX };
    assert_eq!(
        Surface::choose_swap_extent(&odd, LogicalSize { width: 1800, height: 1000 }),
        Extent2D { width: 7, height: u32::MAX }
    );
    assert_eq!(clamp(5, 1, 10), 5);
    assert_eq!(clamp(0, 1, 10), 1);
    assert_eq!(clamp(11, 1, 10), 10);
    assert_eq!(clamp(1, 1, 10), 1);
    assert_eq!(clamp(10, 1, 10), 10);
    assert_eq!(clamp(5, 10, 1), 10);
}

fn details(capabilities: SurfaceCapabilities) -> SwapChainSupportDetails {
    SwapChainSupportDetails {
        capabilities,
        surface_formats: vec![other(vk::Format::B8G8R8A8_SRGB), wished()],
        present_modes: vec![vk::PresentModeKHR::FIFO.as_raw(), vk::PresentModeKHR::MAILBOX.as_raw()],
    }
}

#[test]
fn swapchain_is_described_from_what_the_device_offers() {
    let surface = Surface::new(40);
    assert_eq!(surface.handle(), 40);
    let info = surface
        .create_swapchain(&details(capabilities()), &device(0, 1), LogicalSize { width: 1800, height: 1000 })
        .expect("a format is offered");
    assert_eq!(info.surface, 40);
    assert_eq!(info.min_image_count, 3);
    assert_eq!(info.image_format, vk::Format::B8G8R8_SRGB.as_raw());
    assert_eq!(info.image_color_space, vk::ColorSpaceKHR::SRGB_NONLINEAR.as_raw());
    assert_eq!(info.image_extent, Extent2D { width: 1800, height: 1000 });
    assert_eq!(info.image_array_layers, 1);
    assert_eq!(
        info.image_usage,
        (vk::ImageUsageFlags::COLOR_ATTACHMENT | vk::ImageUsageFlags::TRANSFER_DST).as_raw()
    );
    assert_eq!(info.image_sharing_mode, vk::SharingMode::CONCURRENT.as_raw());
    assert_eq!(info.queue_family_indices, vec![0, 1]);
    assert_eq!(info.pre_transform, 1);
    assert_eq!(info.composite_alpha, vk::CompositeAlphaFlagsKHR::OPAQUE.as_raw());
    assert_eq!(info.present_mode, vk::PresentModeKHR::MAILBOX.as_raw());
    assert!(info.clipped);
    assert_eq!(info.old_swapchain, 0);
}

#[test]
fn swapchain_images_are_not_shared_within_one_queue_family() {
    let info = Surface::new(40)
        .create_swapchain(&details(capabilities()), &device(3, 3), LogicalSize { width: 1, height: 1 })
        .expect("a format is offered");
    assert_eq!(info.image_sharing_mode, vk::SharingMode::EXCLUSIVE.as_raw());
    assert!(info.queue_family_indices.is_empty());
    assert_eq!(constants::SHARING_MODE_EXCLUSIVE, info.image_sharing_mode);
}

#[test]
fn image_count_is_one_more_than_the_minimum_up_to_the_maximum() {
    let count = |min: u32, max: u32| {
        let mut capabilities = capabilities();
        capabilities.min_image_count = min;
        capabilities.max_image_count = max;
        Surface::new(40)
            .create_swapchain(&details(capabilities), &device(0, 0), LogicalSize { width: 1, height: 1 })
            .map(|info| info.min_image_count)
    };
    assert_eq!(count(2, 0), Some(3));
    assert_eq!(count(2, 8), Some(3));
    assert_eq!(count(2, 3), Some(3));
    assert_eq!(count(2, 2), Some(2));
    assert_eq!(count(0, 0), Some(1));
    assert_eq!(count(5, 1), Some(1));
    assert_eq!(count(u32::MAX - 1, 0), Some(u32::MAX));
    assert_eq!(count(u32::MAX, u32::MAX), Some(u32::MAX));
    assert_eq!(count(u32::MAX, 7), Some(7));
    assert_eq!(count(u32::MAX, 0), None);
}

#[test]
fn swapchain_without_a_format_is_refused() {
    let mut details = details(capabilities());
    details.surface_formats.clear();
    assert!(Surface::new(40)
        .create_swapchain(&details, &device(0, 0), LogicalSize { width: 1, height: 1 })
        .is_none());
}

#[test]
fn swapchain_hands_out_its_images_by_index() {
    let device = device(0, 1);
    let info = Surface::new(40)
        .create_swapchain(&details(capabilities()), &device, LogicalSize { width: 800, height: 600 })
        .expect("a format is offered");
    let swapchain = Swapchain::new(70, vec![71, 72, 73], vec![81, 82, 83], &info, &device);
    assert_eq!(swapchain.extent(), Extent2D { width: 800, height: 600 });
    assert_eq!(swapchain.format(), vk::Format::B8G8R8_SRGB.as_raw());
    assert_eq!(swapchain.images(), &vec![71, 72, 73]);
    assert_eq!(swapchain.image(0), Some(71));
    assert_eq!(swapchain.image(2), Some(73));
    assert_eq!(swapchain.image(3), None);
    assert_eq!(swapchain.image(u32::MAX), None);
    let acquire = swapchain.acquire_next_image(5, 1_000_000_000);
    assert_eq!(
        (acquire.swapchain, acquire.semaphore, acquire.timeout, acquire.fence),
        (70, 5, 1_000_000_000, 0)
    );
    let present = swapchain.present_image(6, 2);
    assert_eq!(
        (present.queue, present.swapchain, present.wait_semaphore, present.image_index),
        (11, 70, 6, 2)
    );
    assert_eq!(swapchain.release(), (vec![81, 82, 83], 70));
}
