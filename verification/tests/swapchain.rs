use deimos::api::{VulkanApi, MAX_DESCRIPTOR_SETS, MAX_FRAMES_IN_FLIGHT};
use deimos::command::{DeviceCommand, Extent2D, ObjectKind};
use deimos::handle::Handle;
use deimos::swap::{
    QueueFamily, QueueFamilyIndices, SharingMode, SurfaceCapabilities, SurfaceFormat, Swapchain,
    SwapchainError, SwapchainSupport, Unsuitable, COLOR_SPACE_SRGB_NONLINEAR, COMPOSITE_ALPHA_OPAQUE,
    FORMAT_B8G8R8A8_SRGB, IMAGE_USAGE_COLOR_ATTACHMENT, PRESENT_MODE_FIFO, PRESENT_MODE_MAILBOX,
    QUEUE_GRAPHICS, UNDEFINED_EXTENT,
};
use deimos::texture::{ImageViewInfo, Texture, TextureView};
use vulkanalia::vk;

fn h(raw: u64) -> Handle {
    Handle::new(raw)
}

fn extent(width: u32, height: u32) -> Extent2D {
    Extent2D { width, height }
}

fn capabilities() -> SurfaceCapabilities {
    SurfaceCapabilities {
        min_image_count: 2,
        max_image_count: 8,
        current_extent: extent(800, 600),
        min_image_extent: extent(100, 50),
        max_image_extent: extent(4000, 3000),
        current_transform: 1,
    }
}

fn support() -> SwapchainSupport {
    SwapchainSupport::get(
        capabilities(),
        vec![SurfaceFormat { format: 44, color_space: 0 }, SurfaceFormat { format: 50, color_space: 0 }],
        vec![PRESENT_MODE_FIFO, PRESENT_MODE_MAILBOX],
    )
}

#[test]
fn swapchain_codes_are_those_of_the_device() {
    assert_eq!(FORMAT_B8G8R8A8_SRGB, vk::Format::B8G8R8A8_SRGB.as_raw());
    assert_eq!(COLOR_SPACE_SRGB_NONLINEAR, vk::ColorSpaceKHR::SRGB_NONLINEAR.as_raw());
    assert_eq!(PRESENT_MODE_MAILBOX, vk::PresentModeKHR::MAILBOX.as_raw());
    assert_eq!(PRESENT_MODE_FIFO, vk::PresentModeKHR::FIFO.as_raw());
    assert_eq!(IMAGE_USAGE_COLOR_ATTACHMENT, vk::ImageUsageFlags::COLOR_ATTACHMENT.bits());
    assert_eq!(COMPOSITE_ALPHA_OPAQUE, vk::CompositeAlphaFlagsKHR::OPAQUE.bits());
    assert_eq!(QUEUE_GRAPHICS, vk::QueueFlags::GRAPHICS.bits());
    assert_eq!(UNDEFINED_EXTENT, u32::MAX);
    assert_eq!(MAX_FRAMES_IN_FLIGHT, 2);
    assert_eq!(MAX_DESCRIPTOR_SETS, 10);
}

#[test]
fn surface_format_prefers_bgra_srgb() {
    let wanted = SurfaceFormat { format: 50, color_space: 0 };
    let formats = vec![SurfaceFormat { format: 44, color_space: 0 }, wanted, SurfaceFormat { format: 37, color_space: 0 }];
    assert_eq!(VulkanApi::get_surface_format(&formats), wanted);
}

#[test]
fn surface_format_falls_back_to_the_first() {
    let formats = vec![
        SurfaceFormat { format: 44, color_space: 0 },
        SurfaceFormat { format: 50, color_space: 1000104001 },
        SurfaceFormat { format: 37, color_space: 0 },
    ];
    assert_eq!(VulkanApi::get_surface_format(&formats), SurfaceFormat { format: 44, color_space: 0 });
    let single = vec![SurfaceFormat { format: 9, color_space: 7 }];
    assert_eq!(VulkanApi::get_surface_format(&single), SurfaceFormat { format: 9, color_space: 7 });
}

#[test]
fn present_mode_prefers_mailbox_else_fifo() {
    assert_eq!(VulkanApi::get_present_mode(&vec![0, 2, 1]), PRESENT_MODE_MAILBOX);
    assert_eq!(VulkanApi::get_present_mode(&vec![0, 3]), PRESENT_MODE_FIFO);
    assert_eq!(VulkanApi::get_present_mode(&vec![2]), PRESENT_MODE_FIFO);
    assert_eq!(VulkanApi::get_present_mode(&vec![]), PRESENT_MODE_FIFO);
}

#[test]
fn extent_is_the_current_one_when_defined() {
    assert_eq!(VulkanApi::get_extent(extent(10, 10), capabilities()), extent(800, 600));
    let mut c = capabilities();
    c.current_extent = extent(5, UNDEFINED_EXTENT);
    assert_eq!(VulkanApi::get_extent(extent(10, 10), c), extent(5, UNDEFINED_EXTENT));
}

#[test]
fn extent_is_the_window_clamped_when_undefined() {
    let mut c = capabilities();
    c.current_extent = extent(UNDEFINED_EXTENT, UNDEFINED_EXTENT);
    assert_eq!(VulkanApi::get_extent(extent(1024, 768), c), extent(1024, 768));
    assert_eq!(VulkanApi::get_extent(extent(10, 9000), c), extent(100, 3000));
    assert_eq!(VulkanApi::get_extent(extent(5000, 0), c), extent(4000, 50));
    assert_eq!(VulkanApi::get_extent(extent(100, 3000), c), extent(100, 3000));
    c.min_image_extent = extent(500, 500);
    c.max_image_extent = extent(400, 400);
    assert_eq!(VulkanApi::get_extent(extent(450, 100), c), extent(500, 500));
}

#[test]
fn image_count_is_one_more_than_the_minimum_within_the_maximum() {
    let mut c = capabilities();
    assert_eq!(VulkanApi::get_image_count(c), 3);
    c.max_image_count = 2;
    assert_eq!(VulkanApi::get_image_count(c), 2);
    c.max_image_count = 3;
    assert_eq!(VulkanApi::get_image_count(c), 3);
    c.max_image_count = 0;
    c.min_image_count = 7;
    assert_eq!(VulkanApi::get_image_count(c), 8);
    c.min_image_count = u32::MAX;
    assert_eq!(VulkanApi::get_image_count(c), u32::MAX);
    c.max_image_count = 4;
    assert_eq!(VulkanApi::get_image_count(c), 4);
}

#[test]
fn create_swapchain_with_one_family_is_exclusive() {
    let indices = QueueFamilyIndices { graphics: 0, present: 0 };
    let info = VulkanApi::create_swapchain(h(9), &support(), indices, extent(1, 1)).unwrap();
    assert_eq!(info.surface, h(9));
    assert_eq!(info.min_image_count, 3);
    assert_eq!(info.image_format, 50);
    assert_eq!(info.image_color_space, 0);
    assert_eq!(info.image_extent, extent(800, 600));
    assert_eq!(info.image_array_layers, 1);
    assert_eq!(info.image_usage, IMAGE_USAGE_COLOR_ATTACHMENT);
    assert_eq!(info.image_sharing_mode, SharingMode::Exclusive);
    assert!(info.queue_family_indices.is_empty());
    assert_eq!(info.pre_transform, 1);
    assert_eq!(info.composite_alpha, COMPOSITE_ALPHA_OPAQUE);
    assert_eq!(info.present_mode, PRESENT_MODE_MAILBOX);
    assert!(info.clipped);
    assert!(info.old_swapchain.is_null());
}

#[test]
fn create_swapchain_with_two_families_is_concurrent() {
    let indices = QueueFamilyIndices { graphics: 2, present: 1 };
    let info = VulkanApi::create_swapchain(h(9), &support(), indices, extent(1, 1)).unwrap();
    assert_eq!(info.image_sharing_mode, SharingMode::Concurrent);
    assert_eq!(info.queue_family_indices, vec![2, 1]);
}

#[test]
fn create_swapchain_needs_a_format_and_a_present_mode() {
    let indices = QueueFamilyIndices { graphics: 0, present: 0 };
    let mut s = support();
    s.present_modes.clear();
    assert_eq!(VulkanApi::create_swapchain(h(9), &s, indices, extent(1, 1)).err(), Some(SwapchainError::NoPresentMode));
    s.formats.clear();
    assert_eq!(
        VulkanApi::create_swapchain(h(9), &s, indices, extent(1, 1)).err(),
        Some(SwapchainError::NoSupportedFormat)
    );
    let mut s = support();
    s.formats.clear();
    assert_eq!(
        VulkanApi::create_swapchain(h(9), &s, indices, extent(1, 1)).err(),
        Some(SwapchainError::NoSupportedFormat)
    );
}

#[test]
fn queue_families_are_the_first_that_suit() {
    let families = vec![
        QueueFamily { queue_flags: 0x4, present_support: false },
        QueueFamily { queue_flags: 0x6, present_support: true },
        QueueFamily { queue_flags: 0x7, present_support: false },
        QueueFamily { queue_flags: 0x1, present_support: true },
    ];
    assert_eq!(QueueFamilyIndices::get(&families).unwrap(), QueueFamilyIndices { graphics: 2, present: 1 });
    let same = vec![QueueFamily { queue_flags: 0xF, present_support: true }];
    assert_eq!(QueueFamilyIndices::get(&same).unwrap(), QueueFamilyIndices { graphics: 0, present: 0 });
}

#[test]
fn queue_families_missing_either_kind_fail() {
    let no_present = vec![QueueFamily { queue_flags: 0x1, present_support: false }];
    assert_eq!(QueueFamilyIndices::get(&no_present).unwrap_err().reason, Unsuitable::MissingQueueFamilies);
    let no_graphics = vec![QueueFamily { queue_flags: 0x6, present_support: true }];
    assert_eq!(QueueFamilyIndices::get(&no_graphics).unwrap_err().reason, Unsuitable::MissingQueueFamilies);
    assert_eq!(QueueFamilyIndices::get(&vec![]).unwrap_err().reason, Unsuitable::MissingQueueFamilies);
}

#[test]
fn swapchain_state_is_built_from_images_and_views() {
    let indices = QueueFamilyIndices { graphics: 0, present: 0 };
    let info = VulkanApi::create_swapchain(h(9), &support(), indices, extent(1, 1)).unwrap();
    let s = Swapchain::create(&info, h(70), &vec![h(1), h(2)], &vec![h(11), h(12)]).unwrap();
    assert_eq!(s.handle, h(70));
    assert_eq!(s.format, 50);
    assert_eq!(s.extent, extent(800, 600));
    assert_eq!(s.textures, vec![Texture::new(h(1), Handle::null(), 0), Texture::new(h(2), Handle::null(), 0)]);
    assert_eq!(s.views, vec![TextureView::new(h(11)), TextureView::new(h(12))]);
    assert!(!s.is_null());
    assert_eq!(
        Swapchain::create(&info, h(70), &vec![h(1), h(2)], &vec![h(11)]).err(),
        Some(SwapchainError::ViewCount)
    );
}

#[test]
fn null_swapchain_holds_nothing() {
    let s = Swapchain::null();
    assert!(s.is_null());
    assert_eq!(s.format, vk::Format::UNDEFINED.as_raw());
    assert_eq!(s.extent, extent(0, 0));
    assert!(s.textures.is_empty() && s.views.is_empty());
    assert!(Swapchain::default().is_null());
    assert_eq!(s.destroy(), vec![DeviceCommand::Destroy { kind: ObjectKind::Swapchain, handle: Handle::null() }]);
}

#[test]
fn swapchain_destroy_takes_views_then_the_swapchain() {
    let s = Swapchain::new(
        h(70),
        50,
        extent(1, 1),
        vec![Texture::new(h(1), Handle::null(), 0), Texture::new(h(2), Handle::null(), 0)],
        vec![TextureView::new(h(11)), TextureView::new(h(12))],
    );
    assert_eq!(
        s.destroy(),
        vec![
            DeviceCommand::Destroy { kind: ObjectKind::ImageView, handle: h(11) },
            DeviceCommand::Destroy { kind: ObjectKind::ImageView, handle: h(12) },
            DeviceCommand::Destroy { kind: ObjectKind::Swapchain, handle: h(70) },
        ]
    );
}

#[test]
fn textures_and_views() {
    let t = Texture::new(h(1), h(2), 3);
    assert!(!t.is_null());
    assert!(Texture::null().is_null());
    assert!(Texture::default().is_null());
    assert!(!Texture::new(h(1), Handle::null(), 0).is_null());
    assert_eq!(
        t.destroy(),
        vec![
            DeviceCommand::Destroy { kind: ObjectKind::Image, handle: h(1) },
            DeviceCommand::Destroy { kind: ObjectKind::DeviceMemory, handle: h(2) },
        ]
    );
    let info = t.create_view(50, 1, 3);
    assert_eq!((info.image, info.format, info.aspect_mask), (h(1), 50, 1));
    assert_eq!((info.base_mip_level, info.level_count, info.base_array_layer, info.layer_count), (0, 3, 0, 1));
    let v = TextureView::new(h(5));
    assert!(!v.is_null());
    assert!(TextureView::null().is_null());
    assert!(TextureView::default().is_null());
    assert_eq!(v.destroy(), DeviceCommand::Destroy { kind: ObjectKind::ImageView, handle: h(5) });
}

#[test]
fn views_of_the_images_show_the_colour_of_one_level() {
    let indices = QueueFamilyIndices { graphics: 0, present: 0 };
    let info = VulkanApi::create_swapchain(h(9), &support(), indices, extent(1, 1)).unwrap();
    assert_eq!(
        Swapchain::view_info(&info, h(31)),
        ImageViewInfo {
            image: h(31),
            format: 50,
            aspect_mask: vk::ImageAspectFlags::COLOR.bits(),
            base_mip_level: 0,
            level_count: 1,
            base_array_layer: 0,
            layer_count: 1,
        }
    );
    assert_eq!(Swapchain::view_info(&info, h(31)), Texture::new(h(31), Handle::null(), 0).create_view(50, 1, 1));
}
