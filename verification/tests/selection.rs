use deimos::api::VulkanApi;
use deimos::command::Extent2D;
use deimos::handle::Handle;
use deimos::physical::{
    ApiError, FormatProperties, MemoryRequirements, MemoryType, PhysicalDeviceInfo, SelectedDevice,
    FORMAT_D24_UNORM_S8_UINT, FORMAT_D32_SFLOAT, FORMAT_D32_SFLOAT_S8_UINT,
    FORMAT_FEATURE_DEPTH_STENCIL_ATTACHMENT, FORMAT_FEATURE_SAMPLED_IMAGE_FILTER_LINEAR,
    IMAGE_TILING_LINEAR, IMAGE_TILING_OPTIMAL, MAX_MEMORY_TYPES, MEMORY_PROPERTY_DEVICE_LOCAL,
    MEMORY_PROPERTY_HOST_COHERENT, MEMORY_PROPERTY_HOST_VISIBLE,
};
use deimos::swap::{QueueFamily, QueueFamilyIndices, SurfaceCapabilities, SurfaceFormat, SwapchainSupport, Unsuitable};
use vulkanalia::vk;

fn memory(flags: &[u32]) -> Vec<MemoryType> {
    flags.iter().map(|f| MemoryType { property_flags: *f, heap_index: 0 }).collect()
}

fn needs(bits: u32) -> MemoryRequirements {
    MemoryRequirements { size: 64, alignment: 16, memory_type_bits: bits }
}

fn good_device(handle: u64) -> PhysicalDeviceInfo {
    let extent = Extent2D { width: 1, height: 1 };
    PhysicalDeviceInfo {
        handle: Handle::new(handle),
        queue_families: vec![QueueFamily { queue_flags: 1, present_support: true }],
        extensions: vec![b"VK_KHR_maintenance1".to_vec(), b"VK_KHR_swapchain".to_vec()],
        support: SwapchainSupport::get(
            SurfaceCapabilities {
                min_image_count: 2,
                max_image_count: 0,
                current_extent: extent,
                min_image_extent: extent,
                max_image_extent: extent,
                current_transform: 1,
            },
            vec![SurfaceFormat { format: 50, color_space: 0 }],
            vec![2],
        ),
        sampler_anisotropy: true,
        framebuffer_color_sample_counts: 0x1F,
        framebuffer_depth_sample_counts: 0x0F,
    }
}

#[test]
fn selection_codes_are_those_of_the_device() {
    assert_eq!(MEMORY_PROPERTY_DEVICE_LOCAL, vk::MemoryPropertyFlags::DEVICE_LOCAL.bits());
    assert_eq!(MEMORY_PROPERTY_HOST_VISIBLE, vk::MemoryPropertyFlags::HOST_VISIBLE.bits());
    assert_eq!(MEMORY_PROPERTY_HOST_COHERENT, vk::MemoryPropertyFlags::HOST_COHERENT.bits());
    assert_eq!(FORMAT_FEATURE_DEPTH_STENCIL_ATTACHMENT, vk::FormatFeatureFlags::DEPTH_STENCIL_ATTACHMENT.bits());
    assert_eq!(
        FORMAT_FEATURE_SAMPLED_IMAGE_FILTER_LINEAR,
        vk::FormatFeatureFlags::SAMPLED_IMAGE_FILTER_LINEAR.bits()
    );
    assert_eq!(IMAGE_TILING_OPTIMAL, vk::ImageTiling::OPTIMAL.as_raw());
    assert_eq!(IMAGE_TILING_LINEAR, vk::ImageTiling::LINEAR.as_raw());
    assert_eq!(FORMAT_D32_SFLOAT, vk::Format::D32_SFLOAT.as_raw());
    assert_eq!(FORMAT_D32_SFLOAT_S8_UINT, vk::Format::D32_SFLOAT_S8_UINT.as_raw());
    assert_eq!(FORMAT_D24_UNORM_S8_UINT, vk::Format::D24_UNORM_S8_UINT.as_raw());
    assert_eq!(MAX_MEMORY_TYPES, vk::MAX_MEMORY_TYPES);
}

#[test]
fn memory_type_is_the_first_allowed_with_the_properties() {
    let types = memory(&[0x1, 0x6, 0x7, 0x6]);
    assert_eq!(VulkanApi::get_memory_type_index(&types, 0x6, needs(0b1111)), Ok(1));
    assert_eq!(VulkanApi::get_memory_type_index(&types, 0x6, needs(0b1100)), Ok(2));
    assert_eq!(VulkanApi::get_memory_type_index(&types, 0x6, needs(0b1000)), Ok(3));
    assert_eq!(VulkanApi::get_memory_type_index(&types, 0x1, needs(0b1111)), Ok(0));
    assert_eq!(VulkanApi::get_memory_type_index(&types, 0x0, needs(0b0100)), Ok(2));
}

#[test]
fn memory_type_missing_is_an_error() {
    let types = memory(&[0x1, 0x6]);
    assert_eq!(VulkanApi::get_memory_type_index(&types, 0x8, needs(0b11)), Err(ApiError::NoMemoryType));
    assert_eq!(VulkanApi::get_memory_type_index(&types, 0x1, needs(0b10)), Err(ApiError::NoMemoryType));
    assert_eq!(VulkanApi::get_memory_type_index(&types, 0x1, needs(0)), Err(ApiError::NoMemoryType));
    assert_eq!(VulkanApi::get_memory_type_index(&types, 0x6, needs(0b100)), Err(ApiError::NoMemoryType));
    assert_eq!(VulkanApi::get_memory_type_index(&vec![], 0, needs(u32::MAX)), Err(ApiError::NoMemoryType));
}

#[test]
fn memory_types_beyond_the_thirty_second_are_not_looked_at() {
    let mut flags = vec![0u32; 40];
    flags[31] = 0x1;
    flags[35] = 0x2;
    let types = memory(&flags);
    assert_eq!(VulkanApi::get_memory_type_index(&types, 0x1, needs(u32::MAX)), Ok(31));
    assert_eq!(VulkanApi::get_memory_type_index(&types, 0x2, needs(u32::MAX)), Err(ApiError::NoMemoryType));
}

#[test]
fn supported_format_goes_by_the_tiling() {
    let candidates = vec![
        FormatProperties { format: 126, linear_tiling_features: 0x200, optimal_tiling_features: 0 },
        FormatProperties { format: 130, linear_tiling_features: 0, optimal_tiling_features: 0x201 },
        FormatProperties { format: 129, linear_tiling_features: 0x200, optimal_tiling_features: 0x200 },
    ];
    assert_eq!(VulkanApi::get_supported_format(&candidates, IMAGE_TILING_OPTIMAL, 0x200), Ok(130));
    assert_eq!(VulkanApi::get_supported_format(&candidates, IMAGE_TILING_LINEAR, 0x200), Ok(126));
    assert_eq!(VulkanApi::get_supported_format(&candidates, IMAGE_TILING_OPTIMAL, 0x201), Ok(130));
    assert_eq!(
        VulkanApi::get_supported_format(&candidates, IMAGE_TILING_OPTIMAL, 0x400),
        Err(ApiError::NoSupportedFormat)
    );
    assert_eq!(
        VulkanApi::get_supported_format(&candidates, 1000158000, 0x200),
        Err(ApiError::NoSupportedFormat)
    );
    assert_eq!(VulkanApi::get_supported_format(&vec![], IMAGE_TILING_OPTIMAL, 0), Err(ApiError::NoSupportedFormat));
}

#[test]
fn depth_format_is_the_first_candidate_that_can_be_an_attachment() {
    assert_eq!(VulkanApi::depth_format_candidates(), vec![126, 130, 129]);
    let props = |a: u32, b: u32, c: u32| {
        vec![
            FormatProperties { format: 126, linear_tiling_features: 0, optimal_tiling_features: a },
            FormatProperties { format: 130, linear_tiling_features: 0, optimal_tiling_features: b },
            FormatProperties { format: 129, linear_tiling_features: 0, optimal_tiling_features: c },
        ]
    };
    assert_eq!(VulkanApi::get_depth_format(&props(0x200, 0x200, 0x200)), Ok(126));
    assert_eq!(VulkanApi::get_depth_format(&props(0x100, 0x1200, 0x200)), Ok(130));
    assert_eq!(VulkanApi::get_depth_format(&props(0, 0, 0x200)), Ok(129));
    assert_eq!(VulkanApi::get_depth_format(&props(0, 0, 0)), Err(ApiError::NoSupportedFormat));
}

#[test]
fn msaa_is_the_largest_count_both_can_have() {
    assert_eq!(VulkanApi::get_max_msaa_samples(0x7F, 0x7F), vk::SampleCountFlags::_64.bits());
    assert_eq!(VulkanApi::get_max_msaa_samples(0x7F, 0x0F), vk::SampleCountFlags::_8.bits());
    assert_eq!(VulkanApi::get_max_msaa_samples(0x15, 0x2B), vk::SampleCountFlags::_1.bits());
    assert_eq!(VulkanApi::get_max_msaa_samples(0x3, 0x3), 2);
    assert_eq!(VulkanApi::get_max_msaa_samples(0x24, 0x34), 0x20);
    assert_eq!(VulkanApi::get_max_msaa_samples(0x14, 0x14), 0x10);
    assert_eq!(VulkanApi::get_max_msaa_samples(0x5, 0x6), 4);
    assert_eq!(VulkanApi::get_max_msaa_samples(0, 0x7F), 1);
}

#[test]
fn extensions_need_the_swapchain() {
    assert!(VulkanApi::check_physical_device_extensions(&vec![b"VK_KHR_swapchain".to_vec()]).is_ok());
    for names in [
        vec![],
        vec![b"VK_KHR_swapchai".to_vec()],
        vec![b"VK_KHR_swapchain\0".to_vec()],
        vec![b"VK_KHR_swapchaim".to_vec(), b"vk_khr_swapchain".to_vec()],
    ] {
        assert_eq!(
            VulkanApi::check_physical_device_extensions(&names).unwrap_err().reason,
            Unsuitable::MissingDeviceExtensions
        );
    }
    assert_eq!(vk::KHR_SWAPCHAIN_EXTENSION.name.as_cstr().to_bytes(), b"VK_KHR_swapchain");
}

#[test]
fn suitability_gives_the_first_reason() {
    assert!(VulkanApi::check_physical_device(&good_device(1)).is_ok());
    let mut d = good_device(1);
    d.sampler_anisotropy = false;
    assert_eq!(VulkanApi::check_physical_device(&d).unwrap_err().reason, Unsuitable::NoSamplerAnisotropy);
    d.support.present_modes.clear();
    assert_eq!(VulkanApi::check_physical_device(&d).unwrap_err().reason, Unsuitable::InsufficientSwapchainSupport);
    let mut e = good_device(1);
    e.support.formats.clear();
    assert_eq!(VulkanApi::check_physical_device(&e).unwrap_err().reason, Unsuitable::InsufficientSwapchainSupport);
    d.extensions.clear();
    assert_eq!(VulkanApi::check_physical_device(&d).unwrap_err().reason, Unsuitable::MissingDeviceExtensions);
    d.queue_families[0].present_support = false;
    assert_eq!(VulkanApi::check_physical_device(&d).unwrap_err().reason, Unsuitable::MissingQueueFamilies);
}

#[test]
fn selection_takes_the_first_device_that_suits() {
    let mut bad = good_device(1);
    bad.sampler_anisotropy = false;
    let mut second = good_device(2);
    second.framebuffer_depth_sample_counts = 0x3;
    let devices = vec![bad.clone(), second, good_device(3)];
    assert_eq!(
        VulkanApi::select_physical_device(&devices),
        Ok(SelectedDevice { index: 1, physical_device: Handle::new(2), samples: 2 })
    );
    assert_eq!(VulkanApi::select_physical_device(&vec![bad]), Err(ApiError::NoSuitableDevice));
    assert_eq!(VulkanApi::select_physical_device(&vec![]), Err(ApiError::NoSuitableDevice));
    assert_eq!(
        VulkanApi::select_physical_device(&vec![good_device(9)]),
        Ok(SelectedDevice { index: 0, physical_device: Handle::new(9), samples: 8 })
    );
}

#[test]
fn versions_pack_as_on_the_device() {
    for (major, minor, patch) in [(1u32, 0u32, 0u32), (1, 3, 216), (0, 0, 0), (1023, 1023, 4095), (2000, 5000, 70000)] {
        assert_eq!(VulkanApi::make_version(major, minor, patch), vk::make_version(major, minor, patch));
    }
    assert_eq!(VulkanApi::make_version(1, 0, 0), 1 << 22);
}

#[test]
fn portability_is_for_macos_from_1_3_216() {
    assert!(VulkanApi::portability_needed(true, (1, 3, 216)));
    assert!(VulkanApi::portability_needed(true, (1, 3, 217)));
    assert!(VulkanApi::portability_needed(true, (1, 4, 0)));
    assert!(VulkanApi::portability_needed(true, (2, 0, 0)));
    assert!(!VulkanApi::portability_needed(true, (1, 3, 215)));
    assert!(!VulkanApi::portability_needed(true, (1, 2, 999)));
    assert!(!VulkanApi::portability_needed(true, (0, 9, 999)));
    assert!(!VulkanApi::portability_needed(false, (1, 3, 216)));
    for v in [(1u32, 3u32, 216u32), (1, 3, 215), (1, 2, 300), (2, 0, 0), (0, 4, 999)] {
        let at_least = vulkanalia::Version::new(v.0, v.1, v.2) >= vulkanalia::Version::new(1, 3, 216);
        assert_eq!(VulkanApi::portability_needed(true, v), at_least);
    }
}

#[test]
fn instance_needs_the_validation_layer_only_when_validating() {
    let layers = vec![b"VK_LAYER_other".to_vec(), b"VK_LAYER_KHRONOS_validation".to_vec()];
    let info = VulkanApi::create_instance(true, &layers, false, (1, 3, 250)).unwrap();
    assert_eq!(info.version, vk::make_version(1, 0, 0));
    assert!(info.validation);
    assert!(!info.portability);
    assert_eq!(
        VulkanApi::create_instance(true, &vec![b"VK_LAYER_other".to_vec()], false, (1, 3, 250)),
        Err(ApiError::ValidationLayerMissing)
    );
    let info = VulkanApi::create_instance(false, &vec![], true, (1, 3, 216)).unwrap();
    assert!(!info.validation);
    assert!(info.portability);
}

#[test]
fn logical_device_makes_one_queue_per_family() {
    let one = VulkanApi::create_logical_device(QueueFamilyIndices { graphics: 3, present: 3 }, true, false, (1, 0, 0));
    assert_eq!(one.queue_families, vec![3]);
    assert!(one.validation && one.sampler_anisotropy && one.sample_rate_shading && !one.portability_subset);
    let two = VulkanApi::create_logical_device(QueueFamilyIndices { graphics: 3, present: 1 }, false, true, (1, 3, 216));
    let mut families = two.queue_families.clone();
    families.sort();
    assert_eq!(families, vec![1, 3]);
    assert!(!two.validation && two.portability_subset);
}
