//! What is decided from the facts of a physical device and its surface.

use vstd::prelude::*;
use crate::handle::Handle;
use crate::command::Extent2D;
use crate::swap::{
    choose_extent, choose_image_count, choose_present_mode, choose_surface_format, clamp_extent,
    preferred_surface_format, QueueFamilyIndices, SharingMode, SurfaceCapabilities, SurfaceFormat,
    SwapchainCreateInfo, SwapchainError, SwapchainSupport, COLOR_SPACE_SRGB_NONLINEAR,
    COMPOSITE_ALPHA_OPAQUE, FORMAT_B8G8R8A8_SRGB, IMAGE_USAGE_COLOR_ATTACHMENT,
    PRESENT_MODE_FIFO, PRESENT_MODE_MAILBOX, UNDEFINED_EXTENT,
};

verus! {

/// The largest number of frames that are worked on at once.
pub const MAX_FRAMES_IN_FLIGHT: usize = 2;

/// The number of descriptor sets that a descriptor pool is made for.
pub const MAX_DESCRIPTOR_SETS: usize = 10;

/// The instance and the device that the commands go to. The decisions that
/// are taken from what the device reports are its associated functions.
#[derive(Clone, Copy, Debug, PartialEq, Eq, Structural)]
pub struct VulkanApi {
    pub instance: Handle,
    pub logical_device: Handle,
    pub physical_device: Handle,
}

impl VulkanApi {
    /// The format for the swapchain's images: 8-bit BGRA in non-linear
    /// sRGB where the surface offers it, else the first format it reports.
    pub fn get_surface_format(formats: &Vec<SurfaceFormat>) -> (f: SurfaceFormat)
        requires
            formats@.len() > 0,
        ensures
            f == choose_surface_format(formats@),
    {
        let mut i: usize = 0;
        while i < formats.len()
            invariant
                i <= formats.len(),
                forall|j: int| 0 <= j < i ==> #[trigger] formats@[j] != preferred_surface_format(),
            decreases formats.len() - i,
        {
            let f = formats[i];
            if f.format == FORMAT_B8G8R8A8_SRGB && f.color_space == COLOR_SPACE_SRGB_NONLINEAR {
                assert(formats@[i as int] == preferred_surface_format());
                return f;
            }
            i = i + 1;
        }
        formats[0]
    }

    /// The present mode for the swapchain: mailbox where the surface offers
    /// it, else first-in first-out.
    pub fn get_present_mode(present_modes: &Vec<i32>) -> (m: i32)
        ensures
            m == choose_present_mode(present_modes@),
    {
        let mut i: usize = 0;
        while i < present_modes.len()
            invariant
                i <= present_modes.len(),
                forall|j: int| 0 <= j < i ==> #[trigger] present_modes@[j] != PRESENT_MODE_MAILBOX,
            decreases present_modes.len() - i,
        {
            if present_modes[i] == PRESENT_MODE_MAILBOX {
                assert(present_modes@[i as int] == PRESENT_MODE_MAILBOX);
                return PRESENT_MODE_MAILBOX;
            }
            i = i + 1;
        }
        PRESENT_MODE_FIFO
    }

    /// The extent for the swapchain's images, from the window's size in
    /// pixels and what the surface reports.
    pub fn get_extent(window_size: Extent2D, capabilities: SurfaceCapabilities) -> (e: Extent2D)
        ensures
            e == choose_extent(window_size, capabilities),
    {
        if capabilities.current_extent.width != UNDEFINED_EXTENT {
            capabilities.current_extent
        } else {
            Extent2D {
                width: Self::clamp(
                    capabilities.min_image_extent.width,
                    capabilities.max_image_extent.width,
                    window_size.width,
                ),
                height: Self::clamp(
                    capabilities.min_image_extent.height,
                    capabilities.max_image_extent.height,
                    window_size.height,
                ),
            }
        }
    }

    fn clamp(min: u32, max: u32, v: u32) -> (r: u32)
        ensures
            r == clamp_extent(min, max, v),
    {
        let upper: u32 = if max < v { max } else { v };
        if min > upper { min } else { upper }
    }

    /// The number of images to ask the swapchain for.
    pub fn get_image_count(capabilities: SurfaceCapabilities) -> (n: u32)
        ensures
            n == choose_image_count(capabilities),
    {
        let wanted: u32 = if capabilities.min_image_count == u32::MAX {
            u32::MAX
        } else {
            capabilities.min_image_count + 1
        };
        if capabilities.max_image_count != 0 && wanted > capabilities.max_image_count {
            capabilities.max_image_count
        } else {
            wanted
        }
    }

    /// What the swapchain of a surface is created with. The images are
    /// shared between the graphics and the present family only where these
    /// differ. Fails where the surface reports no format, and else where it
    /// reports no present mode.
    pub fn create_swapchain(
        surface: Handle,
        support: &SwapchainSupport,
        indices: QueueFamilyIndices,
        window_size: Extent2D,
    ) -> (r: Result<SwapchainCreateInfo, SwapchainError>)
        ensures
            r is Ok <==> support.formats@.len() > 0 && support.present_modes@.len() > 0,
            r is Err ==> r->Err_0 == (if support.formats@.len() == 0 {
                SwapchainError::NoSupportedFormat
            } else {
                SwapchainError::NoPresentMode
            }),
            r is Ok ==> r->Ok_0.chosen_for(surface, support, indices, window_size),
    {
        if support.formats.len() == 0 {
            return Err(SwapchainError::NoSupportedFormat);
        }
        if support.present_modes.len() == 0 {
            return Err(SwapchainError::NoPresentMode);
        }
        let surface_format = Self::get_surface_format(&support.formats);
        let present_mode = Self::get_present_mode(&support.present_modes);
        let extent = Self::get_extent(window_size, support.capabilities);
        let image_count = Self::get_image_count(support.capabilities);
        let mut queue_family_indices: Vec<u32> = Vec::new();
        let image_sharing_mode = if indices.graphics != indices.present {
            queue_family_indices.push(indices.graphics);
            queue_family_indices.push(indices.present);
            assert(queue_family_indices@ =~= seq![indices.graphics, indices.present]);
            SharingMode::Concurrent
        } else {
            SharingMode::Exclusive
        };
        Ok(
            SwapchainCreateInfo {
                surface,
                min_image_count: image_count,
                image_format: surface_format.format,
                image_color_space: surface_format.color_space,
                image_extent: extent,
                image_array_layers: 1,
                image_usage: IMAGE_USAGE_COLOR_ATTACHMENT,
                image_sharing_mode,
                queue_family_indices,
                pre_transform: support.capabilities.current_transform,
                composite_alpha: COMPOSITE_ALPHA_OPAQUE,
                present_mode,
                clipped: true,
                old_swapchain: Handle::null(),
            },
        )
    }
}

} // verus!
