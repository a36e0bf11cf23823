//! The swapchain: how its parameters are chosen from what the surface
//! supports, and the state that is kept of it.

use vstd::prelude::*;
use crate::handle::Handle;
use crate::command::{DeviceCommand, Extent2D, ObjectKind};
use crate::pass::IMAGE_ASPECT_COLOR;
use crate::texture::{ImageViewInfo, Texture, TextureView};

verus! {

/// The format code of 8-bit BGRA with sRGB encoding.
pub const FORMAT_B8G8R8A8_SRGB: i32 = 50;

/// The colour space code of non-linear sRGB.
pub const COLOR_SPACE_SRGB_NONLINEAR: i32 = 0;

/// The present mode code of the low-latency mailbox mode.
pub const PRESENT_MODE_MAILBOX: i32 = 1;

/// The present mode code of the first-in first-out mode, which every
/// surface supports.
pub const PRESENT_MODE_FIFO: i32 = 2;

/// The width that a surface reports when it leaves the extent to the
/// swapchain.
pub const UNDEFINED_EXTENT: u32 = 0xFFFF_FFFF;

/// The image usage bit of a colour attachment.
pub const IMAGE_USAGE_COLOR_ATTACHMENT: u32 = 0x10;

/// The composite alpha bit of an opaque surface.
pub const COMPOSITE_ALPHA_OPAQUE: u32 = 0x1;

/// The queue capability bit of graphics work.
pub const QUEUE_GRAPHICS: u32 = 0x1;

/// A format with its colour space, as a surface reports it.
#[derive(Clone, Copy, Debug, PartialEq, Eq, Structural)]
pub struct SurfaceFormat {
    pub format: i32,
    pub color_space: i32,
}

/// What a surface can do.
#[derive(Clone, Copy, Debug, PartialEq, Eq, Structural)]
pub struct SurfaceCapabilities {
    pub min_image_count: u32,
    /// Zero where there is no upper limit.
    pub max_image_count: u32,
    pub current_extent: Extent2D,
    pub min_image_extent: Extent2D,
    pub max_image_extent: Extent2D,
    pub current_transform: u32,
}

/// What a physical device supports on a surface.
#[derive(Clone, Debug)]
pub struct SwapchainSupport {
    pub capabilities: SurfaceCapabilities,
    pub formats: Vec<SurfaceFormat>,
    pub present_modes: Vec<i32>,
}

impl SwapchainSupport {
    /// Puts together what was queried of a surface.
    pub fn get(capabilities: SurfaceCapabilities, formats: Vec<SurfaceFormat>, present_modes: Vec<i32>) -> (s:
        SwapchainSupport)
        ensures
            s.capabilities == capabilities,
            s.formats == formats,
            s.present_modes == present_modes,
    {
        SwapchainSupport { capabilities, formats, present_modes }
    }
}

/// What one queue family of a physical device can do.
#[derive(Clone, Copy, Debug, PartialEq, Eq, Structural)]
pub struct QueueFamily {
    /// The capability bits of the family.
    pub queue_flags: u32,
    /// Whether the family can present to the surface.
    pub present_support: bool,
}

impl QueueFamily {
    /// Whether the family does graphics work.
    pub open spec fn has_graphics(self) -> bool {
        self.queue_flags & QUEUE_GRAPHICS == QUEUE_GRAPHICS
    }
}

/// The queue families that graphics work and presentation go to.
#[derive(Clone, Copy, Debug, PartialEq, Eq, Structural)]
pub struct QueueFamilyIndices {
    pub graphics: u32,
    pub present: u32,
}

/// No queue family does graphics work, or none can present.
#[derive(Clone, Copy, Debug, PartialEq, Eq, Structural)]
pub struct SuitabilityError {
    pub reason: Unsuitable,
}

/// Why a physical device does not suit.
#[derive(Clone, Copy, Debug, PartialEq, Eq, Structural)]
pub enum Unsuitable {
    MissingQueueFamilies,
    MissingDeviceExtensions,
    InsufficientSwapchainSupport,
    NoSamplerAnisotropy,
}

/// Whether `i` is the first family of `families` that does graphics work.
pub open spec fn first_graphics_family(families: Seq<QueueFamily>, i: int) -> bool {
    &&& 0 <= i < families.len()
    &&& families[i].has_graphics()
    &&& forall|j: int| 0 <= j < i ==> !(#[trigger] families[j]).has_graphics()
}

/// Whether `i` is the first family of `families` that can present.
pub open spec fn first_present_family(families: Seq<QueueFamily>, i: int) -> bool {
    &&& 0 <= i < families.len()
    &&& families[i].present_support
    &&& forall|j: int| 0 <= j < i ==> !(#[trigger] families[j]).present_support
}

impl QueueFamilyIndices {
    /// The first family that does graphics work and the first that can
    /// present. Fails where either is missing, or where there are more
    /// families than a 32-bit index can name.
    pub fn get(families: &Vec<QueueFamily>) -> (r: Result<QueueFamilyIndices, SuitabilityError>)
        ensures
            r is Ok <==> (exists|i: int| 0 <= i < families@.len() && (#[trigger] families@[i]).has_graphics())
                && (exists|i: int| 0 <= i < families@.len() && (#[trigger] families@[i]).present_support)
                && families@.len() <= u32::MAX,
            r is Ok ==> first_graphics_family(families@, r->Ok_0.graphics as int),
            r is Ok ==> first_present_family(families@, r->Ok_0.present as int),
            r is Err ==> r->Err_0.reason == Unsuitable::MissingQueueFamilies,
    {
        if families.len() > u32::MAX as usize {
            return Err(SuitabilityError { reason: Unsuitable::MissingQueueFamilies });
        }
        let mut graphics: Option<u32> = None;
        let mut present: Option<u32> = None;
        let mut i: usize = 0;
        while i < families.len()
            invariant
                i <= families.len(),
                families.len() <= u32::MAX,
                graphics is Some ==> first_graphics_family(families@, graphics->Some_0 as int),
                graphics is None ==> forall|j: int| 0 <= j < i ==> !(#[trigger] families@[j]).has_graphics(),
                present is Some ==> first_present_family(families@, present->Some_0 as int),
                present is None ==> forall|j: int| 0 <= j < i ==> !(#[trigger] families@[j]).present_support,
            decreases families.len() - i,
        {
            let family = families[i];
            if graphics.is_none() && family.queue_flags & QUEUE_GRAPHICS == QUEUE_GRAPHICS {
                graphics = Some(i as u32);
            }
            if present.is_none() && family.present_support {
                present = Some(i as u32);
            }
            i = i + 1;
        }
        match (graphics, present) {
            (Some(g), Some(p)) => Ok(QueueFamilyIndices { graphics: g, present: p }),
            _ => Err(SuitabilityError { reason: Unsuitable::MissingQueueFamilies }),
        }
    }
}

/// How the images of a swapchain are shared between queue families.
#[derive(Clone, Copy, Debug, PartialEq, Eq, Structural)]
pub enum SharingMode {
    Exclusive,
    Concurrent,
}

/// Why no swapchain can be created on a surface.
#[derive(Clone, Copy, Debug, PartialEq, Eq, Structural)]
pub enum SwapchainError {
    /// The surface reports no format.
    NoSupportedFormat,
    /// The surface reports no present mode.
    NoPresentMode,
    /// The images and the views of a swapchain differ in number.
    ViewCount,
}

/// The format that is preferred: 8-bit BGRA in non-linear sRGB.
pub open spec fn preferred_surface_format() -> SurfaceFormat {
    SurfaceFormat { format: FORMAT_B8G8R8A8_SRGB, color_space: COLOR_SPACE_SRGB_NONLINEAR }
}

/// The format chosen from those a surface reports: the preferred one where
/// it is among them, else the first.
pub open spec fn choose_surface_format(formats: Seq<SurfaceFormat>) -> SurfaceFormat
    recommends
        formats.len() > 0,
{
    if formats.contains(preferred_surface_format()) {
        preferred_surface_format()
    } else {
        formats[0]
    }
}

/// The present mode chosen from those a surface reports: mailbox where it
/// is among them, else first-in first-out.
pub open spec fn choose_present_mode(present_modes: Seq<i32>) -> i32 {
    if present_modes.contains(PRESENT_MODE_MAILBOX) {
        PRESENT_MODE_MAILBOX
    } else {
        PRESENT_MODE_FIFO
    }
}

/// `v` brought into the range from `min` to `max`; `min` where the range
/// is empty.
pub open spec fn clamp_extent(min: u32, max: u32, v: u32) -> u32 {
    let upper = if max < v { max } else { v };
    if min > upper { min } else { upper }
}

/// The extent of the swapchain's images: what the surface reports as its
/// current extent, or, where it leaves that open, the window's size brought
/// within the surface's bounds.
pub open spec fn choose_extent(window_size: Extent2D, capabilities: SurfaceCapabilities) -> Extent2D {
    if capabilities.current_extent.width != UNDEFINED_EXTENT {
        capabilities.current_extent
    } else {
        Extent2D {
            width: clamp_extent(
                capabilities.min_image_extent.width,
                capabilities.max_image_extent.width,
                window_size.width,
            ),
            height: clamp_extent(
                capabilities.min_image_extent.height,
                capabilities.max_image_extent.height,
                window_size.height,
            ),
        }
    }
}

/// The number of images asked for: one more than the surface's minimum,
/// but no more than its maximum where it has one. One more than the largest
/// 32-bit number counts as that number.
pub open spec fn choose_image_count(capabilities: SurfaceCapabilities) -> u32 {
    let wanted: u32 = if capabilities.min_image_count == u32::MAX {
        u32::MAX
    } else {
        (capabilities.min_image_count + 1) as u32
    };
    if capabilities.max_image_count != 0 && wanted > capabilities.max_image_count {
        capabilities.max_image_count
    } else {
        wanted
    }
}

/// What a swapchain is created with.
#[derive(Clone, Debug)]
pub struct SwapchainCreateInfo {
    pub surface: Handle,
    pub min_image_count: u32,
    pub image_format: i32,
    pub image_color_space: i32,
    pub image_extent: Extent2D,
    pub image_array_layers: u32,
    pub image_usage: u32,
    pub image_sharing_mode: SharingMode,
    /// The families that share the images; empty where one family owns them.
    pub queue_family_indices: Vec<u32>,
    pub pre_transform: u32,
    pub composite_alpha: u32,
    pub present_mode: i32,
    pub clipped: bool,
    pub old_swapchain: Handle,
}

impl SwapchainCreateInfo {
    /// Whether this is what the selection policy gives for a surface.
    pub open spec fn chosen_for(
        &self,
        surface: Handle,
        support: &SwapchainSupport,
        indices: QueueFamilyIndices,
        window_size: Extent2D,
    ) -> bool {
        &&& self.surface == surface
        &&& self.min_image_count == choose_image_count(support.capabilities)
        &&& self.image_format == choose_surface_format(support.formats@).format
        &&& self.image_color_space == choose_surface_format(support.formats@).color_space
        &&& self.image_extent == choose_extent(window_size, support.capabilities)
        &&& self.image_array_layers == 1
        &&& self.image_usage == IMAGE_USAGE_COLOR_ATTACHMENT
        &&& self.image_sharing_mode == (if indices.graphics != indices.present {
            SharingMode::Concurrent
        } else {
            SharingMode::Exclusive
        })
        &&& self.queue_family_indices@ == (if indices.graphics != indices.present {
            seq![indices.graphics, indices.present]
        } else {
            Seq::<u32>::empty()
        })
        &&& self.pre_transform == support.capabilities.current_transform
        &&& self.composite_alpha == COMPOSITE_ALPHA_OPAQUE
        &&& self.present_mode == choose_present_mode(support.present_modes@)
        &&& self.clipped
        &&& self.old_swapchain.is_null()
    }
}

/// The presentable images of a surface. A rebuild replaces the whole value.
#[derive(Clone, Debug)]
pub struct Swapchain {
    pub handle: Handle,
    pub format: i32,
    pub extent: Extent2D,
    pub textures: Vec<Texture>,
    pub views: Vec<TextureView>,
}

/// The view handles of `views`, in order.
pub open spec fn view_handles(views: Seq<TextureView>) -> Seq<Handle> {
    Seq::new(views.len(), |i: int| views[i].handle)
}

impl Swapchain {
    pub fn new(handle: Handle, format: i32, extent: Extent2D, textures: Vec<Texture>, views: Vec<TextureView>) -> (s:
        Swapchain)
        ensures
            s.handle == handle,
            s.format == format,
            s.extent == extent,
            s.textures == textures,
            s.views == views,
    {
        Swapchain { handle, format, extent, textures, views }
    }

    /// The number of presentable images.
    pub open spec fn image_count(&self) -> nat {
        self.views@.len()
    }

    /// There is one view for each image, and at least one image.
    pub open spec fn wf(&self) -> bool {
        &&& self.textures@.len() == self.views@.len()
        &&& self.views@.len() > 0
        &&& self.views@.len() <= u32::MAX
    }

    /// What the view of one image of a swapchain is created with: the
    /// colour of its one mip level and one layer, in the swapchain's format.
    pub fn view_info(info: &SwapchainCreateInfo, image: Handle) -> (v: ImageViewInfo)
        ensures
            v == (ImageViewInfo {
                image,
                format: info.image_format,
                aspect_mask: IMAGE_ASPECT_COLOR,
                base_mip_level: 0,
                level_count: 1,
                base_array_layer: 0,
                layer_count: 1,
            }),
    {
        ImageViewInfo {
            image,
            format: info.image_format,
            aspect_mask: IMAGE_ASPECT_COLOR,
            base_mip_level: 0,
            level_count: 1,
            base_array_layer: 0,
            layer_count: 1,
        }
    }

    /// The state of a swapchain that was created with `info`, from its
    /// handle, its images and one view of each. The images belong to the
    /// swapchain, so they have no memory of their own. Fails where the views
    /// are not as many as the images.
    pub fn create(info: &SwapchainCreateInfo, handle: Handle, images: &Vec<Handle>, views: &Vec<Handle>) -> (r:
        Result<Swapchain, SwapchainError>)
        ensures
            r is Ok <==> images@.len() == views@.len(),
            r is Err ==> r->Err_0 == SwapchainError::ViewCount,
            r is Ok ==> ({
                let s = r->Ok_0;
                &&& s.handle == handle
                &&& s.format == info.image_format
                &&& s.extent == info.image_extent
                &&& s.textures@ == Seq::new(
                    images@.len(),
                    |i: int| Texture { handle: images@[i], memory: Handle { raw: 0 }, mip_levels: 0 },
                )
                &&& s.views@ == Seq::new(views@.len(), |i: int| TextureView { handle: views@[i] })
            }),
    {
        if images.len() != views.len() {
            return Err(SwapchainError::ViewCount);
        }
        let mut textures: Vec<Texture> = Vec::new();
        let mut texture_views: Vec<TextureView> = Vec::new();
        let mut i: usize = 0;
        while i < images.len()
            invariant
                i <= images.len(),
                images.len() == views.len(),
                textures@ == Seq::new(
                    i as nat,
                    |k: int| Texture { handle: images@[k], memory: Handle { raw: 0 }, mip_levels: 0 },
                ),
                texture_views@ == Seq::new(i as nat, |k: int| TextureView { handle: views@[k] }),
            decreases images.len() - i,
        {
            textures.push(Texture::new(images[i], Handle::null(), 0));
            texture_views.push(TextureView::new(views[i]));
            i = i + 1;
            assert(textures@ =~= Seq::new(
                i as nat,
                |k: int| Texture { handle: images@[k], memory: Handle { raw: 0 }, mip_levels: 0 },
            ));
            assert(texture_views@ =~= Seq::new(i as nat, |k: int| TextureView { handle: views@[k] }));
        }
        Ok(Swapchain::new(handle, info.image_format, info.image_extent, textures, texture_views))
    }

    /// The swapchain that stands for none: a null handle, the undefined
    /// format, no extent and no images.
    pub fn null() -> (s: Swapchain)
        ensures
            s.spec_is_null(),
            s.format == 0,
            s.extent == (Extent2D { width: 0, height: 0 }),
            s.textures@.len() == 0,
            s.views@.len() == 0,
    {
        Swapchain {
            handle: Handle::null(),
            format: 0,
            extent: Extent2D { width: 0, height: 0 },
            textures: Vec::new(),
            views: Vec::new(),
        }
    }

    pub open spec fn spec_is_null(&self) -> bool {
        self.handle.is_null()
    }

    /// Whether the swapchain's handle is null.
    #[verifier::when_used_as_spec(spec_is_null)]
    pub fn is_null(&self) -> (b: bool)
        ensures
            b == self.spec_is_null(),
    {
        self.handle.is_null()
    }

    /// The commands that `destroy` returns.
    pub open spec fn destroy_plan(&self) -> Seq<DeviceCommand> {
        Seq::new(
            self.views@.len(),
            |i: int| DeviceCommand::Destroy { kind: ObjectKind::ImageView, handle: self.views@[i].handle },
        ).push(DeviceCommand::Destroy { kind: ObjectKind::Swapchain, handle: self.handle })
    }

    /// The commands that destroy the view of each image and then the
    /// swapchain. They may be carried out only once the device is idle, or
    /// once no fence in flight guards one of the images.
    pub fn destroy(&self) -> (plan: Vec<DeviceCommand>)
        ensures
            plan@ == self.destroy_plan(),
    {
        let mut plan: Vec<DeviceCommand> = Vec::new();
        let mut i: usize = 0;
        while i < self.views.len()
            invariant
                i <= self.views.len(),
                plan@ == Seq::new(
                    i as nat,
                    |k: int| DeviceCommand::Destroy { kind: ObjectKind::ImageView, handle: self.views@[k].handle },
                ),
            decreases self.views.len() - i,
        {
            plan.push(self.views[i].destroy());
            i = i + 1;
            assert(plan@ =~= Seq::new(
                i as nat,
                |k: int| DeviceCommand::Destroy { kind: ObjectKind::ImageView, handle: self.views@[k].handle },
            ));
        }
        plan.push(DeviceCommand::Destroy { kind: ObjectKind::Swapchain, handle: self.handle });
        plan
    }
}

impl Default for Swapchain {
    fn default() -> (s: Swapchain)
        ensures
            s.spec_is_null(),
            s.views@.len() == 0,
    {
        Swapchain::null()
    }
}

} // verus!
