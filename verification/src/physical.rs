//! What is decided from the facts of a physical device: whether it suits,
//! which memory type and which format to use, and how many samples.

use std::collections::HashSet;
use vstd::prelude::*;
use vstd::std_specs::iter::IteratorSpec;
use crate::api::VulkanApi;
use crate::handle::Handle;
use crate::swap::{QueueFamily, QueueFamilyIndices, SuitabilityError, SwapchainSupport, Unsuitable};

verus! {

/// The memory property bit of memory that is local to the device.
pub const MEMORY_PROPERTY_DEVICE_LOCAL: u32 = 0x1;

/// The memory property bit of memory that the host can map.
pub const MEMORY_PROPERTY_HOST_VISIBLE: u32 = 0x2;

/// The memory property bit of memory that needs no flushing.
pub const MEMORY_PROPERTY_HOST_COHERENT: u32 = 0x4;

/// The format feature bit of a depth and stencil attachment.
pub const FORMAT_FEATURE_DEPTH_STENCIL_ATTACHMENT: u32 = 0x200;

/// The format feature bit of linear filtering when sampled.
pub const FORMAT_FEATURE_SAMPLED_IMAGE_FILTER_LINEAR: u32 = 0x1000;

/// The tiling code of the layout that the device likes best.
pub const IMAGE_TILING_OPTIMAL: i32 = 0;

/// The tiling code of the row-major layout.
pub const IMAGE_TILING_LINEAR: i32 = 1;

/// The format code of 32-bit float depth.
pub const FORMAT_D32_SFLOAT: i32 = 126;

/// The format code of 24-bit depth with 8-bit stencil.
pub const FORMAT_D24_UNORM_S8_UINT: i32 = 129;

/// The format code of 32-bit float depth with 8-bit stencil.
pub const FORMAT_D32_SFLOAT_S8_UINT: i32 = 130;

/// The number of memory types that a device can report.
pub const MAX_MEMORY_TYPES: usize = 32;

/// One memory type of a physical device.
#[derive(Clone, Copy, Debug, PartialEq, Eq, Structural)]
pub struct MemoryType {
    pub property_flags: u32,
    pub heap_index: u32,
}

/// What an image or a buffer needs of its memory.
#[derive(Clone, Copy, Debug, PartialEq, Eq, Structural)]
pub struct MemoryRequirements {
    pub size: u64,
    pub alignment: u64,
    /// Bit `i` is set where memory type `i` will do.
    pub memory_type_bits: u32,
}

/// What a physical device can do with a format.
#[derive(Clone, Copy, Debug, PartialEq, Eq, Structural)]
pub struct FormatProperties {
    pub format: i32,
    pub linear_tiling_features: u32,
    pub optimal_tiling_features: u32,
}

/// Why nothing could be chosen.
#[derive(Clone, Copy, Debug, PartialEq, Eq, Structural)]
pub enum ApiError {
    /// No memory type has the properties asked for.
    NoMemoryType,
    /// No candidate format has the features asked for.
    NoSupportedFormat,
    /// No physical device suits.
    NoSuitableDevice,
    /// The image layouts are not a pair that can be gone between.
    UnsupportedLayoutTransition,
    /// The format cannot be filtered linearly, so no mip level can be
    /// made from another.
    NoLinearBlit,
    /// Validation is asked for, and the validation layer is not on offer.
    ValidationLayerMissing,
}

/// The facts of a physical device that its suitability is decided from.
#[derive(Clone, Debug)]
pub struct PhysicalDeviceInfo {
    pub handle: Handle,
    pub queue_families: Vec<QueueFamily>,
    /// The names of the device extensions that are on offer.
    pub extensions: Vec<Vec<u8>>,
    pub support: SwapchainSupport,
    pub sampler_anisotropy: bool,
    /// The sample counts that colour attachments can have.
    pub framebuffer_color_sample_counts: u32,
    /// The sample counts that depth attachments can have.
    pub framebuffer_depth_sample_counts: u32,
}

/// The device that was chosen, and the sample count for its attachments.
#[derive(Clone, Copy, Debug, PartialEq, Eq, Structural)]
pub struct SelectedDevice {
    /// Where the device stands among those on offer.
    pub index: usize,
    pub physical_device: Handle,
    pub samples: u32,
}

/// Whether memory type `i` will do for `bits` and has all of `properties`.
pub open spec fn memory_type_suits(types: Seq<MemoryType>, i: int, properties: u32, bits: u32) -> bool {
    &&& 0 <= i < types.len()
    &&& i < 32
    &&& (bits >> (i as u32)) & 1 == 1
    &&& types[i].property_flags & properties == properties
}

/// Whether a format has all of `features` in the given tiling. In a tiling
/// other than the two known ones it has none.
pub open spec fn format_supports(p: FormatProperties, tiling: i32, features: u32) -> bool {
    if tiling == IMAGE_TILING_LINEAR {
        p.linear_tiling_features & features == features
    } else if tiling == IMAGE_TILING_OPTIMAL {
        p.optimal_tiling_features & features == features
    } else {
        false
    }
}

/// The largest sample count that both colour and depth attachments can
/// have, as its bit; one sample where they share none above it.
pub open spec fn max_shared_samples(color: u32, depth: u32) -> u32 {
    let counts = color & depth;
    if counts & 0x40 == 0x40 {
        0x40
    } else if counts & 0x20 == 0x20 {
        0x20
    } else if counts & 0x10 == 0x10 {
        0x10
    } else if counts & 0x8 == 0x8 {
        0x8
    } else if counts & 0x4 == 0x4 {
        0x4
    } else if counts & 0x2 == 0x2 {
        0x2
    } else {
        0x1
    }
}

/// The name of the device extension that swapchains need.
pub open spec fn swapchain_extension_name() -> Seq<u8> {
    seq![86u8, 75, 95, 75, 72, 82, 95, 115, 119, 97, 112, 99, 104, 97, 105, 110]
}

/// Whether `wanted` is among the names.
pub open spec fn has_name(names: Seq<Vec<u8>>, wanted: Seq<u8>) -> bool {
    exists|k: int| 0 <= k < names.len() && (#[trigger] names[k])@ == wanted
}

/// Whether the swapchain extension is among the names.
pub open spec fn has_swapchain_extension(extensions: Seq<Vec<u8>>) -> bool {
    has_name(extensions, swapchain_extension_name())
}

/// The name of the validation layer.
pub open spec fn validation_layer_name() -> Seq<u8> {
    seq![
        86u8, 75, 95, 76, 65, 89, 69, 82, 95, 75, 72, 82, 79, 78, 79, 83, 95, 118, 97, 108, 105, 100, 97, 116, 105,
        111, 110,
    ]
}

/// Whether version `a` is at least version `b`, each given as major, minor
/// and patch.
pub open spec fn version_at_least(a: (u32, u32, u32), b: (u32, u32, u32)) -> bool {
    a.0 > b.0 || (a.0 == b.0 && (a.1 > b.1 || (a.1 == b.1 && a.2 >= b.2)))
}

/// Whether the instance and the device need the portability extensions:
/// on macOS, from version 1.3.216 of the loader on.
pub open spec fn needs_portability(macos: bool, version: (u32, u32, u32)) -> bool {
    macos && version_at_least(version, (1u32, 3u32, 216u32))
}

/// What the instance is created with.
#[derive(Clone, Copy, Debug, PartialEq, Eq, Structural)]
pub struct InstanceInfo {
    /// The version of the application, of the engine and of the interface
    /// asked for, each packed into one number.
    pub version: u32,
    /// Whether the validation layer and the debug extension are enabled,
    /// and a debug messenger is made.
    pub validation: bool,
    /// Whether the extensions and the flag for devices that are not fully
    /// conformant are enabled.
    pub portability: bool,
}

/// What the logical device is created with. The swapchain extension and
/// anisotropic filtering are always asked for.
#[derive(Clone, Debug)]
pub struct LogicalDeviceInfo {
    /// The queue families that a queue is made in, each once, in the
    /// order in which a set of them is walked.
    pub queue_families: Vec<u32>,
    pub validation: bool,
    /// Whether the extension for devices that are not fully conformant is
    /// enabled.
    pub portability_subset: bool,
    pub sampler_anisotropy: bool,
    pub sample_rate_shading: bool,
}

/// A version packed into one number: the major number from bit 22 on, the
/// minor number from bit 12 on, and the patch number below.
pub open spec fn packed_version(major: u32, minor: u32, patch: u32) -> u32 {
    (major << 22) | (minor << 12) | patch
}

/// Why a physical device does not suit, if it does not. The queue
/// families are looked at first, then the extensions, then the surface,
/// then the features.
pub open spec fn unsuitability(info: &PhysicalDeviceInfo) -> Option<Unsuitable> {
    if !((exists|i: int| 0 <= i < info.queue_families@.len() && (#[trigger] info.queue_families@[i]).has_graphics())
        && (exists|i: int| 0 <= i < info.queue_families@.len() && (#[trigger] info.queue_families@[i]).present_support)
        && info.queue_families@.len() <= u32::MAX) {
        Some(Unsuitable::MissingQueueFamilies)
    } else if !has_swapchain_extension(info.extensions@) {
        Some(Unsuitable::MissingDeviceExtensions)
    } else if info.support.formats@.len() == 0 || info.support.present_modes@.len() == 0 {
        Some(Unsuitable::InsufficientSwapchainSupport)
    } else if !info.sampler_anisotropy {
        Some(Unsuitable::NoSamplerAnisotropy)
    } else {
        None
    }
}

impl VulkanApi {
    /// The first memory type that will do for `requirements` and has all
    /// of `properties`.
    pub fn get_memory_type_index(memory_types: &Vec<MemoryType>, properties: u32, requirements: MemoryRequirements) -> (r:
        Result<u32, ApiError>)
        ensures
            r is Ok <==> exists|i: int|
                memory_type_suits(memory_types@, i, properties, requirements.memory_type_bits),
            r is Ok ==> memory_type_suits(memory_types@, r->Ok_0 as int, properties, requirements.memory_type_bits),
            r is Ok ==> forall|j: int|
                0 <= j < r->Ok_0 ==> !memory_type_suits(memory_types@, j, properties, requirements.memory_type_bits),
            r is Err ==> r->Err_0 == ApiError::NoMemoryType,
    {
        let mut i: usize = 0;
        while i < memory_types.len() && i < 32
            invariant
                i <= memory_types.len(),
                i <= 32,
                forall|j: int|
                    0 <= j < i ==> !memory_type_suits(memory_types@, j, properties, requirements.memory_type_bits),
            decreases memory_types.len() - i,
        {
            let suitable = (requirements.memory_type_bits >> (i as u32)) & 1 == 1;
            if suitable && memory_types[i].property_flags & properties == properties {
                assert(memory_type_suits(memory_types@, i as int, properties, requirements.memory_type_bits));
                return Ok(i as u32);
            }
            i = i + 1;
        }
        Err(ApiError::NoMemoryType)
    }

    /// The first of the candidate formats that has all of `features` in
    /// the given tiling.
    pub fn get_supported_format(candidates: &Vec<FormatProperties>, tiling: i32, features: u32) -> (r: Result<
        i32,
        ApiError,
    >)
        ensures
            r is Ok <==> exists|i: int|
                0 <= i < candidates@.len() && format_supports(#[trigger] candidates@[i], tiling, features),
            r is Ok ==> exists|i: int|
                0 <= i < candidates@.len() && format_supports(#[trigger] candidates@[i], tiling, features)
                    && candidates@[i].format == r->Ok_0 && forall|j: int|
                    0 <= j < i ==> !format_supports(#[trigger] candidates@[j], tiling, features),
            r is Err ==> r->Err_0 == ApiError::NoSupportedFormat,
    {
        let mut i: usize = 0;
        while i < candidates.len()
            invariant
                i <= candidates.len(),
                forall|j: int| 0 <= j < i ==> !format_supports(#[trigger] candidates@[j], tiling, features),
            decreases candidates.len() - i,
        {
            let p = candidates[i];
            let supported = if tiling == IMAGE_TILING_LINEAR {
                p.linear_tiling_features & features == features
            } else if tiling == IMAGE_TILING_OPTIMAL {
                p.optimal_tiling_features & features == features
            } else {
                false
            };
            if supported {
                assert(format_supports(candidates@[i as int], tiling, features));
                return Ok(p.format);
            }
            i = i + 1;
        }
        Err(ApiError::NoSupportedFormat)
    }

    /// The formats that a depth attachment may have, best first.
    pub fn depth_format_candidates() -> (formats: Vec<i32>)
        ensures
            formats@ == seq![FORMAT_D32_SFLOAT, FORMAT_D32_SFLOAT_S8_UINT, FORMAT_D24_UNORM_S8_UINT],
    {
        let mut formats: Vec<i32> = Vec::new();
        formats.push(FORMAT_D32_SFLOAT);
        formats.push(FORMAT_D32_SFLOAT_S8_UINT);
        formats.push(FORMAT_D24_UNORM_S8_UINT);
        assert(formats@ =~= seq![FORMAT_D32_SFLOAT, FORMAT_D32_SFLOAT_S8_UINT, FORMAT_D24_UNORM_S8_UINT]);
        formats
    }

    /// The format of the depth attachment: the first of the candidates, as
    /// the device describes them, that can be a depth and stencil
    /// attachment in optimal tiling.
    pub fn get_depth_format(candidates: &Vec<FormatProperties>) -> (r: Result<i32, ApiError>)
        ensures
            r is Ok <==> exists|i: int|
                0 <= i < candidates@.len() && format_supports(
                    #[trigger] candidates@[i],
                    IMAGE_TILING_OPTIMAL,
                    FORMAT_FEATURE_DEPTH_STENCIL_ATTACHMENT,
                ),
            r is Ok ==> exists|i: int|
                0 <= i < candidates@.len() && format_supports(
                    #[trigger] candidates@[i],
                    IMAGE_TILING_OPTIMAL,
                    FORMAT_FEATURE_DEPTH_STENCIL_ATTACHMENT,
                ) && candidates@[i].format == r->Ok_0 && forall|j: int|
                    0 <= j < i ==> !format_supports(
                        #[trigger] candidates@[j],
                        IMAGE_TILING_OPTIMAL,
                        FORMAT_FEATURE_DEPTH_STENCIL_ATTACHMENT,
                    ),
            r is Err ==> r->Err_0 == ApiError::NoSupportedFormat,
    {
        Self::get_supported_format(candidates, IMAGE_TILING_OPTIMAL, FORMAT_FEATURE_DEPTH_STENCIL_ATTACHMENT)
    }

    /// The sample count for the attachments: the largest that both colour
    /// and depth attachments can have.
    pub fn get_max_msaa_samples(color_sample_counts: u32, depth_sample_counts: u32) -> (samples: u32)
        ensures
            samples == max_shared_samples(color_sample_counts, depth_sample_counts),
    {
        let counts: u32 = color_sample_counts & depth_sample_counts;
        if counts & 0x40 == 0x40 {
            0x40
        } else if counts & 0x20 == 0x20 {
            0x20
        } else if counts & 0x10 == 0x10 {
            0x10
        } else if counts & 0x8 == 0x8 {
            0x8
        } else if counts & 0x4 == 0x4 {
            0x4
        } else if counts & 0x2 == 0x2 {
            0x2
        } else {
            0x1
        }
    }

    fn same_name(name: &Vec<u8>, wanted: &[u8]) -> (b: bool)
        ensures
            b == (name@ == wanted@),
    {
        if name.len() != wanted.len() {
            return false;
        }
        let mut i: usize = 0;
        while i < wanted.len()
            invariant
                i <= wanted.len(),
                name@.len() == wanted@.len(),
                forall|j: int| 0 <= j < i ==> name@[j] == wanted@[j],
            decreases wanted.len() - i,
        {
            if name[i] != wanted[i] {
                return false;
            }
            i = i + 1;
        }
        assert(name@ =~= wanted@);
        true
    }

    fn contains_name(names: &Vec<Vec<u8>>, wanted: &[u8]) -> (b: bool)
        ensures
            b == has_name(names@, wanted@),
    {
        let mut k: usize = 0;
        while k < names.len()
            invariant
                k <= names.len(),
                forall|j: int| 0 <= j < k ==> (#[trigger] names@[j])@ != wanted@,
            decreases names.len() - k,
        {
            if Self::same_name(&names[k], wanted) {
                assert(names@[k as int]@ == wanted@);
                return true;
            }
            k = k + 1;
        }
        false
    }

    /// Whether the extension that swapchains need is among those on offer.
    pub fn check_physical_device_extensions(extensions: &Vec<Vec<u8>>) -> (r: Result<(), SuitabilityError>)
        ensures
            r is Ok <==> has_swapchain_extension(extensions@),
            r is Err ==> r->Err_0.reason == Unsuitable::MissingDeviceExtensions,
    {
        let wanted: [u8; 16] = [86, 75, 95, 75, 72, 82, 95, 115, 119, 97, 112, 99, 104, 97, 105, 110];
        assert(wanted@ =~= swapchain_extension_name());
        if Self::contains_name(extensions, wanted.as_slice()) {
            Ok(())
        } else {
            Err(SuitabilityError { reason: Unsuitable::MissingDeviceExtensions })
        }
    }

    /// Whether a physical device suits: it has a queue family for graphics
    /// work and one that can present, it offers the swapchain extension,
    /// its surface reports a format and a present mode, and it can filter
    /// anisotropically. The first of these that fails is the reason given.
    pub fn check_physical_device(info: &PhysicalDeviceInfo) -> (r: Result<(), SuitabilityError>)
        ensures
            r is Ok <==> unsuitability(info) is None,
            r is Err ==> unsuitability(info) == Some(r->Err_0.reason),
    {
        match QueueFamilyIndices::get(&info.queue_families) {
            Ok(_) => {},
            Err(e) => {
                return Err(e);
            },
        }
        match Self::check_physical_device_extensions(&info.extensions) {
            Ok(_) => {},
            Err(e) => {
                return Err(e);
            },
        }
        if info.support.formats.len() == 0 || info.support.present_modes.len() == 0 {
            return Err(SuitabilityError { reason: Unsuitable::InsufficientSwapchainSupport });
        }
        if !info.sampler_anisotropy {
            return Err(SuitabilityError { reason: Unsuitable::NoSamplerAnisotropy });
        }
        Ok(())
    }

    /// The first physical device that suits, with the sample count for its
    /// attachments.
    pub fn select_physical_device(devices: &Vec<PhysicalDeviceInfo>) -> (r: Result<SelectedDevice, ApiError>)
        ensures
            r is Ok <==> exists|i: int| 0 <= i < devices@.len() && unsuitability(&#[trigger] devices@[i]) is None,
            r is Ok ==> ({
                let s = r->Ok_0;
                &&& s.index < devices@.len()
                &&& unsuitability(&devices@[s.index as int]) is None
                &&& forall|j: int| 0 <= j < s.index ==> unsuitability(&#[trigger] devices@[j]) is Some
                &&& s.physical_device == devices@[s.index as int].handle
                &&& s.samples == max_shared_samples(
                    devices@[s.index as int].framebuffer_color_sample_counts,
                    devices@[s.index as int].framebuffer_depth_sample_counts,
                )
            }),
            r is Err ==> r->Err_0 == ApiError::NoSuitableDevice,
    {
        let mut i: usize = 0;
        while i < devices.len()
            invariant
                i <= devices.len(),
                forall|j: int| 0 <= j < i ==> unsuitability(&#[trigger] devices@[j]) is Some,
            decreases devices.len() - i,
        {
            let info = &devices[i];
            if Self::check_physical_device(info).is_ok() {
                return Ok(
                    SelectedDevice {
                        index: i,
                        physical_device: info.handle,
                        samples: Self::get_max_msaa_samples(
                            info.framebuffer_color_sample_counts,
                            info.framebuffer_depth_sample_counts,
                        ),
                    },
                );
            }
            i = i + 1;
        }
        Err(ApiError::NoSuitableDevice)
    }

    /// A version packed into one number.
    pub fn make_version(major: u32, minor: u32, patch: u32) -> (v: u32)
        ensures
            v == packed_version(major, minor, patch),
    {
        (major << 22) | (minor << 12) | patch
    }

    /// What the instance is created with. Version 1.0.0 is asked for.
    /// Where validation is asked for, the validation layer has to be among
    /// the layers on offer. `version` is that of the loader.
    pub fn create_instance(validation_enabled: bool, available_layers: &Vec<Vec<u8>>, macos: bool, version: (
        u32,
        u32,
        u32,
    )) -> (r: Result<InstanceInfo, ApiError>)
        ensures
            r is Ok <==> !validation_enabled || has_name(available_layers@, validation_layer_name()),
            r is Err ==> r->Err_0 == ApiError::ValidationLayerMissing,
            r is Ok ==> r->Ok_0 == (InstanceInfo {
                version: packed_version(1, 0, 0),
                validation: validation_enabled,
                portability: needs_portability(macos, version),
            }),
    {
        if validation_enabled {
            let wanted: [u8; 27] = [
                86,
                75,
                95,
                76,
                65,
                89,
                69,
                82,
                95,
                75,
                72,
                82,
                79,
                78,
                79,
                83,
                95,
                118,
                97,
                108,
                105,
                100,
                97,
                116,
                105,
                111,
                110,
            ];
            assert(wanted@ =~= validation_layer_name());
            if !Self::contains_name(available_layers, wanted.as_slice()) {
                return Err(ApiError::ValidationLayerMissing);
            }
        }
        Ok(
            InstanceInfo {
                version: Self::make_version(1, 0, 0),
                validation: validation_enabled,
                portability: Self::portability_needed(macos, version),
            },
        )
    }

    /// Whether the portability extensions are needed.
    pub fn portability_needed(macos: bool, version: (u32, u32, u32)) -> (b: bool)
        ensures
            b == needs_portability(macos, version),
    {
        macos && (version.0 > 1 || (version.0 == 1 && (version.1 > 3 || (version.1 == 3 && version.2 >= 216))))
    }

    /// The members of a set of queue families, each once, in the order in
    /// which the set is walked.
    fn families_of(unique: &HashSet<u32>) -> (families: Vec<u32>)
        ensures
            families@.no_duplicates(),
            families@.to_set() == unique@,
    {
        let mut families: Vec<u32> = Vec::new();
        let it = unique.iter();
        let ghost keys = it.remaining();
        for family in iter: it
            invariant
                iter.seq() == keys,
                families@ == keys.unref().take(iter.index() as int),
        {
            families.push(*family);
            assert(families@ =~= keys.unref().take(iter.index() + 1));
        }
        proof {
            assert(families@ =~= keys.unref());
            assert forall|i: int, j: int|
                0 <= i < families@.len() && 0 <= j < families@.len() && i != j implies families@[i]
                != families@[j] by {
                assert(keys[i] != keys[j]);
            }
        }
        families
    }

    /// What the logical device is created with: one queue in the graphics
    /// family, and one in the present family where that is another. Which
    /// of two families comes first is left open.
    pub fn create_logical_device(indices: QueueFamilyIndices, validation_enabled: bool, macos: bool, version: (
        u32,
        u32,
        u32,
    )) -> (info: LogicalDeviceInfo)
        ensures
            info.queue_families@.no_duplicates(),
            info.queue_families@.to_set() == set![indices.graphics, indices.present],
            info.queue_families@.len() == (if indices.graphics == indices.present {
                1nat
            } else {
                2nat
            }),
            info.validation == validation_enabled,
            info.portability_subset == needs_portability(macos, version),
            info.sampler_anisotropy,
            info.sample_rate_shading,
    {
        let mut unique_indices: HashSet<u32> = HashSet::new();
        unique_indices.insert(indices.graphics);
        unique_indices.insert(indices.present);
        let queue_families = Self::families_of(&unique_indices);
        proof {
            assert(unique_indices@ =~= set![indices.graphics, indices.present]);
            queue_families@.unique_seq_to_set();
            if indices.graphics == indices.present {
                assert(set![indices.graphics, indices.present] =~= set![indices.graphics]);
                assert(set![indices.graphics].len() == 1);
            } else {
                assert(set![indices.graphics, indices.present] =~= Set::<u32>::empty().insert(
                    indices.graphics,
                ).insert(indices.present));
                assert(set![indices.graphics, indices.present].len() == 2);
            }
        }
        LogicalDeviceInfo {
            queue_families,
            validation: validation_enabled,
            portability_subset: Self::portability_needed(macos, version),
            sampler_anisotropy: true,
            sample_rate_shading: true,
        }
    }
}

} // verus!
