//! What the render pass, the framebuffers, the buffers and the pools are
//! created with.

use vstd::prelude::*;
use crate::api::VulkanApi;
use crate::command::Extent2D;
use crate::handle::Handle;
use crate::image::{
    ACCESS_COLOR_ATTACHMENT_WRITE, ACCESS_DEPTH_STENCIL_ATTACHMENT_WRITE,
    IMAGE_LAYOUT_COLOR_ATTACHMENT_OPTIMAL, IMAGE_LAYOUT_DEPTH_STENCIL_ATTACHMENT_OPTIMAL,
    IMAGE_LAYOUT_PRESENT_SRC, IMAGE_LAYOUT_UNDEFINED, PIPELINE_STAGE_COLOR_ATTACHMENT_OUTPUT,
    PIPELINE_STAGE_EARLY_FRAGMENT_TESTS,
};
use crate::shader::{aligned_code, valid_code_length, ShaderCodeError};
use crate::swap::IMAGE_USAGE_COLOR_ATTACHMENT;

verus! {

pub const ATTACHMENT_LOAD_OP_CLEAR: i32 = 1;

pub const ATTACHMENT_LOAD_OP_DONT_CARE: i32 = 2;

pub const ATTACHMENT_STORE_OP_STORE: i32 = 0;

pub const ATTACHMENT_STORE_OP_DONT_CARE: i32 = 1;

/// The sample count bit of one sample.
pub const SAMPLE_COUNT_1: u32 = 0x1;

/// The subpass index that stands for what is outside the render pass.
pub const SUBPASS_EXTERNAL: u32 = 0xFFFF_FFFF;

/// The sharing mode code of a resource that one queue family owns.
pub const SHARING_MODE_EXCLUSIVE: i32 = 0;

/// The descriptor type code of a sampled image with its sampler.
pub const DESCRIPTOR_TYPE_COMBINED_IMAGE_SAMPLER: i32 = 1;

/// The descriptor type code of a uniform buffer.
pub const DESCRIPTOR_TYPE_UNIFORM_BUFFER: i32 = 6;

/// The shader stage bit of the vertex stage.
pub const SHADER_STAGE_VERTEX: u32 = 0x1;

/// The shader stage bit of the fragment stage.
pub const SHADER_STAGE_FRAGMENT: u32 = 0x10;

/// The image usage bit of a depth and stencil attachment.
pub const IMAGE_USAGE_DEPTH_STENCIL_ATTACHMENT: u32 = 0x20;

/// The image usage bit of an attachment that need not outlive the pass.
pub const IMAGE_USAGE_TRANSIENT_ATTACHMENT: u32 = 0x40;

/// The image aspect bit of colour.
pub const IMAGE_ASPECT_COLOR: u32 = 0x1;

/// The image aspect bit of depth.
pub const IMAGE_ASPECT_DEPTH: u32 = 0x2;

/// One attachment of a render pass.
#[derive(Clone, Copy, Debug, PartialEq, Eq, Structural)]
pub struct AttachmentDescription {
    pub format: i32,
    pub samples: u32,
    pub load_op: i32,
    pub store_op: i32,
    pub stencil_load_op: i32,
    pub stencil_store_op: i32,
    pub initial_layout: i32,
    pub final_layout: i32,
}

/// What the one subpass of the render pass waits for.
#[derive(Clone, Copy, Debug, PartialEq, Eq, Structural)]
pub struct SubpassDependency {
    pub src_subpass: u32,
    pub dst_subpass: u32,
    pub src_stage_mask: u32,
    pub src_access_mask: u32,
    pub dst_stage_mask: u32,
    pub dst_access_mask: u32,
}

/// What the render pass is created with: attachment 0 is the multisampled
/// colour attachment, attachment 1 the depth attachment, and attachment 2
/// the image of the swapchain that the colour is resolved to.
#[derive(Clone, Copy, Debug, PartialEq, Eq, Structural)]
pub struct RenderPassInfo {
    pub color: AttachmentDescription,
    pub depth_stencil: AttachmentDescription,
    pub color_resolve: AttachmentDescription,
    /// The layout of attachment 0 in the subpass.
    pub color_layout: i32,
    /// The layout of attachment 1 in the subpass.
    pub depth_stencil_layout: i32,
    /// The layout of attachment 2 in the subpass.
    pub color_resolve_layout: i32,
    pub dependency: SubpassDependency,
}

/// What a framebuffer is created with.
#[derive(Clone, Copy, Debug, PartialEq, Eq, Structural)]
pub struct FramebufferInfo {
    pub render_pass: Handle,
    /// The view of the multisampled colour attachment.
    pub color: Handle,
    /// The view of the depth attachment.
    pub depth: Handle,
    /// The view of the swapchain's image.
    pub target: Handle,
    pub width: u32,
    pub height: u32,
    pub layers: u32,
}

/// What a buffer is created with.
#[derive(Clone, Copy, Debug, PartialEq, Eq, Structural)]
pub struct BufferInfo {
    /// The size in bytes.
    pub size: u64,
    pub usage: u32,
    pub sharing_mode: i32,
    /// The properties that the buffer's memory has to have.
    pub memory_properties: u32,
}

/// What a descriptor pool is created with.
#[derive(Clone, Copy, Debug, PartialEq, Eq, Structural)]
pub struct DescriptorPoolInfo {
    pub uniform_buffers: u32,
    pub combined_image_samplers: u32,
    pub max_sets: u32,
}

/// One binding of a descriptor set layout.
#[derive(Clone, Copy, Debug, PartialEq, Eq, Structural)]
pub struct DescriptorBinding {
    pub binding: u32,
    pub descriptor_type: i32,
    pub descriptor_count: u32,
    /// The shader stages that see the binding.
    pub stage_flags: u32,
}

/// What one descriptor set is filled with: a uniform buffer at binding 0
/// and a sampled image at binding 1.
#[derive(Clone, Copy, Debug, PartialEq, Eq, Structural)]
pub struct DescriptorUpdate {
    pub descriptor_set: Handle,
    pub buffer: Handle,
    /// The number of bytes of the buffer that the shader sees, from its
    /// start.
    pub range: u64,
    pub image_view: Handle,
    pub sampler: Handle,
    /// The layout that the image is in when it is sampled.
    pub image_layout: i32,
}

/// What a two-dimensional image is created with.
#[derive(Clone, Copy, Debug, PartialEq, Eq, Structural)]
pub struct ImageInfo {
    pub width: u32,
    pub height: u32,
    pub depth: u32,
    pub mip_levels: u32,
    pub array_layers: u32,
    pub format: i32,
    pub tiling: i32,
    pub initial_layout: i32,
    pub usage: u32,
    pub sharing_mode: i32,
    pub samples: u32,
    /// The properties that the image's memory has to have.
    pub memory_properties: u32,
}

/// What an attachment of the render targets is created with: its image,
/// and the aspect that its view shows.
#[derive(Clone, Copy, Debug, PartialEq, Eq, Structural)]
pub struct TargetInfo {
    pub image: ImageInfo,
    pub view_aspect: u32,
}

/// What a shader module is created with.
#[derive(Clone, Debug)]
pub struct ShaderModuleInfo {
    /// The size of the code in bytes.
    pub code_size: usize,
    pub code: Vec<u32>,
}

/// The render pass for a swapchain of the given format.
pub open spec fn render_pass_for(format: i32, samples: u32, depth_format: i32) -> RenderPassInfo {
    RenderPassInfo {
        color: AttachmentDescription {
            format,
            samples,
            load_op: ATTACHMENT_LOAD_OP_CLEAR,
            store_op: ATTACHMENT_STORE_OP_STORE,
            stencil_load_op: ATTACHMENT_LOAD_OP_DONT_CARE,
            stencil_store_op: ATTACHMENT_STORE_OP_DONT_CARE,
            initial_layout: IMAGE_LAYOUT_UNDEFINED,
            final_layout: IMAGE_LAYOUT_COLOR_ATTACHMENT_OPTIMAL,
        },
        depth_stencil: AttachmentDescription {
            format: depth_format,
            samples,
            load_op: ATTACHMENT_LOAD_OP_CLEAR,
            store_op: ATTACHMENT_STORE_OP_DONT_CARE,
            stencil_load_op: ATTACHMENT_LOAD_OP_DONT_CARE,
            stencil_store_op: ATTACHMENT_STORE_OP_DONT_CARE,
            initial_layout: IMAGE_LAYOUT_UNDEFINED,
            final_layout: IMAGE_LAYOUT_DEPTH_STENCIL_ATTACHMENT_OPTIMAL,
        },
        color_resolve: AttachmentDescription {
            format,
            samples: SAMPLE_COUNT_1,
            load_op: ATTACHMENT_LOAD_OP_DONT_CARE,
            store_op: ATTACHMENT_STORE_OP_STORE,
            stencil_load_op: ATTACHMENT_LOAD_OP_DONT_CARE,
            stencil_store_op: ATTACHMENT_STORE_OP_DONT_CARE,
            initial_layout: IMAGE_LAYOUT_UNDEFINED,
            final_layout: IMAGE_LAYOUT_PRESENT_SRC,
        },
        color_layout: IMAGE_LAYOUT_COLOR_ATTACHMENT_OPTIMAL,
        depth_stencil_layout: IMAGE_LAYOUT_DEPTH_STENCIL_ATTACHMENT_OPTIMAL,
        color_resolve_layout: IMAGE_LAYOUT_COLOR_ATTACHMENT_OPTIMAL,
        dependency: SubpassDependency {
            src_subpass: SUBPASS_EXTERNAL,
            dst_subpass: 0,
            src_stage_mask: PIPELINE_STAGE_COLOR_ATTACHMENT_OUTPUT | PIPELINE_STAGE_EARLY_FRAGMENT_TESTS,
            src_access_mask: 0,
            dst_stage_mask: PIPELINE_STAGE_COLOR_ATTACHMENT_OUTPUT | PIPELINE_STAGE_EARLY_FRAGMENT_TESTS,
            dst_access_mask: ACCESS_COLOR_ATTACHMENT_WRITE | ACCESS_DEPTH_STENCIL_ATTACHMENT_WRITE,
        },
    }
}

/// The image of the given size and kind, one layer deep, in no layout yet
/// and owned by one queue family.
pub open spec fn image_for(
    extent: Extent2D,
    mip_levels: u32,
    samples: u32,
    format: i32,
    tiling: i32,
    usage: u32,
    properties: u32,
) -> ImageInfo {
    ImageInfo {
        width: extent.width,
        height: extent.height,
        depth: 1,
        mip_levels,
        array_layers: 1,
        format,
        tiling,
        initial_layout: IMAGE_LAYOUT_UNDEFINED,
        usage,
        sharing_mode: SHARING_MODE_EXCLUSIVE,
        samples,
        memory_properties: properties,
    }
}

/// The framebuffer of the image with view `target`.
pub open spec fn framebuffer_for(render_pass: Handle, extent: Extent2D, color: Handle, depth: Handle, target: Handle) -> FramebufferInfo {
    FramebufferInfo { render_pass, color, depth, target, width: extent.width, height: extent.height, layers: 1 }
}

impl VulkanApi {
    /// What the render pass for a swapchain is created with. The colour
    /// and the depth attachment have `samples` samples and are cleared
    /// when the pass begins; the colour is resolved to the swapchain's
    /// image, which is left ready to be presented.
    pub fn create_render_pass(format: i32, samples: u32, depth_format: i32) -> (info: RenderPassInfo)
        ensures
            info == render_pass_for(format, samples, depth_format),
    {
        let stages: u32 = PIPELINE_STAGE_COLOR_ATTACHMENT_OUTPUT | PIPELINE_STAGE_EARLY_FRAGMENT_TESTS;
        RenderPassInfo {
            color: AttachmentDescription {
                format,
                samples,
                load_op: ATTACHMENT_LOAD_OP_CLEAR,
                store_op: ATTACHMENT_STORE_OP_STORE,
                stencil_load_op: ATTACHMENT_LOAD_OP_DONT_CARE,
                stencil_store_op: ATTACHMENT_STORE_OP_DONT_CARE,
                initial_layout: IMAGE_LAYOUT_UNDEFINED,
                final_layout: IMAGE_LAYOUT_COLOR_ATTACHMENT_OPTIMAL,
            },
            depth_stencil: AttachmentDescription {
                format: depth_format,
                samples,
                load_op: ATTACHMENT_LOAD_OP_CLEAR,
                store_op: ATTACHMENT_STORE_OP_DONT_CARE,
                stencil_load_op: ATTACHMENT_LOAD_OP_DONT_CARE,
                stencil_store_op: ATTACHMENT_STORE_OP_DONT_CARE,
                initial_layout: IMAGE_LAYOUT_UNDEFINED,
                final_layout: IMAGE_LAYOUT_DEPTH_STENCIL_ATTACHMENT_OPTIMAL,
            },
            color_resolve: AttachmentDescription {
                format,
                samples: SAMPLE_COUNT_1,
                load_op: ATTACHMENT_LOAD_OP_DONT_CARE,
                store_op: ATTACHMENT_STORE_OP_STORE,
                stencil_load_op: ATTACHMENT_LOAD_OP_DONT_CARE,
                stencil_store_op: ATTACHMENT_STORE_OP_DONT_CARE,
                initial_layout: IMAGE_LAYOUT_UNDEFINED,
                final_layout: IMAGE_LAYOUT_PRESENT_SRC,
            },
            color_layout: IMAGE_LAYOUT_COLOR_ATTACHMENT_OPTIMAL,
            depth_stencil_layout: IMAGE_LAYOUT_DEPTH_STENCIL_ATTACHMENT_OPTIMAL,
            color_resolve_layout: IMAGE_LAYOUT_COLOR_ATTACHMENT_OPTIMAL,
            dependency: SubpassDependency {
                src_subpass: SUBPASS_EXTERNAL,
                dst_subpass: 0,
                src_stage_mask: stages,
                src_access_mask: 0,
                dst_stage_mask: stages,
                dst_access_mask: ACCESS_COLOR_ATTACHMENT_WRITE | ACCESS_DEPTH_STENCIL_ATTACHMENT_WRITE,
            },
        }
    }

    /// What the framebuffer of one image is created with: it binds the
    /// multisampled colour attachment, the depth attachment and the view
    /// of the image, in this order.
    pub fn create_framebuffer(render_pass: Handle, extent: Extent2D, attachment: Handle, depth: Handle, view: Handle) -> (info:
        FramebufferInfo)
        ensures
            info == framebuffer_for(render_pass, extent, attachment, depth, view),
    {
        FramebufferInfo {
            render_pass,
            color: attachment,
            depth,
            target: view,
            width: extent.width,
            height: extent.height,
            layers: 1,
        }
    }

    /// What the framebuffers of a swapchain are created with, one for each
    /// view of its images and in their order.
    pub fn create_framebuffers(
        render_pass: Handle,
        extent: Extent2D,
        attachment: Handle,
        depth: Handle,
        views: &Vec<Handle>,
    ) -> (infos: Vec<FramebufferInfo>)
        ensures
            infos@ == Seq::new(
                views@.len(),
                |i: int| framebuffer_for(render_pass, extent, attachment, depth, views@[i]),
            ),
    {
        let mut infos: Vec<FramebufferInfo> = Vec::new();
        let mut i: usize = 0;
        while i < views.len()
            invariant
                i <= views.len(),
                infos@ == Seq::new(
                    i as nat,
                    |k: int| framebuffer_for(render_pass, extent, attachment, depth, views@[k]),
                ),
            decreases views.len() - i,
        {
            infos.push(Self::create_framebuffer(render_pass, extent, attachment, depth, views[i]));
            i = i + 1;
            assert(infos@ =~= Seq::new(
                i as nat,
                |k: int| framebuffer_for(render_pass, extent, attachment, depth, views@[k]),
            ));
        }
        infos
    }

    /// What a buffer of `count` elements of `element_size` bytes each is
    /// created with, or nothing where its size in bytes has no 64-bit
    /// number.
    pub fn create_buffer(element_size: usize, count: usize, usage: u32, properties: u32) -> (info: Option<BufferInfo>)
        ensures
            info is Some <==> element_size * count <= u64::MAX,
            info is Some ==> info->Some_0 == (BufferInfo {
                size: (element_size * count) as u64,
                usage,
                sharing_mode: SHARING_MODE_EXCLUSIVE,
                memory_properties: properties,
            }),
    {
        let size: Option<u64> = (element_size as u64).checked_mul(count as u64);
        match size {
            Some(size) => Some(
                BufferInfo { size, usage, sharing_mode: SHARING_MODE_EXCLUSIVE, memory_properties: properties },
            ),
            None => None,
        }
    }

    /// What a descriptor pool for `count` sets is created with: room for
    /// that many uniform buffers and as many combined image samplers.
    pub fn create_descriptor_pool(count: usize) -> (info: Option<DescriptorPoolInfo>)
        ensures
            info is Some <==> count <= u32::MAX,
            info is Some ==> info->Some_0 == (DescriptorPoolInfo {
                uniform_buffers: count as u32,
                combined_image_samplers: count as u32,
                max_sets: count as u32,
            }),
    {
        if count > u32::MAX as usize {
            None
        } else {
            Some(
                DescriptorPoolInfo {
                    uniform_buffers: count as u32,
                    combined_image_samplers: count as u32,
                    max_sets: count as u32,
                },
            )
        }
    }

    /// What a shader module is created with, from a blob of shader code.
    /// A blob that is empty, or whose length is no multiple of four, is
    /// refused with its length. Any other blob gives its code in 32-bit
    /// words, unless no buffer could be had for them.
    pub fn create_shader_module(bytecode: &[u8]) -> (r: Result<ShaderModuleInfo, ShaderCodeError>)
        ensures
            !valid_code_length(bytecode@.len() as int) ==> r == Err::<ShaderModuleInfo, ShaderCodeError>(
                ShaderCodeError::Length(bytecode@.len() as usize),
            ),
            valid_code_length(bytecode@.len() as int) ==> (r is Ok || r == Err::<ShaderModuleInfo, ShaderCodeError>(
                ShaderCodeError::Alloc,
            )),
            r is Ok ==> r->Ok_0.code_size == bytecode@.len() && r->Ok_0.code@.len() * 4 == bytecode@.len(),
    {
        match aligned_code(bytecode) {
            Ok(code) => Ok(ShaderModuleInfo { code_size: bytecode.len(), code }),
            Err(e) => Err(e),
        }
    }

    /// What a two-dimensional image is created with.
    pub fn create_image(
        extent: Extent2D,
        mip_levels: u32,
        samples: u32,
        format: i32,
        tiling: i32,
        usage: u32,
        properties: u32,
    ) -> (info: ImageInfo)
        ensures
            info == image_for(extent, mip_levels, samples, format, tiling, usage, properties),
    {
        ImageInfo {
            width: extent.width,
            height: extent.height,
            depth: 1,
            mip_levels,
            array_layers: 1,
            format,
            tiling,
            initial_layout: IMAGE_LAYOUT_UNDEFINED,
            usage,
            sharing_mode: SHARING_MODE_EXCLUSIVE,
            samples,
            memory_properties: properties,
        }
    }

    /// What the multisampled colour attachment of a swapchain is created
    /// with: an image of the swapchain's format and extent, of one mip
    /// level, local to the device, that is a colour attachment and need
    /// not outlive the pass.
    pub fn create_color_objects(format: i32, extent: Extent2D, samples: u32) -> (target: TargetInfo)
        ensures
            target == (TargetInfo {
                image: image_for(
                    extent,
                    1,
                    samples,
                    format,
                    crate::physical::IMAGE_TILING_OPTIMAL,
                    IMAGE_USAGE_COLOR_ATTACHMENT | IMAGE_USAGE_TRANSIENT_ATTACHMENT,
                    crate::physical::MEMORY_PROPERTY_DEVICE_LOCAL,
                ),
                view_aspect: IMAGE_ASPECT_COLOR,
            }),
    {
        TargetInfo {
            image: Self::create_image(
                extent,
                1,
                samples,
                format,
                crate::physical::IMAGE_TILING_OPTIMAL,
                IMAGE_USAGE_COLOR_ATTACHMENT | IMAGE_USAGE_TRANSIENT_ATTACHMENT,
                crate::physical::MEMORY_PROPERTY_DEVICE_LOCAL,
            ),
            view_aspect: IMAGE_ASPECT_COLOR,
        }
    }

    /// What the depth attachment of a swapchain is created with: an image
    /// of the depth format and the swapchain's extent, of one mip level,
    /// local to the device.
    pub fn create_depth_objects(depth_format: i32, extent: Extent2D, samples: u32) -> (target: TargetInfo)
        ensures
            target == (TargetInfo {
                image: image_for(
                    extent,
                    1,
                    samples,
                    depth_format,
                    crate::physical::IMAGE_TILING_OPTIMAL,
                    IMAGE_USAGE_DEPTH_STENCIL_ATTACHMENT,
                    crate::physical::MEMORY_PROPERTY_DEVICE_LOCAL,
                ),
                view_aspect: IMAGE_ASPECT_DEPTH,
            }),
    {
        TargetInfo {
            image: Self::create_image(
                extent,
                1,
                samples,
                depth_format,
                crate::physical::IMAGE_TILING_OPTIMAL,
                IMAGE_USAGE_DEPTH_STENCIL_ATTACHMENT,
                crate::physical::MEMORY_PROPERTY_DEVICE_LOCAL,
            ),
            view_aspect: IMAGE_ASPECT_DEPTH,
        }
    }

    /// The bindings of the descriptor set layout: a uniform buffer for the
    /// vertex stage at binding 0, and a sampled image for the fragment
    /// stage at binding 1.
    pub fn create_descriptor_set_layout() -> (bindings: [DescriptorBinding; 2])
        ensures
            bindings@ == seq![
                DescriptorBinding {
                    binding: 0,
                    descriptor_type: DESCRIPTOR_TYPE_UNIFORM_BUFFER,
                    descriptor_count: 1,
                    stage_flags: SHADER_STAGE_VERTEX,
                },
                DescriptorBinding {
                    binding: 1,
                    descriptor_type: DESCRIPTOR_TYPE_COMBINED_IMAGE_SAMPLER,
                    descriptor_count: 1,
                    stage_flags: SHADER_STAGE_FRAGMENT,
                },
            ],
    {
        let bindings: [DescriptorBinding; 2] = [
            DescriptorBinding {
                binding: 0,
                descriptor_type: DESCRIPTOR_TYPE_UNIFORM_BUFFER,
                descriptor_count: 1,
                stage_flags: SHADER_STAGE_VERTEX,
            },
            DescriptorBinding {
                binding: 1,
                descriptor_type: DESCRIPTOR_TYPE_COMBINED_IMAGE_SAMPLER,
                descriptor_count: 1,
                stage_flags: SHADER_STAGE_FRAGMENT,
            },
        ];
        assert(bindings@ =~= seq![
            DescriptorBinding {
                binding: 0,
                descriptor_type: DESCRIPTOR_TYPE_UNIFORM_BUFFER,
                descriptor_count: 1,
                stage_flags: SHADER_STAGE_VERTEX,
            },
            DescriptorBinding {
                binding: 1,
                descriptor_type: DESCRIPTOR_TYPE_COMBINED_IMAGE_SAMPLER,
                descriptor_count: 1,
                stage_flags: SHADER_STAGE_FRAGMENT,
            },
        ]);
        bindings
    }

    /// What the first `count` descriptor sets are filled with: set `i`
    /// gets the whole of uniform buffer `i`, of `uniform_size` bytes, and
    /// the image with its sampler, which is read by shaders only.
    pub fn update_descriptor_sets(
        descriptor_sets: &Vec<Handle>,
        uniform_buffers: &Vec<(Handle, Handle)>,
        uniform_size: u64,
        image_view: Handle,
        sampler: Handle,
        count: usize,
    ) -> (updates: Vec<DescriptorUpdate>)
        requires
            count <= descriptor_sets@.len(),
            count <= uniform_buffers@.len(),
        ensures
            updates@ == Seq::new(
                count as nat,
                |i: int|
                    DescriptorUpdate {
                        descriptor_set: descriptor_sets@[i],
                        buffer: uniform_buffers@[i].0,
                        range: uniform_size,
                        image_view,
                        sampler,
                        image_layout: crate::image::IMAGE_LAYOUT_SHADER_READ_ONLY_OPTIMAL,
                    },
            ),
    {
        let mut updates: Vec<DescriptorUpdate> = Vec::new();
        let mut i: usize = 0;
        while i < count
            invariant
                i <= count,
                count <= descriptor_sets@.len(),
                count <= uniform_buffers@.len(),
                updates@ == Seq::new(
                    i as nat,
                    |k: int|
                        DescriptorUpdate {
                            descriptor_set: descriptor_sets@[k],
                            buffer: uniform_buffers@[k].0,
                            range: uniform_size,
                            image_view,
                            sampler,
                            image_layout: crate::image::IMAGE_LAYOUT_SHADER_READ_ONLY_OPTIMAL,
                        },
                ),
            decreases count - i,
        {
            updates.push(
                DescriptorUpdate {
                    descriptor_set: descriptor_sets[i],
                    buffer: uniform_buffers[i].0,
                    range: uniform_size,
                    image_view,
                    sampler,
                    image_layout: crate::image::IMAGE_LAYOUT_SHADER_READ_ONLY_OPTIMAL,
                },
            );
            i = i + 1;
            assert(updates@ =~= Seq::new(
                i as nat,
                |k: int|
                    DescriptorUpdate {
                        descriptor_set: descriptor_sets@[k],
                        buffer: uniform_buffers@[k].0,
                        range: uniform_size,
                        image_view,
                        sampler,
                        image_layout: crate::image::IMAGE_LAYOUT_SHADER_READ_ONLY_OPTIMAL,
                    },
            ));
        }
        updates
    }
}

} // verus!
