//! The encoder interface: a device that buffers what is recorded for a
//! frame until the frame ends, and the encoders that record into the
//! command buffer of the bound image.

use vstd::prelude::*;
use crate::command::{ClearColor, DeviceCommand, Extent2D, ObjectKind, RecordedCommand};
use crate::device::{
    AcquireResult, DeviceError, FramePhase, PresentResult, VulkanDevice, F32_ONE, F32_ZERO, open_pass,
};
use crate::format::{texture_format_of_code, GPUTextureFormat};
use crate::handle::Handle;
use crate::pass::{BufferInfo, SHARING_MODE_EXCLUSIVE};
use crate::physical::{MEMORY_PROPERTY_DEVICE_LOCAL, MEMORY_PROPERTY_HOST_COHERENT, MEMORY_PROPERTY_HOST_VISIBLE};
use crate::plan::{
    destroy_all, destroy_buffers, destroy_if_set, free_command_buffers, free_descriptor_sets,
    push_all, push_destroy_all, push_destroy_buffers, push_destroy_if_set, push_free_command_buffers,
    push_free_descriptor_sets,
};
use crate::structs::{
    GPUBufferMapState, GPUBufferUsageFlags, GPUIndexFormat, GPUTextureDimension, GPUTextureUsageFlags,
    VulkanConverter, VK_BUFFER_USAGE_INDEX_BUFFER, VK_BUFFER_USAGE_TRANSFER_DST,
    VK_BUFFER_USAGE_VERTEX_BUFFER, VK_INDEX_TYPE_UINT16, VK_INDEX_TYPE_UINT32,
};

verus! {

/// Why an encoder call was refused.
#[derive(Clone, Copy, Debug, PartialEq, Eq, Structural)]
pub enum EncoderError {
    /// The frame loop refused the call.
    Device(DeviceError),
    /// The call records into a pass, and none is open.
    NoOpenPass,
    /// A pass is being recorded already.
    PassOpen,
    /// The image that is bound to the frame has no command buffer, no
    /// framebuffer or no descriptor set here.
    NoImageResources,
    /// The buffer usage is none that a typed buffer can be made for.
    UnsupportedUsage,
    /// The size of the buffer in bytes has no 64-bit number.
    SizeOverflow,
}

/// How far the recording into the bound image's command buffer has come.
#[derive(Clone, Copy, Debug, PartialEq, Eq, Structural)]
pub enum EncoderState {
    /// Nothing is being recorded.
    Idle,
    /// A pass is open.
    PassOpen,
    /// The pass has been closed; the command buffer has not.
    PassClosed,
}

/// A bind group.
#[derive(Clone, Copy, Debug, PartialEq, Eq, Structural)]
pub struct GPUBindGroup {}

/// The layout of a bind group.
#[derive(Clone, Copy, Debug, PartialEq, Eq, Structural)]
pub struct GPUBindGroupLayout {}

/// The layout of a pipeline.
#[derive(Clone, Copy, Debug, PartialEq, Eq, Structural)]
pub struct GPUPipelineLayout {}

/// A render pipeline.
#[derive(Clone, Copy, Debug, PartialEq, Eq, Structural)]
pub struct GPURenderPipeline {}

/// A sampler.
#[derive(Clone, Copy, Debug, PartialEq, Eq, Structural)]
pub struct GPUSampler {}

/// A shader module.
#[derive(Clone, Copy, Debug, PartialEq, Eq, Hash, Structural)]
pub struct GPUShaderModule {}

/// A view of a texture.
#[derive(Clone, Copy, Debug, PartialEq, Eq, Structural)]
pub struct GPUTextureView {}

/// A colour. Each channel holds the bits of a 32-bit float.
#[derive(Clone, Copy, Debug, PartialEq, Eq, Structural)]
pub struct GPUColor {
    pub r: u32,
    pub g: u32,
    pub b: u32,
    pub a: u32,
}

impl GPUColor {
    /// The colour whose channels are the first four numbers of `data`.
    pub fn from_vec(data: &Vec<u32>) -> (c: GPUColor)
        requires
            data@.len() >= 4,
        ensures
            c == (GPUColor { r: data@[0], g: data@[1], b: data@[2], a: data@[3] }),
    {
        GPUColor { r: data[0], g: data[1], b: data[2], a: data[3] }
    }

    /// The channels in the order red, green, blue, alpha.
    pub fn to_vect(&self) -> (data: Vec<u32>)
        ensures
            data@ == seq![self.r, self.g, self.b, self.a],
    {
        let mut data: Vec<u32> = Vec::new();
        data.push(self.r);
        data.push(self.g);
        data.push(self.b);
        data.push(self.a);
        assert(data@ =~= seq![self.r, self.g, self.b, self.a]);
        data
    }
}

/// The way from the encoder interface to the device of the frame loop.
#[derive(Clone, Debug)]
pub struct VulkanBridge {
    pub device: VulkanDevice,
}

impl VulkanBridge {
    pub fn create(device: VulkanDevice) -> (b: VulkanBridge)
        ensures
            b.device == device,
    {
        VulkanBridge { device }
    }

    /// What the render pass of a pass description is created with: always
    /// the render pass of the device's swapchain, with the device's sample
    /// count.
    pub fn construct_render_pass(&self, depth_format: i32) -> (info: crate::pass::RenderPassInfo)
        ensures
            info == crate::pass::render_pass_for(
                self.device.data.swapchain.format,
                self.device.data.samples,
                depth_format,
            ),
    {
        crate::api::VulkanApi::create_render_pass(
            self.device.data.swapchain.format,
            self.device.data.samples,
            depth_format,
        )
    }
}

/// An extent of up to three dimensions.
#[derive(Clone, Copy, Debug, PartialEq, Eq, Structural)]
pub struct GPUExtent3D {
    pub width: u32,
    pub height: Option<u32>,
    pub depth_or_array_layers: Option<u32>,
}

/// A texture as the encoder interface describes it.
#[derive(Clone, Copy, Debug, PartialEq, Eq, Structural)]
pub struct GPUTexture {
    pub width: i32,
    pub height: i32,
    pub depth_or_array_layers: i32,
    pub mip_level_count: i32,
    pub sample_count: u32,
    pub dimension: GPUTextureDimension,
    pub format: GPUTextureFormat,
    pub usage: GPUTextureUsageFlags,
}

impl GPUTexture {
    /// A view of the texture.
    pub fn create_view(&self) -> GPUTextureView {
        GPUTextureView {  }
    }
}

/// The description of a texture with nothing in it: two dimensions, no
/// extent, 8-bit RGBA, to be rendered to.
pub open spec fn unloaded_texture() -> GPUTexture {
    GPUTexture {
        width: 0,
        height: 0,
        depth_or_array_layers: 0,
        mip_level_count: 0,
        sample_count: 0,
        dimension: GPUTextureDimension::TwoD,
        format: GPUTextureFormat::Rgba8Unorm,
        usage: GPUTextureUsageFlags { bits: GPUTextureUsageFlags::RENDER_ATTACHMENT },
    }
}

/// A buffer on the device.
#[derive(Clone, Copy, Debug, PartialEq, Eq, Structural)]
pub struct GPUBuffer {
    /// The size in bytes.
    pub size: u64,
    pub usage: GPUBufferUsageFlags,
    pub map_state: GPUBufferMapState,
    pub buffer: Handle,
    pub memory: Handle,
}

impl GPUBuffer {
    /// The buffer that stands for none.
    pub fn null() -> (b: GPUBuffer)
        ensures
            b == (GPUBuffer {
                size: 0,
                usage: GPUBufferUsageFlags { bits: 0 },
                map_state: GPUBufferMapState::Mapped,
                buffer: Handle { raw: 0 },
                memory: Handle { raw: 0 },
            }),
    {
        GPUBuffer {
            size: 0,
            usage: GPUBufferUsageFlags::empty(),
            map_state: GPUBufferMapState::Mapped,
            buffer: Handle::null(),
            memory: Handle::null(),
        }
    }
}

impl Default for GPUBuffer {
    fn default() -> (b: GPUBuffer)
        ensures
            b.buffer.is_null(),
            b.memory.is_null(),
            b.size == 0,
    {
        GPUBuffer::null()
    }
}

/// A command buffer whose recording is finished.
#[derive(Clone, Copy, Debug, PartialEq, Eq, Structural)]
pub struct GPUCommandBuffer {
    pub command_buffer: Handle,
}

/// How a typed buffer is made.
#[derive(Clone, Copy, Debug, PartialEq, Eq, Structural)]
pub struct TypedBufferInfo {
    /// Whether the data goes through a staging buffer that the host can
    /// map, from which it is copied to the buffer.
    pub staged: bool,
    pub buffer: BufferInfo,
}

/// What the encoders use of the device, one of each per image where it
/// depends on the image.
#[derive(Clone, Debug)]
pub struct GPUDeviceContext {
    pub render_pass: Handle,
    pub descriptor_set_layout: Handle,
    pub pipeline_layout: Handle,
    pub pipeline: Handle,
    pub uniform_buffers: Vec<(Handle, Handle)>,
    pub framebuffers: Vec<Handle>,
    pub command_pool: Handle,
    pub descriptor_pool: Handle,
    pub descriptor_sets: Vec<Handle>,
    pub command_buffers: Vec<Handle>,
    /// For each image, the command buffers that were handed over for
    /// submission.
    pub command_buffer_queues: Vec<Vec<Handle>>,
}

/// What a context is built from anew.
#[derive(Clone, Debug)]
pub struct ContextResources {
    pub render_pass: Handle,
    pub descriptor_set_layout: Handle,
    pub pipeline_layout: Handle,
    pub pipeline: Handle,
    pub uniform_buffers: Vec<(Handle, Handle)>,
    pub framebuffers: Vec<Handle>,
    pub command_pool: Handle,
    pub descriptor_pool: Handle,
    pub descriptor_sets: Vec<Handle>,
    pub command_buffers: Vec<Handle>,
}

impl GPUDeviceContext {
    /// The context holds nothing.
    pub open spec fn spec_is_null(&self) -> bool {
        &&& self.render_pass.is_null()
        &&& self.descriptor_set_layout.is_null()
        &&& self.pipeline_layout.is_null()
        &&& self.pipeline.is_null()
        &&& self.uniform_buffers@.len() == 0
        &&& self.framebuffers@.len() == 0
        &&& self.command_pool.is_null()
        &&& self.descriptor_pool.is_null()
        &&& self.descriptor_sets@.len() == 0
        &&& self.command_buffers@.len() == 0
        &&& self.command_buffer_queues@.len() == 0
    }

    /// The context that holds nothing.
    pub fn null() -> (c: GPUDeviceContext)
        ensures
            c.spec_is_null(),
    {
        GPUDeviceContext {
            render_pass: Handle::null(),
            descriptor_set_layout: Handle::null(),
            pipeline_layout: Handle::null(),
            pipeline: Handle::null(),
            uniform_buffers: Vec::new(),
            framebuffers: Vec::new(),
            command_pool: Handle::null(),
            descriptor_pool: Handle::null(),
            descriptor_sets: Vec::new(),
            command_buffers: Vec::new(),
            command_buffer_queues: Vec::new(),
        }
    }

    /// Whether the context holds nothing.
    #[verifier::when_used_as_spec(spec_is_null)]
    pub fn is_null(&self) -> (b: bool)
        ensures
            b == self.spec_is_null(),
    {
        self.render_pass.is_null() && self.descriptor_set_layout.is_null() && self.pipeline_layout.is_null()
            && self.pipeline.is_null() && self.uniform_buffers.len() == 0 && self.framebuffers.len() == 0
            && self.command_pool.is_null() && self.descriptor_pool.is_null() && self.descriptor_sets.len() == 0
            && self.command_buffers.len() == 0 && self.command_buffer_queues.len() == 0
    }

    /// The command buffers that were handed over for image `i`.
    pub open spec fn pending(&self, i: int) -> Seq<Handle> {
        self.command_buffer_queues@[i]@
    }

    /// All but the queues of handed-over command buffers is the same in
    /// both.
    pub open spec fn same_objects(&self, other: &GPUDeviceContext) -> bool {
        &&& self.render_pass == other.render_pass
        &&& self.descriptor_set_layout == other.descriptor_set_layout
        &&& self.pipeline_layout == other.pipeline_layout
        &&& self.pipeline == other.pipeline
        &&& self.uniform_buffers == other.uniform_buffers
        &&& self.framebuffers == other.framebuffers
        &&& self.command_pool == other.command_pool
        &&& self.descriptor_pool == other.descriptor_pool
        &&& self.descriptor_sets == other.descriptor_sets
        &&& self.command_buffers == other.command_buffers
    }

    /// Whether `self` is `pre` with the queue of image `index` replaced by
    /// `queue`.
    pub open spec fn requeued_from(&self, pre: &GPUDeviceContext, index: int, queue: Seq<Handle>) -> bool {
        &&& self.same_objects(pre)
        &&& self.command_buffer_queues@.len() == pre.command_buffer_queues@.len()
        &&& self.pending(index) == queue
        &&& forall|i: int|
            0 <= i < pre.command_buffer_queues@.len() && i != index ==> #[trigger] self.command_buffer_queues@[i]
                == pre.command_buffer_queues@[i]
    }

    /// Puts command buffers behind those handed over for image `index`.
    pub fn push_command_buffers(&mut self, index: usize, command_buffers: &Vec<Handle>)
        requires
            index < old(self).command_buffer_queues@.len(),
        ensures
            final(self).requeued_from(old(self), index as int, old(self).pending(index as int) + command_buffers@),
    {
        let mut k: usize = 0;
        while k < command_buffers.len()
            invariant
                k <= command_buffers.len(),
                index < old(self).command_buffer_queues@.len(),
                self.requeued_from(
                    old(self),
                    index as int,
                    old(self).pending(index as int) + command_buffers@.subrange(0, k as int),
                ),
            decreases command_buffers.len() - k,
        {
            let ghost before = *self;
            self.command_buffer_queues[index].push(command_buffers[k]);
            k = k + 1;
            proof {
                assert(self.pending(index as int) =~= old(self).pending(index as int) + command_buffers@.subrange(
                    0,
                    k as int,
                )) by {
                    assert(self.pending(index as int) == before.pending(index as int).push(command_buffers@[k - 1]));
                }
                assert forall|i: int|
                    0 <= i < old(self).command_buffer_queues@.len() && i != index
                        implies #[trigger] self.command_buffer_queues@[i] == old(self).command_buffer_queues@[i] by {
                    assert(before.command_buffer_queues@[i] == old(self).command_buffer_queues@[i]);
                }
            }
        }
        assert(command_buffers@.subrange(0, k as int) =~= command_buffers@);
    }

    /// Whether the context holds exactly `resources`, with an empty queue
    /// for each of `image_count` images.
    pub open spec fn holds(&self, resources: &ContextResources, image_count: nat) -> bool {
        &&& self.render_pass == resources.render_pass
        &&& self.descriptor_set_layout == resources.descriptor_set_layout
        &&& self.pipeline_layout == resources.pipeline_layout
        &&& self.pipeline == resources.pipeline
        &&& self.uniform_buffers == resources.uniform_buffers
        &&& self.framebuffers == resources.framebuffers
        &&& self.command_pool == resources.command_pool
        &&& self.descriptor_pool == resources.descriptor_pool
        &&& self.descriptor_sets == resources.descriptor_sets
        &&& self.command_buffers == resources.command_buffers
        &&& self.command_buffer_queues@.len() == image_count
        &&& forall|i: int| 0 <= i < image_count ==> (#[trigger] self.pending(i)).len() == 0
    }

    /// Builds the context anew for the swapchain of `device`, from what was
    /// created for it. Fails, and changes nothing, where the images of the
    /// swapchain lack a framebuffer or a command buffer.
    pub fn recreate(&mut self, device: &VulkanDevice, resources: ContextResources) -> (r: Result<(), DeviceError>)
        ensures
            r is Ok <==> resources.framebuffers@.len() == device.image_count() && resources.command_buffers@.len()
                == device.image_count(),
            r is Ok ==> final(self).holds(&resources, device.image_count()),
            r is Err ==> r->Err_0 == DeviceError::ResourceCount,
            r is Err ==> *final(self) == *old(self),
    {
        let n: usize = device.data.swapchain.views.len();
        if resources.framebuffers.len() != n || resources.command_buffers.len() != n {
            return Err(DeviceError::ResourceCount);
        }
        self.render_pass = resources.render_pass;
        self.descriptor_set_layout = resources.descriptor_set_layout;
        self.pipeline_layout = resources.pipeline_layout;
        self.pipeline = resources.pipeline;
        self.uniform_buffers = resources.uniform_buffers;
        self.framebuffers = resources.framebuffers;
        self.command_pool = resources.command_pool;
        self.descriptor_pool = resources.descriptor_pool;
        self.descriptor_sets = resources.descriptor_sets;
        self.command_buffers = resources.command_buffers;
        let mut queues: Vec<Vec<Handle>> = Vec::new();
        let mut i: usize = 0;
        while i < n
            invariant
                i <= n,
                queues@.len() == i,
                forall|k: int| 0 <= k < i ==> (#[trigger] queues@[k])@.len() == 0,
            decreases n - i,
        {
            queues.push(Vec::new());
            i = i + 1;
        }
        self.command_buffer_queues = queues;
        Ok(())
    }

    /// The commands that `destroy` returns: the device is waited for; then
    /// the command buffers are freed and their pool destroyed, the
    /// descriptor sets freed and their pool destroyed; then the
    /// framebuffers, the pipeline, its layout, the descriptor set layout,
    /// the render pass and the uniform buffers are destroyed. What is null
    /// is passed over.
    pub open spec fn destroy_plan(&self) -> Seq<DeviceCommand> {
        seq![DeviceCommand::DeviceWaitIdle] + free_command_buffers(self.command_pool, self.command_buffers@)
            + destroy_if_set(ObjectKind::CommandPool, self.command_pool) + free_descriptor_sets(
            self.descriptor_pool,
            self.descriptor_sets@,
        ) + destroy_if_set(ObjectKind::DescriptorPool, self.descriptor_pool) + destroy_all(
            ObjectKind::Framebuffer,
            self.framebuffers@,
        ) + destroy_if_set(ObjectKind::Pipeline, self.pipeline) + destroy_if_set(
            ObjectKind::PipelineLayout,
            self.pipeline_layout,
        ) + destroy_if_set(ObjectKind::DescriptorSetLayout, self.descriptor_set_layout) + destroy_if_set(
            ObjectKind::RenderPass,
            self.render_pass,
        ) + destroy_buffers(self.uniform_buffers@)
    }

    /// Takes down all that the context holds and forgets it. Nothing is
    /// destroyed before the device is idle.
    pub fn destroy(&mut self) -> (plan: Vec<DeviceCommand>)
        ensures
            plan@ == old(self).destroy_plan(),
            final(self).spec_is_null(),
    {
        let mut plan: Vec<DeviceCommand> = Vec::new();
        plan.push(DeviceCommand::DeviceWaitIdle);
        push_free_command_buffers(&mut plan, self.command_pool, &self.command_buffers);
        push_destroy_if_set(&mut plan, ObjectKind::CommandPool, self.command_pool);
        push_free_descriptor_sets(&mut plan, self.descriptor_pool, &self.descriptor_sets);
        push_destroy_if_set(&mut plan, ObjectKind::DescriptorPool, self.descriptor_pool);
        push_destroy_all(&mut plan, ObjectKind::Framebuffer, &self.framebuffers);
        push_destroy_if_set(&mut plan, ObjectKind::Pipeline, self.pipeline);
        push_destroy_if_set(&mut plan, ObjectKind::PipelineLayout, self.pipeline_layout);
        push_destroy_if_set(&mut plan, ObjectKind::DescriptorSetLayout, self.descriptor_set_layout);
        push_destroy_if_set(&mut plan, ObjectKind::RenderPass, self.render_pass);
        push_destroy_buffers(&mut plan, &self.uniform_buffers);
        assert(plan@ =~= old(self).destroy_plan());
        self.command_buffer_queues = Vec::new();
        self.command_buffers = Vec::new();
        self.command_pool = Handle::null();
        self.descriptor_sets = Vec::new();
        self.descriptor_pool = Handle::null();
        self.framebuffers = Vec::new();
        self.pipeline = Handle::null();
        self.pipeline_layout = Handle::null();
        self.descriptor_set_layout = Handle::null();
        self.render_pass = Handle::null();
        self.uniform_buffers = Vec::new();
        plan
    }

    /// Takes the context down and builds it anew for the swapchain of
    /// `device`. Where it cannot be built, it holds nothing afterwards.
    pub fn reset(&mut self, device: &VulkanDevice, resources: ContextResources) -> (r: (
        Vec<DeviceCommand>,
        Result<(), DeviceError>,
    ))
        ensures
            r.0@ == old(self).destroy_plan(),
            r.1 is Ok <==> resources.framebuffers@.len() == device.image_count() && resources.command_buffers@.len()
                == device.image_count(),
            r.1 is Ok ==> final(self).holds(&resources, device.image_count()),
            r.1 is Err ==> r.1->Err_0 == DeviceError::ResourceCount && final(self).spec_is_null(),
    {
        let plan = self.destroy();
        let rebuilt = self.recreate(device, resources);
        (plan, rebuilt)
    }
}

impl Default for GPUDeviceContext {
    fn default() -> (c: GPUDeviceContext)
        ensures
            c.spec_is_null(),
    {
        GPUDeviceContext::null()
    }
}

/// Destroying a context that holds nothing only waits for the device.
pub proof fn lemma_context_destroy_is_idempotent(context: GPUDeviceContext)
    requires
        context.spec_is_null(),
    ensures
        context.destroy_plan() == seq![DeviceCommand::DeviceWaitIdle],
{
    assert(context.destroy_plan() =~= seq![DeviceCommand::DeviceWaitIdle]);
}

/// What the encoders share.
#[derive(Clone, Debug)]
pub struct GPUDeviceData {
    pub context: GPUDeviceContext,
    /// How far the recording for the bound image has come.
    pub encoder: EncoderState,
}

/// The limits of a device.
#[derive(Clone, Copy, Debug, PartialEq, Eq, Structural)]
pub struct GPUSupportedLimits {
    pub max_texture_dimension_1d: u32,
    pub max_texture_dimension_2d: u32,
    pub max_texture_dimension_3d: u32,
    pub max_texture_array_layers: u32,
    pub max_bind_groups: u32,
    pub max_bind_groups_plus_vertex_buffers: u32,
    pub max_bindings_per_bind_group: u32,
    pub max_dynamic_uniform_buffers_per_pipeline_layout: u32,
    pub max_dynamic_storage_buffers_per_pipeline_layout: u32,
    pub max_sampled_textures_per_shader_stage: u32,
    pub max_samplers_per_shader_stage: u32,
    pub max_storage_buffers_per_shader_stage: u32,
    pub max_storage_textures_per_shader_stage: u32,
    pub max_uniform_buffers_per_shader_stage: u32,
    pub max_uniform_buffer_binding_size: u32,
    pub max_storage_buffer_binding_size: u32,
    pub min_uniform_buffer_offset_alignment: u32,
    pub min_storage_buffer_offset_alignment: u32,
    pub max_vertex_buffers: u32,
    pub max_buffer_size: u32,
    pub max_vertex_attributes: u32,
    pub max_vertex_buffer_array_stride: u32,
    pub max_inter_stage_shader_components: u32,
    pub max_inter_stage_shader_variables: u32,
    pub max_color_attachments: u32,
    pub max_color_attachment_bytes_per_sample: u32,
    pub max_compute_workgroup_storage_size: u32,
    pub max_compute_invocations_per_workgroup: u32,
    pub max_compute_workgroup_size_x: u32,
    pub max_compute_workgroup_size_y: u32,
    pub max_compute_workgroup_size_z: u32,
    pub max_compute_workgroups_per_dimension: u32,
}

/// The limits of a device of which nothing is known: all are zero.
pub open spec fn no_limits() -> GPUSupportedLimits {
    GPUSupportedLimits {
        max_texture_dimension_1d: 0,
        max_texture_dimension_2d: 0,
        max_texture_dimension_3d: 0,
        max_texture_array_layers: 0,
        max_bind_groups: 0,
        max_bind_groups_plus_vertex_buffers: 0,
        max_bindings_per_bind_group: 0,
        max_dynamic_uniform_buffers_per_pipeline_layout: 0,
        max_dynamic_storage_buffers_per_pipeline_layout: 0,
        max_sampled_textures_per_shader_stage: 0,
        max_samplers_per_shader_stage: 0,
        max_storage_buffers_per_shader_stage: 0,
        max_storage_textures_per_shader_stage: 0,
        max_uniform_buffers_per_shader_stage: 0,
        max_uniform_buffer_binding_size: 0,
        max_storage_buffer_binding_size: 0,
        min_uniform_buffer_offset_alignment: 0,
        min_storage_buffer_offset_alignment: 0,
        max_vertex_buffers: 0,
        max_buffer_size: 0,
        max_vertex_attributes: 0,
        max_vertex_buffer_array_stride: 0,
        max_inter_stage_shader_components: 0,
        max_inter_stage_shader_variables: 0,
        max_color_attachments: 0,
        max_color_attachment_bytes_per_sample: 0,
        max_compute_workgroup_storage_size: 0,
        max_compute_invocations_per_workgroup: 0,
        max_compute_workgroup_size_x: 0,
        max_compute_workgroup_size_y: 0,
        max_compute_workgroup_size_z: 0,
        max_compute_workgroups_per_dimension: 0,
    }
}

impl Default for GPUSupportedLimits {
    fn default() -> (l: GPUSupportedLimits)
        ensures
            l == no_limits(),
    {
        GPUSupportedLimits {
        max_texture_dimension_1d: 0,
        max_texture_dimension_2d: 0,
        max_texture_dimension_3d: 0,
        max_texture_array_layers: 0,
        max_bind_groups: 0,
        max_bind_groups_plus_vertex_buffers: 0,
        max_bindings_per_bind_group: 0,
        max_dynamic_uniform_buffers_per_pipeline_layout: 0,
        max_dynamic_storage_buffers_per_pipeline_layout: 0,
        max_sampled_textures_per_shader_stage: 0,
        max_samplers_per_shader_stage: 0,
        max_storage_buffers_per_shader_stage: 0,
        max_storage_textures_per_shader_stage: 0,
        max_uniform_buffers_per_shader_stage: 0,
        max_uniform_buffer_binding_size: 0,
        max_storage_buffer_binding_size: 0,
        min_uniform_buffer_offset_alignment: 0,
        min_storage_buffer_offset_alignment: 0,
        max_vertex_buffers: 0,
        max_buffer_size: 0,
        max_vertex_attributes: 0,
        max_vertex_buffer_array_stride: 0,
        max_inter_stage_shader_components: 0,
        max_inter_stage_shader_variables: 0,
        max_color_attachments: 0,
        max_color_attachment_bytes_per_sample: 0,
        max_compute_workgroup_storage_size: 0,
        max_compute_invocations_per_workgroup: 0,
        max_compute_workgroup_size_x: 0,
        max_compute_workgroup_size_y: 0,
        max_compute_workgroup_size_z: 0,
        max_compute_workgroups_per_dimension: 0,
        }
    }
}

/// The device of the encoder interface.
#[derive(Clone, Debug)]
pub struct GPUDevice {
    pub data: GPUDeviceData,
    /// The device that the frame loop runs on.
    pub handle: VulkanDevice,
    pub limits: GPUSupportedLimits,
}

/// The queue that finished command buffers are handed to.
#[derive(Clone, Copy, Debug, PartialEq, Eq, Structural)]
pub struct GPUQueue {}

/// The encoder of a command buffer.
#[derive(Clone, Copy, Debug, PartialEq, Eq, Structural)]
pub struct GPUCommandEncoder {}

/// The encoder of a render pass.
#[derive(Clone, Copy, Debug, PartialEq, Eq, Structural)]
pub struct GPURenderPassEncoder {}

impl GPUDevice {
    /// The state is one that the device can be in.
    pub open spec fn wf(&self) -> bool {
        self.handle.wf()
    }

    /// The command buffers that were handed over for the bound image; none
    /// where the context has no queue for it.
    pub open spec fn handed_over(&self) -> Seq<Handle> {
        if self.handle.swap_index < self.data.context.command_buffer_queues@.len() {
            self.data.context.pending(self.handle.swap_index as int)
        } else {
            Seq::empty()
        }
    }

    /// The command buffer that the encoders record into: that of the bound
    /// image.
    pub open spec fn encoder_buffer(&self) -> Handle {
        self.data.context.command_buffers@[self.handle.swap_index as int]
    }

    /// Whether passes can be recorded: the frame loop records, and the
    /// context has a command buffer and a framebuffer for the bound image.
    pub open spec fn can_record(&self) -> bool {
        &&& self.handle.phase == FramePhase::Recording
        &&& self.handle.swap_index < self.data.context.command_buffers@.len()
        &&& self.handle.swap_index < self.data.context.framebuffers@.len()
    }

    /// What refuses a recording call, if anything: the frame loop where it
    /// does not record, else the context where it lacks the image.
    pub open spec fn recording_refusal(&self) -> Option<EncoderError> {
        if self.handle.phase != FramePhase::Recording {
            Some(EncoderError::Device(DeviceError::WrongPhase { phase: self.handle.phase }))
        } else if !self.can_record() {
            Some(EncoderError::NoImageResources)
        } else {
            None
        }
    }

    /// What refuses a call that records into a pass, if anything.
    pub open spec fn pass_refusal(&self) -> Option<EncoderError> {
        if self.recording_refusal() is Some {
            self.recording_refusal()
        } else if self.data.encoder != EncoderState::PassOpen {
            Some(EncoderError::NoOpenPass)
        } else {
            None
        }
    }

    fn check_recording(&self) -> (r: Result<Handle, EncoderError>)
        ensures
            r is Ok <==> self.recording_refusal() is None,
            r is Ok ==> r->Ok_0 == self.encoder_buffer(),
            r is Err ==> self.recording_refusal() == Some(r->Err_0),
    {
        if self.handle.phase != FramePhase::Recording {
            return Err(EncoderError::Device(DeviceError::WrongPhase { phase: self.handle.phase }));
        }
        if self.handle.swap_index >= self.data.context.command_buffers.len() || self.handle.swap_index
            >= self.data.context.framebuffers.len() {
            return Err(EncoderError::NoImageResources);
        }
        Ok(self.data.context.command_buffers[self.handle.swap_index])
    }

    fn check_pass(&self) -> (r: Result<Handle, EncoderError>)
        ensures
            r is Ok <==> self.pass_refusal() is None,
            r is Ok ==> r->Ok_0 == self.encoder_buffer(),
            r is Err ==> self.pass_refusal() == Some(r->Err_0),
    {
        let command_buffer = match self.check_recording() {
            Ok(b) => b,
            Err(e) => {
                return Err(e);
            },
        };
        if self.data.encoder != EncoderState::PassOpen {
            return Err(EncoderError::NoOpenPass);
        }
        Ok(command_buffer)
    }

    /// Whether the swapchain still fits the window.
    pub fn is_valid(&self) -> (valid: bool)
        ensures
            valid == !self.handle.resized,
    {
        self.handle.is_valid()
    }

    /// The device of the encoder interface on top of a device of the frame
    /// loop. Its context holds nothing yet.
    pub fn create(handle: VulkanDevice) -> (d: GPUDevice)
        ensures
            d.handle == handle,
            d.data.context.spec_is_null(),
            d.data.encoder == EncoderState::Idle,
            d.limits == no_limits(),
    {
        GPUDevice {
            data: GPUDeviceData { context: GPUDeviceContext::null(), encoder: EncoderState::Idle },
            handle,
            limits: GPUSupportedLimits::default(),
        }
    }

    /// Begins a frame, as the frame loop does.
    pub fn begin_frame(&mut self) -> (r: Result<Vec<DeviceCommand>, DeviceError>)
        requires
            old(self).wf(),
        ensures
            final(self).wf(),
            final(self).data == old(self).data,
            final(self).limits == old(self).limits,
            r is Ok <==> old(self).handle.phase == FramePhase::Idle,
            r is Ok ==> r->Ok_0@ == old(self).handle.begin_frame_plan(),
            r is Ok ==> crate::laws::transition(
                old(self).handle,
                crate::laws::FrameEvent::BeginFrame,
                final(self).handle,
                r->Ok_0@,
            ),
            r is Err ==> r->Err_0 == (DeviceError::WrongPhase { phase: old(self).handle.phase }),
            r is Err ==> final(self).handle == old(self).handle,
    {
        self.handle.begin_frame()
    }

    /// Takes what came of asking for the next image, as the frame loop
    /// does, and lets the encoders start afresh.
    pub fn image_acquired(&mut self, result: AcquireResult) -> (r: Result<Vec<DeviceCommand>, DeviceError>)
        requires
            old(self).wf(),
        ensures
            final(self).wf(),
            final(self).data.context == old(self).data.context,
            final(self).limits == old(self).limits,
            r is Ok ==> final(self).data.encoder == EncoderState::Idle,
            r is Ok ==> crate::laws::transition(
                old(self).handle,
                crate::laws::FrameEvent::ImageAcquired { result },
                final(self).handle,
                r->Ok_0@,
            ),
            r is Ok <==> old(self).handle.phase == FramePhase::Acquiring && (match result {
                AcquireResult::Acquired { image_index } => image_index < old(self).handle.image_count(),
                AcquireResult::OutOfDate => true,
                AcquireResult::Failed { .. } => false,
            }),
            r is Err ==> final(self).handle == old(self).handle && final(self).data == old(self).data,
    {
        let r = self.handle.image_acquired(result);
        if r.is_ok() {
            self.data.encoder = EncoderState::Idle;
        }
        r
    }

    /// Ends the frame: the command buffers that were handed over for the
    /// bound image go behind those that wait already, and all of them are
    /// submitted, as the frame loop does; none is left waiting. Where there
    /// is none at all, the frame loop records and submits its pass that
    /// only clears.
    pub fn end_frame(&mut self) -> (r: Result<Vec<DeviceCommand>, DeviceError>)
        requires
            old(self).wf(),
        ensures
            final(self).wf(),
            final(self).limits == old(self).limits,
            r is Ok <==> old(self).handle.phase == FramePhase::Recording,
            r is Ok ==> r->Ok_0@ == old(self).handle.end_frame_plan_of(
                old(self).handle.pending(old(self).handle.swap_index as int) + old(self).handed_over(),
            ),
            r is Ok ==> final(self).handle.flushed_from(&old(self).handle, FramePhase::Submitting),
            r is Ok ==> final(self).data.encoder == EncoderState::Idle,
            r is Ok && old(self).handle.swap_index < old(self).data.context.command_buffer_queues@.len() ==> final(self).data.context.requeued_from(
                &old(self).data.context,
                old(self).handle.swap_index as int,
                Seq::empty(),
            ),
            r is Ok && old(self).handle.swap_index >= old(self).data.context.command_buffer_queues@.len() ==> final(self).data.context == old(self).data.context,
            r is Err ==> r->Err_0 == (DeviceError::WrongPhase { phase: old(self).handle.phase }),
            r is Err ==> *final(self) == *old(self),
    {
        if self.handle.phase != FramePhase::Recording {
            return Err(DeviceError::WrongPhase { phase: self.handle.phase });
        }
        let index: usize = self.handle.swap_index;
        if index < self.data.context.command_buffer_queues.len() {
            match self.handle.submit_command_buffers(&self.data.context.command_buffer_queues[index]) {
                Ok(_) => {},
                Err(e) => {
                    return Err(e);
                },
            }
        } else {
            assert(old(self).handle.pending(index as int) + old(self).handed_over() =~= old(self).handle.pending(
                index as int,
            ));
        }
        let ghost queued = self.handle;
        let plan = match self.handle.end_frame() {
            Ok(plan) => plan,
            Err(e) => {
                return Err(e);
            },
        };
        let ghost context = self.data.context;
        if index < self.data.context.command_buffer_queues.len() {
            self.data.context.command_buffer_queues[index].clear();
            proof {
                assert(self.data.context.pending(index as int) =~= Seq::<Handle>::empty());
                assert forall|i: int|
                    0 <= i < context.command_buffer_queues@.len() && i != index
                        implies #[trigger] self.data.context.command_buffer_queues@[i]
                    == context.command_buffer_queues@[i] by {}
            }
        }
        self.data.encoder = EncoderState::Idle;
        proof {
            assert(queued.slot_fence() == old(self).handle.slot_fence());
            assert(queued.frame_buffer() == old(self).handle.frame_buffer());
            assert(plan@ == queued.end_frame_plan());
            assert(queued.pending(index as int) == old(self).handle.pending(index as int) + old(self).handed_over());
        }
        Ok(plan)
    }

    /// Takes note that the frame's work has been submitted, as the frame
    /// loop does.
    pub fn frame_submitted(&mut self) -> (r: Result<DeviceCommand, DeviceError>)
        requires
            old(self).wf(),
        ensures
            final(self).wf(),
            final(self).data == old(self).data,
            final(self).limits == old(self).limits,
            r is Ok <==> old(self).handle.phase == FramePhase::Submitting,
            r is Ok ==> r->Ok_0 == old(self).handle.present_plan(),
            r is Ok ==> final(self).handle == (VulkanDevice { phase: FramePhase::Presenting, ..old(self).handle }),
            r is Err ==> final(self).handle == old(self).handle,
    {
        self.handle.frame_submitted()
    }

    /// Takes what came of presenting the image, as the frame loop does.
    pub fn frame_presented(&mut self, result: PresentResult) -> (r: Result<Vec<DeviceCommand>, DeviceError>)
        requires
            old(self).wf(),
        ensures
            final(self).wf(),
            final(self).data == old(self).data,
            final(self).limits == old(self).limits,
            r is Ok <==> old(self).handle.phase == FramePhase::Presenting && !(result is Failed),
            r is Ok ==> crate::laws::transition(
                old(self).handle,
                crate::laws::FrameEvent::FramePresented { status: result },
                final(self).handle,
                r->Ok_0@,
            ),
            r is Err ==> final(self).handle == old(self).handle,
    {
        self.handle.frame_presented(result)
    }

    /// Gives up the swapchain between frames where the window's size has
    /// changed, as the frame loop does, and takes the context down with
    /// it: the commands of the frame loop come first, then those of the
    /// context. Where the size has not changed, the context is taken down
    /// all the same.
    pub fn reset(&mut self) -> (r: Result<Vec<DeviceCommand>, DeviceError>)
        requires
            old(self).wf(),
        ensures
            final(self).wf(),
            final(self).limits == old(self).limits,
            r is Ok <==> old(self).handle.phase == FramePhase::Idle,
            r is Ok ==> r->Ok_0@ == (if old(self).handle.resized {
                old(self).handle.invalidation_plan()
            } else {
                Seq::empty()
            }) + old(self).data.context.destroy_plan(),
            r is Ok ==> final(self).data.context.spec_is_null(),
            r is Ok ==> final(self).data.encoder == EncoderState::Idle,
            r is Ok ==> crate::laws::transition(
                old(self).handle,
                crate::laws::FrameEvent::Reset,
                final(self).handle,
                if old(self).handle.resized {
                    old(self).handle.invalidation_plan()
                } else {
                    Seq::empty()
                },
            ),
            r is Err ==> r->Err_0 == (DeviceError::WrongPhase { phase: old(self).handle.phase }),
            r is Err ==> *final(self) == *old(self),
    {
        let mut plan = match self.handle.reset() {
            Ok(plan) => plan,
            Err(e) => {
                return Err(e);
            },
        };
        proof {
            if !old(self).handle.resized {
                assert(plan@ =~= Seq::<DeviceCommand>::empty());
            }
        }
        let context_plan = self.data.context.destroy();
        push_all(&mut plan, &context_plan);
        self.data.encoder = EncoderState::Idle;
        Ok(plan)
    }

    /// Shuts the device down: the context is taken down first, then the
    /// device of the frame loop.
    pub fn destroy(&mut self) -> (plan: Vec<DeviceCommand>)
        ensures
            plan@ == old(self).data.context.destroy_plan() + old(self).handle.destroy_plan(),
            final(self).data.context.spec_is_null(),
            final(self).data.encoder == old(self).data.encoder,
            final(self).limits == old(self).limits,
            final(self).handle.invalidated_from(&old(self).handle),
            final(self).handle.frame_index == old(self).handle.frame_index,
            final(self).handle.resized == old(self).handle.resized,
    {
        let mut plan = self.data.context.destroy();
        let device_plan = self.handle.destroy();
        push_all(&mut plan, &device_plan);
        plan
    }

    /// Marks the swapchain as no longer fitting the window, or as fitting
    /// it again.
    pub fn resized(&mut self, value: bool)
        ensures
            final(self).handle == (VulkanDevice { resized: value, ..old(self).handle }),
            final(self).data == old(self).data,
            final(self).limits == old(self).limits,
    {
        self.handle.resized = value;
    }

    /// The extent of the swapchain's images, one layer deep.
    pub fn get_current_extent(&self) -> (e: GPUExtent3D)
        ensures
            e == (GPUExtent3D {
                width: self.handle.data.swapchain.extent.width,
                height: Some(self.handle.data.swapchain.extent.height),
                depth_or_array_layers: Some(1u32),
            }),
    {
        let extent: Extent2D = self.handle.get_current_extent();
        GPUExtent3D { width: extent.width, height: Some(extent.height), depth_or_array_layers: Some(1) }
    }

    /// The texture format of the swapchain's images, or nothing where the
    /// device's format is none that textures have.
    pub fn get_presentation_format(&self) -> (f: Option<GPUTextureFormat>)
        ensures
            f is Some <==> crate::format::is_texture_format_code(self.handle.data.swapchain.format),
            f is Some ==> f->Some_0.vk_code() == self.handle.data.swapchain.format,
    {
        texture_format_of_code(self.handle.get_current_format())
    }

    /// The view of the colour target.
    pub fn get_back_albedo_view(&self) -> GPUTextureView {
        GPUTextureView {  }
    }

    /// The view of the depth target.
    pub fn get_back_depth_view(&self) -> GPUTextureView {
        GPUTextureView {  }
    }

    /// The description of a texture that was loaded. Nothing is loaded
    /// here: the description is that of an empty two-dimensional texture.
    pub fn load_texture(&self) -> (t: GPUTexture)
        ensures
            t == unloaded_texture(),
    {
        GPUTexture {
            width: 0,
            height: 0,
            depth_or_array_layers: 0,
            mip_level_count: 0,
            sample_count: 0,
            dimension: GPUTextureDimension::TwoD,
            format: GPUTextureFormat::Rgba8Unorm,
            usage: GPUTextureUsageFlags { bits: GPUTextureUsageFlags::RENDER_ATTACHMENT },
        }
    }

    /// How a buffer of `count` elements of `element_size` bytes each is
    /// made for one use.
    ///
    /// An index buffer and a vertex buffer are local to the device and are
    /// filled through a staging buffer. A uniform buffer can be mapped by
    /// the host and is written directly; the device is given it as an index
    /// buffer. Any other usage is refused, and so is a size in bytes that
    /// has no 64-bit number.
    pub fn create_typed_buffer(usage: GPUBufferUsageFlags, element_size: usize, count: usize) -> (r: Result<
        TypedBufferInfo,
        EncoderError,
    >)
        ensures
            r is Ok <==> (usage.bits == GPUBufferUsageFlags::INDEX || usage.bits == GPUBufferUsageFlags::VERTEX
                || usage.bits == GPUBufferUsageFlags::UNIFORM) && element_size * count <= u64::MAX,
            r is Err ==> r->Err_0 == (if usage.bits == GPUBufferUsageFlags::INDEX || usage.bits
                == GPUBufferUsageFlags::VERTEX || usage.bits == GPUBufferUsageFlags::UNIFORM {
                EncoderError::SizeOverflow
            } else {
                EncoderError::UnsupportedUsage
            }),
            r is Ok ==> r->Ok_0.buffer.size == element_size * count && r->Ok_0.buffer.sharing_mode
                == SHARING_MODE_EXCLUSIVE,
            r is Ok && usage.bits == GPUBufferUsageFlags::INDEX ==> r->Ok_0.staged && r->Ok_0.buffer.usage
                == VK_BUFFER_USAGE_TRANSFER_DST | VK_BUFFER_USAGE_INDEX_BUFFER && r->Ok_0.buffer.memory_properties
                == MEMORY_PROPERTY_DEVICE_LOCAL,
            r is Ok && usage.bits == GPUBufferUsageFlags::VERTEX ==> r->Ok_0.staged && r->Ok_0.buffer.usage
                == VK_BUFFER_USAGE_TRANSFER_DST | VK_BUFFER_USAGE_VERTEX_BUFFER && r->Ok_0.buffer.memory_properties
                == MEMORY_PROPERTY_DEVICE_LOCAL,
            r is Ok && usage.bits == GPUBufferUsageFlags::UNIFORM ==> !r->Ok_0.staged && r->Ok_0.buffer.usage
                == VK_BUFFER_USAGE_INDEX_BUFFER && r->Ok_0.buffer.memory_properties == MEMORY_PROPERTY_HOST_COHERENT
                | MEMORY_PROPERTY_HOST_VISIBLE,
    {
        let (staged, vk_usage, properties): (bool, u32, u32) = if usage.bits == GPUBufferUsageFlags::INDEX {
            (true, VK_BUFFER_USAGE_TRANSFER_DST | VK_BUFFER_USAGE_INDEX_BUFFER, MEMORY_PROPERTY_DEVICE_LOCAL)
        } else if usage.bits == GPUBufferUsageFlags::VERTEX {
            (true, VK_BUFFER_USAGE_TRANSFER_DST | VK_BUFFER_USAGE_VERTEX_BUFFER, MEMORY_PROPERTY_DEVICE_LOCAL)
        } else if usage.bits == GPUBufferUsageFlags::UNIFORM {
            (false, VK_BUFFER_USAGE_INDEX_BUFFER, MEMORY_PROPERTY_HOST_COHERENT | MEMORY_PROPERTY_HOST_VISIBLE)
        } else {
            return Err(EncoderError::UnsupportedUsage);
        };
        match crate::api::VulkanApi::create_buffer(element_size, count, vk_usage, properties) {
            Some(buffer) => Ok(TypedBufferInfo { staged, buffer }),
            None => Err(EncoderError::SizeOverflow),
        }
    }

    /// The buffer that was made for one use from `info`, not mapped.
    pub fn typed_buffer(usage: GPUBufferUsageFlags, info: TypedBufferInfo, buffer: Handle, memory: Handle) -> (b:
        GPUBuffer)
        ensures
            b == (GPUBuffer { size: info.buffer.size, usage, map_state: GPUBufferMapState::Unmapped, buffer, memory }),
    {
        GPUBuffer { size: info.buffer.size, usage, map_state: GPUBufferMapState::Unmapped, buffer, memory }
    }

    pub fn create_sampler(&self) -> GPUSampler {
        GPUSampler {  }
    }

    pub fn create_bind_group_layout(&self) -> GPUBindGroupLayout {
        GPUBindGroupLayout {  }
    }

    pub fn create_pipeline_layout(&self) -> GPUPipelineLayout {
        GPUPipelineLayout {  }
    }

    pub fn create_bind_group(&self) -> GPUBindGroup {
        GPUBindGroup {  }
    }

    pub fn create_shader_module(&self) -> GPUShaderModule {
        GPUShaderModule {  }
    }

    pub fn create_render_pipeline(&self) -> GPURenderPipeline {
        GPURenderPipeline {  }
    }

    pub fn create_queue(&self) -> GPUQueue {
        GPUQueue {  }
    }

    pub fn create_command_encoder(&self) -> GPUCommandEncoder {
        GPUCommandEncoder {  }
    }
}

impl GPUQueue {
    /// Hands finished command buffers over for the bound image: they go
    /// behind those handed over before, and are submitted when the frame
    /// ends. Where the context has no queue for the bound image, nothing
    /// happens.
    pub fn submit(&self, device: &mut GPUDevice, command_buffers: &Vec<GPUCommandBuffer>)
        ensures
            final(device).handle == old(device).handle,
            final(device).limits == old(device).limits,
            final(device).data.encoder == old(device).data.encoder,
            old(device).handle.swap_index >= old(device).data.context.command_buffer_queues@.len() ==> final(device).data.context == old(device).data.context,
            old(device).handle.swap_index < old(device).data.context.command_buffer_queues@.len() ==> final(device).data.context.requeued_from(
                &old(device).data.context,
                old(device).handle.swap_index as int,
                old(device).handed_over() + Seq::new(
                    command_buffers@.len(),
                    |k: int| command_buffers@[k].command_buffer,
                ),
            ),
    {
        let index: usize = device.handle.swap_index;
        if index < device.data.context.command_buffer_queues.len() {
            let mut raw: Vec<Handle> = Vec::new();
            let mut k: usize = 0;
            while k < command_buffers.len()
                invariant
                    k <= command_buffers.len(),
                    raw@ == Seq::new(k as nat, |j: int| command_buffers@[j].command_buffer),
                decreases command_buffers.len() - k,
            {
                raw.push(command_buffers[k].command_buffer);
                k = k + 1;
                assert(raw@ =~= Seq::new(k as nat, |j: int| command_buffers@[j].command_buffer));
            }
            device.data.context.push_command_buffers(index, &raw);
        }
    }
}

impl GPUCommandEncoder {
    /// Opens a render pass in the command buffer of the bound image, on
    /// the image's framebuffer, cleared to black and to the far plane.
    /// Refused where a pass is being recorded already.
    pub fn begin_render_pass(&self, device: &mut GPUDevice) -> (r: Result<Vec<DeviceCommand>, EncoderError>)
        ensures
            final(device).handle == old(device).handle,
            final(device).data.context == old(device).data.context,
            final(device).limits == old(device).limits,
            r is Ok <==> old(device).recording_refusal() is None && old(device).data.encoder == EncoderState::Idle,
            r is Ok ==> final(device).data.encoder == EncoderState::PassOpen,
            r is Ok ==> r->Ok_0@ == open_pass(
                old(device).data.context.render_pass,
                old(device).data.context.framebuffers@[old(device).handle.swap_index as int],
                old(device).handle.data.swapchain.extent,
                old(device).encoder_buffer(),
                Some(ClearColor { r: F32_ZERO, g: F32_ZERO, b: F32_ZERO, a: F32_ONE }),
                Some(F32_ONE),
            ),
            r is Err ==> final(device).data.encoder == old(device).data.encoder,
            r is Err ==> r->Err_0 == (match old(device).recording_refusal() {
                Some(e) => e,
                None => EncoderError::PassOpen,
            }),
    {
        let command_buffer = match device.check_recording() {
            Ok(b) => b,
            Err(e) => {
                return Err(e);
            },
        };
        if device.data.encoder != EncoderState::Idle {
            return Err(EncoderError::PassOpen);
        }
        let opened = device.handle.begin_render_pass(
            device.data.context.render_pass,
            device.data.context.framebuffers[device.handle.swap_index],
            device.handle.data.swapchain.extent,
            command_buffer,
            Some(ClearColor { r: F32_ZERO, g: F32_ZERO, b: F32_ZERO, a: F32_ONE }),
            Some(F32_ONE),
        );
        match opened {
            Ok(plan) => {
                device.data.encoder = EncoderState::PassOpen;
                Ok(plan)
            },
            Err(e) => Err(EncoderError::Device(e)),
        }
    }

    /// Finishes the recording into the command buffer of the bound image
    /// and returns the buffer with the command that ends it. Refused while
    /// a pass is open, and where none was recorded.
    pub fn finish(&self, device: &mut GPUDevice) -> (r: Result<(GPUCommandBuffer, DeviceCommand), EncoderError>)
        ensures
            final(device).handle == old(device).handle,
            final(device).data.context == old(device).data.context,
            final(device).limits == old(device).limits,
            r is Ok <==> old(device).recording_refusal() is None && old(device).data.encoder
                == EncoderState::PassClosed,
            r is Ok ==> final(device).data.encoder == EncoderState::Idle,
            r is Ok ==> r->Ok_0.0.command_buffer == old(device).encoder_buffer(),
            r is Ok ==> r->Ok_0.1 == (DeviceCommand::EndCommandBuffer { command_buffer: old(device).encoder_buffer() }),
            r is Err ==> final(device).data.encoder == old(device).data.encoder,
            r is Err ==> r->Err_0 == (match old(device).recording_refusal() {
                Some(e) => e,
                None => if old(device).data.encoder == EncoderState::PassOpen {
                    EncoderError::PassOpen
                } else {
                    EncoderError::NoOpenPass
                },
            }),
    {
        let command_buffer = match device.check_recording() {
            Ok(b) => b,
            Err(e) => {
                return Err(e);
            },
        };
        match device.data.encoder {
            EncoderState::PassClosed => {
                device.data.encoder = EncoderState::Idle;
                Ok((GPUCommandBuffer { command_buffer }, DeviceCommand::EndCommandBuffer { command_buffer }))
            },
            EncoderState::PassOpen => Err(EncoderError::PassOpen),
            EncoderState::Idle => Err(EncoderError::NoOpenPass),
        }
    }
}

/// The command that records `command` into the command buffer of the
/// bound image.
pub open spec fn recorded(device: &GPUDevice, command: RecordedCommand) -> DeviceCommand {
    DeviceCommand::Record { command_buffer: device.encoder_buffer(), command }
}

impl GPURenderPassEncoder {
    fn record(device: &GPUDevice, command: RecordedCommand) -> (r: Result<DeviceCommand, EncoderError>)
        ensures
            r is Ok <==> device.pass_refusal() is None,
            r is Ok ==> r->Ok_0 == recorded(device, command),
            r is Err ==> device.pass_refusal() == Some(r->Err_0),
    {
        match device.check_pass() {
            Ok(command_buffer) => Ok(DeviceCommand::Record { command_buffer, command }),
            Err(e) => Err(e),
        }
    }

    /// Closes the open pass.
    pub fn end(&self, device: &mut GPUDevice) -> (r: Result<DeviceCommand, EncoderError>)
        ensures
            final(device).handle == old(device).handle,
            final(device).data.context == old(device).data.context,
            final(device).limits == old(device).limits,
            r is Ok <==> old(device).pass_refusal() is None,
            r is Ok ==> r->Ok_0 == recorded(old(device), RecordedCommand::EndRenderPass),
            r is Ok ==> final(device).data.encoder == EncoderState::PassClosed,
            r is Err ==> old(device).pass_refusal() == Some(r->Err_0),
            r is Err ==> final(device).data.encoder == old(device).data.encoder,
    {
        let r = Self::record(device, RecordedCommand::EndRenderPass);
        if r.is_ok() {
            device.data.encoder = EncoderState::PassClosed;
        }
        r
    }

    /// Binds the descriptor set of the bound image as set 0 of the
    /// context's pipeline layout. Refused outside an open pass, and where
    /// the device has no descriptor set for the image.
    pub fn set_bind_group(&self, device: &GPUDevice) -> (r: Result<DeviceCommand, EncoderError>)
        ensures
            r is Ok <==> device.pass_refusal() is None && device.handle.swap_index
                < device.handle.data.descriptor_sets@.len(),
            r is Ok ==> r->Ok_0 == recorded(
                device,
                RecordedCommand::BindDescriptorSet {
                    layout: device.data.context.pipeline_layout,
                    first_set: 0,
                    descriptor_set: device.handle.data.descriptor_sets@[device.handle.swap_index as int],
                },
            ),
            r is Err ==> r->Err_0 == (match device.pass_refusal() {
                Some(e) => e,
                None => EncoderError::NoImageResources,
            }),
    {
        match device.check_pass() {
            Ok(_) => {},
            Err(e) => {
                return Err(e);
            },
        }
        if device.handle.swap_index >= device.handle.data.descriptor_sets.len() {
            return Err(EncoderError::NoImageResources);
        }
        Self::record(
            device,
            RecordedCommand::BindDescriptorSet {
                layout: device.data.context.pipeline_layout,
                first_set: 0,
                descriptor_set: device.handle.data.descriptor_sets[device.handle.swap_index],
            },
        )
    }

    /// Binds the context's pipeline. Refused outside an open pass.
    pub fn set_pipeline(&self, device: &GPUDevice) -> (r: Result<DeviceCommand, EncoderError>)
        ensures
            r is Ok <==> device.pass_refusal() is None,
            r is Ok ==> r->Ok_0 == recorded(
                device,
                RecordedCommand::BindPipeline { pipeline: device.data.context.pipeline },
            ),
            r is Err ==> device.pass_refusal() == Some(r->Err_0),
    {
        Self::record(device, RecordedCommand::BindPipeline { pipeline: device.data.context.pipeline })
    }

    /// Binds an index buffer, from `offset` or else from its start.
    /// Refused outside an open pass.
    pub fn set_index_buffer(&self, device: &GPUDevice, buffer: &GPUBuffer, format: GPUIndexFormat, offset: Option<u64>) -> (r:
        Result<DeviceCommand, EncoderError>)
        ensures
            r is Ok <==> device.pass_refusal() is None,
            r is Ok ==> r->Ok_0 == recorded(
                device,
                RecordedCommand::BindIndexBuffer {
                    buffer: buffer.buffer,
                    offset: if offset is Some { offset->Some_0 } else { 0 },
                    index_type: match format {
                        GPUIndexFormat::Uint16 => VK_INDEX_TYPE_UINT16,
                        GPUIndexFormat::Uint32 => VK_INDEX_TYPE_UINT32,
                    },
                },
            ),
            r is Err ==> device.pass_refusal() == Some(r->Err_0),
    {
        let start: u64 = match offset {
            Some(o) => o,
            None => 0,
        };
        Self::record(
            device,
            RecordedCommand::BindIndexBuffer {
                buffer: buffer.buffer,
                offset: start,
                index_type: VulkanConverter::convert_gpu_index_format(format),
            },
        )
    }

    /// Binds a vertex buffer to `slot`, from `offset` or else from its
    /// start. Refused outside an open pass.
    pub fn set_vertex_buffer(&self, device: &GPUDevice, slot: u32, buffer: &GPUBuffer, offset: Option<u64>) -> (r:
        Result<DeviceCommand, EncoderError>)
        ensures
            r is Ok <==> device.pass_refusal() is None,
            r is Ok ==> r->Ok_0 == recorded(
                device,
                RecordedCommand::BindVertexBuffer {
                    first_binding: slot,
                    buffer: buffer.buffer,
                    offset: if offset is Some { offset->Some_0 } else { 0 },
                },
            ),
            r is Err ==> device.pass_refusal() == Some(r->Err_0),
    {
        let start: u64 = match offset {
            Some(o) => o,
            None => 0,
        };
        Self::record(
            device,
            RecordedCommand::BindVertexBuffer { first_binding: slot, buffer: buffer.buffer, offset: start },
        )
    }

    /// Draws `vertex_count` vertices: one instance unless told otherwise,
    /// from the first vertex and the first instance unless told otherwise.
    /// Refused outside an open pass.
    pub fn draw(
        &self,
        device: &GPUDevice,
        vertex_count: u32,
        instance_count: Option<u32>,
        first_vertex: Option<u32>,
        first_instance: Option<u32>,
    ) -> (r: Result<DeviceCommand, EncoderError>)
        ensures
            r is Ok <==> device.pass_refusal() is None,
            r is Ok ==> r->Ok_0 == recorded(
                device,
                RecordedCommand::Draw {
                    vertex_count,
                    instance_count: if instance_count is Some { instance_count->Some_0 } else { 1 },
                    first_vertex: if first_vertex is Some { first_vertex->Some_0 } else { 0 },
                    first_instance: if first_instance is Some { first_instance->Some_0 } else { 0 },
                },
            ),
            r is Err ==> device.pass_refusal() == Some(r->Err_0),
    {
        let instances: u32 = match instance_count {
            Some(n) => n,
            None => 1,
        };
        let vertex: u32 = match first_vertex {
            Some(n) => n,
            None => 0,
        };
        let instance: u32 = match first_instance {
            Some(n) => n,
            None => 0,
        };
        Self::record(
            device,
            RecordedCommand::Draw {
                vertex_count,
                instance_count: instances,
                first_vertex: vertex,
                first_instance: instance,
            },
        )
    }

    /// Draws `index_count` indices: one instance unless told otherwise,
    /// from the first index, vertex and instance unless told otherwise.
    /// Refused outside an open pass.
    pub fn draw_indexed(
        &self,
        device: &GPUDevice,
        index_count: u32,
        instance_count: Option<u32>,
        first_index: Option<u32>,
        base_vertex: Option<i32>,
        first_instance: Option<u32>,
    ) -> (r: Result<DeviceCommand, EncoderError>)
        ensures
            r is Ok <==> device.pass_refusal() is None,
            r is Ok ==> r->Ok_0 == recorded(
                device,
                RecordedCommand::DrawIndexed {
                    index_count,
                    instance_count: if instance_count is Some { instance_count->Some_0 } else { 1 },
                    first_index: if first_index is Some { first_index->Some_0 } else { 0 },
                    vertex_offset: if base_vertex is Some { base_vertex->Some_0 } else { 0 },
                    first_instance: if first_instance is Some { first_instance->Some_0 } else { 0 },
                },
            ),
            r is Err ==> device.pass_refusal() == Some(r->Err_0),
    {
        let instances: u32 = match instance_count {
            Some(n) => n,
            None => 1,
        };
        let index: u32 = match first_index {
            Some(n) => n,
            None => 0,
        };
        let vertex: i32 = match base_vertex {
            Some(n) => n,
            None => 0,
        };
        let instance: u32 = match first_instance {
            Some(n) => n,
            None => 0,
        };
        Self::record(
            device,
            RecordedCommand::DrawIndexed {
                index_count,
                instance_count: instances,
                first_index: index,
                vertex_offset: vertex,
                first_instance: instance,
            },
        )
    }

    /// Draws once with the parameters that stand in `indirect_buffer` at
    /// `indirect_offset`. Refused outside an open pass.
    pub fn draw_indirect(&self, device: &GPUDevice, indirect_buffer: GPUBuffer, indirect_offset: u64) -> (r: Result<
        DeviceCommand,
        EncoderError,
    >)
        ensures
            r is Ok <==> device.pass_refusal() is None,
            r is Ok ==> r->Ok_0 == recorded(
                device,
                RecordedCommand::DrawIndirect {
                    buffer: indirect_buffer.buffer,
                    offset: indirect_offset,
                    draw_count: 1,
                    stride: 0,
                },
            ),
            r is Err ==> device.pass_refusal() == Some(r->Err_0),
    {
        Self::record(
            device,
            RecordedCommand::DrawIndirect {
                buffer: indirect_buffer.buffer,
                offset: indirect_offset,
                draw_count: 1,
                stride: 0,
            },
        )
    }

    /// Draws indexed once with the parameters that stand in
    /// `indirect_buffer` at `indirect_offset`. Refused outside an open pass.
    pub fn draw_indexed_indirect(&self, device: &GPUDevice, indirect_buffer: GPUBuffer, indirect_offset: u64) -> (r:
        Result<DeviceCommand, EncoderError>)
        ensures
            r is Ok <==> device.pass_refusal() is None,
            r is Ok ==> r->Ok_0 == recorded(
                device,
                RecordedCommand::DrawIndexedIndirect {
                    buffer: indirect_buffer.buffer,
                    offset: indirect_offset,
                    draw_count: 1,
                    stride: 0,
                },
            ),
            r is Err ==> device.pass_refusal() == Some(r->Err_0),
    {
        Self::record(
            device,
            RecordedCommand::DrawIndexedIndirect {
                buffer: indirect_buffer.buffer,
                offset: indirect_offset,
                draw_count: 1,
                stride: 0,
            },
        )
    }
}

/// What an encoder records in an open pass is, for the frame loop, a
/// command recorded for the bound image; and where each command buffer of
/// the context belongs to the image of its index, the encoder keeps each
/// command buffer to one image.
pub proof fn lemma_encoder_records_for_bound_image(
    device: GPUDevice,
    command: RecordedCommand,
    owner: Map<Handle, int>,
)
    requires
        device.pass_refusal() is None,
        crate::laws::owns(device.data.context.command_buffers@, owner),
    ensures
        crate::laws::transition(
            device.handle,
            crate::laws::FrameEvent::Record { command: recorded(&device, command) },
            device.handle,
            seq![recorded(&device, command)],
        ),
        crate::laws::one_image_per_buffer(
            owner,
            device.handle,
            crate::laws::FrameEvent::Record { command: recorded(&device, command) },
            device.handle,
            owner,
        ),
{
    let i = device.handle.swap_index as int;
    assert(owner.contains_key(device.data.context.command_buffers@[i]));
}

} // verus!
