//! The frame loop of the device: what is waited for, acquired, submitted
//! and presented in each frame, and how the swapchain and all that hangs on
//! it is torn down and replaced.

use vstd::prelude::*;
use crate::api::VulkanApi;
use crate::handle::Handle;
use crate::laws::{transition, FrameEvent};
use crate::command::{ClearColor, DeviceCommand, Extent2D, ObjectKind, RecordedCommand};
use crate::plan::{
    all_distinct, destroy_all, destroy_buffers, destroy_if_set, destroy_target, distinct, free_command_buffers,
    push_all, push_destroy_all, push_destroy_buffers, push_destroy_if_set, push_destroy_target,
    push_free_command_buffers, push_stage_all, stage_all,
};
use crate::swap::Swapchain;
use crate::sync::{next_frame_index, VulkanDeviceSync};
use crate::texture::{Texture, TextureView};

verus! {

/// The bits of the 32-bit float 0.0.
pub const F32_ZERO: u32 = 0x0000_0000;

/// The bits of the 32-bit float 1.0.
pub const F32_ONE: u32 = 0x3F80_0000;

/// The bits of the 32-bit float 0.075.
pub const F32_DARK: u32 = 0x3D99_999A;

/// Where the frame loop stands.
#[derive(Clone, Copy, Debug, PartialEq, Eq, Structural)]
pub enum FramePhase {
    /// Between frames.
    Idle,
    /// A frame has begun; the next image has been asked for.
    Acquiring,
    /// An image is bound to the frame; passes are recorded for it.
    Recording,
    /// The frame's work has been handed to the graphics queue.
    Submitting,
    /// The image has been handed to the present queue.
    Presenting,
    /// The swapchain no longer fits the surface. It has been torn down and
    /// is being replaced: first the swapchain, then its render targets,
    /// then what records.
    Invalidated,
}

/// What came of asking the swapchain for its next image.
#[derive(Clone, Copy, Debug, PartialEq, Eq, Structural)]
pub enum AcquireResult {
    Acquired { image_index: u32 },
    /// The surface has changed so that the swapchain cannot be used.
    OutOfDate,
    /// Any other failure, with the status the device gave.
    Failed { code: i32 },
}

/// What came of presenting an image.
#[derive(Clone, Copy, Debug, PartialEq, Eq, Structural)]
pub enum PresentResult {
    Presented,
    /// Presented, though the swapchain no longer matches the surface well.
    Suboptimal,
    /// The surface has changed so that the swapchain cannot be used.
    OutOfDate,
    /// Any other failure, with the status the device gave.
    Failed { code: i32 },
}

/// Why the frame loop cannot go on.
#[derive(Clone, Copy, Debug, PartialEq, Eq, Structural)]
pub enum DeviceError {
    /// The call does not belong to the phase that the loop is in.
    WrongPhase { phase: FramePhase },
    /// The device failed in the given phase with the given status.
    Native { stage: FramePhase, code: i32 },
    /// The swapchain has no image of the acquired index.
    ImageIndex { image_index: u32 },
    /// What was built on the swapchain does not match its images in number.
    ResourceCount,
    /// One command buffer is given for more than one image.
    SharedCommandBuffer,
    /// What replaces the swapchain is handed over out of order: the
    /// swapchain comes first, then the render targets, then what records.
    RebuildOrder,
}

/// All that is built on one swapchain and is replaced together with it.
#[derive(Clone, Debug)]
pub struct SwapchainResources {
    pub swapchain: Swapchain,
    /// The multisampled colour attachment.
    pub blit_albedo_texture: Texture,
    pub blit_albedo_view: TextureView,
    /// The depth attachment.
    pub blit_depth_texture: Texture,
    pub blit_depth_view: TextureView,
    /// For each image, a uniform buffer and its memory.
    pub uniform_buffers: Vec<(Handle, Handle)>,
    pub render_pass: Handle,
    pub pipeline_layout: Handle,
    pub pipeline: Handle,
    /// For each image, its framebuffer.
    pub framebuffers: Vec<Handle>,
    pub descriptor_pool: Handle,
    pub descriptor_sets: Vec<Handle>,
    /// For each image, its command buffer.
    pub command_buffers: Vec<Handle>,
}

impl SwapchainResources {
    /// The swapchain has an image, and each image has its framebuffer and
    /// its command buffer.
    pub open spec fn counts_agree(&self) -> bool {
        &&& self.swapchain.wf()
        &&& self.framebuffers@.len() == self.swapchain.image_count()
        &&& self.command_buffers@.len() == self.swapchain.image_count()
    }

    /// The counts agree, and no two images share a command buffer.
    pub open spec fn complete(&self) -> bool {
        self.counts_agree() && distinct(self.command_buffers@)
    }
}

/// The render targets of a swapchain: the render pass with its pipeline,
/// the attachments, and a framebuffer for each image.
#[derive(Clone, Debug)]
pub struct RenderTargets {
    /// The multisampled colour attachment.
    pub blit_albedo_texture: Texture,
    pub blit_albedo_view: TextureView,
    /// The depth attachment.
    pub blit_depth_texture: Texture,
    pub blit_depth_view: TextureView,
    pub render_pass: Handle,
    pub pipeline_layout: Handle,
    pub pipeline: Handle,
    /// For each image, its framebuffer.
    pub framebuffers: Vec<Handle>,
}

/// What records for a swapchain: a command buffer for each image, with
/// the uniform buffers and the descriptor sets that the recorded commands
/// use.
#[derive(Clone, Debug)]
pub struct CommandResources {
    /// For each image, a uniform buffer and its memory.
    pub uniform_buffers: Vec<(Handle, Handle)>,
    pub descriptor_pool: Handle,
    pub descriptor_sets: Vec<Handle>,
    /// For each image, its command buffer.
    pub command_buffers: Vec<Handle>,
}

/// The handles that the device works with.
#[derive(Clone, Debug)]
pub struct VulkanDeviceData {
    pub back_albedo_texture: Texture,
    pub back_albedo_view: TextureView,
    pub back_albedo_sampler: Handle,
    /// The multisampled colour attachment.
    pub blit_albedo_texture: Texture,
    pub blit_albedo_view: TextureView,
    /// The depth attachment.
    pub blit_depth_texture: Texture,
    pub blit_depth_view: TextureView,
    pub surface: Handle,
    /// The sample count bit of the attachments.
    pub samples: u32,
    pub graphics_queue: Handle,
    pub present_queue: Handle,
    pub swapchain: Swapchain,
    pub render_pass: Handle,
    pub descriptor_set_layout: Handle,
    pub pipeline_layout: Handle,
    pub pipeline: Handle,
    /// For each image, its framebuffer.
    pub framebuffers: Vec<Handle>,
    pub command_pool: Handle,
    /// For each image, a uniform buffer and its memory.
    pub uniform_buffers: Vec<(Handle, Handle)>,
    pub descriptor_pool: Handle,
    pub descriptor_sets: Vec<Handle>,
    /// For each image, its command buffer.
    pub command_buffers: Vec<Handle>,
    /// For each image, the command buffers that wait to be submitted for it.
    pub command_buffer_queues: Vec<Vec<Handle>>,
}

impl VulkanDeviceData {
    /// The fields that outlive a swapchain are the same in both.
    pub open spec fn same_lasting(&self, other: &VulkanDeviceData) -> bool {
        &&& self.back_albedo_texture == other.back_albedo_texture
        &&& self.back_albedo_view == other.back_albedo_view
        &&& self.back_albedo_sampler == other.back_albedo_sampler
        &&& self.surface == other.surface
        &&& self.samples == other.samples
        &&& self.graphics_queue == other.graphics_queue
        &&& self.present_queue == other.present_queue
        &&& self.descriptor_set_layout == other.descriptor_set_layout
        &&& self.command_pool == other.command_pool
    }

    /// All that is built on the swapchain, but for the command buffers
    /// that wait to be submitted, is the same in both.
    pub open spec fn same_built(&self, other: &VulkanDeviceData) -> bool {
        &&& self.swapchain == other.swapchain
        &&& self.blit_albedo_texture == other.blit_albedo_texture
        &&& self.blit_albedo_view == other.blit_albedo_view
        &&& self.blit_depth_texture == other.blit_depth_texture
        &&& self.blit_depth_view == other.blit_depth_view
        &&& self.uniform_buffers == other.uniform_buffers
        &&& self.render_pass == other.render_pass
        &&& self.pipeline_layout == other.pipeline_layout
        &&& self.pipeline == other.pipeline
        &&& self.framebuffers == other.framebuffers
        &&& self.descriptor_pool == other.descriptor_pool
        &&& self.descriptor_sets == other.descriptor_sets
        &&& self.command_buffers == other.command_buffers
    }

    /// The swapchain has an image, and each image has its framebuffer, its
    /// queue of pending command buffers and a command buffer of its own.
    pub open spec fn built(&self) -> bool {
        &&& self.swapchain.wf()
        &&& self.framebuffers@.len() == self.swapchain.image_count()
        &&& self.command_buffers@.len() == self.swapchain.image_count()
        &&& self.command_buffer_queues@.len() == self.swapchain.image_count()
        &&& distinct(self.command_buffers@)
    }

    /// No swapchain is held.
    pub open spec fn swapchain_torn_down(&self) -> bool {
        &&& self.swapchain.handle.is_null()
        &&& self.swapchain.format == 0
        &&& self.swapchain.extent == (Extent2D { width: 0, height: 0 })
        &&& self.swapchain.textures@.len() == 0
        &&& self.swapchain.views@.len() == 0
    }

    /// No render target is held.
    pub open spec fn targets_torn_down(&self) -> bool {
        &&& self.blit_albedo_texture == (Texture { handle: Handle { raw: 0 }, memory: Handle { raw: 0 }, mip_levels: 0 })
        &&& self.blit_albedo_view.handle.is_null()
        &&& self.blit_depth_texture == (Texture { handle: Handle { raw: 0 }, memory: Handle { raw: 0 }, mip_levels: 0 })
        &&& self.blit_depth_view.handle.is_null()
        &&& self.render_pass.is_null()
        &&& self.pipeline_layout.is_null()
        &&& self.pipeline.is_null()
        &&& self.framebuffers@.len() == 0
    }

    /// Nothing that records is held.
    pub open spec fn commands_torn_down(&self) -> bool {
        &&& self.uniform_buffers@.len() == 0
        &&& self.descriptor_pool.is_null()
        &&& self.descriptor_sets@.len() == 0
        &&& self.command_buffers@.len() == 0
        &&& self.command_buffer_queues@.len() == 0
    }

    /// Nothing that is built on a swapchain is held.
    pub open spec fn torn_down(&self) -> bool {
        self.swapchain_torn_down() && self.targets_torn_down() && self.commands_torn_down()
    }

    /// A new swapchain is held, and nothing else yet: the render targets
    /// are awaited.
    pub open spec fn awaits_targets(&self) -> bool {
        self.swapchain.wf() && self.targets_torn_down() && self.commands_torn_down()
    }

    /// A new swapchain and its render targets are held, with a framebuffer
    /// for each image: what records is awaited.
    pub open spec fn awaits_commands(&self) -> bool {
        self.swapchain.wf() && self.framebuffers@.len() == self.swapchain.image_count()
            && self.commands_torn_down()
    }

    /// The swapchain has been given up and is being replaced: nothing is
    /// held, or what has been handed over so far, in its order.
    pub open spec fn rebuilding(&self) -> bool {
        self.torn_down() || self.awaits_targets() || self.awaits_commands()
    }

    /// Whether no swapchain is held.
    pub fn is_swapchain_torn_down(&self) -> (b: bool)
        ensures
            b == self.swapchain_torn_down(),
    {
        self.swapchain.handle.is_null() && self.swapchain.format == 0 && self.swapchain.extent.width == 0
            && self.swapchain.extent.height == 0 && self.swapchain.textures.len() == 0 && self.swapchain.views.len()
            == 0
    }

    /// Whether no render target is held.
    pub fn are_targets_torn_down(&self) -> (b: bool)
        ensures
            b == self.targets_torn_down(),
    {
        self.blit_albedo_texture.handle.is_null() && self.blit_albedo_texture.memory.is_null()
            && self.blit_albedo_texture.mip_levels == 0 && self.blit_albedo_view.handle.is_null()
            && self.blit_depth_texture.handle.is_null() && self.blit_depth_texture.memory.is_null()
            && self.blit_depth_texture.mip_levels == 0 && self.blit_depth_view.handle.is_null()
            && self.render_pass.is_null() && self.pipeline_layout.is_null() && self.pipeline.is_null()
            && self.framebuffers.len() == 0
    }

    /// Whether nothing that records is held.
    pub fn are_commands_torn_down(&self) -> (b: bool)
        ensures
            b == self.commands_torn_down(),
    {
        self.uniform_buffers.len() == 0 && self.descriptor_pool.is_null() && self.descriptor_sets.len() == 0
            && self.command_buffers.len() == 0 && self.command_buffer_queues.len() == 0
    }

    /// Whether the swapchain has an image and one view for each.
    pub fn has_swapchain(&self) -> (b: bool)
        ensures
            b == self.swapchain.wf(),
    {
        let n: usize = self.swapchain.views.len();
        n > 0 && n <= u32::MAX as usize && self.swapchain.textures.len() == n
    }

    /// What is built on the swapchain is exactly `resources`, and no command
    /// buffer is pending for any image.
    pub open spec fn holds(&self, resources: &SwapchainResources) -> bool {
        &&& self.swapchain == resources.swapchain
        &&& self.blit_albedo_texture == resources.blit_albedo_texture
        &&& self.blit_albedo_view == resources.blit_albedo_view
        &&& self.blit_depth_texture == resources.blit_depth_texture
        &&& self.blit_depth_view == resources.blit_depth_view
        &&& self.uniform_buffers == resources.uniform_buffers
        &&& self.render_pass == resources.render_pass
        &&& self.pipeline_layout == resources.pipeline_layout
        &&& self.pipeline == resources.pipeline
        &&& self.framebuffers == resources.framebuffers
        &&& self.descriptor_pool == resources.descriptor_pool
        &&& self.descriptor_sets == resources.descriptor_sets
        &&& self.command_buffers == resources.command_buffers
        &&& self.command_buffer_queues@.len() == resources.swapchain.image_count()
        &&& forall|i: int|
            0 <= i < self.command_buffer_queues@.len() ==> (#[trigger] self.command_buffer_queues@[i])@.len() == 0
    }

    /// The commands that take down all that is built on the swapchain, each
    /// object before what it depends on: the command buffers, the
    /// descriptor pool and the uniform buffers; then the framebuffers, the
    /// pipeline with its layout, the render pass, the attachments, the
    /// views of the swapchain's images and the swapchain. What is null is
    /// passed over.
    pub open spec fn swapchain_teardown(&self) -> Seq<DeviceCommand> {
        free_command_buffers(self.command_pool, self.command_buffers@) + destroy_if_set(
            ObjectKind::DescriptorPool,
            self.descriptor_pool,
        ) + destroy_buffers(self.uniform_buffers@) + destroy_all(ObjectKind::Framebuffer, self.framebuffers@)
            + destroy_if_set(ObjectKind::Pipeline, self.pipeline) + destroy_if_set(
            ObjectKind::PipelineLayout,
            self.pipeline_layout,
        ) + destroy_if_set(ObjectKind::RenderPass, self.render_pass) + destroy_target(
            self.blit_albedo_view,
            self.blit_albedo_texture,
        ) + destroy_target(self.blit_depth_view, self.blit_depth_texture) + destroy_all(
            ObjectKind::ImageView,
            crate::swap::view_handles(self.swapchain.views@),
        ) + destroy_if_set(ObjectKind::Swapchain, self.swapchain.handle)
    }
}

/// The colour and depth that a pass clears to where none is given: cyan,
/// and the far plane.
pub open spec fn pass_clear_color(color: Option<ClearColor>) -> ClearColor {
    match color {
        Some(c) => c,
        None => ClearColor { r: F32_ZERO, g: F32_ONE, b: F32_ONE, a: F32_ONE },
    }
}

/// The depth that a pass clears to where none is given: the far plane.
pub open spec fn pass_clear_depth(depth: Option<u32>) -> u32 {
    match depth {
        Some(d) => d,
        None => F32_ONE,
    }
}

/// The colour of the pass that stands in where a frame recorded nothing.
pub open spec fn fallback_clear_color() -> ClearColor {
    ClearColor { r: F32_DARK, g: F32_DARK, b: F32_DARK, a: F32_ONE }
}

/// The commands that open a pass in a command buffer: the buffer is reset,
/// its recording begun, and the pass begun with its clear values.
pub open spec fn open_pass(
    render_pass: Handle,
    framebuffer: Handle,
    extent: Extent2D,
    command_buffer: Handle,
    color: Option<ClearColor>,
    depth: Option<u32>,
) -> Seq<DeviceCommand> {
    seq![
        DeviceCommand::ResetCommandBuffer { command_buffer },
        DeviceCommand::BeginCommandBuffer { command_buffer },
        DeviceCommand::Record {
            command_buffer,
            command: RecordedCommand::BeginRenderPass {
                render_pass,
                framebuffer,
                extent,
                color: pass_clear_color(color),
                depth: pass_clear_depth(depth),
            },
        },
    ]
}

/// The device and its frame loop.
#[derive(Clone, Debug)]
pub struct VulkanDevice {
    pub api: VulkanApi,
    pub data: VulkanDeviceData,
    /// The frame slot in use, or next to be used.
    pub frame_index: usize,
    /// The image bound to the frame.
    pub swap_index: usize,
    /// Set from outside when the window's size has changed.
    pub resized: bool,
    pub phase: FramePhase,
    pub sync: VulkanDeviceSync,
    /// The debug messenger, where validation is on.
    pub messenger: Option<Handle>,
}

impl VulkanDevice {
    /// The number of images of the swapchain.
    pub open spec fn image_count(&self) -> nat {
        self.data.swapchain.image_count()
    }

    /// Whether a frame is under way.
    pub open spec fn in_frame(&self) -> bool {
        self.phase == FramePhase::Acquiring || self.has_image()
    }

    /// Whether an image is bound to the frame under way.
    pub open spec fn has_image(&self) -> bool {
        self.phase == FramePhase::Recording || self.phase == FramePhase::Submitting || self.phase
            == FramePhase::Presenting
    }

    /// The fence of the frame slot in use.
    pub open spec fn slot_fence(&self) -> Handle {
        self.sync.fences_in_flight@[self.frame_index as int]
    }

    /// The command buffers that wait to be submitted for image `i`.
    pub open spec fn pending(&self, i: int) -> Seq<Handle> {
        self.data.command_buffer_queues@[i]@
    }

    /// The state is one that the frame loop can be in.
    pub open spec fn wf(&self) -> bool {
        &&& self.sync.wf()
        &&& self.frame_index < self.sync.frame_slot_count()
        &&& self.phase == FramePhase::Invalidated ==> self.data.rebuilding()
        &&& self.phase != FramePhase::Invalidated ==> self.data.built() && self.sync.image_count()
            == self.image_count()
        &&& self.in_frame() ==> self.sync.in_flight_fence == self.slot_fence()
        &&& self.has_image() ==> self.swap_index < self.image_count()
        &&& forall|i: int|
            0 <= i < self.data.command_buffer_queues@.len() && (#[trigger] self.pending(i)).len() > 0 ==> self.phase
                == FramePhase::Recording && i == self.swap_index
    }

    /// Whether the state is one that the frame loop can be in.
    pub fn is_well_formed(&self) -> (b: bool)
        ensures
            b == self.wf(),
    {
        if !self.sync.is_well_formed() || self.frame_index >= self.sync.fences_in_flight.len() {
            return false;
        }
        let in_frame = self.phase == FramePhase::Acquiring || self.phase == FramePhase::Recording || self.phase
            == FramePhase::Submitting || self.phase == FramePhase::Presenting;
        let has_image = in_frame && self.phase != FramePhase::Acquiring;
        if in_frame && self.sync.in_flight_fence != self.sync.fences_in_flight[self.frame_index] {
            return false;
        }
        let n: usize = self.data.swapchain.views.len();
        if self.phase == FramePhase::Invalidated {
            let d = &self.data;
            let torn = d.is_swapchain_torn_down() && d.are_targets_torn_down();
            let targets_awaited = d.has_swapchain() && d.are_targets_torn_down();
            let commands_awaited = d.has_swapchain() && d.framebuffers.len() == n;
            if !(d.are_commands_torn_down() && (torn || targets_awaited || commands_awaited)) {
                return false;
            }
        } else {
            if n == 0 || n > u32::MAX as usize || self.data.swapchain.textures.len() != n
                || self.data.framebuffers.len() != n || self.data.command_buffers.len() != n
                || self.data.command_buffer_queues.len() != n || self.sync.textures_in_flight.len() != n {
                return false;
            }
            if !all_distinct(&self.data.command_buffers) {
                return false;
            }
        }
        if has_image && self.swap_index >= n {
            return false;
        }
        let mut i: usize = 0;
        while i < self.data.command_buffer_queues.len()
            invariant
                i <= self.data.command_buffer_queues@.len(),
                forall|j: int|
                    0 <= j < i && (#[trigger] self.pending(j)).len() > 0 ==> self.phase == FramePhase::Recording && j
                        == self.swap_index,
            decreases self.data.command_buffer_queues.len() - i,
        {
            if self.data.command_buffer_queues[i].len() > 0 && !(self.phase == FramePhase::Recording && i
                == self.swap_index) {
                assert(self.pending(i as int).len() > 0);
                return false;
            }
            i = i + 1;
        }
        true
    }

    /// The error for a command that the device failed with the given
    /// status: it names the phase that the loop is in.
    pub fn device_failure(&self, code: i32) -> (e: DeviceError)
        ensures
            e == (DeviceError::Native { stage: self.phase, code }),
    {
        DeviceError::Native { stage: self.phase, code }
    }

    /// Whether the swapchain still fits the window.
    pub fn is_valid(&self) -> (valid: bool)
        ensures
            valid == !self.resized,
    {
        !self.resized
    }

    /// The extent of the swapchain's images.
    pub fn get_current_extent(&self) -> (extent: Extent2D)
        ensures
            extent == self.data.swapchain.extent,
    {
        self.data.swapchain.extent
    }

    /// The format code of the swapchain's images.
    pub fn get_current_format(&self) -> (format: i32)
        ensures
            format == self.data.swapchain.format,
    {
        self.data.swapchain.format
    }

    /// The command that blocks until the device has finished all work.
    pub fn wait_until_idle(&self) -> (command: DeviceCommand)
        ensures
            command == DeviceCommand::DeviceWaitIdle,
    {
        DeviceCommand::DeviceWaitIdle
    }

    /// A table of `count` empty queues.
    fn empty_queues(count: usize) -> (queues: Vec<Vec<Handle>>)
        ensures
            queues@.len() == count,
            forall|i: int| 0 <= i < count ==> (#[trigger] queues@[i])@.len() == 0,
    {
        let mut queues: Vec<Vec<Handle>> = Vec::new();
        let mut i: usize = 0;
        while i < count
            invariant
                i <= count,
                queues@.len() == i,
                forall|k: int| 0 <= k < i ==> (#[trigger] queues@[k])@.len() == 0,
            decreases count - i,
        {
            queues.push(Vec::new());
            i = i + 1;
        }
        queues
    }

    /// Whether the swapchain has an image, and each image has its
    /// framebuffer, its command buffer and its entry in the table of image
    /// fences.
    pub open spec fn counts_fit(data: &VulkanDeviceData, sync: &VulkanDeviceSync) -> bool {
        &&& data.swapchain.wf()
        &&& data.framebuffers@.len() == data.swapchain.image_count()
        &&& data.command_buffers@.len() == data.swapchain.image_count()
        &&& sync.image_count() == data.swapchain.image_count()
    }

    /// The device between frames, at frame slot 0, with a swapchain and all
    /// that is built on it, and with no command buffer pending. Fails where
    /// the synchronisation state has no entry for each image, or where the
    /// images lack a framebuffer or a command buffer, and else where two
    /// images share a command buffer.
    pub fn create(api: VulkanApi, data: VulkanDeviceData, sync: VulkanDeviceSync, messenger: Option<Handle>) -> (r:
        Result<
        VulkanDevice,
        DeviceError,
    >)
        requires
            sync.wf(),
        ensures
            r is Ok <==> Self::counts_fit(&data, &sync) && distinct(data.command_buffers@),
            r is Err ==> r->Err_0 == (if Self::counts_fit(&data, &sync) {
                DeviceError::SharedCommandBuffer
            } else {
                DeviceError::ResourceCount
            }),
            r is Ok ==> ({
                let d = r->Ok_0;
                &&& d.wf()
                &&& d.phase == FramePhase::Idle
                &&& d.frame_index == 0
                &&& d.swap_index == 0
                &&& !d.resized
                &&& d.messenger == messenger
                &&& d.api == api
                &&& d.sync == sync
                &&& d.data.same_lasting(&data)
                &&& d.data.swapchain == data.swapchain
                &&& d.data.framebuffers == data.framebuffers
                &&& d.data.command_buffers == data.command_buffers
                &&& d.data.render_pass == data.render_pass
                &&& d.data.pipeline == data.pipeline
                &&& d.data.pipeline_layout == data.pipeline_layout
                &&& d.data.descriptor_pool == data.descriptor_pool
                &&& d.data.descriptor_sets == data.descriptor_sets
                &&& d.data.uniform_buffers == data.uniform_buffers
                &&& d.data.blit_albedo_texture == data.blit_albedo_texture
                &&& d.data.blit_albedo_view == data.blit_albedo_view
                &&& d.data.blit_depth_texture == data.blit_depth_texture
                &&& d.data.blit_depth_view == data.blit_depth_view
                &&& forall|i: int| 0 <= i < d.image_count() ==> (#[trigger] d.pending(i)).len() == 0
            }),
    {
        let n: usize = data.swapchain.views.len();
        if n == 0 || n > u32::MAX as usize || data.swapchain.textures.len() != n || data.framebuffers.len() != n
            || data.command_buffers.len() != n || sync.textures_in_flight.len() != n {
            return Err(DeviceError::ResourceCount);
        }
        if !all_distinct(&data.command_buffers) {
            return Err(DeviceError::SharedCommandBuffer);
        }
        let mut data = data;
        data.command_buffer_queues = Self::empty_queues(n);
        Ok(
            VulkanDevice {
                api,
                data,
                frame_index: 0,
                swap_index: 0,
                resized: false,
                phase: FramePhase::Idle,
                sync,
                messenger,
            },
        )
    }

    /// The commands that `begin_frame` returns between frames.
    pub open spec fn begin_frame_plan(&self) -> Seq<DeviceCommand> {
        seq![
            DeviceCommand::WaitForFence { fence: self.slot_fence() },
            DeviceCommand::AcquireNextImage {
                swapchain: self.data.swapchain.handle,
                semaphore: self.sync.image_available_semaphores@[self.frame_index as int],
            },
        ]
    }

    /// Begins a frame in the frame slot in use. The commands wait for the
    /// slot's fence and then ask the swapchain for its next image; what
    /// comes of that goes to `image_acquired`. Between frames only.
    pub fn begin_frame(&mut self) -> (r: Result<Vec<DeviceCommand>, DeviceError>)
        requires
            old(self).wf(),
        ensures
            final(self).wf(),
            r is Ok <==> old(self).phase == FramePhase::Idle,
            r is Ok ==> r->Ok_0@ == old(self).begin_frame_plan(),
            r is Ok ==> transition(*old(self), FrameEvent::BeginFrame, *final(self), r->Ok_0@),
            r is Ok ==> *final(self) == (VulkanDevice {
                phase: FramePhase::Acquiring,
                sync: VulkanDeviceSync { in_flight_fence: old(self).slot_fence(), ..old(self).sync },
                ..*old(self)
            }),
            r is Err ==> r->Err_0 == (DeviceError::WrongPhase { phase: old(self).phase }),
            r is Err ==> *final(self) == *old(self),
    {
        if self.phase != FramePhase::Idle {
            return Err(DeviceError::WrongPhase { phase: self.phase });
        }
        let slot = self.sync.begin(self.frame_index);
        self.phase = FramePhase::Acquiring;
        let mut plan: Vec<DeviceCommand> = Vec::new();
        plan.push(DeviceCommand::WaitForFence { fence: slot.in_flight_fence });
        plan.push(
            DeviceCommand::AcquireNextImage { swapchain: self.data.swapchain.handle, semaphore: slot.image_available },
        );
        assert(plan@ =~= old(self).begin_frame_plan());
        assert forall|i: int| 0 <= i < self.data.command_buffer_queues@.len() implies (#[trigger] self.pending(
            i,
        )).len() == 0 by {
            assert(self.pending(i) == old(self).pending(i));
        }
        Ok(plan)
    }

    /// Takes down all that is built on the swapchain and forgets it. The
    /// commands may be carried out only once the device is idle.
    fn destroy_swapchain(&mut self) -> (plan: Vec<DeviceCommand>)
        ensures
            plan@ == old(self).data.swapchain_teardown(),
            final(self).data.torn_down(),
            final(self).data.same_lasting(&old(self).data),
            final(self).frame_index == old(self).frame_index,
            final(self).swap_index == old(self).swap_index,
            final(self).resized == old(self).resized,
            final(self).phase == old(self).phase,
            final(self).sync == old(self).sync,
            final(self).messenger == old(self).messenger,
            final(self).api == old(self).api,
    {
        let mut plan: Vec<DeviceCommand> = Vec::new();
        push_free_command_buffers(&mut plan, self.data.command_pool, &self.data.command_buffers);
        push_destroy_if_set(&mut plan, ObjectKind::DescriptorPool, self.data.descriptor_pool);
        push_destroy_buffers(&mut plan, &self.data.uniform_buffers);
        push_destroy_all(&mut plan, ObjectKind::Framebuffer, &self.data.framebuffers);
        push_destroy_if_set(&mut plan, ObjectKind::Pipeline, self.data.pipeline);
        push_destroy_if_set(&mut plan, ObjectKind::PipelineLayout, self.data.pipeline_layout);
        push_destroy_if_set(&mut plan, ObjectKind::RenderPass, self.data.render_pass);
        push_destroy_target(&mut plan, self.data.blit_albedo_view, self.data.blit_albedo_texture);
        push_destroy_target(&mut plan, self.data.blit_depth_view, self.data.blit_depth_texture);
        let mut i: usize = 0;
        let ghost before = plan@;
        while i < self.data.swapchain.views.len()
            invariant
                i <= self.data.swapchain.views.len(),
                *self == *old(self),
                plan@ == before + destroy_all(
                    ObjectKind::ImageView,
                    crate::swap::view_handles(self.data.swapchain.views@),
                ).subrange(0, i as int),
            decreases self.data.swapchain.views.len() - i,
        {
            plan.push(DeviceCommand::Destroy { kind: ObjectKind::ImageView, handle: self.data.swapchain.views[i].handle });
            i = i + 1;
            assert(plan@ =~= before + destroy_all(
                ObjectKind::ImageView,
                crate::swap::view_handles(self.data.swapchain.views@),
            ).subrange(0, i as int));
        }
        assert(destroy_all(ObjectKind::ImageView, crate::swap::view_handles(self.data.swapchain.views@)).subrange(
            0,
            i as int,
        ) =~= destroy_all(ObjectKind::ImageView, crate::swap::view_handles(self.data.swapchain.views@)));
        push_destroy_if_set(&mut plan, ObjectKind::Swapchain, self.data.swapchain.handle);
        assert(plan@ =~= old(self).data.swapchain_teardown());
        self.data.command_buffers = Vec::new();
        self.data.command_buffer_queues = Vec::new();
        self.data.descriptor_pool = Handle::null();
        self.data.descriptor_sets = Vec::new();
        self.data.uniform_buffers = Vec::new();
        self.data.framebuffers = Vec::new();
        self.data.pipeline = Handle::null();
        self.data.pipeline_layout = Handle::null();
        self.data.render_pass = Handle::null();
        self.data.blit_albedo_view = TextureView::null();
        self.data.blit_albedo_texture = Texture::null();
        self.data.blit_depth_view = TextureView::null();
        self.data.blit_depth_texture = Texture::null();
        self.data.swapchain = Swapchain::null();
        plan
    }

    /// The commands that are returned when the swapchain is given up: the
    /// device is waited for, then all that is built on the swapchain is
    /// taken down.
    pub open spec fn invalidation_plan(&self) -> Seq<DeviceCommand> {
        seq![DeviceCommand::DeviceWaitIdle] + self.data.swapchain_teardown()
    }

    /// Whether `self` is what is left of `pre` once its swapchain is given
    /// up: nothing built on a swapchain is held, the frame loop waits for
    /// the replacement, and the rest is as it was.
    pub open spec fn invalidated_from(&self, pre: &VulkanDevice) -> bool {
        &&& self.phase == FramePhase::Invalidated
        &&& self.data.torn_down()
        &&& self.data.same_lasting(&pre.data)
        &&& self.swap_index == pre.swap_index
        &&& self.sync == pre.sync
        &&& self.messenger == pre.messenger
        &&& self.api == pre.api
    }

    fn invalidate(&mut self) -> (plan: Vec<DeviceCommand>)
        ensures
            plan@ == old(self).invalidation_plan(),
            final(self).invalidated_from(old(self)),
            final(self).frame_index == old(self).frame_index,
            final(self).resized == old(self).resized,
    {
        let mut plan: Vec<DeviceCommand> = Vec::new();
        plan.push(DeviceCommand::DeviceWaitIdle);
        let teardown = self.destroy_swapchain();
        push_all(&mut plan, &teardown);
        self.phase = FramePhase::Invalidated;
        plan
    }

    /// The commands that `image_acquired` returns for an acquired image:
    /// a wait for the fence that guarded the image, where there is one.
    pub open spec fn image_wait_plan(&self, image_index: int) -> Seq<DeviceCommand> {
        if self.sync.textures_in_flight@[image_index].is_null() {
            Seq::empty()
        } else {
            seq![DeviceCommand::WaitForFence { fence: self.sync.textures_in_flight@[image_index] }]
        }
    }

    /// Whether `self` is `pre` with image `image_index` bound to the frame:
    /// the image is guarded by the fence of the frame slot, and passes can
    /// be recorded.
    pub open spec fn bound_from(&self, pre: &VulkanDevice, image_index: int) -> bool {
        &&& self.phase == FramePhase::Recording
        &&& self.swap_index == image_index
        &&& self.frame_index == pre.frame_index
        &&& self.resized == pre.resized
        &&& self.data == pre.data
        &&& self.messenger == pre.messenger
        &&& self.api == pre.api
        &&& self.sync.textures_in_flight@ == pre.sync.textures_in_flight@.update(image_index, pre.slot_fence())
        &&& self.sync.in_flight_fence == pre.sync.in_flight_fence
        &&& self.sync.fences_in_flight == pre.sync.fences_in_flight
        &&& self.sync.image_available_semaphores == pre.sync.image_available_semaphores
        &&& self.sync.render_finished_semaphores == pre.sync.render_finished_semaphores
    }

    /// Takes what came of asking for the next image.
    ///
    /// An acquired image is bound to the frame: if a fence guards it from an
    /// earlier frame, the commands wait for that fence, and from then on the
    /// fence of the frame slot guards it. Where the surface is out of date,
    /// nothing is recorded: the commands wait for the device and take down
    /// the swapchain, which `recreate_swapchain` then replaces. Any other
    /// failure is handed on, as is an index that the swapchain has no image
    /// for, and leaves the state as it was.
    pub fn image_acquired(&mut self, result: AcquireResult) -> (r: Result<Vec<DeviceCommand>, DeviceError>)
        requires
            old(self).wf(),
        ensures
            final(self).wf(),
            r is Ok <==> old(self).phase == FramePhase::Acquiring && (match result {
                AcquireResult::Acquired { image_index } => image_index < old(self).image_count(),
                AcquireResult::OutOfDate => true,
                AcquireResult::Failed { .. } => false,
            }),
            r is Ok ==> transition(*old(self), FrameEvent::ImageAcquired { result }, *final(self), r->Ok_0@),
            r is Ok ==> (match result {
                AcquireResult::Acquired { image_index } => r->Ok_0@ == old(self).image_wait_plan(image_index as int)
                    && final(self).bound_from(old(self), image_index as int),
                _ => r->Ok_0@ == old(self).invalidation_plan() && final(self).invalidated_from(old(self))
                    && final(self).frame_index == old(self).frame_index && final(self).resized == old(self).resized,
            }),
            r is Err ==> *final(self) == *old(self),
            old(self).phase != FramePhase::Acquiring ==> r == Err::<Vec<DeviceCommand>, DeviceError>(
                DeviceError::WrongPhase { phase: old(self).phase },
            ),
            r is Err && old(self).phase == FramePhase::Acquiring ==> (match result {
                AcquireResult::Failed { code } => r->Err_0 == (DeviceError::Native {
                    stage: FramePhase::Acquiring,
                    code,
                }),
                AcquireResult::Acquired { image_index } => r->Err_0 == (DeviceError::ImageIndex { image_index }),
                AcquireResult::OutOfDate => false,
            }),
    {
        if self.phase != FramePhase::Acquiring {
            return Err(DeviceError::WrongPhase { phase: self.phase });
        }
        match result {
            AcquireResult::Failed { code } => Err(DeviceError::Native { stage: FramePhase::Acquiring, code }),
            AcquireResult::OutOfDate => Ok(self.invalidate()),
            AcquireResult::Acquired { image_index } => {
                if image_index as usize >= self.data.swapchain.views.len() {
                    return Err(DeviceError::ImageIndex { image_index });
                }
                let slot = self.sync.begin(self.frame_index);
                let wait = self.sync.acquire_bind(image_index as usize, slot);
                self.swap_index = image_index as usize;
                self.phase = FramePhase::Recording;
                let mut plan: Vec<DeviceCommand> = Vec::new();
                match wait {
                    Some(fence) => {
                        plan.push(DeviceCommand::WaitForFence { fence });
                    },
                    None => {},
                }
                assert(plan@ =~= old(self).image_wait_plan(image_index as int));
                assert forall|i: int| 0 <= i < self.data.command_buffer_queues@.len() implies (
                #[trigger] self.pending(i)).len() == 0 by {
                    assert(self.pending(i) == old(self).pending(i));
                }
                Ok(plan)
            },
        }
    }

    /// The commands that open a pass in `command_buffer`: the buffer is
    /// reset, its recording begun, and the pass begun on the framebuffer
    /// with its clear values. While passes are recorded only.
    pub fn begin_render_pass(
        &self,
        render_pass: Handle,
        framebuffer: Handle,
        extent: Extent2D,
        command_buffer: Handle,
        color: Option<ClearColor>,
        depth: Option<u32>,
    ) -> (r: Result<Vec<DeviceCommand>, DeviceError>)
        ensures
            r is Ok <==> self.phase == FramePhase::Recording,
            r is Ok ==> r->Ok_0@ == open_pass(render_pass, framebuffer, extent, command_buffer, color, depth),
            r is Err ==> r->Err_0 == (DeviceError::WrongPhase { phase: self.phase }),
    {
        if self.phase != FramePhase::Recording {
            return Err(DeviceError::WrongPhase { phase: self.phase });
        }
        let clear_color = match color {
            Some(c) => c,
            None => ClearColor { r: F32_ZERO, g: F32_ONE, b: F32_ONE, a: F32_ONE },
        };
        let clear_depth: u32 = match depth {
            Some(d) => d,
            None => F32_ONE,
        };
        let mut plan: Vec<DeviceCommand> = Vec::new();
        plan.push(DeviceCommand::ResetCommandBuffer { command_buffer });
        plan.push(DeviceCommand::BeginCommandBuffer { command_buffer });
        plan.push(
            DeviceCommand::Record {
                command_buffer,
                command: RecordedCommand::BeginRenderPass {
                    render_pass,
                    framebuffer,
                    extent,
                    color: clear_color,
                    depth: clear_depth,
                },
            },
        );
        assert(plan@ =~= open_pass(render_pass, framebuffer, extent, command_buffer, color, depth));
        Ok(plan)
    }

    /// The command that closes the pass open in `command_buffer`. While
    /// passes are recorded only.
    pub fn end_render_pass(&self, command_buffer: Handle) -> (r: Result<DeviceCommand, DeviceError>)
        ensures
            r is Ok <==> self.phase == FramePhase::Recording,
            r is Ok ==> r->Ok_0 == (DeviceCommand::Record { command_buffer, command: RecordedCommand::EndRenderPass }),
            r is Err ==> r->Err_0 == (DeviceError::WrongPhase { phase: self.phase }),
    {
        if self.phase != FramePhase::Recording {
            return Err(DeviceError::WrongPhase { phase: self.phase });
        }
        Ok(DeviceCommand::Record { command_buffer, command: RecordedCommand::EndRenderPass })
    }

    /// The command buffer of the image bound to the frame.
    pub open spec fn frame_buffer(&self) -> Handle {
        self.data.command_buffers@[self.swap_index as int]
    }

    /// The commands that record, into the command buffer of the bound
    /// image, a pass that only clears.
    pub open spec fn clear_pass_plan(&self, color: Option<ClearColor>, depth: Option<u32>) -> Seq<DeviceCommand> {
        open_pass(
            self.data.render_pass,
            self.data.framebuffers@[self.swap_index as int],
            self.data.swapchain.extent,
            self.frame_buffer(),
            color,
            depth,
        ) + seq![
            DeviceCommand::Record { command_buffer: self.frame_buffer(), command: RecordedCommand::EndRenderPass },
            DeviceCommand::EndCommandBuffer { command_buffer: self.frame_buffer() },
        ]
    }

    /// Whether `self` is `pre` with `added` put behind the command buffers
    /// that wait to be submitted for the bound image.
    pub open spec fn queued_from(&self, pre: &VulkanDevice, added: Seq<Handle>) -> bool {
        &&& self.api == pre.api
        &&& self.frame_index == pre.frame_index
        &&& self.swap_index == pre.swap_index
        &&& self.resized == pre.resized
        &&& self.phase == pre.phase
        &&& self.sync == pre.sync
        &&& self.messenger == pre.messenger
        &&& self.data.same_lasting(&pre.data)
        &&& self.data.same_built(&pre.data)
        &&& self.data.command_buffer_queues@.len() == pre.data.command_buffer_queues@.len()
        &&& self.pending(pre.swap_index as int) == pre.pending(pre.swap_index as int) + added
        &&& forall|i: int|
            0 <= i < pre.data.command_buffer_queues@.len() && i != pre.swap_index
                ==> #[trigger] self.data.command_buffer_queues@[i] == pre.data.command_buffer_queues@[i]
    }

    /// Records a pass that only clears, into the command buffer of the
    /// bound image, and puts that buffer behind those that wait to be
    /// submitted. While passes are recorded only.
    pub fn clear_frame(&mut self, color: Option<ClearColor>, depth: Option<u32>) -> (r: Result<
        Vec<DeviceCommand>,
        DeviceError,
    >)
        requires
            old(self).wf(),
        ensures
            final(self).wf(),
            r is Ok <==> old(self).phase == FramePhase::Recording,
            r is Ok ==> r->Ok_0@ == old(self).clear_pass_plan(color, depth),
            r is Ok ==> final(self).queued_from(old(self), seq![old(self).frame_buffer()]),
            r is Ok ==> transition(*old(self), FrameEvent::ClearFrame { color, depth }, *final(self), r->Ok_0@),
            r is Err ==> r->Err_0 == (DeviceError::WrongPhase { phase: old(self).phase }),
            r is Err ==> *final(self) == *old(self),
    {
        if self.phase != FramePhase::Recording {
            return Err(DeviceError::WrongPhase { phase: self.phase });
        }
        let command_buffer = self.data.command_buffers[self.swap_index];
        let opened = self.begin_render_pass(
            self.data.render_pass,
            self.data.framebuffers[self.swap_index],
            self.data.swapchain.extent,
            command_buffer,
            color,
            depth,
        );
        let mut plan: Vec<DeviceCommand> = match opened {
            Ok(plan) => plan,
            Err(e) => {
                return Err(e);
            },
        };
        plan.push(DeviceCommand::Record { command_buffer, command: RecordedCommand::EndRenderPass });
        plan.push(DeviceCommand::EndCommandBuffer { command_buffer });
        assert(plan@ =~= old(self).clear_pass_plan(color, depth));
        self.data.command_buffer_queues[self.swap_index].push(command_buffer);
        proof {
            let i = self.swap_index as int;
            assert(self.pending(i) =~= old(self).pending(i) + seq![command_buffer]);
            assert forall|k: int|
                0 <= k < self.data.command_buffer_queues@.len() && (#[trigger] self.pending(k)).len()
                    > 0 implies k == self.swap_index by {
                if k != i {
                    assert(self.pending(k) == old(self).pending(k));
                }
            }
        }
        Ok(plan)
    }

    /// Puts command buffers behind those that wait to be submitted for the
    /// bound image. While passes are recorded only.
    pub fn submit_command_buffers(&mut self, command_buffers: &Vec<Handle>) -> (r: Result<(), DeviceError>)
        requires
            old(self).wf(),
        ensures
            final(self).wf(),
            r is Ok <==> old(self).phase == FramePhase::Recording,
            r is Ok ==> final(self).queued_from(old(self), command_buffers@),
            r is Ok ==> transition(
                *old(self),
                FrameEvent::Submit { command_buffers: command_buffers@ },
                *final(self),
                Seq::empty(),
            ),
            r is Err ==> r->Err_0 == (DeviceError::WrongPhase { phase: old(self).phase }),
            r is Err ==> *final(self) == *old(self),
    {
        if self.phase != FramePhase::Recording {
            return Err(DeviceError::WrongPhase { phase: self.phase });
        }
        let mut k: usize = 0;
        while k < command_buffers.len()
            invariant
                k <= command_buffers.len(),
                old(self).wf(),
                old(self).phase == FramePhase::Recording,
                self.queued_from(old(self), command_buffers@.subrange(0, k as int)),
            decreases command_buffers.len() - k,
        {
            let ghost before = *self;
            self.data.command_buffer_queues[self.swap_index].push(command_buffers[k]);
            k = k + 1;
            proof {
                let i = self.swap_index as int;
                assert(self.pending(i) =~= old(self).pending(i) + command_buffers@.subrange(0, k as int)) by {
                    assert(before.pending(i) == old(self).pending(i) + command_buffers@.subrange(0, k - 1));
                    assert(self.pending(i) == before.pending(i).push(command_buffers@[k - 1]));
                }
                assert forall|j: int|
                    0 <= j < old(self).data.command_buffer_queues@.len() && j != i
                        implies #[trigger] self.data.command_buffer_queues@[j]
                    == old(self).data.command_buffer_queues@[j] by {
                    assert(before.data.command_buffer_queues@[j] == old(self).data.command_buffer_queues@[j]);
                }
            }
        }
        proof {
            assert(command_buffers@.subrange(0, k as int) =~= command_buffers@);
            let i = self.swap_index as int;
            assert forall|j: int|
                0 <= j < self.data.command_buffer_queues@.len() && (#[trigger] self.pending(j)).len()
                    > 0 implies j == self.swap_index by {
                if j != i {
                    assert(self.pending(j) == old(self).pending(j));
                }
            }
        }
        Ok(())
    }

    /// The command buffers that are submitted when `queue` waits for the
    /// bound image: those of `queue`, or, where it is empty, the image's own
    /// command buffer, which then holds a pass that only clears.
    pub open spec fn submitted_of(&self, queue: Seq<Handle>) -> Seq<Handle> {
        if queue.len() == 0 {
            seq![self.frame_buffer()]
        } else {
            queue
        }
    }

    /// The command buffers that `end_frame` submits.
    pub open spec fn submitted_buffers(&self) -> Seq<Handle> {
        self.submitted_of(self.pending(self.swap_index as int))
    }

    /// The commands that submit `buffers` in the frame slot in use: the
    /// slot's fence is reset, the buffers are staged, and the batch is
    /// submitted to wait for the slot's acquired image and to signal the
    /// slot's finished work and its fence.
    pub open spec fn submission_plan(&self, buffers: Seq<Handle>) -> Seq<DeviceCommand> {
        seq![DeviceCommand::ResetFence { fence: self.slot_fence() }] + stage_all(buffers) + seq![
            DeviceCommand::QueueSubmit {
                queue: self.data.graphics_queue,
                wait_semaphore: self.sync.image_available_semaphores@[self.frame_index as int],
                signal_semaphore: self.sync.render_finished_semaphores@[self.frame_index as int],
                fence: self.slot_fence(),
            },
        ]
    }

    /// The commands that end a frame for which `queue` waits to be
    /// submitted.
    pub open spec fn end_frame_plan_of(&self, queue: Seq<Handle>) -> Seq<DeviceCommand> {
        if queue.len() == 0 {
            self.clear_pass_plan(Some(fallback_clear_color()), Some(F32_ONE)) + self.submission_plan(
                self.submitted_of(queue),
            )
        } else {
            self.submission_plan(self.submitted_of(queue))
        }
    }

    /// The commands that `end_frame` returns while passes are recorded.
    pub open spec fn end_frame_plan(&self) -> Seq<DeviceCommand> {
        self.end_frame_plan_of(self.pending(self.swap_index as int))
    }

    /// Whether `self` is `pre` with no command buffer pending and with the
    /// given phase.
    pub open spec fn flushed_from(&self, pre: &VulkanDevice, phase: FramePhase) -> bool {
        &&& self.api == pre.api
        &&& self.frame_index == pre.frame_index
        &&& self.swap_index == pre.swap_index
        &&& self.resized == pre.resized
        &&& self.phase == phase
        &&& self.sync == pre.sync
        &&& self.messenger == pre.messenger
        &&& self.data.same_lasting(&pre.data)
        &&& self.data.same_built(&pre.data)
        &&& self.data.command_buffer_queues@.len() == pre.data.command_buffer_queues@.len()
        &&& forall|i: int| 0 <= i < self.data.command_buffer_queues@.len() ==> (#[trigger] self.pending(i)).len() == 0
    }

    /// Ends the recording of the frame and submits its work: the command
    /// buffers that wait for the bound image, in their order, and then none
    /// is left waiting. Where none waits, a pass that only clears is
    /// recorded first and its one command buffer submitted, so that the
    /// image can be presented all the same. The slot's fence is reset just
    /// before the submission. While passes are recorded only.
    pub fn end_frame(&mut self) -> (r: Result<Vec<DeviceCommand>, DeviceError>)
        requires
            old(self).wf(),
        ensures
            final(self).wf(),
            r is Ok <==> old(self).phase == FramePhase::Recording,
            r is Ok ==> r->Ok_0@ == old(self).end_frame_plan(),
            r is Ok ==> final(self).flushed_from(old(self), FramePhase::Submitting),
            r is Ok ==> transition(*old(self), FrameEvent::EndFrame, *final(self), r->Ok_0@),
            r is Err ==> r->Err_0 == (DeviceError::WrongPhase { phase: old(self).phase }),
            r is Err ==> *final(self) == *old(self),
    {
        if self.phase != FramePhase::Recording {
            return Err(DeviceError::WrongPhase { phase: self.phase });
        }
        let mut plan: Vec<DeviceCommand> = Vec::new();
        if self.data.command_buffer_queues[self.swap_index].len() == 0 {
            let cleared = self.clear_frame(
                Some(ClearColor { r: F32_DARK, g: F32_DARK, b: F32_DARK, a: F32_ONE }),
                Some(F32_ONE),
            );
            match cleared {
                Ok(commands) => {
                    push_all(&mut plan, &commands);
                },
                Err(e) => {
                    return Err(e);
                },
            }
            assert(self.pending(self.swap_index as int) =~= old(self).submitted_buffers());
        }
        assert(self.pending(self.swap_index as int) == old(self).submitted_buffers());
        let ghost recorded = plan@;
        let fence = self.sync.fences_in_flight[self.frame_index];
        plan.push(DeviceCommand::ResetFence { fence });
        push_stage_all(&mut plan, &self.data.command_buffer_queues[self.swap_index]);
        plan.push(
            DeviceCommand::QueueSubmit {
                queue: self.data.graphics_queue,
                wait_semaphore: self.sync.image_available_semaphores[self.frame_index],
                signal_semaphore: self.sync.render_finished_semaphores[self.frame_index],
                fence,
            },
        );
        assert(plan@ =~= recorded + old(self).submission_plan(old(self).submitted_buffers()));
        assert(plan@ =~= old(self).end_frame_plan());
        let ghost queued = *self;
        self.data.command_buffer_queues[self.swap_index].clear();
        self.phase = FramePhase::Submitting;
        proof {
            assert forall|i: int| 0 <= i < self.data.command_buffer_queues@.len() implies (#[trigger] self.pending(
                i,
            )).len() == 0 by {
                if i != self.swap_index {
                    assert(self.pending(i) == queued.pending(i));
                    assert(queued.pending(i) == old(self).pending(i));
                }
            }
        }
        Ok(plan)
    }

    /// The command that `frame_submitted` returns.
    pub open spec fn present_plan(&self) -> DeviceCommand {
        DeviceCommand::QueuePresent {
            queue: self.data.present_queue,
            wait_semaphore: self.sync.render_finished_semaphores@[self.frame_index as int],
            swapchain: self.data.swapchain.handle,
            image_index: self.swap_index as u32,
        }
    }

    /// Takes note that the frame's work has been submitted. The command
    /// presents the bound image once the slot's finished work is signaled;
    /// what comes of it goes to `frame_presented`. After `end_frame` only.
    pub fn frame_submitted(&mut self) -> (r: Result<DeviceCommand, DeviceError>)
        requires
            old(self).wf(),
        ensures
            final(self).wf(),
            r is Ok <==> old(self).phase == FramePhase::Submitting,
            r is Ok ==> r->Ok_0 == old(self).present_plan(),
            r is Ok ==> *final(self) == (VulkanDevice { phase: FramePhase::Presenting, ..*old(self) }),
            r is Ok ==> transition(*old(self), FrameEvent::FrameSubmitted, *final(self), seq![r->Ok_0]),
            r is Err ==> r->Err_0 == (DeviceError::WrongPhase { phase: old(self).phase }),
            r is Err ==> *final(self) == *old(self),
    {
        if self.phase != FramePhase::Submitting {
            return Err(DeviceError::WrongPhase { phase: self.phase });
        }
        self.phase = FramePhase::Presenting;
        proof {
            assert forall|i: int| 0 <= i < self.data.command_buffer_queues@.len() implies (#[trigger] self.pending(
                i,
            )).len() == 0 by {
                assert(self.pending(i) == old(self).pending(i));
            }
        }
        Ok(
            DeviceCommand::QueuePresent {
                queue: self.data.present_queue,
                wait_semaphore: self.sync.render_finished_semaphores[self.frame_index],
                swapchain: self.data.swapchain.handle,
                image_index: self.swap_index as u32,
            },
        )
    }

    /// Whether the swapchain has to be replaced after a presentation that
    /// came out as `result`: the window's size has changed, or the surface
    /// no longer matches the swapchain.
    pub open spec fn must_rebuild(&self, result: PresentResult) -> bool {
        self.resized || result == PresentResult::Suboptimal || result == PresentResult::OutOfDate
    }

    /// The frame slot after the one in use.
    pub open spec fn next_slot(&self) -> int {
        next_frame_index(self.frame_index as int, self.sync.frame_slot_count() as int)
    }

    /// Takes what came of presenting the image, and ends the frame: the
    /// next frame uses the next frame slot. Where the image was presented
    /// and the window's size has not changed, the loop is between frames
    /// again. Where the size has changed, or the surface no longer matches
    /// the swapchain, the frame's work stays queued as it is, and the
    /// commands wait for the device and take down the swapchain, which
    /// `recreate_swapchain` then replaces. Any other failure is handed on
    /// and leaves the state as it was. After `frame_submitted` only.
    pub fn frame_presented(&mut self, result: PresentResult) -> (r: Result<Vec<DeviceCommand>, DeviceError>)
        requires
            old(self).wf(),
        ensures
            final(self).wf(),
            r is Ok <==> old(self).phase == FramePhase::Presenting && !(result is Failed),
            r is Ok ==> transition(*old(self), FrameEvent::FramePresented { status: result }, *final(self), r->Ok_0@),
            r is Ok && !old(self).must_rebuild(result) ==> r->Ok_0@.len() == 0 && *final(self) == (VulkanDevice {
                phase: FramePhase::Idle,
                frame_index: old(self).next_slot() as usize,
                ..*old(self)
            }),
            r is Ok && old(self).must_rebuild(result) ==> r->Ok_0@ == old(self).invalidation_plan()
                && final(self).invalidated_from(old(self)) && final(self).frame_index == old(self).next_slot()
                && !final(self).resized,
            r is Err ==> *final(self) == *old(self),
            old(self).phase != FramePhase::Presenting ==> r == Err::<Vec<DeviceCommand>, DeviceError>(
                DeviceError::WrongPhase { phase: old(self).phase },
            ),
            old(self).phase == FramePhase::Presenting && result is Failed ==> r == Err::<
                Vec<DeviceCommand>,
                DeviceError,
            >(DeviceError::Native { stage: FramePhase::Presenting, code: result->code }),
    {
        if self.phase != FramePhase::Presenting {
            return Err(DeviceError::WrongPhase { phase: self.phase });
        }
        let changed = match result {
            PresentResult::Failed { code } => {
                return Err(DeviceError::Native { stage: FramePhase::Presenting, code });
            },
            PresentResult::Presented => false,
            PresentResult::Suboptimal => true,
            PresentResult::OutOfDate => true,
        };
        self.frame_index = self.sync.advance(self.frame_index);
        if self.resized || changed {
            self.resized = false;
            let plan = self.invalidate();
            Ok(plan)
        } else {
            self.phase = FramePhase::Idle;
            proof {
                assert forall|i: int|
                    0 <= i < self.data.command_buffer_queues@.len() implies (#[trigger] self.pending(i)).len()
                    == 0 by {
                    assert(self.pending(i) == old(self).pending(i));
                }
            }
            Ok(Vec::new())
        }
    }

    /// Whether `self` is `pre` with its swapchain replaced by `resources`:
    /// all that is built on the swapchain is what `resources` holds, no
    /// image is guarded by a fence, and the loop is between frames.
    pub open spec fn rebuilt_from(&self, pre: &VulkanDevice, resources: &SwapchainResources) -> bool {
        &&& self.phase == FramePhase::Idle
        &&& self.api == pre.api
        &&& self.frame_index == pre.frame_index
        &&& self.swap_index == pre.swap_index
        &&& self.resized == pre.resized
        &&& self.messenger == pre.messenger
        &&& self.data.same_lasting(&pre.data)
        &&& self.data.holds(resources)
        &&& self.sync.textures_in_flight@ == Seq::new(
            resources.swapchain.image_count(),
            |i: int| Handle { raw: 0 },
        )
        &&& self.sync.in_flight_fence == pre.sync.in_flight_fence
        &&& self.sync.fences_in_flight == pre.sync.fences_in_flight
        &&& self.sync.image_available_semaphores == pre.sync.image_available_semaphores
        &&& self.sync.render_finished_semaphores == pre.sync.render_finished_semaphores
    }

    /// Puts a new swapchain, and all that was built on it, in the place of
    /// the one that was given up. The table of image fences gets an entry
    /// for each new image and every entry is unset; the frame slots stay as
    /// they are. Fails, and changes nothing, where no swapchain was given
    /// up; else where a part of the replacement has been handed over
    /// already; else where the new swapchain has no image or its images
    /// lack a view, a framebuffer or a command buffer; and else where two
    /// images share a command buffer.
    ///
    /// This takes the whole replacement at once. `swapchain_replaced`,
    /// `targets_replaced` and `commands_replaced` take it piece by piece, in
    /// the order in which it has to be built.
    pub fn recreate_swapchain(&mut self, resources: SwapchainResources) -> (r: Result<(), DeviceError>)
        requires
            old(self).wf(),
        ensures
            final(self).wf(),
            r is Ok <==> old(self).phase == FramePhase::Invalidated && old(self).data.torn_down()
                && resources.complete(),
            r is Ok ==> final(self).rebuilt_from(old(self), &resources),
            r is Ok ==> transition(*old(self), FrameEvent::Recreate { resources }, *final(self), Seq::empty()),
            r is Err ==> *final(self) == *old(self),
            r is Err ==> r->Err_0 == (if old(self).phase != FramePhase::Invalidated {
                DeviceError::WrongPhase { phase: old(self).phase }
            } else if !old(self).data.torn_down() {
                DeviceError::RebuildOrder
            } else if !resources.counts_agree() {
                DeviceError::ResourceCount
            } else {
                DeviceError::SharedCommandBuffer
            }),
    {
        if self.phase != FramePhase::Invalidated {
            return Err(DeviceError::WrongPhase { phase: self.phase });
        }
        if self.data.swapchain.views.len() != 0 {
            return Err(DeviceError::RebuildOrder);
        }
        let n: usize = resources.swapchain.views.len();
        if n == 0 || n > u32::MAX as usize || resources.swapchain.textures.len() != n || resources.framebuffers.len()
            != n || resources.command_buffers.len() != n {
            return Err(DeviceError::ResourceCount);
        }
        if !all_distinct(&resources.command_buffers) {
            return Err(DeviceError::SharedCommandBuffer);
        }
        self.data.swapchain = resources.swapchain;
        self.data.blit_albedo_texture = resources.blit_albedo_texture;
        self.data.blit_albedo_view = resources.blit_albedo_view;
        self.data.blit_depth_texture = resources.blit_depth_texture;
        self.data.blit_depth_view = resources.blit_depth_view;
        self.data.uniform_buffers = resources.uniform_buffers;
        self.data.render_pass = resources.render_pass;
        self.data.pipeline_layout = resources.pipeline_layout;
        self.data.pipeline = resources.pipeline;
        self.data.framebuffers = resources.framebuffers;
        self.data.descriptor_pool = resources.descriptor_pool;
        self.data.descriptor_sets = resources.descriptor_sets;
        self.data.command_buffers = resources.command_buffers;
        self.data.command_buffer_queues = Self::empty_queues(n);
        self.sync.resize_textures(n);
        self.phase = FramePhase::Idle;
        Ok(())
    }

    /// What refuses a piece of the replacement before it is looked at, if
    /// anything: the phase where no swapchain was given up, else the order
    /// where `expected` is not the piece that is awaited.
    pub open spec fn rebuild_refusal(&self, expected: bool) -> Option<DeviceError> {
        if self.phase != FramePhase::Invalidated {
            Some(DeviceError::WrongPhase { phase: self.phase })
        } else if !expected {
            Some(DeviceError::RebuildOrder)
        } else {
            None
        }
    }

    /// Takes the new swapchain, the first piece of what replaces the one
    /// that was given up. Only a swapchain with an image and a view of each
    /// is taken. Nothing else changes; the render targets are awaited next.
    pub fn swapchain_replaced(&mut self, swapchain: Swapchain) -> (r: Result<(), DeviceError>)
        requires
            old(self).wf(),
        ensures
            final(self).wf(),
            r is Ok <==> old(self).phase == FramePhase::Invalidated && old(self).data.torn_down() && swapchain.wf(),
            r is Ok ==> *final(self) == (VulkanDevice {
                data: VulkanDeviceData { swapchain, ..old(self).data },
                ..*old(self)
            }),
            r is Ok ==> final(self).data.awaits_targets(),
            r is Ok ==> transition(
                *old(self),
                FrameEvent::SwapchainReplaced { swapchain },
                *final(self),
                Seq::empty(),
            ),
            r is Err ==> *final(self) == *old(self),
            r is Err ==> r->Err_0 == (match old(self).rebuild_refusal(old(self).data.torn_down()) {
                Some(e) => e,
                None => DeviceError::ResourceCount,
            }),
    {
        if self.phase != FramePhase::Invalidated {
            return Err(DeviceError::WrongPhase { phase: self.phase });
        }
        if self.data.swapchain.views.len() != 0 {
            return Err(DeviceError::RebuildOrder);
        }
        let n: usize = swapchain.views.len();
        if n == 0 || n > u32::MAX as usize || swapchain.textures.len() != n {
            return Err(DeviceError::ResourceCount);
        }
        self.data.swapchain = swapchain;
        proof {
            assert forall|i: int| 0 <= i < self.data.command_buffer_queues@.len() implies (#[trigger] self.pending(
                i,
            )).len() == 0 by {}
        }
        Ok(())
    }

    /// Takes the render targets of the new swapchain, the second piece of
    /// the replacement: the attachments, the render pass with its pipeline,
    /// and a framebuffer for each image. Nothing else changes; what records
    /// is awaited next.
    pub fn targets_replaced(&mut self, targets: RenderTargets) -> (r: Result<(), DeviceError>)
        requires
            old(self).wf(),
        ensures
            final(self).wf(),
            r is Ok <==> old(self).phase == FramePhase::Invalidated && old(self).data.awaits_targets()
                && targets.framebuffers@.len() == old(self).image_count(),
            r is Ok ==> *final(self) == (VulkanDevice {
                data: VulkanDeviceData {
                    blit_albedo_texture: targets.blit_albedo_texture,
                    blit_albedo_view: targets.blit_albedo_view,
                    blit_depth_texture: targets.blit_depth_texture,
                    blit_depth_view: targets.blit_depth_view,
                    render_pass: targets.render_pass,
                    pipeline_layout: targets.pipeline_layout,
                    pipeline: targets.pipeline,
                    framebuffers: targets.framebuffers,
                    ..old(self).data
                },
                ..*old(self)
            }),
            r is Ok ==> final(self).data.awaits_commands(),
            r is Ok ==> transition(*old(self), FrameEvent::TargetsReplaced { targets }, *final(self), Seq::empty()),
            r is Err ==> *final(self) == *old(self),
            r is Err ==> r->Err_0 == (match old(self).rebuild_refusal(old(self).data.awaits_targets()) {
                Some(e) => e,
                None => DeviceError::ResourceCount,
            }),
    {
        if self.phase != FramePhase::Invalidated {
            return Err(DeviceError::WrongPhase { phase: self.phase });
        }
        let n: usize = self.data.swapchain.views.len();
        if n == 0 || self.data.framebuffers.len() != 0 {
            return Err(DeviceError::RebuildOrder);
        }
        if targets.framebuffers.len() != n {
            return Err(DeviceError::ResourceCount);
        }
        self.data.blit_albedo_texture = targets.blit_albedo_texture;
        self.data.blit_albedo_view = targets.blit_albedo_view;
        self.data.blit_depth_texture = targets.blit_depth_texture;
        self.data.blit_depth_view = targets.blit_depth_view;
        self.data.render_pass = targets.render_pass;
        self.data.pipeline_layout = targets.pipeline_layout;
        self.data.pipeline = targets.pipeline;
        self.data.framebuffers = targets.framebuffers;
        proof {
            assert forall|i: int| 0 <= i < self.data.command_buffer_queues@.len() implies (#[trigger] self.pending(
                i,
            )).len() == 0 by {}
        }
        Ok(())
    }

    /// Whether `self` is `pre` with `commands` in the place of what
    /// records: no command buffer is pending, no image is guarded by a
    /// fence, the swapchain and its render targets are those of `pre`, and
    /// the loop is between frames.
    pub open spec fn recording_from(&self, pre: &VulkanDevice, commands: &CommandResources) -> bool {
        &&& self.phase == FramePhase::Idle
        &&& self.api == pre.api
        &&& self.frame_index == pre.frame_index
        &&& self.swap_index == pre.swap_index
        &&& self.resized == pre.resized
        &&& self.messenger == pre.messenger
        &&& self.data.same_lasting(&pre.data)
        &&& self.data.swapchain == pre.data.swapchain
        &&& self.data.blit_albedo_texture == pre.data.blit_albedo_texture
        &&& self.data.blit_albedo_view == pre.data.blit_albedo_view
        &&& self.data.blit_depth_texture == pre.data.blit_depth_texture
        &&& self.data.blit_depth_view == pre.data.blit_depth_view
        &&& self.data.render_pass == pre.data.render_pass
        &&& self.data.pipeline_layout == pre.data.pipeline_layout
        &&& self.data.pipeline == pre.data.pipeline
        &&& self.data.framebuffers == pre.data.framebuffers
        &&& self.data.uniform_buffers == commands.uniform_buffers
        &&& self.data.descriptor_pool == commands.descriptor_pool
        &&& self.data.descriptor_sets == commands.descriptor_sets
        &&& self.data.command_buffers == commands.command_buffers
        &&& self.data.command_buffer_queues@.len() == pre.image_count()
        &&& forall|i: int|
            0 <= i < self.data.command_buffer_queues@.len() ==> (#[trigger] self.data.command_buffer_queues@[i])@.len()
                == 0
        &&& self.sync.textures_in_flight@ == Seq::new(pre.image_count(), |i: int| Handle { raw: 0 })
        &&& self.sync.in_flight_fence == pre.sync.in_flight_fence
        &&& self.sync.fences_in_flight == pre.sync.fences_in_flight
        &&& self.sync.image_available_semaphores == pre.sync.image_available_semaphores
        &&& self.sync.render_finished_semaphores == pre.sync.render_finished_semaphores
    }

    /// Takes what records for the new swapchain, the last piece of the
    /// replacement: a command buffer of its own for each image, with the
    /// uniform buffers and the descriptor sets. Then the table of image
    /// fences gets an entry for each image and every entry is unset, the
    /// frame slots stay as they are, and the loop is between frames again.
    pub fn commands_replaced(&mut self, commands: CommandResources) -> (r: Result<(), DeviceError>)
        requires
            old(self).wf(),
        ensures
            final(self).wf(),
            r is Ok <==> old(self).phase == FramePhase::Invalidated && old(self).data.awaits_commands()
                && commands.command_buffers@.len() == old(self).image_count() && distinct(
                commands.command_buffers@,
            ),
            r is Ok ==> final(self).recording_from(old(self), &commands),
            r is Ok ==> transition(
                *old(self),
                FrameEvent::CommandsReplaced { commands },
                *final(self),
                Seq::empty(),
            ),
            r is Err ==> *final(self) == *old(self),
            r is Err ==> r->Err_0 == (match old(self).rebuild_refusal(old(self).data.awaits_commands()) {
                Some(e) => e,
                None => if commands.command_buffers@.len() != old(self).image_count() {
                    DeviceError::ResourceCount
                } else {
                    DeviceError::SharedCommandBuffer
                },
            }),
    {
        if self.phase != FramePhase::Invalidated {
            return Err(DeviceError::WrongPhase { phase: self.phase });
        }
        let n: usize = self.data.swapchain.views.len();
        if self.data.framebuffers.len() == 0 {
            return Err(DeviceError::RebuildOrder);
        }
        if commands.command_buffers.len() != n {
            return Err(DeviceError::ResourceCount);
        }
        if !all_distinct(&commands.command_buffers) {
            return Err(DeviceError::SharedCommandBuffer);
        }
        self.data.uniform_buffers = commands.uniform_buffers;
        self.data.descriptor_pool = commands.descriptor_pool;
        self.data.descriptor_sets = commands.descriptor_sets;
        self.data.command_buffers = commands.command_buffers;
        self.data.command_buffer_queues = Self::empty_queues(n);
        self.sync.resize_textures(n);
        self.phase = FramePhase::Idle;
        Ok(())
    }

    /// Gives up the swapchain between frames where the window's size has
    /// changed, and does nothing where it has not. Between frames only.
    pub fn reset(&mut self) -> (r: Result<Vec<DeviceCommand>, DeviceError>)
        requires
            old(self).wf(),
        ensures
            final(self).wf(),
            r is Ok <==> old(self).phase == FramePhase::Idle,
            r is Ok && !old(self).resized ==> r->Ok_0@.len() == 0 && *final(self) == *old(self),
            r is Ok ==> transition(*old(self), FrameEvent::Reset, *final(self), r->Ok_0@),
            r is Ok && old(self).resized ==> r->Ok_0@ == old(self).invalidation_plan() && final(self).invalidated_from(
                old(self),
            ) && final(self).frame_index == old(self).frame_index && !final(self).resized,
            r is Err ==> r->Err_0 == (DeviceError::WrongPhase { phase: old(self).phase }),
            r is Err ==> *final(self) == *old(self),
    {
        if self.phase != FramePhase::Idle {
            return Err(DeviceError::WrongPhase { phase: self.phase });
        }
        if self.resized {
            self.resized = false;
            Ok(self.invalidate())
        } else {
            Ok(Vec::new())
        }
    }

    /// The commands that take down what outlives a swapchain: the objects
    /// of the frame slots, the sampler, the texture with its view, the
    /// command pool and the descriptor set layout; then the device, after
    /// it the surface, the debug messenger where there is one, and last the
    /// instance.
    pub open spec fn shutdown_plan(&self) -> Seq<DeviceCommand> {
        self.sync.destroy_plan() + destroy_if_set(ObjectKind::Sampler, self.data.back_albedo_sampler)
            + destroy_target(self.data.back_albedo_view, self.data.back_albedo_texture) + destroy_if_set(
            ObjectKind::CommandPool,
            self.data.command_pool,
        ) + destroy_if_set(ObjectKind::DescriptorSetLayout, self.data.descriptor_set_layout) + seq![
            DeviceCommand::Destroy { kind: ObjectKind::Device, handle: self.api.logical_device },
            DeviceCommand::Destroy { kind: ObjectKind::Surface, handle: self.data.surface },
        ] + (match self.messenger {
            Some(m) => seq![DeviceCommand::Destroy { kind: ObjectKind::DebugMessenger, handle: m }],
            None => Seq::empty(),
        }) + seq![DeviceCommand::Destroy { kind: ObjectKind::Instance, handle: self.api.instance }]
    }

    /// The commands that `destroy` returns: the device is waited for, all
    /// that is built on the swapchain is taken down, and then what outlives
    /// a swapchain.
    pub open spec fn destroy_plan(&self) -> Seq<DeviceCommand> {
        self.invalidation_plan() + self.shutdown_plan()
    }

    /// Shuts the device down, whatever phase the loop is in. Nothing is
    /// destroyed before the device is idle, and afterwards nothing that was
    /// built on the swapchain is held.
    pub fn destroy(&mut self) -> (plan: Vec<DeviceCommand>)
        ensures
            plan@ == old(self).destroy_plan(),
            transition(*old(self), FrameEvent::Destroy, *final(self), plan@),
            old(self).wf() ==> final(self).wf(),
            final(self).invalidated_from(old(self)),
            final(self).frame_index == old(self).frame_index,
            final(self).resized == old(self).resized,
    {
        let mut plan: Vec<DeviceCommand> = self.invalidate();
        let ghost first = plan@;
        let slots = self.sync.destroy();
        push_all(&mut plan, &slots);
        push_destroy_if_set(&mut plan, ObjectKind::Sampler, self.data.back_albedo_sampler);
        push_destroy_target(&mut plan, self.data.back_albedo_view, self.data.back_albedo_texture);
        push_destroy_if_set(&mut plan, ObjectKind::CommandPool, self.data.command_pool);
        push_destroy_if_set(&mut plan, ObjectKind::DescriptorSetLayout, self.data.descriptor_set_layout);
        plan.push(DeviceCommand::Destroy { kind: ObjectKind::Device, handle: self.api.logical_device });
        plan.push(DeviceCommand::Destroy { kind: ObjectKind::Surface, handle: self.data.surface });
        match self.messenger {
            Some(m) => {
                plan.push(DeviceCommand::Destroy { kind: ObjectKind::DebugMessenger, handle: m });
            },
            None => {},
        }
        plan.push(DeviceCommand::Destroy { kind: ObjectKind::Instance, handle: self.api.instance });
        assert(plan@ =~= first + old(self).shutdown_plan());
        plan
    }
}

} // verus!
