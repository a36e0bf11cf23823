//! The commands that the library hands to the program that drives the device.
//!
//! A function of the library that needs something done on the device returns
//! a list of these. The program carries the list out in order, stops at the
//! first command that fails, and hands the outcome back.

use vstd::prelude::*;
use crate::handle::Handle;

verus! {

/// The kinds of device object that a command can create or destroy.
#[derive(Clone, Copy, Debug, PartialEq, Eq, Structural)]
pub enum ObjectKind {
    Fence,
    Semaphore,
    Framebuffer,
    Pipeline,
    PipelineLayout,
    RenderPass,
    ImageView,
    Image,
    DeviceMemory,
    Buffer,
    Swapchain,
    DescriptorPool,
    DescriptorSetLayout,
    CommandPool,
    Sampler,
    ShaderModule,
    Device,
    Surface,
    DebugMessenger,
    Instance,
}

/// A width and a height in pixels.
#[derive(Clone, Copy, Debug, PartialEq, Eq, Hash, Structural)]
pub struct Extent2D {
    pub width: u32,
    pub height: u32,
}

/// A clear colour. Each channel holds the bits of a 32-bit float.
#[derive(Clone, Copy, Debug, PartialEq, Eq, Structural)]
pub struct ClearColor {
    pub r: u32,
    pub g: u32,
    pub b: u32,
    pub a: u32,
}

/// A command recorded into a command buffer.
#[derive(Clone, Copy, Debug, PartialEq, Eq, Structural)]
pub enum RecordedCommand {
    /// Opens a render pass on a framebuffer and clears its attachments.
    /// `depth` holds the bits of a 32-bit float.
    BeginRenderPass {
        render_pass: Handle,
        framebuffer: Handle,
        extent: Extent2D,
        color: ClearColor,
        depth: u32,
    },
    EndRenderPass,
    BindPipeline { pipeline: Handle },
    BindDescriptorSet { layout: Handle, first_set: u32, descriptor_set: Handle },
    BindVertexBuffer { first_binding: u32, buffer: Handle, offset: u64 },
    /// `index_type` is the device's code of the width of the indices.
    BindIndexBuffer { buffer: Handle, offset: u64, index_type: i32 },
    Draw { vertex_count: u32, instance_count: u32, first_vertex: u32, first_instance: u32 },
    DrawIndexed {
        index_count: u32,
        instance_count: u32,
        first_index: u32,
        vertex_offset: i32,
        first_instance: u32,
    },
    DrawIndirect { buffer: Handle, offset: u64, draw_count: u32, stride: u32 },
    DrawIndexedIndirect { buffer: Handle, offset: u64, draw_count: u32, stride: u32 },
}

/// A command for the device.
#[derive(Clone, Copy, Debug, PartialEq, Eq, Structural)]
pub enum DeviceCommand {
    /// Creates a semaphore. Yields its handle.
    CreateSemaphore,
    /// Creates a fence, signaled from the start where `signaled` is set.
    /// Yields its handle.
    CreateFence { signaled: bool },
    /// Blocks, without a timeout, until the fence is signaled.
    WaitForFence { fence: Handle },
    /// Asks the swapchain for its next image, without a timeout; the
    /// semaphore is signaled once the image can be drawn to. Yields the
    /// image's index, or the status that says why there is none.
    AcquireNextImage { swapchain: Handle, semaphore: Handle },
    /// Resets a command buffer and releases what it held.
    ResetCommandBuffer { command_buffer: Handle },
    /// Starts recording into a command buffer.
    BeginCommandBuffer { command_buffer: Handle },
    /// Records one command into a command buffer.
    Record { command_buffer: Handle, command: RecordedCommand },
    /// Finishes recording into a command buffer.
    EndCommandBuffer { command_buffer: Handle },
    /// Puts a fence back into the unsignaled state.
    ResetFence { fence: Handle },
    /// Adds a command buffer to the batch of the next queue submission.
    StageCommandBuffer { command_buffer: Handle },
    /// Submits the staged batch, in the order staged, and empties it. The
    /// batch waits for `wait_semaphore` where colour is written to the
    /// attachments, signals `signal_semaphore` when it has run, and then
    /// signals `fence`.
    QueueSubmit { queue: Handle, wait_semaphore: Handle, signal_semaphore: Handle, fence: Handle },
    /// Hands an image back to the surface once `wait_semaphore` is
    /// signaled. Yields the presentation status.
    QueuePresent { queue: Handle, wait_semaphore: Handle, swapchain: Handle, image_index: u32 },
    /// Blocks until the device has finished all submitted work.
    DeviceWaitIdle,
    /// Returns a command buffer to its pool.
    FreeCommandBuffer { pool: Handle, command_buffer: Handle },
    /// Returns a descriptor set to its pool.
    FreeDescriptorSet { pool: Handle, descriptor_set: Handle },
    /// Destroys an object, or frees it where it is device memory.
    Destroy { kind: ObjectKind, handle: Handle },
}

impl DeviceCommand {
    /// The command buffer that a command records into or resets, if it
    /// does so.
    pub open spec fn recorded_buffer(self) -> Option<Handle> {
        match self {
            DeviceCommand::ResetCommandBuffer { command_buffer } => Some(command_buffer),
            DeviceCommand::BeginCommandBuffer { command_buffer } => Some(command_buffer),
            DeviceCommand::Record { command_buffer, .. } => Some(command_buffer),
            DeviceCommand::EndCommandBuffer { command_buffer } => Some(command_buffer),
            DeviceCommand::FreeCommandBuffer { command_buffer, .. } => Some(command_buffer),
            _ => None,
        }
    }
}

} // verus!
