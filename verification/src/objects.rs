//! Single objects of the device, each a handle with what takes it down.

use vstd::prelude::*;
use crate::command::{DeviceCommand, Extent2D, ObjectKind};
use crate::handle::Handle;
use crate::pass::ShaderModuleInfo;
use crate::shader::{valid_code_length, ShaderCodeError};

verus! {

/// A descriptor pool.
#[derive(Clone, Copy, Debug, PartialEq, Eq, Hash, Structural)]
pub struct DescriptorPool {
    pub pool: Handle,
}

impl DescriptorPool {
    pub fn create(pool: Handle) -> (o: DescriptorPool)
        ensures
            o.pool == pool,
    {
        DescriptorPool { pool }
    }

    /// The command that destroys the object.
    pub fn destroy(&self) -> (command: Option<DeviceCommand>)
        ensures
            command == Some(DeviceCommand::Destroy { kind: ObjectKind::DescriptorPool, handle: self.pool }),
    {
        Some(DeviceCommand::Destroy { kind: ObjectKind::DescriptorPool, handle: self.pool })
    }
}

impl Default for DescriptorPool {
    fn default() -> (o: DescriptorPool)
        ensures
            o.pool.is_null(),
    {
        DescriptorPool { pool: Handle::null() }
    }
}

/// A descriptor set. It goes with its pool.
#[derive(Clone, Copy, Debug, PartialEq, Eq, Hash, Structural)]
pub struct DescriptorSet {
    pub set: Handle,
}

impl DescriptorSet {
    pub fn create(set: Handle) -> (o: DescriptorSet)
        ensures
            o.set == set,
    {
        DescriptorSet { set }
    }

    /// Nothing has to be done to take the object down.
    pub fn destroy(&self) -> (command: Option<DeviceCommand>)
        ensures
            command is None,
    {
        None
    }
}

impl Default for DescriptorSet {
    fn default() -> (o: DescriptorSet)
        ensures
            o.set.is_null(),
    {
        DescriptorSet { set: Handle::null() }
    }
}

/// A framebuffer.
#[derive(Clone, Copy, Debug, PartialEq, Eq, Hash, Structural)]
pub struct FrameBuffer {
    pub buffer: Handle,
}

impl FrameBuffer {
    pub fn new(buffer: Handle) -> (o: FrameBuffer)
        ensures
            o.buffer == buffer,
    {
        FrameBuffer { buffer }
    }

    /// The command that destroys the object.
    pub fn destroy(&self) -> (command: Option<DeviceCommand>)
        ensures
            command == Some(DeviceCommand::Destroy { kind: ObjectKind::Framebuffer, handle: self.buffer }),
    {
        Some(DeviceCommand::Destroy { kind: ObjectKind::Framebuffer, handle: self.buffer })
    }
}

impl Default for FrameBuffer {
    fn default() -> (o: FrameBuffer)
        ensures
            o.buffer.is_null(),
    {
        FrameBuffer { buffer: Handle::null() }
    }
}

/// A render pass.
#[derive(Clone, Copy, Debug, PartialEq, Eq, Hash, Structural)]
pub struct RenderPass {
    pub pass: Handle,
}

impl RenderPass {
    pub fn create(pass: Handle) -> (o: RenderPass)
        ensures
            o.pass == pass,
    {
        RenderPass { pass }
    }

    /// The command that destroys the object.
    pub fn destroy(&self) -> (command: Option<DeviceCommand>)
        ensures
            command == Some(DeviceCommand::Destroy { kind: ObjectKind::RenderPass, handle: self.pass }),
    {
        Some(DeviceCommand::Destroy { kind: ObjectKind::RenderPass, handle: self.pass })
    }
}

impl Default for RenderPass {
    fn default() -> (o: RenderPass)
        ensures
            o.pass.is_null(),
    {
        RenderPass { pass: Handle::null() }
    }
}

/// A pipeline. It is not taken down by itself.
#[derive(Clone, Copy, Debug, PartialEq, Eq, Hash, Structural)]
pub struct Pipeline {
    pub pipeline: Handle,
}

impl Pipeline {
    pub fn create(pipeline: Handle) -> (o: Pipeline)
        ensures
            o.pipeline == pipeline,
    {
        Pipeline { pipeline }
    }

    /// Nothing has to be done to take the object down.
    pub fn destroy(&self) -> (command: Option<DeviceCommand>)
        ensures
            command is None,
    {
        None
    }
}

impl Default for Pipeline {
    fn default() -> (o: Pipeline)
        ensures
            o.pipeline.is_null(),
    {
        Pipeline { pipeline: Handle::null() }
    }
}

/// A queue. It goes with its device.
#[derive(Clone, Copy, Debug, PartialEq, Eq, Hash, Structural)]
pub struct Queue {
    pub queue: Handle,
}

impl Queue {
    pub fn create(queue: Handle) -> (o: Queue)
        ensures
            o.queue == queue,
    {
        Queue { queue }
    }

    /// Nothing has to be done to take the object down.
    pub fn destroy(&self) -> (command: Option<DeviceCommand>)
        ensures
            command is None,
    {
        None
    }
}

impl Default for Queue {
    fn default() -> (o: Queue)
        ensures
            o.queue.is_null(),
    {
        Queue { queue: Handle::null() }
    }
}

/// A sampler.
#[derive(Clone, Copy, Debug, PartialEq, Eq, Hash, Structural)]
pub struct Sampler {
    pub sampler: Handle,
}

impl Sampler {
    pub fn create(sampler: Handle) -> (o: Sampler)
        ensures
            o.sampler == sampler,
    {
        Sampler { sampler }
    }

    /// The command that destroys the object.
    pub fn destroy(&self) -> (command: Option<DeviceCommand>)
        ensures
            command == Some(DeviceCommand::Destroy { kind: ObjectKind::Sampler, handle: self.sampler }),
    {
        Some(DeviceCommand::Destroy { kind: ObjectKind::Sampler, handle: self.sampler })
    }
}

impl Default for Sampler {
    fn default() -> (o: Sampler)
        ensures
            o.sampler.is_null(),
    {
        Sampler { sampler: Handle::null() }
    }
}

/// A shader module.
#[derive(Clone, Copy, Debug, PartialEq, Eq, Hash, Structural)]
pub struct Shader {
    pub module: Handle,
}

impl Shader {
    pub fn new(module: Handle) -> (s: Shader)
        ensures
            s.module == module,
    {
        Shader { module }
    }

    /// What the shader module of a blob of shader code is created with.
    /// A blob that is empty, or whose length is no multiple of four, is
    /// refused with its length.
    pub fn create(code: &[u8]) -> (r: Result<ShaderModuleInfo, ShaderCodeError>)
        ensures
            !valid_code_length(code@.len() as int) ==> r == Err::<ShaderModuleInfo, ShaderCodeError>(
                ShaderCodeError::Length(code@.len() as usize),
            ),
            valid_code_length(code@.len() as int) ==> (r is Ok || r == Err::<ShaderModuleInfo, ShaderCodeError>(
                ShaderCodeError::Alloc,
            )),
            r is Ok ==> r->Ok_0.code_size == code@.len() && r->Ok_0.code@.len() * 4 == code@.len(),
    {
        crate::api::VulkanApi::create_shader_module(code)
    }

    /// The command that destroys the module.
    pub fn destroy(&self) -> (command: DeviceCommand)
        ensures
            command == (DeviceCommand::Destroy { kind: ObjectKind::ShaderModule, handle: self.module }),
    {
        DeviceCommand::Destroy { kind: ObjectKind::ShaderModule, handle: self.module }
    }
}

impl Default for Shader {
    fn default() -> (s: Shader)
        ensures
            s.module.is_null(),
    {
        Shader { module: Handle::null() }
    }
}

/// A swapchain by its handle, its format and its extent.
#[derive(Clone, Copy, Debug, PartialEq, Eq, Hash, Structural)]
pub struct SwapChain {
    pub swapchain: Handle,
    pub format: i32,
    pub extent: Extent2D,
}

impl SwapChain {
    pub fn new(swapchain: Handle, format: i32, extent: Extent2D) -> (s: SwapChain)
        ensures
            s == (SwapChain { swapchain, format, extent }),
    {
        SwapChain { swapchain, format, extent }
    }

    /// Nothing is done to take the swapchain down here: its owner does it.
    pub fn destroy(&self) -> (command: Option<DeviceCommand>)
        ensures
            command is None,
    {
        None
    }
}

impl Default for SwapChain {
    fn default() -> (s: SwapChain)
        ensures
            s == (SwapChain { swapchain: Handle { raw: 0 }, format: 0, extent: Extent2D { width: 0, height: 0 } }),
    {
        SwapChain { swapchain: Handle::null(), format: 0, extent: Extent2D { width: 0, height: 0 } }
    }
}

} // verus!
