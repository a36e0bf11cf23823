//! A scene of one mesh, drawn through the encoder interface once a frame.

use vstd::prelude::*;
use crate::command::{ClearColor, DeviceCommand, RecordedCommand};
use crate::device::{AcquireResult, DeviceError, FramePhase, F32_ONE, F32_ZERO, open_pass};
use crate::gpu::{
    recorded, EncoderError, EncoderState, GPUBindGroup, GPUBindGroupLayout, GPUBuffer,
    GPUCommandBuffer, GPUCommandEncoder, GPUDevice, GPUPipelineLayout, GPUQueue,
    GPURenderPassEncoder, GPURenderPipeline, GPUSampler, GPUShaderModule, GPUTexture,
    GPUTextureView,
};
use crate::plan::push_all;
use crate::structs::{GPUIndexFormat, VK_INDEX_TYPE_UINT32};

verus! {

/// A mesh on the device.
#[derive(Clone, Copy, Debug, PartialEq, Eq, Structural)]
pub struct Mesh {
    /// The number of indices that are drawn.
    pub index_count: u32,
    pub vertices: GPUBuffer,
    pub indices: GPUBuffer,
}

/// The format code of three 32-bit floats.
pub const FORMAT_R32G32B32_SFLOAT: i32 = 106;

/// The format code of two 32-bit floats.
pub const FORMAT_R32G32_SFLOAT: i32 = 103;

/// The input rate code of data that advances with each vertex.
pub const VERTEX_INPUT_RATE_VERTEX: i32 = 0;

/// The size in bytes of a vertex: a position of three 32-bit floats and a
/// texture coordinate of two.
pub const VERTEX_SIZE: u32 = 20;

/// How the vertex buffer is read.
#[derive(Clone, Copy, Debug, PartialEq, Eq, Structural)]
pub struct VertexBinding {
    pub binding: u32,
    /// The distance in bytes from one vertex to the next.
    pub stride: u32,
    pub input_rate: i32,
}

/// Where one attribute of a vertex stands.
#[derive(Clone, Copy, Debug, PartialEq, Eq, Structural)]
pub struct VertexAttribute {
    pub binding: u32,
    pub location: u32,
    pub format: i32,
    /// The offset in bytes from the start of the vertex.
    pub offset: u32,
}

impl Mesh {
    pub fn create(index_count: u32, vertices: GPUBuffer, indices: GPUBuffer) -> (m: Mesh)
        ensures
            m == (Mesh { index_count, vertices, indices }),
    {
        Mesh { index_count, vertices, indices }
    }

    /// The commands that take the buffers of the mesh down: none, for they
    /// go with the device.
    pub fn destroy(&self) -> (plan: Vec<DeviceCommand>)
        ensures
            plan@.len() == 0,
    {
        Vec::new()
    }

    /// How the vertex buffer is read: vertex by vertex, from binding 0.
    pub fn binding_description() -> (b: VertexBinding)
        ensures
            b == (VertexBinding { binding: 0, stride: VERTEX_SIZE, input_rate: VERTEX_INPUT_RATE_VERTEX }),
    {
        VertexBinding { binding: 0, stride: VERTEX_SIZE, input_rate: VERTEX_INPUT_RATE_VERTEX }
    }

    /// Where the attributes of a vertex stand: the position first, then
    /// the texture coordinate behind its twelve bytes.
    pub fn attribute_descriptions() -> (a: [VertexAttribute; 2])
        ensures
            a@ == seq![
                VertexAttribute { binding: 0, location: 0, format: FORMAT_R32G32B32_SFLOAT, offset: 0 },
                VertexAttribute { binding: 0, location: 1, format: FORMAT_R32G32_SFLOAT, offset: 12 },
            ],
    {
        let a: [VertexAttribute; 2] = [
            VertexAttribute { binding: 0, location: 0, format: FORMAT_R32G32B32_SFLOAT, offset: 0 },
            VertexAttribute { binding: 0, location: 1, format: FORMAT_R32G32_SFLOAT, offset: 12 },
        ];
        assert(a@ =~= seq![
            VertexAttribute { binding: 0, location: 0, format: FORMAT_R32G32B32_SFLOAT, offset: 0 },
            VertexAttribute { binding: 0, location: 1, format: FORMAT_R32G32_SFLOAT, offset: 12 },
        ]);
        a
    }
}

impl Default for Mesh {
    fn default() -> (m: Mesh)
        ensures
            m.index_count == 0,
            m.vertices.buffer.is_null(),
            m.indices.buffer.is_null(),
    {
        Mesh { index_count: 0, vertices: GPUBuffer::null(), indices: GPUBuffer::null() }
    }
}

/// What the sample draws.
#[derive(Clone, Copy, Debug, PartialEq, Eq, Structural)]
pub struct SampleData {
    pub mesh: Mesh,
}

/// The sample: a device of the encoder interface and what is drawn on it.
#[derive(Clone, Debug)]
pub struct Sample {
    pub graphics: GPUDevice,
    pub vertex_shader_module: GPUShaderModule,
    pub fragment_shader_module: GPUShaderModule,
    pub camera_uniform_buffer: GPUBuffer,
    pub albedo_texture: GPUTexture,
    pub albedo_view: GPUTextureView,
    pub albedo_sampler: GPUSampler,
    pub data: SampleData,
}

/// The commands that draw the mesh in an open pass of `device`: the
/// descriptor set of the bound image and the pipeline are bound, then the
/// vertex buffer to slot 0 and the index buffer of 32-bit indices, and all
/// indices are drawn once.
pub open spec fn scene_plan(device: &GPUDevice, mesh: Mesh) -> Seq<DeviceCommand> {
    seq![
        recorded(
            device,
            RecordedCommand::BindDescriptorSet {
                layout: device.data.context.pipeline_layout,
                first_set: 0,
                descriptor_set: device.handle.data.descriptor_sets@[device.handle.swap_index as int],
            },
        ),
        recorded(device, RecordedCommand::BindPipeline { pipeline: device.data.context.pipeline }),
        recorded(
            device,
            RecordedCommand::BindVertexBuffer { first_binding: 0, buffer: mesh.vertices.buffer, offset: 0 },
        ),
        recorded(
            device,
            RecordedCommand::BindIndexBuffer {
                buffer: mesh.indices.buffer,
                offset: 0,
                index_type: VK_INDEX_TYPE_UINT32,
            },
        ),
        recorded(
            device,
            RecordedCommand::DrawIndexed {
                index_count: mesh.index_count,
                instance_count: 1,
                first_index: 0,
                vertex_offset: 0,
                first_instance: 0,
            },
        ),
    ]
}

/// The commands that record the whole frame of the sample: a pass is
/// opened, the mesh is drawn, the pass is closed and the command buffer
/// finished.
pub open spec fn contents_plan(device: &GPUDevice, mesh: Mesh) -> Seq<DeviceCommand> {
    open_pass(
        device.data.context.render_pass,
        device.data.context.framebuffers@[device.handle.swap_index as int],
        device.handle.data.swapchain.extent,
        device.encoder_buffer(),
        Some(ClearColor { r: F32_ZERO, g: F32_ZERO, b: F32_ZERO, a: F32_ONE }),
        Some(F32_ONE),
    ) + scene_plan(device, mesh) + seq![
        recorded(device, RecordedCommand::EndRenderPass),
        DeviceCommand::EndCommandBuffer { command_buffer: device.encoder_buffer() },
    ]
}

impl Sample {
    /// The sample on a device, with the buffer of its camera and its mesh.
    pub fn create(graphics: GPUDevice, camera_uniform_buffer: GPUBuffer, mesh: Mesh) -> (s: Sample)
        ensures
            s.graphics == graphics,
            s.camera_uniform_buffer == camera_uniform_buffer,
            s.data.mesh == mesh,
            s.albedo_texture == crate::gpu::unloaded_texture(),
    {
        let albedo_texture = graphics.load_texture();
        let albedo_view = albedo_texture.create_view();
        let albedo_sampler = graphics.create_sampler();
        let vertex_shader_module = graphics.create_shader_module();
        let fragment_shader_module = graphics.create_shader_module();
        Sample {
            graphics,
            vertex_shader_module,
            fragment_shader_module,
            camera_uniform_buffer,
            albedo_texture,
            albedo_view,
            albedo_sampler,
            data: SampleData { mesh },
        }
    }

    /// Takes note of the window's new size. A window without area is
    /// minimised, and changes nothing.
    pub fn resize(&mut self, width: u32, height: u32)
        ensures
            width != 0 && height != 0 ==> final(self).graphics.handle == (crate::device::VulkanDevice {
                resized: true,
                ..old(self).graphics.handle
            }),
            width == 0 || height == 0 ==> final(self).graphics.handle == old(self).graphics.handle,
            final(self).graphics.data == old(self).graphics.data,
            final(self).data == old(self).data,
    {
        if width != 0 && height != 0 {
            self.graphics.resized(true);
        }
    }

    /// Opens the pass of the frame.
    pub fn begin_render_pass(&mut self, command_encoder: &GPUCommandEncoder) -> (r: Result<
        Vec<DeviceCommand>,
        EncoderError,
    >)
        ensures
            final(self).graphics.handle == old(self).graphics.handle,
            final(self).graphics.data.context == old(self).graphics.data.context,
            final(self).data == old(self).data,
            r is Ok <==> old(self).graphics.recording_refusal() is None && old(self).graphics.data.encoder
                == EncoderState::Idle,
            r is Ok ==> final(self).graphics.data.encoder == EncoderState::PassOpen,
            r is Ok ==> r->Ok_0@ == open_pass(
                old(self).graphics.data.context.render_pass,
                old(self).graphics.data.context.framebuffers@[old(self).graphics.handle.swap_index as int],
                old(self).graphics.handle.data.swapchain.extent,
                old(self).graphics.encoder_buffer(),
                Some(ClearColor { r: F32_ZERO, g: F32_ZERO, b: F32_ZERO, a: F32_ONE }),
                Some(F32_ONE),
            ),
            r is Err ==> final(self).graphics == old(self).graphics,
            r is Err ==> r->Err_0 == (match old(self).graphics.recording_refusal() {
                Some(e) => e,
                None => EncoderError::PassOpen,
            }),
    {
        let r = command_encoder.begin_render_pass(&mut self.graphics);
        proof {
            if r is Err {
                assert(self.graphics.data == old(self).graphics.data);
            }
        }
        r
    }

    /// The layout, the pipeline and the bind group that the scene is drawn
    /// with.
    pub fn create_pipeline(&self) -> (GPUPipelineLayout, GPURenderPipeline, GPUBindGroupLayout, GPUBindGroup) {
        let bind_group_layout = self.graphics.create_bind_group_layout();
        let camera_bind_group = self.graphics.create_bind_group();
        let pipeline_layout = self.graphics.create_pipeline_layout();
        let pipeline = self.graphics.create_render_pipeline();
        (pipeline_layout, pipeline, bind_group_layout, camera_bind_group)
    }

    /// Draws the mesh in the open pass. Refused outside an open pass, and
    /// where the device has no descriptor set for the bound image.
    pub fn render_scene(&self, render_pass_encoder: &GPURenderPassEncoder) -> (r: Result<
        Vec<DeviceCommand>,
        EncoderError,
    >)
        ensures
            r is Ok <==> self.graphics.pass_refusal() is None && self.graphics.handle.swap_index
                < self.graphics.handle.data.descriptor_sets@.len(),
            r is Ok ==> r->Ok_0@ == scene_plan(&self.graphics, self.data.mesh),
            r is Err ==> r->Err_0 == (match self.graphics.pass_refusal() {
                Some(e) => e,
                None => EncoderError::NoImageResources,
            }),
    {
        let mut plan: Vec<DeviceCommand> = Vec::new();
        match render_pass_encoder.set_bind_group(&self.graphics) {
            Ok(c) => plan.push(c),
            Err(e) => {
                return Err(e);
            },
        }
        match render_pass_encoder.set_pipeline(&self.graphics) {
            Ok(c) => plan.push(c),
            Err(e) => {
                return Err(e);
            },
        }
        match render_pass_encoder.set_vertex_buffer(&self.graphics, 0, &self.data.mesh.vertices, None) {
            Ok(c) => plan.push(c),
            Err(e) => {
                return Err(e);
            },
        }
        match render_pass_encoder.set_index_buffer(
            &self.graphics,
            &self.data.mesh.indices,
            GPUIndexFormat::Uint32,
            None,
        ) {
            Ok(c) => plan.push(c),
            Err(e) => {
                return Err(e);
            },
        }
        match render_pass_encoder.draw_indexed(&self.graphics, self.data.mesh.index_count, None, None, None, None) {
            Ok(c) => plan.push(c),
            Err(e) => {
                return Err(e);
            },
        }
        assert(plan@ =~= scene_plan(&self.graphics, self.data.mesh));
        Ok(plan)
    }

    /// Whether the frame of the sample can be recorded: the frame loop
    /// records, nothing is being recorded yet, and the bound image has its
    /// command buffer, its framebuffer and its descriptor set.
    pub open spec fn can_render(&self) -> bool {
        &&& self.graphics.recording_refusal() is None
        &&& self.graphics.data.encoder == EncoderState::Idle
        &&& self.graphics.handle.swap_index < self.graphics.handle.data.descriptor_sets@.len()
    }

    /// Records the frame of the sample into the command buffer of the
    /// bound image and hands the buffer over for submission. Where the
    /// frame cannot be recorded, nothing is recorded and nothing changes.
    pub fn render_contents(&mut self) -> (r: Result<Vec<DeviceCommand>, EncoderError>)
        ensures
            final(self).graphics.handle == old(self).graphics.handle,
            final(self).data == old(self).data,
            r is Ok <==> old(self).can_render(),
            r is Ok ==> r->Ok_0@ == contents_plan(&old(self).graphics, old(self).data.mesh),
            r is Ok ==> final(self).graphics.data.encoder == EncoderState::Idle,
            r is Ok && old(self).graphics.handle.swap_index < old(self).graphics.data.context.command_buffer_queues@.len() ==> final(self).graphics.data.context.requeued_from(
                &old(self).graphics.data.context,
                old(self).graphics.handle.swap_index as int,
                old(self).graphics.handed_over().push(old(self).graphics.encoder_buffer()),
            ),
            r is Ok && old(self).graphics.handle.swap_index >= old(self).graphics.data.context.command_buffer_queues@.len()
                ==> final(self).graphics.data.context == old(self).graphics.data.context,
            r is Err ==> final(self).graphics == old(self).graphics,
            r is Err ==> r->Err_0 == (match old(self).graphics.recording_refusal() {
                Some(e) => e,
                None => if old(self).graphics.data.encoder != EncoderState::Idle {
                    EncoderError::PassOpen
                } else {
                    EncoderError::NoImageResources
                },
            }),
    {
        if self.graphics.handle.phase == FramePhase::Recording && self.graphics.data.encoder == EncoderState::Idle
            && self.graphics.handle.swap_index < self.graphics.data.context.command_buffers.len()
            && self.graphics.handle.swap_index < self.graphics.data.context.framebuffers.len()
            && self.graphics.handle.swap_index >= self.graphics.handle.data.descriptor_sets.len() {
            return Err(EncoderError::NoImageResources);
        }
        let queue: GPUQueue = self.graphics.create_queue();
        let command_encoder: GPUCommandEncoder = self.graphics.create_command_encoder();
        let render_pass_encoder = GPURenderPassEncoder {  };
        let mut plan = match self.begin_render_pass(&command_encoder) {
            Ok(plan) => plan,
            Err(e) => {
                return Err(e);
            },
        };
        let ghost opened = self.graphics;
        let _pipeline = self.create_pipeline();
        match self.render_scene(&render_pass_encoder) {
            Ok(scene) => {
                push_all(&mut plan, &scene);
            },
            Err(e) => {
                // Not reached: the pass was opened above, for an image that has all it needs.
                proof {
                    assert(false);
                }
                return Err(e);
            },
        }
        match render_pass_encoder.end(&mut self.graphics) {
            Ok(c) => plan.push(c),
            Err(e) => {
                // Not reached: the pass was opened above, for an image that has all it needs.
                proof {
                    assert(false);
                }
                return Err(e);
            },
        }
        let command_buffer: GPUCommandBuffer = match command_encoder.finish(&mut self.graphics) {
            Ok((buffer, c)) => {
                plan.push(c);
                buffer
            },
            Err(e) => {
                // Not reached: the pass was opened above, for an image that has all it needs.
                proof {
                    assert(false);
                }
                return Err(e);
            },
        };
        let mut finished: Vec<GPUCommandBuffer> = Vec::new();
        finished.push(command_buffer);
        queue.submit(&mut self.graphics, &finished);
        proof {
            assert(scene_plan(&opened, self.data.mesh) == scene_plan(&old(self).graphics, old(self).data.mesh));
            assert(plan@ =~= contents_plan(&old(self).graphics, old(self).data.mesh));
            assert(Seq::new(finished@.len(), |k: int| finished@[k].command_buffer) =~= seq![
                old(self).graphics.encoder_buffer(),
            ]);
            assert(old(self).graphics.handed_over() + seq![old(self).graphics.encoder_buffer()] =~= old(self).graphics.handed_over().push(old(self).graphics.encoder_buffer()));
        }
        Ok(plan)
    }

    /// Starts the next frame: where the swapchain no longer fits the
    /// window, it is given up, and the frame is left out; else the frame
    /// begins. What comes of asking for the image goes to the device's
    /// `image_acquired`.
    pub fn update(&mut self) -> (r: Result<Vec<DeviceCommand>, DeviceError>)
        requires
            old(self).graphics.wf(),
        ensures
            final(self).graphics.wf(),
            final(self).data == old(self).data,
            r is Ok <==> old(self).graphics.handle.phase == FramePhase::Idle,
            r is Ok && old(self).graphics.handle.resized ==> r->Ok_0@ == old(self).graphics.handle.invalidation_plan()
                + old(self).graphics.data.context.destroy_plan() && final(self).graphics.handle.phase
                == FramePhase::Invalidated && final(self).graphics.data.context.spec_is_null(),
            r is Ok && !old(self).graphics.handle.resized ==> r->Ok_0@ == old(self).graphics.handle.begin_frame_plan()
                && final(self).graphics.handle.phase == FramePhase::Acquiring && final(self).graphics.data == old(self).graphics.data,
            r is Ok ==> crate::laws::transition(
                old(self).graphics.handle,
                if old(self).graphics.handle.resized {
                    crate::laws::FrameEvent::Reset
                } else {
                    crate::laws::FrameEvent::BeginFrame
                },
                final(self).graphics.handle,
                if old(self).graphics.handle.resized {
                    old(self).graphics.handle.invalidation_plan()
                } else {
                    r->Ok_0@
                },
            ),
            r is Err ==> r->Err_0 == (DeviceError::WrongPhase { phase: old(self).graphics.handle.phase }),
            r is Err ==> final(self).graphics == old(self).graphics,
    {
        if !self.graphics.is_valid() {
            self.graphics.reset()
        } else {
            self.graphics.begin_frame()
        }
    }

    /// Does nothing.
    pub fn test() {
    }

    /// Shuts the sample down: what it holds on the device goes with the
    /// device.
    pub fn destroy(&mut self) -> (plan: Vec<DeviceCommand>)
        ensures
            plan@ == old(self).graphics.data.context.destroy_plan() + old(self).graphics.handle.destroy_plan(),
            final(self).graphics.data.context.spec_is_null(),
            final(self).graphics.handle.invalidated_from(&old(self).graphics.handle),
            final(self).data == old(self).data,
    {
        self.graphics.destroy()
    }
}

/// What the application counts.
#[derive(Clone, Copy, Debug, PartialEq, Eq, Structural)]
pub struct AppData {
    pub models: usize,
}

impl Default for AppData {
    fn default() -> (d: AppData)
        ensures
            d.models == 1,
    {
        AppData { models: 1 }
    }
}

/// The application.
#[derive(Clone, Debug)]
pub struct App {
    pub data: AppData,
    pub sample: Sample,
}

impl App {
    /// The application around a sample, with one model.
    pub fn create(sample: Sample) -> (app: App)
        ensures
            app.sample == sample,
            app.data.models == 1,
    {
        App { data: AppData::default(), sample }
    }

    /// Takes note of the window's new size.
    pub fn resize(&mut self, width: u32, height: u32)
        ensures
            width != 0 && height != 0 ==> final(self).sample.graphics.handle == (crate::device::VulkanDevice {
                resized: true,
                ..old(self).sample.graphics.handle
            }),
            width == 0 || height == 0 ==> final(self).sample.graphics.handle == old(self).sample.graphics.handle,
            final(self).sample.graphics.data == old(self).sample.graphics.data,
            final(self).data == old(self).data,
    {
        self.sample.resize(width, height);
    }

    /// Starts the next frame of the sample.
    pub fn update(&mut self) -> (r: Result<Vec<DeviceCommand>, DeviceError>)
        requires
            old(self).sample.graphics.wf(),
        ensures
            final(self).sample.graphics.wf(),
            final(self).data == old(self).data,
            r is Ok <==> old(self).sample.graphics.handle.phase == FramePhase::Idle,
            r is Ok && old(self).sample.graphics.handle.resized ==> r->Ok_0@ == old(self).sample.graphics.handle.invalidation_plan() + old(self).sample.graphics.data.context.destroy_plan(),
            r is Ok && !old(self).sample.graphics.handle.resized ==> r->Ok_0@ == old(self).sample.graphics.handle.begin_frame_plan(),
            r is Err ==> r->Err_0 == (DeviceError::WrongPhase { phase: old(self).sample.graphics.handle.phase }),
    {
        self.sample.update()
    }

    /// Shuts the application down.
    pub fn destroy(&mut self) -> (plan: Vec<DeviceCommand>)
        ensures
            plan@ == old(self).sample.graphics.data.context.destroy_plan() + old(self).sample.graphics.handle.destroy_plan(),
            final(self).sample.graphics.data.context.spec_is_null(),
            final(self).data == old(self).data,
    {
        self.sample.destroy()
    }
}

} // verus!
