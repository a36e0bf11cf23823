use std::collections::HashMap;

use deimos::api::VulkanApi;
use deimos::command::{ClearColor, DeviceCommand, Extent2D, ObjectKind, RecordedCommand};
use deimos::device::{
    AcquireResult, CommandResources, DeviceError, FramePhase, PresentResult, RenderTargets,
    SwapchainResources, VulkanDevice, VulkanDeviceData, F32_DARK, F32_ONE, F32_ZERO,
};
use deimos::handle::Handle;
use deimos::swap::Swapchain;
use deimos::sync::VulkanDeviceSync;
use deimos::texture::{Texture, TextureView};

fn h(raw: u64) -> Handle {
    Handle::new(raw)
}

fn available(slot: u64) -> Handle {
    h(100 + 3 * slot)
}

fn finished(slot: u64) -> Handle {
    h(101 + 3 * slot)
}

fn fence(slot: u64) -> Handle {
    h(102 + 3 * slot)
}

fn sync_for(slots: usize, images: usize) -> VulkanDeviceSync {
    let mut created = Vec::new();
    for k in 0..slots as u64 {
        created.push(available(k));
        created.push(finished(k));
        created.push(fence(k));
    }
    VulkanDeviceSync::create(slots, images, &created).unwrap()
}

fn swapchain_for(images: usize, generation: u64) -> Swapchain {
    let base = 1000 * generation;
    let textures = (0..images as u64).map(|i| Texture::new(h(base + 10 + i), Handle::null(), 0)).collect();
    let views = (0..images as u64).map(|i| TextureView::new(h(base + 20 + i))).collect();
    Swapchain::new(h(base + 1), 50, Extent2D { width: 800, height: 600 }, textures, views)
}

fn resources_for(images: usize, generation: u64) -> SwapchainResources {
    let base = 1000 * generation;
    SwapchainResources {
        swapchain: swapchain_for(images, generation),
        blit_albedo_texture: Texture::new(h(base + 2), h(base + 3), 1),
        blit_albedo_view: TextureView::new(h(base + 4)),
        blit_depth_texture: Texture::new(h(base + 5), h(base + 6), 1),
        blit_depth_view: TextureView::new(h(base + 7)),
        uniform_buffers: (0..images as u64).map(|i| (h(base + 30 + i), h(base + 40 + i))).collect(),
        render_pass: h(base + 8),
        pipeline_layout: h(base + 9),
        pipeline: h(base + 50),
        framebuffers: (0..images as u64).map(|i| h(base + 60 + i)).collect(),
        descriptor_pool: h(base + 51),
        descriptor_sets: (0..images as u64).map(|i| h(base + 70 + i)).collect(),
        command_buffers: (0..images as u64).map(|i| h(base + 80 + i)).collect(),
    }
}

fn data_for(images: usize, generation: u64) -> VulkanDeviceData {
    let r = resources_for(images, generation);
    VulkanDeviceData {
        back_albedo_texture: Texture::new(h(11), h(12), 11),
        back_albedo_view: TextureView::new(h(13)),
        back_albedo_sampler: h(14),
        blit_albedo_texture: r.blit_albedo_texture,
        blit_albedo_view: r.blit_albedo_view,
        blit_depth_texture: r.blit_depth_texture,
        blit_depth_view: r.blit_depth_view,
        surface: h(15),
        samples: 4,
        graphics_queue: h(16),
        present_queue: h(17),
        swapchain: r.swapchain,
        render_pass: r.render_pass,
        descriptor_set_layout: h(18),
        pipeline_layout: r.pipeline_layout,
        pipeline: r.pipeline,
        framebuffers: r.framebuffers,
        command_pool: h(19),
        uniform_buffers: r.uniform_buffers,
        descriptor_pool: r.descriptor_pool,
        descriptor_sets: r.descriptor_sets,
        command_buffers: r.command_buffers,
        command_buffer_queues: Vec::new(),
    }
}

fn api() -> VulkanApi {
    VulkanApi { instance: h(1), logical_device: h(2), physical_device: h(3) }
}

fn device_for(slots: usize, images: usize) -> VulkanDevice {
    VulkanDevice::create(api(), data_for(images, 1), sync_for(slots, images), Some(h(20))).unwrap()
}

/// The device's side of the timeline, kept as the commands come in.
struct Gpu {
    next: u64,
    completed: u64,
    fence_of: HashMap<u64, u64>,
    last_use: HashMap<u64, u64>,
    staged: Vec<u64>,
    waits: Vec<u64>,
    submissions: Vec<Vec<u64>>,
    presents: Vec<u32>,
    idles: usize,
}

impl Gpu {
    fn new() -> Gpu {
        Gpu {
            next: 0,
            completed: 0,
            fence_of: HashMap::new(),
            last_use: HashMap::new(),
            staged: Vec::new(),
            waits: Vec::new(),
            submissions: Vec::new(),
            presents: Vec::new(),
            idles: 0,
        }
    }

    fn busy(&self, buffer: Handle) -> bool {
        matches!(self.last_use.get(&buffer.raw), Some(s) if *s >= self.completed)
    }

    fn pending(&self, fence: Handle) -> bool {
        matches!(self.fence_of.get(&fence.raw), Some(s) if *s >= self.completed)
    }

    fn run(&mut self, commands: &[DeviceCommand]) {
        for command in commands {
            match *command {
                DeviceCommand::ResetCommandBuffer { command_buffer }
                | DeviceCommand::BeginCommandBuffer { command_buffer }
                | DeviceCommand::Record { command_buffer, .. }
                | DeviceCommand::EndCommandBuffer { command_buffer }
                | DeviceCommand::FreeCommandBuffer { command_buffer, .. } => {
                    assert!(!self.busy(command_buffer), "{:?} while its buffer is in use", command);
                }
                DeviceCommand::ResetFence { fence } => {
                    assert!(!self.pending(fence), "{:?} while it is pending", command);
                }
                DeviceCommand::WaitForFence { fence } => {
                    self.waits.push(fence.raw);
                    if self.pending(fence) {
                        self.completed = self.fence_of[&fence.raw] + 1;
                    }
                }
                DeviceCommand::DeviceWaitIdle => {
                    self.idles += 1;
                    self.completed = self.next;
                }
                DeviceCommand::StageCommandBuffer { command_buffer } => {
                    self.staged.push(command_buffer.raw);
                }
                DeviceCommand::QueueSubmit { fence, .. } => {
                    assert!(!self.pending(fence), "{:?} with a pending fence", command);
                    for b in &self.staged {
                        self.last_use.insert(*b, self.next);
                    }
                    self.fence_of.insert(fence.raw, self.next);
                    self.submissions.push(std::mem::take(&mut self.staged));
                    self.next += 1;
                }
                DeviceCommand::QueuePresent { image_index, .. } => {
                    self.presents.push(image_index);
                }
                DeviceCommand::FreeDescriptorSet { .. } | DeviceCommand::Destroy { .. } => {
                    assert_eq!(self.completed, self.next, "{:?} before the device is idle", command);
                }
                _ => {}
            }
        }
    }
}

/// One whole frame without recording anything, on image `image`.
fn frame(device: &mut VulkanDevice, gpu: &mut Gpu, image: u32, present: PresentResult) -> Vec<DeviceCommand> {
    let mut all = Vec::new();
    let begin = device.begin_frame().unwrap();
    gpu.run(&begin);
    all.extend(begin);
    let bound = device.image_acquired(AcquireResult::Acquired { image_index: image }).unwrap();
    gpu.run(&bound);
    all.extend(bound);
    let end = device.end_frame().unwrap();
    gpu.run(&end);
    all.extend(end);
    let show = device.frame_submitted().unwrap();
    gpu.run(&[show]);
    all.push(show);
    let after = device.frame_presented(present).unwrap();
    gpu.run(&after);
    all.extend(after);
    all
}

#[test]
fn device_failure_names_the_phase() {
    let mut d = device_for(2, 3);
    assert_eq!(d.device_failure(-4), DeviceError::Native { stage: FramePhase::Idle, code: -4 });
    d.begin_frame().unwrap();
    assert_eq!(d.device_failure(-1), DeviceError::Native { stage: FramePhase::Acquiring, code: -1 });
}

#[test]
fn well_formedness_can_be_asked() {
    let mut d = device_for(2, 3);
    assert!(d.is_well_formed());
    assert!(d.sync.is_well_formed());
    let mut gpu = Gpu::new();
    frame(&mut d, &mut gpu, 1, PresentResult::Suboptimal);
    assert!(d.is_well_formed());
    let mut broken = device_for(2, 3);
    broken.frame_index = 2;
    assert!(!broken.is_well_formed());
    let mut broken = device_for(2, 3);
    broken.data.command_buffers.pop();
    assert!(!broken.is_well_formed());
    let mut broken = device_for(2, 3);
    broken.data.command_buffer_queues[1].push(h(1));
    assert!(!broken.is_well_formed());
    let mut broken = device_for(2, 3);
    broken.sync.fences_in_flight[1] = Handle::null();
    assert!(!broken.is_well_formed());
    assert!(!broken.sync.is_well_formed());
    let mut broken = device_for(2, 3);
    broken.phase = FramePhase::Recording;
    assert!(!broken.is_well_formed());
    let mut broken = device_for(2, 3);
    broken.phase = FramePhase::Invalidated;
    assert!(!broken.is_well_formed());
}

#[test]
fn create_starts_between_frames() {
    let d = device_for(2, 3);
    assert_eq!(d.phase, FramePhase::Idle);
    assert_eq!(d.frame_index, 0);
    assert_eq!(d.swap_index, 0);
    assert!(!d.resized);
    assert!(d.is_valid());
    assert_eq!(d.data.command_buffer_queues.len(), 3);
    assert!(d.data.command_buffer_queues.iter().all(|q| q.is_empty()));
    assert_eq!(d.get_current_extent(), Extent2D { width: 800, height: 600 });
    assert_eq!(d.get_current_format(), 50);
    assert_eq!(d.wait_until_idle(), DeviceCommand::DeviceWaitIdle);
}

#[test]
fn create_refuses_mismatched_counts() {
    let mut data = data_for(3, 1);
    data.framebuffers.pop();
    assert_eq!(
        VulkanDevice::create(api(), data, sync_for(2, 3), None).err(),
        Some(DeviceError::ResourceCount)
    );
    assert_eq!(
        VulkanDevice::create(api(), data_for(3, 1), sync_for(2, 2), None).err(),
        Some(DeviceError::ResourceCount)
    );
    let mut data = data_for(3, 1);
    data.command_buffers.push(h(9999));
    assert_eq!(
        VulkanDevice::create(api(), data, sync_for(2, 3), None).err(),
        Some(DeviceError::ResourceCount)
    );
    assert_eq!(
        VulkanDevice::create(api(), data_for(0, 1), sync_for(2, 0), None).err(),
        Some(DeviceError::ResourceCount)
    );
}

#[test]
fn command_buffers_shared_between_images_are_refused() {
    let mut data = data_for(3, 1);
    data.command_buffers[2] = data.command_buffers[0];
    assert_eq!(
        VulkanDevice::create(api(), data, sync_for(2, 3), None).err(),
        Some(DeviceError::SharedCommandBuffer)
    );
    let mut data = data_for(3, 1);
    data.command_buffers[2] = data.command_buffers[0];
    data.framebuffers.pop();
    assert_eq!(
        VulkanDevice::create(api(), data, sync_for(2, 3), None).err(),
        Some(DeviceError::ResourceCount)
    );

    let mut d = device_for(2, 3);
    d.begin_frame().unwrap();
    d.image_acquired(AcquireResult::OutOfDate).unwrap();
    let mut r = resources_for(3, 2);
    r.command_buffers[1] = r.command_buffers[2];
    assert_eq!(d.recreate_swapchain(r).err(), Some(DeviceError::SharedCommandBuffer));
    assert_eq!(d.phase, FramePhase::Invalidated);

    let mut broken = device_for(2, 3);
    broken.data.command_buffers[1] = broken.data.command_buffers[0];
    assert!(!broken.is_well_formed());
}

#[test]
fn begin_frame_waits_for_the_slot_fence_then_acquires() {
    let mut d = device_for(2, 3);
    let plan = d.begin_frame().unwrap();
    assert_eq!(
        plan,
        vec![
            DeviceCommand::WaitForFence { fence: fence(0) },
            DeviceCommand::AcquireNextImage { swapchain: h(1001), semaphore: available(0) },
        ]
    );
    assert_eq!(d.phase, FramePhase::Acquiring);
    assert_eq!(d.sync.in_flight_fence, fence(0));
    assert_eq!(d.begin_frame().err(), Some(DeviceError::WrongPhase { phase: FramePhase::Acquiring }));
}

#[test]
fn first_acquisition_of_an_image_waits_for_nothing() {
    let mut d = device_for(2, 3);
    d.begin_frame().unwrap();
    let plan = d.image_acquired(AcquireResult::Acquired { image_index: 2 }).unwrap();
    assert!(plan.is_empty());
    assert_eq!(d.phase, FramePhase::Recording);
    assert_eq!(d.swap_index, 2);
    assert_eq!(d.sync.textures_in_flight, vec![Handle::null(), Handle::null(), fence(0)]);
}

#[test]
fn image_acquired_failures_change_nothing() {
    let mut d = device_for(2, 3);
    assert_eq!(
        d.image_acquired(AcquireResult::Acquired { image_index: 0 }).err(),
        Some(DeviceError::WrongPhase { phase: FramePhase::Idle })
    );
    d.begin_frame().unwrap();
    assert_eq!(
        d.image_acquired(AcquireResult::Failed { code: -4 }).err(),
        Some(DeviceError::Native { stage: FramePhase::Acquiring, code: -4 })
    );
    assert_eq!(d.phase, FramePhase::Acquiring);
    assert_eq!(
        d.image_acquired(AcquireResult::Acquired { image_index: 3 }).err(),
        Some(DeviceError::ImageIndex { image_index: 3 })
    );
    assert_eq!(d.phase, FramePhase::Acquiring);
    assert_eq!(d.sync.textures_in_flight, vec![Handle::null(); 3]);
}

#[test]
fn empty_frame_submits_exactly_one_cleared_buffer() {
    let mut d = device_for(2, 3);
    d.begin_frame().unwrap();
    d.image_acquired(AcquireResult::Acquired { image_index: 1 }).unwrap();
    let plan = d.end_frame().unwrap();
    let buffer = h(1081);
    assert_eq!(
        plan,
        vec![
            DeviceCommand::ResetCommandBuffer { command_buffer: buffer },
            DeviceCommand::BeginCommandBuffer { command_buffer: buffer },
            DeviceCommand::Record {
                command_buffer: buffer,
                command: RecordedCommand::BeginRenderPass {
                    render_pass: h(1008),
                    framebuffer: h(1061),
                    extent: Extent2D { width: 800, height: 600 },
                    color: ClearColor { r: F32_DARK, g: F32_DARK, b: F32_DARK, a: F32_ONE },
                    depth: F32_ONE,
                },
            },
            DeviceCommand::Record { command_buffer: buffer, command: RecordedCommand::EndRenderPass },
            DeviceCommand::EndCommandBuffer { command_buffer: buffer },
            DeviceCommand::ResetFence { fence: fence(0) },
            DeviceCommand::StageCommandBuffer { command_buffer: buffer },
            DeviceCommand::QueueSubmit {
                queue: h(16),
                wait_semaphore: available(0),
                signal_semaphore: finished(0),
                fence: fence(0),
            },
        ]
    );
    let staged = plan.iter().filter(|c| matches!(c, DeviceCommand::StageCommandBuffer { .. })).count();
    let submits = plan.iter().filter(|c| matches!(c, DeviceCommand::QueueSubmit { .. })).count();
    assert_eq!((staged, submits), (1, 1));
    assert_eq!(d.phase, FramePhase::Submitting);
    assert!(d.data.command_buffer_queues.iter().all(|q| q.is_empty()));
}

#[test]
fn clear_values_are_the_bits_of_the_floats() {
    assert_eq!(F32_ZERO, 0.0f32.to_bits());
    assert_eq!(F32_ONE, 1.0f32.to_bits());
    assert_eq!(F32_DARK, 0.075f32.to_bits());
}

#[test]
fn submitted_buffers_replace_the_fallback() {
    let mut d = device_for(2, 3);
    d.begin_frame().unwrap();
    d.image_acquired(AcquireResult::Acquired { image_index: 0 }).unwrap();
    d.submit_command_buffers(&vec![h(7001), h(7002)]).unwrap();
    d.submit_command_buffers(&vec![h(7003)]).unwrap();
    assert_eq!(d.data.command_buffer_queues[0], vec![h(7001), h(7002), h(7003)]);
    let plan = d.end_frame().unwrap();
    assert_eq!(
        plan,
        vec![
            DeviceCommand::ResetFence { fence: fence(0) },
            DeviceCommand::StageCommandBuffer { command_buffer: h(7001) },
            DeviceCommand::StageCommandBuffer { command_buffer: h(7002) },
            DeviceCommand::StageCommandBuffer { command_buffer: h(7003) },
            DeviceCommand::QueueSubmit {
                queue: h(16),
                wait_semaphore: available(0),
                signal_semaphore: finished(0),
                fence: fence(0),
            },
        ]
    );
    assert!(d.data.command_buffer_queues[0].is_empty());
}

#[test]
fn clear_frame_records_into_the_bound_image() {
    let mut d = device_for(2, 3);
    assert_eq!(d.clear_frame(None, None).err(), Some(DeviceError::WrongPhase { phase: FramePhase::Idle }));
    d.begin_frame().unwrap();
    d.image_acquired(AcquireResult::Acquired { image_index: 2 }).unwrap();
    let plan = d.clear_frame(None, None).unwrap();
    assert_eq!(plan.len(), 5);
    assert_eq!(
        plan[2],
        DeviceCommand::Record {
            command_buffer: h(1082),
            command: RecordedCommand::BeginRenderPass {
                render_pass: h(1008),
                framebuffer: h(1062),
                extent: Extent2D { width: 800, height: 600 },
                color: ClearColor { r: F32_ZERO, g: F32_ONE, b: F32_ONE, a: F32_ONE },
                depth: F32_ONE,
            },
        }
    );
    assert_eq!(d.data.command_buffer_queues[2], vec![h(1082)]);
    let end = d.end_frame().unwrap();
    assert_eq!(end.len(), 3);
    assert_eq!(end[1], DeviceCommand::StageCommandBuffer { command_buffer: h(1082) });
}

#[test]
fn render_pass_calls_outside_recording_are_refused() {
    let d = device_for(2, 3);
    let extent = Extent2D { width: 1, height: 1 };
    assert_eq!(
        d.begin_render_pass(h(1), h(2), extent, h(3), None, None).err(),
        Some(DeviceError::WrongPhase { phase: FramePhase::Idle })
    );
    assert_eq!(d.end_render_pass(h(3)).err(), Some(DeviceError::WrongPhase { phase: FramePhase::Idle }));
    let mut d = device_for(2, 3);
    assert_eq!(
        d.submit_command_buffers(&vec![h(3)]).err(),
        Some(DeviceError::WrongPhase { phase: FramePhase::Idle })
    );
    assert_eq!(d.end_frame().err(), Some(DeviceError::WrongPhase { phase: FramePhase::Idle }));
    assert_eq!(d.frame_submitted().err(), Some(DeviceError::WrongPhase { phase: FramePhase::Idle }));
    assert_eq!(
        d.frame_presented(PresentResult::Presented).err(),
        Some(DeviceError::WrongPhase { phase: FramePhase::Idle })
    );
    assert_eq!(
        d.recreate_swapchain(resources_for(3, 2)).err(),
        Some(DeviceError::WrongPhase { phase: FramePhase::Idle })
    );
}

#[test]
fn begin_render_pass_takes_the_given_clear_values() {
    let mut d = device_for(2, 3);
    d.begin_frame().unwrap();
    d.image_acquired(AcquireResult::Acquired { image_index: 0 }).unwrap();
    let color = ClearColor { r: 1, g: 2, b: 3, a: 4 };
    let extent = Extent2D { width: 4, height: 5 };
    let plan = d.begin_render_pass(h(31), h(32), extent, h(33), Some(color), Some(9)).unwrap();
    assert_eq!(
        plan,
        vec![
            DeviceCommand::ResetCommandBuffer { command_buffer: h(33) },
            DeviceCommand::BeginCommandBuffer { command_buffer: h(33) },
            DeviceCommand::Record {
                command_buffer: h(33),
                command: RecordedCommand::BeginRenderPass {
                    render_pass: h(31),
                    framebuffer: h(32),
                    extent,
                    color,
                    depth: 9,
                },
            },
        ]
    );
    assert_eq!(
        d.end_render_pass(h(33)).unwrap(),
        DeviceCommand::Record { command_buffer: h(33), command: RecordedCommand::EndRenderPass }
    );
}

#[test]
fn present_waits_for_the_finished_work_of_the_slot() {
    let mut d = device_for(2, 3);
    d.begin_frame().unwrap();
    d.image_acquired(AcquireResult::Acquired { image_index: 2 }).unwrap();
    d.end_frame().unwrap();
    assert_eq!(
        d.frame_submitted().unwrap(),
        DeviceCommand::QueuePresent { queue: h(17), wait_semaphore: finished(0), swapchain: h(1001), image_index: 2 }
    );
    assert_eq!(d.phase, FramePhase::Presenting);
    assert_eq!(
        d.frame_presented(PresentResult::Failed { code: -3 }).err(),
        Some(DeviceError::Native { stage: FramePhase::Presenting, code: -3 })
    );
    assert_eq!(d.phase, FramePhase::Presenting);
    assert_eq!(d.frame_index, 0);
    assert!(d.frame_presented(PresentResult::Presented).unwrap().is_empty());
    assert_eq!(d.phase, FramePhase::Idle);
    assert_eq!(d.frame_index, 1);
}

#[test]
fn scenario_five_frames_without_resize() {
    let mut d = device_for(2, 3);
    let mut gpu = Gpu::new();
    let mut slots = Vec::new();
    for k in 0..5u32 {
        slots.push(d.frame_index);
        let commands = frame(&mut d, &mut gpu, k % 3, PresentResult::Presented);
        assert_eq!(commands[0], DeviceCommand::WaitForFence { fence: fence(slots[k as usize] as u64) });
        assert_eq!(d.phase, FramePhase::Idle);
    }
    assert_eq!(slots, vec![0, 1, 0, 1, 0]);
    assert_eq!(gpu.presents, vec![0, 1, 2, 0, 1]);
    assert_eq!(gpu.submissions.len(), 5);
    assert!(gpu.submissions.iter().all(|s| s.len() == 1));
    assert_eq!(gpu.idles, 0);
}

#[test]
fn scenario_out_of_date_on_the_third_frame() {
    let mut d = device_for(2, 3);
    let mut gpu = Gpu::new();
    frame(&mut d, &mut gpu, 0, PresentResult::Presented);
    frame(&mut d, &mut gpu, 1, PresentResult::Presented);
    assert_eq!(d.frame_index, 0);

    let begin = d.begin_frame().unwrap();
    gpu.run(&begin);
    let teardown = d.image_acquired(AcquireResult::OutOfDate).unwrap();
    assert_eq!(teardown[0], DeviceCommand::DeviceWaitIdle);
    assert!(teardown[1..].iter().all(|c| matches!(
        c,
        DeviceCommand::Destroy { .. } | DeviceCommand::FreeCommandBuffer { .. }
    )));
    gpu.run(&teardown);
    assert_eq!(d.phase, FramePhase::Invalidated);
    assert!(d.data.swapchain.is_null());
    assert!(d.data.framebuffers.is_empty());
    assert!(d.data.command_buffers.is_empty());
    assert_eq!(d.end_frame().err(), Some(DeviceError::WrongPhase { phase: FramePhase::Invalidated }));
    assert_eq!(d.begin_frame().err(), Some(DeviceError::WrongPhase { phase: FramePhase::Invalidated }));
    assert_eq!(gpu.presents.len(), 2);

    d.recreate_swapchain(resources_for(4, 2)).unwrap();
    assert_eq!(d.phase, FramePhase::Idle);
    assert_eq!(d.frame_index, 0);

    frame(&mut d, &mut gpu, 0, PresentResult::Presented);
    frame(&mut d, &mut gpu, 3, PresentResult::Presented);
    assert_eq!(gpu.presents, vec![0, 1, 0, 3]);
    assert_eq!(gpu.idles, 1);
    assert_eq!(gpu.submissions.len(), 4);
    assert_eq!(gpu.submissions[2], vec![2080]);
}

#[test]
fn image_out_of_step_with_the_slots_waits_for_its_old_fence() {
    let mut d = device_for(2, 3);
    let mut gpu = Gpu::new();
    frame(&mut d, &mut gpu, 0, PresentResult::Presented);
    frame(&mut d, &mut gpu, 1, PresentResult::Presented);
    frame(&mut d, &mut gpu, 2, PresentResult::Presented);
    assert_eq!(d.sync.textures_in_flight, vec![fence(0), fence(1), fence(0)]);
    let begin = d.begin_frame().unwrap();
    assert_eq!(begin[0], DeviceCommand::WaitForFence { fence: fence(1) });
    gpu.run(&begin);
    let bound = d.image_acquired(AcquireResult::Acquired { image_index: 0 }).unwrap();
    assert_eq!(bound, vec![DeviceCommand::WaitForFence { fence: fence(0) }]);
    gpu.run(&bound);
    assert_eq!(d.sync.textures_in_flight, vec![fence(1), fence(1), fence(0)]);
    let end = d.end_frame().unwrap();
    gpu.run(&end);
}

#[test]
fn recording_without_the_image_wait_is_caught_by_the_timeline() {
    let mut d = device_for(2, 3);
    let mut gpu = Gpu::new();
    frame(&mut d, &mut gpu, 0, PresentResult::Presented);
    frame(&mut d, &mut gpu, 1, PresentResult::Presented);
    frame(&mut d, &mut gpu, 2, PresentResult::Presented);
    gpu.run(&d.begin_frame().unwrap());
    d.image_acquired(AcquireResult::Acquired { image_index: 2 }).unwrap();
    assert!(gpu.busy(h(1082)));
    assert!(!gpu.busy(h(1081)));
}

#[test]
fn frame_index_returns_after_as_many_frames_as_slots() {
    for slots in 1..5usize {
        let mut d = device_for(slots, 2);
        let mut gpu = Gpu::new();
        for start in 0..slots {
            assert_eq!(d.frame_index, start);
            for _ in 0..slots {
                frame(&mut d, &mut gpu, 0, PresentResult::Presented);
            }
            assert_eq!(d.frame_index, start);
            frame(&mut d, &mut gpu, 1, PresentResult::Presented);
        }
    }
}

#[test]
fn suboptimal_or_out_of_date_present_rebuilds_after_the_frame() {
    for result in [PresentResult::Suboptimal, PresentResult::OutOfDate] {
        let mut d = device_for(2, 3);
        let mut gpu = Gpu::new();
        let commands = frame(&mut d, &mut gpu, 1, result);
        assert_eq!(gpu.presents, vec![1]);
        assert_eq!(gpu.submissions.len(), 1);
        assert_eq!(d.phase, FramePhase::Invalidated);
        assert_eq!(d.frame_index, 1);
        let present = commands.iter().position(|c| matches!(c, DeviceCommand::QueuePresent { .. })).unwrap();
        assert_eq!(commands[present + 1], DeviceCommand::DeviceWaitIdle);
    }
}

#[test]
fn resize_flag_rebuilds_after_the_frame_and_is_cleared() {
    let mut d = device_for(2, 3);
    let mut gpu = Gpu::new();
    d.resized = true;
    assert!(!d.is_valid());
    frame(&mut d, &mut gpu, 0, PresentResult::Presented);
    assert_eq!(d.phase, FramePhase::Invalidated);
    assert!(!d.resized);
    assert_eq!(gpu.presents, vec![0]);
    assert_eq!(gpu.idles, 1);
}

#[test]
fn teardown_follows_the_dependencies() {
    let mut d = device_for(2, 2);
    d.begin_frame().unwrap();
    let plan = d.image_acquired(AcquireResult::OutOfDate).unwrap();
    let destroy = |kind, raw| DeviceCommand::Destroy { kind, handle: h(raw) };
    assert_eq!(
        plan,
        vec![
            DeviceCommand::DeviceWaitIdle,
            DeviceCommand::FreeCommandBuffer { pool: h(19), command_buffer: h(1080) },
            DeviceCommand::FreeCommandBuffer { pool: h(19), command_buffer: h(1081) },
            destroy(ObjectKind::DescriptorPool, 1051),
            destroy(ObjectKind::Buffer, 1030),
            destroy(ObjectKind::DeviceMemory, 1040),
            destroy(ObjectKind::Buffer, 1031),
            destroy(ObjectKind::DeviceMemory, 1041),
            destroy(ObjectKind::Framebuffer, 1060),
            destroy(ObjectKind::Framebuffer, 1061),
            destroy(ObjectKind::Pipeline, 1050),
            destroy(ObjectKind::PipelineLayout, 1009),
            destroy(ObjectKind::RenderPass, 1008),
            destroy(ObjectKind::ImageView, 1004),
            destroy(ObjectKind::Image, 1002),
            destroy(ObjectKind::DeviceMemory, 1003),
            destroy(ObjectKind::ImageView, 1007),
            destroy(ObjectKind::Image, 1005),
            destroy(ObjectKind::DeviceMemory, 1006),
            destroy(ObjectKind::ImageView, 1020),
            destroy(ObjectKind::ImageView, 1021),
            destroy(ObjectKind::Swapchain, 1001),
        ]
    );
}

#[test]
fn rebuild_holds_only_the_new_generation() {
    let mut d = device_for(2, 3);
    d.begin_frame().unwrap();
    d.image_acquired(AcquireResult::Acquired { image_index: 1 }).unwrap();
    d.end_frame().unwrap();
    d.frame_submitted().unwrap();
    d.frame_presented(PresentResult::OutOfDate).unwrap();
    assert_eq!(d.data.swapchain.handle, Handle::null());
    assert_eq!(d.data.render_pass, Handle::null());
    assert_eq!(d.data.blit_albedo_texture, Texture::null());
    assert_eq!(d.data.blit_depth_view, TextureView::null());
    assert!(d.data.uniform_buffers.is_empty());
    assert!(d.data.descriptor_sets.is_empty());
    assert!(d.data.command_buffer_queues.is_empty());
    assert_eq!(d.data.surface, h(15));
    assert_eq!(d.data.command_pool, h(19));

    let new = resources_for(2, 2);
    d.recreate_swapchain(new.clone()).unwrap();
    assert_eq!(d.data.swapchain.handle, new.swapchain.handle);
    assert_eq!(d.data.swapchain.views, new.swapchain.views);
    assert_eq!(d.data.swapchain.textures, new.swapchain.textures);
    assert_eq!(d.data.render_pass, new.render_pass);
    assert_eq!(d.data.framebuffers, new.framebuffers);
    assert_eq!(d.data.pipeline, new.pipeline);
    assert_eq!(d.data.pipeline_layout, new.pipeline_layout);
    assert_eq!(d.data.blit_albedo_texture, new.blit_albedo_texture);
    assert_eq!(d.data.blit_albedo_view, new.blit_albedo_view);
    assert_eq!(d.data.blit_depth_texture, new.blit_depth_texture);
    assert_eq!(d.data.blit_depth_view, new.blit_depth_view);
    assert_eq!(d.data.command_buffers, new.command_buffers);
    assert_eq!(d.data.descriptor_pool, new.descriptor_pool);
    assert_eq!(d.data.descriptor_sets, new.descriptor_sets);
    assert_eq!(d.data.uniform_buffers, new.uniform_buffers);
    let old = resources_for(3, 1);
    for handle in old.framebuffers.iter().chain(old.command_buffers.iter()) {
        assert!(!d.data.framebuffers.contains(handle));
        assert!(!d.data.command_buffers.contains(handle));
    }
}

#[test]
fn rebuild_makes_the_counts_agree_and_unsets_the_image_fences() {
    for images in [1usize, 2, 5] {
        let mut d = device_for(2, 3);
        let mut gpu = Gpu::new();
        frame(&mut d, &mut gpu, 0, PresentResult::Presented);
        frame(&mut d, &mut gpu, 1, PresentResult::Suboptimal);
        let fences_before = d.sync.fences_in_flight.clone();
        d.recreate_swapchain(resources_for(images, 2)).unwrap();
        assert_eq!(d.data.swapchain.views.len(), images);
        assert_eq!(d.sync.textures_in_flight.len(), images);
        assert_eq!(d.data.command_buffers.len(), images);
        assert_eq!(d.data.framebuffers.len(), images);
        assert_eq!(d.data.command_buffer_queues.len(), images);
        assert!(d.sync.textures_in_flight.iter().all(|f| f.is_null()));
        assert_eq!(d.sync.fences_in_flight, fences_before);
        assert_eq!(d.sync.fences_in_flight.len(), 2);
    }
}

#[test]
fn rebuild_refuses_incomplete_resources() {
    let mut d = device_for(2, 3);
    d.begin_frame().unwrap();
    d.image_acquired(AcquireResult::OutOfDate).unwrap();
    let mut r = resources_for(3, 2);
    r.command_buffers.pop();
    assert_eq!(d.recreate_swapchain(r).err(), Some(DeviceError::ResourceCount));
    let mut r = resources_for(3, 2);
    r.framebuffers.push(h(5));
    assert_eq!(d.recreate_swapchain(r).err(), Some(DeviceError::ResourceCount));
    let mut r = resources_for(3, 2);
    r.swapchain.textures.pop();
    assert_eq!(d.recreate_swapchain(r).err(), Some(DeviceError::ResourceCount));
    assert_eq!(d.recreate_swapchain(resources_for(0, 2)).err(), Some(DeviceError::ResourceCount));
    assert_eq!(d.phase, FramePhase::Invalidated);
    assert!(d.recreate_swapchain(resources_for(3, 2)).is_ok());
}

#[test]
fn reset_gives_up_the_swapchain_only_when_resized() {
    let mut d = device_for(2, 3);
    assert!(d.reset().unwrap().is_empty());
    assert_eq!(d.phase, FramePhase::Idle);
    d.resized = true;
    let plan = d.reset().unwrap();
    assert_eq!(plan[0], DeviceCommand::DeviceWaitIdle);
    assert_eq!(plan.len(), 1 + 3 + 1 + 6 + 3 + 3 + 3 + 3 + 3 + 1);
    assert_eq!(d.phase, FramePhase::Invalidated);
    assert!(!d.resized);
    assert_eq!(d.reset().err(), Some(DeviceError::WrongPhase { phase: FramePhase::Invalidated }));
}

#[test]
fn destroy_waits_first_and_ends_with_device_surface_messenger_instance() {
    let mut d = device_for(2, 2);
    let mut gpu = Gpu::new();
    frame(&mut d, &mut gpu, 0, PresentResult::Presented);
    let plan = d.destroy();
    gpu.run(&plan);
    assert_eq!(plan[0], DeviceCommand::DeviceWaitIdle);
    let destroy = |kind, raw| DeviceCommand::Destroy { kind, handle: h(raw) };
    let tail = &plan[plan.len() - 16..];
    assert_eq!(
        tail,
        &[
            destroy(ObjectKind::Fence, 102),
            destroy(ObjectKind::Fence, 105),
            destroy(ObjectKind::Semaphore, 101),
            destroy(ObjectKind::Semaphore, 104),
            destroy(ObjectKind::Semaphore, 100),
            destroy(ObjectKind::Semaphore, 103),
            destroy(ObjectKind::Sampler, 14),
            destroy(ObjectKind::ImageView, 13),
            destroy(ObjectKind::Image, 11),
            destroy(ObjectKind::DeviceMemory, 12),
            destroy(ObjectKind::CommandPool, 19),
            destroy(ObjectKind::DescriptorSetLayout, 18),
            destroy(ObjectKind::Device, 2),
            destroy(ObjectKind::Surface, 15),
            destroy(ObjectKind::DebugMessenger, 20),
            destroy(ObjectKind::Instance, 1),
        ]
    );
    assert_eq!(d.phase, FramePhase::Invalidated);
    let again = d.destroy();
    assert_eq!(again.len(), 17);
    assert_eq!(again[0], DeviceCommand::DeviceWaitIdle);
}

#[test]
fn destroy_without_messenger_skips_it() {
    let mut d = VulkanDevice::create(api(), data_for(1, 1), sync_for(1, 1), None).unwrap();
    let plan = d.destroy();
    assert!(!plan.iter().any(|c| matches!(c, DeviceCommand::Destroy { kind: ObjectKind::DebugMessenger, .. })));
    assert_eq!(plan.last(), Some(&DeviceCommand::Destroy { kind: ObjectKind::Instance, handle: h(1) }));
}

#[test]
fn long_run_with_rebuilds_stays_within_the_timeline() {
    let mut d = device_for(3, 4);
    let mut gpu = Gpu::new();
    let mut images = 4u32;
    let mut generation = 1u64;
    let mut presented = 0usize;
    for k in 0..60u32 {
        if d.phase == FramePhase::Invalidated {
            generation += 1;
            images = 2 + (k % 3);
            d.recreate_swapchain(resources_for(images as usize, generation)).unwrap();
        }
        if k % 11 == 10 {
            d.resized = true;
        }
        gpu.run(&d.begin_frame().unwrap());
        let acquired = if k % 17 == 16 {
            AcquireResult::OutOfDate
        } else {
            AcquireResult::Acquired { image_index: (k * 7 + 3) % images }
        };
        gpu.run(&d.image_acquired(acquired).unwrap());
        if d.phase != FramePhase::Recording {
            continue;
        }
        if k % 2 == 0 {
            gpu.run(&d.clear_frame(None, None).unwrap());
        }
        gpu.run(&d.end_frame().unwrap());
        gpu.run(&[d.frame_submitted().unwrap()]);
        let result = if k % 13 == 12 { PresentResult::Suboptimal } else { PresentResult::Presented };
        gpu.run(&d.frame_presented(result).unwrap());
        presented += 1;
    }
    assert_eq!(gpu.presents.len(), presented);
    assert_eq!(gpu.submissions.len(), presented);
    assert!(gpu.submissions.iter().all(|s| s.len() == 1));
    assert!(generation > 1);
}

fn pieces_for(images: usize, generation: u64) -> (Swapchain, RenderTargets, CommandResources) {
    let r = resources_for(images, generation);
    (
        r.swapchain,
        RenderTargets {
            blit_albedo_texture: r.blit_albedo_texture,
            blit_albedo_view: r.blit_albedo_view,
            blit_depth_texture: r.blit_depth_texture,
            blit_depth_view: r.blit_depth_view,
            render_pass: r.render_pass,
            pipeline_layout: r.pipeline_layout,
            pipeline: r.pipeline,
            framebuffers: r.framebuffers,
        },
        CommandResources {
            uniform_buffers: r.uniform_buffers,
            descriptor_pool: r.descriptor_pool,
            descriptor_sets: r.descriptor_sets,
            command_buffers: r.command_buffers,
        },
    )
}

fn given_up(images: usize) -> VulkanDevice {
    let mut d = device_for(2, images);
    d.begin_frame().unwrap();
    d.image_acquired(AcquireResult::OutOfDate).unwrap();
    d
}

#[test]
fn replacement_is_taken_piece_by_piece_in_its_order() {
    let mut d = given_up(3);
    let (swapchain, targets, commands) = pieces_for(4, 2);
    assert_eq!(d.targets_replaced(targets.clone()).err(), Some(DeviceError::RebuildOrder));
    assert_eq!(d.commands_replaced(commands.clone()).err(), Some(DeviceError::RebuildOrder));

    d.swapchain_replaced(swapchain.clone()).unwrap();
    assert_eq!(d.phase, FramePhase::Invalidated);
    assert!(d.is_well_formed());
    assert_eq!(d.data.swapchain.handle, h(2001));
    assert!(d.data.framebuffers.is_empty() && d.data.command_buffers.is_empty());
    assert_eq!(d.swapchain_replaced(swapchain.clone()).err(), Some(DeviceError::RebuildOrder));
    assert_eq!(d.commands_replaced(commands.clone()).err(), Some(DeviceError::RebuildOrder));
    assert_eq!(d.recreate_swapchain(resources_for(4, 2)).err(), Some(DeviceError::RebuildOrder));
    assert_eq!(d.begin_frame().err(), Some(DeviceError::WrongPhase { phase: FramePhase::Invalidated }));

    d.targets_replaced(targets.clone()).unwrap();
    assert_eq!(d.phase, FramePhase::Invalidated);
    assert!(d.is_well_formed());
    assert_eq!(d.data.render_pass, h(2008));
    assert_eq!(d.data.framebuffers.len(), 4);
    assert!(d.data.command_buffers.is_empty());
    assert_eq!(d.swapchain_replaced(swapchain).err(), Some(DeviceError::RebuildOrder));
    assert_eq!(d.targets_replaced(targets).err(), Some(DeviceError::RebuildOrder));
    assert_eq!(d.recreate_swapchain(resources_for(4, 2)).err(), Some(DeviceError::RebuildOrder));

    d.commands_replaced(commands).unwrap();
    assert_eq!(d.phase, FramePhase::Idle);
    assert!(d.is_well_formed());
    assert_eq!(d.data.command_buffers.len(), 4);
    assert_eq!(d.data.command_buffer_queues, vec![Vec::<Handle>::new(); 4]);
    assert_eq!(d.sync.textures_in_flight, vec![Handle::null(); 4]);
    assert_eq!(d.sync.fences_in_flight, vec![fence(0), fence(1)]);
}

#[test]
fn piecewise_replacement_ends_where_the_whole_one_does() {
    let mut whole = given_up(3);
    whole.recreate_swapchain(resources_for(2, 2)).unwrap();
    let mut staged = given_up(3);
    let (swapchain, targets, commands) = pieces_for(2, 2);
    staged.swapchain_replaced(swapchain).unwrap();
    staged.targets_replaced(targets).unwrap();
    staged.commands_replaced(commands).unwrap();
    assert_eq!(format!("{:?}", staged), format!("{:?}", whole));
    let mut gpu = Gpu::new();
    frame(&mut staged, &mut gpu, 1, PresentResult::Presented);
    assert_eq!(gpu.submissions, vec![vec![2081]]);
}

#[test]
fn pieces_that_do_not_fit_are_refused() {
    let mut d = given_up(3);
    let (mut swapchain, mut targets, mut commands) = pieces_for(3, 2);
    swapchain.views.pop();
    assert_eq!(d.swapchain_replaced(swapchain).err(), Some(DeviceError::ResourceCount));
    assert_eq!(d.swapchain_replaced(Swapchain::null()).err(), Some(DeviceError::ResourceCount));
    d.swapchain_replaced(pieces_for(3, 2).0).unwrap();
    targets.framebuffers.pop();
    assert_eq!(d.targets_replaced(targets).err(), Some(DeviceError::ResourceCount));
    d.targets_replaced(pieces_for(3, 2).1).unwrap();
    commands.command_buffers.push(h(1));
    assert_eq!(d.commands_replaced(commands).err(), Some(DeviceError::ResourceCount));
    let mut shared = pieces_for(3, 2).2;
    shared.command_buffers[2] = shared.command_buffers[0];
    assert_eq!(d.commands_replaced(shared).err(), Some(DeviceError::SharedCommandBuffer));
    assert_eq!(d.phase, FramePhase::Invalidated);
    d.commands_replaced(pieces_for(3, 2).2).unwrap();
    assert_eq!(d.phase, FramePhase::Idle);
}

#[test]
fn pieces_outside_a_rebuild_are_refused() {
    let mut d = device_for(2, 3);
    let (swapchain, targets, commands) = pieces_for(3, 2);
    let wrong = Some(DeviceError::WrongPhase { phase: FramePhase::Idle });
    assert_eq!(d.swapchain_replaced(swapchain).err(), wrong);
    assert_eq!(d.targets_replaced(targets).err(), wrong);
    assert_eq!(d.commands_replaced(commands).err(), wrong);
}

#[test]
fn giving_up_in_the_middle_of_a_rebuild_takes_down_what_was_handed_over() {
    let mut d = given_up(3);
    let (swapchain, targets, _) = pieces_for(2, 2);
    d.swapchain_replaced(swapchain).unwrap();
    d.targets_replaced(targets).unwrap();
    let plan = d.destroy();
    assert_eq!(plan[0], DeviceCommand::DeviceWaitIdle);
    assert!(plan.contains(&DeviceCommand::Destroy { kind: ObjectKind::Swapchain, handle: h(2001) }));
    assert!(plan.contains(&DeviceCommand::Destroy { kind: ObjectKind::Framebuffer, handle: h(2061) }));
    assert!(plan.contains(&DeviceCommand::Destroy { kind: ObjectKind::RenderPass, handle: h(2008) }));
    assert!(d.data.swapchain.is_null());
    assert!(d.is_well_formed());
}
