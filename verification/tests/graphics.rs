use deimos::graphics::{
    graphics_present_family, pick_by_type, AcquireOutcome, Color, CommandBuffer, CommandData, Device,
    DeviceCandidate, DeviceData, FlushOutcome, FrameStart, PhysicalDeviceType, RecreateOutcome, Viewport,
};
use deimos::swap::QueueFamily;
use deimos::handle::Handle;

fn floats(c: Color) -> [f32; 4] {
    let bits = c.to_rgba();
    [f32::from_bits(bits[0]), f32::from_bits(bits[1]), f32::from_bits(bits[2]), f32::from_bits(bits[3])]
}

#[test]
fn colours_are_the_bits_of_their_channels() {
    assert_eq!(floats(Color::black()), [0.0, 0.0, 0.0, 1.0]);
    assert_eq!(floats(Color::red()), [1.0, 0.0, 0.0, 1.0]);
    assert_eq!(floats(Color::green()), [0.0, 1.0, 0.0, 1.0]);
    assert_eq!(floats(Color::blue()), [0.0, 0.0, 1.0, 1.0]);
    assert_eq!(floats(Color::white()), [1.0, 1.0, 1.0, 1.0]);
    assert_eq!(Color { r: 1, g: 2, b: 3, a: 4 }.to_rgba(), [1, 2, 3, 4]);
}

#[test]
fn command_list_records_one_field_per_command() {
    let mut c = CommandBuffer::new();
    assert!(c.commands.is_empty());
    let viewport = Viewport {
        origin: (0, 0),
        dimensions: (640.0f32.to_bits(), 480.0f32.to_bits()),
        depth_range: (0, 1.0f32.to_bits()),
    };
    c.set_viewport(viewport);
    c.bind_pipeline(Handle::new(5));
    c.bind_vertex_buffer(Handle::new(6));
    c.draw(3, 1, 0, 0);
    let none = CommandData { viewport: None, pipeline: None, vertex_buffer: None, draw: None };
    assert_eq!(
        c.commands,
        vec![
            CommandData { viewport: Some(viewport), ..none },
            CommandData { pipeline: Some(Handle::new(5)), ..none },
            CommandData { vertex_buffer: Some(Handle::new(6)), ..none },
            CommandData { draw: Some((3, 1, 0, 0)), ..none },
        ]
    );
}

#[test]
fn minimised_window_skips_the_frame() {
    assert!(Device::create(0, 600).minimized());
    assert!(Device::create(800, 0).minimized());
    assert!(!Device::create(800, 600).minimized());
    assert_eq!(Device::create(800, 600).dimensions(), (800, 600));
    assert_eq!(Device::create(0, 600).begin_frame(), FrameStart::Skip);
    let mut d = Device::create(800, 0);
    d.data.recreate_swapchain = true;
    assert_eq!(d.begin_frame(), FrameStart::Skip);
}

#[test]
fn frame_recreates_the_swapchain_when_flagged() {
    let mut d = Device::create(800, 600);
    assert_eq!(d.data, DeviceData { recreate_swapchain: false });
    assert_eq!(d.begin_frame(), FrameStart::Acquire);
    d.data.recreate_swapchain = true;
    assert_eq!(d.begin_frame(), FrameStart::Recreate { width: 800, height: 600 });
    assert!(!d.swapchain_recreated(RecreateOutcome::ExtentNotSupported));
    assert!(d.data.recreate_swapchain);
    assert!(d.swapchain_recreated(RecreateOutcome::Recreated));
    assert!(!d.data.recreate_swapchain);
    assert_eq!(d.begin_frame(), FrameStart::Acquire);
}

#[test]
fn acquisition_sets_the_image_and_flags_a_bad_fit() {
    let mut d = Device::create(800, 600);
    d.image_acquired(AcquireOutcome::Acquired { image_index: 2, suboptimal: false });
    assert_eq!((d.image_index, d.suboptimal, d.acquired, d.data.recreate_swapchain), (2, false, true, false));
    d.image_acquired(AcquireOutcome::Acquired { image_index: 1, suboptimal: true });
    assert_eq!((d.image_index, d.suboptimal, d.acquired, d.data.recreate_swapchain), (1, true, true, true));
    d.image_acquired(AcquireOutcome::Acquired { image_index: 0, suboptimal: false });
    assert_eq!((d.image_index, d.suboptimal, d.data.recreate_swapchain), (0, false, true));

    let mut d = Device::create(800, 600);
    d.image_acquired(AcquireOutcome::OutOfDate);
    assert_eq!((d.image_index, d.acquired, d.data.recreate_swapchain), (0, false, true));
}

#[test]
fn end_frame_submits_only_an_acquired_image() {
    let mut d = Device::create(800, 600);
    assert_eq!(d.end_frame(), None);
    d.image_acquired(AcquireOutcome::Acquired { image_index: 2, suboptimal: false });
    assert_eq!(d.end_frame(), Some(2));
    assert!(!d.acquired);
    assert_eq!(d.end_frame(), None);
}

#[test]
fn out_of_date_flush_flags_the_swapchain() {
    let mut d = Device::create(800, 600);
    d.frame_flushed(FlushOutcome::Flushed);
    assert!(!d.data.recreate_swapchain);
    d.frame_flushed(FlushOutcome::OutOfDate);
    assert!(d.data.recreate_swapchain);
    d.frame_flushed(FlushOutcome::Flushed);
    assert!(d.data.recreate_swapchain);
}

fn candidate(device_type: PhysicalDeviceType, extension: bool, family: Option<u32>) -> DeviceCandidate {
    DeviceCandidate { device_type, has_swapchain_extension: extension, queue_family: family }
}

#[test]
fn the_best_liked_kind_of_device_is_picked() {
    let all = vec![
        candidate(PhysicalDeviceType::Unknown, true, Some(0)),
        candidate(PhysicalDeviceType::Other, true, Some(1)),
        candidate(PhysicalDeviceType::Cpu, true, Some(2)),
        candidate(PhysicalDeviceType::VirtualGpu, true, Some(3)),
        candidate(PhysicalDeviceType::IntegratedGpu, true, Some(4)),
        candidate(PhysicalDeviceType::DiscreteGpu, true, Some(5)),
    ];
    for end in 1..=all.len() {
        assert_eq!(pick_by_type(&all[..end].to_vec()), Some((end - 1, end as u32 - 1)));
    }
    let mut reversed = all.clone();
    reversed.reverse();
    assert_eq!(pick_by_type(&reversed), Some((0, 5)));
}

#[test]
fn of_devices_liked_alike_the_first_is_picked() {
    let devices = vec![
        candidate(PhysicalDeviceType::IntegratedGpu, true, Some(7)),
        candidate(PhysicalDeviceType::DiscreteGpu, true, Some(1)),
        candidate(PhysicalDeviceType::DiscreteGpu, true, Some(2)),
        candidate(PhysicalDeviceType::IntegratedGpu, true, Some(3)),
    ];
    assert_eq!(pick_by_type(&devices), Some((1, 1)));
}

#[test]
fn devices_that_cannot_be_used_are_passed_over() {
    let devices = vec![
        candidate(PhysicalDeviceType::DiscreteGpu, false, Some(0)),
        candidate(PhysicalDeviceType::DiscreteGpu, true, None),
        candidate(PhysicalDeviceType::Cpu, true, Some(2)),
        candidate(PhysicalDeviceType::IntegratedGpu, false, None),
    ];
    assert_eq!(pick_by_type(&devices), Some((2, 2)));
    assert_eq!(pick_by_type(&devices[..2].to_vec()), None);
    assert_eq!(pick_by_type(&vec![]), None);
}

#[test]
fn the_queue_family_draws_and_presents() {
    let family = |flags, present| QueueFamily { queue_flags: flags, present_support: present };
    let families = vec![family(0x1, false), family(0x6, true), family(0x3, true), family(0x1, true)];
    assert_eq!(graphics_present_family(&families), Some(2));
    assert_eq!(graphics_present_family(&families[..2].to_vec()), None);
    assert_eq!(graphics_present_family(&vec![family(0xF, true)]), Some(0));
    assert_eq!(graphics_present_family(&vec![]), None);
}
