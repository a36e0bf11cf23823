//! A frame loop over a driver that tracks the device's work by itself: all
//! that is decided here is when the swapchain has to be replaced and when a
//! frame is left out. With it, colours and a list of recorded commands.

use vstd::prelude::*;
use crate::device::{F32_ONE, F32_ZERO};
use crate::handle::Handle;
use crate::swap::{QueueFamily, QUEUE_GRAPHICS};

verus! {

/// A colour. Each channel holds the bits of a 32-bit float.
#[derive(Clone, Copy, Debug, PartialEq, Eq, Structural)]
pub struct Color {
    pub r: u32,
    pub g: u32,
    pub b: u32,
    pub a: u32,
}

impl Color {
    pub fn black() -> (c: Color)
        ensures
            c == (Color { r: F32_ZERO, g: F32_ZERO, b: F32_ZERO, a: F32_ONE }),
    {
        Color { r: F32_ZERO, g: F32_ZERO, b: F32_ZERO, a: F32_ONE }
    }

    pub fn red() -> (c: Color)
        ensures
            c == (Color { r: F32_ONE, g: F32_ZERO, b: F32_ZERO, a: F32_ONE }),
    {
        Color { r: F32_ONE, g: F32_ZERO, b: F32_ZERO, a: F32_ONE }
    }

    pub fn green() -> (c: Color)
        ensures
            c == (Color { r: F32_ZERO, g: F32_ONE, b: F32_ZERO, a: F32_ONE }),
    {
        Color { r: F32_ZERO, g: F32_ONE, b: F32_ZERO, a: F32_ONE }
    }

    pub fn blue() -> (c: Color)
        ensures
            c == (Color { r: F32_ZERO, g: F32_ZERO, b: F32_ONE, a: F32_ONE }),
    {
        Color { r: F32_ZERO, g: F32_ZERO, b: F32_ONE, a: F32_ONE }
    }

    pub fn white() -> (c: Color)
        ensures
            c == (Color { r: F32_ONE, g: F32_ONE, b: F32_ONE, a: F32_ONE }),
    {
        Color { r: F32_ONE, g: F32_ONE, b: F32_ONE, a: F32_ONE }
    }

    /// The channels in the order red, green, blue, alpha.
    pub fn to_rgba(&self) -> (rgba: [u32; 4])
        ensures
            rgba@ == seq![self.r, self.g, self.b, self.a],
    {
        let rgba: [u32; 4] = [self.r, self.g, self.b, self.a];
        assert(rgba@ =~= seq![self.r, self.g, self.b, self.a]);
        rgba
    }
}

/// The part of the target that is drawn to. Each number holds the bits of
/// a 32-bit float.
#[derive(Clone, Copy, Debug, PartialEq, Eq)]
pub struct Viewport {
    /// The top left corner, in pixels.
    pub origin: (u32, u32),
    /// The width and the height, in pixels.
    pub dimensions: (u32, u32),
    /// The least and the greatest depth.
    pub depth_range: (u32, u32),
}

/// One recorded command: exactly one of its fields is set.
#[derive(Clone, Copy, Debug, PartialEq, Eq)]
pub struct CommandData {
    pub viewport: Option<Viewport>,
    pub pipeline: Option<Handle>,
    pub vertex_buffer: Option<Handle>,
    /// The vertex count, the instance count, the first vertex and the
    /// first instance of a draw.
    pub draw: Option<(u32, u32, u32, u32)>,
}

/// A list of recorded commands, in the order recorded.
#[derive(Clone, Debug)]
pub struct CommandBuffer {
    pub commands: Vec<CommandData>,
}

impl CommandBuffer {
    /// A list with nothing recorded.
    pub fn new() -> (c: CommandBuffer)
        ensures
            c.commands@.len() == 0,
    {
        CommandBuffer { commands: Vec::new() }
    }

    /// Records the viewport to draw to.
    pub fn set_viewport(&mut self, viewport: Viewport)
        ensures
            final(self).commands@ == old(self).commands@.push(
                CommandData { viewport: Some(viewport), pipeline: None, vertex_buffer: None, draw: None },
            ),
    {
        self.commands.push(
            CommandData { viewport: Some(viewport), pipeline: None, vertex_buffer: None, draw: None },
        );
    }

    /// Records the pipeline to draw with.
    pub fn bind_pipeline(&mut self, pipeline: Handle)
        ensures
            final(self).commands@ == old(self).commands@.push(
                CommandData { viewport: None, pipeline: Some(pipeline), vertex_buffer: None, draw: None },
            ),
    {
        self.commands.push(
            CommandData { viewport: None, pipeline: Some(pipeline), vertex_buffer: None, draw: None },
        );
    }

    /// Records the vertex buffer to draw from.
    pub fn bind_vertex_buffer(&mut self, vertex_buffer: Handle)
        ensures
            final(self).commands@ == old(self).commands@.push(
                CommandData { viewport: None, pipeline: None, vertex_buffer: Some(vertex_buffer), draw: None },
            ),
    {
        self.commands.push(
            CommandData { viewport: None, pipeline: None, vertex_buffer: Some(vertex_buffer), draw: None },
        );
    }

    /// Records a draw.
    pub fn draw(&mut self, vertex_count: u32, instance_count: u32, first_vertex: u32, first_instance: u32)
        ensures
            final(self).commands@ == old(self).commands@.push(
                CommandData {
                    viewport: None,
                    pipeline: None,
                    vertex_buffer: None,
                    draw: Some((vertex_count, instance_count, first_vertex, first_instance)),
                },
            ),
    {
        self.commands.push(
            CommandData {
                viewport: None,
                pipeline: None,
                vertex_buffer: None,
                draw: Some((vertex_count, instance_count, first_vertex, first_instance)),
            },
        );
    }
}

/// What the frame loop remembers between frames.
#[derive(Clone, Copy, Debug, PartialEq, Eq, Structural)]
pub struct DeviceData {
    /// Whether the swapchain has to be replaced before the next image is
    /// asked for.
    pub recreate_swapchain: bool,
}

/// What a frame begins with.
#[derive(Clone, Copy, Debug, PartialEq, Eq, Structural)]
pub enum FrameStart {
    /// The window has no area: the frame is left out.
    Skip,
    /// The next image is asked for.
    Acquire,
    /// The swapchain is replaced with one of the window's size, and then
    /// the next image is asked for.
    Recreate { width: u32, height: u32 },
}

/// What came of replacing the swapchain.
#[derive(Clone, Copy, Debug, PartialEq, Eq, Structural)]
pub enum RecreateOutcome {
    Recreated,
    /// The surface does not support the extent, as happens while the
    /// window is being resized.
    ExtentNotSupported,
}

/// What came of asking for the next image.
#[derive(Clone, Copy, Debug, PartialEq, Eq, Structural)]
pub enum AcquireOutcome {
    Acquired { image_index: u32, suboptimal: bool },
    OutOfDate,
}

/// What came of submitting and presenting a frame.
#[derive(Clone, Copy, Debug, PartialEq, Eq, Structural)]
pub enum FlushOutcome {
    Flushed,
    OutOfDate,
}

/// The state of the frame loop.
#[derive(Clone, Copy, Debug, PartialEq, Eq, Structural)]
pub struct Device {
    /// The width of the window in pixels.
    pub width: u32,
    /// The height of the window in pixels.
    pub height: u32,
    /// The image that was acquired last.
    pub image_index: u32,
    /// Whether the image was acquired from a swapchain that fits badly.
    pub suboptimal: bool,
    /// Whether an image is acquired and not yet presented.
    pub acquired: bool,
    pub data: DeviceData,
}

impl Device {
    /// The frame loop for a window of the given size, with a swapchain
    /// that fits and no image acquired.
    pub fn create(width: u32, height: u32) -> (d: Device)
        ensures
            d == (Device {
                width,
                height,
                image_index: 0,
                suboptimal: false,
                acquired: false,
                data: DeviceData { recreate_swapchain: false },
            }),
    {
        Device {
            width,
            height,
            image_index: 0,
            suboptimal: false,
            acquired: false,
            data: DeviceData { recreate_swapchain: false },
        }
    }

    /// The size of the window in pixels.
    pub fn dimensions(&self) -> (size: (u32, u32))
        ensures
            size == (self.width, self.height),
    {
        (self.width, self.height)
    }

    pub open spec fn spec_minimized(&self) -> bool {
        self.width == 0 || self.height == 0
    }

    /// Whether the window has no area.
    #[verifier::when_used_as_spec(spec_minimized)]
    pub fn minimized(&self) -> (b: bool)
        ensures
            b == self.spec_minimized(),
    {
        self.width == 0 || self.height == 0
    }

    /// What the next frame begins with.
    pub fn begin_frame(&self) -> (start: FrameStart)
        ensures
            start == (if self.spec_minimized() {
                FrameStart::Skip
            } else if self.data.recreate_swapchain {
                FrameStart::Recreate { width: self.width, height: self.height }
            } else {
                FrameStart::Acquire
            }),
    {
        if self.minimized() {
            FrameStart::Skip
        } else if self.data.recreate_swapchain {
            FrameStart::Recreate { width: self.width, height: self.height }
        } else {
            FrameStart::Acquire
        }
    }

    /// Takes what came of replacing the swapchain. Returns whether the
    /// frame goes on to ask for an image: it does once the swapchain is
    /// replaced, and is left out where the extent was not supported, so
    /// that the next frame tries again.
    pub fn swapchain_recreated(&mut self, outcome: RecreateOutcome) -> (go_on: bool)
        ensures
            go_on == (outcome == RecreateOutcome::Recreated),
            *final(self) == (if go_on {
                Device { data: DeviceData { recreate_swapchain: false }, ..*old(self) }
            } else {
                *old(self)
            }),
    {
        match outcome {
            RecreateOutcome::Recreated => {
                self.data.recreate_swapchain = false;
                true
            },
            RecreateOutcome::ExtentNotSupported => false,
        }
    }

    /// Takes what came of asking for the next image. An image that was
    /// acquired can be drawn to; where its swapchain fits badly, or no
    /// image could be had because the surface is out of date, the
    /// swapchain is replaced before the next frame.
    pub fn image_acquired(&mut self, outcome: AcquireOutcome)
        ensures
            *final(self) == (match outcome {
                AcquireOutcome::Acquired { image_index, suboptimal } => Device {
                    image_index,
                    suboptimal,
                    acquired: true,
                    data: DeviceData { recreate_swapchain: old(self).data.recreate_swapchain || suboptimal },
                    ..*old(self)
                },
                AcquireOutcome::OutOfDate => Device { data: DeviceData { recreate_swapchain: true }, ..*old(self) },
            }),
    {
        match outcome {
            AcquireOutcome::Acquired { image_index, suboptimal } => {
                self.suboptimal = suboptimal;
                self.acquired = true;
                self.image_index = image_index;
                if suboptimal {
                    self.data.recreate_swapchain = true;
                }
            },
            AcquireOutcome::OutOfDate => {
                self.data.recreate_swapchain = true;
            },
        }
    }

    /// Ends the frame. Returns the image whose work is to be submitted and
    /// presented, if one was acquired; afterwards none is.
    pub fn end_frame(&mut self) -> (image: Option<u32>)
        ensures
            image == (if old(self).acquired {
                Some(old(self).image_index)
            } else {
                None
            }),
            *final(self) == (Device { acquired: false, ..*old(self) }),
    {
        if self.acquired {
            self.acquired = false;
            Some(self.image_index)
        } else {
            None
        }
    }

    /// Takes what came of submitting and presenting the frame: where the
    /// surface was out of date, the swapchain is replaced before the next
    /// frame.
    pub fn frame_flushed(&mut self, outcome: FlushOutcome)
        ensures
            *final(self) == (Device {
                data: DeviceData {
                    recreate_swapchain: old(self).data.recreate_swapchain || outcome == FlushOutcome::OutOfDate,
                },
                ..*old(self)
            }),
    {
        match outcome {
            FlushOutcome::Flushed => {},
            FlushOutcome::OutOfDate => {
                self.data.recreate_swapchain = true;
            },
        }
    }
}

/// The kinds of physical device.
#[derive(Clone, Copy, Debug, PartialEq, Eq, Structural)]
pub enum PhysicalDeviceType {
    DiscreteGpu,
    IntegratedGpu,
    VirtualGpu,
    Cpu,
    Other,
    /// A kind that has no name here.
    Unknown,
}

impl PhysicalDeviceType {
    /// How little a device of this kind is liked: the less, the better.
    pub open spec fn rank(self) -> int {
        match self {
            PhysicalDeviceType::DiscreteGpu => 0,
            PhysicalDeviceType::IntegratedGpu => 1,
            PhysicalDeviceType::VirtualGpu => 2,
            PhysicalDeviceType::Cpu => 3,
            PhysicalDeviceType::Other => 4,
            PhysicalDeviceType::Unknown => 5,
        }
    }

    fn exec_rank(self) -> (r: u8)
        ensures
            r == self.rank(),
    {
        match self {
            PhysicalDeviceType::DiscreteGpu => 0,
            PhysicalDeviceType::IntegratedGpu => 1,
            PhysicalDeviceType::VirtualGpu => 2,
            PhysicalDeviceType::Cpu => 3,
            PhysicalDeviceType::Other => 4,
            PhysicalDeviceType::Unknown => 5,
        }
    }
}

/// What is known of a physical device when one is picked.
#[derive(Clone, Copy, Debug, PartialEq, Eq, Structural)]
pub struct DeviceCandidate {
    pub device_type: PhysicalDeviceType,
    /// Whether the device offers the swapchain extension.
    pub has_swapchain_extension: bool,
    /// The first queue family of the device that does graphics work and
    /// can present to the surface, if it has one.
    pub queue_family: Option<u32>,
}

impl DeviceCandidate {
    /// Whether the device can be used at all.
    pub open spec fn eligible(self) -> bool {
        self.has_swapchain_extension && self.queue_family is Some
    }
}

/// Whether family `i` does graphics work and can present.
pub open spec fn draws_and_presents(families: Seq<QueueFamily>, i: int) -> bool {
    0 <= i < families.len() && families[i].has_graphics() && families[i].present_support
}

/// The first queue family that does graphics work and can present to the
/// surface as well, if its index is a 32-bit number.
pub fn graphics_present_family(families: &Vec<QueueFamily>) -> (r: Option<u32>)
    ensures
        r is Some ==> draws_and_presents(families@, r->Some_0 as int) && forall|j: int|
            0 <= j < r->Some_0 ==> !draws_and_presents(families@, j),
        r is None ==> forall|j: int| 0 <= j <= u32::MAX ==> !draws_and_presents(families@, j),
{
    let mut i: usize = 0;
    while i < families.len() && i <= u32::MAX as usize
        invariant
            i <= families.len(),
            i <= u32::MAX + 1,
            forall|j: int| 0 <= j < i ==> !draws_and_presents(families@, j),
        decreases families.len() - i,
    {
        let family = families[i];
        if family.queue_flags & QUEUE_GRAPHICS == QUEUE_GRAPHICS && family.present_support {
            return Some(i as u32);
        }
        i = i + 1;
    }
    None
}

/// Whether candidate `i` is the one to pick: it can be used, no candidate
/// that can be used is liked better, and of those liked as well it is the
/// first.
pub open spec fn is_best(candidates: Seq<DeviceCandidate>, i: int) -> bool {
    &&& 0 <= i < candidates.len()
    &&& candidates[i].eligible()
    &&& forall|j: int|
        0 <= j < candidates.len() && (#[trigger] candidates[j]).eligible() ==> candidates[i].device_type.rank()
            <= candidates[j].device_type.rank()
    &&& forall|j: int|
        0 <= j < i && (#[trigger] candidates[j]).eligible() ==> candidates[i].device_type.rank()
            < candidates[j].device_type.rank()
}

/// Picks the physical device to use: of those that offer the swapchain
/// extension and have a queue family that draws and presents, the one
/// whose kind is liked best (a discrete device before an integrated one,
/// then a virtual one, then the processor, then any other), and the first
/// of these. Returns where it stands among the candidates, with its queue
/// family; nothing where no candidate can be used.
pub fn pick_by_type(candidates: &Vec<DeviceCandidate>) -> (r: Option<(usize, u32)>)
    ensures
        r is Some <==> exists|i: int| 0 <= i < candidates@.len() && (#[trigger] candidates@[i]).eligible(),
        r is Some ==> is_best(candidates@, r->Some_0.0 as int),
        r is Some ==> candidates@[r->Some_0.0 as int].queue_family == Some(r->Some_0.1),
{
    let mut best: Option<(usize, u32)> = None;
    let mut best_rank: u8 = 6;
    let mut i: usize = 0;
    while i < candidates.len()
        invariant
            i <= candidates.len(),
            best is None ==> forall|j: int| 0 <= j < i ==> !(#[trigger] candidates@[j]).eligible(),
            best is Some ==> best->Some_0.0 < i && is_best(candidates@.subrange(0, i as int), best->Some_0.0 as int)
                && candidates@[best->Some_0.0 as int].queue_family == Some(best->Some_0.1) && best_rank
                == candidates@[best->Some_0.0 as int].device_type.rank(),
        decreases candidates.len() - i,
    {
        let c = candidates[i];
        let ghost before = candidates@.subrange(0, i as int);
        let ghost after = candidates@.subrange(0, i + 1);
        proof {
            assert(after[i as int] == c);
            assert forall|j: int| 0 <= j < i implies after[j] == before[j] by {}
        }
        if c.has_swapchain_extension {
            match c.queue_family {
                Some(family) => {
                    let rank = c.device_type.exec_rank();
                    if best.is_none() || rank < best_rank {
                        proof {
                            assert forall|j: int| 0 <= j < after.len() && (#[trigger] after[j]).eligible() implies rank
                                <= after[j].device_type.rank() by {
                                if j < i {
                                    assert(before[j].eligible());
                                }
                            }
                            assert forall|j: int| 0 <= j < i && (#[trigger] after[j]).eligible() implies rank
                                < after[j].device_type.rank() by {
                                assert(before[j].eligible());
                            }
                        }
                        best = Some((i, family));
                        best_rank = rank;
                    } else {
                        proof {
                            let b = best->Some_0.0 as int;
                            assert(after[b] == before[b]);
                            assert forall|j: int| 0 <= j < after.len() && (#[trigger] after[j]).eligible()
                                implies after[b].device_type.rank() <= after[j].device_type.rank() by {
                                if j < i {
                                    assert(before[j].eligible());
                                }
                            }
                            assert forall|j: int| 0 <= j < b && (#[trigger] after[j]).eligible()
                                implies after[b].device_type.rank() < after[j].device_type.rank() by {
                                assert(before[j].eligible());
                            }
                        }
                    }
                },
                None => {
                    proof {
                        if best is Some {
                            let b = best->Some_0.0 as int;
                            assert(after[b] == before[b]);
                            assert forall|j: int| 0 <= j < after.len() && (#[trigger] after[j]).eligible()
                                implies after[b].device_type.rank() <= after[j].device_type.rank() by {
                                if j < i {
                                    assert(before[j].eligible());
                                }
                            }
                            assert forall|j: int| 0 <= j < b && (#[trigger] after[j]).eligible()
                                implies after[b].device_type.rank() < after[j].device_type.rank() by {
                                assert(before[j].eligible());
                            }
                        }
                    }
                },
            }
        } else {
            proof {
                if best is Some {
                    let b = best->Some_0.0 as int;
                    assert(after[b] == before[b]);
                    assert forall|j: int| 0 <= j < after.len() && (#[trigger] after[j]).eligible()
                        implies after[b].device_type.rank() <= after[j].device_type.rank() by {
                        if j < i {
                            assert(before[j].eligible());
                        }
                    }
                    assert forall|j: int| 0 <= j < b && (#[trigger] after[j]).eligible()
                        implies after[b].device_type.rank() < after[j].device_type.rank() by {
                        assert(before[j].eligible());
                    }
                }
            }
        }
        i = i + 1;
    }
    proof {
        assert(candidates@.subrange(0, i as int) =~= candidates@);
    }
    best
}

} // verus!
