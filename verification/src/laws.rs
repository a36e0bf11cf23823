//! What holds of every run of the frame loop.
//!
//! A run is a sequence of calls on the device, each with the commands it
//! returned. The laws here judge the commands of a whole run, in their
//! order, against the model of the device's timeline.

use vstd::prelude::*;
use crate::handle::Handle;
use crate::command::{ClearColor, DeviceCommand};
use crate::device::{
    AcquireResult, CommandResources, FramePhase, PresentResult, RenderTargets, SwapchainResources,
    VulkanDevice, VulkanDeviceData, F32_ONE, fallback_clear_color, open_pass,
};
use crate::swap::Swapchain;
use crate::plan::{
    destroy_all, destroy_buffers, destroy_if_set, destroy_target, distinct, free_command_buffers, stage_all,
};
use crate::timeline::{
    all_record_into, all_teardown, lemma_concat, lemma_one, lemma_record, lemma_stage,
    lemma_teardown, Timeline,
};

verus! {

/// A call on the device that succeeded.
pub enum FrameEvent {
    BeginFrame,
    ImageAcquired { result: AcquireResult },
    /// A command that an encoder recorded for the bound image.
    Record { command: DeviceCommand },
    ClearFrame { color: Option<ClearColor>, depth: Option<u32> },
    Submit { command_buffers: Seq<Handle> },
    EndFrame,
    FrameSubmitted,
    FramePresented { status: PresentResult },
    Recreate { resources: SwapchainResources },
    SwapchainReplaced { swapchain: Swapchain },
    TargetsReplaced { targets: RenderTargets },
    CommandsReplaced { commands: CommandResources },
    Reset,
    /// The flag that the window's size has changed was set from outside.
    Resized { resized: bool },
    Destroy,
}

/// Whether the call `event` takes the device from `pre` to `post` and
/// returns `commands`.
pub open spec fn transition(
    pre: VulkanDevice,
    event: FrameEvent,
    post: VulkanDevice,
    commands: Seq<DeviceCommand>,
) -> bool {
    match event {
        FrameEvent::BeginFrame => {
            &&& pre.phase == FramePhase::Idle
            &&& commands == pre.begin_frame_plan()
            &&& post.phase == FramePhase::Acquiring
            &&& post.sync.in_flight_fence == pre.slot_fence()
            &&& post.sync.fences_in_flight == pre.sync.fences_in_flight
            &&& post.sync.textures_in_flight == pre.sync.textures_in_flight
            &&& post.data == pre.data
            &&& post.frame_index == pre.frame_index
        },
        FrameEvent::ImageAcquired { result } => {
            &&& pre.phase == FramePhase::Acquiring
            &&& match result {
                AcquireResult::Acquired { image_index } => {
                    &&& image_index < pre.image_count()
                    &&& commands == pre.image_wait_plan(image_index as int)
                    &&& post.bound_from(&pre, image_index as int)
                },
                AcquireResult::OutOfDate => {
                    &&& commands == pre.invalidation_plan()
                    &&& post.invalidated_from(&pre)
                    &&& post.frame_index == pre.frame_index
                },
                AcquireResult::Failed { .. } => false,
            }
        },
        FrameEvent::Record { command } => {
            &&& pre.phase == FramePhase::Recording
            &&& command.recorded_buffer() is Some
            &&& !(command is FreeCommandBuffer)
            &&& commands == seq![command]
            &&& post == pre
        },
        FrameEvent::ClearFrame { color, depth } => {
            &&& pre.phase == FramePhase::Recording
            &&& commands == pre.clear_pass_plan(color, depth)
            &&& post.queued_from(&pre, seq![pre.frame_buffer()])
        },
        FrameEvent::Submit { command_buffers } => {
            &&& pre.phase == FramePhase::Recording
            &&& commands.len() == 0
            &&& post.queued_from(&pre, command_buffers)
        },
        FrameEvent::EndFrame => {
            &&& pre.phase == FramePhase::Recording
            &&& commands == pre.end_frame_plan()
            &&& post.flushed_from(&pre, FramePhase::Submitting)
        },
        FrameEvent::FrameSubmitted => {
            &&& pre.phase == FramePhase::Submitting
            &&& commands == seq![pre.present_plan()]
            &&& post == (VulkanDevice { phase: FramePhase::Presenting, ..pre })
        },
        FrameEvent::FramePresented { status: result } => {
            &&& pre.phase == FramePhase::Presenting
            &&& !(result is Failed)
            &&& post.frame_index == pre.next_slot()
            &&& if pre.must_rebuild(result) {
                &&& commands == pre.invalidation_plan()
                &&& post.invalidated_from(&pre)
                &&& !post.resized
            } else {
                &&& commands.len() == 0
                &&& post == (VulkanDevice {
                    phase: FramePhase::Idle,
                    frame_index: pre.next_slot() as usize,
                    ..pre
                })
            }
        },
        FrameEvent::Recreate { resources } => {
            &&& pre.phase == FramePhase::Invalidated
            &&& pre.data.torn_down()
            &&& resources.complete()
            &&& commands.len() == 0
            &&& post.rebuilt_from(&pre, &resources)
        },
        FrameEvent::SwapchainReplaced { swapchain } => {
            &&& pre.phase == FramePhase::Invalidated
            &&& pre.data.torn_down()
            &&& swapchain.wf()
            &&& commands.len() == 0
            &&& post.phase == FramePhase::Invalidated
            &&& post.data.awaits_targets()
            &&& post.data.swapchain == swapchain
            &&& post.sync == pre.sync
            &&& post.frame_index == pre.frame_index
        },
        FrameEvent::TargetsReplaced { targets } => {
            &&& pre.phase == FramePhase::Invalidated
            &&& pre.data.awaits_targets()
            &&& targets.framebuffers@.len() == pre.image_count()
            &&& commands.len() == 0
            &&& post.phase == FramePhase::Invalidated
            &&& post.data.awaits_commands()
            &&& post.data.swapchain == pre.data.swapchain
            &&& post.data.framebuffers == targets.framebuffers
            &&& post.data.render_pass == targets.render_pass
            &&& post.sync == pre.sync
            &&& post.frame_index == pre.frame_index
        },
        FrameEvent::CommandsReplaced { commands: replacement } => {
            &&& pre.phase == FramePhase::Invalidated
            &&& pre.data.awaits_commands()
            &&& replacement.command_buffers@.len() == pre.image_count()
            &&& distinct(replacement.command_buffers@)
            &&& commands.len() == 0
            &&& post.recording_from(&pre, &replacement)
        },
        FrameEvent::Reset => {
            &&& pre.phase == FramePhase::Idle
            &&& if pre.resized {
                &&& commands == pre.invalidation_plan()
                &&& post.invalidated_from(&pre)
                &&& post.frame_index == pre.frame_index
                &&& !post.resized
            } else {
                &&& commands.len() == 0
                &&& post == pre
            }
        },
        FrameEvent::Resized { resized } => {
            &&& commands.len() == 0
            &&& post == (VulkanDevice { resized, ..pre })
        },
        FrameEvent::Destroy => {
            &&& commands == pre.destroy_plan()
            &&& post.invalidated_from(&pre)
            &&& post.frame_index == pre.frame_index
        },
    }
}

/// Whether `owner` gives each command buffer of `buffers` the index that it
/// has there.
pub open spec fn owns(buffers: Seq<Handle>, owner: Map<Handle, int>) -> bool {
    forall|i: int|
        0 <= i < buffers.len() ==> owner.contains_key(#[trigger] buffers[i]) && owner[buffers[i]] == i
}

/// Whether the caller keeps each command buffer to one image in the call
/// `event`, which takes the device from `pre` to `post`, where `owner`
/// names the image that each command buffer belongs to before the call,
/// and `owner_after` after it.
///
/// What an encoder records, it records into a command buffer of the bound
/// image, and only command buffers of the bound image are handed over for
/// submission. Which image a command buffer belongs to changes only when
/// the swapchain is given up or replaced, and then the new command buffers
/// belong to the images in their order.
pub open spec fn one_image_per_buffer(
    owner: Map<Handle, int>,
    pre: VulkanDevice,
    event: FrameEvent,
    post: VulkanDevice,
    owner_after: Map<Handle, int>,
) -> bool {
    match event {
        FrameEvent::Record { command } => {
            &&& owner_after == owner
            &&& command.recorded_buffer() is Some ==> owner.contains_key(command.recorded_buffer()->Some_0)
                && owner[command.recorded_buffer()->Some_0] == pre.swap_index
        },
        FrameEvent::Submit { command_buffers } => {
            &&& owner_after == owner
            &&& forall|k: int|
                0 <= k < command_buffers.len() ==> owner.contains_key(#[trigger] command_buffers[k])
                    && owner[command_buffers[k]] == pre.swap_index
        },
        FrameEvent::Recreate { resources } => owns(resources.command_buffers@, owner_after),
        FrameEvent::CommandsReplaced { commands } => owns(commands.command_buffers@, owner_after),
        _ => owner_after == owner || post.phase == FramePhase::Invalidated,
    }
}

/// Whether the fence that guards image `image` covers submission
/// `submission`: the fence is set, and it is signaled by that submission or
/// a later one.
pub open spec fn covered(d: VulkanDevice, t: Timeline, image: int, submission: nat) -> bool {
    let fence = d.sync.textures_in_flight@[image];
    !fence.is_null() && t.fence_of.contains_key(fence) && submission <= t.fence_of[fence]
}

/// Whether the state of the device fits the timeline, where `owner` names
/// the image that each command buffer belongs to.
pub open spec fn consistent(d: VulkanDevice, t: Timeline, owner: Map<Handle, int>) -> bool {
    &&& d.wf()
    &&& t.wf()
    &&& t.staged.len() == 0
    &&& d.phase == FramePhase::Invalidated ==> t.idle()
    &&& d.phase != FramePhase::Invalidated ==> owns(d.data.command_buffers@, owner)
    &&& d.phase != FramePhase::Invalidated ==> forall|b: Handle| #[trigger]
        t.busy(b) ==> owner.contains_key(b) && 0 <= owner[b] < d.image_count() && covered(
            d,
            t,
            owner[b],
            t.last_use[b],
        )
    &&& d.phase == FramePhase::Acquiring || d.phase == FramePhase::Recording ==> !t.pending(d.slot_fence())
    &&& d.phase == FramePhase::Recording ==> forall|b: Handle|
        owner.contains_key(b) && owner[b] == d.swap_index ==> !(#[trigger] t.busy(b))
    &&& d.phase == FramePhase::Recording ==> forall|k: int|
        0 <= k < d.pending(d.swap_index as int).len() ==> owner.contains_key(
            #[trigger] d.pending(d.swap_index as int)[k],
        ) && owner[d.pending(d.swap_index as int)[k]] == d.swap_index
    &&& d.has_image() ==> d.sync.textures_in_flight@[d.swap_index as int] == d.slot_fence()
}

/// All that `swapchain_teardown` returns only destroys or frees.
pub proof fn lemma_teardown_only_destroys(data: VulkanDeviceData)
    ensures
        all_teardown(data.swapchain_teardown()),
{
    let a = free_command_buffers(data.command_pool, data.command_buffers@);
    let b = destroy_if_set(crate::command::ObjectKind::DescriptorPool, data.descriptor_pool);
    let c = destroy_buffers(data.uniform_buffers@);
    let d = destroy_all(crate::command::ObjectKind::Framebuffer, data.framebuffers@);
    let e = destroy_if_set(crate::command::ObjectKind::Pipeline, data.pipeline);
    let f = destroy_if_set(crate::command::ObjectKind::PipelineLayout, data.pipeline_layout);
    let g = destroy_if_set(crate::command::ObjectKind::RenderPass, data.render_pass);
    let h = destroy_target(data.blit_albedo_view, data.blit_albedo_texture);
    let i = destroy_target(data.blit_depth_view, data.blit_depth_texture);
    let j = destroy_all(crate::command::ObjectKind::ImageView, crate::swap::view_handles(data.swapchain.views@));
    let k = destroy_if_set(crate::command::ObjectKind::Swapchain, data.swapchain.handle);
    assert(all_teardown(a));
    assert(all_teardown(b));
    assert(all_teardown(c));
    assert(all_teardown(d));
    assert(all_teardown(e));
    assert(all_teardown(f));
    assert(all_teardown(g));
    assert(all_teardown(h));
    assert(all_teardown(i));
    assert(all_teardown(j));
    assert(all_teardown(k));
    assert(all_teardown(a + b));
    assert(all_teardown(a + b + c));
    assert(all_teardown(a + b + c + d));
    assert(all_teardown(a + b + c + d + e));
    assert(all_teardown(a + b + c + d + e + f));
    assert(all_teardown(a + b + c + d + e + f + g));
    assert(all_teardown(a + b + c + d + e + f + g + h));
    assert(all_teardown(a + b + c + d + e + f + g + h + i));
    assert(all_teardown(a + b + c + d + e + f + g + h + i + j));
    assert(all_teardown(a + b + c + d + e + f + g + h + i + j + k));
}

/// Giving up the swapchain may be carried out at any time, and leaves the
/// device idle.
pub proof fn lemma_invalidation(d: VulkanDevice, t: Timeline)
    requires
        t.wf(),
    ensures
        t.allows_all(d.invalidation_plan()),
        t.after_all(d.invalidation_plan()) == (Timeline { completed: t.next, ..t }),
{
    let idle = Timeline { completed: t.next, ..t };
    lemma_one(t, DeviceCommand::DeviceWaitIdle);
    lemma_teardown_only_destroys(d.data);
    lemma_teardown(idle, d.data.swapchain_teardown());
    lemma_concat(t, seq![DeviceCommand::DeviceWaitIdle], d.data.swapchain_teardown());
}

/// The timeline after the commands buffers `buffers` have been submitted
/// with `fence`.
pub open spec fn submitted(t: Timeline, fence: Handle, buffers: Seq<Handle>) -> Timeline {
    Timeline {
        next: t.next + 1,
        completed: t.completed,
        fence_of: t.fence_of.insert(fence, t.next),
        last_use: Map::new(
            |b: Handle| t.last_use.contains_key(b) || buffers.contains(b),
            |b: Handle| if buffers.contains(b) { t.next } else { t.last_use[b] },
        ),
        staged: Seq::empty(),
    }
}

/// A submission in the frame slot in use may be carried out when nothing
/// is staged and the slot's fence is not pending.
pub proof fn lemma_submission(d: VulkanDevice, t: Timeline, buffers: Seq<Handle>)
    requires
        t.staged.len() == 0,
        !t.pending(d.slot_fence()),
    ensures
        t.allows_all(d.submission_plan(buffers)),
        t.after_all(d.submission_plan(buffers)) == submitted(t, d.slot_fence(), buffers),
{
    let reset = DeviceCommand::ResetFence { fence: d.slot_fence() };
    let submit = DeviceCommand::QueueSubmit {
        queue: d.data.graphics_queue,
        wait_semaphore: d.sync.image_available_semaphores@[d.frame_index as int],
        signal_semaphore: d.sync.render_finished_semaphores@[d.frame_index as int],
        fence: d.slot_fence(),
    };
    let staged = Timeline { staged: t.staged + buffers, ..t };
    lemma_one(t, reset);
    lemma_stage(t, buffers);
    lemma_one(staged, submit);
    lemma_concat(t, seq![reset], stage_all(buffers));
    lemma_concat(t, seq![reset] + stage_all(buffers), seq![submit]);
    assert(t.staged + buffers =~= buffers);
    assert(staged.after(submit).last_use =~= submitted(t, d.slot_fence(), buffers).last_use);
}

/// A pass that only clears may be recorded for the bound image when no
/// running submission holds the image's command buffer.
pub proof fn lemma_clear_pass(d: VulkanDevice, t: Timeline, color: Option<ClearColor>, depth: Option<u32>)
    requires
        !t.busy(d.frame_buffer()),
    ensures
        t.allows_all(d.clear_pass_plan(color, depth)),
        t.after_all(d.clear_pass_plan(color, depth)) == t,
{
    assert(all_record_into(d.clear_pass_plan(color, depth), d.frame_buffer()));
    lemma_record(t, d.clear_pass_plan(color, depth), d.frame_buffer());
}

/// A device between frames that nothing has been submitted to fits the
/// fresh timeline.
pub proof fn lemma_created_is_consistent(d: VulkanDevice, owner: Map<Handle, int>)
    requires
        d.wf(),
        d.phase == FramePhase::Idle,
        owns(d.data.command_buffers@, owner),
    ensures
        consistent(d, Timeline::fresh(), owner),
{
}

proof fn lemma_step_begin_frame(
    pre: VulkanDevice,
    post: VulkanDevice,
    commands: Seq<DeviceCommand>,
    t: Timeline,
    owner: Map<Handle, int>,
)
    requires
        consistent(pre, t, owner),
        post.wf(),
        transition(pre, FrameEvent::BeginFrame, post, commands),
    ensures
        t.allows_all(commands),
        consistent(post, t.after_all(commands), owner),
{
    let wait = DeviceCommand::WaitForFence { fence: pre.slot_fence() };
    let acquire = commands[1];
    assert(commands =~= seq![wait] + seq![acquire]);
    lemma_one(t, wait);
    lemma_one(t.after(wait), acquire);
    lemma_concat(t, seq![wait], seq![acquire]);
    let t1 = t.after(wait);
    assert(t.after_all(commands) == t1);
    assert forall|b: Handle| #[trigger] t1.busy(b) implies owner.contains_key(b) && 0 <= owner[b]
        < post.image_count() && covered(post, t1, owner[b], t1.last_use[b]) by {
        assert(t.busy(b));
    }
}

proof fn lemma_step_image_acquired(
    pre: VulkanDevice,
    result: AcquireResult,
    post: VulkanDevice,
    commands: Seq<DeviceCommand>,
    t: Timeline,
    owner: Map<Handle, int>,
)
    requires
        consistent(pre, t, owner),
        post.wf(),
        transition(pre, FrameEvent::ImageAcquired { result }, post, commands),
    ensures
        t.allows_all(commands),
        consistent(post, t.after_all(commands), owner),
{
    match result {
        AcquireResult::Acquired { image_index } => {
            let i = image_index as int;
            let guard = pre.sync.textures_in_flight@[i];
            let t1 = if guard.is_null() {
                t
            } else {
                t.after(DeviceCommand::WaitForFence { fence: guard })
            };
            if guard.is_null() {
                assert(commands =~= Seq::<DeviceCommand>::empty());
            } else {
                lemma_one(t, DeviceCommand::WaitForFence { fence: guard });
            }
            assert(t.after_all(commands) == t1);
            assert(post.slot_fence() == pre.slot_fence());
            assert forall|b: Handle| #[trigger] t1.busy(b) implies owner.contains_key(b) && 0 <= owner[b]
                < post.image_count() && covered(post, t1, owner[b], t1.last_use[b]) && owner[b] != i by {
                assert(t.busy(b));
            }
            assert(post.pending(post.swap_index as int) == pre.pending(i));
        },
        AcquireResult::OutOfDate => {
            lemma_invalidation(pre, t);
        },
        AcquireResult::Failed { .. } => {},
    }
}

proof fn lemma_step_record(
    pre: VulkanDevice,
    command: DeviceCommand,
    post: VulkanDevice,
    commands: Seq<DeviceCommand>,
    t: Timeline,
    owner: Map<Handle, int>,
)
    requires
        consistent(pre, t, owner),
        transition(pre, FrameEvent::Record { command }, post, commands),
        one_image_per_buffer(owner, pre, FrameEvent::Record { command }, post, owner),
    ensures
        t.allows_all(commands),
        consistent(post, t.after_all(commands), owner),
{
    lemma_one(t, command);
    let b = command.recorded_buffer()->Some_0;
    assert(!t.busy(b));
}

proof fn lemma_step_queue(
    pre: VulkanDevice,
    added: Seq<Handle>,
    post: VulkanDevice,
    t: Timeline,
    owner: Map<Handle, int>,
)
    requires
        consistent(pre, t, owner),
        post.wf(),
        pre.phase == FramePhase::Recording,
        post.queued_from(&pre, added),
        forall|k: int|
            0 <= k < added.len() ==> owner.contains_key(#[trigger] added[k]) && owner[added[k]] == pre.swap_index,
    ensures
        consistent(post, t, owner),
{
    assert(post.slot_fence() == pre.slot_fence());
    assert forall|b: Handle| #[trigger] t.busy(b) implies owner.contains_key(b) && 0 <= owner[b]
        < post.image_count() && covered(post, t, owner[b], t.last_use[b]) by {}
    let q = post.pending(post.swap_index as int);
    let q0 = pre.pending(pre.swap_index as int);
    assert forall|k: int| 0 <= k < q.len() implies owner.contains_key(#[trigger] q[k]) && owner[q[k]]
        == post.swap_index by {
        if k < q0.len() {
            assert(q[k] == q0[k]);
        } else {
            assert(q[k] == added[k - q0.len()]);
        }
    }
}

proof fn lemma_step_end_frame(
    pre: VulkanDevice,
    post: VulkanDevice,
    commands: Seq<DeviceCommand>,
    t: Timeline,
    owner: Map<Handle, int>,
)
    requires
        consistent(pre, t, owner),
        post.wf(),
        transition(pre, FrameEvent::EndFrame, post, commands),
    ensures
        t.allows_all(commands),
        consistent(post, t.after_all(commands), owner),
{
    let buffers = pre.submitted_buffers();
    let fence = pre.slot_fence();
    let t1 = submitted(t, fence, buffers);
    let i = pre.swap_index as int;
    assert(owner.contains_key(pre.frame_buffer()) && owner[pre.frame_buffer()] == i);
    lemma_submission(pre, t, buffers);
    if pre.pending(i).len() == 0 {
        let clear = pre.clear_pass_plan(Some(fallback_clear_color()), Some(F32_ONE));
        lemma_clear_pass(pre, t, Some(fallback_clear_color()), Some(F32_ONE));
        lemma_concat(t, clear, pre.submission_plan(buffers));
    }
    assert(t.after_all(commands) == t1);
    assert(post.slot_fence() == fence);
    assert(!fence.is_null());
    assert forall|k: int| 0 <= k < buffers.len() implies owner.contains_key(#[trigger] buffers[k])
        && owner[buffers[k]] == i by {
        if pre.pending(i).len() > 0 {
            assert(buffers[k] == pre.pending(i)[k]);
        }
    }
    assert forall|b: Handle| #[trigger] t1.busy(b) implies owner.contains_key(b) && 0 <= owner[b]
        < post.image_count() && covered(post, t1, owner[b], t1.last_use[b]) by {
        if buffers.contains(b) {
            let k = choose|k: int| 0 <= k < buffers.len() && buffers[k] == b;
            assert(owner[buffers[k]] == i);
        } else {
            assert(t.busy(b));
            assert(covered(pre, t, owner[b], t.last_use[b]));
        }
    }
}

proof fn lemma_step_presented(
    pre: VulkanDevice,
    result: PresentResult,
    post: VulkanDevice,
    commands: Seq<DeviceCommand>,
    t: Timeline,
    owner: Map<Handle, int>,
)
    requires
        consistent(pre, t, owner),
        post.wf(),
        transition(pre, FrameEvent::FramePresented { status: result }, post, commands),
    ensures
        t.allows_all(commands),
        consistent(post, t.after_all(commands), owner),
{
    if pre.must_rebuild(result) {
        lemma_invalidation(pre, t);
    } else {
        assert(commands =~= Seq::<DeviceCommand>::empty());
        assert forall|b: Handle| #[trigger] t.busy(b) implies owner.contains_key(b) && 0 <= owner[b]
            < post.image_count() && covered(post, t, owner[b], t.last_use[b]) by {}
    }
}

proof fn lemma_step_destroy(
    pre: VulkanDevice,
    post: VulkanDevice,
    commands: Seq<DeviceCommand>,
    t: Timeline,
    owner: Map<Handle, int>,
)
    requires
        consistent(pre, t, owner),
        post.wf(),
        transition(pre, FrameEvent::Destroy, post, commands),
    ensures
        t.allows_all(commands),
        consistent(post, t.after_all(commands), owner),
{
    let idle = Timeline { completed: t.next, ..t };
    lemma_invalidation(pre, t);
    lemma_shutdown_only_destroys(pre);
    lemma_teardown(idle, pre.shutdown_plan());
    lemma_concat(t, pre.invalidation_plan(), pre.shutdown_plan());
}

/// All that `shutdown_plan` holds only destroys.
pub proof fn lemma_shutdown_only_destroys(d: VulkanDevice)
    ensures
        all_teardown(d.shutdown_plan()),
{
    let a = d.sync.destroy_plan();
    let b = destroy_if_set(crate::command::ObjectKind::Sampler, d.data.back_albedo_sampler);
    let c = destroy_target(d.data.back_albedo_view, d.data.back_albedo_texture);
    let e = destroy_if_set(crate::command::ObjectKind::CommandPool, d.data.command_pool);
    let f = destroy_if_set(crate::command::ObjectKind::DescriptorSetLayout, d.data.descriptor_set_layout);
    let g = seq![
        DeviceCommand::Destroy { kind: crate::command::ObjectKind::Device, handle: d.api.logical_device },
        DeviceCommand::Destroy { kind: crate::command::ObjectKind::Surface, handle: d.data.surface },
    ];
    let h = match d.messenger {
        Some(m) => seq![DeviceCommand::Destroy { kind: crate::command::ObjectKind::DebugMessenger, handle: m }],
        None => Seq::empty(),
    };
    let i = seq![DeviceCommand::Destroy { kind: crate::command::ObjectKind::Instance, handle: d.api.instance }];
    let a1 = destroy_all(crate::command::ObjectKind::Fence, d.sync.fences_in_flight@);
    let a2 = destroy_all(crate::command::ObjectKind::Semaphore, d.sync.render_finished_semaphores@);
    let a3 = destroy_all(crate::command::ObjectKind::Semaphore, d.sync.image_available_semaphores@);
    assert(all_teardown(a1));
    assert(all_teardown(a2));
    assert(all_teardown(a3));
    assert(all_teardown(a1 + a2));
    assert(all_teardown(a));
    assert(all_teardown(b));
    assert(all_teardown(c));
    assert(all_teardown(e));
    assert(all_teardown(f));
    assert(all_teardown(g));
    assert(all_teardown(h));
    assert(all_teardown(i));
    assert(all_teardown(a + b));
    assert(all_teardown(a + b + c));
    assert(all_teardown(a + b + c + e));
    assert(all_teardown(a + b + c + e + f));
    assert(all_teardown(a + b + c + e + f + g));
    assert(all_teardown(a + b + c + e + f + g + h));
    assert(all_teardown(a + b + c + e + f + g + h + i));
}

/// Each call that succeeds returns commands that may be carried out, and
/// leaves the device in a state that fits the timeline after them.
pub proof fn lemma_step(
    pre: VulkanDevice,
    event: FrameEvent,
    post: VulkanDevice,
    commands: Seq<DeviceCommand>,
    t: Timeline,
    owner: Map<Handle, int>,
    owner_after: Map<Handle, int>,
)
    requires
        consistent(pre, t, owner),
        post.wf(),
        transition(pre, event, post, commands),
        one_image_per_buffer(owner, pre, event, post, owner_after),
    ensures
        t.allows_all(commands),
        consistent(post, t.after_all(commands), owner_after),
{
    lemma_step_same_owner(pre, event, post, commands, t, owner, owner_after);
    if !(event is Recreate) && !(event is CommandsReplaced) && owner_after != owner {
        lemma_any_owner_fits_no_swapchain(post, t.after_all(commands), owner, owner_after);
    }
}

/// A device that has given up its swapchain fits the timeline whatever
/// image the command buffers are said to belong to.
pub proof fn lemma_any_owner_fits_no_swapchain(
    d: VulkanDevice,
    t: Timeline,
    owner: Map<Handle, int>,
    other: Map<Handle, int>,
)
    requires
        consistent(d, t, owner),
        d.phase == FramePhase::Invalidated,
    ensures
        consistent(d, t, other),
{
}

proof fn lemma_step_same_owner(
    pre: VulkanDevice,
    event: FrameEvent,
    post: VulkanDevice,
    commands: Seq<DeviceCommand>,
    t: Timeline,
    owner: Map<Handle, int>,
    owner_after: Map<Handle, int>,
)
    requires
        consistent(pre, t, owner),
        post.wf(),
        transition(pre, event, post, commands),
        one_image_per_buffer(owner, pre, event, post, owner_after),
    ensures
        t.allows_all(commands),
        consistent(
            post,
            t.after_all(commands),
            if event is Recreate || event is CommandsReplaced {
                owner_after
            } else {
                owner
            },
        ),
{
    match event {
        FrameEvent::BeginFrame => {
            lemma_step_begin_frame(pre, post, commands, t, owner);
        },
        FrameEvent::ImageAcquired { result } => {
            lemma_step_image_acquired(pre, result, post, commands, t, owner);
        },
        FrameEvent::Record { command } => {
            lemma_step_record(pre, command, post, commands, t, owner);
        },
        FrameEvent::ClearFrame { color, depth } => {
            lemma_clear_pass(pre, t, color, depth);
            lemma_step_queue(pre, seq![pre.frame_buffer()], post, t, owner);
        },
        FrameEvent::Submit { command_buffers } => {
            assert(commands =~= Seq::<DeviceCommand>::empty());
            lemma_step_queue(pre, command_buffers, post, t, owner);
        },
        FrameEvent::EndFrame => {
            lemma_step_end_frame(pre, post, commands, t, owner);
        },
        FrameEvent::FrameSubmitted => {
            lemma_one(t, pre.present_plan());
            assert forall|b: Handle| #[trigger] t.busy(b) implies owner.contains_key(b) && 0 <= owner[b]
                < post.image_count() && covered(post, t, owner[b], t.last_use[b]) by {}
        },
        FrameEvent::FramePresented { status: result } => {
            lemma_step_presented(pre, result, post, commands, t, owner);
        },
        FrameEvent::Recreate { resources } => {
            assert(commands =~= Seq::<DeviceCommand>::empty());
            assert(post.data.command_buffers@ == resources.command_buffers@);
        },
        FrameEvent::SwapchainReplaced { .. } => {
            assert(commands =~= Seq::<DeviceCommand>::empty());
        },
        FrameEvent::TargetsReplaced { .. } => {
            assert(commands =~= Seq::<DeviceCommand>::empty());
        },
        FrameEvent::CommandsReplaced { commands: replacement } => {
            assert(commands =~= Seq::<DeviceCommand>::empty());
            assert(post.data.command_buffers@ == replacement.command_buffers@);
        },
        FrameEvent::Reset => {
            if pre.resized {
                lemma_invalidation(pre, t);
            } else {
                assert(commands =~= Seq::<DeviceCommand>::empty());
            }
        },
        FrameEvent::Resized { resized } => {
            assert(commands =~= Seq::<DeviceCommand>::empty());
            assert(post.slot_fence() == pre.slot_fence());
            assert forall|b: Handle| #[trigger] t.busy(b) implies (post.phase != FramePhase::Invalidated
                ==> owner.contains_key(b) && 0 <= owner[b] < post.image_count() && covered(
                post,
                t,
                owner[b],
                t.last_use[b],
            )) by {}
            if post.phase == FramePhase::Recording {
                assert(post.pending(post.swap_index as int) == pre.pending(pre.swap_index as int));
            }
        },
        FrameEvent::Destroy => {
            lemma_step_destroy(pre, post, commands, t, owner);
        },
    }
}

/// The commands of all the calls of a run, in their order.
pub open spec fn all_commands(emitted: Seq<Seq<DeviceCommand>>) -> Seq<DeviceCommand>
    decreases emitted.len(),
{
    if emitted.len() == 0 {
        Seq::empty()
    } else {
        all_commands(emitted.drop_last()) + emitted.last()
    }
}

/// Whether the calls `events` take the device through `states` and return
/// `emitted`, the caller keeping each command buffer to one image, where
/// `owners` names for each state the image that each command buffer
/// belongs to.
pub open spec fn is_run(
    states: Seq<VulkanDevice>,
    owners: Seq<Map<Handle, int>>,
    events: Seq<FrameEvent>,
    emitted: Seq<Seq<DeviceCommand>>,
) -> bool {
    &&& states.len() == events.len() + 1
    &&& owners.len() == events.len() + 1
    &&& emitted.len() == events.len()
    &&& forall|k: int| 0 <= k < states.len() ==> (#[trigger] states[k]).wf()
    &&& forall|k: int|
        0 <= k < events.len() ==> transition(states[k], #[trigger] events[k], states[k + 1], emitted[k])
            && one_image_per_buffer(owners[k], states[k], events[k], states[k + 1], owners[k + 1])
}

/// In every run that starts between frames on a device that nothing has
/// been submitted to, each command may be carried out when its turn comes:
/// no command buffer is recorded into, reset or freed while a submission
/// that holds it may still run, which is to say that the fence of its
/// frame slot and the fence that guards its image have been waited for;
/// no fence is reset or given to a submission while it is pending; and
/// nothing is destroyed before the device is idle.
pub proof fn lemma_run_is_safe(
    states: Seq<VulkanDevice>,
    owners: Seq<Map<Handle, int>>,
    events: Seq<FrameEvent>,
    emitted: Seq<Seq<DeviceCommand>>,
)
    requires
        is_run(states, owners, events, emitted),
        states[0].phase == FramePhase::Idle,
        owns(states[0].data.command_buffers@, owners[0]),
    ensures
        Timeline::fresh().allows_all(all_commands(emitted)),
        consistent(states.last(), Timeline::fresh().after_all(all_commands(emitted)), owners.last()),
    decreases events.len(),
{
    if events.len() == 0 {
        lemma_created_is_consistent(states[0], owners[0]);
    } else {
        let n = events.len() - 1;
        let states0 = states.drop_last();
        let owners0 = owners.drop_last();
        let events0 = events.drop_last();
        let emitted0 = emitted.drop_last();
        assert forall|k: int| 0 <= k < events0.len() implies transition(
            states0[k],
            #[trigger] events0[k],
            states0[k + 1],
            emitted0[k],
        ) && one_image_per_buffer(owners0[k], states0[k], events0[k], states0[k + 1], owners0[k + 1]) by {
            assert(events0[k] == events[k]);
        }
        assert forall|k: int| 0 <= k < states0.len() implies (#[trigger] states0[k]).wf() by {
            assert(states0[k] == states[k]);
        }
        lemma_run_is_safe(states0, owners0, events0, emitted0);
        let t = Timeline::fresh().after_all(all_commands(emitted0));
        assert(states0.last() == states[n]);
        assert(owners0.last() == owners[n]);
        assert(states[n + 1].wf());
        assert(transition(states[n], events[n], states[n + 1], emitted[n]));
        lemma_step(states[n], events[n], states[n + 1], emitted[n], t, owners[n], owners[n + 1]);
        lemma_concat(Timeline::fresh(), all_commands(emitted0), emitted.last());
    }
}

/// The image that each of `buffers` belongs to where each belongs to the
/// image of its index.
pub open spec fn images_of(buffers: Seq<Handle>) -> Map<Handle, int> {
    Map::new(
        |b: Handle| exists|i: int| 0 <= i < buffers.len() && buffers[i] == b,
        |b: Handle| choose|i: int| 0 <= i < buffers.len() && buffers[i] == b,
    )
}

/// Command buffers of which none occurs twice each belong to the image of
/// their index.
pub proof fn lemma_distinct_buffers_have_images(buffers: Seq<Handle>)
    requires
        distinct(buffers),
    ensures
        owns(buffers, images_of(buffers)),
{
    assert forall|i: int| 0 <= i < buffers.len() implies images_of(buffers).contains_key(#[trigger] buffers[i])
        && images_of(buffers)[buffers[i]] == i by {
        let b = buffers[i];
        let j = choose|j: int| 0 <= j < buffers.len() && buffers[j] == b;
        if j < i {
            assert(buffers[j] != buffers[i]);
        } else if i < j {
            assert(buffers[i] != buffers[j]);
        }
    }
}

/// Whether the call records only what the frame loop records by itself:
/// no encoder records, and no command buffer is handed over from outside.
pub open spec fn is_own(event: FrameEvent) -> bool {
    !(event is Record) && !(event is Submit)
}

/// Whether the calls `events` take the device through `states` and return
/// `emitted`, and none of them brings in a command buffer from outside.
pub open spec fn is_own_run(
    states: Seq<VulkanDevice>,
    events: Seq<FrameEvent>,
    emitted: Seq<Seq<DeviceCommand>>,
) -> bool {
    &&& states.len() == events.len() + 1
    &&& emitted.len() == events.len()
    &&& forall|k: int| 0 <= k < states.len() ==> (#[trigger] states[k]).wf()
    &&& forall|k: int|
        0 <= k < events.len() ==> is_own(#[trigger] events[k]) && transition(
            states[k],
            events[k],
            states[k + 1],
            emitted[k],
        )
}

/// In every run of the frame loop by itself that starts between frames on
/// a device that nothing has been submitted to, each command may be
/// carried out when its turn comes. Nothing is asked of the caller: the
/// device keeps a command buffer of its own for each image.
pub proof fn lemma_own_run_is_safe(
    states: Seq<VulkanDevice>,
    events: Seq<FrameEvent>,
    emitted: Seq<Seq<DeviceCommand>>,
)
    requires
        is_own_run(states, events, emitted),
        states[0].phase == FramePhase::Idle,
    ensures
        Timeline::fresh().allows_all(all_commands(emitted)),
{
    let owners = Seq::new(states.len(), |k: int| images_of(states[k].data.command_buffers@));
    lemma_distinct_buffers_have_images(states[0].data.command_buffers@);
    assert forall|k: int| 0 <= k < events.len() implies transition(
        states[k],
        #[trigger] events[k],
        states[k + 1],
        emitted[k],
    ) && one_image_per_buffer(owners[k], states[k], events[k], states[k + 1], owners[k + 1]) by {
        let pre = states[k];
        let post = states[k + 1];
        assert(is_own(events[k]));
        assert(post.wf());
        match events[k] {
            FrameEvent::Recreate { resources } => {
                assert(post.data.command_buffers@ == resources.command_buffers@);
                lemma_distinct_buffers_have_images(resources.command_buffers@);
            },
            FrameEvent::CommandsReplaced { commands } => {
                assert(post.data.command_buffers@ == commands.command_buffers@);
                lemma_distinct_buffers_have_images(commands.command_buffers@);
            },
            _ => {
                if post.phase != FramePhase::Invalidated {
                    assert(post.data.command_buffers@ == pre.data.command_buffers@);
                }
            },
        }
    }
    lemma_run_is_safe(states, owners, events, emitted);
}

/// Once the swapchain is given up, taking it down a second time does
/// nothing: no object of the swapchain that was given up is held any more.
pub proof fn lemma_teardown_is_idempotent(data: VulkanDeviceData)
    requires
        data.torn_down(),
    ensures
        data.swapchain_teardown().len() == 0,
{
    assert(crate::swap::view_handles(data.swapchain.views@).len() == 0);
}

/// What is built on the swapchain after it has been replaced is what the
/// replacement brought, whatever the device held before: two devices that
/// are given the same replacement hold the same swapchain, the same render
/// pass and framebuffers, the same attachments and the same command
/// buffers.
pub proof fn lemma_rebuild_takes_nothing_over(
    before_a: VulkanDevice,
    before_b: VulkanDevice,
    after_a: VulkanDevice,
    after_b: VulkanDevice,
    resources: SwapchainResources,
)
    requires
        after_a.rebuilt_from(&before_a, &resources),
        after_b.rebuilt_from(&before_b, &resources),
    ensures
        after_a.data.same_built(&after_b.data),
        after_a.data.holds(&resources),
        after_a.sync.textures_in_flight@ == after_b.sync.textures_in_flight@,
{
}

/// After the swapchain has been replaced, its images, the entries of the
/// table of image fences, the command buffers, the framebuffers and the
/// queues of pending command buffers are equal in number.
pub proof fn lemma_rebuild_counts_agree(before: VulkanDevice, after: VulkanDevice, resources: SwapchainResources)
    requires
        resources.complete(),
        after.rebuilt_from(&before, &resources),
    ensures
        after.sync.image_count() == after.image_count(),
        after.data.command_buffers@.len() == after.image_count(),
        after.data.framebuffers@.len() == after.image_count(),
        after.data.command_buffer_queues@.len() == after.image_count(),
        after.image_count() == resources.swapchain.image_count(),
{
}

/// Whenever a swapchain is in use, whichever way it was put in place, its
/// images, the entries of the table of image fences, the command buffers,
/// the framebuffers and the queues of pending command buffers are equal in
/// number.
pub proof fn lemma_counts_agree(d: VulkanDevice)
    requires
        d.wf(),
        d.phase != FramePhase::Invalidated,
    ensures
        d.sync.image_count() == d.image_count(),
        d.data.command_buffers@.len() == d.image_count(),
        d.data.framebuffers@.len() == d.image_count(),
        d.data.command_buffer_queues@.len() == d.image_count(),
        d.image_count() > 0,
{
}

/// What is built on the swapchain after it has been replaced piece by
/// piece is what the three pieces brought, whatever the device held
/// before it gave its swapchain up.
pub proof fn lemma_staged_rebuild_holds_the_pieces(
    torn: VulkanDevice,
    first: VulkanDevice,
    second: VulkanDevice,
    third: VulkanDevice,
    swapchain: Swapchain,
    targets: RenderTargets,
    commands: CommandResources,
)
    requires
        transition(torn, FrameEvent::SwapchainReplaced { swapchain }, first, Seq::empty()),
        transition(first, FrameEvent::TargetsReplaced { targets }, second, Seq::empty()),
        transition(second, FrameEvent::CommandsReplaced { commands }, third, Seq::empty()),
    ensures
        third.phase == FramePhase::Idle,
        third.data.swapchain == swapchain,
        third.data.framebuffers == targets.framebuffers,
        third.data.render_pass == targets.render_pass,
        third.data.command_buffers == commands.command_buffers,
        third.data.framebuffers@.len() == swapchain.image_count(),
        third.data.command_buffers@.len() == swapchain.image_count(),
        third.sync.textures_in_flight@ == Seq::new(swapchain.image_count(), |i: int| Handle { raw: 0 }),
{
}

/// A frame for which nothing was recorded submits exactly one command
/// buffer, in exactly one submission: the command buffer of the bound
/// image, with a pass that only clears recorded into it just before.
pub proof fn lemma_fallback_submits_one_buffer(d: VulkanDevice)
    requires
        d.wf(),
        d.phase == FramePhase::Recording,
        d.pending(d.swap_index as int).len() == 0,
    ensures
        d.end_frame_plan().len() == 8,
        d.end_frame_plan().subrange(0, 5) == d.clear_pass_plan(Some(fallback_clear_color()), Some(F32_ONE)),
        d.end_frame_plan()[5] == (DeviceCommand::ResetFence { fence: d.slot_fence() }),
        d.end_frame_plan()[6] == (DeviceCommand::StageCommandBuffer { command_buffer: d.frame_buffer() }),
        d.end_frame_plan()[7] is QueueSubmit,
        forall|k: int| 0 <= k < 8 && k != 6 ==> !(#[trigger] d.end_frame_plan()[k] is StageCommandBuffer),
        forall|k: int| 0 <= k < 8 && k != 7 ==> !(#[trigger] d.end_frame_plan()[k] is QueueSubmit),
{
    let clear = d.clear_pass_plan(Some(fallback_clear_color()), Some(F32_ONE));
    let submit = d.submission_plan(d.submitted_buffers());
    assert(clear.len() == 5);
    assert(stage_all(d.submitted_buffers()).len() == 1);
    assert(submit.len() == 3);
    assert(d.end_frame_plan() =~= clear + submit);
    assert(d.end_frame_plan().subrange(0, 5) =~= clear);
}

/// Whether each state but the first is what `frame_presented` makes of
/// the frame index of the state before it, the frame slots being as many
/// throughout.
pub open spec fn frames_follow(states: Seq<VulkanDevice>) -> bool {
    forall|k: int|
        0 <= k < states.len() - 1 ==> (#[trigger] states[k + 1]).frame_index == states[k].next_slot()
            && states[k + 1].sync.frame_slot_count() == states[0].sync.frame_slot_count()
}

/// After as many frames as there are frame slots, the frame index of the
/// device is what it was; after any number of frames it has moved on by
/// that number, modulo the number of frame slots.
pub proof fn lemma_frames_rotate(states: Seq<VulkanDevice>)
    requires
        states.len() >= 1,
        states[0].wf(),
        frames_follow(states),
    ensures
        forall|k: int|
            0 <= k < states.len() ==> (#[trigger] states[k]).frame_index == crate::sync::frame_index_after(
                states[0].frame_index as int,
                states[0].sync.frame_slot_count() as int,
                k as nat,
            ),
        states.len() - 1 == states[0].sync.frame_slot_count() ==> states.last().frame_index
            == states[0].frame_index,
    decreases states.len(),
{
    let n = states[0].sync.frame_slot_count() as int;
    let start = states[0].frame_index as int;
    if states.len() > 1 {
        let shorter = states.drop_last();
        assert(frames_follow(shorter)) by {
            assert forall|k: int| 0 <= k < shorter.len() - 1 implies (#[trigger] shorter[k + 1]).frame_index
                == shorter[k].next_slot() && shorter[k + 1].sync.frame_slot_count()
                == shorter[0].sync.frame_slot_count() by {
                assert(shorter[k + 1] == states[k + 1]);
                assert(shorter[k] == states[k]);
            }
        }
        lemma_frames_rotate(shorter);
        let m = states.len() - 2;
        assert(shorter[m] == states[m]);
        assert(states[m + 1].frame_index == states[m].next_slot());
        assert(states[m].sync.frame_slot_count() == n) by {
            if m > 0 {
                assert(states[(m - 1) + 1].sync.frame_slot_count() == n);
            }
        }
        assert forall|k: int| 0 <= k < states.len() implies (#[trigger] states[k]).frame_index
            == crate::sync::frame_index_after(start, n, k as nat) by {
            if k < states.len() - 1 {
                assert(states[k] == shorter[k]);
            }
        }
    }
    if states.len() - 1 == n {
        crate::sync::lemma_frame_index_rotation(start, n);
    }
}

} // verus!
