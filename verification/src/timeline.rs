//! A model of the device's timeline, against which command lists are
//! judged: which submissions are known to have completed, and which fence
//! and which command buffers belong to a submission that may still run.

use vstd::prelude::*;
use crate::handle::Handle;
use crate::command::DeviceCommand;

verus! {

/// What the processor knows of the work it has handed to the device.
///
/// Submissions to the one graphics queue are numbered in their order. A
/// fence is signaled when its submission, and with it every earlier one,
/// has completed.
pub struct Timeline {
    /// The number of the next submission.
    pub next: nat,
    /// Every submission with a smaller number is known to have completed.
    pub completed: nat,
    /// For each fence, the last submission that signals it.
    pub fence_of: Map<Handle, nat>,
    /// For each command buffer, the last submission that holds it.
    pub last_use: Map<Handle, nat>,
    /// The command buffers staged for the next submission.
    pub staged: Seq<Handle>,
}

impl Timeline {
    /// The timeline of a device that nothing has been submitted to.
    pub open spec fn fresh() -> Timeline {
        Timeline { next: 0, completed: 0, fence_of: Map::empty(), last_use: Map::empty(), staged: Seq::empty() }
    }

    /// No submission is numbered ahead of the next one.
    pub open spec fn wf(self) -> bool {
        &&& self.completed <= self.next
        &&& forall|f: Handle| #[trigger] self.fence_of.contains_key(f) ==> self.fence_of[f] < self.next
        &&& forall|b: Handle| #[trigger] self.last_use.contains_key(b) ==> self.last_use[b] < self.next
    }

    /// Whether the device may still run a submission that holds the
    /// command buffer.
    pub open spec fn busy(self, command_buffer: Handle) -> bool {
        self.last_use.contains_key(command_buffer) && self.last_use[command_buffer] >= self.completed
    }

    /// Whether the device may still run the submission that signals the
    /// fence.
    pub open spec fn pending(self, fence: Handle) -> bool {
        self.fence_of.contains_key(fence) && self.fence_of[fence] >= self.completed
    }

    /// Whether the device is known to have finished all submitted work.
    pub open spec fn idle(self) -> bool {
        self.completed == self.next
    }

    /// Whether the command may be carried out now.
    ///
    /// A command buffer is reset, recorded into or freed only when no
    /// submission that holds it may still run. A fence is reset, or given
    /// to a submission, only when no submission that signals it may still
    /// run. An object is destroyed only when the device is idle.
    pub open spec fn allows(self, command: DeviceCommand) -> bool {
        match command {
            DeviceCommand::ResetCommandBuffer { command_buffer } => !self.busy(command_buffer),
            DeviceCommand::BeginCommandBuffer { command_buffer } => !self.busy(command_buffer),
            DeviceCommand::Record { command_buffer, .. } => !self.busy(command_buffer),
            DeviceCommand::EndCommandBuffer { command_buffer } => !self.busy(command_buffer),
            DeviceCommand::FreeCommandBuffer { command_buffer, .. } => !self.busy(command_buffer),
            DeviceCommand::ResetFence { fence } => !self.pending(fence),
            DeviceCommand::QueueSubmit { fence, .. } => !self.pending(fence),
            DeviceCommand::FreeDescriptorSet { .. } => self.idle(),
            DeviceCommand::Destroy { .. } => self.idle(),
            _ => true,
        }
    }

    /// The timeline after the command has been carried out.
    pub open spec fn after(self, command: DeviceCommand) -> Timeline {
        match command {
            DeviceCommand::WaitForFence { fence } => if self.pending(fence) {
                Timeline { completed: self.fence_of[fence] + 1, ..self }
            } else {
                self
            },
            DeviceCommand::DeviceWaitIdle => Timeline { completed: self.next, ..self },
            DeviceCommand::StageCommandBuffer { command_buffer } => Timeline {
                staged: self.staged.push(command_buffer),
                ..self
            },
            DeviceCommand::QueueSubmit { fence, .. } => Timeline {
                next: self.next + 1,
                completed: self.completed,
                fence_of: self.fence_of.insert(fence, self.next),
                last_use: Map::new(
                    |b: Handle| self.last_use.contains_key(b) || self.staged.contains(b),
                    |b: Handle| if self.staged.contains(b) { self.next } else { self.last_use[b] },
                ),
                staged: Seq::empty(),
            },
            _ => self,
        }
    }

    /// The timeline after the commands have been carried out in order.
    pub open spec fn after_all(self, commands: Seq<DeviceCommand>) -> Timeline
        decreases commands.len(),
    {
        if commands.len() == 0 {
            self
        } else {
            self.after_all(commands.drop_last()).after(commands.last())
        }
    }

    /// Whether each of the commands may be carried out when its turn comes.
    pub open spec fn allows_all(self, commands: Seq<DeviceCommand>) -> bool
        decreases commands.len(),
    {
        commands.len() == 0 || (self.allows_all(commands.drop_last()) && self.after_all(
            commands.drop_last(),
        ).allows(commands.last()))
    }
}

/// Whether a command only destroys or frees something.
pub open spec fn is_teardown(command: DeviceCommand) -> bool {
    command is Destroy || command is FreeCommandBuffer || command is FreeDescriptorSet
}

/// Whether every command of the list only destroys or frees something.
pub open spec fn all_teardown(commands: Seq<DeviceCommand>) -> bool {
    forall|k: int| 0 <= k < commands.len() ==> is_teardown(#[trigger] commands[k])
}

/// Whether every command of the list records into `command_buffer`.
pub open spec fn all_record_into(commands: Seq<DeviceCommand>, command_buffer: Handle) -> bool {
    forall|k: int|
        0 <= k < commands.len() ==> (#[trigger] commands[k]).recorded_buffer() == Some(command_buffer) && !(
        commands[k] is FreeCommandBuffer)
}

/// One command is carried out as a list of one.
pub proof fn lemma_one(t: Timeline, command: DeviceCommand)
    ensures
        t.after_all(seq![command]) == t.after(command),
        t.allows_all(seq![command]) == t.allows(command),
{
    let s = seq![command];
    assert(s.drop_last() =~= Seq::<DeviceCommand>::empty());
    assert(s.last() == command);
    reveal_with_fuel(Timeline::after_all, 2);
    reveal_with_fuel(Timeline::allows_all, 2);
}

/// A list that is made of two is carried out as the first and then the
/// second.
pub proof fn lemma_concat(t: Timeline, a: Seq<DeviceCommand>, b: Seq<DeviceCommand>)
    ensures
        t.after_all(a + b) == t.after_all(a).after_all(b),
        t.allows_all(a + b) == (t.allows_all(a) && t.after_all(a).allows_all(b)),
    decreases b.len(),
{
    if b.len() == 0 {
        assert(a + b =~= a);
    } else {
        lemma_concat(t, a, b.drop_last());
        assert((a + b).drop_last() =~= a + b.drop_last());
        assert((a + b).last() == b.last());
    }
}

/// Commands that only destroy or free may all be carried out on an idle
/// device, and leave the timeline as it is.
pub proof fn lemma_teardown(t: Timeline, commands: Seq<DeviceCommand>)
    requires
        t.wf(),
        t.idle(),
        all_teardown(commands),
    ensures
        t.allows_all(commands),
        t.after_all(commands) == t,
    decreases commands.len(),
{
    if commands.len() > 0 {
        lemma_teardown(t, commands.drop_last());
        assert(is_teardown(commands[commands.len() - 1]));
    }
}

/// Commands that record into a command buffer which no running submission
/// holds may all be carried out, and leave the timeline as it is.
pub proof fn lemma_record(t: Timeline, commands: Seq<DeviceCommand>, command_buffer: Handle)
    requires
        !t.busy(command_buffer),
        all_record_into(commands, command_buffer),
    ensures
        t.allows_all(commands),
        t.after_all(commands) == t,
    decreases commands.len(),
{
    if commands.len() > 0 {
        lemma_record(t, commands.drop_last(), command_buffer);
        assert(commands[commands.len() - 1].recorded_buffer() == Some(command_buffer));
    }
}

/// Staging command buffers may always be carried out, and puts them
/// behind those already staged.
pub proof fn lemma_stage(t: Timeline, buffers: Seq<Handle>)
    ensures
        t.allows_all(crate::plan::stage_all(buffers)),
        t.after_all(crate::plan::stage_all(buffers)) == (Timeline { staged: t.staged + buffers, ..t }),
    decreases buffers.len(),
{
    let commands = crate::plan::stage_all(buffers);
    if buffers.len() == 0 {
        assert(t.staged + buffers =~= t.staged);
    } else {
        lemma_stage(t, buffers.drop_last());
        assert(commands.drop_last() =~= crate::plan::stage_all(buffers.drop_last()));
        assert(commands.last() == DeviceCommand::StageCommandBuffer { command_buffer: buffers.last() });
        assert((t.staged + buffers.drop_last()).push(buffers.last()) =~= t.staged + buffers);
    }
}

/// Only a wait releases a command buffer: while a submission that holds
/// it may still run, it stays so over every command that neither waits for
/// a fence nor waits for the device.
pub proof fn lemma_only_waits_release(t: Timeline, command: DeviceCommand, command_buffer: Handle)
    requires
        t.wf(),
        t.busy(command_buffer),
        !(command is WaitForFence),
        !(command is DeviceWaitIdle),
    ensures
        t.after(command).busy(command_buffer),
{
    if command is QueueSubmit {
        assert(t.after(command).last_use.contains_key(command_buffer));
    }
}

/// A wait for a fence releases every command buffer whose last
/// submission is that of the fence or an earlier one.
pub proof fn lemma_wait_releases(t: Timeline, fence: Handle, command_buffer: Handle)
    requires
        t.fence_of.contains_key(fence),
        t.last_use.contains_key(command_buffer),
        t.last_use[command_buffer] <= t.fence_of[fence],
    ensures
        !t.after(DeviceCommand::WaitForFence { fence }).busy(command_buffer),
{
}

} // verus!
