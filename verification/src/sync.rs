//! Per-frame synchronisation state: the semaphores and the fence of each
//! frame slot, and the fence that last guarded each swapchain image.

use vstd::prelude::*;
use crate::handle::Handle;
use crate::command::{DeviceCommand, ObjectKind};
use crate::plan::{destroy_all, push_destroy_all};

verus! {

/// Why the synchronisation state could not be put together.
#[derive(Clone, Copy, Debug, PartialEq, Eq, Structural)]
pub enum SyncError {
    /// The number of created objects is not three for each frame slot.
    ObjectCount,
    /// One of the created objects is the null handle.
    NullObject,
}

/// The objects of one frame slot.
#[derive(Clone, Copy, Debug, PartialEq, Eq, Structural)]
pub struct FrameSlot {
    /// Signaled when the acquired image can be drawn to.
    pub image_available: Handle,
    /// Signaled when the frame's work has run.
    pub render_finished: Handle,
    /// Signaled when the frame's submission has completed.
    pub in_flight_fence: Handle,
}

/// The frame after `frame_index` among `slot_count` slots used in turn.
pub open spec fn next_frame_index(frame_index: int, slot_count: int) -> int {
    (frame_index + 1) % slot_count
}

/// The frame index after `frames` frames, starting at `frame_index`.
pub open spec fn frame_index_after(frame_index: int, slot_count: int, frames: nat) -> int
    decreases frames,
{
    if frames == 0 {
        frame_index
    } else {
        next_frame_index(frame_index_after(frame_index, slot_count, (frames - 1) as nat), slot_count)
    }
}

/// The commands that create the objects of `frame_count` frame slots: for
/// each slot two semaphores and then one fence.
pub open spec fn sync_creation_plan(frame_count: nat) -> Seq<DeviceCommand>
    decreases frame_count,
{
    if frame_count == 0 {
        Seq::empty()
    } else {
        sync_creation_plan((frame_count - 1) as nat) + seq![
            DeviceCommand::CreateSemaphore,
            DeviceCommand::CreateSemaphore,
            DeviceCommand::CreateFence { signaled: true },
        ]
    }
}

/// The synchronisation state of the frame loop.
#[derive(Clone, Debug)]
pub struct VulkanDeviceSync {
    /// The fence of the frame slot in use.
    pub in_flight_fence: Handle,
    /// For each frame slot, the semaphore of its acquired image.
    pub image_available_semaphores: Vec<Handle>,
    /// For each frame slot, the semaphore of its finished work.
    pub render_finished_semaphores: Vec<Handle>,
    /// For each frame slot, its fence.
    pub fences_in_flight: Vec<Handle>,
    /// For each swapchain image, the fence of the frame slot that last
    /// submitted work for it; null where there is none.
    pub textures_in_flight: Vec<Handle>,
}

impl VulkanDeviceSync {
    /// The number of frame slots.
    pub open spec fn frame_slot_count(&self) -> nat {
        self.fences_in_flight@.len()
    }

    /// The number of swapchain images that the state has a fence entry for.
    pub open spec fn image_count(&self) -> nat {
        self.textures_in_flight@.len()
    }

    /// There is at least one frame slot, each slot has its three objects,
    /// and no slot's fence is null.
    pub open spec fn wf(&self) -> bool {
        &&& self.fences_in_flight@.len() > 0
        &&& self.image_available_semaphores@.len() == self.fences_in_flight@.len()
        &&& self.render_finished_semaphores@.len() == self.fences_in_flight@.len()
        &&& forall|k: int|
            0 <= k < self.fences_in_flight@.len() ==> !(#[trigger] self.fences_in_flight@[k]).is_null()
    }

    /// Whether the state is well formed.
    pub fn is_well_formed(&self) -> (b: bool)
        ensures
            b == self.wf(),
    {
        let n: usize = self.fences_in_flight.len();
        if n == 0 || self.image_available_semaphores.len() != n || self.render_finished_semaphores.len() != n {
            return false;
        }
        let mut k: usize = 0;
        while k < n
            invariant
                k <= n,
                n == self.fences_in_flight@.len(),
                forall|j: int| 0 <= j < k ==> !(#[trigger] self.fences_in_flight@[j]).is_null(),
            decreases n - k,
        {
            if self.fences_in_flight[k].is_null() {
                assert(self.fences_in_flight@[k as int].is_null());
                return false;
            }
            k = k + 1;
        }
        true
    }

    /// The objects of frame slot `k`.
    pub open spec fn slot(&self, k: int) -> FrameSlot {
        FrameSlot {
            image_available: self.image_available_semaphores@[k],
            render_finished: self.render_finished_semaphores@[k],
            in_flight_fence: self.fences_in_flight@[k],
        }
    }

    /// The commands that create the objects of `frame_count` frame slots.
    /// Every fence is created signaled, so that the first frame of a slot
    /// does not block.
    pub fn creation_plan(frame_count: usize) -> (plan: Vec<DeviceCommand>)
        ensures
            plan@ == sync_creation_plan(frame_count as nat),
    {
        let mut plan: Vec<DeviceCommand> = Vec::new();
        let mut k: usize = 0;
        while k < frame_count
            invariant
                k <= frame_count,
                plan@ == sync_creation_plan(k as nat),
            decreases frame_count - k,
        {
            plan.push(DeviceCommand::CreateSemaphore);
            plan.push(DeviceCommand::CreateSemaphore);
            plan.push(DeviceCommand::CreateFence { signaled: true });
            k = k + 1;
            assert(plan@ =~= sync_creation_plan((k - 1) as nat) + seq![
                DeviceCommand::CreateSemaphore,
                DeviceCommand::CreateSemaphore,
                DeviceCommand::CreateFence { signaled: true },
            ]);
        }
        plan
    }

    /// What `create` answers for `frame_count` slots and the handles that
    /// the creation plan yielded.
    pub open spec fn create_outcome(frame_count: nat, created: Seq<Handle>) -> Result<(), SyncError> {
        if created.len() != 3 * frame_count {
            Err(SyncError::ObjectCount)
        } else if exists|j: int| 0 <= j < created.len() && (#[trigger] created[j]).is_null() {
            Err(SyncError::NullObject)
        } else {
            Ok(())
        }
    }

    /// Puts the state together from the handles that the creation plan
    /// yielded, in the plan's order, with `texture_count` unset image fences.
    /// Fails where the handles are not three for each frame slot, and else
    /// where one of them is null. Without a frame slot the state has no slot
    /// and cannot drive a frame loop; with one or more it is well formed.
    pub fn create(frame_count: usize, texture_count: usize, created: &Vec<Handle>) -> (r: Result<
        VulkanDeviceSync,
        SyncError,
    >)
        ensures
            r is Ok <==> Self::create_outcome(frame_count as nat, created@) is Ok,
            r is Err ==> Self::create_outcome(frame_count as nat, created@) == Err::<(), SyncError>(
                r->Err_0,
            ),
            r is Ok ==> ({
                let s = r->Ok_0;
                &&& frame_count > 0 ==> s.wf()
                &&& s.frame_slot_count() == frame_count
                &&& s.in_flight_fence.is_null()
                &&& s.image_available_semaphores@ == Seq::new(frame_count as nat, |k: int| created@[3 * k])
                &&& s.render_finished_semaphores@ == Seq::new(frame_count as nat, |k: int| created@[3 * k + 1])
                &&& s.fences_in_flight@ == Seq::new(frame_count as nat, |k: int| created@[3 * k + 2])
                &&& s.textures_in_flight@ == Seq::new(texture_count as nat, |i: int| Handle { raw: 0 })
            }),
    {
        let len: usize = created.len();
        if frame_count > usize::MAX / 3 {
            assert(len != 3 * frame_count);
            return Err(SyncError::ObjectCount);
        }
        if created.len() != 3 * frame_count {
            return Err(SyncError::ObjectCount);
        }
        let mut j: usize = 0;
        while j < created.len()
            invariant
                j <= created.len(),
                created.len() == 3 * frame_count,
                forall|x: int| 0 <= x < j ==> !(#[trigger] created@[x]).is_null(),
            decreases created.len() - j,
        {
            if created[j].is_null() {
                assert(created@[j as int].is_null());
                return Err(SyncError::NullObject);
            }
            j = j + 1;
        }
        let mut image_available: Vec<Handle> = Vec::new();
        let mut render_finished: Vec<Handle> = Vec::new();
        let mut fences: Vec<Handle> = Vec::new();
        let mut k: usize = 0;
        while k < frame_count
            invariant
                k <= frame_count,
                created.len() == 3 * frame_count,
                image_available@.len() == k,
                render_finished@.len() == k,
                fences@.len() == k,
                forall|x: int| 0 <= x < k ==> #[trigger] image_available@[x] == created@[3 * x],
                forall|x: int| 0 <= x < k ==> #[trigger] render_finished@[x] == created@[3 * x + 1],
                forall|x: int| 0 <= x < k ==> #[trigger] fences@[x] == created@[3 * x + 2],
            decreases frame_count - k,
        {
            image_available.push(created[3 * k]);
            render_finished.push(created[3 * k + 1]);
            fences.push(created[3 * k + 2]);
            k = k + 1;
        }
        let textures = Self::unset_fences(texture_count);
        let s = VulkanDeviceSync {
            in_flight_fence: Handle::null(),
            image_available_semaphores: image_available,
            render_finished_semaphores: render_finished,
            fences_in_flight: fences,
            textures_in_flight: textures,
        };
        assert forall|k: int| 0 <= k < s.fences_in_flight@.len() implies !(
        #[trigger] s.fences_in_flight@[k]).is_null() by {
            assert(!created@[3 * k + 2].is_null());
        }
        assert(s.image_available_semaphores@ =~= Seq::new(frame_count as nat, |k: int| created@[3 * k]));
        assert(s.render_finished_semaphores@ =~= Seq::new(frame_count as nat, |k: int| created@[3 * k + 1]));
        assert(s.fences_in_flight@ =~= Seq::new(frame_count as nat, |k: int| created@[3 * k + 2]));
        Ok(s)
    }

    /// A table of `texture_count` unset image fences.
    fn unset_fences(texture_count: usize) -> (table: Vec<Handle>)
        ensures
            table@ == Seq::new(texture_count as nat, |i: int| Handle { raw: 0 }),
    {
        let mut table: Vec<Handle> = Vec::new();
        let mut i: usize = 0;
        while i < texture_count
            invariant
                i <= texture_count,
                table@ == Seq::new(i as nat, |x: int| Handle { raw: 0 }),
            decreases texture_count - i,
        {
            table.push(Handle::null());
            i = i + 1;
            assert(table@ =~= Seq::new(i as nat, |x: int| Handle { raw: 0 }));
        }
        table
    }

    /// Starts a frame in slot `frame_index`: makes that slot's fence the
    /// fence in use and returns the slot. The caller has to wait for the
    /// slot's fence before it goes on, which keeps the processor at most
    /// one round of slots ahead of the device.
    pub fn begin(&mut self, frame_index: usize) -> (slot: FrameSlot)
        requires
            old(self).wf(),
            frame_index < old(self).frame_slot_count(),
        ensures
            slot == old(self).slot(frame_index as int),
            *final(self) == (VulkanDeviceSync { in_flight_fence: slot.in_flight_fence, ..*old(self) }),
            final(self).wf(),
    {
        let slot = FrameSlot {
            image_available: self.image_available_semaphores[frame_index],
            render_finished: self.render_finished_semaphores[frame_index],
            in_flight_fence: self.fences_in_flight[frame_index],
        };
        self.in_flight_fence = slot.in_flight_fence;
        slot
    }

    /// Binds the acquired image to the frame slot. Returns the fence that
    /// guarded the image until now, if there is one: the caller has to wait
    /// for it before anything is recorded for the image. Afterwards the
    /// image is guarded by the slot's fence.
    pub fn acquire_bind(&mut self, image_index: usize, slot: FrameSlot) -> (wait: Option<Handle>)
        requires
            image_index < old(self).image_count(),
        ensures
            wait == (if old(self).textures_in_flight@[image_index as int].is_null() {
                None
            } else {
                Some(old(self).textures_in_flight@[image_index as int])
            }),
            final(self).textures_in_flight@ == old(self).textures_in_flight@.update(
                image_index as int,
                slot.in_flight_fence,
            ),
            final(self).in_flight_fence == old(self).in_flight_fence,
            final(self).image_available_semaphores == old(self).image_available_semaphores,
            final(self).render_finished_semaphores == old(self).render_finished_semaphores,
            final(self).fences_in_flight == old(self).fences_in_flight,
    {
        let previous = self.textures_in_flight[image_index];
        self.textures_in_flight.set(image_index, slot.in_flight_fence);
        if previous.is_null() {
            None
        } else {
            Some(previous)
        }
    }

    /// The frame slot after `frame_index`, the slots being used in turn.
    pub fn advance(&self, frame_index: usize) -> (next: usize)
        requires
            self.frame_slot_count() > 0,
        ensures
            next == next_frame_index(frame_index as int, self.frame_slot_count() as int),
            next < self.frame_slot_count(),
    {
        let n: usize = self.fences_in_flight.len();
        let r: usize = frame_index % n;
        assert((frame_index + 1) % (n as int) == (if r + 1 == n { 0 } else { r + 1 })) by (nonlinear_arith)
            requires r == frame_index % n, n > 0;
        if r + 1 == n {
            0
        } else {
            r + 1
        }
    }

    /// Gives the image fence table `texture_count` entries and unsets them
    /// all. The frame slots stay as they are.
    pub fn resize_textures(&mut self, texture_count: usize)
        ensures
            final(self).textures_in_flight@ == Seq::new(texture_count as nat, |i: int| Handle { raw: 0 }),
            final(self).in_flight_fence == old(self).in_flight_fence,
            final(self).image_available_semaphores == old(self).image_available_semaphores,
            final(self).render_finished_semaphores == old(self).render_finished_semaphores,
            final(self).fences_in_flight == old(self).fences_in_flight,
    {
        self.textures_in_flight = Self::unset_fences(texture_count);
    }

    /// The commands that `destroy` returns.
    pub open spec fn destroy_plan(&self) -> Seq<DeviceCommand> {
        destroy_all(ObjectKind::Fence, self.fences_in_flight@) + destroy_all(
            ObjectKind::Semaphore,
            self.render_finished_semaphores@,
        ) + destroy_all(ObjectKind::Semaphore, self.image_available_semaphores@)
    }

    /// The commands that destroy the objects of every frame slot: the
    /// fences, then the semaphores of finished work, then those of acquired
    /// images.
    pub fn destroy(&self) -> (plan: Vec<DeviceCommand>)
        ensures
            plan@ == self.destroy_plan(),
    {
        let mut plan: Vec<DeviceCommand> = Vec::new();
        push_destroy_all(&mut plan, ObjectKind::Fence, &self.fences_in_flight);
        push_destroy_all(&mut plan, ObjectKind::Semaphore, &self.render_finished_semaphores);
        push_destroy_all(&mut plan, ObjectKind::Semaphore, &self.image_available_semaphores);
        plan
    }
}

/// After as many frames as there are frame slots, the frame index is back
/// where it started.
pub proof fn lemma_frame_index_rotation(frame_index: int, slot_count: int)
    requires
        slot_count > 0,
        0 <= frame_index < slot_count,
    ensures
        frame_index_after(frame_index, slot_count, slot_count as nat) == frame_index,
{
    lemma_frame_index_after(frame_index, slot_count, slot_count as nat);
    assert((frame_index + slot_count) % slot_count == frame_index) by (nonlinear_arith)
        requires slot_count > 0, 0 <= frame_index < slot_count;
}

/// After `frames` frames the frame index has moved on by `frames`, modulo
/// the number of frame slots.
pub proof fn lemma_frame_index_after(frame_index: int, slot_count: int, frames: nat)
    requires
        slot_count > 0,
        0 <= frame_index < slot_count,
    ensures
        frame_index_after(frame_index, slot_count, frames) == (frame_index + frames) % slot_count,
    decreases frames,
{
    if frames == 0 {
        assert(frame_index % slot_count == frame_index) by (nonlinear_arith)
            requires slot_count > 0, 0 <= frame_index < slot_count;
    } else {
        lemma_frame_index_after(frame_index, slot_count, (frames - 1) as nat);
        let prev = (frame_index + frames - 1) % slot_count;
        assert((prev + 1) % slot_count == (frame_index + frames) % slot_count) by (nonlinear_arith)
            requires prev == (frame_index + frames - 1) % slot_count, slot_count > 0;
    }
}

} // verus!
