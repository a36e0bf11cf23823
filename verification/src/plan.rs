//! Building blocks of command lists.

use vstd::prelude::*;
use crate::handle::Handle;
use crate::command::{DeviceCommand, ObjectKind};
use crate::texture::{Texture, TextureView};

verus! {

/// The commands that destroy each handle of `handles` as an object of `kind`.
pub open spec fn destroy_all(kind: ObjectKind, handles: Seq<Handle>) -> Seq<DeviceCommand> {
    Seq::new(handles.len(), |i: int| DeviceCommand::Destroy { kind, handle: handles[i] })
}

/// Appends to `out` the commands that destroy each handle of `handles`.
pub fn push_destroy_all(out: &mut Vec<DeviceCommand>, kind: ObjectKind, handles: &Vec<Handle>)
    ensures
        final(out)@ == old(out)@ + destroy_all(kind, handles@),
{
    let mut i: usize = 0;
    while i < handles.len()
        invariant
            i <= handles.len(),
            out@ == old(out)@ + destroy_all(kind, handles@).subrange(0, i as int),
        decreases handles.len() - i,
    {
        out.push(DeviceCommand::Destroy { kind, handle: handles[i] });
        i = i + 1;
        assert(out@ =~= old(out)@ + destroy_all(kind, handles@).subrange(0, i as int));
    }
    assert(destroy_all(kind, handles@).subrange(0, i as int) =~= destroy_all(kind, handles@));
}

/// Whether no handle occurs twice.
pub open spec fn distinct(handles: Seq<Handle>) -> bool {
    forall|i: int, j: int| 0 <= i < j < handles.len() ==> handles[i] != handles[j]
}

/// Whether no handle occurs twice.
pub fn all_distinct(handles: &Vec<Handle>) -> (b: bool)
    ensures
        b == distinct(handles@),
{
    let mut j: usize = 0;
    while j < handles.len()
        invariant
            j <= handles.len(),
            forall|a: int, b: int| 0 <= a < b < j ==> handles@[a] != handles@[b],
        decreases handles.len() - j,
    {
        let mut i: usize = 0;
        while i < j
            invariant
                i <= j,
                j < handles.len(),
                forall|a: int| 0 <= a < i ==> handles@[a] != handles@[j as int],
            decreases j - i,
        {
            if handles[i] == handles[j] {
                assert(handles@[i as int] == handles@[j as int]);
                return false;
            }
            i = i + 1;
        }
        j = j + 1;
    }
    true
}

/// The command that destroys `handle` as an object of `kind`, or nothing
/// where the handle is null.
pub open spec fn destroy_if_set(kind: ObjectKind, handle: Handle) -> Seq<DeviceCommand> {
    if handle.is_null() {
        Seq::empty()
    } else {
        seq![DeviceCommand::Destroy { kind, handle }]
    }
}

/// Appends to `out` the command that destroys `handle`, unless it is null.
pub fn push_destroy_if_set(out: &mut Vec<DeviceCommand>, kind: ObjectKind, handle: Handle)
    ensures
        final(out)@ == old(out)@ + destroy_if_set(kind, handle),
{
    if !handle.is_null() {
        out.push(DeviceCommand::Destroy { kind, handle });
        assert(out@ =~= old(out)@ + destroy_if_set(kind, handle));
    } else {
        assert(out@ =~= old(out)@ + destroy_if_set(kind, handle));
    }
}

/// The commands that return each command buffer of `buffers` to `pool`.
pub open spec fn free_command_buffers(pool: Handle, buffers: Seq<Handle>) -> Seq<DeviceCommand> {
    Seq::new(buffers.len(), |i: int| DeviceCommand::FreeCommandBuffer { pool, command_buffer: buffers[i] })
}

/// Appends to `out` the commands that return each command buffer to `pool`.
pub fn push_free_command_buffers(out: &mut Vec<DeviceCommand>, pool: Handle, buffers: &Vec<Handle>)
    ensures
        final(out)@ == old(out)@ + free_command_buffers(pool, buffers@),
{
    let mut i: usize = 0;
    while i < buffers.len()
        invariant
            i <= buffers.len(),
            out@ == old(out)@ + free_command_buffers(pool, buffers@).subrange(0, i as int),
        decreases buffers.len() - i,
    {
        out.push(DeviceCommand::FreeCommandBuffer { pool, command_buffer: buffers[i] });
        i = i + 1;
        assert(out@ =~= old(out)@ + free_command_buffers(pool, buffers@).subrange(0, i as int));
    }
    assert(free_command_buffers(pool, buffers@).subrange(0, i as int) =~= free_command_buffers(
        pool,
        buffers@,
    ));
}

/// The commands that return each descriptor set of `sets` to `pool`.
pub open spec fn free_descriptor_sets(pool: Handle, sets: Seq<Handle>) -> Seq<DeviceCommand> {
    Seq::new(sets.len(), |i: int| DeviceCommand::FreeDescriptorSet { pool, descriptor_set: sets[i] })
}

/// Appends to `out` the commands that return each descriptor set to `pool`.
pub fn push_free_descriptor_sets(out: &mut Vec<DeviceCommand>, pool: Handle, sets: &Vec<Handle>)
    ensures
        final(out)@ == old(out)@ + free_descriptor_sets(pool, sets@),
{
    let mut i: usize = 0;
    while i < sets.len()
        invariant
            i <= sets.len(),
            out@ == old(out)@ + free_descriptor_sets(pool, sets@).subrange(0, i as int),
        decreases sets.len() - i,
    {
        out.push(DeviceCommand::FreeDescriptorSet { pool, descriptor_set: sets[i] });
        i = i + 1;
        assert(out@ =~= old(out)@ + free_descriptor_sets(pool, sets@).subrange(0, i as int));
    }
    assert(free_descriptor_sets(pool, sets@).subrange(0, i as int) =~= free_descriptor_sets(pool, sets@));
}

/// The commands that destroy each buffer of `buffers` and free its memory,
/// buffer by buffer.
pub open spec fn destroy_buffers(buffers: Seq<(Handle, Handle)>) -> Seq<DeviceCommand> {
    Seq::new(
        2 * buffers.len(),
        |i: int|
            if i % 2 == 0 {
                DeviceCommand::Destroy { kind: ObjectKind::Buffer, handle: buffers[i / 2].0 }
            } else {
                DeviceCommand::Destroy { kind: ObjectKind::DeviceMemory, handle: buffers[i / 2].1 }
            },
    )
}

/// Appends to `out` the commands that destroy each buffer and free its
/// memory.
pub fn push_destroy_buffers(out: &mut Vec<DeviceCommand>, buffers: &Vec<(Handle, Handle)>)
    ensures
        final(out)@ == old(out)@ + destroy_buffers(buffers@),
{
    let mut i: usize = 0;
    while i < buffers.len()
        invariant
            i <= buffers.len(),
            out@ == old(out)@ + destroy_buffers(buffers@).subrange(0, 2 * i),
        decreases buffers.len() - i,
    {
        let pair = buffers[i];
        out.push(DeviceCommand::Destroy { kind: ObjectKind::Buffer, handle: pair.0 });
        out.push(DeviceCommand::Destroy { kind: ObjectKind::DeviceMemory, handle: pair.1 });
        i = i + 1;
        assert(out@ =~= old(out)@ + destroy_buffers(buffers@).subrange(0, 2 * i));
    }
    assert(destroy_buffers(buffers@).subrange(0, 2 * i) =~= destroy_buffers(buffers@));
}

/// The commands that destroy a view and then its image with the image's
/// memory, each only where it is set.
pub open spec fn destroy_target(view: TextureView, texture: Texture) -> Seq<DeviceCommand> {
    destroy_if_set(ObjectKind::ImageView, view.handle) + destroy_if_set(ObjectKind::Image, texture.handle)
        + destroy_if_set(ObjectKind::DeviceMemory, texture.memory)
}

/// Appends to `out` the commands that destroy a view and its image.
pub fn push_destroy_target(out: &mut Vec<DeviceCommand>, view: TextureView, texture: Texture)
    ensures
        final(out)@ == old(out)@ + destroy_target(view, texture),
{
    push_destroy_if_set(out, ObjectKind::ImageView, view.handle);
    push_destroy_if_set(out, ObjectKind::Image, texture.handle);
    push_destroy_if_set(out, ObjectKind::DeviceMemory, texture.memory);
    assert(out@ =~= old(out)@ + destroy_target(view, texture));
}

/// The commands that stage each command buffer of `buffers` for the next
/// submission.
pub open spec fn stage_all(buffers: Seq<Handle>) -> Seq<DeviceCommand> {
    Seq::new(buffers.len(), |i: int| DeviceCommand::StageCommandBuffer { command_buffer: buffers[i] })
}

/// Appends to `out` the commands that stage each command buffer.
pub fn push_stage_all(out: &mut Vec<DeviceCommand>, buffers: &Vec<Handle>)
    ensures
        final(out)@ == old(out)@ + stage_all(buffers@),
{
    let mut i: usize = 0;
    while i < buffers.len()
        invariant
            i <= buffers.len(),
            out@ == old(out)@ + stage_all(buffers@).subrange(0, i as int),
        decreases buffers.len() - i,
    {
        out.push(DeviceCommand::StageCommandBuffer { command_buffer: buffers[i] });
        i = i + 1;
        assert(out@ =~= old(out)@ + stage_all(buffers@).subrange(0, i as int));
    }
    assert(stage_all(buffers@).subrange(0, i as int) =~= stage_all(buffers@));
}

/// Appends the commands of `more` to `out`.
pub fn push_all(out: &mut Vec<DeviceCommand>, more: &Vec<DeviceCommand>)
    ensures
        final(out)@ == old(out)@ + more@,
{
    let mut i: usize = 0;
    while i < more.len()
        invariant
            i <= more.len(),
            out@ == old(out)@ + more@.subrange(0, i as int),
        decreases more.len() - i,
    {
        out.push(more[i]);
        i = i + 1;
        assert(out@ =~= old(out)@ + more@.subrange(0, i as int));
    }
    assert(more@.subrange(0, i as int) =~= more@);
}

} // verus!
