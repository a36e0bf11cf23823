//! Images and image views as the library holds them.

use vstd::prelude::*;
use crate::handle::Handle;
use crate::command::{DeviceCommand, ObjectKind};

verus! {

/// An image with the memory bound to it.
#[derive(Clone, Copy, Debug, PartialEq, Eq, Hash, Structural)]
pub struct Texture {
    pub handle: Handle,
    /// Null for an image that the swapchain owns.
    pub memory: Handle,
    pub mip_levels: u32,
}

impl Texture {
    pub fn new(handle: Handle, memory: Handle, mip_levels: u32) -> (t: Texture)
        ensures
            t == (Texture { handle, memory, mip_levels }),
    {
        Texture { handle, memory, mip_levels }
    }

    /// The texture that stands for none.
    pub fn null() -> (t: Texture)
        ensures
            t == (Texture { handle: Handle { raw: 0 }, memory: Handle { raw: 0 }, mip_levels: 0 }),
            t.spec_is_null(),
    {
        Texture { handle: Handle::null(), memory: Handle::null(), mip_levels: 0 }
    }

    pub open spec fn spec_is_null(self) -> bool {
        self.handle.is_null() && self.memory.is_null()
    }

    /// Whether both the image and its memory are null.
    #[verifier::when_used_as_spec(spec_is_null)]
    pub fn is_null(self) -> (b: bool)
        ensures
            b == self.spec_is_null(),
    {
        self.handle.is_null() && self.memory.is_null()
    }

    /// The commands that `destroy` returns.
    pub open spec fn destroy_plan(self) -> Seq<DeviceCommand> {
        seq![
            DeviceCommand::Destroy { kind: ObjectKind::Image, handle: self.handle },
            DeviceCommand::Destroy { kind: ObjectKind::DeviceMemory, handle: self.memory },
        ]
    }

    /// The commands that destroy the image and then free its memory.
    pub fn destroy(&self) -> (plan: Vec<DeviceCommand>)
        ensures
            plan@ == self.destroy_plan(),
    {
        let mut plan: Vec<DeviceCommand> = Vec::new();
        plan.push(DeviceCommand::Destroy { kind: ObjectKind::Image, handle: self.handle });
        plan.push(DeviceCommand::Destroy { kind: ObjectKind::DeviceMemory, handle: self.memory });
        assert(plan@ =~= self.destroy_plan());
        plan
    }

    /// What a view of this image is created with: all of its first
    /// `mip_levels` levels, one layer, two dimensions.
    pub fn create_view(&self, format: i32, aspects: u32, mip_levels: u32) -> (info: ImageViewInfo)
        ensures
            info == (ImageViewInfo {
                image: self.handle,
                format,
                aspect_mask: aspects,
                base_mip_level: 0,
                level_count: mip_levels,
                base_array_layer: 0,
                layer_count: 1,
            }),
    {
        ImageViewInfo {
            image: self.handle,
            format,
            aspect_mask: aspects,
            base_mip_level: 0,
            level_count: mip_levels,
            base_array_layer: 0,
            layer_count: 1,
        }
    }
}

impl Default for Texture {
    fn default() -> (t: Texture)
        ensures
            t.spec_is_null(),
            t.mip_levels == 0,
    {
        Texture::null()
    }
}

/// What a two-dimensional image view is created with.
#[derive(Clone, Copy, Debug, PartialEq, Eq, Structural)]
pub struct ImageViewInfo {
    pub image: Handle,
    pub format: i32,
    pub aspect_mask: u32,
    pub base_mip_level: u32,
    pub level_count: u32,
    pub base_array_layer: u32,
    pub layer_count: u32,
}

/// A view of an image.
#[derive(Clone, Copy, Debug, PartialEq, Eq, Hash, Structural)]
pub struct TextureView {
    pub handle: Handle,
}

impl TextureView {
    pub fn new(handle: Handle) -> (v: TextureView)
        ensures
            v.handle == handle,
    {
        TextureView { handle }
    }

    /// The view that stands for none.
    pub fn null() -> (v: TextureView)
        ensures
            v.handle.raw == 0,
    {
        TextureView { handle: Handle::null() }
    }

    pub open spec fn spec_is_null(self) -> bool {
        self.handle.is_null()
    }

    #[verifier::when_used_as_spec(spec_is_null)]
    pub fn is_null(self) -> (b: bool)
        ensures
            b == self.spec_is_null(),
    {
        self.handle.is_null()
    }

    /// The command that destroys the view.
    pub fn destroy(&self) -> (command: DeviceCommand)
        ensures
            command == (DeviceCommand::Destroy { kind: ObjectKind::ImageView, handle: self.handle }),
    {
        DeviceCommand::Destroy { kind: ObjectKind::ImageView, handle: self.handle }
    }
}

impl Default for TextureView {
    fn default() -> (v: TextureView)
        ensures
            v.handle.raw == 0,
    {
        TextureView::null()
    }
}

} // verus!
