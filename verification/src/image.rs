//! Image layouts and mip chains: which barrier takes an image from one
//! layout to another, and which blits fill the mip levels of an image.

use vstd::prelude::*;
use crate::api::VulkanApi;
use crate::handle::Handle;
use crate::physical::{ApiError, FORMAT_FEATURE_SAMPLED_IMAGE_FILTER_LINEAR};

verus! {

pub const IMAGE_LAYOUT_UNDEFINED: i32 = 0;

pub const IMAGE_LAYOUT_COLOR_ATTACHMENT_OPTIMAL: i32 = 2;

pub const IMAGE_LAYOUT_DEPTH_STENCIL_ATTACHMENT_OPTIMAL: i32 = 3;

pub const IMAGE_LAYOUT_SHADER_READ_ONLY_OPTIMAL: i32 = 5;

pub const IMAGE_LAYOUT_TRANSFER_SRC_OPTIMAL: i32 = 6;

pub const IMAGE_LAYOUT_TRANSFER_DST_OPTIMAL: i32 = 7;

pub const IMAGE_LAYOUT_PRESENT_SRC: i32 = 1000001002;

pub const ACCESS_SHADER_READ: u32 = 0x20;

pub const ACCESS_COLOR_ATTACHMENT_WRITE: u32 = 0x100;

pub const ACCESS_DEPTH_STENCIL_ATTACHMENT_WRITE: u32 = 0x400;

pub const ACCESS_TRANSFER_READ: u32 = 0x800;

pub const ACCESS_TRANSFER_WRITE: u32 = 0x1000;

pub const PIPELINE_STAGE_TOP_OF_PIPE: u32 = 0x1;

pub const PIPELINE_STAGE_FRAGMENT_SHADER: u32 = 0x80;

pub const PIPELINE_STAGE_EARLY_FRAGMENT_TESTS: u32 = 0x100;

pub const PIPELINE_STAGE_COLOR_ATTACHMENT_OUTPUT: u32 = 0x400;

pub const PIPELINE_STAGE_TRANSFER: u32 = 0x1000;

/// The filter code of linear filtering.
pub const FILTER_LINEAR: i32 = 1;

/// A barrier that takes mip levels of an image from one layout to another.
#[derive(Clone, Copy, Debug, PartialEq, Eq, Structural)]
pub struct ImageBarrier {
    pub image: Handle,
    pub old_layout: i32,
    pub new_layout: i32,
    pub src_access_mask: u32,
    pub dst_access_mask: u32,
    pub src_stage_mask: u32,
    pub dst_stage_mask: u32,
    pub base_mip_level: u32,
    pub level_count: u32,
}

/// A blit that fills one mip level of an image from the level above it.
#[derive(Clone, Copy, Debug, PartialEq, Eq, Structural)]
pub struct MipBlit {
    /// The level that is read.
    pub src_level: u32,
    pub src_width: u32,
    pub src_height: u32,
    /// The level that is written.
    pub dst_level: u32,
    pub dst_width: u32,
    pub dst_height: u32,
    /// The filter that the level is made with.
    pub filter: i32,
}

/// Half of a dimension, but no less than one; a dimension of one or
/// nothing stays.
pub open spec fn halved(x: u32) -> u32 {
    if x > 1 {
        x / 2
    } else {
        x
    }
}

/// A dimension of an image at a mip level.
pub open spec fn mip_dimension(x: u32, level: nat) -> u32
    decreases level,
{
    if level == 0 {
        x
    } else {
        halved(mip_dimension(x, (level - 1) as nat))
    }
}

/// The blit that fills level `level` of an image of the given size.
pub open spec fn mip_blit(width: u32, height: u32, level: int) -> MipBlit {
    MipBlit {
        src_level: (level - 1) as u32,
        src_width: mip_dimension(width, (level - 1) as nat),
        src_height: mip_dimension(height, (level - 1) as nat),
        dst_level: level as u32,
        dst_width: mip_dimension(width, level as nat),
        dst_height: mip_dimension(height, level as nat),
        filter: FILTER_LINEAR,
    }
}

/// The barrier that takes level `level` of an image from the layout of a
/// transfer destination to that of a transfer source, once it has been
/// written: the next level is read from it.
pub open spec fn mip_read_barrier(image: Handle, level: u32) -> ImageBarrier {
    ImageBarrier {
        image,
        old_layout: IMAGE_LAYOUT_TRANSFER_DST_OPTIMAL,
        new_layout: IMAGE_LAYOUT_TRANSFER_SRC_OPTIMAL,
        src_access_mask: ACCESS_TRANSFER_WRITE,
        dst_access_mask: ACCESS_TRANSFER_READ,
        src_stage_mask: PIPELINE_STAGE_TRANSFER,
        dst_stage_mask: PIPELINE_STAGE_TRANSFER,
        base_mip_level: level,
        level_count: 1,
    }
}

/// The barrier that takes level `level` of an image from the layout of a
/// transfer source to that of a shader's read-only input, once the next
/// level has been read from it.
pub open spec fn mip_done_barrier(image: Handle, level: u32) -> ImageBarrier {
    ImageBarrier {
        image,
        old_layout: IMAGE_LAYOUT_TRANSFER_SRC_OPTIMAL,
        new_layout: IMAGE_LAYOUT_SHADER_READ_ONLY_OPTIMAL,
        src_access_mask: ACCESS_TRANSFER_READ,
        dst_access_mask: ACCESS_SHADER_READ,
        src_stage_mask: PIPELINE_STAGE_TRANSFER,
        dst_stage_mask: PIPELINE_STAGE_FRAGMENT_SHADER,
        base_mip_level: level,
        level_count: 1,
    }
}

/// The barrier that takes the last level of an image, which no level is
/// read from, from the layout of a transfer destination to that of a
/// shader's read-only input.
pub open spec fn mip_last_barrier(image: Handle, level: u32) -> ImageBarrier {
    ImageBarrier {
        image,
        old_layout: IMAGE_LAYOUT_TRANSFER_DST_OPTIMAL,
        new_layout: IMAGE_LAYOUT_SHADER_READ_ONLY_OPTIMAL,
        src_access_mask: ACCESS_TRANSFER_WRITE,
        dst_access_mask: ACCESS_SHADER_READ,
        src_stage_mask: PIPELINE_STAGE_TRANSFER,
        dst_stage_mask: PIPELINE_STAGE_FRAGMENT_SHADER,
        base_mip_level: level,
        level_count: 1,
    }
}

/// The barrier at place `k` among those of an image of `mip_levels`
/// levels.
pub open spec fn mip_barrier_at(image: Handle, mip_levels: u32, k: int) -> ImageBarrier {
    if k == 2 * (mip_levels - 1) {
        mip_last_barrier(image, (mip_levels - 1) as u32)
    } else if k % 2 == 0 {
        mip_read_barrier(image, (k / 2) as u32)
    } else {
        mip_done_barrier(image, (k / 2) as u32)
    }
}

/// Whether an image can go from `old_layout` to `new_layout`: from the
/// undefined layout to that of a transfer destination, and from there to
/// that of a shader's read-only input.
pub open spec fn can_transition(old_layout: i32, new_layout: i32) -> bool {
    (old_layout == IMAGE_LAYOUT_UNDEFINED && new_layout == IMAGE_LAYOUT_TRANSFER_DST_OPTIMAL) || (old_layout
        == IMAGE_LAYOUT_TRANSFER_DST_OPTIMAL && new_layout == IMAGE_LAYOUT_SHADER_READ_ONLY_OPTIMAL)
}

impl VulkanApi {
    /// The barrier that takes the first `mip_levels` levels of an image
    /// from one layout to another. Before the image is written by a
    /// transfer nothing is waited for; before a fragment shader reads it,
    /// the transfer's writes are.
    pub fn transition_image_layout(image: Handle, old_layout: i32, new_layout: i32, mip_levels: u32) -> (r: Result<
        ImageBarrier,
        ApiError,
    >)
        ensures
            r is Ok <==> can_transition(old_layout, new_layout),
            r is Err ==> r->Err_0 == ApiError::UnsupportedLayoutTransition,
            r is Ok ==> r->Ok_0 == (if old_layout == IMAGE_LAYOUT_UNDEFINED {
                ImageBarrier {
                    image,
                    old_layout,
                    new_layout,
                    src_access_mask: 0,
                    dst_access_mask: ACCESS_TRANSFER_WRITE,
                    src_stage_mask: PIPELINE_STAGE_TOP_OF_PIPE,
                    dst_stage_mask: PIPELINE_STAGE_TRANSFER,
                    base_mip_level: 0,
                    level_count: mip_levels,
                }
            } else {
                ImageBarrier {
                    image,
                    old_layout,
                    new_layout,
                    src_access_mask: ACCESS_TRANSFER_WRITE,
                    dst_access_mask: ACCESS_SHADER_READ,
                    src_stage_mask: PIPELINE_STAGE_TRANSFER,
                    dst_stage_mask: PIPELINE_STAGE_FRAGMENT_SHADER,
                    base_mip_level: 0,
                    level_count: mip_levels,
                }
            }),
    {
        if old_layout == IMAGE_LAYOUT_UNDEFINED && new_layout == IMAGE_LAYOUT_TRANSFER_DST_OPTIMAL {
            Ok(
                ImageBarrier {
                    image,
                    old_layout,
                    new_layout,
                    src_access_mask: 0,
                    dst_access_mask: ACCESS_TRANSFER_WRITE,
                    src_stage_mask: PIPELINE_STAGE_TOP_OF_PIPE,
                    dst_stage_mask: PIPELINE_STAGE_TRANSFER,
                    base_mip_level: 0,
                    level_count: mip_levels,
                },
            )
        } else if old_layout == IMAGE_LAYOUT_TRANSFER_DST_OPTIMAL && new_layout
            == IMAGE_LAYOUT_SHADER_READ_ONLY_OPTIMAL {
            Ok(
                ImageBarrier {
                    image,
                    old_layout,
                    new_layout,
                    src_access_mask: ACCESS_TRANSFER_WRITE,
                    dst_access_mask: ACCESS_SHADER_READ,
                    src_stage_mask: PIPELINE_STAGE_TRANSFER,
                    dst_stage_mask: PIPELINE_STAGE_FRAGMENT_SHADER,
                    base_mip_level: 0,
                    level_count: mip_levels,
                },
            )
        } else {
            Err(ApiError::UnsupportedLayoutTransition)
        }
    }

    /// The blits that fill the mip levels of an image of the given size,
    /// level 1 first, each from the level above it, half its size and
    /// filtered linearly. `optimal_tiling_features` is what the device can
    /// do with the image's format in optimal tiling: it has to filter
    /// linearly. The barriers that go with the blits are those of
    /// `mip_barriers`.
    pub fn generate_mipmaps(optimal_tiling_features: u32, width: u32, height: u32, mip_levels: u32) -> (r: Result<
        Vec<MipBlit>,
        ApiError,
    >)
        requires
            mip_levels >= 1,
        ensures
            r is Ok <==> optimal_tiling_features & FORMAT_FEATURE_SAMPLED_IMAGE_FILTER_LINEAR
                == FORMAT_FEATURE_SAMPLED_IMAGE_FILTER_LINEAR,
            r is Err ==> r->Err_0 == ApiError::NoLinearBlit,
            r is Ok ==> r->Ok_0@ == Seq::new((mip_levels - 1) as nat, |k: int| mip_blit(width, height, k + 1)),
    {
        if optimal_tiling_features & FORMAT_FEATURE_SAMPLED_IMAGE_FILTER_LINEAR
            != FORMAT_FEATURE_SAMPLED_IMAGE_FILTER_LINEAR {
            return Err(ApiError::NoLinearBlit);
        }
        let mut blits: Vec<MipBlit> = Vec::new();
        let mut mip_width: u32 = width;
        let mut mip_height: u32 = height;
        let mut i: u32 = 1;
        while i < mip_levels
            invariant
                1 <= i <= mip_levels,
                mip_width == mip_dimension(width, (i - 1) as nat),
                mip_height == mip_dimension(height, (i - 1) as nat),
                blits@ == Seq::new((i - 1) as nat, |k: int| mip_blit(width, height, k + 1)),
            decreases mip_levels - i,
        {
            let next_width: u32 = if mip_width > 1 { mip_width / 2 } else { mip_width };
            let next_height: u32 = if mip_height > 1 { mip_height / 2 } else { mip_height };
            blits.push(
                MipBlit {
                    src_level: i - 1,
                    src_width: mip_width,
                    src_height: mip_height,
                    dst_level: i,
                    dst_width: next_width,
                    dst_height: next_height,
                    filter: FILTER_LINEAR,
                },
            );
            mip_width = next_width;
            mip_height = next_height;
            i = i + 1;
            assert(blits@ =~= Seq::new((i - 1) as nat, |k: int| mip_blit(width, height, k + 1)));
        }
        Ok(blits)
    }

    /// The barriers that go with the blits of `generate_mipmaps`, in the
    /// order in which they are recorded. For each level but the last there
    /// are two: one before the blit that reads the level, which makes it a
    /// transfer source once it is written, and one after that blit, which
    /// leaves it readable by fragment shaders. The last barrier leaves the
    /// last level, which nothing is read from, readable by fragment
    /// shaders. So every level ends in the layout of a shader's read-only
    /// input.
    pub fn mip_barriers(image: Handle, mip_levels: u32) -> (plan: Vec<ImageBarrier>)
        requires
            mip_levels >= 1,
        ensures
            plan@.len() == 2 * (mip_levels - 1) + 1,
            forall|k: int|
                0 <= k < mip_levels - 1 ==> #[trigger] plan@[2 * k] == mip_read_barrier(image, k as u32),
            forall|k: int|
                0 <= k < mip_levels - 1 ==> #[trigger] plan@[2 * k + 1] == mip_done_barrier(image, k as u32),
            plan@[2 * (mip_levels - 1)] == mip_last_barrier(image, (mip_levels - 1) as u32),
            plan@ == Seq::new((2 * (mip_levels - 1) + 1) as nat, |k: int| mip_barrier_at(image, mip_levels, k)),
    {
        let mut plan: Vec<ImageBarrier> = Vec::new();
        let mut level: u32 = 0;
        while level < mip_levels - 1
            invariant
                mip_levels >= 1,
                level <= mip_levels - 1,
                plan@ == Seq::new((2 * level) as nat, |k: int| mip_barrier_at(image, mip_levels, k)),
            decreases mip_levels - 1 - level,
        {
            plan.push(
                ImageBarrier {
                    image,
                    old_layout: IMAGE_LAYOUT_TRANSFER_DST_OPTIMAL,
                    new_layout: IMAGE_LAYOUT_TRANSFER_SRC_OPTIMAL,
                    src_access_mask: ACCESS_TRANSFER_WRITE,
                    dst_access_mask: ACCESS_TRANSFER_READ,
                    src_stage_mask: PIPELINE_STAGE_TRANSFER,
                    dst_stage_mask: PIPELINE_STAGE_TRANSFER,
                    base_mip_level: level,
                    level_count: 1,
                },
            );
            plan.push(
                ImageBarrier {
                    image,
                    old_layout: IMAGE_LAYOUT_TRANSFER_SRC_OPTIMAL,
                    new_layout: IMAGE_LAYOUT_SHADER_READ_ONLY_OPTIMAL,
                    src_access_mask: ACCESS_TRANSFER_READ,
                    dst_access_mask: ACCESS_SHADER_READ,
                    src_stage_mask: PIPELINE_STAGE_TRANSFER,
                    dst_stage_mask: PIPELINE_STAGE_FRAGMENT_SHADER,
                    base_mip_level: level,
                    level_count: 1,
                },
            );
            level = level + 1;
            assert(plan@ =~= Seq::new((2 * level) as nat, |k: int| mip_barrier_at(image, mip_levels, k)));
        }
        plan.push(
            ImageBarrier {
                image,
                old_layout: IMAGE_LAYOUT_TRANSFER_DST_OPTIMAL,
                new_layout: IMAGE_LAYOUT_SHADER_READ_ONLY_OPTIMAL,
                src_access_mask: ACCESS_TRANSFER_WRITE,
                dst_access_mask: ACCESS_SHADER_READ,
                src_stage_mask: PIPELINE_STAGE_TRANSFER,
                dst_stage_mask: PIPELINE_STAGE_FRAGMENT_SHADER,
                base_mip_level: mip_levels - 1,
                level_count: 1,
            },
        );
        assert(plan@ =~= Seq::new(
            (2 * (mip_levels - 1) + 1) as nat,
            |k: int| mip_barrier_at(image, mip_levels, k),
        ));
        plan
    }
}

} // verus!
