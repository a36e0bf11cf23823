use deimos::api::VulkanApi;
use deimos::command::Extent2D;
use deimos::handle::Handle;
use deimos::image::{
    FILTER_LINEAR, ImageBarrier, MipBlit, ACCESS_COLOR_ATTACHMENT_WRITE, ACCESS_DEPTH_STENCIL_ATTACHMENT_WRITE,
    ACCESS_SHADER_READ, ACCESS_TRANSFER_READ, ACCESS_TRANSFER_WRITE, IMAGE_LAYOUT_COLOR_ATTACHMENT_OPTIMAL,
    IMAGE_LAYOUT_DEPTH_STENCIL_ATTACHMENT_OPTIMAL, IMAGE_LAYOUT_PRESENT_SRC,
    IMAGE_LAYOUT_SHADER_READ_ONLY_OPTIMAL, IMAGE_LAYOUT_TRANSFER_DST_OPTIMAL,
    IMAGE_LAYOUT_TRANSFER_SRC_OPTIMAL, IMAGE_LAYOUT_UNDEFINED, PIPELINE_STAGE_COLOR_ATTACHMENT_OUTPUT,
    PIPELINE_STAGE_EARLY_FRAGMENT_TESTS, PIPELINE_STAGE_FRAGMENT_SHADER, PIPELINE_STAGE_TOP_OF_PIPE,
    PIPELINE_STAGE_TRANSFER,
};
use deimos::pass::{
    DescriptorBinding, DescriptorUpdate, ImageInfo, DESCRIPTOR_TYPE_COMBINED_IMAGE_SAMPLER,
    DESCRIPTOR_TYPE_UNIFORM_BUFFER, IMAGE_ASPECT_COLOR, IMAGE_ASPECT_DEPTH, IMAGE_USAGE_DEPTH_STENCIL_ATTACHMENT,
    IMAGE_USAGE_TRANSIENT_ATTACHMENT, SHADER_STAGE_FRAGMENT, SHADER_STAGE_VERTEX,
    BufferInfo, DescriptorPoolInfo, FramebufferInfo, ATTACHMENT_LOAD_OP_CLEAR, ATTACHMENT_LOAD_OP_DONT_CARE,
    ATTACHMENT_STORE_OP_DONT_CARE, ATTACHMENT_STORE_OP_STORE, SAMPLE_COUNT_1, SHARING_MODE_EXCLUSIVE,
    SUBPASS_EXTERNAL,
};
use deimos::physical::ApiError;
use deimos::shader::ShaderCodeError;
use vulkanalia::bytecode::Bytecode;
use vulkanalia::vk;

fn h(raw: u64) -> Handle {
    Handle::new(raw)
}

#[test]
fn image_codes_are_those_of_the_device() {
    assert_eq!(IMAGE_LAYOUT_UNDEFINED, vk::ImageLayout::UNDEFINED.as_raw());
    assert_eq!(IMAGE_LAYOUT_COLOR_ATTACHMENT_OPTIMAL, vk::ImageLayout::COLOR_ATTACHMENT_OPTIMAL.as_raw());
    assert_eq!(
        IMAGE_LAYOUT_DEPTH_STENCIL_ATTACHMENT_OPTIMAL,
        vk::ImageLayout::DEPTH_STENCIL_ATTACHMENT_OPTIMAL.as_raw()
    );
    assert_eq!(IMAGE_LAYOUT_SHADER_READ_ONLY_OPTIMAL, vk::ImageLayout::SHADER_READ_ONLY_OPTIMAL.as_raw());
    assert_eq!(IMAGE_LAYOUT_TRANSFER_SRC_OPTIMAL, vk::ImageLayout::TRANSFER_SRC_OPTIMAL.as_raw());
    assert_eq!(IMAGE_LAYOUT_TRANSFER_DST_OPTIMAL, vk::ImageLayout::TRANSFER_DST_OPTIMAL.as_raw());
    assert_eq!(IMAGE_LAYOUT_PRESENT_SRC, vk::ImageLayout::PRESENT_SRC_KHR.as_raw());
    assert_eq!(ACCESS_SHADER_READ, vk::AccessFlags::SHADER_READ.bits());
    assert_eq!(ACCESS_COLOR_ATTACHMENT_WRITE, vk::AccessFlags::COLOR_ATTACHMENT_WRITE.bits());
    assert_eq!(ACCESS_DEPTH_STENCIL_ATTACHMENT_WRITE, vk::AccessFlags::DEPTH_STENCIL_ATTACHMENT_WRITE.bits());
    assert_eq!(ACCESS_TRANSFER_READ, vk::AccessFlags::TRANSFER_READ.bits());
    assert_eq!(ACCESS_TRANSFER_WRITE, vk::AccessFlags::TRANSFER_WRITE.bits());
    assert_eq!(PIPELINE_STAGE_TOP_OF_PIPE, vk::PipelineStageFlags::TOP_OF_PIPE.bits());
    assert_eq!(PIPELINE_STAGE_FRAGMENT_SHADER, vk::PipelineStageFlags::FRAGMENT_SHADER.bits());
    assert_eq!(PIPELINE_STAGE_EARLY_FRAGMENT_TESTS, vk::PipelineStageFlags::EARLY_FRAGMENT_TESTS.bits());
    assert_eq!(PIPELINE_STAGE_COLOR_ATTACHMENT_OUTPUT, vk::PipelineStageFlags::COLOR_ATTACHMENT_OUTPUT.bits());
    assert_eq!(PIPELINE_STAGE_TRANSFER, vk::PipelineStageFlags::TRANSFER.bits());
    assert_eq!(ATTACHMENT_LOAD_OP_CLEAR, vk::AttachmentLoadOp::CLEAR.as_raw());
    assert_eq!(ATTACHMENT_LOAD_OP_DONT_CARE, vk::AttachmentLoadOp::DONT_CARE.as_raw());
    assert_eq!(ATTACHMENT_STORE_OP_STORE, vk::AttachmentStoreOp::STORE.as_raw());
    assert_eq!(ATTACHMENT_STORE_OP_DONT_CARE, vk::AttachmentStoreOp::DONT_CARE.as_raw());
    assert_eq!(SAMPLE_COUNT_1, vk::SampleCountFlags::_1.bits());
    assert_eq!(SUBPASS_EXTERNAL, vk::SUBPASS_EXTERNAL);
    assert_eq!(SHARING_MODE_EXCLUSIVE, vk::SharingMode::EXCLUSIVE.as_raw());
}

#[test]
fn undefined_to_transfer_destination() {
    assert_eq!(
        VulkanApi::transition_image_layout(h(5), 0, 7, 11),
        Ok(ImageBarrier {
            image: h(5),
            old_layout: 0,
            new_layout: 7,
            src_access_mask: 0,
            dst_access_mask: 0x1000,
            src_stage_mask: 0x1,
            dst_stage_mask: 0x1000,
            base_mip_level: 0,
            level_count: 11,
        })
    );
}

#[test]
fn transfer_destination_to_shader_read() {
    assert_eq!(
        VulkanApi::transition_image_layout(h(5), 7, 5, 3),
        Ok(ImageBarrier {
            image: h(5),
            old_layout: 7,
            new_layout: 5,
            src_access_mask: 0x1000,
            dst_access_mask: 0x20,
            src_stage_mask: 0x1000,
            dst_stage_mask: 0x80,
            base_mip_level: 0,
            level_count: 3,
        })
    );
}

#[test]
fn other_transitions_are_refused() {
    for (old, new) in [(0, 5), (7, 0), (5, 7), (0, 0), (7, 7), (6, 5), (0, 2), (1000001002, 7)] {
        assert_eq!(
            VulkanApi::transition_image_layout(h(5), old, new, 1),
            Err(ApiError::UnsupportedLayoutTransition),
            "{} to {}",
            old,
            new
        );
    }
}

#[test]
fn mipmaps_halve_down_to_one() {
    let blits = VulkanApi::generate_mipmaps(0x1000, 1024, 1024, 11).unwrap();
    assert_eq!(blits.len(), 10);
    for (k, blit) in blits.iter().enumerate() {
        let src = 1024u32 >> k;
        assert_eq!(
            *blit,
            MipBlit {
                src_level: k as u32,
                src_width: src,
                src_height: src,
                dst_level: k as u32 + 1,
                dst_width: src / 2,
                dst_height: src / 2,
                filter: 1,
            }
        );
    }
    assert_eq!(blits[9].dst_width, 1);
}

#[test]
fn mipmaps_of_an_oblong_image_stay_at_one() {
    let blits = VulkanApi::generate_mipmaps(0x1000, 8, 2, 5).unwrap();
    let sizes: Vec<(u32, u32, u32, u32)> =
        blits.iter().map(|b| (b.src_width, b.src_height, b.dst_width, b.dst_height)).collect();
    assert_eq!(sizes, vec![(8, 2, 4, 1), (4, 1, 2, 1), (2, 1, 1, 1), (1, 1, 1, 1)]);
    let levels: Vec<(u32, u32)> = blits.iter().map(|b| (b.src_level, b.dst_level)).collect();
    assert_eq!(levels, vec![(0, 1), (1, 2), (2, 3), (3, 4)]);
    let odd = VulkanApi::generate_mipmaps(0x1000, 7, 0, 3).unwrap();
    assert_eq!(
        odd.iter().map(|b| (b.dst_width, b.dst_height)).collect::<Vec<_>>(),
        vec![(3, 0), (1, 0)]
    );
}

#[test]
fn mipmaps_of_one_level_need_no_blit() {
    assert_eq!(VulkanApi::generate_mipmaps(0x1000, 64, 64, 1), Ok(vec![]));
}

#[test]
fn mipmaps_need_linear_filtering() {
    assert_eq!(VulkanApi::generate_mipmaps(0x0FFF, 64, 64, 7), Err(ApiError::NoLinearBlit));
    assert_eq!(VulkanApi::generate_mipmaps(0, 64, 64, 1), Err(ApiError::NoLinearBlit));
    assert!(VulkanApi::generate_mipmaps(0xFFFF, 64, 64, 7).is_ok());
}

#[test]
fn render_pass_has_colour_depth_and_resolve() {
    let info = VulkanApi::create_render_pass(50, 8, 126);
    assert_eq!(info.color.format, 50);
    assert_eq!(info.color.samples, 8);
    assert_eq!((info.color.load_op, info.color.store_op), (1, 0));
    assert_eq!((info.color.stencil_load_op, info.color.stencil_store_op), (2, 1));
    assert_eq!((info.color.initial_layout, info.color.final_layout), (0, 2));
    assert_eq!(info.depth_stencil.format, 126);
    assert_eq!(info.depth_stencil.samples, 8);
    assert_eq!((info.depth_stencil.load_op, info.depth_stencil.store_op), (1, 1));
    assert_eq!((info.depth_stencil.stencil_load_op, info.depth_stencil.stencil_store_op), (2, 1));
    assert_eq!((info.depth_stencil.initial_layout, info.depth_stencil.final_layout), (0, 3));
    assert_eq!(info.color_resolve.format, 50);
    assert_eq!(info.color_resolve.samples, 1);
    assert_eq!((info.color_resolve.load_op, info.color_resolve.store_op), (2, 0));
    assert_eq!((info.color_resolve.initial_layout, info.color_resolve.final_layout), (0, 1000001002));
    assert_eq!((info.color_layout, info.depth_stencil_layout, info.color_resolve_layout), (2, 3, 2));
    assert_eq!((info.dependency.src_subpass, info.dependency.dst_subpass), (u32::MAX, 0));
    assert_eq!((info.dependency.src_stage_mask, info.dependency.dst_stage_mask), (0x500, 0x500));
    assert_eq!((info.dependency.src_access_mask, info.dependency.dst_access_mask), (0, 0x500));
}

#[test]
fn framebuffers_bind_colour_depth_and_the_view_of_each_image() {
    let extent = Extent2D { width: 640, height: 480 };
    let infos = VulkanApi::create_framebuffers(h(1), extent, h(2), h(3), &vec![h(10), h(11), h(12)]);
    assert_eq!(infos.len(), 3);
    for (i, info) in infos.iter().enumerate() {
        assert_eq!(
            *info,
            FramebufferInfo {
                render_pass: h(1),
                color: h(2),
                depth: h(3),
                target: h(10 + i as u64),
                width: 640,
                height: 480,
                layers: 1,
            }
        );
    }
    assert!(VulkanApi::create_framebuffers(h(1), extent, h(2), h(3), &vec![]).is_empty());
    assert_eq!(VulkanApi::create_framebuffer(h(1), extent, h(2), h(3), h(4)).target, h(4));
}

#[test]
fn buffer_size_is_elements_times_their_size() {
    assert_eq!(
        VulkanApi::create_buffer(20, 3, 0x80, 0x1),
        Some(BufferInfo { size: 60, usage: 0x80, sharing_mode: 0, memory_properties: 0x1 })
    );
    assert_eq!(VulkanApi::create_buffer(0, 7, 0, 0).map(|b| b.size), Some(0));
    assert_eq!(VulkanApi::create_buffer(1 << 32, 1 << 31, 0, 0).map(|b| b.size), Some(1 << 63));
    assert_eq!(VulkanApi::create_buffer(1 << 32, 1 << 32, 0, 0), None);
    assert_eq!(VulkanApi::create_buffer(usize::MAX, 2, 0, 0), None);
}

#[test]
fn descriptor_pool_has_room_for_each_set() {
    assert_eq!(
        VulkanApi::create_descriptor_pool(10),
        Some(DescriptorPoolInfo { uniform_buffers: 10, combined_image_samplers: 10, max_sets: 10 })
    );
    assert_eq!(VulkanApi::create_descriptor_pool(u32::MAX as usize).map(|p| p.max_sets), Some(u32::MAX));
    assert_eq!(VulkanApi::create_descriptor_pool(u32::MAX as usize + 1), None);
}

#[test]
fn shader_code_comes_in_words() {
    let bytes: Vec<u8> = vec![0x03, 0x02, 0x23, 0x07, 1, 2, 3, 4, 0xFF, 0, 0, 0x80];
    let info = VulkanApi::create_shader_module(&bytes).unwrap();
    assert_eq!(info.code_size, 12);
    assert_eq!(info.code.len(), 3);
    let expected = Bytecode::new(&bytes).unwrap();
    assert_eq!(info.code, expected.code());
    assert_eq!(info.code[0], u32::from_ne_bytes([0x03, 0x02, 0x23, 0x07]));
    assert_eq!(info.code[2], u32::from_ne_bytes([0xFF, 0, 0, 0x80]));
}

#[test]
fn shader_code_of_a_bad_length_is_refused() {
    assert_eq!(VulkanApi::create_shader_module(&[]).err(), Some(ShaderCodeError::Length(0)));
    assert_eq!(VulkanApi::create_shader_module(&[1, 2, 3]).err(), Some(ShaderCodeError::Length(3)));
    assert_eq!(VulkanApi::create_shader_module(&[0; 9]).err(), Some(ShaderCodeError::Length(9)));
    assert!(VulkanApi::create_shader_module(&[0; 8]).is_ok());
}

#[test]
fn pass_codes_are_those_of_the_device() {
    assert_eq!(DESCRIPTOR_TYPE_UNIFORM_BUFFER, vk::DescriptorType::UNIFORM_BUFFER.as_raw());
    assert_eq!(DESCRIPTOR_TYPE_COMBINED_IMAGE_SAMPLER, vk::DescriptorType::COMBINED_IMAGE_SAMPLER.as_raw());
    assert_eq!(SHADER_STAGE_VERTEX, vk::ShaderStageFlags::VERTEX.bits());
    assert_eq!(SHADER_STAGE_FRAGMENT, vk::ShaderStageFlags::FRAGMENT.bits());
    assert_eq!(IMAGE_USAGE_DEPTH_STENCIL_ATTACHMENT, vk::ImageUsageFlags::DEPTH_STENCIL_ATTACHMENT.bits());
    assert_eq!(IMAGE_USAGE_TRANSIENT_ATTACHMENT, vk::ImageUsageFlags::TRANSIENT_ATTACHMENT.bits());
    assert_eq!(IMAGE_ASPECT_COLOR, vk::ImageAspectFlags::COLOR.bits());
    assert_eq!(IMAGE_ASPECT_DEPTH, vk::ImageAspectFlags::DEPTH.bits());
}

#[test]
fn attachments_of_the_render_targets() {
    let extent = Extent2D { width: 640, height: 480 };
    let color = VulkanApi::create_color_objects(50, extent, 8);
    assert_eq!(
        color.image,
        ImageInfo {
            width: 640,
            height: 480,
            depth: 1,
            mip_levels: 1,
            array_layers: 1,
            format: 50,
            tiling: 0,
            initial_layout: 0,
            usage: 0x50,
            sharing_mode: 0,
            samples: 8,
            memory_properties: 0x1,
        }
    );
    assert_eq!(color.view_aspect, 1);
    let depth = VulkanApi::create_depth_objects(126, extent, 8);
    assert_eq!(depth.image, ImageInfo { format: 126, usage: 0x20, ..color.image });
    assert_eq!(depth.view_aspect, 2);
    let image = VulkanApi::create_image(extent, 11, 1, 43, 1, 0x7, 0x6);
    assert_eq!(
        (image.mip_levels, image.samples, image.format, image.tiling, image.usage, image.memory_properties),
        (11, 1, 43, 1, 0x7, 0x6)
    );
    assert_eq!((image.depth, image.array_layers, image.initial_layout, image.sharing_mode), (1, 1, 0, 0));
}

#[test]
fn descriptor_layout_has_a_uniform_buffer_and_a_sampled_image() {
    assert_eq!(
        VulkanApi::create_descriptor_set_layout(),
        [
            DescriptorBinding { binding: 0, descriptor_type: 6, descriptor_count: 1, stage_flags: 0x1 },
            DescriptorBinding { binding: 1, descriptor_type: 1, descriptor_count: 1, stage_flags: 0x10 },
        ]
    );
}

#[test]
fn descriptor_sets_get_the_buffer_of_their_image() {
    let sets = vec![h(1), h(2), h(3)];
    let buffers = vec![(h(11), h(21)), (h(12), h(22)), (h(13), h(23))];
    let updates = VulkanApi::update_descriptor_sets(&sets, &buffers, 192, h(5), h(6), 2);
    assert_eq!(
        updates,
        vec![
            DescriptorUpdate { descriptor_set: h(1), buffer: h(11), range: 192, image_view: h(5), sampler: h(6), image_layout: 5 },
            DescriptorUpdate { descriptor_set: h(2), buffer: h(12), range: 192, image_view: h(5), sampler: h(6), image_layout: 5 },
        ]
    );
    assert!(VulkanApi::update_descriptor_sets(&sets, &buffers, 192, h(5), h(6), 0).is_empty());
    assert_eq!(VulkanApi::update_descriptor_sets(&sets, &buffers, 192, h(5), h(6), 3).len(), 3);
}

#[test]
fn mip_levels_are_made_with_the_linear_filter() {
    assert_eq!(FILTER_LINEAR, vk::Filter::LINEAR.as_raw());
    let blits = VulkanApi::generate_mipmaps(0x1000, 8, 8, 4).unwrap();
    assert!(blits.iter().all(|b| b.filter == FILTER_LINEAR));
}

#[test]
fn mip_barriers_leave_every_level_readable_by_shaders() {
    let plan = VulkanApi::mip_barriers(h(9), 3);
    let barrier = |level, old_layout, new_layout, src_access, dst_access, dst_stage| ImageBarrier {
        image: h(9),
        old_layout,
        new_layout,
        src_access_mask: src_access,
        dst_access_mask: dst_access,
        src_stage_mask: 0x1000,
        dst_stage_mask: dst_stage,
        base_mip_level: level,
        level_count: 1,
    };
    assert_eq!(
        plan,
        vec![
            barrier(0, 7, 6, 0x1000, 0x800, 0x1000),
            barrier(0, 6, 5, 0x800, 0x20, 0x80),
            barrier(1, 7, 6, 0x1000, 0x800, 0x1000),
            barrier(1, 6, 5, 0x800, 0x20, 0x80),
            barrier(2, 7, 5, 0x1000, 0x20, 0x80),
        ]
    );
    for levels in 1..12u32 {
        let plan = VulkanApi::mip_barriers(h(9), levels);
        assert_eq!(plan.len() as u32, 2 * (levels - 1) + 1);
        for level in 0..levels {
            let last = plan.iter().filter(|b| b.base_mip_level == level).last().unwrap();
            assert_eq!(last.new_layout, IMAGE_LAYOUT_SHADER_READ_ONLY_OPTIMAL);
            assert_eq!(last.dst_stage_mask, PIPELINE_STAGE_FRAGMENT_SHADER);
        }
    }
    assert_eq!(VulkanApi::mip_barriers(h(9), 1), vec![barrier(0, 7, 5, 0x1000, 0x20, 0x80)]);
}
