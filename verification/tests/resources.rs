use vk_helpers::access::{AccessType, ImageLayout};
use vk_helpers::allocator::{Allocator, MemoryLocation};
use vk_helpers::buffer::{Buffer, BUFFER_USAGE_TRANSFER_SRC, BUFFER_USAGE_VERTEX_BUFFER};
use vk_helpers::command::{Command, CommandStream, Extent3d};
use vk_helpers::device::{Device, InitResources};
use vk_helpers::error::Error;
use vk_helpers::image::{
    load_image_from_bytes, Image, ImageDescriptor, ImageType, ImageViewType, LoadImageDescriptor,
    FORMAT_D32_SFLOAT, FORMAT_R8G8B8A8_SRGB, IMAGE_USAGE_DEPTH_STENCIL_ATTACHMENT,
    IMAGE_USAGE_SAMPLED, IMAGE_USAGE_TRANSFER_DST, IMAGE_USAGE_TRANSFER_SRC,
};
use vk_helpers::mips::generate_mips;

fn init_resources() -> InitResources {
    InitResources {
        commands: CommandStream::new(),
        device: Device::new(4, 16),
        allocator: Allocator::new(),
    }
}

/// How often a barrier moves `level` of `image` into exactly this state.
fn count_transitions_to(
    commands: &[Command],
    image: u64,
    level: u32,
    accesses: &[AccessType],
    layout: ImageLayout,
) -> usize {
    let mut count: usize = 0;
    for command in commands {
        if let Command::PipelineBarrier(barriers) = command {
            for barrier in barriers {
                let covers = barrier.image == image && barrier.range.base_mip_level <= level
                    && level < barrier.range.base_mip_level + barrier.range.level_count;
                if covers && barrier.next_accesses.as_slice() == accesses
                    && barrier.next_layout == layout
                {
                    count += 1;
                }
            }
        }
    }
    count
}

#[test]
fn buffer_round_trip_empty() {
    let mut init = init_resources();
    let bytes: Vec<u8> = Vec::new();
    let buffer = Buffer::new(&bytes, "empty", BUFFER_USAGE_VERTEX_BUFFER, &mut init).unwrap();
    assert_eq!(buffer.allocation.mapped, bytes);
}

#[test]
fn buffer_round_trip_one_byte() {
    let mut init = init_resources();
    let bytes = vec![0xa5u8];
    let buffer = Buffer::new(&bytes, "one", BUFFER_USAGE_VERTEX_BUFFER, &mut init).unwrap();
    assert_eq!(buffer.allocation.mapped, bytes);
}

#[test]
fn buffer_round_trip_non_power_of_two() {
    let mut init = init_resources();
    let bytes: Vec<u8> = (0..13u8).collect();
    let buffer = Buffer::new(&bytes, "thirteen", BUFFER_USAGE_VERTEX_BUFFER, &mut init).unwrap();
    assert_eq!(buffer.allocation.mapped, bytes);
    assert_eq!(buffer.allocation.size, 13);
    assert!(buffer.allocation.host_visible);
}

#[test]
fn buffer_write_mapped_overwrites_range() {
    let mut init = init_resources();
    let bytes = vec![1u8, 2, 3, 4, 5, 6];
    let mut buffer = Buffer::new(&bytes, "buf", BUFFER_USAGE_VERTEX_BUFFER, &mut init).unwrap();
    buffer.write_mapped(&[9u8, 8], 2).unwrap();
    assert_eq!(buffer.allocation.mapped, vec![1u8, 2, 9, 8, 5, 6]);
}

#[test]
fn buffer_write_mapped_fails_on_device_local_memory() {
    let mut init = init_resources();
    let mut buffer =
        Buffer::new_of_size(64, "scratch", BUFFER_USAGE_VERTEX_BUFFER, &mut init).unwrap();
    assert!(!buffer.allocation.host_visible);
    assert_eq!(buffer.write_mapped(&[1u8], 0), Err(Error::NotMapped));
}

#[test]
fn alignment_override_aligns_bound_offset() {
    let mut init = init_resources();
    // Move the cursor off zero first so the alignment actually matters.
    let _small = Buffer::new(&[1u8, 2, 3], "small", BUFFER_USAGE_VERTEX_BUFFER, &mut init).unwrap();
    let bytes = vec![7u8; 10];
    let buffer =
        Buffer::new_with_alignment(&bytes, "aligned", BUFFER_USAGE_VERTEX_BUFFER, 256, &mut init)
            .unwrap();
    assert_eq!(buffer.allocation.offset % 256, 0);
    assert_eq!(buffer.allocation.offset, 256);
    // The allocator records the requested alignment.
    let last = init.allocator.requests.last().unwrap();
    assert_eq!(last.alignment, 256);
    assert_eq!(last.size, 10);
    assert_eq!(last.location, MemoryLocation::CpuToGpu);
    assert_eq!(buffer.allocation.mapped, bytes);
}

#[test]
fn zero_alignment_fails_allocation() {
    let mut init = init_resources();
    let result =
        Buffer::new_with_alignment(&[1u8], "bad", BUFFER_USAGE_VERTEX_BUFFER, 0, &mut init);
    assert_eq!(result.unwrap_err(), Error::AllocationFailed);
}

#[test]
fn buffer_cleanup_records_destroy_and_free() {
    let mut init = init_resources();
    let buffer = Buffer::new(&[1u8], "gone", BUFFER_USAGE_VERTEX_BUFFER, &mut init).unwrap();
    let handle = buffer.buffer;
    let id = buffer.allocation.id;
    let mut device = init.device;
    let mut allocator = init.allocator;
    buffer.cleanup_and_drop(&mut device, &mut allocator).unwrap();
    assert_eq!(device.destroyed, vec![handle]);
    assert_eq!(allocator.freed, vec![id]);
}

#[test]
fn image_creation_always_adds_transfer_src_usage() {
    let mut init = init_resources();
    let descriptor = ImageDescriptor {
        width: 32,
        height: 32,
        name: "target".to_string(),
        format: FORMAT_R8G8B8A8_SRGB,
        mip_levels: 1,
        usage: IMAGE_USAGE_SAMPLED,
        next_accesses: vec![AccessType::FragmentShaderReadSampledImage],
        next_layout: ImageLayout::Optimal,
    };
    let image = Image::new(&descriptor, &mut init).unwrap();
    let record = init.device.images.last().unwrap();
    assert_eq!(record.handle, image.image);
    assert_eq!(record.usage, IMAGE_USAGE_TRANSFER_SRC | IMAGE_USAGE_SAMPLED);
    assert_eq!(record.image_type, ImageType::Type2d);
    assert!(!image.allocation.host_visible);
}

#[test]
fn image_creation_transitions_every_level_once() {
    let mut init = init_resources();
    let final_accesses = vec![AccessType::FragmentShaderReadSampledImage];
    let descriptor = ImageDescriptor {
        width: 64,
        height: 64,
        name: "mipped".to_string(),
        format: FORMAT_R8G8B8A8_SRGB,
        mip_levels: 3,
        usage: IMAGE_USAGE_SAMPLED,
        next_accesses: final_accesses.clone(),
        next_layout: ImageLayout::Optimal,
    };
    let image = Image::new(&descriptor, &mut init).unwrap();
    assert_eq!(init.commands.commands.len(), 1);
    for level in 0..3 {
        let count = count_transitions_to(
            &init.commands.commands,
            image.image,
            level,
            &final_accesses,
            ImageLayout::Optimal,
        );
        assert_eq!(count, 1);
    }
    // The initial transition discards the undefined contents.
    if let Command::PipelineBarrier(barriers) = &init.commands.commands[0] {
        assert_eq!(barriers.len(), 1);
        assert!(barriers[0].discard_contents);
        assert_eq!(barriers[0].previous_accesses, vec![AccessType::Nothing]);
    } else {
        panic!("expected a pipeline barrier");
    }
}

#[test]
fn depth_format_selects_depth_aspect() {
    let mut init = init_resources();
    let descriptor = ImageDescriptor {
        width: 16,
        height: 16,
        name: "depth".to_string(),
        format: FORMAT_D32_SFLOAT,
        mip_levels: 1,
        usage: IMAGE_USAGE_DEPTH_STENCIL_ATTACHMENT,
        next_accesses: vec![AccessType::DepthStencilAttachmentWrite],
        next_layout: ImageLayout::Optimal,
    };
    let _image = Image::new(&descriptor, &mut init).unwrap();
    if let Command::PipelineBarrier(barriers) = &init.commands.commands[0] {
        assert_eq!(
            barriers[0].range.aspect,
            vk_helpers::barrier::ImageAspect::Depth
        );
    } else {
        panic!("expected a pipeline barrier");
    }
}

#[test]
fn image_cleanup_records_view_image_and_free() {
    let mut init = init_resources();
    let descriptor = ImageDescriptor {
        width: 8,
        height: 8,
        name: "tmp".to_string(),
        format: FORMAT_R8G8B8A8_SRGB,
        mip_levels: 1,
        usage: IMAGE_USAGE_SAMPLED,
        next_accesses: vec![AccessType::FragmentShaderReadSampledImage],
        next_layout: ImageLayout::Optimal,
    };
    let image = Image::new(&descriptor, &mut init).unwrap();
    let mut device = init.device;
    let mut allocator = init.allocator;
    image.cleanup(&mut device, &mut allocator).unwrap();
    assert_eq!(device.destroyed, vec![image.view, image.image]);
    assert_eq!(allocator.freed, vec![image.allocation.id]);
}

#[test]
fn oversized_image_fails_allocation() {
    let mut init = init_resources();
    let descriptor = ImageDescriptor {
        width: 2147483648,
        height: 2147483648,
        name: "huge".to_string(),
        format: FORMAT_R8G8B8A8_SRGB,
        mip_levels: 1,
        usage: IMAGE_USAGE_SAMPLED,
        next_accesses: vec![AccessType::FragmentShaderReadSampledImage],
        next_layout: ImageLayout::Optimal,
    };
    assert_eq!(Image::new(&descriptor, &mut init).unwrap_err(), Error::AllocationFailed);
}

#[test]
fn generate_mips_emits_halved_blits() {
    let mut commands = CommandStream::new();
    let final_accesses = vec![AccessType::FragmentShaderReadSampledImage];
    generate_mips(&mut commands, 7, 256, 256, 4, &final_accesses, ImageLayout::Optimal);
    let blits: Vec<&Command> = commands
        .commands
        .iter()
        .filter(|c| matches!(c, Command::BlitImage { .. }))
        .collect();
    assert_eq!(blits.len(), 3);
    let expected = [(0u32, 1u32, 256u32, 128u32), (1, 2, 128, 64), (2, 3, 64, 32)];
    for (blit, (src, dst, src_dim, dst_dim)) in blits.iter().zip(expected.iter()) {
        if let Command::BlitImage {
            image,
            src_level,
            dst_level,
            src_width,
            src_height,
            dst_width,
            dst_height,
        } = blit
        {
            assert_eq!(*image, 7);
            assert_eq!(src_level, src);
            assert_eq!(dst_level, dst);
            assert_eq!(src_width, src_dim);
            assert_eq!(src_height, src_dim);
            assert_eq!(dst_width, dst_dim);
            assert_eq!(dst_height, dst_dim);
        }
    }
}

#[test]
fn generate_mips_clamps_small_extents_to_one() {
    let mut commands = CommandStream::new();
    let final_accesses = vec![AccessType::FragmentShaderReadSampledImage];
    generate_mips(&mut commands, 1, 5, 3, 4, &final_accesses, ImageLayout::Optimal);
    let mut dims: Vec<(u32, u32)> = Vec::new();
    for command in &commands.commands {
        if let Command::BlitImage { dst_width, dst_height, .. } = command {
            dims.push((*dst_width, *dst_height));
        }
    }
    assert_eq!(dims, vec![(2, 1), (1, 1), (1, 1)]);
}

#[test]
fn load_image_end_to_end_scenario() {
    let mut init = init_resources();
    let final_accesses = vec![AccessType::FragmentShaderReadSampledImage];
    let descriptor = LoadImageDescriptor {
        bytes: vec![0x40u8; 256 * 256 * 4],
        extent: Extent3d { width: 256, height: 256, depth: 1 },
        view_ty: ImageViewType::Type2d,
        format: FORMAT_R8G8B8A8_SRGB,
        name: "texture".to_string(),
        next_accesses: final_accesses.clone(),
        next_layout: ImageLayout::Optimal,
        mip_levels: 4,
    };
    let (image, staging) = load_image_from_bytes(&descriptor, &mut init).unwrap();

    // The staging buffer holds exactly the uploaded bytes.
    assert_eq!(staging.allocation.mapped.len(), 256 * 256 * 4);
    assert_eq!(staging.allocation.mapped, descriptor.bytes);

    // Exactly three blits, with destination extents 128, 64, 32.
    let mut blit_dims: Vec<(u32, u32, u32)> = Vec::new();
    for command in &init.commands.commands {
        if let Command::BlitImage { image: img, dst_level, dst_width, dst_height, .. } = command {
            assert_eq!(*img, image.image);
            blit_dims.push((*dst_level, *dst_width, *dst_height));
        }
    }
    assert_eq!(blit_dims, vec![(1, 128, 128), (2, 64, 64), (3, 32, 32)]);

    // Every level is transitioned to the requested final state exactly once.
    for level in 0..4 {
        let count = count_transitions_to(
            &init.commands.commands,
            image.image,
            level,
            &final_accesses,
            ImageLayout::Optimal,
        );
        assert_eq!(count, 1, "level {} must reach the final state exactly once", level);
    }

    // The image usage includes transfer-src for the mip chain.
    let record = init.device.images.last().unwrap();
    assert_eq!(
        record.usage,
        IMAGE_USAGE_SAMPLED | IMAGE_USAGE_TRANSFER_DST | IMAGE_USAGE_TRANSFER_SRC
    );
    assert_eq!(record.mip_levels, 4);

    // The copy targets mip level zero of the image from the staging buffer.
    let copy = init
        .commands
        .commands
        .iter()
        .find(|c| matches!(c, Command::CopyBufferToImage { .. }))
        .unwrap();
    if let Command::CopyBufferToImage { buffer, image: img, mip_level, extent } = copy {
        assert_eq!(*buffer, staging.buffer);
        assert_eq!(*img, image.image);
        assert_eq!(*mip_level, 0);
        assert_eq!(extent.width, 256);
        assert_eq!(extent.height, 256);
    }

    // The staging buffer record carries transfer-src usage.
    let buffer_record = init.device.buffers.last().unwrap();
    assert_eq!(buffer_record.usage, BUFFER_USAGE_TRANSFER_SRC);
    assert_eq!(buffer_record.size, 256 * 256 * 4);
}

#[test]
fn load_image_single_level_finishes_in_final_state() {
    let mut init = init_resources();
    let final_accesses = vec![AccessType::FragmentShaderReadSampledImage];
    let descriptor = LoadImageDescriptor {
        bytes: vec![1u8; 8 * 8 * 4],
        extent: Extent3d { width: 8, height: 8, depth: 1 },
        view_ty: ImageViewType::Type2d,
        format: FORMAT_R8G8B8A8_SRGB,
        name: "flat".to_string(),
        next_accesses: final_accesses.clone(),
        next_layout: ImageLayout::Optimal,
        mip_levels: 1,
    };
    let (image, _staging) = load_image_from_bytes(&descriptor, &mut init).unwrap();
    // Barrier to transfer-write, copy, barrier to the final state: no blits.
    assert_eq!(init.commands.commands.len(), 3);
    assert!(!init.commands.commands.iter().any(|c| matches!(c, Command::BlitImage { .. })));
    let count = count_transitions_to(
        &init.commands.commands,
        image.image,
        0,
        &final_accesses,
        ImageLayout::Optimal,
    );
    assert_eq!(count, 1);
    // No sampled usage is missing, and no transfer-src is added for one level.
    let record = init.device.images.last().unwrap();
    assert_eq!(record.usage, IMAGE_USAGE_SAMPLED | IMAGE_USAGE_TRANSFER_DST);
}

#[test]
fn load_image_uses_view_type_dimensionality() {
    let mut init = init_resources();
    let descriptor = LoadImageDescriptor {
        bytes: vec![0u8; 4 * 4 * 4 * 4],
        extent: Extent3d { width: 4, height: 4, depth: 4 },
        view_ty: ImageViewType::Type3d,
        format: FORMAT_R8G8B8A8_SRGB,
        name: "volume".to_string(),
        next_accesses: vec![AccessType::FragmentShaderReadSampledImage],
        next_layout: ImageLayout::Optimal,
        mip_levels: 1,
    };
    let (_image, _staging) = load_image_from_bytes(&descriptor, &mut init).unwrap();
    assert_eq!(init.device.images.last().unwrap().image_type, ImageType::Type3d);
}

#[test]
fn device_local_buffer_honours_alignment_override() {
    let mut init = init_resources();
    let _small = Buffer::new(&[1u8], "pad", BUFFER_USAGE_VERTEX_BUFFER, &mut init).unwrap();
    let buffer = Buffer::new_of_size_with_alignment(
        100,
        "scratch",
        BUFFER_USAGE_VERTEX_BUFFER,
        64,
        &mut init,
    )
    .unwrap();
    assert_eq!(buffer.allocation.offset % 64, 0);
    assert_eq!(buffer.allocation.offset, 64);
    assert!(!buffer.allocation.host_visible);
    assert_eq!(init.allocator.requests.last().unwrap().alignment, 64);
}

#[test]
fn generate_mips_records_nothing_for_one_level() {
    let mut commands = CommandStream::new();
    let final_accesses = vec![AccessType::FragmentShaderReadSampledImage];
    generate_mips(&mut commands, 1, 64, 64, 1, &final_accesses, ImageLayout::Optimal);
    assert!(commands.commands.is_empty());
}

#[test]
fn allocator_offsets_never_overlap() {
    let mut allocator = Allocator::new();
    let requirements =
        vk_helpers::allocator::MemoryRequirements { size: 10, alignment: 4 };
    let first = allocator.allocate(&requirements, MemoryLocation::GpuOnly, true).unwrap();
    let second = allocator.allocate(&requirements, MemoryLocation::GpuOnly, true).unwrap();
    assert_eq!(first.offset, 0);
    assert_eq!(second.offset, 12);
    assert!(second.offset >= first.offset + first.size);
    assert_ne!(first.id, second.id);
}
