use vstd::prelude::*;

use crate::access::{AccessType, ImageLayout};
use crate::allocator::{
    spec_align_up, spec_alloc_fails, Allocation, AllocationRequest, Allocator, MemoryLocation,
};
use crate::barrier::{range_contains, ImageAspect, ImageBarrier, SubresourceRange};
use crate::buffer::{Buffer, BUFFER_USAGE_TRANSFER_SRC};
use crate::command::{
    final_level_state, lemma_final_state_push, lemma_single_sets_level, pipeline_barrier, Command,
    Extent3d,
};
use crate::device::{BufferRecord, Device, ImageRecord, InitResources, ViewRecord};
use crate::error::Error;
use crate::mips::{
    copy_accesses, generate_mips, mip_barrier_at, mip_blit_at, spec_mip_level_range, state_of,
};

verus! {

// Image usage bits, as the underlying API numbers them.
pub const IMAGE_USAGE_TRANSFER_SRC: u32 = 0x1;
pub const IMAGE_USAGE_TRANSFER_DST: u32 = 0x2;
pub const IMAGE_USAGE_SAMPLED: u32 = 0x4;
pub const IMAGE_USAGE_STORAGE: u32 = 0x8;
pub const IMAGE_USAGE_COLOR_ATTACHMENT: u32 = 0x10;
pub const IMAGE_USAGE_DEPTH_STENCIL_ATTACHMENT: u32 = 0x20;

// Pixel format codes, as the underlying API numbers them.
pub const FORMAT_R8G8B8A8_SRGB: u32 = 43;
pub const FORMAT_B8G8R8A8_SRGB: u32 = 50;
pub const FORMAT_R32_UINT: u32 = 98;
pub const FORMAT_R32_SFLOAT: u32 = 100;
pub const FORMAT_R32G32_SFLOAT: u32 = 103;
pub const FORMAT_R32G32B32_SFLOAT: u32 = 106;
pub const FORMAT_R32G32B32A32_SFLOAT: u32 = 109;
pub const FORMAT_D32_SFLOAT: u32 = 126;

/// The dimensionality of a native image.
#[derive(Clone, Copy, Debug, PartialEq, Eq, Structural)]
pub enum ImageType {
    Type1d,
    Type2d,
    Type3d,
}

/// The shape of a view onto an image.
#[derive(Clone, Copy, Debug, PartialEq, Eq, Structural)]
pub enum ImageViewType {
    Type1d,
    Type1dArray,
    Type2d,
    Type2dArray,
    Cube,
    CubeArray,
    Type3d,
}

/// The image dimensionality a view type requires: array and cube variants
/// map to their base dimensionality.
pub open spec fn spec_ty_from_view_ty(view_type: ImageViewType) -> ImageType {
    match view_type {
        ImageViewType::Type1d | ImageViewType::Type1dArray => ImageType::Type1d,
        ImageViewType::Type2d | ImageViewType::Type2dArray | ImageViewType::Cube
        | ImageViewType::CubeArray => ImageType::Type2d,
        ImageViewType::Type3d => ImageType::Type3d,
    }
}

/// Infers the native image dimensionality from the requested view type.
pub fn ty_from_view_ty(view_type: ImageViewType) -> (r: ImageType)
    ensures
        r == spec_ty_from_view_ty(view_type),
{
    match view_type {
        ImageViewType::Type1d | ImageViewType::Type1dArray => ImageType::Type1d,
        ImageViewType::Type2d | ImageViewType::Type2dArray | ImageViewType::Cube
        | ImageViewType::CubeArray => ImageType::Type2d,
        ImageViewType::Type3d => ImageType::Type3d,
    }
}

/// What a plain 2D image creation needs.
#[derive(Debug, PartialEq)]
pub struct ImageDescriptor {
    pub width: u32,
    pub height: u32,
    pub name: String,
    pub format: u32,
    pub mip_levels: u32,
    pub usage: u32,
    /// The accesses the image is transitioned to on creation.
    pub next_accesses: Vec<AccessType>,
    pub next_layout: ImageLayout,
}

/// A GPU image: the native image object, the memory allocation that backs
/// it, and one view covering the full resource.  The type tracks no layout
/// state itself: the image's current layout is a caller-visible protocol,
/// established by the recorded barriers.
#[derive(Debug, PartialEq)]
pub struct Image {
    pub image: u64,
    pub allocation: Allocation,
    pub view: u64,
}

/// The aspect an image format selects: depth formats get the depth aspect,
/// everything else color.
pub open spec fn spec_aspect_for_format(format: u32) -> ImageAspect {
    if format == FORMAT_D32_SFLOAT {
        ImageAspect::Depth
    } else {
        ImageAspect::Color
    }
}

/// The subresource range covering every mip level of a single-layer image.
pub open spec fn spec_full_range(aspect: ImageAspect, mip_levels: u32) -> SubresourceRange {
    SubresourceRange { aspect, base_mip_level: 0, level_count: mip_levels, layer_count: 1 }
}

/// The model size of an image allocation: four bytes per texel of the base
/// level.
pub open spec fn spec_image_size(width: u32, height: u32, depth: u32) -> int {
    width * height * depth * 4
}

/// Whether creating an image of this extent must fail: its model size
/// overflows the address space, or the allocator cannot satisfy the request.
pub open spec fn spec_image_alloc_fails(
    cursor: u64,
    width: u32,
    height: u32,
    depth: u32,
    alignment: u64,
) -> bool {
    ||| spec_image_size(width, height, depth) > u64::MAX
    ||| spec_alloc_fails(cursor, spec_image_size(width, height, depth) as u64, alignment)
}

/// The model size of an image allocation, checked against the address space.
fn image_alloc_size(width: u32, height: u32, depth: u32) -> (r: Option<u64>)
    ensures
        r is Some <==> spec_image_size(width, height, depth) <= u64::MAX,
        r matches Some(size) ==> size == spec_image_size(width, height, depth),
{
    proof {
        assert((width as int) * (height as int) <= 0xFFFF_FFFF * 0xFFFF_FFFF) by (nonlinear_arith)
            requires
                width <= 0xFFFF_FFFF,
                height <= 0xFFFF_FFFF,
        ;
    }
    let wh = (width as u64) * (height as u64);
    match wh.checked_mul(depth as u64) {
        Some(whd) => whd.checked_mul(4),
        None => None,
    }
}

/// The barrier recorded on image creation: from "no prior access" to the
/// caller's requested accesses and layout, over every level, discarding the
/// undefined initial contents.
pub open spec fn is_init_barrier(
    command: Command,
    image: u64,
    mip_levels: u32,
    format: u32,
    next_accesses: Seq<AccessType>,
    next_layout: ImageLayout,
) -> bool {
    &&& command matches Command::PipelineBarrier(barriers)
    &&& barriers@.len() == 1
    &&& barriers@[0].image == image
    &&& barriers@[0].range == spec_full_range(spec_aspect_for_format(format), mip_levels)
    &&& barriers@[0].previous_accesses@ =~= seq![AccessType::Nothing]
    &&& barriers@[0].next_accesses@ =~= next_accesses
    &&& barriers@[0].next_layout == next_layout
    &&& barriers@[0].discard_contents
}

impl Image {
    /// Creates a 2D image, binds device-local memory to it, creates a view
    /// of the full resource, and transitions every mip level from "no prior
    /// access" to the requested accesses and layout, discarding the
    /// undefined initial contents.  Transfer-src usage is always added so
    /// the image can serve as a blit source later.  Fails exactly when the
    /// allocation cannot be satisfied; the native image object is created
    /// before the allocation is attempted and is not cleaned up on failure.
    pub fn new(descriptor: &ImageDescriptor, init_resources: &mut InitResources) -> (r: Result<
        Image,
        Error,
    >)
        requires
            old(init_resources).wf(),
            old(init_resources).device.next_handle + 2 <= u64::MAX,
            old(init_resources).allocator.next_id < u64::MAX,
            descriptor.mip_levels >= 1,
        ensures
            final(init_resources).wf(),
            final(init_resources).device.buffer_alignment == old(
                init_resources,
            ).device.buffer_alignment,
            final(init_resources).device.image_alignment == old(
                init_resources,
            ).device.image_alignment,
            final(init_resources).device.buffers@ =~= old(init_resources).device.buffers@,
            final(init_resources).device.destroyed@ =~= old(init_resources).device.destroyed@,
            final(init_resources).allocator.freed@ =~= old(init_resources).allocator.freed@,
            r is Err <==> spec_image_alloc_fails(
                old(init_resources).allocator.cursor,
                descriptor.width,
                descriptor.height,
                1,
                old(init_resources).device.image_alignment,
            ),
            final(init_resources).device.images@ =~= old(init_resources).device.images@.push(
                ImageRecord {
                    handle: old(init_resources).device.next_handle,
                    image_type: ImageType::Type2d,
                    extent: Extent3d {
                        width: descriptor.width,
                        height: descriptor.height,
                        depth: 1,
                    },
                    format: descriptor.format,
                    mip_levels: descriptor.mip_levels,
                    usage: IMAGE_USAGE_TRANSFER_SRC | descriptor.usage,
                },
            ),
            match r {
                Ok(img) => {
                    &&& img.allocation.wf()
                    &&& img.image == old(init_resources).device.next_handle
                    &&& img.view == old(init_resources).device.next_handle + 1
                    &&& final(init_resources).device.next_handle == old(
                        init_resources,
                    ).device.next_handle + 2
                    &&& final(init_resources).device.views@ =~= old(
                        init_resources,
                    ).device.views@.push(
                        ViewRecord {
                            handle: img.view,
                            image: img.image,
                            view_type: ImageViewType::Type2d,
                            range: spec_full_range(
                                spec_aspect_for_format(descriptor.format),
                                descriptor.mip_levels,
                            ),
                        },
                    )
                    &&& !img.allocation.host_visible
                    &&& img.allocation.id == old(init_resources).allocator.next_id
                    &&& img.allocation.size == spec_image_size(
                        descriptor.width,
                        descriptor.height,
                        1,
                    )
                    &&& img.allocation.offset % old(init_resources).device.image_alignment == 0
                    &&& final(init_resources).allocator.next_id == old(
                        init_resources,
                    ).allocator.next_id + 1
                    &&& final(init_resources).allocator.requests@ =~= old(
                        init_resources,
                    ).allocator.requests@.push(
                        AllocationRequest {
                            size: spec_image_size(descriptor.width, descriptor.height, 1) as u64,
                            alignment: old(init_resources).device.image_alignment,
                            location: MemoryLocation::GpuOnly,
                            linear: false,
                        },
                    )
                    &&& final(init_resources).commands.commands@.len() == old(
                        init_resources,
                    ).commands.commands@.len() + 1
                    &&& final(init_resources).commands.commands@.subrange(
                        0,
                        old(init_resources).commands.commands@.len() as int,
                    ) =~= old(init_resources).commands.commands@
                    &&& is_init_barrier(
                        final(init_resources).commands.commands@.last(),
                        img.image,
                        descriptor.mip_levels,
                        descriptor.format,
                        descriptor.next_accesses@,
                        descriptor.next_layout,
                    )
                    &&& forall|level: u32|
                        level < descriptor.mip_levels ==> final_level_state(
                            final(init_resources).commands.commands@,
                            img.image,
                            level,
                        ) == Some(state_of(descriptor.next_accesses@, descriptor.next_layout))
                },
                Err(e) => {
                    &&& e == Error::AllocationFailed
                    &&& final(init_resources).device.next_handle == old(
                        init_resources,
                    ).device.next_handle + 1
                    &&& final(init_resources).device.views@ =~= old(init_resources).device.views@
                    &&& final(init_resources).allocator == old(init_resources).allocator
                    &&& final(init_resources).commands == old(init_resources).commands
                },
            },
    {
        let extent = Extent3d {
            width: descriptor.width,
            height: descriptor.height,
            depth: 1,
        };
        let image = init_resources.device.create_image(
            ImageType::Type2d,
            extent,
            descriptor.format,
            descriptor.mip_levels,
            IMAGE_USAGE_TRANSFER_SRC | descriptor.usage,
        );
        let size = match image_alloc_size(descriptor.width, descriptor.height, 1) {
            Some(size) => size,
            None => {
                return Err(Error::AllocationFailed);
            },
        };
        let requirements = init_resources.device.image_memory_requirements(size);
        let allocation = match init_resources.allocator.allocate(
            &requirements,
            MemoryLocation::GpuOnly,
            false,
        ) {
            Ok(allocation) => allocation,
            Err(e) => {
                return Err(e);
            },
        };

        let aspect = if descriptor.format == FORMAT_D32_SFLOAT {
            ImageAspect::Depth
        } else {
            ImageAspect::Color
        };
        let range = SubresourceRange {
            aspect,
            base_mip_level: 0,
            level_count: descriptor.mip_levels,
            layer_count: 1,
        };

        let init_barrier = ImageBarrier {
            previous_accesses: single_nothing(),
            next_accesses: copy_accesses(&descriptor.next_accesses),
            previous_layout: ImageLayout::Optimal,
            next_layout: descriptor.next_layout,
            discard_contents: true,
            image,
            range,
        };
        let ghost b = init_barrier;
        let mut batch: Vec<ImageBarrier> = Vec::new();
        batch.push(init_barrier);
        proof {
            assert(batch@ =~= seq![b]);
        }
        let ghost before = init_resources.commands.commands@;
        let ghost barrier_cmd = Command::PipelineBarrier(batch);
        pipeline_barrier(&mut init_resources.commands, batch);
        proof {
            assert(init_resources.commands.commands@ =~= before.push(barrier_cmd));
            assert forall|level: u32| level < descriptor.mip_levels implies final_level_state(
                init_resources.commands.commands@,
                image,
                level,
            ) == Some(state_of(descriptor.next_accesses@, descriptor.next_layout)) by {
                lemma_final_state_push(before, barrier_cmd, image, level);
                lemma_single_sets_level(b, image, level);
                assert(range_contains(b.range, level));
                assert(b.next_accesses@ == descriptor.next_accesses@);
            }
        }

        let view = init_resources.device.create_image_view(image, ImageViewType::Type2d, range);

        Ok(Image { image, allocation, view })
    }

    /// Destroys the view and the native image object and frees the
    /// allocation.  The image value must not be used afterwards.
    pub fn cleanup(&self, device: &mut Device, allocator: &mut Allocator) -> (r: Result<
        (),
        Error,
    >)
        ensures
            r is Ok,
            final(device).destroyed@ =~= old(device).destroyed@.push(self.view).push(self.image),
            final(device).next_handle == old(device).next_handle,
            final(device).buffer_alignment == old(device).buffer_alignment,
            final(device).image_alignment == old(device).image_alignment,
            final(device).buffers@ =~= old(device).buffers@,
            final(device).images@ =~= old(device).images@,
            final(device).views@ =~= old(device).views@,
            final(allocator).freed@ =~= old(allocator).freed@.push(self.allocation.id),
            final(allocator).cursor == old(allocator).cursor,
            final(allocator).next_id == old(allocator).next_id,
            final(allocator).requests@ =~= old(allocator).requests@,
    {
        device.destroy(self.view);
        device.destroy(self.image);
        match allocator.free(&self.allocation) {
            Ok(()) => Ok(()),
            Err(e) => Err(e),
        }
    }
}

/// What loading an image from bytes needs.
#[derive(Debug, PartialEq)]
pub struct LoadImageDescriptor {
    pub bytes: Vec<u8>,
    pub extent: Extent3d,
    pub view_ty: ImageViewType,
    pub format: u32,
    pub name: String,
    /// The accesses the whole image is left in once every level is filled.
    pub next_accesses: Vec<AccessType>,
    pub next_layout: ImageLayout,
    pub mip_levels: u32,
}

/// The usage an image loaded from bytes is created with: sampled and
/// transfer-dst always, and transfer-src when a mip chain will be blitted
/// from it.
pub open spec fn spec_load_usage(mip_levels: u32) -> u32 {
    if mip_levels > 1 {
        IMAGE_USAGE_SAMPLED | IMAGE_USAGE_TRANSFER_DST | IMAGE_USAGE_TRANSFER_SRC
    } else {
        IMAGE_USAGE_SAMPLED | IMAGE_USAGE_TRANSFER_DST
    }
}

/// The first barrier of the upload: the whole resource moves from "no prior
/// dependency" to transfer-write, discarding the undefined initial contents.
pub open spec fn is_upload_barrier(command: Command, image: u64, mip_levels: u32) -> bool {
    &&& command matches Command::PipelineBarrier(barriers)
    &&& barriers@.len() == 1
    &&& barriers@[0].image == image
    &&& barriers@[0].range == spec_full_range(ImageAspect::Color, mip_levels)
    &&& barriers@[0].previous_accesses@ =~= Seq::<AccessType>::empty()
    &&& barriers@[0].next_accesses@ =~= seq![AccessType::TransferWrite]
    &&& barriers@[0].next_layout == ImageLayout::Optimal
    &&& barriers@[0].discard_contents
}

/// The barrier that turns the freshly copied base level into a blit source.
pub open spec fn is_base_to_src_barrier(command: Command, image: u64) -> bool {
    &&& command matches Command::PipelineBarrier(barriers)
    &&& barriers@.len() == 1
    &&& barriers@[0].image == image
    &&& barriers@[0].range == spec_mip_level_range(0)
    &&& barriers@[0].previous_accesses@ =~= seq![AccessType::TransferWrite]
    &&& barriers@[0].next_accesses@ =~= seq![AccessType::TransferRead]
    &&& barriers@[0].next_layout == ImageLayout::Optimal
    &&& !barriers@[0].discard_contents
}

/// The single-level path's closing barrier: the whole resource moves from
/// transfer-write directly to the caller's requested final state.
pub open spec fn is_finalize_barrier(
    command: Command,
    image: u64,
    mip_levels: u32,
    next_accesses: Seq<AccessType>,
    next_layout: ImageLayout,
) -> bool {
    &&& command matches Command::PipelineBarrier(barriers)
    &&& barriers@.len() == 1
    &&& barriers@[0].image == image
    &&& barriers@[0].range == spec_full_range(ImageAspect::Color, mip_levels)
    &&& barriers@[0].previous_accesses@ =~= seq![AccessType::TransferWrite]
    &&& barriers@[0].next_accesses@ =~= next_accesses
    &&& barriers@[0].next_layout == next_layout
    &&& !barriers@[0].discard_contents
}

/// Whether loading an image from `len` bytes must fail: the staging
/// allocation cannot be satisfied, or the image allocation (requested after
/// the staging bytes moved the cursor) cannot be.
pub open spec fn spec_load_fails(
    init: InitResources,
    len: u64,
    width: u32,
    height: u32,
    depth: u32,
) -> bool {
    let cursor1 = spec_align_up(
        init.allocator.cursor as int,
        init.device.buffer_alignment as int,
    ) + len;
    ||| spec_alloc_fails(init.allocator.cursor, len, init.device.buffer_alignment)
    ||| spec_image_alloc_fails(cursor1 as u64, width, height, depth, init.device.image_alignment)
}

/// Creates an image and fills it from `descriptor.bytes`: the bytes are
/// staged through an ephemeral host-visible buffer, copied into mip level
/// zero, and the remaining levels (if any) are blitted down the chain; every
/// level ends in the caller's requested accesses and layout.  The staging
/// buffer is returned to the caller rather than freed here: its lifetime
/// must outlive the recorded copy, which only the caller sees completed.
pub fn load_image_from_bytes(
    descriptor: &LoadImageDescriptor,
    init_resources: &mut InitResources,
) -> (r: Result<(Image, Buffer), Error>)
    requires
        old(init_resources).wf(),
        old(init_resources).device.next_handle + 3 <= u64::MAX,
        old(init_resources).allocator.next_id + 2 <= u64::MAX,
        descriptor.mip_levels >= 1,
        descriptor.extent.width >= 1,
        descriptor.extent.height >= 1,
    ensures
        final(init_resources).wf(),
        final(init_resources).device.buffer_alignment == old(
            init_resources,
        ).device.buffer_alignment,
        final(init_resources).device.image_alignment == old(init_resources).device.image_alignment,
        final(init_resources).device.destroyed@ =~= old(init_resources).device.destroyed@,
        final(init_resources).allocator.freed@ =~= old(init_resources).allocator.freed@,
        final(init_resources).device.buffers@ =~= old(init_resources).device.buffers@.push(
            BufferRecord {
                handle: old(init_resources).device.next_handle,
                size: descriptor.bytes@.len() as u64,
                usage: BUFFER_USAGE_TRANSFER_SRC,
            },
        ),
        r is Err <==> spec_load_fails(
            *old(init_resources),
            descriptor.bytes@.len() as u64,
            descriptor.extent.width,
            descriptor.extent.height,
            descriptor.extent.depth,
        ),
        match r {
            Ok((img, staging)) => {
                &&& staging.allocation.wf()
                &&& img.allocation.wf()
                &&& staging.buffer == old(init_resources).device.next_handle
                &&& staging.allocation.host_visible
                &&& staging.allocation.mapped@ =~= descriptor.bytes@
                &&& img.image == old(init_resources).device.next_handle + 1
                &&& img.view == old(init_resources).device.next_handle + 2
                &&& !img.allocation.host_visible
                &&& final(init_resources).device.next_handle == old(
                    init_resources,
                ).device.next_handle + 3
                &&& final(init_resources).device.images@ =~= old(
                    init_resources,
                ).device.images@.push(
                    ImageRecord {
                        handle: img.image,
                        image_type: spec_ty_from_view_ty(descriptor.view_ty),
                        extent: descriptor.extent,
                        format: descriptor.format,
                        mip_levels: descriptor.mip_levels,
                        usage: spec_load_usage(descriptor.mip_levels),
                    },
                )
                &&& final(init_resources).device.views@ =~= old(init_resources).device.views@.push(
                    ViewRecord {
                        handle: img.view,
                        image: img.image,
                        view_type: descriptor.view_ty,
                        range: spec_full_range(ImageAspect::Color, descriptor.mip_levels),
                    },
                )
                &&& final(init_resources).commands.commands@.len() == old(
                    init_resources,
                ).commands.commands@.len() + (if descriptor.mip_levels == 1 {
                    3int
                } else {
                    3 + 2 * (descriptor.mip_levels - 1)
                })
                &&& final(init_resources).commands.commands@.subrange(
                    0,
                    old(init_resources).commands.commands@.len() as int,
                ) =~= old(init_resources).commands.commands@
                &&& is_upload_barrier(
                    final(init_resources).commands.commands@[old(
                        init_resources,
                    ).commands.commands@.len() as int],
                    img.image,
                    descriptor.mip_levels,
                )
                &&& final(init_resources).commands.commands@[old(
                    init_resources,
                ).commands.commands@.len() + 1int] == (Command::CopyBufferToImage {
                    buffer: staging.buffer,
                    image: img.image,
                    mip_level: 0,
                    extent: descriptor.extent,
                })
                &&& descriptor.mip_levels == 1 ==> is_finalize_barrier(
                    final(init_resources).commands.commands@[old(
                        init_resources,
                    ).commands.commands@.len() + 2int],
                    img.image,
                    descriptor.mip_levels,
                    descriptor.next_accesses@,
                    descriptor.next_layout,
                )
                &&& descriptor.mip_levels >= 2 ==> is_base_to_src_barrier(
                    final(init_resources).commands.commands@[old(
                        init_resources,
                    ).commands.commands@.len() + 2int],
                    img.image,
                )
                &&& descriptor.mip_levels >= 2 ==> forall|i: u32|
                    i < descriptor.mip_levels - 1 ==> #[trigger] mip_blit_at(
                        final(init_resources).commands.commands@,
                        old(init_resources).commands.commands@.len() + 3int,
                        img.image,
                        descriptor.extent.width,
                        descriptor.extent.height,
                        i,
                    )
                &&& descriptor.mip_levels >= 2 ==> forall|i: u32|
                    i < descriptor.mip_levels - 1 ==> #[trigger] mip_barrier_at(
                        final(init_resources).commands.commands@,
                        old(init_resources).commands.commands@.len() + 3int,
                        img.image,
                        i,
                        descriptor.mip_levels,
                        descriptor.next_accesses@,
                        descriptor.next_layout,
                    )
                &&& forall|level: u32|
                    level < descriptor.mip_levels ==> final_level_state(
                        final(init_resources).commands.commands@,
                        img.image,
                        level,
                    ) == Some(state_of(descriptor.next_accesses@, descriptor.next_layout))
            },
            Err(e) => {
                &&& e == Error::AllocationFailed
                &&& final(init_resources).commands == old(init_resources).commands
                &&& final(init_resources).device.views@ =~= old(init_resources).device.views@
            },
        },
{
    let staging_buffer = match Buffer::new(
        descriptor.bytes.as_slice(),
        descriptor.name.as_str(),
        BUFFER_USAGE_TRANSFER_SRC,
        init_resources,
    ) {
        Ok(b) => b,
        Err(e) => {
            return Err(e);
        },
    };

    let usage = if descriptor.mip_levels > 1 {
        IMAGE_USAGE_SAMPLED | IMAGE_USAGE_TRANSFER_DST | IMAGE_USAGE_TRANSFER_SRC
    } else {
        IMAGE_USAGE_SAMPLED | IMAGE_USAGE_TRANSFER_DST
    };

    let image_ty = ty_from_view_ty(descriptor.view_ty);
    let image = init_resources.device.create_image(
        image_ty,
        descriptor.extent,
        descriptor.format,
        descriptor.mip_levels,
        usage,
    );
    let size = match image_alloc_size(
        descriptor.extent.width,
        descriptor.extent.height,
        descriptor.extent.depth,
    ) {
        Some(size) => size,
        None => {
            return Err(Error::AllocationFailed);
        },
    };
    let requirements = init_resources.device.image_memory_requirements(size);
    let allocation = match init_resources.allocator.allocate(
        &requirements,
        MemoryLocation::GpuOnly,
        false,
    ) {
        Ok(allocation) => allocation,
        Err(e) => {
            return Err(e);
        },
    };

    let full_range = SubresourceRange {
        aspect: ImageAspect::Color,
        base_mip_level: 0,
        level_count: descriptor.mip_levels,
        layer_count: 1,
    };
    let view = init_resources.device.create_image_view(image, descriptor.view_ty, full_range);

    let upload_barrier = ImageBarrier {
        previous_accesses: Vec::new(),
        next_accesses: single_transfer_write(),
        previous_layout: ImageLayout::Optimal,
        next_layout: ImageLayout::Optimal,
        discard_contents: true,
        image,
        range: full_range,
    };
    let ghost b_upload = upload_barrier;
    let mut batch: Vec<ImageBarrier> = Vec::new();
    batch.push(upload_barrier);
    proof {
        assert(batch@ =~= seq![b_upload]);
    }
    let ghost before_upload = init_resources.commands.commands@;
    let ghost upload_cmd = Command::PipelineBarrier(batch);
    pipeline_barrier(&mut init_resources.commands, batch);
    proof {
        assert(init_resources.commands.commands@ =~= before_upload.push(upload_cmd));
        assert(is_upload_barrier(upload_cmd, image, descriptor.mip_levels));
    }

    let copy_cmd = Command::CopyBufferToImage {
        buffer: staging_buffer.buffer,
        image,
        mip_level: 0,
        extent: descriptor.extent,
    };
    let ghost gcopy = copy_cmd;
    let ghost before_copy = init_resources.commands.commands@;
    init_resources.commands.commands.push(copy_cmd);
    proof {
        assert(init_resources.commands.commands@ =~= before_copy.push(gcopy));
    }

    if descriptor.mip_levels > 1 {
        let base_range = SubresourceRange {
            aspect: ImageAspect::Color,
            base_mip_level: 0,
            level_count: 1,
            layer_count: 1,
        };
        let base_barrier = ImageBarrier {
            previous_accesses: single_transfer_write(),
            next_accesses: single_transfer_read(),
            previous_layout: ImageLayout::Optimal,
            next_layout: ImageLayout::Optimal,
            discard_contents: false,
            image,
            range: base_range,
        };
        let ghost b_base = base_barrier;
        let mut base_batch: Vec<ImageBarrier> = Vec::new();
        base_batch.push(base_barrier);
        proof {
            assert(base_batch@ =~= seq![b_base]);
        }
        let ghost before_base = init_resources.commands.commands@;
        let ghost base_cmd = Command::PipelineBarrier(base_batch);
        pipeline_barrier(&mut init_resources.commands, base_batch);
        proof {
            assert(init_resources.commands.commands@ =~= before_base.push(base_cmd));
            assert(is_base_to_src_barrier(base_cmd, image));
        }

        let ghost before_mips = init_resources.commands.commands@;
        generate_mips(
            &mut init_resources.commands,
            image,
            descriptor.extent.width,
            descriptor.extent.height,
            descriptor.mip_levels,
            &descriptor.next_accesses,
            descriptor.next_layout,
        );
        proof {
            let cmds = init_resources.commands.commands@;
            let old_len = old(init_resources).commands.commands@.len() as int;
            assert(before_mips.len() == old_len + 3);
            assert forall|j: int| 0 <= j < old_len + 3 implies cmds[j] == before_mips[j] by {
                assert(cmds.subrange(0, old_len + 3)[j] == cmds[j]);
            }
            assert(cmds[old_len] == upload_cmd);
            assert(cmds[old_len + 1] == gcopy);
            assert(cmds[old_len + 2] == base_cmd);
            assert(cmds.subrange(0, old_len) =~= old(init_resources).commands.commands@);
        }
    } else {
        let finalize_barrier = ImageBarrier {
            previous_accesses: single_transfer_write(),
            next_accesses: copy_accesses(&descriptor.next_accesses),
            previous_layout: ImageLayout::Optimal,
            next_layout: descriptor.next_layout,
            discard_contents: false,
            image,
            range: full_range,
        };
        let ghost b_final = finalize_barrier;
        let mut final_batch: Vec<ImageBarrier> = Vec::new();
        final_batch.push(finalize_barrier);
        proof {
            assert(final_batch@ =~= seq![b_final]);
        }
        let ghost before_final = init_resources.commands.commands@;
        let ghost final_cmd = Command::PipelineBarrier(final_batch);
        pipeline_barrier(&mut init_resources.commands, final_batch);
        proof {
            assert(init_resources.commands.commands@ =~= before_final.push(final_cmd));
            assert(is_finalize_barrier(
                final_cmd,
                image,
                descriptor.mip_levels,
                descriptor.next_accesses@,
                descriptor.next_layout,
            ));
            assert forall|level: u32| level < descriptor.mip_levels implies final_level_state(
                init_resources.commands.commands@,
                image,
                level,
            ) == Some(state_of(descriptor.next_accesses@, descriptor.next_layout)) by {
                lemma_final_state_push(before_final, final_cmd, image, level);
                lemma_single_sets_level(b_final, image, level);
                assert(range_contains(b_final.range, level));
                assert(b_final.next_accesses@ == descriptor.next_accesses@);
            }
            let cmds = init_resources.commands.commands@;
            let old_len = old(init_resources).commands.commands@.len() as int;
            assert(cmds[old_len] == upload_cmd);
            assert(cmds[old_len + 1] == gcopy);
            assert(cmds[old_len + 2] == final_cmd);
            assert(cmds.subrange(0, old_len) =~= old(init_resources).commands.commands@);
        }
    }

    Ok((Image { image, allocation, view }, staging_buffer))
}

/// A vector holding the single transfer-write access.
fn single_transfer_write() -> (r: Vec<AccessType>)
    ensures
        r@ =~= seq![AccessType::TransferWrite],
{
    let mut v: Vec<AccessType> = Vec::new();
    v.push(AccessType::TransferWrite);
    v
}

/// A vector holding the single transfer-read access.
fn single_transfer_read() -> (r: Vec<AccessType>)
    ensures
        r@ =~= seq![AccessType::TransferRead],
{
    let mut v: Vec<AccessType> = Vec::new();
    v.push(AccessType::TransferRead);
    v
}

/// A vector holding the single "no prior access" marker.
fn single_nothing() -> (r: Vec<AccessType>)
    ensures
        r@ =~= seq![AccessType::Nothing],
{
    let mut v: Vec<AccessType> = Vec::new();
    v.push(AccessType::Nothing);
    v
}

} // verus!
