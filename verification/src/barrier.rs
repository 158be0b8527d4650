use vstd::prelude::*;

use crate::access::{
    access_info, is_write, is_write_access, get_access_info, layout_for, AccessType, ImageLayout,
    NativeLayout, STAGE_TOP_OF_PIPE, STAGE_BOTTOM_OF_PIPE,
};

verus! {

/// Which aspect of an image a subresource range covers.
#[derive(Clone, Copy, Debug, PartialEq, Eq, Structural)]
pub enum ImageAspect {
    Color,
    Depth,
}

/// The mip levels and array layers a barrier or copy operation is scoped to.
#[derive(Clone, Copy, Debug, PartialEq, Eq, Structural)]
pub struct SubresourceRange {
    pub aspect: ImageAspect,
    pub base_mip_level: u32,
    pub level_count: u32,
    pub layer_count: u32,
}

/// Whether a mip level lies inside a subresource range.
pub open spec fn range_contains(range: SubresourceRange, level: u32) -> bool {
    range.base_mip_level <= level && (level as int) < range.base_mip_level + range.level_count
}

/// One image subresource transition: from the set of previous accesses (empty
/// means "no prior dependency") to the set of next accesses, ending in
/// `next_layout`.  The scheduler never infers the previous state: callers are
/// responsible for supplying the accesses that actually came before, and
/// omitting one asserts "no dependency", which is unsound if false.
#[derive(Clone, Debug, PartialEq)]
pub struct ImageBarrier {
    pub previous_accesses: Vec<AccessType>,
    pub next_accesses: Vec<AccessType>,
    pub previous_layout: ImageLayout,
    pub next_layout: ImageLayout,
    /// When set, the contents of the range are not preserved across the
    /// transition; the previous layout is treated as undefined.
    pub discard_contents: bool,
    pub image: u64,
    pub range: SubresourceRange,
}

/// A barrier resolved to the primitive fields the underlying API consumes.
#[derive(Clone, Copy, Debug, PartialEq, Eq, Structural)]
pub struct ResolvedImageBarrier {
    pub src_stage_mask: u32,
    pub dst_stage_mask: u32,
    pub src_access_mask: u32,
    pub dst_access_mask: u32,
    pub old_layout: NativeLayout,
    pub new_layout: NativeLayout,
    pub image: u64,
    pub range: SubresourceRange,
}

/// Union of the stage masks of a sequence of accesses.
pub open spec fn stages_of(accesses: Seq<AccessType>) -> u32
    decreases accesses.len(),
{
    if accesses.len() == 0 {
        0u32
    } else {
        stages_of(accesses.drop_last()) | access_info(accesses.last()).stage_mask
    }
}

/// Union of the access masks of the write accesses in a sequence.  Reads
/// contribute nothing: only writes need to be made available.
pub open spec fn write_access_mask_of(accesses: Seq<AccessType>) -> u32
    decreases accesses.len(),
{
    if accesses.len() == 0 {
        0u32
    } else if is_write(accesses.last()) {
        write_access_mask_of(accesses.drop_last()) | access_info(accesses.last()).access_mask
    } else {
        write_access_mask_of(accesses.drop_last())
    }
}

/// Union of the access masks of all accesses in a sequence.
pub open spec fn access_mask_of(accesses: Seq<AccessType>) -> u32
    decreases accesses.len(),
{
    if accesses.len() == 0 {
        0u32
    } else {
        access_mask_of(accesses.drop_last()) | access_info(accesses.last()).access_mask
    }
}

/// The layout the barrier leaves behind, under a layout policy: each access
/// in turn settles the layout, so the last access decides; an empty access
/// set leaves the layout undefined.
pub open spec fn settled_layout(policy: ImageLayout, accesses: Seq<AccessType>) -> NativeLayout {
    if accesses.len() == 0 {
        NativeLayout::Undefined
    } else {
        layout_for(policy, accesses.last())
    }
}

/// The resolution of a declarative image barrier: stage masks default to the
/// top/bottom of the pipe when no access names a stage, the source access
/// mask makes previous writes available, the destination access mask makes
/// them visible to every next access, and a content-discarding transition
/// starts from the undefined layout.
pub open spec fn resolved(barrier: ImageBarrier) -> ResolvedImageBarrier {
    let src_stages = stages_of(barrier.previous_accesses@);
    let dst_stages = stages_of(barrier.next_accesses@);
    ResolvedImageBarrier {
        src_stage_mask: if src_stages == 0 {
            STAGE_TOP_OF_PIPE
        } else {
            src_stages
        },
        dst_stage_mask: if dst_stages == 0 {
            STAGE_BOTTOM_OF_PIPE
        } else {
            dst_stages
        },
        src_access_mask: write_access_mask_of(barrier.previous_accesses@),
        dst_access_mask: access_mask_of(barrier.next_accesses@),
        old_layout: if barrier.discard_contents {
            NativeLayout::Undefined
        } else {
            settled_layout(barrier.previous_layout, barrier.previous_accesses@)
        },
        new_layout: settled_layout(barrier.next_layout, barrier.next_accesses@),
        image: barrier.image,
        range: barrier.range,
    }
}

/// Resolves a declarative image barrier into the primitive stage masks,
/// access masks and layouts that a replay hands to the underlying API.
pub fn resolve_image_barrier(barrier: &ImageBarrier) -> (r: ResolvedImageBarrier)
    ensures
        r == resolved(*barrier),
{
    let mut src_stages: u32 = 0;
    let mut src_access: u32 = 0;
    let mut old_layout = NativeLayout::Undefined;
    let mut i: usize = 0;
    while i < barrier.previous_accesses.len()
        invariant
            i <= barrier.previous_accesses@.len(),
            src_stages == stages_of(barrier.previous_accesses@.take(i as int)),
            src_access == write_access_mask_of(barrier.previous_accesses@.take(i as int)),
            old_layout == settled_layout(
                barrier.previous_layout,
                barrier.previous_accesses@.take(i as int),
            ),
        decreases barrier.previous_accesses@.len() - i,
    {
        let access = barrier.previous_accesses[i];
        let info = get_access_info(access);
        proof {
            assert(barrier.previous_accesses@.take(i + 1 as int).drop_last() =~= barrier
                .previous_accesses@.take(i as int));
            assert(barrier.previous_accesses@.take(i + 1 as int).last() == access);
        }
        src_stages = src_stages | info.stage_mask;
        if is_write_access(access) {
            src_access = src_access | info.access_mask;
        }
        old_layout = match barrier.previous_layout {
            ImageLayout::General => {
                if access == AccessType::Present {
                    NativeLayout::PresentSrc
                } else {
                    NativeLayout::General
                }
            },
            ImageLayout::Optimal => info.image_layout,
        };
        i = i + 1;
    }
    proof {
        assert(barrier.previous_accesses@.take(barrier.previous_accesses@.len() as int) =~= barrier
            .previous_accesses@);
    }

    let mut dst_stages: u32 = 0;
    let mut dst_access: u32 = 0;
    let mut new_layout = NativeLayout::Undefined;
    let mut j: usize = 0;
    while j < barrier.next_accesses.len()
        invariant
            j <= barrier.next_accesses@.len(),
            dst_stages == stages_of(barrier.next_accesses@.take(j as int)),
            dst_access == access_mask_of(barrier.next_accesses@.take(j as int)),
            new_layout == settled_layout(barrier.next_layout, barrier.next_accesses@.take(j as int)),
        decreases barrier.next_accesses@.len() - j,
    {
        let access = barrier.next_accesses[j];
        let info = get_access_info(access);
        proof {
            assert(barrier.next_accesses@.take(j + 1 as int).drop_last() =~= barrier
                .next_accesses@.take(j as int));
            assert(barrier.next_accesses@.take(j + 1 as int).last() == access);
        }
        dst_stages = dst_stages | info.stage_mask;
        dst_access = dst_access | info.access_mask;
        new_layout = match barrier.next_layout {
            ImageLayout::General => {
                if access == AccessType::Present {
                    NativeLayout::PresentSrc
                } else {
                    NativeLayout::General
                }
            },
            ImageLayout::Optimal => info.image_layout,
        };
        j = j + 1;
    }
    proof {
        assert(barrier.next_accesses@.take(barrier.next_accesses@.len() as int) =~= barrier
            .next_accesses@);
    }

    ResolvedImageBarrier {
        src_stage_mask: if src_stages == 0 {
            STAGE_TOP_OF_PIPE
        } else {
            src_stages
        },
        dst_stage_mask: if dst_stages == 0 {
            STAGE_BOTTOM_OF_PIPE
        } else {
            dst_stages
        },
        src_access_mask: src_access,
        dst_access_mask: dst_access,
        old_layout: if barrier.discard_contents {
            NativeLayout::Undefined
        } else {
            old_layout
        },
        new_layout,
        image: barrier.image,
        range: barrier.range,
    }
}

} // verus!
