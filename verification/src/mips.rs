use vstd::prelude::*;

use vstd::arithmetic::power2::pow2;

use crate::access::{AccessType, ImageLayout};
use crate::barrier::{range_contains, ImageAspect, ImageBarrier, SubresourceRange};
use crate::command::{
    barrier_sets_level, cmd_sets_level, final_level_state, lemma_final_state_push,
    pipeline_barrier, Command, CommandStream, LevelState,
};

verus! {

/// The extent of mip level `level` of an image whose base level has extent
/// `base`: the base halved `level` times, each halving floored and clamped
/// to a minimum of one texel.
pub open spec fn mip_dim(base: nat, level: nat) -> nat {
    let d = base / pow2(level);
    if d >= 1 {
        d
    } else {
        1
    }
}

/// One standard halving step of the mip chain equals one more level of
/// [`mip_dim`]: `max(1, mip_dim(base, level) / 2) == mip_dim(base, level+1)`.
pub proof fn lemma_mip_dim_step(base: nat, level: nat)
    ensures
        mip_dim(base, level + 1) == ({
            let h = mip_dim(base, level) / 2;
            if h >= 1 {
                h
            } else {
                1nat
            }
        }),
{
    vstd::arithmetic::power2::lemma_pow2_pos(level);
    vstd::arithmetic::power2::lemma_pow2_adds(level, 1);
    vstd::arithmetic::power2::lemma2_to64();
    vstd::arithmetic::div_mod::lemma_div_denominator(base as int, pow2(level) as int, 2);
}

/// The mip chain is the shifted-down base extent, clamped to one texel:
/// `mip_dim(base, level) == max(1, base >> level)`.
pub proof fn lemma_mip_dim_is_shr(base: u32, level: u32)
    requires
        level < 32,
    ensures
        mip_dim(base as nat, level as nat) == ({
            let shifted = base >> level;
            if shifted >= 1 {
                shifted as nat
            } else {
                1nat
            }
        }),
{
    vstd::bits::lemma_u32_shr_is_div(base, level);
}

/// The base level keeps its own extent: `mip_dim(base, 0) == max(1, base)`.
pub proof fn lemma_mip_dim_base(base: nat)
    ensures
        base >= 1 ==> mip_dim(base, 0) == base,
        base == 0 ==> mip_dim(base, 0) == 1,
{
    vstd::arithmetic::power2::lemma2_to64();
}

/// The subresource range covering exactly one color mip level.
pub open spec fn spec_mip_level_range(level: u32) -> SubresourceRange {
    SubresourceRange {
        aspect: ImageAspect::Color,
        base_mip_level: level,
        level_count: 1,
        layer_count: 1,
    }
}

/// The access state of a finished level: the caller's requested accesses and
/// layout.
pub open spec fn state_of(accesses: Seq<AccessType>, layout: ImageLayout) -> LevelState {
    LevelState { accesses, layout }
}

/// The transient state of a level that is about to serve as a blit source.
pub open spec fn transfer_read_state() -> LevelState {
    LevelState { accesses: seq![AccessType::TransferRead], layout: ImageLayout::Optimal }
}

/// Whether a command is the blit filling level `i + 1` from level `i` of the
/// mip chain of an image with base extent `width × height`.
pub open spec fn is_mip_blit(command: Command, image: u64, width: u32, height: u32, i: u32) -> bool {
    &&& command matches Command::BlitImage {
        image: img,
        src_level,
        dst_level,
        src_width,
        src_height,
        dst_width,
        dst_height,
    }
    &&& img == image
    &&& src_level == i
    &&& dst_level == i + 1
    &&& src_width == mip_dim(width as nat, i as nat)
    &&& src_height == mip_dim(height as nat, i as nat)
    &&& dst_width == mip_dim(width as nat, (i + 1) as nat)
    &&& dst_height == mip_dim(height as nat, (i + 1) as nat)
}

/// Whether a command is the barrier batch that follows the blit into level
/// `i + 1`: level `i` moves from transfer-read to the caller's final state,
/// and level `i + 1` moves from transfer-write to transfer-read — or
/// directly to the final state when it is the last level.
pub open spec fn is_mip_barrier(
    command: Command,
    image: u64,
    i: u32,
    mip_levels: u32,
    next_accesses: Seq<AccessType>,
    next_layout: ImageLayout,
) -> bool {
    &&& command matches Command::PipelineBarrier(barriers)
    &&& barriers@.len() == 2
    &&& barriers@[0].image == image
    &&& barriers@[0].range == spec_mip_level_range(i)
    &&& barriers@[0].previous_accesses@ =~= seq![AccessType::TransferRead]
    &&& barriers@[0].next_accesses@ =~= next_accesses
    &&& barriers@[0].previous_layout == ImageLayout::Optimal
    &&& barriers@[0].next_layout == next_layout
    &&& !barriers@[0].discard_contents
    &&& barriers@[1].image == image
    &&& barriers@[1].range == spec_mip_level_range((i + 1) as u32)
    &&& barriers@[1].previous_accesses@ =~= seq![AccessType::TransferWrite]
    &&& barriers@[1].next_accesses@ =~= (if i + 1 == mip_levels - 1 {
        next_accesses
    } else {
        seq![AccessType::TransferRead]
    })
    &&& barriers@[1].previous_layout == ImageLayout::Optimal
    &&& barriers@[1].next_layout == (if i + 1 == mip_levels - 1 {
        next_layout
    } else {
        ImageLayout::Optimal
    })
    &&& !barriers@[1].discard_contents
}

/// Whether the command at `base + 2 * i` of a command sequence is the mip
/// blit of step `i` (see [`is_mip_blit`]).
pub open spec fn mip_blit_at(
    commands: Seq<Command>,
    base: int,
    image: u64,
    width: u32,
    height: u32,
    i: u32,
) -> bool {
    is_mip_blit(commands[base + 2 * i], image, width, height, i)
}

/// Whether the command at `base + 2 * i + 1` of a command sequence is the
/// barrier batch of mip step `i` (see [`is_mip_barrier`]).
pub open spec fn mip_barrier_at(
    commands: Seq<Command>,
    base: int,
    image: u64,
    i: u32,
    mip_levels: u32,
    next_accesses: Seq<AccessType>,
    next_layout: ImageLayout,
) -> bool {
    is_mip_barrier(commands[base + 2 * i + 1], image, i, mip_levels, next_accesses, next_layout)
}

/// The state a batch of exactly two barriers assigns to a level: the later
/// barrier of the batch wins where both cover the level.
proof fn lemma_pair_sets_level(b0: ImageBarrier, b1: ImageBarrier, image: u64, level: u32)
    ensures
        barrier_sets_level(seq![b0, b1], image, level) == (if b1.image == image && range_contains(
            b1.range,
            level,
        ) {
            Some(LevelState { accesses: b1.next_accesses@, layout: b1.next_layout })
        } else if b0.image == image && range_contains(b0.range, level) {
            Some(LevelState { accesses: b0.next_accesses@, layout: b0.next_layout })
        } else {
            None
        }),
{
    let s = seq![b0, b1];
    assert(s.last() == b1);
    assert(s.drop_last() =~= seq![b0]);
    assert(seq![b0].last() == b0);
    assert(seq![b0].drop_last() =~= Seq::<ImageBarrier>::empty());
    assert(barrier_sets_level(Seq::<ImageBarrier>::empty(), image, level) is None);
    assert(barrier_sets_level(seq![b0], image, level) == (if b0.image == image && range_contains(
        b0.range,
        level,
    ) {
        Some(LevelState { accesses: b0.next_accesses@, layout: b0.next_layout })
    } else {
        None
    }));
}

/// A vector holding one access type.
fn single_access(access: AccessType) -> (r: Vec<AccessType>)
    ensures
        r@ =~= seq![access],
{
    let mut v: Vec<AccessType> = Vec::new();
    v.push(access);
    v
}

/// Copies an access set into an owned vector.
pub fn copy_accesses(accesses: &Vec<AccessType>) -> (r: Vec<AccessType>)
    ensures
        r@ =~= accesses@,
{
    let mut v: Vec<AccessType> = Vec::new();
    let mut i: usize = 0;
    while i < accesses.len()
        invariant
            i <= accesses@.len(),
            v@ =~= accesses@.take(i as int),
        decreases accesses@.len() - i,
    {
        v.push(accesses[i]);
        proof {
            assert(accesses@.take(i + 1 as int) =~= accesses@.take(i as int).push(accesses@[i as int]));
        }
        i = i + 1;
    }
    proof {
        assert(accesses@.take(accesses@.len() as int) =~= accesses@);
    }
    v
}

/// The subresource range covering exactly one color mip level.
pub fn mip_level_range(level: u32) -> (r: SubresourceRange)
    ensures
        r == spec_mip_level_range(level),
{
    SubresourceRange {
        aspect: ImageAspect::Color,
        base_mip_level: level,
        level_count: 1,
        layer_count: 1,
    }
}

/// Populates levels `1 .. mip_levels` of an image from level `0` by a chain
/// of blits, each bracketed by the precise transitions it needs.
///
/// On entry, level `0` must be in the transfer-read state and levels
/// `1 .. mip_levels` in the transfer-write state, as the image-from-bytes
/// path leaves them.  Each step blits level `i` into level `i + 1` at half
/// the extent (floored, clamped to one texel), then retires level `i` to the
/// caller's final accesses and layout and turns level `i + 1` into the next
/// blit source — or retires it too, when it is the last level.  On exit
/// every level of the image is in the caller's final state: no level is left
/// in a transient one.
pub fn generate_mips(
    commands: &mut CommandStream,
    image: u64,
    width: u32,
    height: u32,
    mip_levels: u32,
    next_accesses: &Vec<AccessType>,
    next_layout: ImageLayout,
)
    requires
        mip_levels >= 1,
        width >= 1,
        height >= 1,
    ensures
        final(commands).commands@.len() == old(commands).commands@.len() + 2 * (mip_levels - 1),
        final(commands).commands@.subrange(0, old(commands).commands@.len() as int) =~= old(
            commands,
        ).commands@,
        forall|i: u32|
            i < mip_levels - 1 ==> mip_blit_at(
                final(commands).commands@,
                old(commands).commands@.len() as int,
                image,
                width,
                height,
                i,
            ),
        forall|i: u32|
            i < mip_levels - 1 ==> mip_barrier_at(
                final(commands).commands@,
                old(commands).commands@.len() as int,
                image,
                i,
                mip_levels,
                next_accesses@,
                next_layout,
            ),
        mip_levels >= 2 ==> forall|level: u32|
            level < mip_levels ==> final_level_state(final(commands).commands@, image, level)
                == Some(state_of(next_accesses@, next_layout)),
{
    let ghost old_stream = commands.commands@;
    let ghost old_len = commands.commands@.len() as int;
    proof {
        lemma_mip_dim_base(width as nat);
        lemma_mip_dim_base(height as nat);
    }
    let mut w = width;
    let mut h = height;
    let mut i: u32 = 0;
    while i < mip_levels - 1
        invariant
            mip_levels >= 1,
            i <= mip_levels - 1,
            commands.commands@.len() == old_len + 2 * i,
            commands.commands@.subrange(0, old_len) =~= old_stream,
            old_len == old_stream.len(),
            old_stream == old(commands).commands@,
            w == mip_dim(width as nat, i as nat),
            h == mip_dim(height as nat, i as nat),
            w >= 1,
            h >= 1,
            forall|k: u32|
                k < i ==> mip_blit_at(commands.commands@, old_len, image, width, height, k),
            forall|k: u32|
                k < i ==> mip_barrier_at(
                    commands.commands@,
                    old_len,
                    image,
                    k,
                    mip_levels,
                    next_accesses@,
                    next_layout,
                ),
            forall|level: u32|
                level < i ==> final_level_state(commands.commands@, image, level) == Some(
                    state_of(next_accesses@, next_layout),
                ),
            1 <= i < mip_levels - 1 ==> final_level_state(commands.commands@, image, i) == Some(
                transfer_read_state(),
            ),
            i >= 1 && i == mip_levels - 1 ==> final_level_state(commands.commands@, image, i)
                == Some(state_of(next_accesses@, next_layout)),
        decreases mip_levels - 1 - i,
    {
        let dw = if w / 2 >= 1 {
            w / 2
        } else {
            1
        };
        let dh = if h / 2 >= 1 {
            h / 2
        } else {
            1
        };
        proof {
            lemma_mip_dim_step(width as nat, i as nat);
            lemma_mip_dim_step(height as nat, i as nat);
        }
        let blit = Command::BlitImage {
            image,
            src_level: i,
            dst_level: i + 1,
            src_width: w,
            src_height: h,
            dst_width: dw,
            dst_height: dh,
        };
        let ghost gblit = blit;
        let ghost before_blit = commands.commands@;
        commands.commands.push(blit);
        proof {
            assert(commands.commands@ =~= before_blit.push(gblit));
            assert forall|level: u32| true implies final_level_state(
                commands.commands@,
                image,
                level,
            ) == final_level_state(before_blit, image, level) by {
                lemma_final_state_push(before_blit, gblit, image, level);
            }
        }

        let last = i + 1 == mip_levels - 1;
        let barrier_i = ImageBarrier {
            previous_accesses: single_access(AccessType::TransferRead),
            next_accesses: copy_accesses(next_accesses),
            previous_layout: ImageLayout::Optimal,
            next_layout,
            discard_contents: false,
            image,
            range: mip_level_range(i),
        };
        let barrier_next = ImageBarrier {
            previous_accesses: single_access(AccessType::TransferWrite),
            next_accesses: if last {
                copy_accesses(next_accesses)
            } else {
                single_access(AccessType::TransferRead)
            },
            previous_layout: ImageLayout::Optimal,
            next_layout: if last {
                next_layout
            } else {
                ImageLayout::Optimal
            },
            discard_contents: false,
            image,
            range: mip_level_range(i + 1),
        };
        let ghost b0 = barrier_i;
        let ghost b1 = barrier_next;
        let mut batch: Vec<ImageBarrier> = Vec::new();
        batch.push(barrier_i);
        batch.push(barrier_next);
        proof {
            assert(batch@ =~= seq![b0, b1]);
        }
        let ghost batch_view = batch@;
        let ghost before_barrier = commands.commands@;
        let ghost barrier_cmd = Command::PipelineBarrier(batch);
        pipeline_barrier(commands, batch);
        proof {
            assert(commands.commands@ =~= before_barrier.push(barrier_cmd));
            assert forall|level: u32| true implies final_level_state(
                commands.commands@,
                image,
                level,
            ) == (if level == i + 1 {
                Some(LevelState { accesses: b1.next_accesses@, layout: b1.next_layout })
            } else if level == i {
                Some(LevelState { accesses: b0.next_accesses@, layout: b0.next_layout })
            } else {
                final_level_state(before_barrier, image, level)
            }) by {
                lemma_final_state_push(before_barrier, barrier_cmd, image, level);
                assert(batch_view =~= seq![b0, b1]);
                assert(cmd_sets_level(barrier_cmd, image, level) == barrier_sets_level(
                    seq![b0, b1],
                    image,
                    level,
                ));
                lemma_pair_sets_level(b0, b1, image, level);
            }

            // The step's own two commands are in place and well-formed.
            assert(commands.commands@[old_len + 2 * i] == gblit);
            assert(commands.commands@[old_len + 2 * i + 1] == barrier_cmd);
            assert(is_mip_blit(gblit, image, width, height, i));
            assert(is_mip_barrier(
                barrier_cmd,
                image,
                i,
                mip_levels,
                next_accesses@,
                next_layout,
            ));

            // Earlier steps' commands are untouched by the two pushes.
            assert forall|k: u32| k < i + 1 implies mip_blit_at(
                commands.commands@,
                old_len,
                image,
                width,
                height,
                k,
            ) by {
                if k < i {
                    assert(commands.commands@[old_len + 2 * k] == before_blit[old_len + 2 * k]);
                    assert(mip_blit_at(before_blit, old_len, image, width, height, k));
                } else {
                    assert(commands.commands@[old_len + 2 * k] == gblit);
                }
            }
            // Every level at or below this step is now in its final or
            // pending state.
            assert forall|level: u32| level < i + 1 implies final_level_state(
                commands.commands@,
                image,
                level,
            ) == Some(state_of(next_accesses@, next_layout)) by {
                if level < i {
                    assert(final_level_state(before_barrier, image, level) == final_level_state(
                        before_blit,
                        image,
                        level,
                    ));
                    assert(final_level_state(before_blit, image, level) == Some(
                        state_of(next_accesses@, next_layout),
                    ));
                } else {
                    assert(final_level_state(commands.commands@, image, level) == Some(
                        LevelState { accesses: b0.next_accesses@, layout: b0.next_layout },
                    ));
                    assert(b0.next_accesses@ == next_accesses@);
                }
            }
            if !last {
                assert(final_level_state(commands.commands@, image, (i + 1) as u32) == Some(
                    transfer_read_state(),
                ));
            } else {
                assert(final_level_state(commands.commands@, image, (i + 1) as u32) == Some(
                    state_of(next_accesses@, next_layout),
                ));
            }
            assert forall|k: u32| k < i + 1 implies mip_barrier_at(
                commands.commands@,
                old_len,
                image,
                k,
                mip_levels,
                next_accesses@,
                next_layout,
            ) by {
                if k < i {
                    assert(commands.commands@[old_len + 2 * k + 1] == before_blit[old_len + 2 * k
                        + 1]);
                    assert(mip_barrier_at(
                        before_blit,
                        old_len,
                        image,
                        k,
                        mip_levels,
                        next_accesses@,
                        next_layout,
                    ));
                } else {
                    assert(commands.commands@[old_len + 2 * k + 1] == barrier_cmd);
                }
            }
        }
        w = dw;
        h = dh;
        i = i + 1;
        proof {
            assert(commands.commands@.subrange(0, old_len) =~= old_stream);
        }
    }
}

} // verus!
