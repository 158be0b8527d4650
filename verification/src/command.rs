use vstd::prelude::*;

use crate::access::{AccessType, ImageLayout};
use crate::barrier::{range_contains, ImageBarrier};

verus! {

/// The width, height and depth of an image, in texels.
#[derive(Clone, Copy, Debug, PartialEq, Eq, Structural)]
pub struct Extent3d {
    pub width: u32,
    pub height: u32,
    pub depth: u32,
}

/// One command recorded on a command stream.  Resource creation records
/// exactly the commands that must be replayed, in order, on a real device.
#[derive(Clone, Debug, PartialEq)]
pub enum Command {
    /// One synchronization command covering a batch of subresource
    /// transitions that happen at the same logical point.
    PipelineBarrier(Vec<ImageBarrier>),
    /// Copy a whole buffer into one mip level of an image.
    CopyBufferToImage { buffer: u64, image: u64, mip_level: u32, extent: Extent3d },
    /// Blit one mip level of an image into another, with linear filtering.
    BlitImage {
        image: u64,
        src_level: u32,
        dst_level: u32,
        src_width: u32,
        src_height: u32,
        dst_width: u32,
        dst_height: u32,
    },
}

/// An open command-recording scope: the ordered list of commands recorded so
/// far.  Replaying them in order on a real command stream reproduces the
/// recorded protocol exactly.
#[derive(Clone, Debug, PartialEq)]
pub struct CommandStream {
    pub commands: Vec<Command>,
}

/// The access state a barrier leaves one mip level of one image in.
pub struct LevelState {
    pub accesses: Seq<AccessType>,
    pub layout: ImageLayout,
}

/// The state the last barrier of a batch covering `(image, level)` assigns,
/// if any barrier of the batch covers it.
pub open spec fn barrier_sets_level(barriers: Seq<ImageBarrier>, image: u64, level: u32) -> Option<
    LevelState,
>
    decreases barriers.len(),
{
    if barriers.len() == 0 {
        None
    } else if barriers.last().image == image && range_contains(barriers.last().range, level) {
        Some(
            LevelState {
                accesses: barriers.last().next_accesses@,
                layout: barriers.last().next_layout,
            },
        )
    } else {
        barrier_sets_level(barriers.drop_last(), image, level)
    }
}

/// The state a command assigns to `(image, level)`, if it is a barrier
/// covering that level.  Copies and blits move data but assign no access
/// state.
pub open spec fn cmd_sets_level(command: Command, image: u64, level: u32) -> Option<LevelState> {
    match command {
        Command::PipelineBarrier(barriers) => barrier_sets_level(barriers@, image, level),
        _ => None,
    }
}

/// The access state `(image, level)` is left in after a command sequence:
/// the state assigned by the last barrier covering it, or `None` when no
/// recorded barrier ever covered it.
pub open spec fn final_level_state(commands: Seq<Command>, image: u64, level: u32) -> Option<
    LevelState,
>
    decreases commands.len(),
{
    if commands.len() == 0 {
        None
    } else {
        match cmd_sets_level(commands.last(), image, level) {
            Some(state) => Some(state),
            None => final_level_state(commands.drop_last(), image, level),
        }
    }
}

/// The state a batch of exactly one barrier assigns to a level.
pub proof fn lemma_single_sets_level(b: ImageBarrier, image: u64, level: u32)
    ensures
        barrier_sets_level(seq![b], image, level) == (if b.image == image && range_contains(
            b.range,
            level,
        ) {
            Some(LevelState { accesses: b.next_accesses@, layout: b.next_layout })
        } else {
            None
        }),
{
    assert(seq![b].last() == b);
    assert(seq![b].drop_last() =~= Seq::<ImageBarrier>::empty());
    assert(barrier_sets_level(Seq::<ImageBarrier>::empty(), image, level) is None);
}

/// Recording one more command either overrides the final state of a level
/// (when the command is a barrier covering it) or leaves it unchanged.
pub proof fn lemma_final_state_push(commands: Seq<Command>, command: Command, image: u64, level: u32)
    ensures
        final_level_state(commands.push(command), image, level) == (match cmd_sets_level(
            command,
            image,
            level,
        ) {
            Some(state) => Some(state),
            None => final_level_state(commands, image, level),
        }),
{
    assert(commands.push(command).last() == command);
    assert(commands.push(command).drop_last() =~= commands);
}

impl CommandStream {
    /// An empty recording scope.
    pub fn new() -> (r: CommandStream)
        ensures
            r.commands@ =~= Seq::<Command>::empty(),
    {
        CommandStream { commands: Vec::new() }
    }

    /// The number of commands recorded so far.
    pub fn len(&self) -> (r: usize)
        ensures
            r == self.commands@.len(),
    {
        self.commands.len()
    }
}

/// Records one synchronization command covering a batch of subresource
/// transitions.  Independent transitions that happen at the same logical
/// point are batched into this single command rather than recorded one by
/// one.
pub fn pipeline_barrier(stream: &mut CommandStream, image_barriers: Vec<ImageBarrier>)
    ensures
        final(stream).commands@ =~= old(stream).commands@.push(
            Command::PipelineBarrier(image_barriers),
        ),
{
    stream.commands.push(Command::PipelineBarrier(image_barriers));
}

} // verus!
