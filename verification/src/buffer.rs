use vstd::prelude::*;

use crate::allocator::{
    spec_alloc_fails, spec_align_up, Allocation, AllocationRequest, Allocator, MemoryLocation,
    MemoryRequirements,
};
use crate::device::{BufferRecord, Device, InitResources};
use crate::error::Error;

verus! {

// Buffer usage bits, as the underlying API numbers them.
pub const BUFFER_USAGE_TRANSFER_SRC: u32 = 0x1;
pub const BUFFER_USAGE_TRANSFER_DST: u32 = 0x2;
pub const BUFFER_USAGE_UNIFORM_BUFFER: u32 = 0x10;
pub const BUFFER_USAGE_STORAGE_BUFFER: u32 = 0x20;
pub const BUFFER_USAGE_INDEX_BUFFER: u32 = 0x40;
pub const BUFFER_USAGE_VERTEX_BUFFER: u32 = 0x80;

/// A GPU buffer: the native buffer object and the memory allocation that
/// backs it.  Destruction is explicit, through [`Buffer::cleanup`]: it needs
/// the device and the allocator, which a value alone does not carry.
#[derive(Debug, PartialEq)]
pub struct Buffer {
    pub buffer: u64,
    pub allocation: Allocation,
}

/// What every buffer constructor leaves unchanged in the shared resources:
/// the command stream, the device's reported alignments and the other object
/// ledgers, and the allocator's record of freed allocations.
pub open spec fn buffer_creation_frame(old_init: InitResources, new_init: InitResources) -> bool {
    &&& new_init.commands == old_init.commands
    &&& new_init.device.buffer_alignment == old_init.device.buffer_alignment
    &&& new_init.device.image_alignment == old_init.device.image_alignment
    &&& new_init.device.images@ =~= old_init.device.images@
    &&& new_init.device.views@ =~= old_init.device.views@
    &&& new_init.device.destroyed@ =~= old_init.device.destroyed@
    &&& new_init.allocator.freed@ =~= old_init.allocator.freed@
}

/// What a successful buffer creation says of the result: a fresh native
/// handle, an allocation aligned as requested, and the request recorded.
pub open spec fn buffer_created(
    b: Buffer,
    old_init: InitResources,
    new_init: InitResources,
    size: u64,
    alignment: u64,
    location: MemoryLocation,
) -> bool {
    &&& b.allocation.wf()
    &&& b.buffer == old_init.device.next_handle
    &&& b.allocation.id == old_init.allocator.next_id
    &&& b.allocation.size == size
    &&& b.allocation.host_visible == (location == MemoryLocation::CpuToGpu)
    &&& b.allocation.offset == spec_align_up(old_init.allocator.cursor as int, alignment as int)
    &&& alignment > 0 ==> b.allocation.offset % alignment == 0
    &&& new_init.allocator.next_id == old_init.allocator.next_id + 1
    &&& new_init.allocator.cursor == b.allocation.offset + size
    &&& new_init.allocator.requests@ =~= old_init.allocator.requests@.push(
        AllocationRequest { size, alignment, location, linear: true },
    )
}

impl Buffer {
    /// Creates a host-visible buffer holding exactly `bytes`: the bytes are
    /// written into the mapped allocation at construction.  Fails exactly
    /// when the allocator cannot satisfy the request; the native buffer
    /// object is created before the allocation is attempted and is not
    /// cleaned up on failure.
    pub fn new(bytes: &[u8], name: &str, usage: u32, init_resources: &mut InitResources) -> (r:
        Result<Buffer, Error>)
        requires
            old(init_resources).wf(),
            old(init_resources).device.next_handle < u64::MAX,
            old(init_resources).allocator.next_id < u64::MAX,
        ensures
            final(init_resources).wf(),
            buffer_creation_frame(*old(init_resources), *final(init_resources)),
            final(init_resources).device.next_handle == old(init_resources).device.next_handle + 1,
            final(init_resources).device.buffers@ =~= old(init_resources).device.buffers@.push(
                BufferRecord {
                    handle: old(init_resources).device.next_handle,
                    size: bytes@.len() as u64,
                    usage,
                },
            ),
            r is Err <==> spec_alloc_fails(
                old(init_resources).allocator.cursor,
                bytes@.len() as u64,
                old(init_resources).device.buffer_alignment,
            ),
            match r {
                Ok(b) => {
                    &&& buffer_created(
                        b,
                        *old(init_resources),
                        *final(init_resources),
                        bytes@.len() as u64,
                        old(init_resources).device.buffer_alignment,
                        MemoryLocation::CpuToGpu,
                    )
                    &&& b.allocation.mapped@ =~= bytes@
                },
                Err(e) => {
                    &&& e == Error::AllocationFailed
                    &&& final(init_resources).allocator == old(init_resources).allocator
                },
            },
    {
        let buffer_size = bytes.len() as u64;
        let buffer = init_resources.device.create_buffer(buffer_size, usage);
        let requirements = init_resources.device.buffer_memory_requirements(buffer_size);
        let allocation = match init_resources.allocator.allocate(
            &requirements,
            MemoryLocation::CpuToGpu,
            true,
        ) {
            Ok(allocation) => allocation,
            Err(e) => {
                return Err(e);
            },
        };
        Self::from_parts(allocation, buffer, bytes, name, init_resources)
    }

    /// Creates a host-visible buffer holding exactly `bytes`, forcing a
    /// memory alignment of the caller's choosing in place of the one the
    /// device reports — for resources consumed through raw device addresses
    /// whose alignment constraints the generic requirement does not capture.
    pub fn new_with_alignment(
        bytes: &[u8],
        name: &str,
        usage: u32,
        alignment: u64,
        init_resources: &mut InitResources,
    ) -> (r: Result<Buffer, Error>)
        requires
            old(init_resources).wf(),
            old(init_resources).device.next_handle < u64::MAX,
            old(init_resources).allocator.next_id < u64::MAX,
        ensures
            final(init_resources).wf(),
            buffer_creation_frame(*old(init_resources), *final(init_resources)),
            final(init_resources).device.next_handle == old(init_resources).device.next_handle + 1,
            final(init_resources).device.buffers@ =~= old(init_resources).device.buffers@.push(
                BufferRecord {
                    handle: old(init_resources).device.next_handle,
                    size: bytes@.len() as u64,
                    usage,
                },
            ),
            r is Err <==> spec_alloc_fails(
                old(init_resources).allocator.cursor,
                bytes@.len() as u64,
                alignment,
            ),
            match r {
                Ok(b) => {
                    &&& buffer_created(
                        b,
                        *old(init_resources),
                        *final(init_resources),
                        bytes@.len() as u64,
                        alignment,
                        MemoryLocation::CpuToGpu,
                    )
                    &&& b.allocation.mapped@ =~= bytes@
                },
                Err(e) => {
                    &&& e == Error::AllocationFailed
                    &&& final(init_resources).allocator == old(init_resources).allocator
                },
            },
    {
        let buffer_size = bytes.len() as u64;
        let buffer = init_resources.device.create_buffer(buffer_size, usage);
        let requirements = MemoryRequirements { size: buffer_size, alignment };
        let allocation = match init_resources.allocator.allocate(
            &requirements,
            MemoryLocation::CpuToGpu,
            true,
        ) {
            Ok(allocation) => allocation,
            Err(e) => {
                return Err(e);
            },
        };
        Self::from_parts(allocation, buffer, bytes, name, init_resources)
    }

    /// Creates a device-local buffer of `size` uninitialized bytes, for
    /// GPU-only scratch or target use.
    pub fn new_of_size(size: u64, name: &str, usage: u32, init_resources: &mut InitResources) -> (r:
        Result<Buffer, Error>)
        requires
            old(init_resources).wf(),
            old(init_resources).device.next_handle < u64::MAX,
            old(init_resources).allocator.next_id < u64::MAX,
        ensures
            final(init_resources).wf(),
            buffer_creation_frame(*old(init_resources), *final(init_resources)),
            final(init_resources).device.next_handle == old(init_resources).device.next_handle + 1,
            final(init_resources).device.buffers@ =~= old(init_resources).device.buffers@.push(
                BufferRecord { handle: old(init_resources).device.next_handle, size, usage },
            ),
            r is Err <==> spec_alloc_fails(
                old(init_resources).allocator.cursor,
                size,
                old(init_resources).device.buffer_alignment,
            ),
            match r {
                Ok(b) => buffer_created(
                    b,
                    *old(init_resources),
                    *final(init_resources),
                    size,
                    old(init_resources).device.buffer_alignment,
                    MemoryLocation::GpuOnly,
                ),
                Err(e) => {
                    &&& e == Error::AllocationFailed
                    &&& final(init_resources).allocator == old(init_resources).allocator
                },
            },
    {
        let buffer = init_resources.device.create_buffer(size, usage);
        let requirements = init_resources.device.buffer_memory_requirements(size);
        let allocation = match init_resources.allocator.allocate(
            &requirements,
            MemoryLocation::GpuOnly,
            true,
        ) {
            Ok(allocation) => allocation,
            Err(e) => {
                return Err(e);
            },
        };
        Ok(Buffer { buffer, allocation })
    }

    /// Creates a device-local buffer of `size` uninitialized bytes with a
    /// caller-forced memory alignment.
    pub fn new_of_size_with_alignment(
        size: u64,
        name: &str,
        usage: u32,
        alignment: u64,
        init_resources: &mut InitResources,
    ) -> (r: Result<Buffer, Error>)
        requires
            old(init_resources).wf(),
            old(init_resources).device.next_handle < u64::MAX,
            old(init_resources).allocator.next_id < u64::MAX,
        ensures
            final(init_resources).wf(),
            buffer_creation_frame(*old(init_resources), *final(init_resources)),
            final(init_resources).device.next_handle == old(init_resources).device.next_handle + 1,
            final(init_resources).device.buffers@ =~= old(init_resources).device.buffers@.push(
                BufferRecord { handle: old(init_resources).device.next_handle, size, usage },
            ),
            r is Err <==> spec_alloc_fails(old(init_resources).allocator.cursor, size, alignment),
            match r {
                Ok(b) => buffer_created(
                    b,
                    *old(init_resources),
                    *final(init_resources),
                    size,
                    alignment,
                    MemoryLocation::GpuOnly,
                ),
                Err(e) => {
                    &&& e == Error::AllocationFailed
                    &&& final(init_resources).allocator == old(init_resources).allocator
                },
            },
    {
        let buffer = init_resources.device.create_buffer(size, usage);
        let requirements = MemoryRequirements { size, alignment };
        let allocation = match init_resources.allocator.allocate(
            &requirements,
            MemoryLocation::GpuOnly,
            true,
        ) {
            Ok(allocation) => allocation,
            Err(e) => {
                return Err(e);
            },
        };
        Ok(Buffer { buffer, allocation })
    }

    /// Overwrites a byte range of an already-mapped buffer.  Fails exactly
    /// when the buffer's memory is not host-visible; everything outside the
    /// written range is preserved.
    pub fn write_mapped(&mut self, bytes: &[u8], offset: usize) -> (r: Result<(), Error>)
        requires
            old(self).allocation.host_visible ==> offset + bytes@.len() <= old(
                self,
            ).allocation.mapped@.len(),
        ensures
            r is Ok <==> old(self).allocation.host_visible,
            final(self).buffer == old(self).buffer,
            final(self).allocation.id == old(self).allocation.id,
            final(self).allocation.offset == old(self).allocation.offset,
            final(self).allocation.size == old(self).allocation.size,
            final(self).allocation.host_visible == old(self).allocation.host_visible,
            match r {
                Ok(()) => final(self).allocation.mapped@ =~= old(
                    self,
                ).allocation.mapped@.subrange(0, offset as int) + bytes@ + old(
                    self,
                ).allocation.mapped@.skip(offset + bytes@.len()),
                Err(e) => {
                    &&& e == Error::NotMapped
                    &&& *final(self) == *old(self)
                },
            },
    {
        if !self.allocation.host_visible {
            return Err(Error::NotMapped);
        }
        let mapped_len = self.allocation.mapped.len();
        let mut i: usize = 0;
        while i < bytes.len()
            invariant
                self.allocation.host_visible,
                offset + bytes@.len() <= self.allocation.mapped@.len(),
                self.allocation.mapped@.len() == mapped_len,
                i <= bytes@.len(),
                self.buffer == old(self).buffer,
                self.allocation.id == old(self).allocation.id,
                self.allocation.offset == old(self).allocation.offset,
                self.allocation.size == old(self).allocation.size,
                self.allocation.host_visible == old(self).allocation.host_visible,
                self.allocation.mapped@.len() == old(self).allocation.mapped@.len(),
                forall|j: int|
                    0 <= j < i ==> self.allocation.mapped@[offset + j] == bytes@[j],
                forall|j: int|
                    0 <= j < self.allocation.mapped@.len() && !(offset <= j < offset + i)
                        ==> self.allocation.mapped@[j] == old(self).allocation.mapped@[j],
            decreases bytes@.len() - i,
        {
            self.allocation.mapped.set(offset + i, bytes[i]);
            i = i + 1;
        }
        proof {
            assert(self.allocation.mapped@ =~= old(self).allocation.mapped@.subrange(
                0,
                offset as int,
            ) + bytes@ + old(self).allocation.mapped@.skip(offset + bytes@.len()));
        }
        Ok(())
    }

    /// Writes `bytes` into the start of a freshly mapped allocation and
    /// assembles the buffer value.
    fn from_parts(
        allocation: Allocation,
        buffer: u64,
        bytes: &[u8],
        name: &str,
        init_resources: &InitResources,
    ) -> (r: Result<Buffer, Error>)
        requires
            allocation.host_visible,
            bytes@.len() <= allocation.mapped@.len(),
        ensures
            r is Ok,
            match r {
                Ok(b) => {
                    &&& b.buffer == buffer
                    &&& b.allocation.id == allocation.id
                    &&& b.allocation.offset == allocation.offset
                    &&& b.allocation.size == allocation.size
                    &&& b.allocation.host_visible
                    &&& b.allocation.mapped@ =~= bytes@ + allocation.mapped@.skip(
                        bytes@.len() as int,
                    )
                },
                Err(_) => false,
            },
    {
        let mut buf = Buffer { buffer, allocation };
        match buf.write_mapped(bytes, 0) {
            Ok(()) => Ok(buf),
            Err(e) => Err(e),
        }
    }

    /// Destroys the native buffer object and frees the allocation.  The
    /// buffer value must not be used afterwards; prefer
    /// [`Buffer::cleanup_and_drop`] where ownership allows it.
    pub fn cleanup(&self, device: &mut Device, allocator: &mut Allocator) -> (r: Result<(), Error>)
        ensures
            r is Ok,
            final(device).destroyed@ =~= old(device).destroyed@.push(self.buffer),
            final(device).next_handle == old(device).next_handle,
            final(device).buffer_alignment == old(device).buffer_alignment,
            final(device).image_alignment == old(device).image_alignment,
            final(device).buffers@ =~= old(device).buffers@,
            final(device).images@ =~= old(device).images@,
            final(device).views@ =~= old(device).views@,
            final(allocator).freed@ =~= old(allocator).freed@.push(self.allocation.id),
            final(allocator).cursor == old(allocator).cursor,
            final(allocator).next_id == old(allocator).next_id,
            final(allocator).requests@ =~= old(allocator).requests@,
    {
        device.destroy(self.buffer);
        match allocator.free(&self.allocation) {
            Ok(()) => Ok(()),
            Err(e) => Err(e),
        }
    }

    /// Destroys the native buffer object, frees the allocation, and consumes
    /// the value so it cannot be used afterwards.
    pub fn cleanup_and_drop(self, device: &mut Device, allocator: &mut Allocator) -> (r: Result<
        (),
        Error,
    >)
        ensures
            r is Ok,
            final(device).destroyed@ =~= old(device).destroyed@.push(self.buffer),
            final(device).next_handle == old(device).next_handle,
            final(device).buffer_alignment == old(device).buffer_alignment,
            final(device).image_alignment == old(device).image_alignment,
            final(device).buffers@ =~= old(device).buffers@,
            final(device).images@ =~= old(device).images@,
            final(device).views@ =~= old(device).views@,
            final(allocator).freed@ =~= old(allocator).freed@.push(self.allocation.id),
            final(allocator).cursor == old(allocator).cursor,
            final(allocator).next_id == old(allocator).next_id,
            final(allocator).requests@ =~= old(allocator).requests@,
    {
        self.cleanup(device, allocator)
    }
}

} // verus!
