use vstd::prelude::*;

use crate::error::Error;

verus! {

/// Where an allocation must live: device-local memory, or host-visible
/// memory that stays mapped for writes from the host.
#[derive(Clone, Copy, Debug, PartialEq, Eq, Structural)]
pub enum MemoryLocation {
    GpuOnly,
    CpuToGpu,
}

/// The size and alignment an allocation must satisfy.
#[derive(Clone, Copy, Debug, PartialEq, Eq, Structural)]
pub struct MemoryRequirements {
    pub size: u64,
    pub alignment: u64,
}

/// One allocation request, as the allocator saw it.
#[derive(Clone, Copy, Debug, PartialEq, Eq, Structural)]
pub struct AllocationRequest {
    pub size: u64,
    pub alignment: u64,
    pub location: MemoryLocation,
    pub linear: bool,
}

/// A region of device memory: a byte offset into the backing memory, and,
/// when host-visible, the mapped bytes themselves.  Owned exclusively by the
/// buffer or image that requested it, and released back to the allocator
/// exactly once, by explicit free.
#[derive(Debug, PartialEq)]
pub struct Allocation {
    pub id: u64,
    pub offset: u64,
    pub size: u64,
    pub host_visible: bool,
    /// The mapped contents; empty unless the allocation is host-visible.
    pub mapped: Vec<u8>,
}

impl Allocation {
    /// A host-visible allocation keeps exactly `size` mapped bytes; a
    /// device-local one keeps none.
    pub open spec fn wf(&self) -> bool {
        &&& (self.host_visible ==> self.mapped@.len() == self.size)
        &&& (!self.host_visible ==> self.mapped@.len() == 0)
    }
}

/// The smallest multiple-friendly offset at or after `cursor`.
pub open spec fn spec_align_up(cursor: int, alignment: int) -> int
    recommends
        alignment > 0,
{
    if cursor % alignment == 0 {
        cursor
    } else {
        cursor + alignment - cursor % alignment
    }
}

/// Aligning up lands on a multiple of the alignment, moves forward by less
/// than one alignment, and never moves backward.
pub proof fn lemma_align_up(cursor: int, alignment: int)
    requires
        cursor >= 0,
        alignment > 0,
    ensures
        spec_align_up(cursor, alignment) % alignment == 0,
        cursor <= spec_align_up(cursor, alignment) < cursor + alignment,
{
    if cursor % alignment == 0 {
    } else {
        let rem = cursor % alignment;
        vstd::arithmetic::div_mod::lemma_mod_bound(cursor, alignment);
        vstd::arithmetic::div_mod::lemma_add_mod_noop(cursor, alignment - rem, alignment);
        vstd::arithmetic::div_mod::lemma_small_mod((alignment - rem) as nat, alignment as nat);
        vstd::arithmetic::div_mod::lemma_mod_self_0(alignment);
        vstd::arithmetic::div_mod::lemma_add_mod_noop(rem, alignment - rem, alignment);
        vstd::arithmetic::div_mod::lemma_small_mod(rem as nat, alignment as nat);
    }
}

/// Whether an allocation request cannot be satisfied: a zero alignment, or a
/// bound offset or end that would not fit in the address space.
pub open spec fn spec_alloc_fails(cursor: u64, size: u64, alignment: u64) -> bool {
    ||| alignment == 0
    ||| spec_align_up(cursor as int, alignment as int) + size > u64::MAX
}

/// A linear memory pool.  It hands out allocations at increasing offsets,
/// aligned as requested, and records every request and every free so that a
/// caller (or a replay against a real allocator) can audit them.
#[derive(Debug, PartialEq)]
pub struct Allocator {
    /// The first offset not yet handed out.
    pub cursor: u64,
    /// The id the next allocation will get.
    pub next_id: u64,
    /// Every request satisfied so far, oldest first.
    pub requests: Vec<AllocationRequest>,
    /// The ids of allocations freed so far, oldest first.
    pub freed: Vec<u64>,
}

impl Allocator {
    /// A fresh pool with nothing allocated.
    pub fn new() -> (r: Allocator)
        ensures
            r.cursor == 0,
            r.next_id == 0,
            r.requests@ =~= Seq::<AllocationRequest>::empty(),
            r.freed@ =~= Seq::<u64>::empty(),
    {
        Allocator { cursor: 0, next_id: 0, requests: Vec::new(), freed: Vec::new() }
    }

    /// Allocates a region satisfying `requirements`.  The bound offset is the
    /// lowest aligned offset at or past the cursor; a `CpuToGpu` allocation
    /// comes back host-visible with `size` mapped (zeroed) bytes.  Fails
    /// exactly when the alignment is zero or the region would not fit in the
    /// address space, and changes nothing on failure.
    pub fn allocate(
        &mut self,
        requirements: &MemoryRequirements,
        location: MemoryLocation,
        linear: bool,
    ) -> (r: Result<Allocation, Error>)
        requires
            old(self).next_id < u64::MAX,
        ensures
            r is Err <==> spec_alloc_fails(
                old(self).cursor,
                requirements.size,
                requirements.alignment,
            ),
            match r {
                Ok(allocation) => {
                    &&& allocation.wf()
                    &&& allocation.id == old(self).next_id
                    &&& allocation.offset == spec_align_up(
                        old(self).cursor as int,
                        requirements.alignment as int,
                    )
                    &&& requirements.alignment > 0 ==> allocation.offset % requirements.alignment
                        == 0
                    &&& allocation.size == requirements.size
                    &&& allocation.offset >= old(self).cursor
                    &&& allocation.offset < old(self).cursor + requirements.alignment
                    &&& allocation.host_visible == (location == MemoryLocation::CpuToGpu)
                    &&& allocation.host_visible ==> forall|i: int|
                        0 <= i < allocation.mapped@.len() ==> allocation.mapped@[i] == 0u8
                    &&& final(self).cursor == allocation.offset + requirements.size
                    &&& final(self).next_id == old(self).next_id + 1
                    &&& final(self).requests@ =~= old(self).requests@.push(
                        AllocationRequest {
                            size: requirements.size,
                            alignment: requirements.alignment,
                            location,
                            linear,
                        },
                    )
                    &&& final(self).freed@ =~= old(self).freed@
                },
                Err(e) => {
                    &&& e == Error::AllocationFailed
                    &&& *final(self) == *old(self)
                },
            },
    {
        if requirements.alignment == 0 {
            return Err(Error::AllocationFailed);
        }
        let rem = self.cursor % requirements.alignment;
        proof {
            lemma_align_up(self.cursor as int, requirements.alignment as int);
        }
        let offset = if rem == 0 {
            self.cursor
        } else {
            let pad = requirements.alignment - rem;
            if self.cursor > u64::MAX - pad {
                return Err(Error::AllocationFailed);
            }
            self.cursor + pad
        };
        if requirements.size > u64::MAX - offset {
            return Err(Error::AllocationFailed);
        }
        let mapped = if location == MemoryLocation::CpuToGpu {
            zeroed_bytes(requirements.size)
        } else {
            Vec::new()
        };
        let allocation = Allocation {
            id: self.next_id,
            offset,
            size: requirements.size,
            host_visible: location == MemoryLocation::CpuToGpu,
            mapped,
        };
        self.cursor = offset + requirements.size;
        self.next_id = self.next_id + 1;
        self.requests.push(
            AllocationRequest {
                size: requirements.size,
                alignment: requirements.alignment,
                location,
                linear,
            },
        );
        Ok(allocation)
    }

    /// Returns an allocation to the pool.  The pool only records the free;
    /// the region is not reused, so a double free is visible in the record
    /// rather than corrupting later allocations.
    pub fn free(&mut self, allocation: &Allocation) -> (r: Result<(), Error>)
        ensures
            r is Ok,
            final(self).freed@ =~= old(self).freed@.push(allocation.id),
            final(self).cursor == old(self).cursor,
            final(self).next_id == old(self).next_id,
            final(self).requests@ =~= old(self).requests@,
    {
        self.freed.push(allocation.id);
        Ok(())
    }
}

/// A vector of `len` zero bytes.
fn zeroed_bytes(len: u64) -> (r: Vec<u8>)
    ensures
        r@.len() == len,
        forall|i: int| 0 <= i < r@.len() ==> r@[i] == 0u8,
{
    let mut v: Vec<u8> = Vec::new();
    let mut i: u64 = 0;
    while i < len
        invariant
            i <= len,
            v@.len() == i,
            forall|j: int| 0 <= j < v@.len() ==> v@[j] == 0u8,
        decreases len - i,
    {
        v.push(0u8);
        i = i + 1;
    }
    v
}

} // verus!
