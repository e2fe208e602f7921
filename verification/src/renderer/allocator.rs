//! The ledger of device memory handed out to buffers.
//!
//! Device memory is carved out of larger blocks by the caller's allocator.
//! The ledger records every region that is in use and refuses whatever
//! would break the rules: a region is recorded once, overlaps no other, and
//! is freed once.
use vstd::prelude::*;
use crate::renderer::buffer::AllocatedBuffer;
use crate::renderer::lifecycle::DestroyStep;

verus! {

/// Where the memory of a buffer should live.
#[derive(Clone, Copy, Debug, PartialEq, Eq, Structural)]
pub enum MemoryLocation {
    Unknown,
    GpuOnly,
    /// Visible to the host, for uploads.
    CpuToGpu,
    GpuToCpu,
}

#[derive(Clone, Copy, Debug, PartialEq, Eq, Structural)]
pub enum BufferUsage {
    VertexBuffer,
    IndexBuffer,
    UniformBuffer,
    TransferSrc,
    TransferDst,
}

/// Everything needed to create a buffer and the memory behind it.
#[derive(Clone, Copy, Debug, PartialEq, Eq, Structural)]
pub struct BufferRequest {
    /// Bytes.
    pub size: u64,
    pub usage: BufferUsage,
    pub location: MemoryLocation,
    /// Laid out linearly, as buffers are, rather than tiled.
    pub linear: bool,
}

/// A region of a block of device memory.
#[derive(Clone, Copy, Debug, PartialEq, Eq, Structural)]
pub struct Allocation {
    /// The raw handle of the block.
    pub memory: u64,
    /// Where in the block the region starts.
    pub offset: u64,
    /// Bytes.
    pub size: u64,
    /// The host can write to the region.
    pub mapped: bool,
}

/// Why the caller's allocator could not provide memory.
#[derive(Clone, Copy, Debug, PartialEq, Eq, Structural)]
pub enum AllocationFailure {
    OutOfMemory,
    NoCompatibleMemoryType,
    Other,
}

#[derive(Clone, Copy, Debug, PartialEq, Eq, Structural)]
pub enum AllocatorError {
    /// No block has room and no new block could be had. The caller may
    /// free something and try again.
    OutOfMemory,
    /// The device has no memory type that fits the request.
    NoCompatibleMemoryType,
    /// The caller's allocator failed in another way.
    Failed,
    /// The allocator has been released already.
    Released,
    /// The region has no bytes.
    Empty,
    /// The region ends beyond the last address.
    OutOfRange,
    /// The region overlaps one that is in use.
    Overlap,
    /// The region is not in use: it was never recorded, or freed already.
    NotLive,
    /// There are still regions in use.
    StillInUse,
}

/// The first byte after the region.
pub open spec fn end_of(a: Allocation) -> int {
    a.offset + a.size
}

/// The two regions share a byte of one block.
pub open spec fn overlap(a: Allocation, b: Allocation) -> bool {
    a.memory == b.memory && a.offset < end_of(b) && b.offset < end_of(a)
}

/// The region has bytes and ends within the address range.
pub open spec fn is_region(a: Allocation) -> bool {
    a.size > 0 && end_of(a) <= u64::MAX
}

/// Every region has bytes, and no two of them overlap.
pub open spec fn disjoint(live: Seq<Allocation>) -> bool {
    &&& forall|i: int| 0 <= i < live.len() ==> is_region(#[trigger] live[i])
    &&& forall|i: int, j: int|
        0 <= i < live.len() && 0 <= j < live.len() && i != j ==> !overlap(
            #[trigger] live[i],
            #[trigger] live[j],
        )
}

/// The failure of the caller's allocator, as this library reports it.
pub open spec fn error_of(failure: AllocationFailure) -> AllocatorError {
    match failure {
        AllocationFailure::OutOfMemory => AllocatorError::OutOfMemory,
        AllocationFailure::NoCompatibleMemoryType => AllocatorError::NoCompatibleMemoryType,
        AllocationFailure::Other => AllocatorError::Failed,
    }
}

pub struct RendererAllocator {
    /// The regions in use, in the order they were recorded.
    pub live: Vec<Allocation>,
    /// The allocator's state is gone. Nothing can be recorded any more.
    pub released: bool,
}

impl RendererAllocator {
    pub open spec fn wf(&self) -> bool {
        &&& disjoint(self.live@)
        &&& self.released ==> self.live@.len() == 0
    }

    pub open spec fn is_live(&self, allocation: Allocation) -> bool {
        self.live@.contains(allocation)
    }

    /// Some region in use overlaps the given one.
    pub open spec fn overlaps_live(&self, allocation: Allocation) -> bool {
        exists|i: int| 0 <= i < self.live@.len() && overlap(#[trigger] self.live@[i], allocation)
    }

    pub fn is_well_formed(&self) -> (ok: bool)
        ensures
            ok == self.wf(),
    {
        if self.released && self.live.len() > 0 {
            return false;
        }
        let mut i: usize = 0;
        while i < self.live.len()
            invariant
                i <= self.live.len(),
                forall|a: int| 0 <= a < i ==> is_region(#[trigger] self.live@[a]),
                forall|a: int, b: int|
                    0 <= a < i && 0 <= b < i && a != b ==> !overlap(
                        #[trigger] self.live@[a],
                        #[trigger] self.live@[b],
                    ),
            decreases self.live.len() - i,
        {
            let region = self.live[i];
            if region.size == 0 || region.size > u64::MAX - region.offset {
                assert(!is_region(self.live@[i as int]));
                return false;
            }
            let end = region.offset + region.size;
            let mut j: usize = 0;
            while j < i
                invariant
                    j <= i,
                    i < self.live.len(),
                    region == self.live@[i as int],
                    is_region(region),
                    end == end_of(region),
                    forall|a: int| 0 <= a < i ==> is_region(#[trigger] self.live@[a]),
                    forall|b: int| 0 <= b < j ==> !overlap(#[trigger] self.live@[b], region),
                decreases i - j,
            {
                let other = self.live[j];
                assert(is_region(self.live@[j as int]));
                if other.memory == region.memory && other.offset < end && region.offset < other.offset
                    + other.size {
                    assert(overlap(self.live@[j as int], self.live@[i as int]));
                    return false;
                }
                j += 1;
            }
            i += 1;
        }
        true
    }

    /// A ledger with nothing in use.
    pub fn new() -> (allocator: RendererAllocator)
        ensures
            allocator.wf(),
            allocator.live@.len() == 0,
            !allocator.released,
    {
        RendererAllocator { live: Vec::new(), released: false }
    }

    /// What recording the region would answer.
    pub open spec fn spec_check(&self, allocation: Allocation) -> Result<(), AllocatorError> {
        if self.released {
            Err(AllocatorError::Released)
        } else if allocation.size == 0 {
            Err(AllocatorError::Empty)
        } else if end_of(allocation) > u64::MAX {
            Err(AllocatorError::OutOfRange)
        } else if self.overlaps_live(allocation) {
            Err(AllocatorError::Overlap)
        } else {
            Ok(())
        }
    }

    /// Records the memory that the caller's allocator gave to a buffer, and
    /// pairs the two. A failure of that allocator is passed on, and a region
    /// that breaks the rules is refused; either way the ledger stays as it was.
    pub fn allocate_buffer(
        &mut self,
        buffer: u64,
        outcome: Result<Allocation, AllocationFailure>,
    ) -> (made: Result<AllocatedBuffer, AllocatorError>)
        requires
            old(self).wf(),
        ensures
            final(self).wf(),
            final(self).released == old(self).released,
            match outcome {
                Err(failure) => made == Err::<AllocatedBuffer, AllocatorError>(error_of(failure))
                    && final(self).live@ == old(self).live@,
                Ok(allocation) => match old(self).spec_check(allocation) {
                    Err(e) => made == Err::<AllocatedBuffer, AllocatorError>(e) && final(self).live@
                        == old(self).live@,
                    Ok(_) => made == Ok::<AllocatedBuffer, AllocatorError>(
                        AllocatedBuffer { buffer, allocation: Some(allocation) },
                    ) && final(self).live@ == old(self).live@.push(allocation),
                },
            },
    {
        let allocation = match outcome {
            Err(AllocationFailure::OutOfMemory) => { return Err(AllocatorError::OutOfMemory); },
            Err(AllocationFailure::NoCompatibleMemoryType) => {
                return Err(AllocatorError::NoCompatibleMemoryType);
            },
            Err(AllocationFailure::Other) => { return Err(AllocatorError::Failed); },
            Ok(allocation) => allocation,
        };
        if self.released {
            return Err(AllocatorError::Released);
        }
        if allocation.size == 0 {
            return Err(AllocatorError::Empty);
        }
        if allocation.size > u64::MAX - allocation.offset {
            return Err(AllocatorError::OutOfRange);
        }
        let end = allocation.offset + allocation.size;
        let mut i: usize = 0;
        while i < self.live.len()
            invariant
                i <= self.live.len(),
                *self == *old(self),
                self.wf(),
                end == end_of(allocation),
                outcome == Ok::<Allocation, AllocationFailure>(allocation),
                !self.released,
                allocation.size > 0,
                end_of(allocation) <= u64::MAX,
                forall|k: int| 0 <= k < i ==> !overlap(#[trigger] self.live@[k], allocation),
            decreases self.live.len() - i,
        {
            let other = self.live[i];
            if other.memory == allocation.memory && other.offset < end && allocation.offset
                < other.offset + other.size {
                assert(overlap(self.live@[i as int], allocation));
                assert(old(self).overlaps_live(allocation));
                return Err(AllocatorError::Overlap);
            }
            i += 1;
        }
        self.live.push(allocation);
        Ok(AllocatedBuffer { buffer, allocation: Some(allocation) })
    }

    /// Takes a region back. Only a region in use can be freed, so a second
    /// free of the same region is refused.
    pub fn free(&mut self, allocation: Allocation) -> (done: Result<(), AllocatorError>)
        requires
            old(self).wf(),
        ensures
            final(self).wf(),
            final(self).released == old(self).released,
            old(self).released ==> done == Err::<(), AllocatorError>(AllocatorError::Released),
            !old(self).released && !old(self).is_live(allocation) ==> done == Err::<(), AllocatorError>(
                AllocatorError::NotLive,
            ),
            done is Err ==> final(self).live@ == old(self).live@,
            !old(self).released && old(self).is_live(allocation) ==> done is Ok
                && !final(self).is_live(allocation) && final(self).live@ == old(self).live@.remove(
                old(self).live@.index_of(allocation),
            ),
    {
        if self.released {
            return Err(AllocatorError::Released);
        }
        let mut i: usize = 0;
        while i < self.live.len()
            invariant
                i <= self.live.len(),
                *self == *old(self),
                self.wf(),
                !self.released,
                forall|k: int| 0 <= k < i ==> self.live@[k] != allocation,
            decreases self.live.len() - i,
        {
            let other = self.live[i];
            if other.memory == allocation.memory && other.offset == allocation.offset && other.size
                == allocation.size && other.mapped == allocation.mapped {
                proof {
                    let live = self.live@;
                    assert(live[i as int] == allocation);
                    assert(live.contains(allocation));
                    let found = live.index_of(allocation);
                    assert(live[found] == allocation);
                    assert(is_region(live[found]));
                    if found != i {
                        assert(overlap(live[found], live[i as int]));
                    }
                    let rest = live.remove(i as int);
                    assert forall|k: int| 0 <= k < rest.len() implies rest[k] != allocation by {
                        let from = if k < i { k } else { k + 1 };
                        assert(rest[k] == live[from]);
                        if live[from] == allocation {
                            assert(overlap(live[from], live[i as int]));
                        }
                    }
                    assert(!rest.contains(allocation));
                    assert forall|a: int, b: int|
                        0 <= a < rest.len() && 0 <= b < rest.len() && a != b implies !overlap(
                        #[trigger] rest[a],
                        #[trigger] rest[b],
                    ) by {
                        let fa = if a < i { a } else { a + 1 };
                        let fb = if b < i { b } else { b + 1 };
                        assert(rest[a] == live[fa] && rest[b] == live[fb]);
                    }
                    assert forall|a: int| 0 <= a < rest.len() implies is_region(#[trigger] rest[a]) by {
                        let fa = if a < i { a } else { a + 1 };
                        assert(rest[a] == live[fa]);
                    }
                }
                self.live.remove(i);
                return Ok(());
            }
            i += 1;
        }
        proof {
            if self.live@.contains(allocation) {
                let k = self.live@.index_of(allocation);
                assert(self.live@[k] == allocation);
            }
        }
        Err(AllocatorError::NotLive)
    }

    /// Releases the allocator's own state, which is allowed only once and
    /// only when no region is in use any more.
    pub fn cleanup(&mut self) -> (done: Result<DestroyStep, AllocatorError>)
        requires
            old(self).wf(),
        ensures
            final(self).wf(),
            final(self).live@ == old(self).live@,
            old(self).released ==> done == Err::<DestroyStep, AllocatorError>(AllocatorError::Released)
                && final(self).released,
            !old(self).released && old(self).live@.len() > 0 ==> done == Err::<
                DestroyStep,
                AllocatorError,
            >(AllocatorError::StillInUse) && !final(self).released,
            !old(self).released && old(self).live@.len() == 0 ==> done == Ok::<
                DestroyStep,
                AllocatorError,
            >(DestroyStep::ReleaseAllocator) && final(self).released,
    {
        if self.released {
            return Err(AllocatorError::Released);
        }
        if self.live.len() > 0 {
            return Err(AllocatorError::StillInUse);
        }
        self.released = true;
        Ok(DestroyStep::ReleaseAllocator)
    }
}

/// No two regions in use share a byte: of two different entries of a
/// well-formed ledger that lie in one block, one ends before the other begins.
pub proof fn lemma_live_regions_apart(allocator: RendererAllocator, i: int, j: int)
    requires
        allocator.wf(),
        0 <= i < allocator.live@.len(),
        0 <= j < allocator.live@.len(),
        i != j,
        allocator.live@[i].memory == allocator.live@[j].memory,
    ensures
        end_of(allocator.live@[i]) <= allocator.live@[j].offset || end_of(allocator.live@[j])
            <= allocator.live@[i].offset,
{
    assert(!overlap(allocator.live@[i], allocator.live@[j]));
}

/// A region in use is in the ledger once, so once it is taken out it is
/// not in use any more and cannot be freed again.
pub proof fn lemma_live_once(allocator: RendererAllocator, allocation: Allocation)
    requires
        allocator.wf(),
        allocator.is_live(allocation),
    ensures
        !allocator.live@.remove(allocator.live@.index_of(allocation)).contains(allocation),
{
    let live = allocator.live@;
    let i = live.index_of(allocation);
    assert(live[i] == allocation);
    let rest = live.remove(i);
    if rest.contains(allocation) {
        let k = rest.index_of(allocation);
        assert(rest[k] == allocation);
        let from = if k < i { k } else { k + 1 };
        assert(rest[k] == live[from]);
        assert(is_region(live[i]));
        assert(overlap(live[from], live[i]));
    }
}

/// The bytes of one block that are in use.
pub open spec fn bytes_in_use(live: Seq<Allocation>, memory: u64) -> int
    decreases live.len(),
{
    if live.len() == 0 {
        0
    } else {
        bytes_in_use(live.drop_last(), memory) + if live.last().memory == memory {
            live.last().size as int
        } else {
            0
        }
    }
}

/// Taking one region out takes its bytes out of its block and leaves the
/// other blocks as they were.
pub proof fn lemma_bytes_without(live: Seq<Allocation>, memory: u64, i: int)
    requires
        0 <= i < live.len(),
    ensures
        bytes_in_use(live, memory) == bytes_in_use(live.remove(i), memory) + if live[i].memory == memory {
            live[i].size as int
        } else {
            0
        },
    decreases live.len(),
{
    if i == live.len() - 1 {
        assert(live.remove(i) =~= live.drop_last());
    } else {
        lemma_bytes_without(live.drop_last(), memory, i);
        assert(live.remove(i).drop_last() =~= live.drop_last().remove(i));
        assert(live.remove(i).last() == live.last());
    }
}

/// Among the regions of a block that has any, one ends last.
proof fn lemma_last_end(live: Seq<Allocation>, memory: u64) -> (m: int)
    requires
        exists|i: int| 0 <= i < live.len() && (#[trigger] live[i]).memory == memory,
    ensures
        0 <= m < live.len(),
        live[m].memory == memory,
        forall|i: int|
            0 <= i < live.len() && (#[trigger] live[i]).memory == memory ==> end_of(live[i]) <= end_of(
                live[m],
            ),
    decreases live.len(),
{
    let front = live.drop_last();
    let n = live.len() - 1;
    if exists|i: int| 0 <= i < front.len() && (#[trigger] front[i]).memory == memory {
        let before = lemma_last_end(front, memory);
        assert(front[before] == live[before]);
        let m = if live[n].memory == memory && end_of(live[n]) > end_of(live[before]) {
            n
        } else {
            before
        };
        assert forall|i: int| 0 <= i < live.len() && (#[trigger] live[i]).memory == memory implies end_of(
            live[i],
        ) <= end_of(live[m]) by {
            if i < n {
                assert(front[i] == live[i]);
            }
        }
        m
    } else {
        let w = choose|i: int| 0 <= i < live.len() && (#[trigger] live[i]).memory == memory;
        if w < n {
            assert(front[w] == live[w]);
        }
        assert forall|i: int| 0 <= i < live.len() && (#[trigger] live[i]).memory == memory implies end_of(
            live[i],
        ) <= end_of(live[n]) by {
            if i < n {
                assert(front[i] == live[i]);
            }
        }
        n
    }
}

/// The regions in use in a block never take more bytes together than the
/// block has: where no two regions overlap and each ends within the first
/// `capacity` bytes of its block, their sizes add up to `capacity` at most.
pub proof fn lemma_in_use_within_capacity(live: Seq<Allocation>, memory: u64, capacity: int)
    requires
        disjoint(live),
        0 <= capacity,
        forall|i: int|
            0 <= i < live.len() && (#[trigger] live[i]).memory == memory ==> end_of(live[i]) <= capacity,
    ensures
        0 <= bytes_in_use(live, memory) <= capacity,
    decreases live.len(),
{
    if exists|i: int| 0 <= i < live.len() && (#[trigger] live[i]).memory == memory {
        let m = lemma_last_end(live, memory);
        let rest = live.remove(m);
        let below = live[m].offset as int;
        assert(is_region(live[m]));
        assert forall|k: int| 0 <= k < rest.len() implies is_region(#[trigger] rest[k]) by {
            let from = if k < m { k } else { k + 1 };
            assert(rest[k] == live[from]);
        }
        assert forall|a: int, b: int| 0 <= a < rest.len() && 0 <= b < rest.len() && a != b implies !overlap(
            #[trigger] rest[a],
            #[trigger] rest[b],
        ) by {
            let fa = if a < m { a } else { a + 1 };
            let fb = if b < m { b } else { b + 1 };
            assert(rest[a] == live[fa] && rest[b] == live[fb]);
        }
        assert forall|k: int| 0 <= k < rest.len() && (#[trigger] rest[k]).memory == memory implies end_of(
            rest[k],
        ) <= below by {
            let from = if k < m { k } else { k + 1 };
            assert(rest[k] == live[from]);
            assert(is_region(live[from]));
            assert(!overlap(live[from], live[m]));
            assert(end_of(live[from]) <= end_of(live[m]));
        }
        lemma_in_use_within_capacity(rest, memory, below);
        lemma_bytes_without(live, memory, m);
    } else {
        lemma_unused_block(live, memory);
    }
}

/// A block without regions has no bytes in use.
proof fn lemma_unused_block(live: Seq<Allocation>, memory: u64)
    requires
        forall|i: int| 0 <= i < live.len() ==> (#[trigger] live[i]).memory != memory,
    ensures
        bytes_in_use(live, memory) == 0,
    decreases live.len(),
{
    if live.len() > 0 {
        let front = live.drop_last();
        assert forall|i: int| 0 <= i < front.len() implies (#[trigger] front[i]).memory != memory by {
            assert(front[i] == live[i]);
        }
        lemma_unused_block(front, memory);
    }
}

} // verus!
