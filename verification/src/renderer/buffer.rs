//! A buffer and the memory bound to it.
use vstd::prelude::*;
use crate::renderer::allocator::{Allocation, AllocatorError, RendererAllocator};
use crate::renderer::lifecycle::{DestroyStep, Resource};

verus! {

/// A buffer handle and the region of device memory bound to it. Without a
/// region the buffer is not bound yet, or its memory is managed elsewhere.
#[derive(Clone, Copy, Debug, PartialEq, Eq, Structural)]
pub struct AllocatedBuffer {
    pub buffer: u64,
    pub allocation: Option<Allocation>,
}

/// What [`AllocatedBuffer::cleanup`] hands out.
pub struct BufferCleanup {
    /// The steps to perform, in this order.
    pub steps: Vec<DestroyStep>,
    /// Whether the allocator took the region back.
    pub freed: Result<(), AllocatorError>,
}

impl AllocatedBuffer {
    /// The step that hands the buffer's region back.
    pub open spec fn free_step(allocation: Allocation) -> DestroyStep {
        DestroyStep::FreeAllocation(allocation.memory, allocation.offset)
    }

    pub open spec fn destroy_step(&self) -> DestroyStep {
        DestroyStep::Destroy(Resource::Buffer, self.buffer)
    }

    /// What cleaning up `buffer` does to the allocator and hands out: the
    /// buffer handle is destroyed in any case; its region is freed if there
    /// is one and the allocator has it in use.
    pub open spec fn cleaned(
        buffer: AllocatedBuffer,
        before: RendererAllocator,
        after: RendererAllocator,
        cleanup: BufferCleanup,
    ) -> bool {
        &&& after.released == before.released
        &&& match buffer.allocation {
            None => cleanup.freed is Ok && cleanup.steps@ == seq![buffer.destroy_step()] && after.live@
                == before.live@,
            Some(allocation) => if !before.released && before.is_live(allocation) {
                &&& cleanup.freed is Ok
                &&& cleanup.steps@ == seq![buffer.destroy_step(), Self::free_step(allocation)]
                &&& after.live@ == before.live@.remove(before.live@.index_of(allocation))
                &&& !after.is_live(allocation)
            } else {
                &&& cleanup.freed == Err::<(), AllocatorError>(
                    if before.released {
                        AllocatorError::Released
                    } else {
                        AllocatorError::NotLive
                    },
                )
                &&& cleanup.steps@ == seq![buffer.destroy_step()]
                &&& after.live@ == before.live@
            },
        }
    }

    /// Destroys the buffer and then frees its region, which the buffer
    /// gives up for good.
    pub fn cleanup(&mut self, allocator: &mut RendererAllocator) -> (cleanup: BufferCleanup)
        requires
            old(allocator).wf(),
        ensures
            final(allocator).wf(),
            final(self).buffer == old(self).buffer,
            final(self).allocation is None,
            Self::cleaned(*old(self), *old(allocator), *final(allocator), cleanup),
    {
        let mut steps: Vec<DestroyStep> = Vec::new();
        steps.push(DestroyStep::Destroy(Resource::Buffer, self.buffer));
        let taken = self.allocation;
        self.allocation = None;
        match taken {
            None => {
                assert(steps@ =~= seq![old(self).destroy_step()]);
                BufferCleanup { steps, freed: Ok(()) }
            },
            Some(allocation) => {
                let freed = allocator.free(allocation);
                if freed.is_ok() {
                    steps.push(DestroyStep::FreeAllocation(allocation.memory, allocation.offset));
                    assert(steps@ =~= seq![old(self).destroy_step(), Self::free_step(allocation)]);
                } else {
                    assert(steps@ =~= seq![old(self).destroy_step()]);
                }
                BufferCleanup { steps, freed }
            },
        }
    }
}

} // verus!
