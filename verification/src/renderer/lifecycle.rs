//! What is destroyed at shutdown, and in which order.
use vstd::prelude::*;

verus! {

/// A kind of object that is destroyed through its raw handle.
#[derive(Clone, Copy, Debug, PartialEq, Eq, Structural)]
pub enum Resource {
    ShaderModule,
    Buffer,
    /// Destroying the pool frees the command buffers allocated from it.
    CommandPool,
    Pipeline,
    PipelineLayout,
    Fence,
    Semaphore,
    Framebuffer,
    ImageView,
    Swapchain,
    RenderPass,
    Surface,
    Device,
    DebugMessenger,
    Instance,
}

/// One step of a shutdown sequence.
#[derive(Clone, Copy, Debug, PartialEq, Eq, Structural)]
pub enum DestroyStep {
    /// Block until the device has finished all submitted work.
    WaitIdle,
    /// Destroy the object of the given kind with the given raw handle.
    Destroy(Resource, u64),
    /// Hand a region back to the memory allocator: the memory block and the
    /// offset in it.
    FreeAllocation(u64, u64),
    /// Release the memory allocator's own state.
    ReleaseAllocator,
}

/// The stage of shutdown at which objects of a kind are destroyed.
pub open spec fn resource_stage(resource: Resource) -> int {
    match resource {
        Resource::ShaderModule => 1,
        Resource::Buffer => 2,
        Resource::CommandPool => 5,
        Resource::Pipeline => 6,
        Resource::PipelineLayout => 7,
        Resource::Fence => 8,
        Resource::Semaphore => 9,
        Resource::Framebuffer => 10,
        Resource::ImageView => 11,
        Resource::Swapchain => 12,
        Resource::RenderPass => 13,
        Resource::Surface => 14,
        Resource::Device => 15,
        Resource::DebugMessenger => 16,
        Resource::Instance => 17,
    }
}

/// The stage of shutdown a step belongs to. A step of a lower stage is
/// performed before every step of a higher one.
pub open spec fn stage(step: DestroyStep) -> int {
    match step {
        DestroyStep::WaitIdle => 0,
        DestroyStep::Destroy(resource, _) => resource_stage(resource),
        DestroyStep::FreeAllocation(_, _) => 3,
        DestroyStep::ReleaseAllocator => 4,
    }
}

/// An object of kind `child` is created through one of kind `parent`, or
/// refers to one, so the child has to go first.
pub open spec fn made_from(child: Resource, parent: Resource) -> bool {
    match parent {
        Resource::Instance => child != Resource::Instance,
        Resource::Device => resource_stage(child) <= 13,
        Resource::Surface => child == Resource::Swapchain,
        Resource::RenderPass => child == Resource::Framebuffer || child == Resource::Pipeline,
        Resource::Swapchain => child == Resource::ImageView || child == Resource::Framebuffer,
        Resource::ImageView => child == Resource::Framebuffer,
        Resource::PipelineLayout => child == Resource::Pipeline,
        _ => false,
    }
}

/// The step `child` has to be performed before the step `parent`.
pub open spec fn created_through(child: DestroyStep, parent: DestroyStep) -> bool {
    match (child, parent) {
        (DestroyStep::WaitIdle, _) => parent != DestroyStep::WaitIdle,
        (DestroyStep::Destroy(c, _), DestroyStep::Destroy(p, _)) => made_from(c, p),
        (DestroyStep::Destroy(c, _), DestroyStep::FreeAllocation(_, _)) => c == Resource::Buffer,
        (DestroyStep::Destroy(c, _), DestroyStep::ReleaseAllocator) => c == Resource::Buffer,
        (DestroyStep::FreeAllocation(_, _), DestroyStep::ReleaseAllocator) => true,
        (DestroyStep::FreeAllocation(_, _), DestroyStep::Destroy(p, _)) => {
            p == Resource::Device || p == Resource::Instance
        },
        (DestroyStep::ReleaseAllocator, DestroyStep::Destroy(p, _)) => {
            p == Resource::Device || p == Resource::Instance
        },
        _ => false,
    }
}

/// A sequence of steps that never goes back to an earlier stage.
pub open spec fn in_stage_order(steps: Seq<DestroyStep>) -> bool {
    forall|i: int, j: int| 0 <= i < j < steps.len() ==> stage(#[trigger] steps[i]) <= stage(#[trigger] steps[j])
}

/// A step that has to come before another belongs to a strictly earlier stage.
pub proof fn lemma_child_stage_is_earlier(child: DestroyStep, parent: DestroyStep)
    requires
        created_through(child, parent),
    ensures
        stage(child) < stage(parent),
{
}

/// In a sequence in stage order no child is destroyed after its parent:
/// wherever both occur, the child comes first.
pub proof fn lemma_children_before_parents(steps: Seq<DestroyStep>, c: int, p: int)
    requires
        in_stage_order(steps),
        0 <= c < steps.len(),
        0 <= p < steps.len(),
        created_through(steps[c], steps[p]),
    ensures
        c < p,
{
    lemma_child_stage_is_earlier(steps[c], steps[p]);
}

/// Two sequences in stage order, the first ending no later than the second
/// begins, are in stage order when joined.
pub proof fn lemma_join_in_stage_order(a: Seq<DestroyStep>, b: Seq<DestroyStep>, bound: int)
    requires
        in_stage_order(a),
        in_stage_order(b),
        forall|i: int| 0 <= i < a.len() ==> stage(#[trigger] a[i]) <= bound,
        forall|j: int| 0 <= j < b.len() ==> bound <= stage(#[trigger] b[j]),
    ensures
        in_stage_order(a + b),
{
    let s = a + b;
    assert forall|i: int, j: int| 0 <= i < j < s.len() implies stage(#[trigger] s[i]) <= stage(#[trigger] s[j]) by {
        if j < a.len() {
            assert(s[i] == a[i] && s[j] == a[j]);
        } else if i >= a.len() {
            assert(s[i] == b[i - a.len()] && s[j] == b[j - a.len()]);
        } else {
            assert(s[i] == a[i] && s[j] == b[j - a.len()]);
        }
    }
}


/// The steps that destroy the given objects of one kind, in their order.
pub open spec fn destroy_all(resource: Resource, handles: Seq<u64>) -> Seq<DestroyStep> {
    handles.map_values(|handle: u64| DestroyStep::Destroy(resource, handle))
}

/// Appends to `steps` the steps that destroy the given objects of one kind.
pub fn push_destroy_all(steps: &mut Vec<DestroyStep>, resource: Resource, handles: &Vec<u64>)
    ensures
        final(steps)@ == old(steps)@ + destroy_all(resource, handles@),
{
    let mut i: usize = 0;
    while i < handles.len()
        invariant
            i <= handles.len(),
            steps@ == old(steps)@ + destroy_all(resource, handles@.take(i as int)),
        decreases handles.len() - i,
    {
        steps.push(DestroyStep::Destroy(resource, handles[i]));
        i += 1;
        assert(destroy_all(resource, handles@.take(i as int)) =~= destroy_all(
            resource,
            handles@.take(i - 1),
        ).push(DestroyStep::Destroy(resource, handles@[i - 1])));
    }
    assert(handles@.take(handles.len() as int) == handles@);
}

/// Steps of one stage are in stage order, whatever their number.
pub proof fn lemma_destroy_all_stage(resource: Resource, handles: Seq<u64>)
    ensures
        in_stage_order(destroy_all(resource, handles)),
        forall|i: int|
            0 <= i < handles.len() ==> stage(#[trigger] destroy_all(resource, handles)[i])
                == resource_stage(resource),
{
}

} // verus!
