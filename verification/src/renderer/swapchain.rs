//! The presentable image chain and the frame pacer.
use vstd::prelude::*;
use crate::renderer::lifecycle::{
    destroy_all, in_stage_order, lemma_destroy_all_stage, lemma_join_in_stage_order, push_destroy_all,
    stage, DestroyStep, Resource,
};

verus! {

/// Width and height in pixels.
#[derive(Clone, Copy, Debug, PartialEq, Eq, Structural)]
pub struct Extent2D {
    pub width: u32,
    pub height: u32,
}

/// What the surface reports of itself, as far as the swapchain needs it.
#[derive(Clone, Copy, Debug, PartialEq, Eq, Structural)]
pub struct SurfaceCapabilities {
    pub min_image_count: u32,
    pub max_image_count: u32,
    pub current_extent: Extent2D,
    /// Raw transform flag bits, handed through unchanged.
    pub current_transform: u32,
}

/// The number of images asked for: at least three, at least what the surface
/// needs, and then no more than the surface allows.
pub open spec fn spec_image_count(min: u32, max: u32) -> u32 {
    let wanted = if min > 3 { min } else { 3u32 };
    if wanted < max { wanted } else { max }
}

pub fn image_count(capabilities: &SurfaceCapabilities) -> (count: u32)
    ensures
        count == spec_image_count(capabilities.min_image_count, capabilities.max_image_count),
{
    let wanted: u32 = if capabilities.min_image_count > 3 { capabilities.min_image_count } else { 3 };
    if wanted < capabilities.max_image_count { wanted } else { capabilities.max_image_count }
}

/// A pixel format and colour space that the surface supports, both as raw
/// values, handed through unchanged.
#[derive(Clone, Copy, Debug, PartialEq, Eq, Structural)]
pub struct SurfaceFormat {
    pub format: i32,
    pub color_space: i32,
}

#[derive(Clone, Copy, Debug, PartialEq, Eq, Structural)]
pub enum ImageUsage {
    ColorAttachment,
    TransferSrc,
    TransferDst,
    Sampled,
}

#[derive(Clone, Copy, Debug, PartialEq, Eq, Structural)]
pub enum SharingMode {
    Exclusive,
    Concurrent,
}

#[derive(Clone, Copy, Debug, PartialEq, Eq, Structural)]
pub enum CompositeAlpha {
    Opaque,
    PreMultiplied,
    PostMultiplied,
    Inherit,
}

#[derive(Clone, Copy, Debug, PartialEq, Eq, Structural)]
pub enum PresentMode {
    Immediate,
    Mailbox,
    /// Locked to the display's refresh.
    Fifo,
    FifoRelaxed,
}

/// Everything needed to create the swapchain.
#[derive(Clone, Copy, Debug, PartialEq, Eq, Structural)]
pub struct SwapchainInfo {
    pub surface: u64,
    pub min_image_count: u32,
    pub image_format: i32,
    pub image_color_space: i32,
    pub image_extent: Extent2D,
    pub image_array_layers: u32,
    pub image_usage: ImageUsage,
    pub image_sharing_mode: SharingMode,
    /// The one queue family that uses the images.
    pub queue_family_index: u32,
    pub pre_transform: u32,
    pub composite_alpha: CompositeAlpha,
    pub present_mode: PresentMode,
}

/// The swapchain for a surface: as many images as [`spec_image_count`] says,
/// in the surface's format and current extent, one layer, drawn to as colour
/// attachments by one queue family alone, presented opaque and in step with
/// the display.
pub open spec fn spec_swapchain_info(
    surface: u64,
    capabilities: SurfaceCapabilities,
    format: SurfaceFormat,
    queue_family_index: u32,
) -> SwapchainInfo {
    SwapchainInfo {
        surface,
        min_image_count: spec_image_count(capabilities.min_image_count, capabilities.max_image_count),
        image_format: format.format,
        image_color_space: format.color_space,
        image_extent: capabilities.current_extent,
        image_array_layers: 1,
        image_usage: ImageUsage::ColorAttachment,
        image_sharing_mode: SharingMode::Exclusive,
        queue_family_index,
        pre_transform: capabilities.current_transform,
        composite_alpha: CompositeAlpha::Opaque,
        present_mode: PresentMode::Fifo,
    }
}

/// The raw value of the format with 8-bit blue, green, red and alpha, unsigned normalised.
pub const FORMAT_B8G8R8A8_UNORM: i32 = 44;

/// Everything needed to create the view of one swapchain image: a
/// two-dimensional colour view of its one mip level and one layer.
#[derive(Clone, Copy, Debug, PartialEq, Eq, Structural)]
pub struct ImageViewInfo {
    pub image: u64,
    /// 2 for a two-dimensional view.
    pub dimensions: u32,
    pub format: i32,
    pub color_aspect: bool,
    pub base_mip_level: u32,
    pub level_count: u32,
    pub base_array_layer: u32,
    pub layer_count: u32,
}

pub open spec fn spec_image_view_info(image: u64) -> ImageViewInfo {
    ImageViewInfo {
        image,
        dimensions: 2,
        format: 44,
        color_aspect: true,
        base_mip_level: 0,
        level_count: 1,
        base_array_layer: 0,
        layer_count: 1,
    }
}

/// Everything needed to create the framebuffer of one image view.
#[derive(Clone, Copy, Debug, PartialEq, Eq, Structural)]
pub struct FramebufferInfo {
    pub render_pass: u64,
    /// The one attachment.
    pub image_view: u64,
    pub width: u32,
    pub height: u32,
    pub layers: u32,
}

pub open spec fn spec_framebuffer_info(render_pass: u64, image_view: u64, extent: Extent2D) -> FramebufferInfo {
    FramebufferInfo { render_pass, image_view, width: extent.width, height: extent.height, layers: 1 }
}

/// The frame-sync objects to create for a swapchain.
#[derive(Clone, Copy, Debug, PartialEq, Eq, Structural)]
pub struct FrameSyncInfo {
    /// The number of slots: of each kind of sync object, this many.
    pub slots: usize,
    /// The fences are created signalled, so that the first frame of each
    /// slot does not wait for a frame that never was.
    pub fences_signaled: bool,
}

/// Why a swapchain record could not be made or completed.
#[derive(Clone, Copy, Debug, PartialEq, Eq, Structural)]
pub enum SwapchainError {
    /// There is no frame-sync slot at all.
    NoFrameSync,
    /// The three kinds of sync object do not come in equal numbers.
    FrameSyncMismatch,
    /// There is not one framebuffer for each image view.
    FramebufferCount,
}

/// The swapchain with its views and framebuffers, and the frame pacer.
///
/// The sync objects come in slots: slot `i` is `image_available[i]`,
/// `rendering_finished[i]` and `may_begin_drawing[i]`. `current_image` is the
/// slot in use. It is not the index of a swapchain image: that one is
/// whatever acquiring an image returns.
pub struct RendererSwapchain {
    pub swapchain: u64,
    pub image_views: Vec<u64>,
    pub framebuffers: Vec<u64>,
    pub extent: Extent2D,
    /// Semaphores, signalled when an acquired image is ready to be drawn to.
    pub image_available: Vec<u64>,
    /// Semaphores, signalled when drawing is done and the image can be presented.
    pub rendering_finished: Vec<u64>,
    /// Fences, signalled when the device is done with the slot's last submission.
    pub may_begin_drawing: Vec<u64>,
    pub current_image: usize,
}

impl RendererSwapchain {
    /// The number of frame-sync slots.
    pub open spec fn frame_sync_count(&self) -> int {
        self.may_begin_drawing@.len() as int
    }

    /// The slots are complete, there is at least one, the pacer points at
    /// one of them, and the framebuffers are either not created yet or one
    /// for each image view.
    pub open spec fn wf(&self) -> bool {
        &&& self.may_begin_drawing@.len() > 0
        &&& self.image_available@.len() == self.may_begin_drawing@.len()
        &&& self.rendering_finished@.len() == self.may_begin_drawing@.len()
        &&& self.current_image < self.may_begin_drawing@.len()
        &&& (self.framebuffers@.len() == 0 || self.framebuffers@.len() == self.image_views@.len())
    }

    pub fn is_well_formed(&self) -> (ok: bool)
        ensures
            ok == self.wf(),
    {
        self.may_begin_drawing.len() > 0 && self.image_available.len()
            == self.may_begin_drawing.len() && self.rendering_finished.len()
            == self.may_begin_drawing.len() && self.current_image < self.may_begin_drawing.len() && (
        self.framebuffers.len() == 0 || self.framebuffers.len() == self.image_views.len())
    }

    /// Describes the swapchain to create.
    pub fn create_swapchain(
        surface: u64,
        capabilities: &SurfaceCapabilities,
        format: &SurfaceFormat,
        queue_family_index: u32,
    ) -> (info: SwapchainInfo)
        ensures
            info == spec_swapchain_info(surface, *capabilities, *format, queue_family_index),
    {
        SwapchainInfo {
            surface,
            min_image_count: image_count(capabilities),
            image_format: format.format,
            image_color_space: format.color_space,
            image_extent: capabilities.current_extent,
            image_array_layers: 1,
            image_usage: ImageUsage::ColorAttachment,
            image_sharing_mode: SharingMode::Exclusive,
            queue_family_index,
            pre_transform: capabilities.current_transform,
            composite_alpha: CompositeAlpha::Opaque,
            present_mode: PresentMode::Fifo,
        }
    }

    /// Describes the frame-sync objects to create: one slot for each
    /// swapchain image, so that as many frames can be under way as there
    /// are images.
    pub fn frame_sync_info(image_count: usize) -> (info: FrameSyncInfo)
        ensures
            info == (FrameSyncInfo { slots: image_count, fences_signaled: true }),
    {
        FrameSyncInfo { slots: image_count, fences_signaled: true }
    }

    /// Describes the view to create of each swapchain image, in their order.
    pub fn create_image_views(images: &Vec<u64>) -> (infos: Vec<ImageViewInfo>)
        ensures
            infos@ == images@.map_values(|image: u64| spec_image_view_info(image)),
    {
        let mut infos: Vec<ImageViewInfo> = Vec::with_capacity(images.len());
        let mut i: usize = 0;
        while i < images.len()
            invariant
                i <= images.len(),
                infos@.len() == i,
                forall|k: int| 0 <= k < i ==> infos@[k] == spec_image_view_info(images@[k]),
            decreases images.len() - i,
        {
            infos.push(
                ImageViewInfo {
                    image: images[i],
                    dimensions: 2,
                    format: FORMAT_B8G8R8A8_UNORM,
                    color_aspect: true,
                    base_mip_level: 0,
                    level_count: 1,
                    base_array_layer: 0,
                    layer_count: 1,
                },
            );
            i += 1;
        }
        assert(infos@ =~= images@.map_values(|image: u64| spec_image_view_info(image)));
        infos
    }

    /// Takes the created swapchain, the views of its images and the frame-sync
    /// objects. The pacer starts at slot 0; there are no framebuffers yet.
    pub fn new(
        swapchain: u64,
        image_views: Vec<u64>,
        extent: Extent2D,
        image_available: Vec<u64>,
        rendering_finished: Vec<u64>,
        may_begin_drawing: Vec<u64>,
    ) -> (made: Result<RendererSwapchain, SwapchainError>)
        ensures
            may_begin_drawing@.len() == 0 ==> made == Err::<RendererSwapchain, SwapchainError>(
                SwapchainError::NoFrameSync,
            ),
            may_begin_drawing@.len() > 0 && (image_available@.len() != may_begin_drawing@.len()
                || rendering_finished@.len() != may_begin_drawing@.len()) ==> made == Err::<
                RendererSwapchain,
                SwapchainError,
            >(SwapchainError::FrameSyncMismatch),
            may_begin_drawing@.len() > 0 && image_available@.len() == may_begin_drawing@.len()
                && rendering_finished@.len() == may_begin_drawing@.len() ==> made is Ok && made->Ok_0.wf()
                && made->Ok_0 == (RendererSwapchain {
                swapchain,
                image_views,
                framebuffers: made->Ok_0.framebuffers,
                extent,
                image_available,
                rendering_finished,
                may_begin_drawing,
                current_image: 0,
            }) && made->Ok_0.framebuffers@.len() == 0,
    {
        if may_begin_drawing.len() == 0 {
            return Err(SwapchainError::NoFrameSync);
        }
        if image_available.len() != may_begin_drawing.len() || rendering_finished.len()
            != may_begin_drawing.len() {
            return Err(SwapchainError::FrameSyncMismatch);
        }
        Ok(
            RendererSwapchain {
                swapchain,
                image_views,
                framebuffers: Vec::new(),
                extent,
                image_available,
                rendering_finished,
                may_begin_drawing,
                current_image: 0,
            },
        )
    }

    /// Describes the framebuffer to create for each image view, in their order.
    pub fn framebuffer_infos(&self, render_pass: u64) -> (infos: Vec<FramebufferInfo>)
        ensures
            infos@ == self.image_views@.map_values(
                |view: u64| spec_framebuffer_info(render_pass, view, self.extent),
            ),
    {
        let mut infos: Vec<FramebufferInfo> = Vec::new();
        let mut i: usize = 0;
        while i < self.image_views.len()
            invariant
                i <= self.image_views.len(),
                infos@.len() == i,
                forall|k: int|
                    0 <= k < i ==> infos@[k] == spec_framebuffer_info(
                        render_pass,
                        self.image_views@[k],
                        self.extent,
                    ),
            decreases self.image_views.len() - i,
        {
            infos.push(
                FramebufferInfo {
                    render_pass,
                    image_view: self.image_views[i],
                    width: self.extent.width,
                    height: self.extent.height,
                    layers: 1,
                },
            );
            i += 1;
        }
        assert(infos@ =~= self.image_views@.map_values(
            |view: u64| spec_framebuffer_info(render_pass, view, self.extent),
        ));
        infos
    }

    /// Installs the created framebuffers, one for each image view and in
    /// their order. Any other number is refused and changes nothing.
    pub fn create_framebuffers(&mut self, framebuffers: Vec<u64>) -> (done: Result<(), SwapchainError>)
        requires
            old(self).wf(),
        ensures
            final(self).wf(),
            framebuffers@.len() == old(self).image_views@.len() ==> done is Ok && *final(self) == (
            RendererSwapchain { framebuffers, ..*old(self) }),
            framebuffers@.len() != old(self).image_views@.len() ==> done == Err::<(), SwapchainError>(
                SwapchainError::FramebufferCount,
            ) && *final(self) == *old(self),
    {
        if framebuffers.len() != self.image_views.len() {
            return Err(SwapchainError::FramebufferCount);
        }
        self.framebuffers = framebuffers;
        Ok(())
    }

    /// The slot after `current` of `count` slots, the first after the last.
    pub open spec fn next_slot(current: int, count: int) -> int {
        (current + 1) % count
    }

    /// Moves the pacer to the next slot and changes nothing else.
    pub fn bump_current_image(&mut self)
        requires
            old(self).wf(),
        ensures
            final(self).wf(),
            final(self).current_image == Self::next_slot(
                old(self).current_image as int,
                old(self).frame_sync_count(),
            ),
            *final(self) == (RendererSwapchain { current_image: final(self).current_image, ..*old(self) }),
    {
        let count = self.may_begin_drawing.len();
        if self.current_image + 1 == count {
            proof {
                vstd::arithmetic::div_mod::lemma_mod_self_0(count as int);
            }
            self.current_image = 0;
        } else {
            proof {
                vstd::arithmetic::div_mod::lemma_small_mod((self.current_image + 1) as nat, count as nat);
            }
            self.current_image = self.current_image + 1;
        }
    }

    /// The sync objects first (fences, then the two kinds of semaphore),
    /// then the framebuffers, the image views, and the swapchain last.
    pub open spec fn spec_cleanup(&self) -> Seq<DestroyStep> {
        destroy_all(Resource::Fence, self.may_begin_drawing@) + destroy_all(
            Resource::Semaphore,
            self.image_available@,
        ) + destroy_all(Resource::Semaphore, self.rendering_finished@) + destroy_all(
            Resource::Framebuffer,
            self.framebuffers@,
        ) + destroy_all(Resource::ImageView, self.image_views@) + seq![
            DestroyStep::Destroy(Resource::Swapchain, self.swapchain),
        ]
    }

    /// The steps that destroy everything the swapchain owns. They are to be
    /// performed only once the device is idle.
    pub fn cleanup(&self) -> (steps: Vec<DestroyStep>)
        ensures
            steps@ == self.spec_cleanup(),
    {
        let mut steps: Vec<DestroyStep> = Vec::new();
        assert(steps@ =~= Seq::<DestroyStep>::empty());
        push_destroy_all(&mut steps, Resource::Fence, &self.may_begin_drawing);
        assert(steps@ =~= destroy_all(Resource::Fence, self.may_begin_drawing@));
        push_destroy_all(&mut steps, Resource::Semaphore, &self.image_available);
        push_destroy_all(&mut steps, Resource::Semaphore, &self.rendering_finished);
        push_destroy_all(&mut steps, Resource::Framebuffer, &self.framebuffers);
        push_destroy_all(&mut steps, Resource::ImageView, &self.image_views);
        steps.push(DestroyStep::Destroy(Resource::Swapchain, self.swapchain));
        assert(steps@ =~= self.spec_cleanup());
        steps
    }

    /// The swapchain's own shutdown never destroys a parent before its
    /// child: framebuffers go before image views, image views before the
    /// swapchain. All of it lies between the stages of fences and swapchain.
    pub proof fn lemma_cleanup_in_stage_order(&self)
        ensures
            in_stage_order(self.spec_cleanup()),
            forall|i: int|
                0 <= i < self.spec_cleanup().len() ==> 8 <= stage(#[trigger] self.spec_cleanup()[i]) <= 12,
    {
        let a = destroy_all(Resource::Fence, self.may_begin_drawing@);
        let b = destroy_all(Resource::Semaphore, self.image_available@);
        let c = destroy_all(Resource::Semaphore, self.rendering_finished@);
        let d = destroy_all(Resource::Framebuffer, self.framebuffers@);
        let e = destroy_all(Resource::ImageView, self.image_views@);
        let f = seq![DestroyStep::Destroy(Resource::Swapchain, self.swapchain)];
        lemma_destroy_all_stage(Resource::Fence, self.may_begin_drawing@);
        lemma_destroy_all_stage(Resource::Semaphore, self.image_available@);
        lemma_destroy_all_stage(Resource::Semaphore, self.rendering_finished@);
        lemma_destroy_all_stage(Resource::Framebuffer, self.framebuffers@);
        lemma_destroy_all_stage(Resource::ImageView, self.image_views@);
        lemma_join_in_stage_order(a, b, 8);
        lemma_join_in_stage_order(a + b, c, 9);
        lemma_join_in_stage_order(a + b + c, d, 9);
        lemma_join_in_stage_order(a + b + c + d, e, 10);
        lemma_join_in_stage_order(a + b + c + d + e, f, 11);
    }
}

/// The slot that the pacer is at after `ticks` steps from `start`.
pub open spec fn slot_after(start: int, count: int, ticks: nat) -> int
    decreases ticks,
{
    if ticks == 0 {
        start
    } else {
        RendererSwapchain::next_slot(slot_after(start, count, (ticks - 1) as nat), count)
    }
}

/// After `ticks` steps from slot 0 the pacer is at slot `ticks` modulo the
/// number of slots; from another slot, that much further round.
pub proof fn lemma_slot_after(start: int, count: int, ticks: nat)
    requires
        count > 0,
        0 <= start < count,
    ensures
        slot_after(start, count, ticks) == (start + ticks) % count,
        start == 0 ==> slot_after(start, count, ticks) == ticks as int % count,
    decreases ticks,
{
    if ticks == 0 {
        assert(start % count == start) by (nonlinear_arith)
            requires
                0 <= start < count,
        ;
    } else {
        lemma_slot_after(start, count, (ticks - 1) as nat);
        let before = start + ticks - 1;
        assert(((before % count) + 1) % count == (before + 1) % count) by (nonlinear_arith)
            requires
                count > 0,
                before >= 0,
        ;
    }
}

} // verus!
