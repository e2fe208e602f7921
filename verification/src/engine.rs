//! The frame loop: what to do next, given what just happened.
//!
//! The engine never talks to the device. Its caller does: it performs the
//! action that [`Engine::step`] hands out and comes back with the event
//! that followed. One frame is five such steps: acquire an image, wait for
//! the fence of the frame-sync slot, submit, present, done.
use vstd::prelude::*;
use crate::renderer::device::DeviceError;
use crate::renderer::lifecycle::{in_stage_order, DestroyStep};
use crate::renderer::swapchain::RendererSwapchain;
use crate::renderer::{PipelineStage, VulkanRenderer};

verus! {

/// Where the frame loop stands.
#[derive(Clone, Copy, Debug, PartialEq, Eq, Structural)]
pub enum FrameState {
    /// Between frames.
    Idle,
    /// Waiting for the swapchain to hand out an image.
    Acquiring,
    /// Waiting for the device to be done with the slot's last frame.
    WaitingForFence { image_index: u32 },
    Submitting { image_index: u32 },
    Presenting { image_index: u32 },
    /// The loop has ended; what is left is the shutdown.
    Stopped,
}

/// What happened outside.
#[derive(Clone, Copy, Debug, PartialEq, Eq, Structural)]
pub enum FrameEvent {
    /// The window wants a frame.
    RedrawRequested,
    /// The swapchain handed out the image with this index.
    ImageAcquired { image_index: u32 },
    /// The fence was signalled and has been reset.
    FenceSignaled,
    Submitted,
    Presented,
    /// The window is to be closed.
    CloseRequested,
    /// The surface has changed and the swapchain no longer fits it. A new
    /// swapchain would do; the device is sound.
    SurfaceOutOfDate,
    /// The device failed at what it was asked to do.
    DeviceFailed,
}

/// Why the loop has ended.
#[derive(Clone, Copy, Debug, PartialEq, Eq, Structural)]
pub enum StopReason {
    CloseRequested,
    /// The caller may start again with a new swapchain.
    SurfaceOutOfDate,
    /// Nothing more can be done with this device.
    DeviceFailed,
    /// The swapchain handed out an image that has no command buffer.
    NoCommandBuffer,
}

/// What the caller is to do next.
#[derive(Clone, Copy, Debug, PartialEq, Eq, Structural)]
pub enum FrameAction {
    Nothing,
    /// Acquire the next image; `semaphore` is signalled when it is ready.
    AcquireNextImage { swapchain: u64, timeout: u64, semaphore: u64 },
    /// Wait for the fence, then reset it.
    WaitAndResetFence { fence: u64, timeout: u64 },
    /// Submit the command buffer. Its colour output waits for
    /// `wait_semaphore`; when it is done `signal_semaphore` and `fence` are
    /// signalled.
    Submit {
        queue: u64,
        command_buffer: u64,
        wait_semaphore: u64,
        wait_stage: PipelineStage,
        signal_semaphore: u64,
        fence: u64,
    },
    /// Present the image once `wait_semaphore` is signalled.
    Present { queue: u64, swapchain: u64, image_index: u32, wait_semaphore: u64 },
    /// Leave the loop and perform what [`Engine::shutdown`] hands out.
    Shutdown,
}

pub struct Engine {
    /// The renderer, until it is shut down.
    pub renderer: Option<VulkanRenderer>,
    pub state: FrameState,
    /// The queue that frames are submitted to and presented on.
    pub graphics_queue: u64,
    /// The window is to be closed as soon as the frame under way is done.
    pub close_requested: bool,
    /// Why the loop has ended, once it has.
    pub stopped_by: Option<StopReason>,
}

/// What one step leads to.
pub ghost struct Step {
    pub state: FrameState,
    pub close_requested: bool,
    /// The frame-sync slot in use after the step.
    pub slot: int,
    pub action: FrameAction,
    /// Why the step has ended the loop, if it has.
    pub stopped_by: Option<StopReason>,
}

/// The step that ends the loop.
pub open spec fn stop(close_requested: bool, slot: int, reason: StopReason) -> Step {
    Step {
        state: FrameState::Stopped,
        close_requested,
        slot,
        action: FrameAction::Shutdown,
        stopped_by: Some(reason),
    }
}

/// The image that a frame under way draws to.
pub open spec fn image_of(state: FrameState) -> Option<u32> {
    match state {
        FrameState::WaitingForFence { image_index } => Some(image_index),
        FrameState::Submitting { image_index } => Some(image_index),
        FrameState::Presenting { image_index } => Some(image_index),
        _ => None,
    }
}

/// The step from `state` on `event`, with the renderer's swapchain and
/// command buffers as they are.
///
/// A frame begins by moving on to the next frame-sync slot. All waiting
/// and signalling of the frame goes by the sync objects of that slot; the
/// index of the acquired image only picks the command buffer and is what
/// is presented. A failure of the device ends the loop wherever it
/// stands, and so do a surface that is out of date and an image index
/// for which there is no command buffer; the reason is kept apart. A
/// close request ends the loop between frames; during a frame it is kept
/// until the frame is done. Any other event that a state does not wait
/// for is passed over.
pub open spec fn step_from(
    state: FrameState,
    close_requested: bool,
    queue: u64,
    renderer: VulkanRenderer,
    event: FrameEvent,
) -> Step {
    let chain = renderer.swapchain;
    let slot = chain.current_image as int;
    let stay = Step { state, close_requested, slot, action: FrameAction::Nothing, stopped_by: None };
    match (state, event) {
        (FrameState::Stopped, _) => stay,
        (_, FrameEvent::DeviceFailed) => stop(close_requested, slot, StopReason::DeviceFailed),
        (_, FrameEvent::SurfaceOutOfDate) => stop(close_requested, slot, StopReason::SurfaceOutOfDate),
        (FrameState::Idle, FrameEvent::CloseRequested) => stop(
            close_requested,
            slot,
            StopReason::CloseRequested,
        ),
        (_, FrameEvent::CloseRequested) => Step { close_requested: true, ..stay },
        (FrameState::Idle, FrameEvent::RedrawRequested) => {
            let next = RendererSwapchain::next_slot(slot, chain.frame_sync_count());
            Step {
                state: FrameState::Acquiring,
                close_requested,
                slot: next,
                action: FrameAction::AcquireNextImage {
                    swapchain: chain.swapchain,
                    timeout: u64::MAX,
                    semaphore: chain.image_available@[next],
                },
                stopped_by: None,
            }
        },
        (FrameState::Acquiring, FrameEvent::ImageAcquired { image_index }) => {
            if image_index < renderer.graphics_command_buffers@.len() {
                Step {
                    state: FrameState::WaitingForFence { image_index },
                    close_requested,
                    slot,
                    action: FrameAction::WaitAndResetFence {
                        fence: chain.may_begin_drawing@[slot],
                        timeout: u64::MAX,
                    },
                    stopped_by: None,
                }
            } else {
                stop(close_requested, slot, StopReason::NoCommandBuffer)
            }
        },
        (FrameState::WaitingForFence { image_index }, FrameEvent::FenceSignaled) => Step {
            state: FrameState::Submitting { image_index },
            close_requested,
            slot,
            action: FrameAction::Submit {
                queue,
                command_buffer: renderer.graphics_command_buffers@[image_index as int],
                wait_semaphore: chain.image_available@[slot],
                wait_stage: PipelineStage::ColorAttachmentOutput,
                signal_semaphore: chain.rendering_finished@[slot],
                fence: chain.may_begin_drawing@[slot],
            },
            stopped_by: None,
        },
        (FrameState::Submitting { image_index }, FrameEvent::Submitted) => Step {
            state: FrameState::Presenting { image_index },
            close_requested,
            slot,
            action: FrameAction::Present {
                queue,
                swapchain: chain.swapchain,
                image_index,
                wait_semaphore: chain.rendering_finished@[slot],
            },
            stopped_by: None,
        },
        (FrameState::Presenting { image_index }, FrameEvent::Presented) => {
            if close_requested {
                stop(close_requested, slot, StopReason::CloseRequested)
            } else {
                Step { state: FrameState::Idle, ..stay }
            }
        },
        _ => stay,
    }
}

impl Engine {
    /// The renderer is there as long as the loop runs, and the image of a
    /// frame under way has a command buffer.
    pub open spec fn wf(&self) -> bool {
        &&& self.renderer is Some ==> self.renderer->Some_0.wf()
        &&& self.state != FrameState::Stopped ==> self.renderer is Some
        &&& image_of(self.state) is Some ==> image_of(self.state)->Some_0
            < self.renderer->Some_0.graphics_command_buffers@.len()
    }

    pub fn is_well_formed(&self) -> (ok: bool)
        ensures
            ok == self.wf(),
    {
        match &self.renderer {
            None => match self.state {
                FrameState::Stopped => true,
                _ => false,
            },
            Some(renderer) => {
                if !renderer.is_well_formed() {
                    return false;
                }
                let count = renderer.graphics_command_buffers.len();
                match self.state {
                    FrameState::WaitingForFence { image_index } => (image_index as usize) < count,
                    FrameState::Submitting { image_index } => (image_index as usize) < count,
                    FrameState::Presenting { image_index } => (image_index as usize) < count,
                    _ => true,
                }
            },
        }
    }

    /// The frame-sync slot in use.
    pub open spec fn slot(&self) -> int {
        self.renderer->Some_0.swapchain.current_image as int
    }

    /// An engine between frames, around a renderer that can draw.
    pub fn new(renderer: VulkanRenderer) -> (made: Result<Engine, DeviceError>)
        requires
            renderer.wf(),
        ensures
            match made {
                Ok(engine) => {
                    &&& engine.wf()
                    &&& engine.renderer == Some(renderer)
                    &&& engine.state == FrameState::Idle
                    &&& !engine.close_requested
                    &&& engine.stopped_by is None
                    &&& renderer.main_device.spec_graphics_queue() == Some(engine.graphics_queue)
                },
                Err(e) => e == DeviceError::NoGraphicsQueueFamily
                    && renderer.main_device.spec_graphics_queue() is None,
            },
    {
        let graphics_queue = match renderer.main_device.graphics_queue() {
            Ok(queue) => queue,
            Err(e) => { return Err(e); },
        };
        Ok(
            Engine {
                renderer: Some(renderer),
                state: FrameState::Idle,
                graphics_queue,
                close_requested: false,
                stopped_by: None,
            },
        )
    }

    /// What a step on `event` leads to.
    pub open spec fn spec_step(&self, event: FrameEvent) -> Step {
        step_from(self.state, self.close_requested, self.graphics_queue, self.renderer->Some_0, event)
    }

    /// Takes what happened and says what to do next. Of the renderer only
    /// the frame-sync slot in use ever changes.
    pub fn step(&mut self, event: FrameEvent) -> (action: FrameAction)
        requires
            old(self).wf(),
        ensures
            final(self).wf(),
            final(self).graphics_queue == old(self).graphics_queue,
            old(self).renderer is None ==> action == FrameAction::Nothing && *final(self) == *old(self),
            old(self).renderer is Some ==> {
                let step = old(self).spec_step(event);
                &&& action == step.action
                &&& final(self).state == step.state
                &&& final(self).close_requested == step.close_requested
                &&& final(self).stopped_by == if step.stopped_by is Some {
                    step.stopped_by
                } else {
                    old(self).stopped_by
                }
                &&& final(self).renderer is Some
                &&& final(self).slot() == step.slot
                &&& final(self).renderer->Some_0 == (VulkanRenderer {
                    swapchain: RendererSwapchain {
                        current_image: final(self).renderer->Some_0.swapchain.current_image,
                        ..old(self).renderer->Some_0.swapchain
                    },
                    ..old(self).renderer->Some_0
                })
            },
    {
        let state = self.state;
        let queue = self.graphics_queue;
        match &mut self.renderer {
            None => FrameAction::Nothing,
            Some(renderer) => {
                let slot = renderer.swapchain.current_image;
                match (state, event) {
                    (FrameState::Stopped, _) => FrameAction::Nothing,
                    (_, FrameEvent::DeviceFailed) => {
                        self.state = FrameState::Stopped;
                        self.stopped_by = Some(StopReason::DeviceFailed);
                        FrameAction::Shutdown
                    },
                    (_, FrameEvent::SurfaceOutOfDate) => {
                        self.state = FrameState::Stopped;
                        self.stopped_by = Some(StopReason::SurfaceOutOfDate);
                        FrameAction::Shutdown
                    },
                    (FrameState::Idle, FrameEvent::CloseRequested) => {
                        self.state = FrameState::Stopped;
                        self.stopped_by = Some(StopReason::CloseRequested);
                        FrameAction::Shutdown
                    },
                    (_, FrameEvent::CloseRequested) => {
                        self.close_requested = true;
                        FrameAction::Nothing
                    },
                    (FrameState::Idle, FrameEvent::RedrawRequested) => {
                        renderer.swapchain.bump_current_image();
                        self.state = FrameState::Acquiring;
                        FrameAction::AcquireNextImage {
                            swapchain: renderer.swapchain.swapchain,
                            timeout: u64::MAX,
                            semaphore: renderer.swapchain.image_available[renderer.swapchain.current_image],
                        }
                    },
                    (FrameState::Acquiring, FrameEvent::ImageAcquired { image_index }) => {
                        if (image_index as usize) < renderer.graphics_command_buffers.len() {
                            self.state = FrameState::WaitingForFence { image_index };
                            FrameAction::WaitAndResetFence {
                                fence: renderer.swapchain.may_begin_drawing[slot],
                                timeout: u64::MAX,
                            }
                        } else {
                            self.state = FrameState::Stopped;
                            self.stopped_by = Some(StopReason::NoCommandBuffer);
                            FrameAction::Shutdown
                        }
                    },
                    (FrameState::WaitingForFence { image_index }, FrameEvent::FenceSignaled) => {
                        self.state = FrameState::Submitting { image_index };
                        FrameAction::Submit {
                            queue,
                            command_buffer: renderer.graphics_command_buffers[image_index as usize],
                            wait_semaphore: renderer.swapchain.image_available[slot],
                            wait_stage: PipelineStage::ColorAttachmentOutput,
                            signal_semaphore: renderer.swapchain.rendering_finished[slot],
                            fence: renderer.swapchain.may_begin_drawing[slot],
                        }
                    },
                    (FrameState::Submitting { image_index }, FrameEvent::Submitted) => {
                        self.state = FrameState::Presenting { image_index };
                        FrameAction::Present {
                            queue,
                            swapchain: renderer.swapchain.swapchain,
                            image_index,
                            wait_semaphore: renderer.swapchain.rendering_finished[slot],
                        }
                    },
                    (FrameState::Presenting { image_index }, FrameEvent::Presented) => {
                        if self.close_requested {
                            self.state = FrameState::Stopped;
                            self.stopped_by = Some(StopReason::CloseRequested);
                            FrameAction::Shutdown
                        } else {
                            self.state = FrameState::Idle;
                            FrameAction::Nothing
                        }
                    },
                    _ => FrameAction::Nothing,
                }
            },
        }
    }

    /// Ends the loop and gives up the renderer: hands out the steps of its
    /// whole shutdown. There is nothing left to do the second time.
    pub fn shutdown(&mut self) -> (steps: Vec<DestroyStep>)
        requires
            old(self).wf(),
        ensures
            final(self).wf(),
            final(self).renderer is None,
            final(self).state == FrameState::Stopped,
            final(self).stopped_by == old(self).stopped_by,
            in_stage_order(steps@),
            match old(self).renderer {
                Some(renderer) => steps@ == renderer.spec_teardown(),
                None => steps@.len() == 0,
            },
    {
        self.state = FrameState::Stopped;
        let renderer = self.renderer.take();
        match renderer {
            Some(renderer) => {
                let mut renderer = renderer;
                renderer.teardown()
            },
            None => Vec::new(),
        }
    }
}

/// The renderer with another frame-sync slot in use.
pub open spec fn with_slot(renderer: VulkanRenderer, slot: int) -> VulkanRenderer {
    VulkanRenderer {
        swapchain: RendererSwapchain { current_image: slot as usize, ..renderer.swapchain },
        ..renderer
    }
}

/// Where the loop stands between frames, with nothing asked of it.
pub open spec fn at_rest(renderer: VulkanRenderer) -> Step {
    Step {
        state: FrameState::Idle,
        close_requested: false,
        slot: renderer.swapchain.current_image as int,
        action: FrameAction::Nothing,
        stopped_by: None,
    }
}

/// Where a run of events leads from `start`, and the action of its last step.
pub open spec fn run_from(start: Step, queue: u64, renderer: VulkanRenderer, events: Seq<FrameEvent>) -> Step
    decreases events.len(),
{
    if events.len() == 0 {
        start
    } else {
        let before = run_from(start, queue, renderer, events.drop_last());
        step_from(
            before.state,
            before.close_requested,
            queue,
            with_slot(renderer, before.slot),
            events.last(),
        )
    }
}

/// The events of one frame in which the swapchain hands out `image` and
/// nothing fails.
pub open spec fn frame_events(image: u32) -> Seq<FrameEvent> {
    seq![
        FrameEvent::RedrawRequested,
        FrameEvent::ImageAcquired { image_index: image },
        FrameEvent::FenceSignaled,
        FrameEvent::Submitted,
        FrameEvent::Presented,
    ]
}

/// The events of one frame after another, one for each of `images`.
pub open spec fn frames(images: Seq<u32>) -> Seq<FrameEvent>
    decreases images.len(),
{
    if images.len() == 0 {
        Seq::empty()
    } else {
        frames(images.drop_last()) + frame_events(images.last())
    }
}

/// One frame, step by step. From rest it moves on to the next frame-sync
/// slot and comes to rest again. In between, the fence that is waited for
/// and reset, the semaphores and the fence of the submission and the
/// semaphore of the presentation are those of that slot, whatever image
/// was acquired; the command buffer that is submitted and the image that
/// is presented are those of the acquired image.
pub proof fn lemma_one_frame(queue: u64, renderer: VulkanRenderer, image: u32)
    requires
        renderer.wf(),
        image < renderer.graphics_command_buffers@.len(),
    ensures
        ({
            let chain = renderer.swapchain;
            let slot = RendererSwapchain::next_slot(chain.current_image as int, chain.frame_sync_count());
            let events = frame_events(image);
            let start = at_rest(renderer);
            &&& 0 <= slot < chain.frame_sync_count()
            &&& run_from(start, queue, renderer, events.take(1)).action == FrameAction::AcquireNextImage {
                swapchain: chain.swapchain,
                timeout: u64::MAX,
                semaphore: chain.image_available@[slot],
            }
            &&& run_from(start, queue, renderer, events.take(2)).action == FrameAction::WaitAndResetFence {
                fence: chain.may_begin_drawing@[slot],
                timeout: u64::MAX,
            }
            &&& run_from(start, queue, renderer, events.take(3)).action == FrameAction::Submit {
                queue,
                command_buffer: renderer.graphics_command_buffers@[image as int],
                wait_semaphore: chain.image_available@[slot],
                wait_stage: PipelineStage::ColorAttachmentOutput,
                signal_semaphore: chain.rendering_finished@[slot],
                fence: chain.may_begin_drawing@[slot],
            }
            &&& run_from(start, queue, renderer, events.take(4)).action == FrameAction::Present {
                queue,
                swapchain: chain.swapchain,
                image_index: image,
                wait_semaphore: chain.rendering_finished@[slot],
            }
            &&& run_from(start, queue, renderer, events) == at_rest(with_slot(renderer, slot))
        }),
{
    let chain = renderer.swapchain;
    let count = chain.frame_sync_count();
    let slot = RendererSwapchain::next_slot(chain.current_image as int, count);
    vstd::std_specs::vec::axiom_spec_len(&chain.may_begin_drawing);
    assert(0 <= slot < count) by (nonlinear_arith)
        requires
            count > 0,
            chain.current_image >= 0,
            slot == (chain.current_image + 1) % count,
    ;
    let events = frame_events(image);
    let start = at_rest(renderer);
    let e0 = events.take(0);
    let e1 = events.take(1);
    let e2 = events.take(2);
    let e3 = events.take(3);
    let e4 = events.take(4);
    assert(e1.drop_last() =~= e0);
    assert(e2.drop_last() =~= e1);
    assert(e3.drop_last() =~= e2);
    assert(e4.drop_last() =~= e3);
    assert(events.drop_last() =~= e4);
    let s0 = run_from(start, queue, renderer, e0);
    assert(s0 == start);
    let s1 = run_from(start, queue, renderer, e1);
    assert(s1 == step_from(s0.state, s0.close_requested, queue, with_slot(renderer, s0.slot), e1.last()));
    assert(s1.state == FrameState::Acquiring && s1.slot == slot);
    let s2 = run_from(start, queue, renderer, e2);
    assert(s2 == step_from(s1.state, s1.close_requested, queue, with_slot(renderer, s1.slot), e2.last()));
    assert(s2.state == FrameState::WaitingForFence { image_index: image } && s2.slot == slot);
    let s3 = run_from(start, queue, renderer, e3);
    assert(s3 == step_from(s2.state, s2.close_requested, queue, with_slot(renderer, s2.slot), e3.last()));
    assert(s3.state == FrameState::Submitting { image_index: image } && s3.slot == slot);
    let s4 = run_from(start, queue, renderer, e4);
    assert(s4 == step_from(s3.state, s3.close_requested, queue, with_slot(renderer, s3.slot), e4.last()));
    assert(s4.state == FrameState::Presenting { image_index: image } && s4.slot == slot);
    let s5 = run_from(start, queue, renderer, events);
    assert(s5 == step_from(s4.state, s4.close_requested, queue, with_slot(renderer, s4.slot), events.last()));
}

/// A run of events can be cut in two: the second part goes on from where
/// the first has led.
pub proof fn lemma_run_in_two(
    start: Step,
    queue: u64,
    renderer: VulkanRenderer,
    first: Seq<FrameEvent>,
    second: Seq<FrameEvent>,
)
    ensures
        run_from(start, queue, renderer, first + second) == run_from(
            run_from(start, queue, renderer, first),
            queue,
            renderer,
            second,
        ),
    decreases second.len(),
{
    if second.len() == 0 {
        assert(first + second =~= first);
    } else {
        lemma_run_in_two(start, queue, renderer, first, second.drop_last());
        assert((first + second).drop_last() =~= first + second.drop_last());
        assert((first + second).last() == second.last());
    }
}

/// After any number of frames the loop is at rest, and the frame-sync slot
/// in use is the one it started from plus the number of frames, modulo the
/// number of slots: from slot 0, after `k` frames, slot `k mod n`. Which
/// images were acquired makes no difference.
pub proof fn lemma_slot_after_frames(queue: u64, renderer: VulkanRenderer, images: Seq<u32>)
    requires
        renderer.wf(),
        forall|i: int| 0 <= i < images.len() ==> images[i] < renderer.graphics_command_buffers@.len(),
    ensures
        run_from(at_rest(renderer), queue, renderer, frames(images)) == at_rest(
            with_slot(
                renderer,
                (renderer.swapchain.current_image + images.len()) % renderer.swapchain.frame_sync_count(),
            ),
        ),
    decreases images.len(),
{
    let count = renderer.swapchain.frame_sync_count();
    let from = renderer.swapchain.current_image as int;
    vstd::std_specs::vec::axiom_spec_len(&renderer.swapchain.may_begin_drawing);
    if images.len() == 0 {
        assert(frames(images) =~= Seq::<FrameEvent>::empty());
        vstd::arithmetic::div_mod::lemma_small_mod(from as nat, count as nat);
        assert(with_slot(renderer, from).swapchain == renderer.swapchain);
        assert(with_slot(renderer, from) == renderer);
    } else {
        let front = images.drop_last();
        let image = images.last();
        lemma_slot_after_frames(queue, renderer, front);
        let slot = (from + front.len()) % count;
        assert(0 <= slot < count) by (nonlinear_arith)
            requires
                count > 0,
                from + front.len() >= 0,
                slot == (from + front.len()) % count,
        ;
        let rested = with_slot(renderer, slot);
        assert(rested.wf());
        lemma_one_frame(queue, rested, image);
        lemma_run_in_two(at_rest(renderer), queue, renderer, frames(front), frame_events(image));
        lemma_renderer_of_run(at_rest(rested), queue, renderer, rested, frame_events(image));
        let next = RendererSwapchain::next_slot(slot, count);
        assert(next == (from + images.len()) % count) by (nonlinear_arith)
            requires
                count > 0,
                from + front.len() >= 0,
                slot == (from + front.len()) % count,
                next == (slot + 1) % count,
                images.len() == front.len() + 1,
        ;
        assert(with_slot(rested, next) == with_slot(renderer, next));
    }
}

/// A run depends on the renderer only through what does not change: the
/// slot it starts from is given by `start`.
pub proof fn lemma_renderer_of_run(
    start: Step,
    queue: u64,
    renderer: VulkanRenderer,
    other: VulkanRenderer,
    events: Seq<FrameEvent>,
)
    requires
        other == with_slot(renderer, other.swapchain.current_image as int),
    ensures
        run_from(start, queue, renderer, events) == run_from(start, queue, other, events),
    decreases events.len(),
{
    if events.len() > 0 {
        lemma_renderer_of_run(start, queue, renderer, other, events.drop_last());
        let before = run_from(start, queue, renderer, events.drop_last());
        assert(with_slot(renderer, before.slot) == with_slot(other, before.slot));
    }
}

} // verus!
