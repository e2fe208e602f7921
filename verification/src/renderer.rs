//! The renderer: its parts, and the record that owns them.
pub mod allocator;
pub mod buffer;
pub mod command_pools;
pub mod debug;
pub mod device;
pub mod lifecycle;
pub mod mesh;
pub mod pipeline;
mod plain;
pub mod shader;
pub mod swapchain;
pub mod window;

use vstd::prelude::*;
use crate::renderer::allocator::{
    is_region, Allocation, AllocationFailure, AllocatorError, BufferRequest, RendererAllocator,
};
use crate::renderer::buffer::AllocatedBuffer;
use crate::renderer::command_pools::CommandPools;
use crate::renderer::debug::RendererDebug;
use crate::renderer::device::RendererDevice;
use crate::renderer::lifecycle::{
    in_stage_order, lemma_join_in_stage_order, DestroyStep, Resource,
};
use crate::renderer::mesh::{mesh_bytes, Mesh, MeshError, Vector3, Vertex};
use crate::renderer::pipeline::{Rect2D, RendererPipeline};
use crate::renderer::plain::append_copy;
use crate::renderer::swapchain::{Extent2D, RendererSwapchain, SurfaceFormat};
use crate::renderer::window::RendererWindow;

verus! {

/// Calls `ash::vk::make_api_version`: the variant in the top three bits,
/// then seven bits of major, ten of minor and twelve of patch version.
#[verifier::external_body]
fn make_api_version(variant: u32, major: u32, minor: u32, patch: u32) -> (version: u32)
    ensures
        version == (variant << 29u32) | (major << 22u32) | (minor << 12u32) | patch,
{
    ash::vk::make_api_version(variant, major, minor, patch)
}

/// Reads `ash::extensions::ext::DebugUtils::name`: the name of the instance
/// extension for debug messengers.
#[verifier::external_body]
fn debug_utils_extension_name() -> (name: String)
    ensures
        name@ == "VK_EXT_debug_utils"@,
{
    ash::extensions::ext::DebugUtils::name().to_string_lossy().into_owned()
}

/// Reads `ash::extensions::khr::Surface::name`: the name of the instance
/// extension for surfaces.
#[verifier::external_body]
fn surface_extension_name() -> (name: String)
    ensures
        name@ == "VK_KHR_surface"@,
{
    ash::extensions::khr::Surface::name().to_string_lossy().into_owned()
}

/// Everything needed to create the instance.
pub struct InstanceInfo {
    pub application_name: String,
    pub engine_name: String,
    pub application_version: u32,
    pub engine_version: u32,
    /// The version of the API that the engine is written for.
    pub api_version: u32,
    pub layers: Vec<String>,
    pub extensions: Vec<String>,
}

#[derive(Clone, Copy, Debug, PartialEq, Eq, Structural)]
pub enum LoadOp {
    Load,
    Clear,
    DontCare,
}

#[derive(Clone, Copy, Debug, PartialEq, Eq, Structural)]
pub enum StoreOp {
    Store,
    DontCare,
}

#[derive(Clone, Copy, Debug, PartialEq, Eq, Structural)]
pub enum ImageLayout {
    Undefined,
    ColorAttachmentOptimal,
    PresentSrc,
}

/// Everything needed to create the render pass: one colour attachment,
/// one graphics subpass that draws to it, and one dependency that lets the
/// subpass wait for the colour output of whatever came before.
#[derive(Clone, Copy, Debug, PartialEq, Eq, Structural)]
pub struct RenderPassInfo {
    /// The raw format of the attachment.
    pub format: i32,
    pub samples: u32,
    pub load_op: LoadOp,
    pub store_op: StoreOp,
    pub stencil_load_op: LoadOp,
    pub stencil_store_op: StoreOp,
    pub initial_layout: ImageLayout,
    pub final_layout: ImageLayout,
    /// The attachment that the one subpass, a graphics subpass, draws to,
    /// and its layout meanwhile.
    pub color_attachment: u32,
    pub color_layout: ImageLayout,
    pub dependency: SubpassDependency,
}

/// What a subpass waits for before it touches the colour attachment.
#[derive(Clone, Copy, Debug, PartialEq, Eq, Structural)]
pub struct SubpassDependency {
    /// The work waited for is what was submitted before the render pass.
    pub src_external: bool,
    pub dst_subpass: u32,
    pub src_stage: PipelineStage,
    pub dst_stage: PipelineStage,
    pub dst_reads_color: bool,
    pub dst_writes_color: bool,
}

/// A stage of the pipeline at which work can wait or be waited for.
#[derive(Clone, Copy, Debug, PartialEq, Eq, Structural)]
pub enum PipelineStage {
    TopOfPipe,
    ColorAttachmentOutput,
    BottomOfPipe,
}

/// The colour output of subpass 0, reading and writing, waits for the
/// colour output of whatever came before the render pass.
pub open spec fn color_output_dependency() -> SubpassDependency {
    SubpassDependency {
        src_external: true,
        dst_subpass: 0,
        src_stage: PipelineStage::ColorAttachmentOutput,
        dst_stage: PipelineStage::ColorAttachmentOutput,
        dst_reads_color: true,
        dst_writes_color: true,
    }
}

/// The attachment is cleared at the start and kept at the end, has no
/// stencil to care for, comes in any layout and leaves ready to be presented.
pub open spec fn spec_render_pass(format: i32) -> RenderPassInfo {
    RenderPassInfo {
        format,
        samples: 1,
        load_op: LoadOp::Clear,
        store_op: StoreOp::Store,
        stencil_load_op: LoadOp::DontCare,
        stencil_store_op: StoreOp::DontCare,
        initial_layout: ImageLayout::Undefined,
        final_layout: ImageLayout::PresentSrc,
        color_attachment: 0,
        color_layout: ImageLayout::ColorAttachmentOptimal,
        dependency: color_output_dependency(),
    }
}

/// A colour, each channel a 32-bit float held as its bit pattern.
#[derive(Clone, Copy, Debug, PartialEq, Eq, Structural)]
pub struct ClearColor {
    pub red: u32,
    pub green: u32,
    pub blue: u32,
    pub alpha: u32,
}

/// The bit pattern of the float 1.
pub const ONE: u32 = 0x3f80_0000;

/// The bit pattern of the float -1.
pub const MINUS_ONE: u32 = 0xbf80_0000;

/// One command of a command buffer.
#[derive(Clone, Copy, Debug, PartialEq, Eq, Structural)]
pub enum Command {
    Begin,
    BeginRenderPass { render_pass: u64, framebuffer: u64, render_area: Rect2D, clear: ClearColor },
    BindPipeline { pipeline: u64 },
    Draw { vertex_count: u32, instance_count: u32, first_vertex: u32, first_instance: u32 },
    EndRenderPass,
    End,
}

/// What is recorded into one command buffer.
pub struct Recording {
    pub command_buffer: u64,
    pub commands: Vec<Command>,
}

/// The commands of one frame: the render pass over the whole extent of
/// one framebuffer, cleared to opaque black, and in it one draw of all
/// vertices with the pipeline.
pub open spec fn frame_commands(
    render_pass: u64,
    framebuffer: u64,
    extent: Extent2D,
    pipeline: u64,
    vertex_count: u32,
) -> Seq<Command> {
    seq![
        Command::Begin,
        Command::BeginRenderPass {
            render_pass,
            framebuffer,
            render_area: Rect2D { x: 0, y: 0, extent },
            clear: ClearColor { red: 0, green: 0, blue: 0, alpha: 0x3f80_0000 },
        },
        Command::BindPipeline { pipeline },
        Command::Draw { vertex_count, instance_count: 1, first_vertex: 0, first_instance: 0 },
        Command::EndRenderPass,
        Command::End,
    ]
}

/// Why the renderer could not be put together or could not do as asked.
#[derive(Clone, Copy, Debug, PartialEq, Eq, Structural)]
pub enum RendererError {
    /// The surface offers no format to render in.
    NoSurfaceFormat,
    /// The swapchain has no framebuffers, or not one for each image view.
    FramebufferCount,
    /// There is not one command buffer for each framebuffer.
    CommandBufferCount,
    Mesh(MeshError),
    Allocator(AllocatorError),
}

/// What [`VulkanRenderer::upload_mesh`] hands out.
pub struct MeshUpload {
    /// The steps that give up the buffer of the old vertices, to be
    /// performed in this order before anything else.
    pub destroy: Vec<DestroyStep>,
    /// The buffer to create for the new vertices, if one is needed.
    pub request: Option<BufferRequest>,
}

pub struct VulkanRenderer {
    pub instance: u64,
    pub debug: RendererDebug,
    pub main_device: RendererDevice,
    pub window: RendererWindow,
    pub swapchain: RendererSwapchain,
    pub render_pass: u64,
    pub graphics_pipeline: RendererPipeline,
    pub command_pools: CommandPools,
    /// One command buffer for each swapchain image, in their order.
    pub graphics_command_buffers: Vec<u64>,
    pub allocator: RendererAllocator,
    pub triangle_mesh: Mesh,
}

/// The regions of device memory that a mesh holds: that of its buffer, if
/// it has a buffer and the buffer has a region.
pub open spec fn regions_of(mesh: Mesh) -> Seq<Allocation> {
    match mesh.vertex_buffer {
        Some(AllocatedBuffer { buffer, allocation: Some(allocation) }) => seq![allocation],
        _ => Seq::empty(),
    }
}

impl VulkanRenderer {
    /// The instance layers that the engine runs with.
    pub fn used_layer_names() -> (names: Vec<String>)
        ensures
            names@.len() == 1,
            names@[0]@ == "VK_LAYER_KHRONOS_validation"@,
    {
        let mut names: Vec<String> = Vec::new();
        names.push("VK_LAYER_KHRONOS_validation".to_owned());
        names
    }

    /// The instance extensions that the engine needs whatever the window
    /// system is. Those that the window system needs come on top.
    pub fn used_extensions() -> (names: Vec<String>)
        ensures
            names@.len() == 2,
            names@[0]@ == "VK_EXT_debug_utils"@,
            names@[1]@ == "VK_KHR_surface"@,
    {
        let mut names: Vec<String> = Vec::new();
        names.push(debug_utils_extension_name());
        names.push(surface_extension_name());
        names
    }

    /// Describes the instance to create, with the given layers and extensions.
    pub fn create_instance(layers: Vec<String>, extensions: Vec<String>) -> (info: InstanceInfo)
        ensures
            info.application_name@ == "Vulkan App"@,
            info.engine_name@ == "Vulkan Engine"@,
            info.application_version == 0x40_0000,
            info.engine_version == 0x40_0000,
            info.api_version == 0x40_1000,
            info.layers == layers,
            info.extensions == extensions,
    {
        assert((0u32 << 29u32) | (1u32 << 22u32) | (0u32 << 12u32) | 0u32 == 0x40_0000u32)
            by (bit_vector);
        assert((0u32 << 29u32) | (1u32 << 22u32) | (1u32 << 12u32) | 0u32 == 0x40_1000u32)
            by (bit_vector);
        InstanceInfo {
            application_name: "Vulkan App".to_owned(),
            engine_name: "Vulkan Engine".to_owned(),
            application_version: make_api_version(0, 1, 0, 0),
            engine_version: make_api_version(0, 1, 0, 0),
            api_version: make_api_version(0, 1, 1, 0),
            layers,
            extensions,
        }
    }

    /// Describes the render pass to create, for the first format that the
    /// surface offers.
    pub fn create_render_pass(formats: &Vec<SurfaceFormat>) -> (info: Result<
        RenderPassInfo,
        RendererError,
    >)
        ensures
            formats@.len() == 0 ==> info == Err::<RenderPassInfo, RendererError>(
                RendererError::NoSurfaceFormat,
            ),
            formats@.len() > 0 ==> info == Ok::<RenderPassInfo, RendererError>(
                spec_render_pass(formats@[0].format),
            ),
    {
        let format = match RendererWindow::first_format(formats) {
            None => { return Err(RendererError::NoSurfaceFormat); },
            Some(format) => format,
        };
        Ok(
            RenderPassInfo {
                format: format.format,
                samples: 1,
                load_op: LoadOp::Clear,
                store_op: StoreOp::Store,
                stencil_load_op: LoadOp::DontCare,
                stencil_store_op: StoreOp::DontCare,
                initial_layout: ImageLayout::Undefined,
                final_layout: ImageLayout::PresentSrc,
                color_attachment: 0,
                color_layout: ImageLayout::ColorAttachmentOptimal,
                dependency: SubpassDependency {
                    src_external: true,
                    dst_subpass: 0,
                    src_stage: PipelineStage::ColorAttachmentOutput,
                    dst_stage: PipelineStage::ColorAttachmentOutput,
                    dst_reads_color: true,
                    dst_writes_color: true,
                },
            },
        )
    }

    /// The three vertices of the triangle that the engine starts with, all green.
    pub open spec fn spec_triangle() -> Seq<Vertex> {
        let normal = Vector3 { x: 0x3f80_0000, y: 0, z: 0 };
        let green = Vector3 { x: 0, y: 0x3f80_0000, z: 0 };
        seq![
            Vertex { position: Vector3 { x: 0x3f80_0000, y: 0x3f80_0000, z: 0 }, normal, color: green },
            Vertex { position: Vector3 { x: 0xbf80_0000, y: 0x3f80_0000, z: 0 }, normal, color: green },
            Vertex { position: Vector3 { x: 0, y: 0xbf80_0000, z: 0 }, normal, color: green },
        ]
    }

    /// The mesh that the engine starts with: a triangle, not uploaded yet.
    pub fn triangle() -> (mesh: Mesh)
        ensures
            mesh.vertices@ == Self::spec_triangle(),
            mesh.vertex_buffer is None,
    {
        let normal = Vector3 { x: ONE, y: 0, z: 0 };
        let green = Vector3 { x: 0, y: ONE, z: 0 };
        let mut mesh = Mesh::empty();
        mesh.vertices.push(Vertex::with(Vector3 { x: ONE, y: ONE, z: 0 }, normal, green));
        mesh.vertices.push(Vertex::with(Vector3 { x: MINUS_ONE, y: ONE, z: 0 }, normal, green));
        mesh.vertices.push(Vertex::with(Vector3 { x: 0, y: MINUS_ONE, z: 0 }, normal, green));
        assert(mesh.vertices@ =~= Self::spec_triangle());
        mesh
    }

    /// The parts fit together: the swapchain has its framebuffers, each has
    /// its command buffer, and the allocator has in use what the mesh
    /// holds and nothing else.
    pub open spec fn wf(&self) -> bool {
        &&& self.swapchain.wf()
        &&& self.swapchain.framebuffers@.len() == self.swapchain.image_views@.len()
        &&& self.graphics_command_buffers@.len() == self.swapchain.framebuffers@.len()
        &&& self.allocator.wf()
        &&& !self.allocator.released
        &&& self.allocator.live@ == regions_of(self.triangle_mesh)
        &&& self.triangle_mesh.vertices@.len() <= u32::MAX
    }

    pub fn is_well_formed(&self) -> (ok: bool)
        ensures
            ok == self.wf(),
    {
        if !self.swapchain.is_well_formed() || self.swapchain.framebuffers.len()
            != self.swapchain.image_views.len() || self.graphics_command_buffers.len()
            != self.swapchain.framebuffers.len() || self.allocator.released
            || self.triangle_mesh.vertices.len() > 0xffff_ffff {
            return false;
        }
        match self.triangle_mesh.vertex_buffer {
            Some(AllocatedBuffer { buffer, allocation: Some(allocation) }) => {
                assert(regions_of(self.triangle_mesh).len() == 1);
                assert(regions_of(self.triangle_mesh)[0] == allocation);
                if self.allocator.live.len() != 1 {
                    return false;
                }
                let live = self.allocator.live[0];
                let same = live.memory == allocation.memory && live.offset == allocation.offset
                    && live.size == allocation.size && live.mapped == allocation.mapped;
                let region = live.size > 0 && live.size <= u64::MAX - live.offset;
                proof {
                    let all = self.allocator.live@;
                    assert(region == is_region(all[0]));
                    if same {
                        assert(all =~= regions_of(self.triangle_mesh));
                    }
                }
                same && region
            },
            _ => {
                assert(regions_of(self.triangle_mesh).len() == 0);
                assert(self.allocator.live@.len() == 0 ==> self.allocator.live@ =~= regions_of(
                    self.triangle_mesh,
                ));
                self.allocator.live.len() == 0
            },
        }
    }

    /// Puts the renderer together from its created parts, with a fresh
    /// allocator and the triangle as its mesh.
    pub fn new(
        instance: u64,
        debug: RendererDebug,
        main_device: RendererDevice,
        window: RendererWindow,
        swapchain: RendererSwapchain,
        render_pass: u64,
        graphics_pipeline: RendererPipeline,
        command_pools: CommandPools,
        graphics_command_buffers: Vec<u64>,
    ) -> (made: Result<VulkanRenderer, RendererError>)
        requires
            swapchain.wf(),
        ensures
            swapchain.framebuffers@.len() != swapchain.image_views@.len() ==> made is Err && made->Err_0
                == RendererError::FramebufferCount,
            swapchain.framebuffers@.len() == swapchain.image_views@.len()
                && graphics_command_buffers@.len() != swapchain.framebuffers@.len() ==> made is Err
                && made->Err_0 == RendererError::CommandBufferCount,
            swapchain.framebuffers@.len() == swapchain.image_views@.len()
                && graphics_command_buffers@.len() == swapchain.framebuffers@.len() ==> made is Ok && ({
                let renderer = made->Ok_0;
                &&& renderer.wf()
                &&& renderer.instance == instance
                &&& renderer.debug == debug
                &&& renderer.main_device == main_device
                &&& renderer.window == window
                &&& renderer.swapchain == swapchain
                &&& renderer.render_pass == render_pass
                &&& renderer.graphics_pipeline == graphics_pipeline
                &&& renderer.command_pools == command_pools
                &&& renderer.graphics_command_buffers == graphics_command_buffers
                &&& renderer.allocator.live@.len() == 0
                &&& renderer.triangle_mesh.vertices@ == Self::spec_triangle()
                &&& renderer.triangle_mesh.vertex_buffer is None
            }),
    {
        if swapchain.framebuffers.len() != swapchain.image_views.len() {
            return Err(RendererError::FramebufferCount);
        }
        if graphics_command_buffers.len() != swapchain.framebuffers.len() {
            return Err(RendererError::CommandBufferCount);
        }
        let allocator = RendererAllocator::new();
        let triangle_mesh = Self::triangle();
        assert(allocator.live@ =~= regions_of(triangle_mesh));
        Ok(
            VulkanRenderer {
                instance,
                debug,
                main_device,
                window,
                swapchain,
                render_pass,
                graphics_pipeline,
                command_pools,
                graphics_command_buffers,
                allocator,
                triangle_mesh,
            },
        )
    }

    /// What is recorded into the command buffer of swapchain image `i`.
    pub open spec fn spec_recording(&self, i: int) -> Seq<Command> {
        frame_commands(
            self.render_pass,
            self.swapchain.framebuffers@[i],
            self.swapchain.extent,
            self.graphics_pipeline.pipeline,
            self.triangle_mesh.vertices@.len() as u32,
        )
    }

    /// Says what to record into each command buffer: the same frame for
    /// each swapchain image, drawn into that image's framebuffer. Every
    /// command buffer is recorded anew and as a whole.
    pub fn fill_command_buffers(&self) -> (recordings: Vec<Recording>)
        requires
            self.wf(),
        ensures
            recordings@.len() == self.graphics_command_buffers@.len(),
            forall|i: int|
                0 <= i < recordings@.len() ==> (#[trigger] recordings@[i]).command_buffer
                    == self.graphics_command_buffers@[i] && recordings@[i].commands@
                    == self.spec_recording(i),
    {
        let vertex_count: u32 = self.triangle_mesh.vertices.len() as u32;
        let mut recordings: Vec<Recording> = Vec::new();
        let mut i: usize = 0;
        while i < self.graphics_command_buffers.len()
            invariant
                i <= self.graphics_command_buffers.len(),
                self.wf(),
                vertex_count == self.triangle_mesh.vertices@.len(),
                recordings@.len() == i,
                forall|k: int|
                    0 <= k < i ==> (#[trigger] recordings@[k]).command_buffer
                        == self.graphics_command_buffers@[k] && recordings@[k].commands@
                        == self.spec_recording(k),
            decreases self.graphics_command_buffers.len() - i,
        {
            let mut commands: Vec<Command> = Vec::new();
            commands.push(Command::Begin);
            commands.push(
                Command::BeginRenderPass {
                    render_pass: self.render_pass,
                    framebuffer: self.swapchain.framebuffers[i],
                    render_area: Rect2D { x: 0, y: 0, extent: self.swapchain.extent },
                    clear: ClearColor { red: 0, green: 0, blue: 0, alpha: ONE },
                },
            );
            commands.push(Command::BindPipeline { pipeline: self.graphics_pipeline.pipeline });
            commands.push(
                Command::Draw { vertex_count, instance_count: 1, first_vertex: 0, first_instance: 0 },
            );
            commands.push(Command::EndRenderPass);
            commands.push(Command::End);
            assert(commands@ =~= self.spec_recording(i as int));
            recordings.push(
                Recording { command_buffer: self.graphics_command_buffers[i], commands },
            );
            i += 1;
        }
        recordings
    }

    /// Puts another pipeline in the place of the present one and hands out
    /// the steps that destroy the present one, so that its handles are not
    /// lost: wait for the device, which may still draw with it, then
    /// destroy the pipeline and its layout. The command buffers refer to
    /// the pipeline and have to be recorded again.
    pub fn replace_pipeline(&mut self, pipeline: RendererPipeline) -> (steps: Vec<DestroyStep>)
        ensures
            steps@ == seq![DestroyStep::WaitIdle] + old(self).graphics_pipeline.spec_cleanup(),
            in_stage_order(steps@),
            *final(self) == (VulkanRenderer { graphics_pipeline: pipeline, ..*old(self) }),
            old(self).wf() ==> final(self).wf(),
    {
        let mut steps: Vec<DestroyStep> = Vec::new();
        steps.push(DestroyStep::WaitIdle);
        let destroy = self.graphics_pipeline.cleanup();
        append_copy(&mut steps, &destroy);
        self.graphics_pipeline = pipeline;
        proof {
            lemma_join_in_stage_order(
                seq![DestroyStep::WaitIdle],
                old(self).graphics_pipeline.spec_cleanup(),
                0,
            );
        }
        steps
    }

    /// The steps that give up what the mesh holds on the device while the
    /// loop runs: none where it holds nothing, else the wait for the
    /// device, which may still read the buffer, and then the buffer and its
    /// memory.
    pub open spec fn mesh_retirement(mesh: Mesh) -> Seq<DestroyStep> {
        if mesh.vertex_buffer is Some {
            seq![DestroyStep::WaitIdle] + Self::mesh_teardown(mesh)
        } else {
            Seq::empty()
        }
    }

    /// The first half of replacing the mesh on the device: takes the new
    /// vertices, gives up the buffer of the old ones, and says which buffer
    /// to create. More vertices than one draw can count are refused, and
    /// nothing changes.
    pub fn upload_mesh(&mut self, vertices: Vec<Vertex>) -> (begun: Result<MeshUpload, RendererError>)
        requires
            old(self).wf(),
        ensures
            final(self).wf(),
            vertices@.len() > u32::MAX ==> begun is Err && begun->Err_0 == RendererError::Mesh(
                MeshError::TooLarge,
            ) && *final(self) == *old(self),
            vertices@.len() <= u32::MAX ==> begun is Ok && *final(self) == (VulkanRenderer {
                allocator: final(self).allocator,
                triangle_mesh: final(self).triangle_mesh,
                ..*old(self)
            }) && final(self).triangle_mesh.vertices == vertices
                && final(self).triangle_mesh.vertex_buffer is None && final(self).allocator.live@.len()
                == 0 && begun->Ok_0.request == final(self).triangle_mesh.spec_request()
                && begun->Ok_0.destroy@ == Self::mesh_retirement(old(self).triangle_mesh),
    {
        if vertices.len() > 0xffff_ffff {
            return Err(RendererError::Mesh(MeshError::TooLarge));
        }
        self.triangle_mesh.vertices = vertices;
        let begun = self.triangle_mesh.begin_upload(&mut self.allocator);
        proof {
            let live = old(self).allocator.live@;
            match old(self).triangle_mesh.vertex_buffer {
                Some(AllocatedBuffer { buffer, allocation: Some(allocation) }) => {
                    assert(live =~= seq![allocation]);
                    assert(live[0] == allocation);
                    assert(live.contains(allocation));
                    assert(live.index_of(allocation) == 0);
                    assert(live.remove(0).len() == 0);
                },
                _ => {},
            }
            assert(self.allocator.live@ =~= regions_of(self.triangle_mesh));
        }
        match begun {
            Ok(cleanup) => {
                let mut destroy: Vec<DestroyStep> = Vec::new();
                match cleanup.old_buffer {
                    Some(old_buffer) => {
                        destroy.push(DestroyStep::WaitIdle);
                        append_copy(&mut destroy, &old_buffer.steps);
                    },
                    None => {},
                }
                assert(destroy@ =~= Self::mesh_retirement(old(self).triangle_mesh));
                Ok(MeshUpload { destroy, request: cleanup.request })
            },
            Err(e) => Err(RendererError::Mesh(e)),
        }
    }

    /// Why the buffer that was created for the mesh cannot be taken, if it cannot.
    pub open spec fn spec_finish_error(
        &self,
        outcome: Result<Allocation, AllocationFailure>,
    ) -> Option<RendererError> {
        if self.triangle_mesh.vertex_buffer is Some {
            Some(RendererError::Mesh(MeshError::BufferInPlace))
        } else {
            match outcome {
                Err(failure) => Some(RendererError::Allocator(crate::renderer::allocator::error_of(failure))),
                Ok(allocation) => if !allocation.mapped {
                    Some(RendererError::Mesh(MeshError::NotMapped))
                } else if allocation.size < self.triangle_mesh.spec_byte_size() {
                    Some(RendererError::Mesh(MeshError::TooSmall))
                } else {
                    match self.allocator.spec_check(allocation) {
                        Err(e) => Some(RendererError::Allocator(e)),
                        Ok(_) => None,
                    }
                },
            }
        }
    }

    /// The second half of replacing the mesh on the device: takes the
    /// buffer that was created and the memory that was bound to it, or the
    /// reason why there is none, and hands out the bytes to copy into that
    /// memory. Where it fails nothing changes, and the buffer and its
    /// memory stay with the caller.
    pub fn finish_upload(&mut self, buffer: u64, outcome: Result<Allocation, AllocationFailure>) -> (bytes:
        Result<Vec<u8>, RendererError>)
        requires
            old(self).wf(),
        ensures
            final(self).wf(),
            match old(self).spec_finish_error(outcome) {
                Some(e) => bytes is Err && bytes->Err_0 == e && *final(self) == (VulkanRenderer {
                    allocator: final(self).allocator,
                    ..*old(self)
                }) && final(self).allocator.live@ == old(self).allocator.live@,
                None => bytes is Ok && bytes->Ok_0@ == mesh_bytes(old(self).triangle_mesh.vertices@)
                    && *final(self) == (VulkanRenderer {
                    allocator: final(self).allocator,
                    triangle_mesh: final(self).triangle_mesh,
                    ..*old(self)
                }) && final(self).triangle_mesh.vertices == old(self).triangle_mesh.vertices
                    && final(self).triangle_mesh.vertex_buffer == Some(
                    AllocatedBuffer { buffer, allocation: Some(outcome->Ok_0) },
                ) && final(self).allocator.live@ == seq![outcome->Ok_0],
            },
    {
        if self.triangle_mesh.vertex_buffer.is_some() {
            return Err(RendererError::Mesh(MeshError::BufferInPlace));
        }
        match outcome {
            Ok(allocation) => {
                if !allocation.mapped {
                    return Err(RendererError::Mesh(MeshError::NotMapped));
                }
                match self.triangle_mesh.byte_size() {
                    Ok(size) => {
                        if allocation.size < size {
                            return Err(RendererError::Mesh(MeshError::TooSmall));
                        }
                    },
                    Err(_) => { return Err(RendererError::Mesh(MeshError::TooSmall)); },
                }
            },
            Err(_) => {},
        }
        assert(self.allocator.live@.len() == 0);
        let allocated = match self.allocator.allocate_buffer(buffer, outcome) {
            Ok(allocated) => allocated,
            Err(e) => { return Err(RendererError::Allocator(e)); },
        };
        assert(self.allocator.live@ =~= seq![outcome->Ok_0]);
        match self.triangle_mesh.upload(allocated) {
            Ok(bytes) => Ok(bytes),
            Err(e) => Err(RendererError::Mesh(e)),
        }
    }

    /// The steps that destroy what the mesh holds on the device.
    pub open spec fn mesh_teardown(mesh: Mesh) -> Seq<DestroyStep> {
        match mesh.vertex_buffer {
            None => Seq::empty(),
            Some(buffer) => match buffer.allocation {
                None => seq![buffer.destroy_step()],
                Some(allocation) => seq![buffer.destroy_step(), AllocatedBuffer::free_step(allocation)],
            },
        }
    }

    /// The whole shutdown, in the reverse of the order of creation: wait
    /// for the device, then the mesh's buffer and its memory, the
    /// allocator, the command pool with its command buffers, the pipeline
    /// and its layout, the swapchain with all it owns, the render pass, the
    /// surface, the device, the debug messenger, and the instance last.
    pub open spec fn spec_teardown(&self) -> Seq<DestroyStep> {
        seq![DestroyStep::WaitIdle] + Self::mesh_teardown(self.triangle_mesh) + seq![
            DestroyStep::ReleaseAllocator,
            self.command_pools.spec_cleanup(),
        ] + self.graphics_pipeline.spec_cleanup() + self.swapchain.spec_cleanup() + seq![
            DestroyStep::Destroy(Resource::RenderPass, self.render_pass),
            self.window.spec_cleanup(),
            self.main_device.spec_cleanup(),
            self.debug.spec_cleanup(),
            DestroyStep::Destroy(Resource::Instance, self.instance),
        ]
    }

    /// The shutdown begins with the wait for the device, ends with the
    /// instance, and never goes back to an earlier stage.
    pub proof fn lemma_teardown_in_stage_order(&self)
        ensures
            in_stage_order(self.spec_teardown()),
            self.spec_teardown().first() == DestroyStep::WaitIdle,
            self.spec_teardown().last() == DestroyStep::Destroy(Resource::Instance, self.instance),
    {
        let a = seq![DestroyStep::WaitIdle];
        let b = Self::mesh_teardown(self.triangle_mesh);
        let c = seq![DestroyStep::ReleaseAllocator, self.command_pools.spec_cleanup()];
        let d = self.graphics_pipeline.spec_cleanup();
        let e = self.swapchain.spec_cleanup();
        let f = seq![
            DestroyStep::Destroy(Resource::RenderPass, self.render_pass),
            self.window.spec_cleanup(),
            self.main_device.spec_cleanup(),
            self.debug.spec_cleanup(),
            DestroyStep::Destroy(Resource::Instance, self.instance),
        ];
        self.swapchain.lemma_cleanup_in_stage_order();
        lemma_join_in_stage_order(a, b, 0);
        lemma_join_in_stage_order(a + b, c, 3);
        lemma_join_in_stage_order(a + b + c, d, 5);
        lemma_join_in_stage_order(a + b + c + d, e, 7);
        lemma_join_in_stage_order(a + b + c + d + e, f, 12);
    }

    /// Gives up everything: hands out the steps of the whole shutdown, in
    /// the order in which they are to be performed.
    pub fn teardown(&mut self) -> (steps: Vec<DestroyStep>)
        requires
            old(self).wf(),
        ensures
            steps@ == old(self).spec_teardown(),
            in_stage_order(steps@),
            final(self).allocator.released,
            final(self).allocator.live@.len() == 0,
            final(self).triangle_mesh.vertex_buffer is None,
    {
        proof {
            self.lemma_teardown_in_stage_order();
            let live = self.allocator.live@;
            match self.triangle_mesh.vertex_buffer {
                Some(AllocatedBuffer { buffer, allocation: Some(allocation) }) => {
                    assert(live =~= seq![allocation]);
                    assert(live[0] == allocation);
                    assert(live.contains(allocation));
                    assert(live.index_of(allocation) == 0);
                    assert(live.remove(0).len() == 0);
                },
                _ => {},
            }
        }
        let mut steps: Vec<DestroyStep> = Vec::new();
        steps.push(DestroyStep::WaitIdle);
        match self.triangle_mesh.cleanup(&mut self.allocator) {
            Some(cleanup) => { append_copy(&mut steps, &cleanup.steps); },
            None => {},
        }
        assert(steps@ =~= seq![DestroyStep::WaitIdle] + Self::mesh_teardown(old(self).triangle_mesh));
        match self.allocator.cleanup() {
            Ok(step) => { steps.push(step); },
            Err(_) => {},
        }
        steps.push(self.command_pools.cleanup());
        let pipeline = self.graphics_pipeline.cleanup();
        append_copy(&mut steps, &pipeline);
        let swapchain = self.swapchain.cleanup();
        append_copy(&mut steps, &swapchain);
        steps.push(DestroyStep::Destroy(Resource::RenderPass, self.render_pass));
        steps.push(self.window.cleanup());
        steps.push(self.main_device.cleanup());
        steps.push(self.debug.cleanup());
        steps.push(DestroyStep::Destroy(Resource::Instance, self.instance));
        assert(steps@ =~= old(self).spec_teardown());
        steps
    }
}

} // verus!
