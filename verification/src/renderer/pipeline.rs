//! The one graphics pipeline: what is fixed, what the caller supplies, and
//! what has to go when it is replaced.
use vstd::prelude::*;
use crate::renderer::lifecycle::{DestroyStep, Resource};
use crate::renderer::mesh::{PushConstantDescription, VertexInputAttribute, VertexInputBinding};
use crate::renderer::plain::{append_copy, copy_of};
use crate::renderer::shader::{Shader, ShaderStageInfo};
use crate::renderer::swapchain::Extent2D;

verus! {

#[derive(Clone, Copy, Debug, PartialEq, Eq, Structural)]
pub enum PrimitiveTopology {
    PointList,
    LineList,
    LineStrip,
    TriangleList,
    TriangleStrip,
    TriangleFan,
}

#[derive(Clone, Copy, Debug, PartialEq, Eq, Structural)]
pub enum FrontFace {
    CounterClockwise,
    Clockwise,
}

#[derive(Clone, Copy, Debug, PartialEq, Eq, Structural)]
pub enum CullMode {
    Nothing,
    Front,
    Back,
    FrontAndBack,
}

#[derive(Clone, Copy, Debug, PartialEq, Eq, Structural)]
pub enum PolygonMode {
    Fill,
    Line,
    Point,
}

#[derive(Clone, Copy, Debug, PartialEq, Eq, Structural)]
pub enum BlendFactor {
    Zero,
    One,
    SrcAlpha,
    OneMinusSrcAlpha,
    DstAlpha,
    OneMinusDstAlpha,
}

#[derive(Clone, Copy, Debug, PartialEq, Eq, Structural)]
pub enum BlendOp {
    Add,
    Subtract,
    ReverseSubtract,
    Min,
    Max,
}

/// A viewport in whole pixels. The two ends of its depth range are 32-bit
/// floats, held as their bit patterns.
#[derive(Clone, Copy, Debug, PartialEq, Eq, Structural)]
pub struct Viewport {
    pub x: u32,
    pub y: u32,
    pub width: u32,
    pub height: u32,
    pub min_depth: u32,
    pub max_depth: u32,
}

#[derive(Clone, Copy, Debug, PartialEq, Eq, Structural)]
pub struct Rect2D {
    pub x: i32,
    pub y: i32,
    pub extent: Extent2D,
}

/// How the one colour attachment is blended and which channels are written.
#[derive(Clone, Copy, Debug, PartialEq, Eq, Structural)]
pub struct ColorBlendAttachment {
    pub blend_enable: bool,
    pub src_color_blend_factor: BlendFactor,
    pub dst_color_blend_factor: BlendFactor,
    pub color_blend_op: BlendOp,
    pub src_alpha_blend_factor: BlendFactor,
    pub dst_alpha_blend_factor: BlendFactor,
    pub alpha_blend_op: BlendOp,
    pub write_red: bool,
    pub write_green: bool,
    pub write_blue: bool,
    pub write_alpha: bool,
}

/// The bit pattern of the float 1: lines are one pixel wide.
pub const LINE_WIDTH: u32 = 0x3f80_0000;

/// The part of a pipeline that no caller chooses.
#[derive(Clone, Copy, Debug, PartialEq, Eq, Structural)]
pub struct FixedState {
    pub topology: PrimitiveTopology,
    pub front_face: FrontFace,
    pub cull_mode: CullMode,
    pub polygon_mode: PolygonMode,
    /// The width of lines in pixels, a 32-bit float held as its bit pattern.
    pub line_width: u32,
    /// Samples per pixel; 1 is no multisampling.
    pub rasterization_samples: u32,
    pub blend: ColorBlendAttachment,
    /// The subpass of the render pass that the pipeline draws in.
    pub subpass: u32,
}

#[derive(Clone, Copy, Debug, PartialEq, Eq, Structural)]
pub struct PushConstantRange {
    /// Raw shader-stage flag bits.
    pub stage_flags: u32,
    pub offset: u32,
    pub size: u32,
}

/// Everything needed to create the pipeline layout and the pipeline.
pub struct GraphicsPipelineInfo {
    pub render_pass: u64,
    pub stages: Vec<ShaderStageInfo>,
    pub bindings: Vec<VertexInputBinding>,
    pub attributes: Vec<VertexInputAttribute>,
    pub viewport: Viewport,
    pub scissor: Rect2D,
    pub fixed: FixedState,
    /// The pipeline layout is made of these ranges and nothing else.
    pub push_constant_ranges: Vec<PushConstantRange>,
}

/// The mathematical content of a [`GraphicsPipelineInfo`].
pub ghost struct PipelineModel {
    pub render_pass: u64,
    pub stages: Seq<ShaderStageInfo>,
    pub bindings: Seq<VertexInputBinding>,
    pub attributes: Seq<VertexInputAttribute>,
    pub viewport: Viewport,
    pub scissor: Rect2D,
    pub fixed: FixedState,
    pub push_constant_ranges: Seq<PushConstantRange>,
}

impl View for GraphicsPipelineInfo {
    type V = PipelineModel;

    open spec fn view(&self) -> PipelineModel {
        PipelineModel {
            render_pass: self.render_pass,
            stages: self.stages@,
            bindings: self.bindings@,
            attributes: self.attributes@,
            viewport: self.viewport,
            scissor: self.scissor,
            fixed: self.fixed,
            push_constant_ranges: self.push_constant_ranges@,
        }
    }
}

/// Source alpha over destination: `src * a + dst * (1 - a)` for colour and
/// alpha alike, all four channels written.
pub open spec fn alpha_blend() -> ColorBlendAttachment {
    ColorBlendAttachment {
        blend_enable: true,
        src_color_blend_factor: BlendFactor::SrcAlpha,
        dst_color_blend_factor: BlendFactor::OneMinusSrcAlpha,
        color_blend_op: BlendOp::Add,
        src_alpha_blend_factor: BlendFactor::SrcAlpha,
        dst_alpha_blend_factor: BlendFactor::OneMinusSrcAlpha,
        alpha_blend_op: BlendOp::Add,
        write_red: true,
        write_green: true,
        write_blue: true,
        write_alpha: true,
    }
}

/// Triangle lists, counter-clockwise front faces, nothing culled, filled
/// polygons, lines one pixel wide, one sample per pixel, alpha blending,
/// subpass 0.
pub open spec fn fixed_state() -> FixedState {
    FixedState {
        topology: PrimitiveTopology::TriangleList,
        front_face: FrontFace::CounterClockwise,
        cull_mode: CullMode::Nothing,
        polygon_mode: PolygonMode::Fill,
        line_width: 0x3f80_0000,
        rasterization_samples: 1,
        blend: alpha_blend(),
        subpass: 0,
    }
}

pub open spec fn range_of(description: PushConstantDescription) -> PushConstantRange {
    PushConstantRange {
        stage_flags: description.stage_flags,
        offset: description.offset,
        size: description.size,
    }
}

/// The pipeline that the given inputs describe: the fixed state, a viewport
/// and a scissor that cover the whole extent, the viewport with a depth
/// range from 0 to 0, and the inputs as they are.
pub open spec fn pipeline_for(
    render_pass: u64,
    extent: Extent2D,
    bindings: Seq<VertexInputBinding>,
    attributes: Seq<VertexInputAttribute>,
    stages: Seq<ShaderStageInfo>,
    push_constants: Seq<PushConstantDescription>,
) -> PipelineModel {
    PipelineModel {
        render_pass,
        stages,
        bindings,
        attributes,
        viewport: Viewport {
            x: 0,
            y: 0,
            width: extent.width,
            height: extent.height,
            min_depth: 0,
            max_depth: 0,
        },
        scissor: Rect2D { x: 0, y: 0, extent },
        fixed: fixed_state(),
        push_constant_ranges: push_constants.map_values(|d: PushConstantDescription| range_of(d)),
    }
}

/// A created pipeline and its layout. Neither can be changed: a different
/// pipeline is a new one, and this one has to be destroyed.
#[derive(Clone, Copy, Debug, PartialEq, Eq, Structural)]
pub struct RendererPipeline {
    pub pipeline: u64,
    pub pipeline_layout: u64,
}

impl RendererPipeline {
    pub fn new(pipeline: u64, pipeline_layout: u64) -> (created: RendererPipeline)
        ensures
            created == (RendererPipeline { pipeline, pipeline_layout }),
    {
        RendererPipeline { pipeline, pipeline_layout }
    }

    pub fn builder(device: u64, extent: Extent2D, render_pass: u64) -> (builder: PipelineBuilder)
        ensures
            builder.device == device,
            builder.extent == extent,
            builder.render_pass == render_pass,
            builder.shaders@.len() == 0,
            builder.bindings@.len() == 0,
            builder.attributes@.len() == 0,
            builder.push_constants@.len() == 0,
    {
        PipelineBuilder {
            device,
            extent,
            render_pass,
            shaders: Vec::new(),
            bindings: Vec::new(),
            attributes: Vec::new(),
            push_constants: Vec::new(),
        }
    }

    /// Describes the pipeline to create from what the caller chose.
    pub fn create_graphics_pipeline(
        render_pass: u64,
        extent: Extent2D,
        bindings: &Vec<VertexInputBinding>,
        attributes: &Vec<VertexInputAttribute>,
        shader_stages: &Vec<ShaderStageInfo>,
        push_constants: &Vec<PushConstantDescription>,
    ) -> (info: GraphicsPipelineInfo)
        ensures
            info@ == pipeline_for(
                render_pass,
                extent,
                bindings@,
                attributes@,
                shader_stages@,
                push_constants@,
            ),
    {
        let viewport = Viewport {
            x: 0,
            y: 0,
            width: extent.width,
            height: extent.height,
            min_depth: 0,
            max_depth: 0,
        };
        let scissor = Rect2D { x: 0, y: 0, extent };
        let blend = ColorBlendAttachment {
            blend_enable: true,
            src_color_blend_factor: BlendFactor::SrcAlpha,
            dst_color_blend_factor: BlendFactor::OneMinusSrcAlpha,
            color_blend_op: BlendOp::Add,
            src_alpha_blend_factor: BlendFactor::SrcAlpha,
            dst_alpha_blend_factor: BlendFactor::OneMinusSrcAlpha,
            alpha_blend_op: BlendOp::Add,
            write_red: true,
            write_green: true,
            write_blue: true,
            write_alpha: true,
        };
        let fixed = FixedState {
            topology: PrimitiveTopology::TriangleList,
            front_face: FrontFace::CounterClockwise,
            cull_mode: CullMode::Nothing,
            polygon_mode: PolygonMode::Fill,
            line_width: LINE_WIDTH,
            rasterization_samples: 1,
            blend,
            subpass: 0,
        };
        let mut push_constant_ranges: Vec<PushConstantRange> = Vec::new();
        let mut i: usize = 0;
        while i < push_constants.len()
            invariant
                i <= push_constants.len(),
                push_constant_ranges@.len() == i,
                forall|k: int| 0 <= k < i ==> push_constant_ranges@[k] == range_of(push_constants@[k]),
            decreases push_constants.len() - i,
        {
            let push_constant = push_constants[i];
            push_constant_ranges.push(
                PushConstantRange {
                    stage_flags: push_constant.stage_flags,
                    offset: push_constant.offset,
                    size: push_constant.size,
                },
            );
            i += 1;
        }
        assert(push_constant_ranges@ =~= push_constants@.map_values(
            |d: PushConstantDescription| range_of(d),
        ));
        GraphicsPipelineInfo {
            render_pass,
            stages: copy_of(shader_stages),
            bindings: copy_of(bindings),
            attributes: copy_of(attributes),
            viewport,
            scissor,
            fixed,
            push_constant_ranges,
        }
    }

    pub open spec fn spec_cleanup(self) -> Seq<DestroyStep> {
        seq![DestroyStep::Destroy(Resource::Pipeline, self.pipeline), DestroyStep::Destroy(Resource::PipelineLayout, self.pipeline_layout)]
    }

    /// The steps that destroy the pipeline and then its layout.
    pub fn cleanup(&self) -> (steps: Vec<DestroyStep>)
        ensures
            steps@ == self.spec_cleanup(),
    {
        let mut steps: Vec<DestroyStep> = Vec::new();
        steps.push(DestroyStep::Destroy(Resource::Pipeline, self.pipeline));
        steps.push(DestroyStep::Destroy(Resource::PipelineLayout, self.pipeline_layout));
        assert(steps@ =~= self.spec_cleanup());
        steps
    }
}

/// Collects what the caller chooses of a pipeline.
pub struct PipelineBuilder {
    pub device: u64,
    pub extent: Extent2D,
    pub render_pass: u64,
    pub shaders: Vec<Shader>,
    pub bindings: Vec<VertexInputBinding>,
    pub attributes: Vec<VertexInputAttribute>,
    pub push_constants: Vec<PushConstantDescription>,
}

/// The mathematical content of a [`PipelineBuilder`].
pub ghost struct BuilderModel {
    pub device: u64,
    pub extent: Extent2D,
    pub render_pass: u64,
    pub shaders: Seq<Shader>,
    pub bindings: Seq<VertexInputBinding>,
    pub attributes: Seq<VertexInputAttribute>,
    pub push_constants: Seq<PushConstantDescription>,
}

impl View for PipelineBuilder {
    type V = BuilderModel;

    open spec fn view(&self) -> BuilderModel {
        BuilderModel {
            device: self.device,
            extent: self.extent,
            render_pass: self.render_pass,
            shaders: self.shaders@,
            bindings: self.bindings@,
            attributes: self.attributes@,
            push_constants: self.push_constants@,
        }
    }
}

/// What [`PipelineBuilder::build`] hands out.
pub struct PipelineBuild {
    /// The pipeline to create.
    pub info: GraphicsPipelineInfo,
    /// The shader modules, to be destroyed as soon as the pipeline exists:
    /// the pipeline does not keep them.
    pub transient: Vec<DestroyStep>,
}

/// The pipeline that a builder describes.
pub open spec fn built_pipeline(builder: BuilderModel) -> PipelineModel {
    pipeline_for(
        builder.render_pass,
        builder.extent,
        builder.bindings,
        builder.attributes,
        builder.shaders.map_values(|s: Shader| s.spec_shader_stage()),
        builder.push_constants,
    )
}

/// The steps that destroy a builder's shader modules, in the order they were added.
pub open spec fn transient_modules(builder: BuilderModel) -> Seq<DestroyStep> {
    builder.shaders.map_values(|s: Shader| s.spec_cleanup())
}

impl PipelineBuilder {
    pub fn device(self, device: u64) -> (builder: PipelineBuilder)
        ensures
            builder@ == (BuilderModel { device, ..self@ }),
    {
        let mut builder = self;
        builder.device = device;
        builder
    }

    pub fn extent(self, extent: Extent2D) -> (builder: PipelineBuilder)
        ensures
            builder@ == (BuilderModel { extent, ..self@ }),
    {
        let mut builder = self;
        builder.extent = extent;
        builder
    }

    pub fn render_pass(self, render_pass: u64) -> (builder: PipelineBuilder)
        ensures
            builder@ == (BuilderModel { render_pass, ..self@ }),
    {
        let mut builder = self;
        builder.render_pass = render_pass;
        builder
    }

    pub fn shader(self, shader: Shader) -> (builder: PipelineBuilder)
        ensures
            builder@ == (BuilderModel { shaders: self@.shaders.push(shader), ..self@ }),
    {
        let mut builder = self;
        builder.shaders.push(shader);
        builder
    }

    pub fn binding(self, binding: VertexInputBinding) -> (builder: PipelineBuilder)
        ensures
            builder@ == (BuilderModel { bindings: self@.bindings.push(binding), ..self@ }),
    {
        let mut builder = self;
        builder.bindings.push(binding);
        builder
    }

    pub fn bindings(self, bindings: &Vec<VertexInputBinding>) -> (builder: PipelineBuilder)
        ensures
            builder@ == (BuilderModel { bindings: self@.bindings + bindings@, ..self@ }),
    {
        let mut builder = self;
        append_copy(&mut builder.bindings, bindings);
        builder
    }

    pub fn attribute(self, attribute: VertexInputAttribute) -> (builder: PipelineBuilder)
        ensures
            builder@ == (BuilderModel { attributes: self@.attributes.push(attribute), ..self@ }),
    {
        let mut builder = self;
        builder.attributes.push(attribute);
        builder
    }

    pub fn attributes(self, attributes: &Vec<VertexInputAttribute>) -> (builder: PipelineBuilder)
        ensures
            builder@ == (BuilderModel { attributes: self@.attributes + attributes@, ..self@ }),
    {
        let mut builder = self;
        append_copy(&mut builder.attributes, attributes);
        builder
    }

    pub fn push_constants(self, push_constants: Vec<PushConstantDescription>) -> (builder:
        PipelineBuilder)
        ensures
            builder@ == (BuilderModel {
                push_constants: self@.push_constants + push_constants@,
                ..self@
            }),
    {
        let mut builder = self;
        append_copy(&mut builder.push_constants, &push_constants);
        builder
    }

    /// Describes the pipeline and lists the shader modules to destroy once
    /// it is created.
    pub fn build(&self) -> (build: PipelineBuild)
        ensures
            build.info@ == built_pipeline(self@),
            build.transient@ == transient_modules(self@),
    {
        let mut shader_stages: Vec<ShaderStageInfo> = Vec::new();
        let mut transient: Vec<DestroyStep> = Vec::new();
        let mut i: usize = 0;
        while i < self.shaders.len()
            invariant
                i <= self.shaders.len(),
                shader_stages@.len() == i,
                transient@.len() == i,
                forall|k: int| 0 <= k < i ==> shader_stages@[k] == self.shaders@[k].spec_shader_stage(),
                forall|k: int| 0 <= k < i ==> transient@[k] == self.shaders@[k].spec_cleanup(),
            decreases self.shaders.len() - i,
        {
            shader_stages.push(self.shaders[i].shader_stage());
            transient.push(self.shaders[i].cleanup());
            i += 1;
        }
        assert(shader_stages@ =~= self@.shaders.map_values(|s: Shader| s.spec_shader_stage()));
        assert(transient@ =~= transient_modules(self@));
        let info = RendererPipeline::create_graphics_pipeline(
            self.render_pass,
            self.extent,
            &self.bindings,
            &self.attributes,
            &shader_stages,
            &self.push_constants,
        );
        PipelineBuild { info, transient }
    }
}

/// Building twice from the same choices describes the same pipeline and
/// hands out the same shader modules for destruction.
pub proof fn lemma_build_is_deterministic(first: BuilderModel, second: BuilderModel)
    requires
        first.extent == second.extent,
        first.render_pass == second.render_pass,
        first.shaders == second.shaders,
        first.bindings == second.bindings,
        first.attributes == second.attributes,
        first.push_constants == second.push_constants,
    ensures
        built_pipeline(first) == built_pipeline(second),
        transient_modules(first) == transient_modules(second),
{
}

/// Whatever the caller chooses, the fixed state of the pipeline is the same,
/// and viewport and scissor cover the extent.
pub proof fn lemma_fixed_state_is_fixed(builder: BuilderModel)
    ensures
        built_pipeline(builder).fixed == fixed_state(),
        built_pipeline(builder).fixed.topology == PrimitiveTopology::TriangleList,
        built_pipeline(builder).fixed.blend == alpha_blend(),
        built_pipeline(builder).viewport.width == builder.extent.width,
        built_pipeline(builder).viewport.height == builder.extent.height,
        built_pipeline(builder).scissor.extent == builder.extent,
{
}

} // verus!
