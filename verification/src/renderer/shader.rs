//! Shader modules and the pipeline stages they serve.
use vstd::prelude::*;
use crate::renderer::lifecycle::{DestroyStep, Resource};

verus! {

/// The pipeline stage a shader module is compiled for.
#[derive(Clone, Copy, Debug, PartialEq, Eq, Structural)]
pub enum ShaderStage {
    Vertex,
    Fragment,
    Geometry,
    Compute,
}

/// A created shader module and its stage.
#[derive(Clone, Copy, Debug, PartialEq, Eq, Structural)]
pub struct Shader {
    pub shader_module: u64,
    pub stage: ShaderStage,
}

/// One shader stage of a pipeline. Every stage enters at [`entry_point`].
#[derive(Clone, Copy, Debug, PartialEq, Eq, Structural)]
pub struct ShaderStageInfo {
    pub stage: ShaderStage,
    pub module: u64,
}

/// The name of the function at which every shader stage starts.
pub fn entry_point() -> (name: &'static str)
    ensures
        name@ == "main"@,
{
    "main"
}

impl Shader {
    pub fn from_code(shader_module: u64, stage: ShaderStage) -> (shader: Shader)
        ensures
            shader == (Shader { shader_module, stage }),
    {
        Shader { shader_module, stage }
    }

    pub fn from_code_vert(shader_module: u64) -> (shader: Shader)
        ensures
            shader == (Shader { shader_module, stage: ShaderStage::Vertex }),
    {
        Shader::from_code(shader_module, ShaderStage::Vertex)
    }

    pub fn from_code_frag(shader_module: u64) -> (shader: Shader)
        ensures
            shader == (Shader { shader_module, stage: ShaderStage::Fragment }),
    {
        Shader::from_code(shader_module, ShaderStage::Fragment)
    }

    pub open spec fn spec_shader_stage(self) -> ShaderStageInfo {
        ShaderStageInfo { stage: self.stage, module: self.shader_module }
    }

    pub fn shader_stage(&self) -> (info: ShaderStageInfo)
        ensures
            info == self.spec_shader_stage(),
    {
        ShaderStageInfo { stage: self.stage, module: self.shader_module }
    }

    pub open spec fn spec_cleanup(self) -> DestroyStep {
        DestroyStep::Destroy(Resource::ShaderModule, self.shader_module)
    }

    /// The step that destroys the module.
    pub fn cleanup(&self) -> (step: DestroyStep)
        ensures
            step == self.spec_cleanup(),
    {
        DestroyStep::Destroy(Resource::ShaderModule, self.shader_module)
    }
}

} // verus!
