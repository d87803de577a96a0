use vstd::prelude::*;

verus! {

/// The entry point of every shader.
pub const SHADER_ENTRY_POINT: &'static str = "main";

/// One shader stage of a pipeline.
#[derive(Clone, Copy, Debug)]
pub struct PipelineShaderStageCreateInfo {
    pub stage: u32,
    pub module: u64,
    pub entry_point: &'static str,
}

/// A compiled shader as the device holds it.
#[derive(Clone, Copy, Debug, PartialEq, Eq, Structural)]
pub struct ShaderModule {
    module: u64,
}

impl ShaderModule {
    pub closed spec fn spec_module(&self) -> u64 {
        self.module
    }

    pub fn new(module: u64) -> (shader: Self)
        ensures
            shader.spec_module() == module,
    {
        ShaderModule { module }
    }

    #[verifier::when_used_as_spec(spec_module)]
    pub fn module(&self) -> (module: u64)
        ensures
            module == self.spec_module(),
    {
        self.module
    }

    /// Whether `code` has the length of shader bytecode: a whole, positive
    /// number of thirty-two-bit words.
    pub fn is_bytecode_length(code: &Vec<u8>) -> (whole: bool)
        ensures
            whole == (code.len() > 0 && code.len() % 4 == 0),
    {
        code.len() > 0 && code.len() % 4 == 0
    }

    /// This shader as the stage `stage` of a pipeline, entered at `main`.
    pub fn create_shader_stage_info(&self, stage: u32) -> (info: PipelineShaderStageCreateInfo)
        ensures
            info.stage == stage,
            info.module == self.spec_module(),
            info.entry_point@ == SHADER_ENTRY_POINT@,
    {
        PipelineShaderStageCreateInfo { stage, module: self.module, entry_point: SHADER_ENTRY_POINT }
    }
}

} // verus!
