use crate::bytes::append_words;
use crate::bytes::holds_words;
use crate::color::ONE;
use crate::constants::ATTACHMENT_LOAD_OP_CLEAR;
use crate::constants::ATTACHMENT_LOAD_OP_LOAD;
use crate::constants::ATTACHMENT_STORE_OP_STORE;
use crate::constants::BLEND_FACTOR_ONE;
use crate::constants::BLEND_FACTOR_ONE_MINUS_SRC_ALPHA;
use crate::constants::BLEND_FACTOR_SRC_ALPHA;
use crate::constants::BLEND_FACTOR_ZERO;
use crate::constants::BLEND_OP_ADD;
use crate::constants::COLOR_COMPONENT_RGBA;
use crate::constants::COMPARE_OP_NEVER;
use crate::constants::DYNAMIC_STATE_SCISSOR;
use crate::constants::DYNAMIC_STATE_VIEWPORT;
use crate::constants::FORMAT_UNDEFINED;
use crate::constants::INDEX_TYPE_UINT32;
use crate::constants::LOGIC_OP_COPY;
use crate::constants::PIPELINE_BIND_POINT_COMPUTE;
use crate::constants::PIPELINE_BIND_POINT_GRAPHICS;
use crate::constants::SAMPLE_COUNT_1;
use crate::constants::SHADER_STAGE_COMPUTE;
use crate::constants::SHADER_STAGE_FRAGMENT;
use crate::constants::SHADER_STAGE_VERTEX;
use crate::device::ClearColorValue;
use crate::device::ClearValue;
use crate::device::Command;
use crate::device::Extent2D;
use crate::device::Viewport;
use crate::mesh::GeometricSurface;
use crate::mesh::MeshAsset;
use crate::device::RenderingAttachmentInfo;
use crate::device::RenderingInfo;
use crate::shader::PipelineShaderStageCreateInfo;
use crate::shader::ShaderModule;
use vstd::prelude::*;

verus! {

/// The bytes of the constants pushed to the compute pipeline: four vectors
/// of four floats.
pub const PUSH_CONSTANTS_SIZE: u32 = 64;

/// The side of the square of pixels that one compute work group covers.
pub const WORK_GROUP_SIZE: u32 = 16;

/// The constants pushed to the compute shader: four vectors of four
/// floats, each float as its bit pattern.
#[derive(Clone, Copy, Debug)]
pub struct PushConstants {
    pub data: [u32; 16],
}

/// The constants of the gradient: opaque red, opaque blue, and two vectors
/// of zeros.
pub open spec fn gradient_data() -> [u32; 16] {
    [ONE, 0, 0, ONE, 0, 0, ONE, ONE, 0, 0, 0, 0, 0, 0, 0, 0]
}

impl PushConstants {
    /// The constants of the gradient: from red at the top to blue at the
    /// bottom.
    pub fn gradient() -> (constants: Self)
        ensures
            constants.data == gradient_data(),
    {
        PushConstants { data: [ONE, 0, 0, ONE, 0, 0, ONE, ONE, 0, 0, 0, 0, 0, 0, 0, 0] }
    }

    /// The constants as the bytes that are pushed: word by word, each in
    /// the byte order of the machine.
    pub fn as_bytes(&self) -> (bytes: Vec<u8>)
        ensures
            holds_words(bytes@, self.data@),
    {
        let mut bytes: Vec<u8> = Vec::new();
        append_words(&mut bytes, self.data.as_slice());
        assert(bytes@.subrange(0, bytes@.len() as int) =~= bytes@);
        bytes
    }
}

#[derive(Clone, Copy, Debug, PartialEq, Eq, Structural)]
pub struct PushConstantRange {
    pub stage_flags: u32,
    pub offset: u32,
    pub size: u32,
}

/// What a pipeline layout is created with.
#[derive(Debug)]
pub struct PipelineLayoutCreateInfo {
    pub set_layouts: Vec<u64>,
    pub push_constant_range: PushConstantRange,
}

/// What a compute pipeline is created with.
#[derive(Clone, Copy, Debug)]
pub struct ComputePipelineCreateInfo {
    pub layout: u64,
    pub stage: PipelineShaderStageCreateInfo,
}

/// The number of work groups that cover `pixels` pixels: `pixels` divided
/// by the work group size, rounded up.
pub open spec fn group_count(pixels: u32) -> u32 {
    ((pixels + WORK_GROUP_SIZE - 1) / WORK_GROUP_SIZE as int) as u32
}

/// The command that pushes the constants of the gradient to the compute
/// stage of `layout`.
pub open spec fn pushed_gradient(layout: u64) -> Command {
    Command::PushConstants { layout, stage_flags: SHADER_STAGE_COMPUTE, data: gradient_data() }
}

/// The commands of a compute pass over `extent`: bind the pipeline, bind
/// each descriptor set at its index, push the constants of the gradient,
/// dispatch one work group per sixteen by sixteen pixels.
pub open spec fn compute_pass(
    pipeline: u64,
    layout: u64,
    descriptor_sets: Seq<u64>,
    extent: Extent2D,
) -> Seq<Command> {
    seq![Command::BindPipeline { bind_point: PIPELINE_BIND_POINT_COMPUTE, pipeline }] + Seq::new(
        descriptor_sets.len(),
        |i: int|
            Command::BindDescriptorSet {
                bind_point: PIPELINE_BIND_POINT_COMPUTE,
                layout,
                set_index: i as u32,
                descriptor_set: descriptor_sets[i],
            },
    ) + seq![
        pushed_gradient(layout),
        Command::Dispatch { x: group_count(extent.width), y: group_count(extent.height), z: 1 },
    ]
}

pub fn work_groups(pixels: u32) -> (groups: u32)
    ensures
        groups == group_count(pixels),
        groups as int * WORK_GROUP_SIZE >= pixels,
        groups as int * WORK_GROUP_SIZE < pixels + WORK_GROUP_SIZE,
{
    let whole: u32 = pixels / WORK_GROUP_SIZE;
    if pixels % WORK_GROUP_SIZE == 0 {
        whole
    } else {
        whole + 1
    }
}

/// A compute pipeline and its layout.
#[derive(Debug, PartialEq, Eq, Structural)]
pub struct ComputePipeline {
    pipeline: u64,
    pipeline_layout: u64,
}

impl ComputePipeline {
    pub closed spec fn spec_pipeline(&self) -> u64 {
        self.pipeline
    }

    pub closed spec fn spec_layout(&self) -> u64 {
        self.pipeline_layout
    }

    /// Describes the layout of a compute pipeline over `set_layouts`, with
    /// the push constants of the compute stage.
    pub fn layout_info(set_layouts: &[u64]) -> (info: PipelineLayoutCreateInfo)
        ensures
            info.set_layouts@ == set_layouts@,
            info.push_constant_range == (PushConstantRange {
                stage_flags: SHADER_STAGE_COMPUTE,
                offset: 0,
                size: PUSH_CONSTANTS_SIZE,
            }),
    {
        let mut layouts: Vec<u64> = Vec::new();
        let mut i: usize = 0;
        while i < set_layouts.len()
            invariant
                i <= set_layouts.len(),
                layouts@ == set_layouts@.take(i as int),
            decreases set_layouts.len() - i,
        {
            layouts.push(set_layouts[i]);
            i += 1;
            assert(layouts@ =~= set_layouts@.take(i as int));
        }
        assert(set_layouts@.take(i as int) == set_layouts@);
        PipelineLayoutCreateInfo {
            set_layouts: layouts,
            push_constant_range: PushConstantRange {
                stage_flags: SHADER_STAGE_COMPUTE,
                offset: 0,
                size: PUSH_CONSTANTS_SIZE,
            },
        }
    }

    /// Describes the pipeline that runs `shader` as its compute stage.
    pub fn create_info(pipeline_layout: u64, shader: &ShaderModule) -> (info:
        ComputePipelineCreateInfo)
        ensures
            info.layout == pipeline_layout,
            info.stage.stage == SHADER_STAGE_COMPUTE,
            info.stage.module == shader.spec_module(),
            info.stage.entry_point@ == crate::shader::SHADER_ENTRY_POINT@,
    {
        ComputePipelineCreateInfo {
            layout: pipeline_layout,
            stage: shader.create_shader_stage_info(SHADER_STAGE_COMPUTE),
        }
    }

    pub fn new(pipeline: u64, pipeline_layout: u64) -> (created: Self)
        ensures
            created.spec_pipeline() == pipeline,
            created.spec_layout() == pipeline_layout,
    {
        ComputePipeline { pipeline, pipeline_layout }
    }

    pub fn layout(&self) -> (layout: u64)
        ensures
            layout == self.spec_layout(),
    {
        self.pipeline_layout
    }

    pub fn pipeline(&self) -> (pipeline: u64)
        ensures
            pipeline == self.spec_pipeline(),
    {
        self.pipeline
    }

    /// The commands that run the pipeline over every pixel of `extent`.
    pub fn execute_compute(&self, descriptor_sets: &[u64], extent: Extent2D) -> (commands: Vec<
        Command,
    >)
        requires
            descriptor_sets@.len() <= u32::MAX,
        ensures
            commands@ == compute_pass(
                self.spec_pipeline(),
                self.spec_layout(),
                descriptor_sets@,
                extent,
            ),
    {
        let pipeline = self.pipeline;
        let layout = self.pipeline_layout;
        let mut commands: Vec<Command> = Vec::new();
        commands.push(Command::BindPipeline { bind_point: PIPELINE_BIND_POINT_COMPUTE, pipeline });
        let mut i: usize = 0;
        while i < descriptor_sets.len()
            invariant
                i <= descriptor_sets.len(),
                descriptor_sets@.len() <= u32::MAX,
                commands@ == seq![
                    Command::BindPipeline { bind_point: PIPELINE_BIND_POINT_COMPUTE, pipeline },
                ] + Seq::new(
                    i as nat,
                    |k: int|
                        Command::BindDescriptorSet {
                            bind_point: PIPELINE_BIND_POINT_COMPUTE,
                            layout,
                            set_index: k as u32,
                            descriptor_set: descriptor_sets@[k],
                        },
                ),
            decreases descriptor_sets.len() - i,
        {
            commands.push(
                Command::BindDescriptorSet {
                    bind_point: PIPELINE_BIND_POINT_COMPUTE,
                    layout,
                    set_index: i as u32,
                    descriptor_set: descriptor_sets[i],
                },
            );
            i += 1;
            assert(commands@ =~= seq![
                Command::BindPipeline { bind_point: PIPELINE_BIND_POINT_COMPUTE, pipeline },
            ] + Seq::new(
                i as nat,
                |k: int|
                    Command::BindDescriptorSet {
                        bind_point: PIPELINE_BIND_POINT_COMPUTE,
                        layout,
                        set_index: k as u32,
                        descriptor_set: descriptor_sets@[k],
                    },
            ));
        }
        commands.push(
            Command::PushConstants {
                layout,
                stage_flags: SHADER_STAGE_COMPUTE,
                data: PushConstants::gradient().data,
            },
        );
        commands.push(
            Command::Dispatch {
                x: work_groups(extent.width),
                y: work_groups(extent.height),
                z: 1,
            },
        );
        assert(commands@ =~= compute_pass(pipeline, layout, descriptor_sets@, extent));
        commands
    }

    /// What the caller destroys to give the pipeline up: the pipeline, then
    /// its layout.
    pub fn release(self) -> (teardown: (u64, u64))
        ensures
            teardown == (self.spec_pipeline(), self.spec_layout()),
    {
        (self.pipeline, self.pipeline_layout)
    }
}

/// The color attachment of a pass that draws into `image`: cleared to
/// `clear_color` where there is one, kept as it is else.
pub open spec fn color_attachment(image: u64, layout: i32, clear_color: Option<ClearColorValue>)
    -> RenderingAttachmentInfo {
    match clear_color {
        Some(color) => RenderingAttachmentInfo {
            image_view: image,
            image_layout: layout,
            load_op: ATTACHMENT_LOAD_OP_CLEAR,
            store_op: ATTACHMENT_STORE_OP_STORE,
            clear_value: ClearValue::Color(color),
        },
        None => RenderingAttachmentInfo {
            image_view: image,
            image_layout: layout,
            load_op: ATTACHMENT_LOAD_OP_LOAD,
            store_op: ATTACHMENT_STORE_OP_STORE,
            clear_value: crate::device::no_clear(),
        },
    }
}

/// The depth attachment of a pass: always cleared, to depth zero and
/// stencil zero.
pub open spec fn depth_attachment(image: u64, layout: i32) -> RenderingAttachmentInfo {
    RenderingAttachmentInfo {
        image_view: image,
        image_layout: layout,
        load_op: ATTACHMENT_LOAD_OP_CLEAR,
        store_op: ATTACHMENT_STORE_OP_STORE,
        clear_value: ClearValue::DepthStencil { depth: 0, stencil: 0 },
    }
}

/// The viewport that covers `extent`, with depths from zero to one.
pub open spec fn whole_viewport(extent: Extent2D) -> Viewport {
    Viewport { width: extent.width, height: extent.height, min_depth: 0, max_depth: ONE }
}

/// The commands that open a rendering pass on a color and a depth target:
/// begin rendering, bind the pipeline, set viewport and scissor to the whole
/// extent. The color target is cleared to `clear_color` where there is one
/// and kept else; the depth target is always cleared to zero.
pub open spec fn drawing_begin(
    pipeline: u64,
    color_image: u64,
    depth_image: u64,
    color_image_layout: i32,
    depth_image_layout: i32,
    render_extent: Extent2D,
    clear_color: Option<ClearColorValue>,
) -> Seq<Command> {
    seq![
        Command::BeginRendering(
            RenderingInfo {
                render_area: render_extent,
                layer_count: 1,
                color_attachment: color_attachment(color_image, color_image_layout, clear_color),
                depth_attachment: depth_attachment(depth_image, depth_image_layout),
            },
        ),
        Command::BindPipeline { bind_point: PIPELINE_BIND_POINT_GRAPHICS, pipeline },
        Command::SetViewport(whole_viewport(render_extent)),
        Command::SetScissor(render_extent),
    ]
}

/// The commands that draw a mesh: push its world matrix and the address of
/// its vertices to the vertex stage, bind its index buffer, and draw the
/// range of indices of each surface once, in the order of the surfaces. A
/// start beyond thirty-two bits is cut to its low thirty-two bits.
pub open spec fn mesh_draw(
    layout: u64,
    world_matrix: [u32; 16],
    vertex_address: u64,
    index_buffer: u64,
    surfaces: Seq<GeometricSurface>,
) -> Seq<Command> {
    seq![
        Command::PushDrawConstants {
            layout,
            stage_flags: SHADER_STAGE_VERTEX,
            world_matrix,
            device_address: vertex_address,
        },
        Command::BindIndexBuffer { buffer: index_buffer, offset: 0, index_type: INDEX_TYPE_UINT32 },
    ] + Seq::new(
        surfaces.len(),
        |i: int|
            Command::DrawIndexed {
                index_count: surfaces[i].count,
                instance_count: 1,
                first_index: surfaces[i].start_idx as u32,
                vertex_offset: 0,
                first_instance: 0,
            },
    )
}

/// A graphics pipeline and its layout.
#[derive(Debug, PartialEq, Eq, Structural)]
pub struct GraphicsPipeline {
    pipeline: u64,
    pipeline_layout: u64,
}

impl GraphicsPipeline {
    pub closed spec fn spec_pipeline(&self) -> u64 {
        self.pipeline
    }

    pub closed spec fn spec_layout(&self) -> u64 {
        self.pipeline_layout
    }

    pub fn new(pipeline: u64, pipeline_layout: u64) -> (created: Self)
        ensures
            created.spec_pipeline() == pipeline,
            created.spec_layout() == pipeline_layout,
    {
        GraphicsPipeline { pipeline, pipeline_layout }
    }

    pub fn layout(&self) -> (layout: u64)
        ensures
            layout == self.spec_layout(),
    {
        self.pipeline_layout
    }

    pub fn pipeline(&self) -> (pipeline: u64)
        ensures
            pipeline == self.spec_pipeline(),
    {
        self.pipeline
    }

    pub fn begin_drawing(
        &self,
        color_image: u64,
        depth_image: u64,
        color_image_layout: i32,
        depth_image_layout: i32,
        render_extent: Extent2D,
        clear_color: Option<ClearColorValue>,
    ) -> (commands: Vec<Command>)
        ensures
            commands@ == drawing_begin(
                self.spec_pipeline(),
                color_image,
                depth_image,
                color_image_layout,
                depth_image_layout,
                render_extent,
                clear_color,
            ),
    {
        let color_attachment_info = match clear_color {
            Some(color) => RenderingAttachmentInfo {
                image_view: color_image,
                image_layout: color_image_layout,
                load_op: ATTACHMENT_LOAD_OP_CLEAR,
                store_op: ATTACHMENT_STORE_OP_STORE,
                clear_value: ClearValue::Color(color),
            },
            None => RenderingAttachmentInfo {
                image_view: color_image,
                image_layout: color_image_layout,
                load_op: ATTACHMENT_LOAD_OP_LOAD,
                store_op: ATTACHMENT_STORE_OP_STORE,
                clear_value: ClearValue::Color(
                    ClearColorValue { red: 0, green: 0, blue: 0, alpha: 0 },
                ),
            },
        };
        let depth_attachment_info = RenderingAttachmentInfo {
            image_view: depth_image,
            image_layout: depth_image_layout,
            load_op: ATTACHMENT_LOAD_OP_CLEAR,
            store_op: ATTACHMENT_STORE_OP_STORE,
            clear_value: ClearValue::DepthStencil { depth: 0, stencil: 0 },
        };
        let mut commands: Vec<Command> = Vec::new();
        commands.push(
            Command::BeginRendering(
                RenderingInfo {
                    render_area: render_extent,
                    layer_count: 1,
                    color_attachment: color_attachment_info,
                    depth_attachment: depth_attachment_info,
                },
            ),
        );
        commands.push(
            Command::BindPipeline {
                bind_point: PIPELINE_BIND_POINT_GRAPHICS,
                pipeline: self.pipeline,
            },
        );
        commands.push(
            Command::SetViewport(
                Viewport {
                    width: render_extent.width,
                    height: render_extent.height,
                    min_depth: 0,
                    max_depth: ONE,
                },
            ),
        );
        commands.push(Command::SetScissor(render_extent));
        assert(commands@ =~= drawing_begin(
            self.spec_pipeline(),
            color_image,
            depth_image,
            color_image_layout,
            depth_image_layout,
            render_extent,
            clear_color,
        ));
        commands
    }

    pub fn end_drawing(&self) -> (command: Command)
        ensures
            command == Command::EndRendering,
    {
        Command::EndRendering
    }

    /// The commands that draw `mesh` at `world_matrix`, sixteen floats as
    /// their bit patterns. Viewport and scissor were set when drawing
    /// began, so `render_extent` changes nothing.
    pub fn draw(
        &self,
        render_extent: Extent2D,
        mesh: &MeshAsset,
        world_matrix: [u32; 16],
    ) -> (commands: Vec<Command>)
        ensures
            commands@ == mesh_draw(
                self.spec_layout(),
                world_matrix,
                mesh.spec_buffers().spec_vertex_buffer_address(),
                mesh.spec_buffers().spec_index_buffer().buffer,
                mesh.spec_surfaces(),
            ),
    {
        let buffers = mesh.buffers();
        let surfaces = mesh.surfaces();
        let mut commands: Vec<Command> = Vec::new();
        commands.push(
            Command::PushDrawConstants {
                layout: self.pipeline_layout,
                stage_flags: SHADER_STAGE_VERTEX,
                world_matrix,
                device_address: buffers.vertex_buffer_address(),
            },
        );
        commands.push(
            Command::BindIndexBuffer {
                buffer: buffers.index_buffer(),
                offset: 0,
                index_type: INDEX_TYPE_UINT32,
            },
        );
        let ghost fixed = commands@;
        let mut i: usize = 0;
        while i < surfaces.len()
            invariant
                i <= surfaces.len(),
                commands@ == fixed + Seq::new(
                    i as nat,
                    |k: int|
                        Command::DrawIndexed {
                            index_count: surfaces@[k].count,
                            instance_count: 1,
                            first_index: surfaces@[k].start_idx as u32,
                            vertex_offset: 0,
                            first_instance: 0,
                        },
                ),
            decreases surfaces.len() - i,
        {
            let surface = surfaces[i];
            commands.push(
                Command::DrawIndexed {
                    index_count: surface.count,
                    instance_count: 1,
                    first_index: #[verifier::truncate] (surface.start_idx as u32),
                    vertex_offset: 0,
                    first_instance: 0,
                },
            );
            i += 1;
            assert(commands@ =~= fixed + Seq::new(
                i as nat,
                |k: int|
                    Command::DrawIndexed {
                        index_count: surfaces@[k].count,
                        instance_count: 1,
                        first_index: surfaces@[k].start_idx as u32,
                        vertex_offset: 0,
                        first_instance: 0,
                    },
            ));
        }
        assert(commands@ =~= mesh_draw(
            self.spec_layout(),
            world_matrix,
            mesh.spec_buffers().spec_vertex_buffer_address(),
            mesh.spec_buffers().spec_index_buffer().buffer,
            mesh.spec_surfaces(),
        ));
        commands
    }

    /// What the caller destroys to give the pipeline up: the pipeline, then
    /// its layout.
    pub fn release(self) -> (teardown: (u64, u64))
        ensures
            teardown == (self.spec_pipeline(), self.spec_layout()),
    {
        (self.pipeline, self.pipeline_layout)
    }
}

/// How fragments are blended into the color target.
#[derive(Clone, Copy, Debug, PartialEq, Eq, Structural)]
pub struct ColorBlendAttachmentState {
    pub blend_enable: bool,
    pub src_color_blend_factor: i32,
    pub dst_color_blend_factor: i32,
    pub color_blend_op: i32,
    pub src_alpha_blend_factor: i32,
    pub dst_alpha_blend_factor: i32,
    pub alpha_blend_op: i32,
    pub color_write_mask: u32,
}

/// How fragments are tested against the depth target.
#[derive(Clone, Copy, Debug, PartialEq, Eq, Structural)]
pub struct DepthStencilState {
    pub depth_test_enable: bool,
    pub depth_write_enable: bool,
    pub depth_compare_op: i32,
    pub depth_bounds_test_enable: bool,
    pub stencil_test_enable: bool,
}

#[derive(Clone, Copy, Debug, PartialEq, Eq, Structural)]
pub struct MultisampleState {
    pub sample_shading_enable: bool,
    pub rasterization_samples: u32,
    pub alpha_to_coverage_enable: bool,
    pub alpha_to_one_enable: bool,
}

#[derive(Clone, Copy, Debug, PartialEq, Eq, Structural)]
pub struct InputAssemblyState {
    pub topology: i32,
    pub primitive_restart_enable: bool,
}

#[derive(Clone, Copy, Debug, PartialEq, Eq, Structural)]
pub struct RasterizationState {
    pub polygon_mode: i32,
    pub cull_mode: u32,
    pub front_face: i32,
}

/// The formats of the targets that a pipeline renders to.
#[derive(Clone, Copy, Debug, PartialEq, Eq, Structural)]
pub struct RenderingFormats {
    pub color_attachment_count: u32,
    pub color_attachment_format: i32,
    pub depth_attachment_format: i32,
}

/// The settings of a graphics pipeline that do not depend on the shaders.
#[derive(Clone, Copy, Debug, PartialEq, Eq, Structural)]
pub struct FixedFunctionState {
    pub input_assembly: InputAssemblyState,
    pub rasterizer: RasterizationState,
    pub color_blend_attachment: ColorBlendAttachmentState,
    pub multisampling: MultisampleState,
    pub depth_stencil: DepthStencilState,
    pub rendering: RenderingFormats,
}

/// What a graphics pipeline is created with. Viewport and scissor are set
/// while recording, and vertices are pulled by the shader, so neither is
/// described here.
#[derive(Debug)]
pub struct GraphicsPipelineCreateInfo {
    pub shader_stages: Vec<PipelineShaderStageCreateInfo>,
    pub fixed: FixedFunctionState,
    pub layout: u64,
    pub viewport_count: u32,
    pub scissor_count: u32,
    pub logic_op_enable: bool,
    pub logic_op: i32,
    pub dynamic_states: Vec<i32>,
}

/// The state that is set while recording: viewport and scissor.
pub open spec fn dynamic_states() -> Seq<i32> {
    seq![DYNAMIC_STATE_VIEWPORT, DYNAMIC_STATE_SCISSOR]
}

/// Why a graphics pipeline cannot be built.
#[derive(Clone, Copy, Debug, PartialEq, Eq, Structural)]
pub enum BuildError {
    /// No pipeline layout was set.
    MissingLayout,
    /// No shaders were set.
    MissingShaders,
}

/// The settings of a builder on which nothing was set.
pub open spec fn initial_fixed_state() -> FixedFunctionState {
    FixedFunctionState {
        input_assembly: InputAssemblyState { topology: 0, primitive_restart_enable: false },
        rasterizer: RasterizationState { polygon_mode: 0, cull_mode: 0, front_face: 0 },
        color_blend_attachment: ColorBlendAttachmentState {
            blend_enable: false,
            src_color_blend_factor: 0,
            dst_color_blend_factor: 0,
            color_blend_op: 0,
            src_alpha_blend_factor: 0,
            dst_alpha_blend_factor: 0,
            alpha_blend_op: 0,
            color_write_mask: 0,
        },
        multisampling: MultisampleState {
            sample_shading_enable: false,
            rasterization_samples: 0,
            alpha_to_coverage_enable: false,
            alpha_to_one_enable: false,
        },
        depth_stencil: DepthStencilState {
            depth_test_enable: false,
            depth_write_enable: false,
            depth_compare_op: 0,
            depth_bounds_test_enable: false,
            stencil_test_enable: false,
        },
        rendering: RenderingFormats {
            color_attachment_count: 0,
            color_attachment_format: FORMAT_UNDEFINED,
            depth_attachment_format: FORMAT_UNDEFINED,
        },
    }
}

/// Blending of the kind that adds the source, weighted by a factor for the
/// target's color.
pub open spec fn blending(dst_color_blend_factor: i32) -> ColorBlendAttachmentState {
    ColorBlendAttachmentState {
        blend_enable: true,
        src_color_blend_factor: BLEND_FACTOR_SRC_ALPHA,
        dst_color_blend_factor,
        color_blend_op: BLEND_OP_ADD,
        src_alpha_blend_factor: BLEND_FACTOR_ONE,
        dst_alpha_blend_factor: BLEND_FACTOR_ZERO,
        alpha_blend_op: BLEND_OP_ADD,
        color_write_mask: COLOR_COMPONENT_RGBA,
    }
}

/// Collects the settings of a graphics pipeline. Each setter changes the
/// settings it names and keeps the others; `build_pipeline` checks that
/// layout and shaders were set.
#[derive(Debug)]
pub struct GraphicsPipelineBuilder {
    shader_stages: Vec<PipelineShaderStageCreateInfo>,
    fixed: FixedFunctionState,
    pipeline_layout: Option<u64>,
}

impl GraphicsPipelineBuilder {
    pub closed spec fn fixed(&self) -> FixedFunctionState {
        self.fixed
    }

    pub closed spec fn layout(&self) -> Option<u64> {
        self.pipeline_layout
    }

    pub closed spec fn stages(&self) -> Seq<PipelineShaderStageCreateInfo> {
        self.shader_stages@
    }

    pub fn new() -> (builder: Self)
        ensures
            builder.fixed() == initial_fixed_state(),
            builder.layout() is None,
            builder.stages().len() == 0,
    {
        GraphicsPipelineBuilder {
            shader_stages: Vec::new(),
            fixed: FixedFunctionState {
                input_assembly: InputAssemblyState { topology: 0, primitive_restart_enable: false },
                rasterizer: RasterizationState { polygon_mode: 0, cull_mode: 0, front_face: 0 },
                color_blend_attachment: ColorBlendAttachmentState {
                    blend_enable: false,
                    src_color_blend_factor: 0,
                    dst_color_blend_factor: 0,
                    color_blend_op: 0,
                    src_alpha_blend_factor: 0,
                    dst_alpha_blend_factor: 0,
                    alpha_blend_op: 0,
                    color_write_mask: 0,
                },
                multisampling: MultisampleState {
                    sample_shading_enable: false,
                    rasterization_samples: 0,
                    alpha_to_coverage_enable: false,
                    alpha_to_one_enable: false,
                },
                depth_stencil: DepthStencilState {
                    depth_test_enable: false,
                    depth_write_enable: false,
                    depth_compare_op: 0,
                    depth_bounds_test_enable: false,
                    stencil_test_enable: false,
                },
                rendering: RenderingFormats {
                    color_attachment_count: 0,
                    color_attachment_format: FORMAT_UNDEFINED,
                    depth_attachment_format: FORMAT_UNDEFINED,
                },
            },
            pipeline_layout: None,
        }
    }

    /// Describes the pipeline of the settings collected. A builder without
    /// a layout is refused, and so is one without shaders.
    pub fn build_pipeline(self) -> (built: Result<GraphicsPipelineCreateInfo, BuildError>)
        ensures
            self.layout() is None ==> built == Err::<GraphicsPipelineCreateInfo, BuildError>(
                BuildError::MissingLayout,
            ),
            self.layout() is Some && self.stages().len() == 0 ==> built == Err::<
                GraphicsPipelineCreateInfo,
                BuildError,
            >(BuildError::MissingShaders),
            self.layout() is Some && self.stages().len() > 0 ==> built is Ok,
            built matches Ok(info) ==> {
                &&& Some(info.layout) == self.layout()
                &&& info.shader_stages@ == self.stages()
                &&& info.fixed == self.fixed()
                &&& info.viewport_count == 1
                &&& info.scissor_count == 1
                &&& !info.logic_op_enable
                &&& info.logic_op == LOGIC_OP_COPY
                &&& info.dynamic_states@ == dynamic_states()
            },
    {
        match self.pipeline_layout {
            None => Err(BuildError::MissingLayout),
            Some(layout) => {
                if self.shader_stages.len() == 0 {
                    Err(BuildError::MissingShaders)
                } else {
                    let mut states: Vec<i32> = Vec::new();
                    states.push(DYNAMIC_STATE_VIEWPORT);
                    states.push(DYNAMIC_STATE_SCISSOR);
                    assert(states@ =~= dynamic_states());
                    Ok(
                        GraphicsPipelineCreateInfo {
                            shader_stages: self.shader_stages,
                            fixed: self.fixed,
                            layout,
                            viewport_count: 1,
                            scissor_count: 1,
                            logic_op_enable: false,
                            logic_op: LOGIC_OP_COPY,
                            dynamic_states: states,
                        },
                    )
                }
            },
        }
    }

    pub fn set_layout(self, layout: u64) -> (builder: Self)
        ensures
            builder.layout() == Some(layout),
            builder.fixed() == self.fixed(),
            builder.stages() == self.stages(),
    {
        let mut builder = self;
        builder.pipeline_layout = Some(layout);
        builder
    }

    /// Adds the fragment shader and then the vertex shader.
    pub fn set_shaders(self, fragment_shader: &ShaderModule, vertex_shader: &ShaderModule) -> (builder:
        Self)
        ensures
            builder.layout() == self.layout(),
            builder.fixed() == self.fixed(),
            builder.stages().len() == self.stages().len() + 2,
            builder.stages().take(self.stages().len() as int) == self.stages(),
            ({
                let fragment = builder.stages()[self.stages().len() as int];
                let vertex = builder.stages()[self.stages().len() as int + 1];
                &&& fragment.stage == SHADER_STAGE_FRAGMENT
                &&& fragment.module == fragment_shader.spec_module()
                &&& fragment.entry_point@ == crate::shader::SHADER_ENTRY_POINT@
                &&& vertex.stage == SHADER_STAGE_VERTEX
                &&& vertex.module == vertex_shader.spec_module()
                &&& vertex.entry_point@ == crate::shader::SHADER_ENTRY_POINT@
            }),
    {
        let mut builder = self;
        builder.shader_stages.push(fragment_shader.create_shader_stage_info(SHADER_STAGE_FRAGMENT));
        builder.shader_stages.push(vertex_shader.create_shader_stage_info(SHADER_STAGE_VERTEX));
        assert(builder.stages().take(self.stages().len() as int) =~= self.stages());
        builder
    }

    /// Sets the topology, without primitive restart.
    pub fn set_input_topology(self, topology: i32) -> (builder: Self)
        ensures
            builder.layout() == self.layout(),
            builder.stages() == self.stages(),
            builder.fixed() == (FixedFunctionState {
                input_assembly: InputAssemblyState { topology, primitive_restart_enable: false },
                ..self.fixed()
            }),
    {
        let mut builder = self;
        builder.fixed.input_assembly = InputAssemblyState {
            topology,
            primitive_restart_enable: false,
        };
        builder
    }

    pub fn set_polygon_mode(self, mode: i32) -> (builder: Self)
        ensures
            builder.layout() == self.layout(),
            builder.stages() == self.stages(),
            builder.fixed() == (FixedFunctionState {
                rasterizer: RasterizationState { polygon_mode: mode, ..self.fixed().rasterizer },
                ..self.fixed()
            }),
    {
        let mut builder = self;
        builder.fixed.rasterizer.polygon_mode = mode;
        builder
    }

    pub fn set_cull_mode(self, mode: u32, front_face: i32) -> (builder: Self)
        ensures
            builder.layout() == self.layout(),
            builder.stages() == self.stages(),
            builder.fixed() == (FixedFunctionState {
                rasterizer: RasterizationState {
                    cull_mode: mode,
                    front_face,
                    ..self.fixed().rasterizer
                },
                ..self.fixed()
            }),
    {
        let mut builder = self;
        builder.fixed.rasterizer.cull_mode = mode;
        builder.fixed.rasterizer.front_face = front_face;
        builder
    }

    /// One sample per pixel, and nothing else of multisampling.
    pub fn disable_multisampling(self) -> (builder: Self)
        ensures
            builder.layout() == self.layout(),
            builder.stages() == self.stages(),
            builder.fixed() == (FixedFunctionState {
                multisampling: MultisampleState {
                    sample_shading_enable: false,
                    rasterization_samples: SAMPLE_COUNT_1,
                    alpha_to_coverage_enable: false,
                    alpha_to_one_enable: false,
                },
                ..self.fixed()
            }),
    {
        let mut builder = self;
        builder.fixed.multisampling = MultisampleState {
            sample_shading_enable: false,
            rasterization_samples: SAMPLE_COUNT_1,
            alpha_to_coverage_enable: false,
            alpha_to_one_enable: false,
        };
        builder
    }

    /// No blending; every color component is written.
    pub fn disable_blending(self) -> (builder: Self)
        ensures
            builder.layout() == self.layout(),
            builder.stages() == self.stages(),
            builder.fixed() == (FixedFunctionState {
                color_blend_attachment: ColorBlendAttachmentState {
                    blend_enable: false,
                    color_write_mask: COLOR_COMPONENT_RGBA,
                    ..self.fixed().color_blend_attachment
                },
                ..self.fixed()
            }),
    {
        let mut builder = self;
        builder.fixed.color_blend_attachment.blend_enable = false;
        builder.fixed.color_blend_attachment.color_write_mask = COLOR_COMPONENT_RGBA;
        builder
    }

    /// One color target of the format `format`.
    pub fn set_color_attachment_format(self, format: i32) -> (builder: Self)
        ensures
            builder.layout() == self.layout(),
            builder.stages() == self.stages(),
            builder.fixed() == (FixedFunctionState {
                rendering: RenderingFormats {
                    color_attachment_count: 1,
                    color_attachment_format: format,
                    ..self.fixed().rendering
                },
                ..self.fixed()
            }),
    {
        let mut builder = self;
        builder.fixed.rendering.color_attachment_format = format;
        builder.fixed.rendering.color_attachment_count = 1;
        builder
    }

    pub fn set_depth_format(self, format: i32) -> (builder: Self)
        ensures
            builder.layout() == self.layout(),
            builder.stages() == self.stages(),
            builder.fixed() == (FixedFunctionState {
                rendering: RenderingFormats {
                    depth_attachment_format: format,
                    ..self.fixed().rendering
                },
                ..self.fixed()
            }),
    {
        let mut builder = self;
        builder.fixed.rendering.depth_attachment_format = format;
        builder
    }

    /// No depth test and no depth writes.
    pub fn disable_depth_test(self) -> (builder: Self)
        ensures
            builder.layout() == self.layout(),
            builder.stages() == self.stages(),
            builder.fixed() == (FixedFunctionState {
                depth_stencil: DepthStencilState {
                    depth_test_enable: false,
                    depth_write_enable: false,
                    depth_compare_op: COMPARE_OP_NEVER,
                    depth_bounds_test_enable: false,
                    stencil_test_enable: false,
                },
                ..self.fixed()
            }),
    {
        let mut builder = self;
        builder.fixed.depth_stencil = DepthStencilState {
            depth_test_enable: false,
            depth_write_enable: false,
            depth_compare_op: COMPARE_OP_NEVER,
            depth_bounds_test_enable: false,
            stencil_test_enable: false,
        };
        builder
    }

    /// The depth test with `compare_op`, writing depth where
    /// `depth_write_enable`.
    pub fn enable_depth_test(self, depth_write_enable: bool, compare_op: i32) -> (builder: Self)
        ensures
            builder.layout() == self.layout(),
            builder.stages() == self.stages(),
            builder.fixed() == (FixedFunctionState {
                depth_stencil: DepthStencilState {
                    depth_test_enable: true,
                    depth_write_enable,
                    depth_compare_op: compare_op,
                    depth_bounds_test_enable: false,
                    stencil_test_enable: false,
                },
                ..self.fixed()
            }),
    {
        let mut builder = self;
        builder.fixed.depth_stencil = DepthStencilState {
            depth_test_enable: true,
            depth_write_enable,
            depth_compare_op: compare_op,
            depth_bounds_test_enable: false,
            stencil_test_enable: false,
        };
        builder
    }

    /// Additive blending: the source, weighted by its alpha, is added to the
    /// target.
    pub fn enable_blending_additive(self) -> (builder: Self)
        ensures
            builder.layout() == self.layout(),
            builder.stages() == self.stages(),
            builder.fixed() == (FixedFunctionState {
                color_blend_attachment: blending(BLEND_FACTOR_ONE),
                ..self.fixed()
            }),
    {
        let mut builder = self;
        builder.fixed.color_blend_attachment = ColorBlendAttachmentState {
            blend_enable: true,
            src_color_blend_factor: BLEND_FACTOR_SRC_ALPHA,
            dst_color_blend_factor: BLEND_FACTOR_ONE,
            color_blend_op: BLEND_OP_ADD,
            src_alpha_blend_factor: BLEND_FACTOR_ONE,
            dst_alpha_blend_factor: BLEND_FACTOR_ZERO,
            alpha_blend_op: BLEND_OP_ADD,
            color_write_mask: COLOR_COMPONENT_RGBA,
        };
        builder
    }

    /// Alpha blending: the source, weighted by its alpha, is added to the
    /// target, weighted by what is left of it.
    pub fn enable_blending_alphablend(self) -> (builder: Self)
        ensures
            builder.layout() == self.layout(),
            builder.stages() == self.stages(),
            builder.fixed() == (FixedFunctionState {
                color_blend_attachment: blending(BLEND_FACTOR_ONE_MINUS_SRC_ALPHA),
                ..self.fixed()
            }),
    {
        let mut builder = self;
        builder.fixed.color_blend_attachment = ColorBlendAttachmentState {
            blend_enable: true,
            src_color_blend_factor: BLEND_FACTOR_SRC_ALPHA,
            dst_color_blend_factor: BLEND_FACTOR_ONE_MINUS_SRC_ALPHA,
            color_blend_op: BLEND_OP_ADD,
            src_alpha_blend_factor: BLEND_FACTOR_ONE,
            dst_alpha_blend_factor: BLEND_FACTOR_ZERO,
            alpha_blend_op: BLEND_OP_ADD,
            color_write_mask: COLOR_COMPONENT_RGBA,
        };
        builder
    }
}

} // verus!
