use crate::allocation::AllocatedBuffer;
use crate::allocation::AllocatedImage;
use crate::allocation::BufferState;
use crate::allocation::ImageState;
use crate::allocation::TeardownStep;
use crate::allocation::MemoryLocation;
use crate::allocation::TextureUpload;
use crate::bytes::append_words;
use crate::bytes::holds_words;
use crate::color::excess_bits;
use crate::color::binary_places;
use crate::color::lemma_quantized_range;
use crate::color::pack_unorm4x8;
use crate::color::packed_unorm4x8;
use crate::color::quantized_unorm8;
use crate::color::rounded_half_up;
use crate::color::rounded_to_even;
use crate::color::significand;
use crate::color::ONE;
use crate::constants::BUFFER_USAGE_UNIFORM_BUFFER;
use crate::constants::BUFFER_USAGE_TRANSFER_SRC;
use crate::constants::COMMAND_BUFFER_USAGE_ONE_TIME_SUBMIT;
use crate::constants::COMMAND_POOL_CREATE_RESET_COMMAND_BUFFER;
use crate::constants::FORMAT_R16G16B16A16_SFLOAT;
use crate::constants::IMAGE_USAGE_COLOR_ATTACHMENT;
use crate::constants::IMAGE_USAGE_STORAGE;
use crate::constants::IMAGE_USAGE_TRANSFER_SRC;
use crate::constants::IMAGE_USAGE_TRANSFER_DST;
use crate::constants::IMAGE_ASPECT_COLOR;
use crate::constants::FORMAT_D32_SFLOAT;
use crate::constants::IMAGE_USAGE_DEPTH_STENCIL_ATTACHMENT;
use crate::constants::IMAGE_ASPECT_DEPTH;
use crate::constants::DESCRIPTOR_TYPE_COMBINED_IMAGE_SAMPLER;
use crate::constants::DESCRIPTOR_TYPE_STORAGE_BUFFER;
use crate::constants::DESCRIPTOR_TYPE_STORAGE_IMAGE;
use crate::constants::DESCRIPTOR_TYPE_UNIFORM_BUFFER;
use crate::constants::FENCE_CREATE_SIGNALED;
use crate::constants::FORMAT_R8G8B8A8_UNORM;
use crate::constants::IMAGE_LAYOUT_COLOR_ATTACHMENT_OPTIMAL;
use crate::constants::IMAGE_LAYOUT_DEPTH_ATTACHMENT_OPTIMAL;
use crate::constants::IMAGE_LAYOUT_GENERAL;
use crate::constants::IMAGE_LAYOUT_PRESENT_SRC;
use crate::constants::IMAGE_LAYOUT_SHADER_READ_ONLY_OPTIMAL;
use crate::constants::IMAGE_LAYOUT_TRANSFER_DST_OPTIMAL;
use crate::constants::IMAGE_LAYOUT_TRANSFER_SRC_OPTIMAL;
use crate::constants::IMAGE_LAYOUT_UNDEFINED;
use crate::constants::IMAGE_USAGE_SAMPLED;
use crate::constants::PIPELINE_BIND_POINT_GRAPHICS;
use crate::constants::PIPELINE_STAGE_ALL_GRAPHICS;
use crate::constants::PIPELINE_STAGE_COLOR_ATTACHMENT_OUTPUT;
use crate::constants::SHADER_STAGE_COMPUTE;
use crate::constants::SHADER_STAGE_FRAGMENT;
use crate::constants::SHADER_STAGE_VERTEX;
use crate::descriptor::aimed_at;
use crate::descriptor::buffer_write;
use crate::descriptor::image_write;
use crate::descriptor::pool_create_info;
use crate::descriptor::pool_create_model;
use crate::descriptor::AllocationStep;
use crate::descriptor::AllocatorState;
use crate::descriptor::DescriptorAllocatorGrowable;
use crate::descriptor::DescriptorLayoutBuilder;
use crate::descriptor::DescriptorPoolCreateInfo;
use crate::descriptor::DescriptorSetLayoutBinding;
use crate::descriptor::DescriptorSetLayoutCreateInfo;
use crate::descriptor::DescriptorWriter;
use crate::descriptor::PoolSizeRatio;
use crate::descriptor::WriteDescriptorSet;
use crate::constants::COLOR_COMPONENT_RGBA;
use crate::constants::COMPARE_OP_GREATER_OR_EQUAL;
use crate::constants::CULL_MODE_NONE;
use crate::constants::DEBUG_SEVERITY_ERROR;
use crate::constants::DEBUG_SEVERITY_WARNING;
use crate::constants::DEBUG_TYPE_GENERAL;
use crate::constants::DEBUG_TYPE_PERFORMANCE;
use crate::constants::DEBUG_TYPE_VALIDATION;
use crate::constants::FRONT_FACE_CLOCKWISE;
use crate::constants::POLYGON_MODE_FILL;
use crate::constants::PRIMITIVE_TOPOLOGY_TRIANGLE_LIST;
use crate::constants::SAMPLE_COUNT_1;
use crate::debug::get_required_extensions;
use crate::debug::get_required_layers;
use crate::debug::DebugMessenger;
use crate::debug::DebugMessengerCreateInfo;
use crate::debug::DEBUG_UTILS_EXTENSION;
use crate::debug::VALIDATION_LAYER;
use crate::device::image_blit;
use crate::instance::AppInfo;
use crate::instance::EngineInfo;
use crate::instance::Version;
use crate::physical_device::PhysicalDeviceSelector;
use crate::pipelines::dynamic_states;
use crate::pipelines::initial_fixed_state;
use crate::pipelines::ColorBlendAttachmentState;
use crate::pipelines::DepthStencilState;
use crate::pipelines::FixedFunctionState;
use crate::pipelines::BuildError;
use crate::pipelines::GraphicsPipelineBuilder;
use crate::pipelines::GraphicsPipelineCreateInfo;
use crate::pipelines::InputAssemblyState;
use crate::pipelines::MultisampleState;
use crate::pipelines::PipelineLayoutCreateInfo;
use crate::pipelines::PushConstantRange;
use crate::pipelines::RasterizationState;
use crate::pipelines::RenderingFormats;
use crate::shader::ShaderModule;
use crate::window::get_required_instance_extensions;
use crate::window::platform_surface_extension;
use crate::window::DisplayKind;
use crate::window::SURFACE_EXTENSION;
use crate::device::layout_transition;
use crate::device::record_all;
use crate::device::recorded;
use crate::device::BufferCreateInfo;
use crate::device::Command;
use crate::device::CommandPoolCreateInfo;
use crate::device::Device;
use crate::device::ImageCreateInfo;
use crate::device::Extent2D;
use crate::device::Extent3D;
use crate::device::QueueStep;
use crate::device::SemaphoreSubmitInfo;
use crate::device::SubmitInfo;
use crate::mesh::MeshAsset;
use crate::mesh::Vec4;
use crate::pipelines::compute_pass;
use crate::pipelines::drawing_begin;
use crate::pipelines::mesh_draw;
use crate::pipelines::ComputePipeline;
use crate::pipelines::GraphicsPipeline;
use crate::window::AcquireInfo;
use crate::window::LogicalSize;
use crate::window::PresentInfo;
use crate::window::Swapchain;
use crate::window::SwapchainState;
use vstd::arithmetic::div_mod::lemma_fundamental_div_mod_converse;
use vstd::arithmetic::power2::lemma2_to64;
use vstd::arithmetic::power2::pow2;
use vstd::prelude::*;

verus! {

/// The number of frame slots: the CPU records at most this many frames
/// ahead of the one on display.
pub const MAX_FRAMES_IN_FLIGHT: usize = 2;

/// How long a frame waits for its fence and for a presentable image, in
/// nanoseconds.
pub const FRAME_TIMEOUT: u64 = 1_000_000_000;

/// The bytes of the scene data of one frame: three matrices of sixteen
/// floats and three vectors of four.
pub const GPU_SCENE_DATA_SIZE: u64 = 240;

/// The sets that the first descriptor pool of a frame slot holds.
pub const FRAME_DESCRIPTOR_SETS: u32 = 1000;

/// The sets that the pool of the draw image's descriptor holds.
pub const DRAW_IMAGE_DESCRIPTOR_SETS: u32 = 10;

/// The mesh that every frame draws.
pub const DRAWN_MESH: usize = 2;

/// The side of the texture that stands in for a missing one.
pub const CHECKERBOARD_SIZE: usize = 16;

/// The bytes of the constants pushed for a mesh: its world matrix and the
/// address of its vertices.
pub const GPU_DRAW_PUSH_CONSTANTS_SIZE: u32 = 72;

pub const APPLICATION_NAME: &'static str = "Vulkan Renderer";

pub const ENGINE_NAME: &'static str = "Vulkan Engine";

/// Where the compiled shaders and the meshes lie.
pub const GRADIENT_SHADER_PATH: &'static str = "shaders/gradient_color_comp.spv";

pub const MESH_FRAGMENT_SHADER_PATH: &'static str = "shaders/tex_image_frag.spv";

pub const MESH_VERTEX_SHADER_PATH: &'static str = "shaders/triangle_mesh_vert.spv";

pub const MESH_ASSET_PATH: &'static str = "./assets/basicmesh.glb";

/// The bit pattern of the single-precision float 0.67, the level of the
/// grey default texture.
pub const GREY: u32 = 0x3F2B_851F;

/// The bit pattern of the single-precision float 0.2.
pub const FLOAT_FIFTH: u32 = 0x3E4C_CCCD;

/// The bit pattern of the single-precision float -1.0.
pub const FLOAT_MINUS_ONE: u32 = 0xBF80_0000;

/// The bit pattern of the single-precision float 10.0.
pub const FLOAT_TEN: u32 = 0x4120_0000;

/// The color of the cell in row `i` and column `j` of a checkerboard: the
/// even color where `i + j` is even, the odd color else.
pub open spec fn checker_cell(i: int, j: int, even: u32, odd: u32) -> u32 {
    if (i + j) % 2 == 0 {
        even
    } else {
        odd
    }
}

/// A square checkerboard of the side `size`, row after row.
pub fn checkerboard(size: usize, even: u32, odd: u32) -> (pixels: Vec<u32>)
    requires
        size * size <= usize::MAX,
    ensures
        pixels.len() == size * size,
        forall|i: int, j: int|
            0 <= i < size && 0 <= j < size ==> #[trigger] pixels[i * size + j] == checker_cell(
                i,
                j,
                even,
                odd,
            ),
{
    let mut pixels: Vec<u32> = Vec::new();
    let mut i: usize = 0;
    while i < size
        invariant
            i <= size,
            size * size <= usize::MAX,
            pixels.len() == i * size,
            forall|k: int|
                0 <= k < pixels.len() ==> #[trigger] pixels[k] == checker_cell(
                    k / size as int,
                    k % size as int,
                    even,
                    odd,
                ),
        decreases size - i,
    {
        let mut j: usize = 0;
        while j < size
            invariant
                i < size,
                j <= size,
                size * size <= usize::MAX,
                pixels.len() == i * size + j,
                forall|k: int|
                    0 <= k < pixels.len() ==> #[trigger] pixels[k] == checker_cell(
                        k / size as int,
                        k % size as int,
                        even,
                        odd,
                    ),
            decreases size - j,
        {
            proof {
                lemma_fundamental_div_mod_converse(
                    i * size + j,
                    size as int,
                    i as int,
                    j as int,
                );
                assert(i * size + j < size * size) by (nonlinear_arith)
                    requires
                        i < size,
                        j < size,
                ;
            }
            let color: u32 = if (i % 2 + j % 2) % 2 == 0 {
                even
            } else {
                odd
            };
            pixels.push(color);
            j += 1;
        }
        assert((i + 1) * size == i * size + size) by (nonlinear_arith);
        i += 1;
    }
    assert forall|i: int, j: int| 0 <= i < size && 0 <= j < size implies #[trigger] pixels[i * size
        + j] == checker_cell(i, j, even, odd) by {
        lemma_fundamental_div_mod_converse(i * size + j, size as int, i, j);
        assert(0 <= i * size + j < size * size) by (nonlinear_arith)
            requires
                0 <= i < size,
                0 <= j < size,
        ;
    }
    pixels
}

/// The textures that stand in where a material has none: the pixels of
/// each, and what its upload starts with.
#[derive(Debug)]
pub struct DefaultTextures {
    pub white: u32,
    pub black: u32,
    pub grey: u32,
    pub error_checkerboard: Vec<u32>,
    pub white_upload: TextureUpload<'static>,
    pub black_upload: TextureUpload<'static>,
    pub grey_upload: TextureUpload<'static>,
    pub error_checkerboard_upload: TextureUpload<'static>,
}

/// Whether `upload` is what the upload of a default texture of the side
/// `side` starts with: a staging buffer for four bytes per pixel, and a
/// square image of eight bits per channel that is sampled and copied to and
/// from, with one mip level.
pub open spec fn default_upload(upload: TextureUpload<'static>, side: u32) -> bool {
    &&& upload.staging@ == BufferState::described(
        "Texture Staging Buffer"@,
        BUFFER_USAGE_TRANSFER_SRC,
        (side * side * 4) as u64,
        MemoryLocation::CpuToGpu,
    )
    &&& upload.staging_info == upload.staging@.create_info()
    &&& upload.image@ == ImageState::described(
        FORMAT_R8G8B8A8_UNORM,
        IMAGE_USAGE_SAMPLED | IMAGE_USAGE_TRANSFER_DST | IMAGE_USAGE_TRANSFER_SRC,
        Extent3D { width: side, height: side, depth: 1 },
        IMAGE_ASPECT_COLOR,
        1,
    )
    &&& upload.image_info == upload.image@.create_info()
}

/// The mathematical content of `FrameData`.
pub struct FrameState {
    pub command_pool: u64,
    pub command_buffer: u64,
    pub image_available_semaphore: u64,
    pub result_presentable_semaphore: u64,
    pub in_flight_fence: u64,
    pub descriptors: AllocatorState,
    pub scene_buffer: BufferState,
    /// The frame that was submitted from this slot and whose fence the CPU
    /// has not seen signaled since.
    pub submitted: Option<usize>,
}

/// The handles that the device made for one frame slot.
#[derive(Clone, Copy, Debug, PartialEq, Eq, Structural)]
pub struct FrameHandles {
    pub command_pool: u64,
    pub command_buffer: u64,
    pub image_available_semaphore: u64,
    pub result_presentable_semaphore: u64,
    pub in_flight_fence: u64,
}

/// One step of giving up what a frame slot holds.
#[derive(Debug, PartialEq, Eq, Structural)]
pub enum FrameTeardown {
    DestroyCommandPool(u64),
    DestroySemaphore(u64),
    DestroyFence(u64),
    DestroyDescriptorPool(u64),
    /// A step of giving up the scene data buffer.
    Resource(TeardownStep),
}

/// What the device is asked to make for one frame slot, besides its scene
/// data buffer: a command pool and a command buffer from it, two
/// semaphores, a fence, and the first descriptor pool.
#[derive(Debug)]
pub struct FrameCreateInfo {
    pub command_pool: CommandPoolCreateInfo,
    /// The fence is created with these flags.
    pub fence_flags: u32,
    pub descriptor_pool: DescriptorPoolCreateInfo,
}

/// The scene data buffer of a frame slot, as it is described before it is
/// created: a uniform buffer of the size of the scene data that the CPU
/// writes.
pub open spec fn scene_buffer_described() -> BufferState {
    BufferState::described(
        "GPU Scene Data Buffer"@,
        BUFFER_USAGE_UNIFORM_BUFFER,
        GPU_SCENE_DATA_SIZE,
        MemoryLocation::CpuToGpu,
    )
}

/// The resources of one frame slot: its command buffer, its semaphores and
/// fence, its descriptor allocator and its scene data buffer.
#[derive(Debug)]
pub struct FrameData {
    command_pool: u64,
    command_buffer: u64,
    image_available_semaphore: u64,
    result_presentable_semaphore: u64,
    in_flight_fence: u64,
    frame_descriptors: DescriptorAllocatorGrowable,
    gpu_scene_data_buffer: AllocatedBuffer<'static>,
    submitted: Option<usize>,
}

impl View for FrameData {
    type V = FrameState;

    closed spec fn view(&self) -> FrameState {
        FrameState {
            command_pool: self.command_pool,
            command_buffer: self.command_buffer,
            image_available_semaphore: self.image_available_semaphore,
            result_presentable_semaphore: self.result_presentable_semaphore,
            in_flight_fence: self.in_flight_fence,
            descriptors: self.frame_descriptors@,
            scene_buffer: self.gpu_scene_data_buffer@,
            submitted: self.submitted,
        }
    }
}

/// The descriptors that a frame's pools hold per set: three storage
/// images, three storage buffers, three uniform buffers and four combined
/// image samplers.
pub open spec fn frame_ratios() -> Seq<PoolSizeRatio> {
    seq![
        PoolSizeRatio { descriptor_type: DESCRIPTOR_TYPE_STORAGE_IMAGE, ratio_milli: 3000 },
        PoolSizeRatio { descriptor_type: DESCRIPTOR_TYPE_STORAGE_BUFFER, ratio_milli: 3000 },
        PoolSizeRatio { descriptor_type: DESCRIPTOR_TYPE_UNIFORM_BUFFER, ratio_milli: 3000 },
        PoolSizeRatio { descriptor_type: DESCRIPTOR_TYPE_COMBINED_IMAGE_SAMPLER, ratio_milli: 4000 },
    ]
}

impl FrameState {
    /// A slot is well formed when its descriptor allocator is, and its
    /// scene data buffer is the one described for a slot, complete.
    pub open spec fn wf(self) -> bool {
        &&& self.descriptors.wf()
        &&& self.scene_buffer.completes(scene_buffer_described())
    }

    /// The slot as it is made: nothing submitted, and a descriptor
    /// allocator that holds its first pool, ready, and no other.
    pub open spec fn created(handles: FrameHandles, first_pool: u64, scene_buffer: BufferState)
        -> FrameState {
        FrameState {
            command_pool: handles.command_pool,
            command_buffer: handles.command_buffer,
            image_available_semaphore: handles.image_available_semaphore,
            result_presentable_semaphore: handles.result_presentable_semaphore,
            in_flight_fence: handles.in_flight_fence,
            descriptors: AllocatorState::after_new(
                frame_ratios(),
                FRAME_DESCRIPTOR_SETS,
            ).after_init_pool(first_pool),
            scene_buffer,
            submitted: None,
        }
    }

    /// What giving the slot up takes, in order: the command pool, the two
    /// semaphores and the fence, then the descriptor pools, then the scene
    /// data buffer, its memory first.
    pub open spec fn teardown(self) -> Seq<FrameTeardown> {
        seq![
            FrameTeardown::DestroyCommandPool(self.command_pool),
            FrameTeardown::DestroySemaphore(self.image_available_semaphore),
            FrameTeardown::DestroySemaphore(self.result_presentable_semaphore),
            FrameTeardown::DestroyFence(self.in_flight_fence),
        ] + Seq::new(
            (self.descriptors.ready + self.descriptors.full).len(),
            |i: int|
                FrameTeardown::DestroyDescriptorPool((self.descriptors.ready + self.descriptors.full)[i]),
        ) + Seq::new(
            self.scene_buffer.teardown().len(),
            |i: int| FrameTeardown::Resource(self.scene_buffer.teardown()[i]),
        )
    }
}

impl FrameData {
    /// The flags to create the slot's fence with: signaled, so that the
    /// first frame of the slot finds nothing to wait for.
    pub fn fence_flags() -> (flags: u32)
        ensures
            flags == FENCE_CREATE_SIGNALED,
    {
        FENCE_CREATE_SIGNALED
    }

    /// The descriptor allocator of a slot, before its first pool.
    pub fn descriptors() -> (allocator: DescriptorAllocatorGrowable)
        ensures
            allocator@ == AllocatorState::after_new(frame_ratios(), FRAME_DESCRIPTOR_SETS),
            allocator@.wf(),
    {
        let mut frame_sizes: Vec<PoolSizeRatio> = Vec::new();
        frame_sizes.push(
            PoolSizeRatio { descriptor_type: DESCRIPTOR_TYPE_STORAGE_IMAGE, ratio_milli: 3000 },
        );
        frame_sizes.push(
            PoolSizeRatio { descriptor_type: DESCRIPTOR_TYPE_STORAGE_BUFFER, ratio_milli: 3000 },
        );
        frame_sizes.push(
            PoolSizeRatio { descriptor_type: DESCRIPTOR_TYPE_UNIFORM_BUFFER, ratio_milli: 3000 },
        );
        frame_sizes.push(
            PoolSizeRatio {
                descriptor_type: DESCRIPTOR_TYPE_COMBINED_IMAGE_SAMPLER,
                ratio_milli: 4000,
            },
        );
        assert(frame_sizes@ =~= frame_ratios());
        DescriptorAllocatorGrowable::new(frame_sizes, FRAME_DESCRIPTOR_SETS)
    }

    /// What the device is asked to make for a slot before the slot is put
    /// together: the fence starts signaled, and the first descriptor pool
    /// is the one that the slot's allocator asks for first.
    pub fn create_info(device: &Device) -> (info: FrameCreateInfo)
        ensures
            info.command_pool == (CommandPoolCreateInfo {
                flags: COMMAND_POOL_CREATE_RESET_COMMAND_BUFFER,
                queue_family_index: device.graphics_family(),
            }),
            info.fence_flags == FENCE_CREATE_SIGNALED,
            info.descriptor_pool@ == pool_create_model(FRAME_DESCRIPTOR_SETS, frame_ratios()),
    {
        let allocator = Self::descriptors();
        FrameCreateInfo {
            command_pool: device.create_command_pool(),
            fence_flags: Self::fence_flags(),
            descriptor_pool: allocator.create_new_pool(),
        }
    }

    /// Describes the scene data buffer of a slot: a uniform buffer that the
    /// CPU writes every frame.
    pub fn scene_data_buffer(device: &Device) -> (created: (
        AllocatedBuffer<'static>,
        BufferCreateInfo,
    ))
        ensures
            created.0@ == scene_buffer_described(),
            created.1 == created.0@.create_info(),
            created.0@.wf(),
    {
        AllocatedBuffer::new(
            device,
            "GPU Scene Data Buffer",
            BUFFER_USAGE_UNIFORM_BUFFER,
            GPU_SCENE_DATA_SIZE,
            MemoryLocation::CpuToGpu,
        )
    }

    /// A frame slot of what the device made for it as `create_info` and
    /// `scene_data_buffer` describe. The slot makes its descriptor
    /// allocator and hands it `first_pool`, which is then its one ready
    /// pool. Nothing was submitted from the slot yet.
    pub fn new(
        handles: FrameHandles,
        first_pool: u64,
        gpu_scene_data_buffer: AllocatedBuffer<'static>,
    ) -> (frame: FrameData)
        requires
            gpu_scene_data_buffer@.completes(scene_buffer_described()),
        ensures
            frame@ == FrameState::created(handles, first_pool, gpu_scene_data_buffer@),
            frame@.descriptors.ready == seq![first_pool],
            frame@.descriptors.full == Seq::<u64>::empty(),
            frame@.descriptors.phase is Idle,
            frame@.wf(),
    {
        let mut frame_descriptors = Self::descriptors();
        frame_descriptors.init_pool(first_pool);
        assert(frame_descriptors@.ready =~= seq![first_pool]);
        FrameData {
            command_pool: handles.command_pool,
            command_buffer: handles.command_buffer,
            image_available_semaphore: handles.image_available_semaphore,
            result_presentable_semaphore: handles.result_presentable_semaphore,
            in_flight_fence: handles.in_flight_fence,
            frame_descriptors,
            gpu_scene_data_buffer,
            submitted: None,
        }
    }

    pub fn scene_buffer(&self) -> (buffer: &AllocatedBuffer<'static>)
        ensures
            buffer@ == self@.scene_buffer,
    {
        &self.gpu_scene_data_buffer
    }

    pub fn frame_descriptors(&self) -> (allocator: &DescriptorAllocatorGrowable)
        ensures
            allocator@ == self@.descriptors,
    {
        &self.frame_descriptors
    }

    /// Gives up what the slot holds and names the teardown: the command
    /// pool, the semaphores, the fence, then every descriptor pool, then
    /// the scene data buffer. The slot is used up.
    pub fn release(self) -> (steps: Vec<FrameTeardown>)
        requires
            self@.wf(),
        ensures
            steps@ == self@.teardown(),
    {
        let mut frame = self;
        let mut steps: Vec<FrameTeardown> = Vec::new();
        steps.push(FrameTeardown::DestroyCommandPool(frame.command_pool));
        steps.push(FrameTeardown::DestroySemaphore(frame.image_available_semaphore));
        steps.push(FrameTeardown::DestroySemaphore(frame.result_presentable_semaphore));
        steps.push(FrameTeardown::DestroyFence(frame.in_flight_fence));
        let pools = frame.frame_descriptors.destroy_pools();
        let ghost all = self@.descriptors.ready + self@.descriptors.full;
        let ghost fixed = steps@;
        let mut i: usize = 0;
        while i < pools.len()
            invariant
                i <= pools.len(),
                pools@ == all,
                steps@ == fixed + Seq::new(
                    i as nat,
                    |k: int| FrameTeardown::DestroyDescriptorPool(all[k]),
                ),
            decreases pools.len() - i,
        {
            steps.push(FrameTeardown::DestroyDescriptorPool(pools[i]));
            i += 1;
            assert(steps@ =~= fixed + Seq::new(
                i as nat,
                |k: int| FrameTeardown::DestroyDescriptorPool(all[k]),
            ));
        }
        let mut buffer = frame.gpu_scene_data_buffer.release();
        let free = buffer.remove(0);
        let destroy = buffer.remove(0);
        steps.push(FrameTeardown::Resource(free));
        steps.push(FrameTeardown::Resource(destroy));
        assert(steps@ =~= self@.teardown());
        steps
    }
}

/// The scene data that shaders read every frame: view and projection
/// matrices and the lights. Every float is held as its bit pattern.
#[derive(Clone, Copy, Debug)]
pub struct GPUSceneData {
    pub view: [u32; 16],
    pub proj: [u32; 16],
    pub view_proj: [u32; 16],
    pub ambient_color: Vec4,
    pub sunlight_dir: Vec4,
    pub sunlight_color: Vec4,
}

/// The matrix that changes nothing: ones on the diagonal, zeros elsewhere.
pub open spec fn identity_matrix() -> Seq<u32> {
    Seq::new(
        16,
        |i: int|
            if i % 5 == 0 {
                ONE
            } else {
                0u32
            },
    )
}

/// The words of the scene data in the order in which shaders read them.
pub open spec fn scene_data_words(data: GPUSceneData) -> Seq<u32> {
    data.view@ + data.proj@ + data.view_proj@ + seq![
        data.ambient_color.x,
        data.ambient_color.y,
        data.ambient_color.z,
        data.ambient_color.w,
        data.sunlight_dir.x,
        data.sunlight_dir.y,
        data.sunlight_dir.z,
        data.sunlight_dir.w,
        data.sunlight_color.x,
        data.sunlight_color.y,
        data.sunlight_color.z,
        data.sunlight_color.w,
    ]
}

impl Default for GPUSceneData {
    /// The scene seen without any transformation, in dim grey ambient
    /// light, lit by white light from the front.
    fn default() -> (data: Self)
        ensures
            data.view@ == identity_matrix(),
            data.proj@ == identity_matrix(),
            data.view_proj@ == identity_matrix(),
            data.ambient_color == (Vec4 { x: FLOAT_FIFTH, y: FLOAT_FIFTH, z: FLOAT_FIFTH, w: ONE }),
            data.sunlight_dir == (Vec4 { x: 0, y: 0, z: FLOAT_MINUS_ONE, w: FLOAT_TEN }),
            data.sunlight_color == (Vec4 { x: ONE, y: ONE, z: ONE, w: ONE }),
    {
        let identity: [u32; 16] = [ONE, 0, 0, 0, 0, ONE, 0, 0, 0, 0, ONE, 0, 0, 0, 0, ONE];
        assert(identity@ =~= identity_matrix());
        GPUSceneData {
            view: identity,
            proj: identity,
            view_proj: identity,
            ambient_color: Vec4 { x: FLOAT_FIFTH, y: FLOAT_FIFTH, z: FLOAT_FIFTH, w: ONE },
            sunlight_dir: Vec4 { x: 0, y: 0, z: FLOAT_MINUS_ONE, w: FLOAT_TEN },
            sunlight_color: Vec4 { x: ONE, y: ONE, z: ONE, w: ONE },
        }
    }
}

impl GPUSceneData {
    /// The scene data as the bytes that are copied into the scene data
    /// buffer: word by word, each in the byte order of the machine.
    pub fn as_bytes(&self) -> (bytes: Vec<u8>)
        ensures
            bytes@.len() == GPU_SCENE_DATA_SIZE,
            holds_words(bytes@, scene_data_words(*self)),
    {
        let mut words: Vec<u32> = Vec::new();
        let mut i: usize = 0;
        while i < 16
            invariant
                i <= 16,
                words@ == self.view@.take(i as int),
            decreases 16 - i,
        {
            words.push(self.view[i]);
            i += 1;
            assert(words@ =~= self.view@.take(i as int));
        }
        assert(self.view@.take(16) == self.view@);
        i = 0;
        while i < 16
            invariant
                i <= 16,
                words@ == self.view@ + self.proj@.take(i as int),
            decreases 16 - i,
        {
            words.push(self.proj[i]);
            i += 1;
            assert(words@ =~= self.view@ + self.proj@.take(i as int));
        }
        assert(self.proj@.take(16) == self.proj@);
        i = 0;
        while i < 16
            invariant
                i <= 16,
                words@ == self.view@ + self.proj@ + self.view_proj@.take(i as int),
            decreases 16 - i,
        {
            words.push(self.view_proj[i]);
            i += 1;
            assert(words@ =~= self.view@ + self.proj@ + self.view_proj@.take(i as int));
        }
        assert(self.view_proj@.take(16) == self.view_proj@);
        words.push(self.ambient_color.x);
        words.push(self.ambient_color.y);
        words.push(self.ambient_color.z);
        words.push(self.ambient_color.w);
        words.push(self.sunlight_dir.x);
        words.push(self.sunlight_dir.y);
        words.push(self.sunlight_dir.z);
        words.push(self.sunlight_dir.w);
        words.push(self.sunlight_color.x);
        words.push(self.sunlight_color.y);
        words.push(self.sunlight_color.z);
        words.push(self.sunlight_color.w);
        assert(words@ =~= scene_data_words(*self));
        let mut bytes: Vec<u8> = Vec::new();
        append_words(&mut bytes, words.as_slice());
        assert(bytes@.subrange(0, bytes@.len() as int) =~= bytes@);
        bytes
    }
}

/// Where the renderer stands in the frame it is drawing.
#[derive(Clone, Copy, Debug, PartialEq, Eq, Structural)]
pub enum FramePhase {
    /// Between frames.
    Idle,
    /// A resize is being served: the swapchain is being rebuilt.
    AwaitingSwapchain,
    /// The CPU waits for the fence of the frame's slot.
    AwaitingFence,
    /// The slot is retired; a presentable image was asked for.
    AwaitingImage,
    /// The frame's commands are being put together.
    Recording { image_index: u32 },
}

/// The handles that every frame draws with.
#[derive(Debug)]
pub struct RenderResources {
    pub draw_image: AllocatedImage,
    pub depth_image: AllocatedImage,
    pub draw_image_descriptor: u64,
    pub gradient_pipeline: ComputePipeline,
    pub mesh_pipeline: GraphicsPipeline,
    pub scene_data_descriptor_layout: u64,
    pub single_image_descriptor_layout: u64,
    pub texture_view: u64,
    pub sampler: u64,
}

/// The state of the renderer as mathematics.
pub struct RendererState {
    pub device: Device,
    pub frames: Seq<FrameState>,
    pub frame_index: usize,
    pub phase: FramePhase,
    pub resize: Option<LogicalSize>,
    pub swapchain: SwapchainState,
    pub resources: RenderResources,
    pub meshes: Seq<MeshAsset>,
}

/// The smaller of two extents, side by side.
pub open spec fn smaller_extent(first: Extent3D, second: Extent2D) -> Extent2D {
    Extent2D {
        width: if first.width <= second.width {
            first.width
        } else {
            second.width
        },
        height: if first.height <= second.height {
            first.height
        } else {
            second.height
        },
    }
}

/// The commands of one frame, in the order recorded. The draw image is
/// made writable and filled by the compute pass; draw and depth image are
/// made attachments and `mesh` is drawn at `world_matrix` over the
/// background, which is not cleared; the draw image is copied onto the
/// presentable image, which is then made ready to be shown.
pub open spec fn frame_commands(
    resources: RenderResources,
    draw_extent: Extent2D,
    presentation_image: u64,
    presentation_extent: Extent2D,
    image_set: u64,
    mesh: MeshAsset,
    world_matrix: [u32; 16],
) -> Seq<Command> {
    let draw_image = resources.draw_image@.image;
    let depth_image = resources.depth_image@.image;
    seq![layout_transition(draw_image, IMAGE_LAYOUT_UNDEFINED, IMAGE_LAYOUT_GENERAL)]
        + compute_pass(
        resources.gradient_pipeline.spec_pipeline(),
        resources.gradient_pipeline.spec_layout(),
        seq![resources.draw_image_descriptor],
        draw_extent,
    ) + seq![
        layout_transition(
            draw_image,
            IMAGE_LAYOUT_GENERAL,
            IMAGE_LAYOUT_COLOR_ATTACHMENT_OPTIMAL,
        ),
        layout_transition(
            depth_image,
            IMAGE_LAYOUT_UNDEFINED,
            IMAGE_LAYOUT_DEPTH_ATTACHMENT_OPTIMAL,
        ),
    ] + drawing_begin(
        resources.mesh_pipeline.spec_pipeline(),
        resources.draw_image@.image_view,
        resources.depth_image@.image_view,
        IMAGE_LAYOUT_COLOR_ATTACHMENT_OPTIMAL,
        IMAGE_LAYOUT_DEPTH_ATTACHMENT_OPTIMAL,
        draw_extent,
        None,
    ) + seq![
        Command::BindDescriptorSet {
            bind_point: PIPELINE_BIND_POINT_GRAPHICS,
            layout: resources.mesh_pipeline.spec_layout(),
            set_index: 0,
            descriptor_set: image_set,
        },
    ] + mesh_draw(
        resources.mesh_pipeline.spec_layout(),
        world_matrix,
        mesh.spec_buffers().spec_vertex_buffer_address(),
        mesh.spec_buffers().spec_index_buffer().buffer,
        mesh.spec_surfaces(),
    ) + seq![
        Command::EndRendering,
        layout_transition(
            draw_image,
            IMAGE_LAYOUT_COLOR_ATTACHMENT_OPTIMAL,
            IMAGE_LAYOUT_TRANSFER_SRC_OPTIMAL,
        ),
        layout_transition(
            presentation_image,
            IMAGE_LAYOUT_UNDEFINED,
            IMAGE_LAYOUT_TRANSFER_DST_OPTIMAL,
        ),
        image_blit(draw_image, presentation_image, draw_extent, presentation_extent),
        layout_transition(
            presentation_image,
            IMAGE_LAYOUT_TRANSFER_DST_OPTIMAL,
            IMAGE_LAYOUT_PRESENT_SRC,
        ),
    ]
}

/// The submission of a frame's command buffer: it waits for the presentable
/// image before it writes color, signals that the result can be shown once
/// all graphics work is through, and is fenced by the slot's fence.
pub open spec fn frame_submission(queue: u64, frame: FrameState) -> SubmitInfo {
    SubmitInfo {
        queue,
        command_buffer: frame.command_buffer,
        wait_semaphore: Some(
            SemaphoreSubmitInfo {
                semaphore: frame.image_available_semaphore,
                stage_mask: PIPELINE_STAGE_COLOR_ATTACHMENT_OUTPUT,
                value: 1,
                device_index: 0,
            },
        ),
        signal_semaphore: Some(
            SemaphoreSubmitInfo {
                semaphore: frame.result_presentable_semaphore,
                stage_mask: PIPELINE_STAGE_ALL_GRAPHICS,
                value: 1,
                device_index: 0,
            },
        ),
        fence: frame.in_flight_fence,
    }
}

impl RendererState {
    /// The slot of the frame being drawn or drawn next.
    pub open spec fn current(self) -> int {
        self.frame_index as int % self.frames.len() as int
    }

    pub open spec fn current_frame(self) -> FrameState {
        self.frames[self.current()]
    }

    /// Whether the frame `frame` was submitted and its fence not seen
    /// signaled since.
    pub open spec fn outstanding(self, frame: int) -> bool {
        exists|slot: int|
            0 <= slot < self.frames.len() && #[trigger] self.frames[slot].submitted == Some(
                frame as usize,
            ) && 0 <= frame <= usize::MAX
    }

    /// The renderer is well formed when
    /// - it has a frame slot, and every slot is well formed;
    /// - a slot's outstanding frame is an earlier frame of that slot, at
    ///   most one round of the ring back;
    /// - from the moment the slot's fence was seen signaled to the
    ///   submission, the slot of the frame being drawn has no frame
    ///   outstanding;
    /// - descriptor sets are allocated only while recording, from the
    ///   allocator of the current slot;
    /// - while recording, the acquired image is one of the swapchain's;
    /// - draw and depth image are complete;
    /// - the mesh that frames draw is there.
    pub open spec fn wf(self) -> bool {
        &&& self.frames.len() > 0
        &&& forall|slot: int| 0 <= slot < self.frames.len() ==> (#[trigger] self.frames[slot]).wf()
        &&& forall|slot: int|
            0 <= slot < self.frames.len() ==> ((#[trigger] self.frames[slot]).submitted matches Some(
                frame,
            ) ==> frame < self.frame_index && frame as int % self.frames.len() as int == slot
                && self.frame_index - frame <= self.frames.len())
        &&& (self.phase is AwaitingImage || self.phase is Recording)
            ==> self.current_frame().submitted is None
        &&& forall|slot: int|
            0 <= slot < self.frames.len() && !(self.phase is Recording && slot == self.current())
                ==> (#[trigger] self.frames[slot]).descriptors.phase is Idle
        &&& self.phase matches FramePhase::Recording { image_index } ==> image_index
            < self.swapchain.images.len()
        &&& self.resources.draw_image@.stage is Ready
        &&& self.resources.depth_image@.stage is Ready
        &&& self.meshes.len() > DRAWN_MESH
    }

    /// The extent that frames are drawn at: no larger than the draw image
    /// and no larger than the swapchain's images.
    pub open spec fn draw_extent(self) -> Extent2D {
        smaller_extent(self.resources.draw_image@.extent, self.swapchain.extent)
    }

    pub open spec fn fence_wait(self) -> QueueStep {
        QueueStep::WaitForFence {
            fence: self.current_frame().in_flight_fence,
            timeout: FRAME_TIMEOUT,
        }
    }

    pub open spec fn after_resize(self, logical_size: LogicalSize) -> RendererState {
        RendererState { resize: Some(logical_size), ..self }
    }

    /// The state after a frame was begun: a pending resize is taken up,
    /// else the wait for the slot's fence begins.
    pub open spec fn after_draw(self) -> RendererState {
        match self.resize {
            Some(_) => RendererState {
                resize: None,
                phase: FramePhase::AwaitingSwapchain,
                ..self
            },
            None => RendererState { phase: FramePhase::AwaitingFence, ..self },
        }
    }

    pub open spec fn draw_steps(self) -> Seq<QueueStep> {
        match self.resize {
            Some(logical_size) => seq![
                QueueStep::WaitIdle,
                QueueStep::RecreateSwapchain(logical_size),
            ],
            None => seq![self.fence_wait()],
        }
    }

    pub open spec fn after_swapchain_recreated(self, swapchain: SwapchainState) -> RendererState {
        RendererState { swapchain, phase: FramePhase::AwaitingFence, ..self }
    }

    /// The state after the slot's fence was seen signaled: the slot has no
    /// frame outstanding, and all its descriptor pools are ready again.
    pub open spec fn after_fence_signaled(self) -> RendererState {
        RendererState {
            frames: self.frames.update(
                self.current(),
                FrameState {
                    submitted: None,
                    descriptors: self.current_frame().descriptors.after_clear_pools(),
                    ..self.current_frame()
                },
            ),
            phase: FramePhase::AwaitingImage,
            ..self
        }
    }

    /// What follows the signaled fence: the fence is reset, each descriptor
    /// pool of the slot is reset, and the next image is asked for, to
    /// signal the slot's image-available semaphore.
    pub open spec fn fence_signaled_steps(self) -> Seq<QueueStep> {
        let frame = self.current_frame();
        let pools = frame.descriptors.ready + frame.descriptors.full;
        seq![QueueStep::ResetFence(frame.in_flight_fence)] + Seq::new(
            pools.len(),
            |i: int| QueueStep::ResetDescriptorPool(pools[i]),
        ) + seq![
            QueueStep::AcquireImage(
                AcquireInfo {
                    swapchain: self.swapchain.swapchain,
                    timeout: FRAME_TIMEOUT,
                    semaphore: frame.image_available_semaphore,
                    fence: 0,
                },
            ),
        ]
    }

    pub open spec fn after_image_acquired(self, image_index: u32) -> RendererState {
        if image_index < self.swapchain.images.len() {
            RendererState { phase: FramePhase::Recording { image_index }, ..self }
        } else {
            self
        }
    }

    /// The state with the allocator of the current slot replaced.
    pub open spec fn with_descriptors(self, descriptors: AllocatorState) -> RendererState {
        RendererState {
            frames: self.frames.update(
                self.current(),
                FrameState { descriptors, ..self.current_frame() },
            ),
            ..self
        }
    }

    /// The state after the frame was submitted: it is outstanding in its
    /// slot, and the next frame is up.
    pub open spec fn after_submit(self) -> RendererState {
        RendererState {
            frames: self.frames.update(
                self.current(),
                FrameState { submitted: Some(self.frame_index), ..self.current_frame() },
            ),
            frame_index: (self.frame_index + 1) as usize,
            phase: FramePhase::Idle,
            ..self
        }
    }

    /// What submitting the frame takes: the slot's command buffer is reset
    /// and begun for a single use, the frame's commands are recorded, the
    /// buffer is ended and submitted, and the image is queued for display
    /// once rendering has signaled.
    pub open spec fn submit_steps(self, image_set: u64, world_matrix: [u32; 16]) -> Seq<
        QueueStep,
    > {
        let frame = self.current_frame();
        let image_index = self.phase->image_index;
        seq![
            QueueStep::ResetCommandBuffer(frame.command_buffer),
            QueueStep::BeginCommandBuffer {
                command_buffer: frame.command_buffer,
                flags: COMMAND_BUFFER_USAGE_ONE_TIME_SUBMIT,
            },
        ] + recorded(
            frame_commands(
                self.resources,
                self.draw_extent(),
                self.swapchain.images[image_index as int],
                self.swapchain.extent,
                image_set,
                self.meshes[DRAWN_MESH as int],
                world_matrix,
            ),
        ) + seq![
            QueueStep::EndCommandBuffer(frame.command_buffer),
            QueueStep::Submit(frame_submission(self.device.graphics_queue_handle(), frame)),
            QueueStep::Present(
                PresentInfo {
                    queue: self.swapchain.presentation_queue,
                    swapchain: self.swapchain.swapchain,
                    wait_semaphore: frame.result_presentable_semaphore,
                    image_index,
                },
            ),
        ]
    }
}

/// The grey of the default texture is at level 171.
proof fn lemma_grey_level()
    ensures
        quantized_unorm8(GREY) == 171,
{
    lemma2_to64();
    reveal_with_fuel(excess_bits, 10);
    assert(significand(GREY) == 0xAB_851F);
    assert(binary_places(GREY) == 24);
    assert(excess_bits(2866387425int) == 8);
    assert(rounded_to_even(2866387425int, 8) == 11196826);
    assert(pow2(16) == 65536);
    assert((2 * 11196826int + 65536) / (2 * 65536int) == 171);
    assert(rounded_half_up(11196826, 16) == 171);
}

/// The orchestrator of the frame loop.
///
/// A frame goes through `draw`, `fence_signaled`, `image_acquired` and
/// `submit`, in this order; each names the steps that the caller takes with
/// the device before it reports back. Between `image_acquired` and
/// `submit` the caller allocates the frame's descriptor sets through
/// `allocate_descriptor`.
#[derive(Debug)]
pub struct VulkanRenderer {
    device: Device,
    swapchain: Swapchain,
    frame_data: Vec<FrameData>,
    frame_index: usize,
    resources: RenderResources,
    test_meshes: Vec<MeshAsset>,
    resize_swapchain: Option<LogicalSize>,
    phase: FramePhase,
}

impl View for VulkanRenderer {
    type V = RendererState;

    closed spec fn view(&self) -> RendererState {
        RendererState {
            device: self.device,
            frames: Seq::new(self.frame_data@.len(), |i: int| self.frame_data@[i]@),
            frame_index: self.frame_index,
            phase: self.phase,
            resize: self.resize_swapchain,
            swapchain: self.swapchain@,
            resources: self.resources,
            meshes: self.test_meshes@,
        }
    }
}

/// The draw image for a window of `width` by `height` pixels, as it is
/// described before it is created.
pub open spec fn draw_target(width: u32, height: u32) -> ImageState {
    ImageState::described(
        FORMAT_R16G16B16A16_SFLOAT,
        IMAGE_USAGE_COLOR_ATTACHMENT | IMAGE_USAGE_STORAGE | IMAGE_USAGE_TRANSFER_SRC
            | IMAGE_USAGE_TRANSFER_DST,
        Extent3D { width, height, depth: 1 },
        IMAGE_ASPECT_COLOR,
        1,
    )
}

/// The depth image for a window of `width` by `height` pixels, as it is
/// described before it is created.
pub open spec fn depth_target(width: u32, height: u32) -> ImageState {
    ImageState::described(
        FORMAT_D32_SFLOAT,
        IMAGE_USAGE_DEPTH_STENCIL_ATTACHMENT,
        Extent3D { width, height, depth: 1 },
        IMAGE_ASPECT_DEPTH,
        1,
    )
}

/// The bindings of the three descriptor set layouts of the renderer: the
/// draw image as a storage image for compute, the scene data as a uniform
/// buffer for vertex and fragment shaders, and one texture with its sampler
/// for the fragment shader.
pub open spec fn layout_binding(descriptor_type: i32, stage_flags: u32) -> Seq<
    DescriptorSetLayoutBinding,
> {
    seq![DescriptorSetLayoutBinding { binding: 0, descriptor_type, descriptor_count: 1, stage_flags }]
}

/// What the descriptors of the renderer are created with.
#[derive(Debug)]
pub struct DescriptorSetup {
    pub pool: DescriptorPoolCreateInfo,
    pub draw_image_layout: DescriptorSetLayoutCreateInfo,
    pub scene_data_layout: DescriptorSetLayoutCreateInfo,
    pub single_image_layout: DescriptorSetLayoutCreateInfo,
}

fn single_binding_layout(descriptor_type: i32, stage_flags: u32) -> (info:
    DescriptorSetLayoutCreateInfo)
    ensures
        info.flags == 0,
        info.bindings@ == layout_binding(descriptor_type, stage_flags),
{
    let mut builder = DescriptorLayoutBuilder::new();
    builder.add_binding(0, descriptor_type, stage_flags);
    let info = builder.build(0);
    assert(info.bindings@ =~= layout_binding(descriptor_type, stage_flags));
    info
}

/// What the entry to the graphics API is set up with.
#[derive(Debug)]
pub struct InstanceConfig {
    pub app_info: AppInfo,
    pub engine_info: EngineInfo,
    pub required_layers: Vec<String>,
    pub required_extensions: Vec<String>,
    pub debug_messenger: Option<DebugMessengerCreateInfo>,
}

/// The version of the graphics API that the renderer needs.
pub open spec fn minimum_api_version() -> Version {
    Version { major: 1, minor: 3, patch: 0 }
}

/// The version of the application and of the engine.
pub open spec fn first_version() -> Version {
    Version { major: 1, minor: 0, patch: 0 }
}

/// The settings of the pipeline that draws meshes: filled triangles, no
/// culling, one sample, no blending, and a depth test that lets the nearer
/// fragment win and writes its depth.
pub open spec fn mesh_pipeline_state(color_format: i32, depth_format: i32) -> FixedFunctionState {
    FixedFunctionState {
        input_assembly: InputAssemblyState {
            topology: PRIMITIVE_TOPOLOGY_TRIANGLE_LIST,
            primitive_restart_enable: false,
        },
        rasterizer: RasterizationState {
            polygon_mode: POLYGON_MODE_FILL,
            cull_mode: CULL_MODE_NONE,
            front_face: FRONT_FACE_CLOCKWISE,
        },
        color_blend_attachment: ColorBlendAttachmentState {
            blend_enable: false,
            color_write_mask: COLOR_COMPONENT_RGBA,
            ..initial_fixed_state().color_blend_attachment
        },
        multisampling: MultisampleState {
            sample_shading_enable: false,
            rasterization_samples: SAMPLE_COUNT_1,
            alpha_to_coverage_enable: false,
            alpha_to_one_enable: false,
        },
        depth_stencil: DepthStencilState {
            depth_test_enable: true,
            depth_write_enable: true,
            depth_compare_op: COMPARE_OP_GREATER_OR_EQUAL,
            depth_bounds_test_enable: false,
            stencil_test_enable: false,
        },
        rendering: RenderingFormats {
            color_attachment_count: 1,
            color_attachment_format: color_format,
            depth_attachment_format: depth_format,
        },
    }
}

impl VulkanRenderer {
    /// What the instance is set up with for a display: the surface
    /// extensions of the windowing system, and in a debug build the
    /// validation layer with the extension and the messenger that carry its
    /// messages. `None` for a windowing system without support.
    pub fn instance_config(display: DisplayKind, debug: bool) -> (config: Option<InstanceConfig>)
        ensures
            config is Some <==> platform_surface_extension(display) is Some,
            config matches Some(chosen) ==> {
                &&& chosen.app_info.name@ == APPLICATION_NAME@
                &&& chosen.app_info.version == first_version()
                &&& chosen.engine_info.name@ == ENGINE_NAME@
                &&& chosen.engine_info.version == first_version()
                &&& chosen.engine_info.vulkan_version == minimum_api_version()
                &&& chosen.required_layers.deep_view() == if debug {
                    seq![VALIDATION_LAYER@]
                } else {
                    Seq::<Seq<char>>::empty()
                }
                &&& chosen.required_extensions.deep_view() == seq![
                    platform_surface_extension(display)->0,
                    SURFACE_EXTENSION@,
                ] + if debug {
                    seq![DEBUG_UTILS_EXTENSION@]
                } else {
                    Seq::<Seq<char>>::empty()
                }
                &&& chosen.debug_messenger == if debug {
                    Some(
                        DebugMessengerCreateInfo {
                            message_severity: DEBUG_SEVERITY_WARNING | DEBUG_SEVERITY_ERROR,
                            message_type: DEBUG_TYPE_GENERAL | DEBUG_TYPE_PERFORMANCE
                                | DEBUG_TYPE_VALIDATION,
                        },
                    )
                } else {
                    None
                }
            },
    {
        let mut required_extensions = match get_required_instance_extensions(display) {
            Some(extensions) => extensions,
            None => {
                return None;
            },
        };
        let ghost platform = required_extensions.deep_view();
        let mut required_layers: Vec<String> = Vec::new();
        let mut debug_messenger: Option<DebugMessengerCreateInfo> = None;
        if debug {
            let mut debug_extensions = get_required_extensions();
            let ghost added = debug_extensions.deep_view();
            required_extensions.append(&mut debug_extensions);
            assert(required_extensions.deep_view() =~= platform + added);
            required_layers = get_required_layers();
            debug_messenger = Some(DebugMessenger::fill_create_info());
        } else {
            assert(required_layers.deep_view() =~= Seq::<Seq<char>>::empty());
            assert(required_extensions.deep_view() =~= platform + Seq::<Seq<char>>::empty());
        }
        let first = Version { major: 1, minor: 0, patch: 0 };
        Some(
            InstanceConfig {
                app_info: AppInfo { name: APPLICATION_NAME.to_owned(), version: first },
                engine_info: EngineInfo {
                    name: ENGINE_NAME.to_owned(),
                    version: first,
                    vulkan_version: Version { major: 1, minor: 3, patch: 0 },
                },
                required_layers,
                required_extensions,
                debug_messenger,
            },
        )
    }

    /// The selector of the physical device: one that supports the version
    /// of the graphics API that the renderer needs.
    pub fn device_selector() -> (selector: PhysicalDeviceSelector)
        ensures
            selector.minimum_version() == minimum_api_version(),
    {
        PhysicalDeviceSelector::new(Version { major: 1, minor: 3, patch: 0 })
    }

    /// The extent of draw and depth image for a window of this size.
    pub fn target_extent(width: u32, height: u32) -> (extent: Extent3D)
        ensures
            extent == (Extent3D { width, height, depth: 1 }),
    {
        Extent3D { width, height, depth: 1 }
    }

    /// Describes the layout of the mesh pipeline: the texture's descriptor
    /// set, and the push constants of the vertex stage.
    pub fn mesh_pipeline_layout(single_image_descriptor_layout: u64) -> (info:
        PipelineLayoutCreateInfo)
        ensures
            info.set_layouts@ == seq![single_image_descriptor_layout],
            info.push_constant_range == (PushConstantRange {
                stage_flags: SHADER_STAGE_VERTEX,
                offset: 0,
                size: GPU_DRAW_PUSH_CONSTANTS_SIZE,
            }),
    {
        let mut set_layouts: Vec<u64> = Vec::new();
        set_layouts.push(single_image_descriptor_layout);
        PipelineLayoutCreateInfo {
            set_layouts,
            push_constant_range: PushConstantRange {
                stage_flags: SHADER_STAGE_VERTEX,
                offset: 0,
                size: GPU_DRAW_PUSH_CONSTANTS_SIZE,
            },
        }
    }

    /// Describes the pipeline that draws meshes onto targets of the given
    /// formats.
    pub fn mesh_pipeline(
        pipeline_layout: u64,
        fragment_shader: &ShaderModule,
        vertex_shader: &ShaderModule,
        color_format: i32,
        depth_format: i32,
    ) -> (built: Result<GraphicsPipelineCreateInfo, BuildError>)
        ensures
            built matches Ok(info) && {
                &&& info.layout == pipeline_layout
                &&& info.fixed == mesh_pipeline_state(color_format, depth_format)
                &&& info.shader_stages@.len() == 2
                &&& info.shader_stages@[0].stage == SHADER_STAGE_FRAGMENT
                &&& info.shader_stages@[0].module == fragment_shader.spec_module()
                &&& info.shader_stages@[1].stage == SHADER_STAGE_VERTEX
                &&& info.shader_stages@[1].module == vertex_shader.spec_module()
                &&& info.viewport_count == 1
                &&& info.scissor_count == 1
                &&& info.dynamic_states@ == dynamic_states()
            },
    {
        GraphicsPipelineBuilder::new().set_layout(pipeline_layout).set_shaders(
            fragment_shader,
            vertex_shader,
        ).set_input_topology(PRIMITIVE_TOPOLOGY_TRIANGLE_LIST).set_polygon_mode(
            POLYGON_MODE_FILL,
        ).set_cull_mode(CULL_MODE_NONE, FRONT_FACE_CLOCKWISE).disable_multisampling()
            .disable_blending().enable_depth_test(true, COMPARE_OP_GREATER_OR_EQUAL)
            .set_color_attachment_format(color_format).set_depth_format(
            depth_format,
        ).build_pipeline()
    }

    /// The renderer at its first frame, of what was created for a window
    /// of `width` by `height` pixels: one frame slot for each frame in
    /// flight, draw and depth image of the size of the window, and the
    /// meshes, among them the one that frames draw.
    pub fn new(
        device: Device,
        swapchain: Swapchain,
        width: u32,
        height: u32,
        frame_data: Vec<FrameData>,
        resources: RenderResources,
        test_meshes: Vec<MeshAsset>,
    ) -> (renderer: VulkanRenderer)
        requires
            frame_data@.len() == MAX_FRAMES_IN_FLIGHT,
            forall|i: int| 0 <= i < frame_data@.len() ==> (#[trigger] frame_data@[i])@.wf(),
            forall|i: int|
                0 <= i < frame_data@.len() ==> (#[trigger] frame_data@[i])@.descriptors.phase
                    is Idle,
            forall|i: int|
                0 <= i < frame_data@.len() ==> (#[trigger] frame_data@[i])@.submitted is None,
            resources.draw_image@.completes(draw_target(width, height)),
            resources.depth_image@.completes(depth_target(width, height)),
            test_meshes@.len() > DRAWN_MESH,
        ensures
            renderer@ == (RendererState {
                device,
                frames: Seq::new(frame_data@.len(), |i: int| frame_data@[i]@),
                frame_index: 0,
                phase: FramePhase::Idle,
                resize: None,
                swapchain: swapchain@,
                resources,
                meshes: test_meshes@,
            }),
            renderer@.frames.len() == MAX_FRAMES_IN_FLIGHT,
            renderer@.resources.draw_image@.extent == (Extent3D { width, height, depth: 1 }),
            renderer@.resources.depth_image@.extent == (Extent3D { width, height, depth: 1 }),
            renderer@.wf(),
    {
        VulkanRenderer {
            device,
            swapchain,
            frame_data,
            frame_index: 0,
            resources,
            test_meshes,
            resize_swapchain: None,
            phase: FramePhase::Idle,
        }
    }

    /// What the device is asked to make for the frame slots: one request
    /// for each frame in flight, each as `FrameData::create_info` says.
    pub fn frame_requests(device: &Device) -> (requests: Vec<FrameCreateInfo>)
        ensures
            requests@.len() == MAX_FRAMES_IN_FLIGHT,
            forall|i: int|
                0 <= i < requests@.len() ==> {
                    &&& (#[trigger] requests@[i]).command_pool == (CommandPoolCreateInfo {
                        flags: COMMAND_POOL_CREATE_RESET_COMMAND_BUFFER,
                        queue_family_index: device.graphics_family(),
                    })
                    &&& requests@[i].fence_flags == FENCE_CREATE_SIGNALED
                    &&& requests@[i].descriptor_pool@ == pool_create_model(
                        FRAME_DESCRIPTOR_SETS,
                        frame_ratios(),
                    )
                },
    {
        let mut requests: Vec<FrameCreateInfo> = Vec::new();
        while requests.len() < MAX_FRAMES_IN_FLIGHT
            invariant
                requests@.len() <= MAX_FRAMES_IN_FLIGHT,
                forall|i: int|
                    0 <= i < requests@.len() ==> {
                        &&& (#[trigger] requests@[i]).command_pool == (CommandPoolCreateInfo {
                            flags: COMMAND_POOL_CREATE_RESET_COMMAND_BUFFER,
                            queue_family_index: device.graphics_family(),
                        })
                        &&& requests@[i].fence_flags == FENCE_CREATE_SIGNALED
                        &&& requests@[i].descriptor_pool@ == pool_create_model(
                            FRAME_DESCRIPTOR_SETS,
                            frame_ratios(),
                        )
                    },
            decreases MAX_FRAMES_IN_FLIGHT - requests@.len(),
        {
            requests.push(FrameData::create_info(device));
        }
        requests
    }

    /// Describes the draw image and the depth image for a window of
    /// `width` by `height` pixels, each with what it is created from.
    pub fn render_targets(device: &Device, width: u32, height: u32) -> (targets: (
        (AllocatedImage, ImageCreateInfo),
        (AllocatedImage, ImageCreateInfo),
    ))
        ensures
            targets.0.0@ == draw_target(width, height),
            targets.0.1 == targets.0.0@.create_info(),
            targets.1.0@ == depth_target(width, height),
            targets.1.1 == targets.1.0@.create_info(),
            targets.0.0@.wf(),
            targets.1.0@.wf(),
    {
        let extent = Self::target_extent(width, height);
        (
            AllocatedImage::new_draw_color_image(device, extent),
            AllocatedImage::new_depth_image(device, extent),
        )
    }

    /// The default textures: opaque white, opaque black and an opaque grey
    /// of 0.67, each of one pixel, and a checkerboard of black and magenta
    /// of sixteen by sixteen pixels. None has mip levels.
    pub fn init_default_textures(device: &Device) -> (textures: DefaultTextures)
        ensures
            textures.white == packed_unorm4x8(255, 255, 255, 255),
            textures.black == packed_unorm4x8(0, 0, 0, 255),
            textures.grey == packed_unorm4x8(171, 171, 171, 255),
            textures.error_checkerboard.len() == CHECKERBOARD_SIZE * CHECKERBOARD_SIZE,
            forall|i: int, j: int|
                0 <= i < CHECKERBOARD_SIZE && 0 <= j < CHECKERBOARD_SIZE
                    ==> #[trigger] textures.error_checkerboard[i * CHECKERBOARD_SIZE + j]
                    == checker_cell(
                    i,
                    j,
                    packed_unorm4x8(0, 0, 0, 255),
                    packed_unorm4x8(255, 0, 255, 255),
                ),
            default_upload(textures.white_upload, 1),
            default_upload(textures.black_upload, 1),
            default_upload(textures.grey_upload, 1),
            default_upload(textures.error_checkerboard_upload, 16),
    {
        proof {
            lemma_quantized_range(0);
            lemma_grey_level();
        }
        let white = pack_unorm4x8([ONE, ONE, ONE, ONE]);
        let black = pack_unorm4x8([0, 0, 0, ONE]);
        let grey = pack_unorm4x8([GREY, GREY, GREY, ONE]);
        let magenta = pack_unorm4x8([ONE, 0, ONE, ONE]);
        let error_checkerboard = checkerboard(CHECKERBOARD_SIZE, black, magenta);
        let white_upload = Self::default_texture(device, 1).unwrap();
        let black_upload = Self::default_texture(device, 1).unwrap();
        let grey_upload = Self::default_texture(device, 1).unwrap();
        let error_checkerboard_upload = Self::default_texture(
            device,
            CHECKERBOARD_SIZE as u32,
        ).unwrap();
        DefaultTextures {
            white,
            black,
            grey,
            error_checkerboard,
            white_upload,
            black_upload,
            grey_upload,
            error_checkerboard_upload,
        }
    }

    /// Describes the upload of a default texture of the side `side`: eight
    /// bits per channel, sampled, without mip levels. `None` where the
    /// pixels do not fit thirty-two bits.
    pub fn default_texture(device: &Device, side: u32) -> (upload: Option<TextureUpload<'static>>)
        ensures
            upload is Some <==> side * side * 4 <= u32::MAX,
            upload matches Some(plan) ==> default_upload(plan, side),
    {
        let extent = Extent3D { width: side, height: side, depth: 1 };
        assert(crate::allocation::texture_bytes(extent) == side * side * 4) by (nonlinear_arith)
            requires
                extent.width == side,
                extent.height == side,
                extent.depth == 1,
        ;
        AllocatedImage::new_texture(device, FORMAT_R8G8B8A8_UNORM, IMAGE_USAGE_SAMPLED, extent, false)
    }

    /// Describes the pool and the layouts of the renderer's descriptors.
    pub fn init_descriptors() -> (setup: DescriptorSetup)
        ensures
            setup.pool@ == pool_create_model(
                DRAW_IMAGE_DESCRIPTOR_SETS,
                seq![
                    PoolSizeRatio {
                        descriptor_type: DESCRIPTOR_TYPE_STORAGE_IMAGE,
                        ratio_milli: 1000,
                    },
                ],
            ),
            setup.draw_image_layout.flags == 0,
            setup.draw_image_layout.bindings@ == layout_binding(
                DESCRIPTOR_TYPE_STORAGE_IMAGE,
                SHADER_STAGE_COMPUTE,
            ),
            setup.scene_data_layout.flags == 0,
            setup.scene_data_layout.bindings@ == layout_binding(
                DESCRIPTOR_TYPE_UNIFORM_BUFFER,
                SHADER_STAGE_VERTEX | SHADER_STAGE_FRAGMENT,
            ),
            setup.single_image_layout.flags == 0,
            setup.single_image_layout.bindings@ == layout_binding(
                DESCRIPTOR_TYPE_COMBINED_IMAGE_SAMPLER,
                SHADER_STAGE_FRAGMENT,
            ),
    {
        let mut ratio_sizes: Vec<PoolSizeRatio> = Vec::new();
        ratio_sizes.push(
            PoolSizeRatio { descriptor_type: DESCRIPTOR_TYPE_STORAGE_IMAGE, ratio_milli: 1000 },
        );
        assert(ratio_sizes@ =~= seq![
            PoolSizeRatio { descriptor_type: DESCRIPTOR_TYPE_STORAGE_IMAGE, ratio_milli: 1000 },
        ]);
        let pool = pool_create_info(DRAW_IMAGE_DESCRIPTOR_SETS, ratio_sizes.as_slice());
        DescriptorSetup {
            pool,
            draw_image_layout: single_binding_layout(
                DESCRIPTOR_TYPE_STORAGE_IMAGE,
                SHADER_STAGE_COMPUTE,
            ),
            scene_data_layout: single_binding_layout(
                DESCRIPTOR_TYPE_UNIFORM_BUFFER,
                SHADER_STAGE_VERTEX | SHADER_STAGE_FRAGMENT,
            ),
            single_image_layout: single_binding_layout(
                DESCRIPTOR_TYPE_COMBINED_IMAGE_SAMPLER,
                SHADER_STAGE_FRAGMENT,
            ),
        }
    }

    /// The write that points the draw image's descriptor set at the draw
    /// image, as a storage image.
    pub fn draw_image_writes(draw_image_view: u64, set: u64) -> (writes: Vec<WriteDescriptorSet>)
        ensures
            writes@ == aimed_at(
                seq![
                    image_write(
                        0,
                        draw_image_view,
                        0,
                        IMAGE_LAYOUT_GENERAL,
                        DESCRIPTOR_TYPE_STORAGE_IMAGE,
                    ),
                ],
                set,
            ),
    {
        let mut writer = DescriptorWriter::new();
        writer.add_storage_image(0, draw_image_view);
        writer.update_descriptor_set(set);
        let writes = writer.writes().clone();
        assert(writes@ =~= aimed_at(
            seq![
                image_write(
                    0,
                    draw_image_view,
                    0,
                    IMAGE_LAYOUT_GENERAL,
                    DESCRIPTOR_TYPE_STORAGE_IMAGE,
                ),
            ],
            set,
        ));
        writes
    }

    /// The write that points a frame's scene data set at the scene data
    /// buffer of the current slot.
    pub fn scene_data_writes(&self, set: u64) -> (writes: Vec<WriteDescriptorSet>)
        requires
            self@.wf(),
        ensures
            writes@ == aimed_at(
                seq![
                    buffer_write(
                        0,
                        self@.current_frame().scene_buffer.buffer,
                        GPU_SCENE_DATA_SIZE,
                        0,
                        DESCRIPTOR_TYPE_UNIFORM_BUFFER,
                    ),
                ],
                set,
            ),
    {
        let index = self.get_current_frame();
        let buffer = self.frame_data[index].gpu_scene_data_buffer.buffer();
        let mut writer = DescriptorWriter::new();
        writer.add_uniform_buffer(0, buffer, GPU_SCENE_DATA_SIZE, 0);
        writer.update_descriptor_set(set);
        let writes = writer.writes().clone();
        assert(writes@ =~= aimed_at(
            seq![
                buffer_write(
                    0,
                    self@.current_frame().scene_buffer.buffer,
                    GPU_SCENE_DATA_SIZE,
                    0,
                    DESCRIPTOR_TYPE_UNIFORM_BUFFER,
                ),
            ],
            set,
        ));
        writes
    }

    /// The write that points a frame's texture set at the bound texture
    /// and its sampler.
    pub fn texture_writes(&self, set: u64) -> (writes: Vec<WriteDescriptorSet>)
        ensures
            writes@ == aimed_at(
                seq![
                    image_write(
                        0,
                        self@.resources.texture_view,
                        self@.resources.sampler,
                        IMAGE_LAYOUT_SHADER_READ_ONLY_OPTIMAL,
                        DESCRIPTOR_TYPE_COMBINED_IMAGE_SAMPLER,
                    ),
                ],
                set,
            ),
    {
        let mut writer = DescriptorWriter::new();
        writer.add_image(
            0,
            self.resources.texture_view,
            self.resources.sampler,
            IMAGE_LAYOUT_SHADER_READ_ONLY_OPTIMAL,
            DESCRIPTOR_TYPE_COMBINED_IMAGE_SAMPLER,
        );
        writer.update_descriptor_set(set);
        let writes = writer.writes().clone();
        assert(writes@ =~= aimed_at(
            seq![
                image_write(
                    0,
                    self@.resources.texture_view,
                    self@.resources.sampler,
                    IMAGE_LAYOUT_SHADER_READ_ONLY_OPTIMAL,
                    DESCRIPTOR_TYPE_COMBINED_IMAGE_SAMPLER,
                ),
            ],
            set,
        ));
        writes
    }

    /// The slot of the frame being drawn: the frame counter modulo the
    /// number of slots.
    pub fn get_current_frame(&self) -> (slot: usize)
        requires
            self@.frames.len() > 0,
        ensures
            slot == self@.current(),
            slot < self@.frames.len(),
    {
        self.frame_index % self.frame_data.len()
    }

    pub fn frame_index(&self) -> (frame: usize)
        ensures
            frame == self@.frame_index,
    {
        self.frame_index
    }

    pub fn phase(&self) -> (phase: FramePhase)
        ensures
            phase == self@.phase,
    {
        self.phase
    }

    /// The frame outstanding in the slot `slot`, if there is one.
    pub fn submitted(&self, slot: usize) -> (frame: Option<usize>)
        requires
            slot < self@.frames.len(),
        ensures
            frame == self@.frames[slot as int].submitted,
    {
        self.frame_data[slot].submitted
    }

    /// The descriptor allocator of the slot `slot`.
    pub fn frame_descriptors(&self, slot: usize) -> (allocator: &DescriptorAllocatorGrowable)
        requires
            slot < self@.frames.len(),
        ensures
            allocator@ == self@.frames[slot as int].descriptors,
    {
        &self.frame_data[slot].frame_descriptors
    }

    /// The swapchain that frames are presented on.
    pub fn swapchain(&self) -> (swapchain: &Swapchain)
        ensures
            swapchain@ == self@.swapchain,
    {
        &self.swapchain
    }

    /// The handles that every frame draws with.
    pub fn resources(&self) -> (resources: &RenderResources)
        ensures
            *resources == self@.resources,
    {
        &self.resources
    }

    /// The scene data buffer of the slot `slot`.
    pub fn scene_buffer(&self, slot: usize) -> (buffer: &AllocatedBuffer<'static>)
        requires
            slot < self@.frames.len(),
        ensures
            buffer@ == self@.frames[slot as int].scene_buffer,
    {
        &self.frame_data[slot].gpu_scene_data_buffer
    }

    /// Takes the renderer apart for teardown: the swapchain, the frame
    /// slots in order, the handles that every frame draws with, and the
    /// meshes.
    pub fn release(self) -> (parts: (Swapchain, Vec<FrameData>, RenderResources, Vec<MeshAsset>))
        ensures
            parts.0@ == self@.swapchain,
            parts.1@.len() == self@.frames.len(),
            forall|i: int| 0 <= i < parts.1@.len() ==> (#[trigger] parts.1@[i])@ == self@.frames[i],
            parts.2 == self@.resources,
            parts.3@ == self@.meshes,
    {
        (self.swapchain, self.frame_data, self.resources, self.test_meshes)
    }

    /// The meshes that were loaded for drawing.
    pub fn meshes(&self) -> (meshes: &Vec<MeshAsset>)
        ensures
            meshes@ == self@.meshes,
    {
        &self.test_meshes
    }

    /// Queues a resize: the next frame rebuilds the swapchain for a window
    /// of this size before it does anything else.
    pub fn resize_swapchain(&mut self, logical_size: LogicalSize)
        ensures
            final(self)@ == old(self)@.after_resize(logical_size),
            old(self)@.wf() ==> final(self)@.wf(),
    {
        self.resize_swapchain = Some(logical_size);
    }

    pub fn wait_idle(&self) -> (step: QueueStep)
        ensures
            step == QueueStep::WaitIdle,
    {
        self.device.wait_idle()
    }

    /// The extent that frames are drawn at.
    pub fn draw_extent(&self) -> (extent: Extent2D)
        ensures
            extent == self@.draw_extent(),
    {
        let image = self.resources.draw_image.extent();
        let screen = self.swapchain.extent();
        Extent2D {
            width: if image.width <= screen.width {
                image.width
            } else {
                screen.width
            },
            height: if image.height <= screen.height {
                image.height
            } else {
                screen.height
            },
        }
    }

    /// Begins a frame. Where a resize is pending it is taken up: the caller
    /// waits for the device to go idle, rebuilds the swapchain and reports
    /// it to `swapchain_recreated`. Else the caller waits for the fence of
    /// the frame's slot and reports to `fence_signaled`.
    pub fn draw(&mut self) -> (steps: Vec<QueueStep>)
        requires
            old(self)@.wf(),
            old(self)@.phase is Idle,
        ensures
            final(self)@ == old(self)@.after_draw(),
            steps@ == old(self)@.draw_steps(),
            final(self)@.wf(),
    {
        let mut steps: Vec<QueueStep> = Vec::new();
        match self.resize_swapchain.take() {
            Some(logical_size) => {
                steps.push(self.device.wait_idle());
                steps.push(QueueStep::RecreateSwapchain(logical_size));
                self.phase = FramePhase::AwaitingSwapchain;
            },
            None => {
                let index = self.get_current_frame();
                steps.push(
                    self.device.wait_for_fence(
                        self.frame_data[index].in_flight_fence,
                        FRAME_TIMEOUT,
                    ),
                );
                self.phase = FramePhase::AwaitingFence;
            },
        }
        assert(steps@ =~= old(self)@.draw_steps());
        assert(self@.frames =~= old(self)@.frames);
        steps
    }

    /// Takes in the rebuilt swapchain and hands back the one it replaces,
    /// for the caller to destroy; the caller waits for the fence of the
    /// frame's slot next.
    pub fn swapchain_recreated(&mut self, swapchain: Swapchain) -> (next: (Vec<QueueStep>, Swapchain))
        requires
            old(self)@.wf(),
            old(self)@.phase is AwaitingSwapchain,
        ensures
            final(self)@ == old(self)@.after_swapchain_recreated(swapchain@),
            next.0@ == seq![old(self)@.fence_wait()],
            next.1@ == old(self)@.swapchain,
            final(self)@.wf(),
    {
        let mut replaced = swapchain;
        std::mem::swap(&mut self.swapchain, &mut replaced);
        self.phase = FramePhase::AwaitingFence;
        let index = self.get_current_frame();
        let mut steps: Vec<QueueStep> = Vec::new();
        steps.push(
            self.device.wait_for_fence(self.frame_data[index].in_flight_fence, FRAME_TIMEOUT),
        );
        assert(self@.frames =~= old(self)@.frames);
        (steps, replaced)
    }

    /// Takes in that the fence of the frame's slot is signaled: what was
    /// submitted from the slot is done. The descriptor sets of the slot's
    /// last frame end here.
    pub fn fence_signaled(&mut self) -> (steps: Vec<QueueStep>)
        requires
            old(self)@.wf(),
            old(self)@.phase is AwaitingFence,
        ensures
            final(self)@ == old(self)@.after_fence_signaled(),
            steps@ == old(self)@.fence_signaled_steps(),
            final(self)@.wf(),
    {
        let index = self.get_current_frame();
        let acquire = self.swapchain.acquire_next_image(
            self.frame_data[index].image_available_semaphore,
            FRAME_TIMEOUT,
        );
        let mut steps: Vec<QueueStep> = Vec::new();
        steps.push(self.device.reset_fence(self.frame_data[index].in_flight_fence));
        let ghost frame_before = self.frame_data@[index as int]@;
        assert(frame_before == old(self)@.current_frame());
        assert(frame_before.wf());
        let slot = &mut self.frame_data[index];
        slot.submitted = None;
        let pools = slot.frame_descriptors.clear_pools();
        let ghost all = frame_before.descriptors.ready + frame_before.descriptors.full;
        let ghost fixed = steps@;
        let mut i: usize = 0;
        while i < pools.len()
            invariant
                i <= pools.len(),
                pools@ == all,
                steps@ == fixed + Seq::new(
                    i as nat,
                    |k: int| QueueStep::ResetDescriptorPool(all[k]),
                ),
            decreases pools.len() - i,
        {
            steps.push(QueueStep::ResetDescriptorPool(pools[i]));
            i += 1;
            assert(steps@ =~= fixed + Seq::new(
                i as nat,
                |k: int| QueueStep::ResetDescriptorPool(all[k]),
            ));
        }
        steps.push(QueueStep::AcquireImage(acquire));
        self.phase = FramePhase::AwaitingImage;
        assert(steps@ =~= old(self)@.fence_signaled_steps());
        assert(self@.frames =~= old(self)@.after_fence_signaled().frames);
        assert forall|k: int| 0 <= k < self@.frames.len() implies (#[trigger] self@.frames[k]).wf() by {
            if k != index {
                assert(self@.frames[k] == old(self)@.frames[k]);
            }
        }
        steps
    }

    /// Takes in the index of the acquired image and returns the image, into
    /// which the frame will be copied. `None`, and nothing changed, where
    /// the swapchain has no image of that index.
    pub fn image_acquired(&mut self, image_index: u32) -> (image: Option<u64>)
        requires
            old(self)@.wf(),
            old(self)@.phase is AwaitingImage,
        ensures
            final(self)@ == old(self)@.after_image_acquired(image_index),
            image == if image_index < old(self)@.swapchain.images.len() {
                Some(old(self)@.swapchain.images[image_index as int])
            } else {
                None
            },
            final(self)@.wf(),
    {
        let image = self.swapchain.image(image_index);
        if image.is_some() {
            self.phase = FramePhase::Recording { image_index };
        }
        assert(self@.frames =~= old(self)@.frames);
        image
    }

    /// Starts the allocation of a descriptor set for the frame being
    /// recorded, from the allocator of its slot.
    pub fn allocate_descriptor(&mut self, layout: u64) -> (step: AllocationStep)
        requires
            old(self)@.wf(),
            old(self)@.phase is Recording,
            old(self)@.current_frame().descriptors.phase is Idle,
        ensures
            final(self)@ == old(self)@.with_descriptors(
                old(self)@.current_frame().descriptors.after_allocate(layout),
            ),
            step@ == old(self)@.current_frame().descriptors.allocate_step(layout),
            final(self)@.wf(),
    {
        let index = self.get_current_frame();
        let ghost frame_before = self.frame_data@[index as int]@;
        assert(frame_before == old(self)@.current_frame());
        assert(frame_before.wf());
        let slot = &mut self.frame_data[index];
        let step = slot.frame_descriptors.allocate(layout);
        proof {
            self.lemma_slot_replaced(*old(self), index as int);
        }
        step
    }

    /// Takes in the pool created for the allocation under way.
    pub fn descriptor_pool_created(&mut self, pool: u64) -> (step: AllocationStep)
        requires
            old(self)@.wf(),
            old(self)@.phase is Recording,
            old(self)@.current_frame().descriptors.phase is AwaitingPool,
        ensures
            final(self)@ == old(self)@.with_descriptors(
                old(self)@.current_frame().descriptors.after_pool_created(pool),
            ),
            step@ == old(self)@.current_frame().descriptors.pool_created_step(pool),
            final(self)@.wf(),
    {
        let index = self.get_current_frame();
        let ghost frame_before = self.frame_data@[index as int]@;
        assert(frame_before == old(self)@.current_frame());
        assert(frame_before.wf());
        let slot = &mut self.frame_data[index];
        let step = slot.frame_descriptors.pool_created(pool);
        proof {
            self.lemma_slot_replaced(*old(self), index as int);
        }
        step
    }

    /// Takes in the device's answer to the set request of the allocation
    /// under way.
    pub fn descriptor_allocation_result(&mut self, result: Result<u64, i32>) -> (step:
        AllocationStep)
        requires
            old(self)@.wf(),
            old(self)@.phase is Recording,
            old(self)@.current_frame().descriptors.phase is AwaitingSet,
        ensures
            final(self)@ == old(self)@.with_descriptors(
                old(self)@.current_frame().descriptors.after_result(result),
            ),
            step@ == old(self)@.current_frame().descriptors.result_step(result),
            final(self)@.wf(),
    {
        let index = self.get_current_frame();
        let ghost frame_before = self.frame_data@[index as int]@;
        assert(frame_before == old(self)@.current_frame());
        assert(frame_before.wf());
        let slot = &mut self.frame_data[index];
        let step = slot.frame_descriptors.allocation_result(result);
        proof {
            self.lemma_slot_replaced(*old(self), index as int);
        }
        step
    }

    /// When only the allocator of one slot changed, and stayed well formed,
    /// the renderer is as `with_descriptors` says and as well formed as
    /// before.
    proof fn lemma_slot_replaced(&self, before: VulkanRenderer, index: int)
        requires
            before@.wf(),
            before@.phase is Recording,
            index == before@.current(),
            self.device == before.device,
            self.swapchain == before.swapchain,
            self.frame_index == before.frame_index,
            self.resources == before.resources,
            self.test_meshes == before.test_meshes,
            self.resize_swapchain == before.resize_swapchain,
            self.phase == before.phase,
            self.frame_data@.len() == before.frame_data@.len(),
            forall|k: int|
                0 <= k < self.frame_data@.len() && k != index ==> self.frame_data@[k]
                    == before.frame_data@[k],
            self.frame_data@[index]@ == (FrameState {
                descriptors: self.frame_data@[index]@.descriptors,
                ..before.frame_data@[index]@
            }),
            self.frame_data@[index]@.descriptors.wf(),
        ensures
            self@ == before@.with_descriptors(self.frame_data@[index]@.descriptors),
            self@.wf(),
    {
        let after = before@.with_descriptors(self.frame_data@[index]@.descriptors);
        assert(self@.frames =~= after.frames);
        assert forall|k: int| 0 <= k < self@.frames.len() implies (#[trigger] self@.frames[k]).wf() by {
            if k != index {
                assert(self@.frames[k] == before@.frames[k]);
            }
        }
        assert forall|k: int| 0 <= k < self@.frames.len() implies ((
        #[trigger] self@.frames[k]).submitted matches Some(frame) ==> frame < self@.frame_index
            && frame as int % self@.frames.len() as int == k && self@.frame_index - frame
            <= self@.frames.len()) by {
            assert(self@.frames[k].submitted == before@.frames[k].submitted);
        }
        assert forall|k: int|
            0 <= k < self@.frames.len() && !(self@.phase is Recording && k
                == self@.current()) implies (#[trigger] self@.frames[k]).descriptors.phase is Idle by {
            assert(self@.frames[k] == before@.frames[k]);
        }
    }

    /// The commands that fill the draw image with the background.
    pub fn draw_background(&self, draw_extent: Extent2D) -> (commands: Vec<Command>)
        ensures
            commands@ == compute_pass(
                self@.resources.gradient_pipeline.spec_pipeline(),
                self@.resources.gradient_pipeline.spec_layout(),
                seq![self@.resources.draw_image_descriptor],
                draw_extent,
            ),
    {
        let sets: [u64; 1] = [self.resources.draw_image_descriptor];
        assert(sets@ =~= seq![self@.resources.draw_image_descriptor]);
        self.resources.gradient_pipeline.execute_compute(sets.as_slice(), draw_extent)
    }

    /// The commands of the frame being recorded, which draws its mesh at
    /// `world_matrix` with the texture of `image_set`.
    pub fn record_commands(&self, image_set: u64, world_matrix: [u32; 16]) -> (commands: Vec<
        Command,
    >)
        requires
            self@.wf(),
            self@.phase is Recording,
        ensures
            commands@ == frame_commands(
                self@.resources,
                self@.draw_extent(),
                self@.swapchain.images[self@.phase->image_index as int],
                self@.swapchain.extent,
                image_set,
                self@.meshes[DRAWN_MESH as int],
                world_matrix,
            ),
    {
        let image_index = match self.phase {
            FramePhase::Recording { image_index } => image_index,
            _ => 0,
        };
        let presentation_image = self.swapchain.images()[image_index as usize];
        let presentation_extent = self.swapchain.extent();
        let draw_image = self.resources.draw_image.image();
        let depth_image = self.resources.depth_image.image();
        let draw_extent = self.draw_extent();
        let device = &self.device;
        let mut commands: Vec<Command> = Vec::new();
        commands.push(
            device.transition_image_layout(draw_image, IMAGE_LAYOUT_UNDEFINED, IMAGE_LAYOUT_GENERAL),
        );
        let mut background = self.draw_background(draw_extent);
        commands.append(&mut background);
        commands.push(
            device.transition_image_layout(
                draw_image,
                IMAGE_LAYOUT_GENERAL,
                IMAGE_LAYOUT_COLOR_ATTACHMENT_OPTIMAL,
            ),
        );
        commands.push(
            device.transition_image_layout(
                depth_image,
                IMAGE_LAYOUT_UNDEFINED,
                IMAGE_LAYOUT_DEPTH_ATTACHMENT_OPTIMAL,
            ),
        );
        let mut begin = self.resources.mesh_pipeline.begin_drawing(
            self.resources.draw_image.image_view(),
            self.resources.depth_image.image_view(),
            IMAGE_LAYOUT_COLOR_ATTACHMENT_OPTIMAL,
            IMAGE_LAYOUT_DEPTH_ATTACHMENT_OPTIMAL,
            draw_extent,
            None,
        );
        commands.append(&mut begin);
        commands.push(
            Command::BindDescriptorSet {
                bind_point: PIPELINE_BIND_POINT_GRAPHICS,
                layout: self.resources.mesh_pipeline.layout(),
                set_index: 0,
                descriptor_set: image_set,
            },
        );
        let mut mesh = self.resources.mesh_pipeline.draw(
            draw_extent,
            &self.test_meshes[DRAWN_MESH],
            world_matrix,
        );
        commands.append(&mut mesh);
        commands.push(self.resources.mesh_pipeline.end_drawing());
        commands.push(
            device.transition_image_layout(
                draw_image,
                IMAGE_LAYOUT_COLOR_ATTACHMENT_OPTIMAL,
                IMAGE_LAYOUT_TRANSFER_SRC_OPTIMAL,
            ),
        );
        commands.push(
            device.transition_image_layout(
                presentation_image,
                IMAGE_LAYOUT_UNDEFINED,
                IMAGE_LAYOUT_TRANSFER_DST_OPTIMAL,
            ),
        );
        commands.push(
            device.copy_image_to_image(
                draw_image,
                presentation_image,
                draw_extent,
                presentation_extent,
            ),
        );
        commands.push(
            device.transition_image_layout(
                presentation_image,
                IMAGE_LAYOUT_TRANSFER_DST_OPTIMAL,
                IMAGE_LAYOUT_PRESENT_SRC,
            ),
        );
        assert(commands@ =~= frame_commands(
            self@.resources,
            self@.draw_extent(),
            self@.swapchain.images[self@.phase->image_index as int],
            self@.swapchain.extent,
            image_set,
            self@.meshes[DRAWN_MESH as int],
            world_matrix,
        ));
        commands
    }

    /// The submission of the command buffer of the current slot.
    pub fn submit_to_queue(&self) -> (step: QueueStep)
        requires
            self@.frames.len() > 0,
        ensures
            step == QueueStep::Submit(
                frame_submission(self@.device.graphics_queue_handle(), self@.current_frame()),
            ),
    {
        let index = self.get_current_frame();
        let frame = &self.frame_data[index];
        let submit_info = SubmitInfo {
            queue: 0,
            command_buffer: frame.command_buffer,
            wait_semaphore: Some(
                SemaphoreSubmitInfo {
                    semaphore: frame.image_available_semaphore,
                    stage_mask: PIPELINE_STAGE_COLOR_ATTACHMENT_OUTPUT,
                    value: 1,
                    device_index: 0,
                },
            ),
            signal_semaphore: Some(
                SemaphoreSubmitInfo {
                    semaphore: frame.result_presentable_semaphore,
                    stage_mask: PIPELINE_STAGE_ALL_GRAPHICS,
                    value: 1,
                    device_index: 0,
                },
            ),
            fence: 0,
        };
        self.device.submit_to_graphics_queue(submit_info, frame.in_flight_fence)
    }

    /// Ends the frame: names the recording, the submission and the
    /// presentation, marks the frame outstanding in its slot, and moves on
    /// to the next frame. The frame draws its mesh at `world_matrix`,
    /// sixteen floats as their bit patterns, with the texture of
    /// `image_set`.
    pub fn submit(&mut self, image_set: u64, world_matrix: [u32; 16]) -> (steps: Vec<QueueStep>)
        requires
            old(self)@.wf(),
            old(self)@.phase is Recording,
            old(self)@.current_frame().descriptors.phase is Idle,
            old(self)@.frame_index < usize::MAX,
        ensures
            final(self)@ == old(self)@.after_submit(),
            steps@ == old(self)@.submit_steps(image_set, world_matrix),
            final(self)@.wf(),
    {
        let index = self.get_current_frame();
        let image_index = match self.phase {
            FramePhase::Recording { image_index } => image_index,
            _ => 0,
        };
        let command_buffer = self.frame_data[index].command_buffer;
        let commands = self.record_commands(image_set, world_matrix);
        let mut steps: Vec<QueueStep> = Vec::new();
        steps.push(self.device.reset_command_buffer(command_buffer));
        steps.push(
            self.device.begin_command_buffer(command_buffer, COMMAND_BUFFER_USAGE_ONE_TIME_SUBMIT),
        );
        record_all(&mut steps, &commands);
        steps.push(self.device.end_command_buffer(command_buffer));
        steps.push(self.submit_to_queue());
        steps.push(
            QueueStep::Present(
                self.swapchain.present_image(
                    self.frame_data[index].result_presentable_semaphore,
                    image_index,
                ),
            ),
        );
        assert(steps@ =~= old(self)@.submit_steps(image_set, world_matrix));
        let slot = &mut self.frame_data[index];
        slot.submitted = Some(self.frame_index);
        self.frame_index = self.frame_index + 1;
        self.phase = FramePhase::Idle;
        proof {
            let before = old(self)@;
            let count = before.frames.len() as int;
            assert(self@.frames =~= before.after_submit().frames);
            assert forall|k: int| 0 <= k < self@.frames.len() implies (
            #[trigger] self@.frames[k]).wf() by {
                if k != index {
                    assert(self@.frames[k] == before.frames[k]);
                }
            }
            assert forall|k: int| 0 <= k < self@.frames.len() implies ((
            #[trigger] self@.frames[k]).submitted matches Some(frame) ==> frame
                < self@.frame_index && frame as int % count == k && self@.frame_index - frame
                <= count) by {
                if k != index {
                    assert(self@.frames[k] == before.frames[k]);
                    if before.frames[k].submitted is Some {
                        let frame = before.frames[k].submitted->0;
                        lemma_other_slot_is_younger(
                            before.frame_index as int,
                            frame as int,
                            count,
                        );
                    }
                }
            }
            assert forall|k: int| 0 <= k < self@.frames.len() implies (
            #[trigger] self@.frames[k]).descriptors.phase is Idle by {
                if k != index {
                    assert(self@.frames[k] == before.frames[k]);
                }
            }
        }
        steps
    }
}

/// A frame outstanding in another slot than the one of frame `current` was
/// submitted less than a round of the ring before `current`.
proof fn lemma_other_slot_is_younger(current: int, frame: int, count: int)
    requires
        count > 0,
        0 <= frame < current,
        current - frame <= count,
        frame % count != current % count,
    ensures
        current + 1 - frame <= count,
{
    if current - frame == count {
        assert(current % count == frame % count) by (nonlinear_arith)
            requires
                current == frame + count,
                count > 0,
        ;
    }
}

/// While a frame is being recorded, no earlier frame of its slot is
/// outstanding: the CPU does not record into a slot whose last submission
/// has not been seen done. Each frame outstanding then is in another slot
/// and less than a round of the ring behind the frame being recorded.
pub proof fn lemma_recording_slot_is_retired(state: RendererState)
    requires
        state.wf(),
        state.phase is Recording || state.phase is AwaitingImage,
    ensures
        state.current_frame().submitted is None,
        forall|frame: int|
            state.outstanding(frame) ==> frame % state.frames.len() as int != state.current(),
        forall|frame: int|
            state.outstanding(frame) ==> 0 < state.frame_index - frame < state.frames.len(),
{
    let count = state.frames.len() as int;
    assert forall|frame: int| state.outstanding(frame) implies frame % count != state.current()
        && 0 < state.frame_index - frame < count by {
        let slot = choose|slot: int|
            0 <= slot < state.frames.len() && #[trigger] state.frames[slot].submitted == Some(
                frame as usize,
            ) && 0 <= frame <= usize::MAX;
        assert(state.frames[slot].submitted->0 as int == frame);
        if state.frame_index - frame == count {
            assert(state.frame_index as int % count == frame % count) by (nonlinear_arith)
                requires
                    state.frame_index == frame + count,
                    count > 0,
            ;
        }
    }
}

/// Two frames that are outstanding at once are in different slots, and
/// fewer than a round of the ring apart: a frame and the frame one round
/// later are never outstanding together, and no frame is outstanding that
/// lies a round or more behind the frame counter.
pub proof fn lemma_frames_in_flight(state: RendererState, first: int, second: int)
    requires
        state.wf(),
        state.outstanding(first),
        state.outstanding(second),
    ensures
        first != second ==> first % state.frames.len() as int != second % state.frames.len() as int,
        second != first + state.frames.len(),
        0 <= first < state.frame_index,
        state.frame_index - first <= state.frames.len(),
{
    let count = state.frames.len() as int;
    let slot_first = choose|slot: int|
        0 <= slot < state.frames.len() && #[trigger] state.frames[slot].submitted == Some(
            first as usize,
        ) && 0 <= first <= usize::MAX;
    let slot_second = choose|slot: int|
        0 <= slot < state.frames.len() && #[trigger] state.frames[slot].submitted == Some(
            second as usize,
        ) && 0 <= second <= usize::MAX;
    assert(state.frames[slot_first].submitted->0 as int == first);
    assert(state.frames[slot_second].submitted->0 as int == second);
    if second == first + count {
        assert(second % count == first % count) by (nonlinear_arith)
            requires
                second == first + count,
                count > 0,
        ;
    }
}

/// One call on the renderer, with what the device handed in.
pub enum FrameEvent {
    Resize(LogicalSize),
    Draw,
    SwapchainRecreated(SwapchainState),
    FenceSignaled,
    ImageAcquired(u32),
    AllocateDescriptor(u64),
    DescriptorPoolCreated(u64),
    DescriptorAllocationResult(Result<u64, i32>),
    Submit,
}

impl RendererState {
    /// Whether the call `event` may be made in this state.
    pub open spec fn accepts(self, event: FrameEvent) -> bool {
        match event {
            FrameEvent::Resize(_) => true,
            FrameEvent::Draw => self.phase is Idle,
            FrameEvent::SwapchainRecreated(_) => self.phase is AwaitingSwapchain,
            FrameEvent::FenceSignaled => self.phase is AwaitingFence,
            FrameEvent::ImageAcquired(_) => self.phase is AwaitingImage,
            FrameEvent::AllocateDescriptor(_) => self.phase is Recording
                && self.current_frame().descriptors.phase is Idle,
            FrameEvent::DescriptorPoolCreated(_) => self.phase is Recording
                && self.current_frame().descriptors.phase is AwaitingPool,
            FrameEvent::DescriptorAllocationResult(_) => self.phase is Recording
                && self.current_frame().descriptors.phase is AwaitingSet,
            FrameEvent::Submit => self.phase is Recording
                && self.current_frame().descriptors.phase is Idle && self.frame_index
                < usize::MAX,
        }
    }

    /// The state after the call `event`.
    pub open spec fn apply(self, event: FrameEvent) -> RendererState {
        match event {
            FrameEvent::Resize(logical_size) => self.after_resize(logical_size),
            FrameEvent::Draw => self.after_draw(),
            FrameEvent::SwapchainRecreated(swapchain) => self.after_swapchain_recreated(swapchain),
            FrameEvent::FenceSignaled => self.after_fence_signaled(),
            FrameEvent::ImageAcquired(image_index) => self.after_image_acquired(image_index),
            FrameEvent::AllocateDescriptor(layout) => self.with_descriptors(
                self.current_frame().descriptors.after_allocate(layout),
            ),
            FrameEvent::DescriptorPoolCreated(pool) => self.with_descriptors(
                self.current_frame().descriptors.after_pool_created(pool),
            ),
            FrameEvent::DescriptorAllocationResult(result) => self.with_descriptors(
                self.current_frame().descriptors.after_result(result),
            ),
            FrameEvent::Submit => self.after_submit(),
        }
    }

    /// Whether the calls `events` may be made one after the other.
    pub open spec fn accepts_all(self, events: Seq<FrameEvent>) -> bool
        decreases events.len(),
    {
        if events.len() == 0 {
            true
        } else {
            self.accepts(events[0]) && self.apply(events[0]).accepts_all(events.drop_first())
        }
    }

    /// The state after the calls `events`.
    pub open spec fn apply_all(self, events: Seq<FrameEvent>) -> RendererState
        decreases events.len(),
    {
        if events.len() == 0 {
            self
        } else {
            self.apply(events[0]).apply_all(events.drop_first())
        }
    }
}

/// Every call keeps the renderer well formed.
pub proof fn lemma_call_keeps_renderer(state: RendererState, event: FrameEvent)
    requires
        state.wf(),
        state.accepts(event),
    ensures
        state.apply(event).wf(),
{
    let next = state.apply(event);
    let count = state.frames.len() as int;
    let current = state.current();
    match event {
        FrameEvent::Resize(_) => {},
        FrameEvent::Draw => {},
        FrameEvent::SwapchainRecreated(_) => {},
        FrameEvent::FenceSignaled => {
            crate::descriptor::lemma_call_keeps_pools(
                state.current_frame().descriptors,
                crate::descriptor::AllocatorEvent::ClearPools,
            );
            assert forall|k: int| 0 <= k < next.frames.len() implies (#[trigger] next.frames[k]).wf() by {
                if k != current {
                    assert(next.frames[k] == state.frames[k]);
                }
            }
        },
        FrameEvent::ImageAcquired(_) => {},
        FrameEvent::AllocateDescriptor(layout) => {
            crate::descriptor::lemma_call_keeps_pools(
                state.current_frame().descriptors,
                crate::descriptor::AllocatorEvent::Allocate(layout),
            );
            lemma_descriptors_replaced(state, next.current_frame().descriptors);
        },
        FrameEvent::DescriptorPoolCreated(pool) => {
            crate::descriptor::lemma_call_keeps_pools(
                state.current_frame().descriptors,
                crate::descriptor::AllocatorEvent::PoolCreated(pool),
            );
            lemma_descriptors_replaced(state, next.current_frame().descriptors);
        },
        FrameEvent::DescriptorAllocationResult(result) => {
            crate::descriptor::lemma_call_keeps_pools(
                state.current_frame().descriptors,
                crate::descriptor::AllocatorEvent::AllocationResult(result),
            );
            lemma_descriptors_replaced(state, next.current_frame().descriptors);
        },
        FrameEvent::Submit => {
            assert forall|k: int| 0 <= k < next.frames.len() implies (#[trigger] next.frames[k]).wf() by {
                if k != current {
                    assert(next.frames[k] == state.frames[k]);
                }
            }
            assert forall|k: int| 0 <= k < next.frames.len() implies ((
            #[trigger] next.frames[k]).submitted matches Some(frame) ==> frame < next.frame_index
                && frame as int % count == k && next.frame_index - frame <= count) by {
                if k != current {
                    assert(next.frames[k] == state.frames[k]);
                    if state.frames[k].submitted is Some {
                        lemma_other_slot_is_younger(
                            state.frame_index as int,
                            state.frames[k].submitted->0 as int,
                            count,
                        );
                    }
                }
            }
            assert forall|k: int| 0 <= k < next.frames.len() implies (
            #[trigger] next.frames[k]).descriptors.phase is Idle by {
                if k != current {
                    assert(next.frames[k] == state.frames[k]);
                }
            }
        },
    }
}

proof fn lemma_descriptors_replaced(state: RendererState, descriptors: AllocatorState)
    requires
        state.wf(),
        state.phase is Recording,
        descriptors.wf(),
    ensures
        state.with_descriptors(descriptors).wf(),
        state.with_descriptors(descriptors).current_frame().descriptors == descriptors,
{
    let next = state.with_descriptors(descriptors);
    let current = state.current();
    assert forall|k: int| 0 <= k < next.frames.len() implies (#[trigger] next.frames[k]).wf() by {
        if k != current {
            assert(next.frames[k] == state.frames[k]);
        }
    }
    assert forall|k: int| 0 <= k < next.frames.len() implies ((
    #[trigger] next.frames[k]).submitted matches Some(frame) ==> frame < next.frame_index
        && frame as int % next.frames.len() as int == k && next.frame_index - frame
        <= next.frames.len()) by {
        assert(next.frames[k].submitted == state.frames[k].submitted);
    }
    assert forall|k: int|
        0 <= k < next.frames.len() && !(next.phase is Recording && k
            == next.current()) implies (#[trigger] next.frames[k]).descriptors.phase is Idle by {
        assert(next.frames[k] == state.frames[k]);
    }
}

/// Over any run of the frame loop the renderer stays well formed. So at
/// every point of every run, a slot that is being recorded into has no
/// frame outstanding, and the frames outstanding at once are in different
/// slots and less than a round of the ring behind the frame counter.
pub proof fn lemma_frame_loop_invariant(state: RendererState, events: Seq<FrameEvent>)
    requires
        state.wf(),
        state.accepts_all(events),
    ensures
        state.apply_all(events).wf(),
        state.apply_all(events).phase is Recording ==> state.apply_all(
            events,
        ).current_frame().submitted is None,
        state.apply_all(events).frame_index >= state.frame_index,
    decreases events.len(),
{
    if events.len() > 0 {
        lemma_call_keeps_renderer(state, events[0]);
        lemma_frame_loop_invariant(state.apply(events[0]), events.drop_first());
    }
}

} // verus!
