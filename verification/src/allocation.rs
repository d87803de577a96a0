use crate::constants::BUFFER_USAGE_TRANSFER_SRC;
use crate::constants::FORMAT_D32_SFLOAT;
use crate::constants::FORMAT_R16G16B16A16_SFLOAT;
use crate::constants::IMAGE_ASPECT_COLOR;
use crate::constants::IMAGE_ASPECT_DEPTH;
use crate::constants::IMAGE_LAYOUT_SHADER_READ_ONLY_OPTIMAL;
use crate::constants::IMAGE_LAYOUT_TRANSFER_DST_OPTIMAL;
use crate::constants::IMAGE_LAYOUT_UNDEFINED;
use crate::constants::IMAGE_USAGE_COLOR_ATTACHMENT;
use crate::constants::IMAGE_USAGE_DEPTH_STENCIL_ATTACHMENT;
use crate::constants::IMAGE_USAGE_STORAGE;
use crate::constants::IMAGE_USAGE_TRANSFER_DST;
use crate::constants::IMAGE_USAGE_TRANSFER_SRC;
use crate::device::color_base_layer;
use crate::device::layout_transition;
use crate::device::BufferCreateInfo;
use crate::device::BufferImageCopy;
use crate::device::Command;
use crate::device::Device;
use crate::device::Extent3D;
use crate::device::ImageCreateInfo;
use crate::device::ImageSubresourceLayers;
use crate::device::ImageViewCreateInfo;
use crate::device::Offset3D;
use vstd::arithmetic::logarithm::lemma_log0;
use vstd::arithmetic::logarithm::lemma_log_s;
use vstd::arithmetic::logarithm::log;
use vstd::arithmetic::power2::lemma2_to64;
use vstd::arithmetic::power2::lemma_pow2_unfold;
use vstd::arithmetic::power2::pow2;
use vstd::prelude::*;

verus! {

/// Where a piece of device memory lives, and who can reach it.
#[derive(Clone, Copy, Debug, PartialEq, Eq, Structural)]
pub enum MemoryLocation {
    Unknown,
    /// Device-local memory that the CPU cannot reach.
    GpuOnly,
    /// Host-visible, coherent memory for uploads.
    CpuToGpu,
    /// Host-visible memory for readback.
    GpuToCpu,
}

/// What a resource asks of the memory it is bound to.
#[derive(Clone, Copy, Debug, PartialEq, Eq, Structural)]
pub struct MemoryRequirements {
    pub size: u64,
    pub alignment: u64,
    pub memory_type_bits: u32,
}

/// A request to the memory sub-allocator. The name labels the allocation
/// for debugging and decides nothing.
#[derive(Clone, Copy, Debug)]
pub struct AllocationCreateDesc<'a> {
    pub name: &'a str,
    pub requirements: MemoryRequirements,
    pub location: MemoryLocation,
    pub linear: bool,
}

/// A region of device memory handed out by the sub-allocator. It is not
/// copied: whoever holds it is the one who frees it.
#[derive(Debug, PartialEq, Eq, Structural)]
pub struct Allocation {
    pub memory: u64,
    pub offset: u64,
    pub size: u64,
}

/// The binding of a resource to a place in device memory.
#[derive(Clone, Copy, Debug, PartialEq, Eq, Structural)]
pub struct BindMemory {
    pub resource: u64,
    pub memory: u64,
    pub offset: u64,
}

/// What the memory sub-allocator logs.
#[derive(Clone, Copy, Debug, PartialEq, Eq, Structural)]
pub struct AllocatorDebugSettings {
    pub log_memory_information: bool,
    pub log_leaks_on_shutdown: bool,
    pub store_stack_traces: bool,
    pub log_allocations: bool,
    pub log_frees: bool,
    pub log_stack_traces: bool,
}

/// What the memory sub-allocator is created with.
#[derive(Clone, Copy, Debug, PartialEq, Eq, Structural)]
pub struct AllocatorCreateDesc {
    pub physical_device: u64,
    pub debug_settings: AllocatorDebugSettings,
    pub buffer_device_address: bool,
}

/// The authority on where resources are placed in memory.
#[derive(Clone, Copy, Debug)]
pub struct Allocator {}

impl Allocator {
    pub fn new() -> Self {
        Allocator {  }
    }

    /// Describes the sub-allocator for a device: it logs what it allocates,
    /// frees and leaks, without stack traces, and hands out memory whose
    /// address shaders can take.
    pub fn create_desc(device: &Device) -> (desc: AllocatorCreateDesc)
        ensures
            desc == (AllocatorCreateDesc {
                physical_device: device.physical_device_handle(),
                debug_settings: AllocatorDebugSettings {
                    log_memory_information: true,
                    log_leaks_on_shutdown: true,
                    store_stack_traces: false,
                    log_allocations: true,
                    log_frees: true,
                    log_stack_traces: false,
                },
                buffer_device_address: true,
            }),
    {
        AllocatorCreateDesc {
            physical_device: device.physical_device(),
            debug_settings: AllocatorDebugSettings {
                log_memory_information: true,
                log_leaks_on_shutdown: true,
                store_stack_traces: false,
                log_allocations: true,
                log_frees: true,
                log_stack_traces: false,
            },
            buffer_device_address: true,
        }
    }

    /// The request for the memory of an image: device-local, not linear.
    pub fn allocate_image(&self, image_memory_req: MemoryRequirements) -> (desc:
        AllocationCreateDesc<'static>)
        ensures
            desc.name@ == "Image"@,
            desc.requirements == image_memory_req,
            desc.location == MemoryLocation::GpuOnly,
            !desc.linear,
    {
        AllocationCreateDesc {
            name: "Image",
            requirements: image_memory_req,
            location: MemoryLocation::GpuOnly,
            linear: false,
        }
    }

    /// The request for the memory of a buffer: linear, at the location
    /// asked for.
    pub fn allocate_buffer<'a>(
        &self,
        buffer_name: &'a str,
        buffer_memory_req: MemoryRequirements,
        location: MemoryLocation,
    ) -> (desc: AllocationCreateDesc<'a>)
        ensures
            desc.name@ == buffer_name@,
            desc.requirements == buffer_memory_req,
            desc.location == location,
            desc.linear,
    {
        AllocationCreateDesc {
            name: buffer_name,
            requirements: buffer_memory_req,
            location,
            linear: true,
        }
    }

    /// The step that hands an allocation back to the sub-allocator.
    pub fn free_allocation(&self, allocation: Allocation) -> (step: TeardownStep)
        ensures
            step == TeardownStep::FreeAllocation(allocation),
    {
        TeardownStep::FreeAllocation(allocation)
    }

    /// Where `resource` is bound: at the allocation's offset in the
    /// allocation's memory.
    pub fn bind(&self, resource: u64, allocation: &Allocation) -> (binding: BindMemory)
        ensures
            binding == (BindMemory {
                resource,
                memory: allocation.memory,
                offset: allocation.offset,
            }),
    {
        BindMemory { resource, memory: allocation.memory, offset: allocation.offset }
    }
}

/// How far the creation of a resource has come. The stages are passed in
/// this order and none is skipped.
#[derive(Clone, Copy, Debug, PartialEq, Eq, Structural)]
pub enum ResourceStage {
    /// The resource is described; its handle is not created yet.
    AwaitingHandle,
    /// The handle exists; its memory requirements are not known yet.
    AwaitingRequirements,
    /// Memory was asked for and not handed out yet.
    AwaitingAllocation,
    /// The memory is bound; an image lacks its view.
    AwaitingView,
    /// The resource is complete.
    Ready,
    /// The resource was torn down.
    Released,
}

/// One step of tearing a resource down.
#[derive(Debug, PartialEq, Eq, Structural)]
pub enum TeardownStep {
    DestroyImageView(u64),
    FreeAllocation(Allocation),
    DestroyImage(u64),
    DestroyBuffer(u64),
}

/// The number of mip levels of a full chain for an image whose longer side
/// is `longest`: one more than the binary logarithm, rounded down.
pub open spec fn full_mip_chain(longest: u32) -> int {
    if longest == 0 {
        1
    } else {
        log(2, longest as int) + 1
    }
}

/// The longer of width and height.
pub open spec fn longest_side(extent: Extent3D) -> u32 {
    if extent.width >= extent.height {
        extent.width
    } else {
        extent.height
    }
}

/// The mip levels of a texture: the full chain where mip-mapping is asked
/// for, one level else.
pub open spec fn texture_mip_levels(extent: Extent3D, mip_mapped: bool) -> int {
    if mip_mapped {
        full_mip_chain(longest_side(extent))
    } else {
        1
    }
}

/// The aspect of a texture: depth for the depth format, color else.
pub open spec fn texture_aspect(format: i32) -> u32 {
    if format == FORMAT_D32_SFLOAT {
        IMAGE_ASPECT_DEPTH
    } else {
        IMAGE_ASPECT_COLOR
    }
}

/// The bytes of the pixels of a texture of four bytes each.
pub open spec fn texture_bytes(extent: Extent3D) -> int {
    extent.width * extent.height * extent.depth * 4
}

/// The commands that fill `image` from `staging_buffer`: move the image to
/// the transfer destination layout, copy the whole extent into its first
/// level, move it to the layout that shaders read.
pub open spec fn texture_upload_commands(staging_buffer: u64, image: u64, extent: Extent3D) -> Seq<
    Command,
> {
    seq![
        layout_transition(image, IMAGE_LAYOUT_UNDEFINED, IMAGE_LAYOUT_TRANSFER_DST_OPTIMAL),
        Command::CopyBufferToImage {
            src_buffer: staging_buffer,
            dst_image: image,
            dst_image_layout: IMAGE_LAYOUT_TRANSFER_DST_OPTIMAL,
            region: BufferImageCopy {
                buffer_offset: 0,
                buffer_row_length: 0,
                buffer_image_height: 0,
                image_subresource: color_base_layer(),
                image_offset: Offset3D { x: 0, y: 0, z: 0 },
                image_extent: extent,
            },
        },
        layout_transition(
            image,
            IMAGE_LAYOUT_TRANSFER_DST_OPTIMAL,
            IMAGE_LAYOUT_SHADER_READ_ONLY_OPTIMAL,
        ),
    ]
}

/// The number of mip levels of a full chain down to one pixel: the number
/// of times the longer side can be halved before it is one, plus one.
pub fn mip_level_count(width: u32, height: u32) -> (levels: u32)
    ensures
        levels == full_mip_chain(longest_side(Extent3D { width, height, depth: 1 })),
        1 <= levels <= 32,
        width > 0 || height > 0 ==> pow2((levels - 1) as nat) <= longest_side(
            Extent3D { width, height, depth: 1 },
        ) < pow2(levels as nat),
{
    let longest: u32 = if width >= height {
        width
    } else {
        height
    };
    let mut rest: u32 = longest;
    let mut levels: u32 = 1;
    let ghost mut scale: nat = 1;
    proof {
        lemma2_to64();
        if longest == 0 {
            lemma_log0(2, 0);
        }
    }
    while rest > 1
        invariant
            1 <= levels <= 32,
            scale == pow2((levels - 1) as nat),
            scale >= 1,
            rest * scale <= longest < (rest + 1) * scale,
            longest > 0 ==> rest > 0,
            longest > 0 ==> levels + log(2, rest as int) == log(2, longest as int) + 1,
            longest == 0 ==> rest == 0 && levels == 1,
        decreases rest,
    {
        proof {
            lemma_log_s(2, rest as int);
            lemma_pow2_unfold(levels as nat);
            if levels == 32 {
                lemma2_to64();
                assert(rest * scale >= 0x1_0000_0000) by (nonlinear_arith)
                    requires
                        rest >= 2,
                        scale == 0x8000_0000,
                ;
            }
            assert((rest / 2) * (2 * scale) <= rest * scale && (rest + 1) * scale <= (rest / 2
                + 1) * (2 * scale)) by (nonlinear_arith)
                requires
                    scale >= 1,
                    rest >= 0,
            ;
            scale = 2 * scale;
        }
        rest = rest / 2;
        levels = levels + 1;
    }
    proof {
        if longest > 0 {
            lemma_log0(2, 1);
            lemma_pow2_unfold(levels as nat);
            assert(rest == 1);
            assert(1 * scale == scale && 2 * scale == (1 + 1) * scale) by (nonlinear_arith);
        }
    }
    levels
}

/// An image with its memory and its view, from its description to its
/// teardown.
///
/// Creation goes through the stages of `ResourceStage` in order: the image
/// handle is created, its memory requirements are asked for, memory is
/// allocated and bound, and the view is created last. `release` names the
/// teardown in the reverse order. An image has one owner and is not copied,
/// so that it is given up once.
#[derive(Debug)]
pub struct AllocatedImage {
    image: u64,
    image_view: u64,
    allocation: Option<Allocation>,
    extent: Extent3D,
    format: i32,
    usage_flags: u32,
    aspect_flags: u32,
    mip_levels: u32,
    stage: ResourceStage,
}

/// The mathematical content of an `AllocatedImage`.
pub struct ImageState {
    pub image: u64,
    pub image_view: u64,
    pub allocation: Option<Allocation>,
    pub extent: Extent3D,
    pub format: i32,
    pub usage_flags: u32,
    pub aspect_flags: u32,
    pub mip_levels: u32,
    pub stage: ResourceStage,
}

impl ImageState {
    /// The backing allocation exists exactly from the binding to the
    /// release.
    pub open spec fn wf(self) -> bool {
        self.allocation is Some <==> (self.stage is AwaitingView || self.stage is Ready)
    }

    pub open spec fn described(
        format: i32,
        usage_flags: u32,
        extent: Extent3D,
        aspect_flags: u32,
        mip_levels: u32,
    ) -> ImageState {
        ImageState {
            image: 0,
            image_view: 0,
            allocation: None,
            extent,
            format,
            usage_flags,
            aspect_flags,
            mip_levels,
            stage: ResourceStage::AwaitingHandle,
        }
    }

    /// Whether this is the image that `described` describes, created and
    /// complete.
    pub open spec fn completes(self, described: ImageState) -> bool {
        &&& self.wf()
        &&& self.stage is Ready
        &&& self.extent == described.extent
        &&& self.format == described.format
        &&& self.usage_flags == described.usage_flags
        &&& self.aspect_flags == described.aspect_flags
        &&& self.mip_levels == described.mip_levels
    }

    pub open spec fn create_info(self) -> ImageCreateInfo {
        ImageCreateInfo {
            image_type: crate::constants::IMAGE_TYPE_2D,
            format: self.format,
            extent: self.extent,
            mip_levels: self.mip_levels,
            array_layers: 1,
            samples: crate::constants::SAMPLE_COUNT_1,
            tiling: crate::constants::IMAGE_TILING_OPTIMAL,
            usage: self.usage_flags,
        }
    }

    pub open spec fn view_info(self) -> ImageViewCreateInfo {
        ImageViewCreateInfo {
            image: self.image,
            view_type: crate::constants::IMAGE_VIEW_TYPE_2D,
            format: self.format,
            swizzle: crate::constants::COMPONENT_SWIZZLE_IDENTITY,
            subresource_range: crate::device::ImageSubresourceRange {
                aspect_mask: self.aspect_flags,
                base_mip_level: 0,
                level_count: self.mip_levels,
                base_array_layer: 0,
                layer_count: 1,
            },
        }
    }

    /// The teardown of a complete image: the view, then the memory, then
    /// the image.
    pub open spec fn teardown(self) -> Seq<TeardownStep> {
        seq![
            TeardownStep::DestroyImageView(self.image_view),
            TeardownStep::FreeAllocation(self.allocation->0),
            TeardownStep::DestroyImage(self.image),
        ]
    }
}

impl View for AllocatedImage {
    type V = ImageState;

    closed spec fn view(&self) -> ImageState {
        ImageState {
            image: self.image,
            image_view: self.image_view,
            allocation: self.allocation,
            extent: self.extent,
            format: self.format,
            usage_flags: self.usage_flags,
            aspect_flags: self.aspect_flags,
            mip_levels: self.mip_levels,
            stage: self.stage,
        }
    }
}

/// What uploading a texture starts with: the staging buffer and the image,
/// each described and not yet created.
#[derive(Debug)]
pub struct TextureUpload<'a> {
    pub staging: AllocatedBuffer<'a>,
    pub staging_info: BufferCreateInfo,
    pub image: AllocatedImage,
    pub image_info: ImageCreateInfo,
}

impl AllocatedImage {
    /// Describes an image. Nothing is created yet: the caller creates the
    /// image from the returned description and reports it to
    /// `image_created`.
    pub fn new(
        device: &Device,
        format: i32,
        usage_flags: u32,
        extent: Extent3D,
        aspect_flags: u32,
        mip_levels: u32,
    ) -> (created: (Self, ImageCreateInfo))
        ensures
            created.0@ == ImageState::described(
                format,
                usage_flags,
                extent,
                aspect_flags,
                mip_levels,
            ),
            created.1 == created.0@.create_info(),
            created.0@.wf(),
    {
        let image = AllocatedImage {
            image: 0,
            image_view: 0,
            allocation: None,
            extent,
            format,
            usage_flags,
            aspect_flags,
            mip_levels,
            stage: ResourceStage::AwaitingHandle,
        };
        (image, device.create_image(format, usage_flags, extent, mip_levels))
    }

    /// Describes the image that frames are drawn into: sixteen-bit float
    /// color that can be rendered to, written by compute, and copied from
    /// and to.
    pub fn new_draw_color_image(device: &Device, extent: Extent3D) -> (created: (
        Self,
        ImageCreateInfo,
    ))
        ensures
            created.0@ == ImageState::described(
                FORMAT_R16G16B16A16_SFLOAT,
                IMAGE_USAGE_COLOR_ATTACHMENT | IMAGE_USAGE_STORAGE | IMAGE_USAGE_TRANSFER_SRC
                    | IMAGE_USAGE_TRANSFER_DST,
                extent,
                IMAGE_ASPECT_COLOR,
                1,
            ),
            created.1 == created.0@.create_info(),
            created.0@.wf(),
    {
        let usage = IMAGE_USAGE_COLOR_ATTACHMENT | IMAGE_USAGE_STORAGE | IMAGE_USAGE_TRANSFER_SRC
            | IMAGE_USAGE_TRANSFER_DST;
        Self::new(device, FORMAT_R16G16B16A16_SFLOAT, usage, extent, IMAGE_ASPECT_COLOR, 1)
    }

    /// Describes the depth target: thirty-two-bit float depth.
    pub fn new_depth_image(device: &Device, extent: Extent3D) -> (created: (Self, ImageCreateInfo))
        ensures
            created.0@ == ImageState::described(
                FORMAT_D32_SFLOAT,
                IMAGE_USAGE_DEPTH_STENCIL_ATTACHMENT,
                extent,
                IMAGE_ASPECT_DEPTH,
                1,
            ),
            created.1 == created.0@.create_info(),
            created.0@.wf(),
    {
        Self::new(
            device,
            FORMAT_D32_SFLOAT,
            IMAGE_USAGE_DEPTH_STENCIL_ATTACHMENT,
            extent,
            IMAGE_ASPECT_DEPTH,
            1,
        )
    }

    /// Describes the image of a texture: with a full mip chain where
    /// `mip_mapped`, with one level else.
    pub fn allocate_texture(
        device: &Device,
        format: i32,
        usage_flags: u32,
        extent: Extent3D,
        mip_mapped: bool,
    ) -> (created: (Self, ImageCreateInfo))
        ensures
            created.0@ == ImageState::described(
                format,
                usage_flags,
                extent,
                texture_aspect(format),
                texture_mip_levels(extent, mip_mapped) as u32,
            ),
            1 <= texture_mip_levels(extent, mip_mapped) <= 32,
            created.1 == created.0@.create_info(),
            created.0@.wf(),
    {
        let mip_levels: u32 = if mip_mapped {
            mip_level_count(extent.width, extent.height)
        } else {
            1
        };
        let aspect_flags = if format == FORMAT_D32_SFLOAT {
            IMAGE_ASPECT_DEPTH
        } else {
            IMAGE_ASPECT_COLOR
        };
        Self::new(device, format, usage_flags, extent, aspect_flags, mip_levels)
    }

    /// Describes what uploading a texture of four bytes per pixel needs: a
    /// host-visible staging buffer of the size of the pixels, and the image,
    /// which can also be copied to and from. `None` where the size of the
    /// pixels does not fit thirty-two bits.
    pub fn new_texture(
        device: &Device,
        format: i32,
        usage_flags: u32,
        extent: Extent3D,
        mip_mapped: bool,
    ) -> (upload: Option<TextureUpload<'static>>)
        ensures
            upload is Some <==> texture_bytes(extent) <= u32::MAX,
            upload matches Some(plan) ==> {
                &&& plan.staging@ == BufferState::described(
                    "Texture Staging Buffer"@,
                    BUFFER_USAGE_TRANSFER_SRC,
                    texture_bytes(extent) as u64,
                    MemoryLocation::CpuToGpu,
                )
                &&& plan.staging_info == plan.staging@.create_info()
                &&& plan.image@ == ImageState::described(
                    format,
                    usage_flags | IMAGE_USAGE_TRANSFER_DST | IMAGE_USAGE_TRANSFER_SRC,
                    extent,
                    texture_aspect(format),
                    texture_mip_levels(extent, mip_mapped) as u32,
                )
                &&& plan.image_info == plan.image@.create_info()
            },
    {
        let size = match texture_byte_size(extent) {
            Some(size) => size,
            None => {
                return None;
            },
        };
        let (staging, staging_info) = AllocatedBuffer::new(
            device,
            "Texture Staging Buffer",
            BUFFER_USAGE_TRANSFER_SRC,
            size,
            MemoryLocation::CpuToGpu,
        );
        let (image, image_info) = Self::allocate_texture(
            device,
            format,
            usage_flags | IMAGE_USAGE_TRANSFER_DST | IMAGE_USAGE_TRANSFER_SRC,
            extent,
            mip_mapped,
        );
        Some(TextureUpload { staging, staging_info, image, image_info })
    }

    /// The commands that fill the image from the staging buffer.
    pub fn upload_commands(&self, device: &Device, staging_buffer: u64) -> (commands: Vec<Command>)
        ensures
            commands@ == texture_upload_commands(staging_buffer, self@.image, self@.extent),
    {
        let mut commands: Vec<Command> = Vec::new();
        commands.push(
            device.transition_image_layout(
                self.image,
                IMAGE_LAYOUT_UNDEFINED,
                IMAGE_LAYOUT_TRANSFER_DST_OPTIMAL,
            ),
        );
        commands.push(
            Command::CopyBufferToImage {
                src_buffer: staging_buffer,
                dst_image: self.image,
                dst_image_layout: IMAGE_LAYOUT_TRANSFER_DST_OPTIMAL,
                region: BufferImageCopy {
                    buffer_offset: 0,
                    buffer_row_length: 0,
                    buffer_image_height: 0,
                    image_subresource: ImageSubresourceLayers {
                        aspect_mask: IMAGE_ASPECT_COLOR,
                        mip_level: 0,
                        base_array_layer: 0,
                        layer_count: 1,
                    },
                    image_offset: Offset3D { x: 0, y: 0, z: 0 },
                    image_extent: self.extent,
                },
            },
        );
        commands.push(
            device.transition_image_layout(
                self.image,
                IMAGE_LAYOUT_TRANSFER_DST_OPTIMAL,
                IMAGE_LAYOUT_SHADER_READ_ONLY_OPTIMAL,
            ),
        );
        assert(commands@ =~= texture_upload_commands(staging_buffer, self@.image, self@.extent));
        commands
    }

    /// Takes in the created image handle. The caller asks for its memory
    /// requirements next.
    pub fn image_created(&mut self, image: u64)
        requires
            old(self)@.stage is AwaitingHandle,
            old(self)@.wf(),
        ensures
            final(self)@ == (ImageState {
                image,
                stage: ResourceStage::AwaitingRequirements,
                ..old(self)@
            }),
            final(self)@.wf(),
    {
        self.image = image;
        self.stage = ResourceStage::AwaitingRequirements;
    }

    /// Takes in the memory requirements of the image and names the memory
    /// to ask for.
    pub fn allocate(&mut self, allocator: &Allocator, requirements: MemoryRequirements) -> (desc:
        AllocationCreateDesc<'static>)
        requires
            old(self)@.stage is AwaitingRequirements,
            old(self)@.wf(),
        ensures
            final(self)@ == (ImageState {
                stage: ResourceStage::AwaitingAllocation,
                ..old(self)@
            }),
            final(self)@.wf(),
            desc.name@ == "Image"@,
            desc.requirements == requirements,
            desc.location == MemoryLocation::GpuOnly,
            !desc.linear,
    {
        self.stage = ResourceStage::AwaitingAllocation;
        allocator.allocate_image(requirements)
    }

    /// Takes in the allocation and names the binding of the image to it.
    pub fn bind(&mut self, allocator: &Allocator, allocation: Allocation) -> (binding: BindMemory)
        requires
            old(self)@.stage is AwaitingAllocation,
            old(self)@.wf(),
        ensures
            final(self)@ == (ImageState {
                allocation: Some(allocation),
                stage: ResourceStage::AwaitingView,
                ..old(self)@
            }),
            final(self)@.wf(),
            binding == (BindMemory {
                resource: old(self)@.image,
                memory: allocation.memory,
                offset: allocation.offset,
            }),
    {
        let binding = allocator.bind(self.image, &allocation);
        self.allocation = Some(allocation);
        self.stage = ResourceStage::AwaitingView;
        binding
    }

    /// Describes the view of the bound image.
    pub fn create_view(&self, device: &Device) -> (info: ImageViewCreateInfo)
        requires
            self@.stage is AwaitingView,
        ensures
            info == self@.view_info(),
    {
        device.create_image_view(self.image, self.format, self.aspect_flags, self.mip_levels)
    }

    /// Takes in the created view: the image is complete.
    pub fn view_created(&mut self, image_view: u64)
        requires
            old(self)@.stage is AwaitingView,
            old(self)@.wf(),
        ensures
            final(self)@ == (ImageState { image_view, stage: ResourceStage::Ready, ..old(self)@ }),
            final(self)@.wf(),
    {
        self.image_view = image_view;
        self.stage = ResourceStage::Ready;
    }

    /// Gives the image up and names its teardown: the view is destroyed,
    /// then the memory freed, then the image destroyed.
    pub fn release(&mut self) -> (steps: Vec<TeardownStep>)
        requires
            old(self)@.stage is Ready,
            old(self)@.wf(),
        ensures
            steps@ == old(self)@.teardown(),
            final(self)@ == (ImageState {
                allocation: None,
                stage: ResourceStage::Released,
                ..old(self)@
            }),
            final(self)@.wf(),
    {
        let mut steps: Vec<TeardownStep> = Vec::new();
        steps.push(TeardownStep::DestroyImageView(self.image_view));
        match self.allocation.take() {
            Some(allocation) => {
                steps.push(TeardownStep::FreeAllocation(allocation));
            },
            None => {},
        }
        steps.push(TeardownStep::DestroyImage(self.image));
        self.stage = ResourceStage::Released;
        assert(steps@ =~= old(self)@.teardown());
        steps
    }

    pub fn stage(&self) -> (stage: ResourceStage)
        ensures
            stage == self@.stage,
    {
        self.stage
    }

    pub fn image(&self) -> (image: u64)
        ensures
            image == self@.image,
    {
        self.image
    }

    pub fn extent(&self) -> (extent: Extent3D)
        ensures
            extent == self@.extent,
    {
        self.extent
    }

    pub fn image_view(&self) -> (image_view: u64)
        ensures
            image_view == self@.image_view,
    {
        self.image_view
    }

    pub fn format(&self) -> (format: i32)
        ensures
            format == self@.format,
    {
        self.format
    }

    pub fn mip_levels(&self) -> (mip_levels: u32)
        ensures
            mip_levels == self@.mip_levels,
    {
        self.mip_levels
    }

    /// The memory that backs the image, from the binding to the release.
    pub fn allocation(&self) -> (allocation: &Option<Allocation>)
        ensures
            *allocation == self@.allocation,
    {
        &self.allocation
    }
}

/// The bytes of the pixels of a texture; `None` where they do not fit
/// thirty-two bits.
pub fn texture_byte_size(extent: Extent3D) -> (size: Option<u64>)
    ensures
        size is Some <==> texture_bytes(extent) <= u32::MAX,
        size matches Some(bytes) ==> bytes == texture_bytes(extent),
{
    let limit: u64 = u32::MAX as u64;
    assert(extent.width * extent.height <= 0xFFFF_FFFF * 0xFFFF_FFFF) by (nonlinear_arith)
        requires
            extent.width <= 0xFFFF_FFFF,
            extent.height <= 0xFFFF_FFFF,
    ;
    let area: u64 = (extent.width as u64) * (extent.height as u64);
    if extent.depth == 0 || area == 0 {
        assert(texture_bytes(extent) == 0) by (nonlinear_arith)
            requires
                extent.depth == 0 || extent.width * extent.height == 0,
        ;
        return Some(0);
    }
    if area > limit {
        assert(texture_bytes(extent) > u32::MAX) by (nonlinear_arith)
            requires
                extent.width * extent.height > u32::MAX,
                extent.depth >= 1,
        ;
        return None;
    }
    assert(area * extent.depth <= 0xFFFF_FFFF * 0xFFFF_FFFF) by (nonlinear_arith)
        requires
            area <= 0xFFFF_FFFF,
            extent.depth <= 0xFFFF_FFFF,
    ;
    let volume: u64 = area * (extent.depth as u64);
    if volume > limit {
        return None;
    }
    let bytes: u64 = volume * 4;
    if bytes > limit {
        None
    } else {
        Some(bytes)
    }
}

/// The mathematical content of an `AllocatedBuffer`.
pub struct BufferState {
    pub buffer: u64,
    pub allocation: Option<Allocation>,
    pub name: Seq<char>,
    pub usage: u32,
    pub size: u64,
    pub location: MemoryLocation,
    pub stage: ResourceStage,
}

impl BufferState {
    /// The backing allocation exists exactly while the buffer is complete.
    pub open spec fn wf(self) -> bool {
        &&& self.allocation is Some <==> self.stage is Ready
        &&& !(self.stage is AwaitingView)
    }

    /// A buffer can be written by the CPU when its memory was asked for at
    /// the upload location.
    pub open spec fn cpu_accessible(self) -> bool {
        self.location == MemoryLocation::CpuToGpu
    }

    pub open spec fn described(name: Seq<char>, usage: u32, size: u64, location: MemoryLocation)
        -> BufferState {
        BufferState {
            buffer: 0,
            allocation: None,
            name,
            usage,
            size,
            location,
            stage: ResourceStage::AwaitingHandle,
        }
    }

    /// Whether this is the buffer that `described` describes, created and
    /// complete.
    pub open spec fn completes(self, described: BufferState) -> bool {
        &&& self.wf()
        &&& self.stage is Ready
        &&& self.name == described.name
        &&& self.usage == described.usage
        &&& self.size == described.size
        &&& self.location == described.location
    }

    pub open spec fn create_info(self) -> BufferCreateInfo {
        BufferCreateInfo { size: self.size, usage: self.usage }
    }

    /// The teardown of a complete buffer: the memory, then the buffer.
    pub open spec fn teardown(self) -> Seq<TeardownStep> {
        seq![
            TeardownStep::FreeAllocation(self.allocation->0),
            TeardownStep::DestroyBuffer(self.buffer),
        ]
    }
}

/// Where a copy into device memory was placed, in bytes from the start of
/// the allocation.
#[derive(Clone, Copy, Debug, PartialEq, Eq, Structural)]
pub struct CopyRecord {
    pub copy_start_offset: usize,
    pub copy_end_offset: usize,
    pub copy_end_offset_padded: usize,
}

/// Why a copy into a buffer came to nothing.
#[derive(Clone, Copy, Debug, PartialEq, Eq, Structural)]
pub enum CopyError {
    /// The copy would run past the end of the allocation.
    OutOfMemory,
    /// The copy would start outside the allocation.
    OffsetOutOfBounds,
    /// Size, offset or alignment are beyond what a layout can hold.
    InvalidLayout,
    /// The copy was moved off the offset asked for to keep its alignment.
    Misplaced,
}

/// A buffer with its memory, from its description to its teardown.
///
/// Creation goes through the stages of `ResourceStage` in order, without
/// the view: the buffer handle is created, its memory requirements are
/// asked for, memory is allocated and bound. `release` names the teardown
/// in the reverse order. A buffer has one owner and is not copied, so that
/// it is given up once.
#[derive(Debug)]
pub struct AllocatedBuffer<'a> {
    buffer: u64,
    allocation: Option<Allocation>,
    name: &'a str,
    usage: u32,
    size: u64,
    location: MemoryLocation,
    stage: ResourceStage,
}

impl<'a> View for AllocatedBuffer<'a> {
    type V = BufferState;

    closed spec fn view(&self) -> BufferState {
        BufferState {
            buffer: self.buffer,
            allocation: self.allocation,
            name: self.name@,
            usage: self.usage,
            size: self.size,
            location: self.location,
            stage: self.stage,
        }
    }
}

impl<'a> AllocatedBuffer<'a> {
    /// Describes a buffer of a fixed size. Nothing is created yet: the
    /// caller creates the buffer from the returned description and reports
    /// it to `buffer_created`.
    pub fn new(
        device: &Device,
        buffer_name: &'a str,
        usage: u32,
        size: u64,
        location: MemoryLocation,
    ) -> (created: (Self, BufferCreateInfo))
        ensures
            created.0@ == BufferState::described(buffer_name@, usage, size, location),
            created.1 == created.0@.create_info(),
            created.0@.wf(),
    {
        let buffer = AllocatedBuffer {
            buffer: 0,
            allocation: None,
            name: buffer_name,
            usage,
            size,
            location,
            stage: ResourceStage::AwaitingHandle,
        };
        (buffer, device.create_buffer(usage, size))
    }

    /// Takes in the created buffer handle. The caller asks for its memory
    /// requirements next.
    pub fn buffer_created(&mut self, buffer: u64)
        requires
            old(self)@.stage is AwaitingHandle,
            old(self)@.wf(),
        ensures
            final(self)@ == (BufferState {
                buffer,
                stage: ResourceStage::AwaitingRequirements,
                ..old(self)@
            }),
            final(self)@.wf(),
    {
        self.buffer = buffer;
        self.stage = ResourceStage::AwaitingRequirements;
    }

    /// Takes in the memory requirements of the buffer and names the memory
    /// to ask for.
    pub fn allocate(&mut self, allocator: &Allocator, requirements: MemoryRequirements) -> (desc:
        AllocationCreateDesc<'a>)
        requires
            old(self)@.stage is AwaitingRequirements,
            old(self)@.wf(),
        ensures
            final(self)@ == (BufferState {
                stage: ResourceStage::AwaitingAllocation,
                ..old(self)@
            }),
            final(self)@.wf(),
            desc.name@ == old(self)@.name,
            desc.requirements == requirements,
            desc.location == old(self)@.location,
            desc.linear,
    {
        self.stage = ResourceStage::AwaitingAllocation;
        allocator.allocate_buffer(self.name, requirements, self.location)
    }

    /// Takes in the allocation and names the binding of the buffer to it:
    /// the buffer is complete.
    pub fn bind(&mut self, allocator: &Allocator, allocation: Allocation) -> (binding: BindMemory)
        requires
            old(self)@.stage is AwaitingAllocation,
            old(self)@.wf(),
        ensures
            final(self)@ == (BufferState {
                allocation: Some(allocation),
                stage: ResourceStage::Ready,
                ..old(self)@
            }),
            final(self)@.wf(),
            binding == (BindMemory {
                resource: old(self)@.buffer,
                memory: allocation.memory,
                offset: allocation.offset,
            }),
    {
        let binding = allocator.bind(self.buffer, &allocation);
        self.allocation = Some(allocation);
        self.stage = ResourceStage::Ready;
        binding
    }

    /// Whether the CPU may write to the buffer.
    pub fn cpu_accessible(&self) -> (accessible: bool)
        ensures
            accessible == self@.cpu_accessible(),
    {
        match self.location {
            MemoryLocation::CpuToGpu => true,
            _ => false,
        }
    }

    /// Judges a copy into the buffer's memory that was asked to start at
    /// `offset`: it stands if it was made and starts exactly there.
    pub fn copy_from_slice(&self, offset: usize, copied: Result<CopyRecord, CopyError>) -> (outcome:
        Result<CopyRecord, CopyError>)
        requires
            self@.cpu_accessible(),
        ensures
            outcome == match copied {
                Ok(record) => if record.copy_start_offset == offset {
                    Ok::<CopyRecord, CopyError>(record)
                } else {
                    Err::<CopyRecord, CopyError>(CopyError::Misplaced)
                },
                Err(error) => Err::<CopyRecord, CopyError>(error),
            },
    {
        match copied {
            Ok(record) => {
                if record.copy_start_offset == offset {
                    Ok(record)
                } else {
                    Err(CopyError::Misplaced)
                }
            },
            Err(error) => Err(error),
        }
    }

    /// Gives the buffer up and names its teardown: the memory is freed,
    /// then the buffer destroyed.
    pub fn release(&mut self) -> (steps: Vec<TeardownStep>)
        requires
            old(self)@.stage is Ready,
            old(self)@.wf(),
        ensures
            steps@ == old(self)@.teardown(),
            final(self)@ == (BufferState {
                allocation: None,
                stage: ResourceStage::Released,
                ..old(self)@
            }),
            final(self)@.wf(),
    {
        let mut steps: Vec<TeardownStep> = Vec::new();
        match self.allocation.take() {
            Some(allocation) => {
                steps.push(TeardownStep::FreeAllocation(allocation));
            },
            None => {},
        }
        steps.push(TeardownStep::DestroyBuffer(self.buffer));
        self.stage = ResourceStage::Released;
        assert(steps@ =~= old(self)@.teardown());
        steps
    }

    pub fn stage(&self) -> (stage: ResourceStage)
        ensures
            stage == self@.stage,
    {
        self.stage
    }

    pub fn buffer(&self) -> (buffer: u64)
        ensures
            buffer == self@.buffer,
    {
        self.buffer
    }

    pub fn size(&self) -> (size: u64)
        ensures
            size == self@.size,
    {
        self.size
    }

    /// The memory that backs the buffer while it is complete.
    pub fn allocation(&self) -> (allocation: &Option<Allocation>)
        ensures
            *allocation == self@.allocation,
    {
        &self.allocation
    }
}

} // verus!
