use crate::constants::ACCESS_MEMORY_READ;
use crate::constants::ACCESS_MEMORY_WRITE;
use crate::constants::COMMAND_BUFFER_LEVEL_PRIMARY;
use crate::constants::COMMAND_POOL_CREATE_RESET_COMMAND_BUFFER;
use crate::constants::COMPONENT_SWIZZLE_IDENTITY;
use crate::constants::FILTER_LINEAR;
use crate::constants::IMAGE_ASPECT_COLOR;
use crate::constants::IMAGE_ASPECT_DEPTH;
use crate::constants::IMAGE_LAYOUT_DEPTH_ATTACHMENT_OPTIMAL;
use crate::constants::IMAGE_LAYOUT_TRANSFER_DST_OPTIMAL;
use crate::constants::IMAGE_LAYOUT_TRANSFER_SRC_OPTIMAL;
use crate::constants::IMAGE_TILING_OPTIMAL;
use crate::constants::IMAGE_TYPE_2D;
use crate::constants::IMAGE_VIEW_TYPE_2D;
use crate::constants::PIPELINE_BIND_POINT_COMPUTE;
use crate::constants::PIPELINE_STAGE_ALL_COMMANDS;
use crate::constants::REMAINING_ARRAY_LAYERS;
use crate::constants::REMAINING_MIP_LEVELS;
use crate::constants::SAMPLE_COUNT_1;
use crate::instance::QueueFamilyIndices;
use crate::physical_device::required_device_extensions;
use crate::physical_device::required_extension_names;
use crate::physical_device::SupportedFeatures;
use crate::window::AcquireInfo;
use crate::window::LogicalSize;
use crate::window::PresentInfo;
use vstd::prelude::*;

verus! {

#[derive(Clone, Copy, Debug, PartialEq, Eq, Structural)]
pub struct Extent2D {
    pub width: u32,
    pub height: u32,
}

#[derive(Clone, Copy, Debug, PartialEq, Eq, Structural)]
pub struct Extent3D {
    pub width: u32,
    pub height: u32,
    pub depth: u32,
}

#[derive(Clone, Copy, Debug, PartialEq, Eq, Structural)]
pub struct Offset3D {
    pub x: i32,
    pub y: i32,
    pub z: i32,
}

/// The mip levels and array layers of an image that a command reaches.
#[derive(Clone, Copy, Debug, PartialEq, Eq, Structural)]
pub struct ImageSubresourceRange {
    pub aspect_mask: u32,
    pub base_mip_level: u32,
    pub level_count: u32,
    pub base_array_layer: u32,
    pub layer_count: u32,
}

/// One mip level and some array layers of an image.
#[derive(Clone, Copy, Debug, PartialEq, Eq, Structural)]
pub struct ImageSubresourceLayers {
    pub aspect_mask: u32,
    pub mip_level: u32,
    pub base_array_layer: u32,
    pub layer_count: u32,
}

/// A barrier that moves an image from one layout to another.
#[derive(Clone, Copy, Debug, PartialEq, Eq, Structural)]
pub struct ImageMemoryBarrier {
    pub src_stage_mask: u64,
    pub src_access_mask: u64,
    pub dst_stage_mask: u64,
    pub dst_access_mask: u64,
    pub old_layout: i32,
    pub new_layout: i32,
    pub image: u64,
    pub subresource_range: ImageSubresourceRange,
}

/// A scaled copy of one image region onto another.
#[derive(Clone, Copy, Debug, PartialEq, Eq, Structural)]
pub struct BlitImageInfo {
    pub src_image: u64,
    pub src_image_layout: i32,
    pub dst_image: u64,
    pub dst_image_layout: i32,
    pub filter: i32,
    pub src_subresource: ImageSubresourceLayers,
    pub src_start: Offset3D,
    pub src_end: Offset3D,
    pub dst_subresource: ImageSubresourceLayers,
    pub dst_start: Offset3D,
    pub dst_end: Offset3D,
}

/// A copy of tightly packed buffer contents into an image region.
#[derive(Clone, Copy, Debug, PartialEq, Eq, Structural)]
pub struct BufferImageCopy {
    pub buffer_offset: u64,
    pub buffer_row_length: u32,
    pub buffer_image_height: u32,
    pub image_subresource: ImageSubresourceLayers,
    pub image_offset: Offset3D,
    pub image_extent: Extent3D,
}

/// A copy of a byte range from one buffer to another.
#[derive(Clone, Copy, Debug, PartialEq, Eq, Structural)]
pub struct BufferCopy {
    pub src_offset: u64,
    pub dst_offset: u64,
    pub size: u64,
}

/// A color to clear to: red, green, blue and alpha, each the bit pattern
/// of a float.
#[derive(Clone, Copy, Debug, PartialEq, Eq, Structural)]
pub struct ClearColorValue {
    pub red: u32,
    pub green: u32,
    pub blue: u32,
    pub alpha: u32,
}

/// What an attachment is cleared to where its load operation clears it.
/// The depth is the bit pattern of a float.
#[derive(Clone, Copy, Debug, PartialEq, Eq, Structural)]
pub enum ClearValue {
    Color(ClearColorValue),
    DepthStencil { depth: u32, stencil: u32 },
}

/// The clear value of an attachment that is not cleared: all zero.
pub open spec fn no_clear() -> ClearValue {
    ClearValue::Color(ClearColorValue { red: 0, green: 0, blue: 0, alpha: 0 })
}

/// One attachment of a dynamic rendering pass.
#[derive(Clone, Copy, Debug, PartialEq, Eq, Structural)]
pub struct RenderingAttachmentInfo {
    pub image_view: u64,
    pub image_layout: i32,
    pub load_op: i32,
    pub store_op: i32,
    pub clear_value: ClearValue,
}

/// The part of the target that is drawn to: a rectangle from the origin,
/// `width` by `height` pixels, and the range of depths, each depth the bit
/// pattern of a float.
#[derive(Clone, Copy, Debug, PartialEq, Eq, Structural)]
pub struct Viewport {
    pub width: u32,
    pub height: u32,
    pub min_depth: u32,
    pub max_depth: u32,
}

/// A dynamic rendering pass over one color and one depth attachment.
#[derive(Clone, Copy, Debug, PartialEq, Eq, Structural)]
pub struct RenderingInfo {
    pub render_area: Extent2D,
    pub layer_count: u32,
    pub color_attachment: RenderingAttachmentInfo,
    pub depth_attachment: RenderingAttachmentInfo,
}

/// One command as it is recorded into a command buffer. Each carries all
/// that is recorded with it: whoever records it adds nothing.
#[derive(Clone, Copy, Debug, PartialEq, Eq)]
pub enum Command {
    PipelineBarrier(ImageMemoryBarrier),
    BlitImage(BlitImageInfo),
    CopyBufferToImage { src_buffer: u64, dst_image: u64, dst_image_layout: i32, region: BufferImageCopy },
    CopyBuffer { src_buffer: u64, dst_buffer: u64, range: BufferCopy },
    BindPipeline { bind_point: i32, pipeline: u64 },
    BindDescriptorSet { bind_point: i32, layout: u64, set_index: u32, descriptor_set: u64 },
    /// Pushes sixteen floats, each as its bit pattern, at offset zero.
    PushConstants { layout: u64, stage_flags: u32, data: [u32; 16] },
    /// Pushes the world matrix of a mesh, as the bit patterns of sixteen
    /// floats, and behind it the address of its vertices, at offset zero.
    PushDrawConstants {
        layout: u64,
        stage_flags: u32,
        world_matrix: [u32; 16],
        device_address: u64,
    },
    Dispatch { x: u32, y: u32, z: u32 },
    BeginRendering(RenderingInfo),
    SetViewport(Viewport),
    SetScissor(Extent2D),
    BindIndexBuffer { buffer: u64, offset: u64, index_type: i32 },
    DrawIndexed {
        index_count: u32,
        instance_count: u32,
        first_index: u32,
        vertex_offset: i32,
        first_instance: u32,
    },
    EndRendering,
}

/// A semaphore as a submission waits for it or signals it.
#[derive(Clone, Copy, Debug, PartialEq, Eq, Structural)]
pub struct SemaphoreSubmitInfo {
    pub semaphore: u64,
    pub stage_mask: u64,
    pub value: u64,
    pub device_index: u32,
}

/// One command buffer handed to a queue, with the semaphore it waits for,
/// the semaphore it signals, and the fence that tells when it is done.
#[derive(Clone, Copy, Debug, PartialEq, Eq, Structural)]
pub struct SubmitInfo {
    pub queue: u64,
    pub command_buffer: u64,
    pub wait_semaphore: Option<SemaphoreSubmitInfo>,
    pub signal_semaphore: Option<SemaphoreSubmitInfo>,
    pub fence: u64,
}

/// One thing asked of the device outside of a command buffer, or one
/// command recorded into the buffer that is open.
#[derive(Clone, Copy, Debug, PartialEq, Eq)]
pub enum QueueStep {
    /// Block until the device has retired all work.
    WaitIdle,
    /// Drop the swapchain and build one for a window of this size.
    RecreateSwapchain(LogicalSize),
    /// Block until the fence is signaled or the nanoseconds have passed.
    WaitForFence { fence: u64, timeout: u64 },
    ResetFence(u64),
    ResetDescriptorPool(u64),
    AcquireImage(AcquireInfo),
    ResetCommandBuffer(u64),
    BeginCommandBuffer { command_buffer: u64, flags: u32 },
    Record(Command),
    EndCommandBuffer(u64),
    Submit(SubmitInfo),
    Present(PresentInfo),
}

/// Each of `commands` as a step that records it.
pub open spec fn recorded(commands: Seq<Command>) -> Seq<QueueStep> {
    Seq::new(commands.len(), |i: int| QueueStep::Record(commands[i]))
}

/// Appends to `steps` one recording step for each of `commands`.
pub fn record_all(steps: &mut Vec<QueueStep>, commands: &Vec<Command>)
    ensures
        final(steps)@ == old(steps)@ + recorded(commands@),
{
    let mut i: usize = 0;
    while i < commands.len()
        invariant
            i <= commands.len(),
            steps@ == old(steps)@ + recorded(commands@.take(i as int)),
        decreases commands.len() - i,
    {
        steps.push(QueueStep::Record(commands[i]));
        i += 1;
        assert(steps@ =~= old(steps)@ + recorded(commands@.take(i as int)));
    }
    assert(commands@.take(i as int) == commands@);
}

#[derive(Clone, Copy, Debug, PartialEq, Eq, Structural)]
pub struct CommandPoolCreateInfo {
    pub flags: u32,
    pub queue_family_index: u32,
}

#[derive(Clone, Copy, Debug, PartialEq, Eq, Structural)]
pub struct CommandBufferAllocateInfo {
    pub command_pool: u64,
    pub level: i32,
    pub command_buffer_count: u32,
}

#[derive(Clone, Copy, Debug, PartialEq, Eq, Structural)]
pub struct ImageCreateInfo {
    pub image_type: i32,
    pub format: i32,
    pub extent: Extent3D,
    pub mip_levels: u32,
    pub array_layers: u32,
    pub samples: u32,
    pub tiling: i32,
    pub usage: u32,
}

#[derive(Clone, Copy, Debug, PartialEq, Eq, Structural)]
pub struct ImageViewCreateInfo {
    pub image: u64,
    pub view_type: i32,
    pub format: i32,
    pub swizzle: i32,
    pub subresource_range: ImageSubresourceRange,
}

#[derive(Clone, Copy, Debug, PartialEq, Eq, Structural)]
pub struct BufferCreateInfo {
    pub size: u64,
    pub usage: u32,
}

/// One queue of full priority requested from a queue family.
#[derive(Clone, Copy, Debug, PartialEq, Eq, Structural)]
pub struct DeviceQueueCreateInfo {
    pub queue_family_index: u32,
    pub queue_count: u32,
}

/// What a logical device is created with.
#[derive(Debug)]
pub struct DeviceCreateInfo {
    pub queue_create_infos: Vec<DeviceQueueCreateInfo>,
    pub enabled_extensions: Vec<String>,
    pub features: SupportedFeatures,
}

/// The logical execution context: the queue families in use and their
/// queues. It describes every object it creates and every command it
/// records; the caller hands the descriptions to the graphics API.
#[derive(Clone, Copy, Debug, PartialEq, Eq, Structural)]
pub struct Device {
    physical_device: u64,
    graphics_queue: u64,
    graphics_queue_family_idx: u32,
    presentation_queue: u64,
    presentation_queue_family_idx: u32,
}

/// The aspect that a layout transition reaches: depth when the image moves
/// to the depth attachment layout, color else.
pub open spec fn transition_aspect(new_layout: i32) -> u32 {
    if new_layout == IMAGE_LAYOUT_DEPTH_ATTACHMENT_OPTIMAL {
        IMAGE_ASPECT_DEPTH
    } else {
        IMAGE_ASPECT_COLOR
    }
}

/// Every mip level and array layer of one aspect.
pub open spec fn whole_image(aspect_mask: u32) -> ImageSubresourceRange {
    ImageSubresourceRange {
        aspect_mask,
        base_mip_level: 0,
        level_count: REMAINING_MIP_LEVELS,
        base_array_layer: 0,
        layer_count: REMAINING_ARRAY_LAYERS,
    }
}

/// The barrier of a layout transition: it waits for every earlier command's
/// writes and holds back every later command's reads and writes.
pub open spec fn layout_transition(image: u64, current_layout: i32, new_layout: i32) -> Command {
    Command::PipelineBarrier(
        ImageMemoryBarrier {
            src_stage_mask: PIPELINE_STAGE_ALL_COMMANDS,
            src_access_mask: ACCESS_MEMORY_WRITE,
            dst_stage_mask: PIPELINE_STAGE_ALL_COMMANDS,
            dst_access_mask: ACCESS_MEMORY_WRITE | ACCESS_MEMORY_READ,
            old_layout: current_layout,
            new_layout,
            image,
            subresource_range: whole_image(transition_aspect(new_layout)),
        },
    )
}

/// The first mip level and array layer of the color aspect.
pub open spec fn color_base_layer() -> ImageSubresourceLayers {
    ImageSubresourceLayers {
        aspect_mask: IMAGE_ASPECT_COLOR,
        mip_level: 0,
        base_array_layer: 0,
        layer_count: 1,
    }
}

/// The corner opposite the origin of a region of size `size`.
pub open spec fn far_corner(size: Extent2D) -> Offset3D {
    Offset3D { x: size.width as i32, y: size.height as i32, z: 1 }
}

/// The blit of the region `src_size` of one image onto the region
/// `dst_size` of another, both starting at the origin, with linear
/// filtering.
pub open spec fn image_blit(src_image: u64, dst_image: u64, src_size: Extent2D, dst_size: Extent2D)
    -> Command {
    Command::BlitImage(
        BlitImageInfo {
            src_image,
            src_image_layout: IMAGE_LAYOUT_TRANSFER_SRC_OPTIMAL,
            dst_image,
            dst_image_layout: IMAGE_LAYOUT_TRANSFER_DST_OPTIMAL,
            filter: FILTER_LINEAR,
            src_subresource: color_base_layer(),
            src_start: Offset3D { x: 0, y: 0, z: 0 },
            src_end: far_corner(src_size),
            dst_subresource: color_base_layer(),
            dst_start: Offset3D { x: 0, y: 0, z: 0 },
            dst_end: far_corner(dst_size),
        },
    )
}

/// The queue families to request queues from: the graphics family, and the
/// presentation family where it is another one.
pub open spec fn unique_queue_families(graphics: u32, presentation: u32) -> Seq<
    DeviceQueueCreateInfo,
> {
    if graphics == presentation {
        seq![DeviceQueueCreateInfo { queue_family_index: graphics, queue_count: 1 }]
    } else {
        seq![
            DeviceQueueCreateInfo { queue_family_index: graphics, queue_count: 1 },
            DeviceQueueCreateInfo { queue_family_index: presentation, queue_count: 1 },
        ]
    }
}

/// The features that the renderer switches on.
pub open spec fn required_features() -> SupportedFeatures {
    SupportedFeatures {
        buffer_device_address: true,
        descriptor_indexing: true,
        dynamic_rendering: true,
        synchronization2: true,
    }
}

/// The commands of a compute dispatch: bind the pipeline, bind each
/// descriptor set at its index, dispatch.
pub open spec fn compute_commands(
    pipeline: u64,
    layout: u64,
    descriptor_sets: Seq<u64>,
    group_counts: [u32; 3],
) -> Seq<Command> {
    seq![Command::BindPipeline { bind_point: PIPELINE_BIND_POINT_COMPUTE, pipeline }] + Seq::new(
        descriptor_sets.len(),
        |i: int|
            Command::BindDescriptorSet {
                bind_point: PIPELINE_BIND_POINT_COMPUTE,
                layout,
                set_index: i as u32,
                descriptor_set: descriptor_sets[i],
            },
    ) + seq![Command::Dispatch { x: group_counts[0], y: group_counts[1], z: group_counts[2] }]
}

/// The view of one swapchain image: its color aspect, first level and layer.
pub open spec fn swapchain_view(format: i32, image: u64) -> ImageViewCreateInfo {
    ImageViewCreateInfo {
        image,
        view_type: IMAGE_VIEW_TYPE_2D,
        format,
        swizzle: COMPONENT_SWIZZLE_IDENTITY,
        subresource_range: ImageSubresourceRange {
            aspect_mask: IMAGE_ASPECT_COLOR,
            base_mip_level: 0,
            level_count: 1,
            base_array_layer: 0,
            layer_count: 1,
        },
    }
}

impl Device {
    pub closed spec fn graphics_family(self) -> u32 {
        self.graphics_queue_family_idx
    }

    pub closed spec fn presentation_family(self) -> u32 {
        self.presentation_queue_family_idx
    }

    pub closed spec fn graphics_queue_handle(self) -> u64 {
        self.graphics_queue
    }

    pub closed spec fn presentation_queue_handle(self) -> u64 {
        self.presentation_queue
    }

    pub closed spec fn physical_device_handle(self) -> u64 {
        self.physical_device
    }

    /// Describes the logical device for the chosen queue families: one
    /// queue per distinct family, the swapchain extension, and the features
    /// the renderer needs. `None` where a family is missing.
    pub fn create_info(indices: &QueueFamilyIndices) -> (info: Option<DeviceCreateInfo>)
        ensures
            info is Some <==> indices.graphics_family is Some && indices.presentation_family
                is Some,
            info matches Some(described) ==> {
                &&& described.queue_create_infos@ == unique_queue_families(
                    indices.graphics_family->0,
                    indices.presentation_family->0,
                )
                &&& described.enabled_extensions.deep_view() == required_extension_names()
                &&& described.features == required_features()
            },
    {
        match (indices.graphics_family, indices.presentation_family) {
            (Some(graphics), Some(presentation)) => {
                let mut queue_create_infos: Vec<DeviceQueueCreateInfo> = Vec::new();
                queue_create_infos.push(
                    DeviceQueueCreateInfo { queue_family_index: graphics, queue_count: 1 },
                );
                if graphics != presentation {
                    queue_create_infos.push(
                        DeviceQueueCreateInfo { queue_family_index: presentation, queue_count: 1 },
                    );
                }
                assert(queue_create_infos@ =~= unique_queue_families(graphics, presentation));
                Some(
                    DeviceCreateInfo {
                        queue_create_infos,
                        enabled_extensions: required_device_extensions(),
                        features: SupportedFeatures {
                            buffer_device_address: true,
                            descriptor_indexing: true,
                            dynamic_rendering: true,
                            synchronization2: true,
                        },
                    },
                )
            },
            _ => None,
        }
    }

    /// The device context for the chosen families and the queues that the
    /// created device handed out. `None` where a family is missing.
    pub fn new(
        physical_device: u64,
        indices: &QueueFamilyIndices,
        graphics_queue: u64,
        presentation_queue: u64,
    ) -> (device: Option<Device>)
        ensures
            device is Some <==> indices.graphics_family is Some && indices.presentation_family
                is Some,
            device matches Some(created) ==> {
                &&& created.physical_device_handle() == physical_device
                &&& created.graphics_family() == indices.graphics_family->0
                &&& created.presentation_family() == indices.presentation_family->0
                &&& created.graphics_queue_handle() == graphics_queue
                &&& created.presentation_queue_handle() == presentation_queue
            },
    {
        match (indices.graphics_family, indices.presentation_family) {
            (Some(graphics), Some(presentation)) => Some(
                Device {
                    physical_device,
                    graphics_queue,
                    graphics_queue_family_idx: graphics,
                    presentation_queue,
                    presentation_queue_family_idx: presentation,
                },
            ),
            _ => None,
        }
    }

    /// A command pool on the graphics family whose buffers can be reset one
    /// by one.
    pub fn create_command_pool(&self) -> (info: CommandPoolCreateInfo)
        ensures
            info == (CommandPoolCreateInfo {
                flags: COMMAND_POOL_CREATE_RESET_COMMAND_BUFFER,
                queue_family_index: self.graphics_family(),
            }),
    {
        CommandPoolCreateInfo {
            flags: COMMAND_POOL_CREATE_RESET_COMMAND_BUFFER,
            queue_family_index: self.graphics_queue_family_idx,
        }
    }

    /// One primary command buffer from `command_pool`.
    pub fn create_command_buffer(&self, command_pool: u64) -> (info: CommandBufferAllocateInfo)
        ensures
            info == (CommandBufferAllocateInfo {
                command_pool,
                level: COMMAND_BUFFER_LEVEL_PRIMARY,
                command_buffer_count: 1,
            }),
    {
        CommandBufferAllocateInfo {
            command_pool,
            level: COMMAND_BUFFER_LEVEL_PRIMARY,
            command_buffer_count: 1,
        }
    }

    pub fn get_graphics_queue_idx(&self) -> (index: u32)
        ensures
            index == self.graphics_family(),
    {
        self.graphics_queue_family_idx
    }

    pub fn get_presentation_queue_idx(&self) -> (index: u32)
        ensures
            index == self.presentation_family(),
    {
        self.presentation_queue_family_idx
    }

    pub fn get_graphics_queue(&self) -> (queue: u64)
        ensures
            queue == self.graphics_queue_handle(),
    {
        self.graphics_queue
    }

    pub fn get_presentation_queue(&self) -> (queue: u64)
        ensures
            queue == self.presentation_queue_handle(),
    {
        self.presentation_queue
    }

    pub fn physical_device(&self) -> (handle: u64)
        ensures
            handle == self.physical_device_handle(),
    {
        self.physical_device
    }

    /// A two-dimensional image of one layer and one sample, tiled as the
    /// device likes best.
    pub fn create_image(&self, format: i32, usage_flags: u32, extent: Extent3D, mip_levels: u32) -> (info:
        ImageCreateInfo)
        ensures
            info == (ImageCreateInfo {
                image_type: IMAGE_TYPE_2D,
                format,
                extent,
                mip_levels,
                array_layers: 1,
                samples: SAMPLE_COUNT_1,
                tiling: IMAGE_TILING_OPTIMAL,
                usage: usage_flags,
            }),
    {
        ImageCreateInfo {
            image_type: IMAGE_TYPE_2D,
            format,
            extent,
            mip_levels,
            array_layers: 1,
            samples: SAMPLE_COUNT_1,
            tiling: IMAGE_TILING_OPTIMAL,
            usage: usage_flags,
        }
    }

    /// A view of the first `mip_levels` levels of the first layer of
    /// `image`.
    pub fn create_image_view(&self, image: u64, format: i32, aspect_flags: u32, mip_levels: u32) -> (info:
        ImageViewCreateInfo)
        ensures
            info == (ImageViewCreateInfo {
                image,
                view_type: IMAGE_VIEW_TYPE_2D,
                format,
                swizzle: COMPONENT_SWIZZLE_IDENTITY,
                subresource_range: ImageSubresourceRange {
                    aspect_mask: aspect_flags,
                    base_mip_level: 0,
                    level_count: mip_levels,
                    base_array_layer: 0,
                    layer_count: 1,
                },
            }),
    {
        ImageViewCreateInfo {
            image,
            view_type: IMAGE_VIEW_TYPE_2D,
            format,
            swizzle: COMPONENT_SWIZZLE_IDENTITY,
            subresource_range: ImageSubresourceRange {
                aspect_mask: aspect_flags,
                base_mip_level: 0,
                level_count: mip_levels,
                base_array_layer: 0,
                layer_count: 1,
            },
        }
    }

    /// One color view per swapchain image, in the order of the images.
    pub fn create_image_views(&self, format: i32, swapchain_images: &[u64]) -> (views: Vec<
        ImageViewCreateInfo,
    >)
        ensures
            views@ == Seq::new(
                swapchain_images@.len(),
                |i: int| swapchain_view(format, swapchain_images@[i]),
            ),
    {
        let mut views: Vec<ImageViewCreateInfo> = Vec::new();
        let mut i: usize = 0;
        while i < swapchain_images.len()
            invariant
                i <= swapchain_images.len(),
                views@ == Seq::new(
                    i as nat,
                    |k: int| swapchain_view(format, swapchain_images@[k]),
                ),
            decreases swapchain_images.len() - i,
        {
            views.push(
                ImageViewCreateInfo {
                    image: swapchain_images[i],
                    view_type: IMAGE_VIEW_TYPE_2D,
                    format,
                    swizzle: COMPONENT_SWIZZLE_IDENTITY,
                    subresource_range: ImageSubresourceRange {
                        aspect_mask: IMAGE_ASPECT_COLOR,
                        base_mip_level: 0,
                        level_count: 1,
                        base_array_layer: 0,
                        layer_count: 1,
                    },
                },
            );
            i += 1;
            assert(views@ =~= Seq::new(
                i as nat,
                |k: int| swapchain_view(format, swapchain_images@[k]),
            ));
        }
        views
    }

    pub fn create_buffer(&self, usage: u32, size: u64) -> (info: BufferCreateInfo)
        ensures
            info == (BufferCreateInfo { size, usage }),
    {
        BufferCreateInfo { size, usage }
    }

    /// A wait for one fence.
    pub fn wait_for_fence(&self, fence: u64, timeout: u64) -> (step: QueueStep)
        ensures
            step == (QueueStep::WaitForFence { fence, timeout }),
    {
        QueueStep::WaitForFence { fence, timeout }
    }

    pub fn reset_fence(&self, fence: u64) -> (step: QueueStep)
        ensures
            step == QueueStep::ResetFence(fence),
    {
        QueueStep::ResetFence(fence)
    }

    pub fn begin_command_buffer(&self, command_buffer: u64, flags: u32) -> (step: QueueStep)
        ensures
            step == (QueueStep::BeginCommandBuffer { command_buffer, flags }),
    {
        QueueStep::BeginCommandBuffer { command_buffer, flags }
    }

    pub fn reset_command_buffer(&self, command_buffer: u64) -> (step: QueueStep)
        ensures
            step == QueueStep::ResetCommandBuffer(command_buffer),
    {
        QueueStep::ResetCommandBuffer(command_buffer)
    }

    pub fn end_command_buffer(&self, command_buffer: u64) -> (step: QueueStep)
        ensures
            step == QueueStep::EndCommandBuffer(command_buffer),
    {
        QueueStep::EndCommandBuffer(command_buffer)
    }

    pub fn reset_descriptor_pool(&self, pool: u64) -> (step: QueueStep)
        ensures
            step == QueueStep::ResetDescriptorPool(pool),
    {
        QueueStep::ResetDescriptorPool(pool)
    }

    /// The barrier that moves `image` from `current_layout` to `new_layout`.
    pub fn transition_image_layout(&self, image: u64, current_layout: i32, new_layout: i32) -> (command:
        Command)
        ensures
            command == layout_transition(image, current_layout, new_layout),
    {
        let aspect_mask = if new_layout == IMAGE_LAYOUT_DEPTH_ATTACHMENT_OPTIMAL {
            IMAGE_ASPECT_DEPTH
        } else {
            IMAGE_ASPECT_COLOR
        };
        Command::PipelineBarrier(
            ImageMemoryBarrier {
                src_stage_mask: PIPELINE_STAGE_ALL_COMMANDS,
                src_access_mask: ACCESS_MEMORY_WRITE,
                dst_stage_mask: PIPELINE_STAGE_ALL_COMMANDS,
                dst_access_mask: ACCESS_MEMORY_WRITE | ACCESS_MEMORY_READ,
                old_layout: current_layout,
                new_layout,
                image,
                subresource_range: ImageSubresourceRange {
                    aspect_mask,
                    base_mip_level: 0,
                    level_count: REMAINING_MIP_LEVELS,
                    base_array_layer: 0,
                    layer_count: REMAINING_ARRAY_LAYERS,
                },
            },
        )
    }

    /// The color range that a clear of a whole image reaches.
    pub fn cmd_clear_color_image(&self) -> (range: ImageSubresourceRange)
        ensures
            range == whole_image(IMAGE_ASPECT_COLOR),
    {
        ImageSubresourceRange {
            aspect_mask: IMAGE_ASPECT_COLOR,
            base_mip_level: 0,
            level_count: REMAINING_MIP_LEVELS,
            base_array_layer: 0,
            layer_count: REMAINING_ARRAY_LAYERS,
        }
    }

    /// The blit of `src_image`, in the transfer source layout, onto
    /// `dst_image`, in the transfer destination layout.
    pub fn copy_image_to_image(
        &self,
        src_image: u64,
        dst_image: u64,
        src_size: Extent2D,
        dst_size: Extent2D,
    ) -> (command: Command)
        ensures
            command == image_blit(src_image, dst_image, src_size, dst_size),
    {
        let layer = ImageSubresourceLayers {
            aspect_mask: IMAGE_ASPECT_COLOR,
            mip_level: 0,
            base_array_layer: 0,
            layer_count: 1,
        };
        Command::BlitImage(
            BlitImageInfo {
                src_image,
                src_image_layout: IMAGE_LAYOUT_TRANSFER_SRC_OPTIMAL,
                dst_image,
                dst_image_layout: IMAGE_LAYOUT_TRANSFER_DST_OPTIMAL,
                filter: FILTER_LINEAR,
                src_subresource: layer,
                src_start: Offset3D { x: 0, y: 0, z: 0 },
                src_end: Offset3D {
                    x: #[verifier::truncate]
                    (src_size.width as i32),
                    y: #[verifier::truncate]
                    (src_size.height as i32),
                    z: 1,
                },
                dst_subresource: layer,
                dst_start: Offset3D { x: 0, y: 0, z: 0 },
                dst_end: Offset3D {
                    x: #[verifier::truncate]
                    (dst_size.width as i32),
                    y: #[verifier::truncate]
                    (dst_size.height as i32),
                    z: 1,
                },
            },
        )
    }

    /// The submission of `submit_info` to the graphics queue, fenced by
    /// `fence`.
    pub fn submit_to_graphics_queue(&self, submit_info: SubmitInfo, fence: u64) -> (step: QueueStep)
        ensures
            step == QueueStep::Submit(
                SubmitInfo { queue: self.graphics_queue_handle(), fence, ..submit_info },
            ),
    {
        QueueStep::Submit(
            SubmitInfo {
                queue: self.graphics_queue,
                command_buffer: submit_info.command_buffer,
                wait_semaphore: submit_info.wait_semaphore,
                signal_semaphore: submit_info.signal_semaphore,
                fence,
            },
        )
    }

    pub fn wait_idle(&self) -> (step: QueueStep)
        ensures
            step == QueueStep::WaitIdle,
    {
        QueueStep::WaitIdle
    }

    /// The commands that run a compute pipeline over `group_counts` work
    /// groups.
    pub fn execute_compute_pipeline(
        &self,
        pipeline: u64,
        layout: u64,
        descriptor_sets: &[u64],
        group_counts: [u32; 3],
    ) -> (commands: Vec<Command>)
        requires
            descriptor_sets@.len() <= u32::MAX,
        ensures
            commands@ == compute_commands(pipeline, layout, descriptor_sets@, group_counts),
    {
        let mut commands: Vec<Command> = Vec::new();
        commands.push(Command::BindPipeline { bind_point: PIPELINE_BIND_POINT_COMPUTE, pipeline });
        let mut i: usize = 0;
        while i < descriptor_sets.len()
            invariant
                i <= descriptor_sets.len(),
                descriptor_sets@.len() <= u32::MAX,
                commands@ == seq![
                    Command::BindPipeline { bind_point: PIPELINE_BIND_POINT_COMPUTE, pipeline },
                ] + Seq::new(
                    i as nat,
                    |k: int|
                        Command::BindDescriptorSet {
                            bind_point: PIPELINE_BIND_POINT_COMPUTE,
                            layout,
                            set_index: k as u32,
                            descriptor_set: descriptor_sets@[k],
                        },
                ),
            decreases descriptor_sets.len() - i,
        {
            commands.push(
                Command::BindDescriptorSet {
                    bind_point: PIPELINE_BIND_POINT_COMPUTE,
                    layout,
                    set_index: i as u32,
                    descriptor_set: descriptor_sets[i],
                },
            );
            i += 1;
            assert(commands@ =~= seq![
                Command::BindPipeline { bind_point: PIPELINE_BIND_POINT_COMPUTE, pipeline },
            ] + Seq::new(
                i as nat,
                |k: int|
                    Command::BindDescriptorSet {
                        bind_point: PIPELINE_BIND_POINT_COMPUTE,
                        layout,
                        set_index: k as u32,
                        descriptor_set: descriptor_sets@[k],
                    },
            ));
        }
        commands.push(
            Command::Dispatch { x: group_counts[0], y: group_counts[1], z: group_counts[2] },
        );
        assert(commands@ =~= compute_commands(pipeline, layout, descriptor_sets@, group_counts));
        commands
    }
}

} // verus!
